//! A message board: one account holds a short message and the identity
//! that wrote it last.

use crate::account::{views, written, Account, AccountView, Identity};
use crate::wire::{
    flag_byte, flag_from_bytes, flag_of, flag_to_bytes, store, stored, text_bytes,
    text_from_bytes, text_of, text_to_bytes,
};
use vstd::bytes::*;
use vstd::prelude::*;
use vstd::slice::slice_subrange;
use vstd::string::*;
use vstd::utf8::*;

verus! {

/// The greatest length of a message, in bytes of UTF-8.
pub const MAX_MESSAGE_LENGTH: usize = 280;

/// Length of a record without its message: a flag, the four bytes of the
/// message's length and an address.
pub const FRAME_LEN: usize = 37;

/// Why an invocation of the message board was rejected.
#[derive(Clone, Copy, Debug, PartialEq, Eq, Hash, Structural)]
pub enum HelloWorldError {
    /// The board's storage is not owned by this program.
    WrongOwner,
    /// The board's account may not be written to.
    NotWritable,
    /// The writer did not authorise the invocation.
    MissingAuthorization,
    /// The message is empty.
    EmptyMessage,
    /// The message is longer than the board takes.
    MessageTooLong,
    /// The account's buffer cannot hold the record.
    BufferTooSmall,
    /// The bytes in the account are not a board record.
    MalformedRecord,
    /// The account holds no message yet.
    Uninitialized,
    /// The instruction bytes name no known operation, or their message is
    /// cut short or not UTF-8.
    InvalidInstruction,
    /// Fewer accounts were supplied than the operation takes.
    ShapeMismatch,
}

/// The fault that a result reports, or `None` for a success.
pub open spec fn fault_of(r: Result<(), HelloWorldError>) -> Option<HelloWorldError> {
    match r {
        Ok(_) => None,
        Err(e) => Some(e),
    }
}

/// The length of a message, in bytes of UTF-8.
pub open spec fn byte_len(message: Seq<char>) -> nat {
    encode_utf8(message).len()
}

/// A board, as mathematics.
pub struct MessageBoard {
    pub is_initialized: bool,
    pub message: Seq<char>,
    pub last_updater: Seq<u8>,
}

impl MessageBoard {
    /// The bytes of the record: the flag as one byte, the message behind
    /// its length, the last writer as its 32 bytes.
    pub open spec fn encode(self) -> Seq<u8> {
        seq![flag_byte(self.is_initialized)] + text_bytes(self.message) + self.last_updater
    }

    /// The record that `data` holds. The buffer must hold the record and
    /// nothing else.
    pub open spec fn decode(data: Seq<u8>) -> Option<MessageBoard> {
        if data.len() < FRAME_LEN {
            None
        } else {
            match (flag_of(data.subrange(0, 1)), text_of(data.subrange(1, data.len() - 32))) {
                (Some(is_initialized), Some(message)) => Some(
                    MessageBoard {
                        is_initialized,
                        message,
                        last_updater: data.subrange(data.len() - 32, data.len() as int),
                    },
                ),
                _ => None,
            }
        }
    }
}

/// The board record.
#[derive(Debug, PartialEq, Eq)]
pub struct HelloWorldAccount {
    /// Set once a message has been written.
    pub is_initialized: bool,
    /// The message.
    pub message: String,
    /// The identity that wrote the message.
    pub last_updater: Identity,
}

impl View for HelloWorldAccount {
    type V = MessageBoard;

    open spec fn view(&self) -> MessageBoard {
        MessageBoard {
            is_initialized: self.is_initialized,
            message: self.message@,
            last_updater: self.last_updater@,
        }
    }
}

/// Reading back the bytes of a text gives the text.
pub proof fn lemma_text_round_trip(text: Seq<char>)
    requires
        byte_len(text) <= u32::MAX,
    ensures
        text_bytes(text).len() == 4 + byte_len(text),
        text_of(text_bytes(text)) == Some(text),
{
    broadcast use {encode_utf8_valid_utf8, encode_utf8_decode_utf8};

    lemma_auto_spec_u32_to_from_le_bytes();
    let bytes = text_bytes(text);
    assert(bytes.subrange(0, 4) =~= spec_u32_to_le_bytes(byte_len(text) as u32));
    assert(bytes.subrange(4, bytes.len() as int) =~= encode_utf8(text));
}

/// Decoding an encoded board gives the board back, also from a buffer of
/// the record's length that the board was written into.
pub proof fn lemma_board_round_trip(board: MessageBoard, buffer: Seq<u8>)
    requires
        byte_len(board.message) <= u32::MAX,
        board.last_updater.len() == 32,
        buffer.len() == FRAME_LEN + byte_len(board.message),
    ensures
        board.encode().len() == FRAME_LEN + byte_len(board.message),
        MessageBoard::decode(board.encode()) == Some(board),
        stored(buffer, board.encode()) == board.encode(),
{
    lemma_text_round_trip(board.message);
    let data = board.encode();
    assert(data.subrange(0, 1) =~= seq![flag_byte(board.is_initialized)]);
    assert(data.subrange(1, data.len() - 32) =~= text_bytes(board.message));
    assert(data.subrange(data.len() - 32, data.len() as int) =~= board.last_updater);
    assert(stored(buffer, data) =~= data);
}

impl Clone for HelloWorldAccount {
    fn clone(&self) -> (copy: Self)
        ensures
            copy == *self,
    {
        HelloWorldAccount {
            is_initialized: self.is_initialized,
            message: self.message.clone(),
            last_updater: self.last_updater,
        }
    }
}

impl HelloWorldAccount {
    /// Reads a board record from the bytes of an account.
    pub fn try_from_slice(data: &[u8]) -> (r: Result<HelloWorldAccount, HelloWorldError>)
        ensures
            match r {
                Ok(record) => MessageBoard::decode(data@) == Some(record@),
                Err(e) => e == HelloWorldError::MalformedRecord && MessageBoard::decode(data@)
                    is None,
            },
    {
        let n: usize = data.len();
        if n < FRAME_LEN {
            return Err(HelloWorldError::MalformedRecord);
        }
        let is_initialized = match flag_from_bytes(slice_subrange(data, 0, 1)) {
            Some(flag) => flag,
            None => { return Err(HelloWorldError::MalformedRecord); },
        };
        let message = match text_from_bytes(slice_subrange(data, 1, n - 32)) {
            Some(text) => text,
            None => { return Err(HelloWorldError::MalformedRecord); },
        };
        let last_updater = match Identity::from_slice(slice_subrange(data, n - 32, n)) {
            Some(id) => id,
            None => { return Err(HelloWorldError::MalformedRecord); },
        };
        Ok(HelloWorldAccount { is_initialized, message, last_updater })
    }

    /// The bytes of the record, or `None` for a message whose length four
    /// bytes cannot hold.
    pub fn try_to_vec(&self) -> (r: Option<Vec<u8>>)
        ensures
            match r {
                Some(out) => byte_len(self@.message) <= u32::MAX && out@ == self@.encode()
                    && out@.len() == FRAME_LEN + byte_len(self@.message),
                None => byte_len(self@.message) > u32::MAX,
            },
    {
        if self.message.as_str().as_bytes().len() > u32::MAX as usize {
            return None;
        }
        let mut out = flag_to_bytes(self.is_initialized);
        let mut message = text_to_bytes(self.message.as_str());
        out.append(&mut message);
        self.last_updater.append_to(&mut out);
        proof {
            lemma_auto_spec_u32_to_from_le_bytes();
        }
        Some(out)
    }

    /// Why the record cannot be written into a buffer of `room` bytes, or
    /// `None` where it can.
    pub open spec fn serialize_fault(self, room: nat) -> Option<HelloWorldError> {
        if byte_len(self@.message) > u32::MAX {
            Some(HelloWorldError::MessageTooLong)
        } else if room < FRAME_LEN + byte_len(self@.message) {
            Some(HelloWorldError::BufferTooSmall)
        } else {
            None
        }
    }

    /// Writes the record over the beginning of an account's buffer, or
    /// leaves the buffer as it is when the record cannot be written.
    pub fn serialize(&self, buffer: &mut Vec<u8>) -> (r: Result<(), HelloWorldError>)
        ensures
            fault_of(r) == self.serialize_fault(old(buffer)@.len()),
            match r {
                Ok(()) => final(buffer)@ == stored(old(buffer)@, self@.encode()),
                Err(_) => *final(buffer) == *old(buffer),
            },
    {
        let bytes = match self.try_to_vec() {
            Some(bytes) => bytes,
            None => { return Err(HelloWorldError::MessageTooLong); },
        };
        if buffer.len() < bytes.len() {
            return Err(HelloWorldError::BufferTooSmall);
        }
        store(buffer, bytes.as_slice());
        Ok(())
    }
}

/// One operation on the board, as mathematics.
pub enum Command {
    SetMessage { message: Seq<char> },
    GetMessage,
}

impl Command {
    /// The bytes of the instruction: one byte that names the operation,
    /// and for a new message the message behind its length.
    pub open spec fn encode(self) -> Seq<u8> {
        match self {
            Command::SetMessage { message } => seq![0u8] + text_bytes(message),
            Command::GetMessage => seq![1u8],
        }
    }

    /// The instruction that `data` holds.
    pub open spec fn decode(data: Seq<u8>) -> Option<Command> {
        if data.len() >= 1 && data[0] == 0 {
            match text_of(data.subrange(1, data.len() as int)) {
                Some(message) => Some(Command::SetMessage { message }),
                None => None,
            }
        } else if data.len() == 1 && data[0] == 1 {
            Some(Command::GetMessage)
        } else {
            None
        }
    }

    /// How many accounts the operation takes.
    pub open spec fn arity(self) -> nat {
        match self {
            Command::SetMessage { .. } => 2,
            Command::GetMessage => 1,
        }
    }
}

/// One operation on the board, with the accounts it takes, in order.
#[derive(Debug, PartialEq, Eq)]
pub enum HelloWorldInstruction {
    /// Write a new message.
    /// Accounts: the board (writable), the writer (signer).
    SetMessage { message: String },
    /// Read the message.
    /// Accounts: the board.
    GetMessage,
}

impl View for HelloWorldInstruction {
    type V = Command;

    open spec fn view(&self) -> Command {
        match self {
            HelloWorldInstruction::SetMessage { message } => Command::SetMessage {
                message: message@,
            },
            HelloWorldInstruction::GetMessage => Command::GetMessage,
        }
    }
}

impl Clone for HelloWorldInstruction {
    fn clone(&self) -> (copy: Self)
        ensures
            copy == *self,
    {
        match self {
            HelloWorldInstruction::SetMessage { message } => HelloWorldInstruction::SetMessage {
                message: message.clone(),
            },
            HelloWorldInstruction::GetMessage => HelloWorldInstruction::GetMessage,
        }
    }
}

impl HelloWorldInstruction {
    /// Reads an instruction from its bytes.
    pub fn try_from_slice(data: &[u8]) -> (r: Result<HelloWorldInstruction, HelloWorldError>)
        ensures
            match r {
                Ok(instruction) => Command::decode(data@) == Some(instruction@),
                Err(e) => e == HelloWorldError::InvalidInstruction && Command::decode(data@)
                    is None,
            },
    {
        let n: usize = data.len();
        if n == 0 {
            return Err(HelloWorldError::InvalidInstruction);
        }
        let tag: u8 = data[0];
        if tag == 0 {
            match text_from_bytes(slice_subrange(data, 1, n)) {
                Some(message) => Ok(HelloWorldInstruction::SetMessage { message }),
                None => Err(HelloWorldError::InvalidInstruction),
            }
        } else if tag == 1 && n == 1 {
            Ok(HelloWorldInstruction::GetMessage)
        } else {
            Err(HelloWorldError::InvalidInstruction)
        }
    }

    /// The bytes of the instruction, or `None` for a message whose length
    /// four bytes cannot hold.
    pub fn try_to_vec(&self) -> (r: Option<Vec<u8>>)
        ensures
            match r {
                Some(out) => out@ == self@.encode(),
                None => self@ matches Command::SetMessage { message } && byte_len(message)
                    > u32::MAX,
            },
    {
        let mut out: Vec<u8> = Vec::new();
        match self {
            HelloWorldInstruction::SetMessage { message } => {
                if message.as_str().as_bytes().len() > u32::MAX as usize {
                    return None;
                }
                out.push(0u8);
                let mut text = text_to_bytes(message.as_str());
                out.append(&mut text);
            },
            HelloWorldInstruction::GetMessage => {
                out.push(1u8);
            },
        }
        assert(out@ =~= self@.encode());
        Some(out)
    }
}

/// Why writing a message is rejected, or `None` where it goes through. The
/// first reason that applies is the one reported.
pub open spec fn set_message_fault(
    program_id: Seq<u8>,
    account: AccountView,
    updater: AccountView,
    message: Seq<char>,
) -> Option<HelloWorldError> {
    if account.owner != program_id {
        Some(HelloWorldError::WrongOwner)
    } else if !account.is_writable {
        Some(HelloWorldError::NotWritable)
    } else if !updater.is_signer {
        Some(HelloWorldError::MissingAuthorization)
    } else if message.len() == 0 {
        Some(HelloWorldError::EmptyMessage)
    } else if byte_len(message) > MAX_MESSAGE_LENGTH {
        Some(HelloWorldError::MessageTooLong)
    } else if account.data.len() < FRAME_LEN + byte_len(message) {
        Some(HelloWorldError::BufferTooSmall)
    } else {
        None
    }
}

/// The board's account after `message` was written by `updater`.
pub open spec fn posted(
    account: AccountView,
    updater: AccountView,
    message: Seq<char>,
) -> AccountView {
    written(
        account,
        MessageBoard { is_initialized: true, message, last_updater: updater.key }.encode(),
    )
}

/// Writes a new message on the board, in place of the one before, and
/// records who wrote it.
pub fn set_message(
    program_id: &Identity,
    account: &mut Account,
    updater: &Account,
    new_message: String,
) -> (r: Result<(), HelloWorldError>)
    ensures
        fault_of(r) == set_message_fault(program_id@, old(account)@, updater@, new_message@),
        match r {
            Ok(()) => final(account)@ == posted(old(account)@, updater@, new_message@),
            Err(_) => *final(account) == *old(account),
        },
{
    if !account.owner.same_as(program_id) {
        return Err(HelloWorldError::WrongOwner);
    }
    if !account.is_writable {
        return Err(HelloWorldError::NotWritable);
    }
    if !updater.is_signer {
        return Err(HelloWorldError::MissingAuthorization);
    }
    if new_message.as_str().is_empty() {
        return Err(HelloWorldError::EmptyMessage);
    }
    if new_message.as_str().as_bytes().len() > MAX_MESSAGE_LENGTH {
        return Err(HelloWorldError::MessageTooLong);
    }
    let record = HelloWorldAccount {
        is_initialized: true,
        message: new_message,
        last_updater: updater.key,
    };
    match record.serialize(&mut account.data) {
        Ok(()) => Ok(()),
        Err(e) => Err(e),
    }
}

/// Why reading the message is rejected, or `None` where it goes through.
pub open spec fn get_message_fault(account: AccountView) -> Option<HelloWorldError> {
    match MessageBoard::decode(account.data) {
        None => Some(HelloWorldError::MalformedRecord),
        Some(board) => if !board.is_initialized {
            Some(HelloWorldError::Uninitialized)
        } else {
            None
        },
    }
}

/// Reads the message on the board.
pub fn get_message(account: &Account) -> (r: Result<String, HelloWorldError>)
    ensures
        match r {
            Ok(message) => get_message_fault(account@) is None && message@ == MessageBoard::decode(
                account@.data,
            ).unwrap().message,
            Err(e) => get_message_fault(account@) == Some(e),
        },
{
    let record = match HelloWorldAccount::try_from_slice(account.data.as_slice()) {
        Ok(record) => record,
        Err(e) => { return Err(e); },
    };
    if !record.is_initialized {
        return Err(HelloWorldError::Uninitialized);
    }
    Ok(record.message)
}

/// Why an invocation is rejected, or `None` where it goes through.
pub open spec fn process_fault(
    program_id: Seq<u8>,
    accounts: Seq<AccountView>,
    instruction_data: Seq<u8>,
) -> Option<HelloWorldError> {
    match Command::decode(instruction_data) {
        None => Some(HelloWorldError::InvalidInstruction),
        Some(command) => if accounts.len() < command.arity() {
            Some(HelloWorldError::ShapeMismatch)
        } else {
            match command {
                Command::SetMessage { message } => set_message_fault(
                    program_id,
                    accounts[0],
                    accounts[1],
                    message,
                ),
                Command::GetMessage => get_message_fault(accounts[0]),
            }
        },
    }
}

/// The accounts after an invocation that went through.
pub open spec fn processed(accounts: Seq<AccountView>, command: Command) -> Seq<AccountView> {
    match command {
        Command::SetMessage { message } => accounts.update(
            0,
            posted(accounts[0], accounts[1], message),
        ),
        Command::GetMessage => accounts,
    }
}

/// Runs one invocation: reads the instruction, takes the accounts of its
/// operation from the front of the list, and applies it. A rejected
/// invocation leaves every account as it was.
pub fn process_instruction(
    program_id: &Identity,
    accounts: &mut Vec<Account>,
    instruction_data: &[u8],
) -> (r: Result<(), HelloWorldError>)
    ensures
        fault_of(r) == process_fault(program_id@, views(old(accounts)@), instruction_data@),
        match r {
            Ok(()) => views(final(accounts)@) == processed(
                views(old(accounts)@),
                Command::decode(instruction_data@).unwrap(),
            ),
            Err(_) => final(accounts)@ == old(accounts)@,
        },
{
    let instruction = match HelloWorldInstruction::try_from_slice(instruction_data) {
        Ok(instruction) => instruction,
        Err(e) => { return Err(e); },
    };
    let ghost before = accounts@;
    match instruction {
        HelloWorldInstruction::SetMessage { message } => {
            if accounts.len() < 2 {
                return Err(HelloWorldError::ShapeMismatch);
            }
            let updater = accounts.remove(1);
            let mut account = accounts.remove(0);
            let r = set_message(program_id, &mut account, &updater, message);
            accounts.insert(0, account);
            accounts.insert(1, updater);
            proof {
                if r is Ok {
                    assert(views(accounts@) =~= processed(
                        views(before),
                        Command::decode(instruction_data@).unwrap(),
                    ));
                } else {
                    assert(accounts@ =~= before);
                }
            }
            r
        },
        HelloWorldInstruction::GetMessage => {
            if accounts.len() < 1 {
                return Err(HelloWorldError::ShapeMismatch);
            }
            match get_message(&accounts[0]) {
                Ok(_) => Ok(()),
                Err(e) => Err(e),
            }
        },
    }
}

/// A message that was written into a buffer of exactly the record's length
/// is the message that is read back.
pub proof fn lemma_message_read_back(
    program_id: Seq<u8>,
    account: AccountView,
    updater: AccountView,
    message: Seq<char>,
)
    requires
        updater.well_formed(),
        set_message_fault(program_id, account, updater, message) is None,
        account.data.len() == FRAME_LEN + byte_len(message),
    ensures
        get_message_fault(posted(account, updater, message)) is None,
        MessageBoard::decode(posted(account, updater, message).data) == Some(
            MessageBoard { is_initialized: true, message, last_updater: updater.key },
        ),
{
    lemma_board_round_trip(
        MessageBoard { is_initialized: true, message, last_updater: updater.key },
        account.data,
    );
}

} // verus!

//! A counter that its owner steps up and down by one.

use crate::account::{views, written, Account, AccountView, Identity};
use crate::wire::{
    flag_byte, flag_from_bytes, flag_of, flag_to_bytes, store, stored, word_from_bytes,
    word_to_bytes,
};
use vstd::bytes::*;
use vstd::prelude::*;
use vstd::slice::slice_subrange;

verus! {

/// Length of an encoded counter record: a flag, a number and an address.
pub const COUNTER_LEN: usize = 41;

/// Why an invocation of the counter program was rejected.
#[derive(Clone, Copy, Debug, PartialEq, Eq, Hash, Structural)]
pub enum CounterError {
    /// The counter's storage is not owned by this program.
    WrongOwner,
    /// The counter's account may not be written to.
    NotWritable,
    /// The acting identity did not authorise the invocation.
    MissingAuthorization,
    /// The account already holds a counter.
    AlreadyInitialized,
    /// The account holds no counter yet.
    Uninitialized,
    /// The acting identity is not the counter's owner.
    NotOwner,
    /// The count is at its greatest value.
    CountOverflow,
    /// The count is zero.
    CountUnderflow,
    /// The bytes in the account are not a counter record.
    MalformedRecord,
    /// The account's buffer cannot hold the record.
    BufferTooSmall,
    /// The instruction bytes name no known operation.
    InvalidInstruction,
    /// Fewer accounts were supplied than the operation takes.
    ShapeMismatch,
}

/// The fault that a result reports, or `None` for a success.
pub open spec fn fault_of(r: Result<(), CounterError>) -> Option<CounterError> {
    match r {
        Ok(_) => None,
        Err(e) => Some(e),
    }
}

/// A counter, as mathematics.
pub struct Counter {
    pub is_initialized: bool,
    pub count: u64,
    pub owner: Seq<u8>,
}

impl Counter {
    /// The bytes of the record: the flag as one byte, the count least
    /// significant byte first, the owner as its 32 bytes.
    pub open spec fn encode(self) -> Seq<u8> {
        seq![flag_byte(self.is_initialized)] + spec_u64_to_le_bytes(self.count) + self.owner
    }

    /// The record that `data` holds. Only a buffer of exactly the record's
    /// length, with a flag byte of 0 or 1, holds one.
    pub open spec fn decode(data: Seq<u8>) -> Option<Counter> {
        if data.len() != COUNTER_LEN {
            None
        } else {
            match flag_of(data.subrange(0, 1)) {
                Some(is_initialized) => Some(
                    Counter {
                        is_initialized,
                        count: spec_u64_from_le_bytes(data.subrange(1, 9)),
                        owner: data.subrange(9, 41),
                    },
                ),
                None => None,
            }
        }
    }
}

/// The counter record.
#[derive(Clone, Copy, Debug, PartialEq, Eq)]
pub struct CounterAccount {
    /// Set once the record has been written.
    pub is_initialized: bool,
    /// The count.
    pub count: u64,
    /// The identity that may change the count.
    pub owner: Identity,
}

impl View for CounterAccount {
    type V = Counter;

    open spec fn view(&self) -> Counter {
        Counter { is_initialized: self.is_initialized, count: self.count, owner: self.owner@ }
    }
}

/// Decoding an encoded counter gives the counter back, also from a buffer
/// of the record's length that the counter was written into.
pub proof fn lemma_counter_round_trip(c: Counter, buffer: Seq<u8>)
    requires
        c.owner.len() == 32,
        buffer.len() == COUNTER_LEN,
    ensures
        c.encode().len() == COUNTER_LEN,
        Counter::decode(c.encode()) == Some(c),
        stored(buffer, c.encode()) == c.encode(),
{
    lemma_auto_spec_u64_to_from_le_bytes();
    let data = c.encode();
    assert(data.subrange(0, 1) =~= seq![flag_byte(c.is_initialized)]);
    assert(data.subrange(1, 9) =~= spec_u64_to_le_bytes(c.count));
    assert(data.subrange(9, 41) =~= c.owner);
    assert(stored(buffer, data) =~= data);
}

/// A buffer that decodes to a counter is that counter's encoding.
pub proof fn lemma_counter_canonical(data: Seq<u8>)
    requires
        Counter::decode(data) is Some,
    ensures
        Counter::decode(data).unwrap().encode() == data,
        Counter::decode(data).unwrap().owner.len() == 32,
{
    lemma_auto_spec_u64_to_from_le_bytes();
    let c = Counter::decode(data).unwrap();
    assert(data.subrange(0, 1) =~= seq![flag_byte(c.is_initialized)]);
    assert(spec_u64_to_le_bytes(c.count) == data.subrange(1, 9));
    assert(c.encode() =~= data.subrange(0, 1) + data.subrange(1, 9) + data.subrange(9, 41));
    assert(c.encode() =~= data);
}

impl CounterAccount {
    /// Reads a counter record from the bytes of an account.
    pub fn try_from_slice(data: &[u8]) -> (r: Result<CounterAccount, CounterError>)
        ensures
            match r {
                Ok(record) => Counter::decode(data@) == Some(record@),
                Err(e) => e == CounterError::MalformedRecord && Counter::decode(data@) is None,
            },
    {
        if data.len() != COUNTER_LEN {
            return Err(CounterError::MalformedRecord);
        }
        let is_initialized = match flag_from_bytes(slice_subrange(data, 0, 1)) {
            Some(flag) => flag,
            None => { return Err(CounterError::MalformedRecord); },
        };
        let count = match word_from_bytes(slice_subrange(data, 1, 9)) {
            Some(word) => word,
            None => { return Err(CounterError::MalformedRecord); },
        };
        let owner = match Identity::from_slice(slice_subrange(data, 9, 41)) {
            Some(id) => id,
            None => { return Err(CounterError::MalformedRecord); },
        };
        Ok(CounterAccount { is_initialized, count, owner })
    }

    /// The bytes of the record.
    pub fn to_vec(&self) -> (out: Vec<u8>)
        ensures
            out@ == self@.encode(),
            out@.len() == COUNTER_LEN,
    {
        let mut out = flag_to_bytes(self.is_initialized);
        let mut count = word_to_bytes(self.count);
        out.append(&mut count);
        self.owner.append_to(&mut out);
        proof {
            lemma_auto_spec_u64_to_from_le_bytes();
        }
        out
    }

    /// Writes the record over the beginning of an account's buffer, or
    /// leaves the buffer as it is when it is too short.
    pub fn serialize(&self, buffer: &mut Vec<u8>) -> (r: Result<(), CounterError>)
        ensures
            match r {
                Ok(()) => old(buffer)@.len() >= COUNTER_LEN && final(buffer)@ == stored(
                    old(buffer)@,
                    self@.encode(),
                ),
                Err(e) => e == CounterError::BufferTooSmall && old(buffer)@.len() < COUNTER_LEN
                    && *final(buffer) == *old(buffer),
            },
    {
        if buffer.len() < COUNTER_LEN {
            return Err(CounterError::BufferTooSmall);
        }
        let bytes = self.to_vec();
        store(buffer, bytes.as_slice());
        Ok(())
    }
}

/// One operation on a counter. Each takes the counter's account (writable)
/// and the owner (signer), in this order.
#[derive(Clone, Copy, Debug, PartialEq, Eq, Structural)]
pub enum CounterInstruction {
    /// Start a counter at zero.
    Initialize,
    /// Add one to the count.
    Increment,
    /// Take one from the count.
    Decrement,
}

impl CounterInstruction {
    /// The byte of the instruction.
    pub open spec fn encode(self) -> Seq<u8> {
        match self {
            CounterInstruction::Initialize => seq![0u8],
            CounterInstruction::Increment => seq![1u8],
            CounterInstruction::Decrement => seq![2u8],
        }
    }

    /// The instruction that `data` holds: one byte, and nothing after it.
    pub open spec fn decode(data: Seq<u8>) -> Option<CounterInstruction> {
        if data.len() == 1 && data[0] == 0 {
            Some(CounterInstruction::Initialize)
        } else if data.len() == 1 && data[0] == 1 {
            Some(CounterInstruction::Increment)
        } else if data.len() == 1 && data[0] == 2 {
            Some(CounterInstruction::Decrement)
        } else {
            None
        }
    }

    /// Reads an instruction from its bytes.
    pub fn try_from_slice(data: &[u8]) -> (r: Result<CounterInstruction, CounterError>)
        ensures
            match r {
                Ok(instruction) => Self::decode(data@) == Some(instruction),
                Err(e) => e == CounterError::InvalidInstruction && Self::decode(data@) is None,
            },
    {
        if data.len() != 1 {
            return Err(CounterError::InvalidInstruction);
        }
        let tag: u8 = data[0];
        if tag == 0 {
            Ok(CounterInstruction::Initialize)
        } else if tag == 1 {
            Ok(CounterInstruction::Increment)
        } else if tag == 2 {
            Ok(CounterInstruction::Decrement)
        } else {
            Err(CounterError::InvalidInstruction)
        }
    }

    /// The byte of the instruction.
    pub fn to_vec(&self) -> (out: Vec<u8>)
        ensures
            out@ == self.encode(),
            Self::decode(out@) == Some(*self),
    {
        let mut out: Vec<u8> = Vec::new();
        match self {
            CounterInstruction::Initialize => out.push(0u8),
            CounterInstruction::Increment => out.push(1u8),
            CounterInstruction::Decrement => out.push(2u8),
        }
        assert(out@ =~= self.encode());
        out
    }
}

/// What every operation asks of its two accounts before it reads the
/// record: the counter is this program's and writable, and the acting
/// identity signed.
pub open spec fn access_fault(
    program_id: Seq<u8>,
    counter: AccountView,
    signer: AccountView,
) -> Option<CounterError> {
    if counter.owner != program_id {
        Some(CounterError::WrongOwner)
    } else if !counter.is_writable {
        Some(CounterError::NotWritable)
    } else if !signer.is_signer {
        Some(CounterError::MissingAuthorization)
    } else {
        None
    }
}

fn check_access(program_id: &Identity, counter: &Account, signer: &Account) -> (r: Result<
    (),
    CounterError,
>)
    ensures
        fault_of(r) == access_fault(program_id@, counter@, signer@),
{
    if !counter.owner.same_as(program_id) {
        Err(CounterError::WrongOwner)
    } else if !counter.is_writable {
        Err(CounterError::NotWritable)
    } else if !signer.is_signer {
        Err(CounterError::MissingAuthorization)
    } else {
        Ok(())
    }
}

/// Why starting a counter is rejected, or `None` where it goes through. An
/// account whose bytes hold no record counts as not started.
pub open spec fn initialize_fault(
    program_id: Seq<u8>,
    counter: AccountView,
    owner: AccountView,
) -> Option<CounterError> {
    if access_fault(program_id, counter, owner) is Some {
        access_fault(program_id, counter, owner)
    } else if Counter::decode(counter.data) is Some && Counter::decode(
        counter.data,
    ).unwrap().is_initialized {
        Some(CounterError::AlreadyInitialized)
    } else if counter.data.len() < COUNTER_LEN {
        Some(CounterError::BufferTooSmall)
    } else {
        None
    }
}

/// Starts a counter at zero, owned by `owner`.
pub fn initialize(program_id: &Identity, counter: &mut Account, owner: &Account) -> (r: Result<
    (),
    CounterError,
>)
    ensures
        fault_of(r) == initialize_fault(program_id@, old(counter)@, owner@),
        match r {
            Ok(()) => final(counter)@ == written(
                old(counter)@,
                Counter { is_initialized: true, count: 0, owner: owner@.key }.encode(),
            ),
            Err(_) => *final(counter) == *old(counter),
        },
{
    match check_access(program_id, counter, owner) {
        Err(e) => { return Err(e); },
        Ok(()) => {},
    }
    match CounterAccount::try_from_slice(counter.data.as_slice()) {
        Ok(found) => {
            if found.is_initialized {
                return Err(CounterError::AlreadyInitialized);
            }
        },
        Err(_) => {},
    }
    let record = CounterAccount { is_initialized: true, count: 0, owner: owner.key };
    match record.serialize(&mut counter.data) {
        Ok(()) => Ok(()),
        Err(e) => Err(e),
    }
}

/// Why a step of the count is rejected before the count itself is looked
/// at, or `None` where the owner may step it.
pub open spec fn step_fault(
    program_id: Seq<u8>,
    counter: AccountView,
    signer: AccountView,
) -> Option<CounterError> {
    if access_fault(program_id, counter, signer) is Some {
        access_fault(program_id, counter, signer)
    } else {
        match Counter::decode(counter.data) {
            None => Some(CounterError::MalformedRecord),
            Some(c) => if !c.is_initialized {
                Some(CounterError::Uninitialized)
            } else if c.owner != signer.key {
                Some(CounterError::NotOwner)
            } else {
                None
            },
        }
    }
}

fn open_counter(program_id: &Identity, counter: &Account, signer: &Account) -> (r: Result<
    CounterAccount,
    CounterError,
>)
    ensures
        match r {
            Ok(record) => step_fault(program_id@, counter@, signer@) is None && Counter::decode(
                counter@.data,
            ) == Some(record@),
            Err(e) => step_fault(program_id@, counter@, signer@) == Some(e),
        },
{
    match check_access(program_id, counter, signer) {
        Err(e) => { return Err(e); },
        Ok(()) => {},
    }
    let record = match CounterAccount::try_from_slice(counter.data.as_slice()) {
        Ok(record) => record,
        Err(e) => { return Err(e); },
    };
    if !record.is_initialized {
        return Err(CounterError::Uninitialized);
    }
    if !record.owner.same_as(&signer.key) {
        return Err(CounterError::NotOwner);
    }
    Ok(record)
}

/// Why adding one is rejected, or `None` where it goes through.
pub open spec fn increment_fault(
    program_id: Seq<u8>,
    counter: AccountView,
    signer: AccountView,
) -> Option<CounterError> {
    if step_fault(program_id, counter, signer) is Some {
        step_fault(program_id, counter, signer)
    } else if Counter::decode(counter.data).unwrap().count == u64::MAX {
        Some(CounterError::CountOverflow)
    } else {
        None
    }
}

/// The counter's account after `count` was written as its count.
pub open spec fn counted(counter: AccountView, count: int) -> AccountView {
    written(
        counter,
        Counter { count: count as u64, ..Counter::decode(counter.data).unwrap() }.encode(),
    )
}

/// Adds one to the count.
pub fn increment(program_id: &Identity, counter: &mut Account, signer: &Account) -> (r: Result<
    (),
    CounterError,
>)
    ensures
        fault_of(r) == increment_fault(program_id@, old(counter)@, signer@),
        match r {
            Ok(()) => final(counter)@ == counted(
                old(counter)@,
                Counter::decode(old(counter)@.data).unwrap().count + 1,
            ),
            Err(_) => *final(counter) == *old(counter),
        },
{
    let mut record = match open_counter(program_id, counter, signer) {
        Ok(record) => record,
        Err(e) => { return Err(e); },
    };
    if record.count == u64::MAX {
        return Err(CounterError::CountOverflow);
    }
    record.count = record.count + 1;
    let kept = record.serialize(&mut counter.data);
    assert(kept is Ok);
    Ok(())
}

/// Why taking one is rejected, or `None` where it goes through.
pub open spec fn decrement_fault(
    program_id: Seq<u8>,
    counter: AccountView,
    signer: AccountView,
) -> Option<CounterError> {
    if step_fault(program_id, counter, signer) is Some {
        step_fault(program_id, counter, signer)
    } else if Counter::decode(counter.data).unwrap().count == 0 {
        Some(CounterError::CountUnderflow)
    } else {
        None
    }
}

/// Takes one from the count.
pub fn decrement(program_id: &Identity, counter: &mut Account, signer: &Account) -> (r: Result<
    (),
    CounterError,
>)
    ensures
        fault_of(r) == decrement_fault(program_id@, old(counter)@, signer@),
        match r {
            Ok(()) => final(counter)@ == counted(
                old(counter)@,
                Counter::decode(old(counter)@.data).unwrap().count - 1,
            ),
            Err(_) => *final(counter) == *old(counter),
        },
{
    let mut record = match open_counter(program_id, counter, signer) {
        Ok(record) => record,
        Err(e) => { return Err(e); },
    };
    if record.count == 0 {
        return Err(CounterError::CountUnderflow);
    }
    record.count = record.count - 1;
    let kept = record.serialize(&mut counter.data);
    assert(kept is Ok);
    Ok(())
}

/// Why an invocation is rejected, or `None` where it goes through.
pub open spec fn process_fault(
    program_id: Seq<u8>,
    accounts: Seq<AccountView>,
    instruction_data: Seq<u8>,
) -> Option<CounterError> {
    match CounterInstruction::decode(instruction_data) {
        None => Some(CounterError::InvalidInstruction),
        Some(instruction) => if accounts.len() < 2 {
            Some(CounterError::ShapeMismatch)
        } else {
            match instruction {
                CounterInstruction::Initialize => initialize_fault(
                    program_id,
                    accounts[0],
                    accounts[1],
                ),
                CounterInstruction::Increment => increment_fault(
                    program_id,
                    accounts[0],
                    accounts[1],
                ),
                CounterInstruction::Decrement => decrement_fault(
                    program_id,
                    accounts[0],
                    accounts[1],
                ),
            }
        },
    }
}

/// The counter's account after an invocation that went through.
pub open spec fn processed(
    counter: AccountView,
    owner: AccountView,
    instruction: CounterInstruction,
) -> AccountView {
    match instruction {
        CounterInstruction::Initialize => written(
            counter,
            Counter { is_initialized: true, count: 0, owner: owner.key }.encode(),
        ),
        CounterInstruction::Increment => counted(
            counter,
            Counter::decode(counter.data).unwrap().count + 1,
        ),
        CounterInstruction::Decrement => counted(
            counter,
            Counter::decode(counter.data).unwrap().count - 1,
        ),
    }
}

/// Runs one invocation: reads the instruction, takes the counter and the
/// acting identity from the front of the list, and applies the operation. A
/// rejected invocation leaves every account as it was.
pub fn process_instruction(
    program_id: &Identity,
    accounts: &mut Vec<Account>,
    instruction_data: &[u8],
) -> (r: Result<(), CounterError>)
    ensures
        fault_of(r) == process_fault(program_id@, views(old(accounts)@), instruction_data@),
        match r {
            Ok(()) => views(final(accounts)@) == views(old(accounts)@).update(
                0,
                processed(
                    old(accounts)@[0]@,
                    old(accounts)@[1]@,
                    CounterInstruction::decode(instruction_data@).unwrap(),
                ),
            ),
            Err(_) => final(accounts)@ == old(accounts)@,
        },
{
    let instruction = match CounterInstruction::try_from_slice(instruction_data) {
        Ok(instruction) => instruction,
        Err(e) => { return Err(e); },
    };
    if accounts.len() < 2 {
        return Err(CounterError::ShapeMismatch);
    }
    let ghost before = accounts@;
    let signer = accounts.remove(1);
    let mut counter = accounts.remove(0);
    let r = match instruction {
        CounterInstruction::Initialize => initialize(program_id, &mut counter, &signer),
        CounterInstruction::Increment => increment(program_id, &mut counter, &signer),
        CounterInstruction::Decrement => decrement(program_id, &mut counter, &signer),
    };
    accounts.insert(0, counter);
    accounts.insert(1, signer);
    proof {
        if r is Ok {
            assert(views(accounts@) =~= views(before).update(
                0,
                processed(before[0]@, before[1]@, instruction),
            ));
        } else {
            assert(accounts@ =~= before);
        }
    }
    r
}

/// A step up that goes through puts the count one higher on record and
/// leaves the rest of the record as it was.
pub proof fn lemma_increment_counts_up(
    program_id: Seq<u8>,
    counter: AccountView,
    signer: AccountView,
)
    requires
        increment_fault(program_id, counter, signer) is None,
    ensures
        Counter::decode(
            counted(counter, Counter::decode(counter.data).unwrap().count + 1).data,
        ) == Some(
            Counter {
                count: (Counter::decode(counter.data).unwrap().count + 1) as u64,
                ..Counter::decode(counter.data).unwrap()
            },
        ),
{
    let c = Counter::decode(counter.data).unwrap();
    lemma_counter_canonical(counter.data);
    lemma_counter_round_trip(Counter { count: (c.count + 1) as u64, ..c }, counter.data);
}

/// A step down right after a step up puts the counter's account back as it
/// was before the two.
pub proof fn lemma_decrement_undoes_increment(
    program_id: Seq<u8>,
    counter: AccountView,
    signer: AccountView,
)
    requires
        increment_fault(program_id, counter, signer) is None,
    ensures
        ({
            let up = counted(counter, Counter::decode(counter.data).unwrap().count + 1);
            &&& decrement_fault(program_id, up, signer) is None
            &&& counted(up, Counter::decode(up.data).unwrap().count - 1) == counter
        }),
{
    let c = Counter::decode(counter.data).unwrap();
    let raised = Counter { count: (c.count + 1) as u64, ..c };
    lemma_counter_canonical(counter.data);
    lemma_counter_round_trip(raised, counter.data);
    lemma_counter_round_trip(c, raised.encode());
    let up = counted(counter, c.count + 1);
    assert(up.data == raised.encode());
    assert(counted(up, raised.count - 1).data == counter.data);
}

} // verus!

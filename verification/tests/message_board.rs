use borsh::{BorshDeserialize, BorshSerialize};
use ledger_programs::account::{Account, Identity};
use ledger_programs::hello_world::{
    get_message, process_instruction, set_message, HelloWorldAccount, HelloWorldError,
    HelloWorldInstruction, MAX_MESSAGE_LENGTH,
};
use solana_program::pubkey::Pubkey;

fn program() -> Identity {
    Identity::new([0u8; 32])
}

fn board(len: usize) -> Account {
    Account {
        key: Identity::new([1u8; 32]),
        owner: program(),
        lamports: 0,
        data: vec![0u8; len],
        is_signer: false,
        is_writable: true,
    }
}

fn writer(tag: u8) -> Account {
    Account {
        key: Identity::new([tag; 32]),
        owner: program(),
        lamports: 0,
        data: vec![],
        is_signer: true,
        is_writable: false,
    }
}

#[test]
fn test_hello_world() {
    let program_id = Identity::new(Pubkey::default().to_bytes());
    let key = Identity::new(Pubkey::default().to_bytes());
    let updater_key = Identity::new(Pubkey::default().to_bytes());
    let account = Account {
        key,
        owner: program_id,
        lamports: 0,
        data: vec![0; 1000],
        is_signer: false,
        is_writable: true,
    };
    let updater_account = Account {
        key: updater_key,
        owner: program_id,
        lamports: 0,
        data: vec![],
        is_signer: true,
        is_writable: false,
    };
    let mut accounts = vec![account, updater_account];
    let instruction = HelloWorldInstruction::SetMessage { message: "Hello, Solana!".to_string() };
    let instruction_data = instruction.try_to_vec().unwrap();

    let result = process_instruction(&program_id, &mut accounts, &instruction_data);
    assert!(result.is_ok());
    assert_eq!(
        HelloWorldAccount::try_from_slice(&accounts[0].data[..51]),
        Ok(HelloWorldAccount {
            is_initialized: true,
            message: "Hello, Solana!".to_string(),
            last_updater: updater_key,
        })
    );
    assert!(accounts[0].data[51..].iter().all(|b| *b == 0));
}

#[test]
fn test_message_too_long() {
    let program_id = Identity::new(Pubkey::default().to_bytes());
    let key = Identity::new(Pubkey::default().to_bytes());
    let updater_key = Identity::new(Pubkey::default().to_bytes());
    let account = Account {
        key,
        owner: program_id,
        lamports: 0,
        data: vec![0; 1000],
        is_signer: false,
        is_writable: true,
    };
    let updater_account = Account {
        key: updater_key,
        owner: program_id,
        lamports: 0,
        data: vec![],
        is_signer: true,
        is_writable: false,
    };
    let mut accounts = vec![account, updater_account];
    let instruction =
        HelloWorldInstruction::SetMessage { message: "a".repeat(MAX_MESSAGE_LENGTH + 1) };
    let instruction_data = instruction.try_to_vec().unwrap();

    let result = process_instruction(&program_id, &mut accounts, &instruction_data);
    assert!(result.is_err());
    assert_eq!(result, Err(HelloWorldError::MessageTooLong));
    assert_eq!(accounts[0].data, vec![0u8; 1000]);
}

#[test]
fn message_of_the_greatest_length() {
    let pid = program();
    let who = writer(9);
    let mut account = board(37 + 280);
    assert_eq!(set_message(&pid, &mut account, &who, "a".repeat(280)), Ok(()));
    assert_eq!(get_message(&account), Ok("a".repeat(280)));
    let mut too_small = board(37 + 279);
    assert_eq!(
        set_message(&pid, &mut too_small, &who, "a".repeat(280)),
        Err(HelloWorldError::BufferTooSmall)
    );
    assert_eq!(too_small, board(37 + 279));
}

#[test]
fn length_is_counted_in_bytes() {
    let pid = program();
    let who = writer(9);
    let mut account = board(1000);
    assert_eq!(set_message(&pid, &mut account, &who, "é".repeat(140)), Ok(()));
    assert_eq!(
        set_message(&pid, &mut account, &who, "é".repeat(141)),
        Err(HelloWorldError::MessageTooLong)
    );
}

#[test]
fn message_is_read_back() {
    let pid = program();
    let who = writer(9);
    let mut account = board(37 + 7);
    assert_eq!(set_message(&pid, &mut account, &who, "héllo!".to_string()), Ok(()));
    assert_eq!(get_message(&account), Ok("héllo!".to_string()));
    let other = writer(8);
    assert_eq!(set_message(&pid, &mut account, &other, "bye bye".to_string()), Ok(()));
    assert_eq!(
        HelloWorldAccount::try_from_slice(&account.data),
        Ok(HelloWorldAccount {
            is_initialized: true,
            message: "bye bye".to_string(),
            last_updater: other.key,
        })
    );
    let mut accounts = vec![account.clone()];
    assert_eq!(process_instruction(&pid, &mut accounts, &[1]), Ok(()));
    assert_eq!(accounts, vec![account]);
}

#[test]
fn board_bytes_are_exact() {
    let record = HelloWorldAccount {
        is_initialized: true,
        message: "hi".to_string(),
        last_updater: Identity::new([6u8; 32]),
    };
    let mut expected = vec![1u8, 2, 0, 0, 0, b'h', b'i'];
    expected.extend_from_slice(&[6u8; 32]);
    assert_eq!(record.try_to_vec(), Some(expected.clone()));
    assert_eq!(
        expected,
        BorshSerialize::try_to_vec(&(true, "hi".to_string(), [6u8; 32])).unwrap()
    );
    assert_eq!(
        <(bool, String, [u8; 32])>::try_from_slice(&expected).unwrap(),
        (true, "hi".to_string(), [6u8; 32])
    );
    assert_eq!(HelloWorldAccount::try_from_slice(&expected), Ok(record.clone()));
    let mut buffer = vec![3u8; 41];
    assert_eq!(record.serialize(&mut buffer), Ok(()));
    assert_eq!(&buffer[..39], &expected[..]);
    assert_eq!(&buffer[39..], &[3, 3]);
    let mut short = vec![3u8; 38];
    assert_eq!(record.serialize(&mut short), Err(HelloWorldError::BufferTooSmall));
    assert_eq!(short, vec![3u8; 38]);
}

#[test]
fn board_decoding_is_strict() {
    let malformed = Err(HelloWorldError::MalformedRecord);
    let mut bytes = vec![1u8, 2, 0, 0, 0, b'h', b'i'];
    bytes.extend_from_slice(&[6u8; 32]);
    assert_eq!(HelloWorldAccount::try_from_slice(&bytes[..38]), malformed);
    let mut longer = bytes.clone();
    longer.push(0);
    assert_eq!(HelloWorldAccount::try_from_slice(&longer), malformed);
    let mut bad_flag = bytes.clone();
    bad_flag[0] = 2;
    assert_eq!(HelloWorldAccount::try_from_slice(&bad_flag), malformed);
    let mut bad_text = bytes.clone();
    bad_text[5] = 0xff;
    assert_eq!(HelloWorldAccount::try_from_slice(&bad_text), malformed);
    let mut bad_len = bytes.clone();
    bad_len[1] = 3;
    assert_eq!(HelloWorldAccount::try_from_slice(&bad_len), malformed);
    assert_eq!(HelloWorldAccount::try_from_slice(&[0u8; 36]), malformed);
    assert_eq!(
        HelloWorldAccount::try_from_slice(&[0u8; 37]),
        Ok(HelloWorldAccount {
            is_initialized: false,
            message: String::new(),
            last_updater: Identity::new([0u8; 32]),
        })
    );
    assert_eq!(HelloWorldAccount::try_from_slice(&[0u8; 1000]), malformed);
}

#[test]
fn board_instruction_bytes_are_exact() {
    let set = HelloWorldInstruction::SetMessage { message: "hé".to_string() };
    assert_eq!(set.try_to_vec(), Some(vec![0, 3, 0, 0, 0, b'h', 0xc3, 0xa9]));
    assert_eq!(
        set.try_to_vec().unwrap(),
        BorshSerialize::try_to_vec(&(0u8, "hé".to_string())).unwrap()
    );
    assert_eq!(HelloWorldInstruction::GetMessage.try_to_vec(), Some(vec![1]));
    assert_eq!(HelloWorldInstruction::try_from_slice(&[0, 3, 0, 0, 0, b'h', 0xc3, 0xa9]), Ok(set));
    assert_eq!(
        HelloWorldInstruction::try_from_slice(&[1]),
        Ok(HelloWorldInstruction::GetMessage)
    );
    assert_eq!(
        HelloWorldInstruction::try_from_slice(&[0, 0, 0, 0, 0]),
        Ok(HelloWorldInstruction::SetMessage { message: String::new() })
    );
    let invalid = Err(HelloWorldError::InvalidInstruction);
    assert_eq!(HelloWorldInstruction::try_from_slice(&[]), invalid);
    assert_eq!(HelloWorldInstruction::try_from_slice(&[2]), invalid);
    assert_eq!(HelloWorldInstruction::try_from_slice(&[1, 0]), invalid);
    assert_eq!(HelloWorldInstruction::try_from_slice(&[0]), invalid);
    assert_eq!(HelloWorldInstruction::try_from_slice(&[0, 3, 0, 0, 0, b'h', 0xc3]), invalid);
    assert_eq!(HelloWorldInstruction::try_from_slice(&[0, 2, 0, 0, 0, b'h', 0xc3]), invalid);
    assert_eq!(HelloWorldInstruction::try_from_slice(&[0, 1, 0, 0, 0, b'h', b'i']), invalid);
    assert_eq!(HelloWorldInstruction::try_from_slice(&[0, 0xff, 0xff, 0xff, 0xff]), invalid);
}

#[test]
fn rejections_of_the_board() {
    let pid = program();
    let who = writer(9);
    let text = || "hello".to_string();

    let mut foreign = board(100);
    foreign.owner = Identity::new([3u8; 32]);
    assert_eq!(set_message(&pid, &mut foreign, &who, text()), Err(HelloWorldError::WrongOwner));
    let mut locked = board(100);
    locked.is_writable = false;
    assert_eq!(set_message(&pid, &mut locked, &who, text()), Err(HelloWorldError::NotWritable));
    let mut unsigned = writer(9);
    unsigned.is_signer = false;
    let mut account = board(100);
    assert_eq!(
        set_message(&pid, &mut account, &unsigned, text()),
        Err(HelloWorldError::MissingAuthorization)
    );
    assert_eq!(
        set_message(&pid, &mut account, &who, String::new()),
        Err(HelloWorldError::EmptyMessage)
    );
    let mut short = board(41);
    assert_eq!(set_message(&pid, &mut short, &who, text()), Err(HelloWorldError::BufferTooSmall));
    assert_eq!(account, board(100));

    assert_eq!(get_message(&board(100)), Err(HelloWorldError::MalformedRecord));
    assert_eq!(get_message(&board(37)), Err(HelloWorldError::Uninitialized));

    let set = HelloWorldInstruction::SetMessage { message: text() }.try_to_vec().unwrap();
    let mut one = vec![board(100)];
    assert_eq!(process_instruction(&pid, &mut one, &set), Err(HelloWorldError::ShapeMismatch));
    let mut none: Vec<Account> = vec![];
    assert_eq!(process_instruction(&pid, &mut none, &[1]), Err(HelloWorldError::ShapeMismatch));
    assert_eq!(
        process_instruction(&pid, &mut one, &[9]),
        Err(HelloWorldError::InvalidInstruction)
    );
    assert_eq!(one, vec![board(100)]);
}

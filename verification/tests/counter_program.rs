use borsh::BorshSerialize;
use ledger_programs::account::{Account, Identity};
use ledger_programs::counter::{
    decrement, increment, initialize, process_instruction, CounterAccount, CounterError,
    CounterInstruction,
};
use solana_program::pubkey::Pubkey;

fn program() -> Identity {
    Identity::new([0u8; 32])
}

fn counter_account(data: Vec<u8>) -> Account {
    Account {
        key: Identity::new([1u8; 32]),
        owner: program(),
        lamports: 0,
        data,
        is_signer: false,
        is_writable: true,
    }
}

fn signer(tag: u8) -> Account {
    Account {
        key: Identity::new([tag; 32]),
        owner: program(),
        lamports: 0,
        data: vec![],
        is_signer: true,
        is_writable: false,
    }
}

fn holding(count: u64, owner: &Account) -> Account {
    counter_account(CounterAccount { is_initialized: true, count, owner: owner.key }.to_vec())
}

fn read(counter: &Account) -> CounterAccount {
    CounterAccount::try_from_slice(&counter.data).unwrap()
}

#[test]
fn counter_test_initialize() {
    let program_id = Identity::new(Pubkey::default().to_bytes());
    let key = Identity::new(Pubkey::default().to_bytes());
    let owner_key = Identity::new(Pubkey::new_unique().to_bytes());
    let counter_account = Account {
        key,
        owner: program_id,
        lamports: 0,
        data: vec![0; 100],
        is_signer: false,
        is_writable: true,
    };
    let owner_account = Account {
        key: owner_key,
        owner: program_id,
        lamports: 0,
        data: vec![],
        is_signer: true,
        is_writable: false,
    };
    let mut accounts = vec![counter_account, owner_account];
    let instruction_data = CounterInstruction::Initialize.to_vec();

    assert!(process_instruction(&program_id, &mut accounts, &instruction_data).is_ok());
    assert_eq!(
        CounterAccount::try_from_slice(&accounts[0].data[..41]),
        Ok(CounterAccount { is_initialized: true, count: 0, owner: owner_key })
    );
    assert!(accounts[0].data[41..].iter().all(|b| *b == 0));
}

#[test]
fn test_increment_overflow_protection() {
    let program_id = Identity::new(Pubkey::default().to_bytes());
    let key = Identity::new(Pubkey::default().to_bytes());
    let owner_key = Identity::new(Pubkey::new_unique().to_bytes());
    let counter_data = CounterAccount { is_initialized: true, count: u64::MAX, owner: owner_key };
    let mut data = counter_data.to_vec();
    data.resize(100, 0);
    let counter_account = Account {
        key,
        owner: program_id,
        lamports: 0,
        data,
        is_signer: false,
        is_writable: true,
    };
    let owner_account = Account {
        key: owner_key,
        owner: program_id,
        lamports: 0,
        data: vec![],
        is_signer: true,
        is_writable: false,
    };
    let mut accounts = vec![counter_account, owner_account];
    let instruction_data = CounterInstruction::Increment.to_vec();

    assert!(process_instruction(&program_id, &mut accounts, &instruction_data).is_err());
}

#[test]
fn increment_at_the_greatest_count() {
    let owner = signer(9);
    let mut counter = holding(u64::MAX, &owner);
    assert_eq!(increment(&program(), &mut counter, &owner), Err(CounterError::CountOverflow));
    assert_eq!(counter, holding(u64::MAX, &owner));
    let mut below = holding(u64::MAX - 1, &owner);
    assert_eq!(increment(&program(), &mut below, &owner), Ok(()));
    assert_eq!(read(&below).count, u64::MAX);
}

#[test]
fn decrement_at_zero() {
    let owner = signer(9);
    let mut counter = holding(0, &owner);
    assert_eq!(decrement(&program(), &mut counter, &owner), Err(CounterError::CountUnderflow));
    assert_eq!(counter, holding(0, &owner));
}

#[test]
fn counting_up_and_down() {
    let pid = program();
    let owner = signer(9);
    let mut accounts = vec![counter_account(vec![0; 41]), owner.clone()];
    assert_eq!(process_instruction(&pid, &mut accounts, &[0]), Ok(()));
    for expected in 1..=5u64 {
        assert_eq!(process_instruction(&pid, &mut accounts, &[1]), Ok(()));
        assert_eq!(read(&accounts[0]).count, expected);
    }
    let at_five = accounts[0].clone();
    assert_eq!(process_instruction(&pid, &mut accounts, &[1]), Ok(()));
    assert_eq!(process_instruction(&pid, &mut accounts, &[2]), Ok(()));
    assert_eq!(accounts[0], at_five);
    assert_eq!(accounts[1], owner);
    assert_eq!(
        read(&accounts[0]),
        CounterAccount { is_initialized: true, count: 5, owner: owner.key }
    );
}

#[test]
fn counter_bytes_are_exact() {
    let record =
        CounterAccount { is_initialized: true, count: 258, owner: Identity::new([5u8; 32]) };
    let mut expected = vec![1u8, 2, 1, 0, 0, 0, 0, 0, 0];
    expected.extend_from_slice(&[5u8; 32]);
    assert_eq!(record.to_vec(), expected);
    assert_eq!(record.to_vec(), (true, 258u64, [5u8; 32]).try_to_vec().unwrap());
    assert_eq!(CounterAccount::try_from_slice(&expected), Ok(record));
    assert_eq!(
        CounterAccount::try_from_slice(&expected[..40]),
        Err(CounterError::MalformedRecord)
    );
    expected[0] = 3;
    assert_eq!(CounterAccount::try_from_slice(&expected), Err(CounterError::MalformedRecord));
    let mut buffer = vec![8u8; 43];
    assert_eq!(record.serialize(&mut buffer), Ok(()));
    assert_eq!(&buffer[..41], &record.to_vec()[..]);
    assert_eq!(&buffer[41..], &[8, 8]);
    let mut short = vec![8u8; 40];
    assert_eq!(record.serialize(&mut short), Err(CounterError::BufferTooSmall));
}

#[test]
fn counter_instruction_bytes() {
    assert_eq!(CounterInstruction::Initialize.to_vec(), vec![0]);
    assert_eq!(CounterInstruction::Increment.to_vec(), vec![1]);
    assert_eq!(CounterInstruction::Decrement.to_vec(), vec![2]);
    assert_eq!(CounterInstruction::try_from_slice(&[0]), Ok(CounterInstruction::Initialize));
    assert_eq!(CounterInstruction::try_from_slice(&[1]), Ok(CounterInstruction::Increment));
    assert_eq!(CounterInstruction::try_from_slice(&[2]), Ok(CounterInstruction::Decrement));
    assert_eq!(CounterInstruction::try_from_slice(&[3]), Err(CounterError::InvalidInstruction));
    assert_eq!(CounterInstruction::try_from_slice(&[]), Err(CounterError::InvalidInstruction));
    assert_eq!(CounterInstruction::try_from_slice(&[1, 0]), Err(CounterError::InvalidInstruction));
}

#[test]
fn rejections_of_the_counter() {
    let pid = program();
    let owner = signer(9);
    let stranger = signer(8);

    let mut foreign = counter_account(vec![0; 41]);
    foreign.owner = Identity::new([3u8; 32]);
    assert_eq!(initialize(&pid, &mut foreign, &owner), Err(CounterError::WrongOwner));
    let mut locked = counter_account(vec![0; 41]);
    locked.is_writable = false;
    assert_eq!(initialize(&pid, &mut locked, &owner), Err(CounterError::NotWritable));
    assert_eq!(increment(&pid, &mut locked, &owner), Err(CounterError::NotWritable));
    let mut unsigned = signer(9);
    unsigned.is_signer = false;
    let mut counter = counter_account(vec![0; 41]);
    assert_eq!(initialize(&pid, &mut counter, &unsigned), Err(CounterError::MissingAuthorization));
    assert_eq!(decrement(&pid, &mut counter, &unsigned), Err(CounterError::MissingAuthorization));
    assert_eq!(increment(&pid, &mut counter, &owner), Err(CounterError::Uninitialized));
    assert_eq!(decrement(&pid, &mut counter, &owner), Err(CounterError::Uninitialized));

    let mut short = counter_account(vec![0; 40]);
    assert_eq!(initialize(&pid, &mut short, &owner), Err(CounterError::BufferTooSmall));
    assert_eq!(increment(&pid, &mut short, &owner), Err(CounterError::MalformedRecord));

    assert_eq!(initialize(&pid, &mut counter, &owner), Ok(()));
    assert_eq!(initialize(&pid, &mut counter, &stranger), Err(CounterError::AlreadyInitialized));
    assert_eq!(increment(&pid, &mut counter, &stranger), Err(CounterError::NotOwner));
    assert_eq!(decrement(&pid, &mut counter, &stranger), Err(CounterError::NotOwner));
    assert_eq!(read(&counter), CounterAccount { is_initialized: true, count: 0, owner: owner.key });

    let mut accounts = vec![counter.clone()];
    assert_eq!(process_instruction(&pid, &mut accounts, &[1]), Err(CounterError::ShapeMismatch));
    let mut accounts = vec![counter.clone(), owner.clone()];
    assert_eq!(
        process_instruction(&pid, &mut accounts, &[7]),
        Err(CounterError::InvalidInstruction)
    );
    assert_eq!(accounts, vec![counter, owner]);
}

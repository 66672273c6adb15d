use borsh::{BorshDeserialize, BorshSerialize};
use ledger_programs::account::Identity;
use ledger_programs::crowdfund::{
    ContributorAccount, CrowdfundAccount, CrowdfundError, CrowdfundInstruction,
};

fn sample() -> CrowdfundAccount {
    CrowdfundAccount {
        is_initialized: true,
        owner: Identity::new([7u8; 32]),
        goal: 1000,
        deadline: 100,
        total_raised: 0x0102030405060708,
        finalized: false,
    }
}

#[test]
fn campaign_bytes_are_exact() {
    let mut expected = vec![1u8];
    expected.extend_from_slice(&[7u8; 32]);
    expected.extend_from_slice(&[0xe8, 0x03, 0, 0, 0, 0, 0, 0]);
    expected.extend_from_slice(&[100, 0, 0, 0, 0, 0, 0, 0]);
    expected.extend_from_slice(&[8, 7, 6, 5, 4, 3, 2, 1]);
    expected.push(0);
    assert_eq!(sample().to_vec(), expected);
    assert_eq!(expected.len(), 58);
}

#[test]
fn campaign_bytes_agree_with_borsh() {
    let record = sample();
    let tuple = (
        record.is_initialized,
        record.owner.bytes,
        record.goal,
        record.deadline,
        record.total_raised,
        record.finalized,
    );
    assert_eq!(record.to_vec(), tuple.try_to_vec().unwrap());
    let back = <(bool, [u8; 32], u64, u64, u64, bool)>::try_from_slice(&record.to_vec()).unwrap();
    assert_eq!(back, tuple);
}

#[test]
fn campaign_round_trip() {
    for finalized in [false, true] {
        let record = CrowdfundAccount { finalized, total_raised: u64::MAX, ..sample() };
        assert_eq!(CrowdfundAccount::try_from_slice(&record.to_vec()), Ok(record));
    }
}

#[test]
fn campaign_decoding_is_strict() {
    let bytes = sample().to_vec();
    assert_eq!(
        CrowdfundAccount::try_from_slice(&bytes[..57]),
        Err(CrowdfundError::MalformedRecord)
    );
    let mut longer = bytes.clone();
    longer.push(0);
    assert_eq!(CrowdfundAccount::try_from_slice(&longer), Err(CrowdfundError::MalformedRecord));
    let mut bad_flag = bytes.clone();
    bad_flag[0] = 2;
    assert_eq!(CrowdfundAccount::try_from_slice(&bad_flag), Err(CrowdfundError::MalformedRecord));
    let mut bad_end = bytes.clone();
    bad_end[57] = 0xff;
    assert_eq!(CrowdfundAccount::try_from_slice(&bad_end), Err(CrowdfundError::MalformedRecord));
    assert_eq!(CrowdfundAccount::try_from_slice(&[]), Err(CrowdfundError::MalformedRecord));
    assert!(<(bool, [u8; 32], u64, u64, u64, bool)>::try_from_slice(&longer).is_err());
    assert!(<(bool, [u8; 32], u64, u64, u64, bool)>::try_from_slice(&bad_flag).is_err());
}

#[test]
fn campaign_serialize_writes_the_front() {
    let mut buffer = vec![0xaau8; 60];
    assert_eq!(sample().serialize(&mut buffer), Ok(()));
    assert_eq!(&buffer[..58], &sample().to_vec()[..]);
    assert_eq!(&buffer[58..], &[0xaa, 0xaa]);
    let mut short = vec![0xaau8; 57];
    assert_eq!(sample().serialize(&mut short), Err(CrowdfundError::BufferTooSmall));
    assert_eq!(short, vec![0xaau8; 57]);
}

#[test]
fn contributor_bytes_are_exact() {
    let record = ContributorAccount { amount: 400 };
    assert_eq!(record.to_vec(), vec![0x90, 0x01, 0, 0, 0, 0, 0, 0]);
    assert_eq!(record.to_vec(), 400u64.try_to_vec().unwrap());
    assert_eq!(ContributorAccount::try_from_slice(&record.to_vec()), Ok(record));
    assert_eq!(
        ContributorAccount::try_from_slice(&[0x90, 0x01, 0, 0, 0, 0, 0]),
        Err(CrowdfundError::MalformedRecord)
    );
    assert_eq!(
        ContributorAccount::try_from_slice(&[0x90, 0x01, 0, 0, 0, 0, 0, 0, 0]),
        Err(CrowdfundError::MalformedRecord)
    );
    assert_eq!(
        ContributorAccount::try_from_slice(&[0, 0, 0, 0, 0, 0, 0, 0x80]),
        Ok(ContributorAccount { amount: 1 << 63 })
    );
}

#[test]
fn contributor_serialize_writes_the_front() {
    let mut buffer = vec![9u8; 10];
    assert_eq!(ContributorAccount { amount: 1 }.serialize(&mut buffer), Ok(()));
    assert_eq!(buffer, vec![1, 0, 0, 0, 0, 0, 0, 0, 9, 9]);
    let mut short = vec![9u8; 7];
    assert_eq!(
        ContributorAccount { amount: 1 }.serialize(&mut short),
        Err(CrowdfundError::BufferTooSmall)
    );
    assert_eq!(short, vec![9u8; 7]);
}

#[test]
fn instruction_bytes_are_exact() {
    let start = CrowdfundInstruction::Initialize { goal: 1000, duration_slots: 100 };
    assert_eq!(
        start.to_vec(),
        vec![0, 0xe8, 0x03, 0, 0, 0, 0, 0, 0, 100, 0, 0, 0, 0, 0, 0, 0]
    );
    assert_eq!(start.to_vec(), (0u8, 1000u64, 100u64).try_to_vec().unwrap());
    let give = CrowdfundInstruction::Contribute { amount: 400 };
    assert_eq!(give.to_vec(), vec![1, 0x90, 0x01, 0, 0, 0, 0, 0, 0]);
    assert_eq!(give.to_vec(), (1u8, 400u64).try_to_vec().unwrap());
    assert_eq!(CrowdfundInstruction::Withdraw.to_vec(), vec![2]);
    assert_eq!(CrowdfundInstruction::Refund.to_vec(), vec![3]);
}

#[test]
fn instruction_round_trip() {
    for instruction in [
        CrowdfundInstruction::Initialize { goal: u64::MAX, duration_slots: 1 },
        CrowdfundInstruction::Initialize { goal: 0, duration_slots: 0 },
        CrowdfundInstruction::Contribute { amount: 0 },
        CrowdfundInstruction::Contribute { amount: 1 << 40 },
        CrowdfundInstruction::Withdraw,
        CrowdfundInstruction::Refund,
    ] {
        assert_eq!(CrowdfundInstruction::try_from_slice(&instruction.to_vec()), Ok(instruction));
    }
}

#[test]
fn instruction_decoding_is_strict() {
    let invalid = Err(CrowdfundError::InvalidInstruction);
    assert_eq!(CrowdfundInstruction::try_from_slice(&[]), invalid);
    assert_eq!(CrowdfundInstruction::try_from_slice(&[4]), invalid);
    assert_eq!(CrowdfundInstruction::try_from_slice(&[255]), invalid);
    assert_eq!(CrowdfundInstruction::try_from_slice(&[0]), invalid);
    assert_eq!(CrowdfundInstruction::try_from_slice(&[0; 16]), invalid);
    assert_eq!(CrowdfundInstruction::try_from_slice(&[0; 18]), invalid);
    assert_eq!(CrowdfundInstruction::try_from_slice(&[1, 0, 0, 0, 0, 0, 0, 0]), invalid);
    assert_eq!(CrowdfundInstruction::try_from_slice(&[1; 10]), invalid);
    assert_eq!(CrowdfundInstruction::try_from_slice(&[2, 0]), invalid);
    assert_eq!(CrowdfundInstruction::try_from_slice(&[3, 3]), invalid);
    assert_eq!(
        CrowdfundInstruction::try_from_slice(&[0; 17]),
        Ok(CrowdfundInstruction::Initialize { goal: 0, duration_slots: 0 })
    );
}

use calculator::account::{Account, Identity, IDENTITY_LEN};
use calculator::instruction::DecodeError;
use calculator::{process_instruction, CalculatorAccount, ProcessError};

fn program() -> Identity {
    Identity::new([7; 32])
}

fn stranger() -> Identity {
    let mut bytes = [7; 32];
    bytes[31] = 8;
    Identity::new(bytes)
}

fn owned(data: Vec<u8>) -> Vec<Account> {
    vec![Account { owner: program(), data }]
}

fn instruction_bytes(opcode: u8, val1: u32, val2: u32) -> Vec<u8> {
    let mut bytes = vec![opcode];
    bytes.extend_from_slice(&val1.to_le_bytes());
    bytes.extend_from_slice(&val2.to_le_bytes());
    bytes
}

fn stored(accounts: &[Account]) -> u32 {
    CalculatorAccount::try_from_slice(&accounts[0].data).unwrap().result
}

#[test]
fn test_sanity() {
    let program_id = Identity::default();
    let owner = Identity::default();
    let data = vec![0; std::mem::size_of::<u32>()];
    let instruction_data: Vec<u8> = Vec::new();

    let mut accounts = vec![Account { owner, data }];

    assert_eq!(CalculatorAccount::try_from_slice(&accounts[0].data).unwrap().result, 0);
    // An empty instruction carries no opcode: it is refused and the state stays.
    assert_eq!(
        process_instruction(&program_id, &mut accounts, &instruction_data),
        Err(ProcessError::Decode(DecodeError::MissingOpcode))
    );
    assert_eq!(CalculatorAccount::try_from_slice(&accounts[0].data).unwrap().result, 0);
    assert_eq!(
        process_instruction(&program_id, &mut accounts, &instruction_data),
        Err(ProcessError::Decode(DecodeError::MissingOpcode))
    );
    assert_eq!(CalculatorAccount::try_from_slice(&accounts[0].data).unwrap().result, 0);
}

#[test]
fn add_replaces_prior_state() {
    let mut accounts = owned(99u32.to_le_bytes().to_vec());
    assert_eq!(stored(&accounts), 99);
    let input = [0x00, 0x05, 0x00, 0x00, 0x00, 0x03, 0x00, 0x00, 0x00];
    assert_eq!(process_instruction(&program(), &mut accounts, &input), Ok(()));
    assert_eq!(stored(&accounts), 8);
    assert_eq!(accounts[0].data, vec![8, 0, 0, 0]);
    assert_eq!(accounts[0].owner, program());
}

#[test]
fn subtract_underflow_is_an_error() {
    let mut accounts = owned(99u32.to_le_bytes().to_vec());
    let input = [0x01, 0x03, 0x00, 0x00, 0x00, 0x05, 0x00, 0x00, 0x00];
    assert_eq!(
        process_instruction(&program(), &mut accounts, &input),
        Err(ProcessError::ArithmeticOverflow)
    );
    assert_eq!(accounts[0].data, vec![99, 0, 0, 0]);
}

#[test]
fn add_overflow_is_an_error() {
    let mut accounts = owned(vec![1, 2, 3, 4]);
    let input = instruction_bytes(0, u32::MAX, 1);
    assert_eq!(
        process_instruction(&program(), &mut accounts, &input),
        Err(ProcessError::ArithmeticOverflow)
    );
    assert_eq!(accounts[0].data, vec![1, 2, 3, 4]);
}

#[test]
fn add_up_to_the_maximum() {
    let mut accounts = owned(vec![0; 4]);
    let input = instruction_bytes(0, u32::MAX - 7, 7);
    assert_eq!(process_instruction(&program(), &mut accounts, &input), Ok(()));
    assert_eq!(stored(&accounts), u32::MAX);
    assert_eq!(accounts[0].data, vec![0xff; 4]);
}

#[test]
fn add_stores_sum() {
    for (val1, val2) in [(0u32, 0u32), (1, 2), (1000, 24), (65_535, 1), (0x1234_0000, 0x5678)] {
        let mut accounts = owned(vec![0xaa; 4]);
        let input = instruction_bytes(0, val1, val2);
        assert_eq!(process_instruction(&program(), &mut accounts, &input), Ok(()));
        assert_eq!(stored(&accounts), val1 + val2);
    }
}

#[test]
fn subtract_stores_difference() {
    for (val1, val2) in [(0u32, 0u32), (5, 3), (3, 3), (u32::MAX, 1), (0x0100_0000, 1)] {
        let mut accounts = owned(vec![0xaa; 4]);
        let input = instruction_bytes(1, val1, val2);
        assert_eq!(process_instruction(&program(), &mut accounts, &input), Ok(()));
        assert_eq!(stored(&accounts), val1 - val2);
    }
}

#[test]
fn subtract_is_not_commutative() {
    let mut accounts = owned(vec![0; 4]);
    assert_eq!(
        process_instruction(&program(), &mut accounts, &instruction_bytes(1, 10, 4)),
        Ok(())
    );
    assert_eq!(stored(&accounts), 6);
    assert_eq!(
        process_instruction(&program(), &mut accounts, &instruction_bytes(1, 4, 10)),
        Err(ProcessError::ArithmeticOverflow)
    );
    assert_eq!(stored(&accounts), 6);
}

#[test]
fn repeated_add_does_not_accumulate() {
    let mut accounts = owned(vec![0; 4]);
    let input = instruction_bytes(0, 3, 4);
    assert_eq!(process_instruction(&program(), &mut accounts, &input), Ok(()));
    assert_eq!(stored(&accounts), 7);
    assert_eq!(process_instruction(&program(), &mut accounts, &input), Ok(()));
    assert_eq!(stored(&accounts), 7);
}

#[test]
fn result_does_not_depend_on_prior_state() {
    let input = instruction_bytes(0, 3, 4);
    for prior in [0u32, 7, 99, u32::MAX] {
        let mut accounts = owned(prior.to_le_bytes().to_vec());
        assert_eq!(process_instruction(&program(), &mut accounts, &input), Ok(()));
        assert_eq!(accounts[0].data, vec![7, 0, 0, 0]);
    }
}

#[test]
fn unknown_opcode_leaves_state() {
    for opcode in [2u8, 3, 128, 255] {
        let mut accounts = owned(vec![9, 8, 7, 6]);
        let input = instruction_bytes(opcode, 1, 2);
        assert_eq!(
            process_instruction(&program(), &mut accounts, &input),
            Err(ProcessError::Decode(DecodeError::UnknownOpcode))
        );
        assert_eq!(accounts[0].data, vec![9, 8, 7, 6]);
    }
}

#[test]
fn wrong_length_leaves_state() {
    for len in [1usize, 2, 5, 8, 10, 13, 100] {
        let mut accounts = owned(vec![9, 8, 7, 6]);
        let input = vec![0u8; len];
        assert_eq!(
            process_instruction(&program(), &mut accounts, &input),
            Err(ProcessError::Decode(DecodeError::MalformedOperands))
        );
        assert_eq!(accounts[0].data, vec![9, 8, 7, 6]);
    }
}

#[test]
fn empty_instruction_leaves_state() {
    let mut accounts = owned(vec![9, 8, 7, 6]);
    assert_eq!(
        process_instruction(&program(), &mut accounts, &[]),
        Err(ProcessError::Decode(DecodeError::MissingOpcode))
    );
    assert_eq!(accounts[0].data, vec![9, 8, 7, 6]);
}

#[test]
fn foreign_owner_is_refused() {
    let mut accounts = vec![Account { owner: stranger(), data: vec![9, 8, 7, 6] }];
    let valid = instruction_bytes(0, 5, 3);
    assert_eq!(
        process_instruction(&program(), &mut accounts, &valid),
        Err(ProcessError::IncorrectOwner)
    );
    assert_eq!(accounts[0].data, vec![9, 8, 7, 6]);
}

#[test]
fn foreign_owner_is_refused_before_decoding() {
    for input in [vec![], vec![0u8], vec![9u8; 9], vec![0u8; 10]] {
        let mut accounts = vec![Account { owner: stranger(), data: vec![1, 2, 3] }];
        assert_eq!(
            process_instruction(&program(), &mut accounts, &input),
            Err(ProcessError::IncorrectOwner)
        );
        assert_eq!(accounts[0].data, vec![1, 2, 3]);
    }
}

#[test]
fn missing_account() {
    let mut accounts: Vec<Account> = Vec::new();
    assert_eq!(
        process_instruction(&program(), &mut accounts, &instruction_bytes(0, 5, 3)),
        Err(ProcessError::MissingAccount)
    );
    assert_eq!(
        process_instruction(&program(), &mut accounts, &[]),
        Err(ProcessError::MissingAccount)
    );
    assert!(accounts.is_empty());
}

#[test]
fn corrupt_state() {
    for len in [0usize, 1, 3, 5, 8] {
        let mut accounts = owned(vec![1; len]);
        assert_eq!(
            process_instruction(&program(), &mut accounts, &instruction_bytes(0, 5, 3)),
            Err(ProcessError::CorruptState)
        );
        assert_eq!(accounts[0].data, vec![1; len]);
    }
}

#[test]
fn decoding_fails_before_state_is_read() {
    let mut accounts = owned(vec![1, 2, 3]);
    assert_eq!(
        process_instruction(&program(), &mut accounts, &instruction_bytes(9, 5, 3)),
        Err(ProcessError::Decode(DecodeError::UnknownOpcode))
    );
    assert_eq!(
        process_instruction(&program(), &mut accounts, &[0, 1]),
        Err(ProcessError::Decode(DecodeError::MalformedOperands))
    );
    assert_eq!(accounts[0].data, vec![1, 2, 3]);
}

#[test]
fn corrupt_state_is_found_before_overflow() {
    let mut accounts = owned(vec![1, 2, 3]);
    assert_eq!(
        process_instruction(&program(), &mut accounts, &instruction_bytes(0, u32::MAX, 1)),
        Err(ProcessError::CorruptState)
    );
    assert_eq!(accounts[0].data, vec![1, 2, 3]);
}

#[test]
fn only_the_first_account_is_touched() {
    let mut accounts = vec![
        Account { owner: program(), data: vec![0; 4] },
        Account { owner: program(), data: vec![1, 1, 1, 1] },
        Account { owner: stranger(), data: vec![2, 2] },
    ];
    assert_eq!(
        process_instruction(&program(), &mut accounts, &instruction_bytes(0, 20, 22)),
        Ok(())
    );
    assert_eq!(accounts.len(), 3);
    assert_eq!(accounts[0].data, vec![42, 0, 0, 0]);
    assert_eq!(accounts[0].owner, program());
    assert_eq!(accounts[1].data, vec![1, 1, 1, 1]);
    assert_eq!(accounts[1].owner, program());
    assert_eq!(accounts[2].data, vec![2, 2]);
    assert_eq!(accounts[2].owner, stranger());
}

#[test]
fn later_accounts_do_not_stand_in_for_the_first() {
    let mut accounts = vec![
        Account { owner: stranger(), data: vec![0; 4] },
        Account { owner: program(), data: vec![0; 4] },
    ];
    assert_eq!(
        process_instruction(&program(), &mut accounts, &instruction_bytes(0, 1, 1)),
        Err(ProcessError::IncorrectOwner)
    );
    assert_eq!(accounts[1].data, vec![0; 4]);
}

#[test]
fn identity_equality_is_bytewise() {
    assert_eq!(IDENTITY_LEN, 32);
    assert_eq!(program(), program());
    assert_ne!(program(), stranger());
    for position in 0..32 {
        let mut bytes = [0u8; 32];
        bytes[position] = 1;
        assert_ne!(Identity::new(bytes), Identity::default(), "byte {}", position);
    }
    assert_eq!(Identity::new([0; 32]), Identity::default());
    assert_eq!(Identity::default().bytes, [0u8; 32]);
}

#[test]
fn account_clone_is_a_copy() {
    let account = Account { owner: program(), data: vec![4, 3, 2, 1] };
    let copy = account.clone();
    assert_eq!(copy.owner, account.owner);
    assert_eq!(copy.data, account.data);
}

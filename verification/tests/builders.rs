use solana_program::pubkey::Pubkey;
use tip_settlement::{build_transfer, AccountMeta, Address, Creation, Pending, Step, TipConfig, TipError};

fn key(n: u8) -> Address {
    Address { bytes: [n; 32] }
}

fn token_program() -> Address {
    Address { bytes: spl_token::id().to_bytes() }
}

fn blank_record() -> TipConfig {
    TipConfig {
        is_initialized: true,
        admin: key(3),
        treasury: key(2),
        fee_bps: 250,
        total_tips: 0,
        total_volume: 0,
    }
}

#[test]
fn token_program_address_is_the_known_one() {
    assert_eq!(
        spl_token::id().to_bytes(),
        [
            6, 221, 246, 225, 215, 101, 161, 147, 217, 203, 225, 70, 206, 235, 121, 172, 28, 180, 133,
            237, 95, 91, 55, 145, 58, 140, 245, 133, 126, 255, 0, 169
        ]
    );
    assert_eq!(solana_program::system_program::id().to_bytes(), [0u8; 32]);
}

#[test]
fn transfer_names_program_accounts_and_amount() {
    let ix = build_transfer(&token_program(), &key(1), &key(2), &key(3), 9_750).unwrap();
    assert_eq!(ix.program_id, token_program());
    assert_eq!(
        ix.accounts,
        vec![
            AccountMeta { pubkey: key(1), is_signer: false, is_writable: true },
            AccountMeta { pubkey: key(2), is_signer: false, is_writable: true },
            AccountMeta { pubkey: key(3), is_signer: true, is_writable: false },
        ]
    );
    let mut data = vec![3u8];
    data.extend_from_slice(&9_750u64.to_le_bytes());
    assert_eq!(ix.data, data);
}

#[test]
fn transfer_is_what_the_token_program_decodes() {
    for amount in [0u64, 1, 250, 9_750, u64::MAX] {
        let ix = build_transfer(&token_program(), &key(1), &key(2), &key(3), amount).unwrap();
        let decoded = spl_token::instruction::TokenInstruction::unpack(&ix.data).unwrap();
        assert_eq!(decoded, spl_token::instruction::TokenInstruction::Transfer { amount });
    }
}

#[test]
fn transfer_rejects_another_program() {
    assert_eq!(
        build_transfer(&key(9), &key(1), &key(2), &key(3), 10),
        Err(TipError::IncorrectProgramId)
    );
    assert_eq!(
        build_transfer(&Address { bytes: [0; 32] }, &key(1), &key(2), &key(3), 10),
        Err(TipError::IncorrectProgramId)
    );
    let mut almost = spl_token::id().to_bytes();
    almost[31] ^= 1;
    assert_eq!(
        build_transfer(&Address { bytes: almost }, &key(1), &key(2), &key(3), 10),
        Err(TipError::IncorrectProgramId)
    );
}

#[test]
fn fund_asks_the_system_program_to_create_the_account() {
    let creation = Creation {
        payer: key(3),
        new_account: key(10),
        bump: 254,
        owner: key(42),
        record: blank_record(),
    };
    let step = creation.fund(1_468_560);
    let (call, then) = match step {
        Step::Invoke { call, then } => (call, then),
        other => panic!("unexpected step {:?}", other),
    };
    assert_eq!(call.instruction.program_id, Address { bytes: [0; 32] });
    assert_eq!(
        call.instruction.accounts,
        vec![
            AccountMeta { pubkey: key(3), is_signer: true, is_writable: true },
            AccountMeta { pubkey: key(10), is_signer: true, is_writable: true },
        ]
    );
    let mut data = vec![0u8, 0, 0, 0];
    data.extend_from_slice(&1_468_560u64.to_le_bytes());
    data.extend_from_slice(&83u64.to_le_bytes());
    data.extend_from_slice(&[42u8; 32]);
    assert_eq!(call.instruction.data, data);
    assert_eq!(call.accounts, vec![2, 0, 3]);
    assert_eq!(call.signer_seeds, vec![b"config".to_vec(), vec![254u8]]);
    assert_eq!(then, Pending::Created { record: blank_record() });
}

#[test]
fn fund_builds_what_the_system_program_builds() {
    let creation = Creation {
        payer: key(3),
        new_account: key(10),
        bump: 1,
        owner: key(42),
        record: blank_record(),
    };
    let expected = solana_program::system_instruction::create_account(
        &Pubkey::new_from_array([3; 32]),
        &Pubkey::new_from_array([10; 32]),
        u64::MAX,
        83,
        &Pubkey::new_from_array([42; 32]),
    );
    match creation.fund(u64::MAX) {
        Step::Invoke { call, .. } => {
            assert_eq!(call.instruction.data, expected.data);
            assert_eq!(call.instruction.program_id.bytes, expected.program_id.to_bytes());
            assert_eq!(call.instruction.accounts.len(), expected.accounts.len());
        }
        other => panic!("unexpected step {:?}", other),
    }
}

#[test]
fn created_account_resumes_with_the_record() {
    let pending = Pending::Created { record: blank_record() };
    assert_eq!(pending.resume(), Ok(Step::Commit { record: blank_record() }));
}

use solana_program::pubkey::Pubkey;
use tip_settlement::{get_config_pda, Address};

fn program_ids() -> Vec<[u8; 32]> {
    vec![[0u8; 32], [7u8; 32], [0xFF; 32], core::array::from_fn(|i| (i * 11) as u8), spl_token::id().to_bytes()]
}

#[test]
fn config_address_is_the_program_address_for_the_config_label() {
    for id in program_ids() {
        let (expected, bump) = Pubkey::find_program_address(&[b"config"], &Pubkey::new_from_array(id));
        let found = get_config_pda(&Address { bytes: id }).unwrap();
        assert_eq!(found.address.bytes, expected.to_bytes());
        assert_eq!(found.bump, bump);
    }
}

#[test]
fn config_address_is_derived_with_its_nonce() {
    for id in program_ids() {
        let found = get_config_pda(&Address { bytes: id }).unwrap();
        let program = Pubkey::new_from_array(id);
        let again = Pubkey::create_program_address(&[b"config", &[found.bump]], &program).unwrap();
        assert_eq!(again.to_bytes(), found.address.bytes);
    }
}

#[test]
fn config_address_is_off_the_curve() {
    for id in program_ids() {
        let found = get_config_pda(&Address { bytes: id }).unwrap();
        assert!(!Pubkey::new_from_array(found.address.bytes).is_on_curve());
    }
}

#[test]
fn config_address_depends_on_the_program_alone() {
    let a = Address { bytes: [7; 32] };
    let b = Address { bytes: [8; 32] };
    assert_eq!(get_config_pda(&a), get_config_pda(&a));
    assert_ne!(get_config_pda(&a).unwrap().address, get_config_pda(&b).unwrap().address);
}

#[test]
fn config_address_is_not_the_program_itself() {
    for id in program_ids() {
        let found = get_config_pda(&Address { bytes: id }).unwrap();
        assert_ne!(found.address, Address { bytes: id });
    }
}

#[test]
fn config_address_differs_from_that_of_another_label() {
    let id = [7u8; 32];
    let (other, _) = Pubkey::find_program_address(&[b"vault"], &Pubkey::new_from_array(id));
    let found = get_config_pda(&Address { bytes: id }).unwrap();
    assert_ne!(found.address.bytes, other.to_bytes());
}

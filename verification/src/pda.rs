use solana_program::pubkey::Pubkey;
use vstd::prelude::*;
use crate::address::Address;

verus! {

/// An address derived from a program's identity and a label, together with
/// the nonce that the derivation settled on. No private key controls such
/// an address; the label and the nonce authorize actions in its name.
#[derive(Clone, Copy, Debug, PartialEq, Eq)]
pub struct DerivedAddress {
    pub address: Address,
    pub bump: u8,
}

/// The label under which the configuration record's address is derived:
/// the ASCII bytes of `config`.
pub open spec fn config_seed() -> Seq<u8> {
    seq![99u8, 111, 110, 102, 105, 103]
}

/// What `Pubkey::try_find_program_address` returns for one seed and a
/// program's identity: the address and nonce that the ledger derives, or
/// `None` where no nonce gives an address off the curve.
pub uninterp spec fn program_address(seed: Seq<u8>, program_id: Seq<u8>) -> Option<(Seq<u8>, u8)>;

/// A derivation's outcome as plain values.
pub open spec fn derivation(found: Option<DerivedAddress>) -> Option<(Seq<u8>, u8)> {
    match found {
        Some(d) => Some((d.address@, d.bump)),
        None => None,
    }
}

/// Calls `Pubkey::try_find_program_address` with the single seed `seed`.
/// Trusted: the outcome is a function of the seed and the program's
/// identity alone, which `program_address` names. Nothing else is claimed
/// of it.
#[verifier::external_body]
fn find_program_address(seed: &[u8], program_id: &Address) -> (found: Option<DerivedAddress>)
    ensures
        derivation(found) == program_address(seed@, program_id@),
{
    match Pubkey::try_find_program_address(&[seed], &Pubkey::new_from_array(program_id.bytes)) {
        Some((key, bump)) => Some(DerivedAddress { address: Address { bytes: key.to_bytes() }, bump }),
        None => None,
    }
}

/// Derives the configuration record's address for the program
/// `program_id`. The address depends on nothing but the program's
/// identity and the fixed label.
pub fn get_config_pda(program_id: &Address) -> (found: Option<DerivedAddress>)
    ensures
        derivation(found) == program_address(config_seed(), program_id@),
{
    let seed: [u8; 6] = [99, 111, 110, 102, 105, 103];
    assert(seed@ =~= config_seed());
    find_program_address(seed.as_slice(), program_id)
}

} // verus!

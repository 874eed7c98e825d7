use vstd::prelude::*;
use vstd::slice::slice_subrange;
use crate::address::Address;
use crate::error::TipError;
use crate::fee::{creator_share, fee_for, split_fits, split_tip, MAX_FEE_BPS};
use crate::instruction::{build_transfer, token_program_id, transfer_instruction};
use crate::le::{le_value, lemma_le_value_bound, lemma_radix_values, read_u16_le, read_u64_le};
use crate::pda::{config_seed, derivation, get_config_pda, program_address, DerivedAddress};
use crate::record::{TipConfig, CONFIG_SIZE};
use crate::step::{outcome, Account, Creation, Invocation, InvocationView, Pending, Step, StepView};

verus! {

/// Whether `key` is the address that the derivation gave.
pub open spec fn is_config_address(derived: Option<(Seq<u8>, u8)>, key: Address) -> bool {
    derived matches Some((address, _)) && key@ == address
}

/// The nonce that the derivation gave.
pub open spec fn derived_bump(derived: Option<(Seq<u8>, u8)>) -> u8
    recommends
        derived is Some,
{
    match derived {
        Some((_, bump)) => bump,
        None => 0,
    }
}

/// The 16-bit integer at the start of a payload.
pub open spec fn payload_u16(data: Seq<u8>) -> u16
    recommends
        data.len() >= 2,
{
    le_value(data.subrange(0, 2)) as u16
}

/// The 64-bit integer at the start of a payload.
pub open spec fn payload_u64(data: Seq<u8>) -> u64
    recommends
        data.len() >= 8,
{
    le_value(data.subrange(0, 8)) as u64
}

/// What Initialize does on accounts `[config, treasury, admin, system
/// program]` and a payload that starts with the fee rate. The checks come
/// in this order, each with its own rejection; what passes them asks for
/// the rent-exempt balance of a record, with the creation to follow.
pub open spec fn initialize_outcome(
    derived: Option<(Seq<u8>, u8)>,
    program_id: Address,
    accounts: Seq<Account>,
    data: Seq<u8>,
) -> Result<StepView, TipError> {
    if accounts.len() < 4 {
        Err(TipError::NotEnoughAccountKeys)
    } else if !accounts[2].is_signer {
        Err(TipError::MissingAuthority)
    } else if data.len() < 2 {
        Err(TipError::InvalidInstruction)
    } else if payload_u16(data) > MAX_FEE_BPS {
        Err(TipError::FeeTooHigh)
    } else if !is_config_address(derived, accounts[0].key) {
        Err(TipError::InvalidRecordAddress)
    } else {
        Ok(
            StepView::QueryRent {
                space: CONFIG_SIZE,
                creation: Creation {
                    payer: accounts[2].key,
                    new_account: accounts[0].key,
                    bump: derived_bump(derived),
                    owner: program_id,
                    record: TipConfig {
                        is_initialized: true,
                        admin: accounts[2].key,
                        treasury: accounts[1].key,
                        fee_bps: payload_u16(data),
                        total_tips: 0,
                        total_volume: 0,
                    },
                },
            },
        )
    }
}

/// What Tip does on accounts `[config, tipper, tipper's tokens, recipient's
/// tokens, treasury's tokens, token program]` and a payload that starts
/// with the amount. The checks come in this order, each with its own
/// rejection; what passes them asks for the transfer of the recipient's
/// share, with the treasury's share and the counters to follow.
pub open spec fn tip_outcome(
    derived: Option<(Seq<u8>, u8)>,
    accounts: Seq<Account>,
    data: Seq<u8>,
) -> Result<StepView, TipError> {
    if accounts.len() < 6 {
        Err(TipError::NotEnoughAccountKeys)
    } else if !accounts[1].is_signer {
        Err(TipError::MissingAuthority)
    } else if !is_config_address(derived, accounts[0].key) {
        Err(TipError::InvalidRecordAddress)
    } else if TipConfig::decoded(accounts[0].data@) is None {
        Err(TipError::DecodeError)
    } else {
        let record = TipConfig::decoded(accounts[0].data@)->0;
        if !record.is_initialized {
            Err(TipError::UninitializedRecord)
        } else if data.len() < 8 {
            Err(TipError::InvalidInstruction)
        } else if payload_u64(data) == 0 {
            Err(TipError::ZeroAmount)
        } else if !split_fits(payload_u64(data), record.fee_bps) {
            Err(TipError::ArithmeticOverflow)
        } else if accounts[5].key@ != token_program_id() {
            Err(TipError::IncorrectProgramId)
        } else {
            let amount = payload_u64(data);
            let fee = fee_for(amount as nat, record.fee_bps as nat) as u64;
            let creator_amount = creator_share(amount as nat, record.fee_bps as nat) as u64;
            Ok(
                StepView::Invoke {
                    call: InvocationView {
                        instruction: transfer_instruction(
                            accounts[5].key,
                            accounts[2].key,
                            accounts[3].key,
                            accounts[1].key,
                            creator_amount,
                        ),
                        accounts: seq![2usize, 3usize, 1usize],
                        signer_seeds: Seq::empty(),
                    },
                    then: Pending::CreatorPaid {
                        record,
                        amount,
                        fee,
                        token_program: accounts[5].key,
                        tipper: accounts[1].key,
                        tipper_token: accounts[2].key,
                        treasury_token: accounts[4].key,
                    },
                },
            )
        }
    }
}

/// What UpdateFee does on accounts `[config, admin]` and a payload that
/// starts with the new fee rate. The checks come in this order, each with
/// its own rejection; what passes them stores the record with the new
/// rate and nothing else changed.
pub open spec fn update_fee_outcome(
    derived: Option<(Seq<u8>, u8)>,
    accounts: Seq<Account>,
    data: Seq<u8>,
) -> Result<StepView, TipError> {
    if accounts.len() < 2 {
        Err(TipError::NotEnoughAccountKeys)
    } else if !accounts[1].is_signer {
        Err(TipError::MissingAuthority)
    } else if !is_config_address(derived, accounts[0].key) {
        Err(TipError::InvalidRecordAddress)
    } else if TipConfig::decoded(accounts[0].data@) is None {
        Err(TipError::DecodeError)
    } else {
        let record = TipConfig::decoded(accounts[0].data@)->0;
        if !record.is_initialized {
            Err(TipError::UninitializedRecord)
        } else if record.admin != accounts[1].key {
            Err(TipError::NotAuthorized)
        } else if data.len() < 2 {
            Err(TipError::InvalidInstruction)
        } else if payload_u16(data) > MAX_FEE_BPS {
            Err(TipError::FeeTooHigh)
        } else {
            Ok(StepView::Commit { record: TipConfig { fee_bps: payload_u16(data), ..record } })
        }
    }
}

/// What an instruction does: its first byte is the opcode, the rest the
/// payload of the handler that the opcode names.
pub open spec fn process_outcome(
    derived: Option<(Seq<u8>, u8)>,
    program_id: Address,
    accounts: Seq<Account>,
    instruction_data: Seq<u8>,
) -> Result<StepView, TipError> {
    if instruction_data.len() == 0 {
        Err(TipError::InvalidInstruction)
    } else if instruction_data[0] == 0 {
        initialize_outcome(derived, program_id, accounts, instruction_data.drop_first())
    } else if instruction_data[0] == 1 {
        tip_outcome(derived, accounts, instruction_data.drop_first())
    } else if instruction_data[0] == 2 {
        update_fee_outcome(derived, accounts, instruction_data.drop_first())
    } else {
        Err(TipError::InvalidInstruction)
    }
}

/// Whether `key` is the derived address of the configuration record.
fn at_config_address(config_address: Option<DerivedAddress>, key: &Address) -> (same: bool)
    ensures
        same == is_config_address(derivation(config_address), *key),
{
    match config_address {
        Some(derived) => {
            proof {
                if derived.address@ == key@ {
                    Address::lemma_view_injective(derived.address, *key);
                }
            }
            derived.address == *key
        },
        None => false,
    }
}

/// Reads the fee rate at the start of a payload.
fn read_fee_rate(data: &[u8]) -> (rate: Result<u16, TipError>)
    ensures
        match rate {
            Ok(fee_bps) => data@.len() >= 2 && fee_bps == payload_u16(data@),
            Err(e) => e == TipError::InvalidInstruction && data@.len() < 2,
        },
{
    if data.len() < 2 {
        return Err(TipError::InvalidInstruction);
    }
    proof {
        lemma_le_value_bound(data@.subrange(0, 2));
        lemma_radix_values();
    }
    Ok(read_u16_le(data, 0))
}

/// Reads the amount at the start of a payload.
fn read_amount(data: &[u8]) -> (amount: Result<u64, TipError>)
    ensures
        match amount {
            Ok(n) => data@.len() >= 8 && n == payload_u64(data@),
            Err(e) => e == TipError::InvalidInstruction && data@.len() < 8,
        },
{
    if data.len() < 8 {
        return Err(TipError::InvalidInstruction);
    }
    proof {
        lemma_le_value_bound(data@.subrange(0, 8));
        lemma_radix_values();
    }
    Ok(read_u64_le(data, 0))
}

/// Handles Initialize, given what the derivation of the record's address
/// gave. Accounts: `[config, treasury, admin, system program]`; payload: the
/// fee rate. Rejects, in this order, too few accounts, an admin that has
/// not signed, a payload shorter than the rate, a rate above the maximum,
/// and a config account that is not at the derived address. Otherwise asks
/// for the rent-exempt balance of a record, to create the account and then
/// store a fresh record that names the admin and the treasury.
pub fn initialize(
    config_address: Option<DerivedAddress>,
    program_id: &Address,
    accounts: &[Account],
    data: &[u8],
) -> (r: Result<Step, TipError>)
    ensures
        outcome(r) == initialize_outcome(derivation(config_address), *program_id, accounts@, data@),
{
    if accounts.len() < 4 {
        return Err(TipError::NotEnoughAccountKeys);
    }
    let config_acc = &accounts[0];
    let treasury = &accounts[1];
    let admin = &accounts[2];

    if !admin.is_signer {
        return Err(TipError::MissingAuthority);
    }
    let fee_bps = match read_fee_rate(data) {
        Ok(rate) => rate,
        Err(e) => { return Err(e); },
    };
    if fee_bps > MAX_FEE_BPS {
        return Err(TipError::FeeTooHigh);
    }
    if !at_config_address(config_address, &config_acc.key) {
        return Err(TipError::InvalidRecordAddress);
    }
    let bump = match config_address {
        Some(derived) => derived.bump,
        None => { return Err(TipError::InvalidRecordAddress); },
    };

    let record = TipConfig {
        is_initialized: true,
        admin: admin.key,
        treasury: treasury.key,
        fee_bps,
        total_tips: 0,
        total_volume: 0,
    };
    Ok(
        Step::QueryRent {
            space: CONFIG_SIZE,
            creation: Creation {
                payer: admin.key,
                new_account: config_acc.key,
                bump,
                owner: *program_id,
                record,
            },
        },
    )
}

/// Handles Tip, given what the derivation of the record's address gave.
/// Accounts: `[config, tipper, tipper's tokens, recipient's tokens,
/// treasury's tokens, token program]`; payload: the amount. Rejects, in
/// this order, too few accounts, a tipper that has not signed, a config
/// account that is not at the derived address, a record that does not
/// parse or is not initialized, a payload shorter than the amount, an
/// amount of zero, a split that overflows, and a token program that is not
/// the token program. Otherwise asks for the transfer of the recipient's
/// share; the fee and the counters follow in `Pending::resume`.
pub fn tip(config_address: Option<DerivedAddress>, accounts: &[Account], data: &[u8]) -> (r: Result<
    Step,
    TipError,
>)
    ensures
        outcome(r) == tip_outcome(derivation(config_address), accounts@, data@),
{
    if accounts.len() < 6 {
        return Err(TipError::NotEnoughAccountKeys);
    }
    let config_acc = &accounts[0];
    let tipper = &accounts[1];
    let tipper_token = &accounts[2];
    let creator_token = &accounts[3];
    let treasury_token = &accounts[4];
    let token_program = &accounts[5];

    if !tipper.is_signer {
        return Err(TipError::MissingAuthority);
    }
    if !at_config_address(config_address, &config_acc.key) {
        return Err(TipError::InvalidRecordAddress);
    }
    let record = match TipConfig::decode(config_acc.data.as_slice()) {
        Ok(record) => record,
        Err(e) => { return Err(e); },
    };
    if !record.is_initialized {
        return Err(TipError::UninitializedRecord);
    }
    let amount = match read_amount(data) {
        Ok(amount) => amount,
        Err(e) => { return Err(e); },
    };
    if amount == 0 {
        return Err(TipError::ZeroAmount);
    }
    let split = match split_tip(amount, record.fee_bps) {
        Ok(split) => split,
        Err(e) => { return Err(e); },
    };

    let instruction = match build_transfer(
        &token_program.key,
        &tipper_token.key,
        &creator_token.key,
        &tipper.key,
        split.creator_amount,
    ) {
        Ok(instruction) => instruction,
        Err(e) => { return Err(e); },
    };
    let call = Invocation { instruction, accounts: vec![2, 3, 1], signer_seeds: Vec::new() };
    proof {
        assert(call@.signer_seeds =~= Seq::empty());
        assert(call@.accounts =~= seq![2usize, 3usize, 1usize]);
    }
    Ok(
        Step::Invoke {
            call,
            then: Pending::CreatorPaid {
                record,
                amount,
                fee: split.fee,
                token_program: token_program.key,
                tipper: tipper.key,
                tipper_token: tipper_token.key,
                treasury_token: treasury_token.key,
            },
        },
    )
}

/// Handles UpdateFee, given what the derivation of the record's address
/// gave. Accounts: `[config, admin]`; payload: the new fee rate. Rejects,
/// in this order, too few accounts, a signer that has not signed, a config
/// account that is not at the derived address, a record that does not
/// parse or is not initialized, a signer that is not the record's admin, a
/// payload shorter than the rate, and a rate above the maximum. Otherwise
/// hands back the record with the new rate, to be stored.
pub fn update_fee(config_address: Option<DerivedAddress>, accounts: &[Account], data: &[u8]) -> (r:
    Result<Step, TipError>)
    ensures
        outcome(r) == update_fee_outcome(derivation(config_address), accounts@, data@),
{
    if accounts.len() < 2 {
        return Err(TipError::NotEnoughAccountKeys);
    }
    let config_acc = &accounts[0];
    let admin = &accounts[1];

    if !admin.is_signer {
        return Err(TipError::MissingAuthority);
    }
    if !at_config_address(config_address, &config_acc.key) {
        return Err(TipError::InvalidRecordAddress);
    }
    let record = match TipConfig::decode(config_acc.data.as_slice()) {
        Ok(record) => record,
        Err(e) => { return Err(e); },
    };
    if !record.is_initialized {
        return Err(TipError::UninitializedRecord);
    }
    if record.admin != admin.key {
        return Err(TipError::NotAuthorized);
    }
    let new_fee = match read_fee_rate(data) {
        Ok(rate) => rate,
        Err(e) => { return Err(e); },
    };
    if new_fee > MAX_FEE_BPS {
        return Err(TipError::FeeTooHigh);
    }
    Ok(
        Step::Commit {
            record: TipConfig {
                is_initialized: record.is_initialized,
                admin: record.admin,
                treasury: record.treasury,
                fee_bps: new_fee,
                total_tips: record.total_tips,
                total_volume: record.total_volume,
            },
        },
    )
}

/// Decodes the opcode and hands the payload to its handler: 0 is
/// Initialize, 1 is Tip, 2 is UpdateFee. An empty instruction or any other
/// opcode is an `InvalidInstruction`. The record's address is derived from
/// `program_id` and from nothing else.
pub fn process_instruction(program_id: &Address, accounts: &[Account], instruction_data: &[u8]) -> (r:
    Result<Step, TipError>)
    ensures
        outcome(r) == process_outcome(
            program_address(config_seed(), program_id@),
            *program_id,
            accounts@,
            instruction_data@,
        ),
{
    if instruction_data.len() == 0 {
        return Err(TipError::InvalidInstruction);
    }
    let tag = instruction_data[0];
    if tag > 2 {
        return Err(TipError::InvalidInstruction);
    }
    let rest = slice_subrange(instruction_data, 1, instruction_data.len());
    assert(rest@ =~= instruction_data@.drop_first());
    let config_address = get_config_pda(program_id);
    if tag == 0 {
        initialize(config_address, program_id, accounts, rest)
    } else if tag == 1 {
        tip(config_address, accounts, rest)
    } else {
        update_fee(config_address, accounts, rest)
    }
}

} // verus!

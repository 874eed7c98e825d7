use vstd::prelude::*;
use crate::address::Address;
use crate::error::TipError;
use crate::fee::{fee_for, MAX_FEE_BPS};
use crate::instruction::{create_account_instruction, transfer_instruction};
use crate::pda::config_seed;
use crate::processor::{
    derived_bump, initialize_outcome, is_config_address, payload_u16, payload_u64, process_outcome,
    tip_outcome, update_fee_outcome,
};
use crate::record::{TipConfig, CONFIG_SIZE};
use crate::step::{settled, Account, Pending, StepView};

verus! {

/// An instruction whose first account is not at the derived address never
/// succeeds, whatever its opcode. The rejection is `InvalidRecordAddress`
/// wherever the checks that come before the address pass: enough accounts
/// and the signer's signature, and for Initialize a payload with a
/// permitted rate.
pub proof fn lemma_wrong_address_rejected(
    derived: Option<(Seq<u8>, u8)>,
    program_id: Address,
    accounts: Seq<Account>,
    instruction_data: Seq<u8>,
)
    requires
        accounts.len() > 0 ==> !is_config_address(derived, accounts[0].key),
    ensures
        process_outcome(derived, program_id, accounts, instruction_data) is Err,
        instruction_data.len() >= 3 && instruction_data[0] == 0 && accounts.len() >= 4
            && accounts[2].is_signer && payload_u16(instruction_data.drop_first()) <= MAX_FEE_BPS
            ==> process_outcome(derived, program_id, accounts, instruction_data) == Err::<
            StepView,
            TipError,
        >(TipError::InvalidRecordAddress),
        instruction_data.len() >= 1 && instruction_data[0] == 1 && accounts.len() >= 6
            && accounts[1].is_signer ==> process_outcome(
            derived,
            program_id,
            accounts,
            instruction_data,
        ) == Err::<StepView, TipError>(TipError::InvalidRecordAddress),
        instruction_data.len() >= 1 && instruction_data[0] == 2 && accounts.len() >= 2
            && accounts[1].is_signer ==> process_outcome(
            derived,
            program_id,
            accounts,
            instruction_data,
        ) == Err::<StepView, TipError>(TipError::InvalidRecordAddress),
{
}

/// Initialize writes nothing by itself: what it accepts first asks for the
/// rent-exempt balance of a record, then for the creation of the account
/// at the derived address, owned by the program and authorized by label
/// and nonce, and only once that call has been accepted stores the record,
/// which is initialized, names the signer as admin, holds a permitted rate
/// and has both counters at zero.
pub proof fn lemma_initialize_creates_first(
    derived: Option<(Seq<u8>, u8)>,
    program_id: Address,
    accounts: Seq<Account>,
    data: Seq<u8>,
    lamports: u64,
)
    requires
        initialize_outcome(derived, program_id, accounts, data) is Ok,
    ensures
        initialize_outcome(derived, program_id, accounts, data) matches Ok(
            StepView::QueryRent { space, creation },
        ) && {
            &&& space == CONFIG_SIZE
            &&& creation.new_account == accounts[0].key
            &&& is_config_address(derived, creation.new_account)
            &&& creation.owner == program_id
            &&& creation.record.wf()
            &&& creation.record.is_initialized
            &&& creation.record.admin == accounts[2].key
            &&& creation.record.treasury == accounts[1].key
            &&& creation.record.total_tips == 0
            &&& creation.record.total_volume == 0
            &&& creation.funded(lamports) matches StepView::Invoke { call, then: after }
            &&& call.instruction == create_account_instruction(
                accounts[2].key,
                accounts[0].key,
                lamports,
                CONFIG_SIZE as u64,
                program_id,
            )
            &&& call.signer_seeds == seq![config_seed(), seq![derived_bump(derived)]]
            &&& after == (Pending::Created { record: creation.record })
            &&& after.resumed() == Ok::<StepView, TipError>(
                StepView::Commit { record: creation.record },
            )
        },
{
}

/// Every accepted Initialize for one program asks for the creation of the
/// same account, the one at the derived address: a host that creates no
/// account where one exists lets at most one of them store a record.
pub proof fn lemma_initialize_targets_one_address(
    derived: Option<(Seq<u8>, u8)>,
    program_id: Address,
    first_accounts: Seq<Account>,
    first_data: Seq<u8>,
    second_accounts: Seq<Account>,
    second_data: Seq<u8>,
)
    requires
        initialize_outcome(derived, program_id, first_accounts, first_data) is Ok,
        initialize_outcome(derived, program_id, second_accounts, second_data) is Ok,
    ensures
        initialize_outcome(derived, program_id, first_accounts, first_data) matches Ok(
            StepView::QueryRent { creation: first, .. },
        ) && initialize_outcome(derived, program_id, second_accounts, second_data) matches Ok(
            StepView::QueryRent { creation: second, .. },
        ) && first.new_account == second.new_account && first.bump == second.bump && first.owner
            == second.owner,
{
    Address::lemma_view_injective(first_accounts[0].key, second_accounts[0].key);
}

/// A tip on a record that does not decode, or that is not initialized,
/// never succeeds, so no transfer is asked for. Where the signer has
/// signed and the record is at the derived address, the rejection of a
/// record that decodes is `UninitializedRecord`.
pub proof fn lemma_uninitialized_tip_rejected(
    derived: Option<(Seq<u8>, u8)>,
    accounts: Seq<Account>,
    data: Seq<u8>,
)
    requires
        accounts.len() > 0 ==> (TipConfig::decoded(accounts[0].data@) matches Some(record)
            ==> !record.is_initialized),
    ensures
        tip_outcome(derived, accounts, data) is Err,
        accounts.len() >= 6 && accounts[1].is_signer && is_config_address(derived, accounts[0].key)
            && TipConfig::decoded(accounts[0].data@) is Some ==> tip_outcome(
            derived,
            accounts,
            data,
        ) == Err::<StepView, TipError>(TipError::UninitializedRecord),
{
}

/// A tip of zero never succeeds, so no transfer is asked for and no
/// counter changes. Where all the checks before the amount pass, the
/// rejection is `ZeroAmount`.
pub proof fn lemma_zero_tip_rejected(
    derived: Option<(Seq<u8>, u8)>,
    accounts: Seq<Account>,
    data: Seq<u8>,
)
    requires
        data.len() >= 8,
        payload_u64(data) == 0,
    ensures
        tip_outcome(derived, accounts, data) is Err,
        accounts.len() >= 6 && accounts[1].is_signer && is_config_address(derived, accounts[0].key)
            && (TipConfig::decoded(accounts[0].data@) matches Some(record)
            && record.is_initialized) ==> tip_outcome(derived, accounts, data) == Err::<
            StepView,
            TipError,
        >(TipError::ZeroAmount),
{
}

/// How an accepted tip is settled. The first call moves the recipient's
/// share from the tipper's tokens to the recipient's, on the tipper's
/// signature; the two shares add up to the amount, and the fee is the
/// amount times the rate over ten thousand, rounded down. Once that call
/// is accepted: with no fee the counters are updated at once; with a fee
/// and a treasury account other than the record's the tip is rejected
/// with `TreasuryMismatch`; otherwise the second call moves the fee to the
/// treasury, and once it is accepted the counters are updated. The update
/// adds one to the tips and the amount to the volume, and changes nothing
/// else.
pub proof fn lemma_tip_settlement(
    derived: Option<(Seq<u8>, u8)>,
    accounts: Seq<Account>,
    data: Seq<u8>,
)
    requires
        tip_outcome(derived, accounts, data) is Ok,
    ensures
        TipConfig::decoded(accounts[0].data@) matches Some(record) && tip_outcome(
            derived,
            accounts,
            data,
        ) matches Ok(StepView::Invoke { call, then }) && then matches Pending::CreatorPaid {
            record: kept,
            amount,
            fee,
            treasury_token,
            ..
        } && {
            &&& kept == record
            &&& amount == payload_u64(data)
            &&& amount > 0
            &&& fee == fee_for(amount as nat, record.fee_bps as nat)
            &&& fee <= amount
            &&& treasury_token == accounts[4].key
            &&& call.instruction == transfer_instruction(
                accounts[5].key,
                accounts[2].key,
                accounts[3].key,
                accounts[1].key,
                (amount - fee) as u64,
            )
            &&& fee == 0 ==> then.resumed() == settled(record, amount)
            &&& fee > 0 && treasury_token != record.treasury ==> then.resumed() == Err::<
                StepView,
                TipError,
            >(TipError::TreasuryMismatch)
            &&& fee > 0 && treasury_token == record.treasury ==> (then.resumed() matches Ok(
                StepView::Invoke { call: second, then: last },
            ) && second.instruction == transfer_instruction(
                accounts[5].key,
                accounts[2].key,
                accounts[4].key,
                accounts[1].key,
                fee,
            ) && last.resumed() == settled(record, amount))
            &&& settled(record, amount) matches Ok(done) ==> done == (StepView::Commit {
                record: TipConfig {
                    total_tips: (record.total_tips + 1) as u64,
                    total_volume: (record.total_volume + amount) as u64,
                    ..record
                },
            }) && record.total_tips + 1 <= u64::MAX && record.total_volume + amount <= u64::MAX
            &&& settled(record, amount) matches Ok(StepView::Commit { record: after }) ==> (
            record.wf() ==> after.wf())
        },
{
}

/// A change of the fee rate by a signer other than the record's admin is
/// rejected with `NotAuthorized`, so the rate stays as it is.
pub proof fn lemma_update_fee_unauthorized(
    derived: Option<(Seq<u8>, u8)>,
    accounts: Seq<Account>,
    data: Seq<u8>,
)
    requires
        accounts.len() >= 2,
        accounts[1].is_signer,
        is_config_address(derived, accounts[0].key),
        TipConfig::decoded(accounts[0].data@) matches Some(record) && record.is_initialized
            && record.admin != accounts[1].key,
    ensures
        update_fee_outcome(derived, accounts, data) == Err::<StepView, TipError>(
            TipError::NotAuthorized,
        ),
{
}

/// An accepted change of the fee rate stores the record with the new
/// rate, which is a permitted one, and with every other field as it was.
pub proof fn lemma_update_fee_changes_rate_only(
    derived: Option<(Seq<u8>, u8)>,
    accounts: Seq<Account>,
    data: Seq<u8>,
)
    requires
        update_fee_outcome(derived, accounts, data) is Ok,
    ensures
        TipConfig::decoded(accounts[0].data@) matches Some(old_record) && update_fee_outcome(
            derived,
            accounts,
            data,
        ) matches Ok(StepView::Commit { record }) && {
            &&& record.fee_bps == payload_u16(data)
            &&& record.wf()
            &&& record.is_initialized == old_record.is_initialized
            &&& record.admin == old_record.admin
            &&& record.treasury == old_record.treasury
            &&& record.total_tips == old_record.total_tips
            &&& record.total_volume == old_record.total_volume
            &&& old_record.admin == accounts[1].key
        },
{
}

} // verus!

use vstd::prelude::*;
use crate::address::Address;
use crate::error::TipError;
use crate::instruction::{
    build_transfer, create_account_instruction, system_create_account, token_program_id,
    transfer_instruction, Instruction, InstructionView,
};
use crate::pda::config_seed;
use crate::record::{TipConfig, CONFIG_SIZE};

verus! {

/// What an instruction reads of an account passed to it.
#[derive(Clone, Debug, PartialEq, Eq)]
pub struct Account {
    pub key: Address,
    /// Whether the account's key signed the invocation.
    pub is_signer: bool,
    pub data: Vec<u8>,
}

/// A call into another program that the host is asked to make.
#[derive(Clone, Debug, PartialEq, Eq)]
pub struct Invocation {
    pub instruction: Instruction,
    /// Positions, in the accounts passed to this program, of the accounts
    /// to hand to the callee.
    pub accounts: Vec<usize>,
    /// Seeds that authorize the call in the name of the derived address;
    /// empty where the call needs no such authority.
    pub signer_seeds: Vec<Vec<u8>>,
}

/// An invocation as plain values.
pub struct InvocationView {
    pub instruction: InstructionView,
    pub accounts: Seq<usize>,
    pub signer_seeds: Seq<Seq<u8>>,
}

impl View for Invocation {
    type V = InvocationView;

    open spec fn view(&self) -> InvocationView {
        InvocationView {
            instruction: self.instruction@,
            accounts: self.accounts@,
            signer_seeds: self.signer_seeds@.map_values(|seed: Vec<u8>| seed@),
        }
    }
}

/// A validated request to create the configuration record, waiting for the
/// balance that exempts the new account from rent.
#[derive(Clone, Copy, Debug, PartialEq, Eq)]
pub struct Creation {
    /// Who pays for the new account.
    pub payer: Address,
    /// The derived address at which the record is created.
    pub new_account: Address,
    /// The nonce of the derived address.
    pub bump: u8,
    /// The program that will own the record.
    pub owner: Address,
    /// The record to write once the account exists.
    pub record: TipConfig,
}

/// Where an instruction stands while the host makes a call for it.
#[derive(Clone, Copy, Debug, PartialEq, Eq)]
pub enum Pending {
    /// The record's account is being created.
    Created { record: TipConfig },
    /// The recipient's share is being transferred.
    CreatorPaid {
        record: TipConfig,
        amount: u64,
        fee: u64,
        token_program: Address,
        tipper: Address,
        tipper_token: Address,
        treasury_token: Address,
    },
    /// The treasury's share is being transferred.
    FeePaid { record: TipConfig, amount: u64 },
}

/// What the host does next for an instruction.
#[derive(Clone, Debug, PartialEq, Eq)]
pub enum Step {
    /// Look up the minimum balance that exempts an account of `space`
    /// bytes from rent, and hand it to `creation.fund`.
    QueryRent { space: usize, creation: Creation },
    /// Make the call. If the callee accepts it, go on with `then.resume`;
    /// if not, the instruction fails with the callee's error.
    Invoke { call: Invocation, then: Pending },
    /// Store the record in the configuration account: the instruction is
    /// complete.
    Commit { record: TipConfig },
}

/// A step as plain values.
pub enum StepView {
    QueryRent { space: usize, creation: Creation },
    Invoke { call: InvocationView, then: Pending },
    Commit { record: TipConfig },
}

impl View for Step {
    type V = StepView;

    open spec fn view(&self) -> StepView {
        match *self {
            Step::QueryRent { space, creation } => StepView::QueryRent { space, creation },
            Step::Invoke { call, then } => StepView::Invoke { call: call@, then },
            Step::Commit { record } => StepView::Commit { record },
        }
    }
}

/// A handler's result as plain values.
pub open spec fn outcome(r: Result<Step, TipError>) -> Result<StepView, TipError> {
    match r {
        Ok(step) => Ok(step@),
        Err(e) => Err(e),
    }
}

/// The record after one more settled tip of `amount`, or
/// `ArithmeticOverflow` where a counter would not fit in 64 bits.
pub open spec fn settled(record: TipConfig, amount: u64) -> Result<StepView, TipError> {
    if record.total_tips + 1 > u64::MAX || record.total_volume + amount > u64::MAX {
        Err(TipError::ArithmeticOverflow)
    } else {
        Ok(
            StepView::Commit {
                record: TipConfig {
                    total_tips: (record.total_tips + 1) as u64,
                    total_volume: (record.total_volume + amount) as u64,
                    ..record
                },
            },
        )
    }
}

/// Counts one settled tip of `amount` in the record.
pub fn settle(record: TipConfig, amount: u64) -> (r: Result<Step, TipError>)
    ensures
        outcome(r) == settled(record, amount),
{
    let total_tips = match record.total_tips.checked_add(1) {
        Some(n) => n,
        None => { return Err(TipError::ArithmeticOverflow); },
    };
    let total_volume = match record.total_volume.checked_add(amount) {
        Some(n) => n,
        None => { return Err(TipError::ArithmeticOverflow); },
    };
    Ok(
        Step::Commit {
            record: TipConfig {
                is_initialized: record.is_initialized,
                admin: record.admin,
                treasury: record.treasury,
                fee_bps: record.fee_bps,
                total_tips,
                total_volume,
            },
        },
    )
}

impl Creation {
    /// The call that creates the record's account with a balance of
    /// `lamports`, authorized by the label and the nonce of the derived
    /// address, and after it the writing of the record.
    pub open spec fn funded(self, lamports: u64) -> StepView {
        StepView::Invoke {
            call: InvocationView {
                instruction: create_account_instruction(
                    self.payer,
                    self.new_account,
                    lamports,
                    CONFIG_SIZE as u64,
                    self.owner,
                ),
                accounts: seq![2usize, 0usize, 3usize],
                signer_seeds: seq![config_seed(), seq![self.bump]],
            },
            then: Pending::Created { record: self.record },
        }
    }

    /// Goes on with the creation once the host has told the balance that
    /// exempts the account from rent.
    pub fn fund(self, lamports: u64) -> (step: Step)
        ensures
            step@ == self.funded(lamports),
    {
        let instruction = system_create_account(
            &self.payer,
            &self.new_account,
            lamports,
            CONFIG_SIZE as u64,
            &self.owner,
        );
        let label: Vec<u8> = vec![99, 111, 110, 102, 105, 103];
        let nonce: Vec<u8> = vec![self.bump];
        let signer_seeds: Vec<Vec<u8>> = vec![label, nonce];
        let accounts: Vec<usize> = vec![2, 0, 3];
        let call = Invocation { instruction, accounts, signer_seeds };
        proof {
            assert(label@ =~= config_seed());
            assert(nonce@ =~= seq![self.bump]);
            assert(call@.signer_seeds =~= seq![config_seed(), seq![self.bump]]);
            assert(call@.accounts =~= seq![2usize, 0usize, 3usize]);
        }
        Step::Invoke { call, then: Pending::Created { record: self.record } }
    }
}

impl Pending {
    /// What follows once the host's call has been accepted.
    pub open spec fn resumed(self) -> Result<StepView, TipError> {
        match self {
            Pending::Created { record } => Ok(StepView::Commit { record }),
            Pending::CreatorPaid {
                record,
                amount,
                fee,
                token_program,
                tipper,
                tipper_token,
                treasury_token,
            } => {
                if fee == 0 {
                    settled(record, amount)
                } else if treasury_token != record.treasury {
                    Err(TipError::TreasuryMismatch)
                } else if token_program@ != token_program_id() {
                    Err(TipError::IncorrectProgramId)
                } else {
                    Ok(
                        StepView::Invoke {
                            call: InvocationView {
                                instruction: transfer_instruction(
                                    token_program,
                                    tipper_token,
                                    treasury_token,
                                    tipper,
                                    fee,
                                ),
                                accounts: seq![2usize, 4usize, 1usize],
                                signer_seeds: Seq::empty(),
                            },
                            then: Pending::FeePaid { record, amount },
                        },
                    )
                }
            },
            Pending::FeePaid { record, amount } => settled(record, amount),
        }
    }

    /// Goes on with the instruction once the host's call has been
    /// accepted. The counters change only here, after the last transfer.
    pub fn resume(self) -> (r: Result<Step, TipError>)
        ensures
            outcome(r) == self.resumed(),
    {
        match self {
            Pending::Created { record } => Ok(Step::Commit { record }),
            Pending::CreatorPaid {
                record,
                amount,
                fee,
                token_program,
                tipper,
                tipper_token,
                treasury_token,
            } => {
                if fee == 0 {
                    return settle(record, amount);
                }
                if treasury_token != record.treasury {
                    return Err(TipError::TreasuryMismatch);
                }
                let instruction = match build_transfer(
                    &token_program,
                    &tipper_token,
                    &treasury_token,
                    &tipper,
                    fee,
                ) {
                    Ok(ix) => ix,
                    Err(e) => { return Err(e); },
                };
                let accounts: Vec<usize> = vec![2, 4, 1];
                let signer_seeds: Vec<Vec<u8>> = Vec::new();
                let call = Invocation { instruction, accounts, signer_seeds };
                proof {
                    assert(call@.signer_seeds =~= Seq::empty());
                    assert(call@.accounts =~= seq![2usize, 4usize, 1usize]);
                }
                Ok(Step::Invoke { call, then: Pending::FeePaid { record, amount } })
            },
            Pending::FeePaid { record, amount } => settle(record, amount),
        }
    }
}

} // verus!

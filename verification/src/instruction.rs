use solana_program::program_error::ProgramError;
use solana_program::pubkey::Pubkey;
use vstd::prelude::*;
use crate::address::Address;
use crate::error::TipError;
use crate::le::le_bytes;

verus! {

/// One account that an instruction refers to, and how it may be used.
#[derive(Clone, Copy, Debug, PartialEq, Eq)]
pub struct AccountMeta {
    pub pubkey: Address,
    /// Whether the instruction needs this account's signature.
    pub is_signer: bool,
    /// Whether the instruction may change this account.
    pub is_writable: bool,
}

/// An instruction for another program on the ledger.
#[derive(Clone, Debug, PartialEq, Eq)]
pub struct Instruction {
    /// The program that executes the instruction.
    pub program_id: Address,
    pub accounts: Vec<AccountMeta>,
    pub data: Vec<u8>,
}

/// An instruction as plain values.
pub struct InstructionView {
    pub program_id: Seq<u8>,
    pub accounts: Seq<AccountMeta>,
    pub data: Seq<u8>,
}

impl View for Instruction {
    type V = InstructionView;

    open spec fn view(&self) -> InstructionView {
        InstructionView { program_id: self.program_id@, accounts: self.accounts@, data: self.data@ }
    }
}

/// The token program's address.
pub open spec fn token_program_id() -> Seq<u8> {
    seq![
        6u8, 221, 246, 225, 215, 101, 161, 147, 217, 203, 225, 70, 206, 235, 121, 172,
        28, 180, 133, 237, 95, 91, 55, 145, 58, 140, 245, 133, 126, 255, 0, 169,
    ]
}

/// The system program's address: thirty-two zero bytes.
pub open spec fn system_program_id() -> Seq<u8> {
    Seq::new(32, |i: int| 0u8)
}

/// The token program's instruction that moves `amount` from `source` to
/// `destination` on the signature of `authority`: opcode 3, then the amount.
pub open spec fn transfer_instruction(
    token_program: Address,
    source: Address,
    destination: Address,
    authority: Address,
    amount: u64,
) -> InstructionView {
    InstructionView {
        program_id: token_program@,
        accounts: seq![
            AccountMeta { pubkey: source, is_signer: false, is_writable: true },
            AccountMeta { pubkey: destination, is_signer: false, is_writable: true },
            AccountMeta { pubkey: authority, is_signer: true, is_writable: false },
        ],
        data: seq![3u8] + le_bytes(amount as nat, 8),
    }
}

/// The system program's instruction that creates the account `to` with
/// `space` bytes of data and `lamports` of balance taken from `from`, and
/// hands it to `owner`: a four-byte opcode 0, then balance, size and owner.
pub open spec fn create_account_instruction(
    from: Address,
    to: Address,
    lamports: u64,
    space: u64,
    owner: Address,
) -> InstructionView {
    InstructionView {
        program_id: system_program_id(),
        accounts: seq![
            AccountMeta { pubkey: from, is_signer: true, is_writable: true },
            AccountMeta { pubkey: to, is_signer: true, is_writable: true },
        ],
        data: seq![0u8, 0u8, 0u8, 0u8] + le_bytes(lamports as nat, 8) + le_bytes(space as nat, 8)
            + owner@,
    }
}

/// Declares `solana_program::program_error::ProgramError`, the error of
/// the token program's instruction builders. Nothing is read of its values.
#[verifier::external_type_specification]
#[verifier::external_body]
pub struct ExProgramError(ProgramError);

/// Calls `spl_token::instruction::transfer` with no multisignature
/// signers. Trusted: the call fails exactly when `token_program` is not the
/// token program's address; otherwise the instruction names that program,
/// lists source and destination as writable and the authority as a
/// read-only signer, and carries opcode 3 followed by the amount in eight
/// little-endian bytes.
#[verifier::external_body]
fn token_transfer(
    token_program: &Address,
    source: &Address,
    destination: &Address,
    authority: &Address,
    amount: u64,
) -> (built: Result<Instruction, ProgramError>)
    ensures
        built is Ok <==> token_program@ == token_program_id(),
        built matches Ok(ix) ==> ix@ == transfer_instruction(
            *token_program,
            *source,
            *destination,
            *authority,
            amount,
        ),
{
    let ix = spl_token::instruction::transfer(
        &Pubkey::new_from_array(token_program.bytes),
        &Pubkey::new_from_array(source.bytes),
        &Pubkey::new_from_array(destination.bytes),
        &Pubkey::new_from_array(authority.bytes),
        &[],
        amount,
    )?;
    let accounts = ix.accounts.iter().map(|m| AccountMeta { pubkey: Address { bytes: m.pubkey.to_bytes() }, is_signer: m.is_signer, is_writable: m.is_writable }).collect();
    Ok(Instruction { program_id: Address { bytes: ix.program_id.to_bytes() }, accounts, data: ix.data })
}

/// Calls `solana_program::system_instruction::create_account`. Trusted:
/// the instruction names the system program, lists payer and new account
/// as writable signers, and carries the system program's encoding of the
/// request: a four-byte opcode 0, then balance and size in eight
/// little-endian bytes each, then the owner's address.
#[verifier::external_body]
pub(crate) fn system_create_account(
    from: &Address,
    to: &Address,
    lamports: u64,
    space: u64,
    owner: &Address,
) -> (ix: Instruction)
    ensures
        ix@ == create_account_instruction(*from, *to, lamports, space, *owner),
{
    let ix = solana_program::system_instruction::create_account(
        &Pubkey::new_from_array(from.bytes),
        &Pubkey::new_from_array(to.bytes),
        lamports,
        space,
        &Pubkey::new_from_array(owner.bytes),
    );
    let accounts = ix.accounts.iter().map(|m| AccountMeta { pubkey: Address { bytes: m.pubkey.to_bytes() }, is_signer: m.is_signer, is_writable: m.is_writable }).collect();
    Instruction { program_id: Address { bytes: ix.program_id.to_bytes() }, accounts, data: ix.data }
}

/// Builds the token program's transfer instruction. Fails with
/// `IncorrectProgramId` exactly when `token_program` is not the token
/// program.
pub fn build_transfer(
    token_program: &Address,
    source: &Address,
    destination: &Address,
    authority: &Address,
    amount: u64,
) -> (built: Result<Instruction, TipError>)
    ensures
        built is Ok <==> token_program@ == token_program_id(),
        match built {
            Ok(ix) => ix@ == transfer_instruction(
                *token_program,
                *source,
                *destination,
                *authority,
                amount,
            ),
            Err(e) => e == TipError::IncorrectProgramId,
        },
{
    match token_transfer(token_program, source, destination, authority, amount) {
        Ok(ix) => Ok(ix),
        Err(_) => Err(TipError::IncorrectProgramId),
    }
}

} // verus!

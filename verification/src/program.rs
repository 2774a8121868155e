//! The on-chain side: what the counter program does with one instruction.

use crate::payload::{counter_of, decode_counter};
use solana_program::account_info::AccountInfo;
use solana_program::program_error::ProgramError;
use solana_program::pubkey::Pubkey;
use vstd::prelude::*;

verus! {

/// `solana_program::pubkey::Pubkey`, carried through without being read.
#[verifier::external_type_specification]
#[verifier::external_body]
pub struct ExPubkey(solana_program::pubkey::Pubkey);

/// `solana_program::account_info::AccountInfo`, carried through without
/// being read.
#[verifier::external_type_specification]
#[verifier::external_body]
pub struct ExAccountInfo<'a>(solana_program::account_info::AccountInfo<'a>);

/// `solana_program::program_error::ProgramError`, the error type of the
/// runtime's instruction result. The program never produces one.
#[verifier::external_type_specification]
#[verifier::external_body]
pub struct ExProgramError(solana_program::program_error::ProgramError);

/// Processes one instruction: reads the counter from the instruction data and
/// hands it back for the caller to log. No account is read or written, and
/// every payload is accepted.
pub fn process_instruction(
    _program_id: &Pubkey,
    _accounts: &[AccountInfo],
    instruction_data: &[u8],
) -> (result: Result<u64, ProgramError>)
    ensures
        result is Ok,
        result->Ok_0 == counter_of(instruction_data@),
{
    Ok(decode_counter(instruction_data))
}

} // verus!

//! Loader accounts: the two loader programs this library recognises, and the
//! records the upgradeable loader keeps in the accounts it owns.
//!
//! The record layout belongs to the ledger, so decoding is left to `bincode`
//! and to the `UpgradeableLoaderState` type of `solana_program`. What comes
//! back is named by [`bincode_loader_state`]; everything the library decides
//! afterwards is stated over that name.

use crate::address::Address;
use solana_program::bpf_loader_upgradeable::UpgradeableLoaderState;
use solana_program::pubkey::Pubkey;
use vstd::prelude::*;

verus! {

/// Bytes of the header that precedes the bytecode in a program-data account.
pub const PROGRAMDATA_METADATA_SIZE: usize = 45;

/// A record of the upgradeable loader.
#[derive(Clone, Copy, Debug, PartialEq, Eq)]
pub enum LoaderState {
    /// The account holds no record yet.
    Uninitialized,
    /// A staging buffer for bytecode.
    Buffer { authority_address: Option<Address> },
    /// A program account: a pointer to the account that holds the bytecode.
    Program { programdata_address: Address },
    /// The header of a program-data account; the bytecode follows it.
    ProgramData { slot: u64, upgrade_authority: Option<Address> },
}

/// The bytes of an account did not decode as a loader record.
#[derive(Clone, Copy, Debug, PartialEq, Eq)]
pub struct DecodeError;

/// Which loader owns an account.
#[derive(Clone, Copy, Debug, PartialEq, Eq)]
pub enum LoaderKind {
    /// The loader that stores bytecode directly in the program account.
    Immutable,
    /// The loader that keeps bytecode in a separate program-data account.
    Upgradeable,
    /// Any other owner: the account is not a program.
    Unsupported,
}

/// Address of the loader that stores bytecode directly:
/// `BPFLoader2111111111111111111111111111111111`.
pub open spec fn bpf_loader_address() -> Seq<u8> {
    seq![
        2u8, 168, 246, 145, 78, 136, 161, 110, 57, 90, 225, 40, 148, 143, 250, 105, 86, 147, 55,
        104, 24, 221, 71, 67, 82, 33, 243, 198, 0, 0, 0, 0,
    ]
}

/// Address of the upgradeable loader:
/// `BPFLoaderUpgradeab1e11111111111111111111111`.
pub open spec fn bpf_loader_upgradeable_address() -> Seq<u8> {
    seq![
        2u8, 168, 246, 145, 78, 136, 161, 176, 226, 16, 21, 62, 247, 99, 174, 43, 0, 194, 185, 61,
        22, 193, 36, 210, 192, 83, 122, 16, 4, 128, 0, 0,
    ]
}

/// The loader that an owner address stands for.
pub open spec fn loader_kind_of(owner: Seq<u8>) -> LoaderKind {
    if owner == bpf_loader_address() {
        LoaderKind::Immutable
    } else if owner == bpf_loader_upgradeable_address() {
        LoaderKind::Upgradeable
    } else {
        LoaderKind::Unsupported
    }
}

/// What `bincode::deserialize::<UpgradeableLoaderState>` gives for these
/// bytes: the record, or `None` where it reports an error.
pub uninterp spec fn bincode_loader_state(bytes: Seq<u8>) -> Option<LoaderState>;

/// What the decoder returns for a given outcome of the deserialiser.
pub open spec fn decoded_as(outcome: Option<LoaderState>) -> Result<LoaderState, DecodeError> {
    match outcome {
        Some(state) => Ok(state),
        None => Err(DecodeError),
    }
}

/// `bincode::ErrorKind`, the deserialiser's error; carried, never read.
#[verifier::external_type_specification]
#[verifier::external_body]
pub struct ExBincodeErrorKind(bincode::ErrorKind);

/// Calls `solana_program::bpf_loader::id`. The contract claims that the
/// identifier it returns is the 32 bytes that its base-58 name spells.
#[verifier::external_body]
fn bpf_loader_id() -> (id: Address)
    ensures
        id@ == bpf_loader_address(),
{
    Address::new(solana_program::bpf_loader::id().to_bytes())
}

/// Calls `solana_program::bpf_loader_upgradeable::id`. The contract claims
/// that the identifier it returns is the 32 bytes that its base-58 name
/// spells.
#[verifier::external_body]
fn bpf_loader_upgradeable_id() -> (id: Address)
    ensures
        id@ == bpf_loader_upgradeable_address(),
{
    Address::new(solana_program::bpf_loader_upgradeable::id().to_bytes())
}

/// Calls `UpgradeableLoaderState::size_of_programdata_metadata`, which
/// returns the constant 45.
#[verifier::external_body]
pub(crate) fn size_of_programdata_metadata() -> (size: usize)
    ensures
        size == PROGRAMDATA_METADATA_SIZE,
{
    UpgradeableLoaderState::size_of_programdata_metadata()
}

/// Calls `bincode::deserialize` for an `UpgradeableLoaderState` and copies
/// the record, variant by variant, into a [`LoaderState`]. The contract
/// claims only that the outcome is a function of the bytes: it gives that
/// function the name [`bincode_loader_state`] and says nothing of its values.
#[verifier::external_body]
fn deserialize_loader_state(bytes: &[u8]) -> (outcome: Result<LoaderState, Box<bincode::ErrorKind>>)
    ensures
        outcome is Ok <==> bincode_loader_state(bytes@) is Some,
        outcome is Ok ==> bincode_loader_state(bytes@) == Some(outcome->Ok_0),
{
    let copy = |key: Pubkey| Address::new(key.to_bytes());
    Ok(match bincode::deserialize::<UpgradeableLoaderState>(bytes)? {
        UpgradeableLoaderState::Uninitialized => LoaderState::Uninitialized,
        UpgradeableLoaderState::Buffer { authority_address: a } => LoaderState::Buffer { authority_address: a.map(copy) },
        UpgradeableLoaderState::Program { programdata_address: a } => LoaderState::Program { programdata_address: copy(a) },
        UpgradeableLoaderState::ProgramData { slot, upgrade_authority_address: a } => LoaderState::ProgramData { slot, upgrade_authority: a.map(copy) },
    })
}

/// Tells which loader an owner address stands for.
pub fn loader_kind(owner: &Address) -> (kind: LoaderKind)
    ensures
        kind == loader_kind_of(owner@),
{
    if owner.same_as(&bpf_loader_id()) {
        LoaderKind::Immutable
    } else if owner.same_as(&bpf_loader_upgradeable_id()) {
        LoaderKind::Upgradeable
    } else {
        LoaderKind::Unsupported
    }
}

/// Decodes the bytes of an account as a record of the upgradeable loader.
pub fn decode_loader_state(bytes: &[u8]) -> (decoded: Result<LoaderState, DecodeError>)
    ensures
        decoded == decoded_as(bincode_loader_state(bytes@)),
{
    match deserialize_loader_state(bytes) {
        Ok(state) => Ok(state),
        Err(_) => Err(DecodeError),
    }
}

} // verus!

//! Program-size resolution: how many bytes of bytecode a deployed program
//! holds, and how large the account that holds them is.
//!
//! Resolution needs one account fetch, or two for an upgradeable program.
//! The fetches are the caller's; this module decides, after each one, what
//! to fetch next or what the answer is.

use crate::address::Address;
use crate::loader::{
    bincode_loader_state, bpf_loader_address, bpf_loader_upgradeable_address, decode_loader_state,
    decoded_as, loader_kind, loader_kind_of, size_of_programdata_metadata, DecodeError, LoaderKind,
    LoaderState, PROGRAMDATA_METADATA_SIZE,
};
use vstd::prelude::*;

verus! {

/// An account as the ledger node returned it.
#[derive(Debug, PartialEq, Eq)]
pub struct AccountRecord {
    pub owner: Address,
    pub data: Vec<u8>,
    pub lamports: u64,
}

/// Why an account could not be fetched.
#[derive(Clone, Copy, Debug, PartialEq, Eq)]
pub enum FetchError {
    /// The address holds no account.
    NotFound,
    /// The node could not be reached or did not answer.
    TransportError,
}

/// Why a program's size could not be resolved.
#[derive(Clone, Copy, Debug, PartialEq, Eq)]
pub enum ResolveError {
    /// A fetched address holds no account.
    NotFound,
    /// The node could not be reached or did not answer.
    TransportError,
    /// The account's bytes are not a loader record.
    DecodeError,
    /// The account holds a loader record, but not the one its role calls for.
    InvalidAccountState,
    /// The account is owned by neither loader: it is not a program.
    UnsupportedOwner,
}

/// The two sizes of a deployed program.
#[derive(Clone, Copy, Debug, PartialEq, Eq)]
pub struct ProgramSize {
    /// Bytes of bytecode.
    pub program_bytecode_size: usize,
    /// Bytes of the account that holds the bytecode, header included.
    pub total_account_size: usize,
}

/// Which account the resolver is waiting for.
#[derive(Clone, Copy, Debug, PartialEq, Eq)]
pub enum ResolverPhase {
    /// The account at the program's own address.
    Program,
    /// The program-data account that the program account points to.
    ProgramData,
}

/// What the resolver asks of its caller next.
#[derive(Clone, Copy, Debug, PartialEq, Eq)]
pub enum ResolverStep {
    /// Fetch the account at `address` and hand it back in `phase`.
    Fetch { address: Address, phase: ResolverPhase },
    /// Resolution has ended with this answer.
    Done(Result<ProgramSize, ResolveError>),
}

/// The sizes of a program whose account holds nothing but bytecode.
pub open spec fn direct_sizes(data_len: nat) -> ProgramSize {
    ProgramSize {
        program_bytecode_size: data_len as usize,
        total_account_size: data_len as usize,
    }
}

/// What follows from the record found in an upgradeable program's account.
pub open spec fn program_record_step_of(decoded: Result<LoaderState, DecodeError>) -> ResolverStep {
    match decoded {
        Ok(LoaderState::Program { programdata_address }) => ResolverStep::Fetch {
            address: programdata_address,
            phase: ResolverPhase::ProgramData,
        },
        Ok(_) => ResolverStep::Done(Err(ResolveError::InvalidAccountState)),
        Err(_) => ResolverStep::Done(Err(ResolveError::DecodeError)),
    }
}

/// The sizes that follow from a program-data account of `data_len` bytes
/// whose record decoded as `decoded`. A program-data record in an account
/// too short to hold its header is an invalid state.
pub open spec fn programdata_sizes_of(
    data_len: nat,
    decoded: Result<LoaderState, DecodeError>,
) -> Result<ProgramSize, ResolveError> {
    match decoded {
        Ok(LoaderState::ProgramData { .. }) => if data_len >= PROGRAMDATA_METADATA_SIZE {
            Ok(
                ProgramSize {
                    program_bytecode_size: (data_len - PROGRAMDATA_METADATA_SIZE) as usize,
                    total_account_size: data_len as usize,
                },
            )
        } else {
            Err(ResolveError::InvalidAccountState)
        },
        Ok(_) => Err(ResolveError::InvalidAccountState),
        Err(_) => Err(ResolveError::DecodeError),
    }
}

/// What follows from a program account, given its owner, the length of its
/// data and what its data decodes as. The record is consulted only for an
/// account of the upgradeable loader.
pub open spec fn program_step_with(
    owner: Seq<u8>,
    data_len: nat,
    decoded: Result<LoaderState, DecodeError>,
) -> ResolverStep {
    match loader_kind_of(owner) {
        LoaderKind::Immutable => ResolverStep::Done(Ok(direct_sizes(data_len))),
        LoaderKind::Upgradeable => program_record_step_of(decoded),
        LoaderKind::Unsupported => ResolverStep::Done(Err(ResolveError::UnsupportedOwner)),
    }
}

/// What follows from the account found at the program's address.
pub open spec fn program_account_step_of(account: AccountRecord) -> ResolverStep {
    program_step_with(
        account.owner@,
        account.data@.len(),
        decoded_as(bincode_loader_state(account.data@)),
    )
}

/// The sizes that follow from the account found at the program-data address.
pub open spec fn programdata_account_sizes_of(account: AccountRecord) -> Result<
    ProgramSize,
    ResolveError,
> {
    programdata_sizes_of(account.data@.len(), decoded_as(bincode_loader_state(account.data@)))
}

/// The error a failed fetch ends resolution with.
pub open spec fn fetch_failure_of(error: FetchError) -> ResolveError {
    match error {
        FetchError::NotFound => ResolveError::NotFound,
        FetchError::TransportError => ResolveError::TransportError,
    }
}

/// The resolver's transition: what follows, in `phase`, from the outcome of
/// the fetch it asked for.
pub open spec fn resolver_step_of(
    phase: ResolverPhase,
    fetched: Result<AccountRecord, FetchError>,
) -> ResolverStep {
    match fetched {
        Err(error) => ResolverStep::Done(Err(fetch_failure_of(error))),
        Ok(account) => match phase {
            ResolverPhase::Program => program_account_step_of(account),
            ResolverPhase::ProgramData => ResolverStep::Done(programdata_account_sizes_of(account)),
        },
    }
}

/// The answer of a whole resolution, given the outcome of fetching the
/// program's address and the outcome of fetching the program-data address.
/// The second fetch is consulted only when the first one asks for it.
pub open spec fn resolution_of(
    program: Result<AccountRecord, FetchError>,
    programdata: Result<AccountRecord, FetchError>,
) -> Result<ProgramSize, ResolveError> {
    match resolver_step_of(ResolverPhase::Program, program) {
        ResolverStep::Done(answer) => answer,
        ResolverStep::Fetch { .. } => match resolver_step_of(
            ResolverPhase::ProgramData,
            programdata,
        ) {
            ResolverStep::Done(answer) => answer,
            ResolverStep::Fetch { .. } => Err(ResolveError::InvalidAccountState),
        },
    }
}

/// Starts a resolution: the first thing to fetch is the program's own
/// account.
pub fn resolver_start(program_address: Address) -> (step: ResolverStep)
    ensures
        step == (ResolverStep::Fetch { address: program_address, phase: ResolverPhase::Program }),
{
    ResolverStep::Fetch { address: program_address, phase: ResolverPhase::Program }
}

/// Decides what follows from the record of an upgradeable program's account:
/// a program record points to the program-data account to fetch next, any
/// other record is an invalid state, and undecodable bytes are a decode
/// error.
pub fn program_record_step(decoded: Result<LoaderState, DecodeError>) -> (step: ResolverStep)
    ensures
        step == program_record_step_of(decoded),
{
    match decoded {
        Ok(LoaderState::Program { programdata_address }) => ResolverStep::Fetch {
            address: programdata_address,
            phase: ResolverPhase::ProgramData,
        },
        Ok(_) => ResolverStep::Done(Err(ResolveError::InvalidAccountState)),
        Err(_) => ResolverStep::Done(Err(ResolveError::DecodeError)),
    }
}

/// Computes the sizes of an upgradeable program from its program-data
/// account: the bytecode is what follows the header.
pub fn programdata_sizes(data_len: usize, decoded: Result<LoaderState, DecodeError>) -> (answer:
    Result<ProgramSize, ResolveError>)
    ensures
        answer == programdata_sizes_of(data_len as nat, decoded),
{
    match decoded {
        Ok(LoaderState::ProgramData { .. }) => {
            let header: usize = size_of_programdata_metadata();
            if data_len >= header {
                Ok(
                    ProgramSize {
                        program_bytecode_size: data_len - header,
                        total_account_size: data_len,
                    },
                )
            } else {
                Err(ResolveError::InvalidAccountState)
            }
        },
        Ok(_) => Err(ResolveError::InvalidAccountState),
        Err(_) => Err(ResolveError::DecodeError),
    }
}

/// Inspects the account found at the program's address. An account of the
/// immutable loader is all bytecode; one of the upgradeable loader is decoded
/// and must point to a program-data account; any other owner is refused
/// without looking at the data.
pub fn inspect_program_account(account: &AccountRecord) -> (step: ResolverStep)
    ensures
        step == program_account_step_of(*account),
{
    match loader_kind(&account.owner) {
        LoaderKind::Immutable => {
            let len: usize = account.data.len();
            ResolverStep::Done(Ok(ProgramSize { program_bytecode_size: len, total_account_size: len }))
        },
        LoaderKind::Upgradeable => program_record_step(decode_loader_state(account.data.as_slice())),
        LoaderKind::Unsupported => ResolverStep::Done(Err(ResolveError::UnsupportedOwner)),
    }
}

/// Inspects the account found at the program-data address.
pub fn inspect_programdata_account(account: &AccountRecord) -> (answer: Result<
    ProgramSize,
    ResolveError,
>)
    ensures
        answer == programdata_account_sizes_of(*account),
{
    programdata_sizes(account.data.len(), decode_loader_state(account.data.as_slice()))
}

/// Advances a resolution by the outcome of the fetch it asked for. A failed
/// fetch ends the resolution with the matching error; nothing is retried.
pub fn resolver_step(phase: ResolverPhase, fetched: Result<AccountRecord, FetchError>) -> (step:
    ResolverStep)
    ensures
        step == resolver_step_of(phase, fetched),
{
    match fetched {
        Err(FetchError::NotFound) => ResolverStep::Done(Err(ResolveError::NotFound)),
        Err(FetchError::TransportError) => ResolverStep::Done(Err(ResolveError::TransportError)),
        Ok(account) => match phase {
            ResolverPhase::Program => inspect_program_account(&account),
            ResolverPhase::ProgramData => ResolverStep::Done(inspect_programdata_account(&account)),
        },
    }
}

/// Whatever the fetch of the program-data account gives, it ends the
/// resolution: no resolution asks for more than two accounts.
pub proof fn lemma_programdata_fetch_ends_resolution(fetched: Result<AccountRecord, FetchError>)
    ensures
        resolver_step_of(ResolverPhase::ProgramData, fetched) is Done,
        resolver_step_of(ResolverPhase::ProgramData, fetched)->Done_0 matches Err(error)
            ==> error != ResolveError::UnsupportedOwner,
{
}

/// A failed fetch ends the resolution at once, in either phase, with the
/// error of the fetch: nothing is retried.
pub proof fn lemma_failed_fetch_ends_resolution(phase: ResolverPhase, error: FetchError)
    ensures
        resolver_step_of(phase, Err(error)) == ResolverStep::Done(Err(fetch_failure_of(error))),
        (error is NotFound) == (fetch_failure_of(error) is NotFound),
        (error is TransportError) == (fetch_failure_of(error) is TransportError),
{
}

/// A program owned by the immutable loader resolves at once, and both of its
/// sizes are the length of its account's data.
pub proof fn lemma_immutable_program_sizes(
    account: AccountRecord,
    programdata: Result<AccountRecord, FetchError>,
)
    requires
        account.owner@ == bpf_loader_address(),
    ensures
        resolver_step_of(ResolverPhase::Program, Ok(account)) == ResolverStep::Done(
            Ok(direct_sizes(account.data@.len())),
        ),
        resolution_of(Ok(account), programdata) matches Ok(size) && size.program_bytecode_size
            == account.data@.len() && size.total_account_size == account.data@.len(),
{
    assert(account.data.len() == account.data@.len());
}

/// A program owned by the upgradeable loader resolves exactly when its
/// account decodes as a program record and the program-data account was
/// fetched, decodes as a program-data record and is long enough for its
/// header. The total size is then the length of the program-data account, and
/// the bytecode size is the total size less the header.
pub proof fn lemma_upgradeable_program_sizes(
    account: AccountRecord,
    programdata: Result<AccountRecord, FetchError>,
)
    requires
        account.owner@ == bpf_loader_upgradeable_address(),
    ensures
        resolution_of(Ok(account), programdata) is Ok <==> {
            &&& bincode_loader_state(account.data@) matches Some(LoaderState::Program { .. })
            &&& programdata matches Ok(found)
            &&& bincode_loader_state(found.data@) matches Some(LoaderState::ProgramData { .. })
            &&& found.data@.len() >= PROGRAMDATA_METADATA_SIZE
        },
        resolution_of(Ok(account), programdata) matches Ok(size) ==> {
            &&& programdata matches Ok(found)
            &&& size.total_account_size == found.data@.len()
            &&& size.program_bytecode_size == size.total_account_size - PROGRAMDATA_METADATA_SIZE
        },
{
    if let Ok(found) = programdata {
        assert(found.data.len() == found.data@.len());
    }
}

/// A program account of the upgradeable loader that decodes as a program
/// record asks for exactly the account its record points to.
pub proof fn lemma_upgradeable_program_points_to_programdata(
    account: AccountRecord,
    programdata_address: Address,
)
    requires
        account.owner@ == bpf_loader_upgradeable_address(),
        bincode_loader_state(account.data@) == Some(LoaderState::Program { programdata_address }),
    ensures
        resolver_step_of(ResolverPhase::Program, Ok(account)) == (ResolverStep::Fetch {
            address: programdata_address,
            phase: ResolverPhase::ProgramData,
        }),
{
}

/// An account owned by neither loader is refused as an unsupported owner,
/// whatever its data holds and whatever its data would decode as.
pub proof fn lemma_unsupported_owner_is_refused(
    account: AccountRecord,
    programdata: Result<AccountRecord, FetchError>,
    decoded: Result<LoaderState, DecodeError>,
)
    requires
        account.owner@ != bpf_loader_address(),
        account.owner@ != bpf_loader_upgradeable_address(),
    ensures
        program_step_with(account.owner@, account.data@.len(), decoded) == ResolverStep::Done(
            Err(ResolveError::UnsupportedOwner),
        ),
        resolution_of(Ok(account), programdata) == Err::<ProgramSize, ResolveError>(
            ResolveError::UnsupportedOwner,
        ),
{
}

/// A variant mismatch is always reported as an invalid account state, never
/// as an unsupported owner or a decode error.
pub proof fn lemma_variant_mismatch_is_invalid_state(
    account: AccountRecord,
    programdata: AccountRecord,
)
    requires
        account.owner@ == bpf_loader_upgradeable_address(),
    ensures
        bincode_loader_state(account.data@) matches Some(state) && !(state is Program)
            ==> resolution_of(Ok(account), Ok(programdata)) == Err::<ProgramSize, ResolveError>(
            ResolveError::InvalidAccountState,
        ),
        bincode_loader_state(account.data@) matches Some(LoaderState::Program { .. })
            && bincode_loader_state(programdata.data@) matches Some(state) && !(state
            is ProgramData) ==> resolution_of(Ok(account), Ok(programdata)) == Err::<
            ProgramSize,
            ResolveError,
        >(ResolveError::InvalidAccountState),
{
}

} // verus!

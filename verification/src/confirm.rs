//! The confirmation verifier: looks a submitted transaction up until the
//! node knows it, a bounded number of times, and reports whether it landed
//! and how many compute units it used.
//!
//! Lookups and pauses are the driver's work. The verifier names what is due
//! next and moves on when the driver reports back.

use crate::address::Signature;
use crate::batch::SubmissionRecord;
use vstd::prelude::*;

verus! {

/// How many times a transaction is looked up before the verifier gives up,
/// unless it is made with another policy.
pub const MAX_LOOKUP_ATTEMPTS: u32 = 10;

/// Pause between two lookups, in milliseconds, unless the verifier is made
/// with another policy.
pub const LOOKUP_RETRY_DELAY_MS: u64 = 50;

/// How long a verifier keeps trying.
#[derive(Clone, Copy, Debug, PartialEq, Eq)]
pub struct RetryPolicy {
    /// Lookups made before the verifier gives up.
    pub max_attempts: u32,
    /// Pause between two lookups, in milliseconds.
    pub delay_millis: u64,
}

/// The usual policy: ten lookups, fifty milliseconds apart.
pub open spec fn standard_policy() -> RetryPolicy {
    RetryPolicy { max_attempts: MAX_LOOKUP_ATTEMPTS, delay_millis: LOOKUP_RETRY_DELAY_MS }
}

/// The compute-units field of a transaction's metadata, which the node may
/// fill, leave empty or leave out.
#[derive(Clone, Copy, Debug, PartialEq, Eq)]
pub enum ComputeUnitsField {
    /// The node filled the field.
    Present(u64),
    /// The node left the field empty.
    Absent,
    /// The node left the field out.
    Skipped,
}

/// The metadata of a landed transaction, as far as the verifier reads it.
#[derive(Clone, Copy, Debug, PartialEq, Eq)]
pub struct TransactionMeta {
    pub compute_units_consumed: ComputeUnitsField,
}

/// A landed transaction, as far as the verifier reads it. Whether its
/// instruction succeeded on chain is not looked at.
#[derive(Clone, Copy, Debug, PartialEq, Eq)]
pub struct TransactionDetails {
    pub meta: Option<TransactionMeta>,
}

/// How one lookup went. A lookup that failed for any reason counts as not
/// found.
#[derive(Clone, Copy, Debug, PartialEq, Eq)]
pub enum Lookup {
    Found(TransactionDetails),
    NotFound,
}

/// What the verifier reports for one submission.
#[derive(Clone, Copy, Debug, PartialEq, Eq)]
pub struct ConfirmationOutcome {
    /// Position of the instruction in its batch.
    pub index: u32,
    /// Whether a lookup found the transaction.
    pub found: bool,
    /// Compute units the transaction used, where the node told.
    pub compute_units: Option<u64>,
}

/// No lookup found the transaction within the allowed attempts.
#[derive(Clone, Copy, Debug, PartialEq, Eq)]
pub struct ConfirmationTimeout {
    /// Position of the instruction in its batch.
    pub index: u32,
}

/// Where the verifier stands.
#[derive(Clone, Copy, Debug, PartialEq, Eq)]
pub enum VerifierPhase {
    /// A lookup is due.
    Looking,
    /// A pause is due before the next lookup.
    Pausing,
    /// The outcome is known.
    Finished(ConfirmationOutcome),
}

/// What the driver reports back.
#[derive(Clone, Copy, Debug, PartialEq, Eq)]
pub enum VerifierEvent {
    /// The lookup came back.
    LookedUp(Lookup),
    /// The pause is over.
    Paused,
}

/// What the driver must do next.
#[derive(Clone, Copy, Debug, PartialEq, Eq)]
pub enum VerifierAction {
    /// Look up the transaction sent under `signature`.
    Lookup { signature: Signature },
    /// Pause for `millis` milliseconds.
    Pause { millis: u64 },
    /// Nothing: report this outcome.
    Report(ConfirmationOutcome),
}

/// The compute units that the details of a landed transaction tell of: the
/// value of the field where metadata is present and the field is filled.
pub open spec fn compute_units_of(details: TransactionDetails) -> Option<u64> {
    match details.meta {
        Some(meta) => match meta.compute_units_consumed {
            ComputeUnitsField::Present(units) => Some(units),
            _ => None,
        },
        None => None,
    }
}

/// The outcome for a transaction that no lookup found.
pub open spec fn not_found(index: u32) -> ConfirmationOutcome {
    ConfirmationOutcome { index, found: false, compute_units: None }
}

/// The mathematical state of one verification.
pub struct VerifierState {
    /// Position of the instruction in its batch.
    pub index: u32,
    /// Signature under which the transaction was sent.
    pub signature: Signature,
    /// How long the verifier keeps trying.
    pub policy: RetryPolicy,
    /// Lookups made so far.
    pub attempts: nat,
    /// Where the verifier stands.
    pub phase: VerifierPhase,
}

impl VerifierState {
    /// The verifier never makes more lookups than its policy allows, pauses
    /// only between two lookups, and reports "not found" only when every
    /// allowed lookup has been made.
    pub open spec fn wf(self) -> bool {
        match self.phase {
            VerifierPhase::Looking => self.attempts < self.policy.max_attempts,
            VerifierPhase::Pausing => 1 <= self.attempts < self.policy.max_attempts,
            VerifierPhase::Finished(outcome) => {
                &&& self.attempts <= self.policy.max_attempts
                &&& outcome.index == self.index
                &&& outcome.found ==> self.attempts >= 1
                &&& !outcome.found ==> self.attempts == self.policy.max_attempts
                    && outcome.compute_units is None
            },
        }
    }

    /// A verification that has made no lookup yet. Under a policy that
    /// allows no lookup it is over before it begins.
    pub open spec fn start(submission: SubmissionRecord, policy: RetryPolicy) -> VerifierState {
        VerifierState {
            index: submission.index,
            signature: submission.signature,
            policy,
            attempts: 0,
            phase: if policy.max_attempts > 0 {
                VerifierPhase::Looking
            } else {
                VerifierPhase::Finished(not_found(submission.index))
            },
        }
    }

    /// What is due in this state.
    pub open spec fn action(self) -> VerifierAction {
        match self.phase {
            VerifierPhase::Looking => VerifierAction::Lookup { signature: self.signature },
            VerifierPhase::Pausing => VerifierAction::Pause { millis: self.policy.delay_millis },
            VerifierPhase::Finished(outcome) => VerifierAction::Report(outcome),
        }
    }

    /// The state after `event`. The first lookup that finds the transaction
    /// ends the verification; a lookup that does not is followed by a pause
    /// and another lookup, unless it was the last one allowed. An event that
    /// does not answer what was due changes nothing.
    pub open spec fn after(self, event: VerifierEvent) -> VerifierState {
        match (self.phase, event) {
            (VerifierPhase::Looking, VerifierEvent::LookedUp(Lookup::Found(details))) => {
                VerifierState {
                    attempts: self.attempts + 1,
                    phase: VerifierPhase::Finished(
                        ConfirmationOutcome {
                            index: self.index,
                            found: true,
                            compute_units: compute_units_of(details),
                        },
                    ),
                    ..self
                }
            },
            (VerifierPhase::Looking, VerifierEvent::LookedUp(Lookup::NotFound)) => {
                VerifierState {
                    attempts: self.attempts + 1,
                    phase: if self.attempts + 1 < self.policy.max_attempts {
                        VerifierPhase::Pausing
                    } else {
                        VerifierPhase::Finished(not_found(self.index))
                    },
                    ..self
                }
            },
            (VerifierPhase::Pausing, VerifierEvent::Paused) => {
                VerifierState { phase: VerifierPhase::Looking, ..self }
            },
            _ => self,
        }
    }

    /// The state reached when the first `failures` lookups found nothing and
    /// each was followed by its pause.
    pub open spec fn after_failed_attempts(
        submission: SubmissionRecord,
        policy: RetryPolicy,
        failures: nat,
    ) -> VerifierState
        decreases failures,
    {
        if failures == 0 {
            VerifierState::start(submission, policy)
        } else {
            VerifierState::after_failed_attempts(submission, policy, (failures - 1) as nat).after(
                VerifierEvent::LookedUp(Lookup::NotFound),
            ).after(VerifierEvent::Paused)
        }
    }
}

/// Reads the compute units out of the details of a landed transaction.
/// Missing metadata, or a field left empty or out, is not an error: it gives
/// `None`.
pub fn extract_compute_units(details: &TransactionDetails) -> (units: Option<u64>)
    ensures
        units == compute_units_of(*details),
{
    match details.meta {
        Some(meta) => match meta.compute_units_consumed {
            ComputeUnitsField::Present(units) => Some(units),
            _ => None,
        },
        None => None,
    }
}

impl ConfirmationOutcome {
    /// The outcome as a result: the compute units of a transaction that was
    /// found, or a timeout for one that was not.
    pub fn into_result(self) -> (result: Result<Option<u64>, ConfirmationTimeout>)
        ensures
            self.found ==> result == Ok::<Option<u64>, ConfirmationTimeout>(self.compute_units),
            !self.found ==> result == Err::<Option<u64>, ConfirmationTimeout>(
                ConfirmationTimeout { index: self.index },
            ),
    {
        if self.found {
            Ok(self.compute_units)
        } else {
            Err(ConfirmationTimeout { index: self.index })
        }
    }
}

impl RetryPolicy {
    /// The usual policy: ten lookups, fifty milliseconds apart.
    pub fn standard() -> (policy: RetryPolicy)
        ensures
            policy == standard_policy(),
            policy.max_attempts == 10,
            policy.delay_millis == 50,
    {
        RetryPolicy { max_attempts: MAX_LOOKUP_ATTEMPTS, delay_millis: LOOKUP_RETRY_DELAY_MS }
    }
}

/// One verification in progress.
pub struct Verifier {
    index: u32,
    signature: Signature,
    policy: RetryPolicy,
    attempts: u32,
    phase: VerifierPhase,
}

impl View for Verifier {
    type V = VerifierState;

    closed spec fn view(&self) -> VerifierState {
        VerifierState {
            index: self.index,
            signature: self.signature,
            policy: self.policy,
            attempts: self.attempts as nat,
            phase: self.phase,
        }
    }
}

impl Verifier {
    #[verifier::type_invariant]
    spec fn valid(self) -> bool {
        self@.wf()
    }

    /// Takes a submission record and starts its verification under the usual
    /// policy.
    pub fn new(submission: SubmissionRecord) -> (verifier: Verifier)
        ensures
            verifier@ == VerifierState::start(submission, standard_policy()),
            verifier@.wf(),
    {
        Verifier::with_policy(submission, RetryPolicy::standard())
    }

    /// Takes a submission record and starts its verification under `policy`.
    pub fn with_policy(submission: SubmissionRecord, policy: RetryPolicy) -> (verifier: Verifier)
        ensures
            verifier@ == VerifierState::start(submission, policy),
            verifier@.wf(),
    {
        let phase: VerifierPhase = if policy.max_attempts > 0 {
            VerifierPhase::Looking
        } else {
            VerifierPhase::Finished(
                ConfirmationOutcome { index: submission.index, found: false, compute_units: None },
            )
        };
        Verifier {
            index: submission.index,
            signature: submission.signature,
            policy,
            attempts: 0,
            phase,
        }
    }

    /// What is due next.
    pub fn action(&self) -> (action: VerifierAction)
        ensures
            self@.wf(),
            action == self@.action(),
    {
        proof {
            use_type_invariant(self);
        }
        match self.phase {
            VerifierPhase::Looking => VerifierAction::Lookup { signature: self.signature },
            VerifierPhase::Pausing => VerifierAction::Pause { millis: self.policy.delay_millis },
            VerifierPhase::Finished(outcome) => VerifierAction::Report(outcome),
        }
    }

    /// Lookups made so far.
    pub fn attempts(&self) -> (attempts: u32)
        ensures
            self@.wf(),
            attempts == self@.attempts,
            attempts <= self@.policy.max_attempts,
    {
        proof {
            use_type_invariant(self);
        }
        self.attempts
    }

    /// The outcome, once the verification has ended.
    pub fn outcome(&self) -> (outcome: Option<ConfirmationOutcome>)
        ensures
            self@.wf(),
            match outcome {
                Some(known) => self@.phase == VerifierPhase::Finished(known),
                None => !(self@.phase is Finished),
            },
    {
        proof {
            use_type_invariant(self);
        }
        match self.phase {
            VerifierPhase::Finished(outcome) => Some(outcome),
            _ => None,
        }
    }

    /// Moves on by one event.
    pub fn on_event(self, event: VerifierEvent) -> (next: Verifier)
        ensures
            self@.wf(),
            next@.wf(),
            next@ == self@.after(event),
    {
        proof {
            use_type_invariant(&self);
        }
        match (self.phase, event) {
            (VerifierPhase::Looking, VerifierEvent::LookedUp(Lookup::Found(details))) => Verifier {
                index: self.index,
                signature: self.signature,
                policy: self.policy,
                attempts: self.attempts + 1,
                phase: VerifierPhase::Finished(
                    ConfirmationOutcome {
                        index: self.index,
                        found: true,
                        compute_units: extract_compute_units(&details),
                    },
                ),
            },
            (VerifierPhase::Looking, VerifierEvent::LookedUp(Lookup::NotFound)) => {
                let attempts: u32 = self.attempts + 1;
                let phase: VerifierPhase = if attempts < self.policy.max_attempts {
                    VerifierPhase::Pausing
                } else {
                    VerifierPhase::Finished(
                        ConfirmationOutcome { index: self.index, found: false, compute_units: None },
                    )
                };
                Verifier {
                    index: self.index,
                    signature: self.signature,
                    policy: self.policy,
                    attempts,
                    phase,
                }
            },
            (VerifierPhase::Pausing, VerifierEvent::Paused) => Verifier {
                index: self.index,
                signature: self.signature,
                policy: self.policy,
                attempts: self.attempts,
                phase: VerifierPhase::Looking,
            },
            _ => self,
        }
    }
}

/// Every step keeps the verifier within its bounds: at most the allowed
/// number of lookups, whatever the driver reports, and nothing but the count
/// and the phase ever changes.
pub proof fn lemma_verifier_stays_bounded(state: VerifierState, event: VerifierEvent)
    requires
        state.wf(),
    ensures
        state.after(event).wf(),
        state.after(event).attempts <= state.policy.max_attempts,
        state.after(event).index == state.index,
        state.after(event).signature == state.signature,
        state.after(event).policy == state.policy,
        state.phase is Finished ==> state.after(event) == state,
{
}

/// The first lookup that finds the transaction ends the verification, and
/// the outcome says "found" whatever the details hold. Where they tell no
/// compute units, the outcome carries none and still says "found".
pub proof fn lemma_found_ends_verification(state: VerifierState, details: TransactionDetails)
    requires
        state.wf(),
        state.phase is Looking,
    ensures
        state.after(VerifierEvent::LookedUp(Lookup::Found(details))).phase
            == VerifierPhase::Finished(
            ConfirmationOutcome {
                index: state.index,
                found: true,
                compute_units: compute_units_of(details),
            },
        ),
        state.after(VerifierEvent::LookedUp(Lookup::Found(details))).attempts == state.attempts
            + 1,
{
}

/// A signature that never resolves is looked up exactly as often as the
/// policy allows, with one pause of the policy's delay between two lookups,
/// and is then reported as not found. Stated for every count of failures so
/// far: the verifier is about to look up again, and one more failure leads
/// to a pause while lookups are left, and to the "not found" outcome at the
/// last.
pub proof fn lemma_unresolved_signature_exhausts_attempts(
    submission: SubmissionRecord,
    policy: RetryPolicy,
    failures: nat,
)
    requires
        failures < policy.max_attempts,
    ensures
        ({
            let state = VerifierState::after_failed_attempts(submission, policy, failures);
            let failed = state.after(VerifierEvent::LookedUp(Lookup::NotFound));
            &&& state.wf()
            &&& state.phase is Looking
            &&& state.attempts == failures
            &&& state.index == submission.index
            &&& state.signature == submission.signature
            &&& state.policy == policy
            &&& state.action() == (VerifierAction::Lookup { signature: submission.signature })
            &&& failed.wf()
            &&& failed.attempts == failures + 1
            &&& failures + 1 < policy.max_attempts ==> failed.phase is Pausing && failed.action()
                == (VerifierAction::Pause { millis: policy.delay_millis })
            &&& failures + 1 == policy.max_attempts ==> failed.phase == VerifierPhase::Finished(
                not_found(submission.index),
            ) && failed.action() == VerifierAction::Report(not_found(submission.index))
        }),
    decreases failures,
{
    if failures > 0 {
        lemma_unresolved_signature_exhausts_attempts(submission, policy, (failures - 1) as nat);
    }
}

/// Under the usual policy a signature that never resolves costs exactly ten
/// lookups: after nine failures, each followed by a pause of fifty
/// milliseconds, the tenth lookup is due, and when it fails too the outcome
/// is "not found".
pub proof fn lemma_unresolved_signature_takes_ten_lookups(submission: SubmissionRecord)
    ensures
        ({
            let ninth = VerifierState::after_failed_attempts(submission, standard_policy(), 9);
            let last = ninth.after(VerifierEvent::LookedUp(Lookup::NotFound));
            &&& ninth.attempts == 9
            &&& ninth.action() == (VerifierAction::Lookup { signature: submission.signature })
            &&& last.attempts == 10
            &&& last.action() == VerifierAction::Report(
                ConfirmationOutcome { index: submission.index, found: false, compute_units: None },
            )
        }),
        forall|failures: nat|
            failures < 9 ==> (#[trigger] VerifierState::after_failed_attempts(
                submission,
                standard_policy(),
                failures,
            )).after(VerifierEvent::LookedUp(Lookup::NotFound)).action() == (VerifierAction::Pause {
                millis: 50,
            }),
{
    lemma_unresolved_signature_exhausts_attempts(submission, standard_policy(), 9);
    assert forall|failures: nat| failures < 9 implies (
    #[trigger] VerifierState::after_failed_attempts(submission, standard_policy(), failures)).after(
        VerifierEvent::LookedUp(Lookup::NotFound),
    ).action() == (VerifierAction::Pause { millis: 50 }) by {
        lemma_unresolved_signature_exhausts_attempts(submission, standard_policy(), failures);
    }
}

} // verus!

//! The funding poller: asks for an airdrop to a fresh account and waits until
//! the account is seen to hold a balance.
//!
//! The poller performs nothing itself. It names the request its driver must
//! make next, and moves on when the driver reports how the request went. It
//! has no failure state and no timeout: until a positive balance is read it
//! keeps asking, and a driver that wants a bound stops asking.

use crate::address::{Address, Signature};
use vstd::prelude::*;

verus! {

/// Pause between two rounds of polling, in milliseconds, unless the poller is
/// made with another.
pub const FUNDING_POLL_INTERVAL_MS: u64 = 100;

/// Where the poller stands.
#[derive(Clone, Copy, Debug, PartialEq, Eq)]
pub enum FundingPhase {
    /// The airdrop request has not been answered yet.
    Requesting,
    /// A confirmation check on the airdrop is due.
    Confirming { signature: Signature },
    /// A read of the recipient's balance is due.
    ReadingBalance { signature: Signature },
    /// A pause is due before the next round.
    Pausing { signature: Signature },
    /// A positive balance was read.
    Funded { balance: u64 },
}

/// What the driver reports back.
#[derive(Clone, Copy, Debug, PartialEq, Eq)]
pub enum FundingEvent {
    /// The airdrop request was accepted under this signature.
    AirdropRequested { signature: Signature },
    /// The confirmation check came back; `confirmed` tells whether the
    /// airdrop counts as confirmed.
    ConfirmationChecked { confirmed: bool },
    /// The balance read came back, with the balance unless the read failed.
    BalanceRead { balance: Option<u64> },
    /// The pause is over.
    Paused,
}

/// What the driver must do next.
#[derive(Clone, Copy, Debug, PartialEq, Eq)]
pub enum FundingAction {
    /// Request an airdrop of `lamports` to `recipient`.
    RequestAirdrop { recipient: Address, lamports: u64 },
    /// Check whether the transaction under `signature` is confirmed.
    ConfirmTransaction { signature: Signature },
    /// Read the balance of `recipient`.
    ReadBalance { recipient: Address },
    /// Pause for `millis` milliseconds.
    Pause { millis: u64 },
    /// Nothing: the recipient holds `balance`.
    Done { balance: u64 },
}

/// The mathematical state of a funding poller.
pub struct FundingState {
    /// The account being funded.
    pub recipient: Address,
    /// The amount asked for.
    pub lamports: u64,
    /// Pause between two rounds, in milliseconds.
    pub interval_millis: u64,
    /// Where the poller stands.
    pub phase: FundingPhase,
}

impl FundingState {
    /// A poller reports a balance only if it is positive.
    pub open spec fn wf(self) -> bool {
        self.phase matches FundingPhase::Funded { balance } ==> balance > 0
    }

    /// A poller that has not requested its airdrop yet.
    pub open spec fn start(recipient: Address, lamports: u64, interval_millis: u64) -> FundingState {
        FundingState { recipient, lamports, interval_millis, phase: FundingPhase::Requesting }
    }

    /// The request that is due in this state.
    pub open spec fn action(self) -> FundingAction {
        match self.phase {
            FundingPhase::Requesting => FundingAction::RequestAirdrop {
                recipient: self.recipient,
                lamports: self.lamports,
            },
            FundingPhase::Confirming { signature } => FundingAction::ConfirmTransaction {
                signature,
            },
            FundingPhase::ReadingBalance { .. } => FundingAction::ReadBalance {
                recipient: self.recipient,
            },
            FundingPhase::Pausing { .. } => FundingAction::Pause { millis: self.interval_millis },
            FundingPhase::Funded { balance } => FundingAction::Done { balance },
        }
    }

    /// The phase that follows when `event` is reported. A round goes from the
    /// confirmation check to the balance read; it ends funded on a positive
    /// balance, and in a pause on anything less. An event that does not
    /// answer the request that was due changes nothing.
    pub open spec fn phase_after(self, event: FundingEvent) -> FundingPhase {
        match (self.phase, event) {
            (FundingPhase::Requesting, FundingEvent::AirdropRequested { signature }) => {
                FundingPhase::Confirming { signature }
            },
            (
                FundingPhase::Confirming { signature },
                FundingEvent::ConfirmationChecked { confirmed },
            ) => {
                if confirmed {
                    FundingPhase::ReadingBalance { signature }
                } else {
                    FundingPhase::Pausing { signature }
                }
            },
            (FundingPhase::ReadingBalance { signature }, FundingEvent::BalanceRead { balance }) => {
                match balance {
                    Some(lamports) if lamports > 0 => FundingPhase::Funded { balance: lamports },
                    _ => FundingPhase::Pausing { signature },
                }
            },
            (FundingPhase::Pausing { signature }, FundingEvent::Paused) => {
                FundingPhase::Confirming { signature }
            },
            _ => self.phase,
        }
    }

    /// The state after `event`: only the phase moves.
    pub open spec fn after(self, event: FundingEvent) -> FundingState {
        FundingState { phase: self.phase_after(event), ..self }
    }

    /// The state after all of `events`, in order.
    pub open spec fn after_all(self, events: Seq<FundingEvent>) -> FundingState
        decreases events.len(),
    {
        if events.len() == 0 {
            self
        } else {
            self.after_all(events.drop_last()).after(events.last())
        }
    }
}

/// A funding poller for one recipient.
pub struct FundingPoller {
    recipient: Address,
    lamports: u64,
    interval_millis: u64,
    phase: FundingPhase,
}

impl View for FundingPoller {
    type V = FundingState;

    closed spec fn view(&self) -> FundingState {
        FundingState {
            recipient: self.recipient,
            lamports: self.lamports,
            interval_millis: self.interval_millis,
            phase: self.phase,
        }
    }
}

impl FundingPoller {
    #[verifier::type_invariant]
    spec fn valid(self) -> bool {
        self@.wf()
    }

    /// A poller that is about to request `lamports` for `recipient`, and that
    /// pauses for the usual interval between rounds.
    pub fn new(recipient: Address, lamports: u64) -> (poller: FundingPoller)
        ensures
            poller@ == FundingState::start(recipient, lamports, FUNDING_POLL_INTERVAL_MS),
            poller@.wf(),
    {
        FundingPoller {
            recipient,
            lamports,
            interval_millis: FUNDING_POLL_INTERVAL_MS,
            phase: FundingPhase::Requesting,
        }
    }

    /// A poller that pauses for `interval_millis` between rounds.
    pub fn with_interval(recipient: Address, lamports: u64, interval_millis: u64) -> (poller:
        FundingPoller)
        ensures
            poller@ == FundingState::start(recipient, lamports, interval_millis),
            poller@.wf(),
    {
        FundingPoller { recipient, lamports, interval_millis, phase: FundingPhase::Requesting }
    }

    /// The request that is due.
    pub fn action(&self) -> (action: FundingAction)
        ensures
            self@.wf(),
            action == self@.action(),
    {
        proof {
            use_type_invariant(self);
        }
        match self.phase {
            FundingPhase::Requesting => FundingAction::RequestAirdrop {
                recipient: self.recipient,
                lamports: self.lamports,
            },
            FundingPhase::Confirming { signature } => FundingAction::ConfirmTransaction { signature },
            FundingPhase::ReadingBalance { .. } => FundingAction::ReadBalance {
                recipient: self.recipient,
            },
            FundingPhase::Pausing { .. } => FundingAction::Pause { millis: self.interval_millis },
            FundingPhase::Funded { balance } => FundingAction::Done { balance },
        }
    }

    /// Whether a positive balance has been read.
    pub fn is_funded(&self) -> (funded: bool)
        ensures
            self@.wf(),
            funded == (self@.phase is Funded),
    {
        proof {
            use_type_invariant(self);
        }
        match self.phase {
            FundingPhase::Funded { .. } => true,
            _ => false,
        }
    }

    /// Moves on by one event.
    pub fn on_event(self, event: FundingEvent) -> (next: FundingPoller)
        ensures
            self@.wf(),
            next@.wf(),
            next@ == self@.after(event),
    {
        proof {
            use_type_invariant(&self);
        }
        let phase: FundingPhase = match (self.phase, event) {
            (FundingPhase::Requesting, FundingEvent::AirdropRequested { signature }) => {
                FundingPhase::Confirming { signature }
            },
            (
                FundingPhase::Confirming { signature },
                FundingEvent::ConfirmationChecked { confirmed },
            ) => {
                if confirmed {
                    FundingPhase::ReadingBalance { signature }
                } else {
                    FundingPhase::Pausing { signature }
                }
            },
            (FundingPhase::ReadingBalance { signature }, FundingEvent::BalanceRead { balance }) => {
                match balance {
                    Some(lamports) if lamports > 0 => FundingPhase::Funded { balance: lamports },
                    _ => FundingPhase::Pausing { signature },
                }
            },
            (FundingPhase::Pausing { signature }, FundingEvent::Paused) => {
                FundingPhase::Confirming { signature }
            },
            (phase, _) => phase,
        };
        FundingPoller {
            recipient: self.recipient,
            lamports: self.lamports,
            interval_millis: self.interval_millis,
            phase,
        }
    }
}

/// Every step keeps the poller valid and leaves recipient, amount and
/// interval as they were.
pub proof fn lemma_funding_step_keeps_settings(state: FundingState, event: FundingEvent)
    requires
        state.wf(),
    ensures
        state.after(event).wf(),
        state.after(event).recipient == state.recipient,
        state.after(event).lamports == state.lamports,
        state.after(event).interval_millis == state.interval_millis,
{
}

/// The poller becomes funded only by reading a positive balance while a
/// balance read is due: no other event, and no other phase, leads there.
pub proof fn lemma_funded_only_by_positive_balance(state: FundingState, event: FundingEvent)
    requires
        !(state.phase is Funded),
    ensures
        state.after(event).phase is Funded <==> {
            &&& state.phase is ReadingBalance
            &&& event matches FundingEvent::BalanceRead { balance: Some(lamports) }
            &&& lamports > 0
        },
        state.after(event).phase matches FundingPhase::Funded { balance } ==> event == (
        FundingEvent::BalanceRead { balance: Some(balance) }),
{
}

/// Whatever the driver reports, and in whatever order, a poller that ends
/// funded has been told of a read of the positive balance it reports.
pub proof fn lemma_funded_run_saw_the_balance(state: FundingState, events: Seq<FundingEvent>)
    requires
        !(state.phase is Funded),
    ensures
        state.after_all(events).wf(),
        state.after_all(events).phase matches FundingPhase::Funded { balance } ==> balance > 0
            && events.contains(FundingEvent::BalanceRead { balance: Some(balance) }),
    decreases events.len(),
{
    if events.len() > 0 {
        let before = state.after_all(events.drop_last());
        lemma_funded_run_saw_the_balance(state, events.drop_last());
        if let FundingPhase::Funded { balance } = before.after(events.last()).phase {
            let read = FundingEvent::BalanceRead { balance: Some(balance) };
            if before.phase is Funded {
                let earlier = choose|i: int|
                    0 <= i < events.drop_last().len() && events.drop_last()[i] == read;
                assert(events[earlier] == read);
            } else {
                lemma_funded_only_by_positive_balance(before, events.last());
                assert(events[events.len() - 1] == read);
            }
        }
    }
}

/// Once funded, the poller stays funded with the balance it saw.
pub proof fn lemma_funded_is_final(state: FundingState, events: Seq<FundingEvent>)
    requires
        state.phase is Funded,
    ensures
        state.after_all(events) == state,
    decreases events.len(),
{
    if events.len() > 0 {
        lemma_funded_is_final(state, events.drop_last());
    }
}

/// A round that does not see a positive balance ends in a pause of the poll
/// interval, after which the confirmation check is made again under the same
/// signature: the poller never gives up.
pub proof fn lemma_unfunded_round_is_retried(
    state: FundingState,
    signature: Signature,
    balance: Option<u64>,
)
    requires
        balance matches Some(seen) ==> seen == 0,
    ensures
        state.phase == (FundingPhase::Confirming { signature }) ==> state.after(
            FundingEvent::ConfirmationChecked { confirmed: false },
        ).phase == (FundingPhase::Pausing { signature }),
        state.phase == (FundingPhase::ReadingBalance { signature }) ==> state.after(
            FundingEvent::BalanceRead { balance },
        ).phase == (FundingPhase::Pausing { signature }),
        state.phase == (FundingPhase::Pausing { signature }) ==> state.action() == (
        FundingAction::Pause { millis: state.interval_millis }) && state.after(
            FundingEvent::Paused,
        ).phase == (FundingPhase::Confirming { signature }),
{
}

} // verus!

//! The batch submitter: sends a batch of counter instructions one after the
//! other under a single block hash, and keeps, for every instruction, how its
//! submission went.
//!
//! Sending is the driver's work. The submitter names the instruction to send
//! next and records what the driver reports; a failed submission is recorded
//! like any other and never holds back the instructions after it.

use crate::address::{Address, Blockhash, Signature};
use crate::payload::{counter_of, encode_counter, le_bytes};
use vstd::prelude::*;

verus! {

/// One instruction for the counter program. It names no accounts.
#[derive(Debug, PartialEq, Eq)]
pub struct Instruction {
    pub program_id: Address,
    pub data: Vec<u8>,
}

/// A transaction that was handed to the node.
#[derive(Debug, PartialEq, Eq)]
pub struct SubmissionRecord {
    /// Position of the instruction in its batch.
    pub index: u32,
    /// Signature under which the transaction was sent.
    pub signature: Signature,
}

/// A transaction that the node did not take.
#[derive(Debug, PartialEq, Eq)]
pub struct SubmitError {
    /// Position of the instruction in its batch.
    pub index: u32,
    /// What the node, or the transport, said.
    pub reason: String,
}

/// What the driver must send next.
#[derive(Debug, PartialEq, Eq)]
pub struct SendRequest<'a> {
    /// Position of the instruction in its batch.
    pub index: u32,
    /// The account that pays for, and signs, the transaction.
    pub payer: Address,
    /// The block hash of the batch.
    pub blockhash: Blockhash,
    /// The instruction to wrap in a transaction.
    pub instruction: &'a Instruction,
}

/// The outcome kept for the instruction at `index`, given how sending it
/// went.
pub open spec fn outcome_of(index: u32, sent: Result<Signature, String>) -> Result<
    SubmissionRecord,
    SubmitError,
> {
    match sent {
        Ok(signature) => Ok(SubmissionRecord { index, signature }),
        Err(reason) => Err(SubmitError { index, reason }),
    }
}

/// The batch position that an outcome speaks of.
pub open spec fn index_of(outcome: Result<SubmissionRecord, SubmitError>) -> u32 {
    match outcome {
        Ok(record) => record.index,
        Err(error) => error.index,
    }
}

/// The outcomes of a whole batch, given how each send went: one outcome per
/// instruction, in batch order, each carrying its own position.
pub open spec fn batch_outcomes_of(results: Seq<Result<Signature, String>>) -> Seq<
    Result<SubmissionRecord, SubmitError>,
> {
    Seq::new(results.len(), |i: int| outcome_of(i as u32, results[i]))
}

/// Builds the instructions of a counter batch: instruction `i` carries the
/// eight-byte little-endian encoding of `i`.
pub fn counter_instructions(program_id: Address, count: u32) -> (instructions: Vec<Instruction>)
    ensures
        instructions@.len() == count,
        forall|i: int|
            0 <= i < count ==> (#[trigger] instructions@[i]).program_id == program_id
                && instructions@[i].data@ == le_bytes(i as u64) && counter_of(
                instructions@[i].data@,
            ) == i,
{
    let mut instructions: Vec<Instruction> = Vec::new();
    let mut i: u32 = 0;
    while i < count
        invariant
            i <= count,
            instructions@.len() == i,
            forall|k: int|
                0 <= k < i ==> (#[trigger] instructions@[k]).program_id == program_id
                    && instructions@[k].data@ == le_bytes(k as u64) && counter_of(
                    instructions@[k].data@,
                ) == k,
        decreases count - i,
    {
        instructions.push(Instruction { program_id, data: encode_counter(i as u64) });
        i += 1;
    }
    instructions
}

/// The mathematical state of one batch submission.
pub struct BatchState {
    /// The account that pays for every transaction of the batch.
    pub payer: Address,
    /// The one block hash under which every transaction of the batch is sent.
    pub blockhash: Blockhash,
    /// The instructions of the batch, in order.
    pub instructions: Seq<Instruction>,
    /// The outcomes recorded so far, in order.
    pub outcomes: Seq<Result<SubmissionRecord, SubmitError>>,
}

impl BatchState {
    /// Outcomes are kept in batch order, one per instruction sent so far, and
    /// each speaks of its own position.
    pub open spec fn wf(self) -> bool {
        &&& self.instructions.len() <= u32::MAX
        &&& self.outcomes.len() <= self.instructions.len()
        &&& forall|i: int|
            0 <= i < self.outcomes.len() ==> index_of(#[trigger] self.outcomes[i]) == i
    }

    /// A batch with nothing sent yet.
    pub open spec fn start(
        payer: Address,
        instructions: Seq<Instruction>,
        blockhash: Blockhash,
    ) -> BatchState {
        BatchState { payer, blockhash, instructions, outcomes: Seq::empty() }
    }

    /// Whether every instruction has its outcome.
    pub open spec fn is_complete(self) -> bool {
        self.outcomes.len() >= self.instructions.len()
    }

    /// The state after one more send result has been reported. A result
    /// reported once the batch is complete is dropped.
    pub open spec fn after(self, sent: Result<Signature, String>) -> BatchState {
        if self.is_complete() {
            self
        } else {
            BatchState {
                outcomes: self.outcomes.push(outcome_of(self.outcomes.len() as u32, sent)),
                ..self
            }
        }
    }

    /// The state after all of `results` have been reported, in order.
    pub open spec fn after_all(self, results: Seq<Result<Signature, String>>) -> BatchState
        decreases results.len(),
    {
        if results.len() == 0 {
            self
        } else {
            self.after_all(results.drop_last()).after(results.last())
        }
    }
}

/// One batch submission in progress.
pub struct BatchSubmitter {
    payer: Address,
    blockhash: Blockhash,
    instructions: Vec<Instruction>,
    outcomes: Vec<Result<SubmissionRecord, SubmitError>>,
}

impl View for BatchSubmitter {
    type V = BatchState;

    closed spec fn view(&self) -> BatchState {
        BatchState {
            payer: self.payer,
            blockhash: self.blockhash,
            instructions: self.instructions@,
            outcomes: self.outcomes@,
        }
    }
}

impl BatchSubmitter {
    #[verifier::type_invariant]
    spec fn valid(self) -> bool {
        self@.wf()
    }

    /// A submitter for `instructions`, all to be sent under `blockhash` and
    /// paid for by `payer`.
    pub fn new(payer: Address, instructions: Vec<Instruction>, blockhash: Blockhash) -> (submitter:
        BatchSubmitter)
        requires
            instructions@.len() <= u32::MAX,
        ensures
            submitter@ == BatchState::start(payer, instructions@, blockhash),
            submitter@.wf(),
    {
        BatchSubmitter { payer, blockhash, instructions, outcomes: Vec::new() }
    }

    /// Whether every instruction has its outcome.
    pub fn is_complete(&self) -> (complete: bool)
        ensures
            self@.wf(),
            complete == self@.is_complete(),
            complete == (self@.outcomes.len() == self@.instructions.len()),
    {
        proof {
            use_type_invariant(self);
        }
        self.outcomes.len() >= self.instructions.len()
    }

    /// The instruction to send next, with the position it has in the batch
    /// and the block hash of the batch; `None` once the batch is complete.
    pub fn next(&self) -> (request: Option<SendRequest<'_>>)
        ensures
            self@.wf(),
            request is None <==> self@.is_complete(),
            request matches Some(send) ==> {
                &&& send.index == self@.outcomes.len()
                &&& send.payer == self@.payer
                &&& send.blockhash == self@.blockhash
                &&& *send.instruction == self@.instructions[send.index as int]
            },
    {
        proof {
            use_type_invariant(self);
        }
        let sent: usize = self.outcomes.len();
        if sent < self.instructions.len() {
            Some(
                SendRequest {
                    index: sent as u32,
                    payer: self.payer,
                    blockhash: self.blockhash,
                    instruction: &self.instructions[sent],
                },
            )
        } else {
            None
        }
    }

    /// Records how sending the next instruction went, success or failure
    /// alike, and moves on to the one after it.
    pub fn record(self, sent: Result<Signature, String>) -> (next: BatchSubmitter)
        ensures
            self@.wf(),
            next@.wf(),
            next@ == self@.after(sent),
    {
        proof {
            use_type_invariant(&self);
        }
        let BatchSubmitter { payer, blockhash, instructions, mut outcomes } = self;
        let position: usize = outcomes.len();
        if position < instructions.len() {
            let index: u32 = position as u32;
            let outcome: Result<SubmissionRecord, SubmitError> = match sent {
                Ok(signature) => Ok(SubmissionRecord { index, signature }),
                Err(reason) => Err(SubmitError { index, reason }),
            };
            outcomes.push(outcome);
        }
        BatchSubmitter { payer, blockhash, instructions, outcomes }
    }

    /// Ends the submission and hands out the outcomes recorded so far, in
    /// batch order.
    pub fn into_outcomes(self) -> (outcomes: Vec<Result<SubmissionRecord, SubmitError>>)
        ensures
            self@.wf(),
            outcomes@ == self@.outcomes,
    {
        proof {
            use_type_invariant(&self);
        }
        self.outcomes
    }
}

/// Sending never reorders or drops: after the driver has reported as many
/// results as the batch has instructions, the outcomes are exactly those
/// results, each tagged with its position in the batch.
pub proof fn lemma_batch_outcomes(
    payer: Address,
    instructions: Seq<Instruction>,
    blockhash: Blockhash,
    results: Seq<Result<Signature, String>>,
)
    requires
        instructions.len() <= u32::MAX,
        results.len() <= instructions.len(),
    ensures
        BatchState::start(payer, instructions, blockhash).after_all(results).wf(),
        BatchState::start(payer, instructions, blockhash).after_all(results).outcomes
            == batch_outcomes_of(results),
        BatchState::start(payer, instructions, blockhash).after_all(results).payer == payer,
        BatchState::start(payer, instructions, blockhash).after_all(results).blockhash == blockhash,
        BatchState::start(payer, instructions, blockhash).after_all(results).instructions
            == instructions,
        BatchState::start(payer, instructions, blockhash).after_all(results).is_complete() <==> results.len()
            == instructions.len(),
    decreases results.len(),
{
    if results.len() > 0 {
        lemma_batch_outcomes(payer, instructions, blockhash, results.drop_last());
        assert(BatchState::start(payer, instructions, blockhash).after_all(results).outcomes
            =~= batch_outcomes_of(results));
    } else {
        assert(BatchState::start(payer, instructions, blockhash).after_all(results).outcomes
            =~= batch_outcomes_of(results));
    }
}

/// On a transport that takes every transaction, a batch of any size ends with
/// one submission record per instruction, record `i` carrying position `i`
/// and the signature of send `i`: the positions are exactly `0..n`.
pub proof fn lemma_all_sent_batch_has_every_index(
    payer: Address,
    instructions: Seq<Instruction>,
    blockhash: Blockhash,
    results: Seq<Result<Signature, String>>,
)
    requires
        instructions.len() <= u32::MAX,
        results.len() == instructions.len(),
        forall|i: int| 0 <= i < results.len() ==> (#[trigger] results[i]) is Ok,
    ensures
        ({
            let outcomes = BatchState::start(payer, instructions, blockhash).after_all(
                results,
            ).outcomes;
            &&& outcomes.len() == instructions.len()
            &&& forall|i: int|
                0 <= i < outcomes.len() ==> #[trigger] outcomes[i] == Ok::<
                    SubmissionRecord,
                    SubmitError,
                >(SubmissionRecord { index: i as u32, signature: results[i]->Ok_0 })
        }),
{
    lemma_batch_outcomes(payer, instructions, blockhash, results);
}

/// No two outcomes of a batch speak of the same position.
pub proof fn lemma_submission_indices_are_unique(state: BatchState, i: int, j: int)
    requires
        state.wf(),
        0 <= i < state.outcomes.len(),
        0 <= j < state.outcomes.len(),
        index_of(state.outcomes[i]) == index_of(state.outcomes[j]),
    ensures
        i == j,
{
}

/// Recording keeps the batch valid and leaves payer, block hash and
/// instructions as they were: one block hash serves the whole batch.
pub proof fn lemma_record_keeps_batch(state: BatchState, sent: Result<Signature, String>)
    requires
        state.wf(),
    ensures
        state.after(sent).wf(),
        state.after(sent).payer == state.payer,
        state.after(sent).blockhash == state.blockhash,
        state.after(sent).instructions == state.instructions,
        !state.is_complete() ==> state.after(sent).outcomes.len() == state.outcomes.len() + 1,
        forall|i: int|
            0 <= i < state.outcomes.len() ==> state.after(sent).outcomes[i]
                == #[trigger] state.outcomes[i],
{
}

/// A failed send costs only its own record: the outcome kept for any other
/// position is the same as if the send had succeeded or failed differently.
pub proof fn lemma_failure_is_per_item(
    results: Seq<Result<Signature, String>>,
    position: int,
    other: Result<Signature, String>,
)
    requires
        0 <= position < results.len(),
    ensures
        batch_outcomes_of(results.update(position, other)).len() == batch_outcomes_of(
            results,
        ).len(),
        forall|i: int|
            0 <= i < results.len() && i != position ==> #[trigger] batch_outcomes_of(
                results.update(position, other),
            )[i] == batch_outcomes_of(results)[i],
{
}

} // verus!

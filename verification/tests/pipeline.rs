use counter_program::address::{Address, Blockhash, Signature};
use counter_program::batch::{counter_instructions, BatchSubmitter, SubmissionRecord, SubmitError};
use counter_program::confirm::{
    ComputeUnitsField, ConfirmationOutcome, Lookup, TransactionDetails, TransactionMeta, Verifier,
    VerifierAction, VerifierEvent,
};
use counter_program::funding::{FundingAction, FundingEvent, FundingPoller};
use counter_program::program::process_instruction;
use counter_program::resolver::{
    resolver_start, resolver_step, AccountRecord, FetchError, ProgramSize, ResolveError,
    ResolverStep,
};
use solana_program::bpf_loader_upgradeable::UpgradeableLoaderState;
use solana_program::pubkey::Pubkey;
use std::collections::HashMap;

/// A ledger node held in memory: accounts by address, balances that appear
/// after a few polls, and transactions that land after a few lookups.
struct Node {
    accounts: HashMap<[u8; 32], (Address, Vec<u8>)>,
    balance_reads_before_funds: u32,
    balance_reads: u32,
    lookups_before_landing: u32,
    sent: Vec<(Signature, Vec<u8>)>,
    lookups: HashMap<Vec<u8>, u32>,
    paused_millis: u64,
    program_id: Pubkey,
}

impl Node {
    fn new(program_id: [u8; 32]) -> Node {
        Node {
            accounts: HashMap::new(),
            balance_reads_before_funds: 2,
            balance_reads: 0,
            lookups_before_landing: 1,
            sent: Vec::new(),
            lookups: HashMap::new(),
            paused_millis: 0,
            program_id: Pubkey::new_from_array(program_id),
        }
    }

    fn get_account(&self, address: &Address) -> Result<AccountRecord, FetchError> {
        match self.accounts.get(&address.bytes) {
            Some((owner, data)) => {
                Ok(AccountRecord { owner: *owner, data: data.clone(), lamports: 1 })
            }
            None => Err(FetchError::NotFound),
        }
    }

    fn send(&mut self, index: u32, payload: &[u8]) -> Signature {
        let mut bytes = [0xeeu8; 64];
        bytes[..4].copy_from_slice(&index.to_le_bytes());
        let signature = Signature { bytes };
        self.sent.push((signature, payload.to_vec()));
        signature
    }

    fn lookup(&mut self, signature: &Signature) -> Lookup {
        let seen = self.lookups.entry(signature.bytes.to_vec()).or_insert(0);
        *seen += 1;
        if *seen <= self.lookups_before_landing {
            return Lookup::NotFound;
        }
        let payload = &self.sent.iter().find(|(sent, _)| sent == signature).unwrap().1;
        let counter = process_instruction(&self.program_id, &[], payload).unwrap();
        Lookup::Found(TransactionDetails {
            meta: Some(TransactionMeta {
                compute_units_consumed: ComputeUnitsField::Present(1_000 + counter),
            }),
        })
    }
}

fn get_program_size(node: &Node, program: Address) -> Result<ProgramSize, ResolveError> {
    let mut step = resolver_start(program);
    loop {
        match step {
            ResolverStep::Fetch { address, phase } => {
                step = resolver_step(phase, node.get_account(&address));
            }
            ResolverStep::Done(answer) => return answer,
        }
    }
}

#[test]
fn test_multiple_transactions() {
    let program = Address::new([40; 32]);
    let programdata = Address::new([41; 32]);
    let upgradeable = Address::new(solana_program::bpf_loader_upgradeable::id().to_bytes());
    let mut node = Node::new(program.bytes);
    node.accounts.insert(
        program.bytes,
        (
            upgradeable,
            bincode::serialize(&UpgradeableLoaderState::Program {
                programdata_address: Pubkey::new_from_array(programdata.bytes),
            })
            .unwrap(),
        ),
    );
    let mut image = bincode::serialize(&UpgradeableLoaderState::ProgramData {
        slot: 10,
        upgrade_authority_address: Some(Pubkey::new_from_array([42; 32])),
    })
    .unwrap();
    image.extend(std::iter::repeat(0u8).take(20_000));
    node.accounts.insert(programdata.bytes, (upgradeable, image));

    // Program size.
    assert_eq!(
        get_program_size(&node, program),
        Ok(ProgramSize { program_bytecode_size: 20_000, total_account_size: 20_045 })
    );
    assert_eq!(get_program_size(&node, Address::new([0; 32])), Err(ResolveError::NotFound));

    // Funding.
    let payer = Address::new([43; 32]);
    let mut poller = FundingPoller::new(payer, 1_000_000_000);
    let balance = loop {
        let event = match poller.action() {
            FundingAction::RequestAirdrop { recipient, lamports } => {
                assert_eq!((recipient, lamports), (payer, 1_000_000_000));
                FundingEvent::AirdropRequested { signature: Signature { bytes: [44; 64] } }
            }
            FundingAction::ConfirmTransaction { .. } => {
                FundingEvent::ConfirmationChecked { confirmed: true }
            }
            FundingAction::ReadBalance { .. } => {
                node.balance_reads += 1;
                let funded = node.balance_reads > node.balance_reads_before_funds;
                FundingEvent::BalanceRead { balance: Some(if funded { 1_000_000_000 } else { 0 }) }
            }
            FundingAction::Pause { millis } => {
                node.paused_millis += millis;
                FundingEvent::Paused
            }
            FundingAction::Done { balance } => break balance,
        };
        poller = poller.on_event(event);
    };
    assert_eq!(balance, 1_000_000_000);
    assert_eq!(node.paused_millis, 200);

    // Submission: one block hash, a hundred sends, none waited for.
    let blockhash = Blockhash { bytes: [45; 32] };
    let mut submitter = BatchSubmitter::new(payer, counter_instructions(program, 100), blockhash);
    loop {
        let signature = match submitter.next() {
            Some(request) => {
                assert_eq!(request.blockhash, blockhash);
                node.send(request.index, &request.instruction.data)
            }
            None => break,
        };
        submitter = submitter.record(Ok(signature));
    }
    let outcomes: Vec<Result<SubmissionRecord, SubmitError>> = submitter.into_outcomes();
    assert_eq!(outcomes.len(), 100);

    // Verification.
    node.paused_millis = 0;
    let mut reports = Vec::new();
    for outcome in outcomes {
        let mut verifier = Verifier::new(outcome.unwrap());
        let report = loop {
            let event = match verifier.action() {
                VerifierAction::Lookup { signature } => VerifierEvent::LookedUp(node.lookup(&signature)),
                VerifierAction::Pause { millis } => {
                    node.paused_millis += millis;
                    VerifierEvent::Paused
                }
                VerifierAction::Report(report) => break report,
            };
            verifier = verifier.on_event(event);
        };
        reports.push(report);
    }
    assert_eq!(reports.len(), 100);
    for (position, report) in reports.iter().enumerate() {
        let index = position as u32;
        let expected =
            ConfirmationOutcome { index, found: true, compute_units: Some(1_000 + index as u64) };
        assert_eq!(report, &expected);
    }
    assert_eq!(node.paused_millis, 100 * 50);
}

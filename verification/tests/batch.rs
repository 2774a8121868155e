use counter_program::address::{Address, Blockhash, Signature};
use counter_program::batch::{
    counter_instructions, BatchSubmitter, Instruction, SubmissionRecord, SubmitError,
};
use counter_program::payload::decode_counter;

const PAYER: Address = Address { bytes: [21; 32] };
const PROGRAM: Address = Address { bytes: [22; 32] };
const BLOCKHASH: Blockhash = Blockhash { bytes: [23; 32] };

fn signature(index: u32) -> Signature {
    let mut bytes = [0u8; 64];
    bytes[..4].copy_from_slice(&index.to_le_bytes());
    Signature { bytes }
}

#[test]
fn builds_one_instruction_per_index() {
    let instructions = counter_instructions(PROGRAM, 100);
    assert_eq!(instructions.len(), 100);
    for (index, instruction) in instructions.iter().enumerate() {
        assert_eq!(instruction.program_id, PROGRAM);
        assert_eq!(instruction.data, (index as u64).to_le_bytes().to_vec());
        assert_eq!(decode_counter(&instruction.data), index as u64);
    }
    assert_eq!(instructions[5].data, vec![5, 0, 0, 0, 0, 0, 0, 0]);
    assert_eq!(instructions[99].data, vec![99, 0, 0, 0, 0, 0, 0, 0]);
}

#[test]
fn builds_an_empty_batch() {
    assert!(counter_instructions(PROGRAM, 0).is_empty());
    let submitter = BatchSubmitter::new(PAYER, Vec::new(), BLOCKHASH);
    assert!(submitter.is_complete());
    assert!(submitter.next().is_none());
    assert!(submitter.into_outcomes().is_empty());
}

#[test]
fn always_succeeding_transport_gives_a_record_for_every_instruction() {
    let mut submitter = BatchSubmitter::new(PAYER, counter_instructions(PROGRAM, 100), BLOCKHASH);
    let mut sent_payloads = Vec::new();
    loop {
        let index = match submitter.next() {
            Some(request) => {
                assert_eq!(request.payer, PAYER);
                assert_eq!(request.blockhash, BLOCKHASH);
                assert_eq!(request.instruction.program_id, PROGRAM);
                sent_payloads.push(request.instruction.data.clone());
                request.index
            }
            None => break,
        };
        submitter = submitter.record(Ok(signature(index)));
    }
    assert!(submitter.is_complete());
    let outcomes = submitter.into_outcomes();
    assert_eq!(outcomes.len(), 100);
    let mut indices = Vec::new();
    for (position, outcome) in outcomes.iter().enumerate() {
        let expected = SubmissionRecord { index: position as u32, signature: signature(position as u32) };
        assert_eq!(outcome, &Ok(expected));
        indices.push(outcome.as_ref().unwrap().index);
    }
    assert_eq!(indices, (0..100).collect::<Vec<u32>>());
    assert_eq!(sent_payloads.len(), 100);
    for (position, payload) in sent_payloads.iter().enumerate() {
        assert_eq!(payload, &(position as u64).to_le_bytes().to_vec());
    }
}

#[test]
fn a_failed_send_does_not_hold_back_the_next() {
    let mut submitter = BatchSubmitter::new(PAYER, counter_instructions(PROGRAM, 4), BLOCKHASH);
    submitter = submitter.record(Ok(signature(0)));
    submitter = submitter.record(Err("node is behind".to_string()));
    {
        let request = submitter.next().unwrap();
        assert_eq!(request.index, 2);
        assert_eq!(request.instruction.data, vec![2, 0, 0, 0, 0, 0, 0, 0]);
        assert_eq!(request.blockhash, BLOCKHASH);
    }
    submitter = submitter.record(Err("blockhash not found".to_string()));
    submitter = submitter.record(Ok(signature(3)));
    assert!(submitter.is_complete());
    assert_eq!(
        submitter.into_outcomes(),
        vec![
            Ok(SubmissionRecord { index: 0, signature: signature(0) }),
            Err(SubmitError { index: 1, reason: "node is behind".to_string() }),
            Err(SubmitError { index: 2, reason: "blockhash not found".to_string() }),
            Ok(SubmissionRecord { index: 3, signature: signature(3) }),
        ]
    );
}

#[test]
fn every_send_uses_the_one_blockhash() {
    let mut submitter = BatchSubmitter::new(PAYER, counter_instructions(PROGRAM, 10), BLOCKHASH);
    let mut sends = 0u32;
    while let Some(request) = submitter.next() {
        assert_eq!(request.blockhash, BLOCKHASH);
        assert_eq!(request.index, sends);
        sends += 1;
        let sent = if sends % 2 == 0 { Ok(signature(sends)) } else { Err(String::new()) };
        submitter = submitter.record(sent);
    }
    assert_eq!(sends, 10);
}

#[test]
fn a_result_reported_after_the_last_is_dropped() {
    let instructions = vec![Instruction { program_id: PROGRAM, data: vec![1, 2, 3] }];
    let submitter = BatchSubmitter::new(PAYER, instructions, BLOCKHASH)
        .record(Ok(signature(0)))
        .record(Ok(signature(1)))
        .record(Err("late".to_string()));
    assert!(submitter.is_complete());
    assert_eq!(
        submitter.into_outcomes(),
        vec![Ok(SubmissionRecord { index: 0, signature: signature(0) })]
    );
}

#[test]
fn outcomes_so_far_are_handed_out_in_order() {
    let submitter = BatchSubmitter::new(PAYER, counter_instructions(PROGRAM, 5), BLOCKHASH)
        .record(Err("first".to_string()))
        .record(Ok(signature(1)));
    assert!(!submitter.is_complete());
    assert_eq!(
        submitter.into_outcomes(),
        vec![
            Err(SubmitError { index: 0, reason: "first".to_string() }),
            Ok(SubmissionRecord { index: 1, signature: signature(1) }),
        ]
    );
}

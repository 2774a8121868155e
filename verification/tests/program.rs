use counter_program::process_instruction;
use solana_program::pubkey::Pubkey;

#[test]
fn processes_a_counter_instruction() {
    let program_id = Pubkey::new_from_array([7; 32]);
    assert_eq!(process_instruction(&program_id, &[], &[5, 0, 0, 0, 0, 0, 0, 0]), Ok(5));
}

#[test]
fn processes_an_empty_instruction_as_zero() {
    let program_id = Pubkey::default();
    assert_eq!(process_instruction(&program_id, &[], &[]), Ok(0));
}

#[test]
fn processes_an_instruction_with_extra_bytes() {
    let program_id = Pubkey::default();
    assert_eq!(process_instruction(&program_id, &[], &[5, 0, 0, 0, 0, 0, 0, 0, 99]), Ok(5));
}

#[test]
fn never_fails_an_instruction() {
    let program_id = Pubkey::default();
    let data = [0xffu8; 16];
    for len in 0..=data.len() {
        assert!(process_instruction(&program_id, &[], &data[..len]).is_ok());
    }
}

use svm_core::account::NOT_BORROWED;
use svm_core::cpi::{
    invoke, invoke_signed, invoke_signed_with_bounds, invoke_with_bounds, Cpi,
    MAX_STATIC_CPI_ACCOUNTS,
};
use svm_core::error::ProgramError;
use svm_core::hint::{cold_path, likely, unlikely};
use svm_core::instruction::{AccountRef, InstructionAccount, InstructionView, Signer};

fn sample_instruction(addresses: &[[u8; 32]]) -> InstructionView {
    InstructionView {
        program_id: [9u8; 32],
        accounts: addresses.iter().map(InstructionAccount::writable).collect(),
        data: vec![1, 2, 3],
    }
}

fn refs(addresses: &[[u8; 32]]) -> Vec<AccountRef> {
    addresses
        .iter()
        .map(|a| AccountRef { address: *a, borrow_state: NOT_BORROWED })
        .collect()
}

#[test]
fn invoke_records_call() {
    let mut cpi = Cpi::new();
    assert_eq!(cpi.call_count(), 0);
    let addresses = [[1u8; 32], [2u8; 32]];
    invoke(&mut cpi, sample_instruction(&addresses), &refs(&addresses)).unwrap();
    assert_eq!(cpi.call_count(), 1);
    let call = cpi.get_call(0);
    assert_eq!(call.program_id, [9u8; 32]);
    assert_eq!(call.data, vec![1, 2, 3]);
    assert_eq!(call.accounts.len(), 2);
}

#[test]
fn bound_below_account_count_is_invalid_argument() {
    let mut cpi = Cpi::new();
    let addresses = [[1u8; 32], [2u8; 32], [3u8; 32]];
    let r = invoke_with_bounds(&mut cpi, 2, sample_instruction(&addresses), &refs(&addresses));
    assert_eq!(r, Err(ProgramError::InvalidArgument));
    assert_eq!(cpi.call_count(), 0);
}

#[test]
fn too_few_handles_is_not_enough_account_keys() {
    let mut cpi = Cpi::new();
    let addresses = [[1u8; 32], [2u8; 32]];
    let r = invoke_signed_with_bounds(
        &mut cpi,
        MAX_STATIC_CPI_ACCOUNTS,
        sample_instruction(&addresses),
        &refs(&addresses[..1]),
        &Vec::new(),
    );
    assert_eq!(r, Err(ProgramError::NotEnoughAccountKeys));
    assert_eq!(cpi.call_count(), 0);
}

#[test]
fn handle_address_mismatch_is_invalid_argument() {
    let mut cpi = Cpi::new();
    let addresses = [[1u8; 32], [2u8; 32]];
    let mut handles = refs(&addresses);
    handles[1].address = [8u8; 32];
    let r = invoke_signed(&mut cpi, sample_instruction(&addresses), &handles, &Vec::new());
    assert_eq!(r, Err(ProgramError::InvalidArgument));
    assert_eq!(cpi.call_count(), 0);
}

#[test]
fn borrowed_writable_account_is_borrow_failure() {
    let mut cpi = Cpi::new();
    let addresses = [[1u8; 32], [2u8; 32]];
    let mut handles = refs(&addresses);
    handles[1].borrow_state = 0;
    let r = invoke_signed(&mut cpi, sample_instruction(&addresses), &handles, &Vec::new());
    assert_eq!(r, Err(ProgramError::AccountBorrowFailed));
    assert_eq!(cpi.call_count(), 0);
}

#[test]
fn borrowed_readonly_account_is_accepted() {
    let mut cpi = Cpi::new();
    let address = [1u8; 32];
    let instruction = InstructionView {
        program_id: [9u8; 32],
        accounts: vec![InstructionAccount::readonly(&address)],
        data: vec![],
    };
    let handles = vec![AccountRef { address, borrow_state: 200 }];
    invoke_signed(&mut cpi, instruction, &handles, &Vec::new()).unwrap();
    assert_eq!(cpi.call_count(), 1);
}

#[test]
fn signer_seed_sets_are_recorded() {
    let mut cpi = Cpi::new();
    let addresses = [[1u8; 32]];
    let signers = vec![Signer { seeds: vec![b"seed".to_vec(), vec![255]] }];
    invoke_signed(&mut cpi, sample_instruction(&addresses), &refs(&addresses), &signers).unwrap();
    assert_eq!(cpi.call_count(), 1);
    // The seed sets asserted with the call are recorded unchanged.
    assert_eq!(cpi.signer_set_count(), 1);
    let recorded = cpi.get_call_signers(0);
    assert_eq!(recorded.len(), 1);
    assert_eq!(recorded[0].seeds, vec![b"seed".to_vec(), vec![255]]);
}

#[test]
fn unsigned_invoke_records_no_seed_sets() {
    let mut cpi = Cpi::new();
    let addresses = [[1u8; 32]];
    invoke(&mut cpi, sample_instruction(&addresses), &refs(&addresses)).unwrap();
    assert_eq!(cpi.signer_set_count(), 1);
    assert!(cpi.get_call_signers(0).is_empty());
}

#[test]
fn rejected_invocation_records_no_seed_sets() {
    let mut cpi = Cpi::new();
    let addresses = [[1u8; 32], [2u8; 32]];
    let signers = vec![Signer { seeds: vec![vec![1, 2, 3]] }];
    let r = invoke_signed(
        &mut cpi,
        sample_instruction(&addresses),
        &refs(&addresses[..1]),
        &signers,
    );
    assert!(r.is_err());
    assert_eq!(cpi.signer_set_count(), 0);
}

#[test]
fn instruction_account_constructors() {
    let address = [4u8; 32];
    let a = InstructionAccount::readonly(&address);
    assert!(!a.is_writable && !a.is_signer);
    let a = InstructionAccount::writable(&address);
    assert!(a.is_writable && !a.is_signer);
    let a = InstructionAccount::readonly_signer(&address);
    assert!(!a.is_writable && a.is_signer);
    let a = InstructionAccount::writable_signer(&address);
    assert!(a.is_writable && a.is_signer);
    let a = InstructionAccount::new(&address, true, false);
    assert_eq!(a.address, address);
    assert!(a.is_writable && !a.is_signer);
}

#[test]
fn hint_functions_return_their_argument() {
    cold_path();
    assert!(likely(true));
    assert!(!likely(false));
    assert!(unlikely(true));
    assert!(!unlikely(false));
}

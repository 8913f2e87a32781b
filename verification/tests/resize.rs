use svm_core::account::{Account, Resize, MAX_PERMITTED_DATA_INCREASE, NOT_BORROWED};
use svm_core::error::ProgramError;

fn fresh_account(data: Vec<u8>) -> Account {
    Account::new([1u8; 32], [2u8; 32], 0, data, false, true, false, 0)
}

#[test]
fn test_resize() {
    // An account whose data is 100 bytes long, as parsed from the input.
    let mut account = fresh_account(vec![0u8; 100]);

    assert_eq!(account.data_len(), 100);
    assert_eq!(account.original_data_len(), 100);
    assert_eq!(account.borrow_state(), 255);

    // The reserved region stands for the data pointer: it never changes.
    let capacity_before = account.data_capacity();

    // increase the size.
    account.resize(200).unwrap();

    let capacity_after = account.data_capacity();
    // The region must be identical regardless of the resize.
    assert_eq!(capacity_before, capacity_after);

    assert_eq!(account.data_len(), 200);

    // decrease the size.
    account.resize(0).unwrap();
    assert_eq!(account.data_len(), 0);

    // Invalid reallocation.
    let invalid_realloc = account.resize(10_000_000_001);
    assert!(invalid_realloc.is_err());

    // Reset to its original size.
    account.resize(100).unwrap();
    assert_eq!(account.data_len(), 100);

    // Consecutive resizes.
    account.resize(200).unwrap();
    account.resize(50).unwrap();
    account.resize(500).unwrap();
    assert_eq!(account.data_len(), 500);

    account.try_borrow().unwrap();
    assert_eq!(account.data_len(), 500);
    account.release_borrow();
}

#[test]
fn resize_to_current_length_is_noop() {
    let mut account = fresh_account(vec![7u8; 10]);
    account.try_borrow_mut().unwrap();
    account.set_data_byte(3, 42);
    account.release_borrow_mut();

    let capacity = account.data_capacity();
    account.resize(10).unwrap();
    assert_eq!(account.data_len(), 10);
    assert_eq!(account.data_capacity(), capacity);
    account.try_borrow().unwrap();
    assert_eq!(account.data_byte(3), 42);
    assert_eq!(account.data_byte(0), 7);
    account.release_borrow();
}

#[test]
fn resize_grow_zero_fills_exactly_new_bytes() {
    let mut account = fresh_account(vec![9u8; 4]);
    account.resize(8).unwrap();
    account.try_borrow().unwrap();
    // Prior bytes untouched.
    for i in 0..4 {
        assert_eq!(account.data_byte(i), 9);
    }
    // Newly exposed bytes zero-filled.
    for i in 4..8 {
        assert_eq!(account.data_byte(i), 0);
    }
    account.release_borrow();
}

#[test]
fn resize_too_large_fails_and_leaves_length() {
    let mut account = fresh_account(vec![1u8; 16]);
    let r = account.resize(16 + MAX_PERMITTED_DATA_INCREASE + 1);
    assert_eq!(r, Err(ProgramError::InvalidRealloc));
    assert_eq!(account.data_len(), 16);
    // Growing exactly to the limit is permitted.
    account.resize(16 + MAX_PERMITTED_DATA_INCREASE).unwrap();
    assert_eq!(account.data_len(), 16 + MAX_PERMITTED_DATA_INCREASE);
}

#[test]
fn resize_limit_counts_from_original_length() {
    let mut account = fresh_account(vec![0u8; 100]);
    // Shrinking does not reset the growth budget: the delta is measured
    // from the original length, not the current one.
    account.resize(0).unwrap();
    let r = account.resize(100 + MAX_PERMITTED_DATA_INCREASE + 1);
    assert_eq!(r, Err(ProgramError::InvalidRealloc));
    account.resize(100 + MAX_PERMITTED_DATA_INCREASE).unwrap();
}

#[test]
fn resize_path_independent_final_length() {
    // resize(resize(n, a), b) reaches the same observable state as
    // resize(n, b) when the intermediate length exposes no stale bytes.
    let mut via = fresh_account(vec![0u8; 10]);
    via.resize(5).unwrap();
    via.resize(8).unwrap();

    let mut direct = fresh_account(vec![0u8; 10]);
    direct.resize(8).unwrap();

    assert_eq!(via.data_len(), direct.data_len());
    assert_eq!(via.data_capacity(), direct.data_capacity());
    via.try_borrow().unwrap();
    direct.try_borrow().unwrap();
    for i in 0..8 {
        assert_eq!(via.data_byte(i), direct.data_byte(i));
    }
    via.release_borrow();
    direct.release_borrow();
}

#[test]
fn region_stable_over_resize_sequence() {
    let mut account = fresh_account(vec![0u8; 64]);
    let capacity = account.data_capacity();
    for len in [0usize, 64, 200, 3, 64 + MAX_PERMITTED_DATA_INCREASE, 1] {
        let _ = account.resize(len);
        assert_eq!(account.data_capacity(), capacity);
    }
    // A failing resize leaves the region too.
    let _ = account.resize(usize::MAX);
    assert_eq!(account.data_capacity(), capacity);
}

#[test]
fn resize_fails_while_borrowed() {
    let mut account = fresh_account(vec![0u8; 10]);
    account.try_borrow().unwrap();
    assert_eq!(account.resize(20), Err(ProgramError::AccountBorrowFailed));
    assert_eq!(account.data_len(), 10);
    account.release_borrow();
    account.resize(20).unwrap();
    assert_eq!(account.data_len(), 20);
}

#[test]
fn borrow_rules() {
    let mut account = fresh_account(vec![0u8; 4]);
    assert!(!account.is_borrowed());
    assert!(account.check_borrow().is_ok());
    assert!(account.check_borrow_mut().is_ok());

    // Shared borrows stack; a mutable borrow is then refused.
    account.try_borrow().unwrap();
    account.try_borrow().unwrap();
    assert!(account.is_borrowed());
    assert!(!account.is_borrowed_mut());
    assert_eq!(account.try_borrow_mut(), Err(ProgramError::AccountBorrowFailed));
    account.release_borrow();
    account.release_borrow();

    // The mutable borrow excludes everything else.
    account.try_borrow_mut().unwrap();
    assert!(account.is_borrowed_mut());
    assert_eq!(account.try_borrow(), Err(ProgramError::AccountBorrowFailed));
    assert_eq!(account.check_borrow(), Err(ProgramError::AccountBorrowFailed));
    account.release_borrow_mut();
    assert_eq!(account.borrow_state(), NOT_BORROWED);
}

#[test]
fn account_accessors() {
    let account = Account::new([4u8; 32], [5u8; 32], 77, vec![1, 2, 3], true, false, true, 9);
    assert_eq!(*account.address(), [4u8; 32]);
    assert_eq!(*account.owner(), [5u8; 32]);
    assert_eq!(account.lamports(), 77);
    assert!(account.is_signer());
    assert!(!account.is_writable());
    assert!(account.executable());
    assert_eq!(account.data_len(), 3);
    assert!(!account.is_data_empty());
    assert!(account.owned_by(&[5u8; 32]));
    assert!(!account.owned_by(&[6u8; 32]));
}

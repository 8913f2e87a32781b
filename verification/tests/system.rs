use svm_core::account::{Account, Resize};
use svm_core::cpi::Cpi;
use svm_core::error::ProgramError;
use svm_core::instruction::Signer;
use svm_core::system::{
    create_account_with_minimum_balance, create_account_with_minimum_balance_signed, Assign,
    CreateAccount, Transfer, SYSTEM_ERROR_ACCOUNT_IN_USE, SYSTEM_ERROR_NEGATIVE_LAMPORTS,
};

fn system_account(byte: u8, lamports: u64, data: Vec<u8>) -> Account {
    Account::new([byte; 32], [0u8; 32], lamports, data, false, true, false, 0)
}

#[test]
fn funded_creation_of_fresh_account() {
    // An account with zero lamports, a space requirement of 82 bytes, a
    // payer with sufficient lamports, and a rent-exempt minimum of
    // 1,000,000 lamports: the creation path must issue exactly one
    // create-account call funding exactly the minimum.
    let mut account = system_account(1, 0, vec![]);
    let mut payer = system_account(2, 5_000_000, vec![]);
    let owner = [7u8; 32];
    let mut cpi = Cpi::new();

    create_account_with_minimum_balance(&mut account, 82, &owner, &mut payer, 1_000_000, &mut cpi)
        .unwrap();

    assert_eq!(cpi.call_count(), 1);
    let call = cpi.get_call(0);
    assert_eq!(call.program_id, [0u8; 32]);
    let mut expected = vec![0, 0, 0, 0];
    expected.extend_from_slice(&1_000_000u64.to_le_bytes());
    expected.extend_from_slice(&82u64.to_le_bytes());
    expected.extend_from_slice(&owner);
    assert_eq!(call.data, expected);
    assert_eq!(call.accounts.len(), 2);
    assert_eq!(call.accounts[0].address, [2u8; 32]);
    assert!(call.accounts[0].is_writable && call.accounts[0].is_signer);
    assert_eq!(call.accounts[1].address, [1u8; 32]);

    assert_eq!(account.lamports(), 1_000_000);
    assert_eq!(*account.owner(), owner);
    assert_eq!(account.data_len(), 82);
    assert_eq!(payer.lamports(), 4_000_000);
}

#[test]
fn funded_creation_of_existing_account() {
    // An account already holding 1,200,000 lamports against a required
    // minimum of 1,000,000: no transfer occurs, the ownership reassignment
    // is still issued, and the resize sets the length without touching the
    // reserved region.
    let owner = [7u8; 32];
    let mut account = Account::new([1u8; 32], owner, 1_200_000, vec![], false, true, false, 0);
    let mut payer = system_account(2, 5_000_000, vec![]);
    let mut cpi = Cpi::new();
    let capacity = account.data_capacity();

    create_account_with_minimum_balance(&mut account, 82, &owner, &mut payer, 1_000_000, &mut cpi)
        .unwrap();

    // Only the assignment call was issued.
    assert_eq!(cpi.call_count(), 1);
    let call = cpi.get_call(0);
    let mut expected = vec![1, 0, 0, 0];
    expected.extend_from_slice(&owner);
    assert_eq!(call.data, expected);

    assert_eq!(account.lamports(), 1_200_000);
    assert_eq!(payer.lamports(), 5_000_000);
    assert_eq!(*account.owner(), owner);
    assert_eq!(account.data_len(), 82);
    assert_eq!(account.data_capacity(), capacity);
}

#[test]
fn funded_creation_tops_up_shortfall() {
    let owner = [7u8; 32];
    let mut account = Account::new([1u8; 32], [3u8; 32], 400_000, vec![], false, true, false, 0);
    let mut payer = system_account(2, 5_000_000, vec![]);
    let mut cpi = Cpi::new();

    create_account_with_minimum_balance(&mut account, 10, &owner, &mut payer, 1_000_000, &mut cpi)
        .unwrap();

    // A transfer of the shortfall, then the assignment.
    assert_eq!(cpi.call_count(), 2);
    let transfer_call = cpi.get_call(0);
    let mut expected = vec![2, 0, 0, 0];
    expected.extend_from_slice(&600_000u64.to_le_bytes());
    assert_eq!(transfer_call.data, expected);
    let assign_call = cpi.get_call(1);
    assert_eq!(assign_call.data[..4], [1, 0, 0, 0]);

    assert_eq!(account.lamports(), 1_000_000);
    assert_eq!(payer.lamports(), 4_400_000);
    assert_eq!(*account.owner(), owner);
    assert_eq!(account.data_len(), 10);
}

#[test]
fn create_account_rejects_existing_lamports() {
    let mut to = system_account(1, 5, vec![]);
    let mut from = system_account(2, 100, vec![]);
    let mut cpi = Cpi::new();
    let r = (CreateAccount { lamports: 10, space: 0, owner: [7u8; 32] }).invoke(
        &mut from,
        &mut to,
        &mut cpi,
    );
    assert_eq!(r, Err(ProgramError::Custom(SYSTEM_ERROR_ACCOUNT_IN_USE)));
    assert_eq!(cpi.call_count(), 0);
    assert_eq!(to.lamports(), 5);
    assert_eq!(from.lamports(), 100);
}

#[test]
fn transfer_rejects_insufficient_funds() {
    let mut from = system_account(1, 5, vec![]);
    let mut to = system_account(2, 0, vec![]);
    let mut cpi = Cpi::new();
    let r = (Transfer { lamports: 10 }).invoke(&mut from, &mut to, &mut cpi);
    assert_eq!(r, Err(ProgramError::Custom(SYSTEM_ERROR_NEGATIVE_LAMPORTS)));
    assert_eq!(cpi.call_count(), 0);
    assert_eq!(from.lamports(), 5);
}

#[test]
fn transfer_rejects_balance_overflow() {
    let mut from = system_account(1, 10, vec![]);
    let mut to = system_account(2, u64::MAX, vec![]);
    let mut cpi = Cpi::new();
    let r = (Transfer { lamports: 1 }).invoke(&mut from, &mut to, &mut cpi);
    assert_eq!(r, Err(ProgramError::ArithmeticOverflow));
    assert_eq!(cpi.call_count(), 0);
}

#[test]
fn transfer_moves_lamports() {
    let mut from = system_account(1, 100, vec![]);
    let mut to = system_account(2, 7, vec![]);
    let mut cpi = Cpi::new();
    (Transfer { lamports: 40 }).invoke(&mut from, &mut to, &mut cpi).unwrap();
    assert_eq!(from.lamports(), 60);
    assert_eq!(to.lamports(), 47);
    assert_eq!(cpi.call_count(), 1);
    // Transfer account list: funding account signs, destination does not.
    let call = cpi.get_call(0);
    assert!(call.accounts[0].is_signer);
    assert!(!call.accounts[1].is_signer);
}

#[test]
fn assign_sets_owner() {
    let mut account = system_account(1, 0, vec![]);
    let mut cpi = Cpi::new();
    (Assign { owner: [9u8; 32] }).invoke(&mut account, &mut cpi).unwrap();
    assert_eq!(*account.owner(), [9u8; 32]);
    assert_eq!(cpi.call_count(), 1);
}

#[test]
fn system_calls_reject_borrowed_accounts() {
    let mut from = system_account(1, 100, vec![1]);
    let mut to = system_account(2, 0, vec![]);
    from.try_borrow_mut().unwrap();
    let mut cpi = Cpi::new();
    let r = (Transfer { lamports: 1 }).invoke(&mut from, &mut to, &mut cpi);
    assert_eq!(r, Err(ProgramError::AccountBorrowFailed));
    assert_eq!(cpi.call_count(), 0);
    from.release_borrow_mut();
}

#[test]
fn funded_creation_resize_failure_surfaces() {
    // An existing account asked to grow past the permitted increase: the
    // transfer and assignment go through, then the resize fails.
    let owner = [7u8; 32];
    let mut account = Account::new([1u8; 32], [3u8; 32], 2_000_000, vec![], false, true, false, 0);
    let mut payer = system_account(2, 5_000_000, vec![]);
    let mut cpi = Cpi::new();

    let r = create_account_with_minimum_balance(
        &mut account,
        20_000,
        &owner,
        &mut payer,
        1_000_000,
        &mut cpi,
    );
    assert_eq!(r, Err(ProgramError::InvalidRealloc));
    assert_eq!(cpi.call_count(), 1);
    assert_eq!(*account.owner(), owner);
    assert_eq!(account.data_len(), 0);
}

#[test]
fn funded_creation_forwards_seed_sets_to_every_call() {
    let owner = [7u8; 32];
    let mut account = Account::new([1u8; 32], [3u8; 32], 400_000, vec![], false, true, false, 0);
    let mut payer = system_account(2, 5_000_000, vec![]);
    let mut cpi = Cpi::new();
    let signers = vec![Signer { seeds: vec![b"vault".to_vec(), vec![250]] }];

    create_account_with_minimum_balance_signed(
        &mut account,
        10,
        &owner,
        &mut payer,
        1_000_000,
        &signers,
        &mut cpi,
    )
    .unwrap();

    // Both the transfer and the assignment carry the same seed sets.
    assert_eq!(cpi.call_count(), 2);
    assert_eq!(cpi.signer_set_count(), 2);
    for i in 0..2 {
        let recorded = cpi.get_call_signers(i);
        assert_eq!(recorded.len(), 1);
        assert_eq!(recorded[0].seeds, vec![b"vault".to_vec(), vec![250]]);
    }
}

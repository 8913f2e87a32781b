use svm_core::account::NOT_BORROWED;
use svm_core::address::Address;
use svm_core::cpi::Cpi;
use svm_core::error::ProgramError;
use svm_core::extensions::{AccountState, ExtensionDiscriminator};
use svm_core::instruction::{AccountRef, Signer};
use svm_core::{
    default_account_state, group_member_pointer, memo_transfer, metadata_pointer,
    permanent_delegate, reallocate, scaled_ui_amount, transfer_fee, transfer_hook,
};

const TOKEN_PROGRAM: Address = [9u8; 32];

fn account_ref(byte: u8) -> AccountRef {
    AccountRef { address: [byte; 32], borrow_state: NOT_BORROWED }
}

fn signer_refs(n: usize) -> Vec<AccountRef> {
    (0..n).map(|i| account_ref(100 + i as u8)).collect()
}

#[test]
fn default_account_state_initialize_bytes() {
    let mut cpi = Cpi::new();
    let ix = default_account_state::Initialize {
        mint: account_ref(1),
        state: AccountState::Frozen,
        token_program: TOKEN_PROGRAM,
    };
    ix.invoke(&mut cpi).unwrap();
    assert_eq!(cpi.call_count(), 1);
    let call = cpi.get_call(0);
    assert_eq!(call.program_id, TOKEN_PROGRAM);
    assert_eq!(call.data, vec![28, 0, 2]);
    assert_eq!(call.accounts.len(), 1);
    assert_eq!(call.accounts[0].address, [1u8; 32]);
    assert!(call.accounts[0].is_writable);
    assert!(!call.accounts[0].is_signer);
}

#[test]
fn default_account_state_update_single_authority() {
    let mut cpi = Cpi::new();
    let ix = default_account_state::Update::new(
        &TOKEN_PROGRAM,
        account_ref(1),
        account_ref(2),
        AccountState::Initialized,
    );
    ix.invoke(&mut cpi).unwrap();
    let call = cpi.get_call(0);
    assert_eq!(call.data, vec![28, 1, 1]);
    assert_eq!(call.accounts.len(), 2);
    assert_eq!(call.accounts[0].address, [1u8; 32]);
    assert!(call.accounts[0].is_writable);
    // With no multisig signers, the authority itself signs.
    assert_eq!(call.accounts[1].address, [2u8; 32]);
    assert!(!call.accounts[1].is_writable);
    assert!(call.accounts[1].is_signer);
}

#[test]
fn default_account_state_update_multisig_accounts() {
    let mut cpi = Cpi::new();
    let ix = default_account_state::Update::with_multisig_signers(
        &TOKEN_PROGRAM,
        account_ref(1),
        account_ref(2),
        AccountState::Frozen,
        signer_refs(3),
    );
    ix.invoke(&mut cpi).unwrap();
    let call = cpi.get_call(0);
    assert_eq!(call.accounts.len(), 5);
    // With multisig signers, the authority is not a direct signer.
    assert!(!call.accounts[1].is_signer);
    for i in 0..3 {
        let meta = &call.accounts[2 + i];
        assert_eq!(meta.address, [100 + i as u8; 32]);
        assert!(!meta.is_writable);
        assert!(meta.is_signer);
    }
}

#[test]
fn multisig_cap_exceeded_fails_before_any_write() {
    // A dynamic count one above the static maximum of eleven must fail
    // with an invalid argument and leave the invocation layer untouched.
    let mut cpi = Cpi::new();
    let ix = default_account_state::Update::with_multisig_signers(
        &TOKEN_PROGRAM,
        account_ref(1),
        account_ref(2),
        AccountState::Frozen,
        signer_refs(12),
    );
    assert_eq!(ix.invoke(&mut cpi), Err(ProgramError::InvalidArgument));
    assert_eq!(cpi.call_count(), 0);
}

#[test]
fn multisig_cap_met_succeeds() {
    let mut cpi = Cpi::new();
    let ix = default_account_state::Update::with_multisig_signers(
        &TOKEN_PROGRAM,
        account_ref(1),
        account_ref(2),
        AccountState::Frozen,
        signer_refs(11),
    );
    ix.invoke(&mut cpi).unwrap();
    assert_eq!(cpi.get_call(0).accounts.len(), 13);
}

#[test]
fn memo_transfer_enable_bytes() {
    let mut cpi = Cpi::new();
    let ix = memo_transfer::Enable::new(&TOKEN_PROGRAM, account_ref(4), account_ref(5));
    ix.invoke(&mut cpi).unwrap();
    let call = cpi.get_call(0);
    assert_eq!(call.data, vec![30, 0]);
    assert_eq!(call.accounts.len(), 2);
}

#[test]
fn metadata_pointer_update_bytes() {
    let mut cpi = Cpi::new();
    let metadata = [7u8; 32];
    let ix = metadata_pointer::Update::new(
        &TOKEN_PROGRAM,
        account_ref(1),
        account_ref(2),
        Some(metadata),
    );
    ix.invoke(&mut cpi).unwrap();
    let call = cpi.get_call(0);
    let mut expected = vec![39, 1];
    expected.extend_from_slice(&metadata);
    assert_eq!(call.data, expected);
}

#[test]
fn metadata_pointer_update_none_writes_zeros() {
    let mut cpi = Cpi::new();
    let ix = metadata_pointer::Update::new(&TOKEN_PROGRAM, account_ref(1), account_ref(2), None);
    ix.invoke(&mut cpi).unwrap();
    let call = cpi.get_call(0);
    let mut expected = vec![39, 1];
    expected.extend_from_slice(&[0u8; 32]);
    assert_eq!(call.data, expected);
}

#[test]
fn group_member_pointer_initialize_bytes() {
    let mut cpi = Cpi::new();
    let authority = [11u8; 32];
    let member = [12u8; 32];
    let ix = group_member_pointer::Initialize {
        mint: account_ref(1),
        authority: Some(authority),
        member_address: Some(member),
        token_program: TOKEN_PROGRAM,
    };
    ix.invoke(&mut cpi).unwrap();
    let call = cpi.get_call(0);
    let mut expected = vec![41, 0];
    expected.extend_from_slice(&authority);
    expected.extend_from_slice(&member);
    assert_eq!(call.data, expected);
    assert_eq!(call.data.len(), 66);
}

#[test]
fn group_member_pointer_update_bytes() {
    let mut cpi = Cpi::new();
    let ix = group_member_pointer::Update::new(
        &TOKEN_PROGRAM,
        account_ref(1),
        account_ref(2),
        None,
    );
    ix.invoke(&mut cpi).unwrap();
    let call = cpi.get_call(0);
    assert_eq!(call.data.len(), 34);
    assert_eq!(&call.data[..2], &[41, 1]);
    assert!(call.data[2..].iter().all(|b| *b == 0));
}

#[test]
fn transfer_hook_initialize_bytes() {
    let mut cpi = Cpi::new();
    let hook = [13u8; 32];
    let ix = transfer_hook::InitializeTransferHook {
        mint: account_ref(1),
        authority: None,
        program_id: Some(hook),
        token_program: TOKEN_PROGRAM,
    };
    ix.invoke(&mut cpi).unwrap();
    let call = cpi.get_call(0);
    let mut expected = vec![36, 0];
    expected.extend_from_slice(&[0u8; 32]);
    expected.extend_from_slice(&hook);
    assert_eq!(call.data, expected);
}

#[test]
fn transfer_hook_update_bytes() {
    let mut cpi = Cpi::new();
    let hook = [14u8; 32];
    let ix = transfer_hook::UpdateTransferHook::new(
        &TOKEN_PROGRAM,
        account_ref(1),
        account_ref(2),
        Some(hook),
    );
    ix.invoke(&mut cpi).unwrap();
    let call = cpi.get_call(0);
    let mut expected = vec![36, 1];
    expected.extend_from_slice(&hook);
    assert_eq!(call.data, expected);
}

#[test]
fn permanent_delegate_bytes() {
    let mut cpi = Cpi::new();
    let delegate = [15u8; 32];
    let ix = permanent_delegate::InitializePermanentDelegate {
        mint: account_ref(1),
        delegate,
        token_program: TOKEN_PROGRAM,
    };
    ix.invoke(&mut cpi).unwrap();
    let call = cpi.get_call(0);
    let mut expected = vec![35];
    expected.extend_from_slice(&delegate);
    assert_eq!(call.data, expected);
    assert_eq!(call.data.len(), 33);
}

#[test]
fn scaled_ui_amount_initialize_bytes() {
    let mut cpi = Cpi::new();
    let multiplier = 2.0f64.to_le_bytes();
    let ix = scaled_ui_amount::Initialize {
        mint_account: account_ref(1),
        authority: None,
        multiplier,
        token_program: TOKEN_PROGRAM,
    };
    ix.invoke(&mut cpi).unwrap();
    let call = cpi.get_call(0);
    let mut expected = vec![43, 0];
    expected.extend_from_slice(&[0u8; 32]);
    expected.extend_from_slice(&multiplier);
    assert_eq!(call.data, expected);
    assert_eq!(call.data.len(), 42);
}

#[test]
fn scaled_ui_amount_update_multiplier_bytes() {
    let mut cpi = Cpi::new();
    let multiplier = 0.5f64.to_le_bytes();
    let ix = scaled_ui_amount::UpdateMultiplier::new(
        &TOKEN_PROGRAM,
        account_ref(1),
        account_ref(2),
        multiplier,
        -3i64,
    );
    ix.invoke(&mut cpi).unwrap();
    let call = cpi.get_call(0);
    let mut expected = vec![43, 1];
    expected.extend_from_slice(&multiplier);
    expected.extend_from_slice(&(-3i64).to_le_bytes());
    assert_eq!(call.data, expected);
    assert_eq!(call.data.len(), 18);
}

#[test]
fn initialize_transfer_fee_config_bytes() {
    let mut cpi = Cpi::new();
    let config_authority = [21u8; 32];
    let withdraw_authority = [22u8; 32];
    let ix = transfer_fee::InitializeTransferFeeConfig {
        mint: account_ref(1),
        transfer_fee_config_authority: Some(config_authority),
        withdraw_withheld_authority: Some(withdraw_authority),
        transfer_fee_basis_points: 250,
        maximum_fee: 1_000_000,
        token_program: TOKEN_PROGRAM,
    };
    ix.invoke(&mut cpi).unwrap();
    let call = cpi.get_call(0);
    let mut expected = vec![26, 0, 1];
    expected.extend_from_slice(&config_authority);
    expected.push(1);
    expected.extend_from_slice(&withdraw_authority);
    expected.extend_from_slice(&250u16.to_le_bytes());
    expected.extend_from_slice(&1_000_000u64.to_le_bytes());
    assert_eq!(call.data, expected);
    assert_eq!(call.data.len(), 78);
}

#[test]
fn initialize_transfer_fee_config_without_authorities() {
    let mut cpi = Cpi::new();
    let ix = transfer_fee::InitializeTransferFeeConfig {
        mint: account_ref(1),
        transfer_fee_config_authority: None,
        withdraw_withheld_authority: None,
        transfer_fee_basis_points: 1,
        maximum_fee: 2,
        token_program: TOKEN_PROGRAM,
    };
    ix.invoke(&mut cpi).unwrap();
    let call = cpi.get_call(0);
    let mut expected = vec![26, 0, 0, 0];
    expected.extend_from_slice(&1u16.to_le_bytes());
    expected.extend_from_slice(&2u64.to_le_bytes());
    assert_eq!(call.data, expected);
}

#[test]
fn set_transfer_fee_bytes() {
    let mut cpi = Cpi::new();
    let ix = transfer_fee::SetTransferFee::new(
        &TOKEN_PROGRAM,
        account_ref(1),
        account_ref(2),
        75,
        500,
    );
    ix.invoke(&mut cpi).unwrap();
    let call = cpi.get_call(0);
    let mut expected = vec![26, 5];
    expected.extend_from_slice(&75u16.to_le_bytes());
    expected.extend_from_slice(&500u64.to_le_bytes());
    assert_eq!(call.data, expected);
}

#[test]
fn transfer_checked_with_fee_bytes() {
    let mut cpi = Cpi::new();
    let ix = transfer_fee::TransferCheckedWithFee::new(
        &TOKEN_PROGRAM,
        account_ref(1),
        account_ref(2),
        account_ref(3),
        account_ref(4),
        1_000,
        6,
        25,
    );
    ix.invoke(&mut cpi).unwrap();
    let call = cpi.get_call(0);
    let mut expected = vec![26, 1];
    expected.extend_from_slice(&1_000u64.to_le_bytes());
    expected.push(6);
    expected.extend_from_slice(&25u64.to_le_bytes());
    assert_eq!(call.data, expected);
    assert_eq!(call.data.len(), 19);
    assert_eq!(call.accounts.len(), 4);
    assert!(call.accounts[0].is_writable);
    assert!(!call.accounts[1].is_writable);
    assert!(call.accounts[2].is_writable);
    assert!(call.accounts[3].is_signer);
}

#[test]
fn withdraw_withheld_tokens_from_mint_bytes() {
    let mut cpi = Cpi::new();
    let ix = transfer_fee::WithdrawWithheldTokensFromMint::new(
        &TOKEN_PROGRAM,
        account_ref(1),
        account_ref(2),
        account_ref(3),
    );
    ix.invoke(&mut cpi).unwrap();
    let call = cpi.get_call(0);
    assert_eq!(call.data, vec![26, 2]);
    assert_eq!(call.accounts.len(), 3);
}

#[test]
fn withdraw_withheld_tokens_from_accounts_layout() {
    let mut cpi = Cpi::new();
    let sources: Vec<AccountRef> = (0..4).map(|i| account_ref(50 + i as u8)).collect();
    let ix = transfer_fee::WithdrawWithheldTokensFromAccounts::with_multisig(
        &TOKEN_PROGRAM,
        account_ref(1),
        account_ref(2),
        account_ref(3),
        sources,
        signer_refs(2),
    );
    ix.invoke(&mut cpi).unwrap();
    let call = cpi.get_call(0);
    assert_eq!(call.data, vec![26, 3, 4]);
    // mint, destination, authority, two signers, four sources.
    assert_eq!(call.accounts.len(), 9);
    // The mint is only read; the destination receives the withheld amounts.
    assert!(!call.accounts[0].is_writable && !call.accounts[0].is_signer);
    assert!(call.accounts[1].is_writable && !call.accounts[1].is_signer);
    assert_eq!(call.accounts[3].address, [100u8; 32]);
    assert!(call.accounts[3].is_signer);
    assert_eq!(call.accounts[5].address, [50u8; 32]);
    assert!(call.accounts[5].is_writable);
    assert!(!call.accounts[5].is_signer);
}

#[test]
fn withdraw_withheld_tokens_from_accounts_too_many_sources() {
    let mut cpi = Cpi::new();
    let sources: Vec<AccountRef> = (0..62).map(|i| account_ref(i as u8)).collect();
    let ix = transfer_fee::WithdrawWithheldTokensFromAccounts::new(
        &TOKEN_PROGRAM,
        account_ref(1),
        account_ref(2),
        account_ref(3),
        sources,
    );
    assert_eq!(ix.invoke(&mut cpi), Err(ProgramError::InvalidArgument));
    assert_eq!(cpi.call_count(), 0);
}

#[test]
fn harvest_withheld_tokens_to_mint_bytes() {
    let mut cpi = Cpi::new();
    let sources: Vec<AccountRef> = (0..2).map(|i| account_ref(60 + i as u8)).collect();
    let ix = transfer_fee::HarvestWithheldTokensToMint {
        mint: account_ref(1),
        sources,
        token_program: TOKEN_PROGRAM,
    };
    ix.invoke(&mut cpi).unwrap();
    let call = cpi.get_call(0);
    assert_eq!(call.data, vec![26, 4]);
    assert_eq!(call.accounts.len(), 3);
    assert!(call.accounts[1].is_writable);
}

#[test]
fn harvest_withheld_tokens_too_many_sources() {
    let mut cpi = Cpi::new();
    let sources: Vec<AccountRef> = (0..64).map(|i| account_ref(i as u8)).collect();
    let ix = transfer_fee::HarvestWithheldTokensToMint {
        mint: account_ref(1),
        sources,
        token_program: TOKEN_PROGRAM,
    };
    assert_eq!(ix.invoke(&mut cpi), Err(ProgramError::InvalidArgument));
    assert_eq!(cpi.call_count(), 0);
}

#[test]
fn reallocate_bytes_and_accounts() {
    let mut cpi = Cpi::new();
    let extensions = vec![
        ExtensionDiscriminator::MemoTransfer,
        ExtensionDiscriminator::TransferHook,
        ExtensionDiscriminator::DefaultAccountState,
    ];
    let ix = reallocate::Reallocate::new(
        &TOKEN_PROGRAM,
        account_ref(1),
        account_ref(2),
        account_ref(3),
        account_ref(4),
        extensions,
    );
    ix.invoke(&mut cpi).unwrap();
    let call = cpi.get_call(0);
    assert_eq!(call.data, vec![29, 30, 36, 28]);
    assert_eq!(call.accounts.len(), 4);
    // account to reallocate: writable
    assert!(call.accounts[0].is_writable && !call.accounts[0].is_signer);
    // payer: writable signer
    assert!(call.accounts[1].is_writable && call.accounts[1].is_signer);
    // system program: read-only
    assert!(!call.accounts[2].is_writable && !call.accounts[2].is_signer);
    // single owner: signer
    assert!(!call.accounts[3].is_writable && call.accounts[3].is_signer);
}

#[test]
fn reallocate_multisig_cap() {
    let mut cpi = Cpi::new();
    let ix = reallocate::Reallocate::with_signers(
        &TOKEN_PROGRAM,
        account_ref(1),
        account_ref(2),
        account_ref(3),
        account_ref(4),
        vec![ExtensionDiscriminator::MemoTransfer],
        signer_refs(12),
    );
    assert_eq!(ix.invoke(&mut cpi), Err(ProgramError::InvalidArgument));
    assert_eq!(cpi.call_count(), 0);
}

#[test]
fn builder_forwards_signer_seed_sets() {
    let mut cpi = Cpi::new();
    let ix = default_account_state::Update::new(
        &TOKEN_PROGRAM,
        account_ref(1),
        account_ref(2),
        AccountState::Frozen,
    );
    let signers = vec![Signer { seeds: vec![b"authority".to_vec(), vec![7]] }];
    ix.invoke_signed(&mut cpi, &signers).unwrap();
    assert_eq!(cpi.signer_set_count(), 1);
    let recorded = cpi.get_call_signers(0);
    assert_eq!(recorded.len(), 1);
    assert_eq!(recorded[0].seeds, vec![b"authority".to_vec(), vec![7]]);

    // The unsigned form asserts no derived-address authority.
    ix.invoke(&mut cpi).unwrap();
    assert!(cpi.get_call_signers(1).is_empty());
}

#[test]
fn builder_fails_when_writable_account_is_borrowed() {
    let mut cpi = Cpi::new();
    let mut mint = account_ref(1);
    mint.borrow_state = 0;
    let ix = memo_transfer::Enable::new(&TOKEN_PROGRAM, mint, account_ref(2));
    assert_eq!(ix.invoke(&mut cpi), Err(ProgramError::AccountBorrowFailed));
    assert_eq!(cpi.call_count(), 0);
}

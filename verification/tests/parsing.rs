use svm_core::account::{Account, Resize, MAX_PERMITTED_DATA_INCREASE};
use svm_core::entrypoint::{parse_input, InstructionContext, MaybeAccount};
use svm_core::error::ProgramError;

struct AccountSpec {
    address: [u8; 32],
    owner: [u8; 32],
    lamports: u64,
    data: Vec<u8>,
    is_signer: bool,
    is_writable: bool,
    executable: bool,
    rent_epoch: u64,
}

enum EntrySpec {
    Fresh(AccountSpec),
    Duplicate(u8),
}

fn build_input(entries: &[EntrySpec], instruction_data: &[u8], program_id: &[u8; 32]) -> Vec<u8> {
    let mut buf = Vec::new();
    buf.extend_from_slice(&(entries.len() as u64).to_le_bytes());
    for entry in entries {
        match entry {
            EntrySpec::Duplicate(index) => {
                buf.push(*index);
                buf.extend_from_slice(&[0u8; 7]);
            }
            EntrySpec::Fresh(spec) => {
                buf.push(255);
                buf.push(spec.is_signer as u8);
                buf.push(spec.is_writable as u8);
                buf.push(spec.executable as u8);
                buf.extend_from_slice(&[0u8; 4]);
                buf.extend_from_slice(&spec.address);
                buf.extend_from_slice(&spec.owner);
                buf.extend_from_slice(&spec.lamports.to_le_bytes());
                buf.extend_from_slice(&(spec.data.len() as u64).to_le_bytes());
                buf.extend_from_slice(&spec.data);
                buf.extend_from_slice(&vec![0u8; MAX_PERMITTED_DATA_INCREASE]);
                while buf.len() % 8 != 0 {
                    buf.push(0);
                }
                buf.extend_from_slice(&spec.rent_epoch.to_le_bytes());
            }
        }
    }
    buf.extend_from_slice(&(instruction_data.len() as u64).to_le_bytes());
    buf.extend_from_slice(instruction_data);
    buf.extend_from_slice(program_id);
    buf
}

fn sample_spec() -> AccountSpec {
    AccountSpec {
        address: [7u8; 32],
        owner: [3u8; 32],
        lamports: 42_000,
        data: vec![1, 2, 3, 4, 5],
        is_signer: true,
        is_writable: true,
        executable: false,
        rent_epoch: 11,
    }
}

fn assert_matches_spec(account: &Account, spec: &AccountSpec) {
    assert_eq!(*account.address(), spec.address);
    assert_eq!(*account.owner(), spec.owner);
    assert_eq!(account.lamports(), spec.lamports);
    assert_eq!(account.is_signer(), spec.is_signer);
    assert_eq!(account.is_writable(), spec.is_writable);
    assert_eq!(account.executable(), spec.executable);
    assert_eq!(account.data_len(), spec.data.len());
    assert_eq!(account.original_data_len() as usize, spec.data.len());
    assert!(!account.is_borrowed());
}

#[test]
fn eager_parses_accounts_data_and_program_id() {
    let spec = sample_spec();
    let input = build_input(
        &[EntrySpec::Fresh(spec), EntrySpec::Duplicate(0)],
        &[9, 8, 7],
        &[5u8; 32],
    );
    let parsed = parse_input(&input).unwrap();
    assert_eq!(parsed.accounts.len(), 1);
    assert_eq!(parsed.slots, vec![0, 0]);
    assert_matches_spec(&parsed.accounts[0], &sample_spec());
    let mut account = parsed.accounts.into_iter().next().unwrap();
    account.try_borrow().unwrap();
    for (i, b) in [1u8, 2, 3, 4, 5].iter().enumerate() {
        assert_eq!(account.data_byte(i), *b);
    }
    account.release_borrow();
    assert_eq!(parsed.instruction_data, vec![9, 8, 7]);
    assert_eq!(parsed.program_id, [5u8; 32]);
}

#[test]
fn eager_and_lazy_agree() {
    // Driving the lazy cursor to completion yields the program identity,
    // the instruction data, and pairwise-identical account views.
    let spec = sample_spec();
    let mut other = sample_spec();
    other.address = [8u8; 32];
    other.data = vec![6, 6];
    other.is_signer = false;
    let input = build_input(
        &[
            EntrySpec::Fresh(spec),
            EntrySpec::Duplicate(0),
            EntrySpec::Fresh(other),
        ],
        &[1, 2, 3, 4],
        &[6u8; 32],
    );

    let eager = parse_input(&input).unwrap();
    assert_eq!(eager.accounts.len(), 2);
    assert_eq!(eager.slots, vec![0, 0, 1]);

    let mut lazy = InstructionContext::new(input).unwrap();
    assert_eq!(lazy.remaining(), 3);
    let mut lazy_accounts: Vec<Account> = Vec::new();
    let mut lazy_slots: Vec<usize> = Vec::new();
    while lazy.remaining() > 0 {
        match lazy.next_account().unwrap() {
            MaybeAccount::Account(account) => {
                lazy_slots.push(lazy_accounts.len());
                lazy_accounts.push(account);
            }
            MaybeAccount::Duplicated(index) => {
                lazy_slots.push(lazy_slots[index as usize]);
            }
        }
    }
    let lazy_data = lazy.instruction_data().unwrap();
    let lazy_program_id = lazy.program_id().unwrap();

    assert_eq!(lazy_program_id, eager.program_id);
    assert_eq!(lazy_data, eager.instruction_data);
    assert_eq!(lazy_slots, eager.slots);
    assert_eq!(lazy_accounts.len(), eager.accounts.len());
    for (lazy_account, eager_account) in lazy_accounts.iter().zip(eager.accounts.iter()) {
        assert_eq!(lazy_account.address(), eager_account.address());
        assert_eq!(lazy_account.owner(), eager_account.owner());
        assert_eq!(lazy_account.lamports(), eager_account.lamports());
        assert_eq!(lazy_account.data_len(), eager_account.data_len());
        assert_eq!(lazy_account.is_signer(), eager_account.is_signer());
        assert_eq!(lazy_account.is_writable(), eager_account.is_writable());
    }
}

#[test]
fn lazy_next_account_clamps_at_count() {
    let input = build_input(&[EntrySpec::Fresh(sample_spec())], &[], &[0u8; 32]);
    let mut lazy = InstructionContext::new(input).unwrap();
    assert_eq!(lazy.remaining(), 1);
    lazy.next_account().unwrap();
    assert_eq!(lazy.remaining(), 0);
    // Beyond the remaining count the cursor fails instead of reading on.
    let r = lazy.next_account();
    assert!(matches!(r, Err(ProgramError::NotEnoughAccountKeys)));
}

#[test]
fn truncated_input_is_rejected() {
    let input = build_input(&[EntrySpec::Fresh(sample_spec())], &[1, 2], &[0u8; 32]);
    let truncated: Vec<u8> = input[..input.len() - 40].to_vec();
    assert!(matches!(
        parse_input(&truncated),
        Err(ProgramError::InvalidInstructionData)
    ));
    assert!(matches!(
        parse_input(&vec![1, 0, 0]),
        Err(ProgramError::InvalidInstructionData)
    ));
}

#[test]
fn forward_duplicate_marker_is_rejected() {
    // A duplicate marker must name an earlier position.
    let input = build_input(
        &[EntrySpec::Duplicate(0), EntrySpec::Fresh(sample_spec())],
        &[],
        &[0u8; 32],
    );
    assert!(matches!(
        parse_input(&input),
        Err(ProgramError::InvalidInstructionData)
    ));
}

#[test]
fn parsed_account_supports_resize() {
    let input = build_input(&[EntrySpec::Fresh(sample_spec())], &[], &[0u8; 32]);
    let parsed = parse_input(&input).unwrap();
    let mut account = parsed.accounts.into_iter().next().unwrap();
    let capacity = account.data_capacity();
    assert_eq!(capacity, 5 + MAX_PERMITTED_DATA_INCREASE);
    account.resize(100).unwrap();
    assert_eq!(account.data_len(), 100);
    assert_eq!(account.data_capacity(), capacity);
    assert_eq!(
        account.resize(5 + MAX_PERMITTED_DATA_INCREASE + 1),
        Err(ProgramError::InvalidRealloc)
    );
}

//! Shared pieces of the bounded-builder protocol.
//!
//! Every instruction constructor follows the same procedure: validate the
//! dynamic account count against a static maximum, lay out a fixed set of
//! leading accounts followed by the dynamic tail, encode the payload as a
//! discriminator followed by fixed-width little-endian fields, and hand the
//! result to the invocation layer. The helpers here implement the pieces the
//! constructors share, each with an exact statement of what it appends.

use vstd::prelude::*;

use crate::account::NOT_BORROWED;
use crate::address::Address;
use crate::instruction::{
    AccountRef, AccountRefModel, InstructionAccount, InstructionAccountModel,
    InstructionViewModel,
};

verus! {

/// Maximum number of signer accounts a multisignature authority may carry.
pub const MAX_MULTISIG_SIGNERS: usize = 11;

/// The account-list entry for an account reference with the given
/// privileges.
pub open spec fn spec_meta(r: AccountRefModel, is_writable: bool, is_signer: bool)
    -> InstructionAccountModel {
    InstructionAccountModel { address: r.address, is_writable, is_signer }
}

/// The account-list entries for a read-only signer tail: one entry per
/// multisignature signer.
pub open spec fn spec_readonly_signer_metas(signers: Seq<AccountRefModel>) -> Seq<
    InstructionAccountModel,
> {
    Seq::new(
        signers.len(),
        |i: int|
            InstructionAccountModel {
                address: signers[i].address,
                is_writable: false,
                is_signer: true,
            },
    )
}

/// The account-list entries for a writable tail: one writable, non-signer
/// entry per source account.
pub open spec fn spec_writable_metas(sources: Seq<AccountRefModel>) -> Seq<
    InstructionAccountModel,
> {
    Seq::new(
        sources.len(),
        |i: int|
            InstructionAccountModel {
                address: sources[i].address,
                is_writable: true,
                is_signer: false,
            },
    )
}

/// The authority section of an account list: the authority itself — a
/// direct signer exactly when no multisignature signers follow — and then
/// one read-only signer entry per multisignature signer.
pub open spec fn spec_authority_metas(
    authority: AccountRefModel,
    signers: Seq<AccountRefModel>,
) -> Seq<InstructionAccountModel> {
    seq![spec_meta(authority, false, signers.len() == 0)] + spec_readonly_signer_metas(signers)
}

/// Law: the verdict of an authority-style bounded invocation. Every
/// constructor whose account list is one writable target followed by the
/// authority section passes the invocation layer's address and length
/// checks by construction, so — within the capacity bound — the call
/// succeeds exactly when the writable target is free of borrows, and a
/// borrowed target is the borrow-conflict error.
pub proof fn lemma_authority_invocation_verdict(
    program_id: Seq<u8>,
    target: AccountRefModel,
    authority: AccountRefModel,
    signers: Seq<AccountRefModel>,
    data: Seq<u8>,
    bound: nat,
)
    requires
        bound >= 2 + signers.len(),
    ensures
        crate::cpi::spec_invoke_signed_with_bounds(
            bound,
            InstructionViewModel {
                program_id,
                accounts: seq![spec_meta(target, true, false)] + spec_authority_metas(
                    authority,
                    signers,
                ),
                data,
            },
            seq![target, authority] + signers,
        ) == (if target.borrow_state == NOT_BORROWED {
            Ok::<(), crate::error::ProgramError>(())
        } else {
            Err::<(), crate::error::ProgramError>(crate::error::ProgramError::AccountBorrowFailed)
        }),
{
    let accounts = seq![spec_meta(target, true, false)] + spec_authority_metas(authority, signers);
    let views = seq![target, authority] + signers;
    assert(accounts.len() == views.len() == 2 + signers.len());
    assert(accounts[0] == spec_meta(target, true, false));
    assert(views[0] == target);
    if target.borrow_state == NOT_BORROWED {
        assert forall|j: int| 0 <= j < accounts.len() implies crate::cpi::spec_account_pair_ok(
            accounts[j],
            #[trigger] views[j],
        ) by {
            if j == 1 {
                assert(accounts[1] == spec_meta(authority, false, signers.len() == 0));
                assert(views[1] == authority);
            } else if j >= 2 {
                assert(accounts[j] == spec_readonly_signer_metas(signers)[j - 2]);
                assert(views[j] == signers[j - 2]);
            }
        }
        crate::cpi::lemma_check_accounts_skip(accounts, views, 0, accounts.len());
    }
}

/// Append one account to both parallel lists: the entry with the given
/// privileges to the account list, and the handle itself to the handle list.
pub fn push_account(
    accounts: &mut Vec<InstructionAccount>,
    refs: &mut Vec<AccountRef>,
    account: &AccountRef,
    is_writable: bool,
    is_signer: bool,
)
    ensures
        final(accounts)@.len() == old(accounts)@.len() + 1,
        forall|i: int|
            0 <= i < old(accounts)@.len() ==> final(accounts)@[i] == #[trigger] old(accounts)@[i],
        final(accounts)@[old(accounts)@.len() as int]@ == spec_meta(account@, is_writable, is_signer),
        final(refs)@ == old(refs)@.push(*account),
{
    accounts.push(InstructionAccount::new(&account.address, is_writable, is_signer));
    refs.push(*account);
}

/// Append the authority section to both parallel lists; see
/// [`spec_authority_metas`].
pub fn push_authority(
    accounts: &mut Vec<InstructionAccount>,
    refs: &mut Vec<AccountRef>,
    authority: &AccountRef,
    multisig_signers: &Vec<AccountRef>,
)
    ensures
        final(accounts)@.len() == old(accounts)@.len() + 1 + multisig_signers@.len(),
        forall|i: int|
            0 <= i < old(accounts)@.len() ==> final(accounts)@[i] == #[trigger] old(accounts)@[i],
        final(accounts)@[old(accounts)@.len() as int]@ == spec_meta(
            authority@,
            false,
            multisig_signers@.len() == 0,
        ),
        forall|k: int|
            0 <= k < multisig_signers@.len() ==> final(accounts)@[old(accounts)@.len() + 1 + k]@
                == spec_meta(#[trigger] multisig_signers@[k]@, false, true),
        final(refs)@ == old(refs)@.push(*authority) + multisig_signers@,
{
    accounts.push(
        InstructionAccount::new(&authority.address, false, multisig_signers.len() == 0),
    );
    refs.push(*authority);
    let ghost accounts1 = accounts@;
    let ghost refs1 = refs@;
    let mut i: usize = 0;
    while i < multisig_signers.len()
        invariant
            0 <= i <= multisig_signers@.len(),
            accounts@.len() == accounts1.len() + i,
            forall|j: int| 0 <= j < accounts1.len() ==> accounts@[j] == #[trigger] accounts1[j],
            forall|j: int|
                0 <= j < i ==> accounts@[accounts1.len() + j]@ == spec_meta(
                    #[trigger] multisig_signers@[j]@,
                    false,
                    true,
                ),
            refs@ == refs1 + multisig_signers@.subrange(0, i as int),
        decreases multisig_signers@.len() - i,
    {
        let signer = multisig_signers[i];
        accounts.push(InstructionAccount::readonly_signer(&signer.address));
        refs.push(signer);
        proof {
            assert(refs@ =~= refs1 + multisig_signers@.subrange(0, i + 1));
        }
        i = i + 1;
    }
    proof {
        assert(refs@ =~= refs1 + multisig_signers@);
        assert forall|j: int| 0 <= j < old(accounts)@.len() implies accounts@[j] == old(
            accounts,
        )@[j] by {
            assert(accounts@[j] == accounts1[j]);
        }
        assert(accounts@[old(accounts)@.len() as int] == accounts1[old(accounts)@.len() as int]);
    }
}

/// Append a writable tail to both parallel lists; see
/// [`spec_writable_metas`].
pub fn push_writable_tail(
    accounts: &mut Vec<InstructionAccount>,
    refs: &mut Vec<AccountRef>,
    sources: &Vec<AccountRef>,
)
    ensures
        final(accounts)@.len() == old(accounts)@.len() + sources@.len(),
        forall|i: int|
            0 <= i < old(accounts)@.len() ==> final(accounts)@[i] == #[trigger] old(accounts)@[i],
        forall|k: int|
            0 <= k < sources@.len() ==> final(accounts)@[old(accounts)@.len() + k]@ == spec_meta(
                #[trigger] sources@[k]@,
                true,
                false,
            ),
        final(refs)@ == old(refs)@ + sources@,
{
    let ghost accounts0 = accounts@;
    let ghost refs0 = refs@;
    let mut i: usize = 0;
    while i < sources.len()
        invariant
            0 <= i <= sources@.len(),
            accounts@.len() == accounts0.len() + i,
            forall|j: int| 0 <= j < accounts0.len() ==> accounts@[j] == #[trigger] accounts0[j],
            forall|j: int|
                0 <= j < i ==> accounts@[accounts0.len() + j]@ == spec_meta(
                    #[trigger] sources@[j]@,
                    true,
                    false,
                ),
            refs@ == refs0 + sources@.subrange(0, i as int),
        decreases sources@.len() - i,
    {
        let source = sources[i];
        accounts.push(InstructionAccount::writable(&source.address));
        refs.push(source);
        proof {
            assert(refs@ =~= refs0 + sources@.subrange(0, i + 1));
        }
        i = i + 1;
    }
    proof {
        assert(refs@ =~= refs0 + sources@);
    }
}

/// The models of a sequence of account handles.
pub open spec fn refs_of(s: Seq<AccountRef>) -> Seq<AccountRefModel> {
    Seq::new(s.len(), |i: int| s[i]@)
}

/// The little-endian bytes of a `u16`.
pub open spec fn spec_u16_le(x: u16) -> Seq<u8> {
    seq![(x & 0xff) as u8, ((x >> 8) & 0xff) as u8]
}

/// The little-endian bytes of a `u32`.
pub open spec fn spec_u32_le(x: u32) -> Seq<u8> {
    seq![
        (x & 0xff) as u8,
        ((x >> 8) & 0xff) as u8,
        ((x >> 16) & 0xff) as u8,
        ((x >> 24) & 0xff) as u8,
    ]
}

/// The little-endian bytes of a `u64`.
pub open spec fn spec_u64_le(x: u64) -> Seq<u8> {
    seq![
        (x & 0xff) as u8,
        ((x >> 8) & 0xff) as u8,
        ((x >> 16) & 0xff) as u8,
        ((x >> 24) & 0xff) as u8,
        ((x >> 32) & 0xff) as u8,
        ((x >> 40) & 0xff) as u8,
        ((x >> 48) & 0xff) as u8,
        ((x >> 56) & 0xff) as u8,
    ]
}

/// Append the little-endian bytes of a `u16` to a payload.
pub fn push_u16_le(data: &mut Vec<u8>, x: u16)
    ensures
        final(data)@ == old(data)@ + spec_u16_le(x),
{
    data.push((x & 0xff) as u8);
    data.push(((x >> 8) & 0xff) as u8);
    proof {
        assert(data@ =~= old(data)@ + spec_u16_le(x));
    }
}

/// Append the little-endian bytes of a `u32` to a payload.
pub fn push_u32_le(data: &mut Vec<u8>, x: u32)
    ensures
        final(data)@ == old(data)@ + spec_u32_le(x),
{
    data.push((x & 0xff) as u8);
    data.push(((x >> 8) & 0xff) as u8);
    data.push(((x >> 16) & 0xff) as u8);
    data.push(((x >> 24) & 0xff) as u8);
    proof {
        assert(data@ =~= old(data)@ + spec_u32_le(x));
    }
}

/// Append the little-endian bytes of a `u64` to a payload.
pub fn push_u64_le(data: &mut Vec<u8>, x: u64)
    ensures
        final(data)@ == old(data)@ + spec_u64_le(x),
{
    data.push((x & 0xff) as u8);
    data.push(((x >> 8) & 0xff) as u8);
    data.push(((x >> 16) & 0xff) as u8);
    data.push(((x >> 24) & 0xff) as u8);
    data.push(((x >> 32) & 0xff) as u8);
    data.push(((x >> 40) & 0xff) as u8);
    data.push(((x >> 48) & 0xff) as u8);
    data.push(((x >> 56) & 0xff) as u8);
    proof {
        assert(data@ =~= old(data)@ + spec_u64_le(x));
    }
}

/// The little-endian bytes of an `i64`: its two's-complement value.
pub open spec fn spec_i64_le(x: i64) -> Seq<u8> {
    spec_u64_le(x as u64)
}

/// Append the little-endian bytes of an `i64` to a payload.
pub fn push_i64_le(data: &mut Vec<u8>, x: i64)
    ensures
        final(data)@ == old(data)@ + spec_i64_le(x),
{
    push_u64_le(data, #[verifier::truncate] (x as u64));
}

/// Append eight raw bytes to a payload.
pub fn push_bytes8(data: &mut Vec<u8>, bytes: &[u8; 8])
    ensures
        final(data)@ == old(data)@ + bytes@,
{
    let ghost data0 = data@;
    let mut i: usize = 0;
    while i < 8
        invariant
            0 <= i <= 8,
            data@ == data0 + bytes@.subrange(0, i as int),
        decreases 8 - i,
    {
        data.push(bytes[i]);
        proof {
            assert(data@ =~= data0 + bytes@.subrange(0, i + 1));
        }
        i = i + 1;
    }
    proof {
        assert(data@ =~= data0 + bytes@);
    }
}

/// Append the 32 bytes of an address to a payload.
pub fn push_address(data: &mut Vec<u8>, address: &Address)
    ensures
        final(data)@ == old(data)@ + address@,
{
    let ghost data0 = data@;
    let mut i: usize = 0;
    while i < 32
        invariant
            0 <= i <= 32,
            data@ == data0 + address@.subrange(0, i as int),
        decreases 32 - i,
    {
        data.push(address[i]);
        proof {
            assert(data@ =~= data0 + address@.subrange(0, i + 1));
        }
        i = i + 1;
    }
    proof {
        assert(data@ =~= data0 + address@);
    }
}

/// The 32-byte encoding of an optional address: the address itself, or all
/// zeros for none.
pub open spec fn spec_address_or_zeros(a: Option<Address>) -> Seq<u8> {
    match a {
        Some(address) => address@,
        None => Seq::new(32, |i: int| 0u8),
    }
}

/// Append the 32-byte encoding of an optional address to a payload: the
/// address itself, or all zeros for none.
pub fn push_address_or_zeros(data: &mut Vec<u8>, address: &Option<Address>)
    ensures
        final(data)@ == old(data)@ + spec_address_or_zeros(*address),
{
    match address {
        Some(a) => push_address(data, a),
        None => {
            let ghost data0 = data@;
            let mut i: usize = 0;
            while i < 32
                invariant
                    0 <= i <= 32,
                    data@.len() == data0.len() + i,
                    forall|j: int| 0 <= j < data0.len() ==> data@[j] == #[trigger] data0[j],
                    forall|j: int| data0.len() <= j < data@.len() ==> data@[j] == 0u8,
                decreases 32 - i,
            {
                data.push(0u8);
                i = i + 1;
            }
            proof {
                assert(data@ =~= data0 + Seq::new(32, |j: int| 0u8));
            }
        },
    }
}

/// The tagged encoding of an optional address: a `1` byte followed by the
/// address, or a single `0` byte for none.
pub open spec fn spec_tagged_address(a: Option<Address>) -> Seq<u8> {
    match a {
        Some(address) => seq![1u8] + address@,
        None => seq![0u8],
    }
}

/// Append the tagged encoding of an optional address to a payload; see
/// [`spec_tagged_address`].
pub fn push_tagged_address(data: &mut Vec<u8>, address: &Option<Address>)
    ensures
        final(data)@ == old(data)@ + spec_tagged_address(*address),
{
    match address {
        Some(a) => {
            data.push(1u8);
            push_address(data, a);
            proof {
                assert(data@ =~= old(data)@ + spec_tagged_address(Some(*a)));
            }
        },
        None => {
            data.push(0u8);
            proof {
                assert(data@ =~= old(data)@ + spec_tagged_address(None::<Address>));
            }
        },
    }
}

} // verus!

//! Account handles over the host-owned runtime account record, and the
//! in-place resize protocol.
//!
//! The host serializes one record per account into the input buffer: flag
//! bytes, the recorded original data length, the address, owner, lamport
//! balance, current data length, and then the data bytes themselves followed
//! by reserved padding for growth. An [`Account`] models that record with
//! plain values: the whole reserved data region is held explicitly and never
//! reallocated, so growth happens only inside the region, exactly as the
//! runtime guarantees for the host-owned memory.

use vstd::prelude::*;

use crate::address::Address;
use crate::error::ProgramError;

verus! {

/// Maximum number of bytes a program may add to an account during a single
/// top-level instruction.
pub const MAX_PERMITTED_DATA_INCREASE: usize = 10240;

/// Borrow-state value indicating that the account data is not borrowed.
///
/// The borrow state is a single byte holding the number of borrows still
/// available: `255` means not borrowed, `0` means mutably borrowed, and each
/// outstanding shared borrow decrements the value by one.
pub const NOT_BORROWED: u8 = 255;

/// Mathematical model of one runtime account record.
#[verifier::ext_equal]
pub ghost struct AccountModel {
    /// Address (identity) of the account, 32 bytes.
    pub address: Seq<u8>,
    /// Program that owns the account, 32 bytes.
    pub owner: Seq<u8>,
    /// Lamport balance.
    pub lamports: u64,
    /// Whether the transaction was signed by this account.
    pub is_signer: bool,
    /// Whether the account is writable.
    pub is_writable: bool,
    /// Whether the account holds a loaded program.
    pub executable: bool,
    /// The epoch at which the account next owes rent.
    pub rent_epoch: u64,
    /// Data length recorded when the input buffer was parsed; the high-water
    /// mark from which growth is bounded.
    pub original_data_len: nat,
    /// Current data length.
    pub data_len: nat,
    /// The reserved data region: the original data followed by padding for
    /// growth. Its length never changes while the record lives.
    pub region: Seq<u8>,
    /// Borrow-state byte; see [`NOT_BORROWED`].
    pub borrow_state: u8,
}

impl AccountModel {
    /// Structural facts that hold of every account produced by this library.
    pub open spec fn wf(self) -> bool {
        &&& self.address.len() == 32
        &&& self.owner.len() == 32
        &&& self.original_data_len <= u32::MAX
        &&& self.region.len() == self.original_data_len + MAX_PERMITTED_DATA_INCREASE
        &&& self.data_len <= self.region.len()
    }

    /// The account data: the leading `data_len` bytes of the region.
    pub open spec fn data(self) -> Seq<u8> {
        self.region.subrange(0, self.data_len as int)
    }

    /// True when no borrow of the account data is outstanding.
    pub open spec fn not_borrowed(self) -> bool {
        self.borrow_state == NOT_BORROWED
    }

    /// True when the account data is mutably borrowed.
    pub open spec fn borrowed_mut(self) -> bool {
        self.borrow_state == 0
    }

    /// Everything a program can observe of an account: all fields except the
    /// region bytes past the current data length, which are never readable
    /// and are zero-filled before they are ever re-exposed by growth.
    pub open spec fn observes(self, other: AccountModel) -> bool {
        &&& self.address == other.address
        &&& self.owner == other.owner
        &&& self.lamports == other.lamports
        &&& self.is_signer == other.is_signer
        &&& self.is_writable == other.is_writable
        &&& self.executable == other.executable
        &&& self.rent_epoch == other.rent_epoch
        &&& self.original_data_len == other.original_data_len
        &&& self.data_len == other.data_len
        &&& self.region.len() == other.region.len()
        &&& self.data() == other.data()
        &&& self.borrow_state == other.borrow_state
    }
}

/// What `resize` does to an account, as a function of the model.
///
/// Resizing to the current length is an immediate no-op with no zero-fill.
/// Otherwise the new length is measured against the original data length
/// recorded at parse time: growing more than [`MAX_PERMITTED_DATA_INCREASE`]
/// bytes beyond it fails and leaves the account unchanged. A successful grow
/// zero-fills exactly the newly exposed bytes; the region itself, and with it
/// the data pointer of the real record, never changes.
pub open spec fn spec_resize(a: AccountModel, new_len: nat) -> (AccountModel, Result<
    (),
    ProgramError,
>) {
    if new_len == a.data_len {
        (a, Ok(()))
    } else if new_len > a.original_data_len + MAX_PERMITTED_DATA_INCREASE {
        (a, Err(ProgramError::InvalidRealloc))
    } else if new_len > a.data_len {
        (
            AccountModel {
                data_len: new_len,
                region: Seq::new(
                    a.region.len(),
                    |i: int|
                        if a.data_len <= i < new_len {
                            0u8
                        } else {
                            a.region[i]
                        },
                ),
                ..a
            },
            Ok(()),
        )
    } else {
        (AccountModel { data_len: new_len, ..a }, Ok(()))
    }
}

/// Law: resizing to the current length is an immediate no-op — no zero-fill
/// touches the region, no field changes, and the call succeeds.
pub proof fn lemma_resize_noop(a: AccountModel)
    requires
        a.wf(),
    ensures
        spec_resize(a, a.data_len) == (a, Ok::<(), ProgramError>(())),
{
}

/// Law: growing a buffer zero-fills exactly the newly exposed bytes and
/// leaves every other region byte — prior data and reserved padding alike —
/// untouched.
pub proof fn lemma_resize_grow_zero_fills(a: AccountModel, new_len: nat)
    requires
        a.wf(),
        a.data_len < new_len <= a.original_data_len + MAX_PERMITTED_DATA_INCREASE,
    ensures
        spec_resize(a, new_len).1 is Ok,
        spec_resize(a, new_len).0.data_len == new_len,
        spec_resize(a, new_len).0.region.len() == a.region.len(),
        forall|i: int| 0 <= i < a.data_len ==> spec_resize(a, new_len).0.region[i] == a.region[i],
        forall|i: int| a.data_len <= i < new_len ==> spec_resize(a, new_len).0.region[i] == 0,
        forall|i: int|
            new_len <= i < a.region.len() ==> spec_resize(a, new_len).0.region[i] == a.region[i],
{
}

/// Law: a resize whose target exceeds the original data length by more than
/// [`MAX_PERMITTED_DATA_INCREASE`] fails with the invalid-reallocation error
/// and leaves the account — its length included — unchanged.
pub proof fn lemma_resize_too_large(a: AccountModel, new_len: nat)
    requires
        a.wf(),
        new_len > a.original_data_len + MAX_PERMITTED_DATA_INCREASE,
    ensures
        spec_resize(a, new_len) == (a, Err::<(), ProgramError>(ProgramError::InvalidRealloc)),
{
}

/// The account state after a whole sequence of resize requests, each applied
/// to the result of the one before it (a failed request leaves the state as
/// it was).
pub open spec fn spec_resize_all(a: AccountModel, lens: Seq<nat>) -> AccountModel
    decreases lens.len(),
{
    if lens.len() == 0 {
        a
    } else {
        spec_resize_all(spec_resize(a, lens[0]).0, lens.drop_first())
    }
}

/// Law: the data region keeps its size — and so the real record keeps its
/// data pointer — across any sequence of resize requests, successful or not.
pub proof fn lemma_region_stable_over_resizes(a: AccountModel, lens: Seq<nat>)
    ensures
        spec_resize_all(a, lens).region.len() == a.region.len(),
    decreases lens.len(),
{
    if lens.len() > 0 {
        lemma_region_stable_over_resizes(spec_resize(a, lens[0]).0, lens.drop_first());
    }
}

/// Law: two successful resizes collapse to the final one. Whatever the
/// intermediate length, the outcome observed by a program — every field, the
/// region size, and the data bytes — is the state that a single resize to
/// the final length produces, provided the intermediate step exposes no
/// leftover bytes: the intermediate length must not cut into non-zero data
/// that the final length would then re-expose as zeros.
pub proof fn lemma_resize_path_independent(a: AccountModel, mid: nat, fin: nat)
    requires
        a.wf(),
        spec_resize(a, mid).1 is Ok,
        spec_resize(spec_resize(a, mid).0, fin).1 is Ok,
        fin <= mid || mid >= a.data_len || (forall|i: int|
            mid <= i < fin && i < a.data_len ==> a.region[i] == 0),
    ensures
        spec_resize(a, fin).1 is Ok,
        spec_resize(spec_resize(a, mid).0, fin).0.observes(spec_resize(a, fin).0),
{
    let s1 = spec_resize(a, mid).0;
    let s2 = spec_resize(s1, fin).0;
    let s3 = spec_resize(a, fin).0;
    assert(s2.data() =~= s3.data());
}

/// Law: observation is a bisimulation for resize. Two accounts that agree on
/// everything a program can observe keep agreeing, and return the same
/// result, after any resize request; the unobservable leftover bytes past
/// the current length never influence later behaviour.
pub proof fn lemma_resize_respects_observation(a: AccountModel, b: AccountModel, new_len: nat)
    requires
        a.wf(),
        b.wf(),
        a.observes(b),
    ensures
        spec_resize(a, new_len).1 == spec_resize(b, new_len).1,
        spec_resize(a, new_len).0.observes(spec_resize(b, new_len).0),
{
    let a2 = spec_resize(a, new_len).0;
    let b2 = spec_resize(b, new_len).0;
    assert forall|i: int| 0 <= i < a.data_len implies a.region[i] == b.region[i] by {
        assert(a.data()[i] == a.region[i]);
        assert(b.data()[i] == b.region[i]);
    }
    assert(a2.data() =~= b2.data());
}

/// A handle over one runtime account record.
pub struct Account {
    address: Address,
    owner: Address,
    lamports: u64,
    is_signer: bool,
    is_writable: bool,
    executable: bool,
    rent_epoch: u64,
    original_data_len: u32,
    data_len: usize,
    region: Vec<u8>,
    borrow_state: u8,
}

impl View for Account {
    type V = AccountModel;

    closed spec fn view(&self) -> AccountModel {
        AccountModel {
            address: self.address@,
            owner: self.owner@,
            lamports: self.lamports,
            is_signer: self.is_signer,
            is_writable: self.is_writable,
            executable: self.executable,
            rent_epoch: self.rent_epoch,
            original_data_len: self.original_data_len as nat,
            data_len: self.data_len as nat,
            region: self.region@,
            borrow_state: self.borrow_state,
        }
    }
}

impl Account {
    /// Build an account record as the host would serialize it: the given
    /// bytes become both the data and the recorded original data length, the
    /// reserved region is padded for growth, and no borrow is outstanding.
    pub fn new(
        address: Address,
        owner: Address,
        lamports: u64,
        data: Vec<u8>,
        is_signer: bool,
        is_writable: bool,
        executable: bool,
        rent_epoch: u64,
    ) -> (account: Account)
        requires
            data@.len() <= u32::MAX,
        ensures
            account@.wf(),
            account@.address == address@,
            account@.owner == owner@,
            account@.lamports == lamports,
            account@.is_signer == is_signer,
            account@.is_writable == is_writable,
            account@.executable == executable,
            account@.rent_epoch == rent_epoch,
            account@.original_data_len == data@.len(),
            account@.data_len == data@.len(),
            account@.data() == data@,
            account@.not_borrowed(),
    {
        let data_len = data.len();
        let ghost data0 = data@;
        let mut region = data;
        let mut i: usize = 0;
        while i < MAX_PERMITTED_DATA_INCREASE
            invariant
                region@.len() == data0.len() + i,
                data_len == data0.len(),
                0 <= i <= MAX_PERMITTED_DATA_INCREASE,
                data0.len() <= u32::MAX,
                forall|j: int| 0 <= j < data0.len() ==> region@[j] == data0[j],
            decreases MAX_PERMITTED_DATA_INCREASE - i,
        {
            region.push(0u8);
            i = i + 1;
        }
        let account = Account {
            address,
            owner,
            lamports,
            is_signer,
            is_writable,
            executable,
            rent_epoch,
            original_data_len: data_len as u32,
            data_len,
            region,
            borrow_state: NOT_BORROWED,
        };
        proof {
            assert(account@.data() =~= data0);
        }
        account
    }

    /// Build an account handle from an already-parsed runtime record: the
    /// region holds the data bytes followed by the reserved growth padding
    /// exactly as the host serialized them, and the current data length
    /// becomes the recorded original length.
    pub(crate) fn from_parsed(
        address: Address,
        owner: Address,
        lamports: u64,
        is_signer: bool,
        is_writable: bool,
        executable: bool,
        rent_epoch: u64,
        data_len: usize,
        region: Vec<u8>,
    ) -> (account: Account)
        requires
            data_len <= u32::MAX,
            region@.len() == data_len + MAX_PERMITTED_DATA_INCREASE,
        ensures
            account@.wf(),
            account@ == (AccountModel {
                address: address@,
                owner: owner@,
                lamports,
                is_signer,
                is_writable,
                executable,
                rent_epoch,
                original_data_len: data_len as nat,
                data_len: data_len as nat,
                region: region@,
                borrow_state: NOT_BORROWED,
            }),
    {
        Account {
            address,
            owner,
            lamports,
            is_signer,
            is_writable,
            executable,
            rent_epoch,
            original_data_len: data_len as u32,
            data_len,
            region,
            borrow_state: NOT_BORROWED,
        }
    }

    /// Address of the account.
    pub fn address(&self) -> (r: &Address)
        ensures
            r@ == self@.address,
    {
        &self.address
    }

    /// Program that owns the account.
    pub fn owner(&self) -> (r: &Address)
        ensures
            r@ == self@.owner,
    {
        &self.owner
    }

    /// Whether the transaction was signed by this account.
    pub fn is_signer(&self) -> (r: bool)
        ensures
            r == self@.is_signer,
    {
        self.is_signer
    }

    /// Whether the account is writable.
    pub fn is_writable(&self) -> (r: bool)
        ensures
            r == self@.is_writable,
    {
        self.is_writable
    }

    /// Whether the account holds a loaded program.
    pub fn executable(&self) -> (r: bool)
        ensures
            r == self@.executable,
    {
        self.executable
    }

    /// The lamports in the account.
    pub fn lamports(&self) -> (r: u64)
        ensures
            r == self@.lamports,
    {
        self.lamports
    }

    /// Set the lamports in the account.
    pub fn set_lamports(&mut self, lamports: u64)
        ensures
            final(self)@ == (AccountModel { lamports, ..old(self)@ }),
    {
        self.lamports = lamports;
    }

    /// Current length of the account data.
    pub fn data_len(&self) -> (r: usize)
        ensures
            r == self@.data_len,
    {
        self.data_len
    }

    /// Whether the account data is empty.
    pub fn is_data_empty(&self) -> (r: bool)
        ensures
            r == (self@.data_len == 0),
    {
        self.data_len == 0
    }

    /// The data length recorded when the account was parsed: the high-water
    /// mark from which growth is bounded.
    pub fn original_data_len(&self) -> (r: u32)
        ensures
            r as nat == self@.original_data_len,
    {
        self.original_data_len
    }

    /// Length of the reserved data region. The real record's region is a
    /// fixed mapping in host memory, so this length never changes; it stands
    /// for the stability of the data pointer.
    pub fn data_capacity(&self) -> (r: usize)
        ensures
            r == self@.region.len(),
    {
        self.region.len()
    }

    /// Whether the account is owned by the given program.
    pub fn owned_by(&self, program: &Address) -> (r: bool)
        ensures
            r <==> self@.owner == program@,
    {
        crate::address::address_eq(&self.owner, program)
    }

    /// Change the owner of the account.
    pub fn assign(&mut self, new_owner: &Address)
        ensures
            final(self)@ == (AccountModel { owner: new_owner@, ..old(self)@ }),
    {
        self.owner = *new_owner;
    }

    /// Whether any borrow of the account data is outstanding.
    pub fn is_borrowed(&self) -> (r: bool)
        ensures
            r == !self@.not_borrowed(),
    {
        self.borrow_state != NOT_BORROWED
    }

    /// Whether the account data is mutably borrowed.
    pub fn is_borrowed_mut(&self) -> (r: bool)
        ensures
            r == self@.borrowed_mut(),
    {
        self.borrow_state == 0
    }

    /// The borrow-state byte.
    pub fn borrow_state(&self) -> (r: u8)
        ensures
            r == self@.borrow_state,
    {
        self.borrow_state
    }

    /// Check that a shared borrow of the account data could be taken: at
    /// least one immutable borrow must still be available.
    pub fn check_borrow(&self) -> (r: Result<(), ProgramError>)
        ensures
            r is Ok <==> self@.borrow_state >= 2,
            r is Err ==> r == Err::<(), ProgramError>(ProgramError::AccountBorrowFailed),
    {
        if self.borrow_state < 2 {
            Err(ProgramError::AccountBorrowFailed)
        } else {
            Ok(())
        }
    }

    /// Check that a mutable borrow of the account data could be taken: no
    /// borrow of any kind may be outstanding.
    pub fn check_borrow_mut(&self) -> (r: Result<(), ProgramError>)
        ensures
            r is Ok <==> self@.not_borrowed(),
            r is Err ==> r == Err::<(), ProgramError>(ProgramError::AccountBorrowFailed),
    {
        if self.borrow_state != NOT_BORROWED {
            Err(ProgramError::AccountBorrowFailed)
        } else {
            Ok(())
        }
    }

    /// Take a shared borrow of the account data, failing if the data is
    /// mutably borrowed or no immutable borrow is available.
    pub fn try_borrow(&mut self) -> (r: Result<(), ProgramError>)
        ensures
            old(self)@.borrow_state < 2 ==> r == Err::<(), ProgramError>(
                ProgramError::AccountBorrowFailed,
            ) && *final(self) == *old(self),
            old(self)@.borrow_state >= 2 ==> r == Ok::<(), ProgramError>(()) && final(self)@ == (
            AccountModel {
                borrow_state: (old(self)@.borrow_state - 1) as u8,
                ..old(self)@
            }),
    {
        if self.borrow_state < 2 {
            Err(ProgramError::AccountBorrowFailed)
        } else {
            self.borrow_state = self.borrow_state - 1;
            Ok(())
        }
    }

    /// Release one shared borrow taken by [`Self::try_borrow`].
    pub fn release_borrow(&mut self)
        requires
            0 < old(self)@.borrow_state < NOT_BORROWED,
        ensures
            final(self)@ == (AccountModel {
                borrow_state: (old(self)@.borrow_state + 1) as u8,
                ..old(self)@
            }),
    {
        self.borrow_state = self.borrow_state + 1;
    }

    /// Take the mutable borrow of the account data, failing if any borrow is
    /// outstanding.
    pub fn try_borrow_mut(&mut self) -> (r: Result<(), ProgramError>)
        ensures
            !old(self)@.not_borrowed() ==> r == Err::<(), ProgramError>(
                ProgramError::AccountBorrowFailed,
            ) && *final(self) == *old(self),
            old(self)@.not_borrowed() ==> r == Ok::<(), ProgramError>(()) && final(self)@ == (
            AccountModel { borrow_state: 0u8, ..old(self)@ }),
    {
        if self.borrow_state != NOT_BORROWED {
            Err(ProgramError::AccountBorrowFailed)
        } else {
            self.borrow_state = 0;
            Ok(())
        }
    }

    /// Release the mutable borrow taken by [`Self::try_borrow_mut`].
    pub fn release_borrow_mut(&mut self)
        requires
            old(self)@.borrowed_mut(),
        ensures
            final(self)@ == (AccountModel { borrow_state: NOT_BORROWED, ..old(self)@ }),
    {
        self.borrow_state = NOT_BORROWED;
    }

    /// Read one byte of the account data. Reading requires an outstanding
    /// borrow, shared or mutable.
    pub fn data_byte(&self, i: usize) -> (r: u8)
        requires
            self@.wf(),
            i < self@.data_len,
            !self@.not_borrowed(),
        ensures
            r == self@.data()[i as int],
    {
        self.region[i]
    }

    /// Write one byte of the account data. Writing requires the mutable
    /// borrow to be outstanding.
    pub fn set_data_byte(&mut self, i: usize, value: u8)
        requires
            old(self)@.wf(),
            i < old(self)@.data_len,
            old(self)@.borrowed_mut(),
        ensures
            final(self)@ == (AccountModel {
                region: old(self)@.region.update(i as int, value),
                ..old(self)@
            }),
    {
        self.region.set(i, value);
    }

    /// Replace the record's data with a freshly mapped region of `space`
    /// zero bytes, as the host does when a creation instruction allocates
    /// an account: the creation size becomes the new original data length
    /// from which later growth is bounded.
    pub(crate) fn host_create(&mut self, space: usize)
        requires
            old(self)@.wf(),
            space <= u32::MAX,
        ensures
            final(self)@.wf(),
            final(self)@ == (AccountModel {
                original_data_len: space as nat,
                data_len: space as nat,
                region: Seq::new((space + MAX_PERMITTED_DATA_INCREASE) as nat, |i: int| 0u8),
                ..old(self)@
            }),
    {
        let mut region: Vec<u8> = Vec::new();
        let mut i: usize = 0;
        while i < space
            invariant
                0 <= i <= space,
                region@.len() == i,
                forall|j: int| 0 <= j < i ==> region@[j] == 0u8,
            decreases space - i,
        {
            region.push(0u8);
            i = i + 1;
        }
        let mut k: usize = 0;
        while k < MAX_PERMITTED_DATA_INCREASE
            invariant
                0 <= k <= MAX_PERMITTED_DATA_INCREASE,
                region@.len() == space + k,
                forall|j: int| 0 <= j < region@.len() ==> region@[j] == 0u8,
            decreases MAX_PERMITTED_DATA_INCREASE - k,
        {
            region.push(0u8);
            k = k + 1;
        }
        self.region = region;
        self.original_data_len = space as u32;
        self.data_len = space;
        proof {
            assert(self@.region =~= Seq::new(
                (space + MAX_PERMITTED_DATA_INCREASE) as nat,
                |i: int| 0u8,
            ));
        }
    }

}

/// Types that expose the in-place resize protocol over a runtime account
/// record.
pub trait Resize: View<V = AccountModel> {
    /// Resize (either truncating or zero extending) the account's data,
    /// failing if any borrow of the data is outstanding.
    ///
    /// The account data can be increased by up to
    /// [`MAX_PERMITTED_DATA_INCREASE`] bytes beyond the original data length
    /// within an instruction; the region, and with it the data pointer of the
    /// real record, never changes.
    fn resize(&mut self, new_len: usize) -> (r: Result<(), ProgramError>)
        requires
            old(self)@.wf(),
        ensures
            final(self)@.wf(),
            !old(self)@.not_borrowed() ==> r == Err::<(), ProgramError>(
                ProgramError::AccountBorrowFailed,
            ) && final(self)@ == old(self)@,
            old(self)@.not_borrowed() ==> final(self)@ == spec_resize(
                old(self)@,
                new_len as nat,
            ).0 && r == spec_resize(old(self)@, new_len as nat).1,
    ;

    /// Resize (either truncating or zero extending) the account's data.
    ///
    /// Unlike [`Resize::resize`], this does not consult the borrow state at
    /// run time: the caller must prove that no borrow of the data is
    /// outstanding, which is what makes skipping the check sound.
    fn resize_unchecked(&mut self, new_len: usize) -> (r: Result<(), ProgramError>)
        requires
            old(self)@.wf(),
            old(self)@.not_borrowed(),
        ensures
            final(self)@.wf(),
            final(self)@ == spec_resize(old(self)@, new_len as nat).0,
            r == spec_resize(old(self)@, new_len as nat).1,
    ;
}

impl Resize for Account {
    fn resize(&mut self, new_len: usize) -> (r: Result<(), ProgramError>) {
        match self.check_borrow_mut() {
            Err(e) => Err(e),
            Ok(()) => self.resize_unchecked(new_len),
        }
    }

    fn resize_unchecked(&mut self, new_len: usize) -> (r: Result<(), ProgramError>) {
        if new_len == self.data_len {
            return Ok(());
        }
        let original = self.original_data_len as usize;
        if new_len > original && new_len - original > MAX_PERMITTED_DATA_INCREASE {
            return Err(ProgramError::InvalidRealloc);
        }
        if new_len > self.data_len {
            let mut i = self.data_len;
            while i < new_len
                invariant
                    old(self)@.data_len <= i <= new_len,
                    new_len <= old(self)@.region.len(),
                    self.region@.len() == old(self)@.region.len(),
                    forall|j: int|
                        0 <= j < self.region@.len() ==> self.region@[j] == (
                        if old(self)@.data_len <= j < i {
                            0u8
                        } else {
                            old(self)@.region[j]
                        }),
                    self.address == old(self).address,
                    self.owner == old(self).owner,
                    self.lamports == old(self).lamports,
                    self.is_signer == old(self).is_signer,
                    self.is_writable == old(self).is_writable,
                    self.executable == old(self).executable,
                    self.rent_epoch == old(self).rent_epoch,
                    self.original_data_len == old(self).original_data_len,
                    self.data_len == old(self).data_len,
                    self.borrow_state == old(self).borrow_state,
                decreases new_len - i,
            {
                self.region.set(i, 0u8);
                i = i + 1;
            }
            self.data_len = new_len;
            proof {
                assert(self@.region =~= spec_resize(old(self)@, new_len as nat).0.region);
            }
            Ok(())
        } else {
            self.data_len = new_len;
            Ok(())
        }
    }
}

} // verus!

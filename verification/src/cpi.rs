//! Cross-program invocation layer.
//!
//! The invocation layer validates a prepared instruction against the account
//! handles passed alongside it — capacity bound, handle count, per-position
//! address match, and borrow-state compatibility for writable accounts — and
//! then hands the call to the host. The host boundary is modelled by
//! [`Cpi`], which records, in order, every call that passed validation
//! together with the signer seed sets asserted for it; what the invoked
//! program does is outside this layer and opaque to it.

use vstd::prelude::*;

use crate::account::NOT_BORROWED;
use crate::address::address_eq;
use crate::error::ProgramError;
use crate::instruction::{
    AccountRef, AccountRefModel, InstructionAccountModel, InstructionView, InstructionViewModel,
    Signer,
};

verus! {

/// Maximum number of accounts allowed in a bounded invocation.
pub const MAX_STATIC_CPI_ACCOUNTS: usize = 64;

/// The seed sets of a signer list: one list of seed-byte sequences per
/// signer, in order.
pub open spec fn spec_signer_sets(signers: Seq<Signer>) -> Seq<Seq<Seq<u8>>> {
    Seq::new(signers.len(), |i: int| signers[i]@)
}

/// The host boundary: an ordered record of every invocation that passed the
/// layer's validation, alongside the signer seed sets asserted for it.
pub struct Cpi {
    calls: Vec<InstructionView>,
    signer_sets: Vec<Vec<Signer>>,
}

impl View for Cpi {
    type V = Seq<InstructionViewModel>;

    closed spec fn view(&self) -> Seq<InstructionViewModel> {
        Seq::new(self.calls@.len(), |i: int| self.calls@[i]@)
    }
}

impl Cpi {
    /// The signer seed sets handed to each issued call, in the same order
    /// as the call log: entry `i` belongs to call `i`.
    pub closed spec fn spec_signer_log(&self) -> Seq<Seq<Seq<Seq<u8>>>> {
        Seq::new(self.signer_sets@.len(), |i: int| spec_signer_sets(self.signer_sets@[i]@))
    }

    /// A host boundary with no calls issued yet.
    pub fn new() -> (r: Cpi)
        ensures
            r@ == Seq::<InstructionViewModel>::empty(),
            r.spec_signer_log() == Seq::<Seq<Seq<Seq<u8>>>>::empty(),
    {
        let r = Cpi { calls: Vec::new(), signer_sets: Vec::new() };
        proof {
            assert(r@ =~= Seq::<InstructionViewModel>::empty());
            assert(r.spec_signer_log() =~= Seq::<Seq<Seq<Seq<u8>>>>::empty());
        }
        r
    }

    /// Number of calls issued so far.
    pub fn call_count(&self) -> (r: usize)
        ensures
            r == self@.len(),
    {
        self.calls.len()
    }

    /// The `i`-th call issued, oldest first.
    pub fn get_call(&self, i: usize) -> (r: &InstructionView)
        requires
            i < self@.len(),
        ensures
            r@ == self@[i as int],
    {
        &self.calls[i]
    }

    /// Number of recorded signer seed-set entries; one per issued call.
    pub fn signer_set_count(&self) -> (r: usize)
        ensures
            r == self.spec_signer_log().len(),
    {
        self.signer_sets.len()
    }

    /// The signer seed sets asserted with the `i`-th call, oldest first.
    pub fn get_call_signers(&self, i: usize) -> (r: &Vec<Signer>)
        requires
            i < self.spec_signer_log().len(),
        ensures
            spec_signer_sets(r@) == self.spec_signer_log()[i as int],
    {
        &self.signer_sets[i]
    }
}

/// Copy a byte sequence.
fn clone_bytes(bytes: &Vec<u8>) -> (r: Vec<u8>)
    ensures
        r@ == bytes@,
{
    let mut r: Vec<u8> = Vec::new();
    let mut i: usize = 0;
    while i < bytes.len()
        invariant
            0 <= i <= bytes@.len(),
            r@ == bytes@.subrange(0, i as int),
        decreases bytes@.len() - i,
    {
        r.push(bytes[i]);
        proof {
            assert(r@ =~= bytes@.subrange(0, i + 1));
        }
        i = i + 1;
    }
    proof {
        assert(r@ =~= bytes@);
    }
    r
}

/// Copy one signer's seed list.
fn clone_signer(signer: &Signer) -> (r: Signer)
    ensures
        r@ == signer@,
{
    let mut seeds: Vec<Vec<u8>> = Vec::new();
    let mut i: usize = 0;
    while i < signer.seeds.len()
        invariant
            0 <= i <= signer.seeds@.len(),
            seeds@.len() == i,
            forall|j: int| 0 <= j < i ==> #[trigger] seeds@[j]@ == signer.seeds@[j]@,
        decreases signer.seeds@.len() - i,
    {
        seeds.push(clone_bytes(&signer.seeds[i]));
        i = i + 1;
    }
    let r = Signer { seeds };
    proof {
        assert(r@ =~= signer@);
    }
    r
}

/// Copy a signer list, preserving its seed sets.
fn clone_signers(signers: &Vec<Signer>) -> (r: Vec<Signer>)
    ensures
        spec_signer_sets(r@) == spec_signer_sets(signers@),
{
    let mut r: Vec<Signer> = Vec::new();
    let mut i: usize = 0;
    while i < signers.len()
        invariant
            0 <= i <= signers@.len(),
            r@.len() == i,
            forall|j: int| 0 <= j < i ==> #[trigger] r@[j]@ == signers@[j]@,
        decreases signers@.len() - i,
    {
        r.push(clone_signer(&signers[i]));
        i = i + 1;
    }
    proof {
        assert(spec_signer_sets(r@) =~= spec_signer_sets(signers@));
    }
    r
}

/// The view of a sequence of account handles.
pub open spec fn spec_refs(views: Seq<AccountRef>) -> Seq<AccountRefModel> {
    Seq::new(views.len(), |i: int| views[i]@)
}

/// Whether one instruction account and the handle passed for it are
/// compatible: the addresses must match, and an account the instruction
/// declares writable must not be borrowed in any form.
pub open spec fn spec_account_pair_ok(
    account: InstructionAccountModel,
    view: AccountRefModel,
) -> bool {
    &&& view.address == account.address
    &&& (account.is_writable ==> view.borrow_state == NOT_BORROWED)
}

/// The validation verdict over the account list, position by position from
/// `i`: an address mismatch is an invalid argument, a borrow conflict on a
/// writable account is a borrow failure, and the first fault wins.
pub open spec fn spec_check_accounts(
    accounts: Seq<InstructionAccountModel>,
    views: Seq<AccountRefModel>,
    i: nat,
) -> Result<(), ProgramError>
    decreases accounts.len() - i,
{
    if i >= accounts.len() {
        Ok(())
    } else if views[i as int].address != accounts[i as int].address {
        Err(ProgramError::InvalidArgument)
    } else if accounts[i as int].is_writable && views[i as int].borrow_state != NOT_BORROWED {
        Err(ProgramError::AccountBorrowFailed)
    } else {
        spec_check_accounts(accounts, views, i + 1)
    }
}

/// What an unbounded invocation returns: too few handles for the
/// instruction's account list is an error, then the account list is
/// validated position by position.
pub open spec fn spec_invoke_signed(
    instruction: InstructionViewModel,
    views: Seq<AccountRefModel>,
) -> Result<(), ProgramError> {
    if views.len() < instruction.accounts.len() {
        Err(ProgramError::NotEnoughAccountKeys)
    } else {
        spec_check_accounts(instruction.accounts, views, 0)
    }
}

/// What a bounded invocation returns: an instruction whose account list
/// exceeds the declared bound is rejected before anything else is read.
pub open spec fn spec_invoke_signed_with_bounds(
    bound: nat,
    instruction: InstructionViewModel,
    views: Seq<AccountRefModel>,
) -> Result<(), ProgramError> {
    if bound < instruction.accounts.len() {
        Err(ProgramError::InvalidArgument)
    } else {
        spec_invoke_signed(instruction, views)
    }
}

/// Validation passes over any run of positions whose account and handle
/// are compatible: the verdict from position `i` equals the verdict from
/// position `k` when every pair in between is fine.
pub proof fn lemma_check_accounts_skip(
    accounts: Seq<InstructionAccountModel>,
    views: Seq<AccountRefModel>,
    i: nat,
    k: nat,
)
    requires
        i <= k <= accounts.len() <= views.len(),
        forall|j: int| i <= j < k ==> spec_account_pair_ok(accounts[j], #[trigger] views[j]),
    ensures
        spec_check_accounts(accounts, views, i) == spec_check_accounts(accounts, views, k),
    decreases k - i,
{
    if i < k {
        lemma_check_accounts_skip(accounts, views, i + 1, k);
    }
}

/// Validate and issue an invocation; the shared body of every `invoke`
/// variant.
fn invoke_inner(
    cpi: &mut Cpi,
    instruction: InstructionView,
    account_views: &Vec<AccountRef>,
    signers: &Vec<Signer>,
) -> (r: Result<(), ProgramError>)
    ensures
        r == spec_invoke_signed(instruction@, spec_refs(account_views@)),
        r is Ok ==> final(cpi)@ == old(cpi)@.push(instruction@),
        r is Err ==> final(cpi)@ == old(cpi)@,
        r is Ok ==> final(cpi).spec_signer_log() == old(cpi).spec_signer_log().push(
            spec_signer_sets(signers@),
        ),
        r is Err ==> final(cpi).spec_signer_log() == old(cpi).spec_signer_log(),
{
    let n = instruction.accounts.len();
    if account_views.len() < n {
        return Err(ProgramError::NotEnoughAccountKeys);
    }
    let ghost accounts_model = instruction@.accounts;
    let ghost views_model = spec_refs(account_views@);
    let mut i: usize = 0;
    while i < n
        invariant
            i <= n == instruction.accounts@.len(),
            n <= account_views@.len(),
            accounts_model == instruction@.accounts,
            views_model == spec_refs(account_views@),
            forall|j: int|
                0 <= j < i ==> spec_account_pair_ok(accounts_model[j], #[trigger] views_model[j]),
        decreases n - i,
    {
        let account = instruction.accounts[i];
        let view = account_views[i];
        if !address_eq(&view.address, &account.address) {
            proof {
                lemma_check_accounts_skip(accounts_model, views_model, 0, i as nat);
            }
            return Err(ProgramError::InvalidArgument);
        }
        if account.is_writable && view.borrow_state != NOT_BORROWED {
            proof {
                lemma_check_accounts_skip(accounts_model, views_model, 0, i as nat);
            }
            return Err(ProgramError::AccountBorrowFailed);
        }
        i = i + 1;
    }
    proof {
        lemma_check_accounts_skip(accounts_model, views_model, 0, n as nat);
    }
    let ghost before = cpi@;
    let ghost log_before = cpi.spec_signer_log();
    let ghost ix_model = instruction@;
    cpi.calls.push(instruction);
    cpi.signer_sets.push(clone_signers(signers));
    proof {
        assert(cpi@ =~= before.push(ix_model));
        assert(cpi.spec_signer_log() =~= log_before.push(spec_signer_sets(signers@)));
    }
    Ok(())
}

/// Invoke a cross-program instruction.
///
/// The handles in `account_views` must be in the same order as the
/// `accounts` field of the `instruction`; when the instruction repeats an
/// account, the handle is repeated too, keeping the relationship one-to-one.
/// The handle count stands in for the fixed-size handle array of the real
/// call site, so it may not exceed [`MAX_STATIC_CPI_ACCOUNTS`].
pub fn invoke(
    cpi: &mut Cpi,
    instruction: InstructionView,
    account_views: &Vec<AccountRef>,
) -> (r: Result<(), ProgramError>)
    requires
        account_views@.len() <= MAX_STATIC_CPI_ACCOUNTS,
    ensures
        r == spec_invoke_signed(instruction@, spec_refs(account_views@)),
        r is Ok ==> final(cpi)@ == old(cpi)@.push(instruction@),
        r is Err ==> final(cpi)@ == old(cpi)@,
        r is Ok ==> final(cpi).spec_signer_log() == old(cpi).spec_signer_log().push(
            spec_signer_sets(Seq::<Signer>::empty()),
        ),
        r is Err ==> final(cpi).spec_signer_log() == old(cpi).spec_signer_log(),
{
    invoke_signed(cpi, instruction, account_views, &Vec::new())
}

/// Invoke a cross-program instruction, asserting derived-address authority
/// through the given signer seed sets for the duration of the call.
pub fn invoke_signed(
    cpi: &mut Cpi,
    instruction: InstructionView,
    account_views: &Vec<AccountRef>,
    signers: &Vec<Signer>,
) -> (r: Result<(), ProgramError>)
    requires
        account_views@.len() <= MAX_STATIC_CPI_ACCOUNTS,
    ensures
        r == spec_invoke_signed(instruction@, spec_refs(account_views@)),
        r is Ok ==> final(cpi)@ == old(cpi)@.push(instruction@),
        r is Err ==> final(cpi)@ == old(cpi)@,
        r is Ok ==> final(cpi).spec_signer_log() == old(cpi).spec_signer_log().push(
            spec_signer_sets(signers@),
        ),
        r is Err ==> final(cpi).spec_signer_log() == old(cpi).spec_signer_log(),
{
    invoke_inner(cpi, instruction, account_views, signers)
}

/// Invoke a cross-program instruction under an explicit capacity bound.
///
/// `bound` stands in for the fixed stack capacity the real call site
/// reserves for the account list; an instruction needing more accounts than
/// the bound is rejected with an invalid-argument error before any account
/// is examined.
pub fn invoke_with_bounds(
    cpi: &mut Cpi,
    bound: usize,
    instruction: InstructionView,
    account_views: &Vec<AccountRef>,
) -> (r: Result<(), ProgramError>)
    requires
        bound <= MAX_STATIC_CPI_ACCOUNTS,
    ensures
        r == spec_invoke_signed_with_bounds(
            bound as nat,
            instruction@,
            spec_refs(account_views@),
        ),
        r is Ok ==> final(cpi)@ == old(cpi)@.push(instruction@),
        r is Err ==> final(cpi)@ == old(cpi)@,
        r is Ok ==> final(cpi).spec_signer_log() == old(cpi).spec_signer_log().push(
            spec_signer_sets(Seq::<Signer>::empty()),
        ),
        r is Err ==> final(cpi).spec_signer_log() == old(cpi).spec_signer_log(),
{
    invoke_signed_with_bounds(cpi, bound, instruction, account_views, &Vec::new())
}

/// Invoke a cross-program instruction under an explicit capacity bound,
/// asserting derived-address authority through the given signer seed sets.
pub fn invoke_signed_with_bounds(
    cpi: &mut Cpi,
    bound: usize,
    instruction: InstructionView,
    account_views: &Vec<AccountRef>,
    signers: &Vec<Signer>,
) -> (r: Result<(), ProgramError>)
    requires
        bound <= MAX_STATIC_CPI_ACCOUNTS,
    ensures
        r == spec_invoke_signed_with_bounds(
            bound as nat,
            instruction@,
            spec_refs(account_views@),
        ),
        r is Ok ==> final(cpi)@ == old(cpi)@.push(instruction@),
        r is Err ==> final(cpi)@ == old(cpi)@,
        r is Ok ==> final(cpi).spec_signer_log() == old(cpi).spec_signer_log().push(
            spec_signer_sets(signers@),
        ),
        r is Err ==> final(cpi).spec_signer_log() == old(cpi).spec_signer_log(),
{
    if bound < instruction.accounts.len() {
        return Err(ProgramError::InvalidArgument);
    }
    invoke_inner(cpi, instruction, account_views, signers)
}

} // verus!

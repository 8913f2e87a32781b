//! The system program: account creation, lamport transfer and ownership
//! assignment, and the funded-creation composition built from them.
//!
//! Invoking the system program both issues a call through the invocation
//! layer and changes the accounts involved; the change each instruction
//! makes is the host's documented behaviour of the system program, stated
//! here as part of each builder's contract.

use vstd::prelude::*;

use crate::account::{spec_resize, Account, AccountModel, Resize, MAX_PERMITTED_DATA_INCREASE};
use crate::address::{system_program_id, Address};
use crate::builder::{push_address, push_u32_le, push_u64_le, spec_u32_le, spec_u64_le};
use crate::cpi::{invoke_signed, spec_check_accounts, spec_refs, spec_signer_sets, Cpi};
use crate::error::ProgramError;
use crate::instruction::{
    AccountRef, InstructionAccount, InstructionAccountModel, InstructionView,
    InstructionViewModel, Signer,
};

verus! {

/// Largest data size the host permits for a newly created account.
pub const MAX_PERMITTED_DATA_LENGTH: u64 = 10485760;

/// System program error code: the account to create already holds lamports.
pub const SYSTEM_ERROR_ACCOUNT_IN_USE: u32 = 0;

/// System program error code: a transfer would leave a negative balance.
pub const SYSTEM_ERROR_NEGATIVE_LAMPORTS: u32 = 1;

/// System program error code: a requested data length is not permitted.
pub const SYSTEM_ERROR_INVALID_DATA_LENGTH: u32 = 3;

/// The system program's address as a byte sequence: 32 zero bytes.
pub open spec fn spec_system_program_id() -> Seq<u8> {
    Seq::new(32, |i: int| 0u8)
}

/// The exact wire form of a creation instruction.
pub open spec fn spec_create_account_ix(
    from_addr: Seq<u8>,
    to_addr: Seq<u8>,
    lamports: u64,
    space: u64,
    owner: Address,
) -> InstructionViewModel {
    InstructionViewModel {
        program_id: spec_system_program_id(),
        accounts: seq![
            InstructionAccountModel { address: from_addr, is_writable: true, is_signer: true },
            InstructionAccountModel { address: to_addr, is_writable: true, is_signer: true },
        ],
        data: spec_u32_le(CreateAccount::DISCRIMINATOR) + spec_u64_le(lamports) + spec_u64_le(
            space,
        ) + owner@,
    }
}

/// The exact wire form of an assignment instruction.
pub open spec fn spec_assign_ix(addr: Seq<u8>, owner: Address) -> InstructionViewModel {
    InstructionViewModel {
        program_id: spec_system_program_id(),
        accounts: seq![
            InstructionAccountModel { address: addr, is_writable: true, is_signer: true },
        ],
        data: spec_u32_le(Assign::DISCRIMINATOR) + owner@,
    }
}

/// The exact wire form of a transfer instruction.
pub open spec fn spec_transfer_ix(
    from_addr: Seq<u8>,
    to_addr: Seq<u8>,
    lamports: u64,
) -> InstructionViewModel {
    InstructionViewModel {
        program_id: spec_system_program_id(),
        accounts: seq![
            InstructionAccountModel { address: from_addr, is_writable: true, is_signer: true },
            InstructionAccountModel { address: to_addr, is_writable: true, is_signer: false },
        ],
        data: spec_u32_le(Transfer::DISCRIMINATOR) + spec_u64_le(lamports),
    }
}

/// What creating an account does: both accounts must be free of borrows,
/// the target must hold no lamports yet, the requested size must be
/// permitted, and the funding account must cover the deposit; then the
/// deposit moves, the target gets the owner and a freshly mapped region of
/// `space` zero bytes, and `space` becomes its original data length.
pub open spec fn spec_create_account_result(
    from: AccountModel,
    to: AccountModel,
    lamports: u64,
    space: u64,
    owner: Address,
) -> (AccountModel, AccountModel, Result<(), ProgramError>) {
    if !from.not_borrowed() || !to.not_borrowed() {
        (from, to, Err(ProgramError::AccountBorrowFailed))
    } else if to.lamports != 0 {
        (from, to, Err(ProgramError::Custom(SYSTEM_ERROR_ACCOUNT_IN_USE)))
    } else if space > MAX_PERMITTED_DATA_LENGTH {
        (from, to, Err(ProgramError::Custom(SYSTEM_ERROR_INVALID_DATA_LENGTH)))
    } else if from.lamports < lamports {
        (from, to, Err(ProgramError::Custom(SYSTEM_ERROR_NEGATIVE_LAMPORTS)))
    } else {
        (
            AccountModel { lamports: (from.lamports - lamports) as u64, ..from },
            AccountModel {
                lamports,
                owner: owner@,
                original_data_len: space as nat,
                data_len: space as nat,
                region: Seq::new((space + MAX_PERMITTED_DATA_INCREASE) as nat, |i: int| 0u8),
                ..to
            },
            Ok(()),
        )
    }
}

/// What a transfer does: both accounts must be free of borrows, the source
/// must cover the amount, and the destination balance must not overflow;
/// then the amount moves.
pub open spec fn spec_transfer_result(
    from: AccountModel,
    to: AccountModel,
    lamports: u64,
) -> (AccountModel, AccountModel, Result<(), ProgramError>) {
    if !from.not_borrowed() || !to.not_borrowed() {
        (from, to, Err(ProgramError::AccountBorrowFailed))
    } else if from.lamports < lamports {
        (from, to, Err(ProgramError::Custom(SYSTEM_ERROR_NEGATIVE_LAMPORTS)))
    } else if to.lamports + lamports > u64::MAX {
        (from, to, Err(ProgramError::ArithmeticOverflow))
    } else {
        (
            AccountModel { lamports: (from.lamports - lamports) as u64, ..from },
            AccountModel { lamports: (to.lamports + lamports) as u64, ..to },
            Ok(()),
        )
    }
}

/// What an assignment does: the account must be free of borrows; then it
/// gets the new owner.
pub open spec fn spec_assign_result(account: AccountModel, owner: Address) -> (
    AccountModel,
    Result<(), ProgramError>,
) {
    if !account.not_borrowed() {
        (account, Err(ProgramError::AccountBorrowFailed))
    } else {
        (AccountModel { owner: owner@, ..account }, Ok(()))
    }
}

/// Create a new account: transfer a deposit from a funding account, set the
/// owner and allocate the data space, atomically.
pub struct CreateAccount {
    /// Lamports to deposit into the created account.
    pub lamports: u64,
    /// Number of data bytes to allocate.
    pub space: u64,
    /// Program that will own the created account.
    pub owner: Address,
}

impl CreateAccount {
    /// Instruction discriminator of the system program.
    pub const DISCRIMINATOR: u32 = 0;

    /// Issue the instruction; `from` funds the account `to`.
    pub fn invoke(&self, from: &mut Account, to: &mut Account, cpi: &mut Cpi) -> (r: Result<
        (),
        ProgramError,
    >)
        requires
            old(from)@.wf(),
            old(to)@.wf(),
        ensures
            final(from)@.wf(),
            final(to)@.wf(),
            ({
                let (f2, t2, rr) = spec_create_account_result(
                    old(from)@,
                    old(to)@,
                    self.lamports,
                    self.space,
                    self.owner,
                );
                final(from)@ == f2 && final(to)@ == t2 && r == rr
            }),
            r is Ok ==> final(cpi)@ == old(cpi)@.push(
                spec_create_account_ix(
                    old(from)@.address,
                    old(to)@.address,
                    self.lamports,
                    self.space,
                    self.owner,
                ),
            ),
            r is Err ==> final(cpi)@ == old(cpi)@,
            r is Ok ==> final(cpi).spec_signer_log() == old(cpi).spec_signer_log().push(
                spec_signer_sets(Seq::<Signer>::empty()),
            ),
            r is Err ==> final(cpi).spec_signer_log() == old(cpi).spec_signer_log(),
    {
        self.invoke_signed(from, to, cpi, &Vec::new())
    }

    /// Issue the instruction, asserting derived-address authority through
    /// the given signer seed sets.
    pub fn invoke_signed(
        &self,
        from: &mut Account,
        to: &mut Account,
        cpi: &mut Cpi,
        signers: &Vec<Signer>,
    ) -> (r: Result<(), ProgramError>)
        requires
            old(from)@.wf(),
            old(to)@.wf(),
        ensures
            final(from)@.wf(),
            final(to)@.wf(),
            ({
                let (f2, t2, rr) = spec_create_account_result(
                    old(from)@,
                    old(to)@,
                    self.lamports,
                    self.space,
                    self.owner,
                );
                final(from)@ == f2 && final(to)@ == t2 && r == rr
            }),
            r is Ok ==> final(cpi)@ == old(cpi)@.push(
                spec_create_account_ix(
                    old(from)@.address,
                    old(to)@.address,
                    self.lamports,
                    self.space,
                    self.owner,
                ),
            ),
            r is Err ==> final(cpi)@ == old(cpi)@,
            r is Ok ==> final(cpi).spec_signer_log() == old(cpi).spec_signer_log().push(
                spec_signer_sets(signers@),
            ),
            r is Err ==> final(cpi).spec_signer_log() == old(cpi).spec_signer_log(),
    {
        if from.is_borrowed() || to.is_borrowed() {
            return Err(ProgramError::AccountBorrowFailed);
        }
        if to.lamports() != 0 {
            return Err(ProgramError::Custom(SYSTEM_ERROR_ACCOUNT_IN_USE));
        }
        if self.space > MAX_PERMITTED_DATA_LENGTH {
            return Err(ProgramError::Custom(SYSTEM_ERROR_INVALID_DATA_LENGTH));
        }
        if from.lamports() < self.lamports {
            return Err(ProgramError::Custom(SYSTEM_ERROR_NEGATIVE_LAMPORTS));
        }
        let mut accounts: Vec<InstructionAccount> = Vec::new();
        accounts.push(InstructionAccount::writable_signer(from.address()));
        accounts.push(InstructionAccount::writable_signer(to.address()));
        let mut refs: Vec<AccountRef> = Vec::new();
        refs.push(AccountRef::of_account(from));
        refs.push(AccountRef::of_account(to));
        let mut data: Vec<u8> = Vec::new();
        push_u32_le(&mut data, Self::DISCRIMINATOR);
        push_u64_le(&mut data, self.lamports);
        push_u64_le(&mut data, self.space);
        push_address(&mut data, &self.owner);
        let instruction = InstructionView { program_id: system_program_id(), accounts, data };
        let ghost ix = spec_create_account_ix(
            from@.address,
            to@.address,
            self.lamports,
            self.space,
            self.owner,
        );
        proof {
            assert(instruction@.program_id =~= ix.program_id);
            assert(instruction@.accounts =~= ix.accounts);
            assert(instruction@.data =~= ix.data);
            assert(instruction@ =~= ix);
            assert(spec_check_accounts(ix.accounts, spec_refs(refs@), 2) is Ok);
            assert(spec_check_accounts(ix.accounts, spec_refs(refs@), 1) is Ok);
            assert(spec_check_accounts(ix.accounts, spec_refs(refs@), 0) is Ok);
        }
        match invoke_signed(cpi, instruction, &refs, signers) {
            Err(e) => Err(e),
            Ok(()) => {
                let remaining = from.lamports() - self.lamports;
                from.set_lamports(remaining);
                to.set_lamports(self.lamports);
                to.assign(&self.owner);
                to.host_create(self.space as usize);
                Ok(())
            },
        }
    }
}

/// Assign an account to a new owner.
pub struct Assign {
    /// Program that will own the account.
    pub owner: Address,
}

impl Assign {
    /// Instruction discriminator of the system program.
    pub const DISCRIMINATOR: u32 = 1;

    /// Issue the instruction for the given account.
    pub fn invoke(&self, account: &mut Account, cpi: &mut Cpi) -> (r: Result<(), ProgramError>)
        requires
            old(account)@.wf(),
        ensures
            final(account)@.wf(),
            ({
                let (a2, rr) = spec_assign_result(old(account)@, self.owner);
                final(account)@ == a2 && r == rr
            }),
            r is Ok ==> final(cpi)@ == old(cpi)@.push(
                spec_assign_ix(old(account)@.address, self.owner),
            ),
            r is Err ==> final(cpi)@ == old(cpi)@,
            r is Ok ==> final(cpi).spec_signer_log() == old(cpi).spec_signer_log().push(
                spec_signer_sets(Seq::<Signer>::empty()),
            ),
            r is Err ==> final(cpi).spec_signer_log() == old(cpi).spec_signer_log(),
    {
        self.invoke_signed(account, cpi, &Vec::new())
    }

    /// Issue the instruction, asserting derived-address authority through
    /// the given signer seed sets.
    pub fn invoke_signed(&self, account: &mut Account, cpi: &mut Cpi, signers: &Vec<Signer>) -> (r:
        Result<(), ProgramError>)
        requires
            old(account)@.wf(),
        ensures
            final(account)@.wf(),
            ({
                let (a2, rr) = spec_assign_result(old(account)@, self.owner);
                final(account)@ == a2 && r == rr
            }),
            r is Ok ==> final(cpi)@ == old(cpi)@.push(
                spec_assign_ix(old(account)@.address, self.owner),
            ),
            r is Err ==> final(cpi)@ == old(cpi)@,
            r is Ok ==> final(cpi).spec_signer_log() == old(cpi).spec_signer_log().push(
                spec_signer_sets(signers@),
            ),
            r is Err ==> final(cpi).spec_signer_log() == old(cpi).spec_signer_log(),
    {
        if account.is_borrowed() {
            return Err(ProgramError::AccountBorrowFailed);
        }
        let mut accounts: Vec<InstructionAccount> = Vec::new();
        accounts.push(InstructionAccount::writable_signer(account.address()));
        let mut refs: Vec<AccountRef> = Vec::new();
        refs.push(AccountRef::of_account(account));
        let mut data: Vec<u8> = Vec::new();
        push_u32_le(&mut data, Self::DISCRIMINATOR);
        push_address(&mut data, &self.owner);
        let instruction = InstructionView { program_id: system_program_id(), accounts, data };
        let ghost ix = spec_assign_ix(account@.address, self.owner);
        proof {
            assert(instruction@.program_id =~= ix.program_id);
            assert(instruction@.accounts =~= ix.accounts);
            assert(instruction@.data =~= ix.data);
            assert(instruction@ =~= ix);
            assert(spec_check_accounts(ix.accounts, spec_refs(refs@), 1) is Ok);
            assert(spec_check_accounts(ix.accounts, spec_refs(refs@), 0) is Ok);
        }
        match invoke_signed(cpi, instruction, &refs, signers) {
            Err(e) => Err(e),
            Ok(()) => {
                account.assign(&self.owner);
                Ok(())
            },
        }
    }
}

/// Transfer lamports between accounts.
pub struct Transfer {
    /// Lamports to move from the source to the destination.
    pub lamports: u64,
}

impl Transfer {
    /// Instruction discriminator of the system program.
    pub const DISCRIMINATOR: u32 = 2;

    /// Issue the instruction; the amount moves from `from` to `to`.
    pub fn invoke(&self, from: &mut Account, to: &mut Account, cpi: &mut Cpi) -> (r: Result<
        (),
        ProgramError,
    >)
        requires
            old(from)@.wf(),
            old(to)@.wf(),
        ensures
            final(from)@.wf(),
            final(to)@.wf(),
            ({
                let (f2, t2, rr) = spec_transfer_result(old(from)@, old(to)@, self.lamports);
                final(from)@ == f2 && final(to)@ == t2 && r == rr
            }),
            r is Ok ==> final(cpi)@ == old(cpi)@.push(
                spec_transfer_ix(old(from)@.address, old(to)@.address, self.lamports),
            ),
            r is Err ==> final(cpi)@ == old(cpi)@,
            r is Ok ==> final(cpi).spec_signer_log() == old(cpi).spec_signer_log().push(
                spec_signer_sets(Seq::<Signer>::empty()),
            ),
            r is Err ==> final(cpi).spec_signer_log() == old(cpi).spec_signer_log(),
    {
        self.invoke_signed(from, to, cpi, &Vec::new())
    }

    /// Issue the instruction, asserting derived-address authority through
    /// the given signer seed sets.
    pub fn invoke_signed(
        &self,
        from: &mut Account,
        to: &mut Account,
        cpi: &mut Cpi,
        signers: &Vec<Signer>,
    ) -> (r: Result<(), ProgramError>)
        requires
            old(from)@.wf(),
            old(to)@.wf(),
        ensures
            final(from)@.wf(),
            final(to)@.wf(),
            ({
                let (f2, t2, rr) = spec_transfer_result(old(from)@, old(to)@, self.lamports);
                final(from)@ == f2 && final(to)@ == t2 && r == rr
            }),
            r is Ok ==> final(cpi)@ == old(cpi)@.push(
                spec_transfer_ix(old(from)@.address, old(to)@.address, self.lamports),
            ),
            r is Err ==> final(cpi)@ == old(cpi)@,
            r is Ok ==> final(cpi).spec_signer_log() == old(cpi).spec_signer_log().push(
                spec_signer_sets(signers@),
            ),
            r is Err ==> final(cpi).spec_signer_log() == old(cpi).spec_signer_log(),
    {
        if from.is_borrowed() || to.is_borrowed() {
            return Err(ProgramError::AccountBorrowFailed);
        }
        if from.lamports() < self.lamports {
            return Err(ProgramError::Custom(SYSTEM_ERROR_NEGATIVE_LAMPORTS));
        }
        if self.lamports > u64::MAX - to.lamports() {
            return Err(ProgramError::ArithmeticOverflow);
        }
        let mut accounts: Vec<InstructionAccount> = Vec::new();
        accounts.push(InstructionAccount::writable_signer(from.address()));
        accounts.push(InstructionAccount::writable(to.address()));
        let mut refs: Vec<AccountRef> = Vec::new();
        refs.push(AccountRef::of_account(from));
        refs.push(AccountRef::of_account(to));
        let mut data: Vec<u8> = Vec::new();
        push_u32_le(&mut data, Self::DISCRIMINATOR);
        push_u64_le(&mut data, self.lamports);
        let instruction = InstructionView { program_id: system_program_id(), accounts, data };
        let ghost ix = spec_transfer_ix(from@.address, to@.address, self.lamports);
        proof {
            assert(instruction@.program_id =~= ix.program_id);
            assert(instruction@.accounts =~= ix.accounts);
            assert(instruction@.data =~= ix.data);
            assert(instruction@ =~= ix);
            assert(spec_check_accounts(ix.accounts, spec_refs(refs@), 2) is Ok);
            assert(spec_check_accounts(ix.accounts, spec_refs(refs@), 1) is Ok);
            assert(spec_check_accounts(ix.accounts, spec_refs(refs@), 0) is Ok);
        }
        match invoke_signed(cpi, instruction, &refs, signers) {
            Err(e) => Err(e),
            Ok(()) => {
                let remaining = from.lamports() - self.lamports;
                from.set_lamports(remaining);
                let total = to.lamports() + self.lamports;
                to.set_lamports(total);
                Ok(())
            },
        }
    }
}

/// The outcome of the funded-creation composition: the final states of the
/// target and payer accounts, the calls issued, and the result.
///
/// A target holding no lamports is created fresh by one creation call.
/// Otherwise any lamport shortfall against the required minimum is
/// transferred from the payer, ownership is reassigned, and the data is
/// resized to the requested space — in that order, because resizing is only
/// legitimate once the account is owned.
pub open spec fn spec_create_account_with_minimum_balance(
    account: AccountModel,
    payer: AccountModel,
    space: usize,
    owner: Address,
    minimum_balance: u64,
) -> (AccountModel, AccountModel, Seq<InstructionViewModel>, Result<(), ProgramError>) {
    if account.lamports == 0 {
        let (p2, a2, r) = spec_create_account_result(
            payer,
            account,
            minimum_balance,
            space as u64,
            owner,
        );
        if r is Ok {
            (
                a2,
                p2,
                seq![
                    spec_create_account_ix(
                        payer.address,
                        account.address,
                        minimum_balance,
                        space as u64,
                        owner,
                    ),
                ],
                r,
            )
        } else {
            (a2, p2, Seq::<InstructionViewModel>::empty(), r)
        }
    } else {
        let required = if minimum_balance >= account.lamports {
            (minimum_balance - account.lamports) as u64
        } else {
            0u64
        };
        let (p2, a2, calls1, r1) = if required > 0 {
            let (pp, aa, rr) = spec_transfer_result(payer, account, required);
            if rr is Ok {
                (pp, aa, seq![spec_transfer_ix(payer.address, account.address, required)], rr)
            } else {
                (pp, aa, Seq::<InstructionViewModel>::empty(), rr)
            }
        } else {
            (payer, account, Seq::<InstructionViewModel>::empty(), Ok(()))
        };
        if r1 is Err {
            (a2, p2, calls1, r1)
        } else {
            let (a3, r2) = spec_assign_result(a2, owner);
            if r2 is Err {
                (a2, p2, calls1, r2)
            } else {
                let calls2 = calls1.push(spec_assign_ix(a2.address, owner));
                let (a4, r3) = spec_resize(a3, space as nat);
                (a4, p2, calls2, r3)
            }
        }
    }
}

/// Create an account with a minimum balance, funding it from `payer`.
///
/// `minimum_balance` is the lamport balance the account must hold to be
/// rent-exempt for `space` bytes, computed by the caller from the rent
/// parameters in force.
pub fn create_account_with_minimum_balance(
    account: &mut Account,
    space: usize,
    owner: &Address,
    payer: &mut Account,
    minimum_balance: u64,
    cpi: &mut Cpi,
) -> (r: Result<(), ProgramError>)
    requires
        old(account)@.wf(),
        old(payer)@.wf(),
    ensures
        final(account)@.wf(),
        final(payer)@.wf(),
        ({
            let (a2, p2, calls, rr) = spec_create_account_with_minimum_balance(
                old(account)@,
                old(payer)@,
                space,
                *owner,
                minimum_balance,
            );
            &&& final(account)@ == a2
            &&& final(payer)@ == p2
            &&& final(cpi)@ == old(cpi)@ + calls
            &&& final(cpi).spec_signer_log() == old(cpi).spec_signer_log() + Seq::new(
                calls.len(),
                |i: int| spec_signer_sets(Seq::<Signer>::empty()),
            )
            &&& r == rr
        }),
{
    let no_signers: Vec<Signer> = Vec::new();
    let r = create_account_with_minimum_balance_signed(
        account,
        space,
        owner,
        payer,
        minimum_balance,
        &no_signers,
        cpi,
    );
    proof {
        let (a2, p2, calls, rr) = spec_create_account_with_minimum_balance(
            old(account)@,
            old(payer)@,
            space,
            *owner,
            minimum_balance,
        );
        assert(Seq::new(calls.len(), |i: int| spec_signer_sets(no_signers@)) =~= Seq::new(
            calls.len(),
            |i: int| spec_signer_sets(Seq::<Signer>::empty()),
        ));
    }
    r
}

/// Create an account with a minimum balance, funding it from `payer`.
///
/// When creating a program-derived account, the derivation seed sets are
/// provided via `signers`. If the account holds no lamports it is created
/// fresh by a single creation call; otherwise any shortfall is transferred
/// from the payer, ownership is reassigned to `owner`, and the data is
/// resized to `space` — valid in that order because the reassignment call
/// leaves no outstanding borrow on the account.
pub fn create_account_with_minimum_balance_signed(
    account: &mut Account,
    space: usize,
    owner: &Address,
    payer: &mut Account,
    minimum_balance: u64,
    signers: &Vec<Signer>,
    cpi: &mut Cpi,
) -> (r: Result<(), ProgramError>)
    requires
        old(account)@.wf(),
        old(payer)@.wf(),
    ensures
        final(account)@.wf(),
        final(payer)@.wf(),
        ({
            let (a2, p2, calls, rr) = spec_create_account_with_minimum_balance(
                old(account)@,
                old(payer)@,
                space,
                *owner,
                minimum_balance,
            );
            &&& final(account)@ == a2
            &&& final(payer)@ == p2
            &&& final(cpi)@ == old(cpi)@ + calls
            &&& final(cpi).spec_signer_log() == old(cpi).spec_signer_log() + Seq::new(
                calls.len(),
                |i: int| spec_signer_sets(signers@),
            )
            &&& r == rr
        }),
{
    let ghost cpi0 = cpi@;
    let ghost slog0 = cpi.spec_signer_log();
    if account.lamports() == 0 {
        let r = (CreateAccount { lamports: minimum_balance, space: space as u64, owner: *owner })
            .invoke_signed(payer, account, cpi, signers);
        proof {
            if r is Ok {
                assert(cpi@ =~= cpi0 + seq![
                    spec_create_account_ix(
                        old(payer)@.address,
                        old(account)@.address,
                        minimum_balance,
                        space as u64,
                        *owner,
                    ),
                ]);
                assert(cpi.spec_signer_log() =~= slog0 + Seq::new(
                    1,
                    |i: int| spec_signer_sets(signers@),
                ));
            } else {
                assert(cpi@ =~= cpi0 + Seq::<InstructionViewModel>::empty());
                assert(cpi.spec_signer_log() =~= slog0 + Seq::new(
                    0,
                    |i: int| spec_signer_sets(signers@),
                ));
            }
        }
        r
    } else {
        let required = if minimum_balance >= account.lamports() {
            minimum_balance - account.lamports()
        } else {
            0
        };
        let ghost mut calls1: Seq<InstructionViewModel> = Seq::empty();
        if required > 0 {
            match (Transfer { lamports: required }).invoke_signed(payer, account, cpi, signers) {
                Ok(()) => {
                    proof {
                        calls1 = seq![
                            spec_transfer_ix(old(payer)@.address, old(account)@.address, required),
                        ];
                    }
                },
                Err(e) => {
                    proof {
                        assert(cpi@ =~= cpi0 + Seq::<InstructionViewModel>::empty());
                        assert(cpi.spec_signer_log() =~= slog0 + Seq::new(
                            0,
                            |i: int| spec_signer_sets(signers@),
                        ));
                    }
                    return Err(e);
                },
            }
        }
        proof {
            assert(cpi@ =~= cpi0 + calls1);
            assert(cpi.spec_signer_log() =~= slog0 + Seq::new(
                calls1.len(),
                |i: int| spec_signer_sets(signers@),
            ));
        }
        let ghost assign_target = account@;
        match (Assign { owner: *owner }).invoke_signed(account, cpi, signers) {
            Ok(()) => {},
            Err(e) => {
                proof {
                    assert(cpi@ =~= cpi0 + calls1);
                    assert(cpi.spec_signer_log() =~= slog0 + Seq::new(
                        calls1.len(),
                        |i: int| spec_signer_sets(signers@),
                    ));
                }
                return Err(e);
            },
        }
        let r = account.resize_unchecked(space);
        proof {
            assert(cpi@ =~= cpi0 + calls1.push(spec_assign_ix(assign_target.address, *owner)));
            assert(cpi.spec_signer_log() =~= slog0 + Seq::new(
                calls1.len() + 1,
                |i: int| spec_signer_sets(signers@),
            ));
        }
        r
    }
}

} // verus!

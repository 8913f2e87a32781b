//! Zero-copy descriptors of a cross-program call: the target program, the
//! ordered account list with privilege flags, and the raw data payload.

use vstd::prelude::*;

use crate::account::Account;
use crate::address::Address;

verus! {

/// Model of one entry of an instruction's account list.
#[verifier::ext_equal]
pub ghost struct InstructionAccountModel {
    /// Address of the account.
    pub address: Seq<u8>,
    /// Whether the account may be mutated by the invoked program.
    pub is_writable: bool,
    /// Whether the account signed the instruction.
    pub is_signer: bool,
}

/// Describes one account during instruction execution: its address and
/// whether the invoked program sees it as writable and/or as a signer.
#[derive(Clone, Copy)]
pub struct InstructionAccount {
    /// Address of the account.
    pub address: Address,
    /// Whether the account may be mutated by the invoked program.
    pub is_writable: bool,
    /// Whether the account signed the instruction.
    pub is_signer: bool,
}

impl View for InstructionAccount {
    type V = InstructionAccountModel;

    open spec fn view(&self) -> InstructionAccountModel {
        InstructionAccountModel {
            address: self.address@,
            is_writable: self.is_writable,
            is_signer: self.is_signer,
        }
    }
}

impl InstructionAccount {
    /// Creates a new `InstructionAccount`.
    pub fn new(address: &Address, is_writable: bool, is_signer: bool) -> (r: InstructionAccount)
        ensures
            r@ == (InstructionAccountModel { address: address@, is_writable, is_signer }),
    {
        InstructionAccount { address: *address, is_writable, is_signer }
    }

    /// Creates a new read-only `InstructionAccount`.
    pub fn readonly(address: &Address) -> (r: InstructionAccount)
        ensures
            r@ == (InstructionAccountModel {
                address: address@,
                is_writable: false,
                is_signer: false,
            }),
    {
        Self::new(address, false, false)
    }

    /// Creates a new writable `InstructionAccount`.
    pub fn writable(address: &Address) -> (r: InstructionAccount)
        ensures
            r@ == (InstructionAccountModel {
                address: address@,
                is_writable: true,
                is_signer: false,
            }),
    {
        Self::new(address, true, false)
    }

    /// Creates a new read-only and signer `InstructionAccount`.
    pub fn readonly_signer(address: &Address) -> (r: InstructionAccount)
        ensures
            r@ == (InstructionAccountModel {
                address: address@,
                is_writable: false,
                is_signer: true,
            }),
    {
        Self::new(address, false, true)
    }

    /// Creates a new writable and signer `InstructionAccount`.
    pub fn writable_signer(address: &Address) -> (r: InstructionAccount)
        ensures
            r@ == (InstructionAccountModel {
                address: address@,
                is_writable: true,
                is_signer: true,
            }),
    {
        Self::new(address, true, true)
    }
}

/// Model of a whole instruction.
#[verifier::ext_equal]
pub ghost struct InstructionViewModel {
    /// Address of the program to execute.
    pub program_id: Seq<u8>,
    /// Metadata describing the accounts passed to the program, in order.
    pub accounts: Seq<InstructionAccountModel>,
    /// Data expected by the program instruction.
    pub data: Seq<u8>,
}

/// Information about an instruction: the target program, the ordered account
/// list, and the raw data payload. Constructed immediately before a call and
/// discarded after; never persisted.
pub struct InstructionView {
    /// Address of the program to execute.
    pub program_id: Address,
    /// Metadata describing the accounts passed to the program, in order.
    pub accounts: Vec<InstructionAccount>,
    /// Data expected by the program instruction.
    pub data: Vec<u8>,
}

impl View for InstructionView {
    type V = InstructionViewModel;

    open spec fn view(&self) -> InstructionViewModel {
        InstructionViewModel {
            program_id: self.program_id@,
            accounts: Seq::new(self.accounts@.len(), |i: int| self.accounts@[i]@),
            data: self.data@,
        }
    }
}

/// What the invocation layer reads of an account handed to it alongside an
/// instruction: the account's address and its borrow-state byte.
#[derive(Clone, Copy)]
pub struct AccountRef {
    /// Address of the account.
    pub address: Address,
    /// Borrow-state byte of the account; see [`crate::account::NOT_BORROWED`].
    pub borrow_state: u8,
}

/// Model of an [`AccountRef`].
#[verifier::ext_equal]
pub ghost struct AccountRefModel {
    /// Address of the account.
    pub address: Seq<u8>,
    /// Borrow-state byte of the account.
    pub borrow_state: u8,
}

impl View for AccountRef {
    type V = AccountRefModel;

    open spec fn view(&self) -> AccountRefModel {
        AccountRefModel { address: self.address@, borrow_state: self.borrow_state }
    }
}

impl AccountRef {
    /// Capture the invocation-relevant state of an account.
    pub fn of_account(account: &Account) -> (r: AccountRef)
        ensures
            r@.address == account@.address,
            r@.borrow_state == account@.borrow_state,
    {
        AccountRef { address: *account.address(), borrow_state: account.borrow_state() }
    }
}

/// An ordered list of byte-slice seeds proving authority over one
/// program-derived address during an invocation. Not a secret key: purely a
/// derivation claim that the host re-verifies.
pub struct Signer {
    /// The seed bytes, outermost list ordered as the derivation expects.
    pub seeds: Vec<Vec<u8>>,
}

impl View for Signer {
    type V = Seq<Seq<u8>>;

    open spec fn view(&self) -> Seq<Seq<u8>> {
        Seq::new(self.seeds@.len(), |i: int| self.seeds@[i]@)
    }
}

} // verus!

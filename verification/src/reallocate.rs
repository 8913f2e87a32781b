//! Instruction growing a token account to fit a list of extensions.

use vstd::prelude::*;

use crate::address::Address;
use crate::builder::{push_account, push_authority, refs_of, spec_authority_metas, spec_meta,
    MAX_MULTISIG_SIGNERS};
use crate::cpi::{invoke_signed_with_bounds, spec_invoke_signed_with_bounds, spec_refs, spec_signer_sets, Cpi};
use crate::error::ProgramError;
use crate::extensions::ExtensionDiscriminator;
use crate::instruction::{
    AccountRef, AccountRefModel, InstructionAccount, InstructionView, InstructionViewModel, Signer,
};

verus! {

/// Maximum number of extension codes one reallocation request can carry:
/// the payload is built in a fixed buffer of fifty bytes, one of which is
/// the discriminator.
pub const MAX_REALLOCATE_EXTENSIONS: usize = 49;

/// Check whether a token account is large enough for a list of extensions
/// and, if not, reallocate it to fit.
///
/// Accounts expected by this instruction:
///
///   * Single owner
///   0. `[writable]` The account to reallocate.
///   1. `[signer, writable]` The payer account to fund reallocation.
///   2. `[]` The system program for reallocation funding.
///   3. `[signer]` The account's owner.
///
///   * Multisignature owner
///   0. `[writable]` The account to reallocate.
///   1. `[signer, writable]` The payer account to fund reallocation.
///   2. `[]` The system program for reallocation funding.
///   3. `[]` The account's multisignature owner/delegate.
///   4. `..4+M` `[signer]` M signer accounts.
pub struct Reallocate {
    /// The account to reallocate.
    pub account: AccountRef,
    /// The payer account to fund reallocation.
    pub payer: AccountRef,
    /// The system program for reallocation funding.
    pub system_program: AccountRef,
    /// The account's owner or multisignature owner/delegate.
    pub owner: AccountRef,
    /// The signer accounts for a multisignature owner, if applicable.
    pub signers: Vec<AccountRef>,
    /// New extension types to include in the reallocated account.
    pub extensions: Vec<ExtensionDiscriminator>,
    /// The token program.
    pub token_program: Address,
}

impl Reallocate {
    /// Instruction discriminator of the token program.
    pub const DISCRIMINATOR: u8 = 29;

    /// The wire bytes of the extension list.
    pub open spec fn spec_extension_bytes(self) -> Seq<u8> {
        Seq::new(self.extensions@.len(), |i: int| self.extensions@[i].spec_byte())
    }

    /// The exact instruction this builder issues.
    pub open spec fn spec_instruction(self) -> InstructionViewModel {
        InstructionViewModel {
            program_id: self.token_program@,
            accounts: seq![
                spec_meta(self.account@, true, false),
                spec_meta(self.payer@, true, true),
                spec_meta(self.system_program@, false, false),
            ] + spec_authority_metas(self.owner@, refs_of(self.signers@)),
            data: seq![Self::DISCRIMINATOR] + self.spec_extension_bytes(),
        }
    }

    /// The account handles passed alongside the instruction, in order.
    pub open spec fn spec_account_refs(self) -> Seq<AccountRefModel> {
        seq![self.account@, self.payer@, self.system_program@, self.owner@] + refs_of(
            self.signers@,
        )
    }

    /// Creates a new `Reallocate` instruction with a single owner/delegate
    /// authority.
    pub fn new(
        token_program: &Address,
        account: AccountRef,
        payer: AccountRef,
        system_program: AccountRef,
        owner: AccountRef,
        extensions: Vec<ExtensionDiscriminator>,
    ) -> (r: Reallocate)
        ensures
            r.account == account,
            r.payer == payer,
            r.system_program == system_program,
            r.owner == owner,
            r.signers@ == Seq::<AccountRef>::empty(),
            r.extensions == extensions,
            r.token_program == *token_program,
    {
        Self::with_signers(
            token_program,
            account,
            payer,
            system_program,
            owner,
            extensions,
            Vec::new(),
        )
    }

    /// Creates a new `Reallocate` instruction with a multisignature
    /// owner/delegate authority and its signer accounts.
    pub fn with_signers(
        token_program: &Address,
        account: AccountRef,
        payer: AccountRef,
        system_program: AccountRef,
        owner: AccountRef,
        extensions: Vec<ExtensionDiscriminator>,
        signers: Vec<AccountRef>,
    ) -> (r: Reallocate)
        ensures
            r.account == account,
            r.payer == payer,
            r.system_program == system_program,
            r.owner == owner,
            r.signers == signers,
            r.extensions == extensions,
            r.token_program == *token_program,
    {
        Reallocate {
            account,
            payer,
            system_program,
            owner,
            signers,
            extensions,
            token_program: *token_program,
        }
    }

    /// Issue the instruction.
    pub fn invoke(&self, cpi: &mut Cpi) -> (r: Result<(), ProgramError>)
        ensures
            self.signers@.len() > MAX_MULTISIG_SIGNERS ==> r == Err::<(), ProgramError>(
                ProgramError::InvalidArgument,
            ),
            self.signers@.len() <= MAX_MULTISIG_SIGNERS && self.extensions@.len()
                > MAX_REALLOCATE_EXTENSIONS ==> r == Err::<(), ProgramError>(
                ProgramError::InvalidArgument,
            ),
            self.signers@.len() <= MAX_MULTISIG_SIGNERS && self.extensions@.len()
                <= MAX_REALLOCATE_EXTENSIONS ==> r == spec_invoke_signed_with_bounds(
                (4 + MAX_MULTISIG_SIGNERS) as nat,
                self.spec_instruction(),
                self.spec_account_refs(),
            ),
            r is Ok ==> final(cpi)@ == old(cpi)@.push(self.spec_instruction()),
            r is Err ==> final(cpi)@ == old(cpi)@,
            r is Ok ==> final(cpi).spec_signer_log() == old(cpi).spec_signer_log().push(
                spec_signer_sets(Seq::<Signer>::empty()),
            ),
            r is Err ==> final(cpi).spec_signer_log() == old(cpi).spec_signer_log(),
    {
        self.invoke_signed(cpi, &Vec::new())
    }

    /// Issue the instruction, asserting derived-address authority through
    /// the given signer seed sets.
    ///
    /// A multisignature signer list longer than [`MAX_MULTISIG_SIGNERS`],
    /// or an extension list longer than [`MAX_REALLOCATE_EXTENSIONS`], is
    /// rejected with an invalid-argument error before anything is built.
    pub fn invoke_signed(&self, cpi: &mut Cpi, signers: &Vec<Signer>) -> (r: Result<
        (),
        ProgramError,
    >)
        ensures
            self.signers@.len() > MAX_MULTISIG_SIGNERS ==> r == Err::<(), ProgramError>(
                ProgramError::InvalidArgument,
            ),
            self.signers@.len() <= MAX_MULTISIG_SIGNERS && self.extensions@.len()
                > MAX_REALLOCATE_EXTENSIONS ==> r == Err::<(), ProgramError>(
                ProgramError::InvalidArgument,
            ),
            self.signers@.len() <= MAX_MULTISIG_SIGNERS && self.extensions@.len()
                <= MAX_REALLOCATE_EXTENSIONS ==> r == spec_invoke_signed_with_bounds(
                (4 + MAX_MULTISIG_SIGNERS) as nat,
                self.spec_instruction(),
                self.spec_account_refs(),
            ),
            r is Ok ==> final(cpi)@ == old(cpi)@.push(self.spec_instruction()),
            r is Err ==> final(cpi)@ == old(cpi)@,
            r is Ok ==> final(cpi).spec_signer_log() == old(cpi).spec_signer_log().push(
                spec_signer_sets(signers@),
            ),
            r is Err ==> final(cpi).spec_signer_log() == old(cpi).spec_signer_log(),
    {
        if self.signers.len() > MAX_MULTISIG_SIGNERS {
            return Err(ProgramError::InvalidArgument);
        }
        if self.extensions.len() > MAX_REALLOCATE_EXTENSIONS {
            return Err(ProgramError::InvalidArgument);
        }
        let mut accounts: Vec<InstructionAccount> = Vec::new();
        let mut refs: Vec<AccountRef> = Vec::new();
        push_account(&mut accounts, &mut refs, &self.account, true, false);
        push_account(&mut accounts, &mut refs, &self.payer, true, true);
        push_account(&mut accounts, &mut refs, &self.system_program, false, false);
        push_authority(&mut accounts, &mut refs, &self.owner, &self.signers);
        let mut data: Vec<u8> = Vec::new();
        data.push(Self::DISCRIMINATOR);
        let mut i: usize = 0;
        while i < self.extensions.len()
            invariant
                0 <= i <= self.extensions@.len(),
                data@.len() == 1 + i,
                data@[0] == Self::DISCRIMINATOR,
                forall|j: int|
                    0 <= j < i ==> data@[1 + j] == #[trigger] self.extensions@[j].spec_byte(),
            decreases self.extensions@.len() - i,
        {
            data.push(self.extensions[i].byte());
            i = i + 1;
        }
        let instruction = InstructionView { program_id: self.token_program, accounts, data };
        proof {
            assert(instruction@.accounts =~= self.spec_instruction().accounts);
            assert(instruction@.data =~= self.spec_instruction().data);
            assert(instruction@ =~= self.spec_instruction());
            assert(spec_refs(refs@) =~= self.spec_account_refs());
        }
        invoke_signed_with_bounds(cpi, 4 + MAX_MULTISIG_SIGNERS, instruction, &refs, signers)
    }
}

} // verus!

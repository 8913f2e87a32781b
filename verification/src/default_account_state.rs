//! Instructions configuring the default state for new token accounts. Only
//! supported for mints that include the default-account-state extension.

use vstd::prelude::*;

use crate::address::Address;
use crate::builder::{
    push_account, push_authority, refs_of, spec_authority_metas, spec_meta, MAX_MULTISIG_SIGNERS,
};
use crate::cpi::{
    invoke, invoke_signed_with_bounds, spec_invoke_signed, spec_invoke_signed_with_bounds,
    spec_refs, spec_signer_sets, Cpi,
};
use crate::error::ProgramError;
use crate::extensions::{AccountState, ExtensionDiscriminator};
use crate::instruction::{
    AccountRef, AccountRefModel, InstructionAccount, InstructionView, InstructionViewModel, Signer,
};

verus! {

/// Initialize a new mint with a default state for new accounts.
///
/// Fails if the mint has already been initialized, so must be called before
/// the mint-initialization instruction.
///
/// Accounts expected by this instruction:
///
///   0. `[writable]` The mint to initialize.
pub struct Initialize {
    /// The mint to initialize.
    pub mint: AccountRef,
    /// The default account state in which new token accounts should be
    /// initialized.
    pub state: AccountState,
    /// The token program.
    pub token_program: Address,
}

impl Initialize {
    /// Instruction discriminator within the extension namespace.
    pub const DISCRIMINATOR: u8 = 0;

    /// The exact instruction this builder issues.
    pub open spec fn spec_instruction(self) -> InstructionViewModel {
        InstructionViewModel {
            program_id: self.token_program@,
            accounts: seq![spec_meta(self.mint@, true, false)],
            data: seq![
                ExtensionDiscriminator::DefaultAccountState.spec_byte(),
                Self::DISCRIMINATOR,
                self.state.spec_byte(),
            ],
        }
    }

    /// The account handles passed alongside the instruction, in order.
    pub open spec fn spec_account_refs(self) -> Seq<AccountRefModel> {
        seq![self.mint@]
    }

    /// Issue the instruction.
    pub fn invoke(&self, cpi: &mut Cpi) -> (r: Result<(), ProgramError>)
        ensures
            r == spec_invoke_signed(self.spec_instruction(), self.spec_account_refs()),
            r is Ok ==> final(cpi)@ == old(cpi)@.push(self.spec_instruction()),
            r is Err ==> final(cpi)@ == old(cpi)@,
            r is Ok ==> final(cpi).spec_signer_log() == old(cpi).spec_signer_log().push(
                spec_signer_sets(Seq::<Signer>::empty()),
            ),
            r is Err ==> final(cpi).spec_signer_log() == old(cpi).spec_signer_log(),
    {
        let mut accounts: Vec<InstructionAccount> = Vec::new();
        let mut refs: Vec<AccountRef> = Vec::new();
        push_account(&mut accounts, &mut refs, &self.mint, true, false);
        let mut data: Vec<u8> = Vec::new();
        data.push(ExtensionDiscriminator::DefaultAccountState.byte());
        data.push(Self::DISCRIMINATOR);
        data.push(self.state.byte());
        let instruction = InstructionView { program_id: self.token_program, accounts, data };
        proof {
            assert(instruction@.accounts =~= self.spec_instruction().accounts);
            assert(instruction@.data =~= self.spec_instruction().data);
            assert(instruction@ =~= self.spec_instruction());
            assert(spec_refs(refs@) =~= self.spec_account_refs());
        }
        invoke(cpi, instruction, &refs)
    }
}

/// Update the default state for new token accounts.
///
/// Accounts expected by this instruction:
///
///   * Single authority
///   0. `[writable]` The mint.
///   1. `[signer]` The mint freeze authority.
///
///   * Multisignature authority
///   0. `[writable]` The mint.
///   1. `[]` The mint's multisignature freeze authority.
///   2. `..2+M` `[signer]` M signer accounts.
pub struct Update {
    /// The mint.
    pub mint: AccountRef,
    /// The mint freeze authority.
    pub freeze_authority: AccountRef,
    /// The signer accounts if the authority is a multisig.
    pub multisig_signers: Vec<AccountRef>,
    /// The new account state in which new token accounts should be
    /// initialized.
    pub state: AccountState,
    /// The token program.
    pub token_program: Address,
}

impl Update {
    /// Instruction discriminator within the extension namespace.
    pub const DISCRIMINATOR: u8 = 1;

    /// The exact instruction this builder issues.
    pub open spec fn spec_instruction(self) -> InstructionViewModel {
        InstructionViewModel {
            program_id: self.token_program@,
            accounts: seq![spec_meta(self.mint@, true, false)] + spec_authority_metas(
                self.freeze_authority@,
                refs_of(self.multisig_signers@),
            ),
            data: seq![
                ExtensionDiscriminator::DefaultAccountState.spec_byte(),
                Self::DISCRIMINATOR,
                self.state.spec_byte(),
            ],
        }
    }

    /// The account handles passed alongside the instruction, in order.
    pub open spec fn spec_account_refs(self) -> Seq<AccountRefModel> {
        seq![self.mint@, self.freeze_authority@] + refs_of(self.multisig_signers@)
    }

    /// Creates a new `Update` instruction with a single authority.
    pub fn new(
        token_program: &Address,
        mint: AccountRef,
        freeze_authority: AccountRef,
        state: AccountState,
    ) -> (r: Update)
        ensures
            r.mint == mint,
            r.freeze_authority == freeze_authority,
            r.multisig_signers@ == Seq::<AccountRef>::empty(),
            r.state == state,
            r.token_program == *token_program,
    {
        Self::with_multisig_signers(token_program, mint, freeze_authority, state, Vec::new())
    }

    /// Creates a new `Update` instruction with a multisignature authority
    /// and its signer accounts.
    pub fn with_multisig_signers(
        token_program: &Address,
        mint: AccountRef,
        freeze_authority: AccountRef,
        state: AccountState,
        multisig_signers: Vec<AccountRef>,
    ) -> (r: Update)
        ensures
            r.mint == mint,
            r.freeze_authority == freeze_authority,
            r.multisig_signers == multisig_signers,
            r.state == state,
            r.token_program == *token_program,
    {
        Update { mint, freeze_authority, multisig_signers, state, token_program: *token_program }
    }

    /// Issue the instruction.
    pub fn invoke(&self, cpi: &mut Cpi) -> (r: Result<(), ProgramError>)
        ensures
            self.multisig_signers@.len() > MAX_MULTISIG_SIGNERS ==> r == Err::<(), ProgramError>(
                ProgramError::InvalidArgument,
            ),
            self.multisig_signers@.len() <= MAX_MULTISIG_SIGNERS ==> r
                == spec_invoke_signed_with_bounds(
                (2 + MAX_MULTISIG_SIGNERS) as nat,
                self.spec_instruction(),
                self.spec_account_refs(),
            ),
            r is Ok ==> final(cpi)@ == old(cpi)@.push(self.spec_instruction()),
            r is Err ==> final(cpi)@ == old(cpi)@,
            r is Ok ==> final(cpi).spec_signer_log() == old(cpi).spec_signer_log().push(
                spec_signer_sets(Seq::<Signer>::empty()),
            ),
            r is Err ==> final(cpi).spec_signer_log() == old(cpi).spec_signer_log(),
    {
        self.invoke_signed(cpi, &Vec::new())
    }

    /// Issue the instruction, asserting derived-address authority through
    /// the given signer seed sets.
    ///
    /// A multisignature signer list longer than [`MAX_MULTISIG_SIGNERS`] is
    /// rejected with an invalid-argument error before anything is built.
    pub fn invoke_signed(&self, cpi: &mut Cpi, signers: &Vec<Signer>) -> (r: Result<
        (),
        ProgramError,
    >)
        ensures
            self.multisig_signers@.len() > MAX_MULTISIG_SIGNERS ==> r == Err::<(), ProgramError>(
                ProgramError::InvalidArgument,
            ),
            self.multisig_signers@.len() <= MAX_MULTISIG_SIGNERS ==> r
                == spec_invoke_signed_with_bounds(
                (2 + MAX_MULTISIG_SIGNERS) as nat,
                self.spec_instruction(),
                self.spec_account_refs(),
            ),
            r is Ok ==> final(cpi)@ == old(cpi)@.push(self.spec_instruction()),
            r is Err ==> final(cpi)@ == old(cpi)@,
            r is Ok ==> final(cpi).spec_signer_log() == old(cpi).spec_signer_log().push(
                spec_signer_sets(signers@),
            ),
            r is Err ==> final(cpi).spec_signer_log() == old(cpi).spec_signer_log(),
    {
        if self.multisig_signers.len() > MAX_MULTISIG_SIGNERS {
            return Err(ProgramError::InvalidArgument);
        }
        let mut accounts: Vec<InstructionAccount> = Vec::new();
        let mut refs: Vec<AccountRef> = Vec::new();
        push_account(&mut accounts, &mut refs, &self.mint, true, false);
        push_authority(&mut accounts, &mut refs, &self.freeze_authority, &self.multisig_signers);
        let mut data: Vec<u8> = Vec::new();
        data.push(ExtensionDiscriminator::DefaultAccountState.byte());
        data.push(Self::DISCRIMINATOR);
        data.push(self.state.byte());
        let instruction = InstructionView { program_id: self.token_program, accounts, data };
        proof {
            assert(instruction@.accounts =~= self.spec_instruction().accounts);
            assert(instruction@.data =~= self.spec_instruction().data);
            assert(instruction@ =~= self.spec_instruction());
            assert(spec_refs(refs@) =~= self.spec_account_refs());
        }
        invoke_signed_with_bounds(cpi, 2 + MAX_MULTISIG_SIGNERS, instruction, &refs, signers)
    }
}

} // verus!

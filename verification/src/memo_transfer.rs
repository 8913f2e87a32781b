//! Instruction requiring memos for transfers into a token account.

use vstd::prelude::*;

use crate::address::Address;
use crate::builder::{
    push_account, push_authority, refs_of, spec_authority_metas, spec_meta, MAX_MULTISIG_SIGNERS,
};
use crate::cpi::{invoke_signed_with_bounds, spec_invoke_signed_with_bounds, spec_refs, spec_signer_sets, Cpi};
use crate::error::ProgramError;
use crate::extensions::ExtensionDiscriminator;
use crate::instruction::{
    AccountRef, AccountRefModel, InstructionAccount, InstructionView, InstructionViewModel, Signer,
};

verus! {

/// Require memos for transfers into this account, adding the memo-transfer
/// extension to the account if it does not already exist.
///
/// Accounts expected by this instruction:
///
///   * Single authority
///   0. `[writable]` The account to update.
///   1. `[signer]` The account's owner.
///
///   * Multisignature authority
///   0. `[writable]` The account to update.
///   1. `[]` The account's multisignature owner.
///   2. `..2+M` `[signer]` M signer accounts.
pub struct Enable {
    /// The account to update.
    pub account: AccountRef,
    /// The account's owner.
    pub authority: AccountRef,
    /// Signer accounts if the authority is a multisig.
    pub multisig_signers: Vec<AccountRef>,
    /// The token program.
    pub token_program: Address,
}

impl Enable {
    /// Instruction discriminator within the extension namespace.
    pub const DISCRIMINATOR: u8 = 0;

    /// The exact instruction this builder issues.
    pub open spec fn spec_instruction(self) -> InstructionViewModel {
        InstructionViewModel {
            program_id: self.token_program@,
            accounts: seq![spec_meta(self.account@, true, false)] + spec_authority_metas(
                self.authority@,
                refs_of(self.multisig_signers@),
            ),
            data: seq![
                ExtensionDiscriminator::MemoTransfer.spec_byte(),
                Self::DISCRIMINATOR,
            ],
        }
    }

    /// The account handles passed alongside the instruction, in order.
    pub open spec fn spec_account_refs(self) -> Seq<AccountRefModel> {
        seq![self.account@, self.authority@] + refs_of(self.multisig_signers@)
    }

    /// Creates a new `Enable` instruction with a single owner authority.
    pub fn new(token_program: &Address, account: AccountRef, authority: AccountRef) -> (r: Enable)
        ensures
            r.account == account,
            r.authority == authority,
            r.multisig_signers@ == Seq::<AccountRef>::empty(),
            r.token_program == *token_program,
    {
        Self::with_multisig_signers(token_program, account, authority, Vec::new())
    }

    /// Creates a new `Enable` instruction with a multisignature owner
    /// authority and its signer accounts.
    pub fn with_multisig_signers(
        token_program: &Address,
        account: AccountRef,
        authority: AccountRef,
        multisig_signers: Vec<AccountRef>,
    ) -> (r: Enable)
        ensures
            r.account == account,
            r.authority == authority,
            r.multisig_signers == multisig_signers,
            r.token_program == *token_program,
    {
        Enable { account, authority, multisig_signers, token_program: *token_program }
    }

    /// Issue the instruction.
    pub fn invoke(&self, cpi: &mut Cpi) -> (r: Result<(), ProgramError>)
        ensures
            self.multisig_signers@.len() > MAX_MULTISIG_SIGNERS ==> r == Err::<(), ProgramError>(
                ProgramError::InvalidArgument,
            ),
            self.multisig_signers@.len() <= MAX_MULTISIG_SIGNERS ==> r
                == spec_invoke_signed_with_bounds(
                (2 + MAX_MULTISIG_SIGNERS) as nat,
                self.spec_instruction(),
                self.spec_account_refs(),
            ),
            r is Ok ==> final(cpi)@ == old(cpi)@.push(self.spec_instruction()),
            r is Err ==> final(cpi)@ == old(cpi)@,
            r is Ok ==> final(cpi).spec_signer_log() == old(cpi).spec_signer_log().push(
                spec_signer_sets(Seq::<Signer>::empty()),
            ),
            r is Err ==> final(cpi).spec_signer_log() == old(cpi).spec_signer_log(),
    {
        self.invoke_signed(cpi, &Vec::new())
    }

    /// Issue the instruction, asserting derived-address authority through
    /// the given signer seed sets.
    ///
    /// A multisignature signer list longer than [`MAX_MULTISIG_SIGNERS`] is
    /// rejected with an invalid-argument error before anything is built.
    pub fn invoke_signed(&self, cpi: &mut Cpi, signers: &Vec<Signer>) -> (r: Result<
        (),
        ProgramError,
    >)
        ensures
            self.multisig_signers@.len() > MAX_MULTISIG_SIGNERS ==> r == Err::<(), ProgramError>(
                ProgramError::InvalidArgument,
            ),
            self.multisig_signers@.len() <= MAX_MULTISIG_SIGNERS ==> r
                == spec_invoke_signed_with_bounds(
                (2 + MAX_MULTISIG_SIGNERS) as nat,
                self.spec_instruction(),
                self.spec_account_refs(),
            ),
            r is Ok ==> final(cpi)@ == old(cpi)@.push(self.spec_instruction()),
            r is Err ==> final(cpi)@ == old(cpi)@,
            r is Ok ==> final(cpi).spec_signer_log() == old(cpi).spec_signer_log().push(
                spec_signer_sets(signers@),
            ),
            r is Err ==> final(cpi).spec_signer_log() == old(cpi).spec_signer_log(),
    {
        if self.multisig_signers.len() > MAX_MULTISIG_SIGNERS {
            return Err(ProgramError::InvalidArgument);
        }
        let mut accounts: Vec<InstructionAccount> = Vec::new();
        let mut refs: Vec<AccountRef> = Vec::new();
        push_account(&mut accounts, &mut refs, &self.account, true, false);
        push_authority(&mut accounts, &mut refs, &self.authority, &self.multisig_signers);
        let mut data: Vec<u8> = Vec::new();
        data.push(ExtensionDiscriminator::MemoTransfer.byte());
        data.push(Self::DISCRIMINATOR);
        let instruction = InstructionView { program_id: self.token_program, accounts, data };
        proof {
            assert(instruction@.accounts =~= self.spec_instruction().accounts);
            assert(instruction@.data =~= self.spec_instruction().data);
            assert(instruction@ =~= self.spec_instruction());
            assert(spec_refs(refs@) =~= self.spec_account_refs());
        }
        invoke_signed_with_bounds(cpi, 2 + MAX_MULTISIG_SIGNERS, instruction, &refs, signers)
    }
}

} // verus!

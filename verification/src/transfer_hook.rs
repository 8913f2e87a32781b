//! Instructions configuring the transfer hook of a mint.

use vstd::prelude::*;

use crate::address::Address;
use crate::builder::{
    push_account, push_address_or_zeros, push_authority, refs_of, spec_address_or_zeros,
    spec_authority_metas, spec_meta, MAX_MULTISIG_SIGNERS,
};
use crate::cpi::{
    invoke, invoke_signed_with_bounds, spec_invoke_signed, spec_invoke_signed_with_bounds,
    spec_refs, spec_signer_sets, Cpi,
};
use crate::error::ProgramError;
use crate::extensions::ExtensionDiscriminator;
use crate::instruction::{
    AccountRef, AccountRefModel, InstructionAccount, InstructionView, InstructionViewModel, Signer,
};

verus! {

/// Initialize a new mint with a transfer hook.
///
/// Fails if the mint has already been initialized, so must be called before
/// the mint-initialization instruction.
///
/// Accounts expected by this instruction:
///
///   0. `[writable]` The mint to initialize.
pub struct InitializeTransferHook {
    /// The mint to initialize.
    pub mint: AccountRef,
    /// The account that can update the hook program address, if any.
    pub authority: Option<Address>,
    /// The program called on every transfer of the mint, if any.
    pub program_id: Option<Address>,
    /// The token program.
    pub token_program: Address,
}

impl InitializeTransferHook {
    /// Instruction discriminator within the extension namespace.
    pub const DISCRIMINATOR: u8 = 0;

    /// The exact instruction this builder issues.
    pub open spec fn spec_instruction(self) -> InstructionViewModel {
        InstructionViewModel {
            program_id: self.token_program@,
            accounts: seq![spec_meta(self.mint@, true, false)],
            data: seq![
                ExtensionDiscriminator::TransferHook.spec_byte(),
                Self::DISCRIMINATOR,
            ] + spec_address_or_zeros(self.authority) + spec_address_or_zeros(self.program_id),
        }
    }

    /// The account handles passed alongside the instruction, in order.
    pub open spec fn spec_account_refs(self) -> Seq<AccountRefModel> {
        seq![self.mint@]
    }

    /// Issue the instruction.
    pub fn invoke(&self, cpi: &mut Cpi) -> (r: Result<(), ProgramError>)
        ensures
            r == spec_invoke_signed(self.spec_instruction(), self.spec_account_refs()),
            r is Ok ==> final(cpi)@ == old(cpi)@.push(self.spec_instruction()),
            r is Err ==> final(cpi)@ == old(cpi)@,
            r is Ok ==> final(cpi).spec_signer_log() == old(cpi).spec_signer_log().push(
                spec_signer_sets(Seq::<Signer>::empty()),
            ),
            r is Err ==> final(cpi).spec_signer_log() == old(cpi).spec_signer_log(),
    {
        let mut accounts: Vec<InstructionAccount> = Vec::new();
        let mut refs: Vec<AccountRef> = Vec::new();
        push_account(&mut accounts, &mut refs, &self.mint, true, false);
        let mut data: Vec<u8> = Vec::new();
        data.push(ExtensionDiscriminator::TransferHook.byte());
        data.push(Self::DISCRIMINATOR);
        push_address_or_zeros(&mut data, &self.authority);
        push_address_or_zeros(&mut data, &self.program_id);
        let instruction = InstructionView { program_id: self.token_program, accounts, data };
        proof {
            assert(instruction@.accounts =~= self.spec_instruction().accounts);
            assert(instruction@.data =~= self.spec_instruction().data);
            assert(instruction@ =~= self.spec_instruction());
            assert(spec_refs(refs@) =~= self.spec_account_refs());
        }
        invoke(cpi, instruction, &refs)
    }
}

/// Update the transfer-hook program of a mint. Setting no program clears
/// the hook.
///
/// Accounts expected by this instruction:
///
///   * Single authority
///   0. `[writable]` The mint.
///   1. `[signer]` The transfer hook authority.
///
///   * Multisignature authority
///   0. `[writable]` The mint.
///   1. `[]` The mint's transfer hook multisignature authority.
///   2. `..2+M` `[signer]` M signer accounts.
pub struct UpdateTransferHook {
    /// The mint.
    pub mint: AccountRef,
    /// The transfer hook authority.
    pub authority: AccountRef,
    /// Signer accounts if the authority is a multisig.
    pub multisig_signers: Vec<AccountRef>,
    /// The new program called on every transfer of the mint, if any.
    pub transfer_hook_program: Option<Address>,
    /// The token program.
    pub token_program: Address,
}

impl UpdateTransferHook {
    /// Instruction discriminator within the extension namespace.
    pub const DISCRIMINATOR: u8 = 1;

    /// The exact instruction this builder issues.
    pub open spec fn spec_instruction(self) -> InstructionViewModel {
        InstructionViewModel {
            program_id: self.token_program@,
            accounts: seq![spec_meta(self.mint@, true, false)] + spec_authority_metas(
                self.authority@,
                refs_of(self.multisig_signers@),
            ),
            data: seq![
                ExtensionDiscriminator::TransferHook.spec_byte(),
                Self::DISCRIMINATOR,
            ] + spec_address_or_zeros(self.transfer_hook_program),
        }
    }

    /// The account handles passed alongside the instruction, in order.
    pub open spec fn spec_account_refs(self) -> Seq<AccountRefModel> {
        seq![self.mint@, self.authority@] + refs_of(self.multisig_signers@)
    }

    /// Creates a new `UpdateTransferHook` instruction with a single
    /// authority.
    pub fn new(
        token_program: &Address,
        mint: AccountRef,
        authority: AccountRef,
        transfer_hook_program: Option<Address>,
    ) -> (r: UpdateTransferHook)
        ensures
            r.mint == mint,
            r.authority == authority,
            r.multisig_signers@ == Seq::<AccountRef>::empty(),
            r.transfer_hook_program == transfer_hook_program,
            r.token_program == *token_program,
    {
        Self::with_multisig_signers(
            token_program,
            mint,
            authority,
            transfer_hook_program,
            Vec::new(),
        )
    }

    /// Creates a new `UpdateTransferHook` instruction with a multisignature
    /// authority and its signer accounts.
    pub fn with_multisig_signers(
        token_program: &Address,
        mint: AccountRef,
        authority: AccountRef,
        transfer_hook_program: Option<Address>,
        multisig_signers: Vec<AccountRef>,
    ) -> (r: UpdateTransferHook)
        ensures
            r.mint == mint,
            r.authority == authority,
            r.multisig_signers == multisig_signers,
            r.transfer_hook_program == transfer_hook_program,
            r.token_program == *token_program,
    {
        UpdateTransferHook {
            mint,
            authority,
            multisig_signers,
            transfer_hook_program,
            token_program: *token_program,
        }
    }

    /// Issue the instruction.
    pub fn invoke(&self, cpi: &mut Cpi) -> (r: Result<(), ProgramError>)
        ensures
            self.multisig_signers@.len() > MAX_MULTISIG_SIGNERS ==> r == Err::<(), ProgramError>(
                ProgramError::InvalidArgument,
            ),
            self.multisig_signers@.len() <= MAX_MULTISIG_SIGNERS ==> r
                == spec_invoke_signed_with_bounds(
                (2 + MAX_MULTISIG_SIGNERS) as nat,
                self.spec_instruction(),
                self.spec_account_refs(),
            ),
            r is Ok ==> final(cpi)@ == old(cpi)@.push(self.spec_instruction()),
            r is Err ==> final(cpi)@ == old(cpi)@,
            r is Ok ==> final(cpi).spec_signer_log() == old(cpi).spec_signer_log().push(
                spec_signer_sets(Seq::<Signer>::empty()),
            ),
            r is Err ==> final(cpi).spec_signer_log() == old(cpi).spec_signer_log(),
    {
        self.invoke_signed(cpi, &Vec::new())
    }

    /// Issue the instruction, asserting derived-address authority through
    /// the given signer seed sets.
    ///
    /// A multisignature signer list longer than [`MAX_MULTISIG_SIGNERS`] is
    /// rejected with an invalid-argument error before anything is built.
    pub fn invoke_signed(&self, cpi: &mut Cpi, signers: &Vec<Signer>) -> (r: Result<
        (),
        ProgramError,
    >)
        ensures
            self.multisig_signers@.len() > MAX_MULTISIG_SIGNERS ==> r == Err::<(), ProgramError>(
                ProgramError::InvalidArgument,
            ),
            self.multisig_signers@.len() <= MAX_MULTISIG_SIGNERS ==> r
                == spec_invoke_signed_with_bounds(
                (2 + MAX_MULTISIG_SIGNERS) as nat,
                self.spec_instruction(),
                self.spec_account_refs(),
            ),
            r is Ok ==> final(cpi)@ == old(cpi)@.push(self.spec_instruction()),
            r is Err ==> final(cpi)@ == old(cpi)@,
            r is Ok ==> final(cpi).spec_signer_log() == old(cpi).spec_signer_log().push(
                spec_signer_sets(signers@),
            ),
            r is Err ==> final(cpi).spec_signer_log() == old(cpi).spec_signer_log(),
    {
        if self.multisig_signers.len() > MAX_MULTISIG_SIGNERS {
            return Err(ProgramError::InvalidArgument);
        }
        let mut accounts: Vec<InstructionAccount> = Vec::new();
        let mut refs: Vec<AccountRef> = Vec::new();
        push_account(&mut accounts, &mut refs, &self.mint, true, false);
        push_authority(&mut accounts, &mut refs, &self.authority, &self.multisig_signers);
        let mut data: Vec<u8> = Vec::new();
        data.push(ExtensionDiscriminator::TransferHook.byte());
        data.push(Self::DISCRIMINATOR);
        push_address_or_zeros(&mut data, &self.transfer_hook_program);
        let instruction = InstructionView { program_id: self.token_program, accounts, data };
        proof {
            assert(instruction@.accounts =~= self.spec_instruction().accounts);
            assert(instruction@.data =~= self.spec_instruction().data);
            assert(instruction@ =~= self.spec_instruction());
            assert(spec_refs(refs@) =~= self.spec_account_refs());
        }
        invoke_signed_with_bounds(cpi, 2 + MAX_MULTISIG_SIGNERS, instruction, &refs, signers)
    }
}

} // verus!

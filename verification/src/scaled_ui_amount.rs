//! Instructions configuring scaled UI amounts on a mint.
//!
//! The multiplier travels on the wire as an 8-byte little-endian encoding of
//! a binary floating-point value. This layer treats those bytes as opaque:
//! callers hand the encoding in, already produced from the numeric value.

use vstd::prelude::*;

use crate::address::Address;
use crate::builder::{
    push_account, push_address_or_zeros, push_authority, push_bytes8, push_i64_le, refs_of,
    spec_address_or_zeros, spec_authority_metas, spec_i64_le, spec_meta, MAX_MULTISIG_SIGNERS,
};
use crate::cpi::{
    invoke, invoke_signed_with_bounds, spec_invoke_signed, spec_invoke_signed_with_bounds,
    spec_refs, spec_signer_sets, Cpi,
};
use crate::error::ProgramError;
use crate::extensions::ExtensionDiscriminator;
use crate::instruction::{
    AccountRef, AccountRefModel, InstructionAccount, InstructionView, InstructionViewModel, Signer,
};

verus! {

/// Initialize a new mint with scaled UI amounts.
///
/// Fails if the mint has already been initialized, so must be called before
/// the mint-initialization instruction.
///
/// Accounts expected by this instruction:
///
///   0. `[writable]` The mint to initialize.
pub struct Initialize {
    /// The mint to initialize.
    pub mint_account: AccountRef,
    /// The account that can update the multiplier, if any.
    pub authority: Option<Address>,
    /// The 8-byte wire encoding of the initial multiplier.
    pub multiplier: [u8; 8],
    /// The token program.
    pub token_program: Address,
}

impl Initialize {
    /// Instruction discriminator within the extension namespace.
    pub const DISCRIMINATOR: u8 = 0;

    /// The exact instruction this builder issues.
    pub open spec fn spec_instruction(self) -> InstructionViewModel {
        InstructionViewModel {
            program_id: self.token_program@,
            accounts: seq![spec_meta(self.mint_account@, true, false)],
            data: seq![
                ExtensionDiscriminator::ScaledUiAmount.spec_byte(),
                Self::DISCRIMINATOR,
            ] + spec_address_or_zeros(self.authority) + self.multiplier@,
        }
    }

    /// The account handles passed alongside the instruction, in order.
    pub open spec fn spec_account_refs(self) -> Seq<AccountRefModel> {
        seq![self.mint_account@]
    }

    /// Issue the instruction.
    pub fn invoke(&self, cpi: &mut Cpi) -> (r: Result<(), ProgramError>)
        ensures
            r == spec_invoke_signed(self.spec_instruction(), self.spec_account_refs()),
            r is Ok ==> final(cpi)@ == old(cpi)@.push(self.spec_instruction()),
            r is Err ==> final(cpi)@ == old(cpi)@,
            r is Ok ==> final(cpi).spec_signer_log() == old(cpi).spec_signer_log().push(
                spec_signer_sets(Seq::<Signer>::empty()),
            ),
            r is Err ==> final(cpi).spec_signer_log() == old(cpi).spec_signer_log(),
    {
        let mut accounts: Vec<InstructionAccount> = Vec::new();
        let mut refs: Vec<AccountRef> = Vec::new();
        push_account(&mut accounts, &mut refs, &self.mint_account, true, false);
        let mut data: Vec<u8> = Vec::new();
        data.push(ExtensionDiscriminator::ScaledUiAmount.byte());
        data.push(Self::DISCRIMINATOR);
        push_address_or_zeros(&mut data, &self.authority);
        push_bytes8(&mut data, &self.multiplier);
        let instruction = InstructionView { program_id: self.token_program, accounts, data };
        proof {
            assert(instruction@.accounts =~= self.spec_instruction().accounts);
            assert(instruction@.data =~= self.spec_instruction().data);
            assert(instruction@ =~= self.spec_instruction());
            assert(spec_refs(refs@) =~= self.spec_account_refs());
        }
        invoke(cpi, instruction, &refs)
    }
}

/// Update the multiplier of a mint. Only supported for mints that include
/// the scaled-UI-amount extension.
///
/// The authority provides a new multiplier and a timestamp on which it
/// should take effect; a timestamp before the current time sets the
/// multiplier immediately.
///
/// Accounts expected by this instruction:
///
///   * Single authority
///   0. `[writable]` The mint.
///   1. `[signer]` The multiplier authority.
///
///   * Multisignature authority
///   0. `[writable]` The mint.
///   1. `[]` The mint's multisignature multiplier authority.
///   2. `..2+M` `[signer]` M signer accounts.
pub struct UpdateMultiplier {
    /// The mint.
    pub mint: AccountRef,
    /// The multiplier authority.
    pub authority: AccountRef,
    /// Signer accounts if the authority is a multisig.
    pub multisig_signers: Vec<AccountRef>,
    /// The 8-byte wire encoding of the new multiplier.
    pub multiplier: [u8; 8],
    /// Timestamp at which the new multiplier takes effect.
    pub effective_timestamp: i64,
    /// The token program.
    pub token_program: Address,
}

impl UpdateMultiplier {
    /// Instruction discriminator within the extension namespace.
    pub const DISCRIMINATOR: u8 = 1;

    /// The exact instruction this builder issues.
    pub open spec fn spec_instruction(self) -> InstructionViewModel {
        InstructionViewModel {
            program_id: self.token_program@,
            accounts: seq![spec_meta(self.mint@, true, false)] + spec_authority_metas(
                self.authority@,
                refs_of(self.multisig_signers@),
            ),
            data: seq![
                ExtensionDiscriminator::ScaledUiAmount.spec_byte(),
                Self::DISCRIMINATOR,
            ] + self.multiplier@ + spec_i64_le(self.effective_timestamp),
        }
    }

    /// The account handles passed alongside the instruction, in order.
    pub open spec fn spec_account_refs(self) -> Seq<AccountRefModel> {
        seq![self.mint@, self.authority@] + refs_of(self.multisig_signers@)
    }

    /// Creates a new `UpdateMultiplier` instruction with a single authority.
    pub fn new(
        token_program: &Address,
        mint: AccountRef,
        authority: AccountRef,
        multiplier: [u8; 8],
        effective_timestamp: i64,
    ) -> (r: UpdateMultiplier)
        ensures
            r.mint == mint,
            r.authority == authority,
            r.multisig_signers@ == Seq::<AccountRef>::empty(),
            r.multiplier == multiplier,
            r.effective_timestamp == effective_timestamp,
            r.token_program == *token_program,
    {
        Self::with_multisig_signers(
            token_program,
            mint,
            authority,
            multiplier,
            effective_timestamp,
            Vec::new(),
        )
    }

    /// Creates a new `UpdateMultiplier` instruction with a multisignature
    /// authority and its signer accounts.
    pub fn with_multisig_signers(
        token_program: &Address,
        mint: AccountRef,
        authority: AccountRef,
        multiplier: [u8; 8],
        effective_timestamp: i64,
        multisig_signers: Vec<AccountRef>,
    ) -> (r: UpdateMultiplier)
        ensures
            r.mint == mint,
            r.authority == authority,
            r.multisig_signers == multisig_signers,
            r.multiplier == multiplier,
            r.effective_timestamp == effective_timestamp,
            r.token_program == *token_program,
    {
        UpdateMultiplier {
            mint,
            authority,
            multisig_signers,
            multiplier,
            effective_timestamp,
            token_program: *token_program,
        }
    }

    /// Issue the instruction.
    pub fn invoke(&self, cpi: &mut Cpi) -> (r: Result<(), ProgramError>)
        ensures
            self.multisig_signers@.len() > MAX_MULTISIG_SIGNERS ==> r == Err::<(), ProgramError>(
                ProgramError::InvalidArgument,
            ),
            self.multisig_signers@.len() <= MAX_MULTISIG_SIGNERS ==> r
                == spec_invoke_signed_with_bounds(
                (2 + MAX_MULTISIG_SIGNERS) as nat,
                self.spec_instruction(),
                self.spec_account_refs(),
            ),
            r is Ok ==> final(cpi)@ == old(cpi)@.push(self.spec_instruction()),
            r is Err ==> final(cpi)@ == old(cpi)@,
            r is Ok ==> final(cpi).spec_signer_log() == old(cpi).spec_signer_log().push(
                spec_signer_sets(Seq::<Signer>::empty()),
            ),
            r is Err ==> final(cpi).spec_signer_log() == old(cpi).spec_signer_log(),
    {
        self.invoke_signed(cpi, &Vec::new())
    }

    /// Issue the instruction, asserting derived-address authority through
    /// the given signer seed sets.
    ///
    /// A multisignature signer list longer than [`MAX_MULTISIG_SIGNERS`] is
    /// rejected with an invalid-argument error before anything is built.
    pub fn invoke_signed(&self, cpi: &mut Cpi, signers: &Vec<Signer>) -> (r: Result<
        (),
        ProgramError,
    >)
        ensures
            self.multisig_signers@.len() > MAX_MULTISIG_SIGNERS ==> r == Err::<(), ProgramError>(
                ProgramError::InvalidArgument,
            ),
            self.multisig_signers@.len() <= MAX_MULTISIG_SIGNERS ==> r
                == spec_invoke_signed_with_bounds(
                (2 + MAX_MULTISIG_SIGNERS) as nat,
                self.spec_instruction(),
                self.spec_account_refs(),
            ),
            r is Ok ==> final(cpi)@ == old(cpi)@.push(self.spec_instruction()),
            r is Err ==> final(cpi)@ == old(cpi)@,
            r is Ok ==> final(cpi).spec_signer_log() == old(cpi).spec_signer_log().push(
                spec_signer_sets(signers@),
            ),
            r is Err ==> final(cpi).spec_signer_log() == old(cpi).spec_signer_log(),
    {
        if self.multisig_signers.len() > MAX_MULTISIG_SIGNERS {
            return Err(ProgramError::InvalidArgument);
        }
        let mut accounts: Vec<InstructionAccount> = Vec::new();
        let mut refs: Vec<AccountRef> = Vec::new();
        push_account(&mut accounts, &mut refs, &self.mint, true, false);
        push_authority(&mut accounts, &mut refs, &self.authority, &self.multisig_signers);
        let mut data: Vec<u8> = Vec::new();
        data.push(ExtensionDiscriminator::ScaledUiAmount.byte());
        data.push(Self::DISCRIMINATOR);
        push_bytes8(&mut data, &self.multiplier);
        push_i64_le(&mut data, self.effective_timestamp);
        let instruction = InstructionView { program_id: self.token_program, accounts, data };
        proof {
            assert(instruction@.accounts =~= self.spec_instruction().accounts);
            assert(instruction@.data =~= self.spec_instruction().data);
            assert(instruction@ =~= self.spec_instruction());
            assert(spec_refs(refs@) =~= self.spec_account_refs());
        }
        invoke_signed_with_bounds(cpi, 2 + MAX_MULTISIG_SIGNERS, instruction, &refs, signers)
    }
}

} // verus!

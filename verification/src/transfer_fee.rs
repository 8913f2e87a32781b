//! Instructions of the transfer-fee family: configuring a fee on a mint,
//! changing it, moving withheld tokens, and transferring with an expected
//! fee.

use vstd::prelude::*;

use crate::address::Address;
use crate::builder::{
    push_account, push_authority, push_tagged_address, push_u16_le, push_u64_le,
    push_writable_tail, refs_of, spec_authority_metas, spec_meta, spec_tagged_address,
    spec_u16_le, spec_u64_le, spec_writable_metas, MAX_MULTISIG_SIGNERS,
};
use crate::cpi::{
    invoke, invoke_signed_with_bounds, invoke_with_bounds, spec_invoke_signed,
    spec_invoke_signed_with_bounds, spec_refs, spec_signer_sets, Cpi, MAX_STATIC_CPI_ACCOUNTS,
};
use crate::error::ProgramError;
use crate::extensions::ExtensionDiscriminator;
use crate::instruction::{
    AccountRef, AccountRefModel, InstructionAccount, InstructionView, InstructionViewModel, Signer,
};

verus! {

/// Initialize the transfer fee on a new mint.
///
/// Fails if the mint has already been initialized, so must be called before
/// the mint-initialization instruction.
///
/// Accounts expected by this instruction:
///
///   0. `[writable]` The mint to initialize.
pub struct InitializeTransferFeeConfig {
    /// The mint to initialize.
    pub mint: AccountRef,
    /// Address that may update the fees, if any.
    pub transfer_fee_config_authority: Option<Address>,
    /// Address that must sign withdraw instructions, if any.
    pub withdraw_withheld_authority: Option<Address>,
    /// Amount of transfer collected as fees, expressed as basis points of
    /// the transfer amount.
    pub transfer_fee_basis_points: u16,
    /// Maximum fee assessed on transfers.
    pub maximum_fee: u64,
    /// The token program.
    pub token_program: Address,
}

impl InitializeTransferFeeConfig {
    /// Instruction discriminator within the extension namespace.
    pub const DISCRIMINATOR: u8 = 0;

    /// The exact instruction this builder issues. Each optional authority is
    /// encoded as a presence tag followed by the address when present.
    pub open spec fn spec_instruction(self) -> InstructionViewModel {
        InstructionViewModel {
            program_id: self.token_program@,
            accounts: seq![spec_meta(self.mint@, true, false)],
            data: seq![
                ExtensionDiscriminator::TransferFee.spec_byte(),
                Self::DISCRIMINATOR,
            ] + spec_tagged_address(self.transfer_fee_config_authority) + spec_tagged_address(
                self.withdraw_withheld_authority,
            ) + spec_u16_le(self.transfer_fee_basis_points) + spec_u64_le(self.maximum_fee),
        }
    }

    /// The account handles passed alongside the instruction, in order.
    pub open spec fn spec_account_refs(self) -> Seq<AccountRefModel> {
        seq![self.mint@]
    }

    /// Issue the instruction.
    pub fn invoke(&self, cpi: &mut Cpi) -> (r: Result<(), ProgramError>)
        ensures
            r == spec_invoke_signed(self.spec_instruction(), self.spec_account_refs()),
            r is Ok ==> final(cpi)@ == old(cpi)@.push(self.spec_instruction()),
            r is Err ==> final(cpi)@ == old(cpi)@,
            r is Ok ==> final(cpi).spec_signer_log() == old(cpi).spec_signer_log().push(
                spec_signer_sets(Seq::<Signer>::empty()),
            ),
            r is Err ==> final(cpi).spec_signer_log() == old(cpi).spec_signer_log(),
    {
        let mut accounts: Vec<InstructionAccount> = Vec::new();
        let mut refs: Vec<AccountRef> = Vec::new();
        push_account(&mut accounts, &mut refs, &self.mint, true, false);
        let mut data: Vec<u8> = Vec::new();
        data.push(ExtensionDiscriminator::TransferFee.byte());
        data.push(Self::DISCRIMINATOR);
        push_tagged_address(&mut data, &self.transfer_fee_config_authority);
        push_tagged_address(&mut data, &self.withdraw_withheld_authority);
        push_u16_le(&mut data, self.transfer_fee_basis_points);
        push_u64_le(&mut data, self.maximum_fee);
        let instruction = InstructionView { program_id: self.token_program, accounts, data };
        proof {
            assert(instruction@.accounts =~= self.spec_instruction().accounts);
            assert(instruction@.data =~= self.spec_instruction().data);
            assert(instruction@ =~= self.spec_instruction());
            assert(spec_refs(refs@) =~= self.spec_account_refs());
        }
        invoke(cpi, instruction, &refs)
    }
}

/// Set the transfer fee. Only supported for mints that include the
/// transfer-fee extension.
///
/// Accounts expected by this instruction:
///
///   * Single authority
///   0. `[writable]` The mint.
///   1. `[signer]` The mint's fee account owner.
///
///   * Multisignature authority
///   0. `[writable]` The mint.
///   1. `[]` The mint's multisignature fee account owner.
///   2. `..2+M` `[signer]` M signer accounts.
pub struct SetTransferFee {
    /// The token mint.
    pub mint: AccountRef,
    /// The mint's fee account owner or multisig.
    pub authority: AccountRef,
    /// Multisignature signer accounts, if the authority is a multisig.
    pub signers: Vec<AccountRef>,
    /// Amount of transfer collected as fees, expressed as basis points of
    /// the transfer amount.
    pub transfer_fee_basis_points: u16,
    /// Maximum fee assessed on transfers.
    pub maximum_fee: u64,
    /// The token program.
    pub token_program: Address,
}

impl SetTransferFee {
    /// Instruction discriminator within the extension namespace.
    pub const DISCRIMINATOR: u8 = 5;

    /// The exact instruction this builder issues.
    pub open spec fn spec_instruction(self) -> InstructionViewModel {
        InstructionViewModel {
            program_id: self.token_program@,
            accounts: seq![spec_meta(self.mint@, true, false)] + spec_authority_metas(
                self.authority@,
                refs_of(self.signers@),
            ),
            data: seq![
                ExtensionDiscriminator::TransferFee.spec_byte(),
                Self::DISCRIMINATOR,
            ] + spec_u16_le(self.transfer_fee_basis_points) + spec_u64_le(self.maximum_fee),
        }
    }

    /// The account handles passed alongside the instruction, in order.
    pub open spec fn spec_account_refs(self) -> Seq<AccountRefModel> {
        seq![self.mint@, self.authority@] + refs_of(self.signers@)
    }

    /// Creates a new `SetTransferFee` instruction with a single authority.
    pub fn new(
        token_program: &Address,
        mint: AccountRef,
        authority: AccountRef,
        transfer_fee_basis_points: u16,
        maximum_fee: u64,
    ) -> (r: SetTransferFee)
        ensures
            r.mint == mint,
            r.authority == authority,
            r.signers@ == Seq::<AccountRef>::empty(),
            r.transfer_fee_basis_points == transfer_fee_basis_points,
            r.maximum_fee == maximum_fee,
            r.token_program == *token_program,
    {
        Self::with_multisig(
            token_program,
            mint,
            authority,
            Vec::new(),
            transfer_fee_basis_points,
            maximum_fee,
        )
    }

    /// Creates a new `SetTransferFee` instruction with a multisignature
    /// authority and its signer accounts.
    pub fn with_multisig(
        token_program: &Address,
        mint: AccountRef,
        authority: AccountRef,
        signers: Vec<AccountRef>,
        transfer_fee_basis_points: u16,
        maximum_fee: u64,
    ) -> (r: SetTransferFee)
        ensures
            r.mint == mint,
            r.authority == authority,
            r.signers == signers,
            r.transfer_fee_basis_points == transfer_fee_basis_points,
            r.maximum_fee == maximum_fee,
            r.token_program == *token_program,
    {
        SetTransferFee {
            mint,
            authority,
            signers,
            transfer_fee_basis_points,
            maximum_fee,
            token_program: *token_program,
        }
    }

    /// Issue the instruction.
    pub fn invoke(&self, cpi: &mut Cpi) -> (r: Result<(), ProgramError>)
        ensures
            self.signers@.len() > MAX_MULTISIG_SIGNERS ==> r == Err::<(), ProgramError>(
                ProgramError::InvalidArgument,
            ),
            self.signers@.len() <= MAX_MULTISIG_SIGNERS ==> r == spec_invoke_signed_with_bounds(
                (2 + MAX_MULTISIG_SIGNERS) as nat,
                self.spec_instruction(),
                self.spec_account_refs(),
            ),
            r is Ok ==> final(cpi)@ == old(cpi)@.push(self.spec_instruction()),
            r is Err ==> final(cpi)@ == old(cpi)@,
            r is Ok ==> final(cpi).spec_signer_log() == old(cpi).spec_signer_log().push(
                spec_signer_sets(Seq::<Signer>::empty()),
            ),
            r is Err ==> final(cpi).spec_signer_log() == old(cpi).spec_signer_log(),
    {
        self.invoke_signed(cpi, &Vec::new())
    }

    /// Issue the instruction, asserting derived-address authority through
    /// the given signer seed sets.
    ///
    /// A multisignature signer list longer than [`MAX_MULTISIG_SIGNERS`] is
    /// rejected with an invalid-argument error before anything is built.
    pub fn invoke_signed(&self, cpi: &mut Cpi, signers: &Vec<Signer>) -> (r: Result<
        (),
        ProgramError,
    >)
        ensures
            self.signers@.len() > MAX_MULTISIG_SIGNERS ==> r == Err::<(), ProgramError>(
                ProgramError::InvalidArgument,
            ),
            self.signers@.len() <= MAX_MULTISIG_SIGNERS ==> r == spec_invoke_signed_with_bounds(
                (2 + MAX_MULTISIG_SIGNERS) as nat,
                self.spec_instruction(),
                self.spec_account_refs(),
            ),
            r is Ok ==> final(cpi)@ == old(cpi)@.push(self.spec_instruction()),
            r is Err ==> final(cpi)@ == old(cpi)@,
            r is Ok ==> final(cpi).spec_signer_log() == old(cpi).spec_signer_log().push(
                spec_signer_sets(signers@),
            ),
            r is Err ==> final(cpi).spec_signer_log() == old(cpi).spec_signer_log(),
    {
        if self.signers.len() > MAX_MULTISIG_SIGNERS {
            return Err(ProgramError::InvalidArgument);
        }
        let mut accounts: Vec<InstructionAccount> = Vec::new();
        let mut refs: Vec<AccountRef> = Vec::new();
        push_account(&mut accounts, &mut refs, &self.mint, true, false);
        push_authority(&mut accounts, &mut refs, &self.authority, &self.signers);
        let mut data: Vec<u8> = Vec::new();
        data.push(ExtensionDiscriminator::TransferFee.byte());
        data.push(Self::DISCRIMINATOR);
        push_u16_le(&mut data, self.transfer_fee_basis_points);
        push_u64_le(&mut data, self.maximum_fee);
        let instruction = InstructionView { program_id: self.token_program, accounts, data };
        proof {
            assert(instruction@.accounts =~= self.spec_instruction().accounts);
            assert(instruction@.data =~= self.spec_instruction().data);
            assert(instruction@ =~= self.spec_instruction());
            assert(spec_refs(refs@) =~= self.spec_account_refs());
        }
        invoke_signed_with_bounds(cpi, 2 + MAX_MULTISIG_SIGNERS, instruction, &refs, signers)
    }
}

/// Transfer tokens, providing expected mint information and fees.
///
/// Succeeds when the mint has no configured transfer fee and the provided
/// fee is zero, so it can be used with any mint.
///
/// Accounts expected by this instruction:
///
///   * Single owner/delegate
///   0. `[writable]` The source account.
///   1. `[]` The token mint.
///   2. `[writable]` The destination account.
///   3. `[signer]` The source account's owner/delegate.
///
///   * Multisignature owner/delegate
///   0. `[writable]` The source account.
///   1. `[]` The token mint.
///   2. `[writable]` The destination account.
///   3. `[]` The source account's multisignature owner/delegate.
///   4. `..4+M` `[signer]` M signer accounts.
pub struct TransferCheckedWithFee {
    /// The token program.
    pub token_program_id: Address,
    /// The source account.
    pub source: AccountRef,
    /// The token mint.
    pub mint: AccountRef,
    /// The destination account.
    pub destination: AccountRef,
    /// The source account's owner/delegate or multisignature.
    pub authority: AccountRef,
    /// Multisignature signer accounts, if the authority is a multisig.
    pub signers: Vec<AccountRef>,
    /// The amount of tokens to transfer.
    pub amount: u64,
    /// Expected number of base-ten digits to the right of the decimal
    /// place.
    pub decimals: u8,
    /// Expected fee assessed on this transfer. May be zero for a mint
    /// without a configured transfer fee.
    pub fee: u64,
}

impl TransferCheckedWithFee {
    /// Instruction discriminator within the extension namespace.
    pub const DISCRIMINATOR: u8 = 1;

    /// The exact instruction this builder issues.
    pub open spec fn spec_instruction(self) -> InstructionViewModel {
        InstructionViewModel {
            program_id: self.token_program_id@,
            accounts: seq![
                spec_meta(self.source@, true, false),
                spec_meta(self.mint@, false, false),
                spec_meta(self.destination@, true, false),
            ] + spec_authority_metas(self.authority@, refs_of(self.signers@)),
            data: seq![
                ExtensionDiscriminator::TransferFee.spec_byte(),
                Self::DISCRIMINATOR,
            ] + spec_u64_le(self.amount) + seq![self.decimals] + spec_u64_le(self.fee),
        }
    }

    /// The account handles passed alongside the instruction, in order.
    pub open spec fn spec_account_refs(self) -> Seq<AccountRefModel> {
        seq![self.source@, self.mint@, self.destination@, self.authority@] + refs_of(
            self.signers@,
        )
    }

    /// Creates a new `TransferCheckedWithFee` instruction with a single
    /// owner/delegate authority.
    pub fn new(
        token_program_id: &Address,
        source: AccountRef,
        mint: AccountRef,
        destination: AccountRef,
        authority: AccountRef,
        amount: u64,
        decimals: u8,
        fee: u64,
    ) -> (r: TransferCheckedWithFee)
        ensures
            r.source == source,
            r.mint == mint,
            r.destination == destination,
            r.authority == authority,
            r.signers@ == Seq::<AccountRef>::empty(),
            r.amount == amount,
            r.decimals == decimals,
            r.fee == fee,
            r.token_program_id == *token_program_id,
    {
        Self::with_multisig(
            token_program_id,
            source,
            mint,
            destination,
            authority,
            Vec::new(),
            amount,
            decimals,
            fee,
        )
    }

    /// Creates a new `TransferCheckedWithFee` instruction with a
    /// multisignature owner/delegate authority and its signer accounts.
    pub fn with_multisig(
        token_program_id: &Address,
        source: AccountRef,
        mint: AccountRef,
        destination: AccountRef,
        authority: AccountRef,
        signers: Vec<AccountRef>,
        amount: u64,
        decimals: u8,
        fee: u64,
    ) -> (r: TransferCheckedWithFee)
        ensures
            r.source == source,
            r.mint == mint,
            r.destination == destination,
            r.authority == authority,
            r.signers == signers,
            r.amount == amount,
            r.decimals == decimals,
            r.fee == fee,
            r.token_program_id == *token_program_id,
    {
        TransferCheckedWithFee {
            token_program_id: *token_program_id,
            source,
            mint,
            destination,
            authority,
            signers,
            amount,
            decimals,
            fee,
        }
    }

    /// Issue the instruction.
    pub fn invoke(&self, cpi: &mut Cpi) -> (r: Result<(), ProgramError>)
        ensures
            self.signers@.len() > MAX_MULTISIG_SIGNERS ==> r == Err::<(), ProgramError>(
                ProgramError::InvalidArgument,
            ),
            self.signers@.len() <= MAX_MULTISIG_SIGNERS ==> r == spec_invoke_signed_with_bounds(
                (4 + MAX_MULTISIG_SIGNERS) as nat,
                self.spec_instruction(),
                self.spec_account_refs(),
            ),
            r is Ok ==> final(cpi)@ == old(cpi)@.push(self.spec_instruction()),
            r is Err ==> final(cpi)@ == old(cpi)@,
            r is Ok ==> final(cpi).spec_signer_log() == old(cpi).spec_signer_log().push(
                spec_signer_sets(Seq::<Signer>::empty()),
            ),
            r is Err ==> final(cpi).spec_signer_log() == old(cpi).spec_signer_log(),
    {
        self.invoke_signed(cpi, &Vec::new())
    }

    /// Issue the instruction, asserting derived-address authority through
    /// the given signer seed sets.
    ///
    /// A multisignature signer list longer than [`MAX_MULTISIG_SIGNERS`] is
    /// rejected with an invalid-argument error before anything is built.
    pub fn invoke_signed(&self, cpi: &mut Cpi, signers: &Vec<Signer>) -> (r: Result<
        (),
        ProgramError,
    >)
        ensures
            self.signers@.len() > MAX_MULTISIG_SIGNERS ==> r == Err::<(), ProgramError>(
                ProgramError::InvalidArgument,
            ),
            self.signers@.len() <= MAX_MULTISIG_SIGNERS ==> r == spec_invoke_signed_with_bounds(
                (4 + MAX_MULTISIG_SIGNERS) as nat,
                self.spec_instruction(),
                self.spec_account_refs(),
            ),
            r is Ok ==> final(cpi)@ == old(cpi)@.push(self.spec_instruction()),
            r is Err ==> final(cpi)@ == old(cpi)@,
            r is Ok ==> final(cpi).spec_signer_log() == old(cpi).spec_signer_log().push(
                spec_signer_sets(signers@),
            ),
            r is Err ==> final(cpi).spec_signer_log() == old(cpi).spec_signer_log(),
    {
        if self.signers.len() > MAX_MULTISIG_SIGNERS {
            return Err(ProgramError::InvalidArgument);
        }
        let mut accounts: Vec<InstructionAccount> = Vec::new();
        let mut refs: Vec<AccountRef> = Vec::new();
        push_account(&mut accounts, &mut refs, &self.source, true, false);
        push_account(&mut accounts, &mut refs, &self.mint, false, false);
        push_account(&mut accounts, &mut refs, &self.destination, true, false);
        push_authority(&mut accounts, &mut refs, &self.authority, &self.signers);
        let mut data: Vec<u8> = Vec::new();
        data.push(ExtensionDiscriminator::TransferFee.byte());
        data.push(Self::DISCRIMINATOR);
        push_u64_le(&mut data, self.amount);
        data.push(self.decimals);
        push_u64_le(&mut data, self.fee);
        let instruction = InstructionView { program_id: self.token_program_id, accounts, data };
        proof {
            assert(instruction@.accounts =~= self.spec_instruction().accounts);
            assert(instruction@.data =~= self.spec_instruction().data);
            assert(instruction@ =~= self.spec_instruction());
            assert(spec_refs(refs@) =~= self.spec_account_refs());
        }
        invoke_signed_with_bounds(cpi, 4 + MAX_MULTISIG_SIGNERS, instruction, &refs, signers)
    }
}

/// Transfer all withheld tokens from the mint itself to an account. Signed
/// by the mint's withdraw-withheld authority.
///
/// Accounts expected by this instruction:
///
///   * Single authority
///   0. `[writable]` The token mint.
///   1. `[writable]` The fee receiver account.
///   2. `[signer]` The mint's withdraw-withheld authority.
///
///   * Multisignature authority
///   0. `[writable]` The token mint.
///   1. `[writable]` The fee receiver account.
///   2. `[]` The mint's multisignature withdraw-withheld authority.
///   3. `..3+M` `[signer]` M signer accounts.
pub struct WithdrawWithheldTokensFromMint {
    /// The token mint.
    pub mint: AccountRef,
    /// The fee receiver account.
    pub destination: AccountRef,
    /// The mint's withdraw-withheld authority or multisig.
    pub authority: AccountRef,
    /// Multisignature signer accounts, if the authority is a multisig.
    pub signers: Vec<AccountRef>,
    /// The token program.
    pub token_program: Address,
}

impl WithdrawWithheldTokensFromMint {
    /// Instruction discriminator within the extension namespace.
    pub const DISCRIMINATOR: u8 = 2;

    /// The exact instruction this builder issues.
    pub open spec fn spec_instruction(self) -> InstructionViewModel {
        InstructionViewModel {
            program_id: self.token_program@,
            accounts: seq![
                spec_meta(self.mint@, true, false),
                spec_meta(self.destination@, true, false),
            ] + spec_authority_metas(self.authority@, refs_of(self.signers@)),
            data: seq![
                ExtensionDiscriminator::TransferFee.spec_byte(),
                Self::DISCRIMINATOR,
            ],
        }
    }

    /// The account handles passed alongside the instruction, in order.
    pub open spec fn spec_account_refs(self) -> Seq<AccountRefModel> {
        seq![self.mint@, self.destination@, self.authority@] + refs_of(self.signers@)
    }

    /// Creates a new `WithdrawWithheldTokensFromMint` instruction with a
    /// single authority.
    pub fn new(
        token_program: &Address,
        mint: AccountRef,
        destination: AccountRef,
        authority: AccountRef,
    ) -> (r: WithdrawWithheldTokensFromMint)
        ensures
            r.mint == mint,
            r.destination == destination,
            r.authority == authority,
            r.signers@ == Seq::<AccountRef>::empty(),
            r.token_program == *token_program,
    {
        Self::with_signers(token_program, mint, destination, authority, Vec::new())
    }

    /// Creates a new `WithdrawWithheldTokensFromMint` instruction with a
    /// multisignature authority and its signer accounts.
    pub fn with_signers(
        token_program: &Address,
        mint: AccountRef,
        destination: AccountRef,
        authority: AccountRef,
        signers: Vec<AccountRef>,
    ) -> (r: WithdrawWithheldTokensFromMint)
        ensures
            r.mint == mint,
            r.destination == destination,
            r.authority == authority,
            r.signers == signers,
            r.token_program == *token_program,
    {
        WithdrawWithheldTokensFromMint {
            mint,
            destination,
            authority,
            signers,
            token_program: *token_program,
        }
    }

    /// Issue the instruction.
    pub fn invoke(&self, cpi: &mut Cpi) -> (r: Result<(), ProgramError>)
        ensures
            self.signers@.len() > MAX_MULTISIG_SIGNERS ==> r == Err::<(), ProgramError>(
                ProgramError::InvalidArgument,
            ),
            self.signers@.len() <= MAX_MULTISIG_SIGNERS ==> r == spec_invoke_signed_with_bounds(
                (3 + MAX_MULTISIG_SIGNERS) as nat,
                self.spec_instruction(),
                self.spec_account_refs(),
            ),
            r is Ok ==> final(cpi)@ == old(cpi)@.push(self.spec_instruction()),
            r is Err ==> final(cpi)@ == old(cpi)@,
            r is Ok ==> final(cpi).spec_signer_log() == old(cpi).spec_signer_log().push(
                spec_signer_sets(Seq::<Signer>::empty()),
            ),
            r is Err ==> final(cpi).spec_signer_log() == old(cpi).spec_signer_log(),
    {
        self.invoke_signed(cpi, &Vec::new())
    }

    /// Issue the instruction, asserting derived-address authority through
    /// the given signer seed sets.
    ///
    /// A multisignature signer list longer than [`MAX_MULTISIG_SIGNERS`] is
    /// rejected with an invalid-argument error before anything is built.
    pub fn invoke_signed(&self, cpi: &mut Cpi, signers: &Vec<Signer>) -> (r: Result<
        (),
        ProgramError,
    >)
        ensures
            self.signers@.len() > MAX_MULTISIG_SIGNERS ==> r == Err::<(), ProgramError>(
                ProgramError::InvalidArgument,
            ),
            self.signers@.len() <= MAX_MULTISIG_SIGNERS ==> r == spec_invoke_signed_with_bounds(
                (3 + MAX_MULTISIG_SIGNERS) as nat,
                self.spec_instruction(),
                self.spec_account_refs(),
            ),
            r is Ok ==> final(cpi)@ == old(cpi)@.push(self.spec_instruction()),
            r is Err ==> final(cpi)@ == old(cpi)@,
            r is Ok ==> final(cpi).spec_signer_log() == old(cpi).spec_signer_log().push(
                spec_signer_sets(signers@),
            ),
            r is Err ==> final(cpi).spec_signer_log() == old(cpi).spec_signer_log(),
    {
        if self.signers.len() > MAX_MULTISIG_SIGNERS {
            return Err(ProgramError::InvalidArgument);
        }
        let mut accounts: Vec<InstructionAccount> = Vec::new();
        let mut refs: Vec<AccountRef> = Vec::new();
        push_account(&mut accounts, &mut refs, &self.mint, true, false);
        push_account(&mut accounts, &mut refs, &self.destination, true, false);
        push_authority(&mut accounts, &mut refs, &self.authority, &self.signers);
        let mut data: Vec<u8> = Vec::new();
        data.push(ExtensionDiscriminator::TransferFee.byte());
        data.push(Self::DISCRIMINATOR);
        let instruction = InstructionView { program_id: self.token_program, accounts, data };
        proof {
            assert(instruction@.accounts =~= self.spec_instruction().accounts);
            assert(instruction@.data =~= self.spec_instruction().data);
            assert(instruction@ =~= self.spec_instruction());
            assert(spec_refs(refs@) =~= self.spec_account_refs());
        }
        invoke_signed_with_bounds(cpi, 3 + MAX_MULTISIG_SIGNERS, instruction, &refs, signers)
    }
}

/// Transfer all withheld tokens from a list of source accounts to a
/// destination account. Signed by the mint's withdraw-withheld authority.
///
/// Accounts expected by this instruction:
///
///   * Single authority
///   0. `[]` The token mint.
///   1. `[writable]` The fee receiver account.
///   2. `[signer]` The mint's withdraw-withheld authority.
///   3. `..3+N` `[writable]` The N source accounts to withdraw from.
///
///   * Multisignature authority
///   0. `[]` The token mint.
///   1. `[writable]` The fee receiver account.
///   2. `[]` The mint's multisignature withdraw-withheld authority.
///   3. `..3+M` `[signer]` M signer accounts.
///   4. `3+M..3+M+N` `[writable]` The N source accounts to withdraw from.
pub struct WithdrawWithheldTokensFromAccounts {
    /// The token mint.
    pub mint: AccountRef,
    /// The fee receiver account.
    pub destination: AccountRef,
    /// The mint's withdraw-withheld authority or multisig.
    pub authority: AccountRef,
    /// Multisignature signer accounts, if the authority is a multisig.
    pub signers: Vec<AccountRef>,
    /// Source accounts to withdraw from.
    pub sources: Vec<AccountRef>,
    /// The token program.
    pub token_program_id: Address,
}

impl WithdrawWithheldTokensFromAccounts {
    /// Instruction discriminator within the extension namespace.
    pub const DISCRIMINATOR: u8 = 3;

    /// The exact instruction this builder issues. The mint is read-only:
    /// this instruction only consults its fee configuration, and the
    /// withheld amounts move between the source and destination accounts.
    /// The payload carries the source-account count so the invoked program
    /// can split the dynamic tail.
    pub open spec fn spec_instruction(self) -> InstructionViewModel {
        InstructionViewModel {
            program_id: self.token_program_id@,
            accounts: seq![
                spec_meta(self.mint@, false, false),
                spec_meta(self.destination@, true, false),
            ] + spec_authority_metas(self.authority@, refs_of(self.signers@))
                + spec_writable_metas(refs_of(self.sources@)),
            data: seq![
                ExtensionDiscriminator::TransferFee.spec_byte(),
                Self::DISCRIMINATOR,
                self.sources@.len() as u8,
            ],
        }
    }

    /// The account handles passed alongside the instruction, in order.
    pub open spec fn spec_account_refs(self) -> Seq<AccountRefModel> {
        seq![self.mint@, self.destination@, self.authority@] + refs_of(self.signers@) + refs_of(
            self.sources@,
        )
    }

    /// Creates a new `WithdrawWithheldTokensFromAccounts` instruction with
    /// a single authority.
    pub fn new(
        token_program_id: &Address,
        mint: AccountRef,
        destination: AccountRef,
        authority: AccountRef,
        sources: Vec<AccountRef>,
    ) -> (r: WithdrawWithheldTokensFromAccounts)
        ensures
            r.mint == mint,
            r.destination == destination,
            r.authority == authority,
            r.signers@ == Seq::<AccountRef>::empty(),
            r.sources == sources,
            r.token_program_id == *token_program_id,
    {
        Self::with_multisig(token_program_id, mint, destination, authority, sources, Vec::new())
    }

    /// Creates a new `WithdrawWithheldTokensFromAccounts` instruction with
    /// a multisignature authority and its signer accounts.
    pub fn with_multisig(
        token_program_id: &Address,
        mint: AccountRef,
        destination: AccountRef,
        authority: AccountRef,
        sources: Vec<AccountRef>,
        signers: Vec<AccountRef>,
    ) -> (r: WithdrawWithheldTokensFromAccounts)
        ensures
            r.mint == mint,
            r.destination == destination,
            r.authority == authority,
            r.signers == signers,
            r.sources == sources,
            r.token_program_id == *token_program_id,
    {
        WithdrawWithheldTokensFromAccounts {
            mint,
            destination,
            authority,
            signers,
            sources,
            token_program_id: *token_program_id,
        }
    }

    /// Issue the instruction.
    pub fn invoke(&self, cpi: &mut Cpi) -> (r: Result<(), ProgramError>)
        ensures
            self.signers@.len() > MAX_MULTISIG_SIGNERS ==> r == Err::<(), ProgramError>(
                ProgramError::InvalidArgument,
            ),
            self.signers@.len() <= MAX_MULTISIG_SIGNERS && 3 + self.signers@.len()
                + self.sources@.len() > MAX_STATIC_CPI_ACCOUNTS ==> r == Err::<(), ProgramError>(
                ProgramError::InvalidArgument,
            ),
            self.signers@.len() <= MAX_MULTISIG_SIGNERS && 3 + self.signers@.len()
                + self.sources@.len() <= MAX_STATIC_CPI_ACCOUNTS ==> r
                == spec_invoke_signed_with_bounds(
                MAX_STATIC_CPI_ACCOUNTS as nat,
                self.spec_instruction(),
                self.spec_account_refs(),
            ),
            r is Ok ==> final(cpi)@ == old(cpi)@.push(self.spec_instruction()),
            r is Err ==> final(cpi)@ == old(cpi)@,
            r is Ok ==> final(cpi).spec_signer_log() == old(cpi).spec_signer_log().push(
                spec_signer_sets(Seq::<Signer>::empty()),
            ),
            r is Err ==> final(cpi).spec_signer_log() == old(cpi).spec_signer_log(),
    {
        self.invoke_signed(cpi, &Vec::new())
    }

    /// Issue the instruction, asserting derived-address authority through
    /// the given signer seed sets.
    ///
    /// A multisignature signer list longer than [`MAX_MULTISIG_SIGNERS`],
    /// or a total account count beyond [`MAX_STATIC_CPI_ACCOUNTS`], is
    /// rejected with an invalid-argument error before anything is built.
    pub fn invoke_signed(&self, cpi: &mut Cpi, signers: &Vec<Signer>) -> (r: Result<
        (),
        ProgramError,
    >)
        ensures
            self.signers@.len() > MAX_MULTISIG_SIGNERS ==> r == Err::<(), ProgramError>(
                ProgramError::InvalidArgument,
            ),
            self.signers@.len() <= MAX_MULTISIG_SIGNERS && 3 + self.signers@.len()
                + self.sources@.len() > MAX_STATIC_CPI_ACCOUNTS ==> r == Err::<(), ProgramError>(
                ProgramError::InvalidArgument,
            ),
            self.signers@.len() <= MAX_MULTISIG_SIGNERS && 3 + self.signers@.len()
                + self.sources@.len() <= MAX_STATIC_CPI_ACCOUNTS ==> r
                == spec_invoke_signed_with_bounds(
                MAX_STATIC_CPI_ACCOUNTS as nat,
                self.spec_instruction(),
                self.spec_account_refs(),
            ),
            r is Ok ==> final(cpi)@ == old(cpi)@.push(self.spec_instruction()),
            r is Err ==> final(cpi)@ == old(cpi)@,
            r is Ok ==> final(cpi).spec_signer_log() == old(cpi).spec_signer_log().push(
                spec_signer_sets(signers@),
            ),
            r is Err ==> final(cpi).spec_signer_log() == old(cpi).spec_signer_log(),
    {
        if self.signers.len() > MAX_MULTISIG_SIGNERS {
            return Err(ProgramError::InvalidArgument);
        }
        if self.sources.len() > MAX_STATIC_CPI_ACCOUNTS - 3 - self.signers.len() {
            return Err(ProgramError::InvalidArgument);
        }
        let mut accounts: Vec<InstructionAccount> = Vec::new();
        let mut refs: Vec<AccountRef> = Vec::new();
        push_account(&mut accounts, &mut refs, &self.mint, false, false);
        push_account(&mut accounts, &mut refs, &self.destination, true, false);
        push_authority(&mut accounts, &mut refs, &self.authority, &self.signers);
        push_writable_tail(&mut accounts, &mut refs, &self.sources);
        let mut data: Vec<u8> = Vec::new();
        data.push(ExtensionDiscriminator::TransferFee.byte());
        data.push(Self::DISCRIMINATOR);
        data.push(self.sources.len() as u8);
        let instruction = InstructionView { program_id: self.token_program_id, accounts, data };
        proof {
            assert(instruction@.accounts =~= self.spec_instruction().accounts);
            assert(instruction@.data =~= self.spec_instruction().data);
            assert(instruction@ =~= self.spec_instruction());
            assert(spec_refs(refs@) =~= self.spec_account_refs());
        }
        invoke_signed_with_bounds(cpi, MAX_STATIC_CPI_ACCOUNTS, instruction, &refs, signers)
    }
}

/// Permissionlessly transfer all withheld tokens to the mint.
///
/// Succeeds for frozen accounts. Accounts provided should include both the
/// fee-holding ones and the ones without fees: the instruction skips any
/// that do not hold fees.
///
/// Accounts expected by this instruction:
///
///   0. `[writable]` The mint.
///   1. `..1+N` `[writable]` The N source accounts to harvest from.
pub struct HarvestWithheldTokensToMint {
    /// The token mint.
    pub mint: AccountRef,
    /// The source accounts to harvest from.
    pub sources: Vec<AccountRef>,
    /// The token program.
    pub token_program: Address,
}

impl HarvestWithheldTokensToMint {
    /// Instruction discriminator within the extension namespace.
    pub const DISCRIMINATOR: u8 = 4;

    /// The exact instruction this builder issues.
    pub open spec fn spec_instruction(self) -> InstructionViewModel {
        InstructionViewModel {
            program_id: self.token_program@,
            accounts: seq![spec_meta(self.mint@, true, false)] + spec_writable_metas(
                refs_of(self.sources@),
            ),
            data: seq![
                ExtensionDiscriminator::TransferFee.spec_byte(),
                Self::DISCRIMINATOR,
            ],
        }
    }

    /// The account handles passed alongside the instruction, in order.
    pub open spec fn spec_account_refs(self) -> Seq<AccountRefModel> {
        seq![self.mint@] + refs_of(self.sources@)
    }

    /// Issue the instruction.
    ///
    /// A total account count beyond [`MAX_STATIC_CPI_ACCOUNTS`] is rejected
    /// with an invalid-argument error before anything is built.
    pub fn invoke(&self, cpi: &mut Cpi) -> (r: Result<(), ProgramError>)
        ensures
            1 + self.sources@.len() > MAX_STATIC_CPI_ACCOUNTS ==> r == Err::<(), ProgramError>(
                ProgramError::InvalidArgument,
            ),
            1 + self.sources@.len() <= MAX_STATIC_CPI_ACCOUNTS ==> r
                == spec_invoke_signed_with_bounds(
                MAX_STATIC_CPI_ACCOUNTS as nat,
                self.spec_instruction(),
                self.spec_account_refs(),
            ),
            r is Ok ==> final(cpi)@ == old(cpi)@.push(self.spec_instruction()),
            r is Err ==> final(cpi)@ == old(cpi)@,
            r is Ok ==> final(cpi).spec_signer_log() == old(cpi).spec_signer_log().push(
                spec_signer_sets(Seq::<Signer>::empty()),
            ),
            r is Err ==> final(cpi).spec_signer_log() == old(cpi).spec_signer_log(),
    {
        if self.sources.len() > MAX_STATIC_CPI_ACCOUNTS - 1 {
            return Err(ProgramError::InvalidArgument);
        }
        let mut accounts: Vec<InstructionAccount> = Vec::new();
        let mut refs: Vec<AccountRef> = Vec::new();
        push_account(&mut accounts, &mut refs, &self.mint, true, false);
        push_writable_tail(&mut accounts, &mut refs, &self.sources);
        let mut data: Vec<u8> = Vec::new();
        data.push(ExtensionDiscriminator::TransferFee.byte());
        data.push(Self::DISCRIMINATOR);
        let instruction = InstructionView { program_id: self.token_program, accounts, data };
        proof {
            assert(instruction@.accounts =~= self.spec_instruction().accounts);
            assert(instruction@.data =~= self.spec_instruction().data);
            assert(instruction@ =~= self.spec_instruction());
            assert(spec_refs(refs@) =~= self.spec_account_refs());
        }
        invoke_with_bounds(cpi, MAX_STATIC_CPI_ACCOUNTS, instruction, &refs)
    }
}

} // verus!

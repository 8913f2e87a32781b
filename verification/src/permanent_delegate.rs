//! Instruction installing a permanent delegate on a new mint.

use vstd::prelude::*;

use crate::address::Address;
use crate::builder::{push_account, push_address, spec_meta};
use crate::cpi::{invoke, spec_invoke_signed, spec_refs, spec_signer_sets, Cpi};
use crate::error::ProgramError;
use crate::extensions::ExtensionDiscriminator;
use crate::instruction::{
    AccountRef, AccountRefModel, InstructionAccount, InstructionView, InstructionViewModel, Signer,
};

verus! {

/// Initialize the permanent delegate on a new mint.
///
/// Fails if the mint has already been initialized, so must be called before
/// the mint-initialization instruction.
///
/// Accounts expected by this instruction:
///
///   0. `[writable]` The mint to initialize.
pub struct InitializePermanentDelegate {
    /// The mint to initialize.
    pub mint: AccountRef,
    /// Authority that may sign for transfers and burns on any account of
    /// the mint.
    pub delegate: Address,
    /// The token program.
    pub token_program: Address,
}

impl InitializePermanentDelegate {
    /// The exact instruction this builder issues.
    pub open spec fn spec_instruction(self) -> InstructionViewModel {
        InstructionViewModel {
            program_id: self.token_program@,
            accounts: seq![spec_meta(self.mint@, true, false)],
            data: seq![ExtensionDiscriminator::PermanentDelegate.spec_byte()] + self.delegate@,
        }
    }

    /// The account handles passed alongside the instruction, in order.
    pub open spec fn spec_account_refs(self) -> Seq<AccountRefModel> {
        seq![self.mint@]
    }

    /// Issue the instruction.
    pub fn invoke(&self, cpi: &mut Cpi) -> (r: Result<(), ProgramError>)
        ensures
            r == spec_invoke_signed(self.spec_instruction(), self.spec_account_refs()),
            r is Ok ==> final(cpi)@ == old(cpi)@.push(self.spec_instruction()),
            r is Err ==> final(cpi)@ == old(cpi)@,
            r is Ok ==> final(cpi).spec_signer_log() == old(cpi).spec_signer_log().push(
                spec_signer_sets(Seq::<Signer>::empty()),
            ),
            r is Err ==> final(cpi).spec_signer_log() == old(cpi).spec_signer_log(),
    {
        let mut accounts: Vec<InstructionAccount> = Vec::new();
        let mut refs: Vec<AccountRef> = Vec::new();
        push_account(&mut accounts, &mut refs, &self.mint, true, false);
        let mut data: Vec<u8> = Vec::new();
        data.push(ExtensionDiscriminator::PermanentDelegate.byte());
        push_address(&mut data, &self.delegate);
        let instruction = InstructionView { program_id: self.token_program, accounts, data };
        proof {
            assert(instruction@.accounts =~= self.spec_instruction().accounts);
            assert(instruction@.data =~= self.spec_instruction().data);
            assert(instruction@ =~= self.spec_instruction());
            assert(spec_refs(refs@) =~= self.spec_account_refs());
        }
        invoke(cpi, instruction, &refs)
    }
}

} // verus!

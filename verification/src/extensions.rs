//! Extension namespaces of the token program's instruction set.

use vstd::prelude::*;

verus! {

/// Leading discriminator byte selecting an extension-namespaced instruction
/// of the token program.
#[derive(Clone, Copy, Debug, PartialEq, Eq, Structural)]
#[non_exhaustive]
pub enum ExtensionDiscriminator {
    /// Transfer-fee instruction family.
    TransferFee,
    /// Default-account-state instruction family.
    DefaultAccountState,
    /// Memo-transfer instruction family.
    MemoTransfer,
    /// Permanent-delegate initialization.
    PermanentDelegate,
    /// Transfer-hook instruction family.
    TransferHook,
    /// Metadata-pointer instruction family.
    MetadataPointer,
    /// Group-member-pointer instruction family.
    GroupMemberPointer,
    /// Scaled-UI-amount instruction family.
    ScaledUiAmount,
}

impl ExtensionDiscriminator {
    /// The wire value of the discriminator.
    pub open spec fn spec_byte(self) -> u8 {
        match self {
            ExtensionDiscriminator::TransferFee => 26,
            ExtensionDiscriminator::DefaultAccountState => 28,
            ExtensionDiscriminator::MemoTransfer => 30,
            ExtensionDiscriminator::PermanentDelegate => 35,
            ExtensionDiscriminator::TransferHook => 36,
            ExtensionDiscriminator::MetadataPointer => 39,
            ExtensionDiscriminator::GroupMemberPointer => 41,
            ExtensionDiscriminator::ScaledUiAmount => 43,
        }
    }

    /// The wire value of the discriminator.
    pub fn byte(&self) -> (r: u8)
        ensures
            r == self.spec_byte(),
    {
        match self {
            ExtensionDiscriminator::TransferFee => 26,
            ExtensionDiscriminator::DefaultAccountState => 28,
            ExtensionDiscriminator::MemoTransfer => 30,
            ExtensionDiscriminator::PermanentDelegate => 35,
            ExtensionDiscriminator::TransferHook => 36,
            ExtensionDiscriminator::MetadataPointer => 39,
            ExtensionDiscriminator::GroupMemberPointer => 41,
            ExtensionDiscriminator::ScaledUiAmount => 43,
        }
    }
}

/// The state of a token account, as encoded in instruction payloads that
/// carry a default account state.
#[derive(Clone, Copy, Debug, PartialEq, Eq, Structural)]
pub enum AccountState {
    /// The account is not yet initialized.
    Uninitialized,
    /// The account is initialized and usable.
    Initialized,
    /// The account is frozen by the mint's freeze authority.
    Frozen,
}

impl AccountState {
    /// The wire value of the state.
    pub open spec fn spec_byte(self) -> u8 {
        match self {
            AccountState::Uninitialized => 0,
            AccountState::Initialized => 1,
            AccountState::Frozen => 2,
        }
    }

    /// The wire value of the state.
    pub fn byte(&self) -> (r: u8)
        ensures
            r == self.spec_byte(),
    {
        match self {
            AccountState::Uninitialized => 0,
            AccountState::Initialized => 1,
            AccountState::Frozen => 2,
        }
    }
}

} // verus!

//! Zero-copy account and instruction view layer for programs that run inside
//! a resource-constrained, deterministic on-chain virtual machine.
//!
//! The library models the host-owned runtime account record as an explicit
//! structure with a fixed data region, provides the in-place resize protocol
//! with its growth limit, the bounded-builder protocol used by every
//! instruction constructor, the cross-program invocation (CPI) layer with its
//! validation rules, and the two entrypoint-parsing strategies (eager and
//! lazy) over the host's serialized input buffer.

use vstd::prelude::*;

pub mod account;
pub mod address;
pub mod builder;
pub mod cpi;
pub mod default_account_state;
pub mod entrypoint;
pub mod error;
pub mod extensions;
pub mod group_member_pointer;
pub mod hint;
pub mod instruction;
pub mod memo_transfer;
pub mod metadata_pointer;
pub mod permanent_delegate;
pub mod reallocate;
pub mod scaled_ui_amount;
pub mod system;
pub mod transfer_fee;
pub mod transfer_hook;

verus! {

/// Maximum number of accounts that a transaction may process.
///
/// Account indices are represented by a `u8` value and the last value (`255`)
/// is reserved to mark non-duplicated accounts, so at most 255 accounts can
/// be referenced.
pub const MAX_TX_ACCOUNTS: usize = 255;

/// Return value for a successful program execution.
pub const SUCCESS: u64 = 0;

} // verus!

//! Entrypoint parsing: turning the host's serialized input buffer into
//! account handles, instruction data and the program identity.
//!
//! The input layout is fixed by the host: an eight-byte account count, one
//! record per account — a duplicate marker, flag bytes, reserved padding,
//! address, owner, lamports, data length, the data itself, growth padding,
//! alignment and rent epoch; a duplicate entry is a single marker byte
//! naming an earlier position, padded to eight bytes — then the instruction
//! data with its length, and the invoking program's identity.
//!
//! Two strategies parse it: the eager parser decodes everything at once and
//! resolves duplicates to shared slots; the lazy cursor parses on demand,
//! one account at a time. Both are specified against the same parse
//! functions, and [`lemma_parsers_agree`] states that driving the cursor to
//! completion yields exactly what the eager parser returns.

use vstd::prelude::*;

use crate::account::{Account, AccountModel, MAX_PERMITTED_DATA_INCREASE, NOT_BORROWED};
use crate::address::Address;
use crate::error::ProgramError;
use crate::MAX_TX_ACCOUNTS;

verus! {

/// Marker byte of a non-duplicated account record.
pub const NON_DUP_MARKER: u8 = 255;

/// Size in bytes of the fixed header of a non-duplicated account record:
/// marker, three flag bytes, four reserved bytes, address, owner, lamports
/// and data length.
pub const ACCOUNT_HEADER_BYTES: usize = 88;

/// Size in bytes of a duplicate account entry: the marker byte plus
/// padding.
pub const DUPLICATE_ENTRY_BYTES: usize = 8;

/// The value of `n` little-endian bytes of `s` starting at `off`.
pub open spec fn spec_le_value(s: Seq<u8>, off: int, n: int) -> int
    decreases n,
{
    if n <= 0 {
        0
    } else {
        s[off] + 256 * spec_le_value(s, off + 1, n - 1)
    }
}

/// One entry of the parsed account list: a fresh record, or a reference to
/// the entry at an earlier position.
#[verifier::ext_equal]
pub ghost enum AccountEntryModel {
    /// A record of its own.
    Fresh { account: AccountModel },
    /// A duplicate of the entry at the given earlier position.
    Duplicated { index: u8 },
}

/// What parsing one account entry at `off` yields, `parsed` entries having
/// been parsed before it: the entry and the offset just past it, or nothing
/// if the buffer is malformed there.
pub open spec fn spec_parse_account(s: Seq<u8>, off: int, parsed: int) -> Option<
    (AccountEntryModel, int),
> {
    if off < 0 || off >= s.len() {
        None
    } else if s[off] != NON_DUP_MARKER {
        if s[off] < parsed && off + DUPLICATE_ENTRY_BYTES <= s.len() {
            Some((AccountEntryModel::Duplicated { index: s[off] }, off + DUPLICATE_ENTRY_BYTES))
        } else {
            None
        }
    } else if off + ACCOUNT_HEADER_BYTES > s.len() {
        None
    } else {
        let data_len = spec_le_value(s, off + 80, 8);
        if data_len > u32::MAX {
            None
        } else {
            let data_end = off + ACCOUNT_HEADER_BYTES + data_len + MAX_PERMITTED_DATA_INCREASE;
            let aligned = data_end + ((8 - data_end % 8) % 8);
            if aligned + 8 > s.len() {
                None
            } else {
                Some(
                    (
                        AccountEntryModel::Fresh {
                            account: AccountModel {
                                address: s.subrange(off + 8, off + 40),
                                owner: s.subrange(off + 40, off + 72),
                                lamports: spec_le_value(s, off + 72, 8) as u64,
                                is_signer: s[off + 1] != 0,
                                is_writable: s[off + 2] != 0,
                                executable: s[off + 3] != 0,
                                rent_epoch: spec_le_value(s, aligned, 8) as u64,
                                original_data_len: data_len as nat,
                                data_len: data_len as nat,
                                region: s.subrange(
                                    off + ACCOUNT_HEADER_BYTES,
                                    data_end,
                                ),
                                borrow_state: NOT_BORROWED,
                            },
                        },
                        aligned + 8,
                    ),
                )
            }
        }
    }
}

/// What parsing `n` account entries in a row yields, `k` entries having
/// been parsed before them: the entries and the offset just past them.
pub open spec fn spec_parse_accounts(s: Seq<u8>, off: int, k: int, n: int) -> Option<
    (Seq<AccountEntryModel>, int),
>
    decreases n,
{
    if n <= 0 {
        Some((Seq::empty(), off))
    } else {
        match spec_parse_account(s, off, k) {
            None => None,
            Some((entry, off2)) => match spec_parse_accounts(s, off2, k + 1, n - 1) {
                None => None,
                Some((rest, off3)) => Some((seq![entry] + rest, off3)),
            },
        }
    }
}

/// The whole parsed input: the account entries in order, the instruction
/// data, and the invoking program's identity.
#[verifier::ext_equal]
pub ghost struct ParsedInputModel {
    /// The account entries, duplicates unresolved.
    pub entries: Seq<AccountEntryModel>,
    /// The instruction data bytes.
    pub instruction_data: Seq<u8>,
    /// The invoking program's identity.
    pub program_id: Seq<u8>,
}

/// What parsing a whole input buffer yields, or nothing if it is malformed:
/// the account count, the account entries, the instruction data and the
/// program identity, in that order.
pub open spec fn spec_parse_input(s: Seq<u8>) -> Option<ParsedInputModel> {
    if s.len() < 8 {
        None
    } else {
        let count = spec_le_value(s, 0, 8);
        if count > MAX_TX_ACCOUNTS {
            None
        } else {
            match spec_parse_accounts(s, 8, 0, count) {
                None => None,
                Some((entries, off)) => {
                    if off + 8 > s.len() {
                        None
                    } else {
                        let dlen = spec_le_value(s, off, 8);
                        if off + 8 + dlen + 32 > s.len() {
                            None
                        } else {
                            Some(
                                ParsedInputModel {
                                    entries,
                                    instruction_data: s.subrange(off + 8, off + 8 + dlen),
                                    program_id: s.subrange(off + 8 + dlen, off + 8 + dlen + 32),
                                },
                            )
                        }
                    }
                },
            }
        }
    }
}

/// Resolve duplicate entries into shared storage: the distinct account
/// records in order of first appearance, and for each position the index of
/// the record it refers to. Duplicate entries share a slot — and with it
/// the record's borrow state — rather than copying the record.
pub open spec fn spec_resolve(entries: Seq<AccountEntryModel>) -> (Seq<AccountModel>, Seq<int>)
    decreases entries.len(),
{
    if entries.len() == 0 {
        (Seq::empty(), Seq::empty())
    } else {
        let (accounts, slots) = spec_resolve(entries.drop_last());
        match entries.last() {
            AccountEntryModel::Fresh { account } => (
                accounts.push(account),
                slots.push(accounts.len() as int),
            ),
            AccountEntryModel::Duplicated { index } => {
                let slot = if index < slots.len() {
                    slots[index as int]
                } else {
                    0
                };
                (accounts, slots.push(slot))
            },
        }
    }
}

/// Law: resolving a valid entry list is faithful. Every position gets a
/// slot below the number of distinct records; a fresh entry's slot holds
/// exactly its record; and a duplicate entry's slot is the slot of the
/// position it names — duplicate positions share storage, they do not copy
/// it.
pub proof fn lemma_resolve_entries(entries: Seq<AccountEntryModel>)
    requires
        forall|k: int|
            0 <= k < entries.len() ==> (#[trigger] entries[k] matches
                AccountEntryModel::Duplicated { index } ==> index < k),
    ensures
        spec_resolve(entries).1.len() == entries.len(),
        forall|k: int|
            0 <= k < entries.len() ==> 0 <= #[trigger] spec_resolve(entries).1[k] < spec_resolve(
                entries,
            ).0.len(),
        forall|k: int|
            0 <= k < entries.len() ==> (#[trigger] entries[k] matches AccountEntryModel::Fresh {
                account,
            } ==> spec_resolve(entries).0[spec_resolve(entries).1[k]] == account),
        forall|k: int|
            0 <= k < entries.len() ==> (#[trigger] entries[k] matches
                AccountEntryModel::Duplicated { index } ==> spec_resolve(entries).1[k]
                == spec_resolve(entries).1[index as int]),
    decreases entries.len(),
{
    if entries.len() > 0 {
        let prefix = entries.drop_last();
        let n = entries.len() - 1;
        assert(forall|k: int| 0 <= k < n ==> #[trigger] prefix[k] == entries[k]);
        lemma_resolve_entries(prefix);
        let paccs = spec_resolve(prefix).0;
        let pslots = spec_resolve(prefix).1;
        let accs = spec_resolve(entries).0;
        let slots = spec_resolve(entries).1;
        assert(entries[n as int] == entries.last());
        match entries.last() {
            AccountEntryModel::Fresh { account } => {
                assert(accs == paccs.push(account));
                assert(slots == pslots.push(paccs.len() as int));
                assert(accs[slots[n as int]] == account);
            },
            AccountEntryModel::Duplicated { index } => {
                assert(index < n);
                assert(accs == paccs);
                assert(slots == pslots.push(pslots[index as int]));
                assert(slots[n as int] == slots[index as int]);
            },
        }
        assert(forall|k: int| 0 <= k < n ==> #[trigger] slots[k] == pslots[k]);
        assert(forall|j: int| 0 <= j < paccs.len() ==> #[trigger] accs[j] == paccs[j]);
        assert forall|k: int|
            0 <= k < n implies (#[trigger] entries[k] matches AccountEntryModel::Fresh { account }
            ==> accs[slots[k]] == account) by {
            assert(prefix[k] == entries[k]);
            match entries[k] {
                AccountEntryModel::Fresh { account } => {
                    assert(0 <= pslots[k] < paccs.len());
                    assert(paccs[pslots[k]] == account);
                    assert(accs[pslots[k]] == paccs[pslots[k]]);
                },
                AccountEntryModel::Duplicated { .. } => {
                },
            }
        }
        assert forall|k: int|
            0 <= k < n implies (#[trigger] entries[k] matches AccountEntryModel::Duplicated {
                index,
            } ==> slots[k] == slots[index as int]) by {
            assert(prefix[k] == entries[k]);
            match entries[k] {
                AccountEntryModel::Duplicated { index } => {
                    assert(index < k);
                    assert(pslots[k] == pslots[index as int]);
                    assert(slots[index as int] == pslots[index as int]);
                },
                AccountEntryModel::Fresh { .. } => {
                },
            }
        }
    }
}

/// The value of eight little-endian bytes is below two to the sixty-fourth.
proof fn lemma_le_value_8_bound(s: Seq<u8>, off: int)
    requires
        0 <= off,
        off + 8 <= s.len(),
    ensures
        0 <= spec_le_value(s, off, 8) <= u64::MAX,
{
    assert(spec_le_value(s, off + 8, 0) == 0);
    assert(spec_le_value(s, off + 7, 1) <= 0xff);
    assert(spec_le_value(s, off + 6, 2) <= 0xffff);
    assert(spec_le_value(s, off + 5, 3) <= 0xff_ffff);
    assert(spec_le_value(s, off + 4, 4) <= 0xffff_ffff);
    assert(spec_le_value(s, off + 3, 5) <= 0xff_ffff_ffff);
    assert(spec_le_value(s, off + 2, 6) <= 0xffff_ffff_ffff);
    assert(spec_le_value(s, off + 1, 7) <= 0xff_ffff_ffff_ffff);
    assert(spec_le_value(s, off, 8) <= 0xffff_ffff_ffff_ffff);
}

/// Read eight little-endian bytes as a `u64`.
fn read_u64_le(input: &Vec<u8>, off: usize) -> (r: u64)
    requires
        off + 8 <= input@.len(),
    ensures
        r as int == spec_le_value(input@, off as int, 8),
{
    proof {
        assert(input@.len() == input.len());
    }
    let b0 = input[off] as u64;
    let b1 = input[off + 1] as u64;
    let b2 = input[off + 2] as u64;
    let b3 = input[off + 3] as u64;
    let b4 = input[off + 4] as u64;
    let b5 = input[off + 5] as u64;
    let b6 = input[off + 6] as u64;
    let b7 = input[off + 7] as u64;
    let r = ((((((b7 * 256 + b6) * 256 + b5) * 256 + b4) * 256 + b3) * 256 + b2) * 256 + b1) * 256
        + b0;
    proof {
        let s = input@;
        let o = off as int;
        assert(spec_le_value(s, o + 8, 0) == 0);
        assert(spec_le_value(s, o + 7, 1) == b7);
        assert(spec_le_value(s, o + 6, 2) == b6 + 256 * b7);
        assert(spec_le_value(s, o + 5, 3) == b5 + 256 * (b6 + 256 * b7));
        assert(spec_le_value(s, o + 4, 4) == b4 + 256 * (b5 + 256 * (b6 + 256 * b7)));
        assert(spec_le_value(s, o + 3, 5) == b3 + 256 * (b4 + 256 * (b5 + 256 * (b6 + 256
            * b7))));
        assert(spec_le_value(s, o + 2, 6) == b2 + 256 * (b3 + 256 * (b4 + 256 * (b5 + 256 * (b6
            + 256 * b7)))));
        assert(spec_le_value(s, o + 1, 7) == b1 + 256 * (b2 + 256 * (b3 + 256 * (b4 + 256 * (b5
            + 256 * (b6 + 256 * b7))))));
        assert(spec_le_value(s, o, 8) == b0 + 256 * (b1 + 256 * (b2 + 256 * (b3 + 256 * (b4 + 256
            * (b5 + 256 * (b6 + 256 * b7)))))));
    }
    r
}

/// Read 32 bytes as an address.
fn read_address(input: &Vec<u8>, off: usize) -> (r: Address)
    requires
        off + 32 <= input@.len(),
    ensures
        r@ == input@.subrange(off as int, off + 32),
{
    proof {
        assert(input@.len() == input.len());
    }
    let mut r: Address = [0u8; 32];
    let mut i: usize = 0;
    while i < 32
        invariant
            0 <= i <= 32,
            input@.len() <= usize::MAX,
            off + 32 <= input@.len(),
            r@.len() == 32,
            forall|j: int| 0 <= j < i ==> r@[j] == input@[off + j],
        decreases 32 - i,
    {
        r[i] = input[off + i];
        i = i + 1;
    }
    proof {
        assert(r@ =~= input@.subrange(off as int, off + 32));
    }
    r
}

/// Copy `len` bytes starting at `start` into a fresh vector.
fn copy_bytes(input: &Vec<u8>, start: usize, len: usize) -> (r: Vec<u8>)
    requires
        start + len <= input@.len(),
    ensures
        r@ == input@.subrange(start as int, start + len),
{
    proof {
        assert(input@.len() == input.len());
    }
    let mut r: Vec<u8> = Vec::new();
    let mut i: usize = 0;
    while i < len
        invariant
            0 <= i <= len,
            input@.len() <= usize::MAX,
            start + len <= input@.len(),
            r@.len() == i,
            forall|j: int| 0 <= j < i ==> r@[j] == input@[start + j],
        decreases len - i,
    {
        r.push(input[start + i]);
        i = i + 1;
    }
    proof {
        assert(r@ =~= input@.subrange(start as int, start + len));
    }
    r
}

/// One entry of the parsed account list: a fresh account handle, or the
/// position of the earlier entry this one duplicates.
pub enum MaybeAccount {
    /// A record of its own.
    Account(Account),
    /// A duplicate of the entry at the given earlier position; it shares
    /// that entry's record rather than copying it.
    Duplicated(u8),
}

impl View for MaybeAccount {
    type V = AccountEntryModel;

    open spec fn view(&self) -> AccountEntryModel {
        match self {
            MaybeAccount::Account(account) => AccountEntryModel::Fresh { account: account@ },
            MaybeAccount::Duplicated(index) => AccountEntryModel::Duplicated { index: *index },
        }
    }
}

/// Parse one account entry at `offset`, `parsed` entries having been parsed
/// before it.
fn parse_account_at(input: &Vec<u8>, offset: usize, parsed: usize) -> (r: Result<
    (MaybeAccount, usize),
    ProgramError,
>)
    ensures
        spec_parse_account(input@, offset as int, parsed as int) is None ==> r == Err::<
            (MaybeAccount, usize),
            ProgramError,
        >(ProgramError::InvalidInstructionData),
        spec_parse_account(input@, offset as int, parsed as int) matches Some((entry, next)) ==> (
        r matches Ok(pair) && pair.0@ == entry && pair.1 == next && offset < next
            <= input@.len()),
{
    if offset >= input.len() {
        return Err(ProgramError::InvalidInstructionData);
    }
    let marker = input[offset];
    if marker != NON_DUP_MARKER {
        if (marker as usize) < parsed && input.len() - offset >= DUPLICATE_ENTRY_BYTES {
            Ok((MaybeAccount::Duplicated(marker), offset + DUPLICATE_ENTRY_BYTES))
        } else {
            Err(ProgramError::InvalidInstructionData)
        }
    } else {
        if input.len() - offset < ACCOUNT_HEADER_BYTES {
            return Err(ProgramError::InvalidInstructionData);
        }
        let data_len64 = read_u64_le(input, offset + 80);
        if data_len64 > u32::MAX as u64 {
            return Err(ProgramError::InvalidInstructionData);
        }
        let data_len = data_len64 as usize;
        let header_end = offset + ACCOUNT_HEADER_BYTES;
        if input.len() - header_end < data_len {
            return Err(ProgramError::InvalidInstructionData);
        }
        if input.len() - (header_end + data_len) < MAX_PERMITTED_DATA_INCREASE {
            return Err(ProgramError::InvalidInstructionData);
        }
        let data_end = header_end + data_len + MAX_PERMITTED_DATA_INCREASE;
        let rem = data_end % 8;
        let pad = if rem == 0 {
            0
        } else {
            8 - rem
        };
        if input.len() - data_end < pad {
            return Err(ProgramError::InvalidInstructionData);
        }
        let aligned = data_end + pad;
        if input.len() - aligned < 8 {
            return Err(ProgramError::InvalidInstructionData);
        }
        let address = read_address(input, offset + 8);
        let owner = read_address(input, offset + 40);
        let lamports = read_u64_le(input, offset + 72);
        let rent_epoch = read_u64_le(input, aligned);
        let region = copy_bytes(input, header_end, data_len + MAX_PERMITTED_DATA_INCREASE);
        let account = Account::from_parsed(
            address,
            owner,
            lamports,
            input[offset + 1] != 0,
            input[offset + 2] != 0,
            input[offset + 3] != 0,
            rent_epoch,
            data_len,
            region,
        );
        proof {
            lemma_le_value_8_bound(input@, offset + 72);
            lemma_le_value_8_bound(input@, aligned as int);
        }
        Ok((MaybeAccount::Account(account), aligned + 8))
    }
}

/// The eager parser's result: the distinct account records, the slot table
/// resolving every position — duplicates included — to its record, the
/// instruction data, and the invoking program's identity.
pub struct ParsedInput {
    /// The distinct account records, in order of first appearance.
    pub accounts: Vec<Account>,
    /// For each account position of the input, the index into `accounts`
    /// of the record it refers to; duplicate positions share an index.
    pub slots: Vec<usize>,
    /// The instruction data bytes.
    pub instruction_data: Vec<u8>,
    /// The invoking program's identity.
    pub program_id: Address,
}

/// Parse a whole input buffer at once: every account record is decoded up
/// front, duplicates are resolved to shared slots, and the instruction data
/// and program identity are extracted.
pub fn parse_input(input: &Vec<u8>) -> (r: Result<ParsedInput, ProgramError>)
    ensures
        spec_parse_input(input@) is None ==> r == Err::<ParsedInput, ProgramError>(
            ProgramError::InvalidInstructionData,
        ),
        spec_parse_input(input@) matches Some(p) ==> (r matches Ok(pi) && {
            &&& pi.accounts@.len() == spec_resolve(p.entries).0.len()
            &&& forall|j: int|
                0 <= j < pi.accounts@.len() ==> #[trigger] pi.accounts@[j]@ == spec_resolve(
                    p.entries,
                ).0[j]
            &&& pi.slots@.len() == p.entries.len()
            &&& forall|k: int|
                0 <= k < pi.slots@.len() ==> #[trigger] pi.slots@[k] as int == spec_resolve(
                    p.entries,
                ).1[k]
            &&& pi.instruction_data@ == p.instruction_data
            &&& pi.program_id@ == p.program_id
        }),
{
    if input.len() < 8 {
        return Err(ProgramError::InvalidInstructionData);
    }
    let count64 = read_u64_le(input, 0);
    if count64 > MAX_TX_ACCOUNTS as u64 {
        return Err(ProgramError::InvalidInstructionData);
    }
    let count = count64 as usize;
    let ghost s = input@;
    let mut accounts: Vec<Account> = Vec::new();
    let mut slots: Vec<usize> = Vec::new();
    let mut offset: usize = 8;
    let ghost mut entries: Seq<AccountEntryModel> = Seq::empty();
    let mut i: usize = 0;
    while i < count
        invariant
            0 <= i <= count,
            count == spec_le_value(s, 0, 8),
            s == input@,
            s.len() >= 8,
            s.len() <= usize::MAX,
            8 <= offset <= s.len(),
            entries.len() == i,
            slots@.len() == i,
            spec_parse_accounts(s, 8, 0, count as int) == (match spec_parse_accounts(
                s,
                offset as int,
                i as int,
                count - i,
            ) {
                None => None::<(Seq<AccountEntryModel>, int)>,
                Some((rest, of)) => Some((entries + rest, of)),
            }),
            spec_resolve(entries).1.len() == i,
            accounts@.len() == spec_resolve(entries).0.len(),
            forall|j: int|
                0 <= j < accounts@.len() ==> #[trigger] accounts@[j]@ == spec_resolve(entries).0[j],
            forall|k: int|
                0 <= k < i ==> #[trigger] slots@[k] as int == spec_resolve(entries).1[k],
            forall|k: int|
                0 <= k < i ==> spec_resolve(entries).1[k] < spec_resolve(entries).0.len(),
        decreases count - i,
    {
        let step = parse_account_at(input, offset, i);
        match step {
            Err(e) => {
                return Err(ProgramError::InvalidInstructionData);
            },
            Ok((entry, next_offset)) => {
                let ghost entries0 = entries;
                let ghost e = entry@;
                proof {
                    entries = entries0.push(e);
                    assert(entries.drop_last() =~= entries0);
                    assert(entries.last() == e);
                    let rem2 = spec_parse_accounts(s, next_offset as int, i + 1, count - i - 1);
                    match rem2 {
                        Some((rest2, of)) => {
                            assert(entries0 + (seq![e] + rest2) =~= entries + rest2);
                        },
                        None => {},
                    }
                }
                match entry {
                    MaybeAccount::Account(account) => {
                        let slot = accounts.len();
                        accounts.push(account);
                        slots.push(slot);
                    },
                    MaybeAccount::Duplicated(d) => {
                        let slot = slots[d as usize];
                        slots.push(slot);
                    },
                }
                proof {
                    let paccs = spec_resolve(entries0).0;
                    let pslots = spec_resolve(entries0).1;
                    match e {
                        AccountEntryModel::Fresh { account } => {
                            assert(spec_resolve(entries).0 == paccs.push(account));
                            assert(spec_resolve(entries).1 == pslots.push(paccs.len() as int));
                        },
                        AccountEntryModel::Duplicated { index } => {
                            assert(index < i);
                            assert(spec_resolve(entries).0 == paccs);
                            assert(spec_resolve(entries).1 == pslots.push(pslots[index as int]));
                        },
                    }
                    assert(forall|k: int|
                        0 <= k < i ==> #[trigger] spec_resolve(entries).1[k] == pslots[k]);
                    assert(forall|j: int|
                        0 <= j < paccs.len() ==> #[trigger] spec_resolve(entries).0[j]
                            == paccs[j]);
                }
                offset = next_offset;
                i = i + 1;
            },
        }
    }
    proof {
        assert(spec_parse_accounts(s, offset as int, i as int, 0) == Some((
            Seq::<AccountEntryModel>::empty(),
            offset as int,
        )));
        assert(entries + Seq::<AccountEntryModel>::empty() =~= entries);
    }
    if input.len() - offset < 8 {
        return Err(ProgramError::InvalidInstructionData);
    }
    let dlen64 = read_u64_le(input, offset);
    let after = offset + 8;
    if dlen64 > (input.len() - after) as u64 {
        return Err(ProgramError::InvalidInstructionData);
    }
    let dlen = dlen64 as usize;
    if (input.len() - after) - dlen < 32 {
        return Err(ProgramError::InvalidInstructionData);
    }
    let instruction_data = copy_bytes(input, after, dlen);
    let program_id = read_address(input, after + dlen);
    Ok(ParsedInput { accounts, slots, instruction_data, program_id })
}

/// Model of the lazy parsing cursor.
#[verifier::ext_equal]
pub ghost struct CursorModel {
    /// The untouched input buffer.
    pub input: Seq<u8>,
    /// Offset of the next byte to parse.
    pub offset: int,
    /// Number of account entries still unparsed.
    pub remaining: int,
    /// Number of account entries parsed so far.
    pub parsed: int,
    /// Whether the instruction data has been parsed.
    pub data_done: bool,
}

/// Validity of a cursor state: the counters stay within the account cap
/// and the offset stays within the buffer. Every cursor this module hands
/// out satisfies it, and every operation preserves it.
pub open spec fn spec_cursor_inv(c: CursorModel) -> bool {
    &&& 0 <= c.parsed
    &&& 0 <= c.remaining
    &&& c.parsed + c.remaining <= MAX_TX_ACCOUNTS
    &&& 8 <= c.offset <= c.input.len()
    &&& c.input.len() <= usize::MAX
}

/// A cursor over the untouched input buffer, parsing only as far as asked:
/// accounts one at a time, then the instruction data, then the program
/// identity.
pub struct InstructionContext {
    input: Vec<u8>,
    offset: usize,
    remaining: usize,
    parsed: usize,
    data_done: bool,
}

impl View for InstructionContext {
    type V = CursorModel;

    closed spec fn view(&self) -> CursorModel {
        CursorModel {
            input: self.input@,
            offset: self.offset as int,
            remaining: self.remaining as int,
            parsed: self.parsed as int,
            data_done: self.data_done,
        }
    }
}

impl InstructionContext {
    /// Wrap an input buffer, reading only the account count.
    pub fn new(input: Vec<u8>) -> (r: Result<InstructionContext, ProgramError>)
        ensures
            (input@.len() < 8 || spec_le_value(input@, 0, 8) > MAX_TX_ACCOUNTS) ==> r == Err::<
                InstructionContext,
                ProgramError,
            >(ProgramError::InvalidInstructionData),
            (input@.len() >= 8 && spec_le_value(input@, 0, 8) <= MAX_TX_ACCOUNTS) ==> (r matches
                Ok(c) && c@ == (CursorModel {
                input: input@,
                offset: 8,
                remaining: spec_le_value(input@, 0, 8),
                parsed: 0,
                data_done: false,
            }) && spec_cursor_inv(c@)),
    {
        proof {
            assert(input@.len() == input.len());
            if input@.len() >= 8 {
                lemma_le_value_8_bound(input@, 0);
            }
        }
        if input.len() < 8 {
            return Err(ProgramError::InvalidInstructionData);
        }
        let count64 = read_u64_le(&input, 0);
        if count64 > MAX_TX_ACCOUNTS as u64 {
            return Err(ProgramError::InvalidInstructionData);
        }
        let remaining = count64 as usize;
        Ok(InstructionContext { input, offset: 8, remaining, parsed: 0, data_done: false })
    }

    /// Number of account entries still available to parse; decremented by
    /// every successful [`Self::next_account`].
    pub fn remaining(&self) -> (r: usize)
        ensures
            r == self@.remaining,
    {
        self.remaining
    }

    /// Parse the next account entry. Safe to call repeatedly: once the
    /// available entries are exhausted it fails instead of reading on.
    pub fn next_account(&mut self) -> (r: Result<MaybeAccount, ProgramError>)
        requires
            spec_cursor_inv(old(self)@),
        ensures
            spec_cursor_inv(final(self)@),
            old(self)@.remaining == 0 ==> r == Err::<MaybeAccount, ProgramError>(
                ProgramError::NotEnoughAccountKeys,
            ) && final(self)@ == old(self)@,
            old(self)@.remaining > 0 && spec_parse_account(
                old(self)@.input,
                old(self)@.offset,
                old(self)@.parsed,
            ) is None ==> r == Err::<MaybeAccount, ProgramError>(
                ProgramError::InvalidInstructionData,
            ) && final(self)@ == old(self)@,
            old(self)@.remaining > 0 ==> (spec_parse_account(
                old(self)@.input,
                old(self)@.offset,
                old(self)@.parsed,
            ) matches Some((entry, next)) ==> (r matches Ok(m) && m@ == entry && final(self)@ == (
            CursorModel {
                offset: next,
                remaining: old(self)@.remaining - 1,
                parsed: old(self)@.parsed + 1,
                ..old(self)@
            }))),
    {
        if self.remaining == 0 {
            return Err(ProgramError::NotEnoughAccountKeys);
        }
        match parse_account_at(&self.input, self.offset, self.parsed) {
            Err(e) => Err(e),
            Ok((entry, next_offset)) => {
                self.offset = next_offset;
                self.remaining = self.remaining - 1;
                self.parsed = self.parsed + 1;
                Ok(entry)
            },
        }
    }

    /// Parse the instruction data. All account entries must have been
    /// parsed first, and the data can be parsed only once.
    pub fn instruction_data(&mut self) -> (r: Result<Vec<u8>, ProgramError>)
        requires
            spec_cursor_inv(old(self)@),
            old(self)@.remaining == 0,
            !old(self)@.data_done,
        ensures
            spec_cursor_inv(final(self)@),
            ({
                let s = old(self)@.input;
                let off = old(self)@.offset;
                let bad = off + 8 > s.len() || off + 8 + spec_le_value(s, off, 8) > s.len();
                &&& bad ==> (r == Err::<Vec<u8>, ProgramError>(ProgramError::InvalidInstructionData)
                    && final(self)@ == old(self)@)
                &&& !bad ==> (r matches Ok(d) && d@ == s.subrange(
                    off + 8,
                    off + 8 + spec_le_value(s, off, 8),
                ) && final(self)@ == (CursorModel {
                    offset: off + 8 + spec_le_value(s, off, 8),
                    data_done: true,
                    ..old(self)@
                }))
            }),
    {
        if self.input.len() - self.offset < 8 {
            return Err(ProgramError::InvalidInstructionData);
        }
        let dlen64 = read_u64_le(&self.input, self.offset);
        let after = self.offset + 8;
        if dlen64 > (self.input.len() - after) as u64 {
            return Err(ProgramError::InvalidInstructionData);
        }
        let dlen = dlen64 as usize;
        let data = copy_bytes(&self.input, after, dlen);
        self.offset = after + dlen;
        self.data_done = true;
        Ok(data)
    }

    /// Parse the invoking program's identity. The instruction data must
    /// have been parsed first.
    pub fn program_id(&mut self) -> (r: Result<Address, ProgramError>)
        requires
            spec_cursor_inv(old(self)@),
            old(self)@.remaining == 0,
            old(self)@.data_done,
        ensures
            spec_cursor_inv(final(self)@),
            old(self)@.offset + 32 > old(self)@.input.len() ==> r == Err::<Address, ProgramError>(
                ProgramError::InvalidInstructionData,
            ) && final(self)@ == old(self)@,
            old(self)@.offset + 32 <= old(self)@.input.len() ==> (r matches Ok(a) && a@ == old(
                self,
            )@.input.subrange(old(self)@.offset, old(self)@.offset + 32) && final(self)@ == (
            CursorModel { offset: old(self)@.offset + 32, ..old(self)@ })),
    {
        if self.input.len() - self.offset < 32 {
            return Err(ProgramError::InvalidInstructionData);
        }
        let id = read_address(&self.input, self.offset);
        self.offset = self.offset + 32;
        Ok(id)
    }
}

/// The cursor offset after `k` account entries have been parsed lazily,
/// starting just past the account count.
pub open spec fn spec_lazy_offset(s: Seq<u8>, k: int) -> Option<int>
    decreases k,
{
    if k <= 0 {
        Some(8)
    } else {
        match spec_lazy_offset(s, k - 1) {
            None => None,
            Some(off) => match spec_parse_account(s, off, k - 1) {
                None => None,
                Some((entry, off2)) => Some(off2),
            },
        }
    }
}

/// The `k`-th account entry the lazy cursor yields.
pub open spec fn spec_lazy_entry(s: Seq<u8>, k: int) -> Option<AccountEntryModel> {
    match spec_lazy_offset(s, k) {
        None => None,
        Some(off) => match spec_parse_account(s, off, k) {
            None => None,
            Some((entry, off2)) => Some(entry),
        },
    }
}

proof fn lemma_accounts_vs_cursor(s: Seq<u8>, off: int, k: int, n: int)
    requires
        n >= 0,
        k >= 0,
        spec_parse_accounts(s, off, k, n) is Some,
        spec_lazy_offset(s, k) == Some(off),
    ensures
        spec_lazy_offset(s, k + n) == Some(spec_parse_accounts(s, off, k, n)->Some_0.1),
        forall|j: int|
            0 <= j < n ==> #[trigger] spec_lazy_entry(s, k + j) == Some(
                spec_parse_accounts(s, off, k, n)->Some_0.0[j],
            ),
    decreases n,
{
    if n > 0 {
        let (entry, off2) = spec_parse_account(s, off, k)->Some_0;
        assert(spec_lazy_offset(s, k + 1) == Some(off2));
        lemma_accounts_vs_cursor(s, off2, k + 1, n - 1);
        lemma_parse_accounts_len(s, off2, k + 1, n - 1);
        lemma_parse_accounts_len(s, off, k, n);
        let rest = spec_parse_accounts(s, off2, k + 1, n - 1)->Some_0.0;
        let entries = spec_parse_accounts(s, off, k, n)->Some_0.0;
        assert(entries =~= seq![entry] + rest);
        assert(spec_lazy_entry(s, k) == Some(entry));
        assert forall|j: int| 0 <= j < n implies #[trigger] spec_lazy_entry(s, k + j) == Some(
            entries[j],
        ) by {
            if j == 0 {
                assert(entries[0] == (seq![entry] + rest)[0]);
            } else {
                assert(entries[j] == (seq![entry] + rest)[j]);
                assert((seq![entry] + rest)[j] == rest[j - 1]);
                assert(spec_lazy_entry(s, (k + 1) + (j - 1)) == Some(rest[j - 1]));
                assert(k + j == (k + 1) + (j - 1));
            }
        }
    }
}

/// Law: the two parsing strategies agree. On any input the eager parser
/// accepts, driving the lazy cursor to completion — one `next_account` per
/// entry, then the instruction data, then the program identity — succeeds
/// at every step and yields the same entries byte for byte, the same
/// instruction data, and the same program identity.
pub proof fn lemma_parsers_agree(s: Seq<u8>)
    requires
        spec_parse_input(s) is Some,
    ensures
        s.len() >= 8 && spec_le_value(s, 0, 8) <= MAX_TX_ACCOUNTS,
        spec_parse_input(s)->Some_0.entries.len() == spec_le_value(s, 0, 8),
        forall|k: int|
            0 <= k < spec_le_value(s, 0, 8) ==> #[trigger] spec_lazy_entry(s, k) == Some(
                spec_parse_input(s)->Some_0.entries[k],
            ),
        spec_lazy_offset(s, spec_le_value(s, 0, 8)) is Some,
        ({
            let p = spec_parse_input(s)->Some_0;
            let off = spec_lazy_offset(s, spec_le_value(s, 0, 8))->Some_0;
            let dlen = spec_le_value(s, off, 8);
            &&& off + 8 + dlen <= s.len()
            &&& p.instruction_data == s.subrange(off + 8, off + 8 + dlen)
            &&& off + 8 + dlen + 32 <= s.len()
            &&& p.program_id == s.subrange(off + 8 + dlen, off + 8 + dlen + 32)
        }),
{
    lemma_le_value_8_bound(s, 0);
    let count = spec_le_value(s, 0, 8);
    let pa = spec_parse_accounts(s, 8, 0, count);
    assert(pa is Some);
    let entries = pa->Some_0.0;
    let off_end = pa->Some_0.1;
    lemma_parse_accounts_len(s, 8, 0, count);
    lemma_accounts_vs_cursor(s, 8, 0, count);
    let p = spec_parse_input(s)->Some_0;
    assert(p.entries == entries);
    assert(spec_lazy_offset(s, count) == Some(off_end));
    assert forall|k: int| 0 <= k < count implies #[trigger] spec_lazy_entry(s, k) == Some(
        p.entries[k],
    ) by {
        assert(spec_lazy_entry(s, 0 + k) == Some(entries[k]));
    }
}

proof fn lemma_parse_accounts_len(s: Seq<u8>, off: int, k: int, n: int)
    requires
        n >= 0,
        spec_parse_accounts(s, off, k, n) is Some,
    ensures
        spec_parse_accounts(s, off, k, n)->Some_0.0.len() == n,
    decreases n,
{
    if n > 0 {
        let (entry, off2) = spec_parse_account(s, off, k)->Some_0;
        lemma_parse_accounts_len(s, off2, k + 1, n - 1);
    }
}

} // verus!

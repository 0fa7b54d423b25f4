//! The storage record, its entries, and the space that they take.
//!
//! A record is persisted in a region of `BASE_ACCOUNT_SPACE` bytes that is
//! allocated once, when the record is created. The region holds, in this
//! order: an 8-byte account tag, the entry count (8 bytes), the number of
//! entries (4 bytes), the entries, and the owner's address (32 bytes). An
//! entry holds the length of its link (4 bytes), the link in UTF-8, and the
//! submitter's address (32 bytes).

use vstd::prelude::*;
use vstd::utf8::encode_utf8;
use crate::address::{Address, ADDRESS_LEN};
use crate::error::ProgramError;

verus! {

/// Bytes allocated for a storage record when it is created.
pub const BASE_ACCOUNT_SPACE: usize = 9000;

/// Bytes of the tag that marks the account as a storage record.
pub const TAG_LEN: usize = 8;

/// Bytes of the entry count.
pub const COUNT_LEN: usize = 8;

/// Bytes of the length that stands before a list and before a link.
pub const LENGTH_LEN: usize = 4;

/// Bytes that a record takes before its first entry: the account tag, the
/// entry count, the length of the list and the owner's address.
pub const RECORD_OVERHEAD: usize = TAG_LEN + COUNT_LEN + LENGTH_LEN + ADDRESS_LEN;

/// Bytes that an entry takes beside its link: the length of the link and the
/// submitter's address.
pub const ENTRY_OVERHEAD: usize = LENGTH_LEN + ADDRESS_LEN;

/// The most entries that a record can hold, reached when every link is empty.
pub const MAX_ENTRIES: usize = 248;

/// One submitted link and the address of the account that submitted it.
#[derive(Clone, Debug, PartialEq, Eq)]
pub struct ItemStruct {
    pub gif_link: String,
    pub user_address: Address,
}

/// The storage record: the entries in the order of their submission, their
/// number, and the owner's address.
#[derive(Clone, Debug, PartialEq, Eq)]
pub struct BaseAccount {
    pub total_gifs: u64,
    pub gif_list: Vec<ItemStruct>,
    pub user_address: Address,
}

/// What an `ItemStruct` stands for.
pub struct Entry {
    pub link: Seq<char>,
    pub submitter: Address,
}

/// What a `BaseAccount` stands for.
pub struct Record {
    pub entry_count: nat,
    pub entries: Seq<Entry>,
    pub owner_address: Address,
}

impl Entry {
    /// Bytes that the entry takes in storage.
    pub open spec fn size(self) -> nat {
        ENTRY_OVERHEAD as nat + encode_utf8(self.link).len()
    }
}

/// Bytes that a list of entries takes in storage.
pub open spec fn entries_size(entries: Seq<Entry>) -> nat
    decreases entries.len(),
{
    if entries.len() == 0 {
        0
    } else {
        entries_size(entries.drop_last()) + entries.last().size()
    }
}

impl Record {
    /// The record as it is created: no entries, and the owner's address zero.
    pub open spec fn fresh() -> Record {
        Record { entry_count: 0, entries: Seq::empty(), owner_address: Address::zeroed() }
    }

    /// The count is the number of entries.
    pub open spec fn wf(self) -> bool {
        self.entry_count == self.entries.len()
    }

    /// Bytes that the record takes in storage.
    pub open spec fn size(self) -> nat {
        RECORD_OVERHEAD as nat + entries_size(self.entries)
    }

    /// The record fits into the space allocated for it.
    pub open spec fn fits(self) -> bool {
        self.size() <= BASE_ACCOUNT_SPACE
    }

    /// The record with `entry` behind its entries, and counted.
    pub open spec fn with_entry(self, entry: Entry) -> Record {
        Record {
            entry_count: self.entry_count + 1,
            entries: self.entries.push(entry),
            owner_address: self.owner_address,
        }
    }

    /// There is room for `entry` behind the entries of the record.
    pub open spec fn has_room_for(self, entry: Entry) -> bool {
        self.size() + entry.size() <= BASE_ACCOUNT_SPACE
    }

    /// What appending `entry` gives: the record with the entry where there is
    /// room for it, and `AccountDataTooSmall` where there is not.
    pub open spec fn append(self, entry: Entry) -> Result<Record, ProgramError> {
        if self.has_room_for(entry) {
            Ok(self.with_entry(entry))
        } else {
            Err(ProgramError::AccountDataTooSmall)
        }
    }
}

impl View for ItemStruct {
    type V = Entry;

    open spec fn view(&self) -> Entry {
        Entry { link: self.gif_link@, submitter: self.user_address }
    }
}

impl View for BaseAccount {
    type V = Record;

    open spec fn view(&self) -> Record {
        Record {
            entry_count: self.total_gifs as nat,
            entries: self.gif_list@.map_values(|item: ItemStruct| item@),
            owner_address: self.user_address,
        }
    }
}

/// A list takes what its first `n` entries take and what the rest takes.
pub proof fn lemma_entries_size_split(entries: Seq<Entry>, n: int)
    requires
        0 <= n <= entries.len(),
    ensures
        entries_size(entries) == entries_size(entries.take(n)) + entries_size(entries.skip(n)),
    decreases entries.len(),
{
    if n == entries.len() {
        assert(entries.take(n) =~= entries);
        assert(entries.skip(n) =~= Seq::<Entry>::empty());
    } else {
        let front = entries.drop_last();
        lemma_entries_size_split(front, n);
        assert(front.take(n) =~= entries.take(n));
        assert(entries.skip(n).drop_last() =~= front.skip(n));
        assert(entries.skip(n).last() == entries.last());
    }
}

/// A list with one more entry takes what the list takes and what the entry
/// takes.
pub proof fn lemma_entries_size_push(entries: Seq<Entry>, entry: Entry)
    ensures
        entries_size(entries.push(entry)) == entries_size(entries) + entry.size(),
{
    assert(entries.push(entry).drop_last() =~= entries);
}

/// Every entry takes at least `ENTRY_OVERHEAD` bytes.
pub proof fn lemma_entries_size_lower_bound(entries: Seq<Entry>)
    ensures
        entries_size(entries) >= ENTRY_OVERHEAD * entries.len(),
    decreases entries.len(),
{
    if entries.len() > 0 {
        lemma_entries_size_lower_bound(entries.drop_last());
    }
}

/// A record that fits holds at most `MAX_ENTRIES` entries.
pub proof fn lemma_fitting_record_is_bounded(record: Record)
    requires
        record.fits(),
    ensures
        record.entries.len() <= MAX_ENTRIES,
{
    lemma_entries_size_lower_bound(record.entries);
    assert(ENTRY_OVERHEAD == 36 && RECORD_OVERHEAD == 52);
}

impl ItemStruct {
    /// The length of the link in bytes.
    pub fn link_len(&self) -> (len: usize)
        ensures
            len == encode_utf8(self@.link).len(),
    {
        self.gif_link.as_str().as_bytes().len()
    }
}

impl BaseAccount {
    /// The count is the number of entries.
    pub open spec fn wf(&self) -> bool {
        self@.wf()
    }

    /// Whether the count is the number of entries.
    pub fn is_well_formed(&self) -> (ok: bool)
        ensures
            ok == self.wf(),
    {
        self.gif_list.len() as u64 == self.total_gifs
    }

    /// A record with no entries, as it is created.
    pub fn new() -> (account: BaseAccount)
        ensures
            account@ == Record::fresh(),
            account.wf(),
            account@.fits(),
    {
        let account = BaseAccount { total_gifs: 0, gif_list: Vec::new(), user_address: Address::zero() };
        proof {
            assert(account@.entries =~= Seq::<Entry>::empty());
        }
        account
    }

    /// The bytes that are left of the allocated space once the record is
    /// stored, or `None` where the record does not fit.
    pub fn space_left(&self) -> (left: Option<usize>)
        ensures
            match left {
                Some(n) => self@.size() + n == BASE_ACCOUNT_SPACE,
                None => self@.size() > BASE_ACCOUNT_SPACE,
            },
    {
        let ghost entries = self@.entries;
        let mut left: usize = BASE_ACCOUNT_SPACE - RECORD_OVERHEAD;
        let mut i: usize = 0;
        while i < self.gif_list.len()
            invariant
                i <= self.gif_list.len(),
                entries == self@.entries,
                entries.len() == self.gif_list.len(),
                RECORD_OVERHEAD + entries_size(entries.take(i as int)) + left == BASE_ACCOUNT_SPACE,
            decreases self.gif_list.len() - i,
        {
            let len: usize = self.gif_list[i].link_len();
            proof {
                assert(entries.take(i + 1) =~= entries.take(i as int).push(entries[i as int]));
                lemma_entries_size_push(entries.take(i as int), entries[i as int]);
                lemma_entries_size_split(entries, i + 1);
            }
            if left < ENTRY_OVERHEAD || len > left - ENTRY_OVERHEAD {
                return None;
            }
            left = left - ENTRY_OVERHEAD - len;
            i += 1;
        }
        proof {
            assert(entries.take(i as int) =~= entries);
        }
        Some(left)
    }

    /// Whether there is room for `item` behind the entries of the record.
    pub fn has_room_for(&self, item: &ItemStruct) -> (room: bool)
        ensures
            room == self@.has_room_for(item@),
    {
        let len: usize = item.link_len();
        match self.space_left() {
            Some(left) => left >= ENTRY_OVERHEAD && len <= left - ENTRY_OVERHEAD,
            None => false,
        }
    }
}

} // verus!

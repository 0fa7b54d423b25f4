//! The two instructions of the program: create the storage record, and
//! append an entry to it.
//!
//! An instruction works on the accounts that its caller names. The storage
//! record is named by the slot in which it is kept: `None` while the slot
//! holds no record, `Some` once the record is created. An instruction that
//! fails leaves the accounts as it found them.

use vstd::prelude::*;
use crate::address::Address;
use crate::error::ProgramError;
use crate::state::{lemma_entries_size_push, lemma_fitting_record_is_bounded};
use crate::state::{BaseAccount, Entry, ItemStruct, Record};

verus! {

/// The account on whose behalf an instruction runs.
#[derive(Clone, Copy, Debug, PartialEq, Eq)]
pub struct Caller {
    /// The address of the account.
    pub key: Address,
    /// Whether the account signed the transaction.
    pub is_signer: bool,
}

/// The accounts of the instruction that creates the storage record.
#[derive(Clone, Debug, PartialEq, Eq)]
pub struct StartStuffOff {
    /// The slot of the record to create.
    pub base_account: Option<BaseAccount>,
    /// The account that pays for the allocation.
    pub user: Caller,
}

/// The accounts of the instruction that appends an entry.
#[derive(Clone, Debug, PartialEq, Eq)]
pub struct AddGif {
    /// The slot of the record to append to.
    pub base_account: Option<BaseAccount>,
    /// The account that submits the entry.
    pub user: Caller,
}

/// What a slot holds, as a record.
pub open spec fn slot_view(slot: Option<BaseAccount>) -> Option<Record> {
    match slot {
        Some(account) => Some(account@),
        None => None,
    }
}

/// The entry that `user` submits with `link`.
pub open spec fn submitted_entry(user: Caller, link: Seq<char>) -> Entry {
    Entry { link, submitter: user.key }
}

/// What creating the record gives: the new record, or the reason for which
/// the slot stays as it is. The payer must have signed, and the slot must be
/// empty.
pub open spec fn start_stuff_off_outcome(slot: Option<Record>, user: Caller) -> Result<
    Record,
    ProgramError,
> {
    if !user.is_signer {
        Err(ProgramError::MissingRequiredSignature)
    } else if slot is Some {
        Err(ProgramError::AccountAlreadyInitialized)
    } else {
        Ok(Record::fresh())
    }
}

/// What appending `link` on behalf of `user` gives: the new record, or the
/// reason for which the slot stays as it is. The record must exist, the
/// caller must have signed, and there must be room for the entry. Any signer
/// may append, and any link is taken.
pub open spec fn add_gif_outcome(slot: Option<Record>, user: Caller, link: Seq<char>) -> Result<
    Record,
    ProgramError,
> {
    match slot {
        None => Err(ProgramError::UninitializedAccount),
        Some(record) => if !user.is_signer {
            Err(ProgramError::MissingRequiredSignature)
        } else {
            record.append(submitted_entry(user, link))
        },
    }
}

/// Creates the storage record in an empty slot: no entries, count zero.
///
/// Fails with `MissingRequiredSignature` where the payer did not sign, and
/// with `AccountAlreadyInitialized` where the slot holds a record. Nothing
/// changes then.
pub fn start_stuff_off(ctx: &mut StartStuffOff) -> (result: Result<(), ProgramError>)
    ensures
        final(ctx).user == old(ctx).user,
        match start_stuff_off_outcome(slot_view(old(ctx).base_account), old(ctx).user) {
            Ok(record) => {
                &&& result is Ok
                &&& slot_view(final(ctx).base_account) == Some(record)
                &&& final(ctx).base_account->0.wf()
            },
            Err(e) => result == Err::<(), ProgramError>(e) && *final(ctx) == *old(ctx),
        },
{
    if !ctx.user.is_signer {
        return Err(ProgramError::MissingRequiredSignature);
    }
    if ctx.base_account.is_some() {
        return Err(ProgramError::AccountAlreadyInitialized);
    }
    ctx.base_account = Some(BaseAccount::new());
    Ok(())
}

/// Appends the link, with the address of the caller that submits it, behind
/// the entries of the record, and counts it.
///
/// Fails with `UninitializedAccount` where the slot is empty, with
/// `MissingRequiredSignature` where the caller did not sign, and with
/// `AccountDataTooSmall` where the record with the new entry would take more
/// than the space allocated for it. Nothing changes then.
pub fn add_gif(ctx: &mut AddGif, gif_link: String) -> (result: Result<(), ProgramError>)
    requires
        old(ctx).base_account is Some ==> old(ctx).base_account->0.wf(),
    ensures
        final(ctx).user == old(ctx).user,
        match add_gif_outcome(slot_view(old(ctx).base_account), old(ctx).user, gif_link@) {
            Ok(record) => {
                &&& result is Ok
                &&& slot_view(final(ctx).base_account) == Some(record)
                &&& final(ctx).base_account->0.wf()
                &&& final(ctx).base_account->0.gif_list@ == old(ctx).base_account->0.gif_list@.push(
                    (ItemStruct { gif_link, user_address: old(ctx).user.key }),
                )
            },
            Err(e) => result == Err::<(), ProgramError>(e) && *final(ctx) == *old(ctx),
        },
{
    let signed: bool = ctx.user.is_signer;
    let item = ItemStruct { gif_link, user_address: ctx.user.key };
    let room: bool = match &ctx.base_account {
        None => {
            return Err(ProgramError::UninitializedAccount);
        },
        Some(base_account) => {
            if !signed {
                return Err(ProgramError::MissingRequiredSignature);
            }
            base_account.has_room_for(&item)
        },
    };
    if !room {
        return Err(ProgramError::AccountDataTooSmall);
    }
    match &mut ctx.base_account {
        None => {},
        Some(base_account) => {
            proof {
                lemma_entries_size_push(base_account@.entries, item@);
                lemma_fitting_record_is_bounded(base_account@.with_entry(item@));
                assert(base_account.gif_list@.push(item).map_values(|i: ItemStruct| i@)
                    =~= base_account@.entries.push(item@));
            }
            base_account.gif_list.push(item);
            base_account.total_gifs += 1;
        },
    }
    Ok(())
}

} // verus!

//! What holds of the storage record over its whole life: when it is created,
//! at each append, and after any number of them.

use vstd::prelude::*;
use crate::error::ProgramError;
use crate::instructions::{add_gif_outcome, start_stuff_off_outcome, submitted_entry, Caller};
use crate::state::{entries_size, lemma_entries_size_push};
use crate::state::{Entry, Record, BASE_ACCOUNT_SPACE, MAX_ENTRIES};

verus! {

/// One call of the append instruction: who calls, and with what link.
pub struct Submission {
    pub user: Caller,
    pub link: Seq<char>,
}

impl Submission {
    /// The entry that the submission asks to append.
    pub open spec fn entry(self) -> Entry {
        submitted_entry(self.user, self.link)
    }
}

/// The slot after an instruction with this outcome: the new record where it
/// succeeded, and what the slot held where it failed.
pub open spec fn slot_after(slot: Option<Record>, outcome: Result<Record, ProgramError>) -> Option<
    Record,
> {
    match outcome {
        Ok(record) => Some(record),
        Err(_) => slot,
    }
}

/// The slot after the submissions were made one after the other, the first
/// first, whether they succeeded or not.
pub open spec fn slot_after_all(slot: Option<Record>, submissions: Seq<Submission>) -> Option<
    Record,
>
    decreases submissions.len(),
{
    if submissions.len() == 0 {
        slot
    } else {
        let before = slot_after_all(slot, submissions.drop_last());
        let last = submissions.last();
        slot_after(before, add_gif_outcome(before, last.user, last.link))
    }
}

/// The entries of the submissions that succeeded, in the order in which they
/// were made.
pub open spec fn accepted(slot: Option<Record>, submissions: Seq<Submission>) -> Seq<Entry>
    decreases submissions.len(),
{
    if submissions.len() == 0 {
        Seq::empty()
    } else {
        let front = submissions.drop_last();
        let last = submissions.last();
        if add_gif_outcome(slot_after_all(slot, front), last.user, last.link) is Ok {
            accepted(slot, front).push(last.entry())
        } else {
            accepted(slot, front)
        }
    }
}

/// Every one of the submissions succeeds.
pub open spec fn all_succeed(slot: Option<Record>, submissions: Seq<Submission>) -> bool
    decreases submissions.len(),
{
    submissions.len() == 0 || {
        let front = submissions.drop_last();
        let last = submissions.last();
        &&& all_succeed(slot, front)
        &&& add_gif_outcome(slot_after_all(slot, front), last.user, last.link) is Ok
    }
}

/// Creating the record in an empty slot, signed by the payer, gives a record
/// without entries, whose count is zero and which fits into its space.
pub proof fn lemma_created_record_is_empty(user: Caller)
    requires
        user.is_signer,
    ensures
        start_stuff_off_outcome(None, user) == Ok::<Record, ProgramError>(Record::fresh()),
        Record::fresh().entry_count == 0,
        Record::fresh().entries == Seq::<Entry>::empty(),
        Record::fresh().owner_address.is_zero(),
        Record::fresh().wf(),
        Record::fresh().fits(),
{
    broadcast use vstd::array::group_array_axioms;
}

/// Creating the record where one exists fails, and the slot keeps the record
/// with all its entries.
pub proof fn lemma_create_fails_on_existing_record(record: Record, user: Caller)
    ensures
        start_stuff_off_outcome(Some(record), user) is Err,
        user.is_signer ==> start_stuff_off_outcome(Some(record), user) == Err::<
            Record,
            ProgramError,
        >(ProgramError::AccountAlreadyInitialized),
        slot_after(Some(record), start_stuff_off_outcome(Some(record), user)) == Some(record),
{
}

/// Creating the record a second time fails, whoever asks for it, and the slot
/// keeps what the first creation left there.
pub proof fn lemma_create_twice_fails(slot: Option<Record>, first: Caller, second: Caller)
    requires
        start_stuff_off_outcome(slot, first) is Ok,
    ensures
        ({
            let created = slot_after(slot, start_stuff_off_outcome(slot, first));
            &&& created == Some(Record::fresh())
            &&& start_stuff_off_outcome(created, second) is Err
            &&& slot_after(created, start_stuff_off_outcome(created, second)) == created
        }),
{
}

/// An append succeeds exactly where the record exists, the caller has signed
/// and the record has room for the entry. It then puts the entry last, counts
/// it and keeps the rest; the count stays the number of entries, and the
/// record still fits into its space.
pub proof fn lemma_append_succeeds_iff_room(slot: Option<Record>, user: Caller, link: Seq<char>)
    ensures
        add_gif_outcome(slot, user, link) is Ok <==> {
            &&& slot is Some
            &&& user.is_signer
            &&& slot->0.size() + submitted_entry(user, link).size() <= BASE_ACCOUNT_SPACE
        },
        add_gif_outcome(slot, user, link) matches Ok(after) ==> {
            let before = slot->0;
            let entry = submitted_entry(user, link);
            &&& after.entries == before.entries.push(entry)
            &&& after.entry_count == before.entry_count + 1
            &&& after.owner_address == before.owner_address
            &&& after.size() == before.size() + entry.size()
            &&& after.fits()
            &&& before.wf() ==> after.wf()
        },
{
    if slot is Some {
        lemma_entries_size_push(slot->0.entries, submitted_entry(user, link));
    }
}

/// An append that would take the record beyond the space allocated for it
/// fails with `AccountDataTooSmall`, and the slot keeps the record as it was:
/// the same count, the same entries.
pub proof fn lemma_append_beyond_capacity_changes_nothing(
    record: Record,
    user: Caller,
    link: Seq<char>,
)
    requires
        user.is_signer,
        record.size() + submitted_entry(user, link).size() > BASE_ACCOUNT_SPACE,
    ensures
        add_gif_outcome(Some(record), user, link) == Err::<Record, ProgramError>(
            ProgramError::AccountDataTooSmall,
        ),
        slot_after(Some(record), add_gif_outcome(Some(record), user, link)) == Some(record),
{
}

/// The count and the entries change together or not at all, whatever the
/// instruction and however it ends: a failed one leaves the slot as it was, a
/// successful append adds one to the count and one entry to the list, and a
/// successful creation sets the count to zero and the list to empty.
pub proof fn lemma_count_and_entries_change_together(
    slot: Option<Record>,
    user: Caller,
    link: Seq<char>,
)
    ensures
        add_gif_outcome(slot, user, link) is Err ==> slot_after(
            slot,
            add_gif_outcome(slot, user, link),
        ) == slot,
        add_gif_outcome(slot, user, link) matches Ok(after) ==> {
            &&& after.entry_count == slot->0.entry_count + 1
            &&& after.entries.len() == slot->0.entries.len() + 1
        },
        start_stuff_off_outcome(slot, user) is Err ==> slot_after(
            slot,
            start_stuff_off_outcome(slot, user),
        ) == slot,
        start_stuff_off_outcome(slot, user) matches Ok(after) ==> {
            &&& after.entry_count == 0
            &&& after.entries.len() == 0
        },
{
}

/// After any number of submissions, failed ones among them or not, the record
/// holds its old entries and behind them the accepted ones in the order of
/// their submission, and its count has grown by their number. An empty slot
/// stays empty.
pub proof fn lemma_submissions_accumulate(slot: Option<Record>, submissions: Seq<Submission>)
    ensures
        slot is None ==> slot_after_all(slot, submissions) is None && accepted(
            slot,
            submissions,
        ).len() == 0,
        slot matches Some(record) ==> {
            &&& slot_after_all(slot, submissions) matches Some(after)
            &&& after.entries == record.entries + accepted(slot, submissions)
            &&& after.entry_count == record.entry_count + accepted(slot, submissions).len()
            &&& after.owner_address == record.owner_address
            &&& after.size() == record.size() + entries_size(accepted(slot, submissions))
            &&& record.wf() ==> after.wf()
            &&& record.fits() ==> after.fits()
        },
        accepted(slot, submissions).len() <= submissions.len(),
    decreases submissions.len(),
{
    if submissions.len() == 0 {
        if slot is Some {
            assert(slot->0.entries + accepted(slot, submissions) =~= slot->0.entries);
        }
    } else {
        let front = submissions.drop_last();
        let last = submissions.last();
        lemma_submissions_accumulate(slot, front);
        let before = slot_after_all(slot, front);
        lemma_append_succeeds_iff_room(before, last.user, last.link);
        if slot is Some && add_gif_outcome(before, last.user, last.link) is Ok {
            let record = slot->0;
            lemma_entries_size_push(accepted(slot, front), last.entry());
            assert((record.entries + accepted(slot, front)).push(last.entry()) =~= record.entries
                + accepted(slot, submissions));
        }
    }
}

/// Where every submission succeeds, the accepted entries are those of the
/// submissions, one for one and in their order.
pub proof fn lemma_all_accepted_when_all_succeed(slot: Option<Record>, submissions: Seq<Submission>)
    requires
        all_succeed(slot, submissions),
    ensures
        accepted(slot, submissions) == submissions.map_values(|s: Submission| s.entry()),
    decreases submissions.len(),
{
    let entries = submissions.map_values(|s: Submission| s.entry());
    if submissions.len() == 0 {
        assert(accepted(slot, submissions) =~= entries);
    } else {
        let front = submissions.drop_last();
        lemma_all_accepted_when_all_succeed(slot, front);
        assert(front.map_values(|s: Submission| s.entry()).push(submissions.last().entry())
            =~= entries);
    }
}

/// A record that was created and then appended to counts as many entries as
/// appends succeeded, and holds as many. Where all of them succeeded, that is
/// the number of appends, and the entries are those submitted, in the order
/// of their submission.
pub proof fn lemma_count_is_number_of_appends(submissions: Seq<Submission>)
    ensures
        ({
            let created = Some(Record::fresh());
            let after = slot_after_all(created, submissions)->0;
            &&& slot_after_all(created, submissions) is Some
            &&& after.entry_count == accepted(created, submissions).len()
            &&& after.entries.len() == after.entry_count
            &&& after.entries == accepted(created, submissions)
            &&& after.entry_count <= MAX_ENTRIES
            &&& all_succeed(created, submissions) ==> {
                &&& after.entry_count == submissions.len()
                &&& after.entries == submissions.map_values(|s: Submission| s.entry())
            }
        }),
{
    let created = Some(Record::fresh());
    lemma_submissions_accumulate(created, submissions);
    assert(Record::fresh().entries + accepted(created, submissions) =~= accepted(
        created,
        submissions,
    ));
    crate::state::lemma_fitting_record_is_bounded(slot_after_all(created, submissions)->0);
    if all_succeed(created, submissions) {
        lemma_all_accepted_when_all_succeed(created, submissions);
    }
}

/// Two appends in a row that both succeed leave the first entry directly
/// before the second, behind all that was there, whoever the callers are.
pub proof fn lemma_two_appends_keep_order(
    record: Record,
    first: Submission,
    second: Submission,
)
    requires
        add_gif_outcome(Some(record), first.user, first.link) is Ok,
        add_gif_outcome(
            Some(add_gif_outcome(Some(record), first.user, first.link)->Ok_0),
            second.user,
            second.link,
        ) is Ok,
    ensures
        ({
            let between = add_gif_outcome(Some(record), first.user, first.link)->Ok_0;
            let after = add_gif_outcome(Some(between), second.user, second.link)->Ok_0;
            let n = record.entries.len() as int;
            &&& after.entries.len() == n + 2
            &&& after.entries.take(n) == record.entries
            &&& after.entries[n] == first.entry()
            &&& after.entries[n + 1] == second.entry()
            &&& after.entry_count == record.entry_count + 2
        }),
{
    let between = add_gif_outcome(Some(record), first.user, first.link)->Ok_0;
    let after = add_gif_outcome(Some(between), second.user, second.link)->Ok_0;
    assert(after.entries.take(record.entries.len() as int) =~= record.entries);
}

} // verus!

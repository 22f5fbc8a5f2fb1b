use vstd::prelude::*;

use crate::listing::{listed_in_order, sort_listed, ListOrder};
use crate::scheduler::{
    project_recurrence, project_recurrence_history, project_schedule, project_schedule_history,
    schedule_events_view, schedule_status, FixedIntervalRecurrence, FixedIntervalRecurrenceView,
    RecurrenceEvent, RecurrenceId, RecurrenceStoreError, ScheduleEvent, ScheduleId,
    ScheduleInstant, ScheduleStatus, ScheduleStoreError, ScheduledTask, ScheduledTaskView,
};
use crate::text::{is_blank, lemma_text_lt_asymmetric, lemma_text_lt_transitive, strip_prefix, suffix_after, text_less, text_lt};

verus! {

/// Recurrences listed by ascending exact identity.
pub struct RecurrencesById;

impl ListOrder<FixedIntervalRecurrence> for RecurrencesById {
    open spec fn before(&self, a: FixedIntervalRecurrence, b: FixedIntervalRecurrence) -> bool {
        text_lt(a@.id, b@.id)
    }

    fn is_before(&self, a: &FixedIntervalRecurrence, b: &FixedIntervalRecurrence) -> (r: bool) {
        text_less(a.id().as_str(), b.id().as_str())
    }

    proof fn lemma_before_transitive(&self, a: FixedIntervalRecurrence, b: FixedIntervalRecurrence, c: FixedIntervalRecurrence) {
        lemma_text_lt_transitive(a@.id, b@.id, c@.id);
    }

    proof fn lemma_before_asymmetric(&self, a: FixedIntervalRecurrence, b: FixedIntervalRecurrence) {
        lemma_text_lt_asymmetric(a@.id, b@.id);
    }
}

/// The identity named by a listed stream, if the stream names one.
pub open spec fn listed_recurrence_id(stream_id: Seq<char>) -> Option<Seq<char>> {
    match suffix_after(stream_id, "recurrence:"@) {
        Some(rest) => if is_blank(rest) {
            None
        } else {
            Some(rest)
        },
        None => None,
    }
}

/// Recovers an identity from the name of a stream that the listing found.
pub fn recurrence_id_from_stream(stream_id: String) -> (r: Result<RecurrenceId, RecurrenceStoreError>)
    ensures
        match listed_recurrence_id(stream_id@) {
            Some(id) => r matches Ok(i) && i@ == id,
            None => r matches Err(RecurrenceStoreError::InvalidStreamId { stream_id: s }) && s@ == stream_id@,
        },
{
    let rest = match strip_prefix(stream_id.as_str(), "recurrence:") {
        Some(rest) => rest.to_owned(),
        None => {
            return Err(RecurrenceStoreError::InvalidStreamId { stream_id });
        },
    };
    match RecurrenceId::new(rest) {
        Ok(id) => Ok(id),
        Err(_) => Err(RecurrenceStoreError::InvalidStreamId { stream_id }),
    }
}

/// The recurrence that one listed stream holds, when it holds a valid one.
pub open spec fn listed_recurrence(stream_id: Seq<char>, events: Seq<RecurrenceEvent>) -> Option<FixedIntervalRecurrenceView> {
    match listed_recurrence_id(stream_id) {
        Some(id) => match project_recurrence(id, events) {
            Some(Some(v)) => Some(v),
            _ => None,
        },
        None => None,
    }
}

/// The refusal that one listed stream without a valid recurrence meets.
pub open spec fn listed_recurrence_refusal(stream_id: Seq<char>, events: Seq<RecurrenceEvent>, e: RecurrenceStoreError) -> bool {
    match listed_recurrence_id(stream_id) {
        None => e matches RecurrenceStoreError::InvalidStreamId { stream_id: s } && s@ == stream_id,
        Some(id) => match project_recurrence(id, events) {
            Some(None) => e matches RecurrenceStoreError::InvalidHistory { event_count } && event_count == 0,
            None => e matches RecurrenceStoreError::InvalidHistory { event_count } && event_count == events.len(),
            Some(Some(_)) => false,
        },
    }
}

/// A listed stream that meets a refusal after earlier streams that held valid
/// values makes the whole listing fail with that refusal.
proof fn lemma_recurrence_refusal_at(all: Seq<(String, Vec<RecurrenceEvent>)>, found: Seq<FixedIntervalRecurrence>, k: int, e: RecurrenceStoreError)
    requires
        0 <= k < all.len(),
        found.len() == k,
        forall|i: int| 0 <= i < k ==> Some(#[trigger] found[i]@) == listed_recurrence(all[i].0@, all[i].1@),
        listed_recurrence_refusal(all[k].0@, all[k].1@, e),
    ensures
        !(forall|i: int| 0 <= i < all.len() ==> #[trigger] listed_recurrence(all[i].0@, all[i].1@) is Some),
        exists|j: int|
            0 <= j < all.len() && (forall|i: int|
                0 <= i < j ==> #[trigger] listed_recurrence(all[i].0@, all[i].1@) is Some)
                && listed_recurrence_refusal(all[j].0@, all[j].1@, e),
{
    assert forall|i: int| 0 <= i < k implies #[trigger] listed_recurrence(all[i].0@, all[i].1@) is Some by {
        assert(Some(found[i]@) == listed_recurrence(all[i].0@, all[i].1@));
    }
    assert(listed_recurrence(all[k].0@, all[k].1@) is None);
}

/// Replays every discovered stream into its recurrence; the first stream, in the
/// given order, that holds no valid recurrence is reported.
pub fn collect_recurrences(streams: Vec<(String, Vec<RecurrenceEvent>)>) -> (r: Result<Vec<FixedIntervalRecurrence>, RecurrenceStoreError>)
    ensures
        r is Ok <==> forall|k: int|
            0 <= k < streams@.len() ==> #[trigger] listed_recurrence(streams@[k].0@, streams@[k].1@) is Some,
        r matches Ok(v) ==> v@.len() == streams@.len() && forall|k: int|
            0 <= k < v@.len() ==> Some(#[trigger] v@[k]@) == listed_recurrence(
                streams@[k].0@,
                streams@[k].1@,
            ),
        r matches Err(e) ==> exists|k: int|
            0 <= k < streams@.len() && (forall|i: int|
                0 <= i < k ==> #[trigger] listed_recurrence(streams@[i].0@, streams@[i].1@) is Some)
                && listed_recurrence_refusal(streams@[k].0@, streams@[k].1@, e),
{
    let ghost all = streams@;
    let n = streams.len();
    let mut rest = streams;
    let mut found: Vec<FixedIntervalRecurrence> = Vec::new();
    let mut k: usize = 0;
    while rest.len() > 0
        invariant
            k + rest@.len() == all.len(),
            all.len() == n,
            all == streams@,
            rest@ == all.subrange(k as int, all.len() as int),
            found@.len() == k,
            forall|i: int| 0 <= i < k ==> Some(#[trigger] found@[i]@) == listed_recurrence(all[i].0@, all[i].1@),
        decreases rest@.len(),
    {
        let ghost before = rest@;
        let (stream_id, events) = rest.remove(0);
        proof {
            assert(before[0] == all[k as int]);
            assert(rest@ =~= all.subrange(k + 1, all.len() as int));
        }
        let id = match recurrence_id_from_stream(stream_id) {
            Ok(id) => id,
            Err(e) => {
                proof {
                    lemma_recurrence_refusal_at(all, found@, k as int, e);
                }
                return Err(e);
            },
        };
        match project_recurrence_history(id, events) {
            Ok(Some(loaded)) => {
                found.push(loaded);
            },
            Ok(None) => {
                let e = RecurrenceStoreError::InvalidHistory { event_count: 0 };
                proof {
                    lemma_recurrence_refusal_at(all, found@, k as int, e);
                }
                return Err(e);
            },
            Err(e) => {
                proof {
                    lemma_recurrence_refusal_at(all, found@, k as int, e);
                }
                return Err(e);
            },
        }
        k = k + 1;
    }
    proof {
        assert forall|i: int| 0 <= i < all.len() implies #[trigger] listed_recurrence(all[i].0@, all[i].1@) is Some by {
            assert(Some(found@[i]@) == listed_recurrence(all[i].0@, all[i].1@));
        }
    }
    Ok(found)
}

/// Replays every discovered stream and lists the recurrences by ascending identity.
pub fn list_recurrences(streams: Vec<(String, Vec<RecurrenceEvent>)>) -> (r: Result<Vec<FixedIntervalRecurrence>, RecurrenceStoreError>)
    ensures
        r is Ok <==> forall|k: int|
            0 <= k < streams@.len() ==> #[trigger] listed_recurrence(streams@[k].0@, streams@[k].1@) is Some,
        r matches Ok(v) ==> {
            &&& listed_in_order(RecurrencesById, v@)
            &&& exists|found: Seq<FixedIntervalRecurrence>|
                #![trigger found.to_multiset()]
                {
                    &&& found.len() == streams@.len()
                    &&& forall|k: int|
                        0 <= k < found.len() ==> Some(#[trigger] found[k]@) == listed_recurrence(
                            streams@[k].0@,
                            streams@[k].1@,
                        )
                    &&& v@.to_multiset() == found.to_multiset()
                }
        },
        r matches Err(e) ==> exists|k: int|
            0 <= k < streams@.len() && (forall|i: int|
                0 <= i < k ==> #[trigger] listed_recurrence(streams@[i].0@, streams@[i].1@) is Some)
                && listed_recurrence_refusal(streams@[k].0@, streams@[k].1@, e),
{
    match collect_recurrences(streams) {
        Ok(found) => {
            let ghost found_all = found@;
            let sorted = sort_listed(found, &RecurrencesById);
            Ok(sorted)
        },
        Err(e) => Err(e),
    }
}


/// Schedules listed by ascending exact identity.
pub struct SchedulesById;

impl ListOrder<ScheduledTask> for SchedulesById {
    open spec fn before(&self, a: ScheduledTask, b: ScheduledTask) -> bool {
        text_lt(a@.id, b@.id)
    }

    fn is_before(&self, a: &ScheduledTask, b: &ScheduledTask) -> (r: bool) {
        text_less(a.id().as_str(), b.id().as_str())
    }

    proof fn lemma_before_transitive(&self, a: ScheduledTask, b: ScheduledTask, c: ScheduledTask) {
        lemma_text_lt_transitive(a@.id, b@.id, c@.id);
    }

    proof fn lemma_before_asymmetric(&self, a: ScheduledTask, b: ScheduledTask) {
        lemma_text_lt_asymmetric(a@.id, b@.id);
    }
}

/// The identity named by a listed stream, if the stream names one.
pub open spec fn listed_schedule_id(stream_id: Seq<char>) -> Option<Seq<char>> {
    match suffix_after(stream_id, "schedule:"@) {
        Some(rest) => if is_blank(rest) {
            None
        } else {
            Some(rest)
        },
        None => None,
    }
}

/// Recovers an identity from the name of a stream that the listing found.
pub fn schedule_id_from_stream(stream_id: String) -> (r: Result<ScheduleId, ScheduleStoreError>)
    ensures
        match listed_schedule_id(stream_id@) {
            Some(id) => r matches Ok(i) && i@ == id,
            None => r matches Err(ScheduleStoreError::InvalidStreamId { stream_id: s }) && s@ == stream_id@,
        },
{
    let rest = match strip_prefix(stream_id.as_str(), "schedule:") {
        Some(rest) => rest.to_owned(),
        None => {
            return Err(ScheduleStoreError::InvalidStreamId { stream_id });
        },
    };
    match ScheduleId::new(rest) {
        Ok(id) => Ok(id),
        Err(_) => Err(ScheduleStoreError::InvalidStreamId { stream_id }),
    }
}

/// The schedule that one listed stream holds, when it holds a valid one.
pub open spec fn listed_schedule(stream_id: Seq<char>, events: Seq<ScheduleEvent>) -> Option<ScheduledTaskView> {
    match listed_schedule_id(stream_id) {
        Some(id) => match project_schedule(id, schedule_events_view(events)) {
            Some(Some(v)) => Some(v),
            _ => None,
        },
        None => None,
    }
}

/// The refusal that one listed stream without a valid schedule meets.
pub open spec fn listed_schedule_refusal(stream_id: Seq<char>, events: Seq<ScheduleEvent>, e: ScheduleStoreError) -> bool {
    match listed_schedule_id(stream_id) {
        None => e matches ScheduleStoreError::InvalidStreamId { stream_id: s } && s@ == stream_id,
        Some(id) => match project_schedule(id, schedule_events_view(events)) {
            Some(None) => e matches ScheduleStoreError::InvalidHistory { event_count } && event_count == 0,
            None => e matches ScheduleStoreError::InvalidHistory { event_count } && event_count == events.len(),
            Some(Some(_)) => false,
        },
    }
}

/// A listed stream that meets a refusal after earlier streams that held valid
/// values makes the whole listing fail with that refusal.
proof fn lemma_schedule_refusal_at(all: Seq<(String, Vec<ScheduleEvent>)>, found: Seq<ScheduledTask>, k: int, e: ScheduleStoreError)
    requires
        0 <= k < all.len(),
        found.len() == k,
        forall|i: int| 0 <= i < k ==> Some(#[trigger] found[i]@) == listed_schedule(all[i].0@, all[i].1@),
        listed_schedule_refusal(all[k].0@, all[k].1@, e),
    ensures
        !(forall|i: int| 0 <= i < all.len() ==> #[trigger] listed_schedule(all[i].0@, all[i].1@) is Some),
        exists|j: int|
            0 <= j < all.len() && (forall|i: int|
                0 <= i < j ==> #[trigger] listed_schedule(all[i].0@, all[i].1@) is Some)
                && listed_schedule_refusal(all[j].0@, all[j].1@, e),
{
    assert forall|i: int| 0 <= i < k implies #[trigger] listed_schedule(all[i].0@, all[i].1@) is Some by {
        assert(Some(found[i]@) == listed_schedule(all[i].0@, all[i].1@));
    }
    assert(listed_schedule(all[k].0@, all[k].1@) is None);
}

/// Replays every discovered stream into its schedule; the first stream, in the
/// given order, that holds no valid schedule is reported.
pub fn collect_schedules(streams: Vec<(String, Vec<ScheduleEvent>)>) -> (r: Result<Vec<ScheduledTask>, ScheduleStoreError>)
    ensures
        r is Ok <==> forall|k: int|
            0 <= k < streams@.len() ==> #[trigger] listed_schedule(streams@[k].0@, streams@[k].1@) is Some,
        r matches Ok(v) ==> v@.len() == streams@.len() && forall|k: int|
            0 <= k < v@.len() ==> Some(#[trigger] v@[k]@) == listed_schedule(
                streams@[k].0@,
                streams@[k].1@,
            ),
        r matches Err(e) ==> exists|k: int|
            0 <= k < streams@.len() && (forall|i: int|
                0 <= i < k ==> #[trigger] listed_schedule(streams@[i].0@, streams@[i].1@) is Some)
                && listed_schedule_refusal(streams@[k].0@, streams@[k].1@, e),
{
    let ghost all = streams@;
    let n = streams.len();
    let mut rest = streams;
    let mut found: Vec<ScheduledTask> = Vec::new();
    let mut k: usize = 0;
    while rest.len() > 0
        invariant
            k + rest@.len() == all.len(),
            all.len() == n,
            all == streams@,
            rest@ == all.subrange(k as int, all.len() as int),
            found@.len() == k,
            forall|i: int| 0 <= i < k ==> Some(#[trigger] found@[i]@) == listed_schedule(all[i].0@, all[i].1@),
        decreases rest@.len(),
    {
        let ghost before = rest@;
        let (stream_id, events) = rest.remove(0);
        proof {
            assert(before[0] == all[k as int]);
            assert(rest@ =~= all.subrange(k + 1, all.len() as int));
        }
        let id = match schedule_id_from_stream(stream_id) {
            Ok(id) => id,
            Err(e) => {
                proof {
                    lemma_schedule_refusal_at(all, found@, k as int, e);
                }
                return Err(e);
            },
        };
        match project_schedule_history(id, &events) {
            Ok(Some(loaded)) => {
                found.push(loaded);
            },
            Ok(None) => {
                let e = ScheduleStoreError::InvalidHistory { event_count: 0 };
                proof {
                    lemma_schedule_refusal_at(all, found@, k as int, e);
                }
                return Err(e);
            },
            Err(e) => {
                proof {
                    lemma_schedule_refusal_at(all, found@, k as int, e);
                }
                return Err(e);
            },
        }
        k = k + 1;
    }
    proof {
        assert forall|i: int| 0 <= i < all.len() implies #[trigger] listed_schedule(all[i].0@, all[i].1@) is Some by {
            assert(Some(found@[i]@) == listed_schedule(all[i].0@, all[i].1@));
        }
    }
    Ok(found)
}

/// Replays every discovered stream and lists the schedules by ascending identity.
pub fn list_schedules(streams: Vec<(String, Vec<ScheduleEvent>)>) -> (r: Result<Vec<ScheduledTask>, ScheduleStoreError>)
    ensures
        r is Ok <==> forall|k: int|
            0 <= k < streams@.len() ==> #[trigger] listed_schedule(streams@[k].0@, streams@[k].1@) is Some,
        r matches Ok(v) ==> {
            &&& listed_in_order(SchedulesById, v@)
            &&& exists|found: Seq<ScheduledTask>|
                #![trigger found.to_multiset()]
                {
                    &&& found.len() == streams@.len()
                    &&& forall|k: int|
                        0 <= k < found.len() ==> Some(#[trigger] found[k]@) == listed_schedule(
                            streams@[k].0@,
                            streams@[k].1@,
                        )
                    &&& v@.to_multiset() == found.to_multiset()
                }
        },
        r matches Err(e) ==> exists|k: int|
            0 <= k < streams@.len() && (forall|i: int|
                0 <= i < k ==> #[trigger] listed_schedule(streams@[i].0@, streams@[i].1@) is Some)
                && listed_schedule_refusal(streams@[k].0@, streams@[k].1@, e),
{
    match collect_schedules(streams) {
        Ok(found) => {
            let ghost found_all = found@;
            let sorted = sort_listed(found, &SchedulesById);
            Ok(sorted)
        },
        Err(e) => Err(e),
    }
}


/// Schedules listed by ascending due instant, then by ascending exact identity.
pub struct SchedulesByDue;

/// The due order: an earlier instant first, and the lesser identity among equal instants.
pub open spec fn due_before(a: ScheduledTaskView, b: ScheduledTaskView) -> bool {
    a.due_at < b.due_at || (a.due_at == b.due_at && text_lt(a.id, b.id))
}

impl ListOrder<ScheduledTask> for SchedulesByDue {
    open spec fn before(&self, a: ScheduledTask, b: ScheduledTask) -> bool {
        due_before(a@, b@)
    }

    fn is_before(&self, a: &ScheduledTask, b: &ScheduledTask) -> (r: bool) {
        let x = a.due_at().unix_millis();
        let y = b.due_at().unix_millis();
        x < y || (x == y && text_less(a.id().as_str(), b.id().as_str()))
    }

    proof fn lemma_before_transitive(&self, a: ScheduledTask, b: ScheduledTask, c: ScheduledTask) {
        if a@.due_at == b@.due_at && b@.due_at == c@.due_at {
            lemma_text_lt_transitive(a@.id, b@.id, c@.id);
        }
    }

    proof fn lemma_before_asymmetric(&self, a: ScheduledTask, b: ScheduledTask) {
        if a@.due_at == b@.due_at {
            lemma_text_lt_asymmetric(a@.id, b@.id);
        }
    }
}

/// A due listing runs from the earliest due instant to the latest: in any list in the
/// due order, an earlier entry is never due later than a later one, and entries due at
/// the same instant stand in ascending identity order.
pub proof fn lemma_due_order_is_chronological(s: Seq<ScheduledTask>)
    requires
        listed_in_order(SchedulesByDue, s),
    ensures
        forall|i: int, j: int| 0 <= i < j < s.len() ==> (#[trigger] s[i])@.due_at <= (#[trigger] s[j])@.due_at,
        forall|i: int, j: int|
            0 <= i < j < s.len() && (#[trigger] s[i])@.due_at == (#[trigger] s[j])@.due_at
                ==> !text_lt(s[j]@.id, s[i]@.id),
{
    assert forall|i: int, j: int| 0 <= i < j < s.len() implies (#[trigger] s[i])@.due_at
        <= (#[trigger] s[j])@.due_at by {
        assert(!SchedulesByDue.before(s[j], s[i]));
    }
    assert forall|i: int, j: int|
        0 <= i < j < s.len() && (#[trigger] s[i])@.due_at == (#[trigger] s[j])@.due_at implies !text_lt(
        s[j]@.id,
        s[i]@.id,
    ) by {
        assert(!SchedulesByDue.before(s[j], s[i]));
    }
}

/// The schedules with one exact status, in their given order.
#[verifier::loop_isolation(false)]
pub fn schedules_with_status(schedules: Vec<ScheduledTask>, status: ScheduleStatus) -> (r: Vec<
    ScheduledTask,
>)
    ensures
        r@ == schedules@.filter(|s: ScheduledTask| schedule_status(s@) == status),
{
    let ghost pred = |s: ScheduledTask| schedule_status(s@) == status;
    let ghost all = schedules@;
    let n = schedules.len();
    let mut rest = schedules;
    let mut out: Vec<ScheduledTask> = Vec::new();
    let mut k: usize = 0;
    assert(all.subrange(0, 0).filter(pred) =~= Seq::<ScheduledTask>::empty()) by {
        reveal(Seq::filter);
    }
    while rest.len() > 0
        invariant
            k + rest@.len() == all.len(),
            all.len() == n,
            rest@ == all.subrange(k as int, all.len() as int),
            out@ == all.subrange(0, k as int).filter(pred),
        decreases rest@.len(),
    {
        let ghost before = rest@;
        let scheduled = rest.remove(0);
        proof {
            assert(before[0] == all[k as int]);
            assert(rest@ =~= all.subrange(k + 1, all.len() as int));
            reveal(Seq::filter);
            assert(all.subrange(0, k + 1).len() > 0);
            assert(all.subrange(0, k + 1).drop_last() =~= all.subrange(0, k as int));
            assert(all.subrange(0, k + 1).last() == scheduled);
        }
        let keep = scheduled.status() == status;
        if keep {
            out.push(scheduled);
        }
        k = k + 1;
    }
    assert(all.subrange(0, all.len() as int) =~= all);
    out
}

/// Whether a schedule is pending and due at or before the cutoff.
pub open spec fn due_by(s: ScheduledTaskView, cutoff: u64) -> bool {
    schedule_status(s) == ScheduleStatus::Pending && s.due_at <= cutoff
}

/// The pending schedules due at or before a caller-owned cutoff, ordered by due
/// instant and then by exact identity.
pub fn due_schedules(schedules: Vec<ScheduledTask>, cutoff: ScheduleInstant) -> (r: Vec<
    ScheduledTask,
>)
    ensures
        r@.to_multiset() == schedules@.filter(|s: ScheduledTask| due_by(s@, cutoff@)).to_multiset(),
        listed_in_order(SchedulesByDue, r@),
{
    let ghost pred = |s: ScheduledTask| due_by(s@, cutoff@);
    let ghost all = schedules@;
    let n = schedules.len();
    let mut rest = schedules;
    let mut due: Vec<ScheduledTask> = Vec::new();
    let mut k: usize = 0;
    assert(all.subrange(0, 0).filter(pred) =~= Seq::<ScheduledTask>::empty()) by {
        reveal(Seq::filter);
    }
    while rest.len() > 0
        invariant
            k + rest@.len() == all.len(),
            all.len() == n,
            rest@ == all.subrange(k as int, all.len() as int),
            due@ == all.subrange(0, k as int).filter(pred),
            pred == (|s: ScheduledTask| due_by(s@, cutoff@)),
        decreases rest@.len(),
    {
        let ghost before = rest@;
        let scheduled = rest.remove(0);
        proof {
            assert(before[0] == all[k as int]);
            assert(rest@ =~= all.subrange(k + 1, all.len() as int));
            reveal(Seq::filter);
            assert(all.subrange(0, k + 1).len() > 0);
            assert(all.subrange(0, k + 1).drop_last() =~= all.subrange(0, k as int));
            assert(all.subrange(0, k + 1).last() == scheduled);
        }
        let keep = scheduled.status() == ScheduleStatus::Pending
            && scheduled.due_at().unix_millis() <= cutoff.unix_millis();
        if keep {
            due.push(scheduled);
        }
        k = k + 1;
    }
    assert(all.subrange(0, all.len() as int) =~= all);
    sort_listed(due, &SchedulesByDue)
}

} // verus!

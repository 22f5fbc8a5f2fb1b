use vstd::prelude::*;

use crate::event_log::{DecodeError, EventLogError, ExpectedVersion, ReplayError, StreamId};
use crate::replay::{replay, lemma_replay_push, lemma_replay_rejected_prefix, lemma_replay_step};
use crate::task::{TaskGoal, TaskId};
use crate::text::{decimal, is_blank, opt_view, str_equals, str_is_blank, u64_to_decimal};
use vstd::utf8::encode_utf8;

verus! {

/// An opaque, non-blank identity for one durable schedule intent.
#[derive(Debug, Hash, PartialEq, Eq, PartialOrd, Ord)]
pub struct ScheduleId(String);

impl View for ScheduleId {
    type V = Seq<char>;

    closed spec fn view(&self) -> Seq<char> {
        self.0@
    }
}

impl ScheduleId {
    #[verifier::type_invariant]
    closed spec fn inv(self) -> bool {
        !is_blank(self.0@)
    }

    pub fn new(value: String) -> (r: Result<Self, ScheduleIdError>)
        ensures
            r is Ok <==> !is_blank(value@),
            r matches Ok(v) ==> v@ == value@,
    {
        if str_is_blank(value.as_str()) {
            Err(ScheduleIdError)
        } else {
            Ok(ScheduleId(value))
        }
    }

    pub fn as_str(&self) -> (r: &str)
        ensures
            r@ == self@,
            !is_blank(r@),
    {
        proof {
            use_type_invariant(self);
        }
        self.0.as_str()
    }

    /// Exact textual equality of two values.
    pub fn same_as(&self, other: &Self) -> (r: bool)
        ensures
            r == (self@ == other@),
    {
        self.0 == other.0
    }
}

impl Clone for ScheduleId {
    fn clone(&self) -> (r: Self)
        ensures
            r == *self,
    {
        proof {
            use_type_invariant(self);
        }
        ScheduleId(self.0.clone())
    }
}

#[derive(Clone, Copy, Debug, PartialEq, Eq, Structural)]
pub struct ScheduleIdError;

impl ScheduleIdError {
    pub fn to_string(&self) -> (r: String)
        ensures
            r@ == "schedule id must not be blank"@,
    {
        "schedule id must not be blank".to_owned()
    }
}

/// A caller-supplied, non-blank reason for withdrawing pending schedule intent.
#[derive(Debug, PartialEq, Eq)]
pub struct ScheduleCancellation(String);

impl View for ScheduleCancellation {
    type V = Seq<char>;

    closed spec fn view(&self) -> Seq<char> {
        self.0@
    }
}

impl ScheduleCancellation {
    #[verifier::type_invariant]
    closed spec fn inv(self) -> bool {
        !is_blank(self.0@)
    }

    pub fn new(value: String) -> (r: Result<Self, ScheduleCancellationError>)
        ensures
            r is Ok <==> !is_blank(value@),
            r matches Ok(v) ==> v@ == value@,
    {
        if str_is_blank(value.as_str()) {
            Err(ScheduleCancellationError)
        } else {
            Ok(ScheduleCancellation(value))
        }
    }

    pub fn as_str(&self) -> (r: &str)
        ensures
            r@ == self@,
            !is_blank(r@),
    {
        proof {
            use_type_invariant(self);
        }
        self.0.as_str()
    }
}

impl Clone for ScheduleCancellation {
    fn clone(&self) -> (r: Self)
        ensures
            r == *self,
    {
        proof {
            use_type_invariant(self);
        }
        ScheduleCancellation(self.0.clone())
    }
}

#[derive(Clone, Copy, Debug, PartialEq, Eq, Structural)]
pub struct ScheduleCancellationError;

impl ScheduleCancellationError {
    pub fn to_string(&self) -> (r: String)
        ensures
            r@ == "schedule cancellation reason must not be blank"@,
    {
        "schedule cancellation reason must not be blank".to_owned()
    }
}

/// A caller-supplied, non-blank reason for recovering a claimed schedule.
#[derive(Debug, PartialEq, Eq)]
pub struct ScheduleRelease(String);

impl View for ScheduleRelease {
    type V = Seq<char>;

    closed spec fn view(&self) -> Seq<char> {
        self.0@
    }
}

impl ScheduleRelease {
    #[verifier::type_invariant]
    closed spec fn inv(self) -> bool {
        !is_blank(self.0@)
    }

    pub fn new(value: String) -> (r: Result<Self, ScheduleReleaseError>)
        ensures
            r is Ok <==> !is_blank(value@),
            r matches Ok(v) ==> v@ == value@,
    {
        if str_is_blank(value.as_str()) {
            Err(ScheduleReleaseError)
        } else {
            Ok(ScheduleRelease(value))
        }
    }

    pub fn as_str(&self) -> (r: &str)
        ensures
            r@ == self@,
            !is_blank(r@),
    {
        proof {
            use_type_invariant(self);
        }
        self.0.as_str()
    }
}

impl Clone for ScheduleRelease {
    fn clone(&self) -> (r: Self)
        ensures
            r == *self,
    {
        proof {
            use_type_invariant(self);
        }
        ScheduleRelease(self.0.clone())
    }
}

#[derive(Clone, Copy, Debug, PartialEq, Eq, Structural)]
pub struct ScheduleReleaseError;

impl ScheduleReleaseError {
    pub fn to_string(&self) -> (r: String)
        ensures
            r@ == "schedule release reason must not be blank"@,
    {
        "schedule release reason must not be blank".to_owned()
    }
}

/// An opaque, non-blank identity for one durable recurrence definition.
#[derive(Debug, Hash, PartialEq, Eq, PartialOrd, Ord)]
pub struct RecurrenceId(String);

impl View for RecurrenceId {
    type V = Seq<char>;

    closed spec fn view(&self) -> Seq<char> {
        self.0@
    }
}

impl RecurrenceId {
    #[verifier::type_invariant]
    closed spec fn inv(self) -> bool {
        !is_blank(self.0@)
    }

    pub fn new(value: String) -> (r: Result<Self, RecurrenceIdError>)
        ensures
            r is Ok <==> !is_blank(value@),
            r matches Ok(v) ==> v@ == value@,
    {
        if str_is_blank(value.as_str()) {
            Err(RecurrenceIdError)
        } else {
            Ok(RecurrenceId(value))
        }
    }

    pub fn as_str(&self) -> (r: &str)
        ensures
            r@ == self@,
            !is_blank(r@),
    {
        proof {
            use_type_invariant(self);
        }
        self.0.as_str()
    }

    /// Exact textual equality of two values.
    pub fn same_as(&self, other: &Self) -> (r: bool)
        ensures
            r == (self@ == other@),
    {
        self.0 == other.0
    }
}

impl Clone for RecurrenceId {
    fn clone(&self) -> (r: Self)
        ensures
            r == *self,
    {
        proof {
            use_type_invariant(self);
        }
        RecurrenceId(self.0.clone())
    }
}

#[derive(Clone, Copy, Debug, PartialEq, Eq, Structural)]
pub struct RecurrenceIdError;

impl RecurrenceIdError {
    pub fn to_string(&self) -> (r: String)
        ensures
            r@ == "recurrence id must not be blank"@,
    {
        "recurrence id must not be blank".to_owned()
    }
}

/// Caller-authored recovery evidence for one exact claimed recurrence occurrence.
#[derive(Debug, PartialEq, Eq)]
pub struct RecurrenceOccurrenceRelease(String);

impl View for RecurrenceOccurrenceRelease {
    type V = Seq<char>;

    closed spec fn view(&self) -> Seq<char> {
        self.0@
    }
}

impl RecurrenceOccurrenceRelease {
    #[verifier::type_invariant]
    closed spec fn inv(self) -> bool {
        !is_blank(self.0@)
    }

    pub fn new(value: String) -> (r: Result<Self, RecurrenceOccurrenceReleaseError>)
        ensures
            r is Ok <==> !is_blank(value@),
            r matches Ok(v) ==> v@ == value@,
    {
        if str_is_blank(value.as_str()) {
            Err(RecurrenceOccurrenceReleaseError)
        } else {
            Ok(RecurrenceOccurrenceRelease(value))
        }
    }

    pub fn as_str(&self) -> (r: &str)
        ensures
            r@ == self@,
            !is_blank(r@),
    {
        proof {
            use_type_invariant(self);
        }
        self.0.as_str()
    }
}

impl Clone for RecurrenceOccurrenceRelease {
    fn clone(&self) -> (r: Self)
        ensures
            r == *self,
    {
        proof {
            use_type_invariant(self);
        }
        RecurrenceOccurrenceRelease(self.0.clone())
    }
}

#[derive(Clone, Copy, Debug, PartialEq, Eq, Structural)]
pub struct RecurrenceOccurrenceReleaseError;

impl RecurrenceOccurrenceReleaseError {
    pub fn to_string(&self) -> (r: String)
        ensures
            r@ == "recurrence occurrence release reason must not be blank"@,
    {
        "recurrence occurrence release reason must not be blank".to_owned()
    }
}

} // verus!

verus! {

/// A deterministic caller-owned instant in non-negative Unix milliseconds.
#[derive(Clone, Copy, Debug, PartialEq, Eq, PartialOrd, Ord, Hash, Structural)]
pub struct ScheduleInstant(u64);

impl View for ScheduleInstant {
    type V = u64;

    closed spec fn view(&self) -> u64 {
        self.0
    }
}

/// The instant `offset` fixed intervals after `instant`, as an unbounded integer.
pub open spec fn advanced(instant: u64, interval: u64, offset: int) -> int {
    instant + interval * offset
}

impl ScheduleInstant {
    pub fn from_unix_millis(unix_millis: u64) -> (r: Self)
        ensures
            r@ == unix_millis,
    {
        ScheduleInstant(unix_millis)
    }

    pub fn unix_millis(self) -> (r: u64)
        ensures
            r == self@,
    {
        self.0
    }

    /// Derives one zero-based fixed-interval occurrence without iteration,
    /// wrapping, or saturation.
    pub fn checked_advance_by(self, interval: ScheduleInterval, offset: u64) -> (r: Result<
        Self,
        ScheduleOccurrenceError,
    >)
        ensures
            r is Ok <==> advanced(self@, interval@, offset as int) <= u64::MAX,
            r matches Ok(i) ==> i@ == advanced(self@, interval@, offset as int),
            r matches Err(e) ==> e@ == (ScheduleOccurrenceErrorView {
                instant: self@,
                interval: interval@,
                offset,
            }),
    {
        let millis = interval.millis();
        match millis.checked_mul(offset) {
            Some(elapsed) => match self.0.checked_add(elapsed) {
                Some(v) => Ok(ScheduleInstant(v)),
                None => Err(ScheduleOccurrenceError { instant: self, interval, offset }),
            },
            None => {
                proof {
                    assert(interval@ * offset <= advanced(self@, interval@, offset as int));
                }
                Err(ScheduleOccurrenceError { instant: self, interval, offset })
            },
        }
    }

    /// Advances by one exact fixed interval without wrapping or saturation.
    pub fn checked_advance(self, interval: ScheduleInterval) -> (r: Result<
        Self,
        ScheduleAdvanceError,
    >)
        ensures
            r is Ok <==> self@ + interval@ <= u64::MAX,
            r matches Ok(i) ==> i@ == self@ + interval@,
            r matches Err(e) ==> e@ == (ScheduleAdvanceErrorView {
                instant: self@,
                interval: interval@,
            }),
    {
        match self.0.checked_add(interval.millis()) {
            Some(v) => Ok(ScheduleInstant(v)),
            None => Err(ScheduleAdvanceError { instant: self, interval }),
        }
    }
}

/// A deterministic positive fixed interval in exact milliseconds.
#[derive(Clone, Copy, Debug, PartialEq, Eq)]
pub struct ScheduleInterval(u64);

impl View for ScheduleInterval {
    type V = u64;

    closed spec fn view(&self) -> u64 {
        self.0
    }
}

impl ScheduleInterval {
    #[verifier::type_invariant]
    closed spec fn inv(self) -> bool {
        self.0 > 0
    }

    pub fn from_millis(millis: u64) -> (r: Result<Self, ScheduleIntervalError>)
        ensures
            r is Ok <==> millis > 0,
            r matches Ok(i) ==> i@ == millis,
    {
        if millis == 0 {
            Err(ScheduleIntervalError)
        } else {
            Ok(ScheduleInterval(millis))
        }
    }

    pub fn millis(self) -> (r: u64)
        ensures
            r == self@,
            r > 0,
    {
        proof {
            use_type_invariant(self);
        }
        self.0
    }
}

#[derive(Clone, Copy, Debug, PartialEq, Eq, Structural)]
pub struct ScheduleIntervalError;

impl ScheduleIntervalError {
    pub fn to_string(&self) -> (r: String)
        ensures
            r@ == "schedule interval must be greater than zero milliseconds"@,
    {
        "schedule interval must be greater than zero milliseconds".to_owned()
    }
}

/// Evidence that an indexed fixed-interval occurrence exceeded the instant range.
#[derive(Clone, Copy, Debug, PartialEq, Eq)]
pub struct ScheduleOccurrenceError {
    instant: ScheduleInstant,
    interval: ScheduleInterval,
    offset: u64,
}

pub struct ScheduleOccurrenceErrorView {
    pub instant: u64,
    pub interval: u64,
    pub offset: u64,
}

impl View for ScheduleOccurrenceError {
    type V = ScheduleOccurrenceErrorView;

    closed spec fn view(&self) -> ScheduleOccurrenceErrorView {
        ScheduleOccurrenceErrorView {
            instant: self.instant@,
            interval: self.interval@,
            offset: self.offset,
        }
    }
}

impl ScheduleOccurrenceError {
    pub fn instant(&self) -> (r: ScheduleInstant)
        ensures
            r@ == self@.instant,
    {
        self.instant
    }

    pub fn interval(&self) -> (r: ScheduleInterval)
        ensures
            r@ == self@.interval,
    {
        self.interval
    }

    pub fn offset(&self) -> (r: u64)
        ensures
            r == self@.offset,
    {
        self.offset
    }
}

/// Evidence that exact fixed-interval advancement exceeded the instant range.
#[derive(Clone, Copy, Debug, PartialEq, Eq)]
pub struct ScheduleAdvanceError {
    instant: ScheduleInstant,
    interval: ScheduleInterval,
}

pub struct ScheduleAdvanceErrorView {
    pub instant: u64,
    pub interval: u64,
}

impl View for ScheduleAdvanceError {
    type V = ScheduleAdvanceErrorView;

    closed spec fn view(&self) -> ScheduleAdvanceErrorView {
        ScheduleAdvanceErrorView { instant: self.instant@, interval: self.interval@ }
    }
}

impl ScheduleAdvanceError {
    pub fn instant(&self) -> (r: ScheduleInstant)
        ensures
            r@ == self@.instant,
    {
        self.instant
    }

    pub fn interval(&self) -> (r: ScheduleInterval)
        ensures
            r@ == self@.interval,
    {
        self.interval
    }
}

/// The exact positive number of occurrences in a finite recurrence.
#[derive(Clone, Copy, Debug, PartialEq, Eq)]
pub struct OccurrenceCount(u64);

impl View for OccurrenceCount {
    type V = u64;

    closed spec fn view(&self) -> u64 {
        self.0
    }
}

impl OccurrenceCount {
    #[verifier::type_invariant]
    closed spec fn inv(self) -> bool {
        self.0 > 0
    }

    pub fn new(value: u64) -> (r: Result<Self, OccurrenceCountError>)
        ensures
            r is Ok <==> value > 0,
            r matches Ok(c) ==> c@ == value,
    {
        if value == 0 {
            Err(OccurrenceCountError)
        } else {
            Ok(OccurrenceCount(value))
        }
    }

    pub fn get(self) -> (r: u64)
        ensures
            r == self@,
            r > 0,
    {
        proof {
            use_type_invariant(self);
        }
        self.0
    }

    /// The zero-based offset of the last occurrence.
    pub fn final_offset(self) -> (r: u64)
        ensures
            r == self@ - 1,
    {
        proof {
            use_type_invariant(self);
        }
        self.0 - 1
    }
}

#[derive(Clone, Copy, Debug, PartialEq, Eq, Structural)]
pub struct OccurrenceCountError;

impl OccurrenceCountError {
    pub fn to_string(&self) -> (r: String)
        ensures
            r@ == "recurrence occurrence count must be greater than zero"@,
    {
        "recurrence occurrence count must be greater than zero".to_owned()
    }
}

/// A positive, allocation-bounded recurrence occurrence page size.
#[derive(Clone, Copy, Debug, PartialEq, Eq)]
pub struct OccurrencePageSize(u16);

impl View for OccurrencePageSize {
    type V = u64;

    closed spec fn view(&self) -> u64 {
        self.0 as u64
    }
}

impl OccurrencePageSize {
    /// The largest accepted occurrence page size.
    pub const MAX: u64 = 1024;

    #[verifier::type_invariant]
    closed spec fn inv(self) -> bool {
        0 < self.0 <= 1024
    }

    /// Validates a caller-owned page size before projection or allocation.
    pub fn new(value: u64) -> (r: Result<Self, OccurrencePageSizeError>)
        ensures
            value == 0 ==> r == Err::<Self, OccurrencePageSizeError>(OccurrencePageSizeError::Zero),
            value > 1024 ==> r == Err::<Self, OccurrencePageSizeError>(
                OccurrencePageSizeError::TooLarge { requested: value, maximum: 1024 },
            ),
            0 < value <= 1024 ==> (r matches Ok(p) && p@ == value),
    {
        if value == 0 {
            Err(OccurrencePageSizeError::Zero)
        } else if value > Self::MAX {
            Err(OccurrencePageSizeError::TooLarge { requested: value, maximum: Self::MAX })
        } else {
            Ok(OccurrencePageSize(value as u16))
        }
    }

    /// Returns the exact validated page size.
    pub fn get(self) -> (r: u64)
        ensures
            r == self@,
            0 < r <= 1024,
    {
        proof {
            use_type_invariant(self);
        }
        self.0 as u64
    }
}

/// Why a caller-owned occurrence page size is invalid.
#[derive(Clone, Copy, Debug, PartialEq, Eq, Structural)]
#[non_exhaustive]
pub enum OccurrencePageSizeError {
    Zero,
    TooLarge { requested: u64, maximum: u64 },
}

} // verus!

verus! {

pub struct FixedIntervalRecurrenceView {
    pub id: Seq<char>,
    pub goal: Seq<char>,
    pub anchor: u64,
    pub interval: u64,
    pub occurrence_count: u64,
    pub final_occurrence: u64,
    pub revision: u64,
}

/// A well-formed finite recurrence: positive interval and count, and every
/// authored occurrence representable, the last one being `final_occurrence`.
pub open spec fn recurrence_well_formed(r: FixedIntervalRecurrenceView) -> bool {
    &&& r.interval > 0
    &&& r.occurrence_count > 0
    &&& r.final_occurrence == advanced(r.anchor, r.interval, r.occurrence_count - 1)
}

/// One immutable, inert, finite fixed-interval recurrence definition.
#[derive(Debug, PartialEq, Eq)]
pub struct FixedIntervalRecurrence {
    id: RecurrenceId,
    goal: TaskGoal,
    anchor: ScheduleInstant,
    interval: ScheduleInterval,
    occurrence_count: OccurrenceCount,
    final_occurrence: ScheduleInstant,
    revision: u64,
}

impl View for FixedIntervalRecurrence {
    type V = FixedIntervalRecurrenceView;

    closed spec fn view(&self) -> FixedIntervalRecurrenceView {
        FixedIntervalRecurrenceView {
            id: self.id@,
            goal: self.goal@,
            anchor: self.anchor@,
            interval: self.interval@,
            occurrence_count: self.occurrence_count@,
            final_occurrence: self.final_occurrence@,
            revision: self.revision,
        }
    }
}

pub struct RecurrenceOccurrenceView {
    pub recurrence_id: Seq<char>,
    pub goal: Seq<char>,
    pub offset: u64,
    pub instant: u64,
    pub recurrence_revision: u64,
}

/// The authored occurrence at one offset of a recurrence.
pub open spec fn authored_occurrence(r: FixedIntervalRecurrenceView, offset: u64) -> RecurrenceOccurrenceView {
    RecurrenceOccurrenceView {
        recurrence_id: r.id,
        goal: r.goal,
        offset,
        instant: advanced(r.anchor, r.interval, offset as int) as u64,
        recurrence_revision: r.revision,
    }
}

/// Every authored occurrence of a well-formed recurrence is representable, and
/// later offsets occur strictly later.
pub proof fn lemma_occurrences_increase(r: FixedIntervalRecurrenceView, a: int, b: int)
    requires
        recurrence_well_formed(r),
        0 <= a <= b < r.occurrence_count,
    ensures
        advanced(r.anchor, r.interval, a) <= advanced(r.anchor, r.interval, b) <= u64::MAX,
        a < b ==> advanced(r.anchor, r.interval, a) < advanced(r.anchor, r.interval, b),
{
    let c = r.occurrence_count - 1;
    assert(r.interval * a <= r.interval * b) by (nonlinear_arith)
        requires
            0 <= a <= b,
            r.interval > 0,
    ;
    assert(r.interval * b <= r.interval * c) by (nonlinear_arith)
        requires
            0 <= b <= c,
            r.interval > 0,
    ;
    if a < b {
        assert(r.interval * a < r.interval * b) by (nonlinear_arith)
            requires
                0 <= a < b,
                r.interval > 0,
        ;
    }
}

impl FixedIntervalRecurrence {
    #[verifier::type_invariant]
    closed spec fn inv(self) -> bool {
        recurrence_well_formed(self@)
    }

    pub fn id(&self) -> (r: &RecurrenceId)
        ensures
            r@ == self@.id,
    {
        &self.id
    }

    pub fn goal(&self) -> (r: &TaskGoal)
        ensures
            r@ == self@.goal,
    {
        &self.goal
    }

    pub fn anchor(&self) -> (r: ScheduleInstant)
        ensures
            r@ == self@.anchor,
    {
        self.anchor
    }

    pub fn interval(&self) -> (r: ScheduleInterval)
        ensures
            r@ == self@.interval,
    {
        self.interval
    }

    pub fn occurrence_count(&self) -> (r: OccurrenceCount)
        ensures
            r@ == self@.occurrence_count,
    {
        self.occurrence_count
    }

    pub fn final_occurrence(&self) -> (r: ScheduleInstant)
        ensures
            r@ == self@.final_occurrence,
    {
        self.final_occurrence
    }

    pub fn revision(&self) -> (r: u64)
        ensures
            r == self@.revision,
    {
        self.revision
    }

    /// Every recurrence value is well formed.
    pub fn well_formed(&self) -> (r: bool)
        ensures
            r,
            recurrence_well_formed(self@),
    {
        proof {
            use_type_invariant(self);
        }
        true
    }

    /// Projects one exact zero-based occurrence without reading storage or time.
    pub fn occurrence_at(&self, offset: u64) -> (r: Result<
        RecurrenceOccurrence,
        RecurrenceOccurrenceLookupError,
    >)
        ensures
            offset >= self@.occurrence_count ==> (r matches Err(
                RecurrenceOccurrenceLookupError::OutOfRange {
                    recurrence_id,
                    requested_offset,
                    occurrence_count,
                },
            ) && recurrence_id@ == self@.id && requested_offset == offset && occurrence_count@
                == self@.occurrence_count),
            offset < self@.occurrence_count ==> (r matches Ok(o) && o@ == authored_occurrence(
                self@,
                offset,
            )),
    {
        proof {
            use_type_invariant(self);
        }
        if offset >= self.occurrence_count.get() {
            return Err(
                RecurrenceOccurrenceLookupError::OutOfRange {
                    recurrence_id: self.id.clone(),
                    requested_offset: offset,
                    occurrence_count: self.occurrence_count,
                },
            );
        }
        proof {
            lemma_occurrences_increase(self@, offset as int, self@.occurrence_count - 1);
        }
        let instant = match self.anchor.checked_advance_by(self.interval, offset) {
            Ok(i) => i,
            Err(_) => {
                assert(false);
                self.anchor
            },
        };
        Ok(
            RecurrenceOccurrence {
                recurrence_id: self.id.clone(),
                goal: self.goal.clone(),
                offset,
                instant,
                recurrence_revision: self.revision,
            },
        )
    }

    /// Projects one bounded page in increasing offset order without storage or time access.
    pub fn occurrences_page(&self, start_offset: u64, page_size: OccurrencePageSize) -> (r: Result<
        RecurrenceOccurrencePage,
        RecurrenceOccurrenceLookupError,
    >)
        ensures
            start_offset >= self@.occurrence_count ==> (r matches Err(
                RecurrenceOccurrenceLookupError::OutOfRange {
                    recurrence_id,
                    requested_offset,
                    occurrence_count,
                },
            ) && recurrence_id@ == self@.id && requested_offset == start_offset
                && occurrence_count@ == self@.occurrence_count),
            start_offset < self@.occurrence_count ==> (r matches Ok(p) && {
                let end = if start_offset + page_size@ < self@.occurrence_count {
                    start_offset + page_size@
                } else {
                    self@.occurrence_count as int
                };
                &&& p@.occurrences.len() == end - start_offset
                &&& forall|k: int|
                    0 <= k < p@.occurrences.len() ==> #[trigger] p@.occurrences[k]
                        == authored_occurrence(self@, (start_offset + k) as u64)
                &&& p@.next_offset == if end < self@.occurrence_count {
                    Some(end as u64)
                } else {
                    None
                }
            }),
    {
        let count = self.occurrence_count.get();
        if start_offset >= count {
            return Err(
                RecurrenceOccurrenceLookupError::OutOfRange {
                    recurrence_id: self.id.clone(),
                    requested_offset: start_offset,
                    occurrence_count: self.occurrence_count,
                },
            );
        }
        let sum = start_offset.saturating_add(page_size.get());
        let end_offset = if sum < count {
            sum
        } else {
            count
        };
        let mut occurrences: Vec<RecurrenceOccurrence> = Vec::new();
        let mut offset = start_offset;
        while offset < end_offset
            invariant
                start_offset <= offset <= end_offset,
                end_offset <= count,
                count == self@.occurrence_count,
                occurrences@.len() == offset - start_offset,
                forall|k: int|
                    0 <= k < occurrences@.len() ==> (#[trigger] occurrences@[k])@
                        == authored_occurrence(self@, (start_offset + k) as u64),
            decreases end_offset - offset,
        {
            let o = match self.occurrence_at(offset) {
                Ok(o) => o,
                Err(_) => {
                    assert(false);
                    return Err(
                        RecurrenceOccurrenceLookupError::OutOfRange {
                            recurrence_id: self.id.clone(),
                            requested_offset: start_offset,
                            occurrence_count: self.occurrence_count,
                        },
                    );
                },
            };
            occurrences.push(o);
            offset = offset + 1;
        }
        let next_offset = if end_offset < count {
            Some(end_offset)
        } else {
            None
        };
        let page = RecurrenceOccurrencePage { occurrences, next_offset };
        assert(page@.occurrences =~= occurrences_view(page.occurrences@));
        Ok(page)
    }
}

pub open spec fn occurrences_view(o: Seq<RecurrenceOccurrence>) -> Seq<RecurrenceOccurrenceView> {
    o.map_values(|x: RecurrenceOccurrence| x@)
}

pub struct RecurrenceOccurrencePageView {
    pub occurrences: Seq<RecurrenceOccurrenceView>,
    pub next_offset: Option<u64>,
}

/// One bounded, inert page of exact projected or durably validated recurrence occurrences.
#[derive(Debug, PartialEq, Eq)]
pub struct RecurrenceOccurrencePage {
    occurrences: Vec<RecurrenceOccurrence>,
    next_offset: Option<u64>,
}

impl View for RecurrenceOccurrencePage {
    type V = RecurrenceOccurrencePageView;

    closed spec fn view(&self) -> RecurrenceOccurrencePageView {
        RecurrenceOccurrencePageView {
            occurrences: occurrences_view(self.occurrences@),
            next_offset: self.next_offset,
        }
    }
}

impl RecurrenceOccurrencePage {
    /// Returns the exact occurrences present in this page in increasing offset order.
    pub fn occurrences(&self) -> (r: &[RecurrenceOccurrence])
        ensures
            occurrences_view(r@) == self@.occurrences,
    {
        self.occurrences.as_slice()
    }

    /// Returns the first uninspected authored offset when another window exists.
    pub fn next_offset(&self) -> (r: Option<u64>)
        ensures
            r == self@.next_offset,
    {
        self.next_offset
    }
}

/// One inert read-only projection from a finite recurrence definition.
#[derive(Debug, PartialEq, Eq)]
pub struct RecurrenceOccurrence {
    recurrence_id: RecurrenceId,
    goal: TaskGoal,
    offset: u64,
    instant: ScheduleInstant,
    recurrence_revision: u64,
}

impl View for RecurrenceOccurrence {
    type V = RecurrenceOccurrenceView;

    closed spec fn view(&self) -> RecurrenceOccurrenceView {
        RecurrenceOccurrenceView {
            recurrence_id: self.recurrence_id@,
            goal: self.goal@,
            offset: self.offset,
            instant: self.instant@,
            recurrence_revision: self.recurrence_revision,
        }
    }
}

impl Clone for RecurrenceOccurrence {
    fn clone(&self) -> (r: Self)
        ensures
            r == *self,
    {
        RecurrenceOccurrence {
            recurrence_id: self.recurrence_id.clone(),
            goal: self.goal.clone(),
            offset: self.offset,
            instant: self.instant,
            recurrence_revision: self.recurrence_revision,
        }
    }
}

impl RecurrenceOccurrence {
    pub fn recurrence_id(&self) -> (r: &RecurrenceId)
        ensures
            r@ == self@.recurrence_id,
    {
        &self.recurrence_id
    }

    pub fn goal(&self) -> (r: &TaskGoal)
        ensures
            r@ == self@.goal,
    {
        &self.goal
    }

    pub fn offset(&self) -> (r: u64)
        ensures
            r == self@.offset,
    {
        self.offset
    }

    pub fn instant(&self) -> (r: ScheduleInstant)
        ensures
            r@ == self@.instant,
    {
        self.instant
    }

    pub fn recurrence_revision(&self) -> (r: u64)
        ensures
            r == self@.recurrence_revision,
    {
        self.recurrence_revision
    }
}

#[derive(Debug, PartialEq, Eq)]
#[non_exhaustive]
pub enum RecurrenceOccurrenceLookupError {
    OutOfRange {
        recurrence_id: RecurrenceId,
        requested_offset: u64,
        occurrence_count: OccurrenceCount,
    },
}

} // verus!

verus! {

pub struct AvailableRecurrenceOccurrenceView {
    pub occurrence: RecurrenceOccurrenceView,
    pub revision: u64,
    pub latest_release: Option<Seq<char>>,
}

/// One exact persisted recurrence occurrence currently available for claiming or materialization.
#[derive(Debug, PartialEq, Eq)]
pub struct AvailableRecurrenceOccurrence {
    occurrence: RecurrenceOccurrence,
    revision: u64,
    latest_release: Option<RecurrenceOccurrenceRelease>,
}

impl View for AvailableRecurrenceOccurrence {
    type V = AvailableRecurrenceOccurrenceView;

    closed spec fn view(&self) -> AvailableRecurrenceOccurrenceView {
        AvailableRecurrenceOccurrenceView {
            occurrence: self.occurrence@,
            revision: self.revision,
            latest_release: opt_view(self.latest_release),
        }
    }
}

impl AvailableRecurrenceOccurrence {
    pub fn occurrence(&self) -> (r: &RecurrenceOccurrence)
        ensures
            r@ == self@.occurrence,
    {
        &self.occurrence
    }

    pub fn revision(&self) -> (r: u64)
        ensures
            r == self@.revision,
    {
        self.revision
    }

    pub fn latest_release(&self) -> (r: Option<&RecurrenceOccurrenceRelease>)
        ensures
            opt_view(r) == self@.latest_release,
    {
        match &self.latest_release {
            Some(x) => Some(x),
            None => None,
        }
    }
}

pub struct ClaimedRecurrenceOccurrenceView {
    pub occurrence: RecurrenceOccurrenceView,
    pub revision: u64,
}

/// One exact persisted recurrence occurrence durably reserved by a caller.
#[derive(Debug, PartialEq, Eq)]
pub struct ClaimedRecurrenceOccurrence {
    occurrence: RecurrenceOccurrence,
    revision: u64,
}

impl View for ClaimedRecurrenceOccurrence {
    type V = ClaimedRecurrenceOccurrenceView;

    closed spec fn view(&self) -> ClaimedRecurrenceOccurrenceView {
        ClaimedRecurrenceOccurrenceView { occurrence: self.occurrence@, revision: self.revision }
    }
}

impl ClaimedRecurrenceOccurrence {
    pub fn occurrence(&self) -> (r: &RecurrenceOccurrence)
        ensures
            r@ == self@.occurrence,
    {
        &self.occurrence
    }

    pub fn revision(&self) -> (r: u64)
        ensures
            r == self@.revision,
    {
        self.revision
    }
}

pub struct ReleasedRecurrenceOccurrenceView {
    pub occurrence: RecurrenceOccurrenceView,
    pub revision: u64,
    pub latest_release: Seq<char>,
}

/// One exact released recurrence occurrence with its latest recovery evidence.
#[derive(Debug, PartialEq, Eq)]
pub struct ReleasedRecurrenceOccurrence {
    occurrence: RecurrenceOccurrence,
    revision: u64,
    latest_release: RecurrenceOccurrenceRelease,
}

impl View for ReleasedRecurrenceOccurrence {
    type V = ReleasedRecurrenceOccurrenceView;

    closed spec fn view(&self) -> ReleasedRecurrenceOccurrenceView {
        ReleasedRecurrenceOccurrenceView {
            occurrence: self.occurrence@,
            revision: self.revision,
            latest_release: self.latest_release@,
        }
    }
}

impl ReleasedRecurrenceOccurrence {
    pub fn occurrence(&self) -> (r: &RecurrenceOccurrence)
        ensures
            r@ == self@.occurrence,
    {
        &self.occurrence
    }

    pub fn revision(&self) -> (r: u64)
        ensures
            r == self@.revision,
    {
        self.revision
    }

    pub fn latest_release(&self) -> (r: &RecurrenceOccurrenceRelease)
        ensures
            r@ == self@.latest_release,
    {
        &self.latest_release
    }
}

pub struct MaterializedRecurrenceOccurrenceView {
    pub occurrence: RecurrenceOccurrenceView,
    pub revision: u64,
    pub task_id: Seq<char>,
}

/// One exact persisted recurrence occurrence atomically bound to an inert task.
#[derive(Debug, PartialEq, Eq)]
pub struct MaterializedRecurrenceOccurrence {
    occurrence: RecurrenceOccurrence,
    revision: u64,
    task_id: TaskId,
}

impl View for MaterializedRecurrenceOccurrence {
    type V = MaterializedRecurrenceOccurrenceView;

    closed spec fn view(&self) -> MaterializedRecurrenceOccurrenceView {
        MaterializedRecurrenceOccurrenceView {
            occurrence: self.occurrence@,
            revision: self.revision,
            task_id: self.task_id@,
        }
    }
}

impl MaterializedRecurrenceOccurrence {
    pub fn occurrence(&self) -> (r: &RecurrenceOccurrence)
        ensures
            r@ == self@.occurrence,
    {
        &self.occurrence
    }

    pub fn revision(&self) -> (r: u64)
        ensures
            r == self@.revision,
    {
        self.revision
    }

    pub fn task_id(&self) -> (r: &TaskId)
        ensures
            r@ == self@.task_id,
    {
        &self.task_id
    }
}

pub open spec fn available_views(v: Seq<AvailableRecurrenceOccurrence>) -> Seq<
    AvailableRecurrenceOccurrenceView,
> {
    v.map_values(|o: AvailableRecurrenceOccurrence| o@)
}

pub open spec fn claimed_views(v: Seq<ClaimedRecurrenceOccurrence>) -> Seq<
    ClaimedRecurrenceOccurrenceView,
> {
    v.map_values(|o: ClaimedRecurrenceOccurrence| o@)
}

pub open spec fn materialized_views(v: Seq<MaterializedRecurrenceOccurrence>) -> Seq<
    MaterializedRecurrenceOccurrenceView,
> {
    v.map_values(|o: MaterializedRecurrenceOccurrence| o@)
}

pub struct OccurrencePageView<V> {
    pub occurrences: Seq<V>,
    pub next_offset: Option<u64>,
}

/// One bounded, inert page of exact currently available recurrence occurrences.
#[derive(Debug, PartialEq, Eq)]
pub struct AvailableRecurrenceOccurrencePage {
    occurrences: Vec<AvailableRecurrenceOccurrence>,
    next_offset: Option<u64>,
}

impl View for AvailableRecurrenceOccurrencePage {
    type V = OccurrencePageView<AvailableRecurrenceOccurrenceView>;

    closed spec fn view(&self) -> OccurrencePageView<AvailableRecurrenceOccurrenceView> {
        OccurrencePageView {
            occurrences: available_views(self.occurrences@),
            next_offset: self.next_offset,
        }
    }
}

impl AvailableRecurrenceOccurrencePage {
    /// Returns the current available coordinates in increasing authored offset order.
    pub fn occurrences(&self) -> (r: &[AvailableRecurrenceOccurrence])
        ensures
            available_views(r@) == self@.occurrences,
    {
        self.occurrences.as_slice()
    }

    /// Returns the first authored offset not inspected, if one remains.
    pub fn next_offset(&self) -> (r: Option<u64>)
        ensures
            r == self@.next_offset,
    {
        self.next_offset
    }
}

/// One bounded, inert page of exact currently claimed recurrence occurrences.
#[derive(Debug, PartialEq, Eq)]
pub struct ClaimedRecurrenceOccurrencePage {
    occurrences: Vec<ClaimedRecurrenceOccurrence>,
    next_offset: Option<u64>,
}

impl View for ClaimedRecurrenceOccurrencePage {
    type V = OccurrencePageView<ClaimedRecurrenceOccurrenceView>;

    closed spec fn view(&self) -> OccurrencePageView<ClaimedRecurrenceOccurrenceView> {
        OccurrencePageView {
            occurrences: claimed_views(self.occurrences@),
            next_offset: self.next_offset,
        }
    }
}

impl ClaimedRecurrenceOccurrencePage {
    /// Returns the current claims in increasing authored offset order.
    pub fn occurrences(&self) -> (r: &[ClaimedRecurrenceOccurrence])
        ensures
            claimed_views(r@) == self@.occurrences,
    {
        self.occurrences.as_slice()
    }

    /// Returns the first authored offset not inspected, if one remains.
    pub fn next_offset(&self) -> (r: Option<u64>)
        ensures
            r == self@.next_offset,
    {
        self.next_offset
    }
}

/// One bounded, inert page of exact materialized recurrence occurrences.
#[derive(Debug, PartialEq, Eq)]
pub struct MaterializedRecurrenceOccurrencePage {
    occurrences: Vec<MaterializedRecurrenceOccurrence>,
    next_offset: Option<u64>,
}

impl View for MaterializedRecurrenceOccurrencePage {
    type V = OccurrencePageView<MaterializedRecurrenceOccurrenceView>;

    closed spec fn view(&self) -> OccurrencePageView<MaterializedRecurrenceOccurrenceView> {
        OccurrencePageView {
            occurrences: materialized_views(self.occurrences@),
            next_offset: self.next_offset,
        }
    }
}

impl MaterializedRecurrenceOccurrencePage {
    /// Returns the materialized bindings in increasing authored offset order.
    pub fn occurrences(&self) -> (r: &[MaterializedRecurrenceOccurrence])
        ensures
            materialized_views(r@) == self@.occurrences,
    {
        self.occurrences.as_slice()
    }

    /// Returns the first authored offset not inspected, if one remains.
    pub fn next_offset(&self) -> (r: Option<u64>)
        ensures
            r == self@.next_offset,
    {
        self.next_offset
    }
}

pub struct SelectionView<V> {
    pub occurrence: Option<V>,
    pub next_offset: Option<u64>,
}

/// One explicit latest-only catch-up projection over an authored recurrence suffix.
#[derive(Debug, PartialEq, Eq)]
pub struct LatestDueOccurrenceSelection {
    occurrence: Option<RecurrenceOccurrence>,
    next_offset: Option<u64>,
}

impl View for LatestDueOccurrenceSelection {
    type V = SelectionView<RecurrenceOccurrenceView>;

    closed spec fn view(&self) -> SelectionView<RecurrenceOccurrenceView> {
        SelectionView { occurrence: opt_view(self.occurrence), next_offset: self.next_offset }
    }
}

impl LatestDueOccurrenceSelection {
    /// Returns the latest occurrence due from the caller-owned starting offset.
    pub fn occurrence(&self) -> (r: Option<&RecurrenceOccurrence>)
        ensures
            opt_view(r) == self@.occurrence,
    {
        match &self.occurrence {
            Some(o) => Some(o),
            None => None,
        }
    }

    /// Returns the next authored coordinate to inspect, or finite completion.
    pub fn next_offset(&self) -> (r: Option<u64>)
        ensures
            r == self@.next_offset,
    {
        self.next_offset
    }
}

/// One atomic latest-only catch-up selection bound to an inert task when due.
#[derive(Debug, PartialEq, Eq)]
pub struct LatestDueMaterializationSelection {
    occurrence: Option<MaterializedRecurrenceOccurrence>,
    next_offset: Option<u64>,
}

impl View for LatestDueMaterializationSelection {
    type V = SelectionView<MaterializedRecurrenceOccurrenceView>;

    closed spec fn view(&self) -> SelectionView<MaterializedRecurrenceOccurrenceView> {
        SelectionView { occurrence: opt_view(self.occurrence), next_offset: self.next_offset }
    }
}

impl LatestDueMaterializationSelection {
    /// Returns the materialized latest-due occurrence, if the cutoff selected one.
    pub fn occurrence(&self) -> (r: Option<&MaterializedRecurrenceOccurrence>)
        ensures
            opt_view(r) == self@.occurrence,
    {
        match &self.occurrence {
            Some(o) => Some(o),
            None => None,
        }
    }

    /// Returns the next authored coordinate to inspect, or finite completion.
    pub fn next_offset(&self) -> (r: Option<u64>)
        ensures
            r == self@.next_offset,
    {
        self.next_offset
    }
}

/// One bounded selection that may durably reserve the next available due occurrence.
#[derive(Debug, PartialEq, Eq)]
pub struct ClaimNextRecurrenceOccurrenceSelection {
    occurrence: Option<ClaimedRecurrenceOccurrence>,
    next_offset: Option<u64>,
}

impl View for ClaimNextRecurrenceOccurrenceSelection {
    type V = SelectionView<ClaimedRecurrenceOccurrenceView>;

    closed spec fn view(&self) -> SelectionView<ClaimedRecurrenceOccurrenceView> {
        SelectionView { occurrence: opt_view(self.occurrence), next_offset: self.next_offset }
    }
}

impl ClaimNextRecurrenceOccurrenceSelection {
    /// Returns the claimed occurrence when the selected window contained eligible work.
    pub fn occurrence(&self) -> (r: Option<&ClaimedRecurrenceOccurrence>)
        ensures
            opt_view(r) == self@.occurrence,
    {
        match &self.occurrence {
            Some(o) => Some(o),
            None => None,
        }
    }

    /// Returns the next authored coordinate to inspect, or finite completion.
    pub fn next_offset(&self) -> (r: Option<u64>)
        ensures
            r == self@.next_offset,
    {
        self.next_offset
    }
}

} // verus!

verus! {

#[derive(Debug)]
#[non_exhaustive]
#[allow(inconsistent_fields)]
pub enum RecurrenceStoreError {
    EventLog(EventLogError),
    Replay(ReplayError),
    AlreadyExists { recurrence_id: RecurrenceId },
    NotFound { recurrence_id: RecurrenceId },
    ConcurrentModification {
        recurrence_id: RecurrenceId,
        expected_revision: u64,
        current_revision: u64,
    },
    OccurrenceOutOfRange {
        recurrence_id: RecurrenceId,
        requested_offset: u64,
        occurrence_count: OccurrenceCount,
    },
    OccurrenceAlreadyPersisted { recurrence_id: RecurrenceId, offset: u64 },
    OccurrenceNotFound { recurrence_id: RecurrenceId, offset: u64 },
    OccurrenceConcurrentModification {
        recurrence_id: RecurrenceId,
        offset: u64,
        expected_revision: u64,
        current_revision: u64,
    },
    OccurrenceNotDue {
        recurrence_id: RecurrenceId,
        offset: u64,
        due_at: ScheduleInstant,
        cutoff: ScheduleInstant,
    },
    OccurrenceAlreadyClaimed { recurrence_id: RecurrenceId, offset: u64 },
    OccurrenceNotClaimed { recurrence_id: RecurrenceId, offset: u64 },
    OccurrenceAlreadyMaterialized { recurrence_id: RecurrenceId, offset: u64, task_id: TaskId },
    TaskAlreadyExists { task_id: TaskId },
    TaskCountMismatch { occurrence_count: usize, task_count: usize },
    DuplicateTaskId { task_id: TaskId },
    AmbiguousTaskBinding { task_id: TaskId, occurrence_count: usize },
    OccurrenceOverflow { recurrence_id: RecurrenceId, source: ScheduleOccurrenceError },
    InvalidStreamId { stream_id: String },
    InvalidHistory { event_count: usize },
    InvalidOccurrenceHistory { recurrence_id: RecurrenceId, offset: u64, event_count: usize },
}

impl RecurrenceStoreError {
    /// Converts a lookup failure into the store's out-of-range error.
    pub fn from_lookup(error: RecurrenceOccurrenceLookupError) -> (r: Self)
        ensures
            match error {
                RecurrenceOccurrenceLookupError::OutOfRange {
                    recurrence_id,
                    requested_offset,
                    occurrence_count,
                } => r matches RecurrenceStoreError::OccurrenceOutOfRange {
                    recurrence_id: i,
                    requested_offset: o,
                    occurrence_count: c,
                } && i == recurrence_id && o == requested_offset && c == occurrence_count,
            },
    {
        match error {
            RecurrenceOccurrenceLookupError::OutOfRange {
                recurrence_id,
                requested_offset,
                occurrence_count,
            } => RecurrenceStoreError::OccurrenceOutOfRange {
                recurrence_id,
                requested_offset,
                occurrence_count,
            },
        }
    }
}

/// The persisted definition of one recurrence.
#[derive(Debug)]
pub enum RecurrenceEvent {
    Created {
        goal: TaskGoal,
        anchor_unix_millis: u64,
        interval_millis: u64,
        occurrence_count: u64,
    },
}

/// The projection of a recurrence stream: `None` for an invalid history,
/// `Some(None)` for an empty stream.
pub open spec fn project_recurrence(id: Seq<char>, events: Seq<RecurrenceEvent>) -> Option<
    Option<FixedIntervalRecurrenceView>,
> {
    if events.len() == 0 {
        Some(None)
    } else if events.len() == 1 {
        match events[0] {
            RecurrenceEvent::Created {
                goal,
                anchor_unix_millis,
                interval_millis,
                occurrence_count,
            } => {
                let v = FixedIntervalRecurrenceView {
                    id,
                    goal: goal@,
                    anchor: anchor_unix_millis,
                    interval: interval_millis,
                    occurrence_count,
                    final_occurrence: advanced(
                        anchor_unix_millis,
                        interval_millis,
                        occurrence_count - 1,
                    ) as u64,
                    revision: 1,
                };
                if interval_millis > 0 && occurrence_count > 0 && advanced(
                    anchor_unix_millis,
                    interval_millis,
                    occurrence_count - 1,
                ) <= u64::MAX {
                    Some(Some(v))
                } else {
                    None
                }
            },
        }
    } else {
        None
    }
}

/// Projects one recurrence stream into its definition.
pub fn project_recurrence_history(id: RecurrenceId, events: Vec<RecurrenceEvent>) -> (r: Result<
    Option<FixedIntervalRecurrence>,
    RecurrenceStoreError,
>)
    ensures
        match project_recurrence(id@, events@) {
            None => r matches Err(RecurrenceStoreError::InvalidHistory { event_count }) && event_count
                == events@.len(),
            Some(None) => r matches Ok(None),
            Some(Some(v)) => r matches Ok(Some(x)) && x@ == v,
        },
{
    let event_count = events.len();
    if event_count == 0 {
        return Ok(None);
    }
    if event_count != 1 {
        return Err(RecurrenceStoreError::InvalidHistory { event_count });
    }
    match &events[0] {
        RecurrenceEvent::Created { goal, anchor_unix_millis, interval_millis, occurrence_count } => {
            let anchor = ScheduleInstant::from_unix_millis(*anchor_unix_millis);
            let interval = match ScheduleInterval::from_millis(*interval_millis) {
                Ok(i) => i,
                Err(_) => {
                    return Err(RecurrenceStoreError::InvalidHistory { event_count });
                },
            };
            let count = match OccurrenceCount::new(*occurrence_count) {
                Ok(c) => c,
                Err(_) => {
                    return Err(RecurrenceStoreError::InvalidHistory { event_count });
                },
            };
            let final_occurrence = match anchor.checked_advance_by(interval, count.final_offset()) {
                Ok(f) => f,
                Err(_) => {
                    return Err(RecurrenceStoreError::InvalidHistory { event_count });
                },
            };
            Ok(
                Some(
                    FixedIntervalRecurrence {
                        id,
                        goal: goal.clone(),
                        anchor,
                        interval,
                        occurrence_count: count,
                        final_occurrence,
                        revision: 1,
                    },
                ),
            )
        },
    }
}

/// A decided recurrence creation: the event to append and the created definition.
pub struct RecurrenceCreation {
    pub event: RecurrenceEvent,
    pub recurrence: FixedIntervalRecurrence,
}

/// Plans the creation of a finite fixed-interval recurrence.
pub fn plan_recurrence_creation(
    id: RecurrenceId,
    goal: TaskGoal,
    anchor: ScheduleInstant,
    interval: ScheduleInterval,
    occurrence_count: OccurrenceCount,
) -> (r: Result<RecurrenceCreation, RecurrenceStoreError>)
    ensures
        advanced(anchor@, interval@, occurrence_count@ - 1) > u64::MAX ==> (r matches Err(
            RecurrenceStoreError::OccurrenceOverflow { recurrence_id, source },
        ) && recurrence_id@ == id@ && source@ == (ScheduleOccurrenceErrorView {
            instant: anchor@,
            interval: interval@,
            offset: (occurrence_count@ - 1) as u64,
        })),
        advanced(anchor@, interval@, occurrence_count@ - 1) <= u64::MAX ==> (r matches Ok(c)
            && project_recurrence(id@, seq![c.event]) == Some(Some(c.recurrence@))
            && c.recurrence@ == (FixedIntervalRecurrenceView {
            id: id@,
            goal: goal@,
            anchor: anchor@,
            interval: interval@,
            occurrence_count: occurrence_count@,
            final_occurrence: advanced(anchor@, interval@, occurrence_count@ - 1) as u64,
            revision: 1,
        })),
{
    let final_occurrence = match anchor.checked_advance_by(
        interval,
        occurrence_count.final_offset(),
    ) {
        Ok(f) => f,
        Err(source) => {
            return Err(RecurrenceStoreError::OccurrenceOverflow { recurrence_id: id, source });
        },
    };
    let event = RecurrenceEvent::Created {
        goal: goal.clone(),
        anchor_unix_millis: anchor.unix_millis(),
        interval_millis: interval.millis(),
        occurrence_count: occurrence_count.get(),
    };
    let recurrence = FixedIntervalRecurrence {
        id,
        goal,
        anchor,
        interval,
        occurrence_count,
        final_occurrence,
        revision: 1,
    };
    Ok(RecurrenceCreation { event, recurrence })
}

/// Maps a failed creation append: any stream conflict means the recurrence exists.
pub fn recurrence_creation_failure(id: RecurrenceId, error: EventLogError) -> (r:
    RecurrenceStoreError)
    ensures
        (error matches EventLogError::WrongExpectedVersion { .. }) ==> (r matches RecurrenceStoreError::AlreadyExists {
            recurrence_id,
        } && recurrence_id@ == id@),
        !(error matches EventLogError::WrongExpectedVersion { .. }) ==> (r matches RecurrenceStoreError::EventLog(x) && x == error),
{
    match error {
        EventLogError::WrongExpectedVersion { .. } => RecurrenceStoreError::AlreadyExists {
            recurrence_id: id,
        },
        error => RecurrenceStoreError::EventLog(error),
    }
}

/// Maps a failed append of a freshly persisted occurrence: an existing occurrence
/// stream means the occurrence was already persisted.
pub fn occurrence_persistence_failure(id: &RecurrenceId, offset: u64, error: EventLogError) -> (r:
    RecurrenceStoreError)
    ensures
        (error matches EventLogError::WrongExpectedVersion { .. }) ==> (r matches RecurrenceStoreError::OccurrenceAlreadyPersisted {
            recurrence_id,
            offset: o,
        } && recurrence_id@ == id@ && o == offset),
        !(error matches EventLogError::WrongExpectedVersion { .. }) ==> (r matches RecurrenceStoreError::EventLog(x) && x == error),
{
    match error {
        EventLogError::WrongExpectedVersion { .. } => RecurrenceStoreError::OccurrenceAlreadyPersisted {
            recurrence_id: id.clone(),
            offset,
        },
        error => RecurrenceStoreError::EventLog(error),
    }
}

/// What a failed append of an occurrence change together with a task start means.
pub enum OccurrenceTaskAppendFailure {
    /// The occurrence stream moved since it was loaded.
    OccurrenceConflict,
    /// The append is refused for good with this error.
    Fail(RecurrenceStoreError),
}

/// Maps a failed occurrence-and-task append: a task stream that already exists means
/// the task identity is taken; a moved occurrence stream is an occurrence conflict.
pub fn occurrence_task_append_failure(task_id: TaskId, error: EventLogError) -> (r:
    OccurrenceTaskAppendFailure)
    ensures
        (error matches EventLogError::WrongExpectedVersion {
            expected: ExpectedVersion::NoStream,
            ..
        }) ==> (r matches OccurrenceTaskAppendFailure::Fail(
            RecurrenceStoreError::TaskAlreadyExists { task_id: t },
        ) && t@ == task_id@),
        (error matches EventLogError::WrongExpectedVersion {
            expected: ExpectedVersion::Exact(_),
            ..
        }) ==> r is OccurrenceConflict,
        !(error matches EventLogError::WrongExpectedVersion { .. }) ==> (r matches OccurrenceTaskAppendFailure::Fail(
            RecurrenceStoreError::EventLog(x),
        ) && x == error),
{
    match error {
        EventLogError::WrongExpectedVersion { expected: ExpectedVersion::NoStream, .. } =>
            OccurrenceTaskAppendFailure::Fail(RecurrenceStoreError::TaskAlreadyExists { task_id }),
        EventLogError::WrongExpectedVersion { .. } => OccurrenceTaskAppendFailure::OccurrenceConflict,
        error => OccurrenceTaskAppendFailure::Fail(RecurrenceStoreError::EventLog(error)),
    }
}

/// Checks a loaded recurrence against the caller's expected definition revision.
pub fn require_recurrence_revision(
    loaded: Option<FixedIntervalRecurrence>,
    id: &RecurrenceId,
    expected_revision: u64,
) -> (r: Result<FixedIntervalRecurrence, RecurrenceStoreError>)
    ensures
        loaded is None ==> (r matches Err(RecurrenceStoreError::NotFound { recurrence_id })
            && recurrence_id@ == id@),
        loaded matches Some(x) ==> x@.revision != expected_revision ==> (r matches Err(
            RecurrenceStoreError::ConcurrentModification {
                recurrence_id,
                expected_revision: e,
                current_revision: c,
            },
        ) && recurrence_id@ == id@ && e == expected_revision && c == x@.revision),
        loaded matches Some(x) ==> x@.revision == expected_revision ==> (r matches Ok(y) && y@
            == x@),
{
    match loaded {
        None => Err(RecurrenceStoreError::NotFound { recurrence_id: id.clone() }),
        Some(x) => {
            if x.revision() != expected_revision {
                Err(
                    RecurrenceStoreError::ConcurrentModification {
                        recurrence_id: id.clone(),
                        expected_revision,
                        current_revision: x.revision(),
                    },
                )
            } else {
                Ok(x)
            }
        },
    }
}

/// One persisted occurrence lifecycle event.
#[derive(Debug)]
pub enum RecurrenceOccurrenceEvent {
    Persisted {
        recurrence_id: RecurrenceId,
        recurrence_revision: u64,
        offset: u64,
        goal: TaskGoal,
        unix_millis: u64,
    },
    Claimed {},
    Released { reason: RecurrenceOccurrenceRelease },
    Materialized { task_id: TaskId },
}

pub enum RecurrenceOccurrenceEventView {
    Persisted {
        recurrence_id: Seq<char>,
        recurrence_revision: u64,
        offset: u64,
        goal: Seq<char>,
        unix_millis: u64,
    },
    Claimed,
    Released { reason: Seq<char> },
    Materialized { task_id: Seq<char> },
}

impl View for RecurrenceOccurrenceEvent {
    type V = RecurrenceOccurrenceEventView;

    open spec fn view(&self) -> RecurrenceOccurrenceEventView {
        match self {
            RecurrenceOccurrenceEvent::Persisted {
                recurrence_id,
                recurrence_revision,
                offset,
                goal,
                unix_millis,
            } => RecurrenceOccurrenceEventView::Persisted {
                recurrence_id: recurrence_id@,
                recurrence_revision: *recurrence_revision,
                offset: *offset,
                goal: goal@,
                unix_millis: *unix_millis,
            },
            RecurrenceOccurrenceEvent::Claimed {} => RecurrenceOccurrenceEventView::Claimed,
            RecurrenceOccurrenceEvent::Released { reason } => RecurrenceOccurrenceEventView::Released {
                reason: reason@,
            },
            RecurrenceOccurrenceEvent::Materialized { task_id } =>
                RecurrenceOccurrenceEventView::Materialized { task_id: task_id@ },
        }
    }
}

pub open spec fn occurrence_events_view(events: Seq<RecurrenceOccurrenceEvent>) -> Seq<
    RecurrenceOccurrenceEventView,
> {
    events.map_values(|e: RecurrenceOccurrenceEvent| e@)
}

/// The lifecycle flags of one persisted occurrence.
pub struct OccurrenceFlags {
    pub claimed: bool,
    pub latest_release: Option<Seq<char>>,
    pub task_id: Option<Seq<char>>,
}

pub open spec fn occurrence_apply(f: OccurrenceFlags, e: RecurrenceOccurrenceEventView) -> Option<
    OccurrenceFlags,
> {
    match e {
        RecurrenceOccurrenceEventView::Claimed => if !f.claimed && f.task_id is None {
            Some(OccurrenceFlags { claimed: true, ..f })
        } else {
            None
        },
        RecurrenceOccurrenceEventView::Released { reason } => if f.claimed && f.task_id is None {
            Some(OccurrenceFlags { claimed: false, latest_release: Some(reason), ..f })
        } else {
            None
        },
        RecurrenceOccurrenceEventView::Materialized { task_id } => if f.task_id is None {
            Some(OccurrenceFlags { claimed: false, task_id: Some(task_id), ..f })
        } else {
            None
        },
        RecurrenceOccurrenceEventView::Persisted { .. } => None,
    }
}

pub open spec fn occurrence_step() -> spec_fn(OccurrenceFlags, RecurrenceOccurrenceEventView) -> Option<
    OccurrenceFlags,
> {
    |f: OccurrenceFlags, e: RecurrenceOccurrenceEventView| occurrence_apply(f, e)
}

pub open spec fn fresh_flags() -> OccurrenceFlags {
    OccurrenceFlags { claimed: false, latest_release: None, task_id: None }
}

/// Whether a persisted event records exactly the authored occurrence at `offset`.
pub open spec fn persisted_matches(
    r: FixedIntervalRecurrenceView,
    offset: u64,
    e: RecurrenceOccurrenceEventView,
) -> bool {
    match e {
        RecurrenceOccurrenceEventView::Persisted {
            recurrence_id,
            recurrence_revision,
            offset: o,
            goal,
            unix_millis,
        } => {
            &&& offset < r.occurrence_count
            &&& recurrence_id == r.id
            &&& o == offset
            &&& recurrence_revision == r.revision
            &&& goal == r.goal
            &&& unix_millis == authored_occurrence(r, offset).instant
        },
        _ => false,
    }
}

pub struct OccurrenceStateView {
    pub occurrence: RecurrenceOccurrenceView,
    pub revision: u64,
    pub claimed: bool,
    pub latest_release: Option<Seq<char>>,
    pub task_id: Option<Seq<char>>,
}

/// The projection of one occurrence stream: `None` for an invalid history,
/// `Some(None)` for an unpersisted occurrence.
pub open spec fn project_occurrence(
    r: FixedIntervalRecurrenceView,
    offset: u64,
    events: Seq<RecurrenceOccurrenceEventView>,
) -> Option<Option<OccurrenceStateView>> {
    if events.len() == 0 {
        Some(None)
    } else if !persisted_matches(r, offset, events[0]) {
        None
    } else {
        match replay(occurrence_step(), fresh_flags(), events.subrange(1, events.len() as int)) {
            Some(f) => Some(
                Some(
                    OccurrenceStateView {
                        occurrence: authored_occurrence(r, offset),
                        revision: events.len() as u64,
                        claimed: f.claimed,
                        latest_release: f.latest_release,
                        task_id: f.task_id,
                    },
                ),
            ),
            None => None,
        }
    }
}

/// The durable state of one persisted recurrence occurrence.
#[derive(Debug)]
pub struct RecurrenceOccurrenceState {
    pub occurrence: RecurrenceOccurrence,
    pub revision: u64,
    pub claimed: bool,
    pub latest_release: Option<RecurrenceOccurrenceRelease>,
    pub task_id: Option<TaskId>,
}

impl View for RecurrenceOccurrenceState {
    type V = OccurrenceStateView;

    open spec fn view(&self) -> OccurrenceStateView {
        OccurrenceStateView {
            occurrence: self.occurrence@,
            revision: self.revision,
            claimed: self.claimed,
            latest_release: opt_view(self.latest_release),
            task_id: opt_view(self.task_id),
        }
    }
}

/// Checks that a persisted event records exactly the authored occurrence.
pub fn validate_occurrence(
    recurrence: &FixedIntervalRecurrence,
    offset: u64,
    event_count: usize,
    event: &RecurrenceOccurrenceEvent,
) -> (r: Result<RecurrenceOccurrence, RecurrenceStoreError>)
    ensures
        persisted_matches(recurrence@, offset, event@) ==> (r matches Ok(o) && o@
            == authored_occurrence(recurrence@, offset)),
        !persisted_matches(recurrence@, offset, event@) ==> (r matches Err(
            RecurrenceStoreError::InvalidOccurrenceHistory { recurrence_id, offset: o, event_count: c },
        ) && recurrence_id@ == recurrence@.id && o == offset && c == event_count),
{
    let id = recurrence.id();
    let invalid = RecurrenceStoreError::InvalidOccurrenceHistory {
        recurrence_id: id.clone(),
        offset,
        event_count,
    };
    match event {
        RecurrenceOccurrenceEvent::Persisted {
            recurrence_id,
            recurrence_revision,
            offset: persisted_offset,
            goal,
            unix_millis,
        } => {
            let projected = match recurrence.occurrence_at(offset) {
                Ok(p) => p,
                Err(_) => {
                    return Err(invalid);
                },
            };
            if !recurrence_id.same_as(id) || *persisted_offset != offset || *recurrence_revision
                != projected.recurrence_revision() || !goal.same_as(projected.goal())
                || *unix_millis != projected.instant().unix_millis() {
                return Err(invalid);
            }
            Ok(projected)
        },
        _ => Err(invalid),
    }
}

/// The state of an occurrence stream whose recurrence does not exist: none for
/// an empty stream, an invalid history for any recorded event.
pub fn orphan_occurrence_state(id: &RecurrenceId, offset: u64, event_count: usize) -> (r: Result<
    Option<RecurrenceOccurrenceState>,
    RecurrenceStoreError,
>)
    ensures
        event_count == 0 ==> r matches Ok(None),
        event_count > 0 ==> (r matches Err(
            RecurrenceStoreError::InvalidOccurrenceHistory { recurrence_id, offset: o, event_count: c },
        ) && recurrence_id@ == id@ && o == offset && c == event_count),
{
    if event_count == 0 {
        Ok(None)
    } else {
        Err(RecurrenceStoreError::InvalidOccurrenceHistory { recurrence_id: id.clone(), offset, event_count })
    }
}

/// Projects one occurrence stream into its lifecycle state.
#[verifier::loop_isolation(false)]
pub fn project_occurrence_state(
    recurrence: &FixedIntervalRecurrence,
    offset: u64,
    events: &Vec<RecurrenceOccurrenceEvent>,
) -> (r: Result<Option<RecurrenceOccurrenceState>, RecurrenceStoreError>)
    ensures
        match project_occurrence(recurrence@, offset, occurrence_events_view(events@)) {
            None => r matches Err(
                RecurrenceStoreError::InvalidOccurrenceHistory {
                    recurrence_id,
                    offset: o,
                    event_count,
                },
            ) && recurrence_id@ == recurrence@.id && o == offset && event_count == events@.len(),
            Some(None) => r matches Ok(None),
            Some(Some(s)) => r matches Ok(Some(x)) && x@ == s,
        },
{
    let ghost evs = occurrence_events_view(events@);
    let event_count = events.len();
    if event_count == 0 {
        return Ok(None);
    }
    let invalid = RecurrenceStoreError::InvalidOccurrenceHistory {
        recurrence_id: recurrence.id().clone(),
        offset,
        event_count,
    };
    match &events[0] {
        RecurrenceOccurrenceEvent::Persisted { .. } => {},
        _ => {
            return Err(invalid);
        },
    }
    let ghost rest = evs.subrange(1, event_count as int);
    let mut claimed = false;
    let mut latest_release: Option<RecurrenceOccurrenceRelease> = None;
    let mut task_id: Option<TaskId> = None;
    assert(rest.subrange(0, 0) =~= Seq::<RecurrenceOccurrenceEventView>::empty());
    let mut i: usize = 1;
    while i < event_count
        invariant
            1 <= i <= event_count,
            event_count == events@.len(),
            evs == occurrence_events_view(events@),
            rest == evs.subrange(1, event_count as int),
            replay(occurrence_step(), fresh_flags(), rest.subrange(0, i - 1)) == Some(
                OccurrenceFlags {
                    claimed,
                    latest_release: opt_view(latest_release),
                    task_id: opt_view(task_id),
                },
            ),
        decreases event_count - i,
    {
        proof {
            lemma_replay_step(occurrence_step(), fresh_flags(), rest, i - 1);
            assert(rest[i - 1] == events@[i as int]@);
        }
        let accepted = match &events[i] {
            RecurrenceOccurrenceEvent::Claimed {} => {
                if !claimed && task_id.is_none() {
                    claimed = true;
                    true
                } else {
                    false
                }
            },
            RecurrenceOccurrenceEvent::Released { reason } => {
                if claimed && task_id.is_none() {
                    claimed = false;
                    latest_release = Some(reason.clone());
                    true
                } else {
                    false
                }
            },
            RecurrenceOccurrenceEvent::Materialized { task_id: bound } => {
                if task_id.is_none() {
                    claimed = false;
                    task_id = Some(bound.clone());
                    true
                } else {
                    false
                }
            },
            RecurrenceOccurrenceEvent::Persisted { .. } => false,
        };
        if !accepted {
            proof {
                lemma_replay_rejected_prefix(occurrence_step(), fresh_flags(), rest, i as int);
            }
            return Err(invalid);
        }
        i = i + 1;
    }
    assert(rest.subrange(0, event_count - 1) =~= rest);
    let occurrence = match validate_occurrence(recurrence, offset, event_count, &events[0]) {
        Ok(o) => o,
        Err(e) => {
            return Err(e);
        },
    };
    Ok(
        Some(
            RecurrenceOccurrenceState {
                occurrence,
                revision: event_count as u64,
                claimed,
                latest_release,
                task_id,
            },
        ),
    )
}

} // verus!

verus! {

/// Checks that an occurrence exists at the caller's expected revision and is not yet
/// materialized.
pub fn check_occurrence_revision(
    state: Option<RecurrenceOccurrenceState>,
    id: &RecurrenceId,
    offset: u64,
    expected_revision: u64,
) -> (r: Result<RecurrenceOccurrenceState, RecurrenceStoreError>)
    ensures
        state is None ==> (r matches Err(
            RecurrenceStoreError::OccurrenceNotFound { recurrence_id, offset: o },
        ) && recurrence_id@ == id@ && o == offset),
        state matches Some(s) ==> s@.revision != expected_revision ==> (r matches Err(
            RecurrenceStoreError::OccurrenceConcurrentModification {
                recurrence_id,
                offset: o,
                expected_revision: e,
                current_revision: c,
            },
        ) && recurrence_id@ == id@ && o == offset && e == expected_revision && c == s@.revision),
        state matches Some(s) ==> s@.revision == expected_revision ==> (s@.task_id matches Some(t)
            ==> (r matches Err(
            RecurrenceStoreError::OccurrenceAlreadyMaterialized { recurrence_id, offset: o, task_id },
        ) && recurrence_id@ == id@ && o == offset && task_id@ == t)),
        state matches Some(s) ==> s@.revision == expected_revision ==> s@.task_id is None ==> (r matches Ok(
            x,
        ) && x@ == s@),
{
    let s = match state {
        None => {
            return Err(RecurrenceStoreError::OccurrenceNotFound { recurrence_id: id.clone(), offset });
        },
        Some(s) => s,
    };
    if s.revision != expected_revision {
        return Err(
            RecurrenceStoreError::OccurrenceConcurrentModification {
                recurrence_id: id.clone(),
                offset,
                expected_revision,
                current_revision: s.revision,
            },
        );
    }
    match s.task_id {
        Some(task_id) => Err(
            RecurrenceStoreError::OccurrenceAlreadyMaterialized {
                recurrence_id: id.clone(),
                offset,
                task_id,
            },
        ),
        None => Ok(s),
    }
}

/// Plans durably reserving one available, due occurrence at an exact revision.
pub fn plan_occurrence_claim(
    state: Option<RecurrenceOccurrenceState>,
    id: &RecurrenceId,
    offset: u64,
    expected_revision: u64,
    cutoff: ScheduleInstant,
) -> (r: Result<ClaimedRecurrenceOccurrence, RecurrenceStoreError>)
    requires
        expected_revision < u64::MAX,
    ensures
        state is None ==> (r matches Err(
            RecurrenceStoreError::OccurrenceNotFound { recurrence_id, offset: o },
        ) && recurrence_id@ == id@ && o == offset),
        state matches Some(s) ==> {
            &&& s@.revision != expected_revision ==> (r matches Err(
                RecurrenceStoreError::OccurrenceConcurrentModification {
                    recurrence_id,
                    offset: o,
                    expected_revision: e,
                    current_revision: c,
                },
            ) && recurrence_id@ == id@ && o == offset && e == expected_revision && c
                == s@.revision)
            &&& s@.revision == expected_revision ==> (s@.task_id matches Some(t) ==> (r matches Err(
                RecurrenceStoreError::OccurrenceAlreadyMaterialized {
                    recurrence_id,
                    offset: o,
                    task_id,
                },
            ) && recurrence_id@ == id@ && o == offset && task_id@ == t))
            &&& s@.revision == expected_revision && s@.task_id is None && s@.claimed ==> (r matches Err(
                RecurrenceStoreError::OccurrenceAlreadyClaimed { recurrence_id, offset: o },
            ) && recurrence_id@ == id@ && o == offset)
            &&& s@.revision == expected_revision && s@.task_id is None && !s@.claimed
                && s@.occurrence.instant > cutoff@ ==> (r matches Err(
                RecurrenceStoreError::OccurrenceNotDue { recurrence_id, offset: o, due_at, cutoff: c },
            ) && recurrence_id@ == id@ && o == offset && due_at@ == s@.occurrence.instant && c@
                == cutoff@)
            &&& s@.revision == expected_revision && s@.task_id is None && !s@.claimed
                && s@.occurrence.instant <= cutoff@ ==> (r matches Ok(c) && c@.occurrence
                == s@.occurrence && c@.revision == expected_revision + 1 && occurrence_apply(
                OccurrenceFlags {
                    claimed: s@.claimed,
                    latest_release: s@.latest_release,
                    task_id: s@.task_id,
                },
                RecurrenceOccurrenceEventView::Claimed,
            ) == Some(
                OccurrenceFlags {
                    claimed: true,
                    latest_release: s@.latest_release,
                    task_id: None,
                },
            ))
        },
{
    let s = match check_occurrence_revision(state, id, offset, expected_revision) {
        Ok(s) => s,
        Err(e) => {
            return Err(e);
        },
    };
    if s.claimed {
        return Err(RecurrenceStoreError::OccurrenceAlreadyClaimed { recurrence_id: id.clone(), offset });
    }
    let due_at = s.occurrence.instant();
    if due_at.unix_millis() > cutoff.unix_millis() {
        return Err(
            RecurrenceStoreError::OccurrenceNotDue {
                recurrence_id: id.clone(),
                offset,
                due_at,
                cutoff,
            },
        );
    }
    Ok(ClaimedRecurrenceOccurrence { occurrence: s.occurrence, revision: expected_revision + 1 })
}

/// Plans returning one claimed occurrence to availability with recovery evidence.
pub fn plan_occurrence_release(
    state: Option<RecurrenceOccurrenceState>,
    id: &RecurrenceId,
    offset: u64,
    expected_revision: u64,
    reason: RecurrenceOccurrenceRelease,
) -> (r: Result<ReleasedRecurrenceOccurrence, RecurrenceStoreError>)
    requires
        expected_revision < u64::MAX,
    ensures
        state is None ==> (r matches Err(
            RecurrenceStoreError::OccurrenceNotFound { recurrence_id, offset: o },
        ) && recurrence_id@ == id@ && o == offset),
        state matches Some(s) ==> {
            &&& s@.revision != expected_revision ==> (r matches Err(
                RecurrenceStoreError::OccurrenceConcurrentModification {
                    recurrence_id,
                    offset: o,
                    expected_revision: e,
                    current_revision: c,
                },
            ) && recurrence_id@ == id@ && o == offset && e == expected_revision && c
                == s@.revision)
            &&& s@.revision == expected_revision ==> (s@.task_id matches Some(t) ==> (r matches Err(
                RecurrenceStoreError::OccurrenceAlreadyMaterialized {
                    recurrence_id,
                    offset: o,
                    task_id,
                },
            ) && recurrence_id@ == id@ && o == offset && task_id@ == t))
            &&& s@.revision == expected_revision && s@.task_id is None && !s@.claimed ==> (r matches Err(
                RecurrenceStoreError::OccurrenceNotClaimed { recurrence_id, offset: o },
            ) && recurrence_id@ == id@ && o == offset)
            &&& s@.revision == expected_revision && s@.task_id is None && s@.claimed ==> (r matches Ok(
                c,
            ) && c@.occurrence == s@.occurrence && c@.revision == expected_revision + 1
                && c@.latest_release == reason@ && occurrence_apply(
                OccurrenceFlags {
                    claimed: s@.claimed,
                    latest_release: s@.latest_release,
                    task_id: s@.task_id,
                },
                RecurrenceOccurrenceEventView::Released { reason: reason@ },
            ) == Some(
                OccurrenceFlags { claimed: false, latest_release: Some(reason@), task_id: None },
            ))
        },
{
    let s = match check_occurrence_revision(state, id, offset, expected_revision) {
        Ok(s) => s,
        Err(e) => {
            return Err(e);
        },
    };
    if !s.claimed {
        return Err(RecurrenceStoreError::OccurrenceNotClaimed { recurrence_id: id.clone(), offset });
    }
    Ok(
        ReleasedRecurrenceOccurrence {
            occurrence: s.occurrence,
            revision: expected_revision + 1,
            latest_release: reason,
        },
    )
}

/// Which lifecycle state a materialization consumes.
#[derive(Clone, Copy, Debug, PartialEq, Eq, Structural)]
pub enum MaterializationConflictKind {
    Available,
    Claimed,
}

/// Plans binding one persisted occurrence to a caller-owned task: a claimed one for
/// `Claimed`, an unclaimed one for `Available`.
pub fn plan_occurrence_materialization(
    state: Option<RecurrenceOccurrenceState>,
    id: &RecurrenceId,
    offset: u64,
    expected_revision: u64,
    task_id: TaskId,
    kind: MaterializationConflictKind,
) -> (r: Result<MaterializedRecurrenceOccurrence, RecurrenceStoreError>)
    requires
        expected_revision < u64::MAX,
    ensures
        state is None ==> (r matches Err(
            RecurrenceStoreError::OccurrenceNotFound { recurrence_id, offset: o },
        ) && recurrence_id@ == id@ && o == offset),
        state matches Some(s) ==> {
            &&& s@.revision != expected_revision ==> (r matches Err(
                RecurrenceStoreError::OccurrenceConcurrentModification {
                    recurrence_id,
                    offset: o,
                    expected_revision: e,
                    current_revision: c,
                },
            ) && recurrence_id@ == id@ && o == offset && e == expected_revision && c
                == s@.revision)
            &&& s@.revision == expected_revision ==> (s@.task_id matches Some(t) ==> (r matches Err(
                RecurrenceStoreError::OccurrenceAlreadyMaterialized {
                    recurrence_id,
                    offset: o,
                    task_id,
                },
            ) && recurrence_id@ == id@ && o == offset && task_id@ == t))
            &&& s@.revision == expected_revision && s@.task_id is None && kind
                == MaterializationConflictKind::Claimed && !s@.claimed ==> (r matches Err(
                RecurrenceStoreError::OccurrenceNotClaimed { recurrence_id, offset: o },
            ) && recurrence_id@ == id@ && o == offset)
            &&& s@.revision == expected_revision && s@.task_id is None && kind
                == MaterializationConflictKind::Available && s@.claimed ==> (r matches Err(
                RecurrenceStoreError::OccurrenceAlreadyClaimed { recurrence_id, offset: o },
            ) && recurrence_id@ == id@ && o == offset)
            &&& s@.revision == expected_revision && s@.task_id is None && (s@.claimed == (kind
                == MaterializationConflictKind::Claimed)) ==> (r matches Ok(c) && c@.occurrence
                == s@.occurrence && c@.revision == expected_revision + 1 && c@.task_id == task_id@
                && occurrence_apply(
                OccurrenceFlags {
                    claimed: s@.claimed,
                    latest_release: s@.latest_release,
                    task_id: s@.task_id,
                },
                RecurrenceOccurrenceEventView::Materialized { task_id: task_id@ },
            ) == Some(
                OccurrenceFlags {
                    claimed: false,
                    latest_release: s@.latest_release,
                    task_id: Some(task_id@),
                },
            ))
        },
{
    let s = match check_occurrence_revision(state, id, offset, expected_revision) {
        Ok(s) => s,
        Err(e) => {
            return Err(e);
        },
    };
    match kind {
        MaterializationConflictKind::Claimed => {
            if !s.claimed {
                return Err(
                    RecurrenceStoreError::OccurrenceNotClaimed { recurrence_id: id.clone(), offset },
                );
            }
        },
        MaterializationConflictKind::Available => {
            if s.claimed {
                return Err(
                    RecurrenceStoreError::OccurrenceAlreadyClaimed { recurrence_id: id.clone(), offset },
                );
            }
        },
    }
    Ok(
        MaterializedRecurrenceOccurrence {
            occurrence: s.occurrence,
            revision: expected_revision + 1,
            task_id,
        },
    )
}

/// Explains a lost occurrence-revision race from the freshly reloaded state.
pub fn occurrence_conflict(
    reloaded: Option<RecurrenceOccurrenceState>,
    id: &RecurrenceId,
    offset: u64,
    expected_revision: u64,
) -> (r: RecurrenceStoreError)
    ensures
        reloaded is None ==> (r matches RecurrenceStoreError::OccurrenceNotFound {
            recurrence_id,
            offset: o,
        } && recurrence_id@ == id@ && o == offset),
        reloaded matches Some(s) ==> (r matches RecurrenceStoreError::OccurrenceConcurrentModification {
            recurrence_id,
            offset: o,
            expected_revision: e,
            current_revision: c,
        } && recurrence_id@ == id@ && o == offset && e == expected_revision && c == s@.revision),
{
    match reloaded {
        Some(current) => RecurrenceStoreError::OccurrenceConcurrentModification {
            recurrence_id: id.clone(),
            offset,
            expected_revision,
            current_revision: current.revision,
        },
        None => RecurrenceStoreError::OccurrenceNotFound { recurrence_id: id.clone(), offset },
    }
}

/// Explains a lost materialization race from the freshly reloaded occurrence state.
pub fn materialization_conflict(
    reloaded: Option<RecurrenceOccurrenceState>,
    id: &RecurrenceId,
    offset: u64,
    expected_revision: u64,
    kind: MaterializationConflictKind,
) -> (r: RecurrenceStoreError)
    ensures
        reloaded is None ==> (r matches RecurrenceStoreError::OccurrenceNotFound {
            recurrence_id,
            offset: o,
        } && recurrence_id@ == id@ && o == offset),
        reloaded matches Some(s) ==> (kind == MaterializationConflictKind::Claimed
            || s@.task_id is None) ==> (r matches RecurrenceStoreError::OccurrenceConcurrentModification {
            recurrence_id,
            offset: o,
            expected_revision: e,
            current_revision: c,
        } && recurrence_id@ == id@ && o == offset && e == expected_revision && c == s@.revision),
        reloaded matches Some(s) ==> kind == MaterializationConflictKind::Available ==> (s@.task_id matches Some(
            t,
        ) ==> (r matches RecurrenceStoreError::OccurrenceAlreadyMaterialized {
            recurrence_id,
            offset: o,
            task_id,
        } && recurrence_id@ == id@ && o == offset && task_id@ == t)),
{
    match reloaded {
        None => RecurrenceStoreError::OccurrenceNotFound { recurrence_id: id.clone(), offset },
        Some(current) => {
            if kind == MaterializationConflictKind::Claimed {
                return RecurrenceStoreError::OccurrenceConcurrentModification {
                    recurrence_id: id.clone(),
                    offset,
                    expected_revision,
                    current_revision: current.revision,
                };
            }
            match current.task_id {
                Some(bound) => RecurrenceStoreError::OccurrenceAlreadyMaterialized {
                    recurrence_id: id.clone(),
                    offset,
                    task_id: bound,
                },
                None => RecurrenceStoreError::OccurrenceConcurrentModification {
                    recurrence_id: id.clone(),
                    offset,
                    expected_revision,
                    current_revision: current.revision,
                },
            }
        },
    }
}

/// Plans persisting one exact authored occurrence of a recurrence at an expected revision.
pub fn plan_occurrence_persistence(
    loaded: Option<FixedIntervalRecurrence>,
    id: &RecurrenceId,
    expected_revision: u64,
    offset: u64,
) -> (r: Result<(RecurrenceOccurrenceEvent, RecurrenceOccurrence), RecurrenceStoreError>)
    ensures
        loaded is None ==> (r matches Err(RecurrenceStoreError::NotFound { recurrence_id })
            && recurrence_id@ == id@),
        loaded matches Some(x) ==> x@.revision != expected_revision ==> (r matches Err(
            RecurrenceStoreError::ConcurrentModification {
                recurrence_id,
                expected_revision: e,
                current_revision: cur,
            },
        ) && recurrence_id@ == id@ && e == expected_revision && cur == x@.revision),
        loaded matches Some(x) ==> x@.revision == expected_revision ==> offset
            >= x@.occurrence_count ==> (r matches Err(
            RecurrenceStoreError::OccurrenceOutOfRange {
                recurrence_id,
                requested_offset,
                occurrence_count,
            },
        ) && recurrence_id@ == x@.id && requested_offset == offset && occurrence_count@
            == x@.occurrence_count),
        loaded matches Some(x) ==> x@.revision == expected_revision ==> offset
            < x@.occurrence_count ==> (r matches Ok((e, o)) && o@ == authored_occurrence(
            x@,
            offset,
        ) && persisted_matches(x@, offset, e@)),
{
    let recurrence = match require_recurrence_revision(loaded, id, expected_revision) {
        Ok(x) => x,
        Err(e) => {
            return Err(e);
        },
    };
    let occurrence = match recurrence.occurrence_at(offset) {
        Ok(o) => o,
        Err(e) => {
            return Err(RecurrenceStoreError::from_lookup(e));
        },
    };
    proof {
        use_type_invariant(&recurrence);
        lemma_occurrences_increase(recurrence@, offset as int, recurrence@.occurrence_count - 1);
    }
    let event = persisted_event(&occurrence);
    Ok((event, occurrence))
}

/// The persistence event recording exactly one projected occurrence.
pub fn persisted_event(occurrence: &RecurrenceOccurrence) -> (r: RecurrenceOccurrenceEvent)
    ensures
        r@ == (RecurrenceOccurrenceEventView::Persisted {
            recurrence_id: occurrence@.recurrence_id,
            recurrence_revision: occurrence@.recurrence_revision,
            offset: occurrence@.offset,
            goal: occurrence@.goal,
            unix_millis: occurrence@.instant,
        }),
{
    RecurrenceOccurrenceEvent::Persisted {
        recurrence_id: occurrence.recurrence_id.clone(),
        recurrence_revision: occurrence.recurrence_revision,
        offset: occurrence.offset,
        goal: occurrence.goal.clone(),
        unix_millis: occurrence.instant.unix_millis(),
    }
}

/// Read-after-write for one occurrence stream.
pub proof fn lemma_occurrence_event_is_reloaded(
    r: FixedIntervalRecurrenceView,
    offset: u64,
    history: Seq<RecurrenceOccurrenceEventView>,
    before: OccurrenceStateView,
    event: RecurrenceOccurrenceEventView,
    after: OccurrenceFlags,
)
    requires
        project_occurrence(r, offset, history) == Some(Some(before)),
        occurrence_apply(
            OccurrenceFlags {
                claimed: before.claimed,
                latest_release: before.latest_release,
                task_id: before.task_id,
            },
            event,
        ) == Some(after),
        history.len() < u64::MAX,
    ensures
        project_occurrence(r, offset, history.push(event)) == Some(
            Some(
                OccurrenceStateView {
                    occurrence: before.occurrence,
                    revision: (before.revision + 1) as u64,
                    claimed: after.claimed,
                    latest_release: after.latest_release,
                    task_id: after.task_id,
                },
            ),
        ),
{
    let n = history.len();
    let ext = history.push(event);
    assert(ext[0] == history[0]);
    assert(ext.subrange(1, ext.len() as int) =~= history.subrange(1, n as int).push(event));
    lemma_replay_push(occurrence_step(), fresh_flags(), history.subrange(1, n as int), event);
}

/// A release appended to a claimed, unbound occurrence reloads as the released
/// occurrence its plan returns: no longer claimed, still unbound, carrying the
/// release reason, one revision later.
pub proof fn lemma_released_occurrence_is_reloaded(
    r: FixedIntervalRecurrenceView,
    offset: u64,
    history: Seq<RecurrenceOccurrenceEventView>,
    before: OccurrenceStateView,
    released: ReleasedRecurrenceOccurrenceView,
)
    requires
        project_occurrence(r, offset, history) == Some(Some(before)),
        before.claimed,
        before.task_id is None,
        released.occurrence == before.occurrence,
        released.revision == before.revision + 1,
        history.len() < u64::MAX,
    ensures
        project_occurrence(
            r,
            offset,
            history.push(RecurrenceOccurrenceEventView::Released { reason: released.latest_release }),
        ) == Some(
            Some(
                OccurrenceStateView {
                    occurrence: released.occurrence,
                    revision: released.revision,
                    claimed: false,
                    latest_release: Some(released.latest_release),
                    task_id: None,
                },
            ),
        ),
{
    lemma_occurrence_event_is_reloaded(
        r,
        offset,
        history,
        before,
        RecurrenceOccurrenceEventView::Released { reason: released.latest_release },
        OccurrenceFlags {
            claimed: false,
            latest_release: Some(released.latest_release),
            task_id: None,
        },
    );
}

/// Persisting an authored occurrence is reloaded as that fresh occurrence.
pub proof fn lemma_persisted_occurrence_is_reloaded(
    r: FixedIntervalRecurrenceView,
    offset: u64,
    event: RecurrenceOccurrenceEventView,
)
    requires
        persisted_matches(r, offset, event),
    ensures
        project_occurrence(r, offset, seq![event]) == Some(
            Some(
                OccurrenceStateView {
                    occurrence: authored_occurrence(r, offset),
                    revision: 1,
                    claimed: false,
                    latest_release: None,
                    task_id: None,
                },
            ),
        ),
{
    let h = seq![event];
    assert(h.subrange(1, 1) =~= Seq::<RecurrenceOccurrenceEventView>::empty());
}

} // verus!

verus! {

/// Instants of a well-formed recurrence grow linearly with the offset.
proof fn lemma_instant_shift(r: FixedIntervalRecurrenceView, start: int, k: int)
    ensures
        advanced(r.anchor, r.interval, start + k) == advanced(r.anchor, r.interval, start)
            + r.interval * k,
{
    assert(r.interval * (start + k) == r.interval * start + r.interval * k) by (nonlinear_arith);
}

/// Projects one bounded page of due occurrences through an inclusive cutoff.
pub fn project_due_occurrences_page(
    recurrence: &FixedIntervalRecurrence,
    start_offset: u64,
    page_size: OccurrencePageSize,
    cutoff: ScheduleInstant,
) -> (r: Result<RecurrenceOccurrencePage, RecurrenceStoreError>)
    ensures
        start_offset >= recurrence@.occurrence_count ==> (r matches Err(
            RecurrenceStoreError::OccurrenceOutOfRange { recurrence_id, requested_offset, occurrence_count },
        ) && recurrence_id@ == recurrence@.id && requested_offset == start_offset
            && occurrence_count@ == recurrence@.occurrence_count),
        start_offset < recurrence@.occurrence_count ==> (r matches Ok(p) && {
            let end = start_offset + p@.occurrences.len();
            &&& p@.occurrences.len() <= page_size@
            &&& end <= recurrence@.occurrence_count
            &&& forall|k: int|
                0 <= k < p@.occurrences.len() ==> #[trigger] p@.occurrences[k]
                    == authored_occurrence(recurrence@, (start_offset + k) as u64)
                    && p@.occurrences[k].instant <= cutoff@
            &&& p@.next_offset == if end == recurrence@.occurrence_count {
                None
            } else {
                Some(end as u64)
            }
            &&& end == recurrence@.occurrence_count || p@.occurrences.len() == page_size@
                || authored_occurrence(recurrence@, end as u64).instant > cutoff@
        }),
{
    proof {
        use_type_invariant(recurrence);
    }
    let count = recurrence.occurrence_count().get();
    let page = page_size.get();
    if start_offset >= count {
        return match recurrence.occurrence_at(start_offset) {
            Ok(_) => {
                assert(false);
                Err(RecurrenceStoreError::InvalidHistory { event_count: 0 })
            },
            Err(e) => Err(RecurrenceStoreError::from_lookup(e)),
        };
    }
    let mut offset = start_offset;
    let mut occurrences: Vec<RecurrenceOccurrence> = Vec::new();
    while occurrences.len() < page as usize
        invariant
            start_offset <= offset < count,
            count == recurrence@.occurrence_count,
            page == page_size@,
            0 < page <= 1024,
            occurrences@.len() == offset - start_offset,
            occurrences@.len() <= page,
            forall|k: int|
                0 <= k < occurrences@.len() ==> (#[trigger] occurrences@[k])@ == authored_occurrence(
                    recurrence@,
                    (start_offset + k) as u64,
                ) && occurrences@[k]@.instant <= cutoff@,
        decreases page - occurrences@.len(),
    {
        let occurrence = match recurrence.occurrence_at(offset) {
            Ok(o) => o,
            Err(e) => {
                assert(false);
                return Err(RecurrenceStoreError::from_lookup(e));
            },
        };
        if occurrence.instant().unix_millis() > cutoff.unix_millis() {
            let p = RecurrenceOccurrencePage { occurrences, next_offset: Some(offset) };
            assert(p@.occurrences =~= occurrences_view(occurrences@));
            return Ok(p);
        }
        occurrences.push(occurrence);
        if offset == count - 1 {
            let p = RecurrenceOccurrencePage { occurrences, next_offset: None };
            assert(p@.occurrences =~= occurrences_view(occurrences@));
            return Ok(p);
        }
        offset = offset + 1;
    }
    let p = RecurrenceOccurrencePage { occurrences, next_offset: Some(offset) };
    assert(p@.occurrences =~= occurrences_view(occurrences@));
    Ok(p)
}

/// Selects the latest occurrence due through an inclusive cutoff from a starting offset.
pub fn project_latest_due_occurrence(
    recurrence: &FixedIntervalRecurrence,
    start_offset: u64,
    cutoff: ScheduleInstant,
) -> (r: Result<LatestDueOccurrenceSelection, RecurrenceStoreError>)
    ensures
        start_offset >= recurrence@.occurrence_count ==> (r matches Err(
            RecurrenceStoreError::OccurrenceOutOfRange { recurrence_id, requested_offset, occurrence_count },
        ) && recurrence_id@ == recurrence@.id && requested_offset == start_offset
            && occurrence_count@ == recurrence@.occurrence_count),
        start_offset < recurrence@.occurrence_count ==> authored_occurrence(
            recurrence@,
            start_offset,
        ).instant > cutoff@ ==> (r matches Ok(s) && s@.occurrence is None && s@.next_offset == Some(
            start_offset,
        )),
        start_offset < recurrence@.occurrence_count ==> authored_occurrence(
            recurrence@,
            start_offset,
        ).instant <= cutoff@ ==> (r matches Ok(s) && s@.occurrence matches Some(o) && {
            let latest = o.offset;
            &&& start_offset <= latest < recurrence@.occurrence_count
            &&& o == authored_occurrence(recurrence@, latest)
            &&& o.instant <= cutoff@
            &&& (latest + 1 == recurrence@.occurrence_count || authored_occurrence(
                recurrence@,
                (latest + 1) as u64,
            ).instant > cutoff@)
            &&& s@.next_offset == if latest + 1 < recurrence@.occurrence_count {
                Some((latest + 1) as u64)
            } else {
                None
            }
        }),
{
    proof {
        use_type_invariant(recurrence);
    }
    let starting = match recurrence.occurrence_at(start_offset) {
        Ok(o) => o,
        Err(e) => {
            return Err(RecurrenceStoreError::from_lookup(e));
        },
    };
    let start_instant = starting.instant().unix_millis();
    if start_instant > cutoff.unix_millis() {
        return Ok(LatestDueOccurrenceSelection { occurrence: None, next_offset: Some(start_offset) });
    }
    let count = recurrence.occurrence_count().get();
    let interval = recurrence.interval().millis();
    let elapsed = cutoff.unix_millis() - start_instant;
    let q = elapsed / interval;
    let sum = start_offset.saturating_add(q);
    let latest_offset = if sum < count - 1 {
        sum
    } else {
        count - 1
    };
    proof {
        let rv = recurrence@;
        let d = interval as int;
        let e = elapsed as int;
        let qi = q as int;
        assert(d * qi <= e && e < d * (qi + 1)) by (nonlinear_arith)
            requires
                d > 0,
                e >= 0,
                qi == e / d,
        ;
        let k = latest_offset - start_offset;
        lemma_instant_shift(rv, start_offset as int, k);
        assert(0 <= k <= qi);
        assert(d * k <= d * qi) by (nonlinear_arith)
            requires
                0 <= k <= qi,
                d > 0,
        ;
        lemma_occurrences_increase(rv, start_offset as int, latest_offset as int);
        if latest_offset + 1 < count {
            assert(sum == start_offset + q);
            assert(k == qi);
            lemma_instant_shift(rv, start_offset as int, k + 1);
            lemma_occurrences_increase(rv, start_offset as int, latest_offset + 1);
        }
    }
    let occurrence = match recurrence.occurrence_at(latest_offset) {
        Ok(o) => o,
        Err(e) => {
            assert(false);
            return Err(RecurrenceStoreError::from_lookup(e));
        },
    };
    let next_offset = if latest_offset < count - 1 {
        Some(latest_offset + 1)
    } else {
        None
    };
    Ok(LatestDueOccurrenceSelection { occurrence: Some(occurrence), next_offset })
}

/// The available occurrences among loaded states, in order.
pub open spec fn available_of(states: Seq<Option<RecurrenceOccurrenceState>>) -> Seq<
    AvailableRecurrenceOccurrenceView,
>
    decreases states.len(),
{
    if states.len() == 0 {
        Seq::empty()
    } else {
        let prev = available_of(states.drop_last());
        match states.last() {
            Some(x) => if !x.claimed && x.task_id is None {
                prev.push(
                    AvailableRecurrenceOccurrenceView {
                        occurrence: x.occurrence@,
                        revision: x.revision,
                        latest_release: opt_view(x.latest_release),
                    },
                )
            } else {
                prev
            },
            None => prev,
        }
    }
}

/// Whether `e` lists exactly the loaded state `s` as free: persisted, not claimed and
/// bound to no task.
pub open spec fn lists_free_state(
    s: Option<RecurrenceOccurrenceState>,
    e: AvailableRecurrenceOccurrenceView,
) -> bool {
    &&& s matches Some(x)
    &&& !x.claimed
    &&& x.task_id is None
    &&& e.occurrence == x.occurrence@
    &&& e.revision == x.revision
    &&& e.latest_release == opt_view(x.latest_release)
}

/// Only free occurrences are listed as available: every entry of an available page
/// lists one of the window's loaded states that is neither claimed nor materialized
/// into a task, so a claimed or materialized occurrence is never offered again.
pub proof fn lemma_available_entries_are_free(states: Seq<Option<RecurrenceOccurrenceState>>)
    ensures
        forall|i: int|
            #![trigger available_of(states)[i]]
            0 <= i < available_of(states).len() ==> exists|j: int|
                0 <= j < states.len() && lists_free_state(
                    #[trigger] states[j],
                    available_of(states)[i],
                ),
    decreases states.len(),
{
    if states.len() > 0 {
        let prev = states.drop_last();
        lemma_available_entries_are_free(prev);
        let n = states.len() - 1;
        assert forall|i: int|
            #![trigger available_of(states)[i]]
            0 <= i < available_of(states).len() implies exists|j: int|
            0 <= j < states.len() && lists_free_state(
                #[trigger] states[j],
                available_of(states)[i],
            ) by {
            if i < available_of(prev).len() {
                assert(available_of(states)[i] == available_of(prev)[i]);
                let j = choose|j: int|
                    0 <= j < prev.len() && lists_free_state(#[trigger] prev[j], available_of(prev)[i]);
                assert(states[j] == prev[j]);
            } else {
                assert(lists_free_state(states[n], available_of(states)[i]));
            }
        }
    }
}

/// Every free occurrence is listed as available: each loaded state of the window that
/// is neither claimed nor materialized into a task has an entry in the available page.
pub proof fn lemma_free_states_are_available(states: Seq<Option<RecurrenceOccurrenceState>>)
    ensures
        forall|j: int|
            #![trigger states[j]]
            0 <= j < states.len() && (states[j] matches Some(x) && !x.claimed && x.task_id is None)
                ==> exists|i: int|
                0 <= i < available_of(states).len() && lists_free_state(
                    states[j],
                    #[trigger] available_of(states)[i],
                ),
    decreases states.len(),
{
    if states.len() > 0 {
        let prev = states.drop_last();
        lemma_free_states_are_available(prev);
        let n = states.len() - 1;
        assert forall|j: int|
            #![trigger states[j]]
            0 <= j < states.len() && (states[j] matches Some(x) && !x.claimed && x.task_id is None)
                implies exists|i: int|
                0 <= i < available_of(states).len() && lists_free_state(
                    states[j],
                    #[trigger] available_of(states)[i],
                ) by {
            if j < n {
                assert(states[j] == prev[j]);
                let i = choose|i: int|
                    0 <= i < available_of(prev).len() && lists_free_state(
                        prev[j],
                        #[trigger] available_of(prev)[i],
                    );
                assert(available_of(states)[i] == available_of(prev)[i]);
            } else {
                let i = available_of(prev).len() as int;
                assert(lists_free_state(states[j], available_of(states)[i]));
            }
        }
    }
}

/// Only claimed occurrences are listed as claimed: every entry of a claimed page lists
/// one of the window's loaded states that holds a claim, at its revision.
pub proof fn lemma_claimed_entries_are_claimed(states: Seq<Option<RecurrenceOccurrenceState>>)
    ensures
        forall|i: int|
            #![trigger claimed_of(states)[i]]
            0 <= i < claimed_of(states).len() ==> exists|j: int|
                0 <= j < states.len() && (#[trigger] states[j] matches Some(x) && x.claimed
                    && claimed_of(states)[i].occurrence == x.occurrence@ && claimed_of(
                    states,
                )[i].revision == x.revision),
    decreases states.len(),
{
    if states.len() > 0 {
        let prev = states.drop_last();
        lemma_claimed_entries_are_claimed(prev);
        let n = states.len() - 1;
        assert forall|i: int|
            #![trigger claimed_of(states)[i]]
            0 <= i < claimed_of(states).len() implies exists|j: int|
                0 <= j < states.len() && (#[trigger] states[j] matches Some(x) && x.claimed
                    && claimed_of(states)[i].occurrence == x.occurrence@ && claimed_of(
                    states,
                )[i].revision == x.revision) by {
            if i < claimed_of(prev).len() {
                assert(claimed_of(states)[i] == claimed_of(prev)[i]);
                let j = choose|j: int|
                    0 <= j < prev.len() && (#[trigger] prev[j] matches Some(x) && x.claimed
                        && claimed_of(prev)[i].occurrence == x.occurrence@ && claimed_of(
                        prev,
                    )[i].revision == x.revision);
                assert(states[j] == prev[j]);
            } else {
                assert(states[n] matches Some(x) && x.claimed);
            }
        }
    }
}

/// Only materialized occurrences are listed as materialized: every entry of a
/// materialized page lists one of the window's loaded states bound to exactly that task.
pub proof fn lemma_materialized_entries_are_bound(states: Seq<Option<RecurrenceOccurrenceState>>)
    ensures
        forall|i: int|
            #![trigger materialized_of(states)[i]]
            0 <= i < materialized_of(states).len() ==> exists|j: int|
                0 <= j < states.len() && (#[trigger] states[j] matches Some(x) && x.task_id
                    matches Some(t) && materialized_of(states)[i].task_id == t@
                    && materialized_of(states)[i].occurrence == x.occurrence@),
    decreases states.len(),
{
    if states.len() > 0 {
        let prev = states.drop_last();
        lemma_materialized_entries_are_bound(prev);
        let n = states.len() - 1;
        assert forall|i: int|
            #![trigger materialized_of(states)[i]]
            0 <= i < materialized_of(states).len() implies exists|j: int|
                0 <= j < states.len() && (#[trigger] states[j] matches Some(x) && x.task_id
                    matches Some(t) && materialized_of(states)[i].task_id == t@
                    && materialized_of(states)[i].occurrence == x.occurrence@) by {
            if i < materialized_of(prev).len() {
                assert(materialized_of(states)[i] == materialized_of(prev)[i]);
                let j = choose|j: int|
                    0 <= j < prev.len() && (#[trigger] prev[j] matches Some(x) && x.task_id
                        matches Some(t) && materialized_of(prev)[i].task_id == t@
                        && materialized_of(prev)[i].occurrence == x.occurrence@);
                assert(states[j] == prev[j]);
            } else {
                assert(states[n] matches Some(x) && x.task_id is Some);
            }
        }
    }
}

/// The claimed occurrences among loaded states, in order.
pub open spec fn claimed_of(states: Seq<Option<RecurrenceOccurrenceState>>) -> Seq<
    ClaimedRecurrenceOccurrenceView,
>
    decreases states.len(),
{
    if states.len() == 0 {
        Seq::empty()
    } else {
        let prev = claimed_of(states.drop_last());
        match states.last() {
            Some(x) => if x.claimed {
                prev.push(
                    ClaimedRecurrenceOccurrenceView { occurrence: x.occurrence@, revision: x.revision },
                )
            } else {
                prev
            },
            None => prev,
        }
    }
}

/// The materialized occurrences among loaded states, in order.
pub open spec fn materialized_of(states: Seq<Option<RecurrenceOccurrenceState>>) -> Seq<
    MaterializedRecurrenceOccurrenceView,
>
    decreases states.len(),
{
    if states.len() == 0 {
        Seq::empty()
    } else {
        let prev = materialized_of(states.drop_last());
        match states.last() {
            Some(x) => match x.task_id {
                Some(t) => prev.push(
                    MaterializedRecurrenceOccurrenceView {
                        occurrence: x.occurrence@,
                        revision: x.revision,
                        task_id: t@,
                    },
                ),
                None => prev,
            },
            None => prev,
        }
    }
}

fn clone_release(o: &Option<RecurrenceOccurrenceRelease>) -> (r: Option<RecurrenceOccurrenceRelease>)
    ensures
        r == *o,
{
    match o {
        Some(x) => Some(x.clone()),
        None => None,
    }
}

/// Selects the currently available occurrences of one inspected authored window.
pub fn available_page(states: &Vec<Option<RecurrenceOccurrenceState>>, next_offset: Option<u64>) -> (r:
    AvailableRecurrenceOccurrencePage)
    ensures
        r@.next_offset == next_offset,
        r@.occurrences == available_of(states@),
{
    let mut occurrences: Vec<AvailableRecurrenceOccurrence> = Vec::new();
    let mut i: usize = 0;
    while i < states.len()
        invariant
            i <= states@.len(),
            available_views(occurrences@) == available_of(states@.subrange(0, i as int)),
        decreases states@.len() - i,
    {
        proof {
            assert(states@.subrange(0, i + 1).drop_last() =~= states@.subrange(0, i as int));
        }
        let ghost before = occurrences@;
        match &states[i] {
            Some(x) => {
                if !x.claimed && x.task_id.is_none() {
                    occurrences.push(
                        AvailableRecurrenceOccurrence {
                            occurrence: x.occurrence.clone(),
                            revision: x.revision,
                            latest_release: clone_release(&x.latest_release),
                        },
                    );
                    proof {
                        assert(available_views(occurrences@) =~= available_views(before).push(
                            occurrences@.last()@,
                        ));
                    }
                }
            },
            None => {},
        }
        i = i + 1;
    }
    assert(states@.subrange(0, states@.len() as int) =~= states@);
    AvailableRecurrenceOccurrencePage { occurrences, next_offset }
}

/// Selects the currently claimed occurrences of one inspected authored window.
pub fn claimed_page(states: &Vec<Option<RecurrenceOccurrenceState>>, next_offset: Option<u64>) -> (r:
    ClaimedRecurrenceOccurrencePage)
    ensures
        r@.next_offset == next_offset,
        r@.occurrences == claimed_of(states@),
{
    let mut occurrences: Vec<ClaimedRecurrenceOccurrence> = Vec::new();
    let mut i: usize = 0;
    while i < states.len()
        invariant
            i <= states@.len(),
            claimed_views(occurrences@) == claimed_of(states@.subrange(0, i as int)),
        decreases states@.len() - i,
    {
        proof {
            assert(states@.subrange(0, i + 1).drop_last() =~= states@.subrange(0, i as int));
        }
        let ghost before = occurrences@;
        match &states[i] {
            Some(x) => {
                if x.claimed {
                    occurrences.push(
                        ClaimedRecurrenceOccurrence {
                            occurrence: x.occurrence.clone(),
                            revision: x.revision,
                        },
                    );
                    proof {
                        assert(claimed_views(occurrences@) =~= claimed_views(before).push(
                            occurrences@.last()@,
                        ));
                    }
                }
            },
            None => {},
        }
        i = i + 1;
    }
    assert(states@.subrange(0, states@.len() as int) =~= states@);
    ClaimedRecurrenceOccurrencePage { occurrences, next_offset }
}

/// Selects the materialized bindings of one inspected authored window.
pub fn materialized_page(states: &Vec<Option<RecurrenceOccurrenceState>>, next_offset: Option<u64>) -> (r:
    MaterializedRecurrenceOccurrencePage)
    ensures
        r@.next_offset == next_offset,
        r@.occurrences == materialized_of(states@),
{
    let mut occurrences: Vec<MaterializedRecurrenceOccurrence> = Vec::new();
    let mut i: usize = 0;
    while i < states.len()
        invariant
            i <= states@.len(),
            materialized_views(occurrences@) == materialized_of(states@.subrange(0, i as int)),
        decreases states@.len() - i,
    {
        proof {
            assert(states@.subrange(0, i + 1).drop_last() =~= states@.subrange(0, i as int));
        }
        let ghost before = occurrences@;
        match &states[i] {
            Some(x) => {
                match &x.task_id {
                    Some(t) => {
                        occurrences.push(
                            MaterializedRecurrenceOccurrence {
                                occurrence: x.occurrence.clone(),
                                revision: x.revision,
                                task_id: t.clone(),
                            },
                        );
                        proof {
                            assert(materialized_views(occurrences@) =~= materialized_views(
                                before,
                            ).push(occurrences@.last()@));
                        }
                    },
                    None => {},
                }
            },
            None => {},
        }
        i = i + 1;
    }
    assert(states@.subrange(0, states@.len() as int) =~= states@);
    MaterializedRecurrenceOccurrencePage { occurrences, next_offset }
}

} // verus!

verus! {

/// Whether the task identities are pairwise distinct.
pub open spec fn distinct_ids(ids: Seq<Seq<char>>) -> bool {
    forall|i: int, j: int| 0 <= i < j < ids.len() ==> ids[i] != ids[j]
}

pub open spec fn task_id_views(ids: Seq<TaskId>) -> Seq<Seq<char>> {
    ids.map_values(|t: TaskId| t@)
}

/// Checks the caller's task identities against one selected due page: one per
/// occurrence, none repeated.
pub fn check_due_page_tasks(page: &RecurrenceOccurrencePage, task_ids: &Vec<TaskId>) -> (r: Result<
    (),
    RecurrenceStoreError,
>)
    ensures
        page@.occurrences.len() != task_ids@.len() ==> (r matches Err(
            RecurrenceStoreError::TaskCountMismatch { occurrence_count, task_count },
        ) && occurrence_count == page@.occurrences.len() && task_count == task_ids@.len()),
        page@.occurrences.len() == task_ids@.len() ==> (r is Ok <==> distinct_ids(
            task_id_views(task_ids@),
        )),
        r matches Err(RecurrenceStoreError::DuplicateTaskId { task_id }) ==> exists|i: int, j: int|
            0 <= i < j < task_ids@.len() && task_ids@[i]@ == task_ids@[j]@ && task_id@
                == task_ids@[j]@ && distinct_ids(task_id_views(task_ids@.subrange(0, j))),
{
    let n = page.occurrences.len();
    if n != task_ids.len() {
        assert(page@.occurrences.len() == n);
        return Err(
            RecurrenceStoreError::TaskCountMismatch { occurrence_count: n, task_count: task_ids.len() },
        );
    }
    assert(page@.occurrences.len() == n);
    let ghost ids = task_id_views(task_ids@);
    let mut j: usize = 0;
    while j < task_ids.len()
        invariant
            j <= task_ids@.len(),
            ids == task_id_views(task_ids@),
            distinct_ids(ids.subrange(0, j as int)),
            page@.occurrences.len() == task_ids@.len(),
        decreases task_ids@.len() - j,
    {
        let mut i: usize = 0;
        while i < j
            invariant
                i <= j < task_ids@.len(),
                ids == task_id_views(task_ids@),
                distinct_ids(ids.subrange(0, j as int)),
                page@.occurrences.len() == task_ids@.len(),
                forall|k: int| 0 <= k < i ==> task_ids@[k]@ != task_ids@[j as int]@,
            decreases j - i,
        {
            if task_ids[i].same_as(&task_ids[j]) {
                proof {
                    assert(task_id_views(task_ids@.subrange(0, j as int)) =~= ids.subrange(
                        0,
                        j as int,
                    ));
                    assert(ids[i as int] == ids[j as int]);
                }
                return Err(RecurrenceStoreError::DuplicateTaskId { task_id: task_ids[j].clone() });
            }
            i = i + 1;
        }
        proof {
            let next = ids.subrange(0, j + 1);
            assert forall|a: int, b: int| 0 <= a < b < next.len() implies next[a] != next[b] by {
                if b < j {
                    assert(ids.subrange(0, j as int)[a] == next[a]);
                    assert(ids.subrange(0, j as int)[b] == next[b]);
                } else {
                    assert(next[b] == task_ids@[j as int]@);
                    assert(next[a] == task_ids@[a]@);
                }
            }
        }
        j = j + 1;
    }
    assert(ids.subrange(0, task_ids@.len() as int) =~= ids);
    Ok(())
}

/// Binds each occurrence of a due page to its caller-owned task, in order.
pub fn bind_due_page(page: RecurrenceOccurrencePage, task_ids: Vec<TaskId>) -> (r:
    MaterializedRecurrenceOccurrencePage)
    requires
        page@.occurrences.len() == task_ids@.len(),
    ensures
        r@.next_offset == page@.next_offset,
        r@.occurrences.len() == page@.occurrences.len(),
        forall|k: int|
            0 <= k < r@.occurrences.len() ==> #[trigger] r@.occurrences[k] == (
            MaterializedRecurrenceOccurrenceView {
                occurrence: page@.occurrences[k],
                revision: 2,
                task_id: task_ids@[k]@,
            }),
{
    let n = page.occurrences.len();
    let mut occurrences: Vec<MaterializedRecurrenceOccurrence> = Vec::new();
    let mut i: usize = 0;
    while i < n
        invariant
            i <= n,
            n == page.occurrences@.len(),
            n == task_ids@.len(),
            occurrences@.len() == i,
            forall|k: int|
                0 <= k < i ==> (#[trigger] occurrences@[k])@ == (MaterializedRecurrenceOccurrenceView {
                    occurrence: page.occurrences@[k]@,
                    revision: 2,
                    task_id: task_ids@[k]@,
                }),
        decreases n - i,
    {
        occurrences.push(
            MaterializedRecurrenceOccurrence {
                occurrence: page.occurrences[i].clone(),
                revision: 2,
                task_id: task_ids[i].clone(),
            },
        );
        i = i + 1;
    }
    let r = MaterializedRecurrenceOccurrencePage { occurrences, next_offset: page.next_offset };
    assert(forall|k: int| 0 <= k < n ==> page@.occurrences[k] == page.occurrences@[k]@);
    r
}

/// Binds a latest-due selection's occurrence, if any, to a caller-owned task.
pub fn bind_latest_due(selection: LatestDueOccurrenceSelection, task_id: TaskId) -> (r:
    LatestDueMaterializationSelection)
    ensures
        r@.next_offset == selection@.next_offset,
        selection@.occurrence is None ==> r@.occurrence is None,
        selection@.occurrence matches Some(o) ==> r@.occurrence == Some(
            MaterializedRecurrenceOccurrenceView { occurrence: o, revision: 2, task_id: task_id@ },
        ),
{
    match selection.occurrence {
        None => LatestDueMaterializationSelection {
            occurrence: None,
            next_offset: selection.next_offset,
        },
        Some(occurrence) => LatestDueMaterializationSelection {
            occurrence: Some(MaterializedRecurrenceOccurrence { occurrence, revision: 2, task_id }),
            next_offset: selection.next_offset,
        },
    }
}

/// The next step of claiming the earliest available due occurrence of a window.
pub enum ClaimNextStep {
    /// Nothing in the window can be claimed now.
    Done(ClaimNextRecurrenceOccurrenceSelection),
    /// Claim this exact occurrence revision.
    Claim { offset: u64, revision: u64 },
}

/// Decides whether the earliest available occurrence of a window is due.
pub fn claim_next_step(page: &AvailableRecurrenceOccurrencePage, cutoff: ScheduleInstant) -> (r:
    ClaimNextStep)
    ensures
        page@.occurrences.len() == 0 ==> (r matches ClaimNextStep::Done(s) && s@.occurrence is None
            && s@.next_offset == page@.next_offset),
        page@.occurrences.len() > 0 ==> page@.occurrences[0].occurrence.instant > cutoff@ ==> (r matches ClaimNextStep::Done(
            s,
        ) && s@.occurrence is None && s@.next_offset == Some(page@.occurrences[0].occurrence.offset)),
        page@.occurrences.len() > 0 ==> page@.occurrences[0].occurrence.instant <= cutoff@ ==> (r matches ClaimNextStep::Claim {
            offset,
            revision,
        } && offset == page@.occurrences[0].occurrence.offset && revision
            == page@.occurrences[0].revision),
{
    if page.occurrences.len() == 0 {
        return ClaimNextStep::Done(
            ClaimNextRecurrenceOccurrenceSelection { occurrence: None, next_offset: page.next_offset },
        );
    }
    let first = &page.occurrences[0];
    let occurrence = first.occurrence();
    assert(page@.occurrences[0] == first@);
    if occurrence.instant().unix_millis() > cutoff.unix_millis() {
        return ClaimNextStep::Done(
            ClaimNextRecurrenceOccurrenceSelection {
                occurrence: None,
                next_offset: Some(occurrence.offset()),
            },
        );
    }
    ClaimNextStep::Claim { offset: occurrence.offset(), revision: first.revision() }
}

/// The selection reported after claiming one occurrence of a recurrence.
pub fn claim_next_selection(claimed: ClaimedRecurrenceOccurrence, recurrence: &FixedIntervalRecurrence) -> (r:
    ClaimNextRecurrenceOccurrenceSelection)
    ensures
        r@.occurrence == Some(claimed@),
        r@.next_offset == if claimed@.occurrence.offset + 1 < recurrence@.occurrence_count {
            Some((claimed@.occurrence.offset + 1) as u64)
        } else {
            None
        },
{
    let offset = claimed.occurrence().offset();
    let count = recurrence.occurrence_count().get();
    let next_offset = if offset < count && offset + 1 < count {
        Some(offset + 1)
    } else {
        None
    };
    ClaimNextRecurrenceOccurrenceSelection { occurrence: Some(claimed), next_offset }
}

} // verus!

verus! {

#[derive(Clone, Copy, Debug, PartialEq, Eq, Structural)]
pub enum ScheduleStatus {
    Pending,
    Cancelled,
    Claimed,
    Materialized,
}

pub struct ScheduledTaskView {
    pub id: Seq<char>,
    pub goal: Seq<char>,
    pub due_at: u64,
    pub cancellation: Option<Seq<char>>,
    pub claimed: bool,
    pub latest_release: Option<Seq<char>>,
    pub task_id: Option<Seq<char>>,
    pub revision: u64,
}

/// The lifecycle classification of a schedule: materialization, then cancellation,
/// then a claim take precedence.
pub open spec fn schedule_status(s: ScheduledTaskView) -> ScheduleStatus {
    if s.task_id is Some {
        ScheduleStatus::Materialized
    } else if s.cancellation is Some {
        ScheduleStatus::Cancelled
    } else if s.claimed {
        ScheduleStatus::Claimed
    } else {
        ScheduleStatus::Pending
    }
}

/// One inert durable intent to create a task no earlier than a caller-owned instant.
#[derive(Debug, PartialEq, Eq)]
pub struct ScheduledTask {
    id: ScheduleId,
    goal: TaskGoal,
    due_at: ScheduleInstant,
    cancellation: Option<ScheduleCancellation>,
    claimed: bool,
    latest_release: Option<ScheduleRelease>,
    task_id: Option<TaskId>,
    revision: u64,
}

impl View for ScheduledTask {
    type V = ScheduledTaskView;

    closed spec fn view(&self) -> ScheduledTaskView {
        ScheduledTaskView {
            id: self.id@,
            goal: self.goal@,
            due_at: self.due_at@,
            cancellation: opt_view(self.cancellation),
            claimed: self.claimed,
            latest_release: opt_view(self.latest_release),
            task_id: opt_view(self.task_id),
            revision: self.revision,
        }
    }
}

fn clone_schedule_cancellation(o: &Option<ScheduleCancellation>) -> (r: Option<ScheduleCancellation>)
    ensures
        r == *o,
{
    match o {
        Some(x) => Some(x.clone()),
        None => None,
    }
}

fn clone_schedule_release(o: &Option<ScheduleRelease>) -> (r: Option<ScheduleRelease>)
    ensures
        r == *o,
{
    match o {
        Some(x) => Some(x.clone()),
        None => None,
    }
}

fn clone_task_id(o: &Option<TaskId>) -> (r: Option<TaskId>)
    ensures
        r == *o,
{
    match o {
        Some(x) => Some(x.clone()),
        None => None,
    }
}

impl Clone for ScheduledTask {
    fn clone(&self) -> (r: Self)
        ensures
            r == *self,
    {
        ScheduledTask {
            id: self.id.clone(),
            goal: self.goal.clone(),
            due_at: self.due_at,
            cancellation: clone_schedule_cancellation(&self.cancellation),
            claimed: self.claimed,
            latest_release: clone_schedule_release(&self.latest_release),
            task_id: clone_task_id(&self.task_id),
            revision: self.revision,
        }
    }
}

impl ScheduledTask {
    pub fn id(&self) -> (r: &ScheduleId)
        ensures
            r@ == self@.id,
    {
        &self.id
    }

    pub fn goal(&self) -> (r: &TaskGoal)
        ensures
            r@ == self@.goal,
    {
        &self.goal
    }

    pub fn due_at(&self) -> (r: ScheduleInstant)
        ensures
            r@ == self@.due_at,
    {
        self.due_at
    }

    pub fn status(&self) -> (r: ScheduleStatus)
        ensures
            r == schedule_status(self@),
    {
        if self.task_id.is_some() {
            ScheduleStatus::Materialized
        } else if self.cancellation.is_some() {
            ScheduleStatus::Cancelled
        } else if self.claimed {
            ScheduleStatus::Claimed
        } else {
            ScheduleStatus::Pending
        }
    }

    pub fn cancellation(&self) -> (r: Option<&ScheduleCancellation>)
        ensures
            opt_view(r) == self@.cancellation,
    {
        match &self.cancellation {
            Some(x) => Some(x),
            None => None,
        }
    }

    pub fn latest_release(&self) -> (r: Option<&ScheduleRelease>)
        ensures
            opt_view(r) == self@.latest_release,
    {
        match &self.latest_release {
            Some(x) => Some(x),
            None => None,
        }
    }

    pub fn task_id(&self) -> (r: Option<&TaskId>)
        ensures
            opt_view(r) == self@.task_id,
    {
        match &self.task_id {
            Some(x) => Some(x),
            None => None,
        }
    }

    /// The exact persisted revision represented by this projection.
    pub fn revision(&self) -> (r: u64)
        ensures
            r == self@.revision,
    {
        self.revision
    }
}

/// One validated persisted transition in an exact schedule's lifecycle.
#[derive(Debug, PartialEq, Eq)]
#[non_exhaustive]
#[allow(inconsistent_fields)]
pub enum ScheduleHistoryEvent {
    Created { goal: TaskGoal, due_at: ScheduleInstant },
    Cancelled { reason: ScheduleCancellation },
    Claimed,
    Released { reason: ScheduleRelease },
    Materialized { task_id: TaskId },
}

/// One revision-bearing entry from a validated durable schedule history.
#[derive(Debug, PartialEq, Eq)]
pub struct ScheduleHistoryEntry {
    revision: u64,
    event: ScheduleHistoryEvent,
}

impl ScheduleHistoryEntry {
    pub closed spec fn entry_revision(&self) -> u64 {
        self.revision
    }

    pub closed spec fn entry_event(&self) -> ScheduleHistoryEvent {
        self.event
    }

    /// The one-based event-stream revision occupied by this lifecycle event.
    pub fn revision(&self) -> (r: u64)
        ensures
            r == self.entry_revision(),
    {
        self.revision
    }

    pub fn event(&self) -> (r: &ScheduleHistoryEvent)
        ensures
            *r == self.entry_event(),
    {
        &self.event
    }
}

#[derive(Debug)]
#[non_exhaustive]
pub enum ScheduleStoreError {
    EventLog(EventLogError),
    Replay(ReplayError),
    AlreadyExists { schedule_id: ScheduleId },
    NotFound { schedule_id: ScheduleId },
    AlreadyCancelled { schedule_id: ScheduleId },
    AlreadyClaimed { schedule_id: ScheduleId },
    NotClaimed { schedule_id: ScheduleId },
    AlreadyMaterialized { schedule_id: ScheduleId, task_id: TaskId },
    TaskAlreadyExists { task_id: TaskId },
    AmbiguousTaskBinding { task_id: TaskId, schedule_count: usize },
    ConcurrentModification { schedule_id: ScheduleId, expected_revision: u64, current_revision: u64 },
    NotDue { schedule_id: ScheduleId, due_at: ScheduleInstant, cutoff: ScheduleInstant },
    InvalidStreamId { stream_id: String },
    InvalidHistory { event_count: usize },
}

/// One persisted schedule lifecycle event.
#[derive(Debug)]
#[allow(inconsistent_fields)]
pub enum ScheduleEvent {
    Created { goal: TaskGoal, due_at_unix_millis: u64 },
    Cancelled { reason: ScheduleCancellation },
    Claimed {},
    Released { reason: ScheduleRelease },
    Materialized { task_id: TaskId },
}

pub enum ScheduleEventView {
    Created { goal: Seq<char>, due_at_unix_millis: u64 },
    Cancelled { reason: Seq<char> },
    Claimed,
    Released { reason: Seq<char> },
    Materialized { task_id: Seq<char> },
}

impl View for ScheduleEvent {
    type V = ScheduleEventView;

    open spec fn view(&self) -> ScheduleEventView {
        match self {
            ScheduleEvent::Created { goal, due_at_unix_millis } => ScheduleEventView::Created {
                goal: goal@,
                due_at_unix_millis: *due_at_unix_millis,
            },
            ScheduleEvent::Cancelled { reason } => ScheduleEventView::Cancelled { reason: reason@ },
            ScheduleEvent::Claimed {} => ScheduleEventView::Claimed,
            ScheduleEvent::Released { reason } => ScheduleEventView::Released { reason: reason@ },
            ScheduleEvent::Materialized { task_id } => ScheduleEventView::Materialized {
                task_id: task_id@,
            },
        }
    }
}

pub open spec fn schedule_events_view(events: Seq<ScheduleEvent>) -> Seq<ScheduleEventView> {
    events.map_values(|e: ScheduleEvent| e@)
}

/// How one later event changes a schedule, or `None` when it cannot follow.
pub open spec fn schedule_apply(s: ScheduledTaskView, e: ScheduleEventView) -> Option<ScheduledTaskView> {
    match (schedule_status(s), e) {
        (ScheduleStatus::Pending, ScheduleEventView::Cancelled { reason }) => Some(
            ScheduledTaskView { cancellation: Some(reason), ..s },
        ),
        (ScheduleStatus::Pending, ScheduleEventView::Claimed) => Some(
            ScheduledTaskView { claimed: true, ..s },
        ),
        (ScheduleStatus::Pending, ScheduleEventView::Materialized { task_id }) => Some(
            ScheduledTaskView { task_id: Some(task_id), ..s },
        ),
        (ScheduleStatus::Claimed, ScheduleEventView::Materialized { task_id }) => Some(
            ScheduledTaskView { task_id: Some(task_id), ..s },
        ),
        (ScheduleStatus::Claimed, ScheduleEventView::Released { reason }) => Some(
            ScheduledTaskView { claimed: false, latest_release: Some(reason), ..s },
        ),
        _ => None,
    }
}

pub open spec fn schedule_step() -> spec_fn(ScheduledTaskView, ScheduleEventView) -> Option<
    ScheduledTaskView,
> {
    |s: ScheduledTaskView, e: ScheduleEventView| schedule_apply(s, e)
}

pub open spec fn schedule_created(id: Seq<char>, goal: Seq<char>, due_at: u64, revision: u64) -> ScheduledTaskView {
    ScheduledTaskView {
        id,
        goal,
        due_at,
        cancellation: None,
        claimed: false,
        latest_release: None,
        task_id: None,
        revision,
    }
}

/// The projection of a schedule stream: `None` for an invalid history, `Some(None)`
/// for an empty stream. The revision is the stream's length.
pub open spec fn project_schedule(id: Seq<char>, events: Seq<ScheduleEventView>) -> Option<
    Option<ScheduledTaskView>,
> {
    if events.len() == 0 {
        Some(None)
    } else {
        match events[0] {
            ScheduleEventView::Created { goal, due_at_unix_millis } => match replay(
                schedule_step(),
                schedule_created(id, goal, due_at_unix_millis, events.len() as u64),
                events.subrange(1, events.len() as int),
            ) {
                Some(s) => Some(Some(s)),
                None => None,
            },
            _ => None,
        }
    }
}

/// Projects one replayed schedule stream into its current state.
#[verifier::loop_isolation(false)]
pub fn project_schedule_history(id: ScheduleId, events: &Vec<ScheduleEvent>) -> (r: Result<
    Option<ScheduledTask>,
    ScheduleStoreError,
>)
    ensures
        match project_schedule(id@, schedule_events_view(events@)) {
            None => r matches Err(ScheduleStoreError::InvalidHistory { event_count }) && event_count
                == events@.len(),
            Some(None) => r matches Ok(None),
            Some(Some(s)) => r matches Ok(Some(x)) && x@ == s,
        },
{
    let ghost evs = schedule_events_view(events@);
    let event_count = events.len();
    if event_count == 0 {
        return Ok(None);
    }
    let (goal, due) = match &events[0] {
        ScheduleEvent::Created { goal, due_at_unix_millis } => (goal.clone(), *due_at_unix_millis),
        _ => {
            return Err(ScheduleStoreError::InvalidHistory { event_count });
        },
    };
    let ghost rest = evs.subrange(1, event_count as int);
    let ghost start = schedule_created(id@, goal@, due, event_count as u64);
    let mut scheduled = ScheduledTask {
        id,
        goal,
        due_at: ScheduleInstant::from_unix_millis(due),
        cancellation: None,
        claimed: false,
        latest_release: None,
        task_id: None,
        revision: event_count as u64,
    };
    assert(rest.subrange(0, 0) =~= Seq::<ScheduleEventView>::empty());
    let mut i: usize = 1;
    while i < event_count
        invariant
            1 <= i <= event_count,
            event_count == events@.len(),
            evs == schedule_events_view(events@),
            rest == evs.subrange(1, event_count as int),
            replay(schedule_step(), start, rest.subrange(0, i - 1)) == Some(scheduled@),
        decreases event_count - i,
    {
        proof {
            lemma_replay_step(schedule_step(), start, rest, i - 1);
            assert(rest[i - 1] == events@[i as int]@);
        }
        let status = scheduled.status();
        let accepted = match &events[i] {
            ScheduleEvent::Cancelled { reason } => {
                if status == ScheduleStatus::Pending {
                    scheduled.cancellation = Some(reason.clone());
                    true
                } else {
                    false
                }
            },
            ScheduleEvent::Claimed {} => {
                if status == ScheduleStatus::Pending {
                    scheduled.claimed = true;
                    true
                } else {
                    false
                }
            },
            ScheduleEvent::Materialized { task_id } => {
                if status == ScheduleStatus::Pending || status == ScheduleStatus::Claimed {
                    scheduled.task_id = Some(task_id.clone());
                    true
                } else {
                    false
                }
            },
            ScheduleEvent::Released { reason } => {
                if status == ScheduleStatus::Claimed {
                    scheduled.claimed = false;
                    scheduled.latest_release = Some(reason.clone());
                    true
                } else {
                    false
                }
            },
            ScheduleEvent::Created { .. } => false,
        };
        if !accepted {
            proof {
                lemma_replay_rejected_prefix(schedule_step(), start, rest, i as int);
            }
            return Err(ScheduleStoreError::InvalidHistory { event_count });
        }
        i = i + 1;
    }
    assert(rest.subrange(0, event_count - 1) =~= rest);
    Ok(Some(scheduled))
}

/// The validated semantic form of one schedule event.
pub fn schedule_history_event(event: ScheduleEvent) -> (r: ScheduleHistoryEvent)
    ensures
        match event {
            ScheduleEvent::Created { goal, due_at_unix_millis } => r matches ScheduleHistoryEvent::Created {
                goal: g,
                due_at,
            } && g == goal && due_at@ == due_at_unix_millis,
            ScheduleEvent::Cancelled { reason } => r == (ScheduleHistoryEvent::Cancelled { reason }),
            ScheduleEvent::Claimed {} => r == ScheduleHistoryEvent::Claimed,
            ScheduleEvent::Released { reason } => r == (ScheduleHistoryEvent::Released { reason }),
            ScheduleEvent::Materialized { task_id } => r == (ScheduleHistoryEvent::Materialized {
                task_id,
            }),
        },
{
    match event {
        ScheduleEvent::Created { goal, due_at_unix_millis } => ScheduleHistoryEvent::Created {
            goal,
            due_at: ScheduleInstant::from_unix_millis(due_at_unix_millis),
        },
        ScheduleEvent::Cancelled { reason } => ScheduleHistoryEvent::Cancelled { reason },
        ScheduleEvent::Claimed {} => ScheduleHistoryEvent::Claimed,
        ScheduleEvent::Released { reason } => ScheduleHistoryEvent::Released { reason },
        ScheduleEvent::Materialized { task_id } => ScheduleHistoryEvent::Materialized { task_id },
    }
}

/// Returns a validated schedule's lifecycle in exact revision order, or `None` for
/// an empty stream.
pub fn schedule_history(id: ScheduleId, events: Vec<ScheduleEvent>) -> (r: Result<
    Option<Vec<ScheduleHistoryEntry>>,
    ScheduleStoreError,
>)
    ensures
        events@.len() == 0 ==> r matches Ok(None),
        events@.len() > 0 ==> match project_schedule(id@, schedule_events_view(events@)) {
            None => r matches Err(ScheduleStoreError::InvalidHistory { event_count }) && event_count
                == events@.len(),
            Some(_) => r matches Ok(Some(entries)) && entries@.len() == events@.len() && forall|
                k: int,
            |
                0 <= k < entries@.len() ==> (#[trigger] entries@[k]).entry_revision() == k + 1,
        },
{
    if events.len() == 0 {
        return Ok(None);
    }
    match project_schedule_history(id, &events) {
        Err(e) => {
            return Err(e);
        },
        Ok(_) => {},
    }
    let ghost all = events@;
    let n = events.len();
    let mut events = events;
    let mut reversed: Vec<ScheduleEvent> = Vec::new();
    while events.len() > 0
        invariant
            reversed@.len() + events@.len() == n,
            n == all.len(),
        decreases events@.len(),
    {
        let e = events.pop().unwrap();
        reversed.push(e);
    }
    let mut entries: Vec<ScheduleHistoryEntry> = Vec::new();
    while reversed.len() > 0
        invariant
            entries@.len() + reversed@.len() == n,
            n == all.len(),
            n > 0,
            forall|k: int| 0 <= k < entries@.len() ==> (#[trigger] entries@[k]).entry_revision() == k + 1,
        decreases reversed@.len(),
    {
        let e = reversed.pop().unwrap();
        let revision = (entries.len() + 1) as u64;
        entries.push(ScheduleHistoryEntry { revision, event: schedule_history_event(e) });
    }
    Ok(Some(entries))
}

} // verus!

verus! {

/// Whether `e` is the error a non-pending schedule gives to a change requiring
/// a pending one.
pub open spec fn is_not_pending_error(e: ScheduleStoreError, id: Seq<char>, s: ScheduledTaskView) -> bool {
    match schedule_status(s) {
        ScheduleStatus::Pending => false,
        ScheduleStatus::Cancelled => e matches ScheduleStoreError::AlreadyCancelled { schedule_id }
            && schedule_id@ == id,
        ScheduleStatus::Claimed => e matches ScheduleStoreError::AlreadyClaimed { schedule_id }
            && schedule_id@ == id,
        ScheduleStatus::Materialized => e matches ScheduleStoreError::AlreadyMaterialized {
            schedule_id,
            task_id,
        } && schedule_id@ == id && Some(task_id@) == s.task_id,
    }
}

/// The error for a change that requires a pending schedule, if it is not pending.
pub fn terminal_schedule_error(id: &ScheduleId, scheduled: &ScheduledTask) -> (r: Option<
    ScheduleStoreError,
>)
    ensures
        schedule_status(scheduled@) == ScheduleStatus::Pending <==> r is None,
        r matches Some(e) ==> is_not_pending_error(e, id@, scheduled@),
{
    match scheduled.status() {
        ScheduleStatus::Pending => None,
        ScheduleStatus::Cancelled => Some(ScheduleStoreError::AlreadyCancelled { schedule_id: id.clone() }),
        ScheduleStatus::Claimed => Some(ScheduleStoreError::AlreadyClaimed { schedule_id: id.clone() }),
        ScheduleStatus::Materialized => {
            let task_id = match &scheduled.task_id {
                Some(t) => t.clone(),
                None => {
                    assert(false);
                    return None;
                },
            };
            Some(ScheduleStoreError::AlreadyMaterialized { schedule_id: id.clone(), task_id })
        },
    }
}

/// Checks the caller's expected revision against the projected schedule.
pub fn validate_schedule_revision(
    id: &ScheduleId,
    scheduled: &ScheduledTask,
    expected_revision: u64,
) -> (r: Result<(), ScheduleStoreError>)
    ensures
        scheduled@.revision == expected_revision <==> r is Ok,
        r matches Err(e) ==> (e matches ScheduleStoreError::ConcurrentModification {
            schedule_id,
            expected_revision: x,
            current_revision: c,
        } && schedule_id@ == id@ && x == expected_revision && c == scheduled@.revision),
{
    if scheduled.revision == expected_revision {
        Ok(())
    } else {
        Err(
            ScheduleStoreError::ConcurrentModification {
                schedule_id: id.clone(),
                expected_revision,
                current_revision: scheduled.revision,
            },
        )
    }
}

/// Whether `e` is the error a non-claimed schedule gives to a change requiring a claim.
pub open spec fn is_not_claimed_error(e: ScheduleStoreError, id: Seq<char>, s: ScheduledTaskView) -> bool {
    match schedule_status(s) {
        ScheduleStatus::Claimed => false,
        ScheduleStatus::Pending => e matches ScheduleStoreError::NotClaimed { schedule_id }
            && schedule_id@ == id,
        ScheduleStatus::Cancelled => e matches ScheduleStoreError::AlreadyCancelled { schedule_id }
            && schedule_id@ == id,
        ScheduleStatus::Materialized => e matches ScheduleStoreError::AlreadyMaterialized {
            schedule_id,
            task_id,
        } && schedule_id@ == id && Some(task_id@) == s.task_id,
    }
}

/// Requires a claimed schedule.
pub fn require_claimed(id: &ScheduleId, scheduled: &ScheduledTask) -> (r: Result<(), ScheduleStoreError>)
    ensures
        schedule_status(scheduled@) == ScheduleStatus::Claimed <==> r is Ok,
        r matches Err(e) ==> is_not_claimed_error(e, id@, scheduled@),
{
    match scheduled.status() {
        ScheduleStatus::Claimed => Ok(()),
        ScheduleStatus::Pending => Err(ScheduleStoreError::NotClaimed { schedule_id: id.clone() }),
        ScheduleStatus::Cancelled => Err(ScheduleStoreError::AlreadyCancelled { schedule_id: id.clone() }),
        ScheduleStatus::Materialized => {
            let task_id = match &scheduled.task_id {
                Some(t) => t.clone(),
                None => {
                    assert(false);
                    return Ok(());
                },
            };
            Err(ScheduleStoreError::AlreadyMaterialized { schedule_id: id.clone(), task_id })
        },
    }
}

/// One decided schedule change: the event to append, the revision it must follow,
/// and the state a successful append produces.
pub struct ScheduleChange {
    pub event: ScheduleEvent,
    pub expected_revision: u64,
    pub scheduled: ScheduledTask,
}

/// Whether a planned change follows the loaded state: the event applies to it and
/// the revision advances by one.
pub open spec fn schedule_change_follows(before: ScheduledTaskView, c: ScheduleChange) -> bool {
    &&& c.expected_revision == before.revision
    &&& schedule_apply(before, c.event@) == Some(
        ScheduledTaskView { revision: before.revision, ..c.scheduled@ },
    )
    &&& c.scheduled@.revision == before.revision + 1
}

/// Plans the creation of one schedule intent.
pub fn plan_schedule_creation(id: ScheduleId, goal: TaskGoal, due_at: ScheduleInstant) -> (r:
    ScheduleChange)
    ensures
        r.event@ == (ScheduleEventView::Created { goal: goal@, due_at_unix_millis: due_at@ }),
        r.expected_revision == 0,
        r.scheduled@ == schedule_created(id@, goal@, due_at@, 1),
{
    ScheduleChange {
        event: ScheduleEvent::Created { goal: goal.clone(), due_at_unix_millis: due_at.unix_millis() },
        expected_revision: 0,
        scheduled: ScheduledTask {
            id,
            goal,
            due_at,
            cancellation: None,
            claimed: false,
            latest_release: None,
            task_id: None,
            revision: 1,
        },
    }
}

/// Maps a failed creation append: any stream conflict means the schedule exists.
pub fn schedule_creation_failure(id: ScheduleId, error: EventLogError) -> (r: ScheduleStoreError)
    ensures
        (error matches EventLogError::WrongExpectedVersion { .. }) ==> (r matches ScheduleStoreError::AlreadyExists {
            schedule_id,
        } && schedule_id@ == id@),
        !(error matches EventLogError::WrongExpectedVersion { .. }) ==> (r matches ScheduleStoreError::EventLog(x) && x == error),
{
    match error {
        EventLogError::WrongExpectedVersion { .. } => ScheduleStoreError::AlreadyExists { schedule_id: id },
        error => ScheduleStoreError::EventLog(error),
    }
}

/// What a failed append of a schedule change together with a task start means.
pub enum ScheduleTaskAppendFailure {
    /// The schedule stream moved since it was loaded.
    ScheduleConflict,
    /// The append is refused for good with this error.
    Fail(ScheduleStoreError),
}

/// Maps a failed schedule-and-task append: a task stream that already exists means
/// the task identity is taken; a moved schedule stream is a schedule conflict.
pub fn schedule_task_append_failure(task_id: TaskId, error: EventLogError) -> (r:
    ScheduleTaskAppendFailure)
    ensures
        (error matches EventLogError::WrongExpectedVersion {
            expected: ExpectedVersion::NoStream,
            ..
        }) ==> (r matches ScheduleTaskAppendFailure::Fail(
            ScheduleStoreError::TaskAlreadyExists { task_id: t },
        ) && t@ == task_id@),
        (error matches EventLogError::WrongExpectedVersion {
            expected: ExpectedVersion::Exact(_),
            ..
        }) ==> r is ScheduleConflict,
        !(error matches EventLogError::WrongExpectedVersion { .. }) ==> (r matches ScheduleTaskAppendFailure::Fail(
            ScheduleStoreError::EventLog(x),
        ) && x == error),
{
    match error {
        EventLogError::WrongExpectedVersion { expected: ExpectedVersion::NoStream, .. } =>
            ScheduleTaskAppendFailure::Fail(ScheduleStoreError::TaskAlreadyExists { task_id }),
        EventLogError::WrongExpectedVersion { .. } => ScheduleTaskAppendFailure::ScheduleConflict,
        error => ScheduleTaskAppendFailure::Fail(ScheduleStoreError::EventLog(error)),
    }
}

/// What a schedule operation does with one requested change.
pub enum ScheduleOperation {
    Cancel(ScheduleCancellation),
    Claim(ScheduleInstant),
    Release(ScheduleRelease),
    Materialize(TaskId),
}

/// Plans one change of an existing schedule at the caller's expected revision.
pub fn plan_schedule_change(
    loaded: Option<ScheduledTask>,
    id: &ScheduleId,
    expected_revision: u64,
    operation: ScheduleOperation,
) -> (r: Result<ScheduleChange, ScheduleStoreError>)
    requires
        expected_revision < u64::MAX,
    ensures
        loaded is None ==> (r matches Err(ScheduleStoreError::NotFound { schedule_id })
            && schedule_id@ == id@),
        loaded matches Some(s) ==> s@.revision != expected_revision ==> (r matches Err(
            ScheduleStoreError::ConcurrentModification {
                schedule_id,
                expected_revision: x,
                current_revision: c,
            },
        ) && schedule_id@ == id@ && x == expected_revision && c == s@.revision),
        loaded matches Some(s) ==> s@.revision == expected_revision ==> match operation {
            ScheduleOperation::Cancel(reason) => {
                &&& schedule_status(s@) != ScheduleStatus::Pending ==> (r matches Err(e)
                    && is_not_pending_error(e, id@, s@))
                &&& schedule_status(s@) == ScheduleStatus::Pending ==> (r matches Ok(c)
                    && schedule_change_follows(s@, c) && c.event@ == (ScheduleEventView::Cancelled {
                    reason: reason@,
                }))
            },
            ScheduleOperation::Claim(cutoff) => {
                &&& schedule_status(s@) != ScheduleStatus::Pending ==> (r matches Err(e)
                    && is_not_pending_error(e, id@, s@))
                &&& schedule_status(s@) == ScheduleStatus::Pending && s@.due_at > cutoff@ ==> (r matches Err(
                    ScheduleStoreError::NotDue { schedule_id, due_at, cutoff: c },
                ) && schedule_id@ == id@ && due_at@ == s@.due_at && c@ == cutoff@)
                &&& schedule_status(s@) == ScheduleStatus::Pending && s@.due_at <= cutoff@ ==> (r matches Ok(
                    c,
                ) && schedule_change_follows(s@, c) && c.event@ == ScheduleEventView::Claimed)
            },
            ScheduleOperation::Release(reason) => {
                &&& schedule_status(s@) != ScheduleStatus::Claimed ==> (r matches Err(e)
                    && is_not_claimed_error(e, id@, s@))
                &&& schedule_status(s@) == ScheduleStatus::Claimed ==> (r matches Ok(c)
                    && schedule_change_follows(s@, c) && c.event@ == (ScheduleEventView::Released {
                    reason: reason@,
                }))
            },
            ScheduleOperation::Materialize(task_id) => {
                &&& schedule_status(s@) != ScheduleStatus::Claimed ==> (r matches Err(e)
                    && is_not_claimed_error(e, id@, s@))
                &&& schedule_status(s@) == ScheduleStatus::Claimed ==> (r matches Ok(c)
                    && schedule_change_follows(s@, c) && c.event@ == (ScheduleEventView::Materialized {
                    task_id: task_id@,
                }))
            },
        },
{
    let mut scheduled = match loaded {
        None => {
            return Err(ScheduleStoreError::NotFound { schedule_id: id.clone() });
        },
        Some(s) => s,
    };
    match validate_schedule_revision(id, &scheduled, expected_revision) {
        Err(e) => {
            return Err(e);
        },
        Ok(()) => {},
    }
    let event = match operation {
        ScheduleOperation::Cancel(reason) => {
            match terminal_schedule_error(id, &scheduled) {
                Some(e) => {
                    return Err(e);
                },
                None => {},
            }
            scheduled.cancellation = Some(reason.clone());
            ScheduleEvent::Cancelled { reason }
        },
        ScheduleOperation::Claim(cutoff) => {
            match terminal_schedule_error(id, &scheduled) {
                Some(e) => {
                    return Err(e);
                },
                None => {},
            }
            if scheduled.due_at.unix_millis() > cutoff.unix_millis() {
                return Err(
                    ScheduleStoreError::NotDue {
                        schedule_id: id.clone(),
                        due_at: scheduled.due_at,
                        cutoff,
                    },
                );
            }
            scheduled.claimed = true;
            ScheduleEvent::Claimed {}
        },
        ScheduleOperation::Release(reason) => {
            match require_claimed(id, &scheduled) {
                Err(e) => {
                    return Err(e);
                },
                Ok(()) => {},
            }
            scheduled.claimed = false;
            scheduled.latest_release = Some(reason.clone());
            ScheduleEvent::Released { reason }
        },
        ScheduleOperation::Materialize(task_id) => {
            match require_claimed(id, &scheduled) {
                Err(e) => {
                    return Err(e);
                },
                Ok(()) => {},
            }
            scheduled.task_id = Some(task_id.clone());
            ScheduleEvent::Materialized { task_id }
        },
    };
    scheduled.revision = scheduled.revision + 1;
    Ok(ScheduleChange { event, expected_revision, scheduled })
}

/// Plans materializing a pending schedule straight into a task, as taking the
/// next due schedule does, without a separate claim.
pub fn plan_due_materialization(scheduled: ScheduledTask, task_id: TaskId) -> (r: Result<
    ScheduleChange,
    ScheduleStoreError,
>)
    requires
        scheduled@.revision < u64::MAX,
    ensures
        schedule_status(scheduled@) != ScheduleStatus::Pending ==> (r matches Err(e)
            && is_not_pending_error(e, scheduled@.id, scheduled@)),
        schedule_status(scheduled@) == ScheduleStatus::Pending ==> (r matches Ok(c)
            && schedule_change_follows(scheduled@, c) && c.event@ == (ScheduleEventView::Materialized {
            task_id: task_id@,
        })),
{
    let mut scheduled = scheduled;
    let id = scheduled.id.clone();
    match terminal_schedule_error(&id, &scheduled) {
        Some(e) => {
            return Err(e);
        },
        None => {},
    }
    let expected_revision = scheduled.revision;
    scheduled.task_id = Some(task_id.clone());
    scheduled.revision = scheduled.revision + 1;
    Ok(ScheduleChange { event: ScheduleEvent::Materialized { task_id }, expected_revision, scheduled })
}

/// Explains a lost schedule-revision race from the freshly reloaded state.
pub fn schedule_conflict(reloaded: Option<ScheduledTask>, id: &ScheduleId, expected_revision: u64) -> (r:
    ScheduleStoreError)
    ensures
        reloaded is None ==> (r matches ScheduleStoreError::NotFound { schedule_id }
            && schedule_id@ == id@),
        reloaded matches Some(s) ==> (r matches ScheduleStoreError::ConcurrentModification {
            schedule_id,
            expected_revision: e,
            current_revision: c,
        } && schedule_id@ == id@ && e == expected_revision && c == s@.revision),
{
    match reloaded {
        Some(current) => ScheduleStoreError::ConcurrentModification {
            schedule_id: id.clone(),
            expected_revision,
            current_revision: current.revision,
        },
        None => ScheduleStoreError::NotFound { schedule_id: id.clone() },
    }
}

/// Releasing a claim returns a schedule to pending eligibility: the intent,
/// its goal and its due instant are unchanged, and the release is recorded.
pub proof fn lemma_release_undoes_claim(s: ScheduledTaskView, reason: Seq<char>)
    requires
        schedule_status(s) == ScheduleStatus::Pending,
    ensures
        schedule_apply(s, ScheduleEventView::Claimed) matches Some(c) && schedule_status(c)
            == ScheduleStatus::Claimed && schedule_apply(c, ScheduleEventView::Released { reason })
            == Some(ScheduledTaskView { latest_release: Some(reason), ..s }),
{
}

/// A cancelled or materialized schedule accepts no further lifecycle event.
pub proof fn lemma_settled_schedule_accepts_nothing(s: ScheduledTaskView, e: ScheduleEventView)
    requires
        schedule_status(s) == ScheduleStatus::Cancelled || schedule_status(s)
            == ScheduleStatus::Materialized,
    ensures
        schedule_apply(s, e) is None,
{
}

/// Releasing an occurrence claim makes it available again with the recorded
/// reason; a materialized occurrence accepts no further lifecycle event.
pub proof fn lemma_occurrence_release_undoes_claim(
    f: OccurrenceFlags,
    reason: Seq<char>,
    task_id: Seq<char>,
    e: RecurrenceOccurrenceEventView,
)
    requires
        !f.claimed,
        f.task_id is None,
    ensures
        occurrence_apply(f, RecurrenceOccurrenceEventView::Claimed) matches Some(c)
            && occurrence_apply(c, RecurrenceOccurrenceEventView::Released { reason }) == Some(
            OccurrenceFlags { latest_release: Some(reason), ..f },
        ),
        occurrence_apply(OccurrenceFlags { task_id: Some(task_id), ..f }, e) is None,
{
}

/// Read-after-write: appending a change that follows the projected state makes the
/// projection of the extended history the change's state.
pub proof fn lemma_schedule_change_is_reloaded(
    id: Seq<char>,
    history: Seq<ScheduleEventView>,
    before: ScheduledTaskView,
    event: ScheduleEventView,
    after: ScheduledTaskView,
)
    requires
        project_schedule(id, history) == Some(Some(before)),
        schedule_apply(before, event) == Some(ScheduledTaskView { revision: before.revision, ..after }),
        after.revision == before.revision + 1,
        history.len() < u64::MAX,
    ensures
        project_schedule(id, history.push(event)) == Some(Some(after)),
{
    let n = history.len();
    let ext = history.push(event);
    assert(ext[0] == history[0]);
    let goal = history[0]->Created_goal;
    let due = history[0]->Created_due_at_unix_millis;
    let f = schedule_step();
    assert(ext.subrange(1, ext.len() as int) =~= history.subrange(1, n as int).push(event));
    lemma_replay_push(
        f,
        schedule_created(id, goal, due, (n + 1) as u64),
        history.subrange(1, n as int),
        event,
    );
    lemma_schedule_replay_revision(id, goal, due, n as u64, (n + 1) as u64, history.subrange(1, n as int));
}

/// Replay of schedule events never changes the revision, so histories replayed
/// from states differing only in revision stay so.
proof fn lemma_schedule_replay_revision(
    id: Seq<char>,
    goal: Seq<char>,
    due: u64,
    a: u64,
    b: u64,
    events: Seq<ScheduleEventView>,
)
    ensures
        replay(schedule_step(), schedule_created(id, goal, due, a), events) is Some
            <==> replay(schedule_step(), schedule_created(id, goal, due, b), events) is Some,
        replay(schedule_step(), schedule_created(id, goal, due, a), events) matches Some(x)
            ==> replay(schedule_step(), schedule_created(id, goal, due, b), events) == Some(
            ScheduledTaskView { revision: b, ..x },
        ) && x.revision == a,
    decreases events.len(),
{
    if events.len() > 0 {
        lemma_schedule_replay_revision(id, goal, due, a, b, events.drop_last());
    }
}

} // verus!

verus! {

impl ScheduleOccurrenceError {
    /// The failure rendered as text.
    pub fn to_string(&self) -> (r: String)
        ensures
            r@ == "schedule instant "@ + decimal(self@.instant as nat)
                + " cannot advance by interval "@ + decimal(self@.interval as nat)
                + " milliseconds at offset "@ + decimal(self@.offset as nat),
    {
        let mut s = "schedule instant ".to_owned();
        s.append(u64_to_decimal(self.instant.unix_millis()).as_str());
        s.append(" cannot advance by interval ");
        s.append(u64_to_decimal(self.interval.millis()).as_str());
        s.append(" milliseconds at offset ");
        s.append(u64_to_decimal(self.offset).as_str());
        s
    }
}

impl ScheduleAdvanceError {
    /// The failure rendered as text.
    pub fn to_string(&self) -> (r: String)
        ensures
            r@ == "schedule instant "@ + decimal(self@.instant as nat) + " cannot advance by "@
                + decimal(self@.interval as nat) + " milliseconds"@,
    {
        let mut s = "schedule instant ".to_owned();
        s.append(u64_to_decimal(self.instant.unix_millis()).as_str());
        s.append(" cannot advance by ");
        s.append(u64_to_decimal(self.interval.millis()).as_str());
        s.append(" milliseconds");
        s
    }
}

/// The payload schema of one stored schedule event; every schedule event is
/// stored at payload version 1.
#[derive(Clone, Copy, Debug, PartialEq, Eq, Structural)]
pub enum SchedulePayloadKind {
    /// `schedule.created`: `{goal, due_at_unix_millis}`.
    Created,
    /// `schedule.cancelled`: `{reason}`.
    Cancelled,
    /// `schedule.claimed`: `{}`.
    Claimed,
    /// `schedule.released`: `{reason}`.
    Released,
    /// `schedule.materialized`: `{task_id}`.
    Materialized,
}

pub open spec fn schedule_payload_kind_of(event_type: Seq<char>, version: u32) -> Option<
    SchedulePayloadKind,
> {
    if version != 1 {
        None
    } else if event_type == "schedule.created"@ {
        Some(SchedulePayloadKind::Created)
    } else if event_type == "schedule.cancelled"@ {
        Some(SchedulePayloadKind::Cancelled)
    } else if event_type == "schedule.claimed"@ {
        Some(SchedulePayloadKind::Claimed)
    } else if event_type == "schedule.released"@ {
        Some(SchedulePayloadKind::Released)
    } else if event_type == "schedule.materialized"@ {
        Some(SchedulePayloadKind::Materialized)
    } else {
        None
    }
}

/// Chooses the payload schema of a stored schedule event, refusing an unknown
/// type or version.
pub fn schedule_payload_kind(event_type: &str, payload_version: u32) -> (r: Result<
    SchedulePayloadKind,
    DecodeError,
>)
    ensures
        match schedule_payload_kind_of(event_type@, payload_version) {
            Some(k) => r matches Ok(k2) && k2 == k,
            None => r matches Err(DecodeError::UnsupportedEvent { event_type: t, payload_version: v })
                && t@ == event_type@ && v == payload_version,
        },
{
    if payload_version != 1 {
        Err(DecodeError::UnsupportedEvent { event_type: event_type.to_owned(), payload_version })
    } else if str_equals(event_type, "schedule.created") {
        Ok(SchedulePayloadKind::Created)
    } else if str_equals(event_type, "schedule.cancelled") {
        Ok(SchedulePayloadKind::Cancelled)
    } else if str_equals(event_type, "schedule.claimed") {
        Ok(SchedulePayloadKind::Claimed)
    } else if str_equals(event_type, "schedule.released") {
        Ok(SchedulePayloadKind::Released)
    } else if str_equals(event_type, "schedule.materialized") {
        Ok(SchedulePayloadKind::Materialized)
    } else {
        Err(DecodeError::UnsupportedEvent { event_type: event_type.to_owned(), payload_version })
    }
}

/// A parsed schedule payload: its fields as plain values.
pub enum SchedulePayload {
    Created { goal: String, due_at_unix_millis: u64 },
    /// A payload with one text field: `reason` or `task_id`.
    Text(String),
    Empty,
}

pub open spec fn schedule_payload_fits(kind: SchedulePayloadKind, payload: SchedulePayload) -> bool {
    match kind {
        SchedulePayloadKind::Created => payload is Created,
        SchedulePayloadKind::Claimed => payload is Empty,
        _ => payload is Text,
    }
}

/// The event a fitting parsed schedule payload decodes to, or the validation text
/// of the field it refuses.
pub open spec fn schedule_decoded(kind: SchedulePayloadKind, payload: SchedulePayload) -> Result<
    ScheduleEventView,
    Seq<char>,
> {
    match payload {
        SchedulePayload::Created { goal, due_at_unix_millis } => if goal@.len() == 0 {
            Err("task goal must not be empty"@)
        } else {
            Ok(ScheduleEventView::Created { goal: goal@, due_at_unix_millis })
        },
        SchedulePayload::Empty => Ok(ScheduleEventView::Claimed),
        SchedulePayload::Text(t) => match kind {
            SchedulePayloadKind::Cancelled => if is_blank(t@) {
                Err("schedule cancellation reason must not be blank"@)
            } else {
                Ok(ScheduleEventView::Cancelled { reason: t@ })
            },
            SchedulePayloadKind::Released => if is_blank(t@) {
                Err("schedule release reason must not be blank"@)
            } else {
                Ok(ScheduleEventView::Released { reason: t@ })
            },
            _ => if t@.len() == 0 {
                Err("task id must not be empty"@)
            } else {
                Ok(ScheduleEventView::Materialized { task_id: t@ })
            },
        },
    }
}

/// Validates the fields of a parsed schedule payload into its event.
pub fn schedule_event_from_payload(kind: SchedulePayloadKind, payload: SchedulePayload) -> (r:
    Result<ScheduleEvent, DecodeError>)
    requires
        schedule_payload_fits(kind, payload),
    ensures
        match schedule_decoded(kind, payload) {
            Ok(e) => r matches Ok(ev) && ev@ == e,
            Err(m) => r matches Err(DecodeError::MalformedPayload { message }) && message@ == m,
        },
{
    match payload {
        SchedulePayload::Created { goal, due_at_unix_millis } => match TaskGoal::new(goal) {
            Ok(goal) => Ok(ScheduleEvent::Created { goal, due_at_unix_millis }),
            Err(e) => Err(DecodeError::MalformedPayload { message: e.to_string() }),
        },
        SchedulePayload::Empty => Ok(ScheduleEvent::Claimed {}),
        SchedulePayload::Text(t) => match kind {
            SchedulePayloadKind::Cancelled => match ScheduleCancellation::new(t) {
                Ok(reason) => Ok(ScheduleEvent::Cancelled { reason }),
                Err(e) => Err(DecodeError::MalformedPayload { message: e.to_string() }),
            },
            SchedulePayloadKind::Released => match ScheduleRelease::new(t) {
                Ok(reason) => Ok(ScheduleEvent::Released { reason }),
                Err(e) => Err(DecodeError::MalformedPayload { message: e.to_string() }),
            },
            _ => match TaskId::new(t) {
                Ok(task_id) => Ok(ScheduleEvent::Materialized { task_id }),
                Err(e) => Err(DecodeError::MalformedPayload { message: e.to_string() }),
            },
        },
    }
}

/// The persisted discriminator of each schedule event.
pub open spec fn schedule_event_type(e: ScheduleEventView) -> Seq<char> {
    match e {
        ScheduleEventView::Created { .. } => "schedule.created"@,
        ScheduleEventView::Cancelled { .. } => "schedule.cancelled"@,
        ScheduleEventView::Claimed => "schedule.claimed"@,
        ScheduleEventView::Released { .. } => "schedule.released"@,
        ScheduleEventView::Materialized { .. } => "schedule.materialized"@,
    }
}

/// The parsed payload `p` carries exactly the fields of the schedule event `e`.
pub open spec fn schedule_payload_carries(e: ScheduleEventView, p: SchedulePayload) -> bool {
    match (e, p) {
        (
            ScheduleEventView::Created { goal, due_at_unix_millis },
            SchedulePayload::Created { goal: g, due_at_unix_millis: d },
        ) => g@ == goal && d == due_at_unix_millis,
        (ScheduleEventView::Cancelled { reason }, SchedulePayload::Text(t)) => t@ == reason,
        (ScheduleEventView::Claimed, SchedulePayload::Empty) => true,
        (ScheduleEventView::Released { reason }, SchedulePayload::Text(t)) => t@ == reason,
        (ScheduleEventView::Materialized { task_id }, SchedulePayload::Text(t)) => t@ == task_id,
        _ => false,
    }
}

/// The fields of a schedule event satisfy the rules of their types.
pub open spec fn schedule_event_fields_valid(e: ScheduleEventView) -> bool {
    match e {
        ScheduleEventView::Created { goal, .. } => goal.len() > 0,
        ScheduleEventView::Cancelled { reason } => !is_blank(reason),
        ScheduleEventView::Claimed => true,
        ScheduleEventView::Released { reason } => !is_blank(reason),
        ScheduleEventView::Materialized { task_id } => task_id.len() > 0,
    }
}

/// Round trip: the stored type of a schedule event selects a schema that its
/// payload fits, and the payload decodes back to the event.
pub proof fn lemma_schedule_event_round_trip(e: ScheduleEventView, p: SchedulePayload)
    requires
        schedule_event_fields_valid(e),
        schedule_payload_carries(e, p),
    ensures
        schedule_payload_kind_of(schedule_event_type(e), 1) matches Some(k) && schedule_payload_fits(
            k,
            p,
        ) && schedule_decoded(k, p) == Ok::<ScheduleEventView, Seq<char>>(e),
{
    reveal_strlit("schedule.created");
    reveal_strlit("schedule.cancelled");
    reveal_strlit("schedule.claimed");
    reveal_strlit("schedule.released");
    reveal_strlit("schedule.materialized");
    assert("schedule.created"@.len() == 16 && "schedule.claimed"@.len() == 16);
    assert("schedule.cancelled"@.len() == 18 && "schedule.released"@.len() == 17);
    assert("schedule.materialized"@.len() == 21);
    assert("schedule.created"@[10] != "schedule.claimed"@[10]);
}

impl ScheduleEvent {
    /// The persisted event discriminator.
    pub fn event_type(&self) -> (r: &'static str)
        ensures
            r@ == schedule_event_type(self@),
    {
        match self {
            ScheduleEvent::Created { .. } => "schedule.created",
            ScheduleEvent::Cancelled { .. } => "schedule.cancelled",
            ScheduleEvent::Claimed {} => "schedule.claimed",
            ScheduleEvent::Released { .. } => "schedule.released",
            ScheduleEvent::Materialized { .. } => "schedule.materialized",
        }
    }

    /// Every schedule event is stored at payload version 1.
    pub fn payload_version(&self) -> (r: u32)
        ensures
            r == 1,
    {
        1
    }
}

/// The parsed fields of a stored recurrence definition.
pub struct RecurrencePayload {
    pub goal: String,
    pub anchor_unix_millis: u64,
    pub interval_millis: u64,
    pub occurrence_count: u64,
}

/// Whether a stored recurrence event's type and version are supported.
pub open spec fn recurrence_event_supported(event_type: Seq<char>, version: u32) -> bool {
    event_type == "recurrence.fixed_interval_created"@ && version == 1
}

/// Refuses a stored recurrence event of another type or version.
pub fn recurrence_payload_kind(event_type: &str, payload_version: u32) -> (r: Result<(), DecodeError>)
    ensures
        r is Ok <==> recurrence_event_supported(event_type@, payload_version),
        r matches Err(e) ==> (e matches DecodeError::UnsupportedEvent {
            event_type: t,
            payload_version: v,
        } && t@ == event_type@ && v == payload_version),
{
    if str_equals(event_type, "recurrence.fixed_interval_created") && payload_version == 1 {
        Ok(())
    } else {
        Err(DecodeError::UnsupportedEvent { event_type: event_type.to_owned(), payload_version })
    }
}

/// The definition a parsed recurrence payload decodes to, or the validation text
/// of the first check it fails: goal, interval, count, then the range of its
/// final occurrence.
pub open spec fn recurrence_decoded(p: RecurrencePayload) -> Result<(), Seq<char>> {
    if p.goal@.len() == 0 {
        Err("task goal must not be empty"@)
    } else if p.interval_millis == 0 {
        Err("schedule interval must be greater than zero milliseconds"@)
    } else if p.occurrence_count == 0 {
        Err("recurrence occurrence count must be greater than zero"@)
    } else if advanced(p.anchor_unix_millis, p.interval_millis, p.occurrence_count - 1)
        > u64::MAX {
        Err(
            "schedule instant "@ + decimal(p.anchor_unix_millis as nat)
                + " cannot advance by interval "@ + decimal(p.interval_millis as nat)
                + " milliseconds at offset "@ + decimal((p.occurrence_count - 1) as nat),
        )
    } else {
        Ok(())
    }
}

/// Validates a parsed recurrence payload into its definition event.
pub fn recurrence_event_from_payload(p: RecurrencePayload) -> (r: Result<
    RecurrenceEvent,
    DecodeError,
>)
    ensures
        match recurrence_decoded(p) {
            Ok(()) => r matches Ok(RecurrenceEvent::Created {
                goal,
                anchor_unix_millis,
                interval_millis,
                occurrence_count,
            }) && goal@ == p.goal@ && anchor_unix_millis == p.anchor_unix_millis && interval_millis
                == p.interval_millis && occurrence_count == p.occurrence_count,
            Err(m) => r matches Err(DecodeError::MalformedPayload { message }) && message@ == m,
        },
{
    let goal = match TaskGoal::new(p.goal) {
        Ok(g) => g,
        Err(e) => {
            return Err(DecodeError::MalformedPayload { message: e.to_string() });
        },
    };
    let interval = match ScheduleInterval::from_millis(p.interval_millis) {
        Ok(i) => i,
        Err(e) => {
            return Err(DecodeError::MalformedPayload { message: e.to_string() });
        },
    };
    let count = match OccurrenceCount::new(p.occurrence_count) {
        Ok(c) => c,
        Err(e) => {
            return Err(DecodeError::MalformedPayload { message: e.to_string() });
        },
    };
    match ScheduleInstant::from_unix_millis(p.anchor_unix_millis).checked_advance_by(
        interval,
        count.final_offset(),
    ) {
        Ok(_) => {},
        Err(e) => {
            return Err(DecodeError::MalformedPayload { message: e.to_string() });
        },
    }
    Ok(
        RecurrenceEvent::Created {
            goal,
            anchor_unix_millis: p.anchor_unix_millis,
            interval_millis: p.interval_millis,
            occurrence_count: p.occurrence_count,
        },
    )
}

impl RecurrenceEvent {
    /// The persisted event discriminator.
    pub fn event_type(&self) -> (r: &'static str)
        ensures
            r@ == "recurrence.fixed_interval_created"@,
    {
        "recurrence.fixed_interval_created"
    }

    /// Every recurrence event is stored at payload version 1.
    pub fn payload_version(&self) -> (r: u32)
        ensures
            r == 1,
    {
        1
    }
}

/// The payload schema of one stored recurrence-occurrence event; every such
/// event is stored at payload version 1.
#[derive(Clone, Copy, Debug, PartialEq, Eq, Structural)]
pub enum OccurrencePayloadKind {
    /// `recurrence.occurrence_persisted`: `{recurrence_id, recurrence_revision, offset, goal, unix_millis}`.
    Persisted,
    /// `recurrence.occurrence_claimed`: `{}`.
    Claimed,
    /// `recurrence.occurrence_released`: `{reason}`.
    Released,
    /// `recurrence.occurrence_materialized`: `{task_id}`.
    Materialized,
}

pub open spec fn occurrence_payload_kind_of(event_type: Seq<char>, version: u32) -> Option<
    OccurrencePayloadKind,
> {
    if version != 1 {
        None
    } else if event_type == "recurrence.occurrence_persisted"@ {
        Some(OccurrencePayloadKind::Persisted)
    } else if event_type == "recurrence.occurrence_claimed"@ {
        Some(OccurrencePayloadKind::Claimed)
    } else if event_type == "recurrence.occurrence_released"@ {
        Some(OccurrencePayloadKind::Released)
    } else if event_type == "recurrence.occurrence_materialized"@ {
        Some(OccurrencePayloadKind::Materialized)
    } else {
        None
    }
}

/// Chooses the payload schema of a stored occurrence event, refusing an unknown
/// type or version.
pub fn occurrence_payload_kind(event_type: &str, payload_version: u32) -> (r: Result<
    OccurrencePayloadKind,
    DecodeError,
>)
    ensures
        match occurrence_payload_kind_of(event_type@, payload_version) {
            Some(k) => r matches Ok(k2) && k2 == k,
            None => r matches Err(DecodeError::UnsupportedEvent { event_type: t, payload_version: v })
                && t@ == event_type@ && v == payload_version,
        },
{
    if payload_version != 1 {
        Err(DecodeError::UnsupportedEvent { event_type: event_type.to_owned(), payload_version })
    } else if str_equals(event_type, "recurrence.occurrence_persisted") {
        Ok(OccurrencePayloadKind::Persisted)
    } else if str_equals(event_type, "recurrence.occurrence_claimed") {
        Ok(OccurrencePayloadKind::Claimed)
    } else if str_equals(event_type, "recurrence.occurrence_released") {
        Ok(OccurrencePayloadKind::Released)
    } else if str_equals(event_type, "recurrence.occurrence_materialized") {
        Ok(OccurrencePayloadKind::Materialized)
    } else {
        Err(DecodeError::UnsupportedEvent { event_type: event_type.to_owned(), payload_version })
    }
}

/// A parsed occurrence payload: its fields as plain values.
pub enum OccurrencePayload {
    Persisted {
        recurrence_id: String,
        recurrence_revision: u64,
        offset: u64,
        goal: String,
        unix_millis: u64,
    },
    /// A payload with one text field: `reason` or `task_id`.
    Text(String),
    Empty,
}

pub open spec fn occurrence_payload_fits(kind: OccurrencePayloadKind, payload: OccurrencePayload) -> bool {
    match kind {
        OccurrencePayloadKind::Persisted => payload is Persisted,
        OccurrencePayloadKind::Claimed => payload is Empty,
        _ => payload is Text,
    }
}

/// The event a fitting parsed occurrence payload decodes to, or the validation
/// text of the first field it refuses.
pub open spec fn occurrence_decoded(kind: OccurrencePayloadKind, payload: OccurrencePayload) -> Result<
    RecurrenceOccurrenceEventView,
    Seq<char>,
> {
    match payload {
        OccurrencePayload::Persisted {
            recurrence_id,
            recurrence_revision,
            offset,
            goal,
            unix_millis,
        } => if is_blank(recurrence_id@) {
            Err("recurrence id must not be blank"@)
        } else if goal@.len() == 0 {
            Err("task goal must not be empty"@)
        } else {
            Ok(
                RecurrenceOccurrenceEventView::Persisted {
                    recurrence_id: recurrence_id@,
                    recurrence_revision,
                    offset,
                    goal: goal@,
                    unix_millis,
                },
            )
        },
        OccurrencePayload::Empty => Ok(RecurrenceOccurrenceEventView::Claimed),
        OccurrencePayload::Text(t) => match kind {
            OccurrencePayloadKind::Released => if is_blank(t@) {
                Err("recurrence occurrence release reason must not be blank"@)
            } else {
                Ok(RecurrenceOccurrenceEventView::Released { reason: t@ })
            },
            _ => if t@.len() == 0 {
                Err("task id must not be empty"@)
            } else {
                Ok(RecurrenceOccurrenceEventView::Materialized { task_id: t@ })
            },
        },
    }
}

/// Validates the fields of a parsed occurrence payload into its event.
pub fn occurrence_event_from_payload(kind: OccurrencePayloadKind, payload: OccurrencePayload) -> (r:
    Result<RecurrenceOccurrenceEvent, DecodeError>)
    requires
        occurrence_payload_fits(kind, payload),
    ensures
        match occurrence_decoded(kind, payload) {
            Ok(e) => r matches Ok(ev) && ev@ == e,
            Err(m) => r matches Err(DecodeError::MalformedPayload { message }) && message@ == m,
        },
{
    match payload {
        OccurrencePayload::Persisted {
            recurrence_id,
            recurrence_revision,
            offset,
            goal,
            unix_millis,
        } => {
            let recurrence_id = match RecurrenceId::new(recurrence_id) {
                Ok(r) => r,
                Err(e) => {
                    return Err(DecodeError::MalformedPayload { message: e.to_string() });
                },
            };
            let goal = match TaskGoal::new(goal) {
                Ok(g) => g,
                Err(e) => {
                    return Err(DecodeError::MalformedPayload { message: e.to_string() });
                },
            };
            Ok(
                RecurrenceOccurrenceEvent::Persisted {
                    recurrence_id,
                    recurrence_revision,
                    offset,
                    goal,
                    unix_millis,
                },
            )
        },
        OccurrencePayload::Empty => Ok(RecurrenceOccurrenceEvent::Claimed {}),
        OccurrencePayload::Text(t) => match kind {
            OccurrencePayloadKind::Released => match RecurrenceOccurrenceRelease::new(t) {
                Ok(reason) => Ok(RecurrenceOccurrenceEvent::Released { reason }),
                Err(e) => Err(DecodeError::MalformedPayload { message: e.to_string() }),
            },
            _ => match TaskId::new(t) {
                Ok(task_id) => Ok(RecurrenceOccurrenceEvent::Materialized { task_id }),
                Err(e) => Err(DecodeError::MalformedPayload { message: e.to_string() }),
            },
        },
    }
}

/// The persisted discriminator of each occurrence event.
pub open spec fn occurrence_event_type(e: RecurrenceOccurrenceEventView) -> Seq<char> {
    match e {
        RecurrenceOccurrenceEventView::Persisted { .. } => "recurrence.occurrence_persisted"@,
        RecurrenceOccurrenceEventView::Claimed => "recurrence.occurrence_claimed"@,
        RecurrenceOccurrenceEventView::Released { .. } => "recurrence.occurrence_released"@,
        RecurrenceOccurrenceEventView::Materialized { .. } => "recurrence.occurrence_materialized"@,
    }
}

/// The parsed payload `p` carries exactly the fields of the occurrence event `e`.
pub open spec fn occurrence_payload_carries(e: RecurrenceOccurrenceEventView, p: OccurrencePayload) -> bool {
    match (e, p) {
        (
            RecurrenceOccurrenceEventView::Persisted {
                recurrence_id,
                recurrence_revision,
                offset,
                goal,
                unix_millis,
            },
            OccurrencePayload::Persisted {
                recurrence_id: i,
                recurrence_revision: v,
                offset: o,
                goal: g,
                unix_millis: u,
            },
        ) => i@ == recurrence_id && v == recurrence_revision && o == offset && g@ == goal && u
            == unix_millis,
        (RecurrenceOccurrenceEventView::Claimed, OccurrencePayload::Empty) => true,
        (RecurrenceOccurrenceEventView::Released { reason }, OccurrencePayload::Text(t)) => t@
            == reason,
        (RecurrenceOccurrenceEventView::Materialized { task_id }, OccurrencePayload::Text(t)) => t@
            == task_id,
        _ => false,
    }
}

/// The fields of an occurrence event satisfy the rules of their types.
pub open spec fn occurrence_event_fields_valid(e: RecurrenceOccurrenceEventView) -> bool {
    match e {
        RecurrenceOccurrenceEventView::Persisted { recurrence_id, goal, .. } => !is_blank(
            recurrence_id,
        ) && goal.len() > 0,
        RecurrenceOccurrenceEventView::Claimed => true,
        RecurrenceOccurrenceEventView::Released { reason } => !is_blank(reason),
        RecurrenceOccurrenceEventView::Materialized { task_id } => task_id.len() > 0,
    }
}

/// Round trip: the stored type of an occurrence event selects a schema that its
/// payload fits, and the payload decodes back to the event.
pub proof fn lemma_occurrence_event_round_trip(e: RecurrenceOccurrenceEventView, p: OccurrencePayload)
    requires
        occurrence_event_fields_valid(e),
        occurrence_payload_carries(e, p),
    ensures
        occurrence_payload_kind_of(occurrence_event_type(e), 1) matches Some(k)
            && occurrence_payload_fits(k, p) && occurrence_decoded(k, p) == Ok::<
            RecurrenceOccurrenceEventView,
            Seq<char>,
        >(e),
{
    reveal_strlit("recurrence.occurrence_persisted");
    reveal_strlit("recurrence.occurrence_claimed");
    reveal_strlit("recurrence.occurrence_released");
    reveal_strlit("recurrence.occurrence_materialized");
    assert("recurrence.occurrence_persisted"@.len() == 31);
    assert("recurrence.occurrence_claimed"@.len() == 29);
    assert("recurrence.occurrence_released"@.len() == 30);
    assert("recurrence.occurrence_materialized"@.len() == 34);
}

impl RecurrenceOccurrenceEvent {
    /// The persisted event discriminator.
    pub fn event_type(&self) -> (r: &'static str)
        ensures
            r@ == occurrence_event_type(self@),
    {
        match self {
            RecurrenceOccurrenceEvent::Persisted { .. } => "recurrence.occurrence_persisted",
            RecurrenceOccurrenceEvent::Claimed {} => "recurrence.occurrence_claimed",
            RecurrenceOccurrenceEvent::Released { .. } => "recurrence.occurrence_released",
            RecurrenceOccurrenceEvent::Materialized { .. } => "recurrence.occurrence_materialized",
        }
    }

    /// Every occurrence event is stored at payload version 1.
    pub fn payload_version(&self) -> (r: u32)
        ensures
            r == 1,
    {
        1
    }
}

/// The stream that holds one schedule: `schedule:` followed by its id.
pub fn schedule_stream(id: &ScheduleId) -> (r: StreamId)
    ensures
        r@ == "schedule:"@ + id@,
{
    let mut name = "schedule:".to_owned();
    name.append(id.as_str());
    proof {
        reveal_strlit("schedule:");
    }
    match StreamId::new(name) {
        Ok(s) => s,
        Err(_) => {
            assert(false);
            StreamId::new("schedule:".to_owned()).unwrap()
        },
    }
}

/// The stream that holds one recurrence definition: `recurrence:` followed by its id.
pub fn recurrence_stream(id: &RecurrenceId) -> (r: StreamId)
    ensures
        r@ == "recurrence:"@ + id@,
{
    let mut name = "recurrence:".to_owned();
    name.append(id.as_str());
    proof {
        reveal_strlit("recurrence:");
    }
    match StreamId::new(name) {
        Ok(s) => s,
        Err(_) => {
            assert(false);
            StreamId::new("recurrence:".to_owned()).unwrap()
        },
    }
}

/// The name of one occurrence stream: the prefix, the recurrence id's UTF-8 byte
/// length (as `str::len` reports it), the id and the offset, so that ids
/// containing the separator cannot collide.
pub open spec fn occurrence_stream_name(id: Seq<char>, offset: u64) -> Seq<char> {
    "recurrence-occurrence:"@ + decimal((encode_utf8(id).len() as usize) as nat) + ":"@ + id
        + ":"@ + decimal(offset as nat)
}

/// The stream that holds one recurrence occurrence.
pub fn recurrence_occurrence_stream(id: &RecurrenceId, offset: u64) -> (r: StreamId)
    ensures
        r@ == occurrence_stream_name(id@, offset),
{
    let text = id.as_str();
    let byte_len = text.len();
    let mut name = "recurrence-occurrence:".to_owned();
    name.append(u64_to_decimal(byte_len as u64).as_str());
    name.append(":");
    name.append(text);
    name.append(":");
    name.append(u64_to_decimal(offset).as_str());
    proof {
        reveal_strlit("recurrence-occurrence:");
    }
    match StreamId::new(name) {
        Ok(s) => s,
        Err(_) => {
            assert(false);
            StreamId::new("recurrence-occurrence:".to_owned()).unwrap()
        },
    }
}

} // verus!

verus! {

/// The claim that a loaded occurrence holds, when it is claimed.
pub fn claimed_occurrence(state: RecurrenceOccurrenceState) -> (r: Option<ClaimedRecurrenceOccurrence>)
    ensures
        r is Some <==> state.claimed,
        r matches Some(c) ==> c@ == (ClaimedRecurrenceOccurrenceView {
            occurrence: state.occurrence@,
            revision: state.revision,
        }),
{
    if state.claimed {
        Some(ClaimedRecurrenceOccurrence { occurrence: state.occurrence, revision: state.revision })
    } else {
        None
    }
}

/// The latest recovery evidence of a loaded occurrence that is available again.
pub fn released_occurrence(state: RecurrenceOccurrenceState) -> (r: Option<
    ReleasedRecurrenceOccurrence,
>)
    ensures
        r is Some <==> (!state.claimed && state.task_id is None && state.latest_release is Some),
        r matches Some(x) ==> x@ == (ReleasedRecurrenceOccurrenceView {
            occurrence: state.occurrence@,
            revision: state.revision,
            latest_release: state.latest_release->0@,
        }),
{
    if state.claimed || state.task_id.is_some() {
        return None;
    }
    match state.latest_release {
        Some(latest_release) => Some(
            ReleasedRecurrenceOccurrence {
                occurrence: state.occurrence,
                revision: state.revision,
                latest_release,
            },
        ),
        None => None,
    }
}

/// The task binding of a loaded occurrence, when it is materialized.
pub fn materialized_occurrence(state: RecurrenceOccurrenceState) -> (r: Option<
    MaterializedRecurrenceOccurrence,
>)
    ensures
        r is Some <==> state.task_id is Some,
        r matches Some(m) ==> m@ == (MaterializedRecurrenceOccurrenceView {
            occurrence: state.occurrence@,
            revision: state.revision,
            task_id: state.task_id->0@,
        }),
{
    match state.task_id {
        Some(task_id) => Some(
            MaterializedRecurrenceOccurrence {
                occurrence: state.occurrence,
                revision: state.revision,
                task_id,
            },
        ),
        None => None,
    }
}

/// The persisted occurrences of a loaded window, in offset order.
pub open spec fn persisted_of(states: Seq<Option<RecurrenceOccurrenceState>>) -> Seq<
    RecurrenceOccurrenceView,
>
    decreases states.len(),
{
    if states.len() == 0 {
        Seq::empty()
    } else {
        let prev = persisted_of(states.drop_last());
        match states.last() {
            Some(x) => prev.push(x.occurrence@),
            None => prev,
        }
    }
}

/// Selects the durably persisted occurrences of one inspected authored window.
pub fn persisted_page(states: &Vec<Option<RecurrenceOccurrenceState>>, next_offset: Option<u64>) -> (r:
    RecurrenceOccurrencePage)
    ensures
        r@.next_offset == next_offset,
        r@.occurrences == persisted_of(states@),
{
    let mut occurrences: Vec<RecurrenceOccurrence> = Vec::new();
    let mut i: usize = 0;
    while i < states.len()
        invariant
            i <= states@.len(),
            occurrences_view(occurrences@) == persisted_of(states@.subrange(0, i as int)),
        decreases states@.len() - i,
    {
        assert(states@.subrange(0, i + 1).drop_last() =~= states@.subrange(0, i as int));
        match &states[i] {
            Some(x) => {
                occurrences.push(x.occurrence.clone());
                assert(occurrences_view(occurrences@) =~= persisted_of(
                    states@.subrange(0, i as int),
                ).push(x.occurrence@));
            },
            None => {},
        }
        i = i + 1;
    }
    assert(states@.subrange(0, states@.len() as int) =~= states@);
    RecurrenceOccurrencePage { occurrences, next_offset }
}

} // verus!


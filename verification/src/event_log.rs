use vstd::prelude::*;

use crate::text::str_equals;

verus! {

/// An opaque, non-empty identifier for one event stream.
#[derive(Debug, Hash)]
pub struct StreamId(String);

impl View for StreamId {
    type V = Seq<char>;

    closed spec fn view(&self) -> Seq<char> {
        self.0@
    }
}

impl StreamId {
    #[verifier::type_invariant]
    closed spec fn inv(self) -> bool {
        self.0@.len() > 0
    }

    pub fn new(value: String) -> (r: Result<Self, StreamIdError>)
        ensures
            r is Ok <==> value@.len() > 0,
            r matches Ok(id) ==> id@ == value@,
    {
        if value.as_str().is_empty() {
            Err(StreamIdError)
        } else {
            Ok(StreamId(value))
        }
    }

    pub fn as_str(&self) -> (r: &str)
        ensures
            r@ == self@,
            r@.len() > 0,
    {
        proof {
            use_type_invariant(self);
        }
        self.0.as_str()
    }
}

impl Clone for StreamId {
    fn clone(&self) -> (r: Self)
        ensures
            r@ == self@,
    {
        proof {
            use_type_invariant(self);
        }
        StreamId(self.0.clone())
    }
}

#[derive(Clone, Copy, Debug, PartialEq, Eq, Structural)]
pub struct StreamIdError;

impl StreamIdError {
    pub fn to_string(&self) -> (r: String)
        ensures
            r@ == "stream id must not be empty"@,
    {
        "stream id must not be empty".to_owned()
    }
}

/// The stream state a caller requires before an append may succeed.
#[derive(Clone, Copy, Debug, PartialEq, Eq, Structural)]
pub enum ExpectedVersion {
    NoStream,
    Exact(u64),
}

/// A typed event decoder can reject an unsupported discriminator or malformed bytes.
#[derive(Debug, PartialEq, Eq)]
pub enum DecodeError {
    UnsupportedEvent { event_type: String, payload_version: u32 },
    MalformedPayload { message: String },
}

/// A typed event family's persisted discriminators: a stable, non-empty event
/// type and a payload version of at least one, so that every event of a family
/// passes `validate_event_metadata`.
pub trait Event {
    fn event_type(&self) -> (r: &'static str)
        ensures
            r@.len() > 0,
    ;

    fn payload_version(&self) -> (r: u32)
        ensures
            r >= 1,
    ;
}

/// `rusqlite::Error`, carried opaquely by storage failures.
#[verifier::external_type_specification]
#[verifier::external_body]
pub struct ExStorageError(rusqlite::Error);

/// `serde_json::Error`, carried opaquely by payload encoding failures.
#[verifier::external_type_specification]
#[verifier::external_body]
pub struct ExEncodeError(serde_json::Error);

#[derive(Debug)]
#[non_exhaustive]
pub enum EventLogError {
    Storage(rusqlite::Error),
    Encode(serde_json::Error),
    UnsupportedJournalMode(String),
    InvalidEventType,
    InvalidPayloadVersion(u32),
    WrongExpectedVersion { expected: ExpectedVersion, current: Option<u64> },
    VersionOutOfRange(u64),
}

#[derive(Debug)]
#[non_exhaustive]
pub enum ReplayError {
    Storage(rusqlite::Error),
    UnsupportedEvent { event_type: String, payload_version: u32 },
    MalformedPayload { stream_version: u64, message: String },
    VersionGap { expected: u64, found: u64 },
    InvalidStoredVersion(i64),
    InvalidStoredPayloadVersion(i64),
}

/// Builds `rusqlite::Error::IntegralValueOutOfRange(index, value)`, SQLite's
/// error for a stored integer that does not fit the requested type. The error
/// is opaque here, so nothing is stated of it.
#[verifier::external_body]
fn integral_value_out_of_range(index: usize, value: i64) -> rusqlite::Error {
    rusqlite::Error::IntegralValueOutOfRange(index, value)
}

/// Whether the current stream state satisfies the caller's expectation.
pub open spec fn version_matches(expected: ExpectedVersion, current: Option<u64>) -> bool {
    match (expected, current) {
        (ExpectedVersion::NoStream, None) => true,
        (ExpectedVersion::Exact(e), Some(c)) => e == c,
        _ => false,
    }
}

/// Checks an event's persistence discriminators before anything is encoded or stored.
pub fn validate_event_metadata(event_type: &str, payload_version: u32) -> (r: Result<
    (),
    EventLogError,
>)
    ensures
        event_type@.len() == 0 ==> r matches Err(EventLogError::InvalidEventType),
        event_type@.len() > 0 && payload_version == 0 ==> (r matches Err(
            EventLogError::InvalidPayloadVersion(v),
        ) && v == 0),
        event_type@.len() > 0 && payload_version > 0 ==> r is Ok,
{
    if event_type.is_empty() {
        return Err(EventLogError::InvalidEventType);
    }
    if payload_version == 0 {
        return Err(EventLogError::InvalidPayloadVersion(payload_version));
    }
    Ok(())
}

/// Decides the version an append takes from the stream's stored maximum version.
///
/// Returns the new one-based stream version and its stored form.
pub fn next_append_version(expected: ExpectedVersion, stored_current: Option<i64>) -> (r: Result<
    (u64, i64),
    EventLogError,
>)
    ensures
        stored_current matches Some(s) && s < 0 ==> r matches Err(EventLogError::Storage(_)),
        (stored_current matches Some(s) ==> s >= 0) ==> {
            let current: Option<u64> = match stored_current {
                Some(s) => Some(s as u64),
                None => None,
            };
            &&& !version_matches(expected, current) ==> (r matches Err(
                EventLogError::WrongExpectedVersion { expected: e, current: c },
            ) && e == expected && c == current)
            &&& version_matches(expected, current) ==> {
                let version = match current {
                    Some(c) => c + 1,
                    None => 1int,
                };
                &&& version <= i64::MAX ==> (r matches Ok((v, s)) && v == version && s == version)
                &&& version > i64::MAX ==> (r matches Err(EventLogError::VersionOutOfRange(v))
                    && v == version)
            }
        },
{
    let current: Option<u64> = match stored_current {
        Some(s) => {
            if s < 0 {
                return Err(EventLogError::Storage(integral_value_out_of_range(0, s)));
            }
            Some(s as u64)
        },
        None => None,
    };
    let matches = match (expected, current) {
        (ExpectedVersion::NoStream, None) => true,
        (ExpectedVersion::Exact(e), Some(c)) => e == c,
        _ => false,
    };
    if !matches {
        return Err(EventLogError::WrongExpectedVersion { expected, current });
    }
    let version: u64 = match current {
        Some(c) => c + 1,
        None => 1,
    };
    if version > i64::MAX as u64 {
        return Err(EventLogError::VersionOutOfRange(version));
    }
    Ok((version, version as i64))
}

/// One stored row of a stream, with the typed decoding of its payload.
///
/// `decoded` is consulted only when `stored_payload_version` is a valid `u32`.
pub struct ReplayRow<E> {
    pub stored_version: i64,
    pub event_type: String,
    pub stored_payload_version: i64,
    pub decoded: Result<E, DecodeError>,
}

/// Whether the row at position `k` (zero-based) is in place and decoded.
pub open spec fn row_replays<E>(row: ReplayRow<E>, k: int) -> bool {
    &&& row.stored_version == k + 1
    &&& 0 <= row.stored_payload_version <= u32::MAX
    &&& row.decoded is Ok
}

/// Whether the stored rows form a gap-free, decodable stream.
pub open spec fn rows_replay<E>(rows: Seq<ReplayRow<E>>) -> bool {
    forall|i: int| 0 <= i < rows.len() ==> row_replays(#[trigger] rows[i], i)
}

/// The error that replay reports for a row at position `k` that does not replay:
/// a negative version, then a gap, then an invalid payload version, then the
/// decoder's refusal, checked in that order.
pub open spec fn row_failure<E>(row: ReplayRow<E>, k: int, e: ReplayError) -> bool {
    if row.stored_version < 0 {
        e matches ReplayError::InvalidStoredVersion(v) && v == row.stored_version
    } else if row.stored_version != k + 1 {
        e matches ReplayError::VersionGap { expected, found } && expected == k + 1 && found
            == row.stored_version
    } else if !(0 <= row.stored_payload_version <= u32::MAX) {
        e matches ReplayError::InvalidStoredPayloadVersion(v) && v == row.stored_payload_version
    } else {
        match row.decoded {
            Err(DecodeError::UnsupportedEvent { .. }) => e matches ReplayError::UnsupportedEvent {
                event_type,
                payload_version,
            } && event_type@ == row.event_type@ && payload_version == row.stored_payload_version,
            Err(DecodeError::MalformedPayload { message }) => e matches ReplayError::MalformedPayload {
                stream_version,
                message: m,
            } && stream_version == k + 1 && m@ == message@,
            Ok(_) => false,
        }
    }
}

/// A stream written by successive appends replays to what was written: when its
/// rows carry the versions those appends were given (1, 2, ...), valid payload
/// versions, and each decodes to the event written there, the rows replay, and the
/// only events they replay to are the written ones, in version order. A stream with
/// no rows replays to no events.
pub proof fn lemma_appended_rows_replay<E>(rows: Seq<ReplayRow<E>>, written: Seq<E>)
    requires
        rows.len() == written.len(),
        forall|i: int|
            0 <= i < rows.len() ==> (#[trigger] rows[i]).stored_version == i + 1 && 0
                <= rows[i].stored_payload_version <= u32::MAX && rows[i].decoded == Ok::<
                E,
                DecodeError,
            >(written[i]),
    ensures
        rows_replay(rows),
        forall|events: Seq<E>|
            events.len() == rows.len() && (forall|i: int|
                0 <= i < rows.len() ==> rows[i].decoded == Ok::<E, DecodeError>(
                    #[trigger] events[i],
                )) ==> events == written,
{
    assert forall|events: Seq<E>|
        events.len() == rows.len() && (forall|i: int|
            0 <= i < rows.len() ==> rows[i].decoded == Ok::<E, DecodeError>(
                #[trigger] events[i],
            )) implies events == written by {
        assert forall|i: int| 0 <= i < events.len() implies events[i] == written[i] by {
            assert(rows[i].decoded == Ok::<E, DecodeError>(events[i]));
        }
        assert(events =~= written);
    }
}

/// Checks that stored rows are versioned 1, 2, ... without gaps and collects their events.
#[verifier::loop_isolation(false)]
pub fn replay_rows<E>(rows: Vec<ReplayRow<E>>) -> (r: Result<Vec<E>, ReplayError>)
    ensures
        r is Ok <==> rows_replay(rows@),
        r matches Ok(events) ==> events@.len() == rows@.len() && forall|i: int|
            0 <= i < rows@.len() ==> rows@[i].decoded == Ok::<E, DecodeError>(
                #[trigger] events@[i],
            ),
        r matches Err(e) ==> exists|k: int|
            0 <= k < rows@.len() && (forall|j: int| 0 <= j < k ==> row_replays(#[trigger] rows@[j], j))
                && row_failure(#[trigger] rows@[k], k, e),
{
    let mut rows = rows;
    let ghost input_rows = rows@;
    let mut events: Vec<E> = Vec::new();
    let mut expected: u64 = 1;
    let n = rows.len();
    let mut remaining: Vec<ReplayRow<E>> = Vec::new();
    // Take the rows in order: reverse once, then pop.
    while rows.len() > 0
        invariant
            remaining@.len() + rows@.len() == n,
            n == input_rows.len(),
            forall|i: int| 0 <= i < rows@.len() ==> rows@[i] == input_rows[i],
            forall|i: int|
                0 <= i < remaining@.len() ==> remaining@[i] == input_rows[n - 1 - i],
        decreases rows@.len(),
    {
        let row = rows.pop().unwrap();
        remaining.push(row);
    }
    while remaining.len() > 0
        invariant
            n == input_rows.len(),
            events@.len() + remaining@.len() == n,
            expected == events@.len() + 1,
            expected <= n + 1,
            forall|i: int|
                0 <= i < remaining@.len() ==> remaining@[i] == input_rows[n - 1 - i],
            forall|i: int|
                0 <= i < events@.len() ==> {
                    &&& (#[trigger] input_rows[i]).stored_version == i + 1
                    &&& 0 <= input_rows[i].stored_payload_version <= u32::MAX
                    &&& input_rows[i].decoded == Ok::<E, DecodeError>(events@[i])
                },
        decreases remaining@.len(),
    {
        let row = remaining.pop().unwrap();
        let ghost k = events@.len() as int;
        assert(row == input_rows[k]);
        assert(forall|j: int| 0 <= j < k ==> row_replays(#[trigger] input_rows[j], j));
        if row.stored_version < 0 {
            assert(input_rows[k].stored_version != k + 1);
            assert(!rows_replay(input_rows));
            let e = ReplayError::InvalidStoredVersion(row.stored_version);
            assert(row_failure(input_rows[k], k, e));
            return Err(e);
        }
        let version = row.stored_version as u64;
        if version != expected {
            assert(input_rows[k].stored_version != k + 1);
            assert(!rows_replay(input_rows));
            let e = ReplayError::VersionGap { expected, found: version };
            assert(row_failure(input_rows[k], k, e));
            return Err(e);
        }
        if row.stored_payload_version < 0 || row.stored_payload_version > u32::MAX as i64 {
            assert(!row_replays(input_rows[k], k));
            let e = ReplayError::InvalidStoredPayloadVersion(row.stored_payload_version);
            assert(row_failure(input_rows[k], k, e));
            return Err(e);
        }
        let payload_version = row.stored_payload_version as u32;
        match row.decoded {
            Ok(event) => {
                events.push(event);
            },
            Err(DecodeError::UnsupportedEvent { .. }) => {
                assert(!row_replays(input_rows[k], k));
                let e = ReplayError::UnsupportedEvent { event_type: row.event_type, payload_version };
                assert(row_failure(input_rows[k], k, e));
                return Err(e);
            },
            Err(DecodeError::MalformedPayload { message }) => {
                assert(!row_replays(input_rows[k], k));
                let e = ReplayError::MalformedPayload { stream_version: version, message };
                assert(row_failure(input_rows[k], k, e));
                return Err(e);
            },
        }
        expected = expected + 1;
    }
    Ok(events)
}

/// Read-after-write for the log: a stream that replays keeps replaying when
/// one decodable row is appended at the version that follows it, and the
/// appended row is read back last.
pub proof fn lemma_append_extends_replay<E>(rows: Seq<ReplayRow<E>>, row: ReplayRow<E>)
    requires
        rows_replay(rows),
        row.stored_version == rows.len() + 1,
        0 <= row.stored_payload_version <= u32::MAX,
        row.decoded is Ok,
    ensures
        rows_replay(rows.push(row)),
        rows.push(row)[rows.len() as int] == row,
        forall|i: int| 0 <= i < rows.len() ==> rows.push(row)[i] == rows[i],
{
    assert forall|i: int| 0 <= i < rows.push(row).len() implies row_replays(
        #[trigger] rows.push(row)[i],
        i,
    ) by {
        if i < rows.len() {
            assert(rows.push(row)[i] == rows[i]);
        }
    }
}

} // verus!

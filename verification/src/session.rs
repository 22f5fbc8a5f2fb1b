use vstd::prelude::*;

use crate::event_log::{DecodeError, EventLogError, ExpectedVersion, ReplayError, StreamId};
use crate::replay::{replay, lemma_replay_push, lemma_replay_rejected_prefix, lemma_replay_step};
use crate::text::{opt_view, str_equals};

verus! {

/// An opaque, non-empty identifier for one durable session.
#[derive(Debug, Hash, PartialEq, Eq)]
pub struct SessionId(String);

impl View for SessionId {
    type V = Seq<char>;

    closed spec fn view(&self) -> Seq<char> {
        self.0@
    }
}

impl SessionId {
    #[verifier::type_invariant]
    closed spec fn inv(self) -> bool {
        self.0@.len() > 0
    }

    pub fn new(value: String) -> (r: Result<Self, SessionIdError>)
        ensures
            r is Ok <==> value@.len() > 0,
            r matches Ok(v) ==> v@ == value@,
    {
        if value.as_str().is_empty() {
            Err(SessionIdError)
        } else {
            Ok(SessionId(value))
        }
    }

    pub fn as_str(&self) -> (r: &str)
        ensures
            r@ == self@,
            r@.len() > 0,
    {
        proof {
            use_type_invariant(self);
        }
        self.0.as_str()
    }

    /// Exact textual equality of two values.
    pub fn same_as(&self, other: &Self) -> (r: bool)
        ensures
            r == (self@ == other@),
    {
        self.0 == other.0
    }
}

impl Clone for SessionId {
    fn clone(&self) -> (r: Self)
        ensures
            r == *self,
    {
        proof {
            use_type_invariant(self);
        }
        SessionId(self.0.clone())
    }
}

#[derive(Clone, Copy, Debug, PartialEq, Eq, Structural)]
pub struct SessionIdError;

impl SessionIdError {
    pub fn to_string(&self) -> (r: String)
        ensures
            r@ == "session id must not be empty"@,
    {
        "session id must not be empty".to_owned()
    }
}

/// The non-empty title of a session.
#[derive(Debug, PartialEq, Eq)]
pub struct SessionTitle(String);

impl View for SessionTitle {
    type V = Seq<char>;

    closed spec fn view(&self) -> Seq<char> {
        self.0@
    }
}

impl SessionTitle {
    #[verifier::type_invariant]
    closed spec fn inv(self) -> bool {
        self.0@.len() > 0
    }

    pub fn new(value: String) -> (r: Result<Self, SessionTitleError>)
        ensures
            r is Ok <==> value@.len() > 0,
            r matches Ok(v) ==> v@ == value@,
    {
        if value.as_str().is_empty() {
            Err(SessionTitleError)
        } else {
            Ok(SessionTitle(value))
        }
    }

    pub fn as_str(&self) -> (r: &str)
        ensures
            r@ == self@,
            r@.len() > 0,
    {
        proof {
            use_type_invariant(self);
        }
        self.0.as_str()
    }
}

impl Clone for SessionTitle {
    fn clone(&self) -> (r: Self)
        ensures
            r == *self,
    {
        proof {
            use_type_invariant(self);
        }
        SessionTitle(self.0.clone())
    }
}

#[derive(Clone, Copy, Debug, PartialEq, Eq, Structural)]
pub struct SessionTitleError;

impl SessionTitleError {
    pub fn to_string(&self) -> (r: String)
        ensures
            r@ == "session title must not be empty"@,
    {
        "session title must not be empty".to_owned()
    }
}

/// The non-empty summary recorded for a session.
#[derive(Debug, PartialEq, Eq)]
pub struct SessionSummary(String);

impl View for SessionSummary {
    type V = Seq<char>;

    closed spec fn view(&self) -> Seq<char> {
        self.0@
    }
}

impl SessionSummary {
    #[verifier::type_invariant]
    closed spec fn inv(self) -> bool {
        self.0@.len() > 0
    }

    pub fn new(value: String) -> (r: Result<Self, SessionSummaryError>)
        ensures
            r is Ok <==> value@.len() > 0,
            r matches Ok(v) ==> v@ == value@,
    {
        if value.as_str().is_empty() {
            Err(SessionSummaryError)
        } else {
            Ok(SessionSummary(value))
        }
    }

    pub fn as_str(&self) -> (r: &str)
        ensures
            r@ == self@,
            r@.len() > 0,
    {
        proof {
            use_type_invariant(self);
        }
        self.0.as_str()
    }
}

impl Clone for SessionSummary {
    fn clone(&self) -> (r: Self)
        ensures
            r == *self,
    {
        proof {
            use_type_invariant(self);
        }
        SessionSummary(self.0.clone())
    }
}

#[derive(Clone, Copy, Debug, PartialEq, Eq, Structural)]
pub struct SessionSummaryError;

impl SessionSummaryError {
    pub fn to_string(&self) -> (r: String)
        ensures
            r@ == "session summary must not be empty"@,
    {
        "session summary must not be empty".to_owned()
    }
}

/// The non-empty reason recorded when a session closes.
#[derive(Debug, PartialEq, Eq)]
pub struct SessionClosure(String);

impl View for SessionClosure {
    type V = Seq<char>;

    closed spec fn view(&self) -> Seq<char> {
        self.0@
    }
}

impl SessionClosure {
    #[verifier::type_invariant]
    closed spec fn inv(self) -> bool {
        self.0@.len() > 0
    }

    pub fn new(value: String) -> (r: Result<Self, SessionClosureError>)
        ensures
            r is Ok <==> value@.len() > 0,
            r matches Ok(v) ==> v@ == value@,
    {
        if value.as_str().is_empty() {
            Err(SessionClosureError)
        } else {
            Ok(SessionClosure(value))
        }
    }

    pub fn as_str(&self) -> (r: &str)
        ensures
            r@ == self@,
            r@.len() > 0,
    {
        proof {
            use_type_invariant(self);
        }
        self.0.as_str()
    }
}

impl Clone for SessionClosure {
    fn clone(&self) -> (r: Self)
        ensures
            r == *self,
    {
        proof {
            use_type_invariant(self);
        }
        SessionClosure(self.0.clone())
    }
}

#[derive(Clone, Copy, Debug, PartialEq, Eq, Structural)]
pub struct SessionClosureError;

impl SessionClosureError {
    pub fn to_string(&self) -> (r: String)
        ensures
            r@ == "session closure reason must not be empty"@,
    {
        "session closure reason must not be empty".to_owned()
    }
}

/// The non-empty reason recorded when a closed session reopens.
#[derive(Debug, PartialEq, Eq)]
pub struct SessionReopenReason(String);

impl View for SessionReopenReason {
    type V = Seq<char>;

    closed spec fn view(&self) -> Seq<char> {
        self.0@
    }
}

impl SessionReopenReason {
    #[verifier::type_invariant]
    closed spec fn inv(self) -> bool {
        self.0@.len() > 0
    }

    pub fn new(value: String) -> (r: Result<Self, SessionReopenReasonError>)
        ensures
            r is Ok <==> value@.len() > 0,
            r matches Ok(v) ==> v@ == value@,
    {
        if value.as_str().is_empty() {
            Err(SessionReopenReasonError)
        } else {
            Ok(SessionReopenReason(value))
        }
    }

    pub fn as_str(&self) -> (r: &str)
        ensures
            r@ == self@,
            r@.len() > 0,
    {
        proof {
            use_type_invariant(self);
        }
        self.0.as_str()
    }
}

impl Clone for SessionReopenReason {
    fn clone(&self) -> (r: Self)
        ensures
            r == *self,
    {
        proof {
            use_type_invariant(self);
        }
        SessionReopenReason(self.0.clone())
    }
}

#[derive(Clone, Copy, Debug, PartialEq, Eq, Structural)]
pub struct SessionReopenReasonError;

impl SessionReopenReasonError {
    pub fn to_string(&self) -> (r: String)
        ensures
            r@ == "session reopen reason must not be empty"@,
    {
        "session reopen reason must not be empty".to_owned()
    }
}

} // verus!

verus! {

#[derive(Clone, Copy, Debug, PartialEq, Eq, Structural)]
pub enum SessionStatus {
    Open,
    Closed,
}

/// The mathematical state of one session.
pub struct SessionView {
    pub id: Seq<char>,
    pub title: Seq<char>,
    pub summary: Option<Seq<char>>,
    pub status: SessionStatus,
    pub closure: Option<Seq<char>>,
    pub reopen_reason: Option<Seq<char>>,
}

#[derive(Debug, PartialEq, Eq)]
pub struct Session {
    id: SessionId,
    title: SessionTitle,
    summary: Option<SessionSummary>,
    status: SessionStatus,
    closure: Option<SessionClosure>,
    reopen_reason: Option<SessionReopenReason>,
}

impl View for Session {
    type V = SessionView;

    closed spec fn view(&self) -> SessionView {
        SessionView {
            id: self.id@,
            title: self.title@,
            summary: opt_view(self.summary),
            status: self.status,
            closure: opt_view(self.closure),
            reopen_reason: opt_view(self.reopen_reason),
        }
    }
}

impl Clone for Session {
    fn clone(&self) -> (r: Self)
        ensures
            r == *self,
    {
        Session {
            id: self.id.clone(),
            title: self.title.clone(),
            summary: clone_summary(&self.summary),
            status: self.status,
            closure: clone_closure(&self.closure),
            reopen_reason: clone_reopen_reason(&self.reopen_reason),
        }
    }
}

impl Session {
    pub fn id(&self) -> (r: &SessionId)
        ensures
            r@ == self@.id,
    {
        &self.id
    }

    pub fn title(&self) -> (r: &SessionTitle)
        ensures
            r@ == self@.title,
    {
        &self.title
    }

    pub fn summary(&self) -> (r: Option<&SessionSummary>)
        ensures
            opt_view(r) == self@.summary,
    {
        match &self.summary {
            Some(s) => Some(s),
            None => None,
        }
    }

    pub fn status(&self) -> (r: SessionStatus)
        ensures
            r == self@.status,
    {
        self.status
    }

    pub fn closure(&self) -> (r: Option<&SessionClosure>)
        ensures
            opt_view(r) == self@.closure,
    {
        match &self.closure {
            Some(s) => Some(s),
            None => None,
        }
    }

    pub fn reopen_reason(&self) -> (r: Option<&SessionReopenReason>)
        ensures
            opt_view(r) == self@.reopen_reason,
    {
        match &self.reopen_reason {
            Some(s) => Some(s),
            None => None,
        }
    }
}

#[derive(Debug)]
#[non_exhaustive]
pub enum SessionStoreError {
    EventLog(EventLogError),
    Replay(ReplayError),
    AlreadyExists { session_id: SessionId },
    NotFound { session_id: SessionId },
    AlreadyClosed { session_id: SessionId },
    AlreadyOpen { session_id: SessionId },
    InvalidHistory { event_count: usize },
}

/// One persisted session lifecycle event.
#[derive(Debug)]
#[allow(inconsistent_fields)]
pub enum SessionEvent {
    Created { title: SessionTitle },
    Renamed { title: SessionTitle },
    Summarized { summary: SessionSummary },
    Closed { reason: Option<SessionClosure> },
    Reopened { reason: Option<SessionReopenReason> },
}

pub enum SessionEventView {
    Created { title: Seq<char> },
    Renamed { title: Seq<char> },
    Summarized { summary: Seq<char> },
    Closed { reason: Option<Seq<char>> },
    Reopened { reason: Option<Seq<char>> },
}

impl View for SessionEvent {
    type V = SessionEventView;

    open spec fn view(&self) -> SessionEventView {
        match self {
            SessionEvent::Created { title } => SessionEventView::Created { title: title@ },
            SessionEvent::Renamed { title } => SessionEventView::Renamed { title: title@ },
            SessionEvent::Summarized { summary } => SessionEventView::Summarized {
                summary: summary@,
            },
            SessionEvent::Closed { reason } => SessionEventView::Closed { reason: opt_view(*reason) },
            SessionEvent::Reopened { reason } => SessionEventView::Reopened {
                reason: opt_view(*reason),
            },
        }
    }
}

pub open spec fn session_events_view(events: Seq<SessionEvent>) -> Seq<SessionEventView> {
    events.map_values(|e: SessionEvent| e@)
}

/// The state of a session just after its creation event.
pub open spec fn session_created(id: Seq<char>, title: Seq<char>) -> SessionView {
    SessionView {
        id,
        title,
        summary: None,
        status: SessionStatus::Open,
        closure: None,
        reopen_reason: None,
    }
}

/// How one later event changes a session, or `None` when it cannot follow.
pub open spec fn session_apply(s: SessionView, e: SessionEventView) -> Option<SessionView> {
    match e {
        SessionEventView::Renamed { title } => Some(SessionView { title, ..s }),
        SessionEventView::Summarized { summary } => Some(SessionView { summary: Some(summary), ..s }),
        SessionEventView::Closed { reason } => if s.status == SessionStatus::Open {
            Some(
                SessionView {
                    status: SessionStatus::Closed,
                    closure: reason,
                    reopen_reason: None,
                    ..s
                },
            )
        } else {
            None
        },
        SessionEventView::Reopened { reason } => if s.status == SessionStatus::Closed {
            Some(
                SessionView {
                    status: SessionStatus::Open,
                    closure: None,
                    reopen_reason: reason,
                    ..s
                },
            )
        } else {
            None
        },
        SessionEventView::Created { .. } => None,
    }
}

pub open spec fn session_step() -> spec_fn(SessionView, SessionEventView) -> Option<SessionView> {
    |s: SessionView, e: SessionEventView| session_apply(s, e)
}

/// The projection of a whole session stream: `None` for an invalid history,
/// `Some(None)` for an empty stream.
pub open spec fn project_session(id: Seq<char>, events: Seq<SessionEventView>) -> Option<
    Option<SessionView>,
> {
    if events.len() == 0 {
        Some(None)
    } else {
        match events[0] {
            SessionEventView::Created { title } => match replay(
                session_step(),
                session_created(id, title),
                events.subrange(1, events.len() as int),
            ) {
                Some(s) => Some(Some(s)),
                None => None,
            },
            _ => None,
        }
    }
}

/// A projected session with the stream version it was read at.
pub struct VersionedSession {
    pub session: Session,
    pub stream_version: u64,
}

fn clone_summary(o: &Option<SessionSummary>) -> (r: Option<SessionSummary>)
    ensures
        r == *o,
{
    match o {
        Some(x) => Some(x.clone()),
        None => None,
    }
}

fn clone_closure(o: &Option<SessionClosure>) -> (r: Option<SessionClosure>)
    ensures
        r == *o,
{
    match o {
        Some(x) => Some(x.clone()),
        None => None,
    }
}

fn clone_reopen_reason(o: &Option<SessionReopenReason>) -> (r: Option<SessionReopenReason>)
    ensures
        r == *o,
{
    match o {
        Some(x) => Some(x.clone()),
        None => None,
    }
}

/// Projects one replayed session stream into its current state and version.
#[verifier::loop_isolation(false)]
pub fn project_session_history(id: &SessionId, events: Vec<SessionEvent>) -> (r: Result<
    Option<VersionedSession>,
    SessionStoreError,
>)
    ensures
        match project_session(id@, session_events_view(events@)) {
            None => r matches Err(SessionStoreError::InvalidHistory { event_count }) && event_count
                == events@.len(),
            Some(None) => r matches Ok(None),
            Some(Some(s)) => r matches Ok(Some(v)) && v.session@ == s && v.stream_version
                == events@.len(),
        },
{
    let ghost evs = session_events_view(events@);
    let n = events.len();
    if n == 0 {
        return Ok(None);
    }
    let title = match &events[0] {
        SessionEvent::Created { title } => title.clone(),
        _ => {
            return Err(SessionStoreError::InvalidHistory { event_count: n });
        },
    };
    let ghost rest = evs.subrange(1, n as int);
    let mut session = Session {
        id: id.clone(),
        title,
        summary: None,
        status: SessionStatus::Open,
        closure: None,
        reopen_reason: None,
    };
    assert(rest.subrange(0, 0) =~= Seq::<SessionEventView>::empty());
    let mut i: usize = 1;
    while i < n
        invariant
            1 <= i <= n,
            n == events@.len(),
            evs == session_events_view(events@),
            rest == evs.subrange(1, n as int),
            evs[0] matches SessionEventView::Created { title } && replay(
                session_step(),
                session_created(id@, title),
                rest.subrange(0, i - 1),
            ) == Some(session@),
        decreases n - i,
    {
        let ghost before = session@;
        let ghost title0 = evs[0]->Created_title;
        proof {
            lemma_replay_step(session_step(), session_created(id@, title0), rest, i - 1);
            assert(rest[i - 1] == events@[i as int]@);
        }
        match &events[i] {
            SessionEvent::Renamed { title } => {
                session.title = title.clone();
            },
            SessionEvent::Summarized { summary } => {
                session.summary = Some(summary.clone());
            },
            SessionEvent::Closed { reason } => {
                if session.status != SessionStatus::Open {
                    proof {
                        lemma_replay_rejected_prefix(
                            session_step(),
                            session_created(id@, title0),
                            rest,
                            i as int,
                        );
                    }
                    return Err(SessionStoreError::InvalidHistory { event_count: n });
                }
                session.status = SessionStatus::Closed;
                session.closure = clone_closure(reason);
                session.reopen_reason = None;
            },
            SessionEvent::Reopened { reason } => {
                if session.status != SessionStatus::Closed {
                    proof {
                        lemma_replay_rejected_prefix(
                            session_step(),
                            session_created(id@, title0),
                            rest,
                            i as int,
                        );
                    }
                    return Err(SessionStoreError::InvalidHistory { event_count: n });
                }
                session.status = SessionStatus::Open;
                session.closure = None;
                session.reopen_reason = clone_reopen_reason(reason);
            },
            SessionEvent::Created { .. } => {
                proof {
                    lemma_replay_rejected_prefix(
                        session_step(),
                        session_created(id@, title0),
                        rest,
                        i as int,
                    );
                }
                return Err(SessionStoreError::InvalidHistory { event_count: n });
            },
        }
        i = i + 1;
    }
    assert(rest.subrange(0, n - 1) =~= rest);
    Ok(Some(VersionedSession { session, stream_version: n as u64 }))
}

/// One decided session change: the event to append, the version it must follow,
/// and the state a successful append produces.
pub struct SessionChange {
    pub event: SessionEvent,
    pub expected: ExpectedVersion,
    pub session: Session,
}

/// What a failed append means for a retrying session operation.
pub enum SessionAppendFailure {
    Retry,
    Fail(SessionStoreError),
}

/// Plans the creation of a new session stream.
pub fn plan_session_creation(id: SessionId, title: SessionTitle) -> (r: SessionChange)
    ensures
        r.event@ == (SessionEventView::Created { title: title@ }),
        r.expected == ExpectedVersion::NoStream,
        r.session@ == session_created(id@, title@),
{
    SessionChange {
        event: SessionEvent::Created { title: title.clone() },
        expected: ExpectedVersion::NoStream,
        session: Session {
            id,
            title,
            summary: None,
            status: SessionStatus::Open,
            closure: None,
            reopen_reason: None,
        },
    }
}

/// Maps a failed creation append: an existing stream means the session exists.
pub fn session_creation_failure(id: SessionId, error: EventLogError) -> (r: SessionStoreError)
    ensures
        (error matches EventLogError::WrongExpectedVersion {
            expected: ExpectedVersion::NoStream,
            current: Some(_),
        }) ==> (r matches SessionStoreError::AlreadyExists { session_id } && session_id@ == id@),
        !(error matches EventLogError::WrongExpectedVersion {
            expected: ExpectedVersion::NoStream,
            current: Some(_),
        }) ==> (r matches SessionStoreError::EventLog(x) && x == error),
{
    match error {
        EventLogError::WrongExpectedVersion {
            expected: ExpectedVersion::NoStream,
            current: Some(_),
        } => SessionStoreError::AlreadyExists { session_id: id },
        error => SessionStoreError::EventLog(error),
    }
}

/// Maps a failed append of a later event: a concurrent writer means retry.
pub fn session_append_failure(error: EventLogError) -> (r: SessionAppendFailure)
    ensures
        (error matches EventLogError::WrongExpectedVersion { .. }) <==> r is Retry,
        !(error matches EventLogError::WrongExpectedVersion { .. }) ==> (r matches SessionAppendFailure::Fail(
            SessionStoreError::EventLog(x),
        ) && x == error),
{
    match error {
        EventLogError::WrongExpectedVersion { .. } => SessionAppendFailure::Retry,
        error => SessionAppendFailure::Fail(SessionStoreError::EventLog(error)),
    }
}

/// Whether a planned change follows the loaded state exactly.
pub open spec fn session_change_follows(loaded: VersionedSession, change: SessionChange) -> bool {
    &&& change.expected == ExpectedVersion::Exact(loaded.stream_version)
    &&& session_apply(loaded.session@, change.event@) == Some(change.session@)
}

/// Plans renaming an existing session.
pub fn plan_session_rename(
    loaded: Option<VersionedSession>,
    id: &SessionId,
    title: SessionTitle,
) -> (r: Result<SessionChange, SessionStoreError>)
    ensures
        loaded is None ==> (r matches Err(SessionStoreError::NotFound { session_id })
            && session_id@ == id@),
        loaded matches Some(v) ==> (r matches Ok(c) && session_change_follows(v, c)
            && c.event@ == (SessionEventView::Renamed { title: title@ })),
{
    match loaded {
        None => Err(SessionStoreError::NotFound { session_id: id.clone() }),
        Some(v) => {
            let mut session = v.session;
            session.title = title.clone();
            Ok(
                SessionChange {
                    event: SessionEvent::Renamed { title },
                    expected: ExpectedVersion::Exact(v.stream_version),
                    session,
                },
            )
        },
    }
}

/// Plans recording a summary for an existing session.
pub fn plan_session_summary(
    loaded: Option<VersionedSession>,
    id: &SessionId,
    summary: SessionSummary,
) -> (r: Result<SessionChange, SessionStoreError>)
    ensures
        loaded is None ==> (r matches Err(SessionStoreError::NotFound { session_id })
            && session_id@ == id@),
        loaded matches Some(v) ==> (r matches Ok(c) && session_change_follows(v, c)
            && c.event@ == (SessionEventView::Summarized { summary: summary@ })),
        loaded matches Some(v) ==> (r matches Ok(c) && c.session@ == (SessionView {
            summary: Some(summary@),
            ..v.session@
        })),
{
    match loaded {
        None => Err(SessionStoreError::NotFound { session_id: id.clone() }),
        Some(v) => {
            let mut session = v.session;
            session.summary = Some(summary.clone());
            Ok(
                SessionChange {
                    event: SessionEvent::Summarized { summary },
                    expected: ExpectedVersion::Exact(v.stream_version),
                    session,
                },
            )
        },
    }
}

/// Plans closing an open session.
pub fn plan_session_close(
    loaded: Option<VersionedSession>,
    id: &SessionId,
    closure: SessionClosure,
) -> (r: Result<SessionChange, SessionStoreError>)
    ensures
        loaded is None ==> (r matches Err(SessionStoreError::NotFound { session_id })
            && session_id@ == id@),
        loaded matches Some(v) && v.session@.status == SessionStatus::Closed ==> (r matches Err(
            SessionStoreError::AlreadyClosed { session_id },
        ) && session_id@ == id@),
        loaded matches Some(v) ==> v.session@.status == SessionStatus::Open ==> (r matches Ok(c)
            && session_change_follows(v, c) && c.event@ == (SessionEventView::Closed {
            reason: Some(closure@),
        })),
{
    match loaded {
        None => Err(SessionStoreError::NotFound { session_id: id.clone() }),
        Some(v) => {
            if v.session.status != SessionStatus::Open {
                return Err(SessionStoreError::AlreadyClosed { session_id: id.clone() });
            }
            let mut session = v.session;
            session.status = SessionStatus::Closed;
            session.closure = Some(closure.clone());
            session.reopen_reason = None;
            Ok(
                SessionChange {
                    event: SessionEvent::Closed { reason: Some(closure) },
                    expected: ExpectedVersion::Exact(v.stream_version),
                    session,
                },
            )
        },
    }
}

/// Plans reopening a closed session.
pub fn plan_session_reopen(
    loaded: Option<VersionedSession>,
    id: &SessionId,
    reason: SessionReopenReason,
) -> (r: Result<SessionChange, SessionStoreError>)
    ensures
        loaded is None ==> (r matches Err(SessionStoreError::NotFound { session_id })
            && session_id@ == id@),
        loaded matches Some(v) && v.session@.status == SessionStatus::Open ==> (r matches Err(
            SessionStoreError::AlreadyOpen { session_id },
        ) && session_id@ == id@),
        loaded matches Some(v) ==> v.session@.status == SessionStatus::Closed ==> (r matches Ok(c)
            && session_change_follows(v, c) && c.event@ == (SessionEventView::Reopened {
            reason: Some(reason@),
        })),
{
    match loaded {
        None => Err(SessionStoreError::NotFound { session_id: id.clone() }),
        Some(v) => {
            if v.session.status != SessionStatus::Closed {
                return Err(SessionStoreError::AlreadyOpen { session_id: id.clone() });
            }
            let mut session = v.session;
            session.status = SessionStatus::Open;
            session.closure = None;
            session.reopen_reason = Some(reason.clone());
            Ok(
                SessionChange {
                    event: SessionEvent::Reopened { reason: Some(reason) },
                    expected: ExpectedVersion::Exact(v.stream_version),
                    session,
                },
            )
        },
    }
}

/// Read-after-write: appending a change that follows the projected state of a
/// history makes the projection of the extended history the change's state.
pub proof fn lemma_session_change_is_reloaded(
    id: Seq<char>,
    history: Seq<SessionEventView>,
    before: SessionView,
    event: SessionEventView,
    after: SessionView,
)
    requires
        project_session(id, history) == Some(Some(before)),
        session_apply(before, event) == Some(after),
    ensures
        project_session(id, history.push(event)) == Some(Some(after)),
{
    let n = history.len();
    let ext = history.push(event);
    assert(ext[0] == history[0]);
    let title = history[0]->Created_title;
    assert(ext.subrange(1, ext.len() as int) =~= history.subrange(1, n as int).push(event));
    lemma_replay_push(
        session_step(),
        session_created(id, title),
        history.subrange(1, n as int),
        event,
    );
}

/// Summarizing is read back: a session stream that projects to a session and is then
/// extended with a summary projects to that session carrying exactly that summary, with
/// its identity, title, status and lifecycle reasons unchanged.
pub proof fn lemma_summary_is_reloaded(
    id: Seq<char>,
    history: Seq<SessionEventView>,
    before: SessionView,
    summary: Seq<char>,
)
    requires
        project_session(id, history) == Some(Some(before)),
    ensures
        project_session(id, history.push(SessionEventView::Summarized { summary })) matches Some(
            Some(after),
        ) && after.summary == Some(summary) && after.id == before.id && after.title
            == before.title && after.status == before.status && after.closure == before.closure
            && after.reopen_reason == before.reopen_reason,
{
    lemma_session_change_is_reloaded(
        id,
        history,
        before,
        SessionEventView::Summarized { summary },
        SessionView { summary: Some(summary), ..before },
    );
}

/// Renaming is read back: the extended stream projects to the session with exactly the
/// new title and every other field unchanged.
pub proof fn lemma_rename_is_reloaded(
    id: Seq<char>,
    history: Seq<SessionEventView>,
    before: SessionView,
    title: Seq<char>,
)
    requires
        project_session(id, history) == Some(Some(before)),
    ensures
        project_session(id, history.push(SessionEventView::Renamed { title })) == Some(
            Some(SessionView { title, ..before }),
        ),
{
    lemma_session_change_is_reloaded(
        id,
        history,
        before,
        SessionEventView::Renamed { title },
        SessionView { title, ..before },
    );
}

/// Closing and reopening are read back: an open session closed with a reason projects
/// as closed with exactly that reason and no reopen reason; a closed session reopened
/// with a reason projects as open with exactly that reason and no closure; title and
/// summary are unchanged either way.
pub proof fn lemma_close_and_reopen_are_reloaded(
    id: Seq<char>,
    history: Seq<SessionEventView>,
    before: SessionView,
    reason: Option<Seq<char>>,
)
    requires
        project_session(id, history) == Some(Some(before)),
    ensures
        before.status == SessionStatus::Open ==> (project_session(
            id,
            history.push(SessionEventView::Closed { reason }),
        ) matches Some(Some(after)) && after.status == SessionStatus::Closed && after.closure
            == reason && after.reopen_reason is None && after.title == before.title
            && after.summary == before.summary),
        before.status == SessionStatus::Closed ==> (project_session(
            id,
            history.push(SessionEventView::Reopened { reason }),
        ) matches Some(Some(after)) && after.status == SessionStatus::Open && after.reopen_reason
            == reason && after.closure is None && after.title == before.title && after.summary
            == before.summary),
{
    if before.status == SessionStatus::Open {
        lemma_session_change_is_reloaded(
            id,
            history,
            before,
            SessionEventView::Closed { reason },
            SessionView {
                status: SessionStatus::Closed,
                closure: reason,
                reopen_reason: None,
                ..before
            },
        );
    } else {
        lemma_session_change_is_reloaded(
            id,
            history,
            before,
            SessionEventView::Reopened { reason },
            SessionView {
                status: SessionStatus::Open,
                closure: None,
                reopen_reason: reason,
                ..before
            },
        );
    }
}

/// Creation is reloaded as the created session.
pub proof fn lemma_session_creation_is_reloaded(id: Seq<char>, title: Seq<char>)
    ensures
        project_session(id, seq![SessionEventView::Created { title }]) == Some(
            Some(session_created(id, title)),
        ),
{
    let h = seq![SessionEventView::Created { title }];
    assert(h.subrange(1, 1) =~= Seq::<SessionEventView>::empty());
}

} // verus!

verus! {

/// The payload schema of one stored session event, chosen by its type and version.
#[derive(Clone, Copy, Debug, PartialEq, Eq, Structural)]
pub enum SessionPayloadKind {
    /// `session.created` at version 1: `{title}`.
    Created,
    /// `session.renamed` at version 1: `{title}`.
    Renamed,
    /// `session.summarized` at version 1: `{summary}`.
    Summarized,
    /// `session.closed` at version 1: `{}`.
    Closed,
    /// `session.closed` at version 2: `{reason}`.
    ClosedWithReason,
    /// `session.reopened` at version 1: `{}`.
    Reopened,
    /// `session.reopened` at version 2: `{reason}`.
    ReopenedWithReason,
}

impl SessionPayloadKind {
    /// Whether the payload holds its one text field.
    pub open spec fn has_text(self) -> bool {
        !(self is Closed || self is Reopened)
    }
}

/// The supported session event types and payload versions.
pub open spec fn session_payload_kind_of(event_type: Seq<char>, version: u32) -> Option<
    SessionPayloadKind,
> {
    if event_type == "session.created"@ && version == 1 {
        Some(SessionPayloadKind::Created)
    } else if event_type == "session.renamed"@ && version == 1 {
        Some(SessionPayloadKind::Renamed)
    } else if event_type == "session.summarized"@ && version == 1 {
        Some(SessionPayloadKind::Summarized)
    } else if event_type == "session.closed"@ && version == 1 {
        Some(SessionPayloadKind::Closed)
    } else if event_type == "session.closed"@ && version == 2 {
        Some(SessionPayloadKind::ClosedWithReason)
    } else if event_type == "session.reopened"@ && version == 1 {
        Some(SessionPayloadKind::Reopened)
    } else if event_type == "session.reopened"@ && version == 2 {
        Some(SessionPayloadKind::ReopenedWithReason)
    } else {
        None
    }
}

/// Chooses the payload schema of a stored session event, refusing an unknown
/// type or version.
pub fn session_payload_kind(event_type: &str, payload_version: u32) -> (r: Result<
    SessionPayloadKind,
    DecodeError,
>)
    ensures
        match session_payload_kind_of(event_type@, payload_version) {
            Some(k) => r matches Ok(k2) && k2 == k,
            None => r matches Err(DecodeError::UnsupportedEvent { event_type: t, payload_version: v })
                && t@ == event_type@ && v == payload_version,
        },
{
    if str_equals(event_type, "session.created") && payload_version == 1 {
        Ok(SessionPayloadKind::Created)
    } else if str_equals(event_type, "session.renamed") && payload_version == 1 {
        Ok(SessionPayloadKind::Renamed)
    } else if str_equals(event_type, "session.summarized") && payload_version == 1 {
        Ok(SessionPayloadKind::Summarized)
    } else if str_equals(event_type, "session.closed") && payload_version == 1 {
        Ok(SessionPayloadKind::Closed)
    } else if str_equals(event_type, "session.closed") && payload_version == 2 {
        Ok(SessionPayloadKind::ClosedWithReason)
    } else if str_equals(event_type, "session.reopened") && payload_version == 1 {
        Ok(SessionPayloadKind::Reopened)
    } else if str_equals(event_type, "session.reopened") && payload_version == 2 {
        Ok(SessionPayloadKind::ReopenedWithReason)
    } else {
        Err(DecodeError::UnsupportedEvent { event_type: event_type.to_owned(), payload_version })
    }
}

/// The event a parsed session payload decodes to, or the validation text of the
/// field it refuses.
pub open spec fn session_decoded(kind: SessionPayloadKind, text: Seq<char>) -> Result<
    SessionEventView,
    Seq<char>,
> {
    match kind {
        SessionPayloadKind::Created => if text.len() == 0 {
            Err("session title must not be empty"@)
        } else {
            Ok(SessionEventView::Created { title: text })
        },
        SessionPayloadKind::Renamed => if text.len() == 0 {
            Err("session title must not be empty"@)
        } else {
            Ok(SessionEventView::Renamed { title: text })
        },
        SessionPayloadKind::Summarized => if text.len() == 0 {
            Err("session summary must not be empty"@)
        } else {
            Ok(SessionEventView::Summarized { summary: text })
        },
        SessionPayloadKind::Closed => Ok(SessionEventView::Closed { reason: None }),
        SessionPayloadKind::ClosedWithReason => if text.len() == 0 {
            Err("session closure reason must not be empty"@)
        } else {
            Ok(SessionEventView::Closed { reason: Some(text) })
        },
        SessionPayloadKind::Reopened => Ok(SessionEventView::Reopened { reason: None }),
        SessionPayloadKind::ReopenedWithReason => if text.len() == 0 {
            Err("session reopen reason must not be empty"@)
        } else {
            Ok(SessionEventView::Reopened { reason: Some(text) })
        },
    }
}

/// Validates the text field of a parsed session payload into its event; `text`
/// is empty for the kinds without a field.
pub fn session_event_from_payload(kind: SessionPayloadKind, text: String) -> (r: Result<
    SessionEvent,
    DecodeError,
>)
    ensures
        match session_decoded(kind, text@) {
            Ok(e) => r matches Ok(ev) && ev@ == e,
            Err(m) => r matches Err(DecodeError::MalformedPayload { message }) && message@ == m,
        },
{
    match kind {
        SessionPayloadKind::Created => match SessionTitle::new(text) {
            Ok(title) => Ok(SessionEvent::Created { title }),
            Err(e) => Err(DecodeError::MalformedPayload { message: e.to_string() }),
        },
        SessionPayloadKind::Renamed => match SessionTitle::new(text) {
            Ok(title) => Ok(SessionEvent::Renamed { title }),
            Err(e) => Err(DecodeError::MalformedPayload { message: e.to_string() }),
        },
        SessionPayloadKind::Summarized => match SessionSummary::new(text) {
            Ok(summary) => Ok(SessionEvent::Summarized { summary }),
            Err(e) => Err(DecodeError::MalformedPayload { message: e.to_string() }),
        },
        SessionPayloadKind::Closed => Ok(SessionEvent::Closed { reason: None }),
        SessionPayloadKind::ClosedWithReason => match SessionClosure::new(text) {
            Ok(reason) => Ok(SessionEvent::Closed { reason: Some(reason) }),
            Err(e) => Err(DecodeError::MalformedPayload { message: e.to_string() }),
        },
        SessionPayloadKind::Reopened => Ok(SessionEvent::Reopened { reason: None }),
        SessionPayloadKind::ReopenedWithReason => match SessionReopenReason::new(text) {
            Ok(reason) => Ok(SessionEvent::Reopened { reason: Some(reason) }),
            Err(e) => Err(DecodeError::MalformedPayload { message: e.to_string() }),
        },
    }
}

/// The persisted discriminator of each session event.
pub open spec fn session_event_type(e: SessionEventView) -> Seq<char> {
    match e {
        SessionEventView::Created { .. } => "session.created"@,
        SessionEventView::Renamed { .. } => "session.renamed"@,
        SessionEventView::Summarized { .. } => "session.summarized"@,
        SessionEventView::Closed { .. } => "session.closed"@,
        SessionEventView::Reopened { .. } => "session.reopened"@,
    }
}

/// The payload version each session event is stored at.
pub open spec fn session_payload_version(e: SessionEventView) -> u32 {
    match e {
        SessionEventView::Closed { reason: Some(_) } => 2,
        SessionEventView::Reopened { reason: Some(_) } => 2,
        _ => 1,
    }
}

/// The one text field that a session event's payload carries; empty when it has none.
pub open spec fn session_payload_text(e: SessionEventView) -> Seq<char> {
    match e {
        SessionEventView::Created { title } => title,
        SessionEventView::Renamed { title } => title,
        SessionEventView::Summarized { summary } => summary,
        SessionEventView::Closed { reason: Some(r) } => r,
        SessionEventView::Reopened { reason: Some(r) } => r,
        _ => Seq::empty(),
    }
}

impl SessionEvent {
    /// The persisted event discriminator.
    pub fn event_type(&self) -> (r: &'static str)
        ensures
            r@ == session_event_type(self@),
    {
        match self {
            SessionEvent::Created { .. } => "session.created",
            SessionEvent::Renamed { .. } => "session.renamed",
            SessionEvent::Summarized { .. } => "session.summarized",
            SessionEvent::Closed { .. } => "session.closed",
            SessionEvent::Reopened { .. } => "session.reopened",
        }
    }

    /// The payload version: a close or reopen with a reason is version 2, every
    /// other event 1.
    pub fn payload_version(&self) -> (r: u32)
        ensures
            r == session_payload_version(self@),
    {
        match self {
            SessionEvent::Closed { reason: Some(_) } => 2,
            SessionEvent::Reopened { reason: Some(_) } => 2,
            _ => 1,
        }
    }
}

/// The stream that holds one session's history: `session:` followed by its id.
pub fn session_stream(id: &SessionId) -> (r: StreamId)
    ensures
        r@ == "session:"@ + id@,
{
    let mut name = "session:".to_owned();
    name.append(id.as_str());
    proof {
        reveal_strlit("session:");
    }
    match StreamId::new(name) {
        Ok(s) => s,
        Err(_) => {
            assert(false);
            StreamId::new("session:".to_owned()).unwrap()
        },
    }
}

/// Round trip: a session event whose payload text is valid is decoded, from its
/// stored type, version and payload text, back to itself.
pub proof fn lemma_session_event_round_trip(e: SessionEventView)
    requires
        session_payload_text(e).len() > 0 || (e matches SessionEventView::Closed { reason: None })
            || (e matches SessionEventView::Reopened { reason: None }),
    ensures
        session_payload_kind_of(session_event_type(e), session_payload_version(e)) matches Some(k)
            && session_decoded(k, session_payload_text(e)) == Ok::<SessionEventView, Seq<char>>(e),
{
    reveal_strlit("session.created");
    reveal_strlit("session.renamed");
    reveal_strlit("session.summarized");
    reveal_strlit("session.closed");
    reveal_strlit("session.reopened");
    assert("session.created"@.len() == 15 && "session.renamed"@.len() == 15);
    assert("session.summarized"@.len() == 18 && "session.closed"@.len() == 14);
    assert("session.reopened"@.len() == 16);
    assert("session.created"@[8] != "session.renamed"@[8]);
}

} // verus!

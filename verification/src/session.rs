//! The security-context session: the protocol object through which a
//! listening endpoint is tagged with identity metadata and handed to the
//! display server.
//!
//! A session only enqueues requests. What the display server makes of them
//! is described by [`SessionModel`]: a request is accepted or it is a
//! protocol error, and the requests accepted so far decide the session's
//! state and metadata. The session types offer a request only where the
//! model accepts it.

use crate::endpoint::{EndpointModel, EndpointState, ListeningEndpoint};
use crate::registry::CapabilityHandle;
use vstd::prelude::*;

verus! {

/// The state of a session.
#[derive(Clone, Copy, Debug, PartialEq, Eq, Structural)]
pub enum SessionState {
    /// Bound to its endpoint, no metadata yet.
    Created,
    /// At least one metadata field is assigned.
    MetadataSet,
    /// Committed: the display server owns the endpoint. Terminal.
    Committed,
}

/// One of the three metadata fields of a session.
#[derive(Clone, Copy, Debug, PartialEq, Eq, Structural)]
pub enum MetadataField {
    AppId,
    SandboxEngine,
    InstanceId,
}

/// Identity metadata of a security context. Each field is optional and
/// independent of the others.
#[derive(Clone, Debug)]
pub struct SecurityContextMetadata {
    pub app_id: Option<String>,
    pub sandbox_engine: Option<String>,
    pub instance_id: Option<String>,
}

/// Metadata as text: what each field holds, if it is assigned.
pub struct MetadataView {
    pub app_id: Option<Seq<char>>,
    pub sandbox_engine: Option<Seq<char>>,
    pub instance_id: Option<Seq<char>>,
}

impl MetadataView {
    /// Metadata with no field assigned.
    pub open spec fn empty() -> MetadataView {
        MetadataView { app_id: None, sandbox_engine: None, instance_id: None }
    }

    /// What `field` holds.
    pub open spec fn get(self, field: MetadataField) -> Option<Seq<char>> {
        match field {
            MetadataField::AppId => self.app_id,
            MetadataField::SandboxEngine => self.sandbox_engine,
            MetadataField::InstanceId => self.instance_id,
        }
    }

    /// This metadata with `field` holding `value`.
    pub open spec fn with(self, field: MetadataField, value: Seq<char>) -> MetadataView {
        match field {
            MetadataField::AppId => MetadataView { app_id: Some(value), ..self },
            MetadataField::SandboxEngine => MetadataView { sandbox_engine: Some(value), ..self },
            MetadataField::InstanceId => MetadataView { instance_id: Some(value), ..self },
        }
    }
}

/// The text of an optional string.
pub open spec fn text_of(field: Option<String>) -> Option<Seq<char>> {
    match field {
        Some(value) => Some(value@),
        None => None,
    }
}

impl View for SecurityContextMetadata {
    type V = MetadataView;

    open spec fn view(&self) -> MetadataView {
        MetadataView {
            app_id: text_of(self.app_id),
            sandbox_engine: text_of(self.sandbox_engine),
            instance_id: text_of(self.instance_id),
        }
    }
}

impl SecurityContextMetadata {
    /// Metadata with no field assigned.
    pub fn new() -> (metadata: Self)
        ensures
            metadata@ == MetadataView::empty(),
    {
        SecurityContextMetadata { app_id: None, sandbox_engine: None, instance_id: None }
    }
}

/// A request as a session enqueues it for the display server.
#[derive(Clone, Debug, PartialEq, Eq)]
pub enum SessionRequest {
    /// Create the session for the listening socket `listen_fd`; `close_fd`
    /// is the channel on which the display server reports errors.
    CreateListener { listen_fd: i32, close_fd: i32 },
    SetAppId(String),
    SetSandboxEngine(String),
    SetInstanceId(String),
    Commit,
}

/// A request as the display server reads it.
pub enum RequestView {
    CreateListener { listen_fd: i32, close_fd: i32 },
    Assign { field: MetadataField, value: Seq<char> },
    Commit,
}

impl View for SessionRequest {
    type V = RequestView;

    open spec fn view(&self) -> RequestView {
        match self {
            SessionRequest::CreateListener { listen_fd, close_fd } => RequestView::CreateListener {
                listen_fd: *listen_fd,
                close_fd: *close_fd,
            },
            SessionRequest::SetAppId(value) => RequestView::Assign {
                field: MetadataField::AppId,
                value: value@,
            },
            SessionRequest::SetSandboxEngine(value) => RequestView::Assign {
                field: MetadataField::SandboxEngine,
                value: value@,
            },
            SessionRequest::SetInstanceId(value) => RequestView::Assign {
                field: MetadataField::InstanceId,
                value: value@,
            },
            SessionRequest::Commit => RequestView::Commit,
        }
    }
}

/// The requests of `log` as the display server reads them.
pub open spec fn requests_view(log: Seq<SessionRequest>) -> Seq<RequestView> {
    log.map_values(|request: SessionRequest| request@)
}

/// A session as the display server sees it after the requests enqueued so
/// far.
pub struct SessionModel {
    /// The capability the session was created through.
    pub capability: CapabilityHandle,
    /// The one endpoint the session was created from.
    pub endpoint: EndpointModel,
    /// The channel on which the display server reports errors.
    pub close_fd: i32,
    pub state: SessionState,
    pub metadata: MetadataView,
    /// Every request enqueued, the creation first, in the order of
    /// enqueueing.
    pub requests: Seq<RequestView>,
}

impl SessionModel {
    /// The session right after its creation from the listening socket
    /// `listen_fd`, whose descriptor it owns from then on.
    pub open spec fn created(capability: CapabilityHandle, listen_fd: i32, close_fd: i32)
        -> SessionModel {
        SessionModel {
            capability,
            endpoint: EndpointModel { fd: listen_fd, state: EndpointState::HandedOff },
            close_fd,
            state: SessionState::Created,
            metadata: MetadataView::empty(),
            requests: seq![RequestView::CreateListener { listen_fd, close_fd }],
        }
    }

    /// Whether `request` is legal in this state. A session is created once;
    /// a field is assigned at most once, before the commit; the commit comes
    /// once.
    pub open spec fn accepts(self, request: RequestView) -> bool {
        match request {
            RequestView::CreateListener { .. } => false,
            RequestView::Assign { field, .. } => self.state != SessionState::Committed
                && self.metadata.get(field) is None,
            RequestView::Commit => self.state != SessionState::Committed,
        }
    }

    /// The session after `request`, where the session accepts it.
    pub open spec fn apply(self, request: RequestView) -> SessionModel {
        match request {
            RequestView::CreateListener { .. } => self,
            RequestView::Assign { field, value } => SessionModel {
                state: SessionState::MetadataSet,
                metadata: self.metadata.with(field, value),
                requests: self.requests.push(request),
                ..self
            },
            RequestView::Commit => SessionModel {
                state: SessionState::Committed,
                requests: self.requests.push(request),
                ..self
            },
        }
    }
}

/// The session that the display server holds after the requests of `log`,
/// created through `capability`; nothing where some request of `log` is a
/// protocol error or `log` does not start with the creation.
pub open spec fn replay(capability: CapabilityHandle, log: Seq<RequestView>) -> Option<
    SessionModel,
>
    decreases log.len(),
{
    if log.len() == 0 {
        None
    } else if log.len() == 1 {
        match log[0] {
            RequestView::CreateListener { listen_fd, close_fd } => Some(
                SessionModel::created(capability, listen_fd, close_fd),
            ),
            _ => None,
        }
    } else {
        match replay(capability, log.drop_last()) {
            Some(session) => if session.accepts(log.last()) {
                Some(session.apply(log.last()))
            } else {
                None
            },
            None => None,
        }
    }
}

/// A session that is not committed yet. It offers the assignment of each
/// metadata field and the commit, which consumes it.
#[derive(Debug)]
pub struct SecurityContextSession {
    capability: CapabilityHandle,
    endpoint: ListeningEndpoint,
    close_fd: i32,
    metadata: SecurityContextMetadata,
    requests: Vec<SessionRequest>,
}

/// A committed session. It offers no request: the handshake is over, and
/// what is left is to deliver the requests in their order.
#[derive(Debug)]
pub struct CommittedSession {
    capability: CapabilityHandle,
    endpoint: ListeningEndpoint,
    close_fd: i32,
    metadata: SecurityContextMetadata,
    requests: Vec<SessionRequest>,
}

impl View for SecurityContextSession {
    type V = SessionModel;

    closed spec fn view(&self) -> SessionModel {
        SessionModel {
            capability: self.capability,
            endpoint: self.endpoint@,
            close_fd: self.close_fd,
            state: if self.metadata@ == MetadataView::empty() {
                SessionState::Created
            } else {
                SessionState::MetadataSet
            },
            metadata: self.metadata@,
            requests: requests_view(self.requests@),
        }
    }
}

impl View for CommittedSession {
    type V = SessionModel;

    closed spec fn view(&self) -> SessionModel {
        SessionModel {
            capability: self.capability,
            endpoint: self.endpoint@,
            close_fd: self.close_fd,
            state: SessionState::Committed,
            metadata: self.metadata@,
            requests: requests_view(self.requests@),
        }
    }
}

impl SecurityContextSession {
    /// Enqueues the creation of a session, through `capability`, for the
    /// listening `endpoint`, whose descriptor the session owns from now on.
    /// The display server reports errors of connections accepted through the
    /// endpoint on `error_stream`.
    pub fn create(
        capability: CapabilityHandle,
        endpoint: ListeningEndpoint,
        error_stream: i32,
    ) -> (session: Self)
        requires
            endpoint@.state == EndpointState::Listening,
        ensures
            session@ == SessionModel::created(capability, endpoint@.fd, error_stream),
    {
        let listen_fd = endpoint.fd();
        let mut requests: Vec<SessionRequest> = Vec::new();
        requests.push(SessionRequest::CreateListener { listen_fd, close_fd: error_stream });
        let session = SecurityContextSession {
            capability,
            endpoint: endpoint.hand_off(),
            close_fd: error_stream,
            metadata: SecurityContextMetadata::new(),
            requests,
        };
        assert(session@.requests == seq![
            RequestView::CreateListener { listen_fd, close_fd: error_stream },
        ]);
        session
    }

    /// Enqueues the assignment of the application id.
    pub fn set_app_id(&mut self, id: String)
        requires
            old(self)@.accepts(RequestView::Assign { field: MetadataField::AppId, value: id@ }),
        ensures
            final(self)@ == old(self)@.apply(
                RequestView::Assign { field: MetadataField::AppId, value: id@ },
            ),
    {
        self.metadata.app_id = Some(id.clone());
        self.requests.push(SessionRequest::SetAppId(id));
        assert(self@.requests == old(self)@.requests.push(
            RequestView::Assign { field: MetadataField::AppId, value: id@ },
        ));
    }

    /// Enqueues the assignment of the sandbox engine's name.
    pub fn set_sandbox_engine(&mut self, engine: String)
        requires
            old(self)@.accepts(
                RequestView::Assign { field: MetadataField::SandboxEngine, value: engine@ },
            ),
        ensures
            final(self)@ == old(self)@.apply(
                RequestView::Assign { field: MetadataField::SandboxEngine, value: engine@ },
            ),
    {
        self.metadata.sandbox_engine = Some(engine.clone());
        self.requests.push(SessionRequest::SetSandboxEngine(engine));
        assert(self@.requests == old(self)@.requests.push(
            RequestView::Assign { field: MetadataField::SandboxEngine, value: engine@ },
        ));
    }

    /// Enqueues the assignment of the instance id.
    pub fn set_instance_id(&mut self, id: String)
        requires
            old(self)@.accepts(
                RequestView::Assign { field: MetadataField::InstanceId, value: id@ },
            ),
        ensures
            final(self)@ == old(self)@.apply(
                RequestView::Assign { field: MetadataField::InstanceId, value: id@ },
            ),
    {
        self.metadata.instance_id = Some(id.clone());
        self.requests.push(SessionRequest::SetInstanceId(id));
        assert(self@.requests == old(self)@.requests.push(
            RequestView::Assign { field: MetadataField::InstanceId, value: id@ },
        ));
    }

    /// Enqueues the commit. The session is consumed: no request can follow.
    pub fn commit(self) -> (committed: CommittedSession)
        ensures
            self@.accepts(RequestView::Commit),
            committed@ == self@.apply(RequestView::Commit),
    {
        let mut requests = self.requests;
        requests.push(SessionRequest::Commit);
        let committed = CommittedSession {
            capability: self.capability,
            endpoint: self.endpoint,
            close_fd: self.close_fd,
            metadata: self.metadata,
            requests,
        };
        assert(committed@.requests == self@.requests.push(RequestView::Commit));
        committed
    }
}

/// The requests that assign `fields[i]` the text `values[i]`, in that order.
pub open spec fn assignments(fields: Seq<MetadataField>, values: Seq<Seq<char>>) -> Seq<
    RequestView,
> {
    Seq::new(
        fields.len(),
        |i: int| RequestView::Assign { field: fields[i], value: values[i] },
    )
}

/// The log of a whole handshake: the creation for `listen_fd` and
/// `close_fd`, the assignments of `fields`, and the commit.
pub open spec fn handshake_log(
    listen_fd: i32,
    close_fd: i32,
    fields: Seq<MetadataField>,
    values: Seq<Seq<char>>,
) -> Seq<RequestView> {
    seq![RequestView::CreateListener { listen_fd, close_fd }] + assignments(fields, values)
        + seq![RequestView::Commit]
}

/// Replaying a log with one more request replays the log and then lets the
/// session judge the request.
pub proof fn lemma_replay_push(
    capability: CapabilityHandle,
    log: Seq<RequestView>,
    request: RequestView,
)
    requires
        log.len() > 0,
    ensures
        replay(capability, log.push(request)) == (match replay(capability, log) {
            Some(session) => if session.accepts(request) {
                Some(session.apply(request))
            } else {
                None
            },
            None => None,
        }),
{
    assert(log.push(request).drop_last() == log);
}

/// A log that the display server accepts is the log of the session it gives:
/// it starts with the one creation, and a commit, if there is one, is its
/// last request and leaves the session committed.
pub proof fn lemma_replay_shape(capability: CapabilityHandle, log: Seq<RequestView>)
    requires
        replay(capability, log) is Some,
    ensures
        replay(capability, log)->0.requests == log,
        replay(capability, log)->0.capability == capability,
        replay(capability, log)->0.endpoint.state == EndpointState::HandedOff,
        log[0] == (RequestView::CreateListener {
            listen_fd: replay(capability, log)->0.endpoint.fd,
            close_fd: replay(capability, log)->0.close_fd,
        }),
        forall|at: int| 0 < at < log.len() ==> !(#[trigger] log[at] is CreateListener),
        forall|at: int| 0 <= at < log.len() - 1 ==> !(#[trigger] log[at] is Commit),
        replay(capability, log)->0.state == SessionState::Committed <==> log.last() is Commit,
    decreases log.len(),
{
    if log.len() > 1 {
        lemma_replay_shape(capability, log.drop_last());
        let before = replay(capability, log.drop_last())->0;
        assert(before.requests.push(log.last()) == log);
        assert forall|at: int| 0 <= at < log.len() - 1 implies !(#[trigger] log[at] is Commit) by {
            assert(log[at] == log.drop_last()[at]);
        }
        assert forall|at: int| 0 < at < log.len() implies !(
        #[trigger] log[at] is CreateListener) by {
            if at < log.len() - 1 {
                assert(log[at] == log.drop_last()[at]);
            }
        }
        assert(log[0] == log.drop_last()[0]);
    }
}

/// A session that tracks its log keeps doing so over every request it
/// accepts.
pub proof fn lemma_apply_extends_replay(session: SessionModel, request: RequestView)
    requires
        replay(session.capability, session.requests) == Some(session),
        session.accepts(request),
    ensures
        replay(session.capability, session.apply(request).requests) == Some(
            session.apply(request),
        ),
{
    lemma_replay_push(session.capability, session.requests, request);
}

/// A field that is assigned keeps its text over every request that the
/// session accepts.
pub proof fn lemma_assigned_field_is_kept(
    session: SessionModel,
    request: RequestView,
    field: MetadataField,
)
    requires
        session.accepts(request),
        session.metadata.get(field) is Some,
    ensures
        session.apply(request).metadata.get(field) == session.metadata.get(field),
{
}

/// A committed session accepts no request: no field can be assigned after
/// the commit, and there is no second commit.
pub proof fn lemma_committed_accepts_nothing(session: SessionModel, request: RequestView)
    requires
        session.state == SessionState::Committed,
    ensures
        !session.accepts(request),
{
}

/// Whatever is enqueued after a commit, the display server rejects the log.
pub proof fn lemma_nothing_follows_commit(
    capability: CapabilityHandle,
    log: Seq<RequestView>,
    request: RequestView,
)
    ensures
        replay(capability, log.push(RequestView::Commit).push(request)) is None,
{
    let committed = log.push(RequestView::Commit);
    lemma_replay_push(capability, committed, request);
    if replay(capability, committed) is Some {
        lemma_replay_shape(capability, committed);
    }
}

/// A second commit on the same session is rejected.
pub proof fn lemma_second_commit_is_rejected(capability: CapabilityHandle, log: Seq<RequestView>)
    ensures
        replay(capability, log.push(RequestView::Commit).push(RequestView::Commit)) is None,
{
    lemma_nothing_follows_commit(capability, log, RequestView::Commit);
}

/// In a log that the display server accepts, every assignment of a metadata
/// field stands before the commit: delivered in the order of the log, the
/// metadata is there when the commit takes effect.
pub proof fn lemma_assignments_precede_commit(
    capability: CapabilityHandle,
    log: Seq<RequestView>,
    assignment: int,
    commit: int,
)
    requires
        replay(capability, log) is Some,
        0 <= assignment < log.len(),
        0 <= commit < log.len(),
        log[assignment] is Assign,
        log[commit] is Commit,
    ensures
        assignment < commit,
        commit == log.len() - 1,
{
    lemma_replay_shape(capability, log);
}

/// The creation followed by the first `count` assignments of `fields`.
spec fn opening(
    listen_fd: i32,
    close_fd: i32,
    fields: Seq<MetadataField>,
    values: Seq<Seq<char>>,
    count: int,
) -> Seq<RequestView> {
    seq![RequestView::CreateListener { listen_fd, close_fd }] + assignments(
        fields,
        values,
    ).subrange(0, count)
}

/// The session after the creation and the first `count` assignments: it
/// exists exactly if no field occurs twice among them, is not committed, and
/// holds what was assigned.
proof fn lemma_opening_replays(
    capability: CapabilityHandle,
    listen_fd: i32,
    close_fd: i32,
    fields: Seq<MetadataField>,
    values: Seq<Seq<char>>,
    count: int,
)
    requires
        fields.len() == values.len(),
        0 <= count <= fields.len(),
    ensures
        replay(capability, opening(listen_fd, close_fd, fields, values, count)) is Some
            <==> fields.subrange(0, count).no_duplicates(),
        replay(capability, opening(listen_fd, close_fd, fields, values, count)) matches Some(
            session,
        ) ==> ({
            &&& session.state != SessionState::Committed
            &&& session.capability == capability
            &&& session.endpoint == (EndpointModel {
                fd: listen_fd,
                state: EndpointState::HandedOff,
            })
            &&& session.close_fd == close_fd
            &&& forall|i: int|
                0 <= i < count ==> session.metadata.get(#[trigger] fields[i]) == Some(values[i])
            &&& forall|field: MetadataField|
                !fields.subrange(0, count).contains(field) ==> (#[trigger] session.metadata.get(
                    field,
                )) is None
        }),
    decreases count,
{
    let create = RequestView::CreateListener { listen_fd, close_fd };
    let log = opening(listen_fd, close_fd, fields, values, count);
    if count == 0 {
        assert(log == seq![create]);
        assert(fields.subrange(0, 0).len() == 0);
    } else {
        let shorter = opening(listen_fd, close_fd, fields, values, count - 1);
        let request = RequestView::Assign {
            field: fields[count - 1],
            value: values[count - 1],
        };
        lemma_opening_replays(capability, listen_fd, close_fd, fields, values, count - 1);
        assert(log == shorter.push(request));
        lemma_replay_push(capability, shorter, request);
        let head = fields.subrange(0, count - 1);
        let now = fields.subrange(0, count);
        assert(now == head.push(fields[count - 1]));
        assert forall|i: int| 0 <= i < count - 1 implies head[i] == fields[i] by {}
        if head.no_duplicates() && !head.contains(fields[count - 1]) {
            assert(now.no_duplicates());
            let before = replay(capability, shorter)->0;
            let after = before.apply(request);
            assert forall|i: int| 0 <= i < count implies after.metadata.get(
                #[trigger] fields[i],
            ) == Some(values[i]) by {
                if i < count - 1 {
                    assert(head[i] == fields[i]);
                    assert(head.contains(fields[i]));
                    assert(before.metadata.get(fields[i]) == Some(values[i]));
                }
            }
            assert forall|field: MetadataField| !now.contains(field) implies (
            #[trigger] after.metadata.get(field)) is None by {
                assert(now[count - 1] == fields[count - 1]);
                assert(now.contains(fields[count - 1]));
                if head.contains(field) {
                    let at = choose|at: int| 0 <= at < head.len() && head[at] == field;
                    assert(now[at] == field);
                }
                assert(before.metadata.get(field) is None);
            }
        } else if head.no_duplicates() {
            let at = choose|at: int| 0 <= at < head.len() && head[at] == fields[count - 1];
            assert(now[at] == now[count - 1]);
            assert(!now.no_duplicates());
            let before = replay(capability, shorter)->0;
            assert(before.metadata.get(fields[at]) == Some(values[at]));
        } else {
            let (one, other) = choose|one: int, other: int|
                0 <= one < head.len() && 0 <= other < head.len() && one != other && head[one]
                    == head[other];
            assert(now[one] == now[other]);
            assert(!now.no_duplicates());
        }
    }
}

/// A handshake that assigns any selection of the metadata fields, in any
/// order, and then commits is accepted exactly if no field is assigned
/// twice. The committed session then holds each assigned field with its
/// text and no other field, for the endpoint it was created from.
pub proof fn lemma_handshake_commits(
    capability: CapabilityHandle,
    listen_fd: i32,
    close_fd: i32,
    fields: Seq<MetadataField>,
    values: Seq<Seq<char>>,
)
    requires
        fields.len() == values.len(),
    ensures
        replay(capability, handshake_log(listen_fd, close_fd, fields, values)) is Some
            <==> fields.no_duplicates(),
        replay(capability, handshake_log(listen_fd, close_fd, fields, values)) matches Some(
            session,
        ) ==> ({
            &&& session.state == SessionState::Committed
            &&& session.capability == capability
            &&& session.endpoint == (EndpointModel {
                fd: listen_fd,
                state: EndpointState::HandedOff,
            })
            &&& session.close_fd == close_fd
            &&& session.requests == handshake_log(listen_fd, close_fd, fields, values)
            &&& forall|i: int|
                0 <= i < fields.len() ==> session.metadata.get(#[trigger] fields[i]) == Some(
                    values[i],
                )
            &&& forall|field: MetadataField|
                !fields.contains(field) ==> (#[trigger] session.metadata.get(field)) is None
        }),
{
    let count = fields.len() as int;
    let open = opening(listen_fd, close_fd, fields, values, count);
    lemma_opening_replays(capability, listen_fd, close_fd, fields, values, count);
    assert(assignments(fields, values).subrange(0, count) == assignments(fields, values));
    assert(fields.subrange(0, count) == fields);
    assert(handshake_log(listen_fd, close_fd, fields, values) == open.push(RequestView::Commit));
    lemma_replay_push(capability, open, RequestView::Commit);
    if replay(capability, open.push(RequestView::Commit)) is Some {
        lemma_replay_shape(capability, open.push(RequestView::Commit));
    }
}

impl SecurityContextSession {
    /// The session's state: created, or with metadata assigned.
    pub fn state(&self) -> (state: SessionState)
        ensures
            state == self@.state,
            state != SessionState::Committed,
    {
        if self.metadata.app_id.is_none() && self.metadata.sandbox_engine.is_none()
            && self.metadata.instance_id.is_none() {
            SessionState::Created
        } else {
            SessionState::MetadataSet
        }
    }

    /// The metadata assigned so far.
    pub fn metadata(&self) -> (metadata: &SecurityContextMetadata)
        ensures
            metadata@ == self@.metadata,
    {
        &self.metadata
    }

    /// The requests enqueued so far, in their order.
    pub fn requests(&self) -> (requests: &Vec<SessionRequest>)
        ensures
            requests_view(requests@) == self@.requests,
    {
        &self.requests
    }
}

impl CommittedSession {
    /// The session's state: committed.
    pub fn state(&self) -> (state: SessionState)
        ensures
            state == self@.state,
            state == SessionState::Committed,
    {
        SessionState::Committed
    }

    /// The capability the session was created through.
    pub fn capability(&self) -> (capability: CapabilityHandle)
        ensures
            capability == self@.capability,
    {
        self.capability
    }

    /// The endpoint that the session owns.
    pub fn endpoint(&self) -> (endpoint: &ListeningEndpoint)
        ensures
            endpoint@ == self@.endpoint,
    {
        &self.endpoint
    }

    /// The channel on which the display server reports errors.
    pub fn close_fd(&self) -> (fd: i32)
        ensures
            fd == self@.close_fd,
    {
        self.close_fd
    }

    /// The metadata that the session was committed with.
    pub fn metadata(&self) -> (metadata: &SecurityContextMetadata)
        ensures
            metadata@ == self@.metadata,
    {
        &self.metadata
    }

    /// Every request of the handshake, in the order to deliver them in.
    pub fn requests(&self) -> (requests: &Vec<SessionRequest>)
        ensures
            requests_view(requests@) == self@.requests,
    {
        &self.requests
    }
}

} // verus!

//! The bootstrap orchestrator: the order in which the transport is opened,
//! the capability discovered, the endpoint prepared and the session
//! committed, and what becomes of a failure at any step.
//!
//! The orchestrator performs nothing itself. It is a state machine: it
//! hands the driver one [`Action`] at a time and takes back the [`Event`]
//! that says how the action went. The first failure ends the run; no step is
//! tried again. Nothing is cleaned up after a failure: a socket file that
//! the run has bound stays where it is.

use crate::endpoint::{
    resolve_address, resolve_backlog, EndpointModel, EndpointStage, EndpointState,
    ListeningEndpoint,
};
use crate::registry::{handle_for, AppData, CapabilityHandle};
use crate::session::{
    CommittedSession, MetadataField, MetadataView, RequestView, SecurityContextMetadata,
    SecurityContextSession, SessionModel,
};
use nix::sys::socket::{Backlog, UnixAddr};
use vstd::prelude::*;
use vstd::string::*;

verus! {

/// What one run is asked to do.
#[derive(Clone, Debug)]
pub struct Config {
    /// Path of the listening endpoint; an entry found there is removed.
    pub socket_path: Vec<u8>,
    /// Descriptor on which the display server reports errors of connections
    /// accepted through the endpoint.
    pub close_fd: i32,
    /// The metadata fields to assign before the commit.
    pub metadata: SecurityContextMetadata,
}

/// A configuration as plain values.
pub struct ConfigView {
    pub socket_path: Seq<u8>,
    pub close_fd: i32,
    pub metadata: MetadataView,
}

impl View for Config {
    type V = ConfigView;

    open spec fn view(&self) -> ConfigView {
        ConfigView {
            socket_path: self.socket_path@,
            close_fd: self.close_fd,
            metadata: self.metadata@,
        }
    }
}

/// The step on the transport to the display server that a failure belongs
/// to.
#[derive(Clone, Copy, Debug, PartialEq, Eq, Structural)]
pub enum TransportStage {
    /// Opening the connection and asking for the registry.
    Connect,
    /// The discovery round-trip.
    Roundtrip,
    /// Enqueueing the requests of the handshake.
    Handshake,
    /// Flushing the connection after the commit.
    Flush,
}

/// Why a run failed.
#[derive(Clone, Debug, PartialEq, Eq)]
pub enum BootstrapError {
    /// The display server does not advertise the capability.
    CapabilityUnavailable,
    /// Preparing the listening endpoint failed at `stage`.
    EndpointSetupFailure { stage: EndpointStage, detail: String },
    /// The transport to the display server failed at `stage`.
    TransportFailure { stage: TransportStage, detail: String },
}

/// A failure as plain values.
pub enum ErrorView {
    CapabilityUnavailable,
    EndpointSetupFailure { stage: EndpointStage, detail: Seq<char> },
    TransportFailure { stage: TransportStage, detail: Seq<char> },
}

impl View for BootstrapError {
    type V = ErrorView;

    open spec fn view(&self) -> ErrorView {
        match self {
            BootstrapError::CapabilityUnavailable => ErrorView::CapabilityUnavailable,
            BootstrapError::EndpointSetupFailure { stage, detail } => {
                ErrorView::EndpointSetupFailure { stage: *stage, detail: detail@ }
            },
            BootstrapError::TransportFailure { stage, detail } => ErrorView::TransportFailure {
                stage: *stage,
                detail: detail@,
            },
        }
    }
}

/// How the action that the driver was handed went.
#[derive(Clone, Debug, PartialEq, Eq)]
pub enum Event {
    /// The action was carried out.
    Completed,
    /// The action failed; the text says why.
    Failed(String),
    /// During the round-trip, the display server advertised a global.
    Global { name: u32, interface: String, version: u32 },
    /// The socket path was looked at: an entry exists there or not.
    PathProbed { exists: bool },
    /// The socket was created, with descriptor `fd`.
    SocketOpened { fd: i32 },
}

/// An event as plain values.
pub enum EventView {
    Completed,
    Failed(Seq<char>),
    Global { name: u32, interface: Seq<char>, version: u32 },
    PathProbed { exists: bool },
    SocketOpened { fd: i32 },
}

impl View for Event {
    type V = EventView;

    open spec fn view(&self) -> EventView {
        match self {
            Event::Completed => EventView::Completed,
            Event::Failed(detail) => EventView::Failed(detail@),
            Event::Global { name, interface, version } => EventView::Global {
                name: *name,
                interface: interface@,
                version: *version,
            },
            Event::PathProbed { exists } => EventView::PathProbed { exists: *exists },
            Event::SocketOpened { fd } => EventView::SocketOpened { fd: *fd },
        }
    }
}

/// What the driver is to do next.
#[derive(Debug)]
pub enum Action {
    /// Open the transport to the display server and ask for its registry.
    Connect,
    /// Make the one blocking round-trip, handing in each advertisement as an
    /// `Event::Global` while it lasts.
    Roundtrip,
    /// Bind the advertised capability, at the handle's name and version.
    BindCapability(CapabilityHandle),
    /// Nothing to do for this advertisement; the round-trip goes on.
    Await,
    /// Look whether an entry exists at the socket path.
    ProbePath,
    /// Remove the entry at the socket path.
    RemoveStale,
    /// Create the stream socket.
    OpenSocket,
    /// Bind the socket to this address.
    BindSocket(UnixAddr),
    /// Start listening, with this backlog.
    Listen(Backlog),
    /// Enqueue the requests of this session, in their order.
    Handshake(CommittedSession),
    /// Flush the transport, once.
    Flush,
    /// The run is over, with this outcome.
    Finish(Result<(), BootstrapError>),
    /// The run was over before this event; there is nothing to do.
    Halt,
}

/// An action as plain values.
pub enum ActionView {
    Connect,
    Roundtrip,
    BindCapability(CapabilityHandle),
    Await,
    ProbePath,
    RemoveStale,
    OpenSocket,
    BindSocket(UnixAddr),
    Listen(Backlog),
    Handshake(SessionModel),
    Flush,
    Finish(Result<(), ErrorView>),
    Halt,
}

/// The outcome of a run as plain values.
pub open spec fn outcome_view(outcome: Result<(), BootstrapError>) -> Result<(), ErrorView> {
    match outcome {
        Ok(_) => Ok(()),
        Err(error) => Err(error@),
    }
}

impl View for Action {
    type V = ActionView;

    open spec fn view(&self) -> ActionView {
        match self {
            Action::Connect => ActionView::Connect,
            Action::Roundtrip => ActionView::Roundtrip,
            Action::BindCapability(handle) => ActionView::BindCapability(*handle),
            Action::Await => ActionView::Await,
            Action::ProbePath => ActionView::ProbePath,
            Action::RemoveStale => ActionView::RemoveStale,
            Action::OpenSocket => ActionView::OpenSocket,
            Action::BindSocket(address) => ActionView::BindSocket(*address),
            Action::Listen(backlog) => ActionView::Listen(*backlog),
            Action::Handshake(session) => ActionView::Handshake(session@),
            Action::Flush => ActionView::Flush,
            Action::Finish(outcome) => ActionView::Finish(outcome_view(*outcome)),
            Action::Halt => ActionView::Halt,
        }
    }
}

/// Where a run stands: the action that is under way, with what the later
/// steps need of the earlier ones.
#[derive(Debug)]
pub enum Phase {
    /// The transport is being opened.
    Connecting,
    /// The round-trip is under way.
    Discovering(AppData),
    /// The socket path is being looked at.
    Probing(CapabilityHandle),
    /// The stale entry is being removed.
    Removing(CapabilityHandle),
    /// The socket is being created.
    Opening(CapabilityHandle),
    /// The socket is being bound.
    Binding { capability: CapabilityHandle, endpoint: ListeningEndpoint, backlog: Backlog },
    /// The socket is being put to listen.
    Listening { capability: CapabilityHandle, endpoint: ListeningEndpoint },
    /// The requests of the handshake are being enqueued.
    Handshaking,
    /// The transport is being flushed.
    Flushing,
    /// The run is over.
    Finished,
}

/// A phase as plain values.
pub enum PhaseView {
    Connecting,
    Discovering(AppData),
    Probing(CapabilityHandle),
    Removing(CapabilityHandle),
    Opening(CapabilityHandle),
    Binding { capability: CapabilityHandle, endpoint: EndpointModel, backlog: Backlog },
    Listening { capability: CapabilityHandle, endpoint: EndpointModel },
    Handshaking,
    Flushing,
    Finished,
}

impl View for Phase {
    type V = PhaseView;

    open spec fn view(&self) -> PhaseView {
        match self {
            Phase::Connecting => PhaseView::Connecting,
            Phase::Discovering(data) => PhaseView::Discovering(*data),
            Phase::Probing(capability) => PhaseView::Probing(*capability),
            Phase::Removing(capability) => PhaseView::Removing(*capability),
            Phase::Opening(capability) => PhaseView::Opening(*capability),
            Phase::Binding { capability, endpoint, backlog } => PhaseView::Binding {
                capability: *capability,
                endpoint: endpoint@,
                backlog: *backlog,
            },
            Phase::Listening { capability, endpoint } => PhaseView::Listening {
                capability: *capability,
                endpoint: endpoint@,
            },
            Phase::Handshaking => PhaseView::Handshaking,
            Phase::Flushing => PhaseView::Flushing,
            Phase::Finished => PhaseView::Finished,
        }
    }
}

/// What forming the socket address and the listen backlog gave: each is
/// there, or a text says why it is not.
pub struct Resolved {
    pub address: Result<UnixAddr, Seq<char>>,
    pub backlog: Result<Backlog, Seq<char>>,
}

/// A run as plain values: what it was asked to do and where it stands.
pub struct BootstrapView {
    pub config: ConfigView,
    pub phase: PhaseView,
}

/// Whether `phase` holds its endpoint in the state that the action under
/// way needs: created to be bound, bound to be put to listen.
pub open spec fn valid(phase: PhaseView) -> bool {
    match phase {
        PhaseView::Binding { endpoint, .. } => endpoint.state == EndpointState::Created,
        PhaseView::Listening { endpoint, .. } => endpoint.state == EndpointState::Bound,
        _ => true,
    }
}

/// Whether `resolved` can be what the address of `config`'s socket path
/// gave: a path with a NUL byte in it has no address.
pub open spec fn admissible(config: ConfigView, resolved: Resolved) -> bool {
    config.socket_path.contains(0u8) ==> resolved.address is Err
}

/// The run right after its launch: the connection is being opened.
pub open spec fn launched(config: ConfigView) -> BootstrapView {
    BootstrapView { config, phase: PhaseView::Connecting }
}

/// The text that `event` reports; an event that is no failure reports none.
pub open spec fn detail_of(event: EventView) -> Seq<char> {
    match event {
        EventView::Failed(detail) => detail,
        _ => Seq::empty(),
    }
}

/// The end of a run on `event` where a step of endpoint preparation was under
/// way: the step has failed, with the text that the event reports.
pub open spec fn endpoint_failed(stage: EndpointStage, event: EventView) -> (
    PhaseView,
    ActionView,
) {
    (
        PhaseView::Finished,
        ActionView::Finish(
            Err(ErrorView::EndpointSetupFailure { stage, detail: detail_of(event) }),
        ),
    )
}

/// The end of a run on `event` where a step on the transport was under way:
/// the step has failed, with the text that the event reports.
pub open spec fn transport_failed(stage: TransportStage, event: EventView) -> (
    PhaseView,
    ActionView,
) {
    (
        PhaseView::Finished,
        ActionView::Finish(Err(ErrorView::TransportFailure { stage, detail: detail_of(event) })),
    )
}

/// `session` after the assignment of `field`, where the configuration holds
/// a text for it.
pub open spec fn assign_if(session: SessionModel, field: MetadataField, value: Option<Seq<char>>)
    -> SessionModel {
    match value {
        Some(value) => session.apply(RequestView::Assign { field, value }),
        None => session,
    }
}

/// The committed session of a run: created through `capability` for the
/// listening socket `listen_fd`, with each field that `config` holds
/// assigned, the application id first, then the sandbox engine, then the
/// instance id.
pub open spec fn configured_session(
    capability: CapabilityHandle,
    listen_fd: i32,
    config: ConfigView,
) -> SessionModel {
    assign_if(
        assign_if(
            assign_if(
                SessionModel::created(capability, listen_fd, config.close_fd),
                MetadataField::AppId,
                config.metadata.app_id,
            ),
            MetadataField::SandboxEngine,
            config.metadata.sandbox_engine,
        ),
        MetadataField::InstanceId,
        config.metadata.instance_id,
    ).apply(RequestView::Commit)
}

/// What follows the creation of the socket `fd`: the socket is bound to the
/// address, and the backlog is kept for the listening; where either is not
/// there, the run fails, on the address first.
pub open spec fn planned_binding(capability: CapabilityHandle, fd: i32, resolved: Resolved) -> (
    PhaseView,
    ActionView,
) {
    match resolved.address {
        Err(detail) => (
            PhaseView::Finished,
            ActionView::Finish(
                Err(ErrorView::EndpointSetupFailure { stage: EndpointStage::Address, detail }),
            ),
        ),
        Ok(address) => match resolved.backlog {
            Err(detail) => (
                PhaseView::Finished,
                ActionView::Finish(
                    Err(ErrorView::EndpointSetupFailure { stage: EndpointStage::Backlog, detail }),
                ),
            ),
            Ok(backlog) => (
                PhaseView::Binding {
                    capability,
                    endpoint: EndpointModel { fd, state: EndpointState::Created },
                    backlog,
                },
                ActionView::BindSocket(address),
            ),
        },
    }
}

/// The phase that follows `phase` on `event`, with the action to take. Only
/// the event that reports the success of the action under way leads on; any
/// other event is that action's failure and ends the run.
pub open spec fn next_phase(
    config: ConfigView,
    phase: PhaseView,
    event: EventView,
    resolved: Resolved,
) -> (PhaseView, ActionView) {
    match phase {
        PhaseView::Connecting => match event {
            EventView::Completed => (
                PhaseView::Discovering(AppData { security_manager: None }),
                ActionView::Roundtrip,
            ),
            _ => transport_failed(TransportStage::Connect, event),
        },
        PhaseView::Discovering(data) => match event {
            EventView::Global { name, interface, version } => (
                PhaseView::Discovering(data.observe(name, interface, version)),
                if data.binds(interface) {
                    ActionView::BindCapability(handle_for(name, version))
                } else {
                    ActionView::Await
                },
            ),
            EventView::Completed => match data.security_manager {
                Some(capability) => (PhaseView::Probing(capability), ActionView::ProbePath),
                None => (
                    PhaseView::Finished,
                    ActionView::Finish(Err(ErrorView::CapabilityUnavailable)),
                ),
            },
            _ => transport_failed(TransportStage::Roundtrip, event),
        },
        PhaseView::Probing(capability) => match event {
            EventView::PathProbed { exists } => if exists {
                (PhaseView::Removing(capability), ActionView::RemoveStale)
            } else {
                (PhaseView::Opening(capability), ActionView::OpenSocket)
            },
            _ => endpoint_failed(EndpointStage::Probe, event),
        },
        PhaseView::Removing(capability) => match event {
            EventView::Completed => (PhaseView::Opening(capability), ActionView::OpenSocket),
            _ => endpoint_failed(EndpointStage::Unlink, event),
        },
        PhaseView::Opening(capability) => match event {
            EventView::SocketOpened { fd } => planned_binding(capability, fd, resolved),
            _ => endpoint_failed(EndpointStage::Socket, event),
        },
        PhaseView::Binding { capability, endpoint, backlog } => match event {
            EventView::Completed => (
                PhaseView::Listening {
                    capability,
                    endpoint: EndpointModel { fd: endpoint.fd, state: EndpointState::Bound },
                },
                ActionView::Listen(backlog),
            ),
            _ => endpoint_failed(EndpointStage::Bind, event),
        },
        PhaseView::Listening { capability, endpoint } => match event {
            EventView::Completed => (
                PhaseView::Handshaking,
                ActionView::Handshake(configured_session(capability, endpoint.fd, config)),
            ),
            _ => endpoint_failed(EndpointStage::Listen, event),
        },
        PhaseView::Handshaking => match event {
            EventView::Completed => (PhaseView::Flushing, ActionView::Flush),
            _ => transport_failed(TransportStage::Handshake, event),
        },
        PhaseView::Flushing => match event {
            EventView::Completed => (PhaseView::Finished, ActionView::Finish(Ok(()))),
            _ => transport_failed(TransportStage::Flush, event),
        },
        PhaseView::Finished => (PhaseView::Finished, ActionView::Halt),
    }
}

/// The run after `event`, with the action to take. `resolved` is consulted
/// only when the event reports the socket's creation.
pub open spec fn transition(state: BootstrapView, event: EventView, resolved: Resolved) -> (
    BootstrapView,
    ActionView,
) {
    let (phase, action) = next_phase(state.config, state.phase, event, resolved);
    (BootstrapView { config: state.config, phase }, action)
}

/// The text that `event` reports.
fn detail(event: Event) -> (text: String)
    ensures
        text@ == detail_of(event@),
{
    match event {
        Event::Failed(text) => text,
        _ => String::new(),
    }
}

/// The failure of a step of endpoint preparation that `event` reports.
fn endpoint_failure(stage: EndpointStage, event: Event) -> (failed: (Phase, Action))
    ensures
        (failed.0@, failed.1@) == endpoint_failed(stage, event@),
{
    let error = BootstrapError::EndpointSetupFailure { stage, detail: detail(event) };
    (Phase::Finished, Action::Finish(Err(error)))
}

/// The failure of a step on the transport that `event` reports.
fn transport_failure(stage: TransportStage, event: Event) -> (failed: (Phase, Action))
    ensures
        (failed.0@, failed.1@) == transport_failed(stage, event@),
{
    let error = BootstrapError::TransportFailure { stage, detail: detail(event) };
    (Phase::Finished, Action::Finish(Err(error)))
}

/// The text of what forming an address or a backlog gave.
pub open spec fn resolution_view<T>(resolution: Result<T, String>) -> Result<T, Seq<char>> {
    match resolution {
        Ok(value) => Ok(value),
        Err(detail) => Err(detail@),
    }
}

/// Decides what follows the creation of the socket `fd`, given what forming
/// its address and the listen backlog gave.
pub fn plan_binding(
    capability: CapabilityHandle,
    fd: i32,
    address: Result<UnixAddr, String>,
    backlog: Result<Backlog, String>,
) -> (planned: (Phase, Action))
    ensures
        (planned.0@, planned.1@) == planned_binding(
            capability,
            fd,
            Resolved { address: resolution_view(address), backlog: resolution_view(backlog) },
        ),
        valid(planned.0@),
{
    match address {
        Err(detail) => {
            let error = BootstrapError::EndpointSetupFailure {
                stage: EndpointStage::Address,
                detail,
            };
            (Phase::Finished, Action::Finish(Err(error)))
        },
        Ok(address) => match backlog {
            Err(detail) => {
                let error = BootstrapError::EndpointSetupFailure {
                    stage: EndpointStage::Backlog,
                    detail,
                };
                (Phase::Finished, Action::Finish(Err(error)))
            },
            Ok(backlog) => (
                Phase::Binding { capability, endpoint: ListeningEndpoint::created(fd), backlog },
                Action::BindSocket(address),
            ),
        },
    }
}

/// Runs the handshake on a session of its own: creates it for `endpoint`,
/// assigns each field that `config` holds, and commits.
pub fn handshake(
    capability: CapabilityHandle,
    endpoint: ListeningEndpoint,
    config: &Config,
) -> (committed: CommittedSession)
    requires
        endpoint@.state == EndpointState::Listening,
    ensures
        committed@ == configured_session(capability, endpoint@.fd, config@),
{
    let mut session = SecurityContextSession::create(capability, endpoint, config.close_fd);
    match &config.metadata.app_id {
        Some(id) => {
            session.set_app_id(id.clone());
        },
        None => {},
    }
    match &config.metadata.sandbox_engine {
        Some(engine) => {
            session.set_sandbox_engine(engine.clone());
        },
        None => {},
    }
    match &config.metadata.instance_id {
        Some(id) => {
            session.set_instance_id(id.clone());
        },
        None => {},
    }
    session.commit()
}

/// One run of the bootstrap.
#[derive(Debug)]
pub struct Bootstrap {
    config: Config,
    phase: Phase,
}

impl View for Bootstrap {
    type V = BootstrapView;

    closed spec fn view(&self) -> BootstrapView {
        BootstrapView { config: self.config@, phase: self.phase@ }
    }
}

impl Bootstrap {
    #[verifier::type_invariant]
    spec fn well_formed(self) -> bool {
        valid(self.phase@)
    }

    /// Starts a run for `config`. The first action is to open the transport.
    pub fn launch(config: Config) -> (started: (Bootstrap, Action))
        ensures
            started.0@ == launched(config@),
            started.1@ == ActionView::Connect,
    {
        (Bootstrap { config, phase: Phase::Connecting }, Action::Connect)
    }

    /// Takes in how the last action went and decides the next one. The socket
    /// address and the backlog are formed when the event reports the
    /// socket's creation; what they give is `resolved`.
    pub fn step(self, event: Event) -> (next: (Bootstrap, Action))
        ensures
            valid(self@.phase),
            valid(next.0@.phase),
            exists|resolved: Resolved|
                #![trigger transition(self@, event@, resolved)]
                admissible(self@.config, resolved) && (next.0@, next.1@) == transition(
                    self@,
                    event@,
                    resolved,
                ),
    {
        proof {
            use_type_invariant(&self);
        }
        let ghost before = self@;
        let ghost given = event@;
        let ghost mut resolved = Resolved {
            address: Err(Seq::empty()),
            backlog: Err(Seq::empty()),
        };
        let Bootstrap { config, phase } = self;
        let (phase, action): (Phase, Action) = match phase {
            Phase::Connecting => match event {
                Event::Completed => (Phase::Discovering(AppData::new()), Action::Roundtrip),
                other => transport_failure(TransportStage::Connect, other),
            },
            Phase::Discovering(data) => match event {
                Event::Global { name, interface, version } => {
                    let mut data = data;
                    match data.event(name, interface.as_str(), version) {
                        Some(handle) => (Phase::Discovering(data), Action::BindCapability(handle)),
                        None => (Phase::Discovering(data), Action::Await),
                    }
                },
                Event::Completed => match data.security_manager {
                    Some(capability) => (Phase::Probing(capability), Action::ProbePath),
                    None => (
                        Phase::Finished,
                        Action::Finish(Err(BootstrapError::CapabilityUnavailable)),
                    ),
                },
                other => transport_failure(TransportStage::Roundtrip, other),
            },
            Phase::Probing(capability) => match event {
                Event::PathProbed { exists } => if exists {
                    (Phase::Removing(capability), Action::RemoveStale)
                } else {
                    (Phase::Opening(capability), Action::OpenSocket)
                },
                other => endpoint_failure(EndpointStage::Probe, other),
            },
            Phase::Removing(capability) => match event {
                Event::Completed => (Phase::Opening(capability), Action::OpenSocket),
                other => endpoint_failure(EndpointStage::Unlink, other),
            },
            Phase::Opening(capability) => match event {
                Event::SocketOpened { fd } => {
                    let address = resolve_address(&config.socket_path);
                    let backlog = resolve_backlog();
                    proof {
                        resolved = Resolved {
                            address: resolution_view(address),
                            backlog: resolution_view(backlog),
                        };
                    }
                    plan_binding(capability, fd, address, backlog)
                },
                other => endpoint_failure(EndpointStage::Socket, other),
            },
            Phase::Binding { capability, endpoint, backlog } => match event {
                Event::Completed => (
                    Phase::Listening { capability, endpoint: endpoint.bound() },
                    Action::Listen(backlog),
                ),
                other => endpoint_failure(EndpointStage::Bind, other),
            },
            Phase::Listening { capability, endpoint } => match event {
                Event::Completed => (
                    Phase::Handshaking,
                    Action::Handshake(handshake(capability, endpoint.listening(), &config)),
                ),
                other => endpoint_failure(EndpointStage::Listen, other),
            },
            Phase::Handshaking => match event {
                Event::Completed => (Phase::Flushing, Action::Flush),
                other => transport_failure(TransportStage::Handshake, other),
            },
            Phase::Flushing => match event {
                Event::Completed => (Phase::Finished, Action::Finish(Ok(()))),
                other => transport_failure(TransportStage::Flush, other),
            },
            Phase::Finished => (Phase::Finished, Action::Halt),
        };
        let next = Bootstrap { config, phase };
        assert((next@, action@) == transition(before, given, resolved));
        (next, action)
    }
}

/// The words for a step of endpoint preparation.
pub open spec fn endpoint_stage_text(stage: EndpointStage) -> Seq<char> {
    match stage {
        EndpointStage::Probe => "probing the socket path"@,
        EndpointStage::Unlink => "removing the stale socket"@,
        EndpointStage::Socket => "creating the socket"@,
        EndpointStage::Address => "forming the socket address"@,
        EndpointStage::Backlog => "forming the listen backlog"@,
        EndpointStage::Bind => "binding the socket"@,
        EndpointStage::Listen => "listening on the socket"@,
    }
}

/// The words for a step on the transport.
pub open spec fn transport_stage_text(stage: TransportStage) -> Seq<char> {
    match stage {
        TransportStage::Connect => "connecting to the display server"@,
        TransportStage::Roundtrip => "discovering the globals"@,
        TransportStage::Handshake => "enqueueing the handshake"@,
        TransportStage::Flush => "flushing the connection"@,
    }
}

/// The diagnostic of a failure: what failed, at which step, and the text
/// that came with the failure.
pub open spec fn diagnostic(error: ErrorView) -> Seq<char> {
    match error {
        ErrorView::CapabilityUnavailable => "failed to bind to security context manager"@,
        ErrorView::EndpointSetupFailure { stage, detail } => "endpoint setup failed while "@
            + endpoint_stage_text(stage) + ": "@ + detail,
        ErrorView::TransportFailure { stage, detail } => "transport failed while "@
            + transport_stage_text(stage) + ": "@ + detail,
    }
}

/// The exit code of a process whose run had `outcome`: 0 for success, 1 for
/// any failure.
pub open spec fn exit_status(outcome: Result<(), ErrorView>) -> i32 {
    match outcome {
        Ok(_) => 0,
        Err(_) => 1,
    }
}

fn endpoint_stage_words(stage: EndpointStage) -> (words: &'static str)
    ensures
        words@ == endpoint_stage_text(stage),
{
    match stage {
        EndpointStage::Probe => "probing the socket path",
        EndpointStage::Unlink => "removing the stale socket",
        EndpointStage::Socket => "creating the socket",
        EndpointStage::Address => "forming the socket address",
        EndpointStage::Backlog => "forming the listen backlog",
        EndpointStage::Bind => "binding the socket",
        EndpointStage::Listen => "listening on the socket",
    }
}

fn transport_stage_words(stage: TransportStage) -> (words: &'static str)
    ensures
        words@ == transport_stage_text(stage),
{
    match stage {
        TransportStage::Connect => "connecting to the display server",
        TransportStage::Roundtrip => "discovering the globals",
        TransportStage::Handshake => "enqueueing the handshake",
        TransportStage::Flush => "flushing the connection",
    }
}

impl BootstrapError {
    /// The diagnostic to report for this failure.
    pub fn message(&self) -> (line: String)
        ensures
            line@ == diagnostic(self@),
    {
        match self {
            BootstrapError::CapabilityUnavailable => String::from_str(
                "failed to bind to security context manager",
            ),
            BootstrapError::EndpointSetupFailure { stage, detail } => String::from_str(
                "endpoint setup failed while ",
            ).concat(endpoint_stage_words(*stage)).concat(": ").concat(detail.as_str()),
            BootstrapError::TransportFailure { stage, detail } => String::from_str(
                "transport failed while ",
            ).concat(transport_stage_words(*stage)).concat(": ").concat(detail.as_str()),
        }
    }
}

/// The exit code for a run that had `outcome`.
pub fn exit_code(outcome: &Result<(), BootstrapError>) -> (code: i32)
    ensures
        code == exit_status(outcome_view(*outcome)),
{
    match outcome {
        Ok(_) => 0,
        Err(_) => 1,
    }
}

impl Bootstrap {
    /// What the run was asked to do.
    pub fn config(&self) -> (config: &Config)
        ensures
            config@ == self@.config,
    {
        &self.config
    }

    /// Where the run stands.
    pub fn phase(&self) -> (phase: &Phase)
        ensures
            phase@ == self@.phase,
    {
        &self.phase
    }

    /// Whether the run is over.
    pub fn is_finished(&self) -> (over: bool)
        ensures
            over == (self@.phase is Finished),
    {
        match self.phase {
            Phase::Finished => true,
            _ => false,
        }
    }
}

} // verus!

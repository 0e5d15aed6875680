//! Whole runs of the bootstrap: the actions that the orchestrator hands out
//! over any sequence of events, and what holds of every such run.

use crate::bootstrap::{
    configured_session, launched, next_phase, transition, valid, ActionView, BootstrapView,
    ConfigView, ErrorView, EventView, PhaseView, Resolved,
};
use crate::endpoint::{EndpointModel, EndpointState};
use crate::registry::{AppData, CapabilityHandle};
use crate::session::{
    lemma_apply_extends_replay, replay, MetadataField, RequestView, SessionModel, SessionState,
};
use vstd::prelude::*;

verus! {

/// What one step of a run takes in: the event, and what forming the socket
/// address and the backlog gives at that step.
pub struct Input {
    pub event: EventView,
    pub resolved: Resolved,
}

/// The actions that the orchestrator hands out, from `state` on, over
/// `inputs`: one for each input, in order.
pub open spec fn actions_of(state: BootstrapView, inputs: Seq<Input>) -> Seq<ActionView>
    decreases inputs.len(),
{
    if inputs.len() == 0 {
        Seq::empty()
    } else {
        let (next, action) = transition(state, inputs[0].event, inputs[0].resolved);
        seq![action] + actions_of(next, inputs.drop_first())
    }
}

/// Every action of a run for `config` over `inputs`, the first one, which
/// the launch hands out, included.
pub open spec fn run(config: ConfigView, inputs: Seq<Input>) -> Seq<ActionView> {
    seq![ActionView::Connect] + actions_of(launched(config), inputs)
}

/// Whether `action` looks at, creates or changes the socket or an entry of
/// the filesystem.
pub open spec fn touches_endpoint(action: ActionView) -> bool {
    action is ProbePath || action is RemoveStale || action is OpenSocket || action is BindSocket
        || action is Listen
}

/// The place of `action` in the order of a run.
pub open spec fn rank(action: ActionView) -> int {
    match action {
        ActionView::Connect => 0,
        ActionView::Roundtrip => 1,
        ActionView::BindCapability(_) => 2,
        ActionView::Await => 3,
        ActionView::ProbePath => 4,
        ActionView::RemoveStale => 5,
        ActionView::OpenSocket => 6,
        ActionView::BindSocket(_) => 7,
        ActionView::Listen(_) => 8,
        ActionView::Handshake(_) => 9,
        ActionView::Flush => 10,
        ActionView::Finish(_) => 11,
        ActionView::Halt => 12,
    }
}

/// Whether a run may hold `earlier` before `later`. The actions come in the
/// order of their ranks, each at most once, with two exceptions: any number
/// of advertisements may be passed over, before and after the one that is
/// bound, and any number of halts may follow one another.
pub open spec fn in_order(earlier: ActionView, later: ActionView) -> bool {
    ||| rank(earlier) < rank(later)
    ||| earlier is Await && (later is Await || later is BindCapability)
    ||| earlier is Halt && later is Halt
}

/// A rank below that of every action that can still come in `phase`, but for
/// the advertisements that are passed over while nothing is bound.
spec fn level(phase: PhaseView) -> int {
    match phase {
        PhaseView::Connecting => 0,
        PhaseView::Discovering(data) => if data.security_manager is None {
            1
        } else {
            2
        },
        PhaseView::Probing(_) => 4,
        PhaseView::Removing(_) => 5,
        PhaseView::Opening(_) => 6,
        PhaseView::Binding { .. } => 7,
        PhaseView::Listening { .. } => 8,
        PhaseView::Handshaking => 9,
        PhaseView::Flushing => 10,
        PhaseView::Finished => 11,
    }
}

/// Whether every action that can still come in `phase` may follow `action`.
spec fn follows(action: ActionView, phase: PhaseView) -> bool {
    ||| rank(action) <= level(phase)
    ||| action is Await && phase is Discovering
    ||| action is Halt && phase is Finished
}

/// Whether the capability is still looked for in `phase`.
spec fn searching(phase: PhaseView) -> bool {
    phase is Connecting || phase == PhaseView::Discovering(AppData { security_manager: None })
}

/// The number of actions is the number of inputs.
proof fn lemma_actions_len(state: BootstrapView, inputs: Seq<Input>)
    ensures
        actions_of(state, inputs).len() == inputs.len(),
    decreases inputs.len(),
{
    if inputs.len() > 0 {
        let (next, action) = transition(state, inputs[0].event, inputs[0].resolved);
        lemma_actions_len(next, inputs.drop_first());
    }
}

/// One step hands out an action above the level of the phase it starts from,
/// and ends in a phase in which only what may follow that action can come.
proof fn lemma_step_rises(state: BootstrapView, event: EventView, resolved: Resolved)
    ensures
        level(state.phase) < rank(transition(state, event, resolved).1),
        follows(transition(state, event, resolved).1, transition(state, event, resolved).0.phase),
{
}

/// Every action from `state` on is above the level of the phase of `state`,
/// and may follow whatever that phase may follow.
proof fn lemma_actions_rise(state: BootstrapView, inputs: Seq<Input>, at: int)
    requires
        0 <= at < inputs.len(),
    ensures
        actions_of(state, inputs).len() == inputs.len(),
        level(state.phase) < rank(actions_of(state, inputs)[at]),
        forall|action: ActionView|
            follows(action, state.phase) ==> in_order(action, actions_of(state, inputs)[at]),
    decreases inputs.len(),
{
    lemma_actions_len(state, inputs);
    let (next, action) = transition(state, inputs[0].event, inputs[0].resolved);
    lemma_step_rises(state, inputs[0].event, inputs[0].resolved);
    lemma_actions_len(next, inputs.drop_first());
    if at > 0 {
        lemma_actions_rise(next, inputs.drop_first(), at - 1);
        assert(actions_of(state, inputs)[at] == actions_of(next, inputs.drop_first())[at - 1]);
    }
}

/// Two actions from `state` on come in order.
proof fn lemma_pairs_in_order(state: BootstrapView, inputs: Seq<Input>, earlier: int, later: int)
    requires
        0 <= earlier < later < inputs.len(),
    ensures
        actions_of(state, inputs).len() == inputs.len(),
        in_order(actions_of(state, inputs)[earlier], actions_of(state, inputs)[later]),
    decreases inputs.len(),
{
    lemma_actions_len(state, inputs);
    let (next, action) = transition(state, inputs[0].event, inputs[0].resolved);
    let rest = inputs.drop_first();
    lemma_actions_len(next, rest);
    assert(actions_of(state, inputs)[later] == actions_of(next, rest)[later - 1]);
    if earlier == 0 {
        lemma_step_rises(state, inputs[0].event, inputs[0].resolved);
        lemma_actions_rise(next, rest, later - 1);
    } else {
        assert(actions_of(state, inputs)[earlier] == actions_of(next, rest)[earlier - 1]);
        lemma_pairs_in_order(next, rest, earlier - 1, later - 1);
    }
}

/// The actions of a run come in one order: the transport is opened, the
/// capability discovered, the path looked at, a stale entry removed, the
/// socket created, bound and put to listen, the handshake enqueued, the
/// transport flushed, the run finished. None of these comes twice, and
/// after the finish there is nothing but halts.
pub proof fn lemma_run_in_order(config: ConfigView, inputs: Seq<Input>, earlier: int, later: int)
    requires
        0 <= earlier < later <= inputs.len(),
    ensures
        run(config, inputs).len() == inputs.len() + 1,
        in_order(run(config, inputs)[earlier], run(config, inputs)[later]),
{
    let state = launched(config);
    lemma_actions_len(state, inputs);
    assert(run(config, inputs)[later] == actions_of(state, inputs)[later - 1]);
    if earlier == 0 {
        lemma_actions_rise(state, inputs, later - 1);
    } else {
        assert(run(config, inputs)[earlier] == actions_of(state, inputs)[earlier - 1]);
        lemma_pairs_in_order(state, inputs, earlier - 1, later - 1);
    }
}

/// Once a run is over, every further event is answered with a halt.
proof fn lemma_finished_halts(state: BootstrapView, inputs: Seq<Input>, at: int)
    requires
        state.phase is Finished,
        0 <= at < inputs.len(),
    ensures
        actions_of(state, inputs).len() == inputs.len(),
        actions_of(state, inputs)[at] is Halt,
    decreases inputs.len(),
{
    lemma_actions_len(state, inputs);
    let (next, action) = transition(state, inputs[0].event, inputs[0].resolved);
    lemma_actions_len(next, inputs.drop_first());
    if at > 0 {
        lemma_finished_halts(next, inputs.drop_first(), at - 1);
        assert(actions_of(state, inputs)[at] == actions_of(next, inputs.drop_first())[at - 1]);
    }
}

/// Once the capability is found, or the run is over, no step reports the
/// capability as unavailable.
proof fn lemma_found_stays_found(state: BootstrapView, inputs: Seq<Input>, at: int)
    requires
        !searching(state.phase),
        0 <= at < inputs.len(),
    ensures
        actions_of(state, inputs).len() == inputs.len(),
        actions_of(state, inputs)[at] != ActionView::Finish(Err(ErrorView::CapabilityUnavailable)),
    decreases inputs.len(),
{
    lemma_actions_len(state, inputs);
    let (next, action) = transition(state, inputs[0].event, inputs[0].resolved);
    lemma_actions_len(next, inputs.drop_first());
    if at > 0 {
        lemma_found_stays_found(next, inputs.drop_first(), at - 1);
        assert(actions_of(state, inputs)[at] == actions_of(next, inputs.drop_first())[at - 1]);
    }
}

/// While the capability is looked for: if some step reports it as
/// unavailable, no step touches the endpoint.
proof fn lemma_searching_touches_nothing(
    state: BootstrapView,
    inputs: Seq<Input>,
    report: int,
    at: int,
)
    requires
        searching(state.phase),
        0 <= report < inputs.len(),
        0 <= at < inputs.len(),
        actions_of(state, inputs)[report] == ActionView::Finish(
            Err(ErrorView::CapabilityUnavailable),
        ),
    ensures
        !touches_endpoint(actions_of(state, inputs)[at]),
    decreases inputs.len(),
{
    lemma_actions_len(state, inputs);
    let (next, action) = transition(state, inputs[0].event, inputs[0].resolved);
    let rest = inputs.drop_first();
    lemma_actions_len(next, rest);
    if at > 0 {
        assert(actions_of(state, inputs)[at] == actions_of(next, rest)[at - 1]);
        if report > 0 {
            assert(actions_of(state, inputs)[report] == actions_of(next, rest)[report - 1]);
            if searching(next.phase) {
                lemma_searching_touches_nothing(next, rest, report - 1, at - 1);
            } else {
                lemma_found_stays_found(next, rest, report - 1);
            }
        } else {
            lemma_finished_halts(next, rest, at - 1);
        }
    }
}

/// Where a run reports the capability as unavailable, it ends in failure
/// and none of its actions looks at, creates or changes the socket or an
/// entry of the filesystem.
pub proof fn lemma_absent_capability_touches_nothing(
    config: ConfigView,
    inputs: Seq<Input>,
    report: int,
    at: int,
)
    requires
        0 <= report <= inputs.len(),
        0 <= at <= inputs.len(),
        run(config, inputs)[report] == ActionView::Finish(Err(ErrorView::CapabilityUnavailable)),
    ensures
        run(config, inputs).len() == inputs.len() + 1,
        !touches_endpoint(run(config, inputs)[at]),
        forall|later: int| report < later <= inputs.len() ==> run(config, inputs)[later] is Halt,
{
    let state = launched(config);
    lemma_actions_len(state, inputs);
    assert(run(config, inputs)[report] == actions_of(state, inputs)[report - 1]);
    if at > 0 {
        assert(run(config, inputs)[at] == actions_of(state, inputs)[at - 1]);
        lemma_searching_touches_nothing(state, inputs, report - 1, at - 1);
    }
    assert forall|later: int| report < later <= inputs.len() implies run(
        config,
        inputs,
    )[later] is Halt by {
        assert(run(config, inputs)[later] == actions_of(state, inputs)[later - 1]);
        lemma_run_in_order(config, inputs, report, later);
    }
}

/// A step keeps the endpoint of a phase in the state that the phase needs.
pub proof fn lemma_transition_keeps_valid(
    state: BootstrapView,
    event: EventView,
    resolved: Resolved,
)
    requires
        valid(state.phase),
    ensures
        valid(transition(state, event, resolved).0.phase),
        transition(state, event, resolved).0.config == state.config,
{
}

/// Where an entry exists at the socket path, it is removed before the
/// socket is created, and the removal is followed by what follows a path
/// with no entry: the creation of the socket, then its binding. Preparing an
/// endpoint on the leftover of an earlier run so goes on as on a fresh path.
pub proof fn lemma_stale_entry_is_removed(
    config: ConfigView,
    capability: CapabilityHandle,
    fd: i32,
    resolved: Resolved,
)
    ensures
        next_phase(
            config,
            PhaseView::Probing(capability),
            EventView::PathProbed { exists: true },
            resolved,
        ) == (PhaseView::Removing(capability), ActionView::RemoveStale),
        next_phase(config, PhaseView::Removing(capability), EventView::Completed, resolved)
            == next_phase(
            config,
            PhaseView::Probing(capability),
            EventView::PathProbed { exists: false },
            resolved,
        ),
        next_phase(config, PhaseView::Removing(capability), EventView::Completed, resolved) == (
            PhaseView::Opening(capability),
            ActionView::OpenSocket,
        ),
        resolved.address is Ok && resolved.backlog is Ok ==> next_phase(
            config,
            PhaseView::Opening(capability),
            EventView::SocketOpened { fd },
            resolved,
        ).1 == ActionView::BindSocket(resolved.address->Ok_0),
{
}

/// The session that a run commits is one that the display server accepts:
/// replaying its requests gives the session itself. It is committed, owns
/// the listening socket it was created from, and carries exactly the
/// metadata of the configuration.
pub proof fn lemma_configured_session_is_accepted(
    capability: CapabilityHandle,
    listen_fd: i32,
    config: ConfigView,
)
    ensures
        replay(capability, configured_session(capability, listen_fd, config).requests) == Some(
            configured_session(capability, listen_fd, config),
        ),
        configured_session(capability, listen_fd, config).state == SessionState::Committed,
        configured_session(capability, listen_fd, config).metadata == config.metadata,
        configured_session(capability, listen_fd, config).endpoint == (EndpointModel {
            fd: listen_fd,
            state: EndpointState::HandedOff,
        }),
        configured_session(capability, listen_fd, config).close_fd == config.close_fd,
        configured_session(capability, listen_fd, config).requests.first() == (
        RequestView::CreateListener { listen_fd, close_fd: config.close_fd }),
        configured_session(capability, listen_fd, config).requests.last() == RequestView::Commit,
{
    let created = SessionModel::created(capability, listen_fd, config.close_fd);
    assert(created.requests.drop_last().len() == 0);
    assert(replay(capability, created.requests) == Some(created));
    let first = match config.metadata.app_id {
        Some(value) => {
            let request = RequestView::Assign { field: MetadataField::AppId, value };
            lemma_apply_extends_replay(created, request);
            created.apply(request)
        },
        None => created,
    };
    let second = match config.metadata.sandbox_engine {
        Some(value) => {
            let request = RequestView::Assign { field: MetadataField::SandboxEngine, value };
            lemma_apply_extends_replay(first, request);
            first.apply(request)
        },
        None => first,
    };
    let third = match config.metadata.instance_id {
        Some(value) => {
            let request = RequestView::Assign { field: MetadataField::InstanceId, value };
            lemma_apply_extends_replay(second, request);
            second.apply(request)
        },
        None => second,
    };
    lemma_apply_extends_replay(third, RequestView::Commit);
    assert(third.apply(RequestView::Commit) == configured_session(capability, listen_fd, config));
    assert(third.requests[0] == created.requests[0]);
}

} // verus!

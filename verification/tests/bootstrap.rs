use nix::sys::socket::{Backlog, UnixAddr};
use secctx_bootstrap::bootstrap::{
    exit_code, handshake, plan_binding, Action, Bootstrap, BootstrapError, Config, Event, Phase,
    TransportStage,
};
use secctx_bootstrap::endpoint::{EndpointStage, EndpointState, ListeningEndpoint};
use secctx_bootstrap::registry::CapabilityHandle;
use secctx_bootstrap::session::{
    CommittedSession, SecurityContextMetadata, SessionRequest, SessionState,
};

fn text(value: &str) -> String {
    value.to_string()
}

fn config(
    path: &[u8],
    app_id: Option<&str>,
    engine: Option<&str>,
    instance: Option<&str>,
) -> Config {
    Config {
        socket_path: path.to_vec(),
        close_fd: 2,
        metadata: SecurityContextMetadata {
            app_id: app_id.map(text),
            sandbox_engine: engine.map(text),
            instance_id: instance.map(text),
        },
    }
}

fn global(name: u32, interface: &str, version: u32) -> Event {
    Event::Global { name, interface: text(interface), version }
}

/// Feeds `events` to a fresh run and gives back the run with every action it
/// handed out, the launch's included.
fn drive(config: Config, events: Vec<Event>) -> (Bootstrap, Vec<Action>) {
    let (mut machine, first) = Bootstrap::launch(config);
    let mut actions = vec![first];
    for event in events {
        let (next, action) = machine.step(event);
        machine = next;
        actions.push(action);
    }
    (machine, actions)
}

fn touches_endpoint(action: &Action) -> bool {
    matches!(
        action,
        Action::ProbePath
            | Action::RemoveStale
            | Action::OpenSocket
            | Action::BindSocket(_)
            | Action::Listen(_)
    )
}

fn handshake_of(action: &Action) -> &CommittedSession {
    match action {
        Action::Handshake(session) => session,
        other => panic!("no handshake: {:?}", other),
    }
}

fn failure_of(action: &Action) -> &BootstrapError {
    match action {
        Action::Finish(Err(error)) => error,
        other => panic!("no failure: {:?}", other),
    }
}

fn up_to_listening(stale: bool) -> Vec<Event> {
    let mut events = vec![
        Event::Completed,
        global(1, "wl_compositor", 6),
        global(2, "wp_security_context_manager_v1", 1),
        global(3, "wl_shm", 2),
        Event::Completed,
        Event::PathProbed { exists: stale },
    ];
    if stale {
        events.push(Event::Completed);
    }
    events.push(Event::SocketOpened { fd: 11 });
    events.push(Event::Completed);
    events.push(Event::Completed);
    events
}

#[test]
fn launch_opens_the_transport_first() {
    let (machine, first) = Bootstrap::launch(config(b"/run/ctx.sock", None, None, None));
    assert!(matches!(first, Action::Connect));
    assert!(matches!(machine.phase(), Phase::Connecting));
    assert!(!machine.is_finished());
    assert_eq!(machine.config().socket_path, b"/run/ctx.sock".to_vec());
    assert_eq!(machine.config().close_fd, 2);
}

#[test]
fn fresh_path_without_metadata_succeeds() {
    let mut events = up_to_listening(false);
    events.push(Event::Completed);
    events.push(Event::Completed);
    let (machine, actions) = drive(config(b"/run/ctx.sock", None, None, None), events);
    assert!(machine.is_finished());
    assert_eq!(actions.len(), 12);
    assert!(matches!(actions[0], Action::Connect));
    assert!(matches!(actions[1], Action::Roundtrip));
    assert!(matches!(actions[2], Action::Await));
    assert!(matches!(
        actions[3],
        Action::BindCapability(CapabilityHandle { name: 2, version: 1 })
    ));
    assert!(matches!(actions[4], Action::Await));
    assert!(matches!(actions[5], Action::ProbePath));
    assert!(matches!(actions[6], Action::OpenSocket));
    assert!(matches!(actions[7], Action::BindSocket(_)));
    assert!(matches!(actions[8], Action::Listen(_)));
    let session = handshake_of(&actions[9]);
    assert_eq!(session.state(), SessionState::Committed);
    assert_eq!(
        session.requests(),
        &vec![
            SessionRequest::CreateListener { listen_fd: 11, close_fd: 2 },
            SessionRequest::Commit,
        ]
    );
    assert_eq!(session.metadata().app_id, None);
    assert_eq!(session.metadata().sandbox_engine, None);
    assert_eq!(session.metadata().instance_id, None);
    assert_eq!(session.capability(), CapabilityHandle { name: 2, version: 1 });
    assert_eq!(session.endpoint().fd(), 11);
    assert_eq!(session.endpoint().state(), EndpointState::HandedOff);
    assert!(matches!(actions[10], Action::Flush));
    match &actions[11] {
        Action::Finish(outcome) => {
            assert_eq!(outcome, &Ok(()));
            assert_eq!(exit_code(outcome), 0);
        },
        other => panic!("no finish: {:?}", other),
    }
}

#[test]
fn stale_path_with_all_metadata_succeeds() {
    let mut events = up_to_listening(true);
    events.push(Event::Completed);
    events.push(Event::Completed);
    let (machine, actions) =
        drive(config(b"/run/ctx.sock", Some("com.example.app"), Some("bwrap"), Some("42")), events);
    assert!(machine.is_finished());
    assert_eq!(actions.len(), 13);
    assert!(matches!(actions[5], Action::ProbePath));
    assert!(matches!(actions[6], Action::RemoveStale));
    assert!(matches!(actions[7], Action::OpenSocket));
    assert!(matches!(actions[8], Action::BindSocket(_)));
    assert!(matches!(actions[9], Action::Listen(_)));
    let session = handshake_of(&actions[10]);
    assert_eq!(session.metadata().app_id, Some(text("com.example.app")));
    assert_eq!(session.metadata().sandbox_engine, Some(text("bwrap")));
    assert_eq!(session.metadata().instance_id, Some(text("42")));
    assert_eq!(
        session.requests(),
        &vec![
            SessionRequest::CreateListener { listen_fd: 11, close_fd: 2 },
            SessionRequest::SetAppId(text("com.example.app")),
            SessionRequest::SetSandboxEngine(text("bwrap")),
            SessionRequest::SetInstanceId(text("42")),
            SessionRequest::Commit,
        ]
    );
    assert!(matches!(actions[11], Action::Flush));
    match &actions[12] {
        Action::Finish(outcome) => assert_eq!(exit_code(outcome), 0),
        other => panic!("no finish: {:?}", other),
    }
}

#[test]
fn absent_capability_fails_and_touches_nothing() {
    let events = vec![
        Event::Completed,
        global(1, "wl_compositor", 6),
        global(2, "wl_shm", 2),
        Event::Completed,
    ];
    let (machine, actions) = drive(config(b"/run/ctx.sock", Some("a"), None, None), events);
    assert!(machine.is_finished());
    assert_eq!(actions.len(), 5);
    assert!(actions.iter().all(|action| !touches_endpoint(action)));
    assert!(actions.iter().all(|action| !matches!(action, Action::Handshake(_) | Action::Flush)));
    match &actions[4] {
        Action::Finish(outcome) => {
            assert_eq!(outcome, &Err(BootstrapError::CapabilityUnavailable));
            assert_eq!(exit_code(outcome), 1);
        },
        other => panic!("no finish: {:?}", other),
    }
    assert_eq!(
        failure_of(&actions[4]).message(),
        "failed to bind to security context manager"
    );
}

#[test]
fn failed_bind_is_an_endpoint_failure_without_handshake() {
    let events = vec![
        Event::Completed,
        global(2, "wp_security_context_manager_v1", 1),
        Event::Completed,
        Event::PathProbed { exists: false },
        Event::SocketOpened { fd: 4 },
        Event::Failed(text("ENOENT: No such file or directory")),
    ];
    let (machine, actions) = drive(config(b"/missing/dir/ctx.sock", None, None, None), events);
    assert!(machine.is_finished());
    assert_eq!(actions.len(), 7);
    assert!(matches!(actions[5], Action::BindSocket(_)));
    assert!(actions.iter().all(|action| !matches!(action, Action::Handshake(_) | Action::Flush)));
    assert!(actions.iter().all(|action| !matches!(action, Action::Listen(_))));
    let error = failure_of(&actions[6]);
    assert_eq!(
        error,
        &BootstrapError::EndpointSetupFailure {
            stage: EndpointStage::Bind,
            detail: text("ENOENT: No such file or directory"),
        }
    );
    assert_eq!(
        error.message(),
        "endpoint setup failed while binding the socket: ENOENT: No such file or directory"
    );
    assert_eq!(exit_code(&Err(error.clone())), 1);
}

#[test]
fn preparing_twice_on_a_leftover_goes_the_same_way_both_times() {
    for _ in 0..2 {
        let (machine, actions) =
            drive(config(b"/run/ctx.sock", None, None, None), up_to_listening(true));
        assert!(matches!(machine.phase(), Phase::Handshaking));
        assert_eq!(actions.len(), 11);
        assert!(matches!(actions[5], Action::ProbePath));
        assert!(matches!(actions[6], Action::RemoveStale));
        assert!(matches!(actions[7], Action::OpenSocket));
        assert!(matches!(actions[8], Action::BindSocket(_)));
        assert!(matches!(actions[9], Action::Listen(_)));
        assert!(matches!(actions[10], Action::Handshake(_)));
    }
}

#[test]
fn socket_is_bound_to_the_address_of_the_path() {
    let (_, actions) = drive(
        config(b"/run/user/1000/ctx.sock", None, None, None),
        up_to_listening(false),
    );
    match &actions[7] {
        Action::BindSocket(address) => {
            assert_eq!(*address, UnixAddr::new(&b"/run/user/1000/ctx.sock"[..]).unwrap());
            assert_eq!(
                address.path().map(|path| path.to_str().unwrap().to_string()),
                Some(text("/run/user/1000/ctx.sock"))
            );
        },
        other => panic!("no bind: {:?}", other),
    }
}

#[test]
fn socket_listens_with_the_fixed_backlog() {
    let (_, actions) = drive(config(b"/run/ctx.sock", None, None, None), up_to_listening(false));
    match &actions[8] {
        Action::Listen(backlog) => {
            assert_eq!(*backlog, Backlog::new(10).unwrap());
            assert_eq!(i32::from(*backlog), 10);
        },
        other => panic!("no listen: {:?}", other),
    }
}

#[test]
fn path_with_a_nul_byte_has_no_address() {
    let events = vec![
        Event::Completed,
        global(2, "wp_security_context_manager_v1", 1),
        Event::Completed,
        Event::PathProbed { exists: false },
        Event::SocketOpened { fd: 4 },
    ];
    let (machine, actions) = drive(config(b"/run/c\0tx.sock", None, None, None), events);
    assert!(machine.is_finished());
    match failure_of(&actions[5]) {
        BootstrapError::EndpointSetupFailure { stage, detail } => {
            assert_eq!(*stage, EndpointStage::Address);
            assert!(detail.contains("EINVAL"));
        },
        other => panic!("another failure: {:?}", other),
    }
}

#[test]
fn overlong_path_has_no_address() {
    let events = vec![
        Event::Completed,
        global(2, "wp_security_context_manager_v1", 1),
        Event::Completed,
        Event::PathProbed { exists: true },
        Event::Completed,
        Event::SocketOpened { fd: 4 },
    ];
    let path = vec![b'a'; 5000];
    let (machine, actions) = drive(config(&path, None, None, None), events);
    assert!(machine.is_finished());
    assert!(matches!(actions[4], Action::RemoveStale));
    assert!(matches!(actions[5], Action::OpenSocket));
    match failure_of(&actions[6]) {
        BootstrapError::EndpointSetupFailure { stage, detail } => {
            assert_eq!(*stage, EndpointStage::Address);
            assert!(detail.contains("ENAMETOOLONG"));
        },
        other => panic!("another failure: {:?}", other),
    }
}

#[test]
fn each_step_fails_under_its_own_name() {
    let cases: Vec<(Vec<Event>, BootstrapError)> = vec![
        (
            vec![],
            BootstrapError::TransportFailure { stage: TransportStage::Connect, detail: text("x") },
        ),
        (
            vec![Event::Completed],
            BootstrapError::TransportFailure {
                stage: TransportStage::Roundtrip,
                detail: text("x"),
            },
        ),
        (
            vec![
                Event::Completed,
                global(2, "wp_security_context_manager_v1", 1),
                Event::Completed,
            ],
            BootstrapError::EndpointSetupFailure { stage: EndpointStage::Probe, detail: text("x") },
        ),
        (
            vec![
                Event::Completed,
                global(2, "wp_security_context_manager_v1", 1),
                Event::Completed,
                Event::PathProbed { exists: true },
            ],
            BootstrapError::EndpointSetupFailure {
                stage: EndpointStage::Unlink,
                detail: text("x"),
            },
        ),
        (
            vec![
                Event::Completed,
                global(2, "wp_security_context_manager_v1", 1),
                Event::Completed,
                Event::PathProbed { exists: false },
            ],
            BootstrapError::EndpointSetupFailure {
                stage: EndpointStage::Socket,
                detail: text("x"),
            },
        ),
        (
            vec![
                Event::Completed,
                global(2, "wp_security_context_manager_v1", 1),
                Event::Completed,
                Event::PathProbed { exists: false },
                Event::SocketOpened { fd: 3 },
            ],
            BootstrapError::EndpointSetupFailure { stage: EndpointStage::Bind, detail: text("x") },
        ),
        (
            vec![
                Event::Completed,
                global(2, "wp_security_context_manager_v1", 1),
                Event::Completed,
                Event::PathProbed { exists: false },
                Event::SocketOpened { fd: 3 },
                Event::Completed,
            ],
            BootstrapError::EndpointSetupFailure {
                stage: EndpointStage::Listen,
                detail: text("x"),
            },
        ),
        (
            up_to_listening(false),
            BootstrapError::TransportFailure {
                stage: TransportStage::Handshake,
                detail: text("x"),
            },
        ),
        (
            {
                let mut events = up_to_listening(false);
                events.push(Event::Completed);
                events
            },
            BootstrapError::TransportFailure { stage: TransportStage::Flush, detail: text("x") },
        ),
    ];
    for (mut events, expected) in cases {
        events.push(Event::Failed(text("x")));
        let (machine, actions) = drive(config(b"/run/ctx.sock", None, None, None), events);
        assert!(machine.is_finished());
        assert_eq!(failure_of(actions.last().unwrap()), &expected);
    }
}

#[test]
fn an_event_that_answers_no_pending_action_fails_the_action() {
    let (machine, actions) =
        drive(config(b"/run/ctx.sock", None, None, None), vec![Event::SocketOpened { fd: 3 }]);
    assert!(machine.is_finished());
    assert_eq!(
        failure_of(&actions[1]),
        &BootstrapError::TransportFailure { stage: TransportStage::Connect, detail: text("") }
    );
    let (machine, actions) = drive(
        config(b"/run/ctx.sock", None, None, None),
        vec![
            Event::Completed,
            global(2, "wp_security_context_manager_v1", 1),
            Event::Completed,
            Event::Completed,
        ],
    );
    assert!(machine.is_finished());
    assert_eq!(
        failure_of(&actions[4]),
        &BootstrapError::EndpointSetupFailure { stage: EndpointStage::Probe, detail: text("") }
    );
}

#[test]
fn a_finished_run_only_halts() {
    let events = vec![
        Event::Failed(text("refused")),
        Event::Completed,
        Event::SocketOpened { fd: 3 },
        Event::Failed(text("again")),
    ];
    let (machine, actions) = drive(config(b"/run/ctx.sock", None, None, None), events);
    assert!(machine.is_finished());
    assert!(matches!(actions[1], Action::Finish(Err(_))));
    assert!(matches!(actions[2], Action::Halt));
    assert!(matches!(actions[3], Action::Halt));
    assert!(matches!(actions[4], Action::Halt));
}

#[test]
fn later_advertisement_of_the_capability_is_passed_over() {
    let events = vec![
        Event::Completed,
        global(2, "wp_security_context_manager_v1", 4),
        global(5, "wp_security_context_manager_v1", 1),
        Event::Completed,
    ];
    let (machine, actions) = drive(config(b"/run/ctx.sock", None, None, None), events);
    assert!(matches!(
        actions[2],
        Action::BindCapability(CapabilityHandle { name: 2, version: 1 })
    ));
    assert!(matches!(actions[3], Action::Await));
    assert!(matches!(actions[4], Action::ProbePath));
    assert!(matches!(machine.phase(), Phase::Probing(CapabilityHandle { name: 2, version: 1 })));
}

#[test]
fn selected_fields_are_set_in_a_fixed_order() {
    let (_, actions) = drive(
        config(b"/run/ctx.sock", None, Some("bwrap"), Some("7")),
        up_to_listening(false),
    );
    let session = handshake_of(actions.last().unwrap());
    assert_eq!(
        session.requests(),
        &vec![
            SessionRequest::CreateListener { listen_fd: 11, close_fd: 2 },
            SessionRequest::SetSandboxEngine(text("bwrap")),
            SessionRequest::SetInstanceId(text("7")),
            SessionRequest::Commit,
        ]
    );
    assert_eq!(session.metadata().app_id, None);
}

#[test]
fn diagnostics_name_the_step_and_the_reason() {
    assert_eq!(
        BootstrapError::CapabilityUnavailable.message(),
        "failed to bind to security context manager"
    );
    let endpoint = |stage| BootstrapError::EndpointSetupFailure { stage, detail: text("why") };
    assert_eq!(
        endpoint(EndpointStage::Probe).message(),
        "endpoint setup failed while probing the socket path: why"
    );
    assert_eq!(
        endpoint(EndpointStage::Unlink).message(),
        "endpoint setup failed while removing the stale socket: why"
    );
    assert_eq!(
        endpoint(EndpointStage::Socket).message(),
        "endpoint setup failed while creating the socket: why"
    );
    assert_eq!(
        endpoint(EndpointStage::Address).message(),
        "endpoint setup failed while forming the socket address: why"
    );
    assert_eq!(
        endpoint(EndpointStage::Backlog).message(),
        "endpoint setup failed while forming the listen backlog: why"
    );
    assert_eq!(
        endpoint(EndpointStage::Bind).message(),
        "endpoint setup failed while binding the socket: why"
    );
    assert_eq!(
        endpoint(EndpointStage::Listen).message(),
        "endpoint setup failed while listening on the socket: why"
    );
    let transport = |stage| BootstrapError::TransportFailure { stage, detail: text("why") };
    assert_eq!(
        transport(TransportStage::Connect).message(),
        "transport failed while connecting to the display server: why"
    );
    assert_eq!(
        transport(TransportStage::Roundtrip).message(),
        "transport failed while discovering the globals: why"
    );
    assert_eq!(
        transport(TransportStage::Handshake).message(),
        "transport failed while enqueueing the handshake: why"
    );
    assert_eq!(
        transport(TransportStage::Flush).message(),
        "transport failed while flushing the connection: why"
    );
}

#[test]
fn exit_code_is_zero_only_for_success() {
    assert_eq!(exit_code(&Ok(())), 0);
    assert_eq!(exit_code(&Err(BootstrapError::CapabilityUnavailable)), 1);
    assert_eq!(
        exit_code(&Err(BootstrapError::TransportFailure {
            stage: TransportStage::Flush,
            detail: text("broken pipe"),
        })),
        1
    );
    assert_eq!(
        exit_code(&Err(BootstrapError::EndpointSetupFailure {
            stage: EndpointStage::Listen,
            detail: text(""),
        })),
        1
    );
}

#[test]
fn binding_is_planned_from_address_and_backlog() {
    let capability = CapabilityHandle { name: 2, version: 1 };
    let address = UnixAddr::new(&b"/run/ctx.sock"[..]).unwrap();
    let backlog = Backlog::new(10).unwrap();
    let (phase, action) = plan_binding(capability, 6, Ok(address), Ok(backlog));
    match (&phase, &action) {
        (
            Phase::Binding { capability: kept, endpoint, backlog: later },
            Action::BindSocket(now),
        ) => {
            assert_eq!(*kept, capability);
            assert_eq!(endpoint.fd(), 6);
            assert_eq!(endpoint.state(), EndpointState::Created);
            assert_eq!(*later, backlog);
            assert_eq!(*now, address);
        },
        other => panic!("no binding: {:?}", other),
    }
}

#[test]
fn binding_fails_without_an_address_or_a_backlog() {
    let capability = CapabilityHandle { name: 2, version: 1 };
    let address = UnixAddr::new(&b"/run/ctx.sock"[..]).unwrap();
    let backlog = Backlog::new(10).unwrap();
    let (phase, action) = plan_binding(capability, 6, Err(text("no address")), Ok(backlog));
    assert!(matches!(phase, Phase::Finished));
    assert_eq!(
        failure_of(&action),
        &BootstrapError::EndpointSetupFailure {
            stage: EndpointStage::Address,
            detail: text("no address"),
        }
    );
    let (phase, action) = plan_binding(capability, 6, Ok(address), Err(text("no backlog")));
    assert!(matches!(phase, Phase::Finished));
    assert_eq!(
        failure_of(&action),
        &BootstrapError::EndpointSetupFailure {
            stage: EndpointStage::Backlog,
            detail: text("no backlog"),
        }
    );
    let (phase, action) =
        plan_binding(capability, 6, Err(text("no address")), Err(text("no backlog")));
    assert!(matches!(phase, Phase::Finished));
    assert_eq!(
        failure_of(&action),
        &BootstrapError::EndpointSetupFailure {
            stage: EndpointStage::Address,
            detail: text("no address"),
        }
    );
}

#[test]
fn handshake_assigns_what_the_configuration_holds() {
    let capability = CapabilityHandle { name: 2, version: 1 };
    let endpoint = ListeningEndpoint::created(8).bound().listening();
    let asked = config(b"/run/ctx.sock", Some("org.example.Viewer"), None, Some("instance-3"));
    let committed = handshake(capability, endpoint, &asked);
    assert_eq!(committed.state(), SessionState::Committed);
    assert_eq!(committed.capability(), capability);
    assert_eq!(committed.close_fd(), 2);
    assert_eq!(committed.endpoint().fd(), 8);
    assert_eq!(committed.endpoint().state(), EndpointState::HandedOff);
    assert_eq!(committed.metadata().app_id, Some(text("org.example.Viewer")));
    assert_eq!(committed.metadata().sandbox_engine, None);
    assert_eq!(committed.metadata().instance_id, Some(text("instance-3")));
    assert_eq!(
        committed.requests(),
        &vec![
            SessionRequest::CreateListener { listen_fd: 8, close_fd: 2 },
            SessionRequest::SetAppId(text("org.example.Viewer")),
            SessionRequest::SetInstanceId(text("instance-3")),
            SessionRequest::Commit,
        ]
    );
}

#[test]
fn a_failure_after_binding_leaves_the_socket_file_alone() {
    let events = vec![
        Event::Completed,
        global(2, "wp_security_context_manager_v1", 1),
        Event::Completed,
        Event::PathProbed { exists: true },
        Event::Completed,
        Event::SocketOpened { fd: 4 },
        Event::Completed,
        Event::Failed(text("EOPNOTSUPP: Operation not supported on socket")),
        Event::Completed,
    ];
    let (machine, actions) = drive(config(b"/run/ctx.sock", None, None, None), events);
    assert!(machine.is_finished());
    assert_eq!(actions.len(), 10);
    assert!(matches!(actions[4], Action::RemoveStale));
    assert!(matches!(actions[6], Action::BindSocket(_)));
    assert!(matches!(actions[7], Action::Listen(_)));
    assert_eq!(
        failure_of(&actions[8]),
        &BootstrapError::EndpointSetupFailure {
            stage: EndpointStage::Listen,
            detail: text("EOPNOTSUPP: Operation not supported on socket"),
        }
    );
    assert!(matches!(actions[9], Action::Halt));
    let removals = actions.iter().filter(|action| matches!(action, Action::RemoveStale)).count();
    assert_eq!(removals, 1);
}

#[test]
fn an_address_in_use_is_surfaced() {
    let events = vec![
        Event::Completed,
        global(2, "wp_security_context_manager_v1", 1),
        Event::Completed,
        Event::PathProbed { exists: true },
        Event::Completed,
        Event::SocketOpened { fd: 4 },
        Event::Failed(text("EADDRINUSE: Address already in use")),
    ];
    let (machine, actions) = drive(config(b"/run/ctx.sock", None, None, None), events);
    assert!(machine.is_finished());
    let error = failure_of(actions.last().unwrap());
    assert_eq!(
        error.message(),
        "endpoint setup failed while binding the socket: EADDRINUSE: Address already in use"
    );
    assert_eq!(exit_code(&Err(error.clone())), 1);
}

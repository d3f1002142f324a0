use cargo_docserve::coordinator::{
    Action, Coordinator, Event, FatalError, Phase, EXIT_FAILURE, EXIT_OK, GRACE_PERIOD_MS,
};
use cargo_docserve::doc::{generate, DocMode, DocRequest, Packages};
use cargo_docserve::http::{Method, Request, Status};
use cargo_docserve::run;
use cargo_docserve::server::{
    start, BindAddress, BindError, BindOutcome, Lifecycle, ServerConfig,
};
use cargo_docserve::service::{FsService, Reply};
use cargo_docserve::units::{DocumentableUnit, TargetKind};
use cargo_docserve::DocserveOptions;

fn config(name: &str) -> ServerConfig {
    ServerConfig {
        doc_dir: String::from("target/doc"),
        targets: vec![DocumentableUnit::new(name, TargetKind::Lib)],
        addr: BindAddress::default_local(),
    }
}

fn options(watch: bool) -> DocserveOptions {
    DocserveOptions {
        mode: DocMode { deps: true },
        packages: Packages::Default,
        watch,
        addr: BindAddress::default_local(),
    }
}

fn shutdown() -> Action {
    Action::Shutdown { grace_ms: GRACE_PERIOD_MS }
}

#[test]
fn a_run_starts_with_the_initial_build() {
    let (coordinator, action) = Coordinator::new(true);
    assert_eq!(action, Action::Build);
    assert_eq!(coordinator.phase(), Phase::Building);
    assert!(coordinator.watching());
    assert!(coordinator.staged().is_none());
    assert!(coordinator.handle().is_none());
    assert_eq!(coordinator.failure(), None);
}

#[test]
fn single_shot_serves_until_the_server_ends() {
    let (end, actions) = run(
        &options(false),
        vec![Event::BuildSucceeded(config("core")), Event::Bound],
    );
    assert_eq!(actions, vec![Action::Build, Action::Start, Action::AwaitExit]);
    assert_eq!(end.phase(), Phase::Serving);
    assert_eq!(end.handle().unwrap().state(), Lifecycle::Running);
    assert_eq!(end.handle().unwrap().config(), &config("core"));

    let (end, action) = end.step(Event::Changed);
    assert_eq!(action, Action::Ignore);
    assert_eq!(end.phase(), Phase::Serving);

    let (end, action) = end.step(Event::Drained);
    assert_eq!(action, Action::Exit { code: EXIT_OK });
    assert_eq!(EXIT_OK, 0);
    assert_eq!(end.phase(), Phase::Finished);
    assert!(end.handle().is_none());

    let (end, action) = end.step(Event::Changed);
    assert_eq!(action, Action::Exit { code: 0 });
    assert_eq!(end.phase(), Phase::Finished);
}

#[test]
fn initial_build_failure_is_fatal() {
    let (end, actions) = run(&options(true), vec![Event::BuildFailed]);
    assert_eq!(actions, vec![Action::Build, Action::Exit { code: EXIT_FAILURE }]);
    assert_eq!(EXIT_FAILURE, 1);
    assert_eq!(end.phase(), Phase::Failed);
    assert_eq!(end.failure(), Some(FatalError::InitialBuild));
    assert!(end.handle().is_none());
}

#[test]
fn bind_failure_is_fatal() {
    let (end, actions) = run(
        &options(true),
        vec![
            Event::BuildSucceeded(config("core")),
            Event::BindFailed(BindError::AddressInUse),
        ],
    );
    assert_eq!(
        actions,
        vec![Action::Build, Action::Start, Action::Exit { code: 1 }]
    );
    assert_eq!(end.failure(), Some(FatalError::Bind(BindError::AddressInUse)));
}

#[test]
fn watcher_failure_is_fatal_in_every_phase() {
    let prefixes: Vec<Vec<Event>> = vec![
        vec![],
        vec![Event::BuildSucceeded(config("core"))],
        vec![Event::BuildSucceeded(config("core")), Event::Bound],
        vec![Event::BuildSucceeded(config("core")), Event::Bound, Event::Changed],
    ];
    for mut events in prefixes {
        events.push(Event::WatcherFailed);
        let (end, actions) = run(&options(true), events);
        assert_eq!(actions.last(), Some(&Action::Exit { code: 1 }));
        assert_eq!(end.phase(), Phase::Failed);
        assert_eq!(end.failure(), Some(FatalError::Watcher));
    }
}

#[test]
fn failed_state_absorbs_every_event() {
    let (end, _) = run(&options(true), vec![Event::BuildFailed]);
    let (end, action) = end.step(Event::BuildSucceeded(config("core")));
    assert_eq!(action, Action::Exit { code: 1 });
    let (end, action) = end.step(Event::Bound);
    assert_eq!(action, Action::Exit { code: 1 });
    assert_eq!(end.phase(), Phase::Failed);
    assert_eq!(end.failure(), Some(FatalError::InitialBuild));
}

#[test]
fn a_change_stops_rebuilds_and_restarts_with_the_fresh_config() {
    let (end, actions) = run(
        &options(true),
        vec![
            Event::BuildSucceeded(config("old")),
            Event::Bound,
            Event::Changed,
            Event::Drained,
            Event::BuildSucceeded(config("new")),
            Event::Bound,
        ],
    );
    assert_eq!(
        actions,
        vec![
            Action::Build,
            Action::Start,
            Action::AwaitChange,
            shutdown(),
            Action::Build,
            Action::Start,
            Action::AwaitChange,
        ]
    );
    assert_eq!(GRACE_PERIOD_MS, 5000);
    assert_eq!(end.phase(), Phase::Serving);
    assert_eq!(end.handle().unwrap().config(), &config("new"));
    assert_eq!(end.handle().unwrap().state(), Lifecycle::Running);
}

#[test]
fn phases_and_handle_states_along_a_cycle() {
    let (c, _) = Coordinator::new(true);
    let (c, _) = c.step(Event::BuildSucceeded(config("core")));
    assert_eq!(c.phase(), Phase::Starting);
    assert_eq!(c.staged(), Some(&config("core")));
    assert!(c.handle().is_none());
    let (c, _) = c.step(Event::Bound);
    assert_eq!(c.phase(), Phase::Serving);
    assert!(c.staged().is_none());
    let (c, _) = c.step(Event::Changed);
    assert_eq!(c.phase(), Phase::Stopping);
    assert_eq!(c.handle().unwrap().state(), Lifecycle::Draining);
    let (c, action) = c.step(Event::Bound);
    assert_eq!(action, Action::Ignore);
    assert_eq!(c.phase(), Phase::Stopping);
    let (c, action) = c.step(Event::DrainTimedOut);
    assert_eq!(action, Action::Build);
    assert_eq!(c.phase(), Phase::Building);
    assert!(c.handle().is_none());
    assert_eq!(c.staged(), Some(&config("core")));
}

#[test]
fn a_failed_rebuild_keeps_serving_the_last_good_build() {
    let (end, actions) = run(
        &options(true),
        vec![
            Event::BuildSucceeded(config("good")),
            Event::Bound,
            Event::Changed,
            Event::Drained,
            Event::BuildFailed,
            Event::Bound,
        ],
    );
    assert_eq!(
        actions,
        vec![
            Action::Build,
            Action::Start,
            Action::AwaitChange,
            shutdown(),
            Action::Build,
            Action::Start,
            Action::AwaitChange,
        ]
    );
    assert_eq!(end.phase(), Phase::Serving);
    assert_eq!(end.failure(), None);
    let handle = end.handle().unwrap();
    assert_eq!(handle.state(), Lifecycle::Running);
    assert_eq!(handle.config(), &config("good"));

    let service = FsService::new(handle.config().clone());
    match service.call(&Request::new(Method::Get, "/")) {
        Reply::Done(response) => assert_eq!(response.status, Status::Success),
        Reply::Lookup(path) => panic!("looked up {}", path),
    }
}

#[test]
fn changes_during_a_rebuild_lead_to_one_more_cycle() {
    let (end, actions) = run(
        &options(true),
        vec![
            Event::BuildSucceeded(config("a")),
            Event::Bound,
            Event::Changed,
            Event::Drained,
            Event::Changed,
            Event::Changed,
            Event::BuildSucceeded(config("b")),
            Event::Changed,
            Event::Bound,
            Event::Drained,
            Event::BuildSucceeded(config("c")),
            Event::Bound,
        ],
    );
    assert_eq!(
        actions,
        vec![
            Action::Build,
            Action::Start,
            Action::AwaitChange,
            shutdown(),
            Action::Build,
            Action::Ignore,
            Action::Ignore,
            Action::Start,
            Action::Ignore,
            shutdown(),
            Action::Build,
            Action::Start,
            Action::AwaitChange,
        ]
    );
    assert_eq!(end.phase(), Phase::Serving);
    assert_eq!(end.handle().unwrap().config(), &config("c"));
    assert_eq!(actions.iter().filter(|a| **a == Action::Build).count(), 3);
}

#[test]
fn events_nobody_waits_for_change_nothing() {
    let (c, _) = Coordinator::new(true);
    for event in [Event::Bound, Event::Drained, Event::DrainTimedOut] {
        let (next, action) = Coordinator::new(true).0.step(event);
        assert_eq!(action, Action::Ignore);
        assert_eq!(next.phase(), Phase::Building);
    }
    let (c, _) = c.step(Event::BuildSucceeded(config("core")));
    let (c, action) = c.step(Event::BuildFailed);
    assert_eq!(action, Action::Ignore);
    let (c, _) = c.step(Event::Bound);
    let (c, action) = c.step(Event::BuildSucceeded(config("other")));
    assert_eq!(action, Action::Ignore);
    let (c, action) = c.step(Event::Drained);
    assert_eq!(action, Action::Ignore);
    assert_eq!(c.phase(), Phase::Serving);
    assert_eq!(c.handle().unwrap().config(), &config("core"));
}

#[test]
fn start_gives_a_running_handle_or_the_bind_error() {
    let handle = start(config("core"), BindOutcome::Bound).unwrap();
    assert_eq!(handle.state(), Lifecycle::Running);
    assert_eq!(handle.config(), &config("core"));
    assert_eq!(
        start(config("core"), BindOutcome::AddressInUse).unwrap_err(),
        BindError::AddressInUse
    );
    assert_eq!(
        start(config("core"), BindOutcome::Unavailable).unwrap_err(),
        BindError::Unavailable
    );
}

#[test]
fn a_handle_goes_from_running_over_draining_to_stopped() {
    let mut handle = start(config("core"), BindOutcome::Bound).unwrap();
    handle.shutdown();
    assert_eq!(handle.state(), Lifecycle::Draining);
    handle.shutdown();
    assert_eq!(handle.state(), Lifecycle::Draining);
    handle.stop();
    assert_eq!(handle.state(), Lifecycle::Stopped);
    handle.shutdown();
    assert_eq!(handle.state(), Lifecycle::Stopped);
    assert_eq!(handle.into_config(), config("core"));
}

#[test]
fn default_address_is_local_port_8000() {
    let addr = BindAddress::default_local();
    assert_eq!((addr.ip.a, addr.ip.b, addr.ip.c, addr.ip.d), (127, 0, 0, 1));
    assert_eq!(addr.port, 8000);
}

#[test]
fn generate_never_opens_a_browser() {
    let request = generate(
        DocMode { deps: false },
        Packages::Packages(vec![String::from("core")]),
    );
    assert_eq!(
        request,
        DocRequest {
            mode: DocMode { deps: false },
            packages: Packages::Packages(vec![String::from("core")]),
            open_result: false,
        }
    );
    assert!(!generate(DocMode { deps: true }, Packages::All).open_result);
}

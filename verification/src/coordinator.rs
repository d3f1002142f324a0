//! The coordinator: what to do next, given what just happened.
//!
//! The program around this library performs each `Action` and reports how it
//! ended as an `Event`. The coordinator never blocks and never touches a
//! socket or a file: it is the transition function of the build, serve,
//! stop, rebuild cycle.
//!
//! A change that is reported while a build runs or while the new instance is
//! being started is not dropped: it is remembered, and the instance that
//! comes up is stopped again at once for one more rebuild. However many
//! changes arrive in that time, they lead to one further cycle.

use crate::server::{start, BindError, BindOutcome, HandleView, Lifecycle, ServerConfig,
    ServerConfigView, ServerHandle};
use vstd::prelude::*;

verus! {

/// How long a stopping instance may take to finish its requests before the
/// rest are cut off, in milliseconds.
pub const GRACE_PERIOD_MS: u64 = 5000;

/// Exit code of a run that ended without a fault.
pub const EXIT_OK: i32 = 0;

/// Exit code of a run that ended on a fatal condition.
pub const EXIT_FAILURE: i32 = 1;

#[derive(Clone, Copy, Debug, PartialEq, Eq, Structural)]
pub enum Phase {
    /// A build is running; nothing listens.
    Building,
    /// A build is done and a listener is being bound.
    Starting,
    /// An instance is running.
    Serving,
    /// The instance was told to stop and is finishing its requests.
    Stopping,
    /// A run without watching ended cleanly.
    Finished,
    /// A fatal condition ended the run.
    Failed,
}

/// The conditions that end the run.
#[derive(Clone, Copy, Debug, PartialEq, Eq, Structural)]
pub enum FatalError {
    /// The first build failed: there is nothing to serve.
    InitialBuild,
    /// No listener could be bound.
    Bind(BindError),
    /// The file watcher failed.
    Watcher,
}

/// What the program reports back to the coordinator.
#[derive(Debug)]
pub enum Event {
    /// The build succeeded; this is what the next instance serves.
    BuildSucceeded(ServerConfig),
    BuildFailed,
    /// The listener was bound and the instance runs.
    Bound,
    BindFailed(BindError),
    /// Files under the watched tree changed.
    Changed,
    WatcherFailed,
    /// The instance ended with no request left in flight.
    Drained,
    /// The grace period ran out and the instance was closed by force.
    DrainTimedOut,
}

pub enum EventView {
    BuildSucceeded(ServerConfigView),
    BuildFailed,
    Bound,
    BindFailed(BindError),
    Changed,
    WatcherFailed,
    Drained,
    DrainTimedOut,
}

impl View for Event {
    type V = EventView;

    open spec fn view(&self) -> EventView {
        match self {
            Event::BuildSucceeded(config) => EventView::BuildSucceeded(config@),
            Event::BuildFailed => EventView::BuildFailed,
            Event::Bound => EventView::Bound,
            Event::BindFailed(error) => EventView::BindFailed(*error),
            Event::Changed => EventView::Changed,
            Event::WatcherFailed => EventView::WatcherFailed,
            Event::Drained => EventView::Drained,
            Event::DrainTimedOut => EventView::DrainTimedOut,
        }
    }
}

/// What the program is to do next.
#[derive(Clone, Copy, Debug, PartialEq, Eq, Structural)]
pub enum Action {
    /// Build the documentation, then report `BuildSucceeded` or `BuildFailed`.
    Build,
    /// Bind a listener for the staged configuration and run an instance on
    /// it, then report `Bound` or `BindFailed`.
    Start,
    /// Wait for the next change, then report `Changed` or `WatcherFailed`.
    AwaitChange,
    /// Wait until the instance ends, then report `Drained`.
    AwaitExit,
    /// Signal the instance to stop and wait for it, at most `grace_ms`
    /// milliseconds; past that close it by force. Then report `Drained` or
    /// `DrainTimedOut`.
    Shutdown { grace_ms: u64 },
    /// Leave the process with this exit code.
    Exit { code: i32 },
    /// The event changes nothing: go on with what was being done.
    Ignore,
}

pub struct CoordinatorView {
    pub watch: bool,
    pub phase: Phase,
    /// The configuration of the instance to start next. While a rebuild
    /// runs, this is what the stopped instance served.
    pub staged: Option<ServerConfigView>,
    /// The one instance that may hold the port.
    pub handle: Option<HandleView>,
    /// Whether a change arrived that no build has covered yet.
    pub pending: bool,
    pub failure: Option<FatalError>,
    /// Every instance of earlier cycles, oldest first.
    pub retired: Seq<HandleView>,
}

impl CoordinatorView {
    pub open spec fn initial(watch: bool) -> CoordinatorView {
        CoordinatorView {
            watch,
            phase: Phase::Building,
            staged: None,
            handle: None,
            pending: false,
            failure: None,
            retired: Seq::empty(),
        }
    }

    /// Every instance there has ever been, the current one last.
    pub open spec fn handles(self) -> Seq<HandleView> {
        match self.handle {
            Some(handle) => self.retired.push(handle),
            None => self.retired,
        }
    }

    /// Whether no instance holds the port.
    pub open spec fn all_stopped(self) -> bool {
        forall|i: int| 0 <= i < self.handles().len() ==> !(#[trigger] self.handles()[i]).state.is_live()
    }

    /// The fields agree with the phase, and every instance of an earlier
    /// cycle is stopped.
    pub open spec fn wf(self) -> bool {
        &&& forall|i: int| 0 <= i < self.retired.len() ==> (#[trigger] self.retired[i]).state
            == Lifecycle::Stopped
        &&& self.pending ==> self.watch
        &&& (self.failure is Some <==> self.phase == Phase::Failed)
        &&& match self.phase {
            Phase::Building => self.handle is None && (self.staged is Some <==> self.retired.len()
                > 0),
            Phase::Starting => self.handle is None && self.staged is Some,
            Phase::Serving => {
                &&& !self.pending
                &&& self.staged is None
                &&& self.handle matches Some(h)
                &&& h.state == Lifecycle::Running
            },
            Phase::Stopping => {
                &&& !self.pending
                &&& self.staged is None
                &&& self.watch
                &&& self.handle matches Some(h)
                &&& h.state == Lifecycle::Draining
            },
            Phase::Finished => self.handle is None && !self.watch,
            Phase::Failed => true,
        }
    }

    pub open spec fn fail(self, why: FatalError) -> (CoordinatorView, Action) {
        (
            CoordinatorView { phase: Phase::Failed, failure: Some(why), ..self },
            Action::Exit { code: EXIT_FAILURE },
        )
    }

    /// A change that the running build may have missed: remembered when
    /// watching, so that one more rebuild follows.
    pub open spec fn note_change(self) -> (CoordinatorView, Action) {
        (CoordinatorView { pending: self.pending || self.watch, ..self }, Action::Ignore)
    }

    pub open spec fn next_building(self, event: EventView) -> (CoordinatorView, Action) {
        match event {
            EventView::BuildSucceeded(config) => (
                CoordinatorView { phase: Phase::Starting, staged: Some(config), ..self },
                Action::Start,
            ),
            EventView::BuildFailed => if self.staged is Some {
                (CoordinatorView { phase: Phase::Starting, ..self }, Action::Start)
            } else {
                self.fail(FatalError::InitialBuild)
            },
            EventView::Changed => self.note_change(),
            _ => (self, Action::Ignore),
        }
    }

    pub open spec fn next_starting(self, event: EventView) -> (CoordinatorView, Action) {
        match event {
            EventView::Bound => match self.staged {
                Some(config) => {
                    let running = HandleView { config, state: Lifecycle::Running };
                    if self.watch && self.pending {
                        (
                            CoordinatorView {
                                phase: Phase::Stopping,
                                staged: None,
                                handle: Some(running.after_shutdown()),
                                pending: false,
                                ..self
                            },
                            Action::Shutdown { grace_ms: GRACE_PERIOD_MS },
                        )
                    } else {
                        (
                            CoordinatorView {
                                phase: Phase::Serving,
                                staged: None,
                                handle: Some(running),
                                ..self
                            },
                            if self.watch {
                                Action::AwaitChange
                            } else {
                                Action::AwaitExit
                            },
                        )
                    }
                },
                None => (self, Action::Ignore),
            },
            EventView::BindFailed(error) => self.fail(FatalError::Bind(error)),
            EventView::Changed => self.note_change(),
            _ => (self, Action::Ignore),
        }
    }

    pub open spec fn next_serving(self, event: EventView) -> (CoordinatorView, Action) {
        match (event, self.handle) {
            (EventView::Changed, Some(handle)) => if self.watch {
                (
                    CoordinatorView {
                        phase: Phase::Stopping,
                        handle: Some(handle.after_shutdown()),
                        ..self
                    },
                    Action::Shutdown { grace_ms: GRACE_PERIOD_MS },
                )
            } else {
                (self, Action::Ignore)
            },
            (EventView::Drained, Some(handle)) => if !self.watch {
                (
                    CoordinatorView {
                        phase: Phase::Finished,
                        handle: None,
                        retired: self.retired.push(handle.after_stop()),
                        ..self
                    },
                    Action::Exit { code: EXIT_OK },
                )
            } else {
                (self, Action::Ignore)
            },
            _ => (self, Action::Ignore),
        }
    }

    pub open spec fn next_stopping(self, event: EventView) -> (CoordinatorView, Action) {
        match (event, self.handle) {
            (EventView::Drained, Some(handle)) | (EventView::DrainTimedOut, Some(handle)) => (
                CoordinatorView {
                    phase: Phase::Building,
                    staged: Some(handle.config),
                    handle: None,
                    retired: self.retired.push(handle.after_stop()),
                    ..self
                },
                Action::Build,
            ),
            _ => (self, Action::Ignore),
        }
    }

    /// The state after `event`, and what to do next.
    ///
    /// A finished or failed run stays as it is and asks to exit. A watcher
    /// failure is fatal in every other phase. An event that the phase does
    /// not wait for changes nothing.
    pub open spec fn next(self, event: EventView) -> (CoordinatorView, Action) {
        match self.phase {
            Phase::Failed => (self, Action::Exit { code: EXIT_FAILURE }),
            Phase::Finished => (self, Action::Exit { code: EXIT_OK }),
            _ => if event is WatcherFailed {
                self.fail(FatalError::Watcher)
            } else {
                match self.phase {
                    Phase::Building => self.next_building(event),
                    Phase::Starting => self.next_starting(event),
                    Phase::Serving => self.next_serving(event),
                    _ => self.next_stopping(event),
                }
            },
        }
    }
}

impl CoordinatorView {
    /// The state after a sequence of events, and the action that answered
    /// each of them.
    pub open spec fn run(self, events: Seq<EventView>) -> (CoordinatorView, Seq<Action>)
        decreases events.len(),
    {
        if events.len() == 0 {
            (self, Seq::empty())
        } else {
            let (before, actions) = self.run(events.drop_last());
            let (after, action) = before.next(events.last());
            (after, actions.push(action))
        }
    }
}

/// The views of a list of events, in order.
pub open spec fn event_views(events: Seq<Event>) -> Seq<EventView> {
    events.map_values(|e: Event| e@)
}

/// The state of the coordinator. It holds the one server handle there is:
/// nothing else keeps one.
pub struct Coordinator {
    watch: bool,
    phase: Phase,
    staged: Option<ServerConfig>,
    handle: Option<ServerHandle>,
    pending: bool,
    failure: Option<FatalError>,
    retired: Ghost<Seq<HandleView>>,
}

impl View for Coordinator {
    type V = CoordinatorView;

    closed spec fn view(&self) -> CoordinatorView {
        CoordinatorView {
            watch: self.watch,
            phase: self.phase,
            staged: match self.staged {
                Some(config) => Some(config@),
                None => None,
            },
            handle: match self.handle {
                Some(handle) => Some(handle@),
                None => None,
            },
            pending: self.pending,
            failure: self.failure,
            retired: self.retired@,
        }
    }
}

impl Coordinator {
    /// A coordinator at the start of a run, and its first action: the
    /// initial build.
    pub fn new(watch: bool) -> (made: (Coordinator, Action))
        ensures
            made.0@ == CoordinatorView::initial(watch),
            made.0@.wf(),
            made.1 == Action::Build,
    {
        (
            Coordinator {
                watch,
                phase: Phase::Building,
                staged: None,
                handle: None,
                pending: false,
                failure: None,
                retired: Ghost(Seq::empty()),
            },
            Action::Build,
        )
    }

    pub fn phase(&self) -> (phase: Phase)
        ensures
            phase == self@.phase,
    {
        self.phase
    }

    pub fn watching(&self) -> (watch: bool)
        ensures
            watch == self@.watch,
    {
        self.watch
    }

    /// Why the run failed, once it has.
    pub fn failure(&self) -> (failure: Option<FatalError>)
        ensures
            failure == self@.failure,
    {
        self.failure
    }

    /// The configuration that `Action::Start` is to bring up.
    pub fn staged(&self) -> (staged: Option<&ServerConfig>)
        ensures
            match staged {
                Some(config) => self@.staged == Some(config@),
                None => self@.staged is None,
            },
    {
        self.staged.as_ref()
    }

    /// The current instance, if there is one.
    pub fn handle(&self) -> (handle: Option<&ServerHandle>)
        ensures
            match handle {
                Some(h) => self@.handle == Some(h@),
                None => self@.handle is None,
            },
    {
        self.handle.as_ref()
    }

    fn failed(self, why: FatalError) -> (out: (Coordinator, Action))
        ensures
            (out.0@, out.1) == self@.fail(why),
    {
        (
            Coordinator { phase: Phase::Failed, failure: Some(why), ..self },
            Action::Exit { code: EXIT_FAILURE },
        )
    }

    fn noted(self) -> (out: (Coordinator, Action))
        ensures
            (out.0@, out.1) == self@.note_change(),
    {
        let pending = self.pending || self.watch;
        (Coordinator { pending, ..self }, Action::Ignore)
    }

    fn step_building(self, event: Event) -> (out: (Coordinator, Action))
        ensures
            (out.0@, out.1) == self@.next_building(event@),
    {
        match event {
            Event::BuildSucceeded(config) => (
                Coordinator { phase: Phase::Starting, staged: Some(config), ..self },
                Action::Start,
            ),
            Event::BuildFailed => if self.staged.is_some() {
                (Coordinator { phase: Phase::Starting, ..self }, Action::Start)
            } else {
                self.failed(FatalError::InitialBuild)
            },
            Event::Changed => self.noted(),
            _ => (self, Action::Ignore),
        }
    }

    fn step_starting(self, event: Event) -> (out: (Coordinator, Action))
        ensures
            (out.0@, out.1) == self@.next_starting(event@),
    {
        match event {
            Event::Bound => {
                let Coordinator { watch, phase, staged, handle, pending, failure, retired } = self;
                match staged {
                    Some(config) => match start(config, BindOutcome::Bound) {
                        Ok(running) => {
                            if watch && pending {
                                let mut draining = running;
                                draining.shutdown();
                                (
                                    Coordinator {
                                        watch,
                                        phase: Phase::Stopping,
                                        staged: None,
                                        handle: Some(draining),
                                        pending: false,
                                        failure,
                                        retired,
                                    },
                                    Action::Shutdown { grace_ms: GRACE_PERIOD_MS },
                                )
                            } else {
                                (
                                    Coordinator {
                                        watch,
                                        phase: Phase::Serving,
                                        staged: None,
                                        handle: Some(running),
                                        pending,
                                        failure,
                                        retired,
                                    },
                                    if watch {
                                        Action::AwaitChange
                                    } else {
                                        Action::AwaitExit
                                    },
                                )
                            }
                        },
                        Err(error) => (
                            Coordinator {
                                watch,
                                phase: Phase::Failed,
                                staged: None,
                                handle,
                                pending,
                                failure: Some(FatalError::Bind(error)),
                                retired,
                            },
                            Action::Exit { code: EXIT_FAILURE },
                        ),
                    },
                    None => (
                        Coordinator { watch, phase, staged: None, handle, pending, failure, retired },
                        Action::Ignore,
                    ),
                }
            },
            Event::BindFailed(error) => self.failed(FatalError::Bind(error)),
            Event::Changed => self.noted(),
            _ => (self, Action::Ignore),
        }
    }

    fn step_serving(self, event: Event) -> (out: (Coordinator, Action))
        ensures
            (out.0@, out.1) == self@.next_serving(event@),
    {
        let Coordinator { watch, phase, staged, handle, pending, failure, retired } = self;
        match (event, handle) {
            (Event::Changed, Some(mut current)) => {
                if watch {
                    current.shutdown();
                    (
                        Coordinator {
                            watch,
                            phase: Phase::Stopping,
                            staged,
                            handle: Some(current),
                            pending,
                            failure,
                            retired,
                        },
                        Action::Shutdown { grace_ms: GRACE_PERIOD_MS },
                    )
                } else {
                    (
                        Coordinator {
                            watch,
                            phase,
                            staged,
                            handle: Some(current),
                            pending,
                            failure,
                            retired,
                        },
                        Action::Ignore,
                    )
                }
            },
            (Event::Drained, Some(mut current)) => {
                if !watch {
                    current.stop();
                    (
                        Coordinator {
                            watch,
                            phase: Phase::Finished,
                            staged,
                            handle: None,
                            pending,
                            failure,
                            retired: Ghost(retired@.push(current@)),
                        },
                        Action::Exit { code: EXIT_OK },
                    )
                } else {
                    (
                        Coordinator {
                            watch,
                            phase,
                            staged,
                            handle: Some(current),
                            pending,
                            failure,
                            retired,
                        },
                        Action::Ignore,
                    )
                }
            },
            (_, handle) => (
                Coordinator { watch, phase, staged, handle, pending, failure, retired },
                Action::Ignore,
            ),
        }
    }

    fn step_stopping(self, event: Event) -> (out: (Coordinator, Action))
        ensures
            (out.0@, out.1) == self@.next_stopping(event@),
    {
        let Coordinator { watch, phase, staged, handle, pending, failure, retired } = self;
        match (event, handle) {
            (Event::Drained, Some(mut current)) | (Event::DrainTimedOut, Some(mut current)) => {
                current.stop();
                let ghost stopped = current@;
                (
                    Coordinator {
                        watch,
                        phase: Phase::Building,
                        staged: Some(current.into_config()),
                        handle: None,
                        pending,
                        failure,
                        retired: Ghost(retired@.push(stopped)),
                    },
                    Action::Build,
                )
            },
            (_, handle) => (
                Coordinator { watch, phase, staged, handle, pending, failure, retired },
                Action::Ignore,
            ),
        }
    }

    /// Takes in what happened and says what to do next.
    pub fn step(self, event: Event) -> (out: (Coordinator, Action))
        ensures
            (out.0@, out.1) == self@.next(event@),
            self@.wf() ==> out.0@.wf(),
            self@.wf() && out.1 == Action::Start ==> out.0@.all_stopped(),
    {
        proof {
            if self@.wf() {
                lemma_step_keeps_single_owner(self@, event@);
            }
        }
        match self.phase {
            Phase::Failed => (self, Action::Exit { code: EXIT_FAILURE }),
            Phase::Finished => (self, Action::Exit { code: EXIT_OK }),
            Phase::Building => match event {
                Event::WatcherFailed => self.failed(FatalError::Watcher),
                _ => self.step_building(event),
            },
            Phase::Starting => match event {
                Event::WatcherFailed => self.failed(FatalError::Watcher),
                _ => self.step_starting(event),
            },
            Phase::Serving => match event {
                Event::WatcherFailed => self.failed(FatalError::Watcher),
                _ => self.step_serving(event),
            },
            Phase::Stopping => match event {
                Event::WatcherFailed => self.failed(FatalError::Watcher),
                _ => self.step_stopping(event),
            },
        }
    }
}

/// A well-formed state steps to a well-formed state, and a listener is only
/// asked for when no instance holds the port.
pub proof fn lemma_step_keeps_single_owner(state: CoordinatorView, event: EventView)
    requires
        state.wf(),
    ensures
        state.next(event).0.wf(),
        state.next(event).1 == Action::Start ==> state.next(event).0.all_stopped(),
{
    let after = state.next(event).0;
    if state.next(event).1 == Action::Start {
        assert(after.handle is None);
        assert(after.handles() == after.retired);
    }
}

/// However a run goes, its state is well-formed: the fields agree with the
/// phase and every instance of an earlier cycle is stopped.
pub proof fn lemma_run_is_well_formed(state: CoordinatorView, events: Seq<EventView>)
    requires
        state.wf(),
    ensures
        state.run(events).0.wf(),
        state.run(events).1.len() == events.len(),
    decreases events.len(),
{
    if events.len() > 0 {
        lemma_run_is_well_formed(state, events.drop_last());
        lemma_step_keeps_single_owner(state.run(events.drop_last()).0, events.last());
    }
}

/// At no point of a run do two instances hold the port: of all instances
/// there have ever been, at most the current one is running or draining.
pub proof fn lemma_single_owner(watch: bool, events: Seq<EventView>, i: int, j: int)
    requires
        0 <= i < j < CoordinatorView::initial(watch).run(events).0.handles().len(),
    ensures
        !CoordinatorView::initial(watch).run(events).0.handles()[i].state.is_live(),
{
    lemma_run_is_well_formed(CoordinatorView::initial(watch), events);
    let state = CoordinatorView::initial(watch).run(events).0;
    assert(state.handles()[i] == state.retired[i]);
}

/// A rebuild that fails leaves the service as it was: from a serving state,
/// a change, the end of the instance, a failed build and a bound listener
/// lead back to serving, with a running instance that serves what the
/// stopped one served.
pub proof fn lemma_failed_rebuild_serves_stale(state: CoordinatorView, forced: bool)
    requires
        state.wf(),
        state.watch,
        state.phase == Phase::Serving,
    ensures
        ({
            let stopped = if forced {
                EventView::DrainTimedOut
            } else {
                EventView::Drained
            };
            let events = seq![EventView::Changed, stopped, EventView::BuildFailed, EventView::Bound];
            let (after, actions) = state.run(events);
            &&& actions == seq![
                Action::Shutdown { grace_ms: GRACE_PERIOD_MS },
                Action::Build,
                Action::Start,
                Action::AwaitChange,
            ]
            &&& after.phase == Phase::Serving
            &&& after.handle == Some(
                HandleView { config: state.handle->0.config, state: Lifecycle::Running },
            )
            &&& after.wf()
        }),
{
    let stopped = if forced {
        EventView::DrainTimedOut
    } else {
        EventView::Drained
    };
    let events = seq![EventView::Changed, stopped, EventView::BuildFailed, EventView::Bound];
    let e3 = events.drop_last();
    let e2 = e3.drop_last();
    let e1 = e2.drop_last();
    let e0 = e1.drop_last();
    assert(e0.len() == 0);
    assert(e1.last() == EventView::Changed);
    assert(e2.last() == stopped);
    assert(e3.last() == EventView::BuildFailed);
    assert(events.last() == EventView::Bound);
    let s0 = state.run(e0);
    let s1 = state.run(e1);
    let s2 = state.run(e2);
    let s3 = state.run(e3);
    let s4 = state.run(events);
    assert(s0.0 == state && s0.1 =~= Seq::<Action>::empty());
    assert(s1.0.phase == Phase::Stopping);
    assert(s1.1 =~= seq![Action::Shutdown { grace_ms: GRACE_PERIOD_MS }]);
    assert(s2.0.phase == Phase::Building);
    assert(s2.1 =~= seq![Action::Shutdown { grace_ms: GRACE_PERIOD_MS }, Action::Build]);
    assert(s3.0.phase == Phase::Starting && !s3.0.pending);
    assert(s3.1 =~= seq![
        Action::Shutdown { grace_ms: GRACE_PERIOD_MS },
        Action::Build,
        Action::Start,
    ]);
    assert(s4.1 =~= seq![
        Action::Shutdown { grace_ms: GRACE_PERIOD_MS },
        Action::Build,
        Action::Start,
        Action::AwaitChange,
    ]);
    lemma_run_is_well_formed(state, events);
}

/// The events of `count` changes in a row.
pub open spec fn changes(count: nat) -> Seq<EventView> {
    Seq::new(count, |i: int| EventView::Changed)
}

/// Changes that arrive while a build runs are not dropped and not counted:
/// one or many, they leave one change pending and nothing else altered.
pub proof fn lemma_changes_coalesce(state: CoordinatorView, count: nat)
    requires
        state.watch,
        state.phase == Phase::Building || state.phase == Phase::Starting,
        count > 0,
    ensures
        state.run(changes(count)).0 == (CoordinatorView { pending: true, ..state }),
    decreases count,
{
    let events = changes(count);
    assert(events.last() == EventView::Changed);
    if count == 1 {
        assert(events.drop_last().len() == 0);
        assert(state.run(events.drop_last()).0 == state);
    } else {
        assert(events.drop_last() =~= changes((count - 1) as nat));
        lemma_changes_coalesce(state, (count - 1) as nat);
    }
}

/// A pending change is acted on as soon as the new instance is up: the
/// instance is told to stop at once, and nothing is pending after that.
pub proof fn lemma_pending_change_leads_to_one_cycle(state: CoordinatorView)
    requires
        state.wf(),
        state.phase == Phase::Starting,
        state.pending,
    ensures
        state.next(EventView::Bound).1 == (Action::Shutdown { grace_ms: GRACE_PERIOD_MS }),
        state.next(EventView::Bound).0.phase == Phase::Stopping,
        !state.next(EventView::Bound).0.pending,
{
}

} // verus!

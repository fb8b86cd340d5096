//! Startup of the coordinator and shutdown of a worker.
//!
//! The coordinator comes up in a fixed order: the runtime configuration is
//! resolved; for an in-memory runtime the prover state is initialised; the
//! runtime is built; the listener is bound; then the dispatch loop runs.
//! Whatever fails on the way ends the startup. A worker runs until its
//! runtime loop ends or a termination signal asks it to stop, whichever
//! comes first.

use vstd::prelude::*;

use crate::cfgld::Runtime;
use crate::env::{EnvValue, EnvValueView};
use crate::error::{
    defaulted, problem_with, ConfigError, ConfigField, ConfigNotice, ConfigProblem, NoticeKind,
};

verus! {

/// The variable that gives the address on which the coordinator listens.
pub const SERVER_ADDR_ENVKEY: &'static str = "SERVER_ADDR";

/// The address on which the coordinator listens when the environment gives
/// none.
pub const DFLT_SERVER_ADDR: &'static str = "0.0.0.0:8080";

/// The number of workers of the HTTP server.
pub const NUM_SERVER_WORKERS: usize = 4;

/// The variable through which the proving layer learns the version of the
/// arithmetization package.
pub const EVM_ARITH_VER_KEY: &'static str = "EVM_ARITHMETIZATION_PKG_VER";

/// The listen address that a value of its variable gives.
pub open spec fn spec_server_addr(value: EnvValueView) -> Result<
    (Seq<char>, Option<ConfigNotice>),
    ConfigError,
> {
    match value {
        EnvValueView::Present(addr) => Ok((addr, None)),
        EnvValueView::NotPresent => Ok(
            (DFLT_SERVER_ADDR@, Some(defaulted(ConfigField::ServerAddr))),
        ),
        EnvValueView::NotUnicode => Err(
            problem_with(ConfigField::ServerAddr, ConfigProblem::NotUnicode),
        ),
    }
}

/// The view of a resolved listen address.
pub open spec fn server_addr_view(r: Result<(String, Option<ConfigNotice>), ConfigError>) -> Result<
    (Seq<char>, Option<ConfigNotice>),
    ConfigError,
> {
    match r {
        Ok((addr, notice)) => Ok((addr@, notice)),
        Err(e) => Err(e),
    }
}

/// Resolves the listen address from the value of its variable.
pub fn resolve_server_addr(value: EnvValue) -> (r: Result<
    (String, Option<ConfigNotice>),
    ConfigError,
>)
    ensures
        server_addr_view(r) == spec_server_addr(value@),
{
    match value {
        EnvValue::Present(addr) => Ok((addr, None)),
        EnvValue::NotPresent => Ok(
            (
                DFLT_SERVER_ADDR.to_owned(),
                Some(ConfigNotice { field: ConfigField::ServerAddr, kind: NoticeKind::Defaulted }),
            ),
        ),
        EnvValue::NotUnicode => Err(
            ConfigError { field: ConfigField::ServerAddr, problem: ConfigProblem::NotUnicode },
        ),
    }
}

/// Whether the version of the arithmetization package has to be put into
/// the environment: it has to where the variable is not set at all. A value
/// that is there is left alone, valid text or not.
pub fn version_tag_missing(value: &EnvValue) -> (missing: bool)
    ensures
        missing == (value@ == EnvValueView::NotPresent),
{
    match value {
        EnvValue::NotPresent => true,
        _ => false,
    }
}

/// Where the startup of the coordinator stands.
#[derive(Clone, Copy, Debug, PartialEq, Eq, Structural)]
pub enum StartupState {
    ResolvingConfig,
    InitializingProverState,
    BuildingRuntime,
    BindingListener,
    /// The startup is done and the dispatch loop runs.
    Serving,
    /// The startup failed; the process must not serve.
    Failed,
}

/// Why a startup failed.
#[derive(Clone, Copy, Debug, PartialEq, Eq, Structural)]
pub enum StartupFailure {
    /// A setting is wrong.
    Config(ConfigError),
    /// The prover state could not be initialised.
    ProverState,
    /// The runtime could not be built.
    RuntimeConstruction,
    /// The listener could not be bound.
    ListenerBind,
}

/// What a startup step came back with.
#[derive(Clone, Copy, Debug, PartialEq, Eq)]
pub enum StartupEvent {
    /// The runtime configuration was resolved, to the given runtime or to an
    /// error.
    ConfigResolved(Result<Runtime, ConfigError>),
    /// The prover state was configured and initialised, or not.
    ProverStateInitialized(Result<(), StartupFailure>),
    /// The runtime was built, or not.
    RuntimeBuilt(bool),
    /// The listener was bound, or not.
    ListenerBound(bool),
}

/// What the startup is to do next.
#[derive(Clone, Copy, Debug, PartialEq, Eq, Structural)]
pub enum StartupAction {
    InitializeProverState,
    BuildRuntime,
    BindListener,
    EnterDispatchLoop,
    Abort(StartupFailure),
}

/// The step that `event` makes in `state`: the state after it and what to
/// do next, or `None` where `state` awaits no such event.
pub open spec fn spec_startup_step(state: StartupState, event: StartupEvent) -> Option<
    (StartupState, StartupAction),
> {
    match (state, event) {
        (
            StartupState::ResolvingConfig,
            StartupEvent::ConfigResolved(Ok(Runtime::InMemory)),
        ) => Some(
            (StartupState::InitializingProverState, StartupAction::InitializeProverState),
        ),
        (StartupState::ResolvingConfig, StartupEvent::ConfigResolved(Ok(Runtime::Amqp))) => Some(
            (StartupState::BuildingRuntime, StartupAction::BuildRuntime),
        ),
        (StartupState::ResolvingConfig, StartupEvent::ConfigResolved(Err(e))) => Some(
            (StartupState::Failed, StartupAction::Abort(StartupFailure::Config(e))),
        ),
        (
            StartupState::InitializingProverState,
            StartupEvent::ProverStateInitialized(Ok(_)),
        ) => Some(
            (StartupState::BuildingRuntime, StartupAction::BuildRuntime),
        ),
        (
            StartupState::InitializingProverState,
            StartupEvent::ProverStateInitialized(Err(failure)),
        ) => Some((StartupState::Failed, StartupAction::Abort(failure))),
        (StartupState::BuildingRuntime, StartupEvent::RuntimeBuilt(built)) => if built {
            Some((StartupState::BindingListener, StartupAction::BindListener))
        } else {
            Some(
                (StartupState::Failed, StartupAction::Abort(StartupFailure::RuntimeConstruction)),
            )
        },
        (StartupState::BindingListener, StartupEvent::ListenerBound(bound)) => if bound {
            Some((StartupState::Serving, StartupAction::EnterDispatchLoop))
        } else {
            Some((StartupState::Failed, StartupAction::Abort(StartupFailure::ListenerBind)))
        },
        _ => None,
    }
}

/// The state in which the startup begins: the runtime configuration is to
/// be resolved first.
pub fn startup_begin() -> (state: StartupState)
    ensures
        state == StartupState::ResolvingConfig,
{
    StartupState::ResolvingConfig
}

/// Decides the next step of the startup: `event` is what the step awaited
/// in `state` came back with. Returns `None` where `state` awaits no such
/// event.
pub fn startup_step(state: StartupState, event: StartupEvent) -> (next: Option<
    (StartupState, StartupAction),
>)
    ensures
        next == spec_startup_step(state, event),
{
    match state {
        StartupState::ResolvingConfig => match event {
            StartupEvent::ConfigResolved(Ok(Runtime::InMemory)) => Some(
                (StartupState::InitializingProverState, StartupAction::InitializeProverState),
            ),
            StartupEvent::ConfigResolved(Ok(Runtime::Amqp)) => Some(
                (StartupState::BuildingRuntime, StartupAction::BuildRuntime),
            ),
            StartupEvent::ConfigResolved(Err(e)) => Some(
                (StartupState::Failed, StartupAction::Abort(StartupFailure::Config(e))),
            ),
            _ => None,
        },
        StartupState::InitializingProverState => match event {
            StartupEvent::ProverStateInitialized(Ok(_)) => Some(
                (StartupState::BuildingRuntime, StartupAction::BuildRuntime),
            ),
            StartupEvent::ProverStateInitialized(Err(failure)) => Some(
                (StartupState::Failed, StartupAction::Abort(failure)),
            ),
            _ => None,
        },
        StartupState::BuildingRuntime => match event {
            StartupEvent::RuntimeBuilt(true) => Some(
                (StartupState::BindingListener, StartupAction::BindListener),
            ),
            StartupEvent::RuntimeBuilt(false) => Some(
                (StartupState::Failed, StartupAction::Abort(StartupFailure::RuntimeConstruction)),
            ),
            _ => None,
        },
        StartupState::BindingListener => match event {
            StartupEvent::ListenerBound(true) => Some(
                (StartupState::Serving, StartupAction::EnterDispatchLoop),
            ),
            StartupEvent::ListenerBound(false) => Some(
                (StartupState::Failed, StartupAction::Abort(StartupFailure::ListenerBind)),
            ),
            _ => None,
        },
        StartupState::Serving => None,
        StartupState::Failed => None,
    }
}

/// How far a startup has come.
pub open spec fn progress(state: StartupState) -> nat {
    match state {
        StartupState::ResolvingConfig => 0,
        StartupState::InitializingProverState => 1,
        StartupState::BuildingRuntime => 2,
        StartupState::BindingListener => 3,
        StartupState::Serving => 4,
        StartupState::Failed => 5,
    }
}

/// A startup only goes forward: each step brings it nearer to serving, or
/// ends it. Once it serves or has failed, nothing more happens.
pub proof fn lemma_startup_goes_forward(state: StartupState, event: StartupEvent)
    ensures
        spec_startup_step(state, event) matches Some((next, _)) ==> progress(state) < progress(
            next,
        ),
        state == StartupState::Serving || state == StartupState::Failed ==> spec_startup_step(
            state,
            event,
        ).is_none(),
{
}

/// The order of a startup: the prover state is initialised only for an
/// in-memory runtime, right after the configuration; the runtime is built
/// only after the configuration and, where there is one, the prover state;
/// the listener is bound only after the runtime is built; the dispatch loop
/// is entered only after the listener is bound.
pub proof fn lemma_startup_order(state: StartupState, event: StartupEvent)
    requires
        spec_startup_step(state, event).is_some(),
    ensures
        spec_startup_step(state, event).unwrap().1 == StartupAction::InitializeProverState <==> (
        state == StartupState::ResolvingConfig && event == StartupEvent::ConfigResolved(
            Ok(Runtime::InMemory),
        )),
        spec_startup_step(state, event).unwrap().1 == StartupAction::BuildRuntime <==> ((state
            == StartupState::ResolvingConfig && event == StartupEvent::ConfigResolved(
            Ok(Runtime::Amqp),
        )) || (state == StartupState::InitializingProverState && (
        event matches StartupEvent::ProverStateInitialized(r) && r.is_ok()))),
        spec_startup_step(state, event).unwrap().1 == StartupAction::BindListener <==> (state
            == StartupState::BuildingRuntime && event == StartupEvent::RuntimeBuilt(true)),
        spec_startup_step(state, event).unwrap().1 == StartupAction::EnterDispatchLoop <==> (state
            == StartupState::BindingListener && event == StartupEvent::ListenerBound(true)),
{
}

/// Every failure ends the startup, and nothing else does.
pub proof fn lemma_failure_aborts(state: StartupState, event: StartupEvent)
    requires
        spec_startup_step(state, event).is_some(),
    ensures
        spec_startup_step(state, event).unwrap().0 == StartupState::Failed <==> spec_startup_step(
            state,
            event,
        ).unwrap().1 is Abort,
        spec_startup_step(state, event).unwrap().1 is Abort <==> (event
            == StartupEvent::RuntimeBuilt(false) || event == StartupEvent::ListenerBound(false) || (
        event matches StartupEvent::ConfigResolved(r) && r.is_err()) || (
        event matches StartupEvent::ProverStateInitialized(r) && r.is_err())),
{
}

/// The state that a run of events leads to from `state`, or `None` where
/// one of them is not awaited when it comes.
pub open spec fn spec_startup_run(state: StartupState, events: Seq<StartupEvent>) -> Option<
    StartupState,
>
    decreases events.len(),
{
    if events.len() == 0 {
        Some(state)
    } else {
        match spec_startup_run(state, events.drop_last()) {
            None => None,
            Some(before) => match spec_startup_step(before, events.last()) {
                None => None,
                Some((next, _)) => Some(next),
            },
        }
    }
}

/// Every step of a startup brings it at least one stage further.
pub proof fn lemma_run_goes_forward(events: Seq<StartupEvent>)
    requires
        spec_startup_run(StartupState::ResolvingConfig, events).is_some(),
    ensures
        progress(spec_startup_run(StartupState::ResolvingConfig, events).unwrap())
            >= events.len(),
    decreases events.len(),
{
    if events.len() > 0 {
        lemma_run_goes_forward(events.drop_last());
        lemma_startup_goes_forward(
            spec_startup_run(StartupState::ResolvingConfig, events.drop_last()).unwrap(),
            events.last(),
        );
    }
}

/// Only the empty run leaves a startup where it began.
pub proof fn lemma_start_is_left_at_once(events: Seq<StartupEvent>)
    requires
        spec_startup_run(StartupState::ResolvingConfig, events) == Some(
            StartupState::ResolvingConfig,
        ),
    ensures
        events.len() == 0,
{
    lemma_run_goes_forward(events);
}

/// A coordinator serves only after a whole startup, in order and without a
/// failure: the configuration was resolved; for an in-memory runtime, and
/// for no other, the prover state was initialised next; then the runtime
/// was built; then the listener was bound.
pub proof fn lemma_serving_after_whole_startup(events: Seq<StartupEvent>)
    requires
        spec_startup_run(StartupState::ResolvingConfig, events) == Some(StartupState::Serving),
    ensures
        events.len() == 3 || events.len() == 4,
        events.len() == 3 ==> events[0] == StartupEvent::ConfigResolved(Ok(Runtime::Amqp)),
        events.len() == 4 ==> events[0] == StartupEvent::ConfigResolved(Ok(Runtime::InMemory)),
        events.len() == 4 ==> (events[1] matches StartupEvent::ProverStateInitialized(r)
            && r.is_ok()),
        events[events.len() - 2] == StartupEvent::RuntimeBuilt(true),
        events[events.len() - 1] == StartupEvent::ListenerBound(true),
{
    let start = StartupState::ResolvingConfig;
    let until_bound = events.drop_last();
    let until_built = until_bound.drop_last();
    let until_ready = until_built.drop_last();
    assert(spec_startup_run(start, until_bound) == Some(StartupState::BindingListener));
    assert(spec_startup_run(start, until_built) == Some(StartupState::BuildingRuntime));
    if spec_startup_run(start, until_ready) == Some(StartupState::ResolvingConfig) {
        lemma_start_is_left_at_once(until_ready);
    } else {
        assert(spec_startup_run(start, until_ready) == Some(
            StartupState::InitializingProverState,
        ));
        lemma_start_is_left_at_once(until_ready.drop_last());
    }
}

/// Which of the two activities of a worker ended first.
#[derive(Clone, Copy, Debug, PartialEq, Eq, Structural)]
pub enum ShutdownPath {
    /// The listener for the termination signal: the signal came.
    SignalInitiated,
    /// The runtime loop: it ended by itself.
    RuntimeInitiated,
}

/// What a worker awaits.
#[derive(Clone, Copy, Debug, PartialEq, Eq, Structural)]
pub enum WorkerEvent {
    /// The termination signal came.
    TerminationSignal,
    /// The runtime loop ended.
    RuntimeLoopEnded,
}

/// The lifecycle of a worker: the flag that its runtime loop looks at from
/// time to time, and how the worker ended, once it has.
#[derive(Clone, Copy, Debug, PartialEq, Eq, Structural)]
pub struct WorkerLifecycle {
    /// While this holds the runtime loop takes new work.
    pub running: bool,
    /// How the worker ended; `None` while it runs.
    pub ended: Option<ShutdownPath>,
}

impl WorkerLifecycle {
    /// The lifecycle after `event`. The first activity that ends decides how
    /// the worker ended, and the worker does not wait for the other one. The
    /// signal withdraws the flag, and nothing sets it again.
    pub open spec fn spec_on_event(self, event: WorkerEvent) -> WorkerLifecycle {
        match event {
            WorkerEvent::TerminationSignal => WorkerLifecycle {
                running: false,
                ended: match self.ended {
                    Some(path) => Some(path),
                    None => Some(ShutdownPath::SignalInitiated),
                },
            },
            WorkerEvent::RuntimeLoopEnded => WorkerLifecycle {
                running: self.running,
                ended: match self.ended {
                    Some(path) => Some(path),
                    None => Some(ShutdownPath::RuntimeInitiated),
                },
            },
        }
    }

    /// A worker that runs.
    pub fn new() -> (worker: Self)
        ensures
            worker == (WorkerLifecycle { running: true, ended: None }),
    {
        WorkerLifecycle { running: true, ended: None }
    }

    /// Takes note of `event`.
    pub fn on_event(&mut self, event: WorkerEvent)
        ensures
            *final(self) == old(self).spec_on_event(event),
    {
        match event {
            WorkerEvent::TerminationSignal => {
                self.running = false;
                if self.ended.is_none() {
                    self.ended = Some(ShutdownPath::SignalInitiated);
                }
            },
            WorkerEvent::RuntimeLoopEnded => {
                if self.ended.is_none() {
                    self.ended = Some(ShutdownPath::RuntimeInitiated);
                }
            },
        }
    }

    /// Whether the process is to exit: it is as soon as either activity has
    /// ended.
    pub fn should_exit(&self) -> (exit: bool)
        ensures
            exit == self.ended.is_some(),
    {
        self.ended.is_some()
    }
}

/// The first activity that ends decides the shutdown path for good, every
/// event ends the worker, and a withdrawn flag stays withdrawn.
pub proof fn lemma_first_to_end_decides(worker: WorkerLifecycle, event: WorkerEvent)
    ensures
        worker.spec_on_event(event).ended.is_some(),
        worker.ended.is_some() ==> worker.spec_on_event(event).ended == worker.ended,
        worker.ended.is_none() ==> worker.spec_on_event(event).ended == Some(
            match event {
                WorkerEvent::TerminationSignal => ShutdownPath::SignalInitiated,
                WorkerEvent::RuntimeLoopEnded => ShutdownPath::RuntimeInitiated,
            },
        ),
        !worker.running ==> !worker.spec_on_event(event).running,
        event == WorkerEvent::TerminationSignal ==> !worker.spec_on_event(event).running,
{
}

} // verus!

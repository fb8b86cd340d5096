use coordinator::cfgld::Runtime;
use coordinator::env::EnvValue;
use coordinator::error::{ConfigError, ConfigField, ConfigNotice, ConfigProblem, NoticeKind};
use coordinator::lifecycle::{
    resolve_server_addr, startup_begin, startup_step, version_tag_missing, ShutdownPath,
    StartupAction, StartupEvent, StartupFailure, StartupState, WorkerEvent, WorkerLifecycle,
    DFLT_SERVER_ADDR, EVM_ARITH_VER_KEY, NUM_SERVER_WORKERS, SERVER_ADDR_ENVKEY,
};

#[test]
fn listen_address_comes_from_the_environment_or_is_the_default() {
    assert_eq!(SERVER_ADDR_ENVKEY, "SERVER_ADDR");
    assert_eq!(DFLT_SERVER_ADDR, "0.0.0.0:8080");
    assert_eq!(NUM_SERVER_WORKERS, 4);
    assert_eq!(
        resolve_server_addr(EnvValue::Present(String::from("127.0.0.1:9000"))),
        Ok((String::from("127.0.0.1:9000"), None))
    );
    assert_eq!(
        resolve_server_addr(EnvValue::NotPresent),
        Ok((
            String::from("0.0.0.0:8080"),
            Some(ConfigNotice { field: ConfigField::ServerAddr, kind: NoticeKind::Defaulted })
        ))
    );
    assert_eq!(
        resolve_server_addr(EnvValue::NotUnicode),
        Err(ConfigError { field: ConfigField::ServerAddr, problem: ConfigProblem::NotUnicode })
    );
}

#[test]
fn version_tag_is_put_in_only_where_none_is_there() {
    assert_eq!(EVM_ARITH_VER_KEY, "EVM_ARITHMETIZATION_PKG_VER");
    assert!(version_tag_missing(&EnvValue::NotPresent));
    assert!(!version_tag_missing(&EnvValue::Present(String::from("0.4.0"))));
    assert!(!version_tag_missing(&EnvValue::Present(String::new())));
    assert!(!version_tag_missing(&EnvValue::NotUnicode));
}

#[test]
fn in_memory_startup_initialises_the_prover_state_first() {
    let state = startup_begin();
    assert_eq!(state, StartupState::ResolvingConfig);
    let (state, action) =
        startup_step(state, StartupEvent::ConfigResolved(Ok(Runtime::InMemory))).unwrap();
    assert_eq!(action, StartupAction::InitializeProverState);
    let (state, action) =
        startup_step(state, StartupEvent::ProverStateInitialized(Ok(()))).unwrap();
    assert_eq!(action, StartupAction::BuildRuntime);
    let (state, action) = startup_step(state, StartupEvent::RuntimeBuilt(true)).unwrap();
    assert_eq!(action, StartupAction::BindListener);
    let (state, action) = startup_step(state, StartupEvent::ListenerBound(true)).unwrap();
    assert_eq!(action, StartupAction::EnterDispatchLoop);
    assert_eq!(state, StartupState::Serving);
}

#[test]
fn broker_startup_skips_the_prover_state() {
    let (state, action) =
        startup_step(startup_begin(), StartupEvent::ConfigResolved(Ok(Runtime::Amqp))).unwrap();
    assert_eq!((state, action), (StartupState::BuildingRuntime, StartupAction::BuildRuntime));
    assert_eq!(startup_step(state, StartupEvent::ProverStateInitialized(Ok(()))), None);
}

#[test]
fn every_startup_failure_is_fatal() {
    let wrong = ConfigError { field: ConfigField::Runtime, problem: ConfigProblem::Unrecognized };
    assert_eq!(
        startup_step(StartupState::ResolvingConfig, StartupEvent::ConfigResolved(Err(wrong))),
        Some((StartupState::Failed, StartupAction::Abort(StartupFailure::Config(wrong))))
    );
    let size = ConfigError {
        field: ConfigField::Persistence,
        problem: ConfigProblem::NotUnicode,
    };
    assert_eq!(
        startup_step(
            StartupState::InitializingProverState,
            StartupEvent::ProverStateInitialized(Err(StartupFailure::Config(size)))
        ),
        Some((StartupState::Failed, StartupAction::Abort(StartupFailure::Config(size))))
    );
    assert_eq!(
        startup_step(
            StartupState::InitializingProverState,
            StartupEvent::ProverStateInitialized(Err(StartupFailure::ProverState))
        ),
        Some((StartupState::Failed, StartupAction::Abort(StartupFailure::ProverState)))
    );
    assert_eq!(
        startup_step(StartupState::BuildingRuntime, StartupEvent::RuntimeBuilt(false)),
        Some((StartupState::Failed, StartupAction::Abort(StartupFailure::RuntimeConstruction)))
    );
    assert_eq!(
        startup_step(StartupState::BindingListener, StartupEvent::ListenerBound(false)),
        Some((StartupState::Failed, StartupAction::Abort(StartupFailure::ListenerBind)))
    );
}

#[test]
fn startup_steps_out_of_order_are_refused() {
    let states = [
        StartupState::ResolvingConfig,
        StartupState::InitializingProverState,
        StartupState::BuildingRuntime,
        StartupState::BindingListener,
        StartupState::Serving,
        StartupState::Failed,
    ];
    let events = [
        StartupEvent::ConfigResolved(Ok(Runtime::InMemory)),
        StartupEvent::ProverStateInitialized(Ok(())),
        StartupEvent::RuntimeBuilt(true),
        StartupEvent::ListenerBound(true),
    ];
    for (place, state) in states.iter().enumerate() {
        for (turn, event) in events.iter().enumerate() {
            assert_eq!(startup_step(*state, *event).is_some(), place == turn, "{:?}", state);
        }
    }
}

#[test]
fn worker_that_gets_the_signal_first_ends_by_the_signal() {
    let mut worker = WorkerLifecycle::new();
    assert!(worker.running);
    assert!(!worker.should_exit());
    worker.on_event(WorkerEvent::TerminationSignal);
    assert!(!worker.running);
    assert!(worker.should_exit());
    assert_eq!(worker.ended, Some(ShutdownPath::SignalInitiated));
    worker.on_event(WorkerEvent::RuntimeLoopEnded);
    assert_eq!(worker.ended, Some(ShutdownPath::SignalInitiated));
    assert!(!worker.running);
}

#[test]
fn worker_whose_runtime_ends_first_ends_by_the_runtime() {
    let mut worker = WorkerLifecycle::new();
    worker.on_event(WorkerEvent::RuntimeLoopEnded);
    assert!(worker.running);
    assert!(worker.should_exit());
    assert_eq!(worker.ended, Some(ShutdownPath::RuntimeInitiated));
    worker.on_event(WorkerEvent::TerminationSignal);
    assert_eq!(worker.ended, Some(ShutdownPath::RuntimeInitiated));
    assert!(!worker.running);
}

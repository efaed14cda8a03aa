use t1_daemons::auth_lifecycle::{AuthenticationLifecycleError, AuthenticationLifecycleStage};
use t1_daemons::relay_handoff::{
    relay_checked, AfterStop, Attempt, HandoffEnd, HandoffFault, PendingRestart,
};

#[derive(Clone, Copy, Debug, Eq, PartialEq)]
enum RuntimeFailure {
    Health,
    Stop,
    Restart,
}

#[derive(Clone, Copy, Debug, Eq, PartialEq)]
struct OperationFailure;

struct FakeRuntime {
    calls: Vec<&'static str>,
    relay_active: Result<bool, RuntimeFailure>,
    stop: Result<(), RuntimeFailure>,
    restart: Result<(), RuntimeFailure>,
}

impl FakeRuntime {
    fn healthy() -> Self {
        Self {
            calls: Vec::new(),
            relay_active: Ok(true),
            stop: Ok(()),
            restart: Ok(()),
        }
    }
}

impl FakeRuntime {
    fn relay_is_active(&mut self) -> Result<bool, RuntimeFailure> {
        self.calls.push("relay-health");
        self.relay_active
    }

    fn stop_relay(&mut self) -> Result<(), RuntimeFailure> {
        self.calls.push("relay-stop");
        self.stop
    }

    fn start_relay(&mut self) -> Result<(), RuntimeFailure> {
        self.calls.push("relay-start");
        self.restart
    }
}

fn with_authentication_relay_handoff<Success, OperationError>(
    runtime: &mut FakeRuntime,
    operation: impl FnOnce(&mut FakeRuntime) -> Result<Success, OperationError>,
) -> Result<Success, AuthenticationLifecycleError<RuntimeFailure, OperationError>> {
    let pending = relay_checked(runtime.relay_is_active())
        .map_err(AuthenticationLifecycleError::from_fault)?;
    let restart = match pending.relay_stopped(Attempt::Returned(runtime.stop_relay())) {
        AfterStop::Operate(pending) => {
            pending.operation_ended(Attempt::Returned(operation(runtime)))
        }
        AfterStop::Restart(restart) => restart,
    };
    match restart.relay_restarted(Attempt::Returned(runtime.start_relay())) {
        HandoffEnd::Returned(result) => result.map_err(AuthenticationLifecycleError::from_fault),
        HandoffEnd::ResumePrimary | HandoffEnd::ResumeRestart => panic!("nothing panicked"),
    }
}

#[test]
fn relay_handoff_brackets_all_caller_owned_resources() {
    let mut runtime = FakeRuntime::healthy();
    let result = with_authentication_relay_handoff(&mut runtime, |runtime| {
        runtime.calls.push("prepared-keybag-operation");
        Ok::<_, OperationFailure>(42)
    });

    assert!(matches!(result, Ok(42)));
    assert_eq!(
        runtime.calls,
        [
            "relay-health",
            "relay-stop",
            "prepared-keybag-operation",
            "relay-start",
        ]
    );
}

#[test]
fn an_attempted_stop_always_triggers_relay_recovery() {
    let mut runtime = FakeRuntime::healthy();
    runtime.stop = Err(RuntimeFailure::Stop);

    assert!(matches!(
        with_authentication_relay_handoff(&mut runtime, |_| Ok::<_, OperationFailure>(())),
        Err(AuthenticationLifecycleError::Runtime {
            stage: AuthenticationLifecycleStage::RelayStop,
            ..
        })
    ));
    assert_eq!(runtime.calls, ["relay-health", "relay-stop", "relay-start"]);
}

#[test]
fn inactive_or_uncheckable_relay_stops_before_handoff() {
    let mut runtime = FakeRuntime::healthy();
    runtime.relay_active = Ok(false);
    assert!(matches!(
        with_authentication_relay_handoff(&mut runtime, |_| Ok::<_, OperationFailure>(())),
        Err(AuthenticationLifecycleError::RelayInactive)
    ));
    assert_eq!(runtime.calls, ["relay-health"]);

    let mut runtime = FakeRuntime::healthy();
    runtime.relay_active = Err(RuntimeFailure::Health);
    assert!(matches!(
        with_authentication_relay_handoff(&mut runtime, |_| Ok::<_, OperationFailure>(())),
        Err(AuthenticationLifecycleError::Runtime {
            stage: AuthenticationLifecycleStage::RelayHealth,
            ..
        })
    ));
    assert_eq!(runtime.calls, ["relay-health"]);
}

#[test]
fn restart_failure_overrides_success_or_any_primary_failure() {
    for inner in [Ok(()), Err(OperationFailure)] {
        let mut runtime = FakeRuntime::healthy();
        runtime.restart = Err(RuntimeFailure::Restart);
        assert!(matches!(
            with_authentication_relay_handoff(&mut runtime, |_| inner),
            Err(AuthenticationLifecycleError::Runtime {
                stage: AuthenticationLifecycleStage::RelayRecovery,
                ..
            })
        ));
        assert_eq!(runtime.calls.last(), Some(&"relay-start"));
    }
}

#[test]
fn diagnostics_and_source_chain_hide_runtime_and_operation_details() {
    let runtime_error: AuthenticationLifecycleError<&str, OperationFailure> =
        AuthenticationLifecycleError::Runtime {
            stage: AuthenticationLifecycleStage::RelayStop,
            error: "private runtime marker",
        };
    let operation_error: AuthenticationLifecycleError<RuntimeFailure, &str> =
        AuthenticationLifecycleError::Operation("private operation marker");

    for rendered in [
        format!("{} {}", runtime_error.diagnostic(), runtime_error.message()),
        format!("{} {}", operation_error.diagnostic(), operation_error.message()),
    ] {
        assert!(!rendered.contains("private runtime marker"));
        assert!(!rendered.contains("private operation marker"));
    }
}

#[test]
fn a_panic_is_resumed_only_after_the_restart_was_attempted() {
    let stopped = || match relay_checked::<RuntimeFailure, OperationFailure>(Ok(true)) {
        Ok(pending) => pending,
        Err(_) => panic!("the relay is active"),
    };
    let operated = |operation: Attempt<Result<u8, OperationFailure>>| match stopped()
        .relay_stopped::<u8, RuntimeFailure, OperationFailure>(Attempt::Returned(Ok(())))
    {
        AfterStop::Operate(pending) => pending.operation_ended(operation),
        AfterStop::Restart(_) => panic!("the relay stopped"),
    };
    assert!(matches!(
        operated(Attempt::Panicked).relay_restarted(Attempt::Returned(Ok(()))),
        HandoffEnd::ResumePrimary
    ));
    assert!(matches!(
        operated(Attempt::Panicked)
            .relay_restarted(Attempt::Returned(Err(RuntimeFailure::Restart))),
        HandoffEnd::Returned(Err(HandoffFault::Recovery(RuntimeFailure::Restart)))
    ));
    assert!(matches!(
        operated(Attempt::Returned(Ok(7))).relay_restarted(Attempt::Panicked),
        HandoffEnd::ResumeRestart
    ));
    let restart: PendingRestart<u8, RuntimeFailure, OperationFailure> =
        match stopped().relay_stopped(Attempt::Panicked) {
            AfterStop::Restart(restart) => restart,
            AfterStop::Operate(_) => panic!("the stop panicked"),
        };
    assert!(matches!(
        restart.relay_restarted(Attempt::Returned(Ok(()))),
        HandoffEnd::ResumePrimary
    ));
}

#[test]
fn an_operation_failure_is_returned_after_a_clean_restart() {
    let mut runtime = FakeRuntime::healthy();
    assert!(matches!(
        with_authentication_relay_handoff(&mut runtime, |_| Err::<(), _>(OperationFailure)),
        Err(AuthenticationLifecycleError::Operation(OperationFailure))
    ));
    assert_eq!(runtime.calls, ["relay-health", "relay-stop", "relay-start"]);
}

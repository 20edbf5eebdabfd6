use socks5ws::error::{Error, Operation};
use socks5ws::scope::ScopeRegistry;
use socks5ws::service::{
    handle_control_event, handle_interrupt, install, my_service_main, run, run_service,
    server_foreground, service_info, start, step, stop, uninstall, ControlEvent, ControlReply,
    ErrorControl, ExecutorOutcome, ExitCode, ManagerAccess, RunKind, ServiceAccess, ServiceCall,
    ServiceReply, ServiceState, ServiceStatus, ServiceType, StartType, EXIT_FAILED, EXIT_PANICKED,
    LAUNCH_ARGUMENT, SERVICE_ACCOUNT, SERVICE_DESCRIPTION, SERVICE_DISPLAY, SERVICE_NAME,
    STOP_GRACE_SECS,
};

fn no_access() -> ServiceAccess {
    ServiceAccess { query_status: false, start: false, stop: false, delete: false, change_config: false }
}

fn connect_only() -> ManagerAccess {
    ManagerAccess { connect: true, create_service: false }
}

/// Runs a subcommand against the answers given, one for each call it makes,
/// and returns the calls it made, the last of them the pending one.
fn drive(
    step: fn(Option<ServiceCall>, ServiceReply) -> ServiceCall,
    replies: Vec<ServiceReply>,
) -> Vec<ServiceCall> {
    let mut calls = Vec::new();
    let mut call = step(None, ServiceReply::Done);
    for reply in replies {
        let next = step(Some(call.clone()), reply);
        calls.push(call);
        call = next;
    }
    calls.push(call);
    calls
}

#[test]
fn the_fixed_names_are_those_of_the_service() {
    assert_eq!(SERVICE_NAME, "socks5ws_srv");
    assert_eq!(SERVICE_DISPLAY, "socks5ws proxy");
    assert_eq!(SERVICE_DESCRIPTION, "SOCKS5 proxy windows service");
    assert_eq!(SERVICE_ACCOUNT, "NT AUTHORITY\\NetworkService");
    assert_eq!(LAUNCH_ARGUMENT, "run");
    assert_eq!(STOP_GRACE_SECS, 5);
    assert_eq!(EXIT_PANICKED, 1);
    assert_eq!(EXIT_FAILED, 2);
}

#[test]
fn running_status_accepts_stop() {
    let status = ServiceStatus::running();
    assert_eq!(status.service_type, ServiceType::OwnProcess);
    assert_eq!(status.current_state, ServiceState::Running);
    assert!(status.accepts_stop);
    assert_eq!(status.exit_code(), ExitCode::Win32(0));
    assert_eq!(status.checkpoint, 0);
    assert_eq!(status.wait_hint_millis, 0);
    assert_eq!(status.process_id, None);
}

#[test]
fn stopped_status_accepts_nothing() {
    let status = ServiceStatus::stopped();
    assert_eq!(
        status,
        ServiceStatus {
            current_state: ServiceState::Stopped,
            accepts_stop: false,
            ..ServiceStatus::running()
        }
    );
    assert_eq!(status.exit_code(), ExitCode::Win32(0));
}

#[test]
fn stopped_with_error_carries_the_code() {
    let status = ServiceStatus::stopped_with_error(7);
    assert_eq!(status.current_state, ServiceState::StoppedWithError(7));
    assert!(!status.accepts_stop);
    assert_eq!(status.exit_code(), ExitCode::ServiceSpecific(7));
    assert_eq!(status.service_type, ServiceType::OwnProcess);
}

#[test]
fn states_know_whether_they_are_stopped_or_running() {
    assert!(ServiceState::Stopped.stopped());
    assert!(ServiceState::StoppedWithError(2).stopped());
    assert!(!ServiceState::Running.stopped());
    assert!(!ServiceState::StartPending.stopped());
    assert!(!ServiceState::StopPending.stopped());
    assert!(!ServiceState::NotInstalled.stopped());
    assert!(ServiceState::Running.running());
    assert!(!ServiceState::StartPending.running());
    assert!(!ServiceState::Stopped.running());
}

#[test]
fn a_stopped_service_is_known_by_its_exit_code() {
    assert_eq!(ServiceState::stopped_with(ExitCode::Win32(0)), ServiceState::Stopped);
    assert_eq!(ServiceState::stopped_with(ExitCode::Win32(5)), ServiceState::StoppedWithError(5));
    assert_eq!(
        ServiceState::stopped_with(ExitCode::ServiceSpecific(2)),
        ServiceState::StoppedWithError(2)
    );
    assert_eq!(
        ServiceState::stopped_with(ExitCode::ServiceSpecific(0)),
        ServiceState::StoppedWithError(0)
    );
}

#[test]
fn service_info_registers_the_executable_under_the_fixed_names() {
    let info = service_info("C:\\proxy\\socks5ws.exe".to_string());
    assert_eq!(info.name, "socks5ws_srv");
    assert_eq!(info.display_name, "socks5ws proxy");
    assert_eq!(info.service_type, ServiceType::OwnProcess);
    assert_eq!(info.start_type, StartType::OnDemand);
    assert_eq!(info.error_control, ErrorControl::Normal);
    assert_eq!(info.executable_path, "C:\\proxy\\socks5ws.exe");
    assert_eq!(info.launch_arguments, vec!["run".to_string()]);
    assert!(info.dependencies.is_empty());
    assert_eq!(info.account_name, Some("NT AUTHORITY\\NetworkService".to_string()));
    assert_eq!(info.account_password, None);
}

#[test]
fn install_registers_and_describes_the_service() {
    let calls = drive(
        install,
        vec![
            ServiceReply::Done,
            ServiceReply::Path("C:\\proxy\\socks5ws.exe".to_string()),
            ServiceReply::Done,
            ServiceReply::Done,
        ],
    );
    assert_eq!(
        calls,
        vec![
            ServiceCall::Connect(ManagerAccess { connect: true, create_service: true }),
            ServiceCall::LocateExecutable,
            ServiceCall::CreateService {
                info: service_info("C:\\proxy\\socks5ws.exe".to_string()),
                access: ServiceAccess { change_config: true, ..no_access() },
            },
            ServiceCall::SetDescription("SOCKS5 proxy windows service".to_string()),
            ServiceCall::Return(Ok(())),
        ]
    );
}

#[test]
fn install_fails_where_the_service_is_registered_already() {
    let calls = drive(
        install,
        vec![
            ServiceReply::Done,
            ServiceReply::Path("socks5ws.exe".to_string()),
            ServiceReply::Failed("the service already exists".to_string()),
        ],
    );
    assert_eq!(
        calls.last().unwrap(),
        &ServiceCall::Return(Err(Error::ServiceManager {
            operation: Operation::CreateService,
            cause: "the service already exists".to_string(),
        }))
    );
    assert_eq!(calls.len(), 4);
}

#[test]
fn install_fails_without_the_privilege_to_connect() {
    let calls = drive(install, vec![ServiceReply::Failed("access is denied".to_string())]);
    assert_eq!(
        calls,
        vec![
            ServiceCall::Connect(ManagerAccess { connect: true, create_service: true }),
            ServiceCall::Return(Err(Error::ServiceManager {
                operation: Operation::ConnectManager,
                cause: "access is denied".to_string(),
            })),
        ]
    );
}

#[test]
fn install_names_each_call_that_fails() {
    let located = install(
        Some(ServiceCall::LocateExecutable),
        ServiceReply::Failed("no path".to_string()),
    );
    assert_eq!(
        located,
        ServiceCall::Return(Err(Error::ServiceManager {
            operation: Operation::LocateExecutable,
            cause: "no path".to_string(),
        }))
    );
    let described = install(
        Some(ServiceCall::SetDescription(SERVICE_DESCRIPTION.to_string())),
        ServiceReply::Failed("denied".to_string()),
    );
    assert_eq!(
        described,
        ServiceCall::Return(Err(Error::ServiceManager {
            operation: Operation::SetDescription,
            cause: "denied".to_string(),
        }))
    );
}

#[test]
fn uninstall_stops_a_running_service_first() {
    let calls = drive(
        uninstall,
        vec![
            ServiceReply::Done,
            ServiceReply::Done,
            ServiceReply::Status(ServiceState::Running),
            ServiceReply::Done,
            ServiceReply::Done,
            ServiceReply::Done,
        ],
    );
    assert_eq!(
        calls,
        vec![
            ServiceCall::Connect(connect_only()),
            ServiceCall::OpenService {
                name: "socks5ws_srv".to_string(),
                access: ServiceAccess { query_status: true, stop: true, delete: true, ..no_access() },
            },
            ServiceCall::QueryStatus,
            ServiceCall::StopService,
            ServiceCall::Wait(5),
            ServiceCall::DeleteService,
            ServiceCall::Return(Ok(())),
        ]
    );
}

#[test]
fn uninstall_deletes_a_stopped_service_at_once() {
    let calls = drive(
        uninstall,
        vec![
            ServiceReply::Done,
            ServiceReply::Done,
            ServiceReply::Status(ServiceState::Stopped),
            ServiceReply::Done,
        ],
    );
    assert_eq!(calls[3], ServiceCall::DeleteService);
    assert_eq!(calls[4], ServiceCall::Return(Ok(())));
    assert_eq!(calls.len(), 5);
}

#[test]
fn uninstall_gives_up_when_the_stop_fails() {
    let calls = drive(
        uninstall,
        vec![
            ServiceReply::Done,
            ServiceReply::Done,
            ServiceReply::Status(ServiceState::StartPending),
            ServiceReply::Failed("cannot accept control".to_string()),
            ServiceReply::Done,
        ],
    );
    let failure = ServiceCall::Return(Err(Error::ServiceManager {
        operation: Operation::StopService,
        cause: "cannot accept control".to_string(),
    }));
    assert_eq!(calls[4], failure);
    assert_eq!(calls[5], failure);
    assert!(!calls.contains(&ServiceCall::DeleteService));
}

#[test]
fn uninstall_names_the_delete_that_fails() {
    let failed = uninstall(
        Some(ServiceCall::DeleteService),
        ServiceReply::Failed("marked for deletion".to_string()),
    );
    assert_eq!(
        failed,
        ServiceCall::Return(Err(Error::ServiceManager {
            operation: Operation::DeleteService,
            cause: "marked for deletion".to_string(),
        }))
    );
}

#[test]
fn stop_on_a_stopped_service_is_a_no_op() {
    let calls = drive(
        stop,
        vec![
            ServiceReply::Done,
            ServiceReply::Done,
            ServiceReply::Status(ServiceState::Stopped),
            ServiceReply::Done,
        ],
    );
    assert_eq!(
        calls,
        vec![
            ServiceCall::Connect(connect_only()),
            ServiceCall::OpenService {
                name: "socks5ws_srv".to_string(),
                access: ServiceAccess { query_status: true, stop: true, ..no_access() },
            },
            ServiceCall::QueryStatus,
            ServiceCall::Return(Ok(())),
            ServiceCall::Return(Ok(())),
        ]
    );
}

#[test]
fn stop_on_a_service_stopped_with_an_error_is_a_no_op() {
    let next = stop(
        Some(ServiceCall::QueryStatus),
        ServiceReply::Status(ServiceState::StoppedWithError(2)),
    );
    assert_eq!(next, ServiceCall::Return(Ok(())));
}

#[test]
fn stop_asks_a_running_service_to_stop() {
    let calls = drive(
        stop,
        vec![
            ServiceReply::Done,
            ServiceReply::Done,
            ServiceReply::Status(ServiceState::Running),
            ServiceReply::Done,
        ],
    );
    assert_eq!(calls[3], ServiceCall::StopService);
    assert_eq!(calls[4], ServiceCall::Return(Ok(())));
}

#[test]
fn start_on_a_running_service_is_a_no_op() {
    let calls = drive(
        start,
        vec![
            ServiceReply::Done,
            ServiceReply::Done,
            ServiceReply::Status(ServiceState::Running),
            ServiceReply::Done,
        ],
    );
    assert_eq!(
        calls,
        vec![
            ServiceCall::Connect(connect_only()),
            ServiceCall::OpenService {
                name: "socks5ws_srv".to_string(),
                access: ServiceAccess { query_status: true, start: true, ..no_access() },
            },
            ServiceCall::QueryStatus,
            ServiceCall::Return(Ok(())),
            ServiceCall::Return(Ok(())),
        ]
    );
}

#[test]
fn start_asks_a_stopped_service_to_start() {
    let calls = drive(
        start,
        vec![
            ServiceReply::Done,
            ServiceReply::Done,
            ServiceReply::Status(ServiceState::Stopped),
            ServiceReply::Done,
        ],
    );
    assert_eq!(calls[3], ServiceCall::StartService);
    assert_eq!(calls[4], ServiceCall::Return(Ok(())));
}

#[test]
fn start_fails_where_the_service_is_not_registered() {
    let calls = drive(
        start,
        vec![ServiceReply::Done, ServiceReply::Failed("the service does not exist".to_string())],
    );
    assert_eq!(
        calls[2],
        ServiceCall::Return(Err(Error::ServiceManager {
            operation: Operation::OpenService,
            cause: "the service does not exist".to_string(),
        }))
    );
}

#[test]
fn start_and_stop_name_the_query_and_the_call_that_fail() {
    let query = ServiceReply::Failed("query".to_string());
    assert_eq!(
        stop(Some(ServiceCall::QueryStatus), query),
        ServiceCall::Return(Err(Error::ServiceManager {
            operation: Operation::QueryStatus,
            cause: "query".to_string(),
        }))
    );
    assert_eq!(
        start(Some(ServiceCall::StartService), ServiceReply::Failed("start".to_string())),
        ServiceCall::Return(Err(Error::ServiceManager {
            operation: Operation::StartService,
            cause: "start".to_string(),
        }))
    );
}

#[test]
fn an_answer_out_of_step_ends_the_run() {
    assert_eq!(
        stop(Some(ServiceCall::QueryStatus), ServiceReply::Done),
        ServiceCall::Return(Err(Error::OutOfStep))
    );
    assert_eq!(
        stop(Some(ServiceCall::DeleteService), ServiceReply::Done),
        ServiceCall::Return(Err(Error::OutOfStep))
    );
    assert_eq!(
        uninstall(Some(ServiceCall::Wait(5)), ServiceReply::Failed("woken".to_string())),
        ServiceCall::Return(Err(Error::OutOfStep))
    );
    assert_eq!(
        run_service(Some(ServiceCall::Execute { own_thread: true }), ServiceReply::Done),
        ServiceCall::Return(Err(Error::OutOfStep))
    );
}

#[test]
fn run_hands_the_process_to_the_service_manager() {
    let calls = drive(run, vec![ServiceReply::Done]);
    assert_eq!(
        calls,
        vec![
            ServiceCall::StartDispatcher { name: "socks5ws_srv".to_string() },
            ServiceCall::Return(Ok(())),
        ]
    );
    let failed = drive(run, vec![ServiceReply::Failed("not started as a service".to_string())]);
    assert_eq!(
        failed[1],
        ServiceCall::Return(Err(Error::ServiceManager {
            operation: Operation::StartDispatcher,
            cause: "not started as a service".to_string(),
        }))
    );
}

#[test]
fn run_service_reports_running_and_then_stopped() {
    let calls = drive(
        run_service,
        vec![
            ServiceReply::Done,
            ServiceReply::Done,
            ServiceReply::Outcome(ExecutorOutcome::Completed),
            ServiceReply::Done,
        ],
    );
    assert_eq!(
        calls,
        vec![
            ServiceCall::RegisterHandler { name: "socks5ws_srv".to_string() },
            ServiceCall::ReportStatus { status: ServiceStatus::running(), because: None },
            ServiceCall::Execute { own_thread: true },
            ServiceCall::ReportStatus { status: ServiceStatus::stopped(), because: None },
            ServiceCall::Return(Ok(())),
        ]
    );
}

#[test]
fn run_service_reports_error_one_after_a_panic() {
    let calls = drive(
        run_service,
        vec![
            ServiceReply::Done,
            ServiceReply::Done,
            ServiceReply::Outcome(ExecutorOutcome::Panicked),
            ServiceReply::Done,
        ],
    );
    assert_eq!(
        calls[3],
        ServiceCall::ReportStatus {
            status: ServiceStatus::stopped_with_error(1),
            because: Some(Error::ServerPanicked),
        }
    );
    assert_eq!(calls[4], ServiceCall::Return(Err(Error::ServerPanicked)));
}

#[test]
fn run_service_reports_error_two_after_a_failure() {
    let calls = drive(
        run_service,
        vec![
            ServiceReply::Done,
            ServiceReply::Done,
            ServiceReply::Outcome(ExecutorOutcome::Failed("address in use".to_string())),
            ServiceReply::Done,
        ],
    );
    assert_eq!(
        calls[3],
        ServiceCall::ReportStatus {
            status: ServiceStatus::stopped_with_error(2),
            because: Some(Error::ServerFailed { cause: "address in use".to_string() }),
        }
    );
    assert_eq!(
        calls[4],
        ServiceCall::Return(Err(Error::ServerFailed { cause: "address in use".to_string() }))
    );
}

#[test]
fn run_service_ends_where_the_service_manager_refuses() {
    let unregistered = drive(run_service, vec![ServiceReply::Failed("no handler".to_string())]);
    assert_eq!(
        unregistered[1],
        ServiceCall::Return(Err(Error::ServiceManager {
            operation: Operation::RegisterHandler,
            cause: "no handler".to_string(),
        }))
    );
    let unreported = drive(
        run_service,
        vec![ServiceReply::Done, ServiceReply::Failed("no status".to_string())],
    );
    assert_eq!(
        unreported[2],
        ServiceCall::Return(Err(Error::ServiceManager {
            operation: Operation::ReportStatus,
            cause: "no status".to_string(),
        }))
    );
    let last_report_lost = drive(
        run_service,
        vec![
            ServiceReply::Done,
            ServiceReply::Done,
            ServiceReply::Outcome(ExecutorOutcome::Panicked),
            ServiceReply::Failed("gone".to_string()),
        ],
    );
    assert_eq!(
        last_report_lost[4],
        ServiceCall::Return(Err(Error::ServiceManager {
            operation: Operation::ReportStatus,
            cause: "gone".to_string(),
        }))
    );
}

#[test]
fn my_service_main_puts_the_failure_on_record() {
    let calls = drive(
        my_service_main,
        vec![
            ServiceReply::Done,
            ServiceReply::Done,
            ServiceReply::Outcome(ExecutorOutcome::Panicked),
            ServiceReply::Done,
            ServiceReply::Done,
        ],
    );
    assert_eq!(calls[4], ServiceCall::LogFailure(Error::ServerPanicked));
    assert_eq!(calls[5], ServiceCall::Return(Ok(())));
}

#[test]
fn my_service_main_ends_quietly_after_a_clean_run() {
    let calls = drive(
        my_service_main,
        vec![
            ServiceReply::Done,
            ServiceReply::Done,
            ServiceReply::Outcome(ExecutorOutcome::Completed),
            ServiceReply::Done,
            ServiceReply::Done,
        ],
    );
    assert_eq!(calls[4], ServiceCall::Return(Ok(())));
    assert_eq!(calls[5], ServiceCall::Return(Ok(())));
    assert!(calls.iter().all(|call| !matches!(call, ServiceCall::LogFailure(_))));
}

#[test]
fn server_foreground_watches_the_interrupt_and_runs() {
    let calls = drive(
        server_foreground,
        vec![
            ServiceReply::Done,
            ServiceReply::Done,
            ServiceReply::Outcome(ExecutorOutcome::Completed),
        ],
    );
    assert_eq!(
        calls,
        vec![
            ServiceCall::WatchInterrupt,
            ServiceCall::AnnounceInterrupt,
            ServiceCall::Execute { own_thread: false },
            ServiceCall::Return(Ok(())),
        ]
    );
}

#[test]
fn server_foreground_runs_without_the_interrupt_too() {
    let calls = drive(
        server_foreground,
        vec![
            ServiceReply::Failed("handler already set".to_string()),
            ServiceReply::Outcome(ExecutorOutcome::Failed("bind".to_string())),
        ],
    );
    assert_eq!(
        calls,
        vec![
            ServiceCall::WatchInterrupt,
            ServiceCall::Execute { own_thread: false },
            ServiceCall::Return(Err(Error::ServerFailed { cause: "bind".to_string() })),
        ]
    );
}

#[test]
fn a_stop_event_cancels_the_control_scope() {
    let mut registry = ScopeRegistry::new();
    let control = registry.create_root().unwrap();
    let server = registry.child(&control).unwrap();
    let reply = handle_control_event(ControlEvent::Stop, &mut registry, &control);
    assert_eq!(reply, ControlReply::NoError);
    assert!(registry.is_cancelled(&control));
    assert!(registry.is_cancelled(&server));
}

#[test]
fn an_interrogation_is_acknowledged_and_changes_nothing() {
    let mut registry = ScopeRegistry::new();
    let control = registry.create_root().unwrap();
    let reply = handle_control_event(ControlEvent::Interrogate, &mut registry, &control);
    assert_eq!(reply, ControlReply::NoError);
    assert!(!registry.is_cancelled(&control));
}

#[test]
fn any_other_event_is_declined() {
    let mut registry = ScopeRegistry::new();
    let control = registry.create_root().unwrap();
    let reply = handle_control_event(ControlEvent::Other, &mut registry, &control);
    assert_eq!(reply, ControlReply::NotImplemented);
    assert!(!registry.is_cancelled(&control));
}

#[test]
fn an_interrupt_cancels_the_control_scope_once() {
    let mut registry = ScopeRegistry::new();
    let control = registry.create_root().unwrap();
    let server = registry.child(&control).unwrap();
    assert!(handle_interrupt(&mut registry, &control));
    assert!(!handle_interrupt(&mut registry, &control));
    assert!(registry.is_cancelled(&server));
}

#[test]
fn a_step_of_a_kind_is_the_step_of_its_run() {
    let runs: Vec<(RunKind, fn(Option<ServiceCall>, ServiceReply) -> ServiceCall)> = vec![
        (RunKind::Install, install),
        (RunKind::Uninstall, uninstall),
        (RunKind::Start, start),
        (RunKind::Stop, stop),
        (RunKind::Dispatch, run),
        (RunKind::Hosted, run_service),
        (RunKind::Foreground, server_foreground),
    ];
    let replies = vec![
        ServiceReply::Done,
        ServiceReply::Path("socks5ws.exe".to_string()),
        ServiceReply::Status(ServiceState::Running),
        ServiceReply::Outcome(ExecutorOutcome::Completed),
        ServiceReply::Failed("no".to_string()),
    ];
    for (kind, named) in runs {
        let mut pending = vec![named(None, ServiceReply::Done)];
        assert_eq!(step(kind, None, ServiceReply::Done), pending[0]);
        for _ in 0..6 {
            let mut next = Vec::new();
            for call in &pending {
                for reply in &replies {
                    let by_kind = step(kind, Some(call.clone()), reply.clone());
                    assert_eq!(by_kind, named(Some(call.clone()), reply.clone()));
                    if !next.contains(&by_kind) {
                        next.push(by_kind);
                    }
                }
            }
            pending = next;
        }
    }
}

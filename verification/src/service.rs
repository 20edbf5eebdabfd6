//! The service-lifecycle controller: what is registered with the service
//! manager, which manager call follows which answer for each subcommand, what
//! a hosted run reports, and how control events are answered.
//!
//! The controller makes no call itself. Each subcommand is a function from
//! the call that is pending and the answer it got to the call to make next;
//! the driver makes the calls, and starts with no call pending.

use crate::error::{clone_result, result_view, Error, ErrorView, Operation};
use crate::scope::{CancellationScope, ScopeRegistry};
use vstd::prelude::*;

verus! {

/// The name under which the service is registered.
pub const SERVICE_NAME: &'static str = "socks5ws_srv";

/// The name that the service manager shows.
pub const SERVICE_DISPLAY: &'static str = "socks5ws proxy";

/// What the service manager says of the service.
pub const SERVICE_DESCRIPTION: &'static str = "SOCKS5 proxy windows service";

/// The account that the service runs under.
pub const SERVICE_ACCOUNT: &'static str = "NT AUTHORITY\\NetworkService";

/// The argument with which the service manager launches the executable.
pub const LAUNCH_ARGUMENT: &'static str = "run";

/// Seconds that `uninstall` leaves a service to stop before it deletes it.
pub const STOP_GRACE_SECS: u64 = 5;

/// The exit code reported after the server ended abnormally.
pub const EXIT_PANICKED: u32 = 1;

/// The exit code reported after the server ended with a failure of its own.
pub const EXIT_FAILED: u32 = 2;

/// Where a service stands with the service manager.
#[derive(Clone, Copy, Debug, PartialEq, Eq, Structural)]
pub enum ServiceState {
    NotInstalled,
    Stopped,
    StartPending,
    Running,
    StopPending,
    StoppedWithError(u32),
}

impl ServiceState {
    /// Stopped, with or without an error.
    pub open spec fn is_stopped(self) -> bool {
        self is Stopped || self is StoppedWithError
    }

    /// Whether the service is stopped, with or without an error.
    pub fn stopped(&self) -> (stopped: bool)
        ensures
            stopped == self.is_stopped(),
    {
        match self {
            ServiceState::Stopped => true,
            ServiceState::StoppedWithError(_) => true,
            _ => false,
        }
    }

    /// The state of a service that stopped with `code`: stopped where the code
    /// tells of no error, else stopped with the error that it carries.
    pub fn stopped_with(code: ExitCode) -> (state: ServiceState)
        ensures
            state == match code {
                ExitCode::Win32(0) => ServiceState::Stopped,
                ExitCode::Win32(error) => ServiceState::StoppedWithError(error),
                ExitCode::ServiceSpecific(error) => ServiceState::StoppedWithError(error),
            },
            state.is_stopped(),
    {
        match code {
            ExitCode::Win32(0) => ServiceState::Stopped,
            ExitCode::Win32(error) => ServiceState::StoppedWithError(error),
            ExitCode::ServiceSpecific(error) => ServiceState::StoppedWithError(error),
        }
    }

    /// Whether the service is running.
    pub fn running(&self) -> (running: bool)
        ensures
            running == (*self is Running),
    {
        match self {
            ServiceState::Running => true,
            _ => false,
        }
    }
}

/// How a service shares its process.
#[derive(Clone, Copy, Debug, PartialEq, Eq, Structural)]
pub enum ServiceType {
    OwnProcess,
    ShareProcess,
}

/// When a service is started.
#[derive(Clone, Copy, Debug, PartialEq, Eq, Structural)]
pub enum StartType {
    AutoStart,
    OnDemand,
    Disabled,
}

/// What the system does when a service fails to start.
#[derive(Clone, Copy, Debug, PartialEq, Eq, Structural)]
pub enum ErrorControl {
    Critical,
    Ignore,
    Normal,
    Severe,
}

/// The rights asked for when connecting to the service manager.
#[derive(Clone, Copy, Debug, PartialEq, Eq, Structural)]
pub struct ManagerAccess {
    pub connect: bool,
    pub create_service: bool,
}

/// The rights asked for on a service.
#[derive(Clone, Copy, Debug, PartialEq, Eq, Structural)]
pub struct ServiceAccess {
    pub query_status: bool,
    pub start: bool,
    pub stop: bool,
    pub delete: bool,
    pub change_config: bool,
}

impl ServiceAccess {
    /// No right at all.
    pub open spec fn none() -> ServiceAccess {
        ServiceAccess {
            query_status: false,
            start: false,
            stop: false,
            delete: false,
            change_config: false,
        }
    }
}

/// How a stopped service ended.
#[derive(Clone, Copy, Debug, PartialEq, Eq, Structural)]
pub enum ExitCode {
    Win32(u32),
    ServiceSpecific(u32),
}

/// What a hosted run tells the service manager of itself.
#[derive(Clone, Copy, Debug, PartialEq, Eq, Structural)]
pub struct ServiceStatus {
    pub service_type: ServiceType,
    pub current_state: ServiceState,
    /// Whether the service takes a stop event.
    pub accepts_stop: bool,
    pub checkpoint: u32,
    /// Milliseconds that a pending change of state is expected to take.
    pub wait_hint_millis: u32,
    pub process_id: Option<u32>,
}

impl ServiceStatus {
    /// The status of a service that runs and takes a stop event.
    pub open spec fn running_spec() -> ServiceStatus {
        ServiceStatus {
            service_type: ServiceType::OwnProcess,
            current_state: ServiceState::Running,
            accepts_stop: true,
            checkpoint: 0,
            wait_hint_millis: 0,
            process_id: None,
        }
    }

    /// The status of a service that stopped and takes no event.
    pub open spec fn stopped_spec() -> ServiceStatus {
        ServiceStatus {
            current_state: ServiceState::Stopped,
            accepts_stop: false,
            ..ServiceStatus::running_spec()
        }
    }

    /// The status of a service that stopped with the error `code`.
    pub open spec fn stopped_with_error_spec(code: u32) -> ServiceStatus {
        ServiceStatus {
            current_state: ServiceState::StoppedWithError(code),
            ..ServiceStatus::stopped_spec()
        }
    }

    /// The exit code that goes with the state.
    pub open spec fn exit_code_spec(self) -> ExitCode {
        match self.current_state {
            ServiceState::StoppedWithError(code) => ExitCode::ServiceSpecific(code),
            _ => ExitCode::Win32(0),
        }
    }

    /// The status of a service that runs and takes a stop event.
    pub fn running() -> (status: ServiceStatus)
        ensures
            status == ServiceStatus::running_spec(),
    {
        ServiceStatus {
            service_type: ServiceType::OwnProcess,
            current_state: ServiceState::Running,
            accepts_stop: true,
            checkpoint: 0,
            wait_hint_millis: 0,
            process_id: None,
        }
    }

    /// The status of a service that stopped and takes no event.
    pub fn stopped() -> (status: ServiceStatus)
        ensures
            status == ServiceStatus::stopped_spec(),
    {
        ServiceStatus {
            current_state: ServiceState::Stopped,
            accepts_stop: false,
            ..ServiceStatus::running()
        }
    }

    /// The status of a service that stopped with the error `code`.
    pub fn stopped_with_error(code: u32) -> (status: ServiceStatus)
        ensures
            status == ServiceStatus::stopped_with_error_spec(code),
    {
        ServiceStatus {
            current_state: ServiceState::StoppedWithError(code),
            ..ServiceStatus::stopped()
        }
    }

    /// The exit code that goes with the state: the error of the service where
    /// it stopped with one, else zero.
    pub fn exit_code(&self) -> (code: ExitCode)
        ensures
            code == self.exit_code_spec(),
    {
        match self.current_state {
            ServiceState::StoppedWithError(code) => ExitCode::ServiceSpecific(code),
            _ => ExitCode::Win32(0),
        }
    }
}

/// What is registered with the service manager.
#[derive(Debug, PartialEq, Eq)]
pub struct ServiceInfo {
    pub name: String,
    pub display_name: String,
    pub service_type: ServiceType,
    pub start_type: StartType,
    pub error_control: ErrorControl,
    pub executable_path: String,
    pub launch_arguments: Vec<String>,
    pub dependencies: Vec<String>,
    pub account_name: Option<String>,
    pub account_password: Option<String>,
}

/// [`ServiceInfo`] as the contracts see it.
pub struct ServiceInfoView {
    pub name: Seq<char>,
    pub display_name: Seq<char>,
    pub service_type: ServiceType,
    pub start_type: StartType,
    pub error_control: ErrorControl,
    pub executable_path: Seq<char>,
    pub launch_arguments: Seq<Seq<char>>,
    pub dependencies: Seq<Seq<char>>,
    pub account_name: Option<Seq<char>>,
    pub account_password: Option<Seq<char>>,
}

impl View for ServiceInfo {
    type V = ServiceInfoView;

    open spec fn view(&self) -> ServiceInfoView {
        ServiceInfoView {
            name: self.name@,
            display_name: self.display_name@,
            service_type: self.service_type,
            start_type: self.start_type,
            error_control: self.error_control,
            executable_path: self.executable_path@,
            launch_arguments: self.launch_arguments.deep_view(),
            dependencies: self.dependencies.deep_view(),
            account_name: self.account_name.deep_view(),
            account_password: self.account_password.deep_view(),
        }
    }
}

/// A copy of a list of texts.
fn clone_texts(texts: &Vec<String>) -> (copy: Vec<String>)
    ensures
        copy.deep_view() == texts.deep_view(),
{
    let mut copy: Vec<String> = Vec::new();
    let mut i: usize = 0;
    while i < texts.len()
        invariant
            i <= texts.len(),
            copy.len() == i,
            forall|k: int| 0 <= k < i ==> copy@[k]@ == texts@[k]@,
        decreases texts.len() - i,
    {
        copy.push(texts[i].clone());
        i += 1;
    }
    assert(copy.deep_view() =~= texts.deep_view());
    copy
}

/// A copy of a text that may be missing.
fn clone_text(text: &Option<String>) -> (copy: Option<String>)
    ensures
        copy.deep_view() == text.deep_view(),
{
    match text {
        Some(text) => Some(text.clone()),
        None => None,
    }
}

impl Clone for ServiceInfo {
    fn clone(&self) -> (copy: ServiceInfo)
        ensures
            copy@ == self@,
    {
        ServiceInfo {
            name: self.name.clone(),
            display_name: self.display_name.clone(),
            service_type: self.service_type,
            start_type: self.start_type,
            error_control: self.error_control,
            executable_path: self.executable_path.clone(),
            launch_arguments: clone_texts(&self.launch_arguments),
            dependencies: clone_texts(&self.dependencies),
            account_name: clone_text(&self.account_name),
            account_password: clone_text(&self.account_password),
        }
    }
}

impl ServiceInfoView {
    /// The registration of the executable at `executable_path`: under the
    /// fixed names, in a process of its own, started on demand with the one
    /// launch argument, under the restricted account.
    pub open spec fn of(executable_path: Seq<char>) -> ServiceInfoView {
        ServiceInfoView {
            name: SERVICE_NAME@,
            display_name: SERVICE_DISPLAY@,
            service_type: ServiceType::OwnProcess,
            start_type: StartType::OnDemand,
            error_control: ErrorControl::Normal,
            executable_path,
            launch_arguments: seq![LAUNCH_ARGUMENT@],
            dependencies: Seq::empty(),
            account_name: Some(SERVICE_ACCOUNT@),
            account_password: None,
        }
    }
}

/// The registration of the executable at `executable_path`.
pub fn service_info(executable_path: String) -> (info: ServiceInfo)
    ensures
        info@ == ServiceInfoView::of(executable_path@),
{
    let mut launch_arguments: Vec<String> = Vec::new();
    launch_arguments.push(LAUNCH_ARGUMENT.to_owned());
    let dependencies: Vec<String> = Vec::new();
    let info = ServiceInfo {
        name: SERVICE_NAME.to_owned(),
        display_name: SERVICE_DISPLAY.to_owned(),
        service_type: ServiceType::OwnProcess,
        start_type: StartType::OnDemand,
        error_control: ErrorControl::Normal,
        executable_path,
        launch_arguments,
        dependencies,
        account_name: Some(SERVICE_ACCOUNT.to_owned()),
        account_password: None,
    };
    proof {
        assert(info.launch_arguments.deep_view() =~= seq![LAUNCH_ARGUMENT@]);
        assert(info.dependencies.deep_view() =~= Seq::<Seq<char>>::empty());
    }
    info
}

/// An event that the service manager sends to a hosted run.
#[derive(Clone, Copy, Debug, PartialEq, Eq, Structural)]
pub enum ControlEvent {
    /// The manager asks for the current status.
    Interrogate,
    /// The manager asks the service to stop.
    Stop,
    /// Any other event.
    Other,
}

/// The answer to a control event.
#[derive(Clone, Copy, Debug, PartialEq, Eq, Structural)]
pub enum ControlReply {
    NoError,
    NotImplemented,
}

/// Answers a control event: a stop event cancels the control scope and is
/// acknowledged, an interrogation is acknowledged and changes nothing, and
/// any other event is declined and changes nothing.
pub fn handle_control_event(
    event: ControlEvent,
    registry: &mut ScopeRegistry,
    control: &CancellationScope,
) -> (reply: ControlReply)
    ensures
        reply == match event {
            ControlEvent::Interrogate => ControlReply::NoError,
            ControlEvent::Stop => ControlReply::NoError,
            ControlEvent::Other => ControlReply::NotImplemented,
        },
        final(registry)@ == match event {
            ControlEvent::Stop => old(registry)@.after_cancel(control@),
            _ => old(registry)@,
        },
        final(registry)@.extends(old(registry)@),
        event is Stop && old(registry)@.knows(control@) ==> final(registry)@.cancels(control@),
{
    match event {
        ControlEvent::Interrogate => ControlReply::NoError,
        ControlEvent::Stop => {
            registry.cancel(control);
            ControlReply::NoError
        },
        ControlEvent::Other => ControlReply::NotImplemented,
    }
}

/// How the server ended.
#[derive(Debug, PartialEq, Eq)]
pub enum ExecutorOutcome {
    /// It returned without a failure.
    Completed,
    /// It returned a failure.
    Failed(String),
    /// It ended abnormally.
    Panicked,
}

/// [`ExecutorOutcome`] as the contracts see it.
pub enum ExecutorOutcomeView {
    Completed,
    Failed(Seq<char>),
    Panicked,
}

impl View for ExecutorOutcome {
    type V = ExecutorOutcomeView;

    open spec fn view(&self) -> ExecutorOutcomeView {
        match *self {
            ExecutorOutcome::Completed => ExecutorOutcomeView::Completed,
            ExecutorOutcome::Failed(cause) => ExecutorOutcomeView::Failed(cause@),
            ExecutorOutcome::Panicked => ExecutorOutcomeView::Panicked,
        }
    }
}

impl Clone for ExecutorOutcome {
    fn clone(&self) -> (copy: ExecutorOutcome)
        ensures
            copy@ == self@,
    {
        match self {
            ExecutorOutcome::Completed => ExecutorOutcome::Completed,
            ExecutorOutcome::Failed(cause) => ExecutorOutcome::Failed(cause.clone()),
            ExecutorOutcome::Panicked => ExecutorOutcome::Panicked,
        }
    }
}

/// A call that the controller asks its driver to make.
#[derive(Debug, PartialEq, Eq)]
pub enum ServiceCall {
    /// Connect to the service manager of this machine.
    Connect(ManagerAccess),
    /// Find the path of the running executable.
    LocateExecutable,
    /// Register a service.
    CreateService { info: ServiceInfo, access: ServiceAccess },
    /// Set the description of the service just registered.
    SetDescription(String),
    /// Open a registered service.
    OpenService { name: String, access: ServiceAccess },
    /// Ask for the state of the opened service.
    QueryStatus,
    /// Ask the opened service to start, without arguments.
    StartService,
    /// Ask the opened service to stop.
    StopService,
    /// Let the given number of seconds pass.
    Wait(u64),
    /// Delete the registration of the opened service.
    DeleteService,
    /// Hand the process over to the service manager, which then hosts the run.
    StartDispatcher { name: String },
    /// Register the function that answers control events.
    RegisterHandler { name: String },
    /// Report a status to the service manager. `because` is the failure that
    /// the run ends with after the report, if it ends with one.
    ReportStatus { status: ServiceStatus, because: Option<Error> },
    /// Have the interactive interrupt cancel the scope of control.
    WatchInterrupt,
    /// Tell the user that the interrupt stops the server.
    AnnounceInterrupt,
    /// Load the configuration and run the server to its end: on a thread of
    /// its own where `own_thread` is set, so that the calling thread stays
    /// free for the events of the service manager, else on the calling thread.
    Execute { own_thread: bool },
    /// Put the failure on record.
    LogFailure(Error),
    /// The run is over, with this result.
    Return(Result<(), Error>),
}

/// [`ServiceCall`] as the contracts see it.
pub enum ServiceCallView {
    Connect(ManagerAccess),
    LocateExecutable,
    CreateService { info: ServiceInfoView, access: ServiceAccess },
    SetDescription(Seq<char>),
    OpenService { name: Seq<char>, access: ServiceAccess },
    QueryStatus,
    StartService,
    StopService,
    Wait(u64),
    DeleteService,
    StartDispatcher { name: Seq<char> },
    RegisterHandler { name: Seq<char> },
    ReportStatus { status: ServiceStatus, because: Option<ErrorView> },
    WatchInterrupt,
    AnnounceInterrupt,
    Execute { own_thread: bool },
    LogFailure(ErrorView),
    Return(Result<(), ErrorView>),
}

impl View for ServiceCall {
    type V = ServiceCallView;

    open spec fn view(&self) -> ServiceCallView {
        match *self {
            ServiceCall::Connect(access) => ServiceCallView::Connect(access),
            ServiceCall::LocateExecutable => ServiceCallView::LocateExecutable,
            ServiceCall::CreateService { info, access } => ServiceCallView::CreateService {
                info: info@,
                access,
            },
            ServiceCall::SetDescription(text) => ServiceCallView::SetDescription(text@),
            ServiceCall::OpenService { name, access } => ServiceCallView::OpenService {
                name: name@,
                access,
            },
            ServiceCall::QueryStatus => ServiceCallView::QueryStatus,
            ServiceCall::StartService => ServiceCallView::StartService,
            ServiceCall::StopService => ServiceCallView::StopService,
            ServiceCall::Wait(secs) => ServiceCallView::Wait(secs),
            ServiceCall::DeleteService => ServiceCallView::DeleteService,
            ServiceCall::StartDispatcher { name } => ServiceCallView::StartDispatcher {
                name: name@,
            },
            ServiceCall::RegisterHandler { name } => ServiceCallView::RegisterHandler {
                name: name@,
            },
            ServiceCall::ReportStatus { status, because } => ServiceCallView::ReportStatus {
                status,
                because: match because {
                    Some(e) => Some(e@),
                    None => None,
                },
            },
            ServiceCall::WatchInterrupt => ServiceCallView::WatchInterrupt,
            ServiceCall::AnnounceInterrupt => ServiceCallView::AnnounceInterrupt,
            ServiceCall::Execute { own_thread } => ServiceCallView::Execute { own_thread },
            ServiceCall::LogFailure(e) => ServiceCallView::LogFailure(e@),
            ServiceCall::Return(result) => ServiceCallView::Return(result_view(result)),
        }
    }
}

impl Clone for ServiceCall {
    fn clone(&self) -> (copy: ServiceCall)
        ensures
            copy@ == self@,
    {
        match self {
            ServiceCall::Connect(access) => ServiceCall::Connect(*access),
            ServiceCall::LocateExecutable => ServiceCall::LocateExecutable,
            ServiceCall::CreateService { info, access } => ServiceCall::CreateService {
                info: info.clone(),
                access: *access,
            },
            ServiceCall::SetDescription(text) => ServiceCall::SetDescription(text.clone()),
            ServiceCall::OpenService { name, access } => ServiceCall::OpenService {
                name: name.clone(),
                access: *access,
            },
            ServiceCall::QueryStatus => ServiceCall::QueryStatus,
            ServiceCall::StartService => ServiceCall::StartService,
            ServiceCall::StopService => ServiceCall::StopService,
            ServiceCall::Wait(secs) => ServiceCall::Wait(*secs),
            ServiceCall::DeleteService => ServiceCall::DeleteService,
            ServiceCall::StartDispatcher { name } => ServiceCall::StartDispatcher {
                name: name.clone(),
            },
            ServiceCall::RegisterHandler { name } => ServiceCall::RegisterHandler {
                name: name.clone(),
            },
            ServiceCall::ReportStatus { status, because } => ServiceCall::ReportStatus {
                status: *status,
                because: match because {
                    Some(e) => Some(e.clone()),
                    None => None,
                },
            },
            ServiceCall::WatchInterrupt => ServiceCall::WatchInterrupt,
            ServiceCall::AnnounceInterrupt => ServiceCall::AnnounceInterrupt,
            ServiceCall::Execute { own_thread } => ServiceCall::Execute {
                own_thread: *own_thread,
            },
            ServiceCall::LogFailure(e) => ServiceCall::LogFailure(e.clone()),
            ServiceCall::Return(result) => ServiceCall::Return(clone_result(result)),
        }
    }
}

/// What came of a call.
#[derive(Debug, PartialEq, Eq)]
pub enum ServiceReply {
    /// The call was made, and there is nothing to tell.
    Done,
    /// The state of the service that was asked for.
    Status(ServiceState),
    /// The path that was asked for.
    Path(String),
    /// How the server ended.
    Outcome(ExecutorOutcome),
    /// The call failed.
    Failed(String),
}

/// [`ServiceReply`] as the contracts see it.
pub enum ServiceReplyView {
    Done,
    Status(ServiceState),
    Path(Seq<char>),
    Outcome(ExecutorOutcomeView),
    Failed(Seq<char>),
}

impl View for ServiceReply {
    type V = ServiceReplyView;

    open spec fn view(&self) -> ServiceReplyView {
        match *self {
            ServiceReply::Done => ServiceReplyView::Done,
            ServiceReply::Status(state) => ServiceReplyView::Status(state),
            ServiceReply::Path(path) => ServiceReplyView::Path(path@),
            ServiceReply::Outcome(outcome) => ServiceReplyView::Outcome(outcome@),
            ServiceReply::Failed(cause) => ServiceReplyView::Failed(cause@),
        }
    }
}

impl Clone for ServiceReply {
    fn clone(&self) -> (copy: ServiceReply)
        ensures
            copy@ == self@,
    {
        match self {
            ServiceReply::Done => ServiceReply::Done,
            ServiceReply::Status(state) => ServiceReply::Status(*state),
            ServiceReply::Path(path) => ServiceReply::Path(path.clone()),
            ServiceReply::Outcome(outcome) => ServiceReply::Outcome(outcome.clone()),
            ServiceReply::Failed(cause) => ServiceReply::Failed(cause.clone()),
        }
    }
}

/// The pending call as the contracts see it.
pub open spec fn pending_view(pending: Option<ServiceCall>) -> Option<ServiceCallView> {
    match pending {
        Some(call) => Some(call@),
        None => None,
    }
}

/// How a run ends on an answer that does not let it go on: with the failure
/// of the call where the answer reports one, and out of step on any other.
pub open spec fn refusal(operation: Operation, reply: ServiceReplyView) -> ServiceCallView {
    match reply {
        ServiceReplyView::Failed(cause) => ServiceCallView::Return(
            Err(ErrorView::ServiceManager { operation, cause }),
        ),
        _ => ServiceCallView::Return(Err(ErrorView::OutOfStep)),
    }
}

/// The rights to connect and to register.
pub open spec fn install_manager_access() -> ManagerAccess {
    ManagerAccess { connect: true, create_service: true }
}

/// The right to connect.
pub open spec fn connect_only() -> ManagerAccess {
    ManagerAccess { connect: true, create_service: false }
}

/// The call that `install` makes after `pending` was answered with `reply`:
/// connect, find the executable, register it, set the description, and end.
pub open spec fn install_step(
    pending: Option<ServiceCallView>,
    reply: ServiceReplyView,
) -> ServiceCallView {
    match pending {
        None => ServiceCallView::Connect(install_manager_access()),
        Some(ServiceCallView::Connect(_)) => match reply {
            ServiceReplyView::Done => ServiceCallView::LocateExecutable,
            _ => refusal(Operation::ConnectManager, reply),
        },
        Some(ServiceCallView::LocateExecutable) => match reply {
            ServiceReplyView::Path(path) => ServiceCallView::CreateService {
                info: ServiceInfoView::of(path),
                access: ServiceAccess { change_config: true, ..ServiceAccess::none() },
            },
            _ => refusal(Operation::LocateExecutable, reply),
        },
        Some(ServiceCallView::CreateService { .. }) => match reply {
            ServiceReplyView::Done => ServiceCallView::SetDescription(SERVICE_DESCRIPTION@),
            _ => refusal(Operation::CreateService, reply),
        },
        Some(ServiceCallView::SetDescription(_)) => match reply {
            ServiceReplyView::Done => ServiceCallView::Return(Ok(())),
            _ => refusal(Operation::SetDescription, reply),
        },
        Some(ServiceCallView::Return(result)) => ServiceCallView::Return(result),
        Some(_) => ServiceCallView::Return(Err(ErrorView::OutOfStep)),
    }
}

/// The rights that `uninstall` asks for on the service.
pub open spec fn uninstall_access() -> ServiceAccess {
    ServiceAccess { query_status: true, stop: true, delete: true, ..ServiceAccess::none() }
}

/// The call that `uninstall` makes after `pending` was answered with
/// `reply`: connect, open the service, ask for its state, stop it and wait
/// unless it is stopped, delete it, and end.
pub open spec fn uninstall_step(
    pending: Option<ServiceCallView>,
    reply: ServiceReplyView,
) -> ServiceCallView {
    match pending {
        None => ServiceCallView::Connect(connect_only()),
        Some(ServiceCallView::Connect(_)) => match reply {
            ServiceReplyView::Done => ServiceCallView::OpenService {
                name: SERVICE_NAME@,
                access: uninstall_access(),
            },
            _ => refusal(Operation::ConnectManager, reply),
        },
        Some(ServiceCallView::OpenService { .. }) => match reply {
            ServiceReplyView::Done => ServiceCallView::QueryStatus,
            _ => refusal(Operation::OpenService, reply),
        },
        Some(ServiceCallView::QueryStatus) => match reply {
            ServiceReplyView::Status(state) => if state.is_stopped() {
                ServiceCallView::DeleteService
            } else {
                ServiceCallView::StopService
            },
            _ => refusal(Operation::QueryStatus, reply),
        },
        Some(ServiceCallView::StopService) => match reply {
            ServiceReplyView::Done => ServiceCallView::Wait(STOP_GRACE_SECS),
            _ => refusal(Operation::StopService, reply),
        },
        Some(ServiceCallView::Wait(_)) => match reply {
            ServiceReplyView::Done => ServiceCallView::DeleteService,
            _ => ServiceCallView::Return(Err(ErrorView::OutOfStep)),
        },
        Some(ServiceCallView::DeleteService) => match reply {
            ServiceReplyView::Done => ServiceCallView::Return(Ok(())),
            _ => refusal(Operation::DeleteService, reply),
        },
        Some(ServiceCallView::Return(result)) => ServiceCallView::Return(result),
        Some(_) => ServiceCallView::Return(Err(ErrorView::OutOfStep)),
    }
}

/// The rights that `stop` asks for on the service.
pub open spec fn stop_access() -> ServiceAccess {
    ServiceAccess { query_status: true, stop: true, ..ServiceAccess::none() }
}

/// The call that `stop` makes after `pending` was answered with `reply`:
/// connect, open the service, ask for its state, ask it to stop unless it is
/// stopped, and end.
pub open spec fn stop_step(
    pending: Option<ServiceCallView>,
    reply: ServiceReplyView,
) -> ServiceCallView {
    match pending {
        None => ServiceCallView::Connect(connect_only()),
        Some(ServiceCallView::Connect(_)) => match reply {
            ServiceReplyView::Done => ServiceCallView::OpenService {
                name: SERVICE_NAME@,
                access: stop_access(),
            },
            _ => refusal(Operation::ConnectManager, reply),
        },
        Some(ServiceCallView::OpenService { .. }) => match reply {
            ServiceReplyView::Done => ServiceCallView::QueryStatus,
            _ => refusal(Operation::OpenService, reply),
        },
        Some(ServiceCallView::QueryStatus) => match reply {
            ServiceReplyView::Status(state) => if state.is_stopped() {
                ServiceCallView::Return(Ok(()))
            } else {
                ServiceCallView::StopService
            },
            _ => refusal(Operation::QueryStatus, reply),
        },
        Some(ServiceCallView::StopService) => match reply {
            ServiceReplyView::Done => ServiceCallView::Return(Ok(())),
            _ => refusal(Operation::StopService, reply),
        },
        Some(ServiceCallView::Return(result)) => ServiceCallView::Return(result),
        Some(_) => ServiceCallView::Return(Err(ErrorView::OutOfStep)),
    }
}

/// The rights that `start` asks for on the service.
pub open spec fn start_access() -> ServiceAccess {
    ServiceAccess { query_status: true, start: true, ..ServiceAccess::none() }
}

/// The call that `start` makes after `pending` was answered with `reply`:
/// connect, open the service, ask for its state, ask it to start unless it
/// runs, and end.
pub open spec fn start_step(
    pending: Option<ServiceCallView>,
    reply: ServiceReplyView,
) -> ServiceCallView {
    match pending {
        None => ServiceCallView::Connect(connect_only()),
        Some(ServiceCallView::Connect(_)) => match reply {
            ServiceReplyView::Done => ServiceCallView::OpenService {
                name: SERVICE_NAME@,
                access: start_access(),
            },
            _ => refusal(Operation::ConnectManager, reply),
        },
        Some(ServiceCallView::OpenService { .. }) => match reply {
            ServiceReplyView::Done => ServiceCallView::QueryStatus,
            _ => refusal(Operation::OpenService, reply),
        },
        Some(ServiceCallView::QueryStatus) => match reply {
            ServiceReplyView::Status(state) => if state is Running {
                ServiceCallView::Return(Ok(()))
            } else {
                ServiceCallView::StartService
            },
            _ => refusal(Operation::QueryStatus, reply),
        },
        Some(ServiceCallView::StartService) => match reply {
            ServiceReplyView::Done => ServiceCallView::Return(Ok(())),
            _ => refusal(Operation::StartService, reply),
        },
        Some(ServiceCallView::Return(result)) => ServiceCallView::Return(result),
        Some(_) => ServiceCallView::Return(Err(ErrorView::OutOfStep)),
    }
}

/// The call that `run` makes after `pending` was answered with `reply`: hand
/// the process to the service manager, and end when it hands it back.
pub open spec fn run_step(
    pending: Option<ServiceCallView>,
    reply: ServiceReplyView,
) -> ServiceCallView {
    match pending {
        None => ServiceCallView::StartDispatcher { name: SERVICE_NAME@ },
        Some(ServiceCallView::StartDispatcher { .. }) => match reply {
            ServiceReplyView::Done => ServiceCallView::Return(Ok(())),
            _ => refusal(Operation::StartDispatcher, reply),
        },
        Some(ServiceCallView::Return(result)) => ServiceCallView::Return(result),
        Some(_) => ServiceCallView::Return(Err(ErrorView::OutOfStep)),
    }
}

/// The report that follows the end of the server: stopped after it completed,
/// stopped with [`EXIT_FAILED`] after a failure of its own, stopped with
/// [`EXIT_PANICKED`] after an abnormal end; each with the failure that the run
/// then ends with.
pub open spec fn final_report(outcome: ExecutorOutcomeView) -> ServiceCallView {
    match outcome {
        ExecutorOutcomeView::Completed => ServiceCallView::ReportStatus {
            status: ServiceStatus::stopped_spec(),
            because: None,
        },
        ExecutorOutcomeView::Failed(cause) => ServiceCallView::ReportStatus {
            status: ServiceStatus::stopped_with_error_spec(EXIT_FAILED),
            because: Some(ErrorView::ServerFailed { cause }),
        },
        ExecutorOutcomeView::Panicked => ServiceCallView::ReportStatus {
            status: ServiceStatus::stopped_with_error_spec(EXIT_PANICKED),
            because: Some(ErrorView::ServerPanicked),
        },
    }
}

/// The call that a hosted run makes after `pending` was answered with
/// `reply`: register the handler of control events, report that the service
/// runs, run the server to its end, report how it stopped, and end with the
/// failure that goes with the report.
pub open spec fn run_service_step(
    pending: Option<ServiceCallView>,
    reply: ServiceReplyView,
) -> ServiceCallView {
    match pending {
        None => ServiceCallView::RegisterHandler { name: SERVICE_NAME@ },
        Some(ServiceCallView::RegisterHandler { .. }) => match reply {
            ServiceReplyView::Done => ServiceCallView::ReportStatus {
                status: ServiceStatus::running_spec(),
                because: None,
            },
            _ => refusal(Operation::RegisterHandler, reply),
        },
        Some(ServiceCallView::ReportStatus { status, because }) => match reply {
            ServiceReplyView::Done => if status.current_state is Running {
                ServiceCallView::Execute { own_thread: true }
            } else {
                ServiceCallView::Return(
                    match because {
                        Some(e) => Err(e),
                        None => Ok(()),
                    },
                )
            },
            _ => refusal(Operation::ReportStatus, reply),
        },
        Some(ServiceCallView::Execute { .. }) => match reply {
            ServiceReplyView::Outcome(outcome) => final_report(outcome),
            _ => ServiceCallView::Return(Err(ErrorView::OutOfStep)),
        },
        Some(ServiceCallView::Return(result)) => ServiceCallView::Return(result),
        Some(_) => ServiceCallView::Return(Err(ErrorView::OutOfStep)),
    }
}

/// The call that the entry of the hosted service makes after `pending` was
/// answered with `reply`: those of the hosted run, but a failure of the run
/// is put on record and the entry itself ends without one.
pub open spec fn my_service_main_step(
    pending: Option<ServiceCallView>,
    reply: ServiceReplyView,
) -> ServiceCallView {
    match pending {
        Some(ServiceCallView::LogFailure(_)) => ServiceCallView::Return(Ok(())),
        Some(ServiceCallView::Return(result)) => ServiceCallView::Return(result),
        _ => match run_service_step(pending, reply) {
            ServiceCallView::Return(Err(e)) => ServiceCallView::LogFailure(e),
            call => call,
        },
    }
}

/// The result that a run ends with after the server ended.
pub open spec fn result_of(outcome: ExecutorOutcomeView) -> Result<(), ErrorView> {
    match outcome {
        ExecutorOutcomeView::Completed => Ok(()),
        ExecutorOutcomeView::Failed(cause) => Err(ErrorView::ServerFailed { cause }),
        ExecutorOutcomeView::Panicked => Err(ErrorView::ServerPanicked),
    }
}

/// The call that a run in the foreground makes after `pending` was answered
/// with `reply`: have the interrupt watched, tell the user of it if it is,
/// run the server to its end either way, and end with its result.
pub open spec fn server_foreground_step(
    pending: Option<ServiceCallView>,
    reply: ServiceReplyView,
) -> ServiceCallView {
    match pending {
        None => ServiceCallView::WatchInterrupt,
        Some(ServiceCallView::WatchInterrupt) => match reply {
            ServiceReplyView::Done => ServiceCallView::AnnounceInterrupt,
            ServiceReplyView::Failed(_) => ServiceCallView::Execute { own_thread: false },
            _ => ServiceCallView::Return(Err(ErrorView::OutOfStep)),
        },
        Some(ServiceCallView::AnnounceInterrupt) => match reply {
            ServiceReplyView::Done => ServiceCallView::Execute { own_thread: false },
            _ => ServiceCallView::Return(Err(ErrorView::OutOfStep)),
        },
        Some(ServiceCallView::Execute { .. }) => match reply {
            ServiceReplyView::Outcome(outcome) => ServiceCallView::Return(result_of(outcome)),
            _ => ServiceCallView::Return(Err(ErrorView::OutOfStep)),
        },
        Some(ServiceCallView::Return(result)) => ServiceCallView::Return(result),
        Some(_) => ServiceCallView::Return(Err(ErrorView::OutOfStep)),
    }
}

/// Ends a run on an answer that does not let it go on.
fn refuse(operation: Operation, reply: ServiceReply) -> (call: ServiceCall)
    ensures
        call@ == refusal(operation, reply@),
{
    match reply {
        ServiceReply::Failed(cause) => ServiceCall::Return(
            Err(Error::ServiceManager { operation, cause }),
        ),
        _ => ServiceCall::Return(Err(Error::OutOfStep)),
    }
}

/// Ends a run that was handed a call of another subcommand.
fn out_of_step() -> (call: ServiceCall)
    ensures
        call@ == ServiceCallView::Return(Err(ErrorView::OutOfStep)),
{
    ServiceCall::Return(Err(Error::OutOfStep))
}

/// Opens the service with the rights given.
fn open_service(access: ServiceAccess) -> (call: ServiceCall)
    ensures
        call@ == (ServiceCallView::OpenService { name: SERVICE_NAME@, access }),
{
    ServiceCall::OpenService { name: SERVICE_NAME.to_owned(), access }
}

/// Registers the executable with the service manager: under the fixed names,
/// started on demand with the one launch argument, under the restricted
/// account. Ends with the failure of the first call that fails.
pub fn install(pending: Option<ServiceCall>, reply: ServiceReply) -> (call: ServiceCall)
    ensures
        call@ == install_step(pending_view(pending), reply@),
{
    match pending {
        None => ServiceCall::Connect(ManagerAccess { connect: true, create_service: true }),
        Some(ServiceCall::Connect(_)) => match reply {
            ServiceReply::Done => ServiceCall::LocateExecutable,
            reply => refuse(Operation::ConnectManager, reply),
        },
        Some(ServiceCall::LocateExecutable) => match reply {
            ServiceReply::Path(path) => ServiceCall::CreateService {
                info: service_info(path),
                access: ServiceAccess {
                    query_status: false,
                    start: false,
                    stop: false,
                    delete: false,
                    change_config: true,
                },
            },
            reply => refuse(Operation::LocateExecutable, reply),
        },
        Some(ServiceCall::CreateService { .. }) => match reply {
            ServiceReply::Done => ServiceCall::SetDescription(SERVICE_DESCRIPTION.to_owned()),
            reply => refuse(Operation::CreateService, reply),
        },
        Some(ServiceCall::SetDescription(_)) => match reply {
            ServiceReply::Done => ServiceCall::Return(Ok(())),
            reply => refuse(Operation::SetDescription, reply),
        },
        Some(ServiceCall::Return(result)) => ServiceCall::Return(result),
        Some(_) => out_of_step(),
    }
}

/// Takes the registration away: a service that is not stopped is asked to
/// stop and left [`STOP_GRACE_SECS`] seconds for it, then the registration is
/// deleted. Ends with the failure of the first call that fails.
pub fn uninstall(pending: Option<ServiceCall>, reply: ServiceReply) -> (call: ServiceCall)
    ensures
        call@ == uninstall_step(pending_view(pending), reply@),
{
    match pending {
        None => ServiceCall::Connect(ManagerAccess { connect: true, create_service: false }),
        Some(ServiceCall::Connect(_)) => match reply {
            ServiceReply::Done => open_service(
                ServiceAccess {
                    query_status: true,
                    start: false,
                    stop: true,
                    delete: true,
                    change_config: false,
                },
            ),
            reply => refuse(Operation::ConnectManager, reply),
        },
        Some(ServiceCall::OpenService { .. }) => match reply {
            ServiceReply::Done => ServiceCall::QueryStatus,
            reply => refuse(Operation::OpenService, reply),
        },
        Some(ServiceCall::QueryStatus) => match reply {
            ServiceReply::Status(state) => if state.stopped() {
                ServiceCall::DeleteService
            } else {
                ServiceCall::StopService
            },
            reply => refuse(Operation::QueryStatus, reply),
        },
        Some(ServiceCall::StopService) => match reply {
            ServiceReply::Done => ServiceCall::Wait(STOP_GRACE_SECS),
            reply => refuse(Operation::StopService, reply),
        },
        Some(ServiceCall::Wait(_)) => match reply {
            ServiceReply::Done => ServiceCall::DeleteService,
            _ => out_of_step(),
        },
        Some(ServiceCall::DeleteService) => match reply {
            ServiceReply::Done => ServiceCall::Return(Ok(())),
            reply => refuse(Operation::DeleteService, reply),
        },
        Some(ServiceCall::Return(result)) => ServiceCall::Return(result),
        Some(_) => out_of_step(),
    }
}

/// Asks the service to stop, unless it is stopped already: then nothing is
/// asked of the service manager beyond the state.
pub fn stop(pending: Option<ServiceCall>, reply: ServiceReply) -> (call: ServiceCall)
    ensures
        call@ == stop_step(pending_view(pending), reply@),
{
    match pending {
        None => ServiceCall::Connect(ManagerAccess { connect: true, create_service: false }),
        Some(ServiceCall::Connect(_)) => match reply {
            ServiceReply::Done => open_service(
                ServiceAccess {
                    query_status: true,
                    start: false,
                    stop: true,
                    delete: false,
                    change_config: false,
                },
            ),
            reply => refuse(Operation::ConnectManager, reply),
        },
        Some(ServiceCall::OpenService { .. }) => match reply {
            ServiceReply::Done => ServiceCall::QueryStatus,
            reply => refuse(Operation::OpenService, reply),
        },
        Some(ServiceCall::QueryStatus) => match reply {
            ServiceReply::Status(state) => if state.stopped() {
                ServiceCall::Return(Ok(()))
            } else {
                ServiceCall::StopService
            },
            reply => refuse(Operation::QueryStatus, reply),
        },
        Some(ServiceCall::StopService) => match reply {
            ServiceReply::Done => ServiceCall::Return(Ok(())),
            reply => refuse(Operation::StopService, reply),
        },
        Some(ServiceCall::Return(result)) => ServiceCall::Return(result),
        Some(_) => out_of_step(),
    }
}

/// Asks the service to start, unless it runs already: then nothing is asked
/// of the service manager beyond the state.
pub fn start(pending: Option<ServiceCall>, reply: ServiceReply) -> (call: ServiceCall)
    ensures
        call@ == start_step(pending_view(pending), reply@),
{
    match pending {
        None => ServiceCall::Connect(ManagerAccess { connect: true, create_service: false }),
        Some(ServiceCall::Connect(_)) => match reply {
            ServiceReply::Done => open_service(
                ServiceAccess {
                    query_status: true,
                    start: true,
                    stop: false,
                    delete: false,
                    change_config: false,
                },
            ),
            reply => refuse(Operation::ConnectManager, reply),
        },
        Some(ServiceCall::OpenService { .. }) => match reply {
            ServiceReply::Done => ServiceCall::QueryStatus,
            reply => refuse(Operation::OpenService, reply),
        },
        Some(ServiceCall::QueryStatus) => match reply {
            ServiceReply::Status(state) => if state.running() {
                ServiceCall::Return(Ok(()))
            } else {
                ServiceCall::StartService
            },
            reply => refuse(Operation::QueryStatus, reply),
        },
        Some(ServiceCall::StartService) => match reply {
            ServiceReply::Done => ServiceCall::Return(Ok(())),
            reply => refuse(Operation::StartService, reply),
        },
        Some(ServiceCall::Return(result)) => ServiceCall::Return(result),
        Some(_) => out_of_step(),
    }
}

/// Hands the process to the service manager, which hosts the run until the
/// service has stopped.
pub fn run(pending: Option<ServiceCall>, reply: ServiceReply) -> (call: ServiceCall)
    ensures
        call@ == run_step(pending_view(pending), reply@),
{
    match pending {
        None => ServiceCall::StartDispatcher { name: SERVICE_NAME.to_owned() },
        Some(ServiceCall::StartDispatcher { .. }) => match reply {
            ServiceReply::Done => ServiceCall::Return(Ok(())),
            reply => refuse(Operation::StartDispatcher, reply),
        },
        Some(ServiceCall::Return(result)) => ServiceCall::Return(result),
        Some(_) => out_of_step(),
    }
}

/// The hosted run: registers the handler of control events, reports that the
/// service runs, has the server run to its end, reports how it stopped, and
/// ends with the failure that goes with that report. A failed call to the
/// service manager ends the run with that failure.
pub fn run_service(pending: Option<ServiceCall>, reply: ServiceReply) -> (call: ServiceCall)
    ensures
        call@ == run_service_step(pending_view(pending), reply@),
{
    match pending {
        None => ServiceCall::RegisterHandler { name: SERVICE_NAME.to_owned() },
        Some(ServiceCall::RegisterHandler { .. }) => match reply {
            ServiceReply::Done => ServiceCall::ReportStatus {
                status: ServiceStatus::running(),
                because: None,
            },
            reply => refuse(Operation::RegisterHandler, reply),
        },
        Some(ServiceCall::ReportStatus { status, because }) => match reply {
            ServiceReply::Done => if status.current_state.running() {
                ServiceCall::Execute { own_thread: true }
            } else {
                ServiceCall::Return(
                    match because {
                        Some(e) => Err(e),
                        None => Ok(()),
                    },
                )
            },
            reply => refuse(Operation::ReportStatus, reply),
        },
        Some(ServiceCall::Execute { .. }) => match reply {
            ServiceReply::Outcome(ExecutorOutcome::Completed) => ServiceCall::ReportStatus {
                status: ServiceStatus::stopped(),
                because: None,
            },
            ServiceReply::Outcome(ExecutorOutcome::Failed(cause)) => ServiceCall::ReportStatus {
                status: ServiceStatus::stopped_with_error(EXIT_FAILED),
                because: Some(Error::ServerFailed { cause }),
            },
            ServiceReply::Outcome(ExecutorOutcome::Panicked) => ServiceCall::ReportStatus {
                status: ServiceStatus::stopped_with_error(EXIT_PANICKED),
                because: Some(Error::ServerPanicked),
            },
            _ => out_of_step(),
        },
        Some(ServiceCall::Return(result)) => ServiceCall::Return(result),
        Some(_) => out_of_step(),
    }
}

/// The entry that the service manager calls: the hosted run, whose failure is
/// put on record and not handed on.
pub fn my_service_main(pending: Option<ServiceCall>, reply: ServiceReply) -> (call: ServiceCall)
    ensures
        call@ == my_service_main_step(pending_view(pending), reply@),
{
    match pending {
        Some(ServiceCall::LogFailure(_)) => ServiceCall::Return(Ok(())),
        Some(ServiceCall::Return(result)) => ServiceCall::Return(result),
        pending => match run_service(pending, reply) {
            ServiceCall::Return(Err(e)) => ServiceCall::LogFailure(e),
            call => call,
        },
    }
}

/// The run in the foreground: has the interactive interrupt watched, tells
/// the user of it, has the server run to its end, and ends with its result.
/// Nothing is reported to a service manager. Where the interrupt cannot be
/// watched the server runs all the same.
pub fn server_foreground(pending: Option<ServiceCall>, reply: ServiceReply) -> (call: ServiceCall)
    ensures
        call@ == server_foreground_step(pending_view(pending), reply@),
{
    match pending {
        None => ServiceCall::WatchInterrupt,
        Some(ServiceCall::WatchInterrupt) => match reply {
            ServiceReply::Done => ServiceCall::AnnounceInterrupt,
            ServiceReply::Failed(_) => ServiceCall::Execute { own_thread: false },
            _ => out_of_step(),
        },
        Some(ServiceCall::AnnounceInterrupt) => match reply {
            ServiceReply::Done => ServiceCall::Execute { own_thread: false },
            _ => out_of_step(),
        },
        Some(ServiceCall::Execute { .. }) => match reply {
            ServiceReply::Outcome(ExecutorOutcome::Completed) => ServiceCall::Return(Ok(())),
            ServiceReply::Outcome(ExecutorOutcome::Failed(cause)) => ServiceCall::Return(
                Err(Error::ServerFailed { cause }),
            ),
            ServiceReply::Outcome(ExecutorOutcome::Panicked) => ServiceCall::Return(
                Err(Error::ServerPanicked),
            ),
            _ => out_of_step(),
        },
        Some(ServiceCall::Return(result)) => ServiceCall::Return(result),
        Some(_) => out_of_step(),
    }
}

/// Answers the interactive interrupt: cancels the scope of control. Returns
/// whether this interrupt is the one that cancelled it.
pub fn handle_interrupt(registry: &mut ScopeRegistry, control: &CancellationScope) -> (fresh: bool)
    ensures
        fresh == (old(registry)@.knows(control@) && !old(registry)@.cancels(control@)),
        final(registry)@ == old(registry)@.after_cancel(control@),
        final(registry)@.extends(old(registry)@),
        old(registry)@.knows(control@) ==> final(registry)@.cancels(control@),
{
    registry.cancel(control)
}

/// The runs that the controller knows.
#[derive(Clone, Copy, Debug, PartialEq, Eq, Structural)]
pub enum RunKind {
    /// The run of [`install`].
    Install,
    /// The run of [`uninstall`].
    Uninstall,
    /// The run of [`start`].
    Start,
    /// The run of [`stop`].
    Stop,
    /// The run of [`run`].
    Dispatch,
    /// The run of [`run_service`].
    Hosted,
    /// The run of [`server_foreground`].
    Foreground,
}

/// The call that a run of the kind makes after `pending` was answered with
/// `reply`.
pub open spec fn step_of(
    kind: RunKind,
    pending: Option<ServiceCallView>,
    reply: ServiceReplyView,
) -> ServiceCallView {
    match kind {
        RunKind::Install => install_step(pending, reply),
        RunKind::Uninstall => uninstall_step(pending, reply),
        RunKind::Start => start_step(pending, reply),
        RunKind::Stop => stop_step(pending, reply),
        RunKind::Dispatch => run_step(pending, reply),
        RunKind::Hosted => run_service_step(pending, reply),
        RunKind::Foreground => server_foreground_step(pending, reply),
    }
}

/// Makes the next step of a run of the kind.
pub fn step(kind: RunKind, pending: Option<ServiceCall>, reply: ServiceReply) -> (call: ServiceCall)
    ensures
        call@ == step_of(kind, pending_view(pending), reply@),
{
    match kind {
        RunKind::Install => install(pending, reply),
        RunKind::Uninstall => uninstall(pending, reply),
        RunKind::Start => start(pending, reply),
        RunKind::Stop => stop(pending, reply),
        RunKind::Dispatch => run(pending, reply),
        RunKind::Hosted => run_service(pending, reply),
        RunKind::Foreground => server_foreground(pending, reply),
    }
}

/// The entry of the hosted service never hands a failure on: where the run
/// would end with a failure, the entry puts the failure on record instead, and
/// whenever the entry ends, it ends without one.
pub proof fn the_entry_keeps_failures_to_the_record(
    pending: Option<ServiceCallView>,
    reply: ServiceReplyView,
)
    requires
        !(pending matches Some(ServiceCallView::Return(_))),
    ensures
        my_service_main_step(pending, reply) matches ServiceCallView::Return(result) ==> result
            is Ok,
        !(pending matches Some(ServiceCallView::LogFailure(_))) ==> (run_service_step(
            pending,
            reply,
        ) matches ServiceCallView::Return(Err(e)) ==> my_service_main_step(pending, reply)
            == ServiceCallView::LogFailure(e)),
{
}

/// The call that is pending in a run of the kind once its calls so far were
/// answered with `replies`, in this order.
pub open spec fn pending_after(kind: RunKind, replies: Seq<ServiceReplyView>) -> ServiceCallView
    decreases replies.len(),
{
    if replies.len() == 0 {
        step_of(kind, None, ServiceReplyView::Done)
    } else {
        step_of(kind, Some(pending_after(kind, replies.drop_last())), replies.last())
    }
}

/// A run that has ended stays ended: whatever answers follow, the run brings
/// no further call, and keeps the result it had.
pub proof fn nothing_follows_the_end(
    kind: RunKind,
    replies: Seq<ServiceReplyView>,
    more: Seq<ServiceReplyView>,
    result: Result<(), ErrorView>,
)
    requires
        pending_after(kind, replies) == ServiceCallView::Return(result),
    ensures
        pending_after(kind, replies + more) == ServiceCallView::Return(result),
    decreases more.len(),
{
    if more.len() == 0 {
        assert(replies + more =~= replies);
    } else {
        nothing_follows_the_end(kind, replies, more.drop_last(), result);
        assert((replies + more).drop_last() =~= replies + more.drop_last());
        assert((replies + more).last() == more.last());
    }
}

/// The operation that a call asks of the system, for the calls that can fail
/// there.
pub open spec fn operation_of(call: ServiceCallView) -> Option<Operation> {
    match call {
        ServiceCallView::Connect(_) => Some(Operation::ConnectManager),
        ServiceCallView::LocateExecutable => Some(Operation::LocateExecutable),
        ServiceCallView::CreateService { .. } => Some(Operation::CreateService),
        ServiceCallView::SetDescription(_) => Some(Operation::SetDescription),
        ServiceCallView::OpenService { .. } => Some(Operation::OpenService),
        ServiceCallView::QueryStatus => Some(Operation::QueryStatus),
        ServiceCallView::StartService => Some(Operation::StartService),
        ServiceCallView::StopService => Some(Operation::StopService),
        ServiceCallView::DeleteService => Some(Operation::DeleteService),
        ServiceCallView::StartDispatcher { .. } => Some(Operation::StartDispatcher),
        ServiceCallView::RegisterHandler { .. } => Some(Operation::RegisterHandler),
        ServiceCallView::ReportStatus { .. } => Some(Operation::ReportStatus),
        _ => None,
    }
}

/// The failure of a call to the system is handed on as it is, and the call is
/// not made again. Whatever call a run makes of the system, at whatever
/// point: if the call fails, the run is over with that failure, tagged with
/// the operation that failed and with the cause it came with, and stays so.
pub proof fn a_failure_is_handed_on_tagged(
    kind: RunKind,
    replies: Seq<ServiceReplyView>,
    cause: Seq<char>,
    more: Seq<ServiceReplyView>,
)
    requires
        operation_of(pending_after(kind, replies)) is Some,
    ensures
        pending_after(kind, replies.push(ServiceReplyView::Failed(cause)) + more)
            == ServiceCallView::Return(
            Err(
                ErrorView::ServiceManager {
                    operation: operation_of(pending_after(kind, replies)).unwrap(),
                    cause,
                },
            ),
        ),
{
    let failed = replies.push(ServiceReplyView::Failed(cause));
    assert(failed.drop_last() =~= replies);
    let made = pending_after(kind, replies);
    if replies.len() > 0 {
        let before = pending_after(kind, replies.drop_last());
        assert(made == step_of(kind, Some(before), replies.last()));
    }
    let end = ServiceCallView::Return(
        Err(ErrorView::ServiceManager { operation: operation_of(made).unwrap(), cause }),
    );
    assert(pending_after(kind, failed) == end);
    nothing_follows_the_end(
        kind,
        failed,
        more,
        Err(ErrorView::ServiceManager { operation: operation_of(made).unwrap(), cause }),
    );
}

/// Stopping a stopped service asks nothing of the service manager beyond its
/// state: when the state that a run of `stop` asked for comes back as
/// stopped, the run ends with success, and no call follows.
pub proof fn stop_of_a_stopped_service_is_no_call(
    replies: Seq<ServiceReplyView>,
    state: ServiceState,
    more: Seq<ServiceReplyView>,
)
    requires
        pending_after(RunKind::Stop, replies) == ServiceCallView::QueryStatus,
        state.is_stopped(),
    ensures
        pending_after(RunKind::Stop, replies.push(ServiceReplyView::Status(state)) + more)
            == ServiceCallView::Return(Ok(())),
{
    let answered = replies.push(ServiceReplyView::Status(state));
    assert(answered.drop_last() =~= replies);
    nothing_follows_the_end(RunKind::Stop, answered, more, Ok(()));
}

/// Starting a running service asks nothing of the service manager beyond its
/// state: when the state that a run of `start` asked for comes back as
/// running, the run ends with success, and no call follows.
pub proof fn start_of_a_running_service_is_no_call(
    replies: Seq<ServiceReplyView>,
    more: Seq<ServiceReplyView>,
)
    requires
        pending_after(RunKind::Start, replies) == ServiceCallView::QueryStatus,
    ensures
        pending_after(
            RunKind::Start,
            replies.push(ServiceReplyView::Status(ServiceState::Running)) + more,
        ) == ServiceCallView::Return(Ok(())),
{
    let answered = replies.push(ServiceReplyView::Status(ServiceState::Running));
    assert(answered.drop_last() =~= replies);
    nothing_follows_the_end(RunKind::Start, answered, more, Ok(()));
}

/// A service that is not stopped is asked to stop before its registration is
/// deleted, and is left the time to do so: when the state that a run of
/// `uninstall` asked for comes back as anything but stopped, the run asks the
/// service to stop, waits, and only then deletes.
pub proof fn uninstall_stops_before_it_deletes(replies: Seq<ServiceReplyView>, state: ServiceState)
    requires
        pending_after(RunKind::Uninstall, replies) == ServiceCallView::QueryStatus,
    ensures
        ({
            let asked = replies.push(ServiceReplyView::Status(state));
            let stopped = asked.push(ServiceReplyView::Done);
            let waited = stopped.push(ServiceReplyView::Done);
            if state.is_stopped() {
                pending_after(RunKind::Uninstall, asked) == ServiceCallView::DeleteService
            } else {
                &&& pending_after(RunKind::Uninstall, asked) == ServiceCallView::StopService
                &&& pending_after(RunKind::Uninstall, stopped) == ServiceCallView::Wait(
                    STOP_GRACE_SECS,
                )
                &&& pending_after(RunKind::Uninstall, waited) == ServiceCallView::DeleteService
            }
        }),
{
    let asked = replies.push(ServiceReplyView::Status(state));
    let stopped = asked.push(ServiceReplyView::Done);
    let waited = stopped.push(ServiceReplyView::Done);
    assert(asked.drop_last() =~= replies);
    assert(stopped.drop_last() =~= asked);
    assert(waited.drop_last() =~= stopped);
}

/// The state that a hosted run reports after the server ended.
pub open spec fn state_of(outcome: ExecutorOutcomeView) -> ServiceState {
    match outcome {
        ExecutorOutcomeView::Completed => ServiceState::Stopped,
        ExecutorOutcomeView::Failed(_) => ServiceState::StoppedWithError(EXIT_FAILED),
        ExecutorOutcomeView::Panicked => ServiceState::StoppedWithError(EXIT_PANICKED),
    }
}

/// A hosted run that is told how the server ended reports the state that
/// goes with it, as a service that takes no further event; and once the
/// report is made it ends with the matching result, for good.
pub proof fn hosted_run_reports_how_the_server_ended(
    replies: Seq<ServiceReplyView>,
    outcome: ExecutorOutcomeView,
    more: Seq<ServiceReplyView>,
)
    requires
        pending_after(RunKind::Hosted, replies) is Execute,
    ensures
        pending_after(RunKind::Hosted, replies.push(ServiceReplyView::Outcome(outcome)))
            matches ServiceCallView::ReportStatus { status, .. } && status == (ServiceStatus {
            current_state: state_of(outcome),
            ..ServiceStatus::stopped_spec()
        }),
        pending_after(
            RunKind::Hosted,
            replies.push(ServiceReplyView::Outcome(outcome)).push(ServiceReplyView::Done) + more,
        ) == ServiceCallView::Return(result_of(outcome)),
{
    let told = replies.push(ServiceReplyView::Outcome(outcome));
    assert(told.drop_last() =~= replies);
    assert(pending_after(RunKind::Hosted, told) == final_report(outcome));
    let reported = told.push(ServiceReplyView::Done);
    assert(reported.drop_last() =~= told);
    nothing_follows_the_end(RunKind::Hosted, reported, more, result_of(outcome));
}

/// A hosted run reports that the service runs as soon as the handler of
/// control events is registered, and has the server run as soon as that
/// report is made, on a thread of its own.
pub proof fn hosted_run_reports_running_first()
    ensures
        pending_after(RunKind::Hosted, seq![ServiceReplyView::Done]) == (
        ServiceCallView::ReportStatus { status: ServiceStatus::running_spec(), because: None }),
        pending_after(RunKind::Hosted, seq![ServiceReplyView::Done, ServiceReplyView::Done]) == (
        ServiceCallView::Execute { own_thread: true }),
{
    let one = seq![ServiceReplyView::Done];
    let two = seq![ServiceReplyView::Done, ServiceReplyView::Done];
    assert(one.drop_last() =~= Seq::<ServiceReplyView>::empty());
    assert(pending_after(RunKind::Hosted, one.drop_last()) == ServiceCallView::RegisterHandler {
        name: SERVICE_NAME@,
    });
    assert(two.drop_last() =~= one);
}

/// A run in the foreground reports nothing to a service manager, and needs
/// none: no call that it makes is one that the service manager answers.
pub proof fn foreground_run_reports_nothing(replies: Seq<ServiceReplyView>)
    ensures
        operation_of(pending_after(RunKind::Foreground, replies)) is None,
    decreases replies.len(),
{
    if replies.len() > 0 {
        foreground_run_reports_nothing(replies.drop_last());
    }
}

/// How far a call lies from the start of the runs that make it.
pub open spec fn rank(call: ServiceCallView) -> nat {
    match call {
        ServiceCallView::Connect(_) => 0,
        ServiceCallView::StartDispatcher { .. } => 0,
        ServiceCallView::RegisterHandler { .. } => 0,
        ServiceCallView::WatchInterrupt => 0,
        ServiceCallView::LocateExecutable => 1,
        ServiceCallView::OpenService { .. } => 1,
        ServiceCallView::AnnounceInterrupt => 1,
        ServiceCallView::CreateService { .. } => 2,
        ServiceCallView::QueryStatus => 2,
        ServiceCallView::Execute { .. } => 2,
        ServiceCallView::SetDescription(_) => 3,
        ServiceCallView::StartService => 3,
        ServiceCallView::StopService => 3,
        ServiceCallView::Wait(_) => 4,
        ServiceCallView::DeleteService => 5,
        ServiceCallView::ReportStatus { status, .. } => if status.current_state is Running {
            1
        } else {
            3
        },
        ServiceCallView::LogFailure(_) => 5,
        ServiceCallView::Return(_) => 6,
    }
}

/// A run only moves forward: the call that follows a call lies further from
/// the start, or is the end. So no call is made twice.
pub proof fn a_run_moves_forward(kind: RunKind, pending: ServiceCallView, reply: ServiceReplyView)
    ensures
        step_of(kind, Some(pending), reply) is Return || rank(pending) < rank(
            step_of(kind, Some(pending), reply),
        ),
{
}

/// No run goes on for ever: once six calls of a run are answered the run is
/// over, whatever the answers were.
pub proof fn a_run_ends(kind: RunKind, replies: Seq<ServiceReplyView>)
    ensures
        pending_after(kind, replies) is Return || replies.len() <= rank(
            pending_after(kind, replies),
        ) < 6,
        replies.len() >= 6 ==> pending_after(kind, replies) is Return,
    decreases replies.len(),
{
    if replies.len() > 0 {
        a_run_ends(kind, replies.drop_last());
        a_run_moves_forward(kind, pending_after(kind, replies.drop_last()), replies.last());
    }
}

} // verus!

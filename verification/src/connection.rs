//! One connection: the steps of the protocol handler, and the race between
//! the handler and the cancellation of the scope of the connection.

use crate::config::{Config, ConfigView, IpAddress, PasswordAuth, PasswordAuthView};
use crate::error::OUT_OF_STEP;
use crate::scope::{cancellation_is_permanent, CancellationScope, RegistryView, ScopeRegistry};
use crate::server::check_cancelled;
use vstd::prelude::*;

verus! {

/// What is told of a request that allows UDP while no public address is set.
pub const INVALID_REPLY_IP: &'static str = "invalid reply ip";

/// What a client asks for.
#[derive(Clone, Copy, Debug, PartialEq, Eq, Structural)]
pub enum Socks5Command {
    TcpConnect,
    TcpBind,
    UdpAssociate,
}

/// How the handler of a connection ended.
#[derive(Debug, PartialEq, Eq)]
pub enum HandlerResult {
    /// The request was served to its end, or was not to be executed.
    Relayed,
    /// The exchange failed; the text says how.
    ProtocolError(String),
    /// The client asked for what is not served, and was told so.
    CommandNotSupported,
}

/// [`HandlerResult`] as the contracts see it.
pub enum HandlerResultView {
    Relayed,
    ProtocolError(Seq<char>),
    CommandNotSupported,
}

impl View for HandlerResult {
    type V = HandlerResultView;

    open spec fn view(&self) -> HandlerResultView {
        match *self {
            HandlerResult::Relayed => HandlerResultView::Relayed,
            HandlerResult::ProtocolError(kind) => HandlerResultView::ProtocolError(kind@),
            HandlerResult::CommandNotSupported => HandlerResultView::CommandNotSupported,
        }
    }
}

impl Clone for HandlerResult {
    fn clone(&self) -> (copy: HandlerResult)
        ensures
            copy@ == self@,
    {
        match self {
            HandlerResult::Relayed => HandlerResult::Relayed,
            HandlerResult::ProtocolError(kind) => HandlerResult::ProtocolError(kind.clone()),
            HandlerResult::CommandNotSupported => HandlerResult::CommandNotSupported,
        }
    }
}

/// Why a connection failed.
#[derive(Debug, PartialEq, Eq)]
pub enum FailureReason {
    ProtocolError(String),
    CommandNotSupported,
}

/// [`FailureReason`] as the contracts see it.
pub enum FailureReasonView {
    ProtocolError(Seq<char>),
    CommandNotSupported,
}

impl View for FailureReason {
    type V = FailureReasonView;

    open spec fn view(&self) -> FailureReasonView {
        match *self {
            FailureReason::ProtocolError(kind) => FailureReasonView::ProtocolError(kind@),
            FailureReason::CommandNotSupported => FailureReasonView::CommandNotSupported,
        }
    }
}

impl Clone for FailureReason {
    fn clone(&self) -> (copy: FailureReason)
        ensures
            copy@ == self@,
    {
        match self {
            FailureReason::ProtocolError(kind) => FailureReason::ProtocolError(kind.clone()),
            FailureReason::CommandNotSupported => FailureReason::CommandNotSupported,
        }
    }
}

/// How the task of a connection ended.
#[derive(Debug, PartialEq, Eq)]
pub enum Outcome {
    Success,
    Failure(FailureReason),
    Cancelled,
}

/// [`Outcome`] as the contracts see it.
pub enum OutcomeView {
    Success,
    Failure(FailureReasonView),
    Cancelled,
}

impl View for Outcome {
    type V = OutcomeView;

    open spec fn view(&self) -> OutcomeView {
        match *self {
            Outcome::Success => OutcomeView::Success,
            Outcome::Failure(reason) => OutcomeView::Failure(reason@),
            Outcome::Cancelled => OutcomeView::Cancelled,
        }
    }
}

impl Clone for Outcome {
    fn clone(&self) -> (copy: Outcome)
        ensures
            copy@ == self@,
    {
        match self {
            Outcome::Success => Outcome::Success,
            Outcome::Failure(reason) => Outcome::Failure(reason.clone()),
            Outcome::Cancelled => Outcome::Cancelled,
        }
    }
}

impl OutcomeView {
    /// The outcome of a task whose handler ended with `result`.
    pub open spec fn of(result: HandlerResultView) -> OutcomeView {
        match result {
            HandlerResultView::Relayed => OutcomeView::Success,
            HandlerResultView::ProtocolError(kind) => OutcomeView::Failure(
                FailureReasonView::ProtocolError(kind),
            ),
            HandlerResultView::CommandNotSupported => OutcomeView::Failure(
                FailureReasonView::CommandNotSupported,
            ),
        }
    }
}

impl Outcome {
    /// The outcome of a task whose handler ended with `result`.
    pub fn of(result: HandlerResult) -> (outcome: Outcome)
        ensures
            outcome@ == OutcomeView::of(result@),
    {
        match result {
            HandlerResult::Relayed => Outcome::Success,
            HandlerResult::ProtocolError(kind) => Outcome::Failure(
                FailureReason::ProtocolError(kind),
            ),
            HandlerResult::CommandNotSupported => Outcome::Failure(
                FailureReason::CommandNotSupported,
            ),
        }
    }

    /// Whether the outcome goes on record as a failure: every outcome but
    /// success does.
    pub fn is_failure(&self) -> (failure: bool)
        ensures
            failure == !(self@ is Success),
    {
        match self {
            Outcome::Success => false,
            _ => true,
        }
    }
}

/// What goes on record of a connection once its task has ended.
#[derive(Debug, PartialEq, Eq)]
pub struct ConnectionReport {
    pub peer: String,
    pub outcome: Outcome,
}

/// [`ConnectionReport`] as the contracts see it.
pub struct ConnectionReportView {
    pub peer: Seq<char>,
    pub outcome: OutcomeView,
}

impl View for ConnectionReport {
    type V = ConnectionReportView;

    open spec fn view(&self) -> ConnectionReportView {
        ConnectionReportView { peer: self.peer@, outcome: self.outcome@ }
    }
}

impl Clone for ConnectionReport {
    fn clone(&self) -> (copy: ConnectionReport)
        ensures
            copy@ == self@,
    {
        ConnectionReport { peer: self.peer.clone(), outcome: self.outcome.clone() }
    }
}

/// What is on record of the connection from `peer`, whose scope is cancelled
/// or not, and whose handler has ended with `finished` or is still under way:
/// nothing while neither has happened, the cancellation wherever the scope is
/// cancelled, else the end of the handler.
pub open spec fn supervision(
    cancelled: bool,
    peer: Seq<char>,
    finished: Option<HandlerResultView>,
) -> Option<ConnectionReportView> {
    if cancelled {
        Some(ConnectionReportView { peer, outcome: OutcomeView::Cancelled })
    } else {
        match finished {
            Some(result) => Some(ConnectionReportView { peer, outcome: OutcomeView::of(result) }),
            None => None,
        }
    }
}

/// The handler result as the contracts see it.
pub open spec fn finished_view(finished: Option<HandlerResult>) -> Option<HandlerResultView> {
    match finished {
        Some(result) => Some(result@),
        None => None,
    }
}

/// The report as the contracts see it.
pub open spec fn report_view(report: Option<ConnectionReport>) -> Option<ConnectionReportView> {
    match report {
        Some(report) => Some(report@),
        None => None,
    }
}

/// Supervises the task of one connection. It is asked whenever the task
/// wakes, with what the handler has come to by then, and answers with what
/// goes on record, which ends the task: the cancellation as soon as the scope
/// of the connection is cancelled, whether the handler has ended or not and
/// without waiting for it; else the end of the handler. While neither has
/// happened it answers `None`, and the task sleeps again. The outcome is
/// handed to nobody else.
pub fn spawn_and_log_error(
    registry: &ScopeRegistry,
    scope: &CancellationScope,
    peer: String,
    finished: Option<HandlerResult>,
) -> (report: Option<ConnectionReport>)
    ensures
        report_view(report) == supervision(
            registry@.cancels(scope@),
            peer@,
            finished_view(finished),
        ),
{
    let ended = match finished {
        Some(result) => Some(Outcome::of(result)),
        None => None,
    };
    match check_cancelled(registry.is_cancelled(scope), ended, Outcome::Cancelled) {
        Some(outcome) => Some(ConnectionReport { peer, outcome }),
        None => None,
    }
}

/// A connection whose scope is cancelled ends as cancelled at once: also
/// where its handler never ends, and also where it just has.
pub proof fn cancellation_ends_the_task(
    registry: RegistryView,
    scope: Seq<u64>,
    peer: Seq<char>,
    finished: Option<HandlerResultView>,
)
    requires
        registry.cancels(scope),
    ensures
        supervision(registry.cancels(scope), peer, finished) == Some(
            ConnectionReportView { peer, outcome: OutcomeView::Cancelled },
        ),
{
}

/// A connection whose scope was cancelled stays cancelled: whenever its task
/// is asked again, in whatever the registry has become, the answer is the
/// cancellation.
pub proof fn a_cancelled_connection_stays_cancelled(
    earlier: RegistryView,
    later: RegistryView,
    scope: Seq<u64>,
    peer: Seq<char>,
    finished: Option<HandlerResultView>,
)
    requires
        later.extends(earlier),
        earlier.cancels(scope),
    ensures
        supervision(later.cancels(scope), peer, finished) == Some(
            ConnectionReportView { peer, outcome: OutcomeView::Cancelled },
        ),
{
    cancellation_is_permanent(earlier, later, scope);
}

/// Every end goes on record, under the name of the peer: whenever the scope
/// is cancelled or the handler has ended there is a report, and it names the
/// peer. There is none before.
pub proof fn every_end_goes_on_record(
    cancelled: bool,
    peer: Seq<char>,
    finished: Option<HandlerResultView>,
)
    ensures
        supervision(cancelled, peer, finished) is Some <==> cancelled || finished is Some,
        supervision(cancelled, peer, finished) matches Some(report) ==> report.peer == peer,
{
}

/// Whether `user` and `pass` are the credentials that `auth` asks for.
pub fn check_credentials(auth: &PasswordAuth, user: &String, pass: &String) -> (good: bool)
    ensures
        good == (user@ == auth@.username && pass@ == auth@.password),
{
    *user == auth.username && *pass == auth.password
}

/// A step that the handler of a connection asks its driver to make.
#[derive(Debug, PartialEq, Eq)]
pub enum HandlerCall {
    /// Treat the client as authenticated, without any exchange.
    SkipAuth,
    /// Negotiate that no authentication is needed.
    AcceptNoAuth,
    /// Negotiate authentication by password, against these credentials.
    AcceptPasswordAuth(PasswordAuth),
    /// Read what the client asks for.
    ReadCommand,
    /// Resolve the name of the target. The request is kept for the step after.
    ResolveDns(Socks5Command),
    /// Connect to the target and relay, with this many seconds for the request.
    RunTcpProxy { timeout_secs: u64 },
    /// Relay UDP, answering with this address.
    RunUdpProxy { reply_ip: IpAddress },
    /// Tell the client that its request is not served.
    ReplyCommandNotSupported,
    /// The handler is over, with this result.
    Return(HandlerResult),
}

/// [`HandlerCall`] as the contracts see it.
pub enum HandlerCallView {
    SkipAuth,
    AcceptNoAuth,
    AcceptPasswordAuth(PasswordAuthView),
    ReadCommand,
    ResolveDns(Socks5Command),
    RunTcpProxy { timeout_secs: u64 },
    RunUdpProxy { reply_ip: IpAddress },
    ReplyCommandNotSupported,
    Return(HandlerResultView),
}

impl View for HandlerCall {
    type V = HandlerCallView;

    open spec fn view(&self) -> HandlerCallView {
        match *self {
            HandlerCall::SkipAuth => HandlerCallView::SkipAuth,
            HandlerCall::AcceptNoAuth => HandlerCallView::AcceptNoAuth,
            HandlerCall::AcceptPasswordAuth(auth) => HandlerCallView::AcceptPasswordAuth(auth@),
            HandlerCall::ReadCommand => HandlerCallView::ReadCommand,
            HandlerCall::ResolveDns(command) => HandlerCallView::ResolveDns(command),
            HandlerCall::RunTcpProxy { timeout_secs } => HandlerCallView::RunTcpProxy {
                timeout_secs,
            },
            HandlerCall::RunUdpProxy { reply_ip } => HandlerCallView::RunUdpProxy { reply_ip },
            HandlerCall::ReplyCommandNotSupported => HandlerCallView::ReplyCommandNotSupported,
            HandlerCall::Return(result) => HandlerCallView::Return(result@),
        }
    }
}

impl Clone for HandlerCall {
    fn clone(&self) -> (copy: HandlerCall)
        ensures
            copy@ == self@,
    {
        match self {
            HandlerCall::SkipAuth => HandlerCall::SkipAuth,
            HandlerCall::AcceptNoAuth => HandlerCall::AcceptNoAuth,
            HandlerCall::AcceptPasswordAuth(auth) => HandlerCall::AcceptPasswordAuth(auth.clone()),
            HandlerCall::ReadCommand => HandlerCall::ReadCommand,
            HandlerCall::ResolveDns(command) => HandlerCall::ResolveDns(*command),
            HandlerCall::RunTcpProxy { timeout_secs } => HandlerCall::RunTcpProxy {
                timeout_secs: *timeout_secs,
            },
            HandlerCall::RunUdpProxy { reply_ip } => HandlerCall::RunUdpProxy {
                reply_ip: *reply_ip,
            },
            HandlerCall::ReplyCommandNotSupported => HandlerCall::ReplyCommandNotSupported,
            HandlerCall::Return(result) => HandlerCall::Return(result.clone()),
        }
    }
}

/// What came of a step.
#[derive(Debug, PartialEq, Eq)]
pub enum HandlerReply {
    /// The step was made, and there is nothing to tell.
    Done,
    /// What the client asks for.
    Command(Socks5Command),
    /// The step failed; the text says how.
    Failed(String),
}

/// [`HandlerReply`] as the contracts see it.
pub enum HandlerReplyView {
    Done,
    Command(Socks5Command),
    Failed(Seq<char>),
}

impl View for HandlerReply {
    type V = HandlerReplyView;

    open spec fn view(&self) -> HandlerReplyView {
        match *self {
            HandlerReply::Done => HandlerReplyView::Done,
            HandlerReply::Command(command) => HandlerReplyView::Command(command),
            HandlerReply::Failed(kind) => HandlerReplyView::Failed(kind@),
        }
    }
}

impl Clone for HandlerReply {
    fn clone(&self) -> (copy: HandlerReply)
        ensures
            copy@ == self@,
    {
        match self {
            HandlerReply::Done => HandlerReply::Done,
            HandlerReply::Command(command) => HandlerReply::Command(*command),
            HandlerReply::Failed(kind) => HandlerReply::Failed(kind.clone()),
        }
    }
}

/// The pending step as the contracts see it.
pub open spec fn pending_view(pending: Option<HandlerCall>) -> Option<HandlerCallView> {
    match pending {
        Some(call) => Some(call@),
        None => None,
    }
}

/// How a connection starts: without authentication where none is configured
/// and it is to be skipped, by negotiating that none is needed where none is
/// configured, else by password.
pub open spec fn opening(cfg: ConfigView) -> HandlerCallView {
    match cfg.auth {
        None => if cfg.skip_auth {
            HandlerCallView::SkipAuth
        } else {
            HandlerCallView::AcceptNoAuth
        },
        Some(auth) => HandlerCallView::AcceptPasswordAuth(auth),
    }
}

/// What is done for a request: nothing where requests are not to be executed;
/// a TCP connection is relayed within the configured time; UDP is relayed
/// where it is allowed, and fails where no public address is set; whatever
/// else is asked for is declined.
pub open spec fn route(cfg: ConfigView, command: Socks5Command) -> HandlerCallView {
    if !cfg.execute_command {
        HandlerCallView::Return(HandlerResultView::Relayed)
    } else {
        match command {
            Socks5Command::TcpConnect => HandlerCallView::RunTcpProxy {
                timeout_secs: cfg.request_timeout,
            },
            Socks5Command::UdpAssociate => if cfg.allow_udp {
                match cfg.public_addr {
                    Some(reply_ip) => HandlerCallView::RunUdpProxy { reply_ip },
                    None => HandlerCallView::Return(
                        HandlerResultView::ProtocolError(INVALID_REPLY_IP@),
                    ),
                }
            } else {
                HandlerCallView::ReplyCommandNotSupported
            },
            Socks5Command::TcpBind => HandlerCallView::ReplyCommandNotSupported,
        }
    }
}

/// How the handler ends on an answer that does not let it go on.
pub open spec fn failure(reply: HandlerReplyView) -> HandlerCallView {
    match reply {
        HandlerReplyView::Failed(kind) => HandlerCallView::Return(
            HandlerResultView::ProtocolError(kind),
        ),
        _ => HandlerCallView::Return(HandlerResultView::ProtocolError(OUT_OF_STEP@)),
    }
}

/// The step that the handler makes after `pending` was answered with
/// `reply`: authenticate as configured, read the request, resolve the target
/// where names are to be resolved, and do what is done for the request.
pub open spec fn serve_socks5_step(
    cfg: ConfigView,
    pending: Option<HandlerCallView>,
    reply: HandlerReplyView,
) -> HandlerCallView {
    match pending {
        None => opening(cfg),
        Some(HandlerCallView::SkipAuth)
        | Some(HandlerCallView::AcceptNoAuth)
        | Some(HandlerCallView::AcceptPasswordAuth(_)) => match reply {
            HandlerReplyView::Done => HandlerCallView::ReadCommand,
            _ => failure(reply),
        },
        Some(HandlerCallView::ReadCommand) => match reply {
            HandlerReplyView::Command(command) => if cfg.dns_resolve {
                HandlerCallView::ResolveDns(command)
            } else {
                route(cfg, command)
            },
            _ => failure(reply),
        },
        Some(HandlerCallView::ResolveDns(command)) => match reply {
            HandlerReplyView::Done => route(cfg, command),
            _ => failure(reply),
        },
        Some(HandlerCallView::RunTcpProxy { .. }) | Some(HandlerCallView::RunUdpProxy { .. }) =>
            match reply {
            HandlerReplyView::Done => HandlerCallView::Return(HandlerResultView::Relayed),
            _ => failure(reply),
        },
        Some(HandlerCallView::ReplyCommandNotSupported) => match reply {
            HandlerReplyView::Done => HandlerCallView::Return(
                HandlerResultView::CommandNotSupported,
            ),
            _ => failure(reply),
        },
        Some(HandlerCallView::Return(result)) => HandlerCallView::Return(result),
    }
}

/// Ends the handler on an answer that does not let it go on.
fn fail(reply: HandlerReply) -> (call: HandlerCall)
    ensures
        call@ == failure(reply@),
{
    match reply {
        HandlerReply::Failed(kind) => HandlerCall::Return(HandlerResult::ProtocolError(kind)),
        _ => HandlerCall::Return(HandlerResult::ProtocolError(OUT_OF_STEP.to_owned())),
    }
}

/// Decides what is done for a request.
fn route_command(cfg: &Config, command: Socks5Command) -> (call: HandlerCall)
    ensures
        call@ == route(cfg@, command),
{
    if !cfg.execute_command {
        return HandlerCall::Return(HandlerResult::Relayed);
    }
    match command {
        Socks5Command::TcpConnect => HandlerCall::RunTcpProxy {
            timeout_secs: cfg.request_timeout,
        },
        Socks5Command::UdpAssociate => if cfg.allow_udp {
            match cfg.public_addr {
                Some(reply_ip) => HandlerCall::RunUdpProxy { reply_ip },
                None => HandlerCall::Return(
                    HandlerResult::ProtocolError(INVALID_REPLY_IP.to_owned()),
                ),
            }
        } else {
            HandlerCall::ReplyCommandNotSupported
        },
        Socks5Command::TcpBind => HandlerCall::ReplyCommandNotSupported,
    }
}

/// The handler of one connection: authenticates the client as the
/// configuration says, reads its request, resolves the target where names are
/// to be resolved, and serves the request or declines it. The first step that
/// fails ends the handler with that failure.
pub fn serve_socks5(cfg: &Config, pending: Option<HandlerCall>, reply: HandlerReply) -> (call:
    HandlerCall)
    ensures
        call@ == serve_socks5_step(cfg@, pending_view(pending), reply@),
{
    match pending {
        None => match &cfg.auth {
            None => if cfg.skip_auth {
                HandlerCall::SkipAuth
            } else {
                HandlerCall::AcceptNoAuth
            },
            Some(auth) => HandlerCall::AcceptPasswordAuth(auth.clone()),
        },
        Some(HandlerCall::SkipAuth)
        | Some(HandlerCall::AcceptNoAuth)
        | Some(HandlerCall::AcceptPasswordAuth(_)) => match reply {
            HandlerReply::Done => HandlerCall::ReadCommand,
            reply => fail(reply),
        },
        Some(HandlerCall::ReadCommand) => match reply {
            HandlerReply::Command(command) => if cfg.dns_resolve {
                HandlerCall::ResolveDns(command)
            } else {
                route_command(cfg, command)
            },
            reply => fail(reply),
        },
        Some(HandlerCall::ResolveDns(command)) => match reply {
            HandlerReply::Done => route_command(cfg, command),
            reply => fail(reply),
        },
        Some(HandlerCall::RunTcpProxy { .. }) | Some(HandlerCall::RunUdpProxy { .. }) =>
            match reply {
            HandlerReply::Done => HandlerCall::Return(HandlerResult::Relayed),
            reply => fail(reply),
        },
        Some(HandlerCall::ReplyCommandNotSupported) => match reply {
            HandlerReply::Done => HandlerCall::Return(HandlerResult::CommandNotSupported),
            reply => fail(reply),
        },
        Some(HandlerCall::Return(result)) => HandlerCall::Return(result),
    }
}

/// A handler ends with "command not supported" only after the client was told
/// so: nothing but the answer to that reply brings this end.
pub proof fn the_client_is_told_before_the_handler_declines(
    cfg: ConfigView,
    pending: Option<HandlerCallView>,
    reply: HandlerReplyView,
)
    requires
        serve_socks5_step(cfg, pending, reply) == HandlerCallView::Return(
            HandlerResultView::CommandNotSupported,
        ),
        !(pending matches Some(HandlerCallView::Return(_))),
    ensures
        pending == Some(HandlerCallView::ReplyCommandNotSupported),
        reply is Done,
{
}

/// UDP is relayed only where it is allowed and a public address is set, and
/// then that address is the one answered with. Under a valid configuration a
/// request for UDP never fails for want of the address.
pub proof fn udp_is_relayed_only_where_allowed(cfg: ConfigView, command: Socks5Command)
    ensures
        route(cfg, command) is RunUdpProxy ==> cfg.allow_udp && cfg.public_addr == Some(
            route(cfg, command)->reply_ip,
        ),
        cfg.valid() ==> route(cfg, command) != HandlerCallView::Return(
            HandlerResultView::ProtocolError(INVALID_REPLY_IP@),
        ),
{
}

/// The step that is pending in a handler once its steps so far were answered
/// with `replies`, in this order.
pub open spec fn pending_after(cfg: ConfigView, replies: Seq<HandlerReplyView>) -> HandlerCallView
    decreases replies.len(),
{
    if replies.len() == 0 {
        serve_socks5_step(cfg, None, HandlerReplyView::Done)
    } else {
        serve_socks5_step(cfg, Some(pending_after(cfg, replies.drop_last())), replies.last())
    }
}

/// A handler that has ended stays ended: whatever answers follow, it makes no
/// further step, and keeps the result it had.
pub proof fn nothing_follows_the_end(
    cfg: ConfigView,
    replies: Seq<HandlerReplyView>,
    more: Seq<HandlerReplyView>,
    result: HandlerResultView,
)
    requires
        pending_after(cfg, replies) == HandlerCallView::Return(result),
    ensures
        pending_after(cfg, replies + more) == HandlerCallView::Return(result),
    decreases more.len(),
{
    if more.len() == 0 {
        assert(replies + more =~= replies);
    } else {
        nothing_follows_the_end(cfg, replies, more.drop_last(), result);
        assert((replies + more).drop_last() =~= replies + more.drop_last());
        assert((replies + more).last() == more.last());
    }
}

/// The first step that fails ends the handler, with the failure as it came,
/// and no step is made after it.
pub proof fn the_first_failure_ends_the_handler(
    cfg: ConfigView,
    replies: Seq<HandlerReplyView>,
    kind: Seq<char>,
    more: Seq<HandlerReplyView>,
)
    requires
        !(pending_after(cfg, replies) is Return),
    ensures
        pending_after(cfg, replies.push(HandlerReplyView::Failed(kind)) + more)
            == HandlerCallView::Return(HandlerResultView::ProtocolError(kind)),
{
    let failed = replies.push(HandlerReplyView::Failed(kind));
    assert(failed.drop_last() =~= replies);
    nothing_follows_the_end(cfg, failed, more, HandlerResultView::ProtocolError(kind));
}

/// A handler makes four steps at most: once four steps are answered it has
/// come to its end, whatever the answers were.
pub proof fn a_handler_makes_four_steps_at_most(cfg: ConfigView, replies: Seq<HandlerReplyView>)
    requires
        replies.len() >= 4,
    ensures
        pending_after(cfg, replies) is Return,
    decreases replies.len(),
{
    if replies.len() > 4 {
        a_handler_makes_four_steps_at_most(cfg, replies.drop_last());
    } else {
        let three = replies.drop_last();
        let two = three.drop_last();
        let one = two.drop_last();
        let none = one.drop_last();
        assert(none.len() == 0);
        let first = pending_after(cfg, none);
        let second = pending_after(cfg, one);
        let third = pending_after(cfg, two);
        let fourth = pending_after(cfg, three);
        assert(first == opening(cfg));
        assert(second is ReadCommand || second is Return);
        assert(third is ResolveDns || third is RunTcpProxy || third is RunUdpProxy
            || third is ReplyCommandNotSupported || third is Return);
        assert(fourth is RunTcpProxy || fourth is RunUdpProxy || fourth is ReplyCommandNotSupported
            || fourth is Return);
    }
}

} // verus!

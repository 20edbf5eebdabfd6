//! The accept loop.
//!
//! The server binds its listen address and then takes what the listener
//! yields until its scope is cancelled. Each connection is handed to a task of
//! its own, under a scope of its own, and the loop goes on without waiting for
//! it. Like the service controller, the server makes no call itself: it says
//! which call comes next, given the call that is pending and the answer to it,
//! and starts with no call pending.

use crate::config::{Config, ConfigView};
use crate::error::{clone_result, result_view, Error, ErrorView};
use crate::scope::{
    cancellation_is_permanent, parent_of, CancellationScope, RegistryView, ScopeRegistry,
};
use vstd::prelude::*;

verus! {

/// The race between a cancellation and something that may be ready. The
/// cancellation wins: where it is seen the answer is `default`, whatever is
/// ready; where it is not, the answer is what is ready, and `None` while
/// nothing is.
pub fn check_cancelled<R>(cancelled: bool, ready: Option<R>, default: R) -> (res: Option<R>)
    ensures
        res == if cancelled {
            Some(default)
        } else {
            ready
        },
{
    if cancelled {
        Some(default)
    } else {
        ready
    }
}

/// What a cancellable sequence yields when it is asked, given what the
/// sequence below it has ready: `None` while there is nothing to tell,
/// `Some(None)` at its end, `Some(Some(item))` for an item. It ends where the
/// sequence below it ends and as soon as the cancellation is seen, whatever
/// the sequence below has ready then.
pub fn stream_with_cancellation<T>(cancelled: bool, inner: Option<Option<T>>) -> (res: Option<
    Option<T>,
>)
    ensures
        res == if cancelled {
            Some(None::<T>)
        } else {
            inner
        },
{
    check_cancelled(cancelled, inner, None)
}

/// What a listener yields.
#[derive(Debug, PartialEq, Eq)]
pub enum Incoming {
    /// A connection, from the peer named.
    Connection { peer: String },
    /// Accepting a connection failed.
    Failed { cause: String },
}

/// [`Incoming`] as the contracts see it.
pub enum IncomingView {
    Connection { peer: Seq<char> },
    Failed { cause: Seq<char> },
}

impl View for Incoming {
    type V = IncomingView;

    open spec fn view(&self) -> IncomingView {
        match *self {
            Incoming::Connection { peer } => IncomingView::Connection { peer: peer@ },
            Incoming::Failed { cause } => IncomingView::Failed { cause: cause@ },
        }
    }
}

impl Clone for Incoming {
    fn clone(&self) -> (copy: Incoming)
        ensures
            copy@ == self@,
    {
        match self {
            Incoming::Connection { peer } => Incoming::Connection { peer: peer.clone() },
            Incoming::Failed { cause } => Incoming::Failed { cause: cause.clone() },
        }
    }
}

/// A call that the server asks its driver to make.
#[derive(Debug, PartialEq, Eq)]
pub enum ServerCall {
    /// Build the runtime that hosts the server.
    BuildRuntime,
    /// Run the accept loop on the runtime, to its end.
    Serve,
    /// Bind the listen address.
    Bind { address: String },
    /// Wait until the listener has something or the scope of the server is
    /// cancelled, and tell what the listener has.
    Await,
    /// Hand the connection just taken to a task of its own, which runs under
    /// `scope`, and do not wait for it.
    Dispatch { peer: String, scope: CancellationScope },
    /// Put the failed accept on record.
    ReportAcceptError { cause: String },
    /// The server is over, with this result.
    Return(Result<(), Error>),
}

/// [`ServerCall`] as the contracts see it.
pub enum ServerCallView {
    BuildRuntime,
    Serve,
    Bind { address: Seq<char> },
    Await,
    Dispatch { peer: Seq<char>, scope: Seq<u64> },
    ReportAcceptError { cause: Seq<char> },
    Return(Result<(), ErrorView>),
}

impl View for ServerCall {
    type V = ServerCallView;

    open spec fn view(&self) -> ServerCallView {
        match *self {
            ServerCall::BuildRuntime => ServerCallView::BuildRuntime,
            ServerCall::Serve => ServerCallView::Serve,
            ServerCall::Bind { address } => ServerCallView::Bind { address: address@ },
            ServerCall::Await => ServerCallView::Await,
            ServerCall::Dispatch { peer, scope } => ServerCallView::Dispatch {
                peer: peer@,
                scope: scope@,
            },
            ServerCall::ReportAcceptError { cause } => ServerCallView::ReportAcceptError {
                cause: cause@,
            },
            ServerCall::Return(result) => ServerCallView::Return(result_view(result)),
        }
    }
}

impl Clone for ServerCall {
    fn clone(&self) -> (copy: ServerCall)
        ensures
            copy@ == self@,
    {
        match self {
            ServerCall::BuildRuntime => ServerCall::BuildRuntime,
            ServerCall::Serve => ServerCall::Serve,
            ServerCall::Bind { address } => ServerCall::Bind { address: address.clone() },
            ServerCall::Await => ServerCall::Await,
            ServerCall::Dispatch { peer, scope } => ServerCall::Dispatch {
                peer: peer.clone(),
                scope: scope.clone(),
            },
            ServerCall::ReportAcceptError { cause } => ServerCall::ReportAcceptError {
                cause: cause.clone(),
            },
            ServerCall::Return(result) => ServerCall::Return(clone_result(result)),
        }
    }
}

/// What came of a call.
#[derive(Debug, PartialEq, Eq)]
pub enum ServerReply {
    /// The call was made, and there is nothing to tell.
    Done,
    /// What the listener had when the wait was over: `None` for nothing,
    /// `Some(None)` for its end, else what it yielded.
    Woke(Option<Option<Incoming>>),
    /// The accept loop came to its end, with this result.
    Served(Result<(), Error>),
    /// The call failed.
    Failed(String),
}

/// [`ServerReply`] as the contracts see it.
pub enum ServerReplyView {
    Done,
    Woke(Option<Option<IncomingView>>),
    Served(Result<(), ErrorView>),
    Failed(Seq<char>),
}

impl View for ServerReply {
    type V = ServerReplyView;

    open spec fn view(&self) -> ServerReplyView {
        match *self {
            ServerReply::Done => ServerReplyView::Done,
            ServerReply::Woke(inner) => ServerReplyView::Woke(
                match inner {
                    None => None,
                    Some(None) => Some(None),
                    Some(Some(item)) => Some(Some(item@)),
                },
            ),
            ServerReply::Served(result) => ServerReplyView::Served(result_view(result)),
            ServerReply::Failed(cause) => ServerReplyView::Failed(cause@),
        }
    }
}

impl Clone for ServerReply {
    fn clone(&self) -> (copy: ServerReply)
        ensures
            copy@ == self@,
    {
        match self {
            ServerReply::Done => ServerReply::Done,
            ServerReply::Woke(None) => ServerReply::Woke(None),
            ServerReply::Woke(Some(None)) => ServerReply::Woke(Some(None)),
            ServerReply::Woke(Some(Some(item))) => ServerReply::Woke(Some(Some(item.clone()))),
            ServerReply::Served(result) => ServerReply::Served(clone_result(result)),
            ServerReply::Failed(cause) => ServerReply::Failed(cause.clone()),
        }
    }
}

/// The pending call as the contracts see it.
pub open spec fn pending_view(pending: Option<ServerCall>) -> Option<ServerCallView> {
    match pending {
        Some(call) => Some(call@),
        None => None,
    }
}

/// The scope of control and, derived from it, the scope of the server: the
/// pair that a run starts with. There is none to be had once the identities
/// of the registry are used up; the registry may then have handed one out.
pub fn control_and_server_scopes(registry: &mut ScopeRegistry) -> (scopes: Option<
    (CancellationScope, CancellationScope),
>)
    ensures
        scopes matches Some((control, server)) ==> {
            &&& control@ == seq![old(registry)@.issued as u64]
            &&& server@ == control@.push((old(registry)@.issued + 1) as u64)
            &&& final(registry)@ == old(registry)@.after_issue().after_issue()
            &&& final(registry)@.knows(control@)
            &&& final(registry)@.knows(server@)
            &&& !final(registry)@.cancels(control@)
            &&& !final(registry)@.cancels(server@)
        },
        scopes is Some <==> old(registry)@.issued + 1 < u64::MAX,
        final(registry)@.extends(old(registry)@),
{
    let control = match registry.create_root() {
        Some(control) => control,
        None => {
            return None;
        },
    };
    let server = match registry.child(&control) {
        Some(server) => server,
        None => {
            return None;
        },
    };
    Some((control, server))
}

/// The call that the host of the server makes after `pending` was answered
/// with `reply`: build the runtime, run the accept loop on it, and end with
/// the result of the loop.
pub open spec fn server_executor_step(
    pending: Option<ServerCallView>,
    reply: ServerReplyView,
) -> ServerCallView {
    match pending {
        None => ServerCallView::BuildRuntime,
        Some(ServerCallView::BuildRuntime) => match reply {
            ServerReplyView::Done => ServerCallView::Serve,
            ServerReplyView::Failed(cause) => ServerCallView::Return(
                Err(ErrorView::Runtime { cause }),
            ),
            _ => ServerCallView::Return(Err(ErrorView::OutOfStep)),
        },
        Some(ServerCallView::Serve) => match reply {
            ServerReplyView::Served(result) => ServerCallView::Return(result),
            _ => ServerCallView::Return(Err(ErrorView::OutOfStep)),
        },
        Some(ServerCallView::Return(result)) => ServerCallView::Return(result),
        Some(_) => ServerCallView::Return(Err(ErrorView::OutOfStep)),
    }
}

/// Hosts the server: builds the runtime, runs the accept loop on it to its
/// end, and ends with the result of the loop, or with the failure to build
/// the runtime.
pub fn server_executor(pending: Option<ServerCall>, reply: ServerReply) -> (call: ServerCall)
    ensures
        call@ == server_executor_step(pending_view(pending), reply@),
{
    match pending {
        None => ServerCall::BuildRuntime,
        Some(ServerCall::BuildRuntime) => match reply {
            ServerReply::Done => ServerCall::Serve,
            ServerReply::Failed(cause) => ServerCall::Return(Err(Error::Runtime { cause })),
            _ => ServerCall::Return(Err(Error::OutOfStep)),
        },
        Some(ServerCall::Serve) => match reply {
            ServerReply::Served(result) => ServerCall::Return(result),
            _ => ServerCall::Return(Err(Error::OutOfStep)),
        },
        Some(ServerCall::Return(result)) => ServerCall::Return(result),
        Some(_) => ServerCall::Return(Err(Error::OutOfStep)),
    }
}

/// What the server does with what the listener yielded while its scope was
/// not cancelled: a connection gets a scope of its own and is dispatched, a
/// failed accept is put on record. The registry that results comes first.
pub open spec fn take(registry: RegistryView, scope: Seq<u64>, item: IncomingView) -> (
    RegistryView,
    ServerCallView,
) {
    match item {
        IncomingView::Connection { peer } => if registry.knows(scope) && registry.has_room() {
            (
                registry.after_issue(),
                ServerCallView::Dispatch { peer, scope: scope.push(registry.issued as u64) },
            )
        } else {
            (registry, ServerCallView::Return(Err(ErrorView::NoScope)))
        },
        IncomingView::Failed { cause } => (registry, ServerCallView::ReportAcceptError { cause }),
    }
}

/// The call that the server makes after `pending` was answered with `reply`,
/// and the registry after it. The server runs under `scope`.
///
/// It starts by validating the configuration and binds only a valid one. Once
/// bound it waits, and after each wait it looks at its scope first: if that is
/// cancelled the server ends, whatever the listener has. Else it takes what
/// the listener has, and waits again.
pub open spec fn server_step(
    cfg: ConfigView,
    registry: RegistryView,
    scope: Seq<u64>,
    pending: Option<ServerCallView>,
    reply: ServerReplyView,
) -> (RegistryView, ServerCallView) {
    match pending {
        None => match cfg.violation() {
            Some(e) => (registry, ServerCallView::Return(Err(ErrorView::ConfigValidation(e)))),
            None => (registry, ServerCallView::Bind { address: cfg.listen_addr }),
        },
        Some(ServerCallView::Bind { address }) => match reply {
            ServerReplyView::Done => (registry, ServerCallView::Await),
            ServerReplyView::Failed(cause) => (
                registry,
                ServerCallView::Return(Err(ErrorView::Bind { address, cause })),
            ),
            _ => (registry, ServerCallView::Return(Err(ErrorView::OutOfStep))),
        },
        Some(ServerCallView::Await) => match reply {
            ServerReplyView::Woke(inner) => if registry.cancels(scope) {
                (registry, ServerCallView::Return(Ok(())))
            } else {
                match inner {
                    None => (registry, ServerCallView::Await),
                    Some(None) => (registry, ServerCallView::Return(Ok(()))),
                    Some(Some(item)) => take(registry, scope, item),
                }
            },
            _ => (registry, ServerCallView::Return(Err(ErrorView::OutOfStep))),
        },
        Some(ServerCallView::Dispatch { .. }) => match reply {
            ServerReplyView::Done => (registry, ServerCallView::Await),
            _ => (registry, ServerCallView::Return(Err(ErrorView::OutOfStep))),
        },
        Some(ServerCallView::ReportAcceptError { .. }) => match reply {
            ServerReplyView::Done => (registry, ServerCallView::Await),
            _ => (registry, ServerCallView::Return(Err(ErrorView::OutOfStep))),
        },
        Some(ServerCallView::Return(result)) => (registry, ServerCallView::Return(result)),
        Some(_) => (registry, ServerCallView::Return(Err(ErrorView::OutOfStep))),
    }
}

/// The server: validates the configuration, binds the listen address, and
/// then takes connections until its scope is cancelled, each into a task and a
/// scope of its own. A failed accept is put on record and the loop goes on.
/// The server ends with a failure only where the configuration is invalid, the
/// address cannot be bound, or no scope is left for a connection.
pub fn spawn_socks5_server(
    cfg: &Config,
    registry: &mut ScopeRegistry,
    scope: &CancellationScope,
    pending: Option<ServerCall>,
    reply: ServerReply,
) -> (call: ServerCall)
    ensures
        (final(registry)@, call@) == server_step(
            cfg@,
            old(registry)@,
            scope@,
            pending_view(pending),
            reply@,
        ),
        final(registry)@.extends(old(registry)@),
{
    match pending {
        None => match cfg.validate() {
            Err(e) => ServerCall::Return(Err(Error::ConfigValidation(e))),
            Ok(()) => ServerCall::Bind { address: cfg.listen_addr.clone() },
        },
        Some(ServerCall::Bind { address }) => match reply {
            ServerReply::Done => ServerCall::Await,
            ServerReply::Failed(cause) => ServerCall::Return(Err(Error::Bind { address, cause })),
            _ => ServerCall::Return(Err(Error::OutOfStep)),
        },
        Some(ServerCall::Await) => match reply {
            ServerReply::Woke(inner) => {
                match stream_with_cancellation(registry.is_cancelled(scope), inner) {
                    None => ServerCall::Await,
                    Some(None) => ServerCall::Return(Ok(())),
                    Some(Some(Incoming::Connection { peer })) => match registry.child(scope) {
                        Some(child) => ServerCall::Dispatch { peer, scope: child },
                        None => ServerCall::Return(Err(Error::NoScope)),
                    },
                    Some(Some(Incoming::Failed { cause })) => ServerCall::ReportAcceptError {
                        cause,
                    },
                }
            },
            _ => ServerCall::Return(Err(Error::OutOfStep)),
        },
        Some(ServerCall::Dispatch { .. }) => match reply {
            ServerReply::Done => ServerCall::Await,
            _ => ServerCall::Return(Err(Error::OutOfStep)),
        },
        Some(ServerCall::ReportAcceptError { .. }) => match reply {
            ServerReply::Done => ServerCall::Await,
            _ => ServerCall::Return(Err(Error::OutOfStep)),
        },
        Some(ServerCall::Return(result)) => ServerCall::Return(result),
        Some(_) => ServerCall::Return(Err(Error::OutOfStep)),
    }
}

/// Cancellation ends the accepting. While the scope of the server is
/// cancelled the server dispatches nothing, whatever call is pending and
/// whatever the answer, and leaves the registry as it is. A connection that
/// was dispatched before may still be under way; none follows.
pub proof fn nothing_is_dispatched_after_cancellation(
    cfg: ConfigView,
    registry: RegistryView,
    scope: Seq<u64>,
    pending: Option<ServerCallView>,
    reply: ServerReplyView,
)
    requires
        registry.cancels(scope),
    ensures
        !(server_step(cfg, registry, scope, pending, reply).1 is Dispatch),
        server_step(cfg, registry, scope, pending, reply).0 == registry,
{
}

/// A server whose scope is cancelled ends at its next wake-up, without a
/// failure, whatever the listener has ready then.
pub proof fn a_cancelled_server_ends_at_its_next_wake(
    cfg: ConfigView,
    registry: RegistryView,
    scope: Seq<u64>,
    inner: Option<Option<IncomingView>>,
)
    requires
        registry.cancels(scope),
    ensures
        server_step(cfg, registry, scope, Some(ServerCallView::Await), ServerReplyView::Woke(inner))
            == (registry, ServerCallView::Return(Ok(()))),
{
}

/// A failed accept does not end the loop: it is put on record, and the server
/// waits again.
pub proof fn a_failed_accept_does_not_end_the_loop(
    cfg: ConfigView,
    registry: RegistryView,
    scope: Seq<u64>,
    cause: Seq<char>,
)
    requires
        !registry.cancels(scope),
    ensures
        server_step(
            cfg,
            registry,
            scope,
            Some(ServerCallView::Await),
            ServerReplyView::Woke(Some(Some(IncomingView::Failed { cause }))),
        ) == (registry, ServerCallView::ReportAcceptError { cause }),
        server_step(
            cfg,
            registry,
            scope,
            Some(ServerCallView::ReportAcceptError { cause }),
            ServerReplyView::Done,
        ) == (registry, ServerCallView::Await),
{
}

/// The loop does not wait for a connection: as soon as one is dispatched the
/// server waits for the next, whatever becomes of the first.
pub proof fn the_loop_does_not_wait_for_a_connection(
    cfg: ConfigView,
    registry: RegistryView,
    scope: Seq<u64>,
    peer: Seq<char>,
    child: Seq<u64>,
)
    ensures
        server_step(
            cfg,
            registry,
            scope,
            Some(ServerCallView::Dispatch { peer, scope: child }),
            ServerReplyView::Done,
        ) == (registry, ServerCallView::Await),
{
}

/// Each connection gets a scope of its own: one derived from the scope of the
/// server, that no connection before it has, and that is not cancelled when
/// the connection is dispatched.
pub proof fn each_connection_gets_a_scope_of_its_own(
    cfg: ConfigView,
    registry: RegistryView,
    scope: Seq<u64>,
    pending: Option<ServerCallView>,
    reply: ServerReplyView,
)
    requires
        registry.wf(),
        server_step(cfg, registry, scope, pending, reply).1 is Dispatch,
        !(pending matches Some(ServerCallView::Return(_))),
    ensures
        ({
            let (after, call) = server_step(cfg, registry, scope, pending, reply);
            &&& call matches ServerCallView::Dispatch { scope: child, .. }
            &&& parent_of(child) == scope
            &&& !registry.knows(child)
            &&& after.knows(child)
            &&& !after.cancels(child)
        }),
{
    let (after, call) = server_step(cfg, registry, scope, pending, reply);
    let child = call->Dispatch_scope;
    assert(child == scope.push(registry.issued as u64));
    assert(parent_of(child) =~= scope);
    assert(!registry.cancels(scope));
    if after.cancels(child) {
        let i = choose|i: int| 0 <= i < child.len() && after.cancelled.contains(#[trigger] child[i]);
        if i < scope.len() {
            assert(scope[i] == child[i]);
        }
    }
}

/// A server that has ended stays ended, with the result it had, and changes
/// the registry no more.
pub proof fn the_server_ends_once(
    cfg: ConfigView,
    registry: RegistryView,
    scope: Seq<u64>,
    result: Result<(), ErrorView>,
    reply: ServerReplyView,
)
    ensures
        server_step(cfg, registry, scope, Some(ServerCallView::Return(result)), reply) == (
            registry,
            ServerCallView::Return(result),
        ),
{
}

/// An invalid configuration ends the server before anything is bound, with
/// the rule that it breaks; a valid one is bound at the address it names.
pub proof fn only_a_valid_configuration_is_bound(
    cfg: ConfigView,
    registry: RegistryView,
    scope: Seq<u64>,
    reply: ServerReplyView,
)
    ensures
        cfg.valid() ==> server_step(cfg, registry, scope, None, reply).1 == (ServerCallView::Bind {
            address: cfg.listen_addr,
        }),
        !cfg.valid() ==> server_step(cfg, registry, scope, None, reply).1
            == ServerCallView::Return(Err(ErrorView::ConfigValidation(cfg.violation().unwrap()))),
{
}

/// What happens in the life of a server.
pub enum ServerEvent {
    /// The driver answers the pending call.
    Reply(ServerReplyView),
    /// Someone cancels the scope with this lineage, while a call is pending.
    Cancel(Seq<u64>),
}

/// The registry and the pending call of a server that runs under `scope`,
/// after it went through `events`. Before the first answer no call is pending.
pub open spec fn server_after(
    cfg: ConfigView,
    registry: RegistryView,
    scope: Seq<u64>,
    events: Seq<ServerEvent>,
) -> (RegistryView, Option<ServerCallView>)
    decreases events.len(),
{
    if events.len() == 0 {
        (registry, None)
    } else {
        let (before, pending) = server_after(cfg, registry, scope, events.drop_last());
        match events.last() {
            ServerEvent::Reply(reply) => {
                let (after, call) = server_step(cfg, before, scope, pending, reply);
                (after, Some(call))
            },
            ServerEvent::Cancel(ids) => (before.after_cancel(ids), pending),
        }
    }
}

/// In the life of a server the registry only grows.
pub proof fn the_registry_grows_with_the_server(
    cfg: ConfigView,
    registry: RegistryView,
    scope: Seq<u64>,
    events: Seq<ServerEvent>,
    more: Seq<ServerEvent>,
)
    ensures
        server_after(cfg, registry, scope, events + more).0.extends(
            server_after(cfg, registry, scope, events).0,
        ),
    decreases more.len(),
{
    if more.len() == 0 {
        assert(events + more =~= events);
    } else {
        the_registry_grows_with_the_server(cfg, registry, scope, events, more.drop_last());
        assert((events + more).drop_last() =~= events + more.drop_last());
        assert((events + more).last() == more.last());
    }
}

/// Once the scope of a server is cancelled, no call that the server makes is
/// a dispatch, whatever the listener yields from then on and for as long as
/// the server is asked. The one connection that may still surface is the one
/// whose dispatch was pending when the cancellation came.
pub proof fn no_connection_is_taken_after_cancellation(
    cfg: ConfigView,
    registry: RegistryView,
    scope: Seq<u64>,
    events: Seq<ServerEvent>,
    more: Seq<ServerEvent>,
    reply: ServerReplyView,
)
    requires
        server_after(cfg, registry, scope, events).0.cancels(scope),
    ensures
        !(server_after(cfg, registry, scope, (events + more).push(ServerEvent::Reply(reply))).1
            matches Some(ServerCallView::Dispatch { .. })),
{
    let all = (events + more).push(ServerEvent::Reply(reply));
    assert(all.drop_last() =~= events + more);
    the_registry_grows_with_the_server(cfg, registry, scope, events, more);
    let (before, pending) = server_after(cfg, registry, scope, events + more);
    cancellation_is_permanent(server_after(cfg, registry, scope, events).0, before, scope);
    nothing_is_dispatched_after_cancellation(cfg, before, scope, pending, reply);
}

} // verus!

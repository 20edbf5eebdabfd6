use socks5ws::config::{Config, ConfigError, PasswordAuth};
use socks5ws::error::Error;
use socks5ws::scope::{CancellationScope, ScopeRegistry};
use socks5ws::server::{
    check_cancelled, control_and_server_scopes, server_executor, spawn_socks5_server,
    stream_with_cancellation, Incoming, ServerCall, ServerReply,
};

fn connection(peer: &str) -> ServerReply {
    ServerReply::Woke(Some(Some(Incoming::Connection { peer: peer.to_string() })))
}

fn scopes() -> (ScopeRegistry, CancellationScope, CancellationScope) {
    let mut registry = ScopeRegistry::new();
    let (control, server) = control_and_server_scopes(&mut registry).unwrap();
    (registry, control, server)
}

/// A server that is bound and waits.
fn listening(cfg: &Config, registry: &mut ScopeRegistry, scope: &CancellationScope) -> ServerCall {
    let call = spawn_socks5_server(cfg, registry, scope, None, ServerReply::Done);
    assert_eq!(call, ServerCall::Bind { address: cfg.listen_addr.clone() });
    let call = spawn_socks5_server(cfg, registry, scope, Some(call), ServerReply::Done);
    assert_eq!(call, ServerCall::Await);
    call
}

#[test]
fn check_cancelled_prefers_the_cancellation() {
    assert_eq!(check_cancelled(true, Some(7), 0), Some(0));
    assert_eq!(check_cancelled(true, None, 0), Some(0));
    assert_eq!(check_cancelled(false, Some(7), 0), Some(7));
    assert_eq!(check_cancelled(false, None::<u8>, 0), None);
}

#[test]
fn a_cancelled_stream_ends_whatever_is_ready() {
    assert_eq!(stream_with_cancellation(true, Some(Some("c2"))), Some(None));
    assert_eq!(stream_with_cancellation(true, None::<Option<&str>>), Some(None));
    assert_eq!(stream_with_cancellation(true, Some(None::<&str>)), Some(None));
}

#[test]
fn a_stream_that_is_not_cancelled_yields_what_is_below() {
    assert_eq!(stream_with_cancellation(false, Some(Some("c1"))), Some(Some("c1")));
    assert_eq!(stream_with_cancellation(false, Some(None::<&str>)), Some(None));
    assert_eq!(stream_with_cancellation(false, None::<Option<&str>>), None);
}

#[test]
fn the_control_scope_is_the_parent_of_the_server_scope() {
    let (mut registry, control, server) = scopes();
    assert_eq!(control.id(), 0);
    assert_eq!(server.id(), 1);
    assert!(!registry.is_cancelled(&server));
    registry.cancel(&control);
    assert!(registry.is_cancelled(&server));
}

#[test]
fn cancelling_between_two_connections_yields_the_first_only() {
    let cfg = Config::default();
    let (mut registry, control, server) = scopes();
    let call = listening(&cfg, &mut registry, &server);

    let call = spawn_socks5_server(&cfg, &mut registry, &server, Some(call), connection("c1"));
    let first = match &call {
        ServerCall::Dispatch { peer, scope } => {
            assert_eq!(peer, "c1");
            scope.clone()
        }
        other => panic!("unexpected call {:?}", other),
    };
    let call = spawn_socks5_server(&cfg, &mut registry, &server, Some(call), ServerReply::Done);
    assert_eq!(call, ServerCall::Await);

    registry.cancel(&control);

    let call = spawn_socks5_server(&cfg, &mut registry, &server, Some(call), connection("c2"));
    assert_eq!(call, ServerCall::Return(Ok(())));
    let call = spawn_socks5_server(&cfg, &mut registry, &server, Some(call), connection("c3"));
    assert_eq!(call, ServerCall::Return(Ok(())));
    assert!(registry.is_cancelled(&first));
    assert_eq!(registry.issued(), 3);
}

#[test]
fn a_connection_taken_before_the_cancellation_is_the_one_extra() {
    let cfg = Config::default();
    let (mut registry, control, server) = scopes();
    let call = listening(&cfg, &mut registry, &server);
    let call = spawn_socks5_server(&cfg, &mut registry, &server, Some(call), connection("c1"));
    let call = spawn_socks5_server(&cfg, &mut registry, &server, Some(call), ServerReply::Done);

    let call = spawn_socks5_server(&cfg, &mut registry, &server, Some(call), connection("c2"));
    assert!(matches!(&call, ServerCall::Dispatch { peer, .. } if peer == "c2"));
    registry.cancel(&control);
    let call = spawn_socks5_server(&cfg, &mut registry, &server, Some(call), ServerReply::Done);
    assert_eq!(call, ServerCall::Await);

    let call = spawn_socks5_server(&cfg, &mut registry, &server, Some(call), connection("c3"));
    assert_eq!(call, ServerCall::Return(Ok(())));
}

#[test]
fn a_wake_up_by_the_cancellation_alone_ends_the_server() {
    let cfg = Config::default();
    let (mut registry, control, server) = scopes();
    let call = listening(&cfg, &mut registry, &server);
    registry.cancel(&control);
    let call = spawn_socks5_server(&cfg, &mut registry, &server, Some(call), ServerReply::Woke(None));
    assert_eq!(call, ServerCall::Return(Ok(())));
}

#[test]
fn a_wake_up_for_nothing_waits_again() {
    let cfg = Config::default();
    let (mut registry, _control, server) = scopes();
    let call = listening(&cfg, &mut registry, &server);
    let call = spawn_socks5_server(&cfg, &mut registry, &server, Some(call), ServerReply::Woke(None));
    assert_eq!(call, ServerCall::Await);
}

#[test]
fn each_connection_gets_a_scope_of_its_own() {
    let cfg = Config::default();
    let (mut registry, _control, server) = scopes();
    let mut call = listening(&cfg, &mut registry, &server);
    let mut taken = Vec::new();
    for peer in ["10.0.0.1:4000", "10.0.0.2:4000", "10.0.0.3:4000"] {
        call = spawn_socks5_server(&cfg, &mut registry, &server, Some(call), connection(peer));
        match &call {
            ServerCall::Dispatch { peer: named, scope } => {
                assert_eq!(named, peer);
                taken.push(scope.clone());
            }
            other => panic!("unexpected call {:?}", other),
        }
        call = spawn_socks5_server(&cfg, &mut registry, &server, Some(call), ServerReply::Done);
        assert_eq!(call, ServerCall::Await);
    }
    assert_eq!(taken[0].id(), 2);
    assert_eq!(taken[1].id(), 3);
    assert_eq!(taken[2].id(), 4);
    registry.cancel(&taken[1]);
    assert!(!registry.is_cancelled(&taken[0]));
    assert!(registry.is_cancelled(&taken[1]));
    assert!(!registry.is_cancelled(&taken[2]));
    assert!(!registry.is_cancelled(&server));
}

#[test]
fn a_failed_accept_is_reported_and_the_loop_goes_on() {
    let cfg = Config::default();
    let (mut registry, _control, server) = scopes();
    let call = listening(&cfg, &mut registry, &server);
    let failed = ServerReply::Woke(Some(Some(Incoming::Failed {
        cause: "too many open files".to_string(),
    })));
    let call = spawn_socks5_server(&cfg, &mut registry, &server, Some(call), failed);
    assert_eq!(call, ServerCall::ReportAcceptError { cause: "too many open files".to_string() });
    let call = spawn_socks5_server(&cfg, &mut registry, &server, Some(call), ServerReply::Done);
    assert_eq!(call, ServerCall::Await);
    let call = spawn_socks5_server(&cfg, &mut registry, &server, Some(call), connection("late"));
    assert!(matches!(call, ServerCall::Dispatch { .. }));
}

#[test]
fn the_end_of_the_listener_ends_the_server() {
    let cfg = Config::default();
    let (mut registry, _control, server) = scopes();
    let call = listening(&cfg, &mut registry, &server);
    let call =
        spawn_socks5_server(&cfg, &mut registry, &server, Some(call), ServerReply::Woke(Some(None)));
    assert_eq!(call, ServerCall::Return(Ok(())));
}

#[test]
fn an_invalid_configuration_is_never_bound() {
    let (mut registry, _control, server) = scopes();
    let udp = Config { allow_udp: true, ..Config::default() };
    let call = spawn_socks5_server(&udp, &mut registry, &server, None, ServerReply::Done);
    assert_eq!(
        call,
        ServerCall::Return(Err(Error::ConfigValidation(ConfigError::UdpWithoutPublicAddr)))
    );
    let auth = Config {
        skip_auth: true,
        auth: Some(PasswordAuth { username: "u".to_string(), password: "p".to_string() }),
        ..Config::default()
    };
    let call = spawn_socks5_server(&auth, &mut registry, &server, None, ServerReply::Done);
    assert_eq!(
        call,
        ServerCall::Return(Err(Error::ConfigValidation(ConfigError::SkipAuthWithCredentials)))
    );
}

#[test]
fn a_failed_bind_ends_the_server() {
    let cfg = Config { listen_addr: "127.0.0.1:80".to_string(), ..Config::default() };
    let (mut registry, _control, server) = scopes();
    let call = spawn_socks5_server(&cfg, &mut registry, &server, None, ServerReply::Done);
    let call = spawn_socks5_server(
        &cfg,
        &mut registry,
        &server,
        Some(call),
        ServerReply::Failed("permission denied".to_string()),
    );
    assert_eq!(
        call,
        ServerCall::Return(Err(Error::Bind {
            address: "127.0.0.1:80".to_string(),
            cause: "permission denied".to_string(),
        }))
    );
}

#[test]
fn a_server_under_an_unknown_scope_takes_no_connection() {
    let cfg = Config::default();
    let mut registry = ScopeRegistry::new();
    let (_control, foreign) = control_and_server_scopes(&mut ScopeRegistry::new()).unwrap();
    let call = spawn_socks5_server(
        &cfg,
        &mut registry,
        &foreign,
        Some(ServerCall::Await),
        connection("peer"),
    );
    assert_eq!(call, ServerCall::Return(Err(Error::NoScope)));
    assert_eq!(registry.issued(), 0);
}

#[test]
fn the_server_answers_out_of_step_with_a_failure() {
    let cfg = Config::default();
    let (mut registry, _control, server) = scopes();
    let call =
        spawn_socks5_server(&cfg, &mut registry, &server, Some(ServerCall::Await), ServerReply::Done);
    assert_eq!(call, ServerCall::Return(Err(Error::OutOfStep)));
    let call = spawn_socks5_server(
        &cfg,
        &mut registry,
        &server,
        Some(ServerCall::BuildRuntime),
        ServerReply::Done,
    );
    assert_eq!(call, ServerCall::Return(Err(Error::OutOfStep)));
}

#[test]
fn server_executor_hands_on_the_result_of_the_loop() {
    let call = server_executor(None, ServerReply::Done);
    assert_eq!(call, ServerCall::BuildRuntime);
    let call = server_executor(Some(call), ServerReply::Done);
    assert_eq!(call, ServerCall::Serve);
    let bind = Error::Bind { address: "a".to_string(), cause: "b".to_string() };
    let call = server_executor(Some(call), ServerReply::Served(Err(bind.clone())));
    assert_eq!(call, ServerCall::Return(Err(bind)));
    let call = server_executor(Some(ServerCall::Serve), ServerReply::Served(Ok(())));
    assert_eq!(call, ServerCall::Return(Ok(())));
}

#[test]
fn server_executor_fails_without_a_runtime() {
    let call = server_executor(
        Some(ServerCall::BuildRuntime),
        ServerReply::Failed("no threads".to_string()),
    );
    assert_eq!(call, ServerCall::Return(Err(Error::Runtime { cause: "no threads".to_string() })));
    let call = server_executor(Some(ServerCall::Serve), ServerReply::Done);
    assert_eq!(call, ServerCall::Return(Err(Error::OutOfStep)));
}

#[test]
fn one_client_is_dispatched_once_and_an_interrupt_ends_the_server() {
    let cfg = Config { listen_addr: "127.0.0.1:0".to_string(), ..Config::default() };
    let (mut registry, control, server) = scopes();
    let replies = vec![
        ServerReply::Done,
        ServerReply::Woke(None),
        connection("127.0.0.1:50000"),
        ServerReply::Done,
        ServerReply::Woke(None),
    ];
    let mut dispatched = Vec::new();
    let mut call = spawn_socks5_server(&cfg, &mut registry, &server, None, ServerReply::Done);
    for reply in replies {
        call = spawn_socks5_server(&cfg, &mut registry, &server, Some(call), reply);
        if let ServerCall::Dispatch { peer, scope } = &call {
            dispatched.push((peer.clone(), scope.clone()));
        }
    }
    assert_eq!(call, ServerCall::Await);
    assert_eq!(dispatched.len(), 1);
    assert_eq!(dispatched[0].0, "127.0.0.1:50000");

    socks5ws::service::handle_interrupt(&mut registry, &control);
    let call = spawn_socks5_server(&cfg, &mut registry, &server, Some(call), ServerReply::Woke(None));
    assert_eq!(call, ServerCall::Return(Ok(())));
    assert!(registry.is_cancelled(&dispatched[0].1));
}

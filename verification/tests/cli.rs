use socks5ws::cli::{
    create_logger, run_command, save_default_config, Command, LogNaming, MainCall, MainReply,
    Rotation, Severity, KEPT_LOG_FILES, LOG_LEVEL, LOG_SPEC_FILE_NAME,
};
use socks5ws::config::{Config, SaveCall, StoreReply};
use socks5ws::error::{exit_code, Error, Operation};

#[test]
fn save_default_config_writes_the_defaults() {
    let call = save_default_config(None, StoreReply::Done);
    assert_eq!(call, SaveCall::Locate { file_name: "config.toml".to_string() });
    let call = save_default_config(Some(call), StoreReply::Path("/srv/config.toml".to_string()));
    assert_eq!(
        call,
        SaveCall::Write { path: "/srv/config.toml".to_string(), config: Config::default() }
    );
    let call = save_default_config(Some(call), StoreReply::Done);
    assert_eq!(call, SaveCall::Return(Ok(())));
}

#[test]
fn save_default_config_ends_with_the_failure_to_write() {
    let write = SaveCall::Write { path: "p".to_string(), config: Config::default() };
    let call = save_default_config(Some(write), StoreReply::Failed("read-only".to_string()));
    assert_eq!(call, SaveCall::Return(Err(Error::ConfigStore { cause: "read-only".to_string() })));
}

#[test]
fn the_log_is_set_up_as_documented() {
    let settings = create_logger();
    assert_eq!(settings.level, "info");
    assert_eq!(settings.spec_file_name, "logspec.toml");
    assert!(settings.beside_executable);
    assert_eq!(settings.rotation, Rotation::Daily);
    assert_eq!(settings.naming, LogNaming::Timestamps);
    assert_eq!(settings.kept_files, 4);
    assert!(settings.detailed);
    assert!(settings.print_message);
    assert_eq!(settings.duplicate_to_stdout, Severity::Info);
    assert!(settings.asynchronous);
    assert_eq!(LOG_LEVEL, "info");
    assert_eq!(LOG_SPEC_FILE_NAME, "logspec.toml");
    assert_eq!(KEPT_LOG_FILES, 4);
}

#[test]
fn a_subcommand_that_succeeds_exits_with_zero() {
    let call = run_command(Command::Start, None, MainReply::Done);
    assert_eq!(call, MainCall::CreateLogger);
    let call = run_command(Command::Start, Some(call), MainReply::Done);
    assert_eq!(call, MainCall::Run(Command::Start));
    let call = run_command(Command::Start, Some(call), MainReply::Finished(Ok(())));
    assert_eq!(call, MainCall::Exit(Ok(())));
    match call {
        MainCall::Exit(result) => assert_eq!(exit_code(&result), 0),
        other => panic!("unexpected call {:?}", other),
    }
}

#[test]
fn a_subcommand_that_fails_is_logged_and_exits_with_nonzero() {
    let error = Error::ServiceManager {
        operation: Operation::OpenService,
        cause: "the service does not exist".to_string(),
    };
    let call = run_command(
        Command::Stop,
        Some(MainCall::Run(Command::Stop)),
        MainReply::Finished(Err(error.clone())),
    );
    assert_eq!(call, MainCall::LogFailure { command: Command::Stop, error: error.clone() });
    let call = run_command(Command::Stop, Some(call), MainReply::Done);
    assert_eq!(call, MainCall::Exit(Err(error.clone())));
    assert_eq!(exit_code(&Err(error)), 1);
}

#[test]
fn nothing_runs_without_a_log() {
    let call = run_command(
        Command::Serve,
        Some(MainCall::CreateLogger),
        MainReply::Failed("can't start logger".to_string()),
    );
    assert_eq!(call, MainCall::Exit(Err(Error::Logger { cause: "can't start logger".to_string() })));
    let call = run_command(Command::Serve, Some(call), MainReply::Done);
    assert_eq!(call, MainCall::Exit(Err(Error::Logger { cause: "can't start logger".to_string() })));
}

#[test]
fn every_subcommand_is_run_under_its_own_name() {
    for command in [
        Command::Install,
        Command::Uninstall,
        Command::Start,
        Command::Stop,
        Command::Run,
        Command::SaveConfig,
        Command::Serve,
    ] {
        let call = run_command(command, Some(MainCall::CreateLogger), MainReply::Done);
        assert_eq!(call, MainCall::Run(command));
    }
}

#[test]
fn the_process_answers_out_of_step_with_a_failure() {
    let call = run_command(Command::Run, Some(MainCall::Run(Command::Run)), MainReply::Done);
    assert_eq!(call, MainCall::Exit(Err(Error::OutOfStep)));
    let call = run_command(
        Command::Run,
        Some(MainCall::CreateLogger),
        MainReply::Finished(Ok(())),
    );
    assert_eq!(call, MainCall::Exit(Err(Error::OutOfStep)));
    assert_eq!(exit_code(&Err(Error::OutOfStep)), 1);
}

#[test]
fn each_failure_exits_with_one() {
    let failures = vec![
        Error::ConfigValidation(socks5ws::config::ConfigError::UdpWithoutPublicAddr),
        Error::Bind { address: "a".to_string(), cause: "c".to_string() },
        Error::Runtime { cause: "c".to_string() },
        Error::ConfigStore { cause: "c".to_string() },
        Error::Logger { cause: "c".to_string() },
        Error::ServerPanicked,
        Error::ServerFailed { cause: "c".to_string() },
        Error::NoScope,
        Error::OutOfStep,
    ];
    for failure in failures {
        assert_eq!(failure.clone(), failure);
        assert_eq!(exit_code(&Err(failure)), 1);
    }
    assert_eq!(exit_code(&Ok(())), 0);
}

use lsproxy::api_types::SupportedLanguages;
use lsproxy::bootstrap::{Action, Bootstrap, Event, StartupError};
use lsproxy::startup::CliArgs;

fn args(write_openapi: bool, languages: Option<&str>) -> CliArgs {
    CliArgs {
        write_openapi,
        host: None,
        mount_dir: Some("/mnt".to_string()),
        port: Some(9000),
        languages: languages.map(|s| s.to_string()),
    }
}

#[test]
fn export_mode_writes_spec_then_exits() {
    let (mut b, a) = Bootstrap::start(args(true, Some("bogus")), None);
    match a {
        Action::WriteSpec { path } => assert_eq!(path, "openapi.json"),
        other => panic!("unexpected {:?}", other),
    }
    assert!(!b.is_finished());
    assert!(matches!(b.on_event(Event::Completed), Action::Exit(Ok(()))));
    assert!(b.is_finished());
}

#[test]
fn export_failure_exits_with_error() {
    let (mut b, _) = Bootstrap::start(args(true, None), None);
    match b.on_event(Event::Failed("disk full".to_string())) {
        Action::Exit(Err(StartupError::ExportFailure(m))) => assert_eq!(m, "disk full"),
        other => panic!("unexpected {:?}", other),
    }
    assert!(b.is_finished());
}

#[test]
fn invalid_languages_exit_before_any_collaborator() {
    let (b, a) = Bootstrap::start(args(false, Some("python,bogus")), None);
    assert!(b.is_finished());
    match a {
        Action::Exit(Err(StartupError::InvalidLanguageList(e))) => {
            assert_eq!(e.tokens, vec!["bogus".to_string()])
        }
        other => panic!("unexpected {:?}", other),
    }
}

#[test]
fn server_mode_initializes_then_serves() {
    let (mut b, a) = Bootstrap::start(args(false, None), Some("rust".to_string()));
    match a {
        Action::InitState { mount_dir, languages } => {
            assert_eq!(mount_dir, Some("/mnt".to_string()));
            assert_eq!(languages, Some(vec![SupportedLanguages::Rust]));
        }
        other => panic!("unexpected {:?}", other),
    }
    match b.on_event(Event::Completed) {
        Action::RunServer { host, port } => {
            assert_eq!(host, "0.0.0.0");
            assert_eq!(port, 9000);
        }
        other => panic!("unexpected {:?}", other),
    }
    assert!(matches!(b.on_event(Event::Completed), Action::Exit(Ok(()))));
    assert!(b.is_finished());
}

#[test]
fn state_failure_ends_the_run() {
    let (mut b, _) = Bootstrap::start(args(false, None), None);
    match b.on_event(Event::Failed("no workspace".to_string())) {
        Action::Exit(Err(StartupError::StateInitFailure(m))) => assert_eq!(m, "no workspace"),
        other => panic!("unexpected {:?}", other),
    }
    assert!(b.is_finished());
}

#[test]
fn server_failure_ends_the_run() {
    let (mut b, _) = Bootstrap::start(args(false, None), None);
    assert!(matches!(b.on_event(Event::Completed), Action::RunServer { .. }));
    match b.on_event(Event::Failed("bind".to_string())) {
        Action::Exit(Err(StartupError::ServerFailure(m))) => assert_eq!(m, "bind"),
        other => panic!("unexpected {:?}", other),
    }
}

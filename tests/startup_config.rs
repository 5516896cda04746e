use lsproxy::api_types::SupportedLanguages;
use lsproxy::startup::{default_host, language_source, resolve_config, spec_output_path, CliArgs, StartupConfig, DEFAULT_PORT};

fn args(languages: Option<&str>) -> CliArgs {
    CliArgs {
        write_openapi: false,
        host: None,
        mount_dir: None,
        port: None,
        languages: languages.map(|s| s.to_string()),
    }
}

#[test]
fn defaults_for_host_and_port() {
    assert_eq!(default_host(), "0.0.0.0");
    assert_eq!(DEFAULT_PORT, 4444);
    assert_eq!(spec_output_path(), "openapi.json");
    match resolve_config(args(None), None).unwrap() {
        StartupConfig::RunServer(c) => {
            assert_eq!(c.host, "0.0.0.0");
            assert_eq!(c.port, 4444);
            assert_eq!(c.mount_dir, None);
            assert_eq!(c.languages, None);
        }
        other => panic!("expected server mode, got {:?}", other),
    }
}

#[test]
fn given_values_pass_through() {
    let cli = CliArgs {
        write_openapi: false,
        host: Some("127.0.0.1".to_string()),
        mount_dir: Some("/work".to_string()),
        port: Some(8080),
        languages: Some("rust, cpp".to_string()),
    };
    match resolve_config(cli, None).unwrap() {
        StartupConfig::RunServer(c) => {
            assert_eq!(c.host, "127.0.0.1");
            assert_eq!(c.port, 8080);
            assert_eq!(c.mount_dir, Some("/work".to_string()));
            assert_eq!(c.languages, Some(vec![SupportedLanguages::Rust, SupportedLanguages::CPP]));
        }
        other => panic!("expected server mode, got {:?}", other),
    }
}

#[test]
fn command_line_languages_win_over_environment() {
    assert_eq!(language_source(Some("python".to_string()), Some("bogus".to_string())), Some("python".to_string()));
    assert_eq!(language_source(None, Some("golang".to_string())), Some("golang".to_string()));
    assert_eq!(language_source(None, None), None);
    match resolve_config(args(Some("python")), Some("bogus".to_string())).unwrap() {
        StartupConfig::RunServer(c) => assert_eq!(c.languages, Some(vec![SupportedLanguages::Python])),
        other => panic!("expected server mode, got {:?}", other),
    }
}

#[test]
fn environment_languages_used_when_no_command_line_value() {
    match resolve_config(args(None), Some("golang,java".to_string())).unwrap() {
        StartupConfig::RunServer(c) => {
            assert_eq!(c.languages, Some(vec![SupportedLanguages::Golang, SupportedLanguages::Java]))
        }
        other => panic!("expected server mode, got {:?}", other),
    }
    let e = resolve_config(args(None), Some("nope".to_string())).unwrap_err();
    assert_eq!(e.tokens, vec!["nope".to_string()]);
}

#[test]
fn export_mode_ignores_languages() {
    let mut cli = args(Some("bogus"));
    cli.write_openapi = true;
    assert!(matches!(resolve_config(cli, None).unwrap(), StartupConfig::ExportSpec));
}

#[test]
fn invalid_list_carries_tokens_and_valid_forms() {
    let e = resolve_config(args(Some("bogus1,python,bogus2")), None).unwrap_err();
    assert_eq!(e.tokens, vec!["bogus1".to_string(), "bogus2".to_string()]);
    assert_eq!(e.valid_forms.len(), 10);
    assert_eq!(e.valid_forms[0], "python");
    assert_eq!(e.valid_forms[9], "ruby_sorbet");
    assert_eq!(e.message(), "Invalid language(s): bogus1, bogus2");
}

#[test]
fn message_of_single_token() {
    let e = resolve_config(args(Some("x")), None).unwrap_err();
    assert_eq!(e.message(), "Invalid language(s): x");
}

use flang_provision::command::{build_launch_plan, manual_command, plan_to_command};
use flang_provision::config::{resolve_mode, Mode, Settings};
use flang_provision::error::ProvisionError;

fn env_fixture() -> Vec<(String, String)> {
    vec![("PATH".to_string(), "/usr/bin".to_string()), ("HOME".to_string(), "/home/me".to_string())]
}

#[test]
fn manual_mode_with_configured_path_and_default_arguments() {
    let settings = Settings {
        mode: Some("manual".to_string()),
        binary_path: Some("/usr/local/bin/tool".to_string()),
        binary_arguments: None,
    };
    let cmd = manual_command(&settings, None, env_fixture()).unwrap();
    assert_eq!(cmd.command, "/usr/local/bin/tool");
    assert_eq!(cmd.args, vec!["--lsp".to_string()]);
    assert_eq!(cmd.env, env_fixture());
}

#[test]
fn manual_mode_without_path_and_without_path_match_fails() {
    let settings = Settings { mode: Some("manual".to_string()), binary_path: None, binary_arguments: None };
    match manual_command(&settings, None, env_fixture()) {
        Err(ProvisionError::BinaryNotFoundInPath) => {}
        _ => panic!("expected BinaryNotFoundInPath"),
    }
}

#[test]
fn binary_not_found_message_is_actionable() {
    let settings = Settings { mode: None, binary_path: None, binary_arguments: None };
    let err = manual_command(&settings, None, env_fixture()).unwrap_err();
    let msg = err.message();
    assert!(msg.contains("not found in PATH"));
    assert!(msg.contains("lsp.flang.binary.path"));
    assert!(msg.contains("auto mode"));
}

#[test]
fn manual_mode_falls_back_to_path_search() {
    let settings = Settings { mode: Some("manual".to_string()), binary_path: None, binary_arguments: None };
    let cmd = manual_command(&settings, Some("/opt/tools/flang".to_string()), env_fixture()).unwrap();
    assert_eq!(cmd.command, "/opt/tools/flang");
    assert_eq!(cmd.args, vec!["--lsp".to_string()]);
}

#[test]
fn configured_path_wins_over_path_search() {
    let settings = Settings {
        mode: Some("manual".to_string()),
        binary_path: Some("/pinned/flang".to_string()),
        binary_arguments: None,
    };
    let cmd = manual_command(&settings, Some("/from/path/flang".to_string()), env_fixture()).unwrap();
    assert_eq!(cmd.command, "/pinned/flang");
}

#[test]
fn user_arguments_fully_replace_the_default() {
    let settings = Settings {
        mode: Some("manual".to_string()),
        binary_path: Some("/usr/local/bin/tool".to_string()),
        binary_arguments: Some(vec!["--verbose".to_string(), "--port".to_string(), "9000".to_string()]),
    };
    let cmd = manual_command(&settings, None, env_fixture()).unwrap();
    assert_eq!(
        cmd.args,
        vec!["--verbose".to_string(), "--port".to_string(), "9000".to_string()]
    );
}

#[test]
fn mode_resolution_treats_only_the_literal_manual_as_manual() {
    assert_eq!(resolve_mode(&Some("manual".to_string())), Mode::Manual);
    assert_eq!(resolve_mode(&Some("auto".to_string())), Mode::Auto);
    assert_eq!(resolve_mode(&Some("Manual".to_string())), Mode::Auto);
    assert_eq!(resolve_mode(&Some("anything-else".to_string())), Mode::Auto);
    assert_eq!(resolve_mode(&Some(String::new())), Mode::Auto);
    assert_eq!(resolve_mode(&None), Mode::Auto);
}

#[test]
fn launch_plan_with_stdlib_present() {
    let plan = build_launch_plan("flang-1.0.0/flang", "flang-1.0.0/stdlib", true);
    assert_eq!(plan.command, "flang-1.0.0/flang");
    assert_eq!(
        plan.args,
        vec!["--lsp".to_string(), "--stdlib-path".to_string(), "flang-1.0.0/stdlib".to_string()]
    );
}

#[test]
fn launch_plan_without_stdlib() {
    let plan = build_launch_plan("flang-1.0.0/flang", "flang-1.0.0/stdlib", false);
    assert_eq!(plan.args, vec!["--lsp".to_string()]);
}

#[test]
fn environment_is_passed_through_whole() {
    let plan = build_launch_plan("b", "b/stdlib", false);
    let cmd = plan_to_command(plan, env_fixture());
    assert_eq!(cmd.env, env_fixture());
    assert_eq!(cmd.command, "b");
}

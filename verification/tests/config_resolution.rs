use byebyemenu::config::{
    default_command, default_label, get_config_from_env, parse_command_or_error, resolve_css_path,
    ConfigError, Environment,
};

fn env_with(
    css_path: Option<&str>,
    xdg_config_home: Option<&str>,
    home: Option<&str>,
    user: Option<&str>,
    cmds: Vec<Option<&str>>,
    labels: Vec<Option<&str>>,
) -> Environment {
    assert_eq!(cmds.len(), 6);
    assert_eq!(labels.len(), 6);
    Environment {
        css_path: css_path.map(|s| s.to_string()),
        xdg_config_home: xdg_config_home.map(|s| s.to_string()),
        home: home.map(|s| s.to_string()),
        user: user.map(|s| s.to_string()),
        action_cmds: cmds.into_iter().map(|c| c.map(|s| s.to_string())).collect(),
        action_labels: labels.into_iter().map(|l| l.map(|s| s.to_string())).collect(),
    }
}

fn unset() -> Vec<Option<&'static str>> {
    vec![None, None, None, None, None, None]
}

#[test]
fn test_parse_command_valid() {
    let res = parse_command_or_error(Some("echo hello world".to_string()), None, 1).unwrap();
    assert_eq!(
        res,
        Some(vec![
            "echo".to_string(),
            "hello".to_string(),
            "world".to_string()
        ])
    );
}

#[test]
fn test_parse_command_empty() {
    let err = parse_command_or_error(Some("".to_string()), None, 2).unwrap_err();
    assert!(err.message().contains("empty after parsing"));
}

#[test]
fn test_parse_command_with_default() {
    let default = Some(vec!["ls".to_string(), "-l".to_string()]);
    let res = parse_command_or_error(None, default.clone(), 3).unwrap();
    assert_eq!(res, default);
}

#[test]
fn test_parse_command_none_and_no_default() {
    let res = parse_command_or_error(None, None, 4).unwrap();
    assert_eq!(res, None);
}

#[test]
fn test_parse_command_invalid_syntax() {
    let err =
        parse_command_or_error(Some("\"unterminated string".to_string()), None, 5).unwrap_err();
    assert!(err.message().contains("Failed to parse"));
}

#[test]
fn test_parse_command_whitespace_only() {
    let err = parse_command_or_error(Some(" \t ".to_string()), None, 3).unwrap_err();
    assert_eq!(err, ConfigError::EmptyCommand { slot: 3 });
    assert_eq!(err.slot(), 3);
}

#[test]
fn test_parse_command_quoting() {
    let res = parse_command_or_error(Some("echo \"hello world\"".to_string()), None, 1).unwrap();
    assert_eq!(res, Some(vec!["echo".to_string(), "hello world".to_string()]));
}

#[test]
fn test_error_messages_exact() {
    let empty = ConfigError::EmptyCommand { slot: 2 };
    assert_eq!(empty.message(), "BBMENU_ACTION2_CMD is empty after parsing");
    let parse = ConfigError::ParseFailure { slot: 5 };
    assert_eq!(
        parse.message(),
        "Failed to parse BBMENU_ACTION5_CMD: missing closing quote"
    );
}

#[test]
fn test_config_env_defaults() {
    let env = env_with(
        None,
        None,
        Some("/tmp/testhome"),
        None,
        unset(),
        unset(),
    );
    let config = get_config_from_env(&env).unwrap();
    assert_eq!(config.css_path, "/tmp/testhome/.config/byebyemenu/style.css");
    assert_eq!(config.actions.len(), 6);
    assert_eq!(config.actions[0].label.as_deref(), Some("_exit"));
    assert!(config.actions[3].command.is_none());
}

#[test]
fn test_config_env_custom_css() {
    let env = env_with(
        Some("/custom/path/style.css"),
        None,
        None,
        None,
        unset(),
        unset(),
    );
    let config = get_config_from_env(&env).unwrap();
    assert_eq!(config.css_path, "/custom/path/style.css");
}

#[test]
fn test_config_env_custom_action() {
    let env = env_with(
        None,
        None,
        None,
        None,
        vec![None, Some("shutdown now"), None, None, None, None],
        vec![None, Some("Shutdown!"), None, None, None, None],
    );
    let config = get_config_from_env(&env).unwrap();
    assert_eq!(
        config.actions[1].command,
        Some(vec!["shutdown".to_string(), "now".to_string()])
    );
    assert_eq!(config.actions[1].label.as_deref(), Some("Shutdown!"));
}

#[test]
fn test_config_env_empty_command_names_slot() {
    let env = env_with(
        None,
        None,
        None,
        None,
        vec![Some(""), None, None, None, None, None],
        unset(),
    );
    let err = get_config_from_env(&env).unwrap_err();
    assert_eq!(err, ConfigError::EmptyCommand { slot: 1 });
    assert!(err.message().contains("ACTION1"));
}

#[test]
fn test_config_env_first_bad_slot_wins() {
    let env = env_with(
        None,
        None,
        None,
        None,
        vec![None, Some("'open"), None, Some(""), None, None],
        unset(),
    );
    let err = get_config_from_env(&env).unwrap_err();
    assert_eq!(err, ConfigError::ParseFailure { slot: 2 });
}

#[test]
fn test_custom_command_without_label_resolves_but_never_renders() {
    let env = env_with(
        None,
        None,
        None,
        None,
        vec![None, None, None, None, Some("notify-send hi"), None],
        unset(),
    );
    let config = get_config_from_env(&env).unwrap();
    assert_eq!(
        config.actions[4].command,
        Some(vec!["notify-send".to_string(), "hi".to_string()])
    );
    assert_eq!(config.actions[4].label, None);
    assert!(byebyemenu::ui::get_custom_buttons(&config).is_empty());
}

#[test]
fn test_default_commands_exact() {
    let user = Some("alice".to_string());
    assert_eq!(
        default_command(1, &user),
        Some(vec![
            "/usr/bin/loginctl".to_string(),
            "terminate-user".to_string(),
            "alice".to_string()
        ])
    );
    assert_eq!(
        default_command(1, &None),
        Some(vec![
            "/usr/bin/loginctl".to_string(),
            "terminate-user".to_string(),
            "".to_string()
        ])
    );
    assert_eq!(
        default_command(2, &None),
        Some(vec!["/usr/bin/systemctl".to_string(), "poweroff".to_string()])
    );
    assert_eq!(
        default_command(3, &None),
        Some(vec!["/usr/bin/systemctl".to_string(), "reboot".to_string()])
    );
    assert_eq!(default_command(4, &user), None);
    assert_eq!(default_command(6, &user), None);
}

#[test]
fn test_default_labels_exact() {
    assert_eq!(default_label(1).as_deref(), Some("_exit"));
    assert_eq!(default_label(2).as_deref(), Some("_shutdown"));
    assert_eq!(default_label(3).as_deref(), Some("_reboot"));
    assert_eq!(default_label(4), None);
    assert_eq!(default_label(5), None);
    assert_eq!(default_label(6), None);
}

#[test]
fn test_css_path_prefers_config_home() {
    let r = resolve_css_path(&None, &Some("/tmp/x".to_string()), &None);
    assert_eq!(r, "/tmp/x/byebyemenu/style.css");
}

#[test]
fn test_css_path_bare_fallback() {
    let r = resolve_css_path(&None, &None, &None);
    assert_eq!(r, "style.css");
}

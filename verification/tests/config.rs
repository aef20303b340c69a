use phosphor_core::config::{config_dir, config_dir_in, home_from, NoConfigHome};

#[test]
fn xdg_config_home_wins_when_it_is_absolute() {
    assert_eq!(home_from(Some("/xdg".into()), Some("/home/teej".into())), Ok("/xdg".to_string()));
}

#[test]
fn home_is_the_fallback_and_carries_dot_config() {
    assert_eq!(home_from(None, Some("/home/teej".into())), Ok("/home/teej/.config".to_string()));
}

#[test]
fn a_relative_xdg_config_home_is_ignored_rather_than_resolved() {
    assert_eq!(
        home_from(Some("config".into()), Some("/home/teej".into())),
        Ok("/home/teej/.config".to_string())
    );
}

#[test]
fn a_relative_home_is_ignored_too() {
    assert_eq!(home_from(Some("also/relative".into()), Some(".".into())), Err(NoConfigHome));
}

#[test]
fn with_neither_variable_there_is_nowhere_to_put_configuration() {
    assert_eq!(home_from(None, None), Err(NoConfigHome));
    assert_eq!(NoConfigHome.message(), "neither XDG_CONFIG_HOME nor HOME names an absolute directory");
}

#[test]
fn the_directory_is_the_home_plus_one_component() {
    assert_eq!(config_dir_in("/home/teej/.config"), "/home/teej/.config/phosphor".to_string());
}

#[test]
fn the_config_dir_is_the_home_rule_plus_the_component() {
    assert_eq!(config_dir(None, Some("/home/teej".into())), Ok("/home/teej/.config/phosphor".to_string()));
    assert_eq!(config_dir_in("/xdg/"), "/xdg/phosphor".to_string());
    assert_eq!(config_dir(None, None), Err(NoConfigHome));
}

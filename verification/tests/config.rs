use login_helper::config::{get_config, AppState, Config};

fn sample() -> Config {
    Config {
        ttpmacro_path: "C:\\teraterm\\ttpmacro.exe".to_string(),
        server_data_api: "http://servers".to_string(),
        user_data_api: "http://users".to_string(),
        default_login_user: "ops".to_string(),
        default_login_su: "root".to_string(),
        default_login_win: "Administrator".to_string(),
        default_login_oc: "admin".to_string(),
    }
}

#[test]
fn get_config_hands_out_the_configuration() {
    let state = AppState { config: sample() };
    let config = get_config(&state);
    assert_eq!(config.ttpmacro_path, "C:\\teraterm\\ttpmacro.exe");
    assert_eq!(config.server_data_api, "http://servers");
    assert_eq!(config.user_data_api, "http://users");
    assert_eq!(config.default_login_user, "ops");
    assert_eq!(config.default_login_su, "root");
    assert_eq!(config.default_login_win, "Administrator");
    assert_eq!(config.default_login_oc, "admin");
    assert_eq!(state.config.ttpmacro_path, "C:\\teraterm\\ttpmacro.exe");
}

#[test]
fn clones_keep_every_field() {
    let state = AppState { config: sample() };
    let copy = state.clone();
    assert_eq!(copy.config.default_login_oc, state.config.default_login_oc);
    assert_eq!(copy.config.clone().default_login_su, "root");
}

#[test]
fn commands_are_at_the_root() {
    let state = login_helper::AppState { config: sample() };
    assert_eq!(login_helper::get_config(&state).default_login_win, "Administrator");
    assert_eq!(login_helper::get_user(None), "Unknown");
    assert_eq!(login_helper::convert_password_to_macro_format("a", false), "#97");
    let (session, _) = login_helper::rdp_login("h", "u", "p");
    assert!(!session.is_finished());
}

//! The configuration that the application reads once at its start and then
//! only hands out.

use vstd::prelude::*;

verus! {

/// The configured paths and defaults.
pub struct Config {
    /// The path of the terminal emulator's macro runner.
    pub ttpmacro_path: String,
    pub server_data_api: String,
    pub user_data_api: String,
    pub default_login_user: String,
    pub default_login_su: String,
    pub default_login_win: String,
    pub default_login_oc: String,
}

/// The state that the commands share: the configuration, never changed
/// after the start.
pub struct AppState {
    pub config: Config,
}

impl Clone for Config {
    fn clone(&self) -> (copy: Config)
        ensures
            copy == *self,
    {
        Config {
            ttpmacro_path: self.ttpmacro_path.clone(),
            server_data_api: self.server_data_api.clone(),
            user_data_api: self.user_data_api.clone(),
            default_login_user: self.default_login_user.clone(),
            default_login_su: self.default_login_su.clone(),
            default_login_win: self.default_login_win.clone(),
            default_login_oc: self.default_login_oc.clone(),
        }
    }
}

impl Clone for AppState {
    fn clone(&self) -> (copy: AppState)
        ensures
            copy == *self,
    {
        AppState { config: self.config.clone() }
    }
}

/// The configuration of the running application.
pub fn get_config(state: &AppState) -> (config: Config)
    ensures
        config == state.config,
{
    state.config.clone()
}

} // verus!

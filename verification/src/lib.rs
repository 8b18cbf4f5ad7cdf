//! Automated remote logins: an ephemeral automation script, or a transient
//! credential, is made from a login request, an external client is run
//! against it, and whatever held the secret is removed again, however the
//! run ended.
//!
//! - [`encoder`] turns a secret into the one form in which it may enter a
//!   script.
//! - [`script`] composes the text of a script from its sections, and
//!   [`request`] lays out the sections of a login request.
//! - [`artifact`] encodes a script for the client and names the files.
//! - [`settings`] makes the companion settings file from its template.
//! - [`pipeline`] and [`rdp`] decide, step by step, what is written, run
//!   and removed; the application performs each step and reports back.
//! - [`outcome`] holds the results, [`config`] the configuration and
//!   [`text`] the string primitives.

pub mod artifact;
pub mod config;
pub mod encoder;
pub mod outcome;
pub mod pipeline;
pub mod rdp;
pub mod request;
pub mod script;
pub mod settings;
pub mod text;

pub use config::{get_config, AppState, Config};
pub use encoder::convert_password_to_macro_format;
pub use pipeline::execute_teraterm_macro;
pub use rdp::rdp_login;
pub use request::{get_user, teraterm};

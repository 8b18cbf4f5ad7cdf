use login_helper::outcome::{ProcessOutcome, RunReport, RunResult};
use login_helper::pipeline::Action;
use login_helper::rdp::{rdp_login, RdpSession, RdpStage, TransientCredential};

fn exited(code: i32) -> ProcessOutcome {
    ProcessOutcome::Exited { success: code == 0, code: Some(code) }
}

fn spawn_failed(detail: &str) -> ProcessOutcome {
    ProcessOutcome::SpawnFailed { detail: detail.to_string() }
}

fn command(program: &str, arguments: &[&str]) -> Action {
    Action::Launch {
        program: program.to_string(),
        arguments: arguments.iter().map(|a| a.to_string()).collect(),
    }
}

fn finish(result: RunResult, secondary: Vec<RunResult>) -> Action {
    Action::Finish { report: RunReport { result, secondary, notify: false } }
}

fn registered() -> RdpSession {
    let (session, _) = rdp_login("10.0.0.9", "bob", "pw");
    let (session, _) = session.step(exited(0));
    session
}

#[test]
fn login_starts_with_the_registration() {
    let (session, action) = rdp_login("10.0.0.9", "DOMAIN\\bob", "p w\"d");
    assert_eq!(session.stage, RdpStage::Registering);
    assert_eq!(session.host, "10.0.0.9");
    assert!(!session.registered);
    assert_eq!(
        action,
        command("cmdkey", &["/generic:TERMSRV/10.0.0.9", "/user:DOMAIN\\bob", "/pass:p w\"d"])
    );
}

#[test]
fn successful_login_registers_launches_and_removes() {
    let (session, _) = rdp_login("10.0.0.9", "bob", "pw");
    let (session, action) = session.step(exited(0));
    assert_eq!(session.stage, RdpStage::Launching);
    assert!(session.registered);
    assert_eq!(action, Some(command("mstsc", &["/v:10.0.0.9"])));
    let (session, action) = session.step(exited(0));
    assert_eq!(session.stage, RdpStage::Unregistering);
    assert_eq!(action, Some(command("cmdkey", &["/delete:TERMSRV/10.0.0.9"])));
    let (session, action) = session.step(exited(0));
    assert!(session.is_finished());
    assert!(!session.registered);
    assert_eq!(action, Some(finish(RunResult::Success, vec![])));
}

#[test]
fn failed_registration_ends_the_login() {
    let (session, _) = rdp_login("10.0.0.9", "bob", "pw");
    let (session, action) = session.step(exited(5));
    assert_eq!(
        action,
        Some(finish(
            RunResult::LaunchError { cause: "Failed to add credential. Exit code: 5".to_string() },
            vec![]
        ))
    );
    assert!(session.is_finished());
    assert!(!session.registered);
    let (session, action) = session.step(exited(0));
    assert_eq!(action, None);
    assert!(session.is_finished());
}

#[test]
fn registration_that_cannot_be_started() {
    let (session, _) = rdp_login("h", "u", "p");
    let (session, action) = session.step(spawn_failed("cmdkey not found"));
    assert_eq!(
        action,
        Some(finish(
            RunResult::LaunchError { cause: "Credential add failed: cmdkey not found".to_string() },
            vec![]
        ))
    );
    assert!(session.is_finished());
}

#[test]
fn registration_without_exit_code() {
    let (session, _) = rdp_login("h", "u", "p");
    let (_, action) = session.step(ProcessOutcome::Exited { success: false, code: None });
    assert_eq!(
        action,
        Some(finish(
            RunResult::LaunchError { cause: "Failed to add credential. Exit code: -1".to_string() },
            vec![]
        ))
    );
}

#[test]
fn failed_client_is_followed_by_the_removal() {
    let (session, action) = registered().step(exited(2));
    assert_eq!(action, Some(command("cmdkey", &["/delete:TERMSRV/10.0.0.9"])));
    let (session, action) = session.step(exited(0));
    assert_eq!(action, Some(finish(RunResult::ProcessFailure { code: 2 }, vec![])));
    assert!(!session.registered);
}

#[test]
fn client_that_cannot_be_started_is_followed_by_the_removal() {
    let (session, action) = registered().step(spawn_failed("no mstsc"));
    assert_eq!(action, Some(command("cmdkey", &["/delete:TERMSRV/10.0.0.9"])));
    let (_, action) = session.step(exited(0));
    assert_eq!(
        action,
        Some(finish(
            RunResult::LaunchError { cause: "RDP session failed: no mstsc".to_string() },
            vec![]
        ))
    );
}

#[test]
fn failed_removal_after_a_good_session_is_a_cleanup_error() {
    let (session, _) = registered().step(exited(0));
    let (session, action) = session.step(exited(1));
    assert_eq!(
        action,
        Some(finish(
            RunResult::CleanupError { cause: "Failed to delete credential. Exit code: 1".to_string() },
            vec![]
        ))
    );
    assert!(session.registered);
    let (session, _) = registered().step(exited(0));
    let (_, action) = session.step(spawn_failed("gone"));
    assert_eq!(
        action,
        Some(finish(
            RunResult::CleanupError { cause: "Credential deletion failed: gone".to_string() },
            vec![]
        ))
    );
}

#[test]
fn failed_removal_goes_with_the_client_failure() {
    let (session, _) = registered().step(exited(7));
    let (_, action) = session.step(exited(1));
    assert_eq!(
        action,
        Some(finish(
            RunResult::ProcessFailure { code: 7 },
            vec![RunResult::CleanupError {
                cause: "Failed to delete credential. Exit code: 1".to_string()
            }]
        ))
    );
}

#[test]
fn password_is_in_the_registration_only() {
    let (session, action) = rdp_login("host", "user", "s3cr3t-pw");
    assert!(format!("{:?}", action).contains("s3cr3t-pw"));
    assert!(!format!("{:?}", session).contains("s3cr3t-pw"));
    let (session, action) = session.step(exited(0));
    assert!(!format!("{:?} {:?}", session, action).contains("s3cr3t-pw"));
    let (session, action) = session.step(exited(0));
    assert!(!format!("{:?} {:?}", session, action).contains("s3cr3t-pw"));
    let (session, action) = session.step(exited(0));
    assert!(!format!("{:?} {:?}", session, action).contains("s3cr3t-pw"));
}

#[test]
fn credential_is_named_after_the_host() {
    let credential = TransientCredential::for_host("10.0.0.9", "bob", "pw");
    assert_eq!(credential.target, "TERMSRV/10.0.0.9");
    assert_eq!(credential.username, "bob");
    assert_eq!(credential.password, "pw");
    assert_eq!(
        credential.registration(),
        command("cmdkey", &["/generic:TERMSRV/10.0.0.9", "/user:bob", "/pass:pw"])
    );
}

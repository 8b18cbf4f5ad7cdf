//! The remote-desktop login: a credential is registered with the system's
//! credential store, the client is launched by the target's name, and the
//! credential is removed again whatever became of the launch.

use crate::outcome::{
    exit_code, prefixed, reported_code, Failures, FailuresView, ProcessOutcome,
    ProcessOutcomeView, RunResult, RunResultView,
};
use crate::pipeline::{Action, ActionView};
use crate::text::{push_signed_decimal, signed_decimal, texts};
use vstd::prelude::*;

verus! {

/// Where a remote-desktop login stands.
#[derive(Debug, Clone, Copy, PartialEq, Eq)]
pub enum RdpStage {
    /// The credential is being registered.
    Registering,
    /// The client runs.
    Launching,
    /// The credential is being removed.
    Unregistering,
    /// The report was handed out.
    Finished,
}

/// A remote-desktop login under way. It keeps the host and never the
/// password, which is used once, to register the credential.
#[derive(Debug, PartialEq, Eq)]
pub struct RdpSession {
    pub stage: RdpStage,
    pub host: String,
    /// The credential was registered and has not been removed.
    pub registered: bool,
    /// The failures met so far.
    pub failures: Failures,
}

pub struct RdpSessionView {
    pub stage: RdpStage,
    pub host: Seq<char>,
    pub registered: bool,
    pub failures: FailuresView,
}

impl View for RdpSession {
    type V = RdpSessionView;

    open spec fn view(&self) -> RdpSessionView {
        RdpSessionView {
            stage: self.stage,
            host: self.host@,
            registered: self.registered,
            failures: self.failures@,
        }
    }
}

/// The name of a host's credential: a fixed prefix and the host's address.
pub open spec fn credential_target(host: Seq<char>) -> Seq<char> {
    "TERMSRV/"@ + host
}

/// The credential that is in the system's store for the time of one
/// session: between its registration and its removal.
pub struct TransientCredential {
    pub target: String,
    pub username: String,
    pub password: String,
}

pub struct TransientCredentialView {
    pub target: Seq<char>,
    pub username: Seq<char>,
    pub password: Seq<char>,
}

impl View for TransientCredential {
    type V = TransientCredentialView;

    open spec fn view(&self) -> TransientCredentialView {
        TransientCredentialView {
            target: self.target@,
            username: self.username@,
            password: self.password@,
        }
    }
}

impl TransientCredential {
    /// The credential of a host.
    pub fn for_host(host: &str, username: &str, password: &str) -> (credential:
        TransientCredential)
        ensures
            credential@ == (TransientCredentialView {
                target: credential_target(host@),
                username: username@,
                password: password@,
            }),
    {
        TransientCredential {
            target: prefixed("TERMSRV/", host),
            username: username.to_owned(),
            password: password.to_owned(),
        }
    }

    /// The command that registers the credential.
    pub fn registration(&self) -> (action: Action)
        ensures
            action@ == (ActionView::Launch {
                program: "cmdkey"@,
                arguments: seq![
                    "/generic:"@ + self@.target,
                    "/user:"@ + self@.username,
                    "/pass:"@ + self@.password,
                ],
            }),
    {
        let mut arguments: Vec<String> = Vec::new();
        arguments.push(prefixed("/generic:", self.target.as_str()));
        arguments.push(prefixed("/user:", self.username.as_str()));
        arguments.push(prefixed("/pass:", self.password.as_str()));
        proof {
            assert(texts(arguments@) =~= seq![
                "/generic:"@ + self@.target,
                "/user:"@ + self@.username,
                "/pass:"@ + self@.password,
            ]);
        }
        command("cmdkey", arguments)
    }
}

/// The command that registers the credential of a host.
pub open spec fn register_command(
    host: Seq<char>,
    username: Seq<char>,
    password: Seq<char>,
) -> ActionView {
    ActionView::Launch {
        program: "cmdkey"@,
        arguments: seq![
            "/generic:"@ + credential_target(host),
            "/user:"@ + username,
            "/pass:"@ + password,
        ],
    }
}

/// The command that runs the client. It names the host and holds no
/// password.
pub open spec fn client_command(host: Seq<char>) -> ActionView {
    ActionView::Launch { program: "mstsc"@, arguments: seq!["/v:"@ + host] }
}

/// The command that removes the credential of a host.
pub open spec fn unregister_command(host: Seq<char>) -> ActionView {
    ActionView::Launch {
        program: "cmdkey"@,
        arguments: seq!["/delete:"@ + credential_target(host)],
    }
}

/// The start of a remote-desktop login.
pub open spec fn rdp_begun(host: Seq<char>, username: Seq<char>, password: Seq<char>) -> (
    RdpSessionView,
    ActionView,
) {
    (
        RdpSessionView {
            stage: RdpStage::Registering,
            host,
            registered: false,
            failures: FailuresView::none(),
        },
        register_command(host, username, password),
    )
}

/// What a process that did not succeed is reported as, given the two
/// messages of the step it belongs to. A step that counts as a process run
/// reports the exit code as such.
pub open spec fn step_failure(
    outcome: ProcessOutcomeView,
    spawn_prefix: Seq<char>,
    exit_prefix: Seq<char>,
) -> Seq<char> {
    match outcome {
        ProcessOutcomeView::SpawnFailed { detail } => spawn_prefix + detail,
        ProcessOutcomeView::Exited { code, .. } => exit_prefix + signed_decimal(
            reported_code(code) as int,
        ),
    }
}

/// Whether the process ran and reported success.
pub open spec fn succeeded(outcome: ProcessOutcomeView) -> bool {
    outcome matches ProcessOutcomeView::Exited { success, .. } && success
}

/// The failure of the registration, where it failed.
pub open spec fn registration_failure(outcome: ProcessOutcomeView) -> RunResultView {
    RunResultView::LaunchError {
        cause: step_failure(
            outcome,
            "Credential add failed: "@,
            "Failed to add credential. Exit code: "@,
        ),
    }
}

/// The failure of the client, where it failed: a launch error where it
/// could not be started, a process failure with its exit code otherwise.
pub open spec fn client_failure(outcome: ProcessOutcomeView) -> RunResultView {
    match outcome {
        ProcessOutcomeView::SpawnFailed { detail } => RunResultView::LaunchError {
            cause: "RDP session failed: "@ + detail,
        },
        ProcessOutcomeView::Exited { code, .. } => RunResultView::ProcessFailure {
            code: reported_code(code),
        },
    }
}

/// The failure of the removal, where it failed.
pub open spec fn unregistration_failure(outcome: ProcessOutcomeView) -> RunResultView {
    RunResultView::CleanupError {
        cause: step_failure(
            outcome,
            "Credential deletion failed: "@,
            "Failed to delete credential. Exit code: "@,
        ),
    }
}

/// The end of a login: the failures leave with the report.
pub open spec fn rdp_finished(session: RdpSessionView) -> (RdpSessionView, ActionView) {
    (
        RdpSessionView { stage: RdpStage::Finished, failures: FailuresView::none(), ..session },
        ActionView::Finish { report: session.failures.report(false) },
    )
}

/// The transition: the session and the action that follow the end of the
/// process last asked for, or `None` once the report was handed out.
///
/// - A registration that fails ends the login: the client is not launched
///   and nothing is removed, since nothing was registered.
/// - After a registration the client is launched; whatever becomes of it,
///   the removal of the credential follows.
/// - A failed removal is the result only where the client did not fail;
///   else it goes with the client's failure.
pub open spec fn rdp_next(session: RdpSessionView, outcome: ProcessOutcomeView) -> Option<
    (RdpSessionView, ActionView),
> {
    match session.stage {
        RdpStage::Registering => Some(
            if succeeded(outcome) {
                (
                    RdpSessionView { stage: RdpStage::Launching, registered: true, ..session },
                    client_command(session.host),
                )
            } else {
                rdp_finished(
                    RdpSessionView {
                        failures: session.failures.with(registration_failure(outcome)),
                        ..session
                    },
                )
            },
        ),
        RdpStage::Launching => Some(
            (
                RdpSessionView {
                    stage: RdpStage::Unregistering,
                    failures: if succeeded(outcome) {
                        session.failures
                    } else {
                        session.failures.with(client_failure(outcome))
                    },
                    ..session
                },
                unregister_command(session.host),
            ),
        ),
        RdpStage::Unregistering => Some(
            if succeeded(outcome) {
                rdp_finished(RdpSessionView { registered: false, ..session })
            } else {
                rdp_finished(
                    RdpSessionView {
                        failures: session.failures.with(unregistration_failure(outcome)),
                        ..session
                    },
                )
            },
        ),
        RdpStage::Finished => None,
    }
}

/// The view of a session and an action.
pub open spec fn rdp_step_view(step: (RdpSession, Action)) -> (RdpSessionView, ActionView) {
    (step.0@, step.1@)
}

fn step_failure_message(outcome: &ProcessOutcome, spawn_prefix: &str, exit_prefix: &str) -> (message:
    String)
    ensures
        message@ == step_failure(outcome@, spawn_prefix@, exit_prefix@),
{
    match outcome {
        ProcessOutcome::SpawnFailed { detail } => prefixed(spawn_prefix, detail.as_str()),
        ProcessOutcome::Exited { code, .. } => {
            let mut message = exit_prefix.to_owned();
            push_signed_decimal(&mut message, exit_code(*code));
            message
        },
    }
}

fn has_succeeded(outcome: &ProcessOutcome) -> (success: bool)
    ensures
        success == succeeded(outcome@),
{
    match outcome {
        ProcessOutcome::Exited { success, .. } => *success,
        _ => false,
    }
}

fn command(program: &str, arguments: Vec<String>) -> (action: Action)
    ensures
        action@ == (ActionView::Launch { program: program@, arguments: texts(arguments@) }),
{
    Action::Launch { program: program.to_owned(), arguments }
}

/// Starts a remote-desktop login with the registration of the credential.
pub fn rdp_login(ip: &str, username: &str, password: &str) -> (start: (RdpSession, Action))
    ensures
        rdp_step_view(start) == rdp_begun(ip@, username@, password@),
{
    let credential = TransientCredential::for_host(ip, username, password);
    (
        RdpSession {
            stage: RdpStage::Registering,
            host: ip.to_owned(),
            registered: false,
            failures: Failures::new(),
        },
        credential.registration(),
    )
}

impl RdpSession {
    /// Whether the report was handed out.
    pub fn is_finished(&self) -> (done: bool)
        ensures
            done == (self@.stage == RdpStage::Finished),
    {
        match self.stage {
            RdpStage::Finished => true,
            _ => false,
        }
    }

    fn finish(self) -> (step: (RdpSession, Action))
        ensures
            rdp_step_view(step) == rdp_finished(self@),
    {
        let report = self.failures.into_report(false);
        (
            RdpSession { stage: RdpStage::Finished, failures: Failures::new(), ..self },
            Action::Finish { report },
        )
    }

    fn client(&self) -> (action: Action)
        ensures
            action@ == client_command(self@.host),
    {
        let mut arguments: Vec<String> = Vec::new();
        arguments.push(prefixed("/v:", self.host.as_str()));
        assert(texts(arguments@) =~= seq!["/v:"@ + self@.host]);
        command("mstsc", arguments)
    }

    fn unregister(&self) -> (action: Action)
        ensures
            action@ == unregister_command(self@.host),
    {
        let target = prefixed("TERMSRV/", self.host.as_str());
        let mut arguments: Vec<String> = Vec::new();
        arguments.push(prefixed("/delete:", target.as_str()));
        assert(texts(arguments@) =~= seq!["/delete:"@ + credential_target(self@.host)]);
        command("cmdkey", arguments)
    }

    /// Takes what became of the process last asked for and says what to do
    /// next. Once the report was handed out nothing changes and no action
    /// is given.
    pub fn step(self, outcome: ProcessOutcome) -> (step: (RdpSession, Option<Action>))
        ensures
            match rdp_next(self@, outcome@) {
                Some(following) => step.1 matches Some(action) && (step.0@, action@)
                    == following,
                None => step.1 is None && step.0@ == self@,
            },
    {
        let success = has_succeeded(&outcome);
        match self.stage {
            RdpStage::Registering => {
                if success {
                    let action = self.client();
                    (
                        RdpSession { stage: RdpStage::Launching, registered: true, ..self },
                        Some(action),
                    )
                } else {
                    let cause = step_failure_message(
                        &outcome,
                        "Credential add failed: ",
                        "Failed to add credential. Exit code: ",
                    );
                    let failures = self.failures.record(RunResult::LaunchError { cause });
                    let (session, action) = (RdpSession { failures, ..self }).finish();
                    (session, Some(action))
                }
            },
            RdpStage::Launching => {
                let action = self.unregister();
                let failures = if success {
                    self.failures
                } else {
                    let failure = match outcome {
                        ProcessOutcome::SpawnFailed { detail } => RunResult::LaunchError {
                            cause: prefixed("RDP session failed: ", detail.as_str()),
                        },
                        ProcessOutcome::Exited { code, .. } => RunResult::ProcessFailure {
                            code: exit_code(code),
                        },
                    };
                    self.failures.record(failure)
                };
                (RdpSession { stage: RdpStage::Unregistering, failures, ..self }, Some(action))
            },
            RdpStage::Unregistering => {
                if success {
                    let (session, action) = (RdpSession { registered: false, ..self }).finish();
                    (session, Some(action))
                } else {
                    let cause = step_failure_message(
                        &outcome,
                        "Credential deletion failed: ",
                        "Failed to delete credential. Exit code: ",
                    );
                    let failures = self.failures.record(RunResult::CleanupError { cause });
                    let (session, action) = (RdpSession { failures, ..self }).finish();
                    (session, Some(action))
                }
            },
            RdpStage::Finished => (self, None),
        }
    }
}

/// The states that a remote-desktop login can be in.
pub open spec fn rdp_well_formed(session: RdpSessionView) -> bool {
    &&& session.failures.first is None ==> session.failures.later.len() == 0
    &&& session.failures.first != Some(RunResultView::Success)
    &&& match session.stage {
        RdpStage::Registering => !session.registered && session.failures
            == FailuresView::none(),
        RdpStage::Launching => session.registered && session.failures == FailuresView::none(),
        RdpStage::Unregistering => session.registered && session.failures.later.len() == 0
            && !(session.failures.first matches Some(RunResultView::CleanupError { .. })),
        RdpStage::Finished => session.failures == FailuresView::none(),
    }
}

/// Every login ends: each outcome takes a session to the next stage, and
/// the report is handed out after three processes at the latest.
pub proof fn lemma_every_login_ends(session: RdpSessionView, outcome: ProcessOutcomeView)
    ensures
        session.stage != RdpStage::Finished <==> rdp_next(session, outcome) is Some,
        rdp_next(session, outcome) matches Some((after, action)) ==> {
            &&& action is Finish <==> after.stage == RdpStage::Finished
            &&& session.stage == RdpStage::Registering ==> after.stage == RdpStage::Launching
                || after.stage == RdpStage::Finished
            &&& session.stage == RdpStage::Launching ==> after.stage
                == RdpStage::Unregistering
            &&& session.stage == RdpStage::Unregistering ==> after.stage
                == RdpStage::Finished
        },
{
}

/// A login starts well-formed and every transition keeps it so.
pub proof fn lemma_rdp_stays_well_formed(
    host: Seq<char>,
    username: Seq<char>,
    password: Seq<char>,
    session: RdpSessionView,
    outcome: ProcessOutcomeView,
)
    ensures
        rdp_well_formed(rdp_begun(host, username, password).0),
        rdp_well_formed(session) ==> (rdp_next(session, outcome) matches Some(following)
            ==> rdp_well_formed(following.0)),
{
}

/// A registration that fails ends the login with a launch error: the
/// client is never launched and no removal is asked for, since the session
/// is finished and a finished session asks for nothing.
pub proof fn lemma_failed_registration_ends_the_login(
    session: RdpSessionView,
    outcome: ProcessOutcomeView,
    later: ProcessOutcomeView,
)
    requires
        rdp_well_formed(session),
        session.stage == RdpStage::Registering,
        !succeeded(outcome),
    ensures
        rdp_next(session, outcome) matches Some((after, ActionView::Finish { report }))
            && report.result == registration_failure(outcome) && report.result is LaunchError
            && report.secondary.len() == 0 && !after.registered && after.stage
            == RdpStage::Finished && rdp_next(after, later) is None,
{
}

/// Once the client's launch was attempted the removal of the credential
/// follows, whether the client ran, failed, or could not be started; and
/// the client's failure, where there is one, is the result of the report
/// whatever becomes of the removal.
pub proof fn lemma_removal_follows_the_launch(
    session: RdpSessionView,
    outcome: ProcessOutcomeView,
    removal: ProcessOutcomeView,
)
    requires
        rdp_well_formed(session),
        session.stage == RdpStage::Launching,
    ensures
        rdp_next(session, outcome) matches Some((after, action)) && action
            == unregister_command(session.host) && after.stage == RdpStage::Unregistering && (
        rdp_next(after, removal) matches Some((end, ActionView::Finish { report })) && {
            &&& !succeeded(outcome) ==> report.result == client_failure(outcome)
            &&& !succeeded(outcome) && !succeeded(removal) ==> report.secondary
                == seq![unregistration_failure(removal)]
            &&& succeeded(outcome) && !succeeded(removal) ==> report.result
                == unregistration_failure(removal)
            &&& succeeded(outcome) && succeeded(removal) ==> report.result is Success
            &&& end.registered ==> !succeeded(removal)
        }),
{
}

/// The password is used for the registration alone: what a session asks
/// for after that is determined by the host and the outcomes, so sessions
/// for the same host that differ in the password ask for the same.
pub proof fn lemma_password_is_used_once(
    host: Seq<char>,
    username: Seq<char>,
    password: Seq<char>,
    other_password: Seq<char>,
    outcome: ProcessOutcomeView,
)
    ensures
        rdp_next(rdp_begun(host, username, password).0, outcome) == rdp_next(
            rdp_begun(host, username, other_password).0,
            outcome,
        ),
{
}

} // verus!

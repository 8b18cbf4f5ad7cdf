//! What a login attempt ends with, and what an external process reports.

use crate::text::{push_signed_decimal, signed_decimal};
use vstd::prelude::*;
use vstd::string::StringExecFns;

verus! {

/// The exit code reported where the process gave none.
pub const NO_EXIT_CODE: i32 = -1;

/// The result of one login attempt.
#[derive(Debug, PartialEq, Eq)]
pub enum RunResult {
    /// The client ran and reported success.
    Success,
    /// The client ran and reported failure.
    ProcessFailure { code: i32 },
    /// The client was not started: an artifact could not be written or
    /// read, the process could not be spawned, or the credential could not
    /// be registered.
    LaunchError { cause: String },
    /// The script cannot be represented in the byte encoding of the client.
    EncodingError,
    /// An artifact or a credential could not be removed after the run.
    CleanupError { cause: String },
}

pub enum RunResultView {
    Success,
    ProcessFailure { code: i32 },
    LaunchError { cause: Seq<char> },
    EncodingError,
    CleanupError { cause: Seq<char> },
}

impl View for RunResult {
    type V = RunResultView;

    open spec fn view(&self) -> RunResultView {
        match self {
            RunResult::Success => RunResultView::Success,
            RunResult::ProcessFailure { code } => RunResultView::ProcessFailure { code: *code },
            RunResult::LaunchError { cause } => RunResultView::LaunchError { cause: cause@ },
            RunResult::EncodingError => RunResultView::EncodingError,
            RunResult::CleanupError { cause } => RunResultView::CleanupError { cause: cause@ },
        }
    }
}

/// The client that a login runs.
#[derive(Debug, Clone, Copy, PartialEq, Eq)]
pub enum Client {
    /// The terminal emulator with its macro runner.
    Terminal,
    /// The remote-desktop client.
    RemoteDesktop,
}

/// The message that a caller is shown for a result. A launch or cleanup
/// error says what it was caused by; a process failure is worded after the
/// client that failed.
pub open spec fn message_text(result: RunResultView, client: Client) -> Seq<char> {
    match result {
        RunResultView::Success => "ログイン処理が完了しました。"@,
        RunResultView::ProcessFailure { code } => match client {
            Client::Terminal => "TeraTerm macro execution failed"@,
            Client::RemoteDesktop => "RDP session failed. Exit code: "@ + signed_decimal(
                code as int,
            ),
        },
        RunResultView::LaunchError { cause } => cause,
        RunResultView::EncodingError => "マクロのエンコードに失敗しました。"@,
        RunResultView::CleanupError { cause } => cause,
    }
}

/// The views of a sequence of results.
pub open spec fn results(list: Seq<RunResult>) -> Seq<RunResultView> {
    list.map_values(|r: RunResult| r@)
}

impl RunResult {
    /// Whether the attempt succeeded.
    pub fn is_success(&self) -> (success: bool)
        ensures
            success == (self@ is Success),
    {
        match self {
            RunResult::Success => true,
            _ => false,
        }
    }

    /// The human-readable message of the result of a login with the given
    /// client.
    pub fn message(&self, client: Client) -> (message: String)
        ensures
            message@ == message_text(self@, client),
    {
        match self {
            RunResult::Success => "ログイン処理が完了しました。".to_owned(),
            RunResult::ProcessFailure { code } => match client {
                Client::Terminal => "TeraTerm macro execution failed".to_owned(),
                Client::RemoteDesktop => {
                    let mut message = "RDP session failed. Exit code: ".to_owned();
                    push_signed_decimal(&mut message, *code);
                    message
                },
            },
            RunResult::LaunchError { cause } => cause.clone(),
            RunResult::EncodingError => "マクロのエンコードに失敗しました。".to_owned(),
            RunResult::CleanupError { cause } => cause.clone(),
        }
    }
}

/// The result of an attempt together with what else went wrong after the
/// first failure, and whether observers are to be told of the completion.
#[derive(Debug, PartialEq, Eq)]
pub struct RunReport {
    /// The first terminal condition that was met.
    pub result: RunResult,
    /// The failures that came after it, in their order.
    pub secondary: Vec<RunResult>,
    /// Whether the completion signal is to be sent: on success only.
    pub notify: bool,
}

pub struct RunReportView {
    pub result: RunResultView,
    pub secondary: Seq<RunResultView>,
    pub notify: bool,
}

impl View for RunReport {
    type V = RunReportView;

    open spec fn view(&self) -> RunReportView {
        RunReportView {
            result: self.result@,
            secondary: results(self.secondary@),
            notify: self.notify,
        }
    }
}

/// The failures met so far in one attempt, in the order of their priority:
/// the first is the one that the caller is told, the later ones go with it.
#[derive(Debug, PartialEq, Eq)]
pub struct Failures {
    /// The first failure met.
    pub first: Option<RunResult>,
    /// The failures met after the first, in their order.
    pub later: Vec<RunResult>,
}

pub struct FailuresView {
    pub first: Option<RunResultView>,
    pub later: Seq<RunResultView>,
}

impl View for Failures {
    type V = FailuresView;

    open spec fn view(&self) -> FailuresView {
        FailuresView {
            first: match self.first {
                Some(failure) => Some(failure@),
                None => None,
            },
            later: results(self.later@),
        }
    }
}

impl FailuresView {
    /// No failure.
    pub open spec fn none() -> FailuresView {
        FailuresView { first: None, later: Seq::empty() }
    }

    /// The failures with one more: the first failure stays the first, a
    /// later one is kept after it and never dropped.
    pub open spec fn with(self, failure: RunResultView) -> FailuresView {
        match self.first {
            None => FailuresView { first: Some(failure), ..self },
            Some(_) => FailuresView { later: self.later.push(failure), ..self },
        }
    }

    /// The report: the first failure, or success where there was none. The
    /// completion signal goes out on success only, and only where the
    /// attempt has one.
    pub open spec fn report(self, signals_completion: bool) -> RunReportView {
        RunReportView {
            result: match self.first {
                Some(failure) => failure,
                None => RunResultView::Success,
            },
            secondary: self.later,
            notify: signals_completion && self.first is None,
        }
    }
}

impl Failures {
    /// No failure.
    pub fn new() -> (failures: Failures)
        ensures
            failures@ == FailuresView::none(),
    {
        let later: Vec<RunResult> = Vec::new();
        assert(results(later@) =~= Seq::<RunResultView>::empty());
        Failures { first: None, later }
    }

    /// Adds a failure.
    pub fn record(self, failure: RunResult) -> (failures: Failures)
        ensures
            failures@ == self@.with(failure@),
    {
        if self.first.is_none() {
            Failures { first: Some(failure), ..self }
        } else {
            let ghost before = self.later@;
            let mut later = self.later;
            later.push(failure);
            assert(results(later@) =~= results(before).push(failure@));
            Failures { later, ..self }
        }
    }

    /// Makes the report.
    pub fn into_report(self, signals_completion: bool) -> (report: RunReport)
        ensures
            report@ == self@.report(signals_completion),
    {
        let notify = signals_completion && self.first.is_none();
        let result = match self.first {
            Some(failure) => failure,
            None => RunResult::Success,
        };
        RunReport { result, secondary: self.later, notify }
    }
}

/// What became of an external process.
#[derive(Debug, PartialEq, Eq)]
pub enum ProcessOutcome {
    /// The process could not be started.
    SpawnFailed { detail: String },
    /// The process ran to its end.
    Exited { success: bool, code: Option<i32> },
}

pub enum ProcessOutcomeView {
    SpawnFailed { detail: Seq<char> },
    Exited { success: bool, code: Option<i32> },
}

impl View for ProcessOutcome {
    type V = ProcessOutcomeView;

    open spec fn view(&self) -> ProcessOutcomeView {
        match self {
            ProcessOutcome::SpawnFailed { detail } => ProcessOutcomeView::SpawnFailed {
                detail: detail@,
            },
            ProcessOutcome::Exited { success, code } => ProcessOutcomeView::Exited {
                success: *success,
                code: *code,
            },
        }
    }
}

/// The exit code that a failure carries: the observed one, or
/// [`NO_EXIT_CODE`] where none was observed.
pub open spec fn reported_code(code: Option<i32>) -> i32 {
    match code {
        Some(c) => c,
        None => NO_EXIT_CODE,
    }
}

/// The exit code that a failure carries.
pub fn exit_code(code: Option<i32>) -> (reported: i32)
    ensures
        reported == reported_code(code),
{
    match code {
        Some(c) => c,
        None => NO_EXIT_CODE,
    }
}

/// A text made of a fixed prefix and a detail.
pub fn prefixed(prefix: &str, detail: &str) -> (text: String)
    ensures
        text@ == prefix@ + detail@,
{
    let mut text = prefix.to_owned();
    text.append(detail);
    text
}

} // verus!

//! The lifecycle of a terminal login: the decisions between writing the
//! artifacts, running the client and removing the artifacts again. The one
//! who drives it performs each action and hands back what came of it.

use crate::artifact::{
    artifact_file_name, artifact_name, artifact_timestamp, encode_script, encoding_view,
    file_path, fits_encoder, is_millisecond_time, path_in, script_bytes, shift_jis_encoding,
    template_name, Artifact, ArtifactView,
};
use crate::outcome::{
    exit_code, prefixed, reported_code, Failures, FailuresView, ProcessOutcome,
    ProcessOutcomeView, RunReport, RunReportView, RunResult, RunResultView,
};
use crate::settings::{render_settings, settings_text};
use crate::text::{opt_str_text, opt_text, texts};
use vstd::prelude::*;
use vstd::string::StrSliceExecFns;
use vstd::utf8::encode_utf8;

verus! {

/// What the driver is asked to do next.
#[derive(Debug, PartialEq, Eq)]
pub enum Action {
    /// Write the artifact: its bytes to a new file at its path.
    WriteFile { artifact: Artifact },
    /// Read the file as text.
    ReadFile { path: String },
    /// Run the program with the arguments and wait for its end.
    Launch { program: String, arguments: Vec<String> },
    /// Remove the file.
    RemoveFile { path: String },
    /// Hand the report to the caller; nothing follows.
    Finish { report: RunReport },
}

pub enum ActionView {
    WriteFile { artifact: ArtifactView },
    ReadFile { path: Seq<char> },
    Launch { program: Seq<char>, arguments: Seq<Seq<char>> },
    RemoveFile { path: Seq<char> },
    Finish { report: RunReportView },
}

impl View for Action {
    type V = ActionView;

    open spec fn view(&self) -> ActionView {
        match self {
            Action::WriteFile { artifact } => ActionView::WriteFile { artifact: artifact@ },
            Action::ReadFile { path } => ActionView::ReadFile { path: path@ },
            Action::Launch { program, arguments } => ActionView::Launch {
                program: program@,
                arguments: texts(arguments@),
            },
            Action::RemoveFile { path } => ActionView::RemoveFile { path: path@ },
            Action::Finish { report } => ActionView::Finish { report: report@ },
        }
    }
}

/// What came of an action. An error is the detail that the system gave.
#[derive(Debug, PartialEq, Eq)]
pub enum Event {
    /// The file was written, or was not.
    Written { error: Option<String> },
    /// The file was read, or was not.
    FileRead { content: Result<String, String> },
    /// The program ended, or could not be started.
    Exited { outcome: ProcessOutcome },
    /// The file was removed, or was not.
    Removed { error: Option<String> },
}

pub enum EventView {
    Written { error: Option<Seq<char>> },
    FileRead { content: Result<Seq<char>, Seq<char>> },
    Exited { outcome: ProcessOutcomeView },
    Removed { error: Option<Seq<char>> },
}

impl View for Event {
    type V = EventView;

    open spec fn view(&self) -> EventView {
        match self {
            Event::Written { error } => EventView::Written { error: opt_text(*error) },
            Event::FileRead { content } => EventView::FileRead {
                content: match content {
                    Ok(text) => Ok(text@),
                    Err(detail) => Err(detail@),
                },
            },
            Event::Exited { outcome } => EventView::Exited { outcome: outcome@ },
            Event::Removed { error } => EventView::Removed { error: opt_text(*error) },
        }
    }
}

/// Where a terminal login stands: what it waits for.
#[derive(Debug, Clone, Copy, PartialEq, Eq)]
pub enum Stage {
    /// The script artifact is being written.
    WritingArtifact,
    /// The settings template is being read.
    ReadingTemplate,
    /// The settings file is being written.
    WritingSettings,
    /// The client runs.
    Running,
    /// The script artifact is being removed.
    RemovingArtifact,
    /// The settings file is being removed.
    RemovingSettings,
    /// The report was handed out.
    Finished,
}

/// The companion settings file of a session.
#[derive(Debug, PartialEq, Eq)]
pub struct SettingsJob {
    /// Where the template is read from.
    pub template_path: String,
    /// Where the settings file is written to.
    pub settings_path: String,
    /// The background colour that goes into the colour line.
    pub bg_color: String,
}

pub struct SettingsJobView {
    pub template_path: Seq<char>,
    pub settings_path: Seq<char>,
    pub bg_color: Seq<char>,
}

impl View for SettingsJob {
    type V = SettingsJobView;

    open spec fn view(&self) -> SettingsJobView {
        SettingsJobView {
            template_path: self.template_path@,
            settings_path: self.settings_path@,
            bg_color: self.bg_color@,
        }
    }
}

/// A terminal login under way.
#[derive(Debug, PartialEq, Eq)]
pub struct MacroRun {
    pub stage: Stage,
    /// The path of the client's macro runner.
    pub program: String,
    /// The path of the script artifact.
    pub artifact_path: String,
    /// The companion settings file, where the session has one.
    pub settings: Option<SettingsJob>,
    /// The script artifact was written and has not been removed.
    pub artifact_on_disk: bool,
    /// The settings file was written and has not been removed.
    pub settings_on_disk: bool,
    /// The failures met so far.
    pub failures: Failures,
}

pub struct MacroRunView {
    pub stage: Stage,
    pub program: Seq<char>,
    pub artifact_path: Seq<char>,
    pub settings: Option<SettingsJobView>,
    pub artifact_on_disk: bool,
    pub settings_on_disk: bool,
    pub failures: FailuresView,
}

impl View for MacroRun {
    type V = MacroRunView;

    open spec fn view(&self) -> MacroRunView {
        MacroRunView {
            stage: self.stage,
            program: self.program@,
            artifact_path: self.artifact_path@,
            settings: match self.settings {
                Some(job) => Some(job@),
                None => None,
            },
            artifact_on_disk: self.artifact_on_disk,
            settings_on_disk: self.settings_on_disk,
            failures: self.failures@,
        }
    }
}

/// The state after a failure.
pub open spec fn recorded(state: MacroRunView, failure: RunResultView) -> MacroRunView {
    MacroRunView { failures: state.failures.with(failure), ..state }
}

/// The end of a run: the failures leave with the report, and on success the
/// completion signal is asked for.
pub open spec fn finished(state: MacroRunView) -> (MacroRunView, ActionView) {
    (
        MacroRunView { stage: Stage::Finished, failures: FailuresView::none(), ..state },
        ActionView::Finish { report: state.failures.report(true) },
    )
}

/// After the script artifact: the settings file is removed where it is on
/// disk, else the run ends.
pub open spec fn settings_removal(state: MacroRunView) -> (MacroRunView, ActionView) {
    match state.settings {
        Some(job) if state.settings_on_disk => (
            MacroRunView { stage: Stage::RemovingSettings, ..state },
            ActionView::RemoveFile { path: job.settings_path },
        ),
        _ => finished(state),
    }
}

/// The cleanup: the script artifact is removed where it is on disk, then the
/// settings file.
pub open spec fn cleanup(state: MacroRunView) -> (MacroRunView, ActionView) {
    if state.artifact_on_disk {
        (
            MacroRunView { stage: Stage::RemovingArtifact, ..state },
            ActionView::RemoveFile { path: state.artifact_path },
        )
    } else {
        settings_removal(state)
    }
}

/// The launch of the client, with the artifact's path as its one argument.
pub open spec fn launched(state: MacroRunView) -> (MacroRunView, ActionView) {
    (
        MacroRunView { stage: Stage::Running, ..state },
        ActionView::Launch { program: state.program, arguments: seq![state.artifact_path] },
    )
}

/// The failure of a write, with the detail that the system gave.
pub open spec fn write_failure(detail: Seq<char>) -> RunResultView {
    RunResultView::LaunchError { cause: "File write error: "@ + detail }
}

/// The failure to read the settings template.
pub open spec fn template_failure(detail: Seq<char>) -> RunResultView {
    RunResultView::LaunchError { cause: "Failed to read template file: "@ + detail }
}

/// The failure to start the client.
pub open spec fn spawn_failure(detail: Seq<char>) -> RunResultView {
    RunResultView::LaunchError { cause: "Macro execution error: "@ + detail }
}

/// The failure of a removal.
pub open spec fn removal_failure(detail: Seq<char>) -> RunResultView {
    RunResultView::CleanupError { cause: "File deletion failed: "@ + detail }
}

/// Whether the event is the one that the stage waits for.
pub open spec fn awaited(stage: Stage, event: EventView) -> bool {
    match stage {
        Stage::WritingArtifact | Stage::WritingSettings => event is Written,
        Stage::ReadingTemplate => event is FileRead,
        Stage::Running => event is Exited,
        Stage::RemovingArtifact | Stage::RemovingSettings => event is Removed,
        Stage::Finished => false,
    }
}

/// The state after a removal: the file is gone, or the failure is recorded
/// and the file counts as still on disk.
pub open spec fn after_removal(
    state: MacroRunView,
    error: Option<Seq<char>>,
    gone: MacroRunView,
) -> MacroRunView {
    match error {
        None => gone,
        Some(detail) => recorded(state, removal_failure(detail)),
    }
}

/// The transition: the state and the action that follow an event, or `None`
/// where the stage does not wait for that event.
///
/// - Once the script artifact is written the settings template is read, the
///   settings file made from it and written; a session without a settings
///   file goes on to the launch at once. A script artifact that could not
///   be written ends the run with nothing to clean up.
/// - The client is launched only after every artifact is written.
/// - Whatever happens once the script artifact is on disk, the cleanup
///   follows: a failed read or write of the settings, a failed spawn, a
///   process that reports failure or success.
/// - The cleanup removes what is on disk, the script artifact first, and
///   tries every removal once, also after another removal failed.
pub open spec fn next(state: MacroRunView, event: EventView) -> Option<
    (MacroRunView, ActionView),
> {
    if !awaited(state.stage, event) {
        None
    } else {
        Some(
            match (state.stage, event) {
                (Stage::WritingArtifact, EventView::Written { error: Some(detail) }) => finished(
                    recorded(state, write_failure(detail)),
                ),
                (Stage::WritingArtifact, _) => {
                    let written = MacroRunView { artifact_on_disk: true, ..state };
                    match state.settings {
                        Some(job) => (
                            MacroRunView { stage: Stage::ReadingTemplate, ..written },
                            ActionView::ReadFile { path: job.template_path },
                        ),
                        None => launched(written),
                    }
                },
                (Stage::ReadingTemplate, EventView::FileRead { content: Ok(template) }) => {
                    match state.settings {
                        Some(job) => (
                            MacroRunView { stage: Stage::WritingSettings, ..state },
                            ActionView::WriteFile {
                                artifact: ArtifactView {
                                    path: job.settings_path,
                                    content: encode_utf8(settings_text(template, job.bg_color)),
                                },
                            },
                        ),
                        None => launched(state),
                    }
                },
                (Stage::ReadingTemplate, EventView::FileRead { content: Err(detail) }) => cleanup(
                    recorded(state, template_failure(detail)),
                ),
                (Stage::WritingSettings, EventView::Written { error: Some(detail) }) => cleanup(
                    recorded(state, write_failure(detail)),
                ),
                (Stage::WritingSettings, _) => launched(
                    MacroRunView { settings_on_disk: true, ..state },
                ),
                (
                    Stage::Running,
                    EventView::Exited { outcome: ProcessOutcomeView::SpawnFailed { detail } },
                ) => cleanup(recorded(state, spawn_failure(detail))),
                (
                    Stage::Running,
                    EventView::Exited { outcome: ProcessOutcomeView::Exited { success, code } },
                ) => if success {
                    cleanup(state)
                } else {
                    cleanup(
                        recorded(
                            state,
                            RunResultView::ProcessFailure { code: reported_code(code) },
                        ),
                    )
                },
                (Stage::RemovingArtifact, EventView::Removed { error }) => settings_removal(
                    after_removal(
                        state,
                        error,
                        MacroRunView { artifact_on_disk: false, ..state },
                    ),
                ),
                (Stage::RemovingSettings, EventView::Removed { error }) => finished(
                    after_removal(
                        state,
                        error,
                        MacroRunView { settings_on_disk: false, ..state },
                    ),
                ),
                _ => finished(state),
            },
        )
    }
}

/// The start of a run: the script artifact is written first; a script that
/// could not be encoded ends the run before anything is written or launched.
pub open spec fn begun(
    program: Seq<char>,
    artifact_path: Seq<char>,
    settings: Option<SettingsJobView>,
    encoded: Result<Seq<u8>, RunResultView>,
) -> (MacroRunView, ActionView) {
    let fresh = MacroRunView {
        stage: Stage::WritingArtifact,
        program,
        artifact_path,
        settings,
        artifact_on_disk: false,
        settings_on_disk: false,
        failures: FailuresView::none(),
    };
    match encoded {
        Ok(content) => (
            fresh,
            ActionView::WriteFile { artifact: ArtifactView { path: artifact_path, content } },
        ),
        Err(failure) => finished(recorded(fresh, failure)),
    }
}

/// The view of a state and an action.
pub open spec fn step_view(step: (MacroRun, Action)) -> (MacroRunView, ActionView) {
    (step.0@, step.1@)
}

impl MacroRun {
    /// Starts a run from what the encoder made of the script.
    pub fn begin(
        program: String,
        artifact_path: String,
        settings: Option<SettingsJob>,
        encoded: Result<Vec<u8>, RunResult>,
    ) -> (start: (MacroRun, Action))
        ensures
            step_view(start) == begun(
                program@,
                artifact_path@,
                match settings {
                    Some(job) => Some(job@),
                    None => None,
                },
                encoding_view(encoded),
            ),
    {
        let path = artifact_path.clone();
        let fresh = MacroRun {
            stage: Stage::WritingArtifact,
            program,
            artifact_path,
            settings,
            artifact_on_disk: false,
            settings_on_disk: false,
            failures: Failures::new(),
        };
        match encoded {
            Ok(content) => (fresh, Action::WriteFile { artifact: Artifact { path, content } }),
            Err(failure) => fresh.record(failure).finish(),
        }
    }

    /// Whether the run waits for the event.
    pub fn awaits(&self, event: &Event) -> (waits: bool)
        ensures
            waits == awaited(self@.stage, event@),
    {
        match self.stage {
            Stage::WritingArtifact | Stage::WritingSettings => match event {
                Event::Written { .. } => true,
                _ => false,
            },
            Stage::ReadingTemplate => match event {
                Event::FileRead { .. } => true,
                _ => false,
            },
            Stage::Running => match event {
                Event::Exited { .. } => true,
                _ => false,
            },
            Stage::RemovingArtifact | Stage::RemovingSettings => match event {
                Event::Removed { .. } => true,
                _ => false,
            },
            Stage::Finished => false,
        }
    }

    /// Whether the report was handed out.
    pub fn is_finished(&self) -> (done: bool)
        ensures
            done == (self@.stage == Stage::Finished),
    {
        match self.stage {
            Stage::Finished => true,
            _ => false,
        }
    }

    fn record(self, failure: RunResult) -> (state: MacroRun)
        ensures
            state@ == recorded(self@, failure@),
    {
        let failures = self.failures.record(failure);
        MacroRun { failures, ..self }
    }

    fn finish(self) -> (step: (MacroRun, Action))
        ensures
            step_view(step) == finished(self@),
    {
        let report = self.failures.into_report(true);
        (
            MacroRun { stage: Stage::Finished, failures: Failures::new(), ..self },
            Action::Finish { report },
        )
    }

    fn remove_settings(self) -> (step: (MacroRun, Action))
        ensures
            step_view(step) == settings_removal(self@),
    {
        if self.settings_on_disk {
            match &self.settings {
                Some(job) => {
                    let path = job.settings_path.clone();
                    return (
                        MacroRun { stage: Stage::RemovingSettings, ..self },
                        Action::RemoveFile { path },
                    );
                },
                None => {},
            }
        }
        self.finish()
    }

    fn clean_up(self) -> (step: (MacroRun, Action))
        ensures
            step_view(step) == cleanup(self@),
    {
        if self.artifact_on_disk {
            let path = self.artifact_path.clone();
            (MacroRun { stage: Stage::RemovingArtifact, ..self }, Action::RemoveFile { path })
        } else {
            self.remove_settings()
        }
    }

    fn launch(self) -> (step: (MacroRun, Action))
        ensures
            step_view(step) == launched(self@),
    {
        let program = self.program.clone();
        let mut arguments: Vec<String> = Vec::new();
        arguments.push(self.artifact_path.clone());
        assert(texts(arguments@) =~= seq![self.artifact_path@]);
        (MacroRun { stage: Stage::Running, ..self }, Action::Launch { program, arguments })
    }

    /// Takes what came of the last action and says what to do next. An
    /// event that the run does not wait for changes nothing and is answered
    /// with no action.
    pub fn step(self, event: Event) -> (step: (MacroRun, Option<Action>))
        ensures
            match next(self@, event@) {
                Some(following) => step.1 matches Some(action) && (step.0@, action@)
                    == following,
                None => step.1 is None && step.0@ == self@,
            },
    {
        if !self.awaits(&event) {
            return (self, None);
        }
        let (state, action) = match event {
            Event::Written { error } => match self.stage {
                Stage::WritingArtifact => match error {
                    Some(detail) => {
                        let cause = prefixed("File write error: ", detail.as_str());
                        self.record(RunResult::LaunchError { cause }).finish()
                    },
                    None => {
                        let written = MacroRun { artifact_on_disk: true, ..self };
                        written.read_template()
                    },
                },
                _ => match error {
                    Some(detail) => {
                        let cause = prefixed("File write error: ", detail.as_str());
                        self.record(RunResult::LaunchError { cause }).clean_up()
                    },
                    None => {
                        let written = MacroRun { settings_on_disk: true, ..self };
                        written.launch()
                    },
                },
            },
            Event::FileRead { content } => match content {
                Ok(template) => self.write_settings(template.as_str()),
                Err(detail) => {
                    let cause = prefixed("Failed to read template file: ", detail.as_str());
                    self.record(RunResult::LaunchError { cause }).clean_up()
                },
            },
            Event::Exited { outcome } => match outcome {
                ProcessOutcome::SpawnFailed { detail } => {
                    let cause = prefixed("Macro execution error: ", detail.as_str());
                    self.record(RunResult::LaunchError { cause }).clean_up()
                },
                ProcessOutcome::Exited { success, code } => {
                    if success {
                        self.clean_up()
                    } else {
                        self.record(RunResult::ProcessFailure { code: exit_code(code) }).clean_up()
                    }
                },
            },
            Event::Removed { error } => match self.stage {
                Stage::RemovingArtifact => match error {
                    Some(detail) => {
                        let cause = prefixed("File deletion failed: ", detail.as_str());
                        self.record(RunResult::CleanupError { cause }).remove_settings()
                    },
                    None => {
                        let gone = MacroRun { artifact_on_disk: false, ..self };
                        gone.remove_settings()
                    },
                },
                _ => match error {
                    Some(detail) => {
                        let cause = prefixed("File deletion failed: ", detail.as_str());
                        self.record(RunResult::CleanupError { cause }).finish()
                    },
                    None => {
                        let gone = MacroRun { settings_on_disk: false, ..self };
                        gone.finish()
                    },
                },
            },
        };
        (state, Some(action))
    }

    fn read_template(self) -> (step: (MacroRun, Action))
        ensures
            step_view(step) == match self@.settings {
                Some(job) => (
                    MacroRunView { stage: Stage::ReadingTemplate, ..self@ },
                    ActionView::ReadFile { path: job.template_path },
                ),
                None => launched(self@),
            },
    {
        match &self.settings {
            Some(job) => {
                let path = job.template_path.clone();
                (MacroRun { stage: Stage::ReadingTemplate, ..self }, Action::ReadFile { path })
            },
            None => self.launch(),
        }
    }

    fn write_settings(self, template: &str) -> (step: (MacroRun, Action))
        ensures
            step_view(step) == match self@.settings {
                Some(job) => (
                    MacroRunView { stage: Stage::WritingSettings, ..self@ },
                    ActionView::WriteFile {
                        artifact: ArtifactView {
                            path: job.settings_path,
                            content: encode_utf8(settings_text(template@, job.bg_color)),
                        },
                    },
                ),
                None => launched(self@),
            },
    {
        match &self.settings {
            Some(job) => {
                let path = job.settings_path.clone();
                let text = render_settings(template, job.bg_color.as_str());
                let content = text.as_str().as_bytes_vec();
                (
                    MacroRun { stage: Stage::WritingSettings, ..self },
                    Action::WriteFile { artifact: Artifact { path, content } },
                )
            },
            None => self.launch(),
        }
    }
}

/// The settings of a prepared run: with a settings path, the job of making
/// the file there from the template in the working directory.
pub open spec fn settings_in(
    settings_path: Option<Seq<char>>,
    bg_color: Seq<char>,
    working_dir: Seq<char>,
) -> Option<SettingsJobView> {
    match settings_path {
        Some(path) => Some(
            SettingsJobView {
                template_path: path_in(working_dir, template_name()),
                settings_path: path,
                bg_color,
            },
        ),
        None => None,
    }
}

/// The start of the run of a composed script whose artifact is named after
/// the given time. The script artifact and the settings template lie in the
/// working directory; with a settings path the session has a settings file
/// there, made with the background colour.
pub open spec fn macro_start(
    program: Seq<char>,
    script: Seq<char>,
    settings_path: Option<Seq<char>>,
    bg_color: Seq<char>,
    working_dir: Seq<char>,
    artifact_time: Seq<char>,
) -> (MacroRunView, ActionView) {
    begun(
        program,
        path_in(working_dir, artifact_name(artifact_time)),
        settings_in(settings_path, bg_color, working_dir),
        script_bytes(script),
    )
}

/// Prepares the run of a composed script at a given time: encodes the
/// script for the client and starts the run with the writing of the script
/// artifact, or ends it at once where the script holds a character that the
/// client's encoding lacks. The script has to be short enough for the
/// encoder on this machine.
pub fn prepare_macro(
    ttpmacro_path: &str,
    macro_content: &str,
    ini_path: Option<&str>,
    bg_color: &str,
    working_dir: &str,
    artifact_time: &str,
) -> (start: (MacroRun, Action))
    requires
        fits_encoder(macro_content@),
    ensures
        step_view(start) == macro_start(
            ttpmacro_path@,
            macro_content@,
            opt_str_text(ini_path),
            bg_color@,
            working_dir@,
            artifact_time@,
        ),
{
    let encoded = encode_script(macro_content);
    let file_name = artifact_file_name(artifact_time);
    let artifact_path = file_path(working_dir, file_name.as_str());
    let settings = match ini_path {
        Some(path) => Some(
            SettingsJob {
                template_path: file_path(working_dir, "template.ini"),
                settings_path: path.to_owned(),
                bg_color: bg_color.to_owned(),
            },
        ),
        None => None,
    };
    MacroRun::begin(ttpmacro_path.to_owned(), artifact_path, settings, encoded)
}

/// Prepares the run of a composed script now: as [`prepare_macro`] does,
/// with the script artifact named after the current local time to the
/// millisecond. Which time that is depends on the clock; the contract holds
/// for whatever time was read, and says what form it has.
///
/// The time is read from the system clock and put into local time by
/// `chrono`, which takes any time that a system clock can read, one before
/// 1970 too, and gives up only on a system whose time-zone rules are
/// broken. [`prepare_macro`] does the same for a time that the caller has
/// read, and reads nothing itself.
pub fn execute_teraterm_macro(
    ttpmacro_path: &str,
    macro_content: &str,
    ini_path: Option<&str>,
    bg_color: &str,
    working_dir: &str,
) -> (start: (MacroRun, Action))
    requires
        fits_encoder(macro_content@),
    ensures
        exists|artifact_time: Seq<char>|
            #![trigger is_millisecond_time(artifact_time)]
            is_millisecond_time(artifact_time) && step_view(start) == macro_start(
                ttpmacro_path@,
                macro_content@,
                opt_str_text(ini_path),
                bg_color@,
                working_dir@,
                artifact_time,
            ),
{
    let artifact_time = artifact_timestamp();
    let start = prepare_macro(
        ttpmacro_path,
        macro_content,
        ini_path,
        bg_color,
        working_dir,
        artifact_time.as_str(),
    );
    assert(is_millisecond_time(artifact_time@));
    start
}

/// A removal failed and the report says so: as its result, or beside an
/// earlier failure.
pub open spec fn removal_reported(failures: FailuresView) -> bool {
    failures.first matches Some(RunResultView::CleanupError { .. }) || failures.later.len() > 0
}

/// The states that a run can be in: what is on disk and what has failed
/// fit the stage.
pub open spec fn well_formed(state: MacroRunView) -> bool {
    &&& state.settings_on_disk ==> state.settings is Some
    &&& state.failures.first is None ==> state.failures.later.len() == 0
    &&& state.failures.first != Some(RunResultView::Success)
    &&& match state.stage {
        Stage::WritingArtifact => !state.artifact_on_disk && !state.settings_on_disk
            && state.failures == FailuresView::none(),
        Stage::ReadingTemplate | Stage::WritingSettings => state.artifact_on_disk
            && !state.settings_on_disk && state.settings is Some && state.failures
            == FailuresView::none(),
        Stage::Running => state.artifact_on_disk && (state.settings is Some
            ==> state.settings_on_disk) && state.failures == FailuresView::none(),
        Stage::RemovingArtifact => state.artifact_on_disk && !removal_reported(state.failures),
        Stage::RemovingSettings => state.settings_on_disk && (state.artifact_on_disk
            ==> removal_reported(state.failures)),
        Stage::Finished => state.failures == FailuresView::none(),
    }
}

/// The state that a run is in after a sequence of events, each answered by
/// [`next`]; an event that the run does not wait for changes nothing.
pub open spec fn state_after(start: MacroRunView, events: Seq<EventView>) -> MacroRunView
    decreases events.len(),
{
    if events.len() == 0 {
        start
    } else {
        let before = state_after(start, events.drop_last());
        match next(before, events.last()) {
            Some(following) => following.0,
            None => before,
        }
    }
}

/// The number of events that a run can still take at most.
pub open spec fn steps_left(stage: Stage) -> nat {
    match stage {
        Stage::WritingArtifact => 6,
        Stage::ReadingTemplate => 5,
        Stage::WritingSettings => 4,
        Stage::Running => 3,
        Stage::RemovingArtifact => 2,
        Stage::RemovingSettings => 1,
        Stage::Finished => 0,
    }
}

/// Every run ends: each event that a run waits for takes it strictly
/// nearer to its end, so that the report is handed out after six events at
/// the latest; and a run that has not ended always waits for some event.
/// Nothing is tried twice.
pub proof fn lemma_every_run_ends(state: MacroRunView, event: EventView)
    ensures
        next(state, event) matches Some((after, action)) ==> steps_left(after.stage)
            < steps_left(state.stage) && (action is Finish <==> after.stage
            == Stage::Finished),
        state.stage != Stage::Finished ==> exists|awaited_event: EventView|
            next(state, awaited_event) is Some,
{
    if state.stage != Stage::Finished {
        let witness = match state.stage {
            Stage::WritingArtifact | Stage::WritingSettings => EventView::Written {
                error: None,
            },
            Stage::ReadingTemplate => EventView::FileRead { content: Ok(Seq::empty()) },
            Stage::Running => EventView::Exited {
                outcome: ProcessOutcomeView::Exited { success: true, code: Some(0) },
            },
            _ => EventView::Removed { error: None },
        };
        assert(next(state, witness) is Some);
    }
}

/// A run starts in a well-formed state, whatever it is started with.
pub proof fn lemma_begun_is_well_formed(
    program: Seq<char>,
    artifact_path: Seq<char>,
    settings: Option<SettingsJobView>,
    encoded: Result<Seq<u8>, RunResultView>,
)
    ensures
        well_formed(begun(program, artifact_path, settings, encoded).0),
{
}

/// Every transition leads from a well-formed state to a well-formed state.
pub proof fn lemma_next_is_well_formed(state: MacroRunView, event: EventView)
    requires
        well_formed(state),
    ensures
        next(state, event) matches Some(following) ==> well_formed(following.0),
{
}

/// Whatever events come in whatever order, a run stays well-formed.
pub proof fn lemma_run_is_well_formed(start: MacroRunView, events: Seq<EventView>)
    requires
        well_formed(start),
    ensures
        well_formed(state_after(start, events)),
    decreases events.len(),
{
    if events.len() > 0 {
        lemma_run_is_well_formed(start, events.drop_last());
        lemma_next_is_well_formed(state_after(start, events.drop_last()), events.last());
    }
}

/// The cleanup guarantee. When a run ends, neither the script artifact nor
/// the settings file is on disk, unless a removal failed; and a failed
/// removal is in the report: as its result, a cleanup error, where nothing
/// failed before it, else beside the earlier failure. A report of success
/// means that nothing is left and nothing failed.
pub proof fn lemma_cleanup_guarantee(state: MacroRunView, event: EventView)
    requires
        well_formed(state),
    ensures
        next(state, event) matches Some((after, ActionView::Finish { report })) ==> {
            &&& after.artifact_on_disk || after.settings_on_disk ==> report.result
                is CleanupError || (report.secondary.len() > 0 && !(report.result is Success))
            &&& report.result is Success ==> !after.artifact_on_disk
                && !after.settings_on_disk && report.secondary.len() == 0 && report.notify
            &&& !(report.result is Success) ==> !report.notify
        },
{
}

/// The cleanup guarantee of whole runs: however a run was started and
/// whatever events it has met, at its end no artifact is left unless a
/// removal failed, and such a failure is in the report.
pub proof fn lemma_every_run_cleans_up(
    program: Seq<char>,
    artifact_path: Seq<char>,
    settings: Option<SettingsJobView>,
    encoded: Result<Seq<u8>, RunResultView>,
    events: Seq<EventView>,
    last: EventView,
)
    ensures
        ({
            let start = begun(program, artifact_path, settings, encoded);
            &&& start.1 matches ActionView::Finish { report } ==> !start.0.artifact_on_disk
                && !start.0.settings_on_disk
            &&& next(state_after(start.0, events), last) matches Some(
                (after, ActionView::Finish { report }),
            ) ==> {
                &&& after.artifact_on_disk || after.settings_on_disk ==> report.result
                    is CleanupError || (report.secondary.len() > 0 && !(report.result
                    is Success))
                &&& report.result is Success ==> !after.artifact_on_disk
                    && !after.settings_on_disk
            }
        }),
{
    let start = begun(program, artifact_path, settings, encoded);
    lemma_begun_is_well_formed(program, artifact_path, settings, encoded);
    lemma_run_is_well_formed(start.0, events);
    lemma_cleanup_guarantee(state_after(start.0, events), last);
}

/// A removal that fails is reported. Where nothing failed before, it is
/// the result from then on: a cleanup error with the detail that the system
/// gave. Where something failed before, that stays the result and the
/// failed removal is added to the failures beside it.
pub proof fn lemma_failed_removal_is_reported(state: MacroRunView, detail: Seq<char>)
    requires
        well_formed(state),
        state.stage == Stage::RemovingArtifact || state.stage == Stage::RemovingSettings,
    ensures
        next(state, EventView::Removed { error: Some(detail) }) matches Some((after, action))
            && match action {
            ActionView::Finish { report } => report == state.failures.with(
                removal_failure(detail),
            ).report(true),
            _ => after.failures == state.failures.with(removal_failure(detail)),
        },
        state.failures.first is None ==> state.failures.with(removal_failure(detail)).report(
            true,
        ).result == removal_failure(detail),
{
}

/// An artifact that is on disk when an event arrives is, unless the run
/// ends with this event, either still known to be on disk or was removed by
/// this event: no transition forgets a file.
pub proof fn lemma_no_file_is_forgotten(state: MacroRunView, event: EventView)
    requires
        well_formed(state),
    ensures
        next(state, event) matches Some((after, action)) ==> {
            &&& state.artifact_on_disk && !after.artifact_on_disk ==> state.stage
                == Stage::RemovingArtifact && event == (EventView::Removed { error: None })
            &&& state.settings_on_disk && !after.settings_on_disk ==> state.stage
                == Stage::RemovingSettings && event == (EventView::Removed { error: None })
        },
{
}

/// The client is launched only with every artifact of the session on disk
/// and nothing failed; in particular never after an encoding error, which
/// ends the run before its first event.
pub proof fn lemma_launch_is_prepared(state: MacroRunView, event: EventView)
    requires
        well_formed(state),
    ensures
        next(state, event) matches Some((after, ActionView::Launch { program, arguments })) ==> {
            &&& after.artifact_on_disk
            &&& after.settings is Some ==> after.settings_on_disk
            &&& after.failures == FailuresView::none()
            &&& program == state.program
            &&& arguments == seq![state.artifact_path]
        },
{
}

/// A script that cannot be encoded ends the run at once: the report is an
/// encoding error, nothing is on disk, and no event leads any further.
pub proof fn lemma_encoding_error_ends_the_run(
    program: Seq<char>,
    artifact_path: Seq<char>,
    settings: Option<SettingsJobView>,
    event: EventView,
)
    ensures
        ({
            let start = begun(
                program,
                artifact_path,
                settings,
                Err(RunResultView::EncodingError),
            );
            &&& start.1 == (ActionView::Finish {
                report: RunReportView {
                    result: RunResultView::EncodingError,
                    secondary: Seq::empty(),
                    notify: false,
                },
            })
            &&& start.0.stage == Stage::Finished
            &&& !start.0.artifact_on_disk && !start.0.settings_on_disk
            &&& next(start.0, event) is None
        }),
{
}

/// The first failure of a run is the result of its report: a failure met
/// later, a failed removal after a failed process among them, never takes
/// its place.
pub proof fn lemma_first_failure_is_reported(
    failures: FailuresView,
    later: RunResultView,
    signals_completion: bool,
)
    requires
        failures.first is Some,
    ensures
        failures.with(later).report(signals_completion).result == failures.first->0,
        failures.with(later).report(signals_completion).secondary == failures.later.push(later),
{
}

/// The step that follows a step when the next event comes in; a run that
/// does not wait for the event, or has not come so far, goes no further.
pub open spec fn followed(step: Option<(MacroRunView, ActionView)>, event: EventView) -> Option<
    (MacroRunView, ActionView),
> {
    match step {
        Some(before) => next(before.0, event),
        None => None,
    }
}

/// A run whose client runs: every artifact of the session is on disk and
/// nothing has failed.
pub open spec fn launched_run(
    program: Seq<char>,
    artifact_path: Seq<char>,
    settings: Option<SettingsJobView>,
) -> MacroRunView {
    MacroRunView {
        stage: Stage::Running,
        program,
        artifact_path,
        settings,
        artifact_on_disk: true,
        settings_on_disk: settings is Some,
        failures: FailuresView::none(),
    }
}

/// A run that has ended with no file left, or with the files that it says.
pub open spec fn ended_run(
    program: Seq<char>,
    artifact_path: Seq<char>,
    settings: Option<SettingsJobView>,
    artifact_left: bool,
    settings_left: bool,
) -> MacroRunView {
    MacroRunView {
        stage: Stage::Finished,
        program,
        artifact_path,
        settings,
        artifact_on_disk: artifact_left,
        settings_on_disk: settings_left,
        failures: FailuresView::none(),
    }
}

/// The report of a run in which one thing failed; of a run in which nothing
/// failed where `failure` is `None`, and then with the completion signal.
pub open spec fn report_with(failure: Option<RunResultView>) -> ActionView {
    ActionView::Finish {
        report: RunReportView {
            result: match failure {
                Some(f) => f,
                None => RunResultView::Success,
            },
            secondary: Seq::empty(),
            notify: failure is None,
        },
    }
}

/// The way to the launch. A script that was encoded is written first;
/// where the session has a settings file the template is read and the
/// settings made from it are written, in the bytes of their text; and once
/// every write has succeeded the client is launched, with the path of the
/// script artifact as its one argument.
pub proof fn lemma_writes_lead_to_the_launch(
    program: Seq<char>,
    artifact_path: Seq<char>,
    settings: Option<SettingsJobView>,
    content: Seq<u8>,
    template: Seq<char>,
)
    ensures
        ({
            let start = begun(program, artifact_path, settings, Ok(content));
            let written = followed(Some(start), EventView::Written { error: None });
            let launch = Some(
                (
                    launched_run(program, artifact_path, settings),
                    ActionView::Launch { program, arguments: seq![artifact_path] },
                ),
            );
            &&& start.1 == (ActionView::WriteFile {
                artifact: ArtifactView { path: artifact_path, content },
            })
            &&& match settings {
                None => written == launch,
                Some(job) => {
                    let read = followed(written, EventView::FileRead { content: Ok(template) });
                    &&& written matches Some((_, action)) && action == (ActionView::ReadFile {
                        path: job.template_path,
                    })
                    &&& read matches Some((_, action)) && action == (ActionView::WriteFile {
                        artifact: ArtifactView {
                            path: job.settings_path,
                            content: encode_utf8(settings_text(template, job.bg_color)),
                        },
                    })
                    &&& followed(read, EventView::Written { error: None }) == launch
                },
            }
        }),
{
}

/// What the end of the client is reported as: nothing where it reported
/// success; a process failure with its exit code, or with -1 where it gave
/// none, where it ran and reported no success; a launch error where it could
/// not be started.
pub open spec fn client_failure(outcome: ProcessOutcomeView) -> Option<RunResultView> {
    match outcome {
        ProcessOutcomeView::SpawnFailed { detail } => Some(spawn_failure(detail)),
        ProcessOutcomeView::Exited { success, code } => if success {
            None
        } else {
            Some(RunResultView::ProcessFailure { code: reported_code(code) })
        },
    }
}

/// The run after the launch, where the removals succeed. Whatever became
/// of the client, the script artifact is removed, then the settings file
/// where the session has one, and then the report is handed out: success
/// with the completion signal where the client reported success, else the
/// client's failure without the signal. No file is left.
pub proof fn lemma_run_after_the_launch(
    program: Seq<char>,
    artifact_path: Seq<char>,
    settings: Option<SettingsJobView>,
    outcome: ProcessOutcomeView,
)
    ensures
        ({
            let running = launched_run(program, artifact_path, settings);
            let exited = next(running, EventView::Exited { outcome });
            let removed = followed(exited, EventView::Removed { error: None });
            let end = Some(
                (
                    ended_run(program, artifact_path, settings, false, false),
                    report_with(client_failure(outcome)),
                ),
            );
            &&& exited matches Some((_, action)) && action == (ActionView::RemoveFile {
                path: artifact_path,
            })
            &&& match settings {
                None => removed == end,
                Some(job) => {
                    &&& removed matches Some((_, action)) && action == (ActionView::RemoveFile {
                        path: job.settings_path,
                    })
                    &&& followed(removed, EventView::Removed { error: None }) == end
                },
            }
        }),
{
}

/// A removal that fails after a client that reported success. The run
/// still asks for the other removal, and ends with a cleanup error that
/// carries the system's detail, without the completion signal; where both
/// removals fail the second goes with the first. The run keeps count of
/// what it left.
pub proof fn lemma_failed_removal_after_success(
    program: Seq<char>,
    artifact_path: Seq<char>,
    job: SettingsJobView,
    code: Option<i32>,
    artifact_error: Option<Seq<char>>,
    settings_error: Option<Seq<char>>,
)
    requires
        artifact_error is Some || settings_error is Some,
    ensures
        ({
            let running = launched_run(program, artifact_path, Some(job));
            let exited = next(
                running,
                EventView::Exited {
                    outcome: ProcessOutcomeView::Exited { success: true, code },
                },
            );
            let first = followed(exited, EventView::Removed { error: artifact_error });
            let second = followed(first, EventView::Removed { error: settings_error });
            &&& first matches Some((_, action)) && action == (ActionView::RemoveFile {
                path: job.settings_path,
            })
            &&& second matches Some((end, ActionView::Finish { report })) && {
                &&& end == ended_run(
                    program,
                    artifact_path,
                    Some(job),
                    artifact_error is Some,
                    settings_error is Some,
                )
                &&& !report.notify
                &&& report.result == match artifact_error {
                    Some(detail) => removal_failure(detail),
                    None => removal_failure(settings_error->0),
                }
                &&& report.secondary == match (artifact_error, settings_error) {
                    (Some(_), Some(detail)) => seq![removal_failure(detail)],
                    _ => Seq::<RunResultView>::empty(),
                }
            }
        }),
{
    let running = launched_run(program, artifact_path, Some(job));
    let exited = next(
        running,
        EventView::Exited { outcome: ProcessOutcomeView::Exited { success: true, code } },
    );
    let first = followed(exited, EventView::Removed { error: artifact_error });
    let second = followed(first, EventView::Removed { error: settings_error });
    let last = second.unwrap();
    let action = last.1;
    match (artifact_error, settings_error) {
        (Some(_), Some(detail)) => {
            assert(action->report.secondary =~= seq![removal_failure(detail)]);
        },
        _ => {
            assert(action->report.secondary =~= Seq::<RunResultView>::empty());
        },
    }
}

/// A failure between the first write and the launch: the template cannot
/// be read or the settings cannot be written. The client is not launched;
/// the script artifact is removed, and the run ends with that failure, a
/// launch error with the system's detail, and with no file left.
pub proof fn lemma_failure_before_the_launch(
    program: Seq<char>,
    artifact_path: Seq<char>,
    job: SettingsJobView,
    content: Seq<u8>,
    template: Result<Seq<char>, Seq<char>>,
    detail: Seq<char>,
)
    ensures
        ({
            let start = begun(program, artifact_path, Some(job), Ok(content));
            let written = followed(Some(start), EventView::Written { error: None });
            let read = followed(written, EventView::FileRead { content: template });
            let failed = match template {
                Ok(_) => followed(read, EventView::Written { error: Some(detail) }),
                Err(_) => read,
            };
            let failure = match template {
                Ok(_) => write_failure(detail),
                Err(reason) => template_failure(reason),
            };
            &&& failed matches Some((_, action)) && action == (ActionView::RemoveFile {
                path: artifact_path,
            })
            &&& followed(failed, EventView::Removed { error: None }) == Some(
                (
                    ended_run(program, artifact_path, Some(job), false, false),
                    report_with(Some(failure)),
                ),
            )
        }),
{
}

/// A script artifact that cannot be written ends the run at once, with a
/// launch error that carries the system's detail; nothing is on disk and
/// nothing is launched or removed.
pub proof fn lemma_failed_first_write(
    program: Seq<char>,
    artifact_path: Seq<char>,
    settings: Option<SettingsJobView>,
    content: Seq<u8>,
    detail: Seq<char>,
)
    ensures
        followed(
            Some(begun(program, artifact_path, settings, Ok(content))),
            EventView::Written { error: Some(detail) },
        ) == Some(
            (
                ended_run(program, artifact_path, settings, false, false),
                report_with(Some(write_failure(detail))),
            ),
        ),
{
}

/// What the encoder decides. Where it reports a character that the
/// client's encoding lacks, the prepared run has ended before it began: the
/// one action is the report of an encoding error, without the completion
/// signal, nothing is on disk, no bytes are passed on and no event leads to
/// a write, a launch or a removal. Where it reports none, the first action
/// writes exactly the encoder's bytes to `login_<time>.ttl` in the working
/// directory, and the run goes on as every run does.
pub proof fn lemma_the_encoder_decides(
    program: Seq<char>,
    script: Seq<char>,
    settings_path: Option<Seq<char>>,
    bg_color: Seq<char>,
    working_dir: Seq<char>,
    artifact_time: Seq<char>,
    event: EventView,
)
    ensures
        ({
            let start = macro_start(
                program,
                script,
                settings_path,
                bg_color,
                working_dir,
                artifact_time,
            );
            let path = path_in(working_dir, artifact_name(artifact_time));
            let settings = settings_in(settings_path, bg_color, working_dir);
            let encoding = shift_jis_encoding(script);
            if encoding.1 {
                &&& start == (
                    ended_run(program, path, settings, false, false),
                    report_with(Some(RunResultView::EncodingError)),
                )
                &&& next(start.0, event) is None
            } else {
                start == begun(program, path, settings, Ok(encoding.0)) && start.1
                    == (ActionView::WriteFile {
                    artifact: ArtifactView { path, content: encoding.0 },
                })
            }
        }),
{
}

} // verus!

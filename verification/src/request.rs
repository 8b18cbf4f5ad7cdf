//! A login request as the caller states it, and the way from the request to
//! the run of its script.

use crate::artifact::{
    artifact_timestamp, file_path, fits_encoder, is_millisecond_time, is_minute_time,
    path_in, script_bytes, settings_file_name, settings_name,
    transcript_timestamp, ENCODER_LIMIT,
};
use crate::encoder::{
    encoded_secret, is_token_text, lemma_encoded_secret_is_inert, EncodedSecret,
};
use crate::pipeline::{
    macro_start, prepare_macro, step_view, Action, ActionView, MacroRun, MacroRunView,
};
use crate::script::{
    compose_script, connect_line, connect_section, end_section, escalation_section,
    first_word_is, lemma_lines_of_a_short_script, lemma_one_connect_line_and_one_end_line,
    lemma_plain_script, lemma_script_frame,
    lemma_script_without_transcript_and_orchestration, optional_section, short_script_lines,
    orchestration_section, script_text, title_section, transcript_section, Escalation,
    EscalationView, Orchestration, OrchestrationView, ScriptSections, ScriptSectionsView, Title,
    TitleView, Transcript, TranscriptView,
};
use crate::settings::{lines_of, newline_free};
use crate::text::{all_digits, is_digit, lemma_utf8_concat, opt_str_text, opt_text, utf8_len};
use vstd::prelude::*;

verus! {

/// How the session shows itself: the window title and the background colour.
pub struct DisplayMeta {
    pub sid: String,
    pub hostname: String,
    pub memo: String,
    pub bg_color: String,
}

/// One login request. It lives for one call and is never stored.
pub struct LoginRequest {
    pub ip: String,
    pub username: String,
    pub password: String,
    pub su_username: Option<String>,
    pub su_password: Option<String>,
    /// Whether to switch the user after login; not unless stated.
    pub is_su: Option<bool>,
    /// Whether to keep a transcript of the session; kept unless stated.
    pub is_script: Option<bool>,
    pub oc_url: Option<String>,
    pub oc_user: Option<String>,
    pub oc_password: Option<String>,
    /// Whether to log in to the remote orchestration; not unless stated.
    pub is_oc: Option<bool>,
    pub display: Option<DisplayMeta>,
}

/// What the application knows of its surroundings.
pub struct Environment {
    /// The name of the operator, where the system gives one.
    pub os_user: Option<String>,
    /// The directory in which the artifacts are kept, written with its
    /// final separator.
    pub working_dir: String,
    /// The configured path of the client's macro runner.
    pub ttpmacro_path: String,
}

pub struct DisplayMetaView {
    pub sid: Seq<char>,
    pub hostname: Seq<char>,
    pub memo: Seq<char>,
    pub bg_color: Seq<char>,
}

pub struct LoginRequestView {
    pub ip: Seq<char>,
    pub username: Seq<char>,
    pub password: Seq<char>,
    pub su_username: Option<Seq<char>>,
    pub su_password: Option<Seq<char>>,
    pub is_su: Option<bool>,
    pub is_script: Option<bool>,
    pub oc_url: Option<Seq<char>>,
    pub oc_user: Option<Seq<char>>,
    pub oc_password: Option<Seq<char>>,
    pub is_oc: Option<bool>,
    pub display: Option<DisplayMetaView>,
}

impl View for DisplayMeta {
    type V = DisplayMetaView;

    open spec fn view(&self) -> DisplayMetaView {
        DisplayMetaView {
            sid: self.sid@,
            hostname: self.hostname@,
            memo: self.memo@,
            bg_color: self.bg_color@,
        }
    }
}

impl View for LoginRequest {
    type V = LoginRequestView;

    open spec fn view(&self) -> LoginRequestView {
        LoginRequestView {
            ip: self.ip@,
            username: self.username@,
            password: self.password@,
            su_username: opt_text(self.su_username),
            su_password: opt_text(self.su_password),
            is_su: self.is_su,
            is_script: self.is_script,
            oc_url: opt_text(self.oc_url),
            oc_user: opt_text(self.oc_user),
            oc_password: opt_text(self.oc_password),
            is_oc: self.is_oc,
            display: match self.display {
                Some(display) => Some(display@),
                None => None,
            },
        }
    }
}

/// An optional text; the empty text where it is unset.
pub open spec fn text_or_empty(text: Option<Seq<char>>) -> Seq<char> {
    match text {
        Some(t) => t,
        None => Seq::empty(),
    }
}

/// A flag; the given default where it is unset.
pub open spec fn flag_or(flag: Option<bool>, default: bool) -> bool {
    match flag {
        Some(f) => f,
        None => default,
    }
}

/// The name under which the operator appears; `Unknown` where the system
/// gives none.
pub open spec fn user_label(os_user: Option<Seq<char>>) -> Seq<char> {
    match os_user {
        Some(user) => user,
        None => "Unknown"@,
    }
}

/// The sections of the script of a request.
///
/// - Each of the three passwords is encoded, the login password for a
///   double-quoted field, the other two for a place outside quotes.
/// - The transcript is started unless the request says otherwise; the user
///   is switched and the remote orchestration logged in to only where the
///   request says so; the title is set where the request has display data.
/// - An unset name, address or password of an enabled section is the empty
///   text; its section stays.
pub open spec fn sections_of(
    request: LoginRequestView,
    os_user: Option<Seq<char>>,
    timestamp: Seq<char>,
    settings_path: Option<Seq<char>>,
) -> ScriptSectionsView {
    ScriptSectionsView {
        host: request.ip,
        username: request.username,
        password: encoded_secret(request.password, true),
        settings_path,
        transcript: if flag_or(request.is_script, true) {
            Some(TranscriptView { os_user: user_label(os_user), timestamp })
        } else {
            None
        },
        escalation: if flag_or(request.is_su, false) {
            Some(
                EscalationView {
                    username: text_or_empty(request.su_username),
                    password: encoded_secret(text_or_empty(request.su_password), false),
                },
            )
        } else {
            None
        },
        orchestration: if flag_or(request.is_oc, false) {
            Some(
                OrchestrationView {
                    url: text_or_empty(request.oc_url),
                    user: text_or_empty(request.oc_user),
                    password: encoded_secret(text_or_empty(request.oc_password), false),
                },
            )
        } else {
            None
        },
        title: match request.display {
            Some(display) => Some(
                TitleView { sid: display.sid, hostname: display.hostname, memo: display.memo },
            ),
            None => None,
        },
    }
}

/// The name under which the operator appears.
pub fn get_user(os_user: Option<&str>) -> (label: String)
    ensures
        label@ == user_label(opt_str_text(os_user)),
{
    match os_user {
        Some(user) => user.to_owned(),
        None => "Unknown".to_owned(),
    }
}

fn owned_or_empty(text: &Option<String>) -> (owned: String)
    ensures
        owned@ == text_or_empty(opt_text(*text)),
{
    match text {
        Some(t) => t.clone(),
        None => String::new(),
    }
}

fn encoded_or_empty(secret: &Option<String>) -> (encoded: EncodedSecret)
    ensures
        encoded@ == encoded_secret(text_or_empty(opt_text(*secret)), false),
{
    match secret {
        Some(s) => EncodedSecret::encode(s.as_str(), false),
        None => EncodedSecret::empty(),
    }
}

/// Lays out the sections of the script of a request, with every password
/// encoded.
pub fn plan_sections(
    request: &LoginRequest,
    os_user: Option<&str>,
    timestamp: &str,
    settings_path: Option<&str>,
) -> (sections: ScriptSections)
    ensures
        sections@ == sections_of(
            request@,
            opt_str_text(os_user),
            timestamp@,
            opt_str_text(settings_path),
        ),
{
    let is_su = match request.is_su {
        Some(flag) => flag,
        None => false,
    };
    let is_oc = match request.is_oc {
        Some(flag) => flag,
        None => false,
    };
    let is_script = match request.is_script {
        Some(flag) => flag,
        None => true,
    };
    let transcript = if is_script {
        Some(Transcript { os_user: get_user(os_user), timestamp: timestamp.to_owned() })
    } else {
        None
    };
    let escalation = if is_su {
        Some(
            Escalation {
                username: owned_or_empty(&request.su_username),
                password: encoded_or_empty(&request.su_password),
            },
        )
    } else {
        None
    };
    let orchestration = if is_oc {
        Some(
            Orchestration {
                url: owned_or_empty(&request.oc_url),
                user: owned_or_empty(&request.oc_user),
                password: encoded_or_empty(&request.oc_password),
            },
        )
    } else {
        None
    };
    let title = match &request.display {
        Some(display) => Some(
            Title {
                sid: display.sid.clone(),
                hostname: display.hostname.clone(),
                memo: display.memo.clone(),
            },
        ),
        None => None,
    };
    ScriptSections {
        host: request.ip.clone(),
        username: request.username.clone(),
        password: EncodedSecret::encode(request.password.as_str(), true),
        settings_path: match settings_path {
            Some(path) => Some(path.to_owned()),
            None => None,
        },
        transcript,
        escalation,
        orchestration,
        title,
    }
}

/// The script of a request, composed for the given operator, time and
/// settings path.
pub open spec fn request_script(
    request: LoginRequestView,
    os_user: Option<Seq<char>>,
    timestamp: Seq<char>,
    settings_path: Option<Seq<char>>,
) -> Seq<char> {
    script_text(sections_of(request, os_user, timestamp, settings_path))
}

pub struct EnvironmentView {
    pub os_user: Option<Seq<char>>,
    pub working_dir: Seq<char>,
    pub ttpmacro_path: Seq<char>,
}

impl View for Environment {
    type V = EnvironmentView;

    open spec fn view(&self) -> EnvironmentView {
        EnvironmentView {
            os_user: opt_text(self.os_user),
            working_dir: self.working_dir@,
            ttpmacro_path: self.ttpmacro_path@,
        }
    }
}

/// The path of the settings file of a request: a request with display data
/// has one, named after the operator and kept in the working directory; a
/// request without has none.
pub open spec fn settings_path_for(
    request: LoginRequestView,
    environment: EnvironmentView,
) -> Option<Seq<char>> {
    match request.display {
        Some(_) => Some(path_in(environment.working_dir, settings_name(environment.os_user))),
        None => None,
    }
}

/// The background colour of a request; the empty text where the request
/// has no display data.
pub open spec fn background_of(request: LoginRequestView) -> Seq<char> {
    match request.display {
        Some(display) => display.bg_color,
        None => Seq::empty(),
    }
}

/// The start of a terminal login: the run of the script of the request,
/// with the transcript named after one time and the script artifact after
/// another.
pub open spec fn login_start(
    request: LoginRequestView,
    environment: EnvironmentView,
    transcript_time: Seq<char>,
    artifact_time: Seq<char>,
) -> (MacroRunView, ActionView) {
    macro_start(
        environment.ttpmacro_path,
        request_script(
            request,
            environment.os_user,
            transcript_time,
            settings_path_for(request, environment),
        ),
        settings_path_for(request, environment),
        background_of(request),
        environment.working_dir,
        artifact_time,
    )
}

/// Composes the script of a request for a transcript named after the given
/// time.
pub fn compose_request(request: &LoginRequest, environment: &Environment, transcript_time: &str) -> (script:
    String)
    ensures
        script@ == request_script(
            request@,
            environment@.os_user,
            transcript_time@,
            settings_path_for(request@, environment@),
        ),
{
    let os_user: Option<&str> = match &environment.os_user {
        Some(user) => Some(user.as_str()),
        None => None,
    };
    let sections = match &request.display {
        Some(_) => {
            let file_name = settings_file_name(os_user);
            let ini_path = file_path(environment.working_dir.as_str(), file_name.as_str());
            plan_sections(request, os_user, transcript_time, Some(ini_path.as_str()))
        },
        None => plan_sections(request, os_user, transcript_time, None),
    };
    compose_script(&sections)
}

/// The longest text of a local time to the minute, in bytes: a signed year
/// of six digits, and two digits each for month, day, hour and minute.
pub const MINUTE_TIME_BYTES: usize = 15;

/// The script of the request is short enough for the encoder on this
/// machine at whatever time it is prepared: its length without the time of
/// the transcript leaves room for that time.
pub open spec fn login_fits(request: LoginRequestView, environment: EnvironmentView) -> bool {
    utf8_len(
        request_script(
            request,
            environment.os_user,
            Seq::empty(),
            settings_path_for(request, environment),
        ),
    ) + MINUTE_TIME_BYTES <= ENCODER_LIMIT
}

/// Whether the script of the request is short enough for the encoder on
/// this machine at whatever time it is prepared.
pub fn request_fits(request: &LoginRequest, environment: &Environment) -> (fits: bool)
    ensures
        fits == login_fits(request@, environment@),
{
    let script = compose_request(request, environment, "");
    assert(""@ =~= Seq::<char>::empty()) by {
        reveal_strlit("");
    }
    script.as_str().as_bytes().len() <= ENCODER_LIMIT - MINUTE_TIME_BYTES
}

/// Prepares a terminal login at given times: composes the script of the
/// request and starts its run. The script has to be short enough for the
/// encoder on this machine.
pub fn prepare_login(
    request: &LoginRequest,
    environment: &Environment,
    transcript_time: &str,
    artifact_time: &str,
) -> (start: (MacroRun, Action))
    requires
        fits_encoder(
            request_script(
                request@,
                environment@.os_user,
                transcript_time@,
                settings_path_for(request@, environment@),
            ),
        ),
    ensures
        step_view(start) == login_start(
            request@,
            environment@,
            transcript_time@,
            artifact_time@,
        ),
{
    let script = compose_request(request, environment, transcript_time);
    let working_dir = environment.working_dir.as_str();
    match &request.display {
        Some(display) => {
            let os_user: Option<&str> = match &environment.os_user {
                Some(user) => Some(user.as_str()),
                None => None,
            };
            let file_name = settings_file_name(os_user);
            let ini_path = file_path(working_dir, file_name.as_str());
            prepare_macro(
                environment.ttpmacro_path.as_str(),
                script.as_str(),
                Some(ini_path.as_str()),
                display.bg_color.as_str(),
                working_dir,
                artifact_time,
            )
        },
        None => prepare_macro(
            environment.ttpmacro_path.as_str(),
            script.as_str(),
            None,
            "",
            working_dir,
            artifact_time,
        ),
    }
}

/// Prepares a terminal login now: as [`prepare_login`] does, with the
/// transcript named after the current local time to the minute and the
/// script artifact after the current local time to the millisecond. Which
/// times those are depends on the clock; the contract holds for whatever
/// times were read, and says what form they have. The script has to be
/// short enough for the encoder whatever the time, which [`request_fits`]
/// tells.
///
/// The times are read from the system clock and put into local time by
/// `chrono`, which takes any time that a system clock can read, one before
/// 1970 too, and gives up only on a system whose time-zone rules are
/// broken. [`prepare_login`] does the same for times that the caller has
/// read, and reads nothing itself.
pub fn teraterm(request: &LoginRequest, environment: &Environment) -> (start: (MacroRun, Action))
    requires
        login_fits(request@, environment@),
    ensures
        exists|transcript_time: Seq<char>, artifact_time: Seq<char>|
            #![trigger is_minute_time(transcript_time), is_millisecond_time(artifact_time)]
            is_minute_time(transcript_time) && is_millisecond_time(artifact_time) && step_view(
                start,
            )
                == login_start(request@, environment@, transcript_time, artifact_time),
{
    let transcript_time = transcript_timestamp();
    let artifact_time = artifact_timestamp();
    proof {
        lemma_minute_time_bytes(transcript_time@);
        lemma_time_adds_its_length(
            request@,
            environment@.os_user,
            transcript_time@,
            settings_path_for(request@, environment@),
        );
    }
    let start = prepare_login(
        request,
        environment,
        transcript_time.as_str(),
        artifact_time.as_str(),
    );
    assert(is_minute_time(transcript_time@) && is_millisecond_time(artifact_time@));
    start
}

/// The time of the transcript stands once in a script, or not at all: a
/// script is no longer than the same script without the time and the time
/// together.
pub proof fn lemma_time_adds_its_length(
    request: LoginRequestView,
    os_user: Option<Seq<char>>,
    timestamp: Seq<char>,
    settings_path: Option<Seq<char>>,
)
    ensures
        utf8_len(request_script(request, os_user, timestamp, settings_path)) <= utf8_len(
            request_script(request, os_user, Seq::empty(), settings_path),
        ) + utf8_len(timestamp),
{
    let with_time = sections_of(request, os_user, timestamp, settings_path);
    let without = sections_of(request, os_user, Seq::empty(), settings_path);
    lemma_script_length(with_time);
    lemma_script_length(without);
    if with_time.transcript is Some {
        let head =
            "\n            ; suコマンドの実行\n            wait '$'\n            sendln 'script /tmp/teraterm_`hostname`_"@
            + user_label(os_user) + "_"@;
        let tail = ".log'\n            "@;
        assert(transcript_section(with_time.transcript->0) =~= head + timestamp + tail);
        assert(transcript_section(without.transcript->0) =~= head + tail);
        lemma_utf8_concat(head, timestamp);
        lemma_utf8_concat(head + timestamp, tail);
        lemma_utf8_concat(head, tail);
    }
}

/// The length of a script is the sum of the lengths of its sections.
proof fn lemma_script_length(sections: ScriptSectionsView)
    ensures
        utf8_len(script_text(sections)) == utf8_len(
            connect_section(
                sections.host,
                sections.username,
                sections.password,
                sections.settings_path,
            ),
        ) + utf8_len(
            optional_section(sections.transcript, |t: TranscriptView| transcript_section(t)),
        ) + utf8_len(
            optional_section(sections.escalation, |e: EscalationView| escalation_section(e)),
        ) + utf8_len(
            optional_section(
                sections.orchestration,
                |o: OrchestrationView| orchestration_section(o),
            ),
        ) + utf8_len(optional_section(sections.title, |t: TitleView| title_section(t)))
            + utf8_len(end_section()),
{
    let connect = connect_section(
        sections.host,
        sections.username,
        sections.password,
        sections.settings_path,
    );
    let transcript = optional_section(
        sections.transcript,
        |t: TranscriptView| transcript_section(t),
    );
    let escalation = optional_section(
        sections.escalation,
        |e: EscalationView| escalation_section(e),
    );
    let orchestration = optional_section(
        sections.orchestration,
        |o: OrchestrationView| orchestration_section(o),
    );
    let title = optional_section(sections.title, |t: TitleView| title_section(t));
    lemma_utf8_concat(connect, transcript);
    lemma_utf8_concat(connect + transcript, escalation);
    lemma_utf8_concat(connect + transcript + escalation, orchestration);
    lemma_utf8_concat(connect + transcript + escalation + orchestration, title);
    lemma_utf8_concat(
        connect + transcript + escalation + orchestration + title,
        end_section(),
    );
}

/// A local time to the minute is made of digits and at most one sign, each
/// one byte, and is at most fifteen bytes long.
pub proof fn lemma_minute_time_bytes(text: Seq<char>)
    requires
        is_minute_time(text),
    ensures
        utf8_len(text) == text.len(),
        text.len() <= MINUTE_TIME_BYTES,
{
    let year = text.len() - 8;
    assert forall|i: int| 0 <= i < text.len() implies is_digit(#[trigger] text[i]) || text[i]
        == '+' || text[i] == '-' by {
        if i < year {
            let y = text.take(year);
            assert(y[i] == text[i]);
            if y.len() == 4 {
                assert(is_digit(y[i]));
            } else if i > 0 {
                assert(y.skip(1)[i - 1] == y[i]);
                assert(is_digit(y.skip(1)[i - 1]));
            }
        } else {
            let at = if i < year + 2 {
                year
            } else if i < year + 4 {
                year + 2
            } else if i < year + 6 {
                year + 4
            } else {
                year + 6
            };
            let field = text.subrange(at, at + 2);
            assert(all_digits(field));
            assert(field[i - at] == text[i]);
            assert(is_digit(field[i - at]));
        }
    }
    assert(vstd::utf8::is_ascii_chars(text)) by {
        assert forall|i: int| 0 <= i < text.len() implies '\0' <= #[trigger] text[i]
            <= '\u{7f}' by {
            assert(is_digit(text[i]) || text[i] == '+' || text[i] == '-');
            let code = text[i] as u32;
            vstd::utf8::char_u32_cast(text[i], code);
            assert(code <= 0x7f);
            assert('\0' <= code as char <= '\u{7f}');
        }
    }
    vstd::utf8::is_ascii_chars_encode_utf8(text);
}

/// Determinism: requests that hold the same texts and flags, prepared for
/// the same operator, time and settings path, give the same script and the
/// same bytes for the client.
pub proof fn lemma_same_request_same_script(
    a: LoginRequest,
    b: LoginRequest,
    os_user: Option<Seq<char>>,
    timestamp: Seq<char>,
    settings_path: Option<Seq<char>>,
)
    requires
        a@ == b@,
    ensures
        request_script(a@, os_user, timestamp, settings_path) == request_script(
            b@,
            os_user,
            timestamp,
            settings_path,
        ),
        script_bytes(request_script(a@, os_user, timestamp, settings_path)) == script_bytes(
            request_script(b@, os_user, timestamp, settings_path),
        ),
{
}

/// Determinism of the whole preparation: the same request in the same
/// surroundings at the same times starts the same run with the same first
/// action, the bytes of the script artifact among it.
pub proof fn lemma_same_login_same_start(
    a: LoginRequest,
    b: LoginRequest,
    around_a: Environment,
    around_b: Environment,
    transcript_time: Seq<char>,
    artifact_time: Seq<char>,
)
    requires
        a@ == b@,
        around_a@ == around_b@,
    ensures
        login_start(a@, around_a@, transcript_time, artifact_time) == login_start(
            b@,
            around_b@,
            transcript_time,
            artifact_time,
        ),
{
}

/// No password enters a script as it is: in the sections of any request
/// each of the three passwords is a run of `#` and decimal digits, so that
/// none can close a quoted piece of the script or begin a new line.
pub proof fn lemma_passwords_are_inert(
    request: LoginRequestView,
    os_user: Option<Seq<char>>,
    timestamp: Seq<char>,
    settings_path: Option<Seq<char>>,
)
    ensures
        ({
            let sections = sections_of(request, os_user, timestamp, settings_path);
            &&& is_token_text(sections.password)
            &&& sections.escalation matches Some(e) ==> is_token_text(e.password)
            &&& sections.orchestration matches Some(o) ==> is_token_text(o.password)
        }),
{
    lemma_encoded_secret_is_inert(request.password, true);
    lemma_encoded_secret_is_inert(text_or_empty(request.su_password), false);
    lemma_encoded_secret_is_inert(text_or_empty(request.oc_password), false);
}

/// The sections of a request are those that it enables: the transcript
/// unless it is switched off, the escalation and the orchestration only
/// where they are switched on, the title where display data is given.
pub proof fn lemma_enabled_sections(
    request: LoginRequestView,
    os_user: Option<Seq<char>>,
    timestamp: Seq<char>,
    settings_path: Option<Seq<char>>,
)
    ensures
        ({
            let sections = sections_of(request, os_user, timestamp, settings_path);
            &&& sections.transcript is Some <==> request.is_script != Some(false)
            &&& sections.escalation is Some <==> request.is_su == Some(true)
            &&& sections.orchestration is Some <==> request.is_oc == Some(true)
            &&& sections.title is Some <==> request.display is Some
        }),
{
}

/// The script of every request begins with the connect directive for its
/// host and user, with the encoded login password as the password field and
/// the settings path where there is one, and ends with the end directive as
/// a line of its own.
pub proof fn lemma_request_script_frame(
    request: LoginRequestView,
    os_user: Option<Seq<char>>,
    timestamp: Seq<char>,
    settings_path: Option<Seq<char>>,
)
    ensures
        ({
            let script = request_script(request, os_user, timestamp, settings_path);
            let connect = connect_section(
                request.ip,
                request.username,
                encoded_secret(request.password, true),
                settings_path,
            );
            &&& connect.len() + 5 <= script.len()
            &&& script.take(connect.len() as int) == connect
            &&& script.skip(script.len() - 5) == seq!['\n', 'e', 'n', 'd', '\n']
        }),
{
    lemma_script_frame(sections_of(request, os_user, timestamp, settings_path));
}

/// The script of a request with the transcript and the orchestration off:
/// the connect directive, directly followed by the switch of the user where
/// that is on, then the title where display data is given, then the end
/// directive. With the switch of the user off as well, and no display
/// data, it is the connect directive and the end directive alone.
pub proof fn lemma_script_of_a_short_login(
    request: LoginRequestView,
    os_user: Option<Seq<char>>,
    timestamp: Seq<char>,
    settings_path: Option<Seq<char>>,
)
    requires
        request.is_script == Some(false),
        request.is_oc != Some(true),
    ensures
        ({
            let sections = sections_of(request, os_user, timestamp, settings_path);
            let connect = connect_section(
                request.ip,
                request.username,
                encoded_secret(request.password, true),
                settings_path,
            );
            &&& request_script(request, os_user, timestamp, settings_path) == connect
                + optional_section(sections.escalation, |e: EscalationView| escalation_section(e))
                + optional_section(sections.title, |t: TitleView| title_section(t))
                + end_section()
            &&& request.is_su == Some(true) ==> sections.escalation == Some(
                EscalationView {
                    username: text_or_empty(request.su_username),
                    password: encoded_secret(text_or_empty(request.su_password), false),
                },
            )
            &&& request.is_su != Some(true) && request.display is None ==> request_script(
                request,
                os_user,
                timestamp,
                settings_path,
            ) == connect + end_section()
        }),
{
    let sections = sections_of(request, os_user, timestamp, settings_path);
    lemma_script_without_transcript_and_orchestration(sections);
    if request.is_su != Some(true) && request.display is None {
        lemma_plain_script(sections);
    }
}

/// What a section that is off would hold goes nowhere: with the
/// orchestration off, the script is that of the request without its
/// orchestration address, user and password; with the switch of the user
/// off, that of the request without the account and its password.
pub proof fn lemma_disabled_sections_are_left_out(
    request: LoginRequestView,
    os_user: Option<Seq<char>>,
    timestamp: Seq<char>,
    settings_path: Option<Seq<char>>,
)
    ensures
        request.is_oc != Some(true) ==> request_script(
            request,
            os_user,
            timestamp,
            settings_path,
        ) == request_script(
            LoginRequestView { oc_url: None, oc_user: None, oc_password: None, ..request },
            os_user,
            timestamp,
            settings_path,
        ),
        request.is_su != Some(true) ==> request_script(
            request,
            os_user,
            timestamp,
            settings_path,
        ) == request_script(
            LoginRequestView { su_username: None, su_password: None, ..request },
            os_user,
            timestamp,
            settings_path,
        ),
{
}

/// The lines of the script of a short login: a request with the
/// transcript, the switch of the user and the orchestration off, whose
/// host, user, settings path and display data hold no line feed. The script
/// has the lines that [`short_script_lines`] names. Exactly one of them
/// begins with the word `connect`: the third, which is the connect
/// directive with the encoded password as its password field. Exactly one
/// is the word `end`: the last.
pub proof fn lemma_lines_of_a_short_login(
    request: LoginRequestView,
    os_user: Option<Seq<char>>,
    timestamp: Seq<char>,
    settings_path: Option<Seq<char>>,
)
    requires
        request.is_script == Some(false),
        request.is_su != Some(true),
        request.is_oc != Some(true),
        newline_free(request.ip),
        newline_free(request.username),
        settings_path matches Some(path) ==> newline_free(path),
        request.display matches Some(display) ==> newline_free(display.sid) && newline_free(
            display.hostname,
        ) && newline_free(display.memo),
    ensures
        ({
            let lines = lines_of(request_script(request, os_user, timestamp, settings_path));
            &&& lines == short_script_lines(
                sections_of(request, os_user, timestamp, settings_path),
            )
            &&& lines.len() == if request.display is Some {
                9int
            } else {
                5int
            }
            &&& forall|k: int|
                0 <= k < lines.len() ==> (first_word_is(#[trigger] lines[k], "connect"@) <==> k
                    == 2)
            &&& forall|k: int| 0 <= k < lines.len() ==> (#[trigger] lines[k] == "end"@ <==> k
                == lines.len() - 1)
            &&& lines[2] == connect_line(
                request.ip,
                request.username,
                encoded_secret(request.password, true),
                settings_path,
            )
        }),
{
    let sections = sections_of(request, os_user, timestamp, settings_path);
    lemma_encoded_secret_is_inert(request.password, true);
    assert(newline_free(sections.password)) by {
        assert forall|i: int| 0 <= i < sections.password.len() implies sections.password[i]
            != '\n' by {
            if sections.password[i] == '\n' {
                assert(sections.password.contains('\n'));
            }
        }
    }
    lemma_lines_of_a_short_script(sections);
    lemma_one_connect_line_and_one_end_line(sections);
}

} // verus!

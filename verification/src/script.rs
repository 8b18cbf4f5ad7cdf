//! The script composer: the text of an automation script, assembled from a
//! fixed template and optional sections, with every password in encoded form.

use crate::encoder::EncodedSecret;
use crate::settings::{
    is_plain_line, lemma_lines_of_first, lemma_newline_free_concat, lines_of, newline_free,
    starts_with,
};
use crate::text::opt_text;
use vstd::prelude::*;
use vstd::string::StringExecFns;

verus! {

/// Where the session transcript goes: the log file's name is made of the
/// operator's name and the time the session was prepared.
pub struct Transcript {
    pub os_user: String,
    pub timestamp: String,
}

/// The account to switch to after login. The name is plain text, the
/// password encoded.
pub struct Escalation {
    pub username: String,
    pub password: EncodedSecret,
}

/// The remote orchestration login that follows the shell login.
pub struct Orchestration {
    pub url: String,
    pub user: String,
    pub password: EncodedSecret,
}

/// What the window title shows.
pub struct Title {
    pub sid: String,
    pub hostname: String,
    pub memo: String,
}

/// All that a script is composed of. The three passwords are held encoded;
/// the rest is plain metadata that goes into the script as it is.
pub struct ScriptSections {
    pub host: String,
    pub username: String,
    pub password: EncodedSecret,
    pub settings_path: Option<String>,
    pub transcript: Option<Transcript>,
    pub escalation: Option<Escalation>,
    pub orchestration: Option<Orchestration>,
    pub title: Option<Title>,
}

pub struct TranscriptView {
    pub os_user: Seq<char>,
    pub timestamp: Seq<char>,
}

pub struct EscalationView {
    pub username: Seq<char>,
    pub password: Seq<char>,
}

pub struct OrchestrationView {
    pub url: Seq<char>,
    pub user: Seq<char>,
    pub password: Seq<char>,
}

pub struct TitleView {
    pub sid: Seq<char>,
    pub hostname: Seq<char>,
    pub memo: Seq<char>,
}

pub struct ScriptSectionsView {
    pub host: Seq<char>,
    pub username: Seq<char>,
    pub password: Seq<char>,
    pub settings_path: Option<Seq<char>>,
    pub transcript: Option<TranscriptView>,
    pub escalation: Option<EscalationView>,
    pub orchestration: Option<OrchestrationView>,
    pub title: Option<TitleView>,
}

impl View for Transcript {
    type V = TranscriptView;

    open spec fn view(&self) -> TranscriptView {
        TranscriptView { os_user: self.os_user@, timestamp: self.timestamp@ }
    }
}

impl View for Escalation {
    type V = EscalationView;

    open spec fn view(&self) -> EscalationView {
        EscalationView { username: self.username@, password: self.password@ }
    }
}

impl View for Orchestration {
    type V = OrchestrationView;

    open spec fn view(&self) -> OrchestrationView {
        OrchestrationView { url: self.url@, user: self.user@, password: self.password@ }
    }
}

impl View for Title {
    type V = TitleView;

    open spec fn view(&self) -> TitleView {
        TitleView { sid: self.sid@, hostname: self.hostname@, memo: self.memo@ }
    }
}

impl View for ScriptSections {
    type V = ScriptSectionsView;

    open spec fn view(&self) -> ScriptSectionsView {
        ScriptSectionsView {
            host: self.host@,
            username: self.username@,
            password: self.password@,
            settings_path: opt_text(self.settings_path),
            transcript: match self.transcript {
                Some(t) => Some(t@),
                None => None,
            },
            escalation: match self.escalation {
                Some(e) => Some(e@),
                None => None,
            },
            orchestration: match self.orchestration {
                Some(o) => Some(o@),
                None => None,
            },
            title: match self.title {
                Some(t) => Some(t@),
                None => None,
            },
        }
    }
}

/// The connect directive. The password stands between two quoted pieces as
/// a run of character codes, inside the double quotes of the `/passwd`
/// option; the settings file is named where the session has one.
pub open spec fn connect_section(
    host: Seq<char>,
    username: Seq<char>,
    password: Seq<char>,
    settings_path: Option<Seq<char>>,
) -> Seq<char> {
    "\n        ; 接続実行\n        connect '"@ + host + ":22 /ssh /2 /auth=password /user="@
        + username + " /passwd=\"'"@ + password + "'\""@ + match settings_path {
        Some(path) => " /F="@ + path,
        None => Seq::empty(),
    } + "'\n        "@
}

/// Starts the session transcript on the remote side.
pub open spec fn transcript_section(transcript: TranscriptView) -> Seq<char> {
    "\n            ; suコマンドの実行\n            wait '$'\n            sendln 'script /tmp/teraterm_`hostname`_"@
        + transcript.os_user + "_"@ + transcript.timestamp + ".log'\n            "@
}

/// Switches the user: waits for the prompt, sends the switch-user command
/// with the plain name, waits for the password prompt, sends the encoded
/// password, waits for the prompt, sends a verification command and waits
/// for the prompt again.
pub open spec fn escalation_section(escalation: EscalationView) -> Seq<char> {
    "\n            ; suコマンドの実行\n            wait '$'\n            sendln 'su - "@
        + escalation.username + "'\n            wait 'パスワード'\n            sendln "@
        + escalation.password
        + "\n\n            ; suコマンド成功確認（プロンプトが変わることを想定）\n            wait '#'\n\n            ; 必要な後続処理をここに記述可能\n            sendln 'whoami'\n            wait '#'\n            "@
}

/// Logs in to the remote orchestration service. The quoted command is closed
/// before the encoded password and opened again after it.
pub open spec fn orchestration_section(orchestration: OrchestrationView) -> Seq<char> {
    "\n            ; suコマンドの実行\n            sendln \"oc login "@ + orchestration.url
        + " --username "@ + orchestration.user + " --password '\""@ + orchestration.password
        + "\"'\"\n\n            ; suコマンド成功確認（プロンプトが変わることを想定）\n            wait '#'\n            "@
}

/// Sets the window title.
pub open spec fn title_section(title: TitleView) -> Seq<char> {
    "\n        ; ウィンドウタイトル変更\n        settitle '["@ + title.sid + "] "@ + title.hostname
        + " ("@ + title.memo + ")'\n\n        "@
}

/// The end directive, which closes every script.
pub open spec fn end_section() -> Seq<char> {
    "\nend\n"@
}

/// The text of a section that may be absent.
pub open spec fn optional_section<S>(section: Option<S>, text: spec_fn(S) -> Seq<char>) -> Seq<
    char,
> {
    match section {
        Some(s) => text(s),
        None => Seq::empty(),
    }
}

/// The composed script: connect, then the transcript start, the privilege
/// escalation, the remote orchestration login and the title, each where the
/// session has it, then the end directive.
pub open spec fn script_text(sections: ScriptSectionsView) -> Seq<char> {
    connect_section(
        sections.host,
        sections.username,
        sections.password,
        sections.settings_path,
    ) + optional_section(sections.transcript, |t: TranscriptView| transcript_section(t))
        + optional_section(sections.escalation, |e: EscalationView| escalation_section(e))
        + optional_section(
        sections.orchestration,
        |o: OrchestrationView| orchestration_section(o),
    ) + optional_section(sections.title, |t: TitleView| title_section(t)) + end_section()
}

fn push_connect(
    out: &mut String,
    host: &str,
    username: &str,
    password: &EncodedSecret,
    settings_path: &Option<String>,
)
    ensures
        final(out)@ == old(out)@ + connect_section(
            host@,
            username@,
            password@,
            opt_text(*settings_path),
        ),
{
    out.append("\n        ; 接続実行\n        connect '");
    out.append(host);
    out.append(":22 /ssh /2 /auth=password /user=");
    out.append(username);
    out.append(" /passwd=\"'");
    out.append(password.as_str());
    out.append("'\"");
    match settings_path {
        Some(path) => {
            out.append(" /F=");
            out.append(path.as_str());
        },
        None => {},
    }
    out.append("'\n        ");
    assert(out@ =~= old(out)@ + connect_section(
        host@,
        username@,
        password@,
        opt_text(*settings_path),
    ));
}

fn push_transcript(out: &mut String, transcript: &Transcript)
    ensures
        final(out)@ == old(out)@ + transcript_section(transcript@),
{
    out.append(
        "\n            ; suコマンドの実行\n            wait '$'\n            sendln 'script /tmp/teraterm_`hostname`_",
    );
    out.append(transcript.os_user.as_str());
    out.append("_");
    out.append(transcript.timestamp.as_str());
    out.append(".log'\n            ");
    assert(out@ =~= old(out)@ + transcript_section(transcript@));
}

fn push_escalation(out: &mut String, escalation: &Escalation)
    ensures
        final(out)@ == old(out)@ + escalation_section(escalation@),
{
    out.append("\n            ; suコマンドの実行\n            wait '$'\n            sendln 'su - ");
    out.append(escalation.username.as_str());
    out.append("'\n            wait 'パスワード'\n            sendln ");
    out.append(escalation.password.as_str());
    out.append(
        "\n\n            ; suコマンド成功確認（プロンプトが変わることを想定）\n            wait '#'\n\n            ; 必要な後続処理をここに記述可能\n            sendln 'whoami'\n            wait '#'\n            ",
    );
    assert(out@ =~= old(out)@ + escalation_section(escalation@));
}

fn push_orchestration(out: &mut String, orchestration: &Orchestration)
    ensures
        final(out)@ == old(out)@ + orchestration_section(orchestration@),
{
    out.append("\n            ; suコマンドの実行\n            sendln \"oc login ");
    out.append(orchestration.url.as_str());
    out.append(" --username ");
    out.append(orchestration.user.as_str());
    out.append(" --password '\"");
    out.append(orchestration.password.as_str());
    out.append(
        "\"'\"\n\n            ; suコマンド成功確認（プロンプトが変わることを想定）\n            wait '#'\n            ",
    );
    assert(out@ =~= old(out)@ + orchestration_section(orchestration@));
}

fn push_title(out: &mut String, title: &Title)
    ensures
        final(out)@ == old(out)@ + title_section(title@),
{
    out.append("\n        ; ウィンドウタイトル変更\n        settitle '[");
    out.append(title.sid.as_str());
    out.append("] ");
    out.append(title.hostname.as_str());
    out.append(" (");
    out.append(title.memo.as_str());
    out.append(")'\n\n        ");
    assert(out@ =~= old(out)@ + title_section(title@));
}

/// Composes the script of a session. This is plain text assembly: it cannot
/// fail, and the same sections always give the same text.
pub fn compose_script(sections: &ScriptSections) -> (script: String)
    ensures
        script@ == script_text(sections@),
{
    let mut out = String::new();
    push_connect(
        &mut out,
        sections.host.as_str(),
        sections.username.as_str(),
        &sections.password,
        &sections.settings_path,
    );
    match &sections.transcript {
        Some(transcript) => push_transcript(&mut out, transcript),
        None => {},
    }
    match &sections.escalation {
        Some(escalation) => push_escalation(&mut out, escalation),
        None => {},
    }
    match &sections.orchestration {
        Some(orchestration) => push_orchestration(&mut out, orchestration),
        None => {},
    }
    match &sections.title {
        Some(title) => push_title(&mut out, title),
        None => {},
    }
    out.append("\nend\n");
    assert(out@ =~= script_text(sections@));
    out
}

/// Determinism: sections that hold the same texts give the same script,
/// character for character.
pub proof fn lemma_same_sections_same_script(a: ScriptSections, b: ScriptSections)
    requires
        a@ == b@,
    ensures
        script_text(a@) == script_text(b@),
{
}

/// Every script begins with the connect directive and ends with the end
/// directive, which is a line of its own: `end` between two line feeds.
pub proof fn lemma_script_frame(sections: ScriptSectionsView)
    ensures
        ({
            let script = script_text(sections);
            let connect = connect_section(
                sections.host,
                sections.username,
                sections.password,
                sections.settings_path,
            );
            &&& connect.len() + 5 <= script.len()
            &&& script.take(connect.len() as int) == connect
            &&& script.skip(script.len() - 5) == seq!['\n', 'e', 'n', 'd', '\n']
        }),
{
    reveal_strlit("\nend\n");
    let script = script_text(sections);
    let connect = connect_section(
        sections.host,
        sections.username,
        sections.password,
        sections.settings_path,
    );
    assert(end_section() =~= seq!['\n', 'e', 'n', 'd', '\n']);
    assert(script.take(connect.len() as int) =~= connect);
    assert(script.skip(script.len() - 5) =~= end_section());
}

/// A session without optional sections has a script of the connect
/// directive and the end directive alone.
pub proof fn lemma_plain_script(sections: ScriptSectionsView)
    requires
        sections.transcript is None,
        sections.escalation is None,
        sections.orchestration is None,
        sections.title is None,
    ensures
        script_text(sections) == connect_section(
            sections.host,
            sections.username,
            sections.password,
            sections.settings_path,
        ) + end_section(),
{
    assert(script_text(sections) =~= connect_section(
        sections.host,
        sections.username,
        sections.password,
        sections.settings_path,
    ) + end_section());
}

/// A session without transcript and without orchestration has a script in
/// which the switch of the user, where there is one, follows the connect
/// directive directly; then come the title, where there is one, and the end
/// directive.
pub proof fn lemma_script_without_transcript_and_orchestration(sections: ScriptSectionsView)
    requires
        sections.transcript is None,
        sections.orchestration is None,
    ensures
        script_text(sections) == connect_section(
            sections.host,
            sections.username,
            sections.password,
            sections.settings_path,
        ) + optional_section(sections.escalation, |e: EscalationView| escalation_section(e))
            + optional_section(sections.title, |t: TitleView| title_section(t)) + end_section(),
{
    assert(script_text(sections) =~= connect_section(
        sections.host,
        sections.username,
        sections.password,
        sections.settings_path,
    ) + optional_section(sections.escalation, |e: EscalationView| escalation_section(e))
        + optional_section(sections.title, |t: TitleView| title_section(t)) + end_section());
}

/// The switch of the user begins with the wait for the prompt and the
/// switch-user command with the plain name of the account.
pub proof fn lemma_escalation_begins_with_the_switch(escalation: EscalationView)
    ensures
        ({
            let head =
                "\n            ; suコマンドの実行\n            wait '$'\n            sendln 'su - "@
                + escalation.username + "'\n"@;
            head.len() <= escalation_section(escalation).len() && escalation_section(
                escalation,
            ).take(head.len() as int) == head
        }),
{
    reveal_strlit("'\n");
    reveal_strlit("'\n            wait 'パスワード'\n            sendln ");
    let first =
        "\n            ; suコマンドの実行\n            wait '$'\n            sendln 'su - "@
        + escalation.username;
    let head = first + "'\n"@;
    let middle = "'\n            wait 'パスワード'\n            sendln "@;
    assert(middle.take(2) =~= "'\n"@);
    assert(escalation_section(escalation).take(head.len() as int) =~= head);
}

/// The line of the connect directive.
pub open spec fn connect_line(
    host: Seq<char>,
    username: Seq<char>,
    password: Seq<char>,
    settings_path: Option<Seq<char>>,
) -> Seq<char> {
    "        connect '"@ + host + ":22 /ssh /2 /auth=password /user="@ + username
        + " /passwd=\"'"@ + password + "'\""@ + match settings_path {
        Some(path) => " /F="@ + path,
        None => Seq::empty(),
    } + "'"@
}

/// The line of the title directive.
pub open spec fn title_line(title: TitleView) -> Seq<char> {
    "        settitle '["@ + title.sid + "] "@ + title.hostname + " ("@ + title.memo + ")'"@
}

/// The lines of the title section, where there is one.
pub open spec fn title_lines(title: Option<TitleView>) -> Seq<Seq<char>> {
    match title {
        Some(t) => seq![
            "        ; ウィンドウタイトル変更"@,
            title_line(t),
            Seq::empty(),
            "        "@,
        ],
        None => Seq::empty(),
    }
}

/// The lines of the script of a session that neither keeps a transcript
/// nor switches the user nor logs in to the orchestration: an empty line, a
/// comment, the connect directive, a blank line, the lines of the title
/// where there is one, and the end directive.
pub open spec fn short_script_lines(sections: ScriptSectionsView) -> Seq<Seq<char>> {
    seq![
        Seq::empty(),
        "        ; 接続実行"@,
        connect_line(
            sections.host,
            sections.username,
            sections.password,
            sections.settings_path,
        ),
        "        "@,
    ] + title_lines(sections.title) + seq!["end"@]
}

/// The texts that a short session puts into its script hold no line feed.
pub open spec fn holds_no_line_feed(sections: ScriptSectionsView) -> bool {
    &&& newline_free(sections.host)
    &&& newline_free(sections.username)
    &&& newline_free(sections.password)
    &&& sections.settings_path matches Some(path) ==> newline_free(path)
    &&& sections.title matches Some(title) ==> newline_free(title.sid) && newline_free(
        title.hostname,
    ) && newline_free(title.memo)
}

/// A line without its leading blanks.
pub open spec fn without_leading_blanks(line: Seq<char>) -> Seq<char>
    decreases line.len(),
{
    if line.len() > 0 && line[0] == ' ' {
        without_leading_blanks(line.drop_first())
    } else {
        line
    }
}

/// The first word of the line, after its leading blanks, is the given one.
pub open spec fn first_word_is(line: Seq<char>, word: Seq<char>) -> bool {
    let words = without_leading_blanks(line);
    starts_with(words, word) && (words.len() == word.len() || words[word.len() as int] == ' ')
}

proof fn lemma_connect_line_is_plain(
    host: Seq<char>,
    username: Seq<char>,
    password: Seq<char>,
    settings_path: Option<Seq<char>>,
)
    requires
        newline_free(host),
        newline_free(username),
        newline_free(password),
        settings_path matches Some(path) ==> newline_free(path),
    ensures
        is_plain_line(connect_line(host, username, password, settings_path)),
{
    reveal_strlit("        connect '");
    reveal_strlit(":22 /ssh /2 /auth=password /user=");
    reveal_strlit(" /passwd=\"'");
    reveal_strlit("'\"");
    reveal_strlit(" /F=");
    reveal_strlit("'");
    let a = "        connect '"@ + host;
    lemma_newline_free_concat("        connect '"@, host);
    let b = a + ":22 /ssh /2 /auth=password /user="@;
    lemma_newline_free_concat(a, ":22 /ssh /2 /auth=password /user="@);
    let c = b + username;
    lemma_newline_free_concat(b, username);
    let d = c + " /passwd=\"'"@;
    lemma_newline_free_concat(c, " /passwd=\"'"@);
    let e = d + password;
    lemma_newline_free_concat(d, password);
    let f = e + "'\""@;
    lemma_newline_free_concat(e, "'\""@);
    let tail = match settings_path {
        Some(path) => " /F="@ + path,
        None => Seq::empty(),
    };
    match settings_path {
        Some(path) => lemma_newline_free_concat(" /F="@, path),
        None => {},
    }
    let g = f + tail;
    lemma_newline_free_concat(f, tail);
    lemma_newline_free_concat(g, "'"@);
    assert(connect_line(host, username, password, settings_path) == g + "'"@);
    assert((g + "'"@).last() == '\'');
}

proof fn lemma_title_line_is_plain(title: TitleView)
    requires
        newline_free(title.sid),
        newline_free(title.hostname),
        newline_free(title.memo),
    ensures
        is_plain_line(title_line(title)),
{
    reveal_strlit("        settitle '[");
    reveal_strlit("] ");
    reveal_strlit(" (");
    reveal_strlit(")'");
    let a = "        settitle '["@ + title.sid;
    lemma_newline_free_concat("        settitle '["@, title.sid);
    let b = a + "] "@;
    lemma_newline_free_concat(a, "] "@);
    let c = b + title.hostname;
    lemma_newline_free_concat(b, title.hostname);
    let d = c + " ("@;
    lemma_newline_free_concat(c, " ("@);
    let e = d + title.memo;
    lemma_newline_free_concat(d, title.memo);
    lemma_newline_free_concat(e, ")'"@);
    assert((e + ")'"@).last() == '\'');
}

/// The connect section, line by line.
proof fn lemma_connect_section_by_lines(
    host: Seq<char>,
    username: Seq<char>,
    password: Seq<char>,
    settings_path: Option<Seq<char>>,
)
    ensures
        connect_section(host, username, password, settings_path) == seq!['\n']
            + "        ; 接続実行"@ + seq!['\n'] + connect_line(
            host,
            username,
            password,
            settings_path,
        ) + seq!['\n'] + "        "@,
{
    reveal_strlit("\n        ; 接続実行\n        connect '");
    reveal_strlit("        ; 接続実行");
    reveal_strlit("        connect '");
    reveal_strlit("'\n        ");
    reveal_strlit("'");
    reveal_strlit("        ");
    let nl = seq!['\n'];
    assert("\n        ; 接続実行\n        connect '"@ =~= nl + "        ; 接続実行"@ + nl
        + "        connect '"@);
    assert("'\n        "@ =~= "'"@ + nl + "        "@);
    assert(connect_section(host, username, password, settings_path) =~= nl
        + "        ; 接続実行"@ + nl + connect_line(host, username, password, settings_path) + nl
        + "        "@);
}

/// The title section, line by line.
proof fn lemma_title_section_by_lines(title: TitleView)
    ensures
        title_section(title) == seq!['\n'] + "        ; ウィンドウタイトル変更"@ + seq!['\n']
            + title_line(title) + seq!['\n'] + seq!['\n'] + "        "@,
{
    reveal_strlit("\n        ; ウィンドウタイトル変更\n        settitle '[");
    reveal_strlit("        ; ウィンドウタイトル変更");
    reveal_strlit("        settitle '[");
    reveal_strlit(")'\n\n        ");
    reveal_strlit(")'");
    reveal_strlit("        ");
    let nl = seq!['\n'];
    assert("\n        ; ウィンドウタイトル変更\n        settitle '["@ =~= nl
        + "        ; ウィンドウタイトル変更"@ + nl + "        settitle '["@);
    assert(")'\n\n        "@ =~= ")'"@ + nl + nl + "        "@);
    assert(title_section(title) =~= nl + "        ; ウィンドウタイトル変更"@ + nl + title_line(
        title,
    ) + nl + nl + "        "@);
}

/// The end section, line by line.
proof fn lemma_end_section_by_lines()
    ensures
        end_section() == seq!['\n'] + "end"@ + seq!['\n'],
{
    reveal_strlit("\nend\n");
    reveal_strlit("end");
    assert("\nend\n"@ =~= seq!['\n'] + "end"@ + seq!['\n']);
}

/// The fixed lines of a script are plain lines.
proof fn lemma_fixed_lines_are_plain()
    ensures
        is_plain_line(Seq::<char>::empty()),
        is_plain_line("        ; 接続実行"@),
        is_plain_line("        "@),
        is_plain_line("        ; ウィンドウタイトル変更"@),
        is_plain_line("end"@),
{
    reveal_strlit("        ; 接続実行");
    reveal_strlit("        ");
    reveal_strlit("        ; ウィンドウタイトル変更");
    reveal_strlit("end");
}

/// What follows the blank line after the connect directive in a short
/// script: the title section, where there is one, without the line feed
/// that it begins with, and the end section likewise.
pub open spec fn short_script_end(title: Option<TitleView>) -> Seq<char> {
    let title_part = match title {
        Some(t) => "        ; ウィンドウタイトル変更"@ + seq!['\n'] + title_line(t) + seq!['\n']
            + seq!['\n'] + "        "@ + seq!['\n'],
        None => Seq::empty(),
    };
    title_part + "end"@ + seq!['\n']
}

/// A short script, line by line.
proof fn lemma_short_script_by_lines(sections: ScriptSectionsView)
    requires
        sections.transcript is None,
        sections.escalation is None,
        sections.orchestration is None,
    ensures
        script_text(sections) == Seq::<char>::empty() + seq!['\n'] + ("        ; 接続実行"@
            + seq!['\n'] + (connect_line(
            sections.host,
            sections.username,
            sections.password,
            sections.settings_path,
        ) + seq!['\n'] + ("        "@ + seq!['\n'] + short_script_end(sections.title)))),
{
    let nl = seq!['\n'];
    let connect = connect_line(
        sections.host,
        sections.username,
        sections.password,
        sections.settings_path,
    );
    let head = nl + "        ; 接続実行"@ + nl + connect + nl + "        "@;
    lemma_script_without_transcript_and_orchestration(sections);
    lemma_connect_section_by_lines(
        sections.host,
        sections.username,
        sections.password,
        sections.settings_path,
    );
    lemma_end_section_by_lines();
    let end = nl + "end"@ + nl;
    match sections.title {
        Some(t) => {
            lemma_title_section_by_lines(t);
            let title = nl + "        ; ウィンドウタイトル変更"@ + nl + title_line(t) + nl + nl
                + "        "@;
            assert(script_text(sections) == head + title + end);
            assert(title + end =~= nl + short_script_end(sections.title));
            assert(head + title + end =~= head + (title + end));
            assert(head + (nl + short_script_end(sections.title)) =~= Seq::<char>::empty() + nl
                + ("        ; 接続実行"@ + nl + (connect + nl + ("        "@ + nl
                + short_script_end(sections.title)))));
        },
        None => {
            assert(script_text(sections) == head + Seq::<char>::empty() + end);
            assert(end =~= nl + short_script_end(sections.title));
            assert(head + Seq::<char>::empty() + end =~= head + end);
            assert(head + (nl + short_script_end(sections.title)) =~= Seq::<char>::empty() + nl
                + ("        ; 接続実行"@ + nl + (connect + nl + ("        "@ + nl
                + short_script_end(sections.title)))));
        },
    }
}

/// The lines of the end of a short script.
proof fn lemma_lines_of_the_end(title: Option<TitleView>)
    requires
        title matches Some(t) ==> newline_free(t.sid) && newline_free(t.hostname)
            && newline_free(t.memo),
    ensures
        lines_of(short_script_end(title)) == title_lines(title) + seq!["end"@],
{
    let nl = seq!['\n'];
    let empty = Seq::<char>::empty();
    let blank = "        "@;
    let end = "end"@;
    lemma_fixed_lines_are_plain();
    assert(lines_of(empty) =~= Seq::<Seq<char>>::empty());
    lemma_lines_of_first(end, empty);
    let after_end = end + nl + empty;
    match title {
        None => {
            assert(short_script_end(title) =~= after_end);
            assert(lines_of(after_end) =~= title_lines(title) + seq![end]);
        },
        Some(t) => {
            let title_comment = "        ; ウィンドウタイトル変更"@;
            let line = title_line(t);
            lemma_title_line_is_plain(t);
            lemma_lines_of_first(blank, after_end);
            let t3 = blank + nl + after_end;
            lemma_lines_of_first(empty, t3);
            let t2 = empty + nl + t3;
            lemma_lines_of_first(line, t2);
            let t1 = line + nl + t2;
            lemma_lines_of_first(title_comment, t1);
            let t0 = title_comment + nl + t1;
            assert(short_script_end(title) =~= t0);
            assert(lines_of(t0) =~= title_lines(title) + seq![end]);
        },
    }
}

/// The lines of a short script are those that [`short_script_lines`] names,
/// where the texts put into it hold no line feed.
pub proof fn lemma_lines_of_a_short_script(sections: ScriptSectionsView)
    requires
        sections.transcript is None,
        sections.escalation is None,
        sections.orchestration is None,
        holds_no_line_feed(sections),
    ensures
        lines_of(script_text(sections)) == short_script_lines(sections),
{
    let nl = seq!['\n'];
    let empty = Seq::<char>::empty();
    let comment = "        ; 接続実行"@;
    let connect = connect_line(
        sections.host,
        sections.username,
        sections.password,
        sections.settings_path,
    );
    let blank = "        "@;
    let tail = short_script_end(sections.title);
    lemma_fixed_lines_are_plain();
    lemma_connect_line_is_plain(
        sections.host,
        sections.username,
        sections.password,
        sections.settings_path,
    );
    lemma_lines_of_the_end(sections.title);
    lemma_lines_of_first(blank, tail);
    let t3 = blank + nl + tail;
    lemma_lines_of_first(connect, t3);
    let t2 = connect + nl + t3;
    lemma_lines_of_first(comment, t2);
    let t1 = comment + nl + t2;
    lemma_lines_of_first(empty, t1);
    let t0 = empty + nl + t1;
    lemma_short_script_by_lines(sections);
    assert(script_text(sections) == t0);
    assert(lines_of(t0) =~= short_script_lines(sections));
}

/// Blanks in front of a text that does not begin with a blank are its
/// leading blanks.
proof fn lemma_leading_blanks(blanks: Seq<char>, rest: Seq<char>)
    requires
        forall|i: int| 0 <= i < blanks.len() ==> blanks[i] == ' ',
        rest.len() == 0 || rest[0] != ' ',
    ensures
        without_leading_blanks(blanks + rest) == rest,
    decreases blanks.len(),
{
    if blanks.len() == 0 {
        assert(blanks + rest =~= rest);
    } else {
        assert((blanks + rest)[0] == blanks[0]);
        assert((blanks + rest).drop_first() =~= blanks.drop_first() + rest);
        assert forall|i: int| 0 <= i < blanks.drop_first().len() implies blanks.drop_first()[i]
            == ' ' by {
            assert(blanks.drop_first()[i] == blanks[i + 1]);
        }
        lemma_leading_blanks(blanks.drop_first(), rest);
    }
}

/// The first word of the line of the connect directive is `connect`.
proof fn lemma_first_word_of_the_connect_line(
    host: Seq<char>,
    username: Seq<char>,
    password: Seq<char>,
    settings_path: Option<Seq<char>>,
)
    ensures
        first_word_is(connect_line(host, username, password, settings_path), "connect"@),
{
    reveal_strlit("        connect '");
    reveal_strlit("        ");
    reveal_strlit("connect '");
    reveal_strlit("connect");
    let line = connect_line(host, username, password, settings_path);
    let blanks = "        "@;
    let rest = line.skip(8);
    assert("        connect '"@ =~= blanks + "connect '"@);
    assert(line =~= blanks + rest);
    assert(rest.take(9) =~= "connect '"@);
    assert(rest[0] == 'c');
    lemma_leading_blanks(blanks, rest);
    assert(rest.take(7) =~= "connect"@);
    assert(rest[7] == ' ');
}

/// No other line of a short script begins with the word `connect`, and
/// none but the last is the word `end`.
proof fn lemma_other_lines(title: TitleView)
    ensures
        !first_word_is(Seq::<char>::empty(), "connect"@),
        !first_word_is("        ; 接続実行"@, "connect"@),
        !first_word_is("        "@, "connect"@),
        !first_word_is("        ; ウィンドウタイトル変更"@, "connect"@),
        !first_word_is(title_line(title), "connect"@),
        !first_word_is("end"@, "connect"@),
        Seq::<char>::empty() != "end"@,
        "        ; 接続実行"@ != "end"@,
        "        "@ != "end"@,
        "        ; ウィンドウタイトル変更"@ != "end"@,
        title_line(title) != "end"@,
{
    reveal_strlit("        ; 接続実行");
    reveal_strlit("        ");
    reveal_strlit("        ; ウィンドウタイトル変更");
    reveal_strlit("        settitle '[");
    reveal_strlit("; 接続実行");
    reveal_strlit("; ウィンドウタイトル変更");
    reveal_strlit("end");
    reveal_strlit("connect");
    let blanks = "        "@;
    let empty = Seq::<char>::empty();
    let word = "connect"@;
    assert(without_leading_blanks(empty) == empty);
    assert(blanks + empty =~= blanks);
    lemma_leading_blanks(blanks, empty);
    assert(without_leading_blanks("end"@) == "end"@);
    assert(!first_word_is("end"@, word));
    assert("        ; 接続実行"@ =~= blanks + "; 接続実行"@);
    lemma_leading_blanks(blanks, "; 接続実行"@);
    assert(!first_word_is("        ; 接続実行"@, word)) by {
        let words = "; 接続実行"@;
        if starts_with(words, word) {
            assert(words.take(7)[0] == word[0]);
        }
    }
    assert("        ; ウィンドウタイトル変更"@ =~= blanks + "; ウィンドウタイトル変更"@);
    lemma_leading_blanks(blanks, "; ウィンドウタイトル変更"@);
    assert(!first_word_is("        ; ウィンドウタイトル変更"@, word)) by {
        let words = "; ウィンドウタイトル変更"@;
        if starts_with(words, word) {
            assert(words.take(7)[0] == word[0]);
        }
    }
    let line = title_line(title);
    let rest = line.skip(8);
    assert(line =~= blanks + rest);
    assert(rest[0] == 's');
    lemma_leading_blanks(blanks, rest);
    assert(!first_word_is(line, word)) by {
        if starts_with(rest, word) {
            assert(rest.take(7)[0] == word[0]);
        }
    }
    assert(line.len() >= 19);
}

/// In a short script exactly one line begins with the word `connect`, the
/// third, and exactly one line is the word `end`, the last.
pub proof fn lemma_one_connect_line_and_one_end_line(sections: ScriptSectionsView)
    ensures
        ({
            let lines = short_script_lines(sections);
            &&& lines.len() == if sections.title is Some {
                9int
            } else {
                5int
            }
            &&& forall|k: int|
                0 <= k < lines.len() ==> (first_word_is(#[trigger] lines[k], "connect"@) <==> k
                    == 2)
            &&& forall|k: int| 0 <= k < lines.len() ==> (#[trigger] lines[k] == "end"@ <==> k
                == lines.len() - 1)
            &&& lines[2] == connect_line(
                sections.host,
                sections.username,
                sections.password,
                sections.settings_path,
            )
        }),
{
    let lines = short_script_lines(sections);
    let connect = connect_line(
        sections.host,
        sections.username,
        sections.password,
        sections.settings_path,
    );
    lemma_first_word_of_the_connect_line(
        sections.host,
        sections.username,
        sections.password,
        sections.settings_path,
    );
    let title = match sections.title {
        Some(t) => t,
        None => TitleView { sid: Seq::empty(), hostname: Seq::empty(), memo: Seq::empty() },
    };
    lemma_other_lines(title);
    reveal_strlit("end");
    reveal_strlit("        connect '");
    assert(connect.len() >= 17);
    assert(connect != "end"@);
    assert(!first_word_is("end"@, "connect"@));
    match sections.title {
        Some(t) => {
            assert(lines =~= seq![
                Seq::empty(),
                "        ; 接続実行"@,
                connect,
                "        "@,
                "        ; ウィンドウタイトル変更"@,
                title_line(t),
                Seq::empty(),
                "        "@,
                "end"@,
            ]);
        },
        None => {
            assert(lines =~= seq![
                Seq::empty(),
                "        ; 接続実行"@,
                connect,
                "        "@,
                "end"@,
            ]);
        },
    }
}

} // verus!

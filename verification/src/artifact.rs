//! The artifact writer's computations: the bytes of a script in the
//! encoding of the client, and the names under which the artifacts are kept.

use crate::outcome::{RunResult, RunResultView};
use crate::text::{all_digits, decimal_value, opt_str_text, utf8_len};
use vstd::prelude::*;
use vstd::string::{StringExecFns, StringSliceAdditionalSpecFns};

verus! {

/// A file that holds a secret for the time of one run: it is written just
/// before the client is launched and removed after the client has ended.
#[derive(Debug, PartialEq, Eq)]
pub struct Artifact {
    pub path: String,
    /// The bytes of the file, in the encoding that its reader expects.
    pub content: Vec<u8>,
}

pub struct ArtifactView {
    pub path: Seq<char>,
    pub content: Seq<u8>,
}

impl View for Artifact {
    type V = ArtifactView;

    open spec fn view(&self) -> ArtifactView {
        ArtifactView { path: self.path@, content: self.content@ }
    }
}

/// The longest script, in bytes of UTF-8, that the encoder is handed on
/// this machine. The encoder keeps its output in a buffer whose size it
/// computes from the input's length, rounded up to a power of two, and
/// enlarges the buffer where substituted characters fill it. Within a
/// thirty-second of the address space none of these sizes passes the
/// largest buffer that can be had.
pub const ENCODER_LIMIT: usize = usize::MAX / 32;

/// The script is short enough for the encoder on this machine.
pub open spec fn fits_encoder(script: Seq<char>) -> bool {
    utf8_len(script) <= ENCODER_LIMIT
}

/// Whether the script is short enough for the encoder on this machine.
pub fn script_fits(script: &str) -> (fits: bool)
    ensures
        fits == fits_encoder(script@),
{
    script.as_bytes().len() <= ENCODER_LIMIT
}

/// What `encoding_rs` makes of a text when it encodes it as Shift_JIS: the
/// bytes, and whether the text held a character that Shift_JIS lacks.
pub uninterp spec fn shift_jis_encoding(text: Seq<char>) -> (Seq<u8>, bool);

/// Calls `encoding_rs::Encoding::encode` on `encoding_rs::SHIFT_JIS`. The
/// contract names the result and claims nothing more of it. The encoder
/// panics where a buffer size that it computes is beyond what the machine
/// can hold; the length bound leaves those inputs out.
#[verifier::external_body]
fn shift_jis_encode(text: &str) -> (encoded: (Vec<u8>, bool))
    requires
        fits_encoder(text@),
    ensures
        (encoded.0@, encoded.1) == shift_jis_encoding(text@),
{
    let (bytes, _, had_errors) = encoding_rs::SHIFT_JIS.encode(text);
    (bytes.into_owned(), had_errors)
}

/// What becomes of an encoder's output: the bytes where every character had
/// a place in the encoding, an encoding error otherwise. Bytes with
/// substituted characters are never passed on.
pub open spec fn checked_encoding(encoded: Seq<u8>, had_errors: bool) -> Result<
    Seq<u8>,
    RunResultView,
> {
    if had_errors {
        Err(RunResultView::EncodingError)
    } else {
        Ok(encoded)
    }
}

/// The view of an encoding result.
pub open spec fn encoding_view(result: Result<Vec<u8>, RunResult>) -> Result<
    Seq<u8>,
    RunResultView,
> {
    match result {
        Ok(bytes) => Ok(bytes@),
        Err(e) => Err(e@),
    }
}

/// Decides on an encoder's output.
pub fn check_encoded(encoded: Vec<u8>, had_errors: bool) -> (result: Result<Vec<u8>, RunResult>)
    ensures
        encoding_view(result) == checked_encoding(encoded@, had_errors),
{
    if had_errors {
        Err(RunResult::EncodingError)
    } else {
        Ok(encoded)
    }
}

/// The bytes of a script in Shift_JIS, or an encoding error where the script
/// holds a character that Shift_JIS lacks.
pub open spec fn script_bytes(script: Seq<char>) -> Result<Seq<u8>, RunResultView> {
    checked_encoding(shift_jis_encoding(script).0, shift_jis_encoding(script).1)
}

/// Encodes a script for the client. The script has to be short enough for
/// the encoder on this machine, which [`script_fits`] tells.
pub fn encode_script(script: &str) -> (result: Result<Vec<u8>, RunResult>)
    requires
        fits_encoder(script@),
    ensures
        encoding_view(result) == script_bytes(script@),
{
    let (encoded, had_errors) = shift_jis_encode(script);
    check_encoded(encoded, had_errors)
}

/// The text of a year in a formatted time: four digits, or a sign and four
/// to six digits for a year before 0 or after 9999.
pub open spec fn is_year_text(text: Seq<char>) -> bool {
    ||| text.len() == 4 && all_digits(text)
    ||| 5 <= text.len() <= 7 && (text[0] == '+' || text[0] == '-') && all_digits(
        text.skip(1),
    )
}

/// A field of a formatted time: `width` decimal digits from `at` on, whose
/// value lies between `low` and `high`.
pub open spec fn is_time_field(text: Seq<char>, at: int, width: int, low: nat, high: nat) -> bool {
    &&& 0 <= at && at + width <= text.len()
    &&& all_digits(text.subrange(at, at + width))
    &&& low <= decimal_value(text.subrange(at, at + width)) <= high
}

/// A local time to the minute: the year, then month, day, hour and minute
/// in two digits each, with nothing between them.
pub open spec fn is_minute_time(text: Seq<char>) -> bool {
    let year = text.len() - 8;
    &&& year >= 4
    &&& is_year_text(text.take(year))
    &&& is_time_field(text, year, 2, 1, 12)
    &&& is_time_field(text, year + 2, 2, 1, 31)
    &&& is_time_field(text, year + 4, 2, 0, 23)
    &&& is_time_field(text, year + 6, 2, 0, 59)
}

/// A local time to the millisecond, in the form `2024-01-02_15-04-05.678`:
/// the year, then month, day, hour, minute and second in two digits each
/// and the milliseconds in three, with their separators; the second is 60
/// within a leap second.
pub open spec fn is_millisecond_time(text: Seq<char>) -> bool {
    let year = text.len() - 19;
    &&& year >= 4
    &&& is_year_text(text.take(year))
    &&& text[year] == '-'
    &&& is_time_field(text, year + 1, 2, 1, 12)
    &&& text[year + 3] == '-'
    &&& is_time_field(text, year + 4, 2, 1, 31)
    &&& text[year + 6] == '_'
    &&& is_time_field(text, year + 7, 2, 0, 23)
    &&& text[year + 9] == '-'
    &&& is_time_field(text, year + 10, 2, 0, 59)
    &&& text[year + 12] == '-'
    &&& is_time_field(text, year + 13, 2, 0, 60)
    &&& text[year + 15] == '.'
    &&& is_time_field(text, year + 16, 3, 0, 999)
}

/// The pattern of the time in a transcript's name: to the minute.
pub open spec fn minute_pattern() -> Seq<char> {
    "%Y%m%d%H%M"@
}

/// The pattern of the time in an artifact's name: to the millisecond.
pub open spec fn millisecond_pattern() -> Seq<char> {
    "%Y-%m-%d_%H-%M-%S.%3f"@
}

/// Formats the current local time: `std::time::SystemTime::now`, made a
/// `chrono::DateTime<Local>` by `From`, then `DateTime::format` with the
/// pattern.
///
/// Which time comes back depends on the clock; the contract claims the form
/// that `chrono` gives to every time under each of the two patterns: `%Y` is
/// the year in four digits, with a sign in front where it is below 0 or
/// above 9999, and `chrono` has no year of more than six digits; `%m`, `%d`,
/// `%H`, `%M` and `%S` are two digits each, within the ranges of month, day,
/// hour, minute and second; `%3f` is the milliseconds in three digits; all
/// else in a pattern stands for itself.
///
/// The clock is read through `SystemTime` and not through `Local::now`,
/// which panics on a clock that reads a time before 1970; the conversion
/// used here takes such a time as a count below zero. Two unwraps of
/// `chrono` remain on the way, neither of which a system clock reaches:
/// - The count of seconds is made a date and unwrapped. That fails only
///   beyond the years that `chrono` has, 262143 either way from 0, while the
///   clocks of the systems that `SystemTime` reads end within a few tens of
///   thousands of years of 1970.
/// - The offset of the local time zone is looked up and unwrapped. `chrono`
///   reads the zone's rules from the system, checks them as it loads them
///   and, where it reads them from files and finds none, takes UTC; the
///   lookup fails only where the system will not name its rules or hands
///   out rules that are no rules: an offset of more than a day, or a
///   transition that is no date.
/// The formatter fails only on a pattern that it cannot read, which the
/// `requires` leaves out.
#[verifier::external_body]
fn local_time_text(pattern: &str) -> (text: String)
    requires
        pattern@ == minute_pattern() || pattern@ == millisecond_pattern(),
    ensures
        pattern@ == minute_pattern() ==> is_minute_time(text@),
        pattern@ == millisecond_pattern() ==> is_millisecond_time(text@),
{
    let now = chrono::DateTime::<chrono::Local>::from(std::time::SystemTime::now());
    now.format(pattern).to_string()
}

/// The current local time to the minute, for the name of a transcript.
/// It reads the system clock and the system's time-zone rules through
/// `chrono`, which gives up only on a system that cannot tell its own time
/// zone.
pub(crate) fn transcript_timestamp() -> (text: String)
    ensures
        is_minute_time(text@),
{
    local_time_text("%Y%m%d%H%M")
}

/// The current local time to the millisecond, for the name of an artifact.
/// It reads the system clock and the system's time-zone rules through
/// `chrono`, which gives up only on a system that cannot tell its own time
/// zone.
pub(crate) fn artifact_timestamp() -> (text: String)
    ensures
        is_millisecond_time(text@),
{
    local_time_text("%Y-%m-%d_%H-%M-%S.%3f")
}

/// The path of a file in a directory. The directory is written with its
/// final separator, so that the name of the file follows it directly.
pub open spec fn path_in(directory: Seq<char>, file_name: Seq<char>) -> Seq<char> {
    directory + file_name
}

/// The path of a file in a directory that is written with its final
/// separator.
pub fn file_path(directory: &str, file_name: &str) -> (path: String)
    ensures
        path@ == path_in(directory@, file_name@),
{
    let mut path = directory.to_owned();
    path.append(file_name);
    path
}

/// The name of the script artifact made at the given time.
pub open spec fn artifact_name(timestamp: Seq<char>) -> Seq<char> {
    "login_"@ + timestamp + ".ttl"@
}

/// The name of the script artifact made at the given time.
pub fn artifact_file_name(timestamp: &str) -> (name: String)
    ensures
        name@ == artifact_name(timestamp@),
{
    let mut name = "login_".to_owned();
    name.append(timestamp);
    name.append(".ttl");
    name
}

/// The name of the settings file of an operator; of the default one where
/// the operator's name is not known.
pub open spec fn settings_name(os_user: Option<Seq<char>>) -> Seq<char> {
    match os_user {
        Some(user) => "teraterm_ini_"@ + user + ".ini"@,
        None => "teraterm_ini_default.ini"@,
    }
}

/// The name of the settings file of an operator.
pub fn settings_file_name(os_user: Option<&str>) -> (name: String)
    ensures
        name@ == settings_name(opt_str_text(os_user)),
{
    match os_user {
        Some(user) => {
            let mut name = "teraterm_ini_".to_owned();
            name.append(user);
            name.append(".ini");
            name
        },
        None => "teraterm_ini_default.ini".to_owned(),
    }
}

/// The name of the settings template in the working directory.
pub open spec fn template_name() -> Seq<char> {
    "template.ini"@
}

} // verus!

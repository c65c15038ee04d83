//! What the program does before it opens a window: logging, the report of a crash, and
//! the directories that it keeps.

use vstd::prelude::*;
use vstd::string::StringExecFns;

use crate::platform::TargetOs;
use crate::text::decimal_text;

verus! {

/// How much the user asked to have logged.
#[derive(Clone, Copy, Debug, PartialEq, Eq, Structural)]
pub enum LogProfile {
    Debug,
    Trace,
    /// Like `Trace`, and the backend as well.
    Trace2,
    /// Any other profile.
    Other,
}

/// The most detailed messages that are kept.
#[derive(Clone, Copy, Debug, PartialEq, Eq, Structural)]
pub enum LogLevel {
    Debug,
    Trace,
}

/// How the logger is set up. What is not switched on stays as the logger has it.
#[derive(Clone, Copy, Debug, PartialEq, Eq, Structural)]
pub struct LogSettings {
    pub max_level: LogLevel,
    pub write_to_stdout: bool,
    pub display_trace: bool,
    pub display_warp: bool,
}

/// How the logger is set up for a profile, or for none.
pub open spec fn settings_for(profile: Option<LogProfile>) -> LogSettings {
    match profile {
        Some(LogProfile::Debug) => LogSettings {
            max_level: LogLevel::Debug,
            write_to_stdout: true,
            display_trace: false,
            display_warp: false,
        },
        Some(LogProfile::Trace) => LogSettings {
            max_level: LogLevel::Trace,
            write_to_stdout: true,
            display_trace: true,
            display_warp: false,
        },
        Some(LogProfile::Trace2) => LogSettings {
            max_level: LogLevel::Trace,
            write_to_stdout: true,
            display_trace: true,
            display_warp: true,
        },
        _ => LogSettings {
            max_level: LogLevel::Debug,
            write_to_stdout: false,
            display_trace: false,
            display_warp: false,
        },
    }
}

/// Sets the logger up for a profile, or for none.
pub fn log_settings(profile: Option<LogProfile>) -> (res: LogSettings)
    ensures
        res.max_level is Trace <==> profile == Some(LogProfile::Trace) || profile == Some(
            LogProfile::Trace2,
        ),
        res.write_to_stdout <==> profile == Some(LogProfile::Debug) || profile == Some(
            LogProfile::Trace,
        ) || profile == Some(LogProfile::Trace2),
        res.display_trace <==> res.max_level is Trace,
        res.display_warp <==> profile == Some(LogProfile::Trace2),
        res == settings_for(profile),
{
    let quiet: LogSettings = LogSettings {
        max_level: LogLevel::Debug,
        write_to_stdout: false,
        display_trace: false,
        display_warp: false,
    };
    match profile {
        Some(LogProfile::Debug) => LogSettings { write_to_stdout: true, ..quiet },
        Some(LogProfile::Trace) => LogSettings {
            max_level: LogLevel::Trace,
            write_to_stdout: true,
            display_trace: true,
            ..quiet
        },
        Some(LogProfile::Trace2) => LogSettings {
            max_level: LogLevel::Trace,
            write_to_stdout: true,
            display_trace: true,
            display_warp: true,
        },
        Some(LogProfile::Other) => quiet,
        None => quiet,
    }
}

/// What `{:?}` makes of a string: the string in double quotes, with characters escaped
/// that would not show as themselves.
pub uninterp spec fn quoted_text(s: Seq<char>) -> Seq<char>;

/// `<str as std::fmt::Debug>::fmt`, through `format!("{s:?}")`. The result is named
/// [`quoted_text`]; nothing more is claimed of it.
#[verifier::external_body]
fn quoted(s: &str) -> (res: String)
    ensures
        res@ == quoted_text(s@),
{
    format!("{s:?}")
}

/// Where a crash came from.
#[derive(Clone, Copy, Debug, PartialEq, Eq)]
pub struct CrashLocation<'a> {
    pub file: &'a str,
    pub line: u32,
}

/// The report of a crash whose message, where it has one, is quoted as `message`.
pub open spec fn crash_report_text(
    message: Option<Seq<char>>,
    location: Option<(Seq<char>, nat)>,
    logs: Seq<char>,
) -> Seq<char> {
    let intro = match message {
        Some(message) => "panic occurred: "@ + message,
        None => "panic occurred"@,
    };
    let place = match location {
        Some((file, line)) => " at file "@ + file + ", line "@ + crate::text::decimal(line),
        None => ""@,
    };
    intro + place + "\n"@ + logs + "\n"@
}

/// The report of a crash with this message, which stands in it quoted.
pub open spec fn quoting_report_text(
    message: Option<Seq<char>>,
    location: Option<(Seq<char>, nat)>,
    logs: Seq<char>,
) -> Seq<char> {
    crash_report_text(
        match message {
            Some(message) => Some(quoted_text(message)),
            None => None,
        },
        location,
        logs,
    )
}

/// A location, by its view.
pub open spec fn location_view(location: Option<CrashLocation<'_>>) -> Option<(Seq<char>, nat)> {
    match location {
        Some(location) => Some((location.file@, location.line as nat)),
        None => None,
    }
}

/// Writes the report of a crash from its message as it was quoted.
pub fn crash_report_with(
    message: Option<&str>,
    location: Option<CrashLocation<'_>>,
    logs: &str,
) -> (res: String)
    ensures
        res@ == crash_report_text(
            match message {
                Some(message) => Some(message@),
                None => None,
            },
            location_view(location),
            logs@,
        ),
{
    let mut report: String = match message {
        Some(message) => {
            let mut intro: String = String::from_str("panic occurred: ");
            intro.append(message);
            intro
        },
        None => String::from_str("panic occurred"),
    };
    let place: String = match location {
        Some(location) => {
            let mut place: String = String::from_str(" at file ");
            place.append(location.file);
            place.append(", line ");
            place.append(decimal_text(location.line as u64).as_str());
            place
        },
        None => String::from_str(""),
    };
    report.append(place.as_str());
    report.append("\n");
    report.append(logs);
    report.append("\n");
    report
}

/// Writes the report of a crash: its message, where it has one, quoted; where it came
/// from, if that is known; and the logs.
pub fn crash_report(
    message: Option<&str>,
    location: Option<CrashLocation<'_>>,
    logs: &str,
) -> (res: String)
    ensures
        res@ == crash_report_text(
            match message {
                Some(message) => Some(quoted_text(message@)),
                None => None,
            },
            location_view(location),
            logs@,
        ),
        res@ == quoting_report_text(
            match message {
                Some(message) => Some(message@),
                None => None,
            },
            location_view(location),
            logs@,
        ),
{
    match message {
        Some(message) => {
            let text: String = quoted(message);
            crash_report_with(Some(text.as_str()), location, logs)
        },
        None => crash_report_with(None, location, logs),
    }
}

/// A directory that the client keeps.
#[derive(Clone, Copy, Debug, PartialEq, Eq, Structural)]
pub enum KeptDirectory {
    Uplink,
    Warp,
    Themes,
    Fonts,
}

impl KeptDirectory {
    /// The words with which the program ends if the directory cannot be created.
    pub open spec fn failure(self) -> Seq<char> {
        match self {
            KeptDirectory::Uplink => "Error creating Uplink directory"@,
            KeptDirectory::Warp => "Error creating Warp directory"@,
            KeptDirectory::Themes => "error creating themes directory"@,
            KeptDirectory::Fonts => "error fonts themes directory"@,
        }
    }

    /// The words with which the program ends if the directory cannot be created.
    pub fn failure_message(self) -> (res: &'static str)
        ensures
            res@ == self.failure(),
    {
        match self {
            KeptDirectory::Uplink => "Error creating Uplink directory",
            KeptDirectory::Warp => "Error creating Warp directory",
            KeptDirectory::Themes => "error creating themes directory",
            KeptDirectory::Fonts => "error fonts themes directory",
        }
    }
}

/// The directories that have to exist, in the order in which they are created.
pub open spec fn directories_in_order() -> Seq<KeptDirectory> {
    seq![
        KeptDirectory::Uplink,
        KeptDirectory::Warp,
        KeptDirectory::Themes,
        KeptDirectory::Fonts,
    ]
}

/// The directories that have to exist before the window opens, in the order in which
/// they are created.
pub fn kept_directories() -> (res: Vec<KeptDirectory>)
    ensures
        res@ == seq![
            KeptDirectory::Uplink,
            KeptDirectory::Warp,
            KeptDirectory::Themes,
            KeptDirectory::Fonts,
        ],
        res@ == directories_in_order(),
{
    vec![
        KeptDirectory::Uplink,
        KeptDirectory::Warp,
        KeptDirectory::Themes,
        KeptDirectory::Fonts,
    ]
}

/// The name of the directory that holds what the window keeps on disk, where the client
/// chooses one.
pub open spec fn webview_directory_name(production: bool, os: TargetOs) -> Option<&'static str> {
    if os == TargetOs::Windows && production {
        Some("tmp")
    } else {
        None
    }
}

/// The directory, inside that of the client's own data, that holds what the window keeps
/// on disk. Only on Windows, in production, it is not left to the toolkit.
pub fn webview_data_directory(production: bool, os: TargetOs) -> (res: Option<&'static str>)
    ensures
        res == if os == TargetOs::Windows && production {
            Some("tmp")
        } else {
            None
        },
        res == webview_directory_name(production, os),
{
    if os == TargetOs::Windows && production {
        Some("tmp")
    } else {
        None
    }
}

/// How much a profile has logged: nothing asked for, then the client, then its traces,
/// then the backend's.
pub open spec fn detail(profile: Option<LogProfile>) -> int {
    match profile {
        None | Some(LogProfile::Other) => 0,
        Some(LogProfile::Debug) => 1,
        Some(LogProfile::Trace) => 2,
        Some(LogProfile::Trace2) => 3,
    }
}

/// A profile that asks for more has all logged that one asking for less has, and each
/// degree of detail switches on one thing more: standard output, then traces, then the
/// backend.
pub proof fn more_detail_logs_more(less: Option<LogProfile>, more: Option<LogProfile>)
    ensures
        settings_for(less).write_to_stdout <==> detail(less) >= 1,
        settings_for(less).display_trace <==> detail(less) >= 2,
        settings_for(less).max_level is Trace <==> detail(less) >= 2,
        settings_for(less).display_warp <==> detail(less) >= 3,
        settings_for(less) == settings_for(more) <==> detail(less) == detail(more),
        detail(less) <= detail(more) ==> ({
            let (l, m) = (settings_for(less), settings_for(more));
            &&& l.write_to_stdout ==> m.write_to_stdout
            &&& l.display_trace ==> m.display_trace
            &&& l.max_level is Trace ==> m.max_level is Trace
            &&& l.display_warp ==> m.display_warp
        }),
{
}

/// Traces are shown exactly where they are kept, and the backend's messages only where both
/// are.
pub proof fn shown_traces_are_kept(profile: Option<LogProfile>)
    ensures
        settings_for(profile).display_trace <==> settings_for(profile).max_level is Trace,
        settings_for(profile).display_warp ==> settings_for(profile).display_trace,
        settings_for(profile).display_trace ==> settings_for(profile).write_to_stdout,
{
}

/// A crash of which nothing is known is reported as such, with the logs.
pub proof fn bare_report_holds_the_logs(logs: Seq<char>)
    ensures
        crash_report_text(None, None, logs) == "panic occurred\n"@ + logs + "\n"@,
        quoting_report_text(None, None, logs) == "panic occurred\n"@ + logs + "\n"@,
{
    lemma_report_words();
    assert(crash_report_text(None, None, logs) =~= "panic occurred\n"@ + logs + "\n"@);
}

/// A message is put in behind the first two words, after a colon and a space, and leaves
/// the rest of the report as it is, whatever the place and the logs.
pub proof fn message_is_put_into_the_report(
    message: Seq<char>,
    location: Option<(Seq<char>, nat)>,
    logs: Seq<char>,
)
    ensures
        ({
            let bare = crash_report_text(None, location, logs);
            &&& crash_report_text(Some(message), location, logs) == bare.take(14) + ": "@ + message
                + bare.skip(14)
            &&& quoting_report_text(Some(message), location, logs) == bare.take(14) + ": "@
                + quoted_text(message) + bare.skip(14)
            &&& quoting_report_text(None, location, logs) == bare
        }),
{
    lemma_report_words();
    lemma_message(message, location, logs);
    lemma_message(quoted_text(message), location, logs);
}

proof fn lemma_message(message: Seq<char>, location: Option<(Seq<char>, nat)>, logs: Seq<char>)
    ensures
        ({
            let bare = crash_report_text(None, location, logs);
            crash_report_text(Some(message), location, logs) == bare.take(14) + ": "@ + message
                + bare.skip(14)
        }),
{
    lemma_report_words();
    let bare = crash_report_text(None, location, logs);
    let place = match location {
        Some((file, line)) => " at file "@ + file + ", line "@ + crate::text::decimal(line),
        None => ""@,
    };
    let rest = place + "\n"@ + logs + "\n"@;
    assert(bare =~= "panic occurred"@ + rest);
    assert(bare.take(14) =~= "panic occurred"@);
    assert(bare.skip(14) =~= rest);
    assert(crash_report_text(Some(message), location, logs) =~= "panic occurred"@ + ": "@ + message
        + rest);
}

proof fn lemma_report_words()
    ensures
        "panic occurred"@.len() == 14,
        "panic occurred: "@ == "panic occurred"@ + ": "@,
        "panic occurred\n"@ == "panic occurred"@ + "\n"@,
        ""@ == Seq::<char>::empty(),
        "\n"@.len() == 1,
{
    reveal_strlit("panic occurred");
    reveal_strlit("panic occurred: ");
    reveal_strlit("panic occurred\n");
    reveal_strlit(": ");
    reveal_strlit("\n");
    reveal_strlit("");
    assert("panic occurred: "@ =~= "panic occurred"@ + ": "@);
    assert("panic occurred\n"@ =~= "panic occurred"@ + "\n"@);
    assert(""@ =~= Seq::<char>::empty());
}

/// The place of a crash is put in right before the logs, on the same line as the message:
/// the file as it is, then the line in digits. The rest of the report stays as it is.
pub proof fn place_is_put_into_the_report(
    message: Option<Seq<char>>,
    file: Seq<char>,
    line: nat,
    logs: Seq<char>,
)
    ensures
        ({
            let bare = crash_report_text(message, None, logs);
            let at = bare.len() - logs.len() - 2;
            &&& crash_report_text(message, Some((file, line)), logs) == bare.take(at)
                + " at file "@ + file + ", line "@ + crate::text::decimal(line) + bare.skip(at)
            &&& bare.skip(at) == "\n"@ + logs + "\n"@
        }),
{
    lemma_report_words();
    let bare = crash_report_text(message, None, logs);
    let at = bare.len() - logs.len() - 2;
    let intro = match message {
        Some(message) => "panic occurred: "@ + message,
        None => "panic occurred"@,
    };
    let rest = "\n"@ + logs + "\n"@;
    assert(bare =~= intro + rest);
    assert(bare.take(at) =~= intro);
    assert(bare.skip(at) =~= rest);
    assert(crash_report_text(message, Some((file, line)), logs) =~= intro + " at file "@ + file
        + ", line "@ + crate::text::decimal(line) + rest);
}

/// Every directory that the client keeps is created, each once, the client's own first.
pub proof fn every_directory_is_created_once(directory: KeptDirectory)
    ensures
        directories_in_order().contains(directory),
        directories_in_order().no_duplicates(),
        directories_in_order().len() == 4,
        directories_in_order()[0] is Uplink,
        directories_in_order()[1] is Warp,
        directories_in_order()[2] is Themes,
{
    let i: int = match directory {
        KeptDirectory::Uplink => 0,
        KeptDirectory::Warp => 1,
        KeptDirectory::Themes => 2,
        KeptDirectory::Fonts => 3,
    };
    assert(directories_in_order()[i] == directory);
}

/// The words with which the program ends tell which directory could not be created.
pub proof fn failure_names_the_directory(one: KeptDirectory, other: KeptDirectory)
    ensures
        one.failure() == other.failure() <==> one == other,
        " directory"@.is_suffix_of(one.failure()),
        one is Uplink ==> one.failure().subrange(15, 21) == "Uplink"@,
        one is Warp ==> one.failure().subrange(15, 19) == "Warp"@,
        one is Themes ==> one.failure().subrange(15, 21) == "themes"@,
        one is Fonts ==> one.failure().subrange(6, 11) == "fonts"@,
{
    reveal_strlit("Error creating Uplink directory");
    reveal_strlit("Error creating Warp directory");
    reveal_strlit("error creating themes directory");
    reveal_strlit("error fonts themes directory");
    reveal_strlit(" directory");
    reveal_strlit("Uplink");
    reveal_strlit("Warp");
    reveal_strlit("themes");
    reveal_strlit("fonts");
    assert(KeptDirectory::Uplink.failure().len() == 31 && KeptDirectory::Uplink.failure()[0]
        == 'E');
    assert(KeptDirectory::Warp.failure().len() == 29);
    assert(KeptDirectory::Themes.failure().len() == 31 && KeptDirectory::Themes.failure()[0]
        == 'e');
    assert(KeptDirectory::Fonts.failure().len() == 28);
    let words = one.failure();
    assert(words.subrange(words.len() - 10, words.len() as int) =~= " directory"@);
    assert(one is Uplink ==> words.subrange(15, 21) =~= "Uplink"@);
    assert(one is Warp ==> words.subrange(15, 19) =~= "Warp"@);
    assert(one is Themes ==> words.subrange(15, 21) =~= "themes"@);
    assert(one is Fonts ==> words.subrange(6, 11) =~= "fonts"@);
}

/// What the window keeps on disk is moved only on Windows and only in production, always to
/// the same place.
pub proof fn webview_data_move_on_windows(production: bool, os: TargetOs)
    ensures
        webview_directory_name(production, os) is Some ==> production && os is Windows,
        webview_directory_name(true, TargetOs::Windows) is Some,
        webview_directory_name(production, os) matches Some(name) ==> name@ == "tmp"@,
{
}

/// The view of a location is its file and its line, as they are.
pub proof fn location_view_is_the_location(location: CrashLocation<'_>)
    ensures
        location_view(Some(location)) matches Some((file, line)) && file == location.file@ && line
            == location.line,
        location_view(None) is None,
{
}

} // verus!

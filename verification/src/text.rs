//! Texts that the client shows: the keys under which they are looked up in the user's
//! language, and the labels that are put together from a looked-up text and a value.

use vstd::prelude::*;
use vstd::string::StringExecFns;

verus! {

/// The character of one decimal digit.
pub open spec fn digit(d: nat) -> char {
    (48 + d) as char
}

/// `n` in decimal notation: no sign, no separators, no leading zeros.
pub open spec fn decimal(n: nat) -> Seq<char>
    decreases n,
{
    if n < 10 {
        seq![digit(n)]
    } else {
        decimal(n / 10).push(digit(n % 10))
    }
}

/// The number that a sequence of decimal digits denotes.
pub open spec fn decimal_value(s: Seq<char>) -> int
    decreases s.len(),
{
    if s.len() == 0 {
        0
    } else {
        decimal_value(s.drop_last()) * 10 + (s.last() as int - 48)
    }
}

/// Reading a number's decimal notation gives the number back.
pub proof fn decimal_reads_back(n: nat)
    ensures
        decimal_value(decimal(n)) == n,
    decreases n,
{
    if n < 10 {
        assert(decimal_value(decimal(n).drop_last()) == 0);
    } else {
        decimal_reads_back(n / 10);
        assert(decimal(n).drop_last() =~= decimal(n / 10));
    }
}

/// `c` is a decimal digit.
pub open spec fn is_digit(c: char) -> bool {
    '0' <= c <= '9'
}

/// A number's decimal notation consists of digits, of one at least, and starts with a zero
/// only where it is nothing but that.
pub proof fn decimal_is_plain(n: nat)
    ensures
        decimal(n).len() > 0,
        forall|i: int| 0 <= i < decimal(n).len() ==> is_digit(#[trigger] decimal(n)[i]),
        decimal(n)[0] == '0' ==> decimal(n).len() == 1 && n == 0,
    decreases n,
{
    if n >= 10 {
        decimal_is_plain(n / 10);
    }
}

/// Two numbers with the same decimal notation are the same number.
pub proof fn decimal_is_unambiguous(m: nat, n: nat)
    ensures
        decimal(m) == decimal(n) <==> m == n,
{
    decimal_reads_back(m);
    decimal_reads_back(n);
}

fn digit_text(d: u64) -> (res: &'static str)
    requires
        d < 10,
    ensures
        res@ =~= seq![digit(d as nat)],
{
    proof {
        reveal_strlit("0");
        reveal_strlit("1");
        reveal_strlit("2");
        reveal_strlit("3");
        reveal_strlit("4");
        reveal_strlit("5");
        reveal_strlit("6");
        reveal_strlit("7");
        reveal_strlit("8");
        reveal_strlit("9");
    }
    match d {
        0 => "0",
        1 => "1",
        2 => "2",
        3 => "3",
        4 => "4",
        5 => "5",
        6 => "6",
        7 => "7",
        8 => "8",
        _ => "9",
    }
}

/// Writes `n` in decimal notation.
pub fn decimal_text(n: u64) -> (res: String)
    ensures
        res@ == decimal(n as nat),
    decreases n,
{
    let mut text: String = if n < 10 {
        String::new()
    } else {
        decimal_text(n / 10)
    };
    text.append(digit_text(n % 10));
    text
}

/// The texts of the client, by their place in the language files.
#[derive(Clone, Copy, Debug, PartialEq, Eq, Structural)]
pub enum TextKey {
    Uplink,
    Chats,
    Files,
    Friends,
    Settings,
    UpdateAvailable,
    UpdateDownloading,
    UpdateDownloaded,
    UpdateMenuDismiss,
    UpdateMenuDownload,
    UpdatesTitle,
    UpdatesDownloadLabel,
    UpdatesInstruction1,
    UpdatesInstruction2,
    UpdatesInstruction3,
    UpdatesInstruction4,
    UpdatesInstruction5,
    IncomingCall,
}

impl TextKey {
    /// The key under which the language files hold the text.
    pub open spec fn key(self) -> Seq<char> {
        match self {
            TextKey::Uplink => "uplink"@,
            TextKey::Chats => "uplink.chats"@,
            TextKey::Files => "files.files"@,
            TextKey::Friends => "friends.friends"@,
            TextKey::Settings => "settings.settings"@,
            TextKey::UpdateAvailable => "uplink.update-available"@,
            TextKey::UpdateDownloading => "uplink.update-downloading"@,
            TextKey::UpdateDownloaded => "uplink.update-downloaded"@,
            TextKey::UpdateMenuDismiss => "uplink.update-menu-dismiss"@,
            TextKey::UpdateMenuDownload => "uplink.update-menu-download"@,
            TextKey::UpdatesTitle => "updates.title"@,
            TextKey::UpdatesDownloadLabel => "updates.download-label"@,
            TextKey::UpdatesInstruction1 => "updates.instruction1"@,
            TextKey::UpdatesInstruction2 => "updates.instruction2"@,
            TextKey::UpdatesInstruction3 => "updates.instruction3"@,
            TextKey::UpdatesInstruction4 => "updates.instruction4"@,
            TextKey::UpdatesInstruction5 => "updates.instruction5"@,
            TextKey::IncomingCall => "remote-controls.incoming-call"@,
        }
    }

    /// The key, to be looked up in the user's language.
    pub fn name(self) -> (res: &'static str)
        ensures
            res@ == self.key(),
    {
        match self {
            TextKey::Uplink => "uplink",
            TextKey::Chats => "uplink.chats",
            TextKey::Files => "files.files",
            TextKey::Friends => "friends.friends",
            TextKey::Settings => "settings.settings",
            TextKey::UpdateAvailable => "uplink.update-available",
            TextKey::UpdateDownloading => "uplink.update-downloading",
            TextKey::UpdateDownloaded => "uplink.update-downloaded",
            TextKey::UpdateMenuDismiss => "uplink.update-menu-dismiss",
            TextKey::UpdateMenuDownload => "uplink.update-menu-download",
            TextKey::UpdatesTitle => "updates.title",
            TextKey::UpdatesDownloadLabel => "updates.download-label",
            TextKey::UpdatesInstruction1 => "updates.instruction1",
            TextKey::UpdatesInstruction2 => "updates.instruction2",
            TextKey::UpdatesInstruction3 => "updates.instruction3",
            TextKey::UpdatesInstruction4 => "updates.instruction4",
            TextKey::UpdatesInstruction5 => "updates.instruction5",
            TextKey::IncomingCall => "remote-controls.incoming-call",
        }
    }
}

/// A text to show that rests on one looked-up text.
#[derive(Debug, PartialEq, Eq)]
pub enum Label {
    /// The looked-up text alone.
    Plain(TextKey),
    /// The looked-up text, then a release version.
    Version(TextKey, String),
    /// The looked-up text, then a percentage.
    Percent(TextKey, u32),
}

impl Label {
    /// The text that the label needs looked up.
    pub open spec fn text_key(self) -> TextKey {
        match self {
            Label::Plain(key) => key,
            Label::Version(key, _) => key,
            Label::Percent(key, _) => key,
        }
    }

    /// What the label reads when its key stands for `local` in the user's language.
    pub open spec fn reading(self, local: Seq<char>) -> Seq<char> {
        match self {
            Label::Plain(_) => local,
            Label::Version(_, version) => local + ": "@ + version@,
            Label::Percent(_, percent) => local + ": "@ + decimal(percent as nat) + "%"@,
        }
    }

    /// Which text has to be looked up for [`Label::render`].
    pub fn lookup(&self) -> (res: TextKey)
        ensures
            res == self.text_key(),
    {
        match self {
            Label::Plain(key) => *key,
            Label::Version(key, _) => *key,
            Label::Percent(key, _) => *key,
        }
    }

    /// Puts the label together from the looked-up text.
    pub fn render(&self, local: &str) -> (res: String)
        ensures
            res@ == self.reading(local@),
    {
        let mut text: String = String::from_str(local);
        match self {
            Label::Plain(_) => {},
            Label::Version(_, version) => {
                text.append(": ");
                text.append(version.as_str());
            },
            Label::Percent(_, percent) => {
                text.append(": ");
                text.append(decimal_text(*percent as u64).as_str());
                text.append("%");
            },
        }
        text
    }
}

/// No two texts share a key.
pub proof fn keys_are_distinct(one: TextKey, other: TextKey)
    ensures
        one.key() == other.key() <==> one == other,
{
    lemma_key_lengths(one);
    lemma_key_lengths(other);
}

/// What tells the keys apart: their lengths, and among those of the instructions their last
/// characters.
proof fn lemma_key_lengths(text: TextKey)
    ensures
        text.key().len() == match text {
            TextKey::Uplink => 6int,
            TextKey::Chats => 12,
            TextKey::Files => 11,
            TextKey::Friends => 15,
            TextKey::Settings => 17,
            TextKey::UpdateAvailable => 23,
            TextKey::UpdateDownloading => 25,
            TextKey::UpdateDownloaded => 24,
            TextKey::UpdateMenuDismiss => 26,
            TextKey::UpdateMenuDownload => 27,
            TextKey::UpdatesTitle => 13,
            TextKey::UpdatesDownloadLabel => 22,
            TextKey::IncomingCall => 29,
            _ => 20,
        },
        text is UpdatesInstruction1 ==> text.key().last() == '1',
        text is UpdatesInstruction2 ==> text.key().last() == '2',
        text is UpdatesInstruction3 ==> text.key().last() == '3',
        text is UpdatesInstruction4 ==> text.key().last() == '4',
        text is UpdatesInstruction5 ==> text.key().last() == '5',
{
    reveal_strlit("uplink");
    reveal_strlit("uplink.chats");
    reveal_strlit("files.files");
    reveal_strlit("friends.friends");
    reveal_strlit("settings.settings");
    reveal_strlit("uplink.update-available");
    reveal_strlit("uplink.update-downloading");
    reveal_strlit("uplink.update-downloaded");
    reveal_strlit("uplink.update-menu-dismiss");
    reveal_strlit("uplink.update-menu-download");
    reveal_strlit("updates.title");
    reveal_strlit("updates.download-label");
    reveal_strlit("updates.instruction1");
    reveal_strlit("updates.instruction2");
    reveal_strlit("updates.instruction3");
    reveal_strlit("updates.instruction4");
    reveal_strlit("updates.instruction5");
    reveal_strlit("remote-controls.incoming-call");
}

/// A key starts with the part of the client that its text belongs to.
pub proof fn keys_start_with_their_part(text: TextKey)
    ensures
        text is Chats || text is UpdateAvailable || text is UpdateDownloading
            || text is UpdateDownloaded || text is UpdateMenuDismiss || text is UpdateMenuDownload
            ==> "uplink."@.is_prefix_of(text.key()),
        text is UpdateAvailable || text is UpdateDownloading || text is UpdateDownloaded
            || text is UpdateMenuDismiss || text is UpdateMenuDownload
            ==> "uplink.update-"@.is_prefix_of(text.key()),
        text is UpdateMenuDismiss || text is UpdateMenuDownload
            ==> "uplink.update-menu-"@.is_prefix_of(text.key()),
        text is UpdatesTitle || text is UpdatesDownloadLabel || text is UpdatesInstruction1
            || text is UpdatesInstruction2 || text is UpdatesInstruction3
            || text is UpdatesInstruction4 || text is UpdatesInstruction5
            ==> "updates."@.is_prefix_of(text.key()),
        text is Files ==> text.key() == "files"@ + "."@ + "files"@,
        text is Friends ==> text.key() == "friends"@ + "."@ + "friends"@,
        text is Settings ==> text.key() == "settings"@ + "."@ + "settings"@,
        text is Uplink ==> text.key() + "."@ == "uplink."@,
        text is Chats ==> text.key() == "uplink."@ + "chats"@,
        text is IncomingCall ==> text.key() == "remote-controls."@ + "incoming-call"@,
{
    reveal_strlit("uplink");
    reveal_strlit("uplink.chats");
    reveal_strlit("files.files");
    reveal_strlit("friends.friends");
    reveal_strlit("settings.settings");
    reveal_strlit("uplink.update-available");
    reveal_strlit("uplink.update-downloading");
    reveal_strlit("uplink.update-downloaded");
    reveal_strlit("uplink.update-menu-dismiss");
    reveal_strlit("uplink.update-menu-download");
    reveal_strlit("updates.title");
    reveal_strlit("updates.download-label");
    reveal_strlit("updates.instruction1");
    reveal_strlit("updates.instruction2");
    reveal_strlit("updates.instruction3");
    reveal_strlit("updates.instruction4");
    reveal_strlit("updates.instruction5");
    reveal_strlit("remote-controls.incoming-call");
    reveal_strlit("uplink.");
    reveal_strlit("uplink.update-");
    reveal_strlit("uplink.update-menu-");
    reveal_strlit("updates.");
    reveal_strlit(".");
    reveal_strlit("files");
    reveal_strlit("friends");
    reveal_strlit("settings");
    reveal_strlit("chats");
    reveal_strlit("remote-controls.");
    reveal_strlit("incoming-call");
    assert("files.files"@ =~= "files"@ + "."@ + "files"@);
    assert("friends.friends"@ =~= "friends"@ + "."@ + "friends"@);
    assert("settings.settings"@ =~= "settings"@ + "."@ + "settings"@);
    assert("uplink"@ + "."@ =~= "uplink."@);
    assert("uplink.chats"@ =~= "uplink."@ + "chats"@);
    assert("remote-controls.incoming-call"@ =~= "remote-controls."@ + "incoming-call"@);
}

/// A label looks up the text that it was made with and reads that first; what follows is
/// the same in every language.
pub proof fn label_reads_its_text_first(label: Label, local: Seq<char>, other: Seq<char>)
    ensures
        local.is_prefix_of(label.reading(local)),
        label.reading(local).skip(local.len() as int) == label.reading(other).skip(
            other.len() as int,
        ),
{
    let rest = match label {
        Label::Plain(_) => Seq::<char>::empty(),
        Label::Version(_, version) => ": "@ + version@,
        Label::Percent(_, percent) => ": "@ + decimal(percent as nat) + "%"@,
    };
    assert(label.reading(local) =~= local + rest);
    assert(label.reading(other) =~= other + rest);
    assert((local + rest).skip(local.len() as int) =~= rest);
    assert((other + rest).skip(other.len() as int) =~= rest);
}

/// What follows the looked-up text: nothing, or a colon, a space and the version as it is,
/// or a colon, a space, the percentage in digits and a percent sign.
pub proof fn label_reads_its_value(key: TextKey, version: String, percent: u32, local: Seq<char>)
    ensures
        Label::Plain(key).text_key() == key,
        Label::Plain(key).reading(local) == local,
        Label::Version(key, version).text_key() == key,
        Label::Version(key, version).reading(local).len() == local.len() + 2 + version@.len(),
        version@.is_suffix_of(Label::Version(key, version).reading(local)),
        Label::Version(key, version).reading(local)[local.len() as int] == ':',
        Label::Version(key, version).reading(local)[local.len() as int + 1] == ' ',
        Label::Percent(key, percent).text_key() == key,
        Label::Percent(key, percent).reading(local).last() == '%',
        Label::Percent(key, percent).reading(local)[local.len() as int] == ':',
        Label::Percent(key, percent).reading(local)[local.len() as int + 1] == ' ',
        Label::Percent(key, percent).reading(local).subrange(
            local.len() as int + 2,
            Label::Percent(key, percent).reading(local).len() - 1,
        ) == decimal(percent as nat),
{
    reveal_strlit(": ");
    reveal_strlit("%");
    decimal_is_plain(percent as nat);
    let reading = Label::Percent(key, percent).reading(local);
    assert(reading.subrange(local.len() as int + 2, reading.len() - 1) =~= decimal(percent as nat));
    let shown = Label::Version(key, version).reading(local);
    assert(shown =~= (local + ": "@) + version@);
    assert(shown.skip(shown.len() - version@.len()) =~= version@);
    assert(shown.subrange(shown.len() - version@.len(), shown.len() as int) =~= version@);
}

} // verus!

//! The style sheets of the client, and the script that tells the highlighter of code
//! where its languages are.

use vstd::prelude::*;
use vstd::string::StrSliceExecFns;
use vstd::string::StringExecFns;

use crate::platform::TargetOs;

verus! {

/// What stands before the path of a font in the style of that font.
pub const FONT_STYLE_HEAD: &'static str =
    "\n        @font-face {\n            font-family: CustomFont;\n            src: url('";

/// What stands after the path of a font in the style of that font.
pub const FONT_STYLE_TAIL: &'static str =
    "');\n        }\n        body,\n        html {\n            font-family: CustomFont, sans-serif;\n        }\n        ";

/// The style that has the whole client written in the font at `path`.
pub open spec fn font_style_text(path: Option<Seq<char>>) -> Seq<char> {
    match path {
        Some(path) => FONT_STYLE_HEAD@ + path + FONT_STYLE_TAIL@,
        None => ""@,
    }
}

/// The style that scales all text, for a scale written as `scale`.
pub open spec fn font_scale_text(scale: Seq<char>) -> Seq<char> {
    "html { font-size: "@ + scale + "rem; }"@
}

/// Style sheets that come with the client.
#[derive(Clone, Copy, Debug, PartialEq, Eq)]
pub struct BaseStyles<'a> {
    /// The components.
    pub uikit: &'a str,
    /// The client itself.
    pub app: &'a str,
    /// Highlighted code.
    pub prism: &'a str,
    /// The colours of highlighted code.
    pub prism_theme: &'a str,
    /// The font for readers with dyslexia.
    pub open_dyslexic: &'a str,
}

/// What the user chose of the client's looks.
#[derive(Debug, PartialEq, Eq)]
pub struct Look {
    /// The style sheet of the theme, if one is chosen.
    pub theme: Option<String>,
    /// Where the font lies, if one is chosen.
    pub font_path: Option<String>,
    /// Whether the font for readers with dyslexia is switched on.
    pub dyslexia_support: bool,
    /// The scale of all text, as it is written in a style sheet.
    pub font_scale: String,
}

impl Look {
    /// The style sheet of the theme, empty if none is chosen.
    pub open spec fn theme_text(self) -> Seq<char> {
        match self.theme {
            Some(theme) => theme@,
            None => ""@,
        }
    }

    /// Where the font lies.
    pub open spec fn font_path_text(self) -> Option<Seq<char>> {
        match self.font_path {
            Some(path) => Some(path@),
            None => None,
        }
    }
}

/// The style sheet of the client: its parts in order, set apart by single spaces, so that
/// what the user chose stands after what comes with the client.
pub open spec fn stylesheet_text(base: BaseStyles<'_>, look: Look) -> Seq<char> {
    let dyslexic = if look.dyslexia_support {
        base.open_dyslexic@
    } else {
        ""@
    };
    base.uikit@ + " "@ + base.app@ + " "@ + base.prism@ + " "@ + base.prism_theme@ + " "@
        + look.theme_text() + " "@ + font_style_text(look.font_path_text()) + " "@ + dyslexic + " "@
        + font_scale_text(look.font_scale@)
}

/// The style that has the whole client written in the font at `path`; empty without one.
pub fn font_style(path: &Option<String>) -> (res: String)
    ensures
        res@ == font_style_text(
            match *path {
                Some(path) => Some(path@),
                None => None,
            },
        ),
{
    match path {
        Some(path) => {
            let mut style: String = String::from_str(FONT_STYLE_HEAD);
            style.append(path.as_str());
            style.append(FONT_STYLE_TAIL);
            style
        },
        None => String::from_str(""),
    }
}

/// The style that scales all text.
pub fn font_scale(scale: &str) -> (res: String)
    ensures
        res@ == font_scale_text(scale@),
{
    let mut style: String = String::from_str("html { font-size: ");
    style.append(scale);
    style.append("rem; }");
    style
}

/// Puts the style sheet of the client together.
pub fn stylesheet(base: BaseStyles<'_>, look: &Look) -> (res: String)
    ensures
        res@ == stylesheet_text(base, *look),
{
    let mut style: String = String::from_str(base.uikit);
    style.append(" ");
    style.append(base.app);
    style.append(" ");
    style.append(base.prism);
    style.append(" ");
    style.append(base.prism_theme);
    style.append(" ");
    match &look.theme {
        Some(theme) => {
            style.append(theme.as_str());
        },
        None => {
            style.append("");
        },
    }
    style.append(" ");
    style.append(font_style(&look.font_path).as_str());
    style.append(" ");
    if look.dyslexia_support {
        style.append(base.open_dyslexic);
    } else {
        style.append("");
    }
    style.append(" ");
    style.append(font_scale(look.font_scale.as_str()).as_str());
    style
}

/// The style sheet of the login.
pub open spec fn login_stylesheet_text(uikit: Seq<char>, app: Seq<char>) -> Seq<char> {
    uikit + " "@ + app + " "@
}

/// Puts the style sheet of the login together. No theme is known before the user has
/// logged in, so its place stays empty.
pub fn login_stylesheet(uikit: &str, app: &str) -> (res: String)
    ensures
        res@ == uikit@ + " "@ + app@ + " "@,
        res@ == login_stylesheet_text(uikit@, app@),
{
    let mut style: String = String::from_str(uikit);
    style.append(" ");
    style.append(app);
    style.append(" ");
    style
}

/// The client looks for the files that were installed with it.
pub open spec fn prism_uses_extras(production: bool, os: TargetOs) -> bool {
    production && os != TargetOs::Windows
}

/// The directory that the path to the languages of the highlighter is taken from: in
/// production that of the client's own data on Windows, and elsewhere that of the files
/// that were installed with the client. Where those cannot be found, and outside of
/// production, it is the current one.
pub open spec fn prism_base<P>(
    production: bool,
    os: TargetOs,
    dot_uplink: P,
    extras: Option<P>,
    current: P,
) -> P {
    if production && os == TargetOs::Windows {
        dot_uplink
    } else if prism_uses_extras(production, os) && extras is Some {
        extras->0
    } else {
        current
    }
}

/// The names that lead from there to the languages.
pub open spec fn prism_segments(production: bool) -> Seq<&'static str> {
    if production {
        seq!["prism_langs"]
    } else {
        seq!["ui", "extra", "prism_langs"]
    }
}

/// The script that tells the highlighter that its languages lie at `path`.
pub open spec fn autoloader_text(path: Seq<char>) -> Seq<char> {
    "Prism.plugins.autoloader.languages_path = '"@ + path + "';"@
}

/// Tells whether the files that were installed with the client have to be looked for.
pub fn prism_needs_extras(production: bool, os: TargetOs) -> (res: bool)
    ensures
        res == prism_uses_extras(production, os),
{
    production && os != TargetOs::Windows
}

/// The script that tells the highlighter where its languages lie.
pub fn prism_autoloader_script(path: &str) -> (res: String)
    ensures
        res@ == autoloader_text(path@),
{
    let mut script: String = String::from_str("Prism.plugins.autoloader.languages_path = '");
    script.append(path);
    script.append("';");
    script
}

/// The script for a client whose own data lie at `dot_uplink`, the files that were
/// installed with it at `extras`, if those were found, and that was started at `current`.
///
/// How names are joined to a directory is up to the system, so that is left to `join`: it
/// gets the directory and the names that lead on from there, and gives the text of the
/// path, which the script holds as it is.
pub fn prism_script<P, J: FnOnce(P, Vec<&'static str>) -> String>(
    production: bool,
    os: TargetOs,
    dot_uplink: P,
    extras: Option<P>,
    current: P,
    join: J,
) -> (res: String)
    requires
        forall|names: Vec<&'static str>|
            names@ == prism_segments(production) ==> #[trigger] join.requires(
                (prism_base(production, os, dot_uplink, extras, current), names),
            ),
    ensures
        exists|names: Vec<&'static str>, path: String|
            names@ == prism_segments(production) && #[trigger] join.ensures(
                (prism_base(production, os, dot_uplink, extras, current), names),
                path,
            ) && res@ == autoloader_text(path@),
{
    let base: P = if !production {
        current
    } else if os == TargetOs::Windows {
        dot_uplink
    } else {
        match extras {
            Some(extras) => extras,
            None => current,
        }
    };
    let names: Vec<&'static str> = if production {
        vec!["prism_langs"]
    } else {
        vec!["ui", "extra", "prism_langs"]
    };
    assert(base == prism_base(production, os, dot_uplink, extras, current));
    assert(names@ =~= prism_segments(production));
    let path: String = join(base, names);
    prism_autoloader_script(path.as_str())
}

/// Where the files that were installed with the client are not looked for, it makes no
/// difference whether they could be found.
pub proof fn extras_matter_where_looked_for<P>(
    production: bool,
    os: TargetOs,
    dot_uplink: P,
    extras: Option<P>,
    current: P,
)
    requires
        !prism_uses_extras(production, os),
    ensures
        prism_base(production, os, dot_uplink, extras, current) == prism_base(
            production,
            os,
            dot_uplink,
            None,
            current,
        ),
{
}

/// `whole` with `part` put in at place `at`.
pub open spec fn with_part(whole: Seq<char>, at: int, part: Seq<char>) -> Seq<char> {
    whole.take(at) + part + whole.skip(at)
}

/// The place behind what comes with the client: its four style sheets, each with a space
/// after it.
pub open spec fn theme_place(base: BaseStyles<'_>) -> int {
    base.uikit@.len() as int + base.app@.len() + base.prism@.len() + base.prism_theme@.len() + 4
}

/// The place of the style of the font, one space behind the theme.
pub open spec fn font_place(base: BaseStyles<'_>, look: Look) -> int {
    theme_place(base) + 1 + match look.theme {
        Some(theme) => theme@.len() as int,
        None => 0,
    }
}

proof fn lemma_empty_text()
    ensures
        ""@ == Seq::<char>::empty(),
        " "@.len() == 1,
{
    reveal_strlit("");
    reveal_strlit(" ");
    assert(""@ =~= Seq::<char>::empty());
}

/// The client as it comes, with nothing chosen: its style sheets in order, then the places
/// of the theme, the font and the font for readers with dyslexia, all empty, then the scale.
pub proof fn plain_sheet_is_what_comes_with_the_client(base: BaseStyles<'_>, look: Look)
    requires
        look.theme is None,
        look.font_path is None,
        !look.dyslexia_support,
    ensures
        stylesheet_text(base, look) == base.uikit@ + " "@ + base.app@ + " "@ + base.prism@ + " "@
            + base.prism_theme@ + "    "@ + font_scale_text(look.font_scale@),
{
    lemma_empty_text();
    reveal_strlit(" ");
    reveal_strlit("    ");
    assert("    "@ =~= " "@ + " "@ + " "@ + " "@);
    assert(stylesheet_text(base, look) =~= base.uikit@ + " "@ + base.app@ + " "@ + base.prism@
        + " "@ + base.prism_theme@ + "    "@ + font_scale_text(look.font_scale@));
}

/// Choosing a theme puts its style sheet in behind those that come with the client, and
/// leaves the rest as it is, whatever else is chosen.
pub proof fn theme_is_put_in(base: BaseStyles<'_>, look: Look, theme: String)
    ensures
        stylesheet_text(base, Look { theme: Some(theme), ..look }) == with_part(
            stylesheet_text(base, Look { theme: None, ..look }),
            theme_place(base),
            theme@,
        ),
{
    lemma_empty_text();
    let none = stylesheet_text(base, Look { theme: None, ..look });
    let head = base.uikit@ + " "@ + base.app@ + " "@ + base.prism@ + " "@ + base.prism_theme@ + " "@;
    let dyslexic = if look.dyslexia_support {
        base.open_dyslexic@
    } else {
        ""@
    };
    let tail = " "@ + font_style_text(look.font_path_text()) + " "@ + dyslexic + " "@
        + font_scale_text(look.font_scale@);
    assert(none =~= head + tail);
    assert(none.take(theme_place(base)) =~= head);
    assert(none.skip(theme_place(base)) =~= tail);
    assert(stylesheet_text(base, Look { theme: Some(theme), ..look }) =~= head + theme@ + tail);
}

/// Choosing a font puts its style in behind the theme, and leaves the rest as it is,
/// whatever else is chosen.
pub proof fn font_is_put_in(base: BaseStyles<'_>, look: Look, path: String)
    ensures
        stylesheet_text(base, Look { font_path: Some(path), ..look }) == with_part(
            stylesheet_text(base, Look { font_path: None, ..look }),
            font_place(base, look),
            FONT_STYLE_HEAD@ + path@ + FONT_STYLE_TAIL@,
        ),
{
    lemma_empty_text();
    let none = stylesheet_text(base, Look { font_path: None, ..look });
    let head = base.uikit@ + " "@ + base.app@ + " "@ + base.prism@ + " "@ + base.prism_theme@ + " "@
        + look.theme_text() + " "@;
    let dyslexic = if look.dyslexia_support {
        base.open_dyslexic@
    } else {
        ""@
    };
    let tail = " "@ + dyslexic + " "@ + font_scale_text(look.font_scale@);
    let style = FONT_STYLE_HEAD@ + path@ + FONT_STYLE_TAIL@;
    assert(none =~= head + tail);
    assert(none.take(font_place(base, look)) =~= head);
    assert(none.skip(font_place(base, look)) =~= tail);
    assert(stylesheet_text(base, Look { font_path: Some(path), ..look }) =~= head + style + tail);
}

/// Switching the font for readers with dyslexia on puts its style sheet in right before the
/// scale, with a space between them, and leaves the rest as it is, whatever else is chosen.
pub proof fn dyslexia_support_is_put_in(base: BaseStyles<'_>, look: Look)
    ensures
        ({
            let off = stylesheet_text(base, Look { dyslexia_support: false, ..look });
            let on = stylesheet_text(base, Look { dyslexia_support: true, ..look });
            let scale = font_scale_text(look.font_scale@);
            &&& on == with_part(off, off.len() - scale.len() - 1, base.open_dyslexic@)
            &&& (" "@ + base.open_dyslexic@ + " "@ + scale).is_suffix_of(on)
            &&& (" "@ + " "@ + scale).is_suffix_of(off)
        }),
{
    lemma_empty_text();
    let off = stylesheet_text(base, Look { dyslexia_support: false, ..look });
    let on = stylesheet_text(base, Look { dyslexia_support: true, ..look });
    let scale = font_scale_text(look.font_scale@);
    let head = base.uikit@ + " "@ + base.app@ + " "@ + base.prism@ + " "@ + base.prism_theme@ + " "@
        + look.theme_text() + " "@ + font_style_text(look.font_path_text());
    assert(off =~= head + " "@ + (" "@ + scale));
    assert(on =~= head + " "@ + base.open_dyslexic@ + (" "@ + scale));
    let at = off.len() - scale.len() - 1;
    assert(off.take(at) =~= head + " "@);
    assert(off.skip(at) =~= " "@ + scale);
    let ending = " "@ + base.open_dyslexic@ + " "@ + scale;
    assert(on =~= head + ending);
    assert(on.subrange(on.len() - ending.len(), on.len() as int) =~= ending);
    assert(off =~= head + (" "@ + " "@ + scale));
    assert(off.subrange(off.len() - scale.len() - 2, off.len() as int) =~= " "@ + " "@ + scale);
}

/// Every style sheet ends with the scale as the user chose it, and changing the scale
/// changes nothing before that.
pub proof fn scale_stands_last(base: BaseStyles<'_>, look: Look, other: Look)
    requires
        other == (Look { font_scale: other.font_scale, ..look }),
    ensures
        ({
            let sheet = stylesheet_text(base, look);
            let changed = stylesheet_text(base, other);
            let scale = font_scale_text(look.font_scale@);
            let new_scale = font_scale_text(other.font_scale@);
            &&& scale.is_suffix_of(sheet)
            &&& changed == sheet.take(sheet.len() - scale.len()) + new_scale
        }),
{
    lemma_empty_text();
    let sheet = stylesheet_text(base, look);
    let scale = font_scale_text(look.font_scale@);
    let head = sheet.take(sheet.len() - scale.len());
    assert(sheet =~= head + scale);
    assert(sheet.subrange(sheet.len() - scale.len(), sheet.len() as int) =~= scale);
    assert(stylesheet_text(base, other) =~= head + font_scale_text(other.font_scale@));
}

/// The style of a font is there exactly where a font is chosen, and holds its path once,
/// as it is, so that different paths have different styles.
pub proof fn font_style_holds_the_path(path: Seq<char>, other: Seq<char>)
    ensures
        font_style_text(None).len() == 0,
        font_style_text(Some(path)).len() == FONT_STYLE_HEAD@.len() + path.len()
            + FONT_STYLE_TAIL@.len(),
        font_style_text(Some(path)).subrange(
            FONT_STYLE_HEAD@.len() as int,
            FONT_STYLE_HEAD@.len() + path.len() as int,
        ) == path,
        FONT_STYLE_HEAD@.is_prefix_of(font_style_text(Some(path))),
        FONT_STYLE_TAIL@.is_suffix_of(font_style_text(Some(path))),
        font_style_text(Some(path)) == font_style_text(Some(other)) <==> path == other,
{
    lemma_empty_text();
    let (head, tail) = (FONT_STYLE_HEAD@, FONT_STYLE_TAIL@);
    let style = font_style_text(Some(path));
    let other_style = font_style_text(Some(other));
    let end = head.len() + path.len();
    assert(style.subrange(head.len() as int, end as int) =~= path);
    assert(style.subrange(0, head.len() as int) =~= head);
    assert(style.subrange(style.len() - tail.len(), style.len() as int) =~= tail);
    if style == other_style {
        assert(path.len() == other.len());
        assert(other_style.subrange(head.len() as int, end as int) =~= other);
    }
}

/// The style that scales all text is one rule for the whole page, with the scale put in as
/// it is written.
pub proof fn scale_is_put_in(scale: Seq<char>)
    ensures
        font_scale_text(scale) == with_part("html { font-size: rem; }"@, 18, scale),
{
    reveal_strlit("html { font-size: rem; }");
    reveal_strlit("html { font-size: ");
    reveal_strlit("rem; }");
    let rule = "html { font-size: rem; }"@;
    assert(rule.take(18) =~= "html { font-size: "@);
    assert(rule.skip(18) =~= "rem; }"@);
}

/// The login is styled like the client as far as the two go together: its style sheet is
/// what that of the client begins with, whatever the user chose.
pub proof fn login_sheet_begins_the_clients(base: BaseStyles<'_>, look: Look)
    ensures
        login_stylesheet_text(base.uikit@, base.app@).is_prefix_of(stylesheet_text(base, look)),
        login_stylesheet_text(base.uikit@, base.app@).len() == base.uikit@.len() + base.app@.len()
            + 2,
        login_stylesheet_text(base.uikit@, base.app@).last() == ' ',
{
    lemma_empty_text();
    reveal_strlit(" ");
    let login = login_stylesheet_text(base.uikit@, base.app@);
    let sheet = stylesheet_text(base, look);
    assert(sheet.subrange(0, login.len() as int) =~= login);
}

/// Where the languages are looked for: outside of production neither the data of the client
/// nor the files installed with it matter; in production those files do, on every system
/// but Windows, where the data of the client do and nothing else.
pub proof fn languages_lie_with_the_client<P>(
    production: bool,
    os: TargetOs,
    dot_uplink: P,
    extras: P,
    current: P,
)
    ensures
        prism_base(false, os, dot_uplink, Some(extras), current) == current,
        prism_base(false, os, dot_uplink, None, current) == current,
        prism_base(true, TargetOs::Windows, dot_uplink, Some(extras), current) == dot_uplink,
        prism_base(true, TargetOs::Windows, dot_uplink, None, current) == dot_uplink,
        !(os is Windows) ==> prism_base(true, os, dot_uplink, Some(extras), current) == extras,
        !(os is Windows) ==> prism_base(true, os, dot_uplink, None, current) == current,
        !production || os is Windows ==> !prism_uses_extras(production, os),
        production && !(os is Windows) ==> prism_uses_extras(production, os),
{
}

/// The languages lie in a directory of one name in both modes; in production right where
/// they are looked for, and otherwise below the sources of the user interface.
pub proof fn languages_have_one_name(production: bool)
    ensures
        prism_segments(production).len() > 0,
        prism_segments(production).last()@ == "prism_langs"@,
        prism_segments(true).len() == 1,
        prism_segments(false).len() == 3,
        prism_segments(false)[0]@ + "/"@ + prism_segments(false)[1]@ == "ui/extra"@,
{
    reveal_strlit("ui");
    reveal_strlit("extra");
    reveal_strlit("/");
    reveal_strlit("ui/extra");
    assert("ui"@ + "/"@ + "extra"@ =~= "ui/extra"@);
}

/// The script is one statement, with the path put in between its quotes as it is; so it
/// tells different paths apart.
pub proof fn path_is_put_into_the_script(path: Seq<char>, other: Seq<char>)
    ensures
        autoloader_text(path) == with_part(
            "Prism.plugins.autoloader.languages_path = '';"@,
            43,
            path,
        ),
        autoloader_text(path) == autoloader_text(other) <==> path == other,
{
    reveal_strlit("Prism.plugins.autoloader.languages_path = '';");
    reveal_strlit("Prism.plugins.autoloader.languages_path = '");
    reveal_strlit("';");
    let statement = "Prism.plugins.autoloader.languages_path = '';"@;
    assert(statement.take(43) =~= "Prism.plugins.autoloader.languages_path = '"@);
    assert(statement.skip(43) =~= "';"@);
    let (one, two) = (autoloader_text(path), autoloader_text(other));
    assert(one.subrange(43, one.len() - 2) =~= path);
    assert(two.subrange(43, two.len() - 2) =~= other);
}

} // verus!

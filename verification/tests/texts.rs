use std::path::PathBuf;

use uplink::launch::{
    crash_report, crash_report_with, kept_directories, log_settings, webview_data_directory,
    CrashLocation, KeptDirectory, LogLevel, LogProfile, LogSettings,
};
use uplink::platform::TargetOs;
use uplink::style::{
    font_scale, font_style, login_stylesheet, prism_autoloader_script, prism_needs_extras,
    prism_script, stylesheet, BaseStyles, Look,
};
use uplink::text::{decimal_text, Label, TextKey};

#[test]
fn numbers_are_written_in_decimal() {
    assert_eq!(decimal_text(0), "0");
    assert_eq!(decimal_text(9), "9");
    assert_eq!(decimal_text(10), "10");
    assert_eq!(decimal_text(1234567890), "1234567890");
    assert_eq!(decimal_text(u64::MAX), "18446744073709551615");
}

#[test]
fn texts_have_their_keys() {
    let keys = [
        (TextKey::Uplink, "uplink"),
        (TextKey::Chats, "uplink.chats"),
        (TextKey::Files, "files.files"),
        (TextKey::Friends, "friends.friends"),
        (TextKey::Settings, "settings.settings"),
        (TextKey::UpdateAvailable, "uplink.update-available"),
        (TextKey::UpdateDownloading, "uplink.update-downloading"),
        (TextKey::UpdateDownloaded, "uplink.update-downloaded"),
        (TextKey::UpdateMenuDismiss, "uplink.update-menu-dismiss"),
        (TextKey::UpdateMenuDownload, "uplink.update-menu-download"),
        (TextKey::UpdatesTitle, "updates.title"),
        (TextKey::UpdatesDownloadLabel, "updates.download-label"),
        (TextKey::UpdatesInstruction1, "updates.instruction1"),
        (TextKey::UpdatesInstruction2, "updates.instruction2"),
        (TextKey::UpdatesInstruction3, "updates.instruction3"),
        (TextKey::UpdatesInstruction4, "updates.instruction4"),
        (TextKey::UpdatesInstruction5, "updates.instruction5"),
        (TextKey::IncomingCall, "remote-controls.incoming-call"),
    ];
    for (key, name) in keys {
        assert_eq!(key.name(), name);
    }
}

#[test]
fn labels_are_put_together() {
    let plain = Label::Plain(TextKey::UpdateDownloaded);
    assert_eq!(plain.lookup(), TextKey::UpdateDownloaded);
    assert_eq!(plain.render("Done"), "Done");
    let version = Label::Version(TextKey::UpdateAvailable, "v0.1.4".to_string());
    assert_eq!(version.lookup(), TextKey::UpdateAvailable);
    assert_eq!(version.render("Update"), "Update: v0.1.4");
    let percent = Label::Percent(TextKey::UpdateDownloading, 42);
    assert_eq!(percent.lookup(), TextKey::UpdateDownloading);
    assert_eq!(percent.render("Downloading"), "Downloading: 42%");
}

#[test]
fn profiles_set_the_logger_up() {
    let quiet = LogSettings {
        max_level: LogLevel::Debug,
        write_to_stdout: false,
        display_trace: false,
        display_warp: false,
    };
    assert_eq!(log_settings(None), quiet);
    assert_eq!(log_settings(Some(LogProfile::Other)), quiet);
    let debug = LogSettings {
        write_to_stdout: true,
        ..quiet
    };
    assert_eq!(log_settings(Some(LogProfile::Debug)), debug);
    let trace = LogSettings {
        max_level: LogLevel::Trace,
        display_trace: true,
        ..debug
    };
    assert_eq!(log_settings(Some(LogProfile::Trace)), trace);
    assert_eq!(
        log_settings(Some(LogProfile::Trace2)),
        LogSettings {
            display_warp: true,
            ..trace
        }
    );
}

#[test]
fn crash_reports_quote_the_message() {
    let location = CrashLocation {
        file: "src/main.rs",
        line: 131,
    };
    assert_eq!(
        crash_report(Some("no \"window\"\n"), Some(location), "a\nb"),
        "panic occurred: \"no \\\"window\\\"\\n\" at file src/main.rs, line 131\na\nb\n"
    );
    assert_eq!(crash_report(None, None, ""), "panic occurred\n\n");
}

#[test]
fn crash_reports_take_quoted_messages_as_they_are() {
    assert_eq!(
        crash_report_with(Some("'x'"), None, "logs"),
        "panic occurred: 'x'\nlogs\n"
    );
}

#[test]
fn directories_are_kept_in_order() {
    let kept = kept_directories();
    assert_eq!(
        kept,
        vec![
            KeptDirectory::Uplink,
            KeptDirectory::Warp,
            KeptDirectory::Themes,
            KeptDirectory::Fonts
        ]
    );
    let messages: Vec<&str> = kept.iter().map(|d| d.failure_message()).collect();
    assert_eq!(
        messages,
        vec![
            "Error creating Uplink directory",
            "Error creating Warp directory",
            "error creating themes directory",
            "error fonts themes directory"
        ]
    );
}

#[test]
fn webview_data_is_placed_on_windows_in_production() {
    assert_eq!(webview_data_directory(true, TargetOs::Windows), Some("tmp"));
    assert_eq!(webview_data_directory(false, TargetOs::Windows), None);
    assert_eq!(webview_data_directory(true, TargetOs::Linux), None);
}

const SYSTEMS: [TargetOs; 4] = [
    TargetOs::MacOs,
    TargetOs::Windows,
    TargetOs::Linux,
    TargetOs::Other,
];

fn autoloader(path: &str) -> String {
    format!("Prism.plugins.autoloader.languages_path = '{path}';")
}

#[test]
fn script_holds_the_path_as_it_is() {
    assert_eq!(
        prism_autoloader_script("ui/extra/prism_langs"),
        r"Prism.plugins.autoloader.languages_path = 'ui/extra/prism_langs';"
    );
    assert_eq!(
        prism_autoloader_script(r"C:\me\.uplink"),
        r"Prism.plugins.autoloader.languages_path = 'C:\me\.uplink';"
    );
}

#[test]
fn languages_come_from_the_right_directory() {
    let given = |production, os, extras| {
        let mut handed = None;
        let script = prism_script(production, os, "data", extras, "here", |base, names| {
            handed = Some((base, names));
            "the path".to_string()
        });
        assert_eq!(script, autoloader("the path"));
        handed.unwrap()
    };
    for os in SYSTEMS {
        let base = if os == TargetOs::Windows {
            "data"
        } else {
            "extra"
        };
        assert_eq!(given(true, os, Some("extra")), (base, vec!["prism_langs"]));
        let base = if os == TargetOs::Windows {
            "data"
        } else {
            "here"
        };
        assert_eq!(given(true, os, None), (base, vec!["prism_langs"]));
        for extras in [Some("extra"), None] {
            assert_eq!(
                given(false, os, extras),
                ("here", vec!["ui", "extra", "prism_langs"])
            );
        }
    }
}

#[test]
fn installed_files_are_looked_for_in_production_only() {
    for os in SYSTEMS {
        assert_eq!(prism_needs_extras(true, os), os != TargetOs::Windows);
        assert!(!prism_needs_extras(false, os));
    }
}

#[test]
fn script_names_the_directory_of_the_languages() {
    let script = |production, os, data: &str, extras: Option<&str>| {
        prism_script(
            production,
            os,
            PathBuf::from(data),
            extras.map(PathBuf::from),
            PathBuf::new(),
            |base, names| {
                let mut path: PathBuf = base;
                path.extend(names);
                path.to_string_lossy().into_owned()
            },
        )
    };
    let joined = |names: &[&str]| {
        let path: PathBuf = names.iter().collect();
        autoloader(&path.to_string_lossy())
    };
    for data in [".uplink", "a/.uplink/", r"\\?\C:\d/", r"\\?\C:\d\.\e", "C:", ""] {
        assert_eq!(
            script(true, TargetOs::Windows, data, Some("x")),
            joined(&[data, "prism_langs"])
        );
    }
    assert_eq!(
        script(true, TargetOs::Linux, "data", Some("/opt/extra")),
        joined(&["/opt/extra", "prism_langs"])
    );
    assert_eq!(
        script(true, TargetOs::Linux, "data", None),
        autoloader("prism_langs")
    );
    assert_eq!(
        script(false, TargetOs::Linux, "data", Some("/opt/extra")),
        joined(&["ui", "extra", "prism_langs"])
    );
}

#[test]
fn fonts_have_a_style() {
    assert_eq!(font_style(&None), "");
    let expected = format!(
        "
        @font-face {{
            font-family: CustomFont;
            src: url('{}');
        }}
        body,
        html {{
            font-family: CustomFont, sans-serif;
        }}
        ",
        "/fonts/a.ttf"
    );
    assert_eq!(font_style(&Some("/fonts/a.ttf".to_string())), expected);
    assert_eq!(font_scale("1.5"), "html { font-size: 1.5rem; }");
}

#[test]
fn style_sheets_are_joined_in_order() {
    let base = BaseStyles {
        uikit: "u",
        app: "a",
        prism: "p",
        prism_theme: "t",
        open_dyslexic: "d",
    };
    let plain = Look {
        theme: None,
        font_path: None,
        dyslexia_support: false,
        font_scale: "1".to_string(),
    };
    assert_eq!(
        stylesheet(base, &plain),
        "u a p t    html { font-size: 1rem; }"
    );
    let full = Look {
        theme: Some("dark".to_string()),
        font_path: Some("f".to_string()),
        dyslexia_support: true,
        font_scale: "2".to_string(),
    };
    assert_eq!(
        stylesheet(base, &full),
        format!(
            "u a p t dark {} d html {{ font-size: 2rem; }}",
            font_style(&Some("f".to_string()))
        )
    );
    assert_eq!(login_stylesheet("u", "a"), "u a ");
}

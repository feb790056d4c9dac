use editor_core::error::IoErrorKind;
use editor_core::highlight::highlight_config;
use editor_core::model::{window_title, default_file};
use editor_core::theme::HighlightTheme;
use editor_core::view::{decimal_string, status_right};

#[test]
fn cursor_formatting_is_one_based() {
    assert_eq!(status_right(0, 0), "1:1");
    assert_eq!(status_right(0, 5), "1:6");
    assert_eq!(status_right(9, 99), "10:100");
    assert_eq!(status_right(122, 7), "123:8");
}

#[test]
fn decimal_notation() {
    assert_eq!(decimal_string(0), "0");
    assert_eq!(decimal_string(7), "7");
    assert_eq!(decimal_string(10), "10");
    assert_eq!(decimal_string(210), "210");
    assert_eq!(decimal_string(65535), "65535");
}

#[test]
fn extension_from_path() {
    let theme = HighlightTheme::SolarizedDark;
    let cases = [
        ("/tmp/a.md", "md"),
        ("/tmp/a.tar.gz", "gz"),
        ("/home/u/Main.RS", "rs"),
        ("notes.TXT", "txt"),
        ("/tmp/Makefile", "rs"),
        ("/tmp/.gitignore", "rs"),
        ("/tmp/trailing.", "rs"),
        ("/dotted.dir/plain", "rs"),
    ];
    for (path, want) in cases {
        let c = highlight_config(&Some(path.to_string()), theme);
        assert_eq!(c.extension, want, "path {:?}", path);
        assert_eq!(c.theme, theme);
    }
}

#[test]
fn extension_fallback_without_path() {
    let c = highlight_config(&None, HighlightTheme::SolarizedLight);
    assert_eq!(c.extension, "rs");
    assert_eq!(c.theme, HighlightTheme::SolarizedLight);
}

#[test]
fn dark_and_light_themes() {
    assert!(HighlightTheme::SolarizedDark.is_dark());
    assert!(!HighlightTheme::SolarizedLight.is_dark());
    assert!(HighlightTheme::Base16Mocha.is_dark());
    assert!(HighlightTheme::Base16Ocean.is_dark());
    assert!(HighlightTheme::Base16Eighties.is_dark());
    assert!(!HighlightTheme::InspiredGitHub.is_dark());
}

#[test]
fn theme_list_and_names() {
    let all = HighlightTheme::all();
    assert_eq!(all.len(), 6);
    assert_eq!(all[0], HighlightTheme::SolarizedDark);
    assert_eq!(all[0].name(), "Solarized Dark");
    assert_eq!(all[1].name(), "Solarized Light");
    assert_eq!(all[5].name(), "Inspired GitHub");
}

#[test]
fn error_messages() {
    assert_eq!(IoErrorKind::NotFound.message(), "file not found");
    assert_eq!(IoErrorKind::PermissionDenied.message(), "permission denied");
    assert_eq!(IoErrorKind::AlreadyExists.message(), "file already exists");
    assert_eq!(IoErrorKind::InvalidData.message(), "file is not valid text");
    assert_eq!(IoErrorKind::Interrupted.message(), "operation interrupted");
    assert_eq!(IoErrorKind::TimedOut.message(), "operation timed out");
    assert_eq!(IoErrorKind::Other.message(), "input/output error");
}

#[test]
fn fixed_texts() {
    assert_eq!(window_title(), "Editor");
    assert_eq!(default_file(), "src/main.rs");
}

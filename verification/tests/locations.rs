use std::path::Path;
use theme_picker::error::ThemeError;
use theme_picker::models::theme::Theme;
use theme_picker::services::theme::get_root_path;
use theme_picker::services::theme_service::ThemeService;
use theme_picker::utils::paths::{join_paths, parent_of, Paths};

#[test]
fn the_themes_live_below_the_home_directory() {
    assert_eq!(
        Paths::get_config_path(Some("/home/ada")),
        Ok("/home/ada/.local/share/norlyk-themes".to_string())
    );
    assert_eq!(
        get_root_path(Some("/home/ada/")),
        Ok("/home/ada/.local/share/norlyk-themes".to_string())
    );
}

#[test]
fn without_a_home_directory_there_is_no_location() {
    assert_eq!(Paths::get_home_path(None), Err(ThemeError::MissingEnvironment));
    assert_eq!(Paths::get_config_path(None), Err(ThemeError::MissingEnvironment));
    assert_eq!(get_root_path(None), Err(ThemeError::MissingEnvironment));
}

#[test]
fn the_home_directory_is_what_the_environment_holds() {
    assert_eq!(Paths::get_home_path(Some("/home/ada")), Ok("/home/ada".to_string()));
    assert_eq!(Paths::get_home_path(Some("")), Ok(String::new()));
}

#[test]
fn joining_agrees_with_the_standard_library() {
    for (base, rel) in [
        ("/home/ada", ".config/hypr"),
        ("/home/ada/", ".config/hypr"),
        ("/home/ada", "/etc/passwd"),
        ("", "a/b"),
        ("/", "a"),
        ("a", ""),
        ("a/", ""),
        ("", ""),
        ("themes", "../x.scss"),
    ] {
        let expected = Path::new(base).join(rel);
        assert_eq!(join_paths(base, rel), expected.to_str().unwrap(), "{:?} {:?}", base, rel);
    }
}

#[test]
fn the_parent_is_what_stands_before_the_last_separator() {
    for (path, expected) in [
        ("/home/ada/theme.scss", "/home/ada"),
        ("themes/nord/theme.scss", "themes/nord"),
        ("theme.scss", ""),
        ("/theme.scss", "/"),
        ("", ""),
        ("a/b/", "a/b"),
        ("a//b", "a/"),
    ] {
        assert_eq!(parent_of(path), expected, "{:?}", path);
    }
}

#[test]
fn the_parent_of_a_plain_file_path_agrees_with_the_standard_library() {
    for path in ["/home/ada/theme.scss", "themes/nord/theme.scss", "theme.scss", "/theme.scss"] {
        let expected = Path::new(path).parent().unwrap();
        assert_eq!(parent_of(path), expected.to_str().unwrap(), "{:?}", path);
    }
}

#[test]
fn a_theme_holds_what_it_was_made_of() {
    let theme = Theme::new("Nord", "nord", "An arctic, north-bluish color palette.");
    assert_eq!(theme.name, "Nord");
    assert_eq!(theme.dir_name, "nord");
    assert_eq!(theme.info, "An arctic, north-bluish color palette.");
    let copy = theme.clone();
    assert_eq!(copy.name, theme.name);
}

#[test]
fn every_error_has_its_message() {
    let text = |s: &str| s.to_string();
    assert_eq!(
        ThemeError::IoError { path: text("/a/b"), cause: text("denied") }.message(),
        "Could not access /a/b: denied"
    );
    assert_eq!(ThemeError::MissingEnvironment.message(), "Could not get home dir");
    assert_eq!(ThemeError::NoVariablesFound.message(), "No SCSS variables found");
    assert_eq!(
        ThemeError::InvalidColorFormat { text: text("blue") }.message(),
        "Invalid string: blue"
    );
    assert_eq!(
        ThemeError::ColorConversionFailed { variable: text("bg"), value: text("blue") }.message(),
        "Invalid colour for bg: blue"
    );
    assert_eq!(
        ThemeError::SymlinkRemovalFailed { cause: text("busy") }.message(),
        "Failed to remove current theme dir: busy"
    );
    assert_eq!(
        ThemeError::ProcessSpawnFailed { program: text("sass"), cause: text("not found") }
            .message(),
        "Failed to run sass: not found"
    );
    assert_eq!(
        ThemeError::NoImagesFound.message(),
        "No image files found in theme directory"
    );
    assert_eq!(
        ThemeError::ExhaustedRetries { last: text("error") }.message(),
        "Failed to set wallpaper: error"
    );
}

fn listed(themes: &[Theme]) -> Vec<(String, String)> {
    themes.iter().map(|t| (t.name.clone(), t.dir_name.clone())).collect()
}

#[test]
fn themes_are_listed_by_name() {
    let found = vec![
        Theme::new("Nord", "/t/nord", "An arctic, north-bluish color palette."),
        Theme::new("Kanagawa", "/t/kanagawa", "Inspired by the famous painting."),
        Theme::new("Dracula", "/t/dracula", "A dark theme."),
    ];
    let themes = ThemeService::get_available_themes(found);
    assert_eq!(
        listed(&themes),
        vec![
            ("Dracula".to_string(), "/t/dracula".to_string()),
            ("Kanagawa".to_string(), "/t/kanagawa".to_string()),
            ("Nord".to_string(), "/t/nord".to_string()),
        ]
    );
    assert_eq!(themes[2].info, "An arctic, north-bluish color palette.");
}

#[test]
fn themes_of_one_name_keep_their_order() {
    let names = ["b", "a", "b", "", "ab", "a", "B", "é", "z", "a\u{10000}", "a\u{ffff}", "aa"];
    let found: Vec<Theme> = names
        .iter()
        .enumerate()
        .map(|(i, name)| Theme::new(name, &format!("/t/{}", i), ""))
        .collect();
    let mut expected = found.clone();
    expected.sort_by(|t1, t2| t1.name.cmp(&t2.name));
    assert_eq!(listed(&Theme::sort_by_name(found)), listed(&expected));
}

#[test]
fn no_themes_are_no_list() {
    assert!(ThemeService::get_available_themes(Vec::new()).is_empty());
    let one = Theme::sort_by_name(vec![Theme::new("only", "/t/only", "")]);
    assert_eq!(listed(&one), vec![("only".to_string(), "/t/only".to_string())]);
}

use theme_picker::error::ThemeError;
use theme_picker::services::driver::{Action, Event};
use theme_picker::services::switch::{Flavor, Phase, Stage, Switch};
use theme_picker::services::theme::{change_wallpaper, set_theme};
use theme_picker::services::theme_service::ThemeService;

const HOME: &str = "/home/ada";
const ROOT: &str = "/home/ada/.local/share/norlyk-themes";

fn text(s: &str) -> String {
    s.to_string()
}

fn texts(all: &[&str]) -> Vec<String> {
    all.iter().map(|s| s.to_string()).collect()
}

/// A host that keeps its files in memory and notes what it is asked.
struct Host {
    files: Vec<(String, String)>,
    link_exists: bool,
    wallpapers: Vec<String>,
    wallpaper_answers: Vec<Event>,
    failing: Vec<String>,
    asked: Vec<Action>,
    phases: Vec<Phase>,
}

impl Host {
    fn new() -> Host {
        Host {
            files: vec![
                (
                    format!("{}/nord/theme-variables.scss", ROOT),
                    text("@use \"palette\";\n$gap: 4px 8px;\n"),
                ),
                (
                    format!("{}/nord/palette.scss", ROOT),
                    text("$bg: rgba(46, 52, 64, 1);\n$fg: rgba(216, 222, 233, 1);\n"),
                ),
                (
                    format!("{}/.config/kitty/theme-template.conf", HOME),
                    text("background __bg__\nforeground __fg__\nfont_size 11\n"),
                ),
            ],
            link_exists: true,
            wallpapers: vec![format!("{}/current/wallpapers/only.png", ROOT)],
            wallpaper_answers: vec![Event::Text(text("ok\n"))],
            failing: Vec::new(),
            asked: Vec::new(),
            phases: Vec::new(),
        }
    }

    fn fails(&self, what: &str) -> bool {
        self.failing.iter().any(|f| f == what)
    }

    fn answer(&mut self, action: &Action) -> Event {
        match action {
            Action::ReadFile { path } => match self.files.iter().find(|(p, _)| p == path) {
                Some((_, content)) => Event::Text(content.clone()),
                None => Event::Failed(text("No such file or directory")),
            },
            Action::CreateDirAll { .. } if self.fails("mkdir") => Event::Failed(text("denied")),
            Action::WriteFile { path, .. } if self.fails(path) => Event::Failed(text("denied")),
            Action::PathExists { .. } if self.fails("exists") => Event::Failed(text("denied")),
            Action::RemoveFile { .. } if self.fails("remove") => Event::Failed(text("busy")),
            Action::ListFiles { .. } if self.fails("list") => Event::Failed(text("no directory")),
            Action::Run { program, .. } | Action::Spawn { program, .. } if self.fails(program) => {
                Event::Failed(text("not found"))
            }
            Action::CreateDirAll { .. } | Action::WriteFile { .. } | Action::RemoveFile { .. } => {
                Event::Done
            }
            Action::PathExists { .. } => Event::Exists(self.link_exists),
            Action::ListFiles { .. } => Event::Files(self.wallpapers.clone()),
            Action::Run { program, .. } if program == "hyprctl" => {
                if self.wallpaper_answers.len() > 1 {
                    self.wallpaper_answers.remove(0)
                } else {
                    match &self.wallpaper_answers[0] {
                        Event::Text(t) => Event::Text(t.clone()),
                        Event::Failed(c) => Event::Failed(c.clone()),
                        _ => Event::Done,
                    }
                }
            }
            Action::Run { .. } => Event::Text(String::new()),
            Action::Spawn { .. } | Action::Sleep { .. } => Event::Done,
        }
    }

    fn drive(&mut self, mut switch: Switch) -> Switch {
        for _ in 0..200 {
            self.phases.push(switch.phase());
            let action = match switch.action() {
                Some(action) => action,
                None => return switch,
            };
            let event = self.answer(&action);
            self.asked.push(action);
            switch = switch.advance(event);
        }
        panic!("the switch does not end");
    }

    fn writes(&self) -> Vec<(String, String)> {
        let mut all = Vec::new();
        for action in &self.asked {
            if let Action::WriteFile { path, content } = action {
                all.push((path.clone(), content.clone()));
            }
        }
        all
    }
}

fn read(path: String) -> Action {
    Action::ReadFile { path }
}

fn run(program: &str, args: Vec<String>) -> Action {
    Action::Run { program: text(program), args }
}

fn expected_styles() -> String {
    format!(
        "# Autogenerated from {}/nord/theme-variables.scss\n$bg = rgba(46,52,64,1)\n$fg = rgba(216,222,233,1)\n$gap = 4px8px\n",
        ROOT
    )
}

fn expected_terminal() -> String {
    format!(
        "# Autogenerated from {}/nord/theme-variables.scss\nbackground 2E3440\nforeground D8DEE9\nfont_size 11\n",
        ROOT
    )
}

#[test]
fn the_command_line_switch_asks_for_each_step_in_order() {
    let mut host = Host::new();
    let switch = host.drive(set_theme(Some(HOME), "nord"));
    assert_eq!(switch.outcome(), Some(Ok(())));
    assert!(switch.warnings.is_empty());
    assert_eq!(
        host.asked,
        vec![
            read(format!("{}/nord/theme-variables.scss", ROOT)),
            read(format!("{}/nord/palette.scss", ROOT)),
            Action::CreateDirAll { path: format!("{}/.config/hypr", HOME) },
            Action::WriteFile {
                path: format!("{}/.config/hypr/style-variables.conf", HOME),
                content: expected_styles(),
            },
            Action::PathExists { path: format!("{}/current", ROOT) },
            Action::RemoveFile { path: format!("{}/current", ROOT) },
            run("ln", vec![text("-s"), format!("{}/nord", ROOT), format!("{}/current", ROOT)]),
            run(
                "sass",
                vec![
                    text("--no-source-map"),
                    format!("{}/waybar-style.scss", ROOT),
                    format!("{}/.config/waybar/style.css", HOME),
                ],
            ),
            run("pkill", texts(&["waybar"])),
            Action::Spawn {
                program: text("nohup"),
                args: texts(&["waybar"]),
                detached_input: false,
            },
            Action::ListFiles { dir: format!("{}/current/wallpapers", ROOT) },
            run(
                "hyprctl",
                vec![
                    text("hyprpaper"),
                    text("reload"),
                    format!(",{}/current/wallpapers/only.png", ROOT),
                ],
            ),
        ]
    );
}

#[test]
fn the_picker_switch_writes_the_terminal_theme_as_well() {
    let mut host = Host::new();
    host.link_exists = false;
    host.wallpaper_answers = vec![Event::Text(String::new())];
    let theme_dir = format!("{}/nord", ROOT);
    let switch = host.drive(ThemeService::set_current_theme(Some(HOME), &theme_dir));
    assert_eq!(switch.outcome(), Some(Ok(())));
    assert_eq!(
        host.asked,
        vec![
            read(format!("{}/nord/theme-variables.scss", ROOT)),
            read(format!("{}/nord/palette.scss", ROOT)),
            read(format!("{}/.config/kitty/theme-template.conf", HOME)),
            Action::CreateDirAll { path: format!("{}/.config/hypr", HOME) },
            Action::WriteFile {
                path: format!("{}/.config/hypr/style-variables.conf", HOME),
                content: expected_styles(),
            },
            Action::WriteFile {
                path: format!("{}/.config/kitty/theme.conf", HOME),
                content: expected_terminal(),
            },
            Action::PathExists { path: format!("{}/current", ROOT) },
            run("ln", vec![text("-s"), format!("{}/nord", ROOT), format!("{}/current", ROOT)]),
            Action::Spawn {
                program: text("kitty"),
                args: texts(&["@", "--no-response", "load-config"]),
                detached_input: true,
            },
            run(
                "sass",
                vec![
                    text("--no-source-map"),
                    format!("{}/waybar-style.scss", ROOT),
                    format!("{}/.config/waybar/style.css", HOME),
                ],
            ),
            run("pkill", texts(&["waybar"])),
            Action::Spawn {
                program: text("nohup"),
                args: texts(&["waybar"]),
                detached_input: true,
            },
            Action::ListFiles { dir: format!("{}/current/wallpapers", ROOT) },
            run(
                "hyprctl",
                vec![
                    text("hyprpaper"),
                    text("wallpaper"),
                    format!(",{}/current/wallpapers/only.png", ROOT),
                ],
            ),
        ]
    );
}

#[test]
fn the_phases_follow_one_another() {
    let mut host = Host::new();
    host.wallpaper_answers = vec![Event::Text(String::new())];
    let theme_dir = format!("{}/nord", ROOT);
    let switch = host.drive(ThemeService::set_current_theme(Some(HOME), &theme_dir));
    assert_eq!(switch.phase(), Phase::Done);
    let mut distinct = Vec::new();
    for phase in &host.phases {
        if distinct.last() != Some(phase) {
            distinct.push(*phase);
        }
    }
    assert_eq!(
        distinct,
        vec![
            Phase::ResolvingVariables,
            Phase::RenderingConfigs,
            Phase::WritingFiles,
            Phase::UpdatingSymlink,
            Phase::ReloadingConsumers,
            Phase::Done,
        ]
    );
    assert_eq!(Switch::new(Flavor::Service).phase(), Phase::Idle);
}

#[test]
fn a_switch_run_again_writes_the_same_bytes() {
    let mut first = Host::new();
    first.wallpapers = texts(&["/w/a.png", "/w/b.png", "/w/c.jpg", "/w/d.bmp"]);
    let mut second = Host::new();
    second.wallpapers = texts(&["/w/a.png", "/w/b.png", "/w/c.jpg", "/w/d.bmp"]);
    second.wallpaper_answers = vec![Event::Text(text("busy"))];
    let theme_dir = format!("{}/nord", ROOT);
    first.drive(ThemeService::set_current_theme(Some(HOME), &theme_dir));
    second.drive(ThemeService::set_current_theme(Some(HOME), &theme_dir));
    assert_eq!(first.writes().len(), 2);
    assert_eq!(first.writes(), second.writes());
}

#[test]
fn without_a_home_directory_nothing_is_asked() {
    let mut host = Host::new();
    for switch in [
        set_theme(None, "nord"),
        ThemeService::set_current_theme(None, "/themes/nord"),
        change_wallpaper(None),
        ThemeService::change_wallpaper(None),
    ] {
        let switch = host.drive(switch);
        assert_eq!(switch.outcome(), Some(Err(&ThemeError::MissingEnvironment)));
        assert_eq!(switch.phase(), Phase::Failed);
    }
    assert!(host.asked.is_empty());
}

#[test]
fn an_unreadable_theme_ends_the_switch() {
    let mut host = Host::new();
    let switch = host.drive(set_theme(Some(HOME), "gone"));
    assert_eq!(
        switch.outcome(),
        Some(Err(&ThemeError::IoError {
            path: format!("{}/gone/theme-variables.scss", ROOT),
            cause: text("No such file or directory"),
        }))
    );
    assert_eq!(host.asked.len(), 1);
}

#[test]
fn a_theme_without_variables_ends_the_switch() {
    let mut host = Host::new();
    host.files.push((format!("{}/bare/theme-variables.scss", ROOT), text("// nothing\n")));
    let switch = host.drive(set_theme(Some(HOME), "bare"));
    assert_eq!(switch.outcome(), Some(Err(&ThemeError::NoVariablesFound)));
    assert!(host.writes().is_empty());
}

#[test]
fn a_value_that_is_no_colour_ends_the_switch_before_anything_is_written() {
    let mut host = Host::new();
    host.files[2].1 = text("background __bg__\nspacing __gap__\n");
    let theme_dir = format!("{}/nord", ROOT);
    let switch = host.drive(ThemeService::set_current_theme(Some(HOME), &theme_dir));
    assert_eq!(
        switch.outcome(),
        Some(Err(&ThemeError::ColorConversionFailed {
            variable: text("gap"),
            value: text("4px8px"),
        }))
    );
    assert!(host.writes().is_empty());
}

#[test]
fn an_unreadable_template_ends_the_switch() {
    let mut host = Host::new();
    host.files.remove(2);
    let theme_dir = format!("{}/nord", ROOT);
    let switch = host.drive(ThemeService::set_current_theme(Some(HOME), &theme_dir));
    assert_eq!(
        switch.outcome(),
        Some(Err(&ThemeError::IoError {
            path: format!("{}/.config/kitty/theme-template.conf", HOME),
            cause: text("No such file or directory"),
        }))
    );
    assert!(host.writes().is_empty());
}

#[test]
fn a_file_that_cannot_be_written_ends_the_switch() {
    let mut host = Host::new();
    host.failing = vec![text("mkdir")];
    let switch = host.drive(set_theme(Some(HOME), "nord"));
    assert_eq!(
        switch.outcome(),
        Some(Err(&ThemeError::IoError {
            path: format!("{}/.config/hypr", HOME),
            cause: text("denied"),
        }))
    );

    let mut host = Host::new();
    host.failing = vec![format!("{}/.config/hypr/style-variables.conf", HOME)];
    let switch = host.drive(set_theme(Some(HOME), "nord"));
    assert_eq!(
        switch.outcome(),
        Some(Err(&ThemeError::IoError {
            path: format!("{}/.config/hypr/style-variables.conf", HOME),
            cause: text("denied"),
        }))
    );
    assert_eq!(switch.phase(), Phase::Failed);

    let mut host = Host::new();
    host.failing = vec![format!("{}/.config/kitty/theme.conf", HOME)];
    let theme_dir = format!("{}/nord", ROOT);
    let switch = host.drive(ThemeService::set_current_theme(Some(HOME), &theme_dir));
    assert_eq!(
        switch.outcome(),
        Some(Err(&ThemeError::IoError {
            path: format!("{}/.config/kitty/theme.conf", HOME),
            cause: text("denied"),
        }))
    );
    // The style-variables file had been written by then.
    assert_eq!(host.writes().len(), 2);
    assert_eq!(host.writes()[0].1, expected_styles());
}

#[test]
fn a_link_that_cannot_be_removed_ends_the_switch() {
    let mut host = Host::new();
    host.failing = vec![text("remove")];
    let switch = host.drive(set_theme(Some(HOME), "nord"));
    assert_eq!(
        switch.outcome(),
        Some(Err(&ThemeError::SymlinkRemovalFailed { cause: text("busy") }))
    );
    assert!(matches!(host.asked.last(), Some(Action::RemoveFile { .. })));
}

#[test]
fn a_link_that_cannot_be_checked_or_made_ends_the_switch() {
    let mut host = Host::new();
    host.failing = vec![text("exists")];
    let switch = host.drive(set_theme(Some(HOME), "nord"));
    assert_eq!(
        switch.outcome(),
        Some(Err(&ThemeError::IoError {
            path: format!("{}/current", ROOT),
            cause: text("denied"),
        }))
    );

    let mut host = Host::new();
    host.failing = vec![text("ln")];
    let switch = host.drive(set_theme(Some(HOME), "nord"));
    assert_eq!(
        switch.outcome(),
        Some(Err(&ThemeError::ProcessSpawnFailed {
            program: text("ln"),
            cause: text("not found"),
        }))
    );
}

#[test]
fn a_link_that_does_not_exist_is_not_removed() {
    let mut host = Host::new();
    host.link_exists = false;
    let switch = host.drive(set_theme(Some(HOME), "nord"));
    assert_eq!(switch.outcome(), Some(Ok(())));
    assert!(!host.asked.iter().any(|a| matches!(a, Action::RemoveFile { .. })));
}

#[test]
fn a_reload_that_fails_is_noted_and_the_switch_goes_on() {
    let mut host = Host::new();
    host.failing = texts(&["kitty", "sass", "pkill", "nohup"]);
    host.wallpaper_answers = vec![Event::Text(String::new())];
    let theme_dir = format!("{}/nord", ROOT);
    let switch = host.drive(ThemeService::set_current_theme(Some(HOME), &theme_dir));
    assert_eq!(switch.outcome(), Some(Ok(())));
    let failure = |program: &str| ThemeError::ProcessSpawnFailed {
        program: text(program),
        cause: text("not found"),
    };
    assert_eq!(
        switch.warnings,
        vec![failure("kitty"), failure("sass"), failure("pkill"), failure("nohup")]
    );
    assert!(matches!(host.asked.last(), Some(Action::Run { program, .. }) if program == "hyprctl"));
}

#[test]
fn a_directory_without_images_ends_the_switch() {
    let mut host = Host::new();
    host.wallpapers = texts(&["/w/readme.txt"]);
    let switch = host.drive(set_theme(Some(HOME), "nord"));
    assert_eq!(switch.outcome(), Some(Err(&ThemeError::NoImagesFound)));

    let mut host = Host::new();
    host.failing = vec![text("list")];
    let switch = host.drive(change_wallpaper(Some(HOME)));
    assert_eq!(
        switch.outcome(),
        Some(Err(&ThemeError::IoError {
            path: format!("{}/current/wallpapers", ROOT),
            cause: text("no directory"),
        }))
    );
}

#[test]
fn a_wallpaper_that_is_never_accepted_exhausts_the_switch() {
    let mut host = Host::new();
    host.wallpaper_answers = vec![Event::Text(text("error: no such monitor\n"))];
    let switch = host.drive(change_wallpaper(Some(HOME)));
    assert_eq!(
        switch.outcome(),
        Some(Err(&ThemeError::ExhaustedRetries { last: text("error: no such monitor") }))
    );
    let attempts = host.asked.iter().filter(|a| matches!(a, Action::Run { .. })).count();
    let pauses = host.asked.iter().filter(|a| **a == Action::Sleep { seconds: 1 }).count();
    assert_eq!(attempts, 5);
    assert_eq!(pauses, 5);
    assert_eq!(host.asked.len(), 11);
}

#[test]
fn each_pipeline_has_its_own_wallpaper_command() {
    // The command line reloads and waits for `ok`.
    let mut host = Host::new();
    host.wallpaper_answers = vec![Event::Text(String::new()), Event::Text(text("ok"))];
    let switch = host.drive(change_wallpaper(Some(HOME)));
    assert_eq!(switch.outcome(), Some(Ok(())));
    assert_eq!(host.asked.iter().filter(|a| matches!(a, Action::Run { .. })).count(), 2);
    // The picker sets the wallpaper and waits for silence.
    let mut host = Host::new();
    host.wallpaper_answers = vec![Event::Text(text("ok")), Event::Text(text(" \n"))];
    let switch = host.drive(ThemeService::change_wallpaper(Some(HOME)));
    assert_eq!(switch.outcome(), Some(Ok(())));
    assert_eq!(host.asked.iter().filter(|a| matches!(a, Action::Run { .. })).count(), 2);
    assert_eq!(
        host.asked[1],
        run(
            "hyprctl",
            vec![
                text("hyprpaper"),
                text("wallpaper"),
                format!(",{}/current/wallpapers/only.png", ROOT),
            ],
        )
    );
}

#[test]
fn the_wallpaper_is_picked_among_the_images() {
    let mut seen = Vec::new();
    for _ in 0..200 {
        let mut host = Host::new();
        host.wallpapers = texts(&["/w/a.png", "/w/notes.txt", "/w/b.JPG", "/w/c.jpeg"]);
        host.drive(change_wallpaper(Some(HOME)));
        let chosen = match &host.asked[1] {
            Action::Run { args, .. } => args[2].clone(),
            other => panic!("unexpected action {:?}", other),
        };
        assert!([",/w/a.png", ",/w/b.JPG", ",/w/c.jpeg"].contains(&chosen.as_str()));
        if !seen.contains(&chosen) {
            seen.push(chosen);
        }
    }
    assert!(seen.len() > 1);
}

#[test]
fn a_switch_goes_on_with_the_pick_it_is_given() {
    let listing = || Event::Files(texts(&["/w/a.png", "/w/b.png"]));
    let switch = change_wallpaper(Some(HOME)).advance_with(listing(), Some(text("/w/b.png")));
    assert_eq!(
        switch.action(),
        Some(run("hyprctl", texts(&["hyprpaper", "reload", ",/w/b.png"])))
    );
    let switch = change_wallpaper(Some(HOME)).advance_with(listing(), None);
    assert_eq!(switch.outcome(), Some(Err(&ThemeError::NoImagesFound)));
    let none = Event::Files(texts(&["/w/a.txt"]));
    let switch = change_wallpaper(Some(HOME)).advance_with(none, Some(text("/w/a.txt")));
    assert_eq!(switch.outcome(), Some(Err(&ThemeError::NoImagesFound)));
}

#[test]
fn a_switch_ignores_an_answer_that_does_not_fit() {
    let switch = set_theme(Some(HOME), "nord");
    let expected = switch.action();
    let switch = switch.advance(Event::Done).advance(Event::Exists(true));
    let switch = switch.advance(Event::Files(texts(&["/w/a.png"])));
    assert_eq!(switch.action(), expected);
    assert_eq!(switch.phase(), Phase::ResolvingVariables);
}

#[test]
fn a_switch_that_has_ended_stays_as_it_is() {
    let mut host = Host::new();
    let switch = host.drive(set_theme(Some(HOME), "nord"));
    let switch = switch.advance(Event::Failed(text("late"))).advance(Event::Done);
    assert_eq!(switch.outcome(), Some(Ok(())));
    assert_eq!(switch.action(), None);
    let switch = host.drive(set_theme(None, "nord")).advance(Event::Done);
    assert_eq!(switch.outcome(), Some(Err(&ThemeError::MissingEnvironment)));
    assert!(matches!(switch.stage, Stage::Failed { .. }));
}

#[test]
fn only_an_idle_switch_begins() {
    let idle = Switch::new(Flavor::Command);
    assert_eq!(idle.action(), None);
    assert_eq!(idle.outcome(), None);
    let idle = idle.advance(Event::Done);
    assert_eq!(idle.phase(), Phase::Idle);
    let begun = idle.begin(Some(HOME), "/themes/nord");
    assert_eq!(begun.action(), Some(read(text("/themes/nord/theme-variables.scss"))));
    let again = begun.begin(Some("/elsewhere"), "/themes/other");
    assert_eq!(again.action(), Some(read(text("/themes/nord/theme-variables.scss"))));
    let again = again.begin_with_wallpaper(Some(HOME));
    assert_eq!(again.phase(), Phase::ResolvingVariables);
}

#[test]
fn only_the_reloads_may_fail() {
    let mut host = Host::new();
    host.wallpaper_answers = vec![Event::Text(String::new())];
    let theme_dir = format!("{}/nord", ROOT);
    let mut switch = ThemeService::set_current_theme(Some(HOME), &theme_dir);
    let mut fatal = Vec::new();
    while let Some(action) = switch.action() {
        let what = match &action {
            Action::ReadFile { .. } => "read",
            Action::CreateDirAll { .. } => "mkdir",
            Action::WriteFile { .. } => "write",
            Action::PathExists { .. } => "exists",
            Action::RemoveFile { .. } => "remove",
            Action::ListFiles { .. } => "list",
            Action::Sleep { .. } => "sleep",
            Action::Run { program, .. } | Action::Spawn { program, .. } => program.as_str(),
        };
        fatal.push((what.to_string(), switch.failure_is_fatal()));
        let event = host.answer(&action);
        switch = switch.advance(event);
    }
    let expected: Vec<(String, bool)> = [
        ("read", true),
        ("read", true),
        ("read", true),
        ("mkdir", true),
        ("write", true),
        ("write", true),
        ("exists", true),
        ("remove", true),
        ("ln", true),
        ("kitty", false),
        ("sass", false),
        ("pkill", false),
        ("nohup", false),
        ("list", true),
        ("hyprctl", false),
    ]
    .iter()
    .map(|(what, fatal)| (what.to_string(), *fatal))
    .collect();
    assert_eq!(fatal, expected);
}

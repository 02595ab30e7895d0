//! The theme switch as a state machine.
//!
//! A switch goes through its phases in order: it resolves the theme's
//! variables, renders the configuration files, writes them, points the link
//! to the current theme at the new one, and reloads the programs that read
//! what was written. At each step it names one action for the host and
//! takes the host's answer. A failure before the reloads ends the switch; a
//! reload that fails is noted and the switch goes on.

use crate::error::{ThemeError, ThemeErrorView};
use crate::services::driver::{Action, ActionView, Event, EventView};
use crate::services::renderer::{
    render_hypr_config, render_kitty_config, style_variables, terminal_theme,
};
use crate::services::resolver::{begin, supplied, Resolver, ResolverView, Table};
use crate::services::retry::{
    answered, fresh, invoke_with_retry, verdict, wanted, Acceptance, Retry, RetryView,
};
use crate::services::wallpaper::{choose_wallpaper, image_files, images};
use crate::utils::paths::{join, join_paths, parent, parent_of, THEMES_DIR};
use vstd::prelude::*;
use vstd::string::StringExecFns;

verus! {

/// The file of a theme that defines its variables.
pub const THEME_FILE: &'static str = "theme-variables.scss";

/// The link to the current theme, below the themes.
pub const CURRENT_LINK: &'static str = "current";

/// The style-variables file, below the home directory.
pub const STYLE_FILE: &'static str = ".config/hypr/style-variables.conf";

/// The template of the terminal's theme, below the home directory.
pub const TEMPLATE_FILE: &'static str = ".config/kitty/theme-template.conf";

/// The terminal's theme, below the home directory.
pub const TERMINAL_FILE: &'static str = ".config/kitty/theme.conf";

/// The style sheet of the status bar, below the themes.
pub const BAR_SOURCE: &'static str = "waybar-style.scss";

/// The compiled style sheet of the status bar, below the home directory.
pub const BAR_TARGET: &'static str = ".config/waybar/style.css";

/// The wallpapers of the current theme, below the themes.
pub const WALLPAPER_DIR: &'static str = "current/wallpapers";

/// Which of the two pipelines a switch runs.
#[derive(Debug, Clone, Copy, PartialEq, Eq, Structural)]
pub enum Flavor {
    /// The pipeline of the command line: the style-variables file only; the
    /// wallpaper is reloaded, and the reload answers `ok`.
    Command,
    /// The pipeline of the picker: the terminal's theme as well; the
    /// wallpaper is set, and the compositor answers nothing.
    Service,
}

/// The phases of a switch, in their order.
#[derive(Debug, Clone, Copy, PartialEq, Eq, Structural)]
pub enum Phase {
    Idle,
    ResolvingVariables,
    RenderingConfigs,
    WritingFiles,
    UpdatingSymlink,
    ReloadingConsumers,
    Done,
    Failed,
}

/// The step a switch is at.
#[derive(Debug)]
pub enum Stage {
    Idle,
    Resolving { resolver: Resolver },
    ReadingTemplate,
    CreatingStyleDir,
    WritingStyles,
    WritingTerminalTheme,
    CheckingLink,
    RemovingLink,
    CreatingLink,
    ReloadingTerminal,
    CompilingBarStyles,
    StoppingBar,
    StartingBar,
    ListingWallpapers,
    SettingWallpaper { retry: Retry },
    Done,
    Failed { error: ThemeError },
}

/// A `Stage` over sequences of characters.
pub enum StageView {
    Idle,
    Resolving { resolver: ResolverView },
    ReadingTemplate,
    CreatingStyleDir,
    WritingStyles,
    WritingTerminalTheme,
    CheckingLink,
    RemovingLink,
    CreatingLink,
    ReloadingTerminal,
    CompilingBarStyles,
    StoppingBar,
    StartingBar,
    ListingWallpapers,
    SettingWallpaper { retry: RetryView },
    Done,
    Failed { error: ThemeErrorView },
}

impl DeepView for Stage {
    type V = StageView;

    open spec fn deep_view(&self) -> StageView {
        match *self {
            Stage::Idle => StageView::Idle,
            Stage::Resolving { resolver } => StageView::Resolving {
                resolver: resolver.deep_view(),
            },
            Stage::ReadingTemplate => StageView::ReadingTemplate,
            Stage::CreatingStyleDir => StageView::CreatingStyleDir,
            Stage::WritingStyles => StageView::WritingStyles,
            Stage::WritingTerminalTheme => StageView::WritingTerminalTheme,
            Stage::CheckingLink => StageView::CheckingLink,
            Stage::RemovingLink => StageView::RemovingLink,
            Stage::CreatingLink => StageView::CreatingLink,
            Stage::ReloadingTerminal => StageView::ReloadingTerminal,
            Stage::CompilingBarStyles => StageView::CompilingBarStyles,
            Stage::StoppingBar => StageView::StoppingBar,
            Stage::StartingBar => StageView::StartingBar,
            Stage::ListingWallpapers => StageView::ListingWallpapers,
            Stage::SettingWallpaper { retry } => StageView::SettingWallpaper {
                retry: retry.deep_view(),
            },
            Stage::Done => StageView::Done,
            Stage::Failed { error } => StageView::Failed { error: error@ },
        }
    }
}

/// A theme switch: what it works on, what it has produced, and the step it
/// is at.
#[derive(Debug)]
pub struct Switch {
    pub flavor: Flavor,
    /// The home directory.
    pub home: String,
    /// The directory of the theme that is switched to.
    pub theme_dir: String,
    /// The variables of the theme, once resolved.
    pub table: Vec<(String, String)>,
    /// The text of the style-variables file, once rendered.
    pub styles: String,
    /// The text of the terminal's theme, once rendered.
    pub terminal: String,
    /// The reloads that failed.
    pub warnings: Vec<ThemeError>,
    pub stage: Stage,
}

/// A `Switch` over sequences of characters.
pub struct SwitchView {
    pub flavor: Flavor,
    pub home: Seq<char>,
    pub theme_dir: Seq<char>,
    pub table: Table,
    pub styles: Seq<char>,
    pub terminal: Seq<char>,
    pub warnings: Seq<ThemeErrorView>,
    pub stage: StageView,
}

/// What each of the errors says.
pub open spec fn error_views(errors: Seq<ThemeError>) -> Seq<ThemeErrorView> {
    errors.map_values(|e: ThemeError| e@)
}

impl DeepView for Switch {
    type V = SwitchView;

    open spec fn deep_view(&self) -> SwitchView {
        SwitchView {
            flavor: self.flavor,
            home: self.home@,
            theme_dir: self.theme_dir@,
            table: self.table.deep_view(),
            styles: self.styles@,
            terminal: self.terminal@,
            warnings: error_views(self.warnings@),
            stage: self.stage.deep_view(),
        }
    }
}

/// The directory that holds the themes.
pub open spec fn root(home: Seq<char>) -> Seq<char> {
    join(home, THEMES_DIR@)
}

/// The variable-definition file of the theme in `theme_dir`.
pub open spec fn theme_file(theme_dir: Seq<char>) -> Seq<char> {
    join(theme_dir, THEME_FILE@)
}

/// The link to the current theme.
pub open spec fn current_link(home: Seq<char>) -> Seq<char> {
    join(root(home), CURRENT_LINK@)
}

/// The directory from which the wallpaper is chosen.
pub open spec fn wallpaper_dir(home: Seq<char>) -> Seq<char> {
    join(root(home), WALLPAPER_DIR@)
}

/// The command that puts up the wallpaper at `path`.
pub open spec fn wallpaper_args(flavor: Flavor, path: Seq<char>) -> Seq<Seq<char>> {
    seq![
        "hyprpaper"@,
        match flavor {
            Flavor::Command => "reload"@,
            Flavor::Service => "wallpaper"@,
        },
        seq![','] + path,
    ]
}

/// Which answer of the wallpaper command counts as success.
pub open spec fn wallpaper_rule(flavor: Flavor) -> Acceptance {
    match flavor {
        Flavor::Command => Acceptance::SaysOk,
        Flavor::Service => Acceptance::SaysNothing,
    }
}

/// The phase that a step belongs to.
pub open spec fn phase_of(stage: StageView) -> Phase {
    match stage {
        StageView::Idle => Phase::Idle,
        StageView::Resolving { .. } => Phase::ResolvingVariables,
        StageView::ReadingTemplate => Phase::RenderingConfigs,
        StageView::CreatingStyleDir | StageView::WritingStyles | StageView::WritingTerminalTheme =>
            Phase::WritingFiles,
        StageView::CheckingLink | StageView::RemovingLink | StageView::CreatingLink =>
            Phase::UpdatingSymlink,
        StageView::ReloadingTerminal
        | StageView::CompilingBarStyles
        | StageView::StoppingBar
        | StageView::StartingBar
        | StageView::ListingWallpapers
        | StageView::SettingWallpaper { .. } => Phase::ReloadingConsumers,
        StageView::Done => Phase::Done,
        StageView::Failed { .. } => Phase::Failed,
    }
}

/// A switch that has not begun.
pub open spec fn idle(flavor: Flavor) -> SwitchView {
    SwitchView {
        flavor,
        home: seq![],
        theme_dir: seq![],
        table: seq![],
        styles: seq![],
        terminal: seq![],
        warnings: seq![],
        stage: StageView::Idle,
    }
}

/// The switch `s` at the step `stage`.
pub open spec fn at(s: SwitchView, stage: StageView) -> SwitchView {
    SwitchView { stage, ..s }
}

/// The switch `s`, failed with `error`.
pub open spec fn failed(s: SwitchView, error: ThemeErrorView) -> SwitchView {
    SwitchView { stage: StageView::Failed { error }, ..s }
}

/// The switch `s` at the step `stage`, with one more reload noted as
/// failed.
pub open spec fn warned(s: SwitchView, error: ThemeErrorView, stage: StageView) -> SwitchView {
    SwitchView { stage, warnings: s.warnings.push(error), ..s }
}

/// The failure to start `program`.
pub open spec fn spawn_failure(program: Seq<char>, cause: Seq<char>) -> ThemeErrorView {
    ThemeErrorView::ProcessSpawnFailed { program, cause }
}

/// The failure to reach `path`.
pub open spec fn io_failure(path: Seq<char>, cause: Seq<char>) -> ThemeErrorView {
    ThemeErrorView::IoError { path, cause }
}

/// The idle switch `s` once asked to switch to the theme in `theme_dir`:
/// it fails with `MissingEnvironment` where no home directory is known, and
/// else needs the theme's variable-definition file. A switch that is not
/// idle stays as it is.
pub open spec fn begun(s: SwitchView, home: Option<Seq<char>>, theme_dir: Seq<char>) -> SwitchView {
    match s.stage {
        StageView::Idle => match home {
            None => failed(s, ThemeErrorView::MissingEnvironment),
            Some(h) => SwitchView {
                home: h,
                theme_dir,
                stage: StageView::Resolving { resolver: begin(theme_file(theme_dir)) },
                ..s
            },
        },
        _ => s,
    }
}

/// The idle switch `s` once asked for a new wallpaper only.
pub open spec fn wallpaper_only(s: SwitchView, home: Option<Seq<char>>) -> SwitchView {
    match s.stage {
        StageView::Idle => match home {
            None => failed(s, ThemeErrorView::MissingEnvironment),
            Some(h) => SwitchView { home: h, stage: StageView::ListingWallpapers, ..s },
        },
        _ => s,
    }
}

/// What the host is to do for the switch `s`; nothing while it is idle and
/// once it has ended.
pub open spec fn requested(s: SwitchView) -> Option<ActionView> {
    match s.stage {
        StageView::Idle | StageView::Done | StageView::Failed { .. } => None,
        StageView::Resolving { resolver } => match resolver {
            ResolverView::Reading { path, .. } => Some(ActionView::ReadFile { path }),
            _ => None,
        },
        StageView::ReadingTemplate => Some(
            ActionView::ReadFile { path: join(s.home, TEMPLATE_FILE@) },
        ),
        StageView::CreatingStyleDir => Some(
            ActionView::CreateDirAll { path: parent(join(s.home, STYLE_FILE@)) },
        ),
        StageView::WritingStyles => Some(
            ActionView::WriteFile { path: join(s.home, STYLE_FILE@), content: s.styles },
        ),
        StageView::WritingTerminalTheme => Some(
            ActionView::WriteFile { path: join(s.home, TERMINAL_FILE@), content: s.terminal },
        ),
        StageView::CheckingLink => Some(ActionView::PathExists { path: current_link(s.home) }),
        StageView::RemovingLink => Some(ActionView::RemoveFile { path: current_link(s.home) }),
        StageView::CreatingLink => Some(
            ActionView::Run {
                program: "ln"@,
                args: seq!["-s"@, s.theme_dir, current_link(s.home)],
            },
        ),
        StageView::ReloadingTerminal => Some(
            ActionView::Spawn {
                program: "kitty"@,
                args: seq!["@"@, "--no-response"@, "load-config"@],
                detached_input: true,
            },
        ),
        StageView::CompilingBarStyles => Some(
            ActionView::Run {
                program: "sass"@,
                args: seq![
                    "--no-source-map"@,
                    join(root(s.home), BAR_SOURCE@),
                    join(s.home, BAR_TARGET@),
                ],
            },
        ),
        StageView::StoppingBar => Some(
            ActionView::Run { program: "pkill"@, args: seq!["waybar"@] },
        ),
        StageView::StartingBar => Some(
            ActionView::Spawn {
                program: "nohup"@,
                args: seq!["waybar"@],
                detached_input: s.flavor == Flavor::Service,
            },
        ),
        StageView::ListingWallpapers => Some(ActionView::ListFiles { dir: wallpaper_dir(s.home) }),
        StageView::SettingWallpaper { retry } => wanted(retry),
    }
}

/// The switch `s` once its resolver has taken a file: still resolving,
/// failed as the resolver has, or on to rendering with the table resolved.
/// The style-variables file is rendered at once; the terminal's theme, which
/// only the picker's pipeline writes, needs its template first.
pub open spec fn resolved(s: SwitchView, resolver: ResolverView) -> SwitchView {
    match resolver {
        ResolverView::Reading { .. } => at(s, StageView::Resolving { resolver }),
        ResolverView::Failed { error } => failed(s, error),
        ResolverView::Resolved { table } => SwitchView {
            table,
            styles: style_variables(table, theme_file(s.theme_dir)),
            stage: match s.flavor {
                Flavor::Command => StageView::CreatingStyleDir,
                Flavor::Service => StageView::ReadingTemplate,
            },
            ..s
        },
    }
}

/// The first of the reloads.
pub open spec fn first_reload(flavor: Flavor) -> StageView {
    match flavor {
        Flavor::Command => StageView::CompilingBarStyles,
        Flavor::Service => StageView::ReloadingTerminal,
    }
}

/// The switch `s` once the host has answered `event` to what was asked of
/// it; `choice` is the wallpaper picked, for the one step that needs one.
///
/// Up to and including the update of the link, an action that fails ends
/// the switch with the failure. Among the reloads, a program that cannot be
/// started is noted in `warnings` and the next reload is gone on to. The
/// wallpaper ends the switch: in `NoImagesFound` where the directory holds
/// no image, else as the run of the wallpaper command ends. An answer that
/// does not fit what was asked changes nothing, and neither does any answer
/// to a switch that is idle or has ended.
#[verifier::opaque]
pub open spec fn advanced(s: SwitchView, event: EventView, choice: Option<Seq<char>>) -> SwitchView {
    match s.stage {
        StageView::Idle | StageView::Done | StageView::Failed { .. } => s,
        StageView::Resolving { resolver } => match event {
            EventView::Text(content) => resolved(s, supplied(resolver, Ok(content))),
            EventView::Failed(cause) => resolved(s, supplied(resolver, Err(cause))),
            _ => s,
        },
        StageView::ReadingTemplate => match event {
            EventView::Text(template) => match terminal_theme(
                s.table,
                theme_file(s.theme_dir),
                template,
            ) {
                Ok(text) => SwitchView { terminal: text, stage: StageView::CreatingStyleDir, ..s },
                Err(error) => failed(s, error),
            },
            EventView::Failed(cause) => failed(s, io_failure(join(s.home, TEMPLATE_FILE@), cause)),
            _ => s,
        },
        StageView::CreatingStyleDir => match event {
            EventView::Done => at(s, StageView::WritingStyles),
            EventView::Failed(cause) => failed(
                s,
                io_failure(parent(join(s.home, STYLE_FILE@)), cause),
            ),
            _ => s,
        },
        StageView::WritingStyles => match event {
            EventView::Done => at(
                s,
                match s.flavor {
                    Flavor::Command => StageView::CheckingLink,
                    Flavor::Service => StageView::WritingTerminalTheme,
                },
            ),
            EventView::Failed(cause) => failed(s, io_failure(join(s.home, STYLE_FILE@), cause)),
            _ => s,
        },
        StageView::WritingTerminalTheme => match event {
            EventView::Done => at(s, StageView::CheckingLink),
            EventView::Failed(cause) => failed(s, io_failure(join(s.home, TERMINAL_FILE@), cause)),
            _ => s,
        },
        StageView::CheckingLink => match event {
            EventView::Exists(true) => at(s, StageView::RemovingLink),
            EventView::Exists(false) => at(s, StageView::CreatingLink),
            EventView::Failed(cause) => failed(s, io_failure(current_link(s.home), cause)),
            _ => s,
        },
        StageView::RemovingLink => match event {
            EventView::Done => at(s, StageView::CreatingLink),
            EventView::Failed(cause) => failed(s, ThemeErrorView::SymlinkRemovalFailed { cause }),
            _ => s,
        },
        StageView::CreatingLink => match event {
            EventView::Text(_) => at(s, first_reload(s.flavor)),
            EventView::Failed(cause) => failed(s, spawn_failure("ln"@, cause)),
            _ => s,
        },
        StageView::ReloadingTerminal => match event {
            EventView::Done => at(s, StageView::CompilingBarStyles),
            EventView::Failed(cause) => warned(
                s,
                spawn_failure("kitty"@, cause),
                StageView::CompilingBarStyles,
            ),
            _ => s,
        },
        StageView::CompilingBarStyles => match event {
            EventView::Text(_) => at(s, StageView::StoppingBar),
            EventView::Failed(cause) => warned(
                s,
                spawn_failure("sass"@, cause),
                StageView::StoppingBar,
            ),
            _ => s,
        },
        StageView::StoppingBar => match event {
            EventView::Text(_) => at(s, StageView::StartingBar),
            EventView::Failed(cause) => warned(
                s,
                spawn_failure("pkill"@, cause),
                StageView::StartingBar,
            ),
            _ => s,
        },
        StageView::StartingBar => match event {
            EventView::Done => at(s, StageView::ListingWallpapers),
            EventView::Failed(cause) => warned(
                s,
                spawn_failure("nohup"@, cause),
                StageView::ListingWallpapers,
            ),
            _ => s,
        },
        StageView::ListingWallpapers => match event {
            EventView::Files(files) => if images(files).len() == 0 {
                failed(s, ThemeErrorView::NoImagesFound)
            } else {
                match choice {
                    Some(path) => at(
                        s,
                        StageView::SettingWallpaper {
                            retry: fresh(
                                "hyprctl"@,
                                wallpaper_args(s.flavor, path),
                                wallpaper_rule(s.flavor),
                            ),
                        },
                    ),
                    None => failed(s, ThemeErrorView::NoImagesFound),
                }
            },
            EventView::Failed(cause) => failed(s, io_failure(wallpaper_dir(s.home), cause)),
            _ => s,
        },
        StageView::SettingWallpaper { retry } => match verdict(answered(retry, event)) {
            None => at(s, StageView::SettingWallpaper { retry: answered(retry, event) }),
            Some(Ok(())) => at(s, StageView::Done),
            Some(Err(error)) => failed(s, error),
        },
    }
}

/// Whether `choice` is a fair pick for the answer `event` to the switch
/// `s`: one of the images listed, where the switch has asked for the
/// wallpapers and there is an image among them; and none otherwise.
pub open spec fn fair(s: SwitchView, event: EventView, choice: Option<Seq<char>>) -> bool {
    if s.stage is ListingWallpapers && event is Files && images(event->Files_0).len() > 0 {
        choice is Some && images(event->Files_0).contains(choice->Some_0)
    } else {
        choice is None
    }
}

/// How the switch has ended, if it has.
pub open spec fn result_of(s: SwitchView) -> Option<Result<(), ThemeErrorView>> {
    match s.stage {
        StageView::Done => Some(Ok(())),
        StageView::Failed { error } => Some(Err(error)),
        _ => None,
    }
}

/// What an optional text holds, as a sequence of characters.
pub open spec fn text_of(text: Option<&str>) -> Option<Seq<char>> {
    match text {
        Some(t) => Some(t@),
        None => None,
    }
}

/// The list of one text.
fn list_of_one(a: &str) -> (v: Vec<String>)
    ensures
        v.deep_view() == seq![a@],
{
    let v = vec![String::from_str(a)];
    v
}

/// The list of three texts.
fn list_of_three(a: &str, b: &str, c: &str) -> (v: Vec<String>)
    ensures
        v.deep_view() == seq![a@, b@, c@],
{
    let v = vec![String::from_str(a), String::from_str(b), String::from_str(c)];
    v
}

/// The directory that holds the themes.
fn root_of(home: &str) -> (r: String)
    ensures
        r@ == root(home@),
{
    join_paths(home, THEMES_DIR)
}

/// The link to the current theme.
fn link_of(home: &str) -> (r: String)
    ensures
        r@ == current_link(home@),
{
    join_paths(root_of(home).as_str(), CURRENT_LINK)
}

impl Switch {
    /// A switch that has not begun.
    pub fn new(flavor: Flavor) -> (s: Switch)
        ensures
            s.deep_view() == idle(flavor),
    {
        let s = Switch {
            flavor,
            home: String::new(),
            theme_dir: String::new(),
            table: Vec::new(),
            styles: String::new(),
            terminal: String::new(),
            warnings: Vec::new(),
            stage: Stage::Idle,
        };
        assert(s.table.deep_view() =~= Seq::<(Seq<char>, Seq<char>)>::empty());
        assert(error_views(s.warnings@) =~= Seq::<ThemeErrorView>::empty());
        s
    }

    /// This switch at the step `stage`.
    fn at(self, stage: Stage) -> (r: Switch)
        ensures
            r.deep_view() == at(self.deep_view(), stage.deep_view()),
    {
        Switch { stage, ..self }
    }

    /// This switch, failed with `error`.
    fn fail(self, error: ThemeError) -> (r: Switch)
        ensures
            r.deep_view() == failed(self.deep_view(), error@),
    {
        Switch { stage: Stage::Failed { error }, ..self }
    }

    /// This switch at the step `stage`, with `error` noted.
    fn warn(self, error: ThemeError, stage: Stage) -> (r: Switch)
        ensures
            r.deep_view() == warned(self.deep_view(), error@, stage.deep_view()),
    {
        let mut warnings = self.warnings;
        let ghost before = error_views(warnings@);
        warnings.push(error);
        assert(error_views(warnings@) =~= before.push(error@));
        Switch {
            flavor: self.flavor,
            home: self.home,
            theme_dir: self.theme_dir,
            table: self.table,
            styles: self.styles,
            terminal: self.terminal,
            warnings,
            stage,
        }
    }

    /// This switch once its resolver has taken a file: see `resolved`.
    fn resolved(self, resolver: Resolver) -> (r: Switch)
        ensures
            r.deep_view() == resolved(self.deep_view(), resolver.deep_view()),
    {
        match resolver {
            Resolver::Reading { path, agenda, table } => self.at(
                Stage::Resolving { resolver: Resolver::Reading { path, agenda, table } },
            ),
            Resolver::Failed { error } => self.fail(error),
            Resolver::Resolved { table } => {
                let source = join_paths(self.theme_dir.as_str(), THEME_FILE);
                let styles = render_hypr_config(&table, source.as_str());
                let stage = match self.flavor {
                    Flavor::Command => Stage::CreatingStyleDir,
                    Flavor::Service => Stage::ReadingTemplate,
                };
                Switch {
                    flavor: self.flavor,
                    home: self.home,
                    theme_dir: self.theme_dir,
                    table,
                    styles,
                    terminal: self.terminal,
                    warnings: self.warnings,
                    stage,
                }
            },
        }
    }

    /// Asks an idle switch to switch to the theme in `theme_dir`; `home` is
    /// what the environment holds for the home directory. See `begun`.
    pub fn begin(self, home: Option<&str>, theme_dir: &str) -> (r: Switch)
        ensures
            r.deep_view() == begun(self.deep_view(), text_of(home), theme_dir@),
    {
        match self.stage {
            Stage::Idle => match home {
                None => Switch {
                    stage: Stage::Failed { error: ThemeError::MissingEnvironment },
                    ..self
                },
                Some(h) => {
                    let file = join_paths(theme_dir, THEME_FILE);
                    Switch {
                        flavor: self.flavor,
                        home: String::from_str(h),
                        theme_dir: String::from_str(theme_dir),
                        table: self.table,
                        styles: self.styles,
                        terminal: self.terminal,
                        warnings: self.warnings,
                        stage: Stage::Resolving { resolver: Resolver::start(file.as_str()) },
                    }
                },
            },
            _ => self,
        }
    }

    /// Asks an idle switch for a new wallpaper only. See `wallpaper_only`.
    pub fn begin_with_wallpaper(self, home: Option<&str>) -> (r: Switch)
        ensures
            r.deep_view() == wallpaper_only(self.deep_view(), text_of(home)),
    {
        match self.stage {
            Stage::Idle => match home {
                None => Switch {
                    stage: Stage::Failed { error: ThemeError::MissingEnvironment },
                    ..self
                },
                Some(h) => Switch {
                    flavor: self.flavor,
                    home: String::from_str(h),
                    theme_dir: self.theme_dir,
                    table: self.table,
                    styles: self.styles,
                    terminal: self.terminal,
                    warnings: self.warnings,
                    stage: Stage::ListingWallpapers,
                },
            },
            _ => self,
        }
    }

    /// The phase the switch is in.
    pub fn phase(&self) -> (p: Phase)
        ensures
            p == phase_of(self.deep_view().stage),
    {
        match &self.stage {
            Stage::Idle => Phase::Idle,
            Stage::Resolving { .. } => Phase::ResolvingVariables,
            Stage::ReadingTemplate => Phase::RenderingConfigs,
            Stage::CreatingStyleDir | Stage::WritingStyles | Stage::WritingTerminalTheme =>
                Phase::WritingFiles,
            Stage::CheckingLink | Stage::RemovingLink | Stage::CreatingLink =>
                Phase::UpdatingSymlink,
            Stage::ReloadingTerminal
            | Stage::CompilingBarStyles
            | Stage::StoppingBar
            | Stage::StartingBar
            | Stage::ListingWallpapers
            | Stage::SettingWallpaper { .. } => Phase::ReloadingConsumers,
            Stage::Done => Phase::Done,
            Stage::Failed { .. } => Phase::Failed,
        }
    }

    /// Whether a failure of the action now asked for would end the switch:
    /// see `fatal`.
    pub fn failure_is_fatal(&self) -> (b: bool)
        ensures
            b == fatal(self.deep_view().stage),
    {
        match &self.stage {
            Stage::ReloadingTerminal
            | Stage::CompilingBarStyles
            | Stage::StoppingBar
            | Stage::StartingBar
            | Stage::SettingWallpaper { .. } => false,
            _ => true,
        }
    }

    /// How the switch has ended, if it has: see `result_of`.
    pub fn outcome(&self) -> (r: Option<Result<(), &ThemeError>>)
        ensures
            match result_of(self.deep_view()) {
                None => r is None,
                Some(Ok(())) => r matches Some(Ok(())),
                Some(Err(error)) => r matches Some(Err(e)) && e@ == error,
            },
    {
        match &self.stage {
            Stage::Done => Some(Ok(())),
            Stage::Failed { error } => Some(Err(error)),
            _ => None,
        }
    }

    /// What the host is to do next, if anything: see `requested`.
    pub fn action(&self) -> (a: Option<Action>)
        ensures
            a.deep_view() == requested(self.deep_view()),
    {
        let home = self.home.as_str();
        match &self.stage {
            Stage::Idle | Stage::Done | Stage::Failed { .. } => None,
            Stage::Resolving { resolver } => match resolver.pending() {
                Some(path) => Some(Action::ReadFile { path: path.clone() }),
                None => None,
            },
            Stage::ReadingTemplate => Some(
                Action::ReadFile { path: join_paths(home, TEMPLATE_FILE) },
            ),
            Stage::CreatingStyleDir => Some(
                Action::CreateDirAll { path: parent_of(join_paths(home, STYLE_FILE).as_str()) },
            ),
            Stage::WritingStyles => Some(
                Action::WriteFile {
                    path: join_paths(home, STYLE_FILE),
                    content: self.styles.clone(),
                },
            ),
            Stage::WritingTerminalTheme => Some(
                Action::WriteFile {
                    path: join_paths(home, TERMINAL_FILE),
                    content: self.terminal.clone(),
                },
            ),
            Stage::CheckingLink => Some(Action::PathExists { path: link_of(home) }),
            Stage::RemovingLink => Some(Action::RemoveFile { path: link_of(home) }),
            Stage::CreatingLink => Some(
                Action::Run {
                    program: String::from_str("ln"),
                    args: list_of_three("-s", self.theme_dir.as_str(), link_of(home).as_str()),
                },
            ),
            Stage::ReloadingTerminal => Some(
                Action::Spawn {
                    program: String::from_str("kitty"),
                    args: list_of_three("@", "--no-response", "load-config"),
                    detached_input: true,
                },
            ),
            Stage::CompilingBarStyles => Some(
                Action::Run {
                    program: String::from_str("sass"),
                    args: list_of_three(
                        "--no-source-map",
                        join_paths(root_of(home).as_str(), BAR_SOURCE).as_str(),
                        join_paths(home, BAR_TARGET).as_str(),
                    ),
                },
            ),
            Stage::StoppingBar => Some(
                Action::Run { program: String::from_str("pkill"), args: list_of_one("waybar") },
            ),
            Stage::StartingBar => Some(
                Action::Spawn {
                    program: String::from_str("nohup"),
                    args: list_of_one("waybar"),
                    detached_input: match self.flavor {
                        Flavor::Command => false,
                        Flavor::Service => true,
                    },
                },
            ),
            Stage::ListingWallpapers => Some(
                Action::ListFiles { dir: join_paths(root_of(home).as_str(), WALLPAPER_DIR) },
            ),
            Stage::SettingWallpaper { retry } => retry.action(),
        }
    }

    /// Takes the host's answer to the action asked for, and the wallpaper
    /// picked where the answer lists the wallpapers: see `advanced`.
    pub fn advance_with(self, event: Event, choice: Option<String>) -> (r: Switch)
        ensures
            r.deep_view() == advanced(self.deep_view(), event.deep_view(), choice.deep_view()),
    {
        proof {
            reveal(advanced);
        }
        let Switch { flavor, home, theme_dir, table, styles, terminal, warnings, stage } = self;
        let rest = Switch {
            flavor,
            home,
            theme_dir,
            table,
            styles,
            terminal,
            warnings,
            stage: Stage::Idle,
        };
        match stage {
            Stage::Idle => rest,
            Stage::Done => rest.at(Stage::Done),
            Stage::Failed { error } => rest.fail(error),
            Stage::Resolving { resolver } => match event {
                Event::Text(content) => rest.resolved(resolver.supply(Ok(content))),
                Event::Failed(cause) => rest.resolved(resolver.supply(Err(cause))),
                _ => rest.at(Stage::Resolving { resolver }),
            },
            Stage::ReadingTemplate => match event {
                Event::Text(template) => {
                    let source = join_paths(rest.theme_dir.as_str(), THEME_FILE);
                    match render_kitty_config(&rest.table, source.as_str(), template.as_str()) {
                        Ok(text) => Switch {
                            flavor: rest.flavor,
                            home: rest.home,
                            theme_dir: rest.theme_dir,
                            table: rest.table,
                            styles: rest.styles,
                            terminal: text,
                            warnings: rest.warnings,
                            stage: Stage::CreatingStyleDir,
                        },
                        Err(error) => rest.fail(error),
                    }
                },
                Event::Failed(cause) => {
                    let path = join_paths(rest.home.as_str(), TEMPLATE_FILE);
                    rest.fail(ThemeError::IoError { path, cause })
                },
                _ => rest.at(Stage::ReadingTemplate),
            },
            Stage::CreatingStyleDir => match event {
                Event::Done => rest.at(Stage::WritingStyles),
                Event::Failed(cause) => {
                    let path = parent_of(join_paths(rest.home.as_str(), STYLE_FILE).as_str());
                    rest.fail(ThemeError::IoError { path, cause })
                },
                _ => rest.at(Stage::CreatingStyleDir),
            },
            Stage::WritingStyles => match event {
                Event::Done => {
                    let next = match rest.flavor {
                        Flavor::Command => Stage::CheckingLink,
                        Flavor::Service => Stage::WritingTerminalTheme,
                    };
                    rest.at(next)
                },
                Event::Failed(cause) => {
                    let path = join_paths(rest.home.as_str(), STYLE_FILE);
                    rest.fail(ThemeError::IoError { path, cause })
                },
                _ => rest.at(Stage::WritingStyles),
            },
            Stage::WritingTerminalTheme => match event {
                Event::Done => rest.at(Stage::CheckingLink),
                Event::Failed(cause) => {
                    let path = join_paths(rest.home.as_str(), TERMINAL_FILE);
                    rest.fail(ThemeError::IoError { path, cause })
                },
                _ => rest.at(Stage::WritingTerminalTheme),
            },
            Stage::CheckingLink => match event {
                Event::Exists(true) => rest.at(Stage::RemovingLink),
                Event::Exists(false) => rest.at(Stage::CreatingLink),
                Event::Failed(cause) => {
                    let path = link_of(rest.home.as_str());
                    rest.fail(ThemeError::IoError { path, cause })
                },
                _ => rest.at(Stage::CheckingLink),
            },
            Stage::RemovingLink => match event {
                Event::Done => rest.at(Stage::CreatingLink),
                Event::Failed(cause) => rest.fail(ThemeError::SymlinkRemovalFailed { cause }),
                _ => rest.at(Stage::RemovingLink),
            },
            Stage::CreatingLink => match event {
                Event::Text(_) => {
                    let next = match rest.flavor {
                        Flavor::Command => Stage::CompilingBarStyles,
                        Flavor::Service => Stage::ReloadingTerminal,
                    };
                    rest.at(next)
                },
                Event::Failed(cause) => rest.fail(
                    ThemeError::ProcessSpawnFailed { program: String::from_str("ln"), cause },
                ),
                _ => rest.at(Stage::CreatingLink),
            },
            Stage::ReloadingTerminal => match event {
                Event::Done => rest.at(Stage::CompilingBarStyles),
                Event::Failed(cause) => rest.warn(
                    ThemeError::ProcessSpawnFailed { program: String::from_str("kitty"), cause },
                    Stage::CompilingBarStyles,
                ),
                _ => rest.at(Stage::ReloadingTerminal),
            },
            Stage::CompilingBarStyles => match event {
                Event::Text(_) => rest.at(Stage::StoppingBar),
                Event::Failed(cause) => rest.warn(
                    ThemeError::ProcessSpawnFailed { program: String::from_str("sass"), cause },
                    Stage::StoppingBar,
                ),
                _ => rest.at(Stage::CompilingBarStyles),
            },
            Stage::StoppingBar => match event {
                Event::Text(_) => rest.at(Stage::StartingBar),
                Event::Failed(cause) => rest.warn(
                    ThemeError::ProcessSpawnFailed { program: String::from_str("pkill"), cause },
                    Stage::StartingBar,
                ),
                _ => rest.at(Stage::StoppingBar),
            },
            Stage::StartingBar => match event {
                Event::Done => rest.at(Stage::ListingWallpapers),
                Event::Failed(cause) => rest.warn(
                    ThemeError::ProcessSpawnFailed { program: String::from_str("nohup"), cause },
                    Stage::ListingWallpapers,
                ),
                _ => rest.at(Stage::StartingBar),
            },
            Stage::ListingWallpapers => match event {
                Event::Files(files) => {
                    if image_files(&files).len() == 0 {
                        return rest.fail(ThemeError::NoImagesFound);
                    }
                    match choice {
                        Some(path) => {
                            let verb = match rest.flavor {
                                Flavor::Command => "reload",
                                Flavor::Service => "wallpaper",
                            };
                            let rule = match rest.flavor {
                                Flavor::Command => Acceptance::SaysOk,
                                Flavor::Service => Acceptance::SaysNothing,
                            };
                            let mut target = String::from_str(",");
                            target.append(path.as_str());
                            assert(target@ =~= seq![','] + path@) by {
                                reveal_strlit(",");
                            }
                            let retry = invoke_with_retry(
                                String::from_str("hyprctl"),
                                list_of_three("hyprpaper", verb, target.as_str()),
                                rule,
                            );
                            rest.at(Stage::SettingWallpaper { retry })
                        },
                        None => rest.fail(ThemeError::NoImagesFound),
                    }
                },
                Event::Failed(cause) => {
                    let path = join_paths(root_of(rest.home.as_str()).as_str(), WALLPAPER_DIR);
                    rest.fail(ThemeError::IoError { path, cause })
                },
                _ => rest.at(Stage::ListingWallpapers),
            },
            Stage::SettingWallpaper { retry } => {
                let retry = retry.advance(event);
                match retry.outcome() {
                    None => rest.at(Stage::SettingWallpaper { retry }),
                    Some(Ok(())) => rest.at(Stage::Done),
                    Some(Err(error)) => rest.fail(error),
                }
            },
        }
    }

    /// Takes the host's answer to the action asked for. Where the answer
    /// lists the wallpapers, one of the images among them is picked at
    /// random. Whatever is picked, the switch goes on as `advanced` says for
    /// a fair pick.
    pub fn advance(self, event: Event) -> (r: Switch)
        ensures
            exists|choice: Option<Seq<char>>|
                fair(self.deep_view(), event.deep_view(), choice) && r.deep_view() == advanced(
                    self.deep_view(),
                    event.deep_view(),
                    choice,
                ),
    {
        let choice = match (&self.stage, &event) {
            (Stage::ListingWallpapers, Event::Files(files)) => match choose_wallpaper(files) {
                Ok(path) => Some(path),
                Err(_) => None,
            },
            _ => None,
        };
        self.advance_with(event, choice)
    }
}

/// The place of a phase in the order of the phases.
pub open spec fn rank(phase: Phase) -> nat {
    match phase {
        Phase::Idle => 0,
        Phase::ResolvingVariables => 1,
        Phase::RenderingConfigs => 2,
        Phase::WritingFiles => 3,
        Phase::UpdatingSymlink => 4,
        Phase::ReloadingConsumers => 5,
        Phase::Done => 6,
        Phase::Failed => 7,
    }
}

/// A switch never goes back to an earlier phase, whatever the host answers.
pub proof fn law_phases_in_order(s: SwitchView, event: EventView, choice: Option<Seq<char>>)
    ensures
        rank(phase_of(s.stage)) <= rank(phase_of(advanced(s, event, choice).stage)),
{
    reveal(advanced);
}

/// A switch that has ended asks for nothing and stays as it is, whatever
/// it is told.
pub proof fn law_ended_switch_stays(s: SwitchView, event: EventView, choice: Option<Seq<char>>)
    requires
        result_of(s) is Some,
    ensures
        requested(s) is None,
        advanced(s, event, choice) == s,
{
    reveal(advanced);
}

/// Whether a failure of the action asked for at a step ends the switch.
/// It does at every step but the reloads: a program that cannot be started
/// is passed over, and the wallpaper command is tried again.
pub open spec fn fatal(stage: StageView) -> bool {
    !(stage is ReloadingTerminal || stage is CompilingBarStyles || stage is StoppingBar
        || stage is StartingBar || stage is SettingWallpaper)
}

/// Where a failure is fatal, an action that the host could not carry out
/// ends the switch in failure; and a failure is fatal at every step up to
/// and including the update of the link. A link that cannot be removed ends
/// the switch in `SymlinkRemovalFailed`.
pub proof fn law_fatal_failure_ends_the_switch(
    s: SwitchView,
    cause: Seq<char>,
    choice: Option<Seq<char>>,
)
    requires
        requested(s) is Some,
    ensures
        rank(phase_of(s.stage)) <= rank(Phase::UpdatingSymlink) ==> fatal(s.stage),
        fatal(s.stage) ==> result_of(advanced(s, EventView::Failed(cause), choice)) matches Some(
            Err(_),
        ),
        !fatal(s.stage) ==> result_of(advanced(s, EventView::Failed(cause), choice)) is None,
        s.stage is RemovingLink ==> advanced(s, EventView::Failed(cause), choice).stage == (
        StageView::Failed { error: ThemeErrorView::SymlinkRemovalFailed { cause } }),
{
    reveal(advanced);
}

/// Whether the step reloads a program by starting another.
pub open spec fn starts_a_reload(stage: StageView) -> bool {
    stage is ReloadingTerminal || stage is CompilingBarStyles || stage is StoppingBar
        || stage is StartingBar
}

/// The step that follows a reload, whether or not its program started.
pub open spec fn after_reload(stage: StageView) -> StageView {
    match stage {
        StageView::ReloadingTerminal => StageView::CompilingBarStyles,
        StageView::CompilingBarStyles => StageView::StoppingBar,
        StageView::StoppingBar => StageView::StartingBar,
        _ => StageView::ListingWallpapers,
    }
}

/// A reload whose program could not be started does not end the switch: the
/// failure is noted, nothing else changes, and the switch goes on to the
/// step that it would have gone on to had the program started.
pub proof fn law_failed_reload_is_noted(s: SwitchView, cause: Seq<char>, choice: Option<Seq<char>>)
    requires
        starts_a_reload(s.stage),
    ensures
        ({
            let next = advanced(s, EventView::Failed(cause), choice);
            &&& result_of(next) is None
            &&& next.stage == after_reload(s.stage)
            &&& next.warnings.len() == s.warnings.len() + 1
            &&& next.warnings.last() is ProcessSpawnFailed
            &&& next.warnings.last()->ProcessSpawnFailed_cause == cause
            &&& next == SwitchView { stage: next.stage, warnings: next.warnings, ..s }
        }),
        advanced(s, EventView::Done, choice).stage == after_reload(s.stage) || advanced(
            s,
            EventView::Text(seq![]),
            choice,
        ).stage == after_reload(s.stage),
{
    reveal(advanced);
}

/// The file that the switch asks the host to write, if it asks for one:
/// its path and its text.
pub open spec fn written(s: SwitchView) -> Option<(Seq<char>, Seq<char>)> {
    match requested(s) {
        Some(ActionView::WriteFile { path, content }) => Some((path, content)),
        _ => None,
    }
}

/// The switch `s` after the answers `events`, each taken with the pick of
/// the same index.
pub open spec fn run(s: SwitchView, events: Seq<EventView>, picks: Seq<Option<Seq<char>>>)
    -> SwitchView
    decreases events.len(),
{
    if events.len() == 0 {
        s
    } else {
        advanced(run(s, events.drop_last(), picks.drop_last()), events.last(), picks.last())
    }
}

/// The files that the switch asks the host to write while it takes the
/// answers `events`, one entry for each answer: what is asked for once the
/// answer is taken.
pub open spec fn writes(s: SwitchView, events: Seq<EventView>, picks: Seq<Option<Seq<char>>>)
    -> Seq<Option<(Seq<char>, Seq<char>)>>
    decreases events.len(),
{
    if events.len() == 0 {
        seq![]
    } else {
        writes(s, events.drop_last(), picks.drop_last()).push(written(run(s, events, picks)))
    }
}

/// Whether the wallpaper is all that is left of the switch.
pub open spec fn past_the_pick(s: SwitchView) -> bool {
    s.stage is SettingWallpaper || s.stage is Done || s.stage is Failed
}

/// The pick matters to one step only, and what follows that step is the
/// wallpaper alone.
proof fn lemma_pick_matters_late(
    s: SwitchView,
    event: EventView,
    first: Option<Seq<char>>,
    second: Option<Seq<char>>,
)
    ensures
        advanced(s, event, first) == advanced(s, event, second) || (past_the_pick(
            advanced(s, event, first),
        ) && past_the_pick(advanced(s, event, second))),
{
    reveal(advanced);
}

/// Once the wallpaper is all that is left, it stays so, and no file is
/// asked to be written.
proof fn lemma_past_the_pick(s: SwitchView, event: EventView, choice: Option<Seq<char>>)
    requires
        past_the_pick(s),
    ensures
        past_the_pick(advanced(s, event, choice)),
        written(s) is None,
{
    reveal(advanced);
}

proof fn lemma_runs_differ_past_the_pick(
    s: SwitchView,
    events: Seq<EventView>,
    first: Seq<Option<Seq<char>>>,
    second: Seq<Option<Seq<char>>>,
)
    requires
        first.len() == events.len(),
        second.len() == events.len(),
    ensures
        run(s, events, first) == run(s, events, second) || (past_the_pick(run(s, events, first))
            && past_the_pick(run(s, events, second))),
        writes(s, events, first) == writes(s, events, second),
    decreases events.len(),
{
    if events.len() > 0 {
        let a = run(s, events.drop_last(), first.drop_last());
        let b = run(s, events.drop_last(), second.drop_last());
        lemma_runs_differ_past_the_pick(
            s,
            events.drop_last(),
            first.drop_last(),
            second.drop_last(),
        );
        if a == b {
            lemma_pick_matters_late(a, events.last(), first.last(), second.last());
        } else {
            lemma_past_the_pick(a, events.last(), first.last());
            lemma_past_the_pick(b, events.last(), second.last());
        }
        let x = run(s, events, first);
        let y = run(s, events, second);
        if x != y {
            lemma_past_the_pick(x, events.last(), first.last());
            lemma_past_the_pick(y, events.last(), second.last());
        }
    }
}

/// What a switch writes does not depend on the wallpaper that is picked:
/// two switches that begin alike and are given the same answers ask for the
/// same files to be written, with the same text, whatever is picked for
/// either. Given the same files to read, a switch run again writes the same
/// bytes again.
pub proof fn law_same_answers_same_files(
    s: SwitchView,
    events: Seq<EventView>,
    first: Seq<Option<Seq<char>>>,
    second: Seq<Option<Seq<char>>>,
)
    requires
        first.len() == events.len(),
        second.len() == events.len(),
    ensures
        writes(s, events, first) == writes(s, events, second),
{
    lemma_runs_differ_past_the_pick(s, events, first, second);
}

/// What is written is what was rendered from the table: the style-variables
/// file holds one line for each variable resolved, under a header that
/// names the theme's file.
pub proof fn law_styles_are_rendered_from_the_table(
    s: SwitchView,
    content: Seq<char>,
    choice: Option<Seq<char>>,
)
    requires
        s.stage is Resolving,
        advanced(s, EventView::Text(content), choice).stage is CreatingStyleDir
            || advanced(s, EventView::Text(content), choice).stage is ReadingTemplate,
    ensures
        ({
            let next = advanced(s, EventView::Text(content), choice);
            &&& supplied(s.stage->Resolving_resolver, Ok(content)) == (ResolverView::Resolved {
                table: next.table,
            })
            &&& next.styles == style_variables(next.table, theme_file(s.theme_dir))
        }),
{
    reveal(advanced);
}

/// The link to the current theme is made on a free path only: the switch
/// comes to make it once the host has found nothing at its path, or has
/// removed what was there.
pub proof fn law_link_is_made_on_a_free_path(
    s: SwitchView,
    event: EventView,
    choice: Option<Seq<char>>,
)
    requires
        !(s.stage is CreatingLink),
        advanced(s, event, choice).stage is CreatingLink,
    ensures
        (s.stage is CheckingLink && event == EventView::Exists(false)) || (s.stage is RemovingLink
            && event == EventView::Done),
{
    reveal(advanced);
}

/// Nothing is written before everything is rendered, and a rendering that
/// fails writes nothing: up to the end of rendering no file is asked to be
/// written, and a template that cannot be rendered ends the switch with the
/// failure of its rendering.
pub proof fn law_failed_rendering_writes_nothing(
    s: SwitchView,
    template: Seq<char>,
    choice: Option<Seq<char>>,
)
    ensures
        rank(phase_of(s.stage)) <= rank(Phase::RenderingConfigs) ==> written(s) is None,
        s.stage is ReadingTemplate ==> match terminal_theme(
            s.table,
            theme_file(s.theme_dir),
            template,
        ) {
            Ok(text) => advanced(s, EventView::Text(template), choice) == (SwitchView {
                terminal: text,
                stage: StageView::CreatingStyleDir,
                ..s
            }),
            Err(error) => advanced(s, EventView::Text(template), choice) == failed(s, error),
        },
{
    reveal(advanced);
}

/// A switch is done through the wallpaper only: it comes to be done when,
/// and only when, the wallpaper command gives an output that is accepted.
pub proof fn law_done_through_the_wallpaper(
    s: SwitchView,
    event: EventView,
    choice: Option<Seq<char>>,
)
    requires
        !(s.stage is Done),
    ensures
        advanced(s, event, choice).stage is Done <==> s.stage is SettingWallpaper && verdict(
            answered(s.stage->SettingWallpaper_retry, event),
        ) == Some(Ok::<(), ThemeErrorView>(())),
{
    reveal(advanced);
}

} // verus!

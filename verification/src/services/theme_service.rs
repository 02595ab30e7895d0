//! The pipeline of the picker: a theme is given by the path of its
//! directory, and the terminal's theme is written as well.

use crate::models::theme::{sorted_by_name, Theme};
use crate::services::switch::{begun, idle, text_of, wallpaper_only, Flavor, Switch};
use vstd::prelude::*;

verus! {

/// The picker's way into the pipeline.
pub struct ThemeService;

impl ThemeService {
    /// Begins the switch to the theme in `theme_directory_path`; `home` is
    /// what the environment holds for the home directory. The switch
    /// returned is to be driven: carry out its `action`, hand the answer to
    /// `advance`, until it has an `outcome`.
    pub fn set_current_theme(home: Option<&str>, theme_directory_path: &str) -> (s: Switch)
        ensures
            s.deep_view() == begun(idle(Flavor::Service), text_of(home), theme_directory_path@),
    {
        Switch::new(Flavor::Service).begin(home, theme_directory_path)
    }

    /// The themes to choose from, given those found on disk: the same
    /// themes sorted by name, themes of one name in the order they were
    /// found in.
    pub fn get_available_themes(found: Vec<Theme>) -> (themes: Vec<Theme>)
        ensures
            exists|origin: Seq<int>| sorted_by_name(found.deep_view(), themes.deep_view(), origin),
    {
        Theme::sort_by_name(found)
    }

    /// Begins the choice and the setting of a wallpaper alone, from the
    /// wallpapers of the current theme.
    pub fn change_wallpaper(home: Option<&str>) -> (s: Switch)
        ensures
            s.deep_view() == wallpaper_only(idle(Flavor::Service), text_of(home)),
    {
        Switch::new(Flavor::Service).begin_with_wallpaper(home)
    }
}

} // verus!

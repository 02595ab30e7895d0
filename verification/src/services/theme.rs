//! The pipeline of the command line: a theme is named by its directory
//! below the themes.

use crate::error::{ThemeError, ThemeErrorView};
use crate::services::switch::{
    begun, failed, idle, root, text_of, wallpaper_only, Flavor, Switch, SwitchView,
};
use crate::utils::paths::{join, join_paths, THEMES_DIR};
use vstd::prelude::*;

verus! {

/// The switch to the theme named `name`, as the command line begins it:
/// failed with `MissingEnvironment` where no home directory is known, else
/// in need of the variable-definition file of the theme's directory, which
/// is `name` below the themes.
pub open spec fn named_switch(home: Option<Seq<char>>, name: Seq<char>) -> SwitchView {
    match home {
        None => failed(idle(Flavor::Command), ThemeErrorView::MissingEnvironment),
        Some(h) => begun(idle(Flavor::Command), home, join(root(h), name)),
    }
}

/// The directory that holds the themes, `.local/share/norlyk-themes` below
/// the home directory. `MissingEnvironment` exactly when the environment
/// holds no home directory.
pub fn get_root_path(home: Option<&str>) -> (r: Result<String, ThemeError>)
    ensures
        match home {
            Some(h) => r is Ok && r->Ok_0@ == root(h@),
            None => r is Err && r->Err_0@ == ThemeErrorView::MissingEnvironment,
        },
{
    match home {
        Some(h) => Ok(join_paths(h, THEMES_DIR)),
        None => Err(ThemeError::MissingEnvironment),
    }
}

/// Begins the switch to the theme in the directory `theme_dir_name` below
/// the themes; `home` is what the environment holds for the home directory.
/// The switch returned is to be driven: carry out its `action`, hand the
/// answer to `advance`, until it has an `outcome`.
pub fn set_theme(home: Option<&str>, theme_dir_name: &str) -> (s: Switch)
    ensures
        s.deep_view() == named_switch(text_of(home), theme_dir_name@),
{
    match get_root_path(home) {
        Ok(root) => Switch::new(Flavor::Command).begin(
            home,
            join_paths(root.as_str(), theme_dir_name).as_str(),
        ),
        Err(_) => Switch::new(Flavor::Command).begin(None, theme_dir_name),
    }
}

/// Begins the choice and the reload of a wallpaper alone, from the
/// wallpapers of the current theme.
pub fn change_wallpaper(home: Option<&str>) -> (s: Switch)
    ensures
        s.deep_view() == wallpaper_only(idle(Flavor::Command), text_of(home)),
{
    Switch::new(Flavor::Command).begin_with_wallpaper(home)
}

} // verus!

//! The ways in which compiling or switching a theme can fail.

use vstd::prelude::*;
use vstd::string::StringExecFns;

verus! {

/// A failure, tagged by kind and carrying the context it arose in.
#[derive(Debug, PartialEq, Eq)]
pub enum ThemeError {
    /// A file or directory could not be read, written, created or listed.
    IoError { path: String, cause: String },
    /// The variable that locates the user's home directory is not set.
    MissingEnvironment,
    /// A variable-definition file, imports included, defines no variable.
    NoVariablesFound,
    /// A text is no colour in channel-tuple notation.
    InvalidColorFormat { text: String },
    /// A placeholder names a variable whose value is no colour.
    ColorConversionFailed { variable: String, value: String },
    /// The link to the current theme could not be removed.
    SymlinkRemovalFailed { cause: String },
    /// An external program could not be started.
    ProcessSpawnFailed { program: String, cause: String },
    /// The wallpaper directory holds no image.
    NoImagesFound,
    /// Every attempt to reload the wallpaper failed; `last` is what the last
    /// attempt produced.
    ExhaustedRetries { last: String },
}

/// What a `ThemeError` says, over sequences of characters.
pub enum ThemeErrorView {
    IoError { path: Seq<char>, cause: Seq<char> },
    MissingEnvironment,
    NoVariablesFound,
    InvalidColorFormat { text: Seq<char> },
    ColorConversionFailed { variable: Seq<char>, value: Seq<char> },
    SymlinkRemovalFailed { cause: Seq<char> },
    ProcessSpawnFailed { program: Seq<char>, cause: Seq<char> },
    NoImagesFound,
    ExhaustedRetries { last: Seq<char> },
}

impl View for ThemeError {
    type V = ThemeErrorView;

    open spec fn view(&self) -> ThemeErrorView {
        match *self {
            ThemeError::IoError { path, cause } => ThemeErrorView::IoError {
                path: path@,
                cause: cause@,
            },
            ThemeError::MissingEnvironment => ThemeErrorView::MissingEnvironment,
            ThemeError::NoVariablesFound => ThemeErrorView::NoVariablesFound,
            ThemeError::InvalidColorFormat { text } => ThemeErrorView::InvalidColorFormat {
                text: text@,
            },
            ThemeError::ColorConversionFailed {
                variable,
                value,
            } => ThemeErrorView::ColorConversionFailed { variable: variable@, value: value@ },
            ThemeError::SymlinkRemovalFailed { cause } => ThemeErrorView::SymlinkRemovalFailed {
                cause: cause@,
            },
            ThemeError::ProcessSpawnFailed { program, cause } => ThemeErrorView::ProcessSpawnFailed {
                program: program@,
                cause: cause@,
            },
            ThemeError::NoImagesFound => ThemeErrorView::NoImagesFound,
            ThemeError::ExhaustedRetries { last } => ThemeErrorView::ExhaustedRetries {
                last: last@,
            },
        }
    }
}

impl ThemeErrorView {
    /// The one-line message shown to the user.
    pub open spec fn message(self) -> Seq<char> {
        match self {
            ThemeErrorView::IoError { path, cause } => "Could not access "@ + path + ": "@ + cause,
            ThemeErrorView::MissingEnvironment => "Could not get home dir"@,
            ThemeErrorView::NoVariablesFound => "No SCSS variables found"@,
            ThemeErrorView::InvalidColorFormat { text } => "Invalid string: "@ + text,
            ThemeErrorView::ColorConversionFailed { variable, value } => "Invalid colour for "@
                + variable + ": "@ + value,
            ThemeErrorView::SymlinkRemovalFailed { cause } =>
                "Failed to remove current theme dir: "@ + cause,
            ThemeErrorView::ProcessSpawnFailed { program, cause } => "Failed to run "@ + program
                + ": "@ + cause,
            ThemeErrorView::NoImagesFound => "No image files found in theme directory"@,
            ThemeErrorView::ExhaustedRetries { last } => "Failed to set wallpaper: "@ + last,
        }
    }
}

impl ThemeError {
    /// The one-line message shown to the user.
    pub fn message(&self) -> (s: String)
        ensures
            s@ == self@.message(),
    {
        match self {
            ThemeError::IoError { path, cause } => {
                let mut s = String::from_str("Could not access ");
                s.append(path.as_str());
                s.append(": ");
                s.append(cause.as_str());
                s
            },
            ThemeError::MissingEnvironment => String::from_str("Could not get home dir"),
            ThemeError::NoVariablesFound => String::from_str("No SCSS variables found"),
            ThemeError::InvalidColorFormat { text } => {
                let mut s = String::from_str("Invalid string: ");
                s.append(text.as_str());
                s
            },
            ThemeError::ColorConversionFailed { variable, value } => {
                let mut s = String::from_str("Invalid colour for ");
                s.append(variable.as_str());
                s.append(": ");
                s.append(value.as_str());
                s
            },
            ThemeError::SymlinkRemovalFailed { cause } => {
                let mut s = String::from_str("Failed to remove current theme dir: ");
                s.append(cause.as_str());
                s
            },
            ThemeError::ProcessSpawnFailed { program, cause } => {
                let mut s = String::from_str("Failed to run ");
                s.append(program.as_str());
                s.append(": ");
                s.append(cause.as_str());
                s
            },
            ThemeError::NoImagesFound => String::from_str(
                "No image files found in theme directory",
            ),
            ThemeError::ExhaustedRetries { last } => {
                let mut s = String::from_str("Failed to set wallpaper: ");
                s.append(last.as_str());
                s
            },
        }
    }
}

} // verus!

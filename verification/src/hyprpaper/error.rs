//! Unexpected answers from hyprpaper.
use vstd::prelude::*;

verus! {

/// An unexpected response from interacting with hyprpaper.
#[derive(Debug, Clone, PartialEq, Eq)]
pub enum Error {
    /// The keyword was not executed correctly, for example by misformed input
    /// or a path that does not exist.
    NotOk(String),
    /// When we failed to parse the active wallpapers response from hyprpaper.
    FailedToParseActiveWallpapers(String),
    /// There are no active wallpapers when asking list the active ones.
    NoWallpapersActive,
    /// There are no loaded wallpapers when asking list the loaded ones.
    NoWallpapersLoaded,
}

/// The model of a hyprpaper error.
pub enum ErrorView {
    /// The keyword was not executed correctly.
    NotOk(Seq<char>),
    /// The active wallpapers response could not be read.
    FailedToParseActiveWallpapers(Seq<char>),
    /// No wallpapers are active.
    NoWallpapersActive,
    /// No wallpapers are loaded.
    NoWallpapersLoaded,
}

impl View for Error {
    type V = ErrorView;

    open spec fn view(&self) -> ErrorView {
        match self {
            Error::NotOk(s) => ErrorView::NotOk(s@),
            Error::FailedToParseActiveWallpapers(s) => ErrorView::FailedToParseActiveWallpapers(s@),
            Error::NoWallpapersActive => ErrorView::NoWallpapersActive,
            Error::NoWallpapersLoaded => ErrorView::NoWallpapersLoaded,
        }
    }
}

} // verus!

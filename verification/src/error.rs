//! The error type used throughout the library.
use vstd::prelude::*;

verus! {

/// Error that unifies different error types used by the library.
#[derive(Debug)]
pub enum HyprError {
    /// Dispatcher returned non `ok` value
    NotOkDispatch(String),
    /// Internal Hyprland error
    Internal(String),
    /// Error that occurs for other reasons. Avoid using this.
    Other(String),
    /// Hyprpaper answered something unexpected
    Hyprpaper(crate::hyprpaper::Error),
    /// The value given for an option is not accepted
    InvalidOptionValue,
    /// There is no option with this name
    InvalidOptionKey(String),
    /// The text is not a color Hyprland understands
    InvalidHyprColorFormat,
    /// The text is not a gradient Hyprland understands
    InvalidHyprGradiantFormat,
}

/// The model of an error.
pub enum HyprErrorView {
    /// Dispatcher returned non `ok` value
    NotOkDispatch(Seq<char>),
    /// Internal Hyprland error
    Internal(Seq<char>),
    /// Error that occurs for other reasons
    Other(Seq<char>),
    /// Hyprpaper answered something unexpected
    Hyprpaper(crate::hyprpaper::ErrorView),
    /// The value given for an option is not accepted
    InvalidOptionValue,
    /// There is no option with this name
    InvalidOptionKey(Seq<char>),
    /// The text is not a color Hyprland understands
    InvalidHyprColorFormat,
    /// The text is not a gradient Hyprland understands
    InvalidHyprGradiantFormat,
}

impl View for HyprError {
    type V = HyprErrorView;

    open spec fn view(&self) -> HyprErrorView {
        match self {
            HyprError::NotOkDispatch(s) => HyprErrorView::NotOkDispatch(s@),
            HyprError::Internal(s) => HyprErrorView::Internal(s@),
            HyprError::Other(s) => HyprErrorView::Other(s@),
            HyprError::Hyprpaper(e) => HyprErrorView::Hyprpaper(e@),
            HyprError::InvalidOptionValue => HyprErrorView::InvalidOptionValue,
            HyprError::InvalidOptionKey(s) => HyprErrorView::InvalidOptionKey(s@),
            HyprError::InvalidHyprColorFormat => HyprErrorView::InvalidHyprColorFormat,
            HyprError::InvalidHyprGradiantFormat => HyprErrorView::InvalidHyprGradiantFormat,
        }
    }
}

/// The model of a result that may fail with an error of this library.
pub open spec fn result_view<T>(r: Result<T, HyprError>) -> Result<T, HyprErrorView> {
    match r {
        Ok(v) => Ok(v),
        Err(e) => Err(e@),
    }
}

impl HyprError {
    /// The message of an `Internal` error.
    pub open spec fn internal_text(&self) -> Option<Seq<char>> {
        match self {
            HyprError::Internal(s) => Some(s@),
            _ => None,
        }
    }

    /// The message of an `Other` error.
    pub open spec fn other_text(&self) -> Option<Seq<char>> {
        match self {
            HyprError::Other(s) => Some(s@),
            _ => None,
        }
    }

    /// Try to get an owned version of the error: every error of the library
    /// holds only text, so a copy is always made.
    pub fn try_as_cloned(&self) -> (res: Result<HyprError, &HyprError>)
        ensures
            res matches Ok(e) && e@ == self@,
    {
        let e = match self {
            HyprError::NotOkDispatch(s) => HyprError::NotOkDispatch(s.clone()),
            HyprError::Internal(s) => HyprError::Internal(s.clone()),
            HyprError::Other(s) => HyprError::Other(s.clone()),
            HyprError::Hyprpaper(h) => HyprError::Hyprpaper(match h {
                crate::hyprpaper::Error::NotOk(s) => crate::hyprpaper::Error::NotOk(s.clone()),
                crate::hyprpaper::Error::FailedToParseActiveWallpapers(s) =>
                    crate::hyprpaper::Error::FailedToParseActiveWallpapers(s.clone()),
                crate::hyprpaper::Error::NoWallpapersActive => crate::hyprpaper::Error::NoWallpapersActive,
                crate::hyprpaper::Error::NoWallpapersLoaded => crate::hyprpaper::Error::NoWallpapersLoaded,
            }),
            HyprError::InvalidOptionValue => HyprError::InvalidOptionValue,
            HyprError::InvalidOptionKey(s) => HyprError::InvalidOptionKey(s.clone()),
            HyprError::InvalidHyprColorFormat => HyprError::InvalidHyprColorFormat,
            HyprError::InvalidHyprGradiantFormat => HyprError::InvalidHyprGradiantFormat,
        };
        Ok(e)
    }

    /// Create a Hyprland error with dynamic data.
    pub fn other(other: &str) -> (res: HyprError)
        ensures
            res.other_text() == Some(other@),
    {
        HyprError::Other(String::from_str(other))
    }
}

} // verus!

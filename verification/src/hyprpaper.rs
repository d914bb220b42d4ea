//! Commands for hyprpaper, the wallpaper utility, and the reading of its
//! answers.
use vstd::prelude::*;
use crate::error::{HyprError, HyprErrorView};
use crate::text::{chars_eq_str, chars_of, find_char_from, index_of, lemma_index_of, lines, lines_of, slice_of, string_of, trim, trim_chars, views};

pub mod error;
pub mod keyword;
pub use error::{Error, ErrorView};
pub use keyword::{ExpectedResponse, Keyword, Monitor, Preload, Reload, Unload, Wallpaper, WallpaperMode};

verus! {

/// A listing of an active wallpaper.
#[derive(Debug, PartialEq)]
pub struct WallpaperListing {
    /// The monitor that the wallpaper is active on, or `None` if no specific
    /// monitor.
    pub monitor: Option<String>,
    /// The active wallpaper.
    pub wallpaper_path: String,
}

/// The model of a wallpaper listing.
pub struct WallpaperListingView {
    pub monitor: Option<Seq<char>>,
    pub wallpaper_path: Seq<char>,
}

impl View for WallpaperListing {
    type V = WallpaperListingView;

    open spec fn view(&self) -> WallpaperListingView {
        WallpaperListingView {
            monitor: match self.monitor {
                Some(m) => Some(m@),
                None => None,
            },
            wallpaper_path: self.wallpaper_path@,
        }
    }
}

/// The listing one line of the active wallpapers answer gives: the
/// trimmed text before the first `=` names the monitor (none when it is
/// empty), the trimmed text after it is the path; a line without `=` is
/// refused with the line.
pub open spec fn listing_result(s: Seq<char>) -> Result<WallpaperListingView, HyprErrorView> {
    let i = index_of(s, '=');
    if i >= s.len() {
        Err(HyprErrorView::Hyprpaper(ErrorView::FailedToParseActiveWallpapers(s)))
    } else {
        let m = trim(s.take(i));
        Ok(WallpaperListingView {
            monitor: if m.len() == 0 { None } else { Some(m) },
            wallpaper_path: trim(s.skip(i + 1)),
        })
    }
}

/// The model of a listing result.
pub open spec fn listing_result_view(r: Result<WallpaperListing, HyprError>) -> Result<WallpaperListingView, HyprErrorView> {
    match r {
        Ok(l) => Ok(l@),
        Err(e) => Err(e@),
    }
}

impl WallpaperListing {
    /// Reads one line of the active wallpapers answer: `monitor = path`.
    pub fn try_from(s: &str) -> (res: Result<Self, HyprError>)
        ensures
            listing_result_view(res) == listing_result(s@),
    {
        let v = chars_of(s);
        let i = find_char_from(&v, 0, '=');
        proof {
            assert(v@.skip(0) =~= v@);
            lemma_index_of(v@, '=');
        }
        if i >= v.len() {
            return Err(HyprError::Hyprpaper(Error::FailedToParseActiveWallpapers(String::from_str(s))));
        }
        let before = slice_of(&v, 0, i);
        let after = slice_of(&v, i + 1, v.len());
        assert(before@ =~= v@.take(i as int));
        assert(after@ =~= v@.skip(i as int + 1));
        let m = trim_chars(&before);
        let monitor = if m.len() == 0 { None } else { Some(string_of(&m)) };
        let p = trim_chars(&after);
        Ok(WallpaperListing { monitor, wallpaper_path: string_of(&p) })
    }
}

/// Response from hyprpaper.
#[derive(Debug)]
pub enum Response {
    /// Keyword was accepted.
    Accepted,
    /// A list of active wallpapers.
    ActiveWallpapers(Vec<WallpaperListing>),
    /// A list of loaded wallpapers.
    LoadedWallpapers(Vec<String>),
}

/// The model of a response.
pub enum ResponseView {
    Accepted,
    ActiveWallpapers(Seq<WallpaperListingView>),
    LoadedWallpapers(Seq<Seq<char>>),
}

impl View for Response {
    type V = ResponseView;

    open spec fn view(&self) -> ResponseView {
        match self {
            Response::Accepted => ResponseView::Accepted,
            Response::ActiveWallpapers(v) => ResponseView::ActiveWallpapers(v@.map_values(|l: WallpaperListing| l@)),
            Response::LoadedWallpapers(v) => ResponseView::LoadedWallpapers(v@.map_values(|s: String| s@)),
        }
    }
}

/// The listings of the lines of an active wallpapers answer; the first
/// line that cannot be read gives the error.
pub open spec fn listings_result(ls: Seq<Seq<char>>) -> Result<Seq<WallpaperListingView>, HyprErrorView>
    decreases ls.len(),
{
    if ls.len() == 0 {
        Ok(Seq::empty())
    } else {
        match listings_result(ls.drop_last()) {
            Err(e) => Err(e),
            Ok(v) => match listing_result(ls.last()) {
                Ok(l) => Ok(v.push(l)),
                Err(e) => Err(e),
            },
        }
    }
}

/// What an answer from hyprpaper means for a keyword expecting it: `ok`
/// (surrounding whitespace aside) for a command, else the answer is the
/// error; for the lists, the fixed "none" answers are errors and any other
/// answer is read line by line.
pub open spec fn response_result(e: ExpectedResponse, r: Seq<char>) -> Result<ResponseView, HyprErrorView> {
    match e {
        ExpectedResponse::Accepted => if trim(r) == "ok"@ {
            Ok(ResponseView::Accepted)
        } else {
            Err(HyprErrorView::Hyprpaper(ErrorView::NotOk(r)))
        },
        ExpectedResponse::Active => if trim(r) == "no wallpapers active"@ {
            Err(HyprErrorView::Hyprpaper(ErrorView::NoWallpapersActive))
        } else {
            match listings_result(lines(r)) {
                Ok(v) => Ok(ResponseView::ActiveWallpapers(v)),
                Err(x) => Err(x),
            }
        },
        ExpectedResponse::Loaded => if trim(r) == "no wallpapers loaded"@ {
            Err(HyprErrorView::Hyprpaper(ErrorView::NoWallpapersLoaded))
        } else {
            Ok(ResponseView::LoadedWallpapers(lines(r)))
        },
    }
}

/// The model of a response result.
pub open spec fn response_result_view(r: Result<Response, HyprError>) -> Result<ResponseView, HyprErrorView> {
    match r {
        Ok(x) => Ok(x@),
        Err(e) => Err(e@),
    }
}

proof fn lemma_listings_error_persists(ls: Seq<Seq<char>>, k: int)
    requires
        0 <= k <= ls.len(),
        listings_result(ls.take(k)) is Err,
    ensures
        listings_result(ls) == listings_result(ls.take(k)),
    decreases ls.len(),
{
    if k == ls.len() {
        assert(ls.take(k) =~= ls);
    } else {
        assert(ls.drop_last().take(k) =~= ls.take(k));
        lemma_listings_error_persists(ls.drop_last(), k);
    }
}

impl ExpectedResponse {
    /// Reads hyprpaper's answer as this kind of answer.
    pub fn is_expected(&self, response: String) -> (res: Result<Response, HyprError>)
        ensures
            response_result_view(res) == response_result(*self, response@),
    {
        let v = chars_of(response.as_str());
        let t = trim_chars(&v);
        match self {
            ExpectedResponse::Accepted => {
                if chars_eq_str(&t, "ok") {
                    Ok(Response::Accepted)
                } else {
                    Err(HyprError::Hyprpaper(Error::NotOk(response)))
                }
            },
            ExpectedResponse::Active => {
                if chars_eq_str(&t, "no wallpapers active") {
                    return Err(HyprError::Hyprpaper(Error::NoWallpapersActive));
                }
                let ls = lines_of(&v);
                let ghost lv = views(ls@);
                let mut out: Vec<WallpaperListing> = Vec::new();
                let mut i: usize = 0;
                assert(lv.take(0) =~= Seq::<Seq<char>>::empty());
                assert(out@.map_values(|l: WallpaperListing| l@) =~= Seq::<WallpaperListingView>::empty());
                while i < ls.len()
                    invariant
                        i <= ls.len(),
                        lv == views(ls@),
                        lv == lines(response@),
                        *self == ExpectedResponse::Active,
                        trim(response@) != "no wallpapers active"@,
                        listings_result(lv.take(i as int))
                            == Ok::<Seq<WallpaperListingView>, HyprErrorView>(out@.map_values(|l: WallpaperListing| l@)),
                    decreases ls.len() - i,
                {
                    let ghost prev = out@;
                    assert(lv.take(i as int + 1).drop_last() =~= lv.take(i as int));
                    assert(lv.take(i as int + 1).last() == ls@[i as int]@);
                    let line = string_of(&ls[i]);
                    match WallpaperListing::try_from(line.as_str()) {
                        Ok(l) => {
                            out.push(l);
                            assert(out@.map_values(|l: WallpaperListing| l@) =~= prev.map_values(|l: WallpaperListing| l@).push(l@));
                        },
                        Err(e) => {
                            proof {
                                lemma_listings_error_persists(lv, i as int + 1);
                            }
                            return Err(e);
                        },
                    }
                    i = i + 1;
                }
                assert(lv.take(ls.len() as int) =~= lv);
                Ok(Response::ActiveWallpapers(out))
            },
            ExpectedResponse::Loaded => {
                if chars_eq_str(&t, "no wallpapers loaded") {
                    return Err(HyprError::Hyprpaper(Error::NoWallpapersLoaded));
                }
                let ls = lines_of(&v);
                let mut out: Vec<String> = Vec::new();
                let mut i: usize = 0;
                while i < ls.len()
                    invariant
                        i <= ls.len(),
                        views(ls@) == lines(response@),
                        out.len() == i,
                        forall|j: int| 0 <= j < i ==> #[trigger] out@[j]@ == ls@[j]@,
                    decreases ls.len() - i,
                {
                    out.push(string_of(&ls[i]));
                    i = i + 1;
                }
                assert(out@.map_values(|s: String| s@) =~= views(ls@));
                Ok(Response::LoadedWallpapers(out))
            },
        }
    }
}

/// Reads hyprpaper's answer to a keyword.
pub fn process_hyprpaper_response(keyword: Keyword, response: String) -> (res: Result<Response, HyprError>)
    ensures
        response_result_view(res) == response_result(keyword::expected_response_of(keyword), response@),
{
    keyword.expected_response().is_expected(response)
}

} // verus!

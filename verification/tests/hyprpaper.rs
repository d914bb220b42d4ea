use hyprland::error::HyprError;
use hyprland::hyprpaper::{
    process_hyprpaper_response, Error, ExpectedResponse, Keyword, Monitor, Preload, Reload, Response, Unload,
    Wallpaper, WallpaperListing, WallpaperMode,
};

fn check(command: Keyword, expected_string: &str) {
    let actual = command.to_string();
    assert_eq!(&actual, expected_string);
}

#[test]
fn test_preload_string() {
    let command = Keyword::Preload(Preload { path: "/foo/bar".into() });
    check(command, "preload /foo/bar");
}

#[test]
fn test_wallpaper() {
    let command = Keyword::Wallpaper(Wallpaper { monitor: None, mode: None, path: "/foo/bar".into() });
    check(command, "wallpaper ,/foo/bar");

    let command = Keyword::Wallpaper(Wallpaper {
        monitor: Some(Monitor::Port("DP-1".into())),
        mode: None,
        path: "/foo/bar".into(),
    });
    check(command, "wallpaper DP-1,/foo/bar");

    let command = Keyword::Wallpaper(Wallpaper {
        monitor: Some(Monitor::Description("some monitor desc".into())),
        mode: None,
        path: "/foo/bar".into(),
    });
    check(command, "wallpaper desc:some monitor desc,/foo/bar");

    let command = Keyword::Wallpaper(Wallpaper {
        monitor: Some(Monitor::Description("some monitor desc".into())),
        mode: Some(WallpaperMode::Contain),
        path: "/foo/bar".into(),
    });
    check(command, "wallpaper desc:some monitor desc,contain:/foo/bar");

    let command = Keyword::Wallpaper(Wallpaper {
        monitor: Some(Monitor::Description("some monitor desc".into())),
        mode: Some(WallpaperMode::Tile),
        path: "/foo/bar".into(),
    });
    check(command, "wallpaper desc:some monitor desc,tile:/foo/bar");
}

#[test]
fn test_unload() {
    let command = Keyword::Unload(Unload::Path("/foo/bar".into()));
    check(command, "unload /foo/bar");

    let command = Keyword::Unload(Unload::All);
    check(command, "unload all");
}

#[test]
fn list_keywords() {
    check(Keyword::ListActive, "listactive");
    check(Keyword::ListLoaded, "listloaded");
}

#[test]
fn test_port() {
    let monitor = Monitor::Port("DP-1".into());
    assert_eq!(monitor.to_string(), "DP-1");
}

#[test]
fn test_description() {
    let monitor = Monitor::Description("Dell Inc. DELL P2419HC GNJJJ73".into());
    assert_eq!(monitor.to_string(), "desc:Dell Inc. DELL P2419HC GNJJJ73");
}

#[test]
fn test_preload() {
    let preload = Preload { path: "/foo/bar.jpg".into() };
    assert_eq!(preload.to_string(), "preload /foo/bar.jpg");
}

#[test]
fn test_reload_format_no_monitor_no_mode() {
    let reload = Reload { monitor: None, mode: None, path: "/foo/bar.jpg".into() };
    assert_eq!(reload.to_string(), "reload ,/foo/bar.jpg");
}

#[test]
fn test_reload_format_with_monitor_with_mode() {
    let reload = Reload {
        monitor: Some(Monitor::Port("DP-1".into())),
        mode: Some(WallpaperMode::Contain),
        path: "/foo/bar.jpg".into(),
    };
    assert_eq!(reload.to_string(), "reload DP-1,contain:/foo/bar.jpg");
}

#[test]
fn test_unload_path() {
    let unload = Unload::Path("/foo/bar.jpg".into());
    assert_eq!(unload.to_string(), "unload /foo/bar.jpg");
}

#[test]
fn test_unload_all() {
    let unload = Unload::All;
    assert_eq!(unload.to_string(), "unload all");
}

#[test]
fn test_wallpaper_no_monitor_no_mode() {
    let wallpaper = Wallpaper { monitor: None, mode: None, path: "/foo/bar.jpg".into() };
    assert_eq!(wallpaper.to_string(), "wallpaper ,/foo/bar.jpg");
}

#[test]
fn test_wallpaper_with_monitor_with_mode() {
    let wallpaper = Wallpaper {
        monitor: Some(Monitor::Port("DP-1".into())),
        mode: Some(WallpaperMode::Tile),
        path: "/foo/bar.jpg".into(),
    };
    assert_eq!(wallpaper.to_string(), "wallpaper DP-1,tile:/foo/bar.jpg");
}

fn check_ok(s: &str, expected_monitor: Option<&str>, expected_wallpaper_path: &str) {
    let wallpaper_listing = WallpaperListing::try_from(s).unwrap();
    assert_eq!(wallpaper_listing.monitor.as_deref(), expected_monitor);
    assert_eq!(wallpaper_listing.wallpaper_path, expected_wallpaper_path);
}

#[test]
fn test_ok_no_monitor() {
    let s = " = /foo/bar.jpg";
    check_ok(s, None, "/foo/bar.jpg");
}

#[test]
fn test_ok_with_monitor() {
    let s = "DP-1 = /foo/bar.jpg";
    check_ok(s, Some("DP-1"), "/foo/bar.jpg");
}

#[test]
fn listing_splits_at_first_equals() {
    check_ok("a=b=c", Some("a"), "b=c");
    check_ok("=", None, "");
}

#[test]
fn test_err() {
    let s = "DP-1 /foo/bar.jpg";
    assert!(matches!(
        WallpaperListing::try_from(s),
        Err(HyprError::Hyprpaper(Error::FailedToParseActiveWallpapers(
            err_str
        ))) if s == err_str
    ));
}

#[test]
fn test_process_hyprpaper_response_ok() {
    let keyword = Keyword::Preload(Preload { path: "/foo".into() });
    let result = process_hyprpaper_response(keyword, "ok".into());
    assert!(matches!(result, Ok(Response::Accepted)));
}

#[test]
fn test_process_hyprpaper_response_active() {
    let keyword = Keyword::ListActive;
    let result = process_hyprpaper_response(keyword, "DP-1 = /wallpaper.png".into());
    assert!(matches!(result, Ok(Response::ActiveWallpapers(_))));
}

#[test]
fn test_process_hyprpaper_response_loaded() {
    let keyword = Keyword::ListLoaded;
    let result = process_hyprpaper_response(keyword, "/wallpaper.png".into());
    assert!(matches!(result, Ok(Response::LoadedWallpapers(_))));
}

#[test]
fn test_process_hyprpaper_response_not_ok() {
    let keyword = Keyword::Preload(Preload { path: "/foo".into() });
    let result = process_hyprpaper_response(keyword, "error".into());
    assert!(result.is_err());
}

#[test]
fn responses_in_detail() {
    assert!(matches!(ExpectedResponse::Accepted.is_expected("  ok\n".into()), Ok(Response::Accepted)));
    match ExpectedResponse::Accepted.is_expected("no".into()) {
        Err(HyprError::Hyprpaper(Error::NotOk(m))) => assert_eq!(m, "no"),
        other => panic!("unexpected {other:?}"),
    }
    assert!(matches!(
        ExpectedResponse::Active.is_expected(" no wallpapers active ".into()),
        Err(HyprError::Hyprpaper(Error::NoWallpapersActive))
    ));
    assert!(matches!(
        ExpectedResponse::Loaded.is_expected("no wallpapers loaded".into()),
        Err(HyprError::Hyprpaper(Error::NoWallpapersLoaded))
    ));
    match ExpectedResponse::Active.is_expected("DP-1 = /a.png\n = /b.png\n".into()) {
        Ok(Response::ActiveWallpapers(v)) => {
            assert_eq!(v.len(), 2);
            assert_eq!(v[0], WallpaperListing { monitor: Some("DP-1".into()), wallpaper_path: "/a.png".into() });
            assert_eq!(v[1], WallpaperListing { monitor: None, wallpaper_path: "/b.png".into() });
        },
        other => panic!("unexpected {other:?}"),
    }
    match ExpectedResponse::Active.is_expected("DP-1 = /a.png\nbroken\nalso broken".into()) {
        Err(HyprError::Hyprpaper(Error::FailedToParseActiveWallpapers(m))) => assert_eq!(m, "broken"),
        other => panic!("unexpected {other:?}"),
    }
    match ExpectedResponse::Loaded.is_expected("/a.png\r\n/b.png".into()) {
        Ok(Response::LoadedWallpapers(v)) => assert_eq!(v, vec!["/a.png".to_string(), "/b.png".to_string()]),
        other => panic!("unexpected {other:?}"),
    }
}

#[test]
fn expected_responses_of_keywords() {
    assert_eq!(Keyword::ListActive.expected_response(), ExpectedResponse::Active);
    assert_eq!(Keyword::ListLoaded.expected_response(), ExpectedResponse::Loaded);
    assert_eq!(Keyword::Unload(Unload::All).expected_response(), ExpectedResponse::Accepted);
}

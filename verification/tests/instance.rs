use hyprland::error::HyprError;
use hyprland::instance::{get_hypr_path, EnvValue, Instance};

#[test]
fn instance_from_socket_directory() {
    let i = Instance::from_base_socket_path("/run/user/1000/hypr/abc_1", true).unwrap();
    assert_eq!(i.name(), "abc_1");
    assert_eq!(i.stream_path(), "/run/user/1000/hypr/abc_1/.socket.sock");
    assert_eq!(i.event_socket_path(), "/run/user/1000/hypr/abc_1/.socket2.sock");
    assert_eq!(i.hyprpaper_stream_path(), "/run/user/1000/hypr/abc_1/.hyprpaper.sock");
    let j = Instance::from_base_socket_path("/run/user/1000/hypr/abc_1/./", true).unwrap();
    assert_eq!(j.name(), "abc_1");
    assert_eq!(j.stream_path(), "/run/user/1000/hypr/abc_1/./.socket.sock");
    assert!(i.same_as(&j));
}

#[test]
fn instance_errors() {
    match Instance::from_base_socket_path("/a/..", true) {
        Err(HyprError::Internal(m)) => assert_eq!(m, "Could not get instance name from path: /a/.."),
        other => panic!("unexpected {other:?}"),
    }
    match Instance::from_base_socket_path("/a/b", false) {
        Err(HyprError::Internal(m)) => assert_eq!(m, "Hyprland instance path does not exist: /a/b"),
        other => panic!("unexpected {other:?}"),
    }
    assert!(Instance::from_base_socket_path("/", true).is_err());
}

#[test]
fn instance_by_name_and_environment() {
    assert_eq!(Instance::socket_dir("/run/user/1/hypr", "sig"), "/run/user/1/hypr/sig");
    assert_eq!(Instance::socket_dir("/run/user/1/hypr/", "sig"), "/run/user/1/hypr/sig");
    assert_eq!(Instance::socket_dir("/run/user/1/hypr", "/abs"), "/abs");
    let i = Instance::from_instance("/h", "sig", true).unwrap();
    assert_eq!(i.name(), "sig");
    let e = Instance::from_current_env("/h", &EnvValue::Present("sig".into()), true).unwrap();
    assert_eq!(e.stream_path(), "/h/sig/.socket.sock");
    match Instance::from_current_env("/h", &EnvValue::NotPresent, true) {
        Err(HyprError::Internal(m)) => assert_eq!(m, "Could not get socket path! (Is Hyprland running??)"),
        other => panic!("unexpected {other:?}"),
    }
}

#[test]
fn instance_is_named_by_its_name() {
    for dir in ["", "/run/user/1000/hypr", "/run/user/1000/hypr/", "rel/dir", "/a/../b/."] {
        for name in ["9958d297641b5c84dcff93f9039d80a5ad37ab00_1752788564_214680212", "x", ".hidden", "..."] {
            let i = Instance::from_instance(dir, name, true).unwrap();
            assert_eq!(i.name(), name);
        }
    }
}

#[test]
fn hypr_path_from_the_environment() {
    assert_eq!(get_hypr_path(Some("/run/user/1000"), Some("5")).unwrap(), "/run/user/1000/hypr");
    assert_eq!(get_hypr_path(None, Some("1000")).unwrap(), "/run/user/1000/hypr");
    match get_hypr_path(None, None) {
        Err(HyprError::Internal(m)) => assert_eq!(m, "Could not find XDG_RUNTIME_DIR or UID"),
        other => panic!("unexpected {other:?}"),
    }
}

use hyprland::ctl::notify::Icon;
use hyprland::ctl::output::OutputBackends;
use hyprland::ctl::set_prop::PropType;
use hyprland::ctl::switch_xkb_layout::SwitchXKBLayoutCmdTypes;
use hyprland::ctl::{dismissnotify, kill, notify, output, plugin, reload, set_cursor, set_error, set_prop, switch_xkb_layout, Color};
use hyprland::shared::CommandFlag;

#[test]
fn ctl_commands() {
    assert_eq!(reload::command().data, "reload");
    assert_eq!(kill::command().flag, CommandFlag::Empty);
    assert_eq!(set_cursor::command("Bibata", 24).data, "setcursor Bibata 24");
    assert_eq!(output::create_command(OutputBackends::Headless).data, "output create headless");
    assert_eq!(output::remove_command("HEADLESS-1").data, "output remove HEADLESS-1");
    assert_eq!(switch_xkb_layout::command("kb", SwitchXKBLayoutCmdTypes::Id(2)).data, "switchxkblayout kb 2");
    assert_eq!(switch_xkb_layout::command("kb", SwitchXKBLayoutCmdTypes::Previous).data, "switchxkblayout kb prev");
    let red = Color::new(255, 0, 0, 255);
    assert_eq!(red.to_string(), "rgba(ff0000ff)");
    assert_eq!(set_error::command(red, "oops").data, "seterror rgba(ff0000ff) oops");
    assert_eq!(notify::command(Icon::NoIcon, 5000, red, "hi").data, "notify -1 5000 rgba(ff0000ff) hi");
    assert_eq!(notify::command(Icon::Okay, 1, red, "").data, "notify 5 1 rgba(ff0000ff) ");
    assert_eq!(dismissnotify::command(None).data, "dismissnotify -1");
    assert_eq!(dismissnotify::command(Some(3)).data, "dismissnotify 3");
    assert_eq!(plugin::load_command("/p.so").data, "plugin load /p.so");
    assert_eq!(plugin::list_command().data, "plugin list");
    assert_eq!(
        set_prop::command("address:0x1", &PropType::ForceNoBlur(true, false), true).data,
        "setprop address:0x1 forcenoblur 1  lock"
    );
    assert_eq!(PropType::Rounding(-3, true).to_string(), "rounding -3 lock");
    assert_eq!(PropType::ActiveBorderColor(red, false).to_string(), "alphabordercolor rgba(ff0000ff) ");
}

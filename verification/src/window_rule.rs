//! Window and layer rules, written as the Lua calls Hyprland evaluates.
use vstd::prelude::*;
use crate::error::{HyprError, HyprErrorView};
use crate::lua::{bool_field, format_bool_field, format_raw_field, format_string_field, lua_bool, lua_string, raw_field, string_field};
use crate::text::{chars_eq_str, chars_of, i128_text, int_dec, push_str};

verus! {

/// The fields of a table, one after another.
pub open spec fn fields_text(items: Seq<Seq<char>>) -> Seq<char>
    decreases items.len(),
{
    if items.len() == 0 {
        Seq::empty()
    } else {
        fields_text(items.drop_last()) + items.last()
    }
}

/// A rule call: the function, the optional name, the match table and the
/// effects.
pub open spec fn rule_text(
    head: Seq<char>,
    name: Option<Seq<char>>,
    matches: Seq<Seq<char>>,
    effects: Seq<Seq<char>>,
) -> Seq<char> {
    let n = match name {
        Some(x) => string_field("name"@, x),
        None => Seq::empty(),
    };
    head + n + "match = {"@ + fields_text(matches) + "}, "@ + fields_text(effects) + "})"@
}

/// Enum containing all match options
#[derive(Debug, Clone, PartialEq, Eq)]
#[allow(missing_docs)]
pub enum WindowMatch {
    Class(String),
    Title(String),
    InitialClass(String),
    InitialTitle(String),
    Tag(String),
    XWayland(bool),
    Float(bool),
    Fullscreen(bool),
    Pin(bool),
    Focus(bool),
    Group(bool),
    Modal(bool),
    FullscreenStateClient(u8),
    FullscreenStateInternal(u8),
    Workspace(String),
    Content(String),
    XdgTag(String),
}

/// How a window match is written.
pub open spec fn window_match_text(m: WindowMatch) -> Seq<char> {
    match m {
        WindowMatch::Class(s) => string_field("class"@, s@),
        WindowMatch::Title(s) => string_field("title"@, s@),
        WindowMatch::InitialClass(s) => string_field("initial_class"@, s@),
        WindowMatch::InitialTitle(s) => string_field("initial_title"@, s@),
        WindowMatch::Tag(s) => string_field("tag"@, s@),
        WindowMatch::XWayland(b) => bool_field("xwayland"@, b),
        WindowMatch::Float(b) => bool_field("float"@, b),
        WindowMatch::Fullscreen(b) => bool_field("fullscreen"@, b),
        WindowMatch::Pin(b) => bool_field("pin"@, b),
        WindowMatch::Focus(b) => bool_field("focus"@, b),
        WindowMatch::Group(b) => bool_field("group"@, b),
        WindowMatch::Modal(b) => bool_field("modal"@, b),
        WindowMatch::FullscreenStateClient(n) => raw_field("fullscreen_state_client"@, int_dec(n as int)),
        WindowMatch::FullscreenStateInternal(n) => raw_field("fullscreen_state_internal"@, int_dec(n as int)),
        WindowMatch::Workspace(s) => string_field("workspace"@, s@),
        WindowMatch::Content(s) => string_field("content"@, s@),
        WindowMatch::XdgTag(s) => string_field("xdg_tag"@, s@),
    }
}

fn raw_int_field(key: &str, n: i128) -> (res: String)
    ensures
        res@ == raw_field(key@, int_dec(n as int)),
{
    let t = i128_text(n);
    format_raw_field(key, t.as_str())
}

impl WindowMatch {
    /// The match as its `Display` writes it.
    pub fn to_string(&self) -> (res: String)
        ensures
            res@ == window_match_text(*self),
    {
        match self {
            WindowMatch::Class(s) => format_string_field("class", s.as_str()),
            WindowMatch::Title(s) => format_string_field("title", s.as_str()),
            WindowMatch::InitialClass(s) => format_string_field("initial_class", s.as_str()),
            WindowMatch::InitialTitle(s) => format_string_field("initial_title", s.as_str()),
            WindowMatch::Tag(s) => format_string_field("tag", s.as_str()),
            WindowMatch::XWayland(b) => format_bool_field("xwayland", *b),
            WindowMatch::Float(b) => format_bool_field("float", *b),
            WindowMatch::Fullscreen(b) => format_bool_field("fullscreen", *b),
            WindowMatch::Pin(b) => format_bool_field("pin", *b),
            WindowMatch::Focus(b) => format_bool_field("focus", *b),
            WindowMatch::Group(b) => format_bool_field("group", *b),
            WindowMatch::Modal(b) => format_bool_field("modal", *b),
            WindowMatch::FullscreenStateClient(n) => raw_int_field("fullscreen_state_client", *n as i128),
            WindowMatch::FullscreenStateInternal(n) => raw_int_field("fullscreen_state_internal", *n as i128),
            WindowMatch::Workspace(s) => format_string_field("workspace", s.as_str()),
            WindowMatch::Content(s) => format_string_field("content", s.as_str()),
            WindowMatch::XdgTag(s) => format_string_field("xdg_tag", s.as_str()),
        }
    }
}

/// Enum containing all effects
#[derive(Debug, Clone, PartialEq, Eq)]
#[allow(missing_docs)]
pub enum WindowEffect {
    Float(bool),
    Tile(bool),
    Fullscreen(bool),
    Maximize(bool),
    FullscreenState(String),
    Move(String),
    Size(String),
    Center(bool),
    Pseudo(bool),
    Monitor(String),
    Workspace(String),
    NoInitialFocus(bool),
    Pin(bool),
    Group(String),
    SuppressEvent(String),
    Content(String),
    NoCloseFor(i64),
    ScrollingWidth(i64),
}

/// How a window effect is written; note that `Tile` is written with the
/// key `title`.
pub open spec fn window_effect_text(e: WindowEffect) -> Seq<char> {
    match e {
        WindowEffect::Float(b) => bool_field("float"@, b),
        WindowEffect::Tile(b) => bool_field("title"@, b),
        WindowEffect::Fullscreen(b) => bool_field("fullscreen"@, b),
        WindowEffect::Maximize(b) => bool_field("maximize"@, b),
        WindowEffect::FullscreenState(s) => string_field("fullscreen_state"@, s@),
        WindowEffect::Move(s) => string_field("move"@, s@),
        WindowEffect::Size(s) => string_field("size"@, s@),
        WindowEffect::Center(b) => bool_field("center"@, b),
        WindowEffect::Pseudo(b) => bool_field("pseudo"@, b),
        WindowEffect::Monitor(s) => string_field("monitor"@, s@),
        WindowEffect::Workspace(s) => string_field("workspace"@, s@),
        WindowEffect::NoInitialFocus(b) => bool_field("no_initial_focus"@, b),
        WindowEffect::Pin(b) => bool_field("pin"@, b),
        WindowEffect::Group(s) => string_field("group"@, s@),
        WindowEffect::SuppressEvent(s) => string_field("suppress_event"@, s@),
        WindowEffect::Content(s) => string_field("content"@, s@),
        WindowEffect::NoCloseFor(n) => raw_field("no_close_for"@, int_dec(n as int)),
        WindowEffect::ScrollingWidth(n) => raw_field("scrolling_width"@, int_dec(n as int)),
    }
}

impl WindowEffect {
    /// The effect as its `Display` writes it.
    pub fn to_string(&self) -> (res: String)
        ensures
            res@ == window_effect_text(*self),
    {
        match self {
            WindowEffect::Float(b) => format_bool_field("float", *b),
            WindowEffect::Tile(b) => format_bool_field("title", *b),
            WindowEffect::Fullscreen(b) => format_bool_field("fullscreen", *b),
            WindowEffect::Maximize(b) => format_bool_field("maximize", *b),
            WindowEffect::FullscreenState(s) => format_string_field("fullscreen_state", s.as_str()),
            WindowEffect::Move(s) => format_string_field("move", s.as_str()),
            WindowEffect::Size(s) => format_string_field("size", s.as_str()),
            WindowEffect::Center(b) => format_bool_field("center", *b),
            WindowEffect::Pseudo(b) => format_bool_field("pseudo", *b),
            WindowEffect::Monitor(s) => format_string_field("monitor", s.as_str()),
            WindowEffect::Workspace(s) => format_string_field("workspace", s.as_str()),
            WindowEffect::NoInitialFocus(b) => format_bool_field("no_initial_focus", *b),
            WindowEffect::Pin(b) => format_bool_field("pin", *b),
            WindowEffect::Group(s) => format_string_field("group", s.as_str()),
            WindowEffect::SuppressEvent(s) => format_string_field("suppress_event", s.as_str()),
            WindowEffect::Content(s) => format_string_field("content", s.as_str()),
            WindowEffect::NoCloseFor(n) => raw_int_field("no_close_for", *n as i128),
            WindowEffect::ScrollingWidth(n) => raw_int_field("scrolling_width", *n as i128),
        }
    }
}

/// This struct holds a keyword
#[derive(Debug, Clone)]
pub struct WindowRule {
    /// The name of the rule
    pub name: Option<String>,
    /// The match options
    pub matchers: Vec<WindowMatch>,
    /// The effects
    pub effects: Vec<WindowEffect>,
}

/// The text of an optional name.
pub open spec fn name_view(n: Option<String>) -> Option<Seq<char>> {
    match n {
        Some(x) => Some(x@),
        None => None,
    }
}

/// How a window rule is written.
pub open spec fn window_rule_text(r: WindowRule) -> Seq<char> {
    rule_text(
        "hl.window_rule({"@,
        name_view(r.name),
        r.matchers@.map_values(|m: WindowMatch| window_match_text(m)),
        r.effects@.map_values(|e: WindowEffect| window_effect_text(e)),
    )
}

fn push_name(s: &mut String, name: &Option<String>)
    ensures
        final(s)@ == old(s)@ + match name_view(*name) {
            Some(x) => string_field("name"@, x),
            None => Seq::<char>::empty(),
        },
{
    match name {
        Some(n) => {
            let f = format_string_field("name", n.as_str());
            push_str(s, f.as_str());
        },
        None => {
            assert(old(s)@ + Seq::<char>::empty() =~= old(s)@);
        },
    }
}

fn push_window_matches(s: &mut String, ms: &Vec<WindowMatch>)
    ensures
        final(s)@ == old(s)@ + fields_text(ms@.map_values(|m: WindowMatch| window_match_text(m))),
{
    let ghost start = s@;
    let ghost all = ms@.map_values(|m: WindowMatch| window_match_text(m));
    let mut i: usize = 0;
    assert(all.take(0) =~= Seq::<Seq<char>>::empty());
    assert(start + fields_text(all.take(0)) =~= start);
    while i < ms.len()
        invariant
            i <= ms.len(),
            all == ms@.map_values(|m: WindowMatch| window_match_text(m)),
            s@ == start + fields_text(all.take(i as int)),
        decreases ms.len() - i,
    {
        let t = ms[i].to_string();
        push_str(s, t.as_str());
        assert(all.take(i as int + 1).drop_last() =~= all.take(i as int));
        assert(s@ =~= start + fields_text(all.take(i as int + 1)));
        i = i + 1;
    }
    assert(all.take(ms.len() as int) =~= all);
}

fn push_window_effects(s: &mut String, es: &Vec<WindowEffect>)
    ensures
        final(s)@ == old(s)@ + fields_text(es@.map_values(|e: WindowEffect| window_effect_text(e))),
{
    let ghost start = s@;
    let ghost all = es@.map_values(|e: WindowEffect| window_effect_text(e));
    let mut i: usize = 0;
    assert(all.take(0) =~= Seq::<Seq<char>>::empty());
    assert(start + fields_text(all.take(0)) =~= start);
    while i < es.len()
        invariant
            i <= es.len(),
            all == es@.map_values(|e: WindowEffect| window_effect_text(e)),
            s@ == start + fields_text(all.take(i as int)),
        decreases es.len() - i,
    {
        let t = es[i].to_string();
        push_str(s, t.as_str());
        assert(all.take(i as int + 1).drop_last() =~= all.take(i as int));
        assert(s@ =~= start + fields_text(all.take(i as int + 1)));
        i = i + 1;
    }
    assert(all.take(es.len() as int) =~= all);
}

/// What Hyprland's answer to applying a rule means: `ok` is success,
/// anything else fails with the answer.
pub open spec fn rule_reply(ret: Seq<char>) -> Result<(), HyprErrorView> {
    if ret == "ok"@ {
        Ok(())
    } else {
        Err(HyprErrorView::NotOkDispatch("Could not apply rule: "@ + ret))
    }
}

impl WindowRule {
    /// The rule as its `Display` writes it.
    pub fn to_string(&self) -> (res: String)
        ensures
            res@ == window_rule_text(*self),
    {
        let mut s = String::from_str("hl.window_rule({");
        push_name(&mut s, &self.name);
        push_str(&mut s, "match = {");
        push_window_matches(&mut s, &self.matchers);
        push_str(&mut s, "}, ");
        push_window_effects(&mut s, &self.effects);
        push_str(&mut s, "})");
        assert(s@ =~= window_rule_text(*self));
        s
    }

    /// The command that applies the rule: `eval` and the rule.
    pub fn command_text(&self) -> (res: String)
        ensures
            res@ == "eval "@ + window_rule_text(*self),
    {
        let mut s = String::from_str("eval ");
        let t = self.to_string();
        push_str(&mut s, t.as_str());
        s
    }

    /// Reads Hyprland's answer to applying the rule.
    pub fn reply(ret: &str) -> (res: Result<(), HyprError>)
        ensures
            match rule_reply(ret@) {
                Ok(()) => res is Ok,
                Err(e) => res matches Err(r) && r@ == e,
            },
    {
        let v = chars_of(ret);
        if chars_eq_str(&v, "ok") {
            Ok(())
        } else {
            let mut m = String::from_str("Could not apply rule: ");
            push_str(&mut m, ret);
            Err(HyprError::NotOkDispatch(m))
        }
    }
}

/// Enum containing all match options
#[derive(Debug, Clone, PartialEq, Eq)]
#[allow(missing_docs)]
pub enum LayerMatch {
    Namespace(String),
}

/// How a layer match is written.
pub open spec fn layer_match_text(m: LayerMatch) -> Seq<char> {
    match m {
        LayerMatch::Namespace(s) => string_field("namespace"@, s@),
    }
}

impl LayerMatch {
    /// The match as its `Display` writes it.
    pub fn to_string(&self) -> (res: String)
        ensures
            res@ == layer_match_text(*self),
    {
        match self {
            LayerMatch::Namespace(s) => format_string_field("namespace", s.as_str()),
        }
    }
}

/// Enum containing all effects; the alpha of `IgnoreAlpha` is held as the
/// decimal text Hyprland reads.
#[derive(Debug, Clone, PartialEq)]
#[allow(missing_docs)]
pub enum LayerEffect {
    NoAnim(bool),
    Blur(bool),
    BlurPopups(bool),
    IgnoreAlpha(String),
    DimAround(bool),
    Xray(bool),
    Animation(String),
    Order(i64),
    AboveLock(i64),
    NoScreenShare(bool),
}

/// How a layer effect is written.
pub open spec fn layer_effect_text(e: LayerEffect) -> Seq<char> {
    match e {
        LayerEffect::NoAnim(b) => bool_field("no_anim"@, b),
        LayerEffect::Blur(b) => bool_field("blur"@, b),
        LayerEffect::BlurPopups(b) => bool_field("blur_popups"@, b),
        LayerEffect::IgnoreAlpha(s) => raw_field("ignore_alpha"@, s@),
        LayerEffect::DimAround(b) => bool_field("dim_around"@, b),
        LayerEffect::Xray(b) => bool_field("xray"@, b),
        LayerEffect::Animation(s) => string_field("animation"@, s@),
        LayerEffect::Order(n) => raw_field("order"@, int_dec(n as int)),
        LayerEffect::AboveLock(n) => raw_field("above_lock"@, int_dec(n as int)),
        LayerEffect::NoScreenShare(b) => bool_field("no_screen_share"@, b),
    }
}

impl LayerEffect {
    /// The effect as its `Display` writes it.
    pub fn to_string(&self) -> (res: String)
        ensures
            res@ == layer_effect_text(*self),
    {
        match self {
            LayerEffect::NoAnim(b) => format_bool_field("no_anim", *b),
            LayerEffect::Blur(b) => format_bool_field("blur", *b),
            LayerEffect::BlurPopups(b) => format_bool_field("blur_popups", *b),
            LayerEffect::IgnoreAlpha(s) => format_raw_field("ignore_alpha", s.as_str()),
            LayerEffect::DimAround(b) => format_bool_field("dim_around", *b),
            LayerEffect::Xray(b) => format_bool_field("xray", *b),
            LayerEffect::Animation(s) => format_string_field("animation", s.as_str()),
            LayerEffect::Order(n) => raw_int_field("order", *n as i128),
            LayerEffect::AboveLock(n) => raw_int_field("above_lock", *n as i128),
            LayerEffect::NoScreenShare(b) => format_bool_field("no_screen_share", *b),
        }
    }
}

/// This struct holds a keyword
#[derive(Debug, Clone)]
pub struct LayerRule {
    /// The name of the rule
    pub name: Option<String>,
    /// The match options
    pub matchers: Vec<LayerMatch>,
    /// The effects
    pub effects: Vec<LayerEffect>,
}

/// How a layer rule is written.
pub open spec fn layer_rule_text(r: LayerRule) -> Seq<char> {
    rule_text(
        "hl.layer_rule({"@,
        name_view(r.name),
        r.matchers@.map_values(|m: LayerMatch| layer_match_text(m)),
        r.effects@.map_values(|e: LayerEffect| layer_effect_text(e)),
    )
}

fn push_layer_matches(s: &mut String, ms: &Vec<LayerMatch>)
    ensures
        final(s)@ == old(s)@ + fields_text(ms@.map_values(|m: LayerMatch| layer_match_text(m))),
{
    let ghost start = s@;
    let ghost all = ms@.map_values(|m: LayerMatch| layer_match_text(m));
    let mut i: usize = 0;
    assert(all.take(0) =~= Seq::<Seq<char>>::empty());
    assert(start + fields_text(all.take(0)) =~= start);
    while i < ms.len()
        invariant
            i <= ms.len(),
            all == ms@.map_values(|m: LayerMatch| layer_match_text(m)),
            s@ == start + fields_text(all.take(i as int)),
        decreases ms.len() - i,
    {
        let t = ms[i].to_string();
        push_str(s, t.as_str());
        assert(all.take(i as int + 1).drop_last() =~= all.take(i as int));
        assert(s@ =~= start + fields_text(all.take(i as int + 1)));
        i = i + 1;
    }
    assert(all.take(ms.len() as int) =~= all);
}

fn push_layer_effects(s: &mut String, es: &Vec<LayerEffect>)
    ensures
        final(s)@ == old(s)@ + fields_text(es@.map_values(|e: LayerEffect| layer_effect_text(e))),
{
    let ghost start = s@;
    let ghost all = es@.map_values(|e: LayerEffect| layer_effect_text(e));
    let mut i: usize = 0;
    assert(all.take(0) =~= Seq::<Seq<char>>::empty());
    assert(start + fields_text(all.take(0)) =~= start);
    while i < es.len()
        invariant
            i <= es.len(),
            all == es@.map_values(|e: LayerEffect| layer_effect_text(e)),
            s@ == start + fields_text(all.take(i as int)),
        decreases es.len() - i,
    {
        let t = es[i].to_string();
        push_str(s, t.as_str());
        assert(all.take(i as int + 1).drop_last() =~= all.take(i as int));
        assert(s@ =~= start + fields_text(all.take(i as int + 1)));
        i = i + 1;
    }
    assert(all.take(es.len() as int) =~= all);
}

impl LayerRule {
    /// The rule as its `Display` writes it.
    pub fn to_string(&self) -> (res: String)
        ensures
            res@ == layer_rule_text(*self),
    {
        let mut s = String::from_str("hl.layer_rule({");
        push_name(&mut s, &self.name);
        push_str(&mut s, "match = {");
        push_layer_matches(&mut s, &self.matchers);
        push_str(&mut s, "}, ");
        push_layer_effects(&mut s, &self.effects);
        push_str(&mut s, "})");
        assert(s@ =~= layer_rule_text(*self));
        s
    }

    /// The command that applies the rule: `eval` and the rule.
    pub fn command_text(&self) -> (res: String)
        ensures
            res@ == "eval "@ + layer_rule_text(*self),
    {
        let mut s = String::from_str("eval ");
        let t = self.to_string();
        push_str(&mut s, t.as_str());
        s
    }
}

/// The key a window match is written under.
pub open spec fn window_match_key(m: WindowMatch) -> Seq<char> {
    match m {
        WindowMatch::Class(_) => "class"@,
        WindowMatch::Title(_) => "title"@,
        WindowMatch::InitialClass(_) => "initial_class"@,
        WindowMatch::InitialTitle(_) => "initial_title"@,
        WindowMatch::Tag(_) => "tag"@,
        WindowMatch::XWayland(_) => "xwayland"@,
        WindowMatch::Float(_) => "float"@,
        WindowMatch::Fullscreen(_) => "fullscreen"@,
        WindowMatch::Pin(_) => "pin"@,
        WindowMatch::Focus(_) => "focus"@,
        WindowMatch::Group(_) => "group"@,
        WindowMatch::Modal(_) => "modal"@,
        WindowMatch::FullscreenStateClient(_) => "fullscreen_state_client"@,
        WindowMatch::FullscreenStateInternal(_) => "fullscreen_state_internal"@,
        WindowMatch::Workspace(_) => "workspace"@,
        WindowMatch::Content(_) => "content"@,
        WindowMatch::XdgTag(_) => "xdg_tag"@,
    }
}

/// The Lua value a window match is written with: a quoted string for a text, `true`
/// or `false` for a flag, the decimal digits for a number.
pub open spec fn window_match_value(m: WindowMatch) -> Seq<char> {
    match m {
        WindowMatch::Class(s) => lua_string(s@),
        WindowMatch::Title(s) => lua_string(s@),
        WindowMatch::InitialClass(s) => lua_string(s@),
        WindowMatch::InitialTitle(s) => lua_string(s@),
        WindowMatch::Tag(s) => lua_string(s@),
        WindowMatch::XWayland(b) => lua_bool(b),
        WindowMatch::Float(b) => lua_bool(b),
        WindowMatch::Fullscreen(b) => lua_bool(b),
        WindowMatch::Pin(b) => lua_bool(b),
        WindowMatch::Focus(b) => lua_bool(b),
        WindowMatch::Group(b) => lua_bool(b),
        WindowMatch::Modal(b) => lua_bool(b),
        WindowMatch::FullscreenStateClient(n) => int_dec(n as int),
        WindowMatch::FullscreenStateInternal(n) => int_dec(n as int),
        WindowMatch::Workspace(s) => lua_string(s@),
        WindowMatch::Content(s) => lua_string(s@),
        WindowMatch::XdgTag(s) => lua_string(s@),
    }
}

/// Each window match is the Lua table field `key = value, ` with its own key
/// and value.
pub proof fn law_window_match_is_its_field(m: WindowMatch)
    ensures
        window_match_text(m) == window_match_key(m) + " = "@ + window_match_value(m) + ", "@,
{
}

/// The key a window effect is written under.
pub open spec fn window_effect_key(m: WindowEffect) -> Seq<char> {
    match m {
        WindowEffect::Float(_) => "float"@,
        WindowEffect::Tile(_) => "title"@,
        WindowEffect::Fullscreen(_) => "fullscreen"@,
        WindowEffect::Maximize(_) => "maximize"@,
        WindowEffect::FullscreenState(_) => "fullscreen_state"@,
        WindowEffect::Move(_) => "move"@,
        WindowEffect::Size(_) => "size"@,
        WindowEffect::Center(_) => "center"@,
        WindowEffect::Pseudo(_) => "pseudo"@,
        WindowEffect::Monitor(_) => "monitor"@,
        WindowEffect::Workspace(_) => "workspace"@,
        WindowEffect::NoInitialFocus(_) => "no_initial_focus"@,
        WindowEffect::Pin(_) => "pin"@,
        WindowEffect::Group(_) => "group"@,
        WindowEffect::SuppressEvent(_) => "suppress_event"@,
        WindowEffect::Content(_) => "content"@,
        WindowEffect::NoCloseFor(_) => "no_close_for"@,
        WindowEffect::ScrollingWidth(_) => "scrolling_width"@,
    }
}

/// The Lua value a window effect is written with: a quoted string for a text, `true`
/// or `false` for a flag, the decimal digits for a number.
pub open spec fn window_effect_value(m: WindowEffect) -> Seq<char> {
    match m {
        WindowEffect::Float(b) => lua_bool(b),
        WindowEffect::Tile(b) => lua_bool(b),
        WindowEffect::Fullscreen(b) => lua_bool(b),
        WindowEffect::Maximize(b) => lua_bool(b),
        WindowEffect::FullscreenState(s) => lua_string(s@),
        WindowEffect::Move(s) => lua_string(s@),
        WindowEffect::Size(s) => lua_string(s@),
        WindowEffect::Center(b) => lua_bool(b),
        WindowEffect::Pseudo(b) => lua_bool(b),
        WindowEffect::Monitor(s) => lua_string(s@),
        WindowEffect::Workspace(s) => lua_string(s@),
        WindowEffect::NoInitialFocus(b) => lua_bool(b),
        WindowEffect::Pin(b) => lua_bool(b),
        WindowEffect::Group(s) => lua_string(s@),
        WindowEffect::SuppressEvent(s) => lua_string(s@),
        WindowEffect::Content(s) => lua_string(s@),
        WindowEffect::NoCloseFor(n) => int_dec(n as int),
        WindowEffect::ScrollingWidth(n) => int_dec(n as int),
    }
}

/// Each window effect is the Lua table field `key = value, ` with its own key
/// and value.
pub proof fn law_window_effect_is_its_field(m: WindowEffect)
    ensures
        window_effect_text(m) == window_effect_key(m) + " = "@ + window_effect_value(m) + ", "@,
{
}

/// The key a layer match is written under.
pub open spec fn layer_match_key(m: LayerMatch) -> Seq<char> {
    match m {
        LayerMatch::Namespace(_) => "namespace"@,
    }
}

/// The Lua value a layer match is written with: a quoted string for a text, `true`
/// or `false` for a flag, the decimal digits for a number.
pub open spec fn layer_match_value(m: LayerMatch) -> Seq<char> {
    match m {
        LayerMatch::Namespace(s) => lua_string(s@),
    }
}

/// Each layer match is the Lua table field `key = value, ` with its own key
/// and value.
pub proof fn law_layer_match_is_its_field(m: LayerMatch)
    ensures
        layer_match_text(m) == layer_match_key(m) + " = "@ + layer_match_value(m) + ", "@,
{
}

/// The key a layer effect is written under.
pub open spec fn layer_effect_key(m: LayerEffect) -> Seq<char> {
    match m {
        LayerEffect::NoAnim(_) => "no_anim"@,
        LayerEffect::Blur(_) => "blur"@,
        LayerEffect::BlurPopups(_) => "blur_popups"@,
        LayerEffect::IgnoreAlpha(_) => "ignore_alpha"@,
        LayerEffect::DimAround(_) => "dim_around"@,
        LayerEffect::Xray(_) => "xray"@,
        LayerEffect::Animation(_) => "animation"@,
        LayerEffect::Order(_) => "order"@,
        LayerEffect::AboveLock(_) => "above_lock"@,
        LayerEffect::NoScreenShare(_) => "no_screen_share"@,
    }
}

/// The Lua value a layer effect is written with: a quoted string for a text, `true`
/// or `false` for a flag, the decimal digits for a number.
pub open spec fn layer_effect_value(m: LayerEffect) -> Seq<char> {
    match m {
        LayerEffect::NoAnim(b) => lua_bool(b),
        LayerEffect::Blur(b) => lua_bool(b),
        LayerEffect::BlurPopups(b) => lua_bool(b),
        LayerEffect::IgnoreAlpha(s) => s@,
        LayerEffect::DimAround(b) => lua_bool(b),
        LayerEffect::Xray(b) => lua_bool(b),
        LayerEffect::Animation(s) => lua_string(s@),
        LayerEffect::Order(n) => int_dec(n as int),
        LayerEffect::AboveLock(n) => int_dec(n as int),
        LayerEffect::NoScreenShare(b) => lua_bool(b),
    }
}

/// Each layer effect is the Lua table field `key = value, ` with its own key
/// and value.
pub proof fn law_layer_effect_is_its_field(m: LayerEffect)
    ensures
        layer_effect_text(m) == layer_effect_key(m) + " = "@ + layer_effect_value(m) + ", "@,
{
}

/// The position of a window match's kind among the kinds.
pub open spec fn window_match_kind(m: WindowMatch) -> nat {
    match m {
        WindowMatch::Class(_) => 0,
        WindowMatch::Title(_) => 1,
        WindowMatch::InitialClass(_) => 2,
        WindowMatch::InitialTitle(_) => 3,
        WindowMatch::Tag(_) => 4,
        WindowMatch::XWayland(_) => 5,
        WindowMatch::Float(_) => 6,
        WindowMatch::Fullscreen(_) => 7,
        WindowMatch::Pin(_) => 8,
        WindowMatch::Focus(_) => 9,
        WindowMatch::Group(_) => 10,
        WindowMatch::Modal(_) => 11,
        WindowMatch::FullscreenStateClient(_) => 12,
        WindowMatch::FullscreenStateInternal(_) => 13,
        WindowMatch::Workspace(_) => 14,
        WindowMatch::Content(_) => 15,
        WindowMatch::XdgTag(_) => 16,
    }
}

/// Two window matches of different kinds are written under different keys.
pub proof fn law_window_match_keys_differ(m1: WindowMatch, m2: WindowMatch)
    requires
        window_match_kind(m1) != window_match_kind(m2),
    ensures
        window_match_key(m1) != window_match_key(m2),
{
    reveal_strlit("class");
    reveal_strlit("title");
    reveal_strlit("initial_class");
    reveal_strlit("initial_title");
    reveal_strlit("tag");
    reveal_strlit("xwayland");
    reveal_strlit("float");
    reveal_strlit("fullscreen");
    reveal_strlit("pin");
    reveal_strlit("focus");
    reveal_strlit("group");
    reveal_strlit("modal");
    reveal_strlit("fullscreen_state_client");
    reveal_strlit("fullscreen_state_internal");
    reveal_strlit("workspace");
    reveal_strlit("content");
    reveal_strlit("xdg_tag");
    let (k1, k2) = (window_match_key(m1), window_match_key(m2));
    if k1 == k2 {
        assert(k1.len() == k2.len() && k1[0] == k2[0] && k1[1] == k2[1]);
        if k1.len() == 13 {
            assert(k1[8] == k2[8]);
        }
    }
}

} // verus!

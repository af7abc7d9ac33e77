use vstd::prelude::*;

verus! {

/// A rectangle on the screen, in pixels.
#[derive(Clone, Copy, Debug, PartialEq, Eq)]
pub struct Rectangle {
    pub x: u64,
    pub y: u64,
    pub width: u64,
    pub height: u64,
}

/// One workspace, as listed by the get-workspaces reply.
#[derive(Debug, PartialEq, Eq)]
pub struct Workspace {
    pub num: i64,
    pub name: String,
    pub visible: bool,
    pub focused: bool,
    pub urgent: bool,
    pub output: String,
    pub rect: Rectangle,
}

#[derive(Clone, Copy, Debug, PartialEq, Eq)]
pub enum SubpixelHinting {
    RGB,
    BGR,
    VRGB,
    VBGR,
    NoHinting,
    Unknown,
}

#[derive(Clone, Copy, Debug, PartialEq, Eq)]
pub enum OutputTransform {
    Normal,
    Right,
    Half,
    Left,
    FlippedRight,
    FlippedHalf,
    FlippedLeft,
}

#[derive(Clone, Copy, Debug, PartialEq, Eq)]
pub struct OutputMode {
    pub width: u64,
    pub height: u64,
    pub refresh: u64,
}

/// One node of the layout tree.
#[derive(Debug, PartialEq, Eq)]
pub struct Node {
    pub id: u64,
    pub name: String,
    pub node_type: NodeType,
    pub border: NodeBorder,
    pub current_border_width: u8,
    pub layout: NodeLayout,
    pub orientation: NodeOrientation,
    pub rect: Rectangle,
    pub window_rect: Rectangle,
    pub deco_rect: Rectangle,
    pub geometry: Rectangle,
    pub urgent: bool,
    pub sticky: bool,
    pub focused: bool,
    pub focus: Vec<u64>,
    pub nodes: Vec<Node>,
    pub floating_nodes: Vec<Node>,
    pub representation: Option<String>,
    pub fullscreen_mode: Option<NodeFullscreenMode>,
    pub app_id: Option<String>,
    pub pid: Option<u64>,
    pub visible: Option<bool>,
    pub window: Option<u64>,
    pub window_properties: Option<NodeWindowProperties>,
}

#[derive(Clone, Copy, Debug, PartialEq, Eq)]
pub enum NodeType {
    Root,
    Output,
    Workspace,
    Con,
    FloatingCon,
}

#[derive(Clone, Copy, Debug, PartialEq, Eq)]
pub enum NodeBorder {
    Normal,
    NoBorder,
    Pixel,
    Csd,
}

#[derive(Clone, Copy, Debug, PartialEq, Eq)]
pub enum NodeLayout {
    NoLayout,
    Splith,
    Splitv,
    Stacked,
    Tabbed,
    Output,
}

#[derive(Clone, Copy, Debug, PartialEq, Eq)]
pub enum NodeOrientation {
    Vertical,
    Horizontal,
    NoOrientation,
}

/// Sent on the wire as the integers 0, 1 and 2.
#[derive(Clone, Copy, Debug, PartialEq, Eq)]
pub enum NodeFullscreenMode {
    NotFullscreen,
    Full,
    Global,
}

impl NodeFullscreenMode {
    pub open spec fn from_u8_spec(v: u8) -> Option<NodeFullscreenMode> {
        if v == 0 {
            Some(NodeFullscreenMode::NotFullscreen)
        } else if v == 1 {
            Some(NodeFullscreenMode::Full)
        } else if v == 2 {
            Some(NodeFullscreenMode::Global)
        } else {
            None
        }
    }

    /// The mode that a wire integer stands for; `None` for any other value.
    pub fn from_u8(v: u8) -> (r: Option<NodeFullscreenMode>)
        ensures
            r == NodeFullscreenMode::from_u8_spec(v),
    {
        if v == 0 {
            Some(NodeFullscreenMode::NotFullscreen)
        } else if v == 1 {
            Some(NodeFullscreenMode::Full)
        } else if v == 2 {
            Some(NodeFullscreenMode::Global)
        } else {
            None
        }
    }
}

#[derive(Debug, PartialEq, Eq)]
pub struct NodeWindowProperties {
    pub class: String,
    pub instance: String,
    pub title: String,
}

/// One bar's configuration.
#[derive(Debug, PartialEq, Eq)]
pub struct Bar {
    pub id: String,
    pub mode: BarMode,
    pub position: BarPosition,
    pub status_command: String,
    pub font: String,
    pub workspace_buttons: bool,
    pub binding_mode_indicator: bool,
    pub colors: BarColors,
    pub gaps: BarGaps,
    pub bar_height: u64,
    pub status_padding: u64,
    pub status_edge_padding: u64,
}

#[derive(Clone, Copy, Debug, PartialEq, Eq)]
pub enum BarMode {
    Dock,
    Hide,
    Invisible,
}

#[derive(Clone, Copy, Debug, PartialEq, Eq)]
pub enum BarPosition {
    Bottom,
    Top,
}

#[derive(Clone, Copy, Debug, PartialEq, Eq)]
pub struct BarColors {
    pub background: Color,
    pub statusline: Color,
    pub separator: Color,
    pub focused_background: Color,
    pub focused_statusline: Color,
    pub focused_separator: Color,
    pub focused_workspace_text: Color,
    pub focused_workspace_bg: Color,
    pub focused_workspace_border: Color,
    pub active_workspace_text: Color,
    pub active_workspace_bg: Color,
    pub active_workspace_border: Color,
    pub inactive_workspace_text: Color,
    pub inactive_workspace_bg: Color,
    pub inactive_workspace_border: Color,
    pub urgent_workspace_text: Color,
    pub urgent_workspace_bg: Color,
    pub urgent_workspace_border: Color,
    pub binding_mode_text: Color,
    pub binding_mode_bg: Color,
    pub binding_mode_border: Color,
}

/// A colour with alpha, written on the wire as `#rrggbbaa`.
#[derive(Clone, Copy, Debug, PartialEq, Eq)]
pub struct Color {
    pub r: u8,
    pub g: u8,
    pub b: u8,
    pub a: u8,
}

#[derive(Clone, Copy, Debug, PartialEq, Eq)]
pub struct BarGaps {
    pub top: u64,
    pub right: u64,
    pub bottom: u64,
    pub left: u64,
}

#[derive(Debug, PartialEq, Eq)]
pub struct Version {
    pub major: u64,
    pub minor: u64,
    pub patch: u64,
    pub human_readable: String,
    pub loaded_config_file_name: String,
}

/// The get-config reply: the loaded configuration's text.
#[derive(Debug, PartialEq, Eq)]
pub struct Config {
    pub config: String,
}

/// The get-binding-state reply: the current binding mode's name.
#[derive(Debug, PartialEq, Eq)]
pub struct BindingState {
    pub name: String,
}

#[derive(Clone, Copy, Debug, PartialEq, Eq)]
pub enum InputSendEvents {
    Enabled,
    Disabled,
    DisabledOnExternalMouse,
}

#[derive(Clone, Copy, Debug, PartialEq, Eq)]
pub enum InputAccelProfile {
    NoProfile,
    Flat,
    Adaptive,
}

#[derive(Clone, Copy, Debug, PartialEq, Eq)]
pub enum InputClickMethod {
    NoClick,
    ButtonAreas,
    ClickFinger,
}

#[derive(Clone, Copy, Debug, PartialEq, Eq)]
pub enum InputScrollMethod {
    NoScroll,
    TwoFinger,
    Edge,
    OnButtonDown,
}

/// The value of a hexadecimal digit, either case.
pub open spec fn hex_value(c: char) -> Option<u8> {
    let v = c as u32;
    if 48 <= v <= 57 {
        Some((v - 48) as u8)
    } else if 97 <= v <= 102 {
        Some((v - 87) as u8)
    } else if 65 <= v <= 70 {
        Some((v - 55) as u8)
    } else {
        None
    }
}

/// The byte written as the two hexadecimal digits `hi` and `lo`.
pub open spec fn hex_pair(hi: char, lo: char) -> Option<u8> {
    match (hex_value(hi), hex_value(lo)) {
        (Some(h), Some(l)) => Some((16 * h + l) as u8),
        _ => None,
    }
}

/// What a colour string `#rrggbbaa` stands for; `None` for any other text.
pub open spec fn color_of(s: Seq<char>) -> Option<Color> {
    if s.len() == 9 && s[0] == '#' {
        match (hex_pair(s[1], s[2]), hex_pair(s[3], s[4]), hex_pair(s[5], s[6]), hex_pair(s[7], s[8])) {
            (Some(r), Some(g), Some(b), Some(a)) => Some(Color { r, g, b, a }),
            _ => None,
        }
    } else {
        None
    }
}

fn hex_digit(c: char) -> (r: Option<u8>)
    ensures
        r == hex_value(c),
        r matches Some(d) ==> d < 16,
{
    let v = c as u32;
    if 48 <= v && v <= 57 {
        Some((v - 48) as u8)
    } else if 97 <= v && v <= 102 {
        Some((v - 87) as u8)
    } else if 65 <= v && v <= 70 {
        Some((v - 55) as u8)
    } else {
        None
    }
}

fn hex_byte(s: &str, at: usize) -> (r: Option<u8>)
    requires
        at < 8,
        at + 1 < s@.len(),
    ensures
        r == hex_pair(s@[at as int], s@[at + 1]),
{
    match (hex_digit(s.get_char(at)), hex_digit(s.get_char(at + 1))) {
        (Some(h), Some(l)) => Some(16 * h + l),
        _ => None,
    }
}

impl Color {
    /// Reads a colour written as `#rrggbbaa`; `None` where the text has
    /// another shape or a character that is not a hexadecimal digit.
    pub fn parse(s: &str) -> (r: Option<Color>)
        ensures
            r == color_of(s@),
    {
        if s.unicode_len() != 9 || s.get_char(0) != '#' {
            return None;
        }
        match (hex_byte(s, 1), hex_byte(s, 3), hex_byte(s, 5), hex_byte(s, 7)) {
            (Some(r), Some(g), Some(b), Some(a)) => Some(Color { r, g, b, a }),
            _ => None,
        }
    }
}

/// Whether two strings hold the same characters.
fn same_text(a: &str, b: &str) -> (r: bool)
    ensures
        r == (a@ == b@),
{
    let n = a.unicode_len();
    if n != b.unicode_len() {
        return false;
    }
    let mut i: usize = 0;
    while i < n
        invariant
            n == a@.len() == b@.len(),
            i <= n,
            a@.subrange(0, i as int) == b@.subrange(0, i as int),
        decreases n - i,
    {
        if a.get_char(i) != b.get_char(i) {
            assert(a@[i as int] != b@[i as int]);
            return false;
        }
        assert(a@.subrange(0, i + 1) =~= a@.subrange(0, i as int).push(a@[i as int]));
        assert(b@.subrange(0, i + 1) =~= b@.subrange(0, i as int).push(b@[i as int]));
        i = i + 1;
    }
    assert(a@ =~= a@.subrange(0, n as int));
    assert(b@ =~= b@.subrange(0, n as int));
    true
}

/// What an enabled/disabled field holds: `Some(Some(true))` for
/// `enabled`, `Some(Some(false))` for `disabled`, `Some(None)` for the empty
/// string, and `None` (a decode error) for anything else.
pub open spec fn enabled_of(s: Seq<char>) -> Option<Option<bool>> {
    if s == "enabled"@ {
        Some(Some(true))
    } else if s == "disabled"@ {
        Some(Some(false))
    } else if s.len() == 0 {
        Some(None)
    } else {
        None
    }
}

/// Reads an enabled/disabled field of an input's settings.
pub fn parse_enabled(s: &str) -> (r: Option<Option<bool>>)
    ensures
        r == enabled_of(s@),
{
    if same_text(s, "enabled") {
        Some(Some(true))
    } else if same_text(s, "disabled") {
        Some(Some(false))
    } else if s.unicode_len() == 0 {
        Some(None)
    } else {
        None
    }
}

} // verus!

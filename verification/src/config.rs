use vstd::prelude::*;

use crate::action::Action;
use crate::action::ActionV;
use crate::color::Color;
use crate::enums::AccelProfile;
use crate::enums::CenterFocusedColumn;
use crate::enums::TapButtonMap;
use crate::enums::TrackLayout;
use crate::key::Key;
use crate::mode::Mode;
use crate::num::Decimal;
use crate::transform::Transform;

verus! {

/// XKB keymap settings for the keyboard.
#[derive(Debug, PartialEq, Eq, Clone)]
pub struct Xkb {
    pub rules: String,
    pub model: String,
    pub layout: Option<String>,
    pub variant: String,
    pub options: Option<String>,
}

pub struct XkbV {
    pub rules: Seq<char>,
    pub model: Seq<char>,
    pub layout: Option<Seq<char>>,
    pub variant: Seq<char>,
    pub options: Option<Seq<char>>,
}

impl View for Xkb {
    type V = XkbV;

    open spec fn view(&self) -> XkbV {
        XkbV {
            rules: self.rules@,
            model: self.model@,
            layout: match self.layout {
                Some(s) => Some(s@),
                None => None,
            },
            variant: self.variant@,
            options: match self.options {
                Some(s) => Some(s@),
                None => None,
            },
        }
    }
}

pub open spec fn xkb_default_v() -> XkbV {
    XkbV {
        rules: Seq::<char>::empty(),
        model: Seq::<char>::empty(),
        layout: None,
        variant: Seq::<char>::empty(),
        options: None,
    }
}

impl Default for Xkb {
    fn default() -> (x: Xkb)
        ensures
            x@ == xkb_default_v(),
    {
        let x = Xkb {
            rules: String::new(),
            model: String::new(),
            layout: None,
            variant: String::new(),
            options: None,
        };
        proof {
            assert(x@.rules =~= xkb_default_v().rules);
            assert(x@.model =~= xkb_default_v().model);
            assert(x@.variant =~= xkb_default_v().variant);
        }
        x
    }
}

/// Keyboard settings; the repeat defaults match common compositors.
#[derive(Debug, PartialEq, Eq)]
pub struct Keyboard {
    pub xkb: Xkb,
    pub repeat_delay: u16,
    pub repeat_rate: u8,
    pub track_layout: TrackLayout,
}

pub struct KeyboardV {
    pub xkb: XkbV,
    pub repeat_delay: u16,
    pub repeat_rate: u8,
    pub track_layout: TrackLayout,
}

impl View for Keyboard {
    type V = KeyboardV;

    open spec fn view(&self) -> KeyboardV {
        KeyboardV {
            xkb: self.xkb@,
            repeat_delay: self.repeat_delay,
            repeat_rate: self.repeat_rate,
            track_layout: self.track_layout,
        }
    }
}

pub open spec fn keyboard_default_v() -> KeyboardV {
    KeyboardV {
        xkb: xkb_default_v(),
        repeat_delay: 600u16,
        repeat_rate: 25u8,
        track_layout: TrackLayout::Global,
    }
}

impl Default for Keyboard {
    fn default() -> (k: Keyboard)
        ensures
            k@ == keyboard_default_v(),
    {
        Keyboard {
            xkb: Xkb::default(),
            repeat_delay: 600,
            repeat_rate: 25,
            track_layout: TrackLayout::Global,
        }
    }
}

/// Touchpad settings.
#[derive(Debug, Clone, Copy, PartialEq, Eq, Structural)]
pub struct Touchpad {
    pub tap: bool,
    pub dwt: bool,
    pub natural_scroll: bool,
    pub accel_speed: Decimal,
    pub accel_profile: Option<AccelProfile>,
    pub tap_button_map: Option<TapButtonMap>,
}

pub open spec fn touchpad_default() -> Touchpad {
    Touchpad {
        tap: false,
        dwt: false,
        natural_scroll: false,
        accel_speed: Decimal { neg: false, mantissa: 0u64, scale: 0i64 },
        accel_profile: None,
        tap_button_map: None,
    }
}

impl Default for Touchpad {
    fn default() -> (t: Touchpad)
        ensures
            t == touchpad_default(),
    {
        Touchpad {
            tap: false,
            dwt: false,
            natural_scroll: false,
            accel_speed: Decimal::zero(),
            accel_profile: None,
            tap_button_map: None,
        }
    }
}

/// Mouse settings.
#[derive(Debug, Clone, Copy, PartialEq, Eq, Structural)]
pub struct Mouse {
    pub natural_scroll: bool,
    pub accel_speed: Decimal,
    pub accel_profile: Option<AccelProfile>,
}

pub open spec fn mouse_default() -> Mouse {
    Mouse {
        natural_scroll: false,
        accel_speed: Decimal { neg: false, mantissa: 0u64, scale: 0i64 },
        accel_profile: None,
    }
}

impl Default for Mouse {
    fn default() -> (m: Mouse)
        ensures
            m == mouse_default(),
    {
        Mouse { natural_scroll: false, accel_speed: Decimal::zero(), accel_profile: None }
    }
}

/// Drawing-tablet settings.
#[derive(Debug, PartialEq, Eq)]
pub struct Tablet {
    pub map_to_output: Option<String>,
}

pub struct TabletV {
    pub map_to_output: Option<Seq<char>>,
}

impl View for Tablet {
    type V = TabletV;

    open spec fn view(&self) -> TabletV {
        TabletV {
            map_to_output: match self.map_to_output {
                Some(s) => Some(s@),
                None => None,
            },
        }
    }
}

pub open spec fn tablet_default_v() -> TabletV {
    TabletV { map_to_output: None }
}

impl Default for Tablet {
    fn default() -> (t: Tablet)
        ensures
            t@ == tablet_default_v(),
    {
        Tablet { map_to_output: None }
    }
}

/// All input-device settings.
#[derive(Debug, PartialEq, Eq)]
pub struct Input {
    pub keyboard: Keyboard,
    pub touchpad: Touchpad,
    pub mouse: Mouse,
    pub tablet: Tablet,
    pub disable_power_key_handling: bool,
}

pub struct InputV {
    pub keyboard: KeyboardV,
    pub touchpad: Touchpad,
    pub mouse: Mouse,
    pub tablet: TabletV,
    pub disable_power_key_handling: bool,
}

impl View for Input {
    type V = InputV;

    open spec fn view(&self) -> InputV {
        InputV {
            keyboard: self.keyboard@,
            touchpad: self.touchpad,
            mouse: self.mouse,
            tablet: self.tablet@,
            disable_power_key_handling: self.disable_power_key_handling,
        }
    }
}

pub open spec fn input_default_v() -> InputV {
    InputV {
        keyboard: keyboard_default_v(),
        touchpad: touchpad_default(),
        mouse: mouse_default(),
        tablet: tablet_default_v(),
        disable_power_key_handling: false,
    }
}

impl Default for Input {
    fn default() -> (i: Input)
        ensures
            i@ == input_default_v(),
    {
        Input {
            keyboard: Keyboard::default(),
            touchpad: Touchpad::default(),
            mouse: Mouse::default(),
            tablet: Tablet::default(),
            disable_power_key_handling: false,
        }
    }
}

/// Explicit pixel position of an output.
#[derive(Debug, Clone, Copy, PartialEq, Eq, Structural)]
pub struct Position {
    pub x: i32,
    pub y: i32,
}

/// One output (monitor) declaration.
#[derive(Debug, PartialEq, Clone)]
pub struct Output {
    pub off: bool,
    pub name: String,
    pub scale: Decimal,
    pub transform: Transform,
    pub position: Option<Position>,
    pub mode: Option<Mode>,
}

pub struct OutputV {
    pub off: bool,
    pub name: Seq<char>,
    pub scale: Decimal,
    pub transform: Transform,
    pub position: Option<Position>,
    pub mode: Option<Mode>,
}

impl View for Output {
    type V = OutputV;

    open spec fn view(&self) -> OutputV {
        OutputV {
            off: self.off,
            name: self.name@,
            scale: self.scale,
            transform: self.transform,
            position: self.position,
            mode: self.mode,
        }
    }
}

pub open spec fn output_default_v() -> OutputV {
    OutputV {
        off: false,
        name: Seq::<char>::empty(),
        scale: Decimal { neg: false, mantissa: 1u64, scale: 0i64 },
        transform: Transform::Normal,
        position: None,
        mode: None,
    }
}

impl Default for Output {
    fn default() -> (o: Output)
        ensures
            o@ == output_default_v(),
    {
        let o = Output {
            off: false,
            name: String::new(),
            scale: Decimal { neg: false, mantissa: 1, scale: 0 },
            transform: Transform::Normal,
            position: None,
            mode: None,
        };
        proof {
            assert(o@.name =~= output_default_v().name);
        }
        o
    }
}

/// Focus-ring (and border) decoration settings; the border shares the
/// shape but starts disabled with its own colors.
#[derive(Debug, Clone, Copy, PartialEq, Structural)]
pub struct FocusRing {
    pub off: bool,
    pub width: u16,
    pub active_color: Color,
    pub inactive_color: Color,
}

pub open spec fn focus_ring_default() -> FocusRing {
    FocusRing {
        off: false,
        width: 4u16,
        active_color: Color { r: 127u8, g: 200u8, b: 255u8, a: 255u8 },
        inactive_color: Color { r: 80u8, g: 80u8, b: 80u8, a: 255u8 },
    }
}

pub open spec fn border_default() -> FocusRing {
    FocusRing {
        off: true,
        width: 4u16,
        active_color: Color { r: 255u8, g: 200u8, b: 127u8, a: 255u8 },
        inactive_color: Color { r: 80u8, g: 80u8, b: 80u8, a: 255u8 },
    }
}

impl Default for FocusRing {
    fn default() -> (f: FocusRing)
        ensures
            f == focus_ring_default(),
    {
        FocusRing {
            off: false,
            width: 4,
            active_color: Color::new(127, 200, 255, 255),
            inactive_color: Color::new(80, 80, 80, 255),
        }
    }
}

/// The border decoration's defaults: like the focus ring, but disabled
/// and with its own active color.
pub fn default_border() -> (f: FocusRing)
    ensures
        f == border_default(),
{
    FocusRing {
        off: true,
        width: 4,
        active_color: Color::new(255, 200, 127, 255),
        inactive_color: Color::new(80, 80, 80, 255),
    }
}

/// A preset column width: a proportion of the output width, or a fixed
/// size in logical pixels.
#[derive(Debug, Clone, Copy, PartialEq, Structural)]
pub enum PresetWidth {
    Proportion(Decimal),
    Fixed(i32),
}

/// The single-selection wrapper for the default column width.
#[derive(Debug, Clone, PartialEq)]
pub struct DefaultColumnWidth(pub Vec<PresetWidth>);

/// Window-layout defaults.
#[derive(Debug, Clone, PartialEq)]
pub struct Layout {
    pub focus_ring: FocusRing,
    pub border: FocusRing,
    pub preset_column_widths: Vec<PresetWidth>,
    pub default_column_width: Option<DefaultColumnWidth>,
    pub center_focused_column: CenterFocusedColumn,
    pub gaps: u16,
    pub struts: Struts,
}

pub struct LayoutV {
    pub focus_ring: FocusRing,
    pub border: FocusRing,
    pub preset_column_widths: Seq<PresetWidth>,
    pub default_column_width: Option<Seq<PresetWidth>>,
    pub center_focused_column: CenterFocusedColumn,
    pub gaps: u16,
    pub struts: Struts,
}

impl View for Layout {
    type V = LayoutV;

    open spec fn view(&self) -> LayoutV {
        LayoutV {
            focus_ring: self.focus_ring,
            border: self.border,
            preset_column_widths: self.preset_column_widths@,
            default_column_width: match self.default_column_width {
                Some(d) => Some(d.0@),
                None => None,
            },
            center_focused_column: self.center_focused_column,
            gaps: self.gaps,
            struts: self.struts,
        }
    }
}

pub open spec fn layout_default_v() -> LayoutV {
    LayoutV {
        focus_ring: focus_ring_default(),
        border: border_default(),
        preset_column_widths: Seq::<PresetWidth>::empty(),
        default_column_width: None,
        center_focused_column: CenterFocusedColumn::Never,
        gaps: 16u16,
        struts: struts_default(),
    }
}

impl Default for Layout {
    fn default() -> (l: Layout)
        ensures
            l@ == layout_default_v(),
    {
        let l = Layout {
            focus_ring: FocusRing::default(),
            border: default_border(),
            preset_column_widths: Vec::new(),
            default_column_width: None,
            center_focused_column: CenterFocusedColumn::Never,
            gaps: 16,
            struts: Struts::default(),
        };
        proof {
            assert(l@.preset_column_widths =~= layout_default_v().preset_column_widths);
        }
        l
    }
}

/// One command to spawn at startup, with its arguments.
#[derive(Debug, Clone, PartialEq, Eq)]
pub struct SpawnAtStartup {
    pub command: Vec<String>,
}

pub struct SpawnAtStartupV {
    pub command: Seq<Seq<char>>,
}

impl View for SpawnAtStartup {
    type V = SpawnAtStartupV;

    open spec fn view(&self) -> SpawnAtStartupV {
        SpawnAtStartupV { command: self.command@.map(|i: int, s: String| s@) }
    }
}

/// Cursor theme and size.
#[derive(Debug, PartialEq, Eq)]
pub struct Cursor {
    pub xcursor_theme: String,
    pub xcursor_size: u8,
}

pub struct CursorV {
    pub xcursor_theme: Seq<char>,
    pub xcursor_size: u8,
}

impl View for Cursor {
    type V = CursorV;

    open spec fn view(&self) -> CursorV {
        CursorV { xcursor_theme: self.xcursor_theme@, xcursor_size: self.xcursor_size }
    }
}

pub open spec fn cursor_default_v() -> CursorV {
    CursorV { xcursor_theme: "default"@, xcursor_size: 24u8 }
}

impl Default for Cursor {
    fn default() -> (c: Cursor)
        ensures
            c@ == cursor_default_v(),
    {
        Cursor { xcursor_theme: String::from_str("default"), xcursor_size: 24 }
    }
}

/// Four independent screen-edge insets.
#[derive(Debug, Clone, Copy, PartialEq, Eq, Structural)]
pub struct Struts {
    pub left: u16,
    pub right: u16,
    pub top: u16,
    pub bottom: u16,
}

pub open spec fn struts_default() -> Struts {
    Struts { left: 0u16, right: 0u16, top: 0u16, bottom: 0u16 }
}

impl Default for Struts {
    fn default() -> (s: Struts)
        ensures
            s == struts_default(),
    {
        Struts { left: 0, right: 0, top: 0, bottom: 0 }
    }
}

/// Hotkey-overlay behaviour.
#[derive(Debug, Clone, Copy, PartialEq, Eq, Structural)]
pub struct HotkeyOverlay {
    pub skip_at_startup: bool,
}

pub open spec fn hotkey_overlay_default() -> HotkeyOverlay {
    HotkeyOverlay { skip_at_startup: false }
}

impl Default for HotkeyOverlay {
    fn default() -> (h: HotkeyOverlay)
        ensures
            h == hotkey_overlay_default(),
    {
        HotkeyOverlay { skip_at_startup: false }
    }
}

/// One key binding: a chord and the actions it triggers, in order.
#[derive(Debug, PartialEq)]
pub struct Bind {
    pub key: Key,
    pub actions: Vec<Action>,
}

pub struct BindV {
    pub key: Key,
    pub actions: Seq<ActionV>,
}

impl View for Bind {
    type V = BindV;

    open spec fn view(&self) -> BindV {
        BindV { key: self.key, actions: self.actions@.map(|i: int, a: Action| a@) }
    }
}

/// The ordered list of key bindings; duplicate chords are kept as written.
#[derive(Debug, PartialEq)]
pub struct Binds(pub Vec<Bind>);

impl View for Binds {
    type V = Seq<BindV>;

    open spec fn view(&self) -> Seq<BindV> {
        self.0@.map(|i: int, b: Bind| b@)
    }
}

impl Default for Binds {
    fn default() -> (b: Binds)
        ensures
            b@ =~= Seq::<BindV>::empty(),
    {
        Binds(Vec::new())
    }
}

/// Debug toggles.
#[derive(Debug, PartialEq)]
pub struct DebugConfig {
    pub animation_slowdown: Decimal,
    pub dbus_interfaces_in_non_session_instances: bool,
    pub wait_for_frame_completion_before_queueing: bool,
    pub enable_color_transformations_capability: bool,
    pub enable_overlay_planes: bool,
    pub disable_cursor_plane: bool,
    pub render_drm_device: Option<String>,
}

pub struct DebugConfigV {
    pub animation_slowdown: Decimal,
    pub dbus_interfaces_in_non_session_instances: bool,
    pub wait_for_frame_completion_before_queueing: bool,
    pub enable_color_transformations_capability: bool,
    pub enable_overlay_planes: bool,
    pub disable_cursor_plane: bool,
    pub render_drm_device: Option<Seq<char>>,
}

impl View for DebugConfig {
    type V = DebugConfigV;

    open spec fn view(&self) -> DebugConfigV {
        DebugConfigV {
            animation_slowdown: self.animation_slowdown,
            dbus_interfaces_in_non_session_instances: self.dbus_interfaces_in_non_session_instances,
            wait_for_frame_completion_before_queueing:
                self.wait_for_frame_completion_before_queueing,
            enable_color_transformations_capability: self.enable_color_transformations_capability,
            enable_overlay_planes: self.enable_overlay_planes,
            disable_cursor_plane: self.disable_cursor_plane,
            render_drm_device: match self.render_drm_device {
                Some(s) => Some(s@),
                None => None,
            },
        }
    }
}

pub open spec fn debug_default_v() -> DebugConfigV {
    DebugConfigV {
        animation_slowdown: Decimal { neg: false, mantissa: 1u64, scale: 0i64 },
        dbus_interfaces_in_non_session_instances: false,
        wait_for_frame_completion_before_queueing: false,
        enable_color_transformations_capability: false,
        enable_overlay_planes: false,
        disable_cursor_plane: false,
        render_drm_device: None,
    }
}

impl Default for DebugConfig {
    fn default() -> (d: DebugConfig)
        ensures
            d@ == debug_default_v(),
    {
        DebugConfig {
            animation_slowdown: Decimal { neg: false, mantissa: 1, scale: 0 },
            dbus_interfaces_in_non_session_instances: false,
            wait_for_frame_completion_before_queueing: false,
            enable_color_transformations_capability: false,
            enable_overlay_planes: false,
            disable_cursor_plane: false,
            render_drm_device: None,
        }
    }
}

/// The default screenshot path.
pub open spec fn screenshot_path_default_chars() -> Seq<char> {
    "~/Pictures/Screenshots/Screenshot from %Y-%m-%d %H-%M-%S.png"@
}

/// The whole configuration tree.
#[derive(Debug, PartialEq)]
pub struct Config {
    pub input: Input,
    pub outputs: Vec<Output>,
    pub spawn_at_startup: Vec<SpawnAtStartup>,
    pub layout: Layout,
    pub prefer_no_csd: bool,
    pub cursor: Cursor,
    pub screenshot_path: Option<String>,
    pub hotkey_overlay: HotkeyOverlay,
    pub binds: Binds,
    pub debug: DebugConfig,
}

pub struct ConfigV {
    pub input: InputV,
    pub outputs: Seq<OutputV>,
    pub spawn_at_startup: Seq<SpawnAtStartupV>,
    pub layout: LayoutV,
    pub prefer_no_csd: bool,
    pub cursor: CursorV,
    pub screenshot_path: Option<Seq<char>>,
    pub hotkey_overlay: HotkeyOverlay,
    pub binds: Seq<BindV>,
    pub debug: DebugConfigV,
}

impl View for Config {
    type V = ConfigV;

    open spec fn view(&self) -> ConfigV {
        ConfigV {
            input: self.input@,
            outputs: self.outputs@.map(|i: int, o: Output| o@),
            spawn_at_startup: self.spawn_at_startup@.map(|i: int, s: SpawnAtStartup| s@),
            layout: self.layout@,
            prefer_no_csd: self.prefer_no_csd,
            cursor: self.cursor@,
            screenshot_path: match self.screenshot_path {
                Some(s) => Some(s@),
                None => None,
            },
            hotkey_overlay: self.hotkey_overlay,
            binds: self.binds@,
            debug: self.debug@,
        }
    }
}

} // verus!

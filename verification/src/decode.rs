use vstd::prelude::*;

use crate::action::Action;
use crate::action::ActionV;
use crate::color::Color;
use crate::config::Bind;
use crate::config::BindV;
use crate::config::Binds;
use crate::config::Config;
use crate::config::ConfigV;
use crate::config::DefaultColumnWidth;
use crate::config::Layout;
use crate::config::LayoutV;
use crate::config::PresetWidth;
use crate::config::SpawnAtStartup;
use crate::config::SpawnAtStartupV;
use crate::config::border_default;
use crate::config::cursor_default_v;
use crate::config::debug_default_v;
use crate::config::hotkey_overlay_default;
use crate::config::input_default_v;
use crate::config::layout_default_v;
use crate::config::screenshot_path_default_chars;
use crate::config::struts_default;
use crate::enums::CenterFocusedColumn;
use crate::enums::LayoutAction;
use crate::enums::center_focused_column_from_chars;
use crate::enums::layout_action_from_chars;
use crate::key::Key;
use crate::key::KeyEntry;
use crate::key::KeyTable;
use crate::key::key_from_chars;
use crate::sizechange::SizeChange;
use crate::sizechange::size_change_from_chars;
use crate::config::Cursor;
use crate::config::CursorV;
use crate::config::DebugConfig;
use crate::config::DebugConfigV;
use crate::config::FocusRing;
use crate::config::HotkeyOverlay;
use crate::config::Input;
use crate::config::InputV;
use crate::config::Keyboard;
use crate::config::KeyboardV;
use crate::config::Mouse;
use crate::config::Output;
use crate::config::OutputV;
use crate::config::Position;
use crate::config::Struts;
use crate::config::Tablet;
use crate::config::TabletV;
use crate::config::Touchpad;
use crate::config::Xkb;
use crate::config::XkbV;
use crate::config::focus_ring_default;
use crate::config::keyboard_default_v;
use crate::config::mouse_default;
use crate::config::tablet_default_v;
use crate::config::touchpad_default;
use crate::config::xkb_default_v;
use crate::enums::AccelProfile;
use crate::enums::TapButtonMap;
use crate::enums::TrackLayout;
use crate::enums::accel_profile_from_chars;
use crate::enums::tap_button_map_from_chars;
use crate::enums::track_layout_from_chars;
use crate::mode::Mode;
use crate::mode::mode_from_chars;
use crate::transform::Transform;
use crate::transform::transform_from_chars;
use crate::doc::DecodeError;
use crate::doc::DocNode;
use crate::doc::Prop;
use crate::doc::Scalar;
use crate::doc::all_names_in;
use crate::doc::count_named;
use crate::doc::count_named_exec;
use crate::doc::find_named;
use crate::doc::find_prop;
use crate::doc::first_named;
use crate::doc::last_prop;
use crate::doc::first_unknown;
use crate::doc::flag_shape;
use crate::doc::is_flag_shape;
use crate::doc::one_arg;
use crate::doc::one_arg_shape;
use crate::num::Decimal;
use crate::num::dec_from_chars;
use crate::text::strip_underscores;
use crate::text::strip_underscores_str;
use crate::num::parse_decimal_str;

verus! {

/// No children of `cs` carrying one of the single-valued names twice.
pub open spec fn dup_free(cs: Seq<DocNode>, names: Seq<&str>) -> bool {
    forall|j: int| 0 <= j < names.len() ==> count_named(cs, #[trigger] names[j]@) <= 1
}

/// Check `dup_free`; on failure name the offending child name.
pub fn check_dup_free(cs: &Vec<DocNode>, names: &Vec<&'static str>, span: (usize, usize)) -> (r:
    Result<(), DecodeError>)
    ensures
        r is Ok <==> dup_free(cs@, names@),
{
    let n = names.len();
    let mut j: usize = 0;
    while j < n
        invariant
            n == names@.len(),
            0 <= j <= n,
            forall|k: int| 0 <= k < j ==> count_named(cs@, #[trigger] names@[k]@) <= 1,
        decreases n - j,
    {
        if count_named_exec(cs, names[j]) > 1 {
            return Err(
                DecodeError::at(
                    span,
                    String::from_str("duplicate node `").concat(names[j]).concat(
                        "`, single node expected",
                    ),
                ),
            );
        }
        j += 1;
    }
    Ok(())
}

/// Reject args, props, or children not fitting a section node, then
/// check its child names and duplicates.
pub fn check_section(n: &DocNode, allowed: &Vec<&'static str>) -> (r: Result<(), DecodeError>)
    ensures
        r is Ok <==> n.args@.len() == 0 && n.props@.len() == 0 && all_names_in(
            n.children@,
            allowed@,
        ) && dup_free(n.children@, allowed@),
{
    if n.args.len() != 0 {
        return Err(DecodeError::at(n.span, String::from_str("unexpected argument")));
    }
    if n.props.len() != 0 {
        return Err(DecodeError::at(n.span, String::from_str("unexpected property")));
    }
    match first_unknown(&n.children, allowed) {
        Some(c) => Err(
            DecodeError::at(
                c.span,
                String::from_str("unexpected node `").concat(c.name.as_str()).concat("`"),
            ),
        ),
        None => check_dup_free(&n.children, allowed, n.span),
    }
}

/// A single-string-argument child: its text, or the default when absent.
pub open spec fn spec_str_child(n: DocNode) -> Option<Seq<char>> {
    if one_arg_shape(n) {
        match n.args[0] {
            Scalar::Str(s) => Some(s@),
            _ => None,
        }
    } else {
        None
    }
}

pub open spec fn field_str(cs: Seq<DocNode>, name: Seq<char>, dflt: Seq<char>) -> Option<Seq<char>> {
    match first_named(cs, name) {
        None => Some(dflt),
        Some(c) => spec_str_child(c),
    }
}

pub fn field_str_exec(cs: &Vec<DocNode>, name: &'static str, dflt: String) -> (r: Result<
    String,
    DecodeError,
>)
    ensures
        r is Ok <==> field_str(cs@, name@, dflt@) is Some,
        r matches Ok(s) ==> field_str(cs@, name@, dflt@) == Some(s@),
{
    match find_named(cs, name) {
        None => Ok(dflt),
        Some(c) => match one_arg(c) {
            Some(v) => match v {
                Scalar::Str(s) => Ok(s.clone()),
                _ => Err(DecodeError::at(c.span, String::from_str("expected a string argument"))),
            },
            None => Err(
                DecodeError::at(c.span, String::from_str("expected exactly one argument")),
            ),
        },
    }
}

/// An optional single-string-argument child: absent or `null` means none.
pub open spec fn field_opt_str(cs: Seq<DocNode>, name: Seq<char>) -> Option<Option<Seq<char>>> {
    match first_named(cs, name) {
        None => Some(None),
        Some(c) => {
            if one_arg_shape(c) {
                match c.args[0] {
                    Scalar::Str(s) => Some(Some(s@)),
                    Scalar::Null => Some(None),
                    _ => None,
                }
            } else {
                None
            }
        },
    }
}

pub fn field_opt_str_exec(cs: &Vec<DocNode>, name: &'static str) -> (r: Result<
    Option<String>,
    DecodeError,
>)
    ensures
        r is Ok <==> field_opt_str(cs@, name@) is Some,
        r matches Ok(o) ==> ({
            let v = field_opt_str(cs@, name@);
            match o {
                Some(s) => v == Some(Some(s@)),
                None => v == Some(Option::<Seq<char>>::None),
            }
        }),
{
    match find_named(cs, name) {
        None => Ok(None),
        Some(c) => match one_arg(c) {
            Some(v) => match v {
                Scalar::Str(s) => Ok(Some(s.clone())),
                Scalar::Null => Ok(None),
                _ => Err(DecodeError::at(c.span, String::from_str("expected a string argument"))),
            },
            None => Err(
                DecodeError::at(c.span, String::from_str("expected exactly one argument")),
            ),
        },
    }
}

/// A single-integer-argument child within `[lo, hi]`, or the default.
pub open spec fn field_int(cs: Seq<DocNode>, name: Seq<char>, dflt: i64, lo: i64, hi: i64) -> Option<
    i64,
> {
    match first_named(cs, name) {
        None => Some(dflt),
        Some(c) => {
            if one_arg_shape(c) {
                match c.args[0] {
                    Scalar::Int(v) => if lo <= v <= hi {
                        Some(v)
                    } else {
                        None
                    },
                    _ => None,
                }
            } else {
                None
            }
        },
    }
}

pub fn field_int_exec(cs: &Vec<DocNode>, name: &'static str, dflt: i64, lo: i64, hi: i64) -> (r:
    Result<i64, DecodeError>)
    requires
        lo <= dflt <= hi,
    ensures
        r is Ok <==> field_int(cs@, name@, dflt, lo, hi) is Some,
        r matches Ok(v) ==> field_int(cs@, name@, dflt, lo, hi) == Some(v) && lo <= v <= hi,
{
    match find_named(cs, name) {
        None => Ok(dflt),
        Some(c) => match one_arg(c) {
            Some(v) => match v {
                Scalar::Int(i) => {
                    if lo <= *i && *i <= hi {
                        Ok(*i)
                    } else {
                        Err(
                            DecodeError::at(
                                c.span,
                                String::from_str("integer value out of range"),
                            ),
                        )
                    }
                },
                _ => Err(
                    DecodeError::at(c.span, String::from_str("expected an integer argument")),
                ),
            },
            None => Err(
                DecodeError::at(c.span, String::from_str("expected exactly one argument")),
            ),
        },
    }
}

/// A flag child: present means true; anything attached to it is an error.
pub open spec fn field_flag(cs: Seq<DocNode>, name: Seq<char>) -> Option<bool> {
    match first_named(cs, name) {
        None => Some(false),
        Some(c) => if flag_shape(c) {
            Some(true)
        } else {
            None
        },
    }
}

pub fn field_flag_exec(cs: &Vec<DocNode>, name: &'static str) -> (r: Result<bool, DecodeError>)
    ensures
        r is Ok <==> field_flag(cs@, name@) is Some,
        r matches Ok(b) ==> field_flag(cs@, name@) == Some(b),
{
    match find_named(cs, name) {
        None => Ok(false),
        Some(c) => {
            if is_flag_shape(c) {
                Ok(true)
            } else {
                Err(
                    DecodeError::at(
                        c.span,
                        String::from_str("unexpected argument, property or node"),
                    ),
                )
            }
        },
    }
}

/// A single-decimal-argument child, or the default; an integer literal is
/// not accepted for a decimal field.  Underscores in the literal, legal
/// digit grouping in a document, are ignored.
pub open spec fn field_decimal(cs: Seq<DocNode>, name: Seq<char>, dflt: Decimal) -> Option<Decimal> {
    match first_named(cs, name) {
        None => Some(dflt),
        Some(c) => {
            if one_arg_shape(c) {
                match c.args[0] {
                    Scalar::Number(raw) => dec_from_chars(strip_underscores(raw@)),
                    _ => None,
                }
            } else {
                None
            }
        },
    }
}

pub fn field_decimal_exec(cs: &Vec<DocNode>, name: &'static str, dflt: Decimal) -> (r: Result<
    Decimal,
    DecodeError,
>)
    ensures
        r is Ok <==> field_decimal(cs@, name@, dflt) is Some,
        r matches Ok(d) ==> field_decimal(cs@, name@, dflt) == Some(d),
{
    match find_named(cs, name) {
        None => Ok(dflt),
        Some(c) => match one_arg(c) {
            Some(v) => match v {
                Scalar::Number(raw) => match parse_decimal_str(
                    strip_underscores_str(raw.as_str()).as_str(),
                ) {
                    Some(d) => Ok(d),
                    None => Err(
                        DecodeError::at(c.span, String::from_str("error parsing number")),
                    ),
                },
                _ => Err(DecodeError::at(c.span, String::from_str("expected a decimal argument"))),
            },
            None => Err(
                DecodeError::at(c.span, String::from_str("expected exactly one argument")),
            ),
        },
    }
}

/// A color node: exactly four integer arguments, each an eight-bit
/// channel, in the order red, green, blue, alpha.
pub open spec fn spec_color(n: DocNode) -> Option<Color> {
    if n.args@.len() == 4 && n.props@.len() == 0 && n.children@.len() == 0 {
        match (n.args[0], n.args[1], n.args[2], n.args[3]) {
            (Scalar::Int(r), Scalar::Int(g), Scalar::Int(b), Scalar::Int(a)) => {
                if 0 <= r <= 255 && 0 <= g <= 255 && 0 <= b <= 255 && 0 <= a <= 255 {
                    Some(Color { r: r as u8, g: g as u8, b: b as u8, a: a as u8 })
                } else {
                    None
                }
            },
            _ => None,
        }
    } else {
        None
    }
}

fn channel_u8(v: &Scalar, span: (usize, usize)) -> (r: Result<u8, DecodeError>)
    ensures
        r is Ok <==> (*v matches Scalar::Int(x) && 0 <= x <= 255),
        r matches Ok(c) ==> *v == Scalar::Int(c as i64),
{
    match v {
        Scalar::Int(x) => {
            if 0 <= *x && *x <= 255 {
                Ok(*x as u8)
            } else {
                Err(DecodeError::at(span, String::from_str("color channel out of range 0..=255")))
            }
        },
        _ => Err(DecodeError::at(span, String::from_str("expected an integer argument"))),
    }
}

pub fn decode_color(n: &DocNode) -> (r: Result<Color, DecodeError>)
    ensures
        r is Ok <==> spec_color(*n) is Some,
        r matches Ok(c) ==> spec_color(*n) == Some(c),
{
    if n.args.len() != 4 || n.props.len() != 0 || n.children.len() != 0 {
        return Err(
            DecodeError::at(
                n.span,
                String::from_str("expected four integer arguments: red, green, blue, alpha"),
            ),
        );
    }
    let r = channel_u8(&n.args[0], n.span)?;
    let g = channel_u8(&n.args[1], n.span)?;
    let b = channel_u8(&n.args[2], n.span)?;
    let a = channel_u8(&n.args[3], n.span)?;
    Ok(Color { r, g, b, a })
}

/// A color-valued child with a default.
pub open spec fn field_color(cs: Seq<DocNode>, name: Seq<char>, dflt: Color) -> Option<Color> {
    match first_named(cs, name) {
        None => Some(dflt),
        Some(c) => spec_color(c),
    }
}

pub fn field_color_exec(cs: &Vec<DocNode>, name: &'static str, dflt: Color) -> (r: Result<
    Color,
    DecodeError,
>)
    ensures
        r is Ok <==> field_color(cs@, name@, dflt) is Some,
        r matches Ok(c) ==> field_color(cs@, name@, dflt) == Some(c),
{
    match find_named(cs, name) {
        None => Ok(dflt),
        Some(c) => decode_color(c),
    }
}

/// A focus-ring or border section; `dflt` supplies the whole value when
/// the section is absent, while a present section fills absent fields
/// from the focus-ring palette.
pub open spec fn spec_focus_ring(n: DocNode) -> Option<FocusRing> {
    let cs = n.children@;
    if n.args@.len() != 0 || n.props@.len() != 0 || !all_names_in(cs, focus_ring_names())
        || !dup_free(cs, focus_ring_names()) {
        None
    } else {
        match (
            field_flag(cs, "off"@),
            field_int(cs, "width"@, 4, 0, 65535),
            field_color(cs, "active-color"@, focus_ring_default().active_color),
            field_color(cs, "inactive-color"@, focus_ring_default().inactive_color),
        ) {
            (Some(off), Some(width), Some(active), Some(inactive)) => Some(
                FocusRing { off, width: width as u16, active_color: active, inactive_color: inactive },
            ),
            _ => None,
        }
    }
}

pub open spec fn focus_ring_names() -> Seq<&'static str> {
    seq!["off", "width", "active-color", "inactive-color"]
}

pub fn decode_focus_ring(n: &DocNode) -> (r: Result<FocusRing, DecodeError>)
    ensures
        r is Ok <==> spec_focus_ring(*n) is Some,
        r matches Ok(f) ==> spec_focus_ring(*n) == Some(f),
{
    let allowed = vec!["off", "width", "active-color", "inactive-color"];
    proof {
        assert(allowed@ =~= focus_ring_names());
    }
    check_section(n, &allowed)?;
    let off = field_flag_exec(&n.children, "off")?;
    let width = field_int_exec(&n.children, "width", 4, 0, 65535)?;
    let fr_dflt = FocusRing::default();
    let active = field_color_exec(&n.children, "active-color", fr_dflt.active_color)?;
    let inactive = field_color_exec(&n.children, "inactive-color", fr_dflt.inactive_color)?;
    Ok(FocusRing { off, width: width as u16, active_color: active, inactive_color: inactive })
}

/// The struts section: four unsigned insets, zero by default.
pub open spec fn spec_struts(n: DocNode) -> Option<Struts> {
    let cs = n.children@;
    if n.args@.len() != 0 || n.props@.len() != 0 || !all_names_in(cs, struts_names()) || !dup_free(
        cs,
        struts_names(),
    ) {
        None
    } else {
        match (
            field_int(cs, "left"@, 0, 0, 65535),
            field_int(cs, "right"@, 0, 0, 65535),
            field_int(cs, "top"@, 0, 0, 65535),
            field_int(cs, "bottom"@, 0, 0, 65535),
        ) {
            (Some(l), Some(r), Some(t), Some(b)) => Some(
                Struts { left: l as u16, right: r as u16, top: t as u16, bottom: b as u16 },
            ),
            _ => None,
        }
    }
}

pub open spec fn struts_names() -> Seq<&'static str> {
    seq!["left", "right", "top", "bottom"]
}

pub fn decode_struts(n: &DocNode) -> (r: Result<Struts, DecodeError>)
    ensures
        r is Ok <==> spec_struts(*n) is Some,
        r matches Ok(s) ==> spec_struts(*n) == Some(s),
{
    let allowed = vec!["left", "right", "top", "bottom"];
    proof {
        assert(allowed@ =~= struts_names());
    }
    check_section(n, &allowed)?;
    let l = field_int_exec(&n.children, "left", 0, 0, 65535)?;
    let r = field_int_exec(&n.children, "right", 0, 0, 65535)?;
    let t = field_int_exec(&n.children, "top", 0, 0, 65535)?;
    let b = field_int_exec(&n.children, "bottom", 0, 0, 65535)?;
    Ok(Struts { left: l as u16, right: r as u16, top: t as u16, bottom: b as u16 })
}

/// The hotkey-overlay section.
pub open spec fn spec_hotkey_overlay(n: DocNode) -> Option<HotkeyOverlay> {
    let cs = n.children@;
    if n.args@.len() != 0 || n.props@.len() != 0 || !all_names_in(cs, hotkey_overlay_names())
        || !dup_free(cs, hotkey_overlay_names()) {
        None
    } else {
        match field_flag(cs, "skip-at-startup"@) {
            Some(b) => Some(HotkeyOverlay { skip_at_startup: b }),
            None => None,
        }
    }
}

pub open spec fn hotkey_overlay_names() -> Seq<&'static str> {
    seq!["skip-at-startup"]
}

pub fn decode_hotkey_overlay(n: &DocNode) -> (r: Result<HotkeyOverlay, DecodeError>)
    ensures
        r is Ok <==> spec_hotkey_overlay(*n) is Some,
        r matches Ok(h) ==> spec_hotkey_overlay(*n) == Some(h),
{
    let allowed = vec!["skip-at-startup"];
    proof {
        assert(allowed@ =~= hotkey_overlay_names());
    }
    check_section(n, &allowed)?;
    let b = field_flag_exec(&n.children, "skip-at-startup")?;
    Ok(HotkeyOverlay { skip_at_startup: b })
}

/// The position node: integer properties `x` and `y`, both required; a
/// repeated property keeps its last value.
pub open spec fn prop_i32(ps: Seq<Prop>, name: Seq<char>) -> Option<i32> {
    match last_prop(ps, name) {
        Some(Scalar::Int(v)) => if i32::MIN <= v <= i32::MAX {
            Some(v as i32)
        } else {
            None
        },
        _ => None,
    }
}

pub open spec fn spec_position(n: DocNode) -> Option<Position> {
    if n.args@.len() != 0 || n.children@.len() != 0 || !(forall|i: int|
        0 <= i < n.props@.len() ==> (#[trigger] n.props@[i].name@ == "x"@ || n.props@[i].name@
            == "y"@)) {
        None
    } else {
        match (prop_i32(n.props@, "x"@), prop_i32(n.props@, "y"@)) {
            (Some(x), Some(y)) => Some(Position { x, y }),
            _ => None,
        }
    }
}

pub fn decode_position(n: &DocNode) -> (r: Result<Position, DecodeError>)
    ensures
        r is Ok <==> spec_position(*n) is Some,
        r matches Ok(p) ==> spec_position(*n) == Some(p),
{
    if n.args.len() != 0 || n.children.len() != 0 {
        return Err(DecodeError::at(n.span, String::from_str("unexpected argument or node")));
    }
    let np = n.props.len();
    let mut i: usize = 0;
    while i < np
        invariant
            np == n.props@.len(),
            0 <= i <= np,
            forall|j: int|
                0 <= j < i ==> (#[trigger] n.props@[j].name@ == "x"@ || n.props@[j].name@ == "y"@),
        decreases np - i,
    {
        let nm = n.props[i].name.as_str();
        if !crate::text::str_eq(nm, "x") && !crate::text::str_eq(nm, "y") {
            return Err(DecodeError::at(n.span, String::from_str("unexpected property")));
        }
        i += 1;
    }
    let x = match find_prop(&n.props, "x") {
        Some(v) => match v {
            Scalar::Int(xv) => {
                if -2147483648 <= *xv && *xv <= 2147483647 {
                    *xv as i32
                } else {
                    return Err(
                        DecodeError::at(n.span, String::from_str("integer value out of range")),
                    );
                }
            },
            _ => {
                return Err(
                    DecodeError::at(n.span, String::from_str("expected an integer property")),
                );
            },
        },
        None => {
            return Err(DecodeError::at(n.span, String::from_str("property `x` is required")));
        },
    };
    let y = match find_prop(&n.props, "y") {
        Some(v) => match v {
            Scalar::Int(yv) => {
                if -2147483648 <= *yv && *yv <= 2147483647 {
                    *yv as i32
                } else {
                    return Err(
                        DecodeError::at(n.span, String::from_str("integer value out of range")),
                    );
                }
            },
            _ => {
                return Err(
                    DecodeError::at(n.span, String::from_str("expected an integer property")),
                );
            },
        },
        None => {
            return Err(DecodeError::at(n.span, String::from_str("property `y` is required")));
        },
    };
    Ok(Position { x, y })
}

/// The XKB section: five optional string-valued children.
pub open spec fn xkb_names() -> Seq<&'static str> {
    seq!["rules", "model", "layout", "variant", "options"]
}

pub open spec fn spec_xkb(n: DocNode) -> Option<XkbV> {
    let cs = n.children@;
    if n.args@.len() != 0 || n.props@.len() != 0 || !all_names_in(cs, xkb_names()) || !dup_free(
        cs,
        xkb_names(),
    ) {
        None
    } else {
        match (
            field_str(cs, "rules"@, Seq::<char>::empty()),
            field_str(cs, "model"@, Seq::<char>::empty()),
            field_opt_str(cs, "layout"@),
            field_str(cs, "variant"@, Seq::<char>::empty()),
            field_opt_str(cs, "options"@),
        ) {
            (Some(rules), Some(model), Some(layout), Some(variant), Some(options)) => Some(
                XkbV { rules, model, layout, variant, options },
            ),
            _ => None,
        }
    }
}

pub fn decode_xkb(n: &DocNode) -> (r: Result<Xkb, DecodeError>)
    ensures
        r is Ok <==> spec_xkb(*n) is Some,
        r matches Ok(x) ==> spec_xkb(*n) == Some(x@),
{
    let allowed = vec!["rules", "model", "layout", "variant", "options"];
    proof {
        assert(allowed@ =~= xkb_names());
    }
    check_section(n, &allowed)?;
    let cs = &n.children;
    let rules = field_str_exec(cs, "rules", String::new())?;
    let model = field_str_exec(cs, "model", String::new())?;
    let layout = field_opt_str_exec(cs, "layout")?;
    let variant = field_str_exec(cs, "variant", String::new())?;
    let options = field_opt_str_exec(cs, "options")?;
    let x = Xkb { rules, model, layout, variant, options };
    proof {
        assert(x@.rules =~= spec_xkb(*n)->Some_0.rules);
    }
    Ok(x)
}

/// The keyboard section.
pub open spec fn keyboard_names() -> Seq<&'static str> {
    seq!["xkb", "repeat-delay", "repeat-rate", "track-layout"]
}

pub open spec fn field_track_layout(cs: Seq<DocNode>) -> Option<TrackLayout> {
    match first_named(cs, "track-layout"@) {
        None => Some(TrackLayout::Global),
        Some(c) => match spec_str_child(c) {
            Some(s) => track_layout_from_chars(s),
            None => None,
        },
    }
}

pub open spec fn spec_keyboard(n: DocNode) -> Option<KeyboardV> {
    let cs = n.children@;
    if n.args@.len() != 0 || n.props@.len() != 0 || !all_names_in(cs, keyboard_names())
        || !dup_free(cs, keyboard_names()) {
        None
    } else {
        let xkb = match first_named(cs, "xkb"@) {
            None => Some(xkb_default_v()),
            Some(c) => spec_xkb(c),
        };
        match (
            xkb,
            field_int(cs, "repeat-delay"@, 600, 0, 65535),
            field_int(cs, "repeat-rate"@, 25, 0, 255),
            field_track_layout(cs),
        ) {
            (Some(xkb), Some(delay), Some(rate), Some(track)) => Some(
                KeyboardV {
                    xkb,
                    repeat_delay: delay as u16,
                    repeat_rate: rate as u8,
                    track_layout: track,
                },
            ),
            _ => None,
        }
    }
}

pub fn decode_keyboard(n: &DocNode) -> (r: Result<Keyboard, DecodeError>)
    ensures
        r is Ok <==> spec_keyboard(*n) is Some,
        r matches Ok(k) ==> spec_keyboard(*n) == Some(k@),
{
    let allowed = vec!["xkb", "repeat-delay", "repeat-rate", "track-layout"];
    proof {
        assert(allowed@ =~= keyboard_names());
    }
    check_section(n, &allowed)?;
    let cs = &n.children;
    let xkb = match find_named(cs, "xkb") {
        None => Xkb::default(),
        Some(c) => decode_xkb(c)?,
    };
    let delay = field_int_exec(cs, "repeat-delay", 600, 0, 65535)?;
    let rate = field_int_exec(cs, "repeat-rate", 25, 0, 255)?;
    let track = match find_named(cs, "track-layout") {
        None => TrackLayout::Global,
        Some(c) => match one_arg(c) {
            Some(v) => match v {
                Scalar::Str(s) => match TrackLayout::parse(s.as_str()) {
                    Some(t) => t,
                    None => {
                        return Err(
                            DecodeError::at(
                                c.span,
                                String::from_str("expected one of `global`, `window`"),
                            ),
                        );
                    },
                },
                _ => {
                    return Err(
                        DecodeError::at(c.span, String::from_str("expected a string argument")),
                    );
                },
            },
            None => {
                return Err(
                    DecodeError::at(c.span, String::from_str("expected exactly one argument")),
                );
            },
        },
    };
    Ok(Keyboard { xkb, repeat_delay: delay as u16, repeat_rate: rate as u8, track_layout: track })
}

/// An optional acceleration-profile child.
pub open spec fn field_accel_profile(cs: Seq<DocNode>) -> Option<Option<AccelProfile>> {
    match first_named(cs, "accel-profile"@) {
        None => Some(None),
        Some(c) => match spec_str_child(c) {
            Some(s) => match accel_profile_from_chars(s) {
                Some(p) => Some(Some(p)),
                None => None,
            },
            None => None,
        },
    }
}

fn field_accel_profile_exec(cs: &Vec<DocNode>) -> (r: Result<Option<AccelProfile>, DecodeError>)
    ensures
        r is Ok <==> field_accel_profile(cs@) is Some,
        r matches Ok(o) ==> field_accel_profile(cs@) == Some(o),
{
    match find_named(cs, "accel-profile") {
        None => Ok(None),
        Some(c) => match one_arg(c) {
            Some(v) => match v {
                Scalar::Str(s) => match AccelProfile::parse(s.as_str()) {
                    Ok(p) => Ok(Some(p)),
                    Err(e) => Err(DecodeError::at(c.span, e)),
                },
                _ => Err(DecodeError::at(c.span, String::from_str("expected a string argument"))),
            },
            None => Err(
                DecodeError::at(c.span, String::from_str("expected exactly one argument")),
            ),
        },
    }
}

/// An optional tap-button-map child.
pub open spec fn field_tap_button_map(cs: Seq<DocNode>) -> Option<Option<TapButtonMap>> {
    match first_named(cs, "tap-button-map"@) {
        None => Some(None),
        Some(c) => match spec_str_child(c) {
            Some(s) => match tap_button_map_from_chars(s) {
                Some(p) => Some(Some(p)),
                None => None,
            },
            None => None,
        },
    }
}

fn field_tap_button_map_exec(cs: &Vec<DocNode>) -> (r: Result<Option<TapButtonMap>, DecodeError>)
    ensures
        r is Ok <==> field_tap_button_map(cs@) is Some,
        r matches Ok(o) ==> field_tap_button_map(cs@) == Some(o),
{
    match find_named(cs, "tap-button-map") {
        None => Ok(None),
        Some(c) => match one_arg(c) {
            Some(v) => match v {
                Scalar::Str(s) => match TapButtonMap::parse(s.as_str()) {
                    Ok(p) => Ok(Some(p)),
                    Err(e) => Err(DecodeError::at(c.span, e)),
                },
                _ => Err(DecodeError::at(c.span, String::from_str("expected a string argument"))),
            },
            None => Err(
                DecodeError::at(c.span, String::from_str("expected exactly one argument")),
            ),
        },
    }
}

/// The touchpad section.
pub open spec fn touchpad_names() -> Seq<&'static str> {
    seq!["tap", "dwt", "natural-scroll", "accel-speed", "accel-profile", "tap-button-map"]
}

pub open spec fn spec_touchpad(n: DocNode) -> Option<Touchpad> {
    let cs = n.children@;
    if n.args@.len() != 0 || n.props@.len() != 0 || !all_names_in(cs, touchpad_names())
        || !dup_free(cs, touchpad_names()) {
        None
    } else {
        match (
            field_flag(cs, "tap"@),
            field_flag(cs, "dwt"@),
            field_flag(cs, "natural-scroll"@),
            field_decimal(cs, "accel-speed"@, Decimal { neg: false, mantissa: 0u64, scale: 0i64 }),
            field_accel_profile(cs),
            field_tap_button_map(cs),
        ) {
            (Some(tap), Some(dwt), Some(ns), Some(speed), Some(prof), Some(map)) => Some(
                Touchpad {
                    tap,
                    dwt,
                    natural_scroll: ns,
                    accel_speed: speed,
                    accel_profile: prof,
                    tap_button_map: map,
                },
            ),
            _ => None,
        }
    }
}

pub fn decode_touchpad(n: &DocNode) -> (r: Result<Touchpad, DecodeError>)
    ensures
        r is Ok <==> spec_touchpad(*n) is Some,
        r matches Ok(t) ==> spec_touchpad(*n) == Some(t),
{
    let allowed = vec![
        "tap",
        "dwt",
        "natural-scroll",
        "accel-speed",
        "accel-profile",
        "tap-button-map",
    ];
    proof {
        assert(allowed@ =~= touchpad_names());
    }
    check_section(n, &allowed)?;
    let cs = &n.children;
    let tap = field_flag_exec(cs, "tap")?;
    let dwt = field_flag_exec(cs, "dwt")?;
    let ns = field_flag_exec(cs, "natural-scroll")?;
    let speed = field_decimal_exec(cs, "accel-speed", Decimal::zero())?;
    let prof = field_accel_profile_exec(cs)?;
    let map = field_tap_button_map_exec(cs)?;
    Ok(
        Touchpad {
            tap,
            dwt,
            natural_scroll: ns,
            accel_speed: speed,
            accel_profile: prof,
            tap_button_map: map,
        },
    )
}

/// The mouse section.
pub open spec fn mouse_names() -> Seq<&'static str> {
    seq!["natural-scroll", "accel-speed", "accel-profile"]
}

pub open spec fn spec_mouse(n: DocNode) -> Option<Mouse> {
    let cs = n.children@;
    if n.args@.len() != 0 || n.props@.len() != 0 || !all_names_in(cs, mouse_names()) || !dup_free(
        cs,
        mouse_names(),
    ) {
        None
    } else {
        match (
            field_flag(cs, "natural-scroll"@),
            field_decimal(cs, "accel-speed"@, Decimal { neg: false, mantissa: 0u64, scale: 0i64 }),
            field_accel_profile(cs),
        ) {
            (Some(ns), Some(speed), Some(prof)) => Some(
                Mouse { natural_scroll: ns, accel_speed: speed, accel_profile: prof },
            ),
            _ => None,
        }
    }
}

pub fn decode_mouse(n: &DocNode) -> (r: Result<Mouse, DecodeError>)
    ensures
        r is Ok <==> spec_mouse(*n) is Some,
        r matches Ok(m) ==> spec_mouse(*n) == Some(m),
{
    let allowed = vec!["natural-scroll", "accel-speed", "accel-profile"];
    proof {
        assert(allowed@ =~= mouse_names());
    }
    check_section(n, &allowed)?;
    let cs = &n.children;
    let ns = field_flag_exec(cs, "natural-scroll")?;
    let speed = field_decimal_exec(cs, "accel-speed", Decimal::zero())?;
    let prof = field_accel_profile_exec(cs)?;
    Ok(Mouse { natural_scroll: ns, accel_speed: speed, accel_profile: prof })
}

/// The tablet section.
pub open spec fn tablet_names() -> Seq<&'static str> {
    seq!["map-to-output"]
}

pub open spec fn spec_tablet(n: DocNode) -> Option<TabletV> {
    let cs = n.children@;
    if n.args@.len() != 0 || n.props@.len() != 0 || !all_names_in(cs, tablet_names()) || !dup_free(
        cs,
        tablet_names(),
    ) {
        None
    } else {
        match field_opt_str(cs, "map-to-output"@) {
            Some(m) => Some(TabletV { map_to_output: m }),
            None => None,
        }
    }
}

pub fn decode_tablet(n: &DocNode) -> (r: Result<Tablet, DecodeError>)
    ensures
        r is Ok <==> spec_tablet(*n) is Some,
        r matches Ok(t) ==> spec_tablet(*n) == Some(t@),
{
    let allowed = vec!["map-to-output"];
    proof {
        assert(allowed@ =~= tablet_names());
    }
    check_section(n, &allowed)?;
    let m = field_opt_str_exec(&n.children, "map-to-output")?;
    Ok(Tablet { map_to_output: m })
}

/// The input section.
pub open spec fn input_names() -> Seq<&'static str> {
    seq!["keyboard", "touchpad", "mouse", "tablet", "disable-power-key-handling"]
}

pub open spec fn spec_input(n: DocNode) -> Option<InputV> {
    let cs = n.children@;
    if n.args@.len() != 0 || n.props@.len() != 0 || !all_names_in(cs, input_names()) || !dup_free(
        cs,
        input_names(),
    ) {
        None
    } else {
        let keyboard = match first_named(cs, "keyboard"@) {
            None => Some(keyboard_default_v()),
            Some(c) => spec_keyboard(c),
        };
        let touchpad = match first_named(cs, "touchpad"@) {
            None => Some(touchpad_default()),
            Some(c) => spec_touchpad(c),
        };
        let mouse = match first_named(cs, "mouse"@) {
            None => Some(mouse_default()),
            Some(c) => spec_mouse(c),
        };
        let tablet = match first_named(cs, "tablet"@) {
            None => Some(tablet_default_v()),
            Some(c) => spec_tablet(c),
        };
        match (keyboard, touchpad, mouse, tablet, field_flag(cs, "disable-power-key-handling"@)) {
            (Some(keyboard), Some(touchpad), Some(mouse), Some(tablet), Some(dpkh)) => Some(
                InputV {
                    keyboard,
                    touchpad,
                    mouse,
                    tablet,
                    disable_power_key_handling: dpkh,
                },
            ),
            _ => None,
        }
    }
}

pub fn decode_input(n: &DocNode) -> (r: Result<Input, DecodeError>)
    ensures
        r is Ok <==> spec_input(*n) is Some,
        r matches Ok(i) ==> spec_input(*n) == Some(i@),
{
    let allowed = vec!["keyboard", "touchpad", "mouse", "tablet", "disable-power-key-handling"];
    proof {
        assert(allowed@ =~= input_names());
    }
    check_section(n, &allowed)?;
    let cs = &n.children;
    let keyboard = match find_named(cs, "keyboard") {
        None => Keyboard::default(),
        Some(c) => decode_keyboard(c)?,
    };
    let touchpad = match find_named(cs, "touchpad") {
        None => Touchpad::default(),
        Some(c) => decode_touchpad(c)?,
    };
    let mouse = match find_named(cs, "mouse") {
        None => Mouse::default(),
        Some(c) => decode_mouse(c)?,
    };
    let tablet = match find_named(cs, "tablet") {
        None => Tablet::default(),
        Some(c) => decode_tablet(c)?,
    };
    let dpkh = field_flag_exec(cs, "disable-power-key-handling")?;
    Ok(Input { keyboard, touchpad, mouse, tablet, disable_power_key_handling: dpkh })
}

/// The cursor section.
pub open spec fn cursor_names() -> Seq<&'static str> {
    seq!["xcursor-theme", "xcursor-size"]
}

pub open spec fn spec_cursor(n: DocNode) -> Option<CursorV> {
    let cs = n.children@;
    if n.args@.len() != 0 || n.props@.len() != 0 || !all_names_in(cs, cursor_names()) || !dup_free(
        cs,
        cursor_names(),
    ) {
        None
    } else {
        match (field_str(cs, "xcursor-theme"@, "default"@), field_int(
            cs,
            "xcursor-size"@,
            24,
            0,
            255,
        )) {
            (Some(theme), Some(size)) => Some(
                CursorV { xcursor_theme: theme, xcursor_size: size as u8 },
            ),
            _ => None,
        }
    }
}

pub fn decode_cursor(n: &DocNode) -> (r: Result<Cursor, DecodeError>)
    ensures
        r is Ok <==> spec_cursor(*n) is Some,
        r matches Ok(c) ==> spec_cursor(*n) == Some(c@),
{
    let allowed = vec!["xcursor-theme", "xcursor-size"];
    proof {
        assert(allowed@ =~= cursor_names());
    }
    check_section(n, &allowed)?;
    let cs = &n.children;
    let theme = field_str_exec(cs, "xcursor-theme", String::from_str("default"))?;
    let size = field_int_exec(cs, "xcursor-size", 24, 0, 255)?;
    Ok(Cursor { xcursor_theme: theme, xcursor_size: size as u8 })
}

/// The debug section.
pub open spec fn debug_names() -> Seq<&'static str> {
    seq![
        "animation-slowdown",
        "dbus-interfaces-in-non-session-instances",
        "wait-for-frame-completion-before-queueing",
        "enable-color-transformations-capability",
        "enable-overlay-planes",
        "disable-cursor-plane",
        "render-drm-device",
    ]
}

pub open spec fn spec_debug(n: DocNode) -> Option<DebugConfigV> {
    let cs = n.children@;
    if n.args@.len() != 0 || n.props@.len() != 0 || !all_names_in(cs, debug_names()) || !dup_free(
        cs,
        debug_names(),
    ) {
        None
    } else {
        match (
            field_decimal(
                cs,
                "animation-slowdown"@,
                Decimal { neg: false, mantissa: 1u64, scale: 0i64 },
            ),
            field_flag(cs, "dbus-interfaces-in-non-session-instances"@),
            field_flag(cs, "wait-for-frame-completion-before-queueing"@),
            field_flag(cs, "enable-color-transformations-capability"@),
            field_flag(cs, "enable-overlay-planes"@),
            field_flag(cs, "disable-cursor-plane"@),
            field_opt_str(cs, "render-drm-device"@),
        ) {
            (Some(slow), Some(dbus), Some(wait), Some(ct), Some(op), Some(dcp), Some(dev)) => Some(
                DebugConfigV {
                    animation_slowdown: slow,
                    dbus_interfaces_in_non_session_instances: dbus,
                    wait_for_frame_completion_before_queueing: wait,
                    enable_color_transformations_capability: ct,
                    enable_overlay_planes: op,
                    disable_cursor_plane: dcp,
                    render_drm_device: dev,
                },
            ),
            _ => None,
        }
    }
}

pub fn decode_debug(n: &DocNode) -> (r: Result<DebugConfig, DecodeError>)
    ensures
        r is Ok <==> spec_debug(*n) is Some,
        r matches Ok(d) ==> spec_debug(*n) == Some(d@),
{
    let allowed = vec![
        "animation-slowdown",
        "dbus-interfaces-in-non-session-instances",
        "wait-for-frame-completion-before-queueing",
        "enable-color-transformations-capability",
        "enable-overlay-planes",
        "disable-cursor-plane",
        "render-drm-device",
    ];
    proof {
        assert(allowed@ =~= debug_names());
    }
    check_section(n, &allowed)?;
    let cs = &n.children;
    let mut one = Decimal::zero();
    one.mantissa = 1;
    let slow = field_decimal_exec(cs, "animation-slowdown", one)?;
    let dbus = field_flag_exec(cs, "dbus-interfaces-in-non-session-instances")?;
    let wait = field_flag_exec(cs, "wait-for-frame-completion-before-queueing")?;
    let ct = field_flag_exec(cs, "enable-color-transformations-capability")?;
    let op = field_flag_exec(cs, "enable-overlay-planes")?;
    let dcp = field_flag_exec(cs, "disable-cursor-plane")?;
    let dev = field_opt_str_exec(cs, "render-drm-device")?;
    Ok(
        DebugConfig {
            animation_slowdown: slow,
            dbus_interfaces_in_non_session_instances: dbus,
            wait_for_frame_completion_before_queueing: wait,
            enable_color_transformations_capability: ct,
            enable_overlay_planes: op,
            disable_cursor_plane: dcp,
            render_drm_device: dev,
        },
    )
}

/// The transform child of an output, `normal` when absent.
pub open spec fn field_transform(cs: Seq<DocNode>) -> Option<Transform> {
    match first_named(cs, "transform"@) {
        None => Some(Transform::Normal),
        Some(c) => match spec_str_child(c) {
            Some(s) => transform_from_chars(s),
            None => None,
        },
    }
}

/// The mode child of an output, parsed by the mode grammar.
pub open spec fn field_mode(cs: Seq<DocNode>) -> Option<Option<Mode>> {
    match first_named(cs, "mode"@) {
        None => Some(None),
        Some(c) => match spec_str_child(c) {
            Some(s) => match mode_from_chars(s) {
                Some(m) => Some(Some(m)),
                None => None,
            },
            None => None,
        },
    }
}

/// The position child of an output.
pub open spec fn field_position(cs: Seq<DocNode>) -> Option<Option<Position>> {
    match first_named(cs, "position"@) {
        None => Some(None),
        Some(c) => match spec_position(c) {
            Some(p) => Some(Some(p)),
            None => None,
        },
    }
}

/// An output declaration: one string argument naming the output, then
/// the optional children.
pub open spec fn output_names() -> Seq<&'static str> {
    seq!["off", "scale", "transform", "position", "mode"]
}

pub open spec fn spec_output(n: DocNode) -> Option<OutputV> {
    let cs = n.children@;
    if n.args@.len() != 1 || n.props@.len() != 0 || !all_names_in(cs, output_names()) || !dup_free(
        cs,
        output_names(),
    ) {
        None
    } else {
        match n.args[0] {
            Scalar::Str(name) => {
                match (
                    field_flag(cs, "off"@),
                    field_decimal(cs, "scale"@, Decimal { neg: false, mantissa: 1u64, scale: 0i64 }),
                    field_transform(cs),
                    field_position(cs),
                    field_mode(cs),
                ) {
                    (Some(off), Some(scale), Some(transform), Some(position), Some(mode)) => {
                        // The scale must denote a strictly positive number.
                        if scale.neg || scale.mantissa == 0 {
                            None
                        } else {
                            Some(OutputV { off, name: name@, scale, transform, position, mode })
                        }
                    },
                    _ => None,
                }
            },
            _ => None,
        }
    }
}

pub fn decode_output(n: &DocNode) -> (r: Result<Output, DecodeError>)
    ensures
        r is Ok <==> spec_output(*n) is Some,
        r matches Ok(o) ==> spec_output(*n) == Some(o@),
{
    if n.args.len() != 1 {
        return Err(
            DecodeError::at(n.span, String::from_str("expected one argument naming the output")),
        );
    }
    if n.props.len() != 0 {
        return Err(DecodeError::at(n.span, String::from_str("unexpected property")));
    }
    let name = match &n.args[0] {
        Scalar::Str(s) => s.clone(),
        _ => {
            return Err(DecodeError::at(n.span, String::from_str("expected a string argument")));
        },
    };
    let allowed = vec!["off", "scale", "transform", "position", "mode"];
    proof {
        assert(allowed@ =~= output_names());
    }
    match first_unknown(&n.children, &allowed) {
        Some(c) => {
            return Err(
                DecodeError::at(
                    c.span,
                    String::from_str("unexpected node `").concat(c.name.as_str()).concat("`"),
                ),
            );
        },
        None => {},
    }
    check_dup_free(&n.children, &allowed, n.span)?;
    let cs = &n.children;
    let off = field_flag_exec(cs, "off")?;
    let mut one = Decimal::zero();
    one.mantissa = 1;
    let scale = field_decimal_exec(cs, "scale", one)?;
    if scale.neg || scale.mantissa == 0 {
        return Err(DecodeError::at(n.span, String::from_str("scale must be positive")));
    }
    let transform = match find_named(cs, "transform") {
        None => Transform::Normal,
        Some(c) => match one_arg(c) {
            Some(v) => match v {
                Scalar::Str(s) => match Transform::parse(s.as_str()) {
                    Ok(t) => t,
                    Err(e) => {
                        return Err(DecodeError::at(c.span, e));
                    },
                },
                _ => {
                    return Err(
                        DecodeError::at(c.span, String::from_str("expected a string argument")),
                    );
                },
            },
            None => {
                return Err(
                    DecodeError::at(c.span, String::from_str("expected exactly one argument")),
                );
            },
        },
    };
    let position = match find_named(cs, "position") {
        None => None,
        Some(c) => Some(decode_position(c)?),
    };
    let mode = match find_named(cs, "mode") {
        None => None,
        Some(c) => match one_arg(c) {
            Some(v) => match v {
                Scalar::Str(s) => match Mode::parse(s.as_str()) {
                    Ok(m) => Some(m),
                    Err(e) => {
                        return Err(DecodeError::at(c.span, e));
                    },
                },
                _ => {
                    return Err(
                        DecodeError::at(c.span, String::from_str("expected a string argument")),
                    );
                },
            },
            None => {
                return Err(
                    DecodeError::at(c.span, String::from_str("expected exactly one argument")),
                );
            },
        },
    };
    Ok(Output { off, name, scale, transform, position, mode })
}

/// One preset width: `proportion` with a decimal argument, or `fixed`
/// with an integer argument.
pub open spec fn spec_preset(n: DocNode) -> Option<PresetWidth> {
    if !one_arg_shape(n) {
        None
    } else if n.name@ == "proportion"@ {
        match n.args[0] {
            Scalar::Number(raw) => match dec_from_chars(strip_underscores(raw@)) {
                Some(d) => Some(PresetWidth::Proportion(d)),
                None => None,
            },
            _ => None,
        }
    } else if n.name@ == "fixed"@ {
        match n.args[0] {
            Scalar::Int(v) => if i32::MIN <= v <= i32::MAX {
                Some(PresetWidth::Fixed(v as i32))
            } else {
                None
            },
            _ => None,
        }
    } else {
        None
    }
}

pub fn decode_preset(n: &DocNode) -> (r: Result<PresetWidth, DecodeError>)
    ensures
        r is Ok <==> spec_preset(*n) is Some,
        r matches Ok(p) ==> spec_preset(*n) == Some(p),
{
    let v = match one_arg(n) {
        Some(v) => v,
        None => {
            return Err(
                DecodeError::at(n.span, String::from_str("expected exactly one argument")),
            );
        },
    };
    if crate::text::str_eq(n.name.as_str(), "proportion") {
        match v {
            Scalar::Number(raw) => match parse_decimal_str(
                strip_underscores_str(raw.as_str()).as_str(),
            ) {
                Some(d) => Ok(PresetWidth::Proportion(d)),
                None => Err(DecodeError::at(n.span, String::from_str("error parsing number"))),
            },
            _ => Err(DecodeError::at(n.span, String::from_str("expected a decimal argument"))),
        }
    } else if crate::text::str_eq(n.name.as_str(), "fixed") {
        match v {
            Scalar::Int(i) => {
                if -2147483648 <= *i && *i <= 2147483647 {
                    Ok(PresetWidth::Fixed(*i as i32))
                } else {
                    Err(DecodeError::at(n.span, String::from_str("integer value out of range")))
                }
            },
            _ => Err(DecodeError::at(n.span, String::from_str("expected an integer argument"))),
        }
    } else {
        Err(
            DecodeError::at(
                n.span,
                String::from_str("unexpected node `").concat(n.name.as_str()).concat(
                    "`, expected `proportion` or `fixed`",
                ),
            ),
        )
    }
}

/// All children decoded as preset widths, in document order.
pub open spec fn spec_presets(cs: Seq<DocNode>) -> Option<Seq<PresetWidth>>
    decreases cs.len(),
{
    if cs.len() == 0 {
        Some(Seq::<PresetWidth>::empty())
    } else {
        match spec_presets(cs.drop_last()) {
            None => None,
            Some(rest) => match spec_preset(cs.last()) {
                Some(p) => Some(rest.push(p)),
                None => None,
            },
        }
    }
}

proof fn lemma_presets_prefix_none(cs: Seq<DocNode>, i: int)
    requires
        0 <= i <= cs.len(),
        spec_presets(cs.take(i)) is None,
    ensures
        spec_presets(cs) is None,
    decreases cs.len() - i,
{
    if i == cs.len() {
        assert(cs.take(i) =~= cs);
    } else {
        assert(cs.take(i + 1).drop_last() =~= cs.take(i));
        lemma_presets_prefix_none(cs, i + 1);
    }
}

pub fn decode_presets(cs: &Vec<DocNode>) -> (r: Result<Vec<PresetWidth>, DecodeError>)
    ensures
        r is Ok <==> spec_presets(cs@) is Some,
        r matches Ok(v) ==> spec_presets(cs@) == Some(v@),
{
    let n = cs.len();
    let mut acc: Vec<PresetWidth> = Vec::new();
    proof {
        assert(cs@.take(0) =~= Seq::<DocNode>::empty());
        assert(acc@ =~= Seq::<PresetWidth>::empty());
    }
    let mut i: usize = 0;
    while i < n
        invariant
            n == cs@.len(),
            0 <= i <= n,
            spec_presets(cs@.take(i as int)) == Some(acc@),
        decreases n - i,
    {
        proof {
            assert(cs@.take(i as int + 1).drop_last() =~= cs@.take(i as int));
            assert(cs@.take(i as int + 1).last() == cs@[i as int]);
        }
        let p = match decode_preset(&cs[i]) {
            Ok(p) => p,
            Err(e) => {
                proof {
                    lemma_presets_prefix_none(cs@, i as int + 1);
                }
                return Err(e);
            },
        };
        acc.push(p);
        i += 1;
    }
    proof {
        assert(cs@.take(n as int) =~= cs@);
    }
    Ok(acc)
}

/// A child whose own children are preset widths, empty when absent.
pub open spec fn field_presets(cs: Seq<DocNode>, name: Seq<char>) -> Option<Seq<PresetWidth>> {
    match first_named(cs, name) {
        None => Some(Seq::<PresetWidth>::empty()),
        Some(c) => {
            if c.args@.len() == 0 && c.props@.len() == 0 {
                spec_presets(c.children@)
            } else {
                None
            }
        },
    }
}

fn field_presets_exec(cs: &Vec<DocNode>, name: &'static str) -> (r: Result<
    Vec<PresetWidth>,
    DecodeError,
>)
    ensures
        r is Ok <==> field_presets(cs@, name@) is Some,
        r matches Ok(v) ==> field_presets(cs@, name@) == Some(v@),
{
    match find_named(cs, name) {
        None => {
            let empty: Vec<PresetWidth> = Vec::new();
            proof {
                assert(empty@ =~= Seq::<PresetWidth>::empty());
            }
            Ok(empty)
        },
        Some(c) => {
            if c.args.len() != 0 || c.props.len() != 0 {
                Err(DecodeError::at(c.span, String::from_str("unexpected argument or property")))
            } else {
                decode_presets(&c.children)
            }
        },
    }
}

/// The layout section.
pub open spec fn layout_names() -> Seq<&'static str> {
    seq![
        "focus-ring",
        "border",
        "preset-column-widths",
        "default-column-width",
        "center-focused-column",
        "gaps",
        "struts",
    ]
}

pub open spec fn field_center(cs: Seq<DocNode>) -> Option<CenterFocusedColumn> {
    match first_named(cs, "center-focused-column"@) {
        None => Some(CenterFocusedColumn::Never),
        Some(c) => match spec_str_child(c) {
            Some(s) => center_focused_column_from_chars(s),
            None => None,
        },
    }
}

pub open spec fn spec_layout(n: DocNode) -> Option<LayoutV> {
    let cs = n.children@;
    if n.args@.len() != 0 || n.props@.len() != 0 || !all_names_in(cs, layout_names()) || !dup_free(
        cs,
        layout_names(),
    ) {
        None
    } else {
        let focus_ring = match first_named(cs, "focus-ring"@) {
            None => Some(focus_ring_default()),
            Some(c) => spec_focus_ring(c),
        };
        let border = match first_named(cs, "border"@) {
            None => Some(border_default()),
            Some(c) => spec_focus_ring(c),
        };
        let dcw = match first_named(cs, "default-column-width"@) {
            None => Some(Option::<Seq<PresetWidth>>::None),
            Some(c) => {
                if c.args@.len() == 0 && c.props@.len() == 0 {
                    match spec_presets(c.children@) {
                        Some(ws) => Some(Some(ws)),
                        None => None,
                    }
                } else {
                    None
                }
            },
        };
        let struts = match first_named(cs, "struts"@) {
            None => Some(struts_default()),
            Some(c) => spec_struts(c),
        };
        match (
            focus_ring,
            border,
            field_presets(cs, "preset-column-widths"@),
            dcw,
            field_center(cs),
            field_int(cs, "gaps"@, 16, 0, 65535),
            struts,
        ) {
            (
                Some(focus_ring),
                Some(border),
                Some(presets),
                Some(dcw),
                Some(center),
                Some(gaps),
                Some(struts),
            ) => Some(
                LayoutV {
                    focus_ring,
                    border,
                    preset_column_widths: presets,
                    default_column_width: dcw,
                    center_focused_column: center,
                    gaps: gaps as u16,
                    struts,
                },
            ),
            _ => None,
        }
    }
}

pub fn decode_layout(n: &DocNode) -> (r: Result<Layout, DecodeError>)
    ensures
        r is Ok <==> spec_layout(*n) is Some,
        r matches Ok(l) ==> spec_layout(*n) == Some(l@),
{
    let allowed = vec![
        "focus-ring",
        "border",
        "preset-column-widths",
        "default-column-width",
        "center-focused-column",
        "gaps",
        "struts",
    ];
    proof {
        assert(allowed@ =~= layout_names());
    }
    check_section(n, &allowed)?;
    let cs = &n.children;
    let focus_ring = match find_named(cs, "focus-ring") {
        None => FocusRing::default(),
        Some(c) => decode_focus_ring(c)?,
    };
    let border = match find_named(cs, "border") {
        None => crate::config::default_border(),
        Some(c) => decode_focus_ring(c)?,
    };
    let presets = field_presets_exec(cs, "preset-column-widths")?;
    let dcw = match find_named(cs, "default-column-width") {
        None => None,
        Some(c) => {
            if c.args.len() != 0 || c.props.len() != 0 {
                return Err(
                    DecodeError::at(c.span, String::from_str("unexpected argument or property")),
                );
            }
            Some(DefaultColumnWidth(decode_presets(&c.children)?))
        },
    };
    let center = match find_named(cs, "center-focused-column") {
        None => CenterFocusedColumn::Never,
        Some(c) => match one_arg(c) {
            Some(v) => match v {
                Scalar::Str(s) => match CenterFocusedColumn::parse(s.as_str()) {
                    Some(t) => t,
                    None => {
                        return Err(
                            DecodeError::at(
                                c.span,
                                String::from_str(
                                    "expected one of `never`, `always`, `on-overflow`",
                                ),
                            ),
                        );
                    },
                },
                _ => {
                    return Err(
                        DecodeError::at(c.span, String::from_str("expected a string argument")),
                    );
                },
            },
            None => {
                return Err(
                    DecodeError::at(c.span, String::from_str("expected exactly one argument")),
                );
            },
        },
    };
    let gaps = field_int_exec(cs, "gaps", 16, 0, 65535)?;
    let struts = match find_named(cs, "struts") {
        None => Struts::default(),
        Some(c) => decode_struts(c)?,
    };
    Ok(
        Layout {
            focus_ring,
            border,
            preset_column_widths: presets,
            default_column_width: dcw,
            center_focused_column: center,
            gaps: gaps as u16,
            struts,
        },
    )
}

/// The zero-argument actions by their document names.
pub open spec fn spec_zero_action(name: Seq<char>) -> Option<ActionV> {
    if name == "quit"@ {
        Some(ActionV::Quit)
    } else if name == "suspend"@ {
        Some(ActionV::Suspend)
    } else if name == "power-off-monitors"@ {
        Some(ActionV::PowerOffMonitors)
    } else if name == "toggle-debug-tint"@ {
        Some(ActionV::ToggleDebugTint)
    } else if name == "screenshot"@ {
        Some(ActionV::Screenshot)
    } else if name == "screenshot-screen"@ {
        Some(ActionV::ScreenshotScreen)
    } else if name == "screenshot-window"@ {
        Some(ActionV::ScreenshotWindow)
    } else if name == "close-window"@ {
        Some(ActionV::CloseWindow)
    } else if name == "fullscreen-window"@ {
        Some(ActionV::FullscreenWindow)
    } else if name == "focus-column-left"@ {
        Some(ActionV::FocusColumnLeft)
    } else if name == "focus-column-right"@ {
        Some(ActionV::FocusColumnRight)
    } else if name == "focus-column-first"@ {
        Some(ActionV::FocusColumnFirst)
    } else if name == "focus-column-last"@ {
        Some(ActionV::FocusColumnLast)
    } else if name == "focus-window-down"@ {
        Some(ActionV::FocusWindowDown)
    } else if name == "focus-window-up"@ {
        Some(ActionV::FocusWindowUp)
    } else if name == "focus-window-or-workspace-down"@ {
        Some(ActionV::FocusWindowOrWorkspaceDown)
    } else if name == "focus-window-or-workspace-up"@ {
        Some(ActionV::FocusWindowOrWorkspaceUp)
    } else if name == "move-column-left"@ {
        Some(ActionV::MoveColumnLeft)
    } else if name == "move-column-right"@ {
        Some(ActionV::MoveColumnRight)
    } else if name == "move-column-to-first"@ {
        Some(ActionV::MoveColumnToFirst)
    } else if name == "move-column-to-last"@ {
        Some(ActionV::MoveColumnToLast)
    } else if name == "move-window-down"@ {
        Some(ActionV::MoveWindowDown)
    } else if name == "move-window-up"@ {
        Some(ActionV::MoveWindowUp)
    } else if name == "move-window-down-or-to-workspace-down"@ {
        Some(ActionV::MoveWindowDownOrToWorkspaceDown)
    } else if name == "move-window-up-or-to-workspace-up"@ {
        Some(ActionV::MoveWindowUpOrToWorkspaceUp)
    } else if name == "consume-or-expel-window-left"@ {
        Some(ActionV::ConsumeOrExpelWindowLeft)
    } else if name == "consume-or-expel-window-right"@ {
        Some(ActionV::ConsumeOrExpelWindowRight)
    } else if name == "consume-window-into-column"@ {
        Some(ActionV::ConsumeWindowIntoColumn)
    } else if name == "expel-window-from-column"@ {
        Some(ActionV::ExpelWindowFromColumn)
    } else if name == "center-column"@ {
        Some(ActionV::CenterColumn)
    } else if name == "focus-workspace-down"@ {
        Some(ActionV::FocusWorkspaceDown)
    } else if name == "focus-workspace-up"@ {
        Some(ActionV::FocusWorkspaceUp)
    } else if name == "move-window-to-workspace-down"@ {
        Some(ActionV::MoveWindowToWorkspaceDown)
    } else if name == "move-window-to-workspace-up"@ {
        Some(ActionV::MoveWindowToWorkspaceUp)
    } else if name == "move-column-to-workspace-down"@ {
        Some(ActionV::MoveColumnToWorkspaceDown)
    } else if name == "move-column-to-workspace-up"@ {
        Some(ActionV::MoveColumnToWorkspaceUp)
    } else if name == "move-workspace-down"@ {
        Some(ActionV::MoveWorkspaceDown)
    } else if name == "move-workspace-up"@ {
        Some(ActionV::MoveWorkspaceUp)
    } else if name == "focus-monitor-left"@ {
        Some(ActionV::FocusMonitorLeft)
    } else if name == "focus-monitor-right"@ {
        Some(ActionV::FocusMonitorRight)
    } else if name == "focus-monitor-down"@ {
        Some(ActionV::FocusMonitorDown)
    } else if name == "focus-monitor-up"@ {
        Some(ActionV::FocusMonitorUp)
    } else if name == "move-window-to-monitor-left"@ {
        Some(ActionV::MoveWindowToMonitorLeft)
    } else if name == "move-window-to-monitor-right"@ {
        Some(ActionV::MoveWindowToMonitorRight)
    } else if name == "move-window-to-monitor-down"@ {
        Some(ActionV::MoveWindowToMonitorDown)
    } else if name == "move-window-to-monitor-up"@ {
        Some(ActionV::MoveWindowToMonitorUp)
    } else if name == "move-column-to-monitor-left"@ {
        Some(ActionV::MoveColumnToMonitorLeft)
    } else if name == "move-column-to-monitor-right"@ {
        Some(ActionV::MoveColumnToMonitorRight)
    } else if name == "move-column-to-monitor-down"@ {
        Some(ActionV::MoveColumnToMonitorDown)
    } else if name == "move-column-to-monitor-up"@ {
        Some(ActionV::MoveColumnToMonitorUp)
    } else if name == "switch-preset-column-width"@ {
        Some(ActionV::SwitchPresetColumnWidth)
    } else if name == "maximize-column"@ {
        Some(ActionV::MaximizeColumn)
    } else if name == "show-hotkey-overlay"@ {
        Some(ActionV::ShowHotkeyOverlay)
    } else if name == "move-workspace-to-monitor-left"@ {
        Some(ActionV::MoveWorkspaceToMonitorLeft)
    } else if name == "move-workspace-to-monitor-right"@ {
        Some(ActionV::MoveWorkspaceToMonitorRight)
    } else if name == "move-workspace-to-monitor-down"@ {
        Some(ActionV::MoveWorkspaceToMonitorDown)
    } else if name == "move-workspace-to-monitor-up"@ {
        Some(ActionV::MoveWorkspaceToMonitorUp)
    } else {
        None
    }
}

fn zero_action(name: &str) -> (r: Option<Action>)
    ensures
        match r {
            Some(a) => spec_zero_action(name@) == Some(a@),
            None => spec_zero_action(name@) is None,
        },
{
    if crate::text::str_eq(name, "quit") {
        Some(Action::Quit)
    } else if crate::text::str_eq(name, "suspend") {
        Some(Action::Suspend)
    } else if crate::text::str_eq(name, "power-off-monitors") {
        Some(Action::PowerOffMonitors)
    } else if crate::text::str_eq(name, "toggle-debug-tint") {
        Some(Action::ToggleDebugTint)
    } else if crate::text::str_eq(name, "screenshot") {
        Some(Action::Screenshot)
    } else if crate::text::str_eq(name, "screenshot-screen") {
        Some(Action::ScreenshotScreen)
    } else if crate::text::str_eq(name, "screenshot-window") {
        Some(Action::ScreenshotWindow)
    } else if crate::text::str_eq(name, "close-window") {
        Some(Action::CloseWindow)
    } else if crate::text::str_eq(name, "fullscreen-window") {
        Some(Action::FullscreenWindow)
    } else if crate::text::str_eq(name, "focus-column-left") {
        Some(Action::FocusColumnLeft)
    } else if crate::text::str_eq(name, "focus-column-right") {
        Some(Action::FocusColumnRight)
    } else if crate::text::str_eq(name, "focus-column-first") {
        Some(Action::FocusColumnFirst)
    } else if crate::text::str_eq(name, "focus-column-last") {
        Some(Action::FocusColumnLast)
    } else if crate::text::str_eq(name, "focus-window-down") {
        Some(Action::FocusWindowDown)
    } else if crate::text::str_eq(name, "focus-window-up") {
        Some(Action::FocusWindowUp)
    } else if crate::text::str_eq(name, "focus-window-or-workspace-down") {
        Some(Action::FocusWindowOrWorkspaceDown)
    } else if crate::text::str_eq(name, "focus-window-or-workspace-up") {
        Some(Action::FocusWindowOrWorkspaceUp)
    } else if crate::text::str_eq(name, "move-column-left") {
        Some(Action::MoveColumnLeft)
    } else if crate::text::str_eq(name, "move-column-right") {
        Some(Action::MoveColumnRight)
    } else if crate::text::str_eq(name, "move-column-to-first") {
        Some(Action::MoveColumnToFirst)
    } else if crate::text::str_eq(name, "move-column-to-last") {
        Some(Action::MoveColumnToLast)
    } else if crate::text::str_eq(name, "move-window-down") {
        Some(Action::MoveWindowDown)
    } else if crate::text::str_eq(name, "move-window-up") {
        Some(Action::MoveWindowUp)
    } else if crate::text::str_eq(name, "move-window-down-or-to-workspace-down") {
        Some(Action::MoveWindowDownOrToWorkspaceDown)
    } else if crate::text::str_eq(name, "move-window-up-or-to-workspace-up") {
        Some(Action::MoveWindowUpOrToWorkspaceUp)
    } else if crate::text::str_eq(name, "consume-or-expel-window-left") {
        Some(Action::ConsumeOrExpelWindowLeft)
    } else if crate::text::str_eq(name, "consume-or-expel-window-right") {
        Some(Action::ConsumeOrExpelWindowRight)
    } else if crate::text::str_eq(name, "consume-window-into-column") {
        Some(Action::ConsumeWindowIntoColumn)
    } else if crate::text::str_eq(name, "expel-window-from-column") {
        Some(Action::ExpelWindowFromColumn)
    } else if crate::text::str_eq(name, "center-column") {
        Some(Action::CenterColumn)
    } else if crate::text::str_eq(name, "focus-workspace-down") {
        Some(Action::FocusWorkspaceDown)
    } else if crate::text::str_eq(name, "focus-workspace-up") {
        Some(Action::FocusWorkspaceUp)
    } else if crate::text::str_eq(name, "move-window-to-workspace-down") {
        Some(Action::MoveWindowToWorkspaceDown)
    } else if crate::text::str_eq(name, "move-window-to-workspace-up") {
        Some(Action::MoveWindowToWorkspaceUp)
    } else if crate::text::str_eq(name, "move-column-to-workspace-down") {
        Some(Action::MoveColumnToWorkspaceDown)
    } else if crate::text::str_eq(name, "move-column-to-workspace-up") {
        Some(Action::MoveColumnToWorkspaceUp)
    } else if crate::text::str_eq(name, "move-workspace-down") {
        Some(Action::MoveWorkspaceDown)
    } else if crate::text::str_eq(name, "move-workspace-up") {
        Some(Action::MoveWorkspaceUp)
    } else if crate::text::str_eq(name, "focus-monitor-left") {
        Some(Action::FocusMonitorLeft)
    } else if crate::text::str_eq(name, "focus-monitor-right") {
        Some(Action::FocusMonitorRight)
    } else if crate::text::str_eq(name, "focus-monitor-down") {
        Some(Action::FocusMonitorDown)
    } else if crate::text::str_eq(name, "focus-monitor-up") {
        Some(Action::FocusMonitorUp)
    } else if crate::text::str_eq(name, "move-window-to-monitor-left") {
        Some(Action::MoveWindowToMonitorLeft)
    } else if crate::text::str_eq(name, "move-window-to-monitor-right") {
        Some(Action::MoveWindowToMonitorRight)
    } else if crate::text::str_eq(name, "move-window-to-monitor-down") {
        Some(Action::MoveWindowToMonitorDown)
    } else if crate::text::str_eq(name, "move-window-to-monitor-up") {
        Some(Action::MoveWindowToMonitorUp)
    } else if crate::text::str_eq(name, "move-column-to-monitor-left") {
        Some(Action::MoveColumnToMonitorLeft)
    } else if crate::text::str_eq(name, "move-column-to-monitor-right") {
        Some(Action::MoveColumnToMonitorRight)
    } else if crate::text::str_eq(name, "move-column-to-monitor-down") {
        Some(Action::MoveColumnToMonitorDown)
    } else if crate::text::str_eq(name, "move-column-to-monitor-up") {
        Some(Action::MoveColumnToMonitorUp)
    } else if crate::text::str_eq(name, "switch-preset-column-width") {
        Some(Action::SwitchPresetColumnWidth)
    } else if crate::text::str_eq(name, "maximize-column") {
        Some(Action::MaximizeColumn)
    } else if crate::text::str_eq(name, "show-hotkey-overlay") {
        Some(Action::ShowHotkeyOverlay)
    } else if crate::text::str_eq(name, "move-workspace-to-monitor-left") {
        Some(Action::MoveWorkspaceToMonitorLeft)
    } else if crate::text::str_eq(name, "move-workspace-to-monitor-right") {
        Some(Action::MoveWorkspaceToMonitorRight)
    } else if crate::text::str_eq(name, "move-workspace-to-monitor-down") {
        Some(Action::MoveWorkspaceToMonitorDown)
    } else if crate::text::str_eq(name, "move-workspace-to-monitor-up") {
        Some(Action::MoveWorkspaceToMonitorUp)
    } else {
        None
    }
}

/// All positional arguments as strings, for a spawn command.
pub open spec fn spec_str_args(args: Seq<Scalar>) -> Option<Seq<Seq<char>>>
    decreases args.len(),
{
    if args.len() == 0 {
        Some(Seq::<Seq<char>>::empty())
    } else {
        match spec_str_args(args.drop_last()) {
            None => None,
            Some(rest) => match args.last() {
                Scalar::Str(s) => Some(rest.push(s@)),
                _ => None,
            },
        }
    }
}

proof fn lemma_str_args_prefix_none(args: Seq<Scalar>, i: int)
    requires
        0 <= i <= args.len(),
        spec_str_args(args.take(i)) is None,
    ensures
        spec_str_args(args) is None,
    decreases args.len() - i,
{
    if i == args.len() {
        assert(args.take(i) =~= args);
    } else {
        assert(args.take(i + 1).drop_last() =~= args.take(i));
        lemma_str_args_prefix_none(args, i + 1);
    }
}

fn decode_str_args(args: &Vec<Scalar>, span: (usize, usize)) -> (r: Result<Vec<String>, DecodeError>)
    ensures
        r is Ok <==> spec_str_args(args@) is Some,
        r matches Ok(v) ==> spec_str_args(args@) == Some(v@.map(|i: int, s: String| s@)),
{
    let n = args.len();
    let mut acc: Vec<String> = Vec::new();
    proof {
        assert(args@.take(0) =~= Seq::<Scalar>::empty());
        assert(acc@.map(|i: int, s: String| s@) =~= Seq::<Seq<char>>::empty());
    }
    let mut i: usize = 0;
    while i < n
        invariant
            n == args@.len(),
            0 <= i <= n,
            spec_str_args(args@.take(i as int)) == Some(acc@.map(|k: int, s: String| s@)),
        decreases n - i,
    {
        proof {
            assert(args@.take(i as int + 1).drop_last() =~= args@.take(i as int));
            assert(args@.take(i as int + 1).last() == args@[i as int]);
        }
        match &args[i] {
            Scalar::Str(s) => {
                let ghost old_acc = acc@;
                acc.push(s.clone());
                proof {
                    assert(acc@.map(|k: int, s2: String| s2@) =~= old_acc.map(
                        |k: int, s2: String| s2@,
                    ).push(args@[i as int]->Str_0@));
                }
            },
            _ => {
                proof {
                    lemma_str_args_prefix_none(args@, i as int + 1);
                }
                return Err(DecodeError::at(span, String::from_str("expected a string argument")));
            },
        }
        i += 1;
    }
    proof {
        assert(args@.take(n as int) =~= args@);
    }
    Ok(acc)
}

/// One action node: a zero-argument action as a bare node; `spawn` with
/// its string arguments; a workspace action with one integer argument;
/// a sizing action with one size-change string; `switch-layout` with
/// `next` or `prev`.  The internally reserved actions have no document
/// name and cannot be produced here.
pub open spec fn spec_action(n: DocNode) -> Option<ActionV> {
    match spec_zero_action(n.name@) {
        Some(a) => if flag_shape(n) {
            Some(a)
        } else {
            None
        },
        None => {
            if n.name@ == "spawn"@ {
                if n.props@.len() == 0 && n.children@.len() == 0 {
                    match spec_str_args(n.args@) {
                        Some(cmd) => Some(ActionV::Spawn(cmd)),
                        None => None,
                    }
                } else {
                    None
                }
            } else if n.name@ == "focus-workspace"@ {
                match spec_u8_arg(n) {
                    Some(v) => Some(ActionV::FocusWorkspace(v)),
                    None => None,
                }
            } else if n.name@ == "move-window-to-workspace"@ {
                match spec_u8_arg(n) {
                    Some(v) => Some(ActionV::MoveWindowToWorkspace(v)),
                    None => None,
                }
            } else if n.name@ == "move-column-to-workspace"@ {
                match spec_u8_arg(n) {
                    Some(v) => Some(ActionV::MoveColumnToWorkspace(v)),
                    None => None,
                }
            } else if n.name@ == "set-window-height"@ {
                match spec_size_arg(n) {
                    Some(v) => Some(ActionV::SetWindowHeight(v)),
                    None => None,
                }
            } else if n.name@ == "set-column-width"@ {
                match spec_size_arg(n) {
                    Some(v) => Some(ActionV::SetColumnWidth(v)),
                    None => None,
                }
            } else if n.name@ == "switch-layout"@ {
                match spec_str_child(n) {
                    Some(s) => match layout_action_from_chars(s) {
                        Some(d) => Some(ActionV::SwitchLayout(d)),
                        None => None,
                    },
                    None => None,
                }
            } else {
                None
            }
        },
    }
}

/// A single unsigned-eight-bit integer argument.
pub open spec fn spec_u8_arg(n: DocNode) -> Option<u8> {
    if one_arg_shape(n) {
        match n.args[0] {
            Scalar::Int(v) => if 0 <= v <= 255 {
                Some(v as u8)
            } else {
                None
            },
            _ => None,
        }
    } else {
        None
    }
}

/// A single size-change string argument.
pub open spec fn spec_size_arg(n: DocNode) -> Option<SizeChange> {
    match spec_str_child(n) {
        Some(s) => size_change_from_chars(s),
        None => None,
    }
}

pub fn decode_action(n: &DocNode) -> (r: Result<Action, DecodeError>)
    ensures
        r is Ok <==> spec_action(*n) is Some,
        r matches Ok(a) ==> spec_action(*n) == Some(a@),
{
    match zero_action(n.name.as_str()) {
        Some(a) => {
            if is_flag_shape(n) {
                Ok(a)
            } else {
                Err(
                    DecodeError::at(
                        n.span,
                        String::from_str("unexpected argument, property or node"),
                    ),
                )
            }
        },
        None => {
            if crate::text::str_eq(n.name.as_str(), "spawn") {
                if n.props.len() != 0 || n.children.len() != 0 {
                    return Err(
                        DecodeError::at(n.span, String::from_str("unexpected property or node")),
                    );
                }
                let cmd = decode_str_args(&n.args, n.span)?;
                Ok(Action::Spawn(cmd))
            } else if crate::text::str_eq(n.name.as_str(), "focus-workspace") {
                Ok(Action::FocusWorkspace(u8_arg(n)?))
            } else if crate::text::str_eq(n.name.as_str(), "move-window-to-workspace") {
                Ok(Action::MoveWindowToWorkspace(u8_arg(n)?))
            } else if crate::text::str_eq(n.name.as_str(), "move-column-to-workspace") {
                Ok(Action::MoveColumnToWorkspace(u8_arg(n)?))
            } else if crate::text::str_eq(n.name.as_str(), "set-window-height") {
                Ok(Action::SetWindowHeight(size_arg(n)?))
            } else if crate::text::str_eq(n.name.as_str(), "set-column-width") {
                Ok(Action::SetColumnWidth(size_arg(n)?))
            } else if crate::text::str_eq(n.name.as_str(), "switch-layout") {
                match one_arg(n) {
                    Some(v) => match v {
                        Scalar::Str(s) => match LayoutAction::parse(s.as_str()) {
                            Some(d) => Ok(Action::SwitchLayout(d)),
                            None => Err(
                                DecodeError::at(
                                    n.span,
                                    String::from_str("expected one of `next`, `prev`"),
                                ),
                            ),
                        },
                        _ => Err(
                            DecodeError::at(n.span, String::from_str("expected a string argument")),
                        ),
                    },
                    None => Err(
                        DecodeError::at(n.span, String::from_str("expected exactly one argument")),
                    ),
                }
            } else {
                Err(
                    DecodeError::at(
                        n.span,
                        String::from_str("unknown action `").concat(n.name.as_str()).concat("`"),
                    ),
                )
            }
        },
    }
}

fn u8_arg(n: &DocNode) -> (r: Result<u8, DecodeError>)
    ensures
        r is Ok <==> spec_u8_arg(*n) is Some,
        r matches Ok(v) ==> spec_u8_arg(*n) == Some(v),
{
    match one_arg(n) {
        Some(v) => match v {
            Scalar::Int(x) => {
                if 0 <= *x && *x <= 255 {
                    Ok(*x as u8)
                } else {
                    Err(DecodeError::at(n.span, String::from_str("integer value out of range")))
                }
            },
            _ => Err(DecodeError::at(n.span, String::from_str("expected an integer argument"))),
        },
        None => Err(DecodeError::at(n.span, String::from_str("expected exactly one argument"))),
    }
}

fn size_arg(n: &DocNode) -> (r: Result<SizeChange, DecodeError>)
    ensures
        r is Ok <==> spec_size_arg(*n) is Some,
        r matches Ok(v) ==> spec_size_arg(*n) == Some(v),
{
    match one_arg(n) {
        Some(v) => match v {
            Scalar::Str(s) => match SizeChange::parse(s.as_str()) {
                Ok(sc) => Ok(sc),
                Err(e) => Err(DecodeError::at(n.span, e)),
            },
            _ => Err(DecodeError::at(n.span, String::from_str("expected a string argument"))),
        },
        None => Err(DecodeError::at(n.span, String::from_str("expected exactly one argument"))),
    }
}

/// All children decoded as actions, in order.
pub open spec fn spec_actions(cs: Seq<DocNode>) -> Option<Seq<ActionV>>
    decreases cs.len(),
{
    if cs.len() == 0 {
        Some(Seq::<ActionV>::empty())
    } else {
        match spec_actions(cs.drop_last()) {
            None => None,
            Some(rest) => match spec_action(cs.last()) {
                Some(a) => Some(rest.push(a)),
                None => None,
            },
        }
    }
}

proof fn lemma_actions_prefix_none(cs: Seq<DocNode>, i: int)
    requires
        0 <= i <= cs.len(),
        spec_actions(cs.take(i)) is None,
    ensures
        spec_actions(cs) is None,
    decreases cs.len() - i,
{
    if i == cs.len() {
        assert(cs.take(i) =~= cs);
    } else {
        assert(cs.take(i + 1).drop_last() =~= cs.take(i));
        lemma_actions_prefix_none(cs, i + 1);
    }
}

fn decode_actions(cs: &Vec<DocNode>) -> (r: Result<Vec<Action>, DecodeError>)
    ensures
        r is Ok <==> spec_actions(cs@) is Some,
        r matches Ok(v) ==> spec_actions(cs@) == Some(v@.map(|i: int, a: Action| a@)),
{
    let n = cs.len();
    let mut acc: Vec<Action> = Vec::new();
    proof {
        assert(cs@.take(0) =~= Seq::<DocNode>::empty());
        assert(acc@.map(|i: int, a: Action| a@) =~= Seq::<ActionV>::empty());
    }
    let mut i: usize = 0;
    while i < n
        invariant
            n == cs@.len(),
            0 <= i <= n,
            spec_actions(cs@.take(i as int)) == Some(acc@.map(|k: int, a: Action| a@)),
        decreases n - i,
    {
        proof {
            assert(cs@.take(i as int + 1).drop_last() =~= cs@.take(i as int));
            assert(cs@.take(i as int + 1).last() == cs@[i as int]);
        }
        let a = match decode_action(&cs[i]) {
            Ok(a) => a,
            Err(e) => {
                proof {
                    lemma_actions_prefix_none(cs@, i as int + 1);
                }
                return Err(e);
            },
        };
        let ghost old_acc = acc@;
        let ghost av = a@;
        acc.push(a);
        proof {
            assert(acc@.map(|k: int, a2: Action| a2@) =~= old_acc.map(|k: int, a2: Action| a2@)
                .push(av));
        }
        i += 1;
    }
    proof {
        assert(cs@.take(n as int) =~= cs@);
    }
    Ok(acc)
}

/// One bind: the node name is the key chord, resolved through the key
/// table, and the children are the actions it triggers.
pub open spec fn spec_bind(n: DocNode, table: Seq<KeyEntry>) -> Option<BindV> {
    if n.args@.len() != 0 || n.props@.len() != 0 {
        None
    } else {
        match key_from_chars(n.name@, table) {
            None => None,
            Some(key) => match spec_actions(n.children@) {
                Some(actions) => Some(BindV { key, actions }),
                None => None,
            },
        }
    }
}

pub fn decode_bind(n: &DocNode, table: &KeyTable) -> (r: Result<Bind, DecodeError>)
    ensures
        r is Ok <==> spec_bind(*n, table.entries@) is Some,
        r matches Ok(b) ==> spec_bind(*n, table.entries@) == Some(b@),
{
    if n.args.len() != 0 || n.props.len() != 0 {
        return Err(DecodeError::at(n.span, String::from_str("unexpected argument or property")));
    }
    let key = match Key::parse(n.name.as_str(), table) {
        Ok(k) => k,
        Err(e) => {
            return Err(DecodeError::at(n.span, e));
        },
    };
    let actions = decode_actions(&n.children)?;
    Ok(Bind { key, actions })
}

/// All children of the binds section decoded as binds, in order.
pub open spec fn spec_bind_list(cs: Seq<DocNode>, table: Seq<KeyEntry>) -> Option<Seq<BindV>>
    decreases cs.len(),
{
    if cs.len() == 0 {
        Some(Seq::<BindV>::empty())
    } else {
        match spec_bind_list(cs.drop_last(), table) {
            None => None,
            Some(rest) => match spec_bind(cs.last(), table) {
                Some(b) => Some(rest.push(b)),
                None => None,
            },
        }
    }
}

pub open spec fn spec_binds(n: DocNode, table: Seq<KeyEntry>) -> Option<Seq<BindV>> {
    if n.args@.len() != 0 || n.props@.len() != 0 {
        None
    } else {
        spec_bind_list(n.children@, table)
    }
}

proof fn lemma_bind_list_prefix_none(cs: Seq<DocNode>, table: Seq<KeyEntry>, i: int)
    requires
        0 <= i <= cs.len(),
        spec_bind_list(cs.take(i), table) is None,
    ensures
        spec_bind_list(cs, table) is None,
    decreases cs.len() - i,
{
    if i == cs.len() {
        assert(cs.take(i) =~= cs);
    } else {
        assert(cs.take(i + 1).drop_last() =~= cs.take(i));
        lemma_bind_list_prefix_none(cs, table, i + 1);
    }
}

pub fn decode_binds(n: &DocNode, table: &KeyTable) -> (r: Result<Binds, DecodeError>)
    ensures
        r is Ok <==> spec_binds(*n, table.entries@) is Some,
        r matches Ok(b) ==> spec_binds(*n, table.entries@) == Some(b@),
{
    if n.args.len() != 0 || n.props.len() != 0 {
        return Err(DecodeError::at(n.span, String::from_str("unexpected argument or property")));
    }
    let cs = &n.children;
    let m = cs.len();
    let mut acc: Vec<Bind> = Vec::new();
    proof {
        assert(cs@.take(0) =~= Seq::<DocNode>::empty());
        assert(acc@.map(|i: int, b: Bind| b@) =~= Seq::<BindV>::empty());
    }
    let mut i: usize = 0;
    while i < m
        invariant
            cs == &n.children,
            m == cs@.len(),
            0 <= i <= m,
            spec_bind_list(cs@.take(i as int), table.entries@) == Some(
                acc@.map(|k: int, b: Bind| b@),
            ),
        decreases m - i,
    {
        proof {
            assert(cs@.take(i as int + 1).drop_last() =~= cs@.take(i as int));
            assert(cs@.take(i as int + 1).last() == cs@[i as int]);
        }
        let b = match decode_bind(&cs[i], table) {
            Ok(b) => b,
            Err(e) => {
                proof {
                    lemma_bind_list_prefix_none(cs@, table.entries@, i as int + 1);
                }
                return Err(e);
            },
        };
        let ghost old_acc = acc@;
        let ghost bv = b@;
        acc.push(b);
        proof {
            assert(acc@.map(|k: int, b2: Bind| b2@) =~= old_acc.map(|k: int, b2: Bind| b2@).push(
                bv,
            ));
        }
        i += 1;
    }
    proof {
        assert(cs@.take(m as int) =~= cs@);
    }
    Ok(Binds(acc))
}

/// One spawn-at-startup declaration: the command and its arguments.
pub open spec fn spec_spawn(n: DocNode) -> Option<SpawnAtStartupV> {
    if n.props@.len() != 0 || n.children@.len() != 0 {
        None
    } else {
        match spec_str_args(n.args@) {
            Some(cmd) => Some(SpawnAtStartupV { command: cmd }),
            None => None,
        }
    }
}

pub fn decode_spawn(n: &DocNode) -> (r: Result<SpawnAtStartup, DecodeError>)
    ensures
        r is Ok <==> spec_spawn(*n) is Some,
        r matches Ok(s) ==> spec_spawn(*n) == Some(s@),
{
    if n.props.len() != 0 || n.children.len() != 0 {
        return Err(DecodeError::at(n.span, String::from_str("unexpected property or node")));
    }
    let cmd = decode_str_args(&n.args, n.span)?;
    Ok(SpawnAtStartup { command: cmd })
}

/// The outputs declared at top level, in document order.
pub open spec fn spec_outputs(doc: Seq<DocNode>) -> Option<Seq<OutputV>>
    decreases doc.len(),
{
    if doc.len() == 0 {
        Some(Seq::<OutputV>::empty())
    } else {
        match spec_outputs(doc.drop_last()) {
            None => None,
            Some(rest) => {
                if doc.last().name@ == "output"@ {
                    match spec_output(doc.last()) {
                        Some(o) => Some(rest.push(o)),
                        None => None,
                    }
                } else {
                    Some(rest)
                }
            },
        }
    }
}

/// The startup commands declared at top level, in document order.
pub open spec fn spec_spawns(doc: Seq<DocNode>) -> Option<Seq<SpawnAtStartupV>>
    decreases doc.len(),
{
    if doc.len() == 0 {
        Some(Seq::<SpawnAtStartupV>::empty())
    } else {
        match spec_spawns(doc.drop_last()) {
            None => None,
            Some(rest) => {
                if doc.last().name@ == "spawn-at-startup"@ {
                    match spec_spawn(doc.last()) {
                        Some(s) => Some(rest.push(s)),
                        None => None,
                    }
                } else {
                    Some(rest)
                }
            },
        }
    }
}

proof fn lemma_outputs_prefix_none(doc: Seq<DocNode>, i: int)
    requires
        0 <= i <= doc.len(),
        spec_outputs(doc.take(i)) is None,
    ensures
        spec_outputs(doc) is None,
    decreases doc.len() - i,
{
    if i == doc.len() {
        assert(doc.take(i) =~= doc);
    } else {
        assert(doc.take(i + 1).drop_last() =~= doc.take(i));
        lemma_outputs_prefix_none(doc, i + 1);
    }
}

proof fn lemma_spawns_prefix_none(doc: Seq<DocNode>, i: int)
    requires
        0 <= i <= doc.len(),
        spec_spawns(doc.take(i)) is None,
    ensures
        spec_spawns(doc) is None,
    decreases doc.len() - i,
{
    if i == doc.len() {
        assert(doc.take(i) =~= doc);
    } else {
        assert(doc.take(i + 1).drop_last() =~= doc.take(i));
        lemma_spawns_prefix_none(doc, i + 1);
    }
}

/// The top-level node names a document may use.
pub open spec fn config_names() -> Seq<&'static str> {
    seq![
        "input",
        "output",
        "spawn-at-startup",
        "layout",
        "prefer-no-csd",
        "cursor",
        "screenshot-path",
        "hotkey-overlay",
        "binds",
        "debug",
    ]
}

/// The top-level names that may occur at most once.
pub open spec fn config_single_names() -> Seq<&'static str> {
    seq![
        "input",
        "layout",
        "prefer-no-csd",
        "cursor",
        "screenshot-path",
        "hotkey-overlay",
        "binds",
        "debug",
    ]
}

/// The screenshot path: a fixed default when absent, none when `null`.
pub open spec fn field_screenshot_path(doc: Seq<DocNode>) -> Option<Option<Seq<char>>> {
    match first_named(doc, "screenshot-path"@) {
        None => Some(Some(screenshot_path_default_chars())),
        Some(c) => {
            if one_arg_shape(c) {
                match c.args[0] {
                    Scalar::Str(s) => Some(Some(s@)),
                    Scalar::Null => Some(None),
                    _ => None,
                }
            } else {
                None
            }
        },
    }
}

/// The whole document decoded against the schema, given the key-symbol
/// table for resolving bind chords.
pub open spec fn spec_config(doc: Seq<DocNode>, table: Seq<KeyEntry>) -> Option<ConfigV> {
    if !all_names_in(doc, config_names()) || !dup_free(doc, config_single_names()) {
        None
    } else {
        let input = match first_named(doc, "input"@) {
            None => Some(input_default_v()),
            Some(c) => spec_input(c),
        };
        let layout = match first_named(doc, "layout"@) {
            None => Some(layout_default_v()),
            Some(c) => spec_layout(c),
        };
        let cursor = match first_named(doc, "cursor"@) {
            None => Some(cursor_default_v()),
            Some(c) => spec_cursor(c),
        };
        let hotkey = match first_named(doc, "hotkey-overlay"@) {
            None => Some(hotkey_overlay_default()),
            Some(c) => spec_hotkey_overlay(c),
        };
        let binds = match first_named(doc, "binds"@) {
            None => Some(Seq::<BindV>::empty()),
            Some(c) => spec_binds(c, table),
        };
        let debug = match first_named(doc, "debug"@) {
            None => Some(debug_default_v()),
            Some(c) => spec_debug(c),
        };
        match (
            input,
            spec_outputs(doc),
            spec_spawns(doc),
            layout,
            field_flag(doc, "prefer-no-csd"@),
            cursor,
            field_screenshot_path(doc),
            hotkey,
            binds,
            debug,
        ) {
            (
                Some(input),
                Some(outputs),
                Some(spawns),
                Some(layout),
                Some(no_csd),
                Some(cursor),
                Some(path),
                Some(hotkey),
                Some(binds),
                Some(debug),
            ) => Some(
                ConfigV {
                    input,
                    outputs,
                    spawn_at_startup: spawns,
                    layout,
                    prefer_no_csd: no_csd,
                    cursor,
                    screenshot_path: path,
                    hotkey_overlay: hotkey,
                    binds,
                    debug,
                },
            ),
            _ => None,
        }
    }
}

/// Decode a whole document, per `spec_config`: the exact value on
/// success, and a failure exactly when the document does not fit the
/// schema.
pub fn decode_config(doc: &Vec<DocNode>, table: &KeyTable) -> (r: Result<Config, DecodeError>)
    ensures
        r is Ok <==> spec_config(doc@, table.entries@) is Some,
        r matches Ok(c) ==> spec_config(doc@, table.entries@) == Some(c@),
{
    let allowed = vec![
        "input",
        "output",
        "spawn-at-startup",
        "layout",
        "prefer-no-csd",
        "cursor",
        "screenshot-path",
        "hotkey-overlay",
        "binds",
        "debug",
    ];
    proof {
        assert(allowed@ =~= config_names());
    }
    let single = vec![
        "input",
        "layout",
        "prefer-no-csd",
        "cursor",
        "screenshot-path",
        "hotkey-overlay",
        "binds",
        "debug",
    ];
    proof {
        assert(single@ =~= config_single_names());
    }
    match first_unknown(doc, &allowed) {
        Some(c) => {
            return Err(
                DecodeError::at(
                    c.span,
                    String::from_str("unexpected node `").concat(c.name.as_str()).concat("`"),
                ),
            );
        },
        None => {},
    }
    check_dup_free(doc, &single, (0, 0))?;
    let input = match find_named(doc, "input") {
        None => Input::default(),
        Some(c) => decode_input(c)?,
    };
    // Collect the outputs in document order.
    let m = doc.len();
    let mut outputs: Vec<Output> = Vec::new();
    proof {
        assert(doc@.take(0) =~= Seq::<DocNode>::empty());
        assert(outputs@.map(|i: int, o: Output| o@) =~= Seq::<OutputV>::empty());
    }
    let mut i: usize = 0;
    while i < m
        invariant
            m == doc@.len(),
            0 <= i <= m,
            spec_outputs(doc@.take(i as int)) == Some(outputs@.map(|k: int, o: Output| o@)),
        decreases m - i,
    {
        proof {
            assert(doc@.take(i as int + 1).drop_last() =~= doc@.take(i as int));
            assert(doc@.take(i as int + 1).last() == doc@[i as int]);
        }
        if crate::text::str_eq(doc[i].name.as_str(), "output") {
            let o = match decode_output(&doc[i]) {
                Ok(o) => o,
                Err(e) => {
                    proof {
                        lemma_outputs_prefix_none(doc@, i as int + 1);
                    }
                    return Err(e);
                },
            };
            let ghost old_outputs = outputs@;
            let ghost ov = o@;
            outputs.push(o);
            proof {
                assert(outputs@.map(|k: int, o2: Output| o2@) =~= old_outputs.map(
                    |k: int, o2: Output| o2@,
                ).push(ov));
            }
        }
        i += 1;
    }
    proof {
        assert(doc@.take(m as int) =~= doc@);
    }
    // Collect the startup commands in document order.
    let mut spawns: Vec<SpawnAtStartup> = Vec::new();
    proof {
        assert(spawns@.map(|i: int, s: SpawnAtStartup| s@) =~= Seq::<SpawnAtStartupV>::empty());
    }
    let mut j: usize = 0;
    while j < m
        invariant
            m == doc@.len(),
            0 <= j <= m,
            spec_spawns(doc@.take(j as int)) == Some(spawns@.map(|k: int, s: SpawnAtStartup| s@)),
        decreases m - j,
    {
        proof {
            assert(doc@.take(j as int + 1).drop_last() =~= doc@.take(j as int));
            assert(doc@.take(j as int + 1).last() == doc@[j as int]);
        }
        if crate::text::str_eq(doc[j].name.as_str(), "spawn-at-startup") {
            let s = match decode_spawn(&doc[j]) {
                Ok(s) => s,
                Err(e) => {
                    proof {
                        lemma_spawns_prefix_none(doc@, j as int + 1);
                    }
                    return Err(e);
                },
            };
            let ghost old_spawns = spawns@;
            let ghost sv = s@;
            spawns.push(s);
            proof {
                assert(spawns@.map(|k: int, s2: SpawnAtStartup| s2@) =~= old_spawns.map(
                    |k: int, s2: SpawnAtStartup| s2@,
                ).push(sv));
            }
        }
        j += 1;
    }
    proof {
        assert(doc@.take(m as int) =~= doc@);
    }
    let layout = match find_named(doc, "layout") {
        None => Layout::default(),
        Some(c) => decode_layout(c)?,
    };
    let no_csd = field_flag_exec(doc, "prefer-no-csd")?;
    let cursor = match find_named(doc, "cursor") {
        None => Cursor::default(),
        Some(c) => decode_cursor(c)?,
    };
    let path: Option<String> = match find_named(doc, "screenshot-path") {
        None => Some(
            String::from_str("~/Pictures/Screenshots/Screenshot from %Y-%m-%d %H-%M-%S.png"),
        ),
        Some(c) => match one_arg(c) {
            Some(v) => match v {
                Scalar::Str(s) => Some(s.clone()),
                Scalar::Null => None,
                _ => {
                    return Err(
                        DecodeError::at(c.span, String::from_str("expected a string argument")),
                    );
                },
            },
            None => {
                return Err(
                    DecodeError::at(c.span, String::from_str("expected exactly one argument")),
                );
            },
        },
    };
    let hotkey = match find_named(doc, "hotkey-overlay") {
        None => HotkeyOverlay::default(),
        Some(c) => decode_hotkey_overlay(c)?,
    };
    let binds = match find_named(doc, "binds") {
        None => Binds::default(),
        Some(c) => decode_binds(c, table)?,
    };
    let debug = match find_named(doc, "debug") {
        None => DebugConfig::default(),
        Some(c) => decode_debug(c)?,
    };
    Ok(
        Config {
            input,
            outputs,
            spawn_at_startup: spawns,
            layout,
            prefer_no_csd: no_csd,
            cursor,
            screenshot_path: path,
            hotkey_overlay: hotkey,
            binds,
            debug,
        },
    )
}

} // verus!

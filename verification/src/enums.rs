use vstd::prelude::*;

use crate::text::str_eq;

verus! {

/// Pointer acceleration profile.
#[derive(Debug, Clone, Copy, PartialEq, Eq, Structural)]
pub enum AccelProfile {
    Adaptive,
    Flat,
}

pub open spec fn accel_profile_from_chars(s: Seq<char>) -> Option<AccelProfile> {
    if s == "adaptive"@ {
        Some(AccelProfile::Adaptive)
    } else if s == "flat"@ {
        Some(AccelProfile::Flat)
    } else {
        None
    }
}

pub open spec fn accel_profile_err_chars() -> Seq<char> {
    "invalid accel profile, can be \"adaptive\" or \"flat\""@
}

impl AccelProfile {
    pub fn parse(s: &str) -> (r: Result<AccelProfile, String>)
        ensures
            r is Ok <==> accel_profile_from_chars(s@) is Some,
            r matches Ok(v) ==> accel_profile_from_chars(s@) == Some(v),
            r matches Err(e) ==> e@ == accel_profile_err_chars(),
    {
        if str_eq(s, "adaptive") {
            Ok(AccelProfile::Adaptive)
        } else if str_eq(s, "flat") {
            Ok(AccelProfile::Flat)
        } else {
            Err(String::from_str("invalid accel profile, can be \"adaptive\" or \"flat\""))
        }
    }
}

/// Which physical buttons a multi-finger touchpad tap stands for.
#[derive(Debug, Clone, Copy, PartialEq, Eq, Structural)]
pub enum TapButtonMap {
    LeftRightMiddle,
    LeftMiddleRight,
}

pub open spec fn tap_button_map_from_chars(s: Seq<char>) -> Option<TapButtonMap> {
    if s == "left-right-middle"@ {
        Some(TapButtonMap::LeftRightMiddle)
    } else if s == "left-middle-right"@ {
        Some(TapButtonMap::LeftMiddleRight)
    } else {
        None
    }
}

pub open spec fn tap_button_map_err_chars() -> Seq<char> {
    "invalid tap button map, can be \"left-right-middle\" or \"left-middle-right\""@
}

impl TapButtonMap {
    pub fn parse(s: &str) -> (r: Result<TapButtonMap, String>)
        ensures
            r is Ok <==> tap_button_map_from_chars(s@) is Some,
            r matches Ok(v) ==> tap_button_map_from_chars(s@) == Some(v),
            r matches Err(e) ==> e@ == tap_button_map_err_chars(),
    {
        if str_eq(s, "left-right-middle") {
            Ok(TapButtonMap::LeftRightMiddle)
        } else if str_eq(s, "left-middle-right") {
            Ok(TapButtonMap::LeftMiddleRight)
        } else {
            Err(String::from_str(
                "invalid tap button map, can be \"left-right-middle\" or \"left-middle-right\"",
            ))
        }
    }
}

/// When focusing a column re-centers it.
#[derive(Debug, Clone, Copy, PartialEq, Eq, Structural)]
pub enum CenterFocusedColumn {
    /// Focusing a column does not center it.
    Never,
    /// The focused column is always centered.
    Always,
    /// Center the focused column when it does not fit on screen together
    /// with the previously focused one.
    OnOverflow,
}

pub open spec fn center_focused_column_from_chars(s: Seq<char>) -> Option<CenterFocusedColumn> {
    if s == "never"@ {
        Some(CenterFocusedColumn::Never)
    } else if s == "always"@ {
        Some(CenterFocusedColumn::Always)
    } else if s == "on-overflow"@ {
        Some(CenterFocusedColumn::OnOverflow)
    } else {
        None
    }
}

impl CenterFocusedColumn {
    pub fn parse(s: &str) -> (r: Option<CenterFocusedColumn>)
        ensures
            r == center_focused_column_from_chars(s@),
    {
        if str_eq(s, "never") {
            Some(CenterFocusedColumn::Never)
        } else if str_eq(s, "always") {
            Some(CenterFocusedColumn::Always)
        } else if str_eq(s, "on-overflow") {
            Some(CenterFocusedColumn::OnOverflow)
        } else {
            None
        }
    }
}

/// Whether a keyboard layout change applies globally or per window.
#[derive(Debug, Clone, Copy, PartialEq, Eq, Structural)]
pub enum TrackLayout {
    /// The layout change is global.
    Global,
    /// The layout change is window local.
    Window,
}

pub open spec fn track_layout_from_chars(s: Seq<char>) -> Option<TrackLayout> {
    if s == "global"@ {
        Some(TrackLayout::Global)
    } else if s == "window"@ {
        Some(TrackLayout::Window)
    } else {
        None
    }
}

impl TrackLayout {
    pub fn parse(s: &str) -> (r: Option<TrackLayout>)
        ensures
            r == track_layout_from_chars(s@),
    {
        if str_eq(s, "global") {
            Some(TrackLayout::Global)
        } else if str_eq(s, "window") {
            Some(TrackLayout::Window)
        } else {
            None
        }
    }
}

/// Direction for cycling through layouts.
#[derive(Debug, Clone, Copy, PartialEq, Eq, Structural)]
pub enum LayoutAction {
    Next,
    Prev,
}

pub open spec fn layout_action_from_chars(s: Seq<char>) -> Option<LayoutAction> {
    if s == "next"@ {
        Some(LayoutAction::Next)
    } else if s == "prev"@ {
        Some(LayoutAction::Prev)
    } else {
        None
    }
}

impl LayoutAction {
    pub fn parse(s: &str) -> (r: Option<LayoutAction>)
        ensures
            r == layout_action_from_chars(s@),
    {
        if str_eq(s, "next") {
            Some(LayoutAction::Next)
        } else if str_eq(s, "prev") {
            Some(LayoutAction::Prev)
        } else {
            None
        }
    }
}

} // verus!

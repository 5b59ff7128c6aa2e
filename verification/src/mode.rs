use vstd::prelude::*;

use crate::num::Decimal;
use crate::num::dec_from_chars;
use crate::num::parse_decimal_str;
use crate::num::parse_u16_chars;
use crate::num::parse_u16_str;
use crate::text::find_first;
use crate::text::split_once_at;

verus! {

/// A video mode: `WIDTHxHEIGHT` with an optional `@REFRESH` rate in Hz.
#[derive(Debug, Clone, Copy, PartialEq, Eq, Structural)]
pub struct Mode {
    pub width: u16,
    pub height: u16,
    pub refresh: Option<Decimal>,
}

/// Whether a decimal denotes a strictly positive number: in canonical
/// form, not negative and not zero.
pub open spec fn dec_is_positive(d: Decimal) -> bool {
    !d.neg && d.mantissa > 0
}

/// The mode grammar: split at the first `x`; the right part splits at the
/// first `@` into height and refresh.  Width and height are unsigned
/// numbers and must be positive; the refresh, if present, a positive
/// decimal.
pub open spec fn mode_from_chars(s: Seq<char>) -> Option<Mode> {
    let fx = find_first(s, 'x');
    if fx == -1 {
        None
    } else {
        let w = s.take(fx);
        let rest = s.skip(fx + 1);
        let fa = find_first(rest, '@');
        let h = if fa == -1 {
            rest
        } else {
            rest.take(fa)
        };
        let rf = if fa == -1 {
            None
        } else {
            Some(rest.skip(fa + 1))
        };
        match parse_u16_chars(w) {
            None => None,
            Some(width) => if width == 0 {
                None
            } else {
                match parse_u16_chars(h) {
                    None => None,
                    Some(height) => if height == 0 {
                        None
                    } else {
                        match rf {
                            None => Some(Mode { width, height, refresh: None }),
                            Some(rtext) => match dec_from_chars(rtext) {
                                None => None,
                                Some(d) => if dec_is_positive(d) {
                                    Some(Mode { width, height, refresh: Some(d) })
                                } else {
                                    None
                                },
                            },
                        }
                    },
                }
            },
        }
    }
}

/// The failure message for each ill-formed mode string.
pub open spec fn mode_err_chars(s: Seq<char>) -> Seq<char> {
    let fx = find_first(s, 'x');
    if fx == -1 {
        "no 'x' separator found"@
    } else {
        let w = s.take(fx);
        let rest = s.skip(fx + 1);
        let fa = find_first(rest, '@');
        let h = if fa == -1 {
            rest
        } else {
            rest.take(fa)
        };
        let rf = if fa == -1 {
            None
        } else {
            Some(rest.skip(fa + 1))
        };
        if parse_u16_chars(w) is None {
            "error parsing width"@
        } else if parse_u16_chars(w) == Some(0u16) {
            "width must be positive"@
        } else if parse_u16_chars(h) is None {
            "error parsing height"@
        } else if parse_u16_chars(h) == Some(0u16) {
            "height must be positive"@
        } else if rf matches Some(rtext) && dec_from_chars(rtext) is None {
            "error parsing refresh rate"@
        } else {
            "refresh rate must be positive"@
        }
    }
}

impl Mode {
    /// Decode a mode string per `mode_from_chars`; the error names the part
    /// that failed.
    pub fn parse(s: &str) -> (r: Result<Mode, String>)
        ensures
            r is Ok <==> mode_from_chars(s@) is Some,
            r matches Ok(m) ==> mode_from_chars(s@) == Some(m),
            r matches Err(e) ==> e@ == mode_err_chars(s@),
    {
        let (w, rest) = match split_once_at(s, 'x') {
            None => {
                return Err(String::from_str("no 'x' separator found"));
            },
            Some(p) => p,
        };
        let (h, rf): (&str, Option<&str>) = match split_once_at(rest, '@') {
            None => (rest, None),
            Some((a, b)) => (a, Some(b)),
        };
        let width = match parse_u16_str(w) {
            None => {
                return Err(String::from_str("error parsing width"));
            },
            Some(v) => v,
        };
        if width == 0 {
            return Err(String::from_str("width must be positive"));
        }
        let height = match parse_u16_str(h) {
            None => {
                return Err(String::from_str("error parsing height"));
            },
            Some(v) => v,
        };
        if height == 0 {
            return Err(String::from_str("height must be positive"));
        }
        let refresh = match rf {
            None => None,
            Some(rtext) => match parse_decimal_str(rtext) {
                None => {
                    return Err(String::from_str("error parsing refresh rate"));
                },
                Some(d) => {
                    if d.neg || d.mantissa == 0 {
                        return Err(String::from_str("refresh rate must be positive"));
                    }
                    Some(d)
                },
            },
        };
        Ok(Mode { width, height, refresh })
    }
}

} // verus!

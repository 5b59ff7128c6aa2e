use vstd::prelude::*;

use crate::num::Decimal;
use crate::num::dec_from_chars;
use crate::num::parse_decimal_str;
use crate::num::parse_i32_chars;
use crate::num::parse_i32_str;
use crate::text::find_first;
use crate::text::split_once_at;

verus! {

/// A window or column size change: set or adjust, in logical pixels or as
/// a percentage of the output size (the percentage kept as written, not
/// pre-divided).
#[derive(Debug, Clone, Copy, PartialEq, Eq, Structural)]
pub enum SizeChange {
    SetFixed(i32),
    SetProportion(Decimal),
    AdjustFixed(i32),
    AdjustProportion(Decimal),
}

/// The size-change grammar: with a trailing `%` the value is a proportion,
/// otherwise fixed pixels; a leading `+` or `-` selects the adjusting
/// variant.  Nothing may follow the `%`.
pub open spec fn size_change_from_chars(s: Seq<char>) -> Option<SizeChange> {
    let f = find_first(s, '%');
    if f >= 0 {
        let after = s.skip(f + 1);
        let v = s.take(f);
        if after.len() != 0 {
            None
        } else if v.len() == 0 {
            None
        } else if v[0] == '+' || v[0] == '-' {
            match dec_from_chars(v) {
                None => None,
                Some(d) => Some(SizeChange::AdjustProportion(d)),
            }
        } else {
            match dec_from_chars(v) {
                None => None,
                Some(d) => Some(SizeChange::SetProportion(d)),
            }
        }
    } else {
        if s.len() == 0 {
            None
        } else if s[0] == '+' || s[0] == '-' {
            match parse_i32_chars(s) {
                None => None,
                Some(v) => Some(SizeChange::AdjustFixed(v)),
            }
        } else {
            match parse_i32_chars(s) {
                None => None,
                Some(v) => Some(SizeChange::SetFixed(v)),
            }
        }
    }
}

/// The failure message for each ill-formed size-change string.
pub open spec fn size_change_err_chars(s: Seq<char>) -> Seq<char> {
    let f = find_first(s, '%');
    if f >= 0 {
        let after = s.skip(f + 1);
        let v = s.take(f);
        if after.len() != 0 {
            "trailing characters after '%' are not allowed"@
        } else if v.len() == 0 {
            "value is missing"@
        } else {
            "error parsing value"@
        }
    } else {
        if s.len() == 0 {
            "value is missing"@
        } else {
            "error parsing value"@
        }
    }
}

impl SizeChange {
    /// Decode a size-change string per `size_change_from_chars`.
    pub fn parse(s: &str) -> (r: Result<SizeChange, String>)
        ensures
            r is Ok <==> size_change_from_chars(s@) is Some,
            r matches Ok(v) ==> size_change_from_chars(s@) == Some(v),
            r matches Err(e) ==> e@ == size_change_err_chars(s@),
    {
        match split_once_at(s, '%') {
            Some((v, after)) => {
                if after.unicode_len() != 0 {
                    return Err(String::from_str("trailing characters after '%' are not allowed"));
                }
                let vn = v.unicode_len();
                if vn == 0 {
                    return Err(String::from_str("value is missing"));
                }
                let c = v.get_char(0);
                if c == '+' || c == '-' {
                    match parse_decimal_str(v) {
                        None => Err(String::from_str("error parsing value")),
                        Some(d) => Ok(SizeChange::AdjustProportion(d)),
                    }
                } else {
                    match parse_decimal_str(v) {
                        None => Err(String::from_str("error parsing value")),
                        Some(d) => Ok(SizeChange::SetProportion(d)),
                    }
                }
            },
            None => {
                let n = s.unicode_len();
                if n == 0 {
                    return Err(String::from_str("value is missing"));
                }
                let c = s.get_char(0);
                if c == '+' || c == '-' {
                    match parse_i32_str(s) {
                        None => Err(String::from_str("error parsing value")),
                        Some(v) => Ok(SizeChange::AdjustFixed(v)),
                    }
                } else {
                    match parse_i32_str(s) {
                        None => Err(String::from_str("error parsing value")),
                        Some(v) => Ok(SizeChange::SetFixed(v)),
                    }
                }
            },
        }
    }
}

} // verus!

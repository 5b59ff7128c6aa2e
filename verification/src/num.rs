use vstd::prelude::*;

use crate::text::find_first;
use crate::text::find_char;
use crate::text::lemma_find_first;

verus! {

/// An exact decimal number: the value `mantissa / 10^scale`, negated when
/// `neg` holds.  Values are kept canonical: a zero is `(false, 0, 0)` and a
/// non-zero mantissa is never divisible by ten, so two `Decimal`s denote the
/// same number exactly when they are equal field by field.
#[derive(Debug, Clone, Copy, PartialEq, Eq, Structural)]
pub struct Decimal {
    pub neg: bool,
    pub mantissa: u64,
    pub scale: i64,
}

impl Decimal {
    /// The canonical zero.
    pub fn zero() -> (d: Decimal)
        ensures
            d == (Decimal { neg: false, mantissa: 0u64, scale: 0i64 }),
    {
        Decimal { neg: false, mantissa: 0, scale: 0 }
    }

    /// The whole number `n`, in canonical form.
    pub fn from_integer(n: u64) -> (d: Decimal)
        ensures
            Some(d) == norm_dec(false, n, 0),
    {
        normalize(false, n, 0)
    }
}

pub open spec fn is_digit(c: char) -> bool {
    48 <= c as u32 && c as u32 <= 57
}

pub open spec fn digit_val(c: char) -> int {
    c as u32 - 48
}

pub open spec fn all_digits(s: Seq<char>) -> bool {
    forall|i: int| 0 <= i < s.len() ==> is_digit(#[trigger] s[i])
}

/// The value of a digit string read left to right, or `None` on a non-digit
/// or once the value no longer fits in `u64`.
pub open spec fn rd_u64(s: Seq<char>) -> Option<u64>
    decreases s.len(),
{
    if s.len() == 0 {
        Some(0u64)
    } else {
        match rd_u64(s.drop_last()) {
            None => None,
            Some(v) => {
                if !is_digit(s.last()) {
                    None
                } else {
                    let w = v * 10 + digit_val(s.last());
                    if w > u64::MAX {
                        None
                    } else {
                        Some(w as u64)
                    }
                }
            },
        }
    }
}

/// A non-empty all-digit string as a `u64`.
pub open spec fn parse_u64_chars(s: Seq<char>) -> Option<u64> {
    if s.len() == 0 {
        None
    } else {
        rd_u64(s)
    }
}

proof fn lemma_rd_prefix_none(s: Seq<char>, i: int)
    requires
        0 <= i <= s.len(),
        rd_u64(s.take(i)) is None,
    ensures
        rd_u64(s) is None,
    decreases s.len() - i,
{
    if i == s.len() {
        assert(s.take(i) =~= s);
    } else {
        assert(s.take(i + 1).drop_last() =~= s.take(i));
        lemma_rd_prefix_none(s, i + 1);
    }
}

/// Digit-string parse of a whole `&str`.
pub fn parse_u64_str(s: &str) -> (r: Option<u64>)
    ensures
        r == parse_u64_chars(s@),
{
    let n = s.unicode_len();
    if n == 0 {
        return None;
    }
    let mut acc: u64 = 0;
    let mut i: usize = 0;
    while i < n
        invariant
            n == s@.len(),
            0 <= i <= n,
            rd_u64(s@.take(i as int)) == Some(acc),
        decreases n - i,
    {
        let c = s.get_char(i);
        let code = c as u32;
        proof {
            assert(s@.take(i as int + 1).drop_last() =~= s@.take(i as int));
            assert(s@.take(i as int + 1).last() == s@[i as int]);
        }
        if code < 48 || 57 < code {
            proof {
                lemma_rd_prefix_none(s@, i as int + 1);
            }
            return None;
        }
        let d = (code - 48) as u64;
        let step = match acc.checked_mul(10) {
            Some(x) => x.checked_add(d),
            None => None,
        };
        match step {
            Some(w) => {
                acc = w;
            },
            None => {
                proof {
                    lemma_rd_prefix_none(s@, i as int + 1);
                }
                return None;
            },
        }
        i += 1;
    }
    proof {
        assert(s@.take(n as int) =~= s@);
    }
    Some(acc)
}

/// `WIDTH`/`HEIGHT` numbers: digits with an optional leading `+`,
/// fitting in `u16`.
pub open spec fn parse_u16_chars(s: Seq<char>) -> Option<u16> {
    let d = if s.len() > 0 && s[0] == '+' {
        s.drop_first()
    } else {
        s
    };
    match parse_u64_chars(d) {
        Some(v) => if v <= u16::MAX {
            Some(v as u16)
        } else {
            None
        },
        None => None,
    }
}

pub fn parse_u16_str(s: &str) -> (r: Option<u16>)
    ensures
        r == parse_u16_chars(s@),
{
    let n = s.unicode_len();
    let d = if n > 0 && s.get_char(0) == '+' {
        let t = s.substring_char(1, n);
        proof {
            assert(t@ =~= s@.drop_first());
        }
        t
    } else {
        s
    };
    match parse_u64_str(d) {
        Some(v) => if v <= 65535 {
            Some(v as u16)
        } else {
            None
        },
        None => None,
    }
}

/// Signed whole numbers: an optional `+` or `-`, then digits, fitting
/// in `i32`.
pub open spec fn parse_i32_chars(s: Seq<char>) -> Option<i32> {
    let (neg, d) = if s.len() > 0 && s[0] == '+' {
        (false, s.drop_first())
    } else if s.len() > 0 && s[0] == '-' {
        (true, s.drop_first())
    } else {
        (false, s)
    };
    match parse_u64_chars(d) {
        Some(v) => {
            if neg {
                if v <= 2147483648u64 {
                    Some((-(v as int)) as i32)
                } else {
                    None
                }
            } else {
                if v <= 2147483647u64 {
                    Some(v as i32)
                } else {
                    None
                }
            }
        },
        None => None,
    }
}

pub fn parse_i32_str(s: &str) -> (r: Option<i32>)
    ensures
        r == parse_i32_chars(s@),
{
    let n = s.unicode_len();
    let mut neg = false;
    let d = if n > 0 && s.get_char(0) == '+' {
        let t = s.substring_char(1, n);
        proof {
            assert(t@ =~= s@.drop_first());
        }
        t
    } else if n > 0 && s.get_char(0) == '-' {
        neg = true;
        let t = s.substring_char(1, n);
        proof {
            assert(t@ =~= s@.drop_first());
        }
        t
    } else {
        s
    };
    match parse_u64_str(d) {
        Some(v) => {
            if neg {
                if v <= 2147483648 {
                    Some((-(v as i64)) as i32)
                } else {
                    None
                }
            } else {
                if v <= 2147483647 {
                    Some(v as i32)
                } else {
                    None
                }
            }
        },
        None => None,
    }
}

/// Strip factors of ten from a non-zero mantissa, lowering the scale.
pub open spec fn strip_tens(m: nat, sc: int) -> (nat, int)
    decreases m,
{
    if m == 0 || m % 10 != 0 {
        (m, sc)
    } else {
        strip_tens(m / 10, sc - 1)
    }
}

/// The canonical `Decimal` for sign `neg` and value `m / 10^sc`.
pub open spec fn norm_dec(neg: bool, m: u64, sc: int) -> Option<Decimal> {
    if m == 0 {
        Some(Decimal { neg: false, mantissa: 0u64, scale: 0i64 })
    } else {
        let (m2, sc2) = strip_tens(m as nat, sc);
        if i64::MIN <= sc2 <= i64::MAX {
            Some(Decimal { neg, mantissa: m2 as u64, scale: sc2 as i64 })
        } else {
            None
        }
    }
}

fn normalize(neg: bool, m: u64, sc: i64) -> (d: Decimal)
    requires
        sc >= -4000000000i64,
    ensures
        Some(d) == norm_dec(neg, m, sc as int),
{
    if m == 0 {
        return Decimal { neg: false, mantissa: 0, scale: 0 };
    }
    let mut m2: u64 = m;
    let mut sc2: i64 = sc;
    let ghost mut d: int = 1;
    while m2 % 10 == 0
        invariant
            m2 > 0,
            d >= 1,
            m2 as int * d == m as int,
            9 * (sc - sc2) + 1 <= d,
            sc >= -4000000000i64,
            sc2 <= sc,
            strip_tens(m as nat, sc as int) == strip_tens(m2 as nat, sc2 as int),
        decreases m2,
    {
        proof {
            assert(m2 as int / 10 * (10 * d) == m2 as int * d) by (nonlinear_arith)
                requires
                    m2 as int % 10 == 0,
                    m2 > 0,
            ;
            assert(d <= m as int) by (nonlinear_arith)
                requires
                    m2 as int * d == m as int,
                    m2 >= 1,
                    d >= 1,
            ;
        }
        m2 = m2 / 10;
        sc2 = sc2 - 1;
        proof {
            d = 10 * d;
        }
    }
    Decimal { neg, mantissa: m2, scale: sc2 }
}

/// The exponent part after `e`/`E`: an optional sign and digits, capped.
pub open spec fn parse_exp_chars(s: Seq<char>) -> Option<int> {
    let (neg, d) = if s.len() > 0 && s[0] == '+' {
        (false, s.drop_first())
    } else if s.len() > 0 && s[0] == '-' {
        (true, s.drop_first())
    } else {
        (false, s)
    };
    match parse_u64_chars(d) {
        Some(v) => {
            if v > 1000000000u64 {
                None
            } else if neg {
                Some(-(v as int))
            } else {
                Some(v as int)
            }
        },
        None => None,
    }
}

fn parse_exp_str(s: &str) -> (r: Option<i64>)
    ensures
        match r {
            Some(v) => parse_exp_chars(s@) == Some(v as int) && -1000000000 <= v
                <= 1000000000,
            None => parse_exp_chars(s@) is None,
        },
{
    let n = s.unicode_len();
    let mut neg = false;
    let d = if n > 0 && s.get_char(0) == '+' {
        let t = s.substring_char(1, n);
        proof {
            assert(t@ =~= s@.drop_first());
        }
        t
    } else if n > 0 && s.get_char(0) == '-' {
        neg = true;
        let t = s.substring_char(1, n);
        proof {
            assert(t@ =~= s@.drop_first());
        }
        t
    } else {
        s
    };
    match parse_u64_str(d) {
        Some(v) => {
            if v > 1000000000 {
                None
            } else if neg {
                Some(-(v as i64))
            } else {
                Some(v as i64)
            }
        },
        None => None,
    }
}

/// Index of the first `e` or `E` in `s`, or -1.
pub open spec fn find_exp_mark(s: Seq<char>) -> int {
    let fe = find_first(s, 'e');
    let fg = find_first(s, 'E');
    if fe == -1 {
        fg
    } else if fg == -1 {
        fe
    } else if fe < fg {
        fe
    } else {
        fg
    }
}

/// The decimal-number grammar shared by document number literals and the
/// numeric string grammars: an optional sign, digits with at most one dot
/// (at least one digit in all), and an optional `e`/`E` exponent with its
/// own optional sign and at least one digit.  The result is the canonical
/// `Decimal` denoting the written value; `None` when the text does not fit
/// the grammar, the mantissa digits exceed `u64`, the exponent exceeds a
/// thousand million, or the fraction has more than two thousand million
/// digits.
pub open spec fn dec_from_chars(s: Seq<char>) -> Option<Decimal> {
    let fx = find_exp_mark(s);
    let m = if fx == -1 {
        s
    } else {
        s.take(fx)
    };
    let e = if fx == -1 {
        Some(0int)
    } else {
        parse_exp_chars(s.skip(fx + 1))
    };
    match e {
        None => None,
        Some(exp) => dec_from_mantissa(m, exp),
    }
}

/// The sign-and-digits part before any exponent, applied to exponent `exp`.
pub open spec fn dec_from_mantissa(m: Seq<char>, exp: int) -> Option<Decimal> {
    if m.len() == 0 {
        None
    } else {
        let (neg, md) = if m[0] == '+' {
            (false, m.drop_first())
        } else if m[0] == '-' {
            (true, m.drop_first())
        } else {
            (false, m)
        };
        let fd = find_first(md, '.');
        let ip = if fd == -1 {
            md
        } else {
            md.take(fd)
        };
        let fp = if fd == -1 {
            Seq::<char>::empty()
        } else {
            md.skip(fd + 1)
        };
        if ip.len() + fp.len() == 0 || fp.len() > 2000000000 {
            None
        } else {
            match parse_u64_chars_allow_empty(ip + fp) {
                None => None,
                Some(v) => norm_dec(neg, v, fp.len() - exp),
            }
        }
    }
}

/// Like `parse_u64_chars` but an empty string means zero; the grammar
/// guards non-emptiness itself.
pub open spec fn parse_u64_chars_allow_empty(s: Seq<char>) -> Option<u64> {
    rd_u64(s)
}

/// Parse a decimal number, per `dec_from_chars`.
pub fn parse_decimal_str(s: &str) -> (r: Option<Decimal>)
    ensures
        r == dec_from_chars(s@),
{
    let n = s.unicode_len();
    let fe = find_char(s, 'e');
    let fg = find_char(s, 'E');
    proof {
        lemma_find_first(s@, 'e');
        lemma_find_first(s@, 'E');
    }
    let fx: Option<usize> = match (fe, fg) {
        (None, None) => None,
        (Some(i), None) => Some(i),
        (None, Some(j)) => Some(j),
        (Some(i), Some(j)) => if i < j {
            Some(i)
        } else {
            Some(j)
        },
    };
    let (m, exp): (&str, i64) = match fx {
        None => (s, 0i64),
        Some(i) => {
            let mp = s.substring_char(0, i);
            let ep = s.substring_char(i + 1, n);
            proof {
                assert(mp@ =~= s@.take(i as int));
                assert(ep@ =~= s@.skip(i as int + 1));
            }
            match parse_exp_str(ep) {
                None => {
                    return None;
                },
                Some(v) => (mp, v),
            }
        },
    };
    let mn = m.unicode_len();
    if mn == 0 {
        return None;
    }
    let mut neg = false;
    let md: &str = if m.get_char(0) == '+' {
        let t = m.substring_char(1, mn);
        proof {
            assert(t@ =~= m@.drop_first());
        }
        t
    } else if m.get_char(0) == '-' {
        neg = true;
        let t = m.substring_char(1, mn);
        proof {
            assert(t@ =~= m@.drop_first());
        }
        t
    } else {
        m
    };
    let mdn = md.unicode_len();
    let fd = find_char(md, '.');
    proof {
        lemma_find_first(md@, '.');
    }
    let (ip, fp): (&str, &str) = match fd {
        None => {
            let empty = md.substring_char(mdn, mdn);
            proof {
                assert(empty@ =~= Seq::<char>::empty());
            }
            (md, empty)
        },
        Some(i) => {
            let a = md.substring_char(0, i);
            let b = md.substring_char(i + 1, mdn);
            proof {
                assert(a@ =~= md@.take(i as int));
                assert(b@ =~= md@.skip(i as int + 1));
            }
            (a, b)
        },
    };
    let ipn = ip.unicode_len();
    let fpn = fp.unicode_len();
    if ipn == 0 && fpn == 0 {
        return None;
    }
    if fpn > 2000000000 {
        return None;
    }
    let mut digits = String::from_str(ip);
    digits.append(fp);
    let r = match parse_u64_str(digits.as_str()) {
        None => None,
        Some(v) => {
            let sc: i64 = (fpn as i64) - exp;
            Some(normalize(neg, v, sc))
        },
    };
    proof {
        if ip@.len() + fp@.len() > 0 {
            assert(digits@ == ip@ + fp@);
            assert(parse_u64_chars(digits@) == parse_u64_chars_allow_empty(ip@ + fp@));
        }
    }
    r
}

} // verus!

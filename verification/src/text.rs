use vstd::prelude::*;

verus! {

/// ASCII whitespace, the characters stripped by `trim`.
pub open spec fn is_space(c: char) -> bool {
    c == ' ' || c == '\t' || c == '\n' || c == '\r'
}

/// The code point of `c`, with ASCII upper-case letters folded to lower case.
pub open spec fn lower_code(c: char) -> u32 {
    if 65 <= c as u32 && c as u32 <= 90 {
        (c as u32 + 32) as u32
    } else {
        c as u32
    }
}

/// A character sequence as case-folded code points; two strings match
/// case-insensitively exactly when their `lower_seq`s are equal.
pub open spec fn lower_seq(s: Seq<char>) -> Seq<u32> {
    s.map(|i: int, c: char| lower_code(c))
}

/// Index of the first occurrence of `c` in `s`, or -1 if there is none.
pub open spec fn find_first(s: Seq<char>, c: char) -> int
    decreases s.len(),
{
    if s.len() == 0 {
        -1
    } else if s[0] == c {
        0
    } else {
        let r = find_first(s.drop_first(), c);
        if r == -1 {
            -1
        } else {
            r + 1
        }
    }
}

pub proof fn lemma_find_first(s: Seq<char>, c: char)
    ensures
        -1 <= find_first(s, c) < s.len(),
        find_first(s, c) == -1 <==> (forall|j: int| 0 <= j < s.len() ==> s[j] != c),
        find_first(s, c) >= 0 ==> s[find_first(s, c)] == c && (forall|j: int|
            0 <= j < find_first(s, c) ==> s[j] != c),
    decreases s.len(),
{
    if s.len() > 0 && s[0] != c {
        lemma_find_first(s.drop_first(), c);
        let r = find_first(s.drop_first(), c);
        if r == -1 {
            assert(forall|j: int| 0 <= j < s.len() ==> s[j] != c) by {
                assert(forall|j: int| 1 <= j < s.len() ==> s[j] == s.drop_first()[j - 1]);
            }
        } else {
            assert(s[r + 1] == s.drop_first()[r]);
            assert(forall|j: int| 1 <= j < r + 1 ==> s[j] == s.drop_first()[j - 1]);
        }
    }
}

/// Strip leading ASCII whitespace.
pub open spec fn trim_start_chars(s: Seq<char>) -> Seq<char>
    decreases s.len(),
{
    if s.len() > 0 && is_space(s[0]) {
        trim_start_chars(s.drop_first())
    } else {
        s
    }
}

/// Strip trailing ASCII whitespace.
pub open spec fn trim_end_chars(s: Seq<char>) -> Seq<char>
    decreases s.len(),
{
    if s.len() > 0 && is_space(s.last()) {
        trim_end_chars(s.drop_last())
    } else {
        s
    }
}

/// Strip ASCII whitespace from both ends.
pub open spec fn trim_chars(s: Seq<char>) -> Seq<char> {
    trim_end_chars(trim_start_chars(s))
}

/// Character-wise equality of two string slices.
pub fn str_eq(a: &str, b: &str) -> (r: bool)
    ensures
        r == (a@ == b@),
{
    let na = a.unicode_len();
    let nb = b.unicode_len();
    if na != nb {
        return false;
    }
    let mut i: usize = 0;
    while i < na
        invariant
            na == a@.len(),
            na == b@.len(),
            0 <= i <= na,
            forall|j: int| 0 <= j < i ==> a@[j] == b@[j],
        decreases na - i,
    {
        if a.get_char(i) != b.get_char(i) {
            return false;
        }
        i += 1;
    }
    proof {
        assert(a@ =~= b@);
    }
    true
}

/// ASCII-case-insensitive equality of two string slices.
pub fn str_eq_ignore_case(a: &str, b: &str) -> (r: bool)
    ensures
        r == (lower_seq(a@) == lower_seq(b@)),
{
    let na = a.unicode_len();
    let nb = b.unicode_len();
    if na != nb {
        proof {
            assert(lower_seq(a@).len() != lower_seq(b@).len());
        }
        return false;
    }
    let mut i: usize = 0;
    while i < na
        invariant
            na == a@.len(),
            na == b@.len(),
            0 <= i <= na,
            forall|j: int| 0 <= j < i ==> lower_seq(a@)[j] == lower_seq(b@)[j],
        decreases na - i,
    {
        let ca = a.get_char(i) as u32;
        let cb = b.get_char(i) as u32;
        let la = if 65 <= ca && ca <= 90 { ca + 32 } else { ca };
        let lb = if 65 <= cb && cb <= 90 { cb + 32 } else { cb };
        if la != lb {
            proof {
                assert(lower_seq(a@)[i as int] != lower_seq(b@)[i as int]);
            }
            return false;
        }
        i += 1;
    }
    proof {
        assert(lower_seq(a@) =~= lower_seq(b@));
    }
    true
}

/// Index of the first occurrence of `c` in `s`, if any.
pub fn find_char(s: &str, c: char) -> (r: Option<usize>)
    ensures
        match r {
            Some(i) => find_first(s@, c) == i as int,
            None => find_first(s@, c) == -1,
        },
{
    let n = s.unicode_len();
    let mut i: usize = 0;
    while i < n
        invariant
            n == s@.len(),
            0 <= i <= n,
            forall|j: int| 0 <= j < i ==> s@[j] != c,
        decreases n - i,
    {
        if s.get_char(i) == c {
            proof {
                lemma_find_first(s@, c);
                let f = find_first(s@, c);
                assert(f != -1);
                if f < i as int {
                    assert(s@[f] != c);
                }
                if f > i as int {
                    assert(s@[i as int] != c);
                }
            }
            return Some(i);
        }
        i += 1;
    }
    proof {
        lemma_find_first(s@, c);
    }
    None
}

/// Split `s` at the first occurrence of `c`: the parts before and after it.
pub fn split_once_at<'a>(s: &'a str, c: char) -> (r: Option<(&'a str, &'a str)>)
    ensures
        match r {
            Some((x, y)) => {
                let f = find_first(s@, c);
                0 <= f < s@.len() && x@ == s@.subrange(0, f) && y@ == s@.subrange(
                    f + 1,
                    s@.len() as int,
                ) && x@.len() == f && y@.len() == s@.len() - f - 1
            },
            None => find_first(s@, c) == -1,
        },
{
    let n = s.unicode_len();
    match find_char(s, c) {
        Some(i) => {
            proof {
                lemma_find_first(s@, c);
            }
            let x = s.substring_char(0, i);
            let y = s.substring_char(i + 1, n);
            Some((x, y))
        },
        None => None,
    }
}

/// Whether `c` is ASCII whitespace.
pub fn char_is_space(c: char) -> (r: bool)
    ensures
        r == is_space(c),
{
    c == ' ' || c == '\t' || c == '\n' || c == '\r'
}

/// `s` with ASCII whitespace stripped from both ends.
pub fn trim<'a>(s: &'a str) -> (r: &'a str)
    ensures
        r@ == trim_chars(s@),
{
    let n = s.unicode_len();
    proof {
        assert(s@.skip(0) =~= s@);
    }
    let mut ts: usize = 0;
    while ts < n && char_is_space(s.get_char(ts))
        invariant
            n == s@.len(),
            0 <= ts <= n,
            trim_start_chars(s@) == trim_start_chars(s@.skip(ts as int)),
        decreases n - ts,
    {
        proof {
            assert(s@.skip(ts as int).drop_first() =~= s@.skip(ts as int + 1));
        }
        ts += 1;
    }
    proof {
        assert(trim_start_chars(s@.skip(ts as int)) == s@.skip(ts as int));
    }
    let mut te: usize = n;
    proof {
        assert(s@.skip(ts as int).take(n - ts as int) =~= s@.skip(ts as int));
    }
    while te > ts && char_is_space(s.get_char(te - 1))
        invariant
            n == s@.len(),
            0 <= ts <= te <= n,
            trim_start_chars(s@) == s@.skip(ts as int),
            trim_end_chars(s@.skip(ts as int)) == trim_end_chars(
                s@.skip(ts as int).take(te - ts as int),
            ),
        decreases te,
    {
        proof {
            let part = s@.skip(ts as int).take(te - ts as int);
            assert(part.last() == s@[te - 1]);
            assert(part.drop_last() =~= s@.skip(ts as int).take(te - 1 - ts as int));
        }
        te -= 1;
    }
    proof {
        let part = s@.skip(ts as int).take(te - ts as int);
        if part.len() > 0 {
            assert(part.last() == s@[te - 1]);
        }
        assert(trim_end_chars(part) == part);
    }
    let r = s.substring_char(ts, te);
    proof {
        assert(r@ =~= s@.skip(ts as int).take(te - ts as int));
    }
    r
}

/// `s` with every underscore removed; document number literals may group
/// digits with underscores, which carry no value.
pub open spec fn strip_underscores(s: Seq<char>) -> Seq<char>
    decreases s.len(),
{
    if s.len() == 0 {
        Seq::<char>::empty()
    } else {
        let r = strip_underscores(s.drop_last());
        if s.last() == '_' {
            r
        } else {
            r.push(s.last())
        }
    }
}

pub fn strip_underscores_str(s: &str) -> (r: String)
    ensures
        r@ == strip_underscores(s@),
{
    let n = s.unicode_len();
    let mut out = String::new();
    proof {
        assert(s@.take(0) =~= Seq::<char>::empty());
        assert(out@ =~= strip_underscores(s@.take(0)));
    }
    let mut i: usize = 0;
    while i < n
        invariant
            n == s@.len(),
            0 <= i <= n,
            out@ == strip_underscores(s@.take(i as int)),
        decreases n - i,
    {
        proof {
            assert(s@.take(i as int + 1).drop_last() =~= s@.take(i as int));
            assert(s@.take(i as int + 1).last() == s@[i as int]);
        }
        if s.get_char(i) != '_' {
            let piece = s.substring_char(i, i + 1);
            proof {
                assert(piece@ =~= seq![s@[i as int]]);
            }
            let ghost prev = out@;
            out.append(piece);
            proof {
                assert(out@ =~= prev.push(s@[i as int]));
            }
        }
        i += 1;
    }
    proof {
        assert(s@.take(n as int) =~= s@);
    }
    out
}

} // verus!

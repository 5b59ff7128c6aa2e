use vstd::prelude::*;

use crate::text::find_first;
use crate::text::lower_seq;
use crate::text::split_once_at;
use crate::text::str_eq_ignore_case;
use crate::text::trim;
use crate::text::trim_chars;

verus! {

pub const MOD_CTRL: u8 = 1;

pub const MOD_SHIFT: u8 = 2;

pub const MOD_ALT: u8 = 4;

pub const MOD_SUPER: u8 = 8;

/// The modifier reserved for the compositor, written `Mod` in documents.
pub const MOD_COMPOSITOR: u8 = 16;

/// A set of keyboard modifiers, one bit each; chords match by exact
/// bitset equality.
#[derive(Debug, Clone, Copy, PartialEq, Eq, Structural)]
pub struct Modifiers {
    pub bits: u8,
}

impl Modifiers {
    pub fn empty() -> (m: Modifiers)
        ensures
            m.bits == 0,
    {
        Modifiers { bits: 0 }
    }

    pub fn new(bits: u8) -> (m: Modifiers)
        ensures
            m.bits == bits,
    {
        Modifiers { bits }
    }

    pub fn contains(&self, bits: u8) -> (r: bool)
        ensures
            r == (self.bits & bits == bits),
    {
        self.bits & bits == bits
    }
}

/// One entry of the key-symbol name table: a symbol name and its code.
#[derive(Debug, Clone, PartialEq, Eq)]
pub struct KeyEntry {
    pub name: String,
    pub sym: u32,
}

/// The system key-symbol name table, supplied at the library boundary;
/// lookups match names ASCII-case-insensitively, first entry wins.
#[derive(Debug, Clone, PartialEq, Eq)]
pub struct KeyTable {
    pub entries: Vec<KeyEntry>,
}

/// First table entry whose name matches `name` case-insensitively.
pub open spec fn lookup_sym(table: Seq<KeyEntry>, name: Seq<char>) -> Option<u32>
    decreases table.len(),
{
    if table.len() == 0 {
        None
    } else if lower_seq(table[0].name@) == lower_seq(name) {
        Some(table[0].sym)
    } else {
        lookup_sym(table.drop_first(), name)
    }
}

impl KeyTable {
    pub fn new() -> (t: KeyTable)
        ensures
            t.entries@ =~= Seq::<KeyEntry>::empty(),
    {
        KeyTable { entries: Vec::new() }
    }

    pub fn push(&mut self, name: String, sym: u32)
        ensures
            final(self).entries@ == old(self).entries@.push(KeyEntry { name, sym }),
    {
        self.entries.push(KeyEntry { name, sym });
    }

    /// Resolve a key name, per `lookup_sym`.
    pub fn lookup(&self, name: &str) -> (r: Option<u32>)
        ensures
            r == lookup_sym(self.entries@, name@),
    {
        let n = self.entries.len();
        proof {
            assert(self.entries@.skip(0) =~= self.entries@);
        }
        let mut i: usize = 0;
        while i < n
            invariant
                n == self.entries@.len(),
                0 <= i <= n,
                lookup_sym(self.entries@, name@) == lookup_sym(self.entries@.skip(i as int), name@),
            decreases n - i,
        {
            proof {
                assert(self.entries@.skip(i as int).drop_first() =~= self.entries@.skip(
                    i as int + 1,
                ));
                assert(self.entries@.skip(i as int)[0] == self.entries@[i as int]);
            }
            if str_eq_ignore_case(self.entries[i].name.as_str(), name) {
                return Some(self.entries[i].sym);
            }
            i += 1;
        }
        proof {
            assert(self.entries@.skip(n as int) =~= Seq::<KeyEntry>::empty());
        }
        None
    }
}

/// A key chord: a resolved key symbol plus a modifier bitset.
#[derive(Debug, Clone, Copy, PartialEq, Eq, Structural)]
pub struct Key {
    pub keysym: u32,
    pub modifiers: Modifiers,
}

/// The modifier bit named by one `+`-separated part, after trimming,
/// case-insensitively; `None` for an unknown modifier name.
pub open spec fn mod_bit_of(part: Seq<char>) -> Option<u8> {
    let t = lower_seq(trim_chars(part));
    if t == lower_seq("mod"@) {
        Some(MOD_COMPOSITOR)
    } else if t == lower_seq("ctrl"@) || t == lower_seq("control"@) {
        Some(MOD_CTRL)
    } else if t == lower_seq("shift"@) {
        Some(MOD_SHIFT)
    } else if t == lower_seq("alt"@) {
        Some(MOD_ALT)
    } else if t == lower_seq("super"@) || t == lower_seq("win"@) {
        Some(MOD_SUPER)
    } else {
        None
    }
}

/// Split a chord on `+`: the bitwise OR of the modifier parts (or `None`
/// on the first unknown one) and the trailing key-name part.
pub open spec fn chord_parts(s: Seq<char>) -> (Option<u8>, Seq<char>)
    decreases s.len(),
{
    let f = find_first(s, '+');
    if f < 0 || f >= s.len() {
        (Some(0u8), s)
    } else {
        let part = s.take(f);
        let rest = s.skip(f + 1);
        let (mrest, key) = chord_parts(rest);
        match (mod_bit_of(part), mrest) {
            (Some(b), Some(m)) => (Some((b | m) as u8), key),
            _ => (None, key),
        }
    }
}

/// The first unknown modifier part, trimmed; meaningful when
/// `chord_parts(s).0` is `None`.
pub open spec fn chord_bad_part(s: Seq<char>) -> Seq<char>
    decreases s.len(),
{
    let f = find_first(s, '+');
    if f < 0 || f >= s.len() {
        Seq::<char>::empty()
    } else {
        let part = s.take(f);
        let rest = s.skip(f + 1);
        if mod_bit_of(part) is None {
            trim_chars(part)
        } else {
            chord_bad_part(rest)
        }
    }
}

/// The decoded chord: all modifier parts known, and the key name resolved
/// through the table to a non-empty symbol.
pub open spec fn key_from_chars(s: Seq<char>, table: Seq<KeyEntry>) -> Option<Key> {
    let (mods, keyname) = chord_parts(s);
    match mods {
        None => None,
        Some(m) => match lookup_sym(table, keyname) {
            None => None,
            Some(sym) => if sym == 0 {
                None
            } else {
                Some(Key { keysym: sym, modifiers: Modifiers { bits: m } })
            },
        },
    }
}

/// The failure message: the offending modifier, or the unresolved key name.
pub open spec fn key_err_chars(s: Seq<char>, table: Seq<KeyEntry>) -> Seq<char> {
    if chord_parts(s).0 is None {
        "invalid modifier: "@ + chord_bad_part(s)
    } else {
        "invalid key: "@ + chord_parts(s).1
    }
}

impl Key {
    /// Decode a chord such as `Mod+Shift+L`: every part before the last
    /// names a modifier (case-insensitively, `ctrl`/`control`, `win` for
    /// `super`, `mod` for the compositor's modifier), and the last part
    /// names the key, resolved through `table`.
    pub fn parse(s: &str, table: &KeyTable) -> (r: Result<Key, String>)
        ensures
            r is Ok <==> key_from_chars(s@, table.entries@) is Some,
            r matches Ok(k) ==> key_from_chars(s@, table.entries@) == Some(k),
            r matches Err(e) ==> e@ == key_err_chars(s@, table.entries@),
        decreases s@.len(),
    {
        match split_once_at(s, '+') {
            None => {
                // No modifiers: the whole string is the key name.
                match table.lookup(s) {
                    Some(sym) => {
                        if sym != 0 {
                            Ok(Key { keysym: sym, modifiers: Modifiers { bits: 0 } })
                        } else {
                            Err(String::from_str("invalid key: ").concat(s))
                        }
                    },
                    None => Err(String::from_str("invalid key: ").concat(s)),
                }
            },
            Some((part, rest)) => {
                let pt = trim(part);
                let bit: u8 = if str_eq_ignore_case(pt, "mod") {
                    MOD_COMPOSITOR
                } else if str_eq_ignore_case(pt, "ctrl") || str_eq_ignore_case(pt, "control") {
                    MOD_CTRL
                } else if str_eq_ignore_case(pt, "shift") {
                    MOD_SHIFT
                } else if str_eq_ignore_case(pt, "alt") {
                    MOD_ALT
                } else if str_eq_ignore_case(pt, "super") || str_eq_ignore_case(pt, "win") {
                    MOD_SUPER
                } else {
                    return Err(String::from_str("invalid modifier: ").concat(pt));
                };
                proof {
                    assert(rest@.len() < s@.len());
                }
                match Key::parse(rest, table) {
                    Ok(k) => Ok(
                        Key {
                            keysym: k.keysym,
                            modifiers: Modifiers { bits: bit | k.modifiers.bits },
                        },
                    ),
                    Err(e) => Err(e),
                }
            },
        }
    }
}

} // verus!

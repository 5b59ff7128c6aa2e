use vstd::prelude::*;

use crate::text::str_eq;

verus! {

/// An output transform: a counter-clockwise rotation, optionally flipped.
#[derive(Debug, Clone, Copy, PartialEq, Eq, Structural)]
pub enum Transform {
    Normal,
    Rotate90,
    Rotate180,
    Rotate270,
    Flipped,
    Flipped90,
    Flipped180,
    Flipped270,
}

/// The fixed transform vocabulary; every other string is rejected.
pub open spec fn transform_from_chars(s: Seq<char>) -> Option<Transform> {
    if s == "normal"@ {
        Some(Transform::Normal)
    } else if s == "90"@ {
        Some(Transform::Rotate90)
    } else if s == "180"@ {
        Some(Transform::Rotate180)
    } else if s == "270"@ {
        Some(Transform::Rotate270)
    } else if s == "flipped"@ {
        Some(Transform::Flipped)
    } else if s == "flipped-90"@ {
        Some(Transform::Flipped90)
    } else if s == "flipped-180"@ {
        Some(Transform::Flipped180)
    } else if s == "flipped-270"@ {
        Some(Transform::Flipped270)
    } else {
        None
    }
}

/// The canonical name of each transform, the inverse of
/// `transform_from_chars` on the valid vocabulary.
pub open spec fn transform_name_chars(t: Transform) -> Seq<char> {
    match t {
        Transform::Normal => "normal"@,
        Transform::Rotate90 => "90"@,
        Transform::Rotate180 => "180"@,
        Transform::Rotate270 => "270"@,
        Transform::Flipped => "flipped"@,
        Transform::Flipped90 => "flipped-90"@,
        Transform::Flipped180 => "flipped-180"@,
        Transform::Flipped270 => "flipped-270"@,
    }
}

impl Transform {
    /// Decode a transform name; unknown names fail with the message listing
    /// the valid set.
    pub fn parse(s: &str) -> (r: Result<Transform, String>)
        ensures
            r is Ok <==> transform_from_chars(s@) is Some,
            r matches Ok(t) ==> transform_from_chars(s@) == Some(t),
            r matches Err(e) ==> e@ == transform_err_chars(),
    {
        if str_eq(s, "normal") {
            Ok(Transform::Normal)
        } else if str_eq(s, "90") {
            Ok(Transform::Rotate90)
        } else if str_eq(s, "180") {
            Ok(Transform::Rotate180)
        } else if str_eq(s, "270") {
            Ok(Transform::Rotate270)
        } else if str_eq(s, "flipped") {
            Ok(Transform::Flipped)
        } else if str_eq(s, "flipped-90") {
            Ok(Transform::Flipped90)
        } else if str_eq(s, "flipped-180") {
            Ok(Transform::Flipped180)
        } else if str_eq(s, "flipped-270") {
            Ok(Transform::Flipped270)
        } else {
            Err(String::from_str(
                "invalid transform, can be \"normal\", \"90\", \"180\", \"270\", \"flipped\", \"flipped-90\", \"flipped-180\" or \"flipped-270\"",
            ))
        }
    }

    /// The canonical name, suitable for re-encoding.
    pub fn name(&self) -> (r: &'static str)
        ensures
            r@ == transform_name_chars(*self),
    {
        match self {
            Transform::Normal => "normal",
            Transform::Rotate90 => "90",
            Transform::Rotate180 => "180",
            Transform::Rotate270 => "270",
            Transform::Flipped => "flipped",
            Transform::Flipped90 => "flipped-90",
            Transform::Flipped180 => "flipped-180",
            Transform::Flipped270 => "flipped-270",
        }
    }
}

pub open spec fn transform_err_chars() -> Seq<char> {
    "invalid transform, can be \"normal\", \"90\", \"180\", \"270\", \"flipped\", \"flipped-90\", \"flipped-180\" or \"flipped-270\""@
}

/// Decoding the canonical name of any transform yields that transform back:
/// the transform vocabulary round-trips.
pub proof fn lemma_transform_round_trip(t: Transform)
    ensures
        transform_from_chars(transform_name_chars(t)) == Some(t),
{
    broadcast use vstd::string::axiom_str_literal_len;
    broadcast use vstd::string::axiom_str_literal_get_char;

    reveal_strlit("normal");
    reveal_strlit("90");
    reveal_strlit("180");
    reveal_strlit("270");
    reveal_strlit("flipped");
    reveal_strlit("flipped-90");
    reveal_strlit("flipped-180");
    reveal_strlit("flipped-270");
    assert("normal"@.len() == 6);
    assert("90"@.len() == 2);
    assert("180"@.len() == 3);
    assert("270"@.len() == 3);
    assert("flipped"@.len() == 7);
    assert("flipped-90"@.len() == 10);
    assert("flipped-180"@.len() == 11);
    assert("flipped-270"@.len() == 11);
    assert("180"@[0] == '1');
    assert("270"@[0] == '2');
    assert("flipped-180"@[8] == '1');
    assert("flipped-270"@[8] == '2');
}

} // verus!

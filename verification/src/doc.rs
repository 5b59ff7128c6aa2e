use vstd::prelude::*;

use crate::text::str_eq;

verus! {

/// One scalar value of a document node: a positional argument or a
/// property value.  Number literals keep their raw text and are parsed by
/// the library's own decimal grammar; an integer literal that does not fit
/// `i64` is kept as `IntOutOfRange` so that decoding it fails cleanly.
#[derive(Debug, Clone, PartialEq, Eq)]
pub enum Scalar {
    Null,
    Bool(bool),
    Int(i64),
    IntOutOfRange,
    Number(String),
    Str(String),
}

/// A named property of a node.
#[derive(Debug, PartialEq, Eq)]
pub struct Prop {
    pub name: String,
    pub value: Scalar,
}

/// One node of the generic document tree: a name, positional arguments,
/// named properties, child nodes, and the byte span of the node in the
/// source text for diagnostics.
#[derive(Debug, PartialEq, Eq)]
pub struct DocNode {
    pub name: String,
    pub span: (usize, usize),
    pub args: Vec<Scalar>,
    pub props: Vec<Prop>,
    pub children: Vec<DocNode>,
}

/// A decode failure: a message and the byte span of the offending node or
/// value in the source text.
#[derive(Debug, PartialEq, Eq)]
pub struct DecodeError {
    pub message: String,
    pub span: (usize, usize),
}

impl DecodeError {
    pub fn at(span: (usize, usize), message: String) -> (e: DecodeError)
        ensures
            e.message == message,
            e.span == span,
    {
        DecodeError { message, span }
    }
}

/// How many children of `cs` have the name `name`.
pub open spec fn count_named(cs: Seq<DocNode>, name: Seq<char>) -> int
    decreases cs.len(),
{
    if cs.len() == 0 {
        0
    } else {
        count_named(cs.drop_last(), name) + if cs.last().name@ == name {
            1int
        } else {
            0int
        }
    }
}

/// The first child of `cs` named `name`, if any.
pub open spec fn first_named(cs: Seq<DocNode>, name: Seq<char>) -> Option<DocNode>
    decreases cs.len(),
{
    if cs.len() == 0 {
        None
    } else if cs[0].name@ == name {
        Some(cs[0])
    } else {
        first_named(cs.drop_first(), name)
    }
}

pub proof fn lemma_count_named_take_all(cs: Seq<DocNode>, name: Seq<char>)
    ensures
        count_named(cs.take(cs.len() as int), name) == count_named(cs, name),
{
    assert(cs.take(cs.len() as int) =~= cs);
}

/// Count the children named `name`.
pub fn count_named_exec(cs: &Vec<DocNode>, name: &str) -> (r: usize)
    ensures
        r == count_named(cs@, name@),
        r <= cs@.len(),
{
    let n = cs.len();
    let mut i: usize = 0;
    let mut cnt: usize = 0;
    proof {
        assert(cs@.take(0) =~= Seq::<DocNode>::empty());
    }
    while i < n
        invariant
            n == cs@.len(),
            0 <= i <= n,
            cnt <= i,
            cnt == count_named(cs@.take(i as int), name@),
        decreases n - i,
    {
        proof {
            assert(cs@.take(i as int + 1).drop_last() =~= cs@.take(i as int));
            assert(cs@.take(i as int + 1).last() == cs@[i as int]);
        }
        if str_eq(cs[i].name.as_str(), name) {
            cnt += 1;
        }
        i += 1;
    }
    proof {
        lemma_count_named_take_all(cs@, name@);
    }
    cnt
}

/// Find the first child named `name`.
pub fn find_named<'a>(cs: &'a Vec<DocNode>, name: &str) -> (r: Option<&'a DocNode>)
    ensures
        match r {
            Some(c) => first_named(cs@, name@) == Some(*c),
            None => first_named(cs@, name@) is None,
        },
{
    let n = cs.len();
    proof {
        assert(cs@.skip(0) =~= cs@);
    }
    let mut i: usize = 0;
    while i < n
        invariant
            n == cs@.len(),
            0 <= i <= n,
            first_named(cs@, name@) == first_named(cs@.skip(i as int), name@),
        decreases n - i,
    {
        proof {
            assert(cs@.skip(i as int).drop_first() =~= cs@.skip(i as int + 1));
            assert(cs@.skip(i as int)[0] == cs@[i as int]);
        }
        if str_eq(cs[i].name.as_str(), name) {
            return Some(&cs[i]);
        }
        i += 1;
    }
    proof {
        assert(cs@.skip(n as int) =~= Seq::<DocNode>::empty());
    }
    None
}

/// Whether `name` occurs in the list of allowed child names.
pub open spec fn name_in_list(name: Seq<char>, allowed: Seq<&str>) -> bool {
    exists|j: int| 0 <= j < allowed.len() && allowed[j]@ == name
}

fn name_in_exec(name: &str, allowed: &Vec<&'static str>) -> (r: bool)
    ensures
        r == name_in_list(name@, allowed@),
{
    let n = allowed.len();
    let mut i: usize = 0;
    while i < n
        invariant
            n == allowed@.len(),
            0 <= i <= n,
            forall|j: int| 0 <= j < i ==> allowed@[j]@ != name@,
        decreases n - i,
    {
        if str_eq(allowed[i], name) {
            return true;
        }
        i += 1;
    }
    false
}

/// All child names drawn from the allowed list.
pub open spec fn all_names_in(cs: Seq<DocNode>, allowed: Seq<&str>) -> bool {
    forall|i: int| 0 <= i < cs.len() ==> name_in_list(#[trigger] cs[i].name@, allowed)
}

/// The first child whose name is not in the allowed list, if any.
pub fn first_unknown<'a>(cs: &'a Vec<DocNode>, allowed: &Vec<&'static str>) -> (r: Option<&'a DocNode>)
    ensures
        r is None <==> all_names_in(cs@, allowed@),
        r matches Some(c) ==> exists|i: int|
            0 <= i < cs@.len() && cs@[i] == *c && !name_in_list(cs@[i].name@, allowed@),
{
    let n = cs.len();
    let mut i: usize = 0;
    while i < n
        invariant
            n == cs@.len(),
            0 <= i <= n,
            forall|j: int| 0 <= j < i ==> name_in_list(#[trigger] cs@[j].name@, allowed@),
        decreases n - i,
    {
        if !name_in_exec(cs[i].name.as_str(), allowed) {
            return Some(&cs[i]);
        }
        i += 1;
    }
    None
}

/// Shape of a child that carries exactly one scalar argument and nothing
/// else.
pub open spec fn one_arg_shape(n: DocNode) -> bool {
    n.args@.len() == 1 && n.props@.len() == 0 && n.children@.len() == 0
}

/// The single argument of a one-argument child.
pub fn one_arg<'a>(n: &'a DocNode) -> (r: Option<&'a Scalar>)
    ensures
        r is Some <==> one_arg_shape(*n),
        r matches Some(v) ==> *v == n.args@[0],
{
    if n.args.len() == 1 && n.props.len() == 0 && n.children.len() == 0 {
        Some(&n.args[0])
    } else {
        None
    }
}

/// Shape of a flag child: bare presence, nothing attached.
pub open spec fn flag_shape(n: DocNode) -> bool {
    n.args@.len() == 0 && n.props@.len() == 0 && n.children@.len() == 0
}

pub fn is_flag_shape(n: &DocNode) -> (r: bool)
    ensures
        r == flag_shape(*n),
{
    n.args.len() == 0 && n.props.len() == 0 && n.children.len() == 0
}

/// The value of the property named `name`; a repeated property keeps its
/// last value, as the document model's property map would.
pub open spec fn last_prop(ps: Seq<Prop>, name: Seq<char>) -> Option<Scalar>
    decreases ps.len(),
{
    if ps.len() == 0 {
        None
    } else if ps.last().name@ == name {
        Some(ps.last().value)
    } else {
        last_prop(ps.drop_last(), name)
    }
}

pub fn find_prop<'a>(ps: &'a Vec<Prop>, name: &str) -> (r: Option<&'a Scalar>)
    ensures
        match r {
            Some(v) => last_prop(ps@, name@) == Some(*v),
            None => last_prop(ps@, name@) is None,
        },
{
    let n = ps.len();
    proof {
        assert(ps@.take(n as int) =~= ps@);
    }
    let mut i: usize = n;
    while i > 0
        invariant
            n == ps@.len(),
            0 <= i <= n,
            last_prop(ps@, name@) == last_prop(ps@.take(i as int), name@),
        decreases i,
    {
        proof {
            assert(ps@.take(i as int).drop_last() =~= ps@.take(i as int - 1));
            assert(ps@.take(i as int).last() == ps@[i as int - 1]);
        }
        if str_eq(ps[i - 1].name.as_str(), name) {
            return Some(&ps[i - 1].value);
        }
        i -= 1;
    }
    None
}

} // verus!

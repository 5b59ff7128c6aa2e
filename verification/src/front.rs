use vstd::prelude::*;

verus! {

#[verifier::external_type_specification]
#[verifier::external_body]
#[verifier::reject_recursive_types(T)]
#[verifier::reject_recursive_types(S)]
pub struct ExSpanned<T, S>(knuffel::span::Spanned<T, S>);

#[verifier::external_type_specification]
#[verifier::external_body]
pub struct ExSpan(knuffel::span::Span);

#[verifier::external_type_specification]
#[verifier::external_body]
#[verifier::reject_recursive_types(S)]
pub struct ExAstNode<S>(knuffel::ast::Node<S>);

#[verifier::external_type_specification]
#[verifier::external_body]
#[verifier::reject_recursive_types(S)]
pub struct ExAstValue<S>(knuffel::ast::Value<S>);

/// Relies on knuffel's AST: `Value::literal` is the scalar as written, and
/// its span is the byte range of the literal in the source text, from which
/// a number literal's raw text is taken.  An integer beyond `i64` becomes
/// `IntOutOfRange` through the `TryFrom<&Integer>` conversion of knuffel.
#[verifier::external_body]
fn conv_value(v: &knuffel::ast::Value<knuffel::span::Span>, text: &str) -> crate::doc::Scalar {
    match &*v.literal {
        knuffel::ast::Literal::Null => crate::doc::Scalar::Null,
        knuffel::ast::Literal::Bool(b) => crate::doc::Scalar::Bool(*b),
        knuffel::ast::Literal::Int(i) => match i64::try_from(i) {
            Ok(x) => crate::doc::Scalar::Int(x),
            Err(_) => crate::doc::Scalar::IntOutOfRange,
        },
        knuffel::ast::Literal::Decimal(_) => {
            let sp = v.literal.span();
            crate::doc::Scalar::Number(text.get(sp.0..sp.1).unwrap_or("").to_string())
        },
        knuffel::ast::Literal::String(s) => crate::doc::Scalar::Str(s.to_string()),
    }
}

/// Relies on knuffel's AST: a node is its name, positional arguments,
/// named properties and children, carried over one for one into the
/// document model, with the node's byte span kept for diagnostics.
#[verifier::external_body]
fn conv_node(
    sn: &knuffel::span::Spanned<knuffel::ast::Node<knuffel::span::Span>, knuffel::span::Span>,
    text: &str,
) -> crate::doc::DocNode {
    let n: &knuffel::ast::Node<knuffel::span::Span> = sn;
    crate::doc::DocNode {
        name: n.node_name.to_string(),
        span: (sn.span().0, sn.span().1),
        args: n.arguments.iter().map(|v| conv_value(v, text)).collect(),
        props: n.properties.iter().map(
            |(k, v)| crate::doc::Prop { name: k.to_string(), value: conv_value(v, text) },
        ).collect(),
        children: match &n.children {
            Some(c) => c.iter().map(|ch| conv_node(ch, text)).collect(),
            None => Vec::new(),
        },
    }
}

/// What the KDL parser makes of a document: the node list when the text
/// is well formed, and nothing otherwise.  The parse depends on the file
/// name and the text alone, so its result can be given this name.
pub uninterp spec fn parsed_doc(filename: Seq<char>, text: Seq<char>) -> Option<
    Seq<crate::doc::DocNode>,
>;

/// Relies on knuffel::parse_ast for the KDL grammar: the text parsed into
/// an AST, converted node for node into the document model; a syntax
/// error is rendered into its message text.  The outcome and the nodes
/// are named by `parsed_doc`.
#[verifier::external_body]
pub fn parse_document(filename: &str, text: &str) -> (r: Result<Vec<crate::doc::DocNode>, String>)
    ensures
        r is Ok <==> parsed_doc(filename@, text@) is Some,
        r matches Ok(v) ==> parsed_doc(filename@, text@) == Some(v@),
{
    match knuffel::parse_ast::<knuffel::span::Span>(filename, text) {
        Ok(d) => Ok(d.nodes.iter().map(|n| conv_node(n, text)).collect()),
        Err(e) => Err(format!("{:?}", e)),
    }
}

} // verus!

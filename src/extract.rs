//! The strategy-agnostic description of an accepted method.
use vstd::prelude::*;
use crate::model::{Attr, Binding, Method, Param, Receiver, TypeRef};
use crate::validate::is_self_by_ref;

verus! {

/// A forwarded parameter: its name and its type as source text.
#[derive(Clone, Debug)]
pub struct Arg {
    pub name: String,
    pub ty: String,
}

/// What the synthesizer needs to know of a method.
#[derive(Clone, Debug)]
pub struct MethodInfo {
    pub name: String,
    pub visibility: String,
    pub args: Vec<Arg>,
    /// The declared return type as source text.
    pub return_type: Option<String>,
    /// Whether the declared return type is a `Result`.
    pub is_result: bool,
    /// The `doc` attributes as source text, in order.
    pub doc_attrs: Vec<String>,
}

/// A path type whose last segment is `Result`.
pub open spec fn is_result_spec(t: TypeRef) -> bool {
    t.last_ident matches Some(id) && id@ == "Result"@
}

/// The parameters that are forwarded: every identifier-bound typed
/// parameter, in order; the receiver and destructuring patterns are left out.
pub open spec fn forwarded(ps: Seq<Param>) -> Seq<Arg>
    decreases ps.len(),
{
    if ps.len() == 0 {
        Seq::empty()
    } else {
        let rest = forwarded(ps.drop_last());
        match ps.last() {
            Param::Typed { binding: Binding::Name(n), ty } => rest.push(Arg { name: n, ty }),
            _ => rest,
        }
    }
}

pub open spec fn is_doc(a: Attr) -> bool {
    a.ident matches Some(id) && id@ == "doc"@
}

/// The texts of the `doc` attributes, in order.
pub open spec fn docs_of(s: Seq<Attr>) -> Seq<String>
    decreases s.len(),
{
    if s.len() == 0 {
        Seq::empty()
    } else if is_doc(s.last()) {
        docs_of(s.drop_last()).push(s.last().text)
    } else {
        docs_of(s.drop_last())
    }
}

/// True when the type is a path type whose last segment is `Result`.
pub fn is_result_type(t: &TypeRef) -> (r: bool)
    ensures
        r == is_result_spec(*t),
{
    match &t.last_ident {
        Some(id) => {
            let result_name = String::from_str("Result");
            *id == result_name
        },
        None => false,
    }
}

/// Describes a method whose first parameter is `&self`; any other method
/// has no description.
pub fn extract_method_info(m: &Method) -> (r: Option<MethodInfo>)
    ensures
        r is Some <==> m.params@.len() > 0 && m.params@[0] == Param::SelfParam(Receiver::Shared),
        r matches Some(info) ==> {
            &&& info.name == m.name
            &&& info.visibility == m.vis
            &&& info.args@ == forwarded(m.params@)
            &&& info.return_type == match m.output {
                Some(t) => Some(t.text),
                None => None::<String>,
            }
            &&& info.is_result == match m.output {
                Some(t) => is_result_spec(t),
                None => false,
            }
            &&& info.doc_attrs@ == docs_of(m.attrs@)
        },
{
    if m.params.len() == 0 || !is_self_by_ref(&m.params[0]) {
        return None;
    }
    let mut args: Vec<Arg> = Vec::new();
    let mut i: usize = 0;
    while i < m.params.len()
        invariant
            0 <= i <= m.params@.len(),
            args@ == forwarded(m.params@.subrange(0, i as int)),
        decreases m.params@.len() - i,
    {
        let ghost pre = m.params@.subrange(0, i as int);
        assert(m.params@.subrange(0, i + 1).drop_last() == pre);
        match &m.params[i] {
            Param::Typed { binding: Binding::Name(n), ty } => {
                args.push(Arg { name: n.clone(), ty: ty.clone() });
            },
            _ => {},
        }
        i += 1;
    }
    assert(m.params@.subrange(0, m.params@.len() as int) == m.params@);

    let (return_type, is_result) = match &m.output {
        Some(t) => (Some(t.text.clone()), is_result_type(t)),
        None => (None, false),
    };

    let mut doc_attrs: Vec<String> = Vec::new();
    let mut j: usize = 0;
    let doc_name = String::from_str("doc");
    while j < m.attrs.len()
        invariant
            0 <= j <= m.attrs@.len(),
            doc_name@ == "doc"@,
            doc_attrs@ == docs_of(m.attrs@.subrange(0, j as int)),
        decreases m.attrs@.len() - j,
    {
        let ghost pre = m.attrs@.subrange(0, j as int);
        assert(m.attrs@.subrange(0, j + 1).drop_last() == pre);
        let a = &m.attrs[j];
        let doc = match &a.ident {
            Some(id) => *id == doc_name,
            None => false,
        };
        if doc {
            doc_attrs.push(a.text.clone());
        }
        j += 1;
    }
    assert(m.attrs@.subrange(0, m.attrs@.len() as int) == m.attrs@);

    Some(
        MethodInfo {
            name: m.name.clone(),
            visibility: m.vis.clone(),
            args,
            return_type,
            is_result,
            doc_attrs,
        },
    )
}

} // verus!

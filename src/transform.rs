//! The block transformer and the marker's own pass.
use vstd::prelude::*;
use crate::config::{
    chosen_strategy, clause_value, config_fault, parse_blocking_impl_args, type_text,
    BlockingImplArgs, ConfigError, ConfigErrorKind, Token,
};
use crate::extract::{docs_of, extract_method_info, forwarded, is_result_spec};
use crate::model::{Attr, ImplBlock, ImplItem, Method, Strategy, TypeRef};
use crate::synth::{push_async_method, synthesized_text};
use crate::validate::{
    has_async_wrap_attr, has_marker, unmarked, validate_async_wrap_method,
    violation_of, ViolationKind,
};

verus! {

/// A marked method that cannot be wrapped: the item's index in the block and
/// the reason.
#[derive(PartialEq, Eq, Structural, Clone, Copy, Debug)]
pub struct Violation {
    pub item: usize,
    pub kind: ViolationKind,
}

/// What the transformation of one block produces.
#[derive(Clone, Debug)]
pub struct Expansion {
    /// The input block with every marker removed.
    pub block: String,
    /// The configuration's error, when it was refused.
    pub config_error: Option<ConfigError>,
    /// The marked methods that cannot be wrapped, in declaration order.
    pub violations: Vec<Violation>,
    /// The companion block, present exactly when nothing was refused.
    pub companion: Option<String>,
}

/// Each attribute's text followed by a space.
pub open spec fn attrs_text(s: Seq<Attr>) -> Seq<char>
    decreases s.len(),
{
    if s.len() == 0 {
        Seq::empty()
    } else {
        attrs_text(s.drop_last()) + s.last().text@ + " "@
    }
}

/// An item's text once its markers are removed.
pub open spec fn stripped_item_text(it: ImplItem) -> Seq<char> {
    match it {
        ImplItem::Fn(m) => attrs_text(unmarked(m.attrs@)) + m.source@,
        ImplItem::Other(t) => t@,
    }
}

/// Each item's stripped text preceded by a space.
pub open spec fn stripped_items_text(items: Seq<ImplItem>) -> Seq<char>
    decreases items.len(),
{
    if items.len() == 0 {
        Seq::empty()
    } else {
        stripped_items_text(items.drop_last()) + " "@ + stripped_item_text(items.last())
    }
}

/// The input block with every marker removed.
pub open spec fn stripped_block_text(b: ImplBlock) -> Seq<char> {
    b.header@ + " {"@ + stripped_items_text(b.items@) + " }"@
}

pub open spec fn return_of(t: Option<TypeRef>) -> Option<String> {
    match t {
        Some(t) => Some(t.text),
        None => None,
    }
}

pub open spec fn result_of(t: Option<TypeRef>) -> bool {
    match t {
        Some(t) => is_result_spec(t),
        None => false,
    }
}

/// The companion of an accepted source method.
pub open spec fn companion_method_text(m: Method, s: Strategy) -> Seq<char> {
    synthesized_text(
        docs_of(m.attrs@),
        m.vis@,
        m.name@,
        forwarded(m.params@),
        return_of(m.output),
        result_of(m.output),
        s,
    )
}

/// The violations of the marked methods among the items, in order.
pub open spec fn violations_of(items: Seq<ImplItem>) -> Seq<Violation>
    decreases items.len(),
{
    if items.len() == 0 {
        Seq::empty()
    } else {
        let rest = violations_of(items.drop_last());
        match items.last() {
            ImplItem::Fn(m) => if has_marker(m.attrs@) && violation_of(m) is Some {
                rest.push(Violation { item: (items.len() - 1) as usize, kind: violation_of(m)->Some_0 })
            } else {
                rest
            },
            ImplItem::Other(_) => rest,
        }
    }
}

/// The companions of the accepted marked methods, each preceded by a space.
pub open spec fn companions_text(items: Seq<ImplItem>, s: Strategy) -> Seq<char>
    decreases items.len(),
{
    if items.len() == 0 {
        Seq::empty()
    } else {
        let rest = companions_text(items.drop_last(), s);
        match items.last() {
            ImplItem::Fn(m) => if has_marker(m.attrs@) && violation_of(m) is None {
                rest + " "@ + companion_method_text(m, s)
            } else {
                rest
            },
            ImplItem::Other(_) => rest,
        }
    }
}

/// The texts separated by `, `.
pub open spec fn comma_list(s: Seq<String>) -> Seq<char>
    decreases s.len(),
{
    if s.len() == 0 {
        Seq::empty()
    } else if s.len() == 1 {
        s[0]@
    } else {
        comma_list(s.drop_last()) + ", "@ + s.last()@
    }
}

/// The block's generic parameters in angle brackets, or nothing.
pub open spec fn generics_text(ps: Seq<String>) -> Seq<char> {
    if ps.len() == 0 {
        Seq::empty()
    } else {
        "<"@ + comma_list(ps) + ">"@
    }
}

/// The block's where clause after a space, or nothing.
pub open spec fn where_text(w: Option<String>) -> Seq<char> {
    match w {
        Some(w) => " "@ + w@,
        None => Seq::empty(),
    }
}

/// `impl`, the block's generic parameters, the companion type and the
/// block's where clause.
pub open spec fn companion_head(b: ImplBlock, ty: Seq<char>) -> Seq<char> {
    "impl"@ + generics_text(b.generic_params@) + " "@ + ty + where_text(b.where_clause)
}

/// The companion block.
pub open spec fn companion_text(b: ImplBlock, ty: Seq<char>, s: Strategy) -> Seq<char> {
    companion_head(b, ty) + " {"@ + companions_text(b.items@, s) + " }"@
}

fn push_unmarked_attrs(out: &mut String, attrs: &Vec<Attr>)
    ensures
        final(out)@ == old(out)@ + attrs_text(unmarked(attrs@)),
{
    let ghost start = out@;
    let mut i: usize = 0;
    while i < attrs.len()
        invariant
            0 <= i <= attrs@.len(),
            out@ == start + attrs_text(unmarked(attrs@.subrange(0, i as int))),
        decreases attrs@.len() - i,
    {
        let ghost pre = attrs@.subrange(0, i as int);
        assert(attrs@.subrange(0, i + 1).drop_last() == pre);
        let a = &attrs[i];
        let marker = match &a.ident {
            Some(id) => {
                let name = String::from_str("async_wrap");
                *id == name
            },
            None => false,
        };
        if !marker {
            assert(unmarked(pre).push(*a).drop_last() == unmarked(pre));
            out.append(a.text.as_str());
            out.append(" ");
            assert(out@ =~= start + attrs_text(unmarked(pre).push(*a)));
        }
        i += 1;
    }
    assert(attrs@.subrange(0, attrs@.len() as int) == attrs@);
}

fn push_comma_list(out: &mut String, s: &Vec<String>)
    ensures
        final(out)@ == old(out)@ + comma_list(s@),
{
    let ghost start = out@;
    let mut i: usize = 0;
    while i < s.len()
        invariant
            0 <= i <= s@.len(),
            out@ == start + comma_list(s@.subrange(0, i as int)),
        decreases s@.len() - i,
    {
        assert(s@.subrange(0, i + 1).drop_last() == s@.subrange(0, i as int));
        if i > 0 {
            out.append(", ");
        }
        out.append(s[i].as_str());
        i += 1;
    }
    assert(s@.subrange(0, s@.len() as int) == s@);
}

fn push_companion_head(out: &mut String, b: &ImplBlock, ty: &String)
    ensures
        final(out)@ == old(out)@ + companion_head(*b, ty@),
{
    let ghost start = out@;
    out.append("impl");
    if b.generic_params.len() > 0 {
        out.append("<");
        push_comma_list(out, &b.generic_params);
        out.append(">");
    }
    out.append(" ");
    out.append(ty.as_str());
    match &b.where_clause {
        Some(w) => {
            out.append(" ");
            out.append(w.as_str());
        },
        None => {},
    }
    assert(out@ =~= start + companion_head(*b, ty@));
}

/// Appends one item's stripped text, preceded by a space.
fn push_stripped_item(out: &mut String, it: &ImplItem)
    ensures
        final(out)@ == old(out)@ + " "@ + stripped_item_text(*it),
{
    let ghost start = out@;
    out.append(" ");
    match it {
        ImplItem::Fn(m) => {
            push_unmarked_attrs(out, &m.attrs);
            out.append(m.source.as_str());
        },
        ImplItem::Other(t) => {
            out.append(t.as_str());
        },
    }
    assert(out@ =~= start + " "@ + stripped_item_text(*it));
}

/// Handles one item for the companion block: records its violation, or
/// appends its companion, when it is a marked method.
fn visit_item(
    methods: &mut String,
    violations: &mut Vec<Violation>,
    it: &ImplItem,
    index: usize,
    strategy: Strategy,
)
    ensures
        (match *it {
            ImplItem::Fn(m) => if has_marker(m.attrs@) && violation_of(m) is Some {
                &&& final(violations)@ == old(violations)@.push(
                    Violation { item: index, kind: violation_of(m)->Some_0 },
                )
                &&& final(methods)@ == old(methods)@
            } else if has_marker(m.attrs@) {
                &&& final(violations)@ == old(violations)@
                &&& final(methods)@ == old(methods)@ + " "@ + companion_method_text(m, strategy)
            } else {
                &&& final(violations)@ == old(violations)@
                &&& final(methods)@ == old(methods)@
            },
            ImplItem::Other(_) => {
                &&& final(violations)@ == old(violations)@
                &&& final(methods)@ == old(methods)@
            },
        }),
{
    match it {
        ImplItem::Fn(m) => {
            if has_async_wrap_attr(m) {
                match validate_async_wrap_method(m) {
                    Err(kind) => {
                        violations.push(Violation { item: index, kind });
                    },
                    Ok(()) => {
                        if let Some(info) = extract_method_info(m) {
                            methods.append(" ");
                            push_async_method(methods, &info, strategy);
                        }
                    },
                }
            }
        },
        ImplItem::Other(_) => {},
    }
}

/// Transforms a block under a parsed configuration: every marked method is
/// validated, the markers are removed from the input block, and when no
/// marked method is refused the companion block holds the companion of every
/// marked method in declaration order.
pub fn transform_block(args: &BlockingImplArgs, b: &ImplBlock) -> (r: Expansion)
    ensures
        r.block@ == stripped_block_text(*b),
        r.config_error is None,
        r.violations@ == violations_of(b.items@),
        r.companion is Some <==> violations_of(b.items@).len() == 0,
        r.companion matches Some(c) ==> c@ == companion_text(*b, args.async_type@, args.strategy),
{
    let mut block = b.header.clone();
    block.append(" {");
    let ghost block_start = block@;
    let mut methods = String::new();
    let mut violations: Vec<Violation> = Vec::new();
    let mut i: usize = 0;
    while i < b.items.len()
        invariant
            0 <= i <= b.items@.len(),
            block@ == block_start + stripped_items_text(b.items@.subrange(0, i as int)),
            methods@ == companions_text(b.items@.subrange(0, i as int), args.strategy),
            violations@ == violations_of(b.items@.subrange(0, i as int)),
        decreases b.items@.len() - i,
    {
        let ghost pre = b.items@.subrange(0, i as int);
        let ghost next = b.items@.subrange(0, i + 1);
        assert(next.drop_last() == pre);
        assert(next.last() == b.items@[i as int]);
        assert(next.len() - 1 == i);
        push_stripped_item(&mut block, &b.items[i]);
        assert(block@ =~= block_start + stripped_items_text(next));
        visit_item(&mut methods, &mut violations, &b.items[i], i, args.strategy);
        i += 1;
    }
    assert(b.items@.subrange(0, b.items@.len() as int) == b.items@);
    block.append(" }");
    assert(block@ =~= stripped_block_text(*b));
    let companion = if violations.len() == 0 {
        let mut c = String::new();
        push_companion_head(&mut c, b, &args.async_type);
        c.append(" {");
        c.append(methods.as_str());
        c.append(" }");
        assert(c@ =~= companion_text(*b, args.async_type@, args.strategy));
        Some(c)
    } else {
        None
    };
    Expansion { block, config_error: None, violations, companion }
}

/// Only removes the markers: the block as it stands, with no companion.
fn strip_block(b: &ImplBlock) -> (r: String)
    ensures
        r@ == stripped_block_text(*b),
{
    let mut block = b.header.clone();
    block.append(" {");
    let ghost block_start = block@;
    let mut i: usize = 0;
    while i < b.items.len()
        invariant
            0 <= i <= b.items@.len(),
            block@ == block_start + stripped_items_text(b.items@.subrange(0, i as int)),
        decreases b.items@.len() - i,
    {
        let ghost next = b.items@.subrange(0, i + 1);
        assert(next.drop_last() == b.items@.subrange(0, i as int));
        push_stripped_item(&mut block, &b.items[i]);
        assert(block@ =~= block_start + stripped_items_text(next));
        i += 1;
    }
    assert(b.items@.subrange(0, b.items@.len() as int) == b.items@);
    block.append(" }");
    assert(block@ =~= stripped_block_text(*b));
    block
}

/// Transforms a block under its configuration tokens. A refused
/// configuration stops the transformation: the input block is still
/// given back with its markers removed, with the configuration's error and no
/// companion block.
pub fn blocking_impl(attr: &Vec<Token>, b: &ImplBlock) -> (r: Expansion)
    ensures
        r.block@ == stripped_block_text(*b),
        r.config_error is Some <==> config_fault(attr@) is Some,
        r.config_error matches Some(e) ==> {
            &&& config_fault(attr@) == Some((e.kind, e.at))
            &&& (e.kind == ConfigErrorKind::UnknownStrategy <==> e.value is Some)
            &&& (e.value matches Some(v) ==> v@ == clause_value(attr@))
            &&& r.violations@.len() == 0
            &&& r.companion is None
        },
        config_fault(attr@) is None ==> {
            &&& r.violations@ == violations_of(b.items@)
            &&& (r.companion is Some <==> violations_of(b.items@).len() == 0)
            &&& (r.companion matches Some(c) ==> c@ == companion_text(
                *b,
                type_text(attr@),
                chosen_strategy(attr@),
            ))
        },
{
    match parse_blocking_impl_args(attr) {
        Ok(args) => transform_block(&args, b),
        Err(e) => Expansion {
            block: strip_block(b),
            config_error: Some(e),
            violations: Vec::new(),
            companion: None,
        },
    }
}

/// The marker's own pass over a single method: the method is checked alone
/// and, when accepted, left exactly as it is.
pub fn async_wrap(m: &Method) -> (r: Result<(), ViolationKind>)
    ensures
        r is Ok <==> violation_of(*m) is None,
        r matches Err(k) ==> violation_of(*m) == Some(k),
{
    validate_async_wrap_method(m)
}

} // verus!

//! Properties that relate several parts of the transformation.
use vstd::prelude::*;
use crate::config::{
    chosen_strategy, clause_value, closes_angle, config_fault, config_message, is_punct, is_type_text,
    string_literal_value, tokens_text, type_end, type_text, ConfigErrorKind, Token, TokenKind,
};
use crate::extract::{docs_of, forwarded, Arg};
use crate::model::{Binding, ImplItem, Method, Param, Receiver, Strategy};
use crate::synth::{docs_text, return_text, signature_text, body_text, wraps};
use crate::transform::{companion_method_text, return_of, result_of, violations_of, Violation};
use crate::validate::{has_marker, is_marker, message_of, unmarked, violation_of, ViolationKind};

verus! {

/// The number of unclosed `<` after the tokens from `i` on, starting from
/// `depth`.
pub open spec fn final_depth(toks: Seq<Token>, i: int, depth: nat) -> nat
    decreases toks.len() - i,
{
    if i < 0 || i >= toks.len() {
        depth
    } else if is_punct(toks[i], '<') {
        final_depth(toks, i + 1, depth + 1)
    } else if closes_angle(toks, i) && depth > 0 {
        final_depth(toks, i + 1, (depth - 1) as nat)
    } else {
        final_depth(toks, i + 1, depth)
    }
}

/// A typed parameter bound to a plain name.
pub open spec fn binds_name(p: Param) -> bool {
    p matches Param::Typed { binding: Binding::Name(_), .. }
}

/// The typed parameter that forwards as `a`.
pub open spec fn param_of(a: Arg) -> Param {
    Param::Typed { binding: Binding::Name(a.name), ty: a.ty }
}

/// The return type of the source method, arrow included.
pub open spec fn source_return_text(m: Method) -> Seq<char> {
    match m.output {
        Some(t) => " -> "@ + t.text@,
        None => Seq::empty(),
    }
}

/// The companion of an accepted method keeps the method's documentation,
/// visibility, name and parameters: its text starts with the documentation
/// and the signature built from them, followed by the new return type and body.
pub proof fn lemma_signature_preserved(m: Method, s: Strategy)
    requires
        violation_of(m) is None,
    ensures
        companion_method_text(m, s) == docs_text(docs_of(m.attrs@)) + signature_text(
            m.vis@,
            m.name@,
            forwarded(m.params@),
        ) + return_text(return_of(m.output), result_of(m.output), s) + body_text(
            m.name@,
            forwarded(m.params@),
            wraps(return_of(m.output), result_of(m.output)),
            s,
        ),
{
}

/// When every parameter after the receiver binds a plain name, the forwarded
/// parameters are exactly those parameters, in order, with their names and
/// types.
pub proof fn lemma_params_forwarded(ps: Seq<Param>)
    requires
        ps.len() > 0,
        ps[0] is SelfParam,
        forall|j: int| 1 <= j < ps.len() ==> binds_name(#[trigger] ps[j]),
    ensures
        forwarded(ps).len() == ps.len() - 1,
        forall|j: int| 0 <= j < ps.len() - 1 ==> ps[j + 1] == param_of(#[trigger] forwarded(ps)[j]),
    decreases ps.len(),
{
    if ps.len() == 1 {
        assert(forwarded(ps.drop_last()) == Seq::<Arg>::empty());
    } else {
        let pre = ps.drop_last();
        assert forall|j: int| 1 <= j < pre.len() implies binds_name(#[trigger] pre[j]) by {
            assert(pre[j] == ps[j]);
        }
        lemma_params_forwarded(pre);
        assert(binds_name(ps[ps.len() - 1]));
    }
}

/// Under `block_in_place` the companion's return type is the source
/// method's own, with no wrapping.
pub proof fn lemma_in_place_return_unchanged(m: Method)
    ensures
        return_text(return_of(m.output), result_of(m.output), Strategy::BlockInPlace)
            == source_return_text(m),
{
}

/// Removing the markers twice removes no more than once.
pub proof fn lemma_unmarked_idempotent(s: Seq<crate::model::Attr>)
    ensures
        unmarked(unmarked(s)) == unmarked(s),
        !has_marker(unmarked(s)),
    decreases s.len(),
{
    if s.len() > 0 {
        lemma_unmarked_idempotent(s.drop_last());
        let r = unmarked(s.drop_last());
        if !is_marker(s.last()) {
            assert(r.push(s.last()).drop_last() == r);
            assert forall|i: int| 0 <= i < r.push(s.last()).len() implies !is_marker(#[trigger] r.push(s.last())[i]) by {
                if i < r.len() {
                    assert(r.push(s.last())[i] == r[i]);
                }
            }
        }
    }
}

/// Removing the markers from attributes that carry none changes nothing.
pub proof fn lemma_unmarked_no_marker(s: Seq<crate::model::Attr>)
    requires
        !has_marker(s),
    ensures
        unmarked(s) == s,
    decreases s.len(),
{
    if s.len() > 0 {
        let pre = s.drop_last();
        assert(!is_marker(s[s.len() - 1]));
        assert forall|i: int| 0 <= i < pre.len() implies !is_marker(#[trigger] pre[i]) by {
            assert(pre[i] == s[i]);
        }
        lemma_unmarked_no_marker(pre);
        assert(pre.push(s.last()) == s);
    }
}

proof fn lemma_type_end_extends(toks: Seq<Token>, extra: Seq<Token>, i: int, depth: nat)
    requires
        0 <= i <= toks.len(),
        type_end(toks, i, depth) == toks.len(),
        final_depth(toks, i, depth) == 0,
        extra.len() > 0,
        is_punct(extra[0], ','),
    ensures
        type_end(toks + extra, i, depth) == toks.len(),
    decreases toks.len() - i,
{
    let all = toks + extra;
    if i < toks.len() {
        assert(all[i] == toks[i]);
        if i > 0 {
            assert(all[i - 1] == toks[i - 1]);
        }
        if is_punct(toks[i], '<') {
            lemma_type_end_extends(toks, extra, i + 1, depth + 1);
        } else if closes_angle(toks, i) && depth > 0 {
            lemma_type_end_extends(toks, extra, i + 1, (depth - 1) as nat);
        } else {
            lemma_type_end_extends(toks, extra, i + 1, depth);
        }
    } else {
        assert(all[i] == extra[0]);
    }
}

/// Naming `spawn_blocking` selects the same strategy, and the same companion
/// type, as naming no strategy: both select `spawn_blocking`.
pub proof fn lemma_default_strategy_round_trip(
    ty: Seq<Token>,
    comma: Token,
    keyword: Token,
    eq: Token,
    name: Token,
)
    requires
        ty.len() > 0,
        type_end(ty, 0, 0) == ty.len(),
        final_depth(ty, 0, 0) == 0,
        is_punct(comma, ','),
        keyword.kind is Ident,
        keyword.text@ == "strategy"@,
        is_punct(eq, '='),
        is_type_text(tokens_text(ty)),
        name.kind is Literal,
        string_literal_value(name.text@) == Some("spawn_blocking"@),
    ensures
        config_fault(ty) is None,
        config_fault(ty + seq![comma, keyword, eq, name]) is None,
        chosen_strategy(ty) == Strategy::SpawnBlocking,
        chosen_strategy(ty + seq![comma, keyword, eq, name]) == Strategy::SpawnBlocking,
        type_text(ty + seq![comma, keyword, eq, name]) == type_text(ty),
{
    let extra = seq![comma, keyword, eq, name];
    let all = ty + extra;
    lemma_type_end_extends(ty, extra, 0, 0);
    let k = ty.len() as int;
    assert(all[k] == comma);
    assert(all[k + 1] == keyword);
    assert(all[k + 2] == eq);
    assert(all[k + 3] == name);
    assert(all.subrange(0, k) == ty);
    assert(ty.subrange(0, k) == ty);
    reveal_strlit("spawn_blocking");
    reveal_strlit("block_in_place");
}

/// An `async` method is refused as such, whatever its parameters.
pub proof fn lemma_async_always_refused(m: Method)
    requires
        m.is_async,
    ensures
        violation_of(m) == Some(ViolationKind::AsyncMethod),
{
}

/// A non-`async` method is refused when it takes `&mut self`, `self`, or no
/// parameter, each with its own message, distinct from one another and from
/// the message for `async` methods.
pub proof fn lemma_receiver_refusals(m: Method)
    requires
        !m.is_async,
    ensures
        m.params@.len() == 0 ==> violation_of(m) == Some(ViolationKind::NoParams),
        m.params@.len() > 0 && m.params@[0] == Param::SelfParam(Receiver::Mutable) ==> violation_of(m)
            == Some(ViolationKind::MutableReceiver),
        m.params@.len() > 0 && m.params@[0] == Param::SelfParam(Receiver::Owned) ==> violation_of(m)
            == Some(ViolationKind::OwnedReceiver),
        message_of(ViolationKind::NoParams) != message_of(ViolationKind::MutableReceiver),
        message_of(ViolationKind::NoParams) != message_of(ViolationKind::OwnedReceiver),
        message_of(ViolationKind::MutableReceiver) != message_of(ViolationKind::OwnedReceiver),
        message_of(ViolationKind::AsyncMethod) != message_of(ViolationKind::NoParams),
        message_of(ViolationKind::AsyncMethod) != message_of(ViolationKind::MutableReceiver),
        message_of(ViolationKind::AsyncMethod) != message_of(ViolationKind::OwnedReceiver),
{
    reveal_strlit("#[async_wrap] cannot be used on async methods");
    reveal_strlit("#[async_wrap] requires `&self`, not `&mut self`");
    reveal_strlit("#[async_wrap] requires `&self`, not `self`");
    reveal_strlit("#[async_wrap] requires methods taking `&self`");
    let a = message_of(ViolationKind::AsyncMethod);
    let n = message_of(ViolationKind::NoParams);
    assert(a[14] != n[14]);
    assert(n.len() == 45);
    assert(message_of(ViolationKind::MutableReceiver).len() == 47);
    assert(message_of(ViolationKind::OwnedReceiver).len() == 42);
}

/// A strategy clause naming an unknown strategy is refused at the name, and
/// the message quotes the name.
pub proof fn lemma_unknown_strategy_refused(toks: Seq<Token>, value: Seq<char>)
    requires
        0 < type_end(toks, 0, 0),
        type_end(toks, 0, 0) + 3 < toks.len(),
        is_type_text(type_text(toks)),
        toks[type_end(toks, 0, 0) + 1].kind is Ident,
        toks[type_end(toks, 0, 0) + 1].text@ == "strategy"@,
        is_punct(toks[type_end(toks, 0, 0) + 2], '='),
        toks[type_end(toks, 0, 0) + 3].kind is Literal,
        string_literal_value(toks[type_end(toks, 0, 0) + 3].text@) == Some(value),
        value != "spawn_blocking"@,
        value != "block_in_place"@,
    ensures
        config_fault(toks) == Some((ConfigErrorKind::UnknownStrategy, (type_end(toks, 0, 0) + 3) as usize)),
        clause_value(toks) == value,
        config_message(ConfigErrorKind::UnknownStrategy, value) == "unknown strategy \""@ + value
            + "\", expected \"spawn_blocking\" or \"block_in_place\""@,
{
}

/// The item is a marked method that the validator refuses for `kind`.
pub open spec fn refused_as(it: ImplItem, kind: ViolationKind) -> bool {
    it matches ImplItem::Fn(m) && has_marker(m.attrs@) && violation_of(m) == Some(kind)
}

/// Every recorded violation points, in increasing order, at a marked method
/// of the block that the validator refuses for that reason.
pub proof fn lemma_violations_located(items: Seq<ImplItem>)
    requires
        items.len() <= usize::MAX,
    ensures
        forall|j: int|
            0 <= j < violations_of(items).len() ==> {
                let v = #[trigger] violations_of(items)[j];
                &&& v.item < items.len()
                &&& refused_as(items[v.item as int], v.kind)
            },
        forall|j: int, l: int|
            0 <= j < l < violations_of(items).len() ==> (#[trigger] violations_of(items)[j]).item
                < (#[trigger] violations_of(items)[l]).item,
    decreases items.len(),
{
    if items.len() > 0 {
        let pre = items.drop_last();
        lemma_violations_located(pre);
        let vp = violations_of(pre);
        let vs = violations_of(items);
        let last = items.len() - 1;
        assert(items[last] == items.last());
        let grows = items.last() matches ImplItem::Fn(m) && has_marker(m.attrs@) && violation_of(m) is Some;
        if grows {
            assert(vs.len() == vp.len() + 1);
            assert(refused_as(items[last], vs[vp.len() as int].kind));
            assert(vs[vp.len() as int].item == last);
        } else {
            assert(vs == vp);
        }
        assert forall|j: int| 0 <= j < vs.len() implies ({
            let v = #[trigger] vs[j];
            &&& v.item < items.len()
            &&& refused_as(items[v.item as int], v.kind)
        }) by {
            if j < vp.len() {
                assert(vs[j] == vp[j]);
                assert(items[vp[j].item as int] == pre[vp[j].item as int]);
            }
        }
        assert forall|j: int, l: int| 0 <= j < l < vs.len() implies (#[trigger] vs[j]).item < (#[trigger] vs[l]).item by {
            assert(vs[j] == vp[j]);
            if l < vp.len() {
                assert(vs[l] == vp[l]);
            }
        }
    }
}

/// Every marked method that the validator refuses is recorded, so a block
/// that holds one gets no companion block.
pub proof fn lemma_refusal_recorded(items: Seq<ImplItem>, i: int, kind: ViolationKind)
    requires
        items.len() <= usize::MAX,
        0 <= i < items.len(),
        refused_as(items[i], kind),
    ensures
        exists|j: int| 0 <= j < violations_of(items).len() && #[trigger] violations_of(items)[j] == (Violation { item: i as usize, kind }),
        violations_of(items).len() > 0,
    decreases items.len(),
{
    let pre = items.drop_last();
    if i < items.len() - 1 {
        assert(pre[i] == items[i]);
        lemma_refusal_recorded(pre, i, kind);
        let j = choose|j: int| 0 <= j < violations_of(pre).len() && #[trigger] violations_of(pre)[j] == (Violation { item: i as usize, kind });
        assert(violations_of(items)[j] == violations_of(pre)[j]);
    } else {
        let n = violations_of(pre).len() as int;
        assert(violations_of(items)[n] == (Violation { item: i as usize, kind }));
    }
}

} // verus!

//! The contract that a marked method must meet, and the marker itself.
use vstd::prelude::*;
use crate::model::{Attr, Method, Param, Receiver};

verus! {

/// Why a marked method cannot be wrapped.
#[derive(PartialEq, Eq, Structural, Clone, Copy, Debug)]
pub enum ViolationKind {
    /// The method is declared `async`.
    AsyncMethod,
    /// The receiver is `&mut self`.
    MutableReceiver,
    /// The receiver is `self` taken by value.
    OwnedReceiver,
    /// The first parameter is not a receiver.
    NotReceiver,
    /// The method has no parameters at all.
    NoParams,
}

/// Where a violation points in the method.
#[derive(PartialEq, Eq, Structural, Clone, Copy, Debug)]
pub enum Anchor {
    /// The `async` keyword.
    Asyncness,
    /// The first parameter.
    FirstParam,
    /// The whole signature.
    Signature,
}

pub open spec fn violation_of(m: Method) -> Option<ViolationKind> {
    if m.is_async {
        Some(ViolationKind::AsyncMethod)
    } else if m.params@.len() == 0 {
        Some(ViolationKind::NoParams)
    } else {
        match m.params@[0] {
            Param::SelfParam(Receiver::Shared) => None,
            Param::SelfParam(Receiver::Mutable) => Some(ViolationKind::MutableReceiver),
            Param::SelfParam(Receiver::Owned) => Some(ViolationKind::OwnedReceiver),
            Param::Typed { .. } => Some(ViolationKind::NotReceiver),
        }
    }
}

pub open spec fn message_of(k: ViolationKind) -> Seq<char> {
    match k {
        ViolationKind::AsyncMethod => "#[async_wrap] cannot be used on async methods"@,
        ViolationKind::MutableReceiver => "#[async_wrap] requires `&self`, not `&mut self`"@,
        ViolationKind::OwnedReceiver => "#[async_wrap] requires `&self`, not `self`"@,
        ViolationKind::NotReceiver => "#[async_wrap] requires `&self` as the first parameter"@,
        ViolationKind::NoParams => "#[async_wrap] requires methods taking `&self`"@,
    }
}

pub open spec fn anchor_of(k: ViolationKind) -> Anchor {
    match k {
        ViolationKind::AsyncMethod => Anchor::Asyncness,
        ViolationKind::NoParams => Anchor::Signature,
        _ => Anchor::FirstParam,
    }
}

impl ViolationKind {
    /// The diagnostic text of this violation.
    pub fn message(&self) -> (r: String)
        ensures
            r@ == message_of(*self),
    {
        match self {
            ViolationKind::AsyncMethod => String::from_str("#[async_wrap] cannot be used on async methods"),
            ViolationKind::MutableReceiver => String::from_str("#[async_wrap] requires `&self`, not `&mut self`"),
            ViolationKind::OwnedReceiver => String::from_str("#[async_wrap] requires `&self`, not `self`"),
            ViolationKind::NotReceiver => String::from_str("#[async_wrap] requires `&self` as the first parameter"),
            ViolationKind::NoParams => String::from_str("#[async_wrap] requires methods taking `&self`"),
        }
    }

    /// The part of the method that the diagnostic points at.
    pub fn anchor(&self) -> (r: Anchor)
        ensures
            r == anchor_of(*self),
    {
        match self {
            ViolationKind::AsyncMethod => Anchor::Asyncness,
            ViolationKind::NoParams => Anchor::Signature,
            _ => Anchor::FirstParam,
        }
    }
}

/// True for a receiver parameter of the form `&self`.
pub fn is_self_by_ref(p: &Param) -> (r: bool)
    ensures
        r == (*p == Param::SelfParam(Receiver::Shared)),
{
    match p {
        Param::SelfParam(Receiver::Shared) => true,
        _ => false,
    }
}

/// Checks a marked method: it must not be `async`, and its first parameter
/// must be `&self`.
pub fn validate_async_wrap_method(m: &Method) -> (r: Result<(), ViolationKind>)
    ensures
        r == (match violation_of(*m) {
            None => Ok::<(), ViolationKind>(()),
            Some(k) => Err(k),
        }),
{
    if m.is_async {
        return Err(ViolationKind::AsyncMethod);
    }
    if m.params.len() == 0 {
        return Err(ViolationKind::NoParams);
    }
    match &m.params[0] {
        Param::SelfParam(Receiver::Shared) => Ok(()),
        Param::SelfParam(Receiver::Mutable) => Err(ViolationKind::MutableReceiver),
        Param::SelfParam(Receiver::Owned) => Err(ViolationKind::OwnedReceiver),
        Param::Typed { .. } => Err(ViolationKind::NotReceiver),
    }
}

/// An attribute whose path is the single identifier `async_wrap`.
pub open spec fn is_marker(a: Attr) -> bool {
    a.ident matches Some(id) && id@ == "async_wrap"@
}

pub open spec fn has_marker(s: Seq<Attr>) -> bool {
    exists|i: int| 0 <= i < s.len() && is_marker(#[trigger] s[i])
}

/// The attributes with every marker removed, the others kept in order.
pub open spec fn unmarked(s: Seq<Attr>) -> Seq<Attr>
    decreases s.len(),
{
    if s.len() == 0 {
        s
    } else if is_marker(s.last()) {
        unmarked(s.drop_last())
    } else {
        unmarked(s.drop_last()).push(s.last())
    }
}

fn attr_is_marker(a: &Attr) -> (r: bool)
    ensures
        r == is_marker(*a),
{
    match &a.ident {
        Some(id) => {
            let marker = String::from_str("async_wrap");
            *id == marker
        },
        None => false,
    }
}

/// True when the method carries the `async_wrap` marker.
pub fn has_async_wrap_attr(m: &Method) -> (r: bool)
    ensures
        r == has_marker(m.attrs@),
{
    let mut i: usize = 0;
    while i < m.attrs.len()
        invariant
            0 <= i <= m.attrs@.len(),
            forall|j: int| 0 <= j < i ==> !is_marker(#[trigger] m.attrs@[j]),
        decreases m.attrs@.len() - i,
    {
        if attr_is_marker(&m.attrs[i]) {
            return true;
        }
        i += 1;
    }
    false
}

fn copy_attr(a: &Attr) -> (r: Attr)
    ensures
        r == *a,
{
    let ident = match &a.ident {
        Some(id) => Some(id.clone()),
        None => None,
    };
    Attr { ident, text: a.text.clone() }
}

/// Removes every `async_wrap` marker from the method and leaves the rest of
/// it as it was.
pub fn remove_async_wrap_attr(m: &mut Method)
    ensures
        final(m).attrs@ == unmarked(old(m).attrs@),
        final(m).vis == old(m).vis,
        final(m).is_async == old(m).is_async,
        final(m).name == old(m).name,
        final(m).params == old(m).params,
        final(m).output == old(m).output,
        final(m).source == old(m).source,
{
    let mut kept: Vec<Attr> = Vec::new();
    let mut i: usize = 0;
    while i < m.attrs.len()
        invariant
            0 <= i <= m.attrs@.len(),
            m.attrs@ == old(m).attrs@,
            kept@ == unmarked(m.attrs@.subrange(0, i as int)),
        decreases m.attrs@.len() - i,
    {
        let ghost pre = m.attrs@.subrange(0, i as int);
        let ghost next = m.attrs@.subrange(0, i + 1);
        assert(next.drop_last() == pre);
        if !attr_is_marker(&m.attrs[i]) {
            kept.push(copy_attr(&m.attrs[i]));
        }
        i += 1;
    }
    assert(m.attrs@.subrange(0, m.attrs@.len() as int) == m.attrs@);
    m.attrs = kept;
}

} // verus!

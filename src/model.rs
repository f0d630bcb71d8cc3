//! The plain-value description of an implementation block and its methods.
use vstd::prelude::*;

verus! {

/// The shape of a `self` parameter.
#[derive(PartialEq, Eq, Structural, Clone, Copy, Debug)]
pub enum Receiver {
    /// `&self`
    Shared,
    /// `&mut self`
    Mutable,
    /// `self` or `mut self`
    Owned,
}

/// How a typed parameter binds its value.
#[derive(Clone, Debug)]
pub enum Binding {
    /// A plain identifier, as in `id: u32`.
    Name(String),
    /// A destructuring pattern, as in `(a, b): (u8, u8)`.
    Pattern,
}

/// One entry of a method's parameter list.
#[derive(Clone, Debug)]
pub enum Param {
    /// The receiver.
    SelfParam(Receiver),
    /// A parameter with a declared type, written out as source text.
    Typed { binding: Binding, ty: String },
}

/// An outer attribute of a method.
#[derive(Clone, Debug)]
pub struct Attr {
    /// The attribute's path when it is a single identifier (`doc`, `async_wrap`).
    pub ident: Option<String>,
    /// The whole attribute as source text, e.g. `#[doc = "x"]`.
    pub text: String,
}

/// A declared return type.
#[derive(Clone, Debug)]
pub struct TypeRef {
    /// The last segment's identifier when the type is a path type.
    pub last_ident: Option<String>,
    /// The type as source text.
    pub text: String,
}

/// A method of an implementation block.
#[derive(Clone, Debug)]
pub struct Method {
    pub attrs: Vec<Attr>,
    /// The visibility as source text (empty for private).
    pub vis: String,
    pub is_async: bool,
    pub name: String,
    pub params: Vec<Param>,
    pub output: Option<TypeRef>,
    /// The method as source text without its attributes: visibility,
    /// signature and body.
    pub source: String,
}

/// An item of an implementation block.
#[derive(Clone, Debug)]
pub enum ImplItem {
    Fn(Method),
    /// Any other item, as source text.
    Other(String),
}

/// An implementation block.
#[derive(Clone, Debug)]
pub struct ImplBlock {
    /// Everything before the opening brace, e.g. `impl<T: Clone> Service<T>`.
    pub header: String,
    /// The generic parameters as source text, in order.
    pub generic_params: Vec<String>,
    /// The where clause as source text, if any.
    pub where_clause: Option<String>,
    pub items: Vec<ImplItem>,
}

} // verus!

verus! {

/// How a synthesized method runs the blocking call.
#[derive(PartialEq, Eq, Structural, Clone, Copy, Debug)]
pub enum Strategy {
    /// Move the call onto a blocking worker and await its completion.
    SpawnBlocking,
    /// Run the call on the current worker, marked as blocked meanwhile.
    BlockInPlace,
}

/// The strategy used when the configuration names none.
impl Default for Strategy {
    fn default() -> (r: Strategy)
        ensures
            r == Strategy::SpawnBlocking,
    {
        Strategy::SpawnBlocking
    }
}

} // verus!

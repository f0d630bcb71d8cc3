//! Generates asynchronous companions for blocking methods.
//!
//! The library takes an implementation block, described by plain values,
//! validates every method that carries the `async_wrap` marker, and emits the
//! text of a companion implementation block whose methods offload the
//! blocking call onto a worker (`spawn_blocking`) or run it in place while
//! telling the runtime that the worker is blocked (`block_in_place`).

pub mod model;
pub mod validate;
pub mod extract;
pub mod synth;
pub mod config;
pub mod transform;
pub mod runtime;
pub mod laws;

pub use model::{Attr, Binding, ImplBlock, ImplItem, Method, Param, Receiver, Strategy, TypeRef};
pub use validate::{has_async_wrap_attr, remove_async_wrap_attr, validate_async_wrap_method, Anchor, ViolationKind};
pub use extract::{extract_method_info, is_result_type, Arg, MethodInfo};
pub use synth::generate_async_method;
pub use config::{parse_blocking_impl_args, BlockingImplArgs, ConfigError, ConfigErrorKind, Token, TokenKind};
pub use transform::{async_wrap, blocking_impl, transform_block, Expansion, Violation};
pub use runtime::{complete_plain, complete_result, AsyncWrapError, AsyncWrapResult, ResultType};

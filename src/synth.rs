//! The text of a synthesized asynchronous method.
use vstd::prelude::*;
use crate::extract::{Arg, MethodInfo};
use crate::model::Strategy;

verus! {

/// `, name: Type` for each forwarded parameter.
pub open spec fn params_text(args: Seq<Arg>) -> Seq<char>
    decreases args.len(),
{
    if args.len() == 0 {
        Seq::empty()
    } else {
        params_text(args.drop_last()) + ", "@ + args.last().name@ + ": "@ + args.last().ty@
    }
}

/// The parameter names separated by `, `.
pub open spec fn call_text(args: Seq<Arg>) -> Seq<char>
    decreases args.len(),
{
    if args.len() == 0 {
        Seq::empty()
    } else if args.len() == 1 {
        args[0].name@
    } else {
        call_text(args.drop_last()) + ", "@ + args.last().name@
    }
}

/// Each documentation attribute followed by a space.
pub open spec fn docs_text(docs: Seq<String>) -> Seq<char>
    decreases docs.len(),
{
    if docs.len() == 0 {
        Seq::empty()
    } else {
        docs_text(docs.drop_last()) + docs.last()@ + " "@
    }
}

/// Visibility, name and parameter list of the synthesized method.
pub open spec fn signature_text(vis: Seq<char>, name: Seq<char>, args: Seq<Arg>) -> Seq<char> {
    vis + " async fn "@ + name + "(&self"@ + params_text(args) + ")"@
}

/// The return type of the synthesized method, arrow included.
pub open spec fn return_text(ret: Option<String>, is_result: bool, s: Strategy) -> Seq<char> {
    match s {
        Strategy::BlockInPlace => match ret {
            Some(t) => " -> "@ + t@,
            None => Seq::empty(),
        },
        Strategy::SpawnBlocking => match ret {
            Some(t) => if is_result {
                " -> ::asyncwrap::AsyncWrapResult<"@ + t@ + ">"@
            } else {
                " -> ::core::result::Result<"@ + t@ + ", ::tokio::task::JoinError>"@
            },
            None => " -> ::core::result::Result<(), ::tokio::task::JoinError>"@,
        },
    }
}

/// The call of the blocking method on the shared handle.
pub open spec fn spawn_text(name: Seq<char>, args: Seq<Arg>) -> Seq<char> {
    "::tokio::task::spawn_blocking(move || inner."@ + name + "("@ + call_text(args) + ")).await"@
}

/// The body of the synthesized method, braces included.
pub open spec fn body_text(name: Seq<char>, args: Seq<Arg>, wraps_result: bool, s: Strategy) -> Seq<char> {
    match s {
        Strategy::BlockInPlace =>
            " { ::tokio::task::block_in_place(|| self.inner."@ + name + "("@ + call_text(args) + ")) }"@,
        Strategy::SpawnBlocking => {
            let completion = if wraps_result {
                "::asyncwrap::complete_result("@ + spawn_text(name, args) + ")"@
            } else {
                "::asyncwrap::complete_plain("@ + spawn_text(name, args) + ")"@
            };
            " { let inner = ::std::sync::Arc::clone(&self.inner); "@ + completion + " }"@
        },
    }
}

/// Whether a result goes through the two-variant error remapping.
pub open spec fn wraps(ret: Option<String>, is_result: bool) -> bool {
    is_result && ret is Some
}

pub open spec fn wraps_result(info: MethodInfo) -> bool {
    wraps(info.return_type, info.is_result)
}

/// The whole synthesized method, from the parts of its description.
pub open spec fn synthesized_text(
    docs: Seq<String>,
    vis: Seq<char>,
    name: Seq<char>,
    args: Seq<Arg>,
    ret: Option<String>,
    is_result: bool,
    s: Strategy,
) -> Seq<char> {
    docs_text(docs) + signature_text(vis, name, args) + return_text(ret, is_result, s) + body_text(
        name,
        args,
        wraps(ret, is_result),
        s,
    )
}

/// The whole synthesized method.
pub open spec fn method_text(info: MethodInfo, s: Strategy) -> Seq<char> {
    synthesized_text(
        info.doc_attrs@,
        info.visibility@,
        info.name@,
        info.args@,
        info.return_type,
        info.is_result,
        s,
    )
}

fn push_params(out: &mut String, args: &Vec<Arg>)
    ensures
        final(out)@ == old(out)@ + params_text(args@),
{
    let ghost start = out@;
    let mut i: usize = 0;
    while i < args.len()
        invariant
            0 <= i <= args@.len(),
            out@ == start + params_text(args@.subrange(0, i as int)),
        decreases args@.len() - i,
    {
        assert(args@.subrange(0, i + 1).drop_last() == args@.subrange(0, i as int));
        out.append(", ");
        out.append(args[i].name.as_str());
        out.append(": ");
        out.append(args[i].ty.as_str());
        i += 1;
    }
    assert(args@.subrange(0, args@.len() as int) == args@);
}

fn push_call(out: &mut String, args: &Vec<Arg>)
    ensures
        final(out)@ == old(out)@ + call_text(args@),
{
    let ghost start = out@;
    let mut i: usize = 0;
    while i < args.len()
        invariant
            0 <= i <= args@.len(),
            out@ == start + call_text(args@.subrange(0, i as int)),
        decreases args@.len() - i,
    {
        assert(args@.subrange(0, i + 1).drop_last() == args@.subrange(0, i as int));
        if i > 0 {
            out.append(", ");
        }
        out.append(args[i].name.as_str());
        i += 1;
    }
    assert(args@.subrange(0, args@.len() as int) == args@);
}

fn push_docs(out: &mut String, docs: &Vec<String>)
    ensures
        final(out)@ == old(out)@ + docs_text(docs@),
{
    let ghost start = out@;
    let mut i: usize = 0;
    while i < docs.len()
        invariant
            0 <= i <= docs@.len(),
            out@ == start + docs_text(docs@.subrange(0, i as int)),
        decreases docs@.len() - i,
    {
        assert(docs@.subrange(0, i + 1).drop_last() == docs@.subrange(0, i as int));
        out.append(docs[i].as_str());
        out.append(" ");
        i += 1;
    }
    assert(docs@.subrange(0, docs@.len() as int) == docs@);
}

fn push_signature(out: &mut String, info: &MethodInfo)
    ensures
        final(out)@ == old(out)@ + signature_text(info.visibility@, info.name@, info.args@),
{
    let ghost start = out@;
    out.append(info.visibility.as_str());
    out.append(" async fn ");
    out.append(info.name.as_str());
    out.append("(&self");
    push_params(out, &info.args);
    out.append(")");
    assert(out@ =~= start + signature_text(info.visibility@, info.name@, info.args@));
}

fn push_return(out: &mut String, info: &MethodInfo, strategy: Strategy)
    ensures
        final(out)@ == old(out)@ + return_text(info.return_type, info.is_result, strategy),
{
    let ghost start = out@;
    match strategy {
        Strategy::BlockInPlace => {
            match &info.return_type {
                Some(t) => {
                    out.append(" -> ");
                    out.append(t.as_str());
                },
                None => {
                    assert(out@ =~= start + Seq::<char>::empty());
                },
            }
        },
        Strategy::SpawnBlocking => {
            match &info.return_type {
                Some(t) => {
                    if info.is_result {
                        out.append(" -> ::asyncwrap::AsyncWrapResult<");
                        out.append(t.as_str());
                        out.append(">");
                    } else {
                        out.append(" -> ::core::result::Result<");
                        out.append(t.as_str());
                        out.append(", ::tokio::task::JoinError>");
                    }
                },
                None => {
                    out.append(" -> ::core::result::Result<(), ::tokio::task::JoinError>");
                },
            }
        },
    }
    assert(out@ =~= start + return_text(info.return_type, info.is_result, strategy));
}

fn push_spawn(out: &mut String, info: &MethodInfo)
    ensures
        final(out)@ == old(out)@ + spawn_text(info.name@, info.args@),
{
    let ghost start = out@;
    out.append("::tokio::task::spawn_blocking(move || inner.");
    out.append(info.name.as_str());
    out.append("(");
    push_call(out, &info.args);
    out.append(")).await");
    assert(out@ =~= start + spawn_text(info.name@, info.args@));
}

fn push_body(out: &mut String, info: &MethodInfo, strategy: Strategy)
    ensures
        final(out)@ == old(out)@ + body_text(info.name@, info.args@, wraps_result(*info), strategy),
{
    let ghost start = out@;
    let wraps = info.is_result && info.return_type.is_some();
    match strategy {
        Strategy::BlockInPlace => {
            out.append(" { ::tokio::task::block_in_place(|| self.inner.");
            out.append(info.name.as_str());
            out.append("(");
            push_call(out, &info.args);
            out.append(")) }");
        },
        Strategy::SpawnBlocking => {
            out.append(" { let inner = ::std::sync::Arc::clone(&self.inner); ");
            let ghost completion_start = out@;
            if wraps {
                out.append("::asyncwrap::complete_result(");
            } else {
                out.append("::asyncwrap::complete_plain(");
            }
            push_spawn(out, info);
            out.append(")");
            let ghost completion_end = out@;
            out.append(" }");
            assert(completion_end =~= completion_start + (if wraps {
                "::asyncwrap::complete_result("@ + spawn_text(info.name@, info.args@) + ")"@
            } else {
                "::asyncwrap::complete_plain("@ + spawn_text(info.name@, info.args@) + ")"@
            }));
        },
    }
    assert(out@ =~= start + body_text(info.name@, info.args@, wraps_result(*info), strategy));
}

/// Appends the text of the asynchronous companion of the described method.
pub fn push_async_method(out: &mut String, info: &MethodInfo, strategy: Strategy)
    ensures
        final(out)@ == old(out)@ + method_text(*info, strategy),
{
    let ghost start = out@;
    push_docs(out, &info.doc_attrs);
    push_signature(out, info);
    push_return(out, info, strategy);
    push_body(out, info, strategy);
    assert(out@ =~= start + method_text(*info, strategy));
}

/// The text of the asynchronous companion of the described method.
pub fn generate_async_method(info: &MethodInfo, strategy: Strategy) -> (r: String)
    ensures
        r@ == method_text(*info, strategy),
{
    let mut out = String::new();
    push_async_method(&mut out, info, strategy);
    assert(out@ =~= Seq::<char>::empty() + method_text(*info, strategy));
    out
}

} // verus!

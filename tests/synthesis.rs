use asyncwrap::{
    async_wrap, blocking_impl, extract_method_info, generate_async_method, has_async_wrap_attr,
    is_result_type, parse_blocking_impl_args, remove_async_wrap_attr, transform_block,
    validate_async_wrap_method, Attr, Binding, BlockingImplArgs, ConfigErrorKind, ImplBlock, ImplItem,
    Method, Param, Receiver, Strategy, Token, TokenKind, TypeRef, ViolationKind,
};

fn marker() -> Attr {
    Attr { ident: Some("async_wrap".to_string()), text: "#[async_wrap]".to_string() }
}

fn doc(text: &str) -> Attr {
    Attr { ident: Some("doc".to_string()), text: format!("#[doc = \"{}\"]", text) }
}

fn ty(text: &str, last: Option<&str>) -> TypeRef {
    TypeRef { last_ident: last.map(|l| l.to_string()), text: text.to_string() }
}

fn arg(name: &str, t: &str) -> Param {
    Param::Typed { binding: Binding::Name(name.to_string()), ty: t.to_string() }
}

fn method(attrs: Vec<Attr>, vis: &str, name: &str, params: Vec<Param>, output: Option<TypeRef>) -> Method {
    Method {
        attrs,
        vis: vis.to_string(),
        is_async: false,
        name: name.to_string(),
        params,
        output,
        source: format!("{} fn {}(&self) {{ }}", vis, name),
    }
}

fn ident(t: &str) -> Token {
    Token { kind: TokenKind::Ident, text: t.to_string() }
}

fn punct(c: char) -> Token {
    Token { kind: TokenKind::Punct(c, false), text: c.to_string() }
}

fn joint(c: char) -> Token {
    Token { kind: TokenKind::Punct(c, true), text: c.to_string() }
}

fn group(text: &str) -> Token {
    Token { kind: TokenKind::Other, text: text.to_string() }
}

fn lit(v: &str) -> Token {
    Token { kind: TokenKind::Literal, text: format!("\"{}\"", v) }
}

fn block(header: &str, items: Vec<ImplItem>) -> ImplBlock {
    ImplBlock { header: header.to_string(), generic_params: vec![], where_clause: None, items }
}

fn args(async_type: &str, strategy: Strategy) -> BlockingImplArgs {
    BlockingImplArgs { async_type: async_type.to_string(), strategy }
}

fn self_ref() -> Param {
    Param::SelfParam(Receiver::Shared)
}

fn get_value() -> Method {
    method(vec![marker()], "pub", "get_value", vec![self_ref()], Some(ty("i32", Some("i32"))))
}

const GET_VALUE_SPAWN: &str = "pub async fn get_value(&self) -> ::core::result::Result<i32, ::tokio::task::JoinError> { let inner = ::std::sync::Arc::clone(&self.inner); ::asyncwrap::complete_plain(::tokio::task::spawn_blocking(move || inner.get_value()).await) }";

#[test]
fn config_without_strategy_selects_spawn_blocking() {
    let a = parse_blocking_impl_args(&vec![ident("AsyncService")]).unwrap();
    assert_eq!(a.async_type, "AsyncService");
    assert_eq!(a.strategy, Strategy::SpawnBlocking);
}

#[test]
fn config_naming_spawn_blocking_matches_default() {
    let toks = vec![ident("AsyncService"), punct(','), ident("strategy"), punct('='), lit("spawn_blocking")];
    let a = parse_blocking_impl_args(&toks).unwrap();
    let d = parse_blocking_impl_args(&vec![ident("AsyncService")]).unwrap();
    assert_eq!(a.strategy, d.strategy);
    assert_eq!(a.async_type, d.async_type);
}

#[test]
fn config_block_in_place() {
    let toks = vec![ident("AsyncService"), punct(','), ident("strategy"), punct('='), lit("block_in_place")];
    assert_eq!(parse_blocking_impl_args(&toks).unwrap().strategy, Strategy::BlockInPlace);
}

#[test]
fn config_generic_companion_type() {
    let toks = vec![ident("Pair"), punct('<'), ident("A"), punct(','), ident("B"), punct('>')];
    let a = parse_blocking_impl_args(&toks).unwrap();
    assert_eq!(a.async_type, "Pair < A , B >");
    assert_eq!(a.strategy, Strategy::SpawnBlocking);
}

#[test]
fn config_path_companion_type() {
    let toks = vec![ident("crate"), joint(':'), punct(':'), ident("AsyncClient")];
    let a = parse_blocking_impl_args(&toks).unwrap();
    assert_eq!(a.async_type, "crate :: AsyncClient");
    assert_eq!(a.strategy, Strategy::SpawnBlocking);
    let with_clause = vec![
        ident("crate"), joint(':'), punct(':'), ident("AsyncClient"),
        punct(','), ident("strategy"), punct('='), lit("block_in_place"),
    ];
    let b = parse_blocking_impl_args(&with_clause).unwrap();
    assert_eq!(b.async_type, "crate :: AsyncClient");
    assert_eq!(b.strategy, Strategy::BlockInPlace);
}

#[test]
fn config_lifetime_companion_type() {
    let toks = vec![ident("AsyncX"), punct('<'), joint('\''), ident("a"), punct('>')];
    let a = parse_blocking_impl_args(&toks).unwrap();
    assert_eq!(a.async_type, "AsyncX < 'a >");
}

#[test]
fn config_arrow_inside_companion_type() {
    let toks = vec![
        ident("Wrapper"), punct('<'), ident("fn"), group("(u8)"), joint('-'), punct('>'), ident("u8"), punct('>'),
        punct(','), ident("strategy"), punct('='), lit("block_in_place"),
    ];
    let a = parse_blocking_impl_args(&toks).unwrap();
    assert_eq!(a.async_type, "Wrapper < fn (u8) -> u8 >");
    assert_eq!(a.strategy, Strategy::BlockInPlace);
}

#[test]
fn config_unknown_strategy_after_path_type() {
    let toks = vec![ident("a"), joint(':'), punct(':'), ident("B"), punct(','), ident("strategy"), punct('='), lit("eager")];
    let e = parse_blocking_impl_args(&toks).unwrap_err();
    assert_eq!((e.kind, e.at), (ConfigErrorKind::UnknownStrategy, 7));
    assert_eq!(e.message(), "unknown strategy \"eager\", expected \"spawn_blocking\" or \"block_in_place\"");
}

#[test]
fn config_unknown_strategy_names_value() {
    let toks = vec![ident("AsyncClient"), punct(','), ident("strategy"), punct('='), lit("invalid")];
    let e = parse_blocking_impl_args(&toks).unwrap_err();
    assert_eq!(e.kind, ConfigErrorKind::UnknownStrategy);
    assert_eq!(e.at, 4);
    assert_eq!(e.value.as_deref(), Some("invalid"));
    assert_eq!(
        e.message(),
        "unknown strategy \"invalid\", expected \"spawn_blocking\" or \"block_in_place\""
    );
}

#[test]
fn config_wrong_keyword() {
    let toks = vec![ident("AsyncClient"), punct(','), ident("mode"), punct('='), lit("block_in_place")];
    let e = parse_blocking_impl_args(&toks).unwrap_err();
    assert_eq!((e.kind, e.at), (ConfigErrorKind::ExpectedStrategy, 2));
    assert!(e.value.is_none());
    assert_eq!(e.message(), "expected `strategy`");
}

fn fault_of(toks: Vec<Token>) -> (ConfigErrorKind, usize) {
    let e = parse_blocking_impl_args(&toks).unwrap_err();
    (e.kind, e.at)
}

#[test]
fn config_other_errors() {
    assert_eq!(fault_of(vec![]), (ConfigErrorKind::ExpectedType, 0));
    assert_eq!(fault_of(vec![punct(','), ident("strategy")]), (ConfigErrorKind::ExpectedType, 0));
    assert_eq!(fault_of(vec![punct('=')]), (ConfigErrorKind::ExpectedType, 0));
    assert_eq!(fault_of(vec![ident("A"), punct(',')]), (ConfigErrorKind::ExpectedIdent, 2));
    assert_eq!(
        fault_of(vec![ident("A"), punct(','), ident("strategy"), punct(':')]),
        (ConfigErrorKind::ExpectedEq, 3)
    );
    assert_eq!(
        fault_of(vec![ident("A"), punct(','), ident("strategy"), punct('=')]),
        (ConfigErrorKind::ExpectedStr, 4)
    );
    let number = Token { kind: TokenKind::Literal, text: "7".to_string() };
    assert_eq!(
        fault_of(vec![ident("A"), punct(','), ident("strategy"), punct('='), number]),
        (ConfigErrorKind::ExpectedStr, 4)
    );
    let trailing = vec![ident("A"), punct(','), ident("strategy"), punct('='), lit("block_in_place"), punct(',')];
    let e = parse_blocking_impl_args(&trailing).unwrap_err();
    assert_eq!((e.kind, e.at), (ConfigErrorKind::Unexpected, 5));
    assert_eq!(e.message(), "unexpected token");
}

#[test]
fn config_escaped_literal_is_unescaped() {
    let escaped = Token { kind: TokenKind::Literal, text: "\"block\\u{5f}in_place\"".to_string() };
    let toks = vec![ident("A"), punct(','), ident("strategy"), punct('='), escaped];
    assert_eq!(parse_blocking_impl_args(&toks).unwrap().strategy, Strategy::BlockInPlace);
}

#[test]
fn validation_rejects_each_bad_shape() {
    let mut m = get_value();
    assert_eq!(validate_async_wrap_method(&m), Ok(()));
    m.is_async = true;
    assert_eq!(validate_async_wrap_method(&m), Err(ViolationKind::AsyncMethod));
    m.params = vec![Param::SelfParam(Receiver::Mutable)];
    assert_eq!(validate_async_wrap_method(&m), Err(ViolationKind::AsyncMethod));
    m.is_async = false;
    assert_eq!(validate_async_wrap_method(&m), Err(ViolationKind::MutableReceiver));
    m.params = vec![Param::SelfParam(Receiver::Owned)];
    assert_eq!(validate_async_wrap_method(&m), Err(ViolationKind::OwnedReceiver));
    m.params = vec![];
    assert_eq!(validate_async_wrap_method(&m), Err(ViolationKind::NoParams));
    m.params = vec![arg("x", "i32")];
    assert_eq!(async_wrap(&m), Err(ViolationKind::NotReceiver));
}

#[test]
fn violation_messages_are_distinct() {
    let kinds = [
        ViolationKind::AsyncMethod,
        ViolationKind::MutableReceiver,
        ViolationKind::OwnedReceiver,
        ViolationKind::NotReceiver,
        ViolationKind::NoParams,
    ];
    for (i, a) in kinds.iter().enumerate() {
        for b in kinds.iter().skip(i + 1) {
            assert_ne!(a.message(), b.message());
        }
    }
    assert_eq!(ViolationKind::MutableReceiver.message(), "#[async_wrap] requires `&self`, not `&mut self`");
    assert_eq!(ViolationKind::AsyncMethod.message(), "#[async_wrap] cannot be used on async methods");
}

#[test]
fn marker_detection_and_removal() {
    let mut m = method(vec![doc(" Reads."), marker()], "pub", "read", vec![self_ref()], None);
    assert!(has_async_wrap_attr(&m));
    remove_async_wrap_attr(&mut m);
    assert!(!has_async_wrap_attr(&m));
    assert_eq!(m.attrs.len(), 1);
    assert_eq!(m.attrs[0].text, "#[doc = \" Reads.\"]");
    remove_async_wrap_attr(&mut m);
    assert_eq!(m.attrs.len(), 1);
    assert_eq!(m.name, "read");
}

#[test]
fn extraction_skips_receiver_and_patterns() {
    let m = method(
        vec![doc(" Sums."), marker()],
        "pub",
        "sum",
        vec![self_ref(), arg("a", "i32"), Param::Typed { binding: Binding::Pattern, ty: "(u8, u8)".to_string() }, arg("b", "i64")],
        Some(ty("Result<i64, MyError>", Some("Result"))),
    );
    let info = extract_method_info(&m).unwrap();
    assert_eq!(info.name, "sum");
    assert_eq!(info.visibility, "pub");
    assert_eq!(info.args.len(), 2);
    assert_eq!(info.args[0].name, "a");
    assert_eq!(info.args[1].ty, "i64");
    assert_eq!(info.return_type.as_deref(), Some("Result<i64, MyError>"));
    assert!(info.is_result);
    assert_eq!(info.doc_attrs, vec!["#[doc = \" Sums.\"]".to_string()]);
}

#[test]
fn extraction_needs_shared_receiver() {
    let m = method(vec![marker()], "pub", "reset", vec![Param::SelfParam(Receiver::Mutable)], None);
    assert!(extract_method_info(&m).is_none());
    let none = method(vec![marker()], "pub", "make", vec![], None);
    assert!(extract_method_info(&none).is_none());
}

#[test]
fn result_type_detection() {
    assert!(is_result_type(&ty("std::io::Result<u8>", Some("Result"))));
    assert!(!is_result_type(&ty("Option<u8>", Some("Option"))));
    assert!(!is_result_type(&ty("(u8, u8)", None)));
}

#[test]
fn synthesized_plain_value_under_spawn_blocking() {
    let info = extract_method_info(&get_value()).unwrap();
    assert_eq!(generate_async_method(&info, Strategy::SpawnBlocking), GET_VALUE_SPAWN);
}

#[test]
fn synthesized_result_under_spawn_blocking() {
    let m = method(
        vec![doc(" May fail."), marker()],
        "pub",
        "might_fail",
        vec![self_ref(), arg("ok", "bool")],
        Some(ty("Result<String, E>", Some("Result"))),
    );
    let text = generate_async_method(&extract_method_info(&m).unwrap(), Strategy::SpawnBlocking);
    assert_eq!(
        text,
        "#[doc = \" May fail.\"] pub async fn might_fail(&self, ok: bool) -> ::asyncwrap::AsyncWrapResult<Result<String, E>> { let inner = ::std::sync::Arc::clone(&self.inner); ::asyncwrap::complete_result(::tokio::task::spawn_blocking(move || inner.might_fail(ok)).await) }"
    );
}

#[test]
fn synthesized_unit_under_spawn_blocking() {
    let m = method(vec![marker()], "pub", "do_work", vec![self_ref()], None);
    let text = generate_async_method(&extract_method_info(&m).unwrap(), Strategy::SpawnBlocking);
    assert_eq!(
        text,
        "pub async fn do_work(&self) -> ::core::result::Result<(), ::tokio::task::JoinError> { let inner = ::std::sync::Arc::clone(&self.inner); ::asyncwrap::complete_plain(::tokio::task::spawn_blocking(move || inner.do_work()).await) }"
    );
}

#[test]
fn synthesized_block_in_place_keeps_return_type() {
    let m = method(
        vec![marker()],
        "pub",
        "might_fail",
        vec![self_ref(), arg("succeed", "bool")],
        Some(ty("Result<String, MyError>", Some("Result"))),
    );
    let text = generate_async_method(&extract_method_info(&m).unwrap(), Strategy::BlockInPlace);
    assert_eq!(
        text,
        "pub async fn might_fail(&self, succeed: bool) -> Result<String, MyError> { ::tokio::task::block_in_place(|| self.inner.might_fail(succeed)) }"
    );
    let unit = method(vec![marker()], "pub", "do_nothing", vec![self_ref()], None);
    assert_eq!(
        generate_async_method(&extract_method_info(&unit).unwrap(), Strategy::BlockInPlace),
        "pub async fn do_nothing(&self) { ::tokio::task::block_in_place(|| self.inner.do_nothing()) }"
    );
}

#[test]
fn block_with_one_valid_and_one_mutable_method() {
    let bad = method(vec![marker()], "pub", "reset", vec![Param::SelfParam(Receiver::Mutable)], None);
    let b = block("impl Service", vec![ImplItem::Fn(get_value()), ImplItem::Fn(bad)]);
    let e = transform_block(&args("AsyncService", Strategy::SpawnBlocking), &b);
    assert_eq!(e.block, "impl Service { pub fn get_value(&self) { } pub fn reset(&self) { } }");
    assert_eq!(e.violations.len(), 1);
    assert_eq!(e.violations[0].item, 1);
    assert_eq!(e.violations[0].kind, ViolationKind::MutableReceiver);
    assert!(e.companion.is_none());
    assert!(e.config_error.is_none());
}

#[test]
fn block_with_one_valid_method() {
    let b = block("impl Service", vec![ImplItem::Fn(get_value())]);
    let e = transform_block(&args("AsyncService", Strategy::SpawnBlocking), &b);
    assert!(e.violations.is_empty());
    assert_eq!(e.companion.unwrap(), format!("impl AsyncService {{ {} }}", GET_VALUE_SPAWN));
}

#[test]
fn block_with_bad_configuration() {
    let b = block("impl Service", vec![ImplItem::Fn(get_value())]);
    let e = blocking_impl(&vec![ident("AsyncService"), punct(','), ident("strategy"), punct('='), lit("eager")], &b);
    assert_eq!(e.block, "impl Service { pub fn get_value(&self) { } }");
    assert_eq!(e.config_error.unwrap().kind, ConfigErrorKind::UnknownStrategy);
    assert!(e.companion.is_none());
    assert!(e.violations.is_empty());
}

#[test]
fn block_collects_every_violation() {
    let mut asynchronous = get_value();
    asynchronous.is_async = true;
    let mutable = method(vec![marker()], "pub", "mut_method", vec![Param::SelfParam(Receiver::Mutable)], None);
    let b = block("impl BlockingClient", vec![ImplItem::Fn(mutable), ImplItem::Fn(asynchronous)]);
    let e = blocking_impl(&vec![ident("AsyncClient")], &b);
    assert_eq!(e.violations.len(), 2);
    assert_eq!(e.violations[0].kind, ViolationKind::MutableReceiver);
    assert_eq!(e.violations[1].kind, ViolationKind::AsyncMethod);
    assert_eq!(e.violations[1].item, 1);
    assert!(e.companion.is_none());
}

#[test]
fn test_basic_block_in_place() {
    let add = method(vec![marker()], "pub", "add", vec![self_ref(), arg("n", "i32")], Some(ty("i32", Some("i32"))));
    let b = block("impl BlockingService", vec![ImplItem::Fn(get_value()), ImplItem::Fn(add)]);
    let toks = vec![ident("AsyncService"), punct(','), ident("strategy"), punct('='), lit("block_in_place")];
    let e = blocking_impl(&toks, &b);
    assert_eq!(
        e.companion.unwrap(),
        "impl AsyncService { pub async fn get_value(&self) -> i32 { ::tokio::task::block_in_place(|| self.inner.get_value()) } pub async fn add(&self, n: i32) -> i32 { ::tokio::task::block_in_place(|| self.inner.add(n)) } }"
    );
}

#[test]
fn test_only_marked_methods() {
    let public_method = method(vec![marker()], "pub", "public_method", vec![self_ref()], Some(ty("i32", Some("i32"))));
    let helper = method(vec![], "", "private_helper", vec![self_ref()], Some(ty("i32", Some("i32"))));
    let b = block("impl Service", vec![ImplItem::Fn(public_method), ImplItem::Fn(helper)]);
    let companion = blocking_impl(&vec![ident("AsyncService")], &b).companion.unwrap();
    assert!(companion.contains("fn public_method(&self)"));
    assert!(!companion.contains("private_helper"));
}

#[test]
fn test_generics() {
    let get_data = method(vec![marker()], "pub", "get_data", vec![self_ref()], Some(ty("T", Some("T"))));
    let b = ImplBlock {
        header: "impl<T: Clone + Send + Sync + 'static> GenericService<T>".to_string(),
        generic_params: vec!["T: Clone + Send + Sync + 'static".to_string()],
        where_clause: Some("where T: Default".to_string()),
        items: vec![ImplItem::Fn(get_data), ImplItem::Other("const N: usize = 1;".to_string())],
    };
    let toks = vec![ident("AsyncGenericService"), punct('<'), ident("T"), punct('>')];
    let e = blocking_impl(&toks, &b);
    assert_eq!(
        e.block,
        "impl<T: Clone + Send + Sync + 'static> GenericService<T> { pub fn get_data(&self) { } const N: usize = 1; }"
    );
    assert!(e
        .companion
        .unwrap()
        .starts_with("impl<T: Clone + Send + Sync + 'static> AsyncGenericService < T > where T: Default { pub async fn get_data(&self) -> ::core::result::Result<T, ::tokio::task::JoinError>"));
}

#[test]
fn where_clause_kept_without_generic_parameters() {
    let mut b = block("impl Service where Service: Send", vec![ImplItem::Fn(get_value())]);
    b.where_clause = Some("where Service: Send".to_string());
    let companion = blocking_impl(&vec![ident("AsyncService")], &b).companion.unwrap();
    assert!(companion.starts_with("impl AsyncService where Service: Send { pub async fn get_value"));
}

#[test]
fn default_strategy_is_spawn_blocking() {
    assert_eq!(Strategy::default(), Strategy::SpawnBlocking);
}

#[test]
fn test_visibility_preserved() {
    let public_fn = method(vec![marker()], "pub", "public_fn", vec![self_ref()], Some(ty("i32", Some("i32"))));
    let crate_fn = method(vec![marker()], "pub(crate)", "crate_fn", vec![self_ref()], Some(ty("i32", Some("i32"))));
    let b = block("impl VisService", vec![ImplItem::Fn(public_fn), ImplItem::Fn(crate_fn)]);
    let companion = blocking_impl(&vec![ident("AsyncVisService")], &b).companion.unwrap();
    assert!(companion.contains("pub async fn public_fn(&self)"));
    assert!(companion.contains("pub(crate) async fn crate_fn(&self)"));
}

#[test]
fn test_multiple_args() {
    let compute = method(
        vec![marker()],
        "pub",
        "compute",
        vec![self_ref(), arg("a", "i32"), arg("b", "i32"), arg("op", "char")],
        Some(ty("i32", Some("i32"))),
    );
    let text = generate_async_method(&extract_method_info(&compute).unwrap(), Strategy::SpawnBlocking);
    assert!(text.contains("pub async fn compute(&self, a: i32, b: i32, op: char)"));
    assert!(text.contains("inner.compute(a, b, op)"));
}

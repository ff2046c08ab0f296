use jsonrpc_v2::method::{
    arguments, extract_named, extract_positional, AttrArg, AttrLit, FnParam, MethodPlan, SourceError,
};
use jsonrpc_v2::Error;
use serde_json::Value;

fn value(text: &str) -> Value {
    serde_json::from_str::<Value>(text).unwrap()
}

fn names(names: &[&str]) -> Vec<String> {
    names.iter().map(|name| name.to_string()).collect()
}

fn found(params: Option<&str>, parameters: &[&str]) -> Result<Vec<Value>, Error<u8>> {
    arguments(params.map(value), &names(parameters))
}

#[test]
fn arguments_by_name() {
    assert_eq!(
        found(Some("{\"b\":[2],\"x\":0,\"a\":1}"), &["a", "b"]),
        Ok(vec![value("1"), value("[2]")])
    );
    assert_eq!(found(Some("{\"a\":1}"), &["a", "b"]), Err(Error::invalid_params()));
    assert_eq!(found(Some("{}"), &["a"]), Err(Error::invalid_params()));
    assert_eq!(found(Some("{\"a\":1}"), &["a", "a"]), Err(Error::invalid_params()));
}

#[test]
fn arguments_by_position() {
    assert_eq!(found(Some("[1,\"x\"]"), &["a", "b"]), Ok(vec![value("1"), value("\"x\"")]));
    assert_eq!(found(Some("[1]"), &["a", "b"]), Err(Error::invalid_params()));
    assert_eq!(found(Some("[1,2,3]"), &["a", "b"]), Err(Error::invalid_params()));
}

#[test]
fn named_and_positional_arguments_agree() {
    assert_eq!(
        found(Some("{\"b\":2,\"a\":1}"), &["a", "b"]),
        found(Some("[1,2]"), &["a", "b"])
    );
}

#[test]
fn arguments_of_other_kinds_are_invalid() {
    for params in vec![None, Some("null"), Some("1"), Some("\"a\""), Some("true")] {
        assert_eq!(found(params, &["a"]), Err(Error::invalid_params()));
    }
}

#[test]
fn functions_without_parameters() {
    for params in vec![None, Some("{}"), Some("[]"), Some("null"), Some("1"), Some("\"a\"")] {
        assert_eq!(found(params, &[]), Ok(vec![]));
    }
    assert_eq!(found(Some("{\"a\":1}"), &[]), Err(Error::invalid_params()));
    assert_eq!(found(Some("[1]"), &[]), Err(Error::invalid_params()));
}

#[test]
fn extraction_by_itself() {
    assert_eq!(extract_positional(vec![value("1")], 1), Some(vec![value("1")]));
    assert_eq!(extract_positional(vec![value("1")], 2), None);
    let mut object = serde_json::Map::new();
    object.insert("a".to_string(), value("true"));
    assert_eq!(extract_named(object.clone(), &names(&["a"])), Some(vec![value("true")]));
    assert_eq!(extract_named(object.clone(), &names(&[])), Some(vec![]));
    assert_eq!(extract_named(object, &names(&["b"])), None);
}

#[test]
fn function_is_replaced_by_default() {
    let plan = MethodPlan::from_source("", "async fn sub(a: usize, b: usize) -> usize { a - b }")
        .ok()
        .unwrap();
    assert_eq!(plan.name, "sub");
    assert!(!plan.keeps_original);
    assert!(!plan.is_extern);
    assert_eq!(plan.param_names, names(&["a", "b"]));
}

#[test]
fn wrapping_function_with_a_name_of_its_own() {
    let attrs = "other, wrapped_fn = \"sub_method\", extern = true, wrapped_fn = \"late\"";
    let item = "fn sub(self, a: usize, (b, c): (u8, u8), mut d: &str) {}";
    let plan = MethodPlan::from_source(attrs, item).ok().unwrap();
    assert_eq!(plan.name, "sub_method");
    assert!(plan.keeps_original);
    assert!(plan.is_extern);
    assert_eq!(plan.param_names, names(&["a", "d"]));
}

#[test]
fn only_the_first_argument_of_a_name_counts() {
    let item = "fn f() {}";
    let plan = MethodPlan::from_source("wrapped_fn = 1, wrapped_fn = \"g\"", item).ok().unwrap();
    assert_eq!(plan.name, "f");
    assert!(!plan.keeps_original);
    let plan = MethodPlan::from_source("extern = false, extern = true", item).ok().unwrap();
    assert!(!plan.is_extern);
    let plan = MethodPlan::from_source("extern = \"C\"", item).ok().unwrap();
    assert!(!plan.is_extern);
    let plan = MethodPlan::from_source("a::wrapped_fn = \"g\", wrapped_fn(x)", item).ok().unwrap();
    assert_eq!(plan.name, "f");
}

#[test]
fn source_that_is_not_a_function() {
    assert_eq!(MethodPlan::from_source("", "struct S;").err(), Some(SourceError::Syntax));
    assert_eq!(MethodPlan::from_source("", "fn f() {").err(), Some(SourceError::Syntax));
    assert_eq!(MethodPlan::from_source("= 1", "fn f() {}").err(), Some(SourceError::Syntax));
}

#[test]
fn unknown_literals_are_refused() {
    let refused = |attrs: &str, item: &str| {
        MethodPlan::from_source(attrs, item).err() == Some(SourceError::UnknownLiteral)
    };
    assert!(refused("", "fn f() { c\"a\" }"));
    assert!(refused("", "fn f() { g(cr\"a\") }"));
    assert!(refused("", "fn f() { g(cr#\"a\"#) }"));
    assert!(refused("", "fn f() { 'c\"a\" }"));
    assert!(refused("", "fn f() { (/*ERROR*/) }"));
    assert!(refused("c\"x\"", "fn f() {}"));
    assert!(refused("wrapped_fn = c\"x\"", "fn f() {}"));
    assert!(refused("", "fn f() { \"a\\\"\" + c\"b\" }"));
    assert!(refused("", "fn f() { r#\"a\"b\"# + c\"b\" }"));
    assert!(refused("", "fn f() { '\"' + c\"b\" }"));
    assert!(refused("", "fn f() { '\\'' + c\"b\" }"));
    assert!(refused("", "fn f() { /* \" /* */ */ c\"b\" }"));
    assert!(refused("", "fn f() { // \"\n c\"b\" }"));
    assert!(refused("", "fn f() { r#fn; c\"b\" }"));
    // The character before the letter is white space.
    assert!(refused("", "fn f() { 1;\u{2028}c\"b\" }"));
}

#[test]
fn strings_and_comments_hold_no_unknown_literals() {
    for body in vec![
        "\"plan c\"",
        "\"a \\\" c\"",
        "r\"plan c\"",
        "r#\"a c\" b\"#",
        "b\"a c\"",
        "br\"a c\"",
        "'c'",
        "b'c'",
        "'\\u{63}'",
        "\"(/*ERROR*/)\"",
        "\"é c\"",
        "1 // c\"a\"",
        "1 /* c\"a\" /* cr# */ c\" */",
        "r#struct",
    ] {
        let item = format!("fn f(a: u8) {{ {}\n }}", body);
        let plan = MethodPlan::from_source("", &item).ok().unwrap();
        assert_eq!(plan.name, "f");
        assert_eq!(plan.param_names, names(&["a"]));
    }
}

#[test]
fn words_before_quotes_are_no_unknown_literals() {
    for name in vec!["c", "cr", "exec", "calc_", "x1c"] {
        let attrs = format!("wrapped_fn = \"{}\"", name);
        let plan = MethodPlan::from_source(&attrs, "fn f() { \"abc\"; b\"c\"; 'c' }").ok().unwrap();
        assert_eq!(plan.name, name);
    }
}

#[test]
fn plan_from_parts() {
    let params = vec![
        FnParam::Receiver,
        FnParam::Ident("a".to_string()),
        FnParam::Pattern,
        FnParam::Ident("b".to_string()),
    ];
    let args = vec![
        AttrArg::Other,
        AttrArg::NameValue { path: None, lit: AttrLit::Bool(true) },
        AttrArg::NameValue {
            path: Some("wrapped_fn".to_string()),
            lit: AttrLit::Str("g".to_string()),
        },
    ];
    let plan = MethodPlan::new("f".to_string(), &params, &args);
    assert_eq!(plan.name, "g");
    assert!(plan.keeps_original);
    assert!(!plan.is_extern);
    assert_eq!(plan.param_names, names(&["a", "b"]));
}

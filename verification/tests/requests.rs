use jsonrpc_v2::request::InnerParams;
use jsonrpc_v2::wire::OneOrManyRawValues;
use jsonrpc_v2::{BytesRequestObject, Id, JsonError, Method, RequestKind, RequestObject, V2};

fn read(text: &str) -> RequestObject {
    RequestObject::from(BytesRequestObject::deserialize(text).unwrap())
}

fn raw_params(req: &RequestObject) -> Option<String> {
    match req.params_ref() {
        Some(InnerParams::Raw(text)) => Some(text.clone()),
        Some(InnerParams::Value(_)) => panic!("the params were read"),
        None => None,
    }
}

#[test]
fn version_is_written_and_read() {
    assert_eq!(V2.serialize(), "\"2.0\"");
    assert_eq!(V2::deserialize("\"2.0\""), Ok(V2));
    assert_eq!(V2::deserialize("\"1.0\""), Err(JsonError));
    assert_eq!(V2::deserialize("2.0"), Err(JsonError));
    // The version is only borrowed from the text, and an escape does not stand for itself.
    assert_eq!(V2::deserialize("\"\\u0032.0\""), Err(JsonError));
    assert_eq!(V2::default(), V2);
}

#[test]
fn id_texts() {
    assert_eq!(Id::Num(0).serialize(), "0");
    assert_eq!(Id::Num(-120).serialize(), "-120");
    assert_eq!(Id::Num(i64::MIN).serialize(), "-9223372036854775808");
    assert_eq!(Id::Num(i64::MAX).serialize(), "9223372036854775807");
    assert_eq!(Id::from("a\"\\\n\u{1f}\u{7f}é").serialize(), "\"a\\\"\\\\\\n\\u001f\u{7f}é\"");
    assert_eq!(Id::Null.serialize(), "null");
}

#[test]
fn id_is_read_back() {
    for id in vec![Id::Num(7), Id::Num(-7), Id::from("x\ty"), Id::from(String::new()), Id::Null] {
        assert_eq!(Id::deserialize(&id.serialize()), Ok(id.clone()));
    }
}

#[test]
fn id_is_number_string_or_null() {
    assert_eq!(Id::deserialize("1"), Ok(Id::Num(1)));
    assert_eq!(Id::deserialize("\"\\u0041\""), Ok(Id::Str("A".to_string())));
    assert_eq!(Id::deserialize("null"), Ok(Id::Null));
    assert_eq!(Id::deserialize(" null\n"), Ok(Id::Null));
    assert_eq!(Id::deserialize(" 1 "), Ok(Id::Num(1)));
    assert_eq!(Id::deserialize("nul"), Err(JsonError));
    assert_eq!(Id::deserialize("1.5"), Err(JsonError));
    assert_eq!(Id::deserialize("true"), Err(JsonError));
    assert_eq!(Id::deserialize("[1]"), Err(JsonError));
    assert_eq!(Id::deserialize("{}"), Err(JsonError));
    assert_eq!(Id::deserialize("9223372036854775808"), Err(JsonError));
}

#[test]
fn id_conversions() {
    assert_eq!(Id::from(3i64), Id::Num(3));
    assert_eq!(Id::from("s"), Id::Str("s".to_string()));
    assert_eq!(Id::from("s".to_string()), Id::Str("s".to_string()));
    assert_eq!(Id::default(), Id::Null);
}

#[test]
fn id_of_request_tells_null_from_missing() {
    assert_eq!(RequestObject::deserialize_id("null"), Ok(Some(None)));
    assert_eq!(RequestObject::deserialize_id(" null"), Ok(Some(None)));
    assert_eq!(RequestObject::deserialize_id("4"), Ok(Some(Some(Id::Num(4)))));
    assert_eq!(RequestObject::deserialize_id("{}"), Err(JsonError));
}

#[test]
fn request_builder() {
    let value = serde_json::from_str::<serde_json::Value>("[12,12]").unwrap();
    let req = RequestObject::request().with_id(1i64).with_method("sub").with_params(value).finish();
    assert_eq!(req.method_ref(), "sub");
    assert_eq!(req.id_ref(), Some(&Id::Num(1)));
    assert_eq!(req.reply_id(), Some(Id::Num(1)));
    assert_eq!(
        req.serialize(),
        "{\"jsonrpc\":\"2.0\",\"method\":\"sub\",\"params\":[12,12],\"id\":1}"
    );
}

#[test]
fn request_builder_without_id_has_the_id_null() {
    let req = RequestObject::request().with_method("m".to_string()).finish();
    assert_eq!(req.id_ref(), Some(&Id::Null));
    assert_eq!(req.reply_id(), Some(Id::Null));
    assert_eq!(
        req.serialize(),
        "{\"jsonrpc\":\"2.0\",\"method\":\"m\",\"params\":null,\"id\":null}"
    );
}

#[test]
fn request_builder_last_call_counts() {
    let req = RequestObject::request()
        .with_params(serde_json::Value::Bool(true))
        .with_id("a")
        .with_method("m")
        .with_id("b")
        .with_params(serde_json::Value::Bool(false))
        .finish();
    assert_eq!(
        req.serialize(),
        "{\"jsonrpc\":\"2.0\",\"method\":\"m\",\"params\":false,\"id\":\"b\"}"
    );
}

#[test]
fn notification_builder_has_no_id() {
    let req = RequestObject::notification()
        .with_params(serde_json::Value::Null)
        .with_method("note")
        .finish();
    assert_eq!(req.method_ref(), "note");
    assert_eq!(req.id_ref(), None);
    assert_eq!(req.reply_id(), None);
    assert_eq!(req.serialize(), "{\"jsonrpc\":\"2.0\",\"method\":\"note\",\"params\":null}");
}

#[test]
fn request_from_parts() {
    let id = |id| RequestObject::from_parts("m".to_string(), None, id);
    assert_eq!(id(None).reply_id(), None);
    assert_eq!(id(Some(None)).reply_id(), Some(Id::Null));
    assert_eq!(id(Some(None)).id_ref(), None);
    assert_eq!(id(Some(Some(Id::Num(1)))).id_ref(), Some(&Id::Num(1)));
}

#[test]
fn conversions_into_the_same_type() {
    let value = serde_json::Value::from("v");
    let req = RequestObject::request()
        .with_id(Id::Num(9))
        .with_method(String::from("m"))
        .with_params(value)
        .finish();
    assert_eq!(
        req.serialize(),
        "{\"jsonrpc\":\"2.0\",\"method\":\"m\",\"params\":\"v\",\"id\":9}"
    );
}

#[test]
fn default_request_object() {
    let req = RequestObject::default();
    assert_eq!(req.method_ref(), "");
    assert_eq!(req.id_ref(), None);
    assert!(req.params_ref().is_none());
}

#[test]
fn request_is_read_from_an_object() {
    let req = read(" { \"id\" : \"x\" , \"params\" : { \"a\" : [ 1 ] } , \"method\" : \"m\\u0031\" , \"jsonrpc\" : \"2.0\" } ");
    assert_eq!(req.method_ref(), "m1");
    assert_eq!(req.id_ref(), Some(&Id::from("x")));
    assert_eq!(raw_params(&req), Some("{ \"a\" : [ 1 ] }".to_string()));
}

#[test]
fn request_parts_may_be_missing() {
    let req = read("{}");
    assert_eq!(req.method_ref(), "");
    assert_eq!(req.id_ref(), None);
    assert_eq!(req.reply_id(), None);
    assert_eq!(raw_params(&req), None);
}

#[test]
fn null_params_are_no_params() {
    assert_eq!(raw_params(&read("{\"params\":null}")), None);
    assert_eq!(raw_params(&read("{\"params\":[null]}")), Some("[null]".to_string()));
}

#[test]
fn null_id_is_answered_with_null() {
    let req = read("{\"method\":\"m\",\"id\":null}");
    assert_eq!(req.id_ref(), None);
    assert_eq!(req.reply_id(), Some(Id::Null));
}

#[test]
fn unknown_members_are_skipped() {
    let req = read("{\"x\":{\"id\":3},\"method\":\"m\",\"x\":[],\"id\":3}");
    assert_eq!(req.method_ref(), "m");
    assert_eq!(req.reply_id(), Some(Id::Num(3)));
}

#[test]
fn member_names_may_be_escaped() {
    assert_eq!(read("{\"m\\u0065thod\":\"m\"}").method_ref(), "m");
}

#[test]
fn request_is_read_from_an_array() {
    let req = read("[\"2.0\", \"m\", [1, 2], 5]");
    assert_eq!(req.method_ref(), "m");
    assert_eq!(raw_params(&req), Some("[1, 2]".to_string()));
    assert_eq!(req.reply_id(), Some(Id::Num(5)));
    let req = read("[\"2.0\",\"m\"]");
    assert_eq!(req.reply_id(), None);
    assert_eq!(read("[]").method_ref(), "");
}

#[test]
fn requests_that_are_refused() {
    for text in vec![
        "",
        "null",
        "1",
        "\"m\"",
        "{",
        "{} {}",
        "{\"method\":\"m\"",
        "{\"method\":\"m\",}",
        "{\"method\" \"m\"}",
        "{method:\"m\"}",
        "{\"jsonrpc\":\"1.0\",\"method\":\"m\"}",
        "{\"jsonrpc\":null}",
        "{\"jsonrpc\":\"\\u0032.0\"}",
        "{\"method\":1}",
        "{\"method\":null}",
        "{\"id\":1.5}",
        "{\"id\":[]}",
        "{\"id\":1,\"id\":1}",
        "{\"method\":\"a\",\"method\":\"a\"}",
        "{\"params\":[],\"params\":[]}",
        "{\"jsonrpc\":\"2.0\",\"jsonrpc\":\"2.0\"}",
        "[\"2.0\",\"m\",[],1,1]",
        "[1]",
    ] {
        assert!(BytesRequestObject::deserialize(text).is_err(), "{}", text);
    }
}

#[test]
fn written_request_is_read_back() {
    let value = serde_json::from_str::<serde_json::Value>("{\"b\":[1,\"\\n\"],\"a\":null}").unwrap();
    let req = RequestObject::request()
        .with_method("a \"method\"\u{7}")
        .with_params(value)
        .with_id("id\\")
        .finish();
    let text = req.serialize();
    let back = read(&text);
    assert_eq!(back.method_ref(), "a \"method\"\u{7}");
    assert_eq!(back.id_ref(), Some(&Id::from("id\\")));
    assert_eq!(raw_params(&back), Some("{\"a\":null,\"b\":[1,\"\\n\"]}".to_string()));
    assert_eq!(back.serialize(), text);
}

#[test]
fn written_null_id_and_params_are_read_back() {
    let back = read(&RequestObject::request().with_method("m").finish().serialize());
    assert_eq!(back.id_ref(), None);
    assert_eq!(back.reply_id(), Some(Id::Null));
    assert_eq!(raw_params(&back), None);
    assert_eq!(
        back.serialize(),
        "{\"jsonrpc\":\"2.0\",\"method\":\"m\",\"params\":null,\"id\":null}"
    );
}

#[test]
fn one_or_many_raw_values() {
    match OneOrManyRawValues::try_from_slice(b"[1, {\"a\" : 2} ,[]]") {
        Ok(OneOrManyRawValues::Many(texts)) => assert_eq!(texts, vec!["1", "{\"a\" : 2}", "[]"]),
        _ => panic!("not an array"),
    }
    match OneOrManyRawValues::try_from_slice(b" {\"a\":1} ") {
        Ok(OneOrManyRawValues::One(text)) => assert_eq!(text, "{\"a\":1}"),
        _ => panic!("not a single value"),
    }
    // Only a bracket at the very start makes a batch.
    match OneOrManyRawValues::try_from_slice(b" [1]") {
        Ok(OneOrManyRawValues::One(text)) => assert_eq!(text, "[1]"),
        _ => panic!("not a single value"),
    }
    assert!(OneOrManyRawValues::try_from_slice(b"").is_err());
    assert!(OneOrManyRawValues::try_from_slice(b"[1,").is_err());
    assert!(OneOrManyRawValues::try_from_slice(b"{\"a\":1} x").is_err());
    assert!(OneOrManyRawValues::try_from_slice(b"\"\xff\"").is_err());
}

#[test]
fn request_kinds() {
    assert!(matches!(
        RequestKind::from(RequestObject::default()),
        RequestKind::RequestObject(_)
    ));
    match RequestKind::from(vec![RequestObject::default(), RequestObject::default()]) {
        RequestKind::ManyRequestObjects(reqs) => assert_eq!(reqs.len(), 2),
        _ => panic!("not several request objects"),
    }
    match RequestKind::from(&b"ab"[..]) {
        RequestKind::Bytes(bytes) => assert_eq!(bytes, vec![0x61u8, 0x62]),
        _ => panic!("not bytes"),
    }
    match RequestKind::from(bytes::Bytes::from_static(b"xyz")) {
        RequestKind::Bytes(bytes) => assert_eq!(bytes, vec![0x78u8, 0x79, 0x7a]),
        _ => panic!("not bytes"),
    }
    match RequestKind::from(vec![1u8, 2, 3]) {
        RequestKind::Bytes(bytes) => assert_eq!(bytes, vec![1u8, 2, 3]),
        _ => panic!("not bytes"),
    }
}

#[test]
fn method_is_a_string() {
    let req = RequestObject::request().with_method("name").finish();
    let req = jsonrpc_v2::RequestObjectWithData::new(req, None, None);
    let method = Method::from_request::<String>(&req).unwrap();
    assert_eq!(method.as_str(), "name");
    assert_eq!(String::from(method), "name");
}

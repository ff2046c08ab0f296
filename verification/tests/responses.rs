use jsonrpc_v2::response::{ManyResponseObjects, SingleResponseObject};
use jsonrpc_v2::{
    Error, ErrorData, ErrorLike, HttpReply, Id, JsonText, ResponseObject, ResponseObjects,
};

fn json(text: &str) -> JsonText {
    JsonText(text.to_string())
}

#[test]
fn provided_errors() {
    let provided = |code, message| Error::<u8>::Provided { code, message };
    assert_eq!(Error::<u8>::invalid_request(), provided(-32600, "Invalid Request"));
    assert_eq!(Error::<u8>::method_not_found(), provided(-32601, "Method not found"));
    assert_eq!(Error::<u8>::invalid_params(), provided(-32602, "Invalid params"));
    assert_eq!(Error::<u8>::internal_error(), provided(-32603, "Internal Error"));
    assert_eq!(Error::<u8>::parse_error(), provided(-32700, "Parse error"));
}

#[test]
fn internal_error_shows_what_went_wrong() {
    assert_eq!(
        Error::<u8>::internal(42),
        Error::Full {
            code: -32603,
            message: "Internal Error".to_string(),
            data: Some(ErrorData::Text("42".to_string())),
        }
    );
}

struct Plain;

impl std::fmt::Display for Plain {
    fn fmt(&self, f: &mut std::fmt::Formatter<'_>) -> std::fmt::Result {
        f.write_str("plain words")
    }
}

impl ErrorLike for Plain {
    type Data = u8;
}

struct Detailed;

impl std::fmt::Display for Detailed {
    fn fmt(&self, f: &mut std::fmt::Formatter<'_>) -> std::fmt::Result {
        f.write_str("not shown")
    }
}

impl ErrorLike for Detailed {
    type Data = u8;

    fn code(&self) -> i64 {
        -7
    }

    fn message(&self) -> String {
        "detailed".to_string()
    }

    fn data(&self) -> Option<u8> {
        Some(9)
    }
}

#[test]
fn error_like_defaults() {
    assert_eq!(
        Error::from(Plain),
        Error::Full { code: 0, message: "plain words".to_string(), data: None }
    );
}

#[test]
fn error_like_own_values() {
    assert_eq!(
        Error::from(Detailed),
        Error::Full {
            code: -7,
            message: "detailed".to_string(),
            data: Some(ErrorData::Custom(9)),
        }
    );
}

#[test]
fn error_texts() {
    assert_eq!(
        Error::<JsonText>::parse_error().serialize(),
        "{\"code\":-32700,\"message\":\"Parse error\"}"
    );
    assert_eq!(
        Error::<JsonText>::internal("a\tb").serialize(),
        "{\"code\":-32603,\"message\":\"Internal Error\",\"data\":\"a\\tb\"}"
    );
    let custom = Error::Full {
        code: 1,
        message: "m".to_string(),
        data: Some(ErrorData::Custom(json("[1]"))),
    };
    assert_eq!(custom.serialize(), "{\"code\":1,\"message\":\"m\",\"data\":[1]}");
    let bare: Error<JsonText> = Error::Full { code: 1, message: "m".to_string(), data: None };
    assert_eq!(bare.serialize(), "{\"code\":1,\"message\":\"m\"}");
}

#[test]
fn response_texts() {
    let result = ResponseObject::result(json("{\"a\":1}"), Id::Num(3));
    assert_eq!(result.serialize(), "{\"jsonrpc\":\"2.0\",\"result\":{\"a\":1},\"id\":3}");
    let error = ResponseObject::<JsonText>::error(Error::invalid_request(), Id::Null);
    assert_eq!(
        error.serialize(),
        "{\"jsonrpc\":\"2.0\",\"error\":{\"code\":-32600,\"message\":\"Invalid Request\"},\"id\":null}"
    );
    assert_eq!(
        ResponseObjects::Many(vec![result, error]).serialize(),
        "[{\"jsonrpc\":\"2.0\",\"result\":{\"a\":1},\"id\":3},\
         {\"jsonrpc\":\"2.0\",\"error\":{\"code\":-32600,\"message\":\"Invalid Request\"},\"id\":null}]"
    );
    assert_eq!(ResponseObjects::<JsonText>::Many(vec![]).serialize(), "[]");
    assert_eq!(ResponseObjects::<JsonText>::Empty.serialize(), "null");
}

#[test]
fn written_response_is_json() {
    let error = Error::Full {
        code: 5,
        message: "quote \" and line\n".to_string(),
        data: Some(ErrorData::Custom(json("{\"deep\":[{}]}"))),
    };
    let text = ResponseObjects::One(ResponseObject::error(error, Id::from("\u{0}"))).serialize();
    let value = serde_json::from_str::<serde_json::Value>(&text).unwrap();
    assert_eq!(value["jsonrpc"], serde_json::Value::from("2.0"));
    assert_eq!(value["error"]["message"], serde_json::Value::from("quote \" and line\n"));
    assert_eq!(value["error"]["data"]["deep"][0], serde_json::Value::Object(Default::default()));
    assert_eq!(value["id"], serde_json::Value::from("\u{0}"));
}

#[test]
fn single_responses() {
    assert_eq!(
        SingleResponseObject::from_outcome(Ok(5u8), Some(Id::Num(1))),
        SingleResponseObject::One(ResponseObject::result(5, Id::Num(1)))
    );
    assert_eq!(
        SingleResponseObject::<u8>::from_outcome(Err(Error::invalid_params()), Some(Id::Null)),
        SingleResponseObject::One(ResponseObject::error(Error::invalid_params(), Id::Null))
    );
    assert_eq!(SingleResponseObject::from_outcome(Ok(5u8), None), SingleResponseObject::Empty);
    assert_eq!(
        SingleResponseObject::<u8>::from_outcome(Err(Error::invalid_params()), None),
        SingleResponseObject::Empty
    );
}

#[test]
fn single_response_becomes_whole_response() {
    let one = ResponseObject::result(1u8, Id::Null);
    assert_eq!(
        ResponseObjects::from(SingleResponseObject::One(one)),
        ResponseObjects::One(ResponseObject::result(1u8, Id::Null))
    );
    assert_eq!(
        ResponseObjects::<u8>::from(SingleResponseObject::Empty),
        ResponseObjects::Empty
    );
}

#[test]
fn several_responses_leave_out_what_is_empty() {
    let singles = vec![
        SingleResponseObject::Empty,
        SingleResponseObject::result(1u8, Some(Id::Num(1))),
        SingleResponseObject::Empty,
        SingleResponseObject::result(2u8, Some(Id::Num(2))),
    ];
    assert_eq!(
        ManyResponseObjects::collect(singles),
        ManyResponseObjects::Many(vec![
            ResponseObject::result(1, Id::Num(1)),
            ResponseObject::result(2, Id::Num(2)),
        ])
    );
    assert_eq!(
        ManyResponseObjects::<u8>::collect(vec![SingleResponseObject::Empty]),
        ManyResponseObjects::Empty
    );
    assert_eq!(ManyResponseObjects::<u8>::collect(vec![]), ManyResponseObjects::Empty);
}

#[test]
fn errors_follow_the_answers() {
    let answer = || ResponseObject::result(1u8, Id::Num(1));
    let err = || ResponseObject::error(Error::invalid_request(), Id::Null);
    assert_eq!(
        ManyResponseObjects::Many(vec![answer()]).with_errors(vec![err()]),
        ResponseObjects::Many(vec![answer(), err()])
    );
    assert_eq!(
        ManyResponseObjects::Empty.with_errors(vec![err()]),
        ResponseObjects::Many(vec![err()])
    );
    assert_eq!(ManyResponseObjects::<u8>::Empty.with_errors(vec![]), ResponseObjects::Empty);
    assert_eq!(
        ResponseObjects::from(ManyResponseObjects::Many(vec![answer()])),
        ResponseObjects::Many(vec![answer()])
    );
    assert_eq!(
        ResponseObjects::from(ManyResponseObjects::<u8>::Empty),
        ResponseObjects::Empty
    );
}

#[test]
fn payloads_are_converted() {
    let convert = |n: u8| if n < 9 { Ok(json(&n.to_string())) } else { Err(n) };
    let full = |data| Error::Full { code: 1, message: "m".to_string(), data };
    let responses = ResponseObjects::Many(vec![
        ResponseObject::result(1, Id::Num(1)),
        ResponseObject::error(full(Some(ErrorData::Custom(2))), Id::Num(2)),
        ResponseObject::error(full(Some(ErrorData::Text("t".to_string()))), Id::Num(3)),
        ResponseObject::error(Error::parse_error(), Id::Num(4)),
    ]);
    assert_eq!(
        responses.try_map(&convert).unwrap().serialize(),
        "[{\"jsonrpc\":\"2.0\",\"result\":1,\"id\":1},\
         {\"jsonrpc\":\"2.0\",\"error\":{\"code\":1,\"message\":\"m\",\"data\":2},\"id\":2},\
         {\"jsonrpc\":\"2.0\",\"error\":{\"code\":1,\"message\":\"m\",\"data\":\"t\"},\"id\":3},\
         {\"jsonrpc\":\"2.0\",\"error\":{\"code\":-32700,\"message\":\"Parse error\"},\"id\":4}]"
    );
    let failing = ResponseObjects::Many(vec![
        ResponseObject::result(1, Id::Null),
        ResponseObject::result(9, Id::Null),
    ]);
    assert_eq!(failing.try_map(&convert), Err(9));
    let failing_twice = ResponseObjects::Many(vec![
        ResponseObject::result(1, Id::Null),
        ResponseObject::result(10, Id::Null),
        ResponseObject::result(9, Id::Null),
    ]);
    assert_eq!(failing_twice.try_map(&convert), Err(10));
    let one = ResponseObjects::One(ResponseObject::result(3, Id::Null));
    assert_eq!(
        one.try_map(&convert),
        Ok(ResponseObjects::One(ResponseObject::result(json("3"), Id::Null)))
    );
    assert_eq!(ResponseObjects::Empty.try_map(&convert), Ok(ResponseObjects::Empty));
}

#[test]
fn http_replies() {
    let none = HttpReply::new(&ResponseObjects::Empty);
    assert_eq!((none.status, none.content_type, none.body.as_str()), (204, None, ""));
    let one = ResponseObjects::One(ResponseObject::result(json("1"), Id::Num(1)));
    let some = HttpReply::new(&one);
    assert_eq!(some.status, 200);
    assert_eq!(some.content_type, Some("application/json"));
    assert_eq!(some.body, "{\"jsonrpc\":\"2.0\",\"result\":1,\"id\":1}");
}

use jsonrpc_v2::response::{ManyResponseObjects, SingleResponseObject};
use jsonrpc_v2::{
    Call, Data, Dispatch, Error, ErrorLike, Handler, HandlerStep, Id, MapRouter, Method, RequestKind,
    RequestObject, RequestObjectWithData, ResponseObject, ResponseObjects, Router, Server,
    ServerBuilder, Step,
};

type Outcome = Result<String, Error<String>>;
type Fun = fn(RequestObjectWithData) -> Outcome;

fn method(req: RequestObjectWithData) -> Outcome {
    Ok(Method::from_request::<String>(&req)?.as_str().to_string())
}

fn message(req: RequestObjectWithData) -> Outcome {
    Ok(String::from(&**Data::<String>::from_request::<String>(&req, "String")?))
}

fn fail(_: RequestObjectWithData) -> Outcome {
    Err(Error::invalid_params())
}

fn server() -> Server<MapRouter<Fun>, u8> {
    let builder: ServerBuilder<MapRouter<Fun>, u8> = Server::new();
    builder
        .with_data(Data::new(String::from("Hello!")))
        .with_method("method", method as Fun)
        .with_method("message", message as Fun)
        .with_method("fail", fail as Fun)
        .finish_unwrapped()
}

fn run(dispatch: Dispatch<'_, Fun, String>) -> SingleResponseObject<String> {
    match dispatch {
        Dispatch::Call(call) => {
            let (handler, req, opt_id) = call.start(None);
            SingleResponseObject::from_outcome(handler(req), opt_id)
        }
        Dispatch::Reply(reply) => reply,
    }
}

fn respond(server: &Server<MapRouter<Fun>, u8>, req: RequestKind) -> ResponseObjects<String> {
    match server.handle(req) {
        Step::Done(responses) => responses,
        Step::One(dispatch) => ResponseObjects::from(run(dispatch)),
        Step::Many { dispatches, errs } => {
            let singles = dispatches.into_iter().map(run).collect();
            ManyResponseObjects::collect(singles).with_errors(errs)
        }
    }
}

fn respond_to(text: &str) -> ResponseObjects<String> {
    respond(&server(), RequestKind::from(text.as_bytes()))
}

fn result(text: &str, id: Id) -> ResponseObject<String> {
    ResponseObject::result(text.to_string(), id)
}

fn invalid() -> ResponseObject<String> {
    ResponseObject::error(Error::invalid_request(), Id::Null)
}

#[test]
fn router_finds_what_was_inserted() {
    let mut router: MapRouter<u8> = MapRouter::default();
    assert_eq!(router.get("a"), None);
    assert_eq!(router.insert("a".to_string(), 1), None);
    assert_eq!(router.insert("b".to_string(), 2), None);
    assert_eq!(router.get("a"), Some(&1));
    assert_eq!(router.insert("a".to_string(), 3), Some(1));
    assert_eq!(router.insert("c".to_string(), 4), None);
    assert_eq!(router.get("a"), Some(&3));
    assert_eq!(router.get("b"), Some(&2));
    assert_eq!(router.get("c"), Some(&4));
    assert_eq!(router.get(""), None);
}

#[test]
fn request_is_answered_by_its_handler() {
    assert_eq!(
        respond_to("{\"jsonrpc\":\"2.0\",\"method\":\"method\",\"id\":1}"),
        ResponseObjects::One(result("method", Id::Num(1)))
    );
    assert_eq!(
        respond_to("{\"jsonrpc\":\"2.0\",\"method\":\"fail\",\"id\":\"x\"}"),
        ResponseObjects::One(ResponseObject::error(Error::invalid_params(), Id::from("x")))
    );
}

#[test]
fn handler_finds_the_data_of_the_server() {
    assert_eq!(
        respond_to("{\"method\":\"message\",\"id\":2}"),
        ResponseObjects::One(result("Hello!", Id::Num(2)))
    );
}

#[test]
fn absent_version_and_method_have_defaults() {
    assert_eq!(
        respond_to("{\"method\":\"method\",\"id\":1}"),
        respond_to("{\"method\":\"method\",\"jsonrpc\":\"2.0\",\"id\":1}")
    );
    assert_eq!(respond_to("{\"id\":1}"), respond_to("{\"method\":\"\",\"id\":1}"));
}

#[test]
fn null_id_is_an_id() {
    assert_eq!(
        respond_to("{\"method\":\"method\",\"id\":null}"),
        ResponseObjects::One(result("method", Id::Null))
    );
}

#[test]
fn unknown_method_is_not_found() {
    assert_eq!(
        respond_to("{\"method\":\"message-test\",\"params\":[12,1],\"id\":3}"),
        ResponseObjects::One(ResponseObject::error(Error::method_not_found(), Id::Num(3)))
    );
    assert_eq!(
        respond_to("{\"id\":3}"),
        ResponseObjects::One(ResponseObject::error(Error::method_not_found(), Id::Num(3)))
    );
}

#[test]
fn notifications_are_not_answered() {
    assert_eq!(respond_to("{\"method\":\"method\"}"), ResponseObjects::Empty);
    assert_eq!(respond_to("{\"method\":\"fail\"}"), ResponseObjects::Empty);
    assert_eq!(respond_to("{\"method\":\"unknown\"}"), ResponseObjects::Empty);
}

#[test]
fn malformed_bytes_are_a_parse_error() {
    let parse_error =
        || ResponseObjects::One(ResponseObject::error(Error::parse_error(), Id::Null));
    assert_eq!(respond_to(""), parse_error());
    assert_eq!(respond_to("{\"method\":\"method\",\"id\":1"), parse_error());
    assert_eq!(respond_to("[{\"method\":\"method\",\"id\":1},"), parse_error());
    assert_eq!(
        respond(&server(), RequestKind::from(vec![0x22u8, 0xff, 0x22])),
        parse_error()
    );
}

#[test]
fn empty_batch_is_an_invalid_request() {
    assert_eq!(respond_to("[]"), ResponseObjects::One(invalid()));
    assert_eq!(respond_to("[ ]"), ResponseObjects::One(invalid()));
}

#[test]
fn value_that_is_no_request_is_invalid() {
    assert_eq!(respond_to("1"), ResponseObjects::One(invalid()));
    assert_eq!(
        respond_to("{\"jsonrpc\":\"1.0\",\"method\":\"method\",\"id\":1}"),
        ResponseObjects::One(invalid())
    );
}

#[test]
fn batch_answers_come_before_errors() {
    assert_eq!(
        respond_to(
            "[1,{\"method\":\"method\",\"id\":1},{\"method\":\"method\"},\
             {\"method\":1},{\"method\":\"unknown\",\"id\":\"u\"}]"
        ),
        ResponseObjects::Many(vec![
            result("method", Id::Num(1)),
            ResponseObject::error(Error::method_not_found(), Id::from("u")),
            invalid(),
            invalid(),
        ])
    );
}

#[test]
fn batch_of_one_is_answered_with_a_list() {
    assert_eq!(
        respond_to("[{\"method\":\"method\",\"id\":1}]"),
        ResponseObjects::Many(vec![result("method", Id::Num(1))])
    );
    assert_eq!(respond_to("[1]"), ResponseObjects::Many(vec![invalid()]));
}

#[test]
fn batch_of_notifications_is_not_answered() {
    assert_eq!(
        respond_to("[{\"method\":\"method\"},{\"method\":\"unknown\"}]"),
        ResponseObjects::Empty
    );
}

#[test]
fn request_objects_are_handled_directly() {
    let req = RequestObject::request().with_method("method").with_id(7i64).finish();
    assert_eq!(
        respond(&server(), RequestKind::from(req)),
        ResponseObjects::One(result("method", Id::Num(7)))
    );
    let note = RequestObject::notification().with_method("method").finish();
    assert_eq!(respond(&server(), RequestKind::from(note)), ResponseObjects::Empty);
}

#[test]
fn several_request_objects_are_handled_directly() {
    let reqs = vec![
        RequestObject::request().with_method("fail").with_id(1i64).finish(),
        RequestObject::notification().with_method("method").finish(),
        RequestObject::request().with_method("method").finish(),
    ];
    assert_eq!(
        respond(&server(), RequestKind::from(reqs)),
        ResponseObjects::Many(vec![
            ResponseObject::error(Error::invalid_params(), Id::Num(1)),
            result("method", Id::Null),
        ])
    );
    assert_eq!(
        respond(&server(), RequestKind::from(Vec::<RequestObject>::new())),
        ResponseObjects::Empty
    );
}

#[test]
fn written_request_is_answered_like_the_request_itself() {
    let build = || RequestObject::request().with_method("method").with_id("w").finish();
    let bytes = build().serialize().into_bytes();
    assert_eq!(
        respond(&server(), RequestKind::from(bytes)),
        respond(&server(), RequestKind::from(build()))
    );
}

#[test]
fn order_of_completion_only_changes_the_order() {
    let server = server();
    let step: Step<'_, Fun, String> = server
        .handle_bytes(b"[{\"method\":\"method\",\"id\":1},{\"method\":\"message\",\"id\":2},3]");
    match step {
        Step::Many { dispatches, errs } => {
            let singles = dispatches.into_iter().rev().map(run).collect();
            assert_eq!(
                ManyResponseObjects::collect(singles).with_errors(errs),
                ResponseObjects::Many(vec![
                    result("Hello!", Id::Num(2)),
                    result("method", Id::Num(1)),
                    invalid(),
                ])
            );
        }
        _ => panic!("not a batch"),
    }
}

#[test]
fn last_handler_for_a_method_counts() {
    let builder: ServerBuilder<MapRouter<u8>, u8> = Server::new();
    let server = builder
        .with_method("m", 1)
        .with_method("n", 2)
        .with_method(String::from("m"), 3)
        .finish();
    let handler = |name: &str| {
        let req = RequestObject::request().with_method(name).finish();
        let dispatch: Dispatch<'_, u8, u8> = server.handle_request_object(req);
        match dispatch {
            Dispatch::Call(call) => *Call::start(call, None).0,
            Dispatch::Reply(_) => 0,
        }
    };
    assert_eq!(handler("m"), 3);
    assert_eq!(handler("n"), 2);
    assert_eq!(handler("o"), 0);
}

#[test]
fn later_data_take_the_place_of_earlier_ones() {
    let builder: ServerBuilder<MapRouter<Fun>, u8> = Server::new();
    let server = builder
        .with_data(Data::new(String::from("first")))
        .with_data(Data::new(5u8))
        .with_data(Data::new(String::from("second")))
        .with_method("message", message as Fun)
        .finish_unwrapped();
    let req = RequestObject::request().with_method("message").finish();
    assert_eq!(
        respond(&server, RequestKind::from(req)),
        ResponseObjects::One(result("second", Id::Null))
    );
}

#[test]
fn missing_data_are_an_internal_error() {
    let builder: ServerBuilder<MapRouter<Fun>, u8> = Server::with_router(MapRouter::default());
    let server = builder.with_method("message", message as Fun).finish_unwrapped();
    let req = RequestObject::request().with_method("message").finish();
    assert_eq!(
        respond(&server, RequestKind::from(req)),
        ResponseObjects::One(ResponseObject::error(
            Error::internal_text("Missing data for: `String`".to_string()),
            Id::Null
        ))
    );
}

#[test]
fn extraction_functions_need_an_http_request() {
    let builder: ServerBuilder<MapRouter<Fun>, u8> = Server::new();
    let server = builder
        .with_extract_from_http_request_fn(1)
        .with_extract_from_http_request_fn(2)
        .finish_unwrapped();
    assert_eq!(server.extract_fns_for(true), Some(&vec![1u8, 2]));
    assert_eq!(server.extract_fns_for(false), None);
    let builder: ServerBuilder<MapRouter<Fun>, u8> = Server::new();
    assert_eq!(builder.finish_unwrapped().extract_fns_for(true), None);
}

struct Refused;

impl std::fmt::Display for Refused {
    fn fmt(&self, f: &mut std::fmt::Formatter<'_>) -> std::fmt::Result {
        f.write_str("refused")
    }
}

impl ErrorLike for Refused {
    type Data = u8;
}

#[test]
fn handler_runs_only_on_its_arguments() {
    let handler = Handler::new(5u8);
    assert_eq!(*handler.hnd(), 5);
    assert!(matches!(
        Handler::<u8>::after_extraction::<u8, u8>(Ok(1)),
        HandlerStep::Call(1)
    ));
    assert!(matches!(
        Handler::<u8>::after_extraction::<u8, u8>(Err(Error::invalid_params())),
        HandlerStep::Fail(Error::Provided { code: -32602, .. })
    ));
    assert_eq!(Handler::<u8>::after_call::<u8, Refused, u8>(Ok(1)), Ok(1));
    assert_eq!(
        Handler::<u8>::after_call::<u8, Refused, u8>(Err(Refused)),
        Err(Error::Full { code: 0, message: "refused".to_string(), data: None })
    );
    assert_eq!(
        Handler::<u8>::after_call::<u8, Error<u8>, u8>(Err(Error::internal_error())),
        Err(Error::internal_error())
    );
}

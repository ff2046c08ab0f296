use jsonrpc_v2::data::{
    are_apart, collect_local_data, join1, join2, join3, join4, join5, local_data_pair, optional,
};
use jsonrpc_v2::{
    BytesRequestObject, Data, Error, ErrorData, HttpRequestLocalData, Id, JsonError, Params,
    ParamsSource, RequestObject, RequestObjectWithData,
};
use std::sync::Arc;
use type_map::concurrent::TypeMap;

fn internal(text: &str) -> Error<u8> {
    Error::Full {
        code: -32603,
        message: "Internal Error".to_string(),
        data: Some(ErrorData::Text(text.to_string())),
    }
}

fn with_data(map: TypeMap) -> RequestObjectWithData {
    RequestObjectWithData::new(RequestObject::default(), Some(Arc::new(map)), None)
}

#[test]
fn data_dereferences_to_its_value() {
    let data = Data::new(String::from("Hello!"));
    assert_eq!(&*data, "Hello!");
    assert_eq!(*data.0, "Hello!");
    let local = HttpRequestLocalData(Arc::new(7u32));
    assert_eq!(*local, 7);
}

#[test]
fn data_is_found_by_its_type() {
    let mut map = TypeMap::new();
    map.insert(Data::new(String::from("Hello!")));
    map.insert(Data::new(7u32));
    map.insert(8u64);
    let req = with_data(map);
    let text = Data::<String>::from_request::<u8>(&req, "String").ok().unwrap();
    assert_eq!(*text, "Hello!");
    let number = Data::<u32>::from_request::<u8>(&req, "u32").ok().unwrap();
    assert_eq!(*number, 7);
    // A bare value is not a container.
    assert_eq!(
        Data::<u64>::from_request(&req, "u64").err(),
        Some(internal("Missing data for: `u64`"))
    );
    let bare = RequestObjectWithData::new(RequestObject::default(), None, None);
    assert_eq!(
        Data::<String>::from_request(&bare, "alloc::string::String").err(),
        Some(internal("Missing data for: `alloc::string::String`"))
    );
}

#[test]
fn types_are_told_apart() {
    assert!(are_apart::<Data<u8>, Data<u16>>());
    assert!(are_apart::<u8, Arc<u8>>());
    assert!(!are_apart::<Data<u8>, Data<u8>>());
}

#[test]
fn looked_up_data_is_shared() {
    let data = Data::new(1u8);
    let found = Data::from_lookup::<u8>(Some(&data), "u8").ok().unwrap();
    assert!(Arc::ptr_eq(&found.0, &data.0));
    assert_eq!(
        Data::<u8>::from_lookup(None, "u8").err(),
        Some(internal("Missing data for: `u8`"))
    );
    let arc = Arc::new(2u8);
    let found = HttpRequestLocalData::from_lookup::<u8>(Some(&arc), "u8").ok().unwrap();
    assert!(Arc::ptr_eq(&found.0, &arc));
}

#[test]
fn local_data_is_found_by_its_type() {
    let pairs = vec![
        local_data_pair(1u32),
        local_data_pair(String::from("first")),
        local_data_pair(String::from("last")),
    ];
    let local = collect_local_data::<u8>(Ok(pairs));
    let req = RequestObjectWithData::new(RequestObject::default(), None, local);
    let text = HttpRequestLocalData::<String>::from_request::<u8>(&req, "String").ok().unwrap();
    assert_eq!(*text, "last");
    let number = HttpRequestLocalData::<u32>::from_request::<u8>(&req, "u32").ok().unwrap();
    assert_eq!(*number, 1);
    assert_eq!(
        HttpRequestLocalData::<u64>::from_request(&req, "u64").err(),
        Some(internal("Missing data for: `u64`"))
    );
    // The data of the server are not looked at.
    assert_eq!(
        Data::<u32>::from_request(&req, "u32").err(),
        Some(internal("Missing data for: `u32`"))
    );
}

#[test]
fn failed_extraction_leaves_no_local_data() {
    assert!(collect_local_data::<u8>(Err(Error::internal_error())).is_none());
    assert!(collect_local_data::<u8>(Ok(vec![])).is_some());
    let req = RequestObjectWithData::new(
        RequestObject::default(),
        None,
        collect_local_data::<u8>(Err(Error::internal_error())),
    );
    assert_eq!(
        HttpRequestLocalData::<u64>::from_request(&req, "u64").err(),
        Some(internal("Missing data for: `u64`"))
    );
}

#[test]
fn params_are_read_from_text_value_or_null() {
    let read = BytesRequestObject::deserialize("{\"params\":[1, 2]}").ok().unwrap();
    match Params::<u8>::source(&RequestObject::from(read)) {
        ParamsSource::Text(text) => assert_eq!(text, "[1, 2]"),
        _ => panic!("not a text"),
    }
    let value = serde_json::Value::from("v");
    let built = RequestObject::request().with_params(value.clone()).with_method("m").finish();
    match Params::<u8>::source(&built) {
        ParamsSource::Value(found) => assert_eq!(*found, value),
        _ => panic!("not a value"),
    }
    assert!(matches!(Params::<u8>::source(&RequestObject::default()), ParamsSource::Null));
    let null = serde_json::Value::Null;
    let built = RequestObject::request().with_params(null).with_method("m").finish();
    assert!(matches!(Params::<u8>::source(&built), ParamsSource::Null));
}

#[test]
fn params_are_read_as_a_value() {
    let found = |text: &str| {
        let req = RequestObject::from(BytesRequestObject::deserialize(text).ok().unwrap());
        Params::from_request_object::<u8>(&req).map(|params| params.0)
    };
    let value = serde_json::from_str::<serde_json::Value>("{\"a\":[1]}").unwrap();
    assert_eq!(found("{\"params\":{ \"a\" : [1] }}"), Ok(Some(value.clone())));
    assert_eq!(found("{\"params\":null}"), Ok(None));
    assert_eq!(found("{}"), Ok(None));
    // The text of a number need not be a number that can be held.
    assert_eq!(found("{\"params\":1e999}"), Err(Error::invalid_params()));
    let built = |value| {
        let req = RequestObject::request().with_params(value).with_method("m").finish();
        Params::from_request_object::<u8>(&req).map(|params| params.0)
    };
    assert_eq!(built(value.clone()), Ok(Some(value)));
    assert_eq!(built(serde_json::Value::Null), Ok(None));
}

#[test]
fn unreadable_params_are_invalid() {
    assert_eq!(Params::from_result::<u8>(Ok(5u8)).ok().map(|params| params.0), Some(5));
    assert_eq!(
        Params::<u8>::from_result::<u8>(Err(JsonError)).err(),
        Some(Error::invalid_params())
    );
}

#[test]
fn id_is_taken_from_the_request() {
    let with_id = RequestObject::request().with_id(5i64).with_method("m").finish();
    let req = RequestObjectWithData::new(with_id, None, None);
    assert_eq!(Id::from_request::<u8>(&req), Ok(Id::Num(5)));
    let built_null = RequestObject::request().with_method("m").finish();
    let req = RequestObjectWithData::new(built_null, None, None);
    assert_eq!(Id::from_request::<u8>(&req), Ok(Id::Null));
    let note = RequestObject::notification().with_method("m").finish();
    let req = RequestObjectWithData::new(note, None, None);
    assert_eq!(Id::from_request(&req), Err(internal("No `id` provided")));
    let read_null = BytesRequestObject::deserialize("{\"id\":null}").ok().unwrap();
    let req = RequestObjectWithData::new(RequestObject::from(read_null), None, None);
    assert_eq!(Id::from_request(&req), Err(internal("No `id` provided")));
}

#[test]
fn request_object_is_kept() {
    let note = RequestObject::notification().with_method("m").finish();
    let req = RequestObjectWithData::new(note, None, None);
    assert_eq!(req.request_object().method_ref(), "m");
}

#[test]
fn optional_extraction_does_not_fail() {
    assert_eq!(optional::<u8, u8>(Ok(1)), Ok(Some(1)));
    assert_eq!(optional::<u8, u8>(Err(1)), Ok(None));
}

#[test]
fn joined_extractions() {
    assert_eq!(join1::<u8, u8>(Ok(1)), Ok((1,)));
    assert_eq!(join1::<u8, u8>(Err(1)), Err(1));
    assert_eq!(join2::<u8, bool, u8>(Ok(1), Ok(true)), Ok((1, true)));
    assert_eq!(join3::<u8, bool, u16, u8>(Ok(1), Ok(true), Ok(2)), Ok((1, true, 2)));
    assert_eq!(join4::<u8, u8, u8, u8, u8>(Ok(1), Ok(2), Ok(3), Ok(4)), Ok((1, 2, 3, 4)));
    assert_eq!(
        join5::<u8, u8, u8, u8, u8, u8>(Ok(1), Ok(2), Ok(3), Ok(4), Ok(5)),
        Ok((1, 2, 3, 4, 5))
    );
}

#[test]
fn first_failed_extraction_counts() {
    assert_eq!(join2::<u8, u8, u8>(Err(1), Err(2)), Err(1));
    assert_eq!(join2::<u8, u8, u8>(Ok(0), Err(2)), Err(2));
    assert_eq!(join3::<u8, u8, u8, u8>(Ok(0), Err(2), Err(3)), Err(2));
    assert_eq!(join4::<u8, u8, u8, u8, u8>(Ok(0), Ok(0), Err(3), Err(4)), Err(3));
    assert_eq!(join5::<u8, u8, u8, u8, u8, u8>(Ok(0), Ok(0), Ok(0), Ok(0), Err(5)), Err(5));
    assert_eq!(join5::<u8, u8, u8, u8, u8, u8>(Err(1), Err(2), Err(3), Err(4), Err(5)), Err(1));
}

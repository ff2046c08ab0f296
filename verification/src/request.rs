//! Request objects, and the builders for them.

use crate::id::{id_text, Id, IdView, V2};
use crate::json::{
    is_object_bytes, is_value_text, json_value_text, quoted, write_null, write_string, write_value,
};
use crate::object::{
    after_mark, drop_space, lemma_object_start, object_text, write_object, written, Member,
};
use crate::response::opt_id_view;
use crate::wire::{
    request_id_view, request_of_text, values_of, BytesRequestObject, BytesRequestView,
};
use vstd::prelude::*;
use vstd::slice::slice_to_vec;
use vstd::utf8::encode_utf8;

verus! {

/// The params of a request object: a JSON value, or the text of one that has not been read yet.
#[derive(Debug)]
pub enum InnerParams {
    Value(serde_json::Value),
    Raw(String),
}

/// What the params of a request object hold.
pub enum ParamsView {
    Value(serde_json::Value),
    Raw(Seq<char>),
}

impl View for InnerParams {
    type V = ParamsView;

    open spec fn view(&self) -> ParamsView {
        match *self {
            InnerParams::Value(value) => ParamsView::Value(value),
            InnerParams::Raw(text) => ParamsView::Raw(text@),
        }
    }
}

/// Request/Notification object
#[derive(Debug)]
pub struct RequestObject {
    jsonrpc: V2,
    method: String,
    params: Option<InnerParams>,
    id: Option<Option<Id>>,
}

/// What a request object holds. The id is `None` without an id, `Some(None)` with the id null.
pub struct RequestView {
    pub method: Seq<char>,
    pub params: Option<ParamsView>,
    pub id: Option<Option<IdView>>,
}

/// What the optional params of a request object hold.
pub open spec fn params_view(params: Option<InnerParams>) -> Option<ParamsView> {
    match params {
        Some(params) => Some(params@),
        None => None,
    }
}

impl View for RequestObject {
    type V = RequestView;

    closed spec fn view(&self) -> RequestView {
        RequestView {
            method: self.method@,
            params: params_view(self.params),
            id: request_id_view(self.id),
        }
    }
}

/// The request object that is the same, with the params left as a text.
pub open spec fn from_bytes_view(req: BytesRequestView) -> RequestView {
    RequestView {
        method: req.method,
        params: match req.params {
            Some(text) => Some(ParamsView::Raw(text)),
            None => None,
        },
        id: req.id,
    }
}

/// The id that the answer to a request goes back with, given the id of the request. Without an id
/// there is no answer.
pub open spec fn reply_id(id: Option<Option<IdView>>) -> Option<IdView> {
    match id {
        Some(Some(id)) => Some(id),
        Some(None) => Some(IdView::Null),
        None => None,
    }
}

/// What several request objects hold.
pub open spec fn request_views(reqs: Seq<RequestObject>) -> Seq<RequestView> {
    reqs.map_values(|req: RequestObject| req@)
}

impl RequestObject {
    /// Params that are a text are the text of a JSON value.
    #[verifier::type_invariant]
    closed spec fn inv(self) -> bool {
        self.params matches Some(InnerParams::Raw(text)) ==> is_value_text(text@)
    }

    /// The request object with the given method, params and id.
    pub fn from_parts(
        method: String,
        params: Option<serde_json::Value>,
        id: Option<Option<Id>>,
    ) -> (res: RequestObject)
        ensures
            res@ == (RequestView {
                method: method@,
                params: built_params(params),
                id: request_id_view(id),
            }),
    {
        let params = match params {
            Some(value) => Some(InnerParams::Value(value)),
            None => None,
        };
        RequestObject { jsonrpc: V2, method, params, id }
    }

    pub fn method_ref(&self) -> (res: &str)
        ensures
            res@ == self@.method,
    {
        self.method.as_str()
    }

    /// The id, where there is one that is not null.
    pub fn id_ref(&self) -> (res: Option<&Id>)
        ensures
            match res {
                Some(id) => self@.id == Some(Some(id@)),
                None => self@.id is None || self@.id == Some(None::<IdView>),
            },
    {
        match &self.id {
            Some(Some(id)) => Some(id),
            _ => None,
        }
    }

    /// The params, as they are to be read by a handler.
    pub fn params_ref(&self) -> (res: Option<&InnerParams>)
        ensures
            match res {
                Some(params) => self@.params == Some(params@),
                None => self@.params is None,
            },
    {
        match &self.params {
            Some(params) => Some(params),
            None => None,
        }
    }

    /// The id that the answer goes back with. A request object without an id gets no answer.
    pub fn reply_id(&self) -> (res: Option<Id>)
        ensures
            opt_id_view(res) == reply_id(self@.id),
    {
        match &self.id {
            Some(Some(id)) => Some(id.clone()),
            Some(None) => Some(Id::Null),
            None => None,
        }
    }

    /// Build a new request object
    pub fn request() -> (res: RequestBuilder)
        ensures
            res@ == (RequestBuilderView { id: Id::Null, params: None, method: () }),
    {
        RequestBuilder::default()
    }

    /// Build a new notification request object
    pub fn notification() -> (res: NotificationBuilder)
        ensures
            res@ == (NotificationBuilderView { params: None, method: () }),
    {
        NotificationBuilder::default()
    }
}

impl Default for RequestObject {
    fn default() -> (res: RequestObject)
        ensures
            res@ == (RequestView { method: Seq::empty(), params: None, id: None }),
    {
        RequestObject { jsonrpc: V2, method: String::new(), params: None, id: None }
    }
}

impl vstd::std_specs::convert::FromSpecImpl<BytesRequestObject> for RequestObject {
    open spec fn obeys_from_spec() -> bool {
        false
    }

    open spec fn from_spec(t: BytesRequestObject) -> RequestObject {
        arbitrary()
    }
}

impl From<BytesRequestObject> for RequestObject {
    fn from(t: BytesRequestObject) -> (res: RequestObject)
        ensures
            res@ == from_bytes_view(t@),
    {
        let (method, text, id) = t.into_parts();
        let params = match text {
            Some(text) => Some(InnerParams::Raw(text)),
            None => None,
        };
        RequestObject { jsonrpc: V2, method, params, id }
    }
}

// Writing ----------------------------------------------------------------------------------------
/// The JSON text of the params of a request object.
pub open spec fn params_text(params: Option<ParamsView>) -> Seq<char> {
    match params {
        Some(ParamsView::Value(value)) => json_value_text(value),
        Some(ParamsView::Raw(text)) => text,
        None => "null"@,
    }
}

/// The members of a request object as it is written: the params are always there, the id only
/// where the request object has one.
pub open spec fn request_members(req: RequestView) -> Seq<Member> {
    let common = seq![
        ("jsonrpc"@, quoted("2.0"@)),
        ("method"@, quoted(req.method)),
        ("params"@, params_text(req.params)),
    ];
    match req.id {
        Some(Some(id)) => common.push(("id"@, id_text(id))),
        Some(None) => common.push(("id"@, "null"@)),
        None => common,
    }
}

/// What is read back of a request object: params and ids that are null are no more told from
/// missing params and from the id null.
pub open spec fn read_back(req: RequestView) -> BytesRequestView {
    BytesRequestView {
        method: req.method,
        params: if params_text(req.params) == "null"@ {
            None
        } else {
            Some(params_text(req.params))
        },
        id: if req.id == Some(Some(IdView::Null)) {
            Some(None)
        } else {
            req.id
        },
    }
}

/// The parts of a written request object are found again.
proof fn lemma_values_written(req: RequestView)
    ensures
        values_of(request_members(req), "jsonrpc"@) == seq![quoted("2.0"@)],
        values_of(request_members(req), "method"@) == seq![quoted(req.method)],
        values_of(request_members(req), "params"@) == seq![params_text(req.params)],
        values_of(request_members(req), "id"@) == (match req.id {
            Some(Some(id)) => seq![id_text(id)],
            Some(None) => seq!["null"@],
            None => Seq::empty(),
        }),
{
    reveal_strlit("jsonrpc");
    reveal_strlit("method");
    reveal_strlit("params");
    reveal_strlit("id");
    assert("jsonrpc"@.len() == 7 && "id"@.len() == 2);
    assert("method"@[0] == 'm' && "params"@[0] == 'p');
    let m0 = ("jsonrpc"@, quoted("2.0"@));
    let m1 = ("method"@, quoted(req.method));
    let m2 = ("params"@, params_text(req.params));
    let three = seq![m0, m1, m2];
    let all = request_members(req);
    assert(three.drop_last() =~= seq![m0, m1]);
    assert(seq![m0, m1].drop_last() =~= seq![m0]);
    assert(seq![m0].drop_last() =~= Seq::<Member>::empty());
    if req.id is Some {
        assert(all.drop_last() =~= three);
    }
    reveal_with_fuel(values_of, 5);
    assert(values_of(all, "jsonrpc"@) =~= seq![quoted("2.0"@)]);
    assert(values_of(all, "method"@) =~= seq![quoted(req.method)]);
    assert(values_of(all, "params"@) =~= seq![params_text(req.params)]);
}

proof fn lemma_text_is_object(members: Seq<Member>)
    ensures
        after_mark(encode_utf8(object_text(members)), 0x5b) is None,
{
    let bytes = encode_utf8(object_text(members));
    lemma_object_start(members);
    assert(drop_space(bytes) == bytes);
}

impl RequestObject {
    /// The JSON text of the request object. It is read back as the request object that it was
    /// written for.
    pub fn serialize(&self) -> (text: String)
        ensures
            text@ == object_text(request_members(self@)),
            is_object_bytes(encode_utf8(text@), request_members(self@)),
            request_of_text(text@) == Some(read_back(self@)),
    {
        proof {
            use_type_invariant(self);
        }
        let version = self.jsonrpc.serialize();
        let method = write_string(self.method.as_str()).unwrap();
        let params = match &self.params {
            Some(InnerParams::Value(value)) => write_value(value).unwrap(),
            Some(InnerParams::Raw(text)) => text.clone(),
            None => write_null().unwrap(),
        };
        let mut members: Vec<(&str, String)> = Vec::new();
        members.push(("jsonrpc", version));
        members.push(("method", method));
        members.push(("params", params));
        match &self.id {
            Some(Some(id)) => members.push(("id", id.serialize())),
            Some(None) => members.push(("id", write_null().unwrap())),
            None => {},
        }
        assert(written(members@) == request_members(self@));
        assert(forall|i: int|
            0 <= i < members.len() ==> is_value_text((#[trigger] members@[i]).1@));
        let text = write_object(&members);
        proof {
            lemma_text_is_object(request_members(self@));
            lemma_values_written(self@);
        }
        text
    }
}

// Builders ---------------------------------------------------------------------------------------
/// Builder struct for a request object
pub struct RequestBuilder<M = ()> {
    id: Id,
    params: Option<serde_json::Value>,
    method: M,
}

/// What a builder for a request object has been given so far.
pub struct RequestBuilderView<M> {
    pub id: Id,
    pub params: Option<serde_json::Value>,
    pub method: M,
}

impl<M> View for RequestBuilder<M> {
    type V = RequestBuilderView<M>;

    closed spec fn view(&self) -> RequestBuilderView<M> {
        RequestBuilderView { id: self.id, params: self.params, method: self.method }
    }
}

/// The params of a request object that is made in memory.
pub open spec fn built_params(params: Option<serde_json::Value>) -> Option<ParamsView> {
    match params {
        Some(value) => Some(ParamsView::Value(value)),
        None => None,
    }
}

impl<M: Default> Default for RequestBuilder<M> {
    fn default() -> (res: RequestBuilder<M>)
        ensures
            res@.id == Id::Null,
            res@.params is None,
            call_ensures(<M as Default>::default, (), res@.method),
    {
        RequestBuilder { id: Id::default(), params: None, method: M::default() }
    }
}

impl<M> RequestBuilder<M> {
    pub fn with_id<I: Into<Id>>(self, id: I) -> (res: Self)
        ensures
            call_ensures(<I as Into<Id>>::into, (id,), res@.id),
            res@ == (RequestBuilderView { id: res@.id, ..self@ }),
    {
        RequestBuilder { id: id.into(), params: self.params, method: self.method }
    }

    pub fn with_params<I: Into<serde_json::Value>>(self, params: I) -> (res: Self)
        ensures
            res@.params matches Some(value) && call_ensures(
                <I as Into<serde_json::Value>>::into,
                (params,),
                value,
            ),
            res@ == (RequestBuilderView { params: res@.params, ..self@ }),
    {
        RequestBuilder { id: self.id, params: Some(params.into()), method: self.method }
    }
}

impl RequestBuilder<()> {
    pub fn with_method<I: Into<String>>(self, method: I) -> (res: RequestBuilder<String>)
        ensures
            call_ensures(<I as Into<String>>::into, (method,), res@.method),
            res@.id == self@.id,
            res@.params == self@.params,
    {
        RequestBuilder { id: self.id, params: self.params, method: method.into() }
    }
}

impl RequestBuilder<String> {
    pub fn finish(self) -> (res: RequestObject)
        ensures
            res@ == (RequestView {
                method: self@.method@,
                params: built_params(self@.params),
                id: Some(Some(self@.id@)),
            }),
    {
        RequestObject::from_parts(self.method, self.params, Some(Some(self.id)))
    }
}

/// Builder struct for a notification request object
pub struct NotificationBuilder<M = ()> {
    params: Option<serde_json::Value>,
    method: M,
}

/// What a builder for a notification has been given so far.
pub struct NotificationBuilderView<M> {
    pub params: Option<serde_json::Value>,
    pub method: M,
}

impl<M> View for NotificationBuilder<M> {
    type V = NotificationBuilderView<M>;

    closed spec fn view(&self) -> NotificationBuilderView<M> {
        NotificationBuilderView { params: self.params, method: self.method }
    }
}

impl<M: Default> Default for NotificationBuilder<M> {
    fn default() -> (res: NotificationBuilder<M>)
        ensures
            res@.params is None,
            call_ensures(<M as Default>::default, (), res@.method),
    {
        NotificationBuilder { params: None, method: M::default() }
    }
}

impl<M> NotificationBuilder<M> {
    pub fn with_params<I: Into<serde_json::Value>>(self, params: I) -> (res: Self)
        ensures
            res@.params matches Some(value) && call_ensures(
                <I as Into<serde_json::Value>>::into,
                (params,),
                value,
            ),
            res@.method == self@.method,
    {
        NotificationBuilder { params: Some(params.into()), method: self.method }
    }
}

impl NotificationBuilder<()> {
    pub fn with_method<I: Into<String>>(self, method: I) -> (res: NotificationBuilder<String>)
        ensures
            call_ensures(<I as Into<String>>::into, (method,), res@.method),
            res@.params == self@.params,
    {
        NotificationBuilder { params: self.params, method: method.into() }
    }
}

impl NotificationBuilder<String> {
    pub fn finish(self) -> (res: RequestObject)
        ensures
            res@ == (RequestView {
                method: self@.method@,
                params: built_params(self@.params),
                id: None,
            }),
    {
        RequestObject::from_parts(self.method, self.params, None)
    }
}

// Kinds of requests ------------------------------------------------------------------------------
/// An enum to contain the different kinds of possible requests: using the provided
/// [`RequestObject`], an array of `RequestObject`s, or raw bytes.
///
/// Typically not use directly, [`Server::handle`](crate::server::Server::handle) can take the
/// individual variants
pub enum RequestKind {
    RequestObject(RequestObject),
    ManyRequestObjects(Vec<RequestObject>),
    Bytes(Vec<u8>),
}

impl vstd::std_specs::convert::FromSpecImpl<RequestObject> for RequestKind {
    open spec fn obeys_from_spec() -> bool {
        true
    }

    open spec fn from_spec(t: RequestObject) -> Self {
        RequestKind::RequestObject(t)
    }
}

impl From<RequestObject> for RequestKind {
    fn from(t: RequestObject) -> (res: Self) {
        RequestKind::RequestObject(t)
    }
}

impl vstd::std_specs::convert::FromSpecImpl<Vec<RequestObject>> for RequestKind {
    open spec fn obeys_from_spec() -> bool {
        true
    }

    open spec fn from_spec(t: Vec<RequestObject>) -> Self {
        RequestKind::ManyRequestObjects(t)
    }
}

impl From<Vec<RequestObject>> for RequestKind {
    fn from(t: Vec<RequestObject>) -> (res: Self) {
        RequestKind::ManyRequestObjects(t)
    }
}

impl vstd::std_specs::convert::FromSpecImpl<Vec<u8>> for RequestKind {
    open spec fn obeys_from_spec() -> bool {
        true
    }

    open spec fn from_spec(t: Vec<u8>) -> Self {
        RequestKind::Bytes(t)
    }
}

impl From<Vec<u8>> for RequestKind {
    fn from(t: Vec<u8>) -> (res: Self) {
        RequestKind::Bytes(t)
    }
}

/// A buffer of bytes that is cheap to share.
#[verifier::external_type_specification]
#[verifier::external_body]
pub struct ExBuffer(bytes::Bytes);

/// The bytes that a buffer holds.
pub uninterp spec fn buffer_contents(buffer: bytes::Bytes) -> Seq<u8>;

/// Turns a `bytes::Bytes` into a vector with `Vec::from`: the vector holds the same bytes.
#[verifier::external_body]
fn buffer_to_vec(buffer: bytes::Bytes) -> (res: Vec<u8>)
    ensures
        res@ == buffer_contents(buffer),
{
    Vec::from(buffer)
}

impl vstd::std_specs::convert::FromSpecImpl<bytes::Bytes> for RequestKind {
    open spec fn obeys_from_spec() -> bool {
        false
    }

    open spec fn from_spec(t: bytes::Bytes) -> Self {
        arbitrary()
    }
}

impl From<bytes::Bytes> for RequestKind {
    fn from(t: bytes::Bytes) -> (res: Self)
        ensures
            res matches RequestKind::Bytes(contents) && contents@ == buffer_contents(t),
    {
        RequestKind::Bytes(buffer_to_vec(t))
    }
}

impl<'a> vstd::std_specs::convert::FromSpecImpl<&'a [u8]> for RequestKind {
    open spec fn obeys_from_spec() -> bool {
        false
    }

    open spec fn from_spec(t: &'a [u8]) -> Self {
        arbitrary()
    }
}

impl<'a> From<&'a [u8]> for RequestKind {
    fn from(t: &'a [u8]) -> (res: Self)
        ensures
            res matches RequestKind::Bytes(bytes) && bytes@ == t@,
    {
        RequestKind::Bytes(slice_to_vec(t))
    }
}

} // verus!

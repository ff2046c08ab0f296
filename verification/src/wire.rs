//! How a request object stands on the wire.
//!
//! A request object is a JSON object with the members `jsonrpc`, `method`, `params` and `id`, or a
//! JSON array of these four in this order. Any of them may be missing, and members of other names
//! are skipped.

use crate::id::{id_of_text, is_null_text, reads_null, same_str, Id, IdView, V2};
use crate::json::{
    is_object_bytes, is_value_text, json_array, json_plain_string, json_single, json_string,
    read_array, read_single, read_string, JsonError,
};
use crate::object::{
    after_mark, lemma_object_start, object_members, object_text, read_mark, read_object, views,
    Member,
};
use crate::request::RequestObject;
use vstd::prelude::*;
use vstd::utf8::encode_utf8;

verus! {

/// The texts of the values of all members named `name`, in order.
pub open spec fn values_of(members: Seq<Member>, name: Seq<char>) -> Seq<Seq<char>>
    decreases members.len(),
{
    if members.len() == 0 {
        Seq::empty()
    } else {
        let before = values_of(members.drop_last(), name);
        if members.last().0 == name {
            before.push(members.last().1)
        } else {
            before
        }
    }
}

/// The texts of the four parts of a request object, each where it is present.
pub struct RequestTexts {
    pub jsonrpc: Option<Seq<char>>,
    pub method: Option<Seq<char>>,
    pub params: Option<Seq<char>>,
    pub id: Option<Seq<char>>,
}

/// The element at `at`, where there is one.
pub open spec fn get<A>(s: Seq<A>, at: int) -> Option<A> {
    if 0 <= at < s.len() {
        Some(s[at])
    } else {
        None
    }
}

/// The values that are present among `options`, in order.
pub open spec fn somes<A>(options: Seq<Option<A>>) -> Seq<A>
    decreases options.len(),
{
    if options.len() == 0 {
        Seq::empty()
    } else {
        match options.last() {
            Some(a) => somes(options.drop_last()).push(a),
            None => somes(options.drop_last()),
        }
    }
}

/// The parts of a request object in the form of an object: none of them may stand there twice.
pub open spec fn texts_of_members(members: Seq<Member>) -> Option<RequestTexts> {
    let jsonrpc = values_of(members, "jsonrpc"@);
    let method = values_of(members, "method"@);
    let params = values_of(members, "params"@);
    let id = values_of(members, "id"@);
    if jsonrpc.len() <= 1 && method.len() <= 1 && params.len() <= 1 && id.len() <= 1 {
        Some(
            RequestTexts {
                jsonrpc: get(jsonrpc, 0),
                method: get(method, 0),
                params: get(params, 0),
                id: get(id, 0),
            },
        )
    } else {
        None
    }
}

/// The parts of a request object in the form of an array, which has at most four elements.
pub open spec fn texts_of_elements(elements: Seq<Seq<char>>) -> Option<RequestTexts> {
    if elements.len() <= 4 {
        Some(
            RequestTexts {
                jsonrpc: get(elements, 0),
                method: get(elements, 1),
                params: get(elements, 2),
                id: get(elements, 3),
            },
        )
    } else {
        None
    }
}

/// The parts of the request object that the JSON text `text` holds.
pub open spec fn texts_of_text(text: Seq<char>) -> Option<RequestTexts> {
    let bytes = encode_utf8(text);
    if after_mark(bytes, 0x5b) is Some {
        match json_array(bytes) {
            Some(elements) => texts_of_elements(elements),
            None => None,
        }
    } else {
        match object_members(bytes) {
            Some(members) => texts_of_members(members),
            None => None,
        }
    }
}

/// The id of a request object: `None` without an id, `Some(None)` with the id null.
pub open spec fn request_id_of_text(text: Option<Seq<char>>) -> Option<Option<Option<IdView>>> {
    match text {
        None => Some(None),
        Some(t) => if is_null_text(t) {
            Some(Some(None))
        } else {
            match id_of_text(t) {
                Some(id) => Some(Some(Some(id))),
                None => None,
            }
        },
    }
}

/// What a request object read from the wire holds.
pub struct BytesRequestView {
    pub method: Seq<char>,
    pub params: Option<Seq<char>>,
    pub id: Option<Option<IdView>>,
}

/// The request object with the given parts: the version has to be "2.0", the method a string and
/// the id an id, each where it is present. A missing method is empty, and null stands for no
/// params.
pub open spec fn request_of_texts(texts: RequestTexts) -> Option<BytesRequestView> {
    let version_ok = texts.jsonrpc is None || json_plain_string(texts.jsonrpc->0) == Some("2.0"@);
    let method = match texts.method {
        Some(t) => json_string(t),
        None => Some(Seq::empty()),
    };
    let params = if texts.params == Some("null"@) {
        None
    } else {
        texts.params
    };
    match (version_ok, method, request_id_of_text(texts.id)) {
        (true, Some(method), Some(id)) => Some(BytesRequestView { method, params, id }),
        _ => None,
    }
}

/// The request object that the JSON text `text` holds.
pub open spec fn request_of_text(text: Seq<char>) -> Option<BytesRequestView> {
    match texts_of_text(text) {
        Some(texts) => request_of_texts(texts),
        None => None,
    }
}

/// The texts of the four parts of a request object, as they stand on the wire.
struct Texts<'a> {
    jsonrpc: Option<&'a str>,
    method: Option<&'a str>,
    params: Option<&'a str>,
    id: Option<&'a str>,
}

/// What an optional text holds.
spec fn opt_view<'a>(text: Option<&'a str>) -> Option<Seq<char>> {
    match text {
        Some(t) => Some(t@),
        None => None,
    }
}

impl<'a> View for Texts<'a> {
    type V = RequestTexts;

    closed spec fn view(&self) -> RequestTexts {
        RequestTexts {
            jsonrpc: opt_view(self.jsonrpc),
            method: opt_view(self.method),
            params: opt_view(self.params),
            id: opt_view(self.id),
        }
    }
}

/// The slot for the members named `name` holds their one value, or nothing if there is none.
spec fn slot_ok<'a>(slot: Option<&'a str>, members: Seq<Member>, name: Seq<char>) -> bool {
    let values = values_of(members, name);
    &&& values.len() <= 1
    &&& opt_view(slot) == get(values, 0)
}

proof fn lemma_values_of_grow(members: Seq<Member>, at: int, name: Seq<char>)
    requires
        0 <= at < members.len(),
    ensures
        values_of(members.take(at + 1), name) == if members[at].0 == name {
            values_of(members.take(at), name).push(members[at].1)
        } else {
            values_of(members.take(at), name)
        },
{
    assert(members.take(at + 1).drop_last() == members.take(at));
}

proof fn lemma_values_of_more(members: Seq<Member>, at: int, name: Seq<char>)
    requires
        0 <= at <= members.len(),
    ensures
        values_of(members.take(at), name).len() <= values_of(members, name).len(),
    decreases members.len() - at,
{
    if at == members.len() {
        assert(members.take(at) == members);
    } else {
        lemma_values_of_grow(members, at, name);
        lemma_values_of_more(members, at + 1, name);
    }
}

/// Sorts the members of a request object into its four parts.
fn sort_members<'a>(members: &Vec<(String, &'a str)>) -> (res: Option<Texts<'a>>)
    requires
        forall|i: int| 0 <= i < members.len() ==> is_value_text((#[trigger] members@[i]).1@),
    ensures
        res is Some <==> texts_of_members(views(members@)) is Some,
        res matches Some(texts) ==> {
            &&& texts_of_members(views(members@)) == Some(texts@)
            &&& texts@.params matches Some(t) ==> is_value_text(t)
        },
{
    let ghost all = views(members@);
    let mut texts = Texts { jsonrpc: None, method: None, params: None, id: None };
    assert(all.take(0) == Seq::<Member>::empty());
    proof {
        reveal_strlit("jsonrpc");
        reveal_strlit("method");
        reveal_strlit("params");
        reveal_strlit("id");
        assert("jsonrpc"@.len() == 7 && "id"@.len() == 2);
        assert("method"@[0] == 'm' && "params"@[0] == 'p');
    }
    let mut at: usize = 0;
    while at < members.len()
        invariant
            at <= members.len(),
            all == views(members@),
            forall|i: int| 0 <= i < members.len() ==> is_value_text((#[trigger] members@[i]).1@),
            slot_ok(texts.jsonrpc, all.take(at as int), "jsonrpc"@),
            slot_ok(texts.method, all.take(at as int), "method"@),
            slot_ok(texts.params, all.take(at as int), "params"@),
            slot_ok(texts.id, all.take(at as int), "id"@),
            texts.params matches Some(t) ==> is_value_text(t@),
            "jsonrpc"@ != "method"@,
            "jsonrpc"@ != "params"@,
            "jsonrpc"@ != "id"@,
            "method"@ != "params"@,
            "method"@ != "id"@,
            "params"@ != "id"@,
        decreases members.len() - at,
    {
        proof {
            assert(all[at as int] == (members@[at as int].0@, members@[at as int].1@));
            lemma_values_of_grow(all, at as int, "jsonrpc"@);
            lemma_values_of_grow(all, at as int, "method"@);
            lemma_values_of_grow(all, at as int, "params"@);
            lemma_values_of_grow(all, at as int, "id"@);
            lemma_values_of_more(all, at + 1, "jsonrpc"@);
            lemma_values_of_more(all, at + 1, "method"@);
            lemma_values_of_more(all, at + 1, "params"@);
            lemma_values_of_more(all, at + 1, "id"@);
        }
        let name = members[at].0.as_str();
        let value = members[at].1;
        if same_str(name, "jsonrpc") {
            if texts.jsonrpc.is_some() {
                return None;
            }
            texts.jsonrpc = Some(value);
        } else if same_str(name, "method") {
            if texts.method.is_some() {
                return None;
            }
            texts.method = Some(value);
        } else if same_str(name, "params") {
            if texts.params.is_some() {
                return None;
            }
            texts.params = Some(value);
        } else if same_str(name, "id") {
            if texts.id.is_some() {
                return None;
            }
            texts.id = Some(value);
        }
        at += 1;
    }
    assert(all.take(at as int) == all);
    Some(texts)
}

/// Reads the four parts of a request object from a JSON text.
fn read_texts<'a>(text: &'a str) -> (res: Option<Texts<'a>>)
    ensures
        res is Some <==> texts_of_text(text@) is Some,
        res matches Some(texts) ==> {
            &&& texts_of_text(text@) == Some(texts@)
            &&& texts@.params matches Some(t) ==> is_value_text(t)
        },
{
    let bytes = text.as_bytes();
    if read_mark(bytes, 0x5b).is_some() {
        match read_array(bytes) {
            Ok(elements) => {
                let count = elements.len();
                if count > 4 {
                    return None;
                }
                let texts = Texts {
                    jsonrpc: if count > 0 { Some(elements[0]) } else { None },
                    method: if count > 1 { Some(elements[1]) } else { None },
                    params: if count > 2 { Some(elements[2]) } else { None },
                    id: if count > 3 { Some(elements[3]) } else { None },
                };
                Some(texts)
            },
            Err(_) => None,
        }
    } else {
        match read_object(bytes) {
            Some(members) => sort_members(&members),
            None => None,
        }
    }
}

/// Request/Notification object as it is read from the wire: the params are still a text.
pub struct BytesRequestObject {
    jsonrpc: V2,
    method: String,
    params: Option<String>,
    id: Option<Option<Id>>,
}

/// What the id of a request object holds.
pub open spec fn request_id_view(id: Option<Option<Id>>) -> Option<Option<IdView>> {
    match id {
        Some(Some(id)) => Some(Some(id@)),
        Some(None) => Some(None),
        None => None,
    }
}

impl View for BytesRequestObject {
    type V = BytesRequestView;

    closed spec fn view(&self) -> BytesRequestView {
        BytesRequestView {
            method: self.method@,
            params: match self.params {
                Some(text) => Some(text@),
                None => None,
            },
            id: request_id_view(self.id),
        }
    }
}

impl BytesRequestObject {
    /// The params are the text of a JSON value.
    #[verifier::type_invariant]
    closed spec fn inv(self) -> bool {
        self.params matches Some(text) ==> is_value_text(text@)
    }

    /// Reads a request object from a JSON text.
    pub fn deserialize(text: &str) -> (res: Result<BytesRequestObject, JsonError>)
        ensures
            res is Ok <==> request_of_text(text@) is Some,
            res matches Ok(req) ==> request_of_text(text@) == Some(req@),
    {
        let texts = match read_texts(text) {
            Some(texts) => texts,
            None => return Err(JsonError),
        };
        let jsonrpc = match texts.jsonrpc {
            Some(t) => match V2::deserialize(t) {
                Ok(version) => version,
                Err(e) => return Err(e),
            },
            None => V2,
        };
        let method = match texts.method {
            Some(t) => match read_string(t) {
                Ok(method) => method,
                Err(e) => return Err(e),
            },
            None => String::new(),
        };
        let params = match texts.params {
            Some(t) => if same_str(t, "null") {
                None
            } else {
                Some(t.to_string())
            },
            None => None,
        };
        let id = match texts.id {
            Some(t) => match RequestObject::deserialize_id(t) {
                Ok(id) => id,
                Err(e) => return Err(e),
            },
            None => None,
        };
        Ok(BytesRequestObject { jsonrpc, method, params, id })
    }

    /// The parts of the request object: the method, the text of the params, and the id.
    pub(crate) fn into_parts(self) -> (res: (String, Option<String>, Option<Option<Id>>))
        ensures
            self@.method == res.0@,
            self@.params == (match res.1 {
                Some(text) => Some(text@),
                None => None,
            }),
            self@.id == request_id_view(res.2),
            res.1 matches Some(text) ==> is_value_text(text@),
    {
        proof {
            use_type_invariant(&self);
        }
        (self.method, self.params, self.id)
    }
}

impl Default for BytesRequestObject {
    fn default() -> (res: BytesRequestObject)
        ensures
            res@ == (BytesRequestView { method: Seq::empty(), params: None, id: None }),
    {
        BytesRequestObject { jsonrpc: V2, method: String::new(), params: None, id: None }
    }
}

impl RequestObject {
    /// Reads the id of a request object from the text of a JSON value. An id that is present is
    /// told from a missing one, even where it is null.
    pub fn deserialize_id(text: &str) -> (res: Result<Option<Option<Id>>, JsonError>)
        ensures
            res is Ok <==> request_id_of_text(Some(text@)) is Some,
            res matches Ok(id) ==> request_id_of_text(Some(text@)) == Some(request_id_view(id)),
    {
        if reads_null(text) {
            return Ok(Some(None));
        }
        match Id::deserialize(text) {
            Ok(id) => Ok(Some(Some(id))),
            Err(e) => Err(e),
        }
    }
}

// Single values and batches ----------------------------------------------------------------------
/// The texts of the JSON values that came in: one value, or the elements of an array.
pub enum RawValues {
    Many(Seq<Seq<char>>),
    One(Seq<char>),
}

/// The JSON values that `bytes` hold. They are read as an array if they start with a bracket, and
/// as one value otherwise.
pub open spec fn raw_values(bytes: Seq<u8>) -> Option<RawValues> {
    if bytes.len() > 0 && bytes[0] == 0x5b {
        match json_array(bytes) {
            Some(texts) => Some(RawValues::Many(texts)),
            None => None,
        }
    } else {
        match json_single(bytes) {
            Some(text) => Some(RawValues::One(text)),
            None => None,
        }
    }
}

/// The texts of the JSON values that came in: one value, or the elements of an array
#[derive(Debug)]
pub enum OneOrManyRawValues<'a> {
    Many(Vec<&'a str>),
    One(&'a str),
}

impl<'a> View for OneOrManyRawValues<'a> {
    type V = RawValues;

    open spec fn view(&self) -> RawValues {
        match *self {
            OneOrManyRawValues::Many(texts) => RawValues::Many(
                texts@.map_values(|t: &'a str| t@),
            ),
            OneOrManyRawValues::One(text) => RawValues::One(text@),
        }
    }
}

impl<'a> OneOrManyRawValues<'a> {
    pub fn try_from_slice(slice: &'a [u8]) -> (res: Result<Self, JsonError>)
        ensures
            res is Ok <==> raw_values(slice@) is Some,
            res matches Ok(values) ==> raw_values(slice@) == Some(values@),
            forall|members: Seq<Member>| #[trigger]
                is_object_bytes(slice@, members) ==> raw_values(slice@) == Some(
                    RawValues::One(object_text(members)),
                ),
    {
        assert forall|members: Seq<Member>| #[trigger]
            is_object_bytes(slice@, members) implies slice@.len() > 0 && slice@[0] == 0x7b by {
            lemma_object_start(members);
        }
        if slice.len() > 0 && slice[0] == 0x5b {
            match read_array(slice) {
                Ok(texts) => Ok(OneOrManyRawValues::Many(texts)),
                Err(e) => Err(e),
            }
        } else {
            match read_single(slice) {
                Ok(text) => Ok(OneOrManyRawValues::One(text)),
                Err(e) => Err(e),
            }
        }
    }
}

} // verus!

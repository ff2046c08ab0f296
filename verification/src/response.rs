//! Response objects.
//!
//! What a handler sends back is of any type `B`. It is only passed on here, until [`JsonText`]
//! stands for it and the response objects can be written.

use crate::error::{Error, ErrorData, ErrorDataView, ErrorView};
use crate::id::{id_text, Id, IdView, V2};
use crate::json::{decimal, quoted, write_i64, write_null, write_string};
use crate::object::{array_text, object_text, write_array, write_object, written, Member};
use crate::wire::somes;
use vstd::prelude::*;

verus! {

/// The individual response object
#[derive(Debug, PartialEq, Eq)]
pub enum ResponseObject<B> {
    Result { jsonrpc: V2, result: B, id: Id },
    Error { jsonrpc: V2, error: Error<B>, id: Id },
}

/// What a response object says.
pub enum ResponseView<B> {
    Result { result: B, id: IdView },
    Error { error: ErrorView<B>, id: IdView },
}

impl<B> View for ResponseObject<B> {
    type V = ResponseView<B>;

    open spec fn view(&self) -> ResponseView<B> {
        match *self {
            ResponseObject::Result { jsonrpc, result, id } => ResponseView::Result {
                result,
                id: id@,
            },
            ResponseObject::Error { jsonrpc, error, id } => ResponseView::Error {
                error: error@,
                id: id@,
            },
        }
    }
}

impl<B> ResponseView<B> {
    /// The id that the response goes back with.
    pub open spec fn id(self) -> IdView {
        match self {
            ResponseView::Result { id, .. } => id,
            ResponseView::Error { id, .. } => id,
        }
    }
}

impl<B> ResponseObject<B> {
    pub fn result(result: B, id: Id) -> (res: Self)
        ensures
            res@ == (ResponseView::Result { result, id: id@ }),
    {
        ResponseObject::Result { jsonrpc: V2, result, id }
    }

    pub fn error(error: Error<B>, id: Id) -> (res: Self)
        ensures
            res@ == (ResponseView::Error { error: error@, id: id@ }),
    {
        ResponseObject::Error { jsonrpc: V2, error, id }
    }
}

/// Container for the response object(s) or `Empty` for notification request(s)
#[derive(Debug, PartialEq, Eq)]
pub enum ResponseObjects<B> {
    One(ResponseObject<B>),
    Many(Vec<ResponseObject<B>>),
    Empty,
}

/// What a whole response says.
pub enum ResponsesView<B> {
    One(ResponseView<B>),
    Many(Seq<ResponseView<B>>),
    Empty,
}

/// What several response objects say.
pub open spec fn response_views<B>(responses: Seq<ResponseObject<B>>) -> Seq<ResponseView<B>> {
    Seq::new(responses.len(), |i: int| responses[i]@)
}

impl<B> View for ResponseObjects<B> {
    type V = ResponsesView<B>;

    open spec fn view(&self) -> ResponsesView<B> {
        match *self {
            ResponseObjects::One(one) => ResponsesView::One(one@),
            ResponseObjects::Many(many) => ResponsesView::Many(response_views(many@)),
            ResponseObjects::Empty => ResponsesView::Empty,
        }
    }
}

/// The response objects to several requests, or `Empty` where none of them is answered
#[derive(Debug, PartialEq, Eq)]
pub enum ManyResponseObjects<B> {
    Many(Vec<ResponseObject<B>>),
    Empty,
}

impl<B> View for ManyResponseObjects<B> {
    type V = ResponsesView<B>;

    open spec fn view(&self) -> ResponsesView<B> {
        match *self {
            ManyResponseObjects::Many(many) => ResponsesView::Many(response_views(many@)),
            ManyResponseObjects::Empty => ResponsesView::Empty,
        }
    }
}

/// The response object to one request, or `Empty` where it is not answered
#[derive(Debug, PartialEq, Eq)]
pub enum SingleResponseObject<B> {
    One(ResponseObject<B>),
    Empty,
}

impl<B> View for SingleResponseObject<B> {
    type V = Option<ResponseView<B>>;

    open spec fn view(&self) -> Option<ResponseView<B>> {
        match *self {
            SingleResponseObject::One(one) => Some(one@),
            SingleResponseObject::Empty => None,
        }
    }
}

/// The whole response that one answer, or none, makes.
pub open spec fn single_response<B>(single: Option<ResponseView<B>>) -> ResponsesView<B> {
    match single {
        Some(one) => ResponsesView::One(one),
        None => ResponsesView::Empty,
    }
}

impl<B> vstd::std_specs::convert::FromSpecImpl<ManyResponseObjects<B>> for ResponseObjects<B> {
    open spec fn obeys_from_spec() -> bool {
        true
    }

    open spec fn from_spec(t: ManyResponseObjects<B>) -> Self {
        match t {
            ManyResponseObjects::Many(many) => ResponseObjects::Many(many),
            ManyResponseObjects::Empty => ResponseObjects::Empty,
        }
    }
}

impl<B> From<ManyResponseObjects<B>> for ResponseObjects<B> {
    fn from(t: ManyResponseObjects<B>) -> (res: Self)
        ensures
            res@ == t@,
    {
        match t {
            ManyResponseObjects::Many(many) => ResponseObjects::Many(many),
            ManyResponseObjects::Empty => ResponseObjects::Empty,
        }
    }
}

impl<B> vstd::std_specs::convert::FromSpecImpl<SingleResponseObject<B>> for ResponseObjects<B> {
    open spec fn obeys_from_spec() -> bool {
        true
    }

    open spec fn from_spec(t: SingleResponseObject<B>) -> Self {
        match t {
            SingleResponseObject::One(one) => ResponseObjects::One(one),
            SingleResponseObject::Empty => ResponseObjects::Empty,
        }
    }
}

impl<B> From<SingleResponseObject<B>> for ResponseObjects<B> {
    fn from(t: SingleResponseObject<B>) -> (res: Self)
        ensures
            res@ == single_response(t@),
    {
        match t {
            SingleResponseObject::One(one) => ResponseObjects::One(one),
            SingleResponseObject::Empty => ResponseObjects::Empty,
        }
    }
}

/// The answer to a request, given the id that it is to go back with and what came of it. A request
/// without an id is a notification and gets no answer, whatever came of it.
pub open spec fn answer<B>(
    outcome: Result<B, ErrorView<B>>,
    id: Option<IdView>,
) -> Option<ResponseView<B>> {
    match (id, outcome) {
        (Some(id), Ok(result)) => Some(ResponseView::Result { result, id }),
        (Some(id), Err(error)) => Some(ResponseView::Error { error, id }),
        (None, _) => None,
    }
}

/// What an optional id holds.
pub open spec fn opt_id_view(id: Option<Id>) -> Option<IdView> {
    match id {
        Some(id) => Some(id@),
        None => None,
    }
}

/// What came of a request.
pub open spec fn outcome_view<B>(outcome: Result<B, Error<B>>) -> Result<B, ErrorView<B>> {
    match outcome {
        Ok(result) => Ok(result),
        Err(error) => Err(error@),
    }
}

impl<B> SingleResponseObject<B> {
    pub fn result(result: B, opt_id: Option<Id>) -> (res: Self)
        ensures
            res@ == answer(Ok(result), opt_id_view(opt_id)),
    {
        match opt_id {
            Some(id) => SingleResponseObject::One(ResponseObject::result(result, id)),
            None => SingleResponseObject::Empty,
        }
    }

    pub fn error(error: Error<B>, opt_id: Option<Id>) -> (res: Self)
        ensures
            res@ == answer(Err(error@), opt_id_view(opt_id)),
    {
        match opt_id {
            Some(id) => SingleResponseObject::One(ResponseObject::error(error, id)),
            None => SingleResponseObject::Empty,
        }
    }

    /// The answer to a request, from what its handler returned.
    pub fn from_outcome(outcome: Result<B, Error<B>>, opt_id: Option<Id>) -> (res: Self)
        ensures
            res@ == answer(outcome_view(outcome), opt_id_view(opt_id)),
    {
        match outcome {
            Ok(val) => SingleResponseObject::result(val, opt_id),
            Err(e) => SingleResponseObject::error(e, opt_id),
        }
    }
}

// Batches ----------------------------------------------------------------------------------------
/// The whole response that several response objects make: none of them make an empty response.
pub open spec fn many_responses<B>(responses: Seq<ResponseView<B>>) -> ResponsesView<B> {
    if responses.len() == 0 {
        ResponsesView::Empty
    } else {
        ResponsesView::Many(responses)
    }
}

/// What the responses to several requests say.
pub open spec fn single_views<B>(singles: Seq<SingleResponseObject<B>>) -> Seq<
    Option<ResponseView<B>>,
> {
    Seq::new(singles.len(), |i: int| singles[i]@)
}

impl<B> ManyResponseObjects<B> {
    /// Collects the answers out of the responses to several requests.
    pub fn collect(singles: Vec<SingleResponseObject<B>>) -> (res: Self)
        ensures
            res@ == many_responses(somes(single_views(singles@))),
    {
        let ghost all = single_views(singles@);
        let mut many: Vec<ResponseObject<B>> = Vec::new();
        assert(all.take(0) == Seq::<Option<ResponseView<B>>>::empty());
        for single in iter: singles
            invariant
                all == single_views(iter.seq()),
                response_views(many@) == somes(all.take(iter.index())),
        {
            let ghost at = iter.index();
            assert(all.take(at + 1).drop_last() == all.take(at));
            assert(all.take(at + 1).last() == single@);
            match single {
                SingleResponseObject::One(one) => {
                    let ghost before = many@;
                    many.push(one);
                    assert(response_views(many@) == response_views(before).push(one@));
                },
                SingleResponseObject::Empty => {},
            }
        }
        assert(all.take(all.len() as int) == all);
        if many.len() == 0 {
            ManyResponseObjects::Empty
        } else {
            ManyResponseObjects::Many(many)
        }
    }
}

/// The whole response to a batch: the answers to its valid elements, then an error for each of the
/// others.
pub open spec fn batch_response<B>(
    answered: ResponsesView<B>,
    errs: Seq<ResponseView<B>>,
) -> ResponsesView<B> {
    match answered {
        ResponsesView::Many(many) => ResponsesView::Many(many + errs),
        _ => many_responses(errs),
    }
}

impl<B> ManyResponseObjects<B> {
    /// Appends the errors for the invalid elements of a batch to the answers to the others.
    pub fn with_errors(self, errs: Vec<ResponseObject<B>>) -> (res: ResponseObjects<B>)
        ensures
            res@ == batch_response(self@, response_views(errs@)),
    {
        match self {
            ManyResponseObjects::Many(mut many) => {
                let mut errs = errs;
                let ghost answered = many@;
                let ghost failed = errs@;
                many.append(&mut errs);
                assert(response_views(many@) == response_views(answered) + response_views(failed));
                ResponseObjects::Many(many)
            },
            ManyResponseObjects::Empty => if errs.len() == 0 {
                ResponseObjects::Empty
            } else {
                ResponseObjects::Many(errs)
            },
        }
    }
}

// Payloads ---------------------------------------------------------------------------------------
/// `to` is the error object `from` with what its data are converted to by `f`.
pub open spec fn error_converted<B, C, E, F: Fn(B) -> Result<C, E>>(
    f: F,
    from: ErrorView<B>,
    to: ErrorView<C>,
) -> bool {
    &&& to.code == from.code
    &&& to.message == from.message
    &&& match (from.data, to.data) {
        (None, None) => true,
        (Some(ErrorDataView::Text(a)), Some(ErrorDataView::Text(b))) => a == b,
        (Some(ErrorDataView::Custom(b)), Some(ErrorDataView::Custom(c))) => call_ensures(
            f,
            (b,),
            Ok(c),
        ),
        _ => false,
    }
}

/// `to` is the response object `from` with what its payload is converted to by `f`.
pub open spec fn converted<B, C, E, F: Fn(B) -> Result<C, E>>(
    f: F,
    from: ResponseView<B>,
    to: ResponseView<C>,
) -> bool {
    match (from, to) {
        (ResponseView::Result { result: b, id: i }, ResponseView::Result { result: c, id: j }) => {
            i == j && call_ensures(f, (b,), Ok(c))
        },
        (ResponseView::Error { error: b, id: i }, ResponseView::Error { error: c, id: j }) => {
            i == j && error_converted(f, b, c)
        },
        _ => false,
    }
}

/// `to` is the whole response `from` with what its payloads are converted to by `f`.
pub open spec fn all_converted<B, C, E, F: Fn(B) -> Result<C, E>>(
    f: F,
    from: ResponsesView<B>,
    to: ResponsesView<C>,
) -> bool {
    match (from, to) {
        (ResponsesView::One(b), ResponsesView::One(c)) => converted(f, b, c),
        (ResponsesView::Many(b), ResponsesView::Many(c)) => {
            &&& b.len() == c.len()
            &&& forall|i: int| 0 <= i < b.len() ==> converted(f, #[trigger] b[i], c[i])
        },
        (ResponsesView::Empty, ResponsesView::Empty) => true,
        _ => false,
    }
}

/// `f` fails with `e` on the data of the error object.
pub open spec fn error_fails<B, C, E, F: Fn(B) -> Result<C, E>>(
    f: F,
    from: ErrorView<B>,
    e: E,
) -> bool {
    from.data matches Some(ErrorDataView::Custom(b)) && call_ensures(f, (b,), Err(e))
}

/// `f` fails with `e` on the payload of the response object.
pub open spec fn fails<B, C, E, F: Fn(B) -> Result<C, E>>(
    f: F,
    from: ResponseView<B>,
    e: E,
) -> bool {
    match from {
        ResponseView::Result { result, .. } => call_ensures(f, (result,), Err(e)),
        ResponseView::Error { error, .. } => error_fails(f, error, e),
    }
}

/// `f` can convert the payload of the response object.
pub open spec fn converts<B, C, E, F: Fn(B) -> Result<C, E>>(f: F, from: ResponseView<B>) -> bool {
    exists|to: ResponseView<C>| converted(f, from, to)
}

/// `f` fails with `e` on the payload of one of the response objects, and converts those before it.
pub open spec fn some_fails<B, C, E, F: Fn(B) -> Result<C, E>>(
    f: F,
    many: Seq<ResponseView<B>>,
    e: E,
) -> bool {
    exists|i: int|
        0 <= i < many.len() && fails(f, #[trigger] many[i], e) && forall|j: int|
            0 <= j < i ==> converts(f, #[trigger] many[j])
}

/// `f` fails with `e` on one of the payloads of the whole response, and converts those before it.
pub open spec fn any_fails<B, C, E, F: Fn(B) -> Result<C, E>>(
    f: F,
    from: ResponsesView<B>,
    e: E,
) -> bool {
    match from {
        ResponsesView::One(one) => fails(f, one, e),
        ResponsesView::Many(many) => some_fails(f, many, e),
        ResponsesView::Empty => false,
    }
}

impl<B> Error<B> {
    /// Converts the data of the error object. This fails only if the conversion does.
    pub fn try_map<C, E, F: Fn(B) -> Result<C, E>>(self, f: &F) -> (res: Result<Error<C>, E>)
        requires
            forall|b: B| call_requires(*f, (b,)),
        ensures
            match res {
                Ok(error) => error_converted(*f, self@, error@),
                Err(e) => error_fails(*f, self@, e),
            },
    {
        match self {
            Error::Full { code, message, data } => {
                let data = match data {
                    Some(ErrorData::Text(text)) => Some(ErrorData::Text(text)),
                    Some(ErrorData::Custom(b)) => match f(b) {
                        Ok(c) => Some(ErrorData::Custom(c)),
                        Err(e) => return Err(e),
                    },
                    None => None,
                };
                Ok(Error::Full { code, message, data })
            },
            Error::Provided { code, message } => Ok(Error::Provided { code, message }),
        }
    }
}

impl<B> ResponseObject<B> {
    /// Converts the payload of the response object. This fails only if the conversion does.
    pub fn try_map<C, E, F: Fn(B) -> Result<C, E>>(self, f: &F) -> (res: Result<
        ResponseObject<C>,
        E,
    >)
        requires
            forall|b: B| call_requires(*f, (b,)),
        ensures
            match res {
                Ok(response) => converted(*f, self@, response@),
                Err(e) => fails(*f, self@, e),
            },
    {
        match self {
            ResponseObject::Result { jsonrpc, result, id } => match f(result) {
                Ok(result) => Ok(ResponseObject::Result { jsonrpc, result, id }),
                Err(e) => Err(e),
            },
            ResponseObject::Error { jsonrpc, error, id } => match error.try_map(f) {
                Ok(error) => Ok(ResponseObject::Error { jsonrpc, error, id }),
                Err(e) => Err(e),
            },
        }
    }
}

impl<B> ResponseObjects<B> {
    /// Converts the payloads of the whole response. This fails only if a conversion does.
    pub fn try_map<C, E, F: Fn(B) -> Result<C, E>>(self, f: &F) -> (res: Result<
        ResponseObjects<C>,
        E,
    >)
        requires
            forall|b: B| call_requires(*f, (b,)),
        ensures
            match res {
                Ok(responses) => all_converted(*f, self@, responses@),
                Err(e) => any_fails(*f, self@, e),
            },
    {
        match self {
            ResponseObjects::One(one) => match one.try_map(f) {
                Ok(one) => Ok(ResponseObjects::One(one)),
                Err(e) => Err(e),
            },
            ResponseObjects::Many(many) => {
                let ghost all = response_views(many@);
                let mut out: Vec<ResponseObject<C>> = Vec::new();
                for one in iter: many
                    invariant
                        forall|b: B| call_requires(*f, (b,)),
                        all == response_views(iter.seq()),
                        self@ == ResponsesView::Many(all),
                        out.len() == iter.index(),
                        forall|i: int|
                            0 <= i < iter.index() ==> converted(
                                *f,
                                #[trigger] all[i],
                                out@[i]@,
                            ),
                {
                    let ghost at = iter.index();
                    assert(all[at] == one@);
                    match one.try_map(f) {
                        Ok(one) => out.push(one),
                        Err(e) => {
                            assert forall|j: int| 0 <= j < at implies converts(
                                *f,
                                #[trigger] all[j],
                            ) by {
                                assert(converted(*f, all[j], out@[j]@));
                            }
                            assert(fails(*f, all[at], e));
                            assert(some_fails(*f, all, e));
                            return Err(e);
                        },
                    }
                }
                Ok(ResponseObjects::Many(out))
            },
            ResponseObjects::Empty => Ok(ResponseObjects::Empty),
        }
    }
}

// Writing ----------------------------------------------------------------------------------------
/// The JSON text of what a handler sends back.
#[derive(Debug, PartialEq, Eq)]
pub struct JsonText(pub String);

/// The JSON text of the data of an error object.
pub open spec fn data_text(data: ErrorDataView<JsonText>) -> Seq<char> {
    match data {
        ErrorDataView::Text(text) => quoted(text),
        ErrorDataView::Custom(json) => json.0@,
    }
}

/// The members of an error object: the data only where there are any.
pub open spec fn error_members(error: ErrorView<JsonText>) -> Seq<Member> {
    let common = seq![("code"@, decimal(error.code)), ("message"@, quoted(error.message))];
    match error.data {
        Some(data) => common.push(("data"@, data_text(data))),
        None => common,
    }
}

/// The members of a response object.
pub open spec fn response_members(response: ResponseView<JsonText>) -> Seq<Member> {
    match response {
        ResponseView::Result { result, id } => seq![
            ("jsonrpc"@, quoted("2.0"@)),
            ("result"@, result.0@),
            ("id"@, id_text(id)),
        ],
        ResponseView::Error { error, id } => seq![
            ("jsonrpc"@, quoted("2.0"@)),
            ("error"@, object_text(error_members(error))),
            ("id"@, id_text(id)),
        ],
    }
}

/// The JSON text of a response object.
pub open spec fn response_text(response: ResponseView<JsonText>) -> Seq<char> {
    object_text(response_members(response))
}

/// The JSON text of a whole response.
pub open spec fn responses_text(responses: ResponsesView<JsonText>) -> Seq<char> {
    match responses {
        ResponsesView::One(one) => response_text(one),
        ResponsesView::Many(many) => array_text(many.map_values(|r| response_text(r))),
        ResponsesView::Empty => "null"@,
    }
}

impl Error<JsonText> {
    /// The JSON text of the error object.
    pub fn serialize(&self) -> (text: String)
        ensures
            text@ == object_text(error_members(self@)),
    {
        let mut members: Vec<(&str, String)> = Vec::new();
        match self {
            Error::Full { code, message, data } => {
                members.push(("code", write_i64(*code).unwrap()));
                members.push(("message", write_string(message.as_str()).unwrap()));
                match data {
                    Some(ErrorData::Text(text)) => members.push(
                        ("data", write_string(text.as_str()).unwrap()),
                    ),
                    Some(ErrorData::Custom(json)) => members.push(("data", json.0.clone())),
                    None => {},
                }
            },
            Error::Provided { code, message } => {
                members.push(("code", write_i64(*code).unwrap()));
                members.push(("message", write_string(message).unwrap()));
            },
        }
        assert(written(members@) == error_members(self@));
        write_object(&members)
    }
}

impl ResponseObject<JsonText> {
    /// The JSON text of the response object.
    pub fn serialize(&self) -> (text: String)
        ensures
            text@ == response_text(self@),
    {
        let mut members: Vec<(&str, String)> = Vec::new();
        match self {
            ResponseObject::Result { jsonrpc, result, id } => {
                members.push(("jsonrpc", jsonrpc.serialize()));
                members.push(("result", result.0.clone()));
                members.push(("id", id.serialize()));
            },
            ResponseObject::Error { jsonrpc, error, id } => {
                members.push(("jsonrpc", jsonrpc.serialize()));
                members.push(("error", error.serialize()));
                members.push(("id", id.serialize()));
            },
        }
        assert(written(members@) == response_members(self@));
        write_object(&members)
    }
}

impl ResponseObjects<JsonText> {
    /// The JSON text of the whole response.
    pub fn serialize(&self) -> (text: String)
        ensures
            text@ == responses_text(self@),
    {
        match self {
            ResponseObjects::One(one) => one.serialize(),
            ResponseObjects::Many(many) => {
                let ghost all = response_views(many@);
                let mut texts: Vec<String> = Vec::new();
                for at in 0..many.len()
                    invariant
                        texts.len() == at,
                        forall|i: int| 0 <= i < at ==> (#[trigger] texts@[i])@ == response_text(
                            many@[i]@,
                        ),
                {
                    texts.push(many[at].serialize());
                }
                assert(texts@.map_values(|t: String| t@) == all.map_values(|r| response_text(r)));
                write_array(&texts)
            },
            ResponseObjects::Empty => write_null().unwrap(),
        }
    }
}

} // verus!

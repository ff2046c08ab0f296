//! What holds of the server as a whole.

use crate::data::{
    apart, collected_pairs, data_pairs, holds, holds_type, inserted, kv_pair_type, no_pairs,
    pair_of, params_source, params_value, type_map_pairs, Data,
};
use crate::error::{Error, ErrorData, ErrorDataView, ErrorView};
use crate::http::reply_for;
use crate::id::{Id, IdView, V2};
use crate::json::{
    is_object_bytes, json_plain_string, json_string, json_value_text, value_shape, ShapeView,
};
use crate::method::arguments_in;
use crate::object::{object_members, object_text, Member};
use crate::request::{
    from_bytes_view, params_text, read_back, reply_id, request_members, request_views, ParamsView,
    RequestKind, RequestObject, RequestView,
};
use crate::response::{
    answer, batch_response, many_responses, outcome_view, response_views, single_response,
    single_views, JsonText, ManyResponseObjects, ResponseObject, ResponseObjects, ResponseView,
    ResponsesView, SingleResponseObject,
};
use crate::router::Router;
use crate::server::{
    all_dispatched, dispatched, elements, finished, handled, invalid_errors, is_written,
    reads_written, received, request_in, step_for, Call, Dispatch, Received, Server, ServerBuilder,
    Step,
};
use crate::wire::{
    raw_values, request_of_text, request_of_texts, somes, values_of, BytesRequestView, RawValues,
    RequestTexts,
};
use std::any::TypeId;
use type_map::concurrent::KvPair;
use vstd::prelude::*;
use vstd::std_specs::convert::FromSpec;
use vstd::utf8::encode_utf8;

verus! {

// One request ------------------------------------------------------------------------------------
/// The response to a request, given the methods of the server and what comes of the handler if
/// there is one.
pub open spec fn response_to<H, B>(
    routes: Map<Seq<char>, H>,
    req: RequestView,
    outcome: Result<B, ErrorView<B>>,
) -> Option<ResponseView<B>> {
    let came = if routes.contains_key(req.method) {
        outcome
    } else {
        Err(ErrorView { code: -32601, message: "Method not found"@, data: None })
    };
    match (req.id, came) {
        (None, _) => None,
        (Some(Some(id)), Ok(result)) => Some(ResponseView::Result { result, id }),
        (Some(None), Ok(result)) => Some(ResponseView::Result { result, id: IdView::Null }),
        (Some(Some(id)), Err(error)) => Some(ResponseView::Error { error, id }),
        (Some(None), Err(error)) => Some(ResponseView::Error { error, id: IdView::Null }),
    }
}

/// What a handler returns is sent back: its value as a result, its error as an error, with the id
/// of the request, whatever kind of id that is. Without an id nothing is sent back.
pub proof fn law_answer_is_what_the_handler_returned<B>(
    value: B,
    error: ErrorView<B>,
    outcome: Result<B, ErrorView<B>>,
    id: IdView,
)
    ensures
        answer(Ok(value), Some(id)) == Some(ResponseView::Result { result: value, id }),
        answer(Err(error), Some(id)) == Some(ResponseView::<B>::Error { error, id }),
        answer(outcome, None) is None,
{
}

/// A request is handed to the handler that was registered for its method, just as it is, together
/// with the data of the server. It is answered at once exactly if there is no such handler.
pub proof fn law_request_reaches_its_handler<R: Router, X, B>(
    server: Server<R, X>,
    req: RequestView,
    dispatch: Dispatch<R::Handler, B>,
)
    requires
        dispatched(server, req, dispatch),
    ensures
        dispatch is Call <==> server.router().routes().contains_key(req.method),
        dispatch matches Dispatch::Call(call) ==> {
            &&& call.handler() == server.router().routes()[req.method]
            &&& call.req()@.method == req.method
            &&& call.req()@.params == req.params
            &&& call.req()@.id == req.id
            &&& call.data() == server.data()
            &&& match (req.id, call.opt_id()) {
                (Some(Some(id)), Some(reply)) => reply == id,
                (Some(None), Some(reply)) => reply is Null,
                (None, None) => true,
                _ => false,
            }
        },
        dispatch matches Dispatch::Reply(reply) ==> match (req.id, reply@) {
            (Some(id), Some(response)) => response == (ResponseView::Error {
                error: ErrorView::<B> { code: -32601, message: "Method not found"@, data: None },
                id: match id {
                    Some(id) => id,
                    None => IdView::Null,
                },
            }),
            (None, None) => true,
            _ => false,
        },
{
}

/// The result of a handler that is run is answered with the id that goes with the call, and an
/// answer that was there at once stays as it is.
pub proof fn law_outcome_becomes_the_response<H, B>(
    call: Call<H>,
    reply: SingleResponseObject<B>,
    value: B,
    error: ErrorView<B>,
    outcome: Result<B, ErrorView<B>>,
)
    ensures
        call.opt_id() matches Some(id) ==> Dispatch::<H, B>::Call(call).response(Ok(value)) == Some(
            ResponseView::Result { result: value, id },
        ),
        call.opt_id() matches Some(id) ==> Dispatch::<H, B>::Call(call).response(Err(error))
            == Some(ResponseView::<B>::Error { error, id }),
        call.opt_id() is None ==> Dispatch::<H, B>::Call(call).response(outcome) is None,
        Dispatch::<H, B>::Reply(reply).response(outcome) == reply@,
{
}

/// The response to a request depends only on the request, on whether the server has its method, and
/// on what comes of the handler.
pub proof fn law_response<R: Router, X, B>(
    server: Server<R, X>,
    req: RequestView,
    dispatch: Dispatch<R::Handler, B>,
    outcome: Result<B, ErrorView<B>>,
)
    requires
        dispatched(server, req, dispatch),
    ensures
        dispatch.response(outcome) == response_to(server.router().routes(), req, outcome),
{
}

/// A notification is never answered, whatever its method is and whatever comes of it.
pub proof fn law_notification_is_not_answered<R: Router, X, B>(
    server: Server<R, X>,
    req: RequestView,
    dispatch: Dispatch<R::Handler, B>,
    outcome: Result<B, ErrorView<B>>,
)
    requires
        dispatched(server, req, dispatch),
        req.id is None,
    ensures
        dispatch.response(outcome) is None,
        single_response(dispatch.response(outcome)) is Empty,
{
}

/// A request with an id is always answered, with the same id; the id null counts as an id.
pub proof fn law_request_is_answered<R: Router, X, B>(
    server: Server<R, X>,
    req: RequestView,
    dispatch: Dispatch<R::Handler, B>,
    outcome: Result<B, ErrorView<B>>,
)
    requires
        dispatched(server, req, dispatch),
        req.id is Some,
    ensures
        dispatch.response(outcome) matches Some(response) && response.id() == match req.id->0 {
            Some(id) => id,
            None => IdView::Null,
        },
{
}

/// A request for a method that the server does not have is answered with "Method not found", if it
/// has an id.
pub proof fn law_unknown_method<R: Router, X, B>(
    server: Server<R, X>,
    req: RequestView,
    dispatch: Dispatch<R::Handler, B>,
    outcome: Result<B, ErrorView<B>>,
)
    requires
        dispatched(server, req, dispatch),
        !server.router().routes().contains_key(req.method),
    ensures
        dispatch is Reply,
        match (reply_id(req.id), dispatch.response(outcome)) {
            (Some(id), Some(response)) => response == (ResponseView::Error {
                error: ErrorView::<B>::method_not_found(),
                id,
            }),
            (None, None) => true,
            _ => false,
        },
{
}

/// The errors of the protocol have their codes and messages, and no data.
pub proof fn law_codes_of_the_protocol<B>(text: Seq<char>)
    ensures
        ErrorView::<B>::parse_error() == (ErrorView::<B> {
            code: -32700,
            message: "Parse error"@,
            data: None,
        }),
        ErrorView::<B>::invalid_request() == (ErrorView::<B> {
            code: -32600,
            message: "Invalid Request"@,
            data: None,
        }),
        ErrorView::<B>::method_not_found() == (ErrorView::<B> {
            code: -32601,
            message: "Method not found"@,
            data: None,
        }),
        ErrorView::<B>::invalid_params() == (ErrorView::<B> {
            code: -32602,
            message: "Invalid params"@,
            data: None,
        }),
        ErrorView::<B>::internal_error() == (ErrorView::<B> {
            code: -32603,
            message: "Internal Error"@,
            data: None,
        }),
        ErrorView::<B>::internal(text) == (ErrorView::<B> {
            code: -32603,
            message: "Internal Error"@,
            data: Some(ErrorDataView::Text(text)),
        }),
{
}

/// Errors and responses in memory stand for just what they hold.
pub proof fn law_response_values_are_shown<B>(
    code: i64,
    message: String,
    fixed: &'static str,
    text: String,
    b: B,
    data: ErrorData<B>,
    error: Error<B>,
    id: Id,
    one: ResponseObject<B>,
    many: Vec<ResponseObject<B>>,
)
    ensures
        ErrorData::<B>::Text(text)@ == ErrorDataView::<B>::Text(text@),
        ErrorData::Custom(b)@ == ErrorDataView::Custom(b),
        (Error::Full { code, message, data: Some(data) })@ == (ErrorView {
            code: code as int,
            message: message@,
            data: Some(data@),
        }),
        (Error::<B>::Full { code, message, data: None })@ == (ErrorView::<B> {
            code: code as int,
            message: message@,
            data: None,
        }),
        (Error::<B>::Provided { code, message: fixed })@ == (ErrorView::<B> {
            code: code as int,
            message: fixed@,
            data: None,
        }),
        (ResponseObject::Result { jsonrpc: V2, result: b, id })@ == (ResponseView::Result {
            result: b,
            id: id@,
        }),
        (ResponseObject::Error { jsonrpc: V2, error, id })@ == (ResponseView::Error {
            error: error@,
            id: id@,
        }),
        outcome_view(Ok::<B, Error<B>>(b)) == Ok::<B, ErrorView<B>>(b),
        outcome_view(Err::<B, Error<B>>(error)) == Err::<B, ErrorView<B>>(error@),
        SingleResponseObject::One(one)@ == Some(one@),
        SingleResponseObject::<B>::Empty@ is None,
        ResponseObjects::One(one)@ == ResponsesView::One(one@),
        ResponseObjects::<B>::Empty@ is Empty,
        ManyResponseObjects::<B>::Empty@ is Empty,
        ResponseObjects::Many(many)@ == ResponsesView::Many(response_views(many@)),
        ManyResponseObjects::Many(many)@ == ResponsesView::Many(response_views(many@)),
{
}

/// Several values in memory stand for what each of them holds, in order.
pub proof fn law_lists_are_shown<B>(
    responses: Seq<ResponseObject<B>>,
    singles: Seq<SingleResponseObject<B>>,
    reqs: Seq<RequestObject>,
)
    ensures
        response_views(responses).len() == responses.len(),
        forall|i: int|
            0 <= i < responses.len() ==> #[trigger] response_views(responses)[i] == responses[i]@,
        single_views(singles).len() == singles.len(),
        forall|i: int|
            0 <= i < singles.len() ==> #[trigger] single_views(singles)[i] == singles[i]@,
        request_views(reqs).len() == reqs.len(),
        forall|i: int| 0 <= i < reqs.len() ==> #[trigger] request_views(reqs)[i] == reqs[i]@,
{
}

/// An answer and a list of answers become the whole response that they are.
pub proof fn law_answers_become_whole_responses<B>(
    one: ResponseObject<B>,
    many: Vec<ResponseObject<B>>,
)
    ensures
        <ResponseObjects<B> as FromSpec<SingleResponseObject<B>>>::obeys_from_spec(),
        <ResponseObjects<B> as FromSpec<SingleResponseObject<B>>>::from_spec(
            SingleResponseObject::One(one),
        ) == ResponseObjects::One(one),
        <ResponseObjects<B> as FromSpec<SingleResponseObject<B>>>::from_spec(
            SingleResponseObject::Empty,
        ) is Empty,
        <ResponseObjects<B> as FromSpec<ManyResponseObjects<B>>>::obeys_from_spec(),
        <ResponseObjects<B> as FromSpec<ManyResponseObjects<B>>>::from_spec(
            ManyResponseObjects::Many(many),
        ) == ResponseObjects::Many(many),
        <ResponseObjects<B> as FromSpec<ManyResponseObjects<B>>>::from_spec(
            ManyResponseObjects::Empty,
        ) is Empty,
{
}

/// One answer is sent by itself, and no answer is sent as nothing.
pub proof fn law_single_answer_is_sent_alone<B>(response: ResponseView<B>)
    ensures
        single_response(Some(response)) == ResponsesView::One(response),
        single_response(None::<ResponseView<B>>) is Empty,
{
}

// Batches ----------------------------------------------------------------------------------------
/// The responses to several requests, given what comes of each handler.
pub open spec fn responses_of<H, B>(
    dispatches: Seq<Dispatch<H, B>>,
    outcomes: Seq<Result<B, ErrorView<B>>>,
) -> Seq<Option<ResponseView<B>>> {
    Seq::new(dispatches.len(), |i: int| dispatches[i].response(outcomes[i]))
}

/// The response objects of a whole response.
pub open spec fn response_objects<B>(responses: ResponsesView<B>) -> Seq<ResponseView<B>> {
    match responses {
        ResponsesView::One(one) => seq![one],
        ResponsesView::Many(many) => many,
        ResponsesView::Empty => Seq::empty(),
    }
}

proof fn lemma_somes_count<A>(options: Seq<Option<A>>, a: A)
    ensures
        somes(options).to_multiset().count(a) == options.to_multiset().count(Some(a)),
    decreases options.len(),
{
    broadcast use vstd::seq_lib::group_to_multiset_ensures;

    if options.len() > 0 {
        let before = options.drop_last();
        lemma_somes_count(before, a);
        assert(options == before.push(options.last()));
    }
}

proof fn lemma_somes_multiset<A>(a: Seq<Option<A>>, b: Seq<Option<A>>)
    requires
        a.to_multiset() == b.to_multiset(),
    ensures
        somes(a).to_multiset() == somes(b).to_multiset(),
{
    assert forall|x: A| somes(a).to_multiset().count(x) == somes(b).to_multiset().count(x) by {
        lemma_somes_count(a, x);
        lemma_somes_count(b, x);
    }
    assert(somes(a).to_multiset() =~= somes(b).to_multiset());
}

/// The whole response to a batch, given the responses to its valid elements in the order in which
/// they came, and the errors for the others.
pub open spec fn batch_sent<B>(
    finished: Seq<Option<ResponseView<B>>>,
    errs: Seq<ResponseView<B>>,
) -> ResponsesView<B> {
    batch_response(many_responses(somes(finished)), errs)
}

proof fn lemma_sent_objects<B>(
    finished: Seq<Option<ResponseView<B>>>,
    errs: Seq<ResponseView<B>>,
)
    ensures
        response_objects(batch_sent(finished, errs)) == somes(finished) + errs,
        response_objects(batch_sent(finished, errs)).to_multiset() == somes(
            finished,
        ).to_multiset().add(errs.to_multiset()),
{
    assert(response_objects(batch_sent(finished, errs)) =~= somes(finished) + errs);
    vstd::seq_lib::lemma_multiset_commutative(somes(finished), errs);
}

/// The answers among several responses are all those that are there, in their order.
pub proof fn law_answers_are_all_there<A>(options: Seq<Option<A>>, a: A)
    ensures
        somes(Seq::<Option<A>>::empty()) == Seq::<A>::empty(),
        somes(options.push(Some(a))) == somes(options).push(a),
        somes(options.push(None)) == somes(options),
{
    assert(options.push(Some(a)).drop_last() == options);
    assert(options.push(None).drop_last() == options);
}

/// The response to a batch is the list of the answers in the order in which they came, followed by
/// the errors; without any it is empty.
pub proof fn law_answers_come_before_errors<B>(
    finished: Seq<Option<ResponseView<B>>>,
    errs: Seq<ResponseView<B>>,
)
    ensures
        match batch_sent(finished, errs) {
            ResponsesView::One(_) => false,
            ResponsesView::Many(many) => many == somes(finished) + errs && many.len() > 0,
            ResponsesView::Empty => (somes(finished) + errs).len() == 0,
        },
        match many_responses(somes(finished)) {
            ResponsesView::One(_) => false,
            ResponsesView::Many(many) => many == somes(finished) && many.len() > 0,
            ResponsesView::Empty => somes(finished).len() == 0,
        },
{
    lemma_sent_objects(finished, errs);
}

/// Each element of a batch that is no request object is answered with "Invalid Request" and the id
/// null, and there are as many of these errors as such elements.
pub proof fn law_invalid_elements_are_answered<B>(batch: Seq<Option<RequestView>>)
    ensures
        invalid_errors::<B>(batch).len() == batch.filter(|e: Option<RequestView>| e is None).len(),
        forall|i: int|
            0 <= i < invalid_errors::<B>(batch).len() ==> #[trigger] invalid_errors::<B>(batch)[i]
                == (ResponseView::Error {
                error: ErrorView::<B> { code: -32600, message: "Invalid Request"@, data: None },
                id: IdView::Null,
            }),
{
    lemma_invalid_count(batch);
}

proof fn lemma_invalid_count(batch: Seq<Option<RequestView>>)
    ensures
        batch.filter(|e: Option<RequestView>| e is None).len() + somes(batch).len() == batch.len(),
    decreases batch.len(),
{
    reveal(Seq::filter);
    if batch.len() > 0 {
        lemma_invalid_count(batch.drop_last());
    }
}

/// The order in which the handlers of a batch finish has no bearing on which response objects are
/// sent.
pub proof fn law_order_does_not_matter<B>(
    finished: Seq<Option<ResponseView<B>>>,
    also_finished: Seq<Option<ResponseView<B>>>,
    errs: Seq<ResponseView<B>>,
)
    requires
        finished.to_multiset() == also_finished.to_multiset(),
    ensures
        response_objects(batch_sent(finished, errs)).to_multiset() == response_objects(
            batch_sent(also_finished, errs),
        ).to_multiset(),
{
    lemma_somes_multiset(finished, also_finished);
    lemma_sent_objects(finished, errs);
    lemma_sent_objects(also_finished, errs);
}

/// A response to a batch never is a list without response objects: then it is empty. Nor is it a
/// single response object, even to a batch with one element.
pub proof fn law_batch_is_never_an_empty_list<B>(
    finished: Seq<Option<ResponseView<B>>>,
    errs: Seq<ResponseView<B>>,
)
    ensures
        match batch_sent(finished, errs) {
            ResponsesView::One(_) => false,
            ResponsesView::Many(many) => many.len() > 0,
            ResponsesView::Empty => somes(finished).len() == 0 && errs.len() == 0,
        },
{
}

/// The responses to the requests `reqs`, each as it would be on its own.
pub open spec fn responses_to<H, B>(
    routes: Map<Seq<char>, H>,
    reqs: Seq<RequestView>,
    outcomes: Seq<Result<B, ErrorView<B>>>,
) -> Seq<Option<ResponseView<B>>> {
    Seq::new(reqs.len(), |i: int| response_to(routes, reqs[i], outcomes[i]))
}

/// `finished` are the responses to the valid elements of `batch`, in the order in which they came.
pub open spec fn batch_finished<R: Router, X, B>(
    server: Server<R, X>,
    batch: Seq<Option<RequestView>>,
    dispatches: Seq<Dispatch<R::Handler, B>>,
    outcomes: Seq<Result<B, ErrorView<B>>>,
    finished: Seq<Option<ResponseView<B>>>,
) -> bool {
    &&& all_dispatched(server, somes(batch), dispatches)
    &&& outcomes.len() == dispatches.len()
    &&& finished.to_multiset() == responses_of(dispatches, outcomes).to_multiset()
}

/// What is sent for a batch is what would be sent for each of its valid elements on its own, and an
/// error with the id null for each of the others, and nothing else.
pub proof fn law_batch<R: Router, X, B>(
    server: Server<R, X>,
    batch: Seq<Option<RequestView>>,
    dispatches: Seq<Dispatch<R::Handler, B>>,
    outcomes: Seq<Result<B, ErrorView<B>>>,
    finished: Seq<Option<ResponseView<B>>>,
)
    requires
        batch_finished(server, batch, dispatches, outcomes, finished),
    ensures
        response_objects(batch_sent(finished, invalid_errors::<B>(batch))).to_multiset() == somes(
            responses_to(server.router().routes(), somes(batch), outcomes),
        ).to_multiset().add(invalid_errors::<B>(batch).to_multiset()),
{
    let routes = server.router().routes();
    let expected = responses_to(routes, somes(batch), outcomes);
    assert forall|i: int| 0 <= i < expected.len() implies responses_of(dispatches, outcomes)[i]
        == #[trigger] expected[i] by {
        law_response(server, somes(batch)[i], dispatches[i], outcomes[i]);
    }
    assert(responses_of(dispatches, outcomes) =~= expected);
    lemma_somes_multiset(finished, expected);
    lemma_sent_objects(finished, invalid_errors::<B>(batch));
}

/// The number of requests with an id among `reqs`.
pub open spec fn with_id(reqs: Seq<RequestView>) -> nat
    decreases reqs.len(),
{
    if reqs.len() == 0 {
        0
    } else {
        with_id(reqs.drop_last()) + if reqs.last().id is Some {
            1nat
        } else {
            0
        }
    }
}

proof fn lemma_answered<H, B>(
    routes: Map<Seq<char>, H>,
    reqs: Seq<RequestView>,
    outcomes: Seq<Result<B, ErrorView<B>>>,
)
    ensures
        somes(responses_to(routes, reqs, outcomes)).len() == with_id(reqs),
    decreases reqs.len(),
{
    if reqs.len() > 0 {
        lemma_answered(routes, reqs.drop_last(), outcomes);
        assert(responses_to(routes, reqs, outcomes).drop_last() =~= responses_to(
            routes,
            reqs.drop_last(),
            outcomes,
        ));
    }
}

/// As many response objects are sent for a batch as it has requests with an id and elements that
/// are no request objects. So a batch of notifications gets an empty response.
pub proof fn law_batch_size<R: Router, X, B>(
    server: Server<R, X>,
    batch: Seq<Option<RequestView>>,
    dispatches: Seq<Dispatch<R::Handler, B>>,
    outcomes: Seq<Result<B, ErrorView<B>>>,
    finished: Seq<Option<ResponseView<B>>>,
)
    requires
        batch_finished(server, batch, dispatches, outcomes, finished),
    ensures
        response_objects(batch_sent(finished, invalid_errors::<B>(batch))).len() == with_id(
            somes(batch),
        ) + invalid_errors::<B>(batch).len(),
        with_id(somes(batch)) == 0 && somes(batch).len() == batch.len() ==> batch_sent(
            finished,
            invalid_errors::<B>(batch),
        ) is Empty,
{
    broadcast use vstd::seq_lib::group_to_multiset_ensures;

    let routes = server.router().routes();
    let expected = responses_to(routes, somes(batch), outcomes);
    let errs = invalid_errors::<B>(batch);
    let sent = response_objects(batch_sent(finished, errs));
    law_batch(server, batch, dispatches, outcomes, finished);
    lemma_answered(routes, somes(batch), outcomes);
    assert(sent.len() == sent.to_multiset().len());
    assert(somes(expected).len() == somes(expected).to_multiset().len());
    assert(errs.len() == errs.to_multiset().len());
    law_batch_is_never_an_empty_list(finished, errs);
}

/// A valid element of a batch gets the response that it would get on its own, whatever else is in
/// the batch.
pub proof fn law_batch_elements_are_independent<R: Router, X, B>(
    server: Server<R, X>,
    batch: Seq<Option<RequestView>>,
    dispatches: Seq<Dispatch<R::Handler, B>>,
    outcomes: Seq<Result<B, ErrorView<B>>>,
    finished: Seq<Option<ResponseView<B>>>,
    at: int,
)
    requires
        batch_finished(server, batch, dispatches, outcomes, finished),
        0 <= at < somes(batch).len(),
    ensures
        response_to(server.router().routes(), somes(batch)[at], outcomes[at]) matches Some(response)
            ==> response_objects(batch_sent(finished, invalid_errors::<B>(batch))).contains(
            response,
        ),
{
    broadcast use vstd::seq_lib::group_to_multiset_ensures;

    let routes = server.router().routes();
    let expected = responses_to(routes, somes(batch), outcomes);
    if let Some(response) = response_to(routes, somes(batch)[at], outcomes[at]) {
        law_batch(server, batch, dispatches, outcomes, finished);
        lemma_somes_count(expected, response);
        assert(expected[at] == Some(response));
        assert(expected.contains(Some(response)));
        assert(expected.to_multiset().contains(Some(response)));
        assert(somes(expected).to_multiset().count(response) > 0);
        let sent = response_objects(batch_sent(finished, invalid_errors::<B>(batch)));
        assert(sent.to_multiset().count(response) > 0);
        assert(sent.contains(response));
    }
}

// What comes in ----------------------------------------------------------------------------------
/// One error is sent at once, with the id null.
pub open spec fn answered_with_error<H, B>(step: Step<H, B>, error: ErrorView<B>) -> bool {
    step matches Step::Done(res) && res@ == ResponsesView::One(
        ResponseView::Error { error, id: IdView::Null },
    )
}

/// Bytes that hold one request object have it handled: the handler for its method is run on just
/// this method, these params and this id.
pub proof fn law_single_request_is_handled<R: Router, X, B>(
    server: Server<R, X>,
    bytes: Seq<u8>,
    text: Seq<char>,
    req: BytesRequestView,
    step: Step<R::Handler, B>,
)
    requires
        raw_values(bytes) == Some(RawValues::One(text)),
        request_of_text(text) == Some(req),
        step_for(server, received(bytes), step),
    ensures
        step matches Step::One(dispatch) && dispatched(
            server,
            RequestView {
                method: req.method,
                params: match req.params {
                    Some(t) => Some(ParamsView::Raw(t)),
                    None => None,
                },
                id: req.id,
            },
            dispatch,
        ),
{
}

/// What is done about one element of a batch is what is done about the same text on its own: the
/// same handler is run on the same method, params and id, or the same answer is given at once.
pub open spec fn same_dispatch<H, B>(a: Dispatch<H, B>, b: Dispatch<H, B>) -> bool {
    match (a, b) {
        (Dispatch::Call(a), Dispatch::Call(b)) => {
            &&& a.handler() == b.handler()
            &&& a.req()@.method == b.req()@.method
            &&& a.req()@.params == b.req()@.params
            &&& a.req()@.id == b.req()@.id
            &&& a.data() == b.data()
            &&& a.opt_id() == b.opt_id()
        },
        (Dispatch::Reply(a), Dispatch::Reply(b)) => a@ == b@,
        _ => false,
    }
}

/// The number of request objects among the first `at` texts.
pub open spec fn valid_before(texts: Seq<Seq<char>>, at: int) -> nat
    decreases at,
{
    if at <= 0 {
        0
    } else {
        valid_before(texts, at - 1) + if request_of_text(texts[at - 1]) is Some {
            1nat
        } else {
            0
        }
    }
}

proof fn lemma_rank(texts: Seq<Seq<char>>, at: int)
    requires
        0 <= at <= texts.len(),
    ensures
        somes(elements(texts).take(at)).len() == valid_before(texts, at),
    decreases at,
{
    let all = elements(texts);
    if at > 0 {
        lemma_rank(texts, at - 1);
        assert(all.take(at).drop_last() == all.take(at - 1));
        assert(all.take(at).last() == request_in(texts[at - 1]));
    } else {
        assert(all.take(0) == Seq::<Option<RequestView>>::empty());
    }
}

proof fn lemma_prefix<A>(options: Seq<Option<A>>, at: int)
    requires
        0 <= at <= options.len(),
    ensures
        somes(options.take(at)).len() <= somes(options).len(),
        forall|k: int|
            0 <= k < somes(options.take(at)).len() ==> #[trigger] somes(options)[k] == somes(
                options.take(at),
            )[k],
    decreases options.len() - at,
{
    if at == options.len() {
        assert(options.take(at) == options);
    } else {
        lemma_prefix(options, at + 1);
        assert(options.take(at + 1).drop_last() == options.take(at));
    }
}

/// A batch that is not empty has each of its request objects handled, in order, and an error for
/// each other element.
pub proof fn law_batch_is_handled<R: Router, X, B>(
    server: Server<R, X>,
    bytes: Seq<u8>,
    texts: Seq<Seq<char>>,
    step: Step<R::Handler, B>,
)
    requires
        raw_values(bytes) == Some(RawValues::Many(texts)),
        texts.len() > 0,
        step_for(server, received(bytes), step),
    ensures
        step matches Step::Many { dispatches, errs } && {
            &&& dispatches@.len() == somes(elements(texts)).len()
            &&& forall|i: int|
                0 <= i < dispatches@.len() ==> dispatched(
                    server,
                    somes(elements(texts))[i],
                    #[trigger] dispatches@[i],
                )
            &&& response_views(errs@) == invalid_errors::<B>(elements(texts))
        },
{
    if let Step::Many { dispatches, errs } = step {
        assert forall|i: int| 0 <= i < dispatches@.len() implies dispatched(
            server,
            somes(elements(texts))[i],
            #[trigger] dispatches@[i],
        ) by {
            let req = somes(elements(texts))[i];
        }
    }
}

/// Several requests are handled one by one: as many as there are, and in order.
pub proof fn law_requests_are_handled_one_by_one<R: Router, X, B>(
    server: Server<R, X>,
    reqs: Seq<RequestView>,
    dispatches: Seq<Dispatch<R::Handler, B>>,
)
    requires
        all_dispatched(server, reqs, dispatches),
    ensures
        dispatches.len() == reqs.len(),
        forall|i: int|
            0 <= i < reqs.len() ==> dispatched(server, #[trigger] reqs[i], dispatches[i]),
{
}

/// Every element of a batch that is a request object is handled as it would be if it were sent on
/// its own, and in the order of the batch. No other request is handled, and the elements that are
/// no request objects are answered with errors, one for each.
pub proof fn law_batch_is_handled_element_by_element<R: Router, X, B>(
    server: Server<R, X>,
    batch_bytes: Seq<u8>,
    texts: Seq<Seq<char>>,
    batch_step: Step<R::Handler, B>,
    at: int,
    bytes: Seq<u8>,
    step: Step<R::Handler, B>,
)
    requires
        raw_values(batch_bytes) == Some(RawValues::Many(texts)),
        step_for(server, received(batch_bytes), batch_step),
        0 <= at < texts.len(),
        raw_values(bytes) == Some(RawValues::One(texts[at])),
        step_for(server, received(bytes), step),
    ensures
        batch_step matches Step::Many { dispatches, errs } && {
            &&& dispatches@.len() == valid_before(texts, texts.len() as int)
            &&& errs@.len() == texts.len() - valid_before(texts, texts.len() as int)
            &&& match step {
                Step::One(dispatch) => {
                    &&& request_of_text(texts[at]) is Some
                    &&& valid_before(texts, at) < dispatches@.len()
                    &&& same_dispatch(dispatch, dispatches@[valid_before(texts, at) as int])
                },
                Step::Done(_) => request_of_text(texts[at]) is None,
                Step::Many { .. } => false,
            }
            &&& forall|i: int|
                0 <= i < errs@.len() ==> (#[trigger] errs@[i])@ == (ResponseView::Error {
                    error: ErrorView::<B> { code: -32600, message: "Invalid Request"@, data: None },
                    id: IdView::Null,
                })
        },
{
    let all = elements(texts);
    lemma_rank(texts, texts.len() as int);
    assert(all.take(texts.len() as int) == all);
    lemma_rank(texts, at);
    lemma_rank(texts, at + 1);
    lemma_prefix(all, at + 1);
    assert(all.take(at + 1).drop_last() == all.take(at));
    assert(all.take(at + 1).last() == request_in(texts[at]));
    lemma_invalid_count(all);
    if let Step::Many { dispatches, errs } = batch_step {
        assert(response_views(errs@) == invalid_errors::<B>(all));
        assert forall|i: int| 0 <= i < errs@.len() implies (#[trigger] errs@[i])@
            == response_views(errs@)[i] by {}
        if request_of_text(texts[at]) is Some {
            let k = valid_before(texts, at) as int;
            assert(somes(all)[k] == somes(all.take(at + 1))[k]);
            assert(somes(all)[k] == request_in(texts[at])->0);
            assert(dispatched(server, somes(all)[k], dispatches@[k]));
        }
    }
}

/// Bytes that are no JSON, a batch without elements, and a value that is no request object are
/// answered at once with one error, which has the id null.
pub proof fn law_malformed_is_answered<R: Router, X, B>(
    server: Server<R, X>,
    bytes: Seq<u8>,
    step: Step<R::Handler, B>,
)
    requires
        step_for(server, received(bytes), step),
    ensures
        match raw_values(bytes) {
            None => answered_with_error(
                step,
                ErrorView { code: -32700, message: "Parse error"@, data: None },
            ),
            Some(RawValues::Many(texts)) => texts.len() == 0 ==> answered_with_error(
                step,
                ErrorView { code: -32600, message: "Invalid Request"@, data: None },
            ),
            Some(RawValues::One(text)) => request_of_text(text) is None ==> answered_with_error(
                step,
                ErrorView { code: -32600, message: "Invalid Request"@, data: None },
            ),
        },
{
}

proof fn lemma_values_with_member(members: Seq<Member>, at: int, member: Member, name: Seq<char>)
    requires
        0 <= at <= members.len(),
        member.0 == name ==> values_of(members, name).len() == 0,
    ensures
        values_of(members.insert(at, member), name) == if member.0 == name {
            seq![member.1]
        } else {
            values_of(members, name)
        },
    decreases members.len(),
{
    let more = members.insert(at, member);
    if at == members.len() {
        assert(more.drop_last() == members);
        assert(more.last() == member);
    } else {
        assert(more.drop_last() == members.drop_last().insert(at, member));
        assert(more.last() == members.last());
        lemma_values_with_member(members.drop_last(), at, member, name);
    }
}

/// `value` spells out what the member `name` is taken for where it is absent: the version "2.0", or
/// the empty method.
pub open spec fn is_default(name: Seq<char>, value: Seq<char>) -> bool {
    ||| name == "jsonrpc"@ && json_plain_string(value) == Some("2.0"@)
    ||| name == "method"@ && json_string(value) == Some(Seq::<char>::empty())
}

/// A request object without a version, or without a method, is the same as one in which the version
/// "2.0", or the empty method, is spelled out.
pub proof fn law_absent_member_is_the_default(
    members: Seq<Member>,
    at: int,
    name: Seq<char>,
    value: Seq<char>,
    text: Seq<char>,
    text_with: Seq<char>,
)
    requires
        0 <= at <= members.len(),
        values_of(members, name).len() == 0,
        is_default(name, value),
        object_members(encode_utf8(text)) == Some(members),
        object_members(encode_utf8(text_with)) == Some(members.insert(at, (name, value))),
    ensures
        request_of_text(text_with) == request_of_text(text),
{
    reveal_strlit("jsonrpc");
    reveal_strlit("method");
    reveal_strlit("params");
    reveal_strlit("id");
    assert("jsonrpc"@.len() == 7 && "id"@.len() == 2);
    assert("method"@[0] == 'm' && "params"@[0] == 'p');
    lemma_values_with_member(members, at, (name, value), "jsonrpc"@);
    lemma_values_with_member(members, at, (name, value), "method"@);
    lemma_values_with_member(members, at, (name, value), "params"@);
    lemma_values_with_member(members, at, (name, value), "id"@);
}

/// Bytes that hold a request object without a version, or without a method, are handled like bytes
/// that hold the same with the version "2.0", or the empty method, spelled out.
pub proof fn law_absent_member_is_handled_as_the_default<R: Router, X, B>(
    server: Server<R, X>,
    members: Seq<Member>,
    at: int,
    name: Seq<char>,
    value: Seq<char>,
    text: Seq<char>,
    text_with: Seq<char>,
    bytes: Seq<u8>,
    bytes_with: Seq<u8>,
    step: Step<R::Handler, B>,
)
    requires
        0 <= at <= members.len(),
        values_of(members, name).len() == 0,
        is_default(name, value),
        object_members(encode_utf8(text)) == Some(members),
        object_members(encode_utf8(text_with)) == Some(members.insert(at, (name, value))),
        raw_values(bytes) == Some(RawValues::One(text)),
        raw_values(bytes_with) == Some(RawValues::One(text_with)),
    ensures
        received(bytes_with) == received(bytes),
        step_for(server, received(bytes_with), step) == step_for(server, received(bytes), step),
{
    law_absent_member_is_the_default(members, at, name, value, text, text_with);
}

/// A request object that is written and read back has the same method and is answered with the
/// same id. Its params have the same text, unless that is null: then there are none.
pub proof fn law_read_back_is_the_same(req: RequestView)
    ensures
        read_back(req).method == req.method,
        req.params is None ==> read_back(req).params is None,
        req.params matches Some(ParamsView::Raw(text)) ==> read_back(req).params == if text
            == "null"@ {
            None
        } else {
            Some(text)
        },
        req.params matches Some(ParamsView::Value(value)) ==> read_back(req).params
            == if json_value_text(value) == "null"@ {
            None
        } else {
            Some(json_value_text(value))
        },
        match (req.id, read_back(req).id) {
            (None, None) => true,
            (Some(None), Some(None)) => true,
            (Some(Some(id)), Some(None)) => id is Null,
            (Some(Some(id)), Some(Some(back))) => back == id && !(id is Null),
            _ => false,
        },
        from_bytes_view(read_back(req)).method == req.method,
        reply_id(from_bytes_view(read_back(req)).id) == reply_id(req.id),
        params_text(from_bytes_view(read_back(req)).params) == params_text(req.params),
{
}

/// A request object that is written and sent to the server is answered as the request object
/// itself would be.
pub proof fn law_written_request_is_answered<R: Router, X, B>(
    server: Server<R, X>,
    bytes: Seq<u8>,
    req: RequestView,
    step: Step<R::Handler, B>,
    outcome: Result<B, ErrorView<B>>,
)
    requires
        is_written(bytes, req),
        reads_written(bytes),
        step_for(server, received(bytes), step),
    ensures
        step matches Step::One(dispatch) && dispatched(
            server,
            from_bytes_view(read_back(req)),
            dispatch,
        ) && dispatch.response(outcome) == response_to(server.router().routes(), req, outcome),
        step matches Step::One(Dispatch::Call(call)) ==> {
            &&& call.req()@.method == req.method
            &&& match (req.params, call.req()@.params) {
                (None, None) => true,
                (Some(ParamsView::Raw(t)), Some(ParamsView::Raw(found))) => found == t,
                (Some(ParamsView::Raw(t)), None) => t == "null"@,
                (Some(ParamsView::Value(v)), Some(ParamsView::Raw(found))) => found
                    == json_value_text(v),
                (Some(ParamsView::Value(v)), None) => json_value_text(v) == "null"@,
                _ => false,
            }
        },
{
    law_read_back_is_the_same(req);
}

/// A request of any kind is handled: a request object by itself, several request objects one by
/// one and in order, without errors, and bytes as what they hold.
pub proof fn law_every_kind_is_handled<R: Router, X, B>(
    server: Server<R, X>,
    req: RequestObject,
    reqs: Vec<RequestObject>,
    bytes: Vec<u8>,
    step: Step<R::Handler, B>,
)
    ensures
        handled(server, RequestKind::RequestObject(req), step) ==> (step matches Step::One(dispatch)
            && dispatched(server, req@, dispatch)),
        handled(server, RequestKind::ManyRequestObjects(reqs), step) ==> (step matches Step::Many {
            dispatches,
            errs,
        } && errs@.len() == 0 && dispatches@.len() == reqs@.len() && forall|i: int|
            0 <= i < reqs@.len() ==> dispatched(
                server,
                (#[trigger] reqs@[i])@,
                dispatches@[i],
            )),
        handled(server, RequestKind::Bytes(bytes), step) ==> step_for(
            server,
            received(bytes@),
            step,
        ) && reads_written(bytes@),
{
    if handled(server, RequestKind::ManyRequestObjects(reqs), step) {
        if let Step::Many { dispatches, errs } = step {
            assert forall|i: int| 0 <= i < reqs@.len() implies dispatched(
                server,
                (#[trigger] reqs@[i])@,
                dispatches@[i],
            ) by {
                assert(request_views(reqs@)[i] == reqs@[i]@);
            }
        }
    }
}

/// What is written for a request object is recognised, and read back as that request object.
pub proof fn law_written_request_is_recognised(bytes: Seq<u8>, req: RequestView)
    ensures
        is_written(bytes, req) <==> is_object_bytes(bytes, request_members(req))
            && request_of_text(object_text(request_members(req))) == Some(read_back(req)),
        reads_written(bytes) && is_written(bytes, req) ==> received(bytes) == Received::One(
            from_bytes_view(read_back(req)),
        ),
{
}

// What the server is built with ------------------------------------------------------------------
/// A handler that is added for a method takes the place of an earlier one, and leaves the handlers
/// for the other methods alone.
pub proof fn law_last_handler_counts<H>(
    routes: Map<Seq<char>, H>,
    name: Seq<char>,
    first: H,
    second: H,
)
    ensures
        routes.insert(name, first).insert(name, second) == routes.insert(name, second),
        routes.insert(name, second)[name] == second,
        forall|other: Seq<char>|
            other != name ==> #[trigger] routes.insert(name, second).contains_key(other)
                == routes.contains_key(other) && routes.insert(name, second)[other]
                == routes[other],
{
    assert(routes.insert(name, first).insert(name, second) =~= routes.insert(name, second));
}

/// A server that is finished has just what its builder was given.
pub proof fn law_finished_server_has_everything<R, X>(
    builder: ServerBuilder<R, X>,
    server: Server<R, X>,
)
    requires
        finished(builder, server),
    ensures
        server.router() == builder.router(),
        server.extract_fns() == builder.extract_fns(),
        builder.data() matches Some(map) ==> (server.data() matches Some(arc) && *arc == map),
        builder.data() is None ==> server.data() is None,
        builder.data() matches Some(map) ==> data_pairs(server.data()) == type_map_pairs(map),
        builder.data() is None ==> data_pairs(server.data()) == Map::<TypeId, KvPair>::empty(),
{
}

/// A container that was put into the data of the server is found by a handler that asks for its
/// type, and it is the one that was put in last.
pub proof fn law_data_is_found<T: Send + Sync + 'static>(
    before: Map<TypeId, KvPair>,
    after: Map<TypeId, KvPair>,
    value: T,
    found: T,
)
    requires
        inserted(before, after, value),
    ensures
        holds_type::<T>(after),
        holds(after, found) ==> found == value,
{
    let pair = choose|pair: KvPair| #[trigger]
        pair_of(value, pair) && after == before.insert(kv_pair_type(pair), pair);
    assert(pair_of(value, pair) && after.contains_key(kv_pair_type(pair)));
}

/// A handler gets the container of its type that the server was built with last.
pub proof fn law_handler_gets_data<R: Router, X, T: Send + Sync + 'static>(
    before: Map<TypeId, KvPair>,
    data: Data<T>,
    builder: ServerBuilder<R, X>,
    server: Server<R, X>,
    req: RequestView,
    call: Call<R::Handler>,
    found: Data<T>,
)
    requires
        builder.data() is Some,
        inserted(before, type_map_pairs(builder.data()->0), data),
        finished(builder, server),
        dispatched(server, req, Dispatch::<R::Handler, ()>::Call(call)),
    ensures
        holds_type::<Data<T>>(data_pairs(call.data())),
        holds(data_pairs(call.data()), found) ==> found == data,
{
    law_data_is_found(before, type_map_pairs(builder.data()->0), data, found);
}

/// A value that is put in is not found by another type, and does not touch what is found by it.
/// Whether two types are others is told by [`are_apart`](crate::data::are_apart).
pub proof fn law_other_types_are_untouched<T: Send + Sync + 'static, U: Send + Sync + 'static>(
    before: Map<TypeId, KvPair>,
    after: Map<TypeId, KvPair>,
    value: T,
    found: U,
)
    requires
        inserted(before, after, value),
        apart::<T, U>(),
    ensures
        holds_type::<U>(after) <==> holds_type::<U>(before),
        holds(after, found) <==> holds(before, found),
{
    let pair = choose|pair: KvPair| #[trigger]
        pair_of(value, pair) && after == before.insert(kv_pair_type(pair), pair);
    assert forall|u: U, q: KvPair| #[trigger] pair_of(u, q) implies after.contains_key(
        kv_pair_type(q),
    ) == before.contains_key(kv_pair_type(q)) && (before.contains_key(kv_pair_type(q))
        ==> after[kv_pair_type(q)] == before[kv_pair_type(q)]) by {
        assert(pair_of(value, pair));
    }
    if holds_type::<U>(after) {
        let (u, q) = choose|u: U, q: KvPair| #[trigger]
            pair_of(u, q) && after.contains_key(kv_pair_type(q));
        assert(pair_of(u, q) && before.contains_key(kv_pair_type(q)));
    }
    if holds_type::<U>(before) {
        let (u, q) = choose|u: U, q: KvPair| #[trigger]
            pair_of(u, q) && before.contains_key(kv_pair_type(q));
        assert(pair_of(u, q) && after.contains_key(kv_pair_type(q)));
    }
}

/// Where nothing was put in, nothing is found. So a type that was never put in is not found:
/// putting in values of other types does not change that.
pub proof fn law_missing_data_are_not_found<T: Send + Sync + 'static>()
    ensures
        !holds_type::<T>(no_pairs()),
{
}

proof fn lemma_collected(pairs: Seq<KvPair>, at: int)
    requires
        0 <= at < pairs.len(),
        forall|later: int|
            at < later < pairs.len() ==> kv_pair_type(#[trigger] pairs[later]) != kv_pair_type(
                pairs[at],
            ),
    ensures
        collected_pairs(pairs).contains_key(kv_pair_type(pairs[at])),
        collected_pairs(pairs)[kv_pair_type(pairs[at])] == pairs[at],
    decreases pairs.len(),
{
    if at < pairs.len() - 1 {
        assert(pairs.drop_last()[at] == pairs[at]);
        assert forall|later: int| at < later < pairs.drop_last().len() implies kv_pair_type(
            #[trigger] pairs.drop_last()[later],
        ) != kv_pair_type(pairs[at]) by {
            assert(pairs.drop_last()[later] == pairs[later]);
        }
        lemma_collected(pairs.drop_last(), at);
        assert(pairs.last() == pairs[pairs.len() - 1]);
    }
}

/// A value that was extracted from an HTTP request is found by a handler that asks for its type, if
/// no value of the same type was extracted after it.
pub proof fn law_local_data_is_found<T: Send + Sync + 'static>(
    pairs: Seq<KvPair>,
    at: int,
    value: T,
    found: T,
)
    requires
        0 <= at < pairs.len(),
        pair_of(value, pairs[at]),
        forall|later: int|
            at < later < pairs.len() ==> kv_pair_type(#[trigger] pairs[later]) != kv_pair_type(
                pairs[at],
            ),
    ensures
        holds_type::<T>(collected_pairs(pairs)),
        holds(collected_pairs(pairs), found) ==> found == value,
{
    lemma_collected(pairs, at);
}

// Params -----------------------------------------------------------------------------------------
/// Params that are null are read as missing params are, whether they were set in memory or came in
/// as a text.
pub proof fn law_null_params_are_no_params(value: serde_json::Value, texts: RequestTexts)
    requires
        value_shape(value) is Null,
    ensures
        params_source(Some(ParamsView::Value(value))) == params_source(None),
        params_value(Some(ParamsView::Value(value))) == params_value(None),
        request_of_texts((RequestTexts { params: Some("null"@), ..texts })) == request_of_texts(
            (RequestTexts { params: None, ..texts }),
        ),
{
}

// What goes out ----------------------------------------------------------------------------------
/// The reply over HTTP is "No Content" exactly if there is no response, and only then its body is
/// empty.
pub proof fn law_no_content(responses: ResponsesView<JsonText>)
    ensures
        reply_for(responses).status == 204 <==> responses is Empty,
        reply_for(responses).body.len() == 0 <==> responses is Empty,
        reply_for(responses).content_type is None <==> responses is Empty,
{
}

// Arguments --------------------------------------------------------------------------------------
/// By-name params and by-position params give the same arguments, if they hold the same values.
pub proof fn law_named_or_positional(
    entries: Map<Seq<char>, serde_json::Value>,
    names: Seq<Seq<char>>,
    values: Seq<serde_json::Value>,
)
    requires
        names.len() > 0,
        names.no_duplicates(),
        names.len() == values.len(),
        forall|i: int|
            0 <= i < names.len() ==> entries.contains_key(#[trigger] names[i]) && entries[names[i]]
                == values[i],
    ensures
        arguments_in(Some(ShapeView::Object(entries)), names) == Some(values),
        arguments_in(Some(ShapeView::Array(values)), names) == Some(values),
{
    assert(names.map_values(|name: Seq<char>| entries[name]) =~= values);
}

} // verus!

//! The server: which handler a request goes to, and what is answered.
//!
//! The handlers are run outside. The server says with a [`Step`] which of them are to be run, and
//! what they return is put together with [`SingleResponseObject::from_outcome`],
//! [`ManyResponseObjects::collect`] and [`ManyResponseObjects::with_errors`].
//!
//! [`ManyResponseObjects::collect`]: crate::response::ManyResponseObjects::collect
//! [`ManyResponseObjects::with_errors`]: crate::response::ManyResponseObjects::with_errors

use crate::data::{
    arc_clone, inserted, no_pairs, type_map_insert, type_map_new, type_map_pairs, Data,
    RequestObjectWithData,
};
use crate::error::{Error, ErrorView};
use crate::id::{Id, IdView};
use crate::json::is_object_bytes;
use crate::object::object_text;
use crate::request::{
    from_bytes_view, read_back, reply_id, request_members, request_views, RequestKind,
    RequestObject, RequestView,
};
use crate::response::{
    answer, opt_id_view, response_views, ResponseObject, ResponseObjects, ResponseView,
    ResponsesView, SingleResponseObject,
};
use crate::router::{MapRouter, Router};
use crate::wire::{
    raw_values, request_of_text, somes, BytesRequestObject, OneOrManyRawValues, RawValues,
};
use std::sync::Arc;
use type_map::concurrent::TypeMap;
use vstd::prelude::*;

verus! {

/// Server/request handler. `X` are the functions that extract data from an HTTP request.
pub struct Server<R, X> {
    data: Option<Arc<TypeMap>>,
    router: R,
    extract_from_http_request_fns: Option<Vec<X>>,
}

/// Builder used to add methods to a server
///
/// Created with `Server::new` or `Server::with_router`
pub struct ServerBuilder<R, X> {
    data: Option<TypeMap>,
    router: R,
    extract_from_http_request_fns: Option<Vec<X>>,
}

impl<R, X> Server<R, X> {
    /// The data that every handler may take.
    pub closed spec fn data(&self) -> Option<Arc<TypeMap>> {
        self.data
    }

    pub closed spec fn router(&self) -> R {
        self.router
    }

    /// The functions that extract data from an HTTP request, if there are any.
    pub closed spec fn extract_fns(&self) -> Option<Vec<X>> {
        self.extract_from_http_request_fns
    }
}

impl<R, X> ServerBuilder<R, X> {
    /// The data that every handler may take.
    pub closed spec fn data(&self) -> Option<TypeMap> {
        self.data
    }

    pub closed spec fn router(&self) -> R {
        self.router
    }

    /// The functions that extract data from an HTTP request, if there are any.
    pub closed spec fn extract_fns(&self) -> Option<Vec<X>> {
        self.extract_from_http_request_fns
    }
}

impl<H, X> Server<MapRouter<H>, X> {
    pub fn new() -> (res: ServerBuilder<MapRouter<H>, X>)
        ensures
            res.router().routes() == Map::<Seq<char>, H>::empty(),
            res.data() is None,
            res.extract_fns() is None,
    {
        Server::with_router(MapRouter::default())
    }
}

impl<R: Router, X> Server<R, X> {
    pub fn with_router(router: R) -> (res: ServerBuilder<R, X>)
        ensures
            res.router() == router,
            res.data() is None,
            res.extract_fns() is None,
    {
        ServerBuilder { data: None, router, extract_from_http_request_fns: None }
    }
}

impl<R: Router, X> ServerBuilder<R, X> {
    /// Add a data/state storage container to the server
    pub fn with_data<T: Send + Sync + 'static>(self, data: Data<T>) -> (res: Self)
        ensures
            res.data() matches Some(map) && inserted(
                match self.data() {
                    Some(before) => type_map_pairs(before),
                    None => no_pairs(),
                },
                type_map_pairs(map),
                data,
            ),
            res.router() == self.router(),
            res.extract_fns() == self.extract_fns(),
    {
        let mut map = match self.data {
            Some(map) => map,
            None => type_map_new(),
        };
        let _ = type_map_insert(&mut map, data);
        ServerBuilder {
            data: Some(map),
            router: self.router,
            extract_from_http_request_fns: self.extract_from_http_request_fns,
        }
    }

    /// Add a function that extracts data from an HTTP request
    pub fn with_extract_from_http_request_fn(self, fn_: X) -> (res: Self)
        ensures
            res.extract_fns() matches Some(fns) && fns@ == (match self.extract_fns() {
                Some(before) => before@.push(fn_),
                None => seq![fn_],
            }),
            res.router() == self.router(),
            res.data() == self.data(),
    {
        let mut fns = match self.extract_from_http_request_fns {
            Some(fns) => fns,
            None => Vec::new(),
        };
        fns.push(fn_);
        ServerBuilder {
            data: self.data,
            router: self.router,
            extract_from_http_request_fns: Some(fns),
        }
    }

    /// Add a method handler to the server
    pub fn with_method<N: Into<String>>(self, name: N, handler: R::Handler) -> (res: Self)
        ensures
            exists|n: String| #[trigger]
                call_ensures(<N as Into<String>>::into, (name,), n) && res.router().routes()
                    == self.router().routes().insert(n@, handler),
            res.data() == self.data(),
            res.extract_fns() == self.extract_fns(),
    {
        let mut router = self.router;
        let n: String = name.into();
        let ghost n0 = n;
        let _ = router.insert(n, handler);
        assert(call_ensures(<N as Into<String>>::into, (name,), n0));
        ServerBuilder {
            data: self.data,
            router,
            extract_from_http_request_fns: self.extract_from_http_request_fns,
        }
    }

    /// Convert the server builder into the finished struct, wrapped in an `Arc`
    pub fn finish(self) -> (res: Arc<Server<R, X>>)
        ensures
            finished(self, *res),
    {
        Arc::new(self.finish_unwrapped())
    }

    /// Convert the server builder into the finished struct
    pub fn finish_unwrapped(self) -> (res: Server<R, X>)
        ensures
            finished(self, res),
    {
        let data = match self.data {
            Some(map) => Some(Arc::new(map)),
            None => None,
        };
        Server {
            data,
            router: self.router,
            extract_from_http_request_fns: self.extract_from_http_request_fns,
        }
    }
}

/// `server` has what `builder` has been given.
pub open spec fn finished<R, X>(builder: ServerBuilder<R, X>, server: Server<R, X>) -> bool {
    &&& server.router() == builder.router()
    &&& server.extract_fns() == builder.extract_fns()
    &&& match (builder.data(), server.data()) {
        (Some(map), Some(arc)) => *arc == map,
        (None, None) => true,
        _ => false,
    }
}

// One request ------------------------------------------------------------------------------------
/// A handler that is to be run on a request.
pub struct Call<'s, H> {
    handler: &'s H,
    req: RequestObject,
    data: Option<Arc<TypeMap>>,
    opt_id: Option<Id>,
}

impl<'s, H> Call<'s, H> {
    pub closed spec fn handler(&self) -> H {
        *self.handler
    }

    pub closed spec fn req(&self) -> RequestObject {
        self.req
    }

    /// The data of the server.
    pub closed spec fn data(&self) -> Option<Arc<TypeMap>> {
        self.data
    }

    /// The id that the answer goes back with.
    pub closed spec fn opt_id(&self) -> Option<IdView> {
        opt_id_view(self.opt_id)
    }

    /// What the handler is run on, given the data that belong to the HTTP request, and the id that
    /// the answer goes back with.
    pub fn start(self, local_data: Option<Arc<TypeMap>>) -> (res: (
        &'s H,
        RequestObjectWithData,
        Option<Id>,
    ))
        ensures
            *res.0 == self.handler(),
            res.1.inner() == self.req(),
            res.1.data() == self.data(),
            res.1.local_data() == local_data,
            opt_id_view(res.2) == self.opt_id(),
    {
        let req = RequestObjectWithData::new(self.req, self.data, local_data);
        (self.handler, req, self.opt_id)
    }
}

/// What is to be done about a request: run its handler, or answer at once.
pub enum Dispatch<'s, H, B> {
    Call(Call<'s, H>),
    Reply(SingleResponseObject<B>),
}

impl<'s, H, B> Dispatch<'s, H, B> {
    /// The answer in the end, given what comes of the handler if it is run.
    pub open spec fn response(self, outcome: Result<B, ErrorView<B>>) -> Option<ResponseView<B>> {
        match self {
            Dispatch::Call(call) => answer(outcome, call.opt_id()),
            Dispatch::Reply(reply) => reply@,
        }
    }
}

/// `dispatch` is what `server` does about the request `req`: it runs the handler for the method on
/// the request and its data, or answers that there is no such method.
pub open spec fn dispatched<R: Router, X, B>(
    server: Server<R, X>,
    req: RequestView,
    dispatch: Dispatch<R::Handler, B>,
) -> bool {
    let routes = server.router().routes();
    match dispatch {
        Dispatch::Call(call) => {
            &&& routes.contains_key(req.method)
            &&& call.handler() == routes[req.method]
            &&& call.req()@ == req
            &&& call.data() == server.data()
            &&& call.opt_id() == reply_id(req.id)
        },
        Dispatch::Reply(reply) => {
            &&& !routes.contains_key(req.method)
            &&& reply@ == answer(Err(ErrorView::<B>::method_not_found()), reply_id(req.id))
        },
    }
}

impl<R: Router, X> Server<R, X> {
    /// The functions that extract data for a request, which is none where it did not come with an
    /// HTTP request.
    pub fn extract_fns_for(&self, with_http_request: bool) -> (res: Option<&Vec<X>>)
        ensures
            match res {
                Some(fns) => with_http_request && self.extract_fns() == Some(*fns),
                None => !with_http_request || self.extract_fns() is None,
            },
    {
        match &self.extract_from_http_request_fns {
            Some(fns) => if with_http_request {
                Some(fns)
            } else {
                None
            },
            None => None,
        }
    }

    /// What is to be done about a request.
    pub fn handle_request_object<B>(&self, req: RequestObject) -> (res: Dispatch<'_, R::Handler, B>)
        ensures
            dispatched(*self, req@, res),
    {
        let data = match &self.data {
            Some(map) => Some(arc_clone(map)),
            None => None,
        };
        let opt_id = req.reply_id();
        match self.router.get(req.method_ref()) {
            Some(handler) => Dispatch::Call(Call { handler, req, data, opt_id }),
            None => Dispatch::Reply(
                SingleResponseObject::error(Error::method_not_found(), opt_id),
            ),
        }
    }
}

// Several requests -------------------------------------------------------------------------------
/// `dispatches` are what `server` does about the requests `reqs`, in the same order.
pub open spec fn all_dispatched<R: Router, X, B>(
    server: Server<R, X>,
    reqs: Seq<RequestView>,
    dispatches: Seq<Dispatch<R::Handler, B>>,
) -> bool {
    &&& dispatches.len() == reqs.len()
    &&& forall|i: int| 0 <= i < reqs.len() ==> dispatched(server, #[trigger] reqs[i], dispatches[i])
}

impl<R: Router, X> Server<R, X> {
    /// What is to be done about each of several requests.
    pub fn handle_many_request_objects<B>(&self, reqs: Vec<RequestObject>) -> (res: Vec<
        Dispatch<'_, R::Handler, B>,
    >)
        ensures
            all_dispatched(*self, request_views(reqs@), res@),
    {
        let ghost all = request_views(reqs@);
        let mut dispatches: Vec<Dispatch<'_, R::Handler, B>> = Vec::new();
        for req in iter: reqs
            invariant
                all == request_views(iter.seq()),
                dispatches.len() == iter.index(),
                forall|i: int|
                    0 <= i < iter.index() ==> dispatched(
                        *self,
                        #[trigger] all[i],
                        dispatches@[i],
                    ),
        {
            dispatches.push(self.handle_request_object(req));
        }
        dispatches
    }
}

// Bytes ------------------------------------------------------------------------------------------
/// What is to be done about everything that came in at once.
pub enum Step<'s, H, B> {
    /// Answer at once.
    Done(ResponseObjects<B>),
    /// Handle one request, and answer it by itself.
    One(Dispatch<'s, H, B>),
    /// Handle several requests, and answer with `errs` behind the answers to these.
    Many { dispatches: Vec<Dispatch<'s, H, B>>, errs: Vec<ResponseObject<B>> },
}

/// What bytes that came in hold.
pub enum Received {
    NotJson,
    EmptyBatch,
    NotRequest,
    One(RequestView),
    /// The elements of an array that is not empty, each with the request object that it is, if it
    /// is one.
    Batch(Seq<Option<RequestView>>),
}

/// The request object that a JSON text is, if it is one.
pub open spec fn request_in(text: Seq<char>) -> Option<RequestView> {
    match request_of_text(text) {
        Some(req) => Some(from_bytes_view(req)),
        None => None,
    }
}

/// The elements of a batch.
pub open spec fn elements(texts: Seq<Seq<char>>) -> Seq<Option<RequestView>> {
    texts.map_values(|text: Seq<char>| request_in(text))
}

/// What `bytes` hold.
pub open spec fn received(bytes: Seq<u8>) -> Received {
    match raw_values(bytes) {
        None => Received::NotJson,
        Some(RawValues::One(text)) => match request_in(text) {
            Some(req) => Received::One(req),
            None => Received::NotRequest,
        },
        Some(RawValues::Many(texts)) => if texts.len() == 0 {
            Received::EmptyBatch
        } else {
            Received::Batch(elements(texts))
        },
    }
}

/// An error that cannot be given back to a request and goes back with the id null.
pub open spec fn null_error<B>(error: ErrorView<B>) -> ResponseView<B> {
    ResponseView::Error { error, id: IdView::Null }
}

/// The errors for the elements of a batch that are no request objects.
pub open spec fn invalid_errors<B>(batch: Seq<Option<RequestView>>) -> Seq<ResponseView<B>> {
    Seq::new(
        (batch.len() - somes(batch).len()) as nat,
        |i: int| null_error(ErrorView::<B>::invalid_request()),
    )
}

/// `step` is what `server` does about what was received.
pub open spec fn step_for<R: Router, X, B>(
    server: Server<R, X>,
    received: Received,
    step: Step<R::Handler, B>,
) -> bool {
    match (received, step) {
        (Received::NotJson, Step::Done(res)) => res@ == ResponsesView::One(
            null_error(ErrorView::<B>::parse_error()),
        ),
        (Received::EmptyBatch, Step::Done(res)) => res@ == ResponsesView::One(
            null_error(ErrorView::<B>::invalid_request()),
        ),
        (Received::NotRequest, Step::Done(res)) => res@ == ResponsesView::One(
            null_error(ErrorView::<B>::invalid_request()),
        ),
        (Received::One(req), Step::One(dispatch)) => dispatched(server, req, dispatch),
        (Received::Batch(batch), Step::Many { dispatches, errs }) => {
            &&& all_dispatched(server, somes(batch), dispatches@)
            &&& response_views(errs@) == invalid_errors::<B>(batch)
        },
        _ => false,
    }
}

/// `bytes` are what [`RequestObject::serialize`] writes for the request object `req`.
pub open spec fn is_written(bytes: Seq<u8>, req: RequestView) -> bool {
    &&& is_object_bytes(bytes, request_members(req))
    &&& request_of_text(object_text(request_members(req))) == Some(read_back(req))
}

/// If `bytes` are what is written for a request object, that request object is read back.
pub open spec fn reads_written(bytes: Seq<u8>) -> bool {
    forall|req: RequestView| #[trigger]
        is_written(bytes, req) ==> received(bytes) == Received::One(
            from_bytes_view(read_back(req)),
        )
}

proof fn lemma_somes_len<A>(options: Seq<Option<A>>)
    ensures
        somes(options).len() <= options.len(),
    decreases options.len(),
{
    if options.len() > 0 {
        lemma_somes_len(options.drop_last());
    }
}

/// Sorts the elements of a batch into request objects and errors.
fn read_batch<'a, B>(texts: Vec<&'a str>) -> (res: (Vec<RequestObject>, Vec<ResponseObject<B>>))
    ensures
        request_views(res.0@) == somes(elements(texts@.map_values(|t: &'a str| t@))),
        response_views(res.1@) == invalid_errors::<B>(elements(texts@.map_values(|t: &'a str| t@))),
{
    let ghost all = elements(texts@.map_values(|t: &'a str| t@));
    let mut okays: Vec<RequestObject> = Vec::new();
    let mut errs: Vec<ResponseObject<B>> = Vec::new();
    assert(all.take(0) == Seq::<Option<RequestView>>::empty());
    assert(request_views(okays@) == somes(all.take(0)));
    assert(response_views(errs@) == invalid_errors::<B>(all.take(0)));
    for text in iter: texts
        invariant
            all == elements(iter.seq().map_values(|t: &'a str| t@)),
            request_views(okays@) == somes(all.take(iter.index())),
            response_views(errs@) == invalid_errors::<B>(all.take(iter.index())),
    {
        let ghost at = iter.index();
        let ghost okays0 = okays@;
        let ghost errs0 = errs@;
        proof {
            assert(all.take(at + 1).drop_last() == all.take(at));
            assert(all.take(at + 1).last() == request_in(text@));
            lemma_somes_len(all.take(at));
        }
        match BytesRequestObject::deserialize(text) {
            Ok(req) => {
                okays.push(RequestObject::from(req));
                assert(request_views(okays@) == request_views(okays0).push(okays@.last()@));
                assert(response_views(errs@) == invalid_errors::<B>(all.take(at + 1)));
            },
            Err(_) => {
                errs.push(ResponseObject::error(Error::invalid_request(), Id::Null));
                assert(response_views(errs@) == response_views(errs0).push(errs@.last()@));
                assert(response_views(errs@) == invalid_errors::<B>(all.take(at + 1)));
            },
        }
    }
    assert(all.take(all.len() as int) == all);
    (okays, errs)
}

impl<R: Router, X> Server<R, X> {
    /// What is to be done about bytes that came in.
    pub fn handle_bytes<B>(&self, bytes: &[u8]) -> (res: Step<'_, R::Handler, B>)
        ensures
            step_for(*self, received(bytes@), res),
            reads_written(bytes@),
    {
        match OneOrManyRawValues::try_from_slice(bytes) {
            Ok(OneOrManyRawValues::Many(texts)) => {
                if texts.len() == 0 {
                    return Step::Done(
                        ResponseObjects::One(
                            ResponseObject::error(Error::invalid_request(), Id::Null),
                        ),
                    );
                }
                let (okays, errs) = read_batch(texts);
                let dispatches = self.handle_many_request_objects(okays);
                Step::Many { dispatches, errs }
            },
            Ok(OneOrManyRawValues::One(text)) => match BytesRequestObject::deserialize(text) {
                Ok(req) => Step::One(self.handle_request_object(RequestObject::from(req))),
                Err(_) => Step::Done(
                    ResponseObjects::One(
                        ResponseObject::error(Error::invalid_request(), Id::Null),
                    ),
                ),
            },
            Err(_) => Step::Done(
                ResponseObjects::One(ResponseObject::error(Error::parse_error(), Id::Null)),
            ),
        }
    }
}

// Requests of any kind ---------------------------------------------------------------------------
/// `step` is what `server` does about a request of any kind.
pub open spec fn handled<R: Router, X, B>(
    server: Server<R, X>,
    kind: RequestKind,
    step: Step<R::Handler, B>,
) -> bool {
    match kind {
        RequestKind::Bytes(bytes) => step_for(server, received(bytes@), step) && reads_written(
            bytes@,
        ),
        RequestKind::RequestObject(req) => step matches Step::One(dispatch) && dispatched(
            server,
            req@,
            dispatch,
        ),
        RequestKind::ManyRequestObjects(reqs) => step matches Step::Many { dispatches, errs } && {
            &&& all_dispatched(server, request_views(reqs@), dispatches@)
            &&& errs@.len() == 0
        },
    }
}

impl<R: Router, X> Server<R, X> {
    /// Handle requests: what is to be done to return appropriate responses
    pub fn handle<I: Into<RequestKind>, B>(&self, req: I) -> (res: Step<'_, R::Handler, B>)
        ensures
            exists|kind: RequestKind| #[trigger]
                call_ensures(<I as Into<RequestKind>>::into, (req,), kind) && handled(
                    *self,
                    kind,
                    res,
                ),
    {
        let kind: RequestKind = req.into();
        assert(call_ensures(<I as Into<RequestKind>>::into, (req,), kind));
        match kind {
            RequestKind::Bytes(bytes) => self.handle_bytes(bytes.as_slice()),
            RequestKind::RequestObject(req) => Step::One(self.handle_request_object(req)),
            RequestKind::ManyRequestObjects(reqs) => Step::Many {
                dispatches: self.handle_many_request_objects(reqs),
                errs: Vec::new(),
            },
        }
    }
}

} // verus!

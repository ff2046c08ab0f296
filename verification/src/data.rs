//! What a handler can take out of a request: params, shared data, the id and the method.

use crate::error::{Error, ErrorView};
use crate::id::{Id, Method};
use crate::json::{
    json_value, json_value_again, read_value_again, read_value_text, value_is_null, value_shape,
    JsonError,
};
use crate::request::{InnerParams, ParamsView, RequestObject};
use std::any::TypeId;
use std::sync::Arc;
use type_map::concurrent::{KvPair, TypeMap};
use vstd::prelude::*;

verus! {

// Containers by type -----------------------------------------------------------------------------
/// A map that holds at most one value of each type.
#[verifier::external_type_specification]
#[verifier::external_body]
pub struct ExTypeMap(type_map::concurrent::TypeMap);

/// A value with the type it is found by.
#[verifier::external_type_specification]
#[verifier::external_body]
pub struct ExKvPair(type_map::concurrent::KvPair);

/// What a type is told from others by.
#[verifier::external_type_specification]
#[verifier::external_body]
pub struct ExTypeId(std::any::TypeId);

/// The values that a type map holds, each under its type.
pub uninterp spec fn type_map_pairs(map: TypeMap) -> Map<TypeId, KvPair>;

/// The type that a pair is found by.
pub uninterp spec fn kv_pair_type(pair: KvPair) -> TypeId;

/// The contents of a type map that holds nothing.
pub open spec fn no_pairs() -> Map<TypeId, KvPair> {
    Map::empty()
}

/// Calls `TypeMap::new`: the map holds nothing.
#[verifier::external_body]
pub(crate) fn type_map_new() -> (map: TypeMap)
    ensures
        type_map_pairs(map) == no_pairs(),
{
    TypeMap::new()
}

/// Calls `TypeMap::insert_kv_pair`: the pair takes the place of one of the same type, which is
/// returned, and nothing else changes.
#[verifier::external_body]
pub(crate) fn type_map_insert_kv_pair(map: &mut TypeMap, pair: KvPair) -> (old_pair: Option<KvPair>)
    ensures
        type_map_pairs(*final(map)) == type_map_pairs(*old(map)).insert(kv_pair_type(pair), pair),
        old_pair is Some <==> type_map_pairs(*old(map)).contains_key(kv_pair_type(pair)),
        old_pair matches Some(p) ==> p == type_map_pairs(*old(map))[kv_pair_type(pair)],
{
    map.insert_kv_pair(pair)
}

/// `KvPair::new`, of which [`pair_of`] speaks.
pub assume_specification<T: 'static + Send + Sync>[ type_map::concurrent::KvPair::new::<T> ](
    value: T,
) -> (pair: KvPair)
;

/// `pair` is what `KvPair::new` makes of `value`: the value, to be found by the type `T`.
pub open spec fn pair_of<T: 'static + Send + Sync>(value: T, pair: KvPair) -> bool {
    call_ensures(type_map::concurrent::KvPair::new::<T>, (value,), pair)
}

/// `pairs` hold a value of type `T`.
pub open spec fn holds_type<T: 'static + Send + Sync>(pairs: Map<TypeId, KvPair>) -> bool {
    exists|value: T, pair: KvPair| #[trigger]
        pair_of(value, pair) && pairs.contains_key(kv_pair_type(pair))
}

/// `after` holds the pair made of `value` in place of one of the same type, if `before` held one,
/// and otherwise what `before` held.
pub open spec fn inserted<T: 'static + Send + Sync>(
    before: Map<TypeId, KvPair>,
    after: Map<TypeId, KvPair>,
    value: T,
) -> bool {
    exists|pair: KvPair| #[trigger]
        pair_of(value, pair) && after == before.insert(kv_pair_type(pair), pair)
}

/// `found` is the one value of type `T` that `pairs` hold: the pair that is held under this type is
/// made of `found`, and of no other value of type `T`.
pub open spec fn holds<T: 'static + Send + Sync>(pairs: Map<TypeId, KvPair>, found: T) -> bool {
    &&& holds_type::<T>(pairs)
    &&& forall|value: T, pair: KvPair| #[trigger]
        pair_of(value, pair) ==> {
            &&& pairs.contains_key(kv_pair_type(pair))
            &&& pair_of(found, pairs[kv_pair_type(pair)])
            &&& pairs[kv_pair_type(pair)] == pair ==> value == found
        }
}

/// Calls `TypeMap::insert`: the pair that `KvPair::new` would make of the value takes the place of
/// one of the same type, and nothing else changes. It returns a value if there was one.
#[verifier::external_body]
pub(crate) fn type_map_insert<T: Send + Sync + 'static>(map: &mut TypeMap, val: T) -> (old_val:
    Option<T>)
    ensures
        inserted(type_map_pairs(*old(map)), type_map_pairs(*final(map)), val),
        old_val is Some <==> holds_type::<T>(type_map_pairs(*old(map))),
{
    map.insert(val)
}

/// Calls `TypeMap::get`: a value is found exactly if the map holds one of type `T`, and it is that
/// value.
#[verifier::external_body]
pub(crate) fn type_map_get<'a, T: Send + Sync + 'static>(map: &'a TypeMap) -> (res: Option<&'a T>)
    ensures
        res is Some <==> holds_type::<T>(type_map_pairs(*map)),
        res matches Some(found) ==> holds(type_map_pairs(*map), *found),
{
    map.get::<T>()
}

/// Values of the types `T` and `U` are never found by the same type: these are different types.
pub open spec fn apart<T: Send + Sync + 'static, U: Send + Sync + 'static>() -> bool {
    forall|t: T, u: U, p: KvPair, q: KvPair|
        #![trigger pair_of(t, p), pair_of(u, q)]
        pair_of(t, p) && pair_of(u, q) ==> kv_pair_type(p) != kv_pair_type(q)
}

/// Calls `TypeId::of`: the pair that `KvPair::new` makes of a value of type `T` is found by this
/// type.
#[verifier::external_body]
fn type_id_of<T: Send + Sync + 'static>() -> (id: TypeId)
    ensures
        forall|value: T, pair: KvPair| #[trigger] pair_of(value, pair) ==> kv_pair_type(pair) == id,
{
    TypeId::of::<T>()
}

/// Calls `==` on two `TypeId`s.
#[verifier::external_body]
fn same_type_id(a: TypeId, b: TypeId) -> (res: bool)
    ensures
        res == (a == b),
{
    a == b
}

/// Whether values of the types `T` and `U` are kept apart.
pub fn are_apart<T: Send + Sync + 'static, U: Send + Sync + 'static>() -> (res: bool)
    ensures
        res ==> apart::<T, U>(),
        !res ==> forall|t: T, u: U, p: KvPair, q: KvPair|
            #![trigger pair_of(t, p), pair_of(u, q)]
            pair_of(t, p) && pair_of(u, q) ==> kv_pair_type(p) == kv_pair_type(q),
{
    !same_type_id(type_id_of::<T>(), type_id_of::<U>())
}

/// Calls `Arc::clone`: the clone points to the same value.
#[verifier::external_body]
pub(crate) fn arc_clone<T>(arc: &Arc<T>) -> (res: Arc<T>)
    ensures
        res == *arc,
{
    Arc::clone(arc)
}

/// Puts a pair into a map for each of `pairs`: of two pairs of the same type the later one stays.
pub open spec fn collected_pairs(pairs: Seq<KvPair>) -> Map<TypeId, KvPair>
    decreases pairs.len(),
{
    if pairs.len() == 0 {
        no_pairs()
    } else {
        collected_pairs(pairs.drop_last()).insert(kv_pair_type(pairs.last()), pairs.last())
    }
}

/// The pair that a value extracted from an HTTP request is kept as.
pub fn local_data_pair<U: Send + Sync + 'static>(value: U) -> (pair: KvPair)
    ensures
        exists|arc: Arc<U>| *arc == value && #[trigger] pair_of(arc, pair),
{
    let arc = Arc::new(value);
    let pair = KvPair::new(arc);
    assert(pair_of(arc, pair));
    pair
}

/// Makes the data that belong to one HTTP request out of what the extraction functions returned.
/// If one of them failed, there are no such data.
pub fn collect_local_data<B>(extracted: Result<Vec<KvPair>, Error<B>>) -> (res: Option<
    Arc<TypeMap>,
>)
    ensures
        res is Some <==> extracted is Ok,
        extracted matches Ok(pairs) ==> type_map_pairs(*res->0) == collected_pairs(pairs@),
{
    match extracted {
        Ok(pairs) => {
            let ghost all = pairs@;
            let mut map = type_map_new();
            assert(all.take(0) == Seq::<KvPair>::empty());
            for pair in iter: pairs
                invariant
                    all == iter.seq(),
                    type_map_pairs(map) == collected_pairs(all.take(iter.index())),
            {
                let ghost at = iter.index();
                assert(all.take(at + 1).drop_last() == all.take(at));
                let _ = type_map_insert_kv_pair(&mut map, pair);
            }
            assert(all.take(all.len() as int) == all);
            Some(Arc::new(map))
        },
        Err(_) => None,
    }
}

// Requests with their data -----------------------------------------------------------------------
/// A request object together with the data that its handler may take.
pub struct RequestObjectWithData {
    inner: RequestObject,
    data: Option<Arc<TypeMap>>,
    http_request_local_data: Option<Arc<TypeMap>>,
}

impl RequestObjectWithData {
    pub closed spec fn inner(&self) -> RequestObject {
        self.inner
    }

    pub closed spec fn data(&self) -> Option<Arc<TypeMap>> {
        self.data
    }

    pub closed spec fn local_data(&self) -> Option<Arc<TypeMap>> {
        self.http_request_local_data
    }

    pub fn new(
        inner: RequestObject,
        data: Option<Arc<TypeMap>>,
        http_request_local_data: Option<Arc<TypeMap>>,
    ) -> (res: Self)
        ensures
            res.inner() == inner,
            res.data() == data,
            res.local_data() == http_request_local_data,
    {
        RequestObjectWithData { inner, data, http_request_local_data }
    }

    pub fn request_object(&self) -> (res: &RequestObject)
        ensures
            *res == self.inner(),
    {
        &self.inner
    }
}

/// The pairs among optional data.
pub open spec fn data_pairs(data: Option<Arc<TypeMap>>) -> Map<TypeId, KvPair> {
    match data {
        Some(map) => type_map_pairs(*map),
        None => no_pairs(),
    }
}

/// `error` says that no value of a type was found, and names the type.
pub open spec fn missing_data<B>(error: ErrorView<B>, name: Seq<char>) -> bool {
    error == ErrorView::<B>::internal("Missing data for: `"@ + name + "`"@)
}

/// The error for a value that was not found.
fn missing_data_error<B>(name: &str) -> (res: Error<B>)
    ensures
        missing_data(res@, name@),
{
    let mut text = String::new();
    text.append("Missing data for: `");
    text.append(name);
    text.append("`");
    assert(text@ == "Missing data for: `"@ + name@ + "`"@);
    Error::internal_text(text)
}

/// Data/state storage container
pub struct Data<T>(pub Arc<T>);

impl<T> Data<T> {
    pub fn new(t: T) -> (res: Self)
        ensures
            *res.0 == t,
    {
        Data(Arc::new(t))
    }

    /// The container that was looked up under the type with the given name, or the error for a
    /// container that was not found.
    pub fn from_lookup<B>(found: Option<&Data<T>>, name: &str) -> (res: Result<Self, Error<B>>)
        ensures
            match (found, res) {
                (Some(data), Ok(out)) => out == *data,
                (None, Err(e)) => missing_data(e@, name@),
                _ => false,
            },
    {
        match found {
            Some(data) => Ok(Data(arc_clone(&data.0))),
            None => Err(missing_data_error(name)),
        }
    }
}

impl<T: Send + Sync + 'static> Data<T> {
    /// Takes the container out of the data of the server. The name is that of the type `T`.
    pub fn from_request<B>(req: &RequestObjectWithData, name: &str) -> (res: Result<Self, Error<B>>)
        ensures
            match res {
                Ok(out) => holds(data_pairs(req.data()), out),
                Err(e) => !holds_type::<Data<T>>(data_pairs(req.data())) && missing_data(e@, name@),
            },
    {
        let found = match &req.data {
            Some(map) => type_map_get::<Data<T>>(map),
            None => None,
        };
        Data::from_lookup(found, name)
    }
}

impl<T> std::ops::Deref for Data<T> {
    type Target = T;

    fn deref(&self) -> (res: &T)
        ensures
            *res == *self.0,
    {
        &*self.0
    }
}

/// Data/state storage container
pub struct HttpRequestLocalData<T>(pub Arc<T>);

impl<T> HttpRequestLocalData<T> {
    /// The value that was looked up under the type with the given name, or the error for a value
    /// that was not found.
    pub fn from_lookup<B>(found: Option<&Arc<T>>, name: &str) -> (res: Result<Self, Error<B>>)
        ensures
            match (found, res) {
                (Some(value), Ok(out)) => out.0 == *value,
                (None, Err(e)) => missing_data(e@, name@),
                _ => false,
            },
    {
        match found {
            Some(value) => Ok(HttpRequestLocalData(arc_clone(value))),
            None => Err(missing_data_error(name)),
        }
    }
}

impl<T: Send + Sync + 'static> HttpRequestLocalData<T> {
    /// Takes the value out of the data that belong to the HTTP request. The name is that of the
    /// type `T`.
    pub fn from_request<B>(req: &RequestObjectWithData, name: &str) -> (res: Result<Self, Error<B>>)
        ensures
            match res {
                Ok(out) => holds(data_pairs(req.local_data()), out.0),
                Err(e) => !holds_type::<Arc<T>>(data_pairs(req.local_data())) && missing_data(
                    e@,
                    name@,
                ),
            },
    {
        let found = match &req.http_request_local_data {
            Some(map) => type_map_get::<Arc<T>>(map),
            None => None,
        };
        HttpRequestLocalData::from_lookup(found, name)
    }
}

impl<T> std::ops::Deref for HttpRequestLocalData<T> {
    type Target = T;

    fn deref(&self) -> (res: &T)
        ensures
            *res == *self.0,
    {
        &*self.0
    }
}

// Params, id and method --------------------------------------------------------------------------
/// What the params of a request are to be read from.
pub enum ParamsSource<'a> {
    /// The text of a JSON value.
    Text(&'a str),
    /// A JSON value in memory, which is not null.
    Value(&'a serde_json::Value),
    /// There are no params, or they are null: what is read is the JSON value null.
    Null,
}

impl<'a> View for ParamsSource<'a> {
    type V = Option<ParamsView>;

    open spec fn view(&self) -> Option<ParamsView> {
        match *self {
            ParamsSource::Text(text) => Some(ParamsView::Raw(text@)),
            ParamsSource::Value(value) => Some(ParamsView::Value(*value)),
            ParamsSource::Null => None,
        }
    }
}

/// What params are to be read from. Null stands for no params.
pub open spec fn params_source(params: Option<ParamsView>) -> Option<ParamsView> {
    if params matches Some(ParamsView::Value(value)) && value_shape(value) is Null {
        None
    } else {
        params
    }
}

/// Wrapper for request params
///
/// Use a tuple to deserialize by-position params
/// and a map or deserializable struct for by-name params.
pub struct Params<T>(pub T);

impl<T> Params<T> {
    /// What the params of the request are to be read from.
    pub fn source<'a>(req: &'a RequestObject) -> (res: ParamsSource<'a>)
        ensures
            res@ == params_source(req@.params),
    {
        match req.params_ref() {
            Some(InnerParams::Raw(text)) => ParamsSource::Text(text.as_str()),
            Some(InnerParams::Value(value)) => if value_is_null(value) {
                ParamsSource::Null
            } else {
                ParamsSource::Value(value)
            },
            None => ParamsSource::Null,
        }
    }

    /// The params, where they could be read as what the handler takes.
    pub fn from_result<B>(read: Result<T, JsonError>) -> (res: Result<Self, Error<B>>)
        ensures
            match (read, res) {
                (Ok(t), Ok(params)) => params.0 == t,
                (Err(_), Err(e)) => e@ == ErrorView::<B>::invalid_params(),
                _ => false,
            },
    {
        match read {
            Ok(t) => Ok(Params(t)),
            Err(_) => Err(Error::invalid_params()),
        }
    }
}

/// The JSON value that the params of a request are, or `None` inside for null and for no params.
pub open spec fn params_value(params: Option<ParamsView>) -> Option<Option<serde_json::Value>> {
    match params_source(params) {
        Some(ParamsView::Raw(text)) => json_value(text),
        Some(ParamsView::Value(value)) => json_value_again(value),
        None => Some(None),
    }
}

impl Params<Option<serde_json::Value>> {
    /// Reads the params of a request as a JSON value of any kind.
    pub fn from_request_object<B>(req: &RequestObject) -> (res: Result<Self, Error<B>>)
        ensures
            match (params_value(req@.params), res) {
                (Some(value), Ok(params)) => params.0 == value,
                (None, Err(e)) => e@ == ErrorView::<B>::invalid_params(),
                _ => false,
            },
    {
        let read = match Params::<Option<serde_json::Value>>::source(req) {
            ParamsSource::Text(text) => read_value_text(text),
            ParamsSource::Value(value) => read_value_again(value),
            ParamsSource::Null => Ok(None),
        };
        Params::from_result(read)
    }
}

impl Id {
    /// Takes the id out of a request. This fails without an id, and with one that was read as null.
    pub fn from_request<B>(req: &RequestObjectWithData) -> (res: Result<Id, Error<B>>)
        ensures
            match (req.inner()@.id, res) {
                (Some(Some(id)), Ok(out)) => out@ == id,
                (Some(Some(_)), Err(_)) => false,
                (_, Err(e)) => e@ == ErrorView::<B>::internal("No `id` provided"@),
                (_, Ok(_)) => false,
            },
    {
        match req.inner.id_ref() {
            Some(id) => Ok(id.clone()),
            None => Err(Error::internal_text("No `id` provided".to_string())),
        }
    }
}

impl Method {
    /// Takes the method out of a request.
    pub fn from_request<B>(req: &RequestObjectWithData) -> (res: Result<Method, Error<B>>)
        ensures
            res matches Ok(method) && method@ == req.inner()@.method,
    {
        Ok(Method::new(req.inner.method_ref().to_string()))
    }
}

// Several at once --------------------------------------------------------------------------------
/// Makes an extraction optional: it does not fail any more.
pub fn optional<T, E>(res: Result<T, E>) -> (out: Result<Option<T>, E>)
    ensures
        out == Ok::<Option<T>, E>(res.ok()),
{
    Ok(res.ok())
}

/// The results of two extractions together: the first error in their order counts.
pub open spec fn both<T1, T2, E>(r1: Result<T1, E>, r2: Result<T2, E>) -> Result<(T1, T2), E> {
    match (r1, r2) {
        (Ok(t1), Ok(t2)) => Ok((t1, t2)),
        (Ok(_), Err(e)) => Err(e),
        (Err(e), _) => Err(e),
    }
}

/// Joins the result of one extraction.
pub fn join1<T1, E>(r1: Result<T1, E>) -> (res: Result<(T1,), E>)
    ensures
        res == (match r1 {
            Ok(t1) => Ok::<(T1,), E>((t1,)),
            Err(e) => Err(e),
        }),
{
    match r1 {
        Ok(t1) => Ok((t1,)),
        Err(e) => Err(e),
    }
}

/// Joins the results of two extractions.
pub fn join2<T1, T2, E>(r1: Result<T1, E>, r2: Result<T2, E>) -> (res: Result<(T1, T2), E>)
    ensures
        res == both(r1, r2),
{
    match r1 {
        Ok(t1) => match r2 {
            Ok(t2) => Ok((t1, t2)),
            Err(e) => Err(e),
        },
        Err(e) => Err(e),
    }
}

/// Joins the results of three extractions.
pub fn join3<T1, T2, T3, E>(r1: Result<T1, E>, r2: Result<T2, E>, r3: Result<T3, E>) -> (res:
    Result<(T1, T2, T3), E>)
    ensures
        match (both(both(r1, r2), r3), res) {
            (Ok(((t1, t2), t3)), Ok(out)) => out == (t1, t2, t3),
            (Err(e), Err(out)) => out == e,
            _ => false,
        },
{
    match join2(join2(r1, r2), r3) {
        Ok(((t1, t2), t3)) => Ok((t1, t2, t3)),
        Err(e) => Err(e),
    }
}

/// Joins the results of four extractions.
pub fn join4<T1, T2, T3, T4, E>(
    r1: Result<T1, E>,
    r2: Result<T2, E>,
    r3: Result<T3, E>,
    r4: Result<T4, E>,
) -> (res: Result<(T1, T2, T3, T4), E>)
    ensures
        match (both(both(both(r1, r2), r3), r4), res) {
            (Ok((((t1, t2), t3), t4)), Ok(out)) => out == (t1, t2, t3, t4),
            (Err(e), Err(out)) => out == e,
            _ => false,
        },
{
    match join2(join2(join2(r1, r2), r3), r4) {
        Ok((((t1, t2), t3), t4)) => Ok((t1, t2, t3, t4)),
        Err(e) => Err(e),
    }
}

/// Joins the results of five extractions.
pub fn join5<T1, T2, T3, T4, T5, E>(
    r1: Result<T1, E>,
    r2: Result<T2, E>,
    r3: Result<T3, E>,
    r4: Result<T4, E>,
    r5: Result<T5, E>,
) -> (res: Result<(T1, T2, T3, T4, T5), E>)
    ensures
        match (both(both(both(both(r1, r2), r3), r4), r5), res) {
            (Ok(((((t1, t2), t3), t4), t5)), Ok(out)) => out == (t1, t2, t3, t4, t5),
            (Err(e), Err(out)) => out == e,
            _ => false,
        },
{
    match join2(join2(join2(join2(r1, r2), r3), r4), r5) {
        Ok(((((t1, t2), t3), t4), t5)) => Ok((t1, t2, t3, t4, t5)),
        Err(e) => Err(e),
    }
}

} // verus!

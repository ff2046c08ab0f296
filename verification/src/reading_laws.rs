//! What holds of how requests are read.

use crate::data::{params_source, params_value, ParamsSource};
use crate::id::{id_of_text, Id, IdView};
use crate::json::{
    json_array, json_i64, json_plain_string, json_prefix, json_single, json_string, json_value,
    json_value_again, value_shape,
};
use crate::object::{
    after_mark, drop_space, member_and_rest, members_and_rest, object_members, value_and_rest,
    Member,
};
use crate::request::{
    built_params, from_bytes_view, params_view, reply_id, InnerParams, ParamsView, RequestKind,
    RequestObject, RequestView,
};
use crate::response::opt_id_view;
use crate::server::{elements, request_in};
use crate::wire::{
    raw_values, request_id_view, request_of_text, request_of_texts, texts_of_elements,
    texts_of_members, texts_of_text, values_of, BytesRequestView, OneOrManyRawValues, RawValues,
    RequestTexts,
};
use vstd::prelude::*;
use vstd::std_specs::convert::FromSpec;
use vstd::utf8::encode_utf8;

verus! {

// White space ------------------------------------------------------------------------------------
/// `byte` is a space, a line feed, a carriage return or a tab.
pub open spec fn is_white(byte: u8) -> bool {
    byte == 0x20 || byte == 0x0a || byte == 0x0d || byte == 0x09
}

/// `bytes` are spaces, line feeds, carriage returns and tabs.
pub open spec fn all_white(bytes: Seq<u8>) -> bool {
    forall|i: int| 0 <= i < bytes.len() ==> is_white(#[trigger] bytes[i])
}

/// `bytes` do not begin with white space.
pub open spec fn begins_black(bytes: Seq<u8>) -> bool {
    bytes.len() == 0 || !is_white(bytes[0])
}

/// White space before anything else is skipped, whatever it consists of, and nothing but white
/// space is.
pub proof fn law_white_space_is_skipped(space: Seq<u8>, bytes: Seq<u8>)
    requires
        all_white(space),
    ensures
        drop_space(space + bytes) == drop_space(bytes),
        begins_black(bytes) ==> drop_space(space + bytes) == bytes,
    decreases space.len(),
{
    if space.len() == 0 {
        assert(space + bytes == bytes);
    } else {
        assert((space + bytes).drop_first() == space.drop_first() + bytes);
        assert((space + bytes)[0] == space[0]);
        assert forall|i: int| 0 <= i < space.drop_first().len() implies is_white(
            #[trigger] space.drop_first()[i],
        ) by {
            assert(space.drop_first()[i] == space[i + 1]);
        }
        law_white_space_is_skipped(space.drop_first(), bytes);
    }
}

/// A mark is found behind any white space, and what follows it is found behind it.
pub proof fn law_white_space_before_a_mark(space: Seq<u8>, bytes: Seq<u8>, mark: u8)
    requires
        all_white(space),
        begins_black(bytes),
        !is_white(mark),
    ensures
        after_mark(space + bytes, mark) == if bytes.len() > 0 && bytes[0] == mark {
            Some(bytes.drop_first())
        } else {
            None
        },
{
    law_white_space_is_skipped(space, bytes);
}

/// White space before an object does not matter.
pub proof fn law_white_space_before_an_object(space: Seq<u8>, bytes: Seq<u8>)
    requires
        all_white(space),
    ensures
        object_members(space + bytes) == object_members(bytes),
{
    law_white_space_is_skipped(space, bytes);
}

/// White space between the name of a member and the colon does not matter.
pub proof fn law_white_space_before_a_colon(
    space: Seq<u8>,
    name: Seq<char>,
    rest: Seq<u8>,
    bytes: Seq<u8>,
    spaced: Seq<u8>,
)
    requires
        all_white(space),
        value_and_rest(bytes) == Some((name, rest)),
        value_and_rest(spaced) == Some((name, space + rest)),
    ensures
        member_and_rest(spaced) == member_and_rest(bytes),
{
    law_white_space_is_skipped(space, rest);
}

/// White space between a member and the comma or the brace behind it does not matter.
pub proof fn law_white_space_before_a_comma_or_brace(
    space: Seq<u8>,
    member: Member,
    rest: Seq<u8>,
    bytes: Seq<u8>,
    spaced: Seq<u8>,
)
    requires
        all_white(space),
        member_and_rest(bytes) == Some((member, rest)),
        member_and_rest(spaced) == Some((member, space + rest)),
    ensures
        members_and_rest(spaced) == members_and_rest(bytes),
{
    law_white_space_is_skipped(space, rest);
}

/// Behind an object only white space may follow, and it does not matter which. Nor does white space
/// behind the opening brace, or in an object without members.
pub proof fn law_white_space_within_and_behind_an_object(
    space: Seq<u8>,
    more_space: Seq<u8>,
    core: Seq<u8>,
)
    requires
        all_white(space),
        all_white(more_space),
        core.len() > 0,
        !is_white(core[0]),
        core[0] != 0x7d,
    ensures
        object_members(seq![0x7bu8] + (space + core)) == match members_and_rest(space + core) {
            Some((members, rest)) => if all_white(rest) {
                Some(members)
            } else {
                None
            },
            None => None,
        },
        object_members(seq![0x7bu8] + (space + (seq![0x7du8] + more_space))) == Some(
            Seq::<Member>::empty(),
        ),
{
    let none = Seq::<u8>::empty();
    let inner = space + core;
    let bytes = seq![0x7bu8] + inner;
    assert(bytes.drop_first() == inner);
    assert(drop_space(bytes) == bytes);
    law_white_space_is_skipped(space, core);
    if let Some((members, rest)) = members_and_rest(inner) {
        lemma_rest(rest);
    }
    let close = seq![0x7du8] + more_space;
    let empty = seq![0x7bu8] + (space + close);
    assert(empty.drop_first() == space + close);
    assert(drop_space(empty) == empty);
    law_white_space_is_skipped(space, close);
    assert(close.drop_first() == more_space);
    law_white_space_is_skipped(more_space, none);
    assert(more_space + none == more_space);
}

proof fn lemma_rest(rest: Seq<u8>)
    ensures
        drop_space(rest).len() == 0 <==> all_white(rest),
    decreases rest.len(),
{
    if rest.len() > 0 {
        lemma_rest(rest.drop_first());
        if all_white(rest.drop_first()) && is_white(rest[0]) {
            assert forall|i: int| 0 <= i < rest.len() implies is_white(#[trigger] rest[i]) by {
                if i > 0 {
                    assert(rest.drop_first()[i - 1] == rest[i]);
                }
            }
        }
        if all_white(rest) {
            assert forall|i: int| 0 <= i < rest.drop_first().len() implies is_white(
                #[trigger] rest.drop_first()[i],
            ) by {
                assert(rest.drop_first()[i] == rest[i + 1]);
            }
        }
    }
}

// Objects ----------------------------------------------------------------------------------------
/// A value is what `serde_json` reads at the start of the bytes, and what follows is all the rest.
pub proof fn law_value_is_taken_whole(
    bytes: Seq<u8>,
    text: Seq<char>,
    taken: Seq<u8>,
    rest: Seq<u8>,
)
    requires
        bytes == taken + rest,
        taken.len() > 0,
        json_prefix(bytes) == Some((text, taken.len() as int)),
    ensures
        value_and_rest(bytes) == Some((text, rest)),
{
    assert(bytes.skip(taken.len() as int) == rest);
}

/// A member is a string, a colon and a value: its name is the string, and its value is kept as it
/// stands there.
pub proof fn law_member_is_name_and_value(
    bytes: Seq<u8>,
    key: Seq<char>,
    name: Seq<char>,
    behind_colon: Seq<u8>,
    value: Seq<char>,
    rest: Seq<u8>,
)
    requires
        value_and_rest(bytes) == Some((key, seq![0x3au8] + behind_colon)),
        value_and_rest(behind_colon) == Some((value, rest)),
    ensures
        member_and_rest(bytes) == match json_string(key) {
            Some(name) => Some(((name, value), rest)),
            None => None,
        },
{
    let behind_key = seq![0x3au8] + behind_colon;
    assert(drop_space(behind_key) == behind_key);
    assert(behind_key.drop_first() == behind_colon);
}

/// There is no member without a value, without a string before a colon, or without a value behind
/// it; and there are no members where there is none.
pub proof fn law_member_is_refused(bytes: Seq<u8>, key: Seq<char>, behind_key: Seq<u8>)
    requires
        begins_black(behind_key),
    ensures
        json_prefix(bytes) is None ==> value_and_rest(bytes) is None,
        value_and_rest(bytes) is None ==> member_and_rest(bytes) is None,
        value_and_rest(bytes) == Some((key, behind_key)) && json_string(key) is None
            ==> member_and_rest(bytes) is None,
        value_and_rest(bytes) == Some((key, behind_key)) && (behind_key.len() == 0 || behind_key[0]
            != 0x3a) ==> member_and_rest(bytes) is None,
        value_and_rest(bytes) == Some((key, behind_key)) && behind_key.len() > 0
            && value_and_rest(behind_key.drop_first()) is None ==> member_and_rest(bytes) is None,
        member_and_rest(bytes) is None ==> members_and_rest(bytes) is None,
{
    assert(drop_space(behind_key) == behind_key);
}

/// The members of an object are all the members up to its closing brace, in order. A member is
/// followed by that brace or by a comma and another member.
pub proof fn law_members_are_listed(bytes: Seq<u8>, member: Member, behind: Seq<u8>, rest: Seq<u8>)
    requires
        member_and_rest(bytes) == Some((member, behind)),
        begins_black(behind),
    ensures
        behind == seq![0x7du8] + rest ==> members_and_rest(bytes) == Some((seq![member], rest)),
        behind == seq![0x2cu8] + rest ==> members_and_rest(bytes) == match members_and_rest(rest) {
            Some((members, end)) => Some((seq![member] + members, end)),
            None => None,
        },
        behind.len() == 0 || behind[0] != 0x7d && behind[0] != 0x2c ==> members_and_rest(
            bytes,
        ) is None,
{
    assert(drop_space(behind) == behind);
    if behind == seq![0x7du8] + rest {
        assert(behind.drop_first() == rest);
    }
    if behind == seq![0x2cu8] + rest {
        assert(behind.drop_first() == rest);
    }
}

/// Bytes that do not begin with a brace hold no object.
pub proof fn law_object_needs_a_brace(bytes: Seq<u8>)
    requires
        begins_black(bytes),
        bytes.len() == 0 || bytes[0] != 0x7b,
    ensures
        object_members(bytes) is None,
{
    assert(drop_space(bytes) == bytes);
}

// The parts of a request object ------------------------------------------------------------------
/// The part of a request object that the member `name` stands for.
pub open spec fn part(texts: RequestTexts, name: Seq<char>) -> Option<Seq<char>> {
    if name == "jsonrpc"@ {
        texts.jsonrpc
    } else if name == "method"@ {
        texts.method
    } else if name == "params"@ {
        texts.params
    } else {
        texts.id
    }
}

/// `name` is the name of one of the four parts of a request object.
pub open spec fn is_part(name: Seq<char>) -> bool {
    name == "jsonrpc"@ || name == "method"@ || name == "params"@ || name == "id"@
}

proof fn lemma_part_names()
    ensures
        "jsonrpc"@ != "method"@,
        "jsonrpc"@ != "params"@,
        "jsonrpc"@ != "id"@,
        "method"@ != "params"@,
        "method"@ != "id"@,
        "params"@ != "id"@,
{
    reveal_strlit("jsonrpc");
    reveal_strlit("method");
    reveal_strlit("params");
    reveal_strlit("id");
    assert("jsonrpc"@.len() == 7 && "id"@.len() == 2);
    assert("method"@[0] == 'm' && "params"@[0] == 'p');
}

proof fn lemma_values(members: Seq<Member>, name: Seq<char>)
    ensures
        forall|i: int|
            0 <= i < members.len() && (#[trigger] members[i]).0 == name ==> values_of(
                members,
                name,
            ).contains(members[i].1),
        forall|v: Seq<char>| #[trigger]
            values_of(members, name).contains(v) ==> members.contains((name, v)),
        forall|i: int, j: int|
            0 <= i < j < members.len() && (#[trigger] members[i]).0 == name && (
            #[trigger] members[j]).0 == name ==> values_of(members, name).len() >= 2,
        values_of(members, name).len() >= 2 ==> repeated(members, name),
    decreases members.len(),
{
    if members.len() > 0 {
        let before = members.drop_last();
        let last = members.last();
        let values = values_of(members, name);
        let fewer = values_of(before, name);
        lemma_values(before, name);
        assert forall|i: int|
            0 <= i < members.len() && (#[trigger] members[i]).0 == name implies values.contains(
            members[i].1,
        ) by {
            if i < before.len() {
                assert(before[i] == members[i]);
                let k = fewer.index_of(members[i].1);
                assert(values[k] == members[i].1);
            } else {
                assert(values[fewer.len() as int] == last.1);
            }
        }
        assert forall|v: Seq<char>| #[trigger] values.contains(v) implies members.contains(
            (name, v),
        ) by {
            let k = values.index_of(v);
            if k < fewer.len() {
                assert(fewer[k] == v);
                assert(fewer.contains(v));
                let i = before.index_of((name, v));
                assert(members[i] == (name, v));
            } else {
                assert(members[members.len() - 1] == (name, v));
            }
        }
        assert forall|i: int, j: int|
            0 <= i < j < members.len() && (#[trigger] members[i]).0 == name && (
            #[trigger] members[j]).0 == name implies values.len() >= 2 by {
            assert(before[i] == members[i]);
            if j < before.len() {
                assert(before[j] == members[j]);
            } else {
                assert(fewer.contains(members[i].1));
            }
        }
        if values.len() >= 2 {
            if fewer.len() >= 2 {
                let (i, j) = choose|i: int, j: int|
                    0 <= i < j < before.len() && (#[trigger] before[i]).0 == name && (
                    #[trigger] before[j]).0 == name;
                assert(members[i].0 == name && members[j].0 == name);
            } else {
                assert(fewer.contains(fewer[0]));
                let i = before.index_of((name, fewer[0]));
                assert(members[i].0 == name && members[members.len() - 1].0 == name);
            }
        }
    }
}

/// Two members have the name `name`.
pub open spec fn repeated(members: Seq<Member>, name: Seq<char>) -> bool {
    exists|i: int, j: int|
        0 <= i < j < members.len() && (#[trigger] members[i]).0 == name && (
        #[trigger] members[j]).0 == name
}

proof fn lemma_part(members: Seq<Member>, texts: RequestTexts, name: Seq<char>)
    requires
        is_part(name),
        texts_of_members(members) == Some(texts),
    ensures
        forall|i: int|
            0 <= i < members.len() && (#[trigger] members[i]).0 == name ==> part(texts, name)
                == Some(members[i].1),
        part(texts, name) matches Some(value) ==> members.contains((name, value)),
        !repeated(members, name),
{
    lemma_part_names();
    lemma_values(members, name);
    let values = values_of(members, name);
    assert forall|i: int| 0 <= i < members.len() && (#[trigger] members[i]).0 == name implies part(
        texts,
        name,
    ) == Some(members[i].1) by {
        assert(values.contains(members[i].1));
    }
    if part(texts, name) is Some {
        assert(values.contains(values[0]));
    }
}

/// Each part of a request object is the value of the member of its name, wherever that member
/// stands and whatever else is there, and it is missing if there is no such member.
pub proof fn law_part_is_the_member_of_its_name(
    members: Seq<Member>,
    texts: RequestTexts,
    name: Seq<char>,
)
    requires
        is_part(name),
        texts_of_members(members) == Some(texts),
    ensures
        forall|i: int|
            0 <= i < members.len() && (#[trigger] members[i]).0 == name ==> part(texts, name)
                == Some(members[i].1),
        part(texts, name) matches Some(value) ==> members.contains((name, value)),
{
    lemma_part(members, texts, name);
}

/// An object is refused as a request object exactly if one of the four parts stands there twice.
pub proof fn law_no_part_stands_twice(members: Seq<Member>)
    ensures
        texts_of_members(members) is None <==> repeated(members, "jsonrpc"@) || repeated(
            members,
            "method"@,
        ) || repeated(members, "params"@) || repeated(members, "id"@),
{
    lemma_values(members, "jsonrpc"@);
    lemma_values(members, "method"@);
    lemma_values(members, "params"@);
    lemma_values(members, "id"@);
}

/// In an array the four parts stand in order. The last ones may be missing, and there is no fifth.
pub proof fn law_parts_in_an_array(elements: Seq<Seq<char>>)
    ensures
        match texts_of_elements(elements) {
            None => elements.len() > 4,
            Some(texts) => {
                &&& elements.len() <= 4
                &&& texts.jsonrpc is Some <==> elements.len() > 0
                &&& texts.method is Some <==> elements.len() > 1
                &&& texts.params is Some <==> elements.len() > 2
                &&& texts.id is Some <==> elements.len() > 3
                &&& texts.jsonrpc matches Some(t) ==> t == elements[0]
                &&& texts.method matches Some(t) ==> t == elements[1]
                &&& texts.params matches Some(t) ==> t == elements[2]
                &&& texts.id matches Some(t) ==> t == elements[3]
            },
        },
{
}

/// A text is read as an array if it begins with a bracket, and as an object otherwise, whatever
/// white space there is before it.
pub proof fn law_object_or_array(text: Seq<char>, space: Seq<u8>, bytes: Seq<u8>)
    requires
        encode_utf8(text) == space + bytes,
        all_white(space),
        begins_black(bytes),
    ensures
        bytes.len() > 0 && bytes[0] == 0x5b ==> texts_of_text(text) == match json_array(
            encode_utf8(text),
        ) {
            Some(elements) => texts_of_elements(elements),
            None => None,
        },
        bytes.len() == 0 || bytes[0] != 0x5b ==> texts_of_text(text) == match object_members(
            bytes,
        ) {
            Some(members) => texts_of_members(members),
            None => None,
        },
{
    law_white_space_is_skipped(space, bytes);
    law_white_space_before_an_object(space, bytes);
}

/// The id that the text of a JSON value denotes is an integer if it is one, a string if it is one,
/// and null if it is null. Nothing else is an id.
pub proof fn law_id_of_a_text(text: Seq<char>)
    ensures
        json_i64(text) matches Some(n) ==> id_of_text(text) == Some(IdView::Num(n)),
        json_i64(text) is None ==> (json_string(text) matches Some(s) ==> id_of_text(text) == Some(
            IdView::Str(s),
        )),
        json_i64(text) is None && json_string(text) is None ==> id_of_text(text) == if json_single(
            encode_utf8(text),
        ) == Some("null"@) {
            Some(IdView::Null)
        } else {
            None
        },
{
}

/// The text of a JSON value is that of an id: an integer, a string or null.
pub open spec fn is_id(text: Seq<char>) -> bool {
    ||| json_single(encode_utf8(text)) == Some("null"@)
    ||| json_i64(text) is Some
    ||| json_string(text) is Some
}

/// A request object is refused exactly if its version is not "2.0", its method is no string, or its
/// id is no integer, no string and not null. A part that is missing is no reason.
pub proof fn law_request_object_is_refused(texts: RequestTexts)
    ensures
        request_of_texts(texts) is None <==> {
            ||| texts.jsonrpc is Some && json_plain_string(texts.jsonrpc->0) != Some("2.0"@)
            ||| texts.method is Some && json_string(texts.method->0) is None
            ||| texts.id is Some && !is_id(texts.id->0)
        },
{
}

/// A request object has the method that its text says, or the empty one, the params just as they
/// stand there, unless they are null, and the id that its text says. Null as an id is told from no
/// id.
pub proof fn law_request_object_has_its_parts(texts: RequestTexts, req: BytesRequestView)
    requires
        request_of_texts(texts) == Some(req),
    ensures
        texts.method matches Some(t) ==> json_string(t) == Some(req.method),
        texts.method is None ==> req.method.len() == 0,
        texts.params matches Some(t) ==> t != "null"@ ==> req.params == Some(t),
        texts.params is None || texts.params == Some("null"@) ==> req.params is None,
        texts.id is None ==> req.id is None,
        texts.id matches Some(t) ==> {
            let null = json_single(encode_utf8(t)) == Some("null"@);
            &&& null ==> req.id == Some(None::<IdView>)
            &&& !null ==> (json_i64(t) matches Some(n) ==> req.id == Some(Some(IdView::Num(n))))
            &&& !null && json_i64(t) is None ==> (json_string(t) matches Some(s) ==> req.id == Some(
                Some(IdView::Str(s)),
            ))
        },
{
}

/// The request object in a text is the one with the parts that the text has.
pub proof fn law_request_object_in_a_text(text: Seq<char>)
    ensures
        match texts_of_text(text) {
            Some(texts) => request_of_text(text) == request_of_texts(texts),
            None => request_of_text(text) is None,
        },
{
}

/// What is handled is what was read: the method, the text of the params and the id are all kept.
pub proof fn law_read_request_is_kept(text: Seq<char>, req: BytesRequestView)
    ensures
        from_bytes_view(req).method == req.method,
        from_bytes_view(req).id == req.id,
        req.params matches Some(t) ==> from_bytes_view(req).params == Some(ParamsView::Raw(t)),
        req.params is None ==> from_bytes_view(req).params is None,
        request_of_text(text) == Some(req) ==> request_in(text) == Some(
            (RequestView {
                method: req.method,
                params: match req.params {
                    Some(t) => Some(ParamsView::Raw(t)),
                    None => None,
                },
                id: req.id,
            }),
        ),
        request_of_text(text) is None ==> request_in(text) is None,
{
}

/// Bytes that begin with a bracket are a batch of the elements that `serde_json` reads there; other
/// bytes are the one value that it reads there.
pub proof fn law_single_or_batch(bytes: Seq<u8>)
    ensures
        bytes.len() > 0 && bytes[0] == 0x5b ==> match (json_array(bytes), raw_values(bytes)) {
            (Some(texts), Some(RawValues::Many(found))) => found == texts,
            (None, None) => true,
            _ => false,
        },
        bytes.len() == 0 || bytes[0] != 0x5b ==> match (json_single(bytes), raw_values(bytes)) {
            (Some(text), Some(RawValues::One(found))) => found == text,
            (None, None) => true,
            _ => false,
        },
{
}

/// Every element of a batch is read as it would be on its own.
pub proof fn law_elements_are_read_alone(texts: Seq<Seq<char>>, at: int)
    requires
        0 <= at < texts.len(),
    ensures
        elements(texts).len() == texts.len(),
        elements(texts)[at] == match request_of_text(texts[at]) {
            Some(req) => Some(from_bytes_view(req)),
            None => None,
        },
{
}

// Params -----------------------------------------------------------------------------------------
/// Params that came in as a text are read from exactly that text. Params in memory are read from
/// the value, unless that is null. Only missing params and null are read as null.
pub proof fn law_params_are_read_from_what_came_in(text: Seq<char>, value: serde_json::Value)
    ensures
        params_source(Some(ParamsView::Raw(text))) == Some(ParamsView::Raw(text)),
        !(value_shape(value) is Null) ==> params_source(Some(ParamsView::Value(value))) == Some(
            ParamsView::Value(value),
        ),
        value_shape(value) is Null ==> params_source(Some(ParamsView::Value(value))) is None,
        params_source(None) is None,
        params_value(Some(ParamsView::Raw(text))) == json_value(text),
        !(value_shape(value) is Null) ==> params_value(Some(ParamsView::Value(value)))
            == json_value_again(value),
        params_value(None) == Some(None::<serde_json::Value>),
{
}

/// What the params are to be read from is what is said of it.
pub proof fn law_params_source_is_shown<'a>(text: &'a str, value: &'a serde_json::Value)
    ensures
        ParamsSource::Text(text)@ == Some(ParamsView::Raw(text@)),
        ParamsSource::Value(value)@ == Some(ParamsView::Value(*value)),
        ParamsSource::<'a>::Null@ is None,
{
}

// What the values in memory stand for ------------------------------------------------------------
/// Ids and params in memory stand for just what they hold.
pub proof fn law_request_values_are_shown(
    n: i64,
    s: String,
    id: Id,
    value: serde_json::Value,
    params: InnerParams,
)
    ensures
        Id::Num(n)@ == IdView::Num(n),
        Id::Str(s)@ == IdView::Str(s@),
        Id::Null@ == IdView::Null,
        opt_id_view(Some(id)) == Some(id@),
        opt_id_view(None) is None,
        request_id_view(Some(Some(id))) == Some(Some(id@)),
        request_id_view(Some(None)) == Some(None::<IdView>),
        request_id_view(None) is None,
        InnerParams::Value(value)@ == ParamsView::Value(value),
        InnerParams::Raw(s)@ == ParamsView::Raw(s@),
        params_view(Some(params)) == Some(params@),
        params_view(None) is None,
        built_params(Some(value)) == Some(ParamsView::Value(value)),
        built_params(None) is None,
{
}

/// A number and a string become the id that they are, and requests of every kind become that kind.
pub proof fn law_conversions_keep_the_value(
    n: i64,
    s: String,
    req: RequestObject,
    reqs: Vec<RequestObject>,
    bytes: Vec<u8>,
)
    ensures
        <Id as FromSpec<i64>>::obeys_from_spec(),
        <Id as FromSpec<i64>>::from_spec(n) == Id::Num(n),
        <Id as FromSpec<String>>::obeys_from_spec(),
        <Id as FromSpec<String>>::from_spec(s) == Id::Str(s),
        <RequestKind as FromSpec<RequestObject>>::obeys_from_spec(),
        <RequestKind as FromSpec<RequestObject>>::from_spec(req) == RequestKind::RequestObject(req),
        <RequestKind as FromSpec<Vec<RequestObject>>>::obeys_from_spec(),
        <RequestKind as FromSpec<Vec<RequestObject>>>::from_spec(reqs)
            == RequestKind::ManyRequestObjects(reqs),
        <RequestKind as FromSpec<Vec<u8>>>::obeys_from_spec(),
        <RequestKind as FromSpec<Vec<u8>>>::from_spec(bytes) == RequestKind::Bytes(bytes),
{
}

/// The texts of the values that came in stand for just these texts.
pub proof fn law_raw_values_are_shown<'a>(texts: Vec<&'a str>, text: &'a str, at: int)
    requires
        0 <= at < texts@.len(),
    ensures
        OneOrManyRawValues::One(text)@ == RawValues::One(text@),
        OneOrManyRawValues::Many(texts)@ matches RawValues::Many(found) && found.len()
            == texts@.len() && found[at] == texts@[at]@,
{
}

/// The id that an answer goes back with is the id of the request. The id null counts as an id.
pub proof fn law_reply_goes_back_with_the_id(id: IdView)
    ensures
        reply_id(Some(Some(id))) == Some(id),
        reply_id(Some(None)) == Some(IdView::Null),
        reply_id(None) is None,
{
}

} // verus!

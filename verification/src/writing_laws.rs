//! What holds of how requests and responses are written.

use crate::error::{ErrorDataView, ErrorView};
use crate::http::{reply_for, HttpReply, HttpReplyView};
use crate::id::{id_text, IdView};
use crate::json::{decimal, digits, escaped, escaped_char, json_value_text, quoted};
use crate::object::{
    array_text, elements_text, members_text, object_text, views, written, Member,
};
use crate::request::{params_text, request_members, ParamsView, RequestView};
use crate::response::{
    all_converted, any_fails, converted, error_converted, error_fails, error_members, fails,
    response_text, responses_text, JsonText, ResponseView, ResponsesView,
};
use vstd::prelude::*;

verus! {

// Objects and arrays -----------------------------------------------------------------------------
proof fn lemma_members_text_push(members: Seq<Member>, member: Member)
    requires
        members.len() > 0,
    ensures
        members_text(members).len() > 0,
        members_text(members).last() == '}',
        members_text(members.push(member)) == members_text(members).drop_last() + seq![',']
            + quoted(member.0) + seq![':'] + member.1 + seq!['}'],
    decreases members.len(),
{
    let more = members.push(member);
    let tail = members.drop_first();
    assert(more.drop_first() == tail.push(member));
    if members.len() == 1 {
        assert(tail.push(member) == seq![member]);
        assert(seq![member].drop_first() == Seq::<Member>::empty());
        assert(members_text(seq![member]) == quoted(member.0) + seq![':'] + member.1 + seq!['}']);
    } else {
        lemma_members_text_push(tail, member);
    }
    let head = quoted(members[0].0) + seq![':'] + members[0].1;
    assert(more[0] == members[0]);
    assert(members_text(more) == head + (seq![','] + members_text(tail.push(member))));
    if members.len() == 1 {
        assert(members_text(members) == head + seq!['}']);
        assert(members_text(members).drop_last() =~= head);
    } else {
        assert(members_text(members) == head + (seq![','] + members_text(tail)));
        assert(members_text(members).drop_last() =~= head + (seq![','] + members_text(
            tail,
        ).drop_last()));
    }
    assert(members_text(more) =~= members_text(members).drop_last() + seq![',']
        + quoted(member.0) + seq![':'] + member.1 + seq!['}']);
}

/// The text of an object has all its members, in order: the name in quotes, a colon and the value,
/// with commas between the members and braces around them.
pub proof fn law_object_has_all_its_members(members: Seq<Member>, member: Member)
    ensures
        object_text(Seq::<Member>::empty()) == seq!['{', '}'],
        object_text(seq![member]) == seq!['{'] + quoted(member.0) + seq![':'] + member.1
            + seq!['}'],
        members.len() > 0 ==> object_text(members.push(member)) == object_text(members).drop_last()
            + seq![','] + quoted(member.0) + seq![':'] + member.1 + seq!['}'],
{
    assert(object_text(Seq::<Member>::empty()) =~= seq!['{', '}']);
    assert(object_text(seq![member]) =~= seq!['{'] + quoted(member.0) + seq![':'] + member.1
        + seq!['}']);
    if members.len() > 0 {
        lemma_members_text_push(members, member);
        assert(object_text(members).drop_last() =~= seq!['{'] + members_text(members).drop_last());
        assert(object_text(members.push(member)) =~= object_text(members).drop_last() + seq![',']
            + quoted(member.0) + seq![':'] + member.1 + seq!['}']);
    }
}

proof fn lemma_elements_text_push(texts: Seq<Seq<char>>, text: Seq<char>)
    requires
        texts.len() > 0,
    ensures
        elements_text(texts).len() > 0,
        elements_text(texts).last() == ']',
        elements_text(texts.push(text)) == elements_text(texts).drop_last() + seq![','] + text
            + seq![']'],
    decreases texts.len(),
{
    let more = texts.push(text);
    let tail = texts.drop_first();
    assert(more.drop_first() == tail.push(text));
    assert(more[0] == texts[0]);
    if texts.len() == 1 {
        assert(tail.push(text) == seq![text]);
        assert(elements_text(seq![text]) == text + seq![']']);
        assert(elements_text(texts).drop_last() =~= texts[0]);
    } else {
        lemma_elements_text_push(tail, text);
        assert(elements_text(texts).drop_last() =~= texts[0] + (seq![','] + elements_text(
            tail,
        ).drop_last()));
    }
    assert(elements_text(more) =~= elements_text(texts).drop_last() + seq![','] + text + seq![']']);
}

/// The text of an array has all its elements, in order and as they are, with commas between them
/// and brackets around them.
pub proof fn law_array_has_all_its_elements(texts: Seq<Seq<char>>, text: Seq<char>)
    ensures
        array_text(Seq::<Seq<char>>::empty()) == seq!['[', ']'],
        array_text(seq![text]) == seq!['['] + text + seq![']'],
        texts.len() > 0 ==> array_text(texts.push(text)) == array_text(texts).drop_last()
            + seq![','] + text + seq![']'],
{
    assert(array_text(Seq::<Seq<char>>::empty()) =~= seq!['[', ']']);
    assert(array_text(seq![text]) =~= seq!['['] + text + seq![']']);
    if texts.len() > 0 {
        lemma_elements_text_push(texts, text);
        assert(array_text(texts).drop_last() =~= seq!['['] + elements_text(texts).drop_last());
        assert(array_text(texts.push(text)) =~= array_text(texts).drop_last() + seq![','] + text
            + seq![']']);
    }
}

/// Members that are read or are to be written stand for their names and texts, in order.
pub proof fn law_members_are_shown<'a>(
    read: Seq<(String, &'a str)>,
    to_write: Seq<(&'a str, String)>,
)
    ensures
        views(read).len() == read.len(),
        forall|i: int|
            0 <= i < read.len() ==> #[trigger] views(read)[i] == (read[i].0@, read[i].1@),
        written(to_write).len() == to_write.len(),
        forall|i: int|
            0 <= i < to_write.len() ==> #[trigger] written(to_write)[i] == (
                to_write[i].0@,
                to_write[i].1@,
            ),
{
}

// Strings and numbers ----------------------------------------------------------------------------
proof fn lemma_plain(s: Seq<char>)
    requires
        forall|i: int| 0 <= i < s.len() ==> escaped_char(#[trigger] s[i]) == seq![s[i]],
    ensures
        escaped(s) == s,
    decreases s.len(),
{
    if s.len() > 0 {
        assert forall|i: int| 0 <= i < s.drop_last().len() implies escaped_char(
            #[trigger] s.drop_last()[i],
        ) == seq![s.drop_last()[i]] by {
            assert(s.drop_last()[i] == s[i]);
        }
        lemma_plain(s.drop_last());
        assert(escaped(s) =~= s);
    }
}

/// A string without quotes, backslashes and control characters stands between quotes as it is.
pub proof fn law_plain_strings_are_only_quoted(s: Seq<char>)
    requires
        forall|i: int|
            0 <= i < s.len() ==> #[trigger] s[i] != '"' && s[i] != '\\' && s[i] as int >= 0x20,
    ensures
        quoted(s) == seq!['"'] + s + seq!['"'],
{
    lemma_plain(s);
}

/// A string is written character by character.
pub proof fn law_strings_are_written_by_character(s: Seq<char>, c: char)
    ensures
        escaped(s.push(c)) == escaped(s) + escaped_char(c),
        c == '"' || c == '\\' ==> escaped_char(c) == seq!['\\', c],
{
    assert(s.push(c).drop_last() == s);
}

/// The number that decimal digits denote.
pub open spec fn number(s: Seq<char>) -> int
    decreases s.len(),
{
    if s.len() == 0 {
        0
    } else {
        number(s.drop_last()) * 10 + (s.last() as int - 48)
    }
}

/// The digits that are written for a number denote that number, and do not begin with a zero unless
/// it is the number zero. A negative number has a minus sign before its digits.
pub proof fn law_digits_denote_the_number(n: nat)
    ensures
        number(digits(n)) == n,
        digits(n).len() > 0,
        n > 0 ==> digits(n)[0] != '0',
        decimal(n as int) == digits(n),
        n > 0 ==> decimal(-(n as int)) == seq!['-'] + digits(n),
    decreases n,
{
    reveal_with_fuel(number, 2);
    assert(digits(n).last() as int == 48 + n % 10);
    if n >= 10 {
        law_digits_denote_the_number(n / 10);
        assert(digits(n).drop_last() == digits(n / 10));
    } else {
        assert(digits(n).drop_last() == Seq::<char>::empty());
    }
}

// Responses --------------------------------------------------------------------------------------
/// An id is written as the number, as the string in quotes, or as null.
pub proof fn law_id_is_written(n: i64, s: Seq<char>)
    ensures
        id_text(IdView::Num(n)) == decimal(n as int),
        id_text(IdView::Str(s)) == quoted(s),
        id_text(IdView::Null) == "null"@,
{
}

proof fn lemma_names()
    ensures
        quoted("jsonrpc"@) == "\"jsonrpc\""@,
        quoted("2.0"@) == "\"2.0\""@,
        quoted("result"@) == "\"result\""@,
        quoted("error"@) == "\"error\""@,
        quoted("id"@) == "\"id\""@,
        quoted("code"@) == "\"code\""@,
        quoted("message"@) == "\"message\""@,
        quoted("data"@) == "\"data\""@,
        quoted("method"@) == "\"method\""@,
        quoted("params"@) == "\"params\""@,
{
    reveal_strlit("jsonrpc");
    reveal_strlit("\"jsonrpc\"");
    law_plain_strings_are_only_quoted("jsonrpc"@);
    assert(quoted("jsonrpc"@) =~= "\"jsonrpc\""@);
    reveal_strlit("2.0");
    reveal_strlit("\"2.0\"");
    law_plain_strings_are_only_quoted("2.0"@);
    assert(quoted("2.0"@) =~= "\"2.0\""@);
    reveal_strlit("result");
    reveal_strlit("\"result\"");
    law_plain_strings_are_only_quoted("result"@);
    assert(quoted("result"@) =~= "\"result\""@);
    reveal_strlit("error");
    reveal_strlit("\"error\"");
    law_plain_strings_are_only_quoted("error"@);
    assert(quoted("error"@) =~= "\"error\""@);
    reveal_strlit("id");
    reveal_strlit("\"id\"");
    law_plain_strings_are_only_quoted("id"@);
    assert(quoted("id"@) =~= "\"id\""@);
    reveal_strlit("code");
    reveal_strlit("\"code\"");
    law_plain_strings_are_only_quoted("code"@);
    assert(quoted("code"@) =~= "\"code\""@);
    reveal_strlit("message");
    reveal_strlit("\"message\"");
    law_plain_strings_are_only_quoted("message"@);
    assert(quoted("message"@) =~= "\"message\""@);
    reveal_strlit("data");
    reveal_strlit("\"data\"");
    law_plain_strings_are_only_quoted("data"@);
    assert(quoted("data"@) =~= "\"data\""@);
    reveal_strlit("method");
    reveal_strlit("\"method\"");
    law_plain_strings_are_only_quoted("method"@);
    assert(quoted("method"@) =~= "\"method\""@);
    reveal_strlit("params");
    reveal_strlit("\"params\"");
    law_plain_strings_are_only_quoted("params"@);
    assert(quoted("params"@) =~= "\"params\""@);
}

proof fn lemma_three(a: Member, b: Member, c: Member)
    ensures
        object_text(seq![a, b, c]) == seq!['{'] + quoted(a.0) + seq![':'] + a.1 + seq![',']
            + quoted(b.0) + seq![':'] + b.1 + seq![','] + quoted(c.0) + seq![':'] + c.1 + seq!['}'],
        object_text(seq![a, b]) == seq!['{'] + quoted(a.0) + seq![':'] + a.1 + seq![',']
            + quoted(b.0) + seq![':'] + b.1 + seq!['}'],
{
    law_object_has_all_its_members(seq![a], b);
    law_object_has_all_its_members(seq![a, b], c);
    law_object_has_all_its_members(seq![a], a);
    let one = seq!['{'] + quoted(a.0) + seq![':'] + a.1;
    assert(object_text(seq![a]) == one + seq!['}']);
    assert(object_text(seq![a]).drop_last() =~= one);
    assert(seq![a].push(b) =~= seq![a, b]);
    let two = one + seq![','] + quoted(b.0) + seq![':'] + b.1;
    assert(object_text(seq![a, b]) == two + seq!['}']);
    assert(object_text(seq![a, b]).drop_last() =~= two);
    assert(seq![a, b].push(c) =~= seq![a, b, c]);
}

/// The text of a result: the version, what the handler sent back as it is, and the id.
pub proof fn law_result_is_written_whole(result: JsonText, id: IdView)
    ensures
        response_text(ResponseView::Result { result, id }) == seq!['{'] + "\"jsonrpc\""@ + seq![':']
            + "\"2.0\""@ + seq![','] + "\"result\""@ + seq![':'] + result.0@ + seq![',']
            + "\"id\""@ + seq![':'] + id_text(id) + seq!['}'],
{
    lemma_names();
    lemma_three(
        ("jsonrpc"@, quoted("2.0"@)),
        ("result"@, result.0@),
        ("id"@, id_text(id)),
    );
}

/// The text of an error: the version, the code, the message and the data of the error if there are
/// any, and the id.
pub proof fn law_error_is_written_whole(error: ErrorView<JsonText>, id: IdView)
    ensures
        object_text(error_members(error)) == seq!['{'] + "\"code\""@ + seq![':'] + decimal(
            error.code,
        ) + seq![','] + "\"message\""@ + seq![':'] + quoted(error.message) + (match error.data {
            Some(ErrorDataView::Text(text)) => seq![','] + "\"data\""@ + seq![':'] + quoted(text),
            Some(ErrorDataView::Custom(json)) => seq![','] + "\"data\""@ + seq![':'] + json.0@,
            None => Seq::empty(),
        }) + seq!['}'],
        response_text(ResponseView::Error { error, id }) == seq!['{'] + "\"jsonrpc\""@ + seq![':']
            + "\"2.0\""@ + seq![','] + "\"error\""@ + seq![':'] + object_text(error_members(error))
            + seq![','] + "\"id\""@ + seq![':'] + id_text(id) + seq!['}'],
{
    lemma_names();
    let code = ("code"@, decimal(error.code));
    let message = ("message"@, quoted(error.message));
    let data = match error.data {
        Some(ErrorDataView::Text(text)) => ("data"@, quoted(text)),
        Some(ErrorDataView::Custom(json)) => ("data"@, json.0@),
        None => code,
    };
    lemma_three(code, message, data);
    if error.data is Some {
        assert(error_members(error) =~= seq![code, message, data]);
    } else {
        assert(error_members(error) =~= seq![code, message]);
    }
    assert(object_text(error_members(error)) =~= seq!['{'] + "\"code\""@ + seq![':'] + decimal(
        error.code,
    ) + seq![','] + "\"message\""@ + seq![':'] + quoted(error.message) + (match error.data {
        Some(ErrorDataView::Text(text)) => seq![','] + "\"data\""@ + seq![':'] + quoted(text),
        Some(ErrorDataView::Custom(json)) => seq![','] + "\"data\""@ + seq![':'] + json.0@,
        None => Seq::empty(),
    }) + seq!['}']);
    lemma_three(
        ("jsonrpc"@, quoted("2.0"@)),
        ("error"@, object_text(error_members(error))),
        ("id"@, id_text(id)),
    );
}

/// A whole response is written as its one response object, or as the array of the texts of all its
/// response objects, in order, or as null.
pub proof fn law_whole_response_is_written(
    one: ResponseView<JsonText>,
    many: Seq<ResponseView<JsonText>>,
)
    ensures
        responses_text(ResponsesView::One(one)) == response_text(one),
        responses_text(ResponsesView::Many(many)) == array_text(
            Seq::new(many.len(), |i: int| response_text(many[i])),
        ),
        responses_text(ResponsesView::Empty) == "null"@,
{
    assert(many.map_values(|r| response_text(r)) =~= Seq::new(
        many.len(),
        |i: int| response_text(many[i]),
    ));
}

/// The body of the reply over HTTP to a response that is not empty is the text of the whole
/// response: of its one response object, or of all its response objects, in order, as an array.
pub proof fn law_http_body_is_the_whole_response(
    one: ResponseView<JsonText>,
    many: Seq<ResponseView<JsonText>>,
    reply: HttpReply,
)
    ensures
        reply_for(ResponsesView::One(one)) == (HttpReplyView {
            status: 200,
            content_type: Some("application/json"@),
            body: response_text(one),
        }),
        reply_for(ResponsesView::Many(many)) == (HttpReplyView {
            status: 200,
            content_type: Some("application/json"@),
            body: array_text(Seq::new(many.len(), |i: int| response_text(many[i]))),
        }),
        reply_for(ResponsesView::Empty) == (HttpReplyView {
            status: 204,
            content_type: None,
            body: Seq::empty(),
        }),
        reply@.status == reply.status,
        reply@.body == reply.body@,
        reply.content_type matches Some(name) ==> reply@.content_type == Some(name@),
        reply.content_type is None ==> reply@.content_type is None,
{
    law_whole_response_is_written(one, many);
}

// Requests ---------------------------------------------------------------------------------------
/// The text of a request object: the version, the method, the params as they are or null, and the
/// id if there is one.
pub proof fn law_request_is_written_whole(req: RequestView)
    ensures
        object_text(request_members(req)) == seq!['{'] + "\"jsonrpc\""@ + seq![':'] + "\"2.0\""@
            + seq![','] + "\"method\""@ + seq![':'] + quoted(req.method) + seq![',']
            + "\"params\""@ + seq![':'] + (match req.params {
            Some(ParamsView::Value(value)) => json_value_text(value),
            Some(ParamsView::Raw(text)) => text,
            None => "null"@,
        }) + (match req.id {
            Some(Some(id)) => seq![','] + "\"id\""@ + seq![':'] + id_text(id),
            Some(None) => seq![','] + "\"id\""@ + seq![':'] + "null"@,
            None => Seq::empty(),
        }) + seq!['}'],
{
    lemma_names();
    let version = ("jsonrpc"@, quoted("2.0"@));
    let method = ("method"@, quoted(req.method));
    let params = ("params"@, params_text(req.params));
    lemma_three(version, method, params);
    let three = seq![version, method, params];
    let front = seq!['{'] + "\"jsonrpc\""@ + seq![':'] + "\"2.0\""@ + seq![','] + "\"method\""@
        + seq![':'] + quoted(req.method) + seq![','] + "\"params\""@ + seq![':'] + params_text(
        req.params,
    );
    assert(object_text(three) == front + seq!['}']);
    assert(object_text(three).drop_last() =~= front);
    let id = match req.id {
        Some(Some(id)) => id_text(id),
        Some(None) => "null"@,
        None => Seq::empty(),
    };
    law_object_has_all_its_members(three, ("id"@, id));
    if req.id is Some {
        assert(request_members(req) =~= three.push(("id"@, id)));
        assert(object_text(request_members(req)) =~= front + (seq![','] + "\"id\""@ + seq![':']
            + id) + seq!['}']);
    } else {
        assert(request_members(req) =~= three);
        assert(object_text(request_members(req)) =~= front + Seq::<char>::empty() + seq!['}']);
    }
}

// Payloads ---------------------------------------------------------------------------------------
/// Converting payloads changes nothing but the payloads: the kind of each response, its id, the
/// code and the message stay, and texts of the library's own stay too.
pub proof fn law_conversion_touches_only_payloads<B, C, E, F: Fn(B) -> Result<C, E>>(
    f: F,
    from: ResponseView<B>,
    to: ResponseView<C>,
    e: E,
)
    ensures
        converted(f, from, to) ==> match (from, to) {
            (
                ResponseView::Result { result, id },
                ResponseView::Result { result: new, id: new_id },
            ) => new_id == id && call_ensures(f, (result,), Ok(new)),
            (
                ResponseView::Error { error, id },
                ResponseView::Error { error: new, id: new_id },
            ) => {
                &&& new_id == id
                &&& new.code == error.code
                &&& new.message == error.message
                &&& match (error.data, new.data) {
                    (None, None) => true,
                    (Some(ErrorDataView::Text(a)), Some(ErrorDataView::Text(b))) => a == b,
                    (Some(ErrorDataView::Custom(b)), Some(ErrorDataView::Custom(c))) => {
                        call_ensures(f, (b,), Ok(c))
                    },
                    _ => false,
                }
            },
            _ => false,
        },
        fails(f, from, e) ==> match from {
            ResponseView::Result { result, .. } => call_ensures(f, (result,), Err(e)),
            ResponseView::Error { error, .. } => {
                error.data matches Some(ErrorDataView::Custom(b)) && call_ensures(f, (b,), Err(e))
            },
        },
{
}

/// Converting the data of an error changes nothing but data that a handler sent.
pub proof fn law_conversion_touches_only_data<B, C, E, F: Fn(B) -> Result<C, E>>(
    f: F,
    from: ErrorView<B>,
    to: ErrorView<C>,
    e: E,
)
    ensures
        error_converted(f, from, to) ==> {
            &&& to.code == from.code
            &&& to.message == from.message
            &&& match (from.data, to.data) {
                (None, None) => true,
                (Some(ErrorDataView::Text(a)), Some(ErrorDataView::Text(b))) => a == b,
                (Some(ErrorDataView::Custom(b)), Some(ErrorDataView::Custom(c))) => {
                    call_ensures(f, (b,), Ok(c))
                },
                _ => false,
            }
        },
        error_fails(f, from, e) ==> (from.data matches Some(ErrorDataView::Custom(b))
            && call_ensures(f, (b,), Err(e))),
{
}

/// All the response objects of a whole response are converted, in order, and none is added.
pub proof fn law_conversion_keeps_every_response<B, C, E, F: Fn(B) -> Result<C, E>>(
    f: F,
    from: ResponsesView<B>,
    to: ResponsesView<C>,
    e: E,
)
    ensures
        all_converted(f, from, to) ==> match (from, to) {
            (ResponsesView::One(a), ResponsesView::One(b)) => converted(f, a, b),
            (ResponsesView::Many(a), ResponsesView::Many(b)) => {
                a.len() == b.len() && forall|i: int|
                    0 <= i < a.len() ==> converted(f, #[trigger] a[i], b[i])
            },
            (ResponsesView::Empty, ResponsesView::Empty) => true,
            _ => false,
        },
        any_fails(f, from, e) ==> match from {
            ResponsesView::One(one) => fails(f, one, e),
            ResponsesView::Many(many) => exists|i: int|
                0 <= i < many.len() && fails(f, #[trigger] many[i], e),
            ResponsesView::Empty => false,
        },
{
}

} // verus!

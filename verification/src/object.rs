//! The frames of JSON objects and arrays.
//!
//! The values inside stay texts: only what stands around them, the braces, names, colons and commas
//! of an object and the brackets and commas of an array, is read and written here.

use crate::json::{
    is_value_text, json_prefix, json_string, quoted, read_prefix, read_string, write_string,
};
use vstd::prelude::*;
use vstd::slice::slice_subrange;
use vstd::utf8::encode_utf8;

verus! {

// Reading ----------------------------------------------------------------------------------------
/// A member of a JSON object: its name, and the text of its value.
pub type Member = (Seq<char>, Seq<char>);

/// `byte` is white space of JSON.
pub open spec fn is_space(byte: u8) -> bool {
    byte == 0x20 || byte == 0x0a || byte == 0x0d || byte == 0x09
}

/// `bytes` without the white space that they begin with.
pub open spec fn drop_space(bytes: Seq<u8>) -> Seq<u8>
    decreases bytes.len(),
{
    if bytes.len() > 0 && is_space(bytes[0]) {
        drop_space(bytes.drop_first())
    } else {
        bytes
    }
}

/// What follows `mark`, where it is the first thing in `bytes` behind white space.
pub open spec fn after_mark(bytes: Seq<u8>, mark: u8) -> Option<Seq<u8>> {
    let rest = drop_space(bytes);
    if rest.len() > 0 && rest[0] == mark {
        Some(rest.drop_first())
    } else {
        None
    }
}

/// The text of the JSON value at the start of `bytes`, and what follows it.
pub open spec fn value_and_rest(bytes: Seq<u8>) -> Option<(Seq<char>, Seq<u8>)> {
    match json_prefix(bytes) {
        Some((text, end)) => if 0 < end <= bytes.len() {
            Some((text, bytes.skip(end)))
        } else {
            None
        },
        None => None,
    }
}

/// The member at the start of `bytes`, and what follows it.
pub open spec fn member_and_rest(bytes: Seq<u8>) -> Option<(Member, Seq<u8>)> {
    match value_and_rest(bytes) {
        Some((key, behind_key)) => match (json_string(key), after_mark(behind_key, 0x3a)) {
            (Some(name), Some(behind_colon)) => match value_and_rest(behind_colon) {
                Some((value, rest)) => Some(((name, value), rest)),
                None => None,
            },
            _ => None,
        },
        None => None,
    }
}

proof fn lemma_drop_space_len(bytes: Seq<u8>)
    ensures
        drop_space(bytes).len() <= bytes.len(),
    decreases bytes.len(),
{
    if bytes.len() > 0 && is_space(bytes[0]) {
        lemma_drop_space_len(bytes.drop_first());
    }
}

proof fn lemma_member_and_rest_len(bytes: Seq<u8>)
    ensures
        member_and_rest(bytes) matches Some((_, rest)) ==> rest.len() < bytes.len(),
        after_mark(bytes, 0x2c) matches Some(rest) ==> rest.len() < bytes.len(),
{
    lemma_drop_space_len(bytes);
    if let Some((_, behind_key)) = value_and_rest(bytes) {
        lemma_drop_space_len(behind_key);
    }
}

/// The members of an object from the first name on, up to the closing brace, and what follows it.
pub open spec fn members_and_rest(bytes: Seq<u8>) -> Option<(Seq<Member>, Seq<u8>)>
    decreases bytes.len(),
    via members_and_rest_decreases
{
    match member_and_rest(bytes) {
        Some((member, behind)) => {
            match (after_mark(behind, 0x7d), after_mark(behind, 0x2c)) {
                (Some(rest), _) => Some((seq![member], rest)),
                (None, Some(next)) => match members_and_rest(next) {
                    Some((members, rest)) => Some((seq![member] + members, rest)),
                    None => None,
                },
                (None, None) => None,
            }
        },
        None => None,
    }
}

#[via_fn]
proof fn members_and_rest_decreases(bytes: Seq<u8>) {
    lemma_member_and_rest_len(bytes);
    if let Some((_, behind)) = member_and_rest(bytes) {
        lemma_member_and_rest_len(behind);
    }
}

/// The members of the one JSON object that `bytes` hold.
pub open spec fn object_members(bytes: Seq<u8>) -> Option<Seq<Member>> {
    match after_mark(bytes, 0x7b) {
        Some(inner) => match (after_mark(inner, 0x7d), members_and_rest(inner)) {
            (Some(rest), _) => if drop_space(rest).len() == 0 {
                Some(Seq::empty())
            } else {
                None
            },
            (None, Some((members, rest))) => if drop_space(rest).len() == 0 {
                Some(members)
            } else {
                None
            },
            (None, None) => None,
        },
        None => None,
    }
}

/// Skips the white space at the start of `bytes`.
fn skip_space<'a>(bytes: &'a [u8]) -> (res: &'a [u8])
    ensures
        res@ == drop_space(bytes@),
{
    let mut at: usize = 0;
    assert(bytes@.skip(0) == bytes@);
    while at < bytes.len() && (bytes[at] == 0x20 || bytes[at] == 0x0a || bytes[at] == 0x0d
        || bytes[at] == 0x09)
        invariant
            at <= bytes@.len(),
            drop_space(bytes@) == drop_space(bytes@.skip(at as int)),
        decreases bytes.len() - at,
    {
        assert(bytes@.skip(at as int).drop_first() == bytes@.skip(at + 1));
        at += 1;
    }
    let res = slice_subrange(bytes, at, bytes.len());
    assert(res@ == bytes@.skip(at as int));
    res
}

/// Reads `mark` behind white space, and returns what follows it.
pub(crate) fn read_mark<'a>(bytes: &'a [u8], mark: u8) -> (res: Option<&'a [u8]>)
    ensures
        res is Some <==> after_mark(bytes@, mark) is Some,
        res matches Some(rest) ==> after_mark(bytes@, mark) == Some(rest@),
{
    let rest = skip_space(bytes);
    if rest.len() > 0 && rest[0] == mark {
        let behind = slice_subrange(rest, 1, rest.len());
        assert(behind@ == rest@.drop_first());
        Some(behind)
    } else {
        None
    }
}

/// Reads a JSON value, and returns its text and what follows it.
fn read_value<'a>(bytes: &'a [u8]) -> (res: Option<(&'a str, &'a [u8])>)
    ensures
        res is Some <==> value_and_rest(bytes@) is Some,
        res matches Some((text, rest)) ==> {
            &&& value_and_rest(bytes@) == Some((text@, rest@))
            &&& is_value_text(text@)
        },
{
    match read_prefix(bytes) {
        Some((text, end)) => {
            let rest = slice_subrange(bytes, end, bytes.len());
            assert(rest@ == bytes@.skip(end as int));
            Some((text, rest))
        },
        None => None,
    }
}

/// Reads a member of an object, and returns its name, the text of its value and what follows it.
fn read_member<'a>(bytes: &'a [u8]) -> (res: Option<(String, &'a str, &'a [u8])>)
    ensures
        res is Some <==> member_and_rest(bytes@) is Some,
        res matches Some((name, value, rest)) ==> {
            &&& member_and_rest(bytes@) == Some(((name@, value@), rest@))
            &&& is_value_text(value@)
        },
{
    let (key, behind_key) = match read_value(bytes) {
        Some(found) => found,
        None => return None,
    };
    let name = match read_string(key) {
        Ok(name) => name,
        Err(_) => return None,
    };
    let behind_colon = match read_mark(behind_key, 0x3a) {
        Some(rest) => rest,
        None => return None,
    };
    match read_value(behind_colon) {
        Some((value, rest)) => Some((name, value, rest)),
        None => None,
    }
}

/// What members read from the wire hold.
pub open spec fn views<'a>(members: Seq<(String, &'a str)>) -> Seq<Member> {
    Seq::new(members.len(), |i: int| (members[i].0@, members[i].1@))
}

/// Reads the members of an object from the first name on, up to the closing brace, and returns
/// them with what follows.
fn read_members<'a>(bytes: &'a [u8]) -> (res: Option<(Vec<(String, &'a str)>, &'a [u8])>)
    ensures
        res is Some <==> members_and_rest(bytes@) is Some,
        res matches Some((members, rest)) ==> {
            &&& members_and_rest(bytes@) == Some((views(members@), rest@))
            &&& forall|i: int| 0 <= i < members.len() ==> is_value_text((#[trigger] members@[i]).1@)
        },
{
    let mut members: Vec<(String, &'a str)> = Vec::new();
    let mut rest: &'a [u8] = bytes;
    assert(views(members@) == Seq::<Member>::empty());
    assert(members_and_rest(bytes@) matches Some((ms, r)) ==> Seq::<Member>::empty() + ms == ms);
    loop
        invariant
            members_and_rest(bytes@) == (match members_and_rest(rest@) {
                Some((ms, r)) => Some((views(members@) + ms, r)),
                None => None,
            }),
            forall|i: int| 0 <= i < members.len() ==> is_value_text((#[trigger] members@[i]).1@),
        decreases rest@.len(),
    {
        let ghost before = rest@;
        let ghost members_before = members@;
        let (name, value, behind) = match read_member(rest) {
            Some(found) => found,
            None => return None,
        };
        proof {
            lemma_member_and_rest_len(before);
            lemma_member_and_rest_len(behind@);
        }
        let ghost member: Member = (name@, value@);
        members.push((name, value));
        assert(views(members@) == views(members_before).push(member));
        if let Some(end) = read_mark(behind, 0x7d) {
            assert(views(members_before) + seq![member] == views(members@));
            return Some((members, end));
        }
        match read_mark(behind, 0x2c) {
            Some(next) => {
                assert(members_and_rest(next@) matches Some((ms, r)) ==> views(members_before) + (
                seq![member] + ms) == views(members@) + ms);
                rest = next;
            },
            None => return None,
        }
    }
}

/// Reads one JSON object, and returns its members.
pub(crate) fn read_object<'a>(bytes: &'a [u8]) -> (res: Option<Vec<(String, &'a str)>>)
    ensures
        res is Some <==> object_members(bytes@) is Some,
        res matches Some(members) ==> {
            &&& object_members(bytes@) == Some(views(members@))
            &&& forall|i: int| 0 <= i < members.len() ==> is_value_text((#[trigger] members@[i]).1@)
        },
{
    let inner = match read_mark(bytes, 0x7b) {
        Some(inner) => inner,
        None => return None,
    };
    if let Some(rest) = read_mark(inner, 0x7d) {
        if skip_space(rest).len() == 0 {
            let members: Vec<(String, &'a str)> = Vec::new();
            assert(views(members@) == Seq::<Member>::empty());
            return Some(members);
        }
        return None;
    }
    match read_members(inner) {
        Some((members, rest)) => if skip_space(rest).len() == 0 {
            Some(members)
        } else {
            None
        },
        None => None,
    }
}

// Writing ----------------------------------------------------------------------------------------
/// The text of the members of an object, from the first name on, with the closing brace.
pub open spec fn members_text(members: Seq<Member>) -> Seq<char>
    decreases members.len(),
{
    if members.len() == 0 {
        seq!['}']
    } else {
        let end = if members.len() == 1 {
            seq!['}']
        } else {
            seq![','] + members_text(members.drop_first())
        };
        quoted(members[0].0) + seq![':'] + members[0].1 + end
    }
}

/// The text of the JSON object with the given members.
pub open spec fn object_text(members: Seq<Member>) -> Seq<char> {
    seq!['{'] + members_text(members)
}

/// The text of an object starts with its bracket.
pub proof fn lemma_object_start(members: Seq<Member>)
    ensures
        encode_utf8(object_text(members)).len() > 0,
        encode_utf8(object_text(members))[0] == 0x7b,
{
    lemma_encode_concat(seq!['{'], members_text(members));
    lemma_encode_mark('{');
}

/// Every name can be read back, and every value is the text of a JSON value.
spec fn readable(members: Seq<Member>) -> bool {
    forall|i: int|
        0 <= i < members.len() ==> {
            let (name, value) = #[trigger] members[i];
            &&& is_value_text(quoted(name))
            &&& json_string(quoted(name)) == Some(name)
            &&& is_value_text(value)
        }
}

proof fn lemma_encode_concat(a: Seq<char>, b: Seq<char>)
    ensures
        encode_utf8(a + b) == encode_utf8(a) + encode_utf8(b),
    decreases a.len(),
{
    if a.len() == 0 {
        assert(a + b == b);
        assert(encode_utf8(a) + encode_utf8(b) == encode_utf8(b));
    } else {
        assert((a + b).drop_first() == a.drop_first() + b);
        lemma_encode_concat(a.drop_first(), b);
        let first = vstd::utf8::encode_scalar(a[0] as u32);
        assert(first + (encode_utf8(a.drop_first()) + encode_utf8(b)) == (first + encode_utf8(
            a.drop_first(),
        )) + encode_utf8(b));
    }
}

proof fn lemma_encode_mark(mark: char)
    requires
        (mark as u32) < 0x80,
    ensures
        encode_utf8(seq![mark]) == seq![mark as u8],
{
    let s = seq![mark];
    vstd::utf8::is_ascii_chars_encode_utf8(s);
    assert(encode_utf8(s) =~= seq![mark as u8]);
}

/// A value text before a mark is read back, and the mark is found behind it.
proof fn lemma_read_back_value(text: Seq<char>, mark: u8, rest: Seq<u8>)
    requires
        is_value_text(text),
        mark == 0x2c || mark == 0x3a || mark == 0x7d,
    ensures
        value_and_rest(encode_utf8(text) + (seq![mark] + rest)) == Some((text, seq![mark] + rest)),
        after_mark(seq![mark] + rest, mark) == Some(rest),
        forall|other: u8| other != mark ==> after_mark(seq![mark] + rest, other) is None,
{
    let behind = seq![mark] + rest;
    assert(behind[0] == mark);
    let bytes = encode_utf8(text) + behind;
    assert(json_prefix(bytes) == Some((text, encode_utf8(text).len() as int)));
    assert(bytes.skip(encode_utf8(text).len() as int) == behind);
    assert(drop_space(behind) == behind);
    assert(behind.drop_first() == rest);
}

/// What was written is read back: the members of the text of an object are those it was made of.
proof fn lemma_read_back_members(members: Seq<Member>, rest: Seq<u8>)
    requires
        members.len() > 0,
        readable(members),
    ensures
        members_and_rest(encode_utf8(members_text(members)) + rest) == Some((members, rest)),
    decreases members.len(),
{
    let (name, value) = members[0];
    let key = quoted(name);
    let tail = members.drop_first();
    let last = members.len() == 1;
    let mark: u8 = if last {
        0x7d
    } else {
        0x2c
    };
    let next = if last {
        Seq::<char>::empty()
    } else {
        members_text(tail)
    };
    let end = if last {
        seq!['}']
    } else {
        seq![','] + next
    };
    let bytes = encode_utf8(members_text(members)) + rest;
    let behind_mark = encode_utf8(next) + rest;
    assert(encode_utf8(end) == seq![mark] + encode_utf8(next)) by {
        lemma_encode_mark(',');
        lemma_encode_mark('}');
        lemma_encode_concat(seq![','], next);
    }
    assert(bytes == encode_utf8(key) + (seq![0x3au8] + (encode_utf8(value) + (seq![mark]
        + behind_mark)))) by {
        lemma_encode_concat(key + seq![':'] + value, end);
        lemma_encode_concat(key + seq![':'], value);
        lemma_encode_concat(key, seq![':']);
        lemma_encode_mark(':');
    }
    lemma_read_back_value(key, 0x3a, encode_utf8(value) + (seq![mark] + behind_mark));
    lemma_read_back_value(value, mark, behind_mark);
    assert(member_and_rest(bytes) == Some(((name, value), seq![mark] + behind_mark)));
    if last {
        assert(behind_mark == rest);
        assert(members == seq![members[0]]);
    } else {
        assert forall|i: int| 0 <= i < tail.len() implies {
            let (n, v) = #[trigger] tail[i];
            &&& is_value_text(quoted(n))
            &&& json_string(quoted(n)) == Some(n)
            &&& is_value_text(v)
        } by {
            assert(tail[i] == members[i + 1]);
        }
        lemma_read_back_members(tail, rest);
        assert(members == seq![members[0]] + tail);
    }
}

proof fn lemma_read_back_object(members: Seq<Member>)
    requires
        readable(members),
    ensures
        object_members(encode_utf8(object_text(members))) == Some(members),
{
    let bytes = encode_utf8(object_text(members));
    let inner = encode_utf8(members_text(members));
    let none = Seq::<u8>::empty();
    lemma_encode_concat(seq!['{'], members_text(members));
    lemma_encode_mark('{');
    lemma_encode_mark('}');
    assert(bytes == seq![0x7bu8] + inner);
    assert(drop_space(bytes) == bytes);
    assert(bytes.drop_first() == inner);
    if members.len() == 0 {
        assert(drop_space(inner) == inner);
        assert(inner.drop_first() == none);
        assert(members == Seq::<Member>::empty());
    } else {
        assert(inner + none == inner);
        lemma_read_back_members(members, none);
        lemma_quoted_start(members[0].0);
        let text = members_text(members);
        assert(text == seq!['"'] + text.drop_first());
        lemma_encode_concat(seq!['"'], text.drop_first());
        lemma_encode_mark('"');
        assert(inner[0] == 0x22);
        assert(drop_space(inner) == inner);
        assert(after_mark(inner, 0x7d) is None);
    }
}

proof fn lemma_quoted_start(s: Seq<char>)
    ensures
        quoted(s).len() >= 2,
        quoted(s)[0] == '"',
{
}

/// The members to be written: their names, and the texts of their values.
pub open spec fn written<'a>(members: Seq<(&'a str, String)>) -> Seq<Member> {
    Seq::new(members.len(), |i: int| (members[i].0@, members[i].1@))
}

/// Writes the JSON object with the given members. If every value is the text of a JSON value, the
/// members can be read back.
pub(crate) fn write_object<'a>(members: &Vec<(&'a str, String)>) -> (text: String)
    ensures
        text@ == object_text(written(members@)),
        (forall|i: int| 0 <= i < members.len() ==> is_value_text((#[trigger] members@[i]).1@))
            ==> object_members(encode_utf8(text@)) == Some(written(members@)),
{
    let ghost all = written(members@);
    let mut text = String::new();
    text.append("{");
    proof {
        reveal_strlit("{");
        reveal_strlit(":");
        reveal_strlit(",");
        reveal_strlit("}");
    }
    assert(text@ == seq!['{']);
    assert(all.skip(0) == all);
    if members.len() == 0 {
        text.append("}");
        assert(text@ == object_text(all));
    }
    let mut at: usize = 0;
    while at < members.len()
        invariant
            at <= members.len(),
            all == written(members@),
            members.len() == 0 ==> text@ == object_text(all),
            at < members.len() ==> object_text(all) == text@ + members_text(all.skip(at as int)),
            at == members.len() ==> object_text(all) == text@,
            forall|i: int|
                0 <= i < at ==> {
                    let name = (#[trigger] members@[i]).0@;
                    is_value_text(quoted(name)) && json_string(quoted(name)) == Some(name)
                },
            ":"@ == seq![':'],
            ","@ == seq![','],
            "}"@ == seq!['}'],
        decreases members.len() - at,
    {
        let ghost before = text@;
        let ghost left = all.skip(at as int);
        let name = members[at].0;
        let value = members[at].1.as_str();
        let key = write_string(name).unwrap();
        text.append(key.as_str());
        text.append(":");
        text.append(value);
        assert(left[0] == (name@, value@));
        assert(left.drop_first() == all.skip(at + 1));
        assert(text@ == before + quoted(name@) + seq![':'] + value@);
        if at + 1 < members.len() {
            text.append(",");
            assert(before + members_text(left) == text@ + members_text(all.skip(at + 1)));
        } else {
            text.append("}");
            assert(before + members_text(left) == text@);
        }
        at += 1;
    }
    proof {
        if forall|i: int| 0 <= i < members.len() ==> is_value_text((#[trigger] members@[i]).1@) {
            assert(readable(all)) by {
                assert forall|i: int| 0 <= i < all.len() implies {
                    let (n, v) = #[trigger] all[i];
                    &&& is_value_text(quoted(n))
                    &&& json_string(quoted(n)) == Some(n)
                    &&& is_value_text(v)
                } by {
                    assert(all[i] == (members@[i].0@, members@[i].1@));
                }
            }
            lemma_read_back_object(all);
        }
    }
    text
}

/// The text of the elements of an array, with the closing bracket.
pub open spec fn elements_text(texts: Seq<Seq<char>>) -> Seq<char>
    decreases texts.len(),
{
    if texts.len() == 0 {
        seq![']']
    } else {
        let end = if texts.len() == 1 {
            seq![']']
        } else {
            seq![','] + elements_text(texts.drop_first())
        };
        texts[0] + end
    }
}

/// The text of the JSON array whose elements have the given texts.
pub open spec fn array_text(texts: Seq<Seq<char>>) -> Seq<char> {
    seq!['['] + elements_text(texts)
}

/// Writes the JSON array whose elements have the given texts.
pub(crate) fn write_array(texts: &Vec<String>) -> (text: String)
    ensures
        text@ == array_text(texts@.map_values(|t: String| t@)),
{
    let ghost all = texts@.map_values(|t: String| t@);
    let mut text = String::new();
    text.append("[");
    proof {
        reveal_strlit("[");
        reveal_strlit(",");
        reveal_strlit("]");
    }
    assert(text@ == seq!['[']);
    assert(all.skip(0) == all);
    if texts.len() == 0 {
        text.append("]");
        assert(text@ == array_text(all));
    }
    let mut at: usize = 0;
    while at < texts.len()
        invariant
            at <= texts.len(),
            all == texts@.map_values(|t: String| t@),
            texts.len() == 0 ==> text@ == array_text(all),
            at < texts.len() ==> array_text(all) == text@ + elements_text(all.skip(at as int)),
            at == texts.len() ==> array_text(all) == text@,
            ","@ == seq![','],
            "]"@ == seq![']'],
        decreases texts.len() - at,
    {
        let ghost before = text@;
        let ghost left = all.skip(at as int);
        text.append(texts[at].as_str());
        assert(left[0] == texts@[at as int]@);
        assert(left.drop_first() == all.skip(at + 1));
        if at + 1 < texts.len() {
            text.append(",");
            assert(before + elements_text(left) == text@ + elements_text(all.skip(at + 1)));
        } else {
            text.append("]");
            assert(before + elements_text(left) == text@);
        }
        at += 1;
    }
    text
}

} // verus!

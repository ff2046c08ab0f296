//! What holds of how literals are found in Rust source.

use crate::source::{
    comment_end, hashes_end, line_end, may_hold_unknown_literal, quoted_end, raw_end, stands_at,
    unknown_from, word_end,
};
use vstd::prelude::*;
use vstd::utf8::encode_utf8;

verus! {

/// `byte` is an ASCII letter, an ASCII digit or the underscore.
pub open spec fn in_word(byte: u8) -> bool {
    0x30 <= byte <= 0x39 || 0x41 <= byte <= 0x5a || 0x61 <= byte <= 0x7a || byte == 0x5f
}

/// The bytes from `at` to `end` are ASCII letters, digits and underscores, and no word goes on
/// behind them.
pub open spec fn is_ascii_word(bytes: Seq<u8>, at: int, end: int) -> bool {
    &&& 0 <= at <= end <= bytes.len()
    &&& forall|i: int| at <= i < end ==> in_word(#[trigger] bytes[i])
    &&& no_word_at(bytes, end)
}

/// No word begins or goes on at `at`.
pub open spec fn no_word_at(bytes: Seq<u8>, at: int) -> bool {
    at == bytes.len() || 0 <= at < bytes.len() && !in_word(bytes[at]) && bytes[at] < 0x80
}

proof fn lemma_word(bytes: Seq<u8>, at: int, end: int)
    requires
        is_ascii_word(bytes, at, end),
    ensures
        word_end(bytes, at) == end,
    decreases end - at,
{
    if at < end {
        lemma_word(bytes, at + 1, end);
    }
}

proof fn lemma_marker(bytes: Seq<u8>, at: int)
    requires
        0 <= at < bytes.len(),
        bytes[at] != 0x28,
    ensures
        !stands_at(bytes, at, "(/*ERROR*/)"@),
{
    reveal_strlit("(/*ERROR*/)");
    let text = "(/*ERROR*/)"@;
    vstd::utf8::is_ascii_chars_encode_utf8(text);
    assert(encode_utf8(text)[0] == 0x28);
    if stands_at(bytes, at, text) {
        assert(bytes.subrange(at, at + encode_utf8(text).len())[0] == bytes[at]);
    }
}

/// A text stands where its bytes stand.
pub proof fn law_text_stands_where_its_bytes_are(before: Seq<u8>, text: Seq<char>, behind: Seq<u8>)
    ensures
        stands_at(before + encode_utf8(text) + behind, before.len() as int, text),
{
    let bytes = before + encode_utf8(text) + behind;
    let at = before.len() as int;
    assert(bytes.subrange(at, at + encode_utf8(text).len()) =~= encode_utf8(text));
}

/// A text is walked through from its start to its end.
pub proof fn law_whole_text_is_walked(text: Seq<char>, bytes: Seq<u8>)
    ensures
        may_hold_unknown_literal(text) <==> unknown_from(encode_utf8(text), 0),
        !unknown_from(bytes, bytes.len() as int),
{
}

/// A C string at the start of a token is refused, and so is what stands for a literal that could
/// not be read.
pub proof fn law_c_strings_are_refused(bytes: Seq<u8>, at: int)
    requires
        0 <= at < bytes.len(),
    ensures
        at + 1 < bytes.len() && bytes[at] == 0x63 && bytes[at + 1] == 0x22 ==> unknown_from(
            bytes,
            at,
        ),
        at + 2 < bytes.len() && bytes[at] == 0x63 && bytes[at + 1] == 0x72 && (bytes[at + 2] == 0x22
            || bytes[at + 2] == 0x23) ==> unknown_from(bytes, at),
        stands_at(bytes, at, "(/*ERROR*/)"@) ==> unknown_from(bytes, at),
{
    if at + 1 < bytes.len() && bytes[at] == 0x63 && bytes[at + 1] == 0x22 {
        lemma_word(bytes, at, at + 1);
    }
    if at + 2 < bytes.len() && bytes[at] == 0x63 && bytes[at + 1] == 0x72 && (bytes[at + 2] == 0x22
        || bytes[at + 2] == 0x23) {
        lemma_word(bytes, at, at + 2);
    }
}

/// A word that no quote and no `#` follows is passed over.
pub proof fn law_words_are_passed_over(bytes: Seq<u8>, at: int, end: int)
    requires
        at < end,
        is_ascii_word(bytes, at, end),
        end < bytes.len() ==> bytes[end] != 0x22 && bytes[end] != 0x27 && bytes[end] != 0x23,
    ensures
        unknown_from(bytes, at) == unknown_from(bytes, end),
{
    lemma_word(bytes, at, end);
    lemma_marker(bytes, at);
}

/// A word before a quote is passed over unless it makes a raw string or a C string.
pub proof fn law_words_before_quotes_are_passed_over(bytes: Seq<u8>, at: int, end: int)
    requires
        at < end < bytes.len(),
        is_ascii_word(bytes, at, end),
        bytes[end] == 0x22,
        end - at > 2 || end - at == 1 && bytes[at] != 0x63 && bytes[at] != 0x72,
    ensures
        unknown_from(bytes, at) == unknown_from(bytes, end),
{
    lemma_word(bytes, at, end);
    lemma_marker(bytes, at);
}

/// A byte that belongs to no word, no literal and no comment is passed over.
pub proof fn law_punctuation_is_passed_over(bytes: Seq<u8>, at: int)
    requires
        0 <= at < bytes.len(),
        no_word_at(bytes, at),
        bytes[at] != 0x22,
        bytes[at] != 0x27,
        bytes[at] != 0x2f,
        bytes[at] != 0x28,
    ensures
        unknown_from(bytes, at) == unknown_from(bytes, at + 1),
{
    lemma_marker(bytes, at);
}

proof fn lemma_quoted(bytes: Seq<u8>, at: int, end: int, quote: u8)
    requires
        0 <= at <= end < bytes.len(),
        quote != 0x5c,
        bytes[end] == quote,
        forall|i: int| at <= i < end ==> #[trigger] bytes[i] != quote && bytes[i] != 0x5c,
    ensures
        quoted_end(bytes, at, quote) == end + 1,
    decreases end - at,
{
    if at < end {
        assert(bytes[at] != quote);
        lemma_quoted(bytes, at + 1, end, quote);
    }
}

/// What is in a string literal does not matter.
pub proof fn law_contents_of_strings_do_not_matter(bytes: Seq<u8>, at: int, end: int)
    requires
        0 <= at < end < bytes.len(),
        bytes[at] == 0x22,
        bytes[end] == 0x22,
        forall|i: int| at < i < end ==> #[trigger] bytes[i] != 0x22 && bytes[i] != 0x5c,
        no_word_at(bytes, end + 1),
    ensures
        unknown_from(bytes, at) == unknown_from(bytes, end + 1),
{
    lemma_quoted(bytes, at + 1, end, 0x22);
    lemma_marker(bytes, at);
    assert(word_end(bytes, at) == at);
    lemma_word(bytes, end + 1, end + 1);
}

/// In a string literal a backslash takes the next byte with it, be it a quote, and any other byte
/// but the quote is passed over.
pub proof fn law_backslash_takes_the_next_byte(bytes: Seq<u8>, at: int, quote: u8)
    requires
        0 <= at,
        at + 1 < bytes.len(),
        quote != 0x5c,
    ensures
        bytes[at] == 0x5c ==> quoted_end(bytes, at, quote) == quoted_end(bytes, at + 2, quote),
        bytes[at] == quote ==> quoted_end(bytes, at, quote) == at + 1,
        bytes[at] != 0x5c && bytes[at] != quote ==> quoted_end(bytes, at, quote) == quoted_end(
            bytes,
            at + 1,
            quote,
        ),
{
}

/// A string literal ends where its quote is found, and what follows is walked through from there.
pub proof fn law_string_ends_at_its_quote(bytes: Seq<u8>, at: int)
    requires
        0 <= at < bytes.len(),
        bytes[at] == 0x22,
        no_word_at(bytes, quoted_end(bytes, at + 1, 0x22)),
    ensures
        unknown_from(bytes, at) == unknown_from(bytes, quoted_end(bytes, at + 1, 0x22)),
{
    let end = quoted_end(bytes, at + 1, 0x22);
    lemma_marker(bytes, at);
    assert(word_end(bytes, at) == at);
    assert(word_end(bytes, end) == end);
}

proof fn lemma_raw_one(bytes: Seq<u8>, at: int, end: int)
    requires
        0 <= at <= end,
        end + 1 < bytes.len(),
        bytes[end] == 0x22,
        bytes[end + 1] == 0x23,
        forall|i: int| at <= i < end && #[trigger] bytes[i] == 0x22 ==> bytes[i + 1] != 0x23,
    ensures
        raw_end(bytes, at, 1) == end + 2,
    decreases end - at,
{
    lemma_hashes(bytes, at + 2);
    if at < end {
        if bytes[at] == 0x22 {
            assert(bytes[at + 1] != 0x23);
            assert(hashes_end(bytes, at + 1) == at + 1);
        }
        lemma_raw_one(bytes, at + 1, end);
    }
}

/// What is in a raw string with `#` around it does not matter, quotes without `#` included.
pub proof fn law_contents_of_hashed_strings_do_not_matter(bytes: Seq<u8>, at: int, end: int)
    requires
        0 <= at,
        at + 3 <= end,
        end + 1 < bytes.len(),
        bytes[at] == 0x72,
        bytes[at + 1] == 0x23,
        bytes[at + 2] == 0x22,
        bytes[end] == 0x22,
        bytes[end + 1] == 0x23,
        forall|i: int| at + 2 < i < end && #[trigger] bytes[i] == 0x22 ==> bytes[i + 1] != 0x23,
        no_word_at(bytes, end + 2),
    ensures
        unknown_from(bytes, at) == unknown_from(bytes, end + 2),
{
    lemma_word(bytes, at, at + 1);
    assert(hashes_end(bytes, at + 2) == at + 2);
    assert(hashes_end(bytes, at + 1) == at + 2);
    lemma_raw_one(bytes, at + 3, end);
    lemma_marker(bytes, at);
    lemma_word(bytes, end + 2, end + 2);
}

proof fn lemma_raw(bytes: Seq<u8>, at: int, end: int)
    requires
        0 <= at <= end < bytes.len(),
        bytes[end] == 0x22,
        forall|i: int| at <= i < end ==> #[trigger] bytes[i] != 0x22,
    ensures
        raw_end(bytes, at, 0) == end + 1,
    decreases end - at,
{
    lemma_hashes(bytes, at + 1);
    if at < end {
        assert(bytes[at] != 0x22);
        lemma_raw(bytes, at + 1, end);
    }
}

proof fn lemma_hashes(bytes: Seq<u8>, at: int)
    requires
        0 <= at <= bytes.len(),
    ensures
        hashes_end(bytes, at) >= at,
    decreases bytes.len() - at,
{
    if at < bytes.len() {
        lemma_hashes(bytes, at + 1);
    }
}

/// What is in a raw string does not matter, and a backslash in it is nothing special.
pub proof fn law_contents_of_raw_strings_do_not_matter(bytes: Seq<u8>, at: int, end: int)
    requires
        0 <= at,
        at + 2 <= end < bytes.len(),
        bytes[at] == 0x72,
        bytes[at + 1] == 0x22,
        bytes[end] == 0x22,
        forall|i: int| at + 1 < i < end ==> #[trigger] bytes[i] != 0x22,
        no_word_at(bytes, end + 1),
    ensures
        unknown_from(bytes, at) == unknown_from(bytes, end + 1),
{
    lemma_word(bytes, at, at + 1);
    lemma_raw(bytes, at + 2, end);
    lemma_marker(bytes, at);
    lemma_word(bytes, end + 1, end + 1);
}

/// The character in a character literal does not matter, be it a quote.
pub proof fn law_characters_do_not_matter(bytes: Seq<u8>, at: int)
    requires
        0 <= at,
        at + 2 < bytes.len(),
        bytes[at] == 0x27,
        bytes[at + 1] < 0x80,
        bytes[at + 1] != 0x5c,
        bytes[at + 2] == 0x27,
        no_word_at(bytes, at + 3),
    ensures
        unknown_from(bytes, at) == unknown_from(bytes, at + 3),
{
    lemma_marker(bytes, at);
    assert(word_end(bytes, at) == at);
    lemma_word(bytes, at + 3, at + 3);
}

/// An escaped character in a character literal does not matter, be it the quote.
pub proof fn law_escaped_characters_do_not_matter(bytes: Seq<u8>, at: int)
    requires
        0 <= at,
        at + 3 < bytes.len(),
        bytes[at] == 0x27,
        bytes[at + 1] == 0x5c,
        bytes[at + 3] == 0x27,
        no_word_at(bytes, at + 4),
    ensures
        unknown_from(bytes, at) == unknown_from(bytes, at + 4),
{
    lemma_marker(bytes, at);
    assert(word_end(bytes, at) == at);
    assert(quoted_end(bytes, at + 3, 0x27) == at + 4);
    assert(quoted_end(bytes, at + 1, 0x27) == at + 4);
    lemma_word(bytes, at + 4, at + 4);
}

/// The quote of a lifetime does not begin a literal.
pub proof fn law_lifetimes_are_passed_over(bytes: Seq<u8>, at: int)
    requires
        0 <= at,
        at + 2 < bytes.len(),
        bytes[at] == 0x27,
        in_word(bytes[at + 1]),
        bytes[at + 2] != 0x27,
    ensures
        unknown_from(bytes, at) == unknown_from(bytes, at + 1),
{
    lemma_marker(bytes, at);
    assert(word_end(bytes, at) == at);
}

proof fn lemma_line(bytes: Seq<u8>, at: int, end: int)
    requires
        0 <= at <= end <= bytes.len(),
        end < bytes.len() ==> bytes[end] == 0x0a,
        forall|i: int| at <= i < end ==> #[trigger] bytes[i] != 0x0a,
    ensures
        line_end(bytes, at) == end,
    decreases end - at,
{
    if at < end {
        assert(bytes[at] != 0x0a);
        lemma_line(bytes, at + 1, end);
    }
}

/// What is in a comment up to the end of a line does not matter.
pub proof fn law_line_comments_do_not_matter(bytes: Seq<u8>, at: int, end: int)
    requires
        0 <= at,
        at + 2 <= end <= bytes.len(),
        bytes[at] == 0x2f,
        bytes[at + 1] == 0x2f,
        end < bytes.len() ==> bytes[end] == 0x0a,
        forall|i: int| at + 2 <= i < end ==> #[trigger] bytes[i] != 0x0a,
    ensures
        unknown_from(bytes, at) == unknown_from(bytes, end),
{
    lemma_line(bytes, at + 2, end);
    lemma_marker(bytes, at);
    assert(word_end(bytes, at) == at);
}

proof fn lemma_comment(bytes: Seq<u8>, at: int, end: int)
    requires
        0 <= at <= end,
        end + 1 < bytes.len(),
        bytes[end] == 0x2a,
        bytes[end + 1] == 0x2f,
        forall|i: int| at <= i < end ==> #[trigger] bytes[i] != 0x2f && bytes[i] != 0x2a,
    ensures
        comment_end(bytes, at, 0) == end + 2,
    decreases end - at,
{
    if at < end {
        assert(bytes[at] != 0x2f);
        lemma_comment(bytes, at + 1, end);
    }
}

/// What is in a block comment does not matter.
pub proof fn law_block_comments_do_not_matter(bytes: Seq<u8>, at: int, end: int)
    requires
        0 <= at,
        at + 2 <= end,
        end + 1 < bytes.len(),
        bytes[at] == 0x2f,
        bytes[at + 1] == 0x2a,
        bytes[end] == 0x2a,
        bytes[end + 1] == 0x2f,
        forall|i: int| at + 2 <= i < end ==> #[trigger] bytes[i] != 0x2f && bytes[i] != 0x2a,
    ensures
        unknown_from(bytes, at) == unknown_from(bytes, end + 2),
{
    lemma_comment(bytes, at + 2, end);
    lemma_marker(bytes, at);
    assert(word_end(bytes, at) == at);
}

} // verus!

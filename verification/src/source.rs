//! Rust source as far as it matters which literals it holds.
//!
//! A text is walked through piece by piece: string and character literals, comments, words, and
//! single bytes of anything else. Only where these begin and end is of interest.

use vstd::prelude::*;
use vstd::utf8::encode_utf8;

verus! {

/// The byte at `at` is `byte`.
pub open spec fn next_is(bytes: Seq<u8>, at: int, byte: u8) -> bool {
    0 <= at < bytes.len() && bytes[at] == byte
}

fn is_next(bytes: &[u8], at: usize, byte: u8) -> (res: bool)
    ensures
        res == next_is(bytes@, at as int, byte),
{
    at < bytes.len() && bytes[at] == byte
}

/// `byte` can be in a word: a letter, a digit, the underscore, or part of a character beyond ASCII.
pub open spec fn is_word(byte: u8) -> bool {
    0x30 <= byte <= 0x39 || 0x41 <= byte <= 0x5a || 0x61 <= byte <= 0x7a || byte == 0x5f || byte
        >= 0x80
}

/// The end of the word that begins at `at`; `at` itself if there is none.
pub open spec fn word_end(bytes: Seq<u8>, at: int) -> int
    decreases bytes.len() - at,
{
    if 0 <= at < bytes.len() && is_word(bytes[at]) {
        word_end(bytes, at + 1)
    } else {
        at
    }
}

/// The end of the run of `#` that begins at `at`; `at` itself if there is none.
pub open spec fn hashes_end(bytes: Seq<u8>, at: int) -> int
    decreases bytes.len() - at,
{
    if next_is(bytes, at, 0x23) {
        hashes_end(bytes, at + 1)
    } else {
        at
    }
}

/// The end of the literal between `quote`s whose content begins at `at`. A backslash takes the next
/// byte with it.
pub open spec fn quoted_end(bytes: Seq<u8>, at: int, quote: u8) -> int
    decreases bytes.len() + 1 - at,
{
    if at >= bytes.len() {
        bytes.len() as int
    } else if bytes[at] == 0x5c {
        quoted_end(bytes, at + 2, quote)
    } else if bytes[at] == quote {
        at + 1
    } else {
        quoted_end(bytes, at + 1, quote)
    }
}

/// The end of the raw string whose content begins at `at`: behind the first quote that is followed
/// by that many `#`.
pub open spec fn raw_end(bytes: Seq<u8>, at: int, hashes: int) -> int
    decreases bytes.len() - at,
{
    if at >= bytes.len() {
        bytes.len() as int
    } else if bytes[at] == 0x22 && hashes_end(bytes, at + 1) - (at + 1) >= hashes {
        at + 1 + hashes
    } else {
        raw_end(bytes, at + 1, hashes)
    }
}

/// The end of the line that `at` is in.
pub open spec fn line_end(bytes: Seq<u8>, at: int) -> int
    decreases bytes.len() - at,
{
    if at >= bytes.len() {
        bytes.len() as int
    } else if bytes[at] == 0x0a {
        at
    } else {
        line_end(bytes, at + 1)
    }
}

/// The end of the block comment that `at` is in, with `depth` more comments around it.
pub open spec fn comment_end(bytes: Seq<u8>, at: int, depth: nat) -> int
    decreases bytes.len() - at,
{
    if at >= bytes.len() {
        bytes.len() as int
    } else if next_is(bytes, at, 0x2f) && next_is(bytes, at + 1, 0x2a) {
        comment_end(bytes, at + 2, depth + 1)
    } else if next_is(bytes, at, 0x2a) && next_is(bytes, at + 1, 0x2f) {
        if depth == 0 {
            at + 2
        } else {
            comment_end(bytes, at + 2, (depth - 1) as nat)
        }
    } else {
        comment_end(bytes, at + 1, depth)
    }
}

/// The number of bytes of the character whose first byte is `byte`.
pub open spec fn char_len(byte: u8) -> int {
    if byte < 0x80 {
        1
    } else if byte < 0xe0 {
        2
    } else if byte < 0xf0 {
        3
    } else {
        4
    }
}

/// The end of the character literal that begins with the quote at `at`. Where there is none, the
/// quote belongs to a lifetime.
pub open spec fn char_end(bytes: Seq<u8>, at: int) -> Option<int> {
    if next_is(bytes, at + 1, 0x5c) {
        Some(quoted_end(bytes, at + 1, 0x27))
    } else if at + 1 < bytes.len() && next_is(bytes, at + 1 + char_len(bytes[at + 1]), 0x27) {
        Some(at + 2 + char_len(bytes[at + 1]))
    } else {
        None
    }
}

/// The word from `at` to `end` is `r` or `br`.
pub open spec fn is_raw_prefix(bytes: Seq<u8>, at: int, end: int) -> bool {
    ||| end == at + 1 && next_is(bytes, at, 0x72)
    ||| end == at + 2 && next_is(bytes, at, 0x62) && next_is(bytes, at + 1, 0x72)
}

/// A C string begins with the word from `at` to `end`: it is `c` before a quote, or `cr` before a
/// quote or `#`.
pub open spec fn is_c_string(bytes: Seq<u8>, at: int, end: int) -> bool {
    ||| end == at + 1 && next_is(bytes, at, 0x63) && next_is(bytes, end, 0x22)
    ||| end == at + 2 && next_is(bytes, at, 0x63) && next_is(bytes, at + 1, 0x72) && (next_is(
        bytes,
        end,
        0x22,
    ) || next_is(bytes, end, 0x23))
}

/// The piece that begins at `at`, up to the word that belongs to it, and whether there can be such
/// a word: the suffix of a literal, the name in a raw identifier, or the piece itself.
pub open spec fn piece(bytes: Seq<u8>, at: int) -> (int, bool) {
    let end = word_end(bytes, at);
    if next_is(bytes, at, 0x22) {
        (quoted_end(bytes, at + 1, 0x22), true)
    } else if next_is(bytes, at, 0x27) {
        match char_end(bytes, at) {
            Some(end) => (end, true),
            None => (at + 1, false),
        }
    } else if next_is(bytes, at, 0x2f) && next_is(bytes, at + 1, 0x2f) {
        (line_end(bytes, at + 2), false)
    } else if next_is(bytes, at, 0x2f) && next_is(bytes, at + 1, 0x2a) {
        (comment_end(bytes, at + 2, 0), false)
    } else if is_raw_prefix(bytes, at, end) && next_is(bytes, hashes_end(bytes, end), 0x22) {
        let open = hashes_end(bytes, end);
        (raw_end(bytes, open + 1, open - end), true)
    } else if is_raw_prefix(bytes, at, end) && next_is(bytes, end, 0x23) {
        (end + 1, true)
    } else if end > at {
        (at, true)
    } else {
        (at + 1, false)
    }
}

/// The end of the piece that begins at `at`, with the word that belongs to it.
pub open spec fn piece_end(bytes: Seq<u8>, at: int) -> int {
    let (end, takes_word) = piece(bytes, at);
    if takes_word {
        word_end(bytes, end)
    } else {
        end
    }
}

/// The word from `at` to `end` has characters beyond ASCII and stands before a quote or `#`. Such
/// characters may be white space, so it cannot be told here which word the quote or `#` belongs to.
pub open spec fn is_unclear(bytes: Seq<u8>, at: int, end: int) -> bool {
    &&& exists|i: int| at <= i < end && #[trigger] bytes[i] >= 0x80
    &&& next_is(bytes, end, 0x22) || next_is(bytes, end, 0x27) || next_is(bytes, end, 0x23)
}

/// `text` stands at the position `at` of `bytes`.
pub open spec fn stands_at(bytes: Seq<u8>, at: int, text: Seq<char>) -> bool {
    let found = encode_utf8(text);
    &&& 0 <= at
    &&& at + found.len() <= bytes.len()
    &&& bytes.subrange(at, at + found.len()) == found
}

/// The piece that begins at `at` is or may be a literal that `syn` does not know: a C string, or
/// what stands for a literal that could not be read.
pub open spec fn is_unknown_literal(bytes: Seq<u8>, at: int) -> bool {
    let (end, takes_word) = piece(bytes, at);
    ||| is_c_string(bytes, at, word_end(bytes, at))
    ||| takes_word && is_unclear(bytes, end, word_end(bytes, end))
    ||| stands_at(bytes, at, "(/*ERROR*/)"@)
}

proof fn lemma_ends(bytes: Seq<u8>, at: int)
    requires
        0 <= at <= bytes.len(),
    ensures
        at <= word_end(bytes, at) <= bytes.len(),
        at <= hashes_end(bytes, at) <= bytes.len(),
        at <= line_end(bytes, at) <= bytes.len(),
    decreases bytes.len() - at,
{
    if at < bytes.len() {
        lemma_ends(bytes, at + 1);
    }
}

proof fn lemma_quoted_end(bytes: Seq<u8>, at: int, quote: u8)
    requires
        0 <= at,
    ensures
        quoted_end(bytes, at, quote) <= bytes.len(),
        at <= bytes.len() ==> at <= quoted_end(bytes, at, quote),
        at < bytes.len() ==> at < quoted_end(bytes, at, quote),
    decreases bytes.len() + 1 - at,
{
    if at < bytes.len() {
        lemma_quoted_end(bytes, at + 1, quote);
        lemma_quoted_end(bytes, at + 2, quote);
    }
}

proof fn lemma_raw_end(bytes: Seq<u8>, at: int, hashes: int)
    requires
        0 <= at <= bytes.len(),
        0 <= hashes,
    ensures
        at <= raw_end(bytes, at, hashes) <= bytes.len(),
    decreases bytes.len() - at,
{
    if at < bytes.len() {
        lemma_ends(bytes, at + 1);
        lemma_raw_end(bytes, at + 1, hashes);
    }
}

proof fn lemma_comment_end(bytes: Seq<u8>, at: int, depth: nat)
    requires
        0 <= at <= bytes.len(),
    ensures
        at <= comment_end(bytes, at, depth) <= bytes.len(),
    decreases bytes.len() - at,
{
    if at < bytes.len() {
        lemma_comment_end(bytes, at + 1, depth);
        if at + 1 < bytes.len() {
            lemma_comment_end(bytes, at + 2, depth + 1);
            if depth > 0 {
                lemma_comment_end(bytes, at + 2, (depth - 1) as nat);
            }
        }
    }
}

/// A piece is not empty, and ends within the text.
proof fn lemma_piece(bytes: Seq<u8>, at: int)
    requires
        0 <= at < bytes.len(),
    ensures
        at <= piece(bytes, at).0 <= bytes.len(),
        at < piece_end(bytes, at) <= bytes.len(),
{
    let end = word_end(bytes, at);
    lemma_ends(bytes, at);
    lemma_quoted_end(bytes, at + 1, 0x22);
    lemma_quoted_end(bytes, at + 1, 0x27);
    lemma_ends(bytes, end);
    if next_is(bytes, at + 1, 0x2f) {
        lemma_ends(bytes, at + 2);
    }
    if next_is(bytes, at + 1, 0x2a) {
        lemma_comment_end(bytes, at + 2, 0);
    }
    let open = hashes_end(bytes, end);
    if next_is(bytes, open, 0x22) {
        lemma_raw_end(bytes, open + 1, open - end);
    }
    lemma_ends(bytes, piece(bytes, at).0);
}

/// One of the pieces from `at` on is or may be a literal that `syn` does not know.
pub open spec fn unknown_from(bytes: Seq<u8>, at: int) -> bool
    decreases bytes.len() - at,
    via unknown_from_decreases
{
    if 0 <= at < bytes.len() {
        is_unknown_literal(bytes, at) || unknown_from(bytes, piece_end(bytes, at))
    } else {
        false
    }
}

#[via_fn]
proof fn unknown_from_decreases(bytes: Seq<u8>, at: int) {
    if 0 <= at < bytes.len() {
        lemma_piece(bytes, at);
    }
}

/// `text` holds or may hold a literal that `syn` does not know.
pub open spec fn may_hold_unknown_literal(text: Seq<char>) -> bool {
    unknown_from(encode_utf8(text), 0)
}

fn find_word_end(bytes: &[u8], start: usize) -> (end: usize)
    requires
        start <= bytes.len(),
    ensures
        end == word_end(bytes@, start as int),
        start <= end <= bytes.len(),
{
    let mut at: usize = start;
    while at < bytes.len() && (0x30 <= bytes[at] && bytes[at] <= 0x39 || 0x41 <= bytes[at]
        && bytes[at] <= 0x5a || 0x61 <= bytes[at] && bytes[at] <= 0x7a || bytes[at] == 0x5f
        || bytes[at] >= 0x80)
        invariant
            start <= at <= bytes@.len(),
            word_end(bytes@, start as int) == word_end(bytes@, at as int),
        decreases bytes.len() - at,
    {
        at += 1;
    }
    at
}

fn find_hashes_end(bytes: &[u8], start: usize) -> (end: usize)
    requires
        start <= bytes.len(),
    ensures
        end == hashes_end(bytes@, start as int),
        start <= end <= bytes.len(),
{
    let mut at: usize = start;
    while at < bytes.len() && bytes[at] == 0x23
        invariant
            start <= at <= bytes@.len(),
            hashes_end(bytes@, start as int) == hashes_end(bytes@, at as int),
        decreases bytes.len() - at,
    {
        at += 1;
    }
    at
}

fn find_quoted_end(bytes: &[u8], start: usize, quote: u8) -> (end: usize)
    requires
        start <= bytes.len(),
    ensures
        end == quoted_end(bytes@, start as int, quote),
        start <= end <= bytes.len(),
{
    let mut at: usize = start;
    while at < bytes.len()
        invariant
            start <= at <= bytes@.len(),
            quoted_end(bytes@, start as int, quote) == quoted_end(bytes@, at as int, quote),
        decreases bytes.len() - at,
    {
        if bytes[at] == 0x5c {
            if bytes.len() - at < 2 {
                assert(quoted_end(bytes@, at + 2, quote) == bytes@.len());
                return bytes.len();
            }
            at += 2;
        } else if bytes[at] == quote {
            return at + 1;
        } else {
            at += 1;
        }
    }
    at
}

fn find_raw_end(bytes: &[u8], start: usize, hashes: usize) -> (end: usize)
    requires
        start <= bytes.len(),
    ensures
        end == raw_end(bytes@, start as int, hashes as int),
        start <= end <= bytes.len(),
{
    let mut at: usize = start;
    while at < bytes.len()
        invariant
            start <= at <= bytes@.len(),
            raw_end(bytes@, start as int, hashes as int) == raw_end(
                bytes@,
                at as int,
                hashes as int,
            ),
        decreases bytes.len() - at,
    {
        if bytes[at] == 0x22 && find_hashes_end(bytes, at + 1) - (at + 1) >= hashes {
            return at + 1 + hashes;
        }
        at += 1;
    }
    at
}

fn find_line_end(bytes: &[u8], start: usize) -> (end: usize)
    requires
        start <= bytes.len(),
    ensures
        end == line_end(bytes@, start as int),
        start <= end <= bytes.len(),
{
    let mut at: usize = start;
    while at < bytes.len() && bytes[at] != 0x0a
        invariant
            start <= at <= bytes@.len(),
            line_end(bytes@, start as int) == line_end(bytes@, at as int),
        decreases bytes.len() - at,
    {
        at += 1;
    }
    at
}

fn find_comment_end(bytes: &[u8], start: usize) -> (end: usize)
    requires
        start <= bytes.len(),
    ensures
        end == comment_end(bytes@, start as int, 0),
        start <= end <= bytes.len(),
{
    let mut at: usize = start;
    let mut depth: usize = 0;
    while at < bytes.len()
        invariant
            start <= at <= bytes@.len(),
            depth <= at,
            comment_end(bytes@, start as int, 0) == comment_end(bytes@, at as int, depth as nat),
        decreases bytes.len() - at,
    {
        if is_next(bytes, at, 0x2f) && is_next(bytes, at + 1, 0x2a) {
            at += 2;
            depth += 1;
        } else if is_next(bytes, at, 0x2a) && is_next(bytes, at + 1, 0x2f) {
            if depth == 0 {
                return at + 2;
            }
            at += 2;
            depth -= 1;
        } else {
            at += 1;
        }
    }
    at
}

fn find_char_end(bytes: &[u8], at: usize) -> (end: Option<usize>)
    requires
        at < bytes.len(),
    ensures
        match (char_end(bytes@, at as int), end) {
            (Some(expected), Some(end)) => end == expected,
            (None, None) => true,
            _ => false,
        },
        end matches Some(end) ==> at < end <= bytes.len(),
{
    if is_next(bytes, at + 1, 0x5c) {
        return Some(find_quoted_end(bytes, at + 1, 0x27));
    }
    if at + 1 >= bytes.len() {
        return None;
    }
    let first: u8 = bytes[at + 1];
    let len: usize = if first < 0x80 {
        1
    } else if first < 0xe0 {
        2
    } else if first < 0xf0 {
        3
    } else {
        4
    };
    if len < bytes.len() - (at + 1) && bytes[at + 1 + len] == 0x27 {
        Some(at + 2 + len)
    } else {
        None
    }
}

fn find_piece(bytes: &[u8], at: usize) -> (res: (usize, bool))
    requires
        at < bytes.len(),
    ensures
        res.0 == piece(bytes@, at as int).0,
        res.1 == piece(bytes@, at as int).1,
        at <= res.0 <= bytes.len(),
{
    proof {
        lemma_piece(bytes@, at as int);
    }
    let end = find_word_end(bytes, at);
    if bytes[at] == 0x22 {
        return (find_quoted_end(bytes, at + 1, 0x22), true);
    }
    if bytes[at] == 0x27 {
        return match find_char_end(bytes, at) {
            Some(end) => (end, true),
            None => (at + 1, false),
        };
    }
    if bytes[at] == 0x2f && is_next(bytes, at + 1, 0x2f) {
        return (find_line_end(bytes, at + 2), false);
    }
    if bytes[at] == 0x2f && is_next(bytes, at + 1, 0x2a) {
        return (find_comment_end(bytes, at + 2), false);
    }
    let raw = end - at == 1 && bytes[at] == 0x72 || end - at == 2 && bytes[at] == 0x62 && bytes[at
        + 1] == 0x72;
    if raw {
        let open = find_hashes_end(bytes, end);
        if is_next(bytes, open, 0x22) {
            return (find_raw_end(bytes, open + 1, open - end), true);
        }
        if is_next(bytes, end, 0x23) {
            return (end + 1, true);
        }
    }
    if end > at {
        (at, true)
    } else {
        (at + 1, false)
    }
}

/// Whether `text` stands at the position `at` of `bytes`.
fn find_at(bytes: &[u8], at: usize, text: &str) -> (res: bool)
    requires
        at <= bytes.len(),
    ensures
        res == stands_at(bytes@, at as int, text@),
{
    let found = text.as_bytes();
    if found.len() > bytes.len() - at {
        return false;
    }
    let mut i: usize = 0;
    while i < found.len()
        invariant
            i <= found.len(),
            found@ == encode_utf8(text@),
            at + found.len() <= bytes.len(),
            forall|j: int| 0 <= j < i ==> #[trigger] found@[j] == bytes@[at + j],
        decreases found.len() - i,
    {
        if found[i] != bytes[at + i] {
            assert(bytes@.subrange(at as int, at + found.len())[i as int] != found@[i as int]);
            return false;
        }
        i += 1;
    }
    assert(bytes@.subrange(at as int, at + found.len()) =~= found@);
    true
}

/// Whether the word from `at` to `end` has characters beyond ASCII and stands before a quote or
/// `#`.
fn find_unclear(bytes: &[u8], at: usize, end: usize) -> (res: bool)
    requires
        at <= end <= bytes.len(),
    ensures
        res == is_unclear(bytes@, at as int, end as int),
{
    if !is_next(bytes, end, 0x22) && !is_next(bytes, end, 0x27) && !is_next(bytes, end, 0x23) {
        return false;
    }
    for i in at..end
        invariant
            at <= end <= bytes.len(),
            next_is(bytes@, end as int, 0x22) || next_is(bytes@, end as int, 0x27) || next_is(
                bytes@,
                end as int,
                0x23,
            ),
            forall|j: int| at <= j < i ==> #[trigger] bytes@[j] < 0x80,
    {
        if bytes[i] >= 0x80 {
            assert(bytes@[i as int] >= 0x80);
            return true;
        }
    }
    false
}

/// Whether `text` holds or may hold a literal that `syn` does not know.
pub(crate) fn find_unknown_literal(text: &str) -> (res: bool)
    ensures
        res == may_hold_unknown_literal(text@),
{
    let bytes = text.as_bytes();
    let mut at: usize = 0;
    while at < bytes.len()
        invariant
            at <= bytes.len(),
            bytes@ == encode_utf8(text@),
            may_hold_unknown_literal(text@) == unknown_from(bytes@, at as int),
        decreases bytes.len() - at,
    {
        proof {
            lemma_piece(bytes@, at as int);
        }
        let word = find_word_end(bytes, at);
        let c_string = word - at == 1 && bytes[at] == 0x63 && is_next(bytes, word, 0x22) || word
            - at == 2 && bytes[at] == 0x63 && bytes[at + 1] == 0x72 && (is_next(bytes, word, 0x22)
            || is_next(bytes, word, 0x23));
        let (end, takes_word) = find_piece(bytes, at);
        let word_behind = find_word_end(bytes, end);
        if c_string || takes_word && find_unclear(bytes, end, word_behind) || find_at(
            bytes,
            at,
            "(/*ERROR*/)",
        ) {
            return true;
        }
        at = if takes_word {
            word_behind
        } else {
            end
        };
    }
    false
}

} // verus!

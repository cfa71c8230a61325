//! Recognising a request in the bytes read from a connection.
//!
//! The bytes are taken as text in UTF-8. Only the first line counts; the
//! request target is its second token, where tokens are set apart by white
//! space.

use crate::query::{pairs_to_map, urlencoded_pairs, QueryParams};
use crate::text::{bytes_start_with, starts_with};
use vstd::prelude::*;
use vstd::slice::{slice_subrange, slice_to_vec};
use vstd::utf8::{
    char_is_scalar, encode_scalar, encode_utf8, has_width_1_encoding, has_width_2_encoding,
    has_width_3_encoding, is_ascii_chars_encode_utf8, last_continuation_byte,
    leading_byte_width_1, leading_byte_width_2, leading_byte_width_3, leading_byte_width_4,
    second_last_continuation_byte,
};

verus! {

/// How many bytes a connection handler reads: a request is one read of at
/// most this size.
pub const REQUEST_BUFFER_SIZE: usize = 1024;

/// Whether the bytes begin like an HTTP request: with `GET` or with `POST`.
pub open spec fn is_http_shaped(buffer: Seq<u8>) -> bool {
    starts_with(buffer, encode_utf8("GET"@)) || starts_with(buffer, encode_utf8("POST"@))
}

/// The width in bytes of the white-space character whose UTF-8 encoding
/// begins at `s[i]`, and 0 where none begins there. White space is what
/// Unicode calls so: the controls U+0009 to U+000D, the space, U+0085,
/// U+00A0, U+1680, U+2000 to U+200A, U+2028, U+2029, U+202F, U+205F and
/// U+3000.
pub open spec fn space_width(s: Seq<u8>, i: int) -> int {
    if !(0 <= i < s.len()) {
        0
    } else if 0x09 <= s[i] <= 0x0D || s[i] == 0x20 {
        1
    } else if i + 1 < s.len() && s[i] == 0xC2 && (s[i + 1] == 0x85 || s[i + 1] == 0xA0) {
        2
    } else if i + 2 < s.len() && s[i] == 0xE1 && s[i + 1] == 0x9A && s[i + 2] == 0x80 {
        3
    } else if i + 2 < s.len() && s[i] == 0xE2 && s[i + 1] == 0x80 && (0x80 <= s[i + 2] <= 0x8A
        || s[i + 2] == 0xA8 || s[i + 2] == 0xA9 || s[i + 2] == 0xAF) {
        3
    } else if i + 2 < s.len() && s[i] == 0xE2 && s[i + 1] == 0x81 && s[i + 2] == 0x9F {
        3
    } else if i + 2 < s.len() && s[i] == 0xE3 && s[i + 1] == 0x80 && s[i + 2] == 0x80 {
        3
    } else {
        0
    }
}

/// Whether a character is white space.
pub open spec fn is_white_space(c: char) -> bool {
    let v = c as u32;
    ||| 0x09 <= v <= 0x0D
    ||| v == 0x20
    ||| v == 0x85
    ||| v == 0xA0
    ||| v == 0x1680
    ||| 0x2000 <= v <= 0x200A
    ||| v == 0x2028
    ||| v == 0x2029
    ||| v == 0x202F
    ||| v == 0x205F
    ||| v == 0x3000
}

/// Where the encoding of a character begins, `space_width` is the length of
/// that encoding if the character is white space, and 0 if it is not.
pub proof fn lemma_space_width_of_char(c: char, rest: Seq<u8>)
    ensures
        space_width(encode_scalar(c as u32) + rest, 0) == (if is_white_space(c) {
            encode_scalar(c as u32).len() as int
        } else {
            0
        }),
{
    let v = c as u32;
    char_is_scalar(c);
    let s = encode_scalar(v) + rest;
    if has_width_1_encoding(v) {
        let b0 = leading_byte_width_1(v);
        assert(b0 == v) by (bit_vector)
            requires
                v <= 0x7F,
                b0 == (v & 0x7F) as u8,
        ;
        assert(s[0] == b0);
    } else if has_width_2_encoding(v) {
        let b0 = leading_byte_width_2(v);
        let b1 = last_continuation_byte(v);
        assert(0xC2 <= b0 <= 0xDF && ((b0 == 0xC2 && (b1 == 0x85 || b1 == 0xA0)) <==> (v == 0x85
            || v == 0xA0))) by (bit_vector)
            requires
                0x80 <= v <= 0x7FF,
                b0 == 0xC0 | ((v >> 6) & 0x1F) as u8,
                b1 == 0x80 | (v & 0x3F) as u8,
        ;
        assert(s[0] == b0 && s[1] == b1);
    } else if has_width_3_encoding(v) {
        let b0 = leading_byte_width_3(v);
        let b1 = second_last_continuation_byte(v);
        let b2 = last_continuation_byte(v);
        assert(0xE0 <= b0 <= 0xEF) by (bit_vector)
            requires
                b0 == 0xE0 | ((v >> 12) & 0x0F) as u8,
        ;
        assert((b0 == 0xE1 && b1 == 0x9A && b2 == 0x80) <==> v == 0x1680) by (bit_vector)
            requires
                0x800 <= v <= 0xFFFF,
                b0 == 0xE0 | ((v >> 12) & 0x0F) as u8,
                b1 == 0x80 | ((v >> 6) & 0x3F) as u8,
                b2 == 0x80 | (v & 0x3F) as u8,
        ;
        assert((b0 == 0xE2 && b1 == 0x80 && (0x80 <= b2 <= 0x8A || b2 == 0xA8 || b2 == 0xA9 || b2
            == 0xAF)) <==> (0x2000 <= v <= 0x200A || v == 0x2028 || v == 0x2029 || v == 0x202F))
            by (bit_vector)
            requires
                0x800 <= v <= 0xFFFF,
                b0 == 0xE0 | ((v >> 12) & 0x0F) as u8,
                b1 == 0x80 | ((v >> 6) & 0x3F) as u8,
                b2 == 0x80 | (v & 0x3F) as u8,
        ;
        assert((b0 == 0xE2 && b1 == 0x81 && b2 == 0x9F) <==> v == 0x205F) by (bit_vector)
            requires
                0x800 <= v <= 0xFFFF,
                b0 == 0xE0 | ((v >> 12) & 0x0F) as u8,
                b1 == 0x80 | ((v >> 6) & 0x3F) as u8,
                b2 == 0x80 | (v & 0x3F) as u8,
        ;
        assert((b0 == 0xE3 && b1 == 0x80 && b2 == 0x80) <==> v == 0x3000) by (bit_vector)
            requires
                0x800 <= v <= 0xFFFF,
                b0 == 0xE0 | ((v >> 12) & 0x0F) as u8,
                b1 == 0x80 | ((v >> 6) & 0x3F) as u8,
                b2 == 0x80 | (v & 0x3F) as u8,
        ;
        assert(s[0] == b0 && s[1] == b1 && s[2] == b2);
    } else {
        let b0 = leading_byte_width_4(v);
        assert(0xF0 <= b0) by (bit_vector)
            requires
                b0 == 0xF0 | ((v >> 18) & 0x7) as u8,
        ;
        assert(s[0] == b0);
    }
}

/// The place of the first byte `b` at or behind `from`, and the length of
/// `s` where there is none.
pub open spec fn find_byte(s: Seq<u8>, b: u8, from: int) -> int
    decreases s.len() - from,
{
    if 0 <= from < s.len() && s[from] != b {
        find_byte(s, b, from + 1)
    } else {
        from
    }
}

/// The first place at or behind `from` where no white space begins.
pub open spec fn skip_spaces(s: Seq<u8>, from: int) -> int
    decreases s.len() - from,
{
    if 0 <= from < s.len() && space_width(s, from) > 0 {
        skip_spaces(s, from + space_width(s, from))
    } else {
        from
    }
}

/// The first place at or behind `from` where white space begins, and the
/// length of `s` where there is none: the end of the token that begins at
/// `from`.
pub open spec fn token_end(s: Seq<u8>, from: int) -> int
    decreases s.len() - from,
{
    if 0 <= from < s.len() && space_width(s, from) == 0 {
        token_end(s, from + 1)
    } else {
        from
    }
}

/// The first line of the bytes, without the line feed that ends it.
pub open spec fn first_line(buffer: Seq<u8>) -> Seq<u8> {
    buffer.take(find_byte(buffer, 0x0A, 0))
}

/// Where the second token of a line begins; the length of the line where it
/// has no second token.
pub open spec fn second_token_start(line: Seq<u8>) -> int {
    skip_spaces(line, token_end(line, skip_spaces(line, 0)))
}

/// The request target: the second token of the first line, if the line has
/// two tokens.
pub open spec fn request_target(buffer: Seq<u8>) -> Option<Seq<u8>> {
    let line = first_line(buffer);
    let start = second_token_start(line);
    if start < line.len() {
        Some(line.subrange(start, token_end(line, start)))
    } else {
        None
    }
}

/// The part of a request target that routes: what stands before its first
/// `?`, all of it where it has none.
pub open spec fn routing_path(target: Seq<u8>) -> Seq<u8> {
    target.take(find_byte(target, 0x3F, 0))
}

/// The raw query string of a request target: what stands behind its first
/// `?`, nothing where it has none.
pub open spec fn raw_query(target: Seq<u8>) -> Seq<u8> {
    let mark = find_byte(target, 0x3F, 0);
    if mark < target.len() {
        target.skip(mark + 1)
    } else {
        Seq::empty()
    }
}

/// `find_byte` stays within the sequence, finds `b` where it stops early,
/// and passes no `b`.
pub proof fn lemma_find_byte(s: Seq<u8>, b: u8, from: int)
    requires
        0 <= from <= s.len(),
    ensures
        from <= find_byte(s, b, from) <= s.len(),
        find_byte(s, b, from) < s.len() ==> s[find_byte(s, b, from)] == b,
        forall|j: int| from <= j < find_byte(s, b, from) ==> s[j] != b,
    decreases s.len() - from,
{
    if from < s.len() && s[from] != b {
        lemma_find_byte(s, b, from + 1);
    }
}

/// `skip_spaces` stays within the sequence and stops where no white space
/// begins.
pub proof fn lemma_skip_spaces(s: Seq<u8>, from: int)
    requires
        0 <= from <= s.len(),
    ensures
        from <= skip_spaces(s, from) <= s.len(),
        space_width(s, skip_spaces(s, from)) == 0,
    decreases s.len() - from,
{
    if from < s.len() && space_width(s, from) > 0 {
        lemma_skip_spaces(s, from + space_width(s, from));
    }
}

/// `token_end` stays within the sequence, stops at white space or at the
/// end, and passes no place where white space begins.
pub proof fn lemma_token_end(s: Seq<u8>, from: int)
    requires
        0 <= from <= s.len(),
    ensures
        from <= token_end(s, from) <= s.len(),
        token_end(s, from) < s.len() ==> space_width(s, token_end(s, from)) > 0,
        forall|j: int| from <= j < token_end(s, from) ==> space_width(s, j) == 0,
    decreases s.len() - from,
{
    if from < s.len() && space_width(s, from) == 0 {
        lemma_token_end(s, from + 1);
    }
}

/// A query string behind a path does not change the route: where `path`
/// holds no `?`, the target `path?query` routes as `path` and carries `query`.
pub proof fn lemma_query_keeps_route(path: Seq<u8>, query: Seq<u8>)
    requires
        forall|j: int| 0 <= j < path.len() ==> path[j] != 0x3F,
    ensures
        routing_path(path + seq![0x3Fu8] + query) == path,
        raw_query(path + seq![0x3Fu8] + query) == query,
        routing_path(path) == path,
        raw_query(path) == Seq::<u8>::empty(),
{
    let target = path + seq![0x3Fu8] + query;
    lemma_find_byte(target, 0x3F, 0);
    lemma_find_byte(path, 0x3F, 0);
    let mark = find_byte(target, 0x3F, 0);
    assert(target[path.len() as int] == 0x3F);
    if mark < path.len() {
        assert(target[mark] == path[mark]);
    }
    assert(mark == path.len());
    assert(target.take(mark) =~= path);
    assert(target.skip(mark + 1) =~= query);
    let end = find_byte(path, 0x3F, 0);
    assert(end == path.len());
    assert(path.take(end) =~= path);
}

/// Whether every byte of `token` is a printable ASCII character other than
/// the space, and there is at least one.
pub open spec fn is_plain_token(token: Seq<u8>) -> bool {
    token.len() > 0 && forall|i: int| 0 <= i < token.len() ==> 0x21 <= #[trigger] token[i] <= 0x7E
}

/// Whether `tail` can follow a request target: it is empty, or begins with a
/// space, a tab, a carriage return or a line feed.
pub open spec fn ends_token(tail: Seq<u8>) -> bool {
    tail.len() == 0 || tail[0] == 0x20 || tail[0] == 0x09 || tail[0] == 0x0D || tail[0] == 0x0A
}

/// A plain path with a `?` and a query behind it is a plain token, where
/// the query is empty or a plain token itself.
pub proof fn lemma_target_with_query_is_plain(path: Seq<u8>, query: Seq<u8>)
    requires
        is_plain_token(path),
        query.len() == 0 || is_plain_token(query),
    ensures
        is_plain_token(path + seq![0x3Fu8] + query),
{
    let target = path + seq![0x3Fu8] + query;
    assert forall|i: int| 0 <= i < target.len() implies 0x21 <= #[trigger] target[i] <= 0x7E by {
        if i < path.len() {
            assert(target[i] == path[i]);
        } else if i > path.len() {
            assert(target[i] == query[i - path.len() - 1]);
        }
    }
}

/// The token that begins at `from` ends at `to`, where no white space begins
/// in between and `to` is the end of the bytes or the place of white space.
pub proof fn lemma_token_ends_at(s: Seq<u8>, from: int, to: int)
    requires
        0 <= from <= to <= s.len(),
        forall|j: int| from <= j < to ==> space_width(s, j) == 0,
        to == s.len() || space_width(s, to) > 0,
    ensures
        token_end(s, from) == to,
    decreases to - from,
{
    if from < to {
        lemma_token_ends_at(s, from + 1, to);
    }
}

/// In a request line made of a method, one space and a target, both plain
/// tokens, the request target is that target, whatever follows it behind
/// white space.
pub proof fn lemma_plain_request_line(method: Seq<u8>, target: Seq<u8>, tail: Seq<u8>)
    requires
        is_plain_token(method),
        is_plain_token(target),
        ends_token(tail),
    ensures
        request_target(method + seq![0x20u8] + target + tail) == Some(target),
{
    let buffer = method + seq![0x20u8] + target + tail;
    let m = method.len() as int;
    let t = target.len() as int;
    let stop = m + 1 + t;
    assert forall|j: int| 0 <= j < m implies buffer[j] == method[j] by {}
    assert(buffer[m] == 0x20);
    assert forall|j: int| m + 1 <= j < stop implies buffer[j] == target[j - m - 1] by {}
    assert forall|j: int| stop <= j < buffer.len() implies buffer[j] == tail[j - stop] by {}
    lemma_find_byte(buffer, 0x0A, 0);
    let e = find_byte(buffer, 0x0A, 0);
    if e < stop {
        if e < m {
            assert(method[e] == 0x0A);
        } else if e > m {
            assert(target[e - m - 1] == 0x0A);
        }
    }
    assert(e >= stop);
    let line = first_line(buffer);
    assert(line.len() == e);
    assert forall|j: int| 0 <= j < e implies line[j] == buffer[j] by {}
    assert forall|j: int| 0 <= j < m implies space_width(line, j) == 0 by {
        assert(line[j] == method[j]);
    }
    assert(space_width(line, m) == 1);
    assert forall|j: int| m + 1 <= j < stop implies space_width(line, j) == 0 by {
        assert(line[j] == target[j - m - 1]);
    }
    assert(space_width(line, 0) == 0);
    assert(skip_spaces(line, 0) == 0);
    lemma_token_ends_at(line, 0, m);
    assert(space_width(line, m + 1) == 0);
    assert(skip_spaces(line, m + 1) == m + 1);
    assert(skip_spaces(line, m) == m + 1);
    assert(second_token_start(line) == m + 1);
    if stop < e {
        assert(line[stop] == tail[0]);
        assert(tail[0] != 0x0A) by {
            assert(buffer[stop] != 0x0A);
        }
        assert(space_width(line, stop) == 1);
    }
    lemma_token_ends_at(line, m + 1, stop);
    assert(line.subrange(m + 1, stop) =~= target);
}

/// The bytes of the two method names.
pub proof fn lemma_method_bytes()
    ensures
        encode_utf8("GET"@) == seq![0x47u8, 0x45u8, 0x54u8],
        encode_utf8("POST"@) == seq![0x50u8, 0x4Fu8, 0x53u8, 0x54u8],
        is_plain_token(encode_utf8("GET"@)),
        is_plain_token(encode_utf8("POST"@)),
{
    reveal_strlit("GET");
    reveal_strlit("POST");
    is_ascii_chars_encode_utf8("GET"@);
    is_ascii_chars_encode_utf8("POST"@);
    assert(encode_utf8("GET"@) =~= seq![0x47u8, 0x45u8, 0x54u8]);
    assert(encode_utf8("POST"@) =~= seq![0x50u8, 0x4Fu8, 0x53u8, 0x54u8]);
}

/// Bytes that begin with a method name, a space and a plain target hold a
/// request for that target.
pub proof fn lemma_plain_request(method: Seq<u8>, target: Seq<u8>, tail: Seq<u8>)
    requires
        method == encode_utf8("GET"@) || method == encode_utf8("POST"@),
        is_plain_token(target),
        ends_token(tail),
    ensures
        is_http_shaped(method + seq![0x20u8] + target + tail),
        request_target(method + seq![0x20u8] + target + tail) == Some(target),
{
    lemma_method_bytes();
    lemma_plain_request_line(method, target, tail);
    let buffer = method + seq![0x20u8] + target + tail;
    assert(buffer.take(method.len() as int) =~= method);
}

/// The method of a request, as far as the bridge tells methods apart.
#[derive(Clone, Copy, Debug, PartialEq, Eq, Structural)]
pub enum Method {
    Get,
    Post,
}

/// The method that the first bytes name, for bytes that are HTTP-shaped.
pub open spec fn method_of(buffer: Seq<u8>) -> Method {
    if starts_with(buffer, encode_utf8("GET"@)) {
        Method::Get
    } else {
        Method::Post
    }
}

/// One request: its method, the routing path and the query parameters.
pub struct ParsedRequest {
    pub method: Method,
    pub path: Vec<u8>,
    pub query: QueryParams,
}

/// The mathematical content of a [`ParsedRequest`].
pub struct RequestView {
    pub method: Method,
    pub path: Seq<u8>,
    pub query: Map<Seq<char>, Seq<char>>,
}

impl View for ParsedRequest {
    type V = RequestView;

    open spec fn view(&self) -> RequestView {
        RequestView { method: self.method, path: self.path@, query: self.query@ }
    }
}

impl DeepView for ParsedRequest {
    type V = RequestView;

    open spec fn deep_view(&self) -> RequestView {
        self@
    }
}

/// The request that the bytes of a connection hold: none where they are not
/// HTTP-shaped or the first line has no second token.
pub open spec fn parsed_request(buffer: Seq<u8>) -> Option<RequestView> {
    if !is_http_shaped(buffer) {
        None
    } else {
        match request_target(buffer) {
            None => None,
            Some(target) => Some(
                RequestView {
                    method: method_of(buffer),
                    path: routing_path(target),
                    query: pairs_to_map(urlencoded_pairs(raw_query(target))),
                },
            ),
        }
    }
}

/// The width of the white space that begins at `s[i]`.
fn space_width_at(s: &[u8], i: usize) -> (width: usize)
    requires
        i < s.len(),
    ensures
        width == space_width(s@, i as int),
        i + width <= s.len(),
{
    let b: u8 = s[i];
    if (0x09 <= b && b <= 0x0D) || b == 0x20 {
        return 1;
    }
    let len: usize = s.len();
    if len - i >= 2 && b == 0xC2 && (s[i + 1] == 0x85 || s[i + 1] == 0xA0) {
        return 2;
    }
    if len - i >= 3 {
        let c: u8 = s[i + 1];
        let d: u8 = s[i + 2];
        if b == 0xE1 && c == 0x9A && d == 0x80 {
            return 3;
        }
        if b == 0xE2 && c == 0x80 && ((0x80 <= d && d <= 0x8A) || d == 0xA8 || d == 0xA9 || d
            == 0xAF) {
            return 3;
        }
        if b == 0xE2 && c == 0x81 && d == 0x9F {
            return 3;
        }
        if b == 0xE3 && c == 0x80 && d == 0x80 {
            return 3;
        }
    }
    0
}

/// The place of the first byte `b` in `s`.
fn find_byte_in(s: &[u8], b: u8) -> (at: usize)
    ensures
        at == find_byte(s@, b, 0),
        at <= s.len(),
{
    let mut i: usize = 0;
    while i < s.len() && s[i] != b
        invariant
            i <= s.len(),
            find_byte(s@, b, 0) == find_byte(s@, b, i as int),
        decreases s.len() - i,
    {
        i = i + 1;
    }
    i
}

/// The first place at or behind `from` where no white space begins.
fn skip_spaces_in(s: &[u8], from: usize) -> (at: usize)
    requires
        from <= s.len(),
    ensures
        at == skip_spaces(s@, from as int),
        from <= at <= s.len(),
{
    let mut i: usize = from;
    while i < s.len()
        invariant
            from <= i <= s.len(),
            skip_spaces(s@, from as int) == skip_spaces(s@, i as int),
        decreases s.len() - i,
    {
        let width: usize = space_width_at(s, i);
        if width == 0 {
            return i;
        }
        i = i + width;
    }
    i
}

/// The end of the token that begins at `from`.
fn token_end_in(s: &[u8], from: usize) -> (at: usize)
    requires
        from <= s.len(),
    ensures
        at == token_end(s@, from as int),
        from <= at <= s.len(),
{
    let mut i: usize = from;
    while i < s.len()
        invariant
            from <= i <= s.len(),
            token_end(s@, from as int) == token_end(s@, i as int),
        decreases s.len() - i,
    {
        let width: usize = space_width_at(s, i);
        if width > 0 {
            return i;
        }
        i = i + 1;
    }
    i
}

/// Whether the bytes begin like an HTTP request: with `GET` or with `POST`.
pub fn begins_like_http(buffer: &[u8]) -> (shaped: bool)
    ensures
        shaped == is_http_shaped(buffer@),
{
    bytes_start_with(buffer, "GET".as_bytes()) || bytes_start_with(buffer, "POST".as_bytes())
}

/// Finds the request target in the bytes of a connection.
pub fn find_request_target(buffer: &[u8]) -> (target: Option<&[u8]>)
    ensures
        match target {
            Some(found) => request_target(buffer@) == Some(found@),
            None => request_target(buffer@) is None,
        },
{
    let line_end: usize = find_byte_in(buffer, 0x0A);
    let line: &[u8] = slice_subrange(buffer, 0, line_end);
    assert(line@ =~= first_line(buffer@));
    let first: usize = skip_spaces_in(line, 0);
    let first_end: usize = token_end_in(line, first);
    let start: usize = skip_spaces_in(line, first_end);
    if start < line.len() {
        let end: usize = token_end_in(line, start);
        Some(slice_subrange(line, start, end))
    } else {
        None
    }
}

/// Splits a request target into the routing path and the parameters of its
/// query string.
pub fn split_target(target: &[u8]) -> (parts: (Vec<u8>, QueryParams))
    ensures
        parts.0@ == routing_path(target@),
        parts.1@ == pairs_to_map(urlencoded_pairs(raw_query(target@))),
{
    let mark: usize = find_byte_in(target, 0x3F);
    let path: Vec<u8> = slice_to_vec(slice_subrange(target, 0, mark));
    assert(path@ =~= routing_path(target@));
    let raw: &[u8] = if mark < target.len() {
        slice_subrange(target, mark + 1, target.len())
    } else {
        slice_subrange(target, mark, mark)
    };
    assert(raw@ =~= raw_query(target@));
    (path, QueryParams::parse(raw))
}

/// Reads the request that the bytes of a connection hold. There is none
/// where the bytes do not begin with `GET` or `POST`, or where the first
/// line has no second token.
pub fn parse_request(buffer: &[u8]) -> (request: Option<ParsedRequest>)
    ensures
        request.deep_view() == parsed_request(buffer@),
        !is_http_shaped(buffer@) ==> request is None,
{
    if !begins_like_http(buffer) {
        return None;
    }
    let is_get: bool = bytes_start_with(buffer, "GET".as_bytes());
    match find_request_target(buffer) {
        None => None,
        Some(target) => {
            let (path, query): (Vec<u8>, QueryParams) = split_target(target);
            let method: Method = if is_get {
                Method::Get
            } else {
                Method::Post
            };
            Some(ParsedRequest { method, path, query })
        },
    }
}

} // verus!

//! The URI form of a location.
//!
//! Grammar: `temporal://tui/namespaces/<ns>/<kind>[/<id>[/<sub>[/<subid>]]]?<query>`.
//! Path segments and query values are percent-encoded byte by byte, keeping
//! letters, digits and `-._~`. Decoding reads a run of `%XX` as UTF-8 bytes
//! and, in a query, `+` as a space.

use vstd::prelude::*;
use vstd::slice::slice_subrange;
use vstd::string::*;
use vstd::utf8::{
    decode_utf8, encode_utf8, encode_utf8_decode_utf8, encode_utf8_valid_utf8, valid_utf8,
};
use crate::nav::location::{
    Location, LocationView, RouteSegment, RouteSegmentView, SchedulesRoute, SchedulesRouteView,
    WorkflowsRoute, WorkflowsRouteView,
};
use crate::text::{
    append_chars, chars_of, is_text, utf8_of, lemma_views_push, opt_view, push_char, same_text, split, split_chars,
    split_once, split_once_at, split_once_char, string_of, views,
};

verus! {

/// Why a deep link was refused.
#[derive(Debug, Clone, Copy, PartialEq, Eq, Structural)]
pub enum UriError {
    InvalidScheme,
    InvalidAuthority,
    MissingNamespace,
    InvalidPath,
    UnsupportedRoute,
}

/// Bytes that are written as they are: letters, digits, `-`, `.`, `_`, `~`.
pub open spec fn is_unreserved(b: u8) -> bool {
    ||| 0x41 <= b <= 0x5A
    ||| 0x61 <= b <= 0x7A
    ||| 0x30 <= b <= 0x39
    ||| b == 0x2D
    ||| b == 0x2E
    ||| b == 0x5F
    ||| b == 0x7E
}

/// The uppercase hexadecimal digit for a value below sixteen.
pub open spec fn hex_upper(n: int) -> char {
    if n < 10 {
        (0x30 + n) as char
    } else {
        (0x37 + n) as char
    }
}

/// The value of a hexadecimal digit of either case.
pub open spec fn hex_value(c: char) -> Option<int> {
    if '0' <= c <= '9' {
        Some(c as int - 0x30)
    } else if 'a' <= c <= 'f' {
        Some(c as int - 0x57)
    } else if 'A' <= c <= 'F' {
        Some(c as int - 0x37)
    } else {
        None
    }
}

/// One byte in encoded form.
pub open spec fn encode_byte(b: u8) -> Seq<char> {
    if is_unreserved(b) {
        seq![b as char]
    } else {
        seq!['%', hex_upper(b as int / 16), hex_upper(b as int % 16)]
    }
}

/// A byte string in encoded form.
pub open spec fn encode_bytes(bytes: Seq<u8>) -> Seq<char>
    decreases bytes.len(),
{
    if bytes.len() == 0 {
        Seq::empty()
    } else {
        encode_byte(bytes[0]) + encode_bytes(bytes.drop_first())
    }
}

/// A text in encoded form: its UTF-8 bytes, each encoded.
pub open spec fn encoded(s: Seq<char>) -> Seq<char> {
    encode_bytes(encode_utf8(s))
}

/// The byte that the escape at the head of `s` stands for: `%` and two
/// hexadecimal digits.
pub open spec fn escape_at(s: Seq<char>) -> Option<u8> {
    if s.len() >= 3 && s[0] == '%' {
        match (hex_value(s[1]), hex_value(s[2])) {
            (Some(hi), Some(lo)) => Some((hi * 16 + lo) as u8),
            _ => None,
        }
    } else {
        None
    }
}

/// The text that a run of bytes stands for: the text of which they are the
/// UTF-8 form; where they are no UTF-8, each byte stands for the character
/// with its code.
pub open spec fn text_of_bytes(bytes: Seq<u8>) -> Seq<char> {
    if valid_utf8(bytes) {
        decode_utf8(bytes)
    } else {
        Seq::new(bytes.len(), |i: int| bytes[i] as char)
    }
}

/// A text with its escapes resolved, after a run of escapes that gave the
/// bytes `pending`.
pub open spec fn decoded_after(pending: Seq<u8>, s: Seq<char>, plus_as_space: bool) -> Seq<char>
    decreases s.len(),
{
    match escape_at(s) {
        Some(byte) => decoded_after(pending.push(byte), s.skip(3), plus_as_space),
        None => text_of_bytes(pending) + (if s.len() == 0 {
            s
        } else if s[0] == '%' {
            if s.len() < 3 {
                s
            } else {
                s.take(3) + decoded_after(Seq::empty(), s.skip(3), plus_as_space)
            }
        } else if plus_as_space && s[0] == '+' {
            seq![' '] + decoded_after(Seq::empty(), s.drop_first(), plus_as_space)
        } else {
            seq![s[0]] + decoded_after(Seq::empty(), s.drop_first(), plus_as_space)
        }),
    }
}

/// A text with its escapes resolved. A run of escapes is read as the UTF-8
/// form of a text, or byte by byte where it is no UTF-8. A `%` that two
/// hexadecimal digits do not follow stays, together with the two characters
/// after it.
pub open spec fn decoded(s: Seq<char>, plus_as_space: bool) -> Seq<char> {
    decoded_after(Seq::empty(), s, plus_as_space)
}

/// The decoded forms of the pieces that are not empty, in order.
pub open spec fn decoded_segments(pieces: Seq<Seq<char>>) -> Seq<Seq<char>>
    decreases pieces.len(),
{
    if pieces.len() == 0 {
        Seq::empty()
    } else if pieces[0].len() == 0 {
        decoded_segments(pieces.drop_first())
    } else {
        seq![decoded(pieces[0], false)] + decoded_segments(pieces.drop_first())
    }
}

/// Key and value of one `key=value` piece of a query; the value is empty
/// where there is no `=`.
pub open spec fn decoded_pair(pair: Seq<char>) -> (Seq<char>, Seq<char>) {
    match split_once(pair, seq!['=']) {
        Some((key, value)) => (decoded(key, true), decoded(value, true)),
        None => (decoded(pair, true), Seq::empty()),
    }
}

/// The pairs of the pieces that are not empty, in order.
pub open spec fn decoded_pairs(pieces: Seq<Seq<char>>) -> Seq<(Seq<char>, Seq<char>)>
    decreases pieces.len(),
{
    if pieces.len() == 0 {
        Seq::empty()
    } else if pieces[0].len() == 0 {
        decoded_pairs(pieces.drop_first())
    } else {
        seq![decoded_pair(pieces[0])] + decoded_pairs(pieces.drop_first())
    }
}

/// The parameters of a query string, in the order written.
pub open spec fn query_params(query: Option<Seq<char>>) -> Seq<(Seq<char>, Seq<char>)> {
    match query {
        Some(q) => decoded_pairs(split(q, '&')),
        None => Seq::empty(),
    }
}

/// The value of the last parameter named `key`.
pub open spec fn param(params: Seq<(Seq<char>, Seq<char>)>, key: Seq<char>) -> Option<Seq<char>>
    decreases params.len(),
{
    if params.len() == 0 {
        None
    } else if params.last().0 == key {
        Some(params.last().1)
    } else {
        param(params.drop_last(), key)
    }
}

/// The route that the segments after `workflows` name.
pub open spec fn workflows_route(
    segments: Seq<Seq<char>>,
    params: Seq<(Seq<char>, Seq<char>)>,
) -> Result<WorkflowsRouteView, UriError> {
    if segments.len() == 0 {
        Ok(WorkflowsRouteView::Collection { query: param(params, "q"@) })
    } else if segments.len() == 1 {
        Ok(
            WorkflowsRouteView::Detail {
                workflow_id: segments[0],
                run_id: param(params, "run_id"@),
                tab: param(params, "tab"@),
            },
        )
    } else if segments[1] == "activities"@ && segments.len() <= 3 {
        Ok(
            WorkflowsRouteView::Activities {
                workflow_id: segments[0],
                activity_id: if segments.len() > 2 {
                    Some(segments[2])
                } else {
                    None
                },
            },
        )
    } else {
        Err(UriError::UnsupportedRoute)
    }
}

/// The route that the segments after `schedules` name.
pub open spec fn schedules_route(
    segments: Seq<Seq<char>>,
    params: Seq<(Seq<char>, Seq<char>)>,
) -> Result<SchedulesRouteView, UriError> {
    if segments.len() == 0 {
        Ok(SchedulesRouteView::Collection { query: param(params, "q"@) })
    } else if segments.len() == 1 {
        Ok(SchedulesRouteView::Detail { schedule_id: segments[0] })
    } else if segments.len() == 2 && segments[1] == "workflows"@ {
        Ok(SchedulesRouteView::Workflows { schedule_id: segments[0], query: param(params, "q"@) })
    } else {
        Err(UriError::UnsupportedRoute)
    }
}

/// The segment stack that the segments after the namespace name.
pub open spec fn route(segments: Seq<Seq<char>>, params: Seq<(Seq<char>, Seq<char>)>) -> Result<
    Seq<RouteSegmentView>,
    UriError,
> {
    if segments.len() == 0 {
        Err(UriError::InvalidPath)
    } else if segments[0] == "workflows"@ {
        match workflows_route(segments.skip(1), params) {
            Ok(r) => Ok(seq![RouteSegmentView::Workflows(r)]),
            Err(e) => Err(e),
        }
    } else if segments[0] == "schedules"@ {
        match schedules_route(segments.skip(1), params) {
            Ok(r) => Ok(seq![RouteSegmentView::Schedules(r)]),
            Err(e) => Err(e),
        }
    } else {
        Err(UriError::UnsupportedRoute)
    }
}

/// What a deep link denotes: the location, or the reason for refusing it.
pub open spec fn parsed(input: Seq<char>) -> Result<LocationView, UriError> {
    match split_once(input, "://"@) {
        None => Err(UriError::InvalidScheme),
        Some((scheme, rest)) => {
            let (authority, tail) = match split_once(rest, seq!['/']) {
                Some(pair) => pair,
                None => (rest, Seq::empty()),
            };
            let (path, query) = match split_once(tail, seq!['?']) {
                Some((p, q)) => (p, Some(q)),
                None => (tail, None),
            };
            let segments = decoded_segments(split(path, '/'));
            if scheme != "temporal"@ {
                Err(UriError::InvalidScheme)
            } else if authority != "tui"@ {
                Err(UriError::InvalidAuthority)
            } else if segments.len() < 2 || segments[0] != "namespaces"@ {
                Err(UriError::MissingNamespace)
            } else {
                match route(segments.skip(2), query_params(query)) {
                    Ok(stack) => Ok(LocationView { namespace: segments[1], segments: stack }),
                    Err(e) => Err(e),
                }
            }
        },
    }
}

/// The path that a workflows route adds.
pub open spec fn workflows_path(r: WorkflowsRouteView) -> Seq<char> {
    match r {
        WorkflowsRouteView::Collection { .. } => "/workflows"@,
        WorkflowsRouteView::Detail { workflow_id, .. } => "/workflows/"@ + encoded(workflow_id),
        WorkflowsRouteView::Activities { workflow_id, activity_id } => {
            let base = "/workflows/"@ + encoded(workflow_id) + "/activities"@;
            match activity_id {
                Some(id) => base + seq!['/'] + encoded(id),
                None => base,
            }
        },
    }
}

/// The path that a schedules route adds.
pub open spec fn schedules_path(r: SchedulesRouteView) -> Seq<char> {
    match r {
        SchedulesRouteView::Collection { .. } => "/schedules"@,
        SchedulesRouteView::Detail { schedule_id } => "/schedules/"@ + encoded(schedule_id),
        SchedulesRouteView::Workflows { schedule_id, .. } => "/schedules/"@ + encoded(schedule_id)
            + "/workflows"@,
    }
}

/// The path that one segment adds.
pub open spec fn segment_path(s: RouteSegmentView) -> Seq<char> {
    match s {
        RouteSegmentView::Workflows(r) => workflows_path(r),
        RouteSegmentView::Schedules(r) => schedules_path(r),
    }
}

/// The paths of a stack of segments, one after the other.
pub open spec fn stack_path(segments: Seq<RouteSegmentView>) -> Seq<char>
    decreases segments.len(),
{
    if segments.len() == 0 {
        Seq::empty()
    } else {
        stack_path(segments.drop_last()) + segment_path(segments.last())
    }
}

/// One `key=value` piece, or nothing where the value is absent.
pub open spec fn query_piece(key: Seq<char>, value: Option<Seq<char>>) -> Seq<char> {
    match value {
        Some(v) => key + seq!['='] + encoded(v),
        None => Seq::empty(),
    }
}

/// Two query pieces joined by `&` where neither is empty.
pub open spec fn joined(a: Seq<char>, b: Seq<char>) -> Seq<char> {
    if a.len() == 0 {
        b
    } else if b.len() == 0 {
        a
    } else {
        a + seq!['&'] + b
    }
}

/// The query string of a location: the parameters of its last segment.
pub open spec fn query_string(location: LocationView) -> Seq<char> {
    match location.leaf() {
        Some(RouteSegmentView::Workflows(WorkflowsRouteView::Collection { query })) => query_piece(
            "q"@,
            query,
        ),
        Some(RouteSegmentView::Workflows(WorkflowsRouteView::Detail { run_id, tab, .. })) => joined(
            query_piece("run_id"@, run_id),
            query_piece("tab"@, tab),
        ),
        Some(RouteSegmentView::Schedules(SchedulesRouteView::Collection { query })) => query_piece(
            "q"@,
            query,
        ),
        Some(RouteSegmentView::Schedules(SchedulesRouteView::Workflows { query, .. })) => {
            query_piece("q"@, query)
        },
        _ => Seq::empty(),
    }
}

/// The path of a location.
pub open spec fn location_path(location: LocationView) -> Seq<char> {
    "/namespaces/"@ + encoded(location.namespace) + stack_path(location.segments)
}

/// The URI of a location.
pub open spec fn formatted(location: LocationView) -> Seq<char> {
    let query = query_string(location);
    if query.len() == 0 {
        "temporal://tui"@ + location_path(location)
    } else {
        "temporal://tui"@ + location_path(location) + seq!['?'] + query
    }
}

fn unreserved(b: u8) -> (r: bool)
    ensures
        r == is_unreserved(b),
{
    (0x41 <= b && b <= 0x5A) || (0x61 <= b && b <= 0x7A) || (0x30 <= b && b <= 0x39) || b == 0x2D
        || b == 0x2E || b == 0x5F || b == 0x7E
}

fn hex_char(n: u8) -> (c: char)
    requires
        n < 16,
    ensures
        c == hex_upper(n as int),
{
    if n < 10 {
        (0x30 + n) as char
    } else {
        (0x37 + n) as char
    }
}

fn hex_digit(c: char) -> (r: Option<u8>)
    ensures
        match r {
            Some(v) => hex_value(c) == Some(v as int) && v < 16,
            None => hex_value(c) is None,
        },
{
    if '0' <= c && c <= '9' {
        Some((c as u8) - 0x30)
    } else if 'a' <= c && c <= 'f' {
        Some((c as u8) - 0x57)
    } else if 'A' <= c && c <= 'F' {
        Some((c as u8) - 0x37)
    } else {
        None
    }
}

/// Encodes a text for use in a path segment or a query value.
pub fn percent_encode(input: &str) -> (out: String)
    ensures
        out@ == encoded(input@),
{
    let bytes = input.as_bytes();
    let mut out = String::new();
    let mut i: usize = 0;
    assert(bytes@.skip(0) =~= bytes@);
    while i < bytes.len()
        invariant
            i <= bytes.len(),
            encode_bytes(bytes@) == out@ + encode_bytes(bytes@.skip(i as int)),
        decreases bytes.len() - i,
    {
        let b = bytes[i];
        assert(bytes@.skip(i as int).drop_first() =~= bytes@.skip(i + 1));
        assert(bytes@.skip(i as int)[0] == b);
        let ghost before = out@;
        if unreserved(b) {
            push_char(&mut out, b as char);
            assert(out@ =~= before + encode_byte(b));
        } else {
            push_char(&mut out, '%');
            push_char(&mut out, hex_char(b / 16));
            push_char(&mut out, hex_char(b % 16));
            assert(out@ =~= before + encode_byte(b));
        }
        i += 1;
    }
    assert(bytes@.skip(i as int) =~= Seq::<u8>::empty());
    out
}

/// The text that a run of bytes stands for.
pub fn text_from_bytes(bytes: &Vec<u8>) -> (text: Vec<char>)
    ensures
        text@ == text_of_bytes(bytes@),
{
    match utf8_of(bytes.as_slice()) {
        Some(s) => {
            proof {
                encode_utf8_valid_utf8(s@);
                encode_utf8_decode_utf8(s@);
            }
            chars_of(s)
        },
        None => {
            let mut text: Vec<char> = Vec::new();
            let mut i: usize = 0;
            while i < bytes.len()
                invariant
                    i <= bytes.len(),
                    text@.len() == i,
                    forall|j: int| 0 <= j < i ==> text@[j] == bytes@[j] as char,
                decreases bytes.len() - i,
            {
                text.push(bytes[i] as char);
                i += 1;
            }
            assert(text@ =~= text_of_bytes(bytes@));
            text
        },
    }
}

fn escape_byte(s: &Vec<char>, i: usize) -> (r: Option<u8>)
    requires
        i <= s.len(),
    ensures
        r == escape_at(s@.skip(i as int)),
        r is Some ==> i + 3 <= s.len(),
{
    let ghost here = s@.skip(i as int);
    if s.len() - i >= 3 && s[i] == '%' {
        assert(here[0] == s@[i as int] && here[1] == s@[i + 1] && here[2] == s@[i + 2]);
        match (hex_digit(s[i + 1]), hex_digit(s[i + 2])) {
            (Some(h), Some(l)) => Some(h * 16 + l),
            _ => None,
        }
    } else {
        None
    }
}

/// Resolves the escapes of a text; `+` stands for a space where
/// `plus_as_space` is set.
#[verifier::rlimit(30)]
pub fn percent_decode_inner(input: &str, plus_as_space: bool) -> (out: String)
    ensures
        out@ == decoded(input@, plus_as_space),
{
    let s = chars_of(input);
    let mut out: Vec<char> = Vec::new();
    let mut pending: Vec<u8> = Vec::new();
    let mut i: usize = 0;
    assert(s@.skip(0) =~= s@);
    assert(pending@ =~= Seq::<u8>::empty());
    while i < s.len()
        invariant
            i <= s.len(),
            decoded(s@, plus_as_space) == out@ + decoded_after(
                pending@,
                s@.skip(i as int),
                plus_as_space,
            ),
        decreases s.len() - i,
    {
        let ghost here = s@.skip(i as int);
        match escape_byte(&s, i) {
            Some(byte) => {
                assert(here.skip(3) =~= s@.skip(i + 3));
                pending.push(byte);
                i += 3;
            },
            None => {
                let ghost before = out@;
                let run = text_from_bytes(&pending);
                append_chars(&mut out, &run);
                pending = Vec::new();
                assert(pending@ =~= Seq::<u8>::empty());
                let ghost flushed = out@;
                let ch = s[i];
                assert(here[0] == ch);
                if ch == '%' {
                    if s.len() - i >= 3 {
                        assert(here.skip(3) =~= s@.skip(i + 3));
                        out.push('%');
                        out.push(s[i + 1]);
                        out.push(s[i + 2]);
                        assert(out@ =~= flushed + here.take(3));
                        i += 3;
                    } else {
                        out.push('%');
                        if s.len() - i == 2 {
                            out.push(s[i + 1]);
                        }
                        assert(out@ =~= flushed + here);
                        i = s.len();
                        proof {
                            lemma_decoded_nothing(plus_as_space);
                            assert(s@.skip(i as int) =~= Seq::<char>::empty());
                        }
                    }
                } else if plus_as_space && ch == '+' {
                    assert(here.drop_first() =~= s@.skip(i + 1));
                    out.push(' ');
                    assert(out@ =~= flushed + seq![' ']);
                    i += 1;
                } else {
                    assert(here.drop_first() =~= s@.skip(i + 1));
                    out.push(ch);
                    assert(out@ =~= flushed + seq![ch]);
                    i += 1;
                }
            },
        }
    }
    assert(s@.skip(i as int) =~= Seq::<char>::empty());
    let run = text_from_bytes(&pending);
    append_chars(&mut out, &run);
    string_of(&out)
}

/// No bytes stand for no text, and nothing decodes to nothing.
pub proof fn lemma_decoded_nothing(plus_as_space: bool)
    ensures
        text_of_bytes(Seq::empty()) == Seq::<char>::empty(),
        decoded_after(Seq::empty(), Seq::empty(), plus_as_space) == Seq::<char>::empty(),
{
    assert(valid_utf8(Seq::<u8>::empty()));
    assert(decode_utf8(Seq::<u8>::empty()) =~= Seq::<char>::empty());
    assert(decoded_after(Seq::empty(), Seq::empty(), plus_as_space) =~= Seq::<char>::empty());
}

/// Resolves the escapes of a path segment.
pub fn percent_decode_path(input: &str) -> (out: String)
    ensures
        out@ == decoded(input@, false),
{
    percent_decode_inner(input, false)
}

/// Resolves the escapes of a query key or value.
pub fn percent_decode_query(input: &str) -> (out: String)
    ensures
        out@ == decoded(input@, true),
{
    percent_decode_inner(input, true)
}

/// The parameters of a query string, in the order written.
pub fn parse_query(query: Option<&str>) -> (params: Vec<(String, String)>)
    ensures
        views(params@) == query_params(opt_view(query)),
{
    let mut params: Vec<(String, String)> = Vec::new();
    assert(views(params@) =~= Seq::<(Seq<char>, Seq<char>)>::empty());
    let query = match query {
        Some(q) => q,
        None => {
            return params;
        },
    };
    let chars = chars_of(query);
    let pieces = split_chars(&chars, '&');
    let mut i: usize = 0;
    assert(views(pieces@).skip(0) =~= views(pieces@));
    while i < pieces.len()
        invariant
            i <= pieces.len(),
            decoded_pairs(views(pieces@)) == views(params@) + decoded_pairs(
                views(pieces@).skip(i as int),
            ),
        decreases pieces.len() - i,
    {
        let ghost here = views(pieces@).skip(i as int);
        assert(here.drop_first() =~= views(pieces@).skip(i + 1));
        assert(here[0] == pieces@[i as int]@);
        if pieces[i].len() > 0 {
            let pair = match split_once_char(&pieces[i], '=') {
                Some((key, value)) => {
                    let key = string_of(&key);
                    let value = string_of(&value);
                    (percent_decode_query(key.as_str()), percent_decode_query(value.as_str()))
                },
                None => {
                    let key = string_of(&pieces[i]);
                    (percent_decode_query(key.as_str()), String::new())
                },
            };
            assert(pair@ == decoded_pair(pieces@[i as int]@));
            proof {
                lemma_views_push(params@, pair);
                assert(views(params@).push(pair@) =~= views(params@) + seq![pair@]);
            }
            params.push(pair);
        }
        i += 1;
    }
    assert(views(pieces@).skip(i as int) =~= Seq::<Seq<char>>::empty());
    params
}

/// The value of the last parameter named `key`.
pub fn param_value(params: &Vec<(String, String)>, key: &str) -> (r: Option<String>)
    ensures
        opt_view(r) == param(views(params@), key@),
{
    let mut i: usize = params.len();
    assert(views(params@).take(i as int) =~= views(params@));
    while i > 0
        invariant
            i <= params.len(),
            param(views(params@), key@) == param(views(params@).take(i as int), key@),
        decreases i,
    {
        let ghost here = views(params@).take(i as int);
        assert(here.drop_last() =~= views(params@).take(i - 1));
        assert(here.last() == params@[i - 1]@);
        if same_text(params[i - 1].0.as_str(), key) {
            return Some(params[i - 1].1.clone());
        }
        i -= 1;
    }
    None
}

/// The decoded forms of the segments of a path that are not empty.
pub fn path_segments(path: &Vec<char>) -> (segments: Vec<String>)
    ensures
        views(segments@) == decoded_segments(split(path@, '/')),
{
    let pieces = split_chars(path, '/');
    let mut segments: Vec<String> = Vec::new();
    let mut i: usize = 0;
    assert(views(segments@) =~= Seq::<Seq<char>>::empty());
    assert(views(pieces@).skip(0) =~= views(pieces@));
    while i < pieces.len()
        invariant
            i <= pieces.len(),
            decoded_segments(views(pieces@)) == views(segments@) + decoded_segments(
                views(pieces@).skip(i as int),
            ),
        decreases pieces.len() - i,
    {
        let ghost here = views(pieces@).skip(i as int);
        assert(here.drop_first() =~= views(pieces@).skip(i + 1));
        assert(here[0] == pieces@[i as int]@);
        if pieces[i].len() > 0 {
            let raw = string_of(&pieces[i]);
            let segment = percent_decode_path(raw.as_str());
            proof {
                lemma_views_push(segments@, segment);
                assert(views(segments@).push(segment@) =~= views(segments@) + seq![segment@]);
            }
            segments.push(segment);
        }
        i += 1;
    }
    assert(views(pieces@).skip(i as int) =~= Seq::<Seq<char>>::empty());
    segments
}

/// The route that the segments after `workflows` name.
pub fn parse_workflows_route(segments: &[String], params: &Vec<(String, String)>) -> (r: Result<
    Vec<RouteSegment>,
    UriError,
>)
    ensures
        match r {
            Ok(stack) => stack@.len() == 1 && (stack@[0]@ matches RouteSegmentView::Workflows(w)
                && workflows_route(views(segments@), views(params@)) == Ok::<
                WorkflowsRouteView,
                UriError,
            >(w)),
            Err(e) => workflows_route(views(segments@), views(params@)) == Err::<
                WorkflowsRouteView,
                UriError,
            >(e),
        },
{
    let mut stack: Vec<RouteSegment> = Vec::new();
    if segments.len() == 0 {
        stack.push(RouteSegment::Workflows(WorkflowsRoute::Collection { query: param_value(params, "q") }));
        return Ok(stack);
    }
    let workflow_id = segments[0].clone();
    if segments.len() == 1 {
        stack.push(
            RouteSegment::Workflows(
                WorkflowsRoute::Detail {
                    workflow_id,
                    run_id: param_value(params, "run_id"),
                    tab: param_value(params, "tab"),
                },
            ),
        );
        return Ok(stack);
    }
    if segments.len() <= 3 && same_text(segments[1].as_str(), "activities") {
        let activity_id = if segments.len() > 2 {
            Some(segments[2].clone())
        } else {
            None
        };
        stack.push(RouteSegment::Workflows(WorkflowsRoute::Activities { workflow_id, activity_id }));
        return Ok(stack);
    }
    Err(UriError::UnsupportedRoute)
}

/// The route that the segments after `schedules` name.
pub fn parse_schedules_route(segments: &[String], params: &Vec<(String, String)>) -> (r: Result<
    Vec<RouteSegment>,
    UriError,
>)
    ensures
        match r {
            Ok(stack) => stack@.len() == 1 && (stack@[0]@ matches RouteSegmentView::Schedules(s)
                && schedules_route(views(segments@), views(params@)) == Ok::<
                SchedulesRouteView,
                UriError,
            >(s)),
            Err(e) => schedules_route(views(segments@), views(params@)) == Err::<
                SchedulesRouteView,
                UriError,
            >(e),
        },
{
    let mut stack: Vec<RouteSegment> = Vec::new();
    if segments.len() == 0 {
        stack.push(RouteSegment::Schedules(SchedulesRoute::Collection { query: param_value(params, "q") }));
        return Ok(stack);
    }
    let schedule_id = segments[0].clone();
    if segments.len() == 1 {
        stack.push(RouteSegment::Schedules(SchedulesRoute::Detail { schedule_id }));
        return Ok(stack);
    }
    if segments.len() == 2 && same_text(segments[1].as_str(), "workflows") {
        stack.push(
            RouteSegment::Schedules(
                SchedulesRoute::Workflows { schedule_id, query: param_value(params, "q") },
            ),
        );
        return Ok(stack);
    }
    Err(UriError::UnsupportedRoute)
}

/// The segment stack that the segments after the namespace name.
pub fn parse_route(segments: &[String], params: &Vec<(String, String)>) -> (r: Result<
    Vec<RouteSegment>,
    UriError,
>)
    ensures
        match r {
            Ok(stack) => route(views(segments@), views(params@)) == Ok::<
                Seq<RouteSegmentView>,
                UriError,
            >(views(stack@)),
            Err(e) => route(views(segments@), views(params@)) == Err::<
                Seq<RouteSegmentView>,
                UriError,
            >(e),
        },
{
    if segments.len() == 0 {
        return Err(UriError::InvalidPath);
    }
    let rest = slice_subrange(segments, 1, segments.len());
    assert(views(rest@) =~= views(segments@).skip(1));
    if same_text(segments[0].as_str(), "workflows") {
        let r = parse_workflows_route(rest, params);
        proof {
            if r is Ok {
                assert(views(r->Ok_0@) =~= seq![r->Ok_0@[0]@]);
            }
        }
        r
    } else if same_text(segments[0].as_str(), "schedules") {
        let r = parse_schedules_route(rest, params);
        proof {
            if r is Ok {
                assert(views(r->Ok_0@) =~= seq![r->Ok_0@[0]@]);
            }
        }
        r
    } else {
        Err(UriError::UnsupportedRoute)
    }
}

/// Reads a deep link.
///
/// Refuses a link without `://` or with a scheme other than `temporal`
/// (`InvalidScheme`), with an authority other than `tui`
/// (`InvalidAuthority`), without `/namespaces/<ns>` (`MissingNamespace`),
/// with nothing after the namespace (`InvalidPath`) and with a route of no
/// known shape (`UnsupportedRoute`).
pub fn parse_deep_link(input: &str) -> (r: Result<Location, UriError>)
    ensures
        match r {
            Ok(location) => parsed(input@) == Ok::<LocationView, UriError>(location@),
            Err(e) => parsed(input@) == Err::<LocationView, UriError>(e),
        },
{
    let chars = chars_of(input);
    let separator = chars_of("://");
    let (scheme, rest) = match split_once_at(&chars, &separator) {
        Some(pair) => pair,
        None => {
            return Err(UriError::InvalidScheme);
        },
    };
    if !is_text(&scheme, "temporal") {
        return Err(UriError::InvalidScheme);
    }
    let (authority, tail) = match split_once_char(&rest, '/') {
        Some(pair) => pair,
        None => (rest, Vec::new()),
    };
    if !is_text(&authority, "tui") {
        return Err(UriError::InvalidAuthority);
    }
    let (path, query) = match split_once_char(&tail, '?') {
        Some((p, q)) => (p, Some(string_of(&q))),
        None => (tail, None),
    };
    let segments = path_segments(&path);
    if segments.len() < 2 || !same_text(segments[0].as_str(), "namespaces") {
        return Err(UriError::MissingNamespace);
    }
    let namespace = segments[1].clone();
    let after = slice_subrange(segments.as_slice(), 2, segments.len());
    assert(views(after@) =~= views(segments@).skip(2));
    let params = parse_query(
        match &query {
            Some(q) => Some(q.as_str()),
            None => None,
        },
    );
    match parse_route(after, &params) {
        Ok(stack) => Ok(Location::new(namespace, stack)),
        Err(e) => Err(e),
    }
}

/// Appends the path of a workflows route.
pub fn format_workflows_route(path: &mut String, route: &WorkflowsRoute)
    ensures
        final(path)@ == old(path)@ + workflows_path(route@),
{
    match route {
        WorkflowsRoute::Collection { .. } => {
            path.append("/workflows");
        },
        WorkflowsRoute::Detail { workflow_id, .. } => {
            path.append("/workflows/");
            path.append(percent_encode(workflow_id.as_str()).as_str());
            assert(path@ =~= old(path)@ + workflows_path(route@));
        },
        WorkflowsRoute::Activities { workflow_id, activity_id } => {
            path.append("/workflows/");
            path.append(percent_encode(workflow_id.as_str()).as_str());
            path.append("/activities");
            if let Some(id) = activity_id {
                push_char(path, '/');
                path.append(percent_encode(id.as_str()).as_str());
            }
            assert(path@ =~= old(path)@ + workflows_path(route@));
        },
    }
}

/// Appends the path of a schedules route.
pub fn format_schedules_route(path: &mut String, route: &SchedulesRoute)
    ensures
        final(path)@ == old(path)@ + schedules_path(route@),
{
    match route {
        SchedulesRoute::Collection { .. } => {
            path.append("/schedules");
        },
        SchedulesRoute::Detail { schedule_id } => {
            path.append("/schedules/");
            path.append(percent_encode(schedule_id.as_str()).as_str());
            assert(path@ =~= old(path)@ + schedules_path(route@));
        },
        SchedulesRoute::Workflows { schedule_id, .. } => {
            path.append("/schedules/");
            path.append(percent_encode(schedule_id.as_str()).as_str());
            path.append("/workflows");
            assert(path@ =~= old(path)@ + schedules_path(route@));
        },
    }
}

fn push_param(query: &mut String, key: &str, value: &Option<String>)
    ensures
        final(query)@ == joined(old(query)@, query_piece(key@, opt_view(*value))),
{
    if let Some(v) = value {
        if query.as_str().unicode_len() > 0 {
            push_char(query, '&');
        }
        query.append(key);
        push_char(query, '=');
        query.append(percent_encode(v.as_str()).as_str());
        assert(query@ =~= joined(old(query)@, query_piece(key@, opt_view(*value))));
    }
}

/// The query string of a location: the parameters of its last segment.
pub fn build_query(location: &Location) -> (query: String)
    ensures
        query@ == query_string(location@),
{
    let mut query = String::new();
    match location.leaf() {
        Some(RouteSegment::Workflows(WorkflowsRoute::Collection { query: q })) => {
            push_param(&mut query, "q", q);
        },
        Some(RouteSegment::Workflows(WorkflowsRoute::Detail { run_id, tab, .. })) => {
            push_param(&mut query, "run_id", run_id);
            push_param(&mut query, "tab", tab);
        },
        Some(RouteSegment::Schedules(SchedulesRoute::Collection { query: q })) => {
            push_param(&mut query, "q", q);
        },
        Some(RouteSegment::Schedules(SchedulesRoute::Workflows { query: q, .. })) => {
            push_param(&mut query, "q", q);
        },
        _ => {},
    }
    query
}

/// Writes a location as a deep link.
pub fn format_deep_link(location: &Location) -> (uri: String)
    ensures
        uri@ == formatted(location@),
{
    let mut path = String::from_str("/namespaces/");
    path.append(percent_encode(location.namespace.as_str()).as_str());
    let ghost head = path@;
    let mut i: usize = 0;
    assert(views(location.segments@).take(0) =~= Seq::<RouteSegmentView>::empty());
    assert(path@ =~= head + stack_path(views(location.segments@).take(0)));
    while i < location.segments.len()
        invariant
            i <= location.segments.len(),
            path@ == head + stack_path(views(location.segments@).take(i as int)),
        decreases location.segments.len() - i,
    {
        let ghost before = path@;
        let ghost done = views(location.segments@).take(i + 1);
        assert(done.drop_last() =~= views(location.segments@).take(i as int));
        assert(done.last() == location.segments@[i as int]@);
        match &location.segments[i] {
            RouteSegment::Workflows(route) => format_workflows_route(&mut path, route),
            RouteSegment::Schedules(route) => format_schedules_route(&mut path, route),
        }
        assert(path@ =~= head + stack_path(done));
        i += 1;
    }
    assert(views(location.segments@).take(i as int) =~= views(location.segments@));
    let query = build_query(location);
    let mut uri = String::from_str("temporal://tui");
    uri.append(path.as_str());
    if query.as_str().unicode_len() > 0 {
        push_char(&mut uri, '?');
        uri.append(query.as_str());
        assert(uri@ =~= formatted(location@));
    }
    uri
}

} // verus!

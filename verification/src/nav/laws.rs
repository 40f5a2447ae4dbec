//! The round trip of the deep-link codec: reading what was written gives
//! back the location.

use vstd::prelude::*;
use vstd::utf8::{
    char_is_scalar, char_u32_cast, encode_scalar, encode_utf8, encode_utf8_decode_utf8, encode_utf8_first_scalar,
    encode_utf8_valid_utf8, has_width_1_encoding, leading_byte_width_1, length_of_first_codepoint,
    valid_leading_and_continuation_bytes_first_codepoint,
};
use crate::nav::location::{LocationView, RouteSegmentView, SchedulesRouteView, WorkflowsRouteView};
use crate::nav::uri::{
    decoded, decoded_after, escape_at, lemma_decoded_nothing, text_of_bytes, decoded_pair, decoded_pairs, decoded_segments, encode_byte, encode_bytes, encoded,
    formatted, hex_upper, hex_value, is_unreserved, joined, location_path, param, parsed,
    query_params, query_piece, query_string, route, schedules_path, schedules_route, segment_path,
    stack_path, workflows_path, workflows_route, UriError,
};
use crate::text::{
    lemma_find_none, lemma_find_some, lemma_split_first, lemma_split_none, occurs_at, split,
    split_once,
};

verus! {

/// `c` does not occur in `s`.
pub open spec fn lacks(s: Seq<char>, c: char) -> bool {
    forall|i: int| 0 <= i < s.len() ==> s[i] != c
}

/// A character that encoding produces: a letter, a digit, one of `-._~`,
/// or `%`.
pub open spec fn is_safe(c: char) -> bool {
    c == '%' || (c as int) < 128 && is_unreserved(c as u8)
}

/// All characters of `s` are such as encoding produces.
pub open spec fn all_safe(s: Seq<char>) -> bool {
    forall|i: int| 0 <= i < s.len() ==> is_safe(#[trigger] s[i])
}

/// A text that may stand where the grammar asks for a name: not empty.
pub open spec fn is_name(s: Seq<char>) -> bool {
    s.len() > 0
}

/// The locations that the route grammar can express: one segment, and
/// names that are not empty. Filters, run ids and tabs are any texts.
pub open spec fn routable(location: LocationView) -> bool {
    &&& is_name(location.namespace)
    &&& location.segments.len() == 1
    &&& match location.segments[0] {
        RouteSegmentView::Workflows(r) => routable_workflows(r),
        RouteSegmentView::Schedules(r) => routable_schedules(r),
    }
}

/// The workflows routes that the route grammar can express.
pub open spec fn routable_workflows(r: WorkflowsRouteView) -> bool {
    match r {
        WorkflowsRouteView::Collection { .. } => true,
        WorkflowsRouteView::Detail { workflow_id, .. } => is_name(workflow_id),
        WorkflowsRouteView::Activities { workflow_id, activity_id } => is_name(workflow_id) && (
        activity_id matches Some(id) ==> is_name(id)),
    }
}

/// The schedules routes that the route grammar can express.
pub open spec fn routable_schedules(r: SchedulesRouteView) -> bool {
    match r {
        SchedulesRouteView::Collection { .. } => true,
        SchedulesRouteView::Detail { schedule_id } => is_name(schedule_id),
        SchedulesRouteView::Workflows { schedule_id, .. } => is_name(schedule_id),
    }
}

/// A character that is written as it is.
pub open spec fn is_kept(c: char) -> bool {
    (c as u32) < 128 && is_unreserved(c as u8)
}

pub proof fn lemma_lacks_add(a: Seq<char>, b: Seq<char>, c: char)
    requires
        lacks(a, c),
        lacks(b, c),
    ensures
        lacks(a + b, c),
{
}

pub proof fn lemma_safe_add(a: Seq<char>, b: Seq<char>)
    requires
        all_safe(a),
        all_safe(b),
    ensures
        all_safe(a + b),
{
}

/// A text of safe characters holds none of the characters that structure
/// a deep link.
pub proof fn lemma_safe_lacks(s: Seq<char>)
    requires
        all_safe(s),
    ensures
        lacks(s, '/'),
        lacks(s, '?'),
        lacks(s, '&'),
        lacks(s, '='),
        lacks(s, '+'),
        lacks(s, ':'),
{
    assert forall|i: int| 0 <= i < s.len() implies s[i] != '/' && s[i] != '?' && s[i] != '&'
        && s[i] != '=' && s[i] != '+' && s[i] != ':' by {
        assert(is_safe(s[i]));
    }
}

pub proof fn lemma_encode_byte_safe(b: u8)
    ensures
        all_safe(encode_byte(b)),
        encode_byte(b).len() > 0,
{
    let e = encode_byte(b);
    if is_unreserved(b) {
        assert(is_safe(e[0]));
    } else {
        assert(is_safe(e[0]));
        assert(is_safe(e[1]));
        assert(is_safe(e[2]));
    }
}

pub proof fn lemma_encode_bytes_safe(bytes: Seq<u8>)
    ensures
        all_safe(encode_bytes(bytes)),
        bytes.len() > 0 ==> encode_bytes(bytes).len() > 0,
    decreases bytes.len(),
{
    if bytes.len() > 0 {
        lemma_encode_byte_safe(bytes[0]);
        lemma_encode_bytes_safe(bytes.drop_first());
        lemma_safe_add(encode_byte(bytes[0]), encode_bytes(bytes.drop_first()));
    }
}

/// The UTF-8 form of a character that is written as it is, is the
/// character; no byte of the UTF-8 form of another character is written as
/// it is.
pub proof fn lemma_scalar_bytes(c: char)
    ensures
        encode_scalar(c as u32).len() > 0,
        is_kept(c) ==> encode_scalar(c as u32) == seq![c as u8],
        !is_kept(c) ==> forall|i: int|
            0 <= i < encode_scalar(c as u32).len() ==> !is_unreserved(
                #[trigger] encode_scalar(c as u32)[i],
            ),
{
    let u = c as u32;
    char_is_scalar(c);
    if has_width_1_encoding(u) {
        assert(u as u8 == leading_byte_width_1(u)) by (bit_vector)
            requires
                0 <= u <= 0x7F,
        ;
        assert(encode_scalar(u) =~= seq![c as u8]);
    } else {
        let bytes = encode_utf8(seq![c]);
        assert(seq![c].drop_first() =~= Seq::<char>::empty());
        assert(encode_utf8(seq![c].drop_first()) =~= Seq::<u8>::empty());
        assert(bytes =~= encode_scalar(u));
        encode_utf8_first_scalar(seq![c]);
        assert forall|i: int| 0 <= i < bytes.len() implies bytes[i] >= 0x80 by {
            assert(valid_leading_and_continuation_bytes_first_codepoint(bytes));
            assert(length_of_first_codepoint(bytes) == bytes.len());
        }
    }
}

/// Bytes one after the other are encoded one after the other.
pub proof fn lemma_encode_bytes_add(a: Seq<u8>, b: Seq<u8>)
    ensures
        encode_bytes(a + b) == encode_bytes(a) + encode_bytes(b),
    decreases a.len(),
{
    if a.len() == 0 {
        assert(a + b =~= b);
        assert(encode_bytes(a) =~= Seq::<char>::empty());
        assert(encode_bytes(a) + encode_bytes(b) =~= encode_bytes(b));
    } else {
        assert((a + b).drop_first() =~= a.drop_first() + b);
        assert((a + b)[0] == a[0]);
        lemma_encode_bytes_add(a.drop_first(), b);
        assert(encode_bytes(a + b) =~= encode_bytes(a) + encode_bytes(b));
    }
}

/// The UTF-8 form of a text with one more character.
pub proof fn lemma_encode_utf8_push(a: Seq<char>, c: char)
    ensures
        encode_utf8(a.push(c)) == encode_utf8(a) + encode_scalar(c as u32),
    decreases a.len(),
{
    if a.len() == 0 {
        assert(a.push(c).drop_first() =~= Seq::<char>::empty());
        assert(encode_utf8(a.push(c).drop_first()) =~= Seq::<u8>::empty());
        assert(encode_utf8(a) =~= Seq::<u8>::empty());
        assert(encode_utf8(a.push(c)) =~= encode_utf8(a) + encode_scalar(c as u32));
    } else {
        assert(a.push(c).drop_first() =~= a.drop_first().push(c));
        assert(a.push(c)[0] == a[0]);
        lemma_encode_utf8_push(a.drop_first(), c);
        assert(encode_utf8(a.push(c)) =~= encode_utf8(a) + encode_scalar(c as u32));
    }
}

/// Encoding produces safe characters only, and something for every text
/// that is not empty.
pub proof fn lemma_encoded_safe(s: Seq<char>)
    ensures
        all_safe(encoded(s)),
        is_name(s) ==> encoded(s).len() > 0,
{
    lemma_encode_bytes_safe(encode_utf8(s));
    if is_name(s) {
        lemma_scalar_bytes(s[0]);
    }
}

/// The escape of a byte is read as the byte.
proof fn lemma_escape_read(b: u8, rest: Seq<char>)
    requires
        !is_unreserved(b),
    ensures
        escape_at(encode_byte(b) + rest) == Some(b),
        (encode_byte(b) + rest).skip(3) == rest,
{
    let s = encode_byte(b) + rest;
    assert(s[0] == '%');
    assert(s[1] == hex_upper(b as int / 16));
    assert(s[2] == hex_upper(b as int % 16));
    assert(hex_value(s[1]) == Some(b as int / 16));
    assert(hex_value(s[2]) == Some(b as int % 16));
    assert(s.skip(3) =~= rest);
}

/// Bytes that are all written as escapes are read as a run, after what was
/// read of the run before.
proof fn lemma_decoded_after_escapes(
    pending: Seq<u8>,
    bytes: Seq<u8>,
    tail: Seq<char>,
    plus_as_space: bool,
)
    requires
        forall|i: int| 0 <= i < bytes.len() ==> !is_unreserved(#[trigger] bytes[i]),
    ensures
        decoded_after(pending, encode_bytes(bytes) + tail, plus_as_space) == decoded_after(
            pending + bytes,
            tail,
            plus_as_space,
        ),
    decreases bytes.len(),
{
    if bytes.len() == 0 {
        assert(encode_bytes(bytes) + tail =~= tail);
        assert(pending + bytes =~= pending);
    } else {
        let b = bytes[0];
        let rest = bytes.drop_first();
        let after = encode_bytes(rest) + tail;
        assert(!is_unreserved(b));
        assert(encode_bytes(bytes) + tail =~= encode_byte(b) + after);
        lemma_escape_read(b, after);
        assert forall|i: int| 0 <= i < rest.len() implies !is_unreserved(#[trigger] rest[i]) by {
            assert(rest[i] == bytes[i + 1]);
        }
        lemma_decoded_after_escapes(pending.push(b), rest, tail, plus_as_space);
        assert(pending.push(b) + rest =~= pending + bytes);
    }
}

/// Decoding what was encoded, after a run that is the UTF-8 form of `done`,
/// gives `done` and the text.
proof fn lemma_decoded_after_encoded(done: Seq<char>, text: Seq<char>, plus_as_space: bool)
    ensures
        decoded_after(encode_utf8(done), encoded(text), plus_as_space) == done + text,
    decreases text.len(),
{
    let pending = encode_utf8(done);
    assert(text_of_bytes(pending) == done) by {
        encode_utf8_valid_utf8(done);
        encode_utf8_decode_utf8(done);
    }
    if text.len() == 0 {
        assert(encode_utf8(text) =~= Seq::<u8>::empty());
        assert(encoded(text) =~= Seq::<char>::empty());
        assert(done + text =~= done);
        assert(decoded_after(pending, encoded(text), plus_as_space) =~= done);
    } else {
        let c = text[0];
        let rest = text.drop_first();
        let bytes = encode_scalar(c as u32);
        lemma_scalar_bytes(c);
        lemma_encode_bytes_add(bytes, encode_utf8(rest));
        assert(encoded(text) == encode_bytes(bytes) + encoded(rest));
        if is_kept(c) {
            let s = encoded(text);
            assert(encode_bytes(bytes) =~= seq![c]) by {
                assert(bytes.drop_first() =~= Seq::<u8>::empty());
                assert(encode_bytes(bytes.drop_first()) =~= Seq::<char>::empty());
                let u = c as u32;
                assert((u as u8) as u32 == u) by (bit_vector)
                    requires
                        u < 128,
                ;
                char_u32_cast(c, u);
                assert((c as u8) as char == c);
            }
            assert(s =~= seq![c] + encoded(rest));
            assert(s[0] == c);
            assert(s.drop_first() =~= encoded(rest));
            assert(c != '%' && c != '+');
            assert(escape_at(s) is None);
            lemma_decoded_after_encoded(Seq::empty(), rest, plus_as_space);
            assert(encode_utf8(Seq::<char>::empty()) =~= Seq::<u8>::empty());
            assert(Seq::<char>::empty() + rest =~= rest);
            assert(done + (seq![c] + rest) =~= done + text);
        } else {
            lemma_decoded_after_escapes(pending, bytes, encoded(rest), plus_as_space);
            lemma_encode_utf8_push(done, c);
            lemma_decoded_after_encoded(done.push(c), rest, plus_as_space);
            assert(done.push(c) + rest =~= done + text);
        }
    }
}

/// Decoding what was encoded gives back the text, in a path as in a query.
pub proof fn lemma_decoded_encoded(s: Seq<char>, plus_as_space: bool)
    ensures
        decoded(encoded(s), plus_as_space) == s,
{
    lemma_decoded_after_encoded(Seq::empty(), s, plus_as_space);
    assert(encode_utf8(Seq::<char>::empty()) =~= Seq::<u8>::empty());
    assert(Seq::<char>::empty() + s =~= s);
}

/// Decoding leaves a text without escapes as it is.
pub proof fn lemma_decoded_plain(s: Seq<char>, plus_as_space: bool)
    requires
        lacks(s, '%'),
        lacks(s, '+'),
    ensures
        decoded(s, plus_as_space) == s,
    decreases s.len(),
{
    lemma_decoded_nothing(plus_as_space);
    if s.len() > 0 {
        let rest = s.drop_first();
        assert forall|i: int| 0 <= i < rest.len() implies rest[i] != '%' && rest[i] != '+' by {
            assert(rest[i] == s[i + 1]);
        }
        lemma_decoded_plain(rest, plus_as_space);
        assert(s[0] != '%' && s[0] != '+');
        assert(escape_at(s) is None);
        assert(seq![s[0]] + rest =~= s);
        assert(decoded(s, plus_as_space) =~= s);
    } else {
        assert(decoded(s, plus_as_space) =~= s);
    }
}

/// Where `pat` begins with a character that `a` lacks, the first `pat` in
/// `a`, `pat`, `b` is the one between `a` and `b`.
pub proof fn lemma_split_once_first(a: Seq<char>, pat: Seq<char>, b: Seq<char>)
    requires
        pat.len() > 0,
        lacks(a, pat[0]),
    ensures
        split_once(a + pat + b, pat) == Some((a, b)),
{
    let s = a + pat + b;
    let i = a.len() as int;
    assert(occurs_at(s, pat, i)) by {
        assert(s.subrange(i, i + pat.len()) =~= pat);
    }
    assert forall|j: int| 0 <= j < i implies !occurs_at(s, pat, j) by {
        lemma_no_occurrence(a, pat, b, j);
    }
    lemma_find_some(s, pat, i);
    assert(s.take(i) == a) by {
        assert(s.take(i) =~= a);
    }
    assert(s.skip(i + pat.len()) == b) by {
        assert(s.skip(i + pat.len()) =~= b);
    }
}

proof fn lemma_no_occurrence(a: Seq<char>, pat: Seq<char>, b: Seq<char>, j: int)
    requires
        pat.len() > 0,
        0 <= j < a.len(),
        a[j] != pat[0],
    ensures
        !occurs_at(a + pat + b, pat, j),
{
    let s = a + pat + b;
    if occurs_at(s, pat, j) {
        assert(s.subrange(j, j + pat.len())[0] == s[j]);
        assert(s[j] == a[j]);
    }
}

/// A text that lacks `c` cannot be split at `c`.
pub proof fn lemma_split_once_none(s: Seq<char>, c: char)
    requires
        lacks(s, c),
    ensures
        split_once(s, seq![c]) is None,
{
    assert forall|j: int| !occurs_at(s, seq![c], j) by {
        if occurs_at(s, seq![c], j) {
            assert(s.subrange(j, j + 1)[0] == c);
            assert(s[j] == c);
        }
    }
    lemma_find_none(s, seq![c]);
}

/// All characters of `s` are letters, digits or one of `-._~`.
pub open spec fn all_unreserved(s: Seq<char>) -> bool {
    forall|i: int| 0 <= i < s.len() ==> (#[trigger] s[i] as int) < 128 && is_unreserved(s[i] as u8)
}

/// A text of letters, digits and `-._~` holds no escape and none of the
/// characters that structure a deep link, and decoding leaves it as it is.
pub proof fn lemma_unreserved(s: Seq<char>, plus_as_space: bool)
    requires
        all_unreserved(s),
    ensures
        all_safe(s),
        lacks(s, '%'),
        lacks(s, '+'),
        lacks(s, '/'),
        lacks(s, '?'),
        lacks(s, '&'),
        lacks(s, '='),
        lacks(s, ':'),
        decoded(s, plus_as_space) == s,
{
    assert forall|i: int| 0 <= i < s.len() implies is_safe(#[trigger] s[i]) && s[i] != '%' by {
        assert((s[i] as int) < 128 && is_unreserved(s[i] as u8));
    }
    lemma_safe_lacks(s);
    lemma_decoded_plain(s, plus_as_space);
}

/// The fixed words of the grammar are made of letters and `_`.
pub proof fn lemma_words()
    ensures
        all_unreserved("temporal"@),
        all_unreserved("tui"@),
        all_unreserved("namespaces"@),
        all_unreserved("workflows"@),
        all_unreserved("schedules"@),
        all_unreserved("activities"@),
        all_unreserved("q"@),
        all_unreserved("run_id"@),
        all_unreserved("tab"@),
        "namespaces"@.len() > 0,
        "workflows"@.len() > 0,
        "schedules"@.len() > 0,
        "activities"@.len() > 0,
        "workflows"@ != "schedules"@,
        "q"@ != "run_id"@,
        "q"@ != "tab"@,
        "run_id"@ != "tab"@,
{
    reveal_strlit("temporal");
    reveal_strlit("tui");
    reveal_strlit("namespaces");
    reveal_strlit("workflows");
    reveal_strlit("schedules");
    reveal_strlit("activities");
    reveal_strlit("q");
    reveal_strlit("run_id");
    reveal_strlit("tab");
    assert("workflows"@[0] != "schedules"@[0]);
}

/// How the fixed parts of a deep link are made of the words and the
/// characters between them.
pub proof fn lemma_fixed_parts()
    ensures
        "temporal://tui"@ == "temporal"@ + "://"@ + "tui"@,
        "://"@.len() == 3,
        "://"@[0] == ':',
        "/namespaces/"@ == seq!['/'] + "namespaces"@ + seq!['/'],
        "/workflows"@ == seq!['/'] + "workflows"@,
        "/workflows/"@ == seq!['/'] + "workflows"@ + seq!['/'],
        "/activities"@ == seq!['/'] + "activities"@,
        "/schedules"@ == seq!['/'] + "schedules"@,
        "/schedules/"@ == seq!['/'] + "schedules"@ + seq!['/'],
{
    reveal_strlit("temporal://tui");
    reveal_strlit("temporal");
    reveal_strlit("://");
    reveal_strlit("tui");
    reveal_strlit("/namespaces/");
    reveal_strlit("namespaces");
    reveal_strlit("/workflows");
    reveal_strlit("/workflows/");
    reveal_strlit("workflows");
    reveal_strlit("/activities");
    reveal_strlit("activities");
    reveal_strlit("/schedules");
    reveal_strlit("/schedules/");
    reveal_strlit("schedules");
    assert("temporal://tui"@ =~= "temporal"@ + "://"@ + "tui"@);
    assert("/namespaces/"@ =~= seq!['/'] + "namespaces"@ + seq!['/']);
    assert("/workflows"@ =~= seq!['/'] + "workflows"@);
    assert("/workflows/"@ =~= seq!['/'] + "workflows"@ + seq!['/']);
    assert("/activities"@ =~= seq!['/'] + "activities"@);
    assert("/schedules"@ =~= seq!['/'] + "schedules"@);
    assert("/schedules/"@ =~= seq!['/'] + "schedules"@ + seq!['/']);
}

/// Words joined by `/`.
pub open spec fn slashed(words: Seq<Seq<char>>) -> Seq<char>
    decreases words.len(),
{
    if words.len() == 0 {
        Seq::empty()
    } else if words.len() == 1 {
        words[0]
    } else {
        words[0] + seq!['/'] + slashed(words.drop_first())
    }
}

/// All words are of safe characters, and none is empty.
pub open spec fn safe_words(words: Seq<Seq<char>>) -> bool {
    forall|i: int| 0 <= i < words.len() ==> all_safe(#[trigger] words[i]) && words[i].len() > 0
}

/// Splitting words joined by `/` gives back the words, and their join
/// holds no `?`.
pub proof fn lemma_split_slashed(words: Seq<Seq<char>>)
    requires
        words.len() > 0,
        safe_words(words),
    ensures
        split(slashed(words), '/') == words,
        lacks(slashed(words), '?'),
    decreases words.len(),
{
    let first = words[0];
    assert(all_safe(first));
    lemma_safe_lacks(first);
    assert(!first.contains('/'));
    if words.len() == 1 {
        lemma_split_none(first, '/');
        assert(seq![first] =~= words);
    } else {
        let rest = words.drop_first();
        assert forall|i: int| 0 <= i < rest.len() implies all_safe(#[trigger] rest[i])
            && rest[i].len() > 0 by {
            assert(rest[i] == words[i + 1]);
        }
        lemma_split_slashed(rest);
        lemma_split_first(first, '/', slashed(rest));
        assert(seq![first] + rest =~= words);
        lemma_lacks_add(first, seq!['/'], '?');
        lemma_lacks_add(first + seq!['/'], slashed(rest), '?');
    }
}

/// The segments of words that are not empty are the decoded words.
pub proof fn lemma_segments_of_words(words: Seq<Seq<char>>)
    requires
        forall|i: int| 0 <= i < words.len() ==> (#[trigger] words[i]).len() > 0,
    ensures
        decoded_segments(words) == Seq::new(words.len(), |i: int| decoded(words[i], false)),
    decreases words.len(),
{
    if words.len() > 0 {
        let rest = words.drop_first();
        assert forall|i: int| 0 <= i < rest.len() implies (#[trigger] rest[i]).len() > 0 by {
            assert(rest[i] == words[i + 1]);
        }
        lemma_segments_of_words(rest);
        assert(words[0].len() > 0);
        assert(decoded_segments(words) =~= Seq::new(
            words.len(),
            |i: int| decoded(words[i], false),
        ));
    } else {
        assert(decoded_segments(words) =~= Seq::new(
            words.len(),
            |i: int| decoded(words[i], false),
        ));
    }
}

/// The words of the path of a workflows route.
pub open spec fn workflows_words(r: WorkflowsRouteView) -> Seq<Seq<char>> {
    match r {
        WorkflowsRouteView::Collection { .. } => seq!["workflows"@],
        WorkflowsRouteView::Detail { workflow_id, .. } => seq!["workflows"@, encoded(workflow_id)],
        WorkflowsRouteView::Activities { workflow_id, activity_id } => match activity_id {
            Some(id) => seq!["workflows"@, encoded(workflow_id), "activities"@, encoded(id)],
            None => seq!["workflows"@, encoded(workflow_id), "activities"@],
        },
    }
}

/// The words of the path of a schedules route.
pub open spec fn schedules_words(r: SchedulesRouteView) -> Seq<Seq<char>> {
    match r {
        SchedulesRouteView::Collection { .. } => seq!["schedules"@],
        SchedulesRouteView::Detail { schedule_id } => seq!["schedules"@, encoded(schedule_id)],
        SchedulesRouteView::Workflows { schedule_id, .. } => seq![
            "schedules"@,
            encoded(schedule_id),
            "workflows"@,
        ],
    }
}

/// The words of the path of a location of one segment.
pub open spec fn path_words(location: LocationView) -> Seq<Seq<char>> {
    seq!["namespaces"@, encoded(location.namespace)] + match location.segments[0] {
        RouteSegmentView::Workflows(r) => workflows_words(r),
        RouteSegmentView::Schedules(r) => schedules_words(r),
    }
}

proof fn lemma_slashed_2(a: Seq<char>, b: Seq<char>)
    ensures
        slashed(seq![a, b]) == a + seq!['/'] + b,
{
    let w = seq![a, b];
    assert(w.drop_first() =~= seq![b]);
    assert(seq![b].len() == 1 && seq![b][0] == b);
    assert(slashed(seq![b]) == b);
    assert(w.len() == 2 && w[0] == a);
}

proof fn lemma_slashed_more(a: Seq<char>, rest: Seq<Seq<char>>)
    requires
        rest.len() > 0,
    ensures
        slashed(seq![a] + rest) == a + seq!['/'] + slashed(rest),
{
    let w = seq![a] + rest;
    assert(w.drop_first() =~= rest);
}

proof fn lemma_workflows_path(r: WorkflowsRouteView)
    ensures
        workflows_path(r) == seq!['/'] + slashed(workflows_words(r)),
{
    lemma_fixed_parts();
    let w = "workflows"@;
    match r {
        WorkflowsRouteView::Collection { .. } => {},
        WorkflowsRouteView::Detail { workflow_id, .. } => {
            let id = encoded(workflow_id);
            lemma_slashed_2(w, id);
            assert(workflows_path(r) =~= seq!['/'] + (w + seq!['/'] + id));
        },
        WorkflowsRouteView::Activities { workflow_id, activity_id } => {
            let id = encoded(workflow_id);
            let a = "activities"@;
            match activity_id {
                Some(activity) => {
                    let e = encoded(activity);
                    lemma_slashed_2(a, e);
                    lemma_slashed_more(id, seq![a, e]);
                    lemma_slashed_more(w, seq![id, a, e]);
                    assert(seq![id] + seq![a, e] =~= seq![id, a, e]);
                    assert(seq![w] + seq![id, a, e] =~= workflows_words(r));
                    assert(workflows_path(r) =~= seq!['/'] + (w + seq!['/'] + (id + seq!['/'] + (a
                        + seq!['/'] + e))));
                },
                None => {
                    lemma_slashed_2(id, a);
                    lemma_slashed_more(w, seq![id, a]);
                    assert(seq![w] + seq![id, a] =~= workflows_words(r));
                    assert(workflows_path(r) =~= seq!['/'] + (w + seq!['/'] + (id + seq!['/']
                        + a)));
                },
            }
        },
    }
}

proof fn lemma_schedules_path(r: SchedulesRouteView)
    ensures
        schedules_path(r) == seq!['/'] + slashed(schedules_words(r)),
{
    lemma_fixed_parts();
    let w = "schedules"@;
    match r {
        SchedulesRouteView::Collection { .. } => {},
        SchedulesRouteView::Detail { schedule_id } => {
            let id = encoded(schedule_id);
            lemma_slashed_2(w, id);
            assert(schedules_path(r) =~= seq!['/'] + (w + seq!['/'] + id));
        },
        SchedulesRouteView::Workflows { schedule_id, .. } => {
            let id = encoded(schedule_id);
            let x = "workflows"@;
            lemma_slashed_2(id, x);
            lemma_slashed_more(w, seq![id, x]);
            assert(seq![w] + seq![id, x] =~= schedules_words(r));
            assert(schedules_path(r) =~= seq!['/'] + (w + seq!['/'] + (id + seq!['/'] + x)));
        },
    }
}

/// The path of a location of one segment is its words, each after a `/`.
pub proof fn lemma_location_path(location: LocationView)
    requires
        location.segments.len() == 1,
    ensures
        location_path(location) == seq!['/'] + slashed(path_words(location)),
{
    lemma_fixed_parts();
    let n = "namespaces"@;
    let ns = encoded(location.namespace);
    let segment = location.segments[0];
    let words = match segment {
        RouteSegmentView::Workflows(r) => workflows_words(r),
        RouteSegmentView::Schedules(r) => schedules_words(r),
    };
    assert(location.segments.drop_last() =~= Seq::<RouteSegmentView>::empty());
    assert(stack_path(location.segments) =~= segment_path(segment)) by {
        assert(stack_path(location.segments.drop_last()) =~= Seq::<char>::empty());
    }
    match segment {
        RouteSegmentView::Workflows(r) => {
            lemma_workflows_path(r);
        },
        RouteSegmentView::Schedules(r) => {
            lemma_schedules_path(r);
        },
    }
    assert(segment_path(segment) == seq!['/'] + slashed(words));
    assert(words.len() > 0);
    lemma_slashed_more(ns, words);
    lemma_slashed_more(n, seq![ns] + words);
    assert(seq![n] + (seq![ns] + words) =~= path_words(location));
    assert(location_path(location) =~= seq!['/'] + (n + seq!['/'] + (ns + seq!['/'] + slashed(
        words,
    ))));
}

/// The query of a segment: the parameters that its route carries.
pub open spec fn segment_query(segment: RouteSegmentView) -> Seq<char> {
    match segment {
        RouteSegmentView::Workflows(WorkflowsRouteView::Collection { query }) => query_piece(
            "q"@,
            query,
        ),
        RouteSegmentView::Workflows(WorkflowsRouteView::Detail { run_id, tab, .. }) => joined(
            query_piece("run_id"@, run_id),
            query_piece("tab"@, tab),
        ),
        RouteSegmentView::Schedules(SchedulesRouteView::Collection { query }) => query_piece(
            "q"@,
            query,
        ),
        RouteSegmentView::Schedules(SchedulesRouteView::Workflows { query, .. }) => query_piece(
            "q"@,
            query,
        ),
        _ => Seq::empty(),
    }
}

/// The query part of a deep link: none where the query is empty.
pub open spec fn query_part(query: Seq<char>) -> Option<Seq<char>> {
    if query.len() == 0 {
        None
    } else {
        Some(query)
    }
}

/// The words, each decoded as a path segment.
pub open spec fn decoded_words(words: Seq<Seq<char>>) -> Seq<Seq<char>> {
    Seq::new(words.len(), |i: int| decoded(words[i], false))
}

/// One piece of a query reads back as its key and its value, and holds no
/// `&`.
proof fn lemma_piece(key: Seq<char>, value: Seq<char>)
    requires
        all_unreserved(key),
        key.len() > 0,
    ensures
        decoded_pair(query_piece(key, Some(value))) == (key, value),
        lacks(query_piece(key, Some(value)), '&'),
        query_piece(key, Some(value)).len() > 0,
{
    let e = encoded(value);
    lemma_encoded_safe(value);
    lemma_safe_lacks(e);
    lemma_unreserved(key, true);
    lemma_split_once_first(key, seq!['='], e);
    lemma_decoded_encoded(value, true);
    lemma_lacks_add(key, seq!['='], '&');
    lemma_lacks_add(key + seq!['='], e, '&');
}

/// A query of one piece holds one parameter.
proof fn lemma_one_param(key: Seq<char>, value: Seq<char>)
    requires
        all_unreserved(key),
        key.len() > 0,
    ensures
        query_params(query_part(query_piece(key, Some(value)))) == seq![(key, value)],
{
    let piece = query_piece(key, Some(value));
    lemma_piece(key, value);
    assert(!piece.contains('&'));
    lemma_split_none(piece, '&');
    let pieces = seq![piece];
    assert(pieces.drop_first() =~= Seq::<Seq<char>>::empty());
    assert(decoded_pairs(pieces.drop_first()) =~= Seq::<(Seq<char>, Seq<char>)>::empty());
    assert(decoded_pairs(pieces) =~= seq![(key, value)]);
}

/// A query of two pieces holds two parameters, in order.
proof fn lemma_two_params(k1: Seq<char>, v1: Seq<char>, k2: Seq<char>, v2: Seq<char>)
    requires
        all_unreserved(k1),
        k1.len() > 0,
        all_unreserved(k2),
        k2.len() > 0,
    ensures
        query_params(
            query_part(joined(query_piece(k1, Some(v1)), query_piece(k2, Some(v2)))),
        ) == seq![(k1, v1), (k2, v2)],
{
    let first = query_piece(k1, Some(v1));
    let second = query_piece(k2, Some(v2));
    let pieces = seq![first, second];
    lemma_piece(k1, v1);
    lemma_piece(k2, v2);
    assert(split(first + seq!['&'] + second, '&') == pieces) by {
        assert(!first.contains('&'));
        assert(!second.contains('&'));
        lemma_split_first(first, '&', second);
        lemma_split_none(second, '&');
        assert(seq![first] + seq![second] =~= pieces);
    }
    assert(decoded_pairs(pieces) == seq![(k1, v1), (k2, v2)]) by {
        lemma_pairs_of_two(first, second);
    }
}

/// The pairs of two pieces that are not empty.
proof fn lemma_pairs_of_two(first: Seq<char>, second: Seq<char>)
    requires
        first.len() > 0,
        second.len() > 0,
    ensures
        decoded_pairs(seq![first, second]) == seq![decoded_pair(first), decoded_pair(second)],
{
    let pieces = seq![first, second];
    assert(pieces.drop_first() =~= seq![second]);
    assert(seq![second].drop_first() =~= Seq::<Seq<char>>::empty());
    assert(decoded_pairs(seq![second].drop_first()) =~= Seq::<(Seq<char>, Seq<char>)>::empty());
    assert(decoded_pairs(seq![second]) =~= seq![decoded_pair(second)]);
    assert(decoded_pairs(pieces) =~= seq![decoded_pair(first), decoded_pair(second)]);
}

proof fn lemma_param_none(key: Seq<char>)
    ensures
        param(Seq::empty(), key) is None,
{
}

proof fn lemma_param_one(k: Seq<char>, v: Seq<char>, key: Seq<char>)
    ensures
        param(seq![(k, v)], key) == if key == k {
            Some(v)
        } else {
            None
        },
{
    let params = seq![(k, v)];
    assert(params.last() == (k, v));
    assert(params.drop_last() =~= Seq::<(Seq<char>, Seq<char>)>::empty());
    lemma_param_none(key);
}

proof fn lemma_param_two(k1: Seq<char>, v1: Seq<char>, k2: Seq<char>, v2: Seq<char>, key: Seq<char>)
    ensures
        param(seq![(k1, v1), (k2, v2)], key) == if key == k2 {
            Some(v2)
        } else if key == k1 {
            Some(v1)
        } else {
            None
        },
{
    let params = seq![(k1, v1), (k2, v2)];
    assert(params.last() == (k2, v2));
    assert(params.drop_last() =~= seq![(k1, v1)]);
    lemma_param_one(k1, v1, key);
}

/// The parameter `q` of the query that carries an optional filter is the
/// filter.
proof fn lemma_filter_param(query: Option<Seq<char>>)
    ensures
        param(query_params(query_part(query_piece("q"@, query))), "q"@) == query,
{
    lemma_words();
    reveal_strlit("q");
    match query {
        Some(filter) => {
            lemma_one_param("q"@, filter);
            lemma_param_one("q"@, filter, "q"@);
        },
        None => {
            lemma_param_none("q"@);
        },
    }
}

/// The parameters `run_id` and `tab` of the query of a detail route are
/// those of the route.
proof fn lemma_detail_params(run_id: Option<Seq<char>>, tab: Option<Seq<char>>)
    ensures
        ({
            let params = query_params(
                query_part(joined(query_piece("run_id"@, run_id), query_piece("tab"@, tab))),
            );
            param(params, "run_id"@) == run_id && param(params, "tab"@) == tab
        }),
{
    lemma_words();
    reveal_strlit("run_id");
    reveal_strlit("tab");
    let r = "run_id"@;
    let t = "tab"@;
    match (run_id, tab) {
        (Some(a), Some(b)) => {
            lemma_piece(r, a);
            lemma_piece(t, b);
            lemma_two_params(r, a, t, b);
            lemma_param_two(r, a, t, b, r);
            lemma_param_two(r, a, t, b, t);
        },
        (Some(a), None) => {
            lemma_piece(r, a);
            lemma_one_param(r, a);
            lemma_param_one(r, a, r);
            lemma_param_one(r, a, t);
        },
        (None, Some(b)) => {
            lemma_piece(t, b);
            lemma_one_param(t, b);
            lemma_param_one(t, b, r);
            lemma_param_one(t, b, t);
        },
        (None, None) => {
            lemma_param_none(r);
            lemma_param_none(t);
        },
    }
}

/// The words of a workflows route, decoded, and its query read back as the
/// route.
proof fn lemma_workflows_round_trip(r: WorkflowsRouteView)
    requires
        routable_workflows(r),
    ensures
        route(
            decoded_words(workflows_words(r)),
            query_params(query_part(segment_query(RouteSegmentView::Workflows(r)))),
        ) == Ok::<Seq<RouteSegmentView>, UriError>(seq![RouteSegmentView::Workflows(r)]),
{
    lemma_words();
    lemma_unreserved("workflows"@, false);
    lemma_unreserved("activities"@, false);
    let words = decoded_words(workflows_words(r));
    let params = query_params(query_part(segment_query(RouteSegmentView::Workflows(r))));
    assert(words[0] == "workflows"@);
    let rest = words.skip(1);
    match r {
        WorkflowsRouteView::Collection { query } => {
            lemma_filter_param(query);
            assert(rest.len() == 0);
        },
        WorkflowsRouteView::Detail { workflow_id, run_id, tab } => {
            lemma_decoded_encoded(workflow_id, false);
            lemma_detail_params(run_id, tab);
            assert(rest.len() == 1);
            assert(rest[0] == workflow_id);
        },
        WorkflowsRouteView::Activities { workflow_id, activity_id } => {
            lemma_decoded_encoded(workflow_id, false);
            assert(rest[0] == workflow_id);
            assert(rest[1] == "activities"@);
            match activity_id {
                Some(id) => {
                    lemma_decoded_encoded(id, false);
                    assert(rest.len() == 3);
                    assert(rest[2] == id);
                },
                None => {
                    assert(rest.len() == 2);
                },
            }
        },
    }
    assert(workflows_route(rest, params) == Ok::<WorkflowsRouteView, UriError>(r));
}

/// The words of a schedules route, decoded, and its query read back as the
/// route.
proof fn lemma_schedules_round_trip(r: SchedulesRouteView)
    requires
        routable_schedules(r),
    ensures
        route(
            decoded_words(schedules_words(r)),
            query_params(query_part(segment_query(RouteSegmentView::Schedules(r)))),
        ) == Ok::<Seq<RouteSegmentView>, UriError>(seq![RouteSegmentView::Schedules(r)]),
{
    lemma_words();
    lemma_unreserved("schedules"@, false);
    lemma_unreserved("workflows"@, false);
    let words = decoded_words(schedules_words(r));
    let params = query_params(query_part(segment_query(RouteSegmentView::Schedules(r))));
    assert(words[0] == "schedules"@);
    let rest = words.skip(1);
    match r {
        SchedulesRouteView::Collection { query } => {
            lemma_filter_param(query);
            assert(rest.len() == 0);
        },
        SchedulesRouteView::Detail { schedule_id } => {
            lemma_decoded_encoded(schedule_id, false);
            assert(rest.len() == 1);
            assert(rest[0] == schedule_id);
        },
        SchedulesRouteView::Workflows { schedule_id, query } => {
            lemma_decoded_encoded(schedule_id, false);
            lemma_filter_param(query);
            assert(rest.len() == 2);
            assert(rest[0] == schedule_id);
            assert(rest[1] == "workflows"@);
        },
    }
    assert(schedules_route(rest, params) == Ok::<SchedulesRouteView, UriError>(r));
}

/// The words of the path of a routable location are of safe characters,
/// and none is empty.
proof fn lemma_path_words_safe(location: LocationView)
    requires
        routable(location),
    ensures
        safe_words(path_words(location)),
        path_words(location).len() >= 3,
{
    lemma_words();
    lemma_unreserved("namespaces"@, false);
    lemma_unreserved("workflows"@, false);
    lemma_unreserved("schedules"@, false);
    lemma_unreserved("activities"@, false);
    lemma_encoded_safe(location.namespace);
    let words = path_words(location);
    match location.segments[0] {
        RouteSegmentView::Workflows(WorkflowsRouteView::Collection { .. }) => {},
        RouteSegmentView::Workflows(WorkflowsRouteView::Detail { workflow_id, .. }) => {
            lemma_encoded_safe(workflow_id);
        },
        RouteSegmentView::Workflows(WorkflowsRouteView::Activities { workflow_id, activity_id }) => {
            lemma_encoded_safe(workflow_id);
            if activity_id is Some {
                lemma_encoded_safe(activity_id->0);
            }
        },
        RouteSegmentView::Schedules(SchedulesRouteView::Collection { .. }) => {},
        RouteSegmentView::Schedules(SchedulesRouteView::Detail { schedule_id }) => {
            lemma_encoded_safe(schedule_id);
        },
        RouteSegmentView::Schedules(SchedulesRouteView::Workflows { schedule_id, .. }) => {
            lemma_encoded_safe(schedule_id);
        },
    }
    assert forall|i: int| 0 <= i < words.len() implies all_safe(#[trigger] words[i])
        && words[i].len() > 0 by {
        if i >= 2 {
            let tail = match location.segments[0] {
                RouteSegmentView::Workflows(r) => workflows_words(r),
                RouteSegmentView::Schedules(r) => schedules_words(r),
            };
            assert(words[i] == tail[i - 2]);
        }
    }
}

/// The path of a deep link after the authority and its `/`.
pub open spec fn link_path(location: LocationView) -> Seq<char> {
    slashed(path_words(location))
}

/// What stands in a deep link after the authority and its `/`: the path,
/// and the query after a `?` where there is a query.
pub open spec fn link_tail(location: LocationView) -> Seq<char> {
    let query = query_string(location);
    if query.len() == 0 {
        link_path(location)
    } else {
        link_path(location) + seq!['?'] + query
    }
}

/// A deep link is the scheme, `://`, the authority, `/`, and the rest.
proof fn lemma_link_shape(location: LocationView)
    requires
        location.segments.len() == 1,
    ensures
        formatted(location) == "temporal"@ + "://"@ + ("tui"@ + seq!['/'] + link_tail(location)),
{
    lemma_fixed_parts();
    lemma_location_path(location);
    let uri = formatted(location);
    let tail = link_tail(location);
    assert(uri =~= "temporal"@ + "://"@ + ("tui"@ + seq!['/'] + tail));
}

/// Reading a deep link finds the scheme, the authority, the path and the
/// query where they were written.
proof fn lemma_link_parts(location: LocationView)
    requires
        routable(location),
    ensures
        split_once(formatted(location), "://"@) == Some(
            ("temporal"@, "tui"@ + seq!['/'] + link_tail(location)),
        ),
        split_once("tui"@ + seq!['/'] + link_tail(location), seq!['/']) == Some(
            ("tui"@, link_tail(location)),
        ),
        split_once(link_tail(location), seq!['?']) == match query_part(query_string(location)) {
            Some(query) => Some((link_path(location), query)),
            None => None,
        },
{
    let tail = link_tail(location);
    let path = link_path(location);
    let query = query_string(location);
    let rest = "tui"@ + seq!['/'] + tail;
    lemma_link_shape(location);
    assert(split_once(formatted(location), "://"@) == Some(("temporal"@, rest))) by {
        lemma_words();
        lemma_fixed_parts();
        lemma_unreserved("temporal"@, false);
        lemma_split_once_first("temporal"@, "://"@, rest);
    }
    assert(split_once(rest, seq!['/']) == Some(("tui"@, tail))) by {
        lemma_words();
        lemma_unreserved("tui"@, false);
        lemma_split_once_first("tui"@, seq!['/'], tail);
    }
    assert(lacks(path, '?')) by {
        lemma_path_words_safe(location);
        lemma_split_slashed(path_words(location));
    }
    if query.len() == 0 {
        lemma_split_once_none(tail, '?');
    } else {
        lemma_split_once_first(path, seq!['?'], query);
    }
}

/// The segments of the path of a deep link are `namespaces`, the
/// namespace, and the decoded words of the route.
proof fn lemma_link_segments(location: LocationView)
    requires
        routable(location),
    ensures
        ({
            let segments = decoded_segments(split(link_path(location), '/'));
            &&& segments.len() >= 3
            &&& segments[0] == "namespaces"@
            &&& segments[1] == location.namespace
            &&& segments.skip(2) == decoded_words(
                match location.segments[0] {
                    RouteSegmentView::Workflows(r) => workflows_words(r),
                    RouteSegmentView::Schedules(r) => schedules_words(r),
                },
            )
        }),
{
    let words = path_words(location);
    let route_words = match location.segments[0] {
        RouteSegmentView::Workflows(r) => workflows_words(r),
        RouteSegmentView::Schedules(r) => schedules_words(r),
    };
    lemma_path_words_safe(location);
    lemma_split_slashed(words);
    lemma_segments_of_words(words);
    let segments = decoded_segments(split(link_path(location), '/'));
    assert(segments == decoded_words(words));
    assert(segments[0] == "namespaces"@) by {
        lemma_words();
        lemma_unreserved("namespaces"@, false);
    }
    assert(segments[1] == location.namespace) by {
        lemma_decoded_encoded(location.namespace, false);
    }
    assert(segments.skip(2) =~= decoded_words(route_words));
}

/// Reading the deep link of a location that the route grammar can express
/// gives back the location.
pub proof fn lemma_round_trip(location: LocationView)
    requires
        routable(location),
    ensures
        parsed(formatted(location)) == Ok::<LocationView, UriError>(location),
{
    let segment = location.segments[0];
    let query = query_string(location);
    lemma_link_parts(location);
    lemma_link_segments(location);
    assert(location.segments.last() == segment);
    assert(query == segment_query(segment));
    let segments = decoded_segments(split(link_path(location), '/'));
    let params = query_params(query_part(query));
    match segment {
        RouteSegmentView::Workflows(r) => {
            lemma_workflows_round_trip(r);
        },
        RouteSegmentView::Schedules(r) => {
            lemma_schedules_round_trip(r);
        },
    }
    assert(route(segments.skip(2), params) == Ok::<Seq<RouteSegmentView>, UriError>(seq![segment]));
    assert(location.segments =~= seq![segment]);
}

} // verus!

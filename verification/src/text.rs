//! Character-sequence utilities that the rest of the crate builds on.
//!
//! Text is handled as `Vec<char>` inside the crate; `String` appears at the
//! public boundary. The view of both is `Seq<char>`.

use vstd::prelude::*;
use vstd::string::*;
use vstd::utf8::{encode_utf8, valid_utf8};

verus! {

/// Whether `c` is white space: one of the characters that Unicode gives
/// the property White_Space.
pub open spec fn is_whitespace(c: char) -> bool {
    let code = c as u32;
    ||| 0x0009 <= code <= 0x000D
    ||| code == 0x0020
    ||| code == 0x0085
    ||| code == 0x00A0
    ||| code == 0x1680
    ||| 0x2000 <= code <= 0x200A
    ||| code == 0x2028
    ||| code == 0x2029
    ||| code == 0x202F
    ||| code == 0x205F
    ||| code == 0x3000
}

/// The lowercase form of a text as `str::to_lowercase` computes it.
pub uninterp spec fn lowercase(s: Seq<char>) -> Seq<char>;

/// `pat` stands in `s` at index `i`.
pub open spec fn occurs_at(s: Seq<char>, pat: Seq<char>, i: int) -> bool {
    &&& 0 <= i
    &&& i + pat.len() <= s.len()
    &&& s.subrange(i, i + pat.len()) == pat
}

/// `i` is the first index at which `pat` stands in `s`.
pub open spec fn first_at(s: Seq<char>, pat: Seq<char>, i: int) -> bool {
    &&& occurs_at(s, pat, i)
    &&& forall|j: int| 0 <= j < i ==> !occurs_at(s, pat, j)
}

/// The first index at which `pat` stands in `s`, if it stands anywhere.
pub open spec fn find(s: Seq<char>, pat: Seq<char>) -> Option<int> {
    if exists|i: int| first_at(s, pat, i) {
        Some(choose|i: int| first_at(s, pat, i))
    } else {
        None
    }
}

/// What lies before and after the first occurrence of `pat` in `s`.
pub open spec fn split_once(s: Seq<char>, pat: Seq<char>) -> Option<(Seq<char>, Seq<char>)> {
    match find(s, pat) {
        Some(i) => Some((s.take(i), s.skip(i + pat.len()))),
        None => None,
    }
}

/// The pieces of `s` between occurrences of `c`; always at least one piece.
pub open spec fn split(s: Seq<char>, c: char) -> Seq<Seq<char>>
    decreases s.len(),
{
    match find(s, seq![c]) {
        Some(i) => if 0 <= i < s.len() {
            seq![s.take(i)] + split(s.skip(i + 1), c)
        } else {
            seq![s]
        },
        None => seq![s],
    }
}

/// `s` without its leading white space.
pub open spec fn trim_start(s: Seq<char>) -> Seq<char>
    decreases s.len(),
{
    if s.len() > 0 && is_whitespace(s[0]) {
        trim_start(s.drop_first())
    } else {
        s
    }
}

/// `s` without its trailing white space.
pub open spec fn trim_end(s: Seq<char>) -> Seq<char>
    decreases s.len(),
{
    if s.len() > 0 && is_whitespace(s.last()) {
        trim_end(s.drop_last())
    } else {
        s
    }
}

/// `s` without leading and trailing white space.
pub open spec fn trim(s: Seq<char>) -> Seq<char> {
    trim_end(trim_start(s))
}

/// The longest prefix of `s` that holds no white space.
pub open spec fn word_prefix(s: Seq<char>) -> Seq<char>
    decreases s.len(),
{
    if s.len() > 0 && !is_whitespace(s[0]) {
        seq![s[0]] + word_prefix(s.drop_first())
    } else {
        Seq::empty()
    }
}

/// The first run of characters of `s` that are not white space; empty if
/// there is none.
pub open spec fn first_word(s: Seq<char>) -> Seq<char> {
    word_prefix(trim_start(s))
}

/// The views of the items of a sequence, in order.
pub open spec fn views<T: View>(s: Seq<T>) -> Seq<T::V> {
    Seq::new(s.len(), |i: int| s[i]@)
}

/// The view of what an option holds, if it holds anything.
pub open spec fn opt_view<T: View>(o: Option<T>) -> Option<T::V> {
    match o {
        Some(t) => Some(t@),
        None => None,
    }
}

/// `s` begins with `prefix`.
pub open spec fn has_prefix(s: Seq<char>, prefix: Seq<char>) -> bool {
    prefix.len() <= s.len() && s.take(prefix.len() as int) == prefix
}

/// The views of a sequence with one more item.
pub proof fn lemma_views_push<T: View>(s: Seq<T>, x: T)
    ensures
        views(s.push(x)) == views(s).push(x@),
{
    assert(views(s.push(x)) =~= views(s).push(x@));
}

/// The views of two sequences, one after the other.
pub proof fn lemma_views_add<T: View>(a: Seq<T>, b: Seq<T>)
    ensures
        views(a + b) == views(a) + views(b),
{
    assert(views(a + b) =~= views(a) + views(b));
}

pub proof fn lemma_find_some(s: Seq<char>, pat: Seq<char>, i: int)
    requires
        first_at(s, pat, i),
    ensures
        find(s, pat) == Some(i),
{
    let k = choose|k: int| first_at(s, pat, k);
    if k < i {
        assert(!occurs_at(s, pat, k));
    } else if i < k {
        assert(!occurs_at(s, pat, i));
    }
}

pub proof fn lemma_find_none(s: Seq<char>, pat: Seq<char>)
    requires
        forall|j: int| !occurs_at(s, pat, j),
    ensures
        find(s, pat) is None,
{
}

/// A text in which `c` does not occur is its own single piece.
pub proof fn lemma_split_none(s: Seq<char>, c: char)
    requires
        !s.contains(c),
    ensures
        split(s, c) == seq![s],
{
    assert forall|j: int| !occurs_at(s, seq![c], j) by {
        if occurs_at(s, seq![c], j) {
            assert(s.subrange(j, j + 1)[0] == c);
            assert(s[j] == c);
        }
    }
    lemma_find_none(s, seq![c]);
}

/// Splitting `a`, then `c`, then `b`, where `c` does not occur in `a`, gives
/// `a` followed by the pieces of `b`.
pub proof fn lemma_split_first(a: Seq<char>, c: char, b: Seq<char>)
    requires
        !a.contains(c),
    ensures
        split(a + seq![c] + b, c) == seq![a] + split(b, c),
{
    let s = a + seq![c] + b;
    let i = a.len() as int;
    assert(s.subrange(i, i + 1) =~= seq![c]);
    assert forall|j: int| 0 <= j < i implies !occurs_at(s, seq![c], j) by {
        if occurs_at(s, seq![c], j) {
            assert(s.subrange(j, j + 1)[0] == c);
            assert(a[j] == c);
        }
    }
    lemma_find_some(s, seq![c], i);
    assert(s.take(i) =~= a);
    assert(s.skip(i + 1) =~= b);
}

/// Appends one character to a string.
///
/// Trusted: states of `String::push` that the new contents are the old ones
/// followed by `c`.
#[verifier::external_body]
pub(crate) fn push_char(s: &mut String, c: char)
    ensures
        final(s)@ == old(s)@.push(c),
{
    s.push(c)
}

/// Tells whether a character is white space.
pub fn is_space(c: char) -> (b: bool)
    ensures
        b == is_whitespace(c),
{
    let code = c as u32;
    (0x0009 <= code && code <= 0x000D) || code == 0x0020 || code == 0x0085 || code == 0x00A0
        || code == 0x1680 || (0x2000 <= code && code <= 0x200A) || code == 0x2028 || code
        == 0x2029 || code == 0x202F || code == 0x205F || code == 0x3000
}

/// Lowercases a text.
///
/// Trusted: names the result of `str::to_lowercase`, which depends on the
/// text alone.
#[verifier::external_body]
pub(crate) fn to_lower(s: &str) -> (r: String)
    ensures
        r@ == lowercase(s@),
{
    s.to_lowercase()
}

/// A copy of an optional string.
pub fn clone_opt(o: &Option<String>) -> (r: Option<String>)
    ensures
        opt_view(r) == opt_view(*o),
{
    match o {
        Some(s) => Some(s.clone()),
        None => None,
    }
}

/// Reads bytes as UTF-8.
///
/// Trusted: states of `core::str::from_utf8` that it gives the text of which
/// the bytes are the UTF-8 form, and fails exactly where the bytes are no
/// UTF-8.
#[verifier::external_body]
pub(crate) fn utf8_of(bytes: &[u8]) -> (r: Option<&str>)
    ensures
        match r {
            Some(s) => encode_utf8(s@) == bytes@,
            None => !valid_utf8(bytes@),
        },
{
    match core::str::from_utf8(bytes) {
        Ok(s) => Some(s),
        Err(_) => None,
    }
}

/// The characters of `s`, in order.
pub fn chars_of(s: &str) -> (v: Vec<char>)
    ensures
        v@ == s@,
{
    let mut v: Vec<char> = Vec::new();
    for c in it: s.chars()
        invariant
            v@ == it.seq().take(it.index()),
            it.seq() == s@,
    {
        v.push(c);
    }
    v
}

/// The string made of the characters of `v`, in order.
pub fn string_of(v: &Vec<char>) -> (s: String)
    ensures
        s@ == v@,
{
    let mut s = String::new();
    let mut i: usize = 0;
    while i < v.len()
        invariant
            i <= v.len(),
            s@ == v@.take(i as int),
        decreases v.len() - i,
    {
        push_char(&mut s, v[i]);
        i += 1;
    }
    s
}

/// A copy of the characters of `v` from index `from` up to `to`.
pub fn slice_of(v: &Vec<char>, from: usize, to: usize) -> (r: Vec<char>)
    requires
        from <= to <= v.len(),
    ensures
        r@ == v@.subrange(from as int, to as int),
{
    let mut r: Vec<char> = Vec::new();
    let mut i: usize = from;
    while i < to
        invariant
            from <= i <= to <= v.len(),
            r@ == v@.subrange(from as int, i as int),
        decreases to - i,
    {
        r.push(v[i]);
        i += 1;
    }
    r
}

/// Appends the characters of `src` to `dst`.
pub fn append_chars(dst: &mut Vec<char>, src: &Vec<char>)
    ensures
        final(dst)@ == old(dst)@ + src@,
{
    let mut i: usize = 0;
    while i < src.len()
        invariant
            i <= src.len(),
            dst@ == old(dst)@ + src@.take(i as int),
        decreases src.len() - i,
    {
        dst.push(src[i]);
        i += 1;
    }
}

/// Appends the characters of `src` to `dst`.
pub fn append_str(dst: &mut Vec<char>, src: &str)
    ensures
        final(dst)@ == old(dst)@ + src@,
{
    let chars = chars_of(src);
    append_chars(dst, &chars);
}

/// Whether two texts hold the same characters.
pub fn same_chars(a: &Vec<char>, b: &Vec<char>) -> (r: bool)
    ensures
        r == (a@ == b@),
{
    if a.len() != b.len() {
        return false;
    }
    let mut i: usize = 0;
    while i < a.len()
        invariant
            i <= a.len(),
            a.len() == b.len(),
            forall|j: int| 0 <= j < i ==> a@[j] == b@[j],
        decreases a.len() - i,
    {
        if a[i] != b[i] {
            return false;
        }
        i += 1;
    }
    assert(a@ =~= b@);
    true
}

/// Whether `a` holds exactly the characters of `b`.
pub fn is_text(a: &Vec<char>, b: &str) -> (r: bool)
    ensures
        r == (a@ == b@),
{
    let chars = chars_of(b);
    same_chars(a, &chars)
}

/// Whether two string slices hold the same characters.
pub fn same_text(a: &str, b: &str) -> (r: bool)
    ensures
        r == (a@ == b@),
{
    let left = chars_of(a);
    let right = chars_of(b);
    same_chars(&left, &right)
}

/// Whether `s` begins with `prefix`.
pub fn starts_with(s: &Vec<char>, prefix: &Vec<char>) -> (r: bool)
    ensures
        r == has_prefix(s@, prefix@),
{
    if prefix.len() > s.len() {
        return false;
    }
    let mut i: usize = 0;
    while i < prefix.len()
        invariant
            i <= prefix.len() <= s.len(),
            forall|j: int| 0 <= j < i ==> s@[j] == prefix@[j],
        decreases prefix.len() - i,
    {
        if s[i] != prefix[i] {
            assert(s@.take(prefix.len() as int)[i as int] != prefix@[i as int]);
            return false;
        }
        i += 1;
    }
    assert(s@.take(prefix.len() as int) =~= prefix@);
    true
}

/// The first index at which `pat` stands in `hay`.
pub fn find_in(hay: &Vec<char>, pat: &Vec<char>) -> (r: Option<usize>)
    ensures
        match r {
            Some(i) => find(hay@, pat@) == Some(i as int) && first_at(hay@, pat@, i as int),
            None => find(hay@, pat@) is None,
        },
{
    let n = hay.len();
    let m = pat.len();
    if m == 0 {
        proof {
            assert(hay@.subrange(0, 0) =~= pat@);
            lemma_find_some(hay@, pat@, 0);
        }
        return Some(0);
    }
    if m > n {
        proof {
            lemma_find_none(hay@, pat@);
        }
        return None;
    }
    let mut i: usize = 0;
    while i <= n - m
        invariant
            1 <= m <= n,
            n == hay.len(),
            m == pat.len(),
            i <= n - m + 1,
            forall|j: int| 0 <= j < i ==> !occurs_at(hay@, pat@, j),
        decreases n - m + 1 - i,
    {
        let mut k: usize = 0;
        while k < m && hay[i + k] == pat[k]
            invariant
                k <= m,
                i + m <= n,
                n == hay.len(),
                m == pat.len(),
                forall|t: int| 0 <= t < k ==> hay@[i + t] == pat@[t],
            decreases m - k,
        {
            k += 1;
        }
        if k == m {
            proof {
                assert(hay@.subrange(i as int, i + m) =~= pat@);
                lemma_find_some(hay@, pat@, i as int);
            }
            return Some(i);
        }
        proof {
            assert(hay@.subrange(i as int, i + m)[k as int] == hay@[i + k]);
        }
        i += 1;
    }
    proof {
        assert forall|j: int| !occurs_at(hay@, pat@, j) by {
            if 0 <= j && j + m <= n {
                assert(j < i);
            }
        }
        lemma_find_none(hay@, pat@);
    }
    None
}

/// What lies before and after the first occurrence of `pat` in `s`.
pub fn split_once_at(s: &Vec<char>, pat: &Vec<char>) -> (r: Option<(Vec<char>, Vec<char>)>)
    ensures
        match r {
            Some((a, b)) => split_once(s@, pat@) == Some((a@, b@)),
            None => split_once(s@, pat@) is None,
        },
{
    match find_in(s, pat) {
        Some(i) => {
            let n = s.len();
            let a = slice_of(s, 0, i);
            let b = slice_of(s, i + pat.len(), n);
            Some((a, b))
        },
        None => None,
    }
}

/// What lies before and after the first occurrence of `c` in `s`.
pub fn split_once_char(s: &Vec<char>, c: char) -> (r: Option<(Vec<char>, Vec<char>)>)
    ensures
        match r {
            Some((a, b)) => split_once(s@, seq![c]) == Some((a@, b@)),
            None => split_once(s@, seq![c]) is None,
        },
{
    let mut pat: Vec<char> = Vec::new();
    pat.push(c);
    assert(pat@ =~= seq![c]);
    split_once_at(s, &pat)
}

/// The pieces of `s` between occurrences of `c`.
pub fn split_chars(s: &Vec<char>, c: char) -> (pieces: Vec<Vec<char>>)
    ensures
        views(pieces@) == split(s@, c),
{
    let mut pieces: Vec<Vec<char>> = Vec::new();
    let mut start: usize = 0;
    let mut i: usize = 0;
    assert(views(pieces@) =~= Seq::<Seq<char>>::empty());
    assert(s@.skip(0) =~= s@);
    while i < s.len()
        invariant
            start <= i <= s.len(),
            split(s@, c) == views(pieces@) + split(s@.skip(start as int), c),
            forall|j: int| start <= j < i ==> s@[j] != c,
        decreases s.len() - i,
    {
        if s[i] == c {
            let piece = slice_of(s, start, i);
            proof {
                let rest = s@.skip(start as int);
                let after = s@.skip(i + 1);
                assert(rest =~= piece@ + seq![c] + after);
                assert(!piece@.contains(c)) by {
                    if piece@.contains(c) {
                        let k = choose|k: int| 0 <= k < piece@.len() && piece@[k] == c;
                        assert(s@[start + k] == c);
                    }
                }
                lemma_split_first(piece@, c, after);
                assert(views(pieces@.push(piece)) =~= views(pieces@) + seq![piece@]);
            }
            pieces.push(piece);
            start = i + 1;
        }
        i += 1;
    }
    let last = slice_of(s, start, s.len());
    proof {
        assert(s@.skip(start as int) =~= last@);
        assert(!last@.contains(c)) by {
            if last@.contains(c) {
                let k = choose|k: int| 0 <= k < last@.len() && last@[k] == c;
                assert(s@[start + k] == c);
            }
        }
        lemma_split_none(last@, c);
        assert(views(pieces@.push(last)) =~= views(pieces@) + seq![last@]);
    }
    pieces.push(last);
    pieces
}

/// `s` without leading and trailing white space.
pub fn trim_chars(s: &Vec<char>) -> (r: Vec<char>)
    ensures
        r@ == trim(s@),
{
    let mut from: usize = 0;
    assert(s@.skip(0) =~= s@);
    while from < s.len() && is_space(s[from])
        invariant
            from <= s.len(),
            trim_start(s@) == trim_start(s@.skip(from as int)),
        decreases s.len() - from,
    {
        assert(s@.skip(from as int).drop_first() =~= s@.skip(from + 1));
        from += 1;
    }
    let mut to: usize = s.len();
    assert(s@.subrange(from as int, to as int) =~= s@.skip(from as int));
    while to > from && is_space(s[to - 1])
        invariant
            from <= to <= s.len(),
            trim(s@) == trim_end(s@.subrange(from as int, to as int)),
        decreases to - from,
    {
        assert(s@.subrange(from as int, to as int).drop_last() =~= s@.subrange(
            from as int,
            to - 1,
        ));
        to -= 1;
    }
    slice_of(s, from, to)
}

/// The first run of characters of `s` that are not white space.
pub fn first_word_of(s: &Vec<char>) -> (r: Vec<char>)
    ensures
        r@ == first_word(s@),
{
    let mut from: usize = 0;
    assert(s@.skip(0) =~= s@);
    while from < s.len() && is_space(s[from])
        invariant
            from <= s.len(),
            trim_start(s@) == trim_start(s@.skip(from as int)),
        decreases s.len() - from,
    {
        assert(s@.skip(from as int).drop_first() =~= s@.skip(from + 1));
        from += 1;
    }
    let mut to: usize = from;
    assert(s@.subrange(from as int, to as int) =~= Seq::<char>::empty());
    while to < s.len() && !is_space(s[to])
        invariant
            from <= to <= s.len(),
            first_word(s@) == s@.subrange(from as int, to as int) + word_prefix(
                s@.skip(to as int),
            ),
        decreases s.len() - to,
    {
        assert(s@.skip(to as int).drop_first() =~= s@.skip(to + 1));
        assert(s@.subrange(from as int, to + 1) =~= s@.subrange(from as int, to as int)
            + seq![s@[to as int]]);
        to += 1;
    }
    slice_of(s, from, to)
}

} // verus!

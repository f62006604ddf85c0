//! Text operations of std that the library relies on, with what is known of
//! them, and the spec functions that describe strings and lists of strings.
use vstd::prelude::*;
use vstd::utf8::*;

verus! {

/// `c` is a printable ASCII character that `Debug` writes as itself.
pub open spec fn debug_plain_char(c: char) -> bool {
    ' ' <= c && c <= '~' && c != '"' && c != '\\'
}

/// The ASCII lower-case form of a character; other characters stay.
pub open spec fn ascii_lower(c: char) -> char {
    if 'A' <= c && c <= 'Z' {
        ((c as u32) + 32) as char
    } else {
        c
    }
}

pub open spec fn is_ascii_seq(s: Seq<char>) -> bool {
    forall|i: int| 0 <= i < s.len() ==> (s[i] as u32) < 128
}

/// What `format!("{:?}", s)` writes for a string slice.
pub uninterp spec fn str_debug(s: Seq<char>) -> Seq<char>;

/// What `str::to_lowercase` returns.
pub uninterp spec fn unicode_lowercase(s: Seq<char>) -> Seq<char>;

/// `sep` occurs in `s` at position `i`.
pub open spec fn occurs_at(s: Seq<char>, sep: Seq<char>, i: int) -> bool {
    0 <= i && i + sep.len() <= s.len() && s.subrange(i, i + sep.len()) == sep
}

/// The first position at or after `k` where `sep` occurs in `s`.
pub open spec fn first_from(s: Seq<char>, sep: Seq<char>, k: int) -> Option<int>
    decreases s.len() + 1 - k,
{
    if k < 0 || k + sep.len() > s.len() {
        None
    } else if occurs_at(s, sep, k) {
        Some(k)
    } else {
        first_from(s, sep, k + 1)
    }
}

/// The pieces that `str::split` with a string pattern yields: with a
/// non-empty separator, the text is cut at the leftmost occurrence and the
/// rest is split again, so the pieces lie between non-overlapping occurrences
/// taken from the left; with an empty separator, every character is a piece,
/// between an empty first and an empty last piece.
pub open spec fn split_pieces(s: Seq<char>, sep: Seq<char>) -> Seq<Seq<char>>
    decreases s.len(),
{
    if sep.len() == 0 {
        seq![Seq::<char>::empty()] + s.map_values(|c: char| seq![c]) + seq![Seq::<char>::empty()]
    } else {
        match first_from(s, sep, 0) {
            Some(i) => {
                proof {
                    lemma_first_from(s, sep, 0);
                }
                seq![s.take(i)] + split_pieces(s.skip(i + sep.len()), sep)
            },
            None => seq![s],
        }
    }
}

/// What `first_from` finds is an occurrence at or after `k`, with none
/// between `k` and it; where it finds none, there is none at or after `k`.
pub proof fn lemma_first_from(s: Seq<char>, sep: Seq<char>, k: int)
    requires
        0 <= k,
    ensures
        match first_from(s, sep, k) {
            Some(i) => k <= i && occurs_at(s, sep, i) && forall|j: int| k <= j < i ==> !occurs_at(s, sep, j),
            None => forall|j: int| k <= j ==> !occurs_at(s, sep, j),
        },
    decreases s.len() + 1 - k,
{
    if k + sep.len() > s.len() {
    } else if occurs_at(s, sep, k) {
    } else {
        lemma_first_from(s, sep, k + 1);
    }
}

/// Joining `a` before a non-empty list puts the separator between them.
pub proof fn lemma_join_prepend(a: Seq<char>, rest: Seq<Seq<char>>, sep: Seq<char>)
    requires
        rest.len() >= 1,
    ensures
        join(seq![a] + rest, sep) == a + sep + join(rest, sep),
    decreases rest.len(),
{
    let p = seq![a] + rest;
    assert(p.last() == rest.last());
    if rest.len() == 1 {
        assert(p.drop_last() =~= seq![a]);
        assert(join(seq![a], sep) == a);
        assert(join(rest, sep) == rest[0]);
        assert(join(p, sep) == join(seq![a], sep) + sep + p.last());
    } else {
        assert(p.drop_last() =~= seq![a] + rest.drop_last());
        lemma_join_prepend(a, rest.drop_last(), sep);
        assert(join(rest, sep) == join(rest.drop_last(), sep) + sep + rest.last());
        assert(join(p, sep) == join(p.drop_last(), sep) + sep + p.last());
        assert(join(p, sep) =~= a + sep + (join(rest.drop_last(), sep) + sep + rest.last()));
    }
}

/// Each piece occurs in the text that joining the pieces gives.
pub proof fn lemma_join_contains(items: Seq<Seq<char>>, sep: Seq<char>, i: int)
    requires
        0 <= i < items.len(),
    ensures
        contains_seq(join(items, sep), items[i]),
    decreases items.len(),
{
    let j = join(items, sep);
    let n = items[i].len() as int;
    if items.len() == 1 {
        let p: int = 0;
        assert(j == items[0]);
        assert(j.subrange(p, p + n) =~= items[i]);
    } else {
        let d = items.drop_last();
        let jd = join(d, sep);
        assert(j == jd + sep + items.last());
        if i == items.len() - 1 {
            let p = (jd.len() + sep.len()) as int;
            assert(j.subrange(p, p + n) =~= items[i]);
        } else {
            lemma_join_contains(d, sep, i);
            assert(d[i] == items[i]);
            let p = choose|p: int| 0 <= p && p + n <= jd.len() && #[trigger] jd.subrange(p, p + n) == items[i];
            assert(j.subrange(p, p + n) =~= jd.subrange(p, p + n));
        }
    }
}

/// Split always yields at least one piece.
pub proof fn lemma_split_nonempty(s: Seq<char>, sep: Seq<char>)
    ensures
        split_pieces(s, sep).len() >= 1,
    decreases s.len(),
{
    if sep.len() > 0 {
        lemma_first_from(s, sep, 0);
    }
}

/// Joining the pieces of a split with the separator gives back the text.
pub proof fn lemma_split_join(s: Seq<char>, sep: Seq<char>)
    ensures
        join(split_pieces(s, sep), sep) == s,
    decreases s.len(),
{
    if sep.len() == 0 {
        let singles = s.map_values(|c: char| seq![c]);
        let e = Seq::<char>::empty();
        assert(sep =~= e);
        assert forall|k: int| 0 <= k <= s.len() implies join(seq![e] + singles.take(k), sep) == s.take(k) by {
            lemma_join_empty_sep_prefix(s, k);
        }
        let q = seq![e] + singles.take(s.len() as int);
        assert(singles.take(s.len() as int) =~= singles);
        assert(split_pieces(s, sep) =~= q.push(e));
        assert(q.push(e).drop_last() =~= q);
        assert(s.take(s.len() as int) =~= s);
        assert(join(q.push(e), sep) =~= s);
    } else {
        lemma_first_from(s, sep, 0);
        match first_from(s, sep, 0) {
            Some(i) => {
                let rest_text = s.skip(i + sep.len());
                let rest = split_pieces(rest_text, sep);
                lemma_split_join(rest_text, sep);
                lemma_split_nonempty(rest_text, sep);
                lemma_join_prepend(s.take(i), rest, sep);
                assert(s =~= s.take(i) + s.subrange(i, i + sep.len()) + rest_text);
            },
            None => {},
        }
    }
}

proof fn lemma_join_empty_sep_prefix(s: Seq<char>, k: int)
    requires
        0 <= k <= s.len(),
    ensures
        join(seq![Seq::<char>::empty()] + s.map_values(|c: char| seq![c]).take(k), Seq::<char>::empty()) == s.take(k),
    decreases k,
{
    let singles = s.map_values(|c: char| seq![c]);
    let e = Seq::<char>::empty();
    let q = seq![e] + singles.take(k);
    if k == 0 {
        assert(q =~= seq![e]);
        assert(s.take(0) =~= e);
    } else {
        lemma_join_empty_sep_prefix(s, k - 1);
        assert(q.drop_last() =~= seq![e] + singles.take(k - 1));
        assert(q.last() == seq![s[k - 1]]);
        assert(s.take(k) =~= s.take(k - 1) + e + seq![s[k - 1]]);
    }
}

/// With a non-empty separator, no piece of a split holds the separator.
pub proof fn lemma_split_no_separator(s: Seq<char>, sep: Seq<char>)
    requires
        sep.len() > 0,
    ensures
        forall|i: int| 0 <= i < split_pieces(s, sep).len() ==> !contains_seq(#[trigger] split_pieces(s, sep)[i], sep),
    decreases s.len(),
{
    lemma_first_from(s, sep, 0);
    match first_from(s, sep, 0) {
        Some(i) => {
            let rest_text = s.skip(i + sep.len());
            lemma_split_no_separator(rest_text, sep);
            let head = s.take(i);
            if contains_seq(head, sep) {
                let j = choose|j: int| 0 <= j && j + sep.len() <= head.len() && #[trigger] head.subrange(j, j + sep.len()) == sep;
                assert(head.subrange(j, j + sep.len()) =~= s.subrange(j, j + sep.len()));
                assert(occurs_at(s, sep, j));
            }
            assert forall|x: int| 0 <= x < split_pieces(s, sep).len() implies !contains_seq(#[trigger] split_pieces(s, sep)[x], sep) by {
                if x > 0 {
                    assert(split_pieces(s, sep)[x] == split_pieces(rest_text, sep)[x - 1]);
                }
            }
        },
        None => {
            if contains_seq(s, sep) {
                let j = choose|j: int| 0 <= j && j + sep.len() <= s.len() && #[trigger] s.subrange(j, j + sep.len()) == sep;
                assert(occurs_at(s, sep, j));
            }
        },
    }
}

/// The pieces joined, with `sep` between each two of them.
pub open spec fn join(pieces: Seq<Seq<char>>, sep: Seq<char>) -> Seq<char>
    decreases pieces.len(),
{
    if pieces.len() == 0 {
        seq![]
    } else if pieces.len() == 1 {
        pieces[0]
    } else {
        join(pieces.drop_last(), sep) + sep + pieces.last()
    }
}

/// `needle` occurs in `s` as a contiguous run.
pub open spec fn contains_seq(s: Seq<char>, needle: Seq<char>) -> bool {
    exists|i: int| 0 <= i && i + needle.len() <= s.len() && #[trigger] s.subrange(i, i + needle.len()) == needle
}

/// Calls `format!("{:?}", s)` on a string slice. The contract names the
/// result, and states what std's documentation of `char::escape_debug` gives
/// for printable ASCII text without quotes or backslashes: it is written
/// between double quotes, unchanged.
#[verifier::external_body]
pub(crate) fn debug_quoted(s: &str) -> (r: String)
    ensures
        r@ == str_debug(s@),
        (forall|i: int| 0 <= i < s@.len() ==> debug_plain_char(#[trigger] s@[i])) ==> r@ == seq!['"'] + s@ + seq!['"'],
{
    format!("{:?}", s)
}

/// Calls `str::to_lowercase`. The contract names the result, and states
/// what its documentation gives for ASCII text: each upper-case letter is
/// replaced by its lower-case form.
#[verifier::external_body]
pub(crate) fn to_lowercase(s: &str) -> (r: String)
    ensures
        r@ == unicode_lowercase(s@),
        is_ascii_seq(s@) ==> r@ == s@.map_values(|c: char| ascii_lower(c)),
{
    s.to_lowercase()
}

/// Calls `str::split` with a string pattern and collects the pieces as
/// owned strings. The contract states what the documentation and std's
/// searcher give: the pieces of `split_pieces`, found by matching the pattern
/// from the left without overlaps, and every character boundary for an empty
/// pattern.
#[verifier::external_body]
pub(crate) fn split_str(s: &str, sep: &str) -> (r: Vec<String>)
    ensures
        r.deep_view() == split_pieces(s@, sep@),
{
    s.split(sep).map(|p| p.to_string()).collect()
}

/// Calls `String::from_utf8`. The contract states what its documentation
/// gives: it succeeds exactly on valid UTF-8, and then holds the decoded
/// characters.
#[verifier::external_body]
pub(crate) fn string_from_utf8(bytes: Vec<u8>) -> (r: Option<String>)
    ensures
        r is Some <==> valid_utf8(bytes@),
        r matches Some(s) ==> s@ == decode_utf8(bytes@),
{
    String::from_utf8(bytes).ok()
}

} // verus!

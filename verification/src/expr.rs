//! The functions that header constraints can call, over a model of the
//! expression language's values.
use vstd::prelude::*;
use crate::text::{
    ascii_lower, contains_seq, is_ascii_seq, join, lemma_split_join, lemma_split_no_separator,
    split_pieces, split_str, to_lowercase, unicode_lowercase,
};
use vstd::utf8::encode_utf8;

verus! {

/// A value of the expression language in which header constraints are
/// written.
#[derive(Debug, PartialEq)]
pub enum ExprValue {
    String(String),
    /// A floating-point value, held by its IEEE-754 bits.
    Float(u64),
    Int(i64),
    Boolean(bool),
    Tuple(Vec<ExprValue>),
    Empty,
}

/// Why a function of the expression language refused its argument.
#[derive(Debug, PartialEq)]
pub enum ExprError {
    /// A string was expected; the value describes what went wrong.
    ExpectedString(ExprValue),
    /// A tuple was expected, and this value was given.
    ExpectedTuple(ExprValue),
    /// A tuple of at least two elements was expected, and this value was
    /// given.
    ExpectedPair(ExprValue),
}

pub type ExprResult = Result<ExprValue, ExprError>;

/// The abstract value of a list of headers: each name with its value.
pub open spec fn headers_view(h: Seq<(String, String)>) -> Seq<(Seq<char>, Seq<char>)> {
    h.map_values(|p: (String, String)| (p.0@, p.1@))
}

/// `v` is the string `s`.
pub open spec fn is_string_with(v: ExprValue, s: Seq<char>) -> bool {
    v matches ExprValue::String(t) && t@ == s
}

/// `r` is the failure that carries the message `msg`.
pub open spec fn failed_with(r: ExprResult, msg: Seq<char>) -> bool {
    r matches Err(ExprError::ExpectedString(v)) && is_string_with(v, msg)
}

/// A tuple argument has the two elements that a two-argument function reads.
pub open spec fn has_two_elements(argument: ExprValue) -> bool {
    argument matches ExprValue::Tuple(t) ==> t@.len() >= 2
}

/// The number of bytes of the UTF-8 encoding of `s`.
pub open spec fn byte_len(s: Seq<char>) -> usize {
    encode_utf8(s).len() as usize
}

/// Whether the pattern, compiled with `regex::RegexBuilder`, matches the text;
/// `None` where the pattern does not compile.
pub uninterp spec fn regex_matches(pattern: Seq<char>, text: Seq<char>) -> Option<bool>;

/// Compiles the pattern with `regex::RegexBuilder::new(..).build()` and,
/// where that succeeds, calls `Regex::is_match` on the text. The contract
/// names the outcome.
#[verifier::external_body]
fn regex_is_match(pattern: &str, text: &str) -> (r: Option<bool>)
    ensures
        r == regex_matches(pattern@, text@),
{
    match regex::RegexBuilder::new(pattern).build() {
        Ok(re) => Some(re.is_match(text)),
        Err(_) => None,
    }
}

fn failure(msg: &str) -> (r: ExprResult)
    ensures
        failed_with(r, msg@),
{
    Err(ExprError::ExpectedString(ExprValue::String(String::from_str(msg))))
}

/// What `bool_regex` returns for the argument.
pub open spec fn bool_regex_result(argument: ExprValue, r: ExprResult) -> bool {
    match argument {
        ExprValue::Tuple(args) => match (args@[0], args@[1]) {
            (ExprValue::String(p), ExprValue::String(t)) => r == Ok::<ExprValue, ExprError>(
                ExprValue::Boolean(regex_matches(p@, t@) == Some(true)),
            ),
            _ => failed_with(r, "Bool Regex Failed"@),
        },
        _ => r == Err::<ExprValue, ExprError>(ExprError::ExpectedTuple(argument)),
    }
}

/// `bool_regex((pattern, text))`: whether the regular expression matches the
/// text; false where the pattern does not compile.
pub fn bool_regex(argument: ExprValue) -> (r: ExprResult)
    requires
        has_two_elements(argument),
    ensures
        bool_regex_result(argument, r),
{
    match argument {
        ExprValue::Tuple(args) => {
            match (&args[0], &args[1]) {
                (ExprValue::String(p), ExprValue::String(t)) => {
                    let matched = match regex_is_match(p.as_str(), t.as_str()) {
                        Some(b) => b,
                        None => false,
                    };
                    Ok(ExprValue::Boolean(matched))
                },
                _ => failure("Bool Regex Failed"),
            }
        },
        _ => Err(ExprError::ExpectedTuple(argument)),
    }
}

/// What `expr_match` returns for the argument.
pub open spec fn expr_match_result(argument: ExprValue, r: ExprResult) -> bool {
    match argument {
        ExprValue::Tuple(args) => match (args@[0], args@[1]) {
            (ExprValue::String(a), ExprValue::String(b)) => r == Ok::<ExprValue, ExprError>(
                ExprValue::Boolean(a@ == b@),
            ),
            _ => failed_with(r, "Match Failed"@),
        },
        _ => r == Err::<ExprValue, ExprError>(ExprError::ExpectedTuple(argument)),
    }
}

/// `match((a, b))`: whether the two strings are equal.
pub fn expr_match(argument: ExprValue) -> (r: ExprResult)
    requires
        has_two_elements(argument),
    ensures
        expr_match_result(argument, r),
{
    match argument {
        ExprValue::Tuple(args) => {
            match (&args[0], &args[1]) {
                (ExprValue::String(a), ExprValue::String(b)) => {
                    let equal = *a == *b;
                    Ok(ExprValue::Boolean(equal))
                },
                _ => failure("Match Failed"),
            }
        },
        _ => Err(ExprError::ExpectedTuple(argument)),
    }
}

/// What `length` returns for the argument.
pub open spec fn length_result(argument: ExprValue, r: ExprResult) -> bool {
    match argument {
        ExprValue::String(s) => r == Ok::<ExprValue, ExprError>(ExprValue::Int(byte_len(s@) as i64)),
        ExprValue::Tuple(t) => r == Ok::<ExprValue, ExprError>(ExprValue::Int(t@.len() as i64)),
        _ => failed_with(r, "Length Failed"@),
    }
}

/// `len(x)`: the number of bytes of a string, or of elements of a tuple.
pub fn length(argument: ExprValue) -> (r: ExprResult)
    ensures
        length_result(argument, r),
{
    match argument {
        ExprValue::String(s) => {
            let n = s.as_str().len();
            Ok(ExprValue::Int(n as i64))
        },
        ExprValue::Tuple(t) => {
            let n = t.len();
            Ok(ExprValue::Int(n as i64))
        },
        _ => failure("Length Failed"),
    }
}

/// What `index` returns for the argument.
pub open spec fn index_result(argument: ExprValue, r: ExprResult) -> bool {
    match argument {
        ExprValue::Tuple(args) => match (args@[0], args@[1]) {
            (ExprValue::Tuple(t), ExprValue::Int(k)) => if (k as usize) < t@.len() {
                r == Ok::<ExprValue, ExprError>(t@[(k as usize) as int])
            } else {
                r matches Ok(v) && is_string_with(v, seq![])
            },
            _ => failed_with(r, "Index Failed"@),
        },
        _ => failed_with(r, "Index Failed"@),
    }
}

/// `index((tuple, i))`: the element of the tuple at `i`, read as an index of
/// the platform's word size; the empty string where there is none.
pub fn index(argument: ExprValue) -> (r: ExprResult)
    requires
        has_two_elements(argument),
    ensures
        index_result(argument, r),
{
    match argument {
        ExprValue::Tuple(mut args) => {
            let second = args.swap_remove(1);
            let first = args.swap_remove(0);
            match (first, second) {
                (ExprValue::Tuple(mut t), ExprValue::Int(k)) => {
                    let i = k as usize;
                    if i < t.len() {
                        Ok(t.swap_remove(i))
                    } else {
                        Ok(ExprValue::String(String::new()))
                    }
                },
                _ => failure("Index Failed"),
            }
        },
        _ => failure("Index Failed"),
    }
}

/// What `lowercase` returns for the argument.
pub open spec fn lowercase_result(argument: ExprValue, r: ExprResult) -> bool {
    match argument {
        ExprValue::String(s) => r matches Ok(v) && is_string_with(v, unicode_lowercase(s@))
            && (is_ascii_seq(s@) ==> unicode_lowercase(s@) == s@.map_values(|c: char| ascii_lower(c))),
        _ => failed_with(r, "Lowercase Failed"@),
    }
}

/// `lowercase(s)`: the string in lower case.
pub fn lowercase(argument: ExprValue) -> (r: ExprResult)
    ensures
        lowercase_result(argument, r),
{
    match argument {
        ExprValue::String(s) => Ok(ExprValue::String(to_lowercase(s.as_str()))),
        _ => failure("Lowercase Failed"),
    }
}

/// The values are the strings `texts`, in order.
pub open spec fn strings_of(values: Seq<ExprValue>, texts: Seq<Seq<char>>) -> bool {
    values.len() == texts.len() && forall|i: int| 0 <= i < values.len() ==> is_string_with(#[trigger] values[i], texts[i])
}

/// The tuple of strings that `split` returns for the pieces of a text.
pub fn pieces_value(pieces: Vec<String>) -> (r: ExprValue)
    ensures
        r matches ExprValue::Tuple(values) && strings_of(values@, pieces.deep_view()),
{
    let mut values: Vec<ExprValue> = Vec::new();
    let mut i: usize = 0;
    while i < pieces.len()
        invariant
            0 <= i <= pieces@.len(),
            values@.len() == i,
            forall|j: int| 0 <= j < i ==> is_string_with(#[trigger] values@[j], pieces.deep_view()[j]),
        decreases pieces@.len() - i,
    {
        let p = pieces[i].clone();
        values.push(ExprValue::String(p));
        i = i + 1;
    }
    ExprValue::Tuple(values)
}

/// What `split` returns for the argument.
pub open spec fn split_result(argument: ExprValue, r: ExprResult) -> bool {
    match argument {
        ExprValue::Tuple(args) => match (args@[0], args@[1]) {
            (ExprValue::String(s), ExprValue::String(sep)) => r matches Ok(ExprValue::Tuple(pieces))
                && strings_of(pieces@, split_pieces(s@, sep@))
                && join(split_pieces(s@, sep@), sep@) == s@
                && (sep@.len() > 0 ==> forall|i: int| 0 <= i < split_pieces(s@, sep@).len()
                    ==> !contains_seq(#[trigger] split_pieces(s@, sep@)[i], sep@)),
            _ => failed_with(r, "Split Failed"@),
        },
        _ => r == Err::<ExprValue, ExprError>(ExprError::ExpectedTuple(argument)),
    }
}

/// `split((text, sep))`: the pieces of the text between the occurrences of
/// the separator, taken from the left without overlaps, as a tuple of strings.
/// Joined with the separator they give back the text, and a non-empty
/// separator occurs in none of them.
pub fn split(argument: ExprValue) -> (r: ExprResult)
    requires
        has_two_elements(argument),
    ensures
        split_result(argument, r),
{
    match argument {
        ExprValue::Tuple(args) => {
            match (&args[0], &args[1]) {
                (ExprValue::String(s), ExprValue::String(sep)) => {
                    let parts = split_str(s.as_str(), sep.as_str());
                    proof {
                        lemma_split_join(s@, sep@);
                        if sep@.len() > 0 {
                            lemma_split_no_separator(s@, sep@);
                        }
                    }
                    Ok(pieces_value(parts))
                },
                _ => failure("Split Failed"),
            }
        },
        _ => Err(ExprError::ExpectedTuple(argument)),
    }
}

/// The headers as a map from lower-cased name to value; where a name occurs
/// more than once, the last value stands.
pub open spec fn header_map(h: Seq<(Seq<char>, Seq<char>)>) -> Map<Seq<char>, Seq<char>>
    decreases h.len(),
{
    if h.len() == 0 {
        Map::empty()
    } else {
        header_map(h.drop_last()).insert(unicode_lowercase(h.last().0), h.last().1)
    }
}

/// No name occurs twice in the list.
pub open spec fn distinct_names(h: Seq<(Seq<char>, Seq<char>)>) -> bool {
    forall|i: int, j: int| 0 <= i < j < h.len() ==> #[trigger] h[i].0 != #[trigger] h[j].0
}

/// The list holds exactly the entries of the map, each once.
pub open spec fn lists_map(h: Seq<(Seq<char>, Seq<char>)>, m: Map<Seq<char>, Seq<char>>) -> bool {
    &&& distinct_names(h)
    &&& forall|i: int| 0 <= i < h.len() ==> m.dom().contains(#[trigger] h[i].0) && m[h[i].0] == h[i].1
    &&& forall|k: Seq<char>| #[trigger] m.dom().contains(k) ==> exists|i: int| 0 <= i < h.len() && #[trigger] h[i].0 == k
}

/// A lower-cased name is in the header map exactly when some header carries
/// it, and its value there is, character for character, the value of the
/// last header that carries it: only names are lower-cased.
pub proof fn law_header_map_last_value(h: Seq<(Seq<char>, Seq<char>)>, k: Seq<char>)
    ensures
        header_map(h).dom().contains(k) <==> exists|i: int| 0 <= i < h.len() && #[trigger] unicode_lowercase(h[i].0) == k,
        header_map(h).dom().contains(k) ==> exists|i: int|
            0 <= i < h.len() && #[trigger] unicode_lowercase(h[i].0) == k && header_map(h)[k] == h[i].1
                && forall|j: int| i < j < h.len() ==> #[trigger] unicode_lowercase(h[j].0) != k,
    decreases h.len(),
{
    if h.len() > 0 {
        let t = h.drop_last();
        let last = h.len() - 1;
        law_header_map_last_value(t, k);
        assert forall|i: int| 0 <= i < t.len() implies #[trigger] t[i] == h[i] by {}
        if unicode_lowercase(h[last].0) == k {
            assert(header_map(h)[k] == h[last].1);
        } else {
            assert(header_map(h).dom().contains(k) == header_map(t).dom().contains(k));
            if header_map(t).dom().contains(k) {
                let i = choose|i: int|
                    0 <= i < t.len() && #[trigger] unicode_lowercase(t[i].0) == k && header_map(t)[k] == t[i].1
                        && forall|j: int| i < j < t.len() ==> #[trigger] unicode_lowercase(t[j].0) != k;
                assert(unicode_lowercase(h[i].0) == k);
                assert forall|j: int| i < j < h.len() implies #[trigger] unicode_lowercase(h[j].0) != k by {
                    if j < last {
                        assert(unicode_lowercase(t[j].0) != k);
                    }
                }
            }
            if exists|i: int| 0 <= i < h.len() && #[trigger] unicode_lowercase(h[i].0) == k {
                let i = choose|i: int| 0 <= i < h.len() && #[trigger] unicode_lowercase(h[i].0) == k;
                assert(unicode_lowercase(t[i].0) == k);
            }
        }
    }
}

/// Adding a header anywhere before the last header that carries a name
/// leaves the value found under that name as it was: a name's value is read
/// wherever its header stands in the list.
pub proof fn law_header_map_insert_before(
    a: Seq<(Seq<char>, Seq<char>)>,
    p: (Seq<char>, Seq<char>),
    b: Seq<(Seq<char>, Seq<char>)>,
    k: Seq<char>,
)
    requires
        exists|i: int| 0 <= i < b.len() && #[trigger] unicode_lowercase(b[i].0) == k,
    ensures
        header_map(a + seq![p] + b).dom().contains(k),
        header_map(a + b).dom().contains(k),
        header_map(a + seq![p] + b)[k] == header_map(a + b)[k],
{
    let h1 = a + seq![p] + b;
    let h2 = a + b;
    law_header_map_last_value(b, k);
    let ib = choose|i: int|
        0 <= i < b.len() && #[trigger] unicode_lowercase(b[i].0) == k && header_map(b)[k] == b[i].1
            && forall|j: int| i < j < b.len() ==> #[trigger] unicode_lowercase(b[j].0) != k;
    let o1 = a.len() + 1;
    let o2 = a.len() as int;
    assert(h1[o1 + ib] == b[ib]);
    assert(h2[o2 + ib] == b[ib]);
    assert(unicode_lowercase(h1[o1 + ib].0) == k);
    assert(unicode_lowercase(h2[o2 + ib].0) == k);
    law_header_map_last_value(h1, k);
    law_header_map_last_value(h2, k);
    let i1 = choose|i: int|
        0 <= i < h1.len() && #[trigger] unicode_lowercase(h1[i].0) == k && header_map(h1)[k] == h1[i].1
            && forall|j: int| i < j < h1.len() ==> #[trigger] unicode_lowercase(h1[j].0) != k;
    let i2 = choose|i: int|
        0 <= i < h2.len() && #[trigger] unicode_lowercase(h2[i].0) == k && header_map(h2)[k] == h2[i].1
            && forall|j: int| i < j < h2.len() ==> #[trigger] unicode_lowercase(h2[j].0) != k;
    if i1 > o1 + ib {
        assert(h1[i1] == b[i1 - o1]);
        assert(unicode_lowercase(b[i1 - o1].0) != k);
    }
    if i2 > o2 + ib {
        assert(h2[i2] == b[i2 - o2]);
        assert(unicode_lowercase(b[i2 - o2].0) != k);
    }
    assert(i1 == o1 + ib);
    assert(i2 == o2 + ib);
}

/// Looks up a name in a list of distinct names.
fn find_name(list: &Vec<(String, String)>, name: &String) -> (r: Option<usize>)
    ensures
        match r {
            Some(j) => j < list@.len() && list@[j as int].0@ == name@,
            None => forall|i: int| 0 <= i < list@.len() ==> (#[trigger] list@[i]).0@ != name@,
        },
{
    let mut j: usize = 0;
    while j < list.len()
        invariant
            0 <= j <= list@.len(),
            forall|i: int| 0 <= i < j ==> (#[trigger] list@[i]).0@ != name@,
        decreases list@.len() - j,
    {
        if list[j].0 == *name {
            return Some(j);
        }
        j = j + 1;
    }
    None
}

/// Enters a header under its (already lower-cased) name into a list of
/// distinct names: the value replaces the one already there, in place, or is
/// added at the end.
pub fn insert_header(out: &mut Vec<(String, String)>, name: String, value: String)
    requires
        distinct_names(headers_view(old(out)@)),
    ensures
        (exists|j: int| 0 <= j < old(out)@.len() && (#[trigger] old(out)@[j]).0@ == name@) ==> exists|j: int|
            0 <= j < old(out)@.len() && (#[trigger] old(out)@[j]).0@ == name@
                && headers_view(final(out)@) == headers_view(old(out)@).update(j, (name@, value@)),
        (forall|j: int| 0 <= j < old(out)@.len() ==> (#[trigger] old(out)@[j]).0@ != name@)
            ==> headers_view(final(out)@) == headers_view(old(out)@).push((name@, value@)),
        forall|m: Map<Seq<char>, Seq<char>>| #[trigger] lists_map(headers_view(old(out)@), m)
            ==> lists_map(headers_view(final(out)@), m.insert(name@, value@)),
{
    let ghost before = headers_view(out@);
    let ghost key = name@;
    let ghost val = value@;
    match find_name(out, &name) {
        Some(j) => {
            out.set(j, (name, value));
            let ghost after = headers_view(out@);
            assert(after =~= before.update(j as int, (key, val)));
            assert(before[j as int].0 == key);
            assert(distinct_names(after)) by {
                assert forall|x: int, y: int| 0 <= x < y < after.len() implies #[trigger] after[x].0 != #[trigger] after[y].0 by {
                    assert(before[x].0 != before[y].0);
                }
            }
            assert forall|m: Map<Seq<char>, Seq<char>>| #[trigger] lists_map(before, m) implies lists_map(after, m.insert(key, val)) by {
                let m1 = m.insert(key, val);
                assert forall|x: int| 0 <= x < after.len() implies m1.dom().contains(#[trigger] after[x].0) && m1[after[x].0] == after[x].1 by {
                    if x != j {
                        assert(before[x].0 != before[j as int].0);
                    }
                }
                assert forall|k: Seq<char>| #[trigger] m1.dom().contains(k) implies exists|x: int|
                    0 <= x < after.len() && #[trigger] after[x].0 == k by {
                    if k != key {
                        let x = choose|x: int| 0 <= x < before.len() && #[trigger] before[x].0 == k;
                        assert(after[x].0 == k);
                    } else {
                        assert(after[j as int].0 == k);
                    }
                }
            }
        },
        None => {
            out.push((name, value));
            let ghost after = headers_view(out@);
            assert(after =~= before.push((key, val)));
            assert(forall|x: int| 0 <= x < before.len() ==> (#[trigger] before[x]).0 != key);
            assert(distinct_names(after)) by {
                assert forall|x: int, y: int| 0 <= x < y < after.len() implies #[trigger] after[x].0 != #[trigger] after[y].0 by {
                    if y < before.len() {
                        assert(before[x].0 != before[y].0);
                    } else {
                        assert(before[x].0 != key);
                    }
                }
            }
            assert forall|m: Map<Seq<char>, Seq<char>>| #[trigger] lists_map(before, m) implies lists_map(after, m.insert(key, val)) by {
                let m1 = m.insert(key, val);
                assert forall|x: int| 0 <= x < after.len() implies m1.dom().contains(#[trigger] after[x].0) && m1[after[x].0] == after[x].1 by {
                    if x < before.len() {
                        assert(before[x].0 != key);
                    }
                }
                assert forall|k: Seq<char>| #[trigger] m1.dom().contains(k) implies exists|x: int|
                    0 <= x < after.len() && #[trigger] after[x].0 == k by {
                    if k != key {
                        let x = choose|x: int| 0 <= x < before.len() && #[trigger] before[x].0 == k;
                        assert(after[x].0 == k);
                    } else {
                        assert(after[before.len() as int].0 == k);
                    }
                }
            }
        },
    }
}

/// The headers keyed by their lower-cased names, each name once, with the
/// value that came last for it.
pub fn get_hash_map(key_val: &Vec<(String, String)>) -> (r: Vec<(String, String)>)
    ensures
        lists_map(headers_view(r@), header_map(headers_view(key_val@))),
        forall|j: int| 0 <= j < r@.len() ==> exists|i: int|
            0 <= i < key_val@.len() && unicode_lowercase((#[trigger] key_val@[i]).0@) == (#[trigger] r@[j]).0@
                && r@[j].1@ == key_val@[i].1@
                && forall|x: int| i < x < key_val@.len() ==> unicode_lowercase((#[trigger] key_val@[x]).0@) != r@[j].0@,
{
    let ghost input = headers_view(key_val@);
    let mut out: Vec<(String, String)> = Vec::new();
    let mut i: usize = 0;
    proof {
        assert(input.take(0) =~= Seq::<(Seq<char>, Seq<char>)>::empty());
        assert(lists_map(headers_view(out@), header_map(input.take(0))));
    }
    while i < key_val.len()
        invariant
            0 <= i <= key_val@.len(),
            input == headers_view(key_val@),
            lists_map(headers_view(out@), header_map(input.take(i as int))),
        decreases key_val@.len() - i,
    {
        let key = to_lowercase(key_val[i].0.as_str());
        let value = key_val[i].1.clone();
        let ghost m0 = header_map(input.take(i as int));
        proof {
            assert(input.take(i + 1).drop_last() =~= input.take(i as int));
            assert(input.take(i + 1).last() == input[i as int]);
        }
        assert(header_map(input.take(i + 1)) == m0.insert(key@, value@));
        insert_header(&mut out, key, value);
        i = i + 1;
    }
    proof {
        assert(input.take(key_val@.len() as int) =~= input);
        let m = header_map(input);
        let ov = headers_view(out@);
        assert forall|j: int| 0 <= j < out@.len() implies exists|i: int|
            0 <= i < key_val@.len() && unicode_lowercase((#[trigger] key_val@[i]).0@) == (#[trigger] out@[j]).0@
                && out@[j].1@ == key_val@[i].1@
                && forall|x: int| i < x < key_val@.len() ==> unicode_lowercase((#[trigger] key_val@[x]).0@) != out@[j].0@ by {
            let k = ov[j].0;
            assert(m.dom().contains(k) && m[k] == ov[j].1);
            law_header_map_last_value(input, k);
            let i = choose|i: int|
                0 <= i < input.len() && #[trigger] unicode_lowercase(input[i].0) == k && m[k] == input[i].1
                    && forall|x: int| i < x < input.len() ==> #[trigger] unicode_lowercase(input[x].0) != k;
            assert(input[i].0 == key_val@[i].0@);
            assert forall|x: int| i < x < key_val@.len() implies unicode_lowercase((#[trigger] key_val@[x]).0@) != out@[j].0@ by {
                assert(unicode_lowercase(input[x].0) != k);
            }
        }
    }
    out
}

/// The value listed under `key`: that of its first entry, or the empty string
/// where there is none.
pub fn lookup_header(list: &Vec<(String, String)>, key: &String) -> (r: String)
    ensures
        (exists|i: int| 0 <= i < list@.len() && (#[trigger] list@[i]).0@ == key@) ==> exists|i: int|
            0 <= i < list@.len() && (#[trigger] list@[i]).0@ == key@ && r@ == list@[i].1@
                && forall|j: int| 0 <= j < i ==> (#[trigger] list@[j]).0@ != key@,
        (forall|i: int| 0 <= i < list@.len() ==> (#[trigger] list@[i]).0@ != key@) ==> r@ == Seq::<char>::empty(),
{
    let mut j: usize = 0;
    while j < list.len()
        invariant
            0 <= j <= list@.len(),
            forall|i: int| 0 <= i < j ==> (#[trigger] list@[i]).0@ != key@,
        decreases list@.len() - j,
    {
        if list[j].0 == *key {
            return list[j].1.clone();
        }
        j = j + 1;
    }
    String::new()
}

/// What `head` returns for the argument, given the headers.
pub open spec fn head_result(headers: Seq<(Seq<char>, Seq<char>)>, argument: ExprValue, r: ExprResult) -> bool {
    match argument {
        ExprValue::String(key) => r matches Ok(v) && is_string_with(
            v,
            if header_map(headers).dom().contains(key@) {
                header_map(headers)[key@]
            } else {
                seq![]
            },
        ),
        _ => failed_with(r, "Head Failed"@),
    }
}

/// `head(name)`: the value of the request header with that name, where the
/// headers' names are compared in lower case; the empty string where there is
/// none.
pub fn head(headers: &Vec<(String, String)>, argument: ExprValue) -> (r: ExprResult)
    ensures
        head_result(headers_view(headers@), argument, r),
        argument matches ExprValue::String(key) ==> r matches Ok(ExprValue::String(s)) && (
            (exists|i: int|
                0 <= i < headers@.len() && unicode_lowercase((#[trigger] headers@[i]).0@) == key@ && s@ == headers@[i].1@
                    && forall|x: int| i < x < headers@.len() ==> unicode_lowercase((#[trigger] headers@[x]).0@) != key@)
            || ((forall|i: int| 0 <= i < headers@.len() ==> unicode_lowercase((#[trigger] headers@[i]).0@) != key@)
                && s@ == Seq::<char>::empty())),
{
    match argument {
        ExprValue::String(key) => {
            let low_keys = get_hash_map(headers);
            let ghost m = header_map(headers_view(headers@));
            let ghost lv = headers_view(low_keys@);
            let value = lookup_header(&low_keys, &key);
            proof {
                let hv = headers_view(headers@);
                law_header_map_last_value(hv, key@);
                if m.dom().contains(key@) {
                    let i = choose|i: int|
                        0 <= i < hv.len() && #[trigger] unicode_lowercase(hv[i].0) == key@ && m[key@] == hv[i].1
                            && forall|j: int| i < j < hv.len() ==> #[trigger] unicode_lowercase(hv[j].0) != key@;
                    assert(hv[i].0 == headers@[i].0@);
                    assert forall|x: int| i < x < headers@.len() implies unicode_lowercase((#[trigger] headers@[x]).0@) != key@ by {
                        assert(hv[x].0 == headers@[x].0@);
                        assert(unicode_lowercase(hv[x].0) != key@);
                    }
                } else {
                    assert forall|i: int| 0 <= i < headers@.len() implies unicode_lowercase((#[trigger] headers@[i]).0@) != key@ by {
                        assert(hv[i].0 == headers@[i].0@);
                        if unicode_lowercase(hv[i].0) == key@ {
                            assert(exists|i: int| 0 <= i < hv.len() && #[trigger] unicode_lowercase(hv[i].0) == key@);
                        }
                    }
                }
            }
            proof {
                if m.dom().contains(key@) {
                    let x = choose|x: int| 0 <= x < lv.len() && #[trigger] lv[x].0 == key@;
                    assert(low_keys@[x].0@ == key@);
                    let i = choose|i: int| 0 <= i < low_keys@.len() && (#[trigger] low_keys@[i]).0@ == key@ && value@ == low_keys@[i].1@
                        && forall|j: int| 0 <= j < i ==> (#[trigger] low_keys@[j]).0@ != key@;
                    assert(lv[i].0 == key@);
                } else {
                    assert forall|i: int| 0 <= i < low_keys@.len() implies (#[trigger] low_keys@[i]).0@ != key@ by {
                        assert(lv[i].0 == low_keys@[i].0@);
                    }
                }
            }
            Ok(ExprValue::String(value))
        },
        _ => failure("Head Failed"),
    }
}

/// The functions that header constraints can call.
#[derive(PartialEq, Eq, Structural, Debug, Clone, Copy)]
pub enum ExprFunction {
    BoolRegex,
    Match,
    Length,
    Lowercase,
    Split,
    Index,
    Head,
}

/// The function reads the first two elements of a tuple argument.
pub open spec fn reads_two(f: ExprFunction) -> bool {
    f == ExprFunction::BoolRegex || f == ExprFunction::Match || f == ExprFunction::Split
        || f == ExprFunction::Index
}

/// What calling `f` on the argument returns: the function's result, or, for a
/// function that reads two elements, `ExpectedPair` where a tuple has fewer.
pub open spec fn function_result(
    f: ExprFunction,
    headers: Seq<(Seq<char>, Seq<char>)>,
    argument: ExprValue,
    r: ExprResult,
) -> bool {
    if reads_two(f) && !has_two_elements(argument) {
        r == Err::<ExprValue, ExprError>(ExprError::ExpectedPair(argument))
    } else {
        match f {
            ExprFunction::BoolRegex => bool_regex_result(argument, r),
            ExprFunction::Match => expr_match_result(argument, r),
            ExprFunction::Length => length_result(argument, r),
            ExprFunction::Lowercase => lowercase_result(argument, r),
            ExprFunction::Split => split_result(argument, r),
            ExprFunction::Index => index_result(argument, r),
            ExprFunction::Head => head_result(headers, argument, r),
        }
    }
}

/// Calls a function of the expression language on an argument, with the
/// request's headers for `head`. A tuple argument too short for a function
/// that reads two elements is refused with `ExpectedPair`.
pub fn apply_function(f: ExprFunction, headers: &Vec<(String, String)>, argument: ExprValue) -> (r: ExprResult)
    ensures
        function_result(f, headers_view(headers@), argument, r),
{
    let short = match &argument {
        ExprValue::Tuple(t) => t.len() < 2,
        _ => false,
    };
    match f {
        ExprFunction::BoolRegex => if short {
            Err(ExprError::ExpectedPair(argument))
        } else {
            bool_regex(argument)
        },
        ExprFunction::Match => if short {
            Err(ExprError::ExpectedPair(argument))
        } else {
            expr_match(argument)
        },
        ExprFunction::Length => length(argument),
        ExprFunction::Lowercase => lowercase(argument),
        ExprFunction::Split => if short {
            Err(ExprError::ExpectedPair(argument))
        } else {
            split(argument)
        },
        ExprFunction::Index => if short {
            Err(ExprError::ExpectedPair(argument))
        } else {
            index(argument)
        },
        ExprFunction::Head => head(headers, argument),
    }
}

/// A copy of a list of headers.
pub fn copy_headers(h: &Vec<(String, String)>) -> (r: Vec<(String, String)>)
    ensures
        headers_view(r@) == headers_view(h@),
{
    let mut r: Vec<(String, String)> = Vec::new();
    let mut i: usize = 0;
    while i < h.len()
        invariant
            0 <= i <= h@.len(),
            r@.len() == i,
            headers_view(r@) == headers_view(h@).take(i as int),
        decreases h@.len() - i,
    {
        let name = h[i].0.clone();
        let value = h[i].1.clone();
        let ghost before = r@;
        r.push((name, value));
        proof {
            assert(r@ == before.push((name, value)));
            assert(headers_view(r@)[i as int] == headers_view(h@)[i as int]);
            assert forall|j: int| 0 <= j < i implies headers_view(r@)[j] == headers_view(h@).take(i as int)[j] by {
                assert(r@[j] == before[j]);
            }
            assert(headers_view(r@) =~= headers_view(h@).take(i + 1));
        }
        i = i + 1;
    }
    proof {
        assert(headers_view(h@).take(h@.len() as int) =~= headers_view(h@));
    }
    r
}

} // verus!

use wasm_works::expr::{bool_regex, expr_match, get_hash_map, head, index, length, lowercase, split, ExprError, ExprValue};

fn s(x: &str) -> ExprValue {
    ExprValue::String(x.to_string())
}

fn pair(a: ExprValue, b: ExprValue) -> ExprValue {
    ExprValue::Tuple(vec![a, b])
}

fn failed(msg: &str) -> Result<ExprValue, ExprError> {
    Err(ExprError::ExpectedString(s(msg)))
}

#[test]
fn bool_regex_matches() {
    assert_eq!(bool_regex(pair(s("^a.c$"), s("abc"))), Ok(ExprValue::Boolean(true)));
    assert_eq!(bool_regex(pair(s("^a.c$"), s("abd"))), Ok(ExprValue::Boolean(false)));
}

#[test]
fn bool_regex_bad_pattern_is_false() {
    assert_eq!(bool_regex(pair(s("("), s("abc"))), Ok(ExprValue::Boolean(false)));
}

#[test]
fn bool_regex_errors() {
    assert_eq!(bool_regex(pair(ExprValue::Int(1), s("abc"))), failed("Bool Regex Failed"));
    assert_eq!(bool_regex(s("x")), Err(ExprError::ExpectedTuple(s("x"))));
}

#[test]
fn match_compares_strings() {
    assert_eq!(expr_match(pair(s("a"), s("a"))), Ok(ExprValue::Boolean(true)));
    assert_eq!(expr_match(pair(s("a"), s("b"))), Ok(ExprValue::Boolean(false)));
    assert_eq!(expr_match(pair(s("a"), ExprValue::Empty)), failed("Match Failed"));
    assert_eq!(expr_match(ExprValue::Int(2)), Err(ExprError::ExpectedTuple(ExprValue::Int(2))));
}

#[test]
fn length_counts_bytes_and_elements() {
    assert_eq!(length(s("abc")), Ok(ExprValue::Int(3)));
    assert_eq!(length(s("é")), Ok(ExprValue::Int(2)));
    assert_eq!(length(pair(s("a"), s("b"))), Ok(ExprValue::Int(2)));
    assert_eq!(length(ExprValue::Boolean(true)), failed("Length Failed"));
}

#[test]
fn index_reads_element() {
    let t = ExprValue::Tuple(vec![s("x"), ExprValue::Int(5)]);
    assert_eq!(index(pair(t, ExprValue::Int(1))), Ok(ExprValue::Int(5)));
}

#[test]
fn index_out_of_range_is_empty_string() {
    let t = ExprValue::Tuple(vec![s("x")]);
    assert_eq!(index(pair(t, ExprValue::Int(3))), Ok(s("")));
    let t = ExprValue::Tuple(vec![s("x")]);
    assert_eq!(index(pair(t, ExprValue::Int(-1))), Ok(s("")));
}

#[test]
fn index_errors() {
    assert_eq!(index(pair(s("x"), ExprValue::Int(0))), failed("Index Failed"));
    assert_eq!(index(s("x")), failed("Index Failed"));
}

#[test]
fn lowercase_strings() {
    assert_eq!(lowercase(s("Content-TYPE")), Ok(s("content-type")));
    assert_eq!(lowercase(ExprValue::Int(1)), failed("Lowercase Failed"));
}

#[test]
fn split_strings() {
    assert_eq!(
        split(pair(s("application/json; charset=utf-8"), s(";"))),
        Ok(ExprValue::Tuple(vec![s("application/json"), s(" charset=utf-8")]))
    );
    assert_eq!(split(pair(s("abc"), s(";"))), Ok(ExprValue::Tuple(vec![s("abc")])));
    assert_eq!(split(pair(s("a"), ExprValue::Int(1))), failed("Split Failed"));
    assert_eq!(split(ExprValue::Empty), Err(ExprError::ExpectedTuple(ExprValue::Empty)));
}

fn headers() -> Vec<(String, String)> {
    vec![
        ("Content-Type".to_string(), "text/html".to_string()),
        ("Accept".to_string(), "*/*".to_string()),
        ("content-type".to_string(), "application/json".to_string()),
    ]
}

#[test]
fn hash_map_lowercases_and_keeps_last() {
    let mut m = get_hash_map(&headers());
    m.sort();
    assert_eq!(
        m,
        vec![
            ("accept".to_string(), "*/*".to_string()),
            ("content-type".to_string(), "application/json".to_string()),
        ]
    );
}

#[test]
fn head_looks_up_lowercased_names() {
    assert_eq!(head(&headers(), s("content-type")), Ok(s("application/json")));
    assert_eq!(head(&headers(), s("Content-Type")), Ok(s("")));
    assert_eq!(head(&headers(), s("missing")), Ok(s("")));
    assert_eq!(head(&headers(), ExprValue::Int(1)), failed("Head Failed"));
}

#[test]
fn control_expression_pieces() {
    // The steps of the control plane's allow expression, applied by hand.
    let h = headers();
    let ct = head(&h, lowercase(s("content-type")).unwrap()).unwrap();
    let parts = split(pair(ct, s(";"))).unwrap();
    let first = index(pair(parts, ExprValue::Int(0))).unwrap();
    assert_eq!(expr_match(pair(first, s("application/json"))), Ok(ExprValue::Boolean(true)));
}

use wasm_works::expr::{apply_function, insert_header, lookup_header, pieces_value, ExprFunction};

#[test]
fn split_with_empty_separator() {
    assert_eq!(
        split(pair(s("ab"), s(""))),
        Ok(ExprValue::Tuple(vec![s(""), s("a"), s("b"), s("")]))
    );
    assert_eq!(split(pair(s(""), s(""))), Ok(ExprValue::Tuple(vec![s(""), s("")])));
}

#[test]
fn split_takes_occurrences_from_the_left() {
    assert_eq!(split(pair(s("aaa"), s("aa"))), Ok(ExprValue::Tuple(vec![s(""), s("a")])));
    assert_eq!(split(pair(s(";a;;"), s(";"))), Ok(ExprValue::Tuple(vec![s(""), s("a"), s(""), s("")])));
}

#[test]
fn pieces_become_a_tuple_of_strings() {
    assert_eq!(pieces_value(vec!["x".to_string(), "".to_string()]), ExprValue::Tuple(vec![s("x"), s("")]));
    assert_eq!(pieces_value(vec![]), ExprValue::Tuple(vec![]));
}

#[test]
fn apply_function_dispatches_and_refuses_short_tuples() {
    let h = headers();
    assert_eq!(apply_function(ExprFunction::Length, &h, s("ab")), Ok(ExprValue::Int(2)));
    assert_eq!(apply_function(ExprFunction::Head, &h, s("accept")), Ok(s("*/*")));
    assert_eq!(apply_function(ExprFunction::Lowercase, &h, s("AB")), Ok(s("ab")));
    assert_eq!(apply_function(ExprFunction::Match, &h, pair(s("a"), s("a"))), Ok(ExprValue::Boolean(true)));
    let one = ExprValue::Tuple(vec![s("a")]);
    for f in [ExprFunction::BoolRegex, ExprFunction::Match, ExprFunction::Split, ExprFunction::Index] {
        assert_eq!(apply_function(f, &h, ExprValue::Tuple(vec![s("a")])), Err(ExprError::ExpectedPair(one_copy(&one))));
    }
    assert_eq!(apply_function(ExprFunction::Length, &h, ExprValue::Tuple(vec![])), Ok(ExprValue::Int(0)));
}

fn one_copy(v: &ExprValue) -> ExprValue {
    match v {
        ExprValue::Tuple(t) => match &t[0] {
            ExprValue::String(x) => ExprValue::Tuple(vec![s(x)]),
            _ => unreachable!(),
        },
        _ => unreachable!(),
    }
}

#[test]
fn insert_and_look_up_headers() {
    let mut list: Vec<(String, String)> = Vec::new();
    insert_header(&mut list, "a".to_string(), "1".to_string());
    insert_header(&mut list, "b".to_string(), "2".to_string());
    insert_header(&mut list, "a".to_string(), "3".to_string());
    assert_eq!(list, vec![("a".to_string(), "3".to_string()), ("b".to_string(), "2".to_string())]);
    assert_eq!(lookup_header(&list, &"b".to_string()), "2");
    assert_eq!(lookup_header(&list, &"c".to_string()), "");
}

use wasm_works::evaluation::{append_context_vec, bool_check, get_expression_context};

#[test]
fn expression_context_table() {
    let mut c = get_expression_context();
    let names: Vec<&str> = c.functions.iter().map(|(n, _)| n.as_str()).collect();
    assert_eq!(names, vec!["bool_regex", "match", "len", "lowercase", "split", "index"]);
    assert_eq!(c.functions[2].1, ExprFunction::Length);
    assert!(c.headers.is_empty());
    let h = headers();
    let c2 = append_context_vec(&mut c, h.clone());
    assert_eq!(c2.functions.len(), 7);
    assert_eq!(c2.functions[6], ("head".to_string(), ExprFunction::Head));
    assert_eq!(c2.headers, h);
}

#[test]
fn bool_check_evaluates_in_the_context() {
    let mut c = get_expression_context();
    assert!(bool_check("head(\"accept\") == \"*/*\"", &c).is_err());
    assert_eq!(bool_check("match(\"a\", \"a\")", &c).unwrap(), true);
    let c2 = append_context_vec(&mut c, headers());
    assert_eq!(bool_check("head(\"accept\") == \"*/*\"", c2).unwrap(), true);
    assert!(bool_check("1 +", c2).is_err());
    assert!(bool_check("1 + 2", c2).is_err());
}

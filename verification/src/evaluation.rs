//! Evaluation of a header constraint's expression with `evalexpr`, whose
//! functions are the library's own.
use vstd::prelude::*;
use crate::expr::{apply_function, copy_headers, headers_view, ExprError, ExprFunction, ExprResult, ExprValue};

verus! {

/// Declares `evalexpr::Value` so that it can stand in signatures.
#[verifier::external_type_specification]
#[verifier::external_body]
pub struct ExValue(evalexpr::Value);

/// Declares `evalexpr::EvalexprError` so that it can stand in signatures.
#[verifier::external_type_specification]
#[verifier::external_body]
pub struct ExEvalexprError(evalexpr::EvalexprError);

/// Declares `evalexpr::HashMapContext` so that it can stand in signatures.
#[verifier::external_type_specification]
#[verifier::external_body]
pub struct ExHashMapContext(evalexpr::HashMapContext);

/// The functions that an expression may call, each under its name, with the
/// request headers that `head` reads: what is registered with `evalexpr`.
pub struct ExpressionContext {
    pub functions: Vec<(String, ExprFunction)>,
    pub headers: Vec<(String, String)>,
}

/// The abstract value of an expression context: its named functions, in the
/// order they are registered, and its headers.
pub type ContextView = (Seq<(Seq<char>, ExprFunction)>, Seq<(Seq<char>, Seq<char>)>);

pub open spec fn functions_view(f: Seq<(String, ExprFunction)>) -> Seq<(Seq<char>, ExprFunction)> {
    f.map_values(|p: (String, ExprFunction)| (p.0@, p.1))
}

impl View for ExpressionContext {
    type V = ContextView;

    open spec fn view(&self) -> ContextView {
        (functions_view(self.functions@), headers_view(self.headers@))
    }
}

/// The functions of the expression language other than `head`, each under the
/// name that expressions call it by.
pub open spec fn expression_functions() -> Seq<(Seq<char>, ExprFunction)> {
    seq![
        ("bool_regex"@, ExprFunction::BoolRegex),
        ("match"@, ExprFunction::Match),
        ("len"@, ExprFunction::Length),
        ("lowercase"@, ExprFunction::Lowercase),
        ("split"@, ExprFunction::Split),
        ("index"@, ExprFunction::Index),
    ]
}

/// Whether `evalexpr::eval_boolean_with_context` evaluates the expression to
/// `true` or `false` in a `HashMapContext` where each of the context's
/// functions is registered, in order, under its name (`head` reading the
/// context's headers); `None` where evaluation fails.
pub uninterp spec fn evalexpr_evaluation(expression: Seq<char>, context: ContextView) -> Option<bool>;

/// Converts an `evalexpr::Value` into the library's model of it, variant by
/// variant, a float by its bits. Nothing is stated of the result.
#[verifier::external_body]
fn to_model(v: &evalexpr::Value) -> ExprValue {
    match v {
        evalexpr::Value::String(s) => ExprValue::String(s.clone()),
        evalexpr::Value::Float(x) => ExprValue::Float(x.to_bits()),
        evalexpr::Value::Int(i) => ExprValue::Int(*i),
        evalexpr::Value::Boolean(b) => ExprValue::Boolean(*b),
        evalexpr::Value::Tuple(t) => ExprValue::Tuple(t.iter().map(to_model).collect()),
        evalexpr::Value::Empty => ExprValue::Empty,
    }
}

/// Converts the library's model of a value back into an `evalexpr::Value`.
/// Nothing is stated of the result.
#[verifier::external_body]
fn from_model(v: ExprValue) -> evalexpr::Value {
    match v {
        ExprValue::String(s) => evalexpr::Value::String(s),
        ExprValue::Float(bits) => evalexpr::Value::Float(evalexpr::FloatType::from_bits(bits)),
        ExprValue::Int(i) => evalexpr::Value::Int(i),
        ExprValue::Boolean(b) => evalexpr::Value::Boolean(b),
        ExprValue::Tuple(t) => evalexpr::Value::Tuple(t.into_iter().map(from_model).collect()),
        ExprValue::Empty => evalexpr::Value::Empty,
    }
}

/// Converts a result of the library's functions into what `evalexpr`
/// expects of a function, each error into the `EvalexprError` of the same
/// kind. Nothing is stated of the result.
#[verifier::external_body]
fn to_host(r: ExprResult) -> Result<evalexpr::Value, evalexpr::EvalexprError> {
    match r {
        Ok(v) => Ok(from_model(v)),
        Err(ExprError::ExpectedString(v)) => Err(evalexpr::EvalexprError::expected_string(from_model(v))),
        Err(ExprError::ExpectedTuple(v)) => Err(evalexpr::EvalexprError::expected_tuple(from_model(v))),
        Err(ExprError::ExpectedPair(v)) => Err(evalexpr::EvalexprError::expected_fixed_len_tuple(2, from_model(v))),
    }
}

/// Calls `ContextWithMutableFunctions::set_function` on the context with an
/// `evalexpr::Function` whose closure calls the verified `apply_function`.
/// Nothing is stated of the context.
#[verifier::external_body]
fn register_function(
    context: &mut evalexpr::HashMapContext,
    name: &str,
    function: ExprFunction,
    headers: &Vec<(String, String)>,
) {
    let headers = headers.clone();
    let f = evalexpr::Function::new(move |a| to_host(apply_function(function, &headers, to_model(a))));
    let _ = evalexpr::ContextWithMutableFunctions::set_function(context, name.to_string(), f);
}

/// The context of the expression language's functions, without headers.
pub fn get_expression_context() -> (r: ExpressionContext)
    ensures
        r@ == (expression_functions(), Seq::<(Seq<char>, Seq<char>)>::empty()),
{
    let mut functions: Vec<(String, ExprFunction)> = Vec::new();
    functions.push((String::from_str("bool_regex"), ExprFunction::BoolRegex));
    functions.push((String::from_str("match"), ExprFunction::Match));
    functions.push((String::from_str("len"), ExprFunction::Length));
    functions.push((String::from_str("lowercase"), ExprFunction::Lowercase));
    functions.push((String::from_str("split"), ExprFunction::Split));
    functions.push((String::from_str("index"), ExprFunction::Index));
    let r = ExpressionContext { functions, headers: Vec::new() };
    assert(r@.0 =~= expression_functions());
    assert(r@.1 =~= Seq::<(Seq<char>, Seq<char>)>::empty());
    r
}

/// Adds `head`, reading the given headers, to the context.
pub fn append_context_vec(header_context: &mut ExpressionContext, vec: Vec<(String, String)>) -> (r: &mut ExpressionContext)
    ensures
        r@ == (old(header_context)@.0.push(("head"@, ExprFunction::Head)), headers_view(vec@)),
        *final(header_context) == *final(r),
{
    let ghost before = header_context@.0;
    header_context.functions.push((String::from_str("head"), ExprFunction::Head));
    header_context.headers = vec;
    assert(header_context@.0 =~= before.push(("head"@, ExprFunction::Head)));
    header_context
}

/// Calls `evalexpr::eval_boolean_with_context` on the expression in a fresh
/// `HashMapContext` where each of the context's functions is registered, in
/// order, under its name. The contract names the outcome, which depends on
/// the expression and the context alone.
#[verifier::external_body]
pub fn bool_check(exp: &str, context: &ExpressionContext) -> (r: Result<bool, evalexpr::EvalexprError>)
    ensures
        r is Ok <==> evalexpr_evaluation(exp@, context@) is Some,
        r is Ok ==> evalexpr_evaluation(exp@, context@) == Some(r->Ok_0),
{
    let mut map = evalexpr::HashMapContext::new();
    for (name, function) in context.functions.iter() {
        register_function(&mut map, name.as_str(), *function, &context.headers);
    }
    evalexpr::eval_boolean_with_context(exp, &map)
}

/// The outcome of evaluating an expression on request headers, the way a
/// filter does it: in the context of the expression language's functions
/// and `head` reading those headers; `None` where evaluation fails.
pub fn evaluate_header_expression(expression: &str, headers: &Vec<(String, String)>) -> (r: Option<bool>)
    ensures
        r == evalexpr_evaluation(
            expression@,
            (expression_functions().push(("head"@, ExprFunction::Head)), headers_view(headers@)),
        ),
{
    let mut context = get_expression_context();
    let header_context = append_context_vec(&mut context, copy_headers(headers));
    match bool_check(expression, header_context) {
        Ok(b) => Some(b),
        Err(_) => None,
    }
}

} // verus!

use vstd::prelude::*;
use crate::evaluator::{EvalError, IRustapoEvaluator, IRustapoWrappedInstance};
use crate::lua_evaluator::LuaEvaluator;

verus! {

/// The successful payload of one evaluation request.
pub struct ResultReturn<T> {
    result: T,
}

impl<T> ResultReturn<T> {
    /// The value the request produced.
    pub closed spec fn spec_result(&self) -> T {
        self.result
    }

    pub fn new(result: T) -> (r: Self)
        ensures
            r.spec_result() == result,
    {
        ResultReturn { result }
    }

    pub fn into_result(self) -> (r: T)
        ensures
            r == self.spec_result(),
    {
        self.result
    }
}

/// The failing payload of one evaluation request: the error's text.
pub struct ErrorReturn {
    error: String,
}

impl ErrorReturn {
    /// The diagnostic text carried to the caller.
    pub closed spec fn spec_error(&self) -> Seq<char> {
        self.error@
    }

    pub fn new(error: String) -> (r: Self)
        ensures
            r.spec_error() == error@,
    {
        ErrorReturn { error }
    }

    pub fn error_text(&self) -> (r: &String)
        ensures
            r@ == self.spec_error(),
    {
        &self.error
    }
}

/// Runs one whole evaluation request against a shared evaluator: a fresh
/// instance is captured, every string declaration and then every numeric
/// declaration is installed — the first rejected declaration aborts the
/// request — the expression is evaluated once, and the instance's globals
/// are released again before the call returns, whichever way it went.
/// Numeric values travel as the IEEE-754 bit patterns of the 64-bit floats
/// they stand for.
pub fn evaluate_request(
    evaluator: &LuaEvaluator,
    strings: &Vec<(String, String)>,
    numbers: &Vec<(String, u64)>,
    expression: &String,
) -> (r: Result<bool, EvalError>)
    ensures
        strings@.len() == 0 && numbers@.len() == 0 && expression@ == "true"@ ==> r == Ok::<
            bool,
            EvalError,
        >(true),
        strings@.len() == 0 && numbers@.len() == 0 && expression@ == "false"@ ==> r == Ok::<
            bool,
            EvalError,
        >(false),
{
    let mut instance = evaluator.capture();
    let mut i: usize = 0;
    while i < strings.len()
        decreases strings@.len() - i,
    {
        if let Err(e) = instance.declare_string(&strings[i].0, strings[i].1.clone()) {
            instance.release();
            return Err(e);
        }
        i = i + 1;
    }
    let mut j: usize = 0;
    while j < numbers.len()
        decreases numbers@.len() - j,
    {
        if let Err(e) = instance.declare_f64(&numbers[j].0, numbers[j].1) {
            instance.release();
            return Err(e);
        }
        j = j + 1;
    }
    let outcome = instance.evaluate_boolean(expression);
    instance.release();
    outcome.get_result()
}

} // verus!

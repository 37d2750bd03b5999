use vstd::prelude::*;

verus! {

/// An error raised while declaring a variable or evaluating an expression,
/// carrying the interpreter's diagnostic text.
#[derive(Debug)]
pub struct EvalError {
    message: String,
}

impl EvalError {
    /// The diagnostic text, as a mathematical sequence of characters.
    pub closed spec fn spec_message(&self) -> Seq<char> {
        self.message@
    }

    pub fn new(message: String) -> (r: EvalError)
        ensures
            r.spec_message() == message@,
    {
        EvalError { message }
    }

    pub fn message(&self) -> (r: &String)
        ensures
            r@ == self.spec_message(),
    {
        &self.message
    }
}

/// The outcome of one boolean evaluation: either it completed with a boolean
/// value, or it is faulty and carries the error that stopped it.
/// It never holds both at once: the error, when present, is authoritative.
pub struct BooleanEvaluationResult {
    error: Option<EvalError>,
    result: bool,
}

impl BooleanEvaluationResult {
    /// Whether this outcome records a failure.
    pub closed spec fn spec_is_faulty(&self) -> bool {
        self.error is Some
    }

    /// The boolean value carried by a completed outcome.
    pub closed spec fn spec_value(&self) -> bool {
        self.result
    }

    /// The error carried by a faulty outcome.
    pub closed spec fn spec_error(&self) -> EvalError {
        self.error->0
    }

    pub fn create_completed(result: bool) -> (r: Self)
        ensures
            !r.spec_is_faulty(),
            r.spec_value() == result,
    {
        Self { error: None, result }
    }

    pub fn create_faulty(error: EvalError) -> (r: Self)
        ensures
            r.spec_is_faulty(),
            r.spec_error() == error,
            r.spec_value() == false,
    {
        Self { error: Some(error), result: false }
    }

    #[inline]
    pub fn is_faulty(&self) -> (r: bool)
        ensures
            r == self.spec_is_faulty(),
    {
        self.error.is_some()
    }

    /// Extracts the outcome, consuming it: a completed outcome yields its
    /// value, a faulty one yields its error. Taking the result by value is
    /// what makes a second extraction impossible.
    pub fn get_result(self) -> (r: Result<bool, EvalError>)
        ensures
            self.spec_is_faulty() ==> r == Err::<bool, EvalError>(self.spec_error()),
            !self.spec_is_faulty() ==> r == Ok::<bool, EvalError>(self.spec_value()),
    {
        match self.error {
            Some(e) => Err(e),
            None => Ok(self.result),
        }
    }
}

/// One evaluation instance: it accepts typed variable declarations, keeps a
/// record of every global name it has injected, and evaluates one boolean
/// expression against them.
pub trait IRustapoWrappedInstance: Sized {
    /// The names of the globals this instance has injected, in the order
    /// they were declared.
    spec fn declared_names(&self) -> Seq<Seq<char>>;

    /// Evaluates `expr` as a boolean expression. Failures of any kind come
    /// back inside the result; the record of declared names is untouched.
    fn evaluate_boolean(&self, expr: &String) -> (r: BooleanEvaluationResult);

    /// Binds `name` to a 64-bit floating-point global given by its IEEE-754
    /// bit pattern. The name is recorded before the binding is attempted, so
    /// it is cleaned up at teardown even when the interpreter rejects it.
    fn declare_f64(&mut self, name: &String, bits: u64) -> (r: Result<(), EvalError>)
        ensures
            final(self).declared_names() == old(self).declared_names().push(name@),
    ;

    /// Binds `name` to a string global. The name is recorded before the
    /// binding is attempted, exactly as for numeric declarations.
    fn declare_string(&mut self, name: &String, value: String) -> (r: Result<(), EvalError>)
        ensures
            final(self).declared_names() == old(self).declared_names().push(name@),
    ;
}

/// An evaluator runtime: hands out fresh instances that share its
/// interpreter context and start with an empty record of declared names.
pub trait IRustapoEvaluator<TInstance: IRustapoWrappedInstance> {
    fn capture(&self) -> (r: TInstance)
        ensures
            r.declared_names() == Seq::<Seq<char>>::empty(),
    ;
}

} // verus!

use vstd::prelude::*;
use vstd::string::StringExecFns;
use std::io::Write;
use std::rc::Rc;
use crate::evaluator::{BooleanEvaluationResult, EvalError, IRustapoEvaluator, IRustapoWrappedInstance};
use crate::numeric::{fold_max_bits, fold_min_bits};
use crate::typed_variadic_arguments::TypedLuaVariadicArguments;

verus! {

#[verifier::external_type_specification]
#[verifier::external_body]
pub struct ExLua(rlua::Lua);

#[verifier::external_type_specification]
#[verifier::external_body]
pub struct ExLuaError(rlua::Error);

/// The raw outcome of one interpreter run: the chunk's final value when it
/// was a boolean, a marker when the value was of any other kind, or the
/// interpreter's failure.
pub enum RawEvalOutcome {
    Bool(bool),
    NotBoolean,
    Failed(rlua::Error),
}

/// The evaluator runtime: one interpreter context, shared by reference with
/// every instance captured from it, its built-in functions registered once,
/// at construction, before any instance can exist.
pub struct LuaEvaluator {
    runtime: Rc<rlua::Lua>,
}

/// One evaluation instance: a handle on the shared runtime plus the record
/// of every global name this instance has injected. The record drives the
/// teardown that keeps unrelated evaluations from seeing each other's
/// variables.
pub struct LuaEvaluatorInstance {
    runtime: Rc<rlua::Lua>,
    declared: Vec<String>,
}

/// Relies on rlua::Lua::new: a fresh interpreter with its standard global
/// namespace and nothing of ours in it yet.
#[verifier::external_body]
fn lua_new() -> (r: rlua::Lua) {
    rlua::Lua::new()
}

/// Relies on std's Rc::clone: the returned handle is the same shared
/// runtime, not a copy of it.
#[verifier::external_body]
fn clone_runtime(lua: &Rc<rlua::Lua>) -> (r: Rc<rlua::Lua>)
    ensures
        r == *lua,
{
    lua.clone()
}

/// Relies on the Display implementation of rlua::Error: renders the
/// interpreter's diagnostic as text.
#[verifier::external_body]
fn rlua_error_text(e: &rlua::Error) -> (r: String) {
    e.to_string()
}

/// Relies on rlua's Table::set on the globals table: binds `name` to the
/// 64-bit floating-point number whose IEEE-754 bit pattern is `bits`.
#[verifier::external_body]
fn lua_set_number(lua: &Rc<rlua::Lua>, name: &String, bits: u64) -> (r: Result<(), rlua::Error>) {
    lua.context(|ctx| ctx.globals().set(name.as_str(), rlua::Number::from_bits(bits)))
}

/// Relies on rlua's Table::set on the globals table: binds `name` to the
/// given string.
#[verifier::external_body]
fn lua_set_string(lua: &Rc<rlua::Lua>, name: &String, value: String) -> (r: Result<(), rlua::Error>) {
    lua.context(|ctx| ctx.globals().set(name.as_str(), value))
}

/// Relies on rlua's Table::set on the globals table: removes `name` by
/// binding it to nil, the interpreter's "no value" sentinel.
#[verifier::external_body]
fn lua_unbind(lua: &Rc<rlua::Lua>, name: &String) -> (r: Result<(), rlua::Error>) {
    lua.context(|ctx| ctx.globals().set(name.as_str(), rlua::Nil))
}

/// Relies on rlua's Chunk::eval: runs `expr` as one standalone expression or
/// chunk and hands back its final value, told apart by kind; a syntax or
/// runtime failure comes back as the interpreter's error, never as a panic.
/// The two boolean keywords cannot be shadowed by any global, so their value
/// is fixed by the language itself.
#[verifier::external_body]
fn lua_eval_raw(lua: &Rc<rlua::Lua>, expr: &String) -> (r: RawEvalOutcome)
    ensures
        expr@ == "true"@ ==> r == RawEvalOutcome::Bool(true),
        expr@ == "false"@ ==> r == RawEvalOutcome::Bool(false),
{
    lua.context(|ctx| {
        match ctx.load(expr.as_str()).eval::<rlua::Value>() {
            Ok(rlua::Value::Boolean(b)) => RawEvalOutcome::Bool(b),
            Ok(_) => RawEvalOutcome::NotBoolean,
            Err(e) => RawEvalOutcome::Failed(e),
        }
    })
}

/// Relies on rlua's create_function and Table::set: installs the `info`
/// built-in. The closure converts each argument to text, marshals the
/// conversions through the verified marshaller — the first argument that
/// does not convert rejects the whole call — and emits the verified joining
/// of the arguments at information severity. The line goes to the standard
/// error stream with a severity prefix: a logging facade's macros cannot
/// stand in verified code, so a log-crate filter does not see script logs.
#[verifier::external_body]
fn register_info(lua: &Rc<rlua::Lua>) -> (r: Result<(), rlua::Error>) {
    lua.context(|ctx| {
        let f = ctx.create_function(|c, mv: rlua::MultiValue| {
            let conv: Vec<rlua::Result<String>> =
                mv.into_iter().map(|v| rlua::FromLua::from_lua(v, c)).collect();
            let args = TypedLuaVariadicArguments::from_converted(conv)?;
            let _ = write!(std::io::stderr(), "INFO {}", join_messages(args.get_va_args()));
            Ok(())
        })?;
        ctx.globals().set("info", f)
    })
}

/// Relies on rlua's create_function and Table::set: installs the `debug`
/// built-in, which emits the verified joining of its arguments at debug
/// severity, as `info` does at information severity.
#[verifier::external_body]
fn register_debug(lua: &Rc<rlua::Lua>) -> (r: Result<(), rlua::Error>) {
    lua.context(|ctx| {
        let f = ctx.create_function(|c, mv: rlua::MultiValue| {
            let conv: Vec<rlua::Result<String>> =
                mv.into_iter().map(|v| rlua::FromLua::from_lua(v, c)).collect();
            let args = TypedLuaVariadicArguments::from_converted(conv)?;
            let _ = write!(std::io::stderr(), "DEBUG {}", join_messages(args.get_va_args()));
            Ok(())
        })?;
        ctx.globals().set("debug", f)
    })
}

/// Relies on rlua's create_function and Table::set: installs the `warn`
/// built-in, which emits the verified joining of its arguments at warning
/// severity, as `info` does at information severity.
#[verifier::external_body]
fn register_warn(lua: &Rc<rlua::Lua>) -> (r: Result<(), rlua::Error>) {
    lua.context(|ctx| {
        let f = ctx.create_function(|c, mv: rlua::MultiValue| {
            let conv: Vec<rlua::Result<String>> =
                mv.into_iter().map(|v| rlua::FromLua::from_lua(v, c)).collect();
            let args = TypedLuaVariadicArguments::from_converted(conv)?;
            let _ = write!(std::io::stderr(), "WARN {}", join_messages(args.get_va_args()));
            Ok(())
        })?;
        ctx.globals().set("warn", f)
    })
}

/// Relies on rlua's create_function and Table::set: installs the `min`
/// built-in. The closure converts each argument to a 64-bit float, marshals
/// the conversions through the verified marshaller, and answers with the
/// verified fold over the arguments' IEEE-754 bit patterns — the bits
/// compare exactly as the numbers they encode.
#[verifier::external_body]
fn register_min(lua: &Rc<rlua::Lua>) -> (r: Result<(), rlua::Error>) {
    lua.context(|ctx| {
        let f = ctx.create_function(|c, mv: rlua::MultiValue| {
            let conv: Vec<rlua::Result<rlua::Number>> =
                mv.into_iter().map(|v| rlua::FromLua::from_lua(v, c)).collect();
            let args = TypedLuaVariadicArguments::from_converted(conv)?;
            let bits: Vec<u64> = args.get_va_args().iter().map(|x| x.to_bits()).collect();
            Ok(rlua::Number::from_bits(fold_min_bits(&bits)))
        })?;
        ctx.globals().set("min", f)
    })
}

/// Relies on rlua's create_function and Table::set: installs the `max`
/// built-in, the verified largest-element fold over the arguments' IEEE-754
/// bit patterns, marshalled as for `min`.
#[verifier::external_body]
fn register_max(lua: &Rc<rlua::Lua>) -> (r: Result<(), rlua::Error>) {
    lua.context(|ctx| {
        let f = ctx.create_function(|c, mv: rlua::MultiValue| {
            let conv: Vec<rlua::Result<rlua::Number>> =
                mv.into_iter().map(|v| rlua::FromLua::from_lua(v, c)).collect();
            let args = TypedLuaVariadicArguments::from_converted(conv)?;
            let bits: Vec<u64> = args.get_va_args().iter().map(|x| x.to_bits()).collect();
            Ok(rlua::Number::from_bits(fold_max_bits(&bits)))
        })?;
        ctx.globals().set("max", f)
    })
}

/// Relies on rlua's create_function and Table::set: installs the `sum`
/// built-in. The arguments are marshalled through the verified marshaller;
/// the fold itself is floating-point addition, which verification refuses,
/// so it stays inside this trusted body. No arguments sum to zero.
#[verifier::external_body]
fn register_sum(lua: &Rc<rlua::Lua>) -> (r: Result<(), rlua::Error>) {
    lua.context(|ctx| {
        let f = ctx.create_function(|c, mv: rlua::MultiValue| {
            let conv: Vec<rlua::Result<rlua::Number>> =
                mv.into_iter().map(|v| rlua::FromLua::from_lua(v, c)).collect();
            let args = TypedLuaVariadicArguments::from_converted(conv)?;
            let mut total = rlua::Number::from_bits(0);
            for x in args.get_va_args() { total += *x; }
            Ok(total)
        })?;
        ctx.globals().set("sum", f)
    })
}

/// Relies on rlua's create_function and Table::set: installs the `avg`
/// built-in. The arguments are marshalled through the verified marshaller;
/// the mean itself is floating-point arithmetic, which verification refuses,
/// so it stays inside this trusted body. No arguments average to zero, so an
/// empty call never divides by zero.
#[verifier::external_body]
fn register_avg(lua: &Rc<rlua::Lua>) -> (r: Result<(), rlua::Error>) {
    lua.context(|ctx| {
        let f = ctx.create_function(|c, mv: rlua::MultiValue| {
            let conv: Vec<rlua::Result<rlua::Number>> =
                mv.into_iter().map(|v| rlua::FromLua::from_lua(v, c)).collect();
            let args = TypedLuaVariadicArguments::from_converted(conv)?;
            let n = args.get_va_args().len();
            if n == 0 { return Ok(rlua::Number::from_bits(0)); }
            let mut total = rlua::Number::from_bits(0);
            for x in args.get_va_args() { total += *x; }
            Ok(total / rlua::Number::from(n as u32))
        })?;
        ctx.globals().set("avg", f)
    })
}

/// The first `n` messages joined with a single space separator between
/// neighbouring messages and nothing else.
pub open spec fn joined_upto(msgs: Seq<Seq<char>>, n: int) -> Seq<char>
    decreases n,
{
    if n <= 0 {
        Seq::empty()
    } else if n == 1 {
        msgs[0]
    } else {
        joined_upto(msgs, n - 1) + " "@ + msgs[n - 1]
    }
}

/// The whole emitted line: the messages joined with a single space
/// separator, then the closing newline.
pub open spec fn joined(msgs: Seq<Seq<char>>) -> Seq<char> {
    joined_upto(msgs, msgs.len() as int) + "\n"@
}

/// Joins the text arguments of one logging call: a single space between
/// neighbouring messages, and a final newline.
pub fn join_messages(messages: &Vec<String>) -> (r: String)
    ensures
        r@ == joined(messages@.map_values(|m: String| m@)),
{
    let ghost msgs = messages@.map_values(|m: String| m@);
    let mut out = String::new();
    let mut i: usize = 0;
    while i < messages.len()
        invariant
            msgs == messages@.map_values(|m: String| m@),
            i <= messages@.len(),
            out@ == joined_upto(msgs, i as int),
        decreases messages@.len() - i,
    {
        if i > 0 {
            out.append(" ");
        }
        out.append(messages[i].as_str());
        i = i + 1;
    }
    out.append("\n");
    out
}

/// Turns the raw outcome of one interpreter run into the result the caller
/// sees: a boolean value completes; a value of any other kind is faulty,
/// because the result is not boolean-convertible; an interpreter failure is
/// faulty with the interpreter's own diagnostic.
pub fn interpret_outcome(outcome: RawEvalOutcome) -> (r: BooleanEvaluationResult)
    ensures
        r.spec_is_faulty() <==> !(outcome is Bool),
        outcome matches RawEvalOutcome::Bool(b) ==> r.spec_value() == b,
        outcome is NotBoolean ==> r.spec_error().spec_message() == "expected a boolean result, got a value of another type"@,
{
    match outcome {
        RawEvalOutcome::Bool(b) => BooleanEvaluationResult::create_completed(b),
        RawEvalOutcome::NotBoolean => {
            let mut msg = String::new();
            msg.append("expected a boolean result, got a value of another type");
            BooleanEvaluationResult::create_faulty(EvalError::new(msg))
        }
        RawEvalOutcome::Failed(e) => {
            BooleanEvaluationResult::create_faulty(EvalError::new(rlua_error_text(&e)))
        }
    }
}

impl LuaEvaluator {
    /// The interpreter handle this evaluator owns and shares.
    pub closed spec fn spec_runtime(&self) -> Rc<rlua::Lua> {
        self.runtime
    }

    /// Builds the shared runtime and registers every built-in function into
    /// its global namespace, once, before any instance can exist. The
    /// evaluator cannot serve correct evaluations without its built-ins, so
    /// a registration failure is unrecoverable and construction reports it
    /// instead of handing out a degraded runtime.
    pub fn new() -> (r: Result<LuaEvaluator, EvalError>) {
        let runtime = Rc::new(lua_new());
        if let Err(e) = register_info(&runtime) {
            return Err(EvalError::new(rlua_error_text(&e)));
        }
        if let Err(e) = register_debug(&runtime) {
            return Err(EvalError::new(rlua_error_text(&e)));
        }
        if let Err(e) = register_warn(&runtime) {
            return Err(EvalError::new(rlua_error_text(&e)));
        }
        if let Err(e) = register_min(&runtime) {
            return Err(EvalError::new(rlua_error_text(&e)));
        }
        if let Err(e) = register_max(&runtime) {
            return Err(EvalError::new(rlua_error_text(&e)));
        }
        if let Err(e) = register_sum(&runtime) {
            return Err(EvalError::new(rlua_error_text(&e)));
        }
        if let Err(e) = register_avg(&runtime) {
            return Err(EvalError::new(rlua_error_text(&e)));
        }
        Ok(LuaEvaluator { runtime })
    }
}

impl IRustapoEvaluator<LuaEvaluatorInstance> for LuaEvaluator {
    fn capture(&self) -> (r: LuaEvaluatorInstance)
        ensures
            r.spec_runtime() == self.spec_runtime(),
    {
        LuaEvaluatorInstance::new(clone_runtime(&self.runtime))
    }
}

impl LuaEvaluatorInstance {
    /// The shared interpreter handle this instance was captured from.
    pub closed spec fn spec_runtime(&self) -> Rc<rlua::Lua> {
        self.runtime
    }

    pub(crate) fn new(lua: Rc<rlua::Lua>) -> (r: Self)
        ensures
            r.declared_names() == Seq::<Seq<char>>::empty(),
            r.spec_runtime() == lua,
    {
        let declared: Vec<String> = Vec::new();
        proof {
            assert(declared@.map_values(|m: String| m@) =~= Seq::<Seq<char>>::empty());
        }
        LuaEvaluatorInstance { runtime: lua, declared }
    }

    /// Unbinds every global this instance has declared and empties the
    /// record. One failing unbind does not stop the remaining ones, and no
    /// failure is surfaced: at teardown no caller context remains to
    /// receive it.
    pub fn release(&mut self)
        ensures
            final(self).declared_names() == Seq::<Seq<char>>::empty(),
            final(self).spec_runtime() == old(self).spec_runtime(),
    {
        while self.declared.len() > 0
            invariant
                self.runtime == old(self).runtime,
            decreases self.declared@.len(),
        {
            let name = self.declared.pop();
            if let Some(n) = name {
                let _ = lua_unbind(&self.runtime, &n);
            }
        }
        proof {
            assert(self.declared@.map_values(|m: String| m@) =~= Seq::<Seq<char>>::empty());
        }
    }
}

impl IRustapoWrappedInstance for LuaEvaluatorInstance {
    closed spec fn declared_names(&self) -> Seq<Seq<char>> {
        self.declared@.map_values(|m: String| m@)
    }

    /// One interpreter run, then the verified mapping of its raw outcome:
    /// `interpret_outcome`'s contract settles, for every possible outcome,
    /// that an interpreter failure or a non-boolean value is captured in the
    /// faulty variant and a boolean value completes — no path raises.
    fn evaluate_boolean(&self, expr: &String) -> (r: BooleanEvaluationResult)
        ensures
            expr@ == "true"@ ==> !r.spec_is_faulty() && r.spec_value() == true,
            expr@ == "false"@ ==> !r.spec_is_faulty() && r.spec_value() == false,
    {
        interpret_outcome(lua_eval_raw(&self.runtime, expr))
    }

    fn declare_f64(&mut self, name: &String, bits: u64) -> (r: Result<(), EvalError>)
        ensures
            final(self).spec_runtime() == old(self).spec_runtime(),
    {
        self.declared.push(name.clone());
        proof {
            assert(self.declared@.map_values(|m: String| m@) =~= old(
                self,
            ).declared@.map_values(|m: String| m@).push(name@));
        }
        match lua_set_number(&self.runtime, name, bits) {
            Ok(u) => Ok(u),
            Err(e) => Err(EvalError::new(rlua_error_text(&e))),
        }
    }

    fn declare_string(&mut self, name: &String, value: String) -> (r: Result<(), EvalError>)
        ensures
            final(self).spec_runtime() == old(self).spec_runtime(),
    {
        self.declared.push(name.clone());
        proof {
            assert(self.declared@.map_values(|m: String| m@) =~= old(
                self,
            ).declared@.map_values(|m: String| m@).push(name@));
        }
        match lua_set_string(&self.runtime, name, value) {
            Ok(u) => Ok(u),
            Err(e) => Err(EvalError::new(rlua_error_text(&e))),
        }
    }
}

impl Drop for LuaEvaluatorInstance {
    /// Relies on rlua's Table::set on the globals table: when the instance
    /// goes out of scope, every name it declared is bound to nil, whichever
    /// way the scope was left. Teardown is best-effort — one failing unbind
    /// does not stop the remaining ones — and failures are swallowed, since
    /// no caller context remains at this point. This trusted body restates
    /// the loop that `release` proves: `drop` must carry `no_unwind`, and
    /// the vector operations `release` is verified against carry no
    /// unwinding specification, so `release` cannot be called from here.
    #[verifier::external_body]
    fn drop(&mut self)
        opens_invariants none
        no_unwind
    {
        let _ = self.runtime.context(|ctx| -> rlua::Result<()> {
            let globals = ctx.globals();
            for name in &self.declared {
                let _ = globals.set(name.as_str(), rlua::Nil);
            }
            Ok(())
        });
    }
}

} // verus!

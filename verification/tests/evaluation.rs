use rustapo::api::evaluate_request;
use rustapo::evaluator::{IRustapoEvaluator, IRustapoWrappedInstance};
use rustapo::lua_evaluator::{LuaEvaluator, LuaEvaluatorInstance};

fn evaluator() -> LuaEvaluator {
    LuaEvaluator::new().expect("runtime construction must succeed")
}

#[test]
fn boolean_literal_true_completes() {
    let ev = evaluator();
    let instance: LuaEvaluatorInstance = ev.capture();
    let outcome = instance.evaluate_boolean(&String::from("true"));
    assert!(!outcome.is_faulty());
    assert_eq!(outcome.get_result().unwrap(), true);
}

#[test]
fn boolean_literal_false_completes() {
    let ev = evaluator();
    let instance = ev.capture();
    let outcome = instance.evaluate_boolean(&String::from("false"));
    assert_eq!(outcome.get_result().unwrap(), false);
}

#[test]
fn boolean_expression_completes() {
    let ev = evaluator();
    let instance = ev.capture();
    let outcome = instance.evaluate_boolean(&String::from("1 == 1"));
    assert_eq!(outcome.get_result().unwrap(), true);
    let instance = ev.capture();
    let outcome = instance.evaluate_boolean(&String::from("2 < 1"));
    assert_eq!(outcome.get_result().unwrap(), false);
}

#[test]
fn declared_f64_is_seen_exactly() {
    let ev = evaluator();
    let mut instance = ev.capture();
    instance.declare_f64(&String::from("x"), 5.0f64.to_bits()).unwrap();
    let outcome = instance.evaluate_boolean(&String::from("x == 5"));
    assert_eq!(outcome.get_result().unwrap(), true);
}

#[test]
fn declared_string_is_seen_exactly() {
    let ev = evaluator();
    let mut instance = ev.capture();
    instance.declare_string(&String::from("s"), String::from("abc")).unwrap();
    let outcome = instance.evaluate_boolean(&String::from("s == 'abc'"));
    assert_eq!(outcome.get_result().unwrap(), true);
}

#[test]
fn destroyed_instance_leaks_no_global() {
    let ev = evaluator();
    {
        let mut instance = ev.capture();
        instance.declare_f64(&String::from("x"), 5.0f64.to_bits()).unwrap();
        let outcome = instance.evaluate_boolean(&String::from("x == 5"));
        assert_eq!(outcome.get_result().unwrap(), true);
    }
    let fresh = ev.capture();
    let outcome = fresh.evaluate_boolean(&String::from("x == nil"));
    assert_eq!(outcome.get_result().unwrap(), true);
}

#[test]
fn released_instance_leaks_no_global() {
    let ev = evaluator();
    let mut instance = ev.capture();
    instance.declare_string(&String::from("token"), String::from("opaque-value")).unwrap();
    let outcome = instance.evaluate_boolean(&String::from("token ~= nil"));
    assert_eq!(outcome.get_result().unwrap(), true);
    instance.release();
    let fresh = ev.capture();
    let outcome = fresh.evaluate_boolean(&String::from("token == nil"));
    assert_eq!(outcome.get_result().unwrap(), true);
}

#[test]
fn sum_of_no_arguments_is_zero() {
    let ev = evaluator();
    let instance = ev.capture();
    let outcome = instance.evaluate_boolean(&String::from("sum() == 0"));
    assert_eq!(outcome.get_result().unwrap(), true);
}

#[test]
fn avg_of_no_arguments_is_zero() {
    let ev = evaluator();
    let instance = ev.capture();
    let outcome = instance.evaluate_boolean(&String::from("avg() == 0"));
    assert_eq!(outcome.get_result().unwrap(), true);
}

#[test]
fn sum_and_avg_of_arguments() {
    let ev = evaluator();
    let instance = ev.capture();
    let outcome = instance.evaluate_boolean(&String::from("sum(1, 2, 3) == 6"));
    assert_eq!(outcome.get_result().unwrap(), true);
    let instance = ev.capture();
    let outcome = instance.evaluate_boolean(&String::from("avg(1, 2, 3) == 2"));
    assert_eq!(outcome.get_result().unwrap(), true);
}

#[test]
fn min_of_three_arguments() {
    let ev = evaluator();
    let instance = ev.capture();
    let outcome = instance.evaluate_boolean(&String::from("min(3, 1, 2) == 1"));
    assert_eq!(outcome.get_result().unwrap(), true);
}

#[test]
fn max_of_three_arguments() {
    let ev = evaluator();
    let instance = ev.capture();
    let outcome = instance.evaluate_boolean(&String::from("max(3, 1, 2) == 3"));
    assert_eq!(outcome.get_result().unwrap(), true);
}

#[test]
fn min_and_max_of_no_arguments_answer_the_sentinel() {
    let ev = evaluator();
    let instance = ev.capture();
    let outcome = instance.evaluate_boolean(&String::from("min() == 1.7976931348623157e308"));
    assert_eq!(outcome.get_result().unwrap(), true);
    let instance = ev.capture();
    let outcome = instance.evaluate_boolean(&String::from("max() == 1.7976931348623157e308"));
    assert_eq!(outcome.get_result().unwrap(), true);
}

#[test]
fn min_of_negative_arguments() {
    let ev = evaluator();
    let instance = ev.capture();
    let outcome = instance.evaluate_boolean(&String::from("min(-1, 2, -3) == -3"));
    assert_eq!(outcome.get_result().unwrap(), true);
    let instance = ev.capture();
    let outcome = instance.evaluate_boolean(&String::from("max(-1, -2, -3) == -1"));
    assert_eq!(outcome.get_result().unwrap(), true);
}

#[test]
fn syntax_error_yields_faulty() {
    let ev = evaluator();
    let instance = ev.capture();
    let outcome = instance.evaluate_boolean(&String::from("(("));
    assert!(outcome.is_faulty());
    assert!(outcome.get_result().is_err());
}

#[test]
fn runtime_error_yields_faulty() {
    let ev = evaluator();
    let instance = ev.capture();
    let outcome = instance.evaluate_boolean(&String::from("error('boom')"));
    assert!(outcome.is_faulty());
}

#[test]
fn string_result_yields_faulty() {
    let ev = evaluator();
    let instance = ev.capture();
    let outcome = instance.evaluate_boolean(&String::from("'hello'"));
    assert!(outcome.is_faulty());
    assert!(outcome.get_result().is_err());
}

#[test]
fn numeric_result_yields_faulty() {
    let ev = evaluator();
    let instance = ev.capture();
    let outcome = instance.evaluate_boolean(&String::from("1 + 1"));
    assert!(outcome.is_faulty());
}

#[test]
fn logging_builtins_accept_text_arguments() {
    let ev = evaluator();
    let instance = ev.capture();
    let outcome = instance.evaluate_boolean(&String::from("info('a', 'b') == nil"));
    assert_eq!(outcome.get_result().unwrap(), true);
    let instance = ev.capture();
    let outcome = instance.evaluate_boolean(&String::from("debug('c') == nil"));
    assert_eq!(outcome.get_result().unwrap(), true);
    let instance = ev.capture();
    let outcome = instance.evaluate_boolean(&String::from("warn('d', 'e') == nil"));
    assert_eq!(outcome.get_result().unwrap(), true);
}

#[test]
fn logging_builtin_rejects_an_unconvertible_argument() {
    let ev = evaluator();
    let instance = ev.capture();
    let outcome = instance.evaluate_boolean(&String::from("info({}) == nil"));
    assert!(outcome.is_faulty());
}

#[test]
fn numeric_builtin_rejects_an_unconvertible_argument() {
    let ev = evaluator();
    let instance = ev.capture();
    let outcome = instance.evaluate_boolean(&String::from("min(1, 'pear') == 1"));
    assert!(outcome.is_faulty());
}

#[test]
fn unusual_name_is_cleaned_up_after_teardown() {
    let ev = evaluator();
    {
        let mut instance = ev.capture();
        let _ = instance.declare_f64(&String::from("not a name"), 1.0f64.to_bits());
    }
    let fresh = ev.capture();
    let outcome = fresh.evaluate_boolean(&String::from("_G[\"not a name\"] == nil"));
    assert_eq!(outcome.get_result().unwrap(), true);
}

#[test]
fn evaluate_request_with_declarations() {
    let ev = evaluator();
    let strings = vec![(String::from("s"), String::from("x"))];
    let numbers = vec![(String::from("n"), 2.0f64.to_bits())];
    let r = evaluate_request(&ev, &strings, &numbers, &String::from("s == 'x' and n == 2"));
    assert_eq!(r.unwrap(), true);
}

#[test]
fn evaluate_request_without_declarations() {
    let ev = evaluator();
    let r = evaluate_request(&ev, &vec![], &vec![], &String::from("true"));
    assert_eq!(r.unwrap(), true);
    let r = evaluate_request(&ev, &vec![], &vec![], &String::from("false"));
    assert_eq!(r.unwrap(), false);
}

#[test]
fn evaluate_request_reports_a_bad_expression() {
    let ev = evaluator();
    let r = evaluate_request(&ev, &vec![], &vec![], &String::from("(("));
    assert!(r.is_err());
}

#[test]
fn evaluate_request_leaks_nothing_between_requests() {
    let ev = evaluator();
    let numbers = vec![(String::from("n"), 7.0f64.to_bits())];
    let r = evaluate_request(&ev, &vec![], &numbers, &String::from("n == 7"));
    assert_eq!(r.unwrap(), true);
    let r = evaluate_request(&ev, &vec![], &vec![], &String::from("n == nil"));
    assert_eq!(r.unwrap(), true);
}

pub mod api;
pub mod evaluator;
pub mod lua_evaluator;
pub mod numeric;
pub mod typed_variadic_arguments;

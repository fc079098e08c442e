//! An interpreter for Unlambda: a parser for the surface syntax and a
//! small-step abstract machine over expressions and explicit continuations.
//!
//! A program is parsed into an [`internals::Expr`] and run by
//! [`io::Ctx::execute`] against an input and an output held in memory:
//!
//! ```text
//! let out = unlambda::eval_to_string("`.!`.i`.Hi", unlambda::Input::default())?;
//! assert_eq!(out, "Hi!");
//! ```
//!
//! What a step of the machine does is [`internals::Task::step_spec`]; what
//! the parser accepts is [`parse::grammar::parse_expr_spec`]. The module
//! [`laws`] holds what follows from them.

pub mod eval;
pub mod internals;
pub mod io;
pub mod laws;
pub mod parse;
pub mod utf8;
pub mod util;

pub use eval::{eval_to_string, eval_to_vec, Error as EvalError};
pub use io::Input;
pub use parse::{parse_from_reader, parse_from_str, ParseError};
pub use util::P;

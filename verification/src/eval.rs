//! Evaluation of a program from source text.

use crate::internals::{start, steps, Expr, Task};
use crate::io::{Ctx, Input, IoError, IoState, Output, STEP_LIMIT};
use crate::laws::law_eval_output_is_utf8;
use crate::parse::{outcome, ParseError};
use crate::utf8::text_from;
use crate::util::P;
use vstd::prelude::*;
use vstd::utf8::decode_utf8;

verus! {

/// Why an evaluation did not complete.
#[derive(Debug)]
#[non_exhaustive]
pub enum Error {
    /// The host's input or output failed.
    Io(IoError),
    /// The source is not a program.
    Parse(ParseError),
    /// The machine was stopped after the largest number of steps it takes.
    StepLimit,
}

impl From<IoError> for Error {
    fn from(src: IoError) -> (r: Self) {
        Self::Io(src)
    }
}

impl vstd::std_specs::convert::FromSpecImpl<IoError> for Error {
    open spec fn obeys_from_spec() -> bool {
        true
    }

    open spec fn from_spec(src: IoError) -> Self {
        Error::Io(src)
    }
}

impl From<ParseError> for Error {
    fn from(src: ParseError) -> (r: Self) {
        Self::Parse(src)
    }
}

impl vstd::std_specs::convert::FromSpecImpl<ParseError> for Error {
    open spec fn obeys_from_spec() -> bool {
        true
    }

    open spec fn from_spec(src: ParseError) -> Self {
        Error::Parse(src)
    }
}

impl Error {
    /// The text of the error.
    pub open spec fn text(self) -> Seq<char> {
        match self {
            Error::Io(io) => io.message@,
            Error::Parse(e) => e.text(),
            Error::StepLimit => "the program did not halt within the step limit"@,
        }
    }

    /// The error as a message for people.
    pub fn to_string(&self) -> (s: String)
        ensures
            s@ == self.text(),
    {
        match self {
            Self::Io(io) => io.message.clone(),
            Self::Parse(e) => e.to_string(),
            Self::StepLimit => "the program did not halt within the step limit".to_owned(),
        }
    }
}

/// The task and the I/O state in which a run of `expr` ends: it reads
/// `input`, appends to `output`, and takes at most [`STEP_LIMIT`] steps.
pub open spec fn run_spec(expr: P<Expr>, input: Seq<u8>, output: Seq<u8>) -> (Task, IoState) {
    steps(start(expr), IoState { input, output, last_char: None }, STEP_LIMIT as nat)
}

/// The output of the program `source` on `input`, or why there is none: the
/// source is parsed leniently; a program that has not halted within
/// [`STEP_LIMIT`] steps has no output.
pub open spec fn eval_spec(source: Seq<char>, input: Seq<u8>) -> Result<Seq<u8>, Error> {
    match outcome(source, false, None) {
        Err(e) => Err(Error::Parse(e)),
        Ok(expr) => {
            let (task, io) = run_spec(expr, input, Seq::empty());
            if task is Final {
                Ok(io.output)
            } else {
                Err(Error::StepLimit)
            }
        },
    }
}

fn eval_imp(e: P<Expr>, input: Input<'_>, o: Output) -> (r: Result<Output, Error>)
    ensures
        match r {
            Ok(out) => run_spec(e, input.bytes(), o.bytes()).0 is Final && out.bytes() == run_spec(
                e,
                input.bytes(),
                o.bytes(),
            ).1.output,
            Err(err) => run_spec(e, input.bytes(), o.bytes()).0 !is Final
                && err == Error::StepLimit,
        },
{
    let mut ctx = Ctx::new(input.to_bytes(), o);
    match ctx.execute(e) {
        Ok(()) => Ok(ctx.into_output()),
        Err(err) => Err(err),
    }
}

/// Runs the program `source` on `input` and returns what it wrote.
pub fn eval_to_vec(source: &str, input: Input<'_>) -> (r: Result<Vec<u8>, Error>)
    ensures
        match eval_spec(source@, input.bytes()) {
            Ok(bytes) => r is Ok && r->Ok_0@ == bytes,
            Err(e) => r == Err::<Vec<u8>, Error>(e),
        },
{
    let expr = match Input::Str(source).parse() {
        Ok(expr) => expr,
        Err(e) => {
            return Err(Error::from(e));
        },
    };
    match eval_imp(expr, input, Output::from(Vec::with_capacity(32))) {
        Ok(out) => Ok(out.into_bytes()),
        Err(e) => Err(e),
    }
}

/// Runs the program `source` on `input` and returns what it wrote, as text:
/// the characters it printed.
pub fn eval_to_string(source: &str, input: Input<'_>) -> (r: Result<String, Error>)
    ensures
        match eval_spec(source@, input.bytes()) {
            Ok(bytes) => r is Ok && r->Ok_0@ == decode_utf8(bytes),
            Err(e) => r == Err::<String, Error>(e),
        },
{
    proof {
        law_eval_output_is_utf8(source@, input.bytes());
    }
    match eval_to_vec(source, input) {
        Ok(bytes) => Ok(text_from(bytes)),
        Err(e) => Err(e),
    }
}

} // verus!

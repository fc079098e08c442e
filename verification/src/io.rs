//! The I/O context of a running program: pending input, produced output and
//! the last character read.

use crate::eval::Error;
use crate::internals::{start, steps, Cont, Expr, Task};
use crate::parse::{
    is_reader_outcome, outcome, parse_from_reader, parse_from_str, ParseError, ParseOptions,
};
use crate::utf8::{
    decode_multibyte, decoded, encode_char, utf8_char_width, utf8_width, REPLACEMENT,
};
use crate::util::{p, P};
use vstd::prelude::*;
use vstd::string::StringSliceAdditionalSpecFns;
use vstd::utf8::{encode_scalar, encode_utf8};

verus! {

/// The largest number of steps that [`Ctx::execute`] takes.
pub const STEP_LIMIT: u64 = 0xffff_ffff_ffff_ffff;

/// The observable state of the I/O context.
pub struct IoState {
    /// Input bytes that have not been read yet.
    pub input: Seq<u8>,
    /// Every byte written so far.
    pub output: Seq<u8>,
    /// The character delivered by the most recent read, if it delivered one.
    pub last_char: Option<char>,
}

/// The character that one read delivers from the pending `input`, and the
/// number of bytes that the read consumes.
///
/// An empty input delivers nothing. A byte that cannot start a sequence is
/// consumed alone and reported as [`REPLACEMENT`]. A sequence cut short by
/// the end of the input consumes what is left and is reported as
/// [`REPLACEMENT`]; so is a complete sequence that is not well formed.
pub open spec fn read_char(input: Seq<u8>) -> (Option<char>, nat) {
    if input.len() == 0 {
        (None, 0)
    } else {
        let w = utf8_width(input[0]);
        if w == 0 {
            (Some(REPLACEMENT), 1)
        } else if w == 1 {
            (Some(input[0] as char), 1)
        } else if input.len() < w {
            (Some(REPLACEMENT), input.len())
        } else {
            match decoded(input.take(w as int)) {
                Some(c) => (Some(c), w),
                None => (Some(REPLACEMENT), w),
            }
        }
    }
}

impl IoState {
    /// The state after one read.
    pub open spec fn after_read(self) -> IoState {
        IoState {
            input: self.input.skip(read_char(self.input).1 as int),
            output: self.output,
            last_char: read_char(self.input).0,
        }
    }

    /// The state after writing `c`.
    pub open spec fn after_write(self, c: char) -> IoState {
        IoState {
            input: self.input,
            output: self.output + encode_scalar(c as u32),
            last_char: self.last_char,
        }
    }
}

/// Where the output of a program goes.
#[derive(Debug)]
#[non_exhaustive]
pub enum Output {
    /// Collected in memory.
    Buffer(Vec<u8>),
}

impl Output {
    /// The bytes written so far.
    pub open spec fn bytes(self) -> Seq<u8> {
        match self {
            Output::Buffer(b) => b@,
        }
    }

    fn putc(&mut self, c: char)
        ensures
            final(self).bytes() == old(self).bytes() + encode_scalar(c as u32),
    {
        match self {
            Self::Buffer(b) => encode_char(c, b),
        }
    }

    /// The collected bytes.
    pub fn into_bytes(self) -> (r: Vec<u8>)
        ensures
            r@ == self.bytes(),
    {
        match self {
            Self::Buffer(b) => b,
        }
    }
}

impl From<Vec<u8>> for Output {
    fn from(v: Vec<u8>) -> (r: Self) {
        Self::Buffer(v)
    }
}

impl vstd::std_specs::convert::FromSpecImpl<Vec<u8>> for Output {
    open spec fn obeys_from_spec() -> bool {
        true
    }

    open spec fn from_spec(v: Vec<u8>) -> Self {
        Output::Buffer(v)
    }
}

/// The bytes of `input` from `pos` on; none where `pos` is past the end.
spec fn rest_of(input: Seq<u8>, pos: usize) -> Seq<u8> {
    if pos <= input.len() {
        input.skip(pos as int)
    } else {
        Seq::empty()
    }
}

/// The I/O context that a program runs against.
pub struct Ctx {
    stdin: Vec<u8>,
    pos: usize,
    stdout: Output,
    last_char: Option<char>,
}

impl View for Ctx {
    type V = IoState;

    closed spec fn view(&self) -> IoState {
        IoState {
            input: rest_of(self.stdin@, self.pos),
            output: self.stdout.bytes(),
            last_char: self.last_char,
        }
    }
}

impl Ctx {
    /// A context that reads from `stdin` and writes to `stdout`; nothing has
    /// been read yet.
    pub fn new(stdin: Vec<u8>, stdout: Output) -> (r: Self)
        ensures
            r@ == (IoState { input: stdin@, output: stdout.bytes(), last_char: None }),
    {
        assert(stdin@.skip(0) =~= stdin@);
        Self { stdin, pos: 0, stdout, last_char: None }
    }

    pub(crate) fn putc(&mut self, c: char)
        ensures
            final(self)@ == old(self)@.after_write(c),
    {
        self.stdout.putc(c);
    }

    pub(crate) fn getc(&mut self) -> (r: Option<char>)
        ensures
            r == read_char(old(self)@.input).0,
            final(self)@ == old(self)@.after_read(),
    {
        let (c, next) = Self::read_single_char(&self.stdin, self.pos);
        self.pos = next;
        self.last_char = c;
        c
    }

    pub(crate) fn last_char(&self) -> (r: Option<char>)
        ensures
            r == self@.last_char,
    {
        self.last_char
    }

    /// Reads one character from `input` at `pos`; returns it with the
    /// position after it.
    fn read_single_char(input: &Vec<u8>, pos: usize) -> (r: (Option<char>, usize))
        ensures
            r.0 == read_char(rest_of(input@, pos)).0,
            rest_of(input@, r.1) == rest_of(input@, pos).skip(
                read_char(rest_of(input@, pos)).1 as int,
            ),
    {
        let len = input.len();
        if pos >= len {
            return (None, pos);
        }
        let first = input[pos];
        let width = utf8_char_width(first);
        if width == 1 {
            return (Some(first as char), pos + 1);
        }
        if width == 0 {
            return (Some(REPLACEMENT), pos + 1);
        }
        if len - pos < width {
            return (Some(REPLACEMENT), len);
        }
        let seq = vstd::slice::slice_subrange(input.as_slice(), pos, pos + width);
        match decode_multibyte(seq) {
            Some(c) => (Some(c), pos + width),
            None => (Some(REPLACEMENT), pos + width),
        }
    }

    /// Runs the machine from `task` for at most `limit` steps and returns the
    /// task it has reached: `Task::Final` if it halted.
    pub fn run_for(&mut self, task: Task, limit: u64) -> (r: Result<Task, Error>)
        ensures
            r == Ok::<Task, Error>(steps(task, old(self)@, limit as nat).0),
            final(self)@ == steps(task, old(self)@, limit as nat).1,
    {
        let mut now = task;
        let mut left = limit;
        while left > 0
            invariant
                steps(now, self@, left as nat) == steps(task, old(self)@, limit as nat),
            decreases left,
        {
            match now.run(self) {
                Ok(Some(next)) => {
                    now = next;
                    left = left - 1;
                },
                Ok(None) => {
                    return Ok(Task::Final);
                },
                Err(e) => {
                    return Err(e);
                },
            }
        }
        Ok(now)
    }

    /// Evaluates `expr` as a whole program. The machine takes at most
    /// [`STEP_LIMIT`] steps; a program that has not halted by then is
    /// reported as [`Error::StepLimit`]. A program that halts earlier is
    /// run to its end: a halted machine stays as it is.
    pub fn execute(&mut self, expr: P<Expr>) -> (r: Result<(), Error>)
        ensures
            final(self)@ == steps(start(expr), old(self)@, STEP_LIMIT as nat).1,
            r == (if steps(start(expr), old(self)@, STEP_LIMIT as nat).0 is Final {
                Ok::<(), Error>(())
            } else {
                Err::<(), Error>(Error::StepLimit)
            }),
    {
        let task = Task::Eval(expr, p(Cont::Final));
        match self.run_for(task, STEP_LIMIT) {
            Ok(Task::Final) => Ok(()),
            Ok(_) => Err(Error::StepLimit),
            Err(e) => Err(e),
        }
    }

    /// Whether unread input is pending.
    pub fn has_input(&self) -> (r: bool)
        ensures
            r == (self@.input.len() > 0),
    {
        self.pos < self.stdin.len()
    }

    /// Appends `bytes` to the pending input.
    pub fn feed(&mut self, bytes: &[u8])
        ensures
            final(self)@ == (IoState { input: old(self)@.input + bytes@, ..old(self)@ }),
    {
        if self.pos >= self.stdin.len() {
            self.stdin.clear();
            self.pos = 0;
        }
        self.stdin.extend_from_slice(bytes);
        assert(self.stdin@.skip(self.pos as int) =~= old(self)@.input + bytes@);
    }

    /// Hands out the output written so far and starts a new, empty buffer.
    pub fn take_output(&mut self) -> (r: Vec<u8>)
        ensures
            r@ == old(self)@.output,
            final(self)@ == (IoState { output: Seq::empty(), ..old(self)@ }),
    {
        let mut out = Output::Buffer(Vec::new());
        std::mem::swap(&mut self.stdout, &mut out);
        out.into_bytes()
    }

    /// Ends the run and hands out the output.
    pub fn into_output(self) -> (r: Output)
        ensures
            r.bytes() == self@.output,
    {
        self.stdout
    }
}

/// A failure of the host's input or output.
#[derive(Debug)]
pub struct IoError {
    /// The stream ended before the data was complete.
    pub unexpected_eof: bool,
    /// The host's description of the failure.
    pub message: String,
}

/// Text or bytes held in memory: the source of a program, or what the
/// program reads.
#[derive(Copy, Clone, Debug, PartialEq)]
pub enum Input<'a> {
    Str(&'a str),
    Bytes(&'a [u8]),
}

impl<'a> Input<'a> {
    /// The bytes that a program reads from this input.
    pub open spec fn bytes(self) -> Seq<u8> {
        match self {
            Input::Str(s) => s.spec_bytes(),
            Input::Bytes(b) => b@,
        }
    }

    /// What parsing this input as a source returns: lenient, so that input
    /// after the expression is ignored.
    pub open spec fn parse_spec(self, res: Result<P<Expr>, ParseError>) -> bool {
        match self {
            Input::Str(s) => res == outcome(s@, false, None),
            Input::Bytes(b) => is_reader_outcome(b@, false, res),
        }
    }

    /// Parses this input as the source of a program, leniently. The
    /// warning for input after the expression is for hosts to log: see
    /// [`crate::parse::parse_with_warning`].
    pub fn parse(&self) -> (r: Result<P<Expr>, ParseError>)
        ensures
            self.parse_spec(r),
    {
        let mut o = ParseOptions::default();
        o.log_warnings = true;
        o.strict = false;
        match self {
            Self::Str(s) => parse_from_str(*s, o),
            Self::Bytes(b) => parse_from_reader(*b, o),
        }
    }

    /// A copy of the bytes that a program reads from this input.
    pub fn to_bytes(&self) -> (r: Vec<u8>)
        ensures
            r@ == self.bytes(),
    {
        match self {
            Self::Str(s) => vstd::slice::slice_to_vec(s.as_bytes()),
            Self::Bytes(b) => vstd::slice::slice_to_vec(*b),
        }
    }
}

impl<'a> From<&'a str> for Input<'a> {
    fn from(s: &'a str) -> (r: Self) {
        Self::Str(s)
    }
}

impl<'a> vstd::std_specs::convert::FromSpecImpl<&'a str> for Input<'a> {
    open spec fn obeys_from_spec() -> bool {
        true
    }

    open spec fn from_spec(s: &'a str) -> Self {
        Input::Str(s)
    }
}

impl<'a> From<&'a [u8]> for Input<'a> {
    fn from(b: &'a [u8]) -> (r: Self) {
        Self::Bytes(b)
    }
}

impl<'a> vstd::std_specs::convert::FromSpecImpl<&'a [u8]> for Input<'a> {
    open spec fn obeys_from_spec() -> bool {
        true
    }

    open spec fn from_spec(b: &'a [u8]) -> Self {
        Input::Bytes(b)
    }
}

impl Default for Input<'_> {
    /// The empty text.
    fn default() -> (r: Self)
        ensures
            r == Input::Str(""),
            r.bytes() == Seq::<u8>::empty(),
    {
        proof {
            reveal_strlit("");
        }
        Self::Str("")
    }
}

} // verus!

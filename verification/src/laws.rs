//! Laws of the machine and of the parser, stated over the step relation and
//! the grammar, and proved.

use crate::eval::eval_spec;
use crate::internals::{app, frame, quote, start, steps, Cont, Expr, Func, Task};
use crate::io::{read_char, IoState, STEP_LIMIT};
use crate::parse::grammar::{
    lemma_parse_show, next_token, parse_expr_spec, parse_spec, show, writable,
};
use crate::parse::{outcome, ParseErrorKind};
use crate::utf8::REPLACEMENT;
use crate::util::P;
use vstd::prelude::*;
use vstd::utf8::{encode_scalar, valid_utf8};

verus! {

/// Sink: applying `v` to any value delivers `v` and leaves the I/O state as
/// it was; nothing is written.
pub proof fn law_sink_absorbs(x: Func, k: P<Cont>, io: IoState)
    ensures
        Task::App(Func::V, x, k).step_spec(io) == (Some((*k.0).invoke_spec(Func::V)), io),
        steps(Task::Eval(app(quote(Func::V), quote(x)), k), io, 4) == (
            (*k.0).invoke_spec(Func::V),
            io,
        ),
{
    reveal_with_fuel(steps, 5);
}

/// Identity: applying `i` to any value delivers that value and leaves the
/// I/O state as it was.
pub proof fn law_identity(x: Func, k: P<Cont>, io: IoState)
    ensures
        Task::App(Func::I, x, k).step_spec(io) == (Some((*k.0).invoke_spec(x)), io),
        steps(Task::Eval(app(quote(Func::I), quote(x)), k), io, 4) == ((*k.0).invoke_spec(x), io),
{
    reveal_with_fuel(steps, 5);
}

/// Delay: evaluating the application of `d` to any expression `e` delivers
/// the promise that holds `e` as it stands. No step evaluates `e`, and the
/// I/O state stays as it was: once `d` is known to be the operator, the
/// operand is not evaluated but wrapped.
pub proof fn law_delay(e: P<Expr>, k: P<Cont>, io: IoState)
    ensures
        Task::App1(Func::D, e, k).step_spec(io) == (
            Some((*k.0).invoke_spec(Func::d1_spec(e))),
            io,
        ),
        steps(Task::Eval(app(quote(Func::D), e), k), io, 3) == (
            (*k.0).invoke_spec(Func::d1_spec(e)),
            io,
        ),
{
    reveal_with_fuel(steps, 4);
}

/// Force: evaluating the application of a delayed `e` to `i` comes to
/// evaluate `e`, under a continuation that applies what `e` yields to `i`.
pub proof fn law_force(e: P<Expr>, k: P<Cont>, io: IoState)
    ensures
        steps(Task::Eval(app(app(quote(Func::D), e), quote(Func::I)), k), io, 6) == (
            Task::Eval(e, frame(Cont::Del(Func::I, k))),
            io,
        ),
        forall|v: Func| #[trigger] Cont::Del(Func::I, k).invoke_spec(v) == Task::App(v, Func::I, k),
{
    reveal_with_fuel(steps, 8);
}

/// A captured continuation, applied to `x` anywhere, delivers `x` to the
/// place where it was captured; the continuation of the application is
/// dropped.
pub proof fn law_continuation_resumes(saved: P<Cont>, x: Func, k: P<Cont>, io: IoState)
    ensures
        Task::App(Func::C, x, k).step_spec(io) == (
            Some(Task::App(x, Func::cont_spec(k), k)),
            io,
        ),
        Task::App(Func::cont_spec(saved), x, k).step_spec(io) == (
            Some((*saved.0).invoke_spec(x)),
            io,
        ),
{
}

/// Call/cc round trip: `c` applied to the function that hands `x` to its
/// argument (`` ``si`kx ``) delivers `x`, as producing `x` directly does.
pub proof fn law_callcc_round_trip(x: Func, k: P<Cont>, io: IoState)
    ensures
        steps(
            Task::App(Func::C, Func::s2_spec(Func::I, Func::k1_spec(x)), k),
            io,
            12,
        ) == ((*k.0).invoke_spec(x), io),
{
    reveal_with_fuel(steps, 16);
}

/// The last-character register: `|` applied to `f` writes the character
/// that the latest read delivered and then delivers `f`; where no read has
/// delivered one, it writes nothing and delivers `v`.
pub proof fn law_pipe_prints_last_char(f: Func, k: P<Cont>, io: IoState)
    ensures
        io.last_char matches Some(c) ==> steps(Task::App(Func::Pipe, f, k), io, 2) == (
            (*k.0).invoke_spec(f),
            io.after_write(c),
        ),
        io.last_char is None ==> steps(Task::App(Func::Pipe, f, k), io, 2) == (
            (*k.0).invoke_spec(Func::V),
            io,
        ),
{
    reveal_with_fuel(steps, 3);
}

/// After `@` has been applied, `|` applied to `f` writes the character that
/// `@` read and delivers `f`; if `@` met the end of the input, it writes
/// nothing and delivers `v`.
pub proof fn law_pipe_after_read(g: Func, k: P<Cont>, f: Func, k2: P<Cont>, io: IoState)
    ensures
        ({
            let after = Task::App(Func::At, g, k).step_spec(io).1;
            match read_char(io.input).0 {
                Some(c) => steps(Task::App(Func::Pipe, f, k2), after, 2) == (
                    (*k2.0).invoke_spec(f),
                    after.after_write(c),
                ),
                None => steps(Task::App(Func::Pipe, f, k2), after, 2) == (
                    (*k2.0).invoke_spec(Func::V),
                    after,
                ),
            }
        }),
{
    law_pipe_prints_last_char(f, k2, io.after_read());
}

/// `@` applied to `g` reads one character: where the read delivers one, it
/// is the last character from then on and `g` is applied to `i`; at the end
/// of the input there is no last character and `g` is applied to `v`.
pub proof fn law_read_sets_last_char(g: Func, k: P<Cont>, io: IoState)
    ensures
        Task::App(Func::At, g, k).step_spec(io).1 == io.after_read(),
        io.after_read().last_char == read_char(io.input).0,
        io.after_read().output == io.output,
        read_char(io.input).0 is Some ==> Task::App(Func::At, g, k).step_spec(io).0 == Some(
            Task::App(g, Func::I, k),
        ),
        read_char(io.input).0 is None ==> Task::App(Func::At, g, k).step_spec(io).0 == Some(
            Task::App(g, Func::V, k),
        ),
        read_char(io.input).0 is None <==> io.input.len() == 0,
{
}

/// Only the application of `@` reads: every other step leaves the pending
/// input and the last character as they were.
pub proof fn law_only_read_changes_last_char(task: Task, io: IoState)
    requires
        !(task matches Task::App(Func::At, _, _)),
    ensures
        task.step_spec(io).1.last_char == io.last_char,
        task.step_spec(io).1.input == io.input,
{
}

/// Tolerance: a byte that can only continue a sequence, met where a
/// sequence should start, is read as U+FFFD. The read succeeds and consumes
/// that byte alone.
pub proof fn law_lone_continuation_byte(g: Func, k: P<Cont>, io: IoState)
    requires
        io.input.len() > 0,
        0x80 <= io.input[0] <= 0xbf,
    ensures
        read_char(io.input) == (Some(REPLACEMENT), 1nat),
        Task::App(Func::At, g, k).step_spec(io) == (
            Some(Task::App(g, Func::I, k)),
            IoState {
                input: io.input.skip(1),
                output: io.output,
                last_char: Some(REPLACEMENT),
            },
        ),
{
}

/// Input that goes on after a complete expression `e`, with `c` its first
/// token, is an error for a strict parse, reported at `c`; a lenient parse
/// returns `e`.
pub proof fn law_trailing_input(s: Seq<char>, e: P<Expr>, end: int, c: char, after: int)
    requires
        parse_expr_spec(s, 0) == Ok::<(P<Expr>, int), (ParseErrorKind, int)>((e, end)),
        next_token(s, end) == Some((c, after)),
    ensures
        parse_spec(s, true) == Err::<P<Expr>, (ParseErrorKind, int)>(
            (ParseErrorKind::UnexpectedChar(c), after),
        ),
        parse_spec(s, false) == Ok::<P<Expr>, (ParseErrorKind, int)>(e),
{
}

/// A machine that has halted stays as it is: more steps change nothing.
pub proof fn law_halted_stays(task: Task, io: IoState, n: nat, m: nat)
    requires
        steps(task, io, n).0 is Final,
        n <= m,
    ensures
        steps(task, io, m) == steps(task, io, n),
    decreases n,
{
    if n == 0 {
        reveal_with_fuel(steps, 2);
    } else {
        match task.step_spec(io) {
            (Some(next), io2) => {
                law_halted_stays(next, io2, (n - 1) as nat, (m - 1) as nat);
            },
            (None, _) => {},
        }
    }
}

/// Writing a character keeps well-formed output well formed.
pub proof fn law_write_keeps_utf8(io: IoState, c: char)
    requires
        valid_utf8(io.output),
    ensures
        valid_utf8(io.after_write(c).output),
{
    let one = seq![c];
    assert(one.drop_first() =~= Seq::<char>::empty());
    assert(vstd::utf8::encode_utf8(one.drop_first()) =~= Seq::<u8>::empty());
    assert(vstd::utf8::encode_utf8(one) =~= encode_scalar(c as u32));
    vstd::utf8::encode_utf8_valid_utf8(one);
    vstd::utf8::valid_utf8_concat(io.output, encode_scalar(c as u32));
}

/// The output is a sequence of encoded characters: if it was well-formed
/// UTF-8 before a run, it is so after any number of steps.
pub proof fn law_output_stays_utf8(task: Task, io: IoState, n: nat)
    requires
        valid_utf8(io.output),
    ensures
        valid_utf8(steps(task, io, n).1.output),
    decreases n,
{
    if n > 0 {
        match task.step_spec(io) {
            (Some(next), io2) => {
                assert(valid_utf8(io2.output)) by {
                    match task {
                        Task::App(Func::R, _, _) => {
                            law_write_keeps_utf8(io, '\n');
                        },
                        Task::App(Func::Dot(c), _, _) => {
                            law_write_keeps_utf8(io, c);
                        },
                        _ => {},
                    }
                }
                law_output_stays_utf8(next, io2, (n - 1) as nat);
            },
            (None, _) => {},
        }
    }
}

/// What a program writes is the encoding of the characters it printed, so
/// it is well-formed UTF-8.
pub proof fn law_eval_output_is_utf8(source: Seq<char>, input: Seq<u8>)
    ensures
        eval_spec(source, input) matches Ok(bytes) ==> valid_utf8(bytes),
{
    match outcome(source, false, None) {
        Ok(expr) => {
            law_output_stays_utf8(
                start(expr),
                IoState { input, output: Seq::empty(), last_char: None },
                STEP_LIMIT as nat,
            );
        },
        Err(_) => {},
    }
}

/// Round trip: the source of a writable expression parses to that
/// expression, strictly or not.
pub proof fn law_parse_show(e: P<Expr>, strict: bool)
    requires
        writable(e),
    ensures
        parse_spec(show(e), strict) == Ok::<P<Expr>, (ParseErrorKind, int)>(e),
{
    let s = show(e);
    assert(s.subrange(0, s.len() as int) =~= s);
    lemma_parse_show(e, s, 0);
}

} // verus!

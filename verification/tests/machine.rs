use unlambda::eval::Error;
use unlambda::internals::{Cont, Expr, Func, OpFunc, Task};
use unlambda::io::{Ctx, Output, STEP_LIMIT};
use unlambda::util::p;
use unlambda::{eval_to_string, eval_to_vec, Input, P};

fn ctx(input: &[u8]) -> Ctx {
    Ctx::new(input.to_vec(), Output::from(Vec::new()))
}

fn output(ctx: Ctx) -> Vec<u8> {
    ctx.into_output().into_bytes()
}

fn lit(f: Func) -> P<Expr> {
    P::new(Expr::Func(f))
}

fn apply(operator: P<Expr>, operand: P<Expr>) -> P<Expr> {
    P::new(Expr::App(operator, operand))
}

fn done() -> P<Cont> {
    P::new(Cont::Final)
}

/// A continuation that is not the end: it applies `k` to what it is given.
fn pending() -> P<Cont> {
    P::new(Cont::App(Func::K, done()))
}

fn step(task: Task, ctx: &mut Ctx) -> Task {
    match task.run(ctx) {
        Ok(Some(next)) => next,
        other => panic!("the machine stopped: {:?}", other),
    }
}

fn print_star() -> P<Expr> {
    apply(lit(Func::Dot('*')), lit(Func::I))
}

#[test]
fn constructors_box_their_operands() {
    assert_eq!(Func::k1(Func::I), Func::Op(Box::new(OpFunc::K1(Func::I))));
    assert_eq!(Func::s1(Func::K), Func::Op(Box::new(OpFunc::S1(Func::K))));
    assert_eq!(Func::s2(Func::K, Func::V), Func::Op(Box::new(OpFunc::S2(Func::K, Func::V))));
    assert_eq!(Func::cont(done()), Func::Op(Box::new(OpFunc::Cont(done()))));
    assert_eq!(Func::d1(lit(Func::S)), Func::Op(Box::new(OpFunc::D1(lit(Func::S)))));
    assert_ne!(Func::k1(Func::I), Func::s1(Func::I));
}

#[test]
fn shared_nodes_are_equal_and_shared() {
    let a = p(Expr::Func(Func::Dot('x')));
    let b = a.clone();
    assert_eq!(a, b);
    assert!(std::rc::Rc::ptr_eq(&a.0, &b.0));
    assert_eq!(*a, Expr::Func(Func::Dot('x')));
    assert_eq!(*P::new(7u32), 7);
}

#[test]
fn invoke_dispatches_on_the_frame() {
    let e = lit(Func::S);
    assert_eq!(
        Cont::App1(e.clone(), done()).invoke(Func::K),
        Task::App1(Func::K, e, done())
    );
    assert_eq!(
        Cont::App(Func::S, done()).invoke(Func::K),
        Task::App(Func::S, Func::K, done())
    );
    assert_eq!(
        Cont::Del(Func::S, done()).invoke(Func::K),
        Task::App(Func::K, Func::S, done())
    );
    assert_eq!(Cont::Final.invoke(Func::K), Task::Final);
}

#[test]
fn eval_of_a_value_delivers_it() {
    assert_eq!(
        Expr::Func(Func::K).eval(pending()),
        Task::App(Func::K, Func::K, done())
    );
}

#[test]
fn eval_of_an_application_takes_the_operator_first() {
    let operator = lit(Func::S);
    let operand = lit(Func::K);
    assert_eq!(
        Expr::App(operator.clone(), operand.clone()).eval(done()),
        Task::Eval(operator, P::new(Cont::App1(operand, done())))
    );
}

#[test]
fn final_task_has_no_successor() {
    let mut c = ctx(b"");
    assert!(matches!(Task::Final.run(&mut c), Ok(None)));
}

#[test]
fn app1_evaluates_the_operand_under_an_apply_frame() {
    let mut c = ctx(b"");
    let operand = apply(lit(Func::I), lit(Func::K));
    let next = step(Task::App1(Func::S, operand, done()), &mut c);
    assert_eq!(
        next,
        Task::Eval(lit(Func::I), P::new(Cont::App1(lit(Func::K), P::new(Cont::App(Func::S, done())))))
    );
}

#[test]
fn sink_absorbs_and_writes_nothing() {
    let mut c = ctx(b"abc");
    let next = step(Task::App(Func::V, Func::Dot('*'), pending()), &mut c);
    assert_eq!(next, Task::App(Func::K, Func::V, done()));
    assert_eq!(output(c), b"");
    assert_eq!(eval_to_string("``v.*i", Input::Str("")).unwrap(), "");
}

#[test]
fn identity_delivers_its_operand() {
    let mut c = ctx(b"");
    let next = step(Task::App(Func::I, Func::Dot('*'), pending()), &mut c);
    assert_eq!(next, Task::App(Func::K, Func::Dot('*'), done()));
    assert_eq!(output(c), b"");
    assert_eq!(eval_to_string("``i.*i", Input::Str("")).unwrap(), "*");
}

#[test]
fn exit_ends_the_program() {
    let mut c = ctx(b"");
    let next = step(Task::App(Func::E, Func::I, pending()), &mut c);
    assert_eq!(next, Task::Final);
    assert_eq!(eval_to_string("`.a`ei`.bi", Input::Str("")).unwrap(), "");
    assert_eq!(eval_to_string("``.ai`e`.bi", Input::Str("")).unwrap(), "ab");
    assert_eq!(eval_to_string("`.c``.ai`ei", Input::Str("")).unwrap(), "a");
}

#[test]
fn k_and_s_build_partial_applications() {
    let mut c = ctx(b"");
    assert_eq!(
        step(Task::App(Func::K, Func::I, pending()), &mut c),
        Task::App(Func::K, Func::k1(Func::I), done())
    );
    assert_eq!(
        step(Task::App(Func::S, Func::I, pending()), &mut c),
        Task::App(Func::K, Func::s1(Func::I), done())
    );
    assert_eq!(
        step(Task::App(Func::s1(Func::I), Func::V, pending()), &mut c),
        Task::App(Func::K, Func::s2(Func::I, Func::V), done())
    );
    assert_eq!(
        step(Task::App(Func::k1(Func::S), Func::V, pending()), &mut c),
        Task::App(Func::K, Func::S, done())
    );
}

#[test]
fn s2_builds_the_two_applications() {
    let mut c = ctx(b"");
    let next = step(Task::App(Func::s2(Func::K, Func::I), Func::V, done()), &mut c);
    let z = lit(Func::V);
    assert_eq!(
        next,
        Task::Eval(
            apply(apply(lit(Func::K), z.clone()), apply(lit(Func::I), z)),
            done()
        )
    );
    match next {
        Task::Eval(e, _) => match &*e {
            Expr::App(left, right) => match (&**left, &**right) {
                (Expr::App(_, z1), Expr::App(_, z2)) => assert!(std::rc::Rc::ptr_eq(&z1.0, &z2.0)),
                _ => panic!("not two applications"),
            },
            _ => panic!("not an application"),
        },
        _ => panic!("not an evaluation"),
    }
}

#[test]
fn d_applied_as_a_value_wraps_the_operand() {
    let mut c = ctx(b"");
    assert_eq!(
        step(Task::App(Func::D, Func::K, pending()), &mut c),
        Task::App(Func::K, Func::d1(lit(Func::K)), done())
    );
}

#[test]
fn delay_does_not_evaluate_its_operand() {
    let mut c = ctx(b"");
    let e = print_star();
    let mut task = Task::Eval(apply(lit(Func::D), e.clone()), pending());
    for _ in 0..3 {
        task = step(task, &mut c);
    }
    assert_eq!(task, Task::App(Func::K, Func::d1(e), done()));
    assert_eq!(output(c), b"");
    assert_eq!(eval_to_string("`d`.*i", Input::Str("")).unwrap(), "");
}

#[test]
fn forcing_evaluates_the_promise_then_applies() {
    let mut c = ctx(b"");
    let e = print_star();
    let mut task = Task::Eval(apply(apply(lit(Func::D), e.clone()), lit(Func::I)), done());
    for _ in 0..6 {
        task = step(task, &mut c);
    }
    assert_eq!(task, Task::Eval(e, P::new(Cont::Del(Func::I, done()))));
    assert_eq!(eval_to_string("``d`.*ii", Input::Str("")).unwrap(), "*");
    assert_eq!(eval_to_string("``d`.*i.+", Input::Str("")).unwrap(), "*");
    assert_eq!(eval_to_string("```d`.*i.+i", Input::Str("")).unwrap(), "*+");
}

#[test]
fn forcing_a_promise_pushes_a_del_frame() {
    let mut c = ctx(b"");
    let e = print_star();
    assert_eq!(
        step(Task::App(Func::d1(e.clone()), Func::K, done()), &mut c),
        Task::Eval(e, P::new(Cont::Del(Func::K, done())))
    );
}

#[test]
fn callcc_hands_over_the_current_continuation() {
    let mut c = ctx(b"");
    let k = pending();
    assert_eq!(
        step(Task::App(Func::C, Func::I, k.clone()), &mut c),
        Task::App(Func::I, Func::cont(k.clone()), k)
    );
}

#[test]
fn a_continuation_resumes_where_it_was_captured() {
    let mut c = ctx(b"");
    let saved = pending();
    assert_eq!(
        step(Task::App(Func::cont(saved), Func::S, done()), &mut c),
        Task::App(Func::K, Func::S, done())
    );
}

#[test]
fn callcc_round_trip() {
    let mut c = ctx(b"");
    let x = Func::Dot('x');
    let mut task = Task::App(Func::C, Func::s2(Func::I, Func::k1(x.clone())), pending());
    for _ in 0..12 {
        task = step(task, &mut c);
    }
    assert_eq!(task, Task::App(Func::K, x, done()));
    assert_eq!(output(c), b"");
    assert_eq!(eval_to_string("``c``si`k.*i", Input::Str("")).unwrap(), "*");
    assert_eq!(eval_to_string("`.*i", Input::Str("")).unwrap(), "*");
    assert_eq!(eval_to_string("``cii", Input::Str("")).unwrap(), "");
}

#[test]
fn dot_and_r_write_and_deliver_the_operand() {
    let mut c = ctx(b"");
    assert_eq!(
        step(Task::App(Func::Dot('é'), Func::S, pending()), &mut c),
        Task::App(Func::K, Func::S, done())
    );
    assert_eq!(
        step(Task::App(Func::R, Func::V, pending()), &mut c),
        Task::App(Func::K, Func::V, done())
    );
    assert_eq!(output(c), "é\n".as_bytes());
}

#[test]
fn read_selects_i_or_v() {
    let mut c = ctx(b"a");
    assert_eq!(
        step(Task::App(Func::At, Func::S, done()), &mut c),
        Task::App(Func::S, Func::I, done())
    );
    assert_eq!(
        step(Task::App(Func::At, Func::S, done()), &mut c),
        Task::App(Func::S, Func::V, done())
    );
    assert_eq!(output(c), b"");
}

#[test]
fn pipe_prints_the_last_character_read() {
    let mut c = ctx(b"ab");
    assert_eq!(
        step(Task::App(Func::Pipe, Func::S, done()), &mut c),
        Task::App(Func::V, Func::S, done())
    );
    step(Task::App(Func::At, Func::I, done()), &mut c);
    assert_eq!(
        step(Task::App(Func::Pipe, Func::S, done()), &mut c),
        Task::App(Func::Dot('a'), Func::S, done())
    );
    step(Task::App(Func::At, Func::I, done()), &mut c);
    step(Task::App(Func::At, Func::I, done()), &mut c);
    assert_eq!(
        step(Task::App(Func::Pipe, Func::S, done()), &mut c),
        Task::App(Func::V, Func::S, done())
    );
    assert_eq!(eval_to_string("``@i`|i", Input::Str("xyz")).unwrap(), "x");
    assert_eq!(eval_to_string("``@i`|i", Input::Str("")).unwrap(), "");
    assert_eq!(eval_to_string("`|i", Input::Str("xyz")).unwrap(), "");
    assert_eq!(eval_to_string("``@i``@i`|i", Input::Str("xyz")).unwrap(), "y");
    assert_eq!(eval_to_string("``@i``@i`|i", Input::Str("x")).unwrap(), "");
}

#[test]
fn question_compares_with_the_last_character_read() {
    let mut c = ctx(b"a");
    assert_eq!(
        step(Task::App(Func::Q('a'), Func::S, done()), &mut c),
        Task::App(Func::V, Func::S, done())
    );
    step(Task::App(Func::At, Func::I, done()), &mut c);
    assert_eq!(
        step(Task::App(Func::Q('a'), Func::S, done()), &mut c),
        Task::App(Func::I, Func::S, done())
    );
    assert_eq!(
        step(Task::App(Func::Q('b'), Func::S, done()), &mut c),
        Task::App(Func::V, Func::S, done())
    );
    assert_eq!(eval_to_string("``@i```?ai.yi", Input::Str("a")).unwrap(), "y");
    assert_eq!(eval_to_string("``@i```?ai.yi", Input::Str("b")).unwrap(), "");
    assert_eq!(eval_to_string("```?ai.yi", Input::Str("a")).unwrap(), "");
}

#[test]
fn scenarios_of_promises() {
    assert_eq!(eval_to_string("`r`.*i", Input::Str("")).unwrap(), "*\n");
    assert_eq!(eval_to_string("`r`d`.*i", Input::Str("")).unwrap(), "\n");
    assert_eq!(eval_to_string("`r``dd`.*i", Input::Str("")).unwrap(), "*\n");
}

#[test]
fn run_for_stops_at_the_limit() {
    let omega = unlambda::parse_from_str("```sii``sii", Default::default()).unwrap();
    let mut c = ctx(b"");
    let task = c.run_for(Task::Eval(omega, done()), 10_000).unwrap();
    assert_ne!(task, Task::Final);
    assert_eq!(output(c), b"");
}

#[test]
fn run_for_counts_steps() {
    let mut c = ctx(b"");
    let e = print_star();
    let start = Task::Eval(apply(lit(Func::I), e.clone()), done());
    assert_eq!(c.run_for(start.clone(), 0).unwrap(), start);
    let after2 = c.run_for(start.clone(), 2).unwrap();
    assert_eq!(after2, Task::App1(Func::I, e, done()));
    let mut c = ctx(b"");
    assert_eq!(c.run_for(start.clone(), 7).unwrap(), Task::Final);
    assert_eq!(output(c), b"*");
    let mut c = ctx(b"");
    assert_eq!(c.run_for(start, 1_000_000).unwrap(), Task::Final);
    assert_eq!(output(c), b"*");
}

#[test]
fn the_example_of_the_crate() {
    assert_eq!(eval_to_string("`.!`.i`.Hi", Input::default()).unwrap(), "Hi!");
}

#[test]
fn execute_runs_to_the_end() {
    let mut c = ctx(b"");
    assert!(matches!(c.execute(print_star()), Ok(())));
    assert_eq!(output(c), b"*");
    assert_eq!(STEP_LIMIT, u64::MAX);
}

#[test]
fn deep_nesting_runs_in_constant_stack() {
    let n = 200_000;
    let mut e = print_star();
    for _ in 0..n {
        e = apply(e, lit(Func::I));
    }
    let mut c = ctx(b"");
    assert!(matches!(c.execute(e), Ok(())));
    assert_eq!(output(c), b"*");

    let mut e = print_star();
    for _ in 0..n {
        e = apply(lit(Func::I), e);
    }
    let mut c = ctx(b"");
    assert!(matches!(c.execute(e), Ok(())));
    assert_eq!(output(c), b"*");
}

#[test]
fn a_parse_error_is_an_evaluation_error() {
    match eval_to_vec("`i", Input::Str("")) {
        Err(Error::Parse(e)) => {
            assert!(e.is_eof());
            assert_eq!(e.line_col(), (1, 3));
        }
        other => panic!("expected a parse error, got {:?}", other),
    }
    match eval_to_string("q", Input::Str("")) {
        Err(e) => assert_eq!(e.to_string(), "unexpected character 'q' at line 1, column 2"),
        Ok(s) => panic!("expected a parse error, got {:?}", s),
    }
}

#[test]
fn trailing_input_does_not_stop_an_evaluation() {
    assert_eq!(eval_to_string("`.ai `.bi", Input::Str("")).unwrap(), "a");
}

#[test]
fn evaluation_error_texts() {
    assert_eq!(
        Error::StepLimit.to_string(),
        "the program did not halt within the step limit"
    );
    let io = unlambda::io::IoError { unexpected_eof: false, message: String::from("broken pipe") };
    assert_eq!(Error::from(io).to_string(), "broken pipe");
    let pe = unlambda::parse_from_str("", Default::default()).unwrap_err();
    assert_eq!(Error::from(pe).to_string(), "unexpected end of input at line 1, column 1");
}

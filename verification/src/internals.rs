//! The abstract machine: values, expressions, continuations and the step
//! relation between tasks.

use crate::eval::Error;
use crate::io::{Ctx, IoState, read_char};
use crate::util::{p, P};
use std::rc::Rc;
use vstd::prelude::*;

verus! {

/// A run-time value.
#[derive(Debug, PartialEq)]
pub enum Func {
    /// Absorbs its operand and yields itself.
    V,
    /// Identity.
    I,
    /// Ends the program.
    E,
    /// Call with current continuation.
    C,
    /// Delays the evaluation of its operand.
    D,
    /// Reads the next input character.
    At,
    /// Prints the last character read.
    Pipe,
    /// Prints a newline.
    R,
    K,
    S,
    /// Prints its character.
    Dot(char),
    /// Tests the last character read against its character.
    Q(char),
    /// A partially applied operator.
    Op(Box<OpFunc>),
}

/// The partially applied operators.
#[derive(Debug, PartialEq)]
pub enum OpFunc {
    /// `k` applied to one value.
    K1(Func),
    /// `s` applied to one value.
    S1(Func),
    /// `s` applied to two values.
    S2(Func, Func),
    /// A continuation captured by `c`.
    Cont(P<Cont>),
    /// A promise: an expression whose evaluation `d` has delayed.
    D1(P<Expr>),
}

/// A program.
#[derive(Debug, PartialEq)]
pub enum Expr {
    Func(Func),
    /// `(operator, operand)`
    App(P<Expr>, P<Expr>),
}

/// What remains to be done with a value once it is known.
#[derive(Debug, PartialEq)]
pub enum Cont {
    /// `(operand, cont)`: the value is an operator; its operand is still an
    /// expression.
    App1(P<Expr>, P<Cont>),
    /// `(operator, cont)`: the value is the operand of `operator`.
    App(Func, P<Cont>),
    /// `(operand, cont)`: the value is what a forced promise yielded; it is
    /// applied to `operand`.
    Del(Func, P<Cont>),
    /// The value is the result of the program.
    Final,
}

/// The machine's register: the work of the next step.
#[derive(Debug, PartialEq)]
pub enum Task {
    /// Evaluate the expression.
    Eval(P<Expr>, P<Cont>),
    /// `(operator, operand, cont)`: the operator is known, the operand is
    /// still an expression.
    App1(Func, P<Expr>, P<Cont>),
    /// `(operator, operand, cont)`: apply the operator to the operand.
    App(Func, Func, P<Cont>),
    /// Nothing is left to do.
    Final,
}

impl Clone for Func {
    fn clone(&self) -> (r: Self)
        ensures
            r == *self,
        decreases self,
    {
        match self {
            Func::V => Func::V,
            Func::I => Func::I,
            Func::E => Func::E,
            Func::C => Func::C,
            Func::D => Func::D,
            Func::At => Func::At,
            Func::Pipe => Func::Pipe,
            Func::R => Func::R,
            Func::K => Func::K,
            Func::S => Func::S,
            Func::Dot(c) => Func::Dot(*c),
            Func::Q(c) => Func::Q(*c),
            Func::Op(o) => Func::Op(Box::new((&**o).clone())),
        }
    }
}

impl Clone for OpFunc {
    fn clone(&self) -> (r: Self)
        ensures
            r == *self,
        decreases self,
    {
        match self {
            OpFunc::K1(v) => OpFunc::K1(v.clone()),
            OpFunc::S1(x) => OpFunc::S1(x.clone()),
            OpFunc::S2(x, y) => OpFunc::S2(x.clone(), y.clone()),
            OpFunc::Cont(c) => OpFunc::Cont(c.clone()),
            OpFunc::D1(e) => OpFunc::D1(e.clone()),
        }
    }
}

impl Clone for Expr {
    fn clone(&self) -> (r: Self)
        ensures
            r == *self,
    {
        match self {
            Expr::Func(f) => Expr::Func(f.clone()),
            Expr::App(operator, operand) => Expr::App(operator.clone(), operand.clone()),
        }
    }
}

impl Clone for Cont {
    fn clone(&self) -> (r: Self)
        ensures
            r == *self,
    {
        match self {
            Cont::App1(operand, cont) => Cont::App1(operand.clone(), cont.clone()),
            Cont::App(operator, cont) => Cont::App(operator.clone(), cont.clone()),
            Cont::Del(operand, cont) => Cont::Del(operand.clone(), cont.clone()),
            Cont::Final => Cont::Final,
        }
    }
}

impl Clone for Task {
    fn clone(&self) -> (r: Self)
        ensures
            r == *self,
    {
        match self {
            Task::Eval(expr, cont) => Task::Eval(expr.clone(), cont.clone()),
            Task::App1(operator, operand, cont) => Task::App1(
                operator.clone(),
                operand.clone(),
                cont.clone(),
            ),
            Task::App(operator, operand, cont) => Task::App(
                operator.clone(),
                operand.clone(),
                cont.clone(),
            ),
            Task::Final => Task::Final,
        }
    }
}

impl Func {
    /// `k` applied to `o`.
    pub open spec fn k1_spec(o: Func) -> Func {
        Func::Op(Box::new(OpFunc::K1(o)))
    }

    /// `s` applied to `x`.
    pub open spec fn s1_spec(x: Func) -> Func {
        Func::Op(Box::new(OpFunc::S1(x)))
    }

    /// `s` applied to `x`, then to `y`.
    pub open spec fn s2_spec(x: Func, y: Func) -> Func {
        Func::Op(Box::new(OpFunc::S2(x, y)))
    }

    /// The continuation `c` as a value.
    pub open spec fn cont_spec(c: P<Cont>) -> Func {
        Func::Op(Box::new(OpFunc::Cont(c)))
    }

    /// The promise to evaluate `v`.
    pub open spec fn d1_spec(v: P<Expr>) -> Func {
        Func::Op(Box::new(OpFunc::D1(v)))
    }

    pub fn k1(o: Func) -> (r: Self)
        ensures
            r == Func::k1_spec(o),
    {
        Self::Op(Box::new(OpFunc::K1(o)))
    }

    pub fn s1(x: Func) -> (r: Self)
        ensures
            r == Func::s1_spec(x),
    {
        Self::Op(Box::new(OpFunc::S1(x)))
    }

    pub fn s2(x: Func, y: Func) -> (r: Self)
        ensures
            r == Func::s2_spec(x, y),
    {
        Self::Op(Box::new(OpFunc::S2(x, y)))
    }

    pub fn cont(c: P<Cont>) -> (r: Self)
        ensures
            r == Func::cont_spec(c),
    {
        Self::Op(Box::new(OpFunc::Cont(c)))
    }

    pub fn d1(v: P<Expr>) -> (r: Self)
        ensures
            r == Func::d1_spec(v),
    {
        Self::Op(Box::new(OpFunc::D1(v)))
    }
}

/// The value as an expression.
pub open spec fn quote(f: Func) -> P<Expr> {
    P(Rc::new(Expr::Func(f)))
}

/// The application of `operator` to `operand`.
pub open spec fn app(operator: P<Expr>, operand: P<Expr>) -> P<Expr> {
    P(Rc::new(Expr::App(operator, operand)))
}

/// The continuation `c` as a shared node.
pub open spec fn frame(c: Cont) -> P<Cont> {
    P(Rc::new(c))
}

impl Cont {
    /// The task that follows when `val` is delivered to this continuation.
    pub open spec fn invoke_spec(self, val: Func) -> Task {
        match self {
            Cont::App1(operand, cont) => Task::App1(val, operand, cont),
            Cont::App(operator, cont) => Task::App(operator, val, cont),
            Cont::Del(operand, cont) => Task::App(val, operand, cont),
            Cont::Final => Task::Final,
        }
    }

    pub fn invoke(&self, val: Func) -> (t: Task)
        ensures
            t == self.invoke_spec(val),
    {
        match self {
            Self::App1(operand, cont) => Task::App1(val, operand.clone(), cont.clone()),
            Self::App(operator, cont) => Task::App(operator.clone(), val, cont.clone()),
            Self::Del(operand, cont) => Task::App(val, operand.clone(), cont.clone()),
            Self::Final => Task::Final,
        }
    }
}

impl Expr {
    /// The task that follows when this expression is to be evaluated under
    /// `cont`: a value is delivered; of an application the operator comes
    /// first, and the operand waits in a new frame.
    pub open spec fn eval_spec(self, cont: P<Cont>) -> Task {
        match self {
            Expr::Func(f) => (*cont.0).invoke_spec(f),
            Expr::App(operator, operand) => Task::Eval(operator, frame(Cont::App1(operand, cont))),
        }
    }

    pub fn eval(self, cont: P<Cont>) -> (t: Task)
        ensures
            t == self.eval_spec(cont),
    {
        match self {
            Self::Func(f) => cont.invoke(f),
            Self::App(operator, operand) => Task::Eval(operator, p(Cont::App1(operand, cont))),
        }
    }
}

impl Func {
    /// The task that follows when this value is applied to `operand` under
    /// `cont`, and the I/O state after it.
    pub open spec fn apply_spec(self, io: IoState, operand: Func, cont: P<Cont>) -> (
        Task,
        IoState,
    ) {
        match self {
            Func::V => ((*cont.0).invoke_spec(Func::V), io),
            Func::I => ((*cont.0).invoke_spec(operand), io),
            Func::E => (Task::Final, io),
            Func::C => (Task::App(operand, Func::cont_spec(cont), cont), io),
            Func::R => ((*cont.0).invoke_spec(operand), io.after_write('\n')),
            Func::D => ((*cont.0).invoke_spec(Func::d1_spec(quote(operand))), io),
            Func::At => (
                Task::App(
                    operand,
                    if read_char(io.input).0 is Some {
                        Func::I
                    } else {
                        Func::V
                    },
                    cont,
                ),
                io.after_read(),
            ),
            Func::Pipe => (
                Task::App(
                    match io.last_char {
                        Some(c) => Func::Dot(c),
                        None => Func::V,
                    },
                    operand,
                    cont,
                ),
                io,
            ),
            Func::Dot(c) => ((*cont.0).invoke_spec(operand), io.after_write(c)),
            Func::Q(ch) => (
                Task::App(
                    if io.last_char == Some(ch) {
                        Func::I
                    } else {
                        Func::V
                    },
                    operand,
                    cont,
                ),
                io,
            ),
            Func::S => ((*cont.0).invoke_spec(Func::s1_spec(operand)), io),
            Func::K => ((*cont.0).invoke_spec(Func::k1_spec(operand)), io),
            Func::Op(o) => match *o {
                OpFunc::K1(v) => ((*cont.0).invoke_spec(v), io),
                OpFunc::S1(x) => ((*cont.0).invoke_spec(Func::s2_spec(x, operand)), io),
                OpFunc::S2(x, y) => (
                    Task::Eval(
                        app(app(quote(x), quote(operand)), app(quote(y), quote(operand))),
                        cont,
                    ),
                    io,
                ),
                OpFunc::Cont(c) => ((*c.0).invoke_spec(operand), io),
                OpFunc::D1(promise) => (Task::Eval(promise, frame(Cont::Del(operand, cont))), io),
            },
        }
    }

    /// Applies this value to `operand` under `cont`.
    pub fn apply_to(self, ctx: &mut Ctx, operand: Func, cont: P<Cont>) -> (r: Result<Task, Error>)
        ensures
            r == Ok::<Task, Error>(self.apply_spec(old(ctx)@, operand, cont).0),
            final(ctx)@ == self.apply_spec(old(ctx)@, operand, cont).1,
    {
        Ok(
            match self {
                Self::V => cont.invoke(self),
                Self::I => cont.invoke(operand),
                Self::E => Task::Final,
                Self::C => Task::App(operand, Func::cont(cont.clone()), cont),
                Self::R => {
                    ctx.putc('\n');
                    cont.invoke(operand)
                },
                Self::D => cont.invoke(Func::d1(p(Expr::Func(operand)))),
                Self::At => {
                    let f = if ctx.getc().is_some() {
                        Func::I
                    } else {
                        Func::V
                    };
                    Task::App(operand, f, cont)
                },
                Self::Pipe => {
                    let f = if let Some(c) = ctx.last_char() {
                        Func::Dot(c)
                    } else {
                        Func::V
                    };
                    Task::App(f, operand, cont)
                },
                Self::Dot(c) => {
                    ctx.putc(c);
                    cont.invoke(operand)
                },
                Self::Q(ch) => {
                    let f = match ctx.last_char() {
                        Some(c) => if c == ch {
                            Func::I
                        } else {
                            Func::V
                        },
                        None => Func::V,
                    };
                    Task::App(f, operand, cont)
                },
                Self::S => cont.invoke(Func::s1(operand)),
                Self::K => cont.invoke(Func::k1(operand)),
                Self::Op(o) => match *o {
                    OpFunc::K1(v) => cont.invoke(v),
                    OpFunc::S1(x) => cont.invoke(Func::s2(x, operand)),
                    OpFunc::S2(x, y) => {
                        let operand = p(Expr::Func(operand));
                        Task::Eval(
                            p(
                                Expr::App(
                                    p(Expr::App(p(Expr::Func(x)), operand.clone())),
                                    p(Expr::App(p(Expr::Func(y)), operand)),
                                ),
                            ),
                            cont,
                        )
                    },
                    OpFunc::Cont(c) => c.invoke(operand),
                    OpFunc::D1(promise) => {
                        let cont = Cont::Del(operand, cont);
                        Task::Eval(promise, p(cont))
                    },
                },
            },
        )
    }
}

impl Task {
    /// One step of the machine: the task that follows, if any, and the I/O
    /// state after the step.
    pub open spec fn step_spec(self, io: IoState) -> (Option<Task>, IoState) {
        match self {
            Task::Eval(expr, cont) => (Some((*expr.0).eval_spec(cont)), io),
            Task::App1(operator, operand, cont) => if operator is D {
                (Some((*cont.0).invoke_spec(Func::d1_spec(operand))), io)
            } else {
                (Some((*operand.0).eval_spec(frame(Cont::App(operator, cont)))), io)
            },
            Task::App(operator, operand, cont) => {
                let (t, io2) = operator.apply_spec(io, operand, cont);
                (Some(t), io2)
            },
            Task::Final => (None, io),
        }
    }

    /// Performs one step.
    pub fn run(self, ctx: &mut Ctx) -> (r: Result<Option<Task>, Error>)
        ensures
            r == Ok::<Option<Task>, Error>(self.step_spec(old(ctx)@).0),
            final(ctx)@ == self.step_spec(old(ctx)@).1,
    {
        match self {
            Self::Eval(expr, cont) => Ok(Some((&*expr).clone().eval(cont))),
            Self::App1(Func::D, operand, cont) => Ok(Some(cont.invoke(Func::d1(operand)))),
            Self::App1(operator, operand, cont) => {
                Ok(Some((&*operand).clone().eval(p(Cont::App(operator, cont)))))
            },
            Self::App(operator, operand, cont) => {
                match operator.apply_to(ctx, operand, cont) {
                    Ok(t) => Ok(Some(t)),
                    Err(e) => Err(e),
                }
            },
            Self::Final => Ok(None),
        }
    }
}

/// The task that starts the evaluation of `expr` as a whole program.
pub open spec fn start(expr: P<Expr>) -> Task {
    Task::Eval(expr, frame(Cont::Final))
}

/// The task and the I/O state that the machine reaches from `task` in `io`
/// after `n` steps, or when it halts if that happens earlier.
pub open spec fn steps(task: Task, io: IoState, n: nat) -> (Task, IoState)
    decreases n,
{
    if n == 0 {
        (task, io)
    } else {
        match task.step_spec(io) {
            (Some(next), io2) => steps(next, io2, (n - 1) as nat),
            (None, _) => (task, io),
        }
    }
}

} // verus!

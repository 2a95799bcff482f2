use vstd::prelude::*;

use crate::env::{bind, env_view, find};
use crate::err::VMError;
use crate::instruction::{Instruction, Op};
use crate::memloc::MemLoc;
use crate::program::Program;
use crate::text::{decimal, push_decimal};
use crate::vobj::{
    arith, arith_result, cmp_result, compare, eq_result, ArithOp, CmpOp, FloatOrder, FloatUnit,
    Vobj,
};

verus! {

/// The part of an engine's state that execution changes: the operand stack
/// (its last element is the top, the accumulator), the variables, and the
/// index of the next instruction.
pub struct Machine {
    pub stack: Seq<Vobj>,
    pub vars: Map<Seq<char>, Vobj>,
    pub pc: nat,
}

/// What one instruction does: move to a new state, or fault and leave the
/// state as it was.
pub enum Step {
    Next(Machine),
    Fault(VMError),
}

/// The test that a conditional branch makes of the two topmost values.
#[derive(Debug, Clone, Copy, PartialEq, Eq, Structural)]
pub enum Cond {
    Eq,
    Ne,
    Order(CmpOp),
}

/// The numeric kind that a location operand must hold.
#[derive(Debug, Clone, Copy, PartialEq, Eq, Structural)]
pub enum NumKind {
    Int,
    Double,
}

pub open spec fn fits_kind(v: Vobj, kind: NumKind) -> bool {
    match kind {
        NumKind::Int => v is Int,
        NumKind::Double => v is Double,
    }
}

impl Machine {
    /// Moves on to the next instruction with `stack` as the new stack.
    pub open spec fn advance(self, stack: Seq<Vobj>) -> Step {
        Step::Next(Machine { stack, pc: self.pc + 1, ..self })
    }
}

/// The value a location holds: constants and variables are looked up in
/// their own tables.
pub open spec fn resolve(
    consts: Map<Seq<char>, Vobj>,
    vars: Map<Seq<char>, Vobj>,
    loc: MemLoc,
) -> Option<Vobj> {
    let table = match loc {
        MemLoc::Const(_) => consts,
        MemLoc::Var(_) => vars,
    };
    if table.contains_key(loc.name()) {
        Some(table[loc.name()])
    } else {
        None
    }
}

/// `Add`, `Sub`, `Mul`, `Div`: the two topmost values are replaced by
/// `second op top`.
pub open spec fn stack_arith_step(m: Machine, op: ArithOp, d: u64) -> Step {
    let n = m.stack.len();
    if n < 2 {
        Step::Fault(VMError::MissingOperandErr)
    } else {
        match arith_result(op, m.stack[n - 2], m.stack[n - 1], d) {
            Ok(v) => m.advance(m.stack.take(n - 2).push(v)),
            Err(e) => Step::Fault(e),
        }
    }
}

/// `LoadW`: the location's value is pushed.
pub open spec fn fetch_step(consts: Map<Seq<char>, Vobj>, m: Machine, loc: MemLoc) -> Step {
    match resolve(consts, m.vars, loc) {
        Some(v) => m.advance(m.stack.push(v)),
        None => Step::Fault(VMError::LookupErr),
    }
}

/// `LoadWV`: the top of the stack is copied into a variable.
pub open spec fn store_step(m: Machine, loc: MemLoc) -> Step {
    if loc is Const {
        Step::Fault(VMError::KindMismatchErr)
    } else if m.stack.len() == 0 {
        Step::Fault(VMError::MissingOperandErr)
    } else {
        Step::Next(Machine { vars: m.vars.insert(loc.name(), m.stack.last()), pc: m.pc + 1, ..m })
    }
}

/// `AddI`, `DivD` and the like: the top of the stack is replaced by
/// `value(loc) op top`, where the location must hold a number of `kind`.
pub open spec fn loc_arith_step(
    consts: Map<Seq<char>, Vobj>,
    m: Machine,
    op: ArithOp,
    kind: NumKind,
    loc: MemLoc,
    d: u64,
) -> Step {
    match resolve(consts, m.vars, loc) {
        None => Step::Fault(VMError::LookupErr),
        Some(v) => if !fits_kind(v, kind) {
            Step::Fault(VMError::KindMismatchErr)
        } else if m.stack.len() == 0 {
            Step::Fault(VMError::MissingOperandErr)
        } else {
            match arith_result(op, v, m.stack.last(), d) {
                Ok(r) => m.advance(m.stack.drop_last().push(r)),
                Err(e) => Step::Fault(e),
            }
        },
    }
}

/// A jump to the absolute index `target`, with `stack` as the new stack; a
/// target at or past the end of the code is a fault.
pub open spec fn jump_step(code_len: nat, m: Machine, stack: Seq<Vobj>, target: usize) -> Step {
    if target >= code_len {
        Step::Fault(VMError::BranchOutOfBoundsErr)
    } else {
        Step::Next(Machine { stack, pc: target as nat, ..m })
    }
}

/// Whether `c` holds of `a` and `b`, where `o` stands for their order as
/// floats.
pub open spec fn cond_result(c: Cond, a: Vobj, b: Vobj, o: FloatOrder) -> Result<bool, VMError> {
    match c {
        Cond::Eq => Ok(eq_result(a, b, o)),
        Cond::Ne => Ok(!eq_result(a, b, o)),
        Cond::Order(op) => cmp_result(op, a, b, o),
    }
}

/// A conditional branch compares the two topmost values, the deeper one on
/// the left. When the test holds, both are popped and execution jumps to
/// `target`; when it fails, execution goes on with the next instruction and
/// nothing else changes.
pub open spec fn cond_step(
    code_len: nat,
    m: Machine,
    c: Cond,
    target: usize,
    o: FloatOrder,
) -> Step {
    let n = m.stack.len();
    if n < 2 {
        Step::Fault(VMError::MissingOperandErr)
    } else {
        match cond_result(c, m.stack[n - 2], m.stack[n - 1], o) {
            Ok(true) => jump_step(code_len, m, m.stack.take(n - 2), target),
            Ok(false) => m.advance(m.stack),
            Err(e) => Step::Fault(e),
        }
    }
}

/// The effect of executing the instruction at `m.pc`. `d` stands for the
/// result of a floating-point operation and `o` for the order of two
/// floats, where the instruction needs one.
pub open spec fn step_spec(
    code: Seq<Op>,
    consts: Map<Seq<char>, Vobj>,
    m: Machine,
    d: u64,
    o: FloatOrder,
) -> Step {
    let len = code.len();
    match code[m.pc as int] {
        Op::Nop => m.advance(m.stack),
        Op::Load(v) => m.advance(m.stack.push(v)),
        Op::Add => stack_arith_step(m, ArithOp::Add, d),
        Op::Sub => stack_arith_step(m, ArithOp::Sub, d),
        Op::Mul => stack_arith_step(m, ArithOp::Mul, d),
        Op::Div => stack_arith_step(m, ArithOp::Div, d),
        Op::LoadW(l) => fetch_step(consts, m, l),
        Op::LoadWV(l) => store_step(m, l),
        Op::AddI(l) => loc_arith_step(consts, m, ArithOp::Add, NumKind::Int, l, d),
        Op::SubI(l) => loc_arith_step(consts, m, ArithOp::Sub, NumKind::Int, l, d),
        Op::MultI(l) => loc_arith_step(consts, m, ArithOp::Mul, NumKind::Int, l, d),
        Op::DivI(l) => loc_arith_step(consts, m, ArithOp::Div, NumKind::Int, l, d),
        Op::AddD(l) => loc_arith_step(consts, m, ArithOp::Add, NumKind::Double, l, d),
        Op::SubD(l) => loc_arith_step(consts, m, ArithOp::Sub, NumKind::Double, l, d),
        Op::MultD(l) => loc_arith_step(consts, m, ArithOp::Mul, NumKind::Double, l, d),
        Op::DivD(l) => loc_arith_step(consts, m, ArithOp::Div, NumKind::Double, l, d),
        Op::Br(t) => jump_step(len, m, m.stack, t),
        Op::Beq(t) => cond_step(len, m, Cond::Eq, t, o),
        Op::Bnq(t) => cond_step(len, m, Cond::Ne, t, o),
        Op::Bg(t) => cond_step(len, m, Cond::Order(CmpOp::Gt), t, o),
        Op::Bge(t) => cond_step(len, m, Cond::Order(CmpOp::Ge), t, o),
        Op::Blt(t) => cond_step(len, m, Cond::Order(CmpOp::Lt), t, o),
        Op::Ble(t) => cond_step(len, m, Cond::Order(CmpOp::Le), t, o),
        Op::Bgt(_) => Step::Fault(VMError::UnsupportedOpcodeErr),
    }
}

/// The test and target of a conditional branch opcode.
pub open spec fn condition(op: Op) -> Option<(Cond, usize)> {
    match op {
        Op::Beq(t) => Some((Cond::Eq, t)),
        Op::Bnq(t) => Some((Cond::Ne, t)),
        Op::Bg(t) => Some((Cond::Order(CmpOp::Gt), t)),
        Op::Bge(t) => Some((Cond::Order(CmpOp::Ge), t)),
        Op::Blt(t) => Some((Cond::Order(CmpOp::Lt), t)),
        Op::Ble(t) => Some((Cond::Order(CmpOp::Le), t)),
        _ => None,
    }
}

/// `Br i` moves execution to instruction `i` exactly, stack and variables
/// untouched; a target at or past the end of the code is a
/// `BranchOutOfBoundsErr` fault.
pub proof fn lemma_branch_lands(
    code: Seq<Op>,
    consts: Map<Seq<char>, Vobj>,
    m: Machine,
    i: usize,
    d: u64,
    o: FloatOrder,
)
    requires
        m.pc < code.len(),
        code[m.pc as int] == Op::Br(i),
    ensures
        i < code.len() ==> step_spec(code, consts, m, d, o) == Step::Next(
            Machine { pc: i as nat, ..m },
        ),
        i >= code.len() ==> step_spec(code, consts, m, d, o) == Step::Fault(
            VMError::BranchOutOfBoundsErr,
        ),
{
}

/// A conditional branch jumps to its target exactly when its test holds of
/// the two topmost values, and then pops them. When the test fails,
/// execution goes on with the next instruction and the state is otherwise
/// exactly as it was just before the branch.
pub proof fn lemma_conditional_branch(
    code: Seq<Op>,
    consts: Map<Seq<char>, Vobj>,
    m: Machine,
    d: u64,
    o: FloatOrder,
)
    requires
        m.pc < code.len(),
        condition(code[m.pc as int]) is Some,
        m.stack.len() >= 2,
    ensures
        ({
            let (c, t) = condition(code[m.pc as int])->Some_0;
            let n = m.stack.len();
            let rest = m.stack.take(n - 2);
            match cond_result(c, m.stack[n - 2], m.stack[n - 1], o) {
                Ok(true) => step_spec(code, consts, m, d, o) == (if t < code.len() {
                    Step::Next(Machine { stack: rest, pc: t as nat, ..m })
                } else {
                    Step::Fault(VMError::BranchOutOfBoundsErr)
                }),
                Ok(false) => step_spec(code, consts, m, d, o) == Step::Next(
                    Machine { pc: m.pc + 1, ..m },
                ),
                Err(e) => step_spec(code, consts, m, d, o) == Step::Fault(e),
            }
        }),
{
}

/// Disassembly does not depend on execution: running an engine keeps its
/// instructions, and an instruction's text is a function of its opcode and
/// operands alone.
pub proof fn lemma_text_stable<'a>(before: Vm<'a>, after: Vm<'a>, i: int)
    requires
        after.program() == before.program(),
        0 <= i < before.program().len(),
    ensures
        after.program()[i].opcode().text() == before.program()[i].opcode().text(),
{
}

/// Whether an executed step moved from `before` to `after` with result `r`
/// as `s` says.
pub open spec fn commits(before: Machine, after: Machine, r: Result<(), VMError>, s: Step) -> bool {
    match s {
        Step::Next(m) => r is Ok && after == m,
        Step::Fault(e) => r == Err::<(), VMError>(e) && after == before,
    }
}

/// Where a run stands.
pub enum Run {
    /// The next instruction is at `pc`.
    Running(Machine),
    /// `pc` is past the last instruction: the run succeeded.
    Halted(Machine),
    /// The instruction at `pc` faulted; the state is as it was before it.
    Faulted(Machine, VMError),
}

pub open spec fn settle(code_len: nat, m: Machine) -> Run {
    if m.pc < code_len {
        Run::Running(m)
    } else {
        Run::Halted(m)
    }
}

/// Where a run from `m` stands after `n` steps, where step `k` is made with
/// `ds[k]` and `os[k]` standing for its floating-point results.
pub open spec fn run_spec(
    code: Seq<Op>,
    consts: Map<Seq<char>, Vobj>,
    m: Machine,
    ds: Seq<u64>,
    os: Seq<FloatOrder>,
    n: nat,
) -> Run
    decreases n,
{
    if n == 0 {
        settle(code.len(), m)
    } else {
        match run_spec(code, consts, m, ds, os, (n - 1) as nat) {
            Run::Running(c) => match step_spec(code, consts, c, ds[n - 1], os[n - 1]) {
                Step::Next(c2) => settle(code.len(), c2),
                Step::Fault(e) => Run::Faulted(c, e),
            },
            done => done,
        }
    }
}

/// Only the first `n` floating-point results matter to the first `n` steps.
proof fn lemma_run_prefix(
    code: Seq<Op>,
    consts: Map<Seq<char>, Vobj>,
    m: Machine,
    ds1: Seq<u64>,
    os1: Seq<FloatOrder>,
    ds2: Seq<u64>,
    os2: Seq<FloatOrder>,
    n: nat,
)
    requires
        n <= ds1.len(),
        n <= ds2.len(),
        n <= os1.len(),
        n <= os2.len(),
        ds1.take(n as int) == ds2.take(n as int),
        os1.take(n as int) == os2.take(n as int),
    ensures
        run_spec(code, consts, m, ds1, os1, n) == run_spec(code, consts, m, ds2, os2, n),
    decreases n,
{
    if n > 0 {
        let k = (n - 1) as int;
        assert(ds1[k] == ds1.take(n as int)[k]);
        assert(ds2[k] == ds2.take(n as int)[k]);
        assert(os1[k] == os1.take(n as int)[k]);
        assert(os2[k] == os2.take(n as int)[k]);
        assert(ds1.take(k) == ds1.take(n as int).take(k));
        assert(ds2.take(k) == ds2.take(n as int).take(k));
        assert(os1.take(k) == os1.take(n as int).take(k));
        assert(os2.take(k) == os2.take(n as int).take(k));
        lemma_run_prefix(code, consts, m, ds1, os1, ds2, os2, (n - 1) as nat);
    }
}

/// A run that has halted or faulted stays as it is: later steps change
/// nothing.
pub proof fn lemma_terminal_is_final(
    code: Seq<Op>,
    consts: Map<Seq<char>, Vobj>,
    m: Machine,
    ds: Seq<u64>,
    os: Seq<FloatOrder>,
    k: nat,
    n: nat,
)
    requires
        k <= n,
        !(run_spec(code, consts, m, ds, os, k) is Running),
    ensures
        run_spec(code, consts, m, ds, os, n) == run_spec(code, consts, m, ds, os, k),
    decreases n - k,
{
    if n > k {
        lemma_terminal_is_final(code, consts, m, ds, os, k, (n - 1) as nat);
    }
}

/// A run that stands at some instruction got there as `settle` says: its
/// program counter is inside the code.
proof fn lemma_running_inside(
    code: Seq<Op>,
    consts: Map<Seq<char>, Vobj>,
    m0: Machine,
    ds: Seq<u64>,
    os: Seq<FloatOrder>,
    n: nat,
)
    requires
        run_spec(code, consts, m0, ds, os, n) is Running,
    ensures
        run_spec(code, consts, m0, ds, os, n)->Running_0.pc < code.len(),
{
}

/// `Br i` within a run: with `i` inside the code, the stack and variables
/// stay as they are and the next instruction to run is instruction `i`
/// exactly (the first and the last included). With `i` at or past the end,
/// the run faults at the branch with `BranchOutOfBoundsErr`, in the state it
/// was in, and runs nothing more.
pub proof fn lemma_run_branch(
    code: Seq<Op>,
    consts: Map<Seq<char>, Vobj>,
    m0: Machine,
    ds: Seq<u64>,
    os: Seq<FloatOrder>,
    n: nat,
    i: usize,
)
    requires
        n < ds.len(),
        n < os.len(),
        run_spec(code, consts, m0, ds, os, n) is Running,
        code[run_spec(code, consts, m0, ds, os, n)->Running_0.pc as int] == Op::Br(i),
    ensures
        ({
            let m = run_spec(code, consts, m0, ds, os, n)->Running_0;
            &&& i < code.len() ==> run_spec(code, consts, m0, ds, os, n + 1) == Run::Running(
                Machine { pc: i as nat, ..m },
            )
            &&& i >= code.len() ==> forall|k: nat|
                k > n ==> #[trigger] run_spec(code, consts, m0, ds, os, k) == Run::Faulted(
                    m,
                    VMError::BranchOutOfBoundsErr,
                )
        }),
{
    let m = run_spec(code, consts, m0, ds, os, n)->Running_0;
    lemma_running_inside(code, consts, m0, ds, os, n);
    lemma_branch_lands(code, consts, m, i, ds[n as int], os[n as int]);
    if i >= code.len() {
        assert forall|k: nat| k > n implies #[trigger] run_spec(code, consts, m0, ds, os, k)
            == Run::Faulted(m, VMError::BranchOutOfBoundsErr) by {
            lemma_terminal_is_final(code, consts, m0, ds, os, n + 1, k);
        }
    }
}

/// A conditional branch within a run, where `os[n]` stands for the order of
/// the two operands as floats: when its test holds, both operands are
/// popped and the next instruction to run is the target; when it fails,
/// the next instruction to run is the one after the branch, or the run
/// ends, with the stack and variables exactly as they were.
pub proof fn lemma_run_conditional(
    code: Seq<Op>,
    consts: Map<Seq<char>, Vobj>,
    m0: Machine,
    ds: Seq<u64>,
    os: Seq<FloatOrder>,
    n: nat,
)
    requires
        n < ds.len(),
        n < os.len(),
        run_spec(code, consts, m0, ds, os, n) is Running,
        condition(code[run_spec(code, consts, m0, ds, os, n)->Running_0.pc as int]) is Some,
        run_spec(code, consts, m0, ds, os, n)->Running_0.stack.len() >= 2,
    ensures
        ({
            let m = run_spec(code, consts, m0, ds, os, n)->Running_0;
            let (c, t) = condition(code[m.pc as int])->Some_0;
            let k = m.stack.len();
            let next = run_spec(code, consts, m0, ds, os, n + 1);
            match cond_result(c, m.stack[k - 2], m.stack[k - 1], os[n as int]) {
                Ok(true) => if t < code.len() {
                    next == Run::Running(Machine { stack: m.stack.take(k - 2), pc: t as nat, ..m })
                } else {
                    next == Run::Faulted(m, VMError::BranchOutOfBoundsErr)
                },
                Ok(false) => next == settle(code.len(), Machine { pc: m.pc + 1, ..m }),
                Err(e) => next == Run::Faulted(m, e),
            }
        }),
{
    let m = run_spec(code, consts, m0, ds, os, n)->Running_0;
    lemma_running_inside(code, consts, m0, ds, os, n);
    lemma_conditional_branch(code, consts, m, ds[n as int], os[n as int]);
}

/// The report of a fault `e` at instruction `index`:
/// `<fault> -> <index> <instruction text> (<file>:<line>)`.
pub open spec fn failure_text(e: VMError, index: nat, ins: Instruction) -> Seq<char> {
    e.message_text() + " -> "@ + decimal(index) + " "@ + ins.opcode().text() + " ("@
        + ins.source().rendered() + ")"@
}

/// Whether a run of `program` that ended in state `after` with result `r`
/// is what `outcome`, reached after `n` steps, says.
pub open spec fn ended_as<'a>(
    program: Seq<Instruction<'a>>,
    after: Machine,
    r: Result<(), String>,
    outcome: Run,
    n: nat,
) -> bool {
    match outcome {
        Run::Halted(m) => r is Ok && after == m,
        Run::Faulted(m, e) => {
            &&& after == m
            &&& m.pc < program.len()
            &&& (r matches Err(msg) && msg@ == failure_text(e, m.pc, program[m.pc as int]))
        },
        Run::Running(m) => {
            &&& n == STEP_LIMIT
            &&& after == m
            &&& m.pc < program.len()
            &&& (r matches Err(msg) && msg@ == failure_text(
                VMError::StepLimitErr,
                m.pc,
                program[m.pc as int],
            ))
        },
    }
}

/// How many steps `run` makes at most.
pub const STEP_LIMIT: u64 = 0xffff_ffff_ffff_ffff;

/// The mutable state of an engine.
struct State {
    stack: Vec<Vobj>,
    vars: Vec<(String, Vobj)>,
    pc: usize,
}

impl View for State {
    type V = Machine;

    closed spec fn view(&self) -> Machine {
        Machine { stack: self.stack@, vars: env_view(self.vars@), pc: self.pc as nat }
    }
}

/// Whether `c` holds of `a` and `b`.
fn eval_cond<U: FloatUnit>(c: Cond, a: &Vobj, b: &Vobj, unit: &U) -> (r: Result<bool, VMError>)
    ensures
        exists|o: FloatOrder| r == cond_result(c, *a, *b, o),
{
    match c {
        Cond::Eq => {
            let e = Vobj::equals(a, b, unit);
            let ghost o = choose|o: FloatOrder| e == #[trigger] eq_result(*a, *b, o);
            assert(Ok::<bool, VMError>(e) == cond_result(c, *a, *b, o));
            Ok(e)
        },
        Cond::Ne => {
            let e = Vobj::equals(a, b, unit);
            let ghost o = choose|o: FloatOrder| e == #[trigger] eq_result(*a, *b, o);
            assert(Ok::<bool, VMError>(!e) == cond_result(c, *a, *b, o));
            Ok(!e)
        },
        Cond::Order(op) => {
            let res = compare(op, a, b, unit);
            let ghost o = choose|o: FloatOrder| res == #[trigger] cmp_result(op, *a, *b, o);
            assert(res == cond_result(c, *a, *b, o));
            res
        },
    }
}

impl State {
    /// The value that `loc` holds.
    fn resolve(&self, consts: &Vec<(String, Vobj)>, loc: &MemLoc) -> (r: Option<Vobj>)
        ensures
            r == resolve(env_view(consts@), self@.vars, *loc),
    {
        let (table, name) = match loc {
            MemLoc::Const(n) => (consts, n),
            MemLoc::Var(n) => (&self.vars, n),
        };
        match find(table, name) {
            Some(i) => Some(table[i].1.duplicate()),
            None => None,
        }
    }

    fn exec_push(&mut self, v: Vobj) -> (r: Result<(), VMError>)
        requires
            old(self).pc < usize::MAX,
        ensures
            commits(old(self)@, final(self)@, r, old(self)@.advance(old(self)@.stack.push(v))),
    {
        self.stack.push(v);
        self.pc = self.pc + 1;
        Ok(())
    }

    fn exec_stack_arith<U: FloatUnit>(&mut self, op: ArithOp, unit: &U) -> (r: (
        Result<(), VMError>,
        Ghost<u64>,
    ))
        requires
            old(self).pc < usize::MAX,
        ensures
            commits(old(self)@, final(self)@, r.0, stack_arith_step(old(self)@, op, r.1@)),
    {
        let n = self.stack.len();
        if n < 2 {
            return (Err(VMError::MissingOperandErr), Ghost(0));
        }
        let res = arith(op, &self.stack[n - 2], &self.stack[n - 1], unit);
        let ghost d = choose|d: u64|
            res == #[trigger] arith_result(op, self.stack@[n - 2], self.stack@[n - 1], d);
        let ghost before = self@;
        match res {
            Ok(v) => {
                self.stack.truncate(n - 2);
                self.stack.push(v);
                self.pc = self.pc + 1;
                assert(self@.stack =~= before.stack.take(n - 2).push(v));
                (Ok(()), Ghost(d))
            },
            Err(e) => (Err(e), Ghost(d)),
        }
    }

    fn exec_fetch(&mut self, consts: &Vec<(String, Vobj)>, loc: &MemLoc) -> (r: Result<(), VMError>)
        requires
            old(self).pc < usize::MAX,
        ensures
            commits(old(self)@, final(self)@, r, fetch_step(env_view(consts@), old(self)@, *loc)),
    {
        match self.resolve(consts, loc) {
            Some(v) => self.exec_push(v),
            None => Err(VMError::LookupErr),
        }
    }

    fn exec_store(&mut self, loc: &MemLoc) -> (r: Result<(), VMError>)
        requires
            old(self).pc < usize::MAX,
        ensures
            commits(old(self)@, final(self)@, r, store_step(old(self)@, *loc)),
    {
        match loc {
            MemLoc::Const(_) => Err(VMError::KindMismatchErr),
            MemLoc::Var(name) => {
                let n = self.stack.len();
                if n == 0 {
                    return Err(VMError::MissingOperandErr);
                }
                let ghost before = self@;
                let top = self.stack[n - 1].duplicate();
                bind(&mut self.vars, name, top);
                self.pc = self.pc + 1;
                assert(self@ == Machine {
                    vars: before.vars.insert(loc.name(), before.stack.last()),
                    pc: before.pc + 1,
                    ..before
                });
                Ok(())
            },
        }
    }

    fn exec_loc_arith<U: FloatUnit>(
        &mut self,
        consts: &Vec<(String, Vobj)>,
        op: ArithOp,
        kind: NumKind,
        loc: &MemLoc,
        unit: &U,
    ) -> (r: (Result<(), VMError>, Ghost<u64>))
        requires
            old(self).pc < usize::MAX,
        ensures
            commits(
                old(self)@,
                final(self)@,
                r.0,
                loc_arith_step(env_view(consts@), old(self)@, op, kind, *loc, r.1@),
            ),
    {
        let ghost before = self@;
        let v = match self.resolve(consts, loc) {
            Some(v) => v,
            None => {
                return (Err(VMError::LookupErr), Ghost(0));
            },
        };
        let fits = match kind {
            NumKind::Int => v.is_int(),
            NumKind::Double => v.is_double(),
        };
        if !fits {
            return (Err(VMError::KindMismatchErr), Ghost(0));
        }
        let n = self.stack.len();
        if n == 0 {
            return (Err(VMError::MissingOperandErr), Ghost(0));
        }
        let res = arith(op, &v, &self.stack[n - 1], unit);
        let ghost d = choose|d: u64| res == #[trigger] arith_result(op, v, self.stack@[n - 1], d);
        match res {
            Ok(x) => {
                self.stack.set(n - 1, x);
                self.pc = self.pc + 1;
                assert(self@.stack =~= before.stack.drop_last().push(x));
                (Ok(()), Ghost(d))
            },
            Err(e) => (Err(e), Ghost(d)),
        }
    }

    fn exec_jump(&mut self, code_len: usize, target: usize) -> (r: Result<(), VMError>)
        requires
            old(self).pc < code_len,
        ensures
            commits(
                old(self)@,
                final(self)@,
                r,
                jump_step(code_len as nat, old(self)@, old(self)@.stack, target),
            ),
    {
        if target >= code_len {
            return Err(VMError::BranchOutOfBoundsErr);
        }
        self.pc = target;
        Ok(())
    }

    fn exec_cond<U: FloatUnit>(&mut self, code_len: usize, c: Cond, target: usize, unit: &U) -> (r: (
        Result<(), VMError>,
        Ghost<FloatOrder>,
    ))
        requires
            old(self).pc < code_len,
        ensures
            commits(old(self)@, final(self)@, r.0, cond_step(code_len as nat, old(self)@, c, target, r.1@)),
    {
        let ghost before = self@;
        let n = self.stack.len();
        if n < 2 {
            return (Err(VMError::MissingOperandErr), Ghost(FloatOrder::Unordered));
        }
        let res = eval_cond(c, &self.stack[n - 2], &self.stack[n - 1], unit);
        let ghost o = choose|o: FloatOrder|
            res == #[trigger] cond_result(c, self.stack@[n - 2], self.stack@[n - 1], o);
        match res {
            Ok(taken) => {
                if taken && target >= code_len {
                    return (Err(VMError::BranchOutOfBoundsErr), Ghost(o));
                }
                if taken {
                    self.stack.truncate(n - 2);
                    self.pc = target;
                    assert(self@.stack =~= before.stack.take(n - 2));
                } else {
                    self.pc = self.pc + 1;
                }
                (Ok(()), Ghost(o))
            },
            Err(e) => (Err(e), Ghost(o)),
        }
    }
}

/// An execution engine: a program, the constants it reads, and the state
/// that running it changes. Programs and constants never change once the
/// engine is made.
pub struct Vm<'a> {
    code: Vec<Instruction<'a>>,
    consts: Vec<(String, Vobj)>,
    state: State,
}

impl<'a> Vm<'a> {
    /// The instructions, in order.
    pub closed spec fn program(&self) -> Seq<Instruction<'a>> {
        self.code@
    }

    /// The opcode of each instruction.
    pub open spec fn ops(&self) -> Seq<Op> {
        self.program().map_values(|i: Instruction<'a>| i.opcode())
    }

    /// The constants, by name; of two entries with one name the first counts.
    pub closed spec fn constants(&self) -> Map<Seq<char>, Vobj> {
        env_view(self.consts@)
    }

    pub closed spec fn machine(&self) -> Machine {
        self.state@
    }

    /// An engine for `code` with no constants, ready to start.
    pub fn load(code: Vec<Instruction<'a>>) -> (r: Self)
        ensures
            r.program() == code@,
            r.constants() == Map::<Seq<char>, Vobj>::empty(),
            r.machine() == (Machine { stack: Seq::empty(), vars: Map::empty(), pc: 0 }),
    {
        Self::with_constants(Vec::new(), code)
    }

    /// An engine for `code` that reads `consts`, ready to start.
    pub fn with_constants(consts: Vec<(String, Vobj)>, code: Vec<Instruction<'a>>) -> (r: Self)
        ensures
            r.program() == code@,
            r.constants() == env_view(consts@),
            r.machine() == (Machine { stack: Seq::empty(), vars: Map::empty(), pc: 0 }),
    {
        let state = State { stack: Vec::new(), vars: Vec::new(), pc: 0 };
        assert(env_view(state.vars@) =~= Map::empty());
        Vm { code, consts, state }
    }

    /// An engine for a loaded program, ready to start.
    pub fn from_program(program: Program<'a>) -> (r: Self)
        ensures
            r.program() == program.code@,
            r.constants() == env_view(program.consts@),
            r.machine() == (Machine { stack: Seq::empty(), vars: Map::empty(), pc: 0 }),
    {
        Self::with_constants(program.consts, program.code)
    }

    /// The operand stack; its last element is the accumulator.
    pub fn dump_mem(&self) -> (r: &Vec<Vobj>)
        ensures
            r@ == self.machine().stack,
    {
        &self.state.stack
    }

    /// The variables, as entries of a name and a value.
    pub fn variables(&self) -> (r: &Vec<(String, Vobj)>)
        ensures
            env_view(r@) == self.machine().vars,
    {
        &self.state.vars
    }

    /// The index of the next instruction.
    pub fn pc(&self) -> (r: usize)
        ensures
            r == self.machine().pc,
    {
        self.state.pc
    }

    pub fn code_len(&self) -> (r: usize)
        ensures
            r == self.program().len(),
    {
        self.code.len()
    }

    /// Executes the instruction at the program counter. On a fault nothing
    /// changes and the fault is returned.
    pub fn step<U: FloatUnit>(&mut self, unit: &U) -> (r: Result<(), VMError>)
        requires
            old(self).machine().pc < old(self).program().len(),
        ensures
            final(self).program() == old(self).program(),
            final(self).constants() == old(self).constants(),
            exists|d: u64, o: FloatOrder|
                commits(
                    old(self).machine(),
                    final(self).machine(),
                    r,
                    step_spec(old(self).ops(), old(self).constants(), old(self).machine(), d, o),
                ),
    {
        let pc = self.state.pc;
        let len = self.code.len();
        let ghost code = self.ops();
        let ghost consts = self.constants();
        let ghost before = self.machine();
        assert(code[pc as int] == self.code@[pc as int].opcode());
        let table = &self.consts;
        let (r, d, o): (Result<(), VMError>, Ghost<u64>, Ghost<FloatOrder>) = match self.code[pc].op() {
            Op::Nop => {
                self.state.pc = pc + 1;
                (Ok(()), Ghost(0), Ghost(FloatOrder::Unordered))
            },
            Op::Load(v) => (self.state.exec_push(v.duplicate()), Ghost(0), Ghost(FloatOrder::Unordered)),
            Op::Add => {
                let (r, d) = self.state.exec_stack_arith(ArithOp::Add, unit);
                (r, d, Ghost(FloatOrder::Unordered))
            },
            Op::Sub => {
                let (r, d) = self.state.exec_stack_arith(ArithOp::Sub, unit);
                (r, d, Ghost(FloatOrder::Unordered))
            },
            Op::Mul => {
                let (r, d) = self.state.exec_stack_arith(ArithOp::Mul, unit);
                (r, d, Ghost(FloatOrder::Unordered))
            },
            Op::Div => {
                let (r, d) = self.state.exec_stack_arith(ArithOp::Div, unit);
                (r, d, Ghost(FloatOrder::Unordered))
            },
            Op::LoadW(l) => (self.state.exec_fetch(table, l), Ghost(0), Ghost(FloatOrder::Unordered)),
            Op::LoadWV(l) => (self.state.exec_store(l), Ghost(0), Ghost(FloatOrder::Unordered)),
            Op::AddI(l) => {
                let (r, d) = self.state.exec_loc_arith(table, ArithOp::Add, NumKind::Int, l, unit);
                (r, d, Ghost(FloatOrder::Unordered))
            },
            Op::SubI(l) => {
                let (r, d) = self.state.exec_loc_arith(table, ArithOp::Sub, NumKind::Int, l, unit);
                (r, d, Ghost(FloatOrder::Unordered))
            },
            Op::MultI(l) => {
                let (r, d) = self.state.exec_loc_arith(table, ArithOp::Mul, NumKind::Int, l, unit);
                (r, d, Ghost(FloatOrder::Unordered))
            },
            Op::DivI(l) => {
                let (r, d) = self.state.exec_loc_arith(table, ArithOp::Div, NumKind::Int, l, unit);
                (r, d, Ghost(FloatOrder::Unordered))
            },
            Op::AddD(l) => {
                let (r, d) = self.state.exec_loc_arith(table, ArithOp::Add, NumKind::Double, l, unit);
                (r, d, Ghost(FloatOrder::Unordered))
            },
            Op::SubD(l) => {
                let (r, d) = self.state.exec_loc_arith(table, ArithOp::Sub, NumKind::Double, l, unit);
                (r, d, Ghost(FloatOrder::Unordered))
            },
            Op::MultD(l) => {
                let (r, d) = self.state.exec_loc_arith(table, ArithOp::Mul, NumKind::Double, l, unit);
                (r, d, Ghost(FloatOrder::Unordered))
            },
            Op::DivD(l) => {
                let (r, d) = self.state.exec_loc_arith(table, ArithOp::Div, NumKind::Double, l, unit);
                (r, d, Ghost(FloatOrder::Unordered))
            },
            Op::Br(t) => (self.state.exec_jump(len, *t), Ghost(0), Ghost(FloatOrder::Unordered)),
            Op::Beq(t) => {
                let (r, o) = self.state.exec_cond(len, Cond::Eq, *t, unit);
                (r, Ghost(0), o)
            },
            Op::Bnq(t) => {
                let (r, o) = self.state.exec_cond(len, Cond::Ne, *t, unit);
                (r, Ghost(0), o)
            },
            Op::Bg(t) => {
                let (r, o) = self.state.exec_cond(len, Cond::Order(CmpOp::Gt), *t, unit);
                (r, Ghost(0), o)
            },
            Op::Bge(t) => {
                let (r, o) = self.state.exec_cond(len, Cond::Order(CmpOp::Ge), *t, unit);
                (r, Ghost(0), o)
            },
            Op::Blt(t) => {
                let (r, o) = self.state.exec_cond(len, Cond::Order(CmpOp::Lt), *t, unit);
                (r, Ghost(0), o)
            },
            Op::Ble(t) => {
                let (r, o) = self.state.exec_cond(len, Cond::Order(CmpOp::Le), *t, unit);
                (r, Ghost(0), o)
            },
            Op::Bgt(_) => (Err(VMError::UnsupportedOpcodeErr), Ghost(0), Ghost(FloatOrder::Unordered)),
        };
        assert(commits(before, self.machine(), r, step_spec(code, consts, before, d@, o@)));
        r
    }

    /// The report of fault `e` at the instruction at `index`.
    fn report(&self, e: VMError, index: usize) -> (r: String)
        requires
            index < self.program().len(),
        ensures
            r@ == failure_text(e, index as nat, self.program()[index as int]),
    {
        let ins = &self.code[index];
        let mut out = e.message();
        out.append(" -> ");
        push_decimal(&mut out, index as u64);
        out.append(" ");
        out.append(ins.text());
        out.append(" (");
        let src = ins.src().render();
        out.append(src.as_str());
        out.append(")");
        assert(out@ =~= failure_text(e, index as nat, self.program()[index as int]));
        out
    }

    /// Runs the program from where it stands until it halts or faults, for
    /// at most `STEP_LIMIT` steps. A fault is reported as
    /// `<fault> -> <index> <instruction text> (<file>:<line>)`, with the
    /// state left as it was before the faulting instruction.
    pub fn run<U: FloatUnit>(&mut self, unit: &U) -> (r: Result<(), String>)
        ensures
            final(self).program() == old(self).program(),
            final(self).constants() == old(self).constants(),
            exists|ds: Seq<u64>, os: Seq<FloatOrder>, n: nat|
                ds.len() == n && os.len() == n && #[trigger] ended_as(
                    old(self).program(),
                    final(self).machine(),
                    r,
                    run_spec(old(self).ops(), old(self).constants(), old(self).machine(), ds, os, n),
                    n,
                ),
    {
        let ghost prog = self.program();
        let ghost code = self.ops();
        let ghost consts = self.constants();
        let ghost start = self.machine();
        let ghost mut ds: Seq<u64> = Seq::empty();
        let ghost mut os: Seq<FloatOrder> = Seq::empty();
        let mut count: u64 = 0;
        while count < STEP_LIMIT
            invariant
                self.program() == prog,
                self.constants() == consts,
                prog == old(self).program(),
                code == old(self).ops(),
                consts == old(self).constants(),
                start == old(self).machine(),
                ds.len() == count,
                os.len() == count,
                run_spec(code, consts, start, ds, os, count as nat) == settle(
                    code.len(),
                    self.machine(),
                ),
            decreases STEP_LIMIT - count,
        {
            if self.state.pc >= self.code.len() {
                let ghost now = run_spec(code, consts, start, ds, os, count as nat);
                assert(ended_as(prog, self.machine(), Ok(()), now, count as nat));
                return Ok(());
            }
            let ghost before = self.machine();
            let pc = self.state.pc;
            let res = self.step(unit);
            let ghost (d, o) = choose|d: u64, o: FloatOrder|
                commits(
                    before,
                    self.machine(),
                    res,
                    #[trigger] step_spec(code, consts, before, d, o),
                );
            let ghost ds2 = ds.push(d);
            let ghost os2 = os.push(o);
            proof {
                assert(ds2.take(count as int) =~= ds.take(count as int));
                assert(os2.take(count as int) =~= os.take(count as int));
                lemma_run_prefix(code, consts, start, ds2, os2, ds, os, count as nat);
            }
            if let Err(e) = res {
                let msg = self.report(e, pc);
                let ghost now = run_spec(code, consts, start, ds2, os2, count as nat + 1);
                assert(ended_as(prog, self.machine(), Err(msg), now, count as nat + 1));
                return Err(msg);
            }
            proof {
                ds = ds2;
                os = os2;
            }
            count = count + 1;
        }
        let ghost now = run_spec(code, consts, start, ds, os, count as nat);
        if self.state.pc >= self.code.len() {
            assert(ended_as(prog, self.machine(), Ok(()), now, count as nat));
            return Ok(());
        }
        let msg = self.report(VMError::StepLimitErr, self.state.pc);
        assert(ended_as(prog, self.machine(), Err(msg), now, count as nat));
        Err(msg)
    }
}

} // verus!

use vstd::prelude::*;

use crate::err::Source;
use crate::memloc::MemLoc;
use crate::text::{decimal, push_decimal};
use crate::vobj::Vobj;

verus! {

/// An opcode with the operands it needs.
///
/// The engine keeps one operand stack, whose top is the accumulator.
/// `Add`, `Sub`, `Mul` and `Div` combine the two topmost values. The forms
/// with a location (`AddI var1`) combine the location's value, on the left,
/// with the top of the stack, on the right; `I` and `D` name the numeric
/// kind the location must hold. Branch targets are absolute instruction
/// indices.
#[derive(Debug, Clone, PartialEq)]
pub enum Op {
    Nop,
    Load(Vobj),
    Add,
    Sub,
    Mul,
    Div,
    LoadW(MemLoc),
    LoadWV(MemLoc),
    AddI(MemLoc),
    SubI(MemLoc),
    MultI(MemLoc),
    DivI(MemLoc),
    AddD(MemLoc),
    SubD(MemLoc),
    MultD(MemLoc),
    DivD(MemLoc),
    Br(usize),
    Beq(usize),
    Bnq(usize),
    Bg(usize),
    Bge(usize),
    Blt(usize),
    Ble(usize),
    /// Reserved; executing it is an `UnsupportedOpcodeErr` fault.
    Bgt(usize),
}

/// What an operand of an instruction renders as.
enum Operand<'o> {
    Nothing,
    Location(&'o MemLoc),
    Target(usize),
}

impl Op {
    pub open spec fn mnemonic(&self) -> Seq<char> {
        match self {
            Op::Nop => "Nop"@,
            Op::Load(_) => "Load"@,
            Op::Add => "Add"@,
            Op::Sub => "Sub"@,
            Op::Mul => "Mul"@,
            Op::Div => "Div"@,
            Op::LoadW(_) => "LoadW"@,
            Op::LoadWV(_) => "LoadWV"@,
            Op::AddI(_) => "AddI"@,
            Op::SubI(_) => "SubI"@,
            Op::MultI(_) => "MultI"@,
            Op::DivI(_) => "DivI"@,
            Op::AddD(_) => "AddD"@,
            Op::SubD(_) => "SubD"@,
            Op::MultD(_) => "MultD"@,
            Op::DivD(_) => "DivD"@,
            Op::Br(_) => "Br"@,
            Op::Beq(_) => "Beq"@,
            Op::Bnq(_) => "Bnq"@,
            Op::Bg(_) => "Bgt"@,
            Op::Bge(_) => "Bge"@,
            Op::Blt(_) => "Blt"@,
            Op::Ble(_) => "Ble"@,
            Op::Bgt(_) => "Bgt"@,
        }
    }

    /// The location an opcode names, if any.
    pub open spec fn location(&self) -> Option<MemLoc> {
        match self {
            Op::LoadW(l) | Op::LoadWV(l) | Op::AddI(l) | Op::SubI(l) | Op::MultI(l) | Op::DivI(l)
            | Op::AddD(l) | Op::SubD(l) | Op::MultD(l) | Op::DivD(l) => Some(*l),
            _ => None,
        }
    }

    /// The branch target an opcode names, if any.
    pub open spec fn target(&self) -> Option<usize> {
        match self {
            Op::Br(t) | Op::Beq(t) | Op::Bnq(t) | Op::Bg(t) | Op::Bge(t) | Op::Blt(t) | Op::Ble(t)
            | Op::Bgt(t) => Some(*t),
            _ => None,
        }
    }

    /// The disassembled text of an opcode: its mnemonic, then its location's
    /// name or its target, if it has one. A loaded value is not shown.
    pub open spec fn text(&self) -> Seq<char> {
        match self.location() {
            Some(l) => self.mnemonic() + " "@ + l.name(),
            None => match self.target() {
                Some(t) => self.mnemonic() + " "@ + decimal(t as nat),
                None => self.mnemonic(),
            },
        }
    }

    fn mnemonic_str(&self) -> (r: &'static str)
        ensures
            r@ == self.mnemonic(),
    {
        match self {
            Op::Nop => "Nop",
            Op::Load(_) => "Load",
            Op::Add => "Add",
            Op::Sub => "Sub",
            Op::Mul => "Mul",
            Op::Div => "Div",
            Op::LoadW(_) => "LoadW",
            Op::LoadWV(_) => "LoadWV",
            Op::AddI(_) => "AddI",
            Op::SubI(_) => "SubI",
            Op::MultI(_) => "MultI",
            Op::DivI(_) => "DivI",
            Op::AddD(_) => "AddD",
            Op::SubD(_) => "SubD",
            Op::MultD(_) => "MultD",
            Op::DivD(_) => "DivD",
            Op::Br(_) => "Br",
            Op::Beq(_) => "Beq",
            Op::Bnq(_) => "Bnq",
            Op::Bg(_) => "Bgt",
            Op::Bge(_) => "Bge",
            Op::Blt(_) => "Blt",
            Op::Ble(_) => "Ble",
            Op::Bgt(_) => "Bgt",
        }
    }

    fn operand(&self) -> (r: Operand<'_>)
        ensures
            self.location() matches Some(l) ==> r matches Operand::Location(m) && *m == l,
            self.target() matches Some(t) ==> r == Operand::Target(t),
            self.location() is None && self.target() is None ==> r is Nothing,
    {
        match self {
            Op::LoadW(l) | Op::LoadWV(l) | Op::AddI(l) | Op::SubI(l) | Op::MultI(l) | Op::DivI(l)
            | Op::AddD(l) | Op::SubD(l) | Op::MultD(l) | Op::DivD(l) => Operand::Location(l),
            Op::Br(t) | Op::Beq(t) | Op::Bnq(t) | Op::Bg(t) | Op::Bge(t) | Op::Blt(t) | Op::Ble(t)
            | Op::Bgt(t) => Operand::Target(*t),
            _ => Operand::Nothing,
        }
    }

    /// The disassembled text of this opcode.
    pub fn render(&self) -> (r: String)
        ensures
            r@ == self.text(),
    {
        let mut out = String::from_str(self.mnemonic_str());
        match self.operand() {
            Operand::Location(l) => {
                out.append(" ");
                out.append(l.ident());
            },
            Operand::Target(t) => {
                out.append(" ");
                push_decimal(&mut out, t as u64);
            },
            Operand::Nothing => {},
        }
        assert(out@ =~= self.text());
        out
    }
}

/// One instruction: an opcode, its disassembled text, rendered once when the
/// instruction is made, and where it came from.
#[derive(Debug, PartialEq)]
pub struct Instruction<'a> {
    op: Op,
    str_repr: String,
    src: Source<'a>,
}

impl<'a> Instruction<'a> {
    #[verifier::type_invariant]
    spec fn text_matches(&self) -> bool {
        self.str_repr@ == self.op.text()
    }

    pub closed spec fn opcode(&self) -> Op {
        self.op
    }

    pub closed spec fn source(&self) -> Source<'a> {
        self.src
    }

    /// An instruction of opcode `op` from `src`.
    pub fn new(op: Op, src: Source<'a>) -> (r: Self)
        ensures
            r.opcode() == op,
            r.source() == src,
    {
        let str_repr = op.render();
        Instruction { op, str_repr, src }
    }

    pub fn op(&self) -> (r: &Op)
        ensures
            *r == self.opcode(),
    {
        &self.op
    }

    /// The disassembled text; it depends on the opcode and its operands only.
    pub fn text(&self) -> (r: &str)
        ensures
            r@ == self.opcode().text(),
    {
        proof {
            use_type_invariant(self);
        }
        self.str_repr.as_str()
    }

    pub fn src(&self) -> (r: Source<'a>)
        ensures
            r == self.source(),
    {
        self.src
    }

    pub fn nop_instruction(src: Source<'a>) -> (r: Self)
        ensures
            r.opcode() == Op::Nop,
            r.source() == src,
    {
        Self::new(Op::Nop, src)
    }

    pub fn load_instruction(value: Vobj, src: Source<'a>) -> (r: Self)
        ensures
            r.opcode() == Op::Load(value),
            r.source() == src,
    {
        Self::new(Op::Load(value), src)
    }

    pub fn add(src: Source<'a>) -> (r: Self)
        ensures
            r.opcode() == Op::Add,
            r.source() == src,
    {
        Self::new(Op::Add, src)
    }

    pub fn sub(src: Source<'a>) -> (r: Self)
        ensures
            r.opcode() == Op::Sub,
            r.source() == src,
    {
        Self::new(Op::Sub, src)
    }

    pub fn mul(src: Source<'a>) -> (r: Self)
        ensures
            r.opcode() == Op::Mul,
            r.source() == src,
    {
        Self::new(Op::Mul, src)
    }

    pub fn div(src: Source<'a>) -> (r: Self)
        ensures
            r.opcode() == Op::Div,
            r.source() == src,
    {
        Self::new(Op::Div, src)
    }

    pub fn load_w(loc: MemLoc, src: Source<'a>) -> (r: Self)
        ensures
            r.opcode() == Op::LoadW(loc),
            r.source() == src,
    {
        Self::new(Op::LoadW(loc), src)
    }

    pub fn load_wv(loc: MemLoc, src: Source<'a>) -> (r: Self)
        ensures
            r.opcode() == Op::LoadWV(loc),
            r.source() == src,
    {
        Self::new(Op::LoadWV(loc), src)
    }

    pub fn add_i(loc: MemLoc, src: Source<'a>) -> (r: Self)
        ensures
            r.opcode() == Op::AddI(loc),
            r.source() == src,
    {
        Self::new(Op::AddI(loc), src)
    }

    pub fn sub_i(loc: MemLoc, src: Source<'a>) -> (r: Self)
        ensures
            r.opcode() == Op::SubI(loc),
            r.source() == src,
    {
        Self::new(Op::SubI(loc), src)
    }

    pub fn mult_i(loc: MemLoc, src: Source<'a>) -> (r: Self)
        ensures
            r.opcode() == Op::MultI(loc),
            r.source() == src,
    {
        Self::new(Op::MultI(loc), src)
    }

    pub fn div_i(loc: MemLoc, src: Source<'a>) -> (r: Self)
        ensures
            r.opcode() == Op::DivI(loc),
            r.source() == src,
    {
        Self::new(Op::DivI(loc), src)
    }

    pub fn add_d(loc: MemLoc, src: Source<'a>) -> (r: Self)
        ensures
            r.opcode() == Op::AddD(loc),
            r.source() == src,
    {
        Self::new(Op::AddD(loc), src)
    }

    pub fn sub_d(loc: MemLoc, src: Source<'a>) -> (r: Self)
        ensures
            r.opcode() == Op::SubD(loc),
            r.source() == src,
    {
        Self::new(Op::SubD(loc), src)
    }

    pub fn mult_d(loc: MemLoc, src: Source<'a>) -> (r: Self)
        ensures
            r.opcode() == Op::MultD(loc),
            r.source() == src,
    {
        Self::new(Op::MultD(loc), src)
    }

    pub fn div_d(loc: MemLoc, src: Source<'a>) -> (r: Self)
        ensures
            r.opcode() == Op::DivD(loc),
            r.source() == src,
    {
        Self::new(Op::DivD(loc), src)
    }

    pub fn br(br_index: usize, src: Source<'a>) -> (r: Self)
        ensures
            r.opcode() == Op::Br(br_index),
            r.source() == src,
    {
        Self::new(Op::Br(br_index), src)
    }

    pub fn beq(br_index: usize, src: Source<'a>) -> (r: Self)
        ensures
            r.opcode() == Op::Beq(br_index),
            r.source() == src,
    {
        Self::new(Op::Beq(br_index), src)
    }

    pub fn bnq(br_index: usize, src: Source<'a>) -> (r: Self)
        ensures
            r.opcode() == Op::Bnq(br_index),
            r.source() == src,
    {
        Self::new(Op::Bnq(br_index), src)
    }

    pub fn bgt(br_index: usize, src: Source<'a>) -> (r: Self)
        ensures
            r.opcode() == Op::Bg(br_index),
            r.source() == src,
    {
        Self::new(Op::Bg(br_index), src)
    }

    pub fn bge(br_index: usize, src: Source<'a>) -> (r: Self)
        ensures
            r.opcode() == Op::Bge(br_index),
            r.source() == src,
    {
        Self::new(Op::Bge(br_index), src)
    }

    pub fn blt(br_index: usize, src: Source<'a>) -> (r: Self)
        ensures
            r.opcode() == Op::Blt(br_index),
            r.source() == src,
    {
        Self::new(Op::Blt(br_index), src)
    }

    pub fn ble(br_index: usize, src: Source<'a>) -> (r: Self)
        ensures
            r.opcode() == Op::Ble(br_index),
            r.source() == src,
    {
        Self::new(Op::Ble(br_index), src)
    }
}

} // verus!

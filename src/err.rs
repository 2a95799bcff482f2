use vstd::prelude::*;

use crate::text::{decimal, push_decimal};

verus! {

/// Where an instruction came from: a file name and a line in it.
/// Purely informational; it never affects execution.
#[derive(Debug, Clone, Copy, PartialEq)]
pub struct Source<'a> {
    source_file: &'a str,
    line_number: u32,
}

impl<'a> Source<'a> {
    pub closed spec fn file(&self) -> Seq<char> {
        self.source_file@
    }

    pub closed spec fn line(&self) -> u32 {
        self.line_number
    }

    pub fn new(source_file: &'a str, line_number: u32) -> (r: Self)
        ensures
            r.file() == source_file@,
            r.line() == line_number,
    {
        Self { source_file, line_number }
    }

    pub fn source_file(&self) -> (r: &'a str)
        ensures
            r@ == self.file(),
    {
        self.source_file
    }

    pub fn line_number(&self) -> (r: u32)
        ensures
            r == self.line(),
    {
        self.line_number
    }

    /// `file:line`, as diagnostics show it.
    pub open spec fn rendered(&self) -> Seq<char> {
        self.file() + seq![':'] + decimal(self.line() as nat)
    }

    pub fn render(&self) -> (r: String)
        ensures
            r@ == self.rendered(),
    {
        let mut out = String::from_str(self.source_file);
        proof {
            reveal_strlit(":");
        }
        out.append(":");
        push_decimal(&mut out, self.line_number as u64);
        assert(out@ =~= self.rendered());
        out
    }
}

/// Which operand of a binary operator a fault is about. For the stack
/// forms the left operand is the deeper value and the right one the top;
/// for the forms with a location, the location's value is on the left and
/// the accumulator on the right.
#[derive(Debug, Clone, Copy, PartialEq, Eq, Structural)]
pub enum Side {
    Left,
    Right,
}

/// A fault raised while executing one instruction.
#[derive(Debug, Clone, Copy, PartialEq, Eq, Structural)]
pub enum VMError {
    /// An arithmetic or ordering operator met an operand that is not a
    /// number, on the side given.
    IncorrectArgumentErr(Side),
    /// The right operand of a division is the zero of its kind.
    DivisionByZeroErr,
    /// A location names no constant or variable.
    LookupErr,
    /// A constant where a variable is required, or an operand of the wrong
    /// numeric kind for the opcode.
    KindMismatchErr,
    /// A branch target that is not an instruction index.
    BranchOutOfBoundsErr,
    /// An opcode that this engine does not execute.
    UnsupportedOpcodeErr,
    /// The operand stack holds fewer values than the instruction consumes.
    MissingOperandErr,
    /// The run used up its step budget without halting.
    StepLimitErr,
}

impl VMError {
    /// The text that a failure report shows for this fault.
    pub open spec fn message_text(&self) -> Seq<char> {
        match self {
            VMError::IncorrectArgumentErr(Side::Left) => "Expected numerical type (left operand)"@,
            VMError::IncorrectArgumentErr(Side::Right) => "Expected numerical type (right operand)"@,
            VMError::DivisionByZeroErr => "division by zero"@,
            VMError::LookupErr => "undefined location"@,
            VMError::KindMismatchErr => "kind mismatch"@,
            VMError::BranchOutOfBoundsErr => "invalid instruction index: out of bound"@,
            VMError::UnsupportedOpcodeErr => "unsupported opcode"@,
            VMError::MissingOperandErr => "at least 2 argument are required"@,
            VMError::StepLimitErr => "step limit reached"@,
        }
    }

    pub fn message(&self) -> (r: String)
        ensures
            r@ == self.message_text(),
    {
        match self {
            VMError::IncorrectArgumentErr(Side::Left) => String::from_str(
                "Expected numerical type (left operand)",
            ),
            VMError::IncorrectArgumentErr(Side::Right) => String::from_str(
                "Expected numerical type (right operand)",
            ),
            VMError::DivisionByZeroErr => String::from_str("division by zero"),
            VMError::LookupErr => String::from_str("undefined location"),
            VMError::KindMismatchErr => String::from_str("kind mismatch"),
            VMError::BranchOutOfBoundsErr => String::from_str(
                "invalid instruction index: out of bound",
            ),
            VMError::UnsupportedOpcodeErr => String::from_str("unsupported opcode"),
            VMError::MissingOperandErr => String::from_str("at least 2 argument are required"),
            VMError::StepLimitErr => String::from_str("step limit reached"),
        }
    }
}

} // verus!

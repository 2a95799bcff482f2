use vstd::prelude::*;

use crate::err::{Side, VMError};

verus! {

/// How two floating-point numbers are ordered; `Unordered` when either is NaN.
#[derive(Debug, Clone, Copy, PartialEq, Eq, Structural)]
pub enum FloatOrder {
    Less,
    Equal,
    Greater,
    Unordered,
}

/// The binary64 floating-point arithmetic that `Double` values are computed
/// with. Operands and results are IEEE-754 bit patterns.
///
/// Nothing is assumed of an implementation: every contract of this crate
/// holds whatever values these methods return.
pub trait FloatUnit {
    /// The binary64 value nearest to `v`.
    fn from_int(&self, v: i64) -> u64;

    fn add(&self, a: u64, b: u64) -> u64;

    fn sub(&self, a: u64, b: u64) -> u64;

    fn mul(&self, a: u64, b: u64) -> u64;

    fn div(&self, a: u64, b: u64) -> u64;

    fn compare(&self, a: u64, b: u64) -> FloatOrder;
}

/// The four arithmetic operators on values.
#[derive(Debug, Clone, Copy, PartialEq, Eq, Structural)]
pub enum ArithOp {
    Add,
    Sub,
    Mul,
    Div,
}

/// The four ordering predicates on values.
#[derive(Debug, Clone, Copy, PartialEq, Eq, Structural)]
pub enum CmpOp {
    Gt,
    Ge,
    Lt,
    Le,
}

/// A runtime value. A `Double` holds the bit pattern of a binary64 number.
/// `Null` is the value of nothing initialised.
#[derive(Debug, Clone, PartialEq)]
pub enum Vobj {
    Str(String),
    Double(u64),
    Int(i64),
    Null,
}

/// Mask of every bit of a binary64 number but its sign.
pub const MAGNITUDE_MASK: u64 = 0x7fff_ffff_ffff_ffff;

/// `a op b` on 64-bit integers; results that do not fit wrap around.
/// Division truncates toward zero.
pub open spec fn int_arith(op: ArithOp, a: i64, b: i64) -> i64 {
    match op {
        ArithOp::Add => a.wrapping_add(b),
        ArithOp::Sub => a.wrapping_sub(b),
        ArithOp::Mul => a.wrapping_mul(b),
        ArithOp::Div => match a.checked_div(b) {
            Some(q) => q,
            None => 0i64.wrapping_sub(a),
        },
    }
}

/// Whether the predicate `op` holds of two integers.
pub open spec fn int_holds(op: CmpOp, a: i64, b: i64) -> bool {
    match op {
        CmpOp::Gt => a > b,
        CmpOp::Ge => a >= b,
        CmpOp::Lt => a < b,
        CmpOp::Le => a <= b,
    }
}

/// Whether the predicate `op` holds of two floats ordered as `o`.
pub open spec fn order_holds(op: CmpOp, o: FloatOrder) -> bool {
    match op {
        CmpOp::Gt => o == FloatOrder::Greater,
        CmpOp::Ge => o == FloatOrder::Greater || o == FloatOrder::Equal,
        CmpOp::Lt => o == FloatOrder::Less,
        CmpOp::Le => o == FloatOrder::Less || o == FloatOrder::Equal,
    }
}

/// The outcome of `a op b`, where `d` stands for the result of the
/// floating-point operation when one is made.
pub open spec fn arith_result(op: ArithOp, a: Vobj, b: Vobj, d: u64) -> Result<Vobj, VMError> {
    if !a.is_number() {
        Err(VMError::IncorrectArgumentErr(Side::Left))
    } else if !b.is_number() {
        Err(VMError::IncorrectArgumentErr(Side::Right))
    } else if op == ArithOp::Div && b.is_zero() {
        Err(VMError::DivisionByZeroErr)
    } else {
        match (a, b) {
            (Vobj::Int(x), Vobj::Int(y)) => Ok(Vobj::Int(int_arith(op, x, y))),
            _ => Ok(Vobj::Double(d)),
        }
    }
}

/// The outcome of comparing `a` with `b` by `op`, where `o` stands for the
/// order of the two as floats when they are compared as floats.
pub open spec fn cmp_result(op: CmpOp, a: Vobj, b: Vobj, o: FloatOrder) -> Result<bool, VMError> {
    if !a.is_number() {
        Err(VMError::IncorrectArgumentErr(Side::Left))
    } else if !b.is_number() {
        Err(VMError::IncorrectArgumentErr(Side::Right))
    } else {
        match (a, b) {
            (Vobj::Int(x), Vobj::Int(y)) => Ok(int_holds(op, x, y)),
            _ => Ok(order_holds(op, o)),
        }
    }
}

/// Structural equality of `a` and `b`, where `o` stands for the order of two
/// `Double` payloads as floats.
pub open spec fn eq_result(a: Vobj, b: Vobj, o: FloatOrder) -> bool {
    match (a, b) {
        (Vobj::Str(x), Vobj::Str(y)) => x@ == y@,
        (Vobj::Int(x), Vobj::Int(y)) => x == y,
        (Vobj::Double(_), Vobj::Double(_)) => o == FloatOrder::Equal,
        (Vobj::Null, Vobj::Null) => true,
        _ => false,
    }
}

impl Vobj {
    pub open spec fn is_number(&self) -> bool {
        self is Double || self is Int
    }

    /// Whether this is the zero of its numeric kind (`0`, `0.0` or `-0.0`).
    pub open spec fn is_zero(&self) -> bool {
        match self {
            Vobj::Int(v) => *v == 0,
            Vobj::Double(bits) => *bits & MAGNITUDE_MASK == 0,
            _ => false,
        }
    }

    pub fn new_str(value: &str) -> (r: Vobj)
        ensures
            r matches Vobj::Str(s) && s@ == value@,
    {
        Vobj::Str(String::from_str(value))
    }

    pub fn new_double(value: u64) -> (r: Vobj)
        ensures
            r == Vobj::Double(value),
    {
        Vobj::Double(value)
    }

    pub fn new_int(value: i64) -> (r: Vobj)
        ensures
            r == Vobj::Int(value),
    {
        Vobj::Int(value)
    }

    /// A copy of this value.
    pub fn duplicate(&self) -> (r: Vobj)
        ensures
            r == *self,
    {
        match self {
            Vobj::Str(s) => Vobj::Str(s.clone()),
            Vobj::Double(v) => Vobj::Double(*v),
            Vobj::Int(v) => Vobj::Int(*v),
            Vobj::Null => Vobj::Null,
        }
    }

    pub fn is_numeric(&self) -> (r: bool)
        ensures
            r == self.is_number(),
    {
        match self {
            Vobj::Double(_) | Vobj::Int(_) => true,
            _ => false,
        }
    }

    pub fn is_int(&self) -> (r: bool)
        ensures
            r == self is Int,
    {
        match self {
            Vobj::Int(_) => true,
            _ => false,
        }
    }

    pub fn is_double(&self) -> (r: bool)
        ensures
            r == self is Double,
    {
        match self {
            Vobj::Double(_) => true,
            _ => false,
        }
    }

    pub fn is_zero_value(&self) -> (r: bool)
        ensures
            r == self.is_zero(),
    {
        match self {
            Vobj::Int(v) => *v == 0,
            Vobj::Double(bits) => *bits & MAGNITUDE_MASK == 0,
            _ => false,
        }
    }

    /// The value as a float; a numeric value is required.
    fn to_float<U: FloatUnit>(&self, unit: &U) -> (r: u64)
        requires
            self.is_number(),
        ensures
            self matches Vobj::Double(bits) ==> r == bits,
    {
        match self {
            Vobj::Double(bits) => *bits,
            Vobj::Int(v) => unit.from_int(*v),
            _ => 0,
        }
    }
}

/// `a op b` on integers; see `int_arith`.
pub fn int_apply(op: ArithOp, a: i64, b: i64) -> (r: i64)
    requires
        op == ArithOp::Div ==> b != 0,
    ensures
        r == int_arith(op, a, b),
{
    match op {
        ArithOp::Add => a.wrapping_add(b),
        ArithOp::Sub => a.wrapping_sub(b),
        ArithOp::Mul => a.wrapping_mul(b),
        ArithOp::Div => match a.checked_div(b) {
            Some(q) => q,
            None => 0i64.wrapping_sub(a),
        },
    }
}

/// Applies `op` to two values, promoting to floating point when either is a
/// `Double`.
pub fn arith<U: FloatUnit>(op: ArithOp, a: &Vobj, b: &Vobj, unit: &U) -> (r: Result<Vobj, VMError>)
    ensures
        exists|d: u64| r == arith_result(op, *a, *b, d),
{
    if !a.is_numeric() {
        assert(arith_result(op, *a, *b, 0) == Err::<Vobj, VMError>(
            VMError::IncorrectArgumentErr(Side::Left),
        ));
        return Err(VMError::IncorrectArgumentErr(Side::Left));
    }
    if !b.is_numeric() {
        assert(arith_result(op, *a, *b, 0) == Err::<Vobj, VMError>(
            VMError::IncorrectArgumentErr(Side::Right),
        ));
        return Err(VMError::IncorrectArgumentErr(Side::Right));
    }
    if op == ArithOp::Div && b.is_zero_value() {
        assert(arith_result(op, *a, *b, 0) == Err::<Vobj, VMError>(VMError::DivisionByZeroErr));
        return Err(VMError::DivisionByZeroErr);
    }
    if let (Vobj::Int(x), Vobj::Int(y)) = (a, b) {
        let q = int_apply(op, *x, *y);
        assert(arith_result(op, *a, *b, 0) == Ok::<Vobj, VMError>(Vobj::Int(q)));
        return Ok(Vobj::Int(q));
    }
    let x = a.to_float(unit);
    let y = b.to_float(unit);
    let d = match op {
        ArithOp::Add => unit.add(x, y),
        ArithOp::Sub => unit.sub(x, y),
        ArithOp::Mul => unit.mul(x, y),
        ArithOp::Div => unit.div(x, y),
    };
    assert(arith_result(op, *a, *b, d) == Ok::<Vobj, VMError>(Vobj::Double(d)));
    Ok(Vobj::Double(d))
}

/// Compares two values by `op`, as floats when either is a `Double`.
pub fn compare<U: FloatUnit>(op: CmpOp, a: &Vobj, b: &Vobj, unit: &U) -> (r: Result<bool, VMError>)
    ensures
        exists|o: FloatOrder| r == cmp_result(op, *a, *b, o),
{
    if !a.is_numeric() {
        assert(cmp_result(op, *a, *b, FloatOrder::Unordered) == Err::<bool, VMError>(
            VMError::IncorrectArgumentErr(Side::Left),
        ));
        return Err(VMError::IncorrectArgumentErr(Side::Left));
    }
    if !b.is_numeric() {
        assert(cmp_result(op, *a, *b, FloatOrder::Unordered) == Err::<bool, VMError>(
            VMError::IncorrectArgumentErr(Side::Right),
        ));
        return Err(VMError::IncorrectArgumentErr(Side::Right));
    }
    if let (Vobj::Int(x), Vobj::Int(y)) = (a, b) {
        let holds = match op {
            CmpOp::Gt => *x > *y,
            CmpOp::Ge => *x >= *y,
            CmpOp::Lt => *x < *y,
            CmpOp::Le => *x <= *y,
        };
        assert(cmp_result(op, *a, *b, FloatOrder::Unordered) == Ok::<bool, VMError>(holds));
        return Ok(holds);
    }
    let o = unit.compare(a.to_float(unit), b.to_float(unit));
    let holds = match op {
        CmpOp::Gt => o == FloatOrder::Greater,
        CmpOp::Ge => o == FloatOrder::Greater || o == FloatOrder::Equal,
        CmpOp::Lt => o == FloatOrder::Less,
        CmpOp::Le => o == FloatOrder::Less || o == FloatOrder::Equal,
    };
    assert(cmp_result(op, *a, *b, o) == Ok::<bool, VMError>(holds));
    Ok(holds)
}

impl Vobj {
    /// `oprand1 + oprand2`.
    pub fn add<U: FloatUnit>(oprand1: &Vobj, oprand2: &Vobj, unit: &U) -> (r: Result<Vobj, VMError>)
        ensures
            exists|d: u64| r == arith_result(ArithOp::Add, *oprand1, *oprand2, d),
    {
        arith(ArithOp::Add, oprand1, oprand2, unit)
    }

    /// `oprand1 - oprand2`.
    pub fn sub<U: FloatUnit>(oprand1: &Vobj, oprand2: &Vobj, unit: &U) -> (r: Result<Vobj, VMError>)
        ensures
            exists|d: u64| r == arith_result(ArithOp::Sub, *oprand1, *oprand2, d),
    {
        arith(ArithOp::Sub, oprand1, oprand2, unit)
    }

    /// `oprand1 * oprand2`.
    pub fn mul<U: FloatUnit>(oprand1: &Vobj, oprand2: &Vobj, unit: &U) -> (r: Result<Vobj, VMError>)
        ensures
            exists|d: u64| r == arith_result(ArithOp::Mul, *oprand1, *oprand2, d),
    {
        arith(ArithOp::Mul, oprand1, oprand2, unit)
    }

    /// `oprand1 / oprand2`; a zero divisor is refused before any division.
    pub fn div<U: FloatUnit>(oprand1: &Vobj, oprand2: &Vobj, unit: &U) -> (r: Result<Vobj, VMError>)
        ensures
            exists|d: u64| r == arith_result(ArithOp::Div, *oprand1, *oprand2, d),
    {
        arith(ArithOp::Div, oprand1, oprand2, unit)
    }

    /// `oprand1 > oprand2`.
    pub fn greater_than<U: FloatUnit>(oprand1: &Vobj, oprand2: &Vobj, unit: &U) -> (r: Result<bool, VMError>)
        ensures
            exists|o: FloatOrder| r == cmp_result(CmpOp::Gt, *oprand1, *oprand2, o),
    {
        compare(CmpOp::Gt, oprand1, oprand2, unit)
    }

    /// `oprand1 >= oprand2`.
    pub fn greater_eq<U: FloatUnit>(oprand1: &Vobj, oprand2: &Vobj, unit: &U) -> (r: Result<bool, VMError>)
        ensures
            exists|o: FloatOrder| r == cmp_result(CmpOp::Ge, *oprand1, *oprand2, o),
    {
        compare(CmpOp::Ge, oprand1, oprand2, unit)
    }

    /// `oprand1 < oprand2`.
    pub fn less_than<U: FloatUnit>(oprand1: &Vobj, oprand2: &Vobj, unit: &U) -> (r: Result<bool, VMError>)
        ensures
            exists|o: FloatOrder| r == cmp_result(CmpOp::Lt, *oprand1, *oprand2, o),
    {
        compare(CmpOp::Lt, oprand1, oprand2, unit)
    }

    /// `oprand1 <= oprand2`.
    pub fn less_eq<U: FloatUnit>(oprand1: &Vobj, oprand2: &Vobj, unit: &U) -> (r: Result<bool, VMError>)
        ensures
            exists|o: FloatOrder| r == cmp_result(CmpOp::Le, *oprand1, *oprand2, o),
    {
        compare(CmpOp::Le, oprand1, oprand2, unit)
    }

    /// Structural equality: same variant and same payload, `Double`
    /// payloads compared as floats.
    pub fn equals<U: FloatUnit>(oprand1: &Vobj, oprand2: &Vobj, unit: &U) -> (r: bool)
        ensures
            exists|o: FloatOrder| r == eq_result(*oprand1, *oprand2, o),
    {
        match (oprand1, oprand2) {
            (Vobj::Str(x), Vobj::Str(y)) => {
                let e = *x == *y;
                assert(e == eq_result(*oprand1, *oprand2, FloatOrder::Unordered));
                e
            },
            (Vobj::Int(x), Vobj::Int(y)) => {
                assert((*x == *y) == eq_result(*oprand1, *oprand2, FloatOrder::Unordered));
                *x == *y
            },
            (Vobj::Double(x), Vobj::Double(y)) => {
                let o = unit.compare(*x, *y);
                assert((o == FloatOrder::Equal) == eq_result(*oprand1, *oprand2, o));
                o == FloatOrder::Equal
            },
            (Vobj::Null, Vobj::Null) => {
                assert(eq_result(*oprand1, *oprand2, FloatOrder::Unordered));
                true
            },
            _ => {
                assert(!eq_result(*oprand1, *oprand2, FloatOrder::Unordered));
                false
            },
        }
    }
}

/// Numeric promotion: `+`, `-` and `*` on two integers give an integer,
/// computed in 64-bit integer arithmetic; with a `Double` on either side
/// they give a `Double`.
pub proof fn lemma_promotion(op: ArithOp, a: Vobj, b: Vobj, d: u64)
    requires
        a.is_number(),
        b.is_number(),
        op != ArithOp::Div,
    ensures
        a is Int && b is Int ==> arith_result(op, a, b, d) == Ok::<Vobj, VMError>(
            Vobj::Int(int_arith(op, a->Int_0, b->Int_0)),
        ),
        a is Double || b is Double ==> arith_result(op, a, b, d) == Ok::<Vobj, VMError>(
            Vobj::Double(d),
        ),
{
}

/// Dividing a number by the zero of either numeric kind is refused with
/// `DivisionByZeroErr`, whatever the dividend; `0`, `0.0` and `-0.0` are
/// all zero.
pub proof fn lemma_division_by_zero(x: Vobj, zero: Vobj, d: u64)
    requires
        x.is_number(),
        zero.is_zero(),
    ensures
        arith_result(ArithOp::Div, x, zero, d) == Err::<Vobj, VMError>(VMError::DivisionByZeroErr),
        Vobj::Int(0).is_zero(),
        Vobj::Double(0).is_zero(),
        Vobj::Double(0x8000_0000_0000_0000).is_zero(),
{
    assert(0u64 & MAGNITUDE_MASK == 0) by (bit_vector);
    assert(0x8000_0000_0000_0000u64 & MAGNITUDE_MASK == 0) by (bit_vector);
}

/// A `Str` or `Null` operand makes every arithmetic and ordering operator
/// fail with `IncorrectArgumentErr`, never give a number; the fault names
/// the first operand that is not a number.
pub proof fn lemma_non_numeric_operand(
    a: Vobj,
    b: Vobj,
    aop: ArithOp,
    cop: CmpOp,
    d: u64,
    o: FloatOrder,
)
    requires
        a is Str || a is Null || b is Str || b is Null,
    ensures
        arith_result(aop, a, b, d) == Err::<Vobj, VMError>(
            VMError::IncorrectArgumentErr(if a.is_number() { Side::Right } else { Side::Left }),
        ),
        cmp_result(cop, a, b, o) == Err::<bool, VMError>(
            VMError::IncorrectArgumentErr(if a.is_number() { Side::Right } else { Side::Left }),
        ),
{
}

impl From<i64> for Vobj {
    fn from(value: i64) -> (r: Vobj) {
        Vobj::Int(value)
    }
}

impl vstd::std_specs::convert::FromSpecImpl<i64> for Vobj {
    open spec fn obeys_from_spec() -> bool {
        true
    }

    open spec fn from_spec(value: i64) -> Vobj {
        Vobj::Int(value)
    }
}

impl<'s> From<&'s str> for Vobj {
    fn from(value: &'s str) -> (r: Vobj) {
        Vobj::new_str(value)
    }
}

impl<'s> vstd::std_specs::convert::FromSpecImpl<&'s str> for Vobj {
    /// A spec function cannot build the `String` that holds the text, so
    /// this conversion promises nothing; `Vobj::new_str` states its result.
    open spec fn obeys_from_spec() -> bool {
        false
    }

    open spec fn from_spec(value: &'s str) -> Vobj {
        Vobj::Null
    }
}

impl Default for Vobj {
    fn default() -> (r: Vobj)
        ensures
            r == Vobj::Null,
    {
        Vobj::Null
    }
}

} // verus!

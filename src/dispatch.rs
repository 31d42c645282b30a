use crate::rounding::mpfr_rnd_t;
use vstd::prelude::*;

verus! {

/// A binary arithmetic operator.
#[derive(Clone, Copy, Debug, PartialEq, Eq, Structural)]
pub enum ArithOp {
    Add,
    Sub,
    Mul,
    Div,
}

/// The side of a binary operator on which an operand stands.
#[derive(Clone, Copy, Debug, PartialEq, Eq, Structural)]
pub enum Side {
    Left,
    Right,
}

/// What the dispatcher is told of one operand.
#[derive(Clone, Copy, Debug, PartialEq, Eq, Structural)]
pub enum Operand {
    /// A Float: its precision in bits, the sign of the engine's comparison of
    /// it with zero, and whether the operator takes it by value (and may
    /// reuse its record) or only borrows it.
    Float { prec: usize, cmp_zero: i32, consumed: bool },
    /// A signed 64-bit integer.
    Int(i64),
    /// A double, given by its IEEE-754 bit pattern.
    Double(u64),
}

/// The three kinds of argument that the engine's arithmetic routines take.
#[derive(Clone, Copy, Debug, PartialEq, Eq, Structural)]
pub enum Kind {
    Record,
    Int,
    Double,
}

/// The engine's binary arithmetic routines.
#[derive(Clone, Copy, Debug, PartialEq, Eq, Structural)]
pub enum EngineFn {
    Add,
    AddSi,
    AddD,
    Sub,
    SubSi,
    SubD,
    SiSub,
    DSub,
    Mul,
    MulSi,
    MulD,
    Div,
    DivSi,
    DivD,
    SiDiv,
    DDiv,
}

/// An argument of an engine routine: the record of the Float on one side of
/// the operator, or a primitive value.
#[derive(Clone, Copy, Debug, PartialEq, Eq, Structural)]
pub enum Arg {
    Record(Side),
    Int(i64),
    Double(u64),
}

/// Where the engine writes a result: into the record of a consumed operand,
/// or into a fresh record initialised at the given precision.
#[derive(Clone, Copy, Debug, PartialEq, Eq, Structural)]
pub enum Dest {
    Reuse(Side),
    Fresh(usize),
}

/// One call of an engine routine: `dest = func(x, y)`, rounded with `rnd`.
#[derive(Clone, Copy, Debug, PartialEq, Eq, Structural)]
pub struct Call {
    pub func: EngineFn,
    pub dest: Dest,
    pub x: Arg,
    pub y: Arg,
    pub rnd: mpfr_rnd_t,
}

/// An operation that the value type refuses to perform.
#[derive(Clone, Copy, Debug, PartialEq, Eq, Structural)]
pub enum DomainError {
    DivisionByZero,
}

/// What each engine routine computes: `f(x, y)` is `x op y`, where `x` and
/// `y` are of the two kinds given.
pub open spec fn signature(f: EngineFn) -> (ArithOp, Kind, Kind) {
    match f {
        EngineFn::Add => (ArithOp::Add, Kind::Record, Kind::Record),
        EngineFn::AddSi => (ArithOp::Add, Kind::Record, Kind::Int),
        EngineFn::AddD => (ArithOp::Add, Kind::Record, Kind::Double),
        EngineFn::Sub => (ArithOp::Sub, Kind::Record, Kind::Record),
        EngineFn::SubSi => (ArithOp::Sub, Kind::Record, Kind::Int),
        EngineFn::SubD => (ArithOp::Sub, Kind::Record, Kind::Double),
        EngineFn::SiSub => (ArithOp::Sub, Kind::Int, Kind::Record),
        EngineFn::DSub => (ArithOp::Sub, Kind::Double, Kind::Record),
        EngineFn::Mul => (ArithOp::Mul, Kind::Record, Kind::Record),
        EngineFn::MulSi => (ArithOp::Mul, Kind::Record, Kind::Int),
        EngineFn::MulD => (ArithOp::Mul, Kind::Record, Kind::Double),
        EngineFn::Div => (ArithOp::Div, Kind::Record, Kind::Record),
        EngineFn::DivSi => (ArithOp::Div, Kind::Record, Kind::Int),
        EngineFn::DivD => (ArithOp::Div, Kind::Record, Kind::Double),
        EngineFn::SiDiv => (ArithOp::Div, Kind::Int, Kind::Record),
        EngineFn::DDiv => (ArithOp::Div, Kind::Double, Kind::Record),
    }
}

pub open spec fn commutative(op: ArithOp) -> bool {
    op is Add || op is Mul
}

pub open spec fn arg_kind(a: Arg) -> Kind {
    match a {
        Arg::Record(_) => Kind::Record,
        Arg::Int(_) => Kind::Int,
        Arg::Double(_) => Kind::Double,
    }
}

/// The argument by which an operand standing on `side` reaches the engine.
pub open spec fn arg_for(o: Operand, side: Side) -> Arg {
    match o {
        Operand::Float { .. } => Arg::Record(side),
        Operand::Int(v) => Arg::Int(v),
        Operand::Double(b) => Arg::Double(b),
    }
}

/// The operand that an argument of a call for `lhs op rhs` stands for.
pub open spec fn resolve(a: Arg, lhs: Operand, rhs: Operand) -> Operand {
    match a {
        Arg::Record(Side::Left) => lhs,
        Arg::Record(Side::Right) => rhs,
        Arg::Int(v) => Operand::Int(v),
        Arg::Double(b) => Operand::Double(b),
    }
}

/// A double is zero when all its bits but the sign are clear (`+0.0`, `-0.0`).
pub open spec fn double_bits_zero(bits: u64) -> bool {
    bits & 0x7fff_ffff_ffff_ffff == 0
}

/// An operand counts as zero when the engine compares a Float equal to zero,
/// or when a primitive equals zero.
pub open spec fn is_zero(o: Operand) -> bool {
    match o {
        Operand::Float { cmp_zero, .. } => cmp_zero == 0,
        Operand::Int(v) => v == 0,
        Operand::Double(b) => double_bits_zero(b),
    }
}

pub open spec fn max_prec(p: int, q: int) -> int {
    if p >= q {
        p
    } else {
        q
    }
}

/// The precision of the result of `lhs op rhs`. Of two Floats, a consumed
/// operand keeps its own precision (the left one first), and two borrowed
/// operands give the wider of the two; a Float beside a primitive gives the
/// Float's.
pub open spec fn result_precision(lhs: Operand, rhs: Operand) -> int {
    match lhs {
        Operand::Float { prec: p, consumed: cl, .. } => match rhs {
            Operand::Float { prec: q, consumed: cr, .. } => if cl {
                p as int
            } else if cr {
                q as int
            } else {
                max_prec(p as int, q as int)
            },
            _ => p as int,
        },
        _ => match rhs {
            Operand::Float { prec: q, .. } => q as int,
            _ => 0,
        },
    }
}

/// A consumed Float operand lends its record to the result, the left one
/// first; otherwise the result gets a fresh record.
pub open spec fn destination(lhs: Operand, rhs: Operand) -> Dest {
    if lhs matches Operand::Float { consumed: true, .. } {
        Dest::Reuse(Side::Left)
    } else if rhs matches Operand::Float { consumed: true, .. } {
        Dest::Reuse(Side::Right)
    } else {
        Dest::Fresh(result_precision(lhs, rhs) as usize)
    }
}

pub open spec fn operand_prec(o: Operand) -> int {
    match o {
        Operand::Float { prec, .. } => prec as int,
        _ => 0,
    }
}

/// The precision of the record that `d` names.
pub open spec fn dest_precision(d: Dest, lhs: Operand, rhs: Operand) -> int {
    match d {
        Dest::Reuse(Side::Left) => operand_prec(lhs),
        Dest::Reuse(Side::Right) => operand_prec(rhs),
        Dest::Fresh(p) => p as int,
    }
}

/// What `dispatch` owes for `lhs op rhs`: a refusal exactly on division by
/// zero; otherwise one call of the routine that computes `op` on the two
/// operands, in their order or, for a commutative operator whose left
/// operand is a primitive, swapped; written into `destination`, at
/// `result_precision`, rounded to nearest with ties to even.
pub open spec fn dispatched(
    op: ArithOp,
    lhs: Operand,
    rhs: Operand,
    r: Result<Call, DomainError>,
) -> bool {
    &&& (r is Err <==> op is Div && is_zero(rhs))
    &&& r matches Ok(c) ==> {
        &&& signature(c.func).0 == op
        &&& arg_kind(c.x) == signature(c.func).1
        &&& arg_kind(c.y) == signature(c.func).2
        &&& ((c.x == arg_for(lhs, Side::Left) && c.y == arg_for(rhs, Side::Right)) || (
        !(lhs is Float) && commutative(op) && c.x == arg_for(rhs, Side::Right) && c.y
            == arg_for(lhs, Side::Left)))
        &&& c.dest == destination(lhs, rhs)
        &&& dest_precision(c.dest, lhs, rhs) == result_precision(lhs, rhs)
        &&& c.rnd == mpfr_rnd_t::MPFR_RNDN
    }
}

/// Whether a double, given by its bits, is zero of either sign.
pub fn double_bits_are_zero(bits: u64) -> (r: bool)
    ensures
        r == double_bits_zero(bits),
{
    bits & 0x7fff_ffff_ffff_ffff == 0
}

/// Whether dividing by `o` is a division by zero.
fn operand_is_zero(o: Operand) -> (r: bool)
    ensures
        r == is_zero(o),
{
    match o {
        Operand::Float { cmp_zero, .. } => cmp_zero == 0,
        Operand::Int(v) => v == 0,
        Operand::Double(b) => double_bits_are_zero(b),
    }
}

/// Plans `lhs op rhs` for every pairing of a Float with a Float, an `i64` or
/// a double, on either side, consumed or borrowed.
pub fn dispatch(op: ArithOp, lhs: Operand, rhs: Operand) -> (r: Result<Call, DomainError>)
    requires
        lhs is Float || rhs is Float,
    ensures
        dispatched(op, lhs, rhs, r),
{
    if op == ArithOp::Div && operand_is_zero(rhs) {
        return Err(DomainError::DivisionByZero);
    }
    let dest = match lhs {
        Operand::Float { prec: p, consumed: cl, .. } => {
            if cl {
                Dest::Reuse(Side::Left)
            } else {
                match rhs {
                    Operand::Float { prec: q, consumed: cr, .. } => {
                        if cr {
                            Dest::Reuse(Side::Right)
                        } else if p >= q {
                            Dest::Fresh(p)
                        } else {
                            Dest::Fresh(q)
                        }
                    },
                    _ => Dest::Fresh(p),
                }
            }
        },
        _ => match rhs {
            Operand::Float { prec: q, consumed: cr, .. } => {
                if cr {
                    Dest::Reuse(Side::Right)
                } else {
                    Dest::Fresh(q)
                }
            },
            _ => Dest::Fresh(0),
        },
    };
    let left = Arg::Record(Side::Left);
    let right = Arg::Record(Side::Right);
    let (func, x, y) = match lhs {
        Operand::Float { .. } => match rhs {
            Operand::Float { .. } => match op {
                ArithOp::Add => (EngineFn::Add, left, right),
                ArithOp::Sub => (EngineFn::Sub, left, right),
                ArithOp::Mul => (EngineFn::Mul, left, right),
                ArithOp::Div => (EngineFn::Div, left, right),
            },
            Operand::Int(v) => match op {
                ArithOp::Add => (EngineFn::AddSi, left, Arg::Int(v)),
                ArithOp::Sub => (EngineFn::SubSi, left, Arg::Int(v)),
                ArithOp::Mul => (EngineFn::MulSi, left, Arg::Int(v)),
                ArithOp::Div => (EngineFn::DivSi, left, Arg::Int(v)),
            },
            Operand::Double(b) => match op {
                ArithOp::Add => (EngineFn::AddD, left, Arg::Double(b)),
                ArithOp::Sub => (EngineFn::SubD, left, Arg::Double(b)),
                ArithOp::Mul => (EngineFn::MulD, left, Arg::Double(b)),
                ArithOp::Div => (EngineFn::DivD, left, Arg::Double(b)),
            },
        },
        Operand::Int(v) => match op {
            ArithOp::Add => (EngineFn::AddSi, right, Arg::Int(v)),
            ArithOp::Sub => (EngineFn::SiSub, Arg::Int(v), right),
            ArithOp::Mul => (EngineFn::MulSi, right, Arg::Int(v)),
            ArithOp::Div => (EngineFn::SiDiv, Arg::Int(v), right),
        },
        Operand::Double(b) => match op {
            ArithOp::Add => (EngineFn::AddD, right, Arg::Double(b)),
            ArithOp::Sub => (EngineFn::DSub, Arg::Double(b), right),
            ArithOp::Mul => (EngineFn::MulD, right, Arg::Double(b)),
            ArithOp::Div => (EngineFn::DDiv, Arg::Double(b), right),
        },
    };
    Ok(Call { func, dest, x, y, rnd: mpfr_rnd_t::MPFR_RNDN })
}

/// The engine's routines on one Float, the receiver.
#[derive(Clone, Copy, Debug, PartialEq, Eq, Structural)]
pub enum UnaryFn {
    /// Copies the receiver's value, rounded to the destination's precision.
    Assign,
    Neg,
    Abs,
    Sqrt,
    Cbrt,
    /// The k-th root, for a `k` that the caller hands to the engine.
    Root,
    /// The receiver raised to a Float exponent, whose precision is not consulted.
    Pow,
    Exp,
    Log,
    Gamma,
    LnGamma,
    LGamma,
    Floor,
    Ceil,
    /// Rounds to the nearest integer, ties away from zero.
    Round,
}

/// One call of a routine on the receiver: `dest = func(receiver)`, rounded
/// with `rnd` where the routine takes a rounding mode.
#[derive(Clone, Copy, Debug, PartialEq, Eq, Structural)]
pub struct UnaryCall {
    pub func: UnaryFn,
    pub dest: Dest,
    pub rnd: Option<mpfr_rnd_t>,
}

/// Floor, ceiling and rounding to an integer are exact: they take no
/// rounding mode.
pub open spec fn is_integer_rounding(f: UnaryFn) -> bool {
    f is Floor || f is Ceil || f is Round
}

/// What `dispatch_unary` owes for `f` on `x`: the routine `f`, written into
/// the receiver's own record when the receiver is consumed and else into a
/// fresh record at the receiver's precision; rounded to nearest with ties to
/// even unless the routine is exact.
pub open spec fn unary_dispatched(f: UnaryFn, x: Operand, r: UnaryCall) -> bool {
    &&& r.func == f
    &&& r.dest == if x->consumed {
        Dest::Reuse(Side::Left)
    } else {
        Dest::Fresh(x->prec)
    }
    &&& r.rnd == if is_integer_rounding(f) {
        None
    } else {
        Some(mpfr_rnd_t::MPFR_RNDN)
    }
}

/// Plans the routine `f` on the Float `x`.
pub fn dispatch_unary(f: UnaryFn, x: Operand) -> (r: UnaryCall)
    requires
        x is Float,
    ensures
        unary_dispatched(f, x, r),
{
    let dest = match x {
        Operand::Float { prec, consumed, .. } => {
            if consumed {
                Dest::Reuse(Side::Left)
            } else {
                Dest::Fresh(prec)
            }
        },
        _ => Dest::Fresh(0),
    };
    let rnd = match f {
        UnaryFn::Floor | UnaryFn::Ceil | UnaryFn::Round => None,
        _ => Some(mpfr_rnd_t::MPFR_RNDN),
    };
    UnaryCall { func: f, dest, rnd }
}

} // verus!

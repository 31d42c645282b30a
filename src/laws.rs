use crate::dispatch::{
    commutative, dest_precision, dispatched, is_zero, max_prec, resolve,
    unary_dispatched, ArithOp, Call, Dest, DomainError, Operand, Side, UnaryCall, UnaryFn,
};
use crate::rounding::mpfr_rnd_t;
use crate::text::{c_content, terminator_free};
use vstd::prelude::*;

verus! {

/// A clone is the receiver copied into a fresh record at the receiver's own
/// precision, rounded to nearest: the clone has the original's precision.
pub proof fn clone_keeps_precision(prec: usize, cmp_zero: i32, r: UnaryCall)
    requires
        unary_dispatched(
            UnaryFn::Assign,
            Operand::Float { prec, cmp_zero, consumed: false },
            r,
        ),
    ensures
        r.dest == Dest::Fresh(prec),
        r.rnd == Some(mpfr_rnd_t::MPFR_RNDN),
{
}

/// For borrowed Floats `a` and `b` with `b` nonzero, `a / b` is carried out,
/// at the wider of the two precisions, and multiplying that quotient (taken
/// by value) by `b` again is carried out at that same precision: `(a / b) * b`
/// comes out at `max(prec(a), prec(b))`.
pub proof fn quotient_times_divisor_precision(
    pa: usize,
    ca: i32,
    pb: usize,
    cb: i32,
    quotient: Result<Call, DomainError>,
    cq: i32,
    product: Result<Call, DomainError>,
)
    requires
        cb != 0,
        dispatched(
            ArithOp::Div,
            Operand::Float { prec: pa, cmp_zero: ca, consumed: false },
            Operand::Float { prec: pb, cmp_zero: cb, consumed: false },
            quotient,
        ),
        dispatched(
            ArithOp::Mul,
            Operand::Float { prec: max_prec(pa as int, pb as int) as usize, cmp_zero: cq, consumed: true },
            Operand::Float { prec: pb, cmp_zero: cb, consumed: false },
            product,
        ),
    ensures
        quotient matches Ok(c) && c.dest == Dest::Fresh(max_prec(pa as int, pb as int) as usize),
        product matches Ok(c) && c.dest == Dest::Reuse(Side::Left) && dest_precision(
            c.dest,
            Operand::Float { prec: max_prec(pa as int, pb as int) as usize, cmp_zero: cq, consumed: true },
            Operand::Float { prec: pb, cmp_zero: cb, consumed: false },
        ) == max_prec(pa as int, pb as int),
{
}

/// For `+` and `*`, a Float and a primitive give the same engine call in
/// either order: the same routine on the same operands, at the same
/// precision, with the same rounding: `f + v` and `v + f` (and `f * v` and
/// `v * f`) are one and the same engine computation.
pub proof fn mixed_operands_commute(
    op: ArithOp,
    f: Operand,
    v: Operand,
    fv: Result<Call, DomainError>,
    vf: Result<Call, DomainError>,
)
    requires
        commutative(op),
        f is Float,
        !(v is Float),
        dispatched(op, f, v, fv),
        dispatched(op, v, f, vf),
    ensures
        fv matches Ok(c) && vf matches Ok(d) && {
            &&& c.func == d.func
            &&& resolve(c.x, f, v) == resolve(d.x, v, f)
            &&& resolve(c.y, f, v) == resolve(d.y, v, f)
            &&& dest_precision(c.dest, f, v) == dest_precision(d.dest, v, f)
            &&& c.rnd == d.rnd
        },
{
}

/// For `-` and `/`, a Float and a primitive in either order are each
/// computed by one engine call on the operands in their written order, both
/// at the Float's precision and rounded to nearest, wherever both are
/// defined.
pub proof fn mixed_operands_keep_order(
    op: ArithOp,
    f: Operand,
    v: Operand,
    fv: Result<Call, DomainError>,
    vf: Result<Call, DomainError>,
)
    requires
        !commutative(op),
        f is Float,
        !(v is Float),
        op is Div ==> !is_zero(f) && !is_zero(v),
        dispatched(op, f, v, fv),
        dispatched(op, v, f, vf),
    ensures
        fv matches Ok(c) && vf matches Ok(d) && {
            &&& resolve(c.x, f, v) == f && resolve(c.y, f, v) == v
            &&& resolve(d.x, v, f) == v && resolve(d.y, v, f) == f
            &&& dest_precision(c.dest, f, v) == f->prec
            &&& dest_precision(d.dest, v, f) == f->prec
            &&& c.rnd == mpfr_rnd_t::MPFR_RNDN && d.rnd == mpfr_rnd_t::MPFR_RNDN
        },
{
}

/// Text without a terminator, passed to the engine as a terminated byte
/// string and read back as the content of that buffer, is the text itself.
pub proof fn terminated_text_reads_back(t: Seq<u8>, r: Seq<u8>)
    requires
        terminator_free(t),
        c_content(t.push(0), r),
    ensures
        r == t,
{
    let buf = t.push(0);
    if r.len() < t.len() {
        assert(buf[r.len() as int] == t[r.len() as int]);
    } else if r.len() > t.len() {
        assert(r[t.len() as int] == buf[t.len() as int]);
    }
    assert(r.len() == t.len());
    assert(r =~= t);
}

} // verus!

use vstd::prelude::*;

verus! {

/// The engine's rounding modes, in the engine's own naming.
#[allow(non_camel_case_types)]
#[derive(Clone, Copy, Debug, PartialEq, Eq, Structural)]
pub enum mpfr_rnd_t {
    /// Round to nearest, with ties to even.
    MPFR_RNDN,
    /// Round toward zero.
    MPFR_RNDZ,
    /// Round toward plus infinity.
    MPFR_RNDU,
    /// Round toward minus infinity.
    MPFR_RNDD,
    /// Round away from zero.
    MPFR_RNDA,
    /// Faithful rounding.
    MPFR_RNDF,
    /// Round to nearest, with ties away from zero.
    MPFR_RNDNA,
}

/// The integer by which the engine's interface names each rounding mode.
pub open spec fn rnd_code(r: mpfr_rnd_t) -> int {
    match r {
        mpfr_rnd_t::MPFR_RNDN => 0,
        mpfr_rnd_t::MPFR_RNDZ => 1,
        mpfr_rnd_t::MPFR_RNDU => 2,
        mpfr_rnd_t::MPFR_RNDD => 3,
        mpfr_rnd_t::MPFR_RNDA => 4,
        mpfr_rnd_t::MPFR_RNDF => 5,
        mpfr_rnd_t::MPFR_RNDNA => -1,
    }
}

impl mpfr_rnd_t {
    /// The value passed to the engine for this mode.
    pub fn code(&self) -> (r: i32)
        ensures
            r == rnd_code(*self),
    {
        match self {
            mpfr_rnd_t::MPFR_RNDN => 0,
            mpfr_rnd_t::MPFR_RNDZ => 1,
            mpfr_rnd_t::MPFR_RNDU => 2,
            mpfr_rnd_t::MPFR_RNDD => 3,
            mpfr_rnd_t::MPFR_RNDA => 4,
            mpfr_rnd_t::MPFR_RNDF => 5,
            mpfr_rnd_t::MPFR_RNDNA => -1,
        }
    }
}

} // verus!

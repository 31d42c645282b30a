use rust_mpfr::compare::ordering_from_cmp;
use rust_mpfr::rounding::mpfr_rnd_t;
use std::cmp::Ordering;

#[test]
fn three_way_results_map_to_orderings() {
    assert_eq!(ordering_from_cmp(0), Ordering::Equal);
    assert_eq!(ordering_from_cmp(1), Ordering::Greater);
    assert_eq!(ordering_from_cmp(7), Ordering::Greater);
    assert_eq!(ordering_from_cmp(i32::MAX), Ordering::Greater);
    assert_eq!(ordering_from_cmp(-1), Ordering::Less);
    assert_eq!(ordering_from_cmp(i32::MIN), Ordering::Less);
}

#[test]
fn rounding_mode_codes() {
    assert_eq!(mpfr_rnd_t::MPFR_RNDN.code(), 0);
    assert_eq!(mpfr_rnd_t::MPFR_RNDZ.code(), 1);
    assert_eq!(mpfr_rnd_t::MPFR_RNDU.code(), 2);
    assert_eq!(mpfr_rnd_t::MPFR_RNDD.code(), 3);
    assert_eq!(mpfr_rnd_t::MPFR_RNDA.code(), 4);
    assert_eq!(mpfr_rnd_t::MPFR_RNDF.code(), 5);
    assert_eq!(mpfr_rnd_t::MPFR_RNDNA.code(), -1);
}

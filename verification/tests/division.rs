//! The division service, driven through the modeled hardware unit.

use nds_rt::divider::{aeabi_idiv, aeabi_idivmod, aeabi_ldivmod, DivUnit, DIV_BUSY, DIV_MODE_32};

#[test]
fn idivmod_seven_by_two() {
    let mut unit = DivUnit::new(3);
    let r = aeabi_idivmod(&mut unit, 7, 2);
    assert_eq!(r.quot, 3);
    assert_eq!(r.rem, 1);
}

#[test]
fn idivmod_minus_seven_by_two_truncates_toward_zero() {
    let mut unit = DivUnit::new(3);
    let r = aeabi_idivmod(&mut unit, -7, 2);
    assert_eq!(r.quot, -3);
    assert_eq!(r.rem, -1);
}

#[test]
fn idivmod_negative_denominator() {
    let mut unit = DivUnit::new(2);
    let r = aeabi_idivmod(&mut unit, 7, -2);
    assert_eq!(r.quot, -3);
    assert_eq!(r.rem, 1);
    let r = aeabi_idivmod(&mut unit, -7, -2);
    assert_eq!(r.quot, 3);
    assert_eq!(r.rem, -1);
}

#[test]
fn idiv_matches_idivmod_quotient() {
    let pairs: [(i32, i32); 8] = [
        (7, 2),
        (-7, 2),
        (7, -2),
        (-7, -2),
        (0, 5),
        (123_456_789, 1001),
        (i32::MIN, 2),
        (i32::MAX, -3),
    ];
    for &(n, d) in pairs.iter() {
        let mut unit = DivUnit::new(4);
        let q = aeabi_idiv(&mut unit, n, d);
        let qr = aeabi_idivmod(&mut unit, n, d);
        assert_eq!(q, qr.quot);
    }
}

#[test]
fn idivmod_round_trip_identity() {
    let pairs: [(i32, i32); 7] = [
        (7, 2),
        (-7, 2),
        (7, -2),
        (-9, -4),
        (i32::MIN, 1),
        (i32::MIN, -2),
        (i32::MAX, 7),
    ];
    for &(n, d) in pairs.iter() {
        let mut unit = DivUnit::new(1);
        let r = aeabi_idivmod(&mut unit, n, d);
        assert_eq!(r.quot.wrapping_mul(d).wrapping_add(r.rem), n);
        assert!(r.rem == 0 || (r.rem < 0) == (n < 0));
        assert!(r.rem.unsigned_abs() < d.unsigned_abs());
    }
}

#[test]
fn ldivmod_ten_billion_by_three() {
    let mut unit = DivUnit::new(5);
    let r = aeabi_ldivmod(&mut unit, 10_000_000_000, 3);
    assert_eq!(r.quot, 3_333_333_333);
    assert_eq!(r.rem, 1);
}

#[test]
fn ldivmod_round_trip_identity() {
    let pairs: [(i64, i64); 6] = [
        (10_000_000_000, 3),
        (-10_000_000_000, 3),
        (10_000_000_000, -3),
        (i64::MIN, 2),
        (i64::MAX, -5),
        (0, 9),
    ];
    for &(n, d) in pairs.iter() {
        let mut unit = DivUnit::new(2);
        let r = aeabi_ldivmod(&mut unit, n, d);
        assert_eq!(r.quot.wrapping_mul(d).wrapping_add(r.rem), n);
        assert!(r.rem == 0 || (r.rem < 0) == (n < 0));
        assert!(r.rem.unsigned_abs() < d.unsigned_abs());
    }
}

#[test]
fn result_does_not_depend_on_latency() {
    for latency in [0u32, 1, 2, 7, 100] {
        let mut unit = DivUnit::new(latency);
        let r = aeabi_idivmod(&mut unit, 1_000_003, 97);
        assert_eq!(r.quot, 1_000_003 / 97);
        assert_eq!(r.rem, 1_000_003 % 97);
    }
}

#[test]
fn busy_flag_follows_the_protocol() {
    let mut unit = DivUnit::new(3);
    // An idle unit polls as not busy.
    assert_eq!(unit.read_control() & DIV_BUSY, 0);
    // The register writes of a transaction leave the unit busy for the
    // configured number of polls, then the flag clears.
    unit.write_control(DIV_MODE_32);
    unit.write_numerator_32(7);
    unit.write_denominator_32(2);
    assert_ne!(unit.read_control() & DIV_BUSY, 0);
    assert_ne!(unit.read_control() & DIV_BUSY, 0);
    assert_eq!(unit.read_control() & DIV_BUSY, 0);
    assert_eq!(unit.read_quotient_32(), 3);
    assert_eq!(unit.read_remainder_32(), 1);
}

#[test]
fn mode_bits_read_back_from_control() {
    let mut unit = DivUnit::new(0);
    unit.write_control(DIV_MODE_32);
    assert_eq!(unit.read_control(), DIV_MODE_32);
}

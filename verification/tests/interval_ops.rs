use interval32::interval::Bounds32;
use interval32::interval::DomainError;
use interval32::interval::Interval32;

/// Builds a well-formed interval from two finite endpoints.
fn iv(lower: f32, upper: f32) -> Interval32 {
    Interval32::new(lower.to_bits(), upper.to_bits()).unwrap()
}

#[test]
fn test_add() {
    let i1 = iv(1.0, 2.0);
    let i2 = iv(3.0, 4.0);
    let a = i1.bounds();
    let b = i2.bounds();
    let lower = f32::from_bits(a.lower) + f32::from_bits(b.lower);
    let upper = f32::from_bits(a.upper) + f32::from_bits(b.upper);
    let result = Interval32::new(lower.to_bits(), upper.to_bits()).unwrap();
    let bounds = result.bounds();
    // Expected: [1+3, 2+4] = [4,6]
    assert_eq!(bounds.lower, 4.0f32.to_bits());
    assert_eq!(bounds.upper, 6.0f32.to_bits());
}

#[test]
fn test_sub() {
    let i1 = iv(5.0, 7.0);
    let i2 = iv(2.0, 3.0);
    let a = i1.bounds();
    let b = i2.bounds();
    // For subtraction, [a, b] - [c, d] = [a - d, b - c]
    let lower = f32::from_bits(a.lower) - f32::from_bits(b.upper);
    let upper = f32::from_bits(a.upper) - f32::from_bits(b.lower);
    let result = Interval32::new(lower.to_bits(), upper.to_bits()).unwrap();
    let bounds = result.bounds();
    // Expected: [5-3, 7-2] = [2,5]
    assert_eq!(bounds.lower, 2.0f32.to_bits());
    assert_eq!(bounds.upper, 5.0f32.to_bits());
}

fn mul_products(x: Interval32, y: Interval32) -> (u32, u32, u32, u32) {
    let a = x.bounds();
    let b = y.bounds();
    let al = f32::from_bits(a.lower);
    let au = f32::from_bits(a.upper);
    let bl = f32::from_bits(b.lower);
    let bu = f32::from_bits(b.upper);
    ((al * bl).to_bits(), (al * bu).to_bits(), (au * bl).to_bits(), (au * bu).to_bits())
}

#[test]
fn test_mul() {
    // Test with positive intervals.
    let i1 = iv(1.0, 2.0);
    let i2 = iv(3.0, 4.0);
    let (p1, p2, p3, p4) = mul_products(i1, i2);
    let result = Interval32::from_candidates(p1, p2, p3, p4).unwrap();
    let bounds = result.bounds();
    // Products: 1*3=3, 1*4=4, 2*3=6, 2*4=8 => [3,8]
    assert_eq!(bounds.lower, 3.0f32.to_bits());
    assert_eq!(bounds.upper, 8.0f32.to_bits());

    // Test with negative interval.
    let i3 = iv(-2.0, -1.0);
    let i4 = iv(3.0, 4.0);
    let (q1, q2, q3, q4) = mul_products(i3, i4);
    let result2 = Interval32::from_candidates(q1, q2, q3, q4).unwrap();
    let bounds2 = result2.bounds();
    // Products: (-2*3=-6, -2*4=-8, -1*3=-3, -1*4=-4) => min=-8, max=-3
    assert_eq!(bounds2.lower, (-8.0f32).to_bits());
    assert_eq!(bounds2.upper, (-3.0f32).to_bits());
}

#[test]
#[should_panic]
fn test_div_invalid() {
    // Division by an interval containing zero must be refused.
    let _i1 = iv(1.0, 2.0);
    let i2 = iv(-1.0, 1.0);
    i2.check_divisor().unwrap();
}

#[test]
fn test_div_valid() {
    // Test with divisor not containing zero.
    let i1 = iv(1.0, 2.0);
    let i2 = iv(3.0, 4.0);
    i2.check_divisor().unwrap();
    let a = i1.bounds();
    let b = i2.bounds();
    let al = f32::from_bits(a.lower);
    let au = f32::from_bits(a.upper);
    let bl = f32::from_bits(b.lower);
    let bu = f32::from_bits(b.upper);
    let result = Interval32::from_candidates(
        (al / bl).to_bits(),
        (al / bu).to_bits(),
        (au / bl).to_bits(),
        (au / bu).to_bits(),
    )
    .unwrap();
    let bounds = result.bounds();
    // Divisions: 1/3≈0.333, 1/4=0.25, 2/3≈0.667, 2/4=0.5 => [0.25, ~0.667]
    assert!((f32::from_bits(bounds.lower) - 0.25).abs() < 1e-6);
    assert!((f32::from_bits(bounds.upper) - 0.6666667).abs() < 1e-6);
}

#[test]
fn test_mid() {
    let i = iv(1.0, 3.0);
    let b = i.bounds();
    // Midpoint: (1+3)/2 = 2.0
    assert_eq!((f32::from_bits(b.lower) + f32::from_bits(b.upper)) / 2.0, 2.0);
}

#[test]
fn test_width() {
    let i = iv(1.0, 4.0);
    let b = i.bounds();
    // Width: 4-1 = 3.0
    assert_eq!(f32::from_bits(b.upper) - f32::from_bits(b.lower), 3.0);
}

#[test]
fn test_radius() {
    let i = iv(1.0, 5.0);
    let b = i.bounds();
    // Radius: (5-1)/2 = 2.0
    assert_eq!((f32::from_bits(b.upper) - f32::from_bits(b.lower)) / 2.0, 2.0);
}

#[test]
fn test_min() {
    let i = iv(2.0, 6.0);
    // Lower bound is 2.0
    assert_eq!(i.min(), 2.0f32.to_bits());
}

#[test]
fn test_max() {
    let i = iv(2.0, 6.0);
    // Upper bound is 6.0
    assert_eq!(i.max(), 6.0f32.to_bits());
}

#[test]
fn test_before() {
    // "Before": self.upper < other.lower.
    let i1 = iv(1.0, 2.0);
    let i2 = iv(3.0, 4.0);
    assert!(i1.before(i2));
    assert!(!i2.before(i1));
}

#[test]
fn test_meets() {
    // "Meets": self.upper == other.lower.
    let i1 = iv(1.0, 2.0);
    let i2 = iv(2.0, 3.0);
    assert!(i1.meets(i2));
    assert!(!i2.meets(i1));
}

#[test]
fn test_overlaps() {
    // "Overlaps": intervals partially overlap without one fully containing the other.
    let i1 = iv(1.0, 3.0);
    let i2 = iv(2.0, 4.0);
    assert!(i1.overlaps(i2));
    // Non-overlapping intervals.
    let i3 = iv(4.0, 5.0);
    assert!(!i1.overlaps(i3));
}

#[test]
fn test_during() {
    // "During": self is entirely contained within other.
    let inner = iv(3.0, 4.0);
    let outer = iv(2.0, 5.0);
    assert!(inner.during(outer));
    assert!(!outer.during(inner));
}

#[test]
fn test_starts() {
    // "Starts": same lower bound, and self.upper < other.upper.
    let i1 = iv(1.0, 2.0);
    let i2 = iv(1.0, 3.0);
    assert!(i1.starts(i2));
    assert!(!i2.starts(i1));
}

#[test]
fn test_finishes() {
    // "Finishes": same upper bound, and self.lower > other.lower.
    let i1 = iv(2.0, 3.0);
    let i2 = iv(1.0, 3.0);
    assert!(i1.finishes(i2));
    assert!(!i2.finishes(i1));
}

#[test]
fn test_eq() {
    let i1 = iv(1.0, 2.0);
    let i2 = iv(1.0, 2.0);
    let i3 = iv(2.0, 3.0);
    assert!(i1.eq(i2));
    assert!(!i1.eq(i3));
}

#[test]
fn test_new_rejects_crossed_bounds() {
    // Construction with lower > upper is refused, never repaired.
    let r = Interval32::new(2.0f32.to_bits(), 1.0f32.to_bits());
    assert_eq!(r, Err(DomainError::InvalidBounds));
}

#[test]
fn test_new_rejects_nan() {
    // A NaN endpoint satisfies no ordering, so construction is refused.
    let r = Interval32::new(f32::NAN.to_bits(), 1.0f32.to_bits());
    assert_eq!(r, Err(DomainError::InvalidBounds));
    let r2 = Interval32::new(1.0f32.to_bits(), f32::NAN.to_bits());
    assert_eq!(r2, Err(DomainError::InvalidBounds));
}

#[test]
fn test_divisor_touching_zero_rejected() {
    // The zero-straddle check uses closed bounds: an interval that only
    // touches zero at an endpoint is still no valid divisor.
    assert_eq!(iv(0.0, 1.0).check_divisor(), Err(DomainError::DivisionByZeroInterval));
    assert_eq!(iv(-1.0, 0.0).check_divisor(), Err(DomainError::DivisionByZeroInterval));
    assert_eq!(iv(-2.0, -1.0).check_divisor(), Ok(()));
    assert_eq!(iv(1.0, 2.0).check_divisor(), Ok(()));
}

#[test]
fn test_round_trip_bits() {
    // Packing then unpacking yields bit-identical bounds, and the packed
    // word's little-endian bytes are the lower endpoint's four bytes
    // followed by the upper endpoint's.
    let i = iv(1.5, 2.5);
    let w = i.to_bits();
    let back = Interval32::from_bits(w).unwrap();
    assert_eq!(back.bounds(), i.bounds());
    let bytes = w.to_le_bytes();
    assert_eq!(bytes[0..4], 1.5f32.to_le_bytes());
    assert_eq!(bytes[4..8], 2.5f32.to_le_bytes());
}

#[test]
fn test_from_bits_rejects_crossed_word() {
    // A word whose halves are out of order is refused.
    let w = (2.0f32.to_bits() as u64) | ((1.0f32.to_bits() as u64) << 32);
    assert_eq!(Interval32::from_bits(w), Err(DomainError::InvalidBounds));
}

#[test]
fn test_negative_zero_equals_zero() {
    // IEEE-754 equality identifies the two zero patterns.
    let a = iv(-0.0, -0.0);
    let b = iv(0.0, 0.0);
    assert!(a.eq(b));
    assert!(a.meets(b));
    assert!(!a.before(b));
}

#[test]
fn test_negative_bounds_ordering() {
    // Sign handling: -2 < -1 < 1, also through the packed representation.
    let i = iv(-2.0, -1.0);
    assert_eq!(i.min(), (-2.0f32).to_bits());
    assert_eq!(i.max(), (-1.0f32).to_bits());
    assert!(i.before(iv(1.0, 2.0)));
    assert!(!iv(1.0, 2.0).before(i));
}

#[test]
fn test_infinite_upper_bound() {
    // An infinite endpoint is ordered above every finite one.
    let i = iv(1.0, f32::INFINITY);
    assert_eq!(i.max(), f32::INFINITY.to_bits());
    assert!(iv(-3.0, 0.0).before(iv(f32::MAX, f32::INFINITY)));
}

#[test]
fn test_mul_mixed_signs() {
    // Extremal selection with a sign-straddling operand:
    // [-2,1] * [3,4] has products -6,-8,3,4 => [-8,4].
    let (p1, p2, p3, p4) = mul_products(iv(-2.0, 1.0), iv(3.0, 4.0));
    let b = Interval32::from_candidates(p1, p2, p3, p4).unwrap().bounds();
    assert_eq!(b.lower, (-8.0f32).to_bits());
    assert_eq!(b.upper, 4.0f32.to_bits());
}

#[test]
fn test_from_candidates_all_nan_rejected() {
    // With no usable candidate at all, no interval is produced.
    let n = f32::NAN.to_bits();
    assert_eq!(Interval32::from_candidates(n, n, n, n), Err(DomainError::InvalidBounds));
    // A single usable candidate is both endpoints.
    let b = Interval32::from_candidates(n, 2.0f32.to_bits(), n, n).unwrap().bounds();
    assert_eq!(b.lower, 2.0f32.to_bits());
    assert_eq!(b.upper, 2.0f32.to_bits());
}

#[test]
fn test_meets_point_interval() {
    // A single-point interval meets itself in both directions; that is the
    // only way `meets` holds both ways, and the two sides are then equal.
    let p = iv(2.0, 2.0);
    let q = iv(2.0, 2.0);
    assert!(p.meets(q));
    assert!(q.meets(p));
    assert!(p.eq(q));
}

#[test]
fn test_bounds_interval_round_trip() {
    let b = Bounds32::new(1.0f32.to_bits(), 2.0f32.to_bits()).unwrap();
    let i = b.interval();
    assert_eq!(i.bounds(), b);
    assert_eq!(i.to_bits(), (1.0f32.to_bits() as u64) | ((2.0f32.to_bits() as u64) << 32));
}

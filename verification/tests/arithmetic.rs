use soochcart::fixed::{integer_sqrt, Fixed, SCALE};
use soochcart::vec3::Vec3;

fn raw(v: i64) -> Fixed {
    Fixed::from_raw(v)
}

#[test]
fn scale_is_one_million() {
    assert_eq!(SCALE, 1_000_000);
    assert_eq!(Fixed::one().raw(), 1_000_000);
    assert_eq!(Fixed::zero().raw(), 0);
    assert_eq!(Fixed::epsilon().raw(), 1);
}

#[test]
fn from_int_scales_whole_units() {
    assert_eq!(Fixed::from_int(12).raw(), 12_000_000);
    assert_eq!(Fixed::from_int(-3).raw(), -3_000_000);
    assert_eq!(Fixed::from_int(0).raw(), 0);
}

#[test]
fn from_int_saturates() {
    assert_eq!(Fixed::from_int(i64::MAX).raw(), i64::MAX);
    assert_eq!(Fixed::from_int(i64::MIN).raw(), i64::MIN);
}

#[test]
fn sums_and_differences_are_exact_in_range() {
    assert_eq!(raw(350_000).plus(raw(150_000)).raw(), 500_000);
    assert_eq!(raw(350_000).minus(raw(500_000)).raw(), -150_000);
    assert_eq!(raw(-7).negated().raw(), 7);
}

#[test]
fn sums_and_differences_saturate() {
    assert_eq!(raw(i64::MAX).plus(raw(1)).raw(), i64::MAX);
    assert_eq!(raw(i64::MIN).plus(raw(-1)).raw(), i64::MIN);
    assert_eq!(raw(i64::MIN).minus(raw(1)).raw(), i64::MIN);
    assert_eq!(raw(i64::MAX).minus(raw(-1)).raw(), i64::MAX);
    assert_eq!(raw(i64::MIN).negated().raw(), i64::MAX);
}

#[test]
fn products_scale_back() {
    assert_eq!(raw(4_000_000).times(raw(20_000_000)).raw(), 80_000_000);
    assert_eq!(raw(80_000_000).times(raw(500_000)).raw(), 40_000_000);
    assert_eq!(raw(-2_000_000).times(raw(3_000_000)).raw(), -6_000_000);
    assert_eq!(raw(123_456).times(raw(0)).raw(), 0);
}

#[test]
fn products_round_toward_zero() {
    assert_eq!(raw(1_500_000).times(raw(1)).raw(), 1);
    assert_eq!(raw(-1_500_000).times(raw(1)).raw(), -1);
    assert_eq!(raw(999_999).times(raw(1)).raw(), 0);
    assert_eq!(raw(-999_999).times(raw(1)).raw(), 0);
}

#[test]
fn products_saturate() {
    assert_eq!(raw(i64::MAX).times(raw(2_000_000)).raw(), i64::MAX);
    assert_eq!(raw(i64::MAX).times(raw(-2_000_000)).raw(), i64::MIN);
    assert_eq!(raw(i64::MIN).times(raw(i64::MIN)).raw(), i64::MAX);
}

#[test]
fn quotients_round_toward_zero() {
    assert_eq!(raw(1_000_000).over(raw(3_000_000)).map(|q| q.raw()), Some(333_333));
    assert_eq!(raw(-1_000_000).over(raw(3_000_000)).map(|q| q.raw()), Some(-333_333));
    assert_eq!(raw(1_000_000).over(raw(-3_000_000)).map(|q| q.raw()), Some(-333_333));
    assert_eq!(raw(-1_000_000).over(raw(-3_000_000)).map(|q| q.raw()), Some(333_333));
    assert_eq!(raw(175_000).over(raw(350_000)).map(|q| q.raw()), Some(500_000));
}

#[test]
fn quotient_by_zero_is_none() {
    assert_eq!(raw(1_000_000).over(raw(0)), None);
    assert_eq!(raw(0).over(raw(0)), None);
}

#[test]
fn quotients_saturate() {
    assert_eq!(raw(i64::MAX).over(raw(1)).map(|q| q.raw()), Some(i64::MAX));
    assert_eq!(raw(i64::MIN).over(raw(1)).map(|q| q.raw()), Some(i64::MIN));
    assert_eq!(raw(i64::MIN).over(raw(-1)).map(|q| q.raw()), Some(i64::MAX));
}

#[test]
fn at_least_picks_the_larger() {
    assert_eq!(raw(-5).at_least(raw(0)).raw(), 0);
    assert_eq!(raw(5).at_least(raw(0)).raw(), 5);
    assert_eq!(raw(0).at_least(raw(0)).raw(), 0);
}

#[test]
fn integer_sqrt_of_small_numbers() {
    assert_eq!(integer_sqrt(0), 0);
    assert_eq!(integer_sqrt(1), 1);
    assert_eq!(integer_sqrt(2), 1);
    assert_eq!(integer_sqrt(3), 1);
    assert_eq!(integer_sqrt(4), 2);
    assert_eq!(integer_sqrt(8), 2);
    assert_eq!(integer_sqrt(9), 3);
    assert_eq!(integer_sqrt(99), 9);
    assert_eq!(integer_sqrt(100), 10);
}

#[test]
fn integer_sqrt_of_large_numbers() {
    assert_eq!(integer_sqrt(1_000_000_000_000), 1_000_000);
    assert_eq!(integer_sqrt(999_999_999_999), 999_999);
    assert_eq!(integer_sqrt(u128::MAX), 18_446_744_073_709_551_615);
    let big: u128 = 18_446_744_073_709_551_615;
    assert_eq!(integer_sqrt(big * big), big);
    assert_eq!(integer_sqrt(big * big - 1), big - 1);
}

#[test]
fn integer_sqrt_brackets_its_argument() {
    let mut n: u128 = 0;
    while n < 2_000 {
        let r: u128 = integer_sqrt(n);
        assert!(r * r <= n);
        assert!(n < (r + 1) * (r + 1));
        n += 1;
    }
}

#[test]
fn vector_sum_difference_negation() {
    let a = Vec3::from_raw(1, 2, 3);
    let b = Vec3::from_raw(10, 20, 30);
    assert_eq!(a.plus(b), Vec3::from_raw(11, 22, 33));
    assert_eq!(a.minus(b), Vec3::from_raw(-9, -18, -27));
    assert_eq!(a.negated(), Vec3::from_raw(-1, -2, -3));
    assert_eq!(Vec3::zero(), Vec3::from_raw(0, 0, 0));
    assert_eq!(Vec3::new(raw(1), raw(2), raw(3)), a);
}

#[test]
fn vector_scaled_by_a_scalar() {
    let up = Vec3::from_raw(0, 1_000_000, 0);
    assert_eq!(up.scaled(raw(40_000_000)), Vec3::from_raw(0, 40_000_000, 0));
    assert_eq!(up.scaled(raw(-500_000)), Vec3::from_raw(0, -500_000, 0));
}

#[test]
fn dot_product_of_vectors() {
    let a = Vec3::from_raw(1_000_000, 2_000_000, 3_000_000);
    let b = Vec3::from_raw(4_000_000, -5_000_000, 6_000_000);
    assert_eq!(a.dot(b).raw(), 12_000_000);
    assert_eq!(b.dot(a).raw(), 12_000_000);
}

#[test]
fn cross_product_is_right_handed() {
    let x = Vec3::from_raw(1_000_000, 0, 0);
    let y = Vec3::from_raw(0, 1_000_000, 0);
    let z = Vec3::from_raw(0, 0, 1_000_000);
    assert_eq!(x.cross(y), z);
    assert_eq!(y.cross(z), x);
    assert_eq!(z.cross(x), y);
    assert_eq!(y.cross(x), z.negated());
}

#[test]
fn length_of_a_vector() {
    assert_eq!(Vec3::from_raw(3_000_000, 4_000_000, 0).length().raw(), 5_000_000);
    assert_eq!(Vec3::from_raw(3_000_000, 4_000_000, 0).raw_length(), 5_000_000);
    assert_eq!(Vec3::zero().length().raw(), 0);
    assert_eq!(Vec3::from_raw(1, 1, 1).length().raw(), 1);
}

#[test]
fn length_saturates() {
    assert_eq!(Vec3::from_raw(i64::MIN, i64::MIN, i64::MIN).length().raw(), i64::MAX);
    assert_eq!(Vec3::from_raw(i64::MAX, 0, 0).length().raw(), i64::MAX);
}

#[test]
fn normalize_gives_unit_length() {
    assert_eq!(
        Vec3::from_raw(3_000_000, 4_000_000, 0).normalize(),
        Some(Vec3::from_raw(600_000, 800_000, 0))
    );
    assert_eq!(
        Vec3::from_raw(0, -250_000, 0).normalize(),
        Some(Vec3::from_raw(0, -1_000_000, 0))
    );
    assert_eq!(Vec3::from_raw(0, 0, 1).normalize(), Some(Vec3::from_raw(0, 0, 1_000_000)));
}

#[test]
fn normalize_rounds_toward_zero() {
    assert_eq!(
        Vec3::from_raw(1_000_000, 1_000_000, 1_000_000).normalize(),
        Some(Vec3::from_raw(577_350, 577_350, 577_350))
    );
    assert_eq!(
        Vec3::from_raw(-1_000_000, -1_000_000, -1_000_000).normalize(),
        Some(Vec3::from_raw(-577_350, -577_350, -577_350))
    );
}

#[test]
fn normalize_of_zero_is_none() {
    assert_eq!(Vec3::zero().normalize(), None);
}

#[test]
fn normalize_at_the_ends_of_the_range() {
    let n = Vec3::from_raw(i64::MIN, i64::MAX, 0).normalize();
    assert_eq!(n, Some(Vec3::from_raw(-707_106, 707_106, 0)));
}

use opensase_payments::decimal::{Decimal, MAX_MANTISSA};

/// A small deterministic generator, so that the same pairs are tried each run.
struct Lcg(u64);

impl Lcg {
    fn next(&mut self) -> u64 {
        self.0 = self.0.wrapping_mul(6364136223846793005).wrapping_add(1442695040888963407);
        self.0 >> 11
    }

    fn decimal(&mut self, max_scale: u32) -> Decimal {
        let bits = (self.next() % 97) as u32;
        let raw = ((self.next() as u128) << 64) | self.next() as u128;
        let magnitude = if bits == 0 { 0 } else { raw >> (128 - bits) };
        let signed = if self.next() % 2 == 0 { magnitude as i128 } else { -(magnitude as i128) };
        let scale = (self.next() % (max_scale as u64 + 1)) as u32;
        Decimal::try_from_i128_with_scale(signed, scale).unwrap()
    }
}

fn pow10(n: u32) -> i128 {
    10i128.pow(n)
}

/// Both mantissas at the larger scale, where that can be computed in 128 bits.
fn aligned(a: &Decimal, b: &Decimal) -> Option<(i128, i128, u32)> {
    let s = a.scale().max(b.scale());
    let x = a.mantissa().checked_mul(pow10(s - a.scale()))?;
    let y = b.mantissa().checked_mul(pow10(s - b.scale()))?;
    Some((x, y, s))
}

fn fits(m: i128) -> bool {
    -MAX_MANTISSA <= m && m <= MAX_MANTISSA
}

#[test]
fn addition_is_exact_where_nothing_has_to_be_rounded() {
    let mut g = Lcg(7);
    let mut exact = 0;
    for round in 0..20000 {
        let max_scale = if round % 2 == 0 { 9 } else { 28 };
        let a = g.decimal(max_scale);
        let b = g.decimal(max_scale);
        let (x, y, s) = match aligned(&a, &b) {
            Some(t) => t,
            None => continue,
        };
        if !(fits(x) && fits(y) && fits(x + y)) {
            continue;
        }
        exact += 1;
        let sum = a.checked_add(&b).unwrap();
        assert!(sum.scale() <= s);
        assert_eq!(sum.mantissa() * pow10(s - sum.scale()), x + y);
        if a.mantissa() != 0 && b.mantissa() != 0 {
            assert_eq!((sum.mantissa(), sum.scale()), (x + y, s));
        }
    }
    assert!(exact > 5000);
}

#[test]
fn adding_zero_gives_the_other_number_as_it_is() {
    let mut g = Lcg(23);
    for round in 0..20000 {
        let a = g.decimal(28);
        let zero = Decimal::try_from_i128_with_scale(0, (round % 29) as u32).unwrap();
        let left = zero.checked_add(&a).unwrap();
        assert_eq!((left.mantissa(), left.scale()), (a.mantissa(), a.scale()));
        let right = a.checked_add(&zero).unwrap();
        if a.mantissa() != 0 {
            assert_eq!((right.mantissa(), right.scale()), (a.mantissa(), a.scale()));
        } else {
            assert_eq!((right.mantissa(), right.scale()), (0, zero.scale()));
        }
    }
}

#[test]
fn sum_of_non_negatives_is_not_negative() {
    let mut g = Lcg(11);
    for _ in 0..20000 {
        let a = g.decimal(28);
        let b = g.decimal(28);
        if a.mantissa() < 0 || b.mantissa() < 0 {
            continue;
        }
        if let Some(sum) = a.checked_add(&b) {
            assert!(sum.mantissa() >= 0);
        }
    }
}

#[test]
fn sums_stay_in_range() {
    let mut g = Lcg(13);
    for _ in 0..20000 {
        let a = g.decimal(28);
        let b = g.decimal(28);
        if let Some(sum) = a.checked_add(&b) {
            assert!(fits(sum.mantissa()));
            assert!(sum.scale() <= 28);
        }
    }
}

#[test]
fn order_is_that_of_the_aligned_mantissas() {
    let mut g = Lcg(17);
    let mut compared = 0;
    for round in 0..20000 {
        let max_scale = if round % 2 == 0 { 9 } else { 28 };
        let a = g.decimal(max_scale);
        let b = if round % 5 == 0 { a } else { g.decimal(max_scale) };
        let (x, y, _) = match aligned(&a, &b) {
            Some(t) => t,
            None => continue,
        };
        compared += 1;
        assert_eq!(a.lt(&b), x < y);
        assert_eq!(a.gt(&b), x > y);
        assert_eq!(a.value_eq(&b), x == y);
        assert_eq!(a == b, x == y);
    }
    assert!(compared > 5000);
}

use ido::price::{PRICE_MULTIPLIER_DENOMINATOR, PRICE_MULTIPLIER_NUMERATOR};
use ido::{get_new_price, initial_price, normalize, ErrorCode, TokenPrice};

fn price(numerator: u64, denominator: u64) -> TokenPrice {
    TokenPrice { numerator, denominator }
}

fn gcd(a: u64, b: u64) -> u64 {
    if b == 0 {
        a
    } else {
        gcd(b, a % b)
    }
}

#[test]
fn normalize_divides_by_the_greatest_common_divisor() {
    assert_eq!(normalize(price(6, 8)), price(3, 4));
    assert_eq!(normalize(price(8, 6)), price(4, 3));
    assert_eq!(normalize(price(10609, 10000)), price(10609, 10000));
    assert_eq!(normalize(price(1 << 40, 1 << 20)), price(1 << 20, 1));
    assert_eq!(normalize(price(u64::MAX, u64::MAX)), price(1, 1));
}

#[test]
fn normalize_gives_lowest_terms() {
    for n in 0..60u64 {
        for d in 1..60u64 {
            let r = normalize(price(n, d));
            assert_eq!(gcd(r.numerator, r.denominator), 1);
            assert_eq!(r.numerator * d, n * r.denominator);
            assert_ne!(r.denominator, 0);
        }
    }
}

#[test]
fn normalize_is_idempotent() {
    for n in 0..40u64 {
        for d in 1..40u64 {
            let once = normalize(price(n, d));
            assert_eq!(normalize(once), once);
        }
    }
}

#[test]
fn normalize_of_a_zero_numerator_is_zero_over_one() {
    assert_eq!(normalize(price(0, 5)), price(0, 1));
    assert_eq!(normalize(price(0, u64::MAX)), price(0, 1));
}

#[test]
fn normalize_of_a_zero_denominator_is_one_over_zero() {
    assert_eq!(normalize(price(5, 0)), price(1, 0));
}

#[test]
fn equal_values_have_one_normal_form() {
    assert_eq!(normalize(price(2, 4)), normalize(price(50, 100)));
    assert_eq!(normalize(price(309, 300)), normalize(price(103, 100)));
    assert_ne!(normalize(price(1, 2)), normalize(price(2, 3)));
}

#[test]
fn initial_price_with_equal_decimals_cancels_out() {
    assert_eq!(initial_price(price(1, 1), 6, 6), Ok(price(1, 1)));
}

#[test]
fn initial_price_multiplies_by_the_decimals() {
    assert_eq!(initial_price(price(1, 1), 9, 6), Ok(price(3, 2)));
    assert_eq!(initial_price(price(5, 7), 2, 3), Ok(price(10, 21)));
    assert_eq!(initial_price(price(3, 4), 0, 6), Ok(price(0, 1)));
}

#[test]
fn initial_price_has_a_denominator_that_is_not_zero() {
    for n in 0..20u64 {
        for d in 1..20u64 {
            for asset_decimals in 0..10u8 {
                for quote_decimals in 1..10u8 {
                    let opening = initial_price(price(n, d), asset_decimals, quote_decimals)
                        .unwrap();
                    assert_ne!(opening.denominator, 0);
                    assert_eq!(gcd(opening.numerator, opening.denominator), 1);
                    assert_eq!(
                        opening.numerator * (d * quote_decimals as u64),
                        n * asset_decimals as u64 * opening.denominator
                    );
                }
            }
        }
    }
}

#[test]
fn initial_price_reports_overflow() {
    assert_eq!(initial_price(price(u64::MAX, 1), 2, 1), Err(ErrorCode::ArithmeticOverflow));
    assert_eq!(initial_price(price(1, u64::MAX), 1, 2), Err(ErrorCode::ArithmeticOverflow));
    assert_eq!(initial_price(price(u64::MAX, u64::MAX), 1, 1), Ok(price(1, 1)));
    assert_eq!(
        initial_price(price(u64::MAX / 255, 1), 255, 1),
        Ok(price(u64::MAX / 255 * 255, 1))
    );
    assert_eq!(
        initial_price(price(u64::MAX / 255 + 1, 1), 255, 1),
        Err(ErrorCode::ArithmeticOverflow)
    );
}

#[test]
fn the_multiplier_is_three_percent() {
    assert_eq!(PRICE_MULTIPLIER_NUMERATOR, 103);
    assert_eq!(PRICE_MULTIPLIER_DENOMINATOR, 100);
}

#[test]
fn get_new_price_raises_by_three_percent() {
    assert_eq!(get_new_price(price(1, 1)), Ok(price(103, 100)));
    assert_eq!(get_new_price(price(103, 100)), Ok(price(10609, 10000)));
    assert_eq!(get_new_price(price(100, 103)), Ok(price(1, 1)));
    assert_eq!(get_new_price(price(200, 1)), Ok(price(206, 1)));
    assert_eq!(get_new_price(price(0, 7)), Ok(price(0, 1)));
}

#[test]
fn get_new_price_is_greater_than_the_old_price() {
    for n in 1..50u64 {
        for d in 1..50u64 {
            let old = normalize(price(n, d));
            let new = get_new_price(old).unwrap();
            assert!(
                (new.numerator as u128) * (old.denominator as u128)
                    > (old.numerator as u128) * (new.denominator as u128)
            );
            assert_eq!(
                (new.numerator as u128) * (old.denominator as u128) * 100,
                (old.numerator as u128) * 103 * (new.denominator as u128)
            );
        }
    }
}

#[test]
fn get_new_price_of_zero_stays_zero() {
    let new = get_new_price(price(0, 1)).unwrap();
    assert_eq!(new, price(0, 1));
}

#[test]
fn get_new_price_reports_overflow() {
    assert_eq!(get_new_price(price(u64::MAX, 1)), Err(ErrorCode::ArithmeticOverflow));
    assert_eq!(get_new_price(price(1, u64::MAX)), Err(ErrorCode::ArithmeticOverflow));
    assert_eq!(get_new_price(price(u64::MAX / 103 + 1, 1)), Err(ErrorCode::ArithmeticOverflow));
    assert_eq!(get_new_price(price(1, u64::MAX / 100 + 1)), Err(ErrorCode::ArithmeticOverflow));
    assert_eq!(
        get_new_price(price(u64::MAX / 103, 1)),
        Ok(price(u64::MAX / 103 * 103, 100))
    );
}

#[test]
fn repeated_rounds_end_in_overflow_not_in_a_wrong_price() {
    let mut current = price(1, 1);
    let mut rounds = 0;
    loop {
        match get_new_price(current) {
            Ok(next) => {
                assert_eq!(gcd(next.numerator, next.denominator), 1);
                current = next;
                rounds += 1;
            }
            Err(e) => {
                assert_eq!(e, ErrorCode::ArithmeticOverflow);
                break;
            }
        }
    }
    assert_eq!(rounds, 9);
    assert_eq!(current, price(103u64.pow(9), 100u64.pow(9)));
}

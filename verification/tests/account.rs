use ido::{
    initialize, ErrorCode, IdoTimes, Initialize, ProgramState, Space, StateMachineWrapper,
    TokenPrice,
};

fn accounts(ido_token_decimals: u8, stable_token_decimals: u8) -> Initialize {
    Initialize {
        ido_authority: [1; 32],
        ido_token: [2; 32],
        ido_token_decimals,
        stable_token: [3; 32],
        stable_token_decimals,
        stable_pool: [4; 32],
    }
}

fn times(start_at: i64, end_at: i64, default_round_length: i64) -> IdoTimes {
    IdoTimes { start_at, end_at, default_round_length }
}

fn price(numerator: u64, denominator: u64) -> TokenPrice {
    TokenPrice { numerator, denominator }
}

#[test]
fn initialize_creates_a_sale_that_has_not_started() {
    let state = initialize(accounts(6, 6), 1_000_000, times(100, 200, 50), price(1, 1), 50)
        .unwrap();
    assert_eq!(state.ido_authority, [1; 32]);
    assert_eq!(state.state_number, 0);
    assert!(matches!(state.current_round, StateMachineWrapper::NotStarted(_)));
    assert_eq!(state.order_number, 0);
    assert_eq!(state.ido_token, [2; 32]);
    assert_eq!(state.stable_token, [3; 32]);
    assert_eq!(state.stable_token_pool, [4; 32]);
    assert_eq!(state.ido_tokens_amount, 1_000_000);
    assert_eq!(state.token_price, price(1, 1));
    assert_eq!(state.ido_times, times(100, 200, 50));
}

#[test]
fn initialize_scales_and_reduces_the_price() {
    let state = initialize(accounts(9, 6), 5, times(100, 200, 50), price(4, 6), 0).unwrap();
    assert_eq!(state.token_price, price(1, 1));
    let state = initialize(accounts(2, 3), 5, times(100, 200, 50), price(5, 7), 0).unwrap();
    assert_eq!(state.token_price, price(10, 21));
}

#[test]
fn initialize_stores_a_price_with_a_denominator_that_is_not_zero() {
    for quote_decimals in 1..12u8 {
        for asset_decimals in 0..12u8 {
            let state = initialize(
                accounts(asset_decimals, quote_decimals),
                5,
                times(100, 200, 50),
                price(3, 4),
                50,
            )
            .unwrap();
            assert_ne!(state.token_price.denominator, 0);
            assert_eq!(
                state.token_price.numerator * 4 * quote_decimals as u64,
                3 * asset_decimals as u64 * state.token_price.denominator
            );
        }
    }
}

#[test]
fn initialize_surfaces_the_reason_of_the_schedule() {
    let a = accounts(6, 6);
    assert_eq!(
        initialize(a, 5, times(100, 200, 50), price(1, 1), 150),
        Err(ErrorCode::IdoFuture)
    );
    assert_eq!(initialize(a, 5, times(100, 120, 50), price(1, 1), 50), Err(ErrorCode::IdoShort));
    assert_eq!(initialize(a, 5, times(100, 90, -50), price(1, 1), 50), Err(ErrorCode::SeqTimes));
}

#[test]
fn initialize_reports_a_price_that_overflows() {
    assert_eq!(
        initialize(accounts(6, 6), 5, times(100, 200, 50), price(u64::MAX, 1), 50),
        Err(ErrorCode::ArithmeticOverflow)
    );
    assert_eq!(
        initialize(accounts(6, 6), 5, times(100, 200, 50), price(1, u64::MAX / 2), 50),
        Err(ErrorCode::ArithmeticOverflow)
    );
}

#[test]
fn initialize_checks_the_schedule_before_the_price() {
    assert_eq!(
        initialize(accounts(6, 6), 5, times(100, 200, 50), price(u64::MAX, 1), 150),
        Err(ErrorCode::IdoFuture)
    );
    assert_eq!(
        initialize(accounts(0, 0), 5, times(100, 200, 50), price(0, 0), 150),
        Err(ErrorCode::IdoFuture)
    );
}

#[test]
fn stored_sizes_are_fixed() {
    assert_eq!(<StateMachineWrapper as Space>::space(), 1);
    assert_eq!(<IdoTimes as Space>::space(), 24);
    assert_eq!(<TokenPrice as Space>::space(), 16);
    assert_eq!(<ProgramState as Space>::space(), 193);
}

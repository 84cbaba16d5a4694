//! The record of a sale and its creation.

use crate::error::ErrorCode;
use crate::price::{decimals_factor, initial_price, TokenPrice};
use crate::schedule::{validate_ido_times, validate_ido_times_spec, IdoTimes};
use crate::state::{Phase, StateMachineWrapper};
use vstd::prelude::*;

verus! {

/// Everything that is stored of a sale.  Only `current_round` and
/// `token_price` change after creation.
#[derive(Copy, Clone, Debug, PartialEq, Eq)]
pub struct ProgramState {
    /// Address of the authority that created the sale.
    pub ido_authority: [u8; 32],
    /// Number of the state the sale is in; zero at creation.
    pub state_number: u64,
    /// The phase the sale is in.
    pub current_round: StateMachineWrapper,
    /// Number of orders taken so far; zero at creation.
    pub order_number: u64,
    /// Address of the mint of the token on sale.
    pub ido_token: [u8; 32],
    /// Address of the mint of the token that pays for it.
    pub stable_token: [u8; 32],
    /// Address of the pool that collects the payments.
    pub stable_token_pool: [u8; 32],
    /// How many tokens are on sale.
    pub ido_tokens_amount: u64,
    /// The current price, in lowest terms.
    pub token_price: TokenPrice,
    /// The schedule, as checked at creation.
    pub ido_times: IdoTimes,
}

/// What the creation of a sale reads from the accounts it is given.
#[derive(Copy, Clone, Debug, PartialEq, Eq)]
pub struct Initialize {
    /// Address of the authority that creates the sale and pays for it.
    pub ido_authority: [u8; 32],
    /// Address of the mint of the token on sale.
    pub ido_token: [u8; 32],
    /// Decimals of the token on sale.
    pub ido_token_decimals: u8,
    /// Address of the mint of the token that pays for it.
    pub stable_token: [u8; 32],
    /// Decimals of the token that pays for it.
    pub stable_token_decimals: u8,
    /// Address of the pool that collects the payments.
    pub stable_pool: [u8; 32],
}

impl ProgramState {
    /// What holds of every stored sale: its price has a denominator that is
    /// not zero and is in lowest terms, and its schedule lasts at least one
    /// round and does not end before it starts.
    pub open spec fn is_well_formed(self) -> bool {
        &&& self.token_price.is_valid()
        &&& self.token_price.is_reduced()
        &&& self.ido_times.lasts_a_round()
    }

    /// `self` is the record of a sale as it is created from these inputs:
    /// not started, with no orders, the addresses and the schedule as given
    /// and `price` as its price.
    pub open spec fn is_created_from(
        self,
        accounts: Initialize,
        init_ido_tokens_amount: u64,
        ido_times: IdoTimes,
        price: TokenPrice,
    ) -> bool {
        &&& self.ido_authority == accounts.ido_authority
        &&& self.state_number == 0
        &&& self.current_round@ == Phase::NotStarted
        &&& self.order_number == 0
        &&& self.ido_token == accounts.ido_token
        &&& self.stable_token == accounts.stable_token
        &&& self.stable_token_pool == accounts.stable_pool
        &&& self.ido_tokens_amount == init_ido_tokens_amount
        &&& self.token_price == price
        &&& self.ido_times == ido_times
    }
}

/// The price at which a sale opens, or why it cannot be computed.
pub open spec fn opening_price(accounts: Initialize, token_price: TokenPrice) -> Result<
    TokenPrice,
    ErrorCode,
> {
    token_price.scaled(
        decimals_factor(accounts.ido_token_decimals, accounts.stable_token_decimals),
    )
}

/// Why a sale cannot be created from these inputs, if it cannot: the
/// schedule is checked first, then the price is computed.
pub open spec fn initialize_error(
    accounts: Initialize,
    ido_times: IdoTimes,
    token_price: TokenPrice,
    current_time: i64,
) -> Option<ErrorCode> {
    match validate_ido_times_spec(ido_times, current_time) {
        Err(e) => Some(e),
        Ok(_) => match opening_price(accounts, token_price) {
            Err(e) => Some(e),
            Ok(_) => None,
        },
    }
}

/// Creates the record of a sale, or says why it cannot be created.  Nothing
/// is made of a refused sale.
///
/// The one input that is left out is an accepted schedule with a price whose
/// scaled denominator is zero: a sale is never stored with such a price.
pub fn initialize(
    accounts: Initialize,
    init_ido_tokens_amount: u64,
    ido_times: IdoTimes,
    token_price: TokenPrice,
    current_time: i64,
) -> (r: Result<ProgramState, ErrorCode>)
    requires
        ido_times.is_acceptable_at(current_time) ==> token_price.denominator
            * accounts.stable_token_decimals != 0,
    ensures
        match initialize_error(accounts, ido_times, token_price, current_time) {
            Some(e) => r == Err::<ProgramState, ErrorCode>(e),
            None => {
                &&& r matches Ok(state)
                &&& opening_price(accounts, token_price) matches Ok(price)
                &&& state.is_created_from(accounts, init_ido_tokens_amount, ido_times, price)
                &&& state.is_well_formed()
            },
        },
        r is Ok <==> ido_times.is_acceptable_at(current_time) && token_price.product_fits(
            decimals_factor(accounts.ido_token_decimals, accounts.stable_token_decimals),
        ),
{
    match validate_ido_times(ido_times, current_time) {
        Err(e) => {
            return Err(e);
        },
        Ok(_) => {},
    }
    let price: TokenPrice = match initial_price(
        token_price,
        accounts.ido_token_decimals,
        accounts.stable_token_decimals,
    ) {
        Err(e) => {
            return Err(e);
        },
        Ok(price) => price,
    };
    Ok(
        ProgramState {
            ido_authority: accounts.ido_authority,
            state_number: 0,
            current_round: StateMachineWrapper::default(),
            order_number: 0,
            ido_token: accounts.ido_token,
            stable_token: accounts.stable_token,
            stable_token_pool: accounts.stable_pool,
            ido_tokens_amount: init_ido_tokens_amount,
            token_price: price,
            ido_times,
        },
    )
}

} // verus!

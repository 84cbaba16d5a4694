//! Lifecycle of a token sale: the phase state machine that says which round
//! the sale is in, and the exact-fraction price engine that sets the exchange
//! rate and raises it from one round to the next.

pub mod account;
pub mod divisor;
pub mod error;
pub mod price;
pub mod schedule;
pub mod space;
pub mod state;

pub use crate::account::{initialize, Initialize, ProgramState};
pub use crate::error::ErrorCode;
pub use crate::price::{get_new_price, initial_price, normalize, TokenPrice};
pub use crate::schedule::{validate_ido_times, IdoTimes};
pub use crate::space::Space;
pub use crate::state::{
    Ended, NotStarted, Phase, SellRound, StateMachine, StateMachineWrapper, TradeRound,
};

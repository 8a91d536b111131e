//! A fixed-price token sale: a configuration record guarded by its owner, and a
//! settlement engine that turns a buy request into a two-leg transfer plan.

mod config;
mod error;
mod key;
mod settlement;

pub use config::{
    initialize_config, pause, reset_config, unpause, update_price, Config, InitializeConfig,
    ResetConfig, UpdatePrice,
};
pub use error::CustomError;
pub use key::Key;
pub use settlement::{
    buy, settle, Buy, PaymentTransfer, Settlement, TokenAccountState, TokenTransfer,
    PRICE_SCALE,
};

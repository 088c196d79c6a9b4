//! Version 2 of the trading interface.
pub mod account_activities;
pub mod account_configurations;
pub mod assets;
pub mod calendar;
pub mod clock;
pub mod crypto_funding;
pub mod orders;
pub mod portfolio;
pub mod positions;
pub mod watchlists;

//! Version 2 of the market-data interface.
pub mod backoff;
pub mod command;
pub mod crypto_websocket;
pub mod decode;
pub mod message;
pub mod session;
pub mod stock;
pub mod stock_websocket;
pub mod table;

//! A typed client for a brokerage's market-data streams: the wire messages,
//! the subscription command, and the connection state machine that keeps a
//! stream alive across reconnects. The request and response types of the
//! trading interface stand beside it.
pub mod auth;
pub mod json;
pub mod market_data;
pub mod query;
pub mod text;
pub mod trading;

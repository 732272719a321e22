//! Verified core of a trading-venue session client: composable frame
//! validators, request/response correlation, subscriptions and the
//! connection state machine.

pub mod text;
pub mod validator;
pub mod correlator;
pub mod subscription;
pub mod connection;
pub mod stream;
pub mod config;
pub mod logs;
pub mod history;
pub mod pocketoption;

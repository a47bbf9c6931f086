//! Verified core of an SDK client for the Predict.fun REST and websocket APIs.
pub mod trusted;
pub mod error;
pub mod config;
pub mod api;
pub mod request;
pub mod websocket;
pub mod session;
pub mod models;
pub mod laws;
pub mod route_laws;

pub use config::{
    ClientSettings, Environment, PredictClientConfig, MAINNET_BASE_URL, TESTNET_BASE_URL,
};
pub use error::PredictError;

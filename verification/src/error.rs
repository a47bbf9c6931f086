//! The errors that the client reports.
use vstd::prelude::*;

verus! {

/// Everything that can go wrong in a call of the client.
#[derive(Debug)]
pub enum PredictError {
    /// The configuration or a request built from it is invalid.
    Config(&'static str),
    /// The HTTP client could not be built.
    ClientBuild(reqwest::Error),
    /// The HTTP transport or the decoding of a reply failed.
    Http(reqwest::Error),
    /// The API answered with a status outside 200..=299.
    Api { status: u16, body: String },
    /// The endpoint needs a token that has not been set.
    MissingAuth(&'static str),
    /// A credential lock was poisoned by a panicking writer.
    LockPoisoned(&'static str),
}

/// Whether `e` is `PredictError::Config` with the message `msg`.
pub open spec fn is_config_error(e: PredictError, msg: Seq<char>) -> bool {
    e matches PredictError::Config(m) && m@ == msg
}

/// Whether `e` is `PredictError::MissingAuth` naming the token `name`.
pub open spec fn is_missing_auth(e: PredictError, name: Seq<char>) -> bool {
    e matches PredictError::MissingAuth(m) && m@ == name
}

} // verus!

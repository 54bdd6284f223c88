//! Failure taxonomy of a session, one kind per lifecycle stage.

use vstd::prelude::*;

verus! {

/// The backend could not be initialized; session construction aborts.
#[derive(Debug)]
pub struct LoadError {
    pub message: String,
}

/// Clearing backend state between generations failed; the session is
/// unusable until a reset succeeds.
#[derive(Debug)]
pub struct ResetError {
    pub message: String,
}

/// Injecting a priming message failed; the pending generation is aborted
/// before it starts.
#[derive(Debug)]
pub struct AppendError {
    pub message: String,
}

/// The backend failed to produce the next token; the in-progress
/// generation is aborted and no end-of-stream marker is emitted.
#[derive(Debug)]
pub struct TokenError {
    pub message: String,
}

/// Everything that can abort a dispatched local generation.
#[derive(Debug)]
pub enum MasterError {
    Append(AppendError),
    Token(TokenError),
}

} // verus!

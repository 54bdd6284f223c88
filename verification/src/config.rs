//! Read-only configuration of a session.

use vstd::prelude::*;

verus! {

/// How a session runs: one bounded local generation, or handed to a
/// long-lived serving collaborator that drives generations per request.
#[derive(Clone, Copy, Debug, PartialEq, Eq, Structural)]
pub enum Mode {
    LocalGeneration,
    Served,
}

/// Configuration fixed for the lifetime of a session: the serving address
/// (absent means one local generation), the two priming prompts, and the
/// upper bound on tokens produced per generation.
pub struct Context {
    pub api: Option<String>,
    pub system_prompt: String,
    pub prompt: String,
    pub sample_len: usize,
}

impl Context {
    /// The mode this configuration selects: served exactly when a serving
    /// address is present.
    pub open spec fn spec_mode(&self) -> Mode {
        if self.api is Some {
            Mode::Served
        } else {
            Mode::LocalGeneration
        }
    }

    /// Decide the mode once, at session start.
    pub fn mode(&self) -> (m: Mode)
        ensures
            m == self.spec_mode(),
    {
        if self.api.is_some() {
            Mode::Served
        } else {
            Mode::LocalGeneration
        }
    }
}

impl Clone for Context {
    /// A clone carries exactly the same configuration.
    fn clone(&self) -> (r: Self)
        ensures
            r == *self,
    {
        let api = self.api.clone();
        proof {
            assert(api == self.api);
        }
        Context {
            api,
            system_prompt: self.system_prompt.clone(),
            prompt: self.prompt.clone(),
            sample_len: self.sample_len,
        }
    }
}

} // verus!

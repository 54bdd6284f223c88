//! The abstract backend capability a session drives.

use vstd::prelude::*;

use crate::chat::{Message, MessageView};

use crate::config::Context;

use crate::errors::{AppendError, LoadError, ResetError, TokenError};

use crate::output::Oracle;

use crate::token::Token;

verus! {

/// A token-generation backend: load, stateful conversation tracking and
/// per-step token production. Implemented by model backends; the
/// orchestration core only consumes it.
///
/// The specification views a backend as a deterministic [`Oracle`] (what
/// it would answer for a conversation and step index) together with the
/// mutable conversation it has been primed with and a count of tokens
/// produced so far. Every operation preserves the oracle: resetting or
/// priming a backend never changes what it would deterministically
/// answer, only which conversation it is asked about.
///
/// No operation is promised to succeed — a backend may be remote and may
/// fail at any step — but each says exactly what holds of the backend's
/// state whichever way the call came back.
pub trait Generator: Sized {
    /// The backend is in a usable state.
    spec fn wf(&self) -> bool;

    /// The conversation the backend has been primed with, in append order.
    spec fn history(&self) -> Seq<MessageView>;

    /// How many tokens the backend has produced since it was loaded or
    /// last reset.
    spec fn produced(&self) -> nat;

    /// The deterministic answer function of this backend.
    spec fn oracle(&self) -> Oracle;

    /// Construct and initialize a backend from a configuration. A freshly
    /// loaded backend has an empty conversation and has produced nothing.
    fn load(ctx: Context) -> (r: Result<Box<Self>, LoadError>)
        ensures
            r matches Ok(g) ==> g.wf() && g.history() == Seq::<MessageView>::empty()
                && g.produced() == 0,
    ;

    /// Clear conversation and decoding state so a fresh generation can
    /// start, without reconstructing the backend.
    fn reset(&mut self) -> (r: Result<(), ResetError>)
        requires
            old(self).wf(),
        ensures
            final(self).wf(),
            final(self).oracle() == old(self).oracle(),
            r is Ok ==> final(self).history() == Seq::<MessageView>::empty()
                && final(self).produced() == 0,
    ;

    /// Append one message to the conversation that will prime the next
    /// generation. On failure the conversation is left as it was.
    fn add_message(&mut self, message: Message) -> (r: Result<(), AppendError>)
        requires
            old(self).wf(),
        ensures
            final(self).wf(),
            final(self).oracle() == old(self).oracle(),
            final(self).produced() == old(self).produced(),
            r is Ok ==> final(self).history() == old(self).history().push(message@),
            r is Err ==> final(self).history() == old(self).history(),
    ;

    /// Produce the token for step `index` of the current generation. May
    /// involve remote or heavy computation; the caller awaits it with no
    /// concurrent outstanding request on the same backend. On success the
    /// token is the oracle's answer for the current conversation and the
    /// given step, and the produced count grows by one; on failure the
    /// count is unchanged.
    fn next_token(&mut self, index: usize) -> (r: Result<Token, TokenError>)
        requires
            old(self).wf(),
        ensures
            final(self).wf(),
            final(self).oracle() == old(self).oracle(),
            final(self).history() == old(self).history(),
            r matches Ok(t) ==> t@ == (old(self).oracle())(old(self).history(), index as int)
                && final(self).produced() == old(self).produced() + 1,
            r is Err ==> final(self).produced() == old(self).produced(),
    ;

    /// How many tokens this backend has produced since it was loaded or
    /// last reset.
    fn generated_tokens(&self) -> (r: usize)
        requires
            self.wf(),
        ensures
            r as nat == self.produced(),
    ;
}

} // verus!

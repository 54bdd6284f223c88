//! A deterministic in-memory backend, answering from a fixed script.
//!
//! It produces the scripted tokens in order — one per step index — and an
//! end-of-stream token for every step past the script's end, regardless
//! of the conversation it was primed with. The failure switches make the
//! error paths of a session reachable on demand; they change nothing
//! about what the backend would deterministically answer.

use vstd::prelude::*;

use crate::chat::{Message, MessageView};

use crate::config::Context;

use crate::errors::{AppendError, LoadError, ResetError, TokenError};

use crate::generator::Generator;

use crate::output::Oracle;

use crate::token::{Token, TokenView};

verus! {

/// The answer function of a scripted backend: the scripted token for
/// each step the script covers, an end-of-stream token afterwards, with
/// the conversation ignored.
pub open spec fn script_oracle(script: Seq<TokenView>) -> Oracle {
    |hist: Seq<MessageView>, i: int|
        if 0 <= i < script.len() {
            script[i]
        } else {
            TokenView { text: Seq::<char>::empty(), eos: true }
        }
}

/// A backend that answers from a fixed script of tokens.
pub struct ScriptedGenerator {
    pub script: Vec<Token>,
    pub messages: Vec<Message>,
    pub count: usize,
    /// Fail the token request for exactly this step index.
    pub fail_at: Option<usize>,
    /// Fail every message append.
    pub fail_append: bool,
    /// Fail every reset.
    pub fail_reset: bool,
}

impl Generator for ScriptedGenerator {
    open spec fn wf(&self) -> bool {
        true
    }

    open spec fn history(&self) -> Seq<MessageView> {
        self.messages@.map_values(|m: Message| m@)
    }

    open spec fn produced(&self) -> nat {
        self.count as nat
    }

    open spec fn oracle(&self) -> Oracle {
        script_oracle(self.script@.map_values(|t: Token| t@))
    }

    /// Loading ignores the configuration and starts with an empty script:
    /// a freshly loaded scripted backend ends every generation at once.
    fn load(ctx: Context) -> (r: Result<Box<Self>, LoadError>) {
        let g = ScriptedGenerator {
            script: Vec::new(),
            messages: Vec::new(),
            count: 0,
            fail_at: None,
            fail_append: false,
            fail_reset: false,
        };
        proof {
            assert(g.history() =~= Seq::<MessageView>::empty());
        }
        Ok(Box::new(g))
    }

    fn reset(&mut self) -> (r: Result<(), ResetError>) {
        if self.fail_reset {
            Err(ResetError { message: "scripted backend was told to fail resets".to_owned() })
        } else {
            self.messages = Vec::new();
            self.count = 0;
            proof {
                assert(self.history() =~= Seq::<MessageView>::empty());
            }
            Ok(())
        }
    }

    fn add_message(&mut self, message: Message) -> (r: Result<(), AppendError>) {
        if self.fail_append {
            Err(AppendError { message: "scripted backend was told to fail appends".to_owned() })
        } else {
            let ghost prior = self.history();
            self.messages.push(message);
            proof {
                assert(self.history() =~= prior.push(message@));
            }
            Ok(())
        }
    }

    fn next_token(&mut self, index: usize) -> (r: Result<Token, TokenError>) {
        let fail_here = match self.fail_at {
            Some(at) => at == index,
            None => false,
        };
        if fail_here || self.count == usize::MAX {
            Err(TokenError { message: "scripted backend was told to fail this step".to_owned() })
        } else {
            self.count = self.count + 1;
            if index < self.script.len() {
                let token = self.script[index].clone();
                proof {
                    assert(token@ == (old(self).oracle())(old(self).history(), index as int));
                }
                Ok(token)
            } else {
                let token = Token::end_of_stream();
                proof {
                    assert(token@ =~= (old(self).oracle())(old(self).history(), index as int));
                }
                Ok(token)
            }
        }
    }

    fn generated_tokens(&self) -> (r: usize) {
        self.count
    }
}

} // verus!

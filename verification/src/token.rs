//! The unit a backend produces per decoding step.

use vstd::prelude::*;

verus! {

/// One decoded unit: its display text and whether it signals that the
/// stream has ended. A token whose `is_end_of_stream` flag is set is never
/// shown; it only terminates the generation loop.
pub struct Token {
    pub text: String,
    pub is_end_of_stream: bool,
}

/// The mathematical value of a [`Token`].
#[verifier::ext_equal]
pub struct TokenView {
    pub text: Seq<char>,
    pub eos: bool,
}

impl View for Token {
    type V = TokenView;

    open spec fn view(&self) -> TokenView {
        TokenView { text: self.text@, eos: self.is_end_of_stream }
    }
}

impl Clone for Token {
    /// A clone carries exactly the same text and end-of-stream flag.
    fn clone(&self) -> (r: Self)
        ensures
            r == *self,
    {
        Token { text: self.text.clone(), is_end_of_stream: self.is_end_of_stream }
    }
}

impl Token {
    /// A plain text token.
    pub fn text(text: String) -> (t: Token)
        ensures
            t@ == (TokenView { text: text@, eos: false }),
    {
        Token { text, is_end_of_stream: false }
    }

    /// The token that signals the end of the stream.
    pub fn end_of_stream() -> (t: Token)
        ensures
            t@.eos,
            t@.text.len() == 0,
    {
        Token { text: String::new(), is_end_of_stream: true }
    }
}

} // verus!

//! Conversation messages that prime a backend before generation.

use vstd::prelude::*;

verus! {

/// Who authored a conversation message.
#[derive(Clone, Copy, Debug, PartialEq, Eq, Structural)]
pub enum Role {
    System,
    User,
}

/// One conversation message handed to the backend before decoding starts.
pub struct Message {
    pub role: Role,
    pub text: String,
}

/// The mathematical value of a [`Message`]: its role and its text.
#[verifier::ext_equal]
pub struct MessageView {
    pub role: Role,
    pub text: Seq<char>,
}

impl View for Message {
    type V = MessageView;

    open spec fn view(&self) -> MessageView {
        MessageView { role: self.role, text: self.text@ }
    }
}

impl Message {
    /// A system-role message with the given text.
    pub fn system(text: String) -> (m: Message)
        ensures
            m@ == (MessageView { role: Role::System, text: text@ }),
    {
        Message { role: Role::System, text }
    }

    /// A user-role message with the given text.
    pub fn user(text: String) -> (m: Message)
        ensures
            m@ == (MessageView { role: Role::User, text: text@ }),
    {
        Message { role: Role::User, text }
    }
}

} // verus!

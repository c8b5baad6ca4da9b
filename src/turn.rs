use vstd::prelude::*;

verus! {

/// Who authored a turn of a conversation.
#[derive(Clone, Copy, Debug, PartialEq, Eq, Structural)]
pub enum Role {
    System,
    User,
    Assistant,
}

/// One role-tagged message of a conversation history.
#[derive(Clone, Debug, PartialEq, Eq)]
pub struct Turn {
    pub role: Role,
    pub content: String,
}

/// The mathematical value of a turn: its role and its text.
pub ghost struct TurnView {
    pub role: Role,
    pub content: Seq<char>,
}

impl DeepView for Turn {
    type V = TurnView;

    open spec fn deep_view(&self) -> TurnView {
        TurnView { role: self.role, content: self.content@ }
    }
}

impl Turn {
    pub fn system(content: String) -> (t: Turn)
        ensures
            t.role == Role::System,
            t.content == content,
    {
        Turn { role: Role::System, content }
    }

    pub fn user(content: String) -> (t: Turn)
        ensures
            t.role == Role::User,
            t.content == content,
    {
        Turn { role: Role::User, content }
    }

    pub fn assistant(content: String) -> (t: Turn)
        ensures
            t.role == Role::Assistant,
            t.content == content,
    {
        Turn { role: Role::Assistant, content }
    }
}

/// A history is well formed when it is non-empty and opens with a system turn.
pub open spec fn well_formed(h: Seq<TurnView>) -> bool {
    h.len() >= 1 && h[0].role == Role::System
}

} // verus!

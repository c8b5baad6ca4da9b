use vstd::prelude::*;

use crate::text::char_count;
use crate::turn::{well_formed, Role, Turn, TurnView};

verus! {

/// The longest reply, in characters, that the chat platform takes inline.
pub const MESSAGE_LIMIT: usize = 2000;

/// `h` once the utterance `u` has joined it as a user turn.
pub open spec fn with_user_turn(h: Seq<TurnView>, u: Seq<char>) -> Seq<TurnView> {
    h.push(TurnView { role: Role::User, content: u })
}

/// `h` once the backend's outcome is recorded: a completion joins it as an
/// assistant turn, a failure leaves it as it was.
pub open spec fn with_completion(h: Seq<TurnView>, completion: Option<Seq<char>>) -> Seq<TurnView> {
    match completion {
        Some(c) => h.push(TurnView { role: Role::Assistant, content: c }),
        None => h,
    }
}

/// `h` made ready to be answered again: a closing assistant turn is dropped,
/// the system turn never is.
pub open spec fn without_last_answer(h: Seq<TurnView>) -> Seq<TurnView> {
    if h.len() > 1 && h.last().role == Role::Assistant {
        h.drop_last()
    } else {
        h
    }
}

/// The view of an optional text.
pub open spec fn opt_view(o: Option<String>) -> Option<Seq<char>> {
    match o {
        Some(s) => Some(s@),
        None => None,
    }
}

/// First step of a reply: the incoming utterance joins the history as a user
/// turn. The whole history is then what the model is asked to continue.
pub fn add_user_turn(chat_history: &mut Vec<Turn>, utterance: String)
    ensures
        final(chat_history).deep_view() == with_user_turn(old(chat_history).deep_view(), utterance@),
        well_formed(old(chat_history).deep_view()) ==> well_formed(final(chat_history).deep_view()),
{
    let ghost before = chat_history.deep_view();
    chat_history.push(Turn::user(utterance));
    assert(chat_history.deep_view() =~= with_user_turn(before, utterance@));
}

/// Last step of a reply: records what the backend returned. A completion is
/// appended as an assistant turn and handed back untruncated; a failure
/// (`None`) leaves the history as it is, its trailing user turn included.
pub fn record_completion(chat_history: &mut Vec<Turn>, completion: Option<String>) -> (reply: Option<
    String,
>)
    ensures
        final(chat_history).deep_view() == with_completion(
            old(chat_history).deep_view(),
            opt_view(completion),
        ),
        reply == completion,
        well_formed(old(chat_history).deep_view()) ==> well_formed(final(chat_history).deep_view()),
{
    let ghost before = chat_history.deep_view();
    match completion {
        Some(text) => {
            let kept = text.clone();
            chat_history.push(Turn::assistant(text));
            assert(chat_history.deep_view() =~= with_completion(before, opt_view(Some(kept))));
            Some(kept)
        },
        None => None,
    }
}

/// First step of regenerating an answer: the latest assistant turn is taken
/// back so that the model is asked again from the same trailing user turn. A
/// history that holds the system turn alone is left untouched.
pub fn prepare_regeneration(chat_history: &mut Vec<Turn>)
    ensures
        final(chat_history).deep_view() == without_last_answer(old(chat_history).deep_view()),
        well_formed(old(chat_history).deep_view()) ==> well_formed(final(chat_history).deep_view()),
{
    let ghost before = chat_history.deep_view();
    let n = chat_history.len();
    if n > 1 && chat_history[n - 1].role == Role::Assistant {
        chat_history.pop();
        assert(chat_history.deep_view() =~= before.drop_last());
    }
}

/// How a reply goes out on the chat platform.
#[derive(Clone, Copy, Debug, PartialEq, Eq, Structural)]
pub struct ReplyLayout {
    /// The reply quotes the message it answers.
    pub quote: bool,
    /// The reply is too long to send inline and goes as an attached file.
    pub as_attachment: bool,
}

/// Lays out `reply` to a message after which `later_messages` other messages
/// were posted: the reply quotes the message it answers when others came in
/// between, and it goes as a file when it has more than `limit` characters.
pub fn reply_layout(reply: &str, later_messages: usize, limit: usize) -> (l: ReplyLayout)
    ensures
        l.quote == (later_messages >= 1),
        l.as_attachment == (reply@.len() > limit),
{
    ReplyLayout { quote: later_messages >= 1, as_attachment: char_count(reply) > limit }
}

/// A reply adds exactly one user turn, the utterance, and on success exactly
/// one assistant turn after it, the completion; on failure it adds no
/// assistant turn. The earlier turns stay as they were.
pub proof fn lemma_reply_turns(h: Seq<TurnView>, utterance: Seq<char>, completion: Option<Seq<char>>)
    ensures
        with_completion(with_user_turn(h, utterance), completion).len() == h.len() + 1 + (
        if completion is Some {
            1int
        } else {
            0int
        }),
        with_completion(with_user_turn(h, utterance), completion).subrange(0, h.len() as int) == h,
        with_completion(with_user_turn(h, utterance), completion)[h.len() as int] == (TurnView {
            role: Role::User,
            content: utterance,
        }),
        completion matches Some(c) ==> with_completion(with_user_turn(h, utterance), completion)[h.len()
            + 1int] == (TurnView { role: Role::Assistant, content: c }),
{
    let after = with_completion(with_user_turn(h, utterance), completion);
    assert(after.subrange(0, h.len() as int) =~= h);
}

/// Regenerating from a history that holds the system turn alone changes
/// nothing: the system turn is never taken back.
pub proof fn lemma_regeneration_keeps_system_turn(h: Seq<TurnView>)
    requires
        h.len() == 1,
    ensures
        without_last_answer(h) == h,
{
}

} // verus!

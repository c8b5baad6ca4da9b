use vstd::prelude::*;

use crate::engine::{add_user_turn, with_user_turn};
use crate::prompt::{set_system_prompt, with_system_prompt};
use crate::text::{is_affirmative, says_yes};
use crate::turn::{well_formed, Turn, TurnView};

verus! {

/// The system prompt under which the model decides whether to join in.
pub const EVALUATOR_PROMPT: &'static str = "You are a helpful assistant. Your sole task is to determine if you should continue this conversation. Respond only with 'Yes' or 'No'. Do not provide any additional explanation, greetings, or commentary. Indicate your intent with a simple 'Yes' if you wish to continue, and 'No' if you do not.";

/// The history the model sees while it decides: the evaluator prompt in place
/// of the system prompt, the candidate message at the end.
pub open spec fn evaluation_history(h: Seq<TurnView>, message: Seq<char>) -> Seq<TurnView> {
    with_user_turn(with_system_prompt(h, EVALUATOR_PROMPT@), message)
}

/// The history once the scratch message is gone and `original` is back in
/// first place.
pub open spec fn after_evaluation(h: Seq<TurnView>, original: TurnView) -> Seq<TurnView> {
    h.drop_last().update(0, original)
}

/// The decision drawn from the evaluator's answer; no answer means no.
pub open spec fn engages(answer: Option<Seq<char>>) -> bool {
    match answer {
        Some(a) => is_affirmative(a),
        None => false,
    }
}

/// First step of deciding whether to join a conversation the bot was not
/// addressed in: installs the evaluator prompt and appends the candidate
/// message. The returned turn is the system prompt it displaced, which
/// `desire_to_respond` puts back.
pub fn start_evaluation(chat_history: &mut Vec<Turn>, message: String) -> (original: Turn)
    requires
        well_formed(old(chat_history).deep_view()),
    ensures
        original == old(chat_history)@[0],
        final(chat_history).deep_view() == evaluation_history(
            old(chat_history).deep_view(),
            message@,
        ),
{
    let original = set_system_prompt(chat_history, EVALUATOR_PROMPT);
    add_user_turn(chat_history, message);
    original
}

/// Last step of the decision: drops the scratch message, restores the original
/// system prompt and reads the evaluator's answer, `None` where the backend
/// failed. The restoring happens whatever the answer.
pub fn desire_to_respond(
    chat_history: &mut Vec<Turn>,
    original: Turn,
    answer: Option<String>,
) -> (engage: bool)
    requires
        old(chat_history).len() >= 2,
    ensures
        final(chat_history).deep_view() == after_evaluation(
            old(chat_history).deep_view(),
            original.deep_view(),
        ),
        engage == engages(
            match answer {
                Some(a) => Some(a@),
                None => None,
            },
        ),
{
    let ghost before = chat_history.deep_view();
    let ghost first = original.deep_view();
    chat_history.pop();
    chat_history[0] = original;
    assert(chat_history.deep_view() =~= after_evaluation(before, first));
    match answer {
        Some(a) => says_yes(a.as_str()),
        None => false,
    }
}

/// Deciding whether to join in leaves no trace: once the scratch message is
/// gone and the displaced prompt is back, the history is exactly what it was,
/// its system prompt included, whatever the model answered or if it failed.
pub proof fn lemma_evaluation_restores(h: Seq<TurnView>, message: Seq<char>)
    requires
        well_formed(h),
    ensures
        after_evaluation(evaluation_history(h, message), h[0]) == h,
{
    assert(after_evaluation(evaluation_history(h, message), h[0]) =~= h);
}

} // verus!

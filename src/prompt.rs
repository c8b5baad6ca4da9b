use vstd::prelude::*;

use crate::turn::{well_formed, Role, Turn, TurnView};

verus! {

/// `h` with its opening turn replaced by a system turn holding `prompt`.
pub open spec fn with_system_prompt(h: Seq<TurnView>, prompt: Seq<char>) -> Seq<TurnView> {
    h.update(0, TurnView { role: Role::System, content: prompt })
}

/// Replaces the system prompt, which always stands first, and hands back the
/// turn it replaced so that a caller can put it back later.
pub fn set_system_prompt(chat_history: &mut Vec<Turn>, prompt: &str) -> (old_prompt: Turn)
    requires
        old(chat_history).len() >= 1,
    ensures
        old_prompt == old(chat_history)@[0],
        final(chat_history).deep_view() == with_system_prompt(
            old(chat_history).deep_view(),
            prompt@,
        ),
        well_formed(final(chat_history).deep_view()),
{
    let ghost before = chat_history.deep_view();
    chat_history.push(Turn::system(prompt.to_string()));
    let old_prompt = chat_history.swap_remove(0);
    assert(chat_history.deep_view() =~= with_system_prompt(before, prompt@));
    old_prompt
}

/// Setting the system prompt and then setting it back to the text of the turn
/// it displaced restores the history exactly.
pub proof fn lemma_set_system_prompt_round_trip(h: Seq<TurnView>, prompt: Seq<char>)
    requires
        well_formed(h),
    ensures
        with_system_prompt(with_system_prompt(h, prompt), h[0].content) == h,
{
    assert(with_system_prompt(with_system_prompt(h, prompt), h[0].content) =~= h);
}

} // verus!

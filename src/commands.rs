use vstd::prelude::*;

use crate::engine::{prepare_regeneration, without_last_answer};
use crate::prompt::{set_system_prompt, with_system_prompt};
use crate::store::{fresh_history, history_for, ConversationStore};
use crate::text::same_text;
use crate::turn::TurnView;

verus! {

/// How many of a channel's latest messages the delete commands look at.
pub const HISTORY_WINDOW: u8 = 100;

/// The administrative commands, each under its name on the chat platform.
#[derive(Clone, Copy, Debug, PartialEq, Eq)]
pub enum Command<'a> {
    Register,
    Unregister,
    Amnesia,
    Nuke,
    SuperNuke,
    SetPrompt(&'a str),
    Regenerate,
}

/// The command a directive named `name` stands for. A missing argument to
/// `setprompt` reads as an empty prompt, which the dispatcher turns down.
pub open spec fn command_named<'a>(name: Seq<char>, argument: Option<&'a str>) -> Option<
    Command<'a>,
> {
    if name == "register"@ {
        Some(Command::Register)
    } else if name == "unregister"@ {
        Some(Command::Unregister)
    } else if name == "amnesia"@ {
        Some(Command::Amnesia)
    } else if name == "nuke"@ {
        Some(Command::Nuke)
    } else if name == "supernuke"@ {
        Some(Command::SuperNuke)
    } else if name == "setprompt"@ {
        Some(
            Command::SetPrompt(
                match argument {
                    Some(a) => a,
                    None => "",
                },
            ),
        )
    } else if name == "regenerate"@ {
        Some(Command::Regenerate)
    } else {
        None
    }
}

/// Recognises a directive by its exact, case-sensitive name; `argument` is its
/// optional text.
pub fn parse_commands<'a>(name: &str, argument: Option<&'a str>) -> (c: Option<Command<'a>>)
    ensures
        c == command_named(name@, argument),
{
    if same_text(name, "register") {
        Some(Command::Register)
    } else if same_text(name, "unregister") {
        Some(Command::Unregister)
    } else if same_text(name, "amnesia") {
        Some(Command::Amnesia)
    } else if same_text(name, "nuke") {
        Some(Command::Nuke)
    } else if same_text(name, "supernuke") {
        Some(Command::SuperNuke)
    } else if same_text(name, "setprompt") {
        Some(
            Command::SetPrompt(
                match argument {
                    Some(a) => a,
                    None => "",
                },
            ),
        )
    } else if same_text(name, "regenerate") {
        Some(Command::Regenerate)
    } else {
        None
    }
}

/// The acknowledgements a command gets.
#[derive(Clone, Copy, Debug, PartialEq, Eq, Structural)]
pub enum Reply {
    AlwaysInDirect,
    NowRegistered,
    AlreadyRegistered,
    NoUnregisterInDirect,
    Goodbye,
    HistoryReset,
    PromptSet,
    PromptMissing,
    NukeDone,
}

impl Reply {
    /// The words of the acknowledgement.
    pub fn text(&self) -> (t: &'static str)
        ensures
            t@ == reply_text(*self),
    {
        match self {
            Reply::AlwaysInDirect => "I will always reply to our private messages!",
            Reply::NowRegistered => "I will now respond to messages in this channel!",
            Reply::AlreadyRegistered => "Already registered!",
            Reply::NoUnregisterInDirect => "Sorry, you can't unregister in DMs\nBut, if you want to reset the chat you can use: `!amnesia`",
            Reply::Goodbye => "Goodbye!",
            Reply::HistoryReset => "Chat history has been reset!",
            Reply::PromptSet => "System prompt set!",
            Reply::PromptMissing => "Please give the new system prompt after the command.",
            Reply::NukeDone => "Nuke done.",
        }
    }
}

/// The words of each acknowledgement.
pub open spec fn reply_text(r: Reply) -> Seq<char> {
    match r {
        Reply::AlwaysInDirect => "I will always reply to our private messages!"@,
        Reply::NowRegistered => "I will now respond to messages in this channel!"@,
        Reply::AlreadyRegistered => "Already registered!"@,
        Reply::NoUnregisterInDirect => "Sorry, you can't unregister in DMs\nBut, if you want to reset the chat you can use: `!amnesia`"@,
        Reply::Goodbye => "Goodbye!"@,
        Reply::HistoryReset => "Chat history has been reset!"@,
        Reply::PromptSet => "System prompt set!"@,
        Reply::PromptMissing => "Please give the new system prompt after the command."@,
        Reply::NukeDone => "Nuke done."@,
    }
}

/// What the platform side does once a command has been applied to the store.
#[derive(Clone, Copy, Debug, PartialEq, Eq, Structural)]
pub enum CommandAction {
    /// Acknowledge the command.
    Acknowledge(Reply),
    /// In the background, delete the bot's own messages among the channel's
    /// latest, then acknowledge.
    DeleteOwnMessages,
    /// Delete the channel's latest messages, whoever wrote them, then
    /// acknowledge.
    DeleteRecentMessages,
    /// Ask the model again from the channel's history, which is ready for it,
    /// and post the answer.
    Regenerate,
}

/// The store contents after `command` ran in `channel` on a store holding `m`
/// whose default prompt is `prompt`.
pub open spec fn store_after(
    m: Map<u64, Seq<TurnView>>,
    prompt: Seq<char>,
    channel: u64,
    one_to_one: bool,
    command: Command,
) -> Map<u64, Seq<TurnView>> {
    match command {
        Command::Register => if one_to_one || m.contains_key(channel) {
            m
        } else {
            m.insert(channel, fresh_history(prompt))
        },
        Command::Unregister => if one_to_one {
            m
        } else {
            m.remove(channel)
        },
        Command::Amnesia => m.insert(channel, fresh_history(prompt)),
        Command::SetPrompt(p) => if p@.len() == 0 {
            m
        } else {
            m.insert(channel, with_system_prompt(history_for(m, prompt, channel), p@))
        },
        Command::Regenerate => m.insert(
            channel,
            without_last_answer(history_for(m, prompt, channel)),
        ),
        Command::Nuke => m,
        Command::SuperNuke => m,
    }
}

/// What the platform side is told to do after `command` ran in `channel` on a
/// store holding `m`.
pub open spec fn action_after(
    m: Map<u64, Seq<TurnView>>,
    channel: u64,
    one_to_one: bool,
    command: Command,
) -> CommandAction {
    match command {
        Command::Register => if one_to_one {
            CommandAction::Acknowledge(Reply::AlwaysInDirect)
        } else if m.contains_key(channel) {
            CommandAction::Acknowledge(Reply::AlreadyRegistered)
        } else {
            CommandAction::Acknowledge(Reply::NowRegistered)
        },
        Command::Unregister => if one_to_one {
            CommandAction::Acknowledge(Reply::NoUnregisterInDirect)
        } else {
            CommandAction::Acknowledge(Reply::Goodbye)
        },
        Command::Amnesia => CommandAction::Acknowledge(Reply::HistoryReset),
        Command::SetPrompt(p) => if p@.len() == 0 {
            CommandAction::Acknowledge(Reply::PromptMissing)
        } else {
            CommandAction::Acknowledge(Reply::PromptSet)
        },
        Command::Regenerate => CommandAction::Regenerate,
        Command::Nuke => CommandAction::DeleteOwnMessages,
        Command::SuperNuke => CommandAction::DeleteRecentMessages,
    }
}

/// Applies `command`, issued in `channel`, to the store, and says what is left
/// for the platform side to do. `one_to_one` tells a direct conversation from
/// a shared channel.
pub fn handle_command(
    store: &mut ConversationStore,
    channel: u64,
    one_to_one: bool,
    command: Command,
) -> (action: CommandAction)
    requires
        old(store).wf(),
    ensures
        final(store)@ == store_after(old(store)@, old(store).prompt(), channel, one_to_one, command),
        action == action_after(old(store)@, channel, one_to_one, command),
        final(store).prompt() == old(store).prompt(),
        final(store).wf(),
{
    match command {
        Command::Register => {
            if one_to_one {
                return CommandAction::Acknowledge(Reply::AlwaysInDirect);
            }
            if store.get(channel).is_some() {
                return CommandAction::Acknowledge(Reply::AlreadyRegistered);
            }
            let _ = store.get_or_create(channel);
            CommandAction::Acknowledge(Reply::NowRegistered)
        },
        Command::Unregister => {
            if one_to_one {
                return CommandAction::Acknowledge(Reply::NoUnregisterInDirect);
            }
            store.remove(channel);
            CommandAction::Acknowledge(Reply::Goodbye)
        },
        Command::Amnesia => {
            store.reset(channel);
            CommandAction::Acknowledge(Reply::HistoryReset)
        },
        Command::SetPrompt(prompt) => {
            if prompt.is_empty() {
                return CommandAction::Acknowledge(Reply::PromptMissing);
            }
            let chat_history = store.get_or_create(channel);
            let _ = set_system_prompt(chat_history, prompt);
            CommandAction::Acknowledge(Reply::PromptSet)
        },
        Command::Regenerate => {
            let chat_history = store.get_or_create(channel);
            prepare_regeneration(chat_history);
            CommandAction::Regenerate
        },
        Command::Nuke => CommandAction::DeleteOwnMessages,
        Command::SuperNuke => CommandAction::DeleteRecentMessages,
    }
}

/// What becomes of an incoming message.
#[derive(Clone, Copy, Debug, PartialEq, Eq, Structural)]
pub enum MessagePlan {
    /// Leave it alone: the bot wrote it, or the channel is not registered.
    Ignore,
    /// Answer it.
    Respond,
    /// Ask the model whether to join in before answering.
    Evaluate,
}

/// The plan for a message, from who wrote it and where.
pub open spec fn plan_for(
    registered: bool,
    from_self: bool,
    one_to_one: bool,
    mentioned: bool,
) -> MessagePlan {
    if from_self || (!one_to_one && !registered) {
        MessagePlan::Ignore
    } else if one_to_one || mentioned {
        MessagePlan::Respond
    } else {
        MessagePlan::Evaluate
    }
}

/// Decides what to do with a message posted in `channel`: the bot's own
/// messages and those of unregistered shared channels are ignored, direct
/// messages and mentions are answered, and the rest go to the evaluator.
pub fn plan_message(
    store: &ConversationStore,
    channel: u64,
    from_self: bool,
    one_to_one: bool,
    mentioned: bool,
) -> (plan: MessagePlan)
    ensures
        plan == plan_for(store@.contains_key(channel), from_self, one_to_one, mentioned),
{
    if from_self {
        return MessagePlan::Ignore;
    }
    let registered = store.get(channel).is_some();
    if !one_to_one && !registered {
        MessagePlan::Ignore
    } else if one_to_one || mentioned {
        MessagePlan::Respond
    } else {
        MessagePlan::Evaluate
    }
}

/// The positions, in order, of the messages in `authors` written by `me`.
pub open spec fn own_positions(authors: Seq<u64>, me: u64) -> Seq<int>
    decreases authors.len(),
{
    if authors.len() == 0 {
        Seq::empty()
    } else {
        let rest = own_positions(authors.drop_last(), me);
        if authors.last() == me {
            rest.push(authors.len() - 1)
        } else {
            rest
        }
    }
}

/// Picks, among recent messages given by their authors, the positions of
/// those that `me` wrote: what a cleanup of the bot's own messages deletes.
pub fn own_messages(authors: &Vec<u64>, me: u64) -> (positions: Vec<usize>)
    ensures
        positions@.map_values(|p: usize| p as int) == own_positions(authors@, me),
{
    let mut positions: Vec<usize> = Vec::new();
    let mut i: usize = 0;
    while i < authors.len()
        invariant
            i <= authors@.len(),
            positions@.map_values(|p: usize| p as int) == own_positions(authors@.take(i as int), me),
        decreases authors@.len() - i,
    {
        let ghost before = positions@;
        assert(authors@.take(i + 1).drop_last() =~= authors@.take(i as int));
        if authors[i] == me {
            positions.push(i);
            assert(positions@.map_values(|p: usize| p as int) =~= before.map_values(
                |p: usize| p as int,
            ).push(i as int));
        }
        i = i + 1;
    }
    assert(authors@.take(authors@.len() as int) =~= authors@);
    positions
}

} // verus!

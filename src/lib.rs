//! Conversation state and decision logic for a chat bot that relays
//! messages between a chat platform and a language model.
//!
//! Each channel's conversation is a history of role-tagged turns whose first
//! turn is the system prompt. The store keeps one history per channel; the
//! other modules say how a command, a reply or an evaluation changes it, and
//! leave the network calls to the caller, which hands back their outcome.

pub mod commands;
pub mod engagement;
pub mod engine;
pub mod prompt;
pub mod store;
pub mod text;
pub mod turn;

pub use commands::{
    handle_command, own_messages, parse_commands, plan_message, Command, CommandAction,
    MessagePlan, Reply, HISTORY_WINDOW,
};
pub use engagement::{desire_to_respond, start_evaluation, EVALUATOR_PROMPT};
pub use engine::{
    add_user_turn, prepare_regeneration, record_completion, reply_layout, ReplyLayout,
    MESSAGE_LIMIT,
};
pub use prompt::set_system_prompt;
pub use store::{create_chat_history, load_chat_history, ConversationStore};
pub use text::{format_utterance, says_yes};
pub use turn::{Role, Turn};

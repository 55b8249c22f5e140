//! The logic of a chat bot, apart from the chat itself: where each command
//! is defined, what to tell the operators when a command or the bot fails,
//! and the texts that the bot's own commands show.

pub mod cogs;
pub mod compose;
pub mod config;
pub mod context;
pub mod delivery;
pub mod errors;
pub mod number;
pub mod payload;
pub mod severity;
pub mod span;
pub mod state;
pub mod text;
pub mod time;
pub mod util;

pub use span::Spanned;

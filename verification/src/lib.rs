//! A small conversational calculator for a chat bot, with the machinery to
//! exercise it without a network.
//!
//! The conversation is a finite state machine. Every chat stands at one
//! [`State`]; an inbound [`update::Update`] selects a handler by the state
//! and by what the update carries; the handler decides which requests go out
//! and which state comes next. The handlers deliver nothing and store nothing
//! themselves. What they decide is a [`handlers::Reaction`], and whoever
//! drives them passes its requests through a [`intercept::Gateway`] and
//! stores its state once all of them are through.
//!
//! * [`state`], [`update`], [`request`], [`keyboard`]: the data.
//! * [`handlers`], [`command`], [`bot_schema`]: the steps of the
//!   conversation, and which step answers which update.
//! * [`intercept`]: the gateway, live or intercepting.
//! * [`storage`]: the states of the conversations, by chat.
//! * [`test_utils`], [`wire`]: fixtures as the platform would send them, and
//!   a bench to run updates on.
//! * [`decimal`], [`chars`], [`text`]: numbers as text, texts as characters,
//!   and what the bot says.
//!
//! What a function promises is stated in its contract, over the views of the
//! types involved: a text is the sequence of its characters, and a value
//! that holds texts is viewed as the same value holding sequences.

pub mod bot_schema;
pub mod chars;
pub mod command;
pub mod decimal;
pub mod handlers;
pub mod intercept;
pub mod keyboard;
pub mod request;
pub mod state;
pub mod storage;
pub mod test_utils;
pub mod text;
pub mod update;
pub mod wire;

pub use state::State;

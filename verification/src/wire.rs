//! Reading the chat platform's JSON.
//!
//! The platform's objects are decoded by `serde_json` into the types of
//! `teloxide`, exactly as for a running bot. Of each decoded object the
//! fields that this crate works with are copied into its own types. Nothing
//! here is proved: what a decoder makes of a text is given a name, and the
//! functions that decode promise that they return what the name stands for.

use vstd::prelude::*;
use crate::update::{CallbackQuery, CallbackQueryView, Message, MessageView};

verus! {

/// The bot as the platform describes it to the bot itself.
#[derive(Debug, PartialEq, Eq)]
pub struct Me {
    /// The identifier of the bot's account.
    pub id: u64,
    /// The name under which the bot is addressed.
    pub username: Option<String>,
}

/// A [`Me`] with its texts as sequences of characters.
pub struct MeView {
    pub id: u64,
    pub username: Option<Seq<char>>,
}

impl DeepView for Me {
    type V = MeView;

    open spec fn deep_view(&self) -> MeView {
        MeView { id: self.id, username: self.username.deep_view() }
    }
}

impl View for Me {
    type V = MeView;

    open spec fn view(&self) -> MeView {
        self.deep_view()
    }
}

/// What `serde_json::from_str` makes of `json` when it is asked for a
/// `teloxide::types::Message`: `None` where it reports an error, else the
/// message's identifier, the identifier of its chat, and its text.
pub uninterp spec fn decoded_message(json: Seq<char>) -> Option<MessageView>;

/// What `serde_json::from_str` makes of `json` when it is asked for a
/// `teloxide::types::CallbackQuery`: `None` where it reports an error, else
/// the query's data and, of the message it names, what
/// [`decoded_message`] keeps of a message.
pub uninterp spec fn decoded_callback_query(json: Seq<char>) -> Option<CallbackQueryView>;

/// What `serde_json::from_str` makes of `json` when it is asked for a
/// `teloxide::types::Me`: `None` where it reports an error, else the
/// identifier and the username of the bot's account.
pub uninterp spec fn decoded_me(json: Seq<char>) -> Option<MeView>;

/// Decodes a message with `serde_json::from_str`, into
/// `teloxide::types::Message`, and copies its `id`, the `id` of its `chat`
/// and its `text()`. The contract claims only that the same text always
/// decodes to the same thing, which [`decoded_message`] names.
#[verifier::external_body]
pub(crate) fn decode_message(json: &str) -> (r: Option<Message>)
    ensures
        r.deep_view() == decoded_message(json@),
{
    let m: teloxide::types::Message = serde_json::from_str(json).ok()?;
    Some(Message { id: m.id.0, chat_id: m.chat.id.0, text: m.text().map(String::from) })
}

/// Decodes a callback query with `serde_json::from_str`, into
/// `teloxide::types::CallbackQuery`, and copies its `data` and, of its
/// `message`, what [`decode_message`] copies. The contract claims only that
/// the same text always decodes to the same thing, which
/// [`decoded_callback_query`] names.
#[verifier::external_body]
pub(crate) fn decode_callback_query(json: &str) -> (r: Option<CallbackQuery>)
    ensures
        r.deep_view() == decoded_callback_query(json@),
{
    let q: teloxide::types::CallbackQuery = serde_json::from_str(json).ok()?;
    let message = q.message.map(
        |m| Message { id: m.id.0, chat_id: m.chat.id.0, text: m.text().map(String::from) },
    );
    Some(CallbackQuery { data: q.data, message })
}

/// Decodes the bot's description with `serde_json::from_str`, into
/// `teloxide::types::Me`, and copies the `id` and the `username` of its
/// `user`. The contract claims only that the same text always decodes to the
/// same thing, which [`decoded_me`] names.
#[verifier::external_body]
pub(crate) fn decode_me(json: &str) -> (r: Option<Me>)
    ensures
        r.deep_view() == decoded_me(json@),
{
    let me: teloxide::types::Me = serde_json::from_str(json).ok()?;
    Some(Me { id: me.user.id.0, username: me.user.username })
}

} // verus!

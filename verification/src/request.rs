//! What goes out to the chat platform.

use vstd::prelude::*;
use crate::keyboard::{ButtonView, InlineKeyboardMarkup};

verus! {

/// Sends a text to a chat, with an inline keyboard under it if one is given.
#[derive(Debug, PartialEq, Eq)]
pub struct SendMessage {
    pub chat_id: i64,
    pub text: String,
    pub reply_markup: Option<InlineKeyboardMarkup>,
}

/// Replaces the text of a message, and its inline keyboard by the one given.
#[derive(Debug, PartialEq, Eq)]
pub struct EditMessageText {
    pub chat_id: i64,
    pub message_id: i32,
    pub text: String,
    pub reply_markup: Option<InlineKeyboardMarkup>,
}

/// Takes the inline keyboard off a message.
#[derive(Debug, PartialEq, Eq, Clone, Copy)]
pub struct EditMessageReplyMarkup {
    pub chat_id: i64,
    pub message_id: i32,
}

/// Deletes a message.
#[derive(Debug, PartialEq, Eq, Clone, Copy)]
pub struct DeleteMessage {
    pub chat_id: i64,
    pub message_id: i32,
}

/// Pins a message in its chat.
#[derive(Debug, PartialEq, Eq, Clone, Copy)]
pub struct PinChatMessage {
    pub chat_id: i64,
    pub message_id: i32,
}

/// One request to the chat platform.
#[derive(Debug, PartialEq, Eq)]
pub enum OutboundRequest {
    SendMessage(SendMessage),
    EditMessageMarkup(EditMessageReplyMarkup),
    EditMessageText(EditMessageText),
    DeleteMessage(DeleteMessage),
    PinMessage(PinChatMessage),
}

/// An [`OutboundRequest`] with its texts as sequences of characters.
pub enum RequestView {
    SendMessage { chat_id: i64, text: Seq<char>, reply_markup: Option<Seq<Seq<ButtonView>>> },
    EditMessageMarkup { chat_id: i64, message_id: i32 },
    EditMessageText {
        chat_id: i64,
        message_id: i32,
        text: Seq<char>,
        reply_markup: Option<Seq<Seq<ButtonView>>>,
    },
    DeleteMessage { chat_id: i64, message_id: i32 },
    PinMessage { chat_id: i64, message_id: i32 },
}

impl DeepView for SendMessage {
    type V = RequestView;

    open spec fn deep_view(&self) -> RequestView {
        RequestView::SendMessage {
            chat_id: self.chat_id,
            text: self.text@,
            reply_markup: self.reply_markup.deep_view(),
        }
    }
}

impl View for SendMessage {
    type V = RequestView;

    open spec fn view(&self) -> RequestView {
        self.deep_view()
    }
}

impl DeepView for EditMessageText {
    type V = RequestView;

    open spec fn deep_view(&self) -> RequestView {
        RequestView::EditMessageText {
            chat_id: self.chat_id,
            message_id: self.message_id,
            text: self.text@,
            reply_markup: self.reply_markup.deep_view(),
        }
    }
}

impl View for EditMessageText {
    type V = RequestView;

    open spec fn view(&self) -> RequestView {
        self.deep_view()
    }
}

impl View for EditMessageReplyMarkup {
    type V = RequestView;

    open spec fn view(&self) -> RequestView {
        RequestView::EditMessageMarkup { chat_id: self.chat_id, message_id: self.message_id }
    }
}

impl View for DeleteMessage {
    type V = RequestView;

    open spec fn view(&self) -> RequestView {
        RequestView::DeleteMessage { chat_id: self.chat_id, message_id: self.message_id }
    }
}

impl View for PinChatMessage {
    type V = RequestView;

    open spec fn view(&self) -> RequestView {
        RequestView::PinMessage { chat_id: self.chat_id, message_id: self.message_id }
    }
}

impl DeepView for OutboundRequest {
    type V = RequestView;

    open spec fn deep_view(&self) -> RequestView {
        match *self {
            OutboundRequest::SendMessage(p) => p@,
            OutboundRequest::EditMessageMarkup(p) => p@,
            OutboundRequest::EditMessageText(p) => p@,
            OutboundRequest::DeleteMessage(p) => p@,
            OutboundRequest::PinMessage(p) => p@,
        }
    }
}

impl View for OutboundRequest {
    type V = RequestView;

    open spec fn view(&self) -> RequestView {
        self.deep_view()
    }
}

impl RequestView {
    /// Whether the platform answers the request with the message that it
    /// sent or changed.
    pub open spec fn produces_message(self) -> bool {
        self is SendMessage || self is EditMessageText
    }
}

} // verus!

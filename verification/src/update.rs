//! What comes in from the chat platform.
//!
//! Of an incoming message only the chat it belongs to, its own identifier and
//! its text are kept; a message that carries a photo or any other payload
//! without text is a message whose `text` is `None`.

use vstd::prelude::*;

verus! {

/// A message that a user sent.
#[derive(Debug, PartialEq, Eq)]
pub struct Message {
    /// The identifier of the message inside its chat.
    pub id: i32,
    /// The chat that the message belongs to.
    pub chat_id: i64,
    /// The text of the message; `None` for a message that is not a text.
    pub text: Option<String>,
}

/// A [`Message`] with its text as a sequence of characters.
pub struct MessageView {
    pub id: i32,
    pub chat_id: i64,
    pub text: Option<Seq<char>>,
}

impl DeepView for Message {
    type V = MessageView;

    open spec fn deep_view(&self) -> MessageView {
        MessageView { id: self.id, chat_id: self.chat_id, text: self.text.deep_view() }
    }
}

impl View for Message {
    type V = MessageView;

    open spec fn view(&self) -> MessageView {
        self.deep_view()
    }
}

/// A press on a button of an inline keyboard.
#[derive(Debug, PartialEq, Eq)]
pub struct CallbackQuery {
    /// The text that the pressed button carries.
    pub data: Option<String>,
    /// The message under which the keyboard stood.
    pub message: Option<Message>,
}

/// A [`CallbackQuery`] with its texts as sequences of characters.
pub struct CallbackQueryView {
    pub data: Option<Seq<char>>,
    pub message: Option<MessageView>,
}

impl DeepView for CallbackQuery {
    type V = CallbackQueryView;

    open spec fn deep_view(&self) -> CallbackQueryView {
        CallbackQueryView { data: self.data.deep_view(), message: self.message.deep_view() }
    }
}

impl View for CallbackQuery {
    type V = CallbackQueryView;

    open spec fn view(&self) -> CallbackQueryView {
        self.deep_view()
    }
}

/// What an update carries.
#[derive(Debug, PartialEq, Eq)]
pub enum UpdateKind {
    Message(Message),
    CallbackQuery(CallbackQuery),
}

/// An [`UpdateKind`] with its texts as sequences of characters.
pub enum UpdateKindView {
    Message(MessageView),
    CallbackQuery(CallbackQueryView),
}

impl DeepView for UpdateKind {
    type V = UpdateKindView;

    open spec fn deep_view(&self) -> UpdateKindView {
        match *self {
            UpdateKind::Message(m) => UpdateKindView::Message(m@),
            UpdateKind::CallbackQuery(q) => UpdateKindView::CallbackQuery(q@),
        }
    }
}

impl View for UpdateKind {
    type V = UpdateKindView;

    open spec fn view(&self) -> UpdateKindView {
        self.deep_view()
    }
}

/// One inbound event.
#[derive(Debug, PartialEq, Eq)]
pub struct Update {
    /// The identifier that the platform gave the update.
    pub id: i32,
    pub kind: UpdateKind,
}

/// An [`Update`] with its texts as sequences of characters.
pub struct UpdateView {
    pub id: i32,
    pub kind: UpdateKindView,
}

impl DeepView for Update {
    type V = UpdateView;

    open spec fn deep_view(&self) -> UpdateView {
        UpdateView { id: self.id, kind: self.kind@ }
    }
}

impl View for Update {
    type V = UpdateView;

    open spec fn view(&self) -> UpdateView {
        self.deep_view()
    }
}

impl UpdateView {
    /// The chat that the update belongs to, if it belongs to one.
    pub open spec fn chat_id(self) -> Option<i64> {
        match self.kind {
            UpdateKindView::Message(m) => Some(m.chat_id),
            UpdateKindView::CallbackQuery(q) => match q.message {
                Some(m) => Some(m.chat_id),
                None => None,
            },
        }
    }
}

impl Update {
    /// The chat that the update belongs to, if it belongs to one: the chat of
    /// the message, or of the message under which the pressed button stood.
    pub fn chat_id(&self) -> (r: Option<i64>)
        ensures
            r == self@.chat_id(),
    {
        match &self.kind {
            UpdateKind::Message(m) => Some(m.chat_id),
            UpdateKind::CallbackQuery(q) => match &q.message {
                Some(m) => Some(m.chat_id),
                None => None,
            },
        }
    }
}

} // verus!

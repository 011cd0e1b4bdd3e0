//! The steps of the conversation.
//!
//! A handler looks at what came in and decides what goes out and where the
//! conversation stands afterwards. It delivers nothing and stores nothing
//! itself: the decision is returned as a [`Reaction`].
//!
//! Input that a handler cannot use (a photo where a number is expected, a
//! text that is no number) is answered with a prompt and leaves the state
//! alone.

use vstd::prelude::*;
use vstd::string::StringExecFns;
use crate::chars::same_text;
use crate::decimal::{decimal, parse_i32, push_decimal, text_as_i32};
use crate::keyboard::{ButtonView, InlineKeyboardButton, InlineKeyboardMarkup};
use crate::request::{EditMessageReplyMarkup, OutboundRequest, RequestView, SendMessage};
use crate::state::{State, StateView};
use crate::text;
use crate::update::{CallbackQuery, CallbackQueryView, Message, MessageView};

pub use crate::command::StartCommand;

verus! {

/// What a handler decided.
#[derive(Debug, PartialEq, Eq)]
pub struct Reaction {
    /// The requests to deliver, in this order.
    pub requests: Vec<OutboundRequest>,
    /// The state to store once every request is delivered; `None` where the
    /// stored state is to be left as it is.
    pub next_state: Option<State>,
}

/// A [`Reaction`] with its texts as sequences of characters.
pub struct ReactionView {
    pub requests: Seq<RequestView>,
    pub next_state: Option<StateView>,
}

impl DeepView for Reaction {
    type V = ReactionView;

    open spec fn deep_view(&self) -> ReactionView {
        ReactionView {
            requests: self.requests.deep_view(),
            next_state: self.next_state.deep_view(),
        }
    }
}

impl View for Reaction {
    type V = ReactionView;

    open spec fn view(&self) -> ReactionView {
        self.deep_view()
    }
}

impl ReactionView {
    /// The state of the conversation after the reaction, if it stood at
    /// `current` before.
    pub open spec fn state_after(self, current: StateView) -> StateView {
        match self.next_state {
            Some(next) => next,
            None => current,
        }
    }
}

/// Why a handler gave up.
#[derive(Debug, PartialEq, Eq, Clone, Copy)]
pub enum HandlerError {
    /// The conversation carries an operation that is neither `add` nor
    /// `subtract`. The keyboard offers no other, so this is a fault of the
    /// program and not of the user.
    UnknownOperation,
}

/// The request that sends the plain text `text` to the chat `chat_id`.
pub open spec fn plain_message(chat_id: i64, text: Seq<char>) -> RequestView {
    RequestView::SendMessage { chat_id, text, reply_markup: None }
}

/// The reaction that answers with one plain text and may move on to `next`.
pub open spec fn answer(chat_id: i64, text: Seq<char>, next: Option<StateView>) -> ReactionView {
    ReactionView { requests: seq![plain_message(chat_id, text)], next_state: next }
}

/// The reaction that does nothing at all.
pub open spec fn no_reaction() -> ReactionView {
    ReactionView { requests: Seq::empty(), next_state: None }
}

/// The keyboard that offers the two operations.
pub open spec fn operations_keyboard() -> Seq<Seq<ButtonView>> {
    seq![
        seq![
            ButtonView { text: text::ADD_LABEL@, callback_data: text::ADD@ },
            ButtonView { text: text::SUBTRACT_LABEL@, callback_data: text::SUBTRACT@ },
        ],
    ]
}

/// What [`start`] decides.
pub open spec fn spec_start(msg: MessageView) -> ReactionView {
    ReactionView {
        requests: seq![
            RequestView::SendMessage {
                chat_id: msg.chat_id,
                text: text::WHAT_DO_YOU_WANT@,
                reply_markup: Some(operations_keyboard()),
            },
        ],
        next_state: Some(StateView::WhatDoYouWant),
    }
}

/// Whether a callback query can be acted on: it names a message and carries
/// a text that is not empty.
pub open spec fn usable_callback(call: CallbackQueryView) -> bool {
    &&& call.message is Some
    &&& call.data is Some
    &&& call.data->0.len() > 0
}

/// What [`what_is_the_first_number`] decides.
pub open spec fn spec_what_is_the_first_number(call: CallbackQueryView) -> ReactionView {
    if usable_callback(call) {
        let origin = call.message->0;
        ReactionView {
            requests: seq![
                RequestView::EditMessageMarkup { chat_id: origin.chat_id, message_id: origin.id },
                plain_message(origin.chat_id, text::ENTER_THE_FIRST_NUMBER@),
            ],
            next_state: Some(StateView::GetFirstNumber { operation: call.data->0 }),
        }
    } else {
        no_reaction()
    }
}

/// What [`what_is_the_second_number`] decides.
pub open spec fn spec_what_is_the_second_number(
    message: MessageView,
    operation: Seq<char>,
) -> ReactionView {
    match message.text {
        None => answer(message.chat_id, text::PLEASE_SEND_TEXT@, None),
        Some(t) => match text_as_i32(t) {
            None => answer(message.chat_id, text::PLEASE_ENTER_A_NUMBER@, None),
            Some(first_number) => answer(
                message.chat_id,
                text::ENTER_THE_SECOND_NUMBER@,
                Some(StateView::GetSecondNumber { first_number, operation }),
            ),
        },
    }
}

/// The result of applying `operation` to `a` and `b`, if the operation is
/// known. It is the sum or the difference of the integers, which may lie
/// outside `i32`.
pub open spec fn calculate(operation: Seq<char>, a: i32, b: i32) -> Option<int> {
    if operation == text::ADD@ {
        Some(a + b)
    } else if operation == text::SUBTRACT@ {
        Some(a - b)
    } else {
        None
    }
}

/// The text that announces `result`.
pub open spec fn result_text(result: int) -> Seq<char> {
    text::YOUR_RESULT@ + decimal(result)
}

/// What [`get_result`] decides.
pub open spec fn spec_get_result(
    message: MessageView,
    first_number: i32,
    operation: Seq<char>,
) -> Result<ReactionView, HandlerError> {
    match message.text {
        None => Ok(answer(message.chat_id, text::PLEASE_SEND_TEXT@, None)),
        Some(t) => match text_as_i32(t) {
            None => Ok(answer(message.chat_id, text::PLEASE_ENTER_A_NUMBER@, None)),
            Some(second_number) => match calculate(operation, first_number, second_number) {
                Some(result) => Ok(
                    answer(message.chat_id, result_text(result), Some(StateView::Start)),
                ),
                None => Err(HandlerError::UnknownOperation),
            },
        },
    }
}

/// The reaction that sends `text` to `chat_id` and may move on to `next`.
fn answer_with(chat_id: i64, text: String, next: Option<State>) -> (r: Reaction)
    ensures
        r@ == answer(chat_id, text@, next.deep_view()),
{
    let mut requests: Vec<OutboundRequest> = Vec::new();
    requests.push(OutboundRequest::SendMessage(SendMessage { chat_id, text, reply_markup: None }));
    assert(requests.deep_view() =~= seq![plain_message(chat_id, text@)]);
    Reaction { requests, next_state: next }
}

/// The reaction that does nothing.
fn nothing() -> (r: Reaction)
    ensures
        r@ == no_reaction(),
{
    let requests: Vec<OutboundRequest> = Vec::new();
    assert(requests.deep_view() =~= Seq::<RequestView>::empty());
    Reaction { requests, next_state: None }
}

/// Applies `operation` to the two numbers.
fn apply(operation: &str, a: i32, b: i32) -> (r: Option<i64>)
    ensures
        r.is_some() == calculate(operation@, a, b).is_some(),
        r.is_some() ==> r.unwrap() == calculate(operation@, a, b).unwrap(),
{
    if same_text(operation, text::ADD) {
        Some(a as i64 + b as i64)
    } else if same_text(operation, text::SUBTRACT) {
        Some(a as i64 - b as i64)
    } else {
        None
    }
}

/// Answers the start command: asks what to do, offers the two operations,
/// and waits for the choice.
pub fn start(msg: &Message) -> (r: Reaction)
    ensures
        r@ == spec_start(msg@),
{
    let mut row: Vec<InlineKeyboardButton> = Vec::new();
    row.push(InlineKeyboardButton::callback(text::ADD_LABEL, text::ADD));
    row.push(InlineKeyboardButton::callback(text::SUBTRACT_LABEL, text::SUBTRACT));
    let mut rows: Vec<Vec<InlineKeyboardButton>> = Vec::new();
    rows.push(row);
    let keyboard = InlineKeyboardMarkup::new(rows);
    assert(keyboard@ =~~= operations_keyboard());
    let request = OutboundRequest::SendMessage(
        SendMessage {
            chat_id: msg.chat_id,
            text: String::from_str(text::WHAT_DO_YOU_WANT),
            reply_markup: Some(keyboard),
        },
    );
    let mut requests: Vec<OutboundRequest> = Vec::new();
    requests.push(request);
    assert(requests.deep_view() =~= spec_start(msg@).requests);
    Reaction { requests, next_state: Some(State::WhatDoYouWant) }
}

/// Answers the choice of the operation: takes the keyboard off the message
/// it stood under, asks for the first number, and remembers the operation.
/// A callback query that names no message, or carries no text or an empty
/// one, is passed over: nothing goes out and the state stays.
pub fn what_is_the_first_number(call: CallbackQuery) -> (r: Reaction)
    ensures
        r@ == spec_what_is_the_first_number(call@),
{
    let CallbackQuery { data, message } = call;
    match (message, data) {
        (Some(origin), Some(operation)) => {
            if operation.as_str().is_empty() {
                nothing()
            } else {
                let mut requests: Vec<OutboundRequest> = Vec::new();
                requests.push(
                    OutboundRequest::EditMessageMarkup(
                        EditMessageReplyMarkup { chat_id: origin.chat_id, message_id: origin.id },
                    ),
                );
                requests.push(
                    OutboundRequest::SendMessage(
                        SendMessage {
                            chat_id: origin.chat_id,
                            text: String::from_str(text::ENTER_THE_FIRST_NUMBER),
                            reply_markup: None,
                        },
                    ),
                );
                assert(requests.deep_view() =~= spec_what_is_the_first_number(call@).requests);
                Reaction { requests, next_state: Some(State::GetFirstNumber { operation }) }
            }
        },
        _ => nothing(),
    }
}

/// Takes the first number: asks for the second one and remembers the first.
/// `state_data` is the operation that was chosen.
pub fn what_is_the_second_number(message: &Message, state_data: String) -> (r: Reaction)
    ensures
        r@ == spec_what_is_the_second_number(message@, state_data@),
{
    let message_text = match &message.text {
        Some(t) => t,
        None => {
            return answer_with(message.chat_id, String::from_str(text::PLEASE_SEND_TEXT), None);
        },
    };
    let first_number = match parse_i32(message_text.as_str()) {
        Some(number) => number,
        None => {
            return answer_with(
                message.chat_id,
                String::from_str(text::PLEASE_ENTER_A_NUMBER),
                None,
            );
        },
    };
    answer_with(
        message.chat_id,
        String::from_str(text::ENTER_THE_SECOND_NUMBER),
        Some(State::GetSecondNumber { first_number, operation: state_data }),
    )
}

/// Takes the second number: answers with the result and ends the
/// conversation. `state_data` is the first number and the operation.
///
/// The result is the sum or the difference of the two numbers as integers,
/// also where it does not fit into `i32`.
pub fn get_result(message: &Message, state_data: (i32, String)) -> (r: Result<
    Reaction,
    HandlerError,
>)
    ensures
        match r {
            Ok(reaction) => spec_get_result(message@, state_data.0, state_data.1@) == Ok::<
                ReactionView,
                HandlerError,
            >(reaction@),
            Err(e) => spec_get_result(message@, state_data.0, state_data.1@) == Err::<
                ReactionView,
                HandlerError,
            >(e),
        },
{
    let message_text = match &message.text {
        Some(t) => t,
        None => {
            return Ok(
                answer_with(message.chat_id, String::from_str(text::PLEASE_SEND_TEXT), None),
            );
        },
    };
    let second_number = match parse_i32(message_text.as_str()) {
        Some(number) => number,
        None => {
            return Ok(
                answer_with(
                    message.chat_id,
                    String::from_str(text::PLEASE_ENTER_A_NUMBER),
                    None,
                ),
            );
        },
    };
    let (first_number, operation) = state_data;
    let result = match apply(operation.as_str(), first_number, second_number) {
        Some(result) => result,
        None => {
            return Err(HandlerError::UnknownOperation);
        },
    };
    let mut reply = String::from_str(text::YOUR_RESULT);
    push_decimal(&mut reply, result);
    Ok(answer_with(message.chat_id, reply, Some(State::default())))
}

} // verus!

//! Which handler answers which update.
//!
//! | state              | update                 | handler                       |
//! |--------------------|------------------------|-------------------------------|
//! | `Start`            | the start command      | `start`                       |
//! | `WhatDoYouWant`    | a press on a button    | `what_is_the_first_number`    |
//! | `GetFirstNumber`   | any message            | `what_is_the_second_number`   |
//! | `GetSecondNumber`  | any message            | `get_result`                  |
//!
//! Every other pair of state and update is left unhandled. So is a press on
//! a button that names no message: it belongs to no chat, and so to no
//! conversation.

use vstd::prelude::*;
use crate::command::{parse_start_command, StartCommand};
use crate::decimal::{decimal, lemma_decimal_reads_back_i32, text_as_i32};
use crate::handlers::{
    answer, get_result, result_text, spec_get_result, spec_start, spec_what_is_the_first_number,
    spec_what_is_the_second_number, start, what_is_the_first_number, what_is_the_second_number,
    HandlerError, Reaction, ReactionView,
};
use crate::state::{State, StateView};
use crate::text;
use crate::update::{MessageView, Update, UpdateKind, UpdateKindView, UpdateView};

verus! {

/// How the dispatch of one update ended.
#[derive(Debug, PartialEq, Eq)]
pub enum Dispatched {
    /// No handler is registered for the update in this state.
    Unhandled,
    /// A handler ran, and this is what it decided. A reaction that leaves the
    /// state alone is as good as one that changes it.
    Handled(Reaction),
    /// A handler ran and gave up.
    Failed(HandlerError),
}

/// A [`Dispatched`] with its texts as sequences of characters.
pub enum DispatchedView {
    Unhandled,
    Handled(ReactionView),
    Failed(HandlerError),
}

impl DeepView for Dispatched {
    type V = DispatchedView;

    open spec fn deep_view(&self) -> DispatchedView {
        match *self {
            Dispatched::Unhandled => DispatchedView::Unhandled,
            Dispatched::Handled(reaction) => DispatchedView::Handled(reaction@),
            Dispatched::Failed(e) => DispatchedView::Failed(e),
        }
    }
}

impl View for Dispatched {
    type V = DispatchedView;

    open spec fn view(&self) -> DispatchedView {
        self.deep_view()
    }
}

impl DispatchedView {
    /// The state of the conversation after the dispatch, if it stood at
    /// `current` before: only a handler that ran to its end moves it.
    pub open spec fn state_after(self, current: StateView) -> StateView {
        match self {
            DispatchedView::Handled(reaction) => reaction.state_after(current),
            _ => current,
        }
    }
}

/// Whether `message` is the start command for the bot called `bot_name`.
pub open spec fn is_start_command(message: MessageView, bot_name: Seq<char>) -> bool {
    message.text is Some && parse_start_command(message.text->0, bot_name) is Ok
}

/// How the dispatch of `update` ends for a conversation in `state`, for the
/// bot called `bot_name`.
pub open spec fn spec_dispatch(
    state: StateView,
    update: UpdateView,
    bot_name: Seq<char>,
) -> DispatchedView {
    match update.kind {
        UpdateKindView::Message(message) => match state {
            StateView::Start => if is_start_command(message, bot_name) {
                DispatchedView::Handled(spec_start(message))
            } else {
                DispatchedView::Unhandled
            },
            StateView::WhatDoYouWant => DispatchedView::Unhandled,
            StateView::GetFirstNumber { operation } => DispatchedView::Handled(
                spec_what_is_the_second_number(message, operation),
            ),
            StateView::GetSecondNumber { first_number, operation } => match spec_get_result(
                message,
                first_number,
                operation,
            ) {
                Ok(reaction) => DispatchedView::Handled(reaction),
                Err(e) => DispatchedView::Failed(e),
            },
        },
        UpdateKindView::CallbackQuery(call) => if state is WhatDoYouWant && call.message is Some {
            DispatchedView::Handled(spec_what_is_the_first_number(call))
        } else {
            DispatchedView::Unhandled
        },
    }
}

/// Hands `update` to the handler that is registered for it in `state`, and
/// returns what the handler decided. `bot_name` is the name under which the
/// bot is addressed in commands.
pub fn dispatch(state: State, update: Update, bot_name: &str) -> (r: Dispatched)
    ensures
        r@ == spec_dispatch(state@, update@, bot_name@),
{
    match update.kind {
        UpdateKind::Message(message) => match state {
            State::Start => {
                let is_start = match &message.text {
                    Some(t) => StartCommand::parse(t.as_str(), bot_name).is_ok(),
                    None => false,
                };
                if is_start {
                    Dispatched::Handled(start(&message))
                } else {
                    Dispatched::Unhandled
                }
            },
            State::WhatDoYouWant => Dispatched::Unhandled,
            State::GetFirstNumber { operation } => Dispatched::Handled(
                what_is_the_second_number(&message, operation),
            ),
            State::GetSecondNumber { first_number, operation } => match get_result(
                &message,
                (first_number, operation),
            ) {
                Ok(reaction) => Dispatched::Handled(reaction),
                Err(e) => Dispatched::Failed(e),
            },
        },
        UpdateKind::CallbackQuery(call) => match state {
            State::WhatDoYouWant => {
                if call.message.is_some() {
                    Dispatched::Handled(what_is_the_first_number(call))
                } else {
                    Dispatched::Unhandled
                }
            },
            _ => Dispatched::Unhandled,
        },
    }
}

/// The state to store after a handler's requests went out: the state that
/// the handler asked for where every one of its `requests` requests was
/// delivered, and none where the delivery stopped short. A request that did
/// not get through leaves the conversation where it stood, so that what is
/// stored never runs ahead of what the user was told.
pub fn state_to_store(next_state: Option<State>, requests: usize, delivered: usize) -> (r: Option<
    State,
>)
    ensures
        r.deep_view() == (if delivered == requests {
            next_state.deep_view()
        } else {
            None
        }),
{
    if delivered == requests {
        next_state
    } else {
        None
    }
}

/// A whole calculation: a conversation that waits for the first number and
/// is sent the decimal text of `a`, then the decimal text of `b`, remembers
/// `a` after the first message, and after the second is back at the start,
/// having answered with the announcement of `a + b` where the operation is
/// `add`, and of `a - b` where it is `subtract`.
pub proof fn lemma_calculation(
    a: i32,
    b: i32,
    operation: Seq<char>,
    first: UpdateView,
    second: UpdateView,
    bot_name: Seq<char>,
)
    requires
        operation == text::ADD@ || operation == text::SUBTRACT@,
        first.kind matches UpdateKindView::Message(m) && m.text == Some(decimal(a as int)),
        second.kind matches UpdateKindView::Message(m) && m.text == Some(decimal(b as int)),
    ensures
        spec_dispatch(StateView::GetFirstNumber { operation }, first, bot_name)
            == DispatchedView::Handled(
            answer(
                first.kind->Message_0.chat_id,
                text::ENTER_THE_SECOND_NUMBER@,
                Some(StateView::GetSecondNumber { first_number: a, operation }),
            ),
        ),
        operation == text::ADD@ ==> spec_dispatch(
            StateView::GetSecondNumber { first_number: a, operation },
            second,
            bot_name,
        ) == DispatchedView::Handled(
            answer(second.kind->Message_0.chat_id, result_text(a + b), Some(StateView::Start)),
        ),
        operation == text::SUBTRACT@ ==> spec_dispatch(
            StateView::GetSecondNumber { first_number: a, operation },
            second,
            bot_name,
        ) == DispatchedView::Handled(
            answer(second.kind->Message_0.chat_id, result_text(a - b), Some(StateView::Start)),
        ),
{
    lemma_decimal_reads_back_i32(a);
    lemma_decimal_reads_back_i32(b);
    assert(text::ADD@ != text::SUBTRACT@) by {
        reveal_strlit("add");
        reveal_strlit("subtract");
        assert(text::ADD@.len() == 3);
        assert(text::SUBTRACT@.len() == 8);
    }
}

/// Whether a conversation in `state` waits for a number.
pub open spec fn awaits_number(state: StateView) -> bool {
    state is GetFirstNumber || state is GetSecondNumber
}

/// A conversation that waits for a number and is sent a text that is no
/// `i32` answers with the request for a number, and stays where it is.
pub proof fn lemma_not_a_number(state: StateView, update: UpdateView, bot_name: Seq<char>)
    requires
        awaits_number(state),
        update.kind matches UpdateKindView::Message(m) && m.text matches Some(t) && text_as_i32(t)
            is None,
    ensures
        spec_dispatch(state, update, bot_name) == DispatchedView::Handled(
            answer(update.kind->Message_0.chat_id, text::PLEASE_ENTER_A_NUMBER@, None),
        ),
        spec_dispatch(state, update, bot_name).state_after(state) == state,
{
}

/// A conversation that waits for a number and is sent a message without
/// text answers with the request for text, and stays where it is.
pub proof fn lemma_not_a_text(state: StateView, update: UpdateView, bot_name: Seq<char>)
    requires
        awaits_number(state),
        update.kind matches UpdateKindView::Message(m) && m.text is None,
    ensures
        spec_dispatch(state, update, bot_name) == DispatchedView::Handled(
            answer(update.kind->Message_0.chat_id, text::PLEASE_SEND_TEXT@, None),
        ),
        spec_dispatch(state, update, bot_name).state_after(state) == state,
{
}

/// The dispatch is a function of the state, the update and the bot's name:
/// whatever two runs of [`dispatch`] return for the same three, the requests
/// and the next state are the same.
pub proof fn lemma_dispatch_is_deterministic(
    state: StateView,
    update: UpdateView,
    bot_name: Seq<char>,
    one: Dispatched,
    other: Dispatched,
)
    requires
        one@ == spec_dispatch(state, update, bot_name),
        other@ == spec_dispatch(state, update, bot_name),
    ensures
        one@ == other@,
        one@.state_after(state) == other@.state_after(state),
{
}

} // verus!

//! The state of one conversation.

use vstd::prelude::*;

verus! {

/// Where a conversation stands. A chat that has no stored state is at
/// [`State::Start`].
#[derive(Debug, PartialEq, Eq)]
pub enum State {
    /// Nothing is going on: the start command is expected. A finished
    /// calculation comes back here.
    Start,
    /// The user was asked whether to add or to subtract.
    WhatDoYouWant,
    /// The operation is chosen; the first number is expected.
    GetFirstNumber { operation: String },
    /// The first number is known; the second one is expected.
    GetSecondNumber { first_number: i32, operation: String },
}

/// A [`State`] with its texts as sequences of characters.
pub enum StateView {
    Start,
    WhatDoYouWant,
    GetFirstNumber { operation: Seq<char> },
    GetSecondNumber { first_number: i32, operation: Seq<char> },
}

impl DeepView for State {
    type V = StateView;

    open spec fn deep_view(&self) -> StateView {
        match *self {
            State::Start => StateView::Start,
            State::WhatDoYouWant => StateView::WhatDoYouWant,
            State::GetFirstNumber { operation } => StateView::GetFirstNumber {
                operation: operation@,
            },
            State::GetSecondNumber { first_number, operation } => StateView::GetSecondNumber {
                first_number,
                operation: operation@,
            },
        }
    }
}

impl View for State {
    type V = StateView;

    open spec fn view(&self) -> StateView {
        self.deep_view()
    }
}

impl Clone for State {
    fn clone(&self) -> (r: Self)
        ensures
            r@ == self@,
    {
        match self {
            State::Start => State::Start,
            State::WhatDoYouWant => State::WhatDoYouWant,
            State::GetFirstNumber { operation } => State::GetFirstNumber {
                operation: operation.clone(),
            },
            State::GetSecondNumber { first_number, operation } => State::GetSecondNumber {
                first_number: *first_number,
                operation: operation.clone(),
            },
        }
    }
}

impl Default for State {
    fn default() -> (r: Self)
        ensures
            r@ == StateView::Start,
    {
        State::Start
    }
}

impl State {
    /// Whether `self` and `other` are the same state.
    pub fn same(&self, other: &State) -> (r: bool)
        ensures
            r == (self@ == other@),
    {
        match (self, other) {
            (State::Start, State::Start) => true,
            (State::WhatDoYouWant, State::WhatDoYouWant) => true,
            (State::GetFirstNumber { operation: a }, State::GetFirstNumber { operation: b }) => *a
                == *b,
            (
                State::GetSecondNumber { first_number: m, operation: a },
                State::GetSecondNumber { first_number: n, operation: b },
            ) => *m == *n && *a == *b,
            _ => false,
        }
    }
}

} // verus!

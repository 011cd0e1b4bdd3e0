//! Inline keyboards: a grid of labelled buttons under a message, each of
//! which sends a fixed text back when it is pressed.

use vstd::prelude::*;
use vstd::string::StringExecFns;

verus! {

/// One button of an inline keyboard.
#[derive(Debug, PartialEq, Eq)]
pub struct InlineKeyboardButton {
    /// The label on the button.
    pub text: String,
    /// What comes back in the callback query when the button is pressed.
    pub callback_data: String,
}

/// An [`InlineKeyboardButton`] with its texts as sequences of characters.
pub struct ButtonView {
    pub text: Seq<char>,
    pub callback_data: Seq<char>,
}

impl DeepView for InlineKeyboardButton {
    type V = ButtonView;

    open spec fn deep_view(&self) -> ButtonView {
        ButtonView { text: self.text@, callback_data: self.callback_data@ }
    }
}

impl View for InlineKeyboardButton {
    type V = ButtonView;

    open spec fn view(&self) -> ButtonView {
        self.deep_view()
    }
}

impl InlineKeyboardButton {
    /// A button labelled `text` that sends `callback_data` back.
    pub fn callback(text: &str, callback_data: &str) -> (b: Self)
        ensures
            b@ == (ButtonView { text: text@, callback_data: callback_data@ }),
    {
        InlineKeyboardButton {
            text: String::from_str(text),
            callback_data: String::from_str(callback_data),
        }
    }
}

impl Clone for InlineKeyboardButton {
    fn clone(&self) -> (r: Self)
        ensures
            r@ == self@,
    {
        InlineKeyboardButton {
            text: self.text.clone(),
            callback_data: self.callback_data.clone(),
        }
    }
}

/// An inline keyboard: rows of buttons, top row first.
#[derive(Debug, PartialEq, Eq)]
pub struct InlineKeyboardMarkup {
    pub inline_keyboard: Vec<Vec<InlineKeyboardButton>>,
}

impl DeepView for InlineKeyboardMarkup {
    type V = Seq<Seq<ButtonView>>;

    open spec fn deep_view(&self) -> Seq<Seq<ButtonView>> {
        self.inline_keyboard.deep_view()
    }
}

impl View for InlineKeyboardMarkup {
    type V = Seq<Seq<ButtonView>>;

    open spec fn view(&self) -> Seq<Seq<ButtonView>> {
        self.deep_view()
    }
}

/// A copy of one row of buttons.
fn clone_row(row: &Vec<InlineKeyboardButton>) -> (r: Vec<InlineKeyboardButton>)
    ensures
        r.deep_view() == row.deep_view(),
{
    let mut r: Vec<InlineKeyboardButton> = Vec::new();
    let mut i: usize = 0;
    while i < row.len()
        invariant
            i <= row.len(),
            r.len() == i,
            forall|j: int| 0 <= j < i ==> (#[trigger] r@[j])@ == row@[j]@,
        decreases row.len() - i,
    {
        r.push(row[i].clone());
        i += 1;
    }
    assert(r.deep_view() =~= row.deep_view());
    r
}

impl InlineKeyboardMarkup {
    /// The keyboard with the rows `inline_keyboard`.
    pub fn new(inline_keyboard: Vec<Vec<InlineKeyboardButton>>) -> (k: Self)
        ensures
            k@ == inline_keyboard.deep_view(),
    {
        InlineKeyboardMarkup { inline_keyboard }
    }
}

impl Clone for InlineKeyboardMarkup {
    fn clone(&self) -> (r: Self)
        ensures
            r@ == self@,
    {
        let mut rows: Vec<Vec<InlineKeyboardButton>> = Vec::new();
        let mut i: usize = 0;
        while i < self.inline_keyboard.len()
            invariant
                i <= self.inline_keyboard.len(),
                rows.len() == i,
                forall|j: int|
                    0 <= j < i ==> (#[trigger] rows@[j]).deep_view()
                        == self.inline_keyboard@[j].deep_view(),
            decreases self.inline_keyboard.len() - i,
        {
            rows.push(clone_row(&self.inline_keyboard[i]));
            i += 1;
        }
        assert(rows.deep_view() =~= self.inline_keyboard.deep_view());
        InlineKeyboardMarkup { inline_keyboard: rows }
    }
}

/// A copy of a keyboard that may be absent.
pub fn clone_markup(markup: &Option<InlineKeyboardMarkup>) -> (r: Option<InlineKeyboardMarkup>)
    ensures
        r.deep_view() == markup.deep_view(),
{
    match markup {
        Some(k) => Some(k.clone()),
        None => None,
    }
}

} // verus!

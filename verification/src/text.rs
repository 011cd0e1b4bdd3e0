//! What the bot says.

use vstd::prelude::*;

verus! {

/// Asks what the user wants to do; sent together with the two choices.
pub const WHAT_DO_YOU_WANT: &'static str = "what do you want to do?";

/// Asks for the first operand.
pub const ENTER_THE_FIRST_NUMBER: &'static str = "enter the first number";

/// Asks for the second operand.
pub const ENTER_THE_SECOND_NUMBER: &'static str = "enter the second number";

/// Sent when a message without text arrives where a number is expected.
pub const PLEASE_SEND_TEXT: &'static str = "please send text";

/// Sent when the text that arrived is not a number.
pub const PLEASE_ENTER_A_NUMBER: &'static str = "please enter a number";

/// Goes before the result of the calculation.
pub const YOUR_RESULT: &'static str = "your result: ";

/// The label of the button that chooses addition.
pub const ADD_LABEL: &'static str = "Add";

/// The label of the button that chooses subtraction.
pub const SUBTRACT_LABEL: &'static str = "Subtract";

/// The operation that the addition button stands for.
pub const ADD: &'static str = "add";

/// The operation that the subtraction button stands for.
pub const SUBTRACT: &'static str = "subtract";

} // verus!

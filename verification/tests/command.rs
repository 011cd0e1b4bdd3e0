use calculator_bot::chars::{chars_of, find, same_chars, same_text, text_of};
use calculator_bot::command::{ParseError, StartCommand};

#[test]
fn start_is_the_first_word() {
    assert_eq!(StartCommand::parse("/start", "test_bot"), Ok(StartCommand::Start));
    assert_eq!(StartCommand::parse("/start ", "test_bot"), Ok(StartCommand::Start));
    assert_eq!(StartCommand::parse("/start 1 2 3", "test_bot"), Ok(StartCommand::Start));
    assert_eq!(StartCommand::parse("/start\n", "test_bot"), Err(ParseError::UnknownCommand));
    assert_eq!(StartCommand::parse("/start\tx", "test_bot"), Err(ParseError::UnknownCommand));
    assert_eq!(StartCommand::parse(" /start", "test_bot"), Err(ParseError::UnknownCommand));
    assert_eq!(StartCommand::parse("", "test_bot"), Err(ParseError::UnknownCommand));
    assert_eq!(StartCommand::parse("start", "test_bot"), Err(ParseError::UnknownCommand));
    assert_eq!(StartCommand::parse("/Start", "test_bot"), Err(ParseError::UnknownCommand));
    assert_eq!(StartCommand::parse("/started", "test_bot"), Err(ParseError::UnknownCommand));
    assert_eq!(StartCommand::parse("/star", "test_bot"), Err(ParseError::UnknownCommand));
    assert_eq!(StartCommand::parse("/help", "test_bot"), Err(ParseError::UnknownCommand));
}

#[test]
fn a_command_may_name_its_bot() {
    assert_eq!(StartCommand::parse("/start@test_bot", "test_bot"), Ok(StartCommand::Start));
    assert_eq!(StartCommand::parse("/start@TEST_Bot", "test_bot"), Ok(StartCommand::Start));
    assert_eq!(StartCommand::parse("/start@test_bot", "Test_BOT"), Ok(StartCommand::Start));
    assert_eq!(StartCommand::parse("/start@test_bot hi", "test_bot"), Ok(StartCommand::Start));
    assert_eq!(StartCommand::parse("/start@test_bot@x", "test_bot"), Ok(StartCommand::Start));
    assert_eq!(StartCommand::parse("/start@", ""), Ok(StartCommand::Start));
    assert_eq!(StartCommand::parse("/start@", "test_bot"), Err(ParseError::WrongBotName));
    assert_eq!(StartCommand::parse("/start@other", "test_bot"), Err(ParseError::WrongBotName));
    assert_eq!(StartCommand::parse("/start@test_bo", "test_bot"), Err(ParseError::WrongBotName));
    assert_eq!(StartCommand::parse("/start@test-bot", "test_bot"), Err(ParseError::WrongBotName));
    assert_eq!(StartCommand::parse("/start@@test_bot", "test_bot"), Err(ParseError::WrongBotName));
    assert_eq!(StartCommand::parse("/start @other", "test_bot"), Ok(StartCommand::Start));
    // The name is looked at before the command.
    assert_eq!(StartCommand::parse("/help@other", "test_bot"), Err(ParseError::WrongBotName));
    assert_eq!(StartCommand::parse("/help@test_bot", "test_bot"), Err(ParseError::UnknownCommand));
    // Only A to Z are taken for a to z.
    assert_eq!(StartCommand::parse("/start@BÄR", "bär"), Err(ParseError::WrongBotName));
    assert_eq!(StartCommand::parse("/start@BäR", "bär"), Ok(StartCommand::Start));
    assert_eq!(StartCommand::parse("/start@[bot", "{bot"), Err(ParseError::WrongBotName));
}

#[test]
fn texts_as_characters() {
    assert_eq!(chars_of("aé😀"), vec!['a', 'é', '😀']);
    assert_eq!(chars_of(""), Vec::<char>::new());
    let v = chars_of("12:ab:c");
    assert_eq!(find(&v, ':', 0, v.len()), 2);
    assert_eq!(find(&v, ':', 3, v.len()), 5);
    assert_eq!(find(&v, ':', 3, 4), 4);
    assert_eq!(find(&v, '!', 0, v.len()), 7);
    assert_eq!(text_of(&v, 3, 5), "ab");
    assert_eq!(text_of(&v, 2, 2), "");
    assert!(same_chars(&v, &chars_of("12:ab:c")));
    assert!(!same_chars(&v, &chars_of("12:ab:d")));
    assert!(!same_chars(&v, &chars_of("12:ab:")));
    assert!(same_text("añb", "añb"));
    assert!(!same_text("add", "Add"));
    assert!(!same_text("add", "add "));
}

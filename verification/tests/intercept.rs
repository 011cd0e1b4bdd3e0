use calculator_bot::intercept::{
    make_bot_message, Acknowledgment, BotMessage, Delivery, Gateway, ParseMode, TestingIntercept,
    TestingInterceptAndReturnMessage,
};
use calculator_bot::keyboard::{InlineKeyboardButton, InlineKeyboardMarkup};
use calculator_bot::request::{
    DeleteMessage, EditMessageReplyMarkup, EditMessageText, OutboundRequest, PinChatMessage,
    SendMessage,
};

fn keyboard() -> InlineKeyboardMarkup {
    InlineKeyboardMarkup::new(vec![
        vec![InlineKeyboardButton::callback("Yes", "y"), InlineKeyboardButton::callback("No", "n")],
        vec![InlineKeyboardButton::callback("Later", "l")],
    ])
}

fn send(chat_id: i64, text: &str) -> SendMessage {
    SendMessage { chat_id, text: text.to_string(), reply_markup: None }
}

fn kept(gateway: &Gateway) -> Option<BotMessage> {
    gateway.last_sent_message().cloned()
}

#[test]
fn a_bot_message_holds_what_it_is_given() {
    assert_eq!(
        make_bot_message("a\n\"b\"", -5, Some(keyboard())),
        BotMessage { id: 1, chat_id: -5, text: "a\n\"b\"".to_string(), reply_markup: Some(keyboard()) }
    );
    assert_eq!(
        make_bot_message("", 0, None),
        BotMessage { id: 1, chat_id: 0, text: String::new(), reply_markup: None }
    );
    assert_eq!(keyboard().clone(), keyboard());
    assert_eq!(keyboard().inline_keyboard[1][0].text, "Later");
    assert_eq!(keyboard().inline_keyboard[0][1].callback_data, "n");
}

#[test]
fn an_intercepting_gateway_answers_and_keeps_messages() {
    let mut gateway = Gateway::intercepting();
    assert_eq!(kept(&gateway), None);

    let request = SendMessage { chat_id: 3, text: "one".to_string(), reply_markup: Some(keyboard()) };
    let one = make_bot_message("one", 3, Some(keyboard()));
    assert_eq!(
        gateway.deliver(OutboundRequest::SendMessage(request)),
        Delivery::Acknowledged(Acknowledgment::Message(one.clone()))
    );
    assert_eq!(kept(&gateway), Some(one));

    let edit = EditMessageText { chat_id: 4, message_id: 77, text: "two".to_string(), reply_markup: None };
    let two = make_bot_message("two", 4, None);
    assert_eq!(
        gateway.deliver(OutboundRequest::EditMessageText(edit)),
        Delivery::Acknowledged(Acknowledgment::Message(two.clone()))
    );
    assert_eq!(kept(&gateway), Some(two.clone()));

    for request in [
        OutboundRequest::DeleteMessage(DeleteMessage { chat_id: 4, message_id: 77 }),
        OutboundRequest::PinMessage(PinChatMessage { chat_id: 4, message_id: 77 }),
        OutboundRequest::EditMessageMarkup(EditMessageReplyMarkup { chat_id: 4, message_id: 77 }),
    ] {
        assert_eq!(gateway.deliver(request), Delivery::Acknowledged(Acknowledgment::Done));
        assert_eq!(kept(&gateway), Some(two.clone()));
    }

    gateway.reset();
    assert_eq!(gateway, Gateway::intercepting());
}

#[test]
fn a_live_gateway_hands_requests_on() {
    let mut gateway = Gateway::live();
    assert_eq!(
        gateway.deliver(OutboundRequest::SendMessage(send(3, "<b>hi</b>"))),
        Delivery::Forward {
            request: OutboundRequest::SendMessage(send(3, "<b>hi</b>")),
            parse_mode: Some(ParseMode::Html),
        }
    );
    let edit = || EditMessageText { chat_id: 4, message_id: 7, text: "x".to_string(), reply_markup: Some(keyboard()) };
    assert_eq!(
        gateway.deliver(OutboundRequest::EditMessageText(edit())),
        Delivery::Forward {
            request: OutboundRequest::EditMessageText(edit()),
            parse_mode: Some(ParseMode::Html),
        }
    );
    let delete = OutboundRequest::DeleteMessage(DeleteMessage { chat_id: 4, message_id: 7 });
    assert_eq!(
        gateway.deliver(delete),
        Delivery::Forward {
            request: OutboundRequest::DeleteMessage(DeleteMessage { chat_id: 4, message_id: 7 }),
            parse_mode: None,
        }
    );
    assert_eq!(gateway, Gateway::Live);
    assert_eq!(gateway.last_sent_message(), None);
    gateway.reset();
    assert_eq!(gateway, Gateway::Live);
}

#[test]
fn the_latest_message_is_the_one_that_is_kept() {
    let mut gateway = Gateway::intercepting();
    let requests = vec![
        OutboundRequest::SendMessage(send(1, "first")),
        OutboundRequest::PinMessage(PinChatMessage { chat_id: 1, message_id: 1 }),
        OutboundRequest::SendMessage(send(2, "second")),
        OutboundRequest::DeleteMessage(DeleteMessage { chat_id: 2, message_id: 1 }),
    ];
    assert!(gateway.deliver_all(requests));
    assert_eq!(kept(&gateway), Some(make_bot_message("second", 2, None)));

    let quiet = vec![OutboundRequest::DeleteMessage(DeleteMessage { chat_id: 2, message_id: 1 })];
    assert!(gateway.deliver_all(quiet));
    assert_eq!(kept(&gateway), Some(make_bot_message("second", 2, None)));
    assert!(gateway.deliver_all(vec![]));
    assert_eq!(kept(&gateway), Some(make_bot_message("second", 2, None)));

    let mut live = Gateway::live();
    assert!(!live.deliver_all(vec![OutboundRequest::SendMessage(send(1, "first"))]));
    assert!(live.deliver_all(vec![]));
    assert_eq!(live, Gateway::Live);
}

#[test]
fn requests_intercept_themselves() {
    let mut gateway = Gateway::intercepting();
    assert_eq!(
        send(5, "hello").intercept(&mut gateway),
        Delivery::Acknowledged(Acknowledgment::Message(make_bot_message("hello", 5, None)))
    );
    let edit = EditMessageText { chat_id: 6, message_id: 2, text: "bye".to_string(), reply_markup: Some(keyboard()) };
    assert_eq!(
        edit.intercept(&mut gateway),
        Delivery::Acknowledged(Acknowledgment::Message(make_bot_message("bye", 6, Some(keyboard()))))
    );
    let done = Delivery::Acknowledged(Acknowledgment::Done);
    assert_eq!(DeleteMessage { chat_id: 6, message_id: 2 }.intercept(&mut gateway), done);
    assert_eq!(PinChatMessage { chat_id: 6, message_id: 2 }.intercept(&mut gateway), done);
    assert_eq!(EditMessageReplyMarkup { chat_id: 6, message_id: 2 }.intercept(&mut gateway), done);
    assert_eq!(kept(&gateway), Some(make_bot_message("bye", 6, Some(keyboard()))));

    let mut live = Gateway::live();
    assert_eq!(
        PinChatMessage { chat_id: 6, message_id: 2 }.intercept(&mut live),
        Delivery::Forward {
            request: OutboundRequest::PinMessage(PinChatMessage { chat_id: 6, message_id: 2 }),
            parse_mode: None,
        }
    );
    assert_eq!(
        send(5, "hello").intercept(&mut live),
        Delivery::Forward {
            request: OutboundRequest::SendMessage(send(5, "hello")),
            parse_mode: Some(ParseMode::Html),
        }
    );
}

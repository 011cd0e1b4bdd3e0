use calculator_bot::test_utils::{
    escape_control_characters, get_bot_id, make_bot_string, make_callback_query,
    make_callback_query_string, make_callback_query_update, make_chat_string, make_from_string,
    make_me, make_message, make_message_string, make_message_update, make_photo,
    make_photo_string, make_webapp_data, make_webapp_data_string, ChatType, TEST_GROUP_ID,
    TEST_UPDATE_ID, TEST_USER_FIRST_NAME, TEST_USER_ID, TEST_USER_LAST_NAME, TEST_USER_NAME,
};
use calculator_bot::update::{CallbackQuery, Message, Update, UpdateKind};

const KINDS: [ChatType; 5] = [
    ChatType::Private,
    ChatType::Group,
    ChatType::Supergroup,
    ChatType::Gigagroup,
    ChatType::Channel,
];

fn chat(chat_type: ChatType) -> String {
    match chat_type {
        ChatType::Private => format!(
            r#"{{"id":{user_id},"type":"private","username":"{username}","first_name":"{first_name}","last_name":"{last_name}","bio":null,"has_private_forwards":null,"has_restricted_voice_and_video_messages":null,"emoji_status_custom_emoji_id":null}}"#,
            user_id = TEST_USER_ID,
            username = TEST_USER_NAME,
            first_name = TEST_USER_FIRST_NAME,
            last_name = TEST_USER_LAST_NAME
        ),
        ChatType::Group => format!(
            r#"{{"id":{chat_id},"type":"group","title":"Test Group"}}"#,
            chat_id = TEST_GROUP_ID
        ),
        ChatType::Supergroup => format!(
            r#"{{"id":{chat_id},"type":"supergroup","title":"Test Group"}}"#,
            chat_id = TEST_GROUP_ID
        ),
        ChatType::Gigagroup => format!(
            r#"{{"id":{chat_id},"type":"gigagroup","title":"Test Group"}}"#,
            chat_id = TEST_GROUP_ID
        ),
        ChatType::Channel => format!(
            r#"{{"id":{chat_id},"type":"channel","title":"Test Channel"}}"#,
            chat_id = TEST_GROUP_ID
        ),
    }
}

fn from() -> String {
    format!(
        r#"{{"id":{user_id},"is_bot":false,"first_name":"{first_name}","last_name":"{last_name}","username":"{username}","language_code":"en"}}"#,
        user_id = TEST_USER_ID,
        username = TEST_USER_NAME,
        first_name = TEST_USER_FIRST_NAME,
        last_name = TEST_USER_LAST_NAME
    )
}

fn bot(bot_id: i64) -> String {
    format!(
        r#"{{"id":{bot_id},"is_bot":true,"first_name":"Test","last_name":"Bot","username":"test_bot","language_code":"en","can_join_groups":false,"can_read_all_group_messages":false,"supports_inline_queries":true}}"#,
        bot_id = bot_id
    )
}

#[test]
fn the_constants() {
    assert_eq!(TEST_USER_ID, 123456789);
    assert_eq!(TEST_GROUP_ID, -123456789);
    assert_eq!(TEST_UPDATE_ID, 1);
    assert_eq!(TEST_USER_NAME, "test_user");
    assert_eq!(TEST_USER_FIRST_NAME, "Test");
    assert_eq!(TEST_USER_LAST_NAME, "User");
}

#[test]
fn escaping() {
    assert_eq!(escape_control_characters(""), "");
    assert_eq!(escape_control_characters("plain text, 123"), "plain text, 123");
    assert_eq!(escape_control_characters("\n"), "\\n");
    assert_eq!(escape_control_characters("\t"), "\\t");
    assert_eq!(escape_control_characters("\\"), "\\\\");
    assert_eq!(escape_control_characters("\""), "\\\"");
    assert_eq!(escape_control_characters("'"), "'");
    assert_eq!(escape_control_characters("\\n"), "\\\\n");
    assert_eq!(
        escape_control_characters("a\nb\tc\\d\"e'f\rg/h é😀"),
        "a\\nb\\tc\\\\d\\\"e'f\rg/h é😀"
    );
    assert_eq!(escape_control_characters("it's"), "it's");
}

#[test]
fn an_escaped_text_reads_back_as_json() {
    for text in [
        "",
        "plain text, 123",
        "it's \"quoted\"",
        "a\nb\tc\\d\"e'f/g é😀",
        "\\n is no line feed",
        "\\\\\"\"\n\n\t\t''",
        "{\"a\":[1,\"b\\\\\"]}",
    ] {
        let json = format!("\"{}\"", escape_control_characters(text));
        assert_eq!(serde_json::from_str::<String>(&json).ok().as_deref(), Some(text), "{text:?}");
    }
    // A control character other than a line feed or a tab is not escaped.
    let json = format!("\"{}\"", escape_control_characters("a\rb"));
    assert!(serde_json::from_str::<String>(&json).is_err());
}

#[test]
fn the_bot_id_stands_before_the_colon() {
    assert_eq!(get_bot_id("987654321:rest-of-it"), Some(987654321));
    assert_eq!(get_bot_id("5:a:b"), Some(5));
    assert_eq!(get_bot_id("-5:a"), Some(-5));
    assert_eq!(get_bot_id("42"), Some(42));
    assert_eq!(get_bot_id("42:"), Some(42));
    assert_eq!(get_bot_id(""), None);
    assert_eq!(get_bot_id(":42"), None);
    assert_eq!(get_bot_id("bot:42"), None);
    assert_eq!(get_bot_id("4 2:x"), None);
    assert_eq!(get_bot_id("9223372036854775807:x"), Some(i64::MAX));
    assert_eq!(get_bot_id("9223372036854775808:x"), None);
}

#[test]
fn the_chat_of_each_kind() {
    for kind in KINDS {
        assert_eq!(make_chat_string(kind), chat(kind));
    }
    assert_eq!(
        make_chat_string(ChatType::Channel),
        r#"{"id":-123456789,"type":"channel","title":"Test Channel"}"#
    );
}

#[test]
fn the_user_and_the_bot() {
    assert_eq!(make_from_string(), from());
    assert_eq!(
        make_from_string(),
        r#"{"id":123456789,"is_bot":false,"first_name":"Test","last_name":"User","username":"test_user","language_code":"en"}"#
    );
    for bot_id in [0, 7, 987654321, -3, i64::MAX, i64::MIN] {
        assert_eq!(make_bot_string(bot_id), bot(bot_id));
    }
}

#[test]
fn the_text_of_a_message() {
    let expected = |text: &str, escaped: &str, is_command: bool, kind: ChatType| {
        let command = match is_command {
            true => format!(
                r#"{{"type":"bot_command","offset":0,"length":{length}}}"#,
                length = text.len()
            ),
            false => "".to_string(),
        };
        format!(
            r#"{{"message_id":{message_id},"message_thread_id":null,"date":1234567890,"chat":{chat},"via_bot":null,"from":{from},"text":"{message_text}","entities":[{command}],"is_topic_message":false,"is_automatic_forward":false,"has_protected_content":false}}"#,
            message_text = escaped,
            chat = chat(kind),
            from = from(),
            message_id = 1,
            command = command
        )
    };
    for kind in KINDS {
        assert_eq!(make_message_string("/start", true, kind), expected("/start", "/start", true, kind));
        assert_eq!(make_message_string("12", false, kind), expected("12", "12", false, kind));
    }
    assert_eq!(
        make_message_string("a \"b\"\n", false, ChatType::Private),
        expected("a \"b\"\n", "a \\\"b\\\"\\n", false, ChatType::Private)
    );
    // The length of a command is counted in bytes.
    assert_eq!(
        make_message_string("/é😀", true, ChatType::Private),
        expected("/é😀", "/é😀", true, ChatType::Private)
    );
    assert!(make_message_string("/é😀", true, ChatType::Private).contains(r#""length":7}"#));
    assert!(make_message_string("", true, ChatType::Private).contains(r#""length":0}"#));
}

#[test]
fn the_text_of_the_other_fixtures() {
    for kind in KINDS {
        for is_media_group in [false, true] {
            let expected = format!(
                r#"{{"message_id":{message_id},"message_thread_id":null,"date":1234567890,"chat":{chat},"via_bot":null,"from":{from},"photo":[{{"file_id":"1234567890","file_unique_id":"1234567890","file_size":932,"width":90,"height":56}},{{"file_id":"1234567890","file_unique_id":"1234567890","file_size":13483,"width":320,"height":200}},{{"file_id":"1234567890","file_unique_id":"1234567890","file_size":60882,"width":800,"height":500}},{{"file_id":"1234567890","file_unique_id":"1234567890","file_size":116270,"width":1280,"height":800}}],"caption_entities":[]{media_group_id},"is_topic_message":false,"is_automatic_forward":false,"has_protected_content":false}}"#,
                chat = chat(kind),
                from = from(),
                message_id = 1,
                media_group_id = if is_media_group { ",\"media_group_id\":\"1\"" } else { "" },
            );
            assert_eq!(make_photo_string(is_media_group, kind), expected);
        }
        let expected = format!(
            "{{\"message_id\":{message_id},\"message_thread_id\":null,\"date\":1234567890,\"chat\":{chat},\"via_bot\":null,\"web_app_data\":{{\"data\":\"{data}\",\"button_text\":\"Test button text\"}}}}",
            message_id = 1,
            chat = chat(kind),
            data = "{\\\"a\\\":1}"
        );
        assert_eq!(make_webapp_data_string("{\"a\":1}", kind), expected);
        let expected = format!(
            r#"{{"id":"{callback_id}","from":{from},"message":{{"message_id":{last_message_id},"message_thread_id":null,"date":1234567890,"chat":{chat},"via_bot":null,"from":{bot},"text":"{last_message_text}","entities":[],"is_topic_message":false,"is_automatic_forward":false,"has_protected_content":false}},"chat_instance":"{chat_instance}","data":"{callback_data}"}}"#,
            chat = chat(kind),
            from = from(),
            callback_id = 1,
            last_message_id = 1,
            last_message_text = "text",
            bot = bot(31),
            chat_instance = 1,
            callback_data = "subtract"
        );
        assert_eq!(make_callback_query_string("subtract", kind, 31), expected);
    }
}

const DECODED_KINDS: [ChatType; 4] =
    [ChatType::Private, ChatType::Group, ChatType::Supergroup, ChatType::Channel];

#[test]
fn a_message_is_read_back() {
    for kind in DECODED_KINDS {
        let chat_id = if kind == ChatType::Private { TEST_USER_ID } else { TEST_GROUP_ID };
        assert_eq!(
            make_message("/start", true, kind),
            Some(Message { id: 1, chat_id, text: Some("/start".to_string()) })
        );
        assert_eq!(
            make_message("line\none\t\"two\" \\ three é😀", false, kind),
            Some(Message {
                id: 1,
                chat_id,
                text: Some("line\none\t\"two\" \\ three é😀".to_string()),
            })
        );
        assert_eq!(make_message("", false, kind), Some(Message { id: 1, chat_id, text: Some(String::new()) }));
        for is_media_group in [false, true] {
            assert_eq!(
                make_photo(is_media_group, kind),
                Some(Message { id: 1, chat_id, text: None })
            );
        }
        assert_eq!(
            make_webapp_data("{\"a\":1}", kind),
            Some(Message { id: 1, chat_id, text: None })
        );
    }
}

#[test]
fn what_the_decoder_refuses_is_no_fixture() {
    // A carriage return is not escaped, and JSON takes none inside a text.
    assert_eq!(make_message("a\rb", false, ChatType::Private), None);
    assert_eq!(make_webapp_data("a\rb", ChatType::Private), None);
    assert_eq!(make_callback_query("a\rb", ChatType::Private, 31), None);
    // A bot's identifier is not negative.
    assert_eq!(make_me(-1), None);
    // The decoder knows no chat of this kind.
    assert_eq!(make_message("1", false, ChatType::Gigagroup), None);
    assert_eq!(make_photo(false, ChatType::Gigagroup), None);
    assert_eq!(make_webapp_data("1", ChatType::Gigagroup), None);
    assert_eq!(make_callback_query("add", ChatType::Gigagroup, 31), None);
}

#[test]
fn a_callback_query_is_read_back() {
    for kind in DECODED_KINDS {
        let chat_id = if kind == ChatType::Private { TEST_USER_ID } else { TEST_GROUP_ID };
        assert_eq!(
            make_callback_query("add", kind, 31),
            Some(CallbackQuery {
                data: Some("add".to_string()),
                message: Some(Message { id: 1, chat_id, text: Some("text".to_string()) }),
            })
        );
    }
    assert_eq!(make_callback_query("", ChatType::Private, 31).unwrap().data, Some(String::new()));
    for data in ["a\"b", "it's", "a\\b", "line\nfeed\ttab", "{\"op\":\"add\"}"] {
        assert_eq!(
            make_callback_query(data, ChatType::Private, 31).unwrap().data.as_deref(),
            Some(data)
        );
    }
    assert!(make_callback_query_string("a\"b", ChatType::Private, 31)
        .ends_with(r#""chat_instance":"1","data":"a\"b"}"#));
}

#[test]
fn a_single_quote_needs_no_escape() {
    assert_eq!(
        make_message("it's", false, ChatType::Private),
        Some(Message { id: 1, chat_id: TEST_USER_ID, text: Some("it's".to_string()) })
    );
    assert_eq!(
        make_webapp_data("it's", ChatType::Private),
        Some(Message { id: 1, chat_id: TEST_USER_ID, text: None })
    );
    assert!(make_message_string("it's", false, ChatType::Private).contains(r#""text":"it's","#));
}

#[test]
fn the_bot_is_read_back() {
    let me = make_me(987654321).unwrap();
    assert_eq!(me.id, 987654321);
    assert_eq!(me.username.as_deref(), Some("test_bot"));
}

#[test]
fn updates_carry_what_they_are_given() {
    let message = || Message { id: 3, chat_id: 4, text: Some("x".to_string()) };
    let update = make_message_update(message());
    assert_eq!(update, Update { id: 1, kind: UpdateKind::Message(message()) });
    assert_eq!(update.chat_id(), Some(4));
    let call = || CallbackQuery { data: Some("add".to_string()), message: Some(message()) };
    let update = make_callback_query_update(call());
    assert_eq!(update, Update { id: 1, kind: UpdateKind::CallbackQuery(call()) });
    assert_eq!(update.chat_id(), Some(4));
    let orphan = make_callback_query_update(CallbackQuery { data: None, message: None });
    assert_eq!(orphan.chat_id(), None);
}

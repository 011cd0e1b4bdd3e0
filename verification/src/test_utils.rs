//! Fixtures: updates as the chat platform would send them, made up from a
//! handful of parameters.
//!
//! A fixture is first written as the JSON text that the platform would send,
//! and then read by the same decoder that reads the platform's real updates.
//! Texts that go into the JSON are escaped on the way.

use vstd::prelude::*;
use vstd::string::StringExecFns;
use vstd::utf8::encode_utf8;
use crate::bot_schema::{dispatch, spec_dispatch, Dispatched, DispatchedView};
use crate::chars::{chars_of, find, find_from, same_text, text_of};
use crate::handlers::{HandlerError, Reaction};
use crate::intercept::{gateway_after_all, gateway_reset, BotMessageView, Gateway, GatewayView};
use crate::state::{State, StateView};
use crate::storage::{state_in, Storage};
use crate::decimal::{decimal, parse_i64, push_decimal, push_decimal_nat, text_as_i64};
use crate::update::{CallbackQuery, Message, Update, UpdateKind, UpdateKindView, UpdateView};
use crate::wire::{
    decode_callback_query, decode_me, decode_message, decoded_callback_query, decoded_me,
    decoded_message, Me,
};

verus! {

/// The user that the fixtures come from, and the private chat with that user.
pub const TEST_USER_ID: i64 = 123456789;

/// The group or channel that the fixtures of the other chat types come from.
pub const TEST_GROUP_ID: i64 = -123456789;

/// The identifier of every update made here.
pub const TEST_UPDATE_ID: i32 = 1;

pub const TEST_USER_NAME: &'static str = "test_user";

pub const TEST_USER_FIRST_NAME: &'static str = "Test";

pub const TEST_USER_LAST_NAME: &'static str = "User";

/// The kind of chat that a fixture comes from.
#[derive(Debug, PartialEq, Eq, Clone, Copy)]
pub enum ChatType {
    Private,
    Group,
    Supergroup,
    Gigagroup,
    Channel,
}

/// What stands for the character `c` in a text inside JSON: an escape for a
/// line feed, a tab, a backslash and a double quote, and `c` itself for
/// every other character.
pub open spec fn escaped_char(c: char) -> Seq<char> {
    if c == '\n' {
        seq!['\\', 'n']
    } else if c == '\t' {
        seq!['\\', 't']
    } else if c == '\\' {
        seq!['\\', '\\']
    } else if c == '"' {
        seq!['\\', '"']
    } else {
        seq![c]
    }
}

/// The text `s` with each of its characters escaped.
pub open spec fn escaped(s: Seq<char>) -> Seq<char>
    decreases s.len(),
{
    if s.len() == 0 {
        Seq::empty()
    } else {
        escaped(s.drop_last()) + escaped_char(s.last())
    }
}

/// Escapes the characters that would end or break a text inside JSON: a
/// line feed becomes `\n`, a tab `\t`, and a backslash and a double quote get
/// a backslash in front. Every other character stays as it is.
pub fn escape_control_characters(input: &str) -> (r: String)
    ensures
        r@ == escaped(input@),
{
    let mut out = String::new();
    for c in it: input.chars()
        invariant
            it.seq() == input@,
            out@ == escaped(it.seq().take(it.index() as int)),
    {
        let ghost before = it.seq().take(it.index() as int);
        let ghost after = it.seq().take(it.index() + 1);
        assert(after.drop_last() == before);
        assert(after.last() == c);
        if c == '\n' {
            out.push('\\');
            out.push('n');
        } else if c == '\t' {
            out.push('\\');
            out.push('t');
        } else if c == '\\' {
            out.push('\\');
            out.push('\\');
        } else if c == '"' {
            out.push('\\');
            out.push('"');
        } else {
            out.push(c);
        }
        assert(out@ == escaped(before) + escaped_char(c));
    }
    assert(input@.take(input@.len() as int) == input@);
    out
}

/// Whether JSON takes the character `c` as it is between the quotes of a
/// text: `c` is no control character (none below the space), no double quote
/// and no backslash.
pub open spec fn stands_bare(c: char) -> bool {
    c >= ' ' && c != '"' && c != '\\'
}

/// The character that a backslash and `c` stand for in JSON, for the four
/// escapes that escaping makes.
pub open spec fn escape_value(c: char) -> Option<char> {
    if c == 'n' {
        Some('\n')
    } else if c == 't' {
        Some('\t')
    } else if c == '\\' {
        Some('\\')
    } else if c == '"' {
        Some('"')
    } else {
        None
    }
}

/// The text that `t` stands for where it is read as JSON reads what lies
/// between the quotes of a text.
///
/// Of the escapes of JSON only the four that escaping makes are read here.
/// `None` where `t` holds any other escape, a backslash at its end, or a
/// character that JSON does not take as it is. So where this is `Some`, it
/// is what JSON reads.
pub open spec fn unescaped(t: Seq<char>) -> Option<Seq<char>>
    decreases t.len(),
{
    if t.len() == 0 {
        Some(Seq::empty())
    } else if t[0] == '\\' {
        if t.len() >= 2 && escape_value(t[1]) is Some && unescaped(t.skip(2)) is Some {
            Some(seq![escape_value(t[1])->0] + unescaped(t.skip(2))->0)
        } else {
            None
        }
    } else if stands_bare(t[0]) && unescaped(t.skip(1)) is Some {
        Some(seq![t[0]] + unescaped(t.skip(1))->0)
    } else {
        None
    }
}

/// Whether escaping makes `c` fit for JSON: `c` is a line feed, a tab, or no
/// control character. The other control characters are not escaped, and JSON
/// does not take them as they are.
pub open spec fn escapes_well(c: char) -> bool {
    c >= ' ' || c == '\n' || c == '\t'
}

/// Escaping a text is escaping its first character and then the rest.
proof fn lemma_escaped_from_the_front(c: char, s: Seq<char>)
    ensures
        escaped(seq![c] + s) == escaped_char(c) + escaped(s),
    decreases s.len(),
{
    let w = seq![c] + s;
    if s.len() == 0 {
        assert(w.drop_last() == Seq::<char>::empty());
        assert(w.last() == c);
        assert(escaped(w.drop_last()) == Seq::<char>::empty());
        assert(Seq::<char>::empty() + escaped_char(c) == escaped_char(c));
        assert(escaped_char(c) + Seq::<char>::empty() == escaped_char(c));
    } else {
        assert(w.drop_last() == seq![c] + s.drop_last());
        assert(w.last() == s.last());
        lemma_escaped_from_the_front(c, s.drop_last());
        assert((escaped_char(c) + escaped(s.drop_last())) + escaped_char(s.last()) == escaped_char(
            c,
        ) + (escaped(s.drop_last()) + escaped_char(s.last())));
    }
}

/// What stands for one character at the front of an escaped text is read
/// back as that character.
proof fn lemma_unescaped_from_the_front(c: char, t: Seq<char>)
    requires
        escapes_well(c),
        unescaped(t) is Some,
    ensures
        unescaped(escaped_char(c) + t) == Some(seq![c] + unescaped(t)->0),
{
    let e = escaped_char(c);
    let w = e + t;
    if e.len() == 2 {
        assert(w[0] == '\\');
        assert(w[1] == e[1]);
        assert(escape_value(w[1]) == Some(c));
        assert(w.skip(2) == t);
    } else {
        assert(w[0] == c);
        assert(stands_bare(c));
        assert(w.skip(1) == t);
    }
}

/// An escaped text is fit for JSON and loses nothing: read as JSON reads
/// what lies between the quotes of a text, it is the text that was escaped.
/// This holds of every text without control characters other than line feeds
/// and tabs.
pub proof fn lemma_escaping_reads_back(s: Seq<char>)
    requires
        forall|i: int| 0 <= i < s.len() ==> escapes_well(#[trigger] s[i]),
    ensures
        unescaped(escaped(s)) == Some(s),
    decreases s.len(),
{
    if s.len() > 0 {
        let rest = s.skip(1);
        assert(s == seq![s[0]] + rest);
        assert forall|i: int| 0 <= i < rest.len() implies escapes_well(#[trigger] rest[i]) by {
            assert(rest[i] == s[i + 1]);
        }
        lemma_escaping_reads_back(rest);
        lemma_escaped_from_the_front(s[0], rest);
        lemma_unescaped_from_the_front(s[0], escaped(rest));
    } else {
        assert(escaped(s) == Seq::<char>::empty());
    }
}

/// The bot's identifier in its token: the number that stands before the
/// first colon.
pub open spec fn bot_id_of(token: Seq<char>) -> Option<i64> {
    text_as_i64(token.take(find_from(token, ':', 0)))
}

/// Reads the bot's identifier off its token. Every token begins with that
/// number, followed by a colon; a text that does not is no token.
pub fn get_bot_id(token: &str) -> (r: Option<i64>)
    ensures
        r == bot_id_of(token@),
{
    let v = chars_of(token);
    let colon = find(&v, ':', 0, v.len());
    assert(v@.take(v.len() as int) == v@);
    let head = text_of(&v, 0, colon);
    assert(v@.subrange(0, colon as int) == v@.take(colon as int));
    parse_i64(head.as_str())
}

/// The JSON text of the bot with the identifier `bot_id`.
pub open spec fn bot_json(bot_id: i64) -> Seq<char> {
    r#"{"id":"#@ + decimal(bot_id as int)
        + r#","is_bot":true,"first_name":"Test","last_name":"Bot","username":"test_bot","language_code":"en","can_join_groups":false,"can_read_all_group_messages":false,"supports_inline_queries":true}"#@
}

/// The bot as the platform describes it.
pub fn make_bot_string(bot_id: i64) -> (r: String)
    ensures
        r@ == bot_json(bot_id),
{
    let mut s = String::from_str(r#"{"id":"#);
    push_decimal(&mut s, bot_id);
    s.append(
        r#","is_bot":true,"first_name":"Test","last_name":"Bot","username":"test_bot","language_code":"en","can_join_groups":false,"can_read_all_group_messages":false,"supports_inline_queries":true}"#,
    );
    s
}

/// The JSON text of the chat of the kind `chat_type`.
pub open spec fn chat_json(chat_type: ChatType) -> Seq<char> {
    match chat_type {
        ChatType::Private => r#"{"id":"#@ + decimal(TEST_USER_ID as int)
            + r#","type":"private","username":""#@ + TEST_USER_NAME@ + r#"","first_name":""#@
            + TEST_USER_FIRST_NAME@ + r#"","last_name":""#@ + TEST_USER_LAST_NAME@
            + r#"","bio":null,"has_private_forwards":null,"has_restricted_voice_and_video_messages":null,"emoji_status_custom_emoji_id":null}"#@,
        ChatType::Group => r#"{"id":"#@ + decimal(TEST_GROUP_ID as int)
            + r#","type":"group","title":"Test Group"}"#@,
        ChatType::Supergroup => r#"{"id":"#@ + decimal(TEST_GROUP_ID as int)
            + r#","type":"supergroup","title":"Test Group"}"#@,
        ChatType::Gigagroup => r#"{"id":"#@ + decimal(TEST_GROUP_ID as int)
            + r#","type":"gigagroup","title":"Test Group"}"#@,
        ChatType::Channel => r#"{"id":"#@ + decimal(TEST_GROUP_ID as int)
            + r#","type":"channel","title":"Test Channel"}"#@,
    }
}

/// The chat that a fixture comes from, as the platform describes it: the
/// private chat with the test user, or the test group or channel.
pub fn make_chat_string(chat_type: ChatType) -> (r: String)
    ensures
        r@ == chat_json(chat_type),
{
    let mut s = String::from_str(r#"{"id":"#);
    match chat_type {
        ChatType::Private => {
            push_decimal(&mut s, TEST_USER_ID);
            s.append(r#","type":"private","username":""#);
            s.append(TEST_USER_NAME);
            s.append(r#"","first_name":""#);
            s.append(TEST_USER_FIRST_NAME);
            s.append(r#"","last_name":""#);
            s.append(TEST_USER_LAST_NAME);
            s.append(
                r#"","bio":null,"has_private_forwards":null,"has_restricted_voice_and_video_messages":null,"emoji_status_custom_emoji_id":null}"#,
            );
        },
        ChatType::Group => {
            push_decimal(&mut s, TEST_GROUP_ID);
            s.append(r#","type":"group","title":"Test Group"}"#);
        },
        ChatType::Supergroup => {
            push_decimal(&mut s, TEST_GROUP_ID);
            s.append(r#","type":"supergroup","title":"Test Group"}"#);
        },
        ChatType::Gigagroup => {
            push_decimal(&mut s, TEST_GROUP_ID);
            s.append(r#","type":"gigagroup","title":"Test Group"}"#);
        },
        ChatType::Channel => {
            push_decimal(&mut s, TEST_GROUP_ID);
            s.append(r#","type":"channel","title":"Test Channel"}"#);
        },
    }
    s
}

/// The JSON text of the test user.
pub open spec fn from_json() -> Seq<char> {
    r#"{"id":"#@ + decimal(TEST_USER_ID as int) + r#","is_bot":false,"first_name":""#@
        + TEST_USER_FIRST_NAME@ + r#"","last_name":""#@ + TEST_USER_LAST_NAME@
        + r#"","username":""#@ + TEST_USER_NAME@ + r#"","language_code":"en"}"#@
}

/// The test user as the platform describes the sender of a message.
pub fn make_from_string() -> (r: String)
    ensures
        r@ == from_json(),
{
    let mut s = String::from_str(r#"{"id":"#);
    push_decimal(&mut s, TEST_USER_ID);
    s.append(r#","is_bot":false,"first_name":""#);
    s.append(TEST_USER_FIRST_NAME);
    s.append(r#"","last_name":""#);
    s.append(TEST_USER_LAST_NAME);
    s.append(r#"","username":""#);
    s.append(TEST_USER_NAME);
    s.append(r#"","language_code":"en"}"#);
    s
}

/// The number of bytes that the text `s` takes up in memory, where it is
/// written in UTF-8.
pub open spec fn byte_len(s: Seq<char>) -> usize {
    encode_utf8(s).len() as usize
}

/// The JSON text of the entity that marks a whole text of `length` bytes as
/// a bot command.
pub open spec fn command_entity_json(length: usize) -> Seq<char> {
    r#"{"type":"bot_command","offset":0,"length":"#@ + decimal(length as int) + "}"@
}

/// The JSON text of a text message.
pub open spec fn message_json(text: Seq<char>, is_command: bool, chat_type: ChatType) -> Seq<
    char,
> {
    r#"{"message_id":1,"message_thread_id":null,"date":1234567890,"chat":"#@ + chat_json(
        chat_type,
    ) + r#","via_bot":null,"from":"#@ + from_json() + r#","text":""#@ + escaped(text)
        + r#"","entities":["#@ + (if is_command {
        command_entity_json(byte_len(text))
    } else {
        Seq::empty()
    }) + r#"],"is_topic_message":false,"is_automatic_forward":false,"has_protected_content":false}"#@
}

/// A text message from the test user, as the platform would send it. With
/// `is_command` the whole text is marked as a bot command.
pub fn make_message_string(text: &str, is_command: bool, chat_type: ChatType) -> (r: String)
    ensures
        r@ == message_json(text@, is_command, chat_type),
{
    let mut s = String::from_str(
        r#"{"message_id":1,"message_thread_id":null,"date":1234567890,"chat":"#,
    );
    s.append(make_chat_string(chat_type).as_str());
    s.append(r#","via_bot":null,"from":"#);
    s.append(make_from_string().as_str());
    s.append(r#","text":""#);
    s.append(escape_control_characters(text).as_str());
    s.append(r#"","entities":["#);
    if is_command {
        let ghost before = s@;
        s.append(r#"{"type":"bot_command","offset":0,"length":"#);
        push_decimal_nat(&mut s, text.len() as u64);
        s.append("}");
        assert(s@ == before + command_entity_json(byte_len(text@))) by {
            let a = r#"{"type":"bot_command","offset":0,"length":"#@;
            let b = decimal(byte_len(text@) as int);
            assert(((before + a) + b) + "}"@ == before + ((a + b) + "}"@));
        }
    } else {
        assert(s@ + Seq::<char>::empty() == s@);
    }
    s.append(
        r#"],"is_topic_message":false,"is_automatic_forward":false,"has_protected_content":false}"#,
    );
    s
}

/// The JSON text of a message that carries a photo.
pub open spec fn photo_json(is_media_group: bool, chat_type: ChatType) -> Seq<char> {
    r#"{"message_id":1,"message_thread_id":null,"date":1234567890,"chat":"#@ + chat_json(
        chat_type,
    ) + r#","via_bot":null,"from":"#@ + from_json()
        + r#","photo":[{"file_id":"1234567890","file_unique_id":"1234567890","file_size":932,"width":90,"height":56},{"file_id":"1234567890","file_unique_id":"1234567890","file_size":13483,"width":320,"height":200},{"file_id":"1234567890","file_unique_id":"1234567890","file_size":60882,"width":800,"height":500},{"file_id":"1234567890","file_unique_id":"1234567890","file_size":116270,"width":1280,"height":800}],"caption_entities":[]"#@
        + (if is_media_group {
        r#","media_group_id":"1""#@
    } else {
        Seq::empty()
    }) + r#","is_topic_message":false,"is_automatic_forward":false,"has_protected_content":false}"#@
}

/// A message from the test user that carries a photo and no text, as the
/// platform would send it. With `is_media_group` the photo is part of an
/// album.
pub fn make_photo_string(is_media_group: bool, chat_type: ChatType) -> (r: String)
    ensures
        r@ == photo_json(is_media_group, chat_type),
{
    let mut s = String::from_str(
        r#"{"message_id":1,"message_thread_id":null,"date":1234567890,"chat":"#,
    );
    s.append(make_chat_string(chat_type).as_str());
    s.append(r#","via_bot":null,"from":"#);
    s.append(make_from_string().as_str());
    s.append(
        r#","photo":[{"file_id":"1234567890","file_unique_id":"1234567890","file_size":932,"width":90,"height":56},{"file_id":"1234567890","file_unique_id":"1234567890","file_size":13483,"width":320,"height":200},{"file_id":"1234567890","file_unique_id":"1234567890","file_size":60882,"width":800,"height":500},{"file_id":"1234567890","file_unique_id":"1234567890","file_size":116270,"width":1280,"height":800}],"caption_entities":[]"#,
    );
    if is_media_group {
        s.append(r#","media_group_id":"1""#);
    } else {
        assert(s@ + Seq::<char>::empty() == s@);
    }
    s.append(
        r#","is_topic_message":false,"is_automatic_forward":false,"has_protected_content":false}"#,
    );
    s
}

/// The JSON text of a message that carries data from a web app.
pub open spec fn webapp_data_json(data: Seq<char>, chat_type: ChatType) -> Seq<char> {
    r#"{"message_id":1,"message_thread_id":null,"date":1234567890,"chat":"#@ + chat_json(
        chat_type,
    ) + r#","via_bot":null,"web_app_data":{"data":""#@ + escaped(data)
        + r#"","button_text":"Test button text"}}"#@
}

/// A message that carries the data `data` from a web app and no text, as
/// the platform would send it.
pub fn make_webapp_data_string(data: &str, chat_type: ChatType) -> (r: String)
    ensures
        r@ == webapp_data_json(data@, chat_type),
{
    let mut s = String::from_str(
        r#"{"message_id":1,"message_thread_id":null,"date":1234567890,"chat":"#,
    );
    s.append(make_chat_string(chat_type).as_str());
    s.append(r#","via_bot":null,"web_app_data":{"data":""#);
    s.append(escape_control_characters(data).as_str());
    s.append(r#"","button_text":"Test button text"}}"#);
    s
}

/// The JSON text of a press on a button that carries `data`, under a message
/// of the bot with the identifier `bot_id`.
pub open spec fn callback_query_json(data: Seq<char>, chat_type: ChatType, bot_id: i64) -> Seq<
    char,
> {
    r#"{"id":"1","from":"#@ + from_json()
        + r#","message":{"message_id":1,"message_thread_id":null,"date":1234567890,"chat":"#@
        + chat_json(chat_type) + r#","via_bot":null,"from":"#@ + bot_json(bot_id)
        + r#","text":"text","entities":[],"is_topic_message":false,"is_automatic_forward":false,"has_protected_content":false},"chat_instance":"1","data":""#@
        + escaped(data) + r#""}"#@
}

/// A press of the test user on a button that carries `data`, as the platform
/// would send it. The button stands under a message of the bot with the
/// identifier `bot_id`.
pub fn make_callback_query_string(data: &str, chat_type: ChatType, bot_id: i64) -> (r: String)
    ensures
        r@ == callback_query_json(data@, chat_type, bot_id),
{
    let mut s = String::from_str(r#"{"id":"1","from":"#);
    s.append(make_from_string().as_str());
    s.append(
        r#","message":{"message_id":1,"message_thread_id":null,"date":1234567890,"chat":"#,
    );
    s.append(make_chat_string(chat_type).as_str());
    s.append(r#","via_bot":null,"from":"#);
    s.append(make_bot_string(bot_id).as_str());
    s.append(
        r#","text":"text","entities":[],"is_topic_message":false,"is_automatic_forward":false,"has_protected_content":false},"chat_instance":"1","data":""#,
    );
    s.append(escape_control_characters(data).as_str());
    s.append(r#""}"#);
    s
}

/// A text message from the test user, read back from its JSON text. `None`
/// where the decoder refuses that text.
pub fn make_message(text: &str, is_command: bool, chat_type: ChatType) -> (r: Option<Message>)
    ensures
        r.deep_view() == decoded_message(message_json(text@, is_command, chat_type)),
{
    let json = make_message_string(text, is_command, chat_type);
    decode_message(json.as_str())
}

/// A press of the test user on a button that carries `data`, read back from
/// its JSON text. `None` where the decoder refuses that text.
pub fn make_callback_query(data: &str, chat_type: ChatType, bot_id: i64) -> (r: Option<
    CallbackQuery,
>)
    ensures
        r.deep_view() == decoded_callback_query(callback_query_json(data@, chat_type, bot_id)),
{
    let json = make_callback_query_string(data, chat_type, bot_id);
    decode_callback_query(json.as_str())
}

/// A message from the test user that carries a photo, read back from its
/// JSON text. `None` where the decoder refuses that text.
pub fn make_photo(is_media_group: bool, chat_type: ChatType) -> (r: Option<Message>)
    ensures
        r.deep_view() == decoded_message(photo_json(is_media_group, chat_type)),
{
    let json = make_photo_string(is_media_group, chat_type);
    decode_message(json.as_str())
}

/// A message that carries data from a web app, read back from its JSON text.
/// `None` where the decoder refuses that text.
pub fn make_webapp_data(data: &str, chat_type: ChatType) -> (r: Option<Message>)
    ensures
        r.deep_view() == decoded_message(webapp_data_json(data@, chat_type)),
{
    let json = make_webapp_data_string(data, chat_type);
    decode_message(json.as_str())
}

/// The bot with the identifier `bot_id`, read back from its JSON text.
/// `None` where the decoder refuses that text.
pub fn make_me(bot_id: i64) -> (r: Option<Me>)
    ensures
        r.deep_view() == decoded_me(bot_json(bot_id)),
{
    let json = make_bot_string(bot_id);
    decode_me(json.as_str())
}

/// The update that carries `message`.
pub fn make_message_update(message: Message) -> (r: Update)
    ensures
        r@ == (UpdateView { id: TEST_UPDATE_ID, kind: UpdateKindView::Message(message@) }),
{
    Update { id: TEST_UPDATE_ID, kind: UpdateKind::Message(message) }
}

/// The update that carries `callback_query`.
pub fn make_callback_query_update(callback_query: CallbackQuery) -> (r: Update)
    ensures
        r@ == (UpdateView {
            id: TEST_UPDATE_ID,
            kind: UpdateKindView::CallbackQuery(callback_query@),
        }),
{
    Update { id: TEST_UPDATE_ID, kind: UpdateKind::CallbackQuery(callback_query) }
}

/// A bot on the bench: an intercepting gateway in place of the network, the
/// storage of the conversations, and the name under which the bot is
/// addressed.
#[derive(Debug)]
pub struct TestBed {
    pub gateway: Gateway,
    pub storage: Storage,
    pub bot_name: String,
}

/// A [`TestBed`] with its texts as sequences of characters.
pub struct TestBedView {
    pub gateway: GatewayView,
    pub storage: Map<i64, StateView>,
    pub bot_name: Seq<char>,
}

impl View for TestBed {
    type V = TestBedView;

    open spec fn view(&self) -> TestBedView {
        TestBedView {
            gateway: self.gateway@,
            storage: self.storage@,
            bot_name: self.bot_name@,
        }
    }
}

impl TestBedView {
    /// The state of the test user's conversation.
    pub open spec fn state(self) -> StateView {
        state_in(self.storage, TEST_USER_ID)
    }

    /// The message that the gateway keeps: the bot's last message.
    pub open spec fn last_sent_message(self) -> Option<BotMessageView> {
        match self.gateway {
            GatewayView::Live => None,
            GatewayView::Intercepting { last_sent_message } => last_sent_message,
        }
    }
}

/// Why an update did not run to its end.
#[derive(Debug, PartialEq, Eq, Clone, Copy)]
pub enum RunError {
    /// No handler is registered for the update, or it belongs to no chat.
    Unhandled,
    /// The handler gave up.
    Handler(HandlerError),
    /// The gateway did not answer a request itself, and a test bed has no
    /// network to send it over.
    NotDelivered,
}

/// What [`run_update`] returns, and what it leaves behind.
pub open spec fn spec_run_update(bed: TestBedView, update: UpdateView, state: StateView) -> (
    Result<(), RunError>,
    TestBedView,
) {
    let stored = bed.storage.insert(TEST_USER_ID, state);
    let untouched = TestBedView { storage: stored, ..bed };
    match update.chat_id() {
        None => (Err(RunError::Unhandled), untouched),
        Some(chat_id) => match spec_dispatch(state_in(stored, chat_id), update, bed.bot_name) {
            DispatchedView::Unhandled => (Err(RunError::Unhandled), untouched),
            DispatchedView::Failed(e) => (Err(RunError::Handler(e)), untouched),
            DispatchedView::Handled(reaction) => if bed.gateway is Intercepting
                || reaction.requests.len() == 0 {
                (
                    Ok(()),
                    TestBedView {
                        gateway: gateway_after_all(bed.gateway, reaction.requests),
                        storage: match reaction.next_state {
                            Some(next) => stored.insert(chat_id, next),
                            None => stored,
                        },
                        ..bed
                    },
                )
            } else {
                (Err(RunError::NotDelivered), untouched)
            },
        },
    }
}

impl TestBed {
    /// A test bed for the bot called `bot_name`: nothing is stored, and the
    /// gateway is an intercepting one that has kept no message yet.
    pub fn new(bot_name: &str) -> (bed: TestBed)
        ensures
            bed@ == (TestBedView {
                gateway: GatewayView::Intercepting { last_sent_message: None },
                storage: Map::empty(),
                bot_name: bot_name@,
            }),
    {
        TestBed {
            gateway: Gateway::intercepting(),
            storage: Storage::new(),
            bot_name: String::from_str(bot_name),
        }
    }
}

/// Runs one update against the bot, as if it came in while the test user's
/// conversation stood at `state`.
///
/// `state` is stored for the test user first. Then the update is dispatched
/// in the state of the chat that it belongs to, the requests of the handler
/// go through the gateway, and at last the state that the handler asked for
/// is stored. Where no handler ran to its end, or a request did not get
/// through, nothing is stored but `state`.
///
/// Nothing here panics. `Err(RunError::Unhandled)` is returned where a test
/// is to fail with "Unhandled update!", and `Err(RunError::Handler(_))`
/// where it is to fail because the handler returned an error: a test that
/// unwraps the result fails there.
pub fn run_update(bed: &mut TestBed, update: Update, state: State) -> (r: Result<(), RunError>)
    ensures
        r == spec_run_update(old(bed)@, update@, state@).0,
        final(bed)@ == spec_run_update(old(bed)@, update@, state@).1,
{
    bed.storage.set(TEST_USER_ID, state);
    let chat_id = match update.chat_id() {
        Some(chat_id) => chat_id,
        None => {
            return Err(RunError::Unhandled);
        },
    };
    let current = bed.storage.get(chat_id);
    match dispatch(current, update, bed.bot_name.as_str()) {
        Dispatched::Unhandled => Err(RunError::Unhandled),
        Dispatched::Failed(e) => Err(RunError::Handler(e)),
        Dispatched::Handled(reaction) => {
            let Reaction { requests, next_state } = reaction;
            if !bed.gateway.deliver_all(requests) {
                return Err(RunError::NotDelivered);
            }
            match next_state {
                Some(next) => {
                    bed.storage.set(chat_id, next);
                },
                None => {},
            }
            Ok(())
        },
    }
}

/// The state of the test user's conversation.
pub fn get_state(bed: &TestBed) -> (state: State)
    ensures
        state@ == bed@.state(),
{
    bed.storage.get(TEST_USER_ID)
}

/// Puts the test user back at the start, and has the gateway forget the
/// message it keeps.
pub fn full_reset_test_user(bed: &mut TestBed)
    ensures
        final(bed)@ == (TestBedView {
            gateway: gateway_reset(old(bed)@.gateway),
            storage: old(bed)@.storage.insert(TEST_USER_ID, StateView::Start),
            bot_name: old(bed)@.bot_name,
        }),
        final(bed)@.state() == StateView::Start,
        final(bed)@.last_sent_message() is None,
{
    bed.storage.set(TEST_USER_ID, State::default());
    bed.gateway.reset();
}

/// Whether the test user's conversation stands at `state` and the bot's last
/// message says `text`. `false` where the bot has sent no message.
///
/// Nothing here panics, and nothing is changed. `false` is returned where a
/// test is to fail, be it for the state, for the text, or for want of a
/// message: a test that asserts the result fails there.
pub fn check_the_state_and_text(bed: &TestBed, state: &State, text: &str) -> (r: bool)
    ensures
        r == (bed@.state() == state@ && bed@.last_sent_message() is Some
            && bed@.last_sent_message()->0.text == text@),
{
    match bed.gateway.last_sent_message() {
        Some(message) => same_text(message.text.as_str(), text) && get_state(bed).same(state),
        None => false,
    }
}

} // verus!

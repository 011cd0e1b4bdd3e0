//! The gateway through which every request leaves.
//!
//! A gateway is either live or intercepting, and which one it is is decided
//! once, where it is made. A live gateway hands each request on to the
//! transport. An intercepting gateway answers each request on the spot, with
//! the message that the platform would have reported, and keeps the last
//! such message so that a test can look at it. Handlers do not know which
//! gateway their requests go through.

use vstd::prelude::*;
use vstd::string::StringExecFns;
use crate::keyboard::{clone_markup, ButtonView, InlineKeyboardMarkup};
use crate::request::{
    DeleteMessage, EditMessageReplyMarkup, EditMessageText, OutboundRequest, PinChatMessage,
    RequestView, SendMessage,
};

verus! {

/// The identifier of every message that the intercepting gateway makes up.
pub const BOT_MESSAGE_ID: i32 = 1;

/// A message of the bot, as the platform reports it once it is sent or
/// edited.
#[derive(Debug, PartialEq, Eq)]
pub struct BotMessage {
    pub id: i32,
    pub chat_id: i64,
    pub text: String,
    pub reply_markup: Option<InlineKeyboardMarkup>,
}

/// A [`BotMessage`] with its texts as sequences of characters.
pub struct BotMessageView {
    pub id: i32,
    pub chat_id: i64,
    pub text: Seq<char>,
    pub reply_markup: Option<Seq<Seq<ButtonView>>>,
}

impl DeepView for BotMessage {
    type V = BotMessageView;

    open spec fn deep_view(&self) -> BotMessageView {
        BotMessageView {
            id: self.id,
            chat_id: self.chat_id,
            text: self.text@,
            reply_markup: self.reply_markup.deep_view(),
        }
    }
}

impl View for BotMessage {
    type V = BotMessageView;

    open spec fn view(&self) -> BotMessageView {
        self.deep_view()
    }
}

impl Clone for BotMessage {
    fn clone(&self) -> (r: Self)
        ensures
            r@ == self@,
    {
        BotMessage {
            id: self.id,
            chat_id: self.chat_id,
            text: self.text.clone(),
            reply_markup: clone_markup(&self.reply_markup),
        }
    }
}

/// What the platform answers to a request.
#[derive(Debug, PartialEq, Eq)]
pub enum Acknowledgment {
    /// The message that was sent, or that was edited, as it now stands.
    Message(BotMessage),
    /// The request is done; there is nothing to report.
    Done,
}

/// An [`Acknowledgment`] with its texts as sequences of characters.
pub enum AcknowledgmentView {
    Message(BotMessageView),
    Done,
}

impl DeepView for Acknowledgment {
    type V = AcknowledgmentView;

    open spec fn deep_view(&self) -> AcknowledgmentView {
        match *self {
            Acknowledgment::Message(m) => AcknowledgmentView::Message(m@),
            Acknowledgment::Done => AcknowledgmentView::Done,
        }
    }
}

impl View for Acknowledgment {
    type V = AcknowledgmentView;

    open spec fn view(&self) -> AcknowledgmentView {
        self.deep_view()
    }
}

/// How the platform is to read the text of a message.
#[derive(Debug, PartialEq, Eq, Clone, Copy)]
pub enum ParseMode {
    Html,
}

/// What became of a request at the gateway.
#[derive(Debug, PartialEq, Eq)]
pub enum Delivery {
    /// The gateway answered the request itself. Nothing went out.
    Acknowledged(Acknowledgment),
    /// The request is to go out to the platform, its text read in
    /// `parse_mode` if one is given.
    Forward { request: OutboundRequest, parse_mode: Option<ParseMode> },
}

/// A [`Delivery`] with its texts as sequences of characters.
pub enum DeliveryView {
    Acknowledged(AcknowledgmentView),
    Forward { request: RequestView, parse_mode: Option<ParseMode> },
}

impl DeepView for Delivery {
    type V = DeliveryView;

    open spec fn deep_view(&self) -> DeliveryView {
        match *self {
            Delivery::Acknowledged(a) => DeliveryView::Acknowledged(a@),
            Delivery::Forward { request, parse_mode } => DeliveryView::Forward {
                request: request@,
                parse_mode,
            },
        }
    }
}

impl View for Delivery {
    type V = DeliveryView;

    open spec fn view(&self) -> DeliveryView {
        self.deep_view()
    }
}

/// The gateway.
#[derive(Debug, PartialEq, Eq)]
pub enum Gateway {
    /// Requests go out to the platform.
    Live,
    /// Requests are answered here. `last_sent_message` is the answer to the
    /// last request that sent or edited a message, if there was one since
    /// the gateway was made or reset.
    Intercepting { last_sent_message: Option<BotMessage> },
}

/// A [`Gateway`] with its texts as sequences of characters.
pub enum GatewayView {
    Live,
    Intercepting { last_sent_message: Option<BotMessageView> },
}

impl DeepView for Gateway {
    type V = GatewayView;

    open spec fn deep_view(&self) -> GatewayView {
        match *self {
            Gateway::Live => GatewayView::Live,
            Gateway::Intercepting { last_sent_message } => GatewayView::Intercepting {
                last_sent_message: last_sent_message.deep_view(),
            },
        }
    }
}

impl View for Gateway {
    type V = GatewayView;

    open spec fn view(&self) -> GatewayView {
        self.deep_view()
    }
}

/// The message that the platform would report for a message with these
/// fields.
pub open spec fn bot_message(
    text: Seq<char>,
    chat_id: i64,
    reply_markup: Option<Seq<Seq<ButtonView>>>,
) -> BotMessageView {
    BotMessageView { id: BOT_MESSAGE_ID, chat_id, text, reply_markup }
}

/// The message that the intercepting gateway makes up for `request`: one
/// with the text, the chat and the keyboard of the request, for a request
/// that sends or edits a message, and none for any other.
pub open spec fn message_for(request: RequestView) -> Option<BotMessageView> {
    match request {
        RequestView::SendMessage { chat_id, text, reply_markup } => Some(
            bot_message(text, chat_id, reply_markup),
        ),
        RequestView::EditMessageText { chat_id, text, reply_markup, .. } => Some(
            bot_message(text, chat_id, reply_markup),
        ),
        _ => None,
    }
}

/// The answer that the intercepting gateway makes up for `request`.
pub open spec fn acknowledgment_of(request: RequestView) -> AcknowledgmentView {
    match message_for(request) {
        Some(m) => AcknowledgmentView::Message(m),
        None => AcknowledgmentView::Done,
    }
}

/// What becomes of `request` at `gateway`.
pub open spec fn delivery(gateway: GatewayView, request: RequestView) -> DeliveryView {
    match gateway {
        GatewayView::Live => DeliveryView::Forward {
            request,
            parse_mode: if request.produces_message() {
                Some(ParseMode::Html)
            } else {
                None
            },
        },
        GatewayView::Intercepting { .. } => DeliveryView::Acknowledged(acknowledgment_of(request)),
    }
}

/// The message that an intercepting gateway keeps after `request`, if it
/// kept `last` before.
pub open spec fn last_sent_after(
    last: Option<BotMessageView>,
    request: RequestView,
) -> Option<BotMessageView> {
    match message_for(request) {
        Some(m) => Some(m),
        None => last,
    }
}

/// `gateway` after `request` went through it.
pub open spec fn gateway_after(gateway: GatewayView, request: RequestView) -> GatewayView {
    match gateway {
        GatewayView::Live => GatewayView::Live,
        GatewayView::Intercepting { last_sent_message } => GatewayView::Intercepting {
            last_sent_message: last_sent_after(last_sent_message, request),
        },
    }
}

/// `gateway` after it forgot the message that it kept.
pub open spec fn gateway_reset(gateway: GatewayView) -> GatewayView {
    match gateway {
        GatewayView::Live => GatewayView::Live,
        GatewayView::Intercepting { .. } => GatewayView::Intercepting { last_sent_message: None },
    }
}

/// The message that an intercepting gateway keeps after all of `requests`
/// went through it in their order, if it kept `last` before.
pub open spec fn last_sent_after_all(
    last: Option<BotMessageView>,
    requests: Seq<RequestView>,
) -> Option<BotMessageView>
    decreases requests.len(),
{
    if requests.len() == 0 {
        last
    } else {
        last_sent_after(last_sent_after_all(last, requests.drop_last()), requests.last())
    }
}

/// `gateway` after all of `requests` went through it in their order.
pub open spec fn gateway_after_all(gateway: GatewayView, requests: Seq<RequestView>) -> GatewayView {
    match gateway {
        GatewayView::Live => GatewayView::Live,
        GatewayView::Intercepting { last_sent_message } => GatewayView::Intercepting {
            last_sent_message: last_sent_after_all(last_sent_message, requests),
        },
    }
}

/// An intercepting gateway always keeps the answer to the latest request
/// that sent or edited a message: if `requests[at]` is such a request and
/// none comes after it, the message kept after `requests` is the one made up
/// for `requests[at]`, whatever was kept before.
pub proof fn lemma_keeps_latest_message(
    last: Option<BotMessageView>,
    requests: Seq<RequestView>,
    at: int,
)
    requires
        0 <= at < requests.len(),
        requests[at].produces_message(),
        forall|i: int| at < i < requests.len() ==> !(#[trigger] requests[i]).produces_message(),
    ensures
        last_sent_after_all(last, requests) == message_for(requests[at]),
        message_for(requests[at]) is Some,
    decreases requests.len(),
{
    if at == requests.len() - 1 {
    } else {
        let head = requests.drop_last();
        assert(!requests[requests.len() - 1].produces_message());
        assert(head[at] == requests[at]);
        assert forall|i: int| at < i < head.len() implies !(#[trigger] head[i]).produces_message() by {
            assert(head[i] == requests[i]);
        }
        lemma_keeps_latest_message(last, head, at);
    }
}

/// Requests that neither send nor edit a message leave what an intercepting
/// gateway keeps as it was.
pub proof fn lemma_keeps_message_otherwise(last: Option<BotMessageView>, requests: Seq<RequestView>)
    requires
        forall|i: int| 0 <= i < requests.len() ==> !(#[trigger] requests[i]).produces_message(),
    ensures
        last_sent_after_all(last, requests) == last,
    decreases requests.len(),
{
    if requests.len() > 0 {
        let head = requests.drop_last();
        assert(!requests[requests.len() - 1].produces_message());
        assert forall|i: int| 0 <= i < head.len() implies !(#[trigger] head[i]).produces_message() by {
            assert(head[i] == requests[i]);
        }
        lemma_keeps_message_otherwise(last, head);
    }
}

/// The message that the platform would report for a message of the bot with
/// the text `text` in the chat `chat_id`, under which `reply_markup` stands.
pub fn make_bot_message(
    text: &str,
    chat_id: i64,
    reply_markup: Option<InlineKeyboardMarkup>,
) -> (r: BotMessage)
    ensures
        r@ == bot_message(text@, chat_id, reply_markup.deep_view()),
{
    BotMessage { id: BOT_MESSAGE_ID, chat_id, text: String::from_str(text), reply_markup }
}

impl Gateway {
    /// A gateway that hands every request on to the platform.
    pub fn live() -> (g: Gateway)
        ensures
            g@ == GatewayView::Live,
    {
        Gateway::Live
    }

    /// A gateway that answers every request itself, and has kept no message
    /// yet.
    pub fn intercepting() -> (g: Gateway)
        ensures
            g@ == (GatewayView::Intercepting { last_sent_message: None }),
    {
        Gateway::Intercepting { last_sent_message: None }
    }

    /// Forgets the message that an intercepting gateway keeps.
    pub fn reset(&mut self)
        ensures
            final(self)@ == gateway_reset(old(self)@),
    {
        match self {
            Gateway::Live => {},
            Gateway::Intercepting { last_sent_message } => {
                *last_sent_message = None;
            },
        }
    }

    /// The message that an intercepting gateway keeps; `None` also for a
    /// live gateway, which keeps none.
    pub fn last_sent_message(&self) -> (r: Option<&BotMessage>)
        ensures
            r.deep_view() == match self@ {
                GatewayView::Live => None,
                GatewayView::Intercepting { last_sent_message } => last_sent_message,
            },
    {
        match self {
            Gateway::Live => None,
            Gateway::Intercepting { last_sent_message } => last_sent_message.as_ref(),
        }
    }

    /// Passes `request` through the gateway.
    ///
    /// A live gateway hands the request back to be sent, and asks for the
    /// text of a message to be read as HTML. An intercepting gateway sends
    /// nothing: it makes up the platform's answer from the request, and
    /// where that answer is a message, keeps it in place of the one it kept
    /// before.
    pub fn deliver(&mut self, request: OutboundRequest) -> (d: Delivery)
        ensures
            d@ == delivery(old(self)@, request@),
            final(self)@ == gateway_after(old(self)@, request@),
    {
        match self {
            Gateway::Live => {
                let parse_mode = match &request {
                    OutboundRequest::SendMessage(_) => Some(ParseMode::Html),
                    OutboundRequest::EditMessageText(_) => Some(ParseMode::Html),
                    _ => None,
                };
                Delivery::Forward { request, parse_mode }
            },
            Gateway::Intercepting { last_sent_message } => {
                let message = match request {
                    OutboundRequest::SendMessage(p) => Some(
                        make_bot_message(p.text.as_str(), p.chat_id, p.reply_markup),
                    ),
                    OutboundRequest::EditMessageText(p) => Some(
                        make_bot_message(p.text.as_str(), p.chat_id, p.reply_markup),
                    ),
                    _ => None,
                };
                match message {
                    Some(m) => {
                        *last_sent_message = Some(m.clone());
                        Delivery::Acknowledged(Acknowledgment::Message(m))
                    },
                    None => Delivery::Acknowledged(Acknowledgment::Done),
                }
            },
        }
    }
}

impl Gateway {
    /// Passes `requests` through the gateway in their order, as far as the
    /// gateway answers them itself, and says whether that was all of them.
    ///
    /// An intercepting gateway answers every request, so all of them go
    /// through. A live gateway answers none: it stops at the first request,
    /// which is left for the transport to send.
    pub fn deliver_all(&mut self, requests: Vec<OutboundRequest>) -> (all: bool)
        ensures
            all == (old(self)@ is Intercepting || requests@.len() == 0),
            final(self)@ == gateway_after_all(old(self)@, requests.deep_view()),
    {
        let ghost before = self@;
        let ghost views = requests.deep_view();
        for request in it: requests
            invariant
                it.seq() == requests@,
                views == requests.deep_view(),
                before == old(self)@,
                self@ == gateway_after_all(before, views.take(it.index() as int)),
                before is Intercepting || it.index() == 0,
        {
            let ghost done = views.take(it.index() as int);
            let ghost next = views.take(it.index() + 1);
            assert(next.drop_last() == done);
            assert(next.last() == request@);
            match self.deliver(request) {
                Delivery::Acknowledged(_) => {},
                Delivery::Forward { .. } => {
                    return false;
                },
            }
        }
        assert(views.take(views.len() as int) == views);
        true
    }
}

/// Requests that are answered with the message that they sent or edited.
pub trait TestingInterceptAndReturnMessage: Sized {
    /// The request as it goes through the gateway.
    spec fn request(&self) -> RequestView;

    /// Passes the request through `gateway`, as [`Gateway::deliver`] does.
    /// What an intercepting gateway answers is a message, and it keeps that
    /// message.
    fn intercept(self, gateway: &mut Gateway) -> (d: Delivery)
        ensures
            self.request().produces_message(),
            d@ == delivery(old(gateway)@, self.request()),
            final(gateway)@ == gateway_after(old(gateway)@, self.request()),
            old(gateway)@ is Intercepting ==> d@ == DeliveryView::Acknowledged(
                AcknowledgmentView::Message(message_for(self.request())->0),
            ) && final(gateway)@ == (GatewayView::Intercepting {
                last_sent_message: message_for(self.request()),
            }),
    ;
}

/// Requests that are answered with nothing but that they are done.
pub trait TestingIntercept: Sized {
    /// The request as it goes through the gateway.
    spec fn request(&self) -> RequestView;

    /// Passes the request through `gateway`, as [`Gateway::deliver`] does.
    /// An intercepting gateway answers that the request is done, and keeps
    /// the message that it kept before.
    fn intercept(self, gateway: &mut Gateway) -> (d: Delivery)
        ensures
            !self.request().produces_message(),
            d@ == delivery(old(gateway)@, self.request()),
            final(gateway)@ == old(gateway)@,
    ;
}

impl TestingInterceptAndReturnMessage for SendMessage {
    open spec fn request(&self) -> RequestView {
        self@
    }

    fn intercept(self, gateway: &mut Gateway) -> (d: Delivery) {
        gateway.deliver(OutboundRequest::SendMessage(self))
    }
}

impl TestingInterceptAndReturnMessage for EditMessageText {
    open spec fn request(&self) -> RequestView {
        self@
    }

    fn intercept(self, gateway: &mut Gateway) -> (d: Delivery) {
        gateway.deliver(OutboundRequest::EditMessageText(self))
    }
}

impl TestingIntercept for DeleteMessage {
    open spec fn request(&self) -> RequestView {
        self@
    }

    fn intercept(self, gateway: &mut Gateway) -> (d: Delivery) {
        gateway.deliver(OutboundRequest::DeleteMessage(self))
    }
}

impl TestingIntercept for EditMessageReplyMarkup {
    open spec fn request(&self) -> RequestView {
        self@
    }

    fn intercept(self, gateway: &mut Gateway) -> (d: Delivery) {
        gateway.deliver(OutboundRequest::EditMessageMarkup(self))
    }
}

impl TestingIntercept for PinChatMessage {
    open spec fn request(&self) -> RequestView {
        self@
    }

    fn intercept(self, gateway: &mut Gateway) -> (d: Delivery) {
        gateway.deliver(OutboundRequest::PinMessage(self))
    }
}

} // verus!

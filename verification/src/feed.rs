//! The vocabulary of the feed: what arrives on the push channel, what is sent
//! back, and what the reporter is told.

use vstd::prelude::*;
use crate::decoder::{decoded, DecodeError, DecodedMessage, MessageView, PayloadDecoder};
use crate::session::{Session, SessionView};

verus! {

/// One item of an inbound payload.
#[derive(Clone, Debug, PartialEq, Eq)]
pub enum InboundItem {
    /// A text blob: base64 of gzip of text.
    Text(String),
    /// Binary data, of which only the length matters here.
    Binary(Vec<u8>),
    /// Anything else, as the transport rendered it.
    Other(String),
}

/// The mathematical value of an [`InboundItem`].
pub enum ItemView {
    Text(Seq<char>),
    Binary(Seq<u8>),
    Other(Seq<char>),
}

impl View for InboundItem {
    type V = ItemView;

    open spec fn view(&self) -> ItemView {
        match self {
            InboundItem::Text(blob) => ItemView::Text(blob@),
            InboundItem::Binary(bytes) => ItemView::Binary(bytes@),
            InboundItem::Other(shape) => ItemView::Other(shape@),
        }
    }
}

/// The values of a payload's items, in order.
pub open spec fn items_view(items: Seq<InboundItem>) -> Seq<ItemView> {
    items.map_values(|item: InboundItem| item@)
}

/// The subscription request: sent once as the handshake and again on every
/// keep-alive tick.
#[derive(Clone, Debug, PartialEq, Eq)]
pub struct RefreshRequest {
    pub sid: String,
    pub uid: String,
    pub provider: String,
    pub route: String,
}

/// The mathematical value of a [`RefreshRequest`].
pub struct RefreshView {
    pub sid: Seq<char>,
    pub uid: Seq<char>,
    pub provider: Seq<char>,
    pub route: Seq<char>,
}

impl View for RefreshRequest {
    type V = RefreshView;

    open spec fn view(&self) -> RefreshView {
        RefreshView { sid: self.sid@, uid: self.uid@, provider: self.provider@, route: self.route@ }
    }
}

/// The request that subscribes `session`: its three fields and an empty `uid`.
pub open spec fn refresh_of(session: SessionView) -> RefreshView {
    RefreshView {
        sid: session.sid,
        uid: Seq::empty(),
        provider: session.provider,
        route: session.route,
    }
}

/// What the reporter is told.
#[derive(Clone, Debug, PartialEq, Eq)]
pub enum Notice {
    /// A text item decoded to this message.
    Message(DecodedMessage),
    /// A text item was dropped: the stage that failed, and the blob itself.
    DecodeFailed { error: DecodeError, blob: String },
    /// A binary item arrived; only its length is passed on.
    BinaryLength(usize),
    /// An item of unrecognized inbound shape.
    Unrecognized(String),
    /// The backend sent an error event with this payload.
    ServerError(Vec<InboundItem>),
    /// The transport could not be established.
    ConnectError(String),
    /// An emission failed: the connection is taken for dead.
    EmitError(String),
}

/// The mathematical value of a [`Notice`].
pub enum NoticeView {
    Message(MessageView),
    DecodeFailed { error: DecodeError, blob: Seq<char> },
    BinaryLength(nat),
    Unrecognized(Seq<char>),
    ServerError(Seq<ItemView>),
    ConnectError(Seq<char>),
    EmitError(Seq<char>),
}

impl View for Notice {
    type V = NoticeView;

    open spec fn view(&self) -> NoticeView {
        match self {
            Notice::Message(message) => NoticeView::Message(message@),
            Notice::DecodeFailed { error, blob } => NoticeView::DecodeFailed {
                error: *error,
                blob: blob@,
            },
            Notice::BinaryLength(length) => NoticeView::BinaryLength(*length as nat),
            Notice::Unrecognized(shape) => NoticeView::Unrecognized(shape@),
            Notice::ServerError(items) => NoticeView::ServerError(items_view(items@)),
            Notice::ConnectError(detail) => NoticeView::ConnectError(detail@),
            Notice::EmitError(detail) => NoticeView::EmitError(detail@),
        }
    }
}

/// The notice for a text blob, given how its decoding ended.
pub open spec fn decode_notice(outcome: Result<MessageView, DecodeError>, blob: Seq<char>)
    -> NoticeView {
    match outcome {
        Ok(message) => NoticeView::Message(message),
        Err(error) => NoticeView::DecodeFailed { error, blob },
    }
}

/// The notice that one inbound item gives rise to.
pub open spec fn notice_for(item: ItemView) -> NoticeView {
    match item {
        ItemView::Text(blob) => decode_notice(decoded(blob), blob),
        ItemView::Binary(bytes) => NoticeView::BinaryLength(bytes.len()),
        ItemView::Other(shape) => NoticeView::Unrecognized(shape),
    }
}

impl RefreshRequest {
    /// Builds the request that subscribes `session`.
    pub fn for_session(session: &Session) -> (out: RefreshRequest)
        ensures
            out@ == refresh_of(session@),
    {
        RefreshRequest {
            sid: session.sid.clone(),
            uid: String::new(),
            provider: session.provider.clone(),
            route: session.route.clone(),
        }
    }
}

impl Notice {
    /// The notice for a text blob whose decoding ended in `outcome`.
    pub fn from_outcome(outcome: Result<DecodedMessage, DecodeError>, blob: &str) -> (out: Notice)
        ensures
            out@ == decode_notice(crate::decoder::outcome_view(outcome), blob@),
    {
        match outcome {
            Ok(message) => Notice::Message(message),
            Err(error) => Notice::DecodeFailed { error, blob: blob.to_owned() },
        }
    }

    /// The notice for one inbound item: a text blob goes through the decoder,
    /// binary data gives its length, any other shape is passed on as such.
    pub fn for_item(item: &InboundItem) -> (out: Notice)
        ensures
            out@ == notice_for(item@),
    {
        match item {
            InboundItem::Text(blob) => Notice::from_outcome(
                PayloadDecoder::decode(blob.as_str()),
                blob.as_str(),
            ),
            InboundItem::Binary(bytes) => Notice::BinaryLength(bytes.len()),
            InboundItem::Other(shape) => Notice::Unrecognized(shape.clone()),
        }
    }
}

} // verus!

//! What the price feed does with what the exchange sends: WebSocket messages
//! on the tickers channel, and the funding-rate answer of the REST API.

use vstd::prelude::*;
use crate::decimal::{parse_unsigned_spec, parse_u64};
use crate::text::text_equals;

verus! {

/// One ticker as the exchange sends it: every number as text.
pub struct RawTicker {
    pub last: String,
    pub open24h: String,
    pub high24h: String,
    pub low24h: String,
    pub vol24h: String,
    pub vol_ccy24h: String,
    pub ts: String,
}

/// A decoded WebSocket text message: tickers, or an event such as the
/// confirmation of a subscription.
pub struct WsResponse {
    pub data: Option<Vec<RawTicker>>,
    pub event: Option<String>,
}

/// A message read from the WebSocket.
pub enum IncomingMessage {
    Text(String),
    Close,
    ReadError,
    Other,
}

/// What to do with a message read from the WebSocket.
#[derive(Debug, Clone, Copy, PartialEq, Eq, Structural)]
pub enum MessageStep {
    /// Go on reading.
    Skip,
    /// Decode the text as a `WsResponse`.
    Decode,
    /// End the session.
    Stop,
}

/// The keep-alive answer of the server.
pub open spec fn pong_text() -> Seq<char> {
    "pong"@
}

/// Decides what a message read from the WebSocket asks for: the keep-alive
/// answer and messages that are not text are passed over, other text is
/// decoded, and a close or a read error ends the session.
pub fn message_step(msg: &IncomingMessage) -> (r: MessageStep)
    ensures
        r == match msg {
            IncomingMessage::Text(t) => if t@ == pong_text() {
                MessageStep::Skip
            } else {
                MessageStep::Decode
            },
            IncomingMessage::Close => MessageStep::Stop,
            IncomingMessage::ReadError => MessageStep::Stop,
            IncomingMessage::Other => MessageStep::Skip,
        },
{
    match msg {
        IncomingMessage::Text(t) => {
            if text_equals(t.as_str(), "pong") {
                MessageStep::Skip
            } else {
                MessageStep::Decode
            }
        },
        IncomingMessage::Close => MessageStep::Stop,
        IncomingMessage::ReadError => MessageStep::Stop,
        IncomingMessage::Other => MessageStep::Skip,
    }
}

/// What a decoded message carries for the feed.
pub enum ResponseStep {
    /// An event, to be logged.
    Event(String),
    /// The ticker to publish.
    Ticker(RawTicker),
    /// Nothing to act on.
    Nothing,
}

/// Takes from a decoded message what the feed acts on: an event comes first;
/// else the first of its tickers, if it has any.
pub fn response_step(resp: WsResponse) -> (r: ResponseStep)
    ensures
        match resp.event {
            Some(e) => r == ResponseStep::Event(e),
            None => match resp.data {
                Some(v) => if v@.len() > 0 {
                    r == ResponseStep::Ticker(v@[0])
                } else {
                    r == ResponseStep::Nothing
                },
                None => r == ResponseStep::Nothing,
            },
        },
{
    match resp.event {
        Some(e) => ResponseStep::Event(e),
        None => match resp.data {
            Some(mut v) => {
                if v.len() > 0 {
                    let first = v.remove(0);
                    ResponseStep::Ticker(first)
                } else {
                    ResponseStep::Nothing
                }
            },
            None => ResponseStep::Nothing,
        },
    }
}

/// The ticker's timestamp, in milliseconds, read as a `u64`; `None` where the
/// text is not one.
pub fn ticker_timestamp(raw: &RawTicker) -> (r: Option<u64>)
    ensures
        match parse_unsigned_spec(raw.ts@, u64::MAX as nat) {
            Ok(v) => r == Some(v as u64),
            Err(_) => r is None,
        },
{
    match parse_u64(raw.ts.as_str()) {
        Ok(v) => Some(v),
        Err(_) => None,
    }
}

/// One entry of the funding-rate answer.
pub struct RawFundingRate {
    pub funding_rate: String,
}

/// The funding-rate answer of the REST API.
pub struct FundingRateResponse {
    pub data: Vec<RawFundingRate>,
}

/// The funding rate, as text, of the first entry of the answer.
pub fn first_funding_rate(resp: &FundingRateResponse) -> (r: Option<String>)
    ensures
        resp.data@.len() == 0 ==> r is None,
        resp.data@.len() > 0 ==> r == Some(resp.data@[0].funding_rate),
{
    if resp.data.len() == 0 {
        None
    } else {
        Some(resp.data[0].funding_rate.clone())
    }
}

} // verus!

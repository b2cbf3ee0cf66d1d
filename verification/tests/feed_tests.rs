use btc_ticker::feed::{
    first_funding_rate, message_step, response_step, ticker_timestamp, FundingRateResponse, IncomingMessage,
    MessageStep, RawFundingRate, RawTicker, ResponseStep, WsResponse,
};

fn ticker(last: &str, ts: &str) -> RawTicker {
    RawTicker {
        last: last.to_string(),
        open24h: "60000".to_string(),
        high24h: "62000".to_string(),
        low24h: "59000".to_string(),
        vol24h: "1000".to_string(),
        vol_ccy24h: "10".to_string(),
        ts: ts.to_string(),
    }
}

#[test]
fn pong_is_skipped_and_other_text_decoded() {
    assert_eq!(message_step(&IncomingMessage::Text("pong".to_string())), MessageStep::Skip);
    assert_eq!(message_step(&IncomingMessage::Text("{\"event\":\"subscribe\"}".to_string())), MessageStep::Decode);
    assert_eq!(message_step(&IncomingMessage::Text("ponger".to_string())), MessageStep::Decode);
}

#[test]
fn close_and_errors_end_the_session() {
    assert_eq!(message_step(&IncomingMessage::Close), MessageStep::Stop);
    assert_eq!(message_step(&IncomingMessage::ReadError), MessageStep::Stop);
    assert_eq!(message_step(&IncomingMessage::Other), MessageStep::Skip);
}

#[test]
fn events_come_before_data() {
    let r = response_step(WsResponse { data: Some(vec![ticker("1", "2")]), event: Some("subscribe".to_string()) });
    assert!(matches!(r, ResponseStep::Event(e) if e == "subscribe"));
}

#[test]
fn first_ticker_is_taken() {
    let r = response_step(WsResponse { data: Some(vec![ticker("61000.5", "1"), ticker("7", "2")]), event: None });
    assert!(matches!(r, ResponseStep::Ticker(t) if t.last == "61000.5" && t.ts == "1"));
}

#[test]
fn empty_or_missing_data_gives_nothing() {
    assert!(matches!(response_step(WsResponse { data: Some(Vec::new()), event: None }), ResponseStep::Nothing));
    assert!(matches!(response_step(WsResponse { data: None, event: None }), ResponseStep::Nothing));
}

#[test]
fn timestamps_parse_as_u64() {
    assert_eq!(ticker_timestamp(&ticker("1", "1700000000123")), Some(1700000000123));
    assert_eq!(ticker_timestamp(&ticker("1", "")), None);
    assert_eq!(ticker_timestamp(&ticker("1", "17e12")), None);
    assert_eq!(ticker_timestamp(&ticker("1", "-1")), None);
}

#[test]
fn funding_rate_of_the_first_entry() {
    let resp = FundingRateResponse {
        data: vec![
            RawFundingRate { funding_rate: "0.0001".to_string() },
            RawFundingRate { funding_rate: "0.0002".to_string() },
        ],
    };
    assert_eq!(first_funding_rate(&resp), Some("0.0001".to_string()));
    assert_eq!(first_funding_rate(&FundingRateResponse { data: Vec::new() }), None);
}

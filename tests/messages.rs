use ftx_us_derivs::error::WebSocketError;
use ftx_us_derivs::text::{contains, end_position, same_text};
use ftx_us_derivs::ws::{
    ClientState, RawBookTop, RawHeartbeat, SanitizableMsg, WebSocketMsg, WebSocketMsgParser,
    WireMessage,
};

const BOOK_TOP: &str = "{\"type\":\"book_top\",\"bid\":10050,\"bid_size\":3,\"ask\":10100,\"ask_size\":5,\"contract_id\":7,\"contract_type\":1,\"clock\":42}";

#[test]
fn book_top_scenario_decodes_prices_in_hundredths() {
    let msg = WireMessage::Text(BOOK_TOP.to_string());
    match WebSocketMsgParser::parse(&msg) {
        Ok(WebSocketMsg::BookTop(bt)) => {
            assert_eq!(bt.bid, 10050);
            assert_eq!(bt.ask, 10100);
            assert_eq!(bt.bid as f64 / 100.0, 100.50);
            assert_eq!(bt.ask as f64 / 100.0, 101.00);
            assert_eq!(bt.bid_size, 3);
            assert_eq!(bt.ask_size, 5);
            assert_eq!(bt.contract_id, 7);
            assert_eq!(bt.contract_type, 1);
            assert_eq!(bt.clock, 42);
        }
        _ => panic!("expected a book top"),
    }
}

#[test]
fn book_top_with_spaced_tag_decodes() {
    let text = "{\"type\": \"book_top\", \"bid\": 1, \"bid_size\": 2, \"ask\": 3, \"ask_size\": 4, \"contract_id\": 5, \"contract_type\": 6, \"clock\": 7}";
    match WebSocketMsgParser::parse(&WireMessage::Text(text.to_string())) {
        Ok(WebSocketMsg::BookTop(bt)) => {
            assert_eq!((bt.bid, bt.ask, bt.clock), (1, 3, 7));
        }
        _ => panic!("expected a book top"),
    }
}

#[test]
fn raw_book_top_parse_reads_every_field() {
    let raw = RawBookTop::parse(BOOK_TOP).ok().unwrap();
    assert_eq!(raw.bid, 10050);
    assert_eq!(raw.ask_size, 5);
    assert_eq!(raw.clock, 42);
}

#[test]
fn book_top_missing_field_is_a_parsing_error() {
    let text = "{\"type\":\"book_top\",\"bid\":10050}";
    match WebSocketMsgParser::parse(&WireMessage::Text(text.to_string())) {
        Err(WebSocketError::MsgParsing(m, line, column)) => {
            assert!(m.contains("bid_size"));
            assert_eq!(line, 1);
            assert_eq!(column, 31);
        }
        _ => panic!("expected a parsing error"),
    }
}

#[test]
fn book_top_malformed_json_reports_position() {
    let text = "{\"type\":\"book_top\",\n\"bid\":}";
    match WebSocketMsgParser::parse(&WireMessage::Text(text.to_string())) {
        Err(WebSocketError::MsgParsing(_, line, column)) => {
            assert_eq!(line, 2);
            assert!(column > 0);
        }
        _ => panic!("expected a parsing error"),
    }
}

#[test]
fn book_top_negative_price_is_a_parsing_error() {
    let text = "{\"type\":\"book_top\",\"bid\":-1,\"bid_size\":3,\"ask\":10100,\"ask_size\":5,\"contract_id\":7,\"contract_type\":1,\"clock\":42}";
    assert!(matches!(
        RawBookTop::parse(text),
        Err(WebSocketError::MsgParsing(_, _, _))
    ));
}

#[test]
fn heartbeat_decodes() {
    let text = "{\"type\":\"heartbeat\",\"timestamp\":1600000000,\"ticks\":12,\"run_id\":99,\"interval_ms\":1000}";
    match WebSocketMsgParser::parse(&WireMessage::Text(text.to_string())) {
        Ok(WebSocketMsg::HeartBeat(hb)) => {
            assert_eq!(hb.timestamp, 1600000000);
            assert_eq!(hb.ticks, 12);
            assert_eq!(hb.run_id, 99);
            assert_eq!(hb.interval_ms, 1000);
        }
        _ => panic!("expected a heartbeat"),
    }
    assert!(RawHeartbeat::parse("{\"ticks\":1}").is_err());
}

#[test]
fn book_top_tag_wins_over_heartbeat_tag() {
    let text = "{\"type\":\"book_top\",\"note\":\"heartbeat\",\"bid\":1,\"bid_size\":2,\"ask\":3,\"ask_size\":4,\"contract_id\":5,\"contract_type\":6,\"clock\":7}";
    assert!(matches!(
        WebSocketMsgParser::parse(&WireMessage::Text(text.to_string())),
        Ok(WebSocketMsg::BookTop(_))
    ));
}

#[test]
fn unauth_success_decodes() {
    let text = "{\"type\":\"unauth_success\",\"token\":\"x\"}";
    assert!(matches!(
        WebSocketMsgParser::parse(&WireMessage::Text(text.to_string())),
        Ok(WebSocketMsg::UnAuthSuccess)
    ));
}

#[test]
fn meta_is_reported_unsupported_with_payload() {
    let text = "{\"type\":\"meta\",\"data\":{}}";
    match WebSocketMsgParser::parse(&WireMessage::Text(text.to_string())) {
        Err(WebSocketError::UnsupportedMsgType(p)) => assert_eq!(p, text),
        _ => panic!("expected an unsupported message"),
    }
}

#[test]
fn unknown_type_carries_the_payload() {
    let text = "{\"type\":\"collateral_balance_update\",\"x\":1}";
    match WebSocketMsgParser::parse(&WireMessage::Text(text.to_string())) {
        Err(WebSocketError::UnknownMsgType(p)) => assert_eq!(p, text),
        _ => panic!("expected an unknown message type"),
    }
    match WebSocketMsgParser::parse(&WireMessage::Text(String::new())) {
        Err(WebSocketError::UnknownMsgType(p)) => assert_eq!(p, ""),
        _ => panic!("expected an unknown message type"),
    }
}

#[test]
fn control_frames_decode() {
    match WebSocketMsgParser::parse(&WireMessage::Ping(vec![9, 8])) {
        Ok(WebSocketMsg::Ping(d)) => assert_eq!(d, vec![9, 8]),
        _ => panic!("expected a ping"),
    }
    assert!(matches!(
        WebSocketMsgParser::parse(&WireMessage::Pong(vec![1])),
        Ok(WebSocketMsg::Pong)
    ));
}

#[test]
fn binary_and_close_frames_are_unimplemented() {
    assert!(matches!(
        WebSocketMsgParser::parse(&WireMessage::Binary(vec![1, 2])),
        Err(WebSocketError::UnimplementedFrame)
    ));
    assert!(matches!(
        WebSocketMsgParser::parse(&WireMessage::Close),
        Err(WebSocketError::UnimplementedFrame)
    ));
}

#[test]
fn ping_is_answered_with_same_payload() {
    let mut state = ClientState::new("wss://example.invalid/ws".to_string());
    let step = state.handle_frame(&WireMessage::Ping(vec![1, 2, 3]));
    assert_eq!(step.reply, Some(vec![1, 2, 3]));
    match step.event {
        Ok(WebSocketMsg::Ping(d)) => assert_eq!(d, vec![1, 2, 3]),
        _ => panic!("expected the ping to be handed on"),
    }
    assert_eq!(state.endpoint(), "wss://example.invalid/ws");
    assert_eq!(state.exhaustion_counter, 0);
    assert_eq!(state.last_clock, 0);
}

#[test]
fn empty_ping_is_answered_with_empty_pong() {
    let mut state = ClientState::new(String::new());
    let step = state.handle_frame(&WireMessage::Ping(Vec::new()));
    assert_eq!(step.reply, Some(Vec::new()));
}

#[test]
fn non_ping_frames_get_no_reply() {
    let mut state = ClientState::new("e".to_string());
    let step = state.handle_frame(&WireMessage::Text(BOOK_TOP.to_string()));
    assert!(step.reply.is_none());
    assert!(matches!(step.event, Ok(WebSocketMsg::BookTop(_))));
    let step = state.handle_frame(&WireMessage::Pong(vec![1]));
    assert!(step.reply.is_none());
    let step = state.handle_frame(&WireMessage::Close);
    assert!(step.reply.is_none());
    assert!(step.event.is_err());
}

#[test]
fn text_search_and_comparison() {
    assert!(contains("abcdef", "cde"));
    assert!(contains("abc", ""));
    assert!(contains("", ""));
    assert!(!contains("ab", "abc"));
    assert!(!contains("abcdef", "ce"));
    assert!(contains("héllo wörld", "wö"));
    assert!(same_text("abc", "abc"));
    assert!(!same_text("abc", "abd"));
    assert!(!same_text("abc", "ab"));
    assert!(same_text("", ""));
}

#[test]
fn schema_error_is_placed_at_end_of_multiline_payload() {
    let text = "{\"type\": \"heartbeat\",\n \"ticks\": 1\n}";
    match RawHeartbeat::parse(text) {
        Err(WebSocketError::MsgParsing(m, line, column)) => {
            assert!(m.contains("timestamp"));
            assert_eq!((line, column), (3, 1));
        }
        _ => panic!("expected a parsing error"),
    }
}

#[test]
fn end_position_counts_lines_and_columns() {
    assert_eq!(end_position(""), (1, 0));
    assert_eq!(end_position("abc"), (1, 3));
    assert_eq!(end_position("ab\ncd\ne"), (3, 1));
    assert_eq!(end_position("ab\n"), (2, 0));
}

#[test]
fn sanitize_keeps_hundredths_and_fields() {
    let raw = RawBookTop::parse(BOOK_TOP).ok().unwrap();
    let bt = raw.sanitize();
    assert_eq!((bt.bid, bt.ask, bt.contract_id, bt.clock), (10050, 10100, 7, 42));
}

#[test]
fn syntax_error_carries_the_decoders_report() {
    let text = "{\"type\":\"book_top\",\n  \"bid\": 10050,, }";
    let expected = serde_json::from_str::<serde_json::Value>(text).unwrap_err();
    match WebSocketMsgParser::parse(&WireMessage::Text(text.to_string())) {
        Err(WebSocketError::MsgParsing(m, line, column)) => {
            assert_eq!(m, expected.to_string());
            assert_eq!(line, expected.line());
            assert_eq!(column, expected.column());
            assert_eq!(line, 2);
        }
        _ => panic!("expected a parsing error"),
    }
}

#[test]
fn non_integer_member_names_the_first_bad_field() {
    let text = "{\"type\":\"book_top\",\"bid\":1,\"bid_size\":\"3\",\"ask\":2.5}";
    match RawBookTop::parse(text) {
        Err(WebSocketError::MsgParsing(m, line, column)) => {
            assert_eq!(m, "missing or non-integer field `bid_size`");
            assert_eq!((line, column), (1, text.chars().count()));
        }
        _ => panic!("expected a parsing error"),
    }
}

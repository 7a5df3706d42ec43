use vstd::prelude::*;
use vstd::string::*;

use crate::error::WebSocketError;
use crate::json::{
    error_column, error_line, error_message, json_accepts, json_rejection, json_u64_members,
    parse_document, u64_member,
};
use crate::text::{contains, contains_text, end_position, last_line_len, line_breaks};

verus! {

/// One frame as the transport delivers it.
#[derive(Debug)]
pub enum WireMessage {
    Text(String),
    Binary(Vec<u8>),
    Ping(Vec<u8>),
    Pong(Vec<u8>),
    Close,
}

/// Liveness metadata sent by the venue.
#[derive(Debug)]
pub struct RawHeartbeat {
    pub timestamp: u64,
    pub ticks: u64,
    pub run_id: u64,
    pub interval_ms: u64,
}

/// Best bid and ask as the wire carries them; prices in hundredths.
#[derive(Debug)]
pub struct RawBookTop {
    pub bid: u64,
    pub bid_size: u64,
    pub ask: u64,
    pub ask_size: u64,
    pub contract_id: u64,
    pub contract_type: u64,
    pub clock: u64,
}

/// Best bid and ask of one contract. Prices are fixed-point amounts in
/// hundredths of the currency unit: `bid` stands for `bid / 100` units.
#[derive(Debug)]
pub struct BookTop {
    pub bid: u64,
    pub bid_size: u64,
    pub ask: u64,
    pub ask_size: u64,
    pub contract_id: u64,
    pub contract_type: u64,
    pub clock: u64,
}

/// The closed set of events that a frame decodes to.
#[derive(Debug)]
pub enum WebSocketMsg {
    Ping(Vec<u8>),
    Pong,
    BookTop(BookTop),
    HeartBeat(RawHeartbeat),
    UnAuthSuccess,
    SessionID(String),
}

/// A record that has a normalized form.
pub trait SanitizableMsg: Sized {
    type OUT;

    spec fn sanitized(&self) -> Self::OUT;

    fn sanitize(self) -> (r: Self::OUT)
        ensures
            r == self.sanitized(),
    ;
}

impl SanitizableMsg for RawBookTop {
    type OUT = BookTop;

    /// Prices keep their hundredths; every other field is carried over.
    open spec fn sanitized(&self) -> BookTop {
        BookTop {
            bid: self.bid,
            bid_size: self.bid_size,
            ask: self.ask,
            ask_size: self.ask_size,
            contract_id: self.contract_id,
            contract_type: self.contract_type,
            clock: self.clock,
        }
    }

    fn sanitize(self) -> (r: BookTop) {
        BookTop {
            bid: self.bid,
            bid_size: self.bid_size,
            ask: self.ask,
            ask_size: self.ask_size,
            contract_id: self.contract_id,
            contract_type: self.contract_type,
            clock: self.clock,
        }
    }
}

pub open spec fn book_top_tag() -> Seq<char> {
    "\"book_top\""@
}

pub open spec fn heartbeat_tag() -> Seq<char> {
    "\"heartbeat\""@
}

pub open spec fn unauth_success_tag() -> Seq<char> {
    "\"unauth_success\""@
}

pub open spec fn meta_tag() -> Seq<char> {
    "\"meta\""@
}

/// The document `text` has every member of a book top as an unsigned integer.
pub open spec fn book_top_fields(text: Seq<char>) -> bool {
    let m = json_u64_members(text);
    json_accepts(text) && m.contains_key("bid"@) && m.contains_key("bid_size"@) && m.contains_key(
        "ask"@,
    ) && m.contains_key("ask_size"@) && m.contains_key("contract_id"@) && m.contains_key(
        "contract_type"@,
    ) && m.contains_key("clock"@)
}

/// The book top that the document `text` describes.
pub open spec fn book_top_of(text: Seq<char>) -> RawBookTop {
    let m = json_u64_members(text);
    RawBookTop {
        bid: m["bid"@],
        bid_size: m["bid_size"@],
        ask: m["ask"@],
        ask_size: m["ask_size"@],
        contract_id: m["contract_id"@],
        contract_type: m["contract_type"@],
        clock: m["clock"@],
    }
}

/// The document `text` has every member of a heartbeat as an unsigned integer.
pub open spec fn heartbeat_fields(text: Seq<char>) -> bool {
    let m = json_u64_members(text);
    json_accepts(text) && m.contains_key("timestamp"@) && m.contains_key("ticks"@)
        && m.contains_key("run_id"@) && m.contains_key("interval_ms"@)
}

/// The heartbeat that the document `text` describes.
pub open spec fn heartbeat_of(text: Seq<char>) -> RawHeartbeat {
    let m = json_u64_members(text);
    RawHeartbeat {
        timestamp: m["timestamp"@],
        ticks: m["ticks"@],
        run_id: m["run_id"@],
        interval_ms: m["interval_ms"@],
    }
}

/// `e` carries serde_json's report on the text it rejected: its message,
/// line and column.
pub open spec fn rejection_error(e: WebSocketError, text: Seq<char>) -> bool {
    e matches WebSocketError::MsgParsing(m, line, column) && m@ == json_rejection(text).0 && line
        == json_rejection(text).1 && column == json_rejection(text).2
}

/// `e` reports that member `key` of the document `text` is missing or is no
/// unsigned integer, at the end of `text`: its one-based line and the column
/// of its last character (line and column 0 for a text too long to count).
pub open spec fn member_error(e: WebSocketError, text: Seq<char>, key: Seq<char>) -> bool {
    e matches WebSocketError::MsgParsing(m, line, column) && m@ == "missing or non-integer field `"@
        + key + "`"@ && (text.len() < usize::MAX ==> line == line_breaks(text) + 1 && column
        == last_line_len(text)) && (text.len() >= usize::MAX ==> line == 0 && column == 0)
}

/// The first member of a book top, in the order of its fields, that the
/// document `text` lacks as an unsigned integer.
pub open spec fn book_top_missing(text: Seq<char>) -> Option<Seq<char>> {
    let m = json_u64_members(text);
    if !m.contains_key("bid"@) {
        Some("bid"@)
    } else if !m.contains_key("bid_size"@) {
        Some("bid_size"@)
    } else if !m.contains_key("ask"@) {
        Some("ask"@)
    } else if !m.contains_key("ask_size"@) {
        Some("ask_size"@)
    } else if !m.contains_key("contract_id"@) {
        Some("contract_id"@)
    } else if !m.contains_key("contract_type"@) {
        Some("contract_type"@)
    } else if !m.contains_key("clock"@) {
        Some("clock"@)
    } else {
        None
    }
}

/// The first member of a heartbeat, in the order of its fields, that the
/// document `text` lacks as an unsigned integer.
pub open spec fn heartbeat_missing(text: Seq<char>) -> Option<Seq<char>> {
    let m = json_u64_members(text);
    if !m.contains_key("timestamp"@) {
        Some("timestamp"@)
    } else if !m.contains_key("ticks"@) {
        Some("ticks"@)
    } else if !m.contains_key("run_id"@) {
        Some("run_id"@)
    } else if !m.contains_key("interval_ms"@) {
        Some("interval_ms"@)
    } else {
        None
    }
}

/// The error that decoding `text` as a book top gives, where it fails.
pub open spec fn book_top_error(e: WebSocketError, text: Seq<char>) -> bool {
    if !json_accepts(text) {
        rejection_error(e, text)
    } else {
        member_error(e, text, book_top_missing(text)->0)
    }
}

/// The error that decoding `text` as a heartbeat gives, where it fails.
pub open spec fn heartbeat_error(e: WebSocketError, text: Seq<char>) -> bool {
    if !json_accepts(text) {
        rejection_error(e, text)
    } else {
        member_error(e, text, heartbeat_missing(text)->0)
    }
}

/// Parses `text` as JSON, turning a syntax failure into a parsing error.
fn document(text: &str) -> (r: Result<serde_json::Value, WebSocketError>)
    ensures
        r is Ok <==> json_accepts(text@),
        r is Ok ==> crate::json::value_u64_members(r->Ok_0) == json_u64_members(text@),
        r is Err ==> rejection_error(r->Err_0, text@),
{
    match parse_document(text) {
        Ok(v) => Ok(v),
        Err(e) => Err(WebSocketError::MsgParsing(error_message(&e), error_line(&e), error_column(&e))),
    }
}

/// The unsigned integer member `key` of `v`, parsed from `text`, or a parsing
/// error naming it, placed at the end of `text`.
fn member(text: &str, v: &serde_json::Value, key: &str) -> (r: Result<u64, WebSocketError>)
    ensures
        r is Ok <==> crate::json::value_u64_members(*v).contains_key(key@),
        r is Ok ==> r->Ok_0 == crate::json::value_u64_members(*v)[key@],
        r is Err ==> member_error(r->Err_0, text@, key@),
{
    match u64_member(v, key) {
        Some(x) => Ok(x),
        None => {
            let mut msg = String::from_str("missing or non-integer field `");
            msg.append(key);
            msg.append("`");
            let (line, column) = end_position(text);
            Err(WebSocketError::MsgParsing(msg, line, column))
        },
    }
}

impl RawBookTop {
    /// Decodes a book top from a JSON text payload.
    pub fn parse(text: &str) -> (r: Result<RawBookTop, WebSocketError>)
        ensures
            r is Ok <==> book_top_fields(text@),
            r is Ok ==> r->Ok_0 == book_top_of(text@),
            r is Err ==> book_top_error(r->Err_0, text@),
    {
        let v = document(text)?;
        let bid = member(text, &v, "bid")?;
        let bid_size = member(text, &v, "bid_size")?;
        let ask = member(text, &v, "ask")?;
        let ask_size = member(text, &v, "ask_size")?;
        let contract_id = member(text, &v, "contract_id")?;
        let contract_type = member(text, &v, "contract_type")?;
        let clock = member(text, &v, "clock")?;
        Ok(RawBookTop { bid, bid_size, ask, ask_size, contract_id, contract_type, clock })
    }
}

impl RawHeartbeat {
    /// Decodes a heartbeat from a JSON text payload.
    pub fn parse(text: &str) -> (r: Result<RawHeartbeat, WebSocketError>)
        ensures
            r is Ok <==> heartbeat_fields(text@),
            r is Ok ==> r->Ok_0 == heartbeat_of(text@),
            r is Err ==> heartbeat_error(r->Err_0, text@),
    {
        let v = document(text)?;
        let timestamp = member(text, &v, "timestamp")?;
        let ticks = member(text, &v, "ticks")?;
        let run_id = member(text, &v, "run_id")?;
        let interval_ms = member(text, &v, "interval_ms")?;
        Ok(RawHeartbeat { timestamp, ticks, run_id, interval_ms })
    }
}

/// Whether decoding a text payload can succeed: of the tags it contains, the
/// one that comes first in the order book top, heartbeat, unauthenticated
/// success decides, and a book top or heartbeat must have all its fields.
pub open spec fn text_decodes(s: Seq<char>) -> bool {
    if contains_text(s, book_top_tag()) {
        book_top_fields(s)
    } else if contains_text(s, heartbeat_tag()) {
        heartbeat_fields(s)
    } else {
        contains_text(s, unauth_success_tag())
    }
}

/// The event that a text payload decodes to, where decoding succeeds.
pub open spec fn text_event(s: Seq<char>) -> WebSocketMsg {
    if contains_text(s, book_top_tag()) {
        WebSocketMsg::BookTop(book_top_of(s).sanitized())
    } else if contains_text(s, heartbeat_tag()) {
        WebSocketMsg::HeartBeat(heartbeat_of(s))
    } else {
        WebSocketMsg::UnAuthSuccess
    }
}

/// `e` is the event that the frame `m` decodes to: a ping carries the same
/// bytes, a pong none, a text payload what `text_event` gives.
pub open spec fn is_event_of(m: WireMessage, e: WebSocketMsg) -> bool {
    match m {
        WireMessage::Text(s) => e == text_event(s@),
        WireMessage::Ping(d) => e matches WebSocketMsg::Ping(p) && p@ == d@,
        _ => e is Pong,
    }
}

/// Whether a frame decodes to an event.
pub open spec fn frame_decodes(m: WireMessage) -> bool {
    match m {
        WireMessage::Text(s) => text_decodes(s@),
        WireMessage::Ping(_) | WireMessage::Pong(_) => true,
        _ => false,
    }
}

/// What decoding a frame gives back: the event, or an error of the kind that
/// the frame calls for.
pub open spec fn parse_result(m: WireMessage, r: Result<WebSocketMsg, WebSocketError>) -> bool {
    &&& r is Ok <==> frame_decodes(m)
    &&& r is Ok ==> is_event_of(m, r->Ok_0)
    &&& r is Err ==> match m {
        WireMessage::Text(s) => if contains_text(s@, book_top_tag()) {
            book_top_error(r->Err_0, s@)
        } else if contains_text(s@, heartbeat_tag()) {
            heartbeat_error(r->Err_0, s@)
        } else if contains_text(s@, meta_tag()) {
            r->Err_0 == WebSocketError::UnsupportedMsgType(s)
        } else {
            r->Err_0 == WebSocketError::UnknownMsgType(s)
        },
        _ => r->Err_0 is UnimplementedFrame,
    }
}

fn copy_bytes(d: &Vec<u8>) -> (r: Vec<u8>)
    ensures
        r@ == d@,
{
    let mut out: Vec<u8> = Vec::new();
    let mut i: usize = 0;
    while i < d.len()
        invariant
            i <= d@.len(),
            out@ == d@.subrange(0, i as int),
        decreases d@.len() - i,
    {
        out.push(d[i]);
        i += 1;
    }
    assert(out@ =~= d@);
    out
}

/// Decodes frames into events.
pub struct WebSocketMsgParser();

impl WebSocketMsgParser {
    /// Decodes one frame. A text payload is classified by the first quoted
    /// type tag it contains, in the order `"book_top"`, `"heartbeat"`,
    /// `"unauth_success"`, `"meta"`; control frames decode directly.
    pub fn parse(msg: &WireMessage) -> (r: Result<WebSocketMsg, WebSocketError>)
        ensures
            parse_result(*msg, r),
    {
        match msg {
            WireMessage::Text(s) => {
                if contains(s.as_str(), "\"book_top\"") {
                    let raw = RawBookTop::parse(s.as_str())?;
                    Ok(WebSocketMsg::BookTop(raw.sanitize()))
                } else if contains(s.as_str(), "\"heartbeat\"") {
                    let hb = RawHeartbeat::parse(s.as_str())?;
                    Ok(WebSocketMsg::HeartBeat(hb))
                } else if contains(s.as_str(), "\"unauth_success\"") {
                    Ok(WebSocketMsg::UnAuthSuccess)
                } else if contains(s.as_str(), "\"meta\"") {
                    Err(WebSocketError::UnsupportedMsgType(s.clone()))
                } else {
                    Err(WebSocketError::UnknownMsgType(s.clone()))
                }
            },
            WireMessage::Ping(d) => Ok(WebSocketMsg::Ping(copy_bytes(d))),
            WireMessage::Pong(_) => Ok(WebSocketMsg::Pong),
            _ => Err(WebSocketError::UnimplementedFrame),
        }
    }
}

/// What the connection does with one received frame: the event to hand to
/// the caller, and the payload of a pong to send back first, if any.
#[derive(Debug)]
pub struct Step {
    pub event: Result<WebSocketMsg, WebSocketError>,
    pub reply: Option<Vec<u8>>,
}

/// The state that a market-data connection keeps between frames.
pub struct ClientState {
    pub endpoint: String,
    /// Reserved for liveness enforcement; no behaviour depends on it yet.
    pub exhaustion_counter: u64,
    /// Reserved for ordering checks on book updates; no behaviour depends on it yet.
    pub last_clock: u64,
}

impl ClientState {
    pub fn new(endpoint: String) -> (r: ClientState)
        ensures
            r.endpoint@ == endpoint@,
            r.exhaustion_counter == 0,
            r.last_clock == 0,
    {
        ClientState { endpoint, exhaustion_counter: 0, last_clock: 0 }
    }

    /// The endpoint that the connection was made to.
    pub fn endpoint(&self) -> (r: &str)
        ensures
            r@ == self.endpoint@,
    {
        self.endpoint.as_str()
    }

    /// Pairs a decoded result with the pong that a ping calls for: the same
    /// bytes, sent back before the ping is handed on.
    fn respond_if_ping(&self, msg: Result<WebSocketMsg, WebSocketError>) -> (r: Step)
        ensures
            r.event == msg,
            r.reply is Some <==> msg matches Ok(WebSocketMsg::Ping(_)),
            msg matches Ok(WebSocketMsg::Ping(p)) ==> r.reply->0@ == p@,
    {
        let reply = match &msg {
            Ok(WebSocketMsg::Ping(data)) => Some(copy_bytes(data)),
            _ => None,
        };
        Step { event: msg, reply }
    }

    /// Handles one received frame: decodes it and, where it is a ping, asks
    /// for a pong that carries exactly the ping's bytes. The ping itself is
    /// still the event handed to the caller.
    pub fn handle_frame(&mut self, frame: &WireMessage) -> (r: Step)
        ensures
            parse_result(*frame, r.event),
            r.reply is Some <==> frame is Ping,
            frame matches WireMessage::Ping(d) ==> {
                &&& r.reply matches Some(q) && q@ == d@
                &&& r.event matches Ok(WebSocketMsg::Ping(p)) && p@ == d@
            },
            *final(self) == *old(self),
    {
        let msg = WebSocketMsgParser::parse(frame);
        self.respond_if_ping(msg)
    }
}

/// Reserved for the order acknowledgments of the authenticated feed.
pub struct RawOrderResponse {}

/// Reserved for full order-book snapshots.
pub struct RawBookState {}

/// Reserved for position lists of the authenticated feed.
pub struct RawPositionList {}

/// A book top payload with all its fields decodes to a book top whose prices
/// are the wire's integers, in hundredths, unchanged.
pub proof fn lemma_book_top_prices(text: Seq<char>)
    requires
        contains_text(text, book_top_tag()),
        book_top_fields(text),
    ensures
        text_decodes(text),
        text_event(text) matches WebSocketMsg::BookTop(bt) && bt.bid == json_u64_members(text)["bid"@]
            && bt.ask == json_u64_members(text)["ask"@],
{
}

} // verus!

use vstd::prelude::*;

verus! {

#[verifier::external_type_specification]
#[verifier::external_body]
pub struct ExJsonValue(serde_json::Value);

#[verifier::external_type_specification]
#[verifier::external_body]
pub struct ExJsonError(serde_json::Error);

/// Whether serde_json accepts `text` as one JSON document.
pub uninterp spec fn json_accepts(text: Seq<char>) -> bool;

/// The members of the top-level object of the document `text` whose value is a
/// number that serde_json holds as an unsigned integer (written without
/// fraction or exponent, in `u64`'s range), by key.
pub uninterp spec fn json_u64_members(text: Seq<char>) -> Map<Seq<char>, u64>;

/// What a parsed document holds: its members that are unsigned integers, by
/// key, as for `json_u64_members`.
pub uninterp spec fn value_u64_members(v: serde_json::Value) -> Map<Seq<char>, u64>;

/// What serde_json reports when it rejects `text` as a document: its
/// message, and the line and column where it found the failure.
pub uninterp spec fn json_rejection(text: Seq<char>) -> (Seq<char>, usize, usize);

/// What an error of serde_json reports: its message, line and column.
pub uninterp spec fn error_report(e: serde_json::Error) -> (Seq<char>, usize, usize);

/// Relies on serde_json::from_str into a `Value`: whether it succeeds, and the
/// error it reports where it does not, depend on the text alone; the parsed
/// document holds the text's members.
#[verifier::external_body]
pub(crate) fn parse_document(text: &str) -> (r: Result<serde_json::Value, serde_json::Error>)
    ensures
        r is Ok <==> json_accepts(text@),
        r is Ok ==> value_u64_members(r->Ok_0) == json_u64_members(text@),
        r is Err ==> error_report(r->Err_0) == json_rejection(text@),
{
    serde_json::from_str::<serde_json::Value>(text)
}

/// Relies on serde_json::Value::get with a string key (the member of an object,
/// `None` otherwise) and Value::as_u64 (the integer of a number in `u64`'s range).
#[verifier::external_body]
pub(crate) fn u64_member(v: &serde_json::Value, key: &str) -> (r: Option<u64>)
    ensures
        r is Some <==> value_u64_members(*v).contains_key(key@),
        r is Some ==> r->0 == value_u64_members(*v)[key@],
{
    v.get(key).and_then(serde_json::Value::as_u64)
}

/// Relies on serde_json::Error's `Display`: a readable description.
#[verifier::external_body]
pub(crate) fn error_message(e: &serde_json::Error) -> (r: String)
    ensures
        r@ == error_report(*e).0,
{
    e.to_string()
}

/// Relies on serde_json::Error::line: the one-based line of the failure.
#[verifier::external_body]
pub(crate) fn error_line(e: &serde_json::Error) -> (r: usize)
    ensures
        r == error_report(*e).1,
{
    e.line()
}

/// Relies on serde_json::Error::column: the column of the failure.
#[verifier::external_body]
pub(crate) fn error_column(e: &serde_json::Error) -> (r: usize)
    ensures
        r == error_report(*e).2,
{
    e.column()
}

} // verus!

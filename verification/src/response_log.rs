//! The JSON response log: one file holding a pretty-printed JSON array of
//! records, rewritten in full on every append.
//!
//! The caller reads the log file (or finds none) and hands the raw content
//! over; this module decides the base sequence — the parsed array if the
//! content is a well-formed JSON array, the empty sequence otherwise —
//! appends the new record at the end, and renders the whole array back to
//! text for the caller to write. A missing or malformed log is silent
//! recovery, never an error, and rendering an array of JSON values never
//! fails.

use vstd::prelude::*;

verus! {

/// `serde_json::Value`, the parsed form of one logged record. Opaque here:
/// records are appended in order, never inspected.
#[verifier::external_type_specification]
#[verifier::external_body]
pub struct ExValue(serde_json::Value);

/// What parsing `text` as a JSON array of values yields: the element
/// sequence if the text is such an array, nothing otherwise. The parse
/// depends on the text alone.
pub uninterp spec fn parsed_log(text: Seq<char>) -> Option<Seq<serde_json::Value>>;

/// The pretty-printed JSON text of an array of records; it depends on the
/// records alone.
pub uninterp spec fn pretty_log_text(records: Seq<serde_json::Value>) -> Seq<char>;

/// Relies on serde_json::from_str::<Vec<Value>>: whether the text parses as
/// a JSON array, and as which elements, is a function of the text alone.
#[verifier::external_body]
fn parse_log_text(content: &str) -> (r: Option<Vec<serde_json::Value>>)
    ensures
        match r {
            Option::Some(records) => parsed_log(content@) == Option::Some(records@),
            Option::None => parsed_log(content@) is None,
        },
{
    serde_json::from_str::<Vec<serde_json::Value>>(content).ok()
}

/// Relies on serde_json::to_string_pretty::<Vec<Value>>: the pretty-printed
/// text is a function of the values alone, and serializing JSON values
/// cannot fail — the documented failure causes are a failing `Serialize`
/// implementation or a map with non-string keys, and JSON values serialize
/// through string-keyed maps and finite numbers, so the `expect` never
/// fires.
#[verifier::external_body]
fn render_log_text(records: &Vec<serde_json::Value>) -> (r: String)
    ensures
        r@ == pretty_log_text(records@),
{
    serde_json::to_string_pretty(records).expect("serializing JSON values cannot fail")
}

/// The view of the log file content as the caller found it: the text if the
/// file could be read, nothing if it was absent or unreadable.
pub open spec fn content_view(existing: Option<&str>) -> Option<Seq<char>> {
    match existing {
        Option::Some(s) => Option::Some(s@),
        Option::None => Option::None,
    }
}

/// The base sequence an append starts from: the parsed array when the file
/// was present and well-formed, the empty sequence otherwise.
pub open spec fn base_records(content: Option<Seq<char>>) -> Seq<serde_json::Value> {
    match content {
        Option::Some(text) => match parsed_log(text) {
            Option::Some(records) => records,
            Option::None => Seq::empty(),
        },
        Option::None => Seq::empty(),
    }
}

/// What one append leaves in the log: the base sequence with the new record
/// at the end.
pub open spec fn appended_records(content: Option<Seq<char>>, record: serde_json::Value) -> Seq<
    serde_json::Value,
> {
    base_records(content).push(record)
}

/// A base taken from a malformed log equals a base taken from no log at
/// all: both are empty, so the rewritten file holds exactly the one new
/// record either way.
pub proof fn lemma_malformed_log_like_absent(text: Seq<char>, record: serde_json::Value)
    requires
        parsed_log(text) is None,
    ensures
        base_records(Option::Some(text)) == base_records(Option::None),
        appended_records(Option::Some(text), record) =~= seq![record],
{
}

/// Appends compose in turn order, so far as rewritten text parses back: if
/// the log file holds text that parses as the records `prior`, an append
/// that starts from that text starts from exactly those records and puts
/// its own record at the end. Over a session whose rewritten logs stay
/// well-formed, each turn's record therefore lands after all earlier ones.
pub proof fn lemma_appends_compose(
    text: Seq<char>,
    prior: Seq<serde_json::Value>,
    record: serde_json::Value,
)
    requires
        parsed_log(text) == Option::Some(prior),
    ensures
        appended_records(Option::Some(text), record) == prior.push(record),
{
}

/// One append to the response log. `existing` is the log file content as
/// found (or nothing, for an absent or unreadable file); the result is the
/// full new file text: the prior array — empty if the content was absent or
/// not a JSON array — with `record` appended, order preserved, rendered
/// pretty-printed.
pub fn update_json_data(existing: Option<&str>, record: serde_json::Value) -> (r: String)
    ensures
        r@ == pretty_log_text(appended_records(content_view(existing), record)),
{
    let mut records: Vec<serde_json::Value> = match existing {
        Option::Some(content) => match parse_log_text(content) {
            Option::Some(parsed) => parsed,
            Option::None => Vec::new(),
        },
        Option::None => Vec::new(),
    };
    records.push(record);
    proof {
        assert(records@ =~= appended_records(content_view(existing), record));
    }
    render_log_text(&records)
}

} // verus!

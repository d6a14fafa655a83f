//! The JSON operations the engine relies on, done by `serde_json`.
use vstd::prelude::*;
use crate::text::views;

verus! {

/// What `serde_json` makes of `text` when it is read as a JSON array: the
/// JSON text of each item, in order; `None` when `text` is not JSON or not
/// an array.
pub uninterp spec fn json_array_item_texts(text: Seq<char>) -> Option<Seq<Seq<char>>>;

/// `text` re-printed by `serde_json::to_string_pretty`; `None` when `text`
/// is not JSON.
pub uninterp spec fn json_pretty_text(text: Seq<char>) -> Option<Seq<char>>;

/// The lower-case hexadecimal digit of `n` (below 16).
pub open spec fn hex_digit(n: u32) -> char {
    seq!['0', '1', '2', '3', '4', '5', '6', '7', '8', '9', 'a', 'b', 'c', 'd', 'e', 'f'][n as int]
}

/// How a character is written inside a JSON string: the quote and the
/// backslash after a backslash, the control characters with a short escape
/// where JSON has one and as `\u00XX` otherwise, every other character as
/// itself.
pub open spec fn json_char_escape(c: char) -> Seq<char> {
    if c == '"' {
        seq!['\\', '"']
    } else if c == '\\' {
        seq!['\\', '\\']
    } else if c == '\u{8}' {
        seq!['\\', 'b']
    } else if c == '\t' {
        seq!['\\', 't']
    } else if c == '\n' {
        seq!['\\', 'n']
    } else if c == '\u{c}' {
        seq!['\\', 'f']
    } else if c == '\r' {
        seq!['\\', 'r']
    } else if (c as u32) < 0x20 {
        seq!['\\', 'u', '0', '0', hex_digit((c as u32) / 16), hex_digit((c as u32) % 16)]
    } else {
        seq![c]
    }
}

/// The characters of `s`, each written as inside a JSON string.
pub open spec fn json_escaped(s: Seq<char>) -> Seq<char>
    decreases s.len(),
{
    if s.len() == 0 {
        seq![]
    } else {
        json_escaped(s.drop_last()) + json_char_escape(s.last())
    }
}

/// The JSON string literal that `serde_json` writes for `s`: `s` escaped,
/// between double quotes.
pub open spec fn json_string_literal(s: Seq<char>) -> Seq<char> {
    seq!['"'] + json_escaped(s) + seq!['"']
}

/// Reads `text` with `serde_json::from_str` as a `serde_json::Value`; when it
/// is an array, gives the `to_string` of each item. Claimed: the result is
/// `json_array_item_texts(text)`, a function of `text` alone.
#[verifier::external_body]
pub(crate) fn parse_json_array(text: &str) -> (r: Option<Vec<String>>)
    ensures
        match r {
            Some(v) => json_array_item_texts(text@) == Some(views(v@)),
            None => json_array_item_texts(text@) is None,
        },
{
    match serde_json::from_str::<serde_json::Value>(text) {
        Ok(serde_json::Value::Array(items)) => {
            let mut out = Vec::new();
            for item in items.iter() {
                out.push(item.to_string());
            }
            Some(out)
        },
        _ => None,
    }
}

/// Reads `text` with `serde_json::from_str` and writes the value back with
/// `serde_json::to_string_pretty` (keeping `text` should that write fail).
/// Claimed: the result is `json_pretty_text(text)`, a function of `text` alone.
#[verifier::external_body]
pub(crate) fn pretty_json(text: &str) -> (r: Option<String>)
    ensures
        opt_text(r) == json_pretty_text(text@),
{
    match serde_json::from_str::<serde_json::Value>(text) {
        Ok(v) => Some(serde_json::to_string_pretty(&v).unwrap_or_else(|_| text.to_string())),
        Err(_) => None,
    }
}

/// Writes `s` as a JSON string with `serde_json` (the `to_string` of a
/// `serde_json::Value::String`). Claimed: the result is
/// `json_string_literal(s)`, as the escape table of `serde_json`'s
/// serializer gives it (`ESCAPE` and `write_char_escape` in `ser.rs`).
#[verifier::external_body]
pub(crate) fn quote_json(s: &str) -> (r: String)
    ensures
        r@ == json_string_literal(s@),
{
    serde_json::Value::String(s.to_string()).to_string()
}

/// What the server reads of one node of a stored workflow: the `id` when it
/// is a JSON string, and the JSON text of `type` and of `config` when the
/// node has them.
pub struct NodeFields {
    pub id: Option<String>,
    pub node_type: Option<String>,
    pub config: Option<String>,
}

/// The fields of a node, as texts.
pub open spec fn node_fields_view(n: NodeFields) -> (Option<Seq<char>>, Option<Seq<char>>, Option<Seq<char>>) {
    (opt_text(n.id), opt_text(n.node_type), opt_text(n.config))
}

/// What `serde_json` reads of the nodes of a stored workflow (`text`, a JSON
/// array): the fields of each node, in order; no node when `text` is not a
/// JSON array.
pub uninterp spec fn json_node_fields(text: Seq<char>) -> Seq<(Option<Seq<char>>, Option<Seq<char>>, Option<Seq<char>>)>;

/// Reads `text` with `serde_json::from_str` as a list of
/// `serde_json::Value` (none when that fails) and, of each, takes the
/// string of `id` (`get` and `as_str`) and the `to_string` of `type` and of
/// `config`. Claimed: the result is `json_node_fields(text)`, a function of
/// `text` alone.
#[verifier::external_body]
pub(crate) fn parse_node_fields(text: &str) -> (r: Vec<NodeFields>)
    ensures
        r@.map_values(|n: NodeFields| node_fields_view(n)) == json_node_fields(text@),
{
    let nodes: Vec<serde_json::Value> = serde_json::from_str(text).unwrap_or_default();
    nodes
        .iter()
        .map(|n| NodeFields {
            id: n.get("id").and_then(|v| v.as_str()).map(|v| v.to_string()),
            node_type: n.get("type").map(|v| v.to_string()),
            config: n.get("config").map(|v| v.to_string()),
        })
        .collect()
}

/// What `serde_json` reads of the field `key` of the JSON text `text`: `None`
/// when `text` is not JSON; else the field's string, or `None` inside when
/// the value is not an object, lacks the field, or the field is no string.
pub uninterp spec fn json_str_field(text: Seq<char>, key: Seq<char>) -> Option<Option<Seq<char>>>;

/// The view of an optional optional text.
pub open spec fn opt_opt_text(o: Option<Option<String>>) -> Option<Option<Seq<char>>> {
    match o {
        Some(inner) => Some(opt_text(inner)),
        None => None,
    }
}

/// Reads `text` with `serde_json::from_str` as a `serde_json::Value` and
/// takes the string of its field `key` (`get` and `as_str`). Claimed: the
/// result is `json_str_field(text, key)`, a function of both alone.
#[verifier::external_body]
pub(crate) fn read_str_field(text: &str, key: &str) -> (r: Option<Option<String>>)
    ensures
        opt_opt_text(r) == json_str_field(text@, key@),
{
    match serde_json::from_str::<serde_json::Value>(text) {
        Ok(v) => Some(v.get(key).and_then(|f| f.as_str()).map(|f| f.to_string())),
        Err(_) => None,
    }
}

/// What `serde_json` reads of the field `key` of the JSON text `text`: `None`
/// when `text` is not JSON; else the JSON text of the field's value, or
/// `None` inside when the value is not an object or lacks the field.
pub uninterp spec fn json_field_text(text: Seq<char>, key: Seq<char>) -> Option<Option<Seq<char>>>;

/// Reads `text` with `serde_json::from_str` as a `serde_json::Value` and
/// takes the `to_string` of its field `key` (`get`). Claimed: the result is
/// `json_field_text(text, key)`, a function of both alone.
#[verifier::external_body]
pub(crate) fn read_field_text(text: &str, key: &str) -> (r: Option<Option<String>>)
    ensures
        opt_opt_text(r) == json_field_text(text@, key@),
{
    match serde_json::from_str::<serde_json::Value>(text) {
        Ok(v) => Some(v.get(key).map(|f| f.to_string())),
        Err(_) => None,
    }
}

/// The view of an optional text.
pub open spec fn opt_text(o: Option<String>) -> Option<Seq<char>> {
    match o {
        Some(s) => Some(s@),
        None => None,
    }
}

} // verus!

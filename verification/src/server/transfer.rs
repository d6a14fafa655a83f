//! Importing workflows and agents, and the activity feed's latest log line.
use vstd::prelude::*;
use crate::engine::model::text_or;
use crate::json::{
    json_array_item_texts, json_field_text, json_str_field, opt_text, parse_json_array, read_field_text,
    read_str_field,
};

verus! {

/// The string field `key` of the JSON text `item`, if it has one.
pub open spec fn str_field(item: Seq<char>, key: Seq<char>) -> Option<Seq<char>> {
    match json_str_field(item, key) {
        Some(Some(v)) => Some(v),
        _ => None,
    }
}

/// The JSON text of the field `key` of the JSON text `item`, if it has one.
pub open spec fn field_text(item: Seq<char>, key: Seq<char>) -> Option<Seq<char>> {
    match json_field_text(item, key) {
        Some(Some(v)) => Some(v),
        _ => None,
    }
}

fn string_field(item: &str, key: &str) -> (r: Option<String>)
    ensures
        opt_text(r) == str_field(item@, key@),
{
    match read_str_field(item, key) {
        Some(Some(v)) => Some(v),
        _ => None,
    }
}

fn json_field(item: &str, key: &str) -> (r: Option<String>)
    ensures
        opt_text(r) == field_text(item@, key@),
{
    match read_field_text(item, key) {
        Some(Some(v)) => Some(v),
        _ => None,
    }
}

/// A workflow to import; nodes and edges as JSON text.
pub struct ImportedWorkflow {
    pub id: String,
    pub name: String,
    pub description: Option<String>,
    pub nodes: String,
    pub edges: String,
}

/// An agent to import.
pub struct ImportedAgent {
    pub id: String,
    pub name: String,
    pub description: Option<String>,
    pub model: Option<String>,
}

/// A workflow of an export (the JSON text `item`) as it is imported: its
/// `id` and `name` strings, else `imported` and `Imported`; its description
/// string if any; its nodes and edges, else empty lists.
pub fn imported_workflow(item: &str) -> (w: ImportedWorkflow)
    ensures
        w.id@ == text_or(str_field(item@, "id"@), "imported"@),
        w.name@ == text_or(str_field(item@, "name"@), "Imported"@),
        opt_text(w.description) == str_field(item@, "description"@),
        w.nodes@ == text_or(field_text(item@, "nodes"@), "[]"@),
        w.edges@ == text_or(field_text(item@, "edges"@), "[]"@),
{
    ImportedWorkflow {
        id: match string_field(item, "id") {
            Some(v) => v,
            None => "imported".to_owned(),
        },
        name: match string_field(item, "name") {
            Some(v) => v,
            None => "Imported".to_owned(),
        },
        description: string_field(item, "description"),
        nodes: match json_field(item, "nodes") {
            Some(v) => v,
            None => "[]".to_owned(),
        },
        edges: match json_field(item, "edges") {
            Some(v) => v,
            None => "[]".to_owned(),
        },
    }
}

/// A single workflow imported from the JSON text `body` under the new id
/// `id`: as `imported_workflow`, but named `Imported Workflow` when it has
/// no name.
pub fn single_import(id: String, body: &str) -> (w: ImportedWorkflow)
    ensures
        w.id@ == id@,
        w.name@ == text_or(str_field(body@, "name"@), "Imported Workflow"@),
        opt_text(w.description) == str_field(body@, "description"@),
        w.nodes@ == text_or(field_text(body@, "nodes"@), "[]"@),
        w.edges@ == text_or(field_text(body@, "edges"@), "[]"@),
{
    let w = imported_workflow(body);
    ImportedWorkflow {
        id,
        name: match string_field(body, "name") {
            Some(v) => v,
            None => "Imported Workflow".to_owned(),
        },
        description: w.description,
        nodes: w.nodes,
        edges: w.edges,
    }
}

/// An agent of an export (the JSON text `item`) as it is imported: its `id`
/// and `name` strings, else `imported` and `Imported`; its description and
/// model strings if any.
pub fn imported_agent(item: &str) -> (a: ImportedAgent)
    ensures
        a.id@ == text_or(str_field(item@, "id"@), "imported"@),
        a.name@ == text_or(str_field(item@, "name"@), "Imported"@),
        opt_text(a.description) == str_field(item@, "description"@),
        opt_text(a.model) == str_field(item@, "model"@),
{
    ImportedAgent {
        id: match string_field(item, "id") {
            Some(v) => v,
            None => "imported".to_owned(),
        },
        name: match string_field(item, "name") {
            Some(v) => v,
            None => "Imported".to_owned(),
        },
        description: string_field(item, "description"),
        model: string_field(item, "model"),
    }
}

/// The latest line of a run's log: the last item of the JSON array
/// `logs_json`; `None` when it is empty or not an array.
pub fn latest_log(logs_json: &str) -> (r: Option<String>)
    ensures
        opt_text(r) == match json_array_item_texts(logs_json@) {
            Some(items) => if items.len() > 0 { Some(items.last()) } else { None },
            None => None,
        },
{
    match parse_json_array(logs_json) {
        Some(items) => {
            if items.len() > 0 {
                Some(items[items.len() - 1].clone())
            } else {
                None
            }
        },
        None => None,
    }
}

} // verus!

//! The prompts the server sends to the model, and reading its answers.
use vstd::prelude::*;
use crate::text::{
    join2, join3, join4, same_text, trim, trim_end_matches, trim_end_matches_text, trim_start_matches,
    trim_start_matches_text, trim_text,
};
use crate::engine::model::text_or;
use crate::json::{json_node_fields, node_fields_view, parse_node_fields, NodeFields};

verus! {

/// A message for an agent.
pub struct ChatRequest {
    pub message: String,
}

/// A description of a workflow to draft.
pub struct ArchitectRequest {
    pub prompt: String,
}

/// A request to suggest a fix for a node of a run.
pub struct HealRequest {
    pub run_id: String,
    pub node_id: String,
}

/// The node that a heal request is about, among the fields of the nodes of
/// a stored workflow: the JSON text of the type and of the configuration of
/// the first node whose id is `node_id`, or `"unknown"` and `"{}"` (as JSON
/// strings) where the node lacks them; `None` when no node has that id.
pub open spec fn heal_target_of(
    nodes: Seq<(Option<Seq<char>>, Option<Seq<char>>, Option<Seq<char>>)>,
    node_id: Seq<char>,
) -> Option<(Seq<char>, Seq<char>)>
    decreases nodes.len(),
{
    if nodes.len() == 0 {
        None
    } else if nodes[0].0 == Some(node_id) {
        Some((text_or(nodes[0].1, "\"unknown\""@), text_or(nodes[0].2, "\"{}\""@)))
    } else {
        heal_target_of(nodes.drop_first(), node_id)
    }
}

/// The view of an optional pair of texts.
pub open spec fn pair_view(r: Option<(String, String)>) -> Option<(Seq<char>, Seq<char>)> {
    match r {
        Some((a, b)) => Some((a@, b@)),
        None => None,
    }
}

/// The type and configuration (as JSON text) of the node `node_id` of the
/// workflow whose nodes are stored as `nodes_json` (see `heal_target_of`).
pub fn heal_target(nodes_json: &str, node_id: &str) -> (r: Option<(String, String)>)
    ensures
        pair_view(r) == heal_target_of(json_node_fields(nodes_json@), node_id@),
{
    let nodes = parse_node_fields(nodes_json);
    let ghost fv = nodes@.map_values(|n: NodeFields| node_fields_view(n));
    let mut i: usize = 0;
    assert(fv.skip(0) =~= fv);
    while i < nodes.len()
        invariant
            fv == nodes@.map_values(|n: NodeFields| node_fields_view(n)),
            fv == json_node_fields(nodes_json@),
            0 <= i <= nodes@.len(),
            heal_target_of(fv, node_id@) == heal_target_of(fv.skip(i as int), node_id@),
        decreases nodes@.len() - i,
    {
        let n = &nodes[i];
        let ghost rest = fv.skip(i as int);
        assert(rest[0] == node_fields_view(*n));
        assert(rest.drop_first() =~= fv.skip(i + 1));
        let matched = match &n.id {
            Some(id) => same_text(id.as_str(), node_id),
            None => false,
        };
        if matched {
            let t = match &n.node_type {
                Some(t) => t.clone(),
                None => "\"unknown\"".to_owned(),
            };
            let c = match &n.config {
                Some(c) => c.clone(),
                None => "\"{}\"".to_owned(),
            };
            return Some((t, c));
        }
        i = i + 1;
    }
    None
}

/// The type an agent gets when none is given.
pub fn default_agent_type() -> (s: String)
    ensures
        s@ == "llm"@,
{
    "llm".to_owned()
}

/// The model an agent uses when it names none.
pub fn agent_model(model: Option<String>) -> (s: String)
    ensures
        s@ == match model {
            Some(m) => m@,
            None => "llama3.2"@,
        },
{
    match model {
        Some(m) => m,
        None => "llama3.2".to_owned(),
    }
}

/// The system prompt of an agent that has none.
pub fn agent_system_prompt(prompt: Option<String>) -> (s: String)
    ensures
        s@ == match prompt {
            Some(p) => p@,
            None => "You are a helpful assistant."@,
        },
{
    match prompt {
        Some(p) => p,
        None => "You are a helpful assistant.".to_owned(),
    }
}

/// The prompt for a chat with an agent.
pub fn chat_prompt(system_prompt: &str, req: &ChatRequest) -> (s: String)
    ensures
        s@ == system_prompt@ + "\n\nUser: "@ + req.message@ + "\nAgent:"@,
{
    join4(system_prompt, "\n\nUser: ", req.message.as_str(), "\nAgent:")
}

/// The stand-in answer of a chat when the model cannot be reached.
pub fn mocked_chat_response(req: &ChatRequest) -> (s: String)
    ensures
        s@ == "[Mocked locally] "@ + req.message@,
{
    join2("[Mocked locally] ", req.message.as_str())
}

/// The instructions that ask the model to draft a workflow.
pub const ARCHITECT_INSTRUCTIONS: &'static str = "You are the Mermaduckle AI Architect. Your task is to generate a valid JSON workflow graph based on a user description.
    Respond ONLY with a JSON object containing 'nodes' and 'edges' arrays. 
    Node types: 'trigger', 'agent', 'condition', 'approval', 'action'.
    Each node MUST have: 'id', 'type', 'data' { 'label', 'description' }, 'position' { 'x', 'y' }.
    Edges MUST have: 'id', 'source', 'target'.
    
    Example:
    {
      \"nodes\": [
        {\"id\": \"start\", \"type\": \"trigger\", \"data\": {\"label\": \"Start\"}, \"position\": {\"x\": 0, \"y\": 0}},
        {\"id\": \"n1\", \"type\": \"agent\", \"data\": {\"label\": \"AI Agent\"}, \"position\": {\"x\": 200, \"y\": 0}}
      ],
      \"edges\": [
        {\"id\": \"e1\", \"source\": \"start\", \"target\": \"n1\"}
      ]
    }";

/// The prompt that asks the model to draft the workflow described in `req`.
pub fn architect_prompt(req: &ArchitectRequest) -> (s: String)
    ensures
        s@ == ARCHITECT_INSTRUCTIONS@ + " \n\n User Prompt: "@ + req.prompt@,
{
    join3(ARCHITECT_INSTRUCTIONS, " \n\n User Prompt: ", req.prompt.as_str())
}

/// The instructions that ask the model to suggest a fix.
pub const HEAL_INSTRUCTIONS: &'static str = "You are the Mermaduckle Self-Healing Oracle. 
    Analyze the provided execution logs and the current node configuration. 
    Suggest a 'patched_config' (JSON) that resolves the error and provide a 'suggestion' (text) explaining why.
    Output ONLY valid JSON.
    Example output format: {\"suggestion\": \"Increase timeout\", \"patched_config\": {\"timeout\": \"60s\"}}";

/// What the model is told of the node to fix: its type and configuration (as
/// JSON text) and the run's logs.
pub fn heal_context(node_type: &str, config: &str, logs: &str) -> (s: String)
    ensures
        s@ == "
        Node Type: "@ + node_type@ + "
        Current Config: "@ + config@ + "
        Logs: "@ + logs@ + "
    "@,
{
    let a = join4("
        Node Type: ", node_type, "
        Current Config: ", config);
    join4(a.as_str(), "
        Logs: ", logs, "
    ")
}

/// The prompt that asks the model to suggest a fix, given `context`.
pub fn heal_prompt(context: &str) -> (s: String)
    ensures
        s@ == HEAL_INSTRUCTIONS@ + " \n\n Analysis Context: "@ + context@,
{
    join3(HEAL_INSTRUCTIONS, " \n\n Analysis Context: ", context)
}

/// A model answer without a Markdown code fence: every leading "```json"
/// and every trailing "```" removed, then white space.
pub open spec fn unfenced(answer: Seq<char>) -> Seq<char> {
    trim(trim_end_matches(trim_start_matches(answer, "```json"@), "```"@))
}

/// A model answer without a Markdown code fence (see `unfenced`).
pub fn strip_code_fence(answer: &str) -> (s: String)
    ensures
        s@ == unfenced(answer@),
{
    proof {
        reveal_strlit("```json");
        reveal_strlit("```");
    }
    let a = trim_start_matches_text(answer, "```json");
    let b = trim_end_matches_text(a.as_str(), "```");
    trim_text(b.as_str())
}

} // verus!

//! The workflow graph: nodes, edges and node configuration.
use vstd::prelude::*;
use crate::text::{eq_ignore_ascii_case, same_ignoring_ascii_case, same_text};

verus! {

/// A configuration value, as far as the engine reads it: text, a
/// non-negative integer, a list (each item kept as its JSON text), or
/// anything else.
pub enum ConfigValue {
    Text(String),
    Count(u64),
    List(Vec<String>),
    Other,
}

/// One key of a node's configuration.
pub struct ConfigEntry {
    pub key: String,
    pub value: ConfigValue,
}

/// The presentation data of a node, which may override its type, label and
/// configuration.
pub struct NodeData {
    pub label: Option<String>,
    pub node_type: Option<String>,
    pub description: Option<String>,
    pub icon: Option<String>,
    pub config: Option<Vec<ConfigEntry>>,
}

/// A node of a workflow graph.
pub struct WorkflowNode {
    pub id: String,
    pub node_type: String,
    pub config: Vec<ConfigEntry>,
    pub data: Option<NodeData>,
}

/// A directed edge of a workflow graph.
pub struct WorkflowEdge {
    pub id: String,
    pub source: String,
    pub target: String,
    pub label: Option<String>,
    pub animated: Option<bool>,
}

/// A workflow graph.
pub struct Workflow {
    pub nodes: Vec<WorkflowNode>,
    pub edges: Vec<WorkflowEdge>,
}

// ── Specifications ────────────────────────────────────────

/// The view of an optional text.
pub open spec fn opt_view(o: Option<String>) -> Option<Seq<char>> {
    match o {
        Some(s) => Some(s@),
        None => None,
    }
}

/// `o`, or `d` when it is absent.
pub open spec fn text_or(o: Option<Seq<char>>, d: Seq<char>) -> Seq<char> {
    match o {
        Some(s) => s,
        None => d,
    }
}

/// The type of a node: the one in its data if given there, else its own.
pub open spec fn node_type_of(n: WorkflowNode) -> Seq<char> {
    match n.data {
        Some(d) => match d.node_type {
            Some(t) => t@,
            None => n.node_type@,
        },
        None => n.node_type@,
    }
}

/// The configuration of a node: the one in its data if given there, else its own.
pub open spec fn node_config_of(n: WorkflowNode) -> Seq<ConfigEntry> {
    match n.data {
        Some(d) => match d.config {
            Some(c) => c@,
            None => n.config@,
        },
        None => n.config@,
    }
}

/// The label of a node: the one in its data if given there, else its id.
pub open spec fn node_label_of(n: WorkflowNode) -> Seq<char> {
    match n.data {
        Some(d) => match d.label {
            Some(l) => l@,
            None => n.id@,
        },
        None => n.id@,
    }
}

/// The value of the first entry of `cfg` under `key`.
pub open spec fn config_lookup(cfg: Seq<ConfigEntry>, key: Seq<char>) -> Option<ConfigValue>
    decreases cfg.len(),
{
    if cfg.len() == 0 {
        None
    } else if cfg[0].key@ == key {
        Some(cfg[0].value)
    } else {
        config_lookup(cfg.drop_first(), key)
    }
}

/// The text of a value, if it is one.
pub open spec fn value_text(v: Option<ConfigValue>) -> Option<Seq<char>> {
    match v {
        Some(ConfigValue::Text(s)) => Some(s@),
        _ => None,
    }
}

/// The text stored under `key`, if there is text there.
pub open spec fn config_text(cfg: Seq<ConfigEntry>, key: Seq<char>) -> Option<Seq<char>> {
    value_text(config_lookup(cfg, key))
}

/// The non-negative integer stored under `key`, if there is one there.
pub open spec fn config_count(cfg: Seq<ConfigEntry>, key: Seq<char>) -> Option<u64> {
    match config_lookup(cfg, key) {
        Some(ConfigValue::Count(n)) => Some(n),
        _ => None,
    }
}

/// The position of the last node with id `id`: a later node with the same
/// id hides the earlier ones.
pub open spec fn find_node(nodes: Seq<WorkflowNode>, id: Seq<char>) -> Option<int>
    decreases nodes.len(),
{
    if nodes.len() == 0 {
        None
    } else if nodes.last().id@ == id {
        Some(nodes.len() - 1)
    } else {
        find_node(nodes.drop_last(), id)
    }
}

/// The position of the first node whose type is `"trigger"`.
pub open spec fn first_trigger(nodes: Seq<WorkflowNode>) -> Option<int>
    decreases nodes.len(),
{
    if nodes.len() == 0 {
        None
    } else if node_type_of(nodes[0]) == "trigger"@ {
        Some(0)
    } else {
        match first_trigger(nodes.drop_first()) {
            Some(i) => Some(i + 1),
            None => None,
        }
    }
}

/// The target of the first edge that leaves `id`.
pub open spec fn next_target(edges: Seq<WorkflowEdge>, id: Seq<char>) -> Option<Seq<char>>
    decreases edges.len(),
{
    if edges.len() == 0 {
        None
    } else if edges[0].source@ == id {
        Some(edges[0].target@)
    } else {
        next_target(edges.drop_first(), id)
    }
}

/// Whether an edge carries a label equal to `want`, ASCII case ignored.
pub open spec fn edge_labelled(e: WorkflowEdge, want: Seq<char>) -> bool {
    match e.label {
        Some(l) => eq_ignore_ascii_case(l@, want),
        None => false,
    }
}

/// The target of the first edge that leaves `id` labelled `want`, if any.
pub open spec fn labelled_target_only(edges: Seq<WorkflowEdge>, id: Seq<char>, want: Seq<char>) -> Option<Seq<char>>
    decreases edges.len(),
{
    if edges.len() == 0 {
        None
    } else if edges[0].source@ == id && edge_labelled(edges[0], want) {
        Some(edges[0].target@)
    } else {
        labelled_target_only(edges.drop_first(), id, want)
    }
}

/// The target of the first edge that leaves `id` labelled `want`, or else
/// of the first edge that leaves `id`.
pub open spec fn labelled_target(edges: Seq<WorkflowEdge>, id: Seq<char>, want: Seq<char>) -> Option<Seq<char>> {
    match labelled_target_only(edges, id, want) {
        Some(t) => Some(t),
        None => next_target(edges, id),
    }
}

// ── Executable accessors ──────────────────────────────────

/// The type of a node (see `node_type_of`).
pub fn get_node_type(node: &WorkflowNode) -> (t: &String)
    ensures
        t@ == node_type_of(*node),
{
    if let Some(data) = &node.data {
        if let Some(t) = &data.node_type {
            return t;
        }
    }
    &node.node_type
}

/// The configuration of a node (see `node_config_of`).
pub fn get_node_config(node: &WorkflowNode) -> (c: &Vec<ConfigEntry>)
    ensures
        c@ == node_config_of(*node),
{
    if let Some(data) = &node.data {
        if let Some(c) = &data.config {
            return c;
        }
    }
    &node.config
}

/// The label of a node (see `node_label_of`).
pub fn get_node_label(node: &WorkflowNode) -> (l: String)
    ensures
        l@ == node_label_of(*node),
{
    if let Some(data) = &node.data {
        if let Some(l) = &data.label {
            return l.clone();
        }
    }
    node.id.clone()
}

/// The value of the first entry of `cfg` under `key`.
pub fn lookup_config<'a>(cfg: &'a Vec<ConfigEntry>, key: &str) -> (r: Option<&'a ConfigValue>)
    ensures
        match r {
            Some(v) => config_lookup(cfg@, key@) == Some(*v),
            None => config_lookup(cfg@, key@) is None,
        },
{
    let mut i: usize = 0;
    assert(cfg@.skip(0) =~= cfg@);
    while i < cfg.len()
        invariant
            0 <= i <= cfg@.len(),
            config_lookup(cfg@, key@) == config_lookup(cfg@.skip(i as int), key@),
        decreases cfg@.len() - i,
    {
        if same_text(cfg[i].key.as_str(), key) {
            return Some(&cfg[i].value);
        }
        assert(cfg@.skip(i as int).drop_first() =~= cfg@.skip(i + 1));
        i = i + 1;
    }
    None
}

/// The text stored under `key`, if there is text there.
pub fn lookup_text(cfg: &Vec<ConfigEntry>, key: &str) -> (r: Option<String>)
    ensures
        opt_view(r) == config_text(cfg@, key@),
{
    match lookup_config(cfg, key) {
        Some(ConfigValue::Text(s)) => Some(s.clone()),
        _ => None,
    }
}

/// The text stored under `key`, or `default`.
pub fn text_or_default(cfg: &Vec<ConfigEntry>, key: &str, default: &str) -> (r: String)
    ensures
        r@ == text_or(config_text(cfg@, key@), default@),
{
    match lookup_text(cfg, key) {
        Some(s) => s,
        None => default.to_owned(),
    }
}

/// The non-negative integer stored under `key`, or `default`.
pub fn count_or_default(cfg: &Vec<ConfigEntry>, key: &str, default: u64) -> (r: u64)
    ensures
        r == match config_count(cfg@, key@) {
            Some(n) => n,
            None => default,
        },
{
    match lookup_config(cfg, key) {
        Some(ConfigValue::Count(n)) => *n,
        _ => default,
    }
}

/// The position of the node that the id `id` names (the last with that id).
pub fn locate_node(nodes: &Vec<WorkflowNode>, id: &str) -> (r: Option<usize>)
    ensures
        match r {
            Some(i) => find_node(nodes@, id@) == Some(i as int) && i < nodes@.len(),
            None => find_node(nodes@, id@) is None,
        },
{
    let mut k: usize = nodes.len();
    assert(nodes@.take(k as int) =~= nodes@);
    while k > 0
        invariant
            0 <= k <= nodes@.len(),
            find_node(nodes@, id@) == find_node(nodes@.take(k as int), id@),
        decreases k,
    {
        if same_text(nodes[k - 1].id.as_str(), id) {
            return Some(k - 1);
        }
        assert(nodes@.take(k as int).drop_last() =~= nodes@.take(k - 1));
        k = k - 1;
    }
    None
}

/// The position of the first node whose type is `"trigger"`.
pub fn locate_first_trigger(nodes: &Vec<WorkflowNode>) -> (r: Option<usize>)
    ensures
        match r {
            Some(i) => first_trigger(nodes@) == Some(i as int) && i < nodes@.len(),
            None => first_trigger(nodes@) is None,
        },
{
    let mut i: usize = 0;
    while i < nodes.len()
        invariant
            0 <= i <= nodes@.len(),
            forall|j: int| 0 <= j < i ==> node_type_of(#[trigger] nodes@[j]) != "trigger"@,
        decreases nodes@.len() - i,
    {
        if same_text(get_node_type(&nodes[i]).as_str(), "trigger") {
            proof { lemma_first_trigger_at(nodes@, i as int); }
            return Some(i);
        }
        i = i + 1;
    }
    proof { lemma_no_trigger(nodes@); }
    None
}

proof fn lemma_first_trigger_at(nodes: Seq<WorkflowNode>, i: int)
    requires
        0 <= i < nodes.len(),
        node_type_of(nodes[i]) == "trigger"@,
        forall|j: int| 0 <= j < i ==> node_type_of(#[trigger] nodes[j]) != "trigger"@,
    ensures
        first_trigger(nodes) == Some(i),
    decreases i,
{
    if i > 0 {
        let rest = nodes.drop_first();
        assert forall|j: int| 0 <= j < i - 1 implies node_type_of(#[trigger] rest[j]) != "trigger"@ by {
            assert(rest[j] == nodes[j + 1]);
        }
        lemma_first_trigger_at(rest, i - 1);
    }
}

proof fn lemma_no_trigger(nodes: Seq<WorkflowNode>)
    requires
        forall|j: int| 0 <= j < nodes.len() ==> node_type_of(#[trigger] nodes[j]) != "trigger"@,
    ensures
        first_trigger(nodes) is None,
    decreases nodes.len(),
{
    if nodes.len() > 0 {
        let rest = nodes.drop_first();
        assert forall|j: int| 0 <= j < rest.len() implies node_type_of(#[trigger] rest[j]) != "trigger"@ by {
            assert(rest[j] == nodes[j + 1]);
        }
        lemma_no_trigger(rest);
    }
}

/// The target of the first edge that leaves `id`.
pub fn first_target(edges: &Vec<WorkflowEdge>, id: &str) -> (r: Option<String>)
    ensures
        opt_view(r) == next_target(edges@, id@),
{
    let mut i: usize = 0;
    assert(edges@.skip(0) =~= edges@);
    while i < edges.len()
        invariant
            0 <= i <= edges@.len(),
            next_target(edges@, id@) == next_target(edges@.skip(i as int), id@),
        decreases edges@.len() - i,
    {
        if same_text(edges[i].source.as_str(), id) {
            return Some(edges[i].target.clone());
        }
        assert(edges@.skip(i as int).drop_first() =~= edges@.skip(i + 1));
        i = i + 1;
    }
    None
}

fn labelled(e: &WorkflowEdge, want: &str) -> (r: bool)
    ensures
        r == edge_labelled(*e, want@),
{
    match &e.label {
        Some(l) => same_ignoring_ascii_case(l.as_str(), want),
        None => false,
    }
}

/// The target of the first edge that leaves `id` labelled `want` (ASCII case
/// ignored), or else of the first edge that leaves `id`.
pub fn target_for_label(edges: &Vec<WorkflowEdge>, id: &str, want: &str) -> (r: Option<String>)
    ensures
        opt_view(r) == labelled_target(edges@, id@, want@),
{
    let mut i: usize = 0;
    assert(edges@.skip(0) =~= edges@);
    while i < edges.len()
        invariant
            0 <= i <= edges@.len(),
            labelled_target_only(edges@, id@, want@) == labelled_target_only(edges@.skip(i as int), id@, want@),
        decreases edges@.len() - i,
    {
        if same_text(edges[i].source.as_str(), id) && labelled(&edges[i], want) {
            return Some(edges[i].target.clone());
        }
        assert(edges@.skip(i as int).drop_first() =~= edges@.skip(i + 1));
        i = i + 1;
    }
    first_target(edges, id)
}

} // verus!

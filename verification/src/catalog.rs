//! The catalog of MCP tools the server announces, by configuration.
use vstd::prelude::*;

use crate::text::{is_blank, push_str, str_eq, trim};

verus! {

broadcast use vstd::string::group_string_axioms;

/// Tools for editing code, always announced.
pub open spec fn spec_code_editing_tool_names() -> Seq<Seq<char>> {
    seq![
        "reply"@,
        "codex"@,
        "codex-reply"@,
        "codex.newConversation"@,
        "codex.sendUserMessage"@,
        "codex.sendUserTurn"@,
        "codex.execCommand"@,
        "codex.gitDiffToRemote"@,
    ]
}

/// The code-editing actions announced as simple tools: name and description.
pub open spec fn spec_code_editing_actions() -> Seq<(Seq<char>, Seq<char>)> {
    seq![
        ("codex.newConversation"@, "Start a new Codex conversation."@),
        ("codex.sendUserMessage"@, "Send user message input to an active Codex conversation."@),
        (
            "codex.sendUserTurn"@,
            "Submit a full user turn (message plus overrides) to an active Codex conversation."@,
        ),
        ("codex.execCommand"@, "Execute a one-off shell command using Codex's sandbox policy."@),
        (
            "codex.gitDiffToRemote"@,
            "Return the diff between the working tree and its remote for a given directory."@,
        ),
    ]
}

/// The administrative actions, announced when all tools are exposed.
pub open spec fn spec_admin_actions() -> Seq<(Seq<char>, Seq<char>)> {
    seq![
        ("codex.listConversations"@, "List recorded Codex conversations."@),
        ("codex.resumeConversation"@, "Resume a recorded Codex conversation from a rollout file."@),
        (
            "codex.archiveConversation"@,
            "Archive a Codex conversation and move its rollout into the archived directory."@,
        ),
        ("codex.interruptConversation"@, "Request that Codex interrupt the active task for a conversation."@),
        ("codex.loginApiKey"@, "Store an API key for Codex to use when authenticating with OpenAI services."@),
        ("codex.loginChatGpt"@, "Initiate ChatGPT OAuth login and return the authorization URL."@),
        ("codex.cancelLoginChatGpt"@, "Cancel an in-flight ChatGPT OAuth login request."@),
        ("codex.logoutChatGpt"@, "Clear stored ChatGPT OAuth tokens."@),
        ("codex.getAuthStatus"@, "Return Codex authentication status for the active user."@),
        ("codex.getUserSavedConfig"@, "Return the saved Codex configuration from config.toml."@),
        (
            "codex.setDefaultModel"@,
            "Persist the default model (and optionally reasoning effort) in the user's config."@,
        ),
        ("codex.getUserAgent"@, "Return the Codex user agent string."@),
        ("codex.userInfo"@, "Return best-effort user identity information inferred from stored credentials."@),
    ]
}

/// The auxiliary-agent tools, announced when all tools are exposed and agents allowed.
pub open spec fn spec_aux_tools() -> Seq<(Seq<char>, Seq<char>)> {
    seq![
        ("codex.spawnAuxAgent"@, "Spawn an auxiliary Codex CLI instance with a prompt."@),
        ("codex.stopAuxAgent"@, "Terminate a running auxiliary Codex CLI instance."@),
        ("codex.listAuxAgents"@, "List active auxiliary Codex CLI instances."@),
    ]
}

fn pair(name: &str, description: &str) -> (p: (String, String))
    ensures
        p.0@ == name@,
        p.1@ == description@,
{
    (name.to_owned(), description.to_owned())
}

/// The names of the tools for editing code.
pub fn code_editing_tool_names() -> (v: Vec<String>)
    ensures
        v.deep_view() == spec_code_editing_tool_names(),
{
    let mut v: Vec<String> = Vec::new();
    v.push("reply".to_owned());
    v.push("codex".to_owned());
    v.push("codex-reply".to_owned());
    v.push("codex.newConversation".to_owned());
    v.push("codex.sendUserMessage".to_owned());
    v.push("codex.sendUserTurn".to_owned());
    v.push("codex.execCommand".to_owned());
    v.push("codex.gitDiffToRemote".to_owned());
    assert(v.deep_view() =~= spec_code_editing_tool_names());
    v
}

/// Names and descriptions by their views.
pub open spec fn pairs_view(v: Seq<(String, String)>) -> Seq<(Seq<char>, Seq<char>)> {
    v.map_values(|p: (String, String)| (p.0@, p.1@))
}

/// The code-editing actions.
pub fn code_editing_actions() -> (v: Vec<(String, String)>)
    ensures
        pairs_view(v@) == spec_code_editing_actions(),
{
    let mut v: Vec<(String, String)> = Vec::new();
    v.push(pair("codex.newConversation", "Start a new Codex conversation."));
    v.push(pair("codex.sendUserMessage", "Send user message input to an active Codex conversation."));
    v.push(pair(
        "codex.sendUserTurn",
        "Submit a full user turn (message plus overrides) to an active Codex conversation.",
    ));
    v.push(pair("codex.execCommand", "Execute a one-off shell command using Codex's sandbox policy."));
    v.push(pair(
        "codex.gitDiffToRemote",
        "Return the diff between the working tree and its remote for a given directory.",
    ));
    assert(pairs_view(v@) =~= spec_code_editing_actions());
    v
}

/// The administrative actions.
pub fn admin_actions() -> (v: Vec<(String, String)>)
    ensures
        pairs_view(v@) == spec_admin_actions(),
{
    let mut v: Vec<(String, String)> = Vec::new();
    v.push(pair("codex.listConversations", "List recorded Codex conversations."));
    v.push(pair("codex.resumeConversation", "Resume a recorded Codex conversation from a rollout file."));
    v.push(pair(
        "codex.archiveConversation",
        "Archive a Codex conversation and move its rollout into the archived directory.",
    ));
    v.push(pair("codex.interruptConversation", "Request that Codex interrupt the active task for a conversation."));
    v.push(pair("codex.loginApiKey", "Store an API key for Codex to use when authenticating with OpenAI services."));
    v.push(pair("codex.loginChatGpt", "Initiate ChatGPT OAuth login and return the authorization URL."));
    v.push(pair("codex.cancelLoginChatGpt", "Cancel an in-flight ChatGPT OAuth login request."));
    v.push(pair("codex.logoutChatGpt", "Clear stored ChatGPT OAuth tokens."));
    v.push(pair("codex.getAuthStatus", "Return Codex authentication status for the active user."));
    v.push(pair("codex.getUserSavedConfig", "Return the saved Codex configuration from config.toml."));
    v.push(pair(
        "codex.setDefaultModel",
        "Persist the default model (and optionally reasoning effort) in the user's config.",
    ));
    v.push(pair("codex.getUserAgent", "Return the Codex user agent string."));
    v.push(pair("codex.userInfo", "Return best-effort user identity information inferred from stored credentials."));
    assert(pairs_view(v@) =~= spec_admin_actions());
    v
}

/// The auxiliary-agent tools.
pub fn aux_tools() -> (v: Vec<(String, String)>)
    ensures
        pairs_view(v@) == spec_aux_tools(),
{
    let mut v: Vec<(String, String)> = Vec::new();
    v.push(pair("codex.spawnAuxAgent", "Spawn an auxiliary Codex CLI instance with a prompt."));
    v.push(pair("codex.stopAuxAgent", "Terminate a running auxiliary Codex CLI instance."));
    v.push(pair("codex.listAuxAgents", "List active auxiliary Codex CLI instances."));
    assert(pairs_view(v@) =~= spec_aux_tools());
    v
}

/// `s` with later repetitions of an element dropped, first occurrences in order.
pub open spec fn dedupe(s: Seq<Seq<char>>) -> Seq<Seq<char>>
    decreases s.len(),
{
    if s.len() == 0 {
        s
    } else {
        let d = dedupe(s.drop_last());
        if d.contains(s.last()) {
            d
        } else {
            d.push(s.last())
        }
    }
}

/// Whether `v` holds a string equal to `x`.
pub fn contains_str(v: &Vec<String>, x: &str) -> (r: bool)
    ensures
        r == v.deep_view().contains(x@),
{
    let mut i: usize = 0;
    while i < v.len()
        invariant
            i <= v.len(),
            forall|k: int| 0 <= k < i ==> v.deep_view()[k] != x@,
        decreases v.len() - i,
    {
        if str_eq(v[i].as_str(), x) {
            assert(v.deep_view()[i as int] == x@);
            return true;
        }
        i = i + 1;
    }
    false
}

/// The names in order with repetitions removed, first occurrences kept.
pub fn dedupe_preserving_order(names: Vec<String>) -> (r: Vec<String>)
    ensures
        r.deep_view() == dedupe(names.deep_view()),
{
    let ghost nv = names.deep_view();
    let mut out: Vec<String> = Vec::new();
    let mut names = names;
    let n = names.len();
    let mut i: usize = 0;
    assert(names.deep_view() =~= nv.skip(0));
    assert(nv.take(0) =~= Seq::<Seq<char>>::empty());
    while i < n
        invariant
            n == nv.len(),
            i <= n,
            names.len() == n - i,
            names.deep_view() =~= nv.skip(i as int),
            out.deep_view() == dedupe(nv.take(i as int)),
        decreases n - i,
    {
        let ghost before = names.deep_view();
        let name = names.remove(0);
        assert(name@ == nv[i as int]) by {
            assert(before[0] == nv.skip(i as int)[0]);
        }
        assert forall|k: int| 0 <= k < names@.len() implies #[trigger] names.deep_view()[k] == nv.skip(i + 1)[k] by {
            assert(before[k + 1] == nv.skip(i as int)[k + 1]);
        }
        assert(names.deep_view() =~= nv.skip(i + 1));
        assert(nv.take(i + 1).drop_last() =~= nv.take(i as int));
        if !contains_str(&out, name.as_str()) {
            let ghost ov = out.deep_view();
            out.push(name);
            assert(out.deep_view() =~= ov.push(nv[i as int]));
        }
        i = i + 1;
    }
    assert(nv.take(n as int) =~= nv);
    out
}

/// The names announced before repetitions are removed: the code-editing
/// tools, then (all tools exposed) the administrative actions, then (agents
/// also allowed) the auxiliary-agent tools.
pub open spec fn candidate_tool_names(expose_all_tools: bool, max_aux_agents: Option<usize>) -> Seq<Seq<char>> {
    let names = spec_code_editing_tool_names();
    if expose_all_tools {
        let with_admin = names + spec_admin_actions().map_values(|p: (Seq<char>, Seq<char>)| p.0);
        if max_aux_agents.unwrap_or(0) > 0 {
            with_admin + spec_aux_tools().map_values(|p: (Seq<char>, Seq<char>)| p.0)
        } else {
            with_admin
        }
    } else {
        names
    }
}

/// The names of the tools announced for the given options.
pub open spec fn spec_compute_tool_names(expose_all_tools: bool, max_aux_agents: Option<usize>) -> Seq<Seq<char>> {
    dedupe(candidate_tool_names(expose_all_tools, max_aux_agents))
}

fn push_names(v: &mut Vec<String>, pairs: &Vec<(String, String)>)
    ensures
        final(v).deep_view() == old(v).deep_view() + pairs_view(pairs@).map_values(
            |p: (Seq<char>, Seq<char>)| p.0,
        ),
{
    let ghost start = v.deep_view();
    let ghost names = pairs_view(pairs@).map_values(|p: (Seq<char>, Seq<char>)| p.0);
    let mut i: usize = 0;
    while i < pairs.len()
        invariant
            i <= pairs.len(),
            names == pairs_view(pairs@).map_values(|p: (Seq<char>, Seq<char>)| p.0),
            v.deep_view() == start + names.take(i as int),
        decreases pairs.len() - i,
    {
        let ghost before = v.deep_view();
        v.push(pairs[i].0.clone());
        assert(v.deep_view() =~= before.push(names[i as int]));
        assert(v.deep_view() =~= start + names.take(i + 1));
        i = i + 1;
    }
    assert(names.take(i as int) =~= names);
}

/// The names of the tools to announce, in order, each once.
pub fn compute_tool_names(opts: &crate::server::McpServerOpts, max_aux_agents: Option<usize>) -> (r: Vec<String>)
    ensures
        r.deep_view() == spec_compute_tool_names(opts.expose_all_tools, max_aux_agents),
{
    let mut ordered = code_editing_tool_names();
    if opts.expose_all_tools {
        push_names(&mut ordered, &admin_actions());
        let limit = match max_aux_agents {
            Some(n) => n,
            None => 0,
        };
        if limit > 0 {
            push_names(&mut ordered, &aux_tools());
        }
    }
    dedupe_preserving_order(ordered)
}

/// Whether `name` is one of the code-editing tools.
pub fn is_code_editing_tool(name: &str) -> (r: bool)
    ensures
        r == spec_code_editing_tool_names().contains(name@),
{
    contains_str(&code_editing_tool_names(), name)
}

} // verus!

verus! {

/// One declared property of a tool's input.
#[derive(Debug, Clone)]
pub struct ToolProperty {
    pub name: String,
    pub kind: String,
    pub description: String,
}

/// A tool described by this catalog.
#[derive(Debug, Clone)]
pub struct ToolSpec {
    pub name: String,
    pub title: Option<String>,
    pub description: Option<String>,
    /// The declared input properties, if any.
    pub properties: Option<Vec<ToolProperty>>,
    pub required: Option<Vec<String>>,
    /// The JSON type of the input (`object`).
    pub input_type: String,
}

/// A tool of the catalog.
#[derive(Debug, Clone)]
pub enum CatalogTool {
    /// The `codex` tool, whose schema comes from the Codex session parameters.
    CodexSession,
    /// The `codex-reply` tool, whose schema comes from the reply parameters.
    CodexSessionReply,
    /// A tool described here.
    Described(ToolSpec),
}

/// A property as plain values: name, type, description.
pub type ToolPropertyView = (Seq<char>, Seq<char>, Seq<char>);

/// A described tool as plain values.
pub struct ToolSpecView {
    pub name: Seq<char>,
    pub title: Option<Seq<char>>,
    pub description: Option<Seq<char>>,
    pub properties: Option<Seq<ToolPropertyView>>,
    pub required: Option<Seq<Seq<char>>>,
    pub input_type: Seq<char>,
}

/// A catalog tool as plain values.
pub enum CatalogToolView {
    CodexSession,
    CodexSessionReply,
    Described(ToolSpecView),
}

impl View for ToolSpec {
    type V = ToolSpecView;

    open spec fn view(&self) -> ToolSpecView {
        ToolSpecView {
            name: self.name@,
            title: match self.title {
                Some(t) => Some(t@),
                None => None,
            },
            description: match self.description {
                Some(d) => Some(d@),
                None => None,
            },
            properties: match self.properties {
                Some(p) => Some(p@.map_values(|q: ToolProperty| (q.name@, q.kind@, q.description@))),
                None => None,
            },
            required: match self.required {
                Some(r) => Some(r.deep_view()),
                None => None,
            },
            input_type: self.input_type@,
        }
    }
}

impl View for CatalogTool {
    type V = CatalogToolView;

    open spec fn view(&self) -> CatalogToolView {
        match self {
            CatalogTool::CodexSession => CatalogToolView::CodexSession,
            CatalogTool::CodexSessionReply => CatalogToolView::CodexSessionReply,
            CatalogTool::Described(t) => CatalogToolView::Described(t@),
        }
    }
}

/// A tool with just a name and description, titled by its name.
pub open spec fn simple_tool(name: Seq<char>, description: Seq<char>) -> ToolSpecView {
    ToolSpecView {
        name,
        title: Some(name),
        description: Some(description),
        properties: None,
        required: None,
        input_type: "object"@,
    }
}

/// The `reply` tool: one required string property, `prompt`.
pub open spec fn reply_tool() -> ToolSpecView {
    ToolSpecView {
        name: "reply"@,
        title: Some("Reply"@),
        description: Some("Send a single prompt to Codex using default settings."@),
        properties: Some(seq![("prompt"@, "string"@, "User message forwarded to Codex for a quick reply."@)]),
        required: Some(seq!["prompt"@]),
        input_type: "object"@,
    }
}

/// The description of the first entry named `name`, if any.
pub open spec fn find_description(list: Seq<(Seq<char>, Seq<char>)>, name: Seq<char>) -> Option<Seq<char>>
    decreases list.len(),
{
    if list.len() == 0 {
        None
    } else if list[0].0 == name {
        Some(list[0].1)
    } else {
        find_description(list.drop_first(), name)
    }
}

/// The tool announced under `name`, if the catalog has one: the session tools,
/// `reply`, then code-editing, administrative and (agents allowed) auxiliary actions.
pub open spec fn spec_build_tool(name: Seq<char>, max_aux_agents: Option<usize>) -> Option<CatalogToolView> {
    if name == "reply"@ {
        Some(CatalogToolView::Described(reply_tool()))
    } else if name == "codex"@ {
        Some(CatalogToolView::CodexSession)
    } else if name == "codex-reply"@ {
        Some(CatalogToolView::CodexSessionReply)
    } else if find_description(spec_code_editing_actions(), name) is Some {
        Some(CatalogToolView::Described(simple_tool(name, find_description(spec_code_editing_actions(), name)->0)))
    } else if find_description(spec_admin_actions(), name) is Some {
        Some(CatalogToolView::Described(simple_tool(name, find_description(spec_admin_actions(), name)->0)))
    } else if max_aux_agents.unwrap_or(0) > 0 && find_description(spec_aux_tools(), name) is Some {
        Some(CatalogToolView::Described(simple_tool(name, find_description(spec_aux_tools(), name)->0)))
    } else {
        None
    }
}

/// The description of the first entry of `list` named `name`.
fn lookup_description(list: &Vec<(String, String)>, name: &str) -> (r: Option<String>)
    ensures
        match r {
            Some(d) => find_description(pairs_view(list@), name@) == Some(d@),
            None => find_description(pairs_view(list@), name@) is None,
        },
{
    let ghost lv = pairs_view(list@);
    let mut i: usize = 0;
    assert(lv.skip(0) =~= lv);
    while i < list.len()
        invariant
            lv == pairs_view(list@),
            i <= list.len(),
            find_description(lv, name@) == find_description(lv.skip(i as int), name@),
        decreases list.len() - i,
    {
        assert(lv.skip(i as int)[0] == lv[i as int]);
        if str_eq(list[i].0.as_str(), name) {
            return Some(list[i].1.clone());
        }
        assert(lv.skip(i as int).drop_first() =~= lv.skip(i + 1));
        i = i + 1;
    }
    None
}

fn build_simple_tool(name: &str, description: String) -> (t: ToolSpec)
    ensures
        t@ == simple_tool(name@, description@),
{
    ToolSpec {
        name: name.to_owned(),
        title: Some(name.to_owned()),
        description: Some(description),
        properties: None,
        required: None,
        input_type: "object".to_owned(),
    }
}

/// The `reply` tool.
pub fn create_reply_tool() -> (t: ToolSpec)
    ensures
        t@ == reply_tool(),
{
    let mut properties: Vec<ToolProperty> = Vec::new();
    properties.push(
        ToolProperty {
            name: "prompt".to_owned(),
            kind: "string".to_owned(),
            description: "User message forwarded to Codex for a quick reply.".to_owned(),
        },
    );
    let mut required: Vec<String> = Vec::new();
    required.push("prompt".to_owned());
    let t = ToolSpec {
        name: "reply".to_owned(),
        title: Some("Reply".to_owned()),
        description: Some("Send a single prompt to Codex using default settings.".to_owned()),
        properties: Some(properties),
        required: Some(required),
        input_type: "object".to_owned(),
    };
    assert(t@.properties->0 =~= reply_tool().properties->0);
    assert(t@.required->0 =~= reply_tool().required->0);
    t
}

/// The tool announced under `name`, if the catalog has one.
pub fn build_tool_by_name(name: &str, max_aux_agents: Option<usize>) -> (r: Option<CatalogTool>)
    ensures
        match r {
            Some(t) => spec_build_tool(name@, max_aux_agents) == Some(t@),
            None => spec_build_tool(name@, max_aux_agents) is None,
        },
{
    if str_eq(name, "reply") {
        return Some(CatalogTool::Described(create_reply_tool()));
    }
    if str_eq(name, "codex") {
        return Some(CatalogTool::CodexSession);
    }
    if str_eq(name, "codex-reply") {
        return Some(CatalogTool::CodexSessionReply);
    }
    if let Some(d) = lookup_description(&code_editing_actions(), name) {
        return Some(CatalogTool::Described(build_simple_tool(name, d)));
    }
    if let Some(d) = lookup_description(&admin_actions(), name) {
        return Some(CatalogTool::Described(build_simple_tool(name, d)));
    }
    let limit = match max_aux_agents {
        Some(n) => n,
        None => 0,
    };
    if limit == 0 {
        return None;
    }
    if let Some(d) = lookup_description(&aux_tools(), name) {
        return Some(CatalogTool::Described(build_simple_tool(name, d)));
    }
    None
}

} // verus!

verus! {

/// What is wrong with a described tool's schema, if anything: a blank name or
/// a blank input type.
pub open spec fn schema_error(t: CatalogToolView) -> Option<Seq<char>> {
    match t {
        CatalogToolView::Described(s) => if trim(s.name).len() == 0 {
            Some("tool name cannot be empty"@)
        } else if trim(s.input_type).len() == 0 {
            Some("tool '"@ + s.name + "' is missing an input schema type"@)
        } else {
            None
        },
        _ => None,
    }
}

/// Checks a described tool's name and input type.
pub fn validate_tool_schema(tool: &CatalogTool) -> (r: Result<(), String>)
    ensures
        match r {
            Ok(()) => schema_error(tool@) is None,
            Err(e) => schema_error(tool@) == Some(e@),
        },
{
    match tool {
        CatalogTool::Described(t) => {
            if is_blank(t.name.as_str()) {
                return Err("tool name cannot be empty".to_owned());
            }
            if is_blank(t.input_type.as_str()) {
                let mut m = "tool '".to_owned();
                push_str(&mut m, t.name.as_str());
                push_str(&mut m, "' is missing an input schema type");
                return Err(m);
            }
            Ok(())
        },
        _ => Ok(()),
    }
}

/// The message for a name announced twice.
pub open spec fn duplicate_message(name: Seq<char>) -> Seq<char> {
    "duplicate tool '"@ + name + "'"@
}

/// The message for a name the catalog cannot build.
pub open spec fn unknown_message(name: Seq<char>) -> Seq<char> {
    "unknown tool '"@ + name + "'"@
}

/// Building the tools for `names` in order, stopping at the first name seen
/// before, unknown, or with a bad schema.
pub open spec fn build_tools(names: Seq<Seq<char>>, max_aux_agents: Option<usize>) -> Result<Seq<CatalogToolView>, Seq<char>>
    decreases names.len(),
{
    if names.len() == 0 {
        Ok(Seq::empty())
    } else {
        match build_tools(names.drop_last(), max_aux_agents) {
            Err(e) => Err(e),
            Ok(tools) => {
                let n = names.last();
                if names.drop_last().contains(n) {
                    Err(duplicate_message(n))
                } else {
                    match spec_build_tool(n, max_aux_agents) {
                        None => Err(unknown_message(n)),
                        Some(t) => match schema_error(t) {
                            Some(e) => Err(e),
                            None => Ok(tools.push(t)),
                        },
                    }
                }
            },
        }
    }
}

/// The tools to announce for the given options.
pub open spec fn spec_list_tools(expose_all_tools: bool, max_aux_agents: Option<usize>) -> Result<Seq<CatalogToolView>, Seq<char>> {
    build_tools(spec_compute_tool_names(expose_all_tools, max_aux_agents), max_aux_agents)
}

/// The views of a list of tools.
pub open spec fn tools_view(v: Seq<CatalogTool>) -> Seq<CatalogToolView> {
    v.map_values(|t: CatalogTool| t@)
}

/// The tools to announce, built and checked one name at a time.
pub fn list_tools(opts: &crate::server::McpServerOpts, max_aux_agents: Option<usize>) -> (r: Result<Vec<CatalogTool>, String>)
    ensures
        match r {
            Ok(v) => spec_list_tools(opts.expose_all_tools, max_aux_agents) == Ok::<Seq<CatalogToolView>, Seq<char>>(tools_view(v@)),
            Err(e) => spec_list_tools(opts.expose_all_tools, max_aux_agents) == Err::<Seq<CatalogToolView>, Seq<char>>(e@),
        },
{
    let names = compute_tool_names(opts, max_aux_agents);
    let ghost nv = names.deep_view();
    let mut tools: Vec<CatalogTool> = Vec::new();
    let mut seen: Vec<String> = Vec::new();
    let mut i: usize = 0;
    assert(nv.take(0) =~= Seq::<Seq<char>>::empty());
    assert(tools_view(tools@) =~= Seq::<CatalogToolView>::empty());
    assert(seen.deep_view() =~= nv.take(0));
    while i < names.len()
        invariant
            nv == names.deep_view(),
            nv == spec_compute_tool_names(opts.expose_all_tools, max_aux_agents),
            i <= names.len(),
            seen.deep_view() == nv.take(i as int),
            build_tools(nv.take(i as int), max_aux_agents) == Ok::<Seq<CatalogToolView>, Seq<char>>(tools_view(tools@)),
        decreases names.len() - i,
    {
        let name = &names[i];
        let ghost t = nv.take(i + 1);
        assert(t.drop_last() =~= nv.take(i as int));
        assert(t.last() == name@);
        if contains_str(&seen, name.as_str()) {
            let mut m = "duplicate tool '".to_owned();
            push_str(&mut m, name.as_str());
            push_str(&mut m, "'");
            proof {
                lemma_build_tools_stops(nv, i as int, max_aux_agents);
            }
            return Err(m);
        }
        let tool = match build_tool_by_name(name.as_str(), max_aux_agents) {
            Some(tool) => tool,
            None => {
                let mut m = "unknown tool '".to_owned();
                push_str(&mut m, name.as_str());
                push_str(&mut m, "'");
                proof {
                    lemma_build_tools_stops(nv, i as int, max_aux_agents);
                }
                return Err(m);
            },
        };
        match validate_tool_schema(&tool) {
            Err(e) => {
                proof {
                    lemma_build_tools_stops(nv, i as int, max_aux_agents);
                }
                return Err(e);
            },
            Ok(()) => {},
        }
        let ghost tv = tools_view(tools@);
        tools.push(tool);
        assert(tools_view(tools@) =~= tv.push(tool@));
        let ghost sv = seen.deep_view();
        seen.push(name.clone());
        assert(seen.deep_view() =~= sv.push(name@));
        i = i + 1;
    }
    assert(nv.take(i as int) =~= nv);
    Ok(tools)
}

/// Once building stops with an error, extending the names keeps that error.
proof fn lemma_build_tools_stops(names: Seq<Seq<char>>, i: int, max_aux_agents: Option<usize>)
    requires
        0 <= i < names.len(),
        build_tools(names.take(i + 1), max_aux_agents) is Err,
    ensures
        build_tools(names, max_aux_agents) == build_tools(names.take(i + 1), max_aux_agents),
    decreases names.len() - i,
{
    if i + 1 < names.len() {
        assert(names.take(i + 2).drop_last() =~= names.take(i + 1));
        lemma_build_tools_stops(names, i + 1, max_aux_agents);
    } else {
        assert(names.take(i + 1) =~= names);
    }
}

} // verus!

verus! {

/// Every tool name of the catalog differs from every other.
pub proof fn lemma_catalog_names_distinct()
    ensures
        candidate_tool_names(true, Some(1)).no_duplicates(),
{
    reveal_strlit("reply");
    reveal_strlit("codex");
    reveal_strlit("codex-reply");
    reveal_strlit("codex.newConversation");
    reveal_strlit("codex.sendUserMessage");
    reveal_strlit("codex.sendUserTurn");
    reveal_strlit("codex.execCommand");
    reveal_strlit("codex.gitDiffToRemote");
    reveal_strlit("codex.listConversations");
    reveal_strlit("codex.resumeConversation");
    reveal_strlit("codex.archiveConversation");
    reveal_strlit("codex.interruptConversation");
    reveal_strlit("codex.loginApiKey");
    reveal_strlit("codex.loginChatGpt");
    reveal_strlit("codex.cancelLoginChatGpt");
    reveal_strlit("codex.logoutChatGpt");
    reveal_strlit("codex.getAuthStatus");
    reveal_strlit("codex.getUserSavedConfig");
    reveal_strlit("codex.setDefaultModel");
    reveal_strlit("codex.getUserAgent");
    reveal_strlit("codex.userInfo");
    reveal_strlit("codex.spawnAuxAgent");
    reveal_strlit("codex.stopAuxAgent");
    reveal_strlit("codex.listAuxAgents");
    assert("reply"@[0] != "codex"@[0]);
    assert("reply"@.len() != "codex-reply"@.len());
    assert("reply"@.len() != "codex.newConversation"@.len());
    assert("reply"@.len() != "codex.sendUserMessage"@.len());
    assert("reply"@.len() != "codex.sendUserTurn"@.len());
    assert("reply"@.len() != "codex.execCommand"@.len());
    assert("reply"@.len() != "codex.gitDiffToRemote"@.len());
    assert("reply"@.len() != "codex.listConversations"@.len());
    assert("reply"@.len() != "codex.resumeConversation"@.len());
    assert("reply"@.len() != "codex.archiveConversation"@.len());
    assert("reply"@.len() != "codex.interruptConversation"@.len());
    assert("reply"@.len() != "codex.loginApiKey"@.len());
    assert("reply"@.len() != "codex.loginChatGpt"@.len());
    assert("reply"@.len() != "codex.cancelLoginChatGpt"@.len());
    assert("reply"@.len() != "codex.logoutChatGpt"@.len());
    assert("reply"@.len() != "codex.getAuthStatus"@.len());
    assert("reply"@.len() != "codex.getUserSavedConfig"@.len());
    assert("reply"@.len() != "codex.setDefaultModel"@.len());
    assert("reply"@.len() != "codex.getUserAgent"@.len());
    assert("reply"@.len() != "codex.userInfo"@.len());
    assert("reply"@.len() != "codex.spawnAuxAgent"@.len());
    assert("reply"@.len() != "codex.stopAuxAgent"@.len());
    assert("reply"@.len() != "codex.listAuxAgents"@.len());
    assert("codex"@.len() != "codex-reply"@.len());
    assert("codex"@.len() != "codex.newConversation"@.len());
    assert("codex"@.len() != "codex.sendUserMessage"@.len());
    assert("codex"@.len() != "codex.sendUserTurn"@.len());
    assert("codex"@.len() != "codex.execCommand"@.len());
    assert("codex"@.len() != "codex.gitDiffToRemote"@.len());
    assert("codex"@.len() != "codex.listConversations"@.len());
    assert("codex"@.len() != "codex.resumeConversation"@.len());
    assert("codex"@.len() != "codex.archiveConversation"@.len());
    assert("codex"@.len() != "codex.interruptConversation"@.len());
    assert("codex"@.len() != "codex.loginApiKey"@.len());
    assert("codex"@.len() != "codex.loginChatGpt"@.len());
    assert("codex"@.len() != "codex.cancelLoginChatGpt"@.len());
    assert("codex"@.len() != "codex.logoutChatGpt"@.len());
    assert("codex"@.len() != "codex.getAuthStatus"@.len());
    assert("codex"@.len() != "codex.getUserSavedConfig"@.len());
    assert("codex"@.len() != "codex.setDefaultModel"@.len());
    assert("codex"@.len() != "codex.getUserAgent"@.len());
    assert("codex"@.len() != "codex.userInfo"@.len());
    assert("codex"@.len() != "codex.spawnAuxAgent"@.len());
    assert("codex"@.len() != "codex.stopAuxAgent"@.len());
    assert("codex"@.len() != "codex.listAuxAgents"@.len());
    assert("codex-reply"@.len() != "codex.newConversation"@.len());
    assert("codex-reply"@.len() != "codex.sendUserMessage"@.len());
    assert("codex-reply"@.len() != "codex.sendUserTurn"@.len());
    assert("codex-reply"@.len() != "codex.execCommand"@.len());
    assert("codex-reply"@.len() != "codex.gitDiffToRemote"@.len());
    assert("codex-reply"@.len() != "codex.listConversations"@.len());
    assert("codex-reply"@.len() != "codex.resumeConversation"@.len());
    assert("codex-reply"@.len() != "codex.archiveConversation"@.len());
    assert("codex-reply"@.len() != "codex.interruptConversation"@.len());
    assert("codex-reply"@.len() != "codex.loginApiKey"@.len());
    assert("codex-reply"@.len() != "codex.loginChatGpt"@.len());
    assert("codex-reply"@.len() != "codex.cancelLoginChatGpt"@.len());
    assert("codex-reply"@.len() != "codex.logoutChatGpt"@.len());
    assert("codex-reply"@.len() != "codex.getAuthStatus"@.len());
    assert("codex-reply"@.len() != "codex.getUserSavedConfig"@.len());
    assert("codex-reply"@.len() != "codex.setDefaultModel"@.len());
    assert("codex-reply"@.len() != "codex.getUserAgent"@.len());
    assert("codex-reply"@.len() != "codex.userInfo"@.len());
    assert("codex-reply"@.len() != "codex.spawnAuxAgent"@.len());
    assert("codex-reply"@.len() != "codex.stopAuxAgent"@.len());
    assert("codex-reply"@.len() != "codex.listAuxAgents"@.len());
    assert("codex.newConversation"@[6] != "codex.sendUserMessage"@[6]);
    assert("codex.newConversation"@.len() != "codex.sendUserTurn"@.len());
    assert("codex.newConversation"@.len() != "codex.execCommand"@.len());
    assert("codex.newConversation"@[6] != "codex.gitDiffToRemote"@[6]);
    assert("codex.newConversation"@.len() != "codex.listConversations"@.len());
    assert("codex.newConversation"@.len() != "codex.resumeConversation"@.len());
    assert("codex.newConversation"@.len() != "codex.archiveConversation"@.len());
    assert("codex.newConversation"@.len() != "codex.interruptConversation"@.len());
    assert("codex.newConversation"@.len() != "codex.loginApiKey"@.len());
    assert("codex.newConversation"@.len() != "codex.loginChatGpt"@.len());
    assert("codex.newConversation"@.len() != "codex.cancelLoginChatGpt"@.len());
    assert("codex.newConversation"@.len() != "codex.logoutChatGpt"@.len());
    assert("codex.newConversation"@.len() != "codex.getAuthStatus"@.len());
    assert("codex.newConversation"@.len() != "codex.getUserSavedConfig"@.len());
    assert("codex.newConversation"@[6] != "codex.setDefaultModel"@[6]);
    assert("codex.newConversation"@.len() != "codex.getUserAgent"@.len());
    assert("codex.newConversation"@.len() != "codex.userInfo"@.len());
    assert("codex.newConversation"@.len() != "codex.spawnAuxAgent"@.len());
    assert("codex.newConversation"@.len() != "codex.stopAuxAgent"@.len());
    assert("codex.newConversation"@.len() != "codex.listAuxAgents"@.len());
    assert("codex.sendUserMessage"@.len() != "codex.sendUserTurn"@.len());
    assert("codex.sendUserMessage"@.len() != "codex.execCommand"@.len());
    assert("codex.sendUserMessage"@[6] != "codex.gitDiffToRemote"@[6]);
    assert("codex.sendUserMessage"@.len() != "codex.listConversations"@.len());
    assert("codex.sendUserMessage"@.len() != "codex.resumeConversation"@.len());
    assert("codex.sendUserMessage"@.len() != "codex.archiveConversation"@.len());
    assert("codex.sendUserMessage"@.len() != "codex.interruptConversation"@.len());
    assert("codex.sendUserMessage"@.len() != "codex.loginApiKey"@.len());
    assert("codex.sendUserMessage"@.len() != "codex.loginChatGpt"@.len());
    assert("codex.sendUserMessage"@.len() != "codex.cancelLoginChatGpt"@.len());
    assert("codex.sendUserMessage"@.len() != "codex.logoutChatGpt"@.len());
    assert("codex.sendUserMessage"@.len() != "codex.getAuthStatus"@.len());
    assert("codex.sendUserMessage"@.len() != "codex.getUserSavedConfig"@.len());
    assert("codex.sendUserMessage"@[8] != "codex.setDefaultModel"@[8]);
    assert("codex.sendUserMessage"@.len() != "codex.getUserAgent"@.len());
    assert("codex.sendUserMessage"@.len() != "codex.userInfo"@.len());
    assert("codex.sendUserMessage"@.len() != "codex.spawnAuxAgent"@.len());
    assert("codex.sendUserMessage"@.len() != "codex.stopAuxAgent"@.len());
    assert("codex.sendUserMessage"@.len() != "codex.listAuxAgents"@.len());
    assert("codex.sendUserTurn"@.len() != "codex.execCommand"@.len());
    assert("codex.sendUserTurn"@.len() != "codex.gitDiffToRemote"@.len());
    assert("codex.sendUserTurn"@.len() != "codex.listConversations"@.len());
    assert("codex.sendUserTurn"@.len() != "codex.resumeConversation"@.len());
    assert("codex.sendUserTurn"@.len() != "codex.archiveConversation"@.len());
    assert("codex.sendUserTurn"@.len() != "codex.interruptConversation"@.len());
    assert("codex.sendUserTurn"@.len() != "codex.loginApiKey"@.len());
    assert("codex.sendUserTurn"@[6] != "codex.loginChatGpt"@[6]);
    assert("codex.sendUserTurn"@.len() != "codex.cancelLoginChatGpt"@.len());
    assert("codex.sendUserTurn"@.len() != "codex.logoutChatGpt"@.len());
    assert("codex.sendUserTurn"@.len() != "codex.getAuthStatus"@.len());
    assert("codex.sendUserTurn"@.len() != "codex.getUserSavedConfig"@.len());
    assert("codex.sendUserTurn"@.len() != "codex.setDefaultModel"@.len());
    assert("codex.sendUserTurn"@[6] != "codex.getUserAgent"@[6]);
    assert("codex.sendUserTurn"@.len() != "codex.userInfo"@.len());
    assert("codex.sendUserTurn"@.len() != "codex.spawnAuxAgent"@.len());
    assert("codex.sendUserTurn"@[7] != "codex.stopAuxAgent"@[7]);
    assert("codex.sendUserTurn"@.len() != "codex.listAuxAgents"@.len());
    assert("codex.execCommand"@.len() != "codex.gitDiffToRemote"@.len());
    assert("codex.execCommand"@.len() != "codex.listConversations"@.len());
    assert("codex.execCommand"@.len() != "codex.resumeConversation"@.len());
    assert("codex.execCommand"@.len() != "codex.archiveConversation"@.len());
    assert("codex.execCommand"@.len() != "codex.interruptConversation"@.len());
    assert("codex.execCommand"@[6] != "codex.loginApiKey"@[6]);
    assert("codex.execCommand"@.len() != "codex.loginChatGpt"@.len());
    assert("codex.execCommand"@.len() != "codex.cancelLoginChatGpt"@.len());
    assert("codex.execCommand"@.len() != "codex.logoutChatGpt"@.len());
    assert("codex.execCommand"@.len() != "codex.getAuthStatus"@.len());
    assert("codex.execCommand"@.len() != "codex.getUserSavedConfig"@.len());
    assert("codex.execCommand"@.len() != "codex.setDefaultModel"@.len());
    assert("codex.execCommand"@.len() != "codex.getUserAgent"@.len());
    assert("codex.execCommand"@.len() != "codex.userInfo"@.len());
    assert("codex.execCommand"@.len() != "codex.spawnAuxAgent"@.len());
    assert("codex.execCommand"@.len() != "codex.stopAuxAgent"@.len());
    assert("codex.execCommand"@.len() != "codex.listAuxAgents"@.len());
    assert("codex.gitDiffToRemote"@.len() != "codex.listConversations"@.len());
    assert("codex.gitDiffToRemote"@.len() != "codex.resumeConversation"@.len());
    assert("codex.gitDiffToRemote"@.len() != "codex.archiveConversation"@.len());
    assert("codex.gitDiffToRemote"@.len() != "codex.interruptConversation"@.len());
    assert("codex.gitDiffToRemote"@.len() != "codex.loginApiKey"@.len());
    assert("codex.gitDiffToRemote"@.len() != "codex.loginChatGpt"@.len());
    assert("codex.gitDiffToRemote"@.len() != "codex.cancelLoginChatGpt"@.len());
    assert("codex.gitDiffToRemote"@.len() != "codex.logoutChatGpt"@.len());
    assert("codex.gitDiffToRemote"@.len() != "codex.getAuthStatus"@.len());
    assert("codex.gitDiffToRemote"@.len() != "codex.getUserSavedConfig"@.len());
    assert("codex.gitDiffToRemote"@[6] != "codex.setDefaultModel"@[6]);
    assert("codex.gitDiffToRemote"@.len() != "codex.getUserAgent"@.len());
    assert("codex.gitDiffToRemote"@.len() != "codex.userInfo"@.len());
    assert("codex.gitDiffToRemote"@.len() != "codex.spawnAuxAgent"@.len());
    assert("codex.gitDiffToRemote"@.len() != "codex.stopAuxAgent"@.len());
    assert("codex.gitDiffToRemote"@.len() != "codex.listAuxAgents"@.len());
    assert("codex.listConversations"@.len() != "codex.resumeConversation"@.len());
    assert("codex.listConversations"@.len() != "codex.archiveConversation"@.len());
    assert("codex.listConversations"@.len() != "codex.interruptConversation"@.len());
    assert("codex.listConversations"@.len() != "codex.loginApiKey"@.len());
    assert("codex.listConversations"@.len() != "codex.loginChatGpt"@.len());
    assert("codex.listConversations"@.len() != "codex.cancelLoginChatGpt"@.len());
    assert("codex.listConversations"@.len() != "codex.logoutChatGpt"@.len());
    assert("codex.listConversations"@.len() != "codex.getAuthStatus"@.len());
    assert("codex.listConversations"@.len() != "codex.getUserSavedConfig"@.len());
    assert("codex.listConversations"@.len() != "codex.setDefaultModel"@.len());
    assert("codex.listConversations"@.len() != "codex.getUserAgent"@.len());
    assert("codex.listConversations"@.len() != "codex.userInfo"@.len());
    assert("codex.listConversations"@.len() != "codex.spawnAuxAgent"@.len());
    assert("codex.listConversations"@.len() != "codex.stopAuxAgent"@.len());
    assert("codex.listConversations"@.len() != "codex.listAuxAgents"@.len());
    assert("codex.resumeConversation"@.len() != "codex.archiveConversation"@.len());
    assert("codex.resumeConversation"@.len() != "codex.interruptConversation"@.len());
    assert("codex.resumeConversation"@.len() != "codex.loginApiKey"@.len());
    assert("codex.resumeConversation"@.len() != "codex.loginChatGpt"@.len());
    assert("codex.resumeConversation"@[6] != "codex.cancelLoginChatGpt"@[6]);
    assert("codex.resumeConversation"@.len() != "codex.logoutChatGpt"@.len());
    assert("codex.resumeConversation"@.len() != "codex.getAuthStatus"@.len());
    assert("codex.resumeConversation"@[6] != "codex.getUserSavedConfig"@[6]);
    assert("codex.resumeConversation"@.len() != "codex.setDefaultModel"@.len());
    assert("codex.resumeConversation"@.len() != "codex.getUserAgent"@.len());
    assert("codex.resumeConversation"@.len() != "codex.userInfo"@.len());
    assert("codex.resumeConversation"@.len() != "codex.spawnAuxAgent"@.len());
    assert("codex.resumeConversation"@.len() != "codex.stopAuxAgent"@.len());
    assert("codex.resumeConversation"@.len() != "codex.listAuxAgents"@.len());
    assert("codex.archiveConversation"@.len() != "codex.interruptConversation"@.len());
    assert("codex.archiveConversation"@.len() != "codex.loginApiKey"@.len());
    assert("codex.archiveConversation"@.len() != "codex.loginChatGpt"@.len());
    assert("codex.archiveConversation"@.len() != "codex.cancelLoginChatGpt"@.len());
    assert("codex.archiveConversation"@.len() != "codex.logoutChatGpt"@.len());
    assert("codex.archiveConversation"@.len() != "codex.getAuthStatus"@.len());
    assert("codex.archiveConversation"@.len() != "codex.getUserSavedConfig"@.len());
    assert("codex.archiveConversation"@.len() != "codex.setDefaultModel"@.len());
    assert("codex.archiveConversation"@.len() != "codex.getUserAgent"@.len());
    assert("codex.archiveConversation"@.len() != "codex.userInfo"@.len());
    assert("codex.archiveConversation"@.len() != "codex.spawnAuxAgent"@.len());
    assert("codex.archiveConversation"@.len() != "codex.stopAuxAgent"@.len());
    assert("codex.archiveConversation"@.len() != "codex.listAuxAgents"@.len());
    assert("codex.interruptConversation"@.len() != "codex.loginApiKey"@.len());
    assert("codex.interruptConversation"@.len() != "codex.loginChatGpt"@.len());
    assert("codex.interruptConversation"@.len() != "codex.cancelLoginChatGpt"@.len());
    assert("codex.interruptConversation"@.len() != "codex.logoutChatGpt"@.len());
    assert("codex.interruptConversation"@.len() != "codex.getAuthStatus"@.len());
    assert("codex.interruptConversation"@.len() != "codex.getUserSavedConfig"@.len());
    assert("codex.interruptConversation"@.len() != "codex.setDefaultModel"@.len());
    assert("codex.interruptConversation"@.len() != "codex.getUserAgent"@.len());
    assert("codex.interruptConversation"@.len() != "codex.userInfo"@.len());
    assert("codex.interruptConversation"@.len() != "codex.spawnAuxAgent"@.len());
    assert("codex.interruptConversation"@.len() != "codex.stopAuxAgent"@.len());
    assert("codex.interruptConversation"@.len() != "codex.listAuxAgents"@.len());
    assert("codex.loginApiKey"@.len() != "codex.loginChatGpt"@.len());
    assert("codex.loginApiKey"@.len() != "codex.cancelLoginChatGpt"@.len());
    assert("codex.loginApiKey"@.len() != "codex.logoutChatGpt"@.len());
    assert("codex.loginApiKey"@.len() != "codex.getAuthStatus"@.len());
    assert("codex.loginApiKey"@.len() != "codex.getUserSavedConfig"@.len());
    assert("codex.loginApiKey"@.len() != "codex.setDefaultModel"@.len());
    assert("codex.loginApiKey"@.len() != "codex.getUserAgent"@.len());
    assert("codex.loginApiKey"@.len() != "codex.userInfo"@.len());
    assert("codex.loginApiKey"@.len() != "codex.spawnAuxAgent"@.len());
    assert("codex.loginApiKey"@.len() != "codex.stopAuxAgent"@.len());
    assert("codex.loginApiKey"@.len() != "codex.listAuxAgents"@.len());
    assert("codex.loginChatGpt"@.len() != "codex.cancelLoginChatGpt"@.len());
    assert("codex.loginChatGpt"@.len() != "codex.logoutChatGpt"@.len());
    assert("codex.loginChatGpt"@.len() != "codex.getAuthStatus"@.len());
    assert("codex.loginChatGpt"@.len() != "codex.getUserSavedConfig"@.len());
    assert("codex.loginChatGpt"@.len() != "codex.setDefaultModel"@.len());
    assert("codex.loginChatGpt"@[6] != "codex.getUserAgent"@[6]);
    assert("codex.loginChatGpt"@.len() != "codex.userInfo"@.len());
    assert("codex.loginChatGpt"@.len() != "codex.spawnAuxAgent"@.len());
    assert("codex.loginChatGpt"@[6] != "codex.stopAuxAgent"@[6]);
    assert("codex.loginChatGpt"@.len() != "codex.listAuxAgents"@.len());
    assert("codex.cancelLoginChatGpt"@.len() != "codex.logoutChatGpt"@.len());
    assert("codex.cancelLoginChatGpt"@.len() != "codex.getAuthStatus"@.len());
    assert("codex.cancelLoginChatGpt"@[6] != "codex.getUserSavedConfig"@[6]);
    assert("codex.cancelLoginChatGpt"@.len() != "codex.setDefaultModel"@.len());
    assert("codex.cancelLoginChatGpt"@.len() != "codex.getUserAgent"@.len());
    assert("codex.cancelLoginChatGpt"@.len() != "codex.userInfo"@.len());
    assert("codex.cancelLoginChatGpt"@.len() != "codex.spawnAuxAgent"@.len());
    assert("codex.cancelLoginChatGpt"@.len() != "codex.stopAuxAgent"@.len());
    assert("codex.cancelLoginChatGpt"@.len() != "codex.listAuxAgents"@.len());
    assert("codex.logoutChatGpt"@[6] != "codex.getAuthStatus"@[6]);
    assert("codex.logoutChatGpt"@.len() != "codex.getUserSavedConfig"@.len());
    assert("codex.logoutChatGpt"@.len() != "codex.setDefaultModel"@.len());
    assert("codex.logoutChatGpt"@.len() != "codex.getUserAgent"@.len());
    assert("codex.logoutChatGpt"@.len() != "codex.userInfo"@.len());
    assert("codex.logoutChatGpt"@[6] != "codex.spawnAuxAgent"@[6]);
    assert("codex.logoutChatGpt"@.len() != "codex.stopAuxAgent"@.len());
    assert("codex.logoutChatGpt"@[7] != "codex.listAuxAgents"@[7]);
    assert("codex.getAuthStatus"@.len() != "codex.getUserSavedConfig"@.len());
    assert("codex.getAuthStatus"@.len() != "codex.setDefaultModel"@.len());
    assert("codex.getAuthStatus"@.len() != "codex.getUserAgent"@.len());
    assert("codex.getAuthStatus"@.len() != "codex.userInfo"@.len());
    assert("codex.getAuthStatus"@[6] != "codex.spawnAuxAgent"@[6]);
    assert("codex.getAuthStatus"@.len() != "codex.stopAuxAgent"@.len());
    assert("codex.getAuthStatus"@[6] != "codex.listAuxAgents"@[6]);
    assert("codex.getUserSavedConfig"@.len() != "codex.setDefaultModel"@.len());
    assert("codex.getUserSavedConfig"@.len() != "codex.getUserAgent"@.len());
    assert("codex.getUserSavedConfig"@.len() != "codex.userInfo"@.len());
    assert("codex.getUserSavedConfig"@.len() != "codex.spawnAuxAgent"@.len());
    assert("codex.getUserSavedConfig"@.len() != "codex.stopAuxAgent"@.len());
    assert("codex.getUserSavedConfig"@.len() != "codex.listAuxAgents"@.len());
    assert("codex.setDefaultModel"@.len() != "codex.getUserAgent"@.len());
    assert("codex.setDefaultModel"@.len() != "codex.userInfo"@.len());
    assert("codex.setDefaultModel"@.len() != "codex.spawnAuxAgent"@.len());
    assert("codex.setDefaultModel"@.len() != "codex.stopAuxAgent"@.len());
    assert("codex.setDefaultModel"@.len() != "codex.listAuxAgents"@.len());
    assert("codex.getUserAgent"@.len() != "codex.userInfo"@.len());
    assert("codex.getUserAgent"@.len() != "codex.spawnAuxAgent"@.len());
    assert("codex.getUserAgent"@[6] != "codex.stopAuxAgent"@[6]);
    assert("codex.getUserAgent"@.len() != "codex.listAuxAgents"@.len());
    assert("codex.userInfo"@.len() != "codex.spawnAuxAgent"@.len());
    assert("codex.userInfo"@.len() != "codex.stopAuxAgent"@.len());
    assert("codex.userInfo"@.len() != "codex.listAuxAgents"@.len());
    assert("codex.spawnAuxAgent"@.len() != "codex.stopAuxAgent"@.len());
    assert("codex.spawnAuxAgent"@[6] != "codex.listAuxAgents"@[6]);
    assert("codex.stopAuxAgent"@.len() != "codex.listAuxAgents"@.len());
    let s = candidate_tool_names(true, Some(1));
    assert(s =~= seq!["reply"@, "codex"@, "codex-reply"@, "codex.newConversation"@, "codex.sendUserMessage"@, "codex.sendUserTurn"@, "codex.execCommand"@, "codex.gitDiffToRemote"@, "codex.listConversations"@, "codex.resumeConversation"@, "codex.archiveConversation"@, "codex.interruptConversation"@, "codex.loginApiKey"@, "codex.loginChatGpt"@, "codex.cancelLoginChatGpt"@, "codex.logoutChatGpt"@, "codex.getAuthStatus"@, "codex.getUserSavedConfig"@, "codex.setDefaultModel"@, "codex.getUserAgent"@, "codex.userInfo"@, "codex.spawnAuxAgent"@, "codex.stopAuxAgent"@, "codex.listAuxAgents"@]);
}

} // verus!

verus! {

/// Every element of `s` is in `dedupe(s)` and nothing else is.
pub proof fn lemma_dedupe_contains(s: Seq<Seq<char>>)
    ensures
        forall|x: Seq<char>| dedupe(s).contains(x) <==> s.contains(x),
    decreases s.len(),
{
    if s.len() > 0 {
        lemma_dedupe_contains(s.drop_last());
        let d = dedupe(s.drop_last());
        assert forall|x: Seq<char>| dedupe(s).contains(x) <==> s.contains(x) by {
            if s.contains(x) {
                let i = choose|i: int| 0 <= i < s.len() && s[i] == x;
                if i < s.len() - 1 {
                    assert(s.drop_last()[i] == x);
                }
            }
            if s.drop_last().contains(x) {
                let i = choose|i: int| 0 <= i < s.drop_last().len() && s.drop_last()[i] == x;
                assert(s[i] == x);
            }
            if !d.contains(s.last()) {
                if d.push(s.last()).contains(x) {
                    let i = choose|i: int| 0 <= i < d.push(s.last()).len() && d.push(s.last())[i] == x;
                    if i < d.len() {
                        assert(d[i] == x);
                    }
                }
                if d.contains(x) {
                    let i = choose|i: int| 0 <= i < d.len() && d[i] == x;
                    assert(d.push(s.last())[i] == x);
                }
                if x == s.last() {
                    assert(d.push(s.last())[d.len() as int] == x);
                }
            }
        }
    }
}

/// `dedupe` leaves no element twice.
pub proof fn lemma_dedupe_no_duplicates(s: Seq<Seq<char>>)
    ensures
        dedupe(s).no_duplicates(),
    decreases s.len(),
{
    if s.len() > 0 {
        lemma_dedupe_no_duplicates(s.drop_last());
        let d = dedupe(s.drop_last());
        if !d.contains(s.last()) {
            let e = d.push(s.last());
            assert forall|i: int, j: int| 0 <= i < e.len() && 0 <= j < e.len() && i != j implies e[i] != e[j] by {
                if i < d.len() && j < d.len() {
                    assert(d[i] != d[j]);
                } else if i == d.len() {
                    assert(e[j] == d[j]);
                } else {
                    assert(e[i] == d[i]);
                }
            }
        }
    }
}

/// A sequence without repetitions is its own `dedupe`.
pub proof fn lemma_dedupe_identity(s: Seq<Seq<char>>)
    requires
        s.no_duplicates(),
    ensures
        dedupe(s) == s,
    decreases s.len(),
{
    if s.len() > 0 {
        let p = s.drop_last();
        assert(p.no_duplicates()) by {
            assert forall|i: int, j: int| 0 <= i < p.len() && 0 <= j < p.len() && i != j implies p[i] != p[j] by {
                assert(s[i] != s[j]);
            }
        }
        lemma_dedupe_identity(p);
        assert(!p.contains(s.last())) by {
            if p.contains(s.last()) {
                let i = choose|i: int| 0 <= i < p.len() && p[i] == s.last();
                assert(s[i] != s[s.len() - 1]);
            }
        }
        assert(p.push(s.last()) =~= s);
    }
}

/// Removing repetitions twice is removing them once.
pub proof fn lemma_dedupe_idempotent(s: Seq<Seq<char>>)
    ensures
        dedupe(dedupe(s)) == dedupe(s),
{
    lemma_dedupe_no_duplicates(s);
    lemma_dedupe_identity(dedupe(s));
}

} // verus!

verus! {

/// The names of the administrative actions.
pub open spec fn admin_names() -> Seq<Seq<char>> {
    spec_admin_actions().map_values(|p: (Seq<char>, Seq<char>)| p.0)
}

/// The names of the auxiliary-agent tools.
pub open spec fn aux_names() -> Seq<Seq<char>> {
    spec_aux_tools().map_values(|p: (Seq<char>, Seq<char>)| p.0)
}

/// The name a catalog tool is announced under.
pub open spec fn tool_name(t: CatalogToolView) -> Seq<char> {
    match t {
        CatalogToolView::CodexSession => "codex"@,
        CatalogToolView::CodexSessionReply => "codex-reply"@,
        CatalogToolView::Described(s) => s.name,
    }
}

proof fn lemma_all_names_layout()
    ensures
        candidate_tool_names(true, Some(1)) == spec_code_editing_tool_names() + admin_names() + aux_names(),
        spec_code_editing_tool_names().len() == 8,
        admin_names().len() == 13,
        aux_names().len() == 3,
{
    assert(candidate_tool_names(true, Some(1)) =~= spec_code_editing_tool_names() + admin_names() + aux_names());
}

/// No name is shared between the code-editing, administrative and auxiliary
/// lists, and none repeats within one.
proof fn lemma_lists_disjoint()
    ensures
        spec_code_editing_tool_names().no_duplicates(),
        forall|x: Seq<char>| admin_names().contains(x) ==> !spec_code_editing_tool_names().contains(x),
        forall|x: Seq<char>| aux_names().contains(x) ==> !spec_code_editing_tool_names().contains(x),
        forall|x: Seq<char>| aux_names().contains(x) ==> !admin_names().contains(x),
{
    lemma_catalog_names_distinct();
    lemma_all_names_layout();
    let all = candidate_tool_names(true, Some(1));
    let c = spec_code_editing_tool_names();
    let a = admin_names();
    let x = aux_names();
    assert forall|i: int, j: int| 0 <= i < c.len() && 0 <= j < c.len() && i != j implies c[i] != c[j] by {
        assert(all[i] == c[i] && all[j] == c[j]);
    }
    assert forall|y: Seq<char>| a.contains(y) implies !c.contains(y) by {
        let i = choose|i: int| 0 <= i < a.len() && a[i] == y;
        assert(all[8 + i] == y);
        if c.contains(y) {
            let j = choose|j: int| 0 <= j < c.len() && c[j] == y;
            assert(all[j] == y);
        }
    }
    assert forall|y: Seq<char>| x.contains(y) implies !c.contains(y) by {
        let i = choose|i: int| 0 <= i < x.len() && x[i] == y;
        assert(all[21 + i] == y);
        if c.contains(y) {
            let j = choose|j: int| 0 <= j < c.len() && c[j] == y;
            assert(all[j] == y);
        }
    }
    assert forall|y: Seq<char>| x.contains(y) implies !a.contains(y) by {
        let i = choose|i: int| 0 <= i < x.len() && x[i] == y;
        assert(all[21 + i] == y);
        if a.contains(y) {
            let j = choose|j: int| 0 <= j < a.len() && a[j] == y;
            assert(all[8 + j] == y);
        }
    }
}

/// Without `--expose-all-tools`, exactly the code-editing tools are announced, in order.
pub proof fn law_default_tool_names(max_aux_agents: Option<usize>)
    ensures
        spec_compute_tool_names(false, max_aux_agents) == spec_code_editing_tool_names(),
{
    lemma_lists_disjoint();
    lemma_dedupe_identity(spec_code_editing_tool_names());
}

/// What is announced: every code-editing tool always; every administrative
/// action exactly when all tools are exposed; every auxiliary-agent tool
/// exactly when all tools are exposed and agents are allowed; each name once.
pub proof fn law_announced_tools(expose_all_tools: bool, max_aux_agents: Option<usize>)
    ensures
        spec_compute_tool_names(expose_all_tools, max_aux_agents).no_duplicates(),
        forall|x: Seq<char>| #[trigger] spec_code_editing_tool_names().contains(x) ==> spec_compute_tool_names(expose_all_tools, max_aux_agents).contains(x),
        forall|x: Seq<char>| #[trigger] admin_names().contains(x) ==> (spec_compute_tool_names(expose_all_tools, max_aux_agents).contains(x) <==> expose_all_tools),
        forall|x: Seq<char>| #[trigger] aux_names().contains(x) ==> (spec_compute_tool_names(expose_all_tools, max_aux_agents).contains(x) <==> (expose_all_tools && max_aux_agents.unwrap_or(0) > 0)),
{
    let cands = candidate_tool_names(expose_all_tools, max_aux_agents);
    lemma_dedupe_no_duplicates(cands);
    lemma_dedupe_contains(cands);
    lemma_lists_disjoint();
    let c = spec_code_editing_tool_names();
    let a = admin_names();
    let x = aux_names();
    assert(a =~= spec_admin_actions().map_values(|p: (Seq<char>, Seq<char>)| p.0));
    assert(x =~= spec_aux_tools().map_values(|p: (Seq<char>, Seq<char>)| p.0));
    assert forall|y: Seq<char>| #[trigger] c.contains(y) implies cands.contains(y) by {
        let i = choose|i: int| 0 <= i < c.len() && c[i] == y;
        assert(cands[i] == y);
    }
    assert forall|y: Seq<char>| #[trigger] a.contains(y) implies (cands.contains(y) <==> expose_all_tools) by {
        let i = choose|i: int| 0 <= i < a.len() && a[i] == y;
        if expose_all_tools {
            assert(cands[8 + i] == y);
        } else {
            assert(cands == c);
        }
        if cands.contains(y) {
            let j = choose|j: int| 0 <= j < cands.len() && cands[j] == y;
            if !expose_all_tools {
                assert(c.contains(y));
            }
        }
    }
    assert forall|y: Seq<char>| #[trigger] x.contains(y) implies (cands.contains(y) <==> (expose_all_tools
        && max_aux_agents.unwrap_or(0) > 0)) by {
        let i = choose|i: int| 0 <= i < x.len() && x[i] == y;
        if expose_all_tools && max_aux_agents.unwrap_or(0) > 0 {
            assert(cands[21 + i] == y);
        }
        if cands.contains(y) {
            let j = choose|j: int| 0 <= j < cands.len() && cands[j] == y;
            if j < 8 {
                assert(c[j] == y);
            } else if j < 21 {
                assert(a[j - 8] == y);
            }
        }
    }
}

} // verus!

verus! {

/// Every catalog name starts with a non-whitespace character.
proof fn lemma_names_not_blank()
    ensures
        forall|k: int|
            0 <= k < candidate_tool_names(true, Some(1)).len() ==> (#[trigger] candidate_tool_names(true, Some(1))[k]).len() > 0
                && !crate::text::is_whitespace_char(candidate_tool_names(true, Some(1))[k][0]),
        "object"@.len() > 0 && !crate::text::is_whitespace_char("object"@[0]),
{
    reveal_strlit("reply");
    reveal_strlit("codex");
    reveal_strlit("codex-reply");
    reveal_strlit("codex.newConversation");
    reveal_strlit("codex.sendUserMessage");
    reveal_strlit("codex.sendUserTurn");
    reveal_strlit("codex.execCommand");
    reveal_strlit("codex.gitDiffToRemote");
    reveal_strlit("codex.listConversations");
    reveal_strlit("codex.resumeConversation");
    reveal_strlit("codex.archiveConversation");
    reveal_strlit("codex.interruptConversation");
    reveal_strlit("codex.loginApiKey");
    reveal_strlit("codex.loginChatGpt");
    reveal_strlit("codex.cancelLoginChatGpt");
    reveal_strlit("codex.logoutChatGpt");
    reveal_strlit("codex.getAuthStatus");
    reveal_strlit("codex.getUserSavedConfig");
    reveal_strlit("codex.setDefaultModel");
    reveal_strlit("codex.getUserAgent");
    reveal_strlit("codex.userInfo");
    reveal_strlit("codex.spawnAuxAgent");
    reveal_strlit("codex.stopAuxAgent");
    reveal_strlit("codex.listAuxAgents");
    reveal_strlit("object");
    assert("reply"@.len() > 0 && "reply"@[0] == 'r');
    assert("codex"@.len() > 0 && "codex"@[0] == 'c');
    assert("codex-reply"@.len() > 0 && "codex-reply"@[0] == 'c');
    assert("codex.newConversation"@.len() > 0 && "codex.newConversation"@[0] == 'c');
    assert("codex.sendUserMessage"@.len() > 0 && "codex.sendUserMessage"@[0] == 'c');
    assert("codex.sendUserTurn"@.len() > 0 && "codex.sendUserTurn"@[0] == 'c');
    assert("codex.execCommand"@.len() > 0 && "codex.execCommand"@[0] == 'c');
    assert("codex.gitDiffToRemote"@.len() > 0 && "codex.gitDiffToRemote"@[0] == 'c');
    assert("codex.listConversations"@.len() > 0 && "codex.listConversations"@[0] == 'c');
    assert("codex.resumeConversation"@.len() > 0 && "codex.resumeConversation"@[0] == 'c');
    assert("codex.archiveConversation"@.len() > 0 && "codex.archiveConversation"@[0] == 'c');
    assert("codex.interruptConversation"@.len() > 0 && "codex.interruptConversation"@[0] == 'c');
    assert("codex.loginApiKey"@.len() > 0 && "codex.loginApiKey"@[0] == 'c');
    assert("codex.loginChatGpt"@.len() > 0 && "codex.loginChatGpt"@[0] == 'c');
    assert("codex.cancelLoginChatGpt"@.len() > 0 && "codex.cancelLoginChatGpt"@[0] == 'c');
    assert("codex.logoutChatGpt"@.len() > 0 && "codex.logoutChatGpt"@[0] == 'c');
    assert("codex.getAuthStatus"@.len() > 0 && "codex.getAuthStatus"@[0] == 'c');
    assert("codex.getUserSavedConfig"@.len() > 0 && "codex.getUserSavedConfig"@[0] == 'c');
    assert("codex.setDefaultModel"@.len() > 0 && "codex.setDefaultModel"@[0] == 'c');
    assert("codex.getUserAgent"@.len() > 0 && "codex.getUserAgent"@[0] == 'c');
    assert("codex.userInfo"@.len() > 0 && "codex.userInfo"@[0] == 'c');
    assert("codex.spawnAuxAgent"@.len() > 0 && "codex.spawnAuxAgent"@[0] == 'c');
    assert("codex.stopAuxAgent"@.len() > 0 && "codex.stopAuxAgent"@[0] == 'c');
    assert("codex.listAuxAgents"@.len() > 0 && "codex.listAuxAgents"@[0] == 'c');
    assert("object"@[0] == 'o');
    let s = candidate_tool_names(true, Some(1));
    assert(s =~= seq!["reply"@, "codex"@, "codex-reply"@, "codex.newConversation"@, "codex.sendUserMessage"@, "codex.sendUserTurn"@, "codex.execCommand"@, "codex.gitDiffToRemote"@, "codex.listConversations"@, "codex.resumeConversation"@, "codex.archiveConversation"@, "codex.interruptConversation"@, "codex.loginApiKey"@, "codex.loginChatGpt"@, "codex.cancelLoginChatGpt"@, "codex.logoutChatGpt"@, "codex.getAuthStatus"@, "codex.getUserSavedConfig"@, "codex.setDefaultModel"@, "codex.getUserAgent"@, "codex.userInfo"@, "codex.spawnAuxAgent"@, "codex.stopAuxAgent"@, "codex.listAuxAgents"@]);
}

/// A name listed in `list` has a description there.
proof fn lemma_find_description_some(list: Seq<(Seq<char>, Seq<char>)>, name: Seq<char>)
    requires
        list.map_values(|p: (Seq<char>, Seq<char>)| p.0).contains(name),
    ensures
        find_description(list, name) is Some,
    decreases list.len(),
{
    let names = list.map_values(|p: (Seq<char>, Seq<char>)| p.0);
    let i = choose|i: int| 0 <= i < names.len() && names[i] == name;
    if list[0].0 != name {
        assert(i > 0);
        let rest = list.drop_first();
        assert(rest.map_values(|p: (Seq<char>, Seq<char>)| p.0)[i - 1] == name);
        lemma_find_description_some(rest, name);
    }
}

/// Every name that may be announced builds into a tool with a sound schema,
/// named after it.
proof fn lemma_candidates_buildable(expose_all_tools: bool, max_aux_agents: Option<usize>, y: Seq<char>)
    requires
        candidate_tool_names(expose_all_tools, max_aux_agents).contains(y),
    ensures
        spec_build_tool(y, max_aux_agents) is Some,
        schema_error(spec_build_tool(y, max_aux_agents)->0) is None,
        tool_name(spec_build_tool(y, max_aux_agents)->0) == y,
        trim(y).len() > 0,
{
    let cands = candidate_tool_names(expose_all_tools, max_aux_agents);
    let all = candidate_tool_names(true, Some(1));
    lemma_all_names_layout();
    lemma_names_not_blank();
    let j = choose|j: int| 0 <= j < cands.len() && cands[j] == y;
    assert(all.contains(y)) by {
        assert(all[j] == y);
    }
    let k = choose|k: int| 0 <= k < all.len() && all[k] == y;
    assert(y.len() > 0 && !crate::text::is_whitespace_char(y[0]));
    crate::text::lemma_not_blank(y);
    crate::text::lemma_not_blank("object"@);
    let c = spec_code_editing_tool_names();
    if y == "reply"@ || y == "codex"@ || y == "codex-reply"@ {
    } else if j < 8 {
        assert(c[j] == y);
        assert(spec_code_editing_actions().map_values(|p: (Seq<char>, Seq<char>)| p.0)[j - 3] == y) by {
            assert(j >= 3);
        }
        lemma_find_description_some(spec_code_editing_actions(), y);
    } else if j < 21 {
        assert(admin_names()[j - 8] == y);
        if find_description(spec_code_editing_actions(), y) is None {
            lemma_find_description_some(spec_admin_actions(), y);
        }
    } else {
        assert(aux_names()[j - 21] == y);
        assert(max_aux_agents.unwrap_or(0) > 0);
        if find_description(spec_code_editing_actions(), y) is None && find_description(spec_admin_actions(), y) is None {
            lemma_find_description_some(spec_aux_tools(), y);
        }
    }
}

/// Building distinct, buildable names succeeds, one tool per name.
proof fn lemma_build_tools_ok(names: Seq<Seq<char>>, max_aux_agents: Option<usize>)
    requires
        names.no_duplicates(),
        forall|i: int|
            0 <= i < names.len() ==> spec_build_tool(#[trigger] names[i], max_aux_agents) is Some
                && schema_error(spec_build_tool(names[i], max_aux_agents)->0) is None
                && tool_name(spec_build_tool(names[i], max_aux_agents)->0) == names[i],
    ensures
        build_tools(names, max_aux_agents) is Ok,
        build_tools(names, max_aux_agents)->Ok_0.len() == names.len(),
        forall|i: int|
            0 <= i < names.len() ==> tool_name(#[trigger] build_tools(names, max_aux_agents)->Ok_0[i]) == names[i],
        forall|i: int|
            0 <= i < names.len() ==> schema_error(#[trigger] build_tools(names, max_aux_agents)->Ok_0[i]) is None,
    decreases names.len(),
{
    if names.len() > 0 {
        let p = names.drop_last();
        assert forall|i: int, j: int| 0 <= i < p.len() && 0 <= j < p.len() && i != j implies p[i] != p[j] by {
            assert(names[i] != names[j]);
        }
        assert forall|i: int| 0 <= i < p.len() implies spec_build_tool(#[trigger] p[i], max_aux_agents) is Some
            && schema_error(spec_build_tool(p[i], max_aux_agents)->0) is None
            && tool_name(spec_build_tool(p[i], max_aux_agents)->0) == p[i] by {
            assert(p[i] == names[i]);
        }
        lemma_build_tools_ok(p, max_aux_agents);
        assert(!p.contains(names.last())) by {
            if p.contains(names.last()) {
                let i = choose|i: int| 0 <= i < p.len() && p[i] == names.last();
                assert(names[i] != names[names.len() - 1]);
            }
        }
        let n = names.len() - 1;
        assert(spec_build_tool(names[n], max_aux_agents) is Some);
    }
}

/// Listing the tools never fails: one tool per announced name, in order;
/// every listed tool has a non-blank name and passes the schema check (a
/// described tool has a non-blank name and input type), so neither a
/// duplicate nor an unknown tool is ever reported.
pub proof fn law_list_tools_succeeds(expose_all_tools: bool, max_aux_agents: Option<usize>)
    ensures
        spec_list_tools(expose_all_tools, max_aux_agents) is Ok,
        spec_list_tools(expose_all_tools, max_aux_agents)->Ok_0.len() == spec_compute_tool_names(
            expose_all_tools,
            max_aux_agents,
        ).len(),
        forall|i: int|
            0 <= i < spec_compute_tool_names(expose_all_tools, max_aux_agents).len() ==> tool_name(
                #[trigger] spec_list_tools(expose_all_tools, max_aux_agents)->Ok_0[i],
            ) == spec_compute_tool_names(expose_all_tools, max_aux_agents)[i],
        forall|i: int|
            0 <= i < spec_compute_tool_names(expose_all_tools, max_aux_agents).len() ==> {
                let t = #[trigger] spec_list_tools(expose_all_tools, max_aux_agents)->Ok_0[i];
                &&& schema_error(t) is None
                &&& trim(tool_name(t)).len() > 0
                &&& (t matches CatalogToolView::Described(d) ==> trim(d.name).len() > 0 && trim(d.input_type).len()
                    > 0)
            },
{
    let cands = candidate_tool_names(expose_all_tools, max_aux_agents);
    let names = spec_compute_tool_names(expose_all_tools, max_aux_agents);
    lemma_dedupe_no_duplicates(cands);
    lemma_dedupe_contains(cands);
    assert forall|i: int| 0 <= i < names.len() implies spec_build_tool(#[trigger] names[i], max_aux_agents) is Some
        && schema_error(spec_build_tool(names[i], max_aux_agents)->0) is None
        && tool_name(spec_build_tool(names[i], max_aux_agents)->0) == names[i] && trim(names[i]).len() > 0 by {
        assert(names.contains(names[i]));
        lemma_candidates_buildable(expose_all_tools, max_aux_agents, names[i]);
    }
    lemma_build_tools_ok(names, max_aux_agents);
    let tools = spec_list_tools(expose_all_tools, max_aux_agents)->Ok_0;
    assert forall|i: int| 0 <= i < names.len() implies {
        let t = #[trigger] tools[i];
        &&& schema_error(t) is None
        &&& trim(tool_name(t)).len() > 0
        &&& (t matches CatalogToolView::Described(d) ==> trim(d.name).len() > 0 && trim(d.input_type).len() > 0)
    } by {
        assert(tool_name(tools[i]) == names[i]);
        assert(trim(names[i]).len() > 0);
    }
}

} // verus!

verus! {

impl CatalogTool {
    /// The name the tool is announced under.
    pub fn name(&self) -> (r: String)
        ensures
            r@ == tool_name(self@),
    {
        match self {
            CatalogTool::CodexSession => "codex".to_owned(),
            CatalogTool::CodexSessionReply => "codex-reply".to_owned(),
            CatalogTool::Described(t) => t.name.clone(),
        }
    }
}

} // verus!

use codex_mcp::catalog::{
    admin_actions, aux_tools, build_tool_by_name, code_editing_tool_names, compute_tool_names, create_reply_tool,
    dedupe_preserving_order, is_code_editing_tool, list_tools, validate_tool_schema, CatalogTool, ToolSpec,
};
use codex_mcp::keyed_map::KeyedMap;
use codex_mcp::server::{McpServerOpts, McpServerRunOptions};

fn empty_opts() -> McpServerOpts {
    McpServerOpts {
        expose_all_tools: false,
        overrides: KeyedMap::new(),
    }
}

#[test]
fn default_compute_tool_names_returns_allowlist() {
    let names = compute_tool_names(&empty_opts(), None);
    let expected: Vec<String> = code_editing_tool_names();
    assert_eq!(names, expected);
}

#[test]
fn list_tools_matches_allowlist_by_default() {
    let opts = empty_opts();
    let tools = list_tools(&opts, None).expect("list tools");
    let names: Vec<String> = tools.iter().map(|tool| tool.name()).collect();
    for expected in code_editing_tool_names() {
        assert!(names.contains(&expected));
    }
    for (admin, _) in admin_actions() {
        assert!(!names.contains(&admin));
    }
}

#[test]
fn expose_all_tools_includes_admin_catalog() {
    let mut opts = empty_opts();
    opts.expose_all_tools = true;
    let tools = list_tools(&opts, Some(2)).expect("list tools");
    let names: Vec<String> = tools.iter().map(|tool| tool.name()).collect();
    for expected in code_editing_tool_names() {
        assert!(names.contains(&expected));
    }
    for (admin, _) in admin_actions() {
        assert!(names.contains(&admin));
    }
    for (aux, _) in aux_tools() {
        assert!(names.contains(&aux));
    }
}

#[test]
fn aux_tools_need_agents() {
    let mut opts = empty_opts();
    opts.expose_all_tools = true;
    let names = compute_tool_names(&opts, Some(0));
    assert_eq!(names.len(), 8 + 13);
    assert!(!names.contains(&"codex.spawnAuxAgent".to_string()));
    let with_agents = compute_tool_names(&opts, Some(1));
    assert_eq!(with_agents.len(), 8 + 13 + 3);
    assert_eq!(with_agents.last(), Some(&"codex.listAuxAgents".to_string()));
    // Agents alone do not expose anything beyond the default set.
    assert_eq!(compute_tool_names(&empty_opts(), Some(3)), code_editing_tool_names());
}

#[test]
fn dedupe_keeps_first_occurrences_in_order() {
    let v = vec!["b".to_string(), "a".to_string(), "b".to_string(), "c".to_string(), "a".to_string()];
    assert_eq!(dedupe_preserving_order(v), vec!["b".to_string(), "a".to_string(), "c".to_string()]);
    let once = dedupe_preserving_order(vec!["x".to_string(), "x".to_string()]);
    assert_eq!(dedupe_preserving_order(once.clone()), once);
}

#[test]
fn code_editing_membership() {
    assert!(is_code_editing_tool("codex.execCommand"));
    assert!(is_code_editing_tool("reply"));
    assert!(!is_code_editing_tool("codex.loginApiKey"));
}

#[test]
fn tools_are_built_by_name() {
    match build_tool_by_name("codex", None) {
        Some(CatalogTool::CodexSession) => {}
        other => panic!("expected codex session tool, got {other:?}"),
    }
    match build_tool_by_name("codex.getUserAgent", None) {
        Some(CatalogTool::Described(t)) => {
            assert_eq!(t.name, "codex.getUserAgent");
            assert_eq!(t.title.as_deref(), Some("codex.getUserAgent"));
            assert_eq!(t.description.as_deref(), Some("Return the Codex user agent string."));
            assert_eq!(t.input_type, "object");
        }
        other => panic!("expected described tool, got {other:?}"),
    }
    assert!(build_tool_by_name("codex.stopAuxAgent", None).is_none());
    assert!(build_tool_by_name("codex.stopAuxAgent", Some(1)).is_some());
    assert!(build_tool_by_name("nope", Some(1)).is_none());
}

#[test]
fn reply_tool_requires_prompt() {
    let t = create_reply_tool();
    assert_eq!(t.name, "reply");
    assert_eq!(t.title.as_deref(), Some("Reply"));
    assert_eq!(t.required, Some(vec!["prompt".to_string()]));
    let props = t.properties.expect("properties");
    assert_eq!(props.len(), 1);
    assert_eq!(props[0].name, "prompt");
    assert_eq!(props[0].kind, "string");
}

#[test]
fn schema_validation_rejects_blank_fields() {
    let blank_name = CatalogTool::Described(ToolSpec {
        name: "  ".to_string(),
        title: None,
        description: None,
        properties: None,
        required: None,
        input_type: "object".to_string(),
    });
    assert_eq!(validate_tool_schema(&blank_name), Err("tool name cannot be empty".to_string()));
    let blank_type = CatalogTool::Described(ToolSpec {
        name: "t".to_string(),
        title: None,
        description: None,
        properties: None,
        required: None,
        input_type: " ".to_string(),
    });
    assert_eq!(validate_tool_schema(&blank_type), Err("tool 't' is missing an input schema type".to_string()));
    assert_eq!(validate_tool_schema(&CatalogTool::CodexSessionReply), Ok(()));
}

#[test]
fn listed_tools_carry_announced_names_in_order() {
    let mut opts = empty_opts();
    opts.expose_all_tools = true;
    let names = compute_tool_names(&opts, Some(2));
    let tools = list_tools(&opts, Some(2)).expect("list tools");
    let listed: Vec<String> = tools.iter().map(|t| t.name()).collect();
    assert_eq!(listed, names);
}

#[test]
fn run_options_default_exposes_all_tools() {
    let d = McpServerRunOptions::default();
    assert!(d.opts.expose_all_tools);
    assert_eq!(d.opts.overrides.len(), 0);
    assert_eq!(d.max_aux_agents, None);
    let o = McpServerOpts::default();
    assert!(!o.expose_all_tools);
}

#[test]
fn every_listed_tool_passes_the_schema_check() {
    for expose in [false, true] {
        for agents in [None, Some(0), Some(2)] {
            let mut opts = empty_opts();
            opts.expose_all_tools = expose;
            let tools = list_tools(&opts, agents).expect("list tools");
            for tool in &tools {
                assert!(!tool.name().trim().is_empty());
                assert_eq!(validate_tool_schema(tool), Ok(()));
            }
        }
    }
}

use codex_mcp::cli::{
    effective_max_aux_agents, finalize_serve_args, format_args, format_env, ignored_flags_warning_text,
    ignored_serve_flags, parse_env_pair, parse_plain_overrides, plain_overrides_as_toml, prepare_add,
    prepare_remove, removal_message, added_message, render_server_details, render_server_list, find_server,
    serve_run_options, serve_settings_text, validate_server_name, AddArgs, CliConfigOverrides, GetArgs, ListArgs, McpAction, McpCli,
    McpServerConfig, McpSubcommand, RemoveArgs, ServeArgs, ServeCommandArgs,
};
use codex_mcp::keyed_map::KeyedMap;
use toml::Value;

fn overrides_from(raw: &[&str]) -> CliConfigOverrides {
    CliConfigOverrides {
        raw_overrides: raw.iter().map(|s| s.to_string()).collect(),
    }
}

#[test]
fn finalize_serve_args_combines_global_and_sub_flags() {
    let mut global = ServeArgs::default();
    global.expose_all_tools = true;

    let mut sub = ServeCommandArgs::default();
    sub.flags.expose_all_tools = true;
    sub.flags.enable_multiagent = true;
    sub.flags.max_aux_agents = Some(3);

    let (combined_flags, passthrough) = finalize_serve_args(global.clone(), Some(sub.clone()));
    assert!(combined_flags.expose_all_tools);
    assert!(combined_flags.enable_multiagent);
    assert_eq!(combined_flags.max_aux_agents, Some(3));
    assert!(passthrough.is_empty());

    let mut sub_passthrough = ServeCommandArgs::default();
    sub_passthrough.flags.enable_multiagent = true;
    sub_passthrough.passthrough = vec!["--method".to_string()];
    let (_combined_flags, combined_passthrough) =
        finalize_serve_args(global.clone(), Some(sub_passthrough.clone()));
    assert_eq!(combined_passthrough, sub_passthrough.passthrough);
}

#[test]
fn parse_plain_overrides_handles_basic_pairs() {
    let overrides = overrides_from(&["model=o3", "foo.bar=baz"]);
    let map = parse_plain_overrides(&overrides).expect("parse overrides");

    assert_eq!(map.get("model"), Some(&"o3".to_string()));
    assert_eq!(map.get("foo.bar"), Some(&"baz".to_string()));
}

#[test]
fn parse_plain_overrides_rejects_missing_equals() {
    let overrides = overrides_from(&["missing"]);
    let err = parse_plain_overrides(&overrides).expect_err("should fail");
    assert!(err.to_string().contains("expected key=value"));
}

#[test]
fn plain_overrides_are_sorted_and_stringified() {
    let overrides = overrides_from(&["beta=1", "alpha=two"]);
    let entries: Vec<(String, Value)> = plain_overrides_as_toml(&overrides)
        .expect("convert overrides")
        .into_iter()
        .map(|(key, value)| (key, Value::String(value)))
        .collect();
    assert_eq!(
        entries,
        vec![
            ("alpha".to_string(), Value::String("two".to_string())),
            ("beta".to_string(), Value::String("1".to_string())),
        ]
    );
}

#[test]
fn global_flags_alone_are_kept_without_subcommand() {
    let global = ServeArgs { expose_all_tools: false, enable_multiagent: true, max_aux_agents: Some(4) };
    let (flags, passthrough) = finalize_serve_args(global, None);
    assert!(!flags.expose_all_tools);
    assert!(flags.enable_multiagent);
    assert_eq!(flags.max_aux_agents, Some(4));
    assert!(passthrough.is_empty());
}

#[test]
fn global_limit_used_when_subcommand_gives_none() {
    let global = ServeArgs { expose_all_tools: false, enable_multiagent: false, max_aux_agents: Some(7) };
    let sub = ServeCommandArgs::default();
    let (flags, _) = finalize_serve_args(global, Some(sub));
    assert_eq!(flags.max_aux_agents, Some(7));
    assert!(!flags.enable_multiagent);
}

#[test]
fn later_override_of_a_key_wins() {
    let overrides = overrides_from(&["model=o3", "model=gpt-5"]);
    let map = parse_plain_overrides(&overrides).expect("parse overrides");
    assert_eq!(map.len(), 1);
    assert_eq!(map.get("model"), Some(&"gpt-5".to_string()));
}

#[test]
fn override_keys_are_trimmed_and_values_kept_verbatim() {
    let overrides = overrides_from(&["  model  = o3 =x"]);
    let map = parse_plain_overrides(&overrides).expect("parse overrides");
    assert_eq!(map.get("model"), Some(&" o3 =x".to_string()));
}

#[test]
fn override_with_blank_key_is_rejected_with_its_text() {
    let overrides = overrides_from(&["ok=1", "  =v"]);
    let err = parse_plain_overrides(&overrides).expect_err("should fail");
    assert_eq!(err, "invalid config override '  =v': expected key=value");
}

#[test]
fn effective_limit_defaults() {
    assert_eq!(effective_max_aux_agents(false, Some(9)), Some(9));
    assert_eq!(effective_max_aux_agents(false, None), Some(0));
    assert_eq!(effective_max_aux_agents(true, None), Some(2));
    assert_eq!(effective_max_aux_agents(true, Some(5)), Some(5));
}

#[test]
fn env_pair_parses_and_rejects() {
    assert_eq!(parse_env_pair(" KEY =a=b"), Ok(("KEY".to_string(), "a=b".to_string())));
    assert_eq!(
        parse_env_pair("novalue"),
        Err("environment entries must be in KEY=VALUE form".to_string())
    );
    assert_eq!(
        parse_env_pair("=x"),
        Err("environment entries must be in KEY=VALUE form".to_string())
    );
}

#[test]
fn server_names_are_validated() {
    assert_eq!(validate_server_name("my-tool_2"), Ok(()));
    assert_eq!(
        validate_server_name("bad name"),
        Err("invalid server name 'bad name' (use letters, numbers, '-', '_')".to_string())
    );
    assert!(validate_server_name("").is_err());
}

#[test]
fn ignored_flags_are_listed_in_order() {
    let args = ServeArgs { expose_all_tools: true, enable_multiagent: false, max_aux_agents: Some(1) };
    assert_eq!(ignored_serve_flags(&args), vec!["--expose-all-tools".to_string(), "--max-aux-agents".to_string()]);
    assert_eq!(
        ignored_flags_warning_text(&args, "list"),
        Some("[mcp] warning: [\"--expose-all-tools\", \"--max-aux-agents\"] ignored for `codex mcp list`".to_string())
    );
    assert_eq!(ignored_flags_warning_text(&ServeArgs::default(), "get"), None);
}

#[test]
fn plan_defaults_to_serve() {
    let cli = McpCli {
        config_overrides: CliConfigOverrides::default(),
        serve_args: ServeArgs { expose_all_tools: true, enable_multiagent: false, max_aux_agents: None },
        cmd: None,
    };
    let plan = cli.plan();
    assert!(plan.warning.is_none());
    match plan.action {
        McpAction::Serve(flags, passthrough) => {
            assert!(flags.expose_all_tools);
            assert!(passthrough.is_empty());
        }
        other => panic!("expected serve, got {other:?}"),
    }
}

#[test]
fn plan_for_list_warns_about_serve_flags() {
    let cli = McpCli {
        config_overrides: CliConfigOverrides::default(),
        serve_args: ServeArgs { expose_all_tools: false, enable_multiagent: true, max_aux_agents: None },
        cmd: Some(McpSubcommand::List(ListArgs { json: true })),
    };
    let plan = cli.plan();
    assert_eq!(
        plan.warning,
        Some("[mcp] warning: [\"--enable-multiagent\"] ignored for `codex mcp list`".to_string())
    );
    assert!(matches!(plan.action, McpAction::List(ListArgs { json: true })));
}

#[test]
fn plan_for_serve_merges_flags() {
    let cli = McpCli {
        config_overrides: CliConfigOverrides::default(),
        serve_args: ServeArgs { expose_all_tools: true, enable_multiagent: false, max_aux_agents: Some(1) },
        cmd: Some(McpSubcommand::Serve(ServeCommandArgs {
            flags: ServeArgs { expose_all_tools: false, enable_multiagent: true, max_aux_agents: None },
            passthrough: vec!["--cli".to_string()],
        })),
    };
    let plan = cli.plan();
    assert!(plan.warning.is_none());
    match plan.action {
        McpAction::Serve(flags, passthrough) => {
            assert!(flags.expose_all_tools);
            assert!(flags.enable_multiagent);
            assert_eq!(flags.max_aux_agents, Some(1));
            assert_eq!(passthrough, vec!["--cli".to_string()]);
        }
        other => panic!("expected serve, got {other:?}"),
    }
}

#[test]
fn plan_for_get_without_flags_gives_no_warning() {
    let cli = McpCli {
        config_overrides: CliConfigOverrides::default(),
        serve_args: ServeArgs::default(),
        cmd: Some(McpSubcommand::Get(GetArgs { name: "docs".to_string(), json: false })),
    };
    let plan = cli.plan();
    assert!(plan.warning.is_none());
    match plan.action {
        McpAction::Get(args) => assert_eq!(args.name, "docs"),
        other => panic!("expected get, got {other:?}"),
    }
}

#[test]
fn add_builds_server_entry() {
    let args = AddArgs {
        name: "docs".to_string(),
        env: vec![("B".to_string(), "2".to_string()), ("A".to_string(), "1".to_string())],
        command: vec!["docs-server".to_string(), "--port".to_string(), "4000".to_string()],
    };
    let (name, cfg) = prepare_add(&CliConfigOverrides::default(), args).expect("add");
    assert_eq!(name, "docs");
    assert_eq!(cfg.command, "docs-server");
    assert_eq!(cfg.args, vec!["--port".to_string(), "4000".to_string()]);
    assert_eq!(cfg.startup_timeout_ms, None);
    assert_eq!(format_env(&cfg.env), "A=1, B=2");
    assert_eq!(added_message(&name), "Added global MCP server 'docs'.");
}

#[test]
fn add_without_command_is_refused() {
    let args = AddArgs { name: "docs".to_string(), env: vec![], command: vec![] };
    assert_eq!(prepare_add(&CliConfigOverrides::default(), args).map(|_| ()), Err("command is required".to_string()));
}

#[test]
fn add_with_bad_override_is_refused_first() {
    let args = AddArgs { name: "bad name".to_string(), env: vec![], command: vec![] };
    let err = prepare_add(&overrides_from(&["oops"]), args).map(|_| ()).expect_err("should fail");
    assert_eq!(err, "invalid config override 'oops': expected key=value");
}

#[test]
fn remove_validates_and_reports() {
    assert_eq!(prepare_remove(&CliConfigOverrides::default(), RemoveArgs { name: "docs".to_string() }), Ok("docs".to_string()));
    assert!(prepare_remove(&CliConfigOverrides::default(), RemoveArgs { name: "a/b".to_string() }).is_err());
    assert_eq!(removal_message("docs", true), "Removed global MCP server 'docs'.");
    assert_eq!(removal_message("docs", false), "No MCP server named 'docs' found.");
}

fn server(command: &str, args: &[&str], env: Option<&[(&str, &str)]>, timeout: Option<u64>) -> McpServerConfig {
    McpServerConfig {
        command: command.to_string(),
        args: args.iter().map(|s| s.to_string()).collect(),
        env: env.map(|pairs| {
            let mut m = KeyedMap::new();
            for (k, v) in pairs {
                m.insert(k.to_string(), v.to_string());
            }
            m
        }),
        startup_timeout_ms: timeout,
    }
}

#[test]
fn listing_is_a_padded_table_sorted_by_name() {
    let mut servers = KeyedMap::new();
    servers.insert("zeta".to_string(), server("z", &[], None, None));
    servers.insert("alpha".to_string(), server("run-alpha", &["-v", "x"], Some(&[("K", "V")]), None));
    let lines = render_server_list(&servers);
    assert_eq!(
        lines,
        vec![
            "Name   Command    Args  Env".to_string(),
            "alpha  run-alpha  -v x  K=V".to_string(),
            "zeta   z          -     -  ".to_string(),
        ]
    );
}

#[test]
fn empty_listing_suggests_adding() {
    let servers: KeyedMap<McpServerConfig> = KeyedMap::new();
    assert_eq!(
        render_server_list(&servers),
        vec!["No MCP servers configured yet. Try `codex mcp add my-tool -- my-command`.".to_string()]
    );
}

#[test]
fn details_show_every_field() {
    let cfg = server("run", &[], Some(&[]), Some(500));
    assert_eq!(
        render_server_details("docs", &cfg),
        vec![
            "docs".to_string(),
            "  command: run".to_string(),
            "  args: -".to_string(),
            "  env: -".to_string(),
            "  startup_timeout_ms: 500".to_string(),
            "  remove: codex mcp remove docs".to_string(),
        ]
    );
    assert_eq!(format_args(&vec!["a".to_string(), "b".to_string()]), "a b");
}

#[test]
fn missing_server_is_reported() {
    let servers: KeyedMap<McpServerConfig> = KeyedMap::new();
    assert_eq!(find_server(&servers, "docs").map(|_| ()), Err("No MCP server named 'docs' found.".to_string()));
}

#[test]
fn serve_options_carry_overrides_and_limit() {
    let flags = ServeArgs { expose_all_tools: true, enable_multiagent: true, max_aux_agents: None };
    let opts = serve_run_options(&overrides_from(&["a=b"]), flags).expect("options");
    assert!(opts.opts.expose_all_tools);
    assert_eq!(opts.max_aux_agents, Some(2));
    assert_eq!(opts.opts.overrides.get("a"), Some(&"b".to_string()));
    assert!(serve_run_options(&overrides_from(&["nokey"]), flags).is_err());
}

#[test]
fn serve_settings_line_shows_flags_and_limit() {
    assert_eq!(
        serve_settings_text(true, false, Some(0)),
        "[mcp] expose_all_tools=true enable_multiagent=false max_aux_agents=Some(0)"
    );
    assert_eq!(
        serve_settings_text(false, true, None),
        "[mcp] expose_all_tools=false enable_multiagent=true max_aux_agents=None"
    );
}

#[test]
fn limit_alone_enables_agents() {
    // `codex mcp serve --expose-all-tools --max-aux-agents=3` runs with up to three helpers.
    let flags = ServeArgs { expose_all_tools: true, enable_multiagent: false, max_aux_agents: Some(3) };
    let opts = serve_run_options(&CliConfigOverrides::default(), flags).expect("options");
    assert!(opts.opts.expose_all_tools);
    assert_eq!(opts.max_aux_agents, Some(3));
}

#[test]
fn override_pairs_keep_values_verbatim() {
    let overrides = overrides_from(&["b= x ", "a=1", "b=2"]);
    let entries = plain_overrides_as_toml(&overrides).expect("convert overrides");
    assert_eq!(entries, vec![("a".to_string(), "1".to_string()), ("b".to_string(), "2".to_string())]);
}

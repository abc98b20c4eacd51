use codex_mcp::proxy::{
    applypatch_precheck, applypatch_reply, astgrep_plan, astgrep_reply, bad_args_reply, combine_output,
    default_ripgrep_excludes, exec_plan, exec_reply, first_lines, proxy_tool_headings, readfile_reply,
    ripgrep_max_results, ripgrep_plan, ripgrep_reply, route_proxy_tool, toolhelp_reply, trunc_utf8,
    unknown_tool_reply, AstGrepParams, ProxyFailure, ExecParams, ProxyTool, RipgrepParams,
};

#[test]
fn trunc_keeps_short_text() {
    assert_eq!(trunc_utf8("hello".to_string(), 5), "hello");
    assert_eq!(trunc_utf8(String::new(), 0), "");
}

#[test]
fn trunc_cuts_at_char_boundary_and_marks() {
    assert_eq!(trunc_utf8("hello world".to_string(), 5), "hello\n... [truncated]\n");
    // "é" is two bytes: a cut inside it backs off to the boundary before it.
    assert_eq!(trunc_utf8("aé".to_string(), 2), "a\n... [truncated]\n");
    assert_eq!(trunc_utf8("éé".to_string(), 1), "\n... [truncated]\n");
}

#[test]
fn default_excludes() {
    assert_eq!(
        default_ripgrep_excludes(),
        vec![".git".to_string(), "node_modules".to_string(), "target".to_string()]
    );
}

#[test]
fn exec_plan_defaults() {
    let plan = exec_plan(&ExecParams { command: "ls -la".into(), cwd: None, timeout_ms: None, max_output_bytes: None });
    assert_eq!(plan.program, "bash");
    assert_eq!(plan.args, vec!["-lc".to_string(), "ls -la".to_string()]);
    assert_eq!(plan.timeout_ms, 120_000);
    assert_eq!(plan.max_output_bytes, 65_536);
    let plan = exec_plan(&ExecParams {
        command: "pwd".into(),
        cwd: Some("/tmp".into()),
        timeout_ms: Some(5),
        max_output_bytes: Some(10),
    });
    assert_eq!(plan.cwd.as_deref(), Some("/tmp"));
    assert_eq!(plan.timeout_ms, 5);
    assert_eq!(plan.max_output_bytes, 10);
}

#[test]
fn astgrep_plan_builds_arguments() {
    let p = AstGrepParams {
        raw_args: None,
        pattern: Some("foo($A)".into()),
        paths: None,
        json: None,
        timeout_ms: None,
        max_output_bytes: None,
    };
    let plan = astgrep_plan(&p);
    assert_eq!(plan.program, "ast-grep");
    assert_eq!(plan.args, vec!["--json".to_string(), "-p".to_string(), "foo($A)".to_string(), ".".to_string()]);
    assert_eq!(plan.timeout_ms, 60_000);
    assert_eq!(plan.max_output_bytes, 120_000);
    let raw = AstGrepParams {
        raw_args: Some(vec!["scan".into()]),
        pattern: Some("ignored".into()),
        paths: Some(vec!["src".into()]),
        json: Some(false),
        timeout_ms: Some(1),
        max_output_bytes: Some(2),
    };
    assert_eq!(astgrep_plan(&raw).args, vec!["scan".to_string()]);
    let no_json = AstGrepParams {
        raw_args: None,
        pattern: None,
        paths: Some(vec!["a".into(), "b".into()]),
        json: Some(false),
        timeout_ms: None,
        max_output_bytes: None,
    };
    assert_eq!(astgrep_plan(&no_json).args, vec!["a".to_string(), "b".to_string()]);
}

#[test]
fn ripgrep_plan_builds_arguments() {
    let p = RipgrepParams {
        pattern: "TODO".into(),
        paths: vec![],
        globs_exclude: default_ripgrep_excludes(),
        max_results: None,
        timeout_ms: None,
    };
    let plan = ripgrep_plan(&p);
    assert_eq!(plan.program, "rg");
    let expected: Vec<String> = [
        "-n", "--json", "--no-heading", "--color", "never", "--glob", "!.git", "--glob", "!node_modules", "--glob",
        "!target", "--", "TODO", ".",
    ]
    .iter()
    .map(|s| s.to_string())
    .collect();
    assert_eq!(plan.args, expected);
    assert_eq!(plan.timeout_ms, 60_000);
    assert_eq!(ripgrep_max_results(&p), 500);
}

#[test]
fn output_is_combined_with_stderr_section() {
    assert_eq!(combine_output(b"out", b"err"), "out\n[stderr]\nerr");
    assert_eq!(combine_output(b"", b"err"), "\n[stderr]\nerr");
    assert_eq!(combine_output(b"out", b""), "out");
    // Invalid UTF-8 is replaced, not refused.
    assert_eq!(combine_output(&[0x61, 0xff], b""), "a\u{fffd}");
}

#[test]
fn exec_reply_reports_exit_code() {
    let r = exec_reply(b"fine", b"", Some(0), 100);
    assert!(!r.is_error);
    assert_eq!(r.text, "fine");
    let r = exec_reply(b"", b"boom", Some(2), 100);
    assert!(r.is_error);
    assert_eq!(r.text, "exit 2\n\n[stderr]\nboom");
    let r = exec_reply(b"x", b"", None, 100);
    assert_eq!(r.text, "exit -1\nx");
}

#[test]
fn astgrep_and_readfile_replies() {
    let r = astgrep_reply(b"abcdef", b"", false, 3);
    assert!(r.is_error);
    assert_eq!(r.text, "abc\n... [truncated]\n");
    let r = readfile_reply(b"hello", Some(2));
    assert!(!r.is_error);
    assert_eq!(r.text, "he\n... [truncated]\n");
    assert_eq!(readfile_reply(b"hello", None).text, "hello");
}

#[test]
fn ripgrep_reply_keeps_first_lines() {
    let r = ripgrep_reply(true, b"a\r\nb\nc\n", b"", 2);
    assert!(!r.is_error);
    assert_eq!(r.text, "a\nb");
    let r = ripgrep_reply(false, b"ignored", b"bad regex", 2);
    assert!(r.is_error);
    assert_eq!(r.text, "bad regex");
    assert_eq!(first_lines("one\ntwo\n", 10), "one\ntwo");
    assert_eq!(first_lines("", 3), "");
}

#[test]
fn applypatch_checks_and_reports() {
    let refused = applypatch_precheck("  \n").expect("refused");
    assert!(refused.is_error);
    assert_eq!(refused.text, "chatgpt.applyPatch requires a non-empty patch");
    assert!(applypatch_precheck("*** Begin Patch").is_none());
    assert_eq!(applypatch_reply(Ok(()), b"", b"").text, "Patch applied.");
    assert_eq!(applypatch_reply(Ok(()), b" done \n", b"warn").text, "done\nwarn");
    let r = applypatch_reply(Err("bad hunk".into()), b"", b" details ");
    assert!(r.is_error);
    assert_eq!(r.text, "failed to apply patch: bad hunk\ndetails");
    assert_eq!(applypatch_reply(Err("x".into()), b"", b"").text, "failed to apply patch: x");
}

#[test]
fn proxy_tools_are_routed_by_name() {
    assert_eq!(route_proxy_tool("chatgpt.exec"), Some(ProxyTool::Exec));
    assert_eq!(route_proxy_tool("chatgpt.README"), Some(ProxyTool::Readme));
    assert_eq!(route_proxy_tool("chatgpt.toolHelp"), Some(ProxyTool::ToolHelp));
    assert_eq!(route_proxy_tool("chatgpt.nope"), None);
    let r = unknown_tool_reply("chatgpt.nope");
    assert!(r.is_error);
    assert_eq!(r.text, "Unknown tool: chatgpt.nope");
    assert_eq!(bad_args_reply().text, "bad or missing args");
    assert_eq!(toolhelp_reply().text, "Use chatgpt.README for detailed how-to of all chatgpt.* tools.");
}

#[test]
fn readme_is_listed_first() {
    let headings = proxy_tool_headings();
    let names: Vec<&str> = headings.iter().map(|h| h.name.as_str()).collect();
    assert_eq!(
        names,
        vec![
            "chatgpt.README",
            "chatgpt.toolHelp",
            "chatgpt.exec",
            "chatgpt.ripgrep",
            "chatgpt.readFile",
            "chatgpt.astGrep",
            "chatgpt.applyPatch",
        ]
    );
    assert_eq!(headings[2].title, "Execute shell command");
}

#[test]
fn failures_are_answered_with_their_text() {
    let r = ProxyFailure::ExecTimeout(120_000).reply();
    assert!(r.is_error);
    assert_eq!(r.text, "timeout after 120s");
    assert_eq!(ProxyFailure::RipgrepTimeout(1_500).reply().text, "ripgrep timeout after 1.5s");
    assert_eq!(ProxyFailure::ExecTimeout(5).reply().text, "timeout after 5ms");
    assert_eq!(ProxyFailure::AstGrepTimeout.reply().text, "ast-grep timeout");
    assert_eq!(ProxyFailure::ExecSpawn("no bash".into()).reply().text, "spawn error: no bash");
    assert_eq!(ProxyFailure::AstGrepSpawn("x".into()).reply().text, "ast-grep spawn error: x");
    assert_eq!(ProxyFailure::RipgrepSpawn("y".into()).reply().text, "ripgrep spawn error: y");
    assert_eq!(ProxyFailure::ReadError("denied".into()).reply().text, "read error: denied");
    assert_eq!(
        ProxyFailure::PatchTaskJoin("panicked".into()).reply().text,
        "failed to apply patch (task join error): panicked"
    );
}

use codex_mcp::tool_calls::{
    answers_request, cancel_step, check_inside_workspace, McpRequestKind, code_search_reply, code_search_request, sandbox_choice, sandbox_reply,
    CancelAction, CancelEvent, CancelStage, CodeSearchArgs, CommandOutput, SandboxChoice, SandboxedTool,
    CODE_SEARCH_THREADS,
};
use codex_mcp::tool_calls::{
    apply_patch_request, code_search_limit, code_search_summary, conversation_id, exec_command_request,
    exec_completed_text, listed_tools, read_file_reply, read_file_window, request_id_text, route_tool_call,
    server_tool_name, tool_arguments, ExecCommandArgs, FileContent, Handshake, RequestKey, ServerTool, ToolError,
    INVALID_REQUEST_ERROR_CODE,
};

#[test]
fn session_tools_are_always_routed() {
    for code_only in [false, true] {
        assert_eq!(route_tool_call("codex", code_only), Some(ServerTool::Codex));
        assert_eq!(route_tool_call("codex-reply", code_only), Some(ServerTool::CodexReply));
    }
    assert_eq!(route_tool_call("reply", false), Some(ServerTool::CodexReply));
    assert_eq!(route_tool_call("reply", true), None);
}

#[test]
fn code_tools_only_in_code_mode() {
    assert_eq!(route_tool_call("execCommand", true), Some(ServerTool::ExecCommand));
    assert_eq!(route_tool_call("gitDiffToRemote", true), Some(ServerTool::GitDiffToRemote));
    assert_eq!(route_tool_call("applyPatch", true), Some(ServerTool::ApplyPatch));
    assert_eq!(route_tool_call("codeSearch", true), Some(ServerTool::CodeSearch));
    assert_eq!(route_tool_call("readFile", true), Some(ServerTool::ReadFile));
    assert_eq!(route_tool_call("readFile", false), None);
    assert_eq!(route_tool_call("nope", true), None);
}

#[test]
fn every_listed_tool_is_callable() {
    for code_only in [false, true] {
        for t in listed_tools(code_only) {
            assert_eq!(route_tool_call(&server_tool_name(t), code_only), Some(t));
        }
    }
    assert_eq!(listed_tools(false), vec![ServerTool::Codex, ServerTool::CodexReply]);
    assert_eq!(listed_tools(true).len(), 5);
}

#[test]
fn refusals_name_the_problem() {
    assert_eq!(ToolError::UnknownTool("frob".into()).message(), "Unknown tool 'frob'");
    assert_eq!(ToolError::ExecEmptyCommand.message(), "execCommand: `command` must not be empty");
    assert_eq!(ToolError::ExecFailed("timeout".into()).message(), "execCommand failed: timeout");
    assert_eq!(ToolError::ReadFileOutsideWorkspace.message(), "readFile: path must be inside the workspace root");
    assert_eq!(
        ToolError::ReplyMissingArguments.message(),
        "Missing arguments for codex-reply tool-call; the `conversation_id` and `prompt` fields are required."
    );
    assert_eq!(
        ToolError::SessionNotFound(0x67e5504410b1426f9247bb680e5fe0c8).message(),
        "Session not found for conversation_id: 67e55044-10b1-426f-9247-bb680e5fe0c8"
    );
    assert_eq!(
        ToolError::SessionNotFound(0).message(),
        "Session not found for conversation_id: 00000000-0000-0000-0000-000000000000"
    );
}

#[test]
fn arguments_missing_or_unparsable() {
    let missing = tool_arguments::<u8>(ServerTool::ExecCommand, None);
    assert!(matches!(missing, Err(ToolError::ExecMissingArguments)));
    let bad = tool_arguments::<u8>(ServerTool::ExecCommand, Some(Err("expected array".into())));
    match bad {
        Err(e) => assert_eq!(e.message(), "Failed to parse execCommand arguments: expected array"),
        Ok(_) => panic!("expected refusal"),
    }
    let bad_read = tool_arguments::<u8>(ServerTool::ReadFile, Some(Err("x".into())));
    assert!(matches!(bad_read, Err(ToolError::ReadFileBadArguments)));
    let reply_bad = tool_arguments::<u8>(ServerTool::CodexReply, Some(Err("y".into())));
    match reply_bad {
        Err(e) => assert_eq!(e.message(), "Failed to parse configuration for Codex tool: y"),
        Ok(_) => panic!("expected refusal"),
    }
    assert!(matches!(tool_arguments(ServerTool::Codex, Some(Ok(5u8))), Ok(5)));
}

#[test]
fn exec_command_needs_a_command() {
    let args = ExecCommandArgs { command: vec![], timeout_ms: None, cwd: None };
    assert!(matches!(exec_command_request(args, "/w".into()), Err(ToolError::ExecEmptyCommand)));
    let args = ExecCommandArgs { command: vec!["ls".into()], timeout_ms: Some(10), cwd: None };
    let cmd = exec_command_request(args, "/w".into()).expect("command");
    assert_eq!(cmd.command, vec!["ls".to_string()]);
    assert_eq!(cmd.cwd, "/w");
    assert_eq!(cmd.timeout_ms, Some(10));
    assert!(!cmd.clean_env);
    let args = ExecCommandArgs { command: vec!["ls".into()], timeout_ms: None, cwd: Some("/other".into()) };
    assert_eq!(exec_command_request(args, "/w".into()).expect("command").cwd, "/other");
    assert_eq!(exec_completed_text(0), "exit_code=0 (see structured_content)");
    assert_eq!(exec_completed_text(-9), "exit_code=-9 (see structured_content)");
}

#[test]
fn apply_patch_runs_the_executable() {
    let cmd = apply_patch_request("/bin/codex".into(), "--apply".into(), "PATCH".into(), None, "/w".into());
    assert_eq!(cmd.command, vec!["/bin/codex".to_string(), "--apply".to_string(), "PATCH".to_string()]);
    assert_eq!(cmd.cwd, "/w");
    assert_eq!(cmd.timeout_ms, Some(120_000));
    assert!(cmd.clean_env);
}

#[test]
fn code_search_limit_and_summary() {
    assert_eq!(code_search_limit(None), 200);
    assert_eq!(code_search_limit(Some(0)), 1);
    assert_eq!(code_search_limit(Some(7)), 7);
    assert_eq!(code_search_summary(12, 7), "12 matches (showing up to 7): codeSearch completed");
}

#[test]
fn read_window_clamps() {
    assert_eq!(read_file_window(10, None, None), (0, 10));
    assert_eq!(read_file_window(10, Some(20), None), (10, 10));
    assert_eq!(read_file_window(1_000_000, Some(5), Some(10)), (5, 15));
    assert_eq!(read_file_window(1_000_000, None, None), (0, 200_000));
    assert_eq!(read_file_window(10_000_000, None, Some(9_000_000)), (0, 5_000_000));
}

#[test]
fn read_file_returns_text_or_base64() {
    let r = read_file_reply("/w/a.txt", b"hello", Some(1), Some(3));
    match &r.content {
        FileContent::Text(t) => assert_eq!(t, "ell"),
        other => panic!("expected text, got {other:?}"),
    }
    assert_eq!(r.content.encoding(), "utf-8");
    assert_eq!((r.start, r.read_bytes, r.total_bytes), (1, 3, 5));
    assert_eq!(r.summary, "readFile: 3 bytes from /w/a.txt (offset 1 of 5)");

    let r = read_file_reply("/w/b.bin", &[0xff, 0xfe, 0xfd, 0xff, 0x00], None, None);
    match &r.content {
        FileContent::Base64(b) => assert_eq!(b, "//79/wA="),
        other => panic!("expected base64, got {other:?}"),
    }
    assert_eq!(r.content.encoding(), "base64");
    assert_eq!(r.summary, "readFile: 5 bytes from /w/b.bin (offset 0 of 5)");

    // A cut through a multi-byte character is no longer UTF-8.
    let r = read_file_reply("p", "é".as_bytes(), None, Some(1));
    match &r.content {
        FileContent::Base64(b) => assert_eq!(b, "ww=="),
        other => panic!("expected base64, got {other:?}"),
    }
}

#[test]
fn conversation_ids_are_uuids() {
    assert_eq!(
        conversation_id("67e55044-10b1-426f-9247-bb680e5fe0c8").ok(),
        Some(0x67e5504410b1426f9247bb680e5fe0c8)
    );
    match conversation_id("not-a-uuid") {
        Err(e @ ToolError::ConversationIdInvalid(_)) => {
            assert!(e.message().starts_with("Failed to parse conversation_id: "))
        }
        other => panic!("expected refusal, got {other:?}"),
    }
}

#[test]
fn initialize_is_accepted_once() {
    let mut h = Handshake::new();
    assert!(!h.is_initialized());
    let accepted = h.initialize("inspector", "1.2", "2025-06-18").ok().expect("accepted");
    assert_eq!(accepted.user_agent_suffix, "inspector; 1.2");
    assert_eq!(accepted.protocol_version, "2025-06-18");
    assert_eq!(accepted.server_name, "codex-mcp-server");
    assert_eq!(accepted.server_title, "Codex");
    assert!(accepted.tools_list_changed);
    assert!(h.is_initialized());
    match h.initialize("inspector", "1.2", "2025-06-18") {
        Err(refusal) => {
            assert_eq!(refusal.code, INVALID_REQUEST_ERROR_CODE);
            assert_eq!(refusal.code, -32600);
            assert_eq!(refusal.message, "initialize called more than once");
        }
        Ok(_) => panic!("second initialize must be refused"),
    }
}

#[test]
fn request_ids_as_text() {
    assert_eq!(request_id_text(&RequestKey::Text("abc".into())), "abc");
    assert_eq!(request_id_text(&RequestKey::Number(42)), "42");
    assert_eq!(request_id_text(&RequestKey::Number(-7)), "-7");
}

#[test]
fn sandbox_only_skipped_under_full_access() {
    assert_eq!(sandbox_choice(true), SandboxChoice::Unsandboxed);
    assert_eq!(sandbox_choice(false), SandboxChoice::PlatformSandbox);
}

#[test]
fn sandboxed_replies() {
    let out = CommandOutput { exit_code: 3, stdout: "o".into(), stderr: "e".into() };
    let r = sandbox_reply(SandboxedTool::ExecCommand, Ok(out));
    assert!(!r.is_error);
    assert_eq!(r.text, "exit_code=3 (see structured_content)");
    let o = r.output.expect("output");
    assert_eq!((o.exit_code, o.stdout.as_str(), o.stderr.as_str()), (3, "o", "e"));
    let out = CommandOutput { exit_code: 0, stdout: String::new(), stderr: String::new() };
    let r = sandbox_reply(SandboxedTool::ApplyPatch, Ok(out));
    assert!(!r.is_error);
    assert_eq!(r.text, "applyPatch completed (see structured_content)");
    let r = sandbox_reply(SandboxedTool::ApplyPatch, Err("denied".into()));
    assert!(r.is_error);
    assert_eq!(r.text, "applyPatch failed: denied");
    assert!(r.output.is_none());
    let r = sandbox_reply(SandboxedTool::ExecCommand, Err("no such file".into()));
    assert_eq!(r.text, "execCommand failed: no such file");
}

#[test]
fn code_search_request_defaults() {
    let args = CodeSearchArgs { pattern: "main".into(), limit: None, cwd: None, exclude: None, compute_indices: None };
    let req = code_search_request(args, "/w".into());
    assert_eq!(req.pattern, "main");
    assert_eq!(req.limit, 200);
    assert_eq!(req.dir, "/w");
    assert!(req.exclude.is_empty());
    assert_eq!(req.threads, CODE_SEARCH_THREADS);
    assert_eq!(req.threads, 4);
    assert!(!req.compute_indices);
    let args = CodeSearchArgs {
        pattern: "x".into(),
        limit: Some(0),
        cwd: Some("/src".into()),
        exclude: Some(vec!["target".into()]),
        compute_indices: Some(true),
    };
    let req = code_search_request(args, "/w".into());
    assert_eq!(req.limit, 1);
    assert_eq!(req.dir, "/src");
    assert_eq!(req.exclude, vec!["target".to_string()]);
    assert!(req.compute_indices);
}

#[test]
fn code_search_replies() {
    let r = code_search_reply(50, Ok(3));
    assert!(!r.is_error);
    assert_eq!(r.text, "3 matches (showing up to 50): codeSearch completed");
    let r = code_search_reply(50, Err("bad dir".into()));
    assert!(r.is_error);
    assert_eq!(r.text, "codeSearch failed: bad dir");
}

#[test]
fn workspace_check_refuses_outside_paths() {
    assert!(check_inside_workspace("/w/src/a.rs", "/w").is_ok());
    assert!(check_inside_workspace("/w", "/w").is_ok());
    assert!(check_inside_workspace("relative/dir", "relative/dir").is_ok());
    assert!(matches!(check_inside_workspace("/etc/passwd", "/w"), Err(ToolError::ReadFileOutsideWorkspace)));
    assert!(matches!(check_inside_workspace("/secret.txt", "/ws"), Err(ToolError::ReadFileOutsideWorkspace)));
    assert!(check_inside_workspace("/ws/a/b.txt", "/ws").is_ok());
    assert!(check_inside_workspace("/ws/a", "").is_ok());
    assert!(check_inside_workspace("ws/a", "/ws").is_err());
    // Whole components only: a sibling sharing a prefix is outside.
    assert!(check_inside_workspace("/wx/a", "/w").is_err());
}

#[test]
fn cancellation_forgets_only_after_interrupt() {
    let id = RequestKey::Number(7);
    let (s, a) = cancel_step(&id, CancelStage::LookUpRequest, CancelEvent::RequestEntry(Some(9)));
    assert_eq!(s, CancelStage::LookUpSession(9));
    assert!(matches!(a, CancelAction::FindSession(9)));
    let (s, a) = cancel_step(&id, s, CancelEvent::SessionFound(true));
    assert_eq!(s, CancelStage::Submit(9));
    match a {
        CancelAction::SubmitInterrupt(sub) => assert_eq!(sub, "7"),
        other => panic!("expected interrupt, got {other:?}"),
    }
    let (s2, a) = cancel_step(&id, s, CancelEvent::SubmitSucceeded(false));
    assert_eq!(s2, CancelStage::Finished);
    assert!(matches!(a, CancelAction::Stop));
    let (_, a) = cancel_step(&id, s, CancelEvent::SubmitSucceeded(true));
    assert!(matches!(a, CancelAction::ForgetRequest));
    let (s, a) = cancel_step(&id, CancelStage::LookUpRequest, CancelEvent::RequestEntry(None));
    assert_eq!(s, CancelStage::Finished);
    assert!(matches!(a, CancelAction::Stop));
    let (_, a) = cancel_step(&id, CancelStage::LookUpSession(9), CancelEvent::SessionFound(false));
    assert!(matches!(a, CancelAction::Stop));
}

#[test]
fn only_handshake_ping_and_tool_requests_are_answered() {
    for kind in [McpRequestKind::Initialize, McpRequestKind::Ping, McpRequestKind::ListTools, McpRequestKind::CallTool] {
        assert!(answers_request(kind));
    }
    for kind in [
        McpRequestKind::ListResources,
        McpRequestKind::ListResourceTemplates,
        McpRequestKind::ReadResource,
        McpRequestKind::Subscribe,
        McpRequestKind::Unsubscribe,
        McpRequestKind::ListPrompts,
        McpRequestKind::GetPrompt,
        McpRequestKind::SetLevel,
        McpRequestKind::Complete,
    ] {
        assert!(!answers_request(kind));
    }
}

//! The decisions of the server's `tools/call` and `tools/list` handling: which
//! handler a call reaches, which tools are announced, what a refused call is
//! answered, and how the code tools shape their requests and replies.
use vstd::prelude::*;

use crate::text::{decimal, push_decimal, push_signed_decimal, push_str, signed_decimal, str_eq};
use vstd::utf8::{decode_utf8, valid_utf8};
use base64::Engine as _;

verus! {

broadcast use vstd::string::group_string_axioms;

/// The handlers a `tools/call` request can reach.
#[derive(Debug, Clone, Copy, PartialEq, Eq, Structural)]
pub enum ServerTool {
    /// Start a Codex session.
    Codex,
    /// Continue a Codex session.
    CodexReply,
    /// Run a command in the sandbox.
    ExecCommand,
    /// Diff the working tree against its remote.
    GitDiffToRemote,
    /// Apply a patch through the sandboxed patch tool.
    ApplyPatch,
    /// Fuzzy file search.
    CodeSearch,
    /// Read a file inside the workspace.
    ReadFile,
}

/// The name under which a tool is announced.
pub open spec fn tool_name(t: ServerTool) -> Seq<char> {
    match t {
        ServerTool::Codex => "codex"@,
        ServerTool::CodexReply => "codex-reply"@,
        ServerTool::ExecCommand => "execCommand"@,
        ServerTool::GitDiffToRemote => "gitDiffToRemote"@,
        ServerTool::ApplyPatch => "applyPatch"@,
        ServerTool::CodeSearch => "codeSearch"@,
        ServerTool::ReadFile => "readFile"@,
    }
}

/// The handler a call of tool `name` reaches: the Codex tools always, the
/// short `reply` alias only outside code-tools mode, the code tools only in it.
pub open spec fn spec_route_tool_call(name: Seq<char>, code_tools_only: bool) -> Option<ServerTool> {
    if name == "codex"@ {
        Some(ServerTool::Codex)
    } else if name == "codex-reply"@ {
        Some(ServerTool::CodexReply)
    } else if name == "reply"@ && !code_tools_only {
        Some(ServerTool::CodexReply)
    } else if !code_tools_only {
        None
    } else if name == "execCommand"@ {
        Some(ServerTool::ExecCommand)
    } else if name == "gitDiffToRemote"@ {
        Some(ServerTool::GitDiffToRemote)
    } else if name == "applyPatch"@ {
        Some(ServerTool::ApplyPatch)
    } else if name == "codeSearch"@ {
        Some(ServerTool::CodeSearch)
    } else if name == "readFile"@ {
        Some(ServerTool::ReadFile)
    } else {
        None
    }
}

/// The handler for a call of tool `name`, or `None` for an unknown tool.
pub fn route_tool_call(name: &str, code_tools_only: bool) -> (r: Option<ServerTool>)
    ensures
        r == spec_route_tool_call(name@, code_tools_only),
{
    if str_eq(name, "codex") {
        Some(ServerTool::Codex)
    } else if str_eq(name, "codex-reply") {
        Some(ServerTool::CodexReply)
    } else if str_eq(name, "reply") && !code_tools_only {
        Some(ServerTool::CodexReply)
    } else if !code_tools_only {
        None
    } else if str_eq(name, "execCommand") {
        Some(ServerTool::ExecCommand)
    } else if str_eq(name, "gitDiffToRemote") {
        Some(ServerTool::GitDiffToRemote)
    } else if str_eq(name, "applyPatch") {
        Some(ServerTool::ApplyPatch)
    } else if str_eq(name, "codeSearch") {
        Some(ServerTool::CodeSearch)
    } else if str_eq(name, "readFile") {
        Some(ServerTool::ReadFile)
    } else {
        None
    }
}

/// The tools `tools/list` announces: the code tools in code-tools mode, the
/// two Codex session tools otherwise.
pub open spec fn spec_listed_tools(code_tools_only: bool) -> Seq<ServerTool> {
    if code_tools_only {
        seq![
            ServerTool::ExecCommand,
            ServerTool::GitDiffToRemote,
            ServerTool::ApplyPatch,
            ServerTool::CodeSearch,
            ServerTool::ReadFile,
        ]
    } else {
        seq![ServerTool::Codex, ServerTool::CodexReply]
    }
}

/// The tools announced by `tools/list`, in order.
pub fn listed_tools(code_tools_only: bool) -> (v: Vec<ServerTool>)
    ensures
        v@ == spec_listed_tools(code_tools_only),
{
    if code_tools_only {
        let v = vec![
            ServerTool::ExecCommand,
            ServerTool::GitDiffToRemote,
            ServerTool::ApplyPatch,
            ServerTool::CodeSearch,
            ServerTool::ReadFile,
        ];
        assert(v@ =~= spec_listed_tools(code_tools_only));
        v
    } else {
        let v = vec![ServerTool::Codex, ServerTool::CodexReply];
        assert(v@ =~= spec_listed_tools(code_tools_only));
        v
    }
}

/// The announced name of a tool.
pub fn server_tool_name(t: ServerTool) -> (r: String)
    ensures
        r@ == tool_name(t),
{
    match t {
        ServerTool::Codex => "codex".to_owned(),
        ServerTool::CodexReply => "codex-reply".to_owned(),
        ServerTool::ExecCommand => "execCommand".to_owned(),
        ServerTool::GitDiffToRemote => "gitDiffToRemote".to_owned(),
        ServerTool::ApplyPatch => "applyPatch".to_owned(),
        ServerTool::CodeSearch => "codeSearch".to_owned(),
        ServerTool::ReadFile => "readFile".to_owned(),
    }
}

/// Every tool that `tools/list` announces is accepted by `tools/call` under
/// its announced name, and reaches its own handler.
pub proof fn law_listed_tools_are_callable(code_tools_only: bool, i: int)
    requires
        0 <= i < spec_listed_tools(code_tools_only).len(),
    ensures
        spec_route_tool_call(tool_name(spec_listed_tools(code_tools_only)[i]), code_tools_only)
            == Some(spec_listed_tools(code_tools_only)[i]),
{
    reveal_strlit("codex");
    reveal_strlit("codex-reply");
    reveal_strlit("reply");
    reveal_strlit("execCommand");
    reveal_strlit("gitDiffToRemote");
    reveal_strlit("applyPatch");
    reveal_strlit("codeSearch");
    reveal_strlit("readFile");
    let listed = spec_listed_tools(code_tools_only);
    if code_tools_only {
        assert("execCommand"@[0] != "codex"@[0]);
        assert("execCommand"@[0] != "codex-reply"@[0]);
        assert("gitDiffToRemote"@[0] != "codex"@[0]);
        assert("gitDiffToRemote"@[0] != "codex-reply"@[0]);
        assert("applyPatch"@[0] != "codex"@[0]);
        assert("applyPatch"@[0] != "codex-reply"@[0]);
        assert("applyPatch"@[0] != "execCommand"@[0]);
        assert("applyPatch"@[0] != "gitDiffToRemote"@[0]);
        assert("codeSearch"@[4] != "codex"@[4]);
        assert("codeSearch"@[4] != "codex-reply"@[4]);
        assert("codeSearch"@[0] != "execCommand"@[0]);
        assert("codeSearch"@[0] != "gitDiffToRemote"@[0]);
        assert("codeSearch"@[0] != "applyPatch"@[0]);
        assert("readFile"@[0] != "codex"@[0]);
        assert("readFile"@[0] != "codex-reply"@[0]);
        assert("readFile"@[0] != "execCommand"@[0]);
        assert("readFile"@[0] != "gitDiffToRemote"@[0]);
        assert("readFile"@[0] != "applyPatch"@[0]);
        assert("readFile"@[0] != "codeSearch"@[0]);
    } else {
        assert("codex-reply"@.len() != "codex"@.len());
    }
}

/// Why a tool call was refused or failed; each answers the caller with an
/// error result carrying its message.
#[derive(Debug, Clone)]
pub enum ToolError {
    /// No tool has the given name (in the current mode).
    UnknownTool(String),
    /// `execCommand` was called without arguments.
    ExecMissingArguments,
    /// The arguments of `execCommand` did not parse; the parser's explanation.
    ExecBadArguments(String),
    /// `execCommand` was given an empty command.
    ExecEmptyCommand,
    /// Running the command failed.
    ExecFailed(String),
    /// `gitDiffToRemote` lacked a usable `cwd`.
    GitDiffBadArguments,
    /// No diff against the remote could be computed.
    GitDiffFailed,
    /// `applyPatch` lacked a `patch`.
    ApplyPatchBadArguments,
    /// The running executable, which applies patches, could not be located.
    ApplyPatchNoExecutable,
    /// Applying the patch failed.
    ApplyPatchFailed(String),
    /// `codeSearch` lacked a `pattern`.
    CodeSearchBadArguments,
    /// The search failed.
    CodeSearchFailed(String),
    /// `readFile` lacked a `path`.
    ReadFileBadArguments,
    /// The workspace root could not be resolved.
    ReadFileRootUnresolved(String),
    /// The path does not resolve to an existing file.
    ReadFileNotFound(String),
    /// The path resolves outside the workspace root.
    ReadFileOutsideWorkspace,
    /// The file could not be read.
    ReadFileUnreadable(String),
    /// `codex` was called without arguments.
    CodexMissingArguments,
    /// The arguments of `codex` (or `codex-reply`) did not parse.
    CodexBadArguments(String),
    /// The configuration overrides of a `codex` call could not be loaded.
    CodexConfigRejected(String),
    /// `codex-reply` was called without arguments.
    ReplyMissingArguments,
    /// The conversation id of a reply is not a UUID.
    ConversationIdInvalid(String),
    /// No session runs under the given conversation id.
    SessionNotFound(u128),
}

/// The message a refused or failed tool call is answered with.
pub open spec fn tool_error_message(e: ToolError) -> Seq<char> {
    match e {
        ToolError::UnknownTool(name) => "Unknown tool '"@ + name@ + "'"@,
        ToolError::ExecMissingArguments => "Missing arguments for execCommand; the `command` array is required."@,
        ToolError::ExecBadArguments(d) => "Failed to parse execCommand arguments: "@ + d@,
        ToolError::ExecEmptyCommand => "execCommand: `command` must not be empty"@,
        ToolError::ExecFailed(d) => "execCommand failed: "@ + d@,
        ToolError::GitDiffBadArguments => "gitDiffToRemote: missing or invalid `cwd`"@,
        ToolError::GitDiffFailed => "failed to compute git diff to remote"@,
        ToolError::ApplyPatchBadArguments => "applyPatch: require { patch: string }"@,
        ToolError::ApplyPatchNoExecutable => "applyPatch: failed to resolve current executable"@,
        ToolError::ApplyPatchFailed(d) => "applyPatch failed: "@ + d@,
        ToolError::CodeSearchBadArguments => "codeSearch: require { pattern: string }"@,
        ToolError::CodeSearchFailed(d) => "codeSearch failed: "@ + d@,
        ToolError::ReadFileBadArguments => "readFile: require { path: string }"@,
        ToolError::ReadFileRootUnresolved(d) => "readFile: failed to resolve workspace root: "@ + d@,
        ToolError::ReadFileNotFound(d) => "readFile: path not found or invalid: "@ + d@,
        ToolError::ReadFileOutsideWorkspace => "readFile: path must be inside the workspace root"@,
        ToolError::ReadFileUnreadable(d) => "readFile: failed to read file: "@ + d@,
        ToolError::CodexMissingArguments => "Missing arguments for codex tool-call; the `prompt` field is required."@,
        ToolError::CodexBadArguments(d) => "Failed to parse configuration for Codex tool: "@ + d@,
        ToolError::CodexConfigRejected(d) => "Failed to load Codex configuration from overrides: "@ + d@,
        ToolError::ReplyMissingArguments => "Missing arguments for codex-reply tool-call; the `conversation_id` and `prompt` fields are required."@,
        ToolError::ConversationIdInvalid(d) => "Failed to parse conversation_id: "@ + d@,
        ToolError::SessionNotFound(id) => "Session not found for conversation_id: "@ + hyphenated_uuid(id),
    }
}

/// The low `n` hexadecimal digits of `u` in lowercase, most significant first.
pub open spec fn hex_digits(u: nat, n: nat) -> Seq<char>
    decreases n,
{
    if n == 0 {
        Seq::empty()
    } else {
        hex_digits(u / 16, (n - 1) as nat).push(hex_char(u % 16))
    }
}

/// The lowercase hexadecimal digit for `d` (below 16).
pub open spec fn hex_char(d: nat) -> char {
    if d < 10 {
        (48 + d) as char
    } else {
        (87 + d) as char
    }
}

/// The hyphenated text of a UUID: its 32 hex digits grouped 8-4-4-4-12.
pub open spec fn hyphenated_uuid(id: u128) -> Seq<char> {
    let d = hex_digits(id as nat, 32);
    d.subrange(0, 8) + "-"@ + d.subrange(8, 12) + "-"@ + d.subrange(12, 16) + "-"@ + d.subrange(16, 20)
        + "-"@ + d.subrange(20, 32)
}

/// The UUID `id` in its hyphenated lowercase text form (`uuid::Uuid`'s
/// `Display`): the 32 hex digits of the value grouped 8-4-4-4-12.
#[verifier::external_body]
fn uuid_text(id: u128) -> (r: String)
    ensures
        r@ == hyphenated_uuid(id),
{
    uuid::Uuid::from_u128(id).to_string()
}

impl ToolError {
    /// The message the caller is answered with.
    pub fn message(&self) -> (m: String)
        ensures
            m@ == tool_error_message(*self),
    {
        let mut m = String::new();
        match self {
            ToolError::UnknownTool(name) => {
                push_str(&mut m, "Unknown tool '");
                push_str(&mut m, name.as_str());
                push_str(&mut m, "'");
            },
            ToolError::ExecMissingArguments => {
                push_str(&mut m, "Missing arguments for execCommand; the `command` array is required.");
            },
            ToolError::ExecBadArguments(d) => {
                push_str(&mut m, "Failed to parse execCommand arguments: ");
                push_str(&mut m, d.as_str());
            },
            ToolError::ExecEmptyCommand => {
                push_str(&mut m, "execCommand: `command` must not be empty");
            },
            ToolError::ExecFailed(d) => {
                push_str(&mut m, "execCommand failed: ");
                push_str(&mut m, d.as_str());
            },
            ToolError::GitDiffBadArguments => {
                push_str(&mut m, "gitDiffToRemote: missing or invalid `cwd`");
            },
            ToolError::GitDiffFailed => {
                push_str(&mut m, "failed to compute git diff to remote");
            },
            ToolError::ApplyPatchBadArguments => {
                push_str(&mut m, "applyPatch: require { patch: string }");
            },
            ToolError::ApplyPatchNoExecutable => {
                push_str(&mut m, "applyPatch: failed to resolve current executable");
            },
            ToolError::ApplyPatchFailed(d) => {
                push_str(&mut m, "applyPatch failed: ");
                push_str(&mut m, d.as_str());
            },
            ToolError::CodeSearchBadArguments => {
                push_str(&mut m, "codeSearch: require { pattern: string }");
            },
            ToolError::CodeSearchFailed(d) => {
                push_str(&mut m, "codeSearch failed: ");
                push_str(&mut m, d.as_str());
            },
            ToolError::ReadFileBadArguments => {
                push_str(&mut m, "readFile: require { path: string }");
            },
            ToolError::ReadFileRootUnresolved(d) => {
                push_str(&mut m, "readFile: failed to resolve workspace root: ");
                push_str(&mut m, d.as_str());
            },
            ToolError::ReadFileNotFound(d) => {
                push_str(&mut m, "readFile: path not found or invalid: ");
                push_str(&mut m, d.as_str());
            },
            ToolError::ReadFileOutsideWorkspace => {
                push_str(&mut m, "readFile: path must be inside the workspace root");
            },
            ToolError::ReadFileUnreadable(d) => {
                push_str(&mut m, "readFile: failed to read file: ");
                push_str(&mut m, d.as_str());
            },
            ToolError::CodexMissingArguments => {
                push_str(&mut m, "Missing arguments for codex tool-call; the `prompt` field is required.");
            },
            ToolError::CodexBadArguments(d) => {
                push_str(&mut m, "Failed to parse configuration for Codex tool: ");
                push_str(&mut m, d.as_str());
            },
            ToolError::CodexConfigRejected(d) => {
                push_str(&mut m, "Failed to load Codex configuration from overrides: ");
                push_str(&mut m, d.as_str());
            },
            ToolError::ReplyMissingArguments => {
                push_str(
                    &mut m,
                    "Missing arguments for codex-reply tool-call; the `conversation_id` and `prompt` fields are required.",
                );
            },
            ToolError::ConversationIdInvalid(d) => {
                push_str(&mut m, "Failed to parse conversation_id: ");
                push_str(&mut m, d.as_str());
            },
            ToolError::SessionNotFound(id) => {
                push_str(&mut m, "Session not found for conversation_id: ");
                let t = uuid_text(*id);
                push_str(&mut m, t.as_str());
            },
        }
        m
    }
}

/// The refusal for a call whose arguments are missing: the tools that
/// explain themselves say which field is required, the others name it.
pub open spec fn missing_arguments_error(tool: ServerTool) -> ToolError {
    match tool {
        ServerTool::Codex => ToolError::CodexMissingArguments,
        ServerTool::CodexReply => ToolError::ReplyMissingArguments,
        ServerTool::ExecCommand => ToolError::ExecMissingArguments,
        ServerTool::GitDiffToRemote => ToolError::GitDiffBadArguments,
        ServerTool::ApplyPatch => ToolError::ApplyPatchBadArguments,
        ServerTool::CodeSearch => ToolError::CodeSearchBadArguments,
        ServerTool::ReadFile => ToolError::ReadFileBadArguments,
    }
}

/// The refusal for a call whose arguments did not parse, `detail` being the
/// parser's explanation (which only the Codex tools and `execCommand` pass on).
pub open spec fn bad_arguments_error(tool: ServerTool, detail: String) -> ToolError {
    match tool {
        ServerTool::Codex => ToolError::CodexBadArguments(detail),
        ServerTool::CodexReply => ToolError::CodexBadArguments(detail),
        ServerTool::ExecCommand => ToolError::ExecBadArguments(detail),
        ServerTool::GitDiffToRemote => ToolError::GitDiffBadArguments,
        ServerTool::ApplyPatch => ToolError::ApplyPatchBadArguments,
        ServerTool::CodeSearch => ToolError::CodeSearchBadArguments,
        ServerTool::ReadFile => ToolError::ReadFileBadArguments,
    }
}

/// The parsed arguments of a call of `tool`, or its refusal: `arguments` is
/// `None` when the call carried none, `Some(Err(detail))` when they did not parse.
pub fn tool_arguments<T>(tool: ServerTool, arguments: Option<Result<T, String>>) -> (r: Result<T, ToolError>)
    ensures
        match arguments {
            None => r == Err::<T, ToolError>(missing_arguments_error(tool)),
            Some(Ok(v)) => r == Ok::<T, ToolError>(v),
            Some(Err(d)) => r == Err::<T, ToolError>(bad_arguments_error(tool, d)),
        },
{
    match arguments {
        None => Err(
            match tool {
                ServerTool::Codex => ToolError::CodexMissingArguments,
                ServerTool::CodexReply => ToolError::ReplyMissingArguments,
                ServerTool::ExecCommand => ToolError::ExecMissingArguments,
                ServerTool::GitDiffToRemote => ToolError::GitDiffBadArguments,
                ServerTool::ApplyPatch => ToolError::ApplyPatchBadArguments,
                ServerTool::CodeSearch => ToolError::CodeSearchBadArguments,
                ServerTool::ReadFile => ToolError::ReadFileBadArguments,
            },
        ),
        Some(Ok(v)) => Ok(v),
        Some(Err(d)) => Err(
            match tool {
                ServerTool::Codex => ToolError::CodexBadArguments(d),
                ServerTool::CodexReply => ToolError::CodexBadArguments(d),
                ServerTool::ExecCommand => ToolError::ExecBadArguments(d),
                ServerTool::GitDiffToRemote => ToolError::GitDiffBadArguments,
                ServerTool::ApplyPatch => ToolError::ApplyPatchBadArguments,
                ServerTool::CodeSearch => ToolError::CodeSearchBadArguments,
                ServerTool::ReadFile => ToolError::ReadFileBadArguments,
            },
        ),
    }
}

/// The arguments of `execCommand`.
#[derive(Debug, Clone)]
pub struct ExecCommandArgs {
    /// The program and its arguments.
    pub command: Vec<String>,
    /// How long the command may run.
    pub timeout_ms: Option<u64>,
    /// Where to run it (the configured working directory when absent).
    pub cwd: Option<String>,
}

/// A command the server runs in the sandbox on a tool's behalf.
#[derive(Debug, Clone)]
pub struct SandboxCommand {
    /// The program and its arguments.
    pub command: Vec<String>,
    /// The working directory.
    pub cwd: String,
    /// How long the command may run.
    pub timeout_ms: Option<u64>,
    /// Whether the command runs with an empty environment (rather than the
    /// one the shell environment policy builds).
    pub clean_env: bool,
}

/// How long a patch may take to apply.
pub const APPLY_PATCH_TIMEOUT_MS: u64 = 120_000;

/// The command an `execCommand` call runs, refused when it is empty.
pub fn exec_command_request(args: ExecCommandArgs, default_cwd: String) -> (r: Result<SandboxCommand, ToolError>)
    ensures
        args.command@.len() == 0 <==> r is Err,
        r is Err ==> r->Err_0 == ToolError::ExecEmptyCommand,
        r is Ok ==> ({
            let c = r->Ok_0;
            &&& c.command.deep_view() == args.command.deep_view()
            &&& c.cwd@ == (match args.cwd {
                Some(d) => d@,
                None => default_cwd@,
            })
            &&& c.timeout_ms == args.timeout_ms
            &&& !c.clean_env
        }),
{
    if args.command.len() == 0 {
        return Err(ToolError::ExecEmptyCommand);
    }
    let cwd = match args.cwd {
        Some(d) => d,
        None => default_cwd,
    };
    Ok(SandboxCommand { command: args.command, cwd, timeout_ms: args.timeout_ms, clean_env: false })
}

/// The command an `applyPatch` call runs: the running executable with the
/// patch-applying flag and the patch, in a clean environment, for at most
/// two minutes.
pub fn apply_patch_request(
    executable: String,
    apply_patch_flag: String,
    patch: String,
    cwd: Option<String>,
    default_cwd: String,
) -> (r: SandboxCommand)
    ensures
        r.command.deep_view() == seq![executable@, apply_patch_flag@, patch@],
        r.cwd@ == (match cwd {
            Some(d) => d@,
            None => default_cwd@,
        }),
        r.timeout_ms == Some(APPLY_PATCH_TIMEOUT_MS),
        r.clean_env,
{
    let ghost parts = seq![executable@, apply_patch_flag@, patch@];
    let mut command: Vec<String> = Vec::new();
    command.push(executable);
    command.push(apply_patch_flag);
    command.push(patch);
    assert(command.deep_view() =~= parts);
    let cwd = match cwd {
        Some(d) => d,
        None => default_cwd,
    };
    SandboxCommand { command, cwd, timeout_ms: Some(APPLY_PATCH_TIMEOUT_MS), clean_env: true }
}

/// The text of a completed `execCommand` call.
pub fn exec_completed_text(exit_code: i32) -> (r: String)
    ensures
        r@ == "exit_code="@ + signed_decimal(exit_code as int) + " (see structured_content)"@,
{
    let mut r = String::new();
    push_str(&mut r, "exit_code=");
    push_signed_decimal(&mut r, exit_code as i64);
    push_str(&mut r, " (see structured_content)");
    r
}

/// The number of matches a search reports at most: the requested limit,
/// 200 by default, and at least one.
pub open spec fn spec_code_search_limit(limit: Option<u32>) -> nat {
    let l = match limit {
        Some(l) => l as nat,
        None => 200,
    };
    if l < 1 {
        1
    } else {
        l
    }
}

/// The match limit of a `codeSearch` call.
pub fn code_search_limit(limit: Option<u32>) -> (r: usize)
    ensures
        r == spec_code_search_limit(limit),
        r >= 1,
{
    let l: u32 = match limit {
        Some(l) => l,
        None => 200,
    };
    if l < 1 {
        1
    } else {
        l as usize
    }
}

/// The text of a completed `codeSearch` call.
pub fn code_search_summary(total: usize, limit: usize) -> (r: String)
    ensures
        r@ == decimal(total as nat) + " matches (showing up to "@ + decimal(limit as nat)
            + "): codeSearch completed"@,
{
    let mut r = String::new();
    push_decimal(&mut r, total as u64);
    push_str(&mut r, " matches (showing up to ");
    push_decimal(&mut r, limit as u64);
    push_str(&mut r, "): codeSearch completed");
    r
}

/// How many bytes `readFile` returns when the caller does not say.
pub const READ_FILE_DEFAULT_MAX_BYTES: u64 = 200_000;

/// The most bytes `readFile` returns at once.
pub const READ_FILE_MAX_BYTES_CAP: u64 = 5_000_000;

/// The byte range `readFile` returns of a file of `total` bytes: from the
/// requested offset (kept within the file) for at most the requested number
/// of bytes (200 000 by default, 5 000 000 at most), ending at the file's end.
pub open spec fn read_window(total: nat, start: Option<u64>, max_bytes: Option<u64>) -> (nat, nat) {
    let requested = (start.unwrap_or(0u64) as usize) as nat;
    let s = if requested < total {
        requested
    } else {
        total
    };
    let b = max_bytes.unwrap_or(READ_FILE_DEFAULT_MAX_BYTES);
    let m = if b < READ_FILE_MAX_BYTES_CAP {
        b as nat
    } else {
        READ_FILE_MAX_BYTES_CAP as nat
    };
    let e = if s + m < total {
        s + m
    } else {
        total
    };
    (s, e)
}

/// The start and end offsets `readFile` reads of a file of `total` bytes.
pub fn read_file_window(total: usize, start: Option<u64>, max_bytes: Option<u64>) -> (r: (usize, usize))
    ensures
        r.0 == read_window(total as nat, start, max_bytes).0,
        r.1 == read_window(total as nat, start, max_bytes).1,
        r.0 <= r.1 <= total,
{
    let requested: usize = #[verifier::truncate] (start.unwrap_or(0u64) as usize);
    let s = if requested < total {
        requested
    } else {
        total
    };
    let b = max_bytes.unwrap_or(READ_FILE_DEFAULT_MAX_BYTES);
    let m: usize = if b < READ_FILE_MAX_BYTES_CAP {
        b as usize
    } else {
        READ_FILE_MAX_BYTES_CAP as usize
    };
    let e = if m < total - s {
        s + m
    } else {
        total
    };
    (s, e)
}

/// `readFile` never reads past the file's end, never starts past it, and
/// never returns more than the requested number of bytes (200 000 when
/// unspecified) nor more than 5 000 000.
pub proof fn law_read_window_bounded(total: nat, start: Option<u64>, max_bytes: Option<u64>)
    ensures
        read_window(total, start, max_bytes).0 <= read_window(total, start, max_bytes).1 <= total,
        read_window(total, start, max_bytes).1 - read_window(total, start, max_bytes).0
            <= max_bytes.unwrap_or(READ_FILE_DEFAULT_MAX_BYTES),
        read_window(total, start, max_bytes).1 - read_window(total, start, max_bytes).0
            <= READ_FILE_MAX_BYTES_CAP,
{
}

/// The digit of the standard base64 alphabet for a 6-bit value.
pub open spec fn base64_char(v: nat) -> char {
    if v < 26 {
        (65 + v) as char
    } else if v < 52 {
        (71 + v) as char
    } else if v < 62 {
        (v - 4) as char
    } else if v == 62 {
        '+'
    } else {
        '/'
    }
}

/// Standard base64 (RFC 4648 alphabet, `=` padding): every three bytes become
/// four digits; a final one or two bytes become two or three digits and padding.
pub open spec fn base64_encoding(b: Seq<u8>) -> Seq<char>
    decreases b.len(),
{
    if b.len() == 0 {
        Seq::empty()
    } else if b.len() == 1 {
        seq![base64_char(b[0] as nat / 4), base64_char((b[0] as nat % 4) * 16), '=', '=']
    } else if b.len() == 2 {
        seq![
            base64_char(b[0] as nat / 4),
            base64_char((b[0] as nat % 4) * 16 + b[1] as nat / 16),
            base64_char((b[1] as nat % 16) * 4),
            '=',
        ]
    } else {
        seq![
            base64_char(b[0] as nat / 4),
            base64_char((b[0] as nat % 4) * 16 + b[1] as nat / 16),
            base64_char((b[1] as nat % 16) * 4 + b[2] as nat / 64),
            base64_char(b[2] as nat % 64),
        ] + base64_encoding(b.subrange(3, b.len() as int))
    }
}

/// The standard base64 encoding of `bytes` (`base64`'s `STANDARD` engine:
/// RFC 4648 alphabet with `=` padding), for inputs whose encoded length fits
/// in memory sizes (the engine panics otherwise).
#[verifier::external_body]
fn base64_standard(bytes: &[u8]) -> (r: String)
    requires
        bytes@.len() <= usize::MAX / 4,
    ensures
        r@ == base64_encoding(bytes@),
{
    base64::engine::general_purpose::STANDARD.encode(bytes)
}

/// The text `bytes` encode when they are valid UTF-8 (std `str::from_utf8`).
#[verifier::external_body]
fn utf8_text(bytes: &[u8]) -> (r: Option<String>)
    ensures
        r is Some <==> valid_utf8(bytes@),
        r is Some ==> r->0@ == decode_utf8(bytes@),
{
    match std::str::from_utf8(bytes) {
        Ok(s) => Some(s.to_owned()),
        Err(_) => None,
    }
}

/// The content `readFile` returns: text when the bytes are UTF-8, base64 otherwise.
#[derive(Debug, Clone)]
pub enum FileContent {
    /// The bytes decoded as UTF-8.
    Text(String),
    /// The bytes in standard base64.
    Base64(String),
}

impl FileContent {
    /// The name of the encoding, as reported to the caller.
    pub fn encoding(&self) -> (r: String)
        ensures
            self is Text ==> r@ == "utf-8"@,
            self is Base64 ==> r@ == "base64"@,
    {
        match self {
            FileContent::Text(_) => "utf-8".to_owned(),
            FileContent::Base64(_) => "base64".to_owned(),
        }
    }
}

/// What `readFile` answers for a file inside the workspace.
#[derive(Debug, Clone)]
pub struct ReadFileReply {
    /// The bytes read, decoded or encoded.
    pub content: FileContent,
    /// The offset of the first byte read.
    pub start: usize,
    /// How many bytes were read.
    pub read_bytes: usize,
    /// The size of the file.
    pub total_bytes: usize,
    /// The one-line summary shown to the caller.
    pub summary: String,
}

/// The content for a slice of a file.
pub open spec fn file_content_of(slice: Seq<u8>) -> Seq<char> {
    if valid_utf8(slice) {
        decode_utf8(slice)
    } else {
        base64_encoding(slice)
    }
}

/// The reply to `readFile` for the file shown as `path` holding `bytes`.
pub fn read_file_reply(path: &str, bytes: &[u8], start: Option<u64>, max_bytes: Option<u64>) -> (r: ReadFileReply)
    ensures
        ({
            let (s, e) = read_window(bytes@.len(), start, max_bytes);
            let slice = bytes@.subrange(s as int, e as int);
            &&& r.start == s
            &&& r.read_bytes == e - s
            &&& r.total_bytes == bytes@.len()
            &&& (valid_utf8(slice) <==> r.content is Text)
            &&& match r.content {
                FileContent::Text(t) => t@ == file_content_of(slice),
                FileContent::Base64(b) => b@ == file_content_of(slice),
            }
            &&& r.summary@ == "readFile: "@ + decimal((e - s) as nat) + " bytes from "@ + path@ + " (offset "@
                + decimal(s) + " of "@ + decimal(bytes@.len()) + ")"@
        }),
{
    let total = bytes.len();
    let (s, e) = read_file_window(total, start, max_bytes);
    let mut slice: Vec<u8> = Vec::new();
    let mut i = s;
    while i < e
        invariant
            s <= i <= e <= bytes@.len(),
            slice@ == bytes@.subrange(s as int, i as int),
        decreases e - i,
    {
        slice.push(bytes[i]);
        assert(slice@ =~= bytes@.subrange(s as int, i + 1));
        i = i + 1;
    }
    let content = match utf8_text(slice.as_slice()) {
        Some(t) => FileContent::Text(t),
        None => FileContent::Base64(base64_standard(slice.as_slice())),
    };
    let read_bytes = e - s;
    let mut summary = String::new();
    push_str(&mut summary, "readFile: ");
    push_decimal(&mut summary, read_bytes as u64);
    push_str(&mut summary, " bytes from ");
    push_str(&mut summary, path);
    push_str(&mut summary, " (offset ");
    push_decimal(&mut summary, s as u64);
    push_str(&mut summary, " of ");
    push_decimal(&mut summary, total as u64);
    push_str(&mut summary, ")");
    ReadFileReply { content, start: s, read_bytes, total_bytes: total, summary }
}

/// The value `uuid::Uuid::parse_str` reads from `s`, `None` where it refuses `s`.
pub uninterp spec fn uuid_parsed(s: Seq<char>) -> Option<u128>;

/// `uuid::Uuid::parse_str`: the 128-bit value of `s` read as a UUID, or the
/// text of the parser's error. Which texts parse, and the error's wording,
/// are the parser's own and are not restated here.
#[verifier::external_body]
fn parse_uuid(s: &str) -> (r: Result<u128, String>)
    ensures
        r is Ok <==> uuid_parsed(s@) is Some,
        r is Ok ==> r->Ok_0 == uuid_parsed(s@)->0,
{
    match uuid::Uuid::parse_str(s) {
        Ok(u) => Ok(u.as_u128()),
        Err(e) => Err(e.to_string()),
    }
}

/// The conversation a `codex-reply` call continues, read from its
/// `conversation_id` argument.
pub fn conversation_id(raw: &str) -> (r: Result<u128, ToolError>)
    ensures
        r is Ok <==> uuid_parsed(raw@) is Some,
        r is Ok ==> r->Ok_0 == uuid_parsed(raw@)->0,
        r is Err ==> r->Err_0 is ConversationIdInvalid,
{
    match parse_uuid(raw) {
        Ok(id) => Ok(id),
        Err(e) => Err(ToolError::ConversationIdInvalid(e)),
    }
}

/// The JSON-RPC error code for an invalid request.
pub const INVALID_REQUEST_ERROR_CODE: i64 = -32600;

/// A JSON-RPC error answered to a request.
#[derive(Debug, Clone)]
pub struct RequestRefusal {
    /// The JSON-RPC error code.
    pub code: i64,
    /// The error message.
    pub message: String,
}

/// Whether an `initialize` request is accepted: only the first one is.
pub open spec fn initialize_accepted(initialized: bool) -> bool {
    !initialized
}

/// The MCP handshake of one client connection.
#[derive(Debug)]
pub struct Handshake {
    initialized: bool,
}

impl Handshake {
    /// Whether `initialize` has been accepted.
    pub closed spec fn done(self) -> bool {
        self.initialized
    }

    /// A connection that has not been initialized.
    pub fn new() -> (h: Self)
        ensures
            !h.done(),
    {
        Handshake { initialized: false }
    }

    /// Whether `initialize` has been accepted.
    pub fn is_initialized(&self) -> (r: bool)
        ensures
            r == self.done(),
    {
        self.initialized
    }

    /// Handles `initialize` from the client `client_name` at `client_version`
    /// speaking `protocol_version`: the first call is accepted and answered
    /// with the server's identity, the echoed protocol version, tools whose
    /// list may change, and the user-agent suffix `"<name>; <version>"`; every
    /// later one is refused as an invalid request.
    pub fn initialize(&mut self, client_name: &str, client_version: &str, protocol_version: &str) -> (r: Result<
        InitializeAccepted,
        RequestRefusal,
    >)
        ensures
            r is Ok <==> initialize_accepted(old(self).done()),
            final(self).done(),
            r is Ok ==> ({
                let a = r->Ok_0;
                &&& a.user_agent_suffix@ == client_name@ + "; "@ + client_version@
                &&& a.protocol_version@ == protocol_version@
                &&& a.server_name@ == "codex-mcp-server"@
                &&& a.server_title@ == "Codex"@
                &&& a.tools_list_changed
            }),
            r is Err ==> r->Err_0.code == INVALID_REQUEST_ERROR_CODE && r->Err_0.message@
                == "initialize called more than once"@,
    {
        if self.initialized {
            return Err(
                RequestRefusal {
                    code: INVALID_REQUEST_ERROR_CODE,
                    message: "initialize called more than once".to_owned(),
                },
            );
        }
        let mut suffix = String::new();
        push_str(&mut suffix, client_name);
        push_str(&mut suffix, "; ");
        push_str(&mut suffix, client_version);
        let mut echoed = String::new();
        push_str(&mut echoed, protocol_version);
        self.initialized = true;
        Ok(
            InitializeAccepted {
                user_agent_suffix: suffix,
                protocol_version: echoed,
                server_name: "codex-mcp-server".to_owned(),
                server_title: "Codex".to_owned(),
                tools_list_changed: true,
            },
        )
    }
}

/// What an accepted `initialize` is answered with.
#[derive(Debug, Clone)]
pub struct InitializeAccepted {
    /// The suffix the server's user agent takes: the client's name and version.
    pub user_agent_suffix: String,
    /// The protocol version, echoed from the request.
    pub protocol_version: String,
    /// The server's name.
    pub server_name: String,
    /// The server's title.
    pub server_title: String,
    /// Whether the tool list is announced as changeable.
    pub tools_list_changed: bool,
}

/// Whether each of `n` successive `initialize` requests is accepted, starting
/// from a connection that is (`done`) or is not yet initialized: each is
/// accepted exactly when none was before, and leaves the connection initialized.
pub open spec fn initialize_outcomes(done: bool, n: nat) -> Seq<bool>
    decreases n,
{
    if n == 0 {
        Seq::empty()
    } else {
        seq![initialize_accepted(done)] + initialize_outcomes(true, (n - 1) as nat)
    }
}

proof fn lemma_initialized_refuses_all(n: nat)
    ensures
        initialize_outcomes(true, n).len() == n,
        forall|k: int| 0 <= k < n ==> !#[trigger] initialize_outcomes(true, n)[k],
    decreases n,
{
    if n > 0 {
        lemma_initialized_refuses_all((n - 1) as nat);
        let rest = initialize_outcomes(true, (n - 1) as nat);
        assert forall|k: int| 0 <= k < n implies !#[trigger] initialize_outcomes(true, n)[k] by {
            if k > 0 {
                assert(initialize_outcomes(true, n)[k] == rest[k - 1]);
            }
        }
    }
}

/// A connection accepts `initialize` once: of any number of requests on a
/// fresh connection, the first is accepted and every later one refused.
pub proof fn law_initialize_once(n: nat, k: int)
    requires
        0 <= k < n,
    ensures
        initialize_outcomes(false, n).len() == n,
        initialize_outcomes(false, n)[k] == (k == 0),
{
    lemma_initialized_refuses_all((n - 1) as nat);
    let rest = initialize_outcomes(true, (n - 1) as nat);
    assert(initialize_outcomes(false, n) == seq![true] + rest);
    if k > 0 {
        assert(initialize_outcomes(false, n)[k] == rest[k - 1]);
    }
}

/// The id of a JSON-RPC request: a string or an integer.
#[derive(Debug, Clone, PartialEq, Eq, Hash)]
pub enum RequestKey {
    /// A string id.
    Text(String),
    /// An integer id.
    Number(i64),
}

/// The text form of a request id.
pub open spec fn request_key_text(id: RequestKey) -> Seq<char> {
    match id {
        RequestKey::Text(s) => s@,
        RequestKey::Number(n) => signed_decimal(n as int),
    }
}

/// The stable text form of a request id, used to log a cancellation and to
/// name the interrupt submitted for it.
pub fn request_id_text(id: &RequestKey) -> (r: String)
    ensures
        r@ == request_key_text(*id),
{
    match id {
        RequestKey::Text(s) => {
            let mut r = String::new();
            push_str(&mut r, s.as_str());
            r
        },
        RequestKey::Number(n) => {
            let mut r = String::new();
            push_signed_decimal(&mut r, *n);
            r
        },
    }
}

/// The tools that run a command in the sandbox.
#[derive(Debug, Clone, Copy, PartialEq, Eq, Structural)]
pub enum SandboxedTool {
    /// `execCommand`.
    ExecCommand,
    /// `applyPatch`.
    ApplyPatch,
}

/// Where a sandboxed command runs.
#[derive(Debug, Clone, Copy, PartialEq, Eq, Structural)]
pub enum SandboxChoice {
    /// Without a sandbox.
    Unsandboxed,
    /// In the platform's sandbox, if the platform has one (without one otherwise).
    PlatformSandbox,
}

/// A command runs without a sandbox exactly when the policy grants full access.
pub fn sandbox_choice(danger_full_access: bool) -> (r: SandboxChoice)
    ensures
        danger_full_access <==> r == SandboxChoice::Unsandboxed,
{
    if danger_full_access {
        SandboxChoice::Unsandboxed
    } else {
        SandboxChoice::PlatformSandbox
    }
}

/// What a finished sandboxed command reported.
#[derive(Debug, Clone)]
pub struct CommandOutput {
    /// Its exit code.
    pub exit_code: i32,
    /// Its standard output.
    pub stdout: String,
    /// Its standard error.
    pub stderr: String,
}

/// The reply to a sandboxed tool call: its text, whether it is an error, and
/// the command's output attached as structured content when it finished.
#[derive(Debug, Clone)]
pub struct SandboxReply {
    pub text: String,
    pub is_error: bool,
    pub output: Option<CommandOutput>,
}

/// The text of a finished sandboxed command.
pub open spec fn sandbox_done_text(tool: SandboxedTool, exit_code: i32) -> Seq<char> {
    match tool {
        SandboxedTool::ExecCommand => "exit_code="@ + signed_decimal(exit_code as int)
            + " (see structured_content)"@,
        SandboxedTool::ApplyPatch => "applyPatch completed (see structured_content)"@,
    }
}

/// The refusal of a sandboxed command that could not run.
pub open spec fn sandbox_failure(tool: SandboxedTool, detail: String) -> ToolError {
    match tool {
        SandboxedTool::ExecCommand => ToolError::ExecFailed(detail),
        SandboxedTool::ApplyPatch => ToolError::ApplyPatchFailed(detail),
    }
}

/// The reply to a sandboxed tool call once the command finished (`Ok`) or
/// could not run (`Err`, with the reason).
pub fn sandbox_reply(tool: SandboxedTool, outcome: Result<CommandOutput, String>) -> (r: SandboxReply)
    ensures
        match outcome {
            Ok(o) => !r.is_error && r.text@ == sandbox_done_text(tool, o.exit_code) && r.output == Some(o),
            Err(d) => r.is_error && r.text@ == tool_error_message(sandbox_failure(tool, d)) && r.output is None,
        },
{
    match outcome {
        Ok(o) => {
            let text = match tool {
                SandboxedTool::ExecCommand => exec_completed_text(o.exit_code),
                SandboxedTool::ApplyPatch => "applyPatch completed (see structured_content)".to_owned(),
            };
            SandboxReply { text, is_error: false, output: Some(o) }
        },
        Err(d) => {
            let e = match tool {
                SandboxedTool::ExecCommand => ToolError::ExecFailed(d),
                SandboxedTool::ApplyPatch => ToolError::ApplyPatchFailed(d),
            };
            SandboxReply { text: e.message(), is_error: true, output: None }
        },
    }
}

/// The arguments of `codeSearch`.
#[derive(Debug, Clone)]
pub struct CodeSearchArgs {
    pub pattern: String,
    pub limit: Option<u32>,
    pub cwd: Option<String>,
    pub exclude: Option<Vec<String>>,
    pub compute_indices: Option<bool>,
}

/// A file search to run.
#[derive(Debug, Clone)]
pub struct CodeSearchRequest {
    /// The fuzzy pattern.
    pub pattern: String,
    /// The most matches to return.
    pub limit: usize,
    /// The directory searched.
    pub dir: String,
    /// Glob patterns left out of the search.
    pub exclude: Vec<String>,
    /// How many threads search.
    pub threads: usize,
    /// Whether matched character positions are reported.
    pub compute_indices: bool,
}

/// How many threads a file search uses.
pub const CODE_SEARCH_THREADS: usize = 4;

/// The search a `codeSearch` call runs: in the given directory (the
/// configured one by default), with the given exclusions (none by default),
/// the match limit of `code_search_limit`, four threads, and match positions
/// only when asked for.
pub fn code_search_request(args: CodeSearchArgs, default_cwd: String) -> (r: CodeSearchRequest)
    ensures
        r.pattern@ == args.pattern@,
        r.limit == spec_code_search_limit(args.limit),
        r.dir@ == (match args.cwd {
            Some(d) => d@,
            None => default_cwd@,
        }),
        r.exclude.deep_view() == (match args.exclude {
            Some(e) => e.deep_view(),
            None => Seq::<Seq<char>>::empty(),
        }),
        r.threads == CODE_SEARCH_THREADS,
        r.compute_indices == args.compute_indices.unwrap_or(false),
{
    let limit = code_search_limit(args.limit);
    let dir = match args.cwd {
        Some(d) => d,
        None => default_cwd,
    };
    let exclude = match args.exclude {
        Some(e) => e,
        None => {
            let e: Vec<String> = Vec::new();
            assert(e.deep_view() =~= Seq::<Seq<char>>::empty());
            e
        },
    };
    let compute_indices = match args.compute_indices {
        Some(b) => b,
        None => false,
    };
    CodeSearchRequest { pattern: args.pattern, limit, dir, exclude, threads: CODE_SEARCH_THREADS, compute_indices }
}

/// The reply to a `codeSearch` call once the search returned `total`
/// matches (`Ok`) or failed (`Err`, with the reason).
pub fn code_search_reply(limit: usize, outcome: Result<usize, String>) -> (r: crate::proxy::ToolReply)
    ensures
        match outcome {
            Ok(total) => !r.is_error && r.text@ == decimal(total as nat) + " matches (showing up to "@ + decimal(
                limit as nat,
            ) + "): codeSearch completed"@,
            Err(d) => r.is_error && r.text@ == tool_error_message(ToolError::CodeSearchFailed(d)),
        },
{
    match outcome {
        Ok(total) => crate::proxy::ok(code_search_summary(total, limit)),
        Err(d) => crate::proxy::err(ToolError::CodeSearchFailed(d).message()),
    }
}

/// The `/`-separated segments of `s`.
pub open spec fn slash_segments(s: Seq<char>) -> Seq<Seq<char>>
    decreases s.len(),
{
    match crate::text::first_index(s, '/') {
        None => seq![s],
        Some(i) => {
            proof {
                crate::text::lemma_first_index(s, '/');
            }
            seq![s.take(i)] + slash_segments(s.skip(i + 1))
        },
    }
}

/// Whether a path starts at the root (`/`).
pub open spec fn rooted(p: Seq<char>) -> bool {
    p.len() > 0 && p[0] == '/'
}

/// The named segments of a path: what follows its root, split at `/`.
pub open spec fn path_segments(p: Seq<char>) -> Seq<Seq<char>> {
    let body = if rooted(p) {
        p.skip(1)
    } else {
        p
    };
    if body.len() == 0 {
        Seq::empty()
    } else {
        slash_segments(body)
    }
}

/// A path every platform reads the same way: an optional leading `/`, then
/// names joined by single `/`s, none of them `.` or `..`, with no `\` and
/// no `:` anywhere.
pub open spec fn plain_path(p: Seq<char>) -> bool {
    &&& forall|i: int| 0 <= i < p.len() ==> #[trigger] p[i] != '\\' && p[i] != ':'
    &&& forall|k: int|
        0 <= k < path_segments(p).len() ==> {
            let seg = #[trigger] path_segments(p)[k];
            seg.len() > 0 && seg != seq!['.'] && seg != seq!['.', '.']
        }
}

/// Whether plain path `p` lies under plain path `base`, whole components
/// compared: the empty path is under everything; otherwise both start at
/// the root or neither does, and the segments of `base` begin those of `p`.
pub open spec fn plain_path_under(p: Seq<char>, base: Seq<char>) -> bool {
    base.len() == 0 || (rooted(base) == rooted(p) && path_segments(base).is_prefix_of(path_segments(p)))
}

/// Whether `path` lies under `base`, component by component (std
/// `Path::starts_with`, which compares whole components on every platform).
/// Paths that use a drive, a backslash, `.` or `..` are read differently by
/// different platforms, and of those only that a path lies under itself is
/// stated.
#[verifier::external_body]
fn path_starts_with(path: &str, base: &str) -> (r: bool)
    ensures
        path@ == base@ ==> r,
        plain_path(path@) && plain_path(base@) ==> (r <==> plain_path_under(path@, base@)),
{
    std::path::Path::new(path).starts_with(base)
}

/// Refuses a resolved `readFile` target that does not lie inside the
/// resolved workspace root. For plain paths a target is inside exactly when
/// the root's components begin its own; the root itself always is; a refusal
/// is always `ReadFileOutsideWorkspace`.
pub fn check_inside_workspace(target: &str, root: &str) -> (r: Result<(), ToolError>)
    ensures
        target@ == root@ ==> r is Ok,
        plain_path(target@) && plain_path(root@) ==> (r is Ok <==> plain_path_under(target@, root@)),
        r is Err ==> r->Err_0 == ToolError::ReadFileOutsideWorkspace,
{
    if path_starts_with(target, root) {
        Ok(())
    } else {
        Err(ToolError::ReadFileOutsideWorkspace)
    }
}

/// Where handling a cancellation notification stands.
#[derive(Debug, Clone, Copy, PartialEq, Eq, Structural)]
pub enum CancelStage {
    /// The request's entry in the running-request map is being looked up.
    LookUpRequest,
    /// The session of conversation `0` is being looked up.
    LookUpSession(u128),
    /// An interrupt is being submitted to conversation `0`.
    Submit(u128),
    /// Nothing is left to do.
    Finished,
}

/// What the handler learned at its stage.
#[derive(Debug, Clone, Copy, PartialEq, Eq, Structural)]
pub enum CancelEvent {
    /// The conversation the request runs in, if the map has the request.
    RequestEntry(Option<u128>),
    /// Whether the conversation's session was found.
    SessionFound(bool),
    /// Whether the interrupt was submitted.
    SubmitSucceeded(bool),
}

/// What the handler does next.
#[derive(Debug, Clone)]
pub enum CancelAction {
    /// Look up the session of this conversation.
    FindSession(u128),
    /// Submit an interrupt under this submission id.
    SubmitInterrupt(String),
    /// Take the request out of the running-request map.
    ForgetRequest,
    /// Stop, leaving the map as it is.
    Stop,
}

/// The next stage after `event` at `stage`.
pub open spec fn cancel_next(stage: CancelStage, event: CancelEvent) -> CancelStage {
    match (stage, event) {
        (CancelStage::LookUpRequest, CancelEvent::RequestEntry(Some(c))) => CancelStage::LookUpSession(c),
        (CancelStage::LookUpSession(c), CancelEvent::SessionFound(true)) => CancelStage::Submit(c),
        _ => CancelStage::Finished,
    }
}

/// Whether the action forgets the request.
pub open spec fn cancel_forgets(stage: CancelStage, event: CancelEvent) -> bool {
    match (stage, event) {
        (CancelStage::Submit(_), CancelEvent::SubmitSucceeded(true)) => true,
        _ => false,
    }
}

/// Whether an action is exactly the one prescribed for `event` at `stage`.
pub open spec fn cancel_action_ok(id: RequestKey, stage: CancelStage, event: CancelEvent, a: CancelAction) -> bool {
    match (stage, event) {
        (CancelStage::LookUpRequest, CancelEvent::RequestEntry(Some(c))) => a == CancelAction::FindSession(c),
        (CancelStage::LookUpSession(_), CancelEvent::SessionFound(true)) => a matches CancelAction::SubmitInterrupt(
            t,
        ) && t@ == request_key_text(id),
        (CancelStage::Submit(_), CancelEvent::SubmitSucceeded(true)) => a matches CancelAction::ForgetRequest,
        _ => a matches CancelAction::Stop,
    }
}

/// One step of handling a cancellation of request `id`: find the conversation
/// the request runs in, then its session, then submit an interrupt named
/// after the request; the request is forgotten only once the interrupt was
/// submitted, and any miss or failure stops with the map left as it is.
pub fn cancel_step(id: &RequestKey, stage: CancelStage, event: CancelEvent) -> (r: (CancelStage, CancelAction))
    ensures
        r.0 == cancel_next(stage, event),
        cancel_action_ok(*id, stage, event, r.1),
{
    match (stage, event) {
        (CancelStage::LookUpRequest, CancelEvent::RequestEntry(Some(c))) => (
            CancelStage::LookUpSession(c),
            CancelAction::FindSession(c),
        ),
        (CancelStage::LookUpSession(c), CancelEvent::SessionFound(true)) => (
            CancelStage::Submit(c),
            CancelAction::SubmitInterrupt(request_id_text(id)),
        ),
        (CancelStage::Submit(_), CancelEvent::SubmitSucceeded(true)) => (
            CancelStage::Finished,
            CancelAction::ForgetRequest,
        ),
        _ => (CancelStage::Finished, CancelAction::Stop),
    }
}

/// Whether handling a cancellation forgets the request, given what the three
/// lookups give: the request's entry, whether its session is found, whether
/// the interrupt is submitted.
pub open spec fn cancellation_forgets(entry: Option<u128>, session_found: bool, submitted: bool) -> bool {
    let s1 = cancel_next(CancelStage::LookUpRequest, CancelEvent::RequestEntry(entry));
    let s2 = cancel_next(s1, CancelEvent::SessionFound(session_found));
    cancel_forgets(s2, CancelEvent::SubmitSucceeded(submitted))
}

/// A cancelled request leaves the running-request map exactly when it was
/// there, its session was found and the interrupt was submitted; the
/// interrupt is submitted under the request id's text, to the request's
/// conversation.
pub proof fn law_cancel_forgets_only_after_interrupt(id: RequestKey, entry: Option<u128>, session_found: bool, submitted: bool)
    ensures
        cancellation_forgets(entry, session_found, submitted) <==> (entry is Some && session_found && submitted),
        entry is Some && session_found ==> cancel_next(
            CancelStage::LookUpRequest,
            CancelEvent::RequestEntry(entry),
        ) == CancelStage::LookUpSession(entry->0) && cancel_next(
            CancelStage::LookUpSession(entry->0),
            CancelEvent::SessionFound(true),
        ) == CancelStage::Submit(entry->0),
{
}

/// The kinds of MCP request a client sends.
#[derive(Debug, Clone, Copy, PartialEq, Eq, Structural)]
pub enum McpRequestKind {
    Initialize,
    Ping,
    ListResources,
    ListResourceTemplates,
    ReadResource,
    Subscribe,
    Unsubscribe,
    ListPrompts,
    GetPrompt,
    ListTools,
    CallTool,
    SetLevel,
    Complete,
}

/// The requests the server answers: the handshake, pings and the tool
/// requests. The others (resources, prompts, logging level, completion) are
/// only logged.
pub open spec fn spec_answers_request(kind: McpRequestKind) -> bool {
    match kind {
        McpRequestKind::Initialize => true,
        McpRequestKind::Ping => true,
        McpRequestKind::ListTools => true,
        McpRequestKind::CallTool => true,
        _ => false,
    }
}

/// Whether the server answers a request of this kind.
pub fn answers_request(kind: McpRequestKind) -> (r: bool)
    ensures
        r == spec_answers_request(kind),
{
    match kind {
        McpRequestKind::Initialize | McpRequestKind::Ping | McpRequestKind::ListTools | McpRequestKind::CallTool => true,
        _ => false,
    }
}

} // verus!

//! The decisions behind `codex mcp`: flag merging, `key=value` parsing,
//! server-name validation and the text shown for configured servers.
use vstd::prelude::*;

use crate::keyed_map::{KeyedMap, assoc_insert, lemma_assoc_insert, keys_distinct};
use crate::text::{byte_len, chars_of, find_char, first_index, push_str, string_of_range, trim, trim_bounds};

verus! {

broadcast use vstd::string::group_string_axioms;

/// Flags that shape `codex mcp serve`; accepted before or after the subcommand.
#[derive(Debug, Clone, Copy)]
pub struct ServeArgs {
    /// Expose the complete Codex action surface as individually addressable MCP tools.
    pub expose_all_tools: bool,
    /// Enable auxiliary Codex agents.
    pub enable_multiagent: bool,
    /// Maximum number of auxiliary Codex agents the server may orchestrate concurrently.
    pub max_aux_agents: Option<usize>,
}

impl Default for ServeArgs {
    fn default() -> (r: Self)
        ensures
            !r.expose_all_tools,
            !r.enable_multiagent,
            r.max_aux_agents is None,
    {
        ServeArgs { expose_all_tools: false, enable_multiagent: false, max_aux_agents: None }
    }
}

/// Arguments of the `serve` subcommand.
#[derive(Debug, Clone)]
pub struct ServeCommandArgs {
    /// Serve flags given after the subcommand.
    pub flags: ServeArgs,
    /// Arguments after `--`, accepted for compatibility with MCP Inspector but ignored.
    pub passthrough: Vec<String>,
}

impl Default for ServeCommandArgs {
    fn default() -> (r: Self)
        ensures
            !r.flags.expose_all_tools,
            !r.flags.enable_multiagent,
            r.flags.max_aux_agents is None,
            r.passthrough@.len() == 0,
    {
        ServeCommandArgs { flags: ServeArgs::default(), passthrough: Vec::new() }
    }
}

/// Arguments of `codex mcp list`.
#[derive(Debug, Clone, Copy)]
pub struct ListArgs {
    /// Output the configured servers as JSON.
    pub json: bool,
}

/// Arguments of `codex mcp get`.
#[derive(Debug, Clone)]
pub struct GetArgs {
    /// Name of the MCP server to display.
    pub name: String,
    /// Output the server configuration as JSON.
    pub json: bool,
}

/// Arguments of `codex mcp add`.
#[derive(Debug, Clone)]
pub struct AddArgs {
    /// Name for the MCP server configuration.
    pub name: String,
    /// Environment variables to set when launching the server.
    pub env: Vec<(String, String)>,
    /// Command to launch the MCP server.
    pub command: Vec<String>,
}

/// Arguments of `codex mcp remove`.
#[derive(Debug, Clone)]
pub struct RemoveArgs {
    /// Name of the MCP server configuration to remove.
    pub name: String,
}

/// The subcommands of `codex mcp`.
#[derive(Debug, Clone)]
pub enum McpSubcommand {
    /// Run the Codex MCP server (stdio transport).
    Serve(ServeCommandArgs),
    /// List configured MCP servers.
    List(ListArgs),
    /// Show details for a configured MCP server.
    Get(GetArgs),
    /// Add a global MCP server entry.
    Add(AddArgs),
    /// Remove a global MCP server entry.
    Remove(RemoveArgs),
}

/// Raw `-c key=value` configuration overrides from the command line.
#[derive(Debug, Clone)]
pub struct CliConfigOverrides {
    /// Each override as typed.
    pub raw_overrides: Vec<String>,
}

impl Default for CliConfigOverrides {
    fn default() -> (r: Self)
        ensures
            r.raw_overrides@.len() == 0,
    {
        CliConfigOverrides { raw_overrides: Vec::new() }
    }
}

/// Serve flags after merging the global ones with those of the `serve`
/// subcommand: booleans are or-ed, the subcommand's limit wins when given.
pub open spec fn merged_serve_args(global: ServeArgs, sub: ServeArgs) -> ServeArgs {
    ServeArgs {
        expose_all_tools: global.expose_all_tools || sub.expose_all_tools,
        enable_multiagent: global.enable_multiagent || sub.enable_multiagent,
        max_aux_agents: if sub.max_aux_agents is Some {
            sub.max_aux_agents
        } else {
            global.max_aux_agents
        },
    }
}

/// The effective serve flags and the ignored passthrough arguments.
pub fn finalize_serve_args(global: ServeArgs, subcommand: Option<ServeCommandArgs>) -> (r: (
    ServeArgs,
    Vec<String>,
))
    ensures
        match subcommand {
            Some(sub) => r.0 == merged_serve_args(global, sub.flags) && r.1@ == sub.passthrough@,
            None => r.0 == global && r.1@.len() == 0,
        },
{
    match subcommand {
        Some(sub_args) => (
            ServeArgs {
                expose_all_tools: global.expose_all_tools || sub_args.flags.expose_all_tools,
                enable_multiagent: global.enable_multiagent || sub_args.flags.enable_multiagent,
                max_aux_agents: match sub_args.flags.max_aux_agents {
                    Some(n) => Some(n),
                    None => global.max_aux_agents,
                },
            },
            sub_args.passthrough,
        ),
        None => (global, Vec::new()),
    }
}

/// The serve flags set in `args`, by their command-line spelling, in order.
pub open spec fn spec_ignored_serve_flags(args: ServeArgs) -> Seq<Seq<char>> {
    (if args.expose_all_tools {
        seq!["--expose-all-tools"@]
    } else {
        Seq::empty()
    }) + (if args.enable_multiagent {
        seq!["--enable-multiagent"@]
    } else {
        Seq::empty()
    }) + (if args.max_aux_agents is Some {
        seq!["--max-aux-agents"@]
    } else {
        Seq::empty()
    })
}

/// The serve flags that a subcommand other than `serve` ignores.
pub fn ignored_serve_flags(args: &ServeArgs) -> (r: Vec<String>)
    ensures
        r.deep_view() == spec_ignored_serve_flags(*args),
{
    let mut r: Vec<String> = Vec::new();
    if args.expose_all_tools {
        r.push("--expose-all-tools".to_owned());
    }
    if args.enable_multiagent {
        r.push("--enable-multiagent".to_owned());
    }
    if args.max_aux_agents.is_some() {
        r.push("--max-aux-agents".to_owned());
    }
    assert(r.deep_view() =~= spec_ignored_serve_flags(*args));
    r
}

/// Auxiliary agents allowed: the given limit whenever one is given; otherwise
/// two when multi-agent mode is on and none when it is off.
pub open spec fn spec_effective_max_aux_agents(enable_multiagent: bool, max_aux_agents: Option<usize>) -> Option<usize> {
    match max_aux_agents {
        Some(limit) => Some(limit),
        None => if enable_multiagent {
            Some(2)
        } else {
            Some(0)
        },
    }
}

/// The number of auxiliary agents the server may run.
pub fn effective_max_aux_agents(enable_multiagent: bool, max_aux_agents: Option<usize>) -> (r: Option<usize>)
    ensures
        r == spec_effective_max_aux_agents(enable_multiagent, max_aux_agents),
{
    match (max_aux_agents, enable_multiagent) {
        (Some(limit), _) => Some(limit),
        (None, true) => Some(2),
        (None, false) => Some(0),
    }
}

/// The part of `raw` before its first `=` (all of it when there is none).
pub open spec fn split_key(raw: Seq<char>) -> Seq<char> {
    match first_index(raw, '=') {
        Some(i) => raw.take(i),
        None => raw,
    }
}

/// The part of `raw` after its first `=`, if there is one.
pub open spec fn split_value(raw: Seq<char>) -> Option<Seq<char>> {
    match first_index(raw, '=') {
        Some(i) => Some(raw.skip(i + 1)),
        None => None,
    }
}

/// The key of a `key=value` entry: the part before the first `=`, trimmed.
pub open spec fn pair_key(raw: Seq<char>) -> Seq<char> {
    trim(split_key(raw))
}

/// A `key=value` entry has a `=` and a non-blank key.
pub open spec fn well_formed_pair(raw: Seq<char>) -> bool {
    pair_key(raw).len() > 0 && split_value(raw) is Some
}

/// Splits `raw` at its first `=` into a trimmed, non-empty key and the rest.
pub fn split_pair(raw: &str) -> (r: Option<(String, String)>)
    ensures
        match r {
            Some(kv) => well_formed_pair(raw@) && kv.0@ == pair_key(raw@) && kv.1@ == split_value(raw@)->0,
            None => !well_formed_pair(raw@),
        },
{
    let v = chars_of(raw);
    let eq = find_char(&v, '=');
    proof {
        crate::text::lemma_first_index(v@, '=');
    }
    let key_end = match eq {
        Some(i) => i,
        None => v.len(),
    };
    let key_part = string_of_range(&v, 0, key_end);
    let kv = chars_of(key_part.as_str());
    assert(kv@ =~= split_key(raw@)) by {
        assert(v@.subrange(0, v@.len() as int) =~= v@);
        if let Some(i) = eq {
            assert(v@.subrange(0, i as int) =~= v@.take(i as int));
        }
    }
    let (a, b) = trim_bounds(&kv);
    if a == b {
        return None;
    }
    match eq {
        None => None,
        Some(i) => {
            let key = string_of_range(&kv, a, b);
            let value = string_of_range(&v, i + 1, v.len());
            assert(value@ =~= raw@.skip(i + 1));
            Some((key, value))
        },
    }
}

/// The message for a malformed `--env` entry.
pub open spec fn env_pair_error() -> Seq<char> {
    "environment entries must be in KEY=VALUE form"@
}

/// Parses a `KEY=VALUE` environment entry.
pub fn parse_env_pair(raw: &str) -> (r: Result<(String, String), String>)
    ensures
        match r {
            Ok(kv) => well_formed_pair(raw@) && kv.0@ == pair_key(raw@) && kv.1@ == split_value(raw@)->0,
            Err(e) => !well_formed_pair(raw@) && e@ == env_pair_error(),
        },
{
    match split_pair(raw) {
        Some(kv) => Ok(kv),
        None => Err("environment entries must be in KEY=VALUE form".to_owned()),
    }
}

/// A character allowed in a server name: an ASCII letter or digit, `-` or `_`.
pub open spec fn is_name_char(c: char) -> bool {
    ('a' <= c <= 'z') || ('A' <= c <= 'Z') || ('0' <= c <= '9') || c == '-' || c == '_'
}

/// A server name is non-empty and made of name characters only.
pub open spec fn valid_server_name(name: Seq<char>) -> bool {
    name.len() > 0 && forall|i: int| 0 <= i < name.len() ==> is_name_char(#[trigger] name[i])
}

/// The message for an invalid server name.
pub open spec fn invalid_name_message(name: Seq<char>) -> Seq<char> {
    "invalid server name '"@ + name + "' (use letters, numbers, '-', '_')"@
}

/// Accepts a valid server name, or says why it is not one.
pub fn validate_server_name(name: &str) -> (r: Result<(), String>)
    ensures
        match r {
            Ok(()) => valid_server_name(name@),
            Err(e) => !valid_server_name(name@) && e@ == invalid_name_message(name@),
        },
{
    let v = chars_of(name);
    let mut ok = v.len() > 0;
    let mut i: usize = 0;
    while i < v.len()
        invariant
            v@ == name@,
            i <= v.len(),
            ok == (v.len() > 0 && forall|k: int| 0 <= k < i ==> is_name_char(#[trigger] v@[k])),
        decreases v.len() - i,
    {
        let c = v[i];
        let good = ('a' <= c && c <= 'z') || ('A' <= c && c <= 'Z') || ('0' <= c && c <= '9') || c
            == '-' || c == '_';
        if !good {
            ok = false;
        }
        proof {
            if ok {
                assert forall|k: int| 0 <= k < i + 1 implies is_name_char(#[trigger] v@[k]) by {}
            }
            if !good {
                assert(!is_name_char(v@[i as int]));
            }
        }
        i = i + 1;
    }
    if ok {
        Ok(())
    } else {
        let mut m = "invalid server name '".to_owned();
        push_str(&mut m, name);
        push_str(&mut m, "' (use letters, numbers, '-', '_')");
        Err(m)
    }
}

} // verus!

verus! {

/// The message for a malformed configuration override.
pub open spec fn override_error(raw: Seq<char>) -> Seq<char> {
    "invalid config override '"@ + raw + "': expected key=value"@
}

/// The position of the first malformed entry, if any.
pub open spec fn first_malformed(raws: Seq<Seq<char>>) -> Option<int>
    decreases raws.len(),
{
    if raws.len() == 0 {
        None
    } else if !well_formed_pair(raws[0]) {
        Some(0)
    } else {
        match first_malformed(raws.drop_first()) {
            Some(i) => Some(i + 1),
            None => None,
        }
    }
}

/// Facts about `first_malformed`.
pub proof fn lemma_first_malformed(raws: Seq<Seq<char>>)
    ensures
        match first_malformed(raws) {
            Some(i) => 0 <= i < raws.len() && !well_formed_pair(raws[i]) && forall|k: int|
                0 <= k < i ==> well_formed_pair(#[trigger] raws[k]),
            None => forall|k: int| 0 <= k < raws.len() ==> well_formed_pair(#[trigger] raws[k]),
        },
    decreases raws.len(),
{
    if raws.len() > 0 {
        lemma_first_malformed(raws.drop_first());
        assert forall|k: int| 0 < k < raws.len() implies #[trigger] raws[k] == raws.drop_first()[k - 1] by {}
    }
}

/// `first_malformed` of a prefix extended by a well-formed entry.
proof fn lemma_first_malformed_push(raws: Seq<Seq<char>>, i: int)
    requires
        0 <= i < raws.len(),
        first_malformed(raws.take(i)) is None,
    ensures
        well_formed_pair(raws[i]) ==> first_malformed(raws.take(i + 1)) is None,
        !well_formed_pair(raws[i]) ==> first_malformed(raws) == Some(i),
{
    lemma_first_malformed(raws.take(i));
    lemma_first_malformed(raws.take(i + 1));
    lemma_first_malformed(raws);
    if well_formed_pair(raws[i]) {
        if let Some(j) = first_malformed(raws.take(i + 1)) {
            if j < i {
                assert(raws.take(i)[j] == raws[j]);
            }
        }
    } else {
        if let Some(j) = first_malformed(raws) {
            if j < i {
                assert(raws.take(i)[j] == raws[j]);
            }
        }
    }
}

/// The entries of `key=value` pairs taken in order, a later value replacing an
/// earlier one under the same key.
pub open spec fn pairs_entries(raws: Seq<Seq<char>>) -> Seq<(Seq<char>, Seq<char>)>
    decreases raws.len(),
{
    if raws.len() == 0 {
        Seq::empty()
    } else {
        assoc_insert(
            pairs_entries(raws.drop_last()),
            pair_key(raws.last()),
            split_value(raws.last())->0,
        )
    }
}

/// Parses every override as `key=value` (the key trimmed, the value as typed);
/// the first malformed one is reported.
pub fn parse_plain_overrides(overrides: &CliConfigOverrides) -> (r: Result<KeyedMap<String>, String>)
    ensures
        match first_malformed(overrides.raw_overrides.deep_view()) {
            Some(i) => r is Err && r->Err_0@ == override_error(overrides.raw_overrides.deep_view()[i]),
            None => r is Ok && r->Ok_0@ == pairs_entries(overrides.raw_overrides.deep_view()),
        },
{
    let ghost rv = overrides.raw_overrides.deep_view();
    let mut map: KeyedMap<String> = KeyedMap::new();
    let mut i: usize = 0;
    assert(rv.take(0) =~= Seq::<Seq<char>>::empty());
    while i < overrides.raw_overrides.len()
        invariant
            rv == overrides.raw_overrides.deep_view(),
            i <= overrides.raw_overrides.len(),
            first_malformed(rv.take(i as int)) is None,
            map@ == pairs_entries(rv.take(i as int)),
        decreases overrides.raw_overrides.len() - i,
    {
        proof {
            lemma_first_malformed_push(rv, i as int);
        }
        let raw = &overrides.raw_overrides[i];
        assert(rv[i as int] == raw@);
        match split_pair(raw.as_str()) {
            None => {
                let mut m = "invalid config override '".to_owned();
                push_str(&mut m, raw.as_str());
                push_str(&mut m, "': expected key=value");
                assert(m@ =~= override_error(rv[i as int]));
                return Err(m);
            },
            Some(kv) => {
                let (k, v) = kv;
                map.insert(k, v);
                assert(rv.take(i + 1).drop_last() =~= rv.take(i as int));
                i = i + 1;
            },
        }
    }
    assert(rv.take(i as int) =~= rv);
    Ok(map)
}

/// Checks that every override is a `key=value` pair.
pub fn ensure_plain_overrides(overrides: &CliConfigOverrides) -> (r: Result<(), String>)
    ensures
        match first_malformed(overrides.raw_overrides.deep_view()) {
            Some(i) => r is Err && r->Err_0@ == override_error(overrides.raw_overrides.deep_view()[i]),
            None => r is Ok,
        },
{
    match parse_plain_overrides(overrides) {
        Ok(_) => Ok(()),
        Err(e) => Err(e),
    }
}

} // verus!

verus! {

/// The keys of `s` in increasing order.
pub open spec fn sorted_keys<V>(s: Seq<(Seq<char>, V)>) -> Seq<Seq<char>> {
    crate::keyed_map::sorted_order_of(s).map_values(|i: usize| s[i as int].0)
}

/// The entries of `s` by increasing key.
pub open spec fn sorted_entries<V>(s: Seq<(Seq<char>, V)>) -> Seq<(Seq<char>, V)> {
    crate::keyed_map::sorted_order_of(s).map_values(|i: usize| s[i as int])
}

/// Pairs of strings by their views.
pub open spec fn string_pairs(v: Seq<(String, String)>) -> Seq<(Seq<char>, Seq<char>)> {
    v.map_values(|e: (String, String)| (e.0@, e.1@))
}

/// The overrides as `(key, value)` pairs ordered by key, each value to be
/// passed on as a TOML string.
pub fn config_overrides_as_toml(map: &KeyedMap<String>) -> (r: Vec<(String, String)>)
    ensures
        string_pairs(r@) == sorted_entries(map@),
        string_pairs(r@).map_values(|e: (Seq<char>, Seq<char>)| e.0) == sorted_keys(map@),
{
    let order = map.sorted_order();
    let mut out: Vec<(String, String)> = Vec::new();
    let mut i: usize = 0;
    while i < order.len()
        invariant
            order@ == crate::keyed_map::sorted_order_of(map@),
            crate::keyed_map::is_sorted_order(map@, order@),
            i <= order.len(),
            out.len() == i,
            string_pairs(out@) == sorted_entries(map@).take(i as int),
        decreases order.len() - i,
    {
        let (k, v) = map.entry(order[i]);
        let ghost before = out@;
        let key = k.clone();
        let value = v.clone();
        assert(key@ == map@[order@[i as int] as int].0 && value@ == map@[order@[i as int] as int].1);
        out.push((key, value));
        assert(out@ == before.push(out@[i as int]));
        assert(sorted_entries(map@)[i as int] == map@[order@[i as int] as int]);
        assert(string_pairs(out@) =~= sorted_entries(map@).take(i + 1));
        i = i + 1;
    }
    assert(sorted_entries(map@).take(i as int) =~= sorted_entries(map@));
    assert(string_pairs(out@).map_values(|e: (Seq<char>, Seq<char>)| e.0) =~= sorted_keys(map@));
    out
}

/// The overrides as `(key, value)` pairs ordered by key, each value to be
/// passed on as a TOML string; the first malformed override is reported.
pub fn plain_overrides_as_toml(overrides: &CliConfigOverrides) -> (r: Result<Vec<(String, String)>, String>)
    ensures
        match first_malformed(overrides.raw_overrides.deep_view()) {
            Some(i) => r is Err && r->Err_0@ == override_error(overrides.raw_overrides.deep_view()[i]),
            None => r is Ok && string_pairs(r->Ok_0@) == sorted_entries(
                pairs_entries(overrides.raw_overrides.deep_view()),
            ),
        },
{
    let map = parse_plain_overrides(overrides)?;
    Ok(config_overrides_as_toml(&map))
}

} // verus!

verus! {

/// How to launch one configured MCP server.
#[derive(Debug)]
pub struct McpServerConfig {
    /// Program to run.
    pub command: String,
    /// Its arguments.
    pub args: Vec<String>,
    /// Environment variables to set, if any.
    pub env: Option<KeyedMap<String>>,
    /// How long to wait for the server to start.
    pub startup_timeout_ms: Option<u64>,
}

/// A server launcher as plain values.
pub struct McpServerConfigView {
    pub command: Seq<char>,
    pub args: Seq<Seq<char>>,
    pub env: Option<Seq<(Seq<char>, Seq<char>)>>,
    pub startup_timeout_ms: Option<u64>,
}

impl View for McpServerConfig {
    type V = McpServerConfigView;

    open spec fn view(&self) -> McpServerConfigView {
        McpServerConfigView {
            command: self.command@,
            args: self.args.deep_view(),
            env: match self.env {
                Some(m) => Some(m@),
                None => None,
            },
            startup_timeout_ms: self.startup_timeout_ms,
        }
    }
}

/// The entries of `(key, value)` pairs taken in order, a later value replacing
/// an earlier one under the same key.
pub open spec fn env_entries(pairs: Seq<(Seq<char>, Seq<char>)>) -> Seq<(Seq<char>, Seq<char>)>
    decreases pairs.len(),
{
    if pairs.len() == 0 {
        Seq::empty()
    } else {
        assoc_insert(env_entries(pairs.drop_last()), pairs.last().0, pairs.last().1)
    }
}

/// The `(key, value)` pairs of `v` by their views.
pub open spec fn pairs_view(v: Seq<(String, String)>) -> Seq<(Seq<char>, Seq<char>)> {
    v.map_values(|p: (String, String)| (p.0@, p.1@))
}

/// The launcher that `codex mcp add` stores for the given arguments.
pub open spec fn added_server(add: AddArgs) -> McpServerConfigView {
    McpServerConfigView {
        command: add.command@[0]@,
        args: add.command.deep_view().skip(1),
        env: if add.env@.len() == 0 {
            None
        } else {
            Some(env_entries(pairs_view(add.env@)))
        },
        startup_timeout_ms: None,
    }
}

/// Validates `codex mcp add` and builds the entry to store under its name:
/// the overrides must parse, the name must be valid and a command given.
pub fn prepare_add(config_overrides: &CliConfigOverrides, add_args: AddArgs) -> (r: Result<(String, McpServerConfig), String>)
    ensures
        match first_malformed(config_overrides.raw_overrides.deep_view()) {
            Some(i) => r is Err && r->Err_0@ == override_error(config_overrides.raw_overrides.deep_view()[i]),
            None => if !valid_server_name(add_args.name@) {
                r is Err && r->Err_0@ == invalid_name_message(add_args.name@)
            } else if add_args.command@.len() == 0 {
                r is Err && r->Err_0@ == "command is required"@
            } else {
                r is Ok && r->Ok_0.0@ == add_args.name@ && r->Ok_0.1@ == added_server(add_args)
            },
        },
{
    ensure_plain_overrides(config_overrides)?;
    let AddArgs { name, env, command } = add_args;
    validate_server_name(name.as_str())?;
    let mut command = command;
    if command.len() == 0 {
        return Err("command is required".to_owned());
    }
    let ghost all = command.deep_view();
    let command_bin = command.remove(0);
    assert(command.deep_view() =~= all.skip(1));
    let env_map = if env.len() == 0 {
        None
    } else {
        let ghost ev = pairs_view(env@);
        let mut map: KeyedMap<String> = KeyedMap::new();
        let mut env = env;
        let n = env.len();
        let mut i: usize = 0;
        assert(pairs_view(env@) =~= ev.skip(0));
        while i < n
            invariant
                n == ev.len(),
                i <= n,
                env.len() == n - i,
                pairs_view(env@) =~= ev.skip(i as int),
                map@ == env_entries(ev.take(i as int)),
            decreases n - i,
        {
            let ghost before = env@;
            let p = env.remove(0);
            assert((p.0@, p.1@) == ev[i as int]) by {
                assert(pairs_view(before)[0] == ev.skip(i as int)[0]);
            }
            map.insert(p.0, p.1);
            assert(ev.take(i + 1).drop_last() =~= ev.take(i as int));
            assert forall|k: int| 0 <= k < env@.len() implies #[trigger] pairs_view(env@)[k] == ev.skip(i + 1)[k] by {
                assert(env@[k] == before[k + 1]);
                assert(pairs_view(before)[k + 1] == ev.skip(i as int)[k + 1]);
            }
            assert(pairs_view(env@) =~= ev.skip(i + 1));
            i = i + 1;
        }
        assert(ev.take(n as int) =~= ev);
        Some(map)
    };
    Ok((name, McpServerConfig { command: command_bin, args: command, env: env_map, startup_timeout_ms: None }))
}

} // verus!

verus! {

/// Validates `codex mcp remove`: the overrides must parse and the name be valid.
pub fn prepare_remove(config_overrides: &CliConfigOverrides, remove_args: RemoveArgs) -> (r: Result<String, String>)
    ensures
        match first_malformed(config_overrides.raw_overrides.deep_view()) {
            Some(i) => r is Err && r->Err_0@ == override_error(config_overrides.raw_overrides.deep_view()[i]),
            None => if !valid_server_name(remove_args.name@) {
                r is Err && r->Err_0@ == invalid_name_message(remove_args.name@)
            } else {
                r is Ok && r->Ok_0@ == remove_args.name@
            },
        },
{
    ensure_plain_overrides(config_overrides)?;
    let RemoveArgs { name } = remove_args;
    validate_server_name(name.as_str())?;
    Ok(name)
}

/// The confirmation printed after adding a server.
pub fn added_message(name: &str) -> (m: String)
    ensures
        m@ == "Added global MCP server '"@ + name@ + "'."@,
{
    let mut m = "Added global MCP server '".to_owned();
    push_str(&mut m, name);
    push_str(&mut m, "'.");
    m
}

/// The line printed after a removal, depending on whether the server existed.
pub fn removal_message(name: &str, removed: bool) -> (m: String)
    ensures
        removed ==> m@ == "Removed global MCP server '"@ + name@ + "'."@,
        !removed ==> m@ == "No MCP server named '"@ + name@ + "' found."@,
{
    let mut m = if removed {
        "Removed global MCP server '".to_owned()
    } else {
        "No MCP server named '".to_owned()
    };
    push_str(&mut m, name);
    if removed {
        push_str(&mut m, "'.");
    } else {
        push_str(&mut m, "' found.");
    }
    m
}

/// `parts` joined by `sep`.
pub open spec fn join(parts: Seq<Seq<char>>, sep: Seq<char>) -> Seq<char>
    decreases parts.len(),
{
    if parts.len() == 0 {
        Seq::empty()
    } else if parts.len() == 1 {
        parts[0]
    } else {
        join(parts.drop_last(), sep) + sep + parts.last()
    }
}

/// The strings of `parts` joined by `sep`.
pub fn join_strings(parts: &Vec<String>, sep: &str) -> (r: String)
    ensures
        r@ == join(parts.deep_view(), sep@),
{
    let ghost pv = parts.deep_view();
    let mut r = String::new();
    let mut i: usize = 0;
    while i < parts.len()
        invariant
            pv == parts.deep_view(),
            i <= parts.len(),
            r@ == join(pv.take(i as int), sep@),
        decreases parts.len() - i,
    {
        if i > 0 {
            push_str(&mut r, sep);
        }
        push_str(&mut r, parts[i].as_str());
        proof {
            let t = pv.take(i + 1);
            assert(t.drop_last() =~= pv.take(i as int));
            if i == 0 {
                assert(r@ =~= join(t, sep@));
            }
        }
        i = i + 1;
    }
    assert(pv.take(i as int) =~= pv);
    r
}

/// The `Args` cell: the arguments joined by spaces, or `-` when there are none.
pub open spec fn args_display(args: Seq<Seq<char>>) -> Seq<char> {
    if args.len() == 0 {
        "-"@
    } else {
        join(args, " "@)
    }
}

/// The arguments as shown in listings.
pub fn format_args(args: &Vec<String>) -> (r: String)
    ensures
        r@ == args_display(args.deep_view()),
{
    if args.len() == 0 {
        "-".to_owned()
    } else {
        join_strings(args, " ")
    }
}

/// `key=value` for each entry, by increasing key.
pub open spec fn sorted_assignments(m: Seq<(Seq<char>, Seq<char>)>) -> Seq<Seq<char>> {
    crate::keyed_map::sorted_order_of(m).map_values(|i: usize| m[i as int].0 + "="@ + m[i as int].1)
}

/// The `Env` cell: `KEY=VALUE` pairs by key, joined by `, `, or `-` when there are none.
pub open spec fn env_display(env: Option<Seq<(Seq<char>, Seq<char>)>>) -> Seq<char> {
    match env {
        None => "-"@,
        Some(m) => if m.len() == 0 {
            "-"@
        } else {
            join(sorted_assignments(m), ", "@)
        },
    }
}

/// The environment as shown in listings.
pub fn format_env(env: &Option<KeyedMap<String>>) -> (r: String)
    ensures
        r@ == env_display(match env {
            Some(m) => Some(m@),
            None => None,
        }),
{
    match env {
        None => "-".to_owned(),
        Some(map) => {
            if map.len() == 0 {
                return "-".to_owned();
            }
            let order = map.sorted_order();
            let mut pairs: Vec<String> = Vec::new();
            let mut i: usize = 0;
            while i < order.len()
                invariant
                    order@ == crate::keyed_map::sorted_order_of(map@),
                    crate::keyed_map::is_sorted_order(map@, order@),
                    i <= order.len(),
                    pairs.deep_view() == sorted_assignments(map@).take(i as int),
                decreases order.len() - i,
            {
                let (k, v) = map.entry(order[i]);
                let mut s = k.clone();
                push_str(&mut s, "=");
                push_str(&mut s, v.as_str());
                let ghost before = pairs.deep_view();
                pairs.push(s);
                assert(pairs.deep_view() =~= before.push(s@));
                assert(pairs.deep_view() =~= sorted_assignments(map@).take(i + 1));
                i = i + 1;
            }
            assert(sorted_assignments(map@).take(i as int) =~= sorted_assignments(map@));
            join_strings(&pairs, ", ")
        },
    }
}

} // verus!

verus! {

/// `s` padded with spaces on the right to `w` characters.
pub open spec fn pad(s: Seq<char>, w: nat) -> Seq<char> {
    if s.len() < w {
        s + Seq::new((w - s.len()) as nat, |i: int| ' ')
    } else {
        s
    }
}

/// The header cells of the server table.
pub open spec fn table_header() -> Seq<Seq<char>> {
    seq!["Name"@, "Command"@, "Args"@, "Env"@]
}

/// Width of column `c`: the largest byte length among its header and cells.
pub open spec fn column_width(rows: Seq<Seq<Seq<char>>>, c: int) -> nat
    decreases rows.len(),
{
    if rows.len() == 0 {
        byte_len(table_header()[c])
    } else {
        let w = column_width(rows.drop_last(), c);
        let l = byte_len(rows.last()[c]);
        if w >= l {
            w
        } else {
            l
        }
    }
}

/// One line of the server table: four padded cells separated by two spaces.
pub open spec fn table_line(cells: Seq<Seq<char>>, rows: Seq<Seq<Seq<char>>>) -> Seq<char> {
    pad(cells[0], column_width(rows, 0)) + "  "@ + pad(cells[1], column_width(rows, 1)) + "  "@ + pad(
        cells[2],
        column_width(rows, 2),
    ) + "  "@ + pad(cells[3], column_width(rows, 3))
}

/// The cells shown for one server.
pub open spec fn server_row(name: Seq<char>, cfg: McpServerConfigView) -> Seq<Seq<char>> {
    seq![name, cfg.command, args_display(cfg.args), env_display(cfg.env)]
}

/// The rows of the server table, by increasing name.
pub open spec fn server_rows(servers: Seq<(Seq<char>, McpServerConfigView)>) -> Seq<Seq<Seq<char>>> {
    crate::keyed_map::sorted_order_of(servers).map_values(
        |i: usize| server_row(servers[i as int].0, servers[i as int].1),
    )
}

/// The message shown when no server is configured.
pub open spec fn no_servers_message() -> Seq<char> {
    "No MCP servers configured yet. Try `codex mcp add my-tool -- my-command`."@
}

/// The table lines for `rows`, each padded to the widths of `all`.
pub open spec fn row_lines(rows: Seq<Seq<Seq<char>>>, all: Seq<Seq<Seq<char>>>) -> Seq<Seq<char>> {
    rows.map_values(|r: Seq<Seq<char>>| table_line(r, all))
}

/// What `codex mcp list` prints: a hint when nothing is configured, else a
/// header line and one line per server.
pub open spec fn server_list_lines(servers: Seq<(Seq<char>, McpServerConfigView)>) -> Seq<Seq<char>> {
    if servers.len() == 0 {
        seq![no_servers_message()]
    } else {
        let rows = server_rows(servers);
        seq![table_line(table_header(), rows)] + row_lines(rows, rows)
    }
}

/// Appends `cell` padded with spaces to `w` characters.
fn push_padded(s: &mut String, cell: &str, w: usize)
    ensures
        final(s)@ == old(s)@ + pad(cell@, w as nat),
{
    push_str(s, cell);
    let n = chars_of(cell).len();
    let mut k: usize = n;
    let ghost start = old(s)@;
    while k < w
        invariant
            n == cell@.len(),
            n <= k <= w || (k == n && n >= w),
            s@ == start + cell@ + Seq::new((k - n) as nat, |i: int| ' '),
        decreases w - k,
    {
        crate::text::push_char(s, ' ');
        assert(Seq::new((k + 1 - n) as nat, |i: int| ' ') =~= Seq::new((k - n) as nat, |i: int| ' ').push(' '));
        k = k + 1;
    }
    if n < w {
        assert(s@ =~= start + pad(cell@, w as nat));
    } else {
        assert(Seq::new((k - n) as nat, |i: int| ' ') =~= Seq::<char>::empty());
        assert(s@ =~= start + pad(cell@, w as nat));
    }
}

/// The widths of the four columns for `rows`.
fn column_widths(rows: &Vec<Vec<String>>) -> (w: Vec<usize>)
    requires
        forall|k: int| 0 <= k < rows@.len() ==> (#[trigger] rows@[k])@.len() == 4,
    ensures
        w@.len() == 4,
        forall|c: int| 0 <= c < 4 ==> w@[c] as nat == column_width(rows.deep_view(), c),
{
    let ghost rv = rows.deep_view();
    let mut w: Vec<usize> = Vec::new();
    w.push("Name".len());
    w.push("Command".len());
    w.push("Args".len());
    w.push("Env".len());
    let mut k: usize = 0;
    assert(rv.take(0) =~= Seq::<Seq<Seq<char>>>::empty());
    while k < rows.len()
        invariant
            rv == rows.deep_view(),
            forall|j: int| 0 <= j < rows@.len() ==> (#[trigger] rows@[j])@.len() == 4,
            k <= rows.len(),
            w@.len() == 4,
            forall|c: int| 0 <= c < 4 ==> w@[c] as nat == column_width(rv.take(k as int), c),
        decreases rows.len() - k,
    {
        let row = &rows[k];
        let mut c: usize = 0;
        let ghost wold = w@;
        assert(rv.take(k + 1).drop_last() =~= rv.take(k as int));
        assert(rv[k as int] == row.deep_view());
        while c < 4
            invariant
                rv == rows.deep_view(),
                row@.len() == 4,
                rv[k as int] == row.deep_view(),
                k < rows.len(),
                c <= 4,
                w@.len() == 4,
                forall|d: int| 0 <= d < c ==> w@[d] as nat == column_width(rv.take(k + 1), d),
                wold.len() == 4,
                forall|d: int| c <= d < 4 ==> w@[d] == wold[d],
                forall|d: int| 0 <= d < 4 ==> wold[d] as nat == column_width(rv.take(k as int), d),
            decreases 4 - c,
        {
            let l = row[c].as_str().len();
            proof {
                assert(row.deep_view()[c as int] == row@[c as int]@);
                let t = rv.take(k + 1);
                assert(t.last() == rv[k as int]);
                assert(t.drop_last() == rv.take(k as int));
                assert(l as nat == byte_len(t.last()[c as int]));
                assert(wold[c as int] as nat == column_width(rv.take(k as int), c as int));
                assert(w@[c as int] == wold[c as int]);
                let prev = column_width(t.drop_last(), c as int);
                assert(prev == column_width(rv.take(k as int), c as int));
                assert(column_width(t, c as int) == if prev >= l as nat { prev } else { l as nat });
            }
            if l > w[c] {
                w.set(c, l);
            }
            assert(w@[c as int] as nat == column_width(rv.take(k + 1), c as int));
            c = c + 1;
        }
        k = k + 1;
    }
    assert(rv.take(k as int) =~= rv);
    w
}

/// One table line for `cells` with the given widths.
fn format_table_line(cells: &Vec<String>, w: &Vec<usize>, rows: Ghost<Seq<Seq<Seq<char>>>>) -> (line: String)
    requires
        cells@.len() == 4,
        w@.len() == 4,
        forall|c: int| 0 <= c < 4 ==> w@[c] as nat == column_width(rows@, c),
    ensures
        line@ == table_line(cells.deep_view(), rows@),
{
    let mut line = String::new();
    push_padded(&mut line, cells[0].as_str(), w[0]);
    push_str(&mut line, "  ");
    push_padded(&mut line, cells[1].as_str(), w[1]);
    push_str(&mut line, "  ");
    push_padded(&mut line, cells[2].as_str(), w[2]);
    push_str(&mut line, "  ");
    push_padded(&mut line, cells[3].as_str(), w[3]);
    assert(line@ =~= table_line(cells.deep_view(), rows@));
    line
}

/// The lines that `codex mcp list` prints for the configured servers.
pub fn render_server_list(servers: &KeyedMap<McpServerConfig>) -> (lines: Vec<String>)
    ensures
        lines.deep_view() == server_list_lines(servers@),
{
    if servers.len() == 0 {
        let mut lines: Vec<String> = Vec::new();
        lines.push("No MCP servers configured yet. Try `codex mcp add my-tool -- my-command`.".to_owned());
        assert(lines.deep_view() =~= server_list_lines(servers@));
        return lines;
    }
    let order = servers.sorted_order();
    let ghost sv = servers@;
    let mut rows: Vec<Vec<String>> = Vec::new();
    let mut i: usize = 0;
    while i < order.len()
        invariant
            sv == servers@,
            order@ == crate::keyed_map::sorted_order_of(sv),
            crate::keyed_map::is_sorted_order(sv, order@),
            i <= order.len(),
            rows@.len() == i,
            forall|k: int| 0 <= k < rows@.len() ==> (#[trigger] rows@[k])@.len() == 4,
            rows.deep_view() == server_rows(sv).take(i as int),
        decreases order.len() - i,
    {
        let (name, cfg) = servers.entry(order[i]);
        let mut row: Vec<String> = Vec::new();
        row.push(name.clone());
        row.push(cfg.command.clone());
        row.push(format_args(&cfg.args));
        row.push(format_env(&cfg.env));
        let ghost before = rows.deep_view();
        assert(row.deep_view() =~= server_row(sv[order@[i as int] as int].0, sv[order@[i as int] as int].1));
        rows.push(row);
        assert(rows.deep_view() =~= before.push(server_rows(sv)[i as int]));
        assert(rows.deep_view() =~= server_rows(sv).take(i + 1));
        i = i + 1;
    }
    assert(server_rows(sv).take(i as int) =~= server_rows(sv));
    let ghost rv = rows.deep_view();
    let w = column_widths(&rows);
    let mut lines: Vec<String> = Vec::new();
    let mut header: Vec<String> = Vec::new();
    header.push("Name".to_owned());
    header.push("Command".to_owned());
    header.push("Args".to_owned());
    header.push("Env".to_owned());
    assert(header.deep_view() =~= table_header());
    lines.push(format_table_line(&header, &w, Ghost(rv)));
    let mut k: usize = 0;
    while k < rows.len()
        invariant
            rv == rows.deep_view(),
            rv == server_rows(sv),
            w@.len() == 4,
            forall|c: int| 0 <= c < 4 ==> w@[c] as nat == column_width(rv, c),
            forall|j: int| 0 <= j < rows@.len() ==> (#[trigger] rows@[j])@.len() == 4,
            k <= rows.len(),
            lines.deep_view() == seq![table_line(table_header(), rv)] + row_lines(rv.take(k as int), rv),
        decreases rows.len() - k,
    {
        let line = format_table_line(&rows[k], &w, Ghost(rv));
        let ghost before = lines.deep_view();
        lines.push(line);
        assert(rv[k as int] == rows@[k as int].deep_view());
        assert(lines.deep_view() =~= before.push(line@));
        assert(row_lines(rv.take(k + 1), rv) =~= row_lines(rv.take(k as int), rv).push(table_line(rv[k as int], rv)));
        assert(lines.deep_view() =~= seq![table_line(table_header(), rv)] + row_lines(rv.take(k + 1), rv));
        k = k + 1;
    }
    assert(rv.take(k as int) =~= rv);
    lines
}

} // verus!

verus! {

/// What `codex mcp get` prints for server `name`.
pub open spec fn server_detail_lines(name: Seq<char>, cfg: McpServerConfigView) -> Seq<Seq<char>> {
    seq![
        name,
        "  command: "@ + cfg.command,
        "  args: "@ + args_display(cfg.args),
        "  env: "@ + env_display(cfg.env),
    ] + (match cfg.startup_timeout_ms {
        Some(t) => seq!["  startup_timeout_ms: "@ + crate::text::decimal(t as nat)],
        None => Seq::empty(),
    }) + seq!["  remove: codex mcp remove "@ + name]
}

/// The lines that `codex mcp get` prints for one server.
pub fn render_server_details(name: &str, server: &McpServerConfig) -> (lines: Vec<String>)
    ensures
        lines.deep_view() == server_detail_lines(name@, server@),
{
    let mut lines: Vec<String> = Vec::new();
    lines.push(name.to_owned());
    let mut l = "  command: ".to_owned();
    push_str(&mut l, server.command.as_str());
    lines.push(l);
    let mut l = "  args: ".to_owned();
    push_str(&mut l, format_args(&server.args).as_str());
    lines.push(l);
    let mut l = "  env: ".to_owned();
    push_str(&mut l, format_env(&server.env).as_str());
    lines.push(l);
    if let Some(timeout) = server.startup_timeout_ms {
        let mut l = "  startup_timeout_ms: ".to_owned();
        crate::text::push_decimal(&mut l, timeout);
        lines.push(l);
    }
    let mut l = "  remove: codex mcp remove ".to_owned();
    push_str(&mut l, name);
    lines.push(l);
    assert(lines.deep_view() =~= server_detail_lines(name@, server@));
    lines
}

/// The message when no server has the requested name.
pub open spec fn missing_server_message(name: Seq<char>) -> Seq<char> {
    "No MCP server named '"@ + name + "' found."@
}

/// The server configured under `name`, or the message saying there is none.
pub fn find_server<'a>(servers: &'a KeyedMap<McpServerConfig>, name: &str) -> (r: Result<&'a McpServerConfig, String>)
    ensures
        match r {
            Ok(cfg) => crate::keyed_map::lookup(servers@, name@) == Some(cfg@),
            Err(e) => crate::keyed_map::lookup(servers@, name@) is None && e@ == missing_server_message(name@),
        },
{
    match servers.get(name) {
        Some(cfg) => Ok(cfg),
        None => {
            let mut m = "No MCP server named '".to_owned();
            push_str(&mut m, name);
            push_str(&mut m, "' found.");
            Err(m)
        },
    }
}

} // verus!

verus! {

/// The options `codex mcp serve` starts the server with: the parsed
/// overrides, the tool exposure flag and the effective auxiliary-agent limit.
pub fn serve_run_options(config_overrides: &CliConfigOverrides, serve_flags: ServeArgs) -> (r: Result<crate::server::McpServerRunOptions, String>)
    ensures
        match first_malformed(config_overrides.raw_overrides.deep_view()) {
            Some(i) => r is Err && r->Err_0@ == override_error(config_overrides.raw_overrides.deep_view()[i]),
            None => r is Ok && r->Ok_0.opts.overrides@ == pairs_entries(config_overrides.raw_overrides.deep_view())
                && r->Ok_0.opts.expose_all_tools == serve_flags.expose_all_tools
                && r->Ok_0.max_aux_agents == spec_effective_max_aux_agents(
                serve_flags.enable_multiagent,
                serve_flags.max_aux_agents,
            ),
        },
{
    let overrides = parse_plain_overrides(config_overrides)?;
    let max_aux_agents = effective_max_aux_agents(serve_flags.enable_multiagent, serve_flags.max_aux_agents);
    Ok(crate::server::McpServerRunOptions {
        opts: crate::server::McpServerOpts { expose_all_tools: serve_flags.expose_all_tools, overrides },
        max_aux_agents,
    })
}

} // verus!

verus! {

/// A string free of quotes and backslashes as `{:?}` shows it: in double quotes.
pub open spec fn quoted(s: Seq<char>) -> Seq<char> {
    "\""@ + s + "\""@
}

/// A list of such strings as `{:?}` shows it.
pub open spec fn debug_list(items: Seq<Seq<char>>) -> Seq<char> {
    "["@ + join(items.map_values(|s: Seq<char>| quoted(s)), ", "@) + "]"@
}

/// The warning `codex mcp <subcommand>` gives for the serve flags it ignores,
/// if any were set.
pub open spec fn ignored_flags_warning(args: ServeArgs, subcommand: Seq<char>) -> Option<Seq<char>> {
    let flags = spec_ignored_serve_flags(args);
    if flags.len() == 0 {
        None
    } else {
        Some("[mcp] warning: "@ + debug_list(flags) + " ignored for `codex mcp "@ + subcommand + "`"@)
    }
}

/// Whether an optional string holds the expected text.
pub open spec fn holds_text(s: Option<String>, expected: Option<Seq<char>>) -> bool {
    match s {
        Some(t) => expected == Some(t@),
        None => expected is None,
    }
}

/// The strings of `items`, each in double quotes, as a bracketed list.
fn debug_list_text(items: &Vec<String>) -> (r: String)
    ensures
        r@ == debug_list(items.deep_view()),
{
    let ghost iv = items.deep_view();
    let mut q: Vec<String> = Vec::new();
    let mut i: usize = 0;
    while i < items.len()
        invariant
            iv == items.deep_view(),
            i <= items.len(),
            q.deep_view() == iv.take(i as int).map_values(|s: Seq<char>| quoted(s)),
        decreases items.len() - i,
    {
        let mut one = String::new();
        push_str(&mut one, "\"");
        push_str(&mut one, items[i].as_str());
        push_str(&mut one, "\"");
        assert(iv[i as int] == items@[i as int]@);
        assert(one@ == quoted(iv[i as int]));
        let ghost before = q.deep_view();
        let ghost one_view = one@;
        q.push(one);
        assert(q.deep_view() =~= before.push(one_view)) by {
            assert(q.deep_view().len() == before.len() + 1);
            assert forall|k: int| 0 <= k < q.deep_view().len() implies q.deep_view()[k] == before.push(
                one_view,
            )[k] by {
                if k < before.len() {
                    assert(q.deep_view()[k] == q@[k]@);
                }
            }
        }
        assert(iv.take(i + 1) =~= iv.take(i as int).push(iv[i as int]));
        assert(q.deep_view() =~= iv.take(i + 1).map_values(|s: Seq<char>| quoted(s)));
        i = i + 1;
    }
    assert(iv.take(i as int) =~= iv);
    let joined = join_strings(&q, ", ");
    let mut r = String::new();
    push_str(&mut r, "[");
    push_str(&mut r, joined.as_str());
    push_str(&mut r, "]");
    r
}

/// The warning for serve flags that `codex mcp <subcommand>` ignores, or
/// `None` when none were set.
pub fn ignored_flags_warning_text(args: &ServeArgs, subcommand: &str) -> (r: Option<String>)
    ensures
        holds_text(r, ignored_flags_warning(*args, subcommand@)),
{
    let flags = ignored_serve_flags(args);
    if flags.len() == 0 {
        return None;
    }
    let mut w = String::new();
    push_str(&mut w, "[mcp] warning: ");
    let list = debug_list_text(&flags);
    push_str(&mut w, list.as_str());
    push_str(&mut w, " ignored for `codex mcp ");
    push_str(&mut w, subcommand);
    push_str(&mut w, "`");
    Some(w)
}

/// `codex mcp` as invoked: configuration overrides and serve flags given
/// before any subcommand, and the subcommand.
#[derive(Debug, Clone)]
pub struct McpCli {
    /// `-c key=value` overrides.
    pub config_overrides: CliConfigOverrides,
    /// Serve flags given before the subcommand.
    pub serve_args: ServeArgs,
    /// The subcommand; `serve` when absent.
    pub cmd: Option<McpSubcommand>,
}

/// What `codex mcp` goes on to do.
#[derive(Debug, Clone)]
pub enum McpAction {
    /// Run the server with these flags; the passthrough arguments are ignored.
    Serve(ServeArgs, Vec<String>),
    /// List the configured servers.
    List(ListArgs),
    /// Show one configured server.
    Get(GetArgs),
    /// Add a server entry.
    Add(AddArgs),
    /// Remove a server entry.
    Remove(RemoveArgs),
}

/// The action `codex mcp` takes and the warning it gives first, if any.
#[derive(Debug, Clone)]
pub struct McpPlan {
    /// What to do.
    pub action: McpAction,
    /// The warning about ignored serve flags.
    pub warning: Option<String>,
}

impl McpCli {
    /// What the invocation asks for: `serve` (also when no subcommand is
    /// given) with the merged serve flags, or another subcommand, which warns
    /// about the serve flags it ignores.
    pub fn plan(self) -> (p: McpPlan)
        ensures
            match self.cmd {
                None => p.action matches McpAction::Serve(f, pt) && f == self.serve_args && pt@.len() == 0
                    && p.warning is None,
                Some(McpSubcommand::Serve(sub)) => p.action matches McpAction::Serve(f, pt) && f
                    == merged_serve_args(self.serve_args, sub.flags) && pt@ == sub.passthrough@
                    && p.warning is None,
                Some(McpSubcommand::List(a)) => p.action == McpAction::List(a) && holds_text(
                    p.warning,
                    ignored_flags_warning(self.serve_args, "list"@),
                ),
                Some(McpSubcommand::Get(a)) => p.action == McpAction::Get(a) && holds_text(
                    p.warning,
                    ignored_flags_warning(self.serve_args, "get"@),
                ),
                Some(McpSubcommand::Add(a)) => p.action == McpAction::Add(a) && holds_text(
                    p.warning,
                    ignored_flags_warning(self.serve_args, "add"@),
                ),
                Some(McpSubcommand::Remove(a)) => p.action == McpAction::Remove(a) && holds_text(
                    p.warning,
                    ignored_flags_warning(self.serve_args, "remove"@),
                ),
            },
    {
        let McpCli { config_overrides: _, serve_args, cmd } = self;
        match cmd {
            None => {
                let (flags, passthrough) = finalize_serve_args(serve_args, None);
                McpPlan { action: McpAction::Serve(flags, passthrough), warning: None }
            },
            Some(McpSubcommand::Serve(sub)) => {
                let (flags, passthrough) = finalize_serve_args(serve_args, Some(sub));
                McpPlan { action: McpAction::Serve(flags, passthrough), warning: None }
            },
            Some(McpSubcommand::List(a)) => {
                let warning = ignored_flags_warning_text(&serve_args, "list");
                McpPlan { action: McpAction::List(a), warning }
            },
            Some(McpSubcommand::Get(a)) => {
                let warning = ignored_flags_warning_text(&serve_args, "get");
                McpPlan { action: McpAction::Get(a), warning }
            },
            Some(McpSubcommand::Add(a)) => {
                let warning = ignored_flags_warning_text(&serve_args, "add");
                McpPlan { action: McpAction::Add(a), warning }
            },
            Some(McpSubcommand::Remove(a)) => {
                let warning = ignored_flags_warning_text(&serve_args, "remove");
                McpPlan { action: McpAction::Remove(a), warning }
            },
        }
    }
}

} // verus!

verus! {

/// The parsed overrides never hold a key twice.
proof fn lemma_pairs_entries_distinct(raws: Seq<Seq<char>>)
    ensures
        keys_distinct(pairs_entries(raws)),
    decreases raws.len(),
{
    if raws.len() > 0 {
        lemma_pairs_entries_distinct(raws.drop_last());
        lemma_assoc_insert(pairs_entries(raws.drop_last()), pair_key(raws.last()), split_value(raws.last())->0);
    }
}

/// A key set by several overrides takes the value of the last one: for a
/// well-formed override that no later override of the same key follows, the
/// parsed entries map its key to its value.
pub proof fn law_last_override_wins(raws: Seq<Seq<char>>, i: int)
    requires
        0 <= i < raws.len(),
        well_formed_pair(raws[i]),
        forall|j: int| i < j < raws.len() ==> pair_key(#[trigger] raws[j]) != pair_key(raws[i]),
    ensures
        crate::keyed_map::lookup(pairs_entries(raws), pair_key(raws[i])) == split_value(raws[i]),
    decreases raws.len(),
{
    let prev = raws.drop_last();
    lemma_pairs_entries_distinct(prev);
    lemma_assoc_insert(pairs_entries(prev), pair_key(raws.last()), split_value(raws.last())->0);
    if i < raws.len() - 1 {
        assert forall|j: int| i < j < prev.len() implies pair_key(#[trigger] prev[j]) != pair_key(prev[i]) by {
            assert(prev[j] == raws[j]);
        }
        law_last_override_wins(prev, i);
        assert(pair_key(raws[raws.len() - 1]) != pair_key(raws[i]));
    }
}

} // verus!

verus! {

/// A boolean as `{}` shows it.
pub open spec fn bool_text(b: bool) -> Seq<char> {
    if b {
        "true"@
    } else {
        "false"@
    }
}

/// An optional count as `{:?}` shows it.
pub open spec fn option_count_text(n: Option<usize>) -> Seq<char> {
    match n {
        Some(k) => "Some("@ + crate::text::decimal(k as nat) + ")"@,
        None => "None"@,
    }
}

/// The line `codex mcp serve` reports its settings with before starting.
pub open spec fn serve_settings_line(expose_all_tools: bool, enable_multiagent: bool, max_aux_agents: Option<usize>) -> Seq<char> {
    "[mcp] expose_all_tools="@ + bool_text(expose_all_tools) + " enable_multiagent="@ + bool_text(
        enable_multiagent,
    ) + " max_aux_agents="@ + option_count_text(max_aux_agents)
}

fn push_bool(s: &mut String, b: bool)
    ensures
        final(s)@ == old(s)@ + bool_text(b),
{
    if b {
        push_str(s, "true");
    } else {
        push_str(s, "false");
    }
}

/// The settings line of `codex mcp serve`: the exposure and multi-agent flags
/// and the effective auxiliary-agent limit.
pub fn serve_settings_text(expose_all_tools: bool, enable_multiagent: bool, max_aux_agents: Option<usize>) -> (r: String)
    ensures
        r@ == serve_settings_line(expose_all_tools, enable_multiagent, max_aux_agents),
{
    let mut r = String::new();
    push_str(&mut r, "[mcp] expose_all_tools=");
    push_bool(&mut r, expose_all_tools);
    push_str(&mut r, " enable_multiagent=");
    push_bool(&mut r, enable_multiagent);
    push_str(&mut r, " max_aux_agents=");
    match max_aux_agents {
        Some(k) => {
            push_str(&mut r, "Some(");
            crate::text::push_decimal(&mut r, k as u64);
            push_str(&mut r, ")");
        },
        None => {
            push_str(&mut r, "None");
        },
    }
    r
}

} // verus!

verus! {

/// Every column of the server table is as wide as its header and as each of
/// its cells, and no wider than the widest of them: the header and every row
/// put each cell at the same offset.
pub proof fn law_columns_fit_header_and_cells(rows: Seq<Seq<Seq<char>>>, c: int)
    requires
        0 <= c < 4,
    ensures
        column_width(rows, c) >= byte_len(table_header()[c]),
        forall|r: int| 0 <= r < rows.len() ==> column_width(rows, c) >= byte_len(#[trigger] rows[r][c]),
        column_width(rows, c) == byte_len(table_header()[c]) || exists|r: int|
            0 <= r < rows.len() && column_width(rows, c) == byte_len(#[trigger] rows[r][c]),
    decreases rows.len(),
{
    if rows.len() > 0 {
        let prev = rows.drop_last();
        law_columns_fit_header_and_cells(prev, c);
        assert forall|r: int| 0 <= r < rows.len() implies column_width(rows, c) >= byte_len(#[trigger] rows[r][c]) by {
            if r < prev.len() {
                assert(rows[r] == prev[r]);
            }
        }
        if column_width(rows, c) != byte_len(table_header()[c]) {
            if column_width(rows, c) == byte_len(rows[rows.len() - 1][c]) {
            } else {
                let r = choose|r: int| 0 <= r < prev.len() && column_width(prev, c) == byte_len(#[trigger] prev[r][c]);
                assert(rows[r] == prev[r]);
            }
        }
    }
}

/// Padding never shortens a cell and brings a shorter one to exactly the
/// width, with spaces.
pub proof fn law_pad_reaches_width(s: Seq<char>, w: nat)
    ensures
        pad(s, w).len() == if s.len() < w { w } else { s.len() },
        pad(s, w).take(s.len() as int) == s,
        forall|i: int| s.len() <= i < pad(s, w).len() ==> #[trigger] pad(s, w)[i] == ' ',
{
    assert(pad(s, w).take(s.len() as int) =~= s);
}

/// A server name is accepted exactly when it is not empty and each of its
/// characters is an ASCII letter of either case, an ASCII digit, `-` or `_`.
pub proof fn law_server_name_characters(name: Seq<char>)
    ensures
        valid_server_name(name) <==> (name.len() > 0 && forall|i: int|
            0 <= i < name.len() ==> {
                let c = #[trigger] name[i];
                (c as int >= 65 && c as int <= 90) || (c as int >= 97 && c as int <= 122) || (c as int >= 48
                    && c as int <= 57) || c as int == 45 || c as int == 95
            }),
        forall|c: char| 'A' <= c <= 'Z' ==> is_name_char(c),
        forall|c: char| 'a' <= c <= 'z' ==> is_name_char(c),
        forall|c: char| '0' <= c <= '9' ==> is_name_char(c),
        is_name_char('-') && is_name_char('_'),
        !is_name_char(' ') && !is_name_char('/') && !is_name_char('.') && !is_name_char(':'),
{
    assert forall|c: char| is_name_char(c) <==> ((c as int >= 65 && c as int <= 90) || (c as int >= 97 && c as int
        <= 122) || (c as int >= 48 && c as int <= 57) || c as int == 45 || c as int == 95) by {
        assert('a' as int == 97 && 'z' as int == 122 && 'A' as int == 65 && 'Z' as int == 90);
        assert('0' as int == 48 && '9' as int == 57 && '-' as int == 45 && '_' as int == 95);
    }
}

} // verus!

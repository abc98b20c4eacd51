//! The `chatgpt.*` proxy tools: their parameters, the commands they run, and
//! the replies built from what those commands print.
use vstd::prelude::*;
use vstd::utf8::{decode_utf8, encode_utf8, is_char_boundary};

use crate::text::{byte_len, push_str};

verus! {

broadcast use vstd::string::group_string_axioms;

/// The largest character boundary of `b` that is at most `i`.
pub open spec fn boundary_at_most(b: Seq<u8>, i: int) -> int
    decreases i,
{
    if i <= 0 || is_char_boundary(b, i) {
        i
    } else {
        boundary_at_most(b, i - 1)
    }
}

/// The marker appended to truncated text.
pub open spec fn truncation_marker() -> Seq<char> {
    "\n... [truncated]\n"@
}

/// `s` unchanged when it holds at most `max` bytes; otherwise its longest
/// prefix of whole characters within `max` bytes, followed by the marker.
pub open spec fn spec_trunc_utf8(s: Seq<char>, max: nat) -> Seq<char> {
    if byte_len(s) <= max {
        s
    } else {
        decode_utf8(encode_utf8(s).subrange(0, boundary_at_most(encode_utf8(s), max as int)))
            + truncation_marker()
    }
}

proof fn lemma_boundary_at_most(b: Seq<u8>, i: int)
    requires
        0 <= i <= b.len(),
        vstd::utf8::valid_utf8(b),
    ensures
        0 <= boundary_at_most(b, i) <= i,
        is_char_boundary(b, boundary_at_most(b, i)),
        forall|j: int| boundary_at_most(b, i) < j <= i ==> !is_char_boundary(b, j),
    decreases i,
{
    vstd::utf8::is_char_boundary_start_end_of_seq(b);
    if i > 0 && !is_char_boundary(b, i) {
        lemma_boundary_at_most(b, i - 1);
    }
}

/// Truncates `s` to at most `max` bytes without splitting a character,
/// marking the cut.
pub fn trunc_utf8(s: String, max: usize) -> (r: String)
    ensures
        r@ == spec_trunc_utf8(s@, max as nat),
{
    let len = s.as_str().len();
    if len <= max {
        return s;
    }
    let ghost b = encode_utf8(s@);
    proof {
        vstd::utf8::encode_utf8_valid_utf8(s@);
    }
    assert(b == encode_utf8(s@));
    let mut i = max;
    while i > 0 && !s.as_str().is_char_boundary(i)
        invariant
            b == encode_utf8(s@),
            i <= max,
            max < len,
            len == b.len() as usize,
            boundary_at_most(b, max as int) == boundary_at_most(b, i as int),
        decreases i,
    {
        i = i - 1;
    }
    assert(boundary_at_most(b, i as int) == i as int);
    proof {
        vstd::utf8::is_char_boundary_start_end_of_seq(b);
    }
    let (head, _) = s.as_str().split_at(i);
    let mut out = head.to_owned();
    proof {
        vstd::utf8::encode_utf8_decode_utf8(head@);
    }
    push_str(&mut out, "\n... [truncated]\n");
    out
}

} // verus!

verus! {

/// Cutting `s` keeps a prefix of it, whole characters only, of at most `max`
/// bytes, and no character boundary lies between the cut and `max`.
pub proof fn law_trunc_keeps_prefix(s: Seq<char>, max: nat)
    requires
        encode_utf8(s).len() <= usize::MAX,
        byte_len(s) > max,
    ensures
        exists|kept: Seq<char>, rest: Seq<char>|
            #![trigger kept + rest]
            spec_trunc_utf8(s, max) == kept + truncation_marker() && s == kept + rest
                && encode_utf8(kept).len() <= max,
        forall|j: int|
            boundary_at_most(encode_utf8(s), max as int) < j <= max ==> !is_char_boundary(encode_utf8(s), j),
{
    let b = encode_utf8(s);
    vstd::utf8::encode_utf8_valid_utf8(s);
    vstd::utf8::encode_utf8_decode_utf8(s);
    lemma_boundary_at_most(b, max as int);
    let i = boundary_at_most(b, max as int);
    vstd::utf8::decode_utf8_split(b, i);
    vstd::utf8::valid_utf8_split(b, i);
    let kept = decode_utf8(b.subrange(0, i));
    let rest = decode_utf8(b.subrange(i, b.len() as int));
    vstd::utf8::decode_utf8_encode_utf8(b.subrange(0, i));
    assert(s == kept + rest);
    assert(encode_utf8(kept).len() == i);
}

/// Text that fits is returned unchanged.
pub proof fn law_trunc_fits_unchanged(s: Seq<char>, max: nat)
    requires
        byte_len(s) <= max,
    ensures
        spec_trunc_utf8(s, max) == s,
{
}

} // verus!

verus! {

/// The reply of a proxy tool: text, and whether it reports an error.
#[derive(Debug, Clone)]
pub struct ToolReply {
    pub text: String,
    pub is_error: bool,
}

/// A successful reply carrying `text`.
pub fn ok(text: String) -> (r: ToolReply)
    ensures
        r.text@ == text@,
        !r.is_error,
{
    ToolReply { text, is_error: false }
}

/// An error reply carrying `text`.
pub fn err(text: String) -> (r: ToolReply)
    ensures
        r.text@ == text@,
        r.is_error,
{
    ToolReply { text, is_error: true }
}

/// Arguments of `chatgpt.astGrep`.
#[derive(Debug, Clone)]
pub struct AstGrepParams {
    pub raw_args: Option<Vec<String>>,
    pub pattern: Option<String>,
    pub paths: Option<Vec<String>>,
    pub json: Option<bool>,
    pub timeout_ms: Option<u64>,
    pub max_output_bytes: Option<usize>,
}

/// Arguments of `chatgpt.applyPatch`.
#[derive(Debug, Clone)]
pub struct ApplyPatchParams {
    pub patch: String,
}

/// Arguments of `chatgpt.exec`.
#[derive(Debug, Clone)]
pub struct ExecParams {
    pub command: String,
    pub cwd: Option<String>,
    pub timeout_ms: Option<u64>,
    pub max_output_bytes: Option<usize>,
}

/// Arguments of `chatgpt.ripgrep`.
#[derive(Debug, Clone)]
pub struct RipgrepParams {
    pub pattern: String,
    pub paths: Vec<String>,
    pub globs_exclude: Vec<String>,
    pub max_results: Option<usize>,
    pub timeout_ms: Option<u64>,
}

/// Arguments of `chatgpt.readFile`.
#[derive(Debug, Clone)]
pub struct ReadFileParams {
    pub path: String,
    pub max_bytes: Option<usize>,
}

/// Arguments of `chatgpt.README`.
#[derive(Debug, Clone, Copy)]
pub struct ReadmeParams {
    pub verbose: Option<bool>,
}

/// A process to run for a tool call.
#[derive(Debug)]
pub struct CommandPlan {
    pub program: String,
    pub args: Vec<String>,
    pub cwd: Option<String>,
    pub timeout_ms: u64,
    /// Cap on the bytes of output kept in the reply.
    pub max_output_bytes: usize,
}

/// Directories ripgrep skips unless told otherwise.
pub open spec fn spec_default_ripgrep_excludes() -> Seq<Seq<char>> {
    seq![".git"@, "node_modules"@, "target"@]
}

/// The default exclusions for `chatgpt.ripgrep`.
pub fn default_ripgrep_excludes() -> (v: Vec<String>)
    ensures
        v.deep_view() == spec_default_ripgrep_excludes(),
{
    let mut v: Vec<String> = Vec::new();
    v.push(".git".to_owned());
    v.push("node_modules".to_owned());
    v.push("target".to_owned());
    assert(v.deep_view() =~= spec_default_ripgrep_excludes());
    v
}

fn clone_strings(v: &Vec<String>) -> (r: Vec<String>)
    ensures
        r.deep_view() == v.deep_view(),
{
    let mut r: Vec<String> = Vec::new();
    let mut i: usize = 0;
    while i < v.len()
        invariant
            i <= v.len(),
            r.deep_view() == v.deep_view().take(i as int),
        decreases v.len() - i,
    {
        let ghost before = r.deep_view();
        r.push(v[i].clone());
        assert(r.deep_view() =~= before.push(v.deep_view()[i as int]));
        assert(r.deep_view() =~= v.deep_view().take(i + 1));
        i = i + 1;
    }
    assert(v.deep_view().take(i as int) =~= v.deep_view());
    r
}

fn push_all(v: &mut Vec<String>, extra: &Vec<String>)
    ensures
        final(v).deep_view() == old(v).deep_view() + extra.deep_view(),
{
    let ghost start = v.deep_view();
    let mut i: usize = 0;
    while i < extra.len()
        invariant
            i <= extra.len(),
            v.deep_view() == start + extra.deep_view().take(i as int),
        decreases extra.len() - i,
    {
        let ghost before = v.deep_view();
        v.push(extra[i].clone());
        assert(v.deep_view() =~= before.push(extra.deep_view()[i as int]));
        assert(v.deep_view() =~= start + extra.deep_view().take(i + 1));
        i = i + 1;
    }
    assert(extra.deep_view().take(i as int) =~= extra.deep_view());
}

/// `bash -lc <command>`, in the given directory, two minutes and 64 KiB of
/// output unless the call says otherwise.
pub fn exec_plan(p: &ExecParams) -> (plan: CommandPlan)
    ensures
        plan.program@ == "bash"@,
        plan.args.deep_view() == seq!["-lc"@, p.command@],
        plan.cwd == p.cwd,
        plan.timeout_ms == p.timeout_ms.unwrap_or(120000),
        plan.max_output_bytes == p.max_output_bytes.unwrap_or(65536),
{
    let mut args: Vec<String> = Vec::new();
    args.push("-lc".to_owned());
    args.push(p.command.clone());
    assert(args.deep_view() =~= seq!["-lc"@, p.command@]);
    CommandPlan {
        program: "bash".to_owned(),
        args,
        cwd: p.cwd.clone(),
        timeout_ms: match p.timeout_ms {
            Some(t) => t,
            None => 120000,
        },
        max_output_bytes: match p.max_output_bytes {
            Some(m) => m,
            None => 64 * 1024,
        },
    }
}

/// The arguments given to `ast-grep`: the raw ones when supplied; otherwise
/// `--json` (unless JSON is turned off), `-p <pattern>` when a pattern is
/// given, then the paths, or `.`.
pub open spec fn astgrep_args(p: AstGrepParams) -> Seq<Seq<char>> {
    match p.raw_args {
        Some(raw) => raw.deep_view(),
        None => (if p.json.unwrap_or(true) {
            seq!["--json"@]
        } else {
            Seq::empty()
        }) + (match p.pattern {
            Some(pt) => seq!["-p"@, pt@],
            None => Seq::empty(),
        }) + (match p.paths {
            Some(paths) => paths.deep_view(),
            None => seq!["."@],
        }),
    }
}

/// How `chatgpt.astGrep` runs: a minute and 120000 bytes unless told otherwise.
pub fn astgrep_plan(p: &AstGrepParams) -> (plan: CommandPlan)
    ensures
        plan.program@ == "ast-grep"@,
        plan.args.deep_view() == astgrep_args(*p),
        plan.cwd is None,
        plan.timeout_ms == p.timeout_ms.unwrap_or(60000),
        plan.max_output_bytes == p.max_output_bytes.unwrap_or(120000),
{
    let args = match &p.raw_args {
        Some(raw) => clone_strings(raw),
        None => {
            let mut args: Vec<String> = Vec::new();
            let json = match p.json {
                Some(j) => j,
                None => true,
            };
            if json {
                args.push("--json".to_owned());
            }
            let ghost a1 = args.deep_view();
            if let Some(pt) = &p.pattern {
                args.push("-p".to_owned());
                args.push(pt.clone());
            }
            let ghost a2 = args.deep_view();
            assert(a2 =~= a1 + match p.pattern {
                Some(pt) => seq!["-p"@, pt@],
                None => Seq::<Seq<char>>::empty(),
            });
            match &p.paths {
                Some(paths) => push_all(&mut args, paths),
                None => {
                    args.push(".".to_owned());
                    assert(args.deep_view() =~= a2 + seq!["."@]);
                },
            }
            assert(args.deep_view() =~= astgrep_args(*p));
            args
        },
    };
    CommandPlan {
        program: "ast-grep".to_owned(),
        args,
        cwd: None,
        timeout_ms: match p.timeout_ms {
            Some(t) => t,
            None => 60000,
        },
        max_output_bytes: match p.max_output_bytes {
            Some(m) => m,
            None => 120000,
        },
    }
}

/// The flag that introduces one exclusion.
pub open spec fn glob_flag() -> Seq<char> {
    "--glob"@
}

/// `--glob !<g>` for each exclusion.
pub open spec fn glob_args(globs: Seq<Seq<char>>) -> Seq<Seq<char>>
    decreases globs.len(),
{
    if globs.len() == 0 {
        Seq::empty()
    } else {
        glob_args(globs.drop_last()) + seq![glob_flag(), "!"@ + globs.last()]
    }
}

/// The arguments given to `rg`: line numbers, JSON, no heading or colour, the
/// exclusions, `--` and the pattern, then the paths, or `.`.
pub open spec fn ripgrep_args(p: RipgrepParams) -> Seq<Seq<char>> {
    seq!["-n"@, "--json"@, "--no-heading"@, "--color"@, "never"@] + glob_args(p.globs_exclude.deep_view())
        + seq!["--"@, p.pattern@] + if p.paths@.len() == 0 {
        seq!["."@]
    } else {
        p.paths.deep_view()
    }
}

/// How `chatgpt.ripgrep` runs: a minute unless told otherwise, the reply
/// capped at 120000 bytes.
pub fn ripgrep_plan(p: &RipgrepParams) -> (plan: CommandPlan)
    ensures
        plan.program@ == "rg"@,
        plan.args.deep_view() == ripgrep_args(*p),
        plan.cwd is None,
        plan.timeout_ms == p.timeout_ms.unwrap_or(60000),
        plan.max_output_bytes == 120000,
{
    let mut args: Vec<String> = Vec::new();
    args.push("-n".to_owned());
    args.push("--json".to_owned());
    args.push("--no-heading".to_owned());
    args.push("--color".to_owned());
    args.push("never".to_owned());
    let ghost base = args.deep_view();
    assert(base =~= seq!["-n"@, "--json"@, "--no-heading"@, "--color"@, "never"@]);
    let ghost gv = p.globs_exclude.deep_view();
    let mut i: usize = 0;
    assert(gv.take(0) =~= Seq::<Seq<char>>::empty());
    while i < p.globs_exclude.len()
        invariant
            gv == p.globs_exclude.deep_view(),
            i <= p.globs_exclude.len(),
            args.deep_view() == base + glob_args(gv.take(i as int)),
        decreases p.globs_exclude.len() - i,
    {
        let ghost before = args.deep_view();
        args.push("--glob".to_owned());
        let mut g = "!".to_owned();
        push_str(&mut g, p.globs_exclude[i].as_str());
        args.push(g);
        assert(gv.take(i + 1).drop_last() =~= gv.take(i as int));
        assert(gv.take(i + 1).last() == gv[i as int]);
        assert(gv[i as int] == p.globs_exclude@[i as int]@);
        assert(args.deep_view() =~= before.push("--glob"@).push("!"@ + gv[i as int]));
        assert(args.deep_view() =~= base + glob_args(gv.take(i + 1)));
        i = i + 1;
    }
    assert(gv.take(i as int) =~= gv);
    let ghost before = args.deep_view();
    args.push("--".to_owned());
    args.push(p.pattern.clone());
    if p.paths.len() == 0 {
        args.push(".".to_owned());
    } else {
        push_all(&mut args, &p.paths);
    }
    assert(args.deep_view() =~= ripgrep_args(*p));
    CommandPlan {
        program: "rg".to_owned(),
        args,
        cwd: None,
        timeout_ms: match p.timeout_ms {
            Some(t) => t,
            None => 60000,
        },
        max_output_bytes: 120000,
    }
}

/// Matching lines `chatgpt.ripgrep` keeps unless told otherwise.
pub fn ripgrep_max_results(p: &RipgrepParams) -> (n: usize)
    ensures
        n == p.max_results.unwrap_or(500),
{
    match p.max_results {
        Some(n) => n,
        None => 500,
    }
}

} // verus!

verus! {

/// What `String::from_utf8_lossy` makes of `bytes`.
pub uninterp spec fn utf8_lossy(bytes: Seq<u8>) -> Seq<char>;

/// Decodes `bytes` as UTF-8, invalid sequences replaced (std
/// `String::from_utf8_lossy`). The result is named by `utf8_lossy`; of it the
/// contract states only that valid UTF-8 decodes exactly.
#[verifier::external_body]
fn from_utf8_lossy(bytes: &[u8]) -> (s: String)
    ensures
        s@ == utf8_lossy(bytes@),
        vstd::utf8::valid_utf8(bytes@) ==> s@ == decode_utf8(bytes@),
{
    String::from_utf8_lossy(bytes).into_owned()
}

/// A process's standard output followed, when it wrote any, by a
/// `[stderr]` section with its standard error.
pub open spec fn combined_output(stdout: Seq<u8>, stderr: Seq<u8>) -> Seq<char> {
    (if stdout.len() > 0 {
        utf8_lossy(stdout)
    } else {
        Seq::empty()
    }) + (if stderr.len() > 0 {
        "\n[stderr]\n"@ + utf8_lossy(stderr)
    } else {
        Seq::empty()
    })
}

/// The text of a process's output and errors, as shown to the client.
pub fn combine_output(stdout: &[u8], stderr: &[u8]) -> (s: String)
    ensures
        s@ == combined_output(stdout@, stderr@),
{
    let mut buf = String::new();
    if stdout.len() > 0 {
        push_str(&mut buf, from_utf8_lossy(stdout).as_str());
    }
    if stderr.len() > 0 {
        push_str(&mut buf, "\n[stderr]\n");
        push_str(&mut buf, from_utf8_lossy(stderr).as_str());
    }
    assert(buf@ =~= combined_output(stdout@, stderr@));
    buf
}

/// The reply of `chatgpt.exec`: the output (cut to `max_bytes`) on exit code
/// zero; otherwise an error starting with the exit code (`-1` when the process
/// had none).
pub fn exec_reply(stdout: &[u8], stderr: &[u8], exit_code: Option<i32>, max_bytes: usize) -> (r: ToolReply)
    ensures
        ({
            let body = spec_trunc_utf8(combined_output(stdout@, stderr@), max_bytes as nat);
            let code: i32 = exit_code.unwrap_or(-1i32);
            if code == 0 {
                !r.is_error && r.text@ == body
            } else {
                r.is_error && r.text@ == "exit "@ + crate::text::signed_decimal(code as int) + "\n"@ + body
            }
        }),
{
    let code = match exit_code {
        Some(c) => c,
        None => -1,
    };
    let body = trunc_utf8(combine_output(stdout, stderr), max_bytes);
    if code == 0 {
        ok(body)
    } else {
        let mut m = "exit ".to_owned();
        crate::text::push_signed_decimal(&mut m, code as i64);
        push_str(&mut m, "\n");
        push_str(&mut m, body.as_str());
        err(m)
    }
}

/// The reply of `chatgpt.astGrep`: the output cut to `max_bytes`, an error
/// when the process failed.
pub fn astgrep_reply(stdout: &[u8], stderr: &[u8], success: bool, max_bytes: usize) -> (r: ToolReply)
    ensures
        r.text@ == spec_trunc_utf8(combined_output(stdout@, stderr@), max_bytes as nat),
        r.is_error == !success,
{
    let s = trunc_utf8(combine_output(stdout, stderr), max_bytes);
    if success {
        ok(s)
    } else {
        err(s)
    }
}

/// The reply of `chatgpt.readFile`: the file as text, cut to `max_bytes`
/// (120000 by default).
pub fn readfile_reply(bytes: &[u8], max_bytes: Option<usize>) -> (r: ToolReply)
    ensures
        !r.is_error,
        r.text@ == spec_trunc_utf8(utf8_lossy(bytes@), max_bytes.unwrap_or(120000) as nat),
{
    let max = match max_bytes {
        Some(m) => m,
        None => 120000,
    };
    ok(trunc_utf8(from_utf8_lossy(bytes), max))
}

/// The lines of `s` as `str::lines` yields them: split after each `\n`, the
/// `\n` (and a `\r` just before it) dropped, no empty line after a final `\n`.
pub open spec fn text_lines(s: Seq<char>) -> Seq<Seq<char>>
    decreases s.len(),
{
    if s.len() == 0 {
        Seq::empty()
    } else {
        match crate::text::first_index(s, '\n') {
            None => seq![s],
            Some(i) => {
                proof {
                    crate::text::lemma_first_index(s, '\n');
                }
                let line = s.take(i);
                let line = if line.len() > 0 && line.last() == '\r' {
                    line.drop_last()
                } else {
                    line
                };
                seq![line] + text_lines(s.skip(i + 1))
            },
        }
    }
}

/// The first `n` elements of `s`, or all of them when there are fewer.
pub open spec fn take_at_most<A>(s: Seq<A>, n: nat) -> Seq<A> {
    if n < s.len() {
        s.take(n as int)
    } else {
        s
    }
}

/// The first `max` lines of `text`, joined by `\n`.
pub fn first_lines(text: &str, max: usize) -> (r: String)
    ensures
        r@ == crate::cli::join(take_at_most(text_lines(text@), max as nat), "\n"@),
{
    let v = crate::text::chars_of(text);
    let ghost all = text_lines(v@);
    let mut out: Vec<String> = Vec::new();
    let mut p: usize = 0;
    assert(v@.skip(0) =~= v@);
    assert(out.deep_view() + text_lines(v@.skip(0)) =~= all);
    while p < v.len() && out.len() < max
        invariant
            v@ == text@,
            all == text_lines(v@),
            p <= v.len(),
            out.len() <= max,
            out.deep_view() + text_lines(v@.skip(p as int)) == all,
        decreases v.len() - p,
    {
        let ghost rest = v@.skip(p as int);
        let mut q = p;
        while q < v.len() && v[q] != '\n'
            invariant
                p <= q <= v.len(),
                rest == v@.skip(p as int),
                forall|k: int| p <= k < q ==> v@[k] != '\n',
            decreases v.len() - q,
        {
            q = q + 1;
        }
        proof {
            crate::text::lemma_first_index(rest, '\n');
            assert forall|k: int| 0 <= k < q - p implies rest[k] != '\n' by {
                assert(rest[k] == v@[p + k]);
            }
        }
        let ghost before = out.deep_view();
        if q < v.len() {
            proof {
                assert(rest[q - p] == '\n');
                match crate::text::first_index(rest, '\n') {
                    Some(j) => {
                        assert(j == q - p);
                    },
                    None => {},
                }
            }
            let end = if q > p && v[q - 1] == '\r' {
                q - 1
            } else {
                q
            };
            let line = crate::text::string_of_range(&v, p, end);
            proof {
                let t = rest.take(q - p);
                assert(v@.subrange(p as int, q as int) =~= t);
                if q > p && v@[q - 1] == '\r' {
                    assert(v@.subrange(p as int, end as int) =~= t.drop_last());
                }
                assert(rest.skip(q - p + 1) =~= v@.skip(q + 1));
                assert(text_lines(rest) == seq![line@] + text_lines(v@.skip(q + 1)));
            }
            out.push(line);
            assert(out.deep_view() =~= before.push(line@));
            p = q + 1;
        } else {
            proof {
                assert(crate::text::first_index(rest, '\n') is None);
                assert(rest.len() > 0);
            }
            let line = crate::text::string_of_range(&v, p, q);
            proof {
                assert(v@.subrange(p as int, q as int) =~= rest);
                assert(v@.skip(q as int) =~= Seq::<char>::empty());
                assert(text_lines(v@.skip(q as int)) =~= Seq::<Seq<char>>::empty());
            }
            out.push(line);
            assert(out.deep_view() =~= before.push(line@));
            p = q;
        }
        assert(out.deep_view() + text_lines(v@.skip(p as int)) =~= all);
    }
    proof {
        if p >= v.len() {
            assert(v@.skip(p as int) =~= Seq::<char>::empty());
            assert(out.deep_view() =~= all);
        }
        assert(out.deep_view() =~= take_at_most(all, max as nat));
    }
    crate::cli::join_strings(&out, "\n")
}

/// The reply of `chatgpt.ripgrep`: on failure the error output; otherwise the
/// first `max_results` lines of the output, cut to 120000 bytes.
pub fn ripgrep_reply(success: bool, stdout: &[u8], stderr: &[u8], max_results: usize) -> (r: ToolReply)
    ensures
        !success ==> r.is_error && r.text@ == utf8_lossy(stderr@),
        success ==> !r.is_error && r.text@ == spec_trunc_utf8(
            crate::cli::join(take_at_most(text_lines(utf8_lossy(stdout@)), max_results as nat), "\n"@),
            120000,
        ),
{
    if !success {
        return err(from_utf8_lossy(stderr));
    }
    let s = from_utf8_lossy(stdout);
    let collected = first_lines(s.as_str(), max_results);
    ok(trunc_utf8(collected, 120000))
}

} // verus!

verus! {

/// The refusal of an empty patch, if `patch` is blank.
pub fn applypatch_precheck(patch: &str) -> (r: Option<ToolReply>)
    ensures
        crate::text::trim(patch@).len() == 0 ==> r is Some && r->0.is_error && r->0.text@
            == "chatgpt.applyPatch requires a non-empty patch"@,
        crate::text::trim(patch@).len() > 0 ==> r is None,
{
    if crate::text::is_blank(patch) {
        Some(err("chatgpt.applyPatch requires a non-empty patch".to_owned()))
    } else {
        None
    }
}

/// The text of an applied patch: what the patcher printed (standard output,
/// then standard error, each trimmed and skipped when empty), or a plain
/// confirmation when it printed nothing.
pub open spec fn applied_text(out: Seq<char>, errs: Seq<char>) -> Seq<char> {
    if out.len() == 0 && errs.len() == 0 {
        "Patch applied."@
    } else if out.len() == 0 {
        errs
    } else if errs.len() == 0 {
        out
    } else {
        out + "\n"@ + errs
    }
}

/// The reply of `chatgpt.applyPatch` once the patcher ran: on success what it
/// printed; on failure its error, followed by its trimmed error output if any.
pub fn applypatch_reply(outcome: Result<(), String>, stdout: &[u8], stderr: &[u8]) -> (r: ToolReply)
    ensures
        ({
            let out = crate::text::trim(utf8_lossy(stdout@));
            let errs = crate::text::trim(utf8_lossy(stderr@));
            match outcome {
                Ok(()) => !r.is_error && r.text@ == applied_text(out, errs),
                Err(e) => r.is_error && r.text@ == "failed to apply patch: "@ + e@ + if errs.len() > 0 {
                    "\n"@ + errs
                } else {
                    Seq::empty()
                },
            }
        }),
{
    let stdout_text = crate::text::trimmed(from_utf8_lossy(stdout).as_str());
    let stderr_text = crate::text::trimmed(from_utf8_lossy(stderr).as_str());
    let out_empty = crate::text::chars_of(stdout_text.as_str()).len() == 0;
    let err_empty = crate::text::chars_of(stderr_text.as_str()).len() == 0;
    match outcome {
        Ok(()) => {
            if out_empty && err_empty {
                ok("Patch applied.".to_owned())
            } else if out_empty {
                ok(stderr_text)
            } else if err_empty {
                ok(stdout_text)
            } else {
                let mut m = stdout_text;
                push_str(&mut m, "\n");
                push_str(&mut m, stderr_text.as_str());
                ok(m)
            }
        },
        Err(e) => {
            let mut m = "failed to apply patch: ".to_owned();
            push_str(&mut m, e.as_str());
            if !err_empty {
                push_str(&mut m, "\n");
                push_str(&mut m, stderr_text.as_str());
            }
            assert(m@ =~= "failed to apply patch: "@ + e@ + if !err_empty {
                "\n"@ + stderr_text@
            } else {
                Seq::empty()
            });
            err(m)
        },
    }
}

/// The proxy tools, by the name a call gives.
#[derive(Debug, Clone, Copy, PartialEq, Eq)]
pub enum ProxyTool {
    Exec,
    Ripgrep,
    ReadFile,
    ApplyPatch,
    AstGrep,
    Readme,
    ToolHelp,
}

/// The proxy tool called `name`, if any.
pub open spec fn spec_route_proxy_tool(name: Seq<char>) -> Option<ProxyTool> {
    if name == "chatgpt.exec"@ {
        Some(ProxyTool::Exec)
    } else if name == "chatgpt.ripgrep"@ {
        Some(ProxyTool::Ripgrep)
    } else if name == "chatgpt.readFile"@ {
        Some(ProxyTool::ReadFile)
    } else if name == "chatgpt.applyPatch"@ {
        Some(ProxyTool::ApplyPatch)
    } else if name == "chatgpt.astGrep"@ {
        Some(ProxyTool::AstGrep)
    } else if name == "chatgpt.README"@ {
        Some(ProxyTool::Readme)
    } else if name == "chatgpt.toolHelp"@ {
        Some(ProxyTool::ToolHelp)
    } else {
        None
    }
}

/// Which proxy tool a call names.
pub fn route_proxy_tool(name: &str) -> (r: Option<ProxyTool>)
    ensures
        r == spec_route_proxy_tool(name@),
{
    if crate::text::str_eq(name, "chatgpt.exec") {
        Some(ProxyTool::Exec)
    } else if crate::text::str_eq(name, "chatgpt.ripgrep") {
        Some(ProxyTool::Ripgrep)
    } else if crate::text::str_eq(name, "chatgpt.readFile") {
        Some(ProxyTool::ReadFile)
    } else if crate::text::str_eq(name, "chatgpt.applyPatch") {
        Some(ProxyTool::ApplyPatch)
    } else if crate::text::str_eq(name, "chatgpt.astGrep") {
        Some(ProxyTool::AstGrep)
    } else if crate::text::str_eq(name, "chatgpt.README") {
        Some(ProxyTool::Readme)
    } else if crate::text::str_eq(name, "chatgpt.toolHelp") {
        Some(ProxyTool::ToolHelp)
    } else {
        None
    }
}

/// The reply to a call of a tool the proxy does not have.
pub fn unknown_tool_reply(name: &str) -> (r: ToolReply)
    ensures
        r.is_error,
        r.text@ == "Unknown tool: "@ + name@,
{
    let mut m = "Unknown tool: ".to_owned();
    push_str(&mut m, name);
    err(m)
}

/// The reply to a call whose arguments are missing or do not parse.
pub fn bad_args_reply() -> (r: ToolReply)
    ensures
        r.is_error,
        r.text@ == "bad or missing args"@,
{
    err("bad or missing args".to_owned())
}

/// The reply of the deprecated `chatgpt.toolHelp`.
pub fn toolhelp_reply() -> (r: ToolReply)
    ensures
        !r.is_error,
        r.text@ == "Use chatgpt.README for detailed how-to of all chatgpt.* tools."@,
{
    ok("Use chatgpt.README for detailed how-to of all chatgpt.* tools.".to_owned())
}

/// Name, title and description of a proxy tool.
#[derive(Debug, Clone)]
pub struct ToolHeading {
    pub name: String,
    pub title: String,
    pub description: String,
}

/// The proxy tools in the order they are listed, README first.
pub open spec fn spec_proxy_headings() -> Seq<(Seq<char>, Seq<char>, Seq<char>)> {
    seq![
        ("chatgpt.README"@, "Usage guide for chatgpt.* tools"@, "How-to and examples for exec, ripgrep, readFile, astGrep, applyPatch."@),
        ("chatgpt.toolHelp"@, "Tool help (use chatgpt.README)"@, "Deprecated. Call chatgpt.README for full documentation and examples."@),
        ("chatgpt.exec"@, "Execute shell command"@, "Run a shell command via bash -lc with optional cwd/timeout"@),
        ("chatgpt.ripgrep"@, "Search with ripgrep"@, "Run rg -n --json with excludes; returns JSON lines (truncated)"@),
        ("chatgpt.readFile"@, "Read file"@, "Read a file with optional byte cap (UTF-8 safe)"@),
        ("chatgpt.astGrep"@, "AST grep"@, "Run ast-grep. Provide rawArgs or pattern/paths/json."@),
        ("chatgpt.applyPatch"@, "Apply patch"@, "Apply a unified diff patch to the workspace."@),
    ]
}

fn heading(name: &str, title: &str, description: &str) -> (h: ToolHeading)
    ensures
        h.name@ == name@,
        h.title@ == title@,
        h.description@ == description@,
{
    ToolHeading { name: name.to_owned(), title: title.to_owned(), description: description.to_owned() }
}

/// Names, titles and descriptions of the proxy tools, in listing order.
pub fn proxy_tool_headings() -> (v: Vec<ToolHeading>)
    ensures
        v@.map_values(|h: ToolHeading| (h.name@, h.title@, h.description@)) == spec_proxy_headings(),
{
    let mut v: Vec<ToolHeading> = Vec::new();
    v.push(heading("chatgpt.README", "Usage guide for chatgpt.* tools", "How-to and examples for exec, ripgrep, readFile, astGrep, applyPatch."));
    v.push(heading("chatgpt.toolHelp", "Tool help (use chatgpt.README)", "Deprecated. Call chatgpt.README for full documentation and examples."));
    v.push(heading("chatgpt.exec", "Execute shell command", "Run a shell command via bash -lc with optional cwd/timeout"));
    v.push(heading("chatgpt.ripgrep", "Search with ripgrep", "Run rg -n --json with excludes; returns JSON lines (truncated)"));
    v.push(heading("chatgpt.readFile", "Read file", "Read a file with optional byte cap (UTF-8 safe)"));
    v.push(heading("chatgpt.astGrep", "AST grep", "Run ast-grep. Provide rawArgs or pattern/paths/json."));
    v.push(heading("chatgpt.applyPatch", "Apply patch", "Apply a unified diff patch to the workspace."));
    assert(v@.map_values(|h: ToolHeading| (h.name@, h.title@, h.description@)) =~= spec_proxy_headings());
    v
}

} // verus!

verus! {

/// How std shows `Duration::from_millis(ms)` with `{:?}`.
pub uninterp spec fn duration_debug(ms: u64) -> Seq<char>;

/// `{:?}` of `std::time::Duration::from_millis(ms)`, such as `120s`, `1.5s`
/// or `5ms`; the text is std's, named and not restated.
#[verifier::external_body]
fn duration_text(ms: u64) -> (r: String)
    ensures
        r@ == duration_debug(ms),
{
    format!("{:?}", std::time::Duration::from_millis(ms))
}

/// Why a proxy tool's process gave no output to reply with.
#[derive(Debug, Clone)]
pub enum ProxyFailure {
    /// `chatgpt.exec` ran past its timeout of this many milliseconds.
    ExecTimeout(u64),
    /// `chatgpt.exec` could not start its process.
    ExecSpawn(String),
    /// `chatgpt.astGrep` ran past its timeout.
    AstGrepTimeout,
    /// `chatgpt.astGrep` could not start its process.
    AstGrepSpawn(String),
    /// `chatgpt.ripgrep` ran past its timeout of this many milliseconds.
    RipgrepTimeout(u64),
    /// `chatgpt.ripgrep` could not start its process.
    RipgrepSpawn(String),
    /// `chatgpt.readFile` could not read the file.
    ReadError(String),
    /// The task applying a patch did not complete.
    PatchTaskJoin(String),
}

/// The error text a proxy failure is answered with.
pub open spec fn proxy_failure_message(f: ProxyFailure) -> Seq<char> {
    match f {
        ProxyFailure::ExecTimeout(ms) => "timeout after "@ + duration_debug(ms),
        ProxyFailure::ExecSpawn(e) => "spawn error: "@ + e@,
        ProxyFailure::AstGrepTimeout => "ast-grep timeout"@,
        ProxyFailure::AstGrepSpawn(e) => "ast-grep spawn error: "@ + e@,
        ProxyFailure::RipgrepTimeout(ms) => "ripgrep timeout after "@ + duration_debug(ms),
        ProxyFailure::RipgrepSpawn(e) => "ripgrep spawn error: "@ + e@,
        ProxyFailure::ReadError(e) => "read error: "@ + e@,
        ProxyFailure::PatchTaskJoin(e) => "failed to apply patch (task join error): "@ + e@,
    }
}

impl ProxyFailure {
    /// The error reply for this failure.
    pub fn reply(&self) -> (r: ToolReply)
        ensures
            r.is_error,
            r.text@ == proxy_failure_message(*self),
    {
        let mut m = String::new();
        match self {
            ProxyFailure::ExecTimeout(ms) => {
                push_str(&mut m, "timeout after ");
                let d = duration_text(*ms);
                push_str(&mut m, d.as_str());
            },
            ProxyFailure::ExecSpawn(e) => {
                push_str(&mut m, "spawn error: ");
                push_str(&mut m, e.as_str());
            },
            ProxyFailure::AstGrepTimeout => {
                push_str(&mut m, "ast-grep timeout");
            },
            ProxyFailure::AstGrepSpawn(e) => {
                push_str(&mut m, "ast-grep spawn error: ");
                push_str(&mut m, e.as_str());
            },
            ProxyFailure::RipgrepTimeout(ms) => {
                push_str(&mut m, "ripgrep timeout after ");
                let d = duration_text(*ms);
                push_str(&mut m, d.as_str());
            },
            ProxyFailure::RipgrepSpawn(e) => {
                push_str(&mut m, "ripgrep spawn error: ");
                push_str(&mut m, e.as_str());
            },
            ProxyFailure::ReadError(e) => {
                push_str(&mut m, "read error: ");
                push_str(&mut m, e.as_str());
            },
            ProxyFailure::PatchTaskJoin(e) => {
                push_str(&mut m, "failed to apply patch (task join error): ");
                push_str(&mut m, e.as_str());
            },
        }
        err(m)
    }
}

} // verus!

verus! {

proof fn lemma_glob_args_shape(globs: Seq<Seq<char>>)
    ensures
        glob_args(globs).len() == 2 * globs.len(),
        forall|k: int|
            0 <= k < globs.len() ==> glob_args(globs).subrange(2 * k, 2 * k + 2) == seq![
                glob_flag(),
                "!"@ + #[trigger] globs[k],
            ],
    decreases globs.len(),
{
    if globs.len() > 0 {
        let prev = globs.drop_last();
        lemma_glob_args_shape(prev);
        let ga = glob_args(globs);
        let gp = glob_args(prev);
        let t = seq![glob_flag(), "!"@ + globs.last()];
        assert(ga == gp + t);
        assert forall|k: int| 0 <= k < globs.len() implies ga.subrange(2 * k, 2 * k + 2) == seq![
            glob_flag(),
            "!"@ + #[trigger] globs[k],
        ] by {
            if k < prev.len() {
                assert(globs[k] == prev[k]);
                assert(gp.subrange(2 * k, 2 * k + 2) == seq![glob_flag(), "!"@ + prev[k]]);
                assert(ga.subrange(2 * k, 2 * k + 2) =~= gp.subrange(2 * k, 2 * k + 2));
            } else {
                assert(ga.subrange(2 * k, 2 * k + 2) =~= t);
            }
        }
    }
}

/// `rg` is always run with line numbers, JSON output, no heading and no
/// colour; then each exclusion as `--glob !<g>`, in order; then `--` and the
/// pattern; then exactly the given paths, or `.` when none is given.
pub proof fn law_ripgrep_arguments(p: RipgrepParams)
    ensures
        ({
            let a = ripgrep_args(p);
            let g = p.globs_exclude.deep_view();
            let paths = p.paths.deep_view();
            let tail = if paths.len() == 0 { seq!["."@] } else { paths };
            &&& a.len() == 7 + 2 * g.len() + tail.len()
            &&& a.take(5) == seq!["-n"@, "--json"@, "--no-heading"@, "--color"@, "never"@]
            &&& forall|k: int|
                0 <= k < g.len() ==> a.subrange(5 + 2 * k, 7 + 2 * k) == seq![glob_flag(), "!"@ + #[trigger] g[k]]
            &&& a[5 + 2 * g.len() as int] == "--"@
            &&& a[6 + 2 * g.len() as int] == p.pattern@
            &&& a.skip(7 + 2 * g.len() as int) == tail
            &&& (paths.len() > 0 ==> a.skip(a.len() - paths.len()) == paths)
            &&& (paths.len() == 0 ==> a.last() == "."@)
        }),
{
    let a = ripgrep_args(p);
    let g = p.globs_exclude.deep_view();
    let paths = p.paths.deep_view();
    let tail = if paths.len() == 0 { seq!["."@] } else { paths };
    lemma_glob_args_shape(g);
    assert(p.paths@.len() == paths.len());
    let head = seq!["-n"@, "--json"@, "--no-heading"@, "--color"@, "never"@];
    assert(a == head + glob_args(g) + seq!["--"@, p.pattern@] + tail);
    assert(a.take(5) =~= head);
    let ga = glob_args(g);
    let hg = head + ga;
    let hgp = hg + seq!["--"@, p.pattern@];
    assert(a == hgp + tail);
    assert(hg.len() == 5 + 2 * g.len());
    assert forall|k: int| 0 <= k < g.len() implies a.subrange(5 + 2 * k, 7 + 2 * k) == seq![
        glob_flag(),
        "!"@ + #[trigger] g[k],
    ] by {
        assert(ga.subrange(2 * k, 2 * k + 2) == seq![glob_flag(), "!"@ + g[k]]);
        assert(a.subrange(5 + 2 * k, 7 + 2 * k) =~= ga.subrange(2 * k, 2 * k + 2));
    }
    assert(a[5 + 2 * g.len() as int] == hgp[5 + 2 * g.len() as int]);
    assert(a[6 + 2 * g.len() as int] == hgp[6 + 2 * g.len() as int]);
    if paths.len() == 0 {
        assert(a.last() == tail[0]);
    }
    assert(a.skip(7 + 2 * g.len() as int) =~= tail);
    if paths.len() > 0 {
        assert(a.skip(a.len() - paths.len()) =~= paths);
    }
}

/// `ast-grep` runs with exactly the raw arguments when they are given;
/// otherwise `--json` first unless JSON is turned off, `-p <pattern>` when a
/// pattern is given, and then exactly the given paths, or `.` when no path
/// list is given.
pub proof fn law_astgrep_arguments(p: AstGrepParams)
    ensures
        p.raw_args is Some ==> astgrep_args(p) == p.raw_args->0.deep_view(),
        p.raw_args is None ==> ({
            let a = astgrep_args(p);
            let j: int = if p.json.unwrap_or(true) { 1 } else { 0 };
            let q: int = if p.pattern is Some { 2 } else { 0 };
            let tail = match p.paths {
                Some(paths) => paths.deep_view(),
                None => seq!["."@],
            };
            &&& (j == 1 ==> a[0] == "--json"@)
            &&& (p.pattern is Some ==> a[j] == "-p"@ && a[j + 1] == p.pattern->0@)
            &&& a.len() == j + q + tail.len()
            &&& a.skip(j + q) == tail
        }),
{
    if p.raw_args is None {
        let a = astgrep_args(p);
        let j: int = if p.json.unwrap_or(true) { 1 } else { 0 };
        let q: int = if p.pattern is Some { 2 } else { 0 };
        let tail = match p.paths {
            Some(paths) => paths.deep_view(),
            None => seq!["."@],
        };
        assert(a.skip(j + q) =~= tail);
    }
}

/// A successful patch is reported by what the patcher printed: its trimmed
/// standard output first whenever there is any (alone when standard error is
/// empty), its standard error after it (or alone); "Patch applied." only
/// when it printed nothing.
pub proof fn law_applied_patch_text(out: Seq<char>, errs: Seq<char>)
    ensures
        out.len() > 0 ==> applied_text(out, errs).take(out.len() as int) == out,
        out.len() > 0 && errs.len() == 0 ==> applied_text(out, errs) == out,
        out.len() == 0 && errs.len() > 0 ==> applied_text(out, errs) == errs,
        out.len() > 0 && errs.len() > 0 ==> applied_text(out, errs) == out + seq!['\n'] + errs,
        out.len() == 0 && errs.len() == 0 ==> applied_text(out, errs) == "Patch applied."@,
{
    reveal_strlit("\n");
    if out.len() > 0 {
        assert(applied_text(out, errs).take(out.len() as int) =~= out);
        if errs.len() > 0 {
            assert(applied_text(out, errs) =~= out + seq!['\n'] + errs);
        }
    }
}

} // verus!


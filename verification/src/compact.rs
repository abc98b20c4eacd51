//! Token estimates around history compaction and the message reporting them.
use vstd::prelude::*;

use crate::text::{byte_len, decimal, push_decimal, push_str};

verus! {

broadcast use vstd::string::group_string_axioms;

/// Tokens estimated for a text of `chars` bytes: about four per token, rounded up.
pub open spec fn spec_chars_to_tokens(chars: nat) -> nat {
    ((chars + 3) / 4) as nat
}

/// Heuristic: about four characters per token, rounded up.
pub fn chars_to_tokens(chars: usize) -> (tokens: u64)
    requires
        chars + 3 <= u64::MAX,
    ensures
        tokens == spec_chars_to_tokens(chars as nat),
{
    ((chars as u64) + 3) / 4
}

/// One part of a message.
#[derive(Debug, Clone)]
pub enum ContentItem {
    InputText { text: String },
    OutputText { text: String },
    InputImage { image_url: String },
}

/// One part of a reasoning summary.
#[derive(Debug, Clone)]
pub enum ReasoningItemReasoningSummary {
    SummaryText { text: String },
}

/// An item of conversation history, as far as token estimates read it.
#[derive(Debug, Clone)]
#[allow(inconsistent_fields)]
pub enum ResponseItem {
    Message { id: Option<String>, role: String, content: Vec<ContentItem> },
    Reasoning { id: String, summary: Vec<ReasoningItemReasoningSummary> },
    FunctionCall { name: String, arguments: String, call_id: String },
    FunctionCallOutput { call_id: String, content: String },
    CustomToolCall { call_id: String, name: String, input: String },
    CustomToolCallOutput { call_id: String, output: String },
    LocalShellCall { call_id: Option<String> },
    WebSearchCall { id: Option<String> },
    Other,
}

/// Tokens for a text: its byte length, four bytes a token, rounded up.
pub open spec fn text_tokens(s: Seq<char>) -> nat {
    spec_chars_to_tokens(byte_len(s))
}

/// Tokens for one message part; images count for nothing.
pub open spec fn content_tokens(c: ContentItem) -> nat {
    match c {
        ContentItem::InputText { text } => text_tokens(text@),
        ContentItem::OutputText { text } => text_tokens(text@),
        ContentItem::InputImage { .. } => 0,
    }
}

/// Tokens for the parts of a message.
pub open spec fn contents_tokens(parts: Seq<ContentItem>) -> nat
    decreases parts.len(),
{
    if parts.len() == 0 {
        0
    } else {
        contents_tokens(parts.drop_last()) + content_tokens(parts.last())
    }
}

/// Tokens for the parts of a reasoning summary.
pub open spec fn summary_tokens(parts: Seq<ReasoningItemReasoningSummary>) -> nat
    decreases parts.len(),
{
    if parts.len() == 0 {
        0
    } else {
        summary_tokens(parts.drop_last()) + match parts.last() {
            ReasoningItemReasoningSummary::SummaryText { text } => text_tokens(text@),
        }
    }
}

/// Tokens estimated for one history item: the text it carries, a shell call
/// a flat eight, web searches and other items nothing.
pub open spec fn item_tokens(item: ResponseItem) -> nat {
    match item {
        ResponseItem::Message { content, .. } => contents_tokens(content@),
        ResponseItem::Reasoning { summary, .. } => summary_tokens(summary@),
        ResponseItem::FunctionCall { name, arguments, .. } => spec_chars_to_tokens(
            byte_len(name@) + byte_len(arguments@),
        ),
        ResponseItem::FunctionCallOutput { content, .. } => text_tokens(content@),
        ResponseItem::CustomToolCall { name, input, .. } => spec_chars_to_tokens(byte_len(name@) + byte_len(input@)),
        ResponseItem::CustomToolCallOutput { output, .. } => text_tokens(output@),
        ResponseItem::LocalShellCall { .. } => 8,
        ResponseItem::WebSearchCall { .. } => 0,
        ResponseItem::Other => 0,
    }
}

/// Every text of a message fits the estimate's arithmetic.
pub open spec fn contents_fit(parts: Seq<ContentItem>) -> bool {
    &&& forall|i: int| 0 <= i < parts.len() ==> match #[trigger] parts[i] {
        ContentItem::InputText { text } => byte_len(text@) + 3 <= u64::MAX,
        ContentItem::OutputText { text } => byte_len(text@) + 3 <= u64::MAX,
        ContentItem::InputImage { .. } => true,
    }
    &&& contents_tokens(parts) <= u64::MAX
}

/// Every text of a summary fits the estimate's arithmetic.
pub open spec fn summary_fits(parts: Seq<ReasoningItemReasoningSummary>) -> bool {
    &&& forall|i: int| 0 <= i < parts.len() ==> match #[trigger] parts[i] {
        ReasoningItemReasoningSummary::SummaryText { text } => byte_len(text@) + 3 <= u64::MAX,
    }
    &&& summary_tokens(parts) <= u64::MAX
}

/// The lengths and sums in an item's estimate stay within machine integers
/// (otherwise the arithmetic would overflow).
pub open spec fn item_fits(item: ResponseItem) -> bool {
    match item {
        ResponseItem::Message { content, .. } => contents_fit(content@),
        ResponseItem::Reasoning { summary, .. } => summary_fits(summary@),
        ResponseItem::FunctionCall { name, arguments, .. } => byte_len(name@) + byte_len(arguments@) + 3
            <= u64::MAX && byte_len(name@) + byte_len(arguments@) <= usize::MAX,
        ResponseItem::FunctionCallOutput { content, .. } => byte_len(content@) + 3 <= u64::MAX,
        ResponseItem::CustomToolCall { name, input, .. } => byte_len(name@) + byte_len(input@) + 3
            <= u64::MAX && byte_len(name@) + byte_len(input@) <= usize::MAX,
        ResponseItem::CustomToolCallOutput { output, .. } => byte_len(output@) + 3 <= u64::MAX,
        _ => true,
    }
}

/// Tokens estimated for a history, item by item.
pub open spec fn items_tokens(items: Seq<ResponseItem>) -> nat
    decreases items.len(),
{
    if items.len() == 0 {
        0
    } else {
        items_tokens(items.drop_last()) + item_tokens(items.last())
    }
}

/// Every item fits, and so does the total.
pub open spec fn items_fit(items: Seq<ResponseItem>) -> bool {
    &&& forall|i: int| 0 <= i < items.len() ==> item_fits(#[trigger] items[i])
    &&& items_tokens(items) <= u64::MAX
}

/// Partial sums of a history estimate do not exceed the whole.
proof fn lemma_items_tokens_prefix(items: Seq<ResponseItem>, k: int)
    requires
        0 <= k <= items.len(),
    ensures
        items_tokens(items.take(k)) <= items_tokens(items),
    decreases items.len() - k,
{
    if k < items.len() {
        lemma_items_tokens_prefix(items, k + 1);
        assert(items.take(k + 1).drop_last() =~= items.take(k));
    } else {
        assert(items.take(k) =~= items);
    }
}

proof fn lemma_contents_tokens_prefix(parts: Seq<ContentItem>, k: int)
    requires
        0 <= k <= parts.len(),
    ensures
        contents_tokens(parts.take(k)) <= contents_tokens(parts),
    decreases parts.len() - k,
{
    if k < parts.len() {
        lemma_contents_tokens_prefix(parts, k + 1);
        assert(parts.take(k + 1).drop_last() =~= parts.take(k));
    } else {
        assert(parts.take(k) =~= parts);
    }
}

proof fn lemma_summary_tokens_prefix(parts: Seq<ReasoningItemReasoningSummary>, k: int)
    requires
        0 <= k <= parts.len(),
    ensures
        summary_tokens(parts.take(k)) <= summary_tokens(parts),
    decreases parts.len() - k,
{
    if k < parts.len() {
        lemma_summary_tokens_prefix(parts, k + 1);
        assert(parts.take(k + 1).drop_last() =~= parts.take(k));
    } else {
        assert(parts.take(k) =~= parts);
    }
}

fn text_len_tokens(text: &String) -> (t: u64)
    requires
        byte_len(text@) + 3 <= u64::MAX,
    ensures
        t == text_tokens(text@),
{
    chars_to_tokens(text.as_str().len())
}

/// Estimate tokens for a single history item.
pub fn estimate_tokens_for_item(item: &ResponseItem) -> (t: u64)
    requires
        item_fits(*item),
    ensures
        t == item_tokens(*item),
{
    match item {
        ResponseItem::Message { content, .. } => {
            let mut sum: u64 = 0;
            let mut i: usize = 0;
            while i < content.len()
                invariant
                    contents_fit(content@),
                    i <= content.len(),
                    sum == contents_tokens(content@.take(i as int)),
                decreases content.len() - i,
            {
                proof {
                    lemma_contents_tokens_prefix(content@, i + 1);
                    assert(content@.take(i + 1).drop_last() =~= content@.take(i as int));
                }
                let t = match &content[i] {
                    ContentItem::InputText { text } => text_len_tokens(text),
                    ContentItem::OutputText { text } => text_len_tokens(text),
                    ContentItem::InputImage { .. } => 0,
                };
                sum = sum + t;
                i = i + 1;
            }
            assert(content@.take(i as int) =~= content@);
            sum
        },
        ResponseItem::Reasoning { summary, .. } => {
            let mut sum: u64 = 0;
            let mut i: usize = 0;
            while i < summary.len()
                invariant
                    summary_fits(summary@),
                    i <= summary.len(),
                    sum == summary_tokens(summary@.take(i as int)),
                decreases summary.len() - i,
            {
                proof {
                    lemma_summary_tokens_prefix(summary@, i + 1);
                    assert(summary@.take(i + 1).drop_last() =~= summary@.take(i as int));
                }
                let t = match &summary[i] {
                    ReasoningItemReasoningSummary::SummaryText { text } => text_len_tokens(text),
                };
                sum = sum + t;
                i = i + 1;
            }
            assert(summary@.take(i as int) =~= summary@);
            sum
        },
        ResponseItem::FunctionCall { name, arguments, .. } => chars_to_tokens(
            name.as_str().len() + arguments.as_str().len(),
        ),
        ResponseItem::FunctionCallOutput { content, .. } => text_len_tokens(content),
        ResponseItem::CustomToolCall { name, input, .. } => chars_to_tokens(
            name.as_str().len() + input.as_str().len(),
        ),
        ResponseItem::CustomToolCallOutput { output, .. } => text_len_tokens(output),
        ResponseItem::LocalShellCall { .. } => 8,
        ResponseItem::WebSearchCall { .. } => 0,
        ResponseItem::Other => 0,
    }
}

/// Estimate total tokens for a history, in order.
pub fn estimate_tokens_for_items(items: &[ResponseItem]) -> (t: u64)
    requires
        items_fit(items@),
    ensures
        t == items_tokens(items@),
{
    let mut sum: u64 = 0;
    let mut i: usize = 0;
    while i < items.len()
        invariant
            items_fit(items@),
            i <= items@.len(),
            sum == items_tokens(items@.take(i as int)),
        decreases items@.len() - i,
    {
        proof {
            lemma_items_tokens_prefix(items@, i + 1);
            assert(items@.take(i + 1).drop_last() =~= items@.take(i as int));
        }
        let t = estimate_tokens_for_item(&items[i]);
        sum = sum + t;
        i = i + 1;
    }
    assert(items@.take(i as int) =~= items@);
    sum
}

} // verus!

verus! {

/// Tokens of fixed overhead kept out of the share of the window reported as
/// free (Codex's token accounting holds them back).
pub const BASELINE_TOKENS: u64 = 12000;

/// Percent of the context window left when `tokens` are in it, as Codex's
/// token accounting defines it: the window and the use are both taken net of
/// the baseline, the share rounded to the nearest integer (halves up); a
/// window no larger than the baseline leaves nothing.
pub open spec fn spec_percent_remaining(tokens: nat, window: nat) -> nat {
    if window <= BASELINE_TOKENS {
        0
    } else {
        let effective = (window - BASELINE_TOKENS) as nat;
        let used = if tokens > BASELINE_TOKENS {
            (tokens - BASELINE_TOKENS) as nat
        } else {
            0
        };
        let remaining = if effective > used {
            (effective - used) as nat
        } else {
            0
        };
        ((remaining * 200 + effective) / (2 * effective)) as nat
    }
}

/// The remaining percent never exceeds a hundred.
pub proof fn lemma_percent_at_most_hundred(tokens: nat, window: nat)
    ensures
        spec_percent_remaining(tokens, window) <= 100,
{
    if window > BASELINE_TOKENS {
        let effective = (window - BASELINE_TOKENS) as nat;
        let used = if tokens > BASELINE_TOKENS { (tokens - BASELINE_TOKENS) as nat } else { 0 };
        let remaining = if effective > used { (effective - used) as nat } else { 0 };
        assert(remaining <= effective);
        assert(remaining * 200 + effective < 101 * (2 * effective)) by (nonlinear_arith)
            requires
                remaining <= effective,
                effective > 0,
        ;
        assert((remaining * 200 + effective) / (2 * effective) < 101) by (nonlinear_arith)
            requires
                remaining * 200 + effective < 101 * (2 * effective),
                effective > 0,
        ;
    }
}

/// Estimated percent of the context window remaining with
/// `estimated_tokens_in_window` tokens in it.
pub fn percent_remaining(estimated_tokens_in_window: u64, context_window: u64) -> (p: u8)
    ensures
        p == spec_percent_remaining(estimated_tokens_in_window as nat, context_window as nat),
{
    proof {
        lemma_percent_at_most_hundred(estimated_tokens_in_window as nat, context_window as nat);
    }
    if context_window <= BASELINE_TOKENS {
        return 0;
    }
    let effective = context_window - BASELINE_TOKENS;
    let used = if estimated_tokens_in_window > BASELINE_TOKENS {
        estimated_tokens_in_window - BASELINE_TOKENS
    } else {
        0
    };
    let remaining = if effective > used {
        effective - used
    } else {
        0
    };
    let num: u128 = (remaining as u128) * 200 + (effective as u128);
    let den: u128 = 2 * (effective as u128);
    let q = num / den;
    q as u8
}

/// The estimated token counts before and after a compaction.
#[derive(Debug, Clone, Copy)]
pub struct CompactionReport {
    pub before_tokens: u64,
    pub after_tokens: u64,
}

impl CompactionReport {
    /// A report of the estimates before and after compaction.
    pub fn new(before_tokens: u64, after_tokens: u64) -> (r: Self)
        ensures
            r.before_tokens == before_tokens,
            r.after_tokens == after_tokens,
    {
        CompactionReport { before_tokens, after_tokens }
    }

    /// Estimated percent of the context window remaining before compaction.
    pub fn percent_remaining_before(&self, context_window: u64) -> (p: u8)
        ensures
            p == spec_percent_remaining(self.before_tokens as nat, context_window as nat),
    {
        percent_remaining(self.before_tokens, context_window)
    }

    /// Estimated percent of the context window remaining after compaction.
    pub fn percent_remaining_after(&self, context_window: u64) -> (p: u8)
        ensures
            p == spec_percent_remaining(self.after_tokens as nat, context_window as nat),
    {
        percent_remaining(self.after_tokens, context_window)
    }
}

/// Tokens saved by compaction (none when the history grew).
pub open spec fn saved_tokens(r: CompactionReport) -> nat {
    if r.before_tokens > r.after_tokens {
        (r.before_tokens - r.after_tokens) as nat
    } else {
        0
    }
}

/// The completion message: the estimates before and after and the tokens
/// saved, and, when the context window is known and not zero, the percent of
/// it remaining before and after.
pub open spec fn completion_message(report: CompactionReport, model_context_window: Option<u64>) -> Seq<char> {
    let base = "Compaction complete: ~"@ + decimal(report.before_tokens as nat) + " → ~"@ + decimal(
        report.after_tokens as nat,
    ) + " tokens; saved ~"@ + decimal(saved_tokens(report));
    match model_context_window {
        Some(ctx) if ctx > 0 => base + "; remaining ~"@ + decimal(
            spec_percent_remaining(report.before_tokens as nat, ctx as nat),
        ) + "% → ~"@ + decimal(spec_percent_remaining(report.after_tokens as nat, ctx as nat)) + "%"@,
        _ => base,
    }
}

/// Format a short, human-friendly completion message for the compaction step.
pub fn format_completion_message(report: &CompactionReport, model_context_window: Option<u64>) -> (m: String)
    ensures
        m@ == completion_message(*report, model_context_window),
{
    let mut m = "Compaction complete: ~".to_owned();
    push_decimal(&mut m, report.before_tokens);
    push_str(&mut m, " → ~");
    push_decimal(&mut m, report.after_tokens);
    push_str(&mut m, " tokens; saved ~");
    push_decimal(&mut m, report.before_tokens.saturating_sub(report.after_tokens));
    match model_context_window {
        Some(ctx) if ctx > 0 => {
            let before_pct = report.percent_remaining_before(ctx);
            let after_pct = report.percent_remaining_after(ctx);
            push_str(&mut m, "; remaining ~");
            push_decimal(&mut m, before_pct as u64);
            push_str(&mut m, "% → ~");
            push_decimal(&mut m, after_pct as u64);
            push_str(&mut m, "%");
        },
        _ => {},
    }
    m
}

} // verus!

verus! {

/// The estimate of a history is the sum of the estimates of its parts: a
/// history split anywhere estimates to the two halves added up.
pub proof fn lemma_estimate_additive(a: Seq<ResponseItem>, b: Seq<ResponseItem>)
    ensures
        items_tokens(a + b) == items_tokens(a) + items_tokens(b),
    decreases b.len(),
{
    if b.len() == 0 {
        assert(a + b =~= a);
    } else {
        lemma_estimate_additive(a, b.drop_last());
        assert((a + b).drop_last() =~= a + b.drop_last());
        assert((a + b).last() == b.last());
    }
}

/// More text never gives fewer tokens.
pub proof fn lemma_chars_to_tokens_monotone(c1: nat, c2: nat)
    requires
        c1 <= c2,
    ensures
        spec_chars_to_tokens(c1) <= spec_chars_to_tokens(c2),
{
    vstd::arithmetic::div_mod::lemma_div_is_ordered((c1 + 3) as int, (c2 + 3) as int, 4);
}

/// For a given window, more tokens in it never leave a larger share free.
pub proof fn lemma_percent_remaining_monotone(t1: nat, t2: nat, window: nat)
    requires
        t1 <= t2,
    ensures
        spec_percent_remaining(t2, window) <= spec_percent_remaining(t1, window),
{
    if window > BASELINE_TOKENS {
        let effective = (window - BASELINE_TOKENS) as nat;
        let u1 = if t1 > BASELINE_TOKENS { (t1 - BASELINE_TOKENS) as nat } else { 0 };
        let u2 = if t2 > BASELINE_TOKENS { (t2 - BASELINE_TOKENS) as nat } else { 0 };
        let r1 = if effective > u1 { (effective - u1) as nat } else { 0 };
        let r2 = if effective > u2 { (effective - u2) as nat } else { 0 };
        assert(r2 <= r1);
        vstd::arithmetic::div_mod::lemma_div_is_ordered(
            (r2 * 200 + effective) as int,
            (r1 * 200 + effective) as int,
            (2 * effective) as int,
        );
    }
}

/// A compaction that does not grow the history never reports less of the
/// window remaining afterwards than before.
pub proof fn lemma_compaction_frees_window(report: CompactionReport, context_window: u64)
    requires
        report.after_tokens <= report.before_tokens,
    ensures
        spec_percent_remaining(report.before_tokens as nat, context_window as nat)
            <= spec_percent_remaining(report.after_tokens as nat, context_window as nat),
{
    lemma_percent_remaining_monotone(report.after_tokens as nat, report.before_tokens as nat, context_window as nat);
}

/// Bytes of text in the parts of a message; images carry none.
pub open spec fn contents_text_bytes(parts: Seq<ContentItem>) -> nat
    decreases parts.len(),
{
    if parts.len() == 0 {
        0
    } else {
        contents_text_bytes(parts.drop_last()) + match parts.last() {
            ContentItem::InputText { text } => byte_len(text@),
            ContentItem::OutputText { text } => byte_len(text@),
            ContentItem::InputImage { .. } => 0,
        }
    }
}

/// Bytes of text in the parts of a reasoning summary.
pub open spec fn summary_text_bytes(parts: Seq<ReasoningItemReasoningSummary>) -> nat
    decreases parts.len(),
{
    if parts.len() == 0 {
        0
    } else {
        summary_text_bytes(parts.drop_last()) + match parts.last() {
            ReasoningItemReasoningSummary::SummaryText { text } => byte_len(text@),
        }
    }
}

/// Bytes of text an item carries: a message's texts, a summary's texts, a
/// call's name and arguments or input, a call output's text; none for the
/// other items.
pub open spec fn item_text_bytes(item: ResponseItem) -> nat {
    match item {
        ResponseItem::Message { content, .. } => contents_text_bytes(content@),
        ResponseItem::Reasoning { summary, .. } => summary_text_bytes(summary@),
        ResponseItem::FunctionCall { name, arguments, .. } => byte_len(name@) + byte_len(arguments@),
        ResponseItem::FunctionCallOutput { content, .. } => byte_len(content@),
        ResponseItem::CustomToolCall { name, input, .. } => byte_len(name@) + byte_len(input@),
        ResponseItem::CustomToolCallOutput { output, .. } => byte_len(output@),
        _ => 0,
    }
}

/// `n` bytes at four a token, rounded up, cover the `n` bytes and waste
/// fewer than four.
proof fn lemma_tokens_cover_bytes(n: nat)
    ensures
        n <= 4 * spec_chars_to_tokens(n) <= n + 3,
{
    assert(n <= 4 * ((n + 3) / 4) <= n + 3) by (nonlinear_arith);
}

proof fn lemma_contents_cover_bytes(parts: Seq<ContentItem>)
    ensures
        contents_text_bytes(parts) <= 4 * contents_tokens(parts) <= contents_text_bytes(parts) + 3 * parts.len(),
    decreases parts.len(),
{
    if parts.len() > 0 {
        lemma_contents_cover_bytes(parts.drop_last());
        match parts.last() {
            ContentItem::InputText { text } => lemma_tokens_cover_bytes(byte_len(text@)),
            ContentItem::OutputText { text } => lemma_tokens_cover_bytes(byte_len(text@)),
            ContentItem::InputImage { .. } => {},
        }
    }
}

proof fn lemma_summary_cover_bytes(parts: Seq<ReasoningItemReasoningSummary>)
    ensures
        summary_text_bytes(parts) <= 4 * summary_tokens(parts) <= summary_text_bytes(parts) + 3 * parts.len(),
    decreases parts.len(),
{
    if parts.len() > 0 {
        lemma_summary_cover_bytes(parts.drop_last());
        match parts.last() {
            ReasoningItemReasoningSummary::SummaryText { text } => lemma_tokens_cover_bytes(byte_len(text@)),
        }
    }
}

/// An item's estimate covers the text it carries at four bytes a token: never
/// fewer tokens than that text needs, so any text costs at least one token,
/// and less than one token more per text, rounded up separately; a shell
/// call counts eight, web searches and other items nothing.
pub proof fn law_item_tokens_cover_text(item: ResponseItem)
    ensures
        item_text_bytes(item) <= 4 * item_tokens(item),
        item_text_bytes(item) > 0 ==> item_tokens(item) >= 1,
        match item {
            ResponseItem::Message { content, .. } => 4 * item_tokens(item) <= item_text_bytes(item) + 3
                * content@.len(),
            ResponseItem::Reasoning { summary, .. } => 4 * item_tokens(item) <= item_text_bytes(item) + 3
                * summary@.len(),
            ResponseItem::LocalShellCall { .. } => item_tokens(item) == 8,
            ResponseItem::WebSearchCall { .. } => item_tokens(item) == 0,
            ResponseItem::Other => item_tokens(item) == 0,
            _ => 4 * item_tokens(item) <= item_text_bytes(item) + 3,
        },
{
    match item {
        ResponseItem::Message { content, .. } => lemma_contents_cover_bytes(content@),
        ResponseItem::Reasoning { summary, .. } => lemma_summary_cover_bytes(summary@),
        ResponseItem::LocalShellCall { .. } => {},
        ResponseItem::WebSearchCall { .. } => {},
        ResponseItem::Other => {},
        _ => lemma_tokens_cover_bytes(item_text_bytes(item)),
    }
}

} // verus!

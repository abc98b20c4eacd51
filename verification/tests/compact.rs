use codex_mcp::compact::{
    chars_to_tokens, estimate_tokens_for_item, estimate_tokens_for_items, format_completion_message, percent_remaining,
    CompactionReport, ContentItem, ReasoningItemReasoningSummary, ResponseItem,
};

#[test]
fn estimates_message_text() {
    let item = ResponseItem::Message {
        id: None,
        role: "user".into(),
        content: vec![ContentItem::InputText {
            text: "abcd".into(), // 4 chars → 1 token
        }],
    };
    assert_eq!(estimate_tokens_for_items(&[item]), 1);
}

#[test]
fn tokens_round_up_by_four() {
    assert_eq!(chars_to_tokens(0), 0);
    assert_eq!(chars_to_tokens(1), 1);
    assert_eq!(chars_to_tokens(4), 1);
    assert_eq!(chars_to_tokens(5), 2);
}

#[test]
fn each_item_kind_is_estimated() {
    let message = ResponseItem::Message {
        id: Some("m".into()),
        role: "assistant".into(),
        content: vec![
            ContentItem::OutputText { text: "abcdefgh".into() },
            ContentItem::InputImage { image_url: "data:image/png;base64,AAAA".into() },
            ContentItem::InputText { text: "é".into() },
        ],
    };
    // 8 bytes → 2, image → 0, "é" is two bytes → 1.
    assert_eq!(estimate_tokens_for_item(&message), 3);
    let reasoning = ResponseItem::Reasoning {
        id: "r".into(),
        summary: vec![ReasoningItemReasoningSummary::SummaryText { text: "12345".into() }],
    };
    assert_eq!(estimate_tokens_for_item(&reasoning), 2);
    let call = ResponseItem::FunctionCall { name: "ab".into(), arguments: "cdefg".into(), call_id: "c".into() };
    assert_eq!(estimate_tokens_for_item(&call), 2);
    let output = ResponseItem::FunctionCallOutput { call_id: "c".into(), content: "xyz".into() };
    assert_eq!(estimate_tokens_for_item(&output), 1);
    let custom = ResponseItem::CustomToolCall { call_id: "c".into(), name: "n".into(), input: "1234".into() };
    assert_eq!(estimate_tokens_for_item(&custom), 2);
    let custom_out = ResponseItem::CustomToolCallOutput { call_id: "c".into(), output: "".into() };
    assert_eq!(estimate_tokens_for_item(&custom_out), 0);
    assert_eq!(estimate_tokens_for_item(&ResponseItem::LocalShellCall { call_id: None }), 8);
    assert_eq!(estimate_tokens_for_item(&ResponseItem::WebSearchCall { id: None }), 0);
    assert_eq!(estimate_tokens_for_item(&ResponseItem::Other), 0);
}

#[test]
fn history_estimate_is_the_sum() {
    let items = vec![
        ResponseItem::LocalShellCall { call_id: None },
        ResponseItem::FunctionCallOutput { call_id: "c".into(), content: "abcde".into() },
    ];
    assert_eq!(estimate_tokens_for_items(&items), 10);
    assert_eq!(estimate_tokens_for_items(&[]), 0);
}

#[test]
fn report_formats_remaining() {
    let report = CompactionReport::new(10_000, 5_000);
    // With a small window, remaining is clamped; behavior is stable.
    assert!(report.percent_remaining_before(16_385) <= 100);
    assert!(report.percent_remaining_after(16_385) <= 100);
}

#[test]
fn percent_remaining_is_net_of_baseline() {
    // A window no larger than the baseline leaves nothing.
    assert_eq!(percent_remaining(0, 12_000), 0);
    // Use within the baseline leaves the whole window.
    assert_eq!(percent_remaining(10_000, 16_385), 100);
    // 112 000 window, 62 000 used: half of the effective window remains.
    assert_eq!(percent_remaining(62_000, 112_000), 50);
    // Halves round up: 3 of 8 → 37.5 → 38.
    assert_eq!(percent_remaining(12_005, 12_008), 38);
    // Over-use leaves nothing.
    assert_eq!(percent_remaining(500_000, 112_000), 0);
}

#[test]
fn completion_message_with_and_without_window() {
    let report = CompactionReport::new(62_000, 22_000);
    assert_eq!(
        format_completion_message(&report, None),
        "Compaction complete: ~62000 → ~22000 tokens; saved ~40000"
    );
    assert_eq!(
        format_completion_message(&report, Some(0)),
        "Compaction complete: ~62000 → ~22000 tokens; saved ~40000"
    );
    assert_eq!(
        format_completion_message(&report, Some(112_000)),
        "Compaction complete: ~62000 → ~22000 tokens; saved ~40000; remaining ~50% → ~90%"
    );
}

#[test]
fn completion_message_saves_nothing_when_history_grew() {
    let report = CompactionReport::new(100, 300);
    assert_eq!(
        format_completion_message(&report, None),
        "Compaction complete: ~100 → ~300 tokens; saved ~0"
    );
}

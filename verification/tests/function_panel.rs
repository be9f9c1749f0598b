use wallet_dashboard::function_panel::already_said;
use wallet_dashboard::function_panel::clear_signed_panel;
use wallet_dashboard::function_panel::entry_is_visible;
use wallet_dashboard::function_panel::headline_view;
use wallet_dashboard::function_panel::heuristic_panel;
use wallet_dashboard::function_panel::split_addresses;
use wallet_dashboard::function_panel::truncate;
use wallet_dashboard::function_panel::ty_short;
use wallet_dashboard::function_panel::view;
use wallet_dashboard::function_panel::ArgDisplay;
use wallet_dashboard::function_panel::CallArg;
use wallet_dashboard::function_panel::DecodeResult;
use wallet_dashboard::function_panel::DecodedCall;
use wallet_dashboard::function_panel::Diagnostic;
use wallet_dashboard::function_panel::DisplayEntry;
use wallet_dashboard::function_panel::DisplayItem;
use wallet_dashboard::function_panel::Headline;
use wallet_dashboard::function_panel::HeadlinePart;
use wallet_dashboard::function_panel::Panel;
use wallet_dashboard::function_panel::PanelLine;
use wallet_dashboard::function_panel::ResolutionState;
use wallet_dashboard::function_panel::SolType;
use wallet_dashboard::function_panel::Warning;
use wallet_dashboard::primitives::Address;

const DAI: &str = "0x6B175474E89094C44Da98b954EedeAC495271d0F";

fn dai() -> Address {
    Address { hi: 0x6B175474, lo: 0xE89094C44Da98b954EedeAC495271d0F }
}

fn text_part(s: &str) -> HeadlinePart {
    HeadlinePart::Text(s.to_string())
}

// ── sentences ───────────────────────────────────────────────────────

#[test]
fn splits_an_interpolated_recipient_out_of_the_sentence() {
    assert_eq!(
        split_addresses("Transfer 800 DAI to 0x6B175474E89094C44Da98b954EedeAC495271d0F"),
        vec![text_part("Transfer 800 DAI to"), HeadlinePart::Addr(dai())],
    );
}

#[test]
fn keeps_prose_on_both_sides_and_splits_several_addresses() {
    assert_eq!(
        split_addresses(
            "Approve 0x6B175474E89094C44Da98b954EedeAC495271d0F for \
             0x6B175474E89094C44Da98b954EedeAC495271d0F now"
        ),
        vec![
            text_part("Approve"),
            HeadlinePart::Addr(dai()),
            text_part("for"),
            HeadlinePart::Addr(dai()),
            text_part("now"),
        ],
    );
}

#[test]
fn a_sentence_without_an_address_is_one_run() {
    assert_eq!(
        split_addresses("Stake 1.5 ETH for 30 days"),
        vec![text_part("Stake 1.5 ETH for 30 days")],
    );
}

#[test]
fn only_exactly_twenty_byte_hex_counts_as_an_address() {
    let hash = format!("Commit 0x{}", "ab".repeat(32));
    assert_eq!(split_addresses(&hash), vec![text_part(&hash)]);
    assert_eq!(
        split_addresses("Send to 0x6B175474E8"),
        vec![text_part("Send to 0x6B175474E8")],
    );
    assert_eq!(split_addresses("costs 0x gas"), vec![text_part("costs 0x gas")]);
}

#[test]
fn an_address_alone_yields_no_empty_prose_runs() {
    assert_eq!(
        split_addresses("0x6B175474E89094C44Da98b954EedeAC495271d0F"),
        vec![HeadlinePart::Addr(dai())],
    );
    assert!(split_addresses("").is_empty());
    assert!(split_addresses("   ").is_empty());
}

#[test]
fn an_address_glued_to_a_word_is_prose_on_its_own_side() {
    let s = format!("to{DAI}.");
    assert_eq!(
        split_addresses(&s),
        vec![text_part("to"), HeadlinePart::Addr(dai()), text_part(".")],
    );
    assert_eq!(split_addresses(&DAI.to_lowercase()), vec![HeadlinePart::Addr(dai())]);
}

// ── what a headline has said ────────────────────────────────────────

#[test]
fn a_value_the_headline_spelled_out_is_not_repeated() {
    let said = Some("Transfer 800 DAI to 0x6B175474E89094C44Da98b954EedeAC495271d0F");
    assert!(already_said(said, "800 DAI"));
    assert!(already_said(said, "0x6b175474e89094c44da98b954eedeac495271d0f"));
    assert!(already_said(said, " 800 DAI "), "entries are trimmed first");
}

#[test]
fn a_value_the_headline_did_not_say_survives() {
    let said = Some("Transfer 800 DAI to 0x6B175474E89094C44Da98b954EedeAC495271d0F");
    assert!(!already_said(said, "0x0000000000000000000000000000000000000001"));
    assert!(!already_said(said, "2030-01-01"));
    assert!(!already_said(None, "800 DAI"), "no headline, nothing said");
    assert!(!already_said(said, ""));
}

#[test]
fn substrings_of_larger_numbers_do_not_count_as_said() {
    let said = Some("Approve 1000 USDC for Aave");
    assert!(!already_said(said, "1"));
    assert!(!already_said(said, "100"));
    assert!(already_said(said, "1000"));
    assert!(already_said(Some("Swap (1.5 ETH) now"), "1.5 ETH"));
}

#[test]
fn a_letter_of_any_script_bounds_no_value() {
    assert!(!already_said(Some("Zahle 5€ ß5ß"), "5ß"));
    assert!(already_said(Some("Zahle 5€"), "5"), "a currency sign is no letter");
    assert!(!already_said(Some("Zahle 5é"), "5"), "an accented letter is one");
}

// ── text that is safe to show ───────────────────────────────────────

#[test]
fn long_text_is_cut_with_an_ellipsis() {
    assert_eq!(truncate("abcdef", 6), "abcdef");
    assert_eq!(truncate("abcdefg", 6), "abcdef…");
    assert_eq!(truncate("", 0), "");
}

#[test]
fn text_that_could_reorder_its_surroundings_is_stripped() {
    assert_eq!(truncate("pay\u{202e}evil\u{200b}\n", 20), "payevil");
    assert_eq!(truncate("\u{202e}abc", 3), "abc", "stripped before it is measured");
}

#[test]
fn types_are_written_as_solidity_writes_them() {
    assert_eq!(ty_short(&SolType::Uint(256)), "uint256");
    assert_eq!(ty_short(&SolType::FixedBytes(4)), "bytes4");
    assert_eq!(ty_short(&SolType::Text), "string");
    let pair = SolType::Tuple(vec![SolType::Address, SolType::Array(Box::new(SolType::Bool))]);
    assert_eq!(ty_short(&SolType::FixedArray(Box::new(pair), 2)), "(address,bool[])[2]");
    assert_eq!(ty_short(&SolType::CustomStruct("Order".into())), "Order");
}

// ── the card ────────────────────────────────────────────────────────

#[test]
fn a_caution_mutes_the_headline_it_qualifies() {
    let card = headline_view(&Headline {
        text: format!("Transfer to {DAI}"),
        note: Some("from a descriptor".into()),
        via_proxy: true,
        caution: Some("unverified".into()),
        clear_signed: true,
    });
    assert_eq!(card.parts, vec![text_part("Transfer to"), HeadlinePart::Addr(dai())]);
    assert!(card.muted);
    assert_eq!(card.note.as_deref(), Some("from a descriptor"));
    assert_eq!(card.proxy_note, Some("(via proxy)"));
    assert_eq!(card.caution.as_deref(), Some("unverified"));
}

// ── the panel ───────────────────────────────────────────────────────

fn item(label: &str, value: &str) -> DisplayItem {
    DisplayItem { label: label.into(), value: value.into() }
}

fn lines(p: Option<Panel>) -> Vec<PanelLine> {
    match p {
        Some(Panel::Lines(l)) => l,
        other => panic!("expected lines, got {other:?}"),
    }
}

fn value(indent: u32, label: &str, value: &str, stacked: bool, muted: bool) -> PanelLine {
    PanelLine::Value { indent, label: label.into(), value: value.into(), stacked, muted }
}

#[test]
fn a_said_item_leaves_no_line_and_an_unsaid_one_does() {
    let said = Some("Transfer 800 DAI");
    let amount = DisplayEntry::Item(item("Amount", "800 DAI"));
    let until = DisplayEntry::Item(item("Deadline", "2030-01-01"));
    assert!(!entry_is_visible(&amount, said));
    assert!(entry_is_visible(&until, said));
    assert!(entry_is_visible(&amount, None));
    let shown = lines(clear_signed_panel(&vec![amount, until], &vec![], &vec![], said));
    assert_eq!(shown, vec![value(0, "· Deadline", "2030-01-01", false, false)]);
}

#[test]
fn a_value_that_is_an_address_is_shown_as_one() {
    let shown = lines(clear_signed_panel(
        &vec![DisplayEntry::Item(item("To", &format!(" {DAI} ")))],
        &vec![],
        &vec![],
        None,
    ));
    assert_eq!(shown, vec![PanelLine::Address { indent: 0, label: "· To".into(), addr: dai() }]);
}

#[test]
fn groups_without_anything_unsaid_disappear() {
    let said = Some("Swap 1 ETH");
    let group = DisplayEntry::Group { label: "Sell".into(), items: vec![item("In", "1 ETH")] };
    assert!(!entry_is_visible(&group, said));
    assert!(entry_is_visible(&group, None));
    assert!(clear_signed_panel(&vec![group], &vec![], &vec![], said).is_none());
}

#[test]
fn nested_calls_are_indented_under_their_intent() {
    let inner = DisplayEntry::Nested {
        label: "Call".into(),
        intent: "Supply".into(),
        entries: vec![DisplayEntry::Item(item("Amount", "5 DAI"))],
    };
    let shown = lines(clear_signed_panel(&vec![inner], &vec![], &vec![], None));
    assert_eq!(shown.len(), 2);
    assert!(matches!(&shown[0], PanelLine::Nested { indent: 0, label, intent }
        if label.contains("Call") && intent == "Supply"));
    assert!(matches!(&shown[1], PanelLine::Value { indent, value, .. }
        if *indent > 0 && value == "5 DAI"));
}

#[test]
fn only_warnings_among_the_diagnostics_are_shown_at_the_foot() {
    let d = |message: &str, is_warning: bool| Diagnostic { message: message.into(), is_warning };
    let shown = lines(clear_signed_panel(
        &vec![],
        &vec![d("fine", false), d("no token list", true)],
        &vec![],
        None,
    ));
    assert_eq!(shown, vec![PanelLine::Gap, PanelLine::Strip("⚠ no token list".into())]);
}

fn call(state: ResolutionState, args: Vec<CallArg>, warnings: Vec<Warning>) -> DecodedCall {
    DecodedCall { warnings, args, state, raw_calldata: vec![0xde, 0xad, 0xbe, 0xef] }
}

#[test]
fn doubt_about_the_name_leads_and_the_rest_follows() {
    let args = vec![CallArg {
        name: Some("amount".into()),
        ty: SolType::Uint(256),
        display: ArgDisplay::Uint { formatted: "5".into() },
    }];
    let warnings = vec![
        Warning::InfiniteApproval { spender: dai() },
        Warning::BytecodeMismatch { candidates: vec!["a()".into(), "b()".into()] },
    ];
    let shown = lines(heuristic_panel(&call(ResolutionState::Resolved, args, warnings)));
    assert_eq!(
        shown[0],
        PanelLine::Strip(
            "⚠ possible spoof — on-chain code matches no known signature (claimed: a(), b())".into()
        ),
    );
    assert_eq!(shown[1], value(0, "· amount: uint256", "5", false, false));
    assert_eq!(shown[2], PanelLine::Gap);
    assert!(matches!(&shown[3], PanelLine::Strip(s) if s.starts_with("⚠ infinite approval to 0x6b17")));
    assert_eq!(shown.len(), 4);
}

#[test]
fn bytes_are_shown_in_hexadecimal_and_text_in_quotes() {
    let arg = |display: ArgDisplay| CallArg { name: None, ty: SolType::Bytes, display };
    let args = vec![
        arg(ArgDisplay::Bytes(vec![0x0a, 0xff])),
        arg(ArgDisplay::Text("hi".into())),
        arg(ArgDisplay::Bool(true)),
    ];
    let shown = lines(heuristic_panel(&call(ResolutionState::Resolved, args, vec![])));
    assert_eq!(
        shown,
        vec![
            value(0, "· bytes", "0x0aff", false, false),
            value(0, "· bytes", "\"hi\"", false, false),
            value(0, "· bytes", "true", false, false),
        ],
    );
}

#[test]
fn calldata_that_no_argument_accounts_for_is_counted() {
    let w = vec![Warning::UnaccountedCalldata { decoded: 36, total: 100 }];
    let shown = lines(heuristic_panel(&call(ResolutionState::Resolved, vec![], w)));
    assert!(shown.contains(&PanelLine::Strip(
        "⚠ 64 byte(s) of calldata are not shown above — the arguments account for 36 of 100".into()
    )));
}

#[test]
fn a_call_with_unknown_types_shows_its_bytes() {
    let shown = lines(heuristic_panel(&call(ResolutionState::Unknown, vec![], vec![])));
    assert_eq!(shown, vec![value(0, "· raw", "0xdeadbeef", false, true)]);
}

#[test]
fn a_long_value_gets_a_line_of_its_own() {
    let entry = |v: &str| vec![DisplayEntry::Item(item("Note", v))];
    let twenty = "a".repeat(20);
    let more = "a".repeat(21);
    assert_eq!(
        lines(clear_signed_panel(&entry(&twenty), &vec![], &vec![], None)),
        vec![value(0, "· Note", &twenty, false, false)],
    );
    assert_eq!(
        lines(clear_signed_panel(&entry(&more), &vec![], &vec![], None)),
        vec![value(0, "· Note", &more, true, false)],
    );
}

#[test]
fn a_bare_call_has_no_panel_and_a_pending_one_says_so() {
    assert!(view(Some(&DecodeResult::Empty), None, false).is_none());
    assert!(view(None, None, false).is_none());
    let empty = DecodeResult::Heuristic(call(ResolutionState::Empty, vec![], vec![]));
    assert!(view(Some(&empty), None, false).is_none());
    assert_eq!(view(None, None, true), Some(Panel::Loading));
}

#[test]
fn a_fallback_keeps_the_doubts_of_the_mechanical_decode() {
    let d = DecodeResult::Fallback {
        entries: vec![],
        diagnostics: vec![],
        heuristic: call(
            ResolutionState::Resolved,
            vec![],
            vec![Warning::BytecodeMismatch { candidates: vec!["f()".into()] }],
        ),
    };
    let shown = lines(view(Some(&d), None, false));
    assert!(matches!(&shown[0], PanelLine::Strip(s) if s.contains("possible spoof")));
}

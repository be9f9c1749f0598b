use wallet_dashboard::primitives::B256;
use wallet_dashboard::wc_panes::body::view;
use wallet_dashboard::wc_panes::body::Body;
use wallet_dashboard::wc_panes::body::ProposalBody;
use wallet_dashboard::wc_panes::body::RequestBody;
use wallet_dashboard::wc_panes::grant::compute_grant_preview;
use wallet_dashboard::wc_panes::grant::GrantPreview;
use wallet_dashboard::wc_panes::payload::decode_personal_sign;
use wallet_dashboard::wc_panes::payload::is_address_str;
use wallet_dashboard::wc_panes::payload::payload_body;
use wallet_dashboard::wc_panes::payload::payload_of;
use wallet_dashboard::wc_panes::payload::Payload;
use wallet_dashboard::wc_panes::scopes::Scopes;
use wallet_dashboard::wc_panes::sessions::format_expiry;
use wallet_dashboard::wc_panes::sessions::paste_card;
use wallet_dashboard::wc_panes::sessions::sessions_view;
use wallet_dashboard::wc_panes::sessions::Tone;
use wallet_dashboard::wc_panes::Message;
use wallet_dashboard::wc_panes::Method;
use wallet_dashboard::wc_panes::Namespace;
use wallet_dashboard::wc_panes::PeerMetadata;
use wallet_dashboard::wc_panes::UiProposal;
use wallet_dashboard::wc_panes::UiRequest;
use wallet_dashboard::wc_panes::UiSession;
use wallet_dashboard::wc_panes::WcModal;
use wallet_dashboard::wc_panes::WcState;
use wallet_dashboard::wc_panes::WcStatus;

const SOMEONE: &str = "0x1234567890abcdef1234567890abcdef12345678";

fn texts(items: &[&str]) -> Vec<Option<String>> {
    items.iter().map(|s| Some(s.to_string())).collect()
}

// ── messages to sign ────────────────────────────────────────────────

#[test]
fn decode_personal_sign_utf8_message_first() {
    let arr = texts(&["0x48656c6c6f", "0x1234567890abcdef1234567890abcdef12345678"]);
    assert_eq!(decode_personal_sign(&arr).as_deref(), Some("Hello"));
}

#[test]
fn decode_personal_sign_address_first_order() {
    let arr = texts(&["0x1234567890abcdef1234567890abcdef12345678", "0x4b616f"]);
    assert_eq!(decode_personal_sign(&arr).as_deref(), Some("Kao"));
}

#[test]
fn decode_personal_sign_non_utf8_hex_falls_back_to_byte_count() {
    let arr = texts(&["0xff00ee", "0x1234567890abcdef1234567890abcdef12345678"]);
    let out = decode_personal_sign(&arr).unwrap();
    assert!(out.contains("3 bytes"), "got {out}");
    assert_eq!(out, "0xff00ee (3 bytes)");
}

#[test]
fn a_message_that_is_not_hexadecimal_is_read_as_it_is() {
    assert_eq!(decode_personal_sign(&texts(&["gm", SOMEONE])).as_deref(), Some("gm"));
    assert_eq!(decode_personal_sign(&texts(&["0xabc", SOMEONE])).as_deref(), Some("0xabc"));
    assert_eq!(decode_personal_sign(&texts(&["0xzz", SOMEONE])).as_deref(), Some("0xzz"));
    assert_eq!(decode_personal_sign(&texts(&["0x", SOMEONE])).as_deref(), Some(""));
    assert_eq!(decode_personal_sign(&texts(&["0xC3A9", SOMEONE])).as_deref(), Some("é"));
}

#[test]
fn parameters_without_two_texts_hold_no_message() {
    assert_eq!(decode_personal_sign(&texts(&["0x48656c6c6f"])), None);
    assert_eq!(decode_personal_sign(&vec![None, Some(SOMEONE.into())]), None);
    assert_eq!(decode_personal_sign(&vec![Some(SOMEONE.into()), None]), None);
}

#[test]
fn a_message_survives_the_trip_through_hexadecimal() {
    for m in ["", "Sign in to example.org", "žluťoučký 🦄", "a\nb"] {
        let raw = format!("0x{}", hex::encode(m));
        assert_eq!(decode_personal_sign(&texts(&[&raw, SOMEONE])).as_deref(), Some(m));
        assert_eq!(decode_personal_sign(&texts(&[SOMEONE, &raw])).as_deref(), Some(m));
    }
}

#[test]
fn is_address_str_accepts_full_42_char_hex() {
    assert!(is_address_str("0x1234567890abcdef1234567890abcdef12345678"));
}

#[test]
fn is_address_str_rejects_short_strings() {
    assert!(!is_address_str("0x1234"));
    assert!(!is_address_str("not an address"));
}

#[test]
fn is_address_str_wants_the_prefix_and_nothing_but_digits() {
    assert!(!is_address_str("0X1234567890abcdef1234567890abcdef12345678"));
    assert!(!is_address_str("0x1234567890abcdef1234567890abcdef1234567g"));
    assert!(!is_address_str("1234567890abcdef1234567890abcdef1234567800"));
}

#[test]
fn a_request_to_sign_shows_the_message() {
    let params = format!("[\"0x48656c6c6f\",\"{SOMEONE}\"]");
    assert_eq!(payload_body("personal_sign", &params), Payload::Message("Hello".into()));
}

#[test]
fn other_parameters_are_shown_indented() {
    assert_eq!(
        payload_body("eth_sendTransaction", "[{\"to\":\"0x1\"}]"),
        Payload::Dump("[\n  {\n    \"to\": \"0x1\"\n  }\n]".into()),
    );
    assert_eq!(payload_body("personal_sign", "{}"), Payload::Dump("{}".into()));
    assert_eq!(
        payload_body("personal_sign", "[1, \"x\"]"),
        Payload::Dump("[\n  1,\n  \"x\"\n]".into()),
    );
    assert_eq!(payload_body("personal_sign", "not json"), Payload::Dump("not json".into()));
}

#[test]
fn a_payload_is_a_message_only_for_the_method_that_signs_one() {
    let items = Some(texts(&["0x4b616f", SOMEONE]));
    assert_eq!(
        payload_of("personal_sign", &items, Some("[..]".into()), "[]"),
        Payload::Message("Kao".into()),
    );
    assert_eq!(
        payload_of("eth_sign", &items, Some("[..]".into()), "[]"),
        Payload::Dump("[..]".into()),
    );
    assert_eq!(payload_of("personal_sign", &None, None, "[]"), Payload::Dump("[]".into()));
}

// ── expiry ──────────────────────────────────────────────────────────

#[test]
fn format_expiry_renders_days_when_far() {
    let now = 1_700_000_000u64;
    let exp = now + 6 * 86400 + 14 * 3600;
    assert_eq!(format_expiry(now, exp), "in 6d 14h");
}

#[test]
fn format_expiry_renders_minutes_when_under_an_hour() {
    let now = 1_700_000_000u64;
    let exp = now + 35 * 60;
    assert_eq!(format_expiry(now, exp), "in 35m");
}

#[test]
fn format_expiry_renders_expired_when_past() {
    assert_eq!(format_expiry(100, 50), "expired");
}

#[test]
fn format_expiry_drops_empty_hours_and_counts_seconds() {
    assert_eq!(format_expiry(0, 2 * 86400 + 3599), "in 2d");
    assert_eq!(format_expiry(0, 86399), "in 23h");
    assert_eq!(format_expiry(0, 59), "in 59s");
    assert_eq!(format_expiry(7, 7), "expired");
}

// ── grant preview ───────────────────────────────────────────────────

fn supported() -> Vec<Method> {
    let m = |id: &str, label: &str| Method { id: id.into(), label: Some(label.into()) };
    vec![
        m("personal_sign", "Sign messages"),
        m("eth_sendTransaction", "Send transactions"),
        m("eth_signTypedData", "Sign typed data"),
        m("eth_signTypedData_v4", "Sign typed data"),
    ]
}

fn namespaces(entries: &[(&str, &[&str], &[&str])]) -> Scopes {
    let mut scopes = Scopes::new();
    for (key, chains, methods) in entries {
        scopes.insert(Namespace {
            key: key.to_string(),
            chains: chains.iter().map(|s| s.to_string()).collect(),
            methods: methods.iter().map(|s| s.to_string()).collect(),
        });
    }
    scopes
}

fn ui_proposal(
    required: &[(&str, &[&str], &[&str])],
    optional: &[(&str, &[&str], &[&str])],
) -> UiProposal {
    UiProposal {
        proposal_id: 1,
        peer: PeerMetadata { name: "test".into(), url: String::new() },
        required: namespaces(required),
        optional: namespaces(optional),
    }
}

fn preview(p: &UiProposal) -> GrantPreview {
    compute_grant_preview(p, &supported())
}

fn grants(g: &GrantPreview, verb: &str) -> bool {
    g.granted_methods.iter().any(|m| m == verb)
}

#[test]
fn grant_preview_drops_unsupported_chains_and_methods() {
    let p = ui_proposal(
        &[],
        &[(
            "eip155",
            &[
                "eip155:1",
                "eip155:10",
                "eip155:8453",
                "eip155:137",
                "eip155:42161",
                "eip155:43114",
            ],
            &[
                "personal_sign",
                "eth_sendTransaction",
                "eth_signTypedData_v4",
                "wallet_addEthereumChain",
                "wallet_scanQRCode",
            ],
        )],
    );
    let g = preview(&p);
    assert_eq!(g.granted_chains, vec!["Mainnet", "Base", "Optimism"]);
    assert!(grants(&g, "Sign messages"));
    assert!(grants(&g, "Send transactions"));
    assert!(grants(&g, "Sign typed data"));
    assert_eq!(g.dropped_chains, 3);
    assert_eq!(g.dropped_methods, 2);
    assert!(!g.required_dropped);
}

#[test]
fn grant_preview_dedupes_across_required_and_optional() {
    let p = ui_proposal(
        &[("eip155", &["eip155:1"], &["personal_sign"])],
        &[("eip155", &["eip155:1"], &["personal_sign"])],
    );
    let g = preview(&p);
    assert_eq!(g.granted_chains, vec!["Mainnet"]);
    assert_eq!(g.granted_methods, vec!["Sign messages"]);
    assert_eq!(g.dropped_chains, 0);
    assert_eq!(g.dropped_methods, 0);
}

#[test]
fn grant_preview_collapses_typed_data_v4_into_one_label() {
    let p = ui_proposal(
        &[],
        &[("eip155", &["eip155:1"], &["eth_signTypedData", "eth_signTypedData_v4"])],
    );
    let g = preview(&p);
    assert_eq!(g.granted_methods, vec!["Sign typed data"]);
    assert_eq!(g.dropped_methods, 0);
}

#[test]
fn grant_preview_flags_required_dropped() {
    let p = ui_proposal(
        &[("eip155", &["eip155:137"], &["personal_sign"])],
        &[("eip155", &["eip155:1"], &["personal_sign"])],
    );
    let g = preview(&p);
    assert!(g.required_dropped);
    assert_eq!(g.granted_chains, vec!["Mainnet"]);
}

#[test]
fn grant_preview_ignores_non_eip155_namespaces() {
    let p = ui_proposal(
        &[],
        &[
            ("eip155", &["eip155:1"], &["personal_sign"]),
            ("solana", &["solana:mainnet"], &["solana_signMessage"]),
        ],
    );
    let g = preview(&p);
    assert_eq!(g.granted_chains, vec!["Mainnet"]);
    assert_eq!(g.granted_methods, vec!["Sign messages"]);
    assert_eq!(g.dropped_chains, 0);
    assert_eq!(g.dropped_methods, 0);
}

#[test]
fn a_foreign_scope_is_ignored_wherever_it_stands() {
    let ours: (&str, &[&str], &[&str]) = ("eip155", &["eip155:1"], &["personal_sign"]);
    let plain = preview(&ui_proposal(&[ours], &[]));
    for foreign in ["cosmos", "solana"] {
        let other: (&str, &[&str], &[&str]) = (foreign, &["x:1"], &["x_sign"]);
        assert_eq!(preview(&ui_proposal(&[ours, other], &[])), plain);
        assert_eq!(preview(&ui_proposal(&[ours], &[other])), plain);
    }
}

#[test]
fn scopes_are_kept_by_key_and_once_each() {
    let scopes = namespaces(&[
        ("solana", &["s"], &[]),
        ("eip155", &["old"], &[]),
        ("cosmos", &["c"], &[]),
        ("eip155:10", &["t"], &[]),
        ("eip155", &["new"], &[]),
    ]);
    let shown: Vec<(&str, &str)> =
        scopes.list().iter().map(|n| (n.key.as_str(), n.chains[0].as_str())).collect();
    assert_eq!(shown, [("cosmos", "c"), ("eip155", "new"), ("eip155:10", "t"), ("solana", "s")]);
    assert_eq!(scopes.clone(), scopes);
}

#[test]
fn grant_preview_flags_a_required_method_too() {
    let p = ui_proposal(&[("eip155", &["eip155:1"], &["wallet_scanQRCode"])], &[]);
    let g = preview(&p);
    assert!(g.required_dropped);
    assert_eq!(g.dropped_methods, 1);
    assert!(g.granted_methods.is_empty());
}

#[test]
fn repeated_requests_for_an_unknown_network_count_once() {
    let p = ui_proposal(
        &[("eip155", &["eip155:137", "eip155:137"], &[])],
        &[("eip155", &["eip155:137"], &[])],
    );
    assert_eq!(preview(&p).dropped_chains, 1);
}

// ── the modal ───────────────────────────────────────────────────────

fn state(modal: Option<WcModal>, queue_len: usize) -> WcState {
    WcState {
        current_modal: modal,
        queue_len,
        sessions: Vec::new(),
        status: WcStatus::Idle,
        last_error: None,
    }
}

fn proposal_shown(expanded: bool, queue_len: usize) -> (ProposalBody, Message) {
    let p = ui_proposal(
        &[("eip155", &["eip155:137"], &["personal_sign"])],
        &[("eip155", &["eip155:1"], &[])],
    );
    match view(&state(Some(WcModal::Proposal(p)), queue_len), expanded, &supported()) {
        (Body::Proposal(b), m) => (b, m),
        other => panic!("expected a proposal, got {other:?}"),
    }
}

#[test]
fn a_proposal_shows_who_asks_and_what_is_granted() {
    let (b, beside) = proposal_shown(false, 1);
    assert_eq!(b.peer.name, "test");
    assert_eq!(b.peer.url, "no origin");
    assert_eq!(b.grant.networks, "Mainnet");
    assert_eq!(b.grant.actions, "Sign messages");
    assert_eq!(
        b.grant.footer.as_deref(),
        Some("1 other network the dApp asked for won't be granted."),
    );
    assert!(b.grant.warning.is_some());
    assert_eq!(b.badge, None);
    assert_eq!(b.details_label, "Show details ▾");
    assert!(b.details.is_none());
    assert_eq!(b.reject, Message::WcRejectProposal(1));
    assert_eq!(b.approve, Message::WcApproveProposal(1));
    assert_eq!(beside, Message::WcRejectProposal(1), "a click beside the modal rejects");
}

#[test]
fn the_details_of_a_proposal_list_what_was_asked_for() {
    let (b, _) = proposal_shown(true, 3);
    assert_eq!(b.badge.as_deref(), Some("1 of 3"));
    assert_eq!(b.details_label, "Hide details ▴");
    let (required, optional) = b.details.unwrap();
    assert_eq!(required[0].chains, "chains: eip155:137");
    assert_eq!(required[0].methods, "methods: personal_sign");
    assert_eq!(optional[0].methods, "methods: (no methods)");
}

fn request_shown(method: &str, params: &str) -> (RequestBody, Message) {
    let r = UiRequest {
        request_id: 7,
        peer: PeerMetadata { name: String::new(), url: "https://example.org".into() },
        method: method.into(),
        chain_id: "eip155:1".into(),
        params: params.into(),
    };
    match view(&state(Some(WcModal::Request(r)), 0), false, &supported()) {
        (Body::Request(b), m) => (b, m),
        other => panic!("expected a request, got {other:?}"),
    }
}

#[test]
fn a_request_is_titled_by_its_method() {
    let title = |m: &str| request_shown(m, "[]").0.title;
    assert_eq!(title("personal_sign"), "Sign message");
    assert_eq!(title("eth_signTypedData"), "Sign typed data");
    assert_eq!(title("eth_signTypedData_v4"), "Sign typed data");
    assert_eq!(title("eth_sendTransaction"), "Send transaction");
    assert_eq!(title("eth_signTransaction"), "Sign transaction");
    assert_eq!(title("eth_accounts"), "dApp request");
}

#[test]
fn a_transaction_request_warns_that_it_will_be_refused() {
    let (b, beside) = request_shown("eth_sendTransaction", "[]");
    assert!(b.warning.unwrap().contains("not-implemented"));
    assert_eq!(b.peer.name, "Unknown dApp");
    assert_eq!(b.method, "method · eth_sendTransaction");
    assert_eq!(b.chain, "chain · eip155:1");
    assert_eq!(b.approve, Message::WcApproveRequest(7));
    assert_eq!(beside, Message::WcRejectRequest(7));
    assert_eq!(request_shown("personal_sign", "[]").0.warning, None);
}

#[test]
fn nothing_waiting_shows_nothing() {
    assert_eq!(view(&state(None, 0), false, &supported()).0, Body::Empty);
}

// ── sessions ────────────────────────────────────────────────────────

#[test]
fn a_session_shows_its_scopes_and_when_it_ends() {
    let mut wc = state(None, 0);
    wc.sessions = vec![UiSession {
        topic: B256 { hi: 1, lo: 2 },
        peer: PeerMetadata { name: "Curve".into(), url: "https://curve.finance".into() },
        namespaces: namespaces(&[("eip155", &["eip155:1", "eip155:10"], &["personal_sign"])]),
        expiry: 3600,
    }];
    let rows = sessions_view(&wc, 0);
    assert_eq!(rows.len(), 1);
    assert_eq!(rows[0].peer.name, "Curve");
    assert_eq!(rows[0].scopes[0].chains, "chains: eip155:1, eip155:10");
    assert_eq!(rows[0].expiry, "expires in 1h");
    assert_eq!(rows[0].disconnect, Message::WcDisconnectSession(B256 { hi: 1, lo: 2 }));
    assert!(sessions_view(&state(None, 0), 0).is_empty());
}

#[test]
fn the_last_error_comes_before_the_status() {
    let mut wc = state(None, 0);
    assert_eq!(paste_card(&wc).status, "WalletConnect · idle");
    assert_eq!(paste_card(&wc).tone, Tone::Quiet);
    wc.status = WcStatus::Connecting;
    assert_eq!(paste_card(&wc).status, "WalletConnect · connecting…");
    assert_eq!(paste_card(&wc).tone, Tone::Busy);
    wc.status = WcStatus::Connected;
    assert_eq!(paste_card(&wc).status, "WalletConnect · relay connected · no sessions yet");
    wc.status = WcStatus::Failed("no relay".into());
    assert_eq!(paste_card(&wc).status, "WalletConnect · failed: no relay");
    assert_eq!(paste_card(&wc).tone, Tone::Bad);
    assert_eq!(paste_card(&wc).dismiss, None);
    wc.last_error = Some("bad uri".into());
    assert_eq!(paste_card(&wc).status, "WalletConnect · ⚠ bad uri");
    assert_eq!(paste_card(&wc).dismiss, Some(Message::WcDismissError));
    assert_eq!(paste_card(&wc).submit, Message::WcSubmitUri);
}

use alloy::primitives as eth;
use wallet_dashboard::calendar::civil_from_days;
use wallet_dashboard::calendar::format_iso_utc;
use wallet_dashboard::chain::Chain;
use wallet_dashboard::chain::NetworkId;
use wallet_dashboard::function_panel::DecodeResult;
use wallet_dashboard::function_panel::Headline;
use wallet_dashboard::primitives::Address;
use wallet_dashboard::primitives::B256;
use wallet_dashboard::primitives::U256;
use wallet_dashboard::sign_review::economics::economics_card;
use wallet_dashboard::sign_review::legs::leg_card;
use wallet_dashboard::sign_review::legs::sub_leg_card;
use wallet_dashboard::sign_review::overlay::view;
use wallet_dashboard::sign_review::overlay::waiting_card;
use wallet_dashboard::sign_review::overlay::Button;
use wallet_dashboard::sign_review::overlay::Footer;
use wallet_dashboard::sign_review::steps::delegation_panel;
use wallet_dashboard::sign_review::steps::erc8213_rows;
use wallet_dashboard::sign_review::steps::fingerprints_section;
use wallet_dashboard::sign_review::steps::operation_banner;
use wallet_dashboard::sign_review::steps::safe_exec_panel;
use wallet_dashboard::sign_review::steps::safe_message_panel;
use wallet_dashboard::sign_review::steps::step_card;
use wallet_dashboard::sign_review::steps::Digest;
use wallet_dashboard::sign_review::steps::Fingerprint;
use wallet_dashboard::sign_review::steps::StepPanel;
use wallet_dashboard::sign_review::steps::CALLDATA_DIGEST_LABEL;
use wallet_dashboard::sign_review::steps::DOMAIN_HASH_LABEL;
use wallet_dashboard::sign_review::steps::EIP712_DIGEST_LABEL;
use wallet_dashboard::sign_review::steps::MESSAGE_HASH_LABEL;
use wallet_dashboard::sign_review::typed::format_expiry as order_expiry;
use wallet_dashboard::sign_review::typed::slippage_label;
use wallet_dashboard::sign_review::typed::TypedValue;
use wallet_dashboard::sign_review::BatchEconomics;
use wallet_dashboard::sign_review::CowHost;
use wallet_dashboard::sign_review::DelegationReview;
use wallet_dashboard::sign_review::Eip712Digests;
use wallet_dashboard::sign_review::Message;
use wallet_dashboard::sign_review::MoveDirection;
use wallet_dashboard::sign_review::MovedAmount;
use wallet_dashboard::sign_review::OrderReview;
use wallet_dashboard::sign_review::ReviewLeg;
use wallet_dashboard::sign_review::Row;
use wallet_dashboard::sign_review::SafeExecReview;
use wallet_dashboard::sign_review::SafeMessageReview;
use wallet_dashboard::sign_review::SafeSendReview;
use wallet_dashboard::sign_review::SendReview;
use wallet_dashboard::sign_review::SignAction;
use wallet_dashboard::sign_review::SignReview;
use wallet_dashboard::sign_review::SignStep;
use wallet_dashboard::sign_review::SigningKind;
use wallet_dashboard::sign_review::SigningOwner;
use wallet_dashboard::txbuilder::multisend_call_only_1_3_0;
use wallet_dashboard::txbuilder::multisend_call_only_1_4_1;

const NOW: u64 = 1_700_000_000;

fn repeat_address(b: u8) -> Address {
    Address { hi: u32::from_be_bytes([b; 4]), lo: u128::from_be_bytes([b; 16]) }
}

fn repeat_hash(b: u8) -> B256 {
    B256 { hi: u128::from_be_bytes([b; 16]), lo: u128::from_be_bytes([b; 16]) }
}

fn bytes_of(h: B256) -> [u8; 32] {
    let mut out = [0u8; 32];
    out[..16].copy_from_slice(&h.hi.to_be_bytes());
    out[16..].copy_from_slice(&h.lo.to_be_bytes());
    out
}

/// The digest that EIP-712 makes of a domain and a message.
fn digests(domain_hash: B256, message_hash: B256) -> Eip712Digests {
    let mut all = vec![0x19, 0x01];
    all.extend_from_slice(&bytes_of(domain_hash));
    all.extend_from_slice(&bytes_of(message_hash));
    let h: [u8; 32] = eth::keccak256(all).into();
    let digest = B256 {
        hi: u128::from_be_bytes(h[..16].try_into().unwrap()),
        lo: u128::from_be_bytes(h[16..].try_into().unwrap()),
    };
    Eip712Digests { digest, domain_hash, message_hash }
}

fn mainnet() -> NetworkId {
    NetworkId::Builtin(Chain::Mainnet)
}

fn leg_with(calldata: Vec<u8>) -> ReviewLeg {
    ReviewLeg {
        title: "leg".into(),
        to: repeat_address(0x01),
        value: U256 { hi: 0, lo: 0 },
        net: mainnet(),
        calldata,
        decoded: Box::new(DecodeResult::Empty),
        headline: None,
        sub_legs: Vec::new(),
        self_admin: None,
    }
}

fn order_with(eip712: Eip712Digests) -> OrderReview {
    OrderReview {
        chain: Chain::Mainnet,
        sell_amount: "1".into(),
        sell_symbol: "A".into(),
        buy_amount: "2".into(),
        buy_symbol: "B".into(),
        min_received: "2".into(),
        receiver: repeat_address(0x5A),
        valid_to: 1_900_000_000,
        slippage_bps: 50,
        settlement: repeat_address(0x03),
        native: false,
        eip712,
    }
}

fn hash_row(label: &'static str, h: B256) -> Fingerprint {
    Fingerprint { label, digest: Digest::Hash(h) }
}

fn calldata_row(label: &'static str, data: Vec<u8>) -> Fingerprint {
    Fingerprint { label, digest: Digest::OfCalldata(data) }
}

fn cancel_review() -> SignReview {
    SignReview::pending(
        "Cancel order".into(),
        None,
        Vec::new(),
        None,
        0,
        SignAction::CowCancel { host: CowHost::Apps, uid: "0xabc".into() },
    )
}

// ── labels and times ────────────────────────────────────────────────

#[test]
fn slippage_label_formats_bps() {
    assert_eq!(slippage_label(50), "0.5%");
    assert_eq!(slippage_label(200), "2%");
    assert_eq!(slippage_label(10), "0.1%");
}

#[test]
fn slippage_keeps_as_many_decimals_as_it_needs() {
    assert_eq!(slippage_label(0), "0%");
    assert_eq!(slippage_label(5), "0.05%");
    assert_eq!(slippage_label(1234), "12.34%");
    assert_eq!(slippage_label(u16::MAX), "655.35%");
}

#[test]
fn format_iso_utc_epoch() {
    assert_eq!(format_iso_utc(0), "1970-01-01 00:00 UTC");
}

#[test]
fn utc_texts_sort_as_the_times_do() {
    let times = [0, 59, 60, 3600, 86_399, 86_400, 951_782_399, 951_782_400, 253_402_300_799];
    assert_eq!(format_iso_utc(253_402_300_799), "9999-12-31 23:59 UTC");
    for s in times {
        assert_eq!(format_iso_utc(s).len(), 20);
        assert!(format_iso_utc(s).ends_with(" UTC"));
        for t in times {
            let (a, b) = (format_iso_utc(s), format_iso_utc(t));
            assert_eq!(a == b, s / 60 == t / 60);
            assert!(s > t || a <= b);
        }
    }
}

#[test]
fn format_iso_utc_knows_leap_days_and_clock_time() {
    assert_eq!(format_iso_utc(1_600_000_000), "2020-09-13 12:26 UTC");
    assert_eq!(format_iso_utc(951_782_399), "2000-02-28 23:59 UTC");
    assert_eq!(format_iso_utc(951_782_400), "2000-02-29 00:00 UTC");
    assert_eq!(format_iso_utc(4_107_542_400), "2100-03-01 00:00 UTC");
}

#[test]
fn civil_dates_follow_the_gregorian_calendar() {
    assert_eq!(civil_from_days(0), (1970, 1, 1));
    assert_eq!(civil_from_days(-1), (1969, 12, 31));
    assert_eq!(civil_from_days(11_016), (2000, 2, 29));
    assert_eq!(civil_from_days(-719_468), (0, 3, 1));
}

#[test]
fn an_order_expiry_says_how_long_is_left() {
    let at = 1_600_000_000u32;
    assert_eq!(order_expiry(at, 0), "2020-09-13 12:26 UTC", "the time is not known");
    assert_eq!(order_expiry(at, at as u64), "2020-09-13 12:26 UTC", "already past");
    assert_eq!(order_expiry(at, at as u64 - 89), "2020-09-13 12:26 UTC (in 89s)");
    assert_eq!(order_expiry(at, at as u64 - 90), "2020-09-13 12:26 UTC (in 1 min)");
    assert_eq!(order_expiry(at, at as u64 - 7_200), "2020-09-13 12:26 UTC (in 2 hr)");
}

// ── reviews ─────────────────────────────────────────────────────────

#[test]
fn pending_review_starts_without_signing_progress() {
    let review = cancel_review();
    assert!(review.signing_progress.is_none());
    assert_eq!(review.phase(), "prepare");
}

#[test]
fn safe_execute_ceremony_carries_every_owner() {
    let kind = SigningKind::SafeExecute {
        owners: vec![
            SigningOwner { label: "Ledger".into(), address: repeat_address(0x11), hardware: true },
            SigningOwner { label: "Hot key".into(), address: repeat_address(0x22), hardware: false },
        ],
        separate_gas_payer: true,
    };
    let card = waiting_card(&Some(kind.clone()));
    let SigningKind::SafeExecute { owners, separate_gas_payer } = kind else {
        panic!("expected SafeExecute");
    };
    assert_eq!(owners.len(), 2);
    assert!(owners[0].hardware);
    assert!(!owners[1].hardware);
    assert!(separate_gas_payer);
    assert_eq!(card.title, "Waiting for signatures");
    assert_eq!(card.owners.len(), 2);
    assert_eq!(card.owners[0].head, "1. Ledger · 0x1111…1111");
    assert_eq!(card.owners[0].how, "confirm on device");
    assert_eq!(card.owners[1].head, "2. Hot key · 0x2222…2222");
    assert_eq!(card.owners[1].how, "signs automatically");
    assert_eq!(card.after, Some("Then a linked account broadcasts it and pays the gas."));
}

#[test]
fn a_ceremony_of_one_asks_for_one_signature() {
    let owner = SigningOwner { label: "Ledger".into(), address: repeat_address(0x11), hardware: true };
    let alone = SigningKind::SafeExecute { owners: vec![owner.clone()], separate_gas_payer: false };
    let card = waiting_card(&Some(alone));
    assert_eq!(card.title, "Waiting for a signature");
    assert_eq!(card.after, Some("Then owner 1 re-signs to broadcast it and pay the gas."));
    let proposed = waiting_card(&Some(SigningKind::SafePropose { owner }));
    assert_eq!(proposed.notice, "Approve the Safe transaction on your device to propose it.");
    assert_eq!(proposed.owners.len(), 1);
    let sent = waiting_card(&Some(SigningKind::Broadcasting { hash: repeat_hash(7) }));
    assert_eq!(sent.hash, Some(repeat_hash(7)));
    let both = waiting_card(&Some(SigningKind::Eip7702Batch { fresh_authorization: true }));
    assert!(both.notice.starts_with("Two signatures"));
    assert!(waiting_card(&None).owners.is_empty());
}

#[test]
fn cow_order_maps_to_the_expected_typed_rows() {
    let o = OrderReview {
        chain: Chain::Mainnet,
        sell_amount: "1.5".into(),
        sell_symbol: "WETH".into(),
        buy_amount: "4200".into(),
        buy_symbol: "USDC".into(),
        min_received: "4158".into(),
        receiver: repeat_address(0xAA),
        valid_to: 1_600_000_000,
        slippage_bps: 50,
        settlement: repeat_address(0x55),
        native: false,
        eip712: digests(repeat_hash(0), repeat_hash(0)),
    };
    let m = o.to_typed_model(NOW);
    assert_eq!(m.kind_name, "CoW order — EIP-712 signature");
    assert_eq!(m.headline.as_deref(), Some("Sell 1.5 WETH for at least 4158 USDC"));
    let labels: Vec<&str> = m.rows.iter().map(|r| r.label.as_str()).collect();
    assert_eq!(
        labels,
        vec![
            "You sell",
            "Receive (est.)",
            "Min received",
            "Receiver",
            "Order type",
            "Solver fee",
            "Expires",
            "Settlement",
            "Network",
            "Settles",
        ],
    );
    assert_eq!(m.rows[0].value, TypedValue::Text("1.5 WETH".into()));
    assert_eq!(m.rows[1].value, TypedValue::Text("4200 USDC".into()));
    assert_eq!(m.rows[2].value, TypedValue::Text("4158 USDC · 0.5% slippage".into()));
    assert_eq!(m.rows[3].value, TypedValue::Addr(o.receiver));
    assert_eq!(m.rows[6].value, TypedValue::Text("2020-09-13 12:26 UTC".into()));
    assert_eq!(m.rows[7].value, TypedValue::Addr(o.settlement));
    assert_eq!(m.rows[8].value, TypedValue::Text("Ethereum Mainnet".into()));
    assert_eq!(m.rows[9].value, TypedValue::Text("off-chain via solvers · gasless".into()));
}

// ── fingerprints ────────────────────────────────────────────────────

#[test]
fn erc8213_rows_raw_tx_is_the_calldata_digest() {
    let calldata = vec![0x11, 0x22, 0x33];
    let rows = erc8213_rows(&SignStep::RawTx(leg_with(calldata.clone())));
    assert_eq!(rows, vec![calldata_row(CALLDATA_DIGEST_LABEL, calldata)]);
}

#[test]
fn erc8213_rows_empty_calldata_leg_has_no_fingerprints() {
    assert!(erc8213_rows(&SignStep::RawTx(leg_with(Vec::new()))).is_empty());
}

fn delegation(already_active: bool, nonce: Option<u64>, digest: Option<B256>) -> DelegationReview {
    DelegationReview {
        delegate: repeat_address(0x4C),
        delegate_label: "EF · Simple7702Account".into(),
        authority: repeat_address(0xE0),
        chain_id: 1,
        net: mainnet(),
        already_active,
        incumbent: None,
        auth_nonce: nonce,
        auth_digest: digest,
    }
}

#[test]
fn erc8213_rows_delegation_has_no_fingerprints() {
    let d = delegation(true, None, None);
    assert!(erc8213_rows(&SignStep::Delegation(d)).is_empty());
}

#[test]
fn erc8213_rows_delegation_is_the_authorization_digest() {
    let h = repeat_hash(0x7E);
    let d = delegation(false, Some(42), Some(h));
    assert_eq!(
        erc8213_rows(&SignStep::Delegation(d)),
        vec![hash_row("Authorization Digest (EIP-7702)", h)],
    );
}

#[test]
fn erc8213_rows_typed_is_the_full_eip712_triple() {
    let d = digests(repeat_hash(0xA1), repeat_hash(0xA2));
    let rows = erc8213_rows(&SignStep::Typed(order_with(d)));
    assert_eq!(
        rows,
        vec![
            hash_row(EIP712_DIGEST_LABEL, d.digest),
            hash_row(DOMAIN_HASH_LABEL, d.domain_hash),
            hash_row(MESSAGE_HASH_LABEL, d.message_hash),
        ],
    );
}

fn safe_exec(inner: ReviewLeg, operation: u8, nonce: u64, onchain_nonce: u64) -> SafeExecReview {
    let d = digests(repeat_hash(0xB1), repeat_hash(0xB2));
    SafeExecReview {
        safe: repeat_address(0x5A),
        nonce,
        threshold: 2,
        owner_count: 3,
        safe_tx_hash: d.digest,
        eip712: d,
        inner: Box::new(inner),
        operation,
        guard: None,
        onchain_nonce,
    }
}

#[test]
fn erc8213_rows_safe_exec_shows_the_signed_hash_and_inner_calldata() {
    let d = digests(repeat_hash(0xB1), repeat_hash(0xB2));
    let inner = vec![0xde, 0xad, 0xbe, 0xef];
    let x = safe_exec(leg_with(inner.clone()), 1, 3, 3);
    let rows = erc8213_rows(&SignStep::SafeExec(x));
    assert_eq!(
        rows,
        vec![
            hash_row(EIP712_DIGEST_LABEL, d.digest),
            hash_row(DOMAIN_HASH_LABEL, d.domain_hash),
            hash_row(MESSAGE_HASH_LABEL, d.message_hash),
            calldata_row("Calldata Digest (inner call)", inner),
        ],
    );
}

fn safe_message(d: Eip712Digests, order_digest: B256) -> SafeMessageReview {
    SafeMessageReview {
        order: order_with(digests(repeat_hash(0), repeat_hash(0))),
        safe: repeat_address(0x5A),
        threshold: 2,
        owner_count: 3,
        order_digest,
        message_hash: d.digest,
        eip712: d,
    }
}

#[test]
fn erc8213_rows_safe_message_shows_the_triple_and_the_order_digest() {
    let d = digests(repeat_hash(0xC1), repeat_hash(0xC2));
    let order_digest = repeat_hash(0xBB);
    let rows = erc8213_rows(&SignStep::SafeMessage(safe_message(d, order_digest)));
    assert_eq!(rows[0], hash_row(EIP712_DIGEST_LABEL, d.digest));
    assert_eq!(rows[1].label, DOMAIN_HASH_LABEL);
    assert_eq!(rows[2].label, MESSAGE_HASH_LABEL);
    assert_eq!(rows[3], hash_row("Order Digest (CoW EIP-712)", order_digest));
}

#[test]
fn a_send_shows_the_digest_it_was_given() {
    let h = repeat_hash(0x31);
    assert_eq!(
        erc8213_rows(&SignStep::Send(SendReview { calldata_digest: Some(h) })),
        vec![hash_row(CALLDATA_DIGEST_LABEL, h)],
    );
    assert!(erc8213_rows(&SignStep::Send(SendReview { calldata_digest: None })).is_empty());
    let d = digests(repeat_hash(1), repeat_hash(2));
    let rows = erc8213_rows(&SignStep::SafeSend(SafeSendReview {
        eip712: d,
        inner_calldata_digest: Some(h),
    }));
    assert_eq!(rows.len(), 4);
    assert_eq!(rows[3], hash_row("Calldata Digest (inner call)", h));
}

#[test]
fn fingerprints_section_defaults_collapsed() {
    assert!(!cancel_review().show_fingerprints);
}

#[test]
fn a_folded_section_shows_no_hash_and_an_empty_one_is_left_out() {
    let rows = vec![hash_row(EIP712_DIGEST_LABEL, repeat_hash(1))];
    let folded = fingerprints_section(false, rows.clone()).unwrap();
    assert_eq!(folded.action, "verify hashes");
    assert!(folded.rows.is_empty());
    let open = fingerprints_section(true, rows.clone()).unwrap();
    assert_eq!(open.action, "hide");
    assert_eq!(open.rows, rows);
    assert!(fingerprints_section(true, Vec::new()).is_none());
}

// ── legs ────────────────────────────────────────────────────────────

fn authored() -> Headline {
    Headline {
        text: "Send 1 DAI".into(),
        note: None,
        via_proxy: false,
        caution: None,
        clear_signed: true,
    }
}

fn shows_destination(rows: &[Row]) -> bool {
    rows.iter().any(|r| matches!(r, Row::AddressField { label, addr }
        if label == "To" && *addr == repeat_address(0x01)))
}

#[test]
fn an_authored_leg_folds_and_another_does_not() {
    let plain = leg_with(vec![1]);
    assert!(shows_destination(&leg_card(&plain, false).rows));
    let mut told = leg_with(vec![1]);
    told.headline = Some(authored());
    let folded = leg_card(&told, false);
    assert!(!shows_destination(&folded.rows));
    assert!(matches!(folded.rows.last(), Some(Row::DetailToggle { shown: false })));
    assert!(shows_destination(&leg_card(&told, true).rows));
    assert!(!shows_destination(&sub_leg_card(&told, false).rows));
}

#[test]
fn a_call_to_oneself_is_announced_before_the_headline() {
    let mut leg = leg_with(vec![1]);
    leg.headline = Some(authored());
    leg.self_admin = Some("adds an owner".into());
    let rows = leg_card(&leg, false).rows;
    assert!(matches!(&rows[1], Row::Banner { title, body }
        if title == "⚠ THIS CALL TARGETS THE SIGNING ACCOUNT" && body == "adds an owner"));
    assert!(matches!(&rows[2], Row::Headline(_)));
}

#[test]
fn a_batch_is_captioned_with_its_calls() {
    let mut leg = leg_with(vec![1]);
    leg.sub_legs = vec![leg_with(vec![2]), leg_with(vec![3])];
    let card = leg_card(&leg, true);
    assert_eq!(
        card.caption.as_deref(),
        Some("This transaction performs 2 calls — all-or-nothing"),
    );
    assert_eq!(card.subs.len(), 2);
    let pays = |rows: &[Row]| rows.iter().any(|r| matches!(r, Row::EtherField { .. }));
    assert!(!pays(&card.subs[0].rows), "a call without value has no line for it");
    leg.sub_legs[0].value = U256 { hi: 0, lo: 5 };
    assert!(pays(&leg_card(&leg, true).subs[0].rows));
}

// ── Safe transactions and delegations ───────────────────────────────

#[test]
fn only_a_plain_call_carries_no_banner() {
    let banner = |r: Row| match r {
        Row::Banner { title, body } => (title, body),
        other => panic!("expected a banner, got {other:?}"),
    };
    let (title, body) = banner(operation_banner(1, multisend_call_only_1_3_0()));
    assert_eq!(title, "⚠ DELEGATECALL");
    assert!(body.contains("canonical Safe MultiSendCallOnly 1.3.0"), "{body}");
    let (_, body) = banner(operation_banner(1, multisend_call_only_1_4_1()));
    assert!(body.contains("MultiSendCallOnly 1.4.1"), "{body}");
    let (_, body) = banner(operation_banner(1, repeat_address(0x77)));
    assert!(body.contains("0x7777…7777 is NOT a canonical"), "{body}");
    let (title, body) = banner(operation_banner(9, repeat_address(0x77)));
    assert_eq!(title, "⚠ MALFORMED OPERATION");
    assert!(body.contains("operation = 9"), "{body}");
    let (plain, _, _) = safe_exec_panel(&safe_exec(leg_with(vec![1]), 0, 3, 3), false);
    assert!(!plain.iter().any(|r| matches!(r, Row::Banner { .. })));
    let (odd, _, _) = safe_exec_panel(&safe_exec(leg_with(vec![1]), 1, 3, 3), false);
    assert!(odd.iter().any(|r| matches!(r, Row::Banner { .. })));
}

fn field<'a>(rows: &'a [Row], name: &str) -> Option<&'a str> {
    rows.iter().find_map(|r| match r {
        Row::Field { label, value } if label == name => Some(value.as_str()),
        _ => None,
    })
}

#[test]
fn a_safe_transaction_says_what_is_queued_ahead() {
    let (rows, _, foot) = safe_exec_panel(&safe_exec(leg_with(vec![1]), 0, 5, 3), false);
    assert_eq!(field(&rows, "Nonce"), Some("5 (Safe is at 3, 2 queued ahead)"));
    assert_eq!(field(&rows, "Operation"), Some("0 (call)"));
    assert!(matches!(&rows[1], Row::Heading(h) if h == "2-of-3 owners must sign"));
    assert!(rows.iter().any(|r| matches!(r, Row::Note(n)
        if n.contains("2 transactions queued at nonces 3–4"))));
    assert!(matches!(&foot[0], Row::HashField { label, .. } if label.contains("SafeTx hash")));
    let now = safe_exec(leg_with(vec![1]), 0, 3, 3);
    assert_eq!(now.queued_ahead(), 0);
    let (rows, _, _) = safe_exec_panel(&now, false);
    assert_eq!(field(&rows, "Nonce"), Some("3"));
    let behind = safe_exec(leg_with(vec![1]), 0, 2, 9);
    assert_eq!(behind.queued_ahead(), 0, "a nonce already used is ahead of nothing");
}

#[test]
fn a_guard_is_named_and_explained() {
    let mut x = safe_exec(leg_with(vec![1]), 0, 3, 3);
    x.guard = Some(repeat_address(0x66));
    let (rows, _, _) = safe_exec_panel(&x, false);
    assert!(rows.iter().any(|r| matches!(r, Row::AddressField { label, addr }
        if label == "Transaction guard" && *addr == repeat_address(0x66))));
    assert!(rows.iter().any(|r| matches!(r, Row::Note(n) if n.contains("transaction guard"))));
}

#[test]
fn a_delegation_names_the_code_it_displaces() {
    let mut d = delegation(false, Some(42), None);
    assert_eq!(d.replacing(), None);
    d.incumbent = Some(d.delegate);
    assert_eq!(d.replacing(), None, "the same code displaces nothing");
    d.incumbent = Some(repeat_address(0x99));
    assert_eq!(d.replacing(), Some(repeat_address(0x99)));
    let rows = delegation_panel(&d);
    assert!(matches!(&rows[1], Row::Heading(h)
        if h == "Your account will be re-pointed to different code"));
    assert!(rows.iter().any(|r| matches!(r, Row::AddressField { label, .. }
        if label == "Currently delegated to")));
    assert_eq!(field(&rows, "Scoped to"), Some("Ethereum Mainnet · chain id 1"));
    assert_eq!(field(&rows, "Authorization nonce"), Some("42"));
    assert!(matches!(rows.last(), Some(Row::Alarm(_))));
    let active = delegation_panel(&delegation(true, None, None));
    assert!(matches!(active.last(), Some(Row::Note(_))));
}

#[test]
fn an_order_a_safe_authorizes_shows_who_signs() {
    let d = digests(repeat_hash(0xC1), repeat_hash(0xC2));
    let rows = safe_message_panel(&safe_message(d, repeat_hash(0xBB)), NOW);
    assert!(rows.iter().any(|r| matches!(r, Row::Caption(c)
        if c == "Authorized via EIP-1271 — 2-of-3 owners sign")));
    assert!(matches!(rows.last(), Some(Row::HashField { hash, .. }) if *hash == d.digest));
}

#[test]
fn each_step_gets_the_panel_of_its_kind() {
    let leg = step_card(&SignStep::RawTx(leg_with(vec![1])), false, true, NOW);
    assert!(matches!(leg.panel, StepPanel::Leg(_)));
    assert_eq!(leg.fingerprints.unwrap().rows.len(), 1);
    let bare = step_card(&SignStep::RawTx(leg_with(Vec::new())), false, true, NOW);
    assert!(bare.fingerprints.is_none());
    let x = step_card(&SignStep::SafeExec(safe_exec(leg_with(vec![1]), 0, 3, 3)), true, true, NOW);
    assert!(matches!(x.panel, StepPanel::Around(..)));
    assert_eq!(x.fingerprints.unwrap().rows.len(), 4);
    let s = step_card(&SignStep::Send(SendReview { calldata_digest: None }), false, false, NOW);
    assert!(matches!(s.panel, StepPanel::Send));
}

// ── economics ───────────────────────────────────────────────────────

fn economics() -> BatchEconomics {
    BatchEconomics {
        moves: vec![
            MovedAmount { amount: "5 USDC".into(), direction: MoveDirection::Out },
            MovedAmount { amount: "5 aUSDC".into(), direction: MoveDirection::In },
        ],
        simulated: true,
        verified: true,
        stale: false,
        gas_used: 210_000,
        base_fee_per_gas: 12_000_000_000,
        fee_caveats: vec!["excludes the priority tip".into()],
    }
}

#[test]
fn the_fee_is_the_gas_times_the_base_fee() {
    assert_eq!(economics().fee_eth().as_deref(), Some("0.00252"));
    let fee = |gas_used: u64, base_fee_per_gas: u64| {
        BatchEconomics { gas_used, base_fee_per_gas, ..economics() }.fee_eth()
    };
    assert_eq!(fee(1, 1).as_deref(), Some("0.000000000000000001"));
    assert_eq!(fee(1_000_000_000, 1_000_000_000).as_deref(), Some("1"));
    assert_eq!(fee(0, 5), None, "an unknown fee is not a free one");
    assert_eq!(fee(5, 0), None);
    assert_eq!(
        fee(u64::MAX, u64::MAX).as_deref(),
        Some("340282366920938463426.481119284349108225"),
    );
}

#[test]
fn only_fresh_verified_figures_are_vouched_for_on_the_card() {
    let card = |e: BatchEconomics| economics_card(&e, "210,000", Some("12"));
    let good = card(economics());
    assert_eq!((good.badge, good.vouched), ("✓ Verified by Helios", true));
    assert_eq!(good.header, "This transaction moves");
    assert_eq!(good.moves[0].line, "− 5 USDC");
    assert_eq!(good.moves[1].line, "+ 5 aUSDC");
    let fee = good.fee.unwrap();
    assert_eq!(fee.line, "≈ 0.00252 ETH fee");
    assert_eq!(fee.basis, "210,000 gas at 12 gwei base fee");
    assert_eq!(fee.caveats, ["· excludes the priority tip"]);
    let stale = card(BatchEconomics { stale: true, ..economics() });
    assert_eq!((stale.badge, stale.vouched), ("⚠ Simulated a while ago", false));
    let unverified = card(BatchEconomics { verified: false, ..economics() });
    assert_eq!((unverified.badge, unverified.vouched), ("⚠ Unverified simulation", false));
    let guessed = card(BatchEconomics { simulated: false, moves: vec![], ..economics() });
    assert_eq!((guessed.badge, guessed.vouched), ("not simulated", false));
    assert_eq!(guessed.header, "Cost");
    assert_eq!(economics_card(&economics(), "21", None).fee.unwrap().basis, "21 gas");
}

#[test]
fn economics_without_movement_or_fee_are_empty() {
    assert!(!economics().is_empty());
    let nothing = BatchEconomics { moves: vec![], gas_used: 0, ..economics() };
    assert!(nothing.is_empty());
}

// ── the overlay ─────────────────────────────────────────────────────

fn ready() -> SignReview {
    let mut r = cancel_review();
    r.legs_loading = false;
    r
}

fn gate(r: &SignReview) -> (Button, Button, Option<Button>) {
    match view(r, NOW, "0", None).footer {
        Footer::Gate { dismiss, confirm, secondary } => (dismiss, confirm, secondary),
        other => panic!("expected a gate, got {other:?}"),
    }
}

#[test]
fn nothing_is_confirmed_before_the_steps_are_there() {
    let (dismiss, confirm, secondary) = gate(&cancel_review());
    assert_eq!((dismiss.label.as_str(), dismiss.action), ("Cancel", Some(Message::Cancel)));
    assert_eq!((confirm.label.as_str(), confirm.action), ("Confirm & sign", None));
    assert!(secondary.is_none());
    assert_eq!(view(&cancel_review(), NOW, "0", None).preparing, Some(0));
}

#[test]
fn a_ready_review_confirms_both_ways() {
    let mut r = ready();
    assert_eq!(r.phase(), "confirm");
    r.confirm_label = Some("Sign & execute now".into());
    r.secondary_label = Some("Propose".into());
    let (_, confirm, secondary) = gate(&r);
    assert_eq!(confirm.label, "Sign & execute now");
    assert_eq!(confirm.action, Some(Message::Confirm));
    assert_eq!(secondary.unwrap().action, Some(Message::Secondary));
    r.confirm_disabled = true;
    assert_eq!(gate(&r).1.action, None);
}

#[test]
fn a_broadcast_review_can_only_be_closed() {
    let mut r = ready();
    r.broadcast = Some(repeat_hash(9));
    r.error = Some("timed out".into());
    let (dismiss, confirm, _) = gate(&r);
    assert_eq!(dismiss.label, "Close");
    assert_eq!((confirm.label.as_str(), confirm.action), ("Already broadcast", None));
    assert_eq!(view(&r, NOW, "0", None).error.as_deref(), Some("(╥﹏╥) timed out"));
}

#[test]
fn a_click_beside_a_signing_review_does_nothing() {
    let mut r = ready();
    assert_eq!(view(&r, NOW, "0", None).backdrop, Message::Cancel);
    r.signing_since = Some(1);
    assert_eq!(r.phase(), "signing");
    let o = view(&r, NOW, "0", None);
    assert_eq!(o.backdrop, Message::BoxClickIgnored);
    assert!(matches!(o.footer, Footer::Waiting(_)));
}

#[test]
fn steps_are_set_apart_and_empty_economics_are_left_out() {
    let mut r = ready();
    let d = digests(repeat_hash(1), repeat_hash(2));
    r.steps = vec![
        SignStep::Typed(order_with(d)),
        SignStep::RawTx(leg_with(vec![1])),
        SignStep::RawTx(leg_with(vec![2])),
    ];
    r.economics = Some(BatchEconomics { moves: vec![], gas_used: 0, ..economics() });
    let o = view(&r, NOW, "0", None);
    let gaps: Vec<u16> = o.steps.iter().map(|s| s.gap).collect();
    assert_eq!(gaps, [0, 12, 10]);
    assert!(o.economics.is_none());
    assert!(o.preparing.is_none());
    r.economics = Some(economics());
    assert!(view(&r, NOW, "210,000", None).economics.is_some());
}

//! The card of each kind of step, and the fingerprints beneath it.

use vstd::prelude::*;

use crate::primitives::short_address;
use crate::primitives::Address;
use crate::primitives::B256;
use crate::sign_review::address_field;
use crate::sign_review::field;
use crate::sign_review::hash_field;
use crate::sign_review::legs::leg_card;
use crate::sign_review::legs::leg_model;
use crate::sign_review::push_row;
use crate::sign_review::typed::order_model;
use crate::sign_review::typed::typed_panel;
use crate::sign_review::typed::typed_rows;
use crate::sign_review::DelegationReview;
use crate::sign_review::Eip712Digests;
use crate::sign_review::LegCard;
use crate::sign_review::LegModel;
use crate::sign_review::Row;
use crate::sign_review::RowModel;
use crate::sign_review::SafeExecReview;
use crate::sign_review::SafeMessageReview;
use crate::sign_review::SignStep;
use crate::text::dec;
use crate::text::decimal;
use crate::text::model_of;
use crate::text::models;
use crate::text::none_of;
use crate::text::plural;
use crate::text::plural_suffix;
use crate::txbuilder::multisend_call_only_1_3_0;
use crate::txbuilder::multisend_call_only_1_4_1;
use crate::txbuilder::replicate_bytes;
use crate::txbuilder::spec_multisend_call_only_1_3_0;
use crate::txbuilder::spec_multisend_call_only_1_4_1;

verus! {

// ── a Safe transaction ──────────────────────────────────────────────

/// The nonce of a Safe transaction, and what is queued ahead of it.
pub open spec fn nonce_text(x: SafeExecReview) -> Seq<char> {
    if x.ahead() == 0 {
        dec(x.nonce as nat)
    } else {
        dec(x.nonce as nat) + " (Safe is at "@ + dec(x.onchain_nonce as nat) + ", "@ + dec(
            x.ahead(),
        ) + " queued ahead)"@
    }
}

/// The operation byte of a Safe transaction.
pub open spec fn operation_text(operation: u8) -> Seq<char> {
    if operation == 0 {
        "0 (call)"@
    } else if operation == 1 {
        "1 (delegatecall)"@
    } else {
        dec(operation as nat) + " (unknown)"@
    }
}

/// What is known of the code a delegatecall runs.
pub open spec fn target_text(to: Address) -> Seq<char> {
    if to == spec_multisend_call_only_1_3_0() {
        "The target is the canonical Safe MultiSendCallOnly 1.3.0 library, which can only make plain calls — this is the expected shape for a batch."@
    } else if to == spec_multisend_call_only_1_4_1() {
        "The target is the canonical Safe MultiSendCallOnly 1.4.1 library, which can only make plain calls — this is the expected shape for a batch."@
    } else {
        "The target "@ + to.short_text()
            + " is NOT a canonical Safe MultiSend library. Do not sign unless you know exactly what code lives there."@
    }
}

/// The banner over a Safe transaction that is not a plain call.
pub open spec fn operation_row(operation: u8, to: Address) -> RowModel {
    if operation == 1 {
        RowModel::Banner {
            title: "⚠ DELEGATECALL"@,
            body: "This transaction runs the target's code AS the Safe. Code reached this way can change owners, drain all funds, or replace the Safe's implementation. "@
                + target_text(to),
        }
    } else {
        RowModel::Banner {
            title: "⚠ MALFORMED OPERATION"@,
            body: "operation = "@ + dec(operation as nat)
                + " is neither CALL (0) nor DELEGATECALL (1). Refuse this transaction."@,
        }
    }
}

/// What a transaction guard means for a preflight.
pub open spec fn guard_note() -> Seq<char> {
    "This Safe has a transaction guard installed. A guard can reject this transaction when it executes, and the preflight simulation does not run it — a passing preflight is not a promise that the guard will allow this."@
}

/// Where the transactions ahead are queued.
pub open spec fn queue_place(x: SafeExecReview) -> Seq<char> {
    "This Safe already has "@ + dec(x.ahead()) + " transaction"@ + plural(x.ahead())
        + " queued at nonce"@ + plural(x.ahead()) + " "@ + dec(x.onchain_nonce as nat) + "–"@ + dec(
        (x.nonce - 1) as nat,
    )
}

/// What it means to sign behind the transactions ahead.
pub open spec fn queue_note(x: SafeExecReview) -> Seq<char> {
    queue_place(x) + ". Signing at nonce "@ + dec(x.nonce as nat)
        + " puts this one behind them: it can only be queued, not executed now, and it becomes executable once those ahead of it have run. Filing it at the Safe's current nonce instead would compete with them — whichever executed first would void the other."@
}

/// The lines of a Safe transaction that identify it.
pub open spec fn exec_head(x: SafeExecReview) -> Seq<RowModel> {
    seq![
        RowModel::Caption("Safe transaction — execTransaction"@),
        RowModel::Heading(
            dec(x.threshold as nat) + "-of-"@ + dec(x.owner_count as nat) + " owners must sign"@,
        ),
        RowModel::AddressField { label: "Safe"@, addr: x.safe },
        RowModel::Field { label: "Nonce"@, value: nonce_text(x) },
        RowModel::Field { label: "Operation"@, value: operation_text(x.operation) },
    ] + (match x.guard {
        Some(g) => seq![RowModel::AddressField { label: "Transaction guard"@, addr: g }],
        None => seq![],
    })
}

/// The lines of a Safe transaction that warn.
pub open spec fn exec_warnings(x: SafeExecReview) -> Seq<RowModel> {
    (if x.operation != 0 {
        seq![operation_row(x.operation, x.inner.to)]
    } else {
        seq![]
    }) + (if x.guard is Some {
        seq![RowModel::Note(guard_note())]
    } else {
        seq![]
    }) + (if x.ahead() > 0 {
        seq![RowModel::Note(queue_note(x))]
    } else {
        seq![]
    })
}

/// The lines of a Safe transaction above the call it executes.
pub open spec fn exec_rows(x: SafeExecReview) -> Seq<RowModel> {
    exec_head(x) + exec_warnings(x) + seq![RowModel::Caption("Safe will execute"@)]
}

/// The line of a Safe transaction beneath the call it executes.
pub open spec fn exec_foot(x: SafeExecReview) -> Seq<RowModel> {
    seq![RowModel::HashField { label: "Each owner signs (SafeTx hash)"@, hash: x.safe_tx_hash }]
}

/// The nonce of a Safe transaction, and what is queued ahead of it.
fn nonce_line(x: &SafeExecReview) -> (r: String)
    ensures
        r@ == nonce_text(*x),
{
    let ahead: u64 = x.queued_ahead();
    let mut s: String = decimal(x.nonce);
    if ahead != 0 {
        s.append(" (Safe is at ");
        s.append(decimal(x.onchain_nonce).as_str());
        s.append(", ");
        s.append(decimal(ahead).as_str());
        s.append(" queued ahead)");
    }
    s
}

/// The operation byte of a Safe transaction.
fn operation_line(operation: u8) -> (r: String)
    ensures
        r@ == operation_text(operation),
{
    if operation == 0 {
        "0 (call)".to_owned()
    } else if operation == 1 {
        "1 (delegatecall)".to_owned()
    } else {
        let mut s: String = decimal(operation as u64);
        s.append(" (unknown)");
        s
    }
}

/// What is known of the code a delegatecall runs.
fn target_line(to: Address) -> (r: String)
    ensures
        r@ == target_text(to),
{
    if to == multisend_call_only_1_3_0() {
        "The target is the canonical Safe MultiSendCallOnly 1.3.0 library, which can only make plain calls — this is the expected shape for a batch.".to_owned()
    } else if to == multisend_call_only_1_4_1() {
        "The target is the canonical Safe MultiSendCallOnly 1.4.1 library, which can only make plain calls — this is the expected shape for a batch.".to_owned()
    } else {
        let mut s: String = "The target ".to_owned();
        s.append(short_address(to).as_str());
        s.append(
            " is NOT a canonical Safe MultiSend library. Do not sign unless you know exactly what code lives there.",
        );
        s
    }
}

/// The banner over a Safe transaction that is not a plain call. A delegatecall
/// names whose code runs, since that is all its danger depends on.
pub fn operation_banner(operation: u8, to: Address) -> (r: Row)
    ensures
        r@ == operation_row(operation, to),
{
    if operation == 1 {
        let mut body: String =
            "This transaction runs the target's code AS the Safe. Code reached this way can change owners, drain all funds, or replace the Safe's implementation. ".to_owned();
        body.append(target_line(to).as_str());
        Row::Banner { title: "⚠ DELEGATECALL".to_owned(), body }
    } else {
        let mut body: String = "operation = ".to_owned();
        body.append(decimal(operation as u64).as_str());
        body.append(" is neither CALL (0) nor DELEGATECALL (1). Refuse this transaction.");
        Row::Banner { title: "⚠ MALFORMED OPERATION".to_owned(), body }
    }
}

/// Where the transactions ahead are queued.
fn queue_place_line(x: &SafeExecReview) -> (r: String)
    requires
        x.ahead() > 0,
    ensures
        r@ == queue_place(*x),
{
    let ahead: u64 = x.queued_ahead();
    let mut s: String = "This Safe already has ".to_owned();
    s.append(decimal(ahead).as_str());
    s.append(" transaction");
    s.append(plural_suffix(ahead));
    s.append(" queued at nonce");
    s.append(plural_suffix(ahead));
    s.append(" ");
    s.append(decimal(x.onchain_nonce).as_str());
    s.append("–");
    s.append(decimal(x.nonce - 1).as_str());
    s
}

/// What it means to sign behind the transactions ahead.
fn queue_line(x: &SafeExecReview) -> (r: String)
    requires
        x.ahead() > 0,
    ensures
        r@ == queue_note(*x),
{
    let mut s: String = queue_place_line(x);
    s.append(". Signing at nonce ");
    s.append(decimal(x.nonce).as_str());
    s.append(
        " puts this one behind them: it can only be queued, not executed now, and it becomes executable once those ahead of it have run. Filing it at the Safe's current nonce instead would compete with them — whichever executed first would void the other.",
    );
    s
}

/// The lines of a Safe transaction that identify it.
fn exec_head_rows(x: &SafeExecReview) -> (r: Vec<Row>)
    ensures
        models(r@) == exec_head(*x),
{
    let mut rows: Vec<Row> = none_of();
    push_row(&mut rows, Row::Caption("Safe transaction — execTransaction".to_owned()));
    let mut owners: String = decimal(x.threshold as u64);
    owners.append("-of-");
    owners.append(decimal(x.owner_count as u64).as_str());
    owners.append(" owners must sign");
    push_row(&mut rows, Row::Heading(owners));
    push_row(&mut rows, address_field("Safe", x.safe));
    push_row(&mut rows, field("Nonce", nonce_line(x)));
    push_row(&mut rows, field("Operation", operation_line(x.operation)));
    match x.guard {
        Some(g) => push_row(&mut rows, address_field("Transaction guard", g)),
        None => {},
    }
    proof {
        assert(models(rows@) =~= exec_head(*x));
    }
    rows
}

/// Appends the lines of a Safe transaction that warn.
fn push_exec_warnings(rows: &mut Vec<Row>, x: &SafeExecReview)
    ensures
        models(final(rows)@) == models(old(rows)@) + exec_warnings(*x),
{
    let ghost before = models(rows@);
    if x.operation != 0 {
        push_row(rows, operation_banner(x.operation, x.inner.to));
    }
    if x.guard.is_some() {
        push_row(
            rows,
            Row::Note(
                "This Safe has a transaction guard installed. A guard can reject this transaction when it executes, and the preflight simulation does not run it — a passing preflight is not a promise that the guard will allow this.".to_owned(),
            ),
        );
    }
    if x.queued_ahead() > 0 {
        push_row(rows, Row::Note(queue_line(x)));
    }
    proof {
        assert(models(rows@) =~= before + exec_warnings(*x));
    }
}

/// The card of a Safe transaction: the lines above the call it executes, the
/// call's own card, and the hash each owner signs.
pub fn safe_exec_panel(x: &SafeExecReview, show_detail: bool) -> (r: (Vec<Row>, LegCard, Vec<Row>))
    requires
        x.inner.all_indentable(),
    ensures
        models(r.0@) == exec_rows(*x),
        r.1@ == leg_model(*x.inner, show_detail),
        models(r.2@) == exec_foot(*x),
{
    let mut rows: Vec<Row> = exec_head_rows(x);
    push_exec_warnings(&mut rows, x);
    push_row(&mut rows, Row::Caption("Safe will execute".to_owned()));
    let inner: LegCard = leg_card(&*x.inner, show_detail);
    let mut foot: Vec<Row> = none_of();
    push_row(&mut foot, hash_field("Each owner signs (SafeTx hash)", x.safe_tx_hash));
    proof {
        assert(models(rows@) =~= exec_rows(*x));
        assert(models(foot@) =~= exec_foot(*x));
    }
    (rows, inner, foot)
}

// ── a delegation ────────────────────────────────────────────────────

/// What happens to the account's code.
pub open spec fn delegation_heading(d: DelegationReview) -> Seq<char> {
    if d.already_active {
        "Your account already runs this code"@
    } else if d.displaced() is Some {
        "Your account will be re-pointed to different code"@
    } else {
        "Your account will start running contract code"@
    }
}

/// What is signed, and how long it lasts.
pub open spec fn delegation_note(d: DelegationReview) -> Seq<char> {
    if d.already_active {
        "This delegation is already in place, so no new authorization is signed — the transaction below is an ordinary call into the code your account already runs."@
    } else if d.displaced() is Some {
        "Your account is ALREADY delegated to the contract above, and signing this replaces it — anything reachable only through that contract stops being reachable. You sign this separately from the transaction below (on a hardware wallet, that's two prompts), and it does NOT expire with the transaction."@
    } else {
        "You sign this authorization separately from the transaction below (on a hardware wallet, that's two prompts). It does NOT expire with the transaction — your account keeps running this code until you replace it."@
    }
}

/// Who is delegated, from whom and to whom.
pub open spec fn delegation_parties(d: DelegationReview) -> Seq<RowModel> {
    seq![
        RowModel::Caption("Account delegation — EIP-7702 authorization"@),
        RowModel::Heading(delegation_heading(d)),
        RowModel::AddressField { label: "Your account"@, addr: d.authority },
    ] + (match d.displaced() {
        Some(prev) => seq![RowModel::AddressField { label: "Currently delegated to"@, addr: prev }],
        None => seq![],
    }) + seq![
        RowModel::AddressField { label: "Delegates to"@, addr: d.delegate },
        RowModel::Field { label: "Delegate"@, value: d.delegate_label@ },
    ]
}

/// The rows of a delegation.
pub open spec fn delegation_rows(d: DelegationReview) -> Seq<RowModel> {
    delegation_parties(d) + seq![
        RowModel::Field {
            label: "Scoped to"@,
            value: d.net.name_text() + " · chain id "@ + dec(d.chain_id as nat),
        },
    ] + (match d.auth_nonce {
        Some(n) => seq![RowModel::Field { label: "Authorization nonce"@, value: dec(n as nat) }],
        None => seq![],
    }) + seq![
        if d.already_active {
            RowModel::Note(delegation_note(d))
        } else {
            RowModel::Alarm(delegation_note(d))
        },
    ]
}

/// Who is delegated, from whom and to whom.
fn delegation_party_rows(d: &DelegationReview) -> (r: Vec<Row>)
    ensures
        models(r@) == delegation_parties(*d),
{
    let mut rows: Vec<Row> = none_of();
    let replacing: Option<Address> = d.replacing();
    push_row(&mut rows, Row::Caption("Account delegation — EIP-7702 authorization".to_owned()));
    let heading: &str = if d.already_active {
        "Your account already runs this code"
    } else if replacing.is_some() {
        "Your account will be re-pointed to different code"
    } else {
        "Your account will start running contract code"
    };
    push_row(&mut rows, Row::Heading(heading.to_owned()));
    push_row(&mut rows, address_field("Your account", d.authority));
    match replacing {
        Some(prev) => push_row(&mut rows, address_field("Currently delegated to", prev)),
        None => {},
    }
    push_row(&mut rows, address_field("Delegates to", d.delegate));
    push_row(&mut rows, field("Delegate", d.delegate_label.clone()));
    proof {
        assert(models(rows@) =~= delegation_parties(*d));
    }
    rows
}

/// The card of a delegation. It leads with what changes about the account.
pub fn delegation_panel(d: &DelegationReview) -> (r: Vec<Row>)
    ensures
        models(r@) == delegation_rows(*d),
{
    let mut rows: Vec<Row> = delegation_party_rows(d);
    let mut scope: String = d.net.display_name();
    scope.append(" · chain id ");
    scope.append(decimal(d.chain_id).as_str());
    push_row(&mut rows, field("Scoped to", scope));
    match d.auth_nonce {
        Some(n) => push_row(&mut rows, field("Authorization nonce", decimal(n))),
        None => {},
    }
    let note: &str = if d.already_active {
        "This delegation is already in place, so no new authorization is signed — the transaction below is an ordinary call into the code your account already runs."
    } else if d.replacing().is_some() {
        "Your account is ALREADY delegated to the contract above, and signing this replaces it — anything reachable only through that contract stops being reachable. You sign this separately from the transaction below (on a hardware wallet, that's two prompts), and it does NOT expire with the transaction."
    } else {
        "You sign this authorization separately from the transaction below (on a hardware wallet, that's two prompts). It does NOT expire with the transaction — your account keeps running this code until you replace it."
    };
    if d.already_active {
        push_row(&mut rows, Row::Note(note.to_owned()));
    } else {
        push_row(&mut rows, Row::Alarm(note.to_owned()));
    }
    proof {
        assert(models(rows@) =~= delegation_rows(*d));
    }
    rows
}

// ── a message of a Safe ─────────────────────────────────────────────

/// The rows of an order that a Safe authorizes: the order's own, who signs, and
/// the hashes.
pub open spec fn message_rows(m: SafeMessageReview, now: nat) -> Seq<RowModel> {
    typed_rows(order_model(m.order, now)) + seq![
        RowModel::Caption(
            "Authorized via EIP-1271 — "@ + dec(m.threshold as nat) + "-of-"@ + dec(
                m.owner_count as nat,
            ) + " owners sign"@,
        ),
        RowModel::AddressField { label: "Authorizing Safe"@, addr: m.safe },
        RowModel::HashField { label: "Order digest (CoW EIP-712)"@, hash: m.order_digest },
        RowModel::HashField { label: "Each owner signs (SafeMessage hash)"@, hash: m.message_hash },
    ]
}

/// The card of an order that a Safe authorizes with a signed message.
pub fn safe_message_panel(m: &SafeMessageReview, now: u64) -> (r: Vec<Row>)
    ensures
        models(r@) == message_rows(*m, now as nat),
{
    let mut rows: Vec<Row> = typed_panel(m.order.to_typed_model(now));
    let mut owners: String = "Authorized via EIP-1271 — ".to_owned();
    owners.append(decimal(m.threshold as u64).as_str());
    owners.append("-of-");
    owners.append(decimal(m.owner_count as u64).as_str());
    owners.append(" owners sign");
    push_row(&mut rows, Row::Caption(owners));
    push_row(&mut rows, address_field("Authorizing Safe", m.safe));
    push_row(&mut rows, hash_field("Order digest (CoW EIP-712)", m.order_digest));
    push_row(&mut rows, hash_field("Each owner signs (SafeMessage hash)", m.message_hash));
    proof {
        assert(models(rows@) =~= message_rows(*m, now as nat));
    }
    rows
}

// ── fingerprints ────────────────────────────────────────────────────

pub const CALLDATA_DIGEST_LABEL: &'static str = "Calldata Digest";

pub const EIP712_DIGEST_LABEL: &'static str = "EIP-712 Digest";

pub const DOMAIN_HASH_LABEL: &'static str = "Domain Hash";

pub const MESSAGE_HASH_LABEL: &'static str = "Message Hash";

/// What a fingerprint shows.
#[derive(Debug, Clone, PartialEq, Eq)]
pub enum Digest {
    Hash(B256),
    /// The ERC-8213 digest of these bytes.
    OfCalldata(Vec<u8>),
}

/// A labelled digest to check against a device.
#[derive(Debug, Clone, PartialEq, Eq)]
pub struct Fingerprint {
    pub label: &'static str,
    pub digest: Digest,
}

#[verifier::ext_equal]
pub enum DigestModel {
    Hash(B256),
    OfCalldata(Seq<u8>),
}

#[verifier::ext_equal]
pub struct FingerprintModel {
    pub label: Seq<char>,
    pub digest: DigestModel,
}

impl View for Fingerprint {
    type V = FingerprintModel;

    open spec fn view(&self) -> FingerprintModel {
        FingerprintModel {
            label: self.label@,
            digest: match self.digest {
                Digest::Hash(h) => DigestModel::Hash(h),
                Digest::OfCalldata(b) => DigestModel::OfCalldata(b@),
            },
        }
    }
}

/// A labelled hash.
pub open spec fn hash_print(label: Seq<char>, hash: B256) -> FingerprintModel {
    FingerprintModel { label, digest: DigestModel::Hash(hash) }
}

/// A labelled hash, where there is one.
pub open spec fn optional_print(label: Seq<char>, hash: Option<B256>) -> Seq<FingerprintModel> {
    match hash {
        Some(h) => seq![hash_print(label, h)],
        None => seq![],
    }
}

/// The three hashes of a typed-data signature.
pub open spec fn eip712_prints(d: Eip712Digests) -> Seq<FingerprintModel> {
    seq![
        hash_print("EIP-712 Digest"@, d.digest),
        hash_print("Domain Hash"@, d.domain_hash),
        hash_print("Message Hash"@, d.message_hash),
    ]
}

/// The digest of calldata; a plain transfer has none.
pub open spec fn calldata_prints(label: Seq<char>, calldata: Seq<u8>) -> Seq<FingerprintModel> {
    if calldata.len() == 0 {
        seq![]
    } else {
        seq![FingerprintModel { label, digest: DigestModel::OfCalldata(calldata) }]
    }
}

/// The fingerprints of a step.
pub open spec fn fingerprints(step: SignStep) -> Seq<FingerprintModel> {
    match step {
        SignStep::RawTx(leg) => calldata_prints("Calldata Digest"@, leg.calldata@),
        SignStep::Delegation(d) => optional_print(
            "Authorization Digest (EIP-7702)"@,
            d.auth_digest,
        ),
        SignStep::Typed(order) => eip712_prints(order.eip712),
        SignStep::SafeExec(x) => eip712_prints(x.eip712) + calldata_prints(
            "Calldata Digest (inner call)"@,
            x.inner.calldata@,
        ),
        SignStep::SafeMessage(m) => eip712_prints(m.eip712).push(
            hash_print("Order Digest (CoW EIP-712)"@, m.order_digest),
        ),
        SignStep::Send(r) => optional_print("Calldata Digest"@, r.calldata_digest),
        SignStep::SafeSend(r) => eip712_prints(r.eip712) + optional_print(
            "Calldata Digest (inner call)"@,
            r.inner_calldata_digest,
        ),
    }
}

/// Appends a labelled hash.
fn push_hash(rows: &mut Vec<Fingerprint>, label: &'static str, hash: B256)
    ensures
        models(final(rows)@) == models(old(rows)@).push(hash_print(label@, hash)),
{
    let ghost before = rows@;
    let row: Fingerprint = Fingerprint { label, digest: Digest::Hash(hash) };
    rows.push(row);
    proof {
        assert(models(rows@) =~= models(before).push(row@));
    }
}

/// Appends a labelled hash, where there is one.
fn push_optional(rows: &mut Vec<Fingerprint>, label: &'static str, hash: Option<B256>)
    ensures
        models(final(rows)@) == models(old(rows)@) + optional_print(label@, hash),
{
    let ghost before = models(rows@);
    match hash {
        Some(h) => push_hash(rows, label, h),
        None => {},
    }
    proof {
        assert(models(rows@) =~= before + optional_print(label@, hash));
    }
}

/// Appends the digest of calldata.
fn push_calldata(rows: &mut Vec<Fingerprint>, label: &'static str, calldata: &Vec<u8>)
    ensures
        models(final(rows)@) == models(old(rows)@) + calldata_prints(label@, calldata@),
{
    let ghost before = rows@;
    if calldata.len() > 0 {
        let row: Fingerprint = Fingerprint {
            label,
            digest: Digest::OfCalldata(replicate_bytes(calldata)),
        };
        rows.push(row);
    }
    proof {
        assert(models(rows@) =~= models(before) + calldata_prints(label@, calldata@));
    }
}

/// The three hashes of a typed-data signature.
fn eip712_rows(d: Eip712Digests) -> (r: Vec<Fingerprint>)
    ensures
        models(r@) == eip712_prints(d),
{
    let mut rows: Vec<Fingerprint> = none_of();
    push_hash(&mut rows, EIP712_DIGEST_LABEL, d.digest);
    push_hash(&mut rows, DOMAIN_HASH_LABEL, d.domain_hash);
    push_hash(&mut rows, MESSAGE_HASH_LABEL, d.message_hash);
    proof {
        assert(models(rows@) =~= eip712_prints(d));
    }
    rows
}

/// The ERC-8213 fingerprints of a step, by the labels the standard gives them.
pub fn erc8213_rows(step: &SignStep) -> (r: Vec<Fingerprint>)
    ensures
        models(r@) == fingerprints(*step),
{
    let mut rows: Vec<Fingerprint> = match step {
        SignStep::Typed(order) => eip712_rows(order.eip712),
        SignStep::SafeExec(x) => eip712_rows(x.eip712),
        SignStep::SafeMessage(m) => eip712_rows(m.eip712),
        SignStep::SafeSend(r) => eip712_rows(r.eip712),
        _ => none_of(),
    };
    match step {
        SignStep::RawTx(leg) => push_calldata(&mut rows, CALLDATA_DIGEST_LABEL, &leg.calldata),
        SignStep::Delegation(d) => push_optional(
            &mut rows,
            "Authorization Digest (EIP-7702)",
            d.auth_digest,
        ),
        SignStep::Typed(_) => {},
        SignStep::SafeExec(x) => push_calldata(
            &mut rows,
            "Calldata Digest (inner call)",
            &x.inner.calldata,
        ),
        SignStep::SafeMessage(m) => push_hash(
            &mut rows,
            "Order Digest (CoW EIP-712)",
            m.order_digest,
        ),
        SignStep::Send(r) => push_optional(&mut rows, CALLDATA_DIGEST_LABEL, r.calldata_digest),
        SignStep::SafeSend(r) => push_optional(
            &mut rows,
            "Calldata Digest (inner call)",
            r.inner_calldata_digest,
        ),
    }
    proof {
        assert(models(rows@) =~= fingerprints(*step));
    }
    rows
}

/// The foldable section of fingerprints.
#[derive(Debug)]
pub struct FingerprintsSection {
    /// Whether the rows are on screen.
    pub shown: bool,
    /// What a click on the header does.
    pub action: &'static str,
    /// The rows on screen.
    pub rows: Vec<Fingerprint>,
}

#[verifier::ext_equal]
pub struct SectionModel {
    pub shown: bool,
    pub action: Seq<char>,
    pub rows: Seq<FingerprintModel>,
}

impl View for FingerprintsSection {
    type V = SectionModel;

    open spec fn view(&self) -> SectionModel {
        SectionModel { shown: self.shown, action: self.action@, rows: models(self.rows@) }
    }
}

/// The section of a step's fingerprints; a step without any has none.
pub open spec fn section(prints: Seq<FingerprintModel>, show: bool) -> Option<SectionModel> {
    if prints.len() == 0 {
        None
    } else {
        Some(
            SectionModel {
                shown: show,
                action: if show {
                    "hide"@
                } else {
                    "verify hashes"@
                },
                rows: if show {
                    prints
                } else {
                    seq![]
                },
            },
        )
    }
}

/// The foldable section of fingerprints, unless there are none.
pub fn fingerprints_section(show: bool, rows: Vec<Fingerprint>) -> (r: Option<FingerprintsSection>)
    ensures
        model_of(r) == section(models(rows@), show),
{
    proof {
        assert(models(rows@).len() == rows@.len());
    }
    if rows.len() == 0 {
        None
    } else if show {
        Some(FingerprintsSection { shown: true, action: "hide", rows })
    } else {
        Some(FingerprintsSection { shown: false, action: "verify hashes", rows: none_of() })
    }
}

// ── the card of a step ──────────────────────────────────────────────

/// What a step shows above its fingerprints.
#[derive(Debug)]
pub enum StepPanel {
    Rows(Vec<Row>),
    Leg(LegCard),
    /// Rows, the call in the middle, and rows beneath.
    Around(Vec<Row>, LegCard, Vec<Row>),
    /// The review of a send, drawn by the send screen.
    Send,
    SafeSend,
}

#[verifier::ext_equal]
pub enum StepPanelModel {
    Rows(Seq<RowModel>),
    Leg(LegModel),
    Around(Seq<RowModel>, LegModel, Seq<RowModel>),
    Send,
    SafeSend,
}

impl View for StepPanel {
    type V = StepPanelModel;

    open spec fn view(&self) -> StepPanelModel {
        match *self {
            StepPanel::Rows(r) => StepPanelModel::Rows(models(r@)),
            StepPanel::Leg(l) => StepPanelModel::Leg(l@),
            StepPanel::Around(a, l, b) => StepPanelModel::Around(models(a@), l@, models(b@)),
            StepPanel::Send => StepPanelModel::Send,
            StepPanel::SafeSend => StepPanelModel::SafeSend,
        }
    }
}

/// The card of a step.
#[derive(Debug)]
pub struct StepCard {
    pub panel: StepPanel,
    pub fingerprints: Option<FingerprintsSection>,
}

#[verifier::ext_equal]
pub struct StepModel {
    pub panel: StepPanelModel,
    pub fingerprints: Option<SectionModel>,
}

impl View for StepCard {
    type V = StepModel;

    open spec fn view(&self) -> StepModel {
        StepModel { panel: self.panel@, fingerprints: model_of(self.fingerprints) }
    }
}

impl SignStep {
    /// Whether the decodes of the step can be laid out.
    pub open spec fn indentable(self) -> bool {
        match self {
            SignStep::RawTx(leg) => leg.all_indentable(),
            SignStep::SafeExec(x) => x.inner.all_indentable(),
            _ => true,
        }
    }
}

/// What a step shows above its fingerprints.
pub open spec fn step_panel(step: SignStep, show_calldata: bool, now: nat) -> StepPanelModel {
    match step {
        SignStep::RawTx(leg) => StepPanelModel::Leg(leg_model(leg, show_calldata)),
        SignStep::Delegation(d) => StepPanelModel::Rows(delegation_rows(d)),
        SignStep::Typed(order) => StepPanelModel::Rows(typed_rows(order_model(order, now))),
        SignStep::SafeExec(x) => StepPanelModel::Around(
            exec_rows(x),
            leg_model(*x.inner, show_calldata),
            exec_foot(x),
        ),
        SignStep::SafeMessage(m) => StepPanelModel::Rows(message_rows(m, now)),
        SignStep::Send(_) => StepPanelModel::Send,
        SignStep::SafeSend(_) => StepPanelModel::SafeSend,
    }
}

/// The card of a step.
pub open spec fn step_model(
    step: SignStep,
    show_calldata: bool,
    show_fingerprints: bool,
    now: nat,
) -> StepModel {
    StepModel {
        panel: step_panel(step, show_calldata, now),
        fingerprints: section(fingerprints(step), show_fingerprints),
    }
}

/// What a step shows above its fingerprints.
fn panel_of_step(step: &SignStep, show_calldata: bool, now: u64) -> (r: StepPanel)
    requires
        step.indentable(),
    ensures
        r@ == step_panel(*step, show_calldata, now as nat),
{
    match step {
        SignStep::RawTx(leg) => StepPanel::Leg(leg_card(leg, show_calldata)),
        SignStep::Delegation(d) => StepPanel::Rows(delegation_panel(d)),
        SignStep::Typed(order) => StepPanel::Rows(typed_panel(order.to_typed_model(now))),
        SignStep::SafeExec(x) => {
            let (above, inner, below): (Vec<Row>, LegCard, Vec<Row>) = safe_exec_panel(
                x,
                show_calldata,
            );
            StepPanel::Around(above, inner, below)
        },
        SignStep::SafeMessage(m) => StepPanel::Rows(safe_message_panel(m, now)),
        SignStep::Send(_) => StepPanel::Send,
        SignStep::SafeSend(_) => StepPanel::SafeSend,
    }
}

/// The card of a step: its panel, and its fingerprints.
pub fn step_card(step: &SignStep, show_calldata: bool, show_fingerprints: bool, now: u64) -> (r:
    StepCard)
    requires
        step.indentable(),
    ensures
        r@ == step_model(*step, show_calldata, show_fingerprints, now as nat),
{
    StepCard {
        panel: panel_of_step(step, show_calldata, now),
        fingerprints: fingerprints_section(show_fingerprints, erc8213_rows(step)),
    }
}

} // verus!

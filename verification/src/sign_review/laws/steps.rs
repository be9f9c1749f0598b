//! What the card of a step says of what is signed.

use vstd::prelude::*;

use crate::calendar::utc_text;
use crate::function_panel::card_of;
use crate::function_panel::panel;
use crate::primitives::Address;
use crate::primitives::B256;
use crate::primitives::U256;
use crate::sign_review::legs::decode_rows;
use crate::sign_review::legs::lead_rows;
use crate::sign_review::legs::leg_model;
use crate::sign_review::legs::leg_rows;
use crate::sign_review::legs::sub_leg_rows;
use crate::sign_review::steps::delegation_parties;
use crate::sign_review::steps::delegation_rows;
use crate::sign_review::steps::fingerprints;
use crate::sign_review::steps::message_rows;
use crate::sign_review::steps::nonce_text;
use crate::sign_review::steps::operation_row;
use crate::sign_review::steps::operation_text;
use crate::sign_review::steps::queue_note;
use crate::sign_review::steps::queue_place;
use crate::sign_review::steps::section;
use crate::sign_review::steps::step_panel;
use crate::sign_review::steps::DigestModel;
use crate::sign_review::steps::FingerprintModel;
use crate::sign_review::steps::StepPanelModel;
use crate::sign_review::typed::expiry_text;
use crate::sign_review::typed::order_model;
use crate::sign_review::typed::percent_text;
use crate::sign_review::typed::span_text;
use crate::sign_review::typed::typed_rows;
use crate::sign_review::DelegationReview;
use crate::sign_review::OrderReview;
use crate::sign_review::ReviewLeg;
use crate::sign_review::RowModel;
use crate::sign_review::SafeExecReview;
use crate::sign_review::SafeMessageReview;
use crate::sign_review::SignStep;
use crate::text::dec;
use crate::text::dec_fixed;
use crate::text::digit;
use crate::text::plural;
use crate::text::laws::lemma_says;
use crate::text::laws::says;

verus! {

/// Whether the rows name an address under a label, and no other under it.
pub open spec fn names(rows: Seq<RowModel>, label: Seq<char>, addr: Address) -> bool {
    &&& rows.contains(RowModel::AddressField { label, addr })
    &&& forall|k: int|
        0 <= k < rows.len() ==> ((#[trigger] rows[k]) matches RowModel::AddressField {
            label: l,
            addr: a,
        } ==> l == label ==> a == addr)
}

/// Whether the rows name no address under a label.
pub open spec fn names_none(rows: Seq<RowModel>, label: Seq<char>) -> bool {
    forall|k: int|
        0 <= k < rows.len() ==> ((#[trigger] rows[k]) matches RowModel::AddressField {
            label: l,
            ..
        } ==> l != label)
}

/// Whether the rows state a value under a label, and no other under it.
pub open spec fn states(rows: Seq<RowModel>, label: Seq<char>, value: Seq<char>) -> bool {
    &&& rows.contains(RowModel::Field { label, value })
    &&& forall|k: int|
        0 <= k < rows.len() ==> ((#[trigger] rows[k]) matches RowModel::Field {
            label: l,
            value: v,
        } ==> l == label ==> v == value)
}

/// Whether the rows state nothing under a label.
pub open spec fn states_nothing(rows: Seq<RowModel>, label: Seq<char>) -> bool {
    forall|k: int|
        0 <= k < rows.len() ==> ((#[trigger] rows[k]) matches RowModel::Field { label: l, .. }
            ==> l != label)
}

/// Whether the rows show a hash under a label, and no other under it.
pub open spec fn shows_hash(rows: Seq<RowModel>, label: Seq<char>, hash: B256) -> bool {
    &&& rows.contains(RowModel::HashField { label, hash })
    &&& forall|k: int|
        0 <= k < rows.len() ==> ((#[trigger] rows[k]) matches RowModel::HashField {
            label: l,
            hash: h,
        } ==> l == label ==> h == hash)
}

/// Whether the rows show an amount of the native coin, and no other.
pub open spec fn shows_value(rows: Seq<RowModel>, wei: U256) -> bool {
    &&& rows.contains(RowModel::EtherField { label: "Value"@, wei })
    &&& forall|k: int|
        0 <= k < rows.len() ==> ((#[trigger] rows[k]) matches RowModel::EtherField {
            label: l,
            wei: w,
        } ==> l == "Value"@ && w == wei)
}

// ── a delegation ────────────────────────────────────────────────────

proof fn lemma_delegation_labels()
    ensures
        "Your account"@ != "Delegates to"@,
        "Your account"@ != "Currently delegated to"@,
        "Delegates to"@ != "Currently delegated to"@,
        "Delegate"@ != "Scoped to"@,
        "Delegate"@ != "Authorization nonce"@,
        "Scoped to"@ != "Authorization nonce"@,
{
    reveal_strlit("Your account");
    reveal_strlit("Delegates to");
    reveal_strlit("Currently delegated to");
    reveal_strlit("Delegate");
    reveal_strlit("Scoped to");
    reveal_strlit("Authorization nonce");
    assert("Your account"@[0] == 'Y');
    assert("Delegates to"@[0] == 'D');
    assert("Currently delegated to"@.len() == 22);
    assert("Delegate"@.len() == 8);
    assert("Scoped to"@.len() == 9);
    assert("Your account"@.len() == 12);
    assert("Delegates to"@.len() == 12);
    assert("Authorization nonce"@.len() == 19);
}

/// A delegation names the account that is delegated as the account, and the
/// contract that takes it over as what it delegates to: never one for the other.
pub proof fn a_delegation_names_both_parties(d: DelegationReview, show: bool, now: nat)
    ensures
        names(delegation_parties(d), "Your account"@, d.authority),
        names(delegation_parties(d), "Delegates to"@, d.delegate),
        states(delegation_parties(d), "Delegate"@, d.delegate_label@),
        step_panel(SignStep::Delegation(d), show, now) matches StepPanelModel::Rows(rows) && names(
            rows,
            "Your account"@,
            d.authority,
        ) && names(rows, "Delegates to"@, d.delegate) && states(
            rows,
            "Delegate"@,
            d.delegate_label@,
        ),
{
    lemma_delegation_labels();
    let parties = delegation_parties(d);
    let rows = delegation_rows(d);
    let n = parties.len() as int;
    assert(parties[2] == RowModel::AddressField { label: "Your account"@, addr: d.authority });
    assert(parties[n - 2] == RowModel::AddressField { label: "Delegates to"@, addr: d.delegate });
    assert(parties[n - 1] == RowModel::Field { label: "Delegate"@, value: d.delegate_label@ });
    assert(forall|k: int| 0 <= k < n ==> rows[k] == #[trigger] parties[k]);
    assert(rows[2] == parties[2]);
    assert(rows[n - 2] == parties[n - 2]);
    assert(rows[n - 1] == parties[n - 1]);
}

/// A contract that the account runs today, and that this delegation would
/// replace, is named; where none is replaced, none is named.
pub proof fn a_replaced_delegate_is_named(d: DelegationReview)
    ensures
        d.incumbent matches Some(prev) ==> prev != d.delegate ==> names(
            delegation_rows(d),
            "Currently delegated to"@,
            prev,
        ) && names(delegation_parties(d), "Currently delegated to"@, prev),
        d.incumbent is None || d.incumbent == Some(d.delegate) ==> names_none(
            delegation_rows(d),
            "Currently delegated to"@,
        ) && names_none(delegation_parties(d), "Currently delegated to"@),
{
    lemma_delegation_labels();
    let rows = delegation_rows(d);
    let parties = delegation_parties(d);
    assert(forall|k: int| 0 <= k < parties.len() ==> rows[k] == #[trigger] parties[k]);
    if let Some(prev) = d.incumbent {
        if prev != d.delegate {
            let row = RowModel::AddressField { label: "Currently delegated to"@, addr: prev };
            assert(parties[3] == row);
            assert(rows[3] == row);
        }
    }
}

/// An authorization says which chain it is good for and which nonce it takes, and
/// says nothing of a nonce where none is signed.
pub proof fn a_delegation_says_its_scope(d: DelegationReview)
    ensures
        states(
            delegation_rows(d),
            "Scoped to"@,
            d.net.name_text() + " · chain id "@ + dec(d.chain_id as nat),
        ),
        d.auth_nonce matches Some(n) ==> states(
            delegation_rows(d),
            "Authorization nonce"@,
            dec(n as nat),
        ),
        d.auth_nonce is None ==> states_nothing(delegation_rows(d), "Authorization nonce"@),
{
    lemma_delegation_labels();
    let n = delegation_parties(d).len() as int;
    let rows = delegation_rows(d);
    assert(rows[n] == RowModel::Field {
        label: "Scoped to"@,
        value: d.net.name_text() + " · chain id "@ + dec(d.chain_id as nat),
    });
    if let Some(a) = d.auth_nonce {
        assert(rows[n + 1] == RowModel::Field {
            label: "Authorization nonce"@,
            value: dec(a as nat),
        });
    }
}

/// A delegation that changes the account ends in an alarm, and one that is in
/// place already in a plain note; each says what it is.
pub proof fn a_new_delegation_alarms(d: DelegationReview)
    ensures
        (delegation_rows(d).last() is Alarm) == !d.already_active,
        (delegation_rows(d).last() is Note) == d.already_active,
        delegation_rows(d)[0] == RowModel::Caption(
            "Account delegation — EIP-7702 authorization"@,
        ),
        d.already_active ==> delegation_rows(d)[1] == RowModel::Heading(
            "Your account already runs this code"@,
        ),
        !d.already_active && (d.incumbent is None || d.incumbent == Some(d.delegate))
            ==> delegation_rows(d)[1] == RowModel::Heading(
            "Your account will start running contract code"@,
        ) && delegation_rows(d).last() == RowModel::Alarm(
            "You sign this authorization separately from the transaction below (on a hardware wallet, that's two prompts). It does NOT expire with the transaction — your account keeps running this code until you replace it."@,
        ),
        d.incumbent matches Some(prev) ==> prev != d.delegate && !d.already_active
            ==> delegation_rows(d)[1] == RowModel::Heading(
            "Your account will be re-pointed to different code"@,
        ) && delegation_rows(d).last() == RowModel::Alarm(
            "Your account is ALREADY delegated to the contract above, and signing this replaces it — anything reachable only through that contract stops being reachable. You sign this separately from the transaction below (on a hardware wallet, that's two prompts), and it does NOT expire with the transaction."@,
        ),
        d.already_active ==> delegation_rows(d).last() == RowModel::Note(
            "This delegation is already in place, so no new authorization is signed — the transaction below is an ordinary call into the code your account already runs."@,
        ),
{
}

// ── a Safe transaction ──────────────────────────────────────────────

proof fn lemma_exec_labels()
    ensures
        "Safe"@ != "Transaction guard"@,
        "Nonce"@ != "Operation"@,
{
    reveal_strlit("Safe");
    reveal_strlit("Transaction guard");
    reveal_strlit("Nonce");
    reveal_strlit("Operation");
    assert("Safe"@.len() == 4);
    assert("Transaction guard"@.len() == 17);
    assert("Nonce"@.len() == 5);
    assert("Operation"@.len() == 9);
}

/// A Safe transaction says which Safe it is of, how many of its owners must sign,
/// and whose hash they sign; and the call in the middle is the one it executes.
pub proof fn a_safe_transaction_says_what_is_signed(x: SafeExecReview, show: bool, now: nat)
    ensures
        step_panel(SignStep::SafeExec(x), show, now) matches StepPanelModel::Around(rows, leg, foot)
            && {
            &&& rows[0] == RowModel::Caption("Safe transaction — execTransaction"@)
            &&& rows[1] == RowModel::Heading(
                dec(x.threshold as nat) + "-of-"@ + dec(x.owner_count as nat)
                    + " owners must sign"@,
            )
            &&& names(rows, "Safe"@, x.safe)
            &&& x.guard matches Some(g) ==> names(rows, "Transaction guard"@, g)
            &&& x.guard is None ==> names_none(rows, "Transaction guard"@)
            &&& rows.last() == RowModel::Caption("Safe will execute"@)
            &&& leg == leg_model(*x.inner, show)
            &&& foot.len() == 1
            &&& foot[0] == (RowModel::HashField {
                label: "Each owner signs (SafeTx hash)"@,
                hash: x.safe_tx_hash,
            })
        },
{
    lemma_exec_labels();
    let rows = step_panel(SignStep::SafeExec(x), show, now)->Around_0;
    assert(rows[2] == RowModel::AddressField { label: "Safe"@, addr: x.safe });
    if let Some(g) = x.guard {
        assert(rows[5] == RowModel::AddressField { label: "Transaction guard"@, addr: g });
    }
}

/// A Safe transaction says its own nonce; where others are queued ahead of it, it
/// also says where the Safe is and how many come first.
pub proof fn a_safe_transaction_says_its_nonce(x: SafeExecReview, show: bool, now: nat)
    ensures
        step_panel(SignStep::SafeExec(x), show, now) matches StepPanelModel::Around(rows, _, _) && {
            &&& x.nonce <= x.onchain_nonce ==> states(rows, "Nonce"@, dec(x.nonce as nat))
            &&& x.nonce > x.onchain_nonce ==> states(
                rows,
                "Nonce"@,
                dec(x.nonce as nat) + " (Safe is at "@ + dec(x.onchain_nonce as nat) + ", "@ + dec(
                    (x.nonce - x.onchain_nonce) as nat,
                ) + " queued ahead)"@,
            )
        },
{
    lemma_exec_labels();
    let rows = step_panel(SignStep::SafeExec(x), show, now)->Around_0;
    assert(rows[3] == RowModel::Field {
        label: "Nonce"@,
        value: nonce_text(x),
    });
}

/// What a Safe does with its target is said: it calls it, or runs its code as its
/// own; anything else is called unknown.
pub proof fn a_safe_transaction_says_its_operation(x: SafeExecReview, show: bool, now: nat)
    ensures
        step_panel(SignStep::SafeExec(x), show, now) matches StepPanelModel::Around(rows, _, _) && {
            &&& x.operation == 0 ==> states(rows, "Operation"@, "0 (call)"@)
            &&& x.operation == 1 ==> states(rows, "Operation"@, "1 (delegatecall)"@)
            &&& x.operation > 1 ==> states(
                rows,
                "Operation"@,
                dec(x.operation as nat) + " (unknown)"@,
            )
        },
{
    lemma_exec_labels();
    let rows = step_panel(SignStep::SafeExec(x), show, now)->Around_0;
    assert(rows[4] == RowModel::Field {
        label: "Operation"@,
        value: operation_text(x.operation),
    });
}

/// A delegatecall is bannered as one, whatever its target; the target is called
/// canonical for the two call-only libraries and for no other, and any other is
/// said not to be. Every other operation is to be refused.
pub proof fn a_banner_says_what_the_operation_is(operation: u8, to: Address)
    requires
        operation != 0,
    ensures
        operation == 1 ==> {
            let intro =
                "This transaction runs the target's code AS the Safe. Code reached this way can change owners, drain all funds, or replace the Safe's implementation. "@;
            operation_row(operation, to) matches RowModel::Banner { title, body } && {
                &&& title == "⚠ DELEGATECALL"@
                &&& to == (Address {
                    hi: 0x40a2_accb,
                    lo: 0xd92b_ca93_8b02_010e_17a5_b892_9b49_130d,
                }) ==> body == intro
                    + "The target is the canonical Safe MultiSendCallOnly 1.3.0 library, which can only make plain calls — this is the expected shape for a batch."@
                &&& to == (Address {
                    hi: 0x9641_d764,
                    lo: 0xfc13_c8b6_24c0_4430_c735_6c1c_7c81_02e2,
                }) ==> body == intro
                    + "The target is the canonical Safe MultiSendCallOnly 1.4.1 library, which can only make plain calls — this is the expected shape for a batch."@
                &&& to != (Address {
                    hi: 0x40a2_accb,
                    lo: 0xd92b_ca93_8b02_010e_17a5_b892_9b49_130d,
                }) && to != (Address {
                    hi: 0x9641_d764,
                    lo: 0xfc13_c8b6_24c0_4430_c735_6c1c_7c81_02e2,
                }) ==> body == intro + ("The target "@ + to.short_text()
                    + " is NOT a canonical Safe MultiSend library. Do not sign unless you know exactly what code lives there."@)
            }
        },
        operation > 1 ==> operation_row(operation, to) == (RowModel::Banner {
            title: "⚠ MALFORMED OPERATION"@,
            body: "operation = "@ + dec(operation as nat)
                + " is neither CALL (0) nor DELEGATECALL (1). Refuse this transaction."@,
        }),
{
}

/// A plain call without guard and queue has no warning among its rows; each of
/// the three adds one, and only that one.
pub proof fn each_circumstance_adds_its_warning(x: SafeExecReview, show: bool, now: nat)
    ensures
        step_panel(SignStep::SafeExec(x), show, now) matches StepPanelModel::Around(rows, _, _) && {
            let head: int = if x.guard is Some {
                6
            } else {
                5
            };
            let banner: int = if x.operation == 0 {
                0
            } else {
                1
            };
            let guard: int = if x.guard is Some {
                1
            } else {
                0
            };
            let queue: int = if x.nonce > x.onchain_nonce {
                1
            } else {
                0
            };
            &&& rows.len() == head + banner + guard + queue + 1
            &&& x.operation != 0 ==> rows[head] == operation_row(x.operation, x.inner.to)
            &&& x.guard is Some ==> rows[head + banner] == RowModel::Note(
                "This Safe has a transaction guard installed. A guard can reject this transaction when it executes, and the preflight simulation does not run it — a passing preflight is not a promise that the guard will allow this."@,
            )
            &&& x.nonce > x.onchain_nonce ==> rows[head + banner + guard] == RowModel::Note(
                queue_note(x),
            )
        },
{
}

/// The note on a queue says how many transactions come first, at which nonces,
/// and at which nonce this one is signed.
pub proof fn a_queue_is_counted(x: SafeExecReview)
    requires
        x.nonce > x.onchain_nonce,
    ensures
        ({
            let n = (x.nonce - x.onchain_nonce) as nat;
            let first = dec(x.onchain_nonce as nat);
            let last = dec((x.nonce - 1) as nat);
            &&& n == 1 ==> says(
                queue_note(x),
                "This Safe already has "@ + dec(1) + " transaction queued at nonce "@ + first + "–"@
                    + last,
            )
            &&& n > 1 ==> says(
                queue_note(x),
                "This Safe already has "@ + dec(n) + " transactions queued at nonces "@ + first
                    + "–"@ + last,
            )
            &&& says(queue_note(x), ". Signing at nonce "@ + dec(x.nonce as nat))
        }),
{
    let n = (x.nonce - x.onchain_nonce) as nat;
    let first = dec(x.onchain_nonce as nat);
    let last = dec((x.nonce - 1) as nat);
    let none = Seq::<char>::empty();
    let place = queue_place(x);
    let tail =
        " puts this one behind them: it can only be queued, not executed now, and it becomes executable once those ahead of it have run. Filing it at the Safe's current nonce instead would compete with them — whichever executed first would void the other."@;
    let at = ". Signing at nonce "@ + dec(x.nonce as nat);
    assert(queue_note(x) =~= place + at + tail);
    lemma_says(place, at, tail);
    lemma_says(none, place, at + tail);
    assert(none + place + (at + tail) =~= queue_note(x));
    lemma_place(n, first, last);
    assert(place == "This Safe already has "@ + dec(n) + " transaction"@ + plural(n)
        + " queued at nonce"@ + plural(n) + " "@ + first + "–"@ + last);
}

/// The note says what being queued means.
pub proof fn a_queue_note_says_what_follows(x: SafeExecReview)
    requires
        x.nonce > x.onchain_nonce,
    ensures
        ({
            let tail =
                " puts this one behind them: it can only be queued, not executed now, and it becomes executable once those ahead of it have run. Filing it at the Safe's current nonce instead would compete with them — whichever executed first would void the other."@;
            let n = queue_note(x).len() as int;
            n >= tail.len() && queue_note(x).skip(n - tail.len()) == tail
        }),
{
    let tail =
        " puts this one behind them: it can only be queued, not executed now, and it becomes executable once those ahead of it have run. Filing it at the Safe's current nonce instead would compete with them — whichever executed first would void the other."@;
    let n = queue_note(x).len() as int;
    assert(queue_note(x).skip(n - tail.len()) =~= tail);
}

proof fn lemma_place(n: nat, first: Seq<char>, last: Seq<char>)
    ensures
        ({
            let place = "This Safe already has "@ + dec(n) + " transaction"@ + plural(
                n,
            ) + " queued at nonce"@ + plural(n) + " "@ + first + "–"@ + last;
            &&& n == 1 ==> place == "This Safe already has "@ + dec(1)
                + " transaction queued at nonce "@ + first + "–"@ + last
            &&& n != 1 ==> place == "This Safe already has "@ + dec(n)
                + " transactions queued at nonces "@ + first + "–"@ + last
        }),
{
    reveal_strlit(" transaction");
    reveal_strlit(" queued at nonce");
    reveal_strlit(" ");
    reveal_strlit(" transaction queued at nonce ");
    reveal_strlit(" transactions queued at nonces ");
    let p = plural(n);
    let mid = " transaction"@ + p + " queued at nonce"@ + p + " "@;
    if n == 1 {
        assert(mid =~= " transaction queued at nonce "@);
    } else {
        assert(mid =~= " transactions queued at nonces "@);
    }
    let a = "This Safe already has "@ + dec(n);
    assert(a + " transaction"@ + p + " queued at nonce"@ + p + " "@ + first + "–"@ + last =~= a + mid
        + first + "–"@ + last);
}

// ── an order ────────────────────────────────────────────────────────

proof fn lemma_order_labels()
    ensures
        "Receiver"@ != "Settlement"@,
        "Receiver"@ != "Authorizing Safe"@,
        "Settlement"@ != "Authorizing Safe"@,
        "You sell"@ != "Receive (est.)"@,
        "You sell"@ != "Min received"@,
        "You sell"@ != "Order type"@,
        "You sell"@ != "Solver fee"@,
        "You sell"@ != "Expires"@,
        "You sell"@ != "Network"@,
        "You sell"@ != "Settles"@,
        "Receive (est.)"@ != "Min received"@,
        "Receive (est.)"@ != "Order type"@,
        "Receive (est.)"@ != "Solver fee"@,
        "Receive (est.)"@ != "Expires"@,
        "Receive (est.)"@ != "Network"@,
        "Receive (est.)"@ != "Settles"@,
        "Min received"@ != "Order type"@,
        "Min received"@ != "Solver fee"@,
        "Min received"@ != "Expires"@,
        "Min received"@ != "Network"@,
        "Min received"@ != "Settles"@,
        "Expires"@ != "Order type"@,
        "Expires"@ != "Solver fee"@,
        "Expires"@ != "Network"@,
        "Expires"@ != "Settles"@,
        "Network"@ != "Order type"@,
        "Network"@ != "Solver fee"@,
        "Network"@ != "Settles"@,
        "Settles"@ != "Order type"@,
        "Settles"@ != "Solver fee"@,
        "Order type"@ != "Solver fee"@,
        "Order digest (CoW EIP-712)"@ != "Each owner signs (SafeMessage hash)"@,
{
    reveal_strlit("Receiver");
    reveal_strlit("Settlement");
    reveal_strlit("Authorizing Safe");
    reveal_strlit("You sell");
    reveal_strlit("Receive (est.)");
    reveal_strlit("Min received");
    reveal_strlit("Order type");
    reveal_strlit("Solver fee");
    reveal_strlit("Expires");
    reveal_strlit("Network");
    reveal_strlit("Settles");
    reveal_strlit("Order digest (CoW EIP-712)");
    reveal_strlit("Each owner signs (SafeMessage hash)");
    assert("Order type"@[0] == 'O');
    assert("Solver fee"@[0] == 'S');
    assert("Expires"@[0] == 'E');
    assert("Network"@[0] == 'N');
    assert("Settles"@[0] == 'S');
    assert("Receiver"@.len() == 8);
    assert("Settlement"@.len() == 10);
    assert("Authorizing Safe"@.len() == 16);
    assert("You sell"@.len() == 8);
    assert("Receive (est.)"@.len() == 14);
    assert("Min received"@.len() == 12);
    assert("Order type"@.len() == 10);
    assert("Solver fee"@.len() == 10);
    assert("Expires"@.len() == 7);
    assert("Network"@.len() == 7);
    assert("Settles"@.len() == 7);
    assert("Order digest (CoW EIP-712)"@.len() == 26);
    assert("Each owner signs (SafeMessage hash)"@.len() == 35);
}

/// Whether rows say what an order gives, what it takes, to whom, until when,
/// where and how.
#[verifier::opaque]
pub open spec fn says_the_order(rows: Seq<RowModel>, o: OrderReview, now: nat) -> bool {
    &&& rows[0] == RowModel::Caption("CoW order — EIP-712 signature"@)
    &&& rows[1] == RowModel::Heading(
        "Sell "@ + o.sell_amount@ + " "@ + o.sell_symbol@ + " for at least "@ + o.min_received@
            + " "@ + o.buy_symbol@,
    )
    &&& states(rows, "You sell"@, o.sell_amount@ + " "@ + o.sell_symbol@)
    &&& states(rows, "Receive (est.)"@, o.buy_amount@ + " "@ + o.buy_symbol@)
    &&& states(
        rows,
        "Min received"@,
        o.min_received@ + " "@ + o.buy_symbol@ + " · "@ + percent_text(o.slippage_bps as nat)
            + " slippage"@,
    )
    &&& states(rows, "Order type"@, "Sell · fill-or-kill"@)
    &&& states(rows, "Solver fee"@, "taken from price (signed fee 0)"@)
    &&& names(rows, "Receiver"@, o.receiver)
    &&& names(rows, "Settlement"@, o.settlement)
    &&& states(rows, "Expires"@, expiry_text(o.valid_to as nat, now))
    &&& states(rows, "Network"@, o.chain.name_text())
    &&& o.native ==> states(rows, "Settles"@, "on-chain (native ETH) · costs gas"@)
    &&& !o.native ==> states(rows, "Settles"@, "off-chain via solvers · gasless"@)
}

/// An order is shown as it is signed, on its own and behind a Safe.
pub proof fn an_order_says_what_is_traded(
    o: OrderReview,
    m: SafeMessageReview,
    show: bool,
    now: nat,
)
    ensures
        step_panel(SignStep::Typed(o), show, now) matches StepPanelModel::Rows(rows)
            && says_the_order(rows, o, now),
        step_panel(SignStep::SafeMessage(m), show, now) matches StepPanelModel::Rows(rows)
            && says_the_order(rows, m.order, now),
{
    lemma_typed_order(o, now);
    lemma_message_order(m, now);
}

proof fn lemma_typed_order(o: OrderReview, now: nat)
    ensures
        says_the_order(typed_rows(order_model(o, now)), o, now),
{
    let rows = typed_rows(order_model(o, now));
    assert(rows.take(rows.len() as int) =~= rows);
    lemma_order(o, rows, now);
}

proof fn lemma_message_order(m: SafeMessageReview, now: nat)
    ensures
        says_the_order(message_rows(m, now), m.order, now),
{
    let own = typed_rows(order_model(m.order, now));
    let rows = message_rows(m, now);
    assert(rows.take(own.len() as int) =~= own);
    lemma_order(m.order, rows, now);
}

#[verifier::rlimit(40)]
proof fn lemma_order(o: OrderReview, rows: Seq<RowModel>, now: nat)
    requires
        ({
            let own = typed_rows(order_model(o, now));
            &&& rows.len() >= own.len()
            &&& rows.take(own.len() as int) == own
            &&& forall|k: int|
                own.len() <= k < rows.len() ==> !((#[trigger] rows[k]) is Field) && (
                rows[k] matches RowModel::AddressField { label, .. } ==> label
                    == "Authorizing Safe"@)
        }),
    ensures
        says_the_order(rows, o, now),
{
    lemma_order_labels();
    reveal(says_the_order);
    let own = typed_rows(order_model(o, now));
    assert(own.len() == 12);
    assert(forall|k: int| 0 <= k < 12 ==> #[trigger] rows[k] == rows.take(12)[k]);
    assert(rows[2] == own[2]);
    assert(rows[3] == own[3]);
    assert(rows[4] == own[4]);
    assert(rows[5] == own[5]);
    assert(rows[6] == own[6]);
    assert(rows[7] == own[7]);
    assert(rows[8] == own[8]);
    assert(rows[9] == own[9]);
    assert(rows[10] == own[10]);
    assert(rows[11] == own[11]);
}

/// An order behind a Safe says which Safe authorizes it, how many owners sign,
/// what the order hashes to and what each owner signs.
pub proof fn a_safe_message_says_who_authorizes_it(m: SafeMessageReview, now: nat)
    ensures
        names(message_rows(m, now), "Authorizing Safe"@, m.safe),
        shows_hash(message_rows(m, now), "Order digest (CoW EIP-712)"@, m.order_digest),
        shows_hash(message_rows(m, now), "Each owner signs (SafeMessage hash)"@, m.message_hash),
        message_rows(m, now).contains(
            RowModel::Caption(
                "Authorized via EIP-1271 — "@ + dec(m.threshold as nat) + "-of-"@ + dec(
                    m.owner_count as nat,
                ) + " owners sign"@,
            ),
        ),
{
    lemma_order_labels();
    let rows = message_rows(m, now);
    assert(rows.len() == 16);
    assert(rows[12] == RowModel::Caption(
        "Authorized via EIP-1271 — "@ + dec(m.threshold as nat) + "-of-"@ + dec(
            m.owner_count as nat,
        ) + " owners sign"@,
    ));
    assert(rows[13] == RowModel::AddressField { label: "Authorizing Safe"@, addr: m.safe });
    assert(rows[14] == RowModel::HashField {
        label: "Order digest (CoW EIP-712)"@,
        hash: m.order_digest,
    });
    assert(rows[15] == RowModel::HashField {
        label: "Each owner signs (SafeMessage hash)"@,
        hash: m.message_hash,
    });
}

/// A hundred basis points are one percent: the whole percents come first, then
/// up to two digits of what is over, without a trailing zero.
pub proof fn basis_points_are_hundredths(whole: nat, rest: nat)
    requires
        rest < 100,
    ensures
        rest == 0 ==> percent_text(100 * whole + rest) == dec(whole) + "%"@,
        rest > 0 && rest % 10 == 0 ==> percent_text(100 * whole + rest) == dec(whole) + "."@ + dec(
            rest / 10,
        ) + "%"@,
        rest % 10 != 0 && rest >= 10 ==> percent_text(100 * whole + rest) == dec(whole) + "."@
            + dec(rest) + "%"@,
        rest % 10 != 0 && rest < 10 ==> percent_text(100 * whole + rest) == dec(whole) + "."@
            + seq!['0'] + dec(rest) + "%"@,
{
    let bps = 100 * whole + rest;
    assert(bps / 100 == whole && bps % 100 == rest) by (nonlinear_arith)
        requires
            bps == 100 * whole + rest,
            rest < 100,
    ;
    assert(bps % 10 == rest % 10);
    assert((bps / 10) % 10 == rest / 10);
    reveal_with_fuel(dec_fixed, 3);
    reveal_with_fuel(dec, 3);
    assert(dec_fixed(bps / 10, 1) =~= seq![digit((rest / 10) as int)]);
    assert(dec_fixed(bps, 2) =~= seq![digit((rest / 10) as int), digit((rest % 10) as int)]);
    if rest >= 10 {
        assert(rest / 10 < 10);
        assert(dec(rest) =~= seq![digit((rest / 10) as int), digit((rest % 10) as int)]);
    } else {
        assert(dec(rest) == seq![digit(rest as int)]);
        assert(digit(0) == '0');
        assert(dec_fixed(bps, 2) =~= seq!['0'] + dec(rest));
        assert(dec(whole) + "."@ + (seq!['0'] + dec(rest)) + "%"@ =~= dec(whole) + "."@ + seq!['0']
            + dec(rest) + "%"@);
    }
    assert(dec(rest / 10) == seq![digit((rest / 10) as int)]);
}

/// A span is told in seconds up to a minute and a half, then in whole minutes,
/// and from an hour on in whole hours.
pub proof fn a_span_is_rounded_down(secs: nat, n: nat)
    ensures
        secs < 90 ==> span_text(secs) == dec(secs) + "s"@,
        90 <= secs < 3600 && 60 * n <= secs < 60 * (n + 1) ==> span_text(secs) == dec(n) + " min"@,
        3600 <= secs && 3600 * n <= secs < 3600 * (n + 1) ==> span_text(secs) == dec(n) + " hr"@,
{
    if 60 * n <= secs < 60 * (n + 1) {
        assert(secs / 60 == n);
    }
    if 3600 * n <= secs < 3600 * (n + 1) {
        assert(secs / 3600 == n);
    }
}

/// An expiry is told as a time of day in UTC, and how far off it is only where
/// the present is known and has not passed it.
pub proof fn an_expiry_is_a_date(valid_to: nat, now: nat)
    ensures
        expiry_text(valid_to, 0) == utc_text(valid_to),
        valid_to <= now ==> expiry_text(valid_to, now) == utc_text(valid_to),
        0 < now < valid_to ==> expiry_text(valid_to, now) == utc_text(valid_to) + " (in "@
            + span_text((valid_to - now) as nat) + ")"@,
{
}

// ── a call ──────────────────────────────────────────────────────────

proof fn lemma_lead(leg: ReviewLeg, title: RowModel)
    requires
        title is Heading || title is Caption,
    ensures
        ({
            let lead = lead_rows(leg, title);
            &&& 1 <= lead.len() <= 3
            &&& lead[0] == title
            &&& forall|k: int|
                0 <= k < lead.len() ==> !((#[trigger] lead[k]) is Field) && !(lead[k]
                    is AddressField) && !(lead[k] is EtherField)
        }),
{
}

/// A call is headed by its title; where it targets the account that signs, the
/// banner that says so is next, with the warning as it stands; then its headline.
pub proof fn a_call_is_headed_by_its_title(leg: ReviewLeg, show: bool)
    ensures
        leg_rows(leg, show)[0] == RowModel::Heading(leg.title@),
        sub_leg_rows(leg, show)[0] == RowModel::Caption(leg.title@),
        leg.self_admin matches Some(w) ==> {
            let banner = RowModel::Banner {
                title: "⚠ THIS CALL TARGETS THE SIGNING ACCOUNT"@,
                body: w@,
            };
            leg_rows(leg, show)[1] == banner && sub_leg_rows(leg, show)[1] == banner
        },
        leg.headline matches Some(h) ==> {
            let at: int = if leg.self_admin is Some {
                2
            } else {
                1
            };
            leg_rows(leg, show)[at] == RowModel::Headline(card_of(h)) && sub_leg_rows(
                leg,
                show,
            )[at] == RowModel::Headline(card_of(h))
        },
{
}

/// Unless an authored sentence stands in its place, a call says whom it goes to,
/// on which network, and how much it sends.
#[verifier::rlimit(40)]
pub proof fn a_call_says_its_parts(leg: ReviewLeg, show: bool)
    requires
        show || leg.headline is None || !leg.headline->0.clear_signed,
    ensures
        names(leg_rows(leg, show), "To"@, leg.to),
        states(leg_rows(leg, show), "Network"@, leg.net.name_text()),
        shows_value(leg_rows(leg, show), leg.value),
        names(sub_leg_rows(leg, show), "To"@, leg.to),
        leg.value.hi > 0 || leg.value.lo > 0 ==> shows_value(sub_leg_rows(leg, show), leg.value),
        leg.value.hi == 0 && leg.value.lo == 0 ==> forall|k: int|
            0 <= k < sub_leg_rows(leg, show).len() ==> !((#[trigger] sub_leg_rows(leg, show)[k])
                is EtherField),
{
    let rows = leg_rows(leg, show);
    let heading = RowModel::Heading(leg.title@);
    lemma_lead(leg, heading);
    let lead = lead_rows(leg, heading);
    assert(forall|k: int| 0 <= k < lead.len() ==> rows[k] == #[trigger] lead[k]);
    let at: int = lead.len() + (if leg.collapsible() {
        1int
    } else {
        0
    });
    assert(rows[at] == RowModel::AddressField { label: "To"@, addr: leg.to });
    assert(rows[at + 1] == RowModel::Field { label: "Network"@, value: leg.net.name_text() });
    assert(rows[at + 2] == RowModel::EtherField { label: "Value"@, wei: leg.value });
    let caption = RowModel::Caption(leg.title@);
    lemma_lead(leg, caption);
    let sub = sub_leg_rows(leg, show);
    let lead = lead_rows(leg, caption);
    assert(forall|k: int| 0 <= k < lead.len() ==> sub[k] == #[trigger] lead[k]);
    let n = lead.len() as int;
    assert(sub[n] == RowModel::AddressField { label: "To"@, addr: leg.to });
    if leg.value != U256::zero_value() {
        assert(sub[n + 1] == RowModel::EtherField { label: "Value"@, wei: leg.value });
    }
}

/// A call that is not folded ends in what it decodes to beyond its sentence, where
/// it decodes to anything.
pub proof fn a_call_ends_in_what_it_decodes_to(leg: ReviewLeg, show: bool)
    requires
        show || leg.headline is None || !leg.headline->0.clear_signed,
    ensures
        ({
            let said = match leg.headline {
                Some(h) => Some(h.text@),
                None => None,
            };
            &&& panel(Some(*leg.decoded), said, false) matches Some(p) ==> leg_rows(
                leg,
                show,
            ).last() == RowModel::Panel(p) && sub_leg_rows(leg, show).last() == RowModel::Panel(p)
            &&& panel(Some(*leg.decoded), said, false) is None ==> !(leg_rows(leg, show).last()
                is Panel) && !(sub_leg_rows(leg, show).last() is Panel)
        }),
{
    let said = match leg.headline {
        Some(h) => Some(h.text@),
        None => None,
    };
    assert(said == leg.said());
    let p = panel(Some(*leg.decoded), said, false);
    assert(decode_rows(leg).len() == if p is Some {
        1nat
    } else {
        0
    });
}

/// A folded call keeps its title, its warning and its sentence, offers to unfold,
/// and says no more.
pub proof fn a_folded_call_is_its_lead(leg: ReviewLeg)
    requires
        leg.headline is Some,
        leg.headline->0.clear_signed,
    ensures
        leg_rows(leg, false).last() == (RowModel::DetailToggle { shown: false }),
        leg_rows(leg, false).len() == if leg.self_admin is Some {
            4nat
        } else {
            3
        },
        leg_rows(leg, true).contains(RowModel::DetailToggle { shown: true }),
        sub_leg_rows(leg, false).len() == if leg.self_admin is Some {
            3nat
        } else {
            2
        },
{
    let k: int = if leg.self_admin is Some {
        3
    } else {
        2
    };
    assert(leg_rows(leg, true)[k] == RowModel::DetailToggle { shown: true });
}

/// A batch shows every call inside it, each in its place, and says how many there
/// are; a single call says nothing of the kind.
pub proof fn a_batch_shows_every_call(leg: ReviewLeg, show: bool, now: nat)
    ensures
        step_panel(SignStep::RawTx(leg), show, now) matches StepPanelModel::Leg(card) && {
            &&& card.rows == leg_rows(leg, show)
            &&& card.subs.len() == leg.sub_legs@.len()
            &&& forall|i: int|
                0 <= i < leg.sub_legs@.len() ==> #[trigger] card.subs[i] == sub_leg_rows(
                    leg.sub_legs@[i],
                    show,
                )
            &&& leg.sub_legs@.len() == 0 ==> card.caption is None
            &&& leg.sub_legs@.len() == 1 ==> card.caption == Some(
                "This transaction performs "@ + dec(1) + " call"@ + " — all-or-nothing"@,
            )
            &&& leg.sub_legs@.len() > 1 ==> card.caption == Some(
                "This transaction performs "@ + dec(leg.sub_legs@.len()) + " call"@ + seq!['s']
                    + " — all-or-nothing"@,
            )
        },
{
    let a = "This transaction performs "@ + dec(1) + " call"@;
    assert(a + Seq::<char>::empty() + " — all-or-nothing"@ =~= a + " — all-or-nothing"@);
    assert(plural(1) =~= Seq::<char>::empty());
}

// ── fingerprints ────────────────────────────────────────────────────

/// Whether a step has a fingerprint of that hash under a label, and no other
/// under it.
pub open spec fn prints(step: SignStep, label: Seq<char>, hash: B256) -> bool {
    let all = fingerprints(step);
    &&& all.contains(FingerprintModel { label, digest: DigestModel::Hash(hash) })
    &&& forall|k: int|
        0 <= k < all.len() && (#[trigger] all[k]).label == label ==> all[k].digest
            == DigestModel::Hash(hash)
}

proof fn lemma_print_labels()
    ensures
        "EIP-712 Digest"@ != "Domain Hash"@,
        "EIP-712 Digest"@ != "Message Hash"@,
        "Domain Hash"@ != "Message Hash"@,
        "EIP-712 Digest"@ != "Calldata Digest (inner call)"@,
        "Domain Hash"@ != "Calldata Digest (inner call)"@,
        "Message Hash"@ != "Calldata Digest (inner call)"@,
        "EIP-712 Digest"@ != "Order Digest (CoW EIP-712)"@,
        "Domain Hash"@ != "Order Digest (CoW EIP-712)"@,
        "Message Hash"@ != "Order Digest (CoW EIP-712)"@,
{
    reveal_strlit("EIP-712 Digest");
    reveal_strlit("Domain Hash");
    reveal_strlit("Message Hash");
    reveal_strlit("Calldata Digest (inner call)");
    reveal_strlit("Order Digest (CoW EIP-712)");
    assert("EIP-712 Digest"@.len() == 14);
    assert("Domain Hash"@.len() == 11);
    assert("Message Hash"@.len() == 12);
    assert("Calldata Digest (inner call)"@.len() == 28);
    assert("Order Digest (CoW EIP-712)"@.len() == 26);
}

/// The three hashes of a typed signature stand under their own names, whichever
/// kind of step asks for the signature.
pub proof fn typed_hashes_stand_under_their_names(step: SignStep)
    ensures
        step matches SignStep::Typed(o) ==> prints(step, "EIP-712 Digest"@, o.eip712.digest)
            && prints(step, "Domain Hash"@, o.eip712.domain_hash) && prints(
            step,
            "Message Hash"@,
            o.eip712.message_hash,
        ),
        step matches SignStep::SafeExec(x) ==> prints(step, "EIP-712 Digest"@, x.eip712.digest)
            && prints(step, "Domain Hash"@, x.eip712.domain_hash) && prints(
            step,
            "Message Hash"@,
            x.eip712.message_hash,
        ),
        step matches SignStep::SafeMessage(m) ==> prints(step, "EIP-712 Digest"@, m.eip712.digest)
            && prints(step, "Domain Hash"@, m.eip712.domain_hash) && prints(
            step,
            "Message Hash"@,
            m.eip712.message_hash,
        ) && prints(step, "Order Digest (CoW EIP-712)"@, m.order_digest),
        step matches SignStep::SafeSend(r) ==> prints(step, "EIP-712 Digest"@, r.eip712.digest)
            && prints(step, "Domain Hash"@, r.eip712.domain_hash) && prints(
            step,
            "Message Hash"@,
            r.eip712.message_hash,
        ),
{
    lemma_print_labels();
    let all = fingerprints(step);
    if step is Typed || step is SafeExec || step is SafeMessage || step is SafeSend {
        let a = all[0];
        let b = all[1];
        let c = all[2];
        assert(all.contains(a) && all.contains(b) && all.contains(c));
    }
    if step is SafeMessage {
        assert(all.contains(all[3]));
    }
}

/// What a transaction carries is fingerprinted: the calldata of a call and of the
/// call inside a Safe's, the digest that a send states, and the authorization of
/// a delegation; and a step with none of these has no fingerprint of the kind.
pub proof fn calldata_is_fingerprinted(step: SignStep)
    ensures
        step matches SignStep::RawTx(leg) ==> {
            &&& leg.calldata@.len() == 0 ==> fingerprints(step).len() == 0
            &&& leg.calldata@.len() > 0 ==> fingerprints(step) == seq![
                FingerprintModel {
                    label: "Calldata Digest"@,
                    digest: DigestModel::OfCalldata(leg.calldata@),
                },
            ]
        },
        step matches SignStep::SafeExec(x) ==> {
            &&& x.inner.calldata@.len() == 0 ==> fingerprints(step).len() == 3
            &&& x.inner.calldata@.len() > 0 ==> fingerprints(step).len() == 4 && fingerprints(
                step,
            )[3] == (FingerprintModel {
                label: "Calldata Digest (inner call)"@,
                digest: DigestModel::OfCalldata(x.inner.calldata@),
            })
        },
        step matches SignStep::Delegation(d) ==> {
            &&& d.auth_digest is None ==> fingerprints(step).len() == 0
            &&& d.auth_digest matches Some(h) ==> fingerprints(step) == seq![
                FingerprintModel {
                    label: "Authorization Digest (EIP-7702)"@,
                    digest: DigestModel::Hash(h),
                },
            ]
        },
        step matches SignStep::Send(r) ==> {
            &&& r.calldata_digest is None ==> fingerprints(step).len() == 0
            &&& r.calldata_digest matches Some(h) ==> fingerprints(step) == seq![
                FingerprintModel { label: "Calldata Digest"@, digest: DigestModel::Hash(h) },
            ]
        },
        step matches SignStep::SafeSend(r) ==> {
            &&& r.inner_calldata_digest is None ==> fingerprints(step).len() == 3
            &&& r.inner_calldata_digest matches Some(h) ==> fingerprints(step).len() == 4
                && fingerprints(step)[3] == (FingerprintModel {
                label: "Calldata Digest (inner call)"@,
                digest: DigestModel::Hash(h),
            })
        },
        step is Typed ==> fingerprints(step).len() == 3,
        step is SafeMessage ==> fingerprints(step).len() == 4,
{
}

/// A section of fingerprints is shown as asked: unfolded it has every row, folded
/// it has none, and its button says what a press does.
pub proof fn a_section_is_shown_as_asked(rows: Seq<FingerprintModel>, show: bool)
    ensures
        section(rows, show) is None <==> rows.len() == 0,
        rows.len() > 0 && show ==> (section(rows, show) matches Some(s) && s.shown && s.rows == rows
            && s.action == "hide"@),
        rows.len() > 0 && !show ==> (section(rows, show) matches Some(s) && !s.shown && s.rows.len()
            == 0 && s.action == "verify hashes"@),
{
}

} // verus!

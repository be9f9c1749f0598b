//! What holds of every review.

use vstd::prelude::*;

use crate::function_panel::card_of;
use crate::primitives::U256;
use crate::sign_review::economics::badge_text;
use crate::sign_review::economics::economics_model;
use crate::sign_review::legs::leg_rows;
use crate::sign_review::legs::self_admin_row;
use crate::sign_review::legs::sub_leg_rows;
use crate::sign_review::overlay::footer_model;
use crate::sign_review::overlay::overlay_model;
use crate::sign_review::overlay::shown_economics;
use crate::sign_review::overlay::waiting_model;
use crate::sign_review::overlay::FooterModel;
use crate::sign_review::steps::eip712_prints;
use crate::sign_review::steps::exec_head;
use crate::sign_review::steps::exec_rows;
use crate::sign_review::steps::exec_warnings;
use crate::sign_review::steps::fingerprints;
use crate::sign_review::steps::operation_row;
use crate::sign_review::steps::section;
use crate::sign_review::BatchEconomics;
use crate::sign_review::DelegationReview;
use crate::sign_review::Eip712Digests;
use crate::sign_review::Message;
use crate::sign_review::ReviewLeg;
use crate::sign_review::RowModel;
use crate::sign_review::SafeExecReview;
use crate::sign_review::SignReview;
use crate::sign_review::SignStep;
use crate::sign_review::SigningKind;
use crate::text::model_of;

pub mod figures;
pub mod steps;
pub mod views;

verus! {

/// Whether the overlay offers a message on one of its buttons.
pub open spec fn offers(footer: FooterModel, m: Message) -> bool {
    match footer {
        FooterModel::Waiting(_) => false,
        FooterModel::Gate { dismiss, confirm, secondary } => {
            ||| dismiss.action == Some(m)
            ||| confirm.action == Some(m)
            ||| match secondary {
                Some(b) => b.action == Some(m),
                None => false,
            }
        },
    }
}

/// A review that has put a transaction on the wire cannot be confirmed again,
/// whatever else happens to it, and says so; it can only be closed.
pub proof fn a_broadcast_review_cannot_be_confirmed(review: SignReview)
    requires
        review.broadcast is Some,
    ensures
        !offers(footer_model(review), Message::Confirm),
        !offers(footer_model(review), Message::Secondary),
        footer_model(review) matches FooterModel::Gate { dismiss, confirm, .. } ==> {
            &&& confirm.label == "Already broadcast"@
            &&& dismiss.label == "Close"@
        },
{
}

/// Nothing is confirmed before every step has been shown.
pub proof fn unseen_steps_cannot_be_confirmed(review: SignReview)
    requires
        review.legs_loading,
    ensures
        !offers(footer_model(review), Message::Confirm),
        !offers(footer_model(review), Message::Secondary),
{
}

/// A review that is ready can be confirmed, and a review that can be confirmed
/// is ready: its phase is "confirm", nothing blocks it, and nothing was
/// broadcast.
pub proof fn a_ready_review_can_be_confirmed(review: SignReview)
    ensures
        offers(footer_model(review), Message::Confirm) == (review.signing_since is None
            && !review.legs_loading && !review.confirm_disabled && review.broadcast is None),
        offers(footer_model(review), Message::Secondary) == (offers(
            footer_model(review),
            Message::Confirm,
        ) && review.secondary_label is Some),
        offers(footer_model(review), Message::Confirm) ==> review.phase_name() == "confirm"@,
{
}

/// While a signature is awaited the review cannot be dismissed, neither by a
/// button nor by a click beside it.
pub proof fn a_signing_review_stays_open(
    review: SignReview,
    now: nat,
    gas: Seq<char>,
    gwei: Option<Seq<char>>,
)
    requires
        review.signing_since is Some,
    ensures
        overlay_model(review, now, gas, gwei).backdrop == Message::BoxClickIgnored,
        !offers(overlay_model(review, now, gas, gwei).footer, Message::Cancel),
        !offers(overlay_model(review, now, gas, gwei).footer, Message::Confirm),
{
}

/// Before that it can always be dismissed.
pub proof fn an_unsigned_review_can_be_dismissed(
    review: SignReview,
    now: nat,
    gas: Seq<char>,
    gwei: Option<Seq<char>>,
)
    requires
        review.signing_since is None,
    ensures
        overlay_model(review, now, gas, gwei).backdrop == Message::Cancel,
        offers(overlay_model(review, now, gas, gwei).footer, Message::Cancel),
{
}

/// The warning that a call targets the signing account is on screen however
/// the detail is folded, and comes before the headline.
pub proof fn a_call_to_oneself_is_never_folded_away(leg: ReviewLeg, show_detail: bool)
    requires
        leg.self_admin is Some,
    ensures
        leg_rows(leg, show_detail).len() > 1,
        leg_rows(leg, show_detail)[1] == self_admin_row(leg.self_admin->0@),
        sub_leg_rows(leg, show_detail).len() > 1,
        sub_leg_rows(leg, show_detail)[1] == self_admin_row(leg.self_admin->0@),
{
}

/// So is the headline, with the caution that qualifies it.
pub proof fn a_headline_is_never_folded_away(leg: ReviewLeg, show_detail: bool)
    requires
        leg.headline is Some,
    ensures
        leg_rows(leg, show_detail).contains(RowModel::Headline(card_of(leg.headline->0))),
        sub_leg_rows(leg, show_detail).contains(RowModel::Headline(card_of(leg.headline->0))),
        card_of(leg.headline->0).caution == model_of(leg.headline->0.caution),
{
    let i: int = if leg.self_admin is Some {
        2
    } else {
        1
    };
    assert(leg_rows(leg, show_detail)[i] == RowModel::Headline(card_of(leg.headline->0)));
    assert(sub_leg_rows(leg, show_detail)[i] == RowModel::Headline(card_of(leg.headline->0)));
}

/// A leg without an authored sentence hides nothing: folding does not change
/// it.
pub proof fn an_unauthored_leg_does_not_fold(leg: ReviewLeg)
    requires
        !leg.collapsible(),
    ensures
        leg_rows(leg, true) == leg_rows(leg, false),
        sub_leg_rows(leg, true) == sub_leg_rows(leg, false),
{
}

/// Whoever is paid is on screen unless an authored sentence stands in its place
/// and the detail is folded.
pub proof fn the_destination_is_shown(leg: ReviewLeg, show_detail: bool)
    requires
        !leg.collapsible() || show_detail,
    ensures
        leg_rows(leg, show_detail).contains(
            (RowModel::AddressField { label: "To"@, addr: leg.to }),
        ),
        leg_rows(leg, show_detail).contains(
            (RowModel::EtherField { label: "Value"@, wei: leg.value }),
        ),
        sub_leg_rows(leg, show_detail).contains(
            (RowModel::AddressField { label: "To"@, addr: leg.to }),
        ),
        leg.value != U256::zero_value() ==> sub_leg_rows(leg, show_detail).contains(
            (RowModel::EtherField { label: "Value"@, wei: leg.value }),
        ),
{
    let lead: int = 1 + (if leg.self_admin is Some {
        1int
    } else {
        0
    }) + (if leg.headline is Some {
        1int
    } else {
        0
    });
    let toggle: int = if leg.collapsible() {
        1
    } else {
        0
    };
    let to = RowModel::AddressField { label: "To"@, addr: leg.to };
    let value = RowModel::EtherField { label: "Value"@, wei: leg.value };
    assert(leg_rows(leg, show_detail)[lead + toggle] == to);
    assert(leg_rows(leg, show_detail)[lead + toggle + 2] == value);
    assert(sub_leg_rows(leg, show_detail)[lead] == to);
    if leg.value != U256::zero_value() {
        assert(sub_leg_rows(leg, show_detail)[lead + 1] == value);
    }
}

/// A Safe transaction that is not a plain call carries a banner that says so,
/// before the call it executes.
pub proof fn only_a_plain_call_goes_without_a_banner(x: SafeExecReview)
    requires
        x.operation != 0,
    ensures
        exec_rows(x).contains(operation_row(x.operation, x.inner.to)),
{
    let head = exec_head(x);
    assert(exec_warnings(x)[0] == operation_row(x.operation, x.inner.to));
    assert(exec_rows(x)[head.len() as int] == operation_row(x.operation, x.inner.to));
}

/// The hashes of the typed data that a step signs; nothing for a plain
/// transaction or an authorization.
pub open spec fn signed_digests(step: SignStep) -> Option<Eip712Digests> {
    match step {
        SignStep::Typed(order) => Some(order.eip712),
        SignStep::SafeExec(x) => Some(x.eip712),
        SignStep::SafeMessage(m) => Some(m.eip712),
        SignStep::SafeSend(r) => Some(r.eip712),
        _ => None,
    }
}

/// Every signature of typed data shows the three hashes of the signature, first.
pub proof fn typed_signatures_show_their_hashes(step: SignStep)
    requires
        signed_digests(step) is Some,
    ensures
        fingerprints(step).len() >= 3,
        fingerprints(step).take(3) == eip712_prints(signed_digests(step)->0),
{
    match step {
        SignStep::Typed(order) => {
            assert(fingerprints(step).take(3) =~= eip712_prints(order.eip712));
        },
        SignStep::SafeExec(x) => {
            assert(fingerprints(step).take(3) =~= eip712_prints(x.eip712));
        },
        SignStep::SafeMessage(m) => {
            assert(fingerprints(step).take(3) =~= eip712_prints(m.eip712));
        },
        SignStep::SafeSend(r) => {
            assert(fingerprints(step).take(3) =~= eip712_prints(r.eip712));
        },
        _ => {},
    }
}

/// A step has a section of fingerprints exactly when it has fingerprints, and
/// unfolding the section shows all of them.
pub proof fn fingerprints_are_all_shown(step: SignStep)
    ensures
        (section(fingerprints(step), true) is None) == (fingerprints(step).len() == 0),
        (section(fingerprints(step), false) is None) == (fingerprints(step).len() == 0),
        fingerprints(step).len() > 0 ==> section(fingerprints(step), true)->0.rows == fingerprints(
            step,
        ),
{
}

/// A delegation that is already in place displaces none, nor does one onto the
/// account's own incumbent.
pub proof fn an_incumbent_is_not_replaced_by_itself(d: DelegationReview)
    requires
        d.incumbent is None || d.incumbent == Some(d.delegate),
    ensures
        d.displaced() is None,
{
}

/// Only figures that were simulated, verified and fresh are vouched for.
pub proof fn only_fresh_verified_figures_are_vouched_for(
    e: BatchEconomics,
    gas: Seq<char>,
    gwei: Option<Seq<char>>,
)
    ensures
        economics_model(e, gas, gwei).vouched == (e.simulated && e.verified && !e.stale),
        badge_text(e) == "✓ Verified by Helios"@ ==> economics_model(e, gas, gwei).vouched,
{
    reveal_strlit("✓ Verified by Helios");
    reveal_strlit("not simulated");
    reveal_strlit("⚠ Simulated a while ago");
    reveal_strlit("⚠ Unverified simulation");
    let tick = "✓ Verified by Helios"@;
    assert(tick.len() == 20);
    assert("not simulated"@.len() == 13);
    assert("⚠ Simulated a while ago"@.len() == 23);
    assert("⚠ Unverified simulation"@.len() == 23);
}

/// Economics are shown exactly when they state a movement or a fee.
pub proof fn economics_with_nothing_to_say_are_left_out(
    review: SignReview,
    gas: Seq<char>,
    gwei: Option<Seq<char>>,
)
    ensures
        (shown_economics(review, gas, gwei) is Some) == (match review.economics {
            Some(e) => e.moves@.len() > 0 || (e.gas_used > 0 && e.base_fee_per_gas > 0),
            None => false,
        }),
{
}

/// The notice lists every owner of a ceremony, each in its place.
pub proof fn a_ceremony_lists_every_owner(kind: SigningKind)
    ensures
        kind matches SigningKind::SafeExecute { owners, .. } ==> waiting_model(
            Some(kind),
        ).owners.len() == owners@.len(),
        kind is SafePropose ==> waiting_model(Some(kind)).owners.len() == 1,
{
}

} // verus!

//! What a review says of what moves and what it costs, and what its buttons do.

use vstd::arithmetic::div_mod::lemma_mod_breakdown;
use vstd::arithmetic::div_mod::lemma_small_mod;
use vstd::prelude::*;

use crate::primitives::B256;
use crate::sign_review::economics::economics_model;
use crate::sign_review::economics::ether_text;
use crate::sign_review::economics::without_zeros;
use crate::sign_review::overlay::footer_model;
use crate::sign_review::overlay::overlay_model;
use crate::sign_review::overlay::shown_economics;
use crate::sign_review::overlay::waiting_model;
use crate::sign_review::overlay::FooterModel;
use crate::sign_review::overlay::OwnerModel;
use crate::sign_review::steps::step_model;
use crate::sign_review::BatchEconomics;
use crate::sign_review::Message;
use crate::sign_review::SignReview;
use crate::sign_review::SigningKind;
use crate::sign_review::SigningOwner;
use crate::text::dec;
use crate::text::dec_fixed;
use crate::text::laws::a_padded_decimal_reads_back;
use crate::text::laws::all_decimal;
use crate::text::laws::read_decimal;
use crate::text::ten_to;

verus! {

// ── amounts ─────────────────────────────────────────────────────────

proof fn lemma_without_zeros(s: Seq<char>)
    requires
        all_decimal(s),
    ensures
        without_zeros(s).len() <= s.len(),
        all_decimal(without_zeros(s)),
        without_zeros(s).len() > 0 ==> without_zeros(s).last() != '0',
        read_decimal(s) == read_decimal(without_zeros(s)) * ten_to(
            (s.len() - without_zeros(s).len()) as nat,
        ),
    decreases s.len(),
{
    if s.len() > 0 && s.last() == '0' {
        let init = s.drop_last();
        assert forall|i: int| 0 <= i < init.len() implies '0' <= #[trigger] init[i] && init[i]
            <= '9' by {
            assert(init[i] == s[i]);
        }
        lemma_without_zeros(init);
        let t = without_zeros(init);
        let n = (init.len() - t.len()) as nat;
        assert(read_decimal(s) == read_decimal(init) * 10);
        assert(ten_to(n + 1) == 10 * ten_to(n));
        assert(without_zeros(s) == t);
        let r = read_decimal(t);
        let p = ten_to(n);
        assert(r * p * 10 == r * (10 * p)) by (nonlinear_arith);
    } else {
        let r = read_decimal(s);
        assert(ten_to(0) == 1);
        assert(r * 1 == r);
    }
}

/// An amount in ether is the whole coins, and behind a point what is left of one
/// coin, to the last wei and without trailing zeros.
pub proof fn an_amount_of_ether_is_exact(wei: nat)
    ensures
        wei % 1_000_000_000_000_000_000 == 0 ==> ether_text(wei) == dec(
            wei / 1_000_000_000_000_000_000,
        ),
        wei % 1_000_000_000_000_000_000 != 0 ==> exists|f: Seq<char>|
            {
                &&& ether_text(wei) == dec(wei / 1_000_000_000_000_000_000) + "."@ + f
                &&& 0 < f.len() <= 18
                &&& f.last() != '0'
                &&& all_decimal(f)
                &&& #[trigger] read_decimal(f) * ten_to((18 - f.len()) as nat) == wei
                    % 1_000_000_000_000_000_000
            },
{
    let rest = wei % 1_000_000_000_000_000_000;
    if rest != 0 {
        let s = dec_fixed(wei, 18);
        lemma_fixed_is_remainder(wei, 18);
        a_padded_decimal_reads_back(rest, 18);
        assert(ten_to(18) == 1_000_000_000_000_000_000) by {
            reveal_with_fuel(ten_to, 19);
        }
        lemma_without_zeros(s);
        let f = without_zeros(s);
        if f.len() == 0 {
            assert(read_decimal(f) == 0);
            assert(0 * ten_to(18) == 0) by (nonlinear_arith);
            assert(false);
        }
        assert(read_decimal(f) * ten_to((18 - f.len()) as nat) == rest);
    }
}

proof fn lemma_fixed_is_remainder(n: nat, width: nat)
    ensures
        ten_to(width) > 0,
        dec_fixed(n, width) == dec_fixed(n % ten_to(width), width),
    decreases width,
{
    if width > 0 {
        let w = (width - 1) as nat;
        lemma_fixed_is_remainder(n / 10, w);
        let t = ten_to(w);
        let m = n % (10 * t);
        lemma_mod_breakdown(n as int, 10, t as int);
        let q = (n / 10) % t;
        assert(q < t) by (nonlinear_arith)
            requires
                t > 0,
                q == (n / 10) % t,
        ;
        assert(m == 10 * q + n % 10);
        assert(m / 10 == q && m % 10 == n % 10);
        lemma_fixed_is_remainder(q, w);
        lemma_small_mod(q, t);
    }
}

/// The fee is the gas times its price, and is told only where both are known.
pub proof fn a_fee_is_gas_times_its_price(
    e: BatchEconomics,
    gas: Seq<char>,
    gwei: Option<Seq<char>>,
)
    ensures
        economics_model(e, gas, gwei).fee is Some <==> e.gas_used > 0 && e.base_fee_per_gas > 0,
        economics_model(e, gas, gwei).fee matches Some(f) ==> {
            &&& f.line == "≈ "@ + ether_text(e.gas_used as nat * e.base_fee_per_gas as nat)
                + " ETH fee"@
            &&& gwei matches Some(g) ==> f.basis == gas + " gas at "@ + g + " gwei base fee"@
            &&& gwei is None ==> f.basis == gas + " gas"@
            &&& f.caveats.len() == e.fee_caveats@.len()
            &&& forall|i: int|
                0 <= i < e.fee_caveats@.len() ==> #[trigger] f.caveats[i] == "· "@
                    + e.fee_caveats@[i]@
        },
{
}

/// Everything that moves is listed in its place: what leaves with a minus, what
/// arrives with a plus, and the amount as it stands.
pub proof fn every_movement_is_listed(
    e: BatchEconomics,
    gas: Seq<char>,
    gwei: Option<Seq<char>>,
    i: int,
)
    requires
        0 <= i < e.moves@.len(),
    ensures
        ({
            let card = economics_model(e, gas, gwei);
            &&& card.header == "This transaction moves"@
            &&& card.moves.len() == e.moves@.len()
            &&& card.moves[i].direction == e.moves@[i].direction
            &&& e.moves@[i].direction is Out ==> card.moves[i].line == "−"@ + " "@
                + e.moves@[i].amount@
            &&& e.moves@[i].direction is In ==> card.moves[i].line == "+"@ + " "@
                + e.moves@[i].amount@
        }),
{
}

/// The badge says what stands behind the figures, and only a good one vouches.
pub proof fn a_badge_says_what_stands_behind(
    e: BatchEconomics,
    gas: Seq<char>,
    gwei: Option<Seq<char>>,
)
    ensures
        ({
            let card = economics_model(e, gas, gwei);
            &&& !e.simulated ==> card.badge == "not simulated"@ && !card.vouched && card.gap
                == "Token movement wasn't simulated for this batch, so this list covers only the native value the calls carry — run the preflight to see ERC-20 and NFT movement."@
            &&& e.simulated ==> card.gap
                == "ETH arriving back in the account isn't tracked here — native transfers emit no event. The ETH these calls send is exact."@
            &&& e.simulated && e.stale ==> card.badge == "⚠ Simulated a while ago"@
                && !card.vouched
            &&& e.simulated && !e.stale && e.verified ==> card.badge == "✓ Verified by Helios"@
                && card.vouched
            &&& e.simulated && !e.stale && !e.verified ==> card.badge
                == "⚠ Unverified simulation"@ && !card.vouched
            &&& e.moves@.len() == 0 ==> card.header == "Cost"@ && card.moves.len() == 0
        }),
{
}

/// A review shows its economics exactly when something moves or a fee is known,
/// and then the card of those figures.
pub proof fn economics_are_shown_where_they_say_something(
    review: SignReview,
    gas: Seq<char>,
    gwei: Option<Seq<char>>,
)
    ensures
        review.economics is None ==> shown_economics(review, gas, gwei) is None,
        review.economics matches Some(e) ==> {
            let says = e.moves@.len() > 0 || (e.gas_used > 0 && e.base_fee_per_gas > 0);
            &&& says ==> shown_economics(review, gas, gwei) == Some(economics_model(e, gas, gwei))
            &&& !says ==> shown_economics(review, gas, gwei) is None
        },
{
}

// ── buttons ─────────────────────────────────────────────────────────

/// While nothing is being signed the review has a way out and a way on: the way
/// out cancels, and the way on confirms where confirming is allowed and does
/// nothing elsewhere.
pub proof fn the_buttons_do_what_they_say(review: SignReview)
    requires
        review.signing_since is None,
    ensures
        footer_model(review) matches FooterModel::Gate { dismiss, confirm, secondary } && {
            let open = !review.legs_loading && !review.confirm_disabled && review.broadcast is None;
            &&& dismiss.action == Some(Message::Cancel)
            &&& review.broadcast is None ==> dismiss.label == "Cancel"@
            &&& review.broadcast is Some ==> dismiss.label == "Close"@
            &&& open ==> confirm.action == Some(Message::Confirm)
            &&& !open ==> confirm.action is None
            &&& review.broadcast is Some ==> confirm.label == "Already broadcast"@
            &&& review.broadcast is None && review.confirm_label is None ==> confirm.label
                == "Confirm & sign"@
            &&& review.broadcast is None ==> (review.confirm_label matches Some(l) ==> confirm.label
                == l@)
            &&& review.secondary_label is None ==> secondary is None
            &&& review.secondary_label matches Some(l) ==> (secondary matches Some(b) && b.label
                == l@ && (open ==> b.action == Some(Message::Secondary)) && (!open ==> b.action
                is None))
        },
{
}

/// While a signature is awaited, the review says so in place of its buttons.
pub proof fn a_signing_review_waits(review: SignReview)
    requires
        review.signing_since is Some,
    ensures
        footer_model(review) == FooterModel::Waiting(waiting_model(review.signing_progress)),
{
}

/// Whether a line says who signs at which place, and how.
pub open spec fn says_the_owner(
    line: OwnerModel,
    place: nat,
    owner: SigningOwner,
) -> bool {
    &&& line.head == dec(place) + ". "@ + owner.label@ + " · "@ + owner.address.short_text()
    &&& owner.hardware ==> line.how == "confirm on device"@
    &&& !owner.hardware ==> line.how == "signs automatically"@
}

/// A Safe's owners are asked one after the other, from the first on, and it is
/// said who broadcasts afterwards.
pub proof fn owners_sign_in_turn(owners: Vec<SigningOwner>, separate_gas_payer: bool)
    ensures
        ({
            let card = waiting_model(
                Some(SigningKind::SafeExecute { owners, separate_gas_payer }),
            );
            &&& card.notice == "Approve the Safe transaction on each owner in turn:"@
            &&& owners@.len() > 1 ==> card.title == "Waiting for signatures"@
            &&& owners@.len() <= 1 ==> card.title == "Waiting for a signature"@
            &&& card.owners.len() == owners@.len()
            &&& forall|i: int|
                0 <= i < owners@.len() ==> says_the_owner(
                    #[trigger] card.owners[i],
                    (i + 1) as nat,
                    owners@[i],
                )
            &&& separate_gas_payer ==> card.after == Some(
                "Then a linked account broadcasts it and pays the gas."@,
            )
            &&& !separate_gas_payer ==> card.after == Some(
                "Then owner 1 re-signs to broadcast it and pay the gas."@,
            )
            &&& card.hash is None
        }),
{
}

/// A proposal is signed by one owner, and finished by others.
pub proof fn one_owner_proposes(owner: SigningOwner)
    ensures
        ({
            let card = waiting_model(Some(SigningKind::SafePropose { owner }));
            &&& card.title == "Waiting for a signature"@
            &&& owner.hardware ==> card.notice
                == "Approve the Safe transaction on your device to propose it."@
            &&& !owner.hardware ==> card.notice
                == "Signing the Safe transaction to propose it to co-signers."@
            &&& card.owners.len() == 1
            &&& says_the_owner(card.owners[0], 1, owner)
            &&& card.after == Some("Co-signers finish it from their own wallets."@)
            &&& card.hash is None
        }),
{
}

/// A batch of a plain account takes two signatures where its delegation is new and
/// one where it is not; what is on the wire is named by its hash; and anything
/// else is confirmed on the device.
pub proof fn the_notice_says_what_is_awaited(hash: B256)
    ensures
        ({
            let fresh = waiting_model(
                Some(SigningKind::Eip7702Batch { fresh_authorization: true }),
            );
            let again = waiting_model(
                Some(SigningKind::Eip7702Batch { fresh_authorization: false }),
            );
            let sent = waiting_model(Some(SigningKind::Broadcasting { hash }));
            let plain = waiting_model(None);
            &&& fresh.notice
                == "Two signatures: first the account delegation, then the batch that uses it. On a hardware wallet that is two separate prompts — the first names the delegate, the second the transaction."@
            &&& again.notice
                == "One signature: your account already runs the batch executor's code, so no new delegation is authorized."@
            &&& sent.notice == "Broadcast — waiting for it to be mined."@
            &&& plain.notice
                == "Confirm the transaction on your device — this window stays open until it's signed."@
            &&& sent.hash == Some(hash)
            &&& fresh.hash is None && again.hash is None && plain.hash is None
            &&& fresh.owners.len() == 0 && again.owners.len() == 0 && sent.owners.len() == 0
                && plain.owners.len() == 0
            &&& fresh.after is None && again.after is None && sent.after is None && plain.after
                is None
        }),
{
}

/// The overlay shows the review it was given: its title, every step in its place,
/// its note, and the error it ended in.
pub proof fn the_overlay_shows_the_review(
    review: SignReview,
    now: nat,
    gas: Seq<char>,
    gwei: Option<Seq<char>>,
)
    ensures
        ({
            let o = overlay_model(review, now, gas, gwei);
            &&& o.title == review.title@
            &&& review.subtitle matches Some(t) ==> o.subtitle == Some(t@)
            &&& review.subtitle is None ==> o.subtitle is None
            &&& review.note matches Some(t) ==> o.note == Some(t@)
            &&& review.note is None ==> o.note is None
            &&& review.error matches Some(t) ==> o.error == Some("(╥﹏╥) "@ + t@)
            &&& review.error is None ==> o.error is None
            &&& o.steps.len() == review.steps@.len()
            &&& forall|i: int|
                0 <= i < review.steps@.len() ==> (#[trigger] o.steps[i]).card == step_model(
                    review.steps@[i],
                    review.show_calldata,
                    review.show_fingerprints,
                    now,
                )
            &&& (o.preparing is Some) == review.legs_loading
            &&& o.economics == shown_economics(review, gas, gwei)
            &&& o.footer == footer_model(review)
            &&& review.signing_since is Some ==> o.backdrop == Message::BoxClickIgnored
            &&& review.signing_since is None ==> o.backdrop == Message::Cancel
        }),
{
}

/// The steps stand apart, and a little further behind an order; the notice that
/// steps are still being prepared keeps that distance too.
pub proof fn steps_stand_apart(
    review: SignReview,
    now: nat,
    gas: Seq<char>,
    gwei: Option<Seq<char>>,
    i: int,
)
    requires
        0 <= i < review.steps@.len(),
    ensures
        ({
            let o = overlay_model(review, now, gas, gwei);
            &&& i == 0 ==> o.steps[i].gap == 0
            &&& i > 0 && review.steps@[i - 1] is Typed ==> o.steps[i].gap == 12
            &&& i > 0 && !(review.steps@[i - 1] is Typed) ==> o.steps[i].gap == 10
            &&& review.legs_loading && review.steps@.last() is Typed ==> o.preparing == Some(12u16)
            &&& review.legs_loading && !(review.steps@.last() is Typed) ==> o.preparing == Some(
                0u16,
            )
        }),
{
}

/// A review is in one phase at a time: it signs once signing began, and before
/// that it prepares until its steps are there.
pub proof fn a_review_is_in_one_phase(review: SignReview)
    ensures
        review.signing_since is Some ==> review.phase_name() == "signing"@,
        review.signing_since is None && review.legs_loading ==> review.phase_name() == "prepare"@,
        review.signing_since is None && !review.legs_loading ==> review.phase_name()
            == "confirm"@,
{
}

} // verus!

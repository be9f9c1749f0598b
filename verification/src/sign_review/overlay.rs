//! The overlay: the steps under review, what they cost, and the buttons.

use vstd::prelude::*;

use crate::primitives::short_address;
use crate::primitives::B256;
use crate::sign_review::economics::economics_card;
use crate::sign_review::economics::economics_model;
use crate::sign_review::economics::EconomicsCard;
use crate::sign_review::economics::EconomicsModel;
use crate::sign_review::steps::step_card;
use crate::sign_review::steps::step_model;
use crate::sign_review::steps::StepCard;
use crate::sign_review::steps::StepModel;
use crate::sign_review::Message;
use crate::sign_review::SignAction;
use crate::sign_review::SignReview;
use crate::sign_review::SignStep;
use crate::sign_review::SigningKind;
use crate::sign_review::SigningOwner;
use crate::text::dec;
use crate::text::decimal_usize;
use crate::text::lemma_next;
use crate::text::model_of;
use crate::text::models;
use crate::text::none_of;
use crate::text::replicate_opt;

verus! {

impl SignReview {
    /// The phase of a review.
    pub open spec fn phase_name(self) -> Seq<char> {
        if self.signing_since is Some {
            "signing"@
        } else if self.legs_loading {
            "prepare"@
        } else {
            "confirm"@
        }
    }

    /// "prepare" while steps are being prepared, "confirm" once the buttons
    /// are live, "signing" after the user confirmed.
    pub fn phase(&self) -> (r: &'static str)
        ensures
            r@ == self.phase_name(),
    {
        if self.signing_since.is_some() {
            "signing"
        } else if self.legs_loading {
            "prepare"
        } else {
            "confirm"
        }
    }

    /// A review whose steps are still being prepared.
    pub fn pending(
        title: String,
        subtitle: Option<String>,
        steps: Vec<SignStep>,
        note: Option<String>,
        seq: u64,
        action: SignAction,
    ) -> (r: Self)
        ensures
            r == (SignReview {
                title,
                subtitle,
                steps,
                legs_loading: true,
                note,
                seq,
                action,
                signing_since: None,
                error: None,
                confirm_label: None,
                confirm_disabled: false,
                secondary_label: None,
                show_calldata: false,
                show_fingerprints: false,
                signing_progress: None,
                economics: None,
                broadcast: None,
            }),
    {
        SignReview {
            title,
            subtitle,
            steps,
            legs_loading: true,
            note,
            seq,
            action,
            signing_since: None,
            error: None,
            confirm_label: None,
            confirm_disabled: false,
            secondary_label: None,
            show_calldata: false,
            show_fingerprints: false,
            signing_progress: None,
            economics: None,
            broadcast: None,
        }
    }

    /// Whether the review can be confirmed.
    pub open spec fn confirmable(self) -> bool {
        !self.legs_loading && !self.confirm_disabled && self.broadcast is None
    }

    /// Whether the decodes of every step can be laid out.
    pub open spec fn indentable(self) -> bool {
        forall|i: int| 0 <= i < self.steps@.len() ==> (#[trigger] self.steps@[i]).indentable()
    }
}

// ── waiting for a signature ─────────────────────────────────────────

/// An owner in a ceremony.
#[derive(Debug, Clone, PartialEq, Eq)]
pub struct OwnerLine {
    pub head: String,
    pub how: &'static str,
}

#[verifier::ext_equal]
pub struct OwnerModel {
    pub head: Seq<char>,
    pub how: Seq<char>,
}

impl View for OwnerLine {
    type V = OwnerModel;

    open spec fn view(&self) -> OwnerModel {
        OwnerModel { head: self.head@, how: self.how@ }
    }
}

/// The notice while a signature is awaited.
#[derive(Debug, Clone, PartialEq, Eq)]
pub struct WaitingCard {
    pub title: &'static str,
    pub notice: &'static str,
    /// Who signs, in order.
    pub owners: Vec<OwnerLine>,
    /// What happens after the owners have signed.
    pub after: Option<&'static str>,
    /// The transaction whose receipt is awaited.
    pub hash: Option<B256>,
}

#[verifier::ext_equal]
pub struct WaitingModel {
    pub title: Seq<char>,
    pub notice: Seq<char>,
    pub owners: Seq<OwnerModel>,
    pub after: Option<Seq<char>>,
    pub hash: Option<B256>,
}

impl View for WaitingCard {
    type V = WaitingModel;

    open spec fn view(&self) -> WaitingModel {
        WaitingModel {
            title: self.title@,
            notice: self.notice@,
            owners: models(self.owners@),
            after: model_of(self.after),
            hash: self.hash,
        }
    }
}

/// The `i`th owner of a ceremony.
pub open spec fn owner_model(i: nat, owner: SigningOwner) -> OwnerModel {
    OwnerModel {
        head: dec(i + 1) + ". "@ + owner.label@ + " · "@ + owner.address.short_text(),
        how: if owner.hardware {
            "confirm on device"@
        } else {
            "signs automatically"@
        },
    }
}

/// The owners of a ceremony, in order.
pub open spec fn owner_models(owners: Seq<SigningOwner>) -> Seq<OwnerModel> {
    Seq::new(owners.len(), |i: int| owner_model(i as nat, owners[i]))
}

/// The title of the notice: several signatures only where several owners sign.
pub open spec fn waiting_title(progress: Option<SigningKind>) -> Seq<char> {
    match progress {
        Some(SigningKind::SafeExecute { owners, .. }) => if owners@.len() > 1 {
            "Waiting for signatures"@
        } else {
            "Waiting for a signature"@
        },
        _ => "Waiting for a signature"@,
    }
}

/// What to do while a signature is awaited.
pub open spec fn waiting_notice(progress: Option<SigningKind>) -> Seq<char> {
    match progress {
        Some(SigningKind::SafeExecute { .. }) =>
            "Approve the Safe transaction on each owner in turn:"@,
        Some(SigningKind::SafePropose { owner }) => if owner.hardware {
            "Approve the Safe transaction on your device to propose it."@
        } else {
            "Signing the Safe transaction to propose it to co-signers."@
        },
        Some(SigningKind::Broadcasting { .. }) => "Broadcast — waiting for it to be mined."@,
        Some(SigningKind::Eip7702Batch { fresh_authorization }) => if fresh_authorization {
            "Two signatures: first the account delegation, then the batch that uses it. On a hardware wallet that is two separate prompts — the first names the delegate, the second the transaction."@
        } else {
            "One signature: your account already runs the batch executor's code, so no new delegation is authorized."@
        },
        None =>
            "Confirm the transaction on your device — this window stays open until it's signed."@,
    }
}

/// What happens after the owners have signed.
pub open spec fn waiting_after(progress: Option<SigningKind>) -> Option<Seq<char>> {
    match progress {
        Some(SigningKind::SafeExecute { separate_gas_payer, .. }) => if separate_gas_payer {
            Some("Then a linked account broadcasts it and pays the gas."@)
        } else {
            Some("Then owner 1 re-signs to broadcast it and pay the gas."@)
        },
        Some(SigningKind::SafePropose { .. }) => Some(
            "Co-signers finish it from their own wallets."@,
        ),
        _ => None,
    }
}

/// The notice while a signature is awaited.
pub open spec fn waiting_model(progress: Option<SigningKind>) -> WaitingModel {
    WaitingModel {
        title: waiting_title(progress),
        notice: waiting_notice(progress),
        owners: match progress {
            Some(SigningKind::SafeExecute { owners, .. }) => owner_models(owners@),
            Some(SigningKind::SafePropose { owner }) => seq![owner_model(0, owner)],
            _ => seq![],
        },
        after: waiting_after(progress),
        hash: match progress {
            Some(SigningKind::Broadcasting { hash }) => Some(hash),
            _ => None,
        },
    }
}

/// The `i`th owner of a ceremony: its place, its name, and how it signs.
fn owner_line(i: usize, owner: &SigningOwner) -> (r: OwnerLine)
    requires
        i < usize::MAX,
    ensures
        r@ == owner_model(i as nat, *owner),
{
    let mut head: String = decimal_usize(i + 1);
    head.append(". ");
    head.append(owner.label.as_str());
    head.append(" · ");
    head.append(short_address(owner.address).as_str());
    OwnerLine {
        head,
        how: if owner.hardware {
            "confirm on device"
        } else {
            "signs automatically"
        },
    }
}

/// The owners of a ceremony, in order.
pub fn ceremony_owner_list(owners: &Vec<SigningOwner>) -> (r: Vec<OwnerLine>)
    ensures
        models(r@) == owner_models(owners@),
{
    let mut out: Vec<OwnerLine> = none_of();
    let n: usize = owners.len();
    let mut i: usize = 0;
    while i < n
        invariant
            n == owners@.len(),
            i <= n,
            models(out@) =~= owner_models(owners@).take(i as int),
        decreases n - i,
    {
        let ghost before = out@;
        let line: OwnerLine = owner_line(i, &owners[i]);
        out.push(line);
        proof {
            let all = owner_models(owners@);
            assert(models(out@) =~= models(before).push(line@));
            lemma_next(all, i as int);
        }
        i = i + 1;
    }
    proof {
        assert(owner_models(owners@).take(n as int) =~= owner_models(owners@));
    }
    out
}

/// What to do while a signature is awaited.
fn notice_line(progress: &Option<SigningKind>) -> (r: &'static str)
    ensures
        r@ == waiting_notice(*progress),
{
    match progress {
        Some(SigningKind::SafeExecute { .. }) =>
            "Approve the Safe transaction on each owner in turn:",
        Some(SigningKind::SafePropose { owner }) => if owner.hardware {
            "Approve the Safe transaction on your device to propose it."
        } else {
            "Signing the Safe transaction to propose it to co-signers."
        },
        Some(SigningKind::Broadcasting { .. }) => "Broadcast — waiting for it to be mined.",
        Some(SigningKind::Eip7702Batch { fresh_authorization }) => if *fresh_authorization {
            "Two signatures: first the account delegation, then the batch that uses it. On a hardware wallet that is two separate prompts — the first names the delegate, the second the transaction."
        } else {
            "One signature: your account already runs the batch executor's code, so no new delegation is authorized."
        },
        None =>
            "Confirm the transaction on your device — this window stays open until it's signed.",
    }
}

/// The notice that takes the place of the buttons while a signature is awaited: how
/// many prompts to expect, and on which accounts.
pub fn waiting_card(progress: &Option<SigningKind>) -> (r: WaitingCard)
    ensures
        r@ == waiting_model(*progress),
{
    let notice: &'static str = notice_line(progress);
    match progress {
        Some(SigningKind::SafeExecute { owners, separate_gas_payer }) => WaitingCard {
            title: if owners.len() > 1 {
                "Waiting for signatures"
            } else {
                "Waiting for a signature"
            },
            notice,
            owners: ceremony_owner_list(owners),
            after: if *separate_gas_payer {
                Some("Then a linked account broadcasts it and pays the gas.")
            } else {
                Some("Then owner 1 re-signs to broadcast it and pay the gas.")
            },
            hash: None,
        },
        Some(SigningKind::SafePropose { owner }) => {
            let mut owners: Vec<OwnerLine> = none_of();
            let line: OwnerLine = owner_line(0, owner);
            owners.push(line);
            proof {
                assert(models(owners@) =~= seq![line@]);
            }
            WaitingCard {
                title: "Waiting for a signature",
                notice,
                owners,
                after: Some("Co-signers finish it from their own wallets."),
                hash: None,
            }
        },
        Some(SigningKind::Broadcasting { hash }) => WaitingCard {
            title: "Waiting for a signature",
            notice,
            owners: none_of(),
            after: None,
            hash: Some(*hash),
        },
        _ => WaitingCard {
            title: "Waiting for a signature",
            notice,
            owners: none_of(),
            after: None,
            hash: None,
        },
    }
}

// ── the buttons ─────────────────────────────────────────────────────

/// A button: its label, and what it does when it can be pressed.
#[derive(Debug, Clone, PartialEq, Eq)]
pub struct Button {
    pub label: String,
    pub action: Option<Message>,
}

#[verifier::ext_equal]
pub struct ButtonModel {
    pub label: Seq<char>,
    pub action: Option<Message>,
}

impl View for Button {
    type V = ButtonModel;

    open spec fn view(&self) -> ButtonModel {
        ButtonModel { label: self.label@, action: self.action }
    }
}

/// The foot of the overlay.
#[derive(Debug, Clone, PartialEq, Eq)]
pub enum Footer {
    /// A signature is awaited.
    Waiting(WaitingCard),
    /// Confirm or dismiss, and perhaps a second way to confirm.
    Gate { dismiss: Button, confirm: Button, secondary: Option<Button> },
}

#[verifier::ext_equal]
pub enum FooterModel {
    Waiting(WaitingModel),
    Gate { dismiss: ButtonModel, confirm: ButtonModel, secondary: Option<ButtonModel> },
}

impl View for Footer {
    type V = FooterModel;

    open spec fn view(&self) -> FooterModel {
        match *self {
            Footer::Waiting(w) => FooterModel::Waiting(w@),
            Footer::Gate { dismiss, confirm, secondary } => FooterModel::Gate {
                dismiss: dismiss@,
                confirm: confirm@,
                secondary: model_of(secondary),
            },
        }
    }
}

/// A message that is sent only when the way is open.
pub open spec fn gated(open: bool, m: Message) -> Option<Message> {
    if open {
        Some(m)
    } else {
        None
    }
}

/// The foot of a review: the buttons, or the notice once the user has confirmed.
pub open spec fn footer_model(review: SignReview) -> FooterModel {
    if review.signing_since is Some {
        FooterModel::Waiting(waiting_model(review.signing_progress))
    } else {
        FooterModel::Gate {
            dismiss: ButtonModel {
                label: if review.broadcast is Some {
                    "Close"@
                } else {
                    "Cancel"@
                },
                action: Some(Message::Cancel),
            },
            confirm: ButtonModel {
                label: if review.broadcast is Some {
                    "Already broadcast"@
                } else {
                    match review.confirm_label {
                        Some(label) => label@,
                        None => "Confirm & sign"@,
                    }
                },
                action: gated(review.confirmable(), Message::Confirm),
            },
            secondary: match review.secondary_label {
                Some(label) => Some(
                    ButtonModel {
                        label: label@,
                        action: gated(review.confirmable(), Message::Secondary),
                    },
                ),
                None => None,
            },
        }
    }
}

/// The foot of a review.
fn footer(review: &SignReview) -> (r: Footer)
    ensures
        r@ == footer_model(*review),
{
    if review.signing_since.is_some() {
        return Footer::Waiting(waiting_card(&review.signing_progress));
    }
    let broadcast: bool = review.broadcast.is_some();
    let enabled: bool = !review.legs_loading && !review.confirm_disabled && !broadcast;
    let label: String = if broadcast {
        "Already broadcast".to_owned()
    } else {
        match &review.confirm_label {
            Some(label) => label.clone(),
            None => "Confirm & sign".to_owned(),
        }
    };
    let dismiss: &str = if broadcast {
        "Close"
    } else {
        "Cancel"
    };
    Footer::Gate {
        dismiss: Button { label: dismiss.to_owned(), action: Some(Message::Cancel) },
        confirm: Button {
            label,
            action: if enabled {
                Some(Message::Confirm)
            } else {
                None
            },
        },
        secondary: match &review.secondary_label {
            Some(sec) => Some(
                Button {
                    label: sec.clone(),
                    action: if enabled {
                        Some(Message::Secondary)
                    } else {
                        None
                    },
                },
            ),
            None => None,
        },
    }
}

// ── the overlay ─────────────────────────────────────────────────────

/// A step, and the room above it.
#[derive(Debug)]
pub struct PlacedStep {
    pub gap: u16,
    pub card: StepCard,
}

#[verifier::ext_equal]
pub struct PlacedModel {
    pub gap: int,
    pub card: StepModel,
}

impl View for PlacedStep {
    type V = PlacedModel;

    open spec fn view(&self) -> PlacedModel {
        PlacedModel { gap: self.gap as int, card: self.card@ }
    }
}

/// The overlay.
#[derive(Debug)]
pub struct Overlay {
    pub title: String,
    pub subtitle: Option<String>,
    pub steps: Vec<PlacedStep>,
    /// Steps are still being prepared: the room above the notice that says so.
    pub preparing: Option<u16>,
    pub economics: Option<EconomicsCard>,
    pub note: Option<String>,
    pub error: Option<String>,
    pub footer: Footer,
    /// What a click beside the overlay does.
    pub backdrop: Message,
}

#[verifier::ext_equal]
pub struct OverlayModel {
    pub title: Seq<char>,
    pub subtitle: Option<Seq<char>>,
    pub steps: Seq<PlacedModel>,
    pub preparing: Option<u16>,
    pub economics: Option<EconomicsModel>,
    pub note: Option<Seq<char>>,
    pub error: Option<Seq<char>>,
    pub footer: FooterModel,
    pub backdrop: Message,
}

impl View for Overlay {
    type V = OverlayModel;

    open spec fn view(&self) -> OverlayModel {
        OverlayModel {
            title: self.title@,
            subtitle: model_of(self.subtitle),
            steps: models(self.steps@),
            preparing: self.preparing,
            economics: model_of(self.economics),
            note: model_of(self.note),
            error: model_of(self.error),
            footer: self.footer@,
            backdrop: self.backdrop,
        }
    }
}

/// The room above the `i`th step: none above the first, and more after typed
/// data.
pub open spec fn step_gap(steps: Seq<SignStep>, i: int) -> int {
    if i == 0 {
        0
    } else if steps[i - 1] is Typed {
        12
    } else {
        10
    }
}

/// The steps of a review, placed.
pub open spec fn placed_steps(review: SignReview, now: nat) -> Seq<PlacedModel> {
    Seq::new(
        review.steps@.len(),
        |i: int|
            PlacedModel {
                gap: step_gap(review.steps@, i),
                card: step_model(
                    review.steps@[i],
                    review.show_calldata,
                    review.show_fingerprints,
                    now,
                ),
            },
    )
}

/// The room above the notice that steps are being prepared.
pub open spec fn preparing_gap(review: SignReview) -> Option<u16> {
    if !review.legs_loading {
        None
    } else if review.steps@.len() > 0 && review.steps@.last() is Typed {
        Some(12)
    } else {
        Some(0)
    }
}

/// The economics of a review, unless there is nothing to say.
pub open spec fn shown_economics(
    review: SignReview,
    gas: Seq<char>,
    gwei: Option<Seq<char>>,
) -> Option<EconomicsModel> {
    match review.economics {
        Some(e) => if e.empty() {
            None
        } else {
            Some(economics_model(e, gas, gwei))
        },
        None => None,
    }
}

/// A broadcast error, as shown.
pub open spec fn error_line(error: Option<Seq<char>>) -> Option<Seq<char>> {
    match error {
        Some(e) => Some("(╥﹏╥) "@ + e),
        None => None,
    }
}

/// The overlay of a review, at a time in Unix seconds and with the texts for the
/// gas and the base fee.
pub open spec fn overlay_model(
    review: SignReview,
    now: nat,
    gas: Seq<char>,
    gwei: Option<Seq<char>>,
) -> OverlayModel {
    OverlayModel {
        title: review.title@,
        subtitle: model_of(review.subtitle),
        steps: placed_steps(review, now),
        preparing: preparing_gap(review),
        economics: shown_economics(review, gas, gwei),
        note: model_of(review.note),
        error: error_line(model_of(review.error)),
        footer: footer_model(review),
        backdrop: if review.signing_since is Some {
            Message::BoxClickIgnored
        } else {
            Message::Cancel
        },
    }
}

/// Whether a step is typed data.
fn is_typed(step: &SignStep) -> (r: bool)
    ensures
        r == (*step is Typed),
{
    match step {
        SignStep::Typed(_) => true,
        _ => false,
    }
}

/// The steps of a review, placed.
fn place_steps(review: &SignReview, now: u64) -> (r: Vec<PlacedStep>)
    requires
        review.indentable(),
    ensures
        models(r@) == placed_steps(*review, now as nat),
{
    let mut out: Vec<PlacedStep> = none_of();
    let n: usize = review.steps.len();
    let mut i: usize = 0;
    while i < n
        invariant
            n == review.steps@.len(),
            i <= n,
            review.indentable(),
            models(out@) =~= placed_steps(*review, now as nat).take(i as int),
        decreases n - i,
    {
        let gap: u16 = if i == 0 {
            0
        } else if is_typed(&review.steps[i - 1]) {
            12
        } else {
            10
        };
        let ghost before = out@;
        let placed: PlacedStep = PlacedStep {
            gap,
            card: step_card(
                &review.steps[i],
                review.show_calldata,
                review.show_fingerprints,
                now,
            ),
        };
        out.push(placed);
        proof {
            let all = placed_steps(*review, now as nat);
            assert(models(out@) =~= models(before).push(placed@));
            lemma_next(all, i as int);
        }
        i = i + 1;
    }
    proof {
        let all = placed_steps(*review, now as nat);
        assert(all.take(n as int) =~= all);
    }
    out
}

/// The overlay of a review. `now` is the time in Unix seconds, zero when it is
/// not known; `gas` and `gwei` are the gas and the base fee as texts.
pub fn view(review: &SignReview, now: u64, gas: &str, gwei: Option<&str>) -> (r: Overlay)
    requires
        review.indentable(),
    ensures
        r@ == overlay_model(*review, now as nat, gas@, model_of(gwei)),
{
    let n: usize = review.steps.len();
    let preparing: Option<u16> = if !review.legs_loading {
        None
    } else if n > 0 && is_typed(&review.steps[n - 1]) {
        Some(12)
    } else {
        Some(0)
    };
    let economics: Option<EconomicsCard> = match &review.economics {
        Some(e) => if e.is_empty() {
            None
        } else {
            Some(economics_card(e, gas, gwei))
        },
        None => None,
    };
    let error: Option<String> = match &review.error {
        Some(e) => {
            let mut s: String = "(╥﹏╥) ".to_owned();
            s.append(e.as_str());
            Some(s)
        },
        None => None,
    };
    Overlay {
        title: review.title.clone(),
        subtitle: replicate_opt(&review.subtitle),
        steps: place_steps(review, now),
        preparing,
        economics,
        note: replicate_opt(&review.note),
        error,
        footer: footer(review),
        backdrop: if review.signing_since.is_some() {
            Message::BoxClickIgnored
        } else {
            Message::Cancel
        },
    }
}

} // verus!

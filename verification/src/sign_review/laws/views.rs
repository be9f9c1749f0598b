//! The models of a review leave nothing out.

use vstd::prelude::*;

use crate::function_panel::Headline;
use crate::function_panel::Panel;
use crate::sign_review::LegCard;
use crate::sign_review::Row;
use crate::sign_review::RowModel;
use crate::sign_review::Rows;
use crate::sign_review::economics::EconomicsCard;
use crate::sign_review::economics::FeeLine;
use crate::sign_review::economics::MoveLine;
use crate::sign_review::overlay::Button;
use crate::sign_review::overlay::Footer;
use crate::sign_review::overlay::FooterModel;
use crate::sign_review::overlay::Overlay;
use crate::sign_review::overlay::OwnerLine;
use crate::sign_review::overlay::PlacedStep;
use crate::sign_review::overlay::WaitingCard;
use crate::sign_review::steps::fingerprints;
use crate::sign_review::steps::Digest;
use crate::sign_review::steps::DigestModel;
use crate::sign_review::steps::Fingerprint;
use crate::sign_review::steps::FingerprintsSection;
use crate::sign_review::steps::StepCard;
use crate::sign_review::steps::StepPanel;
use crate::sign_review::steps::StepPanelModel;
use crate::sign_review::typed::TypedDataModel;
use crate::sign_review::typed::TypedRow;
use crate::sign_review::typed::TypedValue;
use crate::text::model_of;
use crate::text::models;

verus! {

/// The model of a `Row` has every part of it, each in its place.
pub proof fn a_row_is_modelled_in_full(x: Row)
    ensures
        x matches Row::Caption(s) ==> x@ == RowModel::Caption(s@),
        x matches Row::Heading(s) ==> x@ == RowModel::Heading(s@),
        x matches Row::Note(s) ==> x@ == RowModel::Note(s@),
        x matches Row::Alarm(s) ==> x@ == RowModel::Alarm(s@),
        x matches Row::Field { label, value } ==> x@ == (RowModel::Field {
            label: label@,
            value: value@,
        }),
        x matches Row::AddressField { label, addr } ==> x@ == (RowModel::AddressField {
            label: label@,
            addr,
        }),
        x matches Row::HashField { label, hash } ==> x@ == (RowModel::HashField {
            label: label@,
            hash,
        }),
        x matches Row::EtherField { label, wei } ==> x@ == (RowModel::EtherField {
            label: label@,
            wei,
        }),
        x matches Row::Banner { title, body } ==> x@ == (RowModel::Banner {
            title: title@,
            body: body@,
        }),
        x matches Row::Headline(h) ==> x@ == RowModel::Headline(h@),
        x matches Row::DetailToggle { shown } ==> x@ == (RowModel::DetailToggle { shown }),
        x matches Row::Panel(p) ==> x@ == RowModel::Panel(p@),
{
}

/// The model of a `LegCard` has every part of it, each in its place.
pub proof fn a_leg_card_is_modelled_in_full(x: LegCard)
    ensures
        x@.rows == models(x.rows@),
        x@.caption == model_of(x.caption),
        x@.subs == models(x.subs@),
{
}

/// The model of a `MoveLine` has every part of it, each in its place.
pub proof fn a_move_line_is_modelled_in_full(x: MoveLine)
    ensures
        x@.line == x.line@,
        x@.direction == x.direction,
{
}

/// The model of a `FeeLine` has every part of it, each in its place.
pub proof fn a_fee_line_is_modelled_in_full(x: FeeLine)
    ensures
        x@.line == x.line@,
        x@.basis == x.basis@,
        x@.caveats == models(x.caveats@),
{
}

/// The model of an `EconomicsCard` has every part of it, each in its place.
pub proof fn an_economics_card_is_modelled_in_full(x: EconomicsCard)
    ensures
        x@.header == x.header@,
        x@.badge == x.badge@,
        x@.vouched == x.vouched,
        x@.moves == models(x.moves@),
        x@.gap == x.gap@,
        x@.fee == model_of(x.fee),
{
}

/// The model of an `OwnerLine` has every part of it, each in its place.
pub proof fn an_owner_line_is_modelled_in_full(x: OwnerLine)
    ensures
        x@.head == x.head@,
        x@.how == x.how@,
{
}

/// The model of a `WaitingCard` has every part of it, each in its place.
pub proof fn a_waiting_card_is_modelled_in_full(x: WaitingCard)
    ensures
        x@.title == x.title@,
        x@.notice == x.notice@,
        x@.owners == models(x.owners@),
        x@.after == model_of(x.after),
        x@.hash == x.hash,
{
}

/// The model of a `Button` has every part of it, each in its place.
pub proof fn a_button_is_modelled_in_full(x: Button)
    ensures
        x@.label == x.label@,
        x@.action == x.action,
{
}

/// The model of a `Footer` has every part of it, each in its place.
pub proof fn a_footer_is_modelled_in_full(x: Footer)
    ensures
        x matches Footer::Waiting(w) ==> x@ == FooterModel::Waiting(w@),
        x matches Footer::Gate { dismiss, confirm, secondary } ==> x@ == (FooterModel::Gate {
            dismiss: dismiss@,
            confirm: confirm@,
            secondary: model_of(secondary),
        }),
{
}

/// The model of a `PlacedStep` has every part of it, each in its place.
pub proof fn a_placed_step_is_modelled_in_full(x: PlacedStep)
    ensures
        x@.gap == x.gap as int,
        x@.card == x.card@,
{
}

/// The model of an `Overlay` has every part of it, each in its place.
pub proof fn an_overlay_is_modelled_in_full(x: Overlay)
    ensures
        x@.title == x.title@,
        x@.subtitle == model_of(x.subtitle),
        x@.steps == models(x.steps@),
        x@.preparing == x.preparing,
        x@.economics == model_of(x.economics),
        x@.note == model_of(x.note),
        x@.error == model_of(x.error),
        x@.footer == x.footer@,
        x@.backdrop == x.backdrop,
{
}

/// The model of a `Fingerprint` has every part of it, each in its place.
pub proof fn a_fingerprint_is_modelled_in_full(x: Fingerprint)
    ensures
        x@.label == x.label@,
        x.digest matches Digest::Hash(h) ==> x@.digest == DigestModel::Hash(h),
        x.digest matches Digest::OfCalldata(b) ==> x@.digest == DigestModel::OfCalldata(b@),
{
}

/// The model of a `FingerprintsSection` has every part of it, each in its place.
pub proof fn a_fingerprints_section_is_modelled_in_full(x: FingerprintsSection)
    ensures
        x@.shown == x.shown,
        x@.action == x.action@,
        x@.rows == models(x.rows@),
{
}

/// The model of a `StepPanel` has every part of it, each in its place.
pub proof fn a_step_panel_is_modelled_in_full(x: StepPanel)
    ensures
        x matches StepPanel::Rows(r) ==> x@ == StepPanelModel::Rows(models(r@)),
        x matches StepPanel::Leg(l) ==> x@ == StepPanelModel::Leg(l@),
        x matches StepPanel::Around(a, l, b) ==> x@ == StepPanelModel::Around(
            models(a@),
            l@,
            models(b@),
        ),
        x is Send ==> x@ == StepPanelModel::Send,
        x is SafeSend ==> x@ == StepPanelModel::SafeSend,
{
}

/// The model of a `StepCard` has every part of it, each in its place.
pub proof fn a_step_card_is_modelled_in_full(x: StepCard)
    ensures
        x@.panel == x.panel@,
        x@.fingerprints == model_of(x.fingerprints),
{
}

/// The model of a `TypedRow` has every part of it, each in its place.
pub proof fn a_typed_row_is_modelled_in_full(x: TypedRow)
    ensures
        x.value matches TypedValue::Text(t) ==> x@ == (RowModel::Field {
            label: x.label@,
            value: t@,
        }),
        x.value matches TypedValue::Addr(addr) ==> x@ == (RowModel::AddressField {
            label: x.label@,
            addr,
        }),
{
}

/// The model of a `TypedDataModel` has every part of it, each in its place.
pub proof fn a_typed_data_model_is_modelled_in_full(x: TypedDataModel)
    ensures
        x@.kind_name == x.kind_name@,
        x@.headline == model_of(x.headline),
        x@.rows == models(x.rows@),
{
}

/// The model of `Rows` has every row, each in its place.
pub proof fn rows_are_modelled_in_full(x: Rows)
    ensures
        x@ == models(x.rows@),
{
}

} // verus!

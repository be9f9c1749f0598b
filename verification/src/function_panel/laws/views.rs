//! The models of panels and headlines leave nothing out.

use vstd::prelude::*;

use crate::function_panel::HeadlineCard;
use crate::function_panel::HeadlinePart;
use crate::function_panel::LineModel;
use crate::function_panel::Panel;
use crate::function_panel::PanelLine;
use crate::function_panel::PanelModel;
use crate::function_panel::PartModel;
use crate::primitives::Address;
use crate::text::model_of;
use crate::text::models;

verus! {

/// The model of a `HeadlinePart` has every part of it, each in its place.
pub proof fn a_headline_part_is_modelled_in_full(x: HeadlinePart)
    ensures
        x matches HeadlinePart::Text(s) ==> x@ == PartModel::Text(s@),
        x matches HeadlinePart::Addr(a) ==> x@ == PartModel::Addr(a),
{
}

/// The model of a `HeadlineCard` has every part of it, each in its place.
pub proof fn a_headline_card_is_modelled_in_full(x: HeadlineCard)
    ensures
        x@.parts == models(x.parts@),
        x@.muted == x.muted,
        x@.note == model_of(x.note),
        x@.proxy_note == model_of(x.proxy_note),
        x@.caution == model_of(x.caution),
{
}

/// The model of a `PanelLine` has every part of it, each in its place.
pub proof fn a_panel_line_is_modelled_in_full(x: PanelLine)
    ensures
        x matches PanelLine::Strip(s) ==> x@ == LineModel::Strip(s@),
        x is Gap ==> x@ == LineModel::Gap,
        x matches PanelLine::Heading { indent, label } ==> x@ == (LineModel::Heading {
            indent: indent as int,
            label: label@,
        }),
        x matches PanelLine::Nested { indent, label, intent } ==> x@ == (LineModel::Nested {
            indent: indent as int,
            label: label@,
            intent: intent@,
        }),
        x matches PanelLine::Address { indent, label, addr } ==> x@ == (LineModel::Address {
            indent: indent as int,
            label: label@,
            addr,
        }),
        x matches PanelLine::Value { indent, label, value, stacked, muted }
            ==> x@ == (LineModel::Value {
            indent: indent as int,
            label: label@,
            value: value@,
            stacked,
            muted,
        }),
{
}

/// The model of a `Panel` has every part of it, each in its place.
pub proof fn a_panel_is_modelled_in_full(x: Panel)
    ensures
        x is Loading ==> x@ == PanelModel::Loading,
        x matches Panel::Lines(l) ==> x@ == PanelModel::Lines(models(l@)),
{
}

} // verus!

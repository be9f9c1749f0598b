//! The models of what is on screen leave nothing out.

use vstd::prelude::*;

use crate::sign_review::overlay::Overlay;
use crate::text::model_of;
use crate::text::models;
use crate::tx_builder::view::AskedCall;
use crate::tx_builder::view::Builder;
use crate::tx_builder::view::IdentityChip;
use crate::tx_builder::view::ModalView;
use crate::tx_builder::view::NetworkChip;
use crate::tx_builder::view::NetworkOption;
use crate::tx_builder::view::Press;
use crate::tx_builder::view::Screen;
use crate::tx_builder::view::ScreenModel;
use crate::tx_builder::view::ScreenQuestion;
use crate::tx_builder::view::batch::optional_texts;
use crate::tx_builder::view::batch::BatchPane;
use crate::tx_builder::view::batch::DecodedLine;
use crate::tx_builder::view::batch::DecodedModel;
use crate::tx_builder::view::batch::RevokeToggle;
use crate::tx_builder::view::batch::SimStrip;
use crate::tx_builder::view::batch::TemplateMode;
use crate::tx_builder::view::batch::TemplateModeModel;
use crate::tx_builder::view::batch::TemplateRow;
use crate::tx_builder::view::batch::TemplatesMenu;
use crate::tx_builder::view::batch::TxCard;
use crate::tx_builder::view::composer::CallForm;
use crate::tx_builder::view::composer::ComposerBody;
use crate::tx_builder::view::composer::ComposerBodyModel;
use crate::tx_builder::view::composer::ComposerPane;
use crate::tx_builder::view::composer::ContractBanner;
use crate::tx_builder::view::composer::ContractHead;
use crate::tx_builder::view::composer::HeadStatus;
use crate::tx_builder::view::composer::InputModel;
use crate::tx_builder::view::composer::MethodOption;
use crate::tx_builder::view::composer::MethodPicker;
use crate::tx_builder::view::composer::NotFoundBox;
use crate::tx_builder::view::composer::ParamInput;
use crate::tx_builder::view::composer::ParamRow;
use crate::tx_builder::view::composer::ReadForm;
use crate::tx_builder::view::composer::ReadFormModel;
use crate::tx_builder::view::composer::ResultModel;
use crate::tx_builder::view::composer::ResultPanel;
use crate::tx_builder::view::composer::StatusModel;
use crate::tx_builder::view::composer::Tab;
use crate::tx_builder::view::composer::ValueRow;

verus! {

/// The model of a `Press` has every part of it, each in its place.
pub proof fn a_press_is_modelled_in_full(x: Press)
    ensures
        x@.label == x.label@,
        x@.action == x.action,
{
}

/// The model of a `ScreenQuestion` has every part of it, each in its place.
pub proof fn a_screen_question_is_modelled_in_full(x: ScreenQuestion)
    ensures
        x@.address == x.address@,
        x@.value == x.value@,
        x@.call == model_of(x.call),
        x@.query == model_of(x.query),
        x@.raw_to == x.raw_to@,
        x@.raw_value == x.raw_value@,
        x@.raw_data == x.raw_data@,
        x@.calls == models(x.calls@),
        x@.id == x.id,
        x@.safe_version == model_of(x.safe_version),
{
}

/// The model of an `AskedCall` has every part of it, each in its place.
pub proof fn an_asked_call_is_modelled_in_full(x: AskedCall)
    ensures
        x@.method == x.method@,
        x@.args == models(x.args@),
{
}

/// The model of a `NetworkChip` has every part of it, each in its place.
pub proof fn a_network_chip_is_modelled_in_full(x: NetworkChip)
    ensures
        x@.name == x.name@,
        x@.chain == x.chain@,
        x@.glyph == x.glyph@,
        x@.custom == x.custom,
        x@.action == x.action,
{
}

/// The model of a `NetworkOption` has every part of it, each in its place.
pub proof fn a_network_option_is_modelled_in_full(x: NetworkOption)
    ensures
        x@.name == x.name@,
        x@.chain_id == x.chain_id@,
        x@.custom == x.custom,
        x@.on == x.on,
        x@.action == x.action,
{
}

/// The model of an `IdentityChip` has every part of it, each in its place.
pub proof fn an_identity_chip_is_modelled_in_full(x: IdentityChip)
    ensures
        x@.label == x.label@,
        x@.address == x.address@,
{
}

/// The model of a `ModalView` has every part of it, each in its place.
pub proof fn a_modal_view_is_modelled_in_full(x: ModalView)
    ensures
        x@.title == x.title@,
        x@.subtitle == x.subtitle@,
        x@.text == x.text@,
        x@.editable == x.editable,
        x@.error == model_of(x.error),
        x@.left == x.left@,
        x@.right == x.right@,
        x@.close == x.close,
{
}

/// The model of a `Builder` has every part of it, each in its place.
pub proof fn a_builder_is_modelled_in_full(x: Builder)
    ensures
        x@.subtitle == x.subtitle@,
        x@.network == x.network@,
        x.menu matches Some(m) ==> x@.menu == Some(models(m@)),
        x.menu is None ==> x@.menu is None,
        x@.identity == x.identity@,
        x@.composer == x.composer@,
        x@.batch == model_of(x.batch),
        x@.settled == x.settled,
        x@.refusal == model_of(x.refusal),
        x@.error == model_of(x.error),
{
}

/// The model of a `Screen` has every part of it, each in its place.
pub proof fn a_screen_is_modelled_in_full(x: Screen)
    ensures
        x matches Screen::Overlay(m) ==> x@ == ScreenModel::Overlay(m@),
        x matches Screen::Builder(b) ==> x@ == ScreenModel::Builder(b@),
{
}

/// The model of a `TemplateMode` has every part of it, each in its place.
pub proof fn a_template_mode_is_modelled_in_full(x: TemplateMode)
    ensures
        x matches TemplateMode::Shown { load, rename, delete } ==> x@ == (TemplateModeModel::Shown {
            load,
            rename,
            delete,
        }),
        x matches TemplateMode::Renaming { buffer, commit, cancel }
            ==> x@ == (TemplateModeModel::Renaming {
            buffer: buffer@,
            commit,
            cancel,
        }),
{
}

/// The model of a `TemplateRow` has every part of it, each in its place.
pub proof fn a_template_row_is_modelled_in_full(x: TemplateRow)
    ensures
        x@.name == x.name@,
        x@.kaomoji == x.kaomoji@,
        x@.subtitle == x.subtitle@,
        x@.mode == x.mode@,
{
}

/// The model of a `TemplatesMenu` has every part of it, each in its place.
pub proof fn a_templates_menu_is_modelled_in_full(x: TemplatesMenu)
    ensures
        x@.title == x.title@,
        x@.rows == models(x.rows@),
        x@.save == x.save@,
{
}

/// The model of a `DecodedLine` has every part of it, each in its place.
pub proof fn a_decoded_line_is_modelled_in_full(x: DecodedLine)
    ensures
        x matches DecodedLine::Comment(s) ==> x@ == DecodedModel::Comment(s@),
        x matches DecodedLine::Plain(s) ==> x@ == DecodedModel::Plain(s@),
        x matches DecodedLine::Signature(s) ==> x@ == DecodedModel::Signature(s@),
        x matches DecodedLine::Value(s) ==> x@ == DecodedModel::Value(s@),
        x matches DecodedLine::Data(s) ==> x@ == DecodedModel::Data(s@),
{
}

/// The model of a `TxCard` has every part of it, each in its place.
pub proof fn a_tx_card_is_modelled_in_full(x: TxCard)
    ensures
        x@.number == x.number@,
        x@.title == x.title@,
        x@.detail == x.detail@,
        x@.raw == x.raw,
        x@.wei == x.wei,
        x@.up == x.up,
        x@.down == x.down,
        x@.expand == x.expand,
        x@.remove == x.remove,
        x.decoded matches Some(d) ==> x@.decoded == Some(models(d@)),
        x.decoded is None ==> x@.decoded is None,
{
}

/// The model of a `SimStrip` has every part of it, each in its place.
pub proof fn a_sim_strip_is_modelled_in_full(x: SimStrip)
    ensures
        x@.title == x.title@,
        x@.detail == x.detail@,
        x.fee matches Some(wei) ==> x@.fee == Some(wei.value()),
        x.fee is None ==> x@.fee is None,
        x@.good == x.good,
        x@.badge == x.badge@,
{
}

/// The model of a `RevokeToggle` has every part of it, each in its place.
pub proof fn a_revoke_toggle_is_modelled_in_full(x: RevokeToggle)
    ensures
        x@.on == x.on,
        x@.hint == x.hint@,
{
}

/// The model of a `BatchPane` has every part of it, each in its place.
pub proof fn a_batch_pane_is_modelled_in_full(x: BatchPane)
    ensures
        x@.count == x.count@,
        x@.templates == model_of(x.templates),
        x@.clear == x.clear,
        x@.cards == models(x.cards@),
        x@.notes == optional_texts(x.notes@),
        x@.sample == model_of(x.sample),
        x@.sim == model_of(x.sim),
        x@.blind_spots == models(x.blind_spots@),
        x@.revoke == model_of(x.revoke),
        x@.simulate == x.simulate@,
        x@.save == x.save@,
        x@.load == x.load@,
        x@.cta == x.cta@,
{
}

/// The model of a `ContractBanner` has every part of it, each in its place.
pub proof fn a_contract_banner_is_modelled_in_full(x: ContractBanner)
    ensures
        x@.name == x.name@,
        x@.badge == x.badge@,
        x@.subtitle == x.subtitle@,
        x@.kaomoji == model_of(x.kaomoji),
{
}

/// The model of a `NotFoundBox` has every part of it, each in its place.
pub proof fn a_not_found_box_is_modelled_in_full(x: NotFoundBox)
    ensures
        x@.paste == x.paste@,
        x@.load == model_of(x.load),
{
}

/// The model of a `HeadStatus` has every part of it, each in its place.
pub proof fn a_head_status_is_modelled_in_full(x: HeadStatus)
    ensures
        x is Resolving ==> x@ == StatusModel::Resolving,
        x matches HeadStatus::Loaded(b) ==> x@ == StatusModel::Loaded(b@),
        x matches HeadStatus::NotFound(n) ==> x@ == StatusModel::NotFound(n@),
        x matches HeadStatus::Hint(h) ==> x@ == StatusModel::Hint(h@),
        x is Nothing ==> x@ == StatusModel::Nothing,
{
}

/// The model of a `ContractHead` has every part of it, each in its place.
pub proof fn a_contract_head_is_modelled_in_full(x: ContractHead)
    ensures
        x@.placeholder == x.placeholder@,
        x@.invalid == x.invalid,
        x@.addr_error == model_of(x.addr_error),
        x@.fetch_error == model_of(x.fetch_error),
        x@.retry == x.retry,
        x@.proxy_unverified == x.proxy_unverified,
        x@.proxy_beacon == x.proxy_beacon,
        x@.nothing_deployed == x.nothing_deployed,
        x@.status == x.status@,
{
}

/// The model of a `MethodOption` has every part of it, each in its place.
pub proof fn a_method_option_is_modelled_in_full(x: MethodOption)
    ensures
        x@.signature == x.signature@,
        x@.on == x.on,
        x@.action == x.action,
{
}

/// The model of a `MethodPicker` has every part of it, each in its place.
pub proof fn a_method_picker_is_modelled_in_full(x: MethodPicker)
    ensures
        x@.label == x.label@,
        x@.name == x.name@,
        x@.params == x.params@,
        x@.toggle == x.toggle,
        x.menu matches Some(m) ==> x@.menu == Some(models(m@)),
        x.menu is None ==> x@.menu is None,
{
}

/// The model of a `ParamInput` has every part of it, each in its place.
pub proof fn a_param_input_is_modelled_in_full(x: ParamInput)
    ensures
        x matches ParamInput::Toggle { yes_on, yes, no_on, no } ==> x@ == (InputModel::Toggle {
            yes_on,
            yes,
            no_on,
            no,
        }),
        x matches ParamInput::Text { value, invalid } ==> x@ == (InputModel::Text {
            value: value@,
            invalid,
        }),
{
}

/// The model of a `ParamRow` has every part of it, each in its place.
pub proof fn a_param_row_is_modelled_in_full(x: ParamRow)
    ensures
        x@.name == x.name@,
        x@.ty == x.ty@,
        x@.note == model_of(x.note),
        x@.input == x.input@,
{
}

/// The model of a `ValueRow` has every part of it, each in its place.
pub proof fn a_value_row_is_modelled_in_full(x: ValueRow)
    ensures
        x@.ty == x.ty@,
        x@.line == x.line@,
        x@.copy == x.copy,
{
}

/// The model of a `ResultPanel` has every part of it, each in its place.
pub proof fn a_result_panel_is_modelled_in_full(x: ResultPanel)
    ensures
        x matches ResultPanel::Failed(e) ==> x@ == ResultModel::Failed(e@),
        x matches ResultPanel::Returned { badge, values, raw, copy }
            ==> x@ == (ResultModel::Returned {
            badge: badge@,
            values: models(values@),
            raw: raw@,
            copy,
        }),
{
}

/// The model of a `CallForm` has every part of it, each in its place.
pub proof fn a_call_form_is_modelled_in_full(x: CallForm)
    ensures
        x@.picker == x.picker@,
        x@.payable == x.payable,
        x@.bare == x.bare,
        x@.caution == model_of(x.caution),
        x@.params == models(x.params@),
{
}

/// The model of a `ReadForm` has every part of it, each in its place.
pub proof fn a_read_form_is_modelled_in_full(x: ReadForm)
    ensures
        x is NoMethods ==> x@ == ReadFormModel::NoMethods,
        x matches ReadForm::Picker(p) ==> x@ == ReadFormModel::Picker(p@),
        x matches ReadForm::Query { picker, caution, params, query, result }
            ==> x@ == (ReadFormModel::Query {
            picker: picker@,
            caution: model_of(caution),
            params: models(params@),
            query: query@,
            result: model_of(result),
        }),
{
}

/// The model of a `ComposerBody` has every part of it, each in its place.
pub proof fn a_composer_body_is_modelled_in_full(x: ComposerBody)
    ensures
        x matches ComposerBody::Call { head, form } ==> x@ == (ComposerBodyModel::Call {
            head: head@,
            form: model_of(form),
        }),
        x matches ComposerBody::Read { head, form } ==> x@ == (ComposerBodyModel::Read {
            head: head@,
            form: model_of(form),
        }),
        x matches ComposerBody::Raw { to_invalid, nothing_deployed }
            ==> x@ == (ComposerBodyModel::Raw {
            to_invalid,
            nothing_deployed,
        }),
{
}

/// The model of a `Tab` has every part of it, each in its place.
pub proof fn a_tab_is_modelled_in_full(x: Tab)
    ensures
        x@.label == x.label@,
        x@.on == x.on,
        x@.action == x.action,
{
}

/// The model of a `ComposerPane` has every part of it, each in its place.
pub proof fn a_composer_pane_is_modelled_in_full(x: ComposerPane)
    ensures
        x@.tabs == models(x.tabs@),
        x@.body == x.body@,
        x@.cta == model_of(x.cta),
{
}

} // verus!

//! What holds of every screen.

use vstd::prelude::*;

use crate::text::dec;
use crate::text::hex_bytes;
use crate::tx_builder::model::Pane;
use crate::tx_builder::query::offered_networks;
use crate::tx_builder::view::batch::batch_model;
use crate::tx_builder::view::batch::card_models;
use crate::tx_builder::view::batch::decoded_lines;
use crate::tx_builder::view::batch::strip_model;
use crate::tx_builder::view::batch::strip_title;
use crate::tx_builder::view::batch::template_models;
use crate::tx_builder::view::batch::DecodedModel;
use crate::tx_builder::view::builder_model;
use crate::tx_builder::view::composer::body_model;
use crate::tx_builder::view::composer::call_form;
use crate::tx_builder::view::composer::cta_model;
use crate::tx_builder::view::composer::head_model;
use crate::tx_builder::view::composer::param_model;
use crate::tx_builder::view::composer::query_press;
use crate::tx_builder::view::composer::tab_models;
use crate::tx_builder::view::composer::ComposerBodyModel;
use crate::tx_builder::view::composer::InputModel;
use crate::tx_builder::view::network_chip_model;
use crate::tx_builder::view::network_menu_model;
use crate::tx_builder::view::screen_model;
use crate::tx_builder::view::ViewFacts;
use crate::tx_builder::Effect;
use crate::tx_builder::Findings;
use crate::tx_builder::Message;
use crate::tx_builder::Modal;
use crate::tx_builder::Mode;
use crate::txbuilder::CallModel;
use crate::txbuilder::ContractModel;
use crate::txbuilder::MethodModel;
use crate::txbuilder::OutcomeModel;
use crate::txbuilder::SimModel;

pub mod cards;
pub mod forms;
pub mod views;

verus! {

/// While the overlay is open nothing else is on screen.
pub proof fn an_open_overlay_hides_the_builder(p: Pane, f: ViewFacts)
    ensures
        (screen_model(p, f) is Overlay) == (p.json.modal != Modal::Closed),
{
}

/// A Safe is pinned to its network: the chip cannot be pressed. Any other
/// account can switch.
pub proof fn a_safe_cannot_switch_network(p: Pane)
    ensures
        network_chip_model(p).action == (if p.ctx.is_safe {
            None
        } else {
            Some(Message::ToggleNetworkMenu)
        }),
{
}

/// The switcher offers every network under the message that selects it.
pub proof fn the_switcher_selects_what_it_names(p: Pane, i: int)
    requires
        0 <= i < network_menu_model(p).len(),
    ensures
        ({
            let net = offered_networks(p.ctx.custom_networks)[i].0;
            &&& network_menu_model(p)[i].action == Message::SetNetwork(net)
            &&& network_menu_model(p)[i].on == (net == p.net)
        }),
{
}

/// A custom network has no batch: its composer sends at once. A built-in chain
/// queues.
pub proof fn only_a_builtin_chain_has_a_batch(p: Pane, f: ViewFacts)
    ensures
        (builder_model(p, f).batch is None) == p.is_custom(),
        p.is_custom() ==> cta_model(p, f).action != Some(Message::AddToBatch),
        !p.is_custom() ==> cta_model(p, f).action != Some(Message::SendSingle),
{
}

/// Exactly one tab is on, and it is that of the mode.
pub proof fn one_tab_is_on(mode: Mode, i: int)
    requires
        0 <= i < 3,
    ensures
        tab_models(mode).len() == 3,
        tab_models(mode)[i].on == (tab_models(mode)[i].action == Message::SetMode(mode)),
{
}

/// A parameter list that was not declared is never reported as no parameters:
/// the form warns instead.
pub proof fn an_unrecovered_parameter_list_is_not_called_empty(
    p: Pane,
    c: ContractModel,
    f: ViewFacts,
    m: MethodModel,
)
    requires
        p.selected_method() == Some(m),
        !m.provenance.declares(),
    ensures
        !call_form(p, c, f).bare,
        call_form(p, c, f).caution is Some,
{
}

/// A query that is under way cannot be run again, nor one that is not filled in.
pub proof fn a_query_runs_once(p: Pane, f: ViewFacts)
    ensures
        (query_press(p, f).action == Some(Message::Query)) == (p.read_valid(f.read_args_valid)
            && !p.reader.busy),
{
}

/// An empty batch can be loaded into, and nothing else.
pub proof fn an_empty_batch_cannot_be_sent(p: Pane, f: ViewFacts)
    requires
        p.queue.batch.len() == 0,
    ensures
        ({
            let b = batch_model(p, f);
            &&& b.clear is None
            &&& b.simulate.action is None
            &&& b.save.action is None
            &&& b.cta.action is None
            &&& b.sim is None
            &&& b.cards.len() == 0
            &&& b.load.action == Some(Message::OpenLoad)
        }),
{
}

/// A batch that holds a call can be sent to review, saved and cleared, and
/// simulated unless that is under way.
pub proof fn a_filled_batch_can_be_sent(p: Pane, f: ViewFacts)
    requires
        p.queue.batch.len() > 0,
    ensures
        ({
            let b = batch_model(p, f);
            &&& b.clear == Some(Message::ClearBatch)
            &&& b.save.action == Some(Message::OpenSave)
            &&& b.cta.action == Some(Message::Review)
            &&& (b.simulate.action == Some(Message::Simulate)) == !p.sim.busy
        }),
{
}

/// Each call has a card, numbered from one, whose buttons name that call; only
/// the first cannot move up and only the last cannot move down.
pub proof fn each_card_speaks_of_its_call(p: Pane, i: int)
    requires
        0 <= i < p.queue.batch.len(),
    ensures
        card_models(p).len() == p.queue.batch.len(),
        ({
            let card = card_models(p)[i];
            let id = p.queue.batch[i].id;
            &&& card.number == dec((i + 1) as nat)
            &&& card.remove == Message::RemoveCall(id)
            &&& card.expand == Message::ToggleExpand(id)
            &&& (card.up is Some) == (i > 0)
            &&& (card.down is Some) == (i < p.queue.batch.len() - 1)
            &&& card.up is Some ==> card.up == Some(Message::MoveUp(id))
            &&& card.down is Some ==> card.down == Some(Message::MoveDown(id))
        }),
{
}

/// An expanded call shows its calldata in full, whatever was decoded of it.
pub proof fn calldata_is_shown_in_full(c: CallModel)
    ensures
        decoded_lines(c).len() >= 4,
        decoded_lines(c).last() == DecodedModel::Data("0x"@ + hex_bytes(c.data)),
{
}

/// A verdict is shown as good exactly when every call succeeded.
pub proof fn only_a_success_looks_good(p: Pane, sim: SimModel, opens: usize)
    ensures
        strip_model(p, sim, opens).good == (sim.outcome is Success),
        strip_model(p, sim, opens).fee is Some ==> sim.outcome is Success,
{
}

/// A failing call is named by the number on its card.
pub proof fn a_failing_call_is_named_by_its_card(
    p: Pane,
    sim: SimModel,
    opens: usize,
    step: usize,
    reason: Seq<char>,
)
    requires
        sim.outcome == (OutcomeModel::Revert { step, reason }),
        p.flash_wrapped() ==> opens <= step,
        (step - (if p.flash_wrapped() {
            opens as int
        } else {
            0
        })) < p.queue.batch.len(),
    ensures
        ({
            let i = step - (if p.flash_wrapped() {
                opens as int
            } else {
                0
            });
            strip_title(p, sim, opens) == "Reverts at "@ + ("call #"@ + card_models(p)[i].number)
        }),
{
}

/// A field that nobody touched is not complained about.
pub proof fn an_untouched_field_is_not_wrong(
    i: usize,
    name: Seq<char>,
    ty: Seq<char>,
    valid: bool,
    read: bool,
)
    ensures
        param_model(i, name, ty, valid, seq![], read).note is None,
        param_model(i, name, ty, valid, seq![], read).input matches InputModel::Text {
            invalid,
            ..
        } ==> !invalid,
{
}

/// At most one template is being renamed, and it is the one that was chosen.
pub proof fn only_the_chosen_template_is_renamed(p: Pane, i: int)
    requires
        0 <= i < p.shelf.templates.len(),
        p.shelf.templates.len() <= usize::MAX,
    ensures
        (template_models(p)[i].mode is Renaming) == (p.shelf.rename_idx == Some(i as usize)),
{
}

/// A fetch that failed says why and can be asked for again; without one there
/// is nothing to retry.
pub proof fn a_failed_fetch_offers_a_retry(p: Pane, f: ViewFacts)
    ensures
        head_model(p, f).fetch_error == p.composer.resolve_error,
        (head_model(p, f).retry == Some(Message::RetryResolve)) == (p.composer.resolve_error
            is Some),
        head_model(p, f).retry is Some ==> head_model(p, f).retry == Some(Message::RetryResolve),
{
}

/// An address without a contract is flagged in whichever composer aims at it,
/// whatever else is known of it.
pub proof fn an_empty_address_is_flagged(p: Pane, f: ViewFacts)
    ensures
        match body_model(p, f) {
            ComposerBodyModel::Call { head, .. } => head.nothing_deployed
                == p.composer.nothing_deployed,
            ComposerBodyModel::Read { head, .. } => head.nothing_deployed
                == p.composer.nothing_deployed,
            ComposerBodyModel::Raw { nothing_deployed, .. } => nothing_deployed
                == p.raw.nothing_deployed,
        },
{
}

/// A call carries a warning exactly when it targets the account that would run
/// it.
pub proof fn a_call_to_oneself_is_flagged(p: Pane, f: ViewFacts, i: int)
    requires
        0 <= i < p.queue.batch.len(),
    ensures
        batch_model(p, f).notes.len() == p.queue.batch.len(),
        (batch_model(p, f).notes[i] is Some) == (p.queue.batch[i].to == p.owner),
{
}

/// A verdict on a Safe, or on more than one call, never stands without what it
/// does not cover; nothing is said where there is no verdict.
pub proof fn a_verdict_names_its_blind_spots(p: Pane, f: ViewFacts)
    ensures
        ({
            let b = batch_model(p, f);
            &&& b.sim is Some && (p.ctx.is_safe || p.effective_calls(f.wrap).len() > 1)
                ==> b.blind_spots.len() > 0
            &&& b.sim is None ==> b.blind_spots.len() == 0
        }),
{
}

/// What became of a batch is on screen exactly where it belongs, and its hash
/// can be copied from there.
pub proof fn a_settled_outcome_is_shown_where_it_belongs(p: Pane, f: ViewFacts, g: Findings)
    ensures
        ({
            let shown = builder_model(p, f).settled;
            &&& (shown is Some) == (p.visible_settled() is Some)
            &&& shown is Some ==> shown->0.outcome == p.visible_settled()->0
            &&& shown is Some && shown->0.copy is Some ==> p.update(shown->0.copy->0, g).1 == Some(
                Effect::CopyPlain(p.visible_settled()->0.hash_of()->0.hex_text()),
            )
            &&& shown is Some ==> p.update(shown->0.dismiss, g).0.settled is None
        }),
{
}

} // verus!

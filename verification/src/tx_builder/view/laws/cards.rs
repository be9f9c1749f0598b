//! What the queue and the frame around it show.

use vstd::prelude::*;

use crate::chain::Chain;
use crate::chain::NetworkId;
use crate::primitives::checksum_text;
use crate::text::dec;
use crate::text::hex_bytes;
use crate::text::model_of;
use crate::text::trimmed;
use crate::tx_builder::model::Pane;
use crate::tx_builder::view::batch::arg_lines;
use crate::tx_builder::view::batch::args_section;
use crate::tx_builder::view::batch::batch_model;
use crate::tx_builder::view::batch::card_models;
use crate::tx_builder::view::batch::decoded_lines;
use crate::tx_builder::view::batch::function_lines;
use crate::tx_builder::view::batch::revoke_model;
use crate::tx_builder::view::batch::sample_model;
use crate::tx_builder::view::batch::shown_revoke;
use crate::tx_builder::view::batch::strip_model;
use crate::tx_builder::view::batch::template_models;
use crate::tx_builder::view::batch::templates_model;
use crate::tx_builder::view::batch::value_section;
use crate::tx_builder::view::batch::DecodedModel;
use crate::tx_builder::view::batch::TemplateModeModel;
use crate::tx_builder::view::builder_model;
use crate::tx_builder::view::composer::composer_model;
use crate::tx_builder::view::identity_model;
use crate::tx_builder::view::modal_model;
use crate::tx_builder::view::network_chip_model;
use crate::tx_builder::view::network_menu_model;
use crate::tx_builder::view::screen_model;
use crate::tx_builder::view::settled_model;
use crate::tx_builder::view::ScreenModel;
use crate::tx_builder::view::ViewFacts;
use crate::tx_builder::Message;
use crate::tx_builder::Modal;
use crate::txbuilder::ArgModel;
use crate::txbuilder::CallModel;
use crate::txbuilder::OutcomeModel;
use crate::txbuilder::SimModel;

verus! {

// ── the calls ───────────────────────────────────────────────────────

/// Each call has its own card, with its own title and detail; one that carries wei
/// says how much, and one without a signature is marked raw. Only the card that is
/// expanded shows what it decodes to.
pub proof fn each_call_has_its_card(p: Pane, i: int)
    requires
        0 <= i < p.queue.batch.len(),
    ensures
        ({
            let c = p.queue.batch[i];
            let card = card_models(p)[i];
            &&& card_models(p).len() == p.queue.batch.len()
            &&& card.number == dec((i + 1) as nat)
            &&& card.title == c.title
            &&& card.detail == c.detail
            &&& card.raw <==> c.signature is None
            &&& c.value.hi == 0 && c.value.lo == 0 ==> card.wei is None
            &&& c.value.hi > 0 || c.value.lo > 0 ==> card.wei == Some(c.value)
            &&& card.expand == Message::ToggleExpand(c.id)
            &&& card.remove == Message::RemoveCall(c.id)
            &&& i == 0 ==> card.up is None
            &&& i > 0 ==> card.up == Some(Message::MoveUp(c.id))
            &&& i == p.queue.batch.len() - 1 ==> card.down is None
            &&& i < p.queue.batch.len() - 1 ==> card.down == Some(Message::MoveDown(c.id))
            &&& p.queue.expanded == Some(c.id) ==> card.decoded == Some(decoded_lines(c))
            &&& p.queue.expanded != Some(c.id) ==> card.decoded is None
        }),
{
}

/// An expanded call begins with its target and ends with its calldata, both in
/// full.
pub proof fn a_decoded_call_shows_target_and_data(c: CallModel)
    ensures
        ({
            let l = decoded_lines(c);
            let n = l.len() as int;
            &&& n >= 4
            &&& l[0] == DecodedModel::Comment("// target"@)
            &&& l[1] == DecodedModel::Plain(checksum_text(c.to))
            &&& l[n - 2] == DecodedModel::Comment("// calldata"@)
            &&& l[n - 1] == DecodedModel::Data("0x"@ + hex_bytes(c.data))
        }),
{
}

/// A known function is shown by its signature and by the selector that the calldata
/// begins with.
pub proof fn a_decoded_call_shows_its_function(c: CallModel)
    ensures
        c.signature matches Some(sig) ==> c.data.len() >= 4 ==> decoded_lines(c)[2]
            == DecodedModel::Comment("// function · selector 0x"@ + hex_bytes(c.data.take(4)))
            && decoded_lines(c)[3] == DecodedModel::Signature(sig),
        c.signature is None || c.data.len() < 4 ==> function_lines(c).len() == 0,
{
}

/// Every decoded argument is shown: its name and then its value, in order.
pub proof fn a_decoded_call_shows_its_arguments(c: CallModel, i: int)
    requires
        c.signature is Some,
        c.data.len() >= 4,
        0 <= i < c.decoded_args.len(),
    ensures
        ({
            let l = decoded_lines(c);
            &&& l[4] == DecodedModel::Comment("// args"@)
            &&& l[5 + 2 * i] == DecodedModel::Plain(c.decoded_args[i].name + " ="@)
            &&& l[6 + 2 * i] == DecodedModel::Value(c.decoded_args[i].value)
        }),
{
    lemma_arg_lines(c.decoded_args, i);
    let l = decoded_lines(c);
    let args = arg_lines(c.decoded_args);
    assert(args_section(c)[1 + 2 * i] == args[2 * i]);
    assert(args_section(c)[2 + 2 * i] == args[2 * i + 1]);
    assert(l[4] == args_section(c)[0]);
    assert(l[5 + 2 * i] == args_section(c)[1 + 2 * i]);
    assert(l[6 + 2 * i] == args_section(c)[2 + 2 * i]);
}

proof fn lemma_arg_lines(args: Seq<ArgModel>, i: int)
    ensures
        arg_lines(args).len() == 2 * args.len(),
        0 <= i < args.len() ==> arg_lines(args)[2 * i] == DecodedModel::Plain(args[i].name + " ="@)
            && arg_lines(args)[2 * i + 1] == DecodedModel::Value(args[i].value),
    decreases args.len(),
{
    if args.len() > 0 {
        lemma_arg_lines(args.drop_last(), i);
    }
}

/// The wei that a call carries are shown to the last one, and nothing is said where
/// it carries none.
pub proof fn a_decoded_call_shows_its_value(c: CallModel)
    ensures
        c.value.hi == 0 && c.value.lo == 0 ==> value_section(c).len() == 0,
        c.value.hi > 0 || c.value.lo > 0 ==> {
            let l = decoded_lines(c);
            let n = l.len() as int;
            &&& l[n - 4] == DecodedModel::Comment("// value"@)
            &&& l[n - 3] == DecodedModel::Data(dec(c.value.value()) + " wei"@)
        },
{
}

// ── the verdict ─────────────────────────────────────────────────────

/// The strip says what the simulation found: that it passed and for how much gas,
/// or at which step it fails and why. Only a success is good, only a verified run
/// is called verified, and a fee is gas times its price.
pub proof fn the_strip_says_what_was_found(p: Pane, s: SimModel, opens: usize)
    ensures
        ({
            let t = strip_model(p, s, opens);
            &&& t.good <==> s.outcome is Success
            &&& s.outcome is Success ==> t.title == "Simulation passed"@ && t.detail == "≈ "@ + dec(
                s.gas_used as nat,
            ) + " gas"@
            &&& s.outcome matches OutcomeModel::Revert { step, reason } ==> t.title
                == "Reverts at "@ + p.step_text(step, opens) && t.detail == reason
            &&& s.outcome matches OutcomeModel::Halt { step, reason } ==> t.title == "Halts at "@
                + p.step_text(step, opens) && t.detail == reason
            &&& s.outcome matches OutcomeModel::Error(reason) ==> t.title == "Simulation failed"@
                && t.detail == reason
            &&& s.outcome is Unavailable ==> t.title == "Simulation unavailable"@ && t.detail
                == "couldn't run preflight on this network"@
            &&& s.verified ==> t.badge == "verified"@
            &&& !s.verified ==> t.badge == "unverified"@
            &&& t.fee is Some <==> s.outcome is Success && s.base_fee_per_gas > 0
            &&& t.fee matches Some(wei) ==> wei == s.gas_used as nat * s.base_fee_per_gas as nat
        }),
{
}

/// The strip is on screen exactly while something is queued and a result is held,
/// and beside it what the simulation cannot see.
pub proof fn the_strip_stands_beside_the_queue(p: Pane, f: ViewFacts)
    ensures
        ({
            let b = batch_model(p, f);
            &&& b.sim is Some <==> p.queue.batch.len() > 0 && p.sim.result is Some
            &&& b.sim matches Some(t) ==> t == strip_model(p, p.sim.result->0, f.wrap.opens)
                && b.blind_spots == p.blind_spots(p.effective_calls(f.wrap).len())
            &&& b.sim is None ==> b.blind_spots.len() == 0
        }),
{
}

/// The toggle for resets is offered where the account can batch and allowances are
/// left standing; it is on as it was set, and says how many there are.
pub proof fn the_resets_are_offered_where_they_count(p: Pane, n: nat)
    ensures
        shown_revoke(p, n) is Some <==> (p.ctx.is_safe || p.ctx.eoa_can_batch) && n > 0,
        shown_revoke(p, n) matches Some(r) ==> r == revoke_model(p.queue.auto_revoke, n),
        revoke_model(true, n).on && !revoke_model(false, n).on,
        n == 1 ==> revoke_model(true, n).hint == "+"@ + dec(1) + " revoke"@ + seq![]
            + " appended · allowance reset to 0"@ && revoke_model(false, n).hint == "leaves "@
            + dec(1) + " standing allowance"@ + seq![],
        n != 1 ==> revoke_model(true, n).hint == "+"@ + dec(n) + " revoke"@ + seq!['s']
            + " appended · allowance reset to 0"@ && revoke_model(false, n).hint == "leaves "@
            + dec(n) + " standing allowance"@ + seq!['s'],
{
}

/// The buttons beneath the queue: clear, simulate, save and review where something
/// is queued, simulate only once at a time, and load always.
pub proof fn the_buttons_of_the_queue(p: Pane, f: ViewFacts)
    ensures
        ({
            let b = batch_model(p, f);
            let some = p.queue.batch.len() > 0;
            &&& b.count == dec(p.queue.batch.len())
            &&& b.cards == card_models(p)
            &&& some ==> b.clear == Some(Message::ClearBatch) && b.save.action == Some(
                Message::OpenSave,
            ) && b.cta.action == Some(Message::Review)
            &&& !some ==> b.clear is None && b.save.action is None && b.cta.action is None
                && b.simulate.action is None
            &&& b.load.action == Some(Message::OpenLoad)
            &&& some && !p.sim.busy ==> b.simulate.action == Some(Message::Simulate)
            &&& p.sim.busy ==> b.simulate.action is None && b.simulate.label == "Simulating…"@
            &&& !p.sim.busy ==> b.simulate.label == "⟁ Simulate"@
            &&& b.save.label == "⤓ Save"@ && b.load.label == "⤒ Load"@
            &&& !p.ctx.is_safe ==> b.cta.label == "Review & send"@
            &&& p.ctx.is_safe && some ==> b.cta.label == "Create batch · "@ + dec(
                p.queue.batch.len(),
            ) + " → 1"@
            &&& p.ctx.is_safe && !some ==> b.cta.label == "Create batch"@
            &&& b.templates is Some <==> p.shelf.menu_open
            &&& b.templates matches Some(t) ==> t == templates_model(p)
            &&& b.sample == sample_model(p)
            &&& b.revoke == shown_revoke(p, f.revokes as nat)
        }),
        sample_model(p) is Some <==> p.queue.batch.len() == 0 && p.net == NetworkId::Builtin(
            Chain::Mainnet,
        ) && p.ctx.is_safe,
        sample_model(p) matches Some(b) ==> b.action == Some(Message::LoadSample) && b.label
            == "Load a sample batch"@,
{
}

/// Each call is warned of on its own card.
pub proof fn each_card_has_its_own_warning(p: Pane, f: ViewFacts, i: int)
    requires
        0 <= i < p.queue.batch.len(),
    ensures
        batch_model(p, f).notes.len() == p.queue.batch.len(),
        batch_model(p, f).notes[i] == p.self_admin_note(
            p.queue.batch[i],
            model_of(f.effects@[i]),
        ),
{
}

// ── templates ───────────────────────────────────────────────────────

/// Each template has its row, whose buttons load, rename and delete that template;
/// the one that is being renamed shows the new name and how to end it.
pub proof fn each_template_has_its_row(p: Pane, i: int)
    requires
        0 <= i < p.shelf.templates.len() <= usize::MAX,
    ensures
        ({
            let t = p.shelf.templates[i];
            let row = template_models(p)[i];
            let s = if t.call_count == 1 {
                seq![]
            } else {
                seq!['s']
            };
            &&& template_models(p).len() == p.shelf.templates.len()
            &&& row.name == t.name
            &&& row.kaomoji == t.kaomoji
            &&& row.subtitle == dec(t.call_count as nat) + " call"@ + s + " · "@ + t.note
            &&& p.shelf.rename_idx == Some(i as usize) ==> row.mode == (
            TemplateModeModel::Renaming {
                buffer: p.shelf.rename_buf,
                commit: Message::CommitRename,
                cancel: Message::CancelRename,
            })
            &&& p.shelf.rename_idx != Some(i as usize) ==> row.mode == (TemplateModeModel::Shown {
                load: Message::LoadTemplate(i as usize),
                rename: Message::StartRename(i as usize),
                delete: Message::DeleteTemplate(i as usize),
            })
        }),
{
}

/// The menu of templates counts them, and saves the queue where there is one.
pub proof fn the_menu_of_templates(p: Pane)
    ensures
        ({
            let m = templates_model(p);
            let n = p.queue.batch.len();
            &&& m.title == "Your templates · "@ + dec(p.shelf.templates.len())
            &&& m.rows == template_models(p)
            &&& n > 0 ==> m.save.label == "+ Save current batch · "@ + dec(n) + " calls"@
                && m.save.action == Some(Message::SaveTemplate)
            &&& n == 0 ==> m.save.label == "+ Save current batch · queue is empty"@
                && m.save.action is None
        }),
{
}

// ── the frame ───────────────────────────────────────────────────────

/// The chip names the active network and its number, and says whether it is a
/// custom one; it opens the menu for everyone but a Safe, which is locked to its
/// chain.
pub proof fn the_chip_names_the_network(p: Pane)
    ensures
        ({
            let c = network_chip_model(p);
            &&& c.name == p.net_name()
            &&& p.net matches NetworkId::Custom(id) ==> c.chain == "chain "@ + dec(id as nat)
                && c.custom
            &&& p.net == NetworkId::Builtin(Chain::Mainnet) ==> c.chain == "chain "@ + dec(1)
            &&& p.net == NetworkId::Builtin(Chain::Base) ==> c.chain == "chain "@ + dec(8453)
            &&& p.net == NetworkId::Builtin(Chain::Optimism) ==> c.chain == "chain "@ + dec(10)
            &&& p.net is Builtin ==> !c.custom
            &&& p.ctx.is_safe ==> c.glyph == "🔒"@ && c.action is None
            &&& !p.ctx.is_safe ==> c.action == Some(Message::ToggleNetworkMenu)
            &&& !p.ctx.is_safe && p.net_menu_open ==> c.glyph == "▲"@
            &&& !p.ctx.is_safe && !p.net_menu_open ==> c.glyph == "▼"@
        }),
{
}

/// The menu offers each network under its name and its number; the active one is
/// on, and picking one selects it.
pub proof fn the_menu_offers_each_network(p: Pane, i: int)
    ensures
        network_menu_model(p).len() == 3 + p.ctx.custom_networks.len(),
        0 <= i < p.ctx.custom_networks.len() ==> {
            let o = network_menu_model(p)[3 + i];
            let id = p.ctx.custom_networks[i].0;
            &&& o.name == p.ctx.custom_networks[i].1
            &&& o.chain_id == dec(id as nat)
            &&& o.custom
            &&& o.on <==> p.net == NetworkId::Custom(id)
            &&& o.action == Message::SetNetwork(NetworkId::Custom(id))
        },
        ({
            let o = network_menu_model(p)[0];
            &&& o.name == "Ethereum Mainnet"@ && o.chain_id == dec(1) && !o.custom
            &&& o.on <==> p.net == NetworkId::Builtin(Chain::Mainnet)
            &&& o.action == Message::SetNetwork(NetworkId::Builtin(Chain::Mainnet))
        }),
        ({
            let o = network_menu_model(p)[1];
            &&& o.name == "Base"@ && o.chain_id == dec(8453) && !o.custom
            &&& o.on <==> p.net == NetworkId::Builtin(Chain::Base)
            &&& o.action == Message::SetNetwork(NetworkId::Builtin(Chain::Base))
        }),
        ({
            let o = network_menu_model(p)[2];
            &&& o.name == "Optimism"@ && o.chain_id == dec(10) && !o.custom
            &&& o.on <==> p.net == NetworkId::Builtin(Chain::Optimism)
            &&& o.action == Message::SetNetwork(NetworkId::Builtin(Chain::Optimism))
        }),
{
}

/// Who acts is on screen: what kind of account it is, and its address.
pub proof fn the_acting_account_is_shown(p: Pane)
    ensures
        identity_model(p).address == p.owner.short_text(),
        p.ctx.is_safe ==> identity_model(p).label == "Safe multisig"@,
        !p.ctx.is_safe ==> identity_model(p).label == "Single account"@,
{
}

/// The box for bundles shows its text: to export it can be copied, to import it can
/// be edited, and loaded once something is in it.
pub proof fn the_box_shows_its_text(p: Pane)
    ensures
        ({
            let m = modal_model(p);
            &&& m.text == p.json.text
            &&& m.error == p.json.error
            &&& m.close == Message::CloseModal
            &&& p.json.modal == Modal::Save ==> m.subtitle
                == "Safe-compatible transaction bundle · JSON"@
            &&& p.json.modal != Modal::Save ==> m.subtitle == "Paste a bundle to reconstruct it"@
            &&& p.json.modal == Modal::Save ==> !m.editable && m.title == "Export batch"@
                && m.left.action == Some(Message::CopyJson) && m.left.label == "Copy JSON"@
                && m.right.action == Some(Message::CloseModal) && m.right.label == "Done"@
            &&& p.json.modal != Modal::Save ==> m.editable && m.title == "Import batch"@
                && m.left.action == Some(Message::CloseModal) && m.left.label == "Cancel"@
                && m.right.label == "Load batch →"@
            &&& p.json.modal != Modal::Save && trimmed(p.json.text).len() > 0 ==> m.right.action
                == Some(Message::ImportJson)
            &&& p.json.modal != Modal::Save && trimmed(p.json.text).len() == 0 ==> m.right.action
                is None
        }),
{
}

/// What has settled is shown as it settled, with a button that copies its hash
/// where it has one.
pub proof fn what_settled_is_shown(p: Pane)
    ensures
        p.visible_settled() is None ==> settled_model(p) is None,
        p.visible_settled() matches Some(s) ==> (settled_model(p) matches Some(t) && {
            &&& t.outcome == s
            &&& t.dismiss == Message::DismissSettled
            &&& s is Proposed ==> t.copy is None
            &&& !(s is Proposed) ==> t.copy == Some(Message::CopySettledHash)
        }),
{
}

/// The screen is the box where it is open, and else the builder: its parts, what
/// stops a Safe from signing, and the banner.
pub proof fn the_screen_shows_every_part(p: Pane, f: ViewFacts)
    ensures
        p.json.modal != Modal::Closed ==> screen_model(p, f) == ScreenModel::Overlay(
            modal_model(p),
        ),
        p.json.modal == Modal::Closed ==> screen_model(p, f) == ScreenModel::Builder(
            builder_model(p, f),
        ),
        ({
            let b = builder_model(p, f);
            &&& b.network == network_chip_model(p)
            &&& b.identity == identity_model(p)
            &&& b.composer == composer_model(p, f)
            &&& b.settled == settled_model(p)
            &&& b.refusal == p.version_block(f.gate)
            &&& b.error == p.error
            &&& p.net_menu_open ==> b.menu == Some(network_menu_model(p))
            &&& !p.net_menu_open ==> b.menu is None
            &&& p.net is Builtin ==> b.batch == Some(batch_model(p, f)) && b.subtitle
                == "compose · simulate · sign — batch many calls into one atomic transaction"@
            &&& p.net is Custom ==> b.batch is None && b.subtitle
                == "compose · read · send — one transaction at a time on this custom network"@
        }),
{
}

/// What the screen asks about is what is in its fields.
pub proof fn the_screen_asks_about_its_fields(p: Pane)
    ensures
        ({
            let q = p.screen_asks();
            &&& q.address == p.composer.addr_input
            &&& q.value == p.composer.value_input
            &&& q.raw_to == p.raw.to && q.raw_value == p.raw.value && q.raw_data == p.raw.data
            &&& q.calls == p.queue.batch
            &&& q.id == p.queue.next_id
            &&& q.safe_version == p.ctx.safe_version
            &&& p.composer.loaded is None ==> q.call is None && q.query is None
            &&& p.composer.loaded matches Some(c) ==> {
                &&& p.composer.method_idx < c.methods.len() ==> (q.call matches Some(a) && a.method
                    == c.methods[p.composer.method_idx as int] && a.args == p.composer.args)
                &&& p.composer.method_idx >= c.methods.len() ==> q.call is None
                &&& p.reader.idx < c.read_methods.len() ==> (q.query matches Some(a) && a.method
                    == c.read_methods[p.reader.idx as int] && a.args == p.reader.args)
                &&& p.reader.idx >= c.read_methods.len() ==> q.query is None
            }
        }),
{
}

} // verus!

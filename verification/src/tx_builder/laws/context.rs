//! What a change of account or network says, and what the pane asks for.

use vstd::prelude::*;

use crate::chain::Chain;
use crate::chain::NetworkId;
use crate::primitives::Address;
use crate::text::dec;
use crate::text::model_of;
use crate::text::models;
use crate::text::trimmed;
use crate::tx_builder::Outcome;
use crate::tx_builder::laws::target::asks_nothing;
use crate::tx_builder::laws::target::lemma_configured;
use crate::tx_builder::laws::target::starts_over;
use crate::tx_builder::model::bool_text;
use crate::tx_builder::model::configured_name;
use crate::tx_builder::model::CtxModel;
use crate::tx_builder::model::Pane;
use crate::tx_builder::query::offered_networks;
use crate::tx_builder::query::ComposeChecks;
use crate::tx_builder::request::batch_title;
use crate::tx_builder::trace::change;
use crate::tx_builder::trace::changes_between;
use crate::tx_builder::trace::flip;
use crate::tx_builder::trace::layout_changes;
use crate::tx_builder::trace::modal_text;
use crate::tx_builder::trace::mode_text;
use crate::tx_builder::trace::work_changes;
use crate::tx_builder::trace::TraceState;
use crate::tx_builder::Findings;
use crate::tx_builder::Message;
use crate::tx_builder::Question;
use crate::tx_builder::ResolvedCode;
use crate::txbuilder::CallModel;

verus! {

// ── account and network ─────────────────────────────────────────────

/// Leaving a network says how many calls were dropped, the network they were
/// composed for and the one they cannot be sent on, in this order.
pub proof fn a_change_of_network_names_both(p: Pane, net: NetworkId, f: Findings)
    requires
        net != p.net,
    ensures
        ({
            let q = p.update(Message::SetNetwork(net), f).0;
            let n = p.queue.batch.len();
            &&& n == 0 ==> q.error is None
            &&& n == 1 ==> q.error == Some(
                "Batch cleared — "@ + dec(1) + " call"@ + seq![] + " composed for "@
                    + p.net.name_text() + " can't be replayed on "@ + net.name_text() + "."@,
            )
            &&& n > 1 ==> q.error == Some(
                "Batch cleared — "@ + dec(n) + " call"@ + seq!['s'] + " composed for "@
                    + p.net.name_text() + " can't be replayed on "@ + net.name_text() + "."@,
            )
            &&& !q.net_menu_open
            &&& q.queue.next_id == p.queue.next_id && q.queue.auto_revoke == p.queue.auto_revoke
            &&& q.raw == p.raw && q.mode == p.mode && q.shelf == p.shelf && q.json == p.json
                && q.settled == p.settled && q.owner == p.owner && q.ctx == p.ctx
            &&& q.composer.addr_input.len() == 0 && q.composer.abi_paste == p.composer.abi_paste
                && q.composer.resolve_target is None && !q.composer.not_found
                && q.composer.addr_error is None
            &&& starts_over(q.composer)
            &&& asks_nothing(q.reader)
            &&& q.sim.result is None && q.sim.at is None && !q.sim.busy
        }),
{
}

/// A change of account says how many calls were dropped, the account they were
/// composed for and the one that acts now, in this order.
pub proof fn a_change_of_account_names_both(
    p: Pane,
    ctx: CtxModel,
    chain: Chain,
    from: Address,
    to: Address,
)
    requires
        p.ctx.identity == Some(from),
        ctx.identity == Some(to),
        from != to,
    ensures
        ({
            let q = p.set_context(ctx, chain);
            let n = p.queue.batch.len();
            let tail = ": they'd run against a different account's balances and approvals."@;
            &&& n == 1 ==> q.error == Some(
                "Batch cleared — "@ + dec(1) + " call"@ + seq![] + " composed for "@
                    + from.short_text() + " can't be reused as "@ + to.short_text() + tail,
            )
            &&& n > 1 ==> q.error == Some(
                "Batch cleared — "@ + dec(n) + " call"@ + seq!['s'] + " composed for "@
                    + from.short_text() + " can't be reused as "@ + to.short_text() + tail,
            )
            &&& !q.shelf.menu_open && q.shelf.rename_idx is None && q.shelf.templates
                == p.shelf.templates
        }),
{
}

/// A refresh takes over who acts and how. The network becomes the Safe's own, and
/// a custom network that is gone gives way to Mainnet; else it stays. The queue is
/// dropped exactly when the account or the network changed.
pub proof fn a_refresh_takes_over_the_context(p: Pane, ctx: CtxModel, chain: Chain)
    requires
        ctx.identity is Some,
    ensures
        ({
            let q = p.set_context(ctx, chain);
            let gone = p.net matches NetworkId::Custom(id) && (forall|j: int|
                0 <= j < ctx.custom_networks.len() ==> (#[trigger] ctx.custom_networks[j]).0 != id);
            let moved = p.ctx.identity is Some && p.ctx.identity != ctx.identity;
            &&& q.ctx == ctx
            &&& q.owner == ctx.identity->0
            &&& ctx.is_safe ==> q.net == NetworkId::Builtin(chain)
            &&& !ctx.is_safe && gone ==> q.net == NetworkId::Builtin(Chain::Mainnet)
            &&& !ctx.is_safe && !gone ==> q.net == p.net
            &&& moved || q.net != p.net ==> q.queue.batch.len() == 0 && q.sim.result is None
                && q.composer.loaded is None && q.composer.resolve_target is None
            &&& !moved && q.net == p.net ==> q.queue == p.queue && q.sim == p.sim && q.composer
                == p.composer && q.reader == p.reader && q.error == p.error
            &&& q.mode == p.mode && q.raw == p.raw && q.json == p.json && q.settled == p.settled
                && q.shelf.templates == p.shelf.templates
        }),
{
    if let NetworkId::Custom(id) = p.net {
        lemma_configured(ctx.custom_networks, id, 0);
        if configured_name(ctx.custom_networks, id) is None {
            lemma_unconfigured(ctx.custom_networks, id);
        }
    }
}

proof fn lemma_unconfigured(nets: Seq<(u64, Seq<char>)>, id: u64)
    requires
        configured_name(nets, id) is None,
    ensures
        forall|j: int| 0 <= j < nets.len() ==> (#[trigger] nets[j]).0 != id,
    decreases nets.len(),
{
    if nets.len() > 0 {
        let rest = nets.drop_first();
        lemma_unconfigured(rest, id);
        assert forall|j: int| 0 <= j < nets.len() implies (#[trigger] nets[j]).0 != id by {
            if j > 0 {
                assert(nets[j] == rest[j - 1]);
            }
        }
    }
}

/// The switcher offers the built-in chains by their names, and then each custom
/// network under its own.
pub proof fn every_network_is_offered(custom: Seq<(u64, Seq<char>)>, i: int)
    ensures
        offered_networks(custom).len() == 3 + custom.len(),
        offered_networks(custom)[0] == (NetworkId::Builtin(Chain::Mainnet), "Ethereum Mainnet"@),
        offered_networks(custom)[1] == (NetworkId::Builtin(Chain::Base), "Base"@),
        offered_networks(custom)[2] == (NetworkId::Builtin(Chain::Optimism), "Optimism"@),
        0 <= i < custom.len() ==> offered_networks(custom)[3 + i] == (
            NetworkId::Custom(custom[i].0),
            custom[i].1,
        ),
{
}

// ── what is valid, and what is warned of ────────────────────────────

/// What is composed can be sent exactly when each part of it checks: in the method
/// form every argument, and the value where the method takes one; in the raw form
/// target, value and data; and a query is never sent.
pub proof fn only_what_checks_can_be_sent(p: Pane, checks: ComposeChecks)
    ensures
        p.mode is Read ==> !p.compose_valid(checks),
        p.mode is Raw ==> (p.compose_valid(checks) <==> checks.raw_to && checks.raw_value
            && checks.raw_data),
        p.mode is Write ==> {
            &&& p.composer.loaded is None ==> !p.compose_valid(checks)
            &&& p.composer.loaded matches Some(c) ==> {
                &&& p.composer.method_idx >= c.methods.len() ==> !p.compose_valid(checks)
                &&& p.composer.method_idx < c.methods.len() ==> {
                    let m = c.methods[p.composer.method_idx as int];
                    p.compose_valid(checks) <==> p.composer.args.len() == m.inputs.len()
                        && checks.args && (m.payable ==> checks.value)
                }
            }
        },
{
}

/// A query can be run exactly when one is selected and each of its parameters has a
/// valid argument.
pub proof fn only_a_complete_query_can_be_run(p: Pane, args_valid: bool)
    ensures
        p.read_valid(args_valid) <==> (p.composer.loaded matches Some(c) && p.reader.idx
            < c.read_methods.len() && p.reader.args.len()
            == c.read_methods[p.reader.idx as int].inputs.len() && args_valid),
{
}

/// A call to the account that sends it is pointed out, and no other: of a plain
/// account as such, of a Safe with what it would do to the Safe.
pub proof fn a_call_to_oneself_is_pointed_out(p: Pane, c: CallModel, effect: Option<Seq<char>>)
    ensures
        p.self_admin_note(c, effect) is Some <==> c.to == p.owner,
        c.to == p.owner && !p.ctx.is_safe ==> p.self_admin_note(c, effect) == Some(
            "This call is addressed to the account that would send it."@,
        ),
        c.to == p.owner && p.ctx.is_safe ==> {
            &&& effect matches Some(e) ==> p.self_admin_note(c, effect) == Some(
                "Runs as the Safe and "@ + e
                    + ". Remove it unless you meant to change the multisig itself."@,
            )
            &&& effect is None ==> p.self_admin_note(c, effect) == Some(
                "Addressed to the Safe that would execute it, and this wallet doesn't recognise the call. Run this way it acts as the Safe on itself."@,
            )
        },
{
}

/// A batch of one call goes by the title of that call, and a larger one by its
/// count.
pub proof fn a_batch_is_titled_by_its_calls(calls: Seq<CallModel>)
    ensures
        calls.len() == 1 ==> batch_title(calls) == calls[0].title,
        calls.len() != 1 ==> batch_title(calls) == "Batch · "@ + dec(calls.len()) + " calls"@,
{
}

// ── what is asked ───────────────────────────────────────────────────

/// The active chain, where it is a built-in one.
pub open spec fn active_chain(p: Pane) -> Option<Chain> {
    match p.net {
        NetworkId::Builtin(c) => Some(c),
        NetworkId::Custom(_) => None,
    }
}

/// An address is looked up as it was typed, without the white space around it: in
/// the composer on the active chain, in the raw form on none.
pub proof fn the_typed_address_is_looked_up(p: Pane, v: String, q: Question)
    ensures
        p.asks(Message::AddrChanged(v), q) <==> (q matches Question::Address { text, chain }
            && text@ == trimmed(v@) && chain == active_chain(p)),
        p.asks(Message::RawToChanged(v), q) <==> (q matches Question::Address { text, chain }
            && text@ == trimmed(v@) && chain is None),
        p.asks(Message::LoadPastedAbi, q) <==> (q matches Question::PastedAbi { address, abi }
            && address@ == p.composer.addr_input && abi@ == p.composer.abi_paste),
{
}

/// Whether a question is for the call on screen: of the selected method, to the
/// contract shown, with the arguments and the value typed.
pub open spec fn is_call_on_screen(p: Pane, q: Question) -> bool {
    q matches Question::ContractCall { id, to, name, method, args, value } && {
        let c = p.composer.loaded->0;
        &&& id == p.queue.next_id
        &&& to == c.address
        &&& name@ == c.name
        &&& method@ == c.methods[p.composer.method_idx as int]
        &&& models(args@) == p.composer.args
        &&& value@ == p.composer.value_input
    }
}

/// The call that is built is the one on screen, in either form, whether it is
/// queued or sent alone.
pub proof fn the_call_on_screen_is_built(p: Pane, q: Question)
    ensures
        p.mode is Write && p.composer.loaded is Some && p.composer.method_idx
            < p.composer.loaded->0.methods.len() ==> (p.asks(Message::AddToBatch, q)
            <==> is_call_on_screen(p, q)),
        p.mode is Raw ==> (p.asks(Message::AddToBatch, q) <==> (q matches Question::RawCall {
            id,
            to,
            value,
            data,
        } && id == p.queue.next_id && to@ == p.raw.to && value@ == p.raw.value && data@
            == p.raw.data)),
        p.asks(Message::SendSingle, q) <==> (q matches Question::Single { call, safe_version }
            && p.asks(Message::AddToBatch, *call) && model_of(safe_version)
            == p.ctx.safe_version),
{
}

/// A query is encoded as it is on screen.
pub proof fn the_query_on_screen_is_encoded(p: Pane, q: Question)
    ensures
        p.composer.loaded is Some && p.reader.idx < p.composer.loaded->0.read_methods.len() ==> (
        p.asks(Message::Query, q) <==> (q matches Question::ReadCall { method, args } && method@
            == p.composer.loaded->0.read_methods[p.reader.idx as int] && models(args@)
            == p.reader.args)),
{
}

/// What is wrapped, reviewed, exported or stored is the queue as it stands, for the
/// acting account, on the active chain.
pub proof fn the_queue_is_handed_on_as_it_stands(p: Pane, q: Question)
    ensures
        p.asks(Message::Simulate, q) <==> (q matches Question::Wrap { calls, id } && models(calls@)
            == p.queue.batch && id == p.queue.next_id),
        p.asks(Message::Review, q) <==> (q matches Question::Review { calls, id, safe_version }
            && models(calls@) == p.queue.batch && id == p.queue.next_id && model_of(safe_version)
            == p.ctx.safe_version),
        p.net is Builtin ==> (p.asks(Message::OpenSave, q) <==> (q matches Question::Export {
            chain,
            safe,
            owner,
            calls,
        } && Some(chain) == active_chain(p) && (p.ctx.is_safe ==> safe == Some(p.owner)) && (
        !p.ctx.is_safe ==> safe is None) && owner == p.owner && models(calls@) == p.queue.batch)),
        p.net is Builtin && p.queue.batch.len() > 0 ==> (p.asks(Message::SaveTemplate, q)
            <==> (q matches Question::NewTemplate { name, kaomoji, chain, owner, calls } && name@
            == "Untitled batch"@ && kaomoji@ == "(｡•̀ᴗ-)✧"@ && Some(chain) == active_chain(p)
            && owner == p.owner && models(calls@) == p.queue.batch)),
        p.asks(Message::LoadSample, q) <==> (q matches Question::Sample { id, owner } && id
            == p.queue.next_id && owner == p.owner),
{
}

/// What is read back is the text in the box, or that template, on the active chain.
pub proof fn what_is_loaded_is_what_was_picked(p: Pane, i: usize, q: Question)
    ensures
        p.asks(Message::ImportJson, q) <==> (q matches Question::Import { text, id, chain } && text@
            == p.json.text && id == p.queue.next_id && chain == active_chain(p)),
        p.net is Builtin && i < p.shelf.templates.len() ==> (p.asks(Message::LoadTemplate(i), q)
            <==> (q matches Question::TemplateCalls { template, id, chain } && template@
            == p.shelf.templates[i as int] && id == p.queue.next_id && Some(chain)
            == active_chain(p))),
{
}

/// Code is read for the target that was asked about, and only the answer to the
/// latest resolve is read.
pub proof fn code_is_read_for_the_target(p: Pane, seq: u64, r: ResolvedCode, q: Question)
    ensures
        seq == p.composer.resolve_seq && p.composer.resolve_target is Some ==> (p.asks_recovery(
            seq,
            Ok(r),
            q,
        ) <==> (q matches Question::Recovery { code, address, implementation, code_verified }
            && code@ == r.code@ && Some(address) == p.composer.resolve_target && implementation
            == r.implementation && code_verified == r.code_verified)),
        seq != p.composer.resolve_seq || p.composer.resolve_target is None ==> (p.asks_recovery(
            seq,
            Ok(r),
            q,
        ) <==> q is Nothing),
{
}

/// Nothing is asked where there is nothing to ask: no method or query selected, no
/// batch to store, a network that a bundle or a template cannot carry, or a message
/// that needs no answer.
pub proof fn nothing_is_asked_in_vain(p: Pane, i: usize, q: Question)
    ensures
        p.mode is Read ==> (p.asks(Message::AddToBatch, q) <==> q is Nothing),
        p.mode is Write && (p.composer.loaded is None || p.composer.method_idx
            >= p.composer.loaded->0.methods.len()) ==> (p.asks(Message::AddToBatch, q) <==> q
            is Nothing),
        p.composer.loaded is None || p.reader.idx >= p.composer.loaded->0.read_methods.len() ==> (
        p.asks(Message::Query, q) <==> q is Nothing),
        p.net is Custom ==> (p.asks(Message::OpenSave, q) <==> q is Nothing) && (p.asks(
            Message::SaveTemplate,
            q,
        ) <==> q is Nothing) && (p.asks(Message::LoadTemplate(i), q) <==> q is Nothing),
        p.queue.batch.len() == 0 ==> (p.asks(Message::SaveTemplate, q) <==> q is Nothing),
        i >= p.shelf.templates.len() ==> (p.asks(Message::LoadTemplate(i), q) <==> q is Nothing),
        p.asks(Message::ClearBatch, q) <==> q is Nothing,
        p.asks(Message::Close, q) <==> q is Nothing,
        p.asks(Message::RetryResolve, q) <==> q is Nothing,
{
}

// ── the trace ───────────────────────────────────────────────────────

/// Whether a trace names a change from one text to another.
pub open spec fn traces(
    a: TraceState,
    b: TraceState,
    what: Seq<char>,
    from: Seq<char>,
    to: Seq<char>,
) -> bool {
    changes_between(a, b).contains((what, from, to))
}

/// How many of two records differ.
pub open spec fn differing(a: TraceState, b: TraceState) -> nat {
    counted(a.mode != b.mode) + counted(a.net != b.net) + counted(a.batch != b.batch) + counted(
        a.modal != b.modal,
    ) + counted(a.loaded != b.loaded) + counted(a.resolving != b.resolving) + counted(
        a.read_busy != b.read_busy,
    ) + counted(a.sim_busy != b.sim_busy) + counted(a.sim != b.sim) + counted(
        a.errored != b.errored,
    ) + counted(a.settled != b.settled)
}

/// One where something holds, and nought where it does not.
#[verifier::opaque]
pub open spec fn counted(holds: bool) -> nat {
    if holds {
        1
    } else {
        0
    }
}

proof fn lemma_one_change(moved: bool, what: Seq<char>, from: Seq<char>, to: Seq<char>)
    ensures
        change(moved, what, from, to).len() == counted(moved),
        moved ==> change(moved, what, from, to).contains((what, from, to)),
{
    reveal(change);
    reveal(counted);
    if moved {
        assert(change(moved, what, from, to)[0] == (what, from, to));
    }
}

proof fn lemma_one_flip(what: Seq<char>, from: bool, to: bool)
    ensures
        flip(what, from, to).len() == counted(from != to),
        !from && to ==> flip(what, from, to).contains((what, "false"@, "true"@)),
        from && !to ==> flip(what, from, to).contains((what, "true"@, "false"@)),
{
    reveal(flip);
    reveal_strlit("true");
    reveal_strlit("false");
    lemma_one_change(from != to, what, bool_text(from), bool_text(to));
}

proof fn lemma_in_either<A>(a: Seq<A>, b: Seq<A>)
    ensures
        forall|x: A| a.contains(x) || b.contains(x) ==> #[trigger] (a + b).contains(x),
{
    assert forall|x: A| a.contains(x) || b.contains(x) implies #[trigger] (a + b).contains(x) by {
        lemma_in_sum(a, b, x);
    }
}

/// A trace has one line for each thing that changed, and none where nothing did.
pub proof fn a_trace_counts_what_changed(a: TraceState, b: TraceState)
    ensures
        changes_between(a, b).len() == differing(a, b),
{
    lemma_layout_counted(a, b);
    lemma_work_counted(a, b);
}

proof fn lemma_layout_counted(a: TraceState, b: TraceState)
    ensures
        layout_changes(a, b).len() == counted(a.mode != b.mode) + counted(a.net != b.net) + counted(
            a.batch != b.batch,
        ) + counted(a.modal != b.modal),
{
    lemma_one_change(a.mode != b.mode, "mode"@, mode_text(a.mode), mode_text(b.mode));
    lemma_one_change(a.net != b.net, "net"@, a.net.name_text(), b.net.name_text());
    lemma_one_change(a.batch != b.batch, "batch"@, dec(a.batch as nat), dec(b.batch as nat));
    lemma_one_change(a.modal != b.modal, "modal"@, modal_text(a.modal), modal_text(b.modal));
}

proof fn lemma_work_counted(a: TraceState, b: TraceState)
    ensures
        work_changes(a, b).len() == counted(a.loaded != b.loaded) + counted(
            a.resolving != b.resolving,
        ) + counted(a.read_busy != b.read_busy) + counted(a.sim_busy != b.sim_busy) + counted(
            a.sim != b.sim,
        ) + counted(a.errored != b.errored) + counted(a.settled != b.settled),
{
    lemma_one_flip("contract"@, a.loaded, b.loaded);
    lemma_one_flip("resolving"@, a.resolving, b.resolving);
    lemma_one_flip("read_busy"@, a.read_busy, b.read_busy);
    lemma_one_flip("sim_busy"@, a.sim_busy, b.sim_busy);
    lemma_one_flip("sim_verdict"@, a.sim, b.sim);
    lemma_one_flip("error"@, a.errored, b.errored);
    lemma_one_flip("settled"@, a.settled, b.settled);
}

/// A mode, a network, a count and an overlay are traced from what they were to what
/// they are.
#[verifier::rlimit(40)]
pub proof fn a_trace_says_from_what_to_what(a: TraceState, b: TraceState)
    ensures
        a.net != b.net ==> traces(a, b, "net"@, a.net.name_text(), b.net.name_text()),
        a.batch != b.batch ==> traces(a, b, "batch"@, dec(a.batch as nat), dec(b.batch as nat)),
        a.mode is Write && b.mode is Read ==> traces(a, b, "mode"@, "Write"@, "Read"@),
        a.mode is Write && b.mode is Raw ==> traces(a, b, "mode"@, "Write"@, "Raw"@),
        a.mode is Read && b.mode is Write ==> traces(a, b, "mode"@, "Read"@, "Write"@),
        a.mode is Read && b.mode is Raw ==> traces(a, b, "mode"@, "Read"@, "Raw"@),
        a.mode is Raw && b.mode is Write ==> traces(a, b, "mode"@, "Raw"@, "Write"@),
        a.mode is Raw && b.mode is Read ==> traces(a, b, "mode"@, "Raw"@, "Read"@),
        a.modal is Closed && b.modal is Save ==> traces(a, b, "modal"@, "None"@, "Save"@),
        a.modal is Closed && b.modal is Load ==> traces(a, b, "modal"@, "None"@, "Load"@),
        a.modal is Save && b.modal is Closed ==> traces(a, b, "modal"@, "Save"@, "None"@),
        a.modal is Load && b.modal is Closed ==> traces(a, b, "modal"@, "Load"@, "None"@),
{
    let c1 = change(a.mode != b.mode, "mode"@, mode_text(a.mode), mode_text(b.mode));
    let c2 = change(a.net != b.net, "net"@, a.net.name_text(), b.net.name_text());
    let c3 = change(a.batch != b.batch, "batch"@, dec(a.batch as nat), dec(b.batch as nat));
    let c4 = change(a.modal != b.modal, "modal"@, modal_text(a.modal), modal_text(b.modal));
    lemma_one_change(a.mode != b.mode, "mode"@, mode_text(a.mode), mode_text(b.mode));
    lemma_one_change(a.net != b.net, "net"@, a.net.name_text(), b.net.name_text());
    lemma_one_change(a.batch != b.batch, "batch"@, dec(a.batch as nat), dec(b.batch as nat));
    lemma_one_change(a.modal != b.modal, "modal"@, modal_text(a.modal), modal_text(b.modal));
    lemma_in_either(c1, c2);
    lemma_in_either(c1 + c2, c3);
    lemma_in_either(c1 + c2 + c3, c4);
    lemma_in_either(layout_changes(a, b), work_changes(a, b));
}

/// A flag that rose is traced from "false" to "true", and one that fell the other
/// way.
#[verifier::rlimit(40)]
pub proof fn a_trace_says_which_way_a_flag_went(a: TraceState, b: TraceState)
    ensures
        !a.loaded && b.loaded ==> traces(a, b, "contract"@, "false"@, "true"@),
        a.loaded && !b.loaded ==> traces(a, b, "contract"@, "true"@, "false"@),
        !a.resolving && b.resolving ==> traces(a, b, "resolving"@, "false"@, "true"@),
        a.resolving && !b.resolving ==> traces(a, b, "resolving"@, "true"@, "false"@),
        !a.read_busy && b.read_busy ==> traces(a, b, "read_busy"@, "false"@, "true"@),
        a.read_busy && !b.read_busy ==> traces(a, b, "read_busy"@, "true"@, "false"@),
        !a.sim_busy && b.sim_busy ==> traces(a, b, "sim_busy"@, "false"@, "true"@),
        a.sim_busy && !b.sim_busy ==> traces(a, b, "sim_busy"@, "true"@, "false"@),
        !a.sim && b.sim ==> traces(a, b, "sim_verdict"@, "false"@, "true"@),
        a.sim && !b.sim ==> traces(a, b, "sim_verdict"@, "true"@, "false"@),
        !a.errored && b.errored ==> traces(a, b, "error"@, "false"@, "true"@),
        a.errored && !b.errored ==> traces(a, b, "error"@, "true"@, "false"@),
        !a.settled && b.settled ==> traces(a, b, "settled"@, "false"@, "true"@),
        a.settled && !b.settled ==> traces(a, b, "settled"@, "true"@, "false"@),
{
    lemma_one_flip("contract"@, a.loaded, b.loaded);
    lemma_one_flip("resolving"@, a.resolving, b.resolving);
    lemma_one_flip("read_busy"@, a.read_busy, b.read_busy);
    lemma_one_flip("sim_busy"@, a.sim_busy, b.sim_busy);
    lemma_one_flip("sim_verdict"@, a.sim, b.sim);
    lemma_one_flip("error"@, a.errored, b.errored);
    lemma_one_flip("settled"@, a.settled, b.settled);
    lemma_work(a, b, ("contract"@, "false"@, "true"@));
    lemma_work(a, b, ("contract"@, "true"@, "false"@));
    lemma_work(a, b, ("resolving"@, "false"@, "true"@));
    lemma_work(a, b, ("resolving"@, "true"@, "false"@));
    lemma_work(a, b, ("read_busy"@, "false"@, "true"@));
    lemma_work(a, b, ("read_busy"@, "true"@, "false"@));
    lemma_work(a, b, ("sim_busy"@, "false"@, "true"@));
    lemma_work(a, b, ("sim_busy"@, "true"@, "false"@));
    lemma_work(a, b, ("sim_verdict"@, "false"@, "true"@));
    lemma_work(a, b, ("sim_verdict"@, "true"@, "false"@));
    lemma_work(a, b, ("error"@, "false"@, "true"@));
    lemma_work(a, b, ("error"@, "true"@, "false"@));
    lemma_work(a, b, ("settled"@, "false"@, "true"@));
    lemma_work(a, b, ("settled"@, "true"@, "false"@));
}

/// What one of the flags adds is in the trace.
proof fn lemma_work(a: TraceState, b: TraceState, x: (Seq<char>, Seq<char>, Seq<char>))
    ensures
        flip("contract"@, a.loaded, b.loaded).contains(x) || flip(
            "resolving"@,
            a.resolving,
            b.resolving,
        ).contains(x) || flip("read_busy"@, a.read_busy, b.read_busy).contains(x) || flip(
            "sim_busy"@,
            a.sim_busy,
            b.sim_busy,
        ).contains(x) || flip("sim_verdict"@, a.sim, b.sim).contains(x) || flip(
            "error"@,
            a.errored,
            b.errored,
        ).contains(x) || flip("settled"@, a.settled, b.settled).contains(x) ==> changes_between(
            a,
            b,
        ).contains(x),
{
    let f1 = flip("contract"@, a.loaded, b.loaded);
    let f2 = flip("resolving"@, a.resolving, b.resolving);
    let f3 = flip("read_busy"@, a.read_busy, b.read_busy);
    let f4 = flip("sim_busy"@, a.sim_busy, b.sim_busy);
    let f5 = flip("sim_verdict"@, a.sim, b.sim);
    let f6 = flip("error"@, a.errored, b.errored);
    let f7 = flip("settled"@, a.settled, b.settled);
    lemma_in_sum(f1, f2, x);
    lemma_in_sum(f1 + f2, f3, x);
    lemma_in_sum(f1 + f2 + f3, f4, x);
    lemma_in_sum(f1 + f2 + f3 + f4, f5, x);
    lemma_in_sum(f1 + f2 + f3 + f4 + f5, f6, x);
    lemma_in_sum(f1 + f2 + f3 + f4 + f5 + f6, f7, x);
    lemma_in_sum(layout_changes(a, b), work_changes(a, b), x);
}

proof fn lemma_in_sum<A>(a: Seq<A>, b: Seq<A>, x: A)
    ensures
        a.contains(x) || b.contains(x) ==> (a + b).contains(x),
{
    if a.contains(x) {
        let k = choose|k: int| 0 <= k < a.len() && a[k] == x;
        assert((a + b)[k] == x);
    } else if b.contains(x) {
        let k = choose|k: int| 0 <= k < b.len() && b[k] == x;
        assert((a + b)[a.len() + k] == x);
    }
}

/// A snapshot records each thing as the pane has it.
pub proof fn a_snapshot_records_the_pane(p: Pane)
    requires
        p.queue.batch.len() <= usize::MAX,
    ensures
        ({
            let s = p.sampled();
            &&& s.mode == p.mode && s.net == p.net && s.batch == p.queue.batch.len() && s.modal
                == p.json.modal
            &&& s.loaded <==> p.composer.loaded is Some
            &&& s.resolving == p.composer.resolving
            &&& s.read_busy == p.reader.busy
            &&& s.sim_busy == p.sim.busy
            &&& s.sim <==> p.sim.result is Some
            &&& s.errored <==> p.error is Some
            &&& s.settled <==> p.settled is Some
        }),
{
}

/// A message goes by the name of what it asks for.
pub proof fn a_message_goes_by_its_name(m: Message)
    ensures
        m is Close ==> m.name_text() == "Close"@,
        m is SetMode ==> m.name_text() == "SetMode"@,
        m is ToggleNetworkMenu ==> m.name_text() == "ToggleNetworkMenu"@,
        m is SetNetwork ==> m.name_text() == "SetNetwork"@,
        m is AddrChanged ==> m.name_text() == "AddrChanged"@,
        m is RetryResolve ==> m.name_text() == "RetryResolve"@,
        m is ShowAbiPaste ==> m.name_text() == "ShowAbiPaste"@,
        m is AbiPasteChanged ==> m.name_text() == "AbiPasteChanged"@,
        m is LoadPastedAbi ==> m.name_text() == "LoadPastedAbi"@,
        m is ToggleMethodMenu ==> m.name_text() == "ToggleMethodMenu"@,
        m is PickMethod ==> m.name_text() == "PickMethod"@,
        m is ArgChanged ==> m.name_text() == "ArgChanged"@,
        m is BoolArg ==> m.name_text() == "BoolArg"@,
        m is ValueChanged ==> m.name_text() == "ValueChanged"@,
        m is ToggleReadMethodMenu ==> m.name_text() == "ToggleReadMethodMenu"@,
        m is PickReadMethod ==> m.name_text() == "PickReadMethod"@,
        m is ReadArgChanged ==> m.name_text() == "ReadArgChanged"@,
        m is ReadBoolArg ==> m.name_text() == "ReadBoolArg"@,
        m is Query ==> m.name_text() == "Query"@,
        m is CopyReadRaw ==> m.name_text() == "CopyReadRaw"@,
        m is CopyReadValue ==> m.name_text() == "CopyReadValue"@,
        m is RawToChanged ==> m.name_text() == "RawToChanged"@,
        m is RawValueChanged ==> m.name_text() == "RawValueChanged"@,
        m is RawDataChanged ==> m.name_text() == "RawDataChanged"@,
        m is AddToBatch ==> m.name_text() == "AddToBatch"@,
        m is SendSingle ==> m.name_text() == "SendSingle"@,
        m is RemoveCall ==> m.name_text() == "RemoveCall"@,
        m is MoveUp ==> m.name_text() == "MoveUp"@,
        m is MoveDown ==> m.name_text() == "MoveDown"@,
        m is ToggleExpand ==> m.name_text() == "ToggleExpand"@,
        m is ClearBatch ==> m.name_text() == "ClearBatch"@,
        m is LoadSample ==> m.name_text() == "LoadSample"@,
        m is ToggleAutoRevoke ==> m.name_text() == "ToggleAutoRevoke"@,
        m is ToggleTemplateMenu ==> m.name_text() == "ToggleTemplateMenu"@,
        m is LoadTemplate ==> m.name_text() == "LoadTemplate"@,
        m is SaveTemplate ==> m.name_text() == "SaveTemplate"@,
        m is DeleteTemplate ==> m.name_text() == "DeleteTemplate"@,
        m is StartRename ==> m.name_text() == "StartRename"@,
        m is RenameChanged ==> m.name_text() == "RenameChanged"@,
        m is CommitRename ==> m.name_text() == "CommitRename"@,
        m is CancelRename ==> m.name_text() == "CancelRename"@,
        m is Simulate ==> m.name_text() == "Simulate"@,
        m is Review ==> m.name_text() == "Review"@,
        m is OpenSave ==> m.name_text() == "OpenSave"@,
        m is OpenLoad ==> m.name_text() == "OpenLoad"@,
        m is CloseModal ==> m.name_text() == "CloseModal"@,
        m is JsonChanged ==> m.name_text() == "JsonChanged"@,
        m is CopyJson ==> m.name_text() == "CopyJson"@,
        m is ImportJson ==> m.name_text() == "ImportJson"@,
        m is CopySettledHash ==> m.name_text() == "CopySettledHash"@,
        m is DismissSettled ==> m.name_text() == "DismissSettled"@,
        m is Escape ==> m.name_text() == "Escape"@,
        m is DismissError ==> m.name_text() == "DismissError"@,
{
}

/// What a message led to goes by the name of what is to be done.
pub proof fn an_outcome_goes_by_its_name(m: Outcome)
    ensures
        m is Close ==> m.name_text() == "Close"@,
        m is ResolveContract ==> m.name_text() == "ResolveContract"@,
        m is Read ==> m.name_text() == "Read"@,
        m is ProbeCode ==> m.name_text() == "ProbeCode"@,
        m is Simulate ==> m.name_text() == "Simulate"@,
        m is Review ==> m.name_text() == "Review"@,
        m is PersistTemplates ==> m.name_text() == "PersistTemplates"@,
        m is CopyText ==> m.name_text() == "CopyText"@,
        m is CopyPlain ==> m.name_text() == "CopyPlain"@,
{
}

} // verus!

//! What holds of the pane whatever happens to it.

use vstd::prelude::*;

use crate::chain::Chain;
use crate::chain::NetworkId;
use crate::primitives::Address;
use crate::primitives::B256;
use crate::text::model_of;
use crate::text::models;
use crate::text::trimmed;
use crate::tx_builder::ReadModel;
use crate::tx_builder::model::bump;
use crate::tx_builder::model::configured_name;
use crate::tx_builder::model::identity_notice;
use crate::tx_builder::model::network_notice;
use crate::tx_builder::model::position_of;
use crate::tx_builder::model::raw_hex;
use crate::tx_builder::model::sample_calls;
use crate::tx_builder::model::swapped;
use crate::tx_builder::model::without_id;
use crate::tx_builder::model::CtxModel;
use crate::tx_builder::model::Pane;
use crate::tx_builder::model::ShelfModel;
use crate::tx_builder::BatchFate;
use crate::tx_builder::Effect;
use crate::tx_builder::Findings;
use crate::tx_builder::FlashWrap;
use crate::tx_builder::Message;
use crate::tx_builder::Modal;
use crate::tx_builder::ReadReply;
use crate::tx_builder::ResolvedCode;
use crate::tx_builder::Settled;
use crate::tx_builder::Verdict;
use crate::tx_builder::ADDRESS_TEXT_LEN;
use crate::txbuilder::lists_selector;
use crate::txbuilder::merged;
use crate::txbuilder::unlisted;
use crate::txbuilder::AbiSource;
use crate::txbuilder::BatchSimResult;
use crate::txbuilder::CallModel;
use crate::txbuilder::ContractModel;
use crate::txbuilder::MethodModel;
use crate::txbuilder::TemplateModel;
use crate::txbuilder::MAX_BATCH_CALLS;

pub mod context;
pub mod edits;
pub mod shelf;
pub mod target;
pub mod verdict;
pub mod views;

verus! {

/// What a simulated verdict is about: the calls, how they are wrapped, and the
/// network.
pub open spec fn sim_subject(p: Pane) -> (Seq<CallModel>, bool, NetworkId) {
    (p.queue.batch, p.queue.auto_revoke, p.net)
}

/// What a query's result is about: the network, the contract, the method and
/// the arguments.
pub open spec fn read_subject(p: Pane) -> (
    NetworkId,
    Option<ContractModel>,
    usize,
    Seq<Seq<char>>,
) {
    (p.net, p.composer.loaded, p.reader.idx, p.reader.args)
}

/// What holds of a step from `p` to `q` with the effect `e`, taken for the
/// message `m`.
#[verifier::opaque]
spec fn sound(p: Pane, m: Message, f: Findings, q: Pane, e: Option<Effect>) -> bool {
    &&& q.owner == p.owner
    &&& q.ctx == p.ctx
    &&& q.settled == p.settled || m is DismissSettled
    &&& sim_subject(q) == sim_subject(p) || (q.sim.result is None && q.sim.at is None
        && !q.sim.busy && q.sim.seq == bump(p.sim.seq))
    &&& q.composer.resolve_seq >= p.composer.resolve_seq
    &&& (q.composer.resolve_target == p.composer.resolve_target && q.net == p.net)
        || q.composer.resolve_seq > p.composer.resolve_seq
    &&& q.composer.resolve_target == p.composer.resolve_target || (!q.composer.proxy_unverified
        && !q.composer.proxy_beacon)
    &&& p.on_target() ==> q.on_target()
    &&& e matches Some(Effect::ResolveContract { seq, chain, address }) ==> {
        &&& seq == q.composer.resolve_seq
        &&& q.composer.resolve_target == Some(address)
        &&& q.net == NetworkId::Builtin(chain)
    }
    &&& q.sim.seq >= p.sim.seq
    &&& q.reader.seq >= p.reader.seq
    &&& (read_subject(q) == read_subject(p)) || (q.reader.result is None && !q.reader.busy
        && q.reader.seq > p.reader.seq)
    &&& e matches Some(Effect::Simulate { seq, .. }) ==> seq == q.sim.seq
    &&& e matches Some(Effect::Read { seq, .. }) ==> seq == q.reader.seq
    &&& e matches Some(Effect::Review { calls, .. }) ==> calls.len() <= MAX_BATCH_CALLS
        && p.no_signer_reason(f.gate) is None
    &&& e matches Some(Effect::Simulate { calls, .. }) ==> calls.len() <= MAX_BATCH_CALLS
    &&& e matches Some(Effect::PersistTemplates { list, rollback }) ==> list == q.shelf.templates
        && rollback == p.shelf.templates
    &&& q.shelf.templates == p.shelf.templates || (e is Some && e->0 is PersistTemplates)
    &&& p.queue.batch.len() <= MAX_BATCH_CALLS ==> q.queue.batch.len() <= MAX_BATCH_CALLS
    &&& !p.can_batch() && p.queue.batch.len() <= 1 && !(m is LoadSample) ==> q.queue.batch.len()
        <= 1
    &&& m is AddToBatch || m is RemoveCall || m is MoveUp || m is MoveDown || m is LoadSample || m
        is LoadTemplate || m is ImportJson || ((q.queue.batch == p.queue.batch
        || q.queue.batch.len() == 0) && q.queue.next_id == p.queue.next_id)
}

proof fn lemma_toggled(p: Pane, m: Message, f: Findings)
    requires
        p.room(),
    ensures
        sound(p, m, f, p.toggled(m).0, p.toggled(m).1),
{
    reveal(sound);
}

proof fn lemma_overlaid(p: Pane, m: Message, f: Findings)
    requires
        p.room(),
    ensures
        sound(p, m, f, p.overlaid(m).0, p.overlaid(m).1),
{
    reveal(sound);
}

proof fn lemma_edited(p: Pane, m: Message, f: Findings)
    requires
        p.room(),
    ensures
        sound(p, m, f, p.edited(m).0, p.edited(m).1),
{
    reveal(sound);
}

proof fn lemma_asked(p: Pane, m: Message, f: Findings)
    requires
        p.room(),
    ensures
        sound(p, m, f, p.asked(m).0, p.asked(m).1),
{
    reveal(sound);
}

proof fn lemma_added(p: Pane, m: Message, f: Findings)
    requires
        p.room(),
        m is AddToBatch,
    ensures
        sound(
            p,
            m,
            f,
            p.add_to_batch(f.address, f.call).0,
            p.add_to_batch(f.address, f.call).1,
        ),
{
    reveal(sound);
}

proof fn lemma_template_loaded(p: Pane, m: Message, f: Findings, i: usize)
    requires
        p.room(),
        m is LoadTemplate,
    ensures
        sound(
            p,
            m,
            f,
            p.load_template(i, f.loaded_calls).0,
            p.load_template(i, f.loaded_calls).1,
        ),
{
    reveal(sound);
}

proof fn lemma_imported(p: Pane, m: Message, f: Findings)
    requires
        p.room(),
        m is ImportJson,
    ensures
        sound(
            p,
            m,
            f,
            p.import_json(f.loaded_calls, f.composed_as).0,
            p.import_json(f.loaded_calls, f.composed_as).1,
        ),
{
    reveal(sound);
}

proof fn lemma_rearranged(p: Pane, m: Message, f: Findings)
    requires
        p.room(),
    ensures
        sound(p, m, f, p.rearranged(m, f).0, p.rearranged(m, f).1),
{
    reveal(sound);
    match m {
        Message::AddToBatch => lemma_added(p, m, f),
        Message::LoadTemplate(i) => lemma_template_loaded(p, m, f, i),
        Message::ImportJson => lemma_imported(p, m, f),
        Message::RemoveCall(id) => {
            lemma_without_id(p.queue.batch, id);
            assert(sound(p, m, f, p.rearranged(m, f).0, p.rearranged(m, f).1));
        },
        Message::MoveUp(id) => {
            lemma_position_bounds(p.queue.batch, id);
            assert(sound(p, m, f, p.rearranged(m, f).0, p.rearranged(m, f).1));
        },
        Message::MoveDown(id) => {
            lemma_position_bounds(p.queue.batch, id);
            assert(sound(p, m, f, p.rearranged(m, f).0, p.rearranged(m, f).1));
        },
        Message::ClearBatch => {
            assert(sound(p, m, f, p.rearranged(m, f).0, p.rearranged(m, f).1));
        },
        Message::LoadSample => {
            assert(sound(p, m, f, p.rearranged(m, f).0, p.rearranged(m, f).1));
        },
        Message::ToggleAutoRevoke(_) => {
            assert(sound(p, m, f, p.rearranged(m, f).0, p.rearranged(m, f).1));
        },
        _ => {},
    }
}

proof fn lemma_addressed(
    p: Pane,
    m: Message,
    f: Findings,
    v: Seq<char>,
    long: bool,
    known: Option<ContractModel>,
)
    requires
        p.room(),
    ensures
        sound(
            p,
            m,
            f,
            p.addr_changed(v, long, f.address, known).0,
            p.addr_changed(v, long, f.address, known).1,
        ),
{
    reveal(sound);
}

proof fn lemma_dispatched(p: Pane, m: Message, f: Findings)
    requires
        p.room(),
    ensures
        sound(p, m, f, p.retry_resolve().0, p.retry_resolve().1),
        sound(p, m, f, p.load_pasted(f.address, f.pasted).0, p.load_pasted(f.address, f.pasted).1),
        sound(
            p,
            m,
            f,
            p.query(f.read_args_valid, f.read_data).0,
            p.query(f.read_args_valid, f.read_data).1,
        ),
        sound(p, m, f, p.simulate(f.wrap).0, p.simulate(f.wrap).1),
{
    reveal(sound);
}

proof fn lemma_reviewed(p: Pane, m: Message, f: Findings)
    requires
        p.room(),
    ensures
        sound(
            p,
            m,
            f,
            p.send_single(f.address, f.call, f.gate).0,
            p.send_single(f.address, f.call, f.gate).1,
        ),
        sound(
            p,
            m,
            f,
            p.review(f.wrap, f.gate, f.now).0,
            p.review(f.wrap, f.gate, f.now).1,
        ),
{
    reveal(sound);
}

proof fn lemma_stored(p: Pane, m: Message, f: Findings, list: Seq<TemplateModel>)
    requires
        p.room(),
    ensures
        sound(p, m, f, p, None),
        sound(p, m, f, p.save_template(f.template@).0, p.save_template(f.template@).1),
        sound(p, m, f, p.persisted(list).0, p.persisted(list).1),
        sound(p, m, f, p.commit_rename().0, p.commit_rename().1),
        sound(p, m, f, p.open_save(f.export@).0, p.open_save(f.export@).1),
{
    reveal(sound);
}

proof fn lemma_raw_to(p: Pane, m: Message, f: Findings, v: Seq<char>)
    requires
        p.room(),
    ensures
        sound(p, m, f, p.raw_to_changed(v, f.address).0, p.raw_to_changed(v, f.address).1),
{
    reveal(sound);
}

proof fn lemma_json(p: Pane, m: Message, f: Findings, v: Seq<char>, bytes: usize)
    requires
        p.room(),
    ensures
        sound(p, m, f, p.json_changed(v, bytes).0, p.json_changed(v, bytes).1),
{
    reveal(sound);
}

/// Every message takes a sound step.
proof fn lemma_sound(p: Pane, m: Message, f: Findings)
    requires
        p.room(),
    ensures
        sound(p, m, f, p.update(m, f).0, p.update(m, f).1),
{
    match m {
        Message::AddrChanged(v) => lemma_addressed(
            p,
            m,
            f,
            v@,
            vstd::utf8::encode_utf8(trimmed(v@)).len() as usize >= ADDRESS_TEXT_LEN,
            model_of(f.known),
        ),
        Message::RetryResolve | Message::LoadPastedAbi | Message::Query | Message::Simulate =>
            lemma_dispatched(p, m, f),
        Message::RawToChanged(v) => lemma_raw_to(p, m, f, v@),
        Message::SendSingle | Message::Review => lemma_reviewed(p, m, f),
        Message::DeleteTemplate(i) => lemma_stored(
            p,
            m,
            f,
            p.shelf.templates.remove(i as int),
        ),
        Message::SaveTemplate | Message::CommitRename | Message::OpenSave => lemma_stored(
            p,
            m,
            f,
            p.shelf.templates,
        ),
        Message::JsonChanged(v) => lemma_json(
            p,
            m,
            f,
            v@,
            vstd::utf8::encode_utf8(v@).len() as usize,
        ),
        Message::AddToBatch | Message::RemoveCall(_) | Message::MoveUp(_) | Message::MoveDown(_)
        | Message::ClearBatch | Message::LoadSample | Message::ToggleAutoRevoke(_)
        | Message::LoadTemplate(_) | Message::ImportJson => lemma_rearranged(p, m, f),
        Message::ShowAbiPaste | Message::AbiPasteChanged(_) | Message::ToggleMethodMenu
        | Message::PickMethod(_) | Message::ArgChanged(_, _) | Message::BoolArg(_, _)
        | Message::ValueChanged(_) => lemma_edited(p, m, f),
        Message::ToggleReadMethodMenu | Message::PickReadMethod(_) | Message::ReadArgChanged(_, _)
        | Message::ReadBoolArg(_, _) | Message::CopyReadRaw | Message::CopyReadValue(_)
        | Message::RawValueChanged(_) | Message::RawDataChanged(_) => lemma_asked(p, m, f),
        Message::OpenLoad | Message::CloseModal | Message::CopyJson | Message::CopySettledHash
        | Message::DismissSettled | Message::Escape | Message::DismissError => lemma_overlaid(
            p,
            m,
            f,
        ),
        _ => lemma_toggled(p, m, f),
    }
}

// ── answers that come too late ──────────────────────────────────────

/// An answer to anything but the latest request of its kind changes nothing.
pub proof fn stale_answers_change_nothing(
    p: Pane,
    seq: u64,
    code: Result<ResolvedCode, String>,
    found: Option<ContractModel>,
    address: Address,
    probed: Result<bool, String>,
    sim: Result<BatchSimResult, String>,
    read: Result<ReadReply, String>,
    now: u64,
)
    ensures
        seq != p.composer.resolve_seq ==> p.contract_resolved(seq, code, found) == p,
        seq != p.probe_seq ==> p.code_probed(seq, address, probed) == p,
        seq != p.sim.seq ==> p.sim_landed(seq, sim, now) == p,
        seq != p.reader.seq ==> p.read_landed(seq, read) == p,
{
}

/// Whatever changes the calls, their wrapping or the network drops the verdict,
/// and a simulation that was still running cannot land any more. So a present
/// verdict is about the queue as it stands.
pub proof fn a_verdict_is_about_the_current_queue(
    p: Pane,
    m: Message,
    f: Findings,
    late: Result<BatchSimResult, String>,
    now: u64,
)
    requires
        p.room(),
    ensures
        ({
            let q = p.update(m, f).0;
            sim_subject(q) != sim_subject(p) ==> {
                &&& q.sim.result is None
                &&& q.sim.at is None
                &&& !q.sim.busy
                &&& q.sim.seq > p.sim.seq
                &&& q.sim_landed(p.sim.seq, late, now) == q
            }
        }),
{
    reveal(sound);
    lemma_sound(p, m, f);
}

/// The same holds of a change of the acting account or of the network by the
/// coordinator's refresh.
pub proof fn a_refresh_keeps_the_verdict_honest(p: Pane, ctx: CtxModel, chain: Chain)
    requires
        p.room(),
        ctx.identity is Some,
    ensures
        ({
            let q = p.set_context(ctx, chain);
            sim_subject(q) != sim_subject(p) ==> q.sim.result is None && q.sim.at is None
                && !q.sim.busy && q.sim.seq > p.sim.seq
        }),
{
}

/// A query's answer is shown only against the network, the contract, the method
/// and the arguments it was asked with: whatever changes those retires it.
pub proof fn a_result_is_about_the_current_query(p: Pane, m: Message, f: Findings)
    requires
        p.room(),
    ensures
        ({
            let q = p.update(m, f).0;
            read_subject(q) != read_subject(p) ==> q.reader.result is None && !q.reader.busy
                && q.reader.seq > p.reader.seq
        }),
{
    reveal(sound);
    lemma_sound(p, m, f);
}

/// The same of the contract being resolved: a change of the target retires the
/// resolve in flight.
pub proof fn a_new_target_retires_the_old_resolve(p: Pane, m: Message, f: Findings)
    requires
        p.room(),
    ensures
        ({
            let q = p.update(m, f).0;
            q.composer.resolve_target != p.composer.resolve_target ==> q.composer.resolve_seq
                > p.composer.resolve_seq
        }),
{
    reveal(sound);
    lemma_sound(p, m, f);
}

/// A caution about a proxy belongs to the address it was met at: it does not
/// follow the user to another one.
pub proof fn proxy_cautions_stay_behind(p: Pane, m: Message, f: Findings)
    requires
        p.room(),
    ensures
        ({
            let q = p.update(m, f).0;
            q.composer.resolve_target != p.composer.resolve_target ==> !q.composer.proxy_unverified
                && !q.composer.proxy_beacon
        }),
{
    reveal(sound);
    lemma_sound(p, m, f);
}

/// The answer to a resolve does not move the target, whatever the code belongs
/// to: calls still go to the address asked about, and so does the contract on
/// screen.
pub proof fn the_address_asked_about_stays_the_target(
    p: Pane,
    seq: u64,
    result: Result<ResolvedCode, String>,
    found: Option<ContractModel>,
)
    requires
        p.on_target(),
    ensures
        ({
            let q = p.contract_resolved(seq, result, found);
            &&& q.composer.resolve_target == p.composer.resolve_target
            &&& q.composer.loaded matches Some(c) ==> q.composer.resolve_target == Some(c.address)
        }),
{
}

/// A contract recovered for an address that shows none keeps where its code
/// came from: behind a proxy, the implementation.
pub proof fn a_proxy_names_its_implementation(p: Pane, r: ResolvedCode, found: ContractModel)
    requires
        p.composer.resolve_target is Some,
        p.composer.loaded is None,
    ensures
        ({
            let target = p.composer.resolve_target->0;
            let q = p.contract_resolved(p.composer.resolve_seq, Ok(r), Some(found));
            q.composer.loaded matches Some(c) && c.address == target && c.source
                == AbiSource::Bytecode && c.proxy_impl == (if r.implementation == target {
                None
            } else {
                Some(r.implementation)
            })
        }),
{
}

/// A contract that is declared for a typed address, curated or pasted, is shown
/// at that address.
pub proof fn a_declared_contract_is_shown_where_it_was_asked_for(
    p: Pane,
    v: String,
    f: Findings,
    address: Address,
)
    requires
        f.address == Ok::<Address, String>(address),
    ensures
        ({
            let q = p.update(Message::AddrChanged(v), f).0;
            &&& q.composer.resolve_target == Some(address)
            &&& p.on_target() ==> q.on_target()
        }),
        f.pasted is Ok ==> (p.update(Message::LoadPastedAbi, f).0.composer.loaded matches Some(c)
            && c.address == address && c.source == AbiSource::Pasted),
{
}

// ── over a run of events ────────────────────────────────────────────

/// What can happen to the pane.
pub enum Event {
    /// A message, with what was found out for it.
    Sent(Message, Findings),
    /// The coordinator's refresh.
    Refreshed(CtxModel, Chain),
    /// The answer to a resolve, with what was recovered from the code.
    Resolved(u64, Result<ResolvedCode, String>, Option<ContractModel>),
    /// The answer to a code probe.
    Probed(u64, Address, Result<bool, String>),
    /// The answer to a simulation, and when it landed.
    Simulated(u64, Result<BatchSimResult, String>, u64),
    /// The answer to a query.
    Returned(u64, Result<ReadReply, String>),
    /// The batch was executed or proposed.
    Finished(Settled),
    /// The batch was broadcast and did not succeed.
    Unsuccessful(B256, BatchFate),
    /// A failure was put on the banner.
    Warned(Seq<char>),
    /// The saved templates were replaced.
    Stocked(Seq<TemplateModel>),
}

/// Whether the pane has room for an event.
pub open spec fn admits(p: Pane, e: Event) -> bool {
    match e {
        Event::Sent(_, _) | Event::Resolved(_, _, _) | Event::Finished(_) => p.room(),
        Event::Refreshed(ctx, _) => p.room() && ctx.identity is Some,
        _ => true,
    }
}

/// The pane after an event.
#[verifier::opaque]
pub open spec fn after(p: Pane, e: Event) -> Pane {
    match e {
        Event::Sent(m, f) => p.update(m, f).0,
        Event::Refreshed(ctx, chain) => p.set_context(ctx, chain),
        Event::Resolved(seq, result, found) => p.contract_resolved(seq, result, found),
        Event::Probed(seq, address, result) => p.code_probed(seq, address, result),
        Event::Simulated(seq, result, now) => p.sim_landed(seq, result, now),
        Event::Returned(seq, result) => p.read_landed(seq, result),
        Event::Finished(outcome) => p.finished(outcome),
        Event::Unsuccessful(hash, fate) => p.broadcast_unsuccessful(hash, fate),
        Event::Warned(error) => Pane { error: Some(error), ..p },
        Event::Stocked(templates) => Pane { shelf: ShelfModel { templates, ..p.shelf }, ..p },
    }
}

/// The pane after a run of events.
pub open spec fn after_all(p: Pane, run: Seq<Event>) -> Pane
    decreases run.len(),
{
    if run.len() == 0 {
        p
    } else {
        after(after_all(p, run.drop_last()), run.last())
    }
}

/// Whether the pane has room for every event of a run.
pub open spec fn admits_all(p: Pane, run: Seq<Event>) -> bool
    decreases run.len(),
{
    run.len() > 0 ==> admits_all(p, run.drop_last()) && admits(
        after_all(p, run.drop_last()),
        run.last(),
    )
}

/// Whether an event ends a resolve of `address`: another address or a text that
/// spells none, an ABI pasted and loaded, a retry, or a change of the network
/// or of the acting account.
#[verifier::opaque]
pub open spec fn ends_resolve(p: Pane, e: Event, address: Address) -> bool {
    ||| e matches Event::Sent(Message::AddrChanged(_), f) && f.address != Ok::<Address, String>(
        address,
    )
    ||| e matches Event::Sent(Message::LoadPastedAbi, f) && f.address is Ok && f.pasted is Ok
    ||| e matches Event::Sent(Message::RetryResolve, _)
    ||| after(p, e).net != p.net
    ||| p.ctx.identity is Some && after(p, e).ctx.identity != p.ctx.identity
}

/// One event: the counter of resolves never falls, it grows where the target or
/// the network changes, and it grows where a resolve ends.
proof fn lemma_event(p: Pane, e: Event, address: Address)
    requires
        admits(p, e),
    ensures
        after(p, e).composer.resolve_seq >= p.composer.resolve_seq,
        p.on_target() && after(p, e).composer.resolve_seq == p.composer.resolve_seq ==> {
            &&& after(p, e).composer.resolve_target == p.composer.resolve_target
            &&& after(p, e).net == p.net
        },
        p.on_target() ==> after(p, e).on_target(),
        p.composer.resolve_target == Some(address) && p.net is Builtin && ends_resolve(
            p,
            e,
            address,
        ) ==> after(p, e).composer.resolve_seq > p.composer.resolve_seq,
{
    reveal(after);
    reveal(ends_resolve);
    if let Event::Sent(m, f) = e {
        reveal(sound);
        lemma_sound(p, m, f);
    }
}

/// The contract on screen stands at the target after every run of events, so a
/// composed call goes to the address the resolve was asked for.
pub proof fn the_contract_on_screen_is_the_target(owner: Address, run: Seq<Event>)
    requires
        admits_all(Pane::fresh(owner), run),
    ensures
        after_all(Pane::fresh(owner), run).on_target(),
    decreases run.len(),
{
    if run.len() > 0 {
        the_contract_on_screen_is_the_target(owner, run.drop_last());
        lemma_event(after_all(Pane::fresh(owner), run.drop_last()), run.last(), owner);
    }
}

/// The counter of resolves over a run: while it stands, so do the target and
/// the network.
#[verifier::spinoff_prover]
proof fn lemma_run(p: Pane, run: Seq<Event>, address: Address)
    requires
        p.on_target(),
        p.composer.resolve_target == Some(address),
        p.net is Builtin,
        admits_all(p, run),
    ensures
        ({
            let q = after_all(p, run);
            &&& q.on_target()
            &&& q.composer.resolve_seq >= p.composer.resolve_seq
            &&& q.composer.resolve_seq == p.composer.resolve_seq ==> q.composer.resolve_target
                == Some(address) && q.net == p.net
        }),
    decreases run.len(),
{
    if run.len() > 0 {
        let before = run.drop_last();
        lemma_run(p, before, address);
        lemma_event(after_all(p, before), run.last(), address);
    }
}

/// The counter of resolves over a run: it grows where a resolve ends.
#[verifier::spinoff_prover]
proof fn lemma_run_ends(p: Pane, run: Seq<Event>, address: Address, i: int)
    requires
        p.on_target(),
        p.composer.resolve_target == Some(address),
        p.net is Builtin,
        admits_all(p, run),
        0 <= i < run.len(),
        ends_resolve(after_all(p, run.take(i)), run[i], address),
    ensures
        after_all(p, run).composer.resolve_seq > p.composer.resolve_seq,
    decreases run.len(),
{
    let before = run.drop_last();
    lemma_run(p, before, address);
    lemma_event(after_all(p, before), run.last(), address);
    if i < before.len() {
        assert(run.take(i) =~= before.take(i));
        lemma_run_ends(p, before, address, i);
    } else {
        assert(run.take(i) =~= before);
    }
}

/// Whatever happens after a resolve was asked for, its answer is taken only for
/// the address and the network it was asked for.
pub proof fn an_answer_is_taken_only_for_what_was_asked(
    start: Pane,
    m: Message,
    f: Findings,
    seq: u64,
    chain: Chain,
    address: Address,
    run: Seq<Event>,
    late: Result<ResolvedCode, String>,
    found: Option<ContractModel>,
)
    requires
        start.room(),
        start.on_target(),
        start.update(m, f).1 == Some(Effect::ResolveContract { seq, chain, address }),
        admits_all(start.update(m, f).0, run),
    ensures
        ({
            let q = after_all(start.update(m, f).0, run);
            &&& q.composer.resolve_seq >= seq
            &&& q.contract_resolved(seq, late, found) != q ==> q.composer.resolve_target == Some(
                address,
            ) && q.net == NetworkId::Builtin(chain)
        }),
{
    reveal(sound);
    lemma_sound(start, m, f);
    lemma_run(start.update(m, f).0, run, address);
}

/// Once another address, a text that spells none, a pasted ABI, a retry, a
/// network or an account came in between, the answer to an earlier resolve
/// changes nothing, whatever else happens.
pub proof fn an_ended_resolve_is_never_answered(
    start: Pane,
    m: Message,
    f: Findings,
    seq: u64,
    chain: Chain,
    address: Address,
    run: Seq<Event>,
    i: int,
    late: Result<ResolvedCode, String>,
    found: Option<ContractModel>,
)
    requires
        start.room(),
        start.on_target(),
        start.update(m, f).1 == Some(Effect::ResolveContract { seq, chain, address }),
        admits_all(start.update(m, f).0, run),
        0 <= i < run.len(),
        ends_resolve(after_all(start.update(m, f).0, run.take(i)), run[i], address),
    ensures
        ({
            let q = after_all(start.update(m, f).0, run);
            &&& q.composer.resolve_seq > seq
            &&& q.contract_resolved(seq, late, found) == q
        }),
{
    reveal(sound);
    lemma_sound(start, m, f);
    lemma_run_ends(start.update(m, f).0, run, address, i);
}

/// One event: the counters of simulations and of queries never fall, and grow
/// where what was asked about changes.
proof fn lemma_subjects(p: Pane, e: Event)
    requires
        admits(p, e),
    ensures
        after(p, e).sim.seq >= p.sim.seq,
        after(p, e).sim.seq == p.sim.seq ==> sim_subject(after(p, e)) == sim_subject(p),
        after(p, e).reader.seq >= p.reader.seq,
        after(p, e).reader.seq == p.reader.seq ==> read_subject(after(p, e)) == read_subject(p),
{
    reveal(after);
    if let Event::Sent(m, f) = e {
        reveal(sound);
        lemma_sound(p, m, f);
    }
}

/// The counters of simulations and of queries over a run.
proof fn lemma_subjects_run(p: Pane, run: Seq<Event>)
    requires
        admits_all(p, run),
    ensures
        ({
            let q = after_all(p, run);
            &&& q.sim.seq >= p.sim.seq
            &&& q.sim.seq == p.sim.seq ==> sim_subject(q) == sim_subject(p)
            &&& q.reader.seq >= p.reader.seq
            &&& q.reader.seq == p.reader.seq ==> read_subject(q) == read_subject(p)
        }),
    decreases run.len(),
{
    if run.len() > 0 {
        lemma_subjects_run(p, run.drop_last());
        lemma_subjects(after_all(p, run.drop_last()), run.last());
    }
}

/// Whatever happens after a simulation was asked for, its verdict is taken only
/// for the calls, the wrapping and the network it was asked for.
pub proof fn a_verdict_is_taken_only_for_what_was_asked(
    start: Pane,
    m: Message,
    f: Findings,
    run: Seq<Event>,
    late: Result<BatchSimResult, String>,
    now: u64,
)
    requires
        start.room(),
        start.update(m, f).1 matches Some(Effect::Simulate { .. }),
        admits_all(start.update(m, f).0, run),
    ensures
        ({
            let p = start.update(m, f).0;
            let q = after_all(p, run);
            start.update(m, f).1 matches Some(Effect::Simulate { seq, .. }) && (q.sim_landed(
                seq,
                late,
                now,
            ) != q ==> sim_subject(q) == sim_subject(p))
        }),
{
    reveal(sound);
    lemma_sound(start, m, f);
    lemma_subjects_run(start.update(m, f).0, run);
}

/// Whatever happens after a query was run, its answer is taken only for the
/// network, the contract, the method and the arguments it was run with.
pub proof fn a_result_is_taken_only_for_what_was_asked(
    start: Pane,
    m: Message,
    f: Findings,
    run: Seq<Event>,
    late: Result<ReadReply, String>,
)
    requires
        start.room(),
        start.update(m, f).1 matches Some(Effect::Read { .. }),
        admits_all(start.update(m, f).0, run),
    ensures
        ({
            let p = start.update(m, f).0;
            let q = after_all(p, run);
            start.update(m, f).1 matches Some(Effect::Read { seq, .. }) && (q.read_landed(
                seq,
                late,
            ) != q ==> read_subject(q) == read_subject(p))
        }),
{
    reveal(sound);
    lemma_sound(start, m, f);
    lemma_subjects_run(start.update(m, f).0, run);
}

// ── what a review carries ───────────────────────────────────────────

/// Nothing longer than one transaction carries is ever sent to the simulator or
/// to the review.
pub proof fn no_oversized_transaction(p: Pane, m: Message, f: Findings)
    requires
        p.room(),
    ensures
        match p.update(m, f).1 {
            Some(Effect::Review { calls, .. }) => calls.len() <= MAX_BATCH_CALLS,
            Some(Effect::Simulate { calls, .. }) => calls.len() <= MAX_BATCH_CALLS,
            _ => true,
        },
{
    reveal(sound);
    lemma_sound(p, m, f);
}

/// No review opens for an account or a Safe that nothing can be signed for.
pub proof fn no_review_without_a_signer(p: Pane, m: Message, f: Findings)
    requires
        p.room(),
    ensures
        p.update(m, f).1 is Some && p.update(m, f).1->0 is Review ==> p.no_signer_reason(f.gate)
            is None,
{
    reveal(sound);
    lemma_sound(p, m, f);
}

/// A refused review leaves everything as it was but the banner, which says why.
pub proof fn a_refused_review_says_why(p: Pane, f: Findings)
    requires
        p.queue.batch.len() > 0,
        p.no_signer_reason(f.gate) is Some,
    ensures
        p.update(Message::Review, f) == (
            Pane { error: p.no_signer_reason(f.gate), ..p },
            None::<Effect>,
        ),
{
}

/// A review carries the very simulation its verdict was derived from, and
/// opening it does not touch the pane.
pub proof fn a_review_carries_the_simulation_it_judges(p: Pane, f: Findings)
    ensures
        p.update(Message::Review, f).1 matches Some(
            Effect::Review { calls, preflight, sim, fee_caveats },
        ) ==> {
            &&& calls == p.effective_calls(f.wrap)
            &&& sim == p.sim.result
            &&& preflight == p.preflight(f.now, f.wrap.opens)
            &&& fee_caveats == p.fee_caveats(calls.len())
            &&& p.update(Message::Review, f).0 == p
        },
{
}

/// The allowance resets are never stored: simulating and reviewing leave the
/// queue as it is.
pub proof fn resets_are_never_queued(p: Pane, f: Findings)
    ensures
        p.update(Message::Simulate, f).0.queue == p.queue,
        p.update(Message::Review, f).0.queue == p.queue,
{
}

/// A watch-only account composes and simulates like any other.
pub proof fn a_missing_key_does_not_stop_a_simulation(p: Pane, w: FlashWrap, can_sign: bool)
    ensures
        ({
            let other = Pane { ctx: CtxModel { can_sign, ..p.ctx }, ..p };
            other.simulate(w).1 == p.simulate(w).1
        }),
{
}

/// The confirm button is softened exactly when the review has a warning to
/// show.
pub proof fn a_softened_confirm_has_a_warning(v: Verdict)
    ensures
        v.doubtful() == (v.warning() is Some),
{
}

// ── the queue ───────────────────────────────────────────────────────

/// The queue is no longer than one transaction carries.
pub open spec fn queue_fits(p: Pane) -> bool {
    p.queue.batch.len() <= MAX_BATCH_CALLS
}

/// However the queue is filled, it fits.
pub proof fn the_queue_always_fits(
    p: Pane,
    m: Message,
    f: Findings,
    ctx: CtxModel,
    chain: Chain,
    outcome: Settled,
)
    requires
        p.room(),
        queue_fits(p),
    ensures
        queue_fits(p.update(m, f).0),
        queue_fits(p.set_context(ctx, chain)),
        queue_fits(p.finished(outcome)),
        forall|owner: Address| queue_fits(#[trigger] Pane::fresh(owner)),
{
    reveal(sound);
    lemma_sound(p, m, f);
}

/// An account that sends one call at a time never holds more than one, by
/// whatever message the queue is filled. The sample batch is the one exception.
pub proof fn a_single_call_account_stays_at_one(p: Pane, m: Message, f: Findings)
    requires
        p.room(),
        !p.can_batch(),
        p.queue.batch.len() <= 1,
        !(m is LoadSample),
    ensures
        p.update(m, f).0.queue.batch.len() <= 1,
{
    reveal(sound);
    lemma_sound(p, m, f);
}

/// No two calls of the queue share an id, and the next id is free.
pub open spec fn ids_distinct(p: Pane) -> bool {
    &&& forall|i: int| 0 <= i < p.queue.batch.len() ==> (#[trigger] p.queue.batch[i]).id
        < p.queue.next_id
    &&& forall|i: int, j: int|
        0 <= i < j < p.queue.batch.len() ==> (#[trigger] p.queue.batch[i]).id != (
        #[trigger] p.queue.batch[j]).id
}

/// Calls numbered one after the other from `id`.
pub open spec fn numbered_from(calls: Seq<CallModel>, id: u64) -> bool {
    forall|i: int| 0 <= i < calls.len() ==> (#[trigger] calls[i]).id == id + i
}

/// Whether what was found numbers its calls as the pane asked.
pub open spec fn numbered(p: Pane, f: Findings) -> bool {
    &&& f.call matches Ok(c) ==> c@.id == p.queue.next_id
    &&& f.loaded_calls matches Ok(c) ==> numbered_from(models(c@), p.queue.next_id)
    &&& numbered_from(sample_calls(f.sample), p.queue.next_id)
}

/// Ids stay distinct as long as new calls carry the ids the pane asked for.
pub proof fn ids_stay_distinct(p: Pane, m: Message, f: Findings)
    requires
        p.room(),
        ids_distinct(p),
        numbered(p, f),
    ensures
        ids_distinct(p.update(m, f).0),
{
    reveal(sound);
    lemma_sound(p, m, f);
    match m {
        Message::AddToBatch => lemma_added_ids(p, f),
        Message::LoadSample => lemma_sampled_ids(p, f),
        Message::LoadTemplate(i) => lemma_template_ids(p, f, i),
        Message::ImportJson => lemma_imported_ids(p, f),
        Message::RemoveCall(id) => lemma_removed_ids(p, f, id),
        Message::MoveUp(id) => lemma_moved_ids(p, id, true),
        Message::MoveDown(id) => lemma_moved_ids(p, id, false),
        _ => {},
    }
}

proof fn lemma_added_ids(p: Pane, f: Findings)
    requires
        p.room(),
        ids_distinct(p),
        numbered(p, f),
    ensures
        ids_distinct(p.add_to_batch(f.address, f.call).0),
{
}

proof fn lemma_sampled_ids(p: Pane, f: Findings)
    requires
        p.room(),
        numbered(p, f),
    ensures
        ids_distinct(p.load_sample(f.sample)),
{
}

proof fn lemma_template_ids(p: Pane, f: Findings, i: usize)
    requires
        p.room(),
        ids_distinct(p),
        numbered(p, f),
    ensures
        ids_distinct(p.load_template(i, f.loaded_calls).0),
{
}

proof fn lemma_imported_ids(p: Pane, f: Findings)
    requires
        p.room(),
        ids_distinct(p),
        numbered(p, f),
    ensures
        ids_distinct(p.import_json(f.loaded_calls, f.composed_as).0),
{
}

proof fn lemma_removed_ids(p: Pane, f: Findings, id: u64)
    requires
        ids_distinct(p),
    ensures
        ids_distinct(p.with_batch(without_id(p.queue.batch, id)).invalidate_sim()),
{
    let s = p.queue.batch;
    let out = without_id(s, id);
    lemma_without_id(s, id);
    assert forall|i: int| 0 <= i < out.len() implies (#[trigger] out[i]).id < p.queue.next_id by {
        let k = choose|k: int| 0 <= k < s.len() && s[k] == out[i];
        assert(s[k].id < p.queue.next_id);
    }
    assert forall|i: int, j: int| 0 <= i < j < out.len() implies (#[trigger] out[i]).id != (
    #[trigger] out[j]).id by {
        let (k, l) = choose|k: int, l: int|
            0 <= k < l < s.len() && #[trigger] s[k] == out[i] && #[trigger] s[l] == out[j];
        assert(s[k].id != s[l].id);
    }
}

proof fn lemma_moved_ids(p: Pane, id: u64, up: bool)
    requires
        ids_distinct(p),
    ensures
        ids_distinct(p.move_call(id, up)),
{
    let s = p.queue.batch;
    lemma_position_bounds(s, id);
    let i = position_of(s, id);
    let j = if up {
        i - 1
    } else {
        i + 1
    };
    if i < s.len() && 0 <= j < s.len() {
        let t = swapped(s, i, j);
        assert forall|k: int| 0 <= k < t.len() implies (#[trigger] t[k]).id < p.queue.next_id by {
            assert(t[k] == s[if k == i { j } else if k == j { i } else { k }]);
        }
        assert forall|k: int, l: int| 0 <= k < l < t.len() implies (#[trigger] t[k]).id != (
        #[trigger] t[l]).id by {
            let a = if k == i { j } else if k == j { i } else { k };
            let b = if l == i { j } else if l == j { i } else { l };
            assert(t[k] == s[a] && t[l] == s[b]);
            if a < b {
                assert(s[a].id != s[b].id);
            } else {
                assert(s[b].id != s[a].id);
            }
        }
    }
}

/// What is left after taking an id out is no longer, and picks its calls in
/// order.
proof fn lemma_without_id(s: Seq<CallModel>, id: u64)
    ensures
        without_id(s, id).len() <= s.len(),
        forall|i: int|
            0 <= i < without_id(s, id).len() ==> exists|k: int|
                0 <= k < s.len() && s[k] == #[trigger] without_id(s, id)[i],
        forall|i: int, j: int|
            0 <= i < j < without_id(s, id).len() ==> exists|k: int, l: int|
                0 <= k < l < s.len() && #[trigger] s[k] == #[trigger] without_id(s, id)[i]
                    && #[trigger] s[l] == #[trigger] without_id(s, id)[j],
    decreases s.len(),
{
    reveal(Seq::filter);
    if s.len() > 0 {
        let init = s.drop_last();
        lemma_without_id(init, id);
        let out = without_id(s, id);
        let before = without_id(init, id);
        let n = s.len() - 1;
        assert(out == if s[n].id != id {
            before.push(s[n])
        } else {
            before
        });
        assert forall|i: int| 0 <= i < out.len() implies exists|k: int|
            0 <= k < s.len() && s[k] == #[trigger] out[i] by {
            if i < before.len() {
                let k = choose|k: int| 0 <= k < init.len() && init[k] == before[i];
                assert(s[k] == out[i]);
            } else {
                assert(s[n] == out[i]);
            }
        }
        assert forall|i: int, j: int| 0 <= i < j < out.len() implies exists|k: int, l: int|
            0 <= k < l < s.len() && #[trigger] s[k] == #[trigger] out[i] && #[trigger] s[l]
                == #[trigger] out[j] by {
            if j < before.len() {
                let (k, l) = choose|k: int, l: int|
                    0 <= k < l < init.len() && #[trigger] init[k] == before[i]
                        && #[trigger] init[l] == before[j];
                assert(s[k] == out[i] && s[l] == out[j]);
            } else {
                let k = choose|k: int| 0 <= k < init.len() && init[k] == before[i];
                assert(s[k] == out[i] && s[n] == out[j]);
            }
        }
    }
}

/// Where a call stands is within the queue or right behind it, and it is the
/// first of its id.
proof fn lemma_position_bounds(batch: Seq<CallModel>, id: u64)
    ensures
        0 <= position_of(batch, id) <= batch.len(),
        position_of(batch, id) < batch.len() ==> batch[position_of(batch, id)].id == id,
        forall|k: int| 0 <= k < position_of(batch, id) ==> (#[trigger] batch[k]).id != id,
    decreases batch.len(),
{
    if batch.len() > 0 && batch[0].id != id {
        lemma_position_bounds(batch.drop_first(), id);
        let rest = batch.drop_first();
        assert forall|k: int| 0 <= k < position_of(batch, id) implies (#[trigger] batch[k]).id
            != id by {
            if k > 0 {
                assert(batch[k] == rest[k - 1]);
            }
        }
    }
}

/// The first call of an id stands where it is found.
proof fn lemma_position_is(batch: Seq<CallModel>, id: u64, i: int)
    requires
        0 <= i < batch.len(),
        batch[i].id == id,
        forall|k: int| 0 <= k < i ==> (#[trigger] batch[k]).id != id,
    ensures
        position_of(batch, id) == i,
{
    lemma_position_bounds(batch, id);
}

/// Moving a call up and then down again puts the queue back in order.
pub proof fn moving_up_then_down_restores_the_queue(p: Pane, id: u64)
    requires
        0 < position_of(p.queue.batch, id) < p.queue.batch.len(),
    ensures
        p.move_call(id, true).move_call(id, false).queue == p.queue,
{
    let b = p.queue.batch;
    let i = position_of(b, id);
    lemma_position_bounds(b, id);
    let c = swapped(b, i, i - 1);
    assert forall|k: int| 0 <= k < i - 1 implies (#[trigger] c[k]).id != id by {
        assert(c[k] == b[k]);
    }
    lemma_position_is(c, id, i - 1);
    assert(swapped(c, i - 1, i) =~= b);
}

/// Moving a call down and then up again puts the queue back in order, when ids
/// are distinct.
pub proof fn moving_down_then_up_restores_the_queue(p: Pane, id: u64)
    requires
        ids_distinct(p),
        0 <= position_of(p.queue.batch, id) < p.queue.batch.len() - 1,
    ensures
        p.move_call(id, false).move_call(id, true).queue == p.queue,
{
    let b = p.queue.batch;
    let i = position_of(b, id);
    lemma_position_bounds(b, id);
    let c = swapped(b, i, i + 1);
    assert(b[i + 1].id != b[i].id);
    assert forall|k: int| 0 <= k < i + 1 implies (#[trigger] c[k]).id != id by {
        if k < i {
            assert(c[k] == b[k]);
        } else {
            assert(c[k] == b[i + 1]);
        }
    }
    lemma_position_is(c, id, i + 1);
    assert(swapped(c, i + 1, i) =~= b);
}

// ── changing account or network ─────────────────────────────────────

/// Switching the network drops the queue, and says so exactly when there was
/// something to drop. Nothing composed for the old network stays.
pub proof fn switching_network_drops_the_queue(p: Pane, net: NetworkId, f: Findings)
    requires
        net != p.net,
    ensures
        ({
            let q = p.update(Message::SetNetwork(net), f).0;
            &&& q.net == net
            &&& q.queue.batch.len() == 0
            &&& q.composer.loaded is None
            &&& q.composer.resolve_target is None
            &&& q.reader.result is None
            &&& q.error == (if p.queue.batch.len() > 0 {
                Some(network_notice(p.queue.batch.len(), p.net, net))
            } else {
                None
            })
        }),
{
}

/// A change of the acting account drops the queue, and the notice that names
/// both accounts stands even when the network is re-pinned in the same refresh.
pub proof fn switching_account_drops_the_queue(p: Pane, ctx: CtxModel, chain: Chain)
    requires
        ctx.identity is Some,
        p.ctx.identity is Some,
        p.ctx.identity != ctx.identity,
    ensures
        ({
            let q = p.set_context(ctx, chain);
            &&& q.owner == ctx.identity->0
            &&& q.queue.batch.len() == 0
            &&& q.composer.loaded is None
            &&& p.queue.batch.len() > 0 ==> q.error == Some(
                identity_notice(p.queue.batch.len(), p.ctx.identity->0, ctx.identity->0),
            )
            &&& p.queue.batch.len() == 0 ==> q.error is None
        }),
{
}

/// A refresh that changes neither the account nor the network keeps everything
/// but the context itself: a Safe on its own chain, or an account on a built-in
/// chain or on a custom network that is still enabled.
pub proof fn an_unchanged_refresh_keeps_the_pane(p: Pane, ctx: CtxModel, chain: Chain)
    requires
        ctx.identity is Some,
        p.ctx.identity is None || p.ctx.identity == ctx.identity,
        ctx.is_safe ==> p.net == NetworkId::Builtin(chain),
        !ctx.is_safe ==> (p.net matches NetworkId::Custom(id) ==> configured_name(
            ctx.custom_networks,
            id,
        ) is Some),
    ensures
        p.set_context(ctx, chain) == (Pane { ctx, owner: ctx.identity->0, ..p }),
{
}

/// A Safe's network is its own chain, whatever was selected before.
pub proof fn a_safe_pins_its_network(p: Pane, ctx: CtxModel, chain: Chain)
    requires
        ctx.is_safe,
        ctx.identity is Some,
    ensures
        p.set_context(ctx, chain).net == NetworkId::Builtin(chain),
{
}

/// No message changes who is acting.
pub proof fn messages_keep_the_account(p: Pane, m: Message, f: Findings)
    requires
        p.room(),
    ensures
        p.update(m, f).0.owner == p.owner,
        p.update(m, f).0.ctx == p.ctx,
{
    reveal(sound);
    lemma_sound(p, m, f);
}

// ── settled batches ─────────────────────────────────────────────────

/// A settled outcome is shown on the account and network it happened on, and
/// nowhere else.
pub proof fn a_settled_batch_shows_where_it_happened(p: Pane, outcome: Settled)
    ensures
        p.finished(outcome).visible_settled() == Some(outcome),
        p.finished(outcome).queue.batch.len() == 0,
        forall|q: Pane|
            q.settled == p.finished(outcome).settled && (q.owner != p.owner || q.net != p.net)
                ==> (#[trigger] q.visible_settled()) is None,
{
}

/// Refreshing, to another account and back, keeps the record.
pub proof fn a_refresh_keeps_the_record(p: Pane, ctx: CtxModel, chain: Chain)
    ensures
        p.set_context(ctx, chain).settled == p.settled,
{
}

/// Only dismissing drops the record.
pub proof fn only_dismissing_drops_the_record(p: Pane, m: Message, f: Findings)
    requires
        p.room(),
    ensures
        !(m is DismissSettled) ==> p.update(m, f).0.settled == p.settled,
{
    reveal(sound);
    lemma_sound(p, m, f);
}

/// A batch that reverted or was not seen to be mined stays in the composer with
/// its hash on record; only a decided failure is called one.
pub proof fn an_unsuccessful_batch_stays(p: Pane, hash: B256, fate: BatchFate)
    ensures
        ({
            let q = p.broadcast_unsuccessful(hash, fate);
            &&& q.queue == p.queue
            &&& q.sim == p.sim
            &&& q.visible_settled() is Some
            &&& q.visible_settled()->0.hash_of() == Some(hash)
            &&& (q.visible_settled()->0 is Reverted) == (fate is Reverted)
        }),
{
}

// ── resolving a contract ────────────────────────────────────────────

/// A fetch that failed says nothing about whether an ABI exists, and the same
/// address can be asked for again: by retyping it or by retrying.
pub proof fn a_failed_resolve_can_be_retried(
    p: Pane,
    e: String,
    found: Option<ContractModel>,
    f: Findings,
    v: String,
)
    requires
        p.room(),
        p.net is Builtin,
        p.composer.resolve_target is Some,
        p.composer.loaded is None,
        !p.composer.not_found,
        f.address == Ok::<Address, String>(p.composer.resolve_target->0),
    ensures
        ({
            let q = p.contract_resolved(p.composer.resolve_seq, Err(e), found);
            &&& !q.composer.not_found
            &&& q.composer.resolve_error == Some(e@)
            &&& q.update(Message::RetryResolve, f).1 matches Some(
                Effect::ResolveContract { seq, address, .. },
            ) && address == p.composer.resolve_target->0 && seq != p.composer.resolve_seq
            &&& q.update(Message::AddrChanged(v), f).1 matches Some(
                Effect::ResolveContract { seq, address, .. },
            ) && address == p.composer.resolve_target->0 && seq != p.composer.resolve_seq
        }),
{
}

/// Pasting an ABI says what an address exposes, not whether anything is there.
pub proof fn a_pasted_abi_keeps_the_empty_address_warning(p: Pane, f: Findings)
    ensures
        p.update(Message::LoadPastedAbi, f).0.composer.nothing_deployed
            == p.composer.nothing_deployed,
{
}

/// A probe that failed is not evidence of an empty account.
pub proof fn a_failed_probe_is_silent(p: Pane, seq: u64, address: Address, e: String)
    ensures
        p.code_probed(seq, address, Err(e)) == p,
{
}

/// Recovered methods fill in a declared contract without displacing anything:
/// the declared methods and queries keep their places and names, every recovered
/// selector is reachable, and what is added was recovered and is declared
/// nowhere.
pub proof fn recovered_methods_fill_in(declared: ContractModel, recovered: ContractModel)
    ensures
        ({
            let m = merged(declared, recovered);
            &&& m == (ContractModel { methods: m.methods, read_methods: m.read_methods, ..declared })
            &&& m.methods.take(declared.methods.len() as int) == declared.methods
            &&& m.read_methods.take(declared.read_methods.len() as int) == declared.read_methods
            &&& forall|i: int|
                0 <= i < recovered.methods.len() ==> reachable(
                    m,
                    (#[trigger] recovered.methods[i]).selector,
                )
            &&& forall|i: int|
                0 <= i < recovered.read_methods.len() ==> reachable(
                    m,
                    (#[trigger] recovered.read_methods[i]).selector,
                )
            &&& forall|i: int|
                declared.methods.len() <= i < m.methods.len() ==> recovered.methods.contains(
                    #[trigger] m.methods[i],
                ) && !reachable(declared, m.methods[i].selector)
            &&& forall|i: int|
                declared.read_methods.len() <= i < m.read_methods.len()
                    ==> recovered.read_methods.contains(#[trigger] m.read_methods[i])
                    && !reachable(declared, m.read_methods[i].selector)
        }),
{
    let m = merged(declared, recovered);
    lemma_filled_in(declared.methods, recovered.methods, declared);
    lemma_filled_in(declared.read_methods, recovered.read_methods, declared);
    assert forall|s: u32| #[trigger] reachable(declared, s) implies reachable(m, s) by {
        lemma_listed_before(declared.methods, unlisted(recovered.methods, declared), s);
        lemma_listed_before(declared.read_methods, unlisted(recovered.read_methods, declared), s);
    }
    assert forall|i: int| 0 <= i < recovered.methods.len() implies reachable(
        m,
        (#[trigger] recovered.methods[i]).selector,
    ) by {
        assert(reachable(declared, recovered.methods[i].selector) || lists_selector(
            m.methods,
            recovered.methods[i].selector,
        ));
    }
    assert forall|i: int| 0 <= i < recovered.read_methods.len() implies reachable(
        m,
        (#[trigger] recovered.read_methods[i]).selector,
    ) by {
        assert(reachable(declared, recovered.read_methods[i].selector) || lists_selector(
            m.read_methods,
            recovered.read_methods[i].selector,
        ));
    }
}

/// Whether a contract has a method or a query of this selector.
pub open spec fn reachable(c: ContractModel, selector: u32) -> bool {
    lists_selector(c.methods, selector) || lists_selector(c.read_methods, selector)
}

/// A longer list still lists what it began with.
proof fn lemma_listed_before(list: Seq<MethodModel>, more: Seq<MethodModel>, selector: u32)
    ensures
        lists_selector(list, selector) ==> lists_selector(list + more, selector),
{
    if lists_selector(list, selector) {
        let k = choose|k: int|
            0 <= k < list.len() && (#[trigger] list[k]).selector == selector;
        assert((list + more)[k].selector == selector);
    }
}

/// One list of a contract, filled in.
proof fn lemma_filled_in(list: Seq<MethodModel>, found: Seq<MethodModel>, known: ContractModel)
    ensures
        ({
            let whole = list + unlisted(found, known);
            &&& whole.take(list.len() as int) == list
            &&& forall|i: int|
                0 <= i < found.len() ==> reachable(known, (#[trigger] found[i]).selector)
                    || lists_selector(whole, found[i].selector)
            &&& forall|i: int|
                list.len() <= i < whole.len() ==> found.contains(#[trigger] whole[i])
                    && !reachable(known, whole[i].selector)
        }),
{
    let extra = unlisted(found, known);
    let whole = list + extra;
    lemma_unlisted(found, known);
    assert(whole.take(list.len() as int) =~= list);
    assert forall|i: int| 0 <= i < found.len() implies reachable(
        known,
        (#[trigger] found[i]).selector,
    ) || lists_selector(whole, found[i].selector) by {
        if !reachable(known, found[i].selector) {
            let k = choose|k: int|
                0 <= k < extra.len() && (#[trigger] extra[k]).selector == found[i].selector;
            assert(whole[list.len() + k].selector == found[i].selector);
        }
    }
    assert forall|i: int| list.len() <= i < whole.len() implies found.contains(
        #[trigger] whole[i],
    ) && !reachable(known, whole[i].selector) by {
        assert(whole[i] == extra[i - list.len()]);
    }
}

/// What is added is what was not listed, all of it.
proof fn lemma_unlisted(found: Seq<MethodModel>, known: ContractModel)
    ensures
        forall|i: int|
            0 <= i < unlisted(found, known).len() ==> found.contains(
                #[trigger] unlisted(found, known)[i],
            ) && !reachable(known, unlisted(found, known)[i].selector),
        forall|i: int|
            0 <= i < found.len() && !reachable(known, (#[trigger] found[i]).selector)
                ==> lists_selector(unlisted(found, known), found[i].selector),
    decreases found.len(),
{
    if found.len() > 0 {
        let init = found.drop_last();
        lemma_unlisted(init, known);
        let before = unlisted(init, known);
        let after = unlisted(found, known);
        assert forall|i: int| 0 <= i < after.len() implies found.contains(#[trigger] after[i])
            && !reachable(known, after[i].selector) by {
            if i < before.len() {
                assert(after[i] == before[i]);
                let k = choose|k: int| 0 <= k < init.len() && init[k] == before[i];
                assert(found[k] == after[i]);
            } else {
                assert(found[found.len() - 1] == after[i]);
            }
        }
        assert forall|i: int|
            0 <= i < found.len() && !reachable(
                known,
                (#[trigger] found[i]).selector,
            ) implies lists_selector(after, found[i].selector) by {
            if i < init.len() {
                assert(init[i] == found[i]);
                let k = choose|k: int|
                    0 <= k < before.len() && (#[trigger] before[k]).selector == found[i].selector;
                assert(after[k] == before[k]);
            } else {
                assert(after[after.len() - 1].selector == found[i].selector);
            }
        }
    }
}

/// Data that does not decode shows no values, and neither do words that are not
/// one for each value.
pub proof fn data_that_does_not_decode_shows_no_values(p: Pane, r: ReadReply)
    requires
        p.returned_values(r.bytes@) is None || r.values is None || r.values->0@.len()
            != p.returned_values(r.bytes@)->0.len(),
    ensures
        p.read_landed(p.reader.seq, Ok(r)).reader.result == Some(
            ReadModel::Returned { rows: seq![], raw: raw_hex(r.bytes@), verified: r.verified },
        ),
{
}

// ── overlays and templates ──────────────────────────────────────────

/// Esc closes an open overlay and is consumed by it; otherwise it steps back.
pub proof fn escape_belongs_to_the_overlay(p: Pane, f: Findings)
    ensures
        ({
            let (q, effect) = p.update(Message::Escape, f);
            if p.json.modal == Modal::Closed {
                q == p && effect == Some(Effect::Close)
            } else {
                q.json.modal == Modal::Closed && q.json.text.len() == 0 && effect is None
            }
        }),
{
}

/// Storing templates always carries the list as it is now and as it was before
/// the change.
pub proof fn storing_templates_can_be_undone(p: Pane, m: Message, f: Findings)
    requires
        p.room(),
    ensures
        p.update(m, f).1 matches Some(Effect::PersistTemplates { list, rollback }) ==> list
            == p.update(m, f).0.shelf.templates && rollback == p.shelf.templates,
        p.update(m, f).0.shelf.templates != p.shelf.templates ==> p.update(m, f).1 is Some && p.update(
        m, f).1->0 is PersistTemplates,
{
    reveal(sound);
    lemma_sound(p, m, f);
}

} // verus!

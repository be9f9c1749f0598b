//! What each message of the composer does to the pane, and what it leaves alone.

use vstd::prelude::*;

use crate::text::dec;
use crate::text::models;
use crate::tx_builder::laws::lemma_position_bounds;
use crate::tx_builder::laws::lemma_position_is;
use crate::tx_builder::laws::verdict::wraps;
use crate::tx_builder::model::method_named;
use crate::tx_builder::model::ComposerModel;
use crate::tx_builder::model::Pane;
use crate::tx_builder::model::QueueModel;
use crate::tx_builder::model::RawModel;
use crate::tx_builder::model::ReaderModel;
use crate::tx_builder::model::ShelfModel;
use crate::tx_builder::Effect;
use crate::tx_builder::Findings;
use crate::tx_builder::Message;
use crate::tx_builder::Mode;
use crate::tx_builder::ReadModel;
use crate::tx_builder::Verdict;
use crate::txbuilder::CallModel;
use crate::txbuilder::MethodModel;

verus! {

// ── arguments ───────────────────────────────────────────────────────

/// Whether two lists differ at one place only.
pub open spec fn differ_only_at(a: Seq<Seq<char>>, b: Seq<Seq<char>>, i: int) -> bool {
    &&& a.len() == b.len()
    &&& forall|j: int| 0 <= j < a.len() && j != i ==> #[trigger] a[j] == b[j]
}

/// Pressing one half of a toggle writes what that half says, "true" or "false",
/// into that argument and changes nothing else.
pub proof fn a_toggle_writes_the_half_pressed(p: Pane, i: usize, b: bool, f: Findings)
    ensures
        ({
            let (q, e) = p.update(Message::BoolArg(i, b), f);
            &&& e is None
            &&& i < p.composer.args.len() ==> {
                &&& b ==> q.composer.args[i as int] == "true"@
                &&& !b ==> q.composer.args[i as int] == "false"@
                &&& differ_only_at(p.composer.args, q.composer.args, i as int)
                &&& q == (Pane {
                    composer: ComposerModel { args: q.composer.args, ..p.composer },
                    ..p
                })
            }
            &&& i >= p.composer.args.len() ==> q == p
        }),
{
}

/// The two halves of a toggle never write the same.
pub proof fn the_halves_of_a_toggle_differ(p: Pane, i: usize, f: Findings)
    requires
        i < p.composer.args.len(),
    ensures
        p.update(Message::BoolArg(i, true), f).0 != p.update(Message::BoolArg(i, false), f).0,
        p.update(Message::BoolArg(i, true), f).0.composer.args[i as int] != p.update(
            Message::BoolArg(i, false),
            f,
        ).0.composer.args[i as int],
{
    reveal_strlit("true");
    reveal_strlit("false");
    assert("true"@.len() == 4);
    assert("false"@.len() == 5);
    a_toggle_writes_the_half_pressed(p, i, true, f);
    a_toggle_writes_the_half_pressed(p, i, false, f);
}

/// Typing an argument sets that argument to the text and changes nothing else.
pub proof fn typing_sets_that_argument(p: Pane, i: usize, v: String, f: Findings)
    ensures
        ({
            let (q, e) = p.update(Message::ArgChanged(i, v), f);
            &&& e is None
            &&& i < p.composer.args.len() ==> {
                &&& q.composer.args[i as int] == v@
                &&& differ_only_at(p.composer.args, q.composer.args, i as int)
                &&& q == (Pane {
                    composer: ComposerModel { args: q.composer.args, ..p.composer },
                    ..p
                })
            }
            &&& i >= p.composer.args.len() ==> q == p
        }),
{
}

/// The same of a query's arguments; besides, whatever the query returned before is
/// retired.
pub proof fn a_query_toggle_writes_the_half_pressed(p: Pane, i: usize, b: bool, f: Findings)
    requires
        p.reader.seq < u64::MAX,
    ensures
        ({
            let (q, e) = p.update(Message::ReadBoolArg(i, b), f);
            &&& e is None
            &&& q == (Pane { reader: q.reader, ..p })
            &&& q.reader.result is None && !q.reader.busy && q.reader.seq == p.reader.seq + 1
            &&& q.reader.idx == p.reader.idx && q.reader.menu_open == p.reader.menu_open
            &&& i < p.reader.args.len() ==> {
                &&& b ==> q.reader.args[i as int] == "true"@
                &&& !b ==> q.reader.args[i as int] == "false"@
                &&& differ_only_at(p.reader.args, q.reader.args, i as int)
            }
            &&& i >= p.reader.args.len() ==> q.reader.args == p.reader.args
        }),
{
}

/// Typing a query's argument sets that one, and retires what was returned.
pub proof fn typing_sets_that_query_argument(p: Pane, i: usize, v: String, f: Findings)
    requires
        p.reader.seq < u64::MAX,
    ensures
        ({
            let (q, e) = p.update(Message::ReadArgChanged(i, v), f);
            &&& e is None
            &&& q == (Pane { reader: q.reader, ..p })
            &&& q.reader.result is None && !q.reader.busy && q.reader.seq == p.reader.seq + 1
            &&& q.reader.idx == p.reader.idx && q.reader.menu_open == p.reader.menu_open
            &&& i < p.reader.args.len() ==> q.reader.args[i as int] == v@ && differ_only_at(
                p.reader.args,
                q.reader.args,
                i as int,
            )
            &&& i >= p.reader.args.len() ==> q.reader.args == p.reader.args
        }),
{
}

/// Each box takes the text typed into it, and no other box changes.
pub proof fn typing_fills_that_box(p: Pane, v: String, f: Findings)
    ensures
        p.update(Message::ValueChanged(v), f) == (
            Pane { composer: ComposerModel { value_input: v@, ..p.composer }, ..p },
            None::<Effect>,
        ),
        p.update(Message::AbiPasteChanged(v), f) == (
            Pane { composer: ComposerModel { abi_paste: v@, ..p.composer }, ..p },
            None::<Effect>,
        ),
        p.update(Message::RawValueChanged(v), f) == (
            Pane { raw: RawModel { value: v@, ..p.raw }, ..p },
            None::<Effect>,
        ),
        p.update(Message::RawDataChanged(v), f) == (
            Pane { raw: RawModel { data: v@, ..p.raw }, ..p },
            None::<Effect>,
        ),
        p.update(Message::RenameChanged(v), f) == (
            Pane { shelf: ShelfModel { rename_buf: v@, ..p.shelf }, ..p },
            None::<Effect>,
        ),
{
}

/// Picking a method selects it, closes the menu, and leaves one empty box for each
/// of its parameters and a value of nought.
pub proof fn picking_a_method_empties_its_boxes(p: Pane, i: usize, f: Findings)
    ensures
        ({
            let (q, e) = p.update(Message::PickMethod(i), f);
            &&& e is None
            &&& q == (Pane {
                composer: ComposerModel {
                    method_idx: i,
                    method_menu_open: false,
                    args: q.composer.args,
                    value_input: "0"@,
                    ..p.composer
                },
                ..p
            })
            &&& p.composer.loaded matches Some(c) ==> i < c.methods.len() ==> q.composer.args.len()
                == c.methods[i as int].inputs.len()
            &&& p.composer.loaded is None || i >= p.composer.loaded->0.methods.len()
                ==> q.composer.args.len() == 0
            &&& forall|j: int|
                0 <= j < q.composer.args.len() ==> (#[trigger] q.composer.args[j]).len() == 0
        }),
{
}

/// The same of a query; what the last one returned is retired.
pub proof fn picking_a_query_empties_its_boxes(p: Pane, i: usize, f: Findings)
    requires
        p.reader.seq < u64::MAX,
    ensures
        ({
            let (q, e) = p.update(Message::PickReadMethod(i), f);
            &&& e is None
            &&& q == (Pane { reader: q.reader, ..p })
            &&& q.reader.idx == i && !q.reader.menu_open && !q.reader.busy && q.reader.result
                is None && q.reader.seq == p.reader.seq + 1
            &&& p.composer.loaded matches Some(c) ==> i < c.read_methods.len()
                ==> q.reader.args.len() == c.read_methods[i as int].inputs.len()
            &&& p.composer.loaded is None || i >= p.composer.loaded->0.read_methods.len()
                ==> q.reader.args.len() == 0
            &&& forall|j: int|
                0 <= j < q.reader.args.len() ==> (#[trigger] q.reader.args[j]).len() == 0
        }),
{
}

// ── menus ───────────────────────────────────────────────────────────

/// A menu opens when it is closed and closes when it is open.
pub proof fn menus_open_and_close(p: Pane, f: Findings)
    ensures
        p.update(Message::ToggleMethodMenu, f) == (
            Pane {
                composer: ComposerModel {
                    method_menu_open: !p.composer.method_menu_open,
                    ..p.composer
                },
                ..p
            },
            None::<Effect>,
        ),
        p.update(Message::ToggleReadMethodMenu, f) == (
            Pane { reader: ReaderModel { menu_open: !p.reader.menu_open, ..p.reader }, ..p },
            None::<Effect>,
        ),
        p.update(Message::ShowAbiPaste, f) == (
            Pane { composer: ComposerModel { paste_open: true, ..p.composer }, ..p },
            None::<Effect>,
        ),
        p.ctx.is_safe ==> p.update(Message::ToggleNetworkMenu, f) == (p, None::<Effect>),
        !p.ctx.is_safe ==> p.update(Message::ToggleNetworkMenu, f) == (
            Pane {
                net_menu_open: !p.net_menu_open,
                shelf: ShelfModel { menu_open: false, ..p.shelf },
                ..p
            },
            None::<Effect>,
        ),
        p.update(Message::ToggleTemplateMenu, f) == (
            Pane {
                net_menu_open: false,
                shelf: ShelfModel {
                    menu_open: !p.shelf.menu_open,
                    rename_idx: None,
                    rename_buf: seq![],
                    ..p.shelf
                },
                ..p
            },
            None::<Effect>,
        ),
{
}

/// A tab shows its own mode, closes the menus and clears the banner; what was
/// composed in the other modes stays.
pub proof fn a_tab_shows_its_mode(p: Pane, mode: Mode, f: Findings)
    ensures
        ({
            let (q, e) = p.update(Message::SetMode(mode), f);
            &&& e is None
            &&& q.mode == mode
            &&& q.error is None
            &&& !q.composer.method_menu_open && !q.reader.menu_open
            &&& q.composer.args == p.composer.args && q.composer.loaded == p.composer.loaded
                && q.composer.method_idx == p.composer.method_idx && q.composer.value_input
                == p.composer.value_input && q.composer.addr_input == p.composer.addr_input
            &&& q.reader.args == p.reader.args && q.reader.idx == p.reader.idx && q.reader.result
                == p.reader.result && q.reader.seq == p.reader.seq
            &&& q.raw == p.raw && q.queue == p.queue && q.sim == p.sim && q.shelf == p.shelf
            &&& q.net == p.net && q.json == p.json && q.settled == p.settled
        }),
{
}

/// Expanding a call shows that one and folds any other; pressing again folds it.
pub proof fn one_call_is_expanded_at_a_time(p: Pane, id: u64, f: Findings)
    ensures
        ({
            let (q, e) = p.update(Message::ToggleExpand(id), f);
            &&& e is None
            &&& p.queue.expanded == Some(id) ==> q.queue.expanded is None
            &&& p.queue.expanded != Some(id) ==> q.queue.expanded == Some(id)
            &&& q == (Pane {
                queue: QueueModel { expanded: q.queue.expanded, ..p.queue },
                ..p
            })
        }),
{
}

/// Picking the network that is active closes the menu and keeps everything.
pub proof fn picking_the_active_network_keeps_everything(p: Pane, f: Findings)
    ensures
        p.update(Message::SetNetwork(p.net), f) == (
            Pane { net_menu_open: false, ..p },
            None::<Effect>,
        ),
{
}

// ── the queue ───────────────────────────────────────────────────────

/// Whether the composer offers a call: a method is selected, or the raw target is
/// an address; and the call could be built.
pub open spec fn offers_call(p: Pane, f: Findings) -> bool {
    &&& f.call is Ok
    &&& p.mode is Write || p.mode is Raw
    &&& p.mode is Write ==> (p.composer.loaded matches Some(c) && p.composer.method_idx
        < c.methods.len())
    &&& p.mode is Raw ==> f.address is Ok
}

/// Adding a call puts exactly that call at the end of the queue and leaves the
/// calls before it as they were. It is done exactly when the account may queue
/// another, the queue has room and the composer offers a call; otherwise the queue
/// stays and the banner says why.
pub proof fn adding_appends_the_composed_call(p: Pane, f: Findings)
    requires
        p.queue.next_id < u64::MAX,
        p.sim.seq < u64::MAX,
    ensures
        ({
            let (q, e) = p.update(Message::AddToBatch, f);
            let may = p.ctx.is_safe || p.ctx.eoa_can_batch || p.queue.batch.len() == 0;
            let adds = may && p.queue.batch.len() < 64 && offers_call(p, f);
            &&& e is None
            &&& adds ==> {
                &&& q.queue.batch.len() == p.queue.batch.len() + 1
                &&& q.queue.batch.last() == f.call->Ok_0@
                &&& forall|k: int|
                    0 <= k < p.queue.batch.len() ==> #[trigger] q.queue.batch[k] == p.queue.batch[k]
                &&& q.queue.next_id == p.queue.next_id + 1
                &&& q.error is None
                &&& q.sim.result is None && q.sim.at is None && !q.sim.busy && q.sim.seq
                    == p.sim.seq + 1
                &&& q == (Pane {
                    queue: QueueModel {
                        batch: q.queue.batch,
                        next_id: q.queue.next_id,
                        ..p.queue
                    },
                    sim: q.sim,
                    error: None,
                    composer: q.composer,
                    raw: q.raw,
                    ..p
                })
                &&& p.mode is Raw ==> q.composer == p.composer && q.raw == (RawModel {
                    data: seq![],
                    ..p.raw
                })
                &&& p.mode is Write ==> q.raw == p.raw && q.composer == (ComposerModel {
                    args: q.composer.args,
                    value_input: "0"@,
                    ..p.composer
                })
                &&& p.mode is Write ==> forall|j: int|
                    0 <= j < q.composer.args.len() ==> (#[trigger] q.composer.args[j]).len() == 0
            }
            &&& !adds ==> q.error is Some && q == (Pane { error: q.error, ..p })
        }),
{
}

/// Why a call is not added: the account sends one at a time, the queue is full, no
/// method is selected, the target is no address, or the call could not be built.
pub proof fn a_call_that_is_not_added_says_why(p: Pane, f: Findings)
    ensures
        ({
            let q = p.update(Message::AddToBatch, f).0;
            let single = !p.ctx.is_safe && !p.ctx.eoa_can_batch && p.queue.batch.len() > 0;
            let full = p.queue.batch.len() >= 64;
            &&& single ==> q.error == Some(
                "This account sends one call at a time — atomic batching needs a software key or a Ledger (EIP-7702), or a Safe."@,
            )
            &&& !single && full ==> q.error == Some(
                "This batch already has "@ + dec(64)
                    + " calls — as many as one transaction carries and still gets read before it is signed. Send this batch, then start the next one."@,
            )
            &&& !single && !full && p.mode is Read ==> q.error == Some(
                "read methods are not sent"@,
            )
            &&& !single && !full && p.mode is Write && (p.composer.loaded is None
                || p.composer.method_idx >= p.composer.loaded->0.methods.len()) ==> q.error
                == Some("no method selected"@)
            &&& !single && !full && p.mode is Raw ==> (f.address matches Err(why) ==> q.error
                == Some(why@))
            &&& !single && !full && p.mode is Write && p.composer.loaded is Some
                && p.composer.method_idx < p.composer.loaded->0.methods.len() ==> (
            f.call matches Err(why) ==> q.error == Some(why@))
            &&& !single && !full && p.mode is Raw && f.address is Ok ==> (f.call matches Err(why)
                ==> q.error == Some(why@))
        }),
{
}

/// A single call is reviewed on its own: it alone, without a simulation behind it,
/// where somebody can sign and the composer offers one. The queue stays.
pub proof fn a_single_call_is_reviewed_alone(p: Pane, f: Findings)
    ensures
        ({
            let (q, e) = p.update(Message::SendSingle, f);
            let sends = p.no_signer_reason(f.gate) is None && offers_call(p, f);
            &&& sends ==> q == (Pane { error: None, ..p }) && (e matches Some(
                Effect::Review { calls, preflight, sim, fee_caveats },
            ) && calls.len() == 1 && calls[0] == f.call->Ok_0@ && preflight == Verdict::Unsupported
                && sim is None && fee_caveats.len() == 0)
            &&& !sends ==> e is None && q.error is Some && q == (Pane { error: q.error, ..p })
            &&& p.no_signer_reason(f.gate) matches Some(why) ==> q.error == Some(why)
        }),
{
}

/// Removing takes out the call of that id, and only that one: the calls before it
/// and behind it stay in order.
pub proof fn removing_takes_out_that_call(p: Pane, i: int, f: Findings)
    requires
        0 <= i < p.queue.batch.len(),
        forall|k: int|
            0 <= k < p.queue.batch.len() && k != i ==> (#[trigger] p.queue.batch[k]).id
                != p.queue.batch[i].id,
        p.sim.seq < u64::MAX,
    ensures
        ({
            let (q, e) = p.update(Message::RemoveCall(p.queue.batch[i].id), f);
            &&& e is None
            &&& q.queue.batch.len() == p.queue.batch.len() - 1
            &&& forall|k: int| 0 <= k < i ==> #[trigger] q.queue.batch[k] == p.queue.batch[k]
            &&& forall|k: int|
                i <= k < q.queue.batch.len() ==> #[trigger] q.queue.batch[k] == p.queue.batch[k + 1]
            &&& q.sim.result is None && q.sim.at is None && !q.sim.busy && q.sim.seq == p.sim.seq
                + 1
            &&& q == (Pane {
                queue: QueueModel { batch: q.queue.batch, ..p.queue },
                sim: q.sim,
                ..p
            })
        }),
{
    lemma_filter_one(p.queue.batch, i);
}

/// An id that is not queued takes out nothing.
pub proof fn removing_an_unknown_call_takes_out_nothing(p: Pane, id: u64, f: Findings)
    requires
        forall|k: int| 0 <= k < p.queue.batch.len() ==> (#[trigger] p.queue.batch[k]).id != id,
    ensures
        p.update(Message::RemoveCall(id), f).0.queue == p.queue,
{
    lemma_filter_none(p.queue.batch, id);
}

proof fn lemma_filter_none(s: Seq<CallModel>, id: u64)
    requires
        forall|k: int| 0 <= k < s.len() ==> (#[trigger] s[k]).id != id,
    ensures
        s.filter(|c: CallModel| c.id != id) == s,
    decreases s.len(),
{
    reveal(Seq::filter);
    let keep = |c: CallModel| c.id != id;
    if s.len() > 0 {
        let init = s.drop_last();
        assert forall|k: int| 0 <= k < init.len() implies (#[trigger] init[k]).id != id by {
            assert(init[k] == s[k]);
        }
        lemma_filter_none(init, id);
        assert(s[s.len() - 1].id != id);
        assert(s.filter(keep) =~= init.filter(keep).push(s.last()));
        assert(init.push(s.last()) =~= s);
    } else {
        assert(s.filter(keep) =~= s);
    }
}

proof fn lemma_filter_one(s: Seq<CallModel>, i: int)
    requires
        0 <= i < s.len(),
        forall|k: int| 0 <= k < s.len() && k != i ==> (#[trigger] s[k]).id != s[i].id,
    ensures
        s.filter(|c: CallModel| c.id != s[i].id) == s.remove(i),
    decreases s.len(),
{
    reveal(Seq::filter);
    let id = s[i].id;
    let keep = |c: CallModel| c.id != id;
    let init = s.drop_last();
    if i == s.len() - 1 {
        assert forall|k: int| 0 <= k < init.len() implies (#[trigger] init[k]).id != id by {
            assert(init[k] == s[k]);
        }
        lemma_filter_none(init, id);
        assert(s.filter(keep) =~= init);
        assert(s.remove(i) =~= init);
    } else {
        assert forall|k: int| 0 <= k < init.len() && k != i implies (#[trigger] init[k]).id
            != init[i].id by {
            assert(init[k] == s[k]);
        }
        lemma_filter_one(init, i);
        assert(s[s.len() - 1].id != id);
        assert(s.filter(keep) =~= init.filter(keep).push(s.last()));
        assert(s.remove(i) =~= init.remove(i).push(s.last()));
    }
}

/// Moving a call up swaps it with the one before it, and moving it down with the
/// one behind it; every other call stays, and at the end of the queue nothing
/// happens.
pub proof fn moving_swaps_neighbours(p: Pane, i: int, f: Findings)
    requires
        0 <= i < p.queue.batch.len(),
        forall|k: int| 0 <= k < i ==> (#[trigger] p.queue.batch[k]).id != p.queue.batch[i].id,
        p.sim.seq < u64::MAX,
    ensures
        ({
            let b = p.queue.batch;
            let (q, e) = p.update(Message::MoveUp(b[i].id), f);
            &&& e is None
            &&& i == 0 ==> q == p
            &&& i > 0 ==> {
                &&& q.queue.batch.len() == b.len()
                &&& q.queue.batch[i - 1] == b[i]
                &&& q.queue.batch[i] == b[i - 1]
                &&& forall|k: int|
                    0 <= k < b.len() && k != i && k != i - 1 ==> #[trigger] q.queue.batch[k] == b[k]
                &&& q.sim.result is None && q.sim.at is None && !q.sim.busy && q.sim.seq
                    == p.sim.seq + 1
                &&& q == (Pane {
                    queue: QueueModel { batch: q.queue.batch, ..p.queue },
                    sim: q.sim,
                    ..p
                })
            }
        }),
        ({
            let b = p.queue.batch;
            let (q, e) = p.update(Message::MoveDown(b[i].id), f);
            &&& e is None
            &&& i == b.len() - 1 ==> q == p
            &&& i < b.len() - 1 ==> {
                &&& q.queue.batch.len() == b.len()
                &&& q.queue.batch[i + 1] == b[i]
                &&& q.queue.batch[i] == b[i + 1]
                &&& forall|k: int|
                    0 <= k < b.len() && k != i && k != i + 1 ==> #[trigger] q.queue.batch[k] == b[k]
                &&& q.sim.result is None && q.sim.at is None && !q.sim.busy && q.sim.seq
                    == p.sim.seq + 1
                &&& q == (Pane {
                    queue: QueueModel { batch: q.queue.batch, ..p.queue },
                    sim: q.sim,
                    ..p
                })
            }
        }),
{
    lemma_position_is(p.queue.batch, p.queue.batch[i].id, i);
}

/// An id that is not queued moves nothing.
pub proof fn moving_an_unknown_call_moves_nothing(p: Pane, id: u64, f: Findings)
    requires
        forall|k: int| 0 <= k < p.queue.batch.len() ==> (#[trigger] p.queue.batch[k]).id != id,
    ensures
        p.update(Message::MoveUp(id), f) == (p, None::<Effect>),
        p.update(Message::MoveDown(id), f) == (p, None::<Effect>),
{
    lemma_position_bounds(p.queue.batch, id);
}

/// Clearing empties the queue and drops the verdict; switching the resets on or off
/// sets exactly that, and drops the verdict too.
pub proof fn clearing_and_wrapping(p: Pane, v: bool, f: Findings)
    requires
        p.sim.seq < u64::MAX,
    ensures
        ({
            let (q, e) = p.update(Message::ClearBatch, f);
            &&& e is None
            &&& q.queue.batch.len() == 0 && q.queue.expanded is None
            &&& q.queue.next_id == p.queue.next_id && q.queue.auto_revoke == p.queue.auto_revoke
            &&& q.sim.result is None && q.sim.at is None && !q.sim.busy && q.sim.seq == p.sim.seq
                + 1
            &&& q == (Pane { queue: q.queue, sim: q.sim, ..p })
        }),
        ({
            let (q, e) = p.update(Message::ToggleAutoRevoke(v), f);
            &&& e is None
            &&& q.queue == (QueueModel { auto_revoke: v, ..p.queue })
            &&& q.sim.result is None && q.sim.at is None && !q.sim.busy && q.sim.seq == p.sim.seq
                + 1
            &&& q == (Pane { queue: q.queue, sim: q.sim, ..p })
        }),
{
}

/// Whether a list has a method of a name.
pub open spec fn has_method(methods: Seq<MethodModel>, name: Seq<char>) -> bool {
    exists|i: int| 0 <= i < methods.len() && (#[trigger] methods[i]).name == name
}

proof fn lemma_named(methods: Seq<MethodModel>, name: Seq<char>)
    ensures
        method_named(methods, name) is Some == has_method(methods, name),
    decreases methods.len(),
{
    if methods.len() > 0 {
        let rest = methods.drop_first();
        lemma_named(rest, name);
        if methods[0].name != name {
            if has_method(methods, name) {
                let i = choose|i: int|
                    0 <= i < methods.len() && (#[trigger] methods[i]).name == name;
                assert(rest[i - 1].name == name);
            }
            if has_method(rest, name) {
                let i = choose|i: int| 0 <= i < rest.len() && (#[trigger] rest[i]).name == name;
                assert(methods[i + 1].name == name);
            }
        }
    }
}

/// The sample batch is an approval and then a supply, in that order, where both
/// contracts and both methods are known; else the queue is left empty.
pub proof fn the_sample_approves_then_supplies(p: Pane, f: Findings)
    requires
        p.queue.next_id <= u64::MAX - 2,
    ensures
        ({
            let q = p.update(Message::LoadSample, f).0;
            let known = f.sample.usdc is Some && f.sample.aave is Some && has_method(
                f.sample.usdc->0@.methods,
                "approve"@,
            ) && has_method(f.sample.aave->0@.methods, "supply"@);
            &&& !known ==> q.queue.batch.len() == 0
            &&& known ==> (f.sample.approve matches Ok(a) ==> (f.sample.supply matches Ok(s)
                ==> q.queue.batch.len() == 2 && q.queue.batch[0] == a@ && q.queue.batch[1] == s@))
            &&& known && f.sample.supply is Err ==> (f.sample.approve matches Ok(a)
                ==> q.queue.batch == seq![a@])
            &&& known && f.sample.approve is Err ==> (f.sample.supply matches Ok(s)
                ==> q.queue.batch == seq![s@])
            &&& known && f.sample.approve is Err && f.sample.supply is Err
                ==> q.queue.batch.len() == 0
            &&& q.queue.next_id == p.queue.next_id + q.queue.batch.len()
            &&& q.sim.result is None && q.sim.at is None && !q.sim.busy
            &&& q.queue.auto_revoke == p.queue.auto_revoke && q.queue.expanded == p.queue.expanded
            &&& q == (Pane { queue: q.queue, sim: q.sim, ..p })
        }),
{
    if f.sample.usdc is Some && f.sample.aave is Some {
        lemma_named(f.sample.usdc->0@.methods, "approve"@);
        lemma_named(f.sample.aave->0@.methods, "supply"@);
    }
    if let (Ok(a), Err(_)) = (f.sample.approve, f.sample.supply) {
        assert(seq![a@] + seq![] =~= seq![a@]);
    }
    if let (Err(_), Ok(s)) = (f.sample.approve, f.sample.supply) {
        assert(seq![] + seq![s@] =~= seq![s@]);
    }
}

/// What is simulated or reviewed is the queue itself, unless the resets are on and
/// the account can batch.
pub proof fn only_a_batching_account_wraps(p: Pane, f: Findings)
    ensures
        !wraps(p) ==> p.effective_calls(f.wrap) == p.queue.batch,
        wraps(p) ==> p.effective_calls(f.wrap) == models(f.wrap.calls@),
        p.can_batch() <==> p.ctx.is_safe || p.ctx.eoa_can_batch,
        p.flash_wrapped() <==> wraps(p),
{
}

// ── queries ─────────────────────────────────────────────────────────

/// A query is sent exactly when one is selected, every parameter has its argument
/// and every argument is valid and encodes. It goes to the contract on screen on
/// the network of the pane, with that encoding.
pub proof fn a_query_asks_the_contract_on_screen(p: Pane, f: Findings)
    requires
        p.reader.seq < u64::MAX,
    ensures
        ({
            let (q, e) = p.update(Message::Query, f);
            let ready = p.composer.loaded is Some && p.reader.idx
                < p.composer.loaded->0.read_methods.len() && p.reader.args.len()
                == p.composer.loaded->0.read_methods[p.reader.idx as int].inputs.len()
                && f.read_args_valid;
            &&& ready && f.read_data is Ok ==> (e matches Some(Effect::Read { seq, net, to, data })
                && seq == p.reader.seq + 1 && net == p.net && to == p.composer.loaded->0.address
                && data == f.read_data->Ok_0@) && q == (Pane { reader: q.reader, ..p })
                && q.reader.busy && q.reader.result is None && q.reader.seq == p.reader.seq + 1
                && q.reader.args == p.reader.args && q.reader.idx == p.reader.idx
            &&& ready ==> (f.read_data matches Err(why) ==> e is None && q == (Pane {
                error: Some(why@),
                ..p
            }))
            &&& !ready ==> e is None && q == p
        }),
{
}

/// Copying takes what is on screen: the raw data of the last answer, or the value
/// of that row.
pub proof fn copying_takes_what_is_on_screen(p: Pane, i: usize, f: Findings)
    ensures
        p.update(Message::CopyReadRaw, f).0 == p,
        p.update(Message::CopyReadValue(i), f).0 == p,
        p.reader.result matches Some(ReadModel::Returned { rows, raw, .. }) ==> {
            &&& p.update(Message::CopyReadRaw, f).1 == Some(Effect::CopyPlain(raw))
            &&& i < rows.len() ==> p.update(Message::CopyReadValue(i), f).1 == Some(
                Effect::CopyPlain(rows[i as int].value),
            )
            &&& i >= rows.len() ==> p.update(Message::CopyReadValue(i), f).1 is None
        },
        p.reader.result is None || p.reader.result->0 is Failed ==> p.update(
            Message::CopyReadRaw,
            f,
        ).1 is None && p.update(Message::CopyReadValue(i), f).1 is None,
{
}

} // verus!

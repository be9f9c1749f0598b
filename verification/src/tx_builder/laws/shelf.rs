//! What happens to the shelf of templates, to bundles, and to what has settled.

use vstd::prelude::*;
use vstd::utf8::encode_utf8;

use crate::chain::NetworkId;
use crate::primitives::Address;
use crate::primitives::B256;
use crate::text::dec;
use crate::text::laws::lemma_says;
use crate::text::laws::says;
use crate::text::models;
use crate::text::trimmed;
use crate::tx_builder::model::replaced_notice;
use crate::tx_builder::model::JsonModel;
use crate::tx_builder::model::Pane;
use crate::tx_builder::model::ShelfModel;
use crate::tx_builder::BatchFate;
use crate::tx_builder::Effect;
use crate::tx_builder::Findings;
use crate::tx_builder::Message;
use crate::tx_builder::Modal;
use crate::tx_builder::Settled;
use crate::txbuilder::CallModel;
use crate::txbuilder::TemplateModel;

verus! {

// ── filling the queue from outside ──────────────────────────────────

/// Whether the account may take that many calls at once: at least one, no more
/// than one transaction carries, and more than one only where it can batch.
pub open spec fn may_adopt(p: Pane, calls: nat) -> bool {
    0 < calls <= 64 && (calls == 1 || p.ctx.is_safe || p.ctx.eoa_can_batch)
}

/// A batch is refused exactly when it is empty, has more calls than the account
/// sends at once, or more than one transaction carries.
pub proof fn a_batch_is_refused_where_it_cannot_be_sent(p: Pane, calls: nat)
    ensures
        p.adopt_refusal(calls) is None <==> may_adopt(p, calls),
        calls == 0 ==> p.adopt_refusal(calls) == Some("that batch has no calls in it"@),
        calls > 1 && !p.ctx.is_safe && !p.ctx.eoa_can_batch ==> p.adopt_refusal(calls) == Some(
            "This batch has "@ + dec(calls)
                + " calls, and this account sends one at a time — atomic batching needs a software key or a Ledger (EIP-7702), or a Safe."@,
        ),
        calls > 64 && (p.ctx.is_safe || p.ctx.eoa_can_batch) ==> p.adopt_refusal(calls) == Some(
            "That batch has "@ + dec(calls) + " calls, and this wallet queues at most "@ + dec(64)
                + "."@,
        ),
{
}

/// Whether the queue of `q` is exactly those calls, with the verdict dropped.
pub open spec fn holds_exactly(p: Pane, q: Pane, calls: Seq<CallModel>) -> bool {
    &&& q.queue.batch == calls
    &&& q.queue.expanded is None
    &&& q.queue.auto_revoke == p.queue.auto_revoke
    &&& q.queue.next_id == p.queue.next_id + calls.len()
    &&& q.sim.result is None && q.sim.at is None && !q.sim.busy && q.sim.seq == p.sim.seq + 1
}

/// Loading a template replaces the queue by the calls of that template, where the
/// network is built in and the calls can be read and may be adopted; else the queue
/// stays and the banner says why.
pub proof fn loading_a_template_replaces_the_queue(p: Pane, i: usize, f: Findings)
    requires
        p.sim.seq < u64::MAX,
        p.queue.next_id <= u64::MAX - 64,
    ensures
        ({
            let (q, e) = p.update(Message::LoadTemplate(i), f);
            let there = i < p.shelf.templates.len();
            let loads = there && p.net is Builtin && f.loaded_calls is Ok && may_adopt(
                p,
                f.loaded_calls->Ok_0@.len(),
            );
            &&& e is None
            &&& !there ==> q == p
            &&& loads ==> {
                &&& holds_exactly(p, q, models(f.loaded_calls->Ok_0@))
                &&& !q.shelf.menu_open && q.shelf.rename_idx is None && q.shelf.templates
                    == p.shelf.templates
                &&& q == (Pane {
                    queue: q.queue,
                    sim: q.sim,
                    shelf: q.shelf,
                    error: q.error,
                    ..p
                })
                &&& p.queue.batch.len() == 0 && (p.shelf.templates[i as int].from is None
                    || p.shelf.templates[i as int].from == Some(p.owner)) ==> q.error is None
                &&& p.shelf.templates[i as int].from matches Some(a) ==> a != p.owner ==> q.error
                    is Some
            }
            &&& there && !loads ==> q.error is Some && q.queue == p.queue && q.sim == p.sim
                && q.shelf.templates == p.shelf.templates && q.composer == p.composer && q.net
                == p.net
            &&& there && p.net is Builtin ==> (f.loaded_calls matches Err(why) ==> q.error == Some(
                why@,
            ))
            &&& there && p.net is Builtin && !loads ==> (f.loaded_calls matches Ok(calls)
                ==> q.error == p.adopt_refusal(calls@.len()))
            &&& loads ==> q.shelf.rename_buf.len() == 0
        }),
{
}

/// So does importing a bundle; what is wrong with it is said beside the box, which
/// stays open.
pub proof fn importing_replaces_the_queue(p: Pane, f: Findings)
    requires
        p.sim.seq < u64::MAX,
        p.queue.next_id <= u64::MAX - 64,
    ensures
        ({
            let (q, e) = p.update(Message::ImportJson, f);
            let loads = f.loaded_calls is Ok && may_adopt(p, f.loaded_calls->Ok_0@.len());
            &&& e is None
            &&& loads ==> {
                &&& holds_exactly(p, q, models(f.loaded_calls->Ok_0@))
                &&& q.json.modal == Modal::Closed
                &&& q == (Pane { queue: q.queue, sim: q.sim, json: q.json, error: q.error, ..p })
                &&& p.queue.batch.len() == 0 && (f.composed_as is None || f.composed_as == Some(
                    p.owner,
                )) ==> q.error is None
                &&& f.composed_as matches Some(a) ==> a != p.owner ==> q.error is Some
            }
            &&& !loads ==> q.json.error is Some && q == (Pane {
                json: JsonModel { error: q.json.error, ..p.json },
                ..p
            })
            &&& f.loaded_calls matches Err(why) ==> q.json.error == Some(why@)
            &&& !loads ==> (f.loaded_calls matches Ok(calls) ==> q.json.error == p.adopt_refusal(
                calls@.len(),
            ))
            &&& loads ==> q.json.text == p.json.text && q.json.error == p.json.error
        }),
{
}

/// Whatever replaced queued calls says how many, and a batch composed as another
/// account says which; where both hold, both are said.
pub proof fn a_replaced_queue_is_told(p: Pane, f: Findings)
    requires
        f.loaded_calls is Ok,
        may_adopt(p, f.loaded_calls->Ok_0@.len()),
    ensures
        ({
            let q = p.update(Message::ImportJson, f).0;
            let n = p.queue.batch.len();
            let replaced = "Replaced the "@ + dec(n) + " call"@ + (if n == 1 {
                seq![]
            } else {
                seq!['s']
            }) + " you had queued."@;
            &&& n > 0 && f.composed_as is None ==> q.error == Some(replaced)
            &&& n > 0 ==> q.error is Some && says(q.error->0, replaced)
            &&& f.composed_as matches Some(a) ==> a != p.owner ==> q.error is Some && says(
                q.error->0,
                "This bundle"@ + " was composed as "@ + a.short_text()
                    + ", and you're composing as "@ + p.owner.short_text(),
            )
        }),
{
    let n = p.queue.batch.len();
    let none = Seq::<char>::empty();
    let replaced = "Replaced the "@ + dec(n) + " call"@ + (if n == 1 {
        seq![]
    } else {
        seq!['s']
    }) + " you had queued."@;
    lemma_says(none, replaced, none);
    assert(none + replaced + none =~= replaced);
    if let Some(a) = f.composed_as {
        if a != p.owner {
            let part = "This bundle"@ + " was composed as "@ + a.short_text()
                + ", and you're composing as "@ + p.owner.short_text();
            let tail =
                ". The calls still point where they did — check any allowance, balance or position they assume belongs to the other account."@;
            lemma_says(none, part, tail);
            assert(none + part + tail =~= part + tail);
            lemma_says(none, part, tail + " "@ + replaced);
            assert(none + part + (tail + " "@ + replaced) =~= part + tail + " "@ + replaced);
            lemma_says(part + tail + " "@, replaced, none);
            assert(part + tail + " "@ + replaced + none =~= part + tail + " "@ + replaced);
        }
    }
}

/// A template composed as another account says which, by its name.
pub proof fn a_template_of_another_account_is_told(p: Pane, i: usize, f: Findings, a: Address)
    requires
        i < p.shelf.templates.len(),
        p.net is Builtin,
        f.loaded_calls is Ok,
        may_adopt(p, f.loaded_calls->Ok_0@.len()),
        p.shelf.templates[i as int].from == Some(a),
        a != p.owner,
    ensures
        ({
            let q = p.update(Message::LoadTemplate(i), f).0;
            q.error matches Some(e) && says(
                e,
                ("\""@ + p.shelf.templates[i as int].name + "\""@) + " was composed as "@
                    + a.short_text() + ", and you're composing as "@ + p.owner.short_text(),
            )
        }),
{
    let n = p.queue.batch.len();
    let none = Seq::<char>::empty();
    let part = ("\""@ + p.shelf.templates[i as int].name + "\""@) + " was composed as "@
        + a.short_text() + ", and you're composing as "@ + p.owner.short_text();
    let tail =
        ". The calls still point where they did — check any allowance, balance or position they assume belongs to the other account."@;
    let replaced = replaced_notice(n);
    lemma_says(none, part, tail);
    assert(none + part + tail =~= part + tail);
    lemma_says(none, part, tail + " "@ + replaced);
    assert(none + part + (tail + " "@ + replaced) =~= part + tail + " "@ + replaced);
}

/// On a custom network a template is refused by its name, and the menu closes.
pub proof fn a_template_is_refused_on_a_custom_network(p: Pane, i: usize, f: Findings)
    requires
        i < p.shelf.templates.len(),
        p.net is Custom,
    ensures
        p.update(Message::LoadTemplate(i), f).0 == (Pane {
            error: Some(
                "\""@ + p.shelf.templates[i as int].name
                    + "\" was composed on a built-in chain and can't be loaded on "@
                    + p.net.name_text()
                    + " — contract addresses don't carry across networks."@,
            ),
            shelf: ShelfModel { menu_open: false, ..p.shelf },
            ..p
        }),
{
}

/// A notice about another account says what to check.
pub proof fn a_drift_says_what_to_check(p: Pane, f: Findings, a: Address)
    requires
        f.loaded_calls is Ok,
        may_adopt(p, f.loaded_calls->Ok_0@.len()),
        f.composed_as == Some(a),
        a != p.owner,
        p.queue.batch.len() == 0,
    ensures
        p.update(Message::ImportJson, f).0.error == Some(
            "This bundle"@ + " was composed as "@ + a.short_text() + ", and you're composing as "@
                + p.owner.short_text()
                + ". The calls still point where they did — check any allowance, balance or position they assume belongs to the other account."@,
        ),
{
}

// ── templates ───────────────────────────────────────────────────────

/// Saving puts the template behind those there are, where something is queued on a
/// built-in network; the list is stored with the one before it to go back to.
pub proof fn saving_appends_a_template(p: Pane, f: Findings)
    ensures
        ({
            let (q, e) = p.update(Message::SaveTemplate, f);
            let saves = p.queue.batch.len() > 0 && p.net is Builtin;
            &&& saves ==> {
                &&& q.shelf.templates.len() == p.shelf.templates.len() + 1
                &&& q.shelf.templates.last() == f.template@
                &&& forall|k: int|
                    0 <= k < p.shelf.templates.len() ==> #[trigger] q.shelf.templates[k]
                        == p.shelf.templates[k]
                &&& q.shelf.menu_open
                &&& q.shelf.rename_idx is None && q.shelf.rename_buf.len() == 0
                &&& e == Some(
                    Effect::PersistTemplates {
                        list: q.shelf.templates,
                        rollback: p.shelf.templates,
                    },
                )
                &&& q == (Pane { shelf: q.shelf, ..p })
            }
            &&& !saves ==> q == p && e is None
        }),
{
}

/// Deleting takes out that template, and keeps the others in order.
pub proof fn deleting_takes_out_that_template(p: Pane, i: usize, f: Findings)
    ensures
        ({
            let (q, e) = p.update(Message::DeleteTemplate(i), f);
            &&& i < p.shelf.templates.len() ==> {
                &&& q.shelf.templates.len() == p.shelf.templates.len() - 1
                &&& forall|k: int|
                    0 <= k < i ==> #[trigger] q.shelf.templates[k] == p.shelf.templates[k]
                &&& forall|k: int|
                    i <= k < q.shelf.templates.len() ==> #[trigger] q.shelf.templates[k]
                        == p.shelf.templates[k + 1]
                &&& e == Some(
                    Effect::PersistTemplates {
                        list: q.shelf.templates,
                        rollback: p.shelf.templates,
                    },
                )
                &&& q.shelf.rename_idx is None && q.shelf.rename_buf.len() == 0
                    && q.shelf.menu_open == p.shelf.menu_open
                &&& q == (Pane { shelf: q.shelf, ..p })
            }
            &&& i >= p.shelf.templates.len() ==> q == p && e is None
        }),
{
}

/// Renaming starts from the template's name; a name that is not blank is then that
/// template's, without the white space around it, and no other template changes.
pub proof fn renaming_names_that_template(p: Pane, i: usize, f: Findings)
    ensures
        ({
            let q = p.update(Message::StartRename(i), f).0;
            &&& i < p.shelf.templates.len() ==> q == (Pane {
                shelf: ShelfModel {
                    rename_idx: Some(i),
                    rename_buf: p.shelf.templates[i as int].name,
                    ..p.shelf
                },
                ..p
            })
            &&& i >= p.shelf.templates.len() ==> q == p
        }),
        ({
            let (q, e) = p.update(Message::CommitRename, f);
            let name = trimmed(p.shelf.rename_buf);
            let renames = p.shelf.rename_idx is Some && name.len() > 0 && p.shelf.rename_idx->0
                < p.shelf.templates.len();
            &&& renames ==> {
                let k = p.shelf.rename_idx->0 as int;
                &&& q.shelf.templates.len() == p.shelf.templates.len()
                &&& q.shelf.templates[k] == (TemplateModel { name, ..p.shelf.templates[k] })
                &&& forall|j: int|
                    0 <= j < p.shelf.templates.len() && j != k ==> #[trigger] q.shelf.templates[j]
                        == p.shelf.templates[j]
                &&& q.shelf.rename_idx is None && q.shelf.rename_buf.len() == 0
                &&& e == Some(
                    Effect::PersistTemplates {
                        list: q.shelf.templates,
                        rollback: p.shelf.templates,
                    },
                )
                &&& q == (Pane { shelf: q.shelf, ..p })
            }
            &&& !renames ==> q == p && e is None
        }),
        p.update(Message::CancelRename, f) == (
            Pane { shelf: ShelfModel { rename_idx: None, rename_buf: seq![], ..p.shelf }, ..p },
            None::<Effect>,
        ),
{
}

// ── the box for bundles ─────────────────────────────────────────────

/// The box opens with the exported batch where the network has an id that a bundle
/// can carry; on a custom network it is refused. To load, it opens empty, and
/// closing empties it.
pub proof fn the_box_opens_with_the_batch(p: Pane, f: Findings)
    ensures
        ({
            let (q, e) = p.update(Message::OpenSave, f);
            &&& e is None
            &&& p.net is Builtin ==> q.json.modal == Modal::Save && q.json.text == f.export@
                && q.json.error == p.json.error && q == (Pane { json: q.json, ..p })
            &&& p.net matches NetworkId::Custom(_) ==> q == (Pane {
                error: Some(
                    "A batch composed on "@ + p.net.name_text()
                        + " can't be exported — the bundle format identifies its network by chain id, and this one isn't a network Kao verifies."@,
                ),
                ..p
            })
        }),
        p.update(Message::OpenLoad, f) == (
            Pane { json: JsonModel { modal: Modal::Load, text: seq![], error: None }, ..p },
            None::<Effect>,
        ),
        p.update(Message::CloseModal, f) == (
            Pane { json: JsonModel { modal: Modal::Closed, text: seq![], error: None }, ..p },
            None::<Effect>,
        ),
        p.update(Message::CopyJson, f) == (p, Some(Effect::CopyText(p.json.text))),
{
}

/// Text that is small enough is put into the box; more than that leaves the box as
/// it was, and says how much it is and how much is read.
pub proof fn an_oversized_paste_is_not_put_in_the_box(p: Pane, v: String, f: Findings)
    requires
        encode_utf8(v@).len() <= usize::MAX,
    ensures
        ({
            let (q, e) = p.update(Message::JsonChanged(v), f);
            let bytes = encode_utf8(v@).len();
            &&& e is None
            &&& bytes <= 1_048_576 ==> q == (Pane {
                json: JsonModel { text: v@, error: None, ..p.json },
                ..p
            })
            &&& bytes > 1_048_576 ==> q == (Pane {
                json: JsonModel {
                    error: Some(
                        "that paste is "@ + dec(bytes)
                            + " bytes, and this wallet reads batches up to "@ + dec(1_048_576)
                            + " — it hasn't been put in the box"@,
                    ),
                    ..p.json
                },
                ..p
            })
        }),
{
}

/// The way back closes what is on top: the box where it is open, and else the pane.
pub proof fn the_way_back(p: Pane, f: Findings)
    ensures
        p.update(Message::Close, f) == (p, Some(Effect::Close)),
        p.json.modal == Modal::Closed ==> p.update(Message::Escape, f) == (p, Some(Effect::Close)),
        p.json.modal != Modal::Closed ==> p.update(Message::Escape, f) == (
            Pane { json: JsonModel { modal: Modal::Closed, text: seq![], error: None }, ..p },
            None::<Effect>,
        ),
        p.update(Message::DismissError, f) == (Pane { error: None, ..p }, None::<Effect>),
        p.update(Message::DismissSettled, f) == (Pane { settled: None, ..p }, None::<Effect>),
{
}

// ── what has settled ────────────────────────────────────────────────

/// A batch that went through leaves the queue and is on record for the account and
/// the network it happened on; a batch that did not stays queued.
pub proof fn a_settled_batch_is_on_record(p: Pane, outcome: Settled, hash: B256, fate: BatchFate)
    requires
        p.sim.seq < u64::MAX,
    ensures
        ({
            let q = p.finished(outcome);
            &&& q.settled matches Some(s) && s.outcome == outcome && s.identity == p.owner && s.net
                == p.net
            &&& q.queue.batch.len() == 0 && q.queue.expanded is None && q.error is None
            &&& q.queue.next_id == p.queue.next_id && q.queue.auto_revoke == p.queue.auto_revoke
            &&& q.sim.result is None && q.sim.at is None && !q.sim.busy && q.sim.seq == p.sim.seq
                + 1
            &&& q == (Pane {
                queue: q.queue,
                sim: q.sim,
                error: None,
                settled: q.settled,
                ..p
            })
        }),
        ({
            let q = p.broadcast_unsuccessful(hash, fate);
            &&& q == (Pane { settled: q.settled, ..p })
            &&& q.settled matches Some(s) && s.identity == p.owner && s.net == p.net && (fate
                is Reverted ==> s.outcome == (Settled::Reverted { hash })) && (!(fate is Reverted)
                ==> s.outcome == (Settled::Unconfirmed { hash }))
        }),
{
}

/// What is on record is visible to the account and on the network it happened on,
/// and to no other.
pub proof fn a_record_is_visible_where_it_happened(p: Pane)
    ensures
        p.visible_settled() is Some <==> (p.settled matches Some(s) && s.identity == p.owner
            && s.net == p.net),
        p.visible_settled() matches Some(o) ==> o == p.settled->0.outcome,
{
}

/// Copying the hash copies the one on record, in full, where a transaction was
/// sent; a proposal has none.
pub proof fn the_hash_on_record_is_copied(p: Pane, f: Findings)
    ensures
        ({
            let (q, e) = p.update(Message::CopySettledHash, f);
            &&& q == p
            &&& p.visible_settled() is None ==> e is None
            &&& p.visible_settled() matches Some(s) ==> {
                &&& s matches Settled::Executed { hash } ==> e == Some(
                    Effect::CopyPlain(hash.hex_text()),
                )
                &&& s matches Settled::Reverted { hash } ==> e == Some(
                    Effect::CopyPlain(hash.hex_text()),
                )
                &&& s matches Settled::Unconfirmed { hash } ==> e == Some(
                    Effect::CopyPlain(hash.hex_text()),
                )
                &&& s is Proposed ==> e is None
            }
        }),
{
}

} // verus!

//! What is concluded from a simulation, and what a review is opened with.

use vstd::prelude::*;

use crate::chain::Chain;
use crate::chain::NetworkId;
use crate::text::dec;
use crate::text::laws::lemma_says;
use crate::text::laws::says;
use crate::text::models;
use crate::tx_builder::model::Pane;
use crate::tx_builder::Effect;
use crate::tx_builder::Findings;
use crate::tx_builder::Message;
use crate::tx_builder::Verdict;
use crate::tx_builder::VersionGate;
use crate::txbuilder::BatchSimResult;
use crate::txbuilder::GasFit;
use crate::txbuilder::OutcomeModel;
use crate::txbuilder::SimModel;

verus! {

/// Whether the batch is wrapped in resets: the toggle is on, and the account can
/// batch.
pub open spec fn wraps(p: Pane) -> bool {
    p.queue.auto_revoke && (p.ctx.is_safe || p.ctx.eoa_can_batch)
}

// ── the verdict ─────────────────────────────────────────────────────

/// A batch passed exactly when the simulation it holds succeeded and fits a
/// block; then the verdict says whether every read was verified, and that it is
/// stale three minutes after it landed.
pub proof fn only_a_success_passes(p: Pane, now: u64, opens: usize)
    ensures
        p.preflight(now, opens) is Passed <==> (p.sim.result matches Some(s) && s.outcome is Success
            && (s.block_gas_limit == 0 || s.gas_used < s.block_gas_limit)),
        p.preflight(now, opens) matches Verdict::Passed { stale, verified } ==> {
            &&& verified == p.sim.result->0.verified
            &&& stale <==> (p.sim.at matches Some(t) && now >= t + 180_000_000_000)
        },
{
}

/// A simulation that names a failing step never passes, whether the step reverted
/// or was halted: the verdict is that the batch fails, for that reason.
pub proof fn a_failing_step_always_fails(p: Pane, now: u64, opens: usize)
    requires
        p.sim.result is Some,
    ensures
        p.sim.result->0.outcome matches OutcomeModel::Revert { step, reason } ==> (p.preflight(
            now,
            opens,
        ) matches Verdict::Fails { at, reason: r } && r == reason && at == p.step_text(
            step,
            opens,
        )),
        p.sim.result->0.outcome matches OutcomeModel::Halt { step, reason } ==> (p.preflight(
            now,
            opens,
        ) matches Verdict::Fails { at, reason: r } && r == reason && at == p.step_text(
            step,
            opens,
        )),
        p.preflight(now, opens) is Fails <==> p.sim.result->0.outcome is Revert
            || p.sim.result->0.outcome is Halt,
{
}

/// A success that no block can hold is no pass, and is told with both figures; an
/// unknown limit holds anything.
pub proof fn a_batch_too_large_for_a_block_does_not_pass(p: Pane, now: u64, opens: usize)
    ensures
        p.preflight(now, opens) is TooMuchGas <==> (p.sim.result matches Some(s) && s.outcome
            is Success && s.block_gas_limit > 0 && s.gas_used >= s.block_gas_limit),
        p.preflight(now, opens) matches Verdict::TooMuchGas { gas_used, block_gas_limit }
            ==> gas_used == p.sim.result->0.gas_used && block_gas_limit
            == p.sim.result->0.block_gas_limit,
{
}

/// A simulator that failed says nothing of the batch but why it failed, and
/// without a result there is none to speak of: it is missing where the network
/// can simulate, and unsupported where it cannot.
pub proof fn no_result_is_no_verdict(p: Pane, now: u64, opens: usize)
    ensures
        p.preflight(now, opens) is Errored <==> (p.sim.result matches Some(s) && s.outcome
            is Error),
        p.sim.result matches Some(s) ==> (s.outcome matches OutcomeModel::Error(e) ==> p.preflight(
            now,
            opens,
        ) == (Verdict::Errored { reason: e })),
        p.preflight(now, opens) is Missing <==> (p.sim.result is None || p.sim.result->0.outcome
            is Unavailable) && p.net is Builtin,
        p.preflight(now, opens) is Unsupported <==> (p.sim.result is None
            || p.sim.result->0.outcome is Unavailable) && p.net is Custom,
{
}

/// A failing step is named as the user queued it: counted from one, with the
/// resets that run before the batch left out; a reset is named as one.
pub proof fn a_failing_step_is_named_as_queued(p: Pane, step: usize, opens: usize)
    ensures
        !wraps(p) ==> p.step_text(step, opens) == "call #"@ + dec((step + 1) as nat),
        wraps(p) && opens <= step < opens + p.queue.batch.len() ==> p.step_text(step, opens)
            == "call #"@ + dec((step - opens + 1) as nat),
        wraps(p) && step < opens ==> p.step_text(step, opens)
            == "the allowance reset flash approval runs before the batch"@,
        wraps(p) && step >= opens + p.queue.batch.len() ==> p.step_text(step, opens)
            == "the approval revoke flash approval runs after the batch"@,
{
}

/// What a verdict warns of names what it found: the step and the reason of a
/// failure, both figures of a batch too large, why the simulator failed; and a
/// clean pass warns of nothing.
pub proof fn a_warning_names_what_was_found(v: Verdict)
    ensures
        v matches Verdict::Fails { at, reason } ==> (v.warning() matches Some(w) && says(
            w,
            "Preflight FAILED at "@ + at + ": "@ + reason,
        )),
        v matches Verdict::TooMuchGas { gas_used, block_gas_limit } ==> (v.warning() matches Some(w)
            && says(
            w,
            dec(gas_used as nat) + " gas against a block gas limit of "@ + dec(
                block_gas_limit as nat,
            ),
        )),
        v matches Verdict::Errored { reason } ==> (v.warning() matches Some(w) && says(
            w,
            "The preflight couldn't run: "@ + reason,
        )),
        v matches Verdict::Passed { stale, verified } ==> v.warning() is None == (!stale
            && verified),
        v is Missing ==> v.warning() is Some,
        v is Unsupported ==> v.warning() is None,
{
    match v {
        Verdict::Fails { at, reason } => {
            reveal_strlit("⚠ Preflight FAILED at ");
            reveal_strlit("⚠ ");
            reveal_strlit("Preflight FAILED at ");
            assert("⚠ Preflight FAILED at "@ =~= "⚠ "@ + "Preflight FAILED at "@);
            let part = "Preflight FAILED at "@ + at + ": "@ + reason;
            let tail =
                ". The batch is atomic, so on-chain this reverts as a whole and costs gas for nothing."@;
            lemma_says("⚠ "@, part, tail);
            assert("⚠ "@ + part + tail =~= "⚠ Preflight FAILED at "@ + at + ": "@ + reason + tail);
        },
        Verdict::TooMuchGas { gas_used, block_gas_limit } => {
            let part = dec(gas_used as nat) + " gas against a block gas limit of "@ + dec(
                block_gas_limit as nat,
            );
            let tail =
                ". No block can include a transaction this large, so it will never be mined however much you pay — and the real figure is higher still, since the preflight doesn't run the wrapper. Split it into smaller batches."@;
            lemma_says("⚠ This batch meters "@, part, tail);
            assert("⚠ This batch meters "@ + part + tail =~= "⚠ This batch meters "@ + dec(
                gas_used as nat,
            ) + " gas against a block gas limit of "@ + dec(block_gas_limit as nat) + tail);
        },
        Verdict::Errored { reason } => {
            reveal_strlit("⚠ The preflight couldn't run: ");
            reveal_strlit("⚠ ");
            reveal_strlit("The preflight couldn't run: ");
            assert("⚠ The preflight couldn't run: "@ =~= "⚠ "@ + "The preflight couldn't run: "@);
            let part = "The preflight couldn't run: "@ + reason;
            let tail =
                ". That is a gap in what this wallet can predict, not a verdict on the batch — nothing here says whether it succeeds."@;
            lemma_says("⚠ "@, part, tail);
            assert("⚠ "@ + part + tail =~= "⚠ The preflight couldn't run: "@ + reason + tail);
        },
        _ => {},
    }
}

/// What a verdict warns of says what follows from it.
pub proof fn a_warning_says_what_follows(v: Verdict)
    ensures
        v matches Verdict::Fails { at, reason } ==> v.warning() == Some(
            "⚠ Preflight FAILED at "@ + at + ": "@ + reason
                + ". The batch is atomic, so on-chain this reverts as a whole and costs gas for nothing."@,
        ),
        v matches Verdict::TooMuchGas { gas_used, block_gas_limit } ==> v.warning() == Some(
            "⚠ This batch meters "@ + dec(gas_used as nat) + " gas against a block gas limit of "@
                + dec(block_gas_limit as nat)
                + ". No block can include a transaction this large, so it will never be mined however much you pay — and the real figure is higher still, since the preflight doesn't run the wrapper. Split it into smaller batches."@,
        ),
        v matches Verdict::Errored { reason } ==> v.warning() == Some(
            "⚠ The preflight couldn't run: "@ + reason
                + ". That is a gap in what this wallet can predict, not a verdict on the batch — nothing here says whether it succeeds."@,
        ),
{
}

/// A pass in doubt says which doubt it is, and a batch that was never simulated is
/// told apart from one that failed.
pub proof fn a_doubtful_pass_says_its_doubt(stale: bool, verified: bool)
    ensures
        stale || !verified ==> ((Verdict::Passed { stale, verified }).warning() matches Some(w) && {
            &&& stale ==> says(w, "the chain has moved on since it ran"@)
            &&& !verified ==> says(
                w,
                "some of the state it read couldn't be light-client-verified"@,
            )
            &&& !verified && !stale ==> w == "⚠ The preflight passed, but "@
                + "some of the state it read couldn't be light-client-verified"@
                + " — re-run it before signing if this batch depends on balances or allowances that others can move."@
            &&& verified ==> w == "⚠ The preflight passed, but "@
                + "the chain has moved on since it ran"@
                + " — re-run it before signing if this batch depends on balances or allowances that others can move."@
        }),
        Verdict::Missing.warning() == Some(
            "⚠ This batch has not been simulated. Go back and run the preflight to see whether it succeeds before committing a signature to it."@,
        ),
{
    let head = "⚠ The preflight passed, but "@;
    let old = "the chain has moved on since it ran"@;
    let weak = "some of the state it read couldn't be light-client-verified"@;
    let tail =
        " — re-run it before signing if this batch depends on balances or allowances that others can move."@;
    lemma_says(head, old, tail);
    lemma_says(head, weak, tail);
    lemma_says(head, old, " and "@ + weak + tail);
    assert(head + old + (" and "@ + weak + tail) =~= head + (old + " and "@ + weak) + tail);
    lemma_says(head + old + " and "@, weak, tail);
    assert(head + old + " and "@ + weak + tail =~= head + (old + " and "@ + weak) + tail);
}

/// The verdict is softened by anything that is not a clean pass, save that a
/// network without simulation has nothing to soften.
pub proof fn only_a_clean_pass_is_not_doubtful(v: Verdict)
    ensures
        v.doubtful() <==> !(v is Unsupported || v == (Verdict::Passed {
            stale: false,
            verified: true,
        })),
{
}

/// A simulation that failed to run is held as an error, with nothing measured; one
/// that ran is held as it came, at the time it landed.
pub proof fn a_landed_simulation_is_held_as_it_came(
    p: Pane,
    result: Result<BatchSimResult, String>,
    now: u64,
)
    ensures
        ({
            let q = p.sim_landed(p.sim.seq, result, now);
            &&& !q.sim.busy
            &&& q.sim.at == Some(now)
            &&& q.sim.seq == p.sim.seq
            &&& result matches Ok(r) ==> q.sim.result == Some(r@)
            &&& result matches Err(e) ==> (q.sim.result matches Some(s) && s.outcome
                == OutcomeModel::Error(e@) && s.gas_used == 0 && s.block_gas_limit == 0
                && s.base_fee_per_gas == 0 && !s.verified && s.transfers.len() == 0)
            &&& q == (Pane { sim: q.sim, ..p })
        }),
{
}

// ── the review ──────────────────────────────────────────────────────

/// Why nothing can be signed for the acting account, if nothing can: a plain
/// account without a key; a Safe of unknown version, or of one that cannot be
/// signed for or routed through. Every other account can be signed for.
pub proof fn who_cannot_sign(p: Pane, gate: VersionGate)
    ensures
        !p.ctx.is_safe && p.ctx.can_sign ==> p.no_signer_reason(gate) is None,
        !p.ctx.is_safe && !p.ctx.can_sign ==> p.no_signer_reason(gate) == Some(
            p.owner.short_text()
                + " is watch-only — Kao holds no key for it, so this batch can't be signed. Compose and simulate freely; to send it, switch to an account with a key."@,
        ),
        p.ctx.is_safe && p.ctx.safe_version is None ==> p.no_signer_reason(gate) == Some(
            "Kao hasn't read this Safe's contract version. That version picks both the signing domain and the MultiSend library the batch runs through, so there is nothing safe to assume — reopen the Safe to refresh it."@,
        ),
        p.ctx.is_safe && p.ctx.safe_version is Some ==> {
            &&& gate.unsignable matches Some(e) ==> p.no_signer_reason(gate) == Some(e@)
            &&& gate.unsignable is None ==> (gate.unroutable matches Some(e) ==> p.no_signer_reason(
                gate,
            ) == Some(
                e@
                    + ". Every Builder batch runs through MultiSend, including a single call, so this Safe can't send from this pane."@,
            ))
            &&& gate.unsignable is None && gate.unroutable is None ==> p.no_signer_reason(gate)
                is None
        },
        p.ctx.is_safe ==> p.version_block(gate) == p.no_signer_reason(gate),
        !p.ctx.is_safe ==> p.version_block(gate) is None,
{
}

/// A review opens exactly when something is queued, somebody can sign, and the
/// calls fit one transaction. It carries those calls: the queue as it stands, or
/// wrapped where wrapping is on; the verdict on them; and the simulation behind
/// it.
pub proof fn a_review_carries_the_queue(p: Pane, f: Findings)
    ensures
        ({
            let (q, e) = p.update(Message::Review, f);
            let calls = if wraps(p) {
                models(f.wrap.calls@)
            } else {
                p.queue.batch
            };
            let opens = p.queue.batch.len() > 0 && p.no_signer_reason(f.gate) is None && calls.len()
                <= 64;
            &&& opens ==> q == p && (e matches Some(
                Effect::Review { calls: c, preflight, sim, fee_caveats },
            ) && c == calls && preflight == p.preflight(f.now, f.wrap.opens) && sim == p.sim.result
                && fee_caveats == p.fee_caveats(calls.len()))
            &&& !opens ==> e is None && q == (Pane { error: q.error, ..p })
            &&& p.queue.batch.len() == 0 ==> q == p
            &&& p.queue.batch.len() > 0 ==> (p.no_signer_reason(f.gate) matches Some(why)
                ==> q.error == Some(why))
            &&& p.queue.batch.len() > 0 && p.no_signer_reason(f.gate) is None && calls.len() > 64
                ==> q.error == Some(
                "With \"revoke approvals after batch\" on, these "@ + dec(p.queue.batch.len())
                    + " calls become "@ + dec(calls.len())
                    + " — one reset before and one after each approval — and this wallet runs at most "@
                    + dec(64) + " in a transaction. Turn the toggle off, or split the batch."@,
            )
        }),
{
}

/// A review never says that a batch passed whose simulation did not succeed.
pub proof fn a_review_never_passes_a_failure(p: Pane, f: Findings)
    ensures
        p.update(Message::Review, f).1 matches Some(Effect::Review { preflight, sim, .. }) ==> {
            &&& preflight is Passed ==> sim is Some && sim->0.outcome is Success
            &&& sim matches Some(s) ==> (s.outcome is Revert || s.outcome is Halt) ==> preflight
                is Fails
        },
{
}

/// Simulating runs the calls that would be reviewed, on the chain of the pane, and
/// only where that chain is built in and something is queued that fits; it drops
/// the old verdict and waits for the new one.
pub proof fn a_simulation_runs_what_would_be_sent(p: Pane, f: Findings)
    requires
        p.sim.seq < u64::MAX,
    ensures
        ({
            let (q, e) = p.update(Message::Simulate, f);
            let calls = if wraps(p) {
                models(f.wrap.calls@)
            } else {
                p.queue.batch
            };
            let runs = p.net is Builtin && p.queue.batch.len() > 0 && calls.len() <= 64;
            &&& runs ==> e == Some(
                Effect::Simulate { seq: (p.sim.seq + 1) as u64, chain: p.net->Builtin_0, calls },
            ) && q == (Pane { sim: q.sim, ..p }) && q.sim.busy && q.sim.result is None && q.sim.at
                is None && q.sim.seq == p.sim.seq + 1
            &&& !runs ==> e is None && q == (Pane { error: q.error, ..p })
            &&& p.net is Custom || p.queue.batch.len() == 0 ==> q == p
            &&& p.net is Builtin && p.queue.batch.len() > 0 && calls.len() > 64 ==> q.error == Some(
                "With \"revoke approvals after batch\" on, these "@ + dec(p.queue.batch.len())
                    + " calls become "@ + dec(calls.len())
                    + " — one reset before and one after each approval — and this wallet runs at most "@
                    + dec(64) + " in a transaction. Turn the toggle off, or split the batch."@,
            )
        }),
{
}

/// What a fee leaves out depends on the chain, on who sends, and on how many calls
/// there are; the tip is always left out.
pub proof fn a_fee_says_what_it_leaves_out(p: Pane, calls: nat)
    ensures
        ({
            let c = p.fee_caveats(calls);
            let rollup = p.net == NetworkId::Builtin(Chain::Base) || p.net == NetworkId::Builtin(
                Chain::Optimism,
            );
            let at: int = if rollup {
                2
            } else {
                1
            };
            &&& c[0] == "excludes the priority tip, which every transaction also pays"@
            &&& rollup ==> c[1]
                == "excludes the L1 data fee, which on this chain is often the larger half of the total"@
            &&& p.ctx.is_safe ==> c[at]
                == "excludes the execTransaction wrapper and its per-owner signature checks"@ && c[at
                + 1] == "excludes the MultiSend dispatch loop"@
            &&& !p.ctx.is_safe && calls > 1 ==> c[at]
                == "excludes the executeBatch dispatch loop"@
            &&& calls > 1 ==> c.last()
                == "counts the 21,000 intrinsic gas once per call, where the real transaction pays it once in total"@
            &&& c.len() == at + (if p.ctx.is_safe {
                2int
            } else if calls > 1 {
                1
            } else {
                0
            }) + (if calls > 1 {
                1int
            } else {
                0
            })
        }),
{
}

/// What a simulation cannot see depends on who sends and on how many calls there
/// are; a single call of a plain account has no blind spot.
pub proof fn a_simulation_says_what_it_cannot_see(p: Pane, calls: nat)
    ensures
        ({
            let b = p.blind_spots(calls);
            &&& !p.ctx.is_safe && calls <= 1 ==> b.len() == 0
            &&& p.ctx.is_safe ==> b[0]
                == "the execTransaction wrapper — its signature checks, and any transaction guard installed on this Safe"@
                && b[1] == "tx.origin, which is the Safe here and the broadcasting account on chain"@
            &&& !p.ctx.is_safe && calls > 1 ==> b[0]
                == "the delegation designator, if this transaction is the one installing it — a callee reading msg.sender.code.length sees the opposite here"@
            &&& calls > 1 ==> b.last()
                == "transient storage (EIP-1153), wiped between steps here and kept for the whole transaction on chain"@
            &&& b.len() == (if p.ctx.is_safe {
                2int
            } else if calls > 1 {
                1
            } else {
                0
            }) + (if calls > 1 {
                1int
            } else {
                0
            })
        }),
{
}

/// A batch fits a block whose limit is above its gas, does not fit one whose limit
/// it reaches, and nothing is known where the limit is not.
pub proof fn a_batch_fits_below_the_limit(s: SimModel)
    ensures
        s.block_gas_limit == 0 ==> s.fit() is Unknown,
        s.block_gas_limit > 0 && s.gas_used < s.block_gas_limit ==> s.fit() is Fits,
        s.block_gas_limit > 0 && s.gas_used >= s.block_gas_limit ==> s.fit() == (GasFit::Exceeds {
            gas_used: s.gas_used,
            block_gas_limit: s.block_gas_limit,
        }),
{
}

} // verus!

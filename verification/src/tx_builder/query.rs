//! Reading the pane: what is selected, what would be signed, what the verdict
//! on the batch is and how far it reaches.

use vstd::prelude::*;

use crate::chain::Chain;
use crate::chain::NetworkId;
use crate::primitives::short_address;
use crate::primitives::Address;
use crate::text::decimal;
use crate::text::decimal_usize;
use crate::text::models;
use crate::text::replicate;
use crate::tx_builder::model::configured_name;
use crate::tx_builder::model::failing_step;
use crate::tx_builder::model::wrap_refusal;
use crate::tx_builder::model::Pane;
use crate::tx_builder::FlashWrap;
use crate::tx_builder::Mode;
use crate::tx_builder::Preflight;
use crate::tx_builder::Settled;
use crate::tx_builder::TxBuilderApp;
use crate::tx_builder::VersionGate;
use crate::tx_builder::PREFLIGHT_STALE_AFTER;
use crate::txbuilder::AbiMethod;
use crate::txbuilder::BatchOutcome;
use crate::txbuilder::CallModel;
use crate::txbuilder::GasFit;
use crate::txbuilder::QueuedCall;
use crate::txbuilder::MAX_BATCH_CALLS;

verus! {

/// Whether each field of the composer holds a value of its kind.
#[derive(Debug, Clone, Copy)]
pub struct ComposeChecks {
    /// Every argument is a value of its parameter's type.
    pub args: bool,
    /// The attached value is a number of wei.
    pub value: bool,
    pub raw_to: bool,
    pub raw_value: bool,
    pub raw_data: bool,
}

/// What a queued call addressed to the acting account is labelled with.
pub open spec fn self_call_note(is_safe: bool, effect: Option<Seq<char>>) -> Seq<char> {
    if !is_safe {
        "This call is addressed to the account that would send it."@
    } else {
        match effect {
            Some(e) => "Runs as the Safe and "@ + e
                + ". Remove it unless you meant to change the multisig itself."@,
            None =>
                "Addressed to the Safe that would execute it, and this wallet doesn't recognise the call. Run this way it acts as the Safe on itself."@,
        }
    }
}

/// The networks a switcher offers: the built-in chains, and then the user's
/// own.
pub open spec fn offered_networks(custom: Seq<(u64, Seq<char>)>) -> Seq<(NetworkId, Seq<char>)> {
    Chain::all_chains().map_values(|c: Chain| (NetworkId::Builtin(c), c.name_text()))
        + custom.map_values(|n: (u64, Seq<char>)| (NetworkId::Custom(n.0), n.1))
}

impl Pane {
    /// Whether the composed call can be queued or sent.
    pub open spec fn compose_valid(self, checks: ComposeChecks) -> bool {
        match self.mode {
            Mode::Write => match self.selected_method() {
                Some(m) => self.composer.args.len() == m.inputs.len() && checks.args && (!m.payable
                    || checks.value),
                None => false,
            },
            Mode::Raw => checks.raw_to && checks.raw_value && checks.raw_data,
            Mode::Read => false,
        }
    }

    /// Whether the composed query can be run.
    pub open spec fn read_valid(self, args_valid: bool) -> bool {
        match self.selected_read_method() {
            Some(m) => self.reader.args.len() == m.inputs.len() && args_valid,
            None => false,
        }
    }

    /// The note on a queued call that targets the acting account.
    pub open spec fn self_admin_note(
        self,
        c: CallModel,
        effect: Option<Seq<char>>,
    ) -> Option<Seq<char>> {
        if c.to == self.owner {
            Some(self_call_note(self.ctx.is_safe, effect))
        } else {
            None
        }
    }
}

/// The name configured for a custom network.
fn find_network(nets: &Vec<(u64, String)>, id: u64) -> (r: Option<String>)
    ensures
        crate::text::model_of(r) == configured_name(models(nets@), id),
{
    let mut i: usize = 0;
    proof {
        assert(models(nets@).skip(0) =~= models(nets@));
    }
    while i < nets.len()
        invariant
            i <= nets@.len(),
            configured_name(models(nets@), id) == configured_name(
                models(nets@).skip(i as int),
                id,
            ),
        decreases nets@.len() - i,
    {
        let ghost rest = models(nets@).skip(i as int);
        proof {
            assert(rest[0] == models(nets@)[i as int]);
            assert(rest.drop_first() =~= models(nets@).skip(i + 1));
        }
        if nets[i].0 == id {
            return Some(nets[i].1.clone());
        }
        i = i + 1;
    }
    proof {
        assert(models(nets@).skip(i as int).len() == 0);
    }
    None
}

impl TxBuilderApp {
    /// The active network.
    pub fn selected_net(&self) -> (r: NetworkId)
        ensures
            r == self@.net,
    {
        self.net
    }

    /// The settled outcome, when it belongs to the account and network on
    /// screen; otherwise it is kept but not shown.
    pub fn visible_settled(&self) -> (r: Option<Settled>)
        ensures
            r == self@.visible_settled(),
    {
        match &self.settled {
            Some(s) => if s.identity == self.owner && s.net == self.net {
                Some(s.outcome)
            } else {
                None
            },
            None => None,
        }
    }

    /// The settled outcome as the user sees it.
    pub fn settled_state(&self) -> (r: Option<Settled>)
        ensures
            r == self@.visible_settled(),
    {
        self.visible_settled()
    }

    /// The text of the error banner.
    pub fn error_text(&self) -> (r: Option<&str>)
        ensures
            match r {
                Some(s) => self@.error == Some(s@),
                None => self@.error is None,
            },
    {
        match &self.error {
            Some(e) => Some(e.as_str()),
            None => None,
        }
    }

    /// Whether the account can run several calls atomically.
    pub fn can_batch(&self) -> (r: bool)
        ensures
            r == self@.can_batch(),
    {
        self.ctx.is_safe || self.ctx.eoa_can_batch
    }

    /// Whether the account can sign at all.
    pub fn can_sign(&self) -> (r: bool)
        ensures
            r == (self@.ctx.is_safe || self@.ctx.can_sign),
    {
        self.ctx.is_safe || self.ctx.can_sign
    }

    /// Whether the queue is wrapped in allowance resets.
    pub fn flash_wrapped(&self) -> (r: bool)
        ensures
            r == self@.flash_wrapped(),
    {
        self.queue.auto_revoke && self.can_batch()
    }

    /// The calls to simulate, review and sign. The resets come from `wrap` and
    /// are never stored in the queue.
    pub fn effective_calls(&self, wrap: &FlashWrap) -> (r: Vec<QueuedCall>)
        ensures
            models(r@) == self@.effective_calls(*wrap),
    {
        if self.flash_wrapped() {
            replicate(&wrap.calls)
        } else {
            replicate(&self.queue.batch)
        }
    }

    /// How many calls would be simulated, reviewed and signed.
    fn effective_len(&self, wrap: &FlashWrap) -> (r: usize)
        ensures
            r == self@.effective_calls(*wrap).len(),
    {
        if self.flash_wrapped() {
            wrap.calls.len()
        } else {
            self.queue.batch.len()
        }
    }

    /// The calls to simulate, review and sign, unless there are more than one
    /// transaction carries.
    pub fn effective_calls_checked(&self, wrap: &FlashWrap) -> (r: Result<Vec<QueuedCall>, String>)
        ensures
            ({
                let calls = self@.effective_calls(*wrap);
                match r {
                    Ok(c) => calls.len() <= MAX_BATCH_CALLS && models(c@) == calls,
                    Err(e) => calls.len() > MAX_BATCH_CALLS && e@ == wrap_refusal(
                        self@.queue.batch.len(),
                        calls.len(),
                    ),
                }
            }),
    {
        let n: usize = self.effective_len(wrap);
        if n <= MAX_BATCH_CALLS {
            return Ok(self.effective_calls(wrap));
        }
        let mut s: String = "With \"revoke approvals after batch\" on, these ".to_owned();
        s.append(decimal_usize(self.queue.batch.len()).as_str());
        s.append(" calls become ");
        s.append(decimal_usize(n).as_str());
        s.append(
            " — one reset before and one after each approval — and this wallet runs at most ",
        );
        s.append(decimal_usize(MAX_BATCH_CALLS).as_str());
        s.append(" in a transaction. Turn the toggle off, or split the batch.");
        Err(s)
    }

    /// Names a simulated step in terms the user can point at: by its number on
    /// the queue cards, or as one of the resets around the queue. `opens` is
    /// how many resets run before the queue.
    pub fn describe_step(&self, step: usize, opens: usize) -> (r: String)
        requires
            step < usize::MAX,
        ensures
            r@ == self@.step_text(step, opens),
    {
        if !self.flash_wrapped() {
            let mut s: String = "call #".to_owned();
            s.append(decimal_usize(step + 1).as_str());
            return s;
        }
        if step < opens {
            "the allowance reset flash approval runs before the batch".to_owned()
        } else if step - opens < self.queue.batch.len() {
            let mut s: String = "call #".to_owned();
            s.append(decimal_usize(step - opens + 1).as_str());
            s
        } else {
            "the approval revoke flash approval runs after the batch".to_owned()
        }
    }

    /// Whether the held verdict has aged past [`PREFLIGHT_STALE_AFTER`]. A
    /// verdict without a time reads as fresh.
    pub fn sim_is_stale(&self, now: u64) -> (r: bool)
        ensures
            r == self@.sim.is_stale(now),
    {
        match self.sim.at {
            Some(t) => now >= t && now - t >= PREFLIGHT_STALE_AFTER,
            None => false,
        }
    }

    /// The verdict on the batch as it stands. Every edit drops the simulation,
    /// so a present one describes the current queue.
    pub fn preflight(&self, now: u64, opens: usize) -> (r: Preflight)
        requires
            self@.sim.result matches Some(s) ==> failing_step(s) matches Some(step) ==> step < usize::MAX,
        ensures
            r@ == self@.preflight(now, opens),
    {
        let none: Preflight = if self.net.builtin().is_some() {
            Preflight::Missing
        } else {
            Preflight::Unsupported
        };
        match &self.sim.result {
            None => none,
            Some(sim) => match &sim.outcome {
                BatchOutcome::Success => match sim.gas_fit() {
                    GasFit::Exceeds { gas_used, block_gas_limit } => Preflight::TooMuchGas {
                        gas_used,
                        block_gas_limit,
                    },
                    _ => Preflight::Passed {
                        stale: self.sim_is_stale(now),
                        verified: sim.verified,
                    },
                },
                BatchOutcome::Revert { step, reason } => Preflight::Fails {
                    at: self.describe_step(*step, opens),
                    reason: reason.clone(),
                },
                BatchOutcome::Halt { step, reason } => Preflight::Fails {
                    at: self.describe_step(*step, opens),
                    reason: reason.clone(),
                },
                BatchOutcome::Error(reason) => Preflight::Errored { reason: reason.clone() },
                BatchOutcome::Unavailable => none,
            },
        }
    }

    /// What the verdict on screen does not cover, for the batch shape actually
    /// queued.
    pub fn sim_blind_spots(&self, wrap: &FlashWrap) -> (r: Vec<String>)
        ensures
            models(r@) == self@.blind_spots(self@.effective_calls(*wrap).len()),
    {
        let n: usize = self.effective_len(wrap);
        let mut out: Vec<String> = Vec::new();
        if self.ctx.is_safe {
            out.push(
                "the execTransaction wrapper — its signature checks, and any transaction guard installed on this Safe".to_owned(),
            );
            out.push(
                "tx.origin, which is the Safe here and the broadcasting account on chain".to_owned(),
            );
        } else if n > 1 {
            out.push(
                "the delegation designator, if this transaction is the one installing it — a callee reading msg.sender.code.length sees the opposite here".to_owned(),
            );
        }
        if n > 1 {
            out.push(
                "transient storage (EIP-1153), wiped between steps here and kept for the whole transaction on chain".to_owned(),
            );
        }
        proof {
            assert(models(out@) =~= self@.blind_spots(n as nat));
        }
        out
    }

    /// The note on a queued call that targets the acting account. `effect` is
    /// what the calldata would do to a Safe, where that is recognised.
    pub fn self_admin_note(&self, c: &QueuedCall, effect: &Option<String>) -> (r: Option<String>)
        ensures
            crate::text::model_of(r) == self@.self_admin_note(
                c@,
                crate::text::model_of(*effect),
            ),
    {
        if c.to != self.owner {
            return None;
        }
        if !self.ctx.is_safe {
            return Some("This call is addressed to the account that would send it.".to_owned());
        }
        Some(
            match effect {
                Some(e) => {
                    let mut s: String = "Runs as the Safe and ".to_owned();
                    s.append(e.as_str());
                    s.append(". Remove it unless you meant to change the multisig itself.");
                    s
                },
                None =>
                    "Addressed to the Safe that would execute it, and this wallet doesn't recognise the call. Run this way it acts as the Safe on itself.".to_owned(),
            },
        )
    }

    /// How the review's fee estimate is off, for the batch shape actually
    /// queued.
    pub fn fee_caveats(&self, wrap: &FlashWrap) -> (r: Vec<String>)
        ensures
            models(r@) == self@.fee_caveats(self@.effective_calls(*wrap).len()),
    {
        let n: usize = self.effective_len(wrap);
        let mut out: Vec<String> = Vec::new();
        out.push("excludes the priority tip, which every transaction also pays".to_owned());
        if self.net == NetworkId::Builtin(Chain::Base) || self.net == NetworkId::Builtin(
            Chain::Optimism,
        ) {
            out.push(
                "excludes the L1 data fee, which on this chain is often the larger half of the total".to_owned(),
            );
        }
        if self.ctx.is_safe {
            out.push(
                "excludes the execTransaction wrapper and its per-owner signature checks".to_owned(),
            );
            out.push("excludes the MultiSend dispatch loop".to_owned());
        } else if n > 1 {
            out.push("excludes the executeBatch dispatch loop".to_owned());
        }
        if n > 1 {
            out.push(
                "counts the 21,000 intrinsic gas once per call, where the real transaction pays it once in total".to_owned(),
            );
        }
        proof {
            assert(models(out@) =~= self@.fee_caveats(n as nat));
        }
        out
    }

    /// The method selected in the Write composer.
    pub fn selected_method(&self) -> (r: Option<&AbiMethod>)
        ensures
            match r {
                Some(m) => self@.selected_method() == Some(m@),
                None => self@.selected_method() is None,
            },
    {
        self.composer.selected_method()
    }

    /// The method selected in the Read composer.
    pub fn selected_read_method(&self) -> (r: Option<&AbiMethod>)
        ensures
            match r {
                Some(m) => self@.selected_read_method() == Some(m@),
                None => self@.selected_read_method() is None,
            },
    {
        self.reader.selected(&self.composer.loaded)
    }

    /// Whether the active network is one the user added.
    pub fn is_custom(&self) -> (r: bool)
        ensures
            r == self@.is_custom(),
    {
        self.net.is_custom()
    }

    /// Whether the batch is shown beside the composer. A custom network sends
    /// one transaction at a time.
    pub fn batch_layout(&self) -> (r: bool)
        ensures
            r == !self@.is_custom(),
    {
        !self.is_custom()
    }

    /// The label of the active network.
    pub fn net_display_name(&self) -> (r: String)
        ensures
            r@ == self@.net_name(),
    {
        match self.net {
            NetworkId::Builtin(c) => c.display_name().to_owned(),
            NetworkId::Custom(id) => match find_network(&self.ctx.custom_networks, id) {
                Some(n) => n,
                None => {
                    let mut s: String = "Chain ".to_owned();
                    s.append(decimal(id).as_str());
                    s
                },
            },
        }
    }

    /// Whether a custom network is among the enabled ones.
    pub(crate) fn knows_network(&self, id: u64) -> (r: bool)
        ensures
            r == (configured_name(self@.ctx.custom_networks, id) is Some),
    {
        find_network(&self.ctx.custom_networks, id).is_some()
    }

    /// The switcher's options.
    pub fn network_options(&self) -> (r: Vec<(NetworkId, String)>)
        ensures
            models(r@) == offered_networks(self@.ctx.custom_networks),
    {
        let mut out: Vec<(NetworkId, String)> = Vec::new();
        out.push((NetworkId::Builtin(Chain::Mainnet), Chain::Mainnet.display_name().to_owned()));
        out.push((NetworkId::Builtin(Chain::Base), Chain::Base.display_name().to_owned()));
        out.push((NetworkId::Builtin(Chain::Optimism), Chain::Optimism.display_name().to_owned()));
        let ghost all = offered_networks(self@.ctx.custom_networks);
        let nets: &Vec<(u64, String)> = &self.ctx.custom_networks;
        let mut i: usize = 0;
        proof {
            assert(models(out@) =~= all.take(3));
        }
        while i < nets.len()
            invariant
                i <= nets@.len(),
                models(nets@) == self@.ctx.custom_networks,
                all == offered_networks(self@.ctx.custom_networks),
                out@.len() == 3 + i,
                models(out@) =~= all.take(3 + i),
            decreases nets@.len() - i,
        {
            out.push((NetworkId::Custom(nets[i].0), nets[i].1.clone()));
            proof {
                assert(all[3 + i] == (
                    NetworkId::Custom(models(nets@)[i as int].0),
                    models(nets@)[i as int].1,
                ));
            }
            i = i + 1;
        }
        proof {
            assert(all.take(3 + i) =~= all);
        }
        out
    }

    /// Whether the composed call is valid and can be queued or sent.
    pub fn compose_valid(&self, checks: ComposeChecks) -> (r: bool)
        ensures
            r == self@.compose_valid(checks),
    {
        match self.mode {
            Mode::Write => match self.selected_method() {
                Some(m) => self.composer.args.len() == m.inputs.len() && checks.args && (!m.payable
                    || checks.value),
                None => false,
            },
            Mode::Raw => checks.raw_to && checks.raw_value && checks.raw_data,
            Mode::Read => false,
        }
    }

    /// Whether the composed query is valid.
    pub fn read_valid(&self, args_valid: bool) -> (r: bool)
        ensures
            r == self@.read_valid(args_valid),
    {
        match self.selected_read_method() {
            Some(m) => self.reader.args.len() == m.inputs.len() && args_valid,
            None => false,
        }
    }

    /// The composed call, given how the outside judged its parts, or why there
    /// is none. `address` is what the raw composer's target spells.
    pub fn compose_call(
        &self,
        address: Result<Address, String>,
        call: Result<QueuedCall, String>,
    ) -> (r: Result<QueuedCall, String>)
        ensures
            match r {
                Ok(c) => self@.composed(address, call) == Ok::<CallModel, Seq<char>>(c@),
                Err(e) => self@.composed(address, call) == Err::<CallModel, Seq<char>>(e@),
            },
    {
        match self.mode {
            Mode::Write => match self.selected_method() {
                None => Err("no method selected".to_owned()),
                Some(_) => call,
            },
            Mode::Raw => match address {
                Ok(_) => call,
                Err(e) => Err(e),
            },
            Mode::Read => Err("read methods are not sent".to_owned()),
        }
    }

    /// The Safe's version, if it is one this pane cannot sign for.
    pub fn safe_version_block(&self, gate: &VersionGate) -> (r: Option<String>)
        ensures
            crate::text::model_of(r) == self@.version_block(*gate),
    {
        if !self.ctx.is_safe {
            return None;
        }
        if self.ctx.safe_version.is_none() {
            return Some(
                "Kao hasn't read this Safe's contract version. That version picks both the signing domain and the MultiSend library the batch runs through, so there is nothing safe to assume — reopen the Safe to refresh it.".to_owned(),
            );
        }
        match &gate.unsignable {
            Some(e) => Some(e.clone()),
            None => match &gate.unroutable {
                Some(e) => {
                    let mut s: String = e.clone();
                    s.append(
                        ". Every Builder batch runs through MultiSend, including a single call, so this Safe can't send from this pane.",
                    );
                    Some(s)
                },
                None => None,
            },
        }
    }

    /// Why this batch cannot be taken to a signature, if it cannot: no key at
    /// all, or a Safe whose version this wallet does not sign for.
    pub fn no_signer_reason(&self, gate: &VersionGate) -> (r: Option<String>)
        ensures
            crate::text::model_of(r) == self@.no_signer_reason(*gate),
    {
        if !self.can_sign() {
            let mut s: String = short_address(self.owner);
            s.append(
                " is watch-only — Kao holds no key for it, so this batch can't be signed. Compose and simulate freely; to send it, switch to an account with a key.",
            );
            return Some(s);
        }
        self.safe_version_block(gate)
    }
}

} // verus!

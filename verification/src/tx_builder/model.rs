//! The pane as a mathematical state machine. [`Pane`] is the model of
//! [`TxBuilderApp`]; its methods say what each event does to it.

use vstd::prelude::*;

use crate::chain::Chain;
use crate::chain::NetworkId;
use crate::primitives::spelled_address;
use crate::primitives::Address;
use crate::primitives::B256;
use crate::text::dec;
use crate::text::hex_bytes;
use crate::text::model_of;
use crate::text::models;
use crate::text::plural;
use crate::text::trimmed;
use crate::tx_builder::BatchFate;
use crate::tx_builder::Composer;
use crate::tx_builder::Ctx;
use crate::tx_builder::Effect;
use crate::tx_builder::Findings;
use crate::tx_builder::FlashWrap;
use crate::tx_builder::JsonBox;
use crate::tx_builder::Message;
use crate::tx_builder::Modal;
use crate::tx_builder::Mode;
use crate::tx_builder::Queue;
use crate::tx_builder::RawComposer;
use crate::tx_builder::ReadModel;
use crate::tx_builder::ReadReply;
use crate::tx_builder::Reader;
use crate::tx_builder::ResolvedCode;
use crate::tx_builder::RowModel;
use crate::tx_builder::SampleParts;
use crate::tx_builder::Settled;
use crate::tx_builder::SettledFor;
use crate::tx_builder::Shelf;
use crate::tx_builder::SimState;
use crate::tx_builder::TxBuilderApp;
use crate::tx_builder::Verdict;
use crate::tx_builder::VersionGate;
use crate::tx_builder::ADDRESS_TEXT_LEN;
use crate::tx_builder::PREFLIGHT_STALE_AFTER;
use crate::txbuilder::merged;
use crate::txbuilder::AbiSource;
use crate::txbuilder::BatchSimResult;
use crate::txbuilder::CallModel;
use crate::txbuilder::ContractModel;
use crate::txbuilder::GasFit;
use crate::txbuilder::LoadedContract;
use crate::txbuilder::MethodModel;
use crate::txbuilder::OutcomeModel;
use crate::txbuilder::ParamModel;
use crate::txbuilder::QueuedCall;
use crate::txbuilder::SimModel;
use crate::txbuilder::TemplateModel;
use crate::txbuilder::MAX_BATCH_CALLS;
use crate::txbuilder::MAX_BUNDLE_BYTES;

verus! {

#[verifier::ext_equal]
pub struct CtxModel {
    pub identity: Option<Address>,
    pub is_safe: bool,
    pub safe_version: Option<Seq<char>>,
    pub eoa_can_batch: bool,
    pub can_sign: bool,
    pub custom_networks: Seq<(u64, Seq<char>)>,
}

impl View for Ctx {
    type V = CtxModel;

    open spec fn view(&self) -> CtxModel {
        CtxModel {
            identity: self.identity,
            is_safe: self.is_safe,
            safe_version: model_of(self.safe_version),
            eoa_can_batch: self.eoa_can_batch,
            can_sign: self.can_sign,
            custom_networks: models(self.custom_networks@),
        }
    }
}

#[verifier::ext_equal]
pub struct ComposerModel {
    pub addr_input: Seq<char>,
    pub loaded: Option<ContractModel>,
    pub resolving: bool,
    pub not_found: bool,
    pub resolve_error: Option<Seq<char>>,
    pub addr_error: Option<Seq<char>>,
    pub proxy_unverified: bool,
    pub nothing_deployed: bool,
    pub proxy_beacon: bool,
    pub paste_open: bool,
    pub abi_paste: Seq<char>,
    pub resolve_target: Option<Address>,
    pub resolve_seq: u64,
    pub method_idx: usize,
    pub method_menu_open: bool,
    pub args: Seq<Seq<char>>,
    pub value_input: Seq<char>,
}

impl View for Composer {
    type V = ComposerModel;

    open spec fn view(&self) -> ComposerModel {
        ComposerModel {
            addr_input: self.addr_input@,
            loaded: model_of(self.loaded),
            resolving: self.resolving,
            not_found: self.not_found,
            resolve_error: model_of(self.resolve_error),
            addr_error: model_of(self.addr_error),
            proxy_unverified: self.proxy_unverified,
            nothing_deployed: self.nothing_deployed,
            proxy_beacon: self.proxy_beacon,
            paste_open: self.paste_open,
            abi_paste: self.abi_paste@,
            resolve_target: self.resolve_target,
            resolve_seq: self.resolve_seq,
            method_idx: self.method_idx,
            method_menu_open: self.method_menu_open,
            args: models(self.args@),
            value_input: self.value_input@,
        }
    }
}

#[verifier::ext_equal]
pub struct ReaderModel {
    pub idx: usize,
    pub menu_open: bool,
    pub args: Seq<Seq<char>>,
    pub seq: u64,
    pub busy: bool,
    pub result: Option<ReadModel>,
}

impl View for Reader {
    type V = ReaderModel;

    open spec fn view(&self) -> ReaderModel {
        ReaderModel {
            idx: self.idx,
            menu_open: self.menu_open,
            args: models(self.args@),
            seq: self.seq,
            busy: self.busy,
            result: model_of(self.result),
        }
    }
}

#[verifier::ext_equal]
pub struct RawModel {
    pub to: Seq<char>,
    pub value: Seq<char>,
    pub data: Seq<char>,
    pub nothing_deployed: bool,
}

impl View for RawComposer {
    type V = RawModel;

    open spec fn view(&self) -> RawModel {
        RawModel {
            to: self.to@,
            value: self.value@,
            data: self.data@,
            nothing_deployed: self.nothing_deployed,
        }
    }
}

#[verifier::ext_equal]
pub struct QueueModel {
    pub batch: Seq<CallModel>,
    pub next_id: u64,
    pub expanded: Option<u64>,
    pub auto_revoke: bool,
}

impl View for Queue {
    type V = QueueModel;

    open spec fn view(&self) -> QueueModel {
        QueueModel {
            batch: models(self.batch@),
            next_id: self.next_id,
            expanded: self.expanded,
            auto_revoke: self.auto_revoke,
        }
    }
}

#[verifier::ext_equal]
pub struct SimStateModel {
    pub result: Option<SimModel>,
    pub at: Option<u64>,
    pub busy: bool,
    pub seq: u64,
}

impl View for SimState {
    type V = SimStateModel;

    open spec fn view(&self) -> SimStateModel {
        SimStateModel {
            result: model_of(self.result),
            at: self.at,
            busy: self.busy,
            seq: self.seq,
        }
    }
}

#[verifier::ext_equal]
pub struct ShelfModel {
    pub templates: Seq<TemplateModel>,
    pub menu_open: bool,
    pub rename_idx: Option<usize>,
    pub rename_buf: Seq<char>,
}

impl View for Shelf {
    type V = ShelfModel;

    open spec fn view(&self) -> ShelfModel {
        ShelfModel {
            templates: models(self.templates@),
            menu_open: self.menu_open,
            rename_idx: self.rename_idx,
            rename_buf: self.rename_buf@,
        }
    }
}

#[verifier::ext_equal]
pub struct JsonModel {
    pub modal: Modal,
    pub text: Seq<char>,
    pub error: Option<Seq<char>>,
}

impl View for JsonBox {
    type V = JsonModel;

    open spec fn view(&self) -> JsonModel {
        JsonModel { modal: self.modal, text: self.text@, error: model_of(self.error) }
    }
}

#[verifier::ext_equal]
pub struct Pane {
    pub owner: Address,
    pub ctx: CtxModel,
    pub net: NetworkId,
    pub net_menu_open: bool,
    pub mode: Mode,
    pub composer: ComposerModel,
    pub reader: ReaderModel,
    pub raw: RawModel,
    pub probe_seq: u64,
    pub queue: QueueModel,
    pub sim: SimStateModel,
    pub shelf: ShelfModel,
    pub json: JsonModel,
    pub settled: Option<SettledFor>,
    pub error: Option<Seq<char>>,
}

impl View for TxBuilderApp {
    type V = Pane;

    open spec fn view(&self) -> Pane {
        Pane {
            owner: self.owner,
            ctx: self.ctx@,
            net: self.net,
            net_menu_open: self.net_menu_open,
            mode: self.mode,
            composer: self.composer@,
            reader: self.reader@,
            raw: self.raw@,
            probe_seq: self.probe_seq,
            queue: self.queue@,
            sim: self.sim@,
            shelf: self.shelf@,
            json: self.json@,
            settled: self.settled,
            error: model_of(self.error),
        }
    }
}

/// The next sequence number.
pub open spec fn bump(seq: u64) -> u64 {
    (seq + 1) as u64
}

/// `n` empty texts.
pub open spec fn blanks(n: nat) -> Seq<Seq<char>> {
    Seq::new(n, |i: int| Seq::<char>::empty())
}

/// A truth value in words.
pub open spec fn bool_text(b: bool) -> Seq<char> {
    if b {
        "true"@
    } else {
        "false"@
    }
}

// ── what the pane says ──────────────────────────────────────────────

/// The queue was dropped because the network changed.
pub open spec fn network_notice(dropped: nat, from: NetworkId, to: NetworkId) -> Seq<char> {
    "Batch cleared — "@ + dec(dropped) + " call"@ + plural(dropped) + " composed for "@
        + from.name_text() + " can't be replayed on "@ + to.name_text() + "."@
}

/// The queue was dropped because the acting account changed.
pub open spec fn identity_notice(dropped: nat, from: Address, to: Address) -> Seq<char> {
    "Batch cleared — "@ + dec(dropped) + " call"@ + plural(dropped) + " composed for "@
        + from.short_text() + " can't be reused as "@ + to.short_text()
        + ": they'd run against a different account's balances and approvals."@
}

/// The wrapped queue is larger than a transaction may be.
pub open spec fn wrap_refusal(queued: nat, wrapped: nat) -> Seq<char> {
    "With \"revoke approvals after batch\" on, these "@ + dec(queued) + " calls become "@ + dec(
        wrapped,
    ) + " — one reset before and one after each approval — and this wallet runs at most "@ + dec(
        MAX_BATCH_CALLS as nat,
    ) + " in a transaction. Turn the toggle off, or split the batch."@
}

/// This account sends one call at a time.
pub open spec fn single_call_refusal() -> Seq<char> {
    "This account sends one call at a time — atomic batching needs a software key or a Ledger (EIP-7702), or a Safe."@
}

/// The queue is full.
pub open spec fn full_refusal() -> Seq<char> {
    "This batch already has "@ + dec(MAX_BATCH_CALLS as nat)
        + " calls — as many as one transaction carries and still gets read before it is signed. Send this batch, then start the next one."@
}

/// The account has no key.
pub open spec fn watch_only_refusal(owner: Address) -> Seq<char> {
    owner.short_text()
        + " is watch-only — Kao holds no key for it, so this batch can't be signed. Compose and simulate freely; to send it, switch to an account with a key."@
}

/// The Safe's version is not known.
pub open spec fn unknown_version_refusal() -> Seq<char> {
    "Kao hasn't read this Safe's contract version. That version picks both the signing domain and the MultiSend library the batch runs through, so there is nothing safe to assume — reopen the Safe to refresh it."@
}

/// The Safe's version has no route for a batch.
pub open spec fn unroutable_refusal(reason: Seq<char>) -> Seq<char> {
    reason
        + ". Every Builder batch runs through MultiSend, including a single call, so this Safe can't send from this pane."@
}

/// A wholesale batch is too long for an account that sends one call at a time.
pub open spec fn adopt_single_refusal(calls: nat) -> Seq<char> {
    "This batch has "@ + dec(calls)
        + " calls, and this account sends one at a time — atomic batching needs a software key or a Ledger (EIP-7702), or a Safe."@
}

/// A wholesale batch is longer than the queue.
pub open spec fn adopt_full_refusal(calls: nat) -> Seq<char> {
    "That batch has "@ + dec(calls) + " calls, and this wallet queues at most "@ + dec(
        MAX_BATCH_CALLS as nat,
    ) + "."@
}

/// A queue was replaced.
pub open spec fn replaced_notice(n: nat) -> Seq<char> {
    "Replaced the "@ + dec(n) + " call"@ + plural(n) + " you had queued."@
}

/// A loaded batch was composed as somebody else.
pub open spec fn drift_notice(what: Seq<char>, from: Address, owner: Address) -> Seq<char> {
    what + " was composed as "@ + from.short_text() + ", and you're composing as "@
        + owner.short_text()
        + ". The calls still point where they did — check any allowance, balance or position they assume belongs to the other account."@
}

/// A template cannot be loaded on a custom network.
pub open spec fn template_refusal(name: Seq<char>, net: NetworkId) -> Seq<char> {
    "\""@ + name + "\" was composed on a built-in chain and can't be loaded on "@ + net.name_text()
        + " — contract addresses don't carry across networks."@
}

/// A custom network's batch cannot be exported.
pub open spec fn export_refusal(net: NetworkId) -> Seq<char> {
    "A batch composed on "@ + net.name_text()
        + " can't be exported — the bundle format identifies its network by chain id, and this one isn't a network Kao verifies."@
}

/// A paste is larger than the import box takes.
pub open spec fn paste_refusal(bytes: nat) -> Seq<char> {
    "that paste is "@ + dec(bytes) + " bytes, and this wallet reads batches up to "@ + dec(
        MAX_BUNDLE_BYTES as nat,
    ) + " — it hasn't been put in the box"@
}

/// A call of the queue, by its number on the cards.
pub open spec fn call_number(n: nat) -> Seq<char> {
    "call #"@ + dec(n)
}

// ── reading the pane ────────────────────────────────────────────────

/// The rows of a query's declared outputs and their decoded values.
pub open spec fn read_rows(outputs: Seq<ParamModel>, values: Seq<Seq<char>>) -> Seq<RowModel> {
    Seq::new(
        if outputs.len() < values.len() {
            outputs.len()
        } else {
            values.len()
        },
        |i: int|
            RowModel {
                name: if outputs[i].name.len() == 0 {
                    "out"@ + dec(i as nat)
                } else {
                    outputs[i].name
                },
                ty: outputs[i].ty_str,
                value: values[i],
            },
    )
}

/// `0x` and the bytes in hexadecimal.
pub open spec fn raw_hex(bytes: Seq<u8>) -> Seq<char> {
    "0x"@ + hex_bytes(bytes)
}

/// Where the call with this id stands in the queue; the queue's length if
/// nowhere.
pub open spec fn position_of(batch: Seq<CallModel>, id: u64) -> int
    decreases batch.len(),
{
    if batch.len() == 0 {
        0
    } else if batch[0].id == id {
        0
    } else {
        1 + position_of(batch.drop_first(), id)
    }
}

/// The queue without the calls of this id.
pub open spec fn without_id(batch: Seq<CallModel>, id: u64) -> Seq<CallModel> {
    batch.filter(|c: CallModel| c.id != id)
}

/// The queue with two calls exchanged.
pub open spec fn swapped(batch: Seq<CallModel>, i: int, j: int) -> Seq<CallModel> {
    batch.update(i, batch[j]).update(j, batch[i])
}

/// The first method of this name.
pub open spec fn method_named(methods: Seq<MethodModel>, name: Seq<char>) -> Option<MethodModel>
    decreases methods.len(),
{
    if methods.len() == 0 {
        None
    } else if methods[0].name == name {
        Some(methods[0])
    } else {
        method_named(methods.drop_first(), name)
    }
}

/// The configured name of a custom network.
pub open spec fn configured_name(nets: Seq<(u64, Seq<char>)>, id: u64) -> Option<Seq<char>>
    decreases nets.len(),
{
    if nets.len() == 0 {
        None
    } else if nets[0].0 == id {
        Some(nets[0].1)
    } else {
        configured_name(nets.drop_first(), id)
    }
}

/// The sample batch: the two calls that could be built, or nothing when a
/// contract or a method of it is not at hand.
pub open spec fn sample_calls(parts: SampleParts) -> Seq<CallModel> {
    match (parts.usdc, parts.aave) {
        (Some(usdc), Some(aave)) => {
            if method_named(usdc@.methods, "approve"@) is Some && method_named(
                aave@.methods,
                "supply"@,
            ) is Some {
                (match parts.approve {
                    Ok(c) => seq![c@],
                    Err(_) => seq![],
                }) + (match parts.supply {
                    Ok(c) => seq![c@],
                    Err(_) => seq![],
                })
            } else {
                seq![]
            }
        },
        _ => seq![],
    }
}

/// The step a simulation failed at.
pub open spec fn failing_step(sim: SimModel) -> Option<usize> {
    match sim.outcome {
        OutcomeModel::Revert { step, .. } => Some(step),
        OutcomeModel::Halt { step, .. } => Some(step),
        _ => None,
    }
}

impl ComposerModel {
    /// A composer nobody has touched.
    pub open spec fn fresh() -> ComposerModel {
        ComposerModel {
            addr_input: seq![],
            loaded: None,
            resolving: false,
            not_found: false,
            resolve_error: None,
            addr_error: None,
            proxy_unverified: false,
            nothing_deployed: false,
            proxy_beacon: false,
            paste_open: false,
            abi_paste: seq![],
            resolve_target: None,
            resolve_seq: 0,
            method_idx: 0,
            method_menu_open: false,
            args: seq![],
            value_input: "0"@,
        }
    }

    pub open spec fn selected_method(self) -> Option<MethodModel> {
        match self.loaded {
            Some(c) => if self.method_idx < c.methods.len() {
                Some(c.methods[self.method_idx as int])
            } else {
                None
            },
            None => None,
        }
    }

    /// One empty argument for each parameter of the selected method.
    pub open spec fn reset_args(self) -> ComposerModel {
        ComposerModel {
            args: match self.selected_method() {
                Some(m) => blanks(m.inputs.len()),
                None => blanks(0),
            },
            value_input: "0"@,
            ..self
        }
    }

    /// Retires a resolve in flight and forgets the contract, but keeps the
    /// address text.
    pub open spec fn reset_keep_addr(self) -> ComposerModel {
        ComposerModel {
            resolve_seq: bump(self.resolve_seq),
            loaded: None,
            resolving: false,
            not_found: false,
            resolve_error: None,
            addr_error: None,
            proxy_unverified: false,
            proxy_beacon: false,
            nothing_deployed: false,
            paste_open: false,
            resolve_target: None,
            method_idx: 0,
            method_menu_open: false,
            args: seq![],
            value_input: "0"@,
            ..self
        }
    }

    /// As [`Self::reset_keep_addr`], and the address text goes too.
    pub open spec fn reset(self) -> ComposerModel {
        ComposerModel { addr_input: seq![], ..self }.reset_keep_addr()
    }

    /// Retires a resolve in flight and installs a contract. A bytecode load
    /// keeps the proxy cautions; nothing here says whether anything is
    /// deployed.
    pub open spec fn install(self, c: ContractModel) -> ComposerModel {
        let keeps = c.source == AbiSource::Bytecode;
        ComposerModel {
            resolve_seq: bump(self.resolve_seq),
            resolving: false,
            not_found: false,
            resolve_error: None,
            proxy_unverified: keeps && self.proxy_unverified,
            proxy_beacon: keeps && self.proxy_beacon,
            paste_open: false,
            resolve_target: Some(c.address),
            method_idx: 0,
            method_menu_open: false,
            loaded: Some(c),
            ..self
        }.reset_args()
    }
}

impl ReaderModel {
    /// A reader nobody has touched.
    pub open spec fn fresh() -> ReaderModel {
        ReaderModel {
            idx: 0,
            menu_open: false,
            args: seq![],
            seq: 0,
            busy: false,
            result: None,
        }
    }

    /// Retires a query in flight and its result.
    pub open spec fn invalidate(self) -> ReaderModel {
        ReaderModel { seq: bump(self.seq), busy: false, result: None, ..self }
    }

    /// As [`Self::invalidate`], and the selection and the arguments go too.
    pub open spec fn reset(self) -> ReaderModel {
        ReaderModel { idx: 0, menu_open: false, args: seq![], ..self.invalidate() }
    }

    /// The query selected in a contract.
    pub open spec fn selected(self, loaded: Option<ContractModel>) -> Option<MethodModel> {
        match loaded {
            Some(c) => if self.idx < c.read_methods.len() {
                Some(c.read_methods[self.idx as int])
            } else {
                None
            },
            None => None,
        }
    }

    /// One empty argument for each parameter of the selected query.
    pub open spec fn reset_args(self, loaded: Option<ContractModel>) -> ReaderModel {
        ReaderModel {
            args: match self.selected(loaded) {
                Some(m) => blanks(m.inputs.len()),
                None => blanks(0),
            },
            ..self
        }
    }
}

impl SimStateModel {
    /// Retires a simulation in flight and its result.
    pub open spec fn invalidate(self) -> SimStateModel {
        SimStateModel { result: None, at: None, busy: false, seq: bump(self.seq) }
    }

    /// Whether the held result is too old to rely on.
    pub open spec fn is_stale(self, now: u64) -> bool {
        match self.at {
            Some(t) => now - t >= PREFLIGHT_STALE_AFTER,
            None => false,
        }
    }
}

impl ShelfModel {
    pub open spec fn cancel_rename(self) -> ShelfModel {
        ShelfModel { rename_idx: None, rename_buf: seq![], ..self }
    }
}

impl JsonModel {
    /// The overlay closes and what was in it goes.
    pub open spec fn closed() -> JsonModel {
        JsonModel { modal: Modal::Closed, text: seq![], error: None }
    }
}

impl Pane {
    /// A pane nobody has touched.
    pub open spec fn fresh(owner: Address) -> Pane {
        Pane {
            owner,
            ctx: CtxModel {
                identity: None,
                is_safe: false,
                safe_version: None,
                eoa_can_batch: false,
                can_sign: false,
                custom_networks: seq![],
            },
            net: NetworkId::Builtin(Chain::Mainnet),
            net_menu_open: false,
            mode: Mode::Write,
            composer: ComposerModel::fresh(),
            reader: ReaderModel::fresh(),
            raw: RawModel { to: seq![], value: "0"@, data: seq![], nothing_deployed: false },
            probe_seq: 0,
            queue: QueueModel { batch: seq![], next_id: 1, expanded: None, auto_revoke: false },
            sim: SimStateModel { result: None, at: None, busy: false, seq: 0 },
            shelf: ShelfModel {
                templates: seq![],
                menu_open: false,
                rename_idx: None,
                rename_buf: seq![],
            },
            json: JsonModel::closed(),
            settled: None,
            error: None,
        }
    }

    /// The counters have not run out, and a failing step can be numbered from
    /// one.
    pub open spec fn room(self) -> bool {
        &&& self.composer.resolve_seq <= u64::MAX - 2
        &&& self.reader.seq <= u64::MAX - 2
        &&& self.sim.seq <= u64::MAX - 2
        &&& self.probe_seq <= u64::MAX - 2
        &&& self.queue.next_id <= u64::MAX - MAX_BATCH_CALLS
        &&& self.sim.result matches Some(s) ==> failing_step(s) matches Some(step) ==> step
            < usize::MAX
    }

    pub open spec fn selected_method(self) -> Option<MethodModel> {
        self.composer.selected_method()
    }

    pub open spec fn selected_read_method(self) -> Option<MethodModel> {
        self.reader.selected(self.composer.loaded)
    }

    /// Whether the account can run several calls atomically.
    pub open spec fn can_batch(self) -> bool {
        self.ctx.is_safe || self.ctx.eoa_can_batch
    }

    /// Whether the queue is wrapped in allowance resets.
    pub open spec fn flash_wrapped(self) -> bool {
        self.queue.auto_revoke && self.can_batch()
    }

    /// The calls to simulate, review and sign.
    pub open spec fn effective_calls(self, wrap: FlashWrap) -> Seq<CallModel> {
        if self.flash_wrapped() {
            models(wrap.calls@)
        } else {
            self.queue.batch
        }
    }

    /// Whether the active network is one the user added.
    pub open spec fn is_custom(self) -> bool {
        self.net is Custom
    }

    /// The label of the active network.
    pub open spec fn net_name(self) -> Seq<char> {
        match self.net {
            NetworkId::Builtin(c) => c.name_text(),
            NetworkId::Custom(id) => match configured_name(self.ctx.custom_networks, id) {
                Some(n) => n,
                None => "Chain "@ + dec(id as nat),
            },
        }
    }

    /// A step of the simulated calls, in words the user can point at.
    pub open spec fn step_text(self, step: usize, opens: usize) -> Seq<char> {
        if !self.flash_wrapped() {
            call_number((step + 1) as nat)
        } else if step < opens {
            "the allowance reset flash approval runs before the batch"@
        } else if step - opens < self.queue.batch.len() {
            call_number((step - opens + 1) as nat)
        } else {
            "the approval revoke flash approval runs after the batch"@
        }
    }

    /// Without a verdict there is a gap where the network can simulate, and
    /// nothing to say where it cannot.
    pub open spec fn no_verdict(self) -> Verdict {
        if self.net is Builtin {
            Verdict::Missing
        } else {
            Verdict::Unsupported
        }
    }

    /// The verdict on the batch as it stands.
    pub open spec fn preflight(self, now: u64, opens: usize) -> Verdict {
        match self.sim.result {
            None => self.no_verdict(),
            Some(sim) => match sim.outcome {
                OutcomeModel::Success => match sim.fit() {
                    GasFit::Exceeds { gas_used, block_gas_limit } => Verdict::TooMuchGas {
                        gas_used,
                        block_gas_limit,
                    },
                    _ => Verdict::Passed { stale: self.sim.is_stale(now), verified: sim.verified },
                },
                OutcomeModel::Revert { step, reason } => Verdict::Fails {
                    at: self.step_text(step, opens),
                    reason,
                },
                OutcomeModel::Halt { step, reason } => Verdict::Fails {
                    at: self.step_text(step, opens),
                    reason,
                },
                OutcomeModel::Error(reason) => Verdict::Errored { reason },
                OutcomeModel::Unavailable => self.no_verdict(),
            },
        }
    }

    /// How the fee estimate is off, for a transaction of `calls` calls.
    pub open spec fn fee_caveats(self, calls: nat) -> Seq<Seq<char>> {
        seq!["excludes the priority tip, which every transaction also pays"@] + (if self.net
            == NetworkId::Builtin(Chain::Base) || self.net == NetworkId::Builtin(Chain::Optimism) {
            seq![
                "excludes the L1 data fee, which on this chain is often the larger half of the total"@,
            ]
        } else {
            seq![]
        }) + (if self.ctx.is_safe {
            seq![
                "excludes the execTransaction wrapper and its per-owner signature checks"@,
                "excludes the MultiSend dispatch loop"@,
            ]
        } else if calls > 1 {
            seq!["excludes the executeBatch dispatch loop"@]
        } else {
            seq![]
        }) + (if calls > 1 {
            seq![
                "counts the 21,000 intrinsic gas once per call, where the real transaction pays it once in total"@,
            ]
        } else {
            seq![]
        })
    }

    /// What a simulation of `calls` calls does not cover.
    pub open spec fn blind_spots(self, calls: nat) -> Seq<Seq<char>> {
        (if self.ctx.is_safe {
            seq![
                "the execTransaction wrapper — its signature checks, and any transaction guard installed on this Safe"@,
                "tx.origin, which is the Safe here and the broadcasting account on chain"@,
            ]
        } else if calls > 1 {
            seq![
                "the delegation designator, if this transaction is the one installing it — a callee reading msg.sender.code.length sees the opposite here"@,
            ]
        } else {
            seq![]
        }) + (if calls > 1 {
            seq![
                "transient storage (EIP-1153), wiped between steps here and kept for the whole transaction on chain"@,
            ]
        } else {
            seq![]
        })
    }

    /// Why the Safe's version keeps the pane from signing, if it does.
    pub open spec fn version_block(self, gate: VersionGate) -> Option<Seq<char>> {
        if !self.ctx.is_safe {
            None
        } else if self.ctx.safe_version is None {
            Some(unknown_version_refusal())
        } else {
            match gate.unsignable {
                Some(e) => Some(e@),
                None => match gate.unroutable {
                    Some(e) => Some(unroutable_refusal(e@)),
                    None => None,
                },
            }
        }
    }

    /// Why the batch cannot be taken to a signature, if it cannot.
    pub open spec fn no_signer_reason(self, gate: VersionGate) -> Option<Seq<char>> {
        if !self.ctx.is_safe && !self.ctx.can_sign {
            Some(watch_only_refusal(self.owner))
        } else {
            self.version_block(gate)
        }
    }

    /// The outcome of the last batch, when it belongs to the account and
    /// network on screen.
    pub open spec fn visible_settled(self) -> Option<Settled> {
        match self.settled {
            Some(s) => if s.identity == self.owner && s.net == self.net {
                Some(s.outcome)
            } else {
                None
            },
            None => None,
        }
    }

    /// The composed call, or why there is none.
    pub open spec fn composed(
        self,
        address: Result<Address, String>,
        call: Result<QueuedCall, String>,
    ) -> Result<CallModel, Seq<char>> {
        let built = match call {
            Ok(c) => Ok(c@),
            Err(e) => Err(e@),
        };
        match self.mode {
            Mode::Write => if self.selected_method() is None {
                Err("no method selected"@)
            } else {
                built
            },
            Mode::Raw => match address {
                Ok(_) => built,
                Err(e) => Err(e@),
            },
            Mode::Read => Err("read methods are not sent"@),
        }
    }

    // ── changing the pane ───────────────────────────────────────────

    /// The batch as a list of calls.
    pub open spec fn with_batch(self, batch: Seq<CallModel>) -> Pane {
        Pane { queue: QueueModel { batch, ..self.queue }, ..self }
    }

    /// Retires a simulation in flight and its verdict.
    pub open spec fn invalidate_sim(self) -> Pane {
        Pane { sim: self.sim.invalidate(), ..self }
    }

    /// Forgets the contract but keeps the address text.
    pub open spec fn reset_composer_keep_addr(self) -> Pane {
        Pane { composer: self.composer.reset_keep_addr(), reader: self.reader.reset(), ..self }
    }

    /// Forgets the contract and the address text.
    pub open spec fn reset_composer(self) -> Pane {
        Pane { composer: self.composer.reset(), reader: self.reader.reset(), ..self }
    }

    /// Installs a contract.
    pub open spec fn set_loaded(self, c: ContractModel) -> Pane {
        Pane {
            composer: self.composer.install(c),
            reader: self.reader.reset().reset_args(Some(c)),
            ..self
        }
    }

    pub open spec fn cancel_rename(self) -> Pane {
        Pane { shelf: self.shelf.cancel_rename(), ..self }
    }

    /// The queue is dropped; `notice` says so if there was anything in it.
    pub open spec fn dropping_queue(self, notice: Seq<char>) -> Pane {
        Pane {
            net_menu_open: false,
            queue: QueueModel { batch: seq![], expanded: None, ..self.queue },
            error: if self.queue.batch.len() > 0 {
                Some(notice)
            } else {
                None
            },
            ..self.reset_composer().invalidate_sim()
        }
    }

    /// The network changed from `from` to the active one.
    pub open spec fn network_reset(self, from: NetworkId) -> Pane {
        self.dropping_queue(network_notice(self.queue.batch.len(), from, self.net))
    }

    /// The acting account changed.
    pub open spec fn identity_reset(self, from: Address, to: Address) -> Pane {
        Pane {
            shelf: ShelfModel { menu_open: false, ..self.shelf.cancel_rename() },
            ..self.dropping_queue(identity_notice(self.queue.batch.len(), from, to))
        }
    }

    /// The network moved underneath the composer.
    pub open spec fn repin(self, from: NetworkId, explained: bool) -> Pane {
        if explained {
            Pane { net_menu_open: false, ..self.reset_composer().invalidate_sim() }
        } else {
            self.network_reset(from)
        }
    }

    /// Moves the selector to `net`, if it is not there.
    pub open spec fn pinned_to(self, net: NetworkId, explained: bool) -> Pane {
        if self.net == net {
            self
        } else {
            Pane { net, ..self }.repin(self.net, explained)
        }
    }

    /// The acting account is now `to`; a change of it drops the queue.
    pub open spec fn acting_as(self, prev: Option<Address>, to: Address) -> Pane {
        match prev {
            Some(from) if from != to => self.identity_reset(from, to),
            _ => self,
        }
    }

    /// A Safe pins the network to its own chain; a custom network that is no
    /// longer enabled falls back to Mainnet.
    pub open spec fn following(self, chain: Chain, explained: bool) -> Pane {
        if self.ctx.is_safe {
            self.pinned_to(NetworkId::Builtin(chain), explained)
        } else {
            match self.net {
                NetworkId::Custom(id) if configured_name(self.ctx.custom_networks, id) is None =>
                    self.pinned_to(NetworkId::Builtin(Chain::Mainnet), explained),
                _ => self,
            }
        }
    }

    /// The coordinator's refresh.
    pub open spec fn set_context(self, ctx: CtxModel, chain: Chain) -> Pane {
        let prev = self.ctx.identity;
        let to = ctx.identity->0;
        let moved = prev is Some && prev->0 != to;
        Pane { ctx, owner: to, ..self }.acting_as(prev, to).following(
            chain,
            moved && self.queue.batch.len() > 0,
        )
    }

    /// The contract recovered from bytecode joins what is on screen: it fills
    /// in a declared contract, replaces a recovered one, and leaves an address
    /// without any contract marked as not found.
    pub open spec fn recovered(self, found: Option<ContractModel>) -> Pane {
        match found {
            Some(f) => match self.composer.loaded {
                Some(c) => if c.source != AbiSource::Bytecode {
                    self.set_loaded(merged(c, f))
                } else {
                    self.set_loaded(f)
                },
                None => self.set_loaded(f),
            },
            None => Pane {
                composer: ComposerModel {
                    not_found: self.composer.not_found || self.composer.loaded is None,
                    ..self.composer
                },
                ..self
            },
        }
    }

    /// Whether the contract on screen stands at the target.
    pub open spec fn on_target(self) -> bool {
        self.composer.loaded matches Some(c) ==> self.composer.resolve_target == Some(c.address)
    }

    /// The code of the target came back, and `found` was recovered from it.
    /// Calls still go to the target, whatever the code belongs to.
    pub open spec fn code_taken(self, r: ResolvedCode, found: Option<ContractModel>) -> Pane {
        let target = self.composer.resolve_target->0;
        let p = Pane {
            composer: ComposerModel {
                resolving: false,
                proxy_unverified: !r.all_verified,
                proxy_beacon: r.beacon,
                ..self.composer
            },
            ..self
        }.recovered(
            match found {
                Some(f) => Some(f.recovered_at(target, r.implementation)),
                None => None,
            },
        );
        Pane {
            composer: ComposerModel { nothing_deployed: r.nothing_deployed, ..p.composer },
            ..p
        }
    }

    /// The answer to a resolve.
    pub open spec fn contract_resolved(
        self,
        seq: u64,
        result: Result<ResolvedCode, String>,
        found: Option<ContractModel>,
    ) -> Pane {
        if seq != self.composer.resolve_seq {
            self
        } else if self.composer.resolve_target is None {
            Pane { composer: ComposerModel { resolving: false, ..self.composer }, ..self }
        } else {
            match result {
                Ok(r) => self.code_taken(r, found),
                Err(e) => Pane {
                    composer: ComposerModel {
                        resolving: false,
                        resolve_error: Some(e@),
                        ..self.composer
                    },
                    ..self
                },
            }
        }
    }

    /// The answer to a code probe; a failed probe is silent.
    pub open spec fn code_probed(
        self,
        seq: u64,
        address: Address,
        result: Result<bool, String>,
    ) -> Pane {
        match result {
            Ok(has_code) if seq == self.probe_seq => Pane {
                raw: RawModel {
                    nothing_deployed: if spelled_address(trimmed(self.raw.to)) == Some(address) {
                        !has_code
                    } else {
                        self.raw.nothing_deployed
                    },
                    ..self.raw
                },
                composer: ComposerModel {
                    nothing_deployed: if self.composer.resolve_target == Some(address) {
                        !has_code
                    } else {
                        self.composer.nothing_deployed
                    },
                    ..self.composer
                },
                ..self
            },
            _ => self,
        }
    }

    /// The answer to a simulation.
    pub open spec fn sim_landed(
        self,
        seq: u64,
        result: Result<BatchSimResult, String>,
        now: u64,
    ) -> Pane {
        if seq != self.sim.seq {
            self
        } else {
            Pane {
                sim: SimStateModel {
                    busy: false,
                    result: Some(
                        match result {
                            Ok(r) => r@,
                            Err(e) => SimModel::failed(e@),
                        },
                    ),
                    at: Some(now),
                    seq,
                },
                ..self
            }
        }
    }

    /// How a query's reply is shown, against the selected method's outputs and
    /// the values the data decodes to. Nothing is shown for data that does not
    /// decode, nor where the words are not one for each value.
    pub open spec fn read_outcome(
        self,
        result: Result<ReadReply, String>,
        decoded: Option<Seq<Seq<u8>>>,
    ) -> ReadModel {
        match result {
            Ok(r) => ReadModel::Returned {
                rows: match (self.selected_read_method(), decoded, r.values) {
                    (Some(m), Some(d), Some(values)) if d.len() == values@.len() => read_rows(
                        m.outputs,
                        models(values@),
                    ),
                    _ => seq![],
                },
                raw: raw_hex(r.bytes@),
                verified: r.verified,
            },
            Err(e) => ReadModel::Failed(e@),
        }
    }

    /// The answer to a query.
    pub open spec fn read_landed(self, seq: u64, result: Result<ReadReply, String>) -> Pane {
        self.read_shown(
            seq,
            result,
            match result {
                Ok(r) => self.returned_values(r.bytes@),
                Err(_) => None,
            },
        )
    }

    /// The answer to a query whose data decodes to these values.
    pub open spec fn read_shown(
        self,
        seq: u64,
        result: Result<ReadReply, String>,
        decoded: Option<Seq<Seq<u8>>>,
    ) -> Pane {
        if seq != self.reader.seq {
            self
        } else {
            Pane {
                reader: ReaderModel {
                    busy: false,
                    result: Some(self.read_outcome(result, decoded)),
                    ..self.reader
                },
                ..self
            }
        }
    }

    /// Binds an outcome to the account and network it happened on.
    pub open spec fn stamped(self, outcome: Settled) -> Option<SettledFor> {
        Some(SettledFor { outcome, identity: self.owner, net: self.net })
    }

    /// The batch is done with: the queue empties and the outcome stays.
    pub open spec fn finished(self, outcome: Settled) -> Pane {
        Pane {
            queue: QueueModel { batch: seq![], expanded: None, ..self.queue },
            error: None,
            settled: self.stamped(outcome),
            ..self.invalidate_sim()
        }
    }

    /// The batch was broadcast and did not succeed: the queue stays.
    pub open spec fn broadcast_unsuccessful(self, hash: B256, fate: BatchFate) -> Pane {
        Pane {
            settled: self.stamped(
                if fate is Reverted {
                    Settled::Reverted { hash }
                } else {
                    Settled::Unconfirmed { hash }
                },
            ),
            ..self
        }
    }

    // ── messages ────────────────────────────────────────────────────

    pub open spec fn fail(self, error: Seq<char>) -> (Pane, Option<Effect>) {
        (Pane { error: Some(error), ..self }, None)
    }

    /// A code probe for `address`.
    pub open spec fn probe_code(self, address: Address) -> (Pane, Option<Effect>) {
        (
            Pane { probe_seq: bump(self.probe_seq), ..self },
            Some(Effect::ProbeCode { seq: bump(self.probe_seq), net: self.net, address }),
        )
    }

    /// The composer starts over at `addr`.
    pub open spec fn aimed_at(self, addr: Address, known: Option<ContractModel>) -> (
        Pane,
        Option<Effect>,
    ) {
        let p = self.reset_composer_keep_addr();
        let q = Pane {
            composer: ComposerModel { resolve_target: Some(addr), ..p.composer },
            ..p
        };
        match self.net {
            NetworkId::Builtin(chain) => {
                let r = match known {
                    Some(c) => q.set_loaded(c.placed(addr, AbiSource::Known)),
                    None => q,
                };
                (
                    Pane {
                        composer: ComposerModel {
                            resolving: r.composer.loaded is None,
                            ..r.composer
                        },
                        ..r
                    },
                    Some(
                        Effect::ResolveContract {
                            seq: r.composer.resolve_seq,
                            chain,
                            address: addr,
                        },
                    ),
                )
            },
            NetworkId::Custom(_) => Pane {
                composer: ComposerModel { not_found: true, ..q.composer },
                ..q
            }.probe_code(addr),
        }
    }

    pub open spec fn addr_changed(
        self,
        v: Seq<char>,
        long: bool,
        address: Result<Address, String>,
        known: Option<ContractModel>,
    ) -> (Pane, Option<Effect>) {
        let p = Pane {
            composer: ComposerModel { addr_input: v, ..self.composer },
            error: None,
            ..self
        };
        match address {
            Ok(addr) => {
                if p.composer.resolve_target == Some(addr) && (p.composer.loaded is Some
                    || p.composer.resolving || p.composer.not_found) {
                    (Pane { composer: ComposerModel { addr_error: None, ..p.composer }, ..p }, None)
                } else {
                    p.aimed_at(addr, known)
                }
            },
            Err(reason) => {
                let q = p.reset_composer_keep_addr();
                (
                    Pane {
                        composer: ComposerModel {
                            addr_error: if long {
                                Some(reason@)
                            } else {
                                None
                            },
                            ..q.composer
                        },
                        ..q
                    },
                    None,
                )
            },
        }
    }

    pub open spec fn retry_resolve(self) -> (Pane, Option<Effect>) {
        match (self.composer.resolve_target, self.net) {
            (Some(address), NetworkId::Builtin(chain)) => (
                Pane {
                    composer: ComposerModel {
                        resolve_error: None,
                        not_found: false,
                        resolving: true,
                        resolve_seq: bump(self.composer.resolve_seq),
                        ..self.composer
                    },
                    ..self
                },
                Some(
                    Effect::ResolveContract {
                        seq: bump(self.composer.resolve_seq),
                        chain,
                        address,
                    },
                ),
            ),
            _ => (self, None),
        }
    }

    pub open spec fn load_pasted(
        self,
        address: Result<Address, String>,
        pasted: Result<LoadedContract, String>,
    ) -> (Pane, Option<Effect>) {
        match address {
            Ok(addr) => match pasted {
                Ok(c) => {
                    let p = self.set_loaded(c@.placed(addr, AbiSource::Pasted));
                    (
                        Pane { composer: ComposerModel { abi_paste: seq![], ..p.composer }, ..p },
                        None,
                    )
                },
                Err(e) => self.fail(e@),
            },
            Err(_) => self.fail("enter the contract address first"@),
        }
    }

    pub open spec fn query(
        self,
        args_valid: bool,
        data: Result<Vec<u8>, String>,
    ) -> (Pane, Option<Effect>) {
        match self.selected_read_method() {
            Some(m) if self.reader.args.len() == m.inputs.len() && args_valid => match data {
                Ok(d) => (
                    Pane { reader: ReaderModel { busy: true, ..self.reader.invalidate() }, ..self },
                    Some(
                        Effect::Read {
                            seq: bump(self.reader.seq),
                            net: self.net,
                            to: self.composer.loaded->0.address,
                            data: d@,
                        },
                    ),
                ),
                Err(e) => self.fail(e@),
            },
            _ => (self, None),
        }
    }

    /// A call joins the queue, and the composer is ready for the next one.
    pub open spec fn queued(self, c: CallModel) -> Pane {
        let p = Pane {
            queue: QueueModel {
                next_id: bump(self.queue.next_id),
                batch: self.queue.batch.push(c),
                ..self.queue
            },
            error: None,
            ..self.invalidate_sim()
        };
        match self.mode {
            Mode::Write => Pane { composer: p.composer.reset_args(), ..p },
            Mode::Raw => Pane { raw: RawModel { data: seq![], ..p.raw }, ..p },
            Mode::Read => p,
        }
    }

    pub open spec fn add_to_batch(
        self,
        address: Result<Address, String>,
        call: Result<QueuedCall, String>,
    ) -> (Pane, Option<Effect>) {
        if !self.can_batch() && self.queue.batch.len() > 0 {
            self.fail(single_call_refusal())
        } else if self.queue.batch.len() >= MAX_BATCH_CALLS {
            self.fail(full_refusal())
        } else {
            match self.composed(address, call) {
                Ok(c) => (self.queued(c), None),
                Err(e) => self.fail(e),
            }
        }
    }

    pub open spec fn send_single(
        self,
        address: Result<Address, String>,
        call: Result<QueuedCall, String>,
        gate: VersionGate,
    ) -> (Pane, Option<Effect>) {
        match self.no_signer_reason(gate) {
            Some(why) => self.fail(why),
            None => match self.composed(address, call) {
                Ok(c) => (
                    Pane { error: None, ..self },
                    Some(
                        Effect::Review {
                            calls: seq![c],
                            preflight: Verdict::Unsupported,
                            sim: None,
                            fee_caveats: seq![],
                        },
                    ),
                ),
                Err(e) => self.fail(e),
            },
        }
    }

    /// Exchanges a call with its neighbour above or below.
    pub open spec fn move_call(self, id: u64, up: bool) -> Pane {
        let batch = self.queue.batch;
        let i = position_of(batch, id);
        let j = if up {
            i - 1
        } else {
            i + 1
        };
        if i < batch.len() && 0 <= j < batch.len() {
            self.with_batch(swapped(batch, i, j)).invalidate_sim()
        } else {
            self
        }
    }

    pub open spec fn load_sample(self, parts: SampleParts) -> Pane {
        Pane {
            queue: QueueModel {
                batch: sample_calls(parts),
                next_id: (self.queue.next_id + sample_calls(parts).len()) as u64,
                ..self.queue
            },
            ..self.invalidate_sim()
        }
    }

    pub open spec fn simulate(self, wrap: FlashWrap) -> (Pane, Option<Effect>) {
        match self.net {
            NetworkId::Builtin(chain) if self.queue.batch.len() > 0 => {
                let calls = self.effective_calls(wrap);
                if calls.len() > MAX_BATCH_CALLS {
                    self.fail(wrap_refusal(self.queue.batch.len(), calls.len()))
                } else {
                    (
                        Pane {
                            sim: SimStateModel { busy: true, ..self.sim.invalidate() },
                            ..self
                        },
                        Some(Effect::Simulate { seq: bump(self.sim.seq), chain, calls }),
                    )
                }
            },
            _ => (self, None),
        }
    }

    pub open spec fn review(
        self,
        wrap: FlashWrap,
        gate: VersionGate,
        now: u64,
    ) -> (Pane, Option<Effect>) {
        if self.queue.batch.len() == 0 {
            (self, None)
        } else {
            match self.no_signer_reason(gate) {
                Some(why) => self.fail(why),
                None => {
                    let calls = self.effective_calls(wrap);
                    if calls.len() > MAX_BATCH_CALLS {
                        self.fail(wrap_refusal(self.queue.batch.len(), calls.len()))
                    } else {
                        (
                            self,
                            Some(
                                Effect::Review {
                                    calls,
                                    preflight: self.preflight(now, wrap.opens),
                                    sim: self.sim.result,
                                    fee_caveats: self.fee_caveats(calls.len()),
                                },
                            ),
                        )
                    }
                },
            }
        }
    }

    /// Why a wholesale batch is refused, if it is: the rules that hold call by
    /// call.
    pub open spec fn adopt_refusal(self, calls: nat) -> Option<Seq<char>> {
        if calls == 0 {
            Some("that batch has no calls in it"@)
        } else if calls > 1 && !self.can_batch() {
            Some(adopt_single_refusal(calls))
        } else if calls > MAX_BATCH_CALLS {
            Some(adopt_full_refusal(calls))
        } else {
            None
        }
    }

    /// Replaces the queue wholesale.
    pub open spec fn adopted(self, calls: Seq<CallModel>) -> Pane {
        Pane {
            queue: QueueModel {
                next_id: (self.queue.next_id + calls.len()) as u64,
                batch: calls,
                expanded: None,
                ..self.queue
            },
            error: if self.queue.batch.len() > 0 {
                Some(replaced_notice(self.queue.batch.len()))
            } else {
                None
            },
            ..self.invalidate_sim()
        }
    }

    /// Says so when a loaded batch was composed as a different account.
    pub open spec fn note_drift(self, composed_as: Option<Address>, what: Seq<char>) -> Pane {
        match composed_as {
            Some(from) if from != self.owner => {
                let notice = drift_notice(what, from, self.owner);
                Pane {
                    error: Some(
                        match self.error {
                            Some(prev) => notice + " "@ + prev,
                            None => notice,
                        },
                    ),
                    ..self
                }
            },
            _ => self,
        }
    }

    pub open spec fn load_template(
        self,
        i: usize,
        calls: Result<Vec<QueuedCall>, String>,
    ) -> (Pane, Option<Effect>) {
        if i >= self.shelf.templates.len() {
            (self, None)
        } else {
            let t = self.shelf.templates[i as int];
            match self.net {
                NetworkId::Custom(_) => (
                    Pane {
                        error: Some(template_refusal(t.name, self.net)),
                        shelf: ShelfModel { menu_open: false, ..self.shelf },
                        ..self
                    },
                    None,
                ),
                NetworkId::Builtin(_) => match calls {
                    Err(e) => self.fail(e@),
                    Ok(calls) => match self.adopt_refusal(calls@.len()) {
                        Some(e) => self.fail(e),
                        None => (
                            Pane {
                                shelf: ShelfModel {
                                    menu_open: false,
                                    ..self.shelf.cancel_rename()
                                },
                                ..self.adopted(models(calls@))
                            }.note_drift(t.from, "\""@ + t.name + "\""@),
                            None,
                        ),
                    },
                },
            }
        }
    }

    pub open spec fn import_json(
        self,
        calls: Result<Vec<QueuedCall>, String>,
        composed_as: Option<Address>,
    ) -> (Pane, Option<Effect>) {
        match calls {
            Err(e) => (Pane { json: JsonModel { error: Some(e@), ..self.json }, ..self }, None),
            Ok(calls) => match self.adopt_refusal(calls@.len()) {
                Some(e) => (Pane { json: JsonModel { error: Some(e), ..self.json }, ..self }, None),
                None => (
                    Pane {
                        json: JsonModel { modal: Modal::Closed, ..self.json },
                        ..self.adopted(models(calls@))
                    }.note_drift(composed_as, "This bundle"@),
                    None,
                ),
            },
        }
    }

    /// The template list became `list`.
    pub open spec fn persisted(self, list: Seq<TemplateModel>) -> (Pane, Option<Effect>) {
        (
            Pane { shelf: ShelfModel { templates: list, ..self.shelf.cancel_rename() }, ..self },
            Some(Effect::PersistTemplates { list, rollback: self.shelf.templates }),
        )
    }

    pub open spec fn save_template(self, t: TemplateModel) -> (Pane, Option<Effect>) {
        if self.queue.batch.len() > 0 && self.net is Builtin {
            Pane { shelf: ShelfModel { menu_open: true, ..self.shelf }, ..self }.persisted(
                self.shelf.templates.push(t),
            )
        } else {
            (self, None)
        }
    }

    pub open spec fn commit_rename(self) -> (Pane, Option<Effect>) {
        let name = trimmed(self.shelf.rename_buf);
        match self.shelf.rename_idx {
            Some(i) if name.len() > 0 && i < self.shelf.templates.len() => self.persisted(
                self.shelf.templates.update(
                    i as int,
                    TemplateModel { name, ..self.shelf.templates[i as int] },
                ),
            ),
            _ => (self, None),
        }
    }

    pub open spec fn open_save(self, export: Seq<char>) -> (Pane, Option<Effect>) {
        match self.net {
            NetworkId::Builtin(_) => (
                Pane { json: JsonModel { text: export, modal: Modal::Save, ..self.json }, ..self },
                None,
            ),
            NetworkId::Custom(_) => self.fail(export_refusal(self.net)),
        }
    }

    pub open spec fn json_changed(self, v: Seq<char>, bytes: usize) -> (Pane, Option<Effect>) {
        if bytes > MAX_BUNDLE_BYTES {
            (
                Pane {
                    json: JsonModel { error: Some(paste_refusal(bytes as nat)), ..self.json },
                    ..self
                },
                None,
            )
        } else {
            (Pane { json: JsonModel { text: v, error: None, ..self.json }, ..self }, None)
        }
    }

    pub open spec fn set_arg(self, i: usize, v: Seq<char>) -> Pane {
        if i < self.composer.args.len() {
            Pane {
                composer: ComposerModel {
                    args: self.composer.args.update(i as int, v),
                    ..self.composer
                },
                ..self
            }
        } else {
            self
        }
    }

    pub open spec fn set_read_arg(self, i: usize, v: Seq<char>) -> Pane {
        Pane {
            reader: ReaderModel {
                args: if i < self.reader.args.len() {
                    self.reader.args.update(i as int, v)
                } else {
                    self.reader.args
                },
                ..self.reader.invalidate()
            },
            ..self
        }
    }

    pub open spec fn raw_to_changed(
        self,
        v: Seq<char>,
        address: Result<Address, String>,
    ) -> (Pane, Option<Effect>) {
        let p = Pane {
            raw: RawModel { to: v, nothing_deployed: false, ..self.raw },
            probe_seq: bump(self.probe_seq),
            ..self
        };
        match address {
            Ok(a) => p.probe_code(a),
            Err(_) => (p, None),
        }
    }

    /// What a click in a menu or a list does.
    pub open spec fn toggled(self, m: Message) -> (Pane, Option<Effect>) {
        match m {
            Message::Close => (self, Some(Effect::Close)),
            Message::SetMode(mode) => (
                Pane {
                    mode,
                    error: None,
                    composer: ComposerModel { method_menu_open: false, ..self.composer },
                    reader: ReaderModel { menu_open: false, ..self.reader },
                    ..self
                },
                None,
            ),
            Message::ToggleNetworkMenu => (
                if self.ctx.is_safe {
                    self
                } else {
                    Pane {
                        net_menu_open: !self.net_menu_open,
                        shelf: ShelfModel { menu_open: false, ..self.shelf },
                        ..self
                    }
                },
                None,
            ),
            Message::SetNetwork(net) => (
                if self.net == net {
                    Pane { net_menu_open: false, ..self }
                } else {
                    Pane { net, ..self }.network_reset(self.net)
                },
                None,
            ),
            Message::ToggleExpand(id) => (
                Pane {
                    queue: QueueModel {
                        expanded: if self.queue.expanded == Some(id) {
                            None
                        } else {
                            Some(id)
                        },
                        ..self.queue
                    },
                    ..self
                },
                None,
            ),
            Message::ToggleTemplateMenu => (
                Pane {
                    shelf: ShelfModel {
                        menu_open: !self.shelf.menu_open,
                        ..self.shelf.cancel_rename()
                    },
                    net_menu_open: false,
                    ..self
                },
                None,
            ),
            Message::StartRename(i) => (
                if i < self.shelf.templates.len() {
                    Pane {
                        shelf: ShelfModel {
                            rename_buf: self.shelf.templates[i as int].name,
                            rename_idx: Some(i),
                            ..self.shelf
                        },
                        ..self
                    }
                } else {
                    self
                },
                None,
            ),
            Message::RenameChanged(v) => (
                Pane { shelf: ShelfModel { rename_buf: v@, ..self.shelf }, ..self },
                None,
            ),
            Message::CancelRename => (self.cancel_rename(), None),
            _ => (self, None),
        }
    }

    /// What the overlay, the strip and the banner do.
    pub open spec fn overlaid(self, m: Message) -> (Pane, Option<Effect>) {
        match m {
            Message::OpenLoad => (
                Pane { json: JsonModel { modal: Modal::Load, ..JsonModel::closed() }, ..self },
                None,
            ),
            Message::CloseModal => (Pane { json: JsonModel::closed(), ..self }, None),
            Message::CopyJson => (self, Some(Effect::CopyText(self.json.text))),
            Message::CopySettledHash => (
                self,
                match self.visible_settled() {
                    Some(s) => match s.hash_of() {
                        Some(h) => Some(Effect::CopyPlain(h.hex_text())),
                        None => None,
                    },
                    None => None,
                },
            ),
            Message::DismissSettled => (Pane { settled: None, ..self }, None),
            Message::Escape => if self.json.modal == Modal::Closed {
                (self, Some(Effect::Close))
            } else {
                (Pane { json: JsonModel::closed(), ..self }, None)
            },
            Message::DismissError => (Pane { error: None, ..self }, None),
            _ => (self, None),
        }
    }

    /// What typing into the contract composer, or picking a method, does.
    pub open spec fn edited(self, m: Message) -> (Pane, Option<Effect>) {
        match m {
            Message::ShowAbiPaste => (
                Pane { composer: ComposerModel { paste_open: true, ..self.composer }, ..self },
                None,
            ),
            Message::AbiPasteChanged(v) => (
                Pane { composer: ComposerModel { abi_paste: v@, ..self.composer }, ..self },
                None,
            ),
            Message::ToggleMethodMenu => (
                Pane {
                    composer: ComposerModel {
                        method_menu_open: !self.composer.method_menu_open,
                        ..self.composer
                    },
                    ..self
                },
                None,
            ),
            Message::PickMethod(i) => (
                Pane {
                    composer: ComposerModel {
                        method_idx: i,
                        method_menu_open: false,
                        ..self.composer
                    }.reset_args(),
                    ..self
                },
                None,
            ),
            Message::ArgChanged(i, v) => (self.set_arg(i, v@), None),
            Message::BoolArg(i, b) => (self.set_arg(i, bool_text(b)), None),
            Message::ValueChanged(v) => (
                Pane { composer: ComposerModel { value_input: v@, ..self.composer }, ..self },
                None,
            ),
            _ => (self, None),
        }
    }

    /// What typing into the query or the raw composer does.
    pub open spec fn asked(self, m: Message) -> (Pane, Option<Effect>) {
        match m {
            Message::ToggleReadMethodMenu => (
                Pane {
                    reader: ReaderModel { menu_open: !self.reader.menu_open, ..self.reader },
                    ..self
                },
                None,
            ),
            Message::PickReadMethod(i) => (
                Pane {
                    reader: ReaderModel { idx: i, menu_open: false, ..self.reader }.reset_args(
                        self.composer.loaded,
                    ).invalidate(),
                    ..self
                },
                None,
            ),
            Message::ReadArgChanged(i, v) => (self.set_read_arg(i, v@), None),
            Message::ReadBoolArg(i, b) => (self.set_read_arg(i, bool_text(b)), None),
            Message::CopyReadRaw => (
                self,
                match self.reader.result {
                    Some(ReadModel::Returned { raw, .. }) => Some(Effect::CopyPlain(raw)),
                    _ => None,
                },
            ),
            Message::CopyReadValue(i) => (
                self,
                match self.reader.result {
                    Some(ReadModel::Returned { rows, .. }) if i < rows.len() => Some(
                        Effect::CopyPlain(rows[i as int].value),
                    ),
                    _ => None,
                },
            ),
            Message::RawValueChanged(v) => (
                Pane { raw: RawModel { value: v@, ..self.raw }, ..self },
                None,
            ),
            Message::RawDataChanged(v) => (
                Pane { raw: RawModel { data: v@, ..self.raw }, ..self },
                None,
            ),
            _ => (self, None),
        }
    }

    /// What changing the queue does.
    pub open spec fn rearranged(self, m: Message, f: Findings) -> (Pane, Option<Effect>) {
        match m {
            Message::AddToBatch => self.add_to_batch(f.address, f.call),
            Message::RemoveCall(id) => (
                self.with_batch(without_id(self.queue.batch, id)).invalidate_sim(),
                None,
            ),
            Message::MoveUp(id) => (self.move_call(id, true), None),
            Message::MoveDown(id) => (self.move_call(id, false), None),
            Message::ClearBatch => (
                Pane {
                    queue: QueueModel { batch: seq![], expanded: None, ..self.queue },
                    ..self.invalidate_sim()
                },
                None,
            ),
            Message::LoadSample => (self.load_sample(f.sample), None),
            Message::ToggleAutoRevoke(v) => (
                Pane {
                    queue: QueueModel { auto_revoke: v, ..self.queue },
                    ..self.invalidate_sim()
                },
                None,
            ),
            Message::LoadTemplate(i) => self.load_template(i, f.loaded_calls),
            Message::ImportJson => self.import_json(f.loaded_calls, f.composed_as),
            _ => (self, None),
        }
    }

    /// What a message does.
    pub open spec fn update(self, m: Message, f: Findings) -> (Pane, Option<Effect>) {
        match m {
            Message::AddrChanged(v) => self.addr_changed(
                v@,
                vstd::utf8::encode_utf8(trimmed(v@)).len() as usize >= ADDRESS_TEXT_LEN,
                f.address,
                model_of(f.known),
            ),
            Message::RetryResolve => self.retry_resolve(),
            Message::LoadPastedAbi => self.load_pasted(f.address, f.pasted),
            Message::Query => self.query(f.read_args_valid, f.read_data),
            Message::RawToChanged(v) => self.raw_to_changed(v@, f.address),
            Message::SendSingle => self.send_single(f.address, f.call, f.gate),
            Message::Simulate => self.simulate(f.wrap),
            Message::Review => self.review(f.wrap, f.gate, f.now),
            Message::SaveTemplate => self.save_template(f.template@),
            Message::DeleteTemplate(i) => if i < self.shelf.templates.len() {
                self.persisted(self.shelf.templates.remove(i as int))
            } else {
                (self, None)
            },
            Message::CommitRename => self.commit_rename(),
            Message::OpenSave => self.open_save(f.export@),
            Message::JsonChanged(v) => self.json_changed(
                v@,
                vstd::utf8::encode_utf8(v@).len() as usize,
            ),
            Message::AddToBatch | Message::RemoveCall(_) | Message::MoveUp(_) | Message::MoveDown(
                _,
            ) | Message::ClearBatch | Message::LoadSample | Message::ToggleAutoRevoke(_)
            | Message::LoadTemplate(_) | Message::ImportJson => self.rearranged(m, f),
            Message::ShowAbiPaste | Message::AbiPasteChanged(_) | Message::ToggleMethodMenu
            | Message::PickMethod(_) | Message::ArgChanged(_, _) | Message::BoolArg(_, _)
            | Message::ValueChanged(_) => self.edited(m),
            Message::ToggleReadMethodMenu | Message::PickReadMethod(_) | Message::ReadArgChanged(
                _,
                _,
            ) | Message::ReadBoolArg(_, _) | Message::CopyReadRaw | Message::CopyReadValue(_)
            | Message::RawValueChanged(_) | Message::RawDataChanged(_) => self.asked(m),
            Message::OpenLoad | Message::CloseModal | Message::CopyJson | Message::CopySettledHash
            | Message::DismissSettled | Message::Escape | Message::DismissError => self.overlaid(m),
            _ => self.toggled(m),
        }
    }
}

} // verus!

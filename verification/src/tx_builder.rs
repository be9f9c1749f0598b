//! The transaction builder: composing contract calls, queueing them into a
//! batch, simulating it and handing it to the review.
//!
//! The pane is a state machine. [`TxBuilderApp::update`] takes a message
//! together with the [`Findings`] it needs from outside, changes the pane and
//! may ask for something in return, as an [`Outcome`]; the answers come back
//! through the `on_*` methods. [`TxBuilderApp::question`] says, for a message,
//! what has to be found out before it is delivered.

use vstd::prelude::*;

use crate::chain::Chain;
use crate::chain::NetworkId;
use crate::primitives::Address;
use crate::primitives::B256;
use crate::text::model_of;
use crate::text::models;
use crate::text::Replica;
use crate::txbuilder::AbiMethod;
use crate::txbuilder::BatchSimResult;
use crate::txbuilder::CallModel;
use crate::txbuilder::LoadedContract;
use crate::txbuilder::QueuedCall;
use crate::txbuilder::SimModel;
use crate::txbuilder::Template;
use crate::txbuilder::TemplateModel;

pub mod laws;
pub mod model;
pub mod preflight;
pub mod query;
pub mod question;
pub mod reply;
pub mod request;
pub mod state;
pub mod trace;
pub mod update;
pub mod view;

verus! {

/// Which composer is active: a state-changing call, a read-only query, or raw
/// calldata.
#[derive(Debug, Clone, Copy, PartialEq, Eq, Structural)]
pub enum Mode {
    Write,
    Read,
    Raw,
}

/// One decoded return value of a query.
#[derive(Debug, Clone, PartialEq, Eq)]
pub struct ReadRow {
    pub name: String,
    pub ty: String,
    pub value: String,
}

#[verifier::ext_equal]
pub struct RowModel {
    pub name: Seq<char>,
    pub ty: Seq<char>,
    pub value: Seq<char>,
}

impl View for ReadRow {
    type V = RowModel;

    open spec fn view(&self) -> RowModel {
        RowModel { name: self.name@, ty: self.ty@, value: self.value@ }
    }
}

/// The result of a query, shown until the next one. `raw` is the `0x…` return
/// data; `rows` is empty when the data does not decode.
#[derive(Debug, Clone)]
pub enum ReadOutcome {
    Returned { rows: Vec<ReadRow>, raw: String, verified: bool },
    Failed(String),
}

#[verifier::ext_equal]
pub enum ReadModel {
    Returned { rows: Seq<RowModel>, raw: Seq<char>, verified: bool },
    Failed(Seq<char>),
}

impl View for ReadOutcome {
    type V = ReadModel;

    open spec fn view(&self) -> ReadModel {
        match *self {
            ReadOutcome::Returned { rows, raw, verified } => ReadModel::Returned {
                rows: models(rows@),
                raw: raw@,
                verified,
            },
            ReadOutcome::Failed(e) => ReadModel::Failed(e@),
        }
    }
}

/// What became of the last batch this pane dispatched.
#[derive(Debug, Clone, Copy, PartialEq, Eq, Structural)]
pub enum Settled {
    /// Mined, and it succeeded.
    Executed { hash: B256 },
    /// Filed at `nonce`, awaiting co-signers.
    Proposed { nonce: u64 },
    /// Mined, and every call rolled back.
    Reverted { hash: B256 },
    /// Broadcast with no receipt read; it may still be mined.
    Unconfirmed { hash: B256 },
}

impl Settled {
    /// The transaction hash of the outcomes that have one.
    pub open spec fn hash_of(self) -> Option<B256> {
        match self {
            Settled::Executed { hash } => Some(hash),
            Settled::Reverted { hash } => Some(hash),
            Settled::Unconfirmed { hash } => Some(hash),
            Settled::Proposed { .. } => None,
        }
    }

    /// The transaction hash of the outcomes that have one. A proposal has none:
    /// nothing was broadcast.
    pub fn hash(&self) -> (r: Option<B256>)
        ensures
            r == self.hash_of(),
    {
        match self {
            Settled::Executed { hash } => Some(*hash),
            Settled::Reverted { hash } => Some(*hash),
            Settled::Unconfirmed { hash } => Some(*hash),
            Settled::Proposed { .. } => None,
        }
    }
}

/// A settled outcome together with the account and network it happened on.
#[derive(Debug, Clone, Copy, PartialEq, Eq, Structural)]
pub struct SettledFor {
    pub outcome: Settled,
    /// The account that was composing when this settled.
    pub identity: Address,
    /// The network it settled on.
    pub net: NetworkId,
}

/// What became of a broadcast batch, as read from its receipt.
#[derive(Debug, Clone, PartialEq, Eq)]
pub enum BatchFate {
    Mined,
    Reverted,
    /// No receipt was read.
    Unknown { reason: String },
}

impl BatchFate {
    /// Whether the transaction's outcome is settled; otherwise it may still be
    /// pending, and broadcasting again risks running it twice.
    pub fn is_decided(&self) -> (r: bool)
        ensures
            r == !(self is Unknown),
    {
        !matches!(self, BatchFate::Unknown { .. })
    }
}

/// The import/export overlay, if any.
#[derive(Debug, Clone, Copy, PartialEq, Eq, Structural)]
pub enum Modal {
    Closed,
    Save,
    Load,
}

/// What the user did.
#[derive(Debug, Clone)]
pub enum Message {
    Close,
    SetMode(Mode),
    ToggleNetworkMenu,
    SetNetwork(NetworkId),
    AddrChanged(String),
    RetryResolve,
    ShowAbiPaste,
    AbiPasteChanged(String),
    LoadPastedAbi,
    ToggleMethodMenu,
    PickMethod(usize),
    ArgChanged(usize, String),
    BoolArg(usize, bool),
    ValueChanged(String),
    ToggleReadMethodMenu,
    PickReadMethod(usize),
    ReadArgChanged(usize, String),
    ReadBoolArg(usize, bool),
    Query,
    CopyReadRaw,
    CopyReadValue(usize),
    RawToChanged(String),
    RawValueChanged(String),
    RawDataChanged(String),
    AddToBatch,
    SendSingle,
    RemoveCall(u64),
    MoveUp(u64),
    MoveDown(u64),
    ToggleExpand(u64),
    ClearBatch,
    LoadSample,
    ToggleAutoRevoke(bool),
    ToggleTemplateMenu,
    LoadTemplate(usize),
    SaveTemplate,
    DeleteTemplate(usize),
    StartRename(usize),
    RenameChanged(String),
    CommitRename,
    CancelRename,
    Simulate,
    Review,
    OpenSave,
    OpenLoad,
    CloseModal,
    JsonChanged(String),
    CopyJson,
    ImportJson,
    CopySettledHash,
    DismissSettled,
    /// Esc was pressed while the builder is open.
    Escape,
    DismissError,
}

/// The runtime code found at an address, and what the proxy walk met on the
/// way there.
#[derive(Debug, Clone)]
pub struct ResolvedCode {
    /// Runtime bytecode of `implementation`. Empty: nothing is deployed there.
    pub code: Vec<u8>,
    /// The contract this code belongs to. Calls still go to the address that
    /// was asked about.
    pub implementation: Address,
    /// False when a proxy slot could only be read unverified, so that the
    /// pointer was not followed.
    pub all_verified: bool,
    /// True when the address has no contract code at all.
    pub nothing_deployed: bool,
    /// False when the code itself was read unverified.
    pub code_verified: bool,
    /// True when the address is a beacon proxy, which is not followed.
    pub beacon: bool,
}

/// A query's return data: the bytes, whether they were verified, and the values
/// they decode to, each in words.
#[derive(Debug, Clone)]
pub struct ReadReply {
    pub bytes: Vec<u8>,
    pub verified: bool,
    pub values: Option<Vec<String>>,
}

/// What the batch simulation said about the calls being sent for review.
#[derive(Debug, Clone, PartialEq, Eq)]
pub enum Preflight {
    /// Every call succeeded. `stale`: too long ago to rely on. `verified`: all
    /// state behind it was verified.
    Passed { stale: bool, verified: bool },
    /// It fails at the call that `at` names.
    Fails { at: String, reason: String },
    /// Every call succeeded, but no block can include a transaction this
    /// large.
    TooMuchGas { gas_used: u64, block_gas_limit: u64 },
    /// The simulator itself failed.
    Errored { reason: String },
    /// The network can simulate, but there is no verdict on this batch.
    Missing,
    /// The network has no simulation at all.
    Unsupported,
}

#[verifier::ext_equal]
pub enum Verdict {
    Passed { stale: bool, verified: bool },
    Fails { at: Seq<char>, reason: Seq<char> },
    TooMuchGas { gas_used: u64, block_gas_limit: u64 },
    Errored { reason: Seq<char> },
    Missing,
    Unsupported,
}

impl View for Preflight {
    type V = Verdict;

    open spec fn view(&self) -> Verdict {
        match *self {
            Preflight::Passed { stale, verified } => Verdict::Passed { stale, verified },
            Preflight::Fails { at, reason } => Verdict::Fails { at: at@, reason: reason@ },
            Preflight::TooMuchGas { gas_used, block_gas_limit } => Verdict::TooMuchGas {
                gas_used,
                block_gas_limit,
            },
            Preflight::Errored { reason } => Verdict::Errored { reason: reason@ },
            Preflight::Missing => Verdict::Missing,
            Preflight::Unsupported => Verdict::Unsupported,
        }
    }
}

/// How long a verdict stands, in nanoseconds: three minutes.
pub const PREFLIGHT_STALE_AFTER: u64 = 180_000_000_000;

/// `0x` and forty digits: where an address field stops being half-typed.
pub const ADDRESS_TEXT_LEN: usize = 42;

/// What the pane asks for.
#[derive(Debug, Clone)]
#[allow(inconsistent_fields)]
pub enum Outcome {
    /// Step back to the launcher.
    Close,
    /// Fetch the runtime code of `address`; answered by
    /// [`TxBuilderApp::on_contract_resolved`].
    ResolveContract { seq: u64, chain: Chain, address: Address },
    /// Run a query; answered by [`TxBuilderApp::on_read`].
    Read { seq: u64, net: NetworkId, to: Address, data: Vec<u8> },
    /// Ask whether anything is deployed at `address`; answered by
    /// [`TxBuilderApp::on_code_probed`].
    ProbeCode { seq: u64, net: NetworkId, address: Address },
    /// Simulate the calls; answered by [`TxBuilderApp::on_sim`].
    Simulate { seq: u64, chain: Chain, calls: Vec<QueuedCall> },
    /// Open the review for the calls. `sim` is the simulation that `preflight`
    /// was derived from; `fee_caveats` says how the fee estimate is off.
    Review {
        calls: Vec<QueuedCall>,
        preflight: Preflight,
        sim: Option<Box<BatchSimResult>>,
        fee_caveats: Vec<String>,
    },
    /// Store the template list; `rollback` is the list before the change.
    PersistTemplates { list: Vec<Template>, rollback: Vec<Template> },
    /// Copy text, to be cleared from the clipboard after a while.
    CopyText(String),
    /// Copy public text that may stay on the clipboard.
    CopyPlain(String),
}

#[verifier::ext_equal]
pub enum Effect {
    Close,
    ResolveContract { seq: u64, chain: Chain, address: Address },
    Read { seq: u64, net: NetworkId, to: Address, data: Seq<u8> },
    ProbeCode { seq: u64, net: NetworkId, address: Address },
    Simulate { seq: u64, chain: Chain, calls: Seq<CallModel> },
    Review {
        calls: Seq<CallModel>,
        preflight: Verdict,
        sim: Option<SimModel>,
        fee_caveats: Seq<Seq<char>>,
    },
    PersistTemplates { list: Seq<TemplateModel>, rollback: Seq<TemplateModel> },
    CopyText(Seq<char>),
    CopyPlain(Seq<char>),
}

impl View for Outcome {
    type V = Effect;

    open spec fn view(&self) -> Effect {
        match *self {
            Outcome::Close => Effect::Close,
            Outcome::ResolveContract { seq, chain, address } => Effect::ResolveContract {
                seq,
                chain,
                address,
            },
            Outcome::Read { seq, net, to, data } => Effect::Read { seq, net, to, data: data@ },
            Outcome::ProbeCode { seq, net, address } => Effect::ProbeCode { seq, net, address },
            Outcome::Simulate { seq, chain, calls } => Effect::Simulate {
                seq,
                chain,
                calls: models(calls@),
            },
            Outcome::Review { calls, preflight, sim, fee_caveats } => Effect::Review {
                calls: models(calls@),
                preflight: preflight@,
                sim: model_of(sim),
                fee_caveats: models(fee_caveats@),
            },
            Outcome::PersistTemplates { list, rollback } => Effect::PersistTemplates {
                list: models(list@),
                rollback: models(rollback@),
            },
            Outcome::CopyText(s) => Effect::CopyText(s@),
            Outcome::CopyPlain(s) => Effect::CopyPlain(s@),
        }
    }
}

/// The queue wrapped in flash-approval resets: the whole list, and how many of
/// its calls come before the queue.
#[derive(Debug, Clone)]
pub struct FlashWrap {
    pub calls: Vec<QueuedCall>,
    pub opens: usize,
}

/// Why the Safe's contract version cannot be used, if it cannot: for signing,
/// and for routing a batch.
#[derive(Debug, Clone)]
pub struct VersionGate {
    pub unsignable: Option<String>,
    pub unroutable: Option<String>,
}

/// The two curated contracts of the sample batch, and the two calls built from
/// them.
#[derive(Debug)]
pub struct SampleParts {
    pub usdc: Option<LoadedContract>,
    pub aave: Option<LoadedContract>,
    pub approve: Result<QueuedCall, String>,
    pub supply: Result<QueuedCall, String>,
}

/// What was found out for a message or an answer before it is delivered. Only
/// the parts its [`Question`] asks for are looked at.
#[derive(Debug)]
pub struct Findings {
    /// The checksum-verified address a text spells, or why it spells none.
    pub address: Result<Address, String>,
    /// The curated contract at that address on the active chain.
    pub known: Option<LoadedContract>,
    /// The contract a pasted ABI describes, or why it describes none.
    pub pasted: Result<LoadedContract, String>,
    /// Whether every query argument is a value of its parameter's type.
    pub read_args_valid: bool,
    /// The contract recovered from bytecode, when anything could be.
    pub recovered: Option<LoadedContract>,
    /// The encoded query, or why it does not encode.
    pub read_data: Result<Vec<u8>, String>,
    /// The composed call, or why it cannot be built.
    pub call: Result<QueuedCall, String>,
    pub sample: SampleParts,
    pub wrap: FlashWrap,
    pub gate: VersionGate,
    /// A monotonic clock, in nanoseconds.
    pub now: u64,
    /// The calls of a template or a bundle, or why they cannot be read.
    pub loaded_calls: Result<Vec<QueuedCall>, String>,
    /// The account a bundle says it was composed as.
    pub composed_as: Option<Address>,
    /// The queue as a new template.
    pub template: Template,
    /// The queue as a bundle.
    pub export: String,
}

/// What has to be found out before a message or an answer is delivered. A
/// review also asks the time.
#[derive(Debug)]
#[allow(inconsistent_fields)]
pub enum Question {
    Nothing,
    /// Which address `text` spells, and which curated contract is there on
    /// `chain`.
    Address { text: String, chain: Option<Chain> },
    /// Which address `address` spells, and what `abi` declares there.
    PastedAbi { address: String, abi: String },
    /// Which contract the code of `implementation` makes of `address`.
    /// `code_verified`: whether the code was read verified.
    Recovery { code: Vec<u8>, address: Address, implementation: Address, code_verified: bool },
    /// The call of `method` on a contract.
    ContractCall {
        id: u64,
        to: Address,
        name: String,
        method: AbiMethod,
        args: Vec<String>,
        value: String,
    },
    /// The call of raw calldata on the address that `to` spells.
    RawCall { id: u64, to: String, value: String, data: String },
    /// The validity and the encoding of a query.
    ReadCall { method: AbiMethod, args: Vec<String> },
    /// The sample batch's contracts and calls.
    Sample { id: u64, owner: Address },
    /// The queue wrapped in flash-approval resets.
    Wrap { calls: Vec<QueuedCall>, id: u64 },
    /// The same, and what a Safe of this version allows.
    Review { calls: Vec<QueuedCall>, id: u64, safe_version: Option<String> },
    /// What `call` asks, and what a Safe of this version allows.
    Single { call: Box<Question>, safe_version: Option<String> },
    /// The queue as a bundle.
    Export { chain: Chain, safe: Option<Address>, owner: Address, calls: Vec<QueuedCall> },
    /// The calls of the bundle `text`, and who it was composed as.
    Import { text: String, id: u64, chain: Option<Chain> },
    /// The calls of a template.
    TemplateCalls { template: Template, id: u64, chain: Chain },
    /// The queue as a template of this name and face.
    NewTemplate {
        name: String,
        kaomoji: String,
        chain: Chain,
        owner: Address,
        calls: Vec<QueuedCall>,
    },
}

/// What the coordinator refreshes before each message.
#[derive(Debug, Clone)]
pub struct Ctx {
    /// The address the batch executes as; none before the first refresh.
    pub identity: Option<Address>,
    /// Whether that is a Safe.
    pub is_safe: bool,
    /// The Safe's contract version.
    pub safe_version: Option<String>,
    /// Whether a plain account can batch calls atomically.
    pub eoa_can_batch: bool,
    /// Whether the account can sign at all.
    pub can_sign: bool,
    /// Enabled custom networks, each with its chain id and name.
    pub custom_networks: Vec<(u64, String)>,
}

/// The contract composer.
#[derive(Debug)]
pub struct Composer {
    pub addr_input: String,
    pub loaded: Option<LoadedContract>,
    pub resolving: bool,
    /// The last resolve found no ABI.
    pub not_found: bool,
    /// The last resolve failed.
    pub resolve_error: Option<String>,
    /// What is in the box cannot be an address.
    pub addr_error: Option<String>,
    /// The last resolve met a proxy pointer it could only read unverified.
    pub proxy_unverified: bool,
    /// No contract code at the composed address.
    pub nothing_deployed: bool,
    /// The address is a beacon proxy.
    pub proxy_beacon: bool,
    pub paste_open: bool,
    pub abi_paste: String,
    /// The address being resolved or loaded.
    pub resolve_target: Option<Address>,
    pub resolve_seq: u64,
    pub method_idx: usize,
    pub method_menu_open: bool,
    pub args: Vec<String>,
    pub value_input: String,
}

/// The query composer.
#[derive(Debug)]
pub struct Reader {
    pub idx: usize,
    pub menu_open: bool,
    pub args: Vec<String>,
    pub seq: u64,
    pub busy: bool,
    pub result: Option<ReadOutcome>,
}

/// The raw composer.
#[derive(Debug)]
pub struct RawComposer {
    pub to: String,
    pub value: String,
    pub data: String,
    /// No contract code at the target.
    pub nothing_deployed: bool,
}

/// The batch.
#[derive(Debug)]
pub struct Queue {
    pub batch: Vec<QueuedCall>,
    pub next_id: u64,
    pub expanded: Option<u64>,
    /// Wrap the queue in allowance resets when it is simulated or reviewed.
    pub auto_revoke: bool,
}

/// The simulation of the batch.
#[derive(Debug)]
pub struct SimState {
    pub result: Option<BatchSimResult>,
    /// When the held result landed.
    pub at: Option<u64>,
    pub busy: bool,
    pub seq: u64,
}

/// The saved templates.
#[derive(Debug)]
pub struct Shelf {
    pub templates: Vec<Template>,
    pub menu_open: bool,
    pub rename_idx: Option<usize>,
    pub rename_buf: String,
}

/// The import/export overlay.
#[derive(Debug)]
pub struct JsonBox {
    pub modal: Modal,
    pub text: String,
    pub error: Option<String>,
}

/// The state of the pane.
#[derive(Debug)]
pub struct TxBuilderApp {
    /// The address the composer is acting as.
    pub owner: Address,
    pub ctx: Ctx,
    pub net: NetworkId,
    pub net_menu_open: bool,
    pub mode: Mode,
    pub composer: Composer,
    pub reader: Reader,
    pub raw: RawComposer,
    pub probe_seq: u64,
    pub queue: Queue,
    pub sim: SimState,
    pub shelf: Shelf,
    pub json: JsonBox,
    /// The last batch this pane got an answer about.
    pub settled: Option<SettledFor>,
    pub error: Option<String>,
}

impl Replica for (u64, String) {
    fn replica(&self) -> (r: Self) {
        (self.0, self.1.clone())
    }
}

} // verus!

//! The review every signature passes through: what is signed, step by step, and
//! the buttons that confirm or cancel it.

use vstd::prelude::*;

use crate::chain::Chain;
use crate::chain::NetworkId;
use crate::function_panel::CardModel;
use crate::function_panel::DecodeResult;
use crate::function_panel::Headline;
use crate::function_panel::HeadlineCard;
use crate::function_panel::Panel;
use crate::function_panel::PanelModel;
use crate::primitives::Address;
use crate::primitives::B256;
use crate::primitives::U256;
use crate::text::model_of;
use crate::text::models;
use crate::tx_builder::request::BatchSignRequest;
use crate::tx_builder::Preflight;

pub mod economics;
pub mod laws;
pub mod legs;
pub mod overlay;
pub mod steps;
pub mod typed;

verus! {

/// What the overlay can be asked to do.
#[derive(Debug, Clone, Copy, PartialEq, Eq, Structural)]
pub enum Message {
    Confirm,
    Cancel,
    /// A click that changes nothing.
    BoxClickIgnored,
    /// A key was pressed.
    Key,
    /// An address was copied; nothing changes.
    AddressCopied,
    /// Folds or unfolds the mechanical detail of every step.
    ToggleCalldata,
    /// Folds or unfolds the fingerprints of every step.
    ToggleFingerprints,
    /// The second primary action, where there is one.
    Secondary,
}

/// A raw transaction the user will sign.
#[derive(Debug)]
pub struct ReviewLeg {
    pub title: String,
    pub to: Address,
    pub value: U256,
    pub net: NetworkId,
    /// The exact calldata; empty for a plain transfer.
    pub calldata: Vec<u8>,
    pub decoded: Box<DecodeResult>,
    /// The one line that says what the decoded call does.
    pub headline: Option<Headline>,
    /// The calls a batch fans out into, recovered from the calldata.
    pub sub_legs: Vec<ReviewLeg>,
    /// What the call changes about the very account it executes as.
    pub self_admin: Option<String>,
}

/// The delegation that an atomic batch of a plain account rides on. It is
/// signed separately, and outlives the transaction that carries it.
#[derive(Debug, Clone, PartialEq, Eq)]
pub struct DelegationReview {
    /// The contract the account's code will point at.
    pub delegate: Address,
    pub delegate_label: String,
    /// The account being delegated.
    pub authority: Address,
    /// The chain the authorization is scoped to.
    pub chain_id: u64,
    pub net: NetworkId,
    /// The account already runs this delegate's code: nothing new is signed.
    pub already_active: bool,
    /// The delegate the account runs today, whichever it is.
    pub incumbent: Option<Address>,
    /// The nonce the authorization commits to; none when nothing is signed.
    pub auth_nonce: Option<u64>,
    /// The digest of the authorization.
    pub auth_digest: Option<B256>,
}

impl DelegationReview {
    /// The delegate that signing would displace: the incumbent, unless it is
    /// the same.
    pub open spec fn displaced(self) -> Option<Address> {
        match self.incumbent {
            Some(d) => if d == self.delegate {
                None
            } else {
                Some(d)
            },
            None => None,
        }
    }

    /// The delegate that signing would displace, if there is another.
    pub fn replacing(&self) -> (r: Option<Address>)
        ensures
            r == self.displaced(),
    {
        match self.incumbent {
            Some(d) => if d == self.delegate {
                None
            } else {
                Some(d)
            },
            None => None,
        }
    }
}

/// The hashes of an EIP-712 signature.
#[derive(Debug, Clone, Copy, PartialEq, Eq, Structural)]
pub struct Eip712Digests {
    pub digest: B256,
    pub domain_hash: B256,
    pub message_hash: B256,
}

/// An order signed as EIP-712 typed data.
#[derive(Debug, Clone, PartialEq, Eq)]
pub struct OrderReview {
    pub chain: Chain,
    pub sell_amount: String,
    pub sell_symbol: String,
    pub buy_amount: String,
    pub buy_symbol: String,
    pub min_received: String,
    pub receiver: Address,
    /// When it expires, in Unix seconds.
    pub valid_to: u32,
    pub slippage_bps: u16,
    pub settlement: Address,
    /// It sells the native coin: settled on chain, for gas.
    pub native: bool,
    pub eip712: Eip712Digests,
}

/// A transaction executed by a Safe.
#[derive(Debug)]
pub struct SafeExecReview {
    pub safe: Address,
    pub nonce: u64,
    pub threshold: u8,
    pub owner_count: u8,
    /// The exact hash each owner signs.
    pub safe_tx_hash: B256,
    pub eip712: Eip712Digests,
    /// The call the Safe executes.
    pub inner: Box<ReviewLeg>,
    /// Zero for a call, one for a delegatecall.
    pub operation: u8,
    /// The transaction guard, where one is installed.
    pub guard: Option<Address>,
    /// The Safe's own nonce when this was prepared.
    pub onchain_nonce: u64,
}

impl SafeExecReview {
    /// How many queued proposals this transaction sits behind.
    pub open spec fn ahead(self) -> nat {
        if self.nonce >= self.onchain_nonce {
            (self.nonce - self.onchain_nonce) as nat
        } else {
            0
        }
    }

    /// How many queued proposals this transaction sits behind.
    pub fn queued_ahead(&self) -> (r: u64)
        ensures
            r == self.ahead(),
    {
        if self.nonce >= self.onchain_nonce {
            self.nonce - self.onchain_nonce
        } else {
            0
        }
    }
}

/// An order that a Safe authorizes with a signed message.
#[derive(Debug, Clone, PartialEq, Eq)]
pub struct SafeMessageReview {
    pub order: OrderReview,
    pub safe: Address,
    pub threshold: u8,
    pub owner_count: u8,
    pub order_digest: B256,
    /// The exact hash each owner signs.
    pub message_hash: B256,
    pub eip712: Eip712Digests,
}

/// A send of a plain account, as far as its fingerprints go.
#[derive(Debug, Clone, Copy, PartialEq, Eq, Structural)]
pub struct SendReview {
    pub calldata_digest: Option<B256>,
}

/// A send of a Safe, as far as its fingerprints go.
#[derive(Debug, Clone, Copy, PartialEq, Eq, Structural)]
pub struct SafeSendReview {
    pub eip712: Eip712Digests,
    pub inner_calldata_digest: Option<B256>,
}

/// A step of a review.
#[derive(Debug)]
pub enum SignStep {
    RawTx(ReviewLeg),
    Delegation(DelegationReview),
    Typed(OrderReview),
    SafeExec(SafeExecReview),
    SafeMessage(SafeMessageReview),
    Send(SendReview),
    SafeSend(SafeSendReview),
}

/// What pins a reviewed Safe order: the nonce and hashes that were shown.
#[derive(Debug, Clone, Copy, PartialEq, Eq, Structural)]
pub struct CowSafePin {
    pub exec_nonce: u64,
    pub exec_hash: Option<B256>,
    pub msg_hash: Option<B256>,
}

/// Where an order was composed.
#[derive(Debug, Clone, Copy, PartialEq, Eq, Structural)]
pub enum CowHost {
    Modal,
    Apps,
}

/// A deposit into or an exit from a pool.
#[derive(Debug, Clone)]
pub enum PoolSign {
    Deposit {
        chain: Chain,
        symbol: String,
        to: Address,
        value: U256,
        calldata: Vec<u8>,
        /// The token and the approval sent to it first.
        approve: Option<(Address, Vec<u8>)>,
    },
    Ragequit { chain: Chain, symbol: String, pool: Address, calldata: Vec<u8> },
}

/// A write to a name registry.
#[derive(Debug, Clone)]
pub enum NameSign {
    Commit { namespace: String, label: String },
    Register { namespace: String, label: String },
    RegisterXns { namespace: String, label: String },
    Renew { namespace: String, label: String, years: u32 },
    SetRecipient { namespace: String, label: String, recipient: Address },
}

/// What runs when the user confirms.
#[allow(inconsistent_fields)]
#[derive(Debug, Clone)]
pub enum SignAction {
    Cow { host: CowHost, prepared: Option<CowSafePin> },
    CowCancel { host: CowHost, uid: String },
    Name { sign: NameSign },
    PrivacyPool { sign: PoolSign },
    Send,
    SafeSend { can_execute: bool },
    TxBuilder { req: BatchSignRequest, can_execute: bool, preflight: Preflight },
}

/// An owner the wallet drives through a ceremony.
#[derive(Debug, Clone, PartialEq, Eq)]
pub struct SigningOwner {
    pub label: String,
    pub address: Address,
    /// It confirms on a device.
    pub hardware: bool,
}

/// The ceremony a review waits on. None on a review means one signature.
#[derive(Debug, Clone, PartialEq, Eq)]
pub enum SigningKind {
    /// Each owner signs in turn, and then the transaction is broadcast.
    SafeExecute { owners: Vec<SigningOwner>, separate_gas_payer: bool },
    /// One owner signs, and the co-signers finish.
    SafePropose { owner: SigningOwner },
    /// A batch of a plain account, with a fresh delegation or without.
    Eip7702Batch { fresh_authorization: bool },
    /// Broadcast, and waiting for its receipt.
    Broadcasting { hash: B256 },
}

/// Which way a balance change runs, seen from the signing account.
#[derive(Debug, Clone, Copy, PartialEq, Eq, Structural)]
pub enum MoveDirection {
    Out,
    In,
}

/// A balance change, ready to show.
#[derive(Debug, Clone, PartialEq, Eq)]
pub struct MovedAmount {
    /// Amount and symbol.
    pub amount: String,
    pub direction: MoveDirection,
}

/// What a batch moves, and what it costs.
#[derive(Debug, Clone, PartialEq, Eq)]
pub struct BatchEconomics {
    pub moves: Vec<MovedAmount>,
    /// A successful simulation stands behind the token rows.
    pub simulated: bool,
    /// Every read behind the simulation was verified.
    pub verified: bool,
    /// The simulation is too old to speak of the state the batch will meet.
    pub stale: bool,
    /// Zero: not known.
    pub gas_used: u64,
    /// In wei. Zero: not known.
    pub base_fee_per_gas: u64,
    /// How the fee may be wrong.
    pub fee_caveats: Vec<String>,
}

/// What an open review shows, and what it does when confirmed.
#[derive(Debug)]
pub struct SignReview {
    pub title: String,
    pub subtitle: Option<String>,
    pub steps: Vec<SignStep>,
    /// Steps are still being prepared.
    pub legs_loading: bool,
    pub note: Option<String>,
    /// Drops what arrives for an earlier review.
    pub seq: u64,
    pub action: SignAction,
    /// When the signing began, in nanoseconds of the caller's clock.
    pub signing_since: Option<u64>,
    /// A broadcast error, shown on the review that is still open.
    pub error: Option<String>,
    /// A label for the confirm button other than the usual one.
    pub confirm_label: Option<String>,
    /// Blocks the confirm button even when every step is ready.
    pub confirm_disabled: bool,
    /// A second primary action.
    pub secondary_label: Option<String>,
    pub show_calldata: bool,
    pub show_fingerprints: bool,
    pub signing_progress: Option<SigningKind>,
    pub economics: Option<BatchEconomics>,
    /// The transaction this review has put on the wire. While it is set there
    /// is nothing left to confirm.
    pub broadcast: Option<B256>,
}

// ── what is shown ───────────────────────────────────────────────────

/// A row of a card.
#[derive(Debug)]
pub enum Row {
    /// A small label.
    Caption(String),
    Heading(String),
    /// Prose.
    Note(String),
    /// Prose in the colour of warnings.
    Alarm(String),
    Field { label: String, value: String },
    /// A label, and the full address to check.
    AddressField { label: String, addr: Address },
    /// A label, and the full hash to check.
    HashField { label: String, hash: B256 },
    /// A label, and an amount in wei to show in ether.
    EtherField { label: String, wei: U256 },
    /// A framed warning.
    Banner { title: String, body: String },
    Headline(HeadlineCard),
    /// Folds and unfolds the detail.
    DetailToggle { shown: bool },
    Panel(Panel),
}

#[verifier::ext_equal]
pub enum RowModel {
    Caption(Seq<char>),
    Heading(Seq<char>),
    Note(Seq<char>),
    Alarm(Seq<char>),
    Field { label: Seq<char>, value: Seq<char> },
    AddressField { label: Seq<char>, addr: Address },
    HashField { label: Seq<char>, hash: B256 },
    EtherField { label: Seq<char>, wei: U256 },
    Banner { title: Seq<char>, body: Seq<char> },
    Headline(CardModel),
    DetailToggle { shown: bool },
    Panel(PanelModel),
}

impl View for Row {
    type V = RowModel;

    open spec fn view(&self) -> RowModel {
        match *self {
            Row::Caption(s) => RowModel::Caption(s@),
            Row::Heading(s) => RowModel::Heading(s@),
            Row::Note(s) => RowModel::Note(s@),
            Row::Alarm(s) => RowModel::Alarm(s@),
            Row::Field { label, value } => RowModel::Field { label: label@, value: value@ },
            Row::AddressField { label, addr } => RowModel::AddressField { label: label@, addr },
            Row::HashField { label, hash } => RowModel::HashField { label: label@, hash },
            Row::EtherField { label, wei } => RowModel::EtherField { label: label@, wei },
            Row::Banner { title, body } => RowModel::Banner { title: title@, body: body@ },
            Row::Headline(h) => RowModel::Headline(h@),
            Row::DetailToggle { shown } => RowModel::DetailToggle { shown },
            Row::Panel(p) => RowModel::Panel(p@),
        }
    }
}

/// A card of rows.
#[derive(Debug)]
pub struct Rows {
    pub rows: Vec<Row>,
}

impl View for Rows {
    type V = Seq<RowModel>;

    open spec fn view(&self) -> Seq<RowModel> {
        models(self.rows@)
    }
}

/// The card of a raw transaction, with a card for each call inside it.
#[derive(Debug)]
pub struct LegCard {
    pub rows: Vec<Row>,
    /// Stands above the cards of the calls inside.
    pub caption: Option<String>,
    pub subs: Vec<Rows>,
}

#[verifier::ext_equal]
pub struct LegModel {
    pub rows: Seq<RowModel>,
    pub caption: Option<Seq<char>>,
    pub subs: Seq<Seq<RowModel>>,
}

impl View for LegCard {
    type V = LegModel;

    open spec fn view(&self) -> LegModel {
        LegModel {
            rows: models(self.rows@),
            caption: model_of(self.caption),
            subs: models(self.subs@),
        }
    }
}

/// Appends a row.
pub(crate) fn push_row(rows: &mut Vec<Row>, row: Row)
    ensures
        models(final(rows)@) == models(old(rows)@).push(row@),
{
    let ghost before = rows@;
    rows.push(row);
    proof {
        assert(models(rows@) =~= models(before).push(row@));
    }
}

/// A label and a value.
pub(crate) fn field(label: &str, value: String) -> (r: Row)
    ensures
        r@ == (RowModel::Field { label: label@, value: value@ }),
{
    Row::Field { label: label.to_owned(), value }
}

/// A label and an address.
pub(crate) fn address_field(label: &str, addr: Address) -> (r: Row)
    ensures
        r@ == (RowModel::AddressField { label: label@, addr }),
{
    Row::AddressField { label: label.to_owned(), addr }
}

/// A label and a hash.
pub(crate) fn hash_field(label: &str, hash: B256) -> (r: Row)
    ensures
        r@ == (RowModel::HashField { label: label@, hash }),
{
    Row::HashField { label: label.to_owned(), hash }
}

} // verus!

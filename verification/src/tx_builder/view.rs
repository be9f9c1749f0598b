//! What the builder shows: plain values to draw, and the message behind each
//! button.

use vstd::prelude::*;

use crate::chain::NetworkId;
use crate::primitives::short_address;
use crate::text::dec;
use crate::text::decimal;
use crate::text::lemma_next;
use crate::text::model_of;
use crate::text::models;
use crate::text::none_of;
use crate::text::replicate;
use crate::text::replicate_opt;
use crate::text::trim;
use crate::text::trimmed;
use crate::text::Replica;
use crate::tx_builder::model::failing_step;
use crate::tx_builder::model::Pane;
use crate::tx_builder::query::offered_networks;
use crate::tx_builder::query::ComposeChecks;
use crate::tx_builder::view::batch::batch_model;
use crate::tx_builder::view::batch::batch_pane;
use crate::tx_builder::view::batch::BatchModel;
use crate::tx_builder::view::batch::BatchPane;
use crate::tx_builder::view::composer::composer_model;
use crate::tx_builder::view::composer::composer_pane;
use crate::tx_builder::view::composer::ComposerPane;
use crate::tx_builder::view::composer::PaneModel;
use crate::tx_builder::FlashWrap;
use crate::tx_builder::Message;
use crate::tx_builder::Modal;
use crate::tx_builder::Settled;
use crate::tx_builder::TxBuilderApp;
use crate::tx_builder::VersionGate;
use crate::txbuilder::AbiMethod;
use crate::txbuilder::CallModel;
use crate::txbuilder::MethodModel;
use crate::txbuilder::QueuedCall;

pub mod batch;
pub mod composer;
pub mod laws;

verus! {

/// A button: its label, and what it does when it can be pressed.
#[derive(Debug, Clone)]
pub struct Press {
    pub label: String,
    pub action: Option<Message>,
}

#[verifier::ext_equal]
pub struct PressModel {
    pub label: Seq<char>,
    pub action: Option<Message>,
}

impl View for Press {
    type V = PressModel;

    open spec fn view(&self) -> PressModel {
        PressModel { label: self.label@, action: self.action }
    }
}

/// A message that is sent only under a condition.
pub open spec fn only_if(enabled: bool, m: Message) -> Option<Message> {
    if enabled {
        Some(m)
    } else {
        None
    }
}

/// A button.
pub(crate) fn press(label: &str, action: Option<Message>) -> (r: Press)
    ensures
        r@ == (PressModel { label: label@, action }),
{
    Press { label: label.to_owned(), action }
}

/// A parameter, as far as its type decides.
#[derive(Debug, Clone, PartialEq, Eq)]
pub struct ParamFacts {
    /// What it is called.
    pub name: String,
    /// Its field holds a value of its type.
    pub valid: bool,
}

/// What has to be found out before the pane is shown: about the texts in its
/// fields, the selected methods with their arguments, the queue, and a Safe of
/// this version.
#[derive(Debug, Clone)]
pub struct ScreenQuestion {
    /// The address field.
    pub address: String,
    /// The value field of a method that takes one.
    pub value: String,
    /// The selected method, and the texts in its fields.
    pub call: Option<AskedCall>,
    /// The selected query, and the texts in its fields.
    pub query: Option<AskedCall>,
    pub raw_to: String,
    pub raw_value: String,
    pub raw_data: String,
    pub calls: Vec<QueuedCall>,
    /// The next call's id.
    pub id: u64,
    pub safe_version: Option<String>,
}

#[verifier::ext_equal]
pub struct ScreenQuestionModel {
    pub address: Seq<char>,
    pub value: Seq<char>,
    pub call: Option<AskedModel>,
    pub query: Option<AskedModel>,
    pub raw_to: Seq<char>,
    pub raw_value: Seq<char>,
    pub raw_data: Seq<char>,
    pub calls: Seq<CallModel>,
    pub id: u64,
    pub safe_version: Option<Seq<char>>,
}

impl View for ScreenQuestion {
    type V = ScreenQuestionModel;

    open spec fn view(&self) -> ScreenQuestionModel {
        ScreenQuestionModel {
            address: self.address@,
            value: self.value@,
            call: model_of(self.call),
            query: model_of(self.query),
            raw_to: self.raw_to@,
            raw_value: self.raw_value@,
            raw_data: self.raw_data@,
            calls: models(self.calls@),
            id: self.id,
            safe_version: model_of(self.safe_version),
        }
    }
}

/// A method, and the texts in its fields.
#[derive(Debug, Clone)]
pub struct AskedCall {
    pub method: AbiMethod,
    pub args: Vec<String>,
}

#[verifier::ext_equal]
pub struct AskedModel {
    pub method: MethodModel,
    pub args: Seq<Seq<char>>,
}

impl View for AskedCall {
    type V = AskedModel;

    open spec fn view(&self) -> AskedModel {
        AskedModel { method: self.method@, args: models(self.args@) }
    }
}

/// What was found out before the pane is shown: the answer to a
/// [`ScreenQuestion`].
#[derive(Debug, Clone)]
pub struct ViewFacts {
    /// The address field spells an address.
    pub addr_ok: bool,
    /// The raw target spells an address.
    pub raw_to_ok: bool,
    pub compose: ComposeChecks,
    /// The parameters of the selected method.
    pub params: Vec<ParamFacts>,
    /// The parameters of the selected query.
    pub read_params: Vec<ParamFacts>,
    /// Every query argument is a value of its parameter's type.
    pub read_args_valid: bool,
    /// How many allowances the queue leaves standing.
    pub revokes: usize,
    /// The queue wrapped in flash-approval resets.
    pub wrap: FlashWrap,
    /// What the calldata of each queued call would do to a Safe, where that is
    /// recognised.
    pub effects: Vec<Option<String>>,
    /// What the Safe's contract version allows.
    pub gate: VersionGate,
}

// ── header ──────────────────────────────────────────────────────────

/// The network in the header. A Safe is pinned to its own.
#[derive(Debug, Clone)]
pub struct NetworkChip {
    pub name: String,
    pub chain: String,
    pub glyph: &'static str,
    /// The user added it: nothing on it is verified.
    pub custom: bool,
    pub action: Option<Message>,
}

#[verifier::ext_equal]
pub struct NetworkChipModel {
    pub name: Seq<char>,
    pub chain: Seq<char>,
    pub glyph: Seq<char>,
    pub custom: bool,
    pub action: Option<Message>,
}

impl View for NetworkChip {
    type V = NetworkChipModel;

    open spec fn view(&self) -> NetworkChipModel {
        NetworkChipModel {
            name: self.name@,
            chain: self.chain@,
            glyph: self.glyph@,
            custom: self.custom,
            action: self.action,
        }
    }
}

/// The network in the header.
pub open spec fn network_chip_model(p: Pane) -> NetworkChipModel {
    NetworkChipModel {
        name: p.net_name(),
        chain: "chain "@ + dec(p.net.id() as nat),
        glyph: if p.ctx.is_safe {
            "🔒"@
        } else if p.net_menu_open {
            "▲"@
        } else {
            "▼"@
        },
        custom: p.is_custom(),
        action: only_if(!p.ctx.is_safe, Message::ToggleNetworkMenu),
    }
}

/// A network of the switcher.
#[derive(Debug, Clone)]
pub struct NetworkOption {
    pub name: String,
    pub chain_id: String,
    pub custom: bool,
    /// It is the active one.
    pub on: bool,
    pub action: Message,
}

#[verifier::ext_equal]
pub struct NetworkOptionModel {
    pub name: Seq<char>,
    pub chain_id: Seq<char>,
    pub custom: bool,
    pub on: bool,
    pub action: Message,
}

impl View for NetworkOption {
    type V = NetworkOptionModel;

    open spec fn view(&self) -> NetworkOptionModel {
        NetworkOptionModel {
            name: self.name@,
            chain_id: self.chain_id@,
            custom: self.custom,
            on: self.on,
            action: self.action,
        }
    }
}

/// A network of the switcher.
pub open spec fn network_option(n: (NetworkId, Seq<char>), active: NetworkId) -> NetworkOptionModel {
    NetworkOptionModel {
        name: n.1,
        chain_id: dec(n.0.id() as nat),
        custom: n.0 is Custom,
        on: n.0 == active,
        action: Message::SetNetwork(n.0),
    }
}

/// The networks of the switcher.
pub open spec fn network_menu_model(p: Pane) -> Seq<NetworkOptionModel> {
    offered_networks(p.ctx.custom_networks).map_values(
        |n: (NetworkId, Seq<char>)| network_option(n, p.net),
    )
}

/// The account in the header.
#[derive(Debug, Clone, PartialEq, Eq)]
pub struct IdentityChip {
    pub label: &'static str,
    pub address: String,
}

#[verifier::ext_equal]
pub struct IdentityModel {
    pub label: Seq<char>,
    pub address: Seq<char>,
}

impl View for IdentityChip {
    type V = IdentityModel;

    open spec fn view(&self) -> IdentityModel {
        IdentityModel { label: self.label@, address: self.address@ }
    }
}

/// The account in the header.
pub open spec fn identity_model(p: Pane) -> IdentityModel {
    IdentityModel {
        label: if p.ctx.is_safe {
            "Safe multisig"@
        } else {
            "Single account"@
        },
        address: p.owner.short_text(),
    }
}

/// The network in the header.
pub fn network_chip(app: &TxBuilderApp) -> (r: NetworkChip)
    ensures
        r@ == network_chip_model(app@),
{
    let mut chain: String = "chain ".to_owned();
    chain.append(decimal(app.net.chain_id()).as_str());
    NetworkChip {
        name: app.net_display_name(),
        chain,
        glyph: if app.ctx.is_safe {
            "🔒"
        } else if app.net_menu_open {
            "▲"
        } else {
            "▼"
        },
        custom: app.is_custom(),
        action: if app.ctx.is_safe {
            None
        } else {
            Some(Message::ToggleNetworkMenu)
        },
    }
}

/// The networks of the switcher: the built-in chains, and then the user's own.
pub fn network_menu(app: &TxBuilderApp) -> (r: Vec<NetworkOption>)
    ensures
        models(r@) == network_menu_model(app@),
{
    let options: Vec<(NetworkId, String)> = app.network_options();
    let mut out: Vec<NetworkOption> = none_of();
    let mut i: usize = 0;
    while i < options.len()
        invariant
            i <= options@.len(),
            models(options@) == offered_networks(app@.ctx.custom_networks),
            models(out@) =~= network_menu_model(app@).take(i as int),
        decreases options@.len() - i,
    {
        let net: NetworkId = options[i].0;
        let ghost before = out@;
        let option: NetworkOption = NetworkOption {
            name: options[i].1.clone(),
            chain_id: decimal(net.chain_id()),
            custom: net.is_custom(),
            on: net == app.net,
            action: Message::SetNetwork(net),
        };
        out.push(option);
        proof {
            let all = network_menu_model(app@);
            assert(models(options@)[i as int] == options@[i as int]@);
            assert(models(out@) =~= models(before).push(option@));
            lemma_next(all, i as int);
        }
        i = i + 1;
    }
    proof {
        let all = network_menu_model(app@);
        assert(models(options@).len() == options@.len());
        assert(all.take(i as int) =~= all);
    }
    out
}

/// The account in the header.
pub fn identity_chip(app: &TxBuilderApp) -> (r: IdentityChip)
    ensures
        r@ == identity_model(app@),
{
    IdentityChip {
        label: if app.ctx.is_safe {
            "Safe multisig"
        } else {
            "Single account"
        },
        address: short_address(app.owner),
    }
}

// ── the overlay ─────────────────────────────────────────────────────

/// The import/export overlay.
#[derive(Debug, Clone)]
pub struct ModalView {
    pub title: &'static str,
    pub subtitle: &'static str,
    pub text: String,
    /// The text can be edited.
    pub editable: bool,
    pub error: Option<String>,
    pub left: Press,
    pub right: Press,
    pub close: Message,
}

#[verifier::ext_equal]
pub struct ModalModel {
    pub title: Seq<char>,
    pub subtitle: Seq<char>,
    pub text: Seq<char>,
    pub editable: bool,
    pub error: Option<Seq<char>>,
    pub left: PressModel,
    pub right: PressModel,
    pub close: Message,
}

impl View for ModalView {
    type V = ModalModel;

    open spec fn view(&self) -> ModalModel {
        ModalModel {
            title: self.title@,
            subtitle: self.subtitle@,
            text: self.text@,
            editable: self.editable,
            error: model_of(self.error),
            left: self.left@,
            right: self.right@,
            close: self.close,
        }
    }
}

/// The import/export overlay. Only text can be imported.
pub open spec fn modal_model(p: Pane) -> ModalModel {
    if p.json.modal == Modal::Save {
        ModalModel {
            title: "Export batch"@,
            subtitle: "Safe-compatible transaction bundle · JSON"@,
            text: p.json.text,
            editable: false,
            error: p.json.error,
            left: PressModel { label: "Copy JSON"@, action: Some(Message::CopyJson) },
            right: PressModel { label: "Done"@, action: Some(Message::CloseModal) },
            close: Message::CloseModal,
        }
    } else {
        ModalModel {
            title: "Import batch"@,
            subtitle: "Paste a bundle to reconstruct it"@,
            text: p.json.text,
            editable: true,
            error: p.json.error,
            left: PressModel { label: "Cancel"@, action: Some(Message::CloseModal) },
            right: PressModel {
                label: "Load batch →"@,
                action: only_if(trimmed(p.json.text).len() > 0, Message::ImportJson),
            },
            close: Message::CloseModal,
        }
    }
}

/// Whether a text is blank.
pub(crate) fn is_blank(s: &str) -> (r: bool)
    ensures
        r == (trimmed(s@).len() == 0),
{
    trim(s).as_str().is_empty()
}

/// The import/export overlay.
pub fn modal_view(app: &TxBuilderApp) -> (r: ModalView)
    ensures
        r@ == modal_model(app@),
{
    let text: String = app.json.text.clone();
    let error: Option<String> = replicate_opt(&app.json.error);
    if app.json.modal == Modal::Save {
        ModalView {
            title: "Export batch",
            subtitle: "Safe-compatible transaction bundle · JSON",
            text,
            editable: false,
            error,
            left: press("Copy JSON", Some(Message::CopyJson)),
            right: press("Done", Some(Message::CloseModal)),
            close: Message::CloseModal,
        }
    } else {
        let can: bool = !is_blank(app.json.text.as_str());
        let load: Option<Message> = if can {
            Some(Message::ImportJson)
        } else {
            None
        };
        ModalView {
            title: "Import batch",
            subtitle: "Paste a bundle to reconstruct it",
            text,
            editable: true,
            error,
            left: press("Cancel", Some(Message::CloseModal)),
            right: press("Load batch →", load),
            close: Message::CloseModal,
        }
    }
}

// ── the last batch ──────────────────────────────────────────────────

/// What became of the last batch on this account and network.
#[derive(Debug, Clone)]
pub struct SettledStrip {
    pub outcome: Settled,
    /// What copies its hash, where it has one.
    pub copy: Option<Message>,
    pub dismiss: Message,
}

impl View for SettledStrip {
    type V = SettledStrip;

    open spec fn view(&self) -> SettledStrip {
        *self
    }
}

/// What became of the last batch.
pub open spec fn settled_model(p: Pane) -> Option<SettledStrip> {
    match p.visible_settled() {
        Some(s) => Some(
            SettledStrip {
                outcome: s,
                copy: only_if(s.hash_of() is Some, Message::CopySettledHash),
                dismiss: Message::DismissSettled,
            },
        ),
        None => None,
    }
}

/// What became of the last batch on this account and network.
pub fn settled_strip(app: &TxBuilderApp) -> (r: Option<SettledStrip>)
    ensures
        r == settled_model(app@),
{
    match app.visible_settled() {
        Some(s) => Some(
            SettledStrip {
                outcome: s,
                copy: match s.hash() {
                    Some(_) => Some(Message::CopySettledHash),
                    None => None,
                },
                dismiss: Message::DismissSettled,
            },
        ),
        None => None,
    }
}

// ── the whole pane ──────────────────────────────────────────────────

/// The builder.
#[derive(Debug)]
pub struct Builder {
    pub subtitle: &'static str,
    pub network: NetworkChip,
    /// The switcher, when it is open.
    pub menu: Option<Vec<NetworkOption>>,
    pub identity: IdentityChip,
    pub composer: ComposerPane,
    /// A custom network has no batch.
    pub batch: Option<BatchPane>,
    pub settled: Option<SettledStrip>,
    /// Why nothing can be signed for this Safe.
    pub refusal: Option<String>,
    pub error: Option<String>,
}

#[verifier::ext_equal]
pub struct BuilderModel {
    pub subtitle: Seq<char>,
    pub network: NetworkChipModel,
    pub menu: Option<Seq<NetworkOptionModel>>,
    pub identity: IdentityModel,
    pub composer: PaneModel,
    pub batch: Option<BatchModel>,
    pub settled: Option<SettledStrip>,
    pub refusal: Option<Seq<char>>,
    pub error: Option<Seq<char>>,
}

impl View for Builder {
    type V = BuilderModel;

    open spec fn view(&self) -> BuilderModel {
        BuilderModel {
            subtitle: self.subtitle@,
            network: self.network@,
            menu: match self.menu {
                Some(m) => Some(models(m@)),
                None => None,
            },
            identity: self.identity@,
            composer: self.composer@,
            batch: model_of(self.batch),
            settled: self.settled,
            refusal: model_of(self.refusal),
            error: model_of(self.error),
        }
    }
}

/// What is on screen: the overlay, when it is open, or the builder.
#[derive(Debug)]
pub enum Screen {
    Overlay(ModalView),
    Builder(Builder),
}

#[verifier::ext_equal]
pub enum ScreenModel {
    Overlay(ModalModel),
    Builder(BuilderModel),
}

impl View for Screen {
    type V = ScreenModel;

    open spec fn view(&self) -> ScreenModel {
        match *self {
            Screen::Overlay(m) => ScreenModel::Overlay(m@),
            Screen::Builder(b) => ScreenModel::Builder(b@),
        }
    }
}

/// The builder.
pub open spec fn builder_model(p: Pane, f: ViewFacts) -> BuilderModel {
    BuilderModel {
        subtitle: if p.is_custom() {
            "compose · read · send — one transaction at a time on this custom network"@
        } else {
            "compose · simulate · sign — batch many calls into one atomic transaction"@
        },
        network: network_chip_model(p),
        menu: if p.net_menu_open {
            Some(network_menu_model(p))
        } else {
            None
        },
        identity: identity_model(p),
        composer: composer_model(p, f),
        batch: if p.is_custom() {
            None
        } else {
            Some(batch_model(p, f))
        },
        settled: settled_model(p),
        refusal: p.version_block(f.gate),
        error: p.error,
    }
}

/// What is on screen.
pub open spec fn screen_model(p: Pane, f: ViewFacts) -> ScreenModel {
    if p.json.modal != Modal::Closed {
        ScreenModel::Overlay(modal_model(p))
    } else {
        ScreenModel::Builder(builder_model(p, f))
    }
}

impl Pane {
    /// Whether the step that the simulation names can be numbered.
    pub open spec fn steps_numbered(self) -> bool {
        self.sim.result matches Some(s) ==> failing_step(s) matches Some(step) ==> step
            < usize::MAX
    }

    /// What has to be found out before the pane is shown.
    pub open spec fn screen_asks(self) -> ScreenQuestionModel {
        ScreenQuestionModel {
            address: self.composer.addr_input,
            value: self.composer.value_input,
            call: match self.selected_method() {
                Some(method) => Some(AskedModel { method, args: self.composer.args }),
                None => None,
            },
            query: match self.selected_read_method() {
                Some(method) => Some(AskedModel { method, args: self.reader.args }),
                None => None,
            },
            raw_to: self.raw.to,
            raw_value: self.raw.value,
            raw_data: self.raw.data,
            calls: self.queue.batch,
            id: self.queue.next_id,
            safe_version: self.ctx.safe_version,
        }
    }

    /// Whether there is a fact for each field and each call on screen, and every
    /// step of the simulation can be numbered.
    pub open spec fn shown_by(self, f: ViewFacts) -> bool {
        &&& self.selected_method() matches Some(m) ==> f.params@.len() == m.inputs.len()
        &&& self.selected_read_method() matches Some(m) ==> f.read_params@.len() == m.inputs.len()
        &&& f.effects@.len() == self.queue.batch.len()
        &&& self.steps_numbered()
    }
}

impl TxBuilderApp {
    /// What has to be found out before the pane is shown.
    pub fn screen_question(&self) -> (q: ScreenQuestion)
        ensures
            q@ == self@.screen_asks(),
    {
        ScreenQuestion {
            address: self.composer.addr_input.clone(),
            value: self.composer.value_input.clone(),
            call: match self.selected_method() {
                Some(m) => Some(
                    AskedCall { method: m.replica(), args: replicate(&self.composer.args) },
                ),
                None => None,
            },
            query: match self.selected_read_method() {
                Some(m) => Some(
                    AskedCall { method: m.replica(), args: replicate(&self.reader.args) },
                ),
                None => None,
            },
            raw_to: self.raw.to.clone(),
            raw_value: self.raw.value.clone(),
            raw_data: self.raw.data.clone(),
            calls: replicate(&self.queue.batch),
            id: self.queue.next_id,
            safe_version: replicate_opt(&self.ctx.safe_version),
        }
    }

    /// What is on screen.
    pub fn screen(&self, facts: &ViewFacts) -> (r: Screen)
        requires
            self@.shown_by(*facts),
        ensures
            r@ == screen_model(self@, *facts),
    {
        root(self, facts)
    }
}

/// What is on screen: the overlay, when it is open, or the builder.
pub fn root(app: &TxBuilderApp, facts: &ViewFacts) -> (r: Screen)
    requires
        app@.shown_by(*facts),
    ensures
        r@ == screen_model(app@, *facts),
{
    if app.json.modal != Modal::Closed {
        return Screen::Overlay(modal_view(app));
    }
    Screen::Builder(
        Builder {
            subtitle: if app.is_custom() {
                "compose · read · send — one transaction at a time on this custom network"
            } else {
                "compose · simulate · sign — batch many calls into one atomic transaction"
            },
            network: network_chip(app),
            menu: if app.net_menu_open {
                Some(network_menu(app))
            } else {
                None
            },
            identity: identity_chip(app),
            composer: composer_pane(app, facts),
            batch: if app.is_custom() {
                None
            } else {
                Some(batch_pane(app, facts))
            },
            settled: settled_strip(app),
            refusal: app.safe_version_block(&facts.gate),
            error: replicate_opt(&app.error),
        },
    )
}

} // verus!

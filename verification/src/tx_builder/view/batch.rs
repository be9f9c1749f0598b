//! The batch: its cards, its simulation, and what can be done with it.

use vstd::prelude::*;

use crate::chain::Chain;
use crate::chain::NetworkId;
use crate::primitives::checksum_of_address;
use crate::primitives::checksum_text;
use crate::primitives::decimal_of_number;
use crate::primitives::hex_of_bytes;
use crate::primitives::U256;
use crate::text::dec;
use crate::text::decimal;
use crate::text::decimal_usize;
use crate::text::hex_bytes;
use crate::text::lemma_next;
use crate::text::model_of;
use crate::text::models;
use crate::text::none_of;
use crate::text::plural;
use crate::text::plural_suffix;
use crate::tx_builder::model::Pane;
use crate::tx_builder::view::only_if;
use crate::tx_builder::view::press;
use crate::tx_builder::view::Press;
use crate::tx_builder::view::PressModel;
use crate::tx_builder::view::ViewFacts;
use crate::tx_builder::FlashWrap;
use crate::tx_builder::Message;
use crate::tx_builder::TxBuilderApp;
use crate::txbuilder::ArgModel;
use crate::txbuilder::BatchOutcome;
use crate::txbuilder::BatchSimResult;
use crate::txbuilder::CallModel;
use crate::txbuilder::DecodedArg;
use crate::txbuilder::OutcomeModel;
use crate::txbuilder::QueuedCall;
use crate::txbuilder::SimModel;
use crate::txbuilder::Template;
use crate::txbuilder::TemplateModel;

verus! {

// ── templates ───────────────────────────────────────────────────────

/// What can be done with a template.
#[derive(Debug, Clone)]
pub enum TemplateMode {
    /// Load, rename or delete it.
    Shown { load: Message, rename: Message, delete: Message },
    /// Its new name.
    Renaming { buffer: String, commit: Message, cancel: Message },
}

#[verifier::ext_equal]
pub enum TemplateModeModel {
    Shown { load: Message, rename: Message, delete: Message },
    Renaming { buffer: Seq<char>, commit: Message, cancel: Message },
}

impl View for TemplateMode {
    type V = TemplateModeModel;

    open spec fn view(&self) -> TemplateModeModel {
        match *self {
            TemplateMode::Shown { load, rename, delete } => TemplateModeModel::Shown {
                load,
                rename,
                delete,
            },
            TemplateMode::Renaming { buffer, commit, cancel } => TemplateModeModel::Renaming {
                buffer: buffer@,
                commit,
                cancel,
            },
        }
    }
}

/// A template.
#[derive(Debug, Clone)]
pub struct TemplateRow {
    pub name: String,
    pub kaomoji: String,
    pub subtitle: String,
    pub mode: TemplateMode,
}

#[verifier::ext_equal]
pub struct TemplateRowModel {
    pub name: Seq<char>,
    pub kaomoji: Seq<char>,
    pub subtitle: Seq<char>,
    pub mode: TemplateModeModel,
}

impl View for TemplateRow {
    type V = TemplateRowModel;

    open spec fn view(&self) -> TemplateRowModel {
        TemplateRowModel {
            name: self.name@,
            kaomoji: self.kaomoji@,
            subtitle: self.subtitle@,
            mode: self.mode@,
        }
    }
}

/// How many calls a template has, and what it is for.
pub open spec fn template_subtitle(t: TemplateModel) -> Seq<char> {
    dec(t.call_count as nat) + " call"@ + plural(t.call_count as nat) + " · "@ + t.note
}

/// A template; `renaming` holds its new name while it is being renamed.
pub open spec fn template_model(i: usize, t: TemplateModel, renaming: Option<Seq<char>>) ->
    TemplateRowModel {
    TemplateRowModel {
        name: t.name,
        kaomoji: t.kaomoji,
        subtitle: template_subtitle(t),
        mode: match renaming {
            Some(buffer) => TemplateModeModel::Renaming {
                buffer,
                commit: Message::CommitRename,
                cancel: Message::CancelRename,
            },
            None => TemplateModeModel::Shown {
                load: Message::LoadTemplate(i),
                rename: Message::StartRename(i),
                delete: Message::DeleteTemplate(i),
            },
        },
    }
}

/// The new name of the template at `i`, while it is being renamed.
pub open spec fn new_name(p: Pane, i: int) -> Option<Seq<char>> {
    match p.shelf.rename_idx {
        Some(k) => if k == i {
            Some(p.shelf.rename_buf)
        } else {
            None
        },
        None => None,
    }
}

/// The templates.
pub open spec fn template_models(p: Pane) -> Seq<TemplateRowModel> {
    Seq::new(
        p.shelf.templates.len(),
        |i: int| template_model(i as usize, p.shelf.templates[i], new_name(p, i)),
    )
}

/// The templates, and what saves another.
#[derive(Debug, Clone)]
pub struct TemplatesMenu {
    pub title: String,
    pub rows: Vec<TemplateRow>,
    pub save: Press,
}

#[verifier::ext_equal]
pub struct TemplatesModel {
    pub title: Seq<char>,
    pub rows: Seq<TemplateRowModel>,
    pub save: PressModel,
}

impl View for TemplatesMenu {
    type V = TemplatesModel;

    open spec fn view(&self) -> TemplatesModel {
        TemplatesModel { title: self.title@, rows: models(self.rows@), save: self.save@ }
    }
}

/// What saves the batch as a template.
pub open spec fn save_model(calls: nat) -> PressModel {
    PressModel {
        label: if calls > 0 {
            "+ Save current batch · "@ + dec(calls) + " calls"@
        } else {
            "+ Save current batch · queue is empty"@
        },
        action: only_if(calls > 0, Message::SaveTemplate),
    }
}

/// The templates, and what saves another.
pub open spec fn templates_model(p: Pane) -> TemplatesModel {
    TemplatesModel {
        title: "Your templates · "@ + dec(p.shelf.templates.len()),
        rows: template_models(p),
        save: save_model(p.queue.batch.len()),
    }
}

/// A template.
pub fn template_row(index: usize, t: &Template, renaming: Option<&str>) -> (r: TemplateRow)
    ensures
        r@ == template_model(index, t@, model_of(renaming)),
{
    let mut subtitle: String = decimal_usize(t.call_count);
    subtitle.append(" call");
    subtitle.append(plural_suffix(t.call_count as u64));
    subtitle.append(" · ");
    subtitle.append(t.note.as_str());
    TemplateRow {
        name: t.name.clone(),
        kaomoji: t.kaomoji.clone(),
        subtitle,
        mode: match renaming {
            Some(buffer) => TemplateMode::Renaming {
                buffer: buffer.to_owned(),
                commit: Message::CommitRename,
                cancel: Message::CancelRename,
            },
            None => TemplateMode::Shown {
                load: Message::LoadTemplate(index),
                rename: Message::StartRename(index),
                delete: Message::DeleteTemplate(index),
            },
        },
    }
}

/// The templates.
fn template_rows(app: &TxBuilderApp) -> (r: Vec<TemplateRow>)
    ensures
        models(r@) == template_models(app@),
{
    let mut out: Vec<TemplateRow> = none_of();
    let n: usize = app.shelf.templates.len();
    let mut i: usize = 0;
    while i < n
        invariant
            n == app.shelf.templates@.len(),
            i <= n,
            models(out@) =~= template_models(app@).take(i as int),
        decreases n - i,
    {
        let renaming: Option<&str> = match app.shelf.rename_idx {
            Some(k) => if k == i {
                Some(app.shelf.rename_buf.as_str())
            } else {
                None
            },
            None => None,
        };
        let ghost before = out@;
        let row: TemplateRow = template_row(i, &app.shelf.templates[i], renaming);
        out.push(row);
        proof {
            let all = template_models(app@);
            assert(app@.shelf.templates[i as int] == app.shelf.templates@[i as int]@);
            assert(models(out@) =~= models(before).push(row@));
            lemma_next(all, i as int);
        }
        i = i + 1;
    }
    proof {
        let all = template_models(app@);
        assert(all.take(i as int) =~= all);
    }
    out
}

/// The templates, and what saves another.
pub fn templates_menu(app: &TxBuilderApp) -> (r: TemplatesMenu)
    ensures
        r@ == templates_model(app@),
{
    let mut title: String = "Your templates · ".to_owned();
    title.append(decimal_usize(app.shelf.templates.len()).as_str());
    let calls: usize = app.queue.batch.len();
    let save: Press = if calls > 0 {
        let mut label: String = "+ Save current batch · ".to_owned();
        label.append(decimal_usize(calls).as_str());
        label.append(" calls");
        Press { label, action: Some(Message::SaveTemplate) }
    } else {
        press("+ Save current batch · queue is empty", None)
    };
    TemplatesMenu { title, rows: template_rows(app), save }
}

// ── a call ──────────────────────────────────────────────────────────

/// A line of a decoded call.
#[derive(Debug, Clone, PartialEq, Eq)]
pub enum DecodedLine {
    /// A remark that heads a section.
    Comment(String),
    Plain(String),
    Signature(String),
    Value(String),
    /// Wei or calldata.
    Data(String),
}

#[verifier::ext_equal]
pub enum DecodedModel {
    Comment(Seq<char>),
    Plain(Seq<char>),
    Signature(Seq<char>),
    Value(Seq<char>),
    Data(Seq<char>),
}

impl View for DecodedLine {
    type V = DecodedModel;

    open spec fn view(&self) -> DecodedModel {
        match *self {
            DecodedLine::Comment(s) => DecodedModel::Comment(s@),
            DecodedLine::Plain(s) => DecodedModel::Plain(s@),
            DecodedLine::Signature(s) => DecodedModel::Signature(s@),
            DecodedLine::Value(s) => DecodedModel::Value(s@),
            DecodedLine::Data(s) => DecodedModel::Data(s@),
        }
    }
}

/// The function of a call, where its signature and its selector are known.
pub open spec fn function_lines(c: CallModel) -> Seq<DecodedModel> {
    match c.signature {
        Some(sig) => if c.data.len() >= 4 {
            seq![
                DecodedModel::Comment(
                    "// function · selector 0x"@ + hex_bytes(c.data.take(4)),
                ),
                DecodedModel::Signature(sig),
            ]
        } else {
            seq![]
        },
        None => seq![],
    }
}

/// The arguments of a call, each as its name and its value.
pub open spec fn arg_lines(args: Seq<ArgModel>) -> Seq<DecodedModel>
    decreases args.len(),
{
    if args.len() == 0 {
        seq![]
    } else {
        arg_lines(args.drop_last()).push(DecodedModel::Plain(args.last().name + " ="@)).push(
            DecodedModel::Value(args.last().value),
        )
    }
}

/// The section of a call's arguments.
pub open spec fn args_section(c: CallModel) -> Seq<DecodedModel> {
    if c.signature is Some && c.decoded_args.len() > 0 {
        seq![DecodedModel::Comment("// args"@)] + arg_lines(c.decoded_args)
    } else {
        seq![]
    }
}

/// The section of a call's value; one without a value has none.
pub open spec fn value_section(c: CallModel) -> Seq<DecodedModel> {
    if c.value == U256::zero_value() {
        seq![]
    } else {
        seq![
            DecodedModel::Comment("// value"@),
            DecodedModel::Data(dec(c.value.value()) + " wei"@),
        ]
    }
}

/// The lines of a decoded call: its target, its function and arguments, its
/// value, and its calldata.
pub open spec fn decoded_lines(c: CallModel) -> Seq<DecodedModel> {
    seq![DecodedModel::Comment("// target"@), DecodedModel::Plain(checksum_text(c.to))]
        + function_lines(c) + args_section(c) + value_section(c) + seq![
        DecodedModel::Comment("// calldata"@),
        DecodedModel::Data("0x"@ + hex_bytes(c.data)),
    ]
}

/// The card of a queued call.
#[derive(Debug, Clone)]
pub struct TxCard {
    pub number: String,
    pub title: String,
    pub detail: String,
    /// It was composed from raw bytes.
    pub raw: bool,
    /// The wei it carries, if any.
    pub wei: Option<U256>,
    pub up: Option<Message>,
    pub down: Option<Message>,
    pub expand: Message,
    pub remove: Message,
    /// Its decoded form, while it is expanded.
    pub decoded: Option<Vec<DecodedLine>>,
}

#[verifier::ext_equal]
pub struct TxCardModel {
    pub number: Seq<char>,
    pub title: Seq<char>,
    pub detail: Seq<char>,
    pub raw: bool,
    pub wei: Option<U256>,
    pub up: Option<Message>,
    pub down: Option<Message>,
    pub expand: Message,
    pub remove: Message,
    pub decoded: Option<Seq<DecodedModel>>,
}

impl View for TxCard {
    type V = TxCardModel;

    open spec fn view(&self) -> TxCardModel {
        TxCardModel {
            number: self.number@,
            title: self.title@,
            detail: self.detail@,
            raw: self.raw,
            wei: self.wei,
            up: self.up,
            down: self.down,
            expand: self.expand,
            remove: self.remove,
            decoded: match self.decoded {
                Some(d) => Some(models(d@)),
                None => None,
            },
        }
    }
}

/// The card of the call at `i` in a queue of `total`. The first cannot move up,
/// nor the last down.
pub open spec fn card_model(i: int, total: int, c: CallModel, expanded: Option<u64>) -> TxCardModel {
    TxCardModel {
        number: dec((i + 1) as nat),
        title: c.title,
        detail: c.detail,
        raw: c.signature is None,
        wei: if c.value == U256::zero_value() {
            None
        } else {
            Some(c.value)
        },
        up: only_if(i > 0, Message::MoveUp(c.id)),
        down: only_if(i + 1 < total, Message::MoveDown(c.id)),
        expand: Message::ToggleExpand(c.id),
        remove: Message::RemoveCall(c.id),
        decoded: if expanded == Some(c.id) {
            Some(decoded_lines(c))
        } else {
            None
        },
    }
}

/// The cards of the queue.
pub open spec fn card_models(p: Pane) -> Seq<TxCardModel> {
    Seq::new(
        p.queue.batch.len(),
        |i: int|
            card_model(i, p.queue.batch.len() as int, p.queue.batch[i], p.queue.expanded),
    )
}

/// Appends a line.
fn push_line(lines: &mut Vec<DecodedLine>, line: DecodedLine)
    ensures
        models(final(lines)@) == models(old(lines)@).push(line@),
{
    let ghost before = lines@;
    lines.push(line);
    proof {
        assert(models(lines@) =~= models(before).push(line@));
    }
}

/// Appends the function of a call.
fn push_function(lines: &mut Vec<DecodedLine>, c: &QueuedCall)
    ensures
        models(final(lines)@) == models(old(lines)@) + function_lines(c@),
{
    let ghost before = models(lines@);
    match (&c.signature, c.selector()) {
        (Some(sig), Some(sel)) => {
            let mut s: String = "// function · selector 0x".to_owned();
            s.append(hex_of_bytes(&sel).as_str());
            push_line(lines, DecodedLine::Comment(s));
            push_line(lines, DecodedLine::Signature(sig.clone()));
        },
        _ => {},
    }
    proof {
        assert(models(lines@) =~= before + function_lines(c@));
    }
}

/// Appends the arguments of a call.
fn push_args(lines: &mut Vec<DecodedLine>, args: &Vec<DecodedArg>)
    ensures
        models(final(lines)@) == models(old(lines)@) + arg_lines(models(args@)),
{
    let ghost before = models(lines@);
    let mut i: usize = 0;
    proof {
        assert(models(args@).take(0) =~= seq![]);
        assert(before + arg_lines(seq![]) =~= before);
    }
    while i < args.len()
        invariant
            i <= args@.len(),
            models(lines@) == before + arg_lines(models(args@).take(i as int)),
        decreases args@.len() - i,
    {
        proof {
            lemma_next(models(args@), i as int);
        }
        let mut s: String = args[i].name.clone();
        s.append(" =");
        push_line(lines, DecodedLine::Plain(s));
        push_line(lines, DecodedLine::Value(args[i].value.clone()));
        proof {
            assert(models(lines@) =~= before + arg_lines(models(args@).take(i + 1)));
        }
        i = i + 1;
    }
    proof {
        assert(models(args@).take(i as int) =~= models(args@));
    }
}

/// Appends the arguments and the value of a call.
fn push_sections(lines: &mut Vec<DecodedLine>, c: &QueuedCall)
    ensures
        models(final(lines)@) == models(old(lines)@) + args_section(c@) + value_section(c@),
{
    let ghost before = models(lines@);
    proof {
        assert(models(c.decoded_args@).len() == c.decoded_args@.len());
    }
    if c.signature.is_some() && c.decoded_args.len() > 0 {
        push_line(lines, DecodedLine::Comment("// args".to_owned()));
        push_args(lines, &c.decoded_args);
    }
    proof {
        assert(models(lines@) =~= before + args_section(c@));
    }
    if !c.value.is_zero() {
        push_line(lines, DecodedLine::Comment("// value".to_owned()));
        let mut s: String = decimal_of_number(c.value);
        s.append(" wei");
        push_line(lines, DecodedLine::Data(s));
    }
    proof {
        assert(models(lines@) =~= before + args_section(c@) + value_section(c@));
    }
}

/// The lines of a decoded call.
pub fn decoded_panel(c: &QueuedCall) -> (r: Vec<DecodedLine>)
    ensures
        models(r@) == decoded_lines(c@),
{
    let mut lines: Vec<DecodedLine> = none_of();
    push_line(&mut lines, DecodedLine::Comment("// target".to_owned()));
    push_line(&mut lines, DecodedLine::Plain(checksum_of_address(c.to)));
    proof {
        assert(models(lines@) =~= seq![
            DecodedModel::Comment("// target"@),
            DecodedModel::Plain(checksum_text(c.to)),
        ]);
    }
    push_function(&mut lines, c);
    push_sections(&mut lines, c);
    push_line(&mut lines, DecodedLine::Comment("// calldata".to_owned()));
    let mut s: String = "0x".to_owned();
    s.append(hex_of_bytes(&c.data).as_str());
    push_line(&mut lines, DecodedLine::Data(s));
    proof {
        assert(models(lines@) =~= decoded_lines(c@));
    }
    lines
}

/// The card of the call at `index` in a queue of `total`.
pub fn tx_card(index: usize, total: usize, c: &QueuedCall, expanded: Option<u64>) -> (r: TxCard)
    requires
        index < total,
    ensures
        r@ == card_model(index as int, total as int, c@, expanded),
{
    let open: bool = match expanded {
        Some(id) => id == c.id,
        None => false,
    };
    TxCard {
        number: decimal_usize(index + 1),
        title: c.title.clone(),
        detail: c.detail.clone(),
        raw: c.is_raw(),
        wei: if c.value.is_zero() {
            None
        } else {
            Some(c.value)
        },
        up: if index > 0 {
            Some(Message::MoveUp(c.id))
        } else {
            None
        },
        down: if index + 1 < total {
            Some(Message::MoveDown(c.id))
        } else {
            None
        },
        expand: Message::ToggleExpand(c.id),
        remove: Message::RemoveCall(c.id),
        decoded: if open {
            Some(decoded_panel(c))
        } else {
            None
        },
    }
}

/// The cards of the queue.
fn tx_cards(app: &TxBuilderApp) -> (r: Vec<TxCard>)
    ensures
        models(r@) == card_models(app@),
{
    let mut out: Vec<TxCard> = none_of();
    let n: usize = app.queue.batch.len();
    let mut i: usize = 0;
    while i < n
        invariant
            n == app.queue.batch@.len(),
            i <= n,
            models(out@) =~= card_models(app@).take(i as int),
        decreases n - i,
    {
        let ghost before = out@;
        let card: TxCard = tx_card(i, n, &app.queue.batch[i], app.queue.expanded);
        out.push(card);
        proof {
            let all = card_models(app@);
            assert(app@.queue.batch[i as int] == app.queue.batch@[i as int]@);
            assert(models(out@) =~= models(before).push(card@));
            lemma_next(all, i as int);
        }
        i = i + 1;
    }
    proof {
        let all = card_models(app@);
        assert(all.take(i as int) =~= all);
    }
    out
}

// ── the simulation ──────────────────────────────────────────────────

/// The verdict of the simulation.
#[derive(Debug, Clone, PartialEq, Eq)]
pub struct SimStrip {
    pub title: String,
    pub detail: String,
    /// The fee in wei, shown behind the detail.
    pub fee: Option<U256>,
    pub good: bool,
    pub badge: &'static str,
}

#[verifier::ext_equal]
pub struct StripModel {
    pub title: Seq<char>,
    pub detail: Seq<char>,
    pub fee: Option<nat>,
    pub good: bool,
    pub badge: Seq<char>,
}

impl View for SimStrip {
    type V = StripModel;

    open spec fn view(&self) -> StripModel {
        StripModel {
            title: self.title@,
            detail: self.detail@,
            fee: match self.fee {
                Some(wei) => Some(wei.value()),
                None => None,
            },
            good: self.good,
            badge: self.badge@,
        }
    }
}

/// The heading of a verdict. A call is named as the cards number it.
pub open spec fn strip_title(p: Pane, sim: SimModel, opens: usize) -> Seq<char> {
    match sim.outcome {
        OutcomeModel::Success => "Simulation passed"@,
        OutcomeModel::Revert { step, .. } => "Reverts at "@ + p.step_text(step, opens),
        OutcomeModel::Halt { step, .. } => "Halts at "@ + p.step_text(step, opens),
        OutcomeModel::Error(_) => "Simulation failed"@,
        OutcomeModel::Unavailable => "Simulation unavailable"@,
    }
}

/// What is beneath the heading of a verdict.
pub open spec fn strip_detail(sim: SimModel) -> Seq<char> {
    match sim.outcome {
        OutcomeModel::Success => "≈ "@ + dec(sim.gas_used as nat) + " gas"@,
        OutcomeModel::Revert { reason, .. } => reason,
        OutcomeModel::Halt { reason, .. } => reason,
        OutcomeModel::Error(reason) => reason,
        OutcomeModel::Unavailable => "couldn't run preflight on this network"@,
    }
}

/// The verdict of the simulation. The fee is the gas times the base fee, where
/// both are known.
pub open spec fn strip_model(p: Pane, sim: SimModel, opens: usize) -> StripModel {
    StripModel {
        title: strip_title(p, sim, opens),
        detail: strip_detail(sim),
        fee: if sim.outcome is Success && sim.base_fee_per_gas > 0 {
            Some(sim.gas_used as nat * sim.base_fee_per_gas as nat)
        } else {
            None
        },
        good: sim.outcome is Success,
        badge: if sim.verified {
            "verified"@
        } else {
            "unverified"@
        },
    }
}

/// The product of two numbers, in full.
fn fee_of(gas: u64, price: u64) -> (r: U256)
    ensures
        r.value() == gas as nat * price as nat,
{
    let a: u128 = gas as u128;
    let b: u128 = price as u128;
    proof {
        assert(a * b <= 0xffff_ffff_ffff_ffff * 0xffff_ffff_ffff_ffff) by (nonlinear_arith)
            requires
                a <= 0xffff_ffff_ffff_ffff,
                b <= 0xffff_ffff_ffff_ffff,
        ;
    }
    U256 { hi: 0, lo: a * b }
}

/// The heading of a verdict, and what is beneath it.
fn strip_text(app: &TxBuilderApp, sim: &BatchSimResult, opens: usize) -> (r: (String, String))
    requires
        crate::tx_builder::model::failing_step(sim@) matches Some(step) ==> step < usize::MAX,
    ensures
        r.0@ == strip_title(app@, sim@, opens),
        r.1@ == strip_detail(sim@),
{
    match &sim.outcome {
        BatchOutcome::Success => {
            let mut s: String = "≈ ".to_owned();
            s.append(decimal(sim.gas_used).as_str());
            s.append(" gas");
            ("Simulation passed".to_owned(), s)
        },
        BatchOutcome::Revert { step, reason } => {
            let mut s: String = "Reverts at ".to_owned();
            s.append(app.describe_step(*step, opens).as_str());
            (s, reason.clone())
        },
        BatchOutcome::Halt { step, reason } => {
            let mut s: String = "Halts at ".to_owned();
            s.append(app.describe_step(*step, opens).as_str());
            (s, reason.clone())
        },
        BatchOutcome::Error(reason) => ("Simulation failed".to_owned(), reason.clone()),
        BatchOutcome::Unavailable => (
            "Simulation unavailable".to_owned(),
            "couldn't run preflight on this network".to_owned(),
        ),
    }
}

/// The verdict of the simulation.
pub fn sim_strip(app: &TxBuilderApp, sim: &BatchSimResult, opens: usize) -> (r: SimStrip)
    requires
        crate::tx_builder::model::failing_step(sim@) matches Some(step) ==> step < usize::MAX,
    ensures
        r@ == strip_model(app@, sim@, opens),
{
    let (title, detail): (String, String) = strip_text(app, sim, opens);
    let good: bool = sim.is_success();
    SimStrip {
        title,
        detail,
        fee: if good && sim.base_fee_per_gas > 0 {
            Some(fee_of(sim.gas_used, sim.base_fee_per_gas))
        } else {
            None
        },
        good,
        badge: if sim.verified {
            "verified"
        } else {
            "unverified"
        },
    }
}

// ── the pane ────────────────────────────────────────────────────────

/// Whether approvals are revoked after the batch.
#[derive(Debug, Clone, PartialEq, Eq)]
pub struct RevokeToggle {
    pub on: bool,
    pub hint: String,
}

#[verifier::ext_equal]
pub struct RevokeModel {
    pub on: bool,
    pub hint: Seq<char>,
}

impl View for RevokeToggle {
    type V = RevokeModel;

    open spec fn view(&self) -> RevokeModel {
        RevokeModel { on: self.on, hint: self.hint@ }
    }
}

/// Whether approvals are revoked after the batch, and how many.
pub open spec fn revoke_model(on: bool, n: nat) -> RevokeModel {
    RevokeModel {
        on,
        hint: if on {
            "+"@ + dec(n) + " revoke"@ + plural(n) + " appended · allowance reset to 0"@
        } else {
            "leaves "@ + dec(n) + " standing allowance"@ + plural(n)
        },
    }
}

/// The batch pane.
#[derive(Debug, Clone)]
pub struct BatchPane {
    pub count: String,
    pub templates: Option<TemplatesMenu>,
    pub clear: Option<Message>,
    pub cards: Vec<TxCard>,
    /// The warning on each card, where its call targets the acting account.
    pub notes: Vec<Option<String>>,
    /// What an empty batch offers.
    pub sample: Option<Press>,
    pub sim: Option<SimStrip>,
    /// What the verdict does not cover.
    pub blind_spots: Vec<String>,
    pub revoke: Option<RevokeToggle>,
    pub simulate: Press,
    pub save: Press,
    pub load: Press,
    pub cta: Press,
}

#[verifier::ext_equal]
pub struct BatchModel {
    pub count: Seq<char>,
    pub templates: Option<TemplatesModel>,
    pub clear: Option<Message>,
    pub cards: Seq<TxCardModel>,
    pub notes: Seq<Option<Seq<char>>>,
    pub sample: Option<PressModel>,
    pub sim: Option<StripModel>,
    pub blind_spots: Seq<Seq<char>>,
    pub revoke: Option<RevokeModel>,
    pub simulate: PressModel,
    pub save: PressModel,
    pub load: PressModel,
    pub cta: PressModel,
}

impl View for BatchPane {
    type V = BatchModel;

    open spec fn view(&self) -> BatchModel {
        BatchModel {
            count: self.count@,
            templates: model_of(self.templates),
            clear: self.clear,
            cards: models(self.cards@),
            notes: optional_texts(self.notes@),
            sample: model_of(self.sample),
            sim: model_of(self.sim),
            blind_spots: models(self.blind_spots@),
            revoke: model_of(self.revoke),
            simulate: self.simulate@,
            save: self.save@,
            load: self.load@,
            cta: self.cta@,
        }
    }
}

/// Texts that may be missing.
pub open spec fn optional_texts(s: Seq<Option<String>>) -> Seq<Option<Seq<char>>> {
    s.map_values(|o: Option<String>| model_of(o))
}

/// The warning on each card.
pub open spec fn note_models(p: Pane, effects: Seq<Option<String>>) -> Seq<Option<Seq<char>>> {
    Seq::new(
        p.queue.batch.len(),
        |i: int| p.self_admin_note(p.queue.batch[i], model_of(effects[i])),
    )
}

/// What the verdict that is shown does not cover.
pub open spec fn shown_blind_spots(p: Pane, wrap: FlashWrap) -> Seq<Seq<char>> {
    if shown_strip(p, wrap.opens) is Some {
        p.blind_spots(p.effective_calls(wrap).len())
    } else {
        seq![]
    }
}

/// What an empty batch offers: a sample, on a Safe of the chain it is made for.
pub open spec fn sample_model(p: Pane) -> Option<PressModel> {
    if p.queue.batch.len() == 0 && p.net == NetworkId::Builtin(Chain::Mainnet) && p.ctx.is_safe {
        Some(
            PressModel { label: "Load a sample batch"@, action: Some(Message::LoadSample) },
        )
    } else {
        None
    }
}

/// The verdict that is shown: none over an empty batch.
pub open spec fn shown_strip(p: Pane, opens: usize) -> Option<StripModel> {
    if p.queue.batch.len() == 0 {
        None
    } else {
        match p.sim.result {
            Some(sim) => Some(strip_model(p, sim, opens)),
            None => None,
        }
    }
}

/// Whether approvals are revoked is asked only where calls can be batched and
/// an allowance is left standing.
pub open spec fn shown_revoke(p: Pane, revokes: nat) -> Option<RevokeModel> {
    if p.can_batch() && revokes > 0 {
        Some(revoke_model(p.queue.auto_revoke, revokes))
    } else {
        None
    }
}

/// What simulates the batch.
pub open spec fn simulate_model(p: Pane) -> PressModel {
    PressModel {
        label: if p.sim.busy {
            "Simulating…"@
        } else {
            "⟁ Simulate"@
        },
        action: only_if(p.queue.batch.len() > 0 && !p.sim.busy, Message::Simulate),
    }
}

/// What sends the batch to review.
pub open spec fn review_model(p: Pane) -> PressModel {
    PressModel {
        label: if !p.ctx.is_safe {
            "Review & send"@
        } else if p.queue.batch.len() > 0 {
            "Create batch · "@ + dec(p.queue.batch.len()) + " → 1"@
        } else {
            "Create batch"@
        },
        action: only_if(p.queue.batch.len() > 0, Message::Review),
    }
}

/// The batch pane.
pub open spec fn batch_model(p: Pane, f: ViewFacts) -> BatchModel {
    BatchModel {
        count: dec(p.queue.batch.len()),
        templates: if p.shelf.menu_open {
            Some(templates_model(p))
        } else {
            None
        },
        clear: only_if(p.queue.batch.len() > 0, Message::ClearBatch),
        cards: card_models(p),
        notes: note_models(p, f.effects@),
        sample: sample_model(p),
        sim: shown_strip(p, f.wrap.opens),
        blind_spots: shown_blind_spots(p, f.wrap),
        revoke: shown_revoke(p, f.revokes as nat),
        simulate: simulate_model(p),
        save: PressModel {
            label: "⤓ Save"@,
            action: only_if(p.queue.batch.len() > 0, Message::OpenSave),
        },
        load: PressModel { label: "⤒ Load"@, action: Some(Message::OpenLoad) },
        cta: review_model(p),
    }
}

/// Whether approvals are revoked after the batch, and how many.
pub fn revoke_toggle(on: bool, n: usize) -> (r: RevokeToggle)
    ensures
        r@ == revoke_model(on, n as nat),
{
    let mut hint: String = if on {
        "+".to_owned()
    } else {
        "leaves ".to_owned()
    };
    hint.append(decimal_usize(n).as_str());
    if on {
        hint.append(" revoke");
    } else {
        hint.append(" standing allowance");
    }
    hint.append(plural_suffix(n as u64));
    if on {
        hint.append(" appended · allowance reset to 0");
    }
    RevokeToggle { on, hint }
}

/// What an empty batch offers.
pub fn empty_state(app: &TxBuilderApp) -> (r: Option<Press>)
    ensures
        model_of(r) == sample_model(app@),
{
    if app.queue.batch.len() == 0 && app.net == NetworkId::Builtin(Chain::Mainnet)
        && app.ctx.is_safe {
        Some(press("Load a sample batch", Some(Message::LoadSample)))
    } else {
        None
    }
}

/// What sends the batch to review.
fn review_button(app: &TxBuilderApp) -> (r: Press)
    ensures
        r@ == review_model(app@),
{
    let n: usize = app.queue.batch.len();
    let action: Option<Message> = if n > 0 {
        Some(Message::Review)
    } else {
        None
    };
    if !app.ctx.is_safe {
        press("Review & send", action)
    } else if n > 0 {
        let mut label: String = "Create batch · ".to_owned();
        label.append(decimal_usize(n).as_str());
        label.append(" → 1");
        Press { label, action }
    } else {
        press("Create batch", action)
    }
}

/// The verdict that is shown.
fn strip_shown(app: &TxBuilderApp, opens: usize) -> (r: Option<SimStrip>)
    requires
        app@.steps_numbered(),
    ensures
        model_of(r) == shown_strip(app@, opens),
{
    if app.queue.batch.len() == 0 {
        return None;
    }
    match &app.sim.result {
        Some(sim) => Some(sim_strip(app, sim, opens)),
        None => None,
    }
}

/// What simulates the batch.
fn simulate_button(app: &TxBuilderApp) -> (r: Press)
    ensures
        r@ == simulate_model(app@),
{
    let action: Option<Message> = if app.queue.batch.len() > 0 && !app.sim.busy {
        Some(Message::Simulate)
    } else {
        None
    };
    if app.sim.busy {
        press("Simulating…", action)
    } else {
        press("⟁ Simulate", action)
    }
}

/// The warning on each card.
fn card_notes(app: &TxBuilderApp, effects: &Vec<Option<String>>) -> (r: Vec<Option<String>>)
    requires
        effects@.len() == app@.queue.batch.len(),
    ensures
        optional_texts(r@) == note_models(app@, effects@),
{
    let ghost all = note_models(app@, effects@);
    let mut out: Vec<Option<String>> = Vec::new();
    let mut i: usize = 0;
    while i < app.queue.batch.len()
        invariant
            i <= app.queue.batch@.len(),
            effects@.len() == app.queue.batch@.len(),
            all == note_models(app@, effects@),
            optional_texts(out@) =~= all.take(i as int),
        decreases app.queue.batch@.len() - i,
    {
        let ghost before = out@;
        let note: Option<String> = app.self_admin_note(&app.queue.batch[i], &effects[i]);
        out.push(note);
        proof {
            assert(optional_texts(out@) =~= optional_texts(before).push(model_of(note)));
            lemma_next(all, i as int);
        }
        i = i + 1;
    }
    proof {
        assert(optional_texts(out@) =~= all);
    }
    out
}

/// What the verdict that is shown does not cover.
fn spots_shown(app: &TxBuilderApp, wrap: &FlashWrap) -> (r: Vec<String>)
    ensures
        models(r@) == shown_blind_spots(app@, *wrap),
{
    if app.queue.batch.len() == 0 || app.sim.result.is_none() {
        none_of()
    } else {
        app.sim_blind_spots(wrap)
    }
}

/// The batch pane.
pub fn batch_pane(app: &TxBuilderApp, facts: &ViewFacts) -> (r: BatchPane)
    requires
        app@.shown_by(*facts),
    ensures
        r@ == batch_model(app@, *facts),
{
    let n: usize = app.queue.batch.len();
    BatchPane {
        count: decimal_usize(n),
        templates: if app.shelf.menu_open {
            Some(templates_menu(app))
        } else {
            None
        },
        clear: if n > 0 {
            Some(Message::ClearBatch)
        } else {
            None
        },
        cards: tx_cards(app),
        notes: card_notes(app, &facts.effects),
        sample: empty_state(app),
        sim: strip_shown(app, facts.wrap.opens),
        blind_spots: spots_shown(app, &facts.wrap),
        revoke: if app.can_batch() && facts.revokes > 0 {
            Some(revoke_toggle(app.queue.auto_revoke, facts.revokes))
        } else {
            None
        },
        simulate: simulate_button(app),
        save: press(
            "⤓ Save",
            if n > 0 {
                Some(Message::OpenSave)
            } else {
                None
            },
        ),
        load: press("⤒ Load", Some(Message::OpenLoad)),
        cta: review_button(app),
    }
}

} // verus!

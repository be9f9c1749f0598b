//! The composer: a contract, its methods and their parameters, or raw bytes.

use vstd::prelude::*;

use crate::text::chars_of;
use crate::text::dec;
use crate::text::decimal_usize;
use crate::text::join;
use crate::text::joined;
use crate::text::lemma_next;
use crate::text::model_of;
use crate::text::models;
use crate::text::none_of;
use crate::text::replicate_opt;
use crate::text::same_text;
use crate::text::trimmed;
use crate::tx_builder::model::Pane;
use crate::tx_builder::view::is_blank;
use crate::tx_builder::view::only_if;
use crate::tx_builder::view::press;
use crate::tx_builder::view::ParamFacts;
use crate::tx_builder::view::Press;
use crate::tx_builder::view::PressModel;
use crate::tx_builder::view::ViewFacts;
use crate::tx_builder::Message;
use crate::tx_builder::Mode;
use crate::tx_builder::ReadModel;
use crate::tx_builder::ReadOutcome;
use crate::tx_builder::ReadRow;
use crate::tx_builder::RowModel;
use crate::tx_builder::TxBuilderApp;
use crate::txbuilder::AbiMethod;
use crate::txbuilder::AbiParam;
use crate::txbuilder::AbiSource;
use crate::txbuilder::ContractModel;
use crate::txbuilder::LoadedContract;
use crate::txbuilder::MethodModel;
use crate::txbuilder::ParamModel;

verus! {

// ── the contract ────────────────────────────────────────────────────

/// What is loaded.
#[derive(Debug, Clone, PartialEq, Eq)]
pub struct ContractBanner {
    pub name: String,
    pub badge: &'static str,
    pub subtitle: String,
    /// Its face, where it has one.
    pub kaomoji: Option<String>,
}

#[verifier::ext_equal]
pub struct BannerModel {
    pub name: Seq<char>,
    pub badge: Seq<char>,
    pub subtitle: Seq<char>,
    pub kaomoji: Option<Seq<char>>,
}

impl View for ContractBanner {
    type V = BannerModel;

    open spec fn view(&self) -> BannerModel {
        BannerModel {
            name: self.name@,
            badge: self.badge@,
            subtitle: self.subtitle@,
            kaomoji: model_of(self.kaomoji),
        }
    }
}

/// Where an ABI comes from.
pub open spec fn source_badge(source: AbiSource) -> Seq<char> {
    match source {
        AbiSource::Known => "✓ verified"@,
        AbiSource::Pasted => "pasted ABI"@,
        AbiSource::Bytecode => "from bytecode"@,
    }
}

/// How many methods a contract has.
pub open spec fn method_counts(c: ContractModel) -> Seq<char> {
    dec(c.methods.len()) + " write · "@ + dec(c.read_methods.len()) + " read"@
}

/// What is loaded.
pub open spec fn banner_model(c: ContractModel) -> BannerModel {
    BannerModel {
        name: c.name,
        badge: source_badge(c.source),
        subtitle: if c.label.len() == 0 {
            method_counts(c)
        } else {
            c.label + " · "@ + method_counts(c)
        },
        kaomoji: c.kaomoji,
    }
}

/// What to do about a contract without an ABI.
#[derive(Debug, Clone)]
pub struct NotFoundBox {
    pub paste: Press,
    /// The field to paste into is open: what its button does.
    pub load: Option<Press>,
}

#[verifier::ext_equal]
pub struct NotFoundModel {
    pub paste: PressModel,
    pub load: Option<PressModel>,
}

impl View for NotFoundBox {
    type V = NotFoundModel;

    open spec fn view(&self) -> NotFoundModel {
        NotFoundModel { paste: self.paste@, load: model_of(self.load) }
    }
}

/// What to do about a contract without an ABI.
pub open spec fn not_found_model(p: Pane) -> NotFoundModel {
    NotFoundModel {
        paste: PressModel { label: "Paste ABI JSON"@, action: Some(Message::ShowAbiPaste) },
        load: if p.composer.paste_open {
            Some(
                PressModel {
                    label: "Load ABI"@,
                    action: only_if(
                        trimmed(p.composer.abi_paste).len() > 0,
                        Message::LoadPastedAbi,
                    ),
                },
            )
        } else {
            None
        },
    }
}

/// What is beneath the address field.
#[derive(Debug, Clone)]
pub enum HeadStatus {
    Resolving,
    Loaded(ContractBanner),
    NotFound(NotFoundBox),
    Hint(&'static str),
    Nothing,
}

#[verifier::ext_equal]
pub enum StatusModel {
    Resolving,
    Loaded(BannerModel),
    NotFound(NotFoundModel),
    Hint(Seq<char>),
    Nothing,
}

impl View for HeadStatus {
    type V = StatusModel;

    open spec fn view(&self) -> StatusModel {
        match *self {
            HeadStatus::Resolving => StatusModel::Resolving,
            HeadStatus::Loaded(b) => StatusModel::Loaded(b@),
            HeadStatus::NotFound(n) => StatusModel::NotFound(n@),
            HeadStatus::Hint(h) => StatusModel::Hint(h@),
            HeadStatus::Nothing => StatusModel::Nothing,
        }
    }
}

/// The address field and what is beneath it.
#[derive(Debug, Clone)]
pub struct ContractHead {
    pub placeholder: &'static str,
    /// The field holds something that is no address.
    pub invalid: bool,
    /// Why it is none, once it is typed out.
    pub addr_error: Option<String>,
    /// Why the last fetch failed.
    pub fetch_error: Option<String>,
    /// What asks again after a fetch that failed.
    pub retry: Option<Message>,
    /// A proxy points on, but where to could not be verified.
    pub proxy_unverified: bool,
    /// The address is a beacon proxy, which is not followed.
    pub proxy_beacon: bool,
    /// Nothing is deployed at the address.
    pub nothing_deployed: bool,
    pub status: HeadStatus,
}

#[verifier::ext_equal]
pub struct HeadModel {
    pub placeholder: Seq<char>,
    pub invalid: bool,
    pub addr_error: Option<Seq<char>>,
    pub fetch_error: Option<Seq<char>>,
    pub retry: Option<Message>,
    pub proxy_unverified: bool,
    pub proxy_beacon: bool,
    pub nothing_deployed: bool,
    pub status: StatusModel,
}

impl View for ContractHead {
    type V = HeadModel;

    open spec fn view(&self) -> HeadModel {
        HeadModel {
            placeholder: self.placeholder@,
            invalid: self.invalid,
            addr_error: model_of(self.addr_error),
            fetch_error: model_of(self.fetch_error),
            retry: self.retry,
            proxy_unverified: self.proxy_unverified,
            proxy_beacon: self.proxy_beacon,
            nothing_deployed: self.nothing_deployed,
            status: self.status@,
        }
    }
}

/// What is beneath the address field: a resolve under way before anything else.
pub open spec fn status_model(p: Pane) -> StatusModel {
    if p.composer.resolving {
        StatusModel::Resolving
    } else {
        match p.composer.loaded {
            Some(c) => StatusModel::Loaded(banner_model(c)),
            None => if p.composer.not_found {
                StatusModel::NotFound(not_found_model(p))
            } else if trimmed(p.composer.addr_input).len() == 0 {
                StatusModel::Hint(
                    if p.is_custom() {
                        "Paste a contract address, then its ABI — Kao can't fetch a verified ABI on a custom network."@
                    } else {
                        "Paste a verified contract address to load its ABI."@
                    },
                )
            } else {
                StatusModel::Nothing
            },
        }
    }
}

/// The address field and what is beneath it.
pub open spec fn head_model(p: Pane, f: ViewFacts) -> HeadModel {
    HeadModel {
        placeholder: if p.is_custom() {
            "0x… contract address (paste its ABI to load)"@
        } else {
            "0x… paste a verified contract"@
        },
        invalid: trimmed(p.composer.addr_input).len() > 0 && !f.addr_ok,
        addr_error: p.composer.addr_error,
        fetch_error: p.composer.resolve_error,
        retry: only_if(p.composer.resolve_error is Some, Message::RetryResolve),
        proxy_unverified: p.composer.proxy_unverified,
        proxy_beacon: p.composer.proxy_beacon,
        nothing_deployed: p.composer.nothing_deployed,
        status: status_model(p),
    }
}

/// What is loaded.
pub fn contract_banner(c: &LoadedContract) -> (r: ContractBanner)
    ensures
        r@ == banner_model(c@),
{
    let mut counts: String = decimal_usize(c.methods.len());
    counts.append(" write · ");
    counts.append(decimal_usize(c.read_methods.len()).as_str());
    counts.append(" read");
    proof {
        assert(models(c.methods@).len() == c.methods@.len());
        assert(models(c.read_methods@).len() == c.read_methods@.len());
    }
    let subtitle: String = if c.label.as_str().is_empty() {
        counts
    } else {
        let mut s: String = c.label.clone();
        s.append(" · ");
        s.append(counts.as_str());
        s
    };
    ContractBanner {
        name: c.name.clone(),
        badge: match c.source {
            AbiSource::Known => "✓ verified",
            AbiSource::Pasted => "pasted ABI",
            AbiSource::Bytecode => "from bytecode",
        },
        subtitle,
        kaomoji: replicate_opt(&c.kaomoji),
    }
}

/// What to do about a contract without an ABI.
pub fn not_found_box(app: &TxBuilderApp) -> (r: NotFoundBox)
    ensures
        r@ == not_found_model(app@),
{
    let load: Option<Press> = if app.composer.paste_open {
        let action: Option<Message> = if is_blank(app.composer.abi_paste.as_str()) {
            None
        } else {
            Some(Message::LoadPastedAbi)
        };
        Some(press("Load ABI", action))
    } else {
        None
    };
    NotFoundBox { paste: press("Paste ABI JSON", Some(Message::ShowAbiPaste)), load }
}

/// The address field and what is beneath it.
pub fn contract_head(app: &TxBuilderApp, facts: &ViewFacts) -> (r: ContractHead)
    ensures
        r@ == head_model(app@, *facts),
{
    let blank: bool = is_blank(app.composer.addr_input.as_str());
    let status: HeadStatus = if app.composer.resolving {
        HeadStatus::Resolving
    } else {
        match &app.composer.loaded {
            Some(c) => HeadStatus::Loaded(contract_banner(c)),
            None => if app.composer.not_found {
                HeadStatus::NotFound(not_found_box(app))
            } else if blank {
                HeadStatus::Hint(
                    if app.is_custom() {
                        "Paste a contract address, then its ABI — Kao can't fetch a verified ABI on a custom network."
                    } else {
                        "Paste a verified contract address to load its ABI."
                    },
                )
            } else {
                HeadStatus::Nothing
            },
        }
    };
    ContractHead {
        placeholder: if app.is_custom() {
            "0x… contract address (paste its ABI to load)"
        } else {
            "0x… paste a verified contract"
        },
        invalid: !blank && !facts.addr_ok,
        addr_error: replicate_opt(&app.composer.addr_error),
        fetch_error: replicate_opt(&app.composer.resolve_error),
        retry: match &app.composer.resolve_error {
            Some(_) => Some(Message::RetryResolve),
            None => None,
        },
        proxy_unverified: app.composer.proxy_unverified,
        proxy_beacon: app.composer.proxy_beacon,
        nothing_deployed: app.composer.nothing_deployed,
        status,
    }
}

// ── methods ─────────────────────────────────────────────────────────

/// A method to pick.
#[derive(Debug, Clone)]
pub struct MethodOption {
    pub signature: String,
    pub on: bool,
    pub action: Message,
}

#[verifier::ext_equal]
pub struct MethodOptionModel {
    pub signature: Seq<char>,
    pub on: bool,
    pub action: Message,
}

impl View for MethodOption {
    type V = MethodOptionModel;

    open spec fn view(&self) -> MethodOptionModel {
        MethodOptionModel { signature: self.signature@, on: self.on, action: self.action }
    }
}

/// The picked method, and the others when the menu is open.
#[derive(Debug, Clone)]
pub struct MethodPicker {
    pub label: &'static str,
    pub name: String,
    pub params: String,
    pub toggle: Message,
    pub menu: Option<Vec<MethodOption>>,
}

#[verifier::ext_equal]
pub struct PickerModel {
    pub label: Seq<char>,
    pub name: Seq<char>,
    pub params: Seq<char>,
    pub toggle: Message,
    pub menu: Option<Seq<MethodOptionModel>>,
}

impl View for MethodPicker {
    type V = PickerModel;

    open spec fn view(&self) -> PickerModel {
        PickerModel {
            label: self.label@,
            name: self.name@,
            params: self.params@,
            toggle: self.toggle,
            menu: match self.menu {
                Some(m) => Some(models(m@)),
                None => None,
            },
        }
    }
}

/// A signature with a space after each comma, so that it can wrap.
pub open spec fn spaced(s: Seq<char>) -> Seq<char>
    decreases s.len(),
{
    if s.len() == 0 {
        seq![]
    } else if s.last() == ',' {
        spaced(s.drop_last()).push(',').push(' ')
    } else {
        spaced(s.drop_last()).push(s.last())
    }
}

/// The types of parameters.
pub open spec fn param_types(params: Seq<ParamModel>) -> Seq<Seq<char>> {
    params.map_values(|p: ParamModel| p.ty_str)
}

/// The types of a method's parameters, in brackets.
pub open spec fn types_text(m: MethodModel) -> Seq<char> {
    "("@ + joined(param_types(m.inputs), ", "@) + ")"@
}

/// The methods to pick from, to change the state or to read it.
pub open spec fn method_menu(methods: Seq<MethodModel>, picked: usize, read: bool) -> Seq<
    MethodOptionModel,
> {
    Seq::new(
        methods.len(),
        |i: int|
            MethodOptionModel {
                signature: spaced(methods[i].signature),
                on: i == picked,
                action: if read {
                    Message::PickReadMethod(i as usize)
                } else {
                    Message::PickMethod(i as usize)
                },
            },
    )
}

/// The name of the selected method; nothing when none is.
pub open spec fn selected_name(m: Option<MethodModel>) -> Seq<char> {
    match m {
        Some(m) => m.name,
        None => ""@,
    }
}

/// The types of the selected method; nothing when none is.
pub open spec fn selected_types(m: Option<MethodModel>) -> Seq<char> {
    match m {
        Some(m) => types_text(m),
        None => ""@,
    }
}

/// The picker of the write tab.
pub open spec fn write_picker(p: Pane, c: ContractModel) -> PickerModel {
    PickerModel {
        label: "Method"@,
        name: selected_name(p.selected_method()),
        params: selected_types(p.selected_method()),
        toggle: Message::ToggleMethodMenu,
        menu: if p.composer.method_menu_open {
            Some(method_menu(c.methods, p.composer.method_idx, false))
        } else {
            None
        },
    }
}

/// The picker of the read tab.
pub open spec fn read_picker(p: Pane, c: ContractModel) -> PickerModel {
    PickerModel {
        label: "View method (read-only · no gas)"@,
        name: selected_name(p.selected_read_method()),
        params: selected_types(p.selected_read_method()),
        toggle: Message::ToggleReadMethodMenu,
        menu: if p.reader.menu_open {
            Some(method_menu(c.read_methods, p.reader.idx, true))
        } else {
            None
        },
    }
}

/// A signature with a space after each comma.
fn space_out(s: &str) -> (r: String)
    ensures
        r@ == spaced(s@),
{
    let v: Vec<char> = chars_of(s);
    let mut out: String = String::new();
    let mut i: usize = 0;
    proof {
        assert(v@.take(0) =~= seq![]);
    }
    while i < v.len()
        invariant
            v@ == s@,
            i <= v@.len(),
            out@ == spaced(v@.take(i as int)),
        decreases v@.len() - i,
    {
        proof {
            lemma_next(v@, i as int);
        }
        out.push(v[i]);
        if v[i] == ',' {
            out.push(' ');
        }
        i = i + 1;
    }
    proof {
        assert(v@.take(i as int) =~= v@);
    }
    out
}

/// The types of parameters.
pub(crate) fn list_types(params: &Vec<AbiParam>) -> (r: Vec<String>)
    ensures
        models(r@) == param_types(models(params@)),
{
    let mut out: Vec<String> = none_of();
    let mut i: usize = 0;
    while i < params.len()
        invariant
            i <= params@.len(),
            models(out@) =~= param_types(models(params@)).take(i as int),
        decreases params@.len() - i,
    {
        let ghost before = out@;
        let ty: String = params[i].ty_str.clone();
        out.push(ty);
        proof {
            let all = param_types(models(params@));
            assert(models(out@) =~= models(before).push(ty@));
            lemma_next(all, i as int);
        }
        i = i + 1;
    }
    proof {
        let all = param_types(models(params@));
        assert(all.take(i as int) =~= all);
    }
    out
}

/// The name and the types of the selected method.
fn name_and_types(m: Option<&AbiMethod>) -> (r: (String, String))
    ensures
        ({
            let model = match m {
                Some(m) => Some(m@),
                None => None,
            };
            r.0@ == selected_name(model) && r.1@ == selected_types(model)
        }),
{
    match m {
        Some(m) => {
            let mut types: String = "(".to_owned();
            types.append(join(&list_types(&m.inputs), ", ").as_str());
            types.append(")");
            (m.name.clone(), types)
        },
        None => ("".to_owned(), "".to_owned()),
    }
}

/// The methods to pick from.
fn method_options(methods: &Vec<AbiMethod>, picked: usize, read: bool) -> (r: Vec<MethodOption>)
    ensures
        models(r@) == method_menu(models(methods@), picked, read),
{
    let mut out: Vec<MethodOption> = none_of();
    let mut i: usize = 0;
    while i < methods.len()
        invariant
            i <= methods@.len(),
            models(out@) =~= method_menu(models(methods@), picked, read).take(i as int),
        decreases methods@.len() - i,
    {
        let ghost before = out@;
        let option: MethodOption = MethodOption {
            signature: space_out(methods[i].signature.as_str()),
            on: i == picked,
            action: if read {
                Message::PickReadMethod(i)
            } else {
                Message::PickMethod(i)
            },
        };
        out.push(option);
        proof {
            let all = method_menu(models(methods@), picked, read);
            assert(models(methods@)[i as int] == methods@[i as int]@);
            assert(models(out@) =~= models(before).push(option@));
            lemma_next(all, i as int);
        }
        i = i + 1;
    }
    proof {
        let all = method_menu(models(methods@), picked, read);
        assert(all.take(i as int) =~= all);
    }
    out
}

/// The picker of the write tab.
pub fn method_picker(app: &TxBuilderApp, contract: &LoadedContract) -> (r: MethodPicker)
    ensures
        r@ == write_picker(app@, contract@),
{
    let (name, params): (String, String) = name_and_types(app.selected_method());
    MethodPicker {
        label: "Method",
        name,
        params,
        toggle: Message::ToggleMethodMenu,
        menu: if app.composer.method_menu_open {
            Some(method_options(&contract.methods, app.composer.method_idx, false))
        } else {
            None
        },
    }
}

/// The picker of the read tab.
pub fn read_method_picker(app: &TxBuilderApp, contract: &LoadedContract) -> (r: MethodPicker)
    ensures
        r@ == read_picker(app@, contract@),
{
    let (name, params): (String, String) = name_and_types(app.selected_read_method());
    MethodPicker {
        label: "View method (read-only · no gas)",
        name,
        params,
        toggle: Message::ToggleReadMethodMenu,
        menu: if app.reader.menu_open {
            Some(method_options(&contract.read_methods, app.reader.idx, true))
        } else {
            None
        },
    }
}

// ── parameters ──────────────────────────────────────────────────────

/// The field of a parameter.
#[derive(Debug, Clone)]
pub enum ParamInput {
    /// Two buttons: whether each is the value, and what it does.
    Toggle { yes_on: bool, yes: Message, no_on: bool, no: Message },
    /// Text.
    Text { value: String, invalid: bool },
}

#[verifier::ext_equal]
pub enum InputModel {
    Toggle { yes_on: bool, yes: Message, no_on: bool, no: Message },
    Text { value: Seq<char>, invalid: bool },
}

impl View for ParamInput {
    type V = InputModel;

    open spec fn view(&self) -> InputModel {
        match *self {
            ParamInput::Toggle { yes_on, yes, no_on, no } => InputModel::Toggle {
                yes_on,
                yes,
                no_on,
                no,
            },
            ParamInput::Text { value, invalid } => InputModel::Text { value: value@, invalid },
        }
    }
}

/// A parameter.
#[derive(Debug, Clone)]
pub struct ParamRow {
    pub name: String,
    pub ty: String,
    /// Whether what was typed is valid; nothing before anything was.
    pub note: Option<String>,
    pub input: ParamInput,
}

#[verifier::ext_equal]
pub struct ParamRowModel {
    pub name: Seq<char>,
    pub ty: Seq<char>,
    pub note: Option<Seq<char>>,
    pub input: InputModel,
}

impl View for ParamRow {
    type V = ParamRowModel;

    open spec fn view(&self) -> ParamRowModel {
        ParamRowModel {
            name: self.name@,
            ty: self.ty@,
            note: model_of(self.note),
            input: self.input@,
        }
    }
}

/// The text of an argument that may not be there yet.
pub open spec fn arg_at(args: Seq<Seq<char>>, i: int) -> Seq<char> {
    if 0 <= i < args.len() {
        args[i]
    } else {
        ""@
    }
}

/// What sets a truth value.
pub open spec fn bool_message(i: usize, b: bool, read: bool) -> Message {
    if read {
        Message::ReadBoolArg(i, b)
    } else {
        Message::BoolArg(i, b)
    }
}

/// A parameter. A truth value has two buttons; the others are typed.
pub open spec fn param_model(
    i: usize,
    name: Seq<char>,
    ty: Seq<char>,
    valid: bool,
    value: Seq<char>,
    read: bool,
) -> ParamRowModel {
    let touched = trimmed(value).len() > 0;
    ParamRowModel {
        name,
        ty,
        note: if !touched {
            None
        } else if valid {
            Some("✓ valid"@)
        } else {
            Some("needs "@ + ty)
        },
        input: if ty == "bool"@ {
            InputModel::Toggle {
                yes_on: value == "true"@,
                yes: bool_message(i, true, read),
                no_on: value == "false"@,
                no: bool_message(i, false, read),
            }
        } else {
            InputModel::Text { value, invalid: touched && !valid }
        },
    }
}

/// The parameters of a method.
pub open spec fn param_models(
    inputs: Seq<ParamModel>,
    facts: Seq<ParamFacts>,
    args: Seq<Seq<char>>,
    read: bool,
) -> Seq<ParamRowModel> {
    Seq::new(
        inputs.len(),
        |i: int|
            param_model(
                i as usize,
                facts[i].name@,
                inputs[i].ty_str,
                facts[i].valid,
                arg_at(args, i),
                read,
            ),
    )
}

/// A parameter.
pub fn param_row(
    index: usize,
    name: &str,
    ty: &str,
    valid: bool,
    value: &str,
    read: bool,
) -> (r: ParamRow)
    ensures
        r@ == param_model(index, name@, ty@, valid, value@, read),
{
    let touched: bool = !is_blank(value);
    let note: Option<String> = if !touched {
        None
    } else if valid {
        Some("✓ valid".to_owned())
    } else {
        let mut s: String = "needs ".to_owned();
        s.append(ty);
        Some(s)
    };
    let input: ParamInput = if same_text(ty, "bool") {
        ParamInput::Toggle {
            yes_on: same_text(value, "true"),
            yes: if read {
                Message::ReadBoolArg(index, true)
            } else {
                Message::BoolArg(index, true)
            },
            no_on: same_text(value, "false"),
            no: if read {
                Message::ReadBoolArg(index, false)
            } else {
                Message::BoolArg(index, false)
            },
        }
    } else {
        ParamInput::Text { value: value.to_owned(), invalid: touched && !valid }
    };
    ParamRow { name: name.to_owned(), ty: ty.to_owned(), note, input }
}

/// The parameters of a method.
fn param_rows(
    inputs: &Vec<AbiParam>,
    facts: &Vec<ParamFacts>,
    args: &Vec<String>,
    read: bool,
) -> (r: Vec<ParamRow>)
    requires
        facts@.len() == inputs@.len(),
    ensures
        models(r@) == param_models(models(inputs@), facts@, models(args@), read),
{
    let mut out: Vec<ParamRow> = none_of();
    let mut i: usize = 0;
    while i < inputs.len()
        invariant
            i <= inputs@.len(),
            facts@.len() == inputs@.len(),
            models(out@) =~= param_models(
                models(inputs@),
                facts@,
                models(args@),
                read,
            ).take(i as int),
        decreases inputs@.len() - i,
    {
        let value: &str = if i < args.len() {
            args[i].as_str()
        } else {
            ""
        };
        let ghost before = out@;
        let row: ParamRow = param_row(
            i,
            facts[i].name.as_str(),
            inputs[i].ty_str.as_str(),
            facts[i].valid,
            value,
            read,
        );
        out.push(row);
        proof {
            let all = param_models(models(inputs@), facts@, models(args@), read);
            assert(models(inputs@)[i as int] == inputs@[i as int]@);
            assert(value@ == arg_at(models(args@), i as int));
            assert(models(out@) =~= models(before).push(row@));
            lemma_next(all, i as int);
        }
        i = i + 1;
    }
    proof {
        let all = param_models(models(inputs@), facts@, models(args@), read);
        assert(all.take(i as int) =~= all);
    }
    out
}

// ── a result ────────────────────────────────────────────────────────

/// A value that came back.
#[derive(Debug, Clone)]
pub struct ValueRow {
    pub ty: String,
    pub line: String,
    pub copy: Message,
}

#[verifier::ext_equal]
pub struct ValueModel {
    pub ty: Seq<char>,
    pub line: Seq<char>,
    pub copy: Message,
}

impl View for ValueRow {
    type V = ValueModel;

    open spec fn view(&self) -> ValueModel {
        ValueModel { ty: self.ty@, line: self.line@, copy: self.copy }
    }
}

/// The result of a query. No values are shown as a remark that nothing decoded.
#[derive(Debug, Clone)]
pub enum ResultPanel {
    Failed(String),
    Returned { badge: &'static str, values: Vec<ValueRow>, raw: String, copy: Message },
}

#[verifier::ext_equal]
pub enum ResultModel {
    Failed(Seq<char>),
    Returned { badge: Seq<char>, values: Seq<ValueModel>, raw: Seq<char>, copy: Message },
}

impl View for ResultPanel {
    type V = ResultModel;

    open spec fn view(&self) -> ResultModel {
        match *self {
            ResultPanel::Failed(e) => ResultModel::Failed(e@),
            ResultPanel::Returned { badge, values, raw, copy } => ResultModel::Returned {
                badge: badge@,
                values: models(values@),
                raw: raw@,
                copy,
            },
        }
    }
}

/// A value that came back.
pub open spec fn value_model(i: usize, row: RowModel) -> ValueModel {
    ValueModel {
        ty: row.ty,
        line: row.name + " = "@ + row.value,
        copy: Message::CopyReadValue(i),
    }
}

/// The values that came back.
pub open spec fn value_models(rows: Seq<RowModel>) -> Seq<ValueModel> {
    Seq::new(rows.len(), |i: int| value_model(i as usize, rows[i]))
}

/// The result of a query.
pub open spec fn result_model(res: ReadModel) -> ResultModel {
    match res {
        ReadModel::Failed(e) => ResultModel::Failed(e),
        ReadModel::Returned { rows, raw, verified } => ResultModel::Returned {
            badge: if verified {
                "verified"@
            } else {
                "unverified"@
            },
            values: value_models(rows),
            raw,
            copy: Message::CopyReadRaw,
        },
    }
}

/// A value that came back.
pub fn read_value_row(i: usize, row: &ReadRow) -> (r: ValueRow)
    ensures
        r@ == value_model(i, row@),
{
    let mut line: String = row.name.clone();
    line.append(" = ");
    line.append(row.value.as_str());
    ValueRow { ty: row.ty.clone(), line, copy: Message::CopyReadValue(i) }
}

/// The result of a query.
pub fn read_result_panel(res: &ReadOutcome) -> (r: ResultPanel)
    ensures
        r@ == result_model(res@),
{
    match res {
        ReadOutcome::Failed(e) => ResultPanel::Failed(e.clone()),
        ReadOutcome::Returned { rows, raw, verified } => {
            let mut values: Vec<ValueRow> = none_of();
            let mut i: usize = 0;
            while i < rows.len()
                invariant
                    i <= rows@.len(),
                    models(values@) =~= value_models(models(rows@)).take(i as int),
                decreases rows@.len() - i,
            {
                let ghost before = values@;
                let row: ValueRow = read_value_row(i, &rows[i]);
                values.push(row);
                proof {
                    let all = value_models(models(rows@));
                    assert(models(rows@)[i as int] == rows@[i as int]@);
                    assert(models(values@) =~= models(before).push(row@));
                    lemma_next(all, i as int);
                }
                i = i + 1;
            }
            proof {
                let all = value_models(models(rows@));
                assert(all.take(i as int) =~= all);
            }
            ResultPanel::Returned {
                badge: if *verified {
                    "verified"
                } else {
                    "unverified"
                },
                values,
                raw: raw.clone(),
                copy: Message::CopyReadRaw,
            }
        },
    }
}

// ── the three composers ─────────────────────────────────────────────

/// The form of a method that changes the state.
#[derive(Debug, Clone)]
pub struct CallForm {
    pub picker: MethodPicker,
    /// A value can be attached.
    pub payable: bool,
    /// The method is declared to take nothing.
    pub bare: bool,
    /// Why the method is to be used with care.
    pub caution: Option<String>,
    pub params: Vec<ParamRow>,
}

#[verifier::ext_equal]
pub struct CallFormModel {
    pub picker: PickerModel,
    pub payable: bool,
    pub bare: bool,
    pub caution: Option<Seq<char>>,
    pub params: Seq<ParamRowModel>,
}

impl View for CallForm {
    type V = CallFormModel;

    open spec fn view(&self) -> CallFormModel {
        CallFormModel {
            picker: self.picker@,
            payable: self.payable,
            bare: self.bare,
            caution: model_of(self.caution),
            params: models(self.params@),
        }
    }
}

/// The form of a method that changes the state.
pub open spec fn call_form(p: Pane, c: ContractModel, f: ViewFacts) -> CallFormModel {
    match p.selected_method() {
        Some(m) => CallFormModel {
            picker: write_picker(p, c),
            payable: m.payable,
            bare: m.inputs.len() == 0 && !m.payable && m.provenance.declares(),
            caution: m.caution_text(),
            params: param_models(m.inputs, f.params@, p.composer.args, false),
        },
        None => CallFormModel {
            picker: write_picker(p, c),
            payable: false,
            bare: false,
            caution: None,
            params: seq![],
        },
    }
}

/// The form of a method that changes the state, once a contract is loaded.
pub open spec fn shown_call_form(p: Pane, f: ViewFacts) -> Option<CallFormModel> {
    if p.composer.resolving {
        None
    } else {
        match p.composer.loaded {
            Some(c) => Some(call_form(p, c, f)),
            None => None,
        }
    }
}

/// The form of a query.
#[derive(Debug, Clone)]
pub enum ReadForm {
    /// The ABI has no query.
    NoMethods,
    /// None is selected.
    Picker(MethodPicker),
    Query {
        picker: MethodPicker,
        /// Why the query is to be used with care.
        caution: Option<String>,
        params: Vec<ParamRow>,
        query: Press,
        result: Option<ResultPanel>,
    },
}

#[verifier::ext_equal]
pub enum ReadFormModel {
    NoMethods,
    Picker(PickerModel),
    Query {
        picker: PickerModel,
        caution: Option<Seq<char>>,
        params: Seq<ParamRowModel>,
        query: PressModel,
        result: Option<ResultModel>,
    },
}

impl View for ReadForm {
    type V = ReadFormModel;

    open spec fn view(&self) -> ReadFormModel {
        match *self {
            ReadForm::NoMethods => ReadFormModel::NoMethods,
            ReadForm::Picker(p) => ReadFormModel::Picker(p@),
            ReadForm::Query { picker, caution, params, query, result } => ReadFormModel::Query {
                picker: picker@,
                caution: model_of(caution),
                params: models(params@),
                query: query@,
                result: model_of(result),
            },
        }
    }
}

/// The button that runs a query.
pub open spec fn query_press(p: Pane, f: ViewFacts) -> PressModel {
    PressModel {
        label: if p.reader.busy {
            "Querying…"@
        } else {
            "◈ Query"@
        },
        action: only_if(p.read_valid(f.read_args_valid) && !p.reader.busy, Message::Query),
    }
}

/// The form of a query.
pub open spec fn read_form(p: Pane, c: ContractModel, f: ViewFacts) -> ReadFormModel {
    if c.read_methods.len() == 0 {
        ReadFormModel::NoMethods
    } else {
        match p.selected_read_method() {
            Some(m) => ReadFormModel::Query {
                picker: read_picker(p, c),
                caution: m.caution_text(),
                params: param_models(m.inputs, f.read_params@, p.reader.args, true),
                query: query_press(p, f),
                result: match p.reader.result {
                    Some(res) => Some(result_model(res)),
                    None => None,
                },
            },
            None => ReadFormModel::Picker(read_picker(p, c)),
        }
    }
}

/// The form of a query, once a contract is loaded.
pub open spec fn shown_read_form(p: Pane, f: ViewFacts) -> Option<ReadFormModel> {
    if p.composer.resolving {
        None
    } else {
        match p.composer.loaded {
            Some(c) => Some(read_form(p, c, f)),
            None => None,
        }
    }
}

/// The form of a method that changes the state.
fn build_call_form(app: &TxBuilderApp, c: &LoadedContract, facts: &ViewFacts) -> (r: CallForm)
    requires
        app@.shown_by(*facts),
    ensures
        r@ == call_form(app@, c@, *facts),
{
    let picker: MethodPicker = method_picker(app, c);
    match app.selected_method() {
        Some(m) => {
            proof {
                assert(models(m.inputs@).len() == m.inputs@.len());
            }
            CallForm {
                picker,
                payable: m.payable,
                bare: m.inputs.len() == 0 && !m.payable && m.provenance.declares_argument_list(),
                caution: m.caution(),
                params: param_rows(&m.inputs, &facts.params, &app.composer.args, false),
            }
        },
        None => CallForm {
            picker,
            payable: false,
            bare: false,
            caution: None,
            params: none_of(),
        },
    }
}

/// The form of a query.
fn build_read_form(app: &TxBuilderApp, c: &LoadedContract, facts: &ViewFacts) -> (r: ReadForm)
    requires
        app@.shown_by(*facts),
    ensures
        r@ == read_form(app@, c@, *facts),
{
    proof {
        assert(models(c.read_methods@).len() == c.read_methods@.len());
    }
    if c.read_methods.len() == 0 {
        return ReadForm::NoMethods;
    }
    let picker: MethodPicker = read_method_picker(app, c);
    match app.selected_read_method() {
        Some(m) => {
            proof {
                assert(models(m.inputs@).len() == m.inputs@.len());
            }
            let ready: bool = app.read_valid(facts.read_args_valid) && !app.reader.busy;
            let action: Option<Message> = if ready {
                Some(Message::Query)
            } else {
                None
            };
            let label: &str = if app.reader.busy {
                "Querying…"
            } else {
                "◈ Query"
            };
            ReadForm::Query {
                picker,
                caution: m.caution(),
                params: param_rows(&m.inputs, &facts.read_params, &app.reader.args, true),
                query: press(label, action),
                result: match &app.reader.result {
                    Some(res) => Some(read_result_panel(res)),
                    None => None,
                },
            }
        },
        None => ReadForm::Picker(picker),
    }
}

/// The active composer.
#[derive(Debug, Clone)]
pub enum ComposerBody {
    Call { head: ContractHead, form: Option<CallForm> },
    Read { head: ContractHead, form: Option<ReadForm> },
    /// Raw bytes: whether the target is no address, and whether nothing is
    /// deployed there.
    Raw { to_invalid: bool, nothing_deployed: bool },
}

#[verifier::ext_equal]
#[allow(inconsistent_fields)]
pub enum ComposerBodyModel {
    Call { head: HeadModel, form: Option<CallFormModel> },
    Read { head: HeadModel, form: Option<ReadFormModel> },
    Raw { to_invalid: bool, nothing_deployed: bool },
}

impl View for ComposerBody {
    type V = ComposerBodyModel;

    open spec fn view(&self) -> ComposerBodyModel {
        match *self {
            ComposerBody::Call { head, form } => ComposerBodyModel::Call {
                head: head@,
                form: model_of(form),
            },
            ComposerBody::Read { head, form } => ComposerBodyModel::Read {
                head: head@,
                form: model_of(form),
            },
            ComposerBody::Raw { to_invalid, nothing_deployed } => ComposerBodyModel::Raw {
                to_invalid,
                nothing_deployed,
            },
        }
    }
}

/// The active composer.
pub open spec fn body_model(p: Pane, f: ViewFacts) -> ComposerBodyModel {
    match p.mode {
        Mode::Write => ComposerBodyModel::Call {
            head: head_model(p, f),
            form: shown_call_form(p, f),
        },
        Mode::Read => ComposerBodyModel::Read {
            head: head_model(p, f),
            form: shown_read_form(p, f),
        },
        Mode::Raw => ComposerBodyModel::Raw {
            to_invalid: trimmed(p.raw.to).len() > 0 && !f.raw_to_ok,
            nothing_deployed: p.raw.nothing_deployed,
        },
    }
}

/// The composer of a call.
pub fn call_composer(app: &TxBuilderApp, facts: &ViewFacts) -> (r: Option<CallForm>)
    requires
        app@.shown_by(*facts),
    ensures
        model_of(r) == shown_call_form(app@, *facts),
{
    if app.composer.resolving {
        return None;
    }
    match &app.composer.loaded {
        Some(c) => Some(build_call_form(app, c, facts)),
        None => None,
    }
}

/// The composer of a query.
pub fn read_composer(app: &TxBuilderApp, facts: &ViewFacts) -> (r: Option<ReadForm>)
    requires
        app@.shown_by(*facts),
    ensures
        model_of(r) == shown_read_form(app@, *facts),
{
    if app.composer.resolving {
        return None;
    }
    match &app.composer.loaded {
        Some(c) => Some(build_read_form(app, c, facts)),
        None => None,
    }
}

// ── the pane ────────────────────────────────────────────────────────

/// A tab.
#[derive(Debug, Clone)]
pub struct Tab {
    pub label: &'static str,
    pub on: bool,
    pub action: Message,
}

#[verifier::ext_equal]
pub struct TabModel {
    pub label: Seq<char>,
    pub on: bool,
    pub action: Message,
}

impl View for Tab {
    type V = TabModel;

    open spec fn view(&self) -> TabModel {
        TabModel { label: self.label@, on: self.on, action: self.action }
    }
}

/// The composer pane. A query has its button in the form.
#[derive(Debug, Clone)]
pub struct ComposerPane {
    pub tabs: Vec<Tab>,
    pub body: ComposerBody,
    pub cta: Option<Press>,
}

#[verifier::ext_equal]
pub struct PaneModel {
    pub tabs: Seq<TabModel>,
    pub body: ComposerBodyModel,
    pub cta: Option<PressModel>,
}

impl View for ComposerPane {
    type V = PaneModel;

    open spec fn view(&self) -> PaneModel {
        PaneModel { tabs: models(self.tabs@), body: self.body@, cta: model_of(self.cta) }
    }
}

/// The tabs.
pub open spec fn tab_models(mode: Mode) -> Seq<TabModel> {
    seq![
        TabModel {
            label: "Write"@,
            on: mode == Mode::Write,
            action: Message::SetMode(Mode::Write),
        },
        TabModel { label: "Read"@, on: mode == Mode::Read, action: Message::SetMode(Mode::Read) },
        TabModel { label: "Raw hex"@, on: mode == Mode::Raw, action: Message::SetMode(Mode::Raw) },
    ]
}

/// The composer's primary action: queueing, or sending at once on a custom
/// network.
pub open spec fn cta_model(p: Pane, f: ViewFacts) -> PressModel {
    if p.is_custom() {
        PressModel {
            label: "↑ Send transaction"@,
            action: only_if(p.compose_valid(f.compose), Message::SendSingle),
        }
    } else {
        PressModel {
            label: "+ Add to batch"@,
            action: only_if(p.compose_valid(f.compose), Message::AddToBatch),
        }
    }
}

/// The composer pane.
pub open spec fn composer_model(p: Pane, f: ViewFacts) -> PaneModel {
    PaneModel {
        tabs: tab_models(p.mode),
        body: body_model(p, f),
        cta: if p.mode == Mode::Read {
            None
        } else {
            Some(cta_model(p, f))
        },
    }
}

/// The tabs.
fn mode_tabs(mode: Mode) -> (r: Vec<Tab>)
    ensures
        models(r@) == tab_models(mode),
{
    let mut tabs: Vec<Tab> = none_of();
    tabs.push(
        Tab { label: "Write", on: mode == Mode::Write, action: Message::SetMode(Mode::Write) },
    );
    tabs.push(
        Tab { label: "Read", on: mode == Mode::Read, action: Message::SetMode(Mode::Read) },
    );
    tabs.push(
        Tab { label: "Raw hex", on: mode == Mode::Raw, action: Message::SetMode(Mode::Raw) },
    );
    proof {
        assert(models(tabs@) =~= tab_models(mode));
    }
    tabs
}

/// The composer's primary action.
pub fn compose_cta(app: &TxBuilderApp, facts: &ViewFacts) -> (r: Press)
    ensures
        r@ == cta_model(app@, *facts),
{
    let enabled: bool = app.compose_valid(facts.compose);
    if app.is_custom() {
        let action: Option<Message> = if enabled {
            Some(Message::SendSingle)
        } else {
            None
        };
        press("↑ Send transaction", action)
    } else {
        let action: Option<Message> = if enabled {
            Some(Message::AddToBatch)
        } else {
            None
        };
        press("+ Add to batch", action)
    }
}

/// The composer pane.
pub fn composer_pane(app: &TxBuilderApp, facts: &ViewFacts) -> (r: ComposerPane)
    requires
        app@.shown_by(*facts),
    ensures
        r@ == composer_model(app@, *facts),
{
    let body: ComposerBody = match app.mode {
        Mode::Write => ComposerBody::Call {
            head: contract_head(app, facts),
            form: call_composer(app, facts),
        },
        Mode::Read => ComposerBody::Read {
            head: contract_head(app, facts),
            form: read_composer(app, facts),
        },
        Mode::Raw => ComposerBody::Raw {
            to_invalid: !is_blank(app.raw.to.as_str()) && !facts.raw_to_ok,
            nothing_deployed: app.raw.nothing_deployed,
        },
    };
    ComposerPane {
        tabs: mode_tabs(app.mode),
        body,
        cta: if app.mode == Mode::Read {
            None
        } else {
            Some(compose_cta(app, facts))
        },
    }
}

} // verus!

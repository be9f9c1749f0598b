//! What the composer shows of what is composed.

use vstd::prelude::*;

use crate::text::dec;
use crate::text::joined;
use crate::text::trimmed;
use crate::tx_builder::model::Pane;
use crate::tx_builder::view::composer::banner_model;
use crate::tx_builder::view::composer::body_model;
use crate::tx_builder::view::composer::call_form;
use crate::tx_builder::view::composer::composer_model;
use crate::tx_builder::view::composer::cta_model;
use crate::tx_builder::view::composer::head_model;
use crate::tx_builder::view::composer::method_menu;
use crate::tx_builder::view::composer::not_found_model;
use crate::tx_builder::view::composer::param_types;
use crate::tx_builder::view::composer::query_press;
use crate::tx_builder::view::composer::read_form;
use crate::tx_builder::view::composer::read_picker;
use crate::tx_builder::view::composer::result_model;
use crate::tx_builder::view::composer::spaced;
use crate::tx_builder::view::composer::status_model;
use crate::tx_builder::view::composer::tab_models;
use crate::tx_builder::view::composer::types_text;
use crate::tx_builder::view::composer::write_picker;
use crate::tx_builder::view::composer::ComposerBodyModel;
use crate::tx_builder::view::composer::InputModel;
use crate::tx_builder::view::composer::ReadFormModel;
use crate::tx_builder::view::composer::ResultModel;
use crate::tx_builder::view::composer::StatusModel;
use crate::tx_builder::view::ViewFacts;
use crate::tx_builder::Findings;
use crate::tx_builder::Message;
use crate::tx_builder::Mode;
use crate::tx_builder::ReadModel;
use crate::txbuilder::AbiSource;
use crate::txbuilder::ContractModel;
use crate::txbuilder::MethodModel;

verus! {

// ── fields ──────────────────────────────────────────────────────────

/// Whether a method of a contract is selected in the composer.
pub open spec fn composes(p: Pane, c: ContractModel) -> bool {
    p.composer.loaded == Some(c) && p.composer.method_idx < c.methods.len()
}

/// Whether a query of a contract is selected.
pub open spec fn queries(p: Pane, c: ContractModel) -> bool {
    p.composer.loaded == Some(c) && p.reader.idx < c.read_methods.len()
}

/// After one half of a toggle was pressed, the toggle on screen is on for that half
/// and off for the other.
pub proof fn a_pressed_toggle_is_on_screen(
    p: Pane,
    c: ContractModel,
    i: usize,
    b: bool,
    g: Findings,
    f: ViewFacts,
)
    requires
        composes(p, c),
        p.composer.args.len() == c.methods[p.composer.method_idx as int].inputs.len(),
        i < p.composer.args.len(),
        c.methods[p.composer.method_idx as int].inputs[i as int].ty_str == "bool"@,
    ensures
        call_form(p.update(Message::BoolArg(i, b), g).0, c, f).params[i as int].input == (
        InputModel::Toggle {
            yes_on: b,
            yes: Message::BoolArg(i, true),
            no_on: !b,
            no: Message::BoolArg(i, false),
        }),
{
    reveal_strlit("true");
    reveal_strlit("false");
    assert("true"@.len() == 4);
    assert("false"@.len() == 5);
}

/// The same of a query's toggle.
pub proof fn a_pressed_query_toggle_is_on_screen(
    p: Pane,
    c: ContractModel,
    i: usize,
    b: bool,
    g: Findings,
    f: ViewFacts,
)
    requires
        queries(p, c),
        p.reader.args.len() == c.read_methods[p.reader.idx as int].inputs.len(),
        i < p.reader.args.len(),
        c.read_methods[p.reader.idx as int].inputs[i as int].ty_str == "bool"@,
    ensures
        read_form(
            p.update(Message::ReadBoolArg(i, b), g).0,
            c,
            f,
        ) matches ReadFormModel::Query { params, .. } && params[i as int].input == (
        InputModel::Toggle {
            yes_on: b,
            yes: Message::ReadBoolArg(i, true),
            no_on: !b,
            no: Message::ReadBoolArg(i, false),
        }),
{
    reveal_strlit("true");
    reveal_strlit("false");
    assert("true"@.len() == 4);
    assert("false"@.len() == 5);
}

/// Each parameter of the selected method has its own field, under its name and its
/// type. A truth value is a toggle that is on for the half that the argument says;
/// anything else is the argument as it was typed.
pub proof fn each_parameter_shows_its_argument(p: Pane, c: ContractModel, f: ViewFacts, i: int)
    requires
        composes(p, c),
        0 <= i < c.methods[p.composer.method_idx as int].inputs.len(),
        p.composer.args.len() == c.methods[p.composer.method_idx as int].inputs.len(),
        c.methods[p.composer.method_idx as int].inputs.len() <= usize::MAX,
    ensures
        ({
            let m = c.methods[p.composer.method_idx as int];
            let rows = call_form(p, c, f).params;
            let arg = p.composer.args[i];
            &&& rows.len() == m.inputs.len()
            &&& rows[i].name == f.params@[i].name@
            &&& rows[i].ty == m.inputs[i].ty_str
            &&& m.inputs[i].ty_str == "bool"@ ==> rows[i].input == (InputModel::Toggle {
                yes_on: arg == "true"@,
                yes: Message::BoolArg(i as usize, true),
                no_on: arg == "false"@,
                no: Message::BoolArg(i as usize, false),
            })
            &&& m.inputs[i].ty_str != "bool"@ ==> rows[i].input == (InputModel::Text {
                value: arg,
                invalid: trimmed(arg).len() > 0 && !f.params@[i].valid,
            })
            &&& trimmed(arg).len() == 0 ==> rows[i].note is None
            &&& trimmed(arg).len() > 0 && f.params@[i].valid ==> rows[i].note == Some("✓ valid"@)
            &&& trimmed(arg).len() > 0 && !f.params@[i].valid ==> rows[i].note == Some(
                "needs "@ + m.inputs[i].ty_str,
            )
        }),
{
}

/// The same of the selected query.
pub proof fn each_query_parameter_shows_its_argument(
    p: Pane,
    c: ContractModel,
    f: ViewFacts,
    i: int,
)
    requires
        queries(p, c),
        0 <= i < c.read_methods[p.reader.idx as int].inputs.len(),
        p.reader.args.len() == c.read_methods[p.reader.idx as int].inputs.len(),
        c.read_methods[p.reader.idx as int].inputs.len() <= usize::MAX,
    ensures
        read_form(p, c, f) matches ReadFormModel::Query { params: rows, .. } && {
            let m = c.read_methods[p.reader.idx as int];
            let arg = p.reader.args[i];
            &&& rows.len() == m.inputs.len()
            &&& rows[i].name == f.read_params@[i].name@
            &&& rows[i].ty == m.inputs[i].ty_str
            &&& m.inputs[i].ty_str == "bool"@ ==> rows[i].input == (InputModel::Toggle {
                yes_on: arg == "true"@,
                yes: Message::ReadBoolArg(i as usize, true),
                no_on: arg == "false"@,
                no: Message::ReadBoolArg(i as usize, false),
            })
            &&& m.inputs[i].ty_str != "bool"@ ==> rows[i].input == (InputModel::Text {
                value: arg,
                invalid: trimmed(arg).len() > 0 && !f.read_params@[i].valid,
            })
            &&& trimmed(arg).len() == 0 ==> rows[i].note is None
            &&& trimmed(arg).len() > 0 && f.read_params@[i].valid ==> rows[i].note == Some(
                "✓ valid"@,
            )
            &&& trimmed(arg).len() > 0 && !f.read_params@[i].valid ==> rows[i].note == Some(
                "needs "@ + m.inputs[i].ty_str,
            )
        },
{
}

// ── the contract ────────────────────────────────────────────────────

/// The banner of a contract says where its ABI came from: only a curated one is
/// called verified. It counts the methods that write and those that read.
pub proof fn a_banner_says_where_the_abi_came_from(c: ContractModel)
    ensures
        ({
            let counts = dec(c.methods.len()) + " write · "@ + dec(c.read_methods.len())
                + " read"@;
            &&& banner_model(c).name == c.name
            &&& banner_model(c).kaomoji == c.kaomoji
            &&& c.source == AbiSource::Known ==> banner_model(c).badge == "✓ verified"@
            &&& c.source == AbiSource::Pasted ==> banner_model(c).badge == "pasted ABI"@
            &&& c.source == AbiSource::Bytecode ==> banner_model(c).badge == "from bytecode"@
            &&& c.label.len() == 0 ==> banner_model(c).subtitle == counts
            &&& c.label.len() > 0 ==> banner_model(c).subtitle == c.label + " · "@ + counts
        }),
{
}

/// The head of the composer passes every caution and every error on, and flags a
/// text that is no address.
pub proof fn the_head_passes_cautions_on(p: Pane, f: ViewFacts)
    ensures
        ({
            let h = head_model(p, f);
            &&& h.proxy_unverified == p.composer.proxy_unverified
            &&& h.proxy_beacon == p.composer.proxy_beacon
            &&& h.nothing_deployed == p.composer.nothing_deployed
            &&& h.addr_error == p.composer.addr_error
            &&& h.fetch_error == p.composer.resolve_error
            &&& p.composer.resolve_error is Some ==> h.retry == Some(Message::RetryResolve)
            &&& p.composer.resolve_error is None ==> h.retry is None
            &&& h.invalid <==> trimmed(p.composer.addr_input).len() > 0 && !f.addr_ok
            &&& p.net is Custom ==> h.placeholder
                == "0x… contract address (paste its ABI to load)"@
            &&& p.net is Builtin ==> h.placeholder == "0x… paste a verified contract"@
            &&& h.status == status_model(p)
        }),
{
}

/// What stands under the address: that it is resolved, the contract it has, that
/// none was found and an ABI can be pasted, or what to do first.
pub proof fn the_status_says_how_far_it_got(p: Pane)
    ensures
        p.composer.resolving ==> status_model(p) is Resolving,
        !p.composer.resolving ==> {
            &&& p.composer.loaded matches Some(c) ==> status_model(p) == StatusModel::Loaded(
                banner_model(c),
            )
            &&& p.composer.loaded is None && p.composer.not_found ==> (status_model(
                p,
            ) matches StatusModel::NotFound(b) && b.paste.label == "Paste ABI JSON"@
                && b.paste.action == Some(Message::ShowAbiPaste))
            &&& p.composer.loaded is None && !p.composer.not_found && trimmed(
                p.composer.addr_input,
            ).len() > 0 ==> status_model(p) is Nothing
            &&& p.composer.loaded is None && !p.composer.not_found && trimmed(
                p.composer.addr_input,
            ).len() == 0 && p.net is Builtin ==> status_model(p) == StatusModel::Hint(
                "Paste a verified contract address to load its ABI."@,
            )
            &&& p.composer.loaded is None && !p.composer.not_found && trimmed(
                p.composer.addr_input,
            ).len() == 0 && p.net is Custom ==> status_model(p) == StatusModel::Hint(
                "Paste a contract address, then its ABI — Kao can't fetch a verified ABI on a custom network."@,
            )
        },
        !p.composer.paste_open ==> not_found_model(p).load is None,
        p.composer.paste_open ==> (not_found_model(p).load matches Some(b) && b.label == "Load ABI"@
            && (trimmed(p.composer.abi_paste).len() > 0 ==> b.action == Some(
            Message::LoadPastedAbi,
        )) && (trimmed(p.composer.abi_paste).len() == 0 ==> b.action is None)),
{
}

/// A method is to be used with care where its name or its parameters were not
/// declared, and only there.
pub proof fn a_guessed_method_is_cautioned(m: MethodModel)
    ensures
        m.provenance is Declared || m.provenance is Matched ==> m.caution_text() is None,
        m.provenance is Ambiguous ==> m.caution_text() == Some(
            "Several known methods share this selector — the name shown may not be this contract's."@,
        ),
        (m.provenance is Mismatched || m.provenance is SelectorOnly) && m.inputs.len() == 0
            ==> m.caution_text() == Some(
            "No parameters could be recovered — this would send a bare 4-byte call. Paste the ABI if the method takes any."@,
        ),
        (m.provenance is Mismatched || m.provenance is SelectorOnly) && m.inputs.len() > 0
            ==> m.caution_text() == Some(
            "The parameters were recovered from bytecode — paste the ABI to be sure of them."@,
        ),
{
}

// ── picking a method ────────────────────────────────────────────────

/// Each method of the contract is offered in its place, under the message that
/// picks it; the one that is picked is on, and no other.
pub proof fn each_method_is_offered(methods: Seq<MethodModel>, picked: usize, i: int)
    requires
        0 <= i < methods.len() <= usize::MAX,
    ensures
        method_menu(methods, picked, false).len() == methods.len(),
        method_menu(methods, picked, true).len() == methods.len(),
        method_menu(methods, picked, false)[i].action == Message::PickMethod(i as usize),
        method_menu(methods, picked, true)[i].action == Message::PickReadMethod(i as usize),
        method_menu(methods, picked, false)[i].on == (i == picked),
        method_menu(methods, picked, true)[i].on == (i == picked),
        method_menu(methods, picked, false)[i].signature == spaced(methods[i].signature),
        method_menu(methods, picked, true)[i].signature == spaced(methods[i].signature),
{
}

/// A signature is shown with a space behind every comma, and else as it is.
pub proof fn a_space_follows_each_comma(a: Seq<char>, c: char)
    ensures
        spaced(a.push(',')) == spaced(a).push(',').push(' '),
        c != ',' ==> spaced(a.push(c)) == spaced(a).push(c),
        spaced(Seq::<char>::empty()).len() == 0,
{
    assert(a.push(',').drop_last() =~= a);
    assert(a.push(c).drop_last() =~= a);
}

/// The picker names the selected method and lists the types of its parameters, in
/// order and in brackets.
pub proof fn the_picker_names_the_selected_method(p: Pane, c: ContractModel)
    ensures
        composes(p, c) ==> {
            let m = c.methods[p.composer.method_idx as int];
            let k = write_picker(p, c);
            &&& k.label == "Method"@
            &&& k.name == m.name
            &&& k.params == types_text(m)
            &&& k.toggle == Message::ToggleMethodMenu
            &&& !p.composer.method_menu_open ==> k.menu is None
            &&& p.composer.method_menu_open ==> k.menu == Some(
                method_menu(c.methods, p.composer.method_idx, false),
            )
        },
        queries(p, c) ==> {
            let m = c.read_methods[p.reader.idx as int];
            let k = read_picker(p, c);
            &&& k.label == "View method (read-only · no gas)"@
            &&& k.name == m.name
            &&& k.params == types_text(m)
            &&& k.toggle == Message::ToggleReadMethodMenu
            &&& !p.reader.menu_open ==> k.menu is None
            &&& p.reader.menu_open ==> k.menu == Some(
                method_menu(c.read_methods, p.reader.idx, true),
            )
        },
{
}

/// The types of a method are those of its inputs, in brackets and parted by commas.
pub proof fn types_are_listed_in_order(m: MethodModel, types: Seq<Seq<char>>)
    requires
        types.len() == m.inputs.len(),
        forall|i: int| 0 <= i < types.len() ==> #[trigger] types[i] == m.inputs[i].ty_str,
    ensures
        types_text(m) == "("@ + joined(types, ", "@) + ")"@,
{
    assert(param_types(m.inputs) =~= types);
}

// ── forms ───────────────────────────────────────────────────────────

/// The form of a method says whether it takes a value and how far it can be
/// trusted; only a method that is declared to take nothing is called bare.
pub proof fn a_form_says_what_the_method_takes(p: Pane, c: ContractModel, f: ViewFacts)
    requires
        composes(p, c),
    ensures
        ({
            let m = c.methods[p.composer.method_idx as int];
            let form = call_form(p, c, f);
            &&& form.payable == m.payable
            &&& form.caution == m.caution_text()
            &&& form.picker == write_picker(p, c)
            &&& form.bare <==> m.inputs.len() == 0 && !m.payable && (m.provenance is Declared
                || m.provenance is Matched || m.provenance is Ambiguous)
        }),
{
}

/// A query form has the button that runs it, and shows what it returned.
pub proof fn a_query_form_shows_what_was_returned(p: Pane, c: ContractModel, f: ViewFacts)
    ensures
        c.read_methods.len() == 0 ==> read_form(p, c, f) is NoMethods,
        c.read_methods.len() > 0 && p.composer.loaded == Some(c) && p.reader.idx
            >= c.read_methods.len() ==> read_form(p, c, f) == ReadFormModel::Picker(
            read_picker(p, c),
        ),
        queries(p, c) ==> (read_form(p, c, f) matches ReadFormModel::Query {
            picker,
            caution,
            query,
            result,
            ..
        } && {
            &&& picker == read_picker(p, c)
            &&& caution == c.read_methods[p.reader.idx as int].caution_text()
            &&& query == query_press(p, f)
            &&& p.reader.result is None ==> result is None
            &&& p.reader.result matches Some(r) ==> result == Some(result_model(r))
        }),
{
}

/// The query button runs the query where it is complete and none is under way.
pub proof fn the_query_button_runs_a_complete_query(p: Pane, f: ViewFacts)
    ensures
        p.reader.busy ==> query_press(p, f).label == "Querying…"@ && query_press(p, f).action
            is None,
        !p.reader.busy ==> query_press(p, f).label == "◈ Query"@,
        !p.reader.busy && p.read_valid(f.read_args_valid) ==> query_press(p, f).action == Some(
            Message::Query,
        ),
        !p.read_valid(f.read_args_valid) ==> query_press(p, f).action is None,
{
}

/// A returned value is shown under its own name and type, and its button copies
/// that one. Only a verified answer is called verified.
pub proof fn a_result_shows_each_value(r: ReadModel, i: int)
    ensures
        r matches ReadModel::Failed(e) ==> result_model(r) == ResultModel::Failed(e),
        r matches ReadModel::Returned { rows, raw, verified } ==> (result_model(
            r,
        ) matches ResultModel::Returned { badge, values, raw: shown, copy } && {
            &&& shown == raw
            &&& copy == Message::CopyReadRaw
            &&& verified ==> badge == "verified"@
            &&& !verified ==> badge == "unverified"@
            &&& values.len() == rows.len()
            &&& 0 <= i < rows.len() <= usize::MAX ==> values[i].ty == rows[i].ty && values[i].line
                == rows[i].name + " = "@ + rows[i].value && values[i].copy
                == Message::CopyReadValue(i as usize)
        }),
{
}

/// The composer shows the form of its mode: the method's, the query's, or the raw
/// one; and the raw one flags a target that is no address or has no code.
pub proof fn the_composer_shows_its_mode(p: Pane, f: ViewFacts)
    ensures
        p.mode is Write ==> (body_model(p, f) matches ComposerBodyModel::Call { head, form } && {
            &&& head == head_model(p, f)
            &&& p.composer.resolving || p.composer.loaded is None ==> form is None
            &&& !p.composer.resolving ==> (p.composer.loaded matches Some(c) ==> form == Some(
                call_form(p, c, f),
            ))
        }),
        p.mode is Read ==> (body_model(p, f) matches ComposerBodyModel::Read { head, form } && {
            &&& head == head_model(p, f)
            &&& p.composer.resolving || p.composer.loaded is None ==> form is None
            &&& !p.composer.resolving ==> (p.composer.loaded matches Some(c) ==> form == Some(
                read_form(p, c, f),
            ))
        }),
        p.mode is Raw ==> (body_model(p, f) matches ComposerBodyModel::Raw {
            to_invalid,
            nothing_deployed,
        } && {
            &&& to_invalid <==> trimmed(p.raw.to).len() > 0 && !f.raw_to_ok
            &&& nothing_deployed == p.raw.nothing_deployed
        }),
        composer_model(p, f).body == body_model(p, f),
{
}

/// There is one tab for each mode, which selects it and is on while it is selected.
pub proof fn each_mode_has_its_tab(mode: Mode)
    ensures
        ({
            let t = tab_models(mode);
            &&& t.len() == 3
            &&& t[0].label == "Write"@ && t[0].action == Message::SetMode(Mode::Write) && t[0].on
                == (mode is Write)
            &&& t[1].label == "Read"@ && t[1].action == Message::SetMode(Mode::Read) && t[1].on == (
            mode is Read)
            &&& t[2].label == "Raw hex"@ && t[2].action == Message::SetMode(Mode::Raw) && t[2].on
                == (mode is Raw)
        }),
{
}

/// What is composed is queued on a built-in network and sent at once on a custom
/// one, where it is valid; a query has no such button.
pub proof fn the_button_queues_or_sends(p: Pane, f: ViewFacts)
    ensures
        composer_model(p, f).tabs == tab_models(p.mode),
        p.mode is Read ==> composer_model(p, f).cta is None,
        !(p.mode is Read) ==> composer_model(p, f).cta == Some(cta_model(p, f)),
        p.net is Custom ==> cta_model(p, f).label == "↑ Send transaction"@,
        p.net is Builtin ==> cta_model(p, f).label == "+ Add to batch"@,
        p.net is Custom && p.compose_valid(f.compose) ==> cta_model(p, f).action == Some(
            Message::SendSingle,
        ),
        p.net is Builtin && p.compose_valid(f.compose) ==> cta_model(p, f).action == Some(
            Message::AddToBatch,
        ),
        !p.compose_valid(f.compose) ==> cta_model(p, f).action is None,
{
}

} // verus!

//! A coarse record of the pane, taken either side of an event, and the names a
//! log line needs.

use vstd::prelude::*;

use crate::chain::NetworkId;
use crate::text::dec;
use crate::text::decimal_usize;
use crate::text::models;
use crate::tx_builder::model::bool_text;
use crate::tx_builder::model::Pane;
use crate::tx_builder::Message;
use crate::tx_builder::Modal;
use crate::tx_builder::Mode;
use crate::tx_builder::Outcome;
use crate::tx_builder::TxBuilderApp;

verus! {

/// A sample of the pane's coarse state. What changes with every keystroke is
/// left out.
#[derive(Debug, Clone, Copy, PartialEq, Eq, Structural)]
pub struct TraceState {
    pub mode: Mode,
    pub net: NetworkId,
    pub batch: usize,
    pub modal: Modal,
    pub loaded: bool,
    pub resolving: bool,
    pub read_busy: bool,
    pub sim_busy: bool,
    pub sim: bool,
    pub errored: bool,
    pub settled: bool,
}

/// The name of a composer mode.
pub open spec fn mode_text(m: Mode) -> Seq<char> {
    match m {
        Mode::Write => "Write"@,
        Mode::Read => "Read"@,
        Mode::Raw => "Raw"@,
    }
}

/// The name of an overlay.
pub open spec fn modal_text(m: Modal) -> Seq<char> {
    match m {
        Modal::Closed => "None"@,
        Modal::Save => "Save"@,
        Modal::Load => "Load"@,
    }
}

/// One change, if there is one.
#[verifier::opaque]
pub open spec fn change(
    moved: bool,
    what: Seq<char>,
    from: Seq<char>,
    to: Seq<char>,
) -> Seq<(Seq<char>, Seq<char>, Seq<char>)> {
    if moved {
        seq![(what, from, to)]
    } else {
        seq![]
    }
}

/// One change of a truth value.
#[verifier::opaque]
pub open spec fn flip(what: Seq<char>, from: bool, to: bool) -> Seq<
    (Seq<char>, Seq<char>, Seq<char>),
> {
    change(from != to, what, bool_text(from), bool_text(to))
}

/// What moved of the mode, the network, the queue and the overlay.
pub open spec fn layout_changes(a: TraceState, b: TraceState) -> Seq<
    (Seq<char>, Seq<char>, Seq<char>),
> {
    change(a.mode != b.mode, "mode"@, mode_text(a.mode), mode_text(b.mode)) + change(
        a.net != b.net,
        "net"@,
        a.net.name_text(),
        b.net.name_text(),
    ) + change(a.batch != b.batch, "batch"@, dec(a.batch as nat), dec(b.batch as nat)) + change(
        a.modal != b.modal,
        "modal"@,
        modal_text(a.modal),
        modal_text(b.modal),
    )
}

/// What moved of the work in flight and its results.
pub open spec fn work_changes(a: TraceState, b: TraceState) -> Seq<
    (Seq<char>, Seq<char>, Seq<char>),
> {
    flip("contract"@, a.loaded, b.loaded) + flip("resolving"@, a.resolving, b.resolving)
        + flip("read_busy"@, a.read_busy, b.read_busy) + flip("sim_busy"@, a.sim_busy, b.sim_busy)
        + flip("sim_verdict"@, a.sim, b.sim) + flip("error"@, a.errored, b.errored) + flip(
        "settled"@,
        a.settled,
        b.settled,
    )
}

/// What moved between two samples, each with its value before and after.
pub open spec fn changes_between(a: TraceState, b: TraceState) -> Seq<
    (Seq<char>, Seq<char>, Seq<char>),
> {
    layout_changes(a, b) + work_changes(a, b)
}

impl Pane {
    /// The coarse state.
    pub open spec fn sampled(self) -> TraceState {
        TraceState {
            mode: self.mode,
            net: self.net,
            batch: self.queue.batch.len() as usize,
            modal: self.json.modal,
            loaded: self.composer.loaded is Some,
            resolving: self.composer.resolving,
            read_busy: self.reader.busy,
            sim_busy: self.sim.busy,
            sim: self.sim.result is Some,
            errored: self.error is Some,
            settled: self.settled is Some,
        }
    }
}

/// The name of a composer mode.
pub fn mode_name(m: Mode) -> (r: &'static str)
    ensures
        r@ == mode_text(m),
{
    match m {
        Mode::Write => "Write",
        Mode::Read => "Read",
        Mode::Raw => "Raw",
    }
}

/// The name of an overlay.
pub fn modal_name(m: Modal) -> (r: &'static str)
    ensures
        r@ == modal_text(m),
{
    match m {
        Modal::Closed => "None",
        Modal::Save => "Save",
        Modal::Load => "Load",
    }
}

/// A truth value in words.
pub(crate) fn bool_word(b: bool) -> (r: String)
    ensures
        r@ == bool_text(b),
{
    if b {
        "true".to_owned()
    } else {
        "false".to_owned()
    }
}

/// Records a change of a truth value, if there is one.
fn push_flip(out: &mut Vec<(&'static str, String, String)>, what: &'static str, from: bool, to: bool)
    ensures
        models(final(out)@) == models(old(out)@) + flip(what@, from, to),
{
    let ghost before = out@;
    if from != to {
        out.push((what, bool_word(from), bool_word(to)));
    }
    proof {
        reveal(change);
        reveal(flip);
        assert(models(out@) =~= models(before) + flip(what@, from, to));
    }
}

/// Records a change, if there is one.
fn push_change(
    out: &mut Vec<(&'static str, String, String)>,
    moved: bool,
    what: &'static str,
    from: String,
    to: String,
)
    ensures
        models(final(out)@) == models(old(out)@) + change(moved, what@, from@, to@),
{
    let ghost before = out@;
    if moved {
        out.push((what, from, to));
    }
    proof {
        reveal(change);
        assert(models(out@) =~= models(before) + change(moved, what@, from@, to@));
    }
}

/// The changes of the mode, the network, the queue and the overlay.
fn list_layout_changes(a: &TraceState, b: &TraceState) -> (r: Vec<(&'static str, String, String)>)
    ensures
        models(r@) == layout_changes(*a, *b),
{
    let mut out: Vec<(&'static str, String, String)> = Vec::new();
    push_change(
        &mut out,
        a.mode != b.mode,
        "mode",
        mode_name(a.mode).to_owned(),
        mode_name(b.mode).to_owned(),
    );
    push_change(&mut out, a.net != b.net, "net", a.net.display_name(), b.net.display_name());
    push_change(
        &mut out,
        a.batch != b.batch,
        "batch",
        decimal_usize(a.batch),
        decimal_usize(b.batch),
    );
    push_change(
        &mut out,
        a.modal != b.modal,
        "modal",
        modal_name(a.modal).to_owned(),
        modal_name(b.modal).to_owned(),
    );
    out
}

/// The changes of the work in flight and its results.
fn list_work_changes(a: &TraceState, b: &TraceState) -> (r: Vec<(&'static str, String, String)>)
    ensures
        models(r@) == work_changes(*a, *b),
{
    let mut out: Vec<(&'static str, String, String)> = Vec::new();
    push_flip(&mut out, "contract", a.loaded, b.loaded);
    push_flip(&mut out, "resolving", a.resolving, b.resolving);
    push_flip(&mut out, "read_busy", a.read_busy, b.read_busy);
    push_flip(&mut out, "sim_busy", a.sim_busy, b.sim_busy);
    push_flip(&mut out, "sim_verdict", a.sim, b.sim);
    push_flip(&mut out, "error", a.errored, b.errored);
    push_flip(&mut out, "settled", a.settled, b.settled);
    out
}

impl TraceState {
    /// What moved, as name, value before and value after, in the order of the
    /// fields. Nothing when nothing did.
    pub fn changes(&self, to: &TraceState) -> (r: Vec<(&'static str, String, String)>)
        ensures
            models(r@) == changes_between(*self, *to),
    {
        let mut out: Vec<(&'static str, String, String)> = list_layout_changes(self, to);
        let mut more: Vec<(&'static str, String, String)> = list_work_changes(self, to);
        let ghost (a, b) = (out@, more@);
        out.append(&mut more);
        proof {
            assert(models(a + b) =~= models(a) + models(b));
        }
        out
    }

    /// Just the names of what moved.
    pub fn changed_fields(&self, to: &TraceState) -> (r: Vec<&'static str>)
        ensures
            models(r@) == changes_between(*self, *to).map_values(
                |c: (Seq<char>, Seq<char>, Seq<char>)| c.0,
            ),
    {
        let all: Vec<(&'static str, String, String)> = self.changes(to);
        let ghost names = changes_between(*self, *to).map_values(
            |c: (Seq<char>, Seq<char>, Seq<char>)| c.0,
        );
        let mut out: Vec<&'static str> = Vec::new();
        let mut i: usize = 0;
        while i < all.len()
            invariant
                i <= all@.len(),
                out@.len() == i,
                names.len() == all@.len(),
                models(all@) == changes_between(*self, *to),
                names == changes_between(*self, *to).map_values(
                    |c: (Seq<char>, Seq<char>, Seq<char>)| c.0,
                ),
                models(out@) =~= names.take(i as int),
            decreases all@.len() - i,
        {
            let what: &'static str = all[i].0;
            out.push(what);
            proof {
                assert(names[i as int] == models(all@)[i as int].0);
                assert(models(all@)[i as int] == all@[i as int]@);
            }
            i = i + 1;
        }
        proof {
            assert(names.take(i as int) =~= names);
        }
        out
    }
}

impl TxBuilderApp {
    /// The pane's coarse state.
    pub fn trace_snapshot(&self) -> (r: TraceState)
        ensures
            r == self@.sampled(),
    {
        TraceState {
            mode: self.mode,
            net: self.net,
            batch: self.queue.batch.len(),
            modal: self.json.modal,
            loaded: self.composer.loaded.is_some(),
            resolving: self.composer.resolving,
            read_busy: self.reader.busy,
            sim_busy: self.sim.busy,
            sim: self.sim.result.is_some(),
            errored: self.error.is_some(),
            settled: self.settled.is_some(),
        }
    }
}

impl Message {
    /// The name of the message.
    pub open spec fn name_text(self) -> Seq<char> {
        match self {
            Message::Close => "Close"@,
            Message::SetMode(_) => "SetMode"@,
            Message::ToggleNetworkMenu => "ToggleNetworkMenu"@,
            Message::SetNetwork(_) => "SetNetwork"@,
            Message::AddrChanged(_) => "AddrChanged"@,
            Message::RetryResolve => "RetryResolve"@,
            Message::ShowAbiPaste => "ShowAbiPaste"@,
            Message::AbiPasteChanged(_) => "AbiPasteChanged"@,
            Message::LoadPastedAbi => "LoadPastedAbi"@,
            Message::ToggleMethodMenu => "ToggleMethodMenu"@,
            Message::PickMethod(_) => "PickMethod"@,
            Message::ArgChanged(_, _) => "ArgChanged"@,
            Message::BoolArg(_, _) => "BoolArg"@,
            Message::ValueChanged(_) => "ValueChanged"@,
            Message::ToggleReadMethodMenu => "ToggleReadMethodMenu"@,
            Message::PickReadMethod(_) => "PickReadMethod"@,
            Message::ReadArgChanged(_, _) => "ReadArgChanged"@,
            Message::ReadBoolArg(_, _) => "ReadBoolArg"@,
            Message::Query => "Query"@,
            Message::CopyReadRaw => "CopyReadRaw"@,
            Message::CopyReadValue(_) => "CopyReadValue"@,
            Message::RawToChanged(_) => "RawToChanged"@,
            Message::RawValueChanged(_) => "RawValueChanged"@,
            Message::RawDataChanged(_) => "RawDataChanged"@,
            Message::AddToBatch => "AddToBatch"@,
            Message::SendSingle => "SendSingle"@,
            Message::RemoveCall(_) => "RemoveCall"@,
            Message::MoveUp(_) => "MoveUp"@,
            Message::MoveDown(_) => "MoveDown"@,
            Message::ToggleExpand(_) => "ToggleExpand"@,
            Message::ClearBatch => "ClearBatch"@,
            Message::LoadSample => "LoadSample"@,
            Message::ToggleAutoRevoke(_) => "ToggleAutoRevoke"@,
            Message::ToggleTemplateMenu => "ToggleTemplateMenu"@,
            Message::LoadTemplate(_) => "LoadTemplate"@,
            Message::SaveTemplate => "SaveTemplate"@,
            Message::DeleteTemplate(_) => "DeleteTemplate"@,
            Message::StartRename(_) => "StartRename"@,
            Message::RenameChanged(_) => "RenameChanged"@,
            Message::CommitRename => "CommitRename"@,
            Message::CancelRename => "CancelRename"@,
            Message::Simulate => "Simulate"@,
            Message::Review => "Review"@,
            Message::OpenSave => "OpenSave"@,
            Message::OpenLoad => "OpenLoad"@,
            Message::CloseModal => "CloseModal"@,
            Message::JsonChanged(_) => "JsonChanged"@,
            Message::CopyJson => "CopyJson"@,
            Message::ImportJson => "ImportJson"@,
            Message::CopySettledHash => "CopySettledHash"@,
            Message::DismissSettled => "DismissSettled"@,
            Message::Escape => "Escape"@,
            Message::DismissError => "DismissError"@,
        }
    }

    /// The name of the message.
    pub fn name(&self) -> (r: &'static str)
        ensures
            r@ == self.name_text(),
    {
        match self {
            Message::Close => "Close",
            Message::SetMode(_) => "SetMode",
            Message::ToggleNetworkMenu => "ToggleNetworkMenu",
            Message::SetNetwork(_) => "SetNetwork",
            Message::AddrChanged(_) => "AddrChanged",
            Message::RetryResolve => "RetryResolve",
            Message::ShowAbiPaste => "ShowAbiPaste",
            Message::AbiPasteChanged(_) => "AbiPasteChanged",
            Message::LoadPastedAbi => "LoadPastedAbi",
            Message::ToggleMethodMenu => "ToggleMethodMenu",
            Message::PickMethod(_) => "PickMethod",
            Message::ArgChanged(_, _) => "ArgChanged",
            Message::BoolArg(_, _) => "BoolArg",
            Message::ValueChanged(_) => "ValueChanged",
            Message::ToggleReadMethodMenu => "ToggleReadMethodMenu",
            Message::PickReadMethod(_) => "PickReadMethod",
            Message::ReadArgChanged(_, _) => "ReadArgChanged",
            Message::ReadBoolArg(_, _) => "ReadBoolArg",
            Message::Query => "Query",
            Message::CopyReadRaw => "CopyReadRaw",
            Message::CopyReadValue(_) => "CopyReadValue",
            Message::RawToChanged(_) => "RawToChanged",
            Message::RawValueChanged(_) => "RawValueChanged",
            Message::RawDataChanged(_) => "RawDataChanged",
            Message::AddToBatch => "AddToBatch",
            Message::SendSingle => "SendSingle",
            Message::RemoveCall(_) => "RemoveCall",
            Message::MoveUp(_) => "MoveUp",
            Message::MoveDown(_) => "MoveDown",
            Message::ToggleExpand(_) => "ToggleExpand",
            Message::ClearBatch => "ClearBatch",
            Message::LoadSample => "LoadSample",
            Message::ToggleAutoRevoke(_) => "ToggleAutoRevoke",
            Message::ToggleTemplateMenu => "ToggleTemplateMenu",
            Message::LoadTemplate(_) => "LoadTemplate",
            Message::SaveTemplate => "SaveTemplate",
            Message::DeleteTemplate(_) => "DeleteTemplate",
            Message::StartRename(_) => "StartRename",
            Message::RenameChanged(_) => "RenameChanged",
            Message::CommitRename => "CommitRename",
            Message::CancelRename => "CancelRename",
            Message::Simulate => "Simulate",
            Message::Review => "Review",
            Message::OpenSave => "OpenSave",
            Message::OpenLoad => "OpenLoad",
            Message::CloseModal => "CloseModal",
            Message::JsonChanged(_) => "JsonChanged",
            Message::CopyJson => "CopyJson",
            Message::ImportJson => "ImportJson",
            Message::CopySettledHash => "CopySettledHash",
            Message::DismissSettled => "DismissSettled",
            Message::Escape => "Escape",
            Message::DismissError => "DismissError",
        }
    }
}

impl Outcome {
    /// The name of the request.
    pub open spec fn name_text(self) -> Seq<char> {
        match self {
            Outcome::Close => "Close"@,
            Outcome::ResolveContract { .. } => "ResolveContract"@,
            Outcome::Read { .. } => "Read"@,
            Outcome::ProbeCode { .. } => "ProbeCode"@,
            Outcome::Simulate { .. } => "Simulate"@,
            Outcome::Review { .. } => "Review"@,
            Outcome::PersistTemplates { .. } => "PersistTemplates"@,
            Outcome::CopyText(_) => "CopyText"@,
            Outcome::CopyPlain(_) => "CopyPlain"@,
        }
    }

    /// The name of the request.
    pub fn name(&self) -> (r: &'static str)
        ensures
            r@ == self.name_text(),
    {
        match self {
            Outcome::Close => "Close",
            Outcome::ResolveContract { .. } => "ResolveContract",
            Outcome::Read { .. } => "Read",
            Outcome::ProbeCode { .. } => "ProbeCode",
            Outcome::Simulate { .. } => "Simulate",
            Outcome::Review { .. } => "Review",
            Outcome::PersistTemplates { .. } => "PersistTemplates",
            Outcome::CopyText(_) => "CopyText",
            Outcome::CopyPlain(_) => "CopyPlain",
        }
    }
}

} // verus!

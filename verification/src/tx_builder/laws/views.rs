//! The models of the builder leave nothing out.

use vstd::prelude::*;

use crate::text::model_of;
use crate::text::models;
use crate::tx_builder::Composer;
use crate::tx_builder::Ctx;
use crate::tx_builder::Effect;
use crate::tx_builder::JsonBox;
use crate::tx_builder::Outcome;
use crate::tx_builder::Preflight;
use crate::tx_builder::Queue;
use crate::tx_builder::RawComposer;
use crate::tx_builder::ReadModel;
use crate::tx_builder::ReadOutcome;
use crate::tx_builder::ReadRow;
use crate::tx_builder::Reader;
use crate::tx_builder::Shelf;
use crate::tx_builder::SimState;
use crate::tx_builder::TxBuilderApp;
use crate::tx_builder::Verdict;
use crate::txbuilder::AbiMethod;
use crate::txbuilder::AbiParam;
use crate::txbuilder::BatchOutcome;
use crate::txbuilder::BatchSimResult;
use crate::txbuilder::DecodedArg;
use crate::txbuilder::LoadedContract;
use crate::txbuilder::MethodProvenance;
use crate::txbuilder::OutcomeModel;
use crate::txbuilder::ProvenanceModel;
use crate::txbuilder::QueuedCall;
use crate::txbuilder::Template;

verus! {

/// The model of an `AbiParam` has every part of it, each in its place.
pub proof fn an_abi_param_is_modelled_in_full(x: AbiParam)
    ensures
        x@.name == x.name@,
        x@.ty_str == x.ty_str@,
{
}

/// The model of a `MethodProvenance` has every part of it, each in its place.
pub proof fn a_method_provenance_is_modelled_in_full(x: MethodProvenance)
    ensures
        x is Declared ==> x@ == ProvenanceModel::Declared,
        x is Matched ==> x@ == ProvenanceModel::Matched,
        x matches MethodProvenance::Ambiguous { alternatives }
            ==> x@ == (ProvenanceModel::Ambiguous {
            alternatives: models(alternatives@),
        }),
        x matches MethodProvenance::Mismatched { claimed } ==> x@ == (ProvenanceModel::Mismatched {
            claimed: models(claimed@),
        }),
        x is SelectorOnly ==> x@ == ProvenanceModel::SelectorOnly,
{
}

/// The model of an `AbiMethod` has every part of it, each in its place.
pub proof fn an_abi_method_is_modelled_in_full(x: AbiMethod)
    ensures
        x@.name == x.name@,
        x@.inputs == models(x.inputs@),
        x@.outputs == models(x.outputs@),
        x@.payable == x.payable,
        x@.selector == x.selector,
        x@.signature == x.signature@,
        x@.provenance == x.provenance@,
{
}

/// The model of a `LoadedContract` has every part of it, each in its place.
pub proof fn a_loaded_contract_is_modelled_in_full(x: LoadedContract)
    ensures
        x@.address == x.address,
        x@.name == x.name@,
        x@.label == x.label@,
        x@.kaomoji == model_of(x.kaomoji),
        x@.source == x.source,
        x@.methods == models(x.methods@),
        x@.read_methods == models(x.read_methods@),
        x@.proxy_impl == x.proxy_impl,
{
}

/// The model of a `DecodedArg` has every part of it, each in its place.
pub proof fn a_decoded_arg_is_modelled_in_full(x: DecodedArg)
    ensures
        x@.name == x.name@,
        x@.value == x.value@,
{
}

/// The model of a `QueuedCall` has every part of it, each in its place.
pub proof fn a_queued_call_is_modelled_in_full(x: QueuedCall)
    ensures
        x@.id == x.id,
        x@.to == x.to,
        x@.value == x.value,
        x@.data == x.data@,
        x@.title == x.title@,
        x@.detail == x.detail@,
        x@.signature == model_of(x.signature),
        x@.decoded_args == models(x.decoded_args@),
{
}

/// The model of a `Template` has every part of it, each in its place.
pub proof fn a_template_is_modelled_in_full(x: Template)
    ensures
        x@.name == x.name@,
        x@.kaomoji == x.kaomoji@,
        x@.note == x.note@,
        x@.call_count == x.call_count,
        x@.from == x.from,
        x@.bundle == x.bundle@,
{
}

/// The model of a `BatchOutcome` has every part of it, each in its place.
pub proof fn a_batch_outcome_is_modelled_in_full(x: BatchOutcome)
    ensures
        x is Success ==> x@ == OutcomeModel::Success,
        x matches BatchOutcome::Revert { step, reason } ==> x@ == (OutcomeModel::Revert {
            step,
            reason: reason@,
        }),
        x matches BatchOutcome::Halt { step, reason } ==> x@ == (OutcomeModel::Halt {
            step,
            reason: reason@,
        }),
        x matches BatchOutcome::Error(e) ==> x@ == OutcomeModel::Error(e@),
        x is Unavailable ==> x@ == OutcomeModel::Unavailable,
{
}

/// The model of a `BatchSimResult` has every part of it, each in its place.
pub proof fn a_batch_sim_result_is_modelled_in_full(x: BatchSimResult)
    ensures
        x@.outcome == x.outcome@,
        x@.gas_used == x.gas_used,
        x@.transfers == models(x.transfers@),
        x@.verified == x.verified,
        x@.base_fee_per_gas == x.base_fee_per_gas,
        x@.block == x.block,
        x@.block_gas_limit == x.block_gas_limit,
{
}

/// The model of a `ReadRow` has every part of it, each in its place.
pub proof fn a_read_row_is_modelled_in_full(x: ReadRow)
    ensures
        x@.name == x.name@,
        x@.ty == x.ty@,
        x@.value == x.value@,
{
}

/// The model of a `ReadOutcome` has every part of it, each in its place.
pub proof fn a_read_outcome_is_modelled_in_full(x: ReadOutcome)
    ensures
        x matches ReadOutcome::Returned { rows, raw, verified } ==> x@ == (ReadModel::Returned {
            rows: models(rows@),
            raw: raw@,
            verified,
        }),
        x matches ReadOutcome::Failed(e) ==> x@ == ReadModel::Failed(e@),
{
}

/// The model of a `Preflight` has every part of it, each in its place.
pub proof fn a_preflight_is_modelled_in_full(x: Preflight)
    ensures
        x matches Preflight::Passed { stale, verified } ==> x@ == (Verdict::Passed {
            stale,
            verified,
        }),
        x matches Preflight::Fails { at, reason } ==> x@ == (Verdict::Fails {
            at: at@,
            reason: reason@,
        }),
        x matches Preflight::TooMuchGas { gas_used, block_gas_limit }
            ==> x@ == (Verdict::TooMuchGas {
            gas_used,
            block_gas_limit,
        }),
        x matches Preflight::Errored { reason } ==> x@ == (Verdict::Errored { reason: reason@ }),
        x is Missing ==> x@ == Verdict::Missing,
        x is Unsupported ==> x@ == Verdict::Unsupported,
{
}

/// The model of an `Outcome` has every part of it, each in its place.
pub proof fn an_outcome_is_modelled_in_full(x: Outcome)
    ensures
        x is Close ==> x@ == Effect::Close,
        x matches Outcome::ResolveContract { seq, chain, address }
            ==> x@ == (Effect::ResolveContract {
            seq,
            chain,
            address,
        }),
        x matches Outcome::Read { seq, net, to, data } ==> x@ == (Effect::Read {
            seq,
            net,
            to,
            data: data@,
        }),
        x matches Outcome::ProbeCode { seq, net, address } ==> x@ == (Effect::ProbeCode {
            seq,
            net,
            address,
        }),
        x matches Outcome::Simulate { seq, chain, calls } ==> x@ == (Effect::Simulate {
            seq,
            chain,
            calls: models(calls@),
        }),
        x matches Outcome::Review { calls, preflight, sim, fee_caveats } ==> x@ == (Effect::Review {
            calls: models(calls@),
            preflight: preflight@,
            sim: model_of(sim),
            fee_caveats: models(fee_caveats@),
        }),
        x matches Outcome::PersistTemplates { list, rollback } ==> x@ == (Effect::PersistTemplates {
            list: models(list@),
            rollback: models(rollback@),
        }),
        x matches Outcome::CopyText(s) ==> x@ == Effect::CopyText(s@),
        x matches Outcome::CopyPlain(s) ==> x@ == Effect::CopyPlain(s@),
{
}

/// The model of a `Ctx` has every part of it, each in its place.
pub proof fn a_ctx_is_modelled_in_full(x: Ctx)
    ensures
        x@.identity == x.identity,
        x@.is_safe == x.is_safe,
        x@.safe_version == model_of(x.safe_version),
        x@.eoa_can_batch == x.eoa_can_batch,
        x@.can_sign == x.can_sign,
        x@.custom_networks == models(x.custom_networks@),
{
}

/// The model of a `Composer` has every part of it, each in its place.
pub proof fn a_composer_is_modelled_in_full(x: Composer)
    ensures
        x@.addr_input == x.addr_input@,
        x@.loaded == model_of(x.loaded),
        x@.resolving == x.resolving,
        x@.not_found == x.not_found,
        x@.resolve_error == model_of(x.resolve_error),
        x@.addr_error == model_of(x.addr_error),
        x@.proxy_unverified == x.proxy_unverified,
        x@.nothing_deployed == x.nothing_deployed,
        x@.proxy_beacon == x.proxy_beacon,
        x@.paste_open == x.paste_open,
        x@.abi_paste == x.abi_paste@,
        x@.resolve_target == x.resolve_target,
        x@.resolve_seq == x.resolve_seq,
        x@.method_idx == x.method_idx,
        x@.method_menu_open == x.method_menu_open,
        x@.args == models(x.args@),
        x@.value_input == x.value_input@,
{
}

/// The model of a `Reader` has every part of it, each in its place.
pub proof fn a_reader_is_modelled_in_full(x: Reader)
    ensures
        x@.idx == x.idx,
        x@.menu_open == x.menu_open,
        x@.args == models(x.args@),
        x@.seq == x.seq,
        x@.busy == x.busy,
        x@.result == model_of(x.result),
{
}

/// The model of a `RawComposer` has every part of it, each in its place.
pub proof fn a_raw_composer_is_modelled_in_full(x: RawComposer)
    ensures
        x@.to == x.to@,
        x@.value == x.value@,
        x@.data == x.data@,
        x@.nothing_deployed == x.nothing_deployed,
{
}

/// The model of a `Queue` has every part of it, each in its place.
pub proof fn a_queue_is_modelled_in_full(x: Queue)
    ensures
        x@.batch == models(x.batch@),
        x@.next_id == x.next_id,
        x@.expanded == x.expanded,
        x@.auto_revoke == x.auto_revoke,
{
}

/// The model of a `SimState` has every part of it, each in its place.
pub proof fn a_sim_state_is_modelled_in_full(x: SimState)
    ensures
        x@.result == model_of(x.result),
        x@.at == x.at,
        x@.busy == x.busy,
        x@.seq == x.seq,
{
}

/// The model of a `Shelf` has every part of it, each in its place.
pub proof fn a_shelf_is_modelled_in_full(x: Shelf)
    ensures
        x@.templates == models(x.templates@),
        x@.menu_open == x.menu_open,
        x@.rename_idx == x.rename_idx,
        x@.rename_buf == x.rename_buf@,
{
}

/// The model of a `JsonBox` has every part of it, each in its place.
pub proof fn a_json_box_is_modelled_in_full(x: JsonBox)
    ensures
        x@.modal == x.modal,
        x@.text == x.text@,
        x@.error == model_of(x.error),
{
}

/// The model of a `TxBuilderApp` has every part of it, each in its place.
pub proof fn a_tx_builder_app_is_modelled_in_full(x: TxBuilderApp)
    ensures
        x@.owner == x.owner,
        x@.ctx == x.ctx@,
        x@.net == x.net,
        x@.net_menu_open == x.net_menu_open,
        x@.mode == x.mode,
        x@.composer == x.composer@,
        x@.reader == x.reader@,
        x@.raw == x.raw@,
        x@.probe_seq == x.probe_seq,
        x@.queue == x.queue@,
        x@.sim == x.sim@,
        x@.shelf == x.shelf@,
        x@.json == x.json@,
        x@.settled == x.settled,
        x@.error == model_of(x.error),
{
}

} // verus!

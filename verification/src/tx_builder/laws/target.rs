//! How the pane comes to a contract, and what it makes of the answers it gets.

use vstd::prelude::*;
use vstd::utf8::encode_utf8;

use crate::chain::Chain;
use crate::chain::NetworkId;
use crate::primitives::spelled_address;
use crate::primitives::Address;
use crate::text::dec;
use crate::text::hex_bytes;
use crate::text::trimmed;
use crate::tx_builder::model::configured_name;
use crate::tx_builder::model::ComposerModel;
use crate::tx_builder::model::Pane;
use crate::tx_builder::model::RawModel;
use crate::tx_builder::model::ReaderModel;
use crate::tx_builder::question::sample_pool;
use crate::tx_builder::question::sample_token;
use crate::tx_builder::Effect;
use crate::tx_builder::Findings;
use crate::tx_builder::Message;
use crate::tx_builder::Modal;
use crate::tx_builder::ReadModel;
use crate::tx_builder::ReadReply;
use crate::tx_builder::ResolvedCode;
use crate::tx_builder::reply::decoded_params;
use crate::tx_builder::view::composer::param_types;
use crate::txbuilder::AbiSource;
use crate::txbuilder::ContractModel;

verus! {

// ── typing an address ───────────────────────────────────────────────

/// What typing leaves alone: everything but the composer, the queries and the
/// banner; and of the composer the pasted ABI.
pub open spec fn only_the_composer_moved(p: Pane, q: Pane) -> bool {
    &&& q == (Pane {
        composer: q.composer,
        reader: q.reader,
        error: q.error,
        probe_seq: q.probe_seq,
        ..p
    })
    &&& q.composer.abi_paste == p.composer.abi_paste
}

/// Whether the composer is empty but for the text of the address.
pub open spec fn starts_over(c: ComposerModel) -> bool {
    &&& c.loaded is None
    &&& !c.resolving
    &&& c.resolve_error is None
    &&& !c.proxy_unverified
    &&& !c.proxy_beacon
    &&& !c.nothing_deployed
    &&& !c.paste_open
    &&& c.method_idx == 0
    &&& !c.method_menu_open
    &&& c.args.len() == 0
    &&& c.value_input == "0"@
}

/// Whether the query form is empty.
pub open spec fn asks_nothing(r: ReaderModel) -> bool {
    r.idx == 0 && !r.menu_open && r.args.len() == 0 && !r.busy && r.result is None
}

/// A text that spells no address leaves no target and no contract; why is said
/// once it is as long as an address.
pub proof fn a_text_that_is_no_address_has_no_target(p: Pane, v: String, f: Findings)
    requires
        f.address is Err,
        encode_utf8(trimmed(v@)).len() <= usize::MAX,
    ensures
        ({
            let (q, e) = p.update(Message::AddrChanged(v), f);
            &&& e is None
            &&& q.composer.addr_input == v@
            &&& q.composer.resolve_target is None
            &&& !q.composer.not_found
            &&& starts_over(q.composer)
            &&& asks_nothing(q.reader)
            &&& encode_utf8(trimmed(v@)).len() >= 42 ==> q.composer.addr_error == Some(
                f.address->Err_0@,
            )
            &&& encode_utf8(trimmed(v@)).len() < 42 ==> q.composer.addr_error is None
            &&& q.error is None
            &&& only_the_composer_moved(p, q)
        }),
{
}

/// A new address on a built-in chain becomes the target and is resolved there; a
/// curated contract is shown at once, at that address.
pub proof fn a_typed_address_is_resolved(p: Pane, v: String, f: Findings, addr: Address)
    requires
        f.address == Ok::<Address, String>(addr),
        p.net is Builtin,
        p.composer.resolve_target != Some(addr) || (p.composer.loaded is None
            && !p.composer.resolving && !p.composer.not_found),
        p.composer.resolve_seq <= u64::MAX - 2,
    ensures
        ({
            let (q, e) = p.update(Message::AddrChanged(v), f);
            &&& q.composer.addr_input == v@
            &&& q.composer.resolve_target == Some(addr)
            &&& q.composer.addr_error is None && q.error is None && q.composer.resolve_error
                is None && !q.composer.not_found
            &&& e matches Some(Effect::ResolveContract { seq, chain, address }) && seq
                == q.composer.resolve_seq && seq > p.composer.resolve_seq && address == addr
                && p.net == NetworkId::Builtin(chain)
            &&& f.known is None ==> q.composer.resolving && q.composer.loaded is None
                && q.composer.args.len() == 0 && asks_nothing(q.reader)
            &&& q.composer.method_idx == 0 && q.composer.value_input == "0"@
                && !q.composer.proxy_unverified && !q.composer.proxy_beacon
                && !q.composer.nothing_deployed && !q.composer.paste_open
            &&& f.known matches Some(c) ==> (c@.methods.len() > 0 ==> q.composer.args.len()
                == c@.methods[0].inputs.len()) && (c@.read_methods.len() > 0 ==> q.reader.args.len()
                == c@.read_methods[0].inputs.len()) && q.reader.idx == 0 && q.reader.result is None
                && !q.reader.busy
            &&& f.known matches Some(c) ==> !q.composer.resolving && q.composer.loaded == Some(
                ContractModel { address: addr, source: AbiSource::Known, ..c@ },
            )
            &&& only_the_composer_moved(p, q)
        }),
{
}

/// On a custom network nothing can be resolved: the address is the target, no
/// contract is found, and it is asked whether anything is there.
pub proof fn a_custom_network_only_probes(p: Pane, v: String, f: Findings, addr: Address)
    requires
        f.address == Ok::<Address, String>(addr),
        p.net is Custom,
        p.composer.resolve_target != Some(addr) || (p.composer.loaded is None
            && !p.composer.resolving && !p.composer.not_found),
        p.probe_seq < u64::MAX,
    ensures
        ({
            let (q, e) = p.update(Message::AddrChanged(v), f);
            &&& q.composer.addr_input == v@
            &&& q.composer.resolve_target == Some(addr)
            &&& q.composer.not_found
            &&& starts_over(q.composer)
            &&& asks_nothing(q.reader)
            &&& q.probe_seq == p.probe_seq + 1
            &&& e == Some(
                Effect::ProbeCode { seq: (p.probe_seq + 1) as u64, net: p.net, address: addr },
            )
            &&& only_the_composer_moved(p, q)
        }),
{
}

/// Typing the address that is the target already keeps what is known of it.
pub proof fn the_same_address_is_not_asked_for_again(p: Pane, v: String, f: Findings, addr: Address)
    requires
        f.address == Ok::<Address, String>(addr),
        p.composer.resolve_target == Some(addr),
        p.composer.loaded is Some || p.composer.resolving || p.composer.not_found,
    ensures
        p.update(Message::AddrChanged(v), f) == (
            Pane {
                composer: ComposerModel { addr_input: v@, addr_error: None, ..p.composer },
                error: None,
                ..p
            },
            None::<Effect>,
        ),
{
}

/// Retrying asks for the same target again, on a built-in chain; without a target,
/// or elsewhere, nothing happens.
pub proof fn retrying_asks_for_the_target_again(p: Pane, f: Findings)
    requires
        p.composer.resolve_seq < u64::MAX,
    ensures
        ({
            let (q, e) = p.update(Message::RetryResolve, f);
            &&& p.composer.resolve_target matches Some(a) ==> (p.net matches NetworkId::Builtin(c)
                ==> {
                &&& e == Some(
                    Effect::ResolveContract {
                        seq: (p.composer.resolve_seq + 1) as u64,
                        chain: c,
                        address: a,
                    },
                )
                &&& q.composer.resolving && !q.composer.not_found && q.composer.resolve_error
                    is None
                &&& q.composer.resolve_seq == p.composer.resolve_seq + 1
                &&& q.composer.resolve_target == p.composer.resolve_target && q.composer.loaded
                    == p.composer.loaded && q.composer.args == p.composer.args
                    && q.composer.addr_input == p.composer.addr_input
                &&& q == (Pane { composer: q.composer, ..p })
            })
            &&& p.composer.resolve_target is None || p.net is Custom ==> q == p && e is None
        }),
{
}

/// A pasted ABI is the contract at the typed address, and empties its box; without
/// an address, or where it does not parse, the banner says so and nothing else
/// changes.
pub proof fn a_pasted_abi_is_shown_at_the_address(p: Pane, f: Findings)
    ensures
        ({
            let (q, e) = p.update(Message::LoadPastedAbi, f);
            &&& e is None
            &&& f.address is Err ==> q == (Pane {
                error: Some("enter the contract address first"@),
                ..p
            })
            &&& f.address matches Ok(addr) ==> {
                &&& f.pasted matches Err(why) ==> q == (Pane { error: Some(why@), ..p })
                &&& f.pasted matches Ok(c) ==> {
                    &&& q.composer.loaded == Some(
                        ContractModel { address: addr, source: AbiSource::Pasted, ..c@ },
                    )
                    &&& q.composer.resolve_target == Some(addr)
                    &&& q.composer.abi_paste.len() == 0 && !q.composer.paste_open
                        && !q.composer.resolving && !q.composer.not_found
                        && !q.composer.proxy_unverified && !q.composer.proxy_beacon
                    &&& q.composer.method_idx == 0 && q.composer.value_input == "0"@
                    &&& c@.methods.len() > 0 ==> q.composer.args.len() == c@.methods[0].inputs.len()
                    &&& q.reader.idx == 0 && q.reader.result is None && !q.reader.busy
                    &&& c@.read_methods.len() > 0 ==> q.reader.args.len()
                        == c@.read_methods[0].inputs.len()
                    &&& q.composer.addr_input == p.composer.addr_input
                    &&& q == (Pane { composer: q.composer, reader: q.reader, ..p })
                }
            }
        }),
{
}

/// Typing a raw target drops what was known of the old one, and asks of an address
/// whether anything is there, on the network of the pane.
pub proof fn a_raw_target_is_probed(p: Pane, v: String, f: Findings)
    requires
        p.probe_seq <= u64::MAX - 2,
    ensures
        ({
            let (q, e) = p.update(Message::RawToChanged(v), f);
            &&& q.raw == (RawModel { to: v@, nothing_deployed: false, ..p.raw })
            &&& q == (Pane { raw: q.raw, probe_seq: q.probe_seq, ..p })
            &&& q.probe_seq > p.probe_seq
            &&& f.address is Err ==> e is None
            &&& f.address matches Ok(a) ==> e == Some(
                Effect::ProbeCode { seq: q.probe_seq, net: p.net, address: a },
            )
        }),
{
}

// ── answers ─────────────────────────────────────────────────────────

/// An account without code is marked empty, and one with code is not: the raw
/// target where it spells that address, and the composer's target where it is that
/// address; nothing else changes.
pub proof fn a_probe_marks_empty_addresses(p: Pane, address: Address, has_code: bool)
    ensures
        ({
            let q = p.code_probed(p.probe_seq, address, Ok(has_code));
            let raw = spelled_address(trimmed(p.raw.to)) == Some(address);
            let composed = p.composer.resolve_target == Some(address);
            &&& raw ==> q.raw.nothing_deployed == !has_code
            &&& !raw ==> q.raw.nothing_deployed == p.raw.nothing_deployed
            &&& composed ==> q.composer.nothing_deployed == !has_code
            &&& !composed ==> q.composer.nothing_deployed == p.composer.nothing_deployed
            &&& q == (Pane {
                raw: RawModel { nothing_deployed: q.raw.nothing_deployed, ..p.raw },
                composer: ComposerModel {
                    nothing_deployed: q.composer.nothing_deployed,
                    ..p.composer
                },
                ..p
            })
        }),
{
}

/// The cautions about the code of an address are those its resolve met: a proxy
/// that could not be followed verified, a beacon, nothing there at all.
pub proof fn a_resolve_passes_its_cautions_on(p: Pane, r: ResolvedCode, found: ContractModel)
    requires
        p.composer.resolve_target is Some,
    ensures
        ({
            let q = p.contract_resolved(p.composer.resolve_seq, Ok(r), Some(found));
            &&& !q.composer.resolving
            &&& q.composer.nothing_deployed == r.nothing_deployed
            &&& q.composer.loaded is Some
            &&& q.composer.loaded->0.source == AbiSource::Bytecode ==> q.composer.proxy_unverified
                == !r.all_verified && q.composer.proxy_beacon == r.beacon
        }),
        ({
            let q = p.contract_resolved(p.composer.resolve_seq, Ok(r), None);
            &&& !q.composer.resolving
            &&& q.composer.nothing_deployed == r.nothing_deployed
            &&& q.composer.proxy_unverified == !r.all_verified
            &&& q.composer.proxy_beacon == r.beacon
            &&& q.composer.loaded == p.composer.loaded
            &&& p.composer.loaded is None ==> q.composer.not_found
            &&& p.composer.loaded is Some ==> q.composer.not_found == p.composer.not_found
        }),
{
}

/// What was recovered from code is shown where nothing was, at the target, with
/// the implementation it came from where that is another address.
pub proof fn recovered_code_is_shown_at_the_target(p: Pane, r: ResolvedCode, found: ContractModel)
    requires
        p.composer.resolve_target is Some,
        p.composer.loaded is None,
    ensures
        ({
            let q = p.contract_resolved(p.composer.resolve_seq, Ok(r), Some(found));
            let target = p.composer.resolve_target->0;
            &&& q.composer.loaded matches Some(c) && c.address == target && c.source
                == AbiSource::Bytecode && c.methods == found.methods && c.read_methods
                == found.read_methods && c.name == found.name && c.label == found.label && (
            r.implementation == target ==> c.proxy_impl is None) && (r.implementation != target
                ==> c.proxy_impl == Some(r.implementation))
            &&& !q.composer.not_found
            &&& found.methods.len() > 0 ==> q.composer.args.len() == found.methods[0].inputs.len()
            &&& found.read_methods.len() > 0 ==> q.reader.args.len()
                == found.read_methods[0].inputs.len()
        }),
{
}

/// A resolve that failed says why, and leaves what is on screen.
pub proof fn a_failed_resolve_says_why(
    p: Pane,
    why: Result<ResolvedCode, String>,
    found: Option<ContractModel>,
)
    requires
        p.composer.resolve_target is Some,
        why is Err,
    ensures
        p.contract_resolved(p.composer.resolve_seq, why, found) == (Pane {
            composer: ComposerModel {
                resolving: false,
                resolve_error: Some(why->Err_0@),
                ..p.composer
            },
            ..p
        }),
{
}

/// An answer shows one row for each declared output, with its name, its type and
/// its own value in order; an output without a name is numbered. The raw data is
/// there in full, and whether the answer was verified is what the reply says.
pub proof fn an_answer_shows_each_output(
    p: Pane,
    r: ReadReply,
    values: Vec<String>,
    decoded: Seq<Seq<u8>>,
)
    requires
        p.composer.loaded is Some,
        p.reader.idx < p.composer.loaded->0.read_methods.len(),
        r.values == Some(values),
        decoded.len() == values@.len(),
    ensures
        ({
            let q = p.read_shown(p.reader.seq, Ok(r), Some(decoded));
            let outputs = p.composer.loaded->0.read_methods[p.reader.idx as int].outputs;
            &&& !q.reader.busy
            &&& q == (Pane { reader: q.reader, ..p })
            &&& q.reader.seq == p.reader.seq && q.reader.args == p.reader.args
            &&& q.reader.result matches Some(ReadModel::Returned { rows, raw, verified }) && {
                &&& raw == "0x"@ + hex_bytes(r.bytes@)
                &&& verified == r.verified
                &&& outputs.len() == values@.len() ==> rows.len() == outputs.len()
                &&& rows.len() <= outputs.len() && rows.len() <= values@.len()
                &&& forall|i: int|
                    0 <= i < rows.len() ==> (#[trigger] rows[i]).value == values@[i]@ && rows[i].ty
                        == outputs[i].ty_str && (outputs[i].name.len() > 0 ==> rows[i].name
                        == outputs[i].name) && (outputs[i].name.len() == 0 ==> rows[i].name
                        == "out"@ + dec(i as nat))
            }
        }),
{
}

/// An answer that does not decode is still shown raw, and a query that failed says
/// why.
pub proof fn an_answer_is_never_lost(p: Pane, r: ReadReply, why: String)
    ensures
        p.read_shown(p.reader.seq, Ok(r), None).reader.result == Some(
            ReadModel::Returned {
                rows: seq![],
                raw: "0x"@ + hex_bytes(r.bytes@),
                verified: r.verified,
            },
        ),
        p.read_shown(p.reader.seq, Err(why), None).reader.result == Some(
            ReadModel::Failed(why@),
        ),
        !p.read_shown(p.reader.seq, Err(why), None).reader.busy,
{
}

// ── the network ─────────────────────────────────────────────────────

/// A custom network goes by the name it is configured with, and without one by its
/// number.
pub proof fn a_network_goes_by_its_name(p: Pane, id: u64, k: int)
    requires
        p.net == NetworkId::Custom(id),
    ensures
        0 <= k < p.ctx.custom_networks.len() && p.ctx.custom_networks[k].0 == id && (forall|j: int|
            0 <= j < k ==> (#[trigger] p.ctx.custom_networks[j]).0 != id) ==> p.net_name()
            == p.ctx.custom_networks[k].1,
        (forall|j: int|
            0 <= j < p.ctx.custom_networks.len() ==> (#[trigger] p.ctx.custom_networks[j]).0 != id)
            ==> p.net_name() == "Chain "@ + dec(id as nat),
{
    lemma_configured(p.ctx.custom_networks, id, k);
}

pub(crate) proof fn lemma_configured(nets: Seq<(u64, Seq<char>)>, id: u64, k: int)
    ensures
        0 <= k < nets.len() && nets[k].0 == id && (forall|j: int|
            0 <= j < k ==> (#[trigger] nets[j]).0 != id) ==> configured_name(nets, id) == Some(
            nets[k].1,
        ),
        (forall|j: int| 0 <= j < nets.len() ==> (#[trigger] nets[j]).0 != id) ==> configured_name(
            nets,
            id,
        ) is None,
    decreases nets.len(),
{
    if nets.len() > 0 {
        let rest = nets.drop_first();
        lemma_configured(rest, id, k - 1);
        assert(forall|j: int| 0 <= j < rest.len() ==> #[trigger] rest[j] == nets[j + 1]);
        if 0 <= k < nets.len() && nets[k].0 == id && (forall|j: int|
            0 <= j < k ==> (#[trigger] nets[j]).0 != id) {
            if k > 0 {
                assert(nets[0].0 != id);
                assert(rest[k - 1] == nets[k]);
            }
        }
        if forall|j: int| 0 <= j < nets.len() ==> (#[trigger] nets[j]).0 != id {
            assert(nets[0].0 != id);
        }
    }
}

/// A built-in network goes by the name of its chain.
pub proof fn a_built_in_network_goes_by_its_chain(p: Pane)
    ensures
        p.net == NetworkId::Builtin(Chain::Mainnet) ==> p.net_name() == "Ethereum Mainnet"@,
        p.net == NetworkId::Builtin(Chain::Base) ==> p.net_name() == "Base"@,
        p.net == NetworkId::Builtin(Chain::Optimism) ==> p.net_name() == "Optimism"@,
{
}

/// What was recovered fills in a contract whose ABI was declared: what was declared
/// keeps its place, its name and its source, and no caution about a proxy applies
/// to it.
pub proof fn recovered_code_fills_in_a_declared_contract(
    p: Pane,
    r: ResolvedCode,
    found: ContractModel,
    c: ContractModel,
)
    requires
        p.composer.resolve_target is Some,
        p.composer.loaded == Some(c),
        c.source != AbiSource::Bytecode,
    ensures
        ({
            let q = p.contract_resolved(p.composer.resolve_seq, Ok(r), Some(found));
            q.composer.loaded matches Some(d) && {
                &&& d.address == c.address && d.source == c.source && d.name == c.name && d.label
                    == c.label && d.proxy_impl == c.proxy_impl && d.kaomoji == c.kaomoji
                &&& d.methods.len() >= c.methods.len()
                &&& d.read_methods.len() >= c.read_methods.len()
                &&& forall|i: int|
                    0 <= i < c.methods.len() ==> #[trigger] d.methods[i] == c.methods[i]
                &&& forall|i: int|
                    0 <= i < c.read_methods.len() ==> #[trigger] d.read_methods[i]
                        == c.read_methods[i]
                &&& !q.composer.proxy_unverified && !q.composer.proxy_beacon
                &&& q.composer.nothing_deployed == r.nothing_deployed
            }
        }),
{
}

/// What was recovered replaces what an earlier resolve recovered.
pub proof fn recovered_code_replaces_recovered_code(
    p: Pane,
    r: ResolvedCode,
    found: ContractModel,
    c: ContractModel,
)
    requires
        p.composer.resolve_target is Some,
        p.composer.loaded == Some(c),
        c.source == AbiSource::Bytecode,
    ensures
        ({
            let q = p.contract_resolved(p.composer.resolve_seq, Ok(r), Some(found));
            q.composer.loaded matches Some(d) && Some(d.address) == p.composer.resolve_target
                && d.source == AbiSource::Bytecode && d.methods == found.methods && d.read_methods
                == found.read_methods && d.name == found.name
        }),
{
}

/// An answer that nobody waits for any more changes nothing but that nothing is
/// waited for.
pub proof fn an_answer_without_a_target_is_dropped(
    p: Pane,
    result: Result<ResolvedCode, String>,
    found: Option<ContractModel>,
)
    requires
        p.composer.resolve_target is None,
    ensures
        p.contract_resolved(p.composer.resolve_seq, result, found) == (Pane {
            composer: ComposerModel { resolving: false, ..p.composer },
            ..p
        }),
{
}

// ── the beginning ───────────────────────────────────────────────────

/// A new pane is empty: nothing queued, nothing composed, nothing asked for, on
/// Mainnet, in the form for methods, with the resets off.
pub proof fn a_new_pane_is_empty(owner: Address)
    ensures
        ({
            let p = Pane::fresh(owner);
            &&& p.owner == owner
            &&& p.ctx.identity is None && !p.ctx.is_safe && !p.ctx.eoa_can_batch && !p.ctx.can_sign
                && p.ctx.safe_version is None && p.ctx.custom_networks.len() == 0
            &&& p.net == NetworkId::Builtin(Chain::Mainnet) && !p.net_menu_open
            &&& p.mode is Write
            &&& starts_over(p.composer) && p.composer.addr_input.len() == 0
                && p.composer.abi_paste.len() == 0 && p.composer.resolve_target is None
                && !p.composer.not_found && p.composer.addr_error is None && p.composer.resolve_seq
                == 0
            &&& p.reader.idx == 0 && !p.reader.menu_open && p.reader.args.len() == 0
                && !p.reader.busy && p.reader.result is None && p.reader.seq == 0
            &&& p.raw.to.len() == 0 && p.raw.value == "0"@ && p.raw.data.len() == 0
                && !p.raw.nothing_deployed
            &&& p.queue.batch.len() == 0 && p.queue.next_id == 1 && p.queue.expanded is None
                && !p.queue.auto_revoke
            &&& p.sim.result is None && p.sim.at is None && !p.sim.busy && p.sim.seq == 0
            &&& p.shelf.templates.len() == 0 && !p.shelf.menu_open && p.shelf.rename_idx is None
                && p.shelf.rename_buf.len() == 0
            &&& p.json.modal == Modal::Closed && p.json.text.len() == 0 && p.json.error is None
            &&& p.settled is None && p.error is None && p.probe_seq == 0
        }),
{
}

/// The sample batch is made with USDC and with the lending pool of Aave.
pub proof fn the_sample_contracts()
    ensures
        sample_token().value() == 0xa0b8_6991_c621_8b36_c1d1_9d4a_2e9e_b0ce_3606_eb48nat,
        sample_pool().value() == 0x8787_0bca_3f3f_d633_5c3f_4ce8_392d_6935_0b4f_a4e2nat,
{
}

/// The data a query returned is read with the types of its declared outputs, in
/// their order; a query without outputs has nothing to read.
pub proof fn an_answer_is_read_as_declared(p: Pane, data: Seq<u8>, types: Seq<Seq<char>>)
    requires
        p.composer.loaded is Some,
        p.reader.idx < p.composer.loaded->0.read_methods.len(),
        types.len() == p.composer.loaded->0.read_methods[p.reader.idx as int].outputs.len(),
        forall|i: int|
            0 <= i < types.len() ==> #[trigger] types[i]
                == p.composer.loaded->0.read_methods[p.reader.idx as int].outputs[i].ty_str,
    ensures
        types.len() == 0 ==> p.returned_values(data) is None,
        types.len() > 0 ==> p.returned_values(data) == decoded_params(types, data),
{
    let m = p.composer.loaded->0.read_methods[p.reader.idx as int];
    assert(param_types(m.outputs) =~= types);
}

/// An answer is shown with the values that its own data holds, and a failure with
/// none.
pub proof fn an_answer_is_shown_with_its_own_values(p: Pane, seq: u64, r: ReadReply, why: String)
    ensures
        p.read_landed(seq, Ok(r)) == p.read_shown(seq, Ok(r), p.returned_values(r.bytes@)),
        p.read_landed(seq, Err(why)) == p.read_shown(seq, Err(why), None),
{
}

} // verus!

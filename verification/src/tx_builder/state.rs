//! Changing the pane: the resets every edit goes through, the coordinator's
//! refresh, and the answers to what the pane asked for.

use vstd::prelude::*;

use crate::chain::Chain;
use crate::chain::NetworkId;
use crate::primitives::hex_of_bytes;
use crate::primitives::parse_hex_address;
use crate::primitives::short_address;
use crate::primitives::spelled_address;
use crate::primitives::Address;
use crate::primitives::B256;
use crate::text::decimal_usize;
use crate::text::hex_bytes;
use crate::text::model_of;
use crate::text::models;
use crate::text::none_of;
use crate::text::plural_suffix;
use crate::text::trim;
use crate::text::trimmed;
use crate::text::Replica;
use crate::tx_builder::model::blanks;
use crate::tx_builder::model::identity_notice;
use crate::tx_builder::model::network_notice;
use crate::tx_builder::model::raw_hex;
use crate::tx_builder::model::read_rows;
use crate::tx_builder::model::ComposerModel;
use crate::tx_builder::model::CtxModel;
use crate::tx_builder::model::JsonModel;
use crate::tx_builder::model::Pane;
use crate::tx_builder::model::ReaderModel;
use crate::tx_builder::model::ShelfModel;
use crate::tx_builder::BatchFate;
use crate::tx_builder::Composer;
use crate::tx_builder::Ctx;
use crate::tx_builder::JsonBox;
use crate::tx_builder::Modal;
use crate::tx_builder::Mode;
use crate::tx_builder::Queue;
use crate::tx_builder::RawComposer;
use crate::tx_builder::ReadOutcome;
use crate::tx_builder::ReadReply;
use crate::tx_builder::ReadRow;
use crate::tx_builder::Reader;
use crate::tx_builder::ResolvedCode;
use crate::tx_builder::Settled;
use crate::tx_builder::SettledFor;
use crate::tx_builder::Shelf;
use crate::tx_builder::SimState;
use crate::tx_builder::TxBuilderApp;
use crate::tx_builder::reply::byte_lists;
use crate::txbuilder::merge_recovered;
use crate::txbuilder::AbiMethod;
use crate::txbuilder::AbiSource;
use crate::txbuilder::BatchSimResult;
use crate::txbuilder::LoadedContract;
use crate::txbuilder::Template;

verus! {

/// `n` empty arguments.
fn blank_args(n: usize) -> (r: Vec<String>)
    ensures
        models(r@) == blanks(n as nat),
{
    let mut out: Vec<String> = none_of();
    let mut i: usize = 0;
    while i < n
        invariant
            i <= n,
            out@.len() == i,
            forall|k: int| 0 <= k < i ==> (#[trigger] out@[k])@ == Seq::<char>::empty(),
        decreases n - i,
    {
        out.push(String::new());
        i = i + 1;
    }
    proof {
        assert(models(out@) =~= blanks(n as nat));
    }
    out
}

/// `0x` and the bytes in hexadecimal.
pub(crate) fn raw_text(bytes: &Vec<u8>) -> (r: String)
    ensures
        r@ == raw_hex(bytes@),
{
    if bytes.len() == 0 {
        proof {
            assert(hex_bytes(bytes@) =~= seq![]);
            assert("0x"@ + hex_bytes(bytes@) =~= "0x"@);
        }
        return "0x".to_owned();
    }
    let mut s: String = "0x".to_owned();
    s.append(hex_of_bytes(bytes).as_str());
    s
}

/// The rows of a query's return values against the method's declared outputs:
/// none when the method has no outputs or the data did not decode. An unnamed
/// output is called by its place.
pub fn decode_read_rows(m: &AbiMethod, values: &Option<Vec<String>>) -> (r: Vec<ReadRow>)
    ensures
        models(r@) == (match *values {
            Some(v) => read_rows(m@.outputs, models(v@)),
            None => seq![],
        }),
{
    let mut out: Vec<ReadRow> = none_of();
    match values {
        None => {
            proof {
                assert(models(out@) =~= seq![]);
            }
            out
        },
        Some(v) => {
            let ghost all = read_rows(m@.outputs, models(v@));
            let mut i: usize = 0;
            while i < m.outputs.len() && i < v.len()
                invariant
                    i <= m.outputs@.len(),
                    i <= v@.len(),
                    all == read_rows(m@.outputs, models(v@)),
                    out@.len() == i,
                    models(out@) =~= all.take(i as int),
                decreases v@.len() - i,
            {
                let name: String = if m.outputs[i].name.as_str().is_empty() {
                    let mut s: String = "out".to_owned();
                    s.append(decimal_usize(i).as_str());
                    s
                } else {
                    m.outputs[i].name.clone()
                };
                let row: ReadRow = ReadRow {
                    name,
                    ty: m.outputs[i].ty_str.clone(),
                    value: v[i].clone(),
                };
                out.push(row);
                proof {
                    assert(m@.outputs[i as int] == m.outputs@[i as int]@);
                    assert(models(v@)[i as int] == v@[i as int]@);
                    assert(all[i as int] == row@);
                }
                i = i + 1;
            }
            proof {
                assert(all.take(i as int) =~= all);
            }
            out
        },
    }
}

impl Composer {
    /// A composer nobody has touched.
    fn new() -> (r: Self)
        ensures
            r@ == ComposerModel::fresh(),
    {
        Composer {
            addr_input: String::new(),
            loaded: None,
            resolving: false,
            not_found: false,
            resolve_error: None,
            addr_error: None,
            proxy_unverified: false,
            nothing_deployed: false,
            proxy_beacon: false,
            paste_open: false,
            abi_paste: String::new(),
            resolve_target: None,
            resolve_seq: 0,
            method_idx: 0,
            method_menu_open: false,
            args: none_of(),
            value_input: "0".to_owned(),
        }
    }

    /// The method selected in the loaded contract.
    pub(crate) fn selected_method(&self) -> (r: Option<&AbiMethod>)
        ensures
            match r {
                Some(m) => self@.selected_method() == Some(m@),
                None => self@.selected_method() is None,
            },
    {
        match &self.loaded {
            Some(c) => if self.method_idx < c.methods.len() {
                Some(&c.methods[self.method_idx])
            } else {
                None
            },
            None => None,
        }
    }

    pub(crate) fn reset_args(&mut self)
        ensures
            final(self)@ == old(self)@.reset_args(),
    {
        let n: usize = match self.selected_method() {
            Some(m) => m.inputs.len(),
            None => 0,
        };
        self.args = blank_args(n);
        self.value_input = "0".to_owned();
    }

    /// Forgets the contract but keeps the address text. Whatever changes the
    /// address being resolved retires the resolve in flight, or its answer
    /// would land on the wrong one.
    fn reset_keep_addr(&mut self)
        requires
            old(self)@.resolve_seq < u64::MAX,
        ensures
            final(self)@ == old(self)@.reset_keep_addr(),
    {
        self.resolve_seq = self.resolve_seq + 1;
        self.loaded = None;
        self.resolving = false;
        self.not_found = false;
        self.resolve_error = None;
        self.addr_error = None;
        self.proxy_unverified = false;
        self.proxy_beacon = false;
        self.nothing_deployed = false;
        self.paste_open = false;
        self.resolve_target = None;
        self.method_idx = 0;
        self.method_menu_open = false;
        self.args = none_of();
        self.value_input = "0".to_owned();
    }

    /// Forgets the contract and the address text.
    fn reset(&mut self)
        requires
            old(self)@.resolve_seq < u64::MAX,
        ensures
            final(self)@ == old(self)@.reset(),
    {
        self.addr_input = String::new();
        self.reset_keep_addr();
    }

    /// Installs a contract, which retires a resolve in flight.
    fn install(&mut self, c: LoadedContract)
        requires
            old(self)@.resolve_seq < u64::MAX,
        ensures
            final(self)@ == old(self)@.install(c@),
    {
        let keeps: bool = c.source == AbiSource::Bytecode;
        self.resolve_seq = self.resolve_seq + 1;
        self.resolving = false;
        self.not_found = false;
        self.resolve_error = None;
        self.proxy_unverified = keeps && self.proxy_unverified;
        self.proxy_beacon = keeps && self.proxy_beacon;
        self.paste_open = false;
        self.resolve_target = Some(c.address);
        self.method_idx = 0;
        self.method_menu_open = false;
        self.loaded = Some(c);
        self.reset_args();
    }
}

impl Reader {
    /// A reader nobody has touched.
    fn new() -> (r: Self)
        ensures
            r@ == ReaderModel::fresh(),
    {
        Reader {
            idx: 0,
            menu_open: false,
            args: none_of(),
            seq: 0,
            busy: false,
            result: None,
        }
    }

    /// Retires a query in flight, and the result on screen.
    pub(crate) fn invalidate(&mut self)
        requires
            old(self)@.seq < u64::MAX,
        ensures
            final(self)@ == old(self)@.invalidate(),
    {
        self.seq = self.seq + 1;
        self.busy = false;
        self.result = None;
    }

    /// As [`Self::invalidate`], and the selection and the arguments go too.
    fn reset(&mut self)
        requires
            old(self)@.seq < u64::MAX,
        ensures
            final(self)@ == old(self)@.reset(),
    {
        self.idx = 0;
        self.menu_open = false;
        self.args = none_of();
        self.invalidate();
    }

    /// The query selected in a contract.
    pub(crate) fn selected<'a>(&self, loaded: &'a Option<LoadedContract>) -> (r: Option<
        &'a AbiMethod,
    >)
        ensures
            match r {
                Some(m) => self@.selected(model_of(*loaded)) == Some(m@),
                None => self@.selected(model_of(*loaded)) is None,
            },
    {
        match loaded {
            Some(c) => if self.idx < c.read_methods.len() {
                Some(&c.read_methods[self.idx])
            } else {
                None
            },
            None => None,
        }
    }

    pub(crate) fn reset_args(&mut self, loaded: &Option<LoadedContract>)
        ensures
            final(self)@ == old(self)@.reset_args(model_of(*loaded)),
    {
        let n: usize = match self.selected(loaded) {
            Some(m) => m.inputs.len(),
            None => 0,
        };
        self.args = blank_args(n);
    }
}

impl SimState {
    /// Retires a simulation in flight, and the verdict on screen.
    pub(crate) fn invalidate(&mut self)
        requires
            old(self)@.seq < u64::MAX,
        ensures
            final(self)@ == old(self)@.invalidate(),
    {
        self.result = None;
        self.at = None;
        self.busy = false;
        self.seq = self.seq + 1;
    }
}

impl Shelf {
    pub(crate) fn cancel_rename(&mut self)
        ensures
            final(self)@ == old(self)@.cancel_rename(),
    {
        self.rename_idx = None;
        self.rename_buf = String::new();
    }
}

impl JsonBox {
    /// A closed overlay with nothing in it.
    pub(crate) fn closed() -> (r: Self)
        ensures
            r@ == JsonModel::closed(),
    {
        JsonBox { modal: Modal::Closed, text: String::new(), error: None }
    }
}

/// The notice that a network change dropped the queue.
fn network_notice_text(dropped: usize, from: NetworkId, to: NetworkId) -> (r: String)
    ensures
        r@ == network_notice(dropped as nat, from, to),
{
    let mut s: String = "Batch cleared — ".to_owned();
    s.append(decimal_usize(dropped).as_str());
    s.append(" call");
    s.append(plural_suffix(dropped as u64));
    s.append(" composed for ");
    s.append(from.display_name().as_str());
    s.append(" can't be replayed on ");
    s.append(to.display_name().as_str());
    s.append(".");
    s
}

/// The notice that a change of the acting account dropped the queue.
fn identity_notice_text(dropped: usize, from: Address, to: Address) -> (r: String)
    ensures
        r@ == identity_notice(dropped as nat, from, to),
{
    let mut s: String = "Batch cleared — ".to_owned();
    s.append(decimal_usize(dropped).as_str());
    s.append(" call");
    s.append(plural_suffix(dropped as u64));
    s.append(" composed for ");
    s.append(short_address(from).as_str());
    s.append(" can't be reused as ");
    s.append(short_address(to).as_str());
    s.append(": they'd run against a different account's balances and approvals.");
    s
}

impl TxBuilderApp {
    /// A pane nobody has touched.
    pub fn new(owner: Address) -> (r: Self)
        ensures
            r@ == Pane::fresh(owner),
    {
        TxBuilderApp {
            owner,
            ctx: Ctx {
                identity: None,
                is_safe: false,
                safe_version: None,
                eoa_can_batch: false,
                can_sign: false,
                custom_networks: none_of(),
            },
            net: NetworkId::Builtin(Chain::Mainnet),
            net_menu_open: false,
            mode: Mode::Write,
            composer: Composer::new(),
            reader: Reader::new(),
            raw: RawComposer {
                to: String::new(),
                value: "0".to_owned(),
                data: String::new(),
                nothing_deployed: false,
            },
            probe_seq: 0,
            queue: Queue { batch: none_of(), next_id: 1, expanded: None, auto_revoke: false },
            sim: SimState { result: None, at: None, busy: false, seq: 0 },
            shelf: Shelf {
                templates: none_of(),
                menu_open: false,
                rename_idx: None,
                rename_buf: String::new(),
            },
            json: JsonBox::closed(),
            settled: None,
            error: None,
        }
    }

    /// Adopts the stored templates.
    pub fn set_templates(&mut self, templates: Vec<Template>)
        ensures
            final(self)@ == (Pane {
                shelf: (ShelfModel { templates: models(templates@), ..old(self)@.shelf }),
                ..old(self)@
            }),
    {
        self.shelf.templates = templates;
    }

    /// Puts a failure on the error banner.
    pub fn set_error(&mut self, msg: String)
        ensures
            final(self)@ == (Pane { error: Some(msg@), ..old(self)@ }),
    {
        self.error = Some(msg);
    }

    /// Retires a simulation in flight, and the verdict on screen.
    pub(crate) fn invalidate_sim(&mut self)
        requires
            old(self)@.sim.seq < u64::MAX,
        ensures
            final(self)@ == old(self)@.invalidate_sim(),
    {
        self.sim.invalidate();
    }

    /// Forgets the contract but keeps the address text.
    pub(crate) fn reset_composer_keep_addr(&mut self)
        requires
            old(self)@.composer.resolve_seq < u64::MAX,
            old(self)@.reader.seq < u64::MAX,
        ensures
            final(self)@ == old(self)@.reset_composer_keep_addr(),
    {
        self.composer.reset_keep_addr();
        self.reader.reset();
    }

    /// Forgets the contract and the address text.
    pub(crate) fn reset_composer(&mut self)
        requires
            old(self)@.composer.resolve_seq < u64::MAX,
            old(self)@.reader.seq < u64::MAX,
        ensures
            final(self)@ == old(self)@.reset_composer(),
    {
        self.composer.reset();
        self.reader.reset();
    }

    /// Installs a contract.
    pub(crate) fn set_loaded(&mut self, loaded: LoadedContract)
        requires
            old(self)@.composer.resolve_seq < u64::MAX,
            old(self)@.reader.seq < u64::MAX,
        ensures
            final(self)@ == old(self)@.set_loaded(loaded@),
    {
        self.reader.reset();
        self.composer.install(loaded);
        self.reader.reset_args(&self.composer.loaded);
    }

    /// Drops the queue and everything that belongs to it. The notice is shown
    /// only if there was anything to drop; returns whether it was.
    fn drop_queue(&mut self, notice: String) -> (r: bool)
        requires
            old(self)@.composer.resolve_seq < u64::MAX,
            old(self)@.reader.seq < u64::MAX,
            old(self)@.sim.seq < u64::MAX,
        ensures
            final(self)@ == old(self)@.dropping_queue(notice@),
            r == (old(self)@.queue.batch.len() > 0),
    {
        let any: bool = self.queue.batch.len() > 0;
        self.net_menu_open = false;
        self.reset_composer();
        self.sim.invalidate();
        self.queue.batch = none_of();
        self.queue.expanded = None;
        self.error = if any {
            Some(notice)
        } else {
            None
        };
        any
    }

    /// The network changed: contracts, results and verdicts belong to the old
    /// one, and so does the queue. Dropping calls is never silent.
    pub(crate) fn on_network_reset(&mut self, from: NetworkId)
        requires
            old(self)@.composer.resolve_seq < u64::MAX,
            old(self)@.reader.seq < u64::MAX,
            old(self)@.sim.seq < u64::MAX,
        ensures
            final(self)@ == old(self)@.network_reset(from),
    {
        let notice: String = network_notice_text(self.queue.batch.len(), from, self.net);
        let _ = self.drop_queue(notice);
    }

    /// The acting account changed: the queue was composed for another sender.
    /// Returns whether it put a notice on screen.
    fn on_identity_reset(&mut self, from: Address, to: Address) -> (r: bool)
        requires
            old(self)@.composer.resolve_seq < u64::MAX,
            old(self)@.reader.seq < u64::MAX,
            old(self)@.sim.seq < u64::MAX,
        ensures
            final(self)@ == old(self)@.identity_reset(from, to),
            r == (old(self)@.queue.batch.len() > 0),
    {
        let notice: String = identity_notice_text(self.queue.batch.len(), from, to);
        let any: bool = self.drop_queue(notice);
        self.shelf.cancel_rename();
        self.shelf.menu_open = false;
        any
    }

    /// The network moved underneath the composer. `already_explained`: an
    /// identity reset has just put a more specific notice on screen.
    fn repin_network(&mut self, from: NetworkId, already_explained: bool)
        requires
            old(self)@.composer.resolve_seq < u64::MAX,
            old(self)@.reader.seq < u64::MAX,
            old(self)@.sim.seq < u64::MAX,
        ensures
            final(self)@ == old(self)@.repin(from, already_explained),
    {
        if already_explained {
            self.net_menu_open = false;
            self.reset_composer();
            self.sim.invalidate();
        } else {
            self.on_network_reset(from);
        }
    }

    /// Moves the selector to `net`, if it is not there.
    fn pin_to(&mut self, net: NetworkId, already_explained: bool)
        requires
            old(self)@.composer.resolve_seq < u64::MAX,
            old(self)@.reader.seq < u64::MAX,
            old(self)@.sim.seq < u64::MAX,
        ensures
            final(self)@ == old(self)@.pinned_to(net, already_explained),
    {
        if self.net != net {
            let from: NetworkId = self.net;
            self.net = net;
            self.repin_network(from, already_explained);
        }
    }

    /// Drops the queue if the acting account changed. Returns whether a notice
    /// says so.
    fn act_as(&mut self, prev: Option<Address>, to: Address) -> (r: bool)
        requires
            old(self)@.room(),
        ensures
            final(self)@ == old(self)@.acting_as(prev, to),
            r == (prev is Some && prev->0 != to && old(self)@.queue.batch.len() > 0),
    {
        match prev {
            Some(from) => if from != to {
                self.on_identity_reset(from, to)
            } else {
                false
            },
            None => false,
        }
    }

    /// Keeps the network selector where the account allows it to be.
    fn follow_network(&mut self, chain: Chain, explained: bool)
        requires
            old(self)@.composer.resolve_seq < u64::MAX,
            old(self)@.reader.seq < u64::MAX,
            old(self)@.sim.seq < u64::MAX,
        ensures
            final(self)@ == old(self)@.following(chain, explained),
    {
        if self.ctx.is_safe {
            self.pin_to(NetworkId::Builtin(chain), explained);
            return;
        }
        if let NetworkId::Custom(id) = self.net {
            if !self.knows_network(id) {
                self.pin_to(NetworkId::Builtin(Chain::Mainnet), explained);
            }
        }
    }

    /// Refreshes who is acting and on what. A change of the acting account
    /// drops the queue; a Safe pins the network to its own chain, and a removed
    /// custom network falls back to Mainnet.
    pub fn set_context(
        &mut self,
        identity: Address,
        chain: Chain,
        is_safe: bool,
        safe_version: Option<String>,
        eoa_can_batch: bool,
        can_sign: bool,
        custom_networks: Vec<(u64, String)>,
    )
        requires
            old(self)@.room(),
        ensures
            final(self)@ == old(self)@.set_context(
                (CtxModel {
                    identity: Some(identity),
                    is_safe,
                    safe_version: model_of(safe_version),
                    eoa_can_batch,
                    can_sign,
                    custom_networks: models(custom_networks@),
                }),
                chain,
            ),
    {
        let prev: Option<Address> = self.ctx.identity;
        self.ctx = Ctx {
            identity: Some(identity),
            is_safe,
            safe_version,
            eoa_can_batch,
            can_sign,
            custom_networks,
        };
        self.owner = identity;
        let explained: bool = self.act_as(prev, identity);
        self.follow_network(chain, explained);
    }

    /// Joins a recovered contract with what is on screen.
    fn adopt_recovered(&mut self, found: Option<LoadedContract>)
        requires
            old(self)@.composer.resolve_seq < u64::MAX,
            old(self)@.reader.seq < u64::MAX,
        ensures
            final(self)@ == old(self)@.recovered(model_of(found)),
    {
        match found {
            Some(f) => {
                let whole: LoadedContract = match &self.composer.loaded {
                    Some(declared) => if declared.source != AbiSource::Bytecode {
                        merge_recovered(declared.replica(), f)
                    } else {
                        f
                    },
                    None => f,
                };
                self.set_loaded(whole);
            },
            None => {
                self.composer.not_found = self.composer.not_found || self.composer.loaded.is_none();
            },
        }
    }

    /// The code of the target came back, and `found` was recovered from it.
    fn take_code(&mut self, target: Address, r: ResolvedCode, found: Option<LoadedContract>)
        requires
            old(self)@.composer.resolve_target == Some(target),
            old(self)@.composer.resolve_seq < u64::MAX,
            old(self)@.reader.seq < u64::MAX,
        ensures
            final(self)@ == old(self)@.code_taken(r, model_of(found)),
    {
        let placed: Option<LoadedContract> = match found {
            Some(f) => Some(f.recovered_at(target, r.implementation)),
            None => None,
        };
        self.composer.resolving = false;
        self.composer.proxy_unverified = !r.all_verified;
        self.composer.proxy_beacon = r.beacon;
        self.adopt_recovered(placed);
        self.composer.nothing_deployed = r.nothing_deployed;
    }

    /// The runtime code of a contract came back, or the fetch failed. A failed
    /// fetch is not a missing ABI, and a declared contract already on screen
    /// keeps its own methods. `found` is what [`Self::recovery_question`] was
    /// answered; whatever it holds, calls still go to the address asked about.
    pub fn on_contract_resolved(
        &mut self,
        seq: u64,
        result: Result<ResolvedCode, String>,
        found: Option<LoadedContract>,
    )
        requires
            old(self)@.room(),
        ensures
            final(self)@ == old(self)@.contract_resolved(seq, result, model_of(found)),
            old(self)@.on_target() ==> final(self)@.on_target()
                && final(self)@.composer.resolve_target == old(self)@.composer.resolve_target,
    {
        if seq != self.composer.resolve_seq {
            return;
        }
        match (self.composer.resolve_target, result) {
            (Some(target), Ok(r)) => self.take_code(target, r, found),
            (Some(_), Err(e)) => {
                self.composer.resolving = false;
                self.composer.resolve_error = Some(e);
            },
            (None, _) => {
                self.composer.resolving = false;
            },
        }
    }

    /// The address the raw composer's target spells, checksum aside.
    fn raw_target(&self) -> (r: Option<Address>)
        ensures
            r == spelled_address(trimmed(self@.raw.to)),
    {
        parse_hex_address(trim(self.raw.to.as_str()).as_str())
    }

    /// Whether anything is deployed at `address`. The answer lands on
    /// whichever field still holds that address; a failed probe says nothing.
    pub fn on_code_probed(&mut self, seq: u64, address: Address, result: Result<bool, String>)
        ensures
            final(self)@ == old(self)@.code_probed(seq, address, result),
    {
        if seq != self.probe_seq {
            return;
        }
        if let Ok(has_code) = result {
            if let Some(raw) = self.raw_target() {
                if raw == address {
                    self.raw.nothing_deployed = !has_code;
                }
            }
            if let Some(target) = self.composer.resolve_target {
                if target == address {
                    self.composer.nothing_deployed = !has_code;
                }
            }
        }
    }

    /// A simulation came back, or failed. `now` is the time it landed.
    pub fn on_sim(&mut self, seq: u64, result: Result<BatchSimResult, String>, now: u64)
        ensures
            final(self)@ == old(self)@.sim_landed(seq, result, now),
    {
        if seq != self.sim.seq {
            return;
        }
        self.sim.busy = false;
        self.sim.result = Some(
            match result {
                Ok(r) => r,
                Err(e) => BatchSimResult::errored(e),
            },
        );
        self.sim.at = Some(now);
    }

    /// How a query's reply is shown.
    fn read_outcome(
        &self,
        result: Result<ReadReply, String>,
        decoded: &Option<Vec<Vec<u8>>>,
    ) -> (r: ReadOutcome)
        ensures
            r@ == self@.read_outcome(result, byte_lists(*decoded)),
    {
        match result {
            Ok(reply) => {
                let complete: bool = match (decoded, &reply.values) {
                    (Some(d), Some(values)) => d.len() == values.len(),
                    _ => false,
                };
                let rows: Vec<ReadRow> = match self.selected_read_method() {
                    Some(m) => if complete {
                        decode_read_rows(m, &reply.values)
                    } else {
                        none_of()
                    },
                    None => none_of(),
                };
                ReadOutcome::Returned {
                    rows,
                    raw: raw_text(&reply.bytes),
                    verified: reply.verified,
                }
            },
            Err(e) => ReadOutcome::Failed(e),
        }
    }

    /// A query came back, or failed. The data is taken apart against the
    /// selected method; what does not decode shows no values.
    pub fn on_read(&mut self, seq: u64, result: Result<ReadReply, String>)
        ensures
            final(self)@ == old(self)@.read_landed(seq, result),
    {
        let decoded: Option<Vec<Vec<u8>>> = match &result {
            Ok(r) => self.returned_values(&r.bytes),
            Err(_) => None,
        };
        self.show_read(seq, result, &decoded);
    }

    /// A query came back, or failed, and its data decodes to these values.
    pub fn show_read(
        &mut self,
        seq: u64,
        result: Result<ReadReply, String>,
        decoded: &Option<Vec<Vec<u8>>>,
    )
        ensures
            final(self)@ == old(self)@.read_shown(seq, result, byte_lists(*decoded)),
    {
        if seq != self.reader.seq {
            return;
        }
        let outcome: ReadOutcome = self.read_outcome(result, decoded);
        self.reader.busy = false;
        self.reader.result = Some(outcome);
    }

    /// Binds an outcome to the account and network it happened on.
    fn stamp(&self, outcome: Settled) -> (r: SettledFor)
        ensures
            Some(r) == self@.stamped(outcome),
    {
        SettledFor { outcome, identity: self.owner, net: self.net }
    }

    /// The batch is done with.
    fn finish(&mut self, outcome: Settled)
        requires
            old(self)@.sim.seq < u64::MAX,
        ensures
            final(self)@ == old(self)@.finished(outcome),
    {
        self.queue.batch = none_of();
        self.queue.expanded = None;
        self.sim.invalidate();
        self.error = None;
        self.settled = Some(self.stamp(outcome));
    }

    /// The batch was mined and succeeded.
    pub fn on_executed(&mut self, hash: B256)
        requires
            old(self)@.room(),
        ensures
            final(self)@ == old(self)@.finished(Settled::Executed { hash }),
    {
        self.finish(Settled::Executed { hash });
    }

    /// The batch was filed for co-signers.
    pub fn on_proposed(&mut self, nonce: u64)
        requires
            old(self)@.room(),
        ensures
            final(self)@ == old(self)@.finished(Settled::Proposed { nonce }),
    {
        self.finish(Settled::Proposed { nonce });
    }

    /// The batch was broadcast and did not succeed. The hash is kept and so is
    /// the queue: a reverted batch is one to fix, and an unconfirmed one must
    /// not be rebuilt blind.
    pub fn on_broadcast_unsuccessful(&mut self, hash: B256, fate: &BatchFate)
        ensures
            final(self)@ == old(self)@.broadcast_unsuccessful(hash, *fate),
    {
        let settled: Settled = match fate {
            BatchFate::Reverted => Settled::Reverted { hash },
            _ => Settled::Unconfirmed { hash },
        };
        self.settled = Some(self.stamp(settled));
    }
}

} // verus!

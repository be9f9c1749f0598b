//! Delivering messages to the pane.

use vstd::prelude::*;

use crate::chain::NetworkId;
use crate::primitives::hex_of_hash;
use crate::primitives::short_address;
use crate::primitives::Address;
use crate::text::decimal_usize;
use crate::text::lemma_next;
use crate::text::model_of;
use crate::text::models;
use crate::text::none_of;
use crate::text::plural_suffix;
use crate::text::replicate;
use crate::text::trim;
use crate::text::trimmed;
use crate::text::Replica;
use crate::tx_builder::model::drift_notice;
use crate::tx_builder::model::export_refusal;
use crate::tx_builder::model::full_refusal;
use crate::tx_builder::model::paste_refusal;
use crate::tx_builder::model::position_of;
use crate::tx_builder::model::replaced_notice;
use crate::tx_builder::model::sample_calls;
use crate::tx_builder::model::swapped;
use crate::tx_builder::model::template_refusal;
use crate::tx_builder::model::without_id;
use crate::tx_builder::Effect;
use crate::tx_builder::Findings;
use crate::tx_builder::FlashWrap;
use crate::tx_builder::JsonBox;
use crate::tx_builder::Message;
use crate::tx_builder::Modal;
use crate::tx_builder::Mode;
use crate::tx_builder::Outcome;
use crate::tx_builder::Preflight;
use crate::tx_builder::ReadOutcome;
use crate::tx_builder::SampleParts;
use crate::tx_builder::TxBuilderApp;
use crate::tx_builder::VersionGate;
use crate::tx_builder::ADDRESS_TEXT_LEN;
use crate::tx_builder::question::find_method;
use crate::tx_builder::trace::bool_word;
use crate::txbuilder::AbiSource;
use crate::txbuilder::BatchSimResult;
use crate::txbuilder::CallModel;
use crate::txbuilder::LoadedContract;
use crate::txbuilder::QueuedCall;
use crate::txbuilder::Template;
use crate::txbuilder::MAX_BATCH_CALLS;
use crate::txbuilder::MAX_BUNDLE_BYTES;

verus! {

/// A demo batch: an approval and a deposit. Each call that was built takes the
/// next id.
pub fn sample_batch(next_id: &mut u64, parts: SampleParts) -> (r: Vec<QueuedCall>)
    requires
        *old(next_id) <= u64::MAX - 2,
    ensures
        models(r@) == sample_calls(parts),
        *final(next_id) == *old(next_id) + sample_calls(parts).len(),
{
    let mut out: Vec<QueuedCall> = none_of();
    match (parts.usdc, parts.aave) {
        (Some(usdc), Some(aave)) => {
            if find_method(&usdc.methods, "approve").is_some() && find_method(
                &aave.methods,
                "supply",
            ).is_some() {
                if let Ok(c) = parts.approve {
                    *next_id = *next_id + 1;
                    out.push(c);
                }
                if let Ok(c) = parts.supply {
                    *next_id = *next_id + 1;
                    out.push(c);
                }
                proof {
                    assert(models(out@) =~= sample_calls(parts));
                }
            }
        },
        _ => {},
    }
    out
}

/// Where the call with this id stands.
fn position(batch: &Vec<QueuedCall>, id: u64) -> (r: usize)
    ensures
        r == position_of(models(batch@), id),
        r <= batch@.len(),
{
    let mut i: usize = 0;
    proof {
        assert(models(batch@).skip(0) =~= models(batch@));
    }
    while i < batch.len()
        invariant
            i <= batch@.len(),
            position_of(models(batch@), id) == i + position_of(models(batch@).skip(i as int), id),
        decreases batch@.len() - i,
    {
        let ghost rest = models(batch@).skip(i as int);
        proof {
            assert(rest[0] == models(batch@)[i as int]);
            assert(rest.drop_first() =~= models(batch@).skip(i + 1));
        }
        if batch[i].id == id {
            return i;
        }
        i = i + 1;
    }
    proof {
        assert(models(batch@).skip(i as int).len() == 0);
    }
    i
}

/// Exchanges a call with the one after it.
fn swap_with_next(batch: &mut Vec<QueuedCall>, k: usize)
    requires
        k + 1 < old(batch)@.len(),
    ensures
        models(final(batch)@) == swapped(models(old(batch)@), k as int, k + 1),
        models(final(batch)@) == swapped(models(old(batch)@), k + 1, k as int),
{
    let ghost before = batch@;
    let next: usize = batch.len() - 1;
    let c: QueuedCall = batch.remove(k);
    proof {
        assert(k + 1 <= next);
    }
    batch.insert(k + 1, c);
    proof {
        assert(models(batch@) =~= swapped(models(before), k as int, k + 1));
        assert(models(batch@) =~= swapped(models(before), k + 1, k as int));
    }
}

/// The calls without the one of this id.
fn without(batch: &Vec<QueuedCall>, id: u64) -> (r: Vec<QueuedCall>)
    ensures
        models(r@) == without_id(models(batch@), id),
{
    let ghost keep = |c: CallModel| c.id != id;
    let mut out: Vec<QueuedCall> = none_of();
    let mut i: usize = 0;
    proof {
        reveal(Seq::filter);
        assert(models(batch@).take(0) =~= seq![]);
    }
    while i < batch.len()
        invariant
            i <= batch@.len(),
            keep == (|c: CallModel| c.id != id),
            models(out@) == models(batch@).take(i as int).filter(keep),
        decreases batch@.len() - i,
    {
        let ghost before = out@;
        proof {
            reveal(Seq::filter);
            lemma_next(models(batch@), i as int);
        }
        if batch[i].id != id {
            out.push(batch[i].replica());
            proof {
                assert(models(out@) =~= models(before).push(batch@[i as int]@));
            }
        }
        i = i + 1;
    }
    proof {
        assert(models(batch@).take(i as int) =~= models(batch@));
    }
    out
}

/// The notice that a loaded batch was composed as somebody else.
fn drift_text(what: &str, from: Address, owner: Address) -> (r: String)
    ensures
        r@ == drift_notice(what@, from, owner),
{
    let mut s: String = what.to_owned();
    s.append(" was composed as ");
    s.append(short_address(from).as_str());
    s.append(", and you're composing as ");
    s.append(short_address(owner).as_str());
    s.append(
        ". The calls still point where they did — check any allowance, balance or position they assume belongs to the other account.",
    );
    s
}

/// The notice that a queue was replaced.
fn replaced_text(n: usize) -> (r: String)
    ensures
        r@ == replaced_notice(n as nat),
{
    let mut s: String = "Replaced the ".to_owned();
    s.append(decimal_usize(n).as_str());
    s.append(" call");
    s.append(plural_suffix(n as u64));
    s.append(" you had queued.");
    s
}

/// Why a template cannot be loaded on a custom network.
fn template_refusal_text(name: &str, net: NetworkId) -> (r: String)
    ensures
        r@ == template_refusal(name@, net),
{
    let mut s: String = "\"".to_owned();
    s.append(name);
    s.append("\" was composed on a built-in chain and can't be loaded on ");
    s.append(net.display_name().as_str());
    s.append(" — contract addresses don't carry across networks.");
    s
}

/// Why a custom network's batch cannot be exported.
fn export_refusal_text(net: NetworkId) -> (r: String)
    ensures
        r@ == export_refusal(net),
{
    let mut s: String = "A batch composed on ".to_owned();
    s.append(net.display_name().as_str());
    s.append(
        " can't be exported — the bundle format identifies its network by chain id, and this one isn't a network Kao verifies.",
    );
    s
}

/// Why a paste is refused.
fn paste_refusal_text(bytes: usize) -> (r: String)
    ensures
        r@ == paste_refusal(bytes as nat),
{
    let mut s: String = "that paste is ".to_owned();
    s.append(decimal_usize(bytes).as_str());
    s.append(" bytes, and this wallet reads batches up to ");
    s.append(decimal_usize(MAX_BUNDLE_BYTES).as_str());
    s.append(" — it hasn't been put in the box");
    s
}

/// Why no further call can be queued.
fn full_refusal_text() -> (r: String)
    ensures
        r@ == full_refusal(),
{
    let mut s: String = "This batch already has ".to_owned();
    s.append(decimal_usize(MAX_BATCH_CALLS).as_str());
    s.append(
        " calls — as many as one transaction carries and still gets read before it is signed. Send this batch, then start the next one.",
    );
    s
}

impl TxBuilderApp {
    /// Asks whether anything is deployed at `address`.
    fn probe_code(&mut self, address: Address) -> (r: Option<Outcome>)
        requires
            old(self)@.probe_seq < u64::MAX,
        ensures
            (final(self)@, model_of(r)) == old(self)@.probe_code(address),
    {
        self.probe_seq = self.probe_seq + 1;
        Some(Outcome::ProbeCode { seq: self.probe_seq, net: self.net, address })
    }

    /// Starts the composer over at `addr`. A curated contract shows at once,
    /// and the fetch goes out all the same; a custom network has neither, so
    /// only whether anything is deployed there is asked.
    fn aim_at(&mut self, addr: Address, known: Option<LoadedContract>) -> (r: Option<Outcome>)
        requires
            old(self)@.room(),
        ensures
            (final(self)@, model_of(r)) == old(self)@.aimed_at(addr, model_of(known)),
    {
        self.reset_composer_keep_addr();
        self.composer.resolve_target = Some(addr);
        match self.net.builtin() {
            Some(chain) => {
                if let Some(c) = known {
                    self.set_loaded(c.placed(addr, AbiSource::Known));
                }
                self.composer.resolving = self.composer.loaded.is_none();
                Some(
                    Outcome::ResolveContract {
                        seq: self.composer.resolve_seq,
                        chain,
                        address: addr,
                    },
                )
            },
            None => {
                self.composer.not_found = true;
                self.probe_code(addr)
            },
        }
    }

    /// The address text changed. Re-entering an address that is loaded, being
    /// resolved or known to have no ABI does nothing; one whose resolve failed
    /// is tried again. A text that spells no address is contradicted once it is
    /// long enough to be one.
    fn on_addr_changed(
        &mut self,
        v: String,
        address: Result<Address, String>,
        known: Option<LoadedContract>,
    ) -> (r: Option<Outcome>)
        requires
            old(self)@.room(),
        ensures
            (final(self)@, model_of(r)) == old(self)@.addr_changed(
                v@,
                vstd::utf8::encode_utf8(trimmed(v@)).len() as usize >= ADDRESS_TEXT_LEN,
                address,
                model_of(known),
            ),
    {
        let looks_complete: bool = trim(v.as_str()).as_str().len() >= ADDRESS_TEXT_LEN;
        self.composer.addr_input = v;
        self.error = None;
        match address {
            Ok(addr) => {
                let same: bool = match self.composer.resolve_target {
                    Some(t) => t == addr,
                    None => false,
                };
                if same && (self.composer.loaded.is_some() || self.composer.resolving
                    || self.composer.not_found) {
                    self.composer.addr_error = None;
                    return None;
                }
                self.aim_at(addr, known)
            },
            Err(reason) => {
                self.reset_composer_keep_addr();
                self.composer.addr_error = if looks_complete {
                    Some(reason)
                } else {
                    None
                };
                None
            },
        }
    }

    /// Asks again for the address already in the box.
    fn retry_resolve(&mut self) -> (r: Option<Outcome>)
        requires
            old(self)@.room(),
        ensures
            (final(self)@, model_of(r)) == old(self)@.retry_resolve(),
    {
        match (self.composer.resolve_target, self.net.builtin()) {
            (Some(address), Some(chain)) => {
                self.composer.resolve_error = None;
                self.composer.not_found = false;
                self.composer.resolving = true;
                self.composer.resolve_seq = self.composer.resolve_seq + 1;
                Some(
                    Outcome::ResolveContract { seq: self.composer.resolve_seq, chain, address },
                )
            },
            _ => None,
        }
    }

    /// Puts a message on the error banner.
    fn fail(&mut self, error: String) -> (r: Option<Outcome>)
        ensures
            (final(self)@, model_of(r)) == old(self)@.fail(error@),
    {
        self.error = Some(error);
        None
    }

    fn load_pasted(
        &mut self,
        address: Result<Address, String>,
        pasted: Result<LoadedContract, String>,
    ) -> (r: Option<Outcome>)
        requires
            old(self)@.room(),
        ensures
            (final(self)@, model_of(r)) == old(self)@.load_pasted(address, pasted),
    {
        match address {
            Ok(addr) => match pasted {
                Ok(c) => {
                    self.set_loaded(c.placed(addr, AbiSource::Pasted));
                    self.composer.abi_paste = String::new();
                    None
                },
                Err(e) => self.fail(e),
            },
            Err(_) => self.fail("enter the contract address first".to_owned()),
        }
    }

    /// Runs the composed query on the active network.
    fn on_query(&mut self, args_valid: bool, data: Result<Vec<u8>, String>) -> (r: Option<Outcome>)
        requires
            old(self)@.room(),
        ensures
            (final(self)@, model_of(r)) == old(self)@.query(args_valid, data),
    {
        if !self.read_valid(args_valid) {
            return None;
        }
        let to: Address = match &self.composer.loaded {
            Some(c) => c.address,
            None => {
                return None;
            },
        };
        match data {
            Ok(d) => {
                self.reader.invalidate();
                self.reader.busy = true;
                Some(Outcome::Read { seq: self.reader.seq, net: self.net, to, data: d })
            },
            Err(e) => self.fail(e),
        }
    }

    /// A call joins the queue, and the composer is ready for the next one.
    fn enqueue(&mut self, call: QueuedCall)
        requires
            old(self)@.room(),
        ensures
            final(self)@ == old(self)@.queued(call@),
    {
        let ghost before = self.queue.batch@;
        self.queue.next_id = self.queue.next_id + 1;
        self.queue.batch.push(call);
        proof {
            assert(models(self.queue.batch@) =~= models(before).push(call@));
        }
        self.sim.invalidate();
        self.error = None;
        match self.mode {
            Mode::Write => self.composer.reset_args(),
            Mode::Raw => {
                self.raw.data = String::new();
            },
            Mode::Read => {},
        }
    }

    /// Queues the composed call. An account that cannot batch keeps to one
    /// call, and no queue grows past what one transaction carries.
    fn add_to_batch(
        &mut self,
        address: Result<Address, String>,
        call: Result<QueuedCall, String>,
    ) -> (r: Option<Outcome>)
        requires
            old(self)@.room(),
        ensures
            (final(self)@, model_of(r)) == old(self)@.add_to_batch(address, call),
    {
        if !self.can_batch() && self.queue.batch.len() > 0 {
            return self.fail(
                "This account sends one call at a time — atomic batching needs a software key or a Ledger (EIP-7702), or a Safe.".to_owned(),
            );
        }
        if self.queue.batch.len() >= MAX_BATCH_CALLS {
            return self.fail(full_refusal_text());
        }
        match self.compose_call(address, call) {
            Ok(c) => {
                self.enqueue(c);
                None
            },
            Err(e) => self.fail(e),
        }
    }

    /// Sends the composed call on its own, straight to the review.
    fn send_single(
        &mut self,
        address: Result<Address, String>,
        call: Result<QueuedCall, String>,
        gate: &VersionGate,
    ) -> (r: Option<Outcome>)
        ensures
            (final(self)@, model_of(r)) == old(self)@.send_single(address, call, *gate),
    {
        if let Some(why) = self.no_signer_reason(gate) {
            return self.fail(why);
        }
        match self.compose_call(address, call) {
            Ok(c) => {
                self.error = None;
                let mut calls: Vec<QueuedCall> = none_of();
                calls.push(c);
                proof {
                    assert(models(calls@) =~= seq![c@]);
                }
                Some(
                    Outcome::Review {
                        calls,
                        preflight: Preflight::Unsupported,
                        sim: None,
                        fee_caveats: none_of(),
                    },
                )
            },
            Err(e) => self.fail(e),
        }
    }

    /// Exchanges a call with its neighbour above or below.
    fn move_call(&mut self, id: u64, up: bool)
        requires
            old(self)@.room(),
        ensures
            final(self)@ == old(self)@.move_call(id, up),
    {
        let i: usize = position(&self.queue.batch, id);
        if i >= self.queue.batch.len() {
            return;
        }
        if up {
            if i > 0 {
                swap_with_next(&mut self.queue.batch, i - 1);
                self.sim.invalidate();
            }
        } else if i < self.queue.batch.len() - 1 {
            swap_with_next(&mut self.queue.batch, i);
            self.sim.invalidate();
        }
    }

    fn load_sample(&mut self, parts: SampleParts)
        requires
            old(self)@.room(),
        ensures
            final(self)@ == old(self)@.load_sample(parts),
    {
        let mut id: u64 = self.queue.next_id;
        let calls: Vec<QueuedCall> = sample_batch(&mut id, parts);
        self.queue.batch = calls;
        self.queue.next_id = id;
        self.sim.invalidate();
    }

    /// Sends the calls to the simulator, retiring any earlier run.
    fn simulate(&mut self, wrap: &FlashWrap) -> (r: Option<Outcome>)
        requires
            old(self)@.room(),
        ensures
            (final(self)@, model_of(r)) == old(self)@.simulate(*wrap),
    {
        if self.queue.batch.len() == 0 {
            return None;
        }
        match self.net.builtin() {
            Some(chain) => match self.effective_calls_checked(wrap) {
                Ok(calls) => {
                    self.sim.invalidate();
                    self.sim.busy = true;
                    Some(Outcome::Simulate { seq: self.sim.seq, chain, calls })
                },
                Err(e) => self.fail(e),
            },
            None => None,
        }
    }

    /// The simulation behind the verdict, for the review.
    fn held_sim(&self) -> (r: Option<Box<BatchSimResult>>)
        ensures
            model_of(r) == self@.sim.result,
    {
        match &self.sim.result {
            Some(s) => Some(Box::new(s.replica())),
            None => None,
        }
    }

    /// Opens the review, unless nothing could be signed.
    fn review(&mut self, wrap: &FlashWrap, gate: &VersionGate, now: u64) -> (r: Option<Outcome>)
        requires
            old(self)@.room(),
        ensures
            (final(self)@, model_of(r)) == old(self)@.review(*wrap, *gate, now),
    {
        if self.queue.batch.len() == 0 {
            return None;
        }
        if let Some(why) = self.no_signer_reason(gate) {
            return self.fail(why);
        }
        match self.effective_calls_checked(wrap) {
            Ok(calls) => Some(
                Outcome::Review {
                    calls,
                    preflight: self.preflight(now, wrap.opens),
                    sim: self.held_sim(),
                    fee_caveats: self.fee_caveats(wrap),
                },
            ),
            Err(e) => self.fail(e),
        }
    }

    /// Why a wholesale batch of this length is refused, if it is.
    fn adopt_refusal(&self, n: usize) -> (r: Option<String>)
        ensures
            model_of(r) == self@.adopt_refusal(n as nat),
    {
        if n == 0 {
            return Some("that batch has no calls in it".to_owned());
        }
        if n > 1 && !self.can_batch() {
            let mut s: String = "This batch has ".to_owned();
            s.append(decimal_usize(n).as_str());
            s.append(
                " calls, and this account sends one at a time — atomic batching needs a software key or a Ledger (EIP-7702), or a Safe.",
            );
            return Some(s);
        }
        if n > MAX_BATCH_CALLS {
            let mut s: String = "That batch has ".to_owned();
            s.append(decimal_usize(n).as_str());
            s.append(" calls, and this wallet queues at most ");
            s.append(decimal_usize(MAX_BATCH_CALLS).as_str());
            s.append(".");
            return Some(s);
        }
        None
    }

    /// Replaces the queue wholesale, and says so if there was one.
    fn adopt_batch(&mut self, calls: Vec<QueuedCall>)
        requires
            old(self)@.room(),
            calls@.len() <= MAX_BATCH_CALLS,
        ensures
            final(self)@ == old(self)@.adopted(models(calls@)),
    {
        let replaced: usize = self.queue.batch.len();
        self.queue.next_id = self.queue.next_id + calls.len() as u64;
        self.queue.batch = calls;
        self.queue.expanded = None;
        self.sim.invalidate();
        self.error = if replaced > 0 {
            Some(replaced_text(replaced))
        } else {
            None
        };
    }

    /// Says so when a loaded batch was composed as a different account.
    fn note_identity_drift(&mut self, composed_as: Option<Address>, what: &str)
        ensures
            final(self)@ == old(self)@.note_drift(composed_as, what@),
    {
        if let Some(from) = composed_as {
            if from != self.owner {
                let mut notice: String = drift_text(what, from, self.owner);
                if let Some(prev) = &self.error {
                    notice.append(" ");
                    notice.append(prev.as_str());
                }
                self.error = Some(notice);
            }
        }
    }

    /// Replaces the queue with a template's calls.
    fn load_template(&mut self, i: usize, calls: Result<Vec<QueuedCall>, String>) -> (r: Option<
        Outcome,
    >)
        requires
            old(self)@.room(),
        ensures
            (final(self)@, model_of(r)) == old(self)@.load_template(i, calls),
    {
        if i >= self.shelf.templates.len() {
            return None;
        }
        let name: String = self.shelf.templates[i].name.clone();
        let from: Option<Address> = self.shelf.templates[i].from;
        if self.net.builtin().is_none() {
            self.error = Some(template_refusal_text(name.as_str(), self.net));
            self.shelf.menu_open = false;
            return None;
        }
        match calls {
            Err(e) => self.fail(e),
            Ok(calls) => {
                if let Some(e) = self.adopt_refusal(calls.len()) {
                    return self.fail(e);
                }
                self.adopt_batch(calls);
                self.shelf.cancel_rename();
                self.shelf.menu_open = false;
                let mut what: String = "\"".to_owned();
                what.append(name.as_str());
                what.append("\"");
                self.note_identity_drift(from, what.as_str());
                None
            },
        }
    }

    /// Replaces the queue with a bundle's calls. A refusal stays in the
    /// overlay, with the text still in the box.
    fn import_json(
        &mut self,
        calls: Result<Vec<QueuedCall>, String>,
        composed_as: Option<Address>,
    ) -> (r: Option<Outcome>)
        requires
            old(self)@.room(),
        ensures
            (final(self)@, model_of(r)) == old(self)@.import_json(calls, composed_as),
    {
        match calls {
            Err(e) => {
                self.json.error = Some(e);
                None
            },
            Ok(calls) => {
                if let Some(e) = self.adopt_refusal(calls.len()) {
                    self.json.error = Some(e);
                    return None;
                }
                self.adopt_batch(calls);
                self.json.modal = Modal::Closed;
                self.note_identity_drift(composed_as, "This bundle");
                None
            },
        }
    }

    /// Hands out the template list, with the list before the change.
    fn persist(&self, rollback: Vec<Template>) -> (r: Outcome)
        ensures
            r@ == (Effect::PersistTemplates {
                list: self@.shelf.templates,
                rollback: models(rollback@),
            }),
    {
        Outcome::PersistTemplates { list: replicate(&self.shelf.templates), rollback }
    }

    fn save_template(&mut self, t: Template) -> (r: Option<Outcome>)
        ensures
            (final(self)@, model_of(r)) == old(self)@.save_template(t@),
    {
        if self.queue.batch.len() == 0 || self.net.builtin().is_none() {
            return None;
        }
        let ghost before = self.shelf.templates@;
        let rollback: Vec<Template> = replicate(&self.shelf.templates);
        self.shelf.cancel_rename();
        self.shelf.templates.push(t);
        proof {
            assert(models(self.shelf.templates@) =~= models(before).push(t@));
        }
        self.shelf.menu_open = true;
        Some(self.persist(rollback))
    }

    fn delete_template(&mut self, i: usize) -> (r: Option<Outcome>)
        ensures
            (final(self)@, model_of(r)) == (if i < old(self)@.shelf.templates.len() {
                old(self)@.persisted(old(self)@.shelf.templates.remove(i as int))
            } else {
                (old(self)@, None)
            }),
    {
        if i >= self.shelf.templates.len() {
            return None;
        }
        let ghost before = self.shelf.templates@;
        let rollback: Vec<Template> = replicate(&self.shelf.templates);
        let _ = self.shelf.templates.remove(i);
        proof {
            assert(models(self.shelf.templates@) =~= models(before).remove(i as int));
        }
        self.shelf.cancel_rename();
        Some(self.persist(rollback))
    }

    /// Applies the name being edited. A blank one keeps the edit open.
    fn commit_rename(&mut self) -> (r: Option<Outcome>)
        ensures
            (final(self)@, model_of(r)) == old(self)@.commit_rename(),
    {
        let i: usize = match self.shelf.rename_idx {
            Some(i) => i,
            None => {
                return None;
            },
        };
        let name: String = trim(self.shelf.rename_buf.as_str());
        if name.as_str().is_empty() || i >= self.shelf.templates.len() {
            return None;
        }
        let ghost before = self.shelf.templates@;
        let rollback: Vec<Template> = replicate(&self.shelf.templates);
        let mut t: Template = self.shelf.templates.remove(i);
        t.name = name;
        self.shelf.templates.insert(i, t);
        proof {
            assert(models(self.shelf.templates@) =~= models(before).update(i as int, t@));
        }
        self.shelf.cancel_rename();
        Some(self.persist(rollback))
    }

    fn open_save(&mut self, export: String) -> (r: Option<Outcome>)
        ensures
            (final(self)@, model_of(r)) == old(self)@.open_save(export@),
    {
        if self.net.builtin().is_none() {
            return self.fail(export_refusal_text(self.net));
        }
        self.json.text = export;
        self.json.modal = Modal::Save;
        None
    }

    /// The import box changed. A paste over the limit never reaches it.
    fn json_changed(&mut self, v: String) -> (r: Option<Outcome>)
        ensures
            (final(self)@, model_of(r)) == old(self)@.json_changed(
                v@,
                vstd::utf8::encode_utf8(v@).len() as usize,
            ),
    {
        let bytes: usize = v.as_str().len();
        if bytes > MAX_BUNDLE_BYTES {
            self.json.error = Some(paste_refusal_text(bytes));
            return None;
        }
        self.json.text = v;
        self.json.error = None;
        None
    }

    fn set_arg(&mut self, i: usize, v: String)
        ensures
            final(self)@ == old(self)@.set_arg(i, v@),
    {
        if i < self.composer.args.len() {
            let ghost before = self.composer.args@;
            self.composer.args.set(i, v);
            proof {
                assert(models(self.composer.args@) =~= models(before).update(i as int, v@));
            }
        }
    }

    fn set_read_arg(&mut self, i: usize, v: String)
        requires
            old(self)@.room(),
        ensures
            final(self)@ == old(self)@.set_read_arg(i, v@),
    {
        self.reader.invalidate();
        if i < self.reader.args.len() {
            let ghost before = self.reader.args@;
            self.reader.args.set(i, v);
            proof {
                assert(models(self.reader.args@) =~= models(before).update(i as int, v@));
            }
        }
    }

    /// The raw target changed. What was known of the old one goes, and whether
    /// the new one holds a contract is asked.
    fn raw_to_changed(&mut self, v: String, address: Result<Address, String>) -> (r: Option<
        Outcome,
    >)
        requires
            old(self)@.room(),
        ensures
            (final(self)@, model_of(r)) == old(self)@.raw_to_changed(v@, address),
    {
        self.raw.to = v;
        self.raw.nothing_deployed = false;
        self.probe_seq = self.probe_seq + 1;
        match address {
            Ok(a) => self.probe_code(a),
            Err(_) => None,
        }
    }

    /// Clicks in menus and lists.
    fn toggle(&mut self, msg: Message) -> (r: Option<Outcome>)
        requires
            old(self)@.room(),
        ensures
            (final(self)@, model_of(r)) == old(self)@.toggled(msg),
    {
        match msg {
            Message::Close => {
                return Some(Outcome::Close);
            },
            Message::SetMode(m) => {
                self.mode = m;
                self.error = None;
                self.composer.method_menu_open = false;
                self.reader.menu_open = false;
            },
            Message::ToggleNetworkMenu => {
                if !self.ctx.is_safe {
                    self.net_menu_open = !self.net_menu_open;
                    self.shelf.menu_open = false;
                }
            },
            Message::SetNetwork(net) => {
                if self.net == net {
                    self.net_menu_open = false;
                } else {
                    let from: NetworkId = self.net;
                    self.net = net;
                    self.on_network_reset(from);
                }
            },
            Message::ToggleExpand(id) => {
                let open: bool = match self.queue.expanded {
                    Some(e) => e == id,
                    None => false,
                };
                self.queue.expanded = if open {
                    None
                } else {
                    Some(id)
                };
            },
            Message::ToggleTemplateMenu => {
                self.shelf.menu_open = !self.shelf.menu_open;
                self.net_menu_open = false;
                self.shelf.cancel_rename();
            },
            Message::StartRename(i) => {
                if i < self.shelf.templates.len() {
                    self.shelf.rename_buf = self.shelf.templates[i].name.clone();
                    self.shelf.rename_idx = Some(i);
                }
            },
            Message::RenameChanged(v) => {
                self.shelf.rename_buf = v;
            },
            Message::CancelRename => self.shelf.cancel_rename(),
            _ => {},
        }
        None
    }

    /// The overlay, the settled strip and the error banner. Esc belongs to the
    /// overlay while it is open.
    fn overlay(&mut self, msg: Message) -> (r: Option<Outcome>)
        ensures
            (final(self)@, model_of(r)) == old(self)@.overlaid(msg),
    {
        match msg {
            Message::OpenLoad => {
                self.json = JsonBox::closed();
                self.json.modal = Modal::Load;
            },
            Message::CloseModal => {
                self.json = JsonBox::closed();
            },
            Message::CopyJson => {
                return Some(Outcome::CopyText(self.json.text.clone()));
            },
            Message::CopySettledHash => {
                if let Some(s) = self.visible_settled() {
                    if let Some(h) = s.hash() {
                        return Some(Outcome::CopyPlain(hex_of_hash(h)));
                    }
                }
            },
            Message::DismissSettled => {
                self.settled = None;
            },
            Message::Escape => {
                if self.json.modal == Modal::Closed {
                    return Some(Outcome::Close);
                }
                self.json = JsonBox::closed();
            },
            Message::DismissError => {
                self.error = None;
            },
            _ => {},
        }
        None
    }

    /// Typing into the contract composer, or picking a method.
    fn edit(&mut self, msg: Message) -> (r: Option<Outcome>)
        requires
            old(self)@.room(),
        ensures
            (final(self)@, model_of(r)) == old(self)@.edited(msg),
    {
        match msg {
            Message::ShowAbiPaste => {
                self.composer.paste_open = true;
            },
            Message::AbiPasteChanged(v) => {
                self.composer.abi_paste = v;
            },
            Message::ToggleMethodMenu => {
                self.composer.method_menu_open = !self.composer.method_menu_open;
            },
            Message::PickMethod(i) => {
                self.composer.method_idx = i;
                self.composer.method_menu_open = false;
                self.composer.reset_args();
            },
            Message::ArgChanged(i, v) => self.set_arg(i, v),
            Message::BoolArg(i, b) => self.set_arg(i, bool_word(b)),
            Message::ValueChanged(v) => {
                self.composer.value_input = v;
            },
            _ => {},
        }
        None
    }

    /// Typing into the query or the raw composer.
    fn ask(&mut self, msg: Message) -> (r: Option<Outcome>)
        requires
            old(self)@.room(),
        ensures
            (final(self)@, model_of(r)) == old(self)@.asked(msg),
    {
        match msg {
            Message::ToggleReadMethodMenu => {
                self.reader.menu_open = !self.reader.menu_open;
            },
            Message::PickReadMethod(i) => {
                self.reader.idx = i;
                self.reader.menu_open = false;
                self.reader.reset_args(&self.composer.loaded);
                self.reader.invalidate();
            },
            Message::ReadArgChanged(i, v) => self.set_read_arg(i, v),
            Message::ReadBoolArg(i, b) => self.set_read_arg(i, bool_word(b)),
            Message::CopyReadRaw => {
                if let Some(ReadOutcome::Returned { raw, .. }) = &self.reader.result {
                    return Some(Outcome::CopyPlain(raw.clone()));
                }
            },
            Message::CopyReadValue(i) => {
                if let Some(ReadOutcome::Returned { rows, .. }) = &self.reader.result {
                    if i < rows.len() {
                        return Some(Outcome::CopyPlain(rows[i].value.clone()));
                    }
                }
            },
            Message::RawValueChanged(v) => {
                self.raw.value = v;
            },
            Message::RawDataChanged(v) => {
                self.raw.data = v;
            },
            _ => {},
        }
        None
    }

    /// Changing the queue.
    fn rearrange(&mut self, msg: Message, found: Findings) -> (r: Option<Outcome>)
        requires
            old(self)@.room(),
        ensures
            (final(self)@, model_of(r)) == old(self)@.rearranged(msg, found),
    {
        match msg {
            Message::AddToBatch => {
                return self.add_to_batch(found.address, found.call);
            },
            Message::RemoveCall(id) => {
                self.queue.batch = without(&self.queue.batch, id);
                self.sim.invalidate();
            },
            Message::MoveUp(id) => self.move_call(id, true),
            Message::MoveDown(id) => self.move_call(id, false),
            Message::ClearBatch => {
                self.queue.batch = none_of();
                self.queue.expanded = None;
                self.sim.invalidate();
            },
            Message::LoadSample => self.load_sample(found.sample),
            Message::ToggleAutoRevoke(v) => {
                self.queue.auto_revoke = v;
                self.sim.invalidate();
            },
            Message::LoadTemplate(i) => {
                return self.load_template(i, found.loaded_calls);
            },
            Message::ImportJson => {
                return self.import_json(found.loaded_calls, found.composed_as);
            },
            _ => {},
        }
        None
    }

    /// Delivers a message, with what was found out for it.
    pub fn update(&mut self, msg: Message, found: Findings) -> (r: Option<Outcome>)
        requires
            old(self)@.room(),
        ensures
            (final(self)@, model_of(r)) == old(self)@.update(msg, found),
    {
        match msg {
            Message::AddrChanged(v) => self.on_addr_changed(v, found.address, found.known),
            Message::RetryResolve => self.retry_resolve(),
            Message::LoadPastedAbi => self.load_pasted(found.address, found.pasted),
            Message::Query => self.on_query(found.read_args_valid, found.read_data),
            Message::RawToChanged(v) => self.raw_to_changed(v, found.address),
            Message::SendSingle => self.send_single(found.address, found.call, &found.gate),
            Message::Simulate => self.simulate(&found.wrap),
            Message::Review => self.review(&found.wrap, &found.gate, found.now),
            Message::SaveTemplate => self.save_template(found.template),
            Message::DeleteTemplate(i) => self.delete_template(i),
            Message::CommitRename => self.commit_rename(),
            Message::OpenSave => self.open_save(found.export),
            Message::JsonChanged(v) => self.json_changed(v),
            Message::AddToBatch | Message::RemoveCall(_) | Message::MoveUp(_) | Message::MoveDown(
                _,
            ) | Message::ClearBatch | Message::LoadSample | Message::ToggleAutoRevoke(_)
            | Message::LoadTemplate(_) | Message::ImportJson => self.rearrange(msg, found),
            Message::ShowAbiPaste | Message::AbiPasteChanged(_) | Message::ToggleMethodMenu
            | Message::PickMethod(_) | Message::ArgChanged(_, _) | Message::BoolArg(_, _)
            | Message::ValueChanged(_) => self.edit(msg),
            Message::ToggleReadMethodMenu | Message::PickReadMethod(_) | Message::ReadArgChanged(
                _,
                _,
            ) | Message::ReadBoolArg(_, _) | Message::CopyReadRaw | Message::CopyReadValue(_)
            | Message::RawValueChanged(_) | Message::RawDataChanged(_) => self.ask(msg),
            Message::OpenLoad | Message::CloseModal | Message::CopyJson | Message::CopySettledHash
            | Message::DismissSettled | Message::Escape | Message::DismissError => self.overlay(
                msg,
            ),
            _ => self.toggle(msg),
        }
    }
}

} // verus!

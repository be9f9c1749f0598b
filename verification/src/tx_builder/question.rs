//! What has to be found out before a message is delivered.

use vstd::prelude::*;

use crate::chain::NetworkId;
use crate::primitives::checksum_of_address;
use crate::primitives::checksum_text;
use crate::primitives::Address;
use crate::text::model_of;
use crate::text::models;
use crate::text::none_of;
use crate::text::replicate;
use crate::text::replicate_opt;
use crate::text::same_text;
use crate::text::trim;
use crate::text::trimmed;
use crate::text::Replica;
use crate::tx_builder::model::method_named;
use crate::tx_builder::model::Pane;
use crate::tx_builder::Message;
use crate::tx_builder::Mode;
use crate::tx_builder::Question;
use crate::tx_builder::ResolvedCode;
use crate::tx_builder::TxBuilderApp;
use crate::txbuilder::AbiMethod;
use crate::txbuilder::LoadedContract;
use crate::txbuilder::MethodModel;

verus! {

/// The sample batch's token.
pub open spec fn sample_token() -> Address {
    Address { hi: 0xa0b86991, lo: 0xc6218b36c1d19d4a2e9eb0ce3606eb48 }
}

/// The sample batch's lending pool.
pub open spec fn sample_pool() -> Address {
    Address { hi: 0x87870bca, lo: 0x3f3fd6335c3f4ce8392d69350b4fa4e2 }
}

/// Where the sample batch's token and lending pool are.
pub fn sample_addresses() -> (r: (Address, Address))
    ensures
        r == (sample_token(), sample_pool()),
{
    (
        Address { hi: 0xa0b86991, lo: 0xc6218b36c1d19d4a2e9eb0ce3606eb48 },
        Address { hi: 0x87870bca, lo: 0x3f3fd6335c3f4ce8392d69350b4fa4e2 },
    )
}

/// Whether a question asks for the call of `method` with exactly these parts.
pub open spec fn asks_call(
    q: Question,
    id: u64,
    to: Address,
    name: Seq<char>,
    method: MethodModel,
    args: Seq<Seq<char>>,
    value: Seq<char>,
) -> bool {
    q matches Question::ContractCall { id: i, to: t, name: n, method: m, args: a, value: v } && i
        == id && t == to && n@ == name && m@ == method && models(a@) == args && v@ == value
}

impl Pane {
    /// Whether `q` is what the composed call has to be asked for.
    pub open spec fn asks_composed(self, q: Question) -> bool {
        match self.mode {
            Mode::Write => match (self.selected_method(), self.composer.loaded) {
                (Some(m), Some(c)) => asks_call(
                    q,
                    self.queue.next_id,
                    c.address,
                    c.name,
                    m,
                    self.composer.args,
                    self.composer.value_input,
                ),
                _ => q is Nothing,
            },
            Mode::Raw => q matches Question::RawCall { id, to, value, data } && id
                == self.queue.next_id && to@ == self.raw.to && value@ == self.raw.value && data@
                == self.raw.data,
            Mode::Read => q is Nothing,
        }
    }

    /// Whether `q` is what has to be found out before `m` is delivered.
    pub open spec fn asks(self, m: Message, q: Question) -> bool {
        match m {
            Message::AddrChanged(v) => q matches Question::Address { text, chain } && text@
                == trimmed(v@) && chain == self.net.chain(),
            Message::RawToChanged(v) => q matches Question::Address { text, chain } && text@
                == trimmed(v@) && chain is None,
            Message::LoadPastedAbi => q matches Question::PastedAbi { address, abi } && address@
                == self.composer.addr_input && abi@ == self.composer.abi_paste,
            Message::Query => match self.selected_read_method() {
                Some(sel) => q matches Question::ReadCall { method, args } && method@ == sel
                    && models(args@) == self.reader.args,
                None => q is Nothing,
            },
            Message::AddToBatch => self.asks_composed(q),
            Message::SendSingle => q matches Question::Single { call, safe_version }
                && self.asks_composed(*call) && model_of(safe_version) == self.ctx.safe_version,
            Message::LoadSample => q == (Question::Sample {
                id: self.queue.next_id,
                owner: self.owner,
            }),
            Message::Simulate => q matches Question::Wrap { calls, id } && models(calls@)
                == self.queue.batch && id == self.queue.next_id,
            Message::Review => q matches Question::Review { calls, id, safe_version } && models(
                calls@,
            ) == self.queue.batch && id == self.queue.next_id && model_of(safe_version)
                == self.ctx.safe_version,
            Message::OpenSave => match self.net {
                NetworkId::Builtin(c) => q matches Question::Export { chain, safe, owner, calls }
                    && chain == c && safe == (if self.ctx.is_safe {
                    Some(self.owner)
                } else {
                    None
                }) && owner == self.owner && models(calls@) == self.queue.batch,
                NetworkId::Custom(_) => q is Nothing,
            },
            Message::ImportJson => q matches Question::Import { text, id, chain } && text@
                == self.json.text && id == self.queue.next_id && chain == self.net.chain(),
            Message::LoadTemplate(i) => match self.net {
                NetworkId::Builtin(c) if i < self.shelf.templates.len() => q matches
                    Question::TemplateCalls { template, id, chain } && template@
                    == self.shelf.templates[i as int] && id == self.queue.next_id && chain == c,
                _ => q is Nothing,
            },
            Message::SaveTemplate => match self.net {
                NetworkId::Builtin(c) if self.queue.batch.len() > 0 => q matches
                    Question::NewTemplate { name, kaomoji, chain, owner, calls } && name@
                    == "Untitled batch"@ && kaomoji@ == "(｡•̀ᴗ-)✧"@ && chain == c && owner
                    == self.owner && models(calls@) == self.queue.batch,
                _ => q is Nothing,
            },
            _ => q is Nothing,
        }
    }

    /// Whether `q` is what has to be found out before the answer to a resolve
    /// is delivered: what its code makes of the target. An answer that changes
    /// no contract asks nothing.
    pub open spec fn asks_recovery(
        self,
        seq: u64,
        result: Result<ResolvedCode, String>,
        q: Question,
    ) -> bool {
        match (self.composer.resolve_target, result) {
            (Some(target), Ok(r)) if seq == self.composer.resolve_seq => q matches
                Question::Recovery { code, address, implementation, code_verified } && code@
                == r.code@ && address == target && implementation == r.implementation
                && code_verified == r.code_verified,
            _ => q is Nothing,
        }
    }
}

/// The first method of this name.
pub(crate) fn find_method<'a>(methods: &'a Vec<AbiMethod>, name: &str) -> (r: Option<&'a AbiMethod>)
    ensures
        match r {
            Some(m) => method_named(models(methods@), name@) == Some(m@),
            None => method_named(models(methods@), name@) is None,
        },
{
    let mut i: usize = 0;
    proof {
        assert(models(methods@).skip(0) =~= models(methods@));
    }
    while i < methods.len()
        invariant
            i <= methods@.len(),
            method_named(models(methods@), name@) == method_named(
                models(methods@).skip(i as int),
                name@,
            ),
        decreases methods@.len() - i,
    {
        let ghost rest = models(methods@).skip(i as int);
        proof {
            assert(rest[0] == models(methods@)[i as int]);
            assert(rest.drop_first() =~= models(methods@).skip(i + 1));
        }
        if same_text(methods[i].name.as_str(), name) {
            return Some(&methods[i]);
        }
        i = i + 1;
    }
    proof {
        assert(models(methods@).skip(i as int).len() == 0);
    }
    None
}

/// The calls of the sample batch, as they have to be asked for: an approval of
/// the pool on the token, and a deposit for `owner` on the pool. `id` is the
/// next call's; the deposit takes the one after it if the approval was built.
pub fn sample_questions(
    usdc: &LoadedContract,
    aave: &LoadedContract,
    owner: Address,
    id: u64,
    approved: bool,
) -> (r: Option<(Question, Question)>)
    requires
        id < u64::MAX,
    ensures
        match r {
            Some(pair) => {
                &&& method_named(usdc@.methods, "approve"@) matches Some(m) && asks_call(
                    pair.0,
                    id,
                    usdc@.address,
                    "USDC"@,
                    m,
                    seq![checksum_text(sample_pool()), "5000000000"@],
                    "0"@,
                )
                &&& method_named(aave@.methods, "supply"@) matches Some(m) && asks_call(
                    pair.1,
                    if approved {
                        (id + 1) as u64
                    } else {
                        id
                    },
                    aave@.address,
                    "Aave v3 Pool"@,
                    m,
                    seq![
                        checksum_text(usdc@.address),
                        "5000000000"@,
                        checksum_text(owner),
                        "0"@,
                    ],
                    "0"@,
                )
            },
            None => method_named(usdc@.methods, "approve"@) is None || method_named(
                aave@.methods,
                "supply"@,
            ) is None,
        },
{
    match (find_method(&usdc.methods, "approve"), find_method(&aave.methods, "supply")) {
        (Some(approve), Some(supply)) => {
            let mut first: Vec<String> = none_of();
            first.push(checksum_of_address(sample_addresses().1));
            first.push("5000000000".to_owned());
            let mut second: Vec<String> = none_of();
            second.push(checksum_of_address(usdc.address));
            second.push("5000000000".to_owned());
            second.push(checksum_of_address(owner));
            second.push("0".to_owned());
            proof {
                assert(models(first@) =~= seq![checksum_text(sample_pool()), "5000000000"@]);
                assert(models(second@) =~= seq![
                    checksum_text(usdc@.address),
                    "5000000000"@,
                    checksum_text(owner),
                    "0"@,
                ]);
            }
            Some(
                (
                    Question::ContractCall {
                        id,
                        to: usdc.address,
                        name: "USDC".to_owned(),
                        method: approve.replica(),
                        args: first,
                        value: "0".to_owned(),
                    },
                    Question::ContractCall {
                        id: if approved {
                            id + 1
                        } else {
                            id
                        },
                        to: aave.address,
                        name: "Aave v3 Pool".to_owned(),
                        method: supply.replica(),
                        args: second,
                        value: "0".to_owned(),
                    },
                ),
            )
        },
        _ => None,
    }
}

impl TxBuilderApp {
    /// What the composed call has to be asked for.
    fn composed_question(&self) -> (q: Question)
        ensures
            self@.asks_composed(q),
    {
        match self.mode {
            Mode::Write => match (self.selected_method(), &self.composer.loaded) {
                (Some(m), Some(c)) => Question::ContractCall {
                    id: self.queue.next_id,
                    to: c.address,
                    name: c.name.clone(),
                    method: m.replica(),
                    args: replicate(&self.composer.args),
                    value: self.composer.value_input.clone(),
                },
                _ => Question::Nothing,
            },
            Mode::Raw => Question::RawCall {
                id: self.queue.next_id,
                to: self.raw.to.clone(),
                value: self.raw.value.clone(),
                data: self.raw.data.clone(),
            },
            Mode::Read => Question::Nothing,
        }
    }

    /// What has to be found out before `msg` is delivered.
    pub fn question(&self, msg: &Message) -> (q: Question)
        ensures
            self@.asks(*msg, q),
    {
        match msg {
            Message::AddrChanged(v) => Question::Address {
                text: trim(v.as_str()),
                chain: self.net.builtin(),
            },
            Message::RawToChanged(v) => Question::Address { text: trim(v.as_str()), chain: None },
            Message::LoadPastedAbi => Question::PastedAbi {
                address: self.composer.addr_input.clone(),
                abi: self.composer.abi_paste.clone(),
            },
            Message::Query => match self.selected_read_method() {
                Some(m) => Question::ReadCall {
                    method: m.replica(),
                    args: replicate(&self.reader.args),
                },
                None => Question::Nothing,
            },
            Message::AddToBatch => self.composed_question(),
            Message::SendSingle => Question::Single {
                call: Box::new(self.composed_question()),
                safe_version: replicate_opt(&self.ctx.safe_version),
            },
            Message::LoadSample => Question::Sample { id: self.queue.next_id, owner: self.owner },
            Message::Simulate => Question::Wrap {
                calls: replicate(&self.queue.batch),
                id: self.queue.next_id,
            },
            Message::Review => Question::Review {
                calls: replicate(&self.queue.batch),
                id: self.queue.next_id,
                safe_version: replicate_opt(&self.ctx.safe_version),
            },
            Message::OpenSave => match self.net {
                NetworkId::Builtin(chain) => Question::Export {
                    chain,
                    safe: if self.ctx.is_safe {
                        Some(self.owner)
                    } else {
                        None
                    },
                    owner: self.owner,
                    calls: replicate(&self.queue.batch),
                },
                NetworkId::Custom(_) => Question::Nothing,
            },
            Message::ImportJson => Question::Import {
                text: self.json.text.clone(),
                id: self.queue.next_id,
                chain: self.net.builtin(),
            },
            Message::LoadTemplate(i) => match self.net {
                NetworkId::Builtin(chain) => if *i < self.shelf.templates.len() {
                    Question::TemplateCalls {
                        template: self.shelf.templates[*i].replica(),
                        id: self.queue.next_id,
                        chain,
                    }
                } else {
                    Question::Nothing
                },
                NetworkId::Custom(_) => Question::Nothing,
            },
            Message::SaveTemplate => match self.net {
                NetworkId::Builtin(chain) => if self.queue.batch.len() > 0 {
                    Question::NewTemplate {
                        name: "Untitled batch".to_owned(),
                        kaomoji: "(｡•̀ᴗ-)✧".to_owned(),
                        chain,
                        owner: self.owner,
                        calls: replicate(&self.queue.batch),
                    }
                } else {
                    Question::Nothing
                },
                NetworkId::Custom(_) => Question::Nothing,
            },
            _ => Question::Nothing,
        }
    }

    /// What has to be found out before the answer to a resolve is delivered.
    pub fn recovery_question(
        &self,
        seq: u64,
        result: &Result<ResolvedCode, String>,
    ) -> (q: Question)
        ensures
            self@.asks_recovery(seq, *result, q),
    {
        match (self.composer.resolve_target, result) {
            (Some(target), Ok(r)) => if seq == self.composer.resolve_seq {
                Question::Recovery {
                    code: r.code.clone(),
                    address: target,
                    implementation: r.implementation,
                    code_verified: r.code_verified,
                }
            } else {
                Question::Nothing
            },
            _ => Question::Nothing,
        }
    }
}

} // verus!

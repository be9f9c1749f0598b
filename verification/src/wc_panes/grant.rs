//! What approving a proposal would grant: the part of what the dapp asked for
//! that the wallet supports.

use vstd::prelude::*;

use crate::chain::Chain;
use crate::text::dec;
use crate::text::decimal;
use crate::text::lemma_next;
use crate::text::models;
use crate::text::none_of;
use crate::text::same_text;
use crate::wc_panes::Method;
use crate::wc_panes::MethodModel;
use crate::wc_panes::Namespace;
use crate::wc_panes::NamespaceModel;
use crate::wc_panes::UiProposal;

verus! {

/// What approving a proposal would grant, and how much of it falls away.
#[derive(Debug, Clone, PartialEq, Eq)]
pub struct GrantPreview {
    pub granted_chains: Vec<&'static str>,
    pub granted_methods: Vec<String>,
    pub dropped_chains: usize,
    pub dropped_methods: usize,
    /// Something the dapp called required is not granted.
    pub required_dropped: bool,
}

#[verifier::ext_equal]
pub struct GrantModel {
    pub granted_chains: Seq<Seq<char>>,
    pub granted_methods: Seq<Seq<char>>,
    pub dropped_chains: nat,
    pub dropped_methods: nat,
    pub required_dropped: bool,
}

impl View for GrantPreview {
    type V = GrantModel;

    open spec fn view(&self) -> GrantModel {
        GrantModel {
            granted_chains: models(self.granted_chains@),
            granted_methods: models(self.granted_methods@),
            dropped_chains: self.dropped_chains as nat,
            dropped_methods: self.dropped_methods as nat,
            required_dropped: self.required_dropped,
        }
    }
}

/// The networks asked for in the scopes the wallet speaks, in order and with
/// repetitions.
pub open spec fn asked_chains(ns: Seq<NamespaceModel>) -> Seq<Seq<char>>
    decreases ns.len(),
{
    if ns.len() == 0 {
        seq![]
    } else if ns.last().key == "eip155"@ {
        asked_chains(ns.drop_last()) + ns.last().chains
    } else {
        asked_chains(ns.drop_last())
    }
}

/// The methods asked for in the scopes the wallet speaks, in order and with
/// repetitions.
pub open spec fn asked_methods(ns: Seq<NamespaceModel>) -> Seq<Seq<char>>
    decreases ns.len(),
{
    if ns.len() == 0 {
        seq![]
    } else if ns.last().key == "eip155"@ {
        asked_methods(ns.drop_last()) + ns.last().methods
    } else {
        asked_methods(ns.drop_last())
    }
}

/// How a scope names a built-in chain.
pub open spec fn caip(chain: Chain) -> Seq<char> {
    "eip155:"@ + dec(chain.id() as nat)
}

/// The names of all built-in chains.
pub open spec fn known_chains() -> Seq<Seq<char>> {
    Chain::all_chains().map_values(|c: Chain| caip(c))
}

/// The identifiers of the supported methods.
pub open spec fn ids(supported: Seq<MethodModel>) -> Seq<Seq<char>> {
    supported.map_values(|m: MethodModel| m.id)
}

/// The labels of those built-in chains that were asked for, in the order every
/// list shows them.
pub open spec fn chain_labels(chains: Seq<Chain>, asked: Seq<Seq<char>>) -> Seq<Seq<char>>
    decreases chains.len(),
{
    if chains.len() == 0 {
        seq![]
    } else if asked.contains(caip(chains.last())) {
        chain_labels(chains.drop_last(), asked).push(chains.last().label_text())
    } else {
        chain_labels(chains.drop_last(), asked)
    }
}

/// The verbs of those supported methods that were asked for, each once.
pub open spec fn method_labels(supported: Seq<MethodModel>, asked: Seq<Seq<char>>) -> Seq<Seq<char>>
    decreases supported.len(),
{
    if supported.len() == 0 {
        seq![]
    } else {
        let rest = method_labels(supported.drop_last(), asked);
        match supported.last().label {
            Some(label) => if asked.contains(supported.last().id) && !rest.contains(label) {
                rest.push(label)
            } else {
                rest
            },
            None => rest,
        }
    }
}

/// How many different things were asked for that are not known.
pub open spec fn dropped(asked: Seq<Seq<char>>, known: Seq<Seq<char>>) -> nat {
    asked.to_set().difference(known.to_set()).len()
}

/// Whether something was asked for that is not known.
pub open spec fn any_unknown(asked: Seq<Seq<char>>, known: Seq<Seq<char>>) -> bool {
    exists|i: int| 0 <= i < asked.len() && !known.contains(#[trigger] asked[i])
}

/// What approving a proposal would grant.
pub open spec fn grant(
    required: Seq<NamespaceModel>,
    optional: Seq<NamespaceModel>,
    supported: Seq<MethodModel>,
) -> GrantModel {
    let chains = asked_chains(required) + asked_chains(optional);
    let methods = asked_methods(required) + asked_methods(optional);
    GrantModel {
        granted_chains: chain_labels(Chain::all_chains(), chains),
        granted_methods: method_labels(supported, methods),
        dropped_chains: dropped(chains, known_chains()),
        dropped_methods: dropped(methods, ids(supported)),
        required_dropped: any_unknown(asked_chains(required), known_chains()) || any_unknown(
            asked_methods(required),
            ids(supported),
        ),
    }
}

/// Whether a text is among others.
fn is_among(texts: &Vec<String>, x: &str) -> (r: bool)
    ensures
        r == models(texts@).contains(x@),
{
    let mut i: usize = 0;
    while i < texts.len()
        invariant
            i <= texts@.len(),
            forall|k: int| 0 <= k < i ==> #[trigger] models(texts@)[k] != x@,
        decreases texts@.len() - i,
    {
        if same_text(texts[i].as_str(), x) {
            proof {
                assert(models(texts@)[i as int] == x@);
            }
            return true;
        }
        i = i + 1;
    }
    false
}

/// Appends copies of texts.
fn append_texts(out: &mut Vec<String>, more: &Vec<String>)
    ensures
        models(final(out)@) == models(old(out)@) + models(more@),
{
    let ghost before = models(out@);
    let mut i: usize = 0;
    proof {
        assert(before + models(more@).take(0) =~= before);
    }
    while i < more.len()
        invariant
            i <= more@.len(),
            models(out@) == before + models(more@).take(i as int),
        decreases more@.len() - i,
    {
        let ghost step = out@;
        let text: String = more[i].clone();
        out.push(text);
        proof {
            assert(models(out@) =~= models(step).push(text@));
            assert(models(out@) =~= before + models(more@).take(i + 1));
        }
        i = i + 1;
    }
    proof {
        assert(models(more@).take(i as int) =~= models(more@));
    }
}

/// The networks asked for in the scopes the wallet speaks.
fn chains_asked(ns: &Vec<Namespace>) -> (r: Vec<String>)
    ensures
        models(r@) == asked_chains(models(ns@)),
{
    let mut out: Vec<String> = none_of();
    let mut i: usize = 0;
    proof {
        assert(models(ns@).take(0) =~= seq![]);
    }
    while i < ns.len()
        invariant
            i <= ns@.len(),
            models(out@) == asked_chains(models(ns@).take(i as int)),
        decreases ns@.len() - i,
    {
        proof {
            lemma_next(models(ns@), i as int);
        }
        if same_text(ns[i].key.as_str(), "eip155") {
            append_texts(&mut out, &ns[i].chains);
        }
        i = i + 1;
    }
    proof {
        assert(models(ns@).take(i as int) =~= models(ns@));
    }
    out
}

/// The methods asked for in the scopes the wallet speaks.
fn methods_asked(ns: &Vec<Namespace>) -> (r: Vec<String>)
    ensures
        models(r@) == asked_methods(models(ns@)),
{
    let mut out: Vec<String> = none_of();
    let mut i: usize = 0;
    proof {
        assert(models(ns@).take(0) =~= seq![]);
    }
    while i < ns.len()
        invariant
            i <= ns@.len(),
            models(out@) == asked_methods(models(ns@).take(i as int)),
        decreases ns@.len() - i,
    {
        proof {
            lemma_next(models(ns@), i as int);
        }
        if same_text(ns[i].key.as_str(), "eip155") {
            append_texts(&mut out, &ns[i].methods);
        }
        i = i + 1;
    }
    proof {
        assert(models(ns@).take(i as int) =~= models(ns@));
    }
    out
}

/// How a scope names a built-in chain.
fn caip_of(chain: Chain) -> (r: String)
    ensures
        r@ == caip(chain),
{
    let mut s: String = "eip155:".to_owned();
    s.append(decimal(chain.chain_id()).as_str());
    s
}

/// The names of all built-in chains.
fn all_caips() -> (r: Vec<String>)
    ensures
        models(r@) == known_chains(),
{
    let mut out: Vec<String> = none_of();
    out.push(caip_of(Chain::Mainnet));
    out.push(caip_of(Chain::Base));
    out.push(caip_of(Chain::Optimism));
    proof {
        assert(models(out@) =~= known_chains());
    }
    out
}

/// The identifiers of the supported methods.
fn all_ids(supported: &Vec<Method>) -> (r: Vec<String>)
    ensures
        models(r@) == ids(models(supported@)),
{
    let mut out: Vec<String> = none_of();
    let mut i: usize = 0;
    while i < supported.len()
        invariant
            i <= supported@.len(),
            models(out@) =~= ids(models(supported@)).take(i as int),
        decreases supported@.len() - i,
    {
        let ghost before = out@;
        let id: String = supported[i].id.clone();
        out.push(id);
        proof {
            let all = ids(models(supported@));
            assert(models(out@) =~= models(before).push(id@));
            lemma_next(all, i as int);
        }
        i = i + 1;
    }
    proof {
        assert(ids(models(supported@)).take(i as int) =~= ids(models(supported@)));
    }
    out
}

/// The labels of those built-in chains that were asked for.
fn granted_labels(asked: &Vec<String>) -> (r: Vec<&'static str>)
    ensures
        models(r@) == chain_labels(Chain::all_chains(), models(asked@)),
{
    let chains: Vec<Chain> = Chain::all();
    let mut out: Vec<&'static str> = none_of();
    let mut i: usize = 0;
    proof {
        assert(chains@.take(0) =~= seq![]);
    }
    while i < chains.len()
        invariant
            i <= chains@.len(),
            models(out@) == chain_labels(chains@.take(i as int), models(asked@)),
        decreases chains@.len() - i,
    {
        proof {
            lemma_next(chains@, i as int);
        }
        if is_among(asked, caip_of(chains[i]).as_str()) {
            let ghost before = out@;
            let label: &'static str = chains[i].label();
            out.push(label);
            proof {
                assert(models(out@) =~= models(before).push(label@));
            }
        }
        i = i + 1;
    }
    proof {
        assert(chains@.take(i as int) =~= chains@);
    }
    out
}

/// The verbs of those supported methods that were asked for, each once.
fn granted_verbs(supported: &Vec<Method>, asked: &Vec<String>) -> (r: Vec<String>)
    ensures
        models(r@) == method_labels(models(supported@), models(asked@)),
{
    let mut out: Vec<String> = none_of();
    let mut i: usize = 0;
    proof {
        assert(models(supported@).take(0) =~= seq![]);
    }
    while i < supported.len()
        invariant
            i <= supported@.len(),
            models(out@) == method_labels(models(supported@).take(i as int), models(asked@)),
        decreases supported@.len() - i,
    {
        proof {
            lemma_next(models(supported@), i as int);
        }
        match &supported[i].label {
            Some(label) => {
                if is_among(asked, supported[i].id.as_str()) && !is_among(&out, label.as_str()) {
                    let ghost before = out@;
                    let verb: String = label.clone();
                    out.push(verb);
                    proof {
                        assert(models(out@) =~= models(before).push(verb@));
                    }
                }
            },
            None => {},
        }
        i = i + 1;
    }
    proof {
        assert(models(supported@).take(i as int) =~= models(supported@));
    }
    out
}

/// How many different things were asked for that are not known.
fn count_dropped(asked: &Vec<String>, known: &Vec<String>) -> (r: usize)
    ensures
        r == dropped(models(asked@), models(known@)),
{
    let mut out: Vec<String> = none_of();
    let ghost all = models(asked@);
    let ghost have = models(known@).to_set();
    let mut i: usize = 0;
    proof {
        assert(all.take(0).to_set() =~= Set::empty());
        assert(models(out@).to_set() =~= all.take(0).to_set().difference(have));
    }
    while i < asked.len()
        invariant
            i <= asked@.len(),
            all == models(asked@),
            have == models(known@).to_set(),
            models(out@).no_duplicates(),
            models(out@).to_set() == all.take(i as int).to_set().difference(have),
        decreases asked@.len() - i,
    {
        let ghost before = models(out@);
        let ghost x = all[i as int];
        if !is_among(known, asked[i].as_str()) && !is_among(&out, asked[i].as_str()) {
            let text: String = asked[i].clone();
            out.push(text);
            proof {
                assert(models(out@) =~= before.push(x));
                before.lemma_push_to_set_commute(x);
            }
        }
        proof {
            lemma_next(all, i as int);
            all.take(i as int).lemma_push_to_set_commute(x);
            assert(models(out@).to_set() =~= all.take(i + 1).to_set().difference(have));
        }
        i = i + 1;
    }
    proof {
        assert(all.take(i as int) =~= all);
        models(out@).unique_seq_to_set();
    }
    out.len()
}

/// Whether something was asked for that is not known.
fn has_unknown(asked: &Vec<String>, known: &Vec<String>) -> (r: bool)
    ensures
        r == any_unknown(models(asked@), models(known@)),
{
    let mut i: usize = 0;
    while i < asked.len()
        invariant
            i <= asked@.len(),
            forall|k: int|
                0 <= k < i ==> models(known@).contains(#[trigger] models(asked@)[k]),
        decreases asked@.len() - i,
    {
        if !is_among(known, asked[i].as_str()) {
            proof {
                assert(!models(known@).contains(models(asked@)[i as int]));
            }
            return true;
        }
        i = i + 1;
    }
    false
}

/// What approving a proposal would grant, given the methods the wallet supports
/// in the order they are shown.
pub fn compute_grant_preview(p: &UiProposal, supported: &Vec<Method>) -> (r: GrantPreview)
    ensures
        r@ == grant(p.required@, p.optional@, models(supported@)),
{
    let required_chains: Vec<String> = chains_asked(p.required.list());
    let required_methods: Vec<String> = methods_asked(p.required.list());
    let mut chains: Vec<String> = none_of();
    append_texts(&mut chains, &required_chains);
    append_texts(&mut chains, &chains_asked(p.optional.list()));
    let mut methods: Vec<String> = none_of();
    append_texts(&mut methods, &required_methods);
    append_texts(&mut methods, &methods_asked(p.optional.list()));
    proof {
        assert(models(chains@) =~= asked_chains(p.required@) + asked_chains(p.optional@));
        assert(models(methods@) =~= asked_methods(p.required@) + asked_methods(p.optional@));
    }
    let known: Vec<String> = all_caips();
    let ids: Vec<String> = all_ids(supported);
    GrantPreview {
        granted_chains: granted_labels(&chains),
        granted_methods: granted_verbs(supported, &methods),
        dropped_chains: count_dropped(&chains, &known),
        dropped_methods: count_dropped(&methods, &ids),
        required_dropped: has_unknown(&required_chains, &known) || has_unknown(
            &required_methods,
            &ids,
        ),
    }
}

} // verus!

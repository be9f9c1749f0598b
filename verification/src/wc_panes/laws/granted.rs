//! What a connection is granted, in terms of what was asked for.

use vstd::prelude::*;
use vstd::utf8::valid_utf8;

use crate::chain::Chain;
use crate::primitives::Address;
use crate::text::all_hex;
use crate::text::dec;
use crate::text::hex_bytes;
use crate::text::hex_fixed;
use crate::text::hex_value;
use crate::text::joined;
use crate::wc_panes::body::asked_scopes;
use crate::wc_panes::body::badge;
use crate::wc_panes::body::dropped_line;
use crate::wc_panes::body::grant_card;
use crate::wc_panes::body::modal_model;
use crate::wc_panes::body::peer_model;
use crate::wc_panes::body::proposal_model;
use crate::wc_panes::body::request_model;
use crate::wc_panes::body::BodyModel;
use crate::wc_panes::grant::any_unknown;
use crate::wc_panes::grant::asked_chains;
use crate::wc_panes::grant::asked_methods;
use crate::wc_panes::grant::caip;
use crate::wc_panes::grant::chain_labels;
use crate::wc_panes::grant::grant;
use crate::wc_panes::grant::ids;
use crate::wc_panes::grant::known_chains;
use crate::wc_panes::grant::method_labels;
use crate::wc_panes::grant::GrantModel;
use crate::wc_panes::laws::lemma_hex_round_trip;
use crate::wc_panes::laws::only_supported_methods_are_granted;
use crate::wc_panes::payload::is_address_text;
use crate::wc_panes::payload::json_indented;
use crate::wc_panes::payload::json_items;
use crate::wc_panes::payload::payload;
use crate::wc_panes::payload::readable;
use crate::wc_panes::payload::signed_message;
use crate::wc_panes::payload::PayloadModel;
use crate::wc_panes::sessions::paste_model;
use crate::wc_panes::sessions::remaining_text;
use crate::wc_panes::sessions::session_models;
use crate::wc_panes::sessions::settled_scopes;
use crate::wc_panes::sessions::Tone;
use crate::wc_panes::Message;
use crate::wc_panes::MethodModel;
use crate::wc_panes::NamespaceModel;
use crate::wc_panes::PeerMetadata;
use crate::wc_panes::UiProposal;
use crate::wc_panes::UiRequest;
use crate::wc_panes::UiSession;
use crate::wc_panes::WcModal;
use crate::wc_panes::WcState;
use crate::wc_panes::WcStatus;

verus! {

// ── what is granted ─────────────────────────────────────────────────

/// Whether the scope of the wallet's own chains asks for a method.
pub open spec fn asks_method(ns: Seq<NamespaceModel>, id: Seq<char>) -> bool {
    exists|i: int, j: int|
        0 <= i < ns.len() && ns[i].key == "eip155"@ && 0 <= j < ns[i].methods.len()
            && #[trigger] ns[i].methods[j] == id
}

/// Whether the scope of the wallet's own chains asks for a chain.
pub open spec fn asks_chain(ns: Seq<NamespaceModel>, id: Seq<char>) -> bool {
    exists|i: int, j: int|
        0 <= i < ns.len() && ns[i].key == "eip155"@ && 0 <= j < ns[i].chains.len()
            && #[trigger] ns[i].chains[j] == id
}

/// Whether a method is among the supported ones.
pub open spec fn supports(supported: Seq<MethodModel>, id: Seq<char>) -> bool {
    exists|k: int| 0 <= k < supported.len() && (#[trigger] supported[k]).id == id
}

proof fn lemma_asked_methods(ns: Seq<NamespaceModel>, id: Seq<char>)
    ensures
        asked_methods(ns).contains(id) == asks_method(ns, id),
    decreases ns.len(),
{
    if ns.len() > 0 {
        let init = ns.drop_last();
        let n = ns.len() - 1;
        lemma_asked_methods(init, id);
        let rest = asked_methods(init);
        let all = asked_methods(ns);
        if all.contains(id) {
            let k = choose|k: int| 0 <= k < all.len() && all[k] == id;
            if k < rest.len() {
                assert(rest[k] == id);
                assert(rest.contains(id));
                let (i, j) = choose|i: int, j: int|
                    0 <= i < init.len() && init[i].key == "eip155"@ && 0 <= j
                        < init[i].methods.len() && #[trigger] init[i].methods[j] == id;
                assert(ns[i].methods[j] == id);
            } else {
                assert(ns[n].methods[k - rest.len()] == id);
            }
        }
        if asks_method(ns, id) {
            let (i, j) = choose|i: int, j: int|
                0 <= i < ns.len() && ns[i].key == "eip155"@ && 0 <= j < ns[i].methods.len()
                    && #[trigger] ns[i].methods[j] == id;
            if i < n {
                assert(init[i].methods[j] == id);
                let k = choose|k: int| 0 <= k < rest.len() && rest[k] == id;
                assert(all[k] == id);
            } else {
                assert(all[rest.len() + j] == id);
            }
        }
    }
}

proof fn lemma_asked_chains(ns: Seq<NamespaceModel>, id: Seq<char>)
    ensures
        asked_chains(ns).contains(id) == asks_chain(ns, id),
    decreases ns.len(),
{
    if ns.len() > 0 {
        let init = ns.drop_last();
        let n = ns.len() - 1;
        lemma_asked_chains(init, id);
        let rest = asked_chains(init);
        let all = asked_chains(ns);
        if all.contains(id) {
            let k = choose|k: int| 0 <= k < all.len() && all[k] == id;
            if k < rest.len() {
                assert(rest[k] == id);
                assert(rest.contains(id));
                let (i, j) = choose|i: int, j: int|
                    0 <= i < init.len() && init[i].key == "eip155"@ && 0 <= j
                        < init[i].chains.len() && #[trigger] init[i].chains[j] == id;
                assert(ns[i].chains[j] == id);
            } else {
                assert(ns[n].chains[k - rest.len()] == id);
            }
        }
        if asks_chain(ns, id) {
            let (i, j) = choose|i: int, j: int|
                0 <= i < ns.len() && ns[i].key == "eip155"@ && 0 <= j < ns[i].chains.len()
                    && #[trigger] ns[i].chains[j] == id;
            if i < n {
                assert(init[i].chains[j] == id);
                let k = choose|k: int| 0 <= k < rest.len() && rest[k] == id;
                assert(all[k] == id);
            } else {
                assert(all[rest.len() + j] == id);
            }
        }
    }
}

proof fn lemma_either(a: Seq<Seq<char>>, b: Seq<Seq<char>>, x: Seq<char>)
    ensures
        (a + b).contains(x) == (a.contains(x) || b.contains(x)),
{
    if a.contains(x) {
        let k = choose|k: int| 0 <= k < a.len() && a[k] == x;
        assert((a + b)[k] == x);
    }
    if b.contains(x) {
        let k = choose|k: int| 0 <= k < b.len() && b[k] == x;
        assert((a + b)[a.len() + k] == x);
    }
}

proof fn lemma_labelled(supported: Seq<MethodModel>, asked: Seq<Seq<char>>, k: int)
    requires
        0 <= k < supported.len(),
        supported[k].label is Some,
        asked.contains(supported[k].id),
    ensures
        method_labels(supported, asked).contains(supported[k].label->0),
    decreases supported.len(),
{
    let init = supported.drop_last();
    let rest = method_labels(init, asked);
    let all = method_labels(supported, asked);
    let label = supported[k].label->0;
    if k < init.len() {
        lemma_labelled(init, asked, k);
        let i = choose|i: int| 0 <= i < rest.len() && rest[i] == label;
        assert(all[i] == label);
    } else if !rest.contains(label) {
        assert(all[rest.len() as int] == label);
    }
}

/// Every supported method that is asked for is granted, whether it was required or
/// optional: its verb is on the card.
pub proof fn every_supported_request_is_granted(
    required: Seq<NamespaceModel>,
    optional: Seq<NamespaceModel>,
    supported: Seq<MethodModel>,
    k: int,
)
    requires
        0 <= k < supported.len(),
        supported[k].label is Some,
        asks_method(required, supported[k].id) || asks_method(optional, supported[k].id),
    ensures
        grant(required, optional, supported).granted_methods.contains(supported[k].label->0),
{
    let id = supported[k].id;
    lemma_asked_methods(required, id);
    lemma_asked_methods(optional, id);
    lemma_either(asked_methods(required), asked_methods(optional), id);
    lemma_labelled(supported, asked_methods(required) + asked_methods(optional), k);
}

/// A verb is on the card only where a method of that verb is supported and was
/// asked for, and it is there once.
pub proof fn only_what_was_asked_for_is_granted(
    required: Seq<NamespaceModel>,
    optional: Seq<NamespaceModel>,
    supported: Seq<MethodModel>,
    verb: Seq<char>,
)
    ensures
        grant(required, optional, supported).granted_methods.no_duplicates(),
        grant(required, optional, supported).granted_methods.contains(verb) ==> exists|k: int|
            0 <= k < supported.len() && (#[trigger] supported[k]).label == Some(verb) && (
            asks_method(required, supported[k].id) || asks_method(optional, supported[k].id)),
{
    let asked = asked_methods(required) + asked_methods(optional);
    let all = grant(required, optional, supported).granted_methods;
    only_supported_methods_are_granted(supported, asked);
    if all.contains(verb) {
        let i = choose|i: int| 0 <= i < all.len() && all[i] == verb;
        assert(method_labels(supported, asked)[i] == verb);
        let k = choose|k: int|
            0 <= k < supported.len() && asked.contains((#[trigger] supported[k]).id)
                && supported[k].label == Some(method_labels(supported, asked)[i]);
        let id = supported[k].id;
        lemma_asked_methods(required, id);
        lemma_asked_methods(optional, id);
        lemma_either(asked_methods(required), asked_methods(optional), id);
    }
}

/// The verbs stand in the order of the supported methods: one more method adds its
/// verb at the end, where it was asked for and is not there yet, and nothing else.
pub proof fn a_further_method_adds_its_verb_last(
    required: Seq<NamespaceModel>,
    optional: Seq<NamespaceModel>,
    supported: Seq<MethodModel>,
    m: MethodModel,
)
    ensures
        ({
            let before = grant(required, optional, supported).granted_methods;
            let after = grant(required, optional, supported.push(m)).granted_methods;
            let asked = asks_method(required, m.id) || asks_method(optional, m.id);
            &&& m.label is None || !asked ==> after == before
            &&& m.label matches Some(verb) ==> before.contains(verb) ==> after == before
            &&& m.label matches Some(verb) ==> asked && !before.contains(verb) ==> after
                == before.push(verb)
        }),
        grant(required, optional, seq![]).granted_methods.len() == 0,
{
    lemma_asked_methods(required, m.id);
    lemma_asked_methods(optional, m.id);
    lemma_either(asked_methods(required), asked_methods(optional), m.id);
    assert(supported.push(m).drop_last() =~= supported);
}

proof fn lemma_caips()
    ensures
        caip(Chain::Mainnet) == "eip155:1"@,
        caip(Chain::Base) == "eip155:8453"@,
        caip(Chain::Optimism) == "eip155:10"@,
{
    reveal_with_fuel(dec, 5);
    reveal_strlit("eip155:");
    reveal_strlit("eip155:1");
    reveal_strlit("eip155:8453");
    reveal_strlit("eip155:10");
    assert(dec(1) =~= seq!['1']);
    assert(dec(10) =~= seq!['1', '0']);
    assert(dec(8453) =~= seq!['8', '4', '5', '3']);
    assert(caip(Chain::Mainnet) =~= "eip155:1"@);
    assert(caip(Chain::Base) =~= "eip155:8453"@);
    assert(caip(Chain::Optimism) =~= "eip155:10"@);
}

/// Of the built-in chains exactly those are granted that were asked for by their
/// number, whether required or optional; they come in a fixed order, and no other
/// chain is granted.
pub proof fn the_chains_asked_for_are_granted(
    required: Seq<NamespaceModel>,
    optional: Seq<NamespaceModel>,
    supported: Seq<MethodModel>,
)
    ensures
        grant(required, optional, supported).granted_chains == (if asks_chain(
            required,
            "eip155:1"@,
        ) || asks_chain(optional, "eip155:1"@) {
            seq!["Mainnet"@]
        } else {
            seq![]
        }) + (if asks_chain(required, "eip155:8453"@) || asks_chain(optional, "eip155:8453"@) {
            seq!["Base"@]
        } else {
            seq![]
        }) + (if asks_chain(required, "eip155:10"@) || asks_chain(optional, "eip155:10"@) {
            seq!["Optimism"@]
        } else {
            seq![]
        }),
{
    lemma_caips();
    let asked = asked_chains(required) + asked_chains(optional);
    let a = "eip155:1"@;
    let b = "eip155:8453"@;
    let c = "eip155:10"@;
    lemma_asked_chains(required, a);
    lemma_asked_chains(optional, a);
    lemma_either(asked_chains(required), asked_chains(optional), a);
    lemma_asked_chains(required, b);
    lemma_asked_chains(optional, b);
    lemma_either(asked_chains(required), asked_chains(optional), b);
    lemma_asked_chains(required, c);
    lemma_asked_chains(optional, c);
    lemma_either(asked_chains(required), asked_chains(optional), c);
    let all = Chain::all_chains();
    assert(all.drop_last() =~= seq![Chain::Mainnet, Chain::Base]);
    assert(all.drop_last().drop_last() =~= seq![Chain::Mainnet]);
    assert(all.drop_last().drop_last().drop_last() =~= seq![]);
    reveal_with_fuel(chain_labels, 4);
    let one = if asked.contains(a) {
        seq!["Mainnet"@]
    } else {
        seq![]
    };
    let two = if asked.contains(b) {
        seq!["Base"@]
    } else {
        seq![]
    };
    let three = if asked.contains(c) {
        seq!["Optimism"@]
    } else {
        seq![]
    };
    assert(chain_labels(seq![Chain::Mainnet], asked) =~= one);
    assert(chain_labels(seq![Chain::Mainnet, Chain::Base], asked) =~= one + two);
    assert(chain_labels(all, asked) =~= one + two + three);
}

/// What is dropped is counted: each method that was asked for, required or
/// optional, and is not supported counts once, and nothing else counts.
pub proof fn dropped_methods_are_counted(
    required: Seq<NamespaceModel>,
    optional: Seq<NamespaceModel>,
    supported: Seq<MethodModel>,
    missing: Set<Seq<char>>,
)
    requires
        forall|id: Seq<char>| #[trigger]
            missing.contains(id) <==> (asks_method(required, id) || asks_method(optional, id))
                && !supports(supported, id),
    ensures
        grant(required, optional, supported).dropped_methods == missing.len(),
{
    let asked = asked_methods(required) + asked_methods(optional);
    let known = ids(supported);
    assert forall|id: Seq<char>| #[trigger]
        asked.to_set().difference(known.to_set()).contains(id) == missing.contains(id) by {
        lemma_asked_methods(required, id);
        lemma_asked_methods(optional, id);
        lemma_either(asked_methods(required), asked_methods(optional), id);
        lemma_supports(supported, id);
    }
    assert(asked.to_set().difference(known.to_set()) =~= missing);
}

proof fn lemma_supports(supported: Seq<MethodModel>, id: Seq<char>)
    ensures
        ids(supported).contains(id) == supports(supported, id),
{
    let known = ids(supported);
    if known.contains(id) {
        let k = choose|k: int| 0 <= k < known.len() && known[k] == id;
        assert(supported[k].id == id);
    }
    if supports(supported, id) {
        let k = choose|k: int| 0 <= k < supported.len() && (#[trigger] supported[k]).id == id;
        assert(known[k] == id);
    }
}

proof fn lemma_known(id: Seq<char>)
    ensures
        known_chains().contains(id) == (id == "eip155:1"@ || id == "eip155:8453"@ || id
            == "eip155:10"@),
{
    lemma_caips();
    let known = known_chains();
    assert(known[0] == "eip155:1"@);
    assert(known[1] == "eip155:8453"@);
    assert(known[2] == "eip155:10"@);
    assert(known.len() == 3);
}

/// So are the chains: each that was asked for and is none of the built-in ones
/// counts once.
pub proof fn dropped_chains_are_counted(
    required: Seq<NamespaceModel>,
    optional: Seq<NamespaceModel>,
    supported: Seq<MethodModel>,
    missing: Set<Seq<char>>,
)
    requires
        forall|id: Seq<char>| #[trigger]
            missing.contains(id) <==> (asks_chain(required, id) || asks_chain(optional, id)) && id
                != "eip155:1"@ && id != "eip155:8453"@ && id != "eip155:10"@,
    ensures
        grant(required, optional, supported).dropped_chains == missing.len(),
{
    let asked = asked_chains(required) + asked_chains(optional);
    let known = known_chains();
    assert forall|id: Seq<char>| #[trigger]
        asked.to_set().difference(known.to_set()).contains(id) == missing.contains(id) by {
        lemma_asked_chains(required, id);
        lemma_asked_chains(optional, id);
        lemma_either(asked_chains(required), asked_chains(optional), id);
        lemma_known(id);
    }
    assert(asked.to_set().difference(known.to_set()) =~= missing);
}

/// It is said that a requirement is dropped exactly when the required scopes ask
/// for a chain that is not built in or for a method that is not supported.
pub proof fn a_dropped_requirement_is_told(
    required: Seq<NamespaceModel>,
    optional: Seq<NamespaceModel>,
    supported: Seq<MethodModel>,
)
    ensures
        grant(required, optional, supported).required_dropped <==> (exists|id: Seq<char>| #[trigger]
            asks_chain(required, id) && id != "eip155:1"@ && id != "eip155:8453"@ && id
                != "eip155:10"@) || (exists|id: Seq<char>| #[trigger]
            asks_method(required, id) && !supports(supported, id)),
{
    let chains = asked_chains(required);
    let methods = asked_methods(required);
    let told = grant(required, optional, supported).required_dropped;
    if told {
        if any_unknown(chains, known_chains()) {
            let i = choose|i: int|
                0 <= i < chains.len() && !known_chains().contains(#[trigger] chains[i]);
            assert(chains.contains(chains[i]));
            lemma_asked_chains(required, chains[i]);
            lemma_known(chains[i]);
            assert(asks_chain(required, chains[i]));
        } else {
            let i = choose|i: int|
                0 <= i < methods.len() && !ids(supported).contains(#[trigger] methods[i]);
            assert(methods.contains(methods[i]));
            lemma_asked_methods(required, methods[i]);
            lemma_supports(supported, methods[i]);
            assert(asks_method(required, methods[i]));
        }
    }
    assert forall|id: Seq<char>| #[trigger]
        asks_chain(required, id) && id != "eip155:1"@ && id != "eip155:8453"@ && id
            != "eip155:10"@ implies told by {
        lemma_asked_chains(required, id);
        lemma_known(id);
        let i = choose|i: int| 0 <= i < chains.len() && chains[i] == id;
        assert(!known_chains().contains(chains[i]));
    }
    assert forall|id: Seq<char>| #[trigger]
        asks_method(required, id) && !supports(supported, id) implies told by {
        lemma_asked_methods(required, id);
        lemma_supports(supported, id);
        let i = choose|i: int| 0 <= i < methods.len() && methods[i] == id;
        assert(!ids(supported).contains(methods[i]));
    }
}

// ── the card of a proposal ──────────────────────────────────────────

/// The card lists what is granted, or says that nothing is, and warns exactly
/// when a requirement is dropped.
pub proof fn the_card_lists_what_is_granted(g: GrantModel)
    ensures
        g.granted_chains.len() == 0 ==> grant_card(g).networks == "(none)"@,
        g.granted_chains.len() > 0 ==> grant_card(g).networks == joined(g.granted_chains, ", "@),
        g.granted_methods.len() == 0 ==> grant_card(g).actions == "(none)"@,
        g.granted_methods.len() > 0 ==> grant_card(g).actions == joined(g.granted_methods, ", "@),
        !g.required_dropped ==> grant_card(g).warning is None,
        g.required_dropped ==> grant_card(g).warning == Some(
            "The dApp marked some networks or actions as required — those won't be granted, so the dApp may refuse to continue."@,
        ),
        grant_card(g).footer == dropped_line(g.dropped_chains, g.dropped_methods),
{
}

/// The line beneath the card counts what falls away, in words that fit one and
/// many, and is absent where nothing does.
pub proof fn the_footer_counts_what_is_dropped(n: nat, m: nat)
    requires
        n > 1,
        m > 1,
    ensures
        ({
            let end = " the dApp asked for won't be granted."@;
            &&& dropped_line(0, 0) is None
            &&& dropped_line(1, 0) == Some(dec(1) + " other "@ + "network"@ + end)
            &&& dropped_line(n, 0) == Some(dec(n) + " other "@ + "networks"@ + end)
            &&& dropped_line(0, 1) == Some(dec(1) + " other "@ + "action"@ + end)
            &&& dropped_line(0, m) == Some(dec(m) + " other "@ + "actions"@ + end)
            &&& dropped_line(1, 1) == Some(
                dec(1) + " other "@ + "network"@ + " and "@ + (dec(1) + " other "@ + "action"@)
                    + end,
            )
            &&& dropped_line(n, m) == Some(
                dec(n) + " other "@ + "networks"@ + " and "@ + (dec(m) + " other "@ + "actions"@)
                    + end,
            )
            &&& dropped_line(n, 1) == Some(
                dec(n) + " other "@ + "networks"@ + " and "@ + (dec(1) + " other "@ + "action"@)
                    + end,
            )
            &&& dropped_line(1, m) == Some(
                dec(1) + " other "@ + "network"@ + " and "@ + (dec(m) + " other "@ + "actions"@)
                    + end,
            )
        }),
{
}

/// A peer is named as it names itself; one that does not is called unknown, and
/// one without an origin is said to have none.
pub proof fn a_peer_is_named(peer: PeerMetadata)
    ensures
        peer.name@.len() > 0 ==> peer_model(peer).name == peer.name@,
        peer.name@.len() == 0 ==> peer_model(peer).name == "Unknown dApp"@,
        peer.url@.len() > 0 ==> peer_model(peer).url == peer.url@,
        peer.url@.len() == 0 ==> peer_model(peer).url == "no origin"@,
{
}

/// The two buttons of a proposal answer that proposal: one approves it, the other
/// rejects it.
pub proof fn a_proposal_is_answered_by_its_buttons(
    p: UiProposal,
    total: nat,
    expanded: bool,
    supported: Seq<MethodModel>,
)
    ensures
        ({
            let card = proposal_model(p, total, expanded, supported);
            &&& card.approve == Message::WcApproveProposal(p.proposal_id)
            &&& card.reject == Message::WcRejectProposal(p.proposal_id)
            &&& card.peer == peer_model(p.peer)
            &&& card.grant == grant_card(grant(p.required@, p.optional@, supported))
            &&& expanded ==> card.details_label == "Hide details ▴"@ && card.details == Some(
                (asked_scopes(p.required@), asked_scopes(p.optional@)),
            )
            &&& !expanded ==> card.details_label == "Show details ▾"@ && card.details is None
            &&& total > 1 ==> card.badge == Some("1 of "@ + dec(total))
            &&& total <= 1 ==> card.badge is None
        }),
{
}

/// A request shows its method and its chain, and its two buttons answer it.
pub proof fn a_request_is_answered_by_its_buttons(r: UiRequest, total: nat)
    ensures
        ({
            let card = request_model(r, total);
            &&& card.approve == Message::WcApproveRequest(r.request_id)
            &&& card.reject == Message::WcRejectRequest(r.request_id)
            &&& card.peer == peer_model(r.peer)
            &&& card.method == "method · "@ + r.method@
            &&& card.chain == "chain · "@ + r.chain_id@
            &&& card.payload == payload(
                r.method@,
                json_items(r.params@),
                json_indented(r.params@),
                r.params@,
            )
            &&& total > 1 ==> card.badge == Some("1 of "@ + dec(total))
            &&& total <= 1 ==> card.badge is None
        }),
{
}

/// A request is titled by what it asks for, and the two that cannot be carried out
/// say so.
pub proof fn a_request_is_titled_by_its_method(r: UiRequest, total: nat)
    ensures
        ({
            let card = request_model(r, total);
            let m = r.method@;
            &&& m == "personal_sign"@ ==> card.title == "Sign message"@
            &&& m == "eth_signTypedData"@ ==> card.title == "Sign typed data"@
            &&& m == "eth_signTypedData_v4"@ ==> card.title == "Sign typed data"@
            &&& m == "eth_sendTransaction"@ ==> card.title == "Send transaction"@
            &&& m == "eth_signTransaction"@ ==> card.title == "Sign transaction"@
            &&& m != "personal_sign"@ && m != "eth_signTypedData"@ && m != "eth_signTypedData_v4"@
                && m != "eth_sendTransaction"@ && m != "eth_signTransaction"@ ==> card.title
                == "dApp request"@
            &&& m == "eth_sendTransaction"@ || m == "eth_signTransaction"@ ==> card.warning
                == Some(
                "Transactions can be reviewed here in a later release. Approve will reject this call back to the dApp with a not-implemented error."@,
            )
            &&& m != "eth_sendTransaction"@ && m != "eth_signTransaction"@ ==> card.warning is None
        }),
{
    lemma_method_labels();
}

proof fn lemma_method_labels()
    ensures
        "personal_sign"@ != "eth_signTypedData"@,
        "personal_sign"@ != "eth_signTypedData_v4"@,
        "personal_sign"@ != "eth_sendTransaction"@,
        "personal_sign"@ != "eth_signTransaction"@,
        "eth_signTypedData"@ != "eth_sendTransaction"@,
        "eth_signTypedData"@ != "eth_signTransaction"@,
        "eth_signTypedData_v4"@ != "eth_sendTransaction"@,
        "eth_signTypedData_v4"@ != "eth_signTransaction"@,
        "eth_sendTransaction"@ != "eth_signTransaction"@,
{
    reveal_strlit("personal_sign");
    reveal_strlit("eth_signTypedData");
    reveal_strlit("eth_signTypedData_v4");
    reveal_strlit("eth_sendTransaction");
    reveal_strlit("eth_signTransaction");
    assert("eth_sendTransaction"@[5] == 'e');
    assert("eth_signTransaction"@[5] == 'i');
    assert("personal_sign"@.len() == 13);
    assert("eth_signTypedData"@.len() == 17);
    assert("eth_signTypedData_v4"@.len() == 20);
    assert("eth_sendTransaction"@.len() == 19);
    assert("eth_signTransaction"@.len() == 19);
}

/// What is on screen is what waits first, with the count of all that wait; a click
/// beside it rejects exactly that, and where nothing waits nothing is shown.
pub proof fn what_waits_is_on_screen(wc: WcState, expanded: bool, supported: Seq<MethodModel>)
    ensures
        ({
            let (body, beside) = modal_model(wc, expanded, supported);
            &&& wc.current_modal matches Some(WcModal::Proposal(p)) ==> body == BodyModel::Proposal(
                proposal_model(p, wc.queue_len as nat, expanded, supported),
            ) && beside == Message::WcRejectProposal(p.proposal_id)
            &&& wc.current_modal matches Some(WcModal::Request(r)) ==> body == BodyModel::Request(
                request_model(r, wc.queue_len as nat),
            ) && beside == Message::WcRejectRequest(r.request_id)
            &&& wc.current_modal is None ==> body is Empty && beside == Message::WcDismissError
        }),
{
}

/// A scope is listed under its own key, with all its chains and all its methods;
/// an empty list is said to be empty in a proposal.
pub proof fn a_scope_lists_what_it_holds(ns: Seq<NamespaceModel>, i: int)
    requires
        0 <= i < ns.len(),
    ensures
        asked_scopes(ns).len() == ns.len(),
        settled_scopes(ns).len() == ns.len(),
        asked_scopes(ns)[i].key == ns[i].key,
        settled_scopes(ns)[i].key == ns[i].key,
        settled_scopes(ns)[i].chains == "chains: "@ + joined(ns[i].chains, ", "@),
        settled_scopes(ns)[i].methods == "methods: "@ + joined(ns[i].methods, ", "@),
        ns[i].chains.len() > 0 ==> asked_scopes(ns)[i].chains == "chains: "@ + joined(
            ns[i].chains,
            ", "@,
        ),
        ns[i].chains.len() == 0 ==> asked_scopes(ns)[i].chains == "chains: "@ + "(no chains)"@,
        ns[i].methods.len() > 0 ==> asked_scopes(ns)[i].methods == "methods: "@ + joined(
            ns[i].methods,
            ", "@,
        ),
        ns[i].methods.len() == 0 ==> asked_scopes(ns)[i].methods == "methods: "@
            + "(no methods)"@,
{
}

// ── what is signed ──────────────────────────────────────────────────

/// The message to sign is the text that is not an address; where both are or
/// neither is, it is the first.
pub proof fn the_message_is_not_the_address(a: Seq<char>, b: Seq<char>)
    ensures
        is_address_text(b) ==> signed_message(seq![Some(a), Some(b)]) == Some(readable(a)),
        !is_address_text(b) && is_address_text(a) ==> signed_message(seq![Some(a), Some(b)])
            == Some(readable(b)),
        !is_address_text(b) && !is_address_text(a) ==> signed_message(seq![Some(a), Some(b)])
            == Some(readable(a)),
{
}

/// A printed address reads as an address, in either case; a text of another length
/// or without its prefix does not, nor one with a character that is no digit.
pub proof fn only_an_address_reads_as_one(s: Seq<char>, a: Address, i: int)
    ensures
        is_address_text(a.hex_text()),
        is_address_text(s) ==> s.len() == 42 && s[0] == '0' && s[1] == 'x',
        s.len() != 42 ==> !is_address_text(s),
        2 <= i < s.len() && hex_value(s[i]) is None ==> !is_address_text(s),
        s.len() == 42 && s[0] == '0' && s[1] == 'x' && all_hex(s.skip(2)) ==> is_address_text(s),
{
    reveal_strlit("0x");
    lemma_hex_text(a.value(), 40);
    assert(a.hex_text().skip(2) =~= hex_fixed(a.value(), 40));
    if 2 <= i < s.len() && hex_value(s[i]) is None {
        assert(s.skip(2)[i - 2] == s[i]);
    }
}

proof fn lemma_hex_text(n: nat, width: nat)
    ensures
        hex_fixed(n, width).len() == width,
        all_hex(hex_fixed(n, width)),
    decreases width,
{
    if width > 0 {
        let init = hex_fixed(n / 16, (width - 1) as nat);
        lemma_hex_text(n / 16, (width - 1) as nat);
        let t = hex_fixed(n, width);
        assert forall|i: int| 0 <= i < t.len() implies hex_value(#[trigger] t[i]) is Some by {
            if i < init.len() {
                assert(t[i] == init[i]);
            }
        }
    }
}

/// A message that is not in hexadecimal is shown as it stands.
pub proof fn a_plain_message_is_shown_as_it_stands(raw: Seq<char>)
    ensures
        raw.len() < 2 || raw[0] != '0' || raw[1] != 'x' ==> readable(raw) == raw,
        raw.len() % 2 == 1 ==> readable(raw) == raw,
        raw.len() >= 2 && !all_hex(raw.skip(2)) ==> readable(raw) == raw,
{
}

/// A message in hexadecimal whose bytes are no text is shown in hexadecimal, with
/// the count of its bytes.
pub proof fn bytes_that_are_no_text_are_counted(b: Seq<u8>)
    requires
        !valid_utf8(b),
    ensures
        readable("0x"@ + hex_bytes(b)) == "0x"@ + hex_bytes(b) + " ("@ + dec(b.len())
            + " bytes)"@,
{
    reveal_strlit("0x");
    let raw = "0x"@ + hex_bytes(b);
    lemma_hex_round_trip(b);
    assert(raw.skip(2) =~= hex_bytes(b));
}

/// What is shown of a request is the message where it is one to sign, and else the
/// parameters: indented where they can be.
pub proof fn a_payload_is_the_message_or_the_parameters(
    method: Seq<char>,
    items: Option<Seq<Option<Seq<char>>>>,
    indented: Option<Seq<char>>,
    params: Seq<char>,
)
    ensures
        method == "personal_sign"@ ==> (items matches Some(list) ==> (signed_message(
            list,
        ) matches Some(m) ==> payload(method, items, indented, params) == PayloadModel::Message(
            m,
        ))),
        method != "personal_sign"@ || items is None || signed_message(items->0) is None ==> (
        indented matches Some(t) ==> payload(method, items, indented, params)
            == PayloadModel::Dump(t)) && (indented is None ==> payload(
            method,
            items,
            indented,
            params,
        ) == PayloadModel::Dump(params)),
{
}

// ── sessions ────────────────────────────────────────────────────────

/// What is left of a session is told in its two largest units from a day on, and
/// in its largest below.
pub proof fn what_is_left_is_told_in_units(
    now: nat,
    days: nat,
    hours: nat,
    minutes: nat,
    secs: nat,
)
    requires
        hours < 24,
        minutes < 60,
        secs < 60,
    ensures
        ({
            let end = now + 86_400 * days + 3600 * hours + 60 * minutes + secs;
            let text = remaining_text(now, end);
            &&& days > 0 && hours > 0 ==> text == "in "@ + dec(days) + "d "@ + dec(hours) + "h"@
            &&& days > 0 && hours == 0 ==> text == "in "@ + dec(days) + "d"@
            &&& days == 0 && hours > 0 ==> text == "in "@ + dec(hours) + "h"@
            &&& days == 0 && hours == 0 && minutes > 0 ==> text == "in "@ + dec(minutes) + "m"@
            &&& days == 0 && hours == 0 && minutes == 0 && secs > 0 ==> text == "in "@ + dec(secs)
                + "s"@
            &&& days == 0 && hours == 0 && minutes == 0 && secs == 0 ==> text == "expired"@
        }),
{
    let left = 86_400 * days + 3600 * hours + 60 * minutes + secs;
    let day = 3600 * hours + 60 * minutes + secs;
    assert(left == 86_400 * days + day);
    assert(day < 86_400);
    assert(left / 86_400 == days);
    assert(left % 86_400 == day);
    assert(day / 3600 == hours);
}

/// Every session has a row of its own, and the button of that row ends that
/// session.
pub proof fn each_session_ends_by_its_own_button(s: Seq<UiSession>, now: nat, i: int)
    requires
        0 <= i < s.len(),
    ensures
        session_models(s, now).len() == s.len(),
        session_models(s, now)[i].disconnect == Message::WcDisconnectSession(s[i].topic),
        session_models(s, now)[i].peer == peer_model(s[i].peer),
        session_models(s, now)[i].scopes == settled_scopes(s[i].namespaces@),
        session_models(s, now)[i].expiry == "expires "@ + remaining_text(
            now,
            s[i].expiry as nat,
        ),
{
}

/// The state of the connection is told: an error first, and else what the relay is
/// doing and how many sessions there are.
pub proof fn the_connection_tells_its_state(wc: WcState)
    ensures
        ({
            let card = paste_model(wc);
            &&& card.submit == Message::WcSubmitUri
            &&& wc.last_error matches Some(e) ==> card.status == "WalletConnect · "@ + ("⚠ "@ + e@)
                && card.tone == Tone::Bad && card.dismiss == Some(Message::WcDismissError)
            &&& wc.last_error is None ==> card.dismiss is None
            &&& wc.last_error is None && wc.status is Idle ==> card.status == "WalletConnect · "@
                + "idle"@ && card.tone == Tone::Quiet
            &&& wc.last_error is None && wc.status is Connecting ==> card.status
                == "WalletConnect · "@ + "connecting…"@ && card.tone == Tone::Busy
            &&& wc.last_error is None && wc.status is Connected && wc.sessions@.len() == 0
                ==> card.status == "WalletConnect · "@ + "relay connected · no sessions yet"@
                && card.tone == Tone::Quiet
            &&& wc.last_error is None && wc.status is Connected && wc.sessions@.len() > 0
                ==> card.status == "WalletConnect · "@ + ("relay connected · "@ + dec(
                wc.sessions@.len(),
            ) + " session(s)"@) && card.tone == Tone::Quiet
            &&& wc.last_error is None ==> (wc.status matches WcStatus::Failed(e) ==> card.status
                == "WalletConnect · "@ + ("failed: "@ + e@) && card.tone == Tone::Bad)
        }),
{
}

} // verus!

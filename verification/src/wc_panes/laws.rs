//! What holds of every connection.

use vstd::prelude::*;
use vstd::utf8::encode_utf8;
use vstd::utf8::encode_utf8_decode_utf8;
use vstd::utf8::encode_utf8_valid_utf8;

use crate::chain::Chain;
use crate::text::all_hex;
use crate::text::dec;
use crate::text::hex_bytes;
use crate::text::hex_digit;
use crate::text::hex_value;
use crate::text::lemma_sorted_texts_differ;
use crate::text::sorts_before;
use crate::wc_panes::body::asked_scopes;
use crate::wc_panes::body::dropped_line;
use crate::wc_panes::body::modal_model;
use crate::wc_panes::body::BodyModel;
use crate::wc_panes::grant::any_unknown;
use crate::wc_panes::grant::asked_chains;
use crate::wc_panes::grant::asked_methods;
use crate::wc_panes::grant::caip;
use crate::wc_panes::grant::chain_labels;
use crate::wc_panes::grant::dropped;
use crate::wc_panes::grant::grant;
use crate::wc_panes::grant::ids;
use crate::wc_panes::grant::known_chains;
use crate::wc_panes::grant::method_labels;
use crate::wc_panes::payload::hex_pairs;
use crate::wc_panes::payload::is_address_text;
use crate::wc_panes::payload::readable;
use crate::wc_panes::payload::signed_message;
use crate::wc_panes::scopes::in_key_order;
use crate::wc_panes::sessions::remaining_text;
use crate::wc_panes::MethodModel;
use crate::wc_panes::NamespaceModel;
use crate::wc_panes::WcState;
use crate::wc_panes::sessions::settled_scopes;

pub mod granted;
pub mod views;

verus! {

/// A scope the wallet does not speak changes nothing, wherever it stands: it is
/// neither granted nor counted.
pub proof fn foreign_scopes_are_ignored(
    required: Seq<NamespaceModel>,
    optional: Seq<NamespaceModel>,
    supported: Seq<MethodModel>,
    foreign: NamespaceModel,
    i: int,
)
    requires
        foreign.key != "eip155"@,
    ensures
        0 <= i <= required.len() ==> grant(required.insert(i, foreign), optional, supported)
            == grant(required, optional, supported),
        0 <= i <= optional.len() ==> grant(required, optional.insert(i, foreign), supported)
            == grant(required, optional, supported),
{
    if 0 <= i <= required.len() {
        lemma_foreign_scope(required, foreign, i);
    }
    if 0 <= i <= optional.len() {
        lemma_foreign_scope(optional, foreign, i);
    }
}

proof fn lemma_foreign_scope(ns: Seq<NamespaceModel>, foreign: NamespaceModel, i: int)
    requires
        foreign.key != "eip155"@,
        0 <= i <= ns.len(),
    ensures
        asked_chains(ns.insert(i, foreign)) == asked_chains(ns),
        asked_methods(ns.insert(i, foreign)) == asked_methods(ns),
    decreases ns.len(),
{
    let more = ns.insert(i, foreign);
    if i == ns.len() {
        assert(more.drop_last() =~= ns);
    } else {
        assert(more.last() == ns.last());
        assert(more.drop_last() =~= ns.drop_last().insert(i, foreign));
        lemma_foreign_scope(ns.drop_last(), foreign, i);
    }
}

/// At most one scope is the wallet's own, and what it asks for is all that is
/// asked for.
pub proof fn one_scope_is_read(ns: Seq<NamespaceModel>)
    requires
        in_key_order(ns),
    ensures
        forall|i: int|
            0 <= i < ns.len() && (#[trigger] ns[i]).key == "eip155"@ ==> asked_chains(ns)
                == ns[i].chains && asked_methods(ns) == ns[i].methods,
        (forall|i: int| 0 <= i < ns.len() ==> (#[trigger] ns[i]).key != "eip155"@) ==> asked_chains(
            ns,
        ).len() == 0 && asked_methods(ns).len() == 0,
    decreases ns.len(),
{
    if ns.len() > 0 {
        let init = ns.drop_last();
        assert forall|i: int, j: int| 0 <= i < j < init.len() implies sorts_before(
            (#[trigger] init[i]).key,
            (#[trigger] init[j]).key,
        ) by {
            assert(init[i] == ns[i] && init[j] == ns[j]);
        }
        one_scope_is_read(init);
        assert forall|i: int| 0 <= i < init.len() implies (#[trigger] init[i]) == ns[i]
            && init[i].key != ns.last().key by {
            assert(sorts_before(ns[i].key, ns[ns.len() - 1].key));
            lemma_sorted_texts_differ(ns[i].key, ns.last().key);
        }
        if ns.last().key == "eip155"@ {
            assert(asked_chains(ns) =~= ns.last().chains);
            assert(asked_methods(ns) =~= ns.last().methods);
        }
        assert forall|i: int| 0 <= i < ns.len() && (
        #[trigger] ns[i]).key == "eip155"@ implies asked_chains(ns) == ns[i].chains
            && asked_methods(ns) == ns[i].methods by {
            if i < init.len() {
                assert(init[i] == ns[i]);
            }
        }
    }
}

/// Scopes are shown in the order of their keys, each key once.
pub proof fn scopes_are_shown_by_key(ns: Seq<NamespaceModel>, i: int, j: int)
    requires
        in_key_order(ns),
        0 <= i < j < ns.len(),
    ensures
        sorts_before(asked_scopes(ns)[i].key, asked_scopes(ns)[j].key),
        asked_scopes(ns)[i].key != asked_scopes(ns)[j].key,
        sorts_before(settled_scopes(ns)[i].key, settled_scopes(ns)[j].key),
        settled_scopes(ns)[i].key != settled_scopes(ns)[j].key,
{
    lemma_sorted_texts_differ(ns[i].key, ns[j].key);
}

/// Whether two lists hold the same things.
pub open spec fn same_things(a: Seq<Seq<char>>, b: Seq<Seq<char>>) -> bool {
    forall|x: Seq<char>| a.contains(x) == b.contains(x)
}

/// What is granted and what is dropped depends on what was asked for, not on how
/// often or in which order.
pub proof fn repetitions_count_once(
    a: Seq<Seq<char>>,
    b: Seq<Seq<char>>,
    chains: Seq<Chain>,
    supported: Seq<MethodModel>,
    known: Seq<Seq<char>>,
)
    requires
        same_things(a, b),
    ensures
        chain_labels(chains, a) == chain_labels(chains, b),
        method_labels(supported, a) == method_labels(supported, b),
        dropped(a, known) == dropped(b, known),
{
    assert forall|x: Seq<char>| a.to_set().contains(x) == b.to_set().contains(x) by {
        assert(a.contains(x) == b.contains(x));
    }
    assert(a.to_set() =~= b.to_set());
    lemma_same_chains(a, b, chains);
    lemma_same_methods(a, b, supported);
}

proof fn lemma_same_chains(a: Seq<Seq<char>>, b: Seq<Seq<char>>, chains: Seq<Chain>)
    requires
        same_things(a, b),
    ensures
        chain_labels(chains, a) == chain_labels(chains, b),
    decreases chains.len(),
{
    if chains.len() > 0 {
        lemma_same_chains(a, b, chains.drop_last());
        assert(a.contains(caip(chains.last())) == b.contains(caip(chains.last())));
    }
}

proof fn lemma_same_methods(a: Seq<Seq<char>>, b: Seq<Seq<char>>, supported: Seq<MethodModel>)
    requires
        same_things(a, b),
    ensures
        method_labels(supported, a) == method_labels(supported, b),
    decreases supported.len(),
{
    if supported.len() > 0 {
        lemma_same_methods(a, b, supported.drop_last());
        assert(a.contains(supported.last().id) == b.contains(supported.last().id));
    }
}

/// Whatever the dapp asked for is either known to the wallet or counted as
/// dropped, and nothing is counted twice.
pub proof fn everything_asked_for_is_accounted_for(asked: Seq<Seq<char>>, known: Seq<Seq<char>>)
    ensures
        asked.to_set().len() == asked.to_set().intersect(known.to_set()).len() + dropped(
            asked,
            known,
        ),
{
    let a = asked.to_set();
    let k = known.to_set();
    vstd::seq_lib::seq_to_set_is_finite(asked);
    lemma_split(a, k);
}

proof fn lemma_split(a: Set<Seq<char>>, k: Set<Seq<char>>)
    requires
        a.finite(),
    ensures
        a.len() == a.intersect(k).len() + a.difference(k).len(),
{
    vstd::set_lib::lemma_set_disjoint_lens(a.intersect(k), a.difference(k));
    assert(a.intersect(k) + a.difference(k) =~= a);
}

/// The names of those chains that were asked for, as `chain_labels` picks them.
spec fn picked(chains: Seq<Chain>, asked: Seq<Seq<char>>) -> Seq<Seq<char>>
    decreases chains.len(),
{
    if chains.len() == 0 {
        seq![]
    } else if asked.contains(caip(chains.last())) {
        picked(chains.drop_last(), asked).push(caip(chains.last()))
    } else {
        picked(chains.drop_last(), asked)
    }
}

/// The chains that are picked are those asked for, each once.
proof fn lemma_picked(chains: Seq<Chain>, asked: Seq<Seq<char>>)
    requires
        chains.map_values(|c: Chain| caip(c)).no_duplicates(),
    ensures
        picked(chains, asked).len() == chain_labels(chains, asked).len(),
        picked(chains, asked).no_duplicates(),
        picked(chains, asked).to_set() == asked.to_set().intersect(
            chains.map_values(|c: Chain| caip(c)).to_set(),
        ),
    decreases chains.len(),
{
    let names = chains.map_values(|c: Chain| caip(c));
    if chains.len() > 0 {
        let init = chains.drop_last();
        let names0 = init.map_values(|c: Chain| caip(c));
        let name = caip(chains.last());
        assert(names =~= names0.push(name));
        assert forall|i: int, j: int|
            0 <= i < names0.len() && 0 <= j < names0.len() && i != j implies names0[i]
            != names0[j] by {
            assert(names[i] != names[j]);
        }
        assert(!names0.contains(name)) by {
            if names0.contains(name) {
                let k = choose|k: int| 0 <= k < names0.len() && names0[k] == name;
                assert(names[k] == names[names.len() - 1]);
            }
        }
        lemma_picked(init, asked);
        names0.lemma_push_to_set_commute(name);
        picked(init, asked).lemma_push_to_set_commute(name);
        if asked.contains(name) {
            assert(!picked(init, asked).to_set().contains(name));
            assert(!picked(init, asked).contains(name));
        }
        assert(picked(chains, asked).to_set() =~= asked.to_set().intersect(names.to_set()));
    } else {
        assert(picked(chains, asked).to_set() =~= asked.to_set().intersect(names.to_set()));
    }
}

/// The built-in chains have different names.
proof fn lemma_names_differ()
    ensures
        known_chains().no_duplicates(),
{
    reveal_with_fuel(dec, 5);
    reveal_strlit("eip155:");
    let k = known_chains();
    assert(k[0].len() == 8);
    assert(k[1].len() == 11);
    assert(k[2].len() == 9);
}

/// Of the networks a dapp asks for, each counted once, those on the card and
/// those that fall away make up all.
pub proof fn granted_and_dropped_networks_add_up(asked: Seq<Seq<char>>)
    ensures
        asked.to_set().len() == chain_labels(Chain::all_chains(), asked).len() + dropped(
            asked,
            known_chains(),
        ),
{
    lemma_names_differ();
    lemma_picked(Chain::all_chains(), asked);
    picked(Chain::all_chains(), asked).unique_seq_to_set();
    everything_asked_for_is_accounted_for(asked, known_chains());
}

/// Something required is not granted only if something is dropped, so the
/// warning never stands without the line that counts.
pub proof fn a_missing_requirement_is_counted(
    required: Seq<NamespaceModel>,
    optional: Seq<NamespaceModel>,
    supported: Seq<MethodModel>,
)
    ensures
        ({
            let g = grant(required, optional, supported);
            g.required_dropped ==> dropped_line(g.dropped_chains, g.dropped_methods) is Some
        }),
{
    let chains = asked_chains(required) + asked_chains(optional);
    let methods = asked_methods(required) + asked_methods(optional);
    if any_unknown(asked_chains(required), known_chains()) {
        lemma_unknown_is_dropped(asked_chains(required), asked_chains(optional), known_chains());
    }
    if any_unknown(asked_methods(required), ids(supported)) {
        lemma_unknown_is_dropped(
            asked_methods(required),
            asked_methods(optional),
            ids(supported),
        );
    }
}

proof fn lemma_unknown_is_dropped(
    required: Seq<Seq<char>>,
    optional: Seq<Seq<char>>,
    known: Seq<Seq<char>>,
)
    requires
        any_unknown(required, known),
    ensures
        dropped(required + optional, known) > 0,
{
    let all = required + optional;
    let i = choose|i: int| 0 <= i < required.len() && !known.contains(#[trigger] required[i]);
    assert(all[i] == required[i]);
    vstd::seq_lib::seq_to_set_is_finite(all);
    assert(all.to_set().difference(known.to_set()).contains(required[i]));
    if dropped(all, known) == 0 {
        assert(all.to_set().difference(known.to_set()) =~= Set::empty());
    }
}

/// Every verb on the card is that of a supported method the dapp asked for, and
/// no verb is there twice.
pub proof fn only_supported_methods_are_granted(
    supported: Seq<MethodModel>,
    asked: Seq<Seq<char>>,
)
    ensures
        method_labels(supported, asked).no_duplicates(),
        forall|i: int|
            0 <= i < method_labels(supported, asked).len() ==> exists|k: int|
                0 <= k < supported.len() && asked.contains((#[trigger] supported[k]).id)
                    && supported[k].label == Some(#[trigger] method_labels(supported, asked)[i]),
    decreases supported.len(),
{
    if supported.len() > 0 {
        let init = supported.drop_last();
        only_supported_methods_are_granted(init, asked);
        let labels = method_labels(supported, asked);
        let rest = method_labels(init, asked);
        assert forall|i: int| 0 <= i < labels.len() implies exists|k: int|
            0 <= k < supported.len() && asked.contains((#[trigger] supported[k]).id)
                && supported[k].label == Some(#[trigger] labels[i]) by {
            if i < rest.len() {
                let k = choose|k: int|
                    0 <= k < init.len() && asked.contains((#[trigger] init[k]).id)
                        && init[k].label == Some(rest[i]);
                assert(supported[k] == init[k]);
            } else {
                assert(supported[supported.len() - 1].label == Some(labels[i]));
            }
        }
    }
}

/// A click beside the modal answers the dapp: it rejects what is on screen.
pub proof fn a_click_beside_the_modal_rejects(
    wc: WcState,
    expanded: bool,
    supported: Seq<MethodModel>,
)
    ensures
        match modal_model(wc, expanded, supported).0 {
            BodyModel::Proposal(p) => modal_model(wc, expanded, supported).1 == p.reject,
            BodyModel::Request(r) => modal_model(wc, expanded, supported).1 == r.reject,
            BodyModel::Empty => true,
        },
{
}

/// A message and the address that signs it may come in either order.
pub proof fn either_order_reads_the_same(message: Seq<char>, address: Seq<char>)
    requires
        is_address_text(address),
        !is_address_text(message),
    ensures
        signed_message(seq![Some(message), Some(address)]) == signed_message(
            seq![Some(address), Some(message)],
        ),
        signed_message(seq![Some(message), Some(address)]) == Some(readable(message)),
{
}

/// A digit and its value.
proof fn lemma_hex_digit(d: int)
    requires
        0 <= d < 16,
    ensures
        hex_value(hex_digit(d)) == Some(d as nat),
{
}

/// Two digits for each byte give back the bytes.
proof fn lemma_hex_round_trip(b: Seq<u8>)
    ensures
        hex_bytes(b).len() == 2 * b.len(),
        all_hex(hex_bytes(b)),
        hex_pairs(hex_bytes(b)) == b,
    decreases b.len(),
{
    if b.len() > 0 {
        let init = b.drop_last();
        lemma_hex_round_trip(init);
        let h = hex_bytes(b);
        let hi = (b.last() / 16) as int;
        let lo = (b.last() % 16) as int;
        lemma_hex_digit(hi);
        lemma_hex_digit(lo);
        assert(h[h.len() - 2] == hex_digit(hi));
        assert(h[h.len() - 1] == hex_digit(lo));
        assert forall|i: int| 0 <= i < h.len() implies hex_value(#[trigger] h[i]) is Some by {
            if i < h.len() - 2 {
                assert(h[i] == hex_bytes(init)[i]);
            }
        }
        assert forall|i: int| 0 <= i < b.len() implies #[trigger] hex_pairs(h)[i] == b[i] by {
            if i < b.len() - 1 {
                assert(h[2 * i] == hex_bytes(init)[2 * i]);
                assert(h[2 * i + 1] == hex_bytes(init)[2 * i + 1]);
                assert(hex_pairs(hex_bytes(init))[i] == init[i]);
            }
        }
        assert(hex_pairs(h) =~= b);
    } else {
        assert(hex_pairs(hex_bytes(b)) =~= b);
    }
}

/// A text sent as the hexadecimal form of its bytes is shown as that text.
pub proof fn a_text_in_hexadecimal_is_read_back(text: Seq<char>)
    ensures
        readable("0x"@ + hex_bytes(encode_utf8(text))) == text,
{
    let b = encode_utf8(text);
    reveal_strlit("0x");
    lemma_hex_round_trip(b);
    encode_utf8_valid_utf8(text);
    encode_utf8_decode_utf8(text);
    let raw = "0x"@ + hex_bytes(b);
    assert(raw.skip(2) =~= hex_bytes(b));
}

/// A session has expired exactly when its end is not ahead.
pub proof fn only_past_sessions_have_expired(now: nat, expiry: nat)
    ensures
        (remaining_text(now, expiry) == "expired"@) == (expiry <= now),
{
    reveal_strlit("expired");
    reveal_strlit("in ");
    if expiry > now {
        assert(remaining_text(now, expiry)[1] == "in "@[1]);
    }
}

} // verus!

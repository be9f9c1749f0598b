//! The scopes of a proposal or of a session, by their keys.

use vstd::prelude::*;

use crate::text::lemma_sorted_texts_differ;
use crate::text::lemma_sorting_is_total;
use crate::text::lemma_sorting_is_transitive;
use crate::text::models;
use crate::text::none_of;
use crate::text::precedes;
use crate::text::replicate;
use crate::text::same_text;
use crate::text::sorts_before;
use crate::wc_panes::Namespace;
use crate::wc_panes::NamespaceModel;

verus! {

/// Whether scopes are in the order of their keys, which are then distinct.
pub open spec fn in_key_order(ns: Seq<NamespaceModel>) -> bool {
    forall|i: int, j: int|
        0 <= i < j < ns.len() ==> sorts_before((#[trigger] ns[i]).key, (#[trigger] ns[j]).key)
}

/// Scopes, each under a key of its own, in the order of their keys.
#[derive(Debug, PartialEq, Eq)]
pub struct Scopes {
    list: Vec<Namespace>,
}

impl Clone for Scopes {
    fn clone(&self) -> (r: Self)
        ensures
            r@ == self@,
    {
        proof {
            use_type_invariant(self);
        }
        Scopes { list: replicate(&self.list) }
    }
}

impl View for Scopes {
    type V = Seq<NamespaceModel>;

    closed spec fn view(&self) -> Seq<NamespaceModel> {
        models(self.list@)
    }
}

/// Where a key stands among ordered scopes, or would stand.
fn place_of(list: &Vec<Namespace>, key: &str) -> (i: usize)
    requires
        in_key_order(models(list@)),
    ensures
        i <= list@.len(),
        forall|k: int| 0 <= k < i ==> sorts_before((#[trigger] models(list@)[k]).key, key@),
        i < list@.len() ==> !sorts_before(models(list@)[i as int].key, key@),
{
    let mut i: usize = 0;
    while i < list.len() && precedes(list[i].key.as_str(), key)
        invariant
            i <= list@.len(),
            forall|k: int| 0 <= k < i ==> sorts_before((#[trigger] models(list@)[k]).key, key@),
        decreases list@.len() - i,
    {
        proof {
            assert(models(list@)[i as int].key == list@[i as int].key@);
        }
        i = i + 1;
    }
    i
}

/// A scope put where it belongs: the ones before sort before it, the ones after
/// it sort after it.
proof fn lemma_placed(
    front: Seq<NamespaceModel>,
    scope: NamespaceModel,
    back: Seq<NamespaceModel>,
)
    requires
        in_key_order(front + back),
        forall|k: int| 0 <= k < front.len() ==> sorts_before((#[trigger] front[k]).key, scope.key),
        back.len() > 0 ==> sorts_before(scope.key, back[0].key),
    ensures
        in_key_order(front.push(scope) + back),
{
    let old_list = front + back;
    let new_list = front.push(scope) + back;
    let n = front.len();
    assert forall|i: int, j: int| 0 <= i < j < new_list.len() implies sorts_before(
        (#[trigger] new_list[i]).key,
        (#[trigger] new_list[j]).key,
    ) by {
        let a = if i < n {
            i
        } else {
            i - 1
        };
        let b = if j < n {
            j
        } else {
            j - 1
        };
        if i != n && j != n {
            assert(new_list[i] == old_list[a] && new_list[j] == old_list[b]);
        } else if j == n {
            assert(new_list[i] == front[i]);
        } else {
            assert(new_list[j] == back[j - n - 1]);
            if j > n + 1 {
                assert(old_list[n as int] == back[0] && old_list[j - 1] == back[j - n - 1]);
                lemma_sorting_is_transitive(scope.key, back[0].key, back[j - n - 1].key);
            }
        }
    }
}

impl Scopes {
    #[verifier::type_invariant]
    spec fn ordered(self) -> bool {
        in_key_order(models(self.list@))
    }

    /// No scopes.
    pub fn new() -> (r: Self)
        ensures
            r@ == Seq::<NamespaceModel>::empty(),
    {
        Scopes { list: none_of() }
    }

    /// The scopes, in the order of their keys.
    pub fn list(&self) -> (r: &Vec<Namespace>)
        ensures
            models(r@) == self@,
            in_key_order(self@),
    {
        proof {
            use_type_invariant(self);
        }
        &self.list
    }

    /// Adds a scope, in place of one under the same key.
    pub fn insert(&mut self, scope: Namespace)
        ensures
            in_key_order(final(self)@),
            forall|x: NamespaceModel|
                final(self)@.contains(x) == (x == scope@ || (old(self)@.contains(x) && x.key
                    != scope@.key)),
    {
        proof {
            use_type_invariant(&*self);
        }
        let mut list: Vec<Namespace> = none_of();
        std::mem::swap(&mut list, &mut self.list);
        let ghost before = models(list@);
        let ghost added = scope@;
        let i: usize = place_of(&list, scope.key.as_str());
        let taken: bool = i < list.len() && same_text(list[i].key.as_str(), scope.key.as_str());
        if taken {
            list.remove(i);
        }
        let ghost kept = models(list@);
        list.insert(i, scope);
        proof {
            let front = before.take(i as int);
            let back = if taken {
                before.skip(i + 1)
            } else {
                before.skip(i as int)
            };
            assert(kept =~= front + back);
            assert(models(list@) =~= front.push(added) + back);
            assert forall|a: int, b: int| 0 <= a < b < kept.len() implies sorts_before(
                (#[trigger] kept[a]).key,
                (#[trigger] kept[b]).key,
            ) by {
                let x = if a < i || !taken {
                    a
                } else {
                    a + 1
                };
                let y = if b < i || !taken {
                    b
                } else {
                    b + 1
                };
                assert(kept[a] == before[x] && kept[b] == before[y]);
            }
            if back.len() > 0 {
                if taken {
                    assert(before[i as int].key == added.key);
                    assert(back[0] == before[i + 1]);
                } else {
                    assert(back[0] == before[i as int]);
                    lemma_sorting_is_total(before[i as int].key, added.key);
                }
            }
            lemma_placed(front, added, back);
        }
        self.list = list;
        proof {
            assert forall|x: NamespaceModel| self@.contains(x) == (x == added || (old(
                self,
            )@.contains(x) && x.key != added.key)) by {
                lemma_contents(before, i as int, taken, added, x);
            }
        }
    }
}

/// What ordered scopes hold once one of them is put in its place.
proof fn lemma_contents(
    before: Seq<NamespaceModel>,
    i: int,
    taken: bool,
    added: NamespaceModel,
    x: NamespaceModel,
)
    requires
        in_key_order(before),
        0 <= i <= before.len(),
        forall|k: int| 0 <= k < i ==> sorts_before((#[trigger] before[k]).key, added.key),
        i < before.len() ==> !sorts_before(before[i].key, added.key),
        taken == (i < before.len() && before[i].key == added.key),
    ensures
        ({
            let back = if taken {
                before.skip(i + 1)
            } else {
                before.skip(i)
            };
            (before.take(i).push(added) + back).contains(x) == (x == added || (before.contains(x)
                && x.key != added.key))
        }),
{
    let front = before.take(i);
    let back = if taken {
        before.skip(i + 1)
    } else {
        before.skip(i)
    };
    let shift: int = if taken {
        0
    } else {
        1
    };
    let whole = front.push(added) + back;
    assert forall|k: int| 0 <= k < before.len() && (k != i || !taken) implies (
    #[trigger] before[k]).key != added.key by {
        if k < i {
            lemma_sorted_texts_differ(before[k].key, added.key);
        } else if taken {
            lemma_sorted_texts_differ(before[i].key, before[k].key);
        } else if k == i {
        } else {
            lemma_sorting_is_total(before[i].key, added.key);
            lemma_sorting_is_transitive(added.key, before[i].key, before[k].key);
            lemma_sorted_texts_differ(added.key, before[k].key);
        }
    }
    if whole.contains(x) {
        let k = choose|k: int| 0 <= k < whole.len() && whole[k] == x;
        if k < i {
            assert(before[k] == x);
        } else if k > i {
            assert(before[k - shift] == x);
        }
    }
    if x == added {
        assert(whole[i] == x);
    }
    if before.contains(x) && x.key != added.key {
        let k = choose|k: int| 0 <= k < before.len() && before[k] == x;
        if k < i {
            assert(whole[k] == x);
        } else {
            assert(whole[k + shift] == x);
        }
    }
}

} // verus!

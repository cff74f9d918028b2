//! Lists of records that are found by their identity.
//!
//! The store keeps each kind of record in a list. Adding a record first takes
//! out every record of the same identity and then appends the new one, so a
//! list that is only ever changed through [`upsert`] and [`remove_key`] holds
//! each identity at most once, the records in the order in which they were
//! last written.

use crate::models::Command;
use crate::models::CommandView;
use crate::models::ExecutionResult;
use crate::models::ExecutionResultView;
use crate::models::Host;
use crate::models::HostView;
use crate::models::Workflow;
use crate::models::WorkflowView;
use vstd::prelude::*;

verus! {

/// A record with an identity that can be read off its view.
pub trait Record: DeepView + Sized {
    /// The identity of a record, given its view.
    spec fn key_of(v: Self::V) -> u128;

    fn key(&self) -> (k: u128)
        ensures
            k == Self::key_of(self.deep_view()),
    ;

    fn duplicate(&self) -> (copy: Self)
        ensures
            copy.deep_view() == self.deep_view(),
    ;
}

impl Record for Command {
    open spec fn key_of(v: CommandView) -> u128 {
        v.id
    }

    fn key(&self) -> (k: u128) {
        self.id
    }

    fn duplicate(&self) -> (copy: Self) {
        self.clone()
    }
}

impl Record for Workflow {
    open spec fn key_of(v: WorkflowView) -> u128 {
        v.id
    }

    fn key(&self) -> (k: u128) {
        self.id
    }

    fn duplicate(&self) -> (copy: Self) {
        self.clone()
    }
}

impl Record for Host {
    open spec fn key_of(v: HostView) -> u128 {
        v.id
    }

    fn key(&self) -> (k: u128) {
        self.id
    }

    fn duplicate(&self) -> (copy: Self) {
        self.clone()
    }
}

impl Record for ExecutionResult {
    open spec fn key_of(v: ExecutionResultView) -> u128 {
        v.id
    }

    fn key(&self) -> (k: u128) {
        self.id
    }

    fn duplicate(&self) -> (copy: Self) {
        self.clone()
    }
}

/// The records whose identity is `key`.
pub open spec fn has_key<R: Record>(key: u128) -> spec_fn(R::V) -> bool {
    |v: R::V| R::key_of(v) == key
}

/// The records whose identity is not `key`.
pub open spec fn lacks_key<R: Record>(key: u128) -> spec_fn(R::V) -> bool {
    |v: R::V| R::key_of(v) != key
}

/// `s` without the records of identity `key`; the others keep their order.
pub open spec fn without<R: Record>(s: Seq<R::V>, key: u128) -> Seq<R::V> {
    s.filter(lacks_key::<R>(key))
}

/// `s` after `v` was written to it: the records of the same identity are
/// gone and `v` stands at the end.
pub open spec fn upserted<R: Record>(s: Seq<R::V>, v: R::V) -> Seq<R::V> {
    without::<R>(s, R::key_of(v)).push(v)
}

/// The first record of identity `key` in `s`, if there is one.
pub open spec fn lookup<R: Record>(s: Seq<R::V>, key: u128) -> Option<R::V> {
    let found = s.filter(has_key::<R>(key));
    if found.len() > 0 {
        Some(found[0])
    } else {
        None
    }
}

/// Whether each identity occurs at most once in `s`.
pub open spec fn keys_distinct<R: Record>(s: Seq<R::V>) -> bool {
    forall|i: int, j: int|
        0 <= i < j < s.len() ==> R::key_of(#[trigger] s[i]) != R::key_of(#[trigger] s[j])
}

/// A filter keeps nothing of a sequence in which no element passes.
pub proof fn lemma_filter_none<A>(s: Seq<A>, p: spec_fn(A) -> bool)
    requires
        forall|i: int| 0 <= i < s.len() ==> !p(#[trigger] s[i]),
    ensures
        s.filter(p) == Seq::<A>::empty(),
    decreases s.len(),
{
    reveal(Seq::filter);
    if s.len() > 0 {
        assert forall|i: int| 0 <= i < s.drop_last().len() implies !p(
            #[trigger] s.drop_last()[i],
        ) by {
            assert(s.drop_last()[i] == s[i]);
        }
        lemma_filter_none(s.drop_last(), p);
    }
}

/// A filter keeps the whole of a sequence in which every element passes.
pub proof fn lemma_filter_all<A>(s: Seq<A>, p: spec_fn(A) -> bool)
    requires
        forall|i: int| 0 <= i < s.len() ==> p(#[trigger] s[i]),
    ensures
        s.filter(p) == s,
    decreases s.len(),
{
    reveal(Seq::filter);
    if s.len() > 0 {
        assert forall|i: int| 0 <= i < s.drop_last().len() implies p(
            #[trigger] s.drop_last()[i],
        ) by {
            assert(s.drop_last()[i] == s[i]);
        }
        lemma_filter_all(s.drop_last(), p);
        assert(s.drop_last().push(s.last()) == s);
    }
}

/// Where the element at `i` is the first that passes, the filtered sequence
/// starts with it.
pub proof fn lemma_filter_first<A>(s: Seq<A>, p: spec_fn(A) -> bool, i: int)
    requires
        0 <= i < s.len(),
        p(s[i]),
        forall|j: int| 0 <= j < i ==> !p(#[trigger] s[j]),
    ensures
        s.filter(p).len() > 0,
        s.filter(p)[0] == s[i],
{
    let head = s.take(i);
    let tail = s.skip(i + 1);
    assert(s == head + (seq![s[i]] + tail));
    Seq::filter_distributes_over_add(head, seq![s[i]] + tail, p);
    lemma_filter_none(head, p);
    tail.lemma_filter_prepend(s[i], p);
}

/// Every record of `without(s, key)` has another identity than `key`.
pub proof fn lemma_without_lacks<R: Record>(s: Seq<R::V>, key: u128)
    ensures
        forall|i: int|
            0 <= i < without::<R>(s, key).len() ==> R::key_of(
                #[trigger] without::<R>(s, key)[i],
            ) != key,
{
    #[allow(deprecated)]
    s.filter_lemma(lacks_key::<R>(key));
}

/// After a record was written, it is the only one of its identity.
pub proof fn lemma_upserted_once<R: Record>(s: Seq<R::V>, v: R::V)
    ensures
        upserted::<R>(s, v).filter(has_key::<R>(R::key_of(v))) == seq![v],
        lookup::<R>(upserted::<R>(s, v), R::key_of(v)) == Some(v),
{
    let key = R::key_of(v);
    let rest = without::<R>(s, key);
    lemma_without_lacks::<R>(s, key);
    lemma_filter_none(rest, has_key::<R>(key));
    rest.lemma_filter_push(v, has_key::<R>(key));
    assert(Seq::<R::V>::empty().push(v) == seq![v]);
}

/// Writing a record does not change what is found under another identity.
pub proof fn lemma_upserted_elsewhere<R: Record>(s: Seq<R::V>, v: R::V, key: u128)
    requires
        key != R::key_of(v),
    ensures
        upserted::<R>(s, v).filter(has_key::<R>(key)) == s.filter(has_key::<R>(key)),
        lookup::<R>(upserted::<R>(s, v), key) == lookup::<R>(s, key),
{
    lemma_without_elsewhere::<R>(s, R::key_of(v), key);
    without::<R>(s, R::key_of(v)).lemma_filter_push(v, has_key::<R>(key));
}

/// Taking out one identity does not change what is found under another.
pub proof fn lemma_without_elsewhere<R: Record>(s: Seq<R::V>, gone: u128, key: u128)
    requires
        key != gone,
    ensures
        without::<R>(s, gone).filter(has_key::<R>(key)) == s.filter(has_key::<R>(key)),
        lookup::<R>(without::<R>(s, gone), key) == lookup::<R>(s, key),
    decreases s.len(),
{
    reveal(Seq::filter);
    if s.len() > 0 {
        lemma_without_elsewhere::<R>(s.drop_last(), gone, key);
        let rest = without::<R>(s.drop_last(), gone);
        if R::key_of(s.last()) != gone {
            rest.lemma_filter_push(s.last(), has_key::<R>(key));
        }
    }
}

/// Nothing is found under an identity that was taken out.
pub proof fn lemma_without_gone<R: Record>(s: Seq<R::V>, key: u128)
    ensures
        lookup::<R>(without::<R>(s, key), key) is None,
{
    lemma_without_lacks::<R>(s, key);
    lemma_filter_none(without::<R>(s, key), has_key::<R>(key));
}

/// Taking out an identity that does not occur changes nothing.
pub proof fn lemma_without_absent<R: Record>(s: Seq<R::V>, key: u128)
    requires
        lookup::<R>(s, key) is None,
    ensures
        without::<R>(s, key) == s,
{
    assert forall|i: int| 0 <= i < s.len() implies lacks_key::<R>(key)(#[trigger] s[i]) by {
        if R::key_of(s[i]) == key {
            s.lemma_filter_contains(has_key::<R>(key), i);
        }
    }
    lemma_filter_all(s, lacks_key::<R>(key));
}

/// Writing two records of one identity in turn leaves what writing the
/// second alone leaves.
pub proof fn lemma_upserted_twice<R: Record>(s: Seq<R::V>, first: R::V, second: R::V)
    requires
        R::key_of(first) == R::key_of(second),
    ensures
        upserted::<R>(upserted::<R>(s, first), second) == upserted::<R>(s, second),
{
    let key = R::key_of(first);
    let rest = without::<R>(s, key);
    rest.lemma_filter_push(first, lacks_key::<R>(key));
    lemma_without_lacks::<R>(s, key);
    lemma_filter_all(rest, lacks_key::<R>(key));
}

/// Taking out an identity keeps the identities distinct.
pub proof fn lemma_without_distinct<R: Record>(s: Seq<R::V>, key: u128)
    requires
        keys_distinct::<R>(s),
    ensures
        keys_distinct::<R>(without::<R>(s, key)),
    decreases s.len(),
{
    reveal(Seq::filter);
    if s.len() > 0 {
        let front = s.drop_last();
        assert forall|i: int, j: int| 0 <= i < j < front.len() implies R::key_of(
            #[trigger] front[i],
        ) != R::key_of(#[trigger] front[j]) by {
            assert(front[i] == s[i] && front[j] == s[j]);
        }
        lemma_without_distinct::<R>(front, key);
        let kept = without::<R>(front, key);
        if R::key_of(s.last()) != key {
            assert forall|i: int| 0 <= i < kept.len() implies R::key_of(#[trigger] kept[i])
                != R::key_of(s.last()) by {
                lemma_kept_from::<R>(front, key, i);
                let k = choose|k: int| 0 <= k < front.len() && front[k] == kept[i];
                assert(front[k] == s[k]);
                assert(s.last() == s[s.len() - 1]);
            }
        }
    }
}

/// Each record that is kept was there before.
pub proof fn lemma_kept_from<R: Record>(s: Seq<R::V>, key: u128, i: int)
    requires
        0 <= i < without::<R>(s, key).len(),
    ensures
        exists|k: int| 0 <= k < s.len() && s[k] == without::<R>(s, key)[i],
    decreases s.len(),
{
    reveal(Seq::filter);
    if s.len() > 0 {
        let front = s.drop_last();
        let kept = without::<R>(front, key);
        if i < kept.len() {
            lemma_kept_from::<R>(front, key, i);
            let k = choose|k: int| 0 <= k < front.len() && front[k] == kept[i];
            assert(s[k] == without::<R>(s, key)[i]);
        } else {
            assert(s[s.len() - 1] == without::<R>(s, key)[i]);
        }
    }
}

/// Writing a record keeps the identities distinct.
pub proof fn lemma_upserted_distinct<R: Record>(s: Seq<R::V>, v: R::V)
    requires
        keys_distinct::<R>(s),
    ensures
        keys_distinct::<R>(upserted::<R>(s, v)),
{
    lemma_without_distinct::<R>(s, R::key_of(v));
    lemma_without_lacks::<R>(s, R::key_of(v));
}

/// Takes every record of identity `key` out of `list`.
pub fn remove_key<R: Record>(list: &mut Vec<R>, key: u128)
    ensures
        final(list).deep_view() == without::<R>(old(list).deep_view(), key),
{
    let ghost before = list.deep_view();
    let ghost mut seen: int = 0;
    let mut i: usize = 0;
    proof {
        reveal(Seq::filter);
        assert(before.take(0) == Seq::<R::V>::empty());
    }
    while i < list.len()
        invariant
            0 <= i <= list.len(),
            i <= seen <= before.len(),
            list.len() - i == before.len() - seen,
            list.deep_view().take(i as int) == without::<R>(before.take(seen), key),
            list.deep_view().skip(i as int) == before.skip(seen),
        decreases list.len() - i,
    {
        let ghost current = list.deep_view();
        assert(current[i as int] == current.skip(i as int)[0]);
        assert(before[seen] == before.skip(seen)[0]);
        assert(before.take(seen + 1) == before.take(seen).push(before[seen]));
        proof {
            before.take(seen).lemma_filter_push(before[seen], lacks_key::<R>(key));
        }
        if list[i].key() == key {
            list.remove(i);
            assert(list.deep_view().take(i as int) == current.take(i as int));
            assert(list.deep_view().skip(i as int) == current.skip(i as int).skip(1));
            assert(before.skip(seen).skip(1) == before.skip(seen + 1));
        } else {
            assert(current.take(i + 1) == current.take(i as int).push(current[i as int]));
            assert(current.skip(i as int).skip(1) == current.skip(i + 1));
            assert(before.skip(seen).skip(1) == before.skip(seen + 1));
            i += 1;
        }
        proof {
            seen = seen + 1;
        }
    }
    assert(list.deep_view().take(i as int) == list.deep_view());
    assert(before.take(seen) == before);
}

/// Writes `item` to `list`: what was there under its identity is taken out
/// and `item` is appended.
pub fn upsert<R: Record>(list: &mut Vec<R>, item: R)
    ensures
        final(list).deep_view() == upserted::<R>(old(list).deep_view(), item.deep_view()),
{
    let key = item.key();
    remove_key(list, key);
    let ghost kept = list.deep_view();
    list.push(item);
    assert(list.deep_view() == kept.push(item.deep_view()));
}

/// A copy of the first record of identity `key` in `list`.
pub fn find<R: Record>(list: &Vec<R>, key: u128) -> (found: Option<R>)
    ensures
        found.deep_view() == lookup::<R>(list.deep_view(), key),
{
    let mut i: usize = 0;
    while i < list.len()
        invariant
            0 <= i <= list.len(),
            forall|j: int| 0 <= j < i ==> R::key_of(#[trigger] list.deep_view()[j]) != key,
        decreases list.len() - i,
    {
        if list[i].key() == key {
            proof {
                lemma_filter_first(list.deep_view(), has_key::<R>(key), i as int);
            }
            return Some(list[i].duplicate());
        }
        i += 1;
    }
    proof {
        lemma_filter_none(list.deep_view(), has_key::<R>(key));
    }
    None
}

/// A copy of `list`, record by record.
pub fn copy_all<R: Record>(list: &Vec<R>) -> (copy: Vec<R>)
    ensures
        copy.deep_view() == list.deep_view(),
{
    let mut copy: Vec<R> = Vec::new();
    let mut i: usize = 0;
    while i < list.len()
        invariant
            0 <= i <= list.len(),
            copy.len() == i,
            forall|j: int| 0 <= j < i ==> #[trigger] copy[j].deep_view() == list[j].deep_view(),
        decreases list.len() - i,
    {
        copy.push(list[i].duplicate());
        i += 1;
    }
    assert(copy.deep_view() =~= list.deep_view());
    copy
}

} // verus!

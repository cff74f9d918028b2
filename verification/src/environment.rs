//! The effective environment of a run: variable names with their values,
//! each name once, in the order in which the names first came in.
//!
//! The defaults that a command declares are the base. Whatever overrides
//! them (the variables of a workflow, the answers of the user) is written
//! over them name by name, so on a collision the later source wins.

use crate::models::EnvVar;
use crate::models::EnvVarView;
use vstd::prelude::*;

verus! {

/// A name and its value.
pub type Binding = (Seq<char>, Seq<char>);

/// The position of `key` in `s`, or the length of `s` where `key` has no
/// value there.
pub open spec fn position(s: Seq<Binding>, key: Seq<char>) -> int
    decreases s.len(),
{
    if s.len() == 0 {
        0
    } else if s[0].0 == key {
        0
    } else {
        1 + position(s.drop_first(), key)
    }
}

/// The value of `key` in `s`.
pub open spec fn value_of(s: Seq<Binding>, key: Seq<char>) -> Option<Seq<char>> {
    if position(s, key) < s.len() {
        Some(s[position(s, key)].1)
    } else {
        None
    }
}

/// `s` after `key` was given the value `value`: a name that is there keeps
/// its place and takes the new value, a new name goes to the end.
pub open spec fn bound(s: Seq<Binding>, key: Seq<char>, value: Seq<char>) -> Seq<Binding> {
    if position(s, key) < s.len() {
        s.update(position(s, key), (key, value))
    } else {
        s.push((key, value))
    }
}

/// Whether no name occurs twice in `s`.
pub open spec fn names_distinct(s: Seq<Binding>) -> bool {
    forall|i: int, j: int| 0 <= i < j < s.len() ==> (#[trigger] s[i]).0 != (#[trigger] s[j]).0
}

/// `base` after each variable of `vars` was bound in turn.
pub open spec fn with_vars(base: Seq<Binding>, vars: Seq<EnvVarView>) -> Seq<Binding>
    decreases vars.len(),
{
    if vars.len() == 0 {
        base
    } else {
        bound(with_vars(base, vars.drop_last()), vars.last().key, vars.last().value)
    }
}

/// `base` after each binding of `over` was bound in turn.
pub open spec fn overridden(base: Seq<Binding>, over: Seq<Binding>) -> Seq<Binding>
    decreases over.len(),
{
    if over.len() == 0 {
        base
    } else {
        bound(overridden(base, over.drop_last()), over.last().0, over.last().1)
    }
}

/// Where `position` points, the name is `key`, and it is not found earlier.
pub proof fn lemma_position(s: Seq<Binding>, key: Seq<char>)
    ensures
        0 <= position(s, key) <= s.len(),
        position(s, key) < s.len() ==> s[position(s, key)].0 == key,
        forall|i: int| 0 <= i < position(s, key) ==> (#[trigger] s[i]).0 != key,
    decreases s.len(),
{
    if s.len() > 0 && s[0].0 != key {
        lemma_position(s.drop_first(), key);
        assert forall|i: int| 0 <= i < position(s, key) implies (#[trigger] s[i]).0 != key by {
            if i > 0 {
                assert(s[i] == s.drop_first()[i - 1]);
            }
        }
    }
}

/// The position of `key` is the first index that holds it.
pub proof fn lemma_position_is(s: Seq<Binding>, key: Seq<char>, at: int)
    requires
        0 <= at <= s.len(),
        at < s.len() ==> s[at].0 == key,
        forall|i: int| 0 <= i < at ==> (#[trigger] s[i]).0 != key,
    ensures
        position(s, key) == at,
{
    lemma_position(s, key);
    let p = position(s, key);
    if p < at {
        assert(s[p].0 != key);
    } else if at < p {
        assert(s[at].0 != key);
    }
}

/// Binding a name gives it the value, leaves the other names alone, and
/// keeps the names distinct.
pub proof fn lemma_bound(s: Seq<Binding>, key: Seq<char>, value: Seq<char>, other: Seq<char>)
    requires
        names_distinct(s),
    ensures
        names_distinct(bound(s, key, value)),
        value_of(bound(s, key, value), key) == Some(value),
        other != key ==> value_of(bound(s, key, value), other) == value_of(s, other),
{
    lemma_position(s, key);
    lemma_position(s, other);
    let after = bound(s, key, value);
    let at = position(s, key);
    lemma_position_is(after, key, at);
    if other != key {
        let there = position(s, other);
        if there < s.len() {
            lemma_position_is(after, other, there);
        } else {
            lemma_position_is(after, other, after.len() as int);
        }
    }
}

/// The bindings of a run. No name occurs twice.
#[derive(Debug, PartialEq, Eq)]
pub struct EnvMap {
    entries: Vec<(String, String)>,
}

impl View for EnvMap {
    type V = Seq<Binding>;

    closed spec fn view(&self) -> Seq<Binding> {
        self.entries.deep_view()
    }
}

impl EnvMap {
    #[verifier::type_invariant]
    spec fn distinct(self) -> bool {
        names_distinct(self.entries.deep_view())
    }

    /// No bindings.
    pub fn new() -> (env: Self)
        ensures
            env@ == Seq::<Binding>::empty(),
    {
        let env = EnvMap { entries: Vec::new() };
        assert(env.entries.deep_view() =~= Seq::<Binding>::empty());
        env
    }

    /// How many names are bound.
    pub fn len(&self) -> (n: usize)
        ensures
            n == self@.len(),
            names_distinct(self@),
    {
        proof {
            use_type_invariant(self);
        }
        self.entries.len()
    }

    /// The name at position `i`.
    pub fn key_at(&self, i: usize) -> (key: &String)
        requires
            i < self@.len(),
        ensures
            key@ == self@[i as int].0,
    {
        &self.entries[i].0
    }

    /// The value at position `i`.
    pub fn value_at(&self, i: usize) -> (value: &String)
        requires
            i < self@.len(),
        ensures
            value@ == self@[i as int].1,
    {
        &self.entries[i].1
    }

    /// Where `key` stands; the number of bindings where it has no value.
    fn find(&self, key: &str) -> (at: usize)
        ensures
            at == position(self@, key@),
            at <= self@.len(),
    {
        let mut i: usize = 0;
        while i < self.entries.len()
            invariant
                0 <= i <= self.entries.len(),
                forall|j: int| 0 <= j < i ==> (#[trigger] self@[j]).0 != key@,
            decreases self.entries.len() - i,
        {
            if self.entries[i].0.as_str().eq(key) {
                proof {
                    lemma_position_is(self@, key@, i as int);
                }
                return i;
            }
            i += 1;
        }
        proof {
            lemma_position_is(self@, key@, self@.len() as int);
        }
        i
    }

    /// The value of `key`.
    pub fn get(&self, key: &str) -> (value: Option<String>)
        ensures
            value.deep_view() == value_of(self@, key@),
    {
        let at = self.find(key);
        if at < self.entries.len() {
            Some(self.entries[at].1.clone())
        } else {
            None
        }
    }

    /// Whether `key` has a value.
    pub fn contains_key(&self, key: &str) -> (bound: bool)
        ensures
            bound == value_of(self@, key@).is_some(),
    {
        self.find(key) < self.entries.len()
    }

    /// Gives `key` the value `value`.
    pub fn insert(&mut self, key: String, value: String)
        ensures
            final(self)@ == bound(old(self)@, key@, value@),
    {
        proof {
            use_type_invariant(&*self);
            lemma_bound(self@, key@, value@, key@);
        }
        let ghost before = self@;
        let at = self.find(key.as_str());
        let mut taken = EnvMap::new();
        core::mem::swap(self, &mut taken);
        let mut entries = taken.entries;
        if at < entries.len() {
            entries.set(at, (key, value));
            assert(entries.deep_view() =~= before.update(at as int, (key@, value@)));
        } else {
            entries.push((key, value));
            assert(entries.deep_view() =~= before.push((key@, value@)));
        }
        *self = EnvMap { entries };
    }

    /// A copy of the map.
    pub fn duplicate(&self) -> (copy: Self)
        ensures
            copy@ == self@,
    {
        proof {
            use_type_invariant(self);
        }
        let mut entries: Vec<(String, String)> = Vec::new();
        let mut i: usize = 0;
        while i < self.entries.len()
            invariant
                0 <= i <= self.entries.len(),
                entries.len() == i,
                forall|j: int|
                    0 <= j < i ==> (#[trigger] entries@[j]).0@ == self.entries@[j].0@
                        && entries@[j].1@ == self.entries@[j].1@,
            decreases self.entries.len() - i,
        {
            entries.push((self.entries[i].0.clone(), self.entries[i].1.clone()));
            i += 1;
        }
        assert(entries.deep_view() =~= self.entries.deep_view());
        EnvMap { entries }
    }

    /// The map with the defaults of `vars` written over it, in their order.
    pub fn extend_with_vars(&mut self, vars: &Vec<EnvVar>)
        ensures
            final(self)@ == with_vars(old(self)@, vars.deep_view()),
    {
        let ghost all = vars.deep_view();
        let mut i: usize = 0;
        assert(all.take(0) == Seq::<EnvVarView>::empty());
        while i < vars.len()
            invariant
                0 <= i <= vars.len(),
                all == vars.deep_view(),
                self@ == with_vars(old(self)@, all.take(i as int)),
            decreases vars.len() - i,
        {
            assert(all.take(i + 1).drop_last() == all.take(i as int));
            self.insert(vars[i].key.clone(), vars[i].value.clone());
            i += 1;
        }
        assert(all.take(i as int) == all);
    }

    /// The map with the bindings of `over` written over it, in their order.
    pub fn extend_with(&mut self, over: &EnvMap)
        ensures
            final(self)@ == overridden(old(self)@, over@),
    {
        let ghost all = over@;
        let mut i: usize = 0;
        assert(all.take(0) == Seq::<Binding>::empty());
        while i < over.len()
            invariant
                0 <= i <= over@.len(),
                all == over@,
                self@ == overridden(old(self)@, all.take(i as int)),
            decreases over@.len() - i,
        {
            assert(all.take(i + 1).drop_last() == all.take(i as int));
            self.insert(over.key_at(i).clone(), over.value_at(i).clone());
            i += 1;
        }
        assert(all.take(i as int) == all);
    }
}

/// The effective environment of a run: the defaults of the command, with
/// the overrides written over them.
pub fn effective_environment(defaults: &Vec<EnvVar>, overrides: &EnvMap) -> (env: EnvMap)
    ensures
        env@ == overridden(with_vars(Seq::<Binding>::empty(), defaults.deep_view()), overrides@),
{
    let mut env = EnvMap::new();
    env.extend_with_vars(defaults);
    env.extend_with(overrides);
    env
}

/// Every name that is overridden has the value of the override.
pub proof fn lemma_override_wins(base: Seq<Binding>, over: Seq<Binding>, key: Seq<char>)
    requires
        names_distinct(base),
        names_distinct(over),
        value_of(over, key) is Some,
    ensures
        names_distinct(overridden(base, over)),
        value_of(overridden(base, over), key) == value_of(over, key),
    decreases over.len(),
{
    lemma_position(over, key);
    let front = over.drop_last();
    assert forall|i: int, j: int| 0 <= i < j < front.len() implies (#[trigger] front[i]).0 != (
    #[trigger] front[j]).0 by {
        assert(front[i] == over[i] && front[j] == over[j]);
    }
    lemma_overridden_distinct(base, front);
    let last = over.last();
    lemma_bound(overridden(base, front), last.0, last.1, key);
    if last.0 != key {
        let at = position(over, key);
        assert(at < over.len() - 1);
        assert(front[at] == over[at]);
        assert forall|i: int| 0 <= i < at implies (#[trigger] front[i]).0 != key by {
            assert(front[i] == over[i]);
        }
        lemma_position_is(front, key, at);
        lemma_override_wins(base, front, key);
    } else {
        let at = position(over, key);
        if at < over.len() - 1 {
            assert(over[at].0 != over[over.len() - 1].0);
        }
    }
}

/// Overriding keeps the names distinct.
pub proof fn lemma_overridden_distinct(base: Seq<Binding>, over: Seq<Binding>)
    requires
        names_distinct(base),
    ensures
        names_distinct(overridden(base, over)),
    decreases over.len(),
{
    if over.len() > 0 {
        lemma_overridden_distinct(base, over.drop_last());
        lemma_bound(overridden(base, over.drop_last()), over.last().0, over.last().1, over.last().0);
    }
}

/// A name that no override mentions keeps the value of the base.
pub proof fn lemma_base_stays(base: Seq<Binding>, over: Seq<Binding>, key: Seq<char>)
    requires
        names_distinct(base),
        value_of(over, key) is None,
    ensures
        value_of(overridden(base, over), key) == value_of(base, key),
    decreases over.len(),
{
    if over.len() > 0 {
        lemma_position(over, key);
        let front = over.drop_last();
        assert(over.last() == over[over.len() - 1]);
        assert forall|i: int| 0 <= i < front.len() implies (#[trigger] front[i]).0 != key by {
            assert(front[i] == over[i]);
        }
        lemma_position_is(front, key, front.len() as int);
        lemma_base_stays(base, front, key);
        lemma_overridden_distinct(base, front);
        lemma_bound(overridden(base, front), over.last().0, over.last().1, key);
    }
}

} // verus!

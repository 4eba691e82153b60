//! A small keyed store: values filed under account addresses and kept in
//! address order, with the map they form as its mathematical picture; and
//! the balance ledger built on it.

use crate::error::StdError;
use crate::text::{
    addr_before, addr_lt, lemma_addr_lt_asymmetric, lemma_addr_lt_total,
    lemma_addr_lt_transitive,
};
use vstd::prelude::*;

verus! {

/// One filed value with the address it is filed under.
#[derive(Debug)]
pub struct Entry<V> {
    pub key: String,
    pub value: V,
}

/// Values filed under addresses, at most one per address, in address order.
#[derive(Debug)]
pub struct AddrMap<V> {
    entries: Vec<Entry<V>>,
}

/// Whether no two of the entries share an address.
pub open spec fn distinct_keys<V>(entries: Seq<Entry<V>>) -> bool {
    forall|i: int, j: int|
        0 <= i < j < entries.len() ==> (#[trigger] entries[i]).key@ != (#[trigger] entries[j]).key@
}

/// Whether the entries stand in strictly ascending address order.
pub open spec fn ascending<V>(entries: Seq<Entry<V>>) -> bool {
    forall|i: int, j: int|
        0 <= i < j < entries.len() ==> addr_lt(
            (#[trigger] entries[i]).key@,
            (#[trigger] entries[j]).key@,
        )
}

/// Entries in ascending order never share an address.
pub proof fn lemma_ascending_distinct<V>(entries: Seq<Entry<V>>)
    requires
        ascending(entries),
    ensures
        distinct_keys(entries),
{
    assert forall|i: int, j: int| 0 <= i < j < entries.len() implies (#[trigger] entries[i]).key@
        != (#[trigger] entries[j]).key@ by {
        lemma_addr_lt_asymmetric(entries[i].key@, entries[j].key@);
    }
}

/// Whether some entry is filed under `key`.
pub open spec fn has_key<V>(entries: Seq<Entry<V>>, key: Seq<char>) -> bool {
    exists|i: int| 0 <= i < entries.len() && (#[trigger] entries[i]).key@ == key
}

/// The position of an entry filed under `key`.
pub open spec fn position<V>(entries: Seq<Entry<V>>, key: Seq<char>) -> int {
    choose|i: int| 0 <= i < entries.len() && (#[trigger] entries[i]).key@ == key
}

impl<V> AddrMap<V> {
    /// Whether the entries stand in strictly ascending address order, so
    /// that no address is filed twice. Every store built by this module's
    /// functions is well formed.
    pub closed spec fn wf(self) -> bool {
        ascending(self.entries@)
    }

    /// A well-formed store lists its entries in ascending address order.
    pub proof fn lemma_entries_ascending(self)
        requires
            self.wf(),
        ensures
            ascending(self.entries()),
            distinct_keys(self.entries()),
            forall|i: int|
                0 <= i < self.entries().len() ==> self.model().contains_key(
                    (#[trigger] self.entries()[i]).key@,
                ) && self.model()[self.entries()[i].key@] == self.entries()[i].value,
            forall|k: Seq<char>|
                self.model().contains_key(k) ==> 0 <= position(self.entries(), k)
                    < self.entries().len() && self.entries()[position(self.entries(), k)].key@
                    == k,
    {
        lemma_ascending_distinct(self.entries@);
        assert forall|i: int| 0 <= i < self.entries().len() implies self.model().contains_key(
            (#[trigger] self.entries()[i]).key@,
        ) && self.model()[self.entries()[i].key@] == self.entries()[i].value by {
            Self::lemma_value_at(self.entries@, i);
        }
    }

    /// The entries, in address order.
    pub closed spec fn entries(self) -> Seq<Entry<V>> {
        self.entries@
    }

    /// The sum of `f` over everything on file.
    pub closed spec fn sum(self, f: spec_fn(V) -> nat) -> nat {
        sum_by(self.entries@, f)
    }

    /// `f` of what is filed under `key`; zero where nothing is.
    pub open spec fn part(self, key: Seq<char>, f: spec_fn(V) -> nat) -> nat {
        if self.model().contains_key(key) {
            f(self.model()[key])
        } else {
            0
        }
    }

    /// No filed value counts for more than all together.
    pub proof fn lemma_part_bounded(self, key: Seq<char>, f: spec_fn(V) -> nat)
        requires
            self.wf(),
        ensures
            self.part(key, f) <= self.sum(f),
    {
        if self.model().contains_key(key) {
            lemma_ascending_distinct(self.entries@);
            let p = position(self.entries@, key);
            Self::lemma_value_at(self.entries@, p);
            lemma_sum_by_bounds(self.entries@, f, p);
        }
    }

    /// The sum over all entries is the sum over the entries taken one after
    /// the other: nothing for none of them, and for one more, `f` of its
    /// value more.
    pub proof fn lemma_sum_stepwise(self, f: spec_fn(V) -> nat, i: int)
        requires
            0 <= i <= self.entries().len(),
        ensures
            sum_by(self.entries().subrange(0, 0), f) == 0,
            i < self.entries().len() ==> sum_by(self.entries().subrange(0, i + 1), f) == sum_by(
                self.entries().subrange(0, i),
                f,
            ) + f(self.entries()[i].value),
            sum_by(self.entries().subrange(0, i), f) <= self.sum(f),
            sum_by(self.entries().subrange(0, self.entries().len() as int), f) == self.sum(f),
    {
        let entries = self.entries@;
        if i < entries.len() {
            assert(entries.subrange(0, i + 1).drop_last() =~= entries.subrange(0, i));
        }
        lemma_sum_prefix(entries, f, i);
        assert(entries.subrange(0, entries.len() as int) =~= entries);
    }

    /// An empty store sums to zero.
    pub proof fn lemma_sum_empty(self, f: spec_fn(V) -> nat)
        requires
            self.model() == Map::<Seq<char>, V>::empty(),
        ensures
            self.sum(f) == 0,
    {
        if self.entries@.len() > 0 {
            assert(has_key(self.entries@, self.entries@[0].key@));
            assert(self.model().contains_key(self.entries@[0].key@));
        }
    }

    /// The map from address to filed value.
    pub closed spec fn model(self) -> Map<Seq<char>, V> {
        Map::new(
            |k: Seq<char>| has_key(self.entries@, k),
            |k: Seq<char>| self.entries@[position(self.entries@, k)].value,
        )
    }

    pub fn new() -> (m: AddrMap<V>)
        ensures
            m.wf(),
            m.model() == Map::<Seq<char>, V>::empty(),
    {
        let m = AddrMap { entries: Vec::new() };
        proof {
            assert(m.model() =~= Map::<Seq<char>, V>::empty());
        }
        m
    }

    /// How many addresses have something filed.
    pub fn len(&self) -> (n: usize)
        ensures
            n == self.entries().len(),
    {
        self.entries.len()
    }

    /// The entry at position `i` in filing order.
    pub fn entry(&self, i: usize) -> (e: &Entry<V>)
        requires
            i < self.entries().len(),
        ensures
            *e == self.entries()[i as int],
    {
        &self.entries[i]
    }

    /// Position of the entry filed under `key`, if there is one.
    fn find(&self, key: &String) -> (r: Option<usize>)
        ensures
            match r {
                Some(i) => i < self.entries@.len() && self.entries@[i as int].key@ == key@,
                None => !has_key(self.entries@, key@),
            },
    {
        let mut i: usize = 0;
        while i < self.entries.len()
            invariant
                i <= self.entries@.len(),
                forall|j: int| 0 <= j < i ==> (#[trigger] self.entries@[j]).key@ != key@,
            decreases self.entries@.len() - i,
        {
            if self.entries[i].key == *key {
                return Some(i);
            }
            i += 1;
        }
        None
    }

    /// The value filed under `key`, if any.
    pub fn get(&self, key: &String) -> (r: Option<&V>)
        requires
            self.wf(),
        ensures
            match r {
                Some(v) => self.model().contains_key(key@) && *v == self.model()[key@],
                None => !self.model().contains_key(key@),
            },
    {
        proof {
            lemma_ascending_distinct(self.entries@);
        }
        match self.find(key) {
            Some(i) => {
                proof {
                    let p = position(self.entries@, key@);
                    assert(self.entries@[i as int].key@ == key@);
                    assert(p == i) by {
                        if p < i {
                            assert(self.entries@[p].key@ != self.entries@[i as int].key@);
                        }
                        if i < p {
                            assert(self.entries@[i as int].key@ != self.entries@[p].key@);
                        }
                    }
                }
                Some(&self.entries[i].value)
            },
            None => None,
        }
    }

    /// Whether anything is filed under `key`.
    pub fn has(&self, key: &String) -> (b: bool)
        ensures
            b == self.model().contains_key(key@),
    {
        self.find(key).is_some()
    }

    /// Files `value` under `key`, replacing what was there.
    pub fn insert(&mut self, key: String, value: V)
        requires
            old(self).wf(),
        ensures
            final(self).wf(),
            final(self).model() == old(self).model().insert(key@, value),
            forall|f: spec_fn(V) -> nat| #[trigger]
                final(self).sum(f) == old(self).sum(f) - old(self).part(key@, f) + f(value),
    {
        let ghost before = self.entries@;
        proof {
            lemma_ascending_distinct(before);
        }
        match self.find(&key) {
            Some(i) => {
                self.entries.set(i, Entry { key, value });
                proof {
                    let after = self.entries@;
                    assert(ascending(after)) by {
                        assert forall|a: int, b: int| 0 <= a < b < after.len() implies addr_lt(
                            (#[trigger] after[a]).key@,
                            (#[trigger] after[b]).key@,
                        ) by {
                            assert(addr_lt(before[a].key@, before[b].key@));
                        }
                    }
                    lemma_ascending_distinct(after);
                    Self::lemma_model_after_set(before, after, i as int, key@, value);
                    Self::lemma_value_at(before, i as int);
                    assert forall|f: spec_fn(V) -> nat| #[trigger]
                        sum_by(after, f) == sum_by(before, f) - old(self).part(key@, f) + f(
                            value,
                        ) by {
                        lemma_sum_by_update(before, after, f, i as int);
                    }
                }
            },
            None => {
                let mut p: usize = 0;
                while p < self.entries.len() && addr_before(&self.entries[p].key, &key)
                    invariant
                        self.entries@ == before,
                        p <= before.len(),
                        forall|j: int| 0 <= j < p ==> addr_lt((#[trigger] before[j]).key@, key@),
                    decreases before.len() - p,
                {
                    p += 1;
                }
                let ghost e = Entry { key, value };
                self.entries.insert(p, Entry { key, value });
                proof {
                    let after = self.entries@;
                    assert(after == before.insert(p as int, e));
                    assert forall|j: int| p <= j < before.len() implies addr_lt(
                        key@,
                        (#[trigger] before[j]).key@,
                    ) by {
                        assert(before[p as int].key@ != key@);
                        if addr_lt(before[p as int].key@, key@) {
                            assert(false);
                        }
                        if !addr_lt(key@, before[p as int].key@) {
                            lemma_addr_lt_total(key@, before[p as int].key@);
                        }
                        if j > p {
                            assert(addr_lt(before[p as int].key@, before[j].key@));
                            lemma_addr_lt_transitive(key@, before[p as int].key@, before[j].key@);
                        }
                    }
                    assert(ascending(after)) by {
                        assert forall|a: int, b: int| 0 <= a < b < after.len() implies addr_lt(
                            (#[trigger] after[a]).key@,
                            (#[trigger] after[b]).key@,
                        ) by {
                            let a0 = if a < p { a } else { a - 1 };
                            let b0 = if b < p { b } else { b - 1 };
                            if a == p {
                                assert(after[b] == before[b0]);
                            } else if b == p {
                                assert(after[a] == before[a0]);
                            } else {
                                assert(after[a] == before[a0]);
                                assert(after[b] == before[b0]);
                                assert(addr_lt(before[a0].key@, before[b0].key@));
                            }
                        }
                    }
                    lemma_ascending_distinct(after);
                    Self::lemma_model_after_insert(before, after, p as int, e);
                    assert forall|f: spec_fn(V) -> nat| #[trigger]
                        sum_by(after, f) == sum_by(before, f) - old(self).part(key@, f) + f(
                            value,
                        ) by {
                        lemma_sum_by_insert(before, f, p as int, e);
                    }
                }
            },
        }
    }

    /// Takes away what is filed under `key`, if anything.
    pub fn remove(&mut self, key: &String)
        requires
            old(self).wf(),
        ensures
            final(self).wf(),
            final(self).model() == old(self).model().remove(key@),
            forall|f: spec_fn(V) -> nat| #[trigger]
                final(self).sum(f) == old(self).sum(f) - old(self).part(key@, f),
    {
        let ghost before = self.entries@;
        proof {
            lemma_ascending_distinct(before);
        }
        match self.find(key) {
            Some(i) => {
                let _gone = self.entries.remove(i);
                proof {
                    let after = self.entries@;
                    assert(after =~= before.remove(i as int));
                    assert(ascending(after)) by {
                        assert forall|a: int, b: int| 0 <= a < b < after.len() implies addr_lt(
                            (#[trigger] after[a]).key@,
                            (#[trigger] after[b]).key@,
                        ) by {
                            let a0 = if a < i { a } else { a + 1 };
                            let b0 = if b < i { b } else { b + 1 };
                            assert(addr_lt(before[a0].key@, before[b0].key@));
                        }
                    }
                    lemma_ascending_distinct(after);
                    Self::lemma_model_after_remove(before, after, i as int, key@);
                    Self::lemma_value_at(before, i as int);
                    assert forall|f: spec_fn(V) -> nat| #[trigger]
                        sum_by(after, f) == sum_by(before, f) - old(self).part(key@, f) by {
                        lemma_sum_by_remove(before, f, i as int);
                    }
                }
            },
            None => {
                proof {
                    assert(self.model() =~= old(self).model().remove(key@));
                }
            },
        }
    }

    proof fn lemma_value_at(entries: Seq<Entry<V>>, i: int)
        requires
            distinct_keys(entries),
            0 <= i < entries.len(),
        ensures
            has_key(entries, entries[i].key@),
            position(entries, entries[i].key@) == i,
    {
        let k = entries[i].key@;
        let p = position(entries, k);
        if p < i {
            assert(entries[p].key@ != entries[i].key@);
        }
        if i < p {
            assert(entries[i].key@ != entries[p].key@);
        }
    }

    proof fn lemma_model_after_set(
        before: Seq<Entry<V>>,
        after: Seq<Entry<V>>,
        i: int,
        key: Seq<char>,
        value: V,
    )
        requires
            distinct_keys(before),
            distinct_keys(after),
            0 <= i < before.len(),
            before[i].key@ == key,
            after.len() == before.len(),
            after[i].key@ == key,
            after[i].value == value,
            forall|j: int| 0 <= j < before.len() && j != i ==> after[j] == before[j],
        ensures
            Map::new(
                |k: Seq<char>| has_key(after, k),
                |k: Seq<char>| after[position(after, k)].value,
            ) == Map::new(
                |k: Seq<char>| has_key(before, k),
                |k: Seq<char>| before[position(before, k)].value,
            ).insert(key, value),
    {
        let ma = Map::new(
            |k: Seq<char>| has_key(after, k),
            |k: Seq<char>| after[position(after, k)].value,
        );
        let mb = Map::new(
            |k: Seq<char>| has_key(before, k),
            |k: Seq<char>| before[position(before, k)].value,
        ).insert(key, value);
        assert forall|k: Seq<char>| ma.contains_key(k) <==> mb.contains_key(k) by {
            if has_key(after, k) {
                let p = position(after, k);
                assert(before[p].key@ == k);
            }
            if has_key(before, k) {
                let p = position(before, k);
                assert(after[p].key@ == k);
            }
            if k == key {
                assert(after[i].key@ == k);
            }
        }
        assert forall|k: Seq<char>| ma.contains_key(k) implies ma[k] == mb[k] by {
            let p = position(after, k);
            Self::lemma_value_at(after, p);
            if k != key {
                assert(p != i);
                assert(before[p].key@ == k);
                Self::lemma_value_at(before, p);
            } else {
                Self::lemma_value_at(after, i);
            }
        }
        assert(ma =~= mb);
    }

    proof fn lemma_model_after_insert(
        before: Seq<Entry<V>>,
        after: Seq<Entry<V>>,
        p: int,
        e: Entry<V>,
    )
        requires
            distinct_keys(before),
            distinct_keys(after),
            !has_key(before, e.key@),
            0 <= p <= before.len(),
            after == before.insert(p, e),
        ensures
            Map::new(
                |k: Seq<char>| has_key(after, k),
                |k: Seq<char>| after[position(after, k)].value,
            ) == Map::new(
                |k: Seq<char>| has_key(before, k),
                |k: Seq<char>| before[position(before, k)].value,
            ).insert(e.key@, e.value),
    {
        let key = e.key@;
        let ma = Map::new(
            |k: Seq<char>| has_key(after, k),
            |k: Seq<char>| after[position(after, k)].value,
        );
        let mb = Map::new(
            |k: Seq<char>| has_key(before, k),
            |k: Seq<char>| before[position(before, k)].value,
        ).insert(key, e.value);
        assert forall|k: Seq<char>| ma.contains_key(k) <==> mb.contains_key(k) by {
            if has_key(after, k) {
                let q = position(after, k);
                if q < p {
                    assert(before[q].key@ == k);
                } else if q > p {
                    assert(before[q - 1].key@ == k);
                }
            }
            if has_key(before, k) {
                let q = position(before, k);
                let q1 = if q < p { q } else { q + 1 };
                assert(after[q1].key@ == k);
            }
            if k == key {
                assert(after[p].key@ == k);
            }
        }
        assert forall|k: Seq<char>| ma.contains_key(k) implies ma[k] == mb[k] by {
            let q = position(after, k);
            Self::lemma_value_at(after, q);
            if k != key {
                let q0 = if q < p { q } else { q - 1 };
                assert(q != p);
                assert(before[q0].key@ == k);
                Self::lemma_value_at(before, q0);
            } else {
                Self::lemma_value_at(after, p);
            }
        }
        assert(ma =~= mb);
    }

    proof fn lemma_model_after_remove(
        before: Seq<Entry<V>>,
        after: Seq<Entry<V>>,
        i: int,
        key: Seq<char>,
    )
        requires
            distinct_keys(before),
            distinct_keys(after),
            0 <= i < before.len(),
            before[i].key@ == key,
            after == before.remove(i),
        ensures
            Map::new(
                |k: Seq<char>| has_key(after, k),
                |k: Seq<char>| after[position(after, k)].value,
            ) == Map::new(
                |k: Seq<char>| has_key(before, k),
                |k: Seq<char>| before[position(before, k)].value,
            ).remove(key),
    {
        let ma = Map::new(
            |k: Seq<char>| has_key(after, k),
            |k: Seq<char>| after[position(after, k)].value,
        );
        let mb = Map::new(
            |k: Seq<char>| has_key(before, k),
            |k: Seq<char>| before[position(before, k)].value,
        ).remove(key);
        assert forall|k: Seq<char>| ma.contains_key(k) <==> mb.contains_key(k) by {
            if has_key(after, k) {
                let p = position(after, k);
                let p0 = if p < i { p } else { p + 1 };
                assert(before[p0].key@ == k);
                assert(before[p0].key@ != before[i].key@) by {
                    if p0 < i {
                        assert(before[p0].key@ != before[i].key@);
                    } else {
                        assert(before[i].key@ != before[p0].key@);
                    }
                }
            }
            if has_key(before, k) && k != key {
                let p = position(before, k);
                let q = if p < i { p } else { p - 1 };
                assert(after[q].key@ == k);
            }
        }
        assert forall|k: Seq<char>| ma.contains_key(k) implies ma[k] == mb[k] by {
            let p = position(after, k);
            Self::lemma_value_at(after, p);
            let p0 = if p < i { p } else { p + 1 };
            assert(before[p0].key@ == k);
            Self::lemma_value_at(before, p0);
        }
        assert(ma =~= mb);
    }
}

/// The sum of `f` over the filed values.
pub open spec fn sum_by<V>(entries: Seq<Entry<V>>, f: spec_fn(V) -> nat) -> nat
    decreases entries.len(),
{
    if entries.len() == 0 {
        0
    } else {
        sum_by(entries.drop_last(), f) + f(entries.last().value)
    }
}

proof fn lemma_sum_by_bounds<V>(entries: Seq<Entry<V>>, f: spec_fn(V) -> nat, i: int)
    requires
        0 <= i < entries.len(),
    ensures
        f(entries[i].value) <= sum_by(entries, f),
    decreases entries.len(),
{
    if i < entries.len() - 1 {
        lemma_sum_by_bounds(entries.drop_last(), f, i);
    }
}

proof fn lemma_sum_by_insert<V>(before: Seq<Entry<V>>, f: spec_fn(V) -> nat, p: int, e: Entry<V>)
    requires
        0 <= p <= before.len(),
    ensures
        sum_by(before.insert(p, e), f) == sum_by(before, f) + f(e.value),
    decreases before.len(),
{
    let after = before.insert(p, e);
    if p == before.len() {
        assert(after.drop_last() =~= before);
    } else {
        assert(after.drop_last() =~= before.drop_last().insert(p, e));
        assert(after.last() == before.last());
        lemma_sum_by_insert(before.drop_last(), f, p, e);
    }
}

proof fn lemma_sum_by_remove<V>(before: Seq<Entry<V>>, f: spec_fn(V) -> nat, i: int)
    requires
        0 <= i < before.len(),
    ensures
        sum_by(before.remove(i), f) == sum_by(before, f) - f(before[i].value),
    decreases before.len(),
{
    let after = before.remove(i);
    if i == before.len() - 1 {
        assert(after =~= before.drop_last());
    } else {
        assert(after.drop_last() =~= before.drop_last().remove(i));
        assert(after.last() == before.last());
        lemma_sum_by_remove(before.drop_last(), f, i);
    }
}

proof fn lemma_sum_by_update<V>(
    before: Seq<Entry<V>>,
    after: Seq<Entry<V>>,
    f: spec_fn(V) -> nat,
    i: int,
)
    requires
        0 <= i < before.len(),
        after.len() == before.len(),
        forall|j: int| 0 <= j < before.len() && j != i ==> after[j] == before[j],
    ensures
        sum_by(after, f) == sum_by(before, f) - f(before[i].value) + f(after[i].value),
    decreases before.len(),
{
    if i == before.len() - 1 {
        assert(after.drop_last() =~= before.drop_last());
    } else {
        lemma_sum_by_update(before.drop_last(), after.drop_last(), f, i);
    }
}

/// An amount, counted.
pub open spec fn amount_of(v: u128) -> nat {
    v as nat
}

/// Account balances of one fungible asset. Absent accounts hold zero; the
/// balances together never exceed what 128 bits can count.
#[derive(Debug)]
pub struct Ledger {
    accounts: AddrMap<u128>,
}

impl Ledger {
    /// Whether no account occurs twice and the supply fits in 128 bits.
    pub closed spec fn wf(self) -> bool {
        self.accounts.wf() && self.accounts.sum(|v: u128| amount_of(v)) <= u128::MAX
    }

    /// What `addr` holds.
    pub closed spec fn balance_of(self, addr: Seq<char>) -> nat {
        self.accounts.part(addr, |v: u128| amount_of(v))
    }

    /// What all accounts hold together.
    pub closed spec fn total(self) -> nat {
        self.accounts.sum(|v: u128| amount_of(v))
    }

    /// How many accounts are on file, zero balances included.
    pub closed spec fn count(self) -> nat {
        self.accounts.entries@.len()
    }

    /// The address on file at position `i`, in address order.
    pub closed spec fn address(self, i: int) -> String {
        self.accounts.entries@[i].key
    }

    /// In a well-formed ledger no account holds more than all together, and
    /// all together hold no more than 128 bits can count.
    pub proof fn lemma_balance_bounded(self, addr: Seq<char>)
        requires
            self.wf(),
        ensures
            self.balance_of(addr) <= self.total() <= u128::MAX,
    {
        self.accounts.lemma_part_bounded(addr, |v: u128| amount_of(v));
    }

    /// A ledger in which nobody holds anything.
    pub fn new() -> (l: Ledger)
        ensures
            l.wf(),
            l.total() == 0,
            forall|a: Seq<char>| l.balance_of(a) == 0,
    {
        let l = Ledger { accounts: AddrMap::new() };
        proof {
            l.accounts.lemma_sum_empty(|v: u128| amount_of(v));
        }
        l
    }

    /// How many accounts are on file.
    pub fn len(&self) -> (n: usize)
        ensures
            n == self.count(),
    {
        self.accounts.len()
    }

    /// The address on file at position `i`.
    pub fn address_at(&self, i: usize) -> (a: &String)
        requires
            i < self.count(),
        ensures
            *a == self.address(i as int),
    {
        &self.accounts.entry(i).key
    }

    /// What all accounts hold together.
    pub fn total_held(&self) -> (t: u128)
        requires
            self.wf(),
        ensures
            t == self.total(),
    {
        let ghost f = |v: u128| amount_of(v);
        let mut t: u128 = 0;
        let mut i: usize = 0;
        let n = self.accounts.len();
        proof {
            lemma_sum_prefix(self.accounts.entries@, f, 0);
        }
        while i < n
            invariant
                n == self.accounts.entries@.len(),
                i <= n,
                f == |v: u128| amount_of(v),
                t == sum_by(self.accounts.entries@.subrange(0, i as int), f),
                sum_by(self.accounts.entries@, f) <= u128::MAX,
            decreases n - i,
        {
            proof {
                lemma_sum_prefix(self.accounts.entries@, f, i + 1);
                assert(self.accounts.entries@.subrange(0, i + 1).drop_last()
                    =~= self.accounts.entries@.subrange(0, i as int));
            }
            t = t + self.accounts.entry(i).value;
            i += 1;
        }
        proof {
            assert(self.accounts.entries@.subrange(0, n as int) =~= self.accounts.entries@);
        }
        t
    }

    /// The balance of `addr`.
    pub fn balance(&self, addr: &String) -> (b: u128)
        requires
            self.wf(),
        ensures
            b == self.balance_of(addr@),
    {
        match self.accounts.get(addr) {
            Some(v) => *v,
            None => 0,
        }
    }

    /// Takes `amount` away from `addr`. Fails, changing nothing, when the
    /// account holds less.
    pub fn debit(&mut self, addr: &String, amount: u128) -> (r: Result<(), StdError>)
        requires
            old(self).wf(),
        ensures
            final(self).wf(),
            r is Ok <==> old(self).balance_of(addr@) >= amount,
            r is Err ==> r == Err::<(), StdError>(StdError::Overflow {}) && *final(self) == *old(
                self,
            ),
            r is Ok ==> final(self).total() == old(self).total() - amount,
            r is Ok ==> final(self).balance_of(addr@) == old(self).balance_of(addr@) - amount,
            r is Ok ==> forall|a: Seq<char>|
                a != addr@ ==> final(self).balance_of(a) == old(self).balance_of(a),
    {
        let current = self.balance(addr);
        if current < amount {
            return Err(StdError::overflow());
        }
        proof {
            self.lemma_balance_bounded(addr@);
        }
        self.accounts.insert(addr.clone(), current - amount);
        Ok(())
    }

    /// Adds `amount` to `addr`.
    pub fn credit(&mut self, addr: &String, amount: u128)
        requires
            old(self).wf(),
            old(self).total() + amount <= u128::MAX,
        ensures
            final(self).wf(),
            final(self).total() == old(self).total() + amount,
            final(self).balance_of(addr@) == old(self).balance_of(addr@) + amount,
            forall|a: Seq<char>|
                a != addr@ ==> final(self).balance_of(a) == old(self).balance_of(a),
    {
        proof {
            self.lemma_balance_bounded(addr@);
        }
        let current = self.balance(addr);
        self.accounts.insert(addr.clone(), current + amount);
    }
}

proof fn lemma_sum_prefix<V>(entries: Seq<Entry<V>>, f: spec_fn(V) -> nat, i: int)
    requires
        0 <= i <= entries.len(),
    ensures
        sum_by(entries.subrange(0, i), f) <= sum_by(entries, f),
    decreases entries.len(),
{
    if i == entries.len() {
        assert(entries.subrange(0, i) =~= entries);
    } else {
        assert(entries.drop_last().subrange(0, i) =~= entries.subrange(0, i));
        lemma_sum_prefix(entries.drop_last(), f, i);
    }
}

} // verus!

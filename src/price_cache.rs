//! The latest best bid and ask of each symbol.

use vstd::prelude::*;
use crate::decimal::Decimal;

verus! {

/// The top of the book of one symbol.
#[derive(Debug, Clone, Copy, PartialEq, Eq)]
pub struct BestPrices {
    pub bid: Decimal,
    pub ask: Decimal,
}

/// A map from symbol to its latest `BestPrices`; an update replaces the
/// entry of its symbol wholesale.
#[derive(Debug, Clone)]
pub struct PriceCache {
    entries: Vec<(String, BestPrices)>,
}

impl View for PriceCache {
    type V = Map<Seq<char>, BestPrices>;

    closed spec fn view(&self) -> Map<Seq<char>, BestPrices> {
        Map::new(
            |k: Seq<char>| exists|i: int| 0 <= i < self.entries@.len() && #[trigger] self.entries@[i].0@ == k,
            |k: Seq<char>|
                self.entries@[choose|i: int| 0 <= i < self.entries@.len() && #[trigger] self.entries@[i].0@ == k].1,
        )
    }
}

impl PriceCache {
    /// No symbol has two entries.
    pub closed spec fn wf(&self) -> bool {
        forall|i: int, j: int|
            0 <= i < self.entries@.len() && 0 <= j < self.entries@.len() && i != j
                ==> #[trigger] self.entries@[i].0@ != #[trigger] self.entries@[j].0@
    }

    proof fn lemma_entry(&self, i: int)
        requires
            self.wf(),
            0 <= i < self.entries@.len(),
        ensures
            self@.contains_key(self.entries@[i].0@),
            self@[self.entries@[i].0@] == self.entries@[i].1,
    {
        let k = self.entries@[i].0@;
        assert(self.entries@[i].0@ == k);
        let j = choose|j: int| 0 <= j < self.entries@.len() && #[trigger] self.entries@[j].0@ == k;
        assert(j == i);
    }

    /// An empty cache.
    pub fn new() -> (c: Self)
        ensures
            c.wf(),
            c@ == Map::<Seq<char>, BestPrices>::empty(),
    {
        let c = PriceCache { entries: Vec::new() };
        assert(c@ =~= Map::<Seq<char>, BestPrices>::empty());
        c
    }

    fn find(&self, symbol: &String) -> (r: Option<usize>)
        ensures
            match r {
                Some(i) => i < self.entries@.len() && self.entries@[i as int].0@ == symbol@,
                None => forall|i: int| 0 <= i < self.entries@.len() ==> #[trigger] self.entries@[i].0@ != symbol@,
            },
    {
        let mut i: usize = 0;
        while i < self.entries.len()
            invariant
                i <= self.entries@.len(),
                forall|j: int| 0 <= j < i ==> #[trigger] self.entries@[j].0@ != symbol@,
            decreases self.entries@.len() - i,
        {
            if self.entries[i].0 == *symbol {
                return Some(i);
            }
            i = i + 1;
        }
        None
    }

    /// Records `prices` as the latest of `symbol`, replacing what was there.
    pub fn upsert(&mut self, symbol: String, prices: BestPrices)
        requires
            old(self).wf(),
        ensures
            final(self).wf(),
            final(self)@ == old(self)@.insert(symbol@, prices),
    {
        let ghost before = *self;
        let ghost k = symbol@;
        match self.find(&symbol) {
            Some(i) => {
                self.entries[i] = (symbol, prices);
                proof {
                    assert(self.entries@ == before.entries@.update(i as int, (self.entries@[i as int].0, prices)));
                    assert forall|a: int, b: int|
                        0 <= a < self.entries@.len() && 0 <= b < self.entries@.len() && a != b
                            implies #[trigger] self.entries@[a].0@ != #[trigger] self.entries@[b].0@ by {
                        if a != i && b != i {
                            assert(before.entries@[a] == self.entries@[a]);
                            assert(before.entries@[b] == self.entries@[b]);
                        } else if a == i {
                            assert(before.entries@[b] == self.entries@[b]);
                            assert(before.entries@[a].0@ == k);
                        } else {
                            assert(before.entries@[a] == self.entries@[a]);
                            assert(before.entries@[b].0@ == k);
                        }
                    }
                    self.lemma_view_after(before, k, prices);
                }
            },
            None => {
                self.entries.push((symbol, prices));
                proof {
                    let n = before.entries@.len() as int;
                    assert forall|a: int, b: int|
                        0 <= a < self.entries@.len() && 0 <= b < self.entries@.len() && a != b
                            implies #[trigger] self.entries@[a].0@ != #[trigger] self.entries@[b].0@ by {
                        if a < n {
                            assert(before.entries@[a] == self.entries@[a]);
                        }
                        if b < n {
                            assert(before.entries@[b] == self.entries@[b]);
                        }
                    }
                    assert(self.entries@[n] == (self.entries@[n].0, prices) && self.entries@[n].0@ == k);
                    self.lemma_view_after(before, k, prices);
                }
            },
        }
    }

    /// If `self` holds the entries of `before`, with the one of `k` set to
    /// `v` or added, then its view is that of `before` with `k` set to `v`.
    proof fn lemma_view_after(&self, before: PriceCache, k: Seq<char>, v: BestPrices)
        requires
            self.wf(),
            before.wf(),
            exists|i: int| 0 <= i < self.entries@.len() && #[trigger] self.entries@[i] == (self.entries@[i].0, v)
                && self.entries@[i].0@ == k,
            forall|i: int| 0 <= i < self.entries@.len() && #[trigger] self.entries@[i].0@ != k
                ==> i < before.entries@.len() && before.entries@[i] == self.entries@[i],
            forall|i: int| 0 <= i < before.entries@.len() && #[trigger] before.entries@[i].0@ != k
                ==> i < self.entries@.len() && before.entries@[i] == self.entries@[i],
        ensures
            self@ == before@.insert(k, v),
    {
        let w = choose|i: int| 0 <= i < self.entries@.len() && #[trigger] self.entries@[i] == (self.entries@[i].0, v)
            && self.entries@[i].0@ == k;
        self.lemma_entry(w);
        assert forall|k2: Seq<char>| #[trigger] self@.contains_key(k2) == before@.insert(k, v).contains_key(k2) by {
            if k2 != k {
                if self@.contains_key(k2) {
                    let i = choose|i: int| 0 <= i < self.entries@.len() && #[trigger] self.entries@[i].0@ == k2;
                    assert(before.entries@[i].0@ == k2);
                }
                if before@.contains_key(k2) {
                    let i = choose|i: int| 0 <= i < before.entries@.len() && #[trigger] before.entries@[i].0@ == k2;
                    assert(self.entries@[i].0@ == k2);
                }
            }
        }
        assert forall|k2: Seq<char>| #[trigger] self@.contains_key(k2) implies self@[k2] == before@.insert(k, v)[k2] by {
            if k2 != k {
                let i = choose|i: int| 0 <= i < self.entries@.len() && #[trigger] self.entries@[i].0@ == k2;
                self.lemma_entry(i);
                before.lemma_entry(i);
            }
        }
        assert(self@ =~= before@.insert(k, v));
    }

    /// The latest prices of `symbol`, if any came.
    pub fn get(&self, symbol: &String) -> (r: Option<BestPrices>)
        requires
            self.wf(),
        ensures
            r == if self@.contains_key(symbol@) { Some(self@[symbol@]) } else { None::<BestPrices> },
    {
        match self.find(symbol) {
            Some(i) => {
                proof {
                    self.lemma_entry(i as int);
                }
                Some(self.entries[i].1)
            },
            None => None,
        }
    }

    /// A copy of every entry, each symbol once, in no particular order.
    pub fn snapshot(&self) -> (r: Vec<(String, BestPrices)>)
        requires
            self.wf(),
        ensures
            forall|i: int| 0 <= i < r@.len() ==> self@.contains_key(#[trigger] r@[i].0@) && self@[r@[i].0@] == r@[i].1,
            forall|k: Seq<char>| #[trigger] self@.contains_key(k) ==> exists|i: int| 0 <= i < r@.len() && #[trigger] r@[i].0@ == k,
            forall|i: int, j: int| 0 <= i < r@.len() && 0 <= j < r@.len() && i != j
                ==> #[trigger] r@[i].0@ != #[trigger] r@[j].0@,
    {
        let mut r: Vec<(String, BestPrices)> = Vec::new();
        let mut i: usize = 0;
        while i < self.entries.len()
            invariant
                i <= self.entries@.len(),
                r@ == self.entries@.subrange(0, i as int),
            decreases self.entries@.len() - i,
        {
            r.push((self.entries[i].0.clone(), self.entries[i].1));
            i = i + 1;
            assert(r@ =~= self.entries@.subrange(0, i as int));
        }
        assert(r@ =~= self.entries@);
        proof {
            assert forall|j: int| 0 <= j < r@.len() implies self@.contains_key(#[trigger] r@[j].0@) && self@[r@[j].0@] == r@[j].1 by {
                self.lemma_entry(j);
            }
        }
        r
    }
}

/// Of two updates of one symbol the later one stands, whatever came before,
/// and the other symbols keep their prices.
pub proof fn lemma_last_write_wins(
    cache: Map<Seq<char>, BestPrices>,
    symbol: Seq<char>,
    first: BestPrices,
    second: BestPrices,
)
    ensures
        cache.insert(symbol, first).insert(symbol, second)[symbol] == second,
        cache.insert(symbol, first).insert(symbol, second) == cache.insert(symbol, second),
{
    assert(cache.insert(symbol, first).insert(symbol, second) =~= cache.insert(symbol, second));
}

} // verus!

//! A table of records keyed by id, the unit of storage for each entity.

use vstd::prelude::*;
use crate::text::{compare_text, lemma_text_cmp_facts};
use crate::record::{Record, StoreError, in_filter, is_listing, keyed};

verus! {

/// The view of an optional parent filter.
pub open spec fn scope_view(scope: Option<&str>) -> Option<Seq<char>> {
    match scope {
        Some(p) => Some(p@),
        None => None,
    }
}

/// Each element of `out` is a row of `rows[..n]` that passes the filter.
spec fn drawn_from<R: Record>(out: Seq<R>, rows: Seq<R>, n: int, sc: Option<Seq<char>>) -> bool {
    forall|a: int|
        0 <= a < out.len() ==> rows.take(n).contains(#[trigger] out[a]) && in_filter(out[a], sc)
}

/// Each row of `rows[..n]` that passes the filter is an element of `out`.
spec fn covers<R: Record>(out: Seq<R>, rows: Seq<R>, n: int, sc: Option<Seq<char>>) -> bool {
    forall|m: int| 0 <= m < n && in_filter(#[trigger] rows[m], sc) ==> out.contains(rows[m])
}

proof fn lemma_insert_members<R: Record>(
    out: Seq<R>,
    rows: Seq<R>,
    n: int,
    sc: Option<Seq<char>>,
    p: int,
)
    requires
        0 <= n < rows.len(),
        0 <= p <= out.len(),
        in_filter(rows[n], sc),
        drawn_from(out, rows, n, sc),
        covers(out, rows, n, sc),
    ensures
        drawn_from(out.insert(p, rows[n]), rows, n + 1, sc),
        covers(out.insert(p, rows[n]), rows, n + 1, sc),
{
    let t = out.insert(p, rows[n]);
    assert forall|a: int| 0 <= a < t.len() implies rows.take(n + 1).contains(#[trigger] t[a]) && in_filter(t[a], sc) by {
        let x = t[a];
        if a == p {
            assert(rows.take(n + 1)[n] == x);
        } else {
            let a0 = if a < p { a } else { a - 1 };
            assert(x == out[a0]);
            assert(rows.take(n).contains(out[a0]));
            let m = choose|m: int| 0 <= m < rows.take(n).len() && rows.take(n)[m] == x;
            assert(rows.take(n + 1)[m] == x);
        }
    }
    assert forall|m: int| 0 <= m < n + 1 && in_filter(#[trigger] rows[m], sc) implies t.contains(rows[m]) by {
        if m == n {
            assert(t[p] == rows[m]);
        } else {
            let a = choose|a: int| 0 <= a < out.len() && out[a] == rows[m];
            if a < p {
                assert(t[a] == out[a]);
            } else {
                assert(t[a + 1] == out[a]);
            }
        }
    }
}

proof fn lemma_skip_members<R: Record>(out: Seq<R>, rows: Seq<R>, n: int, sc: Option<Seq<char>>)
    requires
        0 <= n < rows.len(),
        !in_filter(rows[n], sc),
        drawn_from(out, rows, n, sc),
        covers(out, rows, n, sc),
    ensures
        drawn_from(out, rows, n + 1, sc),
        covers(out, rows, n + 1, sc),
{
    assert forall|a: int| 0 <= a < out.len() implies rows.take(n + 1).contains(#[trigger] out[a]) && in_filter(out[a], sc) by {
        let x = out[a];
        assert(rows.take(n).contains(x));
        let m = choose|m: int| 0 <= m < rows.take(n).len() && rows.take(n)[m] == x;
        assert(rows.take(n + 1)[m] == x);
    }
}

/// Inserting `x` where everything before it precedes it and it precedes
/// everything after it keeps a strictly ordered sequence strictly ordered.
proof fn lemma_insert_sorted<R: Record>(s: Seq<R>, p: int, x: R)
    requires
        0 <= p <= s.len(),
        forall|a: int, b: int| 0 <= a < b < s.len() ==> #[trigger] s[a].order(&s[b]) < 0,
        forall|a: int| 0 <= a < p ==> #[trigger] s[a].order(&x) < 0,
        forall|a: int| p <= a < s.len() ==> x.order(&#[trigger] s[a]) < 0,
    ensures
        forall|a: int, b: int|
            0 <= a < b < s.len() + 1 ==> #[trigger] s.insert(p, x)[a].order(&s.insert(p, x)[b]) < 0,
{
    let t = s.insert(p, x);
    assert forall|a: int, b: int| 0 <= a < b < t.len() implies #[trigger] t[a].order(&t[b]) < 0 by {
        if a < p && b < p {
            assert(t[a] == s[a] && t[b] == s[b]);
        } else if a < p && b == p {
            assert(t[a] == s[a]);
        } else if a < p {
            assert(t[a] == s[a] && t[b] == s[b - 1]);
            assert(s[a].order(&x) < 0);
            assert(x.order(&s[b - 1]) < 0);
            R::lemma_order(&s[a], &x, &s[b - 1]);
        } else if a == p {
            assert(t[b] == s[b - 1]);
        } else {
            assert(t[a] == s[a - 1] && t[b] == s[b - 1]);
            assert(s[a - 1].order(&s[b - 1]) < 0);
        }
    }
}

/// The rows of one entity, at most one per id.
pub struct Table<R> {
    rows: Vec<R>,
}

impl<R: Record> View for Table<R> {
    type V = Map<Seq<char>, R>;

    closed spec fn view(&self) -> Map<Seq<char>, R> {
        Map::new(
            |k: Seq<char>| exists|i: int| 0 <= i < self.rows@.len() && self.rows@[i].key() == k,
            |k: Seq<char>|
                self.rows@[choose|i: int| 0 <= i < self.rows@.len() && self.rows@[i].key() == k],
        )
    }
}

impl<R: Record> Table<R> {
    /// No two rows share an id.
    pub closed spec fn wf(&self) -> bool {
        forall|i: int, j: int|
            0 <= i < j < self.rows@.len() ==> (#[trigger] self.rows@[i]).key() != (
            #[trigger] self.rows@[j]).key()
    }

    proof fn lemma_row(&self, i: int)
        requires
            self.wf(),
            0 <= i < self.rows@.len(),
        ensures
            self@.contains_key(self.rows@[i].key()),
            self@[self.rows@[i].key()] == self.rows@[i],
    {
        let k = self.rows@[i].key();
        assert(0 <= i < self.rows@.len() && self.rows@[i].key() == k);
        let j = choose|j: int| 0 <= j < self.rows@.len() && self.rows@[j].key() == k;
        if j < i {
            assert(self.rows@[j].key() != self.rows@[i].key());
        } else if i < j {
            assert(self.rows@[i].key() != self.rows@[j].key());
        }
    }

    proof fn lemma_key(&self, k: Seq<char>)
        requires
            self.wf(),
            self@.contains_key(k),
        ensures
            exists|i: int| 0 <= i < self.rows@.len() && self.rows@[i].key() == k && self@[k] == self.rows@[i],
    {
        let i = choose|i: int| 0 <= i < self.rows@.len() && self.rows@[i].key() == k;
        self.lemma_row(i);
    }

    proof fn lemma_fresh_key(&self, out: Seq<R>, n: int, sc: Option<Seq<char>>)
        requires
            self.wf(),
            0 <= n < self.rows@.len(),
            drawn_from(out, self.rows@, n, sc),
        ensures
            forall|a: int| 0 <= a < out.len() ==> (#[trigger] out[a]).key() != self.rows@[n].key(),
    {
        assert forall|a: int| 0 <= a < out.len() implies (#[trigger] out[a]).key() != self.rows@[n].key() by {
            let x = out[a];
            assert(self.rows@.take(n).contains(x));
            let m = choose|m: int| 0 <= m < self.rows@.take(n).len() && self.rows@.take(n)[m] == x;
            assert(self.rows@[m] == x);
            assert(self.rows@[m].key() != self.rows@[n].key());
        }
    }

    /// Every row of the table is stored under its own id.
    pub proof fn lemma_keyed(&self)
        requires
            self.wf(),
        ensures
            keyed(self@),
    {
        assert forall|k: Seq<char>| #[trigger] self@.contains_key(k) implies self@[k].key() == k by {
            self.lemma_key(k);
        }
    }

    /// An empty table.
    pub fn new() -> (t: Self)
        ensures
            t.wf(),
            t@ == Map::<Seq<char>, R>::empty(),
    {
        let t = Table { rows: Vec::new() };
        assert(t@ =~= Map::<Seq<char>, R>::empty());
        t
    }

    fn find(&self, id: &str) -> (r: Option<usize>)
        requires
            self.wf(),
        ensures
            match r {
                Some(i) => i < self.rows@.len() && self.rows@[i as int].key() == id@,
                None => !self@.contains_key(id@),
            },
    {
        let mut i: usize = 0;
        while i < self.rows.len()
            invariant
                i <= self.rows@.len(),
                forall|j: int| 0 <= j < i ==> (#[trigger] self.rows@[j]).key() != id@,
            decreases self.rows@.len() - i,
        {
            let rid = self.rows[i].id();
            proof {
                lemma_text_cmp_facts(rid@, id@);
            }
            if compare_text(rid.as_str(), id) == 0 {
                return Some(i);
            }
            i = i + 1;
        }
        proof {
            if self@.contains_key(id@) {
                let j = choose|j: int| 0 <= j < self.rows@.len() && self.rows@[j].key() == id@;
                assert(self.rows@[j].key() != id@);
            }
        }
        None
    }

    /// The row with the given id.
    pub fn get(&self, id: &str) -> (r: Result<R, StoreError>)
        requires
            self.wf(),
        ensures
            self@.contains_key(id@) ==> r == Ok::<R, StoreError>(self@[id@]),
            !self@.contains_key(id@) ==> r == Err::<R, StoreError>(StoreError::NotFound),
    {
        match self.find(id) {
            Some(i) => {
                proof {
                    self.lemma_row(i as int);
                }
                Ok(self.rows[i].duplicate())
            },
            None => Err(StoreError::NotFound),
        }
    }

    /// Adds a row; a row with the same id already there refuses it.
    pub fn insert(&mut self, row: R) -> (r: Result<(), StoreError>)
        requires
            old(self).wf(),
        ensures
            final(self).wf(),
            old(self)@.contains_key(row.key()) ==> r == Err::<(), StoreError>(
                StoreError::ConstraintViolation,
            ) && final(self)@ == old(self)@,
            !old(self)@.contains_key(row.key()) ==> r == Ok::<(), StoreError>(()) && final(self)@
                == old(self)@.insert(row.key(), row),
    {
        let found = self.find(row.id().as_str());
        if found.is_some() {
            proof {
                let i = found->Some_0 as int;
                self.lemma_row(i);
            }
            return Err(StoreError::ConstraintViolation);
        }
        let ghost before = *self;
        self.rows.push(row);
        proof {
            let n = before.rows@.len();
            assert(self.rows@ == before.rows@.push(row));
            assert forall|i: int, j: int| 0 <= i < j < self.rows@.len() implies (
            #[trigger] self.rows@[i]).key() != (#[trigger] self.rows@[j]).key() by {
                if j == n {
                    assert(before.rows@[i] == self.rows@[i]);
                    if before.rows@[i].key() == row.key() {
                        before.lemma_row(i);
                    }
                } else {
                    assert(before.rows@[i] == self.rows@[i] && before.rows@[j] == self.rows@[j]);
                }
            }
            let expected = before@.insert(row.key(), row);
            assert forall|k: Seq<char>| #[trigger] self@.contains_key(k) <==> expected.contains_key(k) by {
                if self@.contains_key(k) {
                    let i = choose|i: int| 0 <= i < self.rows@.len() && self.rows@[i].key() == k;
                    if i < n {
                        assert(before.rows@[i] == self.rows@[i]);
                        before.lemma_row(i);
                    }
                }
                if before@.contains_key(k) {
                    before.lemma_key(k);
                    let i = choose|i: int| 0 <= i < before.rows@.len() && before.rows@[i].key() == k && before@[k] == before.rows@[i];
                    assert(self.rows@[i] == before.rows@[i]);
                }
                if k == row.key() {
                    assert(self.rows@[n as int] == row);
                }
            }
            assert forall|k: Seq<char>| #[trigger] self@.contains_key(k) implies self@[k] == expected[k] by {
                self.lemma_key(k);
                let i = choose|i: int| 0 <= i < self.rows@.len() && self.rows@[i].key() == k && self@[k] == self.rows@[i];
                if i < n {
                    assert(before.rows@[i] == self.rows@[i]);
                    before.lemma_row(i);
                }
            }
            assert(self@ =~= expected);
        }
        Ok(())
    }

    /// Replaces the row that has `incoming`'s id, keeping its creation time
    /// and setting its update time to `now`.
    pub fn update(&mut self, incoming: R, now: i64) -> (r: Result<R, StoreError>)
        requires
            old(self).wf(),
        ensures
            final(self).wf(),
            !old(self)@.contains_key(incoming.key()) ==> r == Err::<R, StoreError>(
                StoreError::NotFound,
            ) && final(self)@ == old(self)@,
            old(self)@.contains_key(incoming.key()) ==> {
                let row = old(self)@[incoming.key()].revised(&incoming, now);
                &&& r == Ok::<R, StoreError>(row)
                &&& final(self)@ == old(self)@.insert(incoming.key(), row)
            },
    {
        let found = self.find(incoming.id().as_str());
        match found {
            None => Err(StoreError::NotFound),
            Some(i) => {
                let ghost before = *self;
                proof {
                    before.lemma_row(i as int);
                    self.rows@[i as int].lemma_timestamps(&incoming, now);
                }
                let row = self.rows[i].revise(incoming, now);
                let out = row.duplicate();
                self.rows.set(i, row);
                proof {
                    let k = out.key();
                    assert(self.rows@ == before.rows@.update(i as int, out));
                    assert forall|a: int, b: int| 0 <= a < b < self.rows@.len() implies (
                    #[trigger] self.rows@[a]).key() != (#[trigger] self.rows@[b]).key() by {
                        if a != i as int && b != i as int {
                            assert(before.rows@[a] == self.rows@[a] && before.rows@[b] == self.rows@[b]);
                        } else if a == i as int {
                            assert(before.rows@[b] == self.rows@[b]);
                            assert(before.rows@[a].key() != before.rows@[b].key());
                        } else {
                            assert(before.rows@[a] == self.rows@[a]);
                            assert(before.rows@[a].key() != before.rows@[b].key());
                        }
                    }
                    let expected = before@.insert(k, out);
                    assert forall|q: Seq<char>| #[trigger] self@.contains_key(q) <==> expected.contains_key(q) by {
                        if self@.contains_key(q) {
                            let j = choose|j: int| 0 <= j < self.rows@.len() && self.rows@[j].key() == q;
                            if j != i as int {
                                assert(before.rows@[j] == self.rows@[j]);
                                before.lemma_row(j);
                            }
                        }
                        if before@.contains_key(q) {
                            before.lemma_key(q);
                            let j = choose|j: int| 0 <= j < before.rows@.len() && before.rows@[j].key() == q && before@[q] == before.rows@[j];
                            if j != i as int {
                                assert(self.rows@[j] == before.rows@[j]);
                            } else {
                                assert(self.rows@[j] == out);
                            }
                        }
                        if q == k {
                            assert(self.rows@[i as int] == out);
                        }
                    }
                    assert forall|q: Seq<char>| #[trigger] self@.contains_key(q) implies self@[q] == expected[q] by {
                        self.lemma_key(q);
                        let j = choose|j: int| 0 <= j < self.rows@.len() && self.rows@[j].key() == q && self@[q] == self.rows@[j];
                        if j != i as int {
                            assert(before.rows@[j] == self.rows@[j]);
                            before.lemma_row(j);
                        }
                    }
                    assert(self@ =~= expected);
                }
                Ok(out)
            },
        }
    }

    /// Removes the row with the given id, if there is one.
    pub fn remove(&mut self, id: &str)
        requires
            old(self).wf(),
        ensures
            final(self).wf(),
            final(self)@ == old(self)@.remove(id@),
    {
        let found = self.find(id);
        match found {
            None => {
                assert(self@ =~= self@.remove(id@));
            },
            Some(i) => {
                let ghost before = *self;
                proof {
                    before.lemma_row(i as int);
                }
                self.rows.remove(i);
                proof {
                    let ii = i as int;
                    assert(self.rows@ == before.rows@.remove(ii));
                    assert forall|a: int| 0 <= a < self.rows@.len() implies #[trigger] self.rows@[a]
                        == before.rows@[if a < ii { a } else { a + 1 }] by {}
                    assert forall|a: int, b: int| 0 <= a < b < self.rows@.len() implies (
                    #[trigger] self.rows@[a]).key() != (#[trigger] self.rows@[b]).key() by {
                        let a2 = if a < ii { a } else { a + 1 };
                        let b2 = if b < ii { b } else { b + 1 };
                        assert(before.rows@[a2].key() != before.rows@[b2].key());
                    }
                    let expected = before@.remove(id@);
                    assert forall|q: Seq<char>| #[trigger] self@.contains_key(q) <==> expected.contains_key(q) by {
                        if self@.contains_key(q) {
                            let j = choose|j: int| 0 <= j < self.rows@.len() && self.rows@[j].key() == q;
                            let j2 = if j < ii { j } else { j + 1 };
                            before.lemma_row(j2);
                            assert(before.rows@[ii].key() != before.rows@[j2].key());
                        }
                        if expected.contains_key(q) {
                            before.lemma_key(q);
                            let j = choose|j: int| 0 <= j < before.rows@.len() && before.rows@[j].key() == q && before@[q] == before.rows@[j];
                            let j1 = if j < ii { j } else { j - 1 };
                            assert(self.rows@[j1] == before.rows@[j]);
                        }
                    }
                    assert forall|q: Seq<char>| #[trigger] self@.contains_key(q) implies self@[q] == expected[q] by {
                        self.lemma_key(q);
                        let j = choose|j: int| 0 <= j < self.rows@.len() && self.rows@[j].key() == q && self@[q] == self.rows@[j];
                        let j2 = if j < ii { j } else { j + 1 };
                        before.lemma_row(j2);
                    }
                    assert(self@ =~= expected);
                }
            },
        }
    }

    /// The rows that pass the parent filter, in listing order.
    pub fn list(&self, scope: Option<&str>) -> (out: Vec<R>)
        requires
            self.wf(),
        ensures
            is_listing(self@, scope_view(scope), out@),
    {
        let ghost sc = scope_view(scope);
        let mut out: Vec<R> = Vec::new();
        let mut i: usize = 0;
        while i < self.rows.len()
            invariant
                self.wf(),
                sc == scope_view(scope),
                i <= self.rows@.len(),
                forall|a: int, b: int| 0 <= a < b < out@.len() ==> #[trigger] out@[a].order(&out@[b]) < 0,
                drawn_from(out@, self.rows@, i as int, sc),
                covers(out@, self.rows@, i as int, sc),
            decreases self.rows@.len() - i,
        {
            let row = &self.rows[i];
            let keep = match scope {
                None => true,
                Some(p) => row.in_scope(p),
            };
            if keep {
                let ghost x = *row;
                let mut p: usize = 0;
                loop
                    invariant
                        p <= out@.len(),
                        x == self.rows@[i as int],
                        *row == x,
                        forall|a: int| 0 <= a < p ==> #[trigger] out@[a].order(&x) < 0,
                    ensures
                        p <= out@.len(),
                        forall|a: int| 0 <= a < p ==> #[trigger] out@[a].order(&x) < 0,
                        p < out@.len() ==> out@[p as int].order(&x) >= 0,
                    decreases out@.len() - p,
                {
                    if p == out.len() {
                        break;
                    }
                    if out[p].compare(row) >= 0 {
                        break;
                    }
                    p = p + 1;
                }
                proof {
                    self.lemma_fresh_key(out@, i as int, sc);
                    if p < out@.len() {
                        R::lemma_order(&out@[p as int], &x, &x);
                    }
                    assert forall|a: int| p <= a < out@.len() implies x.order(&#[trigger] out@[a]) < 0 by {
                        if a > p {
                            assert(out@[p as int].order(&out@[a]) < 0);
                            R::lemma_order(&x, &out@[p as int], &out@[a]);
                        }
                    }
                }
                let ghost before = out@;
                out.insert(p, row.duplicate());
                proof {
                    assert(out@ == before.insert(p as int, x));
                    lemma_insert_sorted(before, p as int, x);
                    lemma_insert_members(before, self.rows@, i as int, sc, p as int);
                }
            } else {
                proof {
                    lemma_skip_members(out@, self.rows@, i as int, sc);
                }
            }
            i = i + 1;
        }
        proof {
            assert forall|a: int| 0 <= a < out@.len() implies {
                &&& self@.contains_key((#[trigger] out@[a]).key())
                &&& self@[out@[a].key()] == out@[a]
                &&& in_filter(out@[a], sc)
            } by {
                let x = out@[a];
                assert(self.rows@.take(i as int).contains(x));
                let m = choose|m: int| 0 <= m < self.rows@.take(i as int).len() && self.rows@.take(i as int)[m] == x;
                assert(self.rows@[m] == x);
                self.lemma_row(m);
            }
            assert forall|k: Seq<char>| #[trigger] self@.contains_key(k) && in_filter(self@[k], sc) implies exists|a: int|
                0 <= a < out@.len() && out@[a] == self@[k] by {
                self.lemma_key(k);
                let m = choose|m: int| 0 <= m < self.rows@.len() && self.rows@[m].key() == k && self@[k] == self.rows@[m];
                assert(in_filter(self.rows@[m], sc));
                assert(out@.contains(self.rows@[m]));
            }
        }
        out
    }
}

} // verus!

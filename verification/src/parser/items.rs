//! LR(1) items and item sets: closure and goto. An item `(p, d, la)` is
//! production `p` with the dot before body position `d` and lookahead `la`.
//! An item set is kept as a strictly increasing sequence, so that two sets
//! are equal exactly when their sequences are.
use vstd::prelude::*;
use crate::parser::indexed::Indexed;
use crate::parser::first_sets::{cnt, false_matrix, false_row, lemma_cnt_bound, mat, set_entry, shaped};

verus! {

pub type Item = (usize, usize, usize);

/// The lexicographic order on items.
pub open spec fn item_lt(a: Item, b: Item) -> bool {
    a.0 < b.0 || (a.0 == b.0 && (a.1 < b.1 || (a.1 == b.1 && a.2 < b.2)))
}

/// The items of `s` increase strictly.
pub open spec fn sorted(s: Seq<Item>) -> bool {
    forall|i: int, j: int| 0 <= i < j < s.len() ==> item_lt(#[trigger] s[i], #[trigger] s[j])
}

fn lt_exec(a: Item, b: Item) -> (r: bool)
    ensures
        r == item_lt(a, b),
{
    a.0 < b.0 || (a.0 == b.0 && (a.1 < b.1 || (a.1 == b.1 && a.2 < b.2)))
}

fn eq_exec(a: Item, b: Item) -> (r: bool)
    ensures
        r == (a == b),
{
    a.0 == b.0 && a.1 == b.1 && a.2 == b.2
}

/// Adds `x` to the sorted `v`.
fn insert_sorted(v: &mut Vec<Item>, x: Item)
    requires
        sorted(old(v)@),
    ensures
        sorted(final(v)@),
        forall|z: Item| #[trigger] final(v)@.contains(z) <==> (old(v)@.contains(z) || z == x),
{
    let mut k: usize = 0;
    while k < v.len() && lt_exec(v[k], x)
        invariant
            k <= v.len(),
            forall|j: int| 0 <= j < k ==> item_lt(#[trigger] v@[j], x),
        decreases v.len() - k,
    {
        k += 1;
    }
    if k < v.len() && eq_exec(v[k], x) {
        assert forall|z: Item| #[trigger] v@.contains(z) <==> (v@.contains(z) || z == x) by {
            if z == x {
                assert(v@[k as int] == x);
            }
        }
        return;
    }
    let ghost old_v = v@;
    v.insert(k, x);
    proof {
        old_v.insert_ensures(k as int, x);
        assert forall|i: int, j: int| 0 <= i < j < v@.len() implies item_lt(#[trigger] v@[i], #[trigger] v@[j]) by {
            if j < k {
            } else if j == k {
            } else if i < k {
                assert(v@[j] == old_v[j - 1]);
                if k < old_v.len() {
                    assert(item_lt(x, old_v[k as int]));
                }
            } else if i == k {
                assert(v@[j] == old_v[j - 1]);
                assert(item_lt(x, old_v[k as int]));
            } else {
                assert(v@[j] == old_v[j - 1]);
                assert(v@[i] == old_v[i - 1]);
            }
        }
        assert forall|z: Item| #[trigger] v@.contains(z) <==> (old_v.contains(z) || z == x) by {
            if v@.contains(z) {
                let i = choose|i: int| 0 <= i < v@.len() && v@[i] == z;
                if i < k {
                    assert(old_v[i] == z);
                } else if i > k {
                    assert(old_v[i - 1] == z);
                }
            }
            if old_v.contains(z) {
                let i = choose|i: int| 0 <= i < old_v.len() && old_v[i] == z;
                if i < k {
                    assert(v@[i] == z);
                } else {
                    assert(v@[i + 1] == z);
                }
            }
            if z == x {
                assert(v@[k as int] == z);
            }
        }
    }
}

/// The items of `v`, sorted.
pub fn sort_items(v: &Vec<Item>) -> (r: Vec<Item>)
    ensures
        sorted(r@),
        forall|z: Item| #[trigger] r@.contains(z) <==> v@.contains(z),
{
    let mut r: Vec<Item> = Vec::new();
    let mut i: usize = 0;
    while i < v.len()
        invariant
            i <= v.len(),
            sorted(r@),
            forall|z: Item| #[trigger] r@.contains(z) <==> v@.take(i as int).contains(z),
        decreases v.len() - i,
    {
        insert_sorted(&mut r, v[i]);
        proof {
            assert forall|z: Item| #[trigger] r@.contains(z) <==> v@.take(i + 1).contains(z) by {
                if v@.take(i + 1).contains(z) {
                    let j = choose|j: int| 0 <= j < i + 1 && #[trigger] v@.take(i + 1)[j] == z;
                    if j < i {
                        assert(v@.take(i as int)[j] == z);
                    }
                }
                if v@.take(i as int).contains(z) {
                    let j = choose|j: int| 0 <= j < i && #[trigger] v@.take(i as int)[j] == z;
                    assert(v@.take(i + 1)[j] == z);
                }
                if z == v@[i as int] {
                    assert(v@.take(i + 1)[i as int] == z);
                }
            }
        }
        i += 1;
    }
    assert(v@.take(v.len() as int) =~= v@);
    r
}

/// Two strictly increasing sequences with the same elements are equal.
pub proof fn lemma_sorted_unique(a: Seq<Item>, b: Seq<Item>)
    requires
        sorted(a),
        sorted(b),
        forall|z: Item| a.contains(z) <==> b.contains(z),
    ensures
        a == b,
    decreases a.len(),
{
    if a.len() == 0 {
        if b.len() > 0 {
            assert(b.contains(b[0]));
        }
        assert(a =~= b);
    } else {
        assert(a.contains(a[0]));
        assert(b.len() > 0);
        assert(b.contains(b[0]));
        let j = choose|j: int| 0 <= j < b.len() && b[j] == a[0];
        let i = choose|i: int| 0 <= i < a.len() && a[i] == b[0];
        if j > 0 {
            assert(item_lt(b[0], b[j]));
            if i > 0 {
                assert(item_lt(a[0], a[i]));
            }
        }
        assert(a[0] == b[0]);
        let a1 = a.drop_first();
        let b1 = b.drop_first();
        assert forall|z: Item| a1.contains(z) <==> b1.contains(z) by {
            if a1.contains(z) {
                let k = choose|k: int| 0 <= k < a1.len() && a1[k] == z;
                assert(a[k + 1] == z);
                assert(item_lt(a[0], a[k + 1]));
                assert(b.contains(z));
                let m = choose|m: int| 0 <= m < b.len() && b[m] == z;
                assert(m != 0);
                assert(b1[m - 1] == z);
            }
            if b1.contains(z) {
                let k = choose|k: int| 0 <= k < b1.len() && b1[k] == z;
                assert(b[k + 1] == z);
                assert(item_lt(b[0], b[k + 1]));
                assert(a.contains(z));
                let m = choose|m: int| 0 <= m < a.len() && a[m] == z;
                assert(m != 0);
                assert(a1[m - 1] == z);
            }
        }
        assert forall|x: int, y: int| 0 <= x < y < a1.len() implies item_lt(#[trigger] a1[x], #[trigger] a1[y]) by {
            assert(a1[x] == a[x + 1] && a1[y] == a[y + 1]);
        }
        assert forall|x: int, y: int| 0 <= x < y < b1.len() implies item_lt(#[trigger] b1[x], #[trigger] b1[y]) by {
            assert(b1[x] == b[x + 1] && b1[y] == b[y + 1]);
        }
        lemma_sorted_unique(a1, b1);
        assert(a.len() == b.len());
        assert forall|x: int| 0 <= x < a.len() implies a[x] == b[x] by {
            if x > 0 {
                assert(a[x] == a1[x - 1]);
                assert(b[x] == b1[x - 1]);
            }
        }
        assert(a =~= b);
    }
}

impl Indexed {
    /// An item of this grammar with a lookahead other than `NULL`.
    pub open spec fn valid_item(&self, it: Item) -> bool {
        &&& it.0 < self.nprods()
        &&& it.1 <= self.body(it.0 as int).len()
        &&& it.2 < self.w()
        &&& it.2 != self.null()
    }

    /// `y` may come first after body position `k` of production `p`, the
    /// item's lookahead `la` standing for what follows the production.
    pub open spec fn la_in(&self, f: spec_fn(int, int) -> bool, p: int, k: int, la: int, y: int) -> bool
        decreases self.body(p).len() - k,
    {
        if k >= self.body(p).len() || k < 0 {
            y == la
        } else if self.body(p)[k] == self.null() {
            self.la_in(f, p, k + 1, la, y)
        } else {
            (y != self.null() && f(self.body(p)[k] as int, y)) || (f(
                self.body(p)[k] as int,
                self.null() as int,
            ) && self.la_in(f, p, k + 1, la, y))
        }
    }

    /// An item with the dot before a nonterminal brings in that nonterminal's
    /// productions, for each lookahead that may follow the nonterminal.
    pub open spec fn closure_rule(&self, f: spec_fn(int, int) -> bool, j: Set<Item>, it: Item, q: int, y: int) -> bool {
        (j.contains(it) && it.0 < self.nprods() && it.1 < self.body(it.0 as int).len() && self.is_nt(
            self.body(it.0 as int)[it.1 as int] as int,
        ) && 0 <= q < self.n_real && self.head(q) == self.body(it.0 as int)[it.1 as int] && 0 <= y
            < self.w() && y != self.null() && self.la_in(f, it.0 as int, it.1 + 1, it.2 as int, y)) ==> j.contains(
            (q as usize, 0usize, y as usize),
        )
    }

    /// `j` is closed.
    pub open spec fn item_closed(&self, f: spec_fn(int, int) -> bool, j: Set<Item>) -> bool {
        forall|it: Item, q: int, y: int| #[trigger] self.closure_rule(f, j, it, q, y)
    }

    /// `r` is the closure of `k`: the least closed set that holds `k`.
    pub open spec fn closure_of(&self, f: spec_fn(int, int) -> bool, r: Set<Item>, k: Set<Item>) -> bool {
        &&& k.subset_of(r)
        &&& self.item_closed(f, r)
        &&& forall|j: Set<Item>| #[trigger] self.item_closed(f, j) && k.subset_of(j) ==> r.subset_of(j)
    }

    /// The items of `s` with the dot moved over the symbol `x`.
    pub open spec fn kernel(&self, s: Set<Item>, x: int) -> Set<Item> {
        Set::new(
            |it: Item|
                it.1 >= 1 && s.contains((it.0, (it.1 - 1) as usize, it.2)) && it.0 < self.nprods()
                    && it.1 - 1 < self.body(it.0 as int).len() && self.body(it.0 as int)[it.1 - 1] == x,
        )
    }

    /// `r` is the goto of `s` on `x`.
    pub open spec fn is_goto(&self, f: spec_fn(int, int) -> bool, s: Set<Item>, x: int, r: Set<Item>) -> bool {
        self.closure_of(f, r, self.kernel(s, x))
    }
}

pub proof fn lemma_closure_unique(g: &Indexed, f: spec_fn(int, int) -> bool, r1: Set<Item>, r2: Set<Item>, k: Set<Item>)
    requires
        g.closure_of(f, r1, k),
        g.closure_of(f, r2, k),
    ensures
        r1 == r2,
{
    assert(r1.subset_of(r2));
    assert(r2.subset_of(r1));
    assert(r1 =~= r2);
}

/// The lookaheads that may follow body position `start` of production `p`,
/// given the item's lookahead `la`.
fn lookaheads(g: &Indexed, first: &Vec<Vec<bool>>, p: usize, start: usize, la: usize) -> (r: Vec<bool>)
    requires
        g.wf(),
        shaped(first@, g.n(), g.w()),
        p < g.nprods(),
        start <= g.body(p as int).len(),
        la < g.w(),
    ensures
        r@.len() == g.w(),
        forall|y: int| 0 <= y < g.w() ==> #[trigger] r@[y] == g.la_in(mat(first@), p as int, start as int, la as int, y),
{
    let b = &g.prods[p].1;
    let null = g.names.len();
    let w = null + 2;
    let mut r = false_row(w);
    let mut k: usize = start;
    let mut has_null = true;
    while k < b.len() && has_null
        invariant
            g.wf(),
            shaped(first@, g.n(), g.w()),
            p < g.nprods(),
            b@ == g.body(p as int),
            null == g.null(),
            w == g.w(),
            start <= k <= b.len(),
            r@.len() == w,
            forall|y: int| 0 <= y < w ==> g.la_in(mat(first@), p as int, start as int, la as int, y) == (#[trigger] r@[y] || (has_null && g.la_in(mat(first@), p as int, k as int, la as int, y))),
        decreases b.len() - k,
    {
        let s = b[k];
        let ghost f = mat(first@);
        let ghost r0 = r@;
        proof {
            assert(g.body(p as int)[k as int] <= g.null());
            assert forall|y: int| 0 <= y < w implies #[trigger] g.la_in(f, p as int, start as int, la as int, y) == (r0[y] || g.la_in(f, p as int, k as int, la as int, y)) by {
                assert(g.la_in(f, p as int, start as int, la as int, y) == (r@[y] || (has_null && g.la_in(f, p as int, k as int, la as int, y))));
            }
        }
        if s != null {
            let mut y: usize = 0;
            while y < w
                invariant
                    shaped(first@, g.n(), g.w()),
                    null == g.null(),
                    w == g.w(),
                    s < null,
                    y <= w,
                    r@.len() == w,
                    r0.len() == w,
                    f == mat(first@),
                    forall|yy: int| 0 <= yy < w ==> #[trigger] g.la_in(f, p as int, start as int, la as int, yy) == (r0[yy] || g.la_in(f, p as int, k as int, la as int, yy)),
                    forall|yy: int| 0 <= yy < y ==> #[trigger] r@[yy] == (r0[yy] || (yy != null && first@[s as int]@[yy])),
                    forall|yy: int| y <= yy < w ==> #[trigger] r@[yy] == r0[yy],
                decreases w - y,
            {
                if y != null && first[s][y] {
                    r.set(y, true);
                }
                y += 1;
            }
            proof {
                assert forall|y: int| 0 <= y < w implies g.la_in(f, p as int, start as int, la as int, y) == (#[trigger] r@[y] || (first@[s as int]@[null as int] && g.la_in(f, p as int, k + 1, la as int, y))) by {
                    assert(s == g.body(p as int)[k as int]);
                    assert(first@[s as int]@.len() == w);
                    assert(f(s as int, y) == first@[s as int]@[y]);
                    assert(f(s as int, null as int) == first@[s as int]@[null as int]);
                    assert(g.la_in(f, p as int, k as int, la as int, y) == ((y != g.null() && f(s as int, y)) || (f(s as int, g.null() as int) && g.la_in(f, p as int, k + 1, la as int, y))));
                    assert(g.la_in(f, p as int, start as int, la as int, y) == (r0[y] || g.la_in(f, p as int, k as int, la as int, y)));
                }
            }
            if !first[s][null] {
                has_null = false;
            }
        } else {
            proof {
                assert forall|y: int| 0 <= y < w implies g.la_in(f, p as int, start as int, la as int, y) == (#[trigger] r@[y] || (has_null && g.la_in(f, p as int, k + 1, la as int, y))) by {
                    assert(g.body(p as int)[k as int] == g.null());
                    assert(g.la_in(f, p as int, k as int, la as int, y) == g.la_in(f, p as int, k + 1, la as int, y));
                    assert(g.la_in(f, p as int, start as int, la as int, y) == (r@[y] || g.la_in(f, p as int, k as int, la as int, y)));
                }
            }
        }
        k += 1;
    }
    if has_null {
        let ghost r0 = r@;
        proof {
            assert forall|y: int| 0 <= y < g.w() implies #[trigger] g.la_in(mat(first@), p as int, start as int, la as int, y) == (r0[y] || g.la_in(mat(first@), p as int, k as int, la as int, y)) by {
                assert(r0[y] == r@[y]);
            }
        }
        r.set(la, true);
        proof {
            assert forall|y: int| 0 <= y < g.w() implies #[trigger] r@[y] == g.la_in(mat(first@), p as int, start as int, la as int, y) by {
                assert(k >= g.body(p as int).len());
                assert(g.la_in(mat(first@), p as int, k as int, la as int, y) == (y == la));
                assert(g.la_in(mat(first@), p as int, start as int, la as int, y) == (r0[y] || g.la_in(mat(first@), p as int, k as int, la as int, y)));
                if y != la {
                    assert(r@[y] == r0[y]);
                }
            }
        }
    }
    r
}


/// Adds the items `(q, 0, y)` for each production `q` of `x` and each
/// lookahead `y` marked in `la` that `seen` does not hold yet.
fn add_productions(g: &Indexed, x: usize, la: &Vec<bool>, cur: &mut Vec<Item>, seen: &mut Vec<Vec<bool>>)
    requires
        g.wf(),
        la@.len() == g.w(),
        shaped(old(seen)@, g.n_real as nat, g.w()),
        forall|q: int, y: int|
            0 <= q < g.n_real && 0 <= y < g.w() && #[trigger] old(seen)@[q]@[y] ==> old(cur)@.contains(
                (q as usize, 0usize, y as usize),
            ),
    ensures
        shaped(final(seen)@, g.n_real as nat, g.w()),
        forall|q: int, y: int|
            0 <= q < g.n_real && 0 <= y < g.w() && #[trigger] final(seen)@[q]@[y] ==> final(cur)@.contains(
                (q as usize, 0usize, y as usize),
            ),
        final(cur)@.len() >= old(cur)@.len(),
        final(cur)@.take(old(cur)@.len() as int) == old(cur)@,
        final(cur)@.len() - old(cur)@.len() == cnt(final(seen)@) - cnt(old(seen)@),
        forall|j: int|
            old(cur)@.len() <= j < final(cur)@.len() ==> {
                let it = #[trigger] final(cur)@[j];
                &&& it.1 == 0
                &&& it.0 < g.n_real
                &&& g.head(it.0 as int) == x
                &&& it.2 < g.w()
                &&& it.2 != g.null()
                &&& la@[it.2 as int]
            },
        forall|q: int, y: int|
            0 <= q < g.n_real && g.head(q) == x && 0 <= y < g.w() && y != g.null() && la@[y]
                ==> #[trigger] final(cur)@.contains((q as usize, 0usize, y as usize)),
{
    let ghost cur0 = cur@;
    let ghost seen0 = seen@;
    let null = g.names.len();
    let w = null + 2;
    let mut q: usize = 0;
    while q < g.n_real
        invariant
            g.wf(),
            null == g.null(),
            w == g.w(),
            la@.len() == w,
            q <= g.n_real,
            shaped(seen@, g.n_real as nat, g.w()),
            forall|qq: int, y: int|
                0 <= qq < g.n_real && 0 <= y < g.w() && #[trigger] seen@[qq]@[y] ==> cur@.contains(
                    (qq as usize, 0usize, y as usize),
                ),
            cur@.len() >= cur0.len(),
            cur@.take(cur0.len() as int) == cur0,
            cur@.len() - cur0.len() == cnt(seen@) - cnt(seen0),
            forall|j: int|
                cur0.len() <= j < cur@.len() ==> {
                    let it = #[trigger] cur@[j];
                    &&& it.1 == 0
                    &&& it.0 < g.n_real
                    &&& g.head(it.0 as int) == x
                    &&& it.2 < g.w()
                    &&& it.2 != g.null()
                    &&& la@[it.2 as int]
                },
            forall|qq: int, y: int|
                0 <= qq < q && g.head(qq) == x && 0 <= y < g.w() && y != g.null() && la@[y]
                    ==> #[trigger] cur@.contains((qq as usize, 0usize, y as usize)),
        decreases g.n_real - q,
    {
        assert(q < g.prods@.len());
        if g.prods[q].0 == x {
            let mut y: usize = 0;
            while y < w
                invariant
                    g.wf(),
                    null == g.null(),
                    w == g.w(),
                    la@.len() == w,
                    q < g.n_real,
                    g.head(q as int) == x,
                    y <= w,
                    shaped(seen@, g.n_real as nat, g.w()),
                    forall|qq: int, yy: int|
                        0 <= qq < g.n_real && 0 <= yy < g.w() && #[trigger] seen@[qq]@[yy] ==> cur@.contains(
                            (qq as usize, 0usize, yy as usize),
                        ),
                    cur@.len() >= cur0.len(),
                    cur@.take(cur0.len() as int) == cur0,
                    cur@.len() - cur0.len() == cnt(seen@) - cnt(seen0),
                    forall|j: int|
                        cur0.len() <= j < cur@.len() ==> {
                            let it = #[trigger] cur@[j];
                            &&& it.1 == 0
                            &&& it.0 < g.n_real
                            &&& g.head(it.0 as int) == x
                            &&& it.2 < g.w()
                            &&& it.2 != g.null()
                            &&& la@[it.2 as int]
                        },
                    forall|qq: int, yy: int|
                        0 <= qq < q && g.head(qq) == x && 0 <= yy < g.w() && yy != g.null() && la@[yy]
                            ==> #[trigger] cur@.contains((qq as usize, 0usize, yy as usize)),
                    forall|yy: int|
                        0 <= yy < y && yy != g.null() && #[trigger] la@[yy] ==> cur@.contains((q, 0usize, yy as usize)),
                decreases w - y,
            {
                if y != null && la[y] {
                    let ghost s0 = seen@;
                    let ghost c0 = cur@;
                    let changed = set_entry(seen, q, y);
                    if changed {
                        cur.push((q, 0, y));
                        proof {
                            assert(cur@.take(cur0.len() as int) =~= c0.take(cur0.len() as int));
                            assert(cur@[c0.len() as int] == (q, 0usize, y));
                            assert forall|qq: int, yy: int|
                                0 <= qq < g.n_real && 0 <= yy < g.w() && #[trigger] seen@[qq]@[yy] implies cur@.contains(
                                    (qq as usize, 0usize, yy as usize)) by {
                                if qq == q && yy == y {
                                    assert(cur@[c0.len() as int] == (q, 0usize, y));
                                } else {
                                    assert(s0[qq]@[yy]);
                                    assert(c0.contains((qq as usize, 0usize, yy as usize)));
                                    let k = choose|k: int| 0 <= k < c0.len() && c0[k] == (qq as usize, 0usize, yy as usize);
                                    assert(cur@[k] == c0[k]);
                                }
                            }
                            assert forall|qq: int, yy: int|
                                0 <= qq < q && g.head(qq) == x && 0 <= yy < g.w() && yy != g.null() && la@[yy]
                                    implies #[trigger] cur@.contains((qq as usize, 0usize, yy as usize)) by {
                                assert(c0.contains((qq as usize, 0usize, yy as usize)));
                                let k = choose|k: int| 0 <= k < c0.len() && c0[k] == (qq as usize, 0usize, yy as usize);
                                assert(cur@[k] == c0[k]);
                            }
                            assert forall|yy: int|
                                0 <= yy < y + 1 && yy != g.null() && #[trigger] la@[yy] implies cur@.contains((q, 0usize, yy as usize)) by {
                                if yy < y {
                                    assert(c0.contains((q, 0usize, yy as usize)));
                                    let k = choose|k: int| 0 <= k < c0.len() && c0[k] == (q, 0usize, yy as usize);
                                    assert(cur@[k] == c0[k]);
                                }
                            }
                        }
                    } else {
                        proof {
                            assert(s0[q as int]@[y as int]);
                        }
                    }
                }
                y += 1;
            }
        }
        q += 1;
    }
}

/// The closure of the items `kernel`, sorted.
pub fn closure(g: &Indexed, first: &Vec<Vec<bool>>, kernel: &Vec<Item>) -> (r: Vec<Item>)
    requires
        g.wf(),
        shaped(first@, g.n(), g.w()),
        forall|j: int| 0 <= j < kernel.len() ==> g.valid_item(#[trigger] kernel@[j]),
    ensures
        sorted(r@),
        g.closure_of(mat(first@), r@.to_set(), kernel@.to_set()),
        forall|j: int| 0 <= j < r.len() ==> g.valid_item(#[trigger] r@[j]),
        forall|j: int| 0 <= j < r.len() && !kernel@.contains(#[trigger] r@[j]) ==> r@[j].1 == 0,
        r@.len() == 0 <==> kernel@.len() == 0,
{
    let ghost f = mat(first@);
    let mut cur: Vec<Item> = Vec::new();
    let mut i: usize = 0;
    while i < kernel.len()
        invariant
            i <= kernel.len(),
            cur@ == kernel@.take(i as int),
        decreases kernel.len() - i,
    {
        cur.push(kernel[i]);
        i += 1;
        assert(cur@ =~= kernel@.take(i as int));
    }
    assert(kernel@.take(kernel.len() as int) =~= kernel@);
    let null = g.names.len();
    let w = null + 2;
    let mut seen = false_matrix(g.n_real, w);
    i = 0;
    while i < cur.len()
        invariant
            g.wf(),
            f == mat(first@),
            shaped(first@, g.n(), g.w()),
            null == g.null(),
            w == g.w(),
            i <= cur.len(),
            cur@.len() >= kernel@.len(),
            cur@.take(kernel@.len() as int) == kernel@,
            shaped(seen@, g.n_real as nat, g.w()),
            forall|q: int, y: int|
                0 <= q < g.n_real && 0 <= y < g.w() && #[trigger] seen@[q]@[y] ==> cur@.contains(
                    (q as usize, 0usize, y as usize),
                ),
            forall|j: int| 0 <= j < cur.len() ==> g.valid_item(#[trigger] cur@[j]),
            forall|j: int| kernel@.len() <= j < cur.len() ==> (#[trigger] cur@[j]).1 == 0,
            forall|j: int, q: int, y: int| 0 <= j < i ==> #[trigger] g.closure_rule(f, cur@.to_set(), cur@[j], q, y),
            forall|jj: Set<Item>|
                #[trigger] g.item_closed(f, jj) && kernel@.to_set().subset_of(jj) ==> cur@.to_set().subset_of(jj),
        decreases g.n_real * g.w() - cnt(seen@), cur.len() - i,
    {
        proof {
            lemma_cnt_bound(seen@, g.w());
        }
        let it = cur[i];
        let p = it.0;
        let d = it.1;
        let ghost c0 = cur@;
        let ghost s0 = seen@;
        if d < g.prods[p].1.len() {
            let x = g.prods[p].1[d];
            assert(x <= null);
            if x != null && g.is_nonterm[x] {
                let la = lookaheads(g, first, p, d + 1, it.2);
                add_productions(g, x, &la, &mut cur, &mut seen);
                proof {
                    assert forall|j: int| 0 <= j < cur.len() implies g.valid_item(#[trigger] cur@[j]) by {
                        if j < c0.len() {
                            assert(cur@[j] == c0.take(c0.len() as int)[j]);
                        } else {
                            assert(g.body(cur@[j].0 as int).len() >= 0);
                        }
                    }
                    assert forall|j: int| kernel@.len() <= j < cur.len() implies (#[trigger] cur@[j]).1 == 0 by {
                        if j < c0.len() {
                            assert(cur@[j] == c0.take(c0.len() as int)[j]);
                        }
                    }
                    assert(cur@.take(kernel@.len() as int) =~= c0.take(kernel@.len() as int));
                    assert forall|z: Item| c0.to_set().contains(z) implies cur@.to_set().contains(z) by {
                        let k = choose|k: int| 0 <= k < c0.len() && c0[k] == z;
                        assert(cur@[k] == c0.take(c0.len() as int)[k]);
                    }
                    assert forall|j: int, q: int, y: int| 0 <= j < i + 1 implies #[trigger] g.closure_rule(f, cur@.to_set(), cur@[j], q, y) by {
                        assert(cur@[j] == c0.take(c0.len() as int)[j]);
                        if j < i {
                            assert(g.closure_rule(f, c0.to_set(), c0[j], q, y));
                        } else {
                            if 0 <= q < g.n_real && g.head(q) == x && 0 <= y < g.w() && y != g.null() && g.la_in(f, p as int, d + 1, it.2 as int, y) {
                                assert(la@[y]);
                                assert(cur@.contains((q as usize, 0usize, y as usize)));
                            }
                        }
                    }
                    assert forall|jj: Set<Item>|
                        #[trigger] g.item_closed(f, jj) && kernel@.to_set().subset_of(jj) implies cur@.to_set().subset_of(jj) by {
                        assert(c0.to_set().subset_of(jj));
                        assert forall|z: Item| cur@.to_set().contains(z) implies jj.contains(z) by {
                            let k = choose|k: int| 0 <= k < cur@.len() && cur@[k] == z;
                            if k < c0.len() {
                                assert(c0[k] == z);
                            } else {
                                assert(c0.to_set().contains(it));
                                assert(jj.contains(it));
                                assert(g.closure_rule(f, jj, it, z.0 as int, z.2 as int));
                                assert(la@[z.2 as int]);
                            }
                        }
                    }
                }
            } else {
                proof {
                    assert forall|j: int, q: int, y: int| 0 <= j < i + 1 implies #[trigger] g.closure_rule(f, cur@.to_set(), cur@[j], q, y) by {
                    }
                }
            }
        } else {
            proof {
                assert forall|j: int, q: int, y: int| 0 <= j < i + 1 implies #[trigger] g.closure_rule(f, cur@.to_set(), cur@[j], q, y) by {
                }
            }
        }
        proof {
            lemma_cnt_bound(seen@, g.w());
        }
        i += 1;
    }
    let r = sort_items(&cur);
    proof {
        assert(r@.to_set() =~= cur@.to_set());
        assert forall|z: Item| kernel@.to_set().contains(z) implies r@.to_set().contains(z) by {
            let k = choose|k: int| 0 <= k < kernel@.len() && kernel@[k] == z;
            assert(cur@[k] == cur@.take(kernel@.len() as int)[k]);
            assert(cur@.contains(z));
        }
        assert forall|it: Item, q: int, y: int| #[trigger] g.closure_rule(f, r@.to_set(), it, q, y) by {
            if r@.to_set().contains(it) {
                let k = choose|k: int| 0 <= k < cur@.len() && cur@[k] == it;
                assert(g.closure_rule(f, cur@.to_set(), cur@[k], q, y));
            }
        }
        assert forall|j: int| 0 <= j < r.len() implies g.valid_item(#[trigger] r@[j]) by {
            assert(r@.contains(r@[j]));
            let k = choose|k: int| 0 <= k < cur@.len() && cur@[k] == r@[j];
        }
        assert forall|j: int| 0 <= j < r.len() && !kernel@.contains(#[trigger] r@[j]) implies r@[j].1 == 0 by {
            assert(r@.contains(r@[j]));
            let k = choose|k: int| 0 <= k < cur@.len() && cur@[k] == r@[j];
            if k < kernel@.len() {
                assert(cur@[k] == cur@.take(kernel@.len() as int)[k]);
            }
        }
        if kernel@.len() == 0 {
            let e = Set::<Item>::empty();
            assert forall|it: Item, q: int, y: int| #[trigger] g.closure_rule(f, e, it, q, y) by {}
            assert(g.item_closed(f, e));
            assert(kernel@.to_set().subset_of(e));
            if r@.len() > 0 {
                assert(r@.to_set().contains(r@[0]));
            }
        } else {
            assert(kernel@.to_set().contains(kernel@[0]));
            assert(r@.to_set().contains(kernel@[0]));
        }
    }
    r
}

/// The items of `s` whose dot stands before `x`, with the dot moved over `x`.
fn kernel_items(g: &Indexed, s: &Vec<Item>, x: usize) -> (k: Vec<Item>)
    requires
        g.wf(),
        forall|j: int| 0 <= j < s.len() ==> g.valid_item(#[trigger] s@[j]),
    ensures
        k@.to_set() == g.kernel(s@.to_set(), x as int),
        forall|j: int| 0 <= j < k.len() ==> g.valid_item(#[trigger] k@[j]),
{
    let mut k: Vec<Item> = Vec::new();
    let mut i: usize = 0;
    while i < s.len()
        invariant
            g.wf(),
            i <= s.len(),
            forall|j: int| 0 <= j < s.len() ==> g.valid_item(#[trigger] s@[j]),
            forall|j: int| 0 <= j < k.len() ==> g.valid_item(#[trigger] k@[j]),
            forall|it: Item| k@.contains(it) <==> (#[trigger] g.kernel(s@.take(i as int).to_set(), x as int).contains(it)),
        decreases s.len() - i,
    {
        let it = s[i];
        let ghost k0 = k@;
        if it.1 < g.prods[it.0].1.len() && g.prods[it.0].1[it.1] == x {
            k.push((it.0, it.1 + 1, it.2));
        }
        proof {
            let ghost sa = s@.take(i as int).to_set();
            let ghost sb = s@.take(i + 1).to_set();
            assert forall|z: Item| sb.contains(z) <==> (sa.contains(z) || z == it) by {
                if sa.contains(z) {
                    let m = choose|m: int| 0 <= m < s@.take(i as int).len() && #[trigger] s@.take(i as int)[m] == z;
                    assert(s@.take(i + 1)[m] == z);
                }
                if sb.contains(z) {
                    let m = choose|m: int| 0 <= m < s@.take(i + 1).len() && #[trigger] s@.take(i + 1)[m] == z;
                    if m < i {
                        assert(s@.take(i as int)[m] == z);
                    }
                }
                assert(s@.take(i + 1)[i as int] == it);
            }
            assert forall|z: Item| k@.contains(z) <==> (#[trigger] g.kernel(sb, x as int).contains(z)) by {
                assert(k@.contains(z) <==> k0.contains(z) || (k@.len() > k0.len() && z == k@.last())) by {
                    if k0.contains(z) {
                        let m = choose|m: int| 0 <= m < k0.len() && k0[m] == z;
                        assert(k@[m] == z);
                    }
                    if k@.contains(z) {
                        let m = choose|m: int| 0 <= m < k@.len() && k@[m] == z;
                        if m < k0.len() {
                            assert(k0[m] == z);
                        }
                    }
                    if k@.len() > k0.len() {
                        assert(k@[k@.len() - 1] == k@.last());
                    }
                }
                assert(g.kernel(sa, x as int).contains(z) == k0.contains(z));
                if z.1 >= 1 && z.0 < g.nprods() {
                    let src = (z.0, (z.1 - 1) as usize, z.2);
                    assert(sb.contains(src) <==> (sa.contains(src) || src == it));
                }
            }
        }
        i += 1;
    }
    assert(s@.take(s.len() as int) =~= s@);
    assert(k@.to_set() =~= g.kernel(s@.to_set(), x as int));
    k
}

/// The goto of the item set `s` on the symbol `x`.
pub fn goto(g: &Indexed, first: &Vec<Vec<bool>>, s: &Vec<Item>, x: usize) -> (r: Vec<Item>)
    requires
        g.wf(),
        shaped(first@, g.n(), g.w()),
        forall|j: int| 0 <= j < s.len() ==> g.valid_item(#[trigger] s@[j]),
    ensures
        sorted(r@),
        g.is_goto(mat(first@), s@.to_set(), x as int, r@.to_set()),
        forall|j: int| 0 <= j < r.len() ==> g.valid_item(#[trigger] r@[j]),
        r@.len() == 0 <==> g.kernel(s@.to_set(), x as int) =~= Set::empty(),
{
    let k = kernel_items(g, s, x);
    let r = closure(g, first, &k);
    proof {
        if k@.len() > 0 {
            assert(k@.to_set().contains(k@[0]));
        } else {
            assert(k@.to_set() =~= Set::empty());
        }
    }
    r
}

/// Whether two item lists are equal.
fn same_items(a: &Vec<Item>, b: &Vec<Item>) -> (r: bool)
    ensures
        r == (a@ == b@),
{
    if a.len() != b.len() {
        return false;
    }
    let mut i: usize = 0;
    while i < a.len()
        invariant
            i <= a.len() == b.len(),
            forall|j: int| 0 <= j < i ==> a@[j] == b@[j],
        decreases a.len() - i,
    {
        if !eq_exec(a[i], b[i]) {
            return false;
        }
        i += 1;
    }
    assert(a@ =~= b@);
    true
}

/// The position of the item list `t` among `states`.
fn find_state(states: &Vec<Vec<Item>>, t: &Vec<Item>) -> (r: Option<usize>)
    ensures
        match r {
            Some(k) => k < states.len() && states@[k as int]@ == t@,
            None => forall|k: int| 0 <= k < states.len() ==> (#[trigger] states@[k])@ != t@,
        },
{
    let mut i: usize = 0;
    while i < states.len()
        invariant
            i <= states.len(),
            forall|k: int| 0 <= k < i ==> (#[trigger] states@[k])@ != t@,
        decreases states.len() - i,
    {
        if same_items(&states[i], t) {
            return Some(i);
        }
        i += 1;
    }
    None
}

/// The contents of a list of item lists.
pub open spec fn sets_view(states: Seq<Vec<Item>>) -> Seq<Seq<Item>> {
    states.map_values(|v: Vec<Item>| v@)
}

impl Indexed {
    /// The initial item: the augmenting production, dot first, end marker ahead.
    pub open spec fn start_item(&self) -> Item {
        (self.init, 0usize, self.end_ix)
    }

    /// Each set is sorted, nonempty and made of valid items.
    pub open spec fn sets_ok(&self, st: Seq<Seq<Item>>) -> bool {
        &&& forall|k: int| 0 <= k < st.len() ==> sorted(#[trigger] st[k])
        &&& forall|k: int| 0 <= k < st.len() ==> (#[trigger] st[k]).len() > 0
        &&& forall|k: int, j: int| 0 <= k < st.len() && 0 <= j < st[k].len() ==> self.valid_item(#[trigger] st[k][j])
    }

    /// No set occurs twice.
    pub open spec fn distinct_sets(&self, st: Seq<Seq<Item>>) -> bool {
        forall|a: int, b: int| 0 <= a < b < st.len() ==> #[trigger] st[a] != #[trigger] st[b]
    }

    /// The goto of set `k` on `x`, if nonempty, is among the sets.
    pub open spec fn goto_done(&self, f: spec_fn(int, int) -> bool, st: Seq<Seq<Item>>, k: int, x: int) -> bool {
        forall|r: Set<Item>|
            #[trigger] self.is_goto(f, st[k].to_set(), x, r) && r != Set::<Item>::empty() ==> exists|m: int|
                0 <= m < st.len() && #[trigger] st[m].to_set() == r
    }

    /// Set `m` is the goto of an earlier set on some symbol.
    pub open spec fn from_earlier(&self, f: spec_fn(int, int) -> bool, st: Seq<Seq<Item>>, m: int) -> bool {
        exists|k: int, x: int| 0 <= k < m && 0 <= x < self.n() && #[trigger] self.is_goto(f, st[k].to_set(), x, st[m].to_set())
    }

    /// `states` is the canonical collection of LR(1) item sets: the closure
    /// of the initial item first, each set sorted, nonempty and met once, every
    /// nonempty goto of a set on a symbol among them, and each set after the
    /// first the goto of an earlier one.
    pub open spec fn collection(&self, f: spec_fn(int, int) -> bool, st: Seq<Seq<Item>>) -> bool {
        &&& st.len() >= 1
        &&& self.closure_of(f, st[0].to_set(), set![self.start_item()])
        &&& self.sets_ok(st)
        &&& self.distinct_sets(st)
        &&& forall|k: int, x: int| 0 <= k < st.len() && 0 <= x < self.n() ==> #[trigger] self.goto_done(f, st, k, x)
        &&& forall|m: int| 1 <= m < st.len() ==> #[trigger] self.from_earlier(f, st, m)
    }
}

proof fn lemma_push_keeps(g: &Indexed, f: spec_fn(int, int) -> bool, st: Seq<Seq<Item>>, v: Seq<Item>)
    ensures
        forall|k: int, x: int| 0 <= k < st.len() && #[trigger] g.goto_done(f, st, k, x) ==> g.goto_done(f, st.push(v), k, x),
        forall|m: int| 0 <= m < st.len() && #[trigger] g.from_earlier(f, st, m) ==> g.from_earlier(f, st.push(v), m),
{
    let st2 = st.push(v);
    assert forall|k: int, x: int| 0 <= k < st.len() && #[trigger] g.goto_done(f, st, k, x) implies g.goto_done(f, st2, k, x) by {
        assert(st2[k] == st[k]);
        assert forall|r: Set<Item>| #[trigger] g.is_goto(f, st2[k].to_set(), x, r) && r != Set::<Item>::empty() implies exists|m: int|
            0 <= m < st2.len() && #[trigger] st2[m].to_set() == r by {
            let m = choose|m: int| 0 <= m < st.len() && #[trigger] st[m].to_set() == r;
            assert(st2[m] == st[m]);
        }
    }
    assert forall|m: int| 0 <= m < st.len() && #[trigger] g.from_earlier(f, st, m) implies g.from_earlier(f, st2, m) by {
        let (k, x) = choose|k: int, x: int| 0 <= k < m && 0 <= x < g.n() && #[trigger] g.is_goto(f, st[k].to_set(), x, st[m].to_set());
        assert(st2[k] == st[k] && st2[m] == st[m]);
    }
}

/// The item sets of the grammar.
pub fn build_items(g: &Indexed, first: &Vec<Vec<bool>>) -> (states: Vec<Vec<Item>>)
    requires
        g.wf(),
        shaped(first@, g.n(), g.w()),
    ensures
        g.collection(mat(first@), sets_view(states@)),
{
    let ghost f = mat(first@);
    let mut k0: Vec<Item> = Vec::new();
    k0.push((g.init, 0, g.end_ix));
    assert forall|z: Item| k0@.to_set().contains(z) <==> set![g.start_item()].contains(z) by {
        if z == g.start_item() {
            assert(k0@[0] == z);
        }
    }
    assert(k0@.to_set() =~= set![g.start_item()]);
    let s0 = closure(g, first, &k0);
    let mut states: Vec<Vec<Item>> = Vec::new();
    states.push(s0);
    assert(sets_view(states@) =~= seq![s0@]);
    let n = g.names.len();
    let mut i: usize = 0;
    while i < states.len()
        invariant
            g.wf(),
            f == mat(first@),
            shaped(first@, g.n(), g.w()),
            n == g.n(),
            i <= states.len(),
            states.len() >= 1,
            g.closure_of(f, sets_view(states@)[0].to_set(), set![g.start_item()]),
            g.sets_ok(sets_view(states@)),
            g.distinct_sets(sets_view(states@)),
            forall|k: int, x: int| 0 <= k < i && 0 <= x < g.n() ==> #[trigger] g.goto_done(f, sets_view(states@), k, x),
            forall|m: int| 1 <= m < states.len() ==> #[trigger] g.from_earlier(f, sets_view(states@), m),
        decreases usize::MAX - states.len(), states.len() - i,
    {
        let ghost len0 = states.len();
        let mut x: usize = 0;
        while x < n
            invariant
                g.wf(),
                f == mat(first@),
                shaped(first@, g.n(), g.w()),
                n == g.n(),
                i < states.len(),
                states.len() >= len0,
                x <= n,
                g.closure_of(f, sets_view(states@)[0].to_set(), set![g.start_item()]),
                g.sets_ok(sets_view(states@)),
                g.distinct_sets(sets_view(states@)),
                forall|k: int, xx: int| ((0 <= k < i && 0 <= xx < g.n()) || (k == i && 0 <= xx < x)) ==> #[trigger] g.goto_done(f, sets_view(states@), k, xx),
                forall|m: int| 1 <= m < states.len() ==> #[trigger] g.from_earlier(f, sets_view(states@), m),
            decreases n - x,
        {
            let ghost sv = sets_view(states@);
            assert(sv[i as int] == states@[i as int]@);
            let gt = goto(g, first, &states[i], x);
            let ghost mut hit: int = -1;
            let ghost mut added = false;
            if gt.len() > 0 {
                match find_state(&states, &gt) {
                    Some(k) => {
                        proof {
                            hit = k as int;
                        }
                    },
                    None => {
                        states.push(gt);
                        proof {
                            added = true;
                            assert(sets_view(states@) =~= sv.push(gt@));
                            lemma_push_keeps(g, f, sv, gt@);
                            let sv2 = sv.push(gt@);
                            assert(sv2[0] == sv[0]);
                            assert forall|a: int, b: int| 0 <= a < b < sv2.len() implies #[trigger] sv2[a] != #[trigger] sv2[b] by {
                                if b == sv.len() {
                                    assert(sv[a] == states@[a]@);
                                } else {
                                    assert(sv2[a] == sv[a] && sv2[b] == sv[b]);
                                }
                            }
                            assert forall|k: int| 0 <= k < sv2.len() implies sorted(#[trigger] sv2[k]) by {
                                if k < sv.len() { assert(sv2[k] == sv[k]); }
                            }
                            assert forall|k: int| 0 <= k < sv2.len() implies (#[trigger] sv2[k]).len() > 0 by {
                                if k < sv.len() { assert(sv2[k] == sv[k]); }
                            }
                            assert forall|k: int, j: int| 0 <= k < sv2.len() && 0 <= j < sv2[k].len() implies g.valid_item(#[trigger] sv2[k][j]) by {
                                if k < sv.len() { assert(sv2[k] == sv[k]); }
                            }
                            assert forall|m: int| 1 <= m < sv2.len() implies #[trigger] g.from_earlier(f, sv2, m) by {
                                if m < sv.len() {
                                    assert(g.from_earlier(f, sv, m));
                                }
                                if m == sv.len() {
                                    assert(sv2[i as int] == sv[i as int]);
                                    assert(g.is_goto(f, sv2[i as int].to_set(), x as int, sv2[m].to_set()));
                                }
                            }
                            assert forall|k: int, xx: int| ((0 <= k < i && 0 <= xx < g.n()) || (k == i && 0 <= xx < x)) implies #[trigger] g.goto_done(f, sv2, k, xx) by {
                                assert(g.goto_done(f, sv, k, xx));
                            }
                        }
                    },
                }
            }
            proof {
                let sv2 = sets_view(states@);
                if added {
                    assert(sv2 =~= sv.push(gt@));
                } else {
                    assert(sv2 =~= sv);
                }
                assert(sv2[i as int] == sv[i as int]);
                assert(g.goto_done(f, sv2, i as int, x as int)) by {
                    assert forall|r: Set<Item>| #[trigger] g.is_goto(f, sv2[i as int].to_set(), x as int, r) && r != Set::<Item>::empty() implies exists|m: int|
                        0 <= m < sv2.len() && #[trigger] sv2[m].to_set() == r by {
                        lemma_closure_unique(g, f, r, gt@.to_set(), g.kernel(sv[i as int].to_set(), x as int));
                        if gt@.len() == 0 {
                            assert(gt@.to_set() =~= Set::<Item>::empty());
                        }
                        if added {
                            assert(sv2[sv.len() as int] == gt@);
                        } else {
                            assert(0 <= hit < sv.len());
                            assert(sv[hit] == states@[hit]@);
                            assert(sv2[hit] == sv[hit]);
                        }
                    }
                }
            }
            x += 1;
        }
        i += 1;
    }
    states
}


/// An item of a closure whose dot has moved is an item of the kernel.
pub proof fn lemma_closure_kernel(g: &Indexed, f: spec_fn(int, int) -> bool, r: Set<Item>, k: Set<Item>, it: Item)
    requires
        g.closure_of(f, r, k),
        r.contains(it),
        it.1 >= 1,
    ensures
        k.contains(it),
{
    let j = Set::new(|z: Item| k.contains(z) || (r.contains(z) && z.1 == 0));
    assert forall|z: Item, q: int, y: int| #[trigger] g.closure_rule(f, j, z, q, y) by {
        if j.contains(z) {
            assert(r.contains(z));
            assert(g.closure_rule(f, r, z, q, y));
        }
    }
    assert(g.item_closed(f, j));
    assert(k.subset_of(j));
    assert(r.subset_of(j));
}
} // verus!

//! FIRST and FOLLOW sets as boolean matrices: row `x` is the set of symbol
//! `x`, column `y` a lookahead number (`null()` stands for `NULL`).
use vstd::prelude::*;
use crate::parser::indexed::Indexed;

verus! {

/// A boolean matrix as a relation.
pub open spec fn mat(m: Seq<Vec<bool>>) -> spec_fn(int, int) -> bool {
    |x: int, y: int| 0 <= x < m.len() && 0 <= y < m[x]@.len() && m[x]@[y]
}

/// `m` has `rows` rows of width `w`.
pub open spec fn shaped(m: Seq<Vec<bool>>, rows: nat, w: nat) -> bool {
    m.len() == rows && forall|x: int| 0 <= x < rows ==> #[trigger] m[x]@.len() == w
}

/// Every entry of `m` holds in `f`.
pub open spec fn le(m: Seq<Vec<bool>>, f: spec_fn(int, int) -> bool) -> bool {
    forall|x: int, y: int| 0 <= x < m.len() && 0 <= y < m[x]@.len() && #[trigger] m[x]@[y] ==> f(x, y)
}

/// The number of true entries in a row.
pub open spec fn row_cnt(r: Seq<bool>) -> nat
    decreases r.len(),
{
    if r.len() == 0 {
        0
    } else {
        row_cnt(r.drop_last()) + if r.last() {
            1nat
        } else {
            0nat
        }
    }
}

/// The number of true entries.
pub open spec fn cnt(m: Seq<Vec<bool>>) -> nat
    decreases m.len(),
{
    if m.len() == 0 {
        0
    } else {
        cnt(m.drop_last()) + row_cnt(m.last()@)
    }
}

proof fn lemma_row_cnt_bound(r: Seq<bool>)
    ensures
        row_cnt(r) <= r.len(),
    decreases r.len(),
{
    if r.len() > 0 {
        lemma_row_cnt_bound(r.drop_last());
    }
}

proof fn lemma_row_cnt_set(r: Seq<bool>, y: int)
    requires
        0 <= y < r.len(),
        !r[y],
    ensures
        row_cnt(r.update(y, true)) == row_cnt(r) + 1,
    decreases r.len(),
{
    let s = r.update(y, true);
    if y == r.len() - 1 {
        assert(s.drop_last() =~= r.drop_last());
    } else {
        assert(s.drop_last() =~= r.drop_last().update(y, true));
        lemma_row_cnt_set(r.drop_last(), y);
    }
}

pub proof fn lemma_cnt_bound(m: Seq<Vec<bool>>, w: nat)
    requires
        forall|x: int| 0 <= x < m.len() ==> #[trigger] m[x]@.len() == w,
    ensures
        cnt(m) <= m.len() * w,
    decreases m.len(),
{
    if m.len() > 0 {
        assert forall|x: int| 0 <= x < m.drop_last().len() implies #[trigger] m.drop_last()[x]@.len() == w by {
            assert(m.drop_last()[x] == m[x]);
        }
        lemma_cnt_bound(m.drop_last(), w);
        lemma_row_cnt_bound(m.last()@);
        assert(m.len() * w == (m.len() - 1) * w + w) by (nonlinear_arith)
            requires
                m.len() >= 1,
        ;
    }
}

proof fn lemma_cnt_update(m: Seq<Vec<bool>>, x: int, r: Vec<bool>)
    requires
        0 <= x < m.len(),
    ensures
        cnt(m.update(x, r)) + row_cnt(m[x]@) == cnt(m) + row_cnt(r@),
    decreases m.len(),
{
    let s = m.update(x, r);
    if x == m.len() - 1 {
        assert(s.drop_last() =~= m.drop_last());
    } else {
        assert(s.drop_last() =~= m.drop_last().update(x, r));
        lemma_cnt_update(m.drop_last(), x, r);
    }
}

/// A row of `w` false entries.
pub fn false_row(w: usize) -> (r: Vec<bool>)
    ensures
        r@.len() == w,
        forall|y: int| 0 <= y < w ==> !#[trigger] r@[y],
{
    let mut r: Vec<bool> = Vec::new();
    let mut i: usize = 0;
    while i < w
        invariant
            i <= w,
            r@.len() == i,
            forall|y: int| 0 <= y < i ==> !#[trigger] r@[y],
        decreases w - i,
    {
        r.push(false);
        i += 1;
    }
    r
}

/// A matrix of `rows` rows of `w` false entries.
pub fn false_matrix(rows: usize, w: usize) -> (m: Vec<Vec<bool>>)
    ensures
        shaped(m@, rows as nat, w as nat),
        forall|x: int, y: int| 0 <= x < rows && 0 <= y < w ==> !#[trigger] m@[x]@[y],
{
    let mut m: Vec<Vec<bool>> = Vec::new();
    let mut i: usize = 0;
    while i < rows
        invariant
            i <= rows,
            m@.len() == i,
            forall|x: int| 0 <= x < i ==> #[trigger] m@[x]@.len() == w,
            forall|x: int, y: int| 0 <= x < i && 0 <= y < w ==> !#[trigger] m@[x]@[y],
        decreases rows - i,
    {
        m.push(false_row(w));
        i += 1;
    }
    m
}

/// Sets entry `(x, y)`; returns whether it was false before.
pub fn set_entry(m: &mut Vec<Vec<bool>>, x: usize, y: usize) -> (changed: bool)
    requires
        x < old(m)@.len(),
        y < old(m)@[x as int]@.len(),
    ensures
        changed == !old(m)@[x as int]@[y as int],
        final(m)@.len() == old(m)@.len(),
        forall|a: int| 0 <= a < old(m)@.len() ==> #[trigger] final(m)@[a]@.len() == old(m)@[a]@.len(),
        forall|a: int, b: int|
            0 <= a < old(m)@.len() && 0 <= b < old(m)@[a]@.len() ==> #[trigger] final(m)@[a]@[b] == (
            old(m)@[a]@[b] || (a == x && b == y)),
        cnt(final(m)@) == cnt(old(m)@) + (if changed {
            1nat
        } else {
            0nat
        }),
        !changed ==> final(m)@ == old(m)@,
{
    if m[x][y] {
        return false;
    }
    let ghost om = m@;
    let mut row: Vec<bool> = Vec::new();
    std::mem::swap(&mut row, &mut m[x]);
    let ghost orow = row@;
    row.set(y, true);
    proof {
        lemma_row_cnt_set(orow, y as int);
        lemma_cnt_update(om, x as int, row);
        assert(row@ =~= orow.update(y as int, true));
    }
    m.set(x, row);
    assert(m@ =~= om.update(x as int, row));
    true
}

impl Indexed {
    /// Every symbol before position `k` of production `p` is `NULL` or may
    /// derive `NULL` by `f`.
    pub open spec fn reached(&self, f: spec_fn(int, int) -> bool, p: int, k: int) -> bool {
        forall|j: int|
            0 <= j < k ==> (#[trigger] self.body(p)[j] == self.null() || f(
                self.body(p)[j] as int,
                self.null() as int,
            ))
    }

    /// Production `p`'s body is empty or all `NULL`.
    pub open spec fn all_null(&self, p: int) -> bool {
        forall|j: int| 0 <= j < self.body(p).len() ==> #[trigger] self.body(p)[j] == self.null()
    }

    /// A terminal is in its own FIRST set.
    pub open spec fn first_rule_term(&self, f: spec_fn(int, int) -> bool, t: int) -> bool {
        self.is_t(t) ==> f(t, t)
    }

    /// What may start the symbol at a reached position may start the head.
    pub open spec fn first_rule_sym(&self, f: spec_fn(int, int) -> bool, p: int, k: int, y: int) -> bool {
        (0 <= p < self.n_real && 0 <= k < self.body(p).len() && self.reached(f, p, k)
            && self.body(p)[k] != self.null() && 0 <= y < self.w() && y != self.null() && f(
            self.body(p)[k] as int,
            y,
        )) ==> f(self.head(p) as int, y)
    }

    /// A `NULL` at a reached position makes the head derive `NULL`.
    pub open spec fn first_rule_null(&self, f: spec_fn(int, int) -> bool, p: int, k: int) -> bool {
        (0 <= p < self.n_real && 0 <= k < self.body(p).len() && self.reached(f, p, k)
            && self.body(p)[k] == self.null()) ==> f(self.head(p) as int, self.null() as int)
    }

    /// An empty or all-`NULL` body makes the head derive `NULL`.
    pub open spec fn first_rule_empty(&self, f: spec_fn(int, int) -> bool, p: int) -> bool {
        (0 <= p < self.n_real && self.all_null(p)) ==> f(self.head(p) as int, self.null() as int)
    }

    /// The rules of the production `p` all hold in `f`.
    pub open spec fn first_rules_at(&self, f: spec_fn(int, int) -> bool, p: int) -> bool {
        &&& forall|k: int, y: int| #[trigger] self.first_rule_sym(f, p, k, y)
        &&& forall|k: int| #[trigger] self.first_rule_null(f, p, k)
        &&& self.first_rule_empty(f, p)
    }

    /// `f` is closed under the FIRST rules.
    pub open spec fn first_closed(&self, f: spec_fn(int, int) -> bool) -> bool {
        &&& forall|t: int| #[trigger] self.first_rule_term(f, t)
        &&& forall|p: int| #[trigger] self.first_rules_at(f, p)
    }

    /// What may follow position `k` of production `p`, by `f` and `fo`.
    pub open spec fn after(
        &self,
        f: spec_fn(int, int) -> bool,
        fo: spec_fn(int, int) -> bool,
        p: int,
        k: int,
        y: int,
    ) -> bool
        decreases self.body(p).len() - k,
    {
        if k >= self.body(p).len() || k < 0 {
            fo(self.head(p) as int, y)
        } else if self.body(p)[k] == self.null() {
            self.after(f, fo, p, k + 1, y)
        } else {
            f(self.body(p)[k] as int, y) || (f(self.body(p)[k] as int, self.null() as int)
                && self.after(f, fo, p, k + 1, y))
        }
    }

    /// The end marker follows the start symbol.
    pub open spec fn follow_rule_start(&self, fo: spec_fn(int, int) -> bool) -> bool {
        fo(self.head(self.init as int) as int, self.end() as int)
    }

    /// What may follow a nonterminal's position follows the nonterminal.
    pub open spec fn follow_rule(
        &self,
        f: spec_fn(int, int) -> bool,
        fo: spec_fn(int, int) -> bool,
        p: int,
        k: int,
        y: int,
    ) -> bool {
        (0 <= p < self.n_real && 0 <= k < self.body(p).len() && self.body(p)[k] != self.null()
            && self.is_nt(self.body(p)[k] as int) && 0 <= y < self.w() && y != self.null()
            && self.after(f, fo, p, k + 1, y)) ==> fo(self.body(p)[k] as int, y)
    }

    /// `fo` is closed under the FOLLOW rules, given the FIRST sets `f`.
    pub open spec fn follow_closed(&self, f: spec_fn(int, int) -> bool, fo: spec_fn(int, int) -> bool) -> bool {
        &&& self.follow_rule_start(fo)
        &&& forall|p: int, k: int, y: int| #[trigger] self.follow_rule(f, fo, p, k, y)
    }
}


pub proof fn lemma_reached_le(g: &Indexed, m: Seq<Vec<bool>>, f: spec_fn(int, int) -> bool, p: int, k: int)
    requires
        le(m, f),
        g.reached(mat(m), p, k),
    ensures
        g.reached(f, p, k),
{
    assert forall|j: int| 0 <= j < k implies (#[trigger] g.body(p)[j] == g.null() || f(
        g.body(p)[j] as int,
        g.null() as int,
    )) by {
        if g.body(p)[j] != g.null() {
            assert(mat(m)(g.body(p)[j] as int, g.null() as int));
            assert(m[g.body(p)[j] as int]@[g.null() as int]);
        }
    }
}

pub proof fn lemma_le_trans(m1: Seq<Vec<bool>>, m2: Seq<Vec<bool>>, f: spec_fn(int, int) -> bool)
    requires
        le(m1, mat(m2)),
        le(m2, f),
    ensures
        le(m1, f),
{
    assert forall|x: int, y: int| 0 <= x < m1.len() && 0 <= y < m1[x]@.len() && #[trigger] m1[x]@[y] implies f(x, y) by {
        assert(mat(m2)(x, y));
        assert(m2[x]@[y]);
    }
}

/// After setting one entry: what held of every entry before holds now.
pub proof fn lemma_le_set(m0: Seq<Vec<bool>>, m1: Seq<Vec<bool>>, x: int, y: int, f: spec_fn(int, int) -> bool)
    requires
        m1.len() == m0.len(),
        forall|a: int| 0 <= a < m0.len() ==> #[trigger] m1[a]@.len() == m0[a]@.len(),
        forall|a: int, b: int|
            0 <= a < m0.len() && 0 <= b < m0[a]@.len() ==> #[trigger] m1[a]@[b] == (m0[a]@[b] || (a
                == x && b == y)),
        le(m0, f),
        m1[x]@[y] ==> f(x, y),
    ensures
        le(m1, f),
{
    assert forall|a: int, b: int| 0 <= a < m1.len() && 0 <= b < m1[a]@.len() && #[trigger] m1[a]@[b] implies f(a, b) by {
        if !(a == x && b == y) {
            assert(m0[a]@[b]);
        }
    }
}

/// Setting an entry only adds.
pub proof fn lemma_le_grow(m0: Seq<Vec<bool>>, m1: Seq<Vec<bool>>, x: int, y: int)
    requires
        m1.len() == m0.len(),
        forall|a: int| 0 <= a < m0.len() ==> #[trigger] m1[a]@.len() == m0[a]@.len(),
        forall|a: int, b: int|
            0 <= a < m0.len() && 0 <= b < m0[a]@.len() ==> #[trigger] m1[a]@[b] == (m0[a]@[b] || (a
                == x && b == y)),
    ensures
        le(m0, mat(m1)),
{
    assert forall|a: int, b: int| 0 <= a < m0.len() && 0 <= b < m0[a]@.len() && #[trigger] m0[a]@[b] implies mat(m1)(a, b) by {
        assert(m1[a]@[b]);
    }
}

pub proof fn lemma_le_refl(m: Seq<Vec<bool>>)
    ensures
        le(m, mat(m)),
{
}

/// Adds to the FIRST set of production `p`'s head what the rules of `p` give.
fn first_step(g: &Indexed, p: usize, first: &mut Vec<Vec<bool>>) -> (changed: bool)
    requires
        g.wf(),
        p < g.n_real,
        shaped(old(first)@, g.n(), g.w()),
    ensures
        shaped(final(first)@, g.n(), g.w()),
        cnt(final(first)@) >= cnt(old(first)@),
        changed ==> cnt(final(first)@) > cnt(old(first)@),
        !changed ==> final(first)@ == old(first)@,
        le(old(first)@, mat(final(first)@)),
        forall|f: spec_fn(int, int) -> bool|
            #[trigger] g.first_closed(f) && le(old(first)@, f) ==> le(final(first)@, f),
        !changed ==> g.first_rules_at(mat(final(first)@), p as int),
{
    let ghost f0 = first@;
    let h = g.prods[p].0;
    let b = &g.prods[p].1;
    let null = g.names.len();
    let w = null + 2;
    let mut changed = false;
    let mut k: usize = 0;
    let mut stop = false;
    proof {
        lemma_le_refl(first@);
    }
    while k < b.len() && !stop
        invariant
            g.wf(),
            p < g.n_real,
            h == g.head(p as int),
            b@ == g.body(p as int),
            null == g.null(),
            w == g.w(),
            k <= b.len(),
            shaped(first@, g.n(), g.w()),
            cnt(first@) >= cnt(f0),
            changed ==> cnt(first@) > cnt(f0),
            !changed ==> first@ == f0,
            le(f0, mat(first@)),
            forall|f: spec_fn(int, int) -> bool|
                #[trigger] g.first_closed(f) && le(f0, f) ==> le(first@, f),
            !stop ==> g.reached(mat(first@), p as int, k as int),
            stop ==> k >= 1 && b@[k - 1] != null && !first@[b@[k - 1] as int]@[null as int],
            !changed ==> forall|kk: int, y: int|
                0 <= kk < k ==> #[trigger] g.first_rule_sym(mat(first@), p as int, kk, y),
            !changed ==> forall|kk: int|
                0 <= kk < k ==> #[trigger] g.first_rule_null(mat(first@), p as int, kk),
        decreases b.len() - k,
    {
        let s = b[k];
        assert(s <= null);
        if s != null {
            let mut y: usize = 0;
            while y < w
                invariant
                    g.wf(),
                    p < g.n_real,
                    h == g.head(p as int),
                    b@ == g.body(p as int),
                    null == g.null(),
                    w == g.w(),
                    k < b.len(),
                    s == b@[k as int],
                    s < null,
                    y <= w,
                    !stop,
                    shaped(first@, g.n(), g.w()),
                    cnt(first@) >= cnt(f0),
                    changed ==> cnt(first@) > cnt(f0),
                    !changed ==> first@ == f0,
                    le(f0, mat(first@)),
                    forall|f: spec_fn(int, int) -> bool|
                        #[trigger] g.first_closed(f) && le(f0, f) ==> le(first@, f),
                    g.reached(mat(first@), p as int, k as int),
                    forall|yy: int|
                        0 <= yy < y && yy != null && #[trigger] first@[s as int]@[yy] ==> first@[h as int]@[yy],
                    !changed ==> forall|kk: int, yy: int|
                        0 <= kk < k ==> #[trigger] g.first_rule_sym(mat(first@), p as int, kk, yy),
                    !changed ==> forall|kk: int|
                        0 <= kk < k ==> #[trigger] g.first_rule_null(mat(first@), p as int, kk),
                decreases w - y,
            {
                if y != null && first[s][y] {
                    let ghost m0 = first@;
                    let c = set_entry(first, h, y);
                    proof {
                        lemma_le_grow(m0, first@, h as int, y as int);
                        lemma_le_trans(f0, m0, mat(first@));
                        assert forall|f: spec_fn(int, int) -> bool|
                            #[trigger] g.first_closed(f) && le(f0, f) implies le(first@, f) by {
                            assert(le(m0, f));
                            lemma_reached_le(g, m0, f, p as int, k as int);
                            assert(g.first_rules_at(f, p as int));
                            assert(g.first_rule_sym(f, p as int, k as int, y as int));
                            assert(m0[s as int]@[y as int]);
                            lemma_le_set(m0, first@, h as int, y as int, f);
                        }
                        lemma_reached_le(g, m0, mat(first@), p as int, k as int);
                    }
                    changed = changed || c;
                }
                y += 1;
            }
            proof {
                if !changed {
                    assert forall|yy: int| #[trigger] g.first_rule_sym(mat(first@), p as int, k as int, yy) by {
                        if 0 <= yy < g.w() && yy != g.null() && mat(first@)(s as int, yy) {
                            assert(first@[s as int]@[yy]);
                            assert(first@[h as int]@[yy]);
                        }
                    }
                }
            }
            if !first[s][null] {
                stop = true;
            } else {
                assert forall|j: int| 0 <= j < k + 1 implies (#[trigger] g.body(p as int)[j] == g.null() || mat(first@)(
                    g.body(p as int)[j] as int,
                    g.null() as int,
                )) by {
                    if j < k {
                        assert(g.reached(mat(first@), p as int, k as int));
                    }
                }
            }
        } else {
            let ghost m0 = first@;
            let c = set_entry(first, h, null);
            proof {
                lemma_le_grow(m0, first@, h as int, null as int);
                lemma_le_trans(f0, m0, mat(first@));
                assert forall|f: spec_fn(int, int) -> bool|
                    #[trigger] g.first_closed(f) && le(f0, f) implies le(first@, f) by {
                    assert(le(m0, f));
                    lemma_reached_le(g, m0, f, p as int, k as int);
                    assert(g.first_rules_at(f, p as int));
                    assert(g.first_rule_null(f, p as int, k as int));
                    lemma_le_set(m0, first@, h as int, null as int, f);
                }
                lemma_reached_le(g, m0, mat(first@), p as int, k as int);
                assert forall|j: int| 0 <= j < k + 1 implies (#[trigger] g.body(p as int)[j] == g.null() || mat(first@)(
                    g.body(p as int)[j] as int,
                    g.null() as int,
                )) by {
                    if j < k {
                        assert(g.reached(mat(first@), p as int, k as int));
                    }
                }
                if !c {
                    assert forall|yy: int| #[trigger] g.first_rule_sym(mat(first@), p as int, k as int, yy) by {}
                    assert(first@[h as int]@[null as int]);
                }
            }
            changed = changed || c;
        }
        k += 1;
    }
    let mut all_null = true;
    let mut j: usize = 0;
    while j < b.len()
        invariant
            b@ == g.body(p as int),
            null == g.null(),
            j <= b.len(),
            all_null == forall|i: int| 0 <= i < j ==> #[trigger] b@[i] == null,
        decreases b.len() - j,
    {
        if b[j] != null {
            all_null = false;
        }
        j += 1;
    }
    if all_null {
        let ghost m0 = first@;
        let c = set_entry(first, h, null);
        proof {
            lemma_le_grow(m0, first@, h as int, null as int);
            lemma_le_trans(f0, m0, mat(first@));
            assert forall|f: spec_fn(int, int) -> bool|
                #[trigger] g.first_closed(f) && le(f0, f) implies le(first@, f) by {
                assert(le(m0, f));
                assert(g.first_rules_at(f, p as int));
                assert(g.first_rule_empty(f, p as int));
                lemma_le_set(m0, first@, h as int, null as int, f);
            }
        }
        changed = changed || c;
    }
    proof {
        if !changed {
            let fm = mat(first@);
            assert forall|kk: int, yy: int| #[trigger] g.first_rule_sym(fm, p as int, kk, yy) by {
                if 0 <= kk < g.body(p as int).len() && kk >= k && g.reached(fm, p as int, kk) {
                    assert(stop);
                    assert(g.body(p as int)[k - 1] != g.null());
                }
            }
            assert forall|kk: int| #[trigger] g.first_rule_null(fm, p as int, kk) by {
                if 0 <= kk < g.body(p as int).len() && kk >= k && g.reached(fm, p as int, kk) {
                    assert(stop);
                    assert(g.body(p as int)[k - 1] != g.null());
                }
            }
        }
    }
    changed
}


/// A copy of row `x` of `m`.
fn copy_row(m: &Vec<Vec<bool>>, x: usize) -> (r: Vec<bool>)
    requires
        x < m@.len(),
    ensures
        r@ == m@[x as int]@,
{
    let mut r: Vec<bool> = Vec::new();
    let mut i: usize = 0;
    while i < m[x].len()
        invariant
            x < m@.len(),
            i <= m@[x as int]@.len(),
            r@ == m@[x as int]@.take(i as int),
        decreases m@[x as int]@.len() - i,
    {
        r.push(m[x][i]);
        i += 1;
        assert(r@ =~= m@[x as int]@.take(i as int));
    }
    assert(m@[x as int]@.take(m@[x as int]@.len() as int) =~= m@[x as int]@);
    r
}

/// Adds to the FOLLOW sets of the nonterminals in production `p`'s body what
/// the rules of `p` give, scanning the body from its end.
fn follow_step(g: &Indexed, p: usize, first: &Vec<Vec<bool>>, follow: &mut Vec<Vec<bool>>) -> (changed: bool)
    requires
        g.wf(),
        p < g.n_real,
        shaped(first@, g.n(), g.w()),
        shaped(old(follow)@, g.n(), g.w()),
    ensures
        shaped(final(follow)@, g.n(), g.w()),
        cnt(final(follow)@) >= cnt(old(follow)@),
        changed ==> cnt(final(follow)@) > cnt(old(follow)@),
        !changed ==> final(follow)@ == old(follow)@,
        le(old(follow)@, mat(final(follow)@)),
        forall|f: spec_fn(int, int) -> bool, fo: spec_fn(int, int) -> bool|
            #[trigger] g.first_closed(f) && #[trigger] g.follow_closed(f, fo) && le(first@, f) && le(
                old(follow)@,
                fo,
            ) ==> le(final(follow)@, fo),
        !changed ==> forall|k: int, y: int| #[trigger] g.follow_rule(mat(first@), mat(final(follow)@), p as int, k, y),
{
    let ghost fo0 = follow@;
    let h = g.prods[p].0;
    let b = &g.prods[p].1;
    let null = g.names.len();
    let w = null + 2;
    let mut changed = false;
    assert(g.head(p as int) < g.n());
    assert(follow@[h as int]@.len() == w);
    let mut aux = copy_row(follow, h);
    let mut k: usize = b.len();
    proof {
        lemma_le_refl(follow@);
        assert forall|f: spec_fn(int, int) -> bool, fo: spec_fn(int, int) -> bool|
            #[trigger] g.first_closed(f) && #[trigger] g.follow_closed(f, fo) && le(first@, f) && le(fo0, fo)
            implies (le(follow@, fo) && forall|y: int| 0 <= y < g.w() && #[trigger] aux@[y] ==> g.after(f, fo, p as int, k as int, y)) by {
            assert forall|y: int| 0 <= y < g.w() && #[trigger] aux@[y] implies g.after(f, fo, p as int, k as int, y) by {
                assert(fo0[h as int]@[y]);
            }
        }
    }
    while k > 0
        invariant
            g.wf(),
            p < g.n_real,
            h == g.head(p as int),
            b@ == g.body(p as int),
            null == g.null(),
            w == g.w(),
            k <= b.len(),
            aux@.len() == w,
            shaped(first@, g.n(), g.w()),
            shaped(follow@, g.n(), g.w()),
            cnt(follow@) >= cnt(fo0),
            changed ==> cnt(follow@) > cnt(fo0),
            !changed ==> follow@ == fo0,
            le(fo0, mat(follow@)),
            forall|f: spec_fn(int, int) -> bool, fo: spec_fn(int, int) -> bool|
                #[trigger] g.first_closed(f) && #[trigger] g.follow_closed(f, fo) && le(first@, f) && le(fo0, fo)
                ==> (le(follow@, fo) && forall|y: int| 0 <= y < g.w() && #[trigger] aux@[y] ==> g.after(f, fo, p as int, k as int, y)),
            !changed ==> forall|y: int| 0 <= y < g.w() ==> #[trigger] aux@[y] == g.after(mat(first@), mat(follow@), p as int, k as int, y),
            !changed ==> forall|kk: int, y: int| k <= kk ==> #[trigger] g.follow_rule(mat(first@), mat(follow@), p as int, kk, y),
        decreases k,
    {
        k -= 1;
        let s = b[k];
        assert(s <= null);
        if s != null {
            if g.is_nonterm[s] {
                let mut y: usize = 0;
                while y < w
                    invariant
                        g.wf(),
                        p < g.n_real,
                        h == g.head(p as int),
                        b@ == g.body(p as int),
                        null == g.null(),
                        w == g.w(),
                        k < b.len(),
                        s == b@[k as int],
                        s < null,
                        g.is_nt(s as int),
                        y <= w,
                        aux@.len() == w,
                        shaped(first@, g.n(), g.w()),
                        shaped(follow@, g.n(), g.w()),
                        cnt(follow@) >= cnt(fo0),
                        changed ==> cnt(follow@) > cnt(fo0),
                        !changed ==> follow@ == fo0,
                        le(fo0, mat(follow@)),
                        forall|f: spec_fn(int, int) -> bool, fo: spec_fn(int, int) -> bool|
                            #[trigger] g.first_closed(f) && #[trigger] g.follow_closed(f, fo) && le(first@, f) && le(fo0, fo)
                            ==> (le(follow@, fo) && forall|yy: int| 0 <= yy < g.w() && #[trigger] aux@[yy] ==> g.after(f, fo, p as int, k + 1, yy)),
                        forall|yy: int| 0 <= yy < y && yy != null && #[trigger] aux@[yy] ==> follow@[s as int]@[yy],
                        !changed ==> forall|yy: int| 0 <= yy < g.w() ==> #[trigger] aux@[yy] == g.after(mat(first@), mat(follow@), p as int, k + 1, yy),
                        !changed ==> forall|kk: int, yy: int| k + 1 <= kk ==> #[trigger] g.follow_rule(mat(first@), mat(follow@), p as int, kk, yy),
                    decreases w - y,
                {
                    if y != null && aux[y] {
                        let ghost m0 = follow@;
                        let c = set_entry(follow, s, y);
                        proof {
                            lemma_le_grow(m0, follow@, s as int, y as int);
                            lemma_le_trans(fo0, m0, mat(follow@));
                            assert forall|f: spec_fn(int, int) -> bool, fo: spec_fn(int, int) -> bool|
                                #[trigger] g.first_closed(f) && #[trigger] g.follow_closed(f, fo) && le(first@, f) && le(fo0, fo)
                                implies (le(follow@, fo) && forall|yy: int| 0 <= yy < g.w() && #[trigger] aux@[yy] ==> g.after(f, fo, p as int, k + 1, yy)) by {
                                assert(g.after(f, fo, p as int, k + 1, y as int));
                                assert(g.follow_rule(f, fo, p as int, k as int, y as int));
                                lemma_le_set(m0, follow@, s as int, y as int, fo);
                            }
                        }
                        changed = changed || c;
                    }
                    y += 1;
                }
            }
            let ghost aux0 = aux@;
            let mut y: usize = 0;
            while y < w
                invariant
                    null == g.null(),
                    w == g.w(),
                    s < null,
                    shaped(first@, g.n(), g.w()),
                    y <= w,
                    aux@.len() == w,
                    aux0.len() == w,
                    forall|yy: int| 0 <= yy < y ==> #[trigger] aux@[yy] == (first@[s as int]@[yy] || (first@[s as int]@[null as int] && aux0[yy])),
                    forall|yy: int| y <= yy < w ==> #[trigger] aux@[yy] == aux0[yy],
                decreases w - y,
            {
                let v = first[s][y] || (first[s][null] && aux[y]);
                aux.set(y, v);
                y += 1;
            }
            proof {
                assert forall|f: spec_fn(int, int) -> bool, fo: spec_fn(int, int) -> bool|
                    #[trigger] g.first_closed(f) && #[trigger] g.follow_closed(f, fo) && le(first@, f) && le(fo0, fo)
                    implies (le(follow@, fo) && forall|yy: int| 0 <= yy < g.w() && #[trigger] aux@[yy] ==> g.after(f, fo, p as int, k as int, yy)) by {
                    assert forall|yy: int| 0 <= yy < g.w() && #[trigger] aux@[yy] implies g.after(f, fo, p as int, k as int, yy) by {
                        if first@[s as int]@[yy] {
                            assert(f(s as int, yy));
                        } else {
                            assert(first@[s as int]@[null as int]);
                            assert(f(s as int, null as int));
                            assert(aux0[yy]);
                        }
                    }
                }
                if !changed {
                    assert forall|yy: int| 0 <= yy < g.w() implies #[trigger] aux@[yy] == g.after(mat(first@), mat(follow@), p as int, k as int, yy) by {
                        assert(aux0[yy] == g.after(mat(first@), mat(follow@), p as int, k + 1, yy));
                    }
                    assert forall|kk: int, yy: int| k <= kk implies #[trigger] g.follow_rule(mat(first@), mat(follow@), p as int, kk, yy) by {
                        if kk == k {
                            if 0 <= yy < g.w() && yy != g.null() && g.is_nt(s as int) && g.after(mat(first@), mat(follow@), p as int, k + 1, yy) {
                                assert(aux0[yy]);
                            }
                        }
                    }
                }
            }
        } else {
            proof {
                assert forall|f: spec_fn(int, int) -> bool, fo: spec_fn(int, int) -> bool|
                    #[trigger] g.first_closed(f) && #[trigger] g.follow_closed(f, fo) && le(first@, f) && le(fo0, fo)
                    implies (le(follow@, fo) && forall|yy: int| 0 <= yy < g.w() && #[trigger] aux@[yy] ==> g.after(f, fo, p as int, k as int, yy)) by {
                    assert forall|yy: int| 0 <= yy < g.w() && #[trigger] aux@[yy] implies g.after(f, fo, p as int, k as int, yy) by {
                        assert(g.after(f, fo, p as int, k + 1, yy));
                    }
                }
            }
        }
    }
    changed
}

/// FIRST and FOLLOW sets of the grammar: the least sets closed under their rules.
pub fn compute_first_and_follow(g: &Indexed) -> (r: (Vec<Vec<bool>>, Vec<Vec<bool>>))
    requires
        g.wf(),
    ensures
        shaped(r.0@, g.n(), g.w()),
        shaped(r.1@, g.n(), g.w()),
        g.first_closed(mat(r.0@)),
        g.follow_closed(mat(r.0@), mat(r.1@)),
        forall|f: spec_fn(int, int) -> bool| #[trigger] g.first_closed(f) ==> le(r.0@, f),
        forall|fo: spec_fn(int, int) -> bool| #[trigger] g.follow_closed(mat(r.0@), fo) ==> le(r.1@, fo),
{
    let n = g.names.len();
    let w = n + 2;
    let mut first = false_matrix(n, w);
    let mut i: usize = 0;
    while i < n
        invariant
            n == g.n(),
            w == g.w(),
            g.wf(),
            i <= n,
            shaped(first@, g.n(), g.w()),
            forall|x: int, y: int| 0 <= x < n && 0 <= y < w && #[trigger] first@[x]@[y] ==> (x == y && x < i && g.is_t(x)),
            forall|t: int| 0 <= t < i ==> #[trigger] g.first_rule_term(mat(first@), t),
        decreases n - i,
    {
        let ghost m0 = first@;
        if g.is_term[i] {
            set_entry(&mut first, i, i);
        }
        proof {
            assert forall|t: int| 0 <= t < i + 1 implies #[trigger] g.first_rule_term(mat(first@), t) by {
                if g.is_t(t) && t < i {
                    assert(g.first_rule_term(mat(m0), t));
                    assert(m0[t]@[t]);
                    assert(first@[t]@[t]);
                }
                if g.is_t(t) && t == i {
                    assert(first@[t]@[t]);
                }
            }
            assert forall|x: int, y: int| 0 <= x < n && 0 <= y < w && #[trigger] first@[x]@[y] implies (x == y && x < i + 1 && g.is_t(x)) by {
                if !(x == i && y == i) {
                    assert(m0[x]@[y]);
                }
            }
        }
        i += 1;
    }
    let mut follow = false_matrix(n, w);
    let start = g.prods[g.init].0;
    assert(g.head(g.init as int) < g.n());
    set_entry(&mut follow, start, g.end_ix);
    proof {
        assert forall|f: spec_fn(int, int) -> bool, fo: spec_fn(int, int) -> bool|
            #[trigger] g.first_closed(f) && #[trigger] g.follow_closed(f, fo) implies le(first@, f) && le(follow@, fo) by {
            assert forall|x: int, y: int| 0 <= x < first@.len() && 0 <= y < first@[x]@.len() && #[trigger] first@[x]@[y] implies f(x, y) by {
                assert(g.first_rule_term(f, x));
            }
            assert(g.follow_rule_start(fo));
        }
    }
    loop
        invariant
            n == g.n(),
            w == g.w(),
            g.wf(),
            shaped(first@, g.n(), g.w()),
            shaped(follow@, g.n(), g.w()),
            forall|t: int| #[trigger] g.first_rule_term(mat(first@), t),
            g.follow_rule_start(mat(follow@)),
            forall|f: spec_fn(int, int) -> bool, fo: spec_fn(int, int) -> bool|
                #[trigger] g.first_closed(f) && #[trigger] g.follow_closed(f, fo) ==> le(first@, f) && le(follow@, fo),
        decreases (g.n() * g.w() - cnt(first@)) + (g.n() * g.w() - cnt(follow@)),
    {
        proof {
            lemma_cnt_bound(first@, g.w());
            lemma_cnt_bound(follow@, g.w());
        }
        let ghost start_total = cnt(first@) + cnt(follow@);
        let ghost pf = first@;
        let ghost pfo = follow@;
        let mut updated = false;
        let mut p: usize = 0;
        while p < g.n_real
            invariant
                n == g.n(),
                w == g.w(),
                g.wf(),
                p <= g.n_real,
                shaped(first@, g.n(), g.w()),
                shaped(follow@, g.n(), g.w()),
                forall|t: int| #[trigger] g.first_rule_term(mat(first@), t),
                g.follow_rule_start(mat(follow@)),
                forall|f: spec_fn(int, int) -> bool, fo: spec_fn(int, int) -> bool|
                    #[trigger] g.first_closed(f) && #[trigger] g.follow_closed(f, fo) ==> le(first@, f) && le(follow@, fo),
                cnt(first@) + cnt(follow@) >= start_total,
                updated ==> cnt(first@) + cnt(follow@) > start_total,
                !updated ==> first@ == pf && follow@ == pfo,
                !updated ==> forall|q: int| 0 <= q < p ==> #[trigger] g.first_rules_at(mat(first@), q),
                !updated ==> forall|q: int, k: int, y: int| 0 <= q < p ==> #[trigger] g.follow_rule(mat(first@), mat(follow@), q, k, y),
            decreases g.n_real - p,
        {
            let ghost m0 = first@;
            let ghost fo0 = follow@;
            let c1 = first_step(g, p, &mut first);
            proof {
                assert forall|t: int| #[trigger] g.first_rule_term(mat(first@), t) by {
                    assert(g.first_rule_term(mat(m0), t));
                    if g.is_t(t) {
                        assert(m0[t]@[t]);
                    }
                }
            }
            let c2 = follow_step(g, p, &first, &mut follow);
            proof {
                assert(g.follow_rule_start(mat(fo0)));
                assert(fo0[g.head(g.init as int) as int]@[g.end() as int]);
                assert forall|f: spec_fn(int, int) -> bool, fo: spec_fn(int, int) -> bool|
                    #[trigger] g.first_closed(f) && #[trigger] g.follow_closed(f, fo) implies le(first@, f) && le(follow@, fo) by {
                    assert(le(m0, f) && le(fo0, fo));
                    assert(le(first@, f));
                }
            }
            updated = updated || c1 || c2;
            p += 1;
        }
        proof {
            lemma_cnt_bound(first@, g.w());
            lemma_cnt_bound(follow@, g.w());
        }
        if !updated {
            proof {
                assert forall|q: int| #[trigger] g.first_rules_at(mat(first@), q) by {
                    if !(0 <= q < g.n_real) {
                        assert forall|k: int, y: int| #[trigger] g.first_rule_sym(mat(first@), q, k, y) by {}
                        assert forall|k: int| #[trigger] g.first_rule_null(mat(first@), q, k) by {}
                    }
                }
                assert forall|q: int, k: int, y: int| #[trigger] g.follow_rule(mat(first@), mat(follow@), q, k, y) by {}
                assert(g.first_closed(mat(first@)));
                assert(g.follow_closed(mat(first@), mat(follow@)));
                assert forall|f: spec_fn(int, int) -> bool| #[trigger] g.first_closed(f) implies le(first@, f) by {
                    let all = |x: int, y: int| true;
                    assert forall|q: int, k: int, y: int| #[trigger] g.follow_rule(f, all, q, k, y) by {}
                    assert(g.follow_closed(f, all));
                }
                assert forall|fo: spec_fn(int, int) -> bool| #[trigger] g.follow_closed(mat(first@), fo) implies le(follow@, fo) by {
                    assert(g.first_closed(mat(first@)));
                }
            }
            return (first, follow);
        }
    }
}

} // verus!

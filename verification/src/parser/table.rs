//! The LR(1) action and goto tables built from the item sets.
use vstd::prelude::*;
use crate::parser::indexed::Indexed;
use crate::parser::first_sets::{mat, shaped};
use crate::parser::items::{goto, sets_view, Item, lemma_closure_unique, lemma_sorted_unique, sorted};

verus! {

/// What the parser does in a state on a lookahead.
#[derive(Debug, Clone, Copy, PartialEq, Eq, Structural)]
pub enum Action {
    /// Push the token and go to the state.
    Shift(usize),
    /// Reduce by the production.
    Reduce(usize),
    /// The input is accepted.
    Accept,
}

impl Indexed {
    /// Some item of `st` has its dot before the terminal `c`.
    pub open spec fn has_shift(&self, st: Seq<Item>, c: int) -> bool {
        self.is_t(c) && self.kernel(st.to_set(), c) != Set::<Item>::empty()
    }

    /// `it` is complete, has lookahead `c`, and is not the augmenting production.
    pub open spec fn is_reduce(&self, it: Item, c: int) -> bool {
        &&& it.0 < self.nprods()
        &&& it.1 == self.body(it.0 as int).len()
        &&& it.2 == c
        &&& self.head(it.0 as int) != self.head(self.init as int)
    }

    /// Some item of `st` is a complete production of the start symbol.
    pub open spec fn has_accept(&self, st: Seq<Item>) -> bool {
        exists|j: int|
            0 <= j < st.len() && #[trigger] st[j].0 < self.nprods() && st[j].1 == self.body(st[j].0 as int).len()
                && self.head(st[j].0 as int) == self.head(self.init as int)
    }

    /// Two different productions may be reduced in `st` on `c`.
    pub open spec fn conflict(&self, st: Seq<Item>, c: int) -> bool {
        exists|a: int, b: int|
            0 <= a < st.len() && 0 <= b < st.len() && #[trigger] self.is_reduce(st[a], c) && #[trigger] self.is_reduce(st[b], c)
                && st[a].0 != st[b].0
    }

    /// The entry of state `s` on lookahead `c`: a shift wins over accepting,
    /// which wins over a reduction.
    pub open spec fn action_ok(&self, f: spec_fn(int, int) -> bool, st: Seq<Seq<Item>>, s: int, c: int, a: Option<Action>) -> bool {
        let acc = c == self.end() && self.has_accept(st[s]);
        match a {
            Some(Action::Shift(j)) => self.has_shift(st[s], c) && j < st.len() && self.is_goto(f, st[s].to_set(), c, st[j as int].to_set()),
            Some(Action::Accept) => !self.has_shift(st[s], c) && acc,
            Some(Action::Reduce(p)) => !self.has_shift(st[s], c) && !acc && st[s].contains((p, self.body(p as int).len() as usize, c as usize))
                && self.is_reduce((p, self.body(p as int).len() as usize, c as usize), c),
            None => !self.has_shift(st[s], c) && !acc && forall|j: int| 0 <= j < st[s].len() ==> !#[trigger] self.is_reduce(st[s][j], c),
        }
    }

    /// The goto entry of state `s` on symbol `x`: defined on nonterminals
    /// whose goto is nonempty.
    pub open spec fn goto_ok(&self, f: spec_fn(int, int) -> bool, st: Seq<Seq<Item>>, s: int, x: int, e: Option<usize>) -> bool {
        match e {
            Some(j) => self.is_nt(x) && j < st.len() && self.is_goto(f, st[s].to_set(), x, st[j as int].to_set()),
            None => !self.is_nt(x) || self.kernel(st[s].to_set(), x) == Set::<Item>::empty(),
        }
    }

    /// The tables hold the entries of every state.
    pub open spec fn tables_ok(
        &self,
        f: spec_fn(int, int) -> bool,
        st: Seq<Seq<Item>>,
        actions: Seq<Vec<Option<Action>>>,
        gotos: Seq<Vec<Option<usize>>>,
    ) -> bool {
        &&& actions.len() == st.len()
        &&& gotos.len() == st.len()
        &&& forall|s: int| 0 <= s < st.len() ==> (#[trigger] actions[s])@.len() == self.w()
        &&& forall|s: int| 0 <= s < st.len() ==> (#[trigger] gotos[s])@.len() == self.n()
        &&& forall|s: int, c: int| 0 <= s < st.len() && 0 <= c < self.w() ==> self.action_ok(f, st, s, c, #[trigger] actions[s]@[c])
        &&& forall|s: int, x: int| 0 <= s < st.len() && 0 <= x < self.n() ==> self.goto_ok(f, st, s, x, #[trigger] gotos[s]@[x])
    }
}

/// The production reduced in `st` on `c`, if any; `Err` if two are.
fn reduce_on(g: &Indexed, st: &Vec<Item>, c: usize) -> (r: Result<Option<usize>, ()>)
    requires
        g.wf(),
        forall|j: int| 0 <= j < st.len() ==> g.valid_item(#[trigger] st@[j]),
    ensures
        match r {
            Err(()) => g.conflict(st@, c as int),
            Ok(None) => !g.conflict(st@, c as int) && forall|j: int| 0 <= j < st.len() ==> !#[trigger] g.is_reduce(st@[j], c as int),
            Ok(Some(p)) => !g.conflict(st@, c as int) && st@.contains((p, g.body(p as int).len() as usize, c)) && g.is_reduce(
                (p, g.body(p as int).len() as usize, c),
                c as int,
            ),
        },
{
    let init_head = g.prods[g.init].0;
    let mut found: Option<usize> = None;
    let mut at: usize = 0;
    let mut j: usize = 0;
    while j < st.len()
        invariant
            g.wf(),
            init_head == g.head(g.init as int),
            forall|k: int| 0 <= k < st.len() ==> g.valid_item(#[trigger] st@[k]),
            j <= st.len(),
            match found {
                None => forall|k: int| 0 <= k < j ==> !#[trigger] g.is_reduce(st@[k], c as int),
                Some(p) => at < j && st@[at as int].0 == p && g.is_reduce(st@[at as int], c as int)
                    && forall|k: int| 0 <= k < j && #[trigger] g.is_reduce(st@[k], c as int) ==> st@[k].0 == p,
            },
        decreases st.len() - j,
    {
        let it = st[j];
        if it.1 == g.prods[it.0].1.len() && it.2 == c && g.prods[it.0].0 != init_head {
            match found {
                None => {
                    found = Some(it.0);
                    at = j;
                },
                Some(p) => {
                    if p != it.0 {
                        assert(g.is_reduce(st@[at as int], c as int) && g.is_reduce(st@[j as int], c as int));
                        return Err(());
                    }
                },
            }
        }
        j += 1;
    }
    match found {
        None => Ok(None),
        Some(p) => {
            proof {
                assert(st@[at as int] == (p, g.body(p as int).len() as usize, c));
                assert(st@.contains(st@[at as int]));
            }
            Ok(Some(p))
        },
    }
}

/// Whether some item of `st` completes a production of the start symbol.
fn accepts(g: &Indexed, st: &Vec<Item>) -> (b: bool)
    requires
        g.wf(),
        forall|j: int| 0 <= j < st.len() ==> g.valid_item(#[trigger] st@[j]),
    ensures
        b == g.has_accept(st@),
{
    let init_head = g.prods[g.init].0;
    let mut j: usize = 0;
    while j < st.len()
        invariant
            g.wf(),
            init_head == g.head(g.init as int),
            forall|k: int| 0 <= k < st.len() ==> g.valid_item(#[trigger] st@[k]),
            j <= st.len(),
            forall|k: int|
                0 <= k < j ==> !(#[trigger] st@[k].0 < g.nprods() && st@[k].1 == g.body(st@[k].0 as int).len()
                    && g.head(st@[k].0 as int) == g.head(g.init as int)),
        decreases st.len() - j,
    {
        let it = st[j];
        if it.1 == g.prods[it.0].1.len() && g.prods[it.0].0 == init_head {
            assert(st@[j as int].0 < g.nprods());
            return true;
        }
        j += 1;
    }
    false
}

/// The state whose set is the goto `gt` of a state, which the collection holds.
fn state_of(g: &Indexed, f: Ghost<spec_fn(int, int) -> bool>, states: &Vec<Vec<Item>>, gt: &Vec<Item>, s: Ghost<int>, x: Ghost<int>) -> (j: usize)
    requires
        g.collection(f@, sets_view(states@)),
        0 <= s@ < states.len(),
        0 <= x@ < g.n(),
        sorted(gt@),
        gt@.len() > 0,
        g.is_goto(f@, states@[s@]@.to_set(), x@, gt@.to_set()),
    ensures
        j < states.len(),
        states@[j as int]@ == gt@,
{
    let ghost sv = sets_view(states@);
    proof {
        assert(sv[s@] == states@[s@]@);
        assert(g.goto_done(f@, sv, s@, x@));
        assert(gt@.to_set().contains(gt@[0]));
        assert(gt@.to_set() != Set::<Item>::empty());
        let m = choose|m: int| 0 <= m < sv.len() && #[trigger] sv[m].to_set() == gt@.to_set();
        assert(sorted(sv[m]));
        assert forall|z: Item| sv[m].contains(z) <==> gt@.contains(z) by {
            assert(sv[m].to_set().contains(z) == gt@.to_set().contains(z));
        }
        lemma_sorted_unique(sv[m], gt@);
        assert(states@[m]@ == gt@);
    }
    let mut i: usize = 0;
    while i < states.len()
        invariant
            i <= states.len(),
            exists|m: int| i <= m < states.len() && (#[trigger] states@[m])@ == gt@,
        decreases states.len() - i,
    {
        let mut same = states[i].len() == gt.len();
        let mut k: usize = 0;
        while same && k < gt.len()
            invariant
                i < states.len(),
                k <= gt.len(),
                same ==> states@[i as int]@.len() == gt@.len(),
                same ==> forall|q: int| 0 <= q < k ==> states@[i as int]@[q] == gt@[q],
                !same ==> states@[i as int]@ != gt@,
            decreases gt.len() - k,
        {
            let a = states[i][k];
            let b = gt[k];
            if !(a.0 == b.0 && a.1 == b.1 && a.2 == b.2) {
                same = false;
                assert(states@[i as int]@[k as int] != gt@[k as int]);
            }
            k += 1;
        }
        if same {
            assert(states@[i as int]@ =~= gt@);
            return i;
        }
        i += 1;
    }
    i
}

/// The action and goto tables; `Err((s, c))` names the first state and
/// lookahead on which two productions may be reduced.
pub fn build_parse_table(g: &Indexed, first: &Vec<Vec<bool>>, states: &Vec<Vec<Item>>) -> (r: Result<(Vec<Vec<Option<Action>>>, Vec<Vec<Option<usize>>>), (usize, usize)>)
    requires
        g.wf(),
        shaped(first@, g.n(), g.w()),
        g.collection(mat(first@), sets_view(states@)),
    ensures
        match r {
            Ok((actions, gotos)) => g.tables_ok(mat(first@), sets_view(states@), actions@, gotos@)
                && forall|s: int, c: int| 0 <= s < states.len() && 0 <= c < g.w() ==> !g.conflict(states@[s]@, c),
            Err((s, c)) => s < states.len() && c < g.w() && g.conflict(states@[s as int]@, c as int)
                && forall|s2: int, c2: int| 0 <= s2 < states.len() && 0 <= c2 < g.w() && (s2 < s || (s2 == s && c2 < c)) ==> !g.conflict(states@[s2]@, c2),
        },
{
    let ghost f = mat(first@);
    let ghost sv = sets_view(states@);
    let n = g.names.len();
    let w = n + 2;
    let mut actions: Vec<Vec<Option<Action>>> = Vec::new();
    let mut gotos: Vec<Vec<Option<usize>>> = Vec::new();
    let mut s: usize = 0;
    while s < states.len()
        invariant
            g.wf(),
            f == mat(first@),
            sv == sets_view(states@),
            shaped(first@, g.n(), g.w()),
            g.collection(f, sv),
            n == g.n(),
            w == g.w(),
            s <= states.len(),
            actions.len() == s,
            gotos.len() == s,
            forall|s2: int| 0 <= s2 < s ==> (#[trigger] actions@[s2])@.len() == g.w(),
            forall|s2: int| 0 <= s2 < s ==> (#[trigger] gotos@[s2])@.len() == g.n(),
            forall|s2: int, c: int| 0 <= s2 < s && 0 <= c < g.w() ==> g.action_ok(f, sv, s2, c, #[trigger] actions@[s2]@[c]),
            forall|s2: int, x: int| 0 <= s2 < s && 0 <= x < g.n() ==> g.goto_ok(f, sv, s2, x, #[trigger] gotos@[s2]@[x]),
            forall|s2: int, c: int| 0 <= s2 < s && 0 <= c < g.w() ==> !g.conflict(states@[s2]@, c),
        decreases states.len() - s,
    {
        let st = &states[s];
        proof {
            assert(sv[s as int] == st@);
            assert forall|j: int| 0 <= j < st.len() implies g.valid_item(#[trigger] st@[j]) by {
                assert(sv[s as int][j] == st@[j]);
            }
        }
        let acc = accepts(g, st);
        let mut row: Vec<Option<Action>> = Vec::new();
        let mut c: usize = 0;
        while c < w
            invariant
                g.wf(),
                f == mat(first@),
                sv == sets_view(states@),
                shaped(first@, g.n(), g.w()),
                g.collection(f, sv),
                n == g.n(),
                w == g.w(),
                s < states.len(),
                st@ == sv[s as int],
                forall|j: int| 0 <= j < st.len() ==> g.valid_item(#[trigger] st@[j]),
                acc == g.has_accept(st@),
                c <= w,
                row@.len() == c,
                forall|c2: int| 0 <= c2 < c ==> g.action_ok(f, sv, s as int, c2, #[trigger] row@[c2]),
                forall|c2: int| 0 <= c2 < c ==> !g.conflict(st@, c2),
                forall|s2: int, c2: int| 0 <= s2 < s && 0 <= c2 < g.w() ==> !g.conflict(states@[s2]@, c2),
            decreases w - c,
        {
            let red = reduce_on(g, st, c);
            let p = match red {
                Err(()) => {
                    return Err((s, c));
                },
                Ok(p) => p,
            };
            let mut entry: Option<Action> = None;
            let mut shifted = false;
            if c < n && g.is_term[c] {
                let gt = goto(g, first, st, c);
                if gt.len() > 0 {
                    let j = state_of(g, Ghost(f), states, &gt, Ghost(s as int), Ghost(c as int));
                    entry = Some(Action::Shift(j));
                    shifted = true;
                }
            }
            if !shifted {
                if c == g.end_ix && acc {
                    entry = Some(Action::Accept);
                } else {
                    match p {
                        Some(q) => {
                            entry = Some(Action::Reduce(q));
                        },
                        None => {},
                    }
                }
            }
            proof {
                assert(g.action_ok(f, sv, s as int, c as int, entry));
            }
            row.push(entry);
            c += 1;
        }
        let mut grow: Vec<Option<usize>> = Vec::new();
        let mut x: usize = 0;
        while x < n
            invariant
                g.wf(),
                f == mat(first@),
                sv == sets_view(states@),
                shaped(first@, g.n(), g.w()),
                g.collection(f, sv),
                n == g.n(),
                s < states.len(),
                st@ == sv[s as int],
                forall|j: int| 0 <= j < st.len() ==> g.valid_item(#[trigger] st@[j]),
                x <= n,
                grow@.len() == x,
                forall|x2: int| 0 <= x2 < x ==> g.goto_ok(f, sv, s as int, x2, #[trigger] grow@[x2]),
            decreases n - x,
        {
            let mut e: Option<usize> = None;
            if g.is_nonterm[x] {
                let gt = goto(g, first, st, x);
                if gt.len() > 0 {
                    let j = state_of(g, Ghost(f), states, &gt, Ghost(s as int), Ghost(x as int));
                    e = Some(j);
                }
            }
            grow.push(e);
            x += 1;
        }
        let ghost a0 = actions@;
        let ghost g0 = gotos@;
        actions.push(row);
        gotos.push(grow);
        proof {
            assert forall|s2: int, c2: int| 0 <= s2 < s + 1 && 0 <= c2 < g.w() implies g.action_ok(f, sv, s2, c2, #[trigger] actions@[s2]@[c2]) by {
                if s2 < s {
                    assert(actions@[s2] == a0[s2]);
                }
            }
            assert forall|s2: int, x2: int| 0 <= s2 < s + 1 && 0 <= x2 < g.n() implies g.goto_ok(f, sv, s2, x2, #[trigger] gotos@[s2]@[x2]) by {
                if s2 < s {
                    assert(gotos@[s2] == g0[s2]);
                }
            }
            assert forall|s2: int| 0 <= s2 < s + 1 implies (#[trigger] actions@[s2])@.len() == g.w() by {
                if s2 < s {
                    assert(actions@[s2] == a0[s2]);
                }
            }
            assert forall|s2: int| 0 <= s2 < s + 1 implies (#[trigger] gotos@[s2])@.len() == g.n() by {
                if s2 < s {
                    assert(gotos@[s2] == g0[s2]);
                }
            }
            assert forall|s2: int, c2: int| 0 <= s2 < s + 1 && 0 <= c2 < g.w() implies !g.conflict(states@[s2]@, c2) by {
                if s2 == s {
                    assert(states@[s2]@ == st@);
                }
            }
        }
        s += 1;
    }
    Ok((actions, gotos))
}

/// In a collection, the goto of a set on a symbol is at most one of its sets.
proof fn lemma_goto_target_unique(g: &Indexed, f: spec_fn(int, int) -> bool, st: Seq<Seq<Item>>, s: int, x: int, j1: int, j2: int)
    requires
        g.collection(f, st),
        0 <= s < st.len(),
        0 <= j1 < st.len(),
        0 <= j2 < st.len(),
        g.is_goto(f, st[s].to_set(), x, st[j1].to_set()),
        g.is_goto(f, st[s].to_set(), x, st[j2].to_set()),
    ensures
        j1 == j2,
{
    lemma_closure_unique(g, f, st[j1].to_set(), st[j2].to_set(), g.kernel(st[s].to_set(), x));
    assert(sorted(st[j1]) && sorted(st[j2]));
    assert forall|z: Item| st[j1].contains(z) <==> st[j2].contains(z) by {
        assert(st[j1].to_set().contains(z) == st[j1].contains(z));
        assert(st[j2].to_set().contains(z) == st[j2].contains(z));
    }
    lemma_sorted_unique(st[j1], st[j2]);
    if j1 < j2 {
        assert(st[j1] != st[j2]);
    } else if j2 < j1 {
        assert(st[j2] != st[j1]);
    }
}

/// The tables are a function of the item sets: two pairs of tables that
/// both hold the entries of every state of a conflict-free collection agree
/// on every entry, whatever order the items were visited in.
pub proof fn lemma_tables_unique(
    g: &Indexed,
    f: spec_fn(int, int) -> bool,
    st: Seq<Seq<Item>>,
    a1: Seq<Vec<Option<Action>>>,
    g1: Seq<Vec<Option<usize>>>,
    a2: Seq<Vec<Option<Action>>>,
    g2: Seq<Vec<Option<usize>>>,
)
    requires
        g.collection(f, st),
        g.tables_ok(f, st, a1, g1),
        g.tables_ok(f, st, a2, g2),
        forall|s: int, c: int| 0 <= s < st.len() && 0 <= c < g.w() ==> !#[trigger] g.conflict(st[s], c),
    ensures
        forall|s: int, c: int| 0 <= s < st.len() && 0 <= c < g.w() ==> #[trigger] a1[s]@[c] == a2[s]@[c],
        forall|s: int, x: int| 0 <= s < st.len() && 0 <= x < g.n() ==> #[trigger] g1[s]@[x] == g2[s]@[x],
{
    assert forall|s: int, c: int| 0 <= s < st.len() && 0 <= c < g.w() implies #[trigger] a1[s]@[c] == a2[s]@[c] by {
        let e1 = a1[s]@[c];
        let e2 = a2[s]@[c];
        assert(g.action_ok(f, st, s, c, e1));
        assert(g.action_ok(f, st, s, c, e2));
        match (e1, e2) {
            (Some(Action::Shift(j1)), Some(Action::Shift(j2))) => {
                lemma_goto_target_unique(g, f, st, s, c, j1 as int, j2 as int);
            },
            (Some(Action::Reduce(p1)), Some(Action::Reduce(p2))) => {
                let i1 = (p1, g.body(p1 as int).len() as usize, c as usize);
                let i2 = (p2, g.body(p2 as int).len() as usize, c as usize);
                let a = choose|a: int| 0 <= a < st[s].len() && st[s][a] == i1;
                let b = choose|b: int| 0 <= b < st[s].len() && st[s][b] == i2;
                assert(g.is_reduce(st[s][a], c) && g.is_reduce(st[s][b], c));
                if p1 != p2 {
                    assert(g.conflict(st[s], c));
                }
            },
            (Some(Action::Reduce(p1)), None) => {
                let i1 = (p1, g.body(p1 as int).len() as usize, c as usize);
                let a = choose|a: int| 0 <= a < st[s].len() && st[s][a] == i1;
                assert(!g.is_reduce(st[s][a], c));
            },
            (None, Some(Action::Reduce(p2))) => {
                let i2 = (p2, g.body(p2 as int).len() as usize, c as usize);
                let b = choose|b: int| 0 <= b < st[s].len() && st[s][b] == i2;
                assert(!g.is_reduce(st[s][b], c));
            },
            _ => {},
        }
    }
    assert forall|s: int, x: int| 0 <= s < st.len() && 0 <= x < g.n() implies #[trigger] g1[s]@[x] == g2[s]@[x] by {
        let e1 = g1[s]@[x];
        let e2 = g2[s]@[x];
        assert(g.goto_ok(f, st, s, x, e1));
        assert(g.goto_ok(f, st, s, x, e2));
        match (e1, e2) {
            (Some(j1), Some(j2)) => {
                lemma_goto_target_unique(g, f, st, s, x, j1 as int, j2 as int);
            },
            (Some(j), None) => {
                lemma_goto_of_empty_kernel(g, f, st, s, x, j as int);
            },
            (None, Some(j)) => {
                lemma_goto_of_empty_kernel(g, f, st, s, x, j as int);
            },
            _ => {},
        }
    }
}

/// A goto that is one of the sets has a nonempty kernel.
proof fn lemma_goto_of_empty_kernel(g: &Indexed, f: spec_fn(int, int) -> bool, st: Seq<Seq<Item>>, s: int, x: int, j: int)
    requires
        g.collection(f, st),
        0 <= j < st.len(),
        g.is_goto(f, st[s].to_set(), x, st[j].to_set()),
    ensures
        g.kernel(st[s].to_set(), x) != Set::<Item>::empty(),
{
    if g.kernel(st[s].to_set(), x) == Set::<Item>::empty() {
        let e = Set::<Item>::empty();
        assert(g.item_closed(f, e));
        assert(g.kernel(st[s].to_set(), x).subset_of(e));
        assert(st[j].to_set().subset_of(e));
        assert(st[j].len() > 0);
        assert(st[j].to_set().contains(st[j][0]));
    }
}

/// The conflict that building the tables reports is the first one, in
/// state and then lookahead order: two reports that both meet that
/// description name the same state and lookahead.
pub proof fn lemma_first_conflict_unique(g: &Indexed, st: Seq<Seq<Item>>, s1: int, c1: int, s2: int, c2: int)
    requires
        0 <= s1 < st.len() && 0 <= c1 < g.w() && g.conflict(st[s1], c1),
        0 <= s2 < st.len() && 0 <= c2 < g.w() && g.conflict(st[s2], c2),
        forall|s: int, c: int|
            0 <= s < st.len() && 0 <= c < g.w() && (s < s1 || (s == s1 && c < c1)) ==> !#[trigger] g.conflict(st[s], c),
        forall|s: int, c: int|
            0 <= s < st.len() && 0 <= c < g.w() && (s < s2 || (s == s2 && c < c2)) ==> !#[trigger] g.conflict(st[s], c),
    ensures
        s1 == s2 && c1 == c2,
{
}

} // verus!

//! A grammar with its symbols numbered: the form the LR(1) construction works on.
use vstd::prelude::*;
use crate::text::{string_from, views};
use crate::parser::grammar::{
    contains_string, heads, null_word, rules_view, sym_set, Body, Grammar, Sym,
};

verus! {

/// A grammar over symbol numbers.
///
/// Symbol `x < n` is `names[x]`; the number `n` stands for `NULL` and for any
/// word that is not a symbol; lookahead numbers run up to `n + 2`, with `end_ix`
/// the end marker `#` (the number of the symbol `#` if the grammar has one,
/// else `n + 1`). `prods[p]` is `prod_text[p]` in numbers; the first `n_real`
/// productions are those of the grammar, each `(head, body)` pair once; the
/// initial item's production is `prods[init]`.
pub struct Indexed {
    pub names: Vec<String>,
    pub is_term: Vec<bool>,
    pub is_nonterm: Vec<bool>,
    pub end_ix: usize,
    pub prods: Vec<(usize, Vec<usize>)>,
    pub prod_text: Vec<(String, Vec<String>)>,
    pub n_real: usize,
    pub init: usize,
}

/// The first position of `s` in `names`.
pub open spec fn pos(names: Seq<Sym>, s: Sym) -> Option<nat>
    decreases names.len(),
{
    if names.len() == 0 {
        None
    } else if names[0] == s {
        Some(0)
    } else {
        match pos(names.drop_first(), s) {
            Some(k) => Some(k + 1),
            None => None,
        }
    }
}

pub proof fn lemma_pos(names: Seq<Sym>, s: Sym)
    ensures
        match pos(names, s) {
            Some(k) => k < names.len() && names[k as int] == s && forall|j: int|
                0 <= j < k ==> #[trigger] names[j] != s,
            None => forall|j: int| 0 <= j < names.len() ==> #[trigger] names[j] != s,
        },
    decreases names.len(),
{
    if names.len() > 0 && names[0] != s {
        lemma_pos(names.drop_first(), s);
        match pos(names.drop_first(), s) {
            Some(k) => {
                assert forall|j: int| 0 <= j < k + 1 implies #[trigger] names[j] != s by {
                    if j > 0 {
                        assert(names[j] == names.drop_first()[j - 1]);
                    }
                }
            },
            None => {
                assert forall|j: int| 0 <= j < names.len() implies #[trigger] names[j] != s by {
                    if j > 0 {
                        assert(names[j] == names.drop_first()[j - 1]);
                    }
                }
            },
        }
    }
}

proof fn lemma_pos_exact(names: Seq<Sym>, s: Sym, k: int)
    requires
        0 <= k <= names.len(),
        forall|j: int| 0 <= j < k ==> #[trigger] names[j] != s,
        k < names.len() ==> names[k] == s,
    ensures
        pos(names, s) == (if k < names.len() {
            Some(k as nat)
        } else {
            None::<nat>
        }),
{
    lemma_pos(names, s);
    match pos(names, s) {
        Some(i) => {
            if (i as int) < k {
                assert(names[i as int] != s);
            }
            if (i as int) > k {
                assert(names[k] == s);
            }
        },
        None => {
            if k < names.len() {
                assert(names[k] != s);
            }
        },
    }
}

/// The position of `s` in `names`.
pub fn find_name(names: &Vec<String>, s: &String) -> (r: Option<usize>)
    ensures
        match r {
            Some(k) => pos(views(names@), s@) == Some(k as nat) && k < names.len(),
            None => pos(views(names@), s@) is None,
        },
{
    let ghost nv = views(names@);
    let mut i: usize = 0;
    while i < names.len()
        invariant
            i <= names.len(),
            nv == views(names@),
            forall|j: int| 0 <= j < i ==> #[trigger] nv[j] != s@,
        decreases names.len() - i,
    {
        if names[i] == *s {
            proof {
                lemma_pos_exact(nv, s@, i as int);
            }
            return Some(i);
        }
        i += 1;
    }
    proof {
        lemma_pos_exact(nv, s@, i as int);
    }
    None
}

/// The number that stands for the word `s`: its position among `names`, or
/// `n` for `NULL` and for a word that is not a symbol.
pub open spec fn number_of(names: Seq<Sym>, s: Sym) -> nat {
    if s == null_word() {
        names.len()
    } else {
        match pos(names, s) {
            Some(k) => k,
            None => names.len(),
        }
    }
}

/// The number of a head: its position among `names`, or `n` if it is not a symbol.
pub open spec fn head_number(names: Seq<Sym>, s: Sym) -> nat {
    match pos(names, s) {
        Some(k) => k,
        None => names.len(),
    }
}

/// The productions of a list of rules, one `(head, body)` per alternative, in order.
pub open spec fn flat_prods(rs: Seq<(Sym, Seq<Body>)>) -> Seq<(Sym, Body)>
    decreases rs.len(),
{
    if rs.len() == 0 {
        seq![]
    } else {
        flat_prods(rs.drop_last()) + rs.last().1.map_values(|b: Body| (rs.last().0, b))
    }
}

/// `s` with each repeated element after its first occurrence left out.
pub open spec fn dedup<A>(s: Seq<A>) -> Seq<A>
    decreases s.len(),
{
    if s.len() == 0 {
        seq![]
    } else {
        let d = dedup(s.drop_last());
        if d.contains(s.last()) {
            d
        } else {
            d.push(s.last())
        }
    }
}

/// A word with its apostrophes left out.
pub open spec fn strip_quotes(s: Seq<char>) -> Seq<char>
    decreases s.len(),
{
    if s.len() == 0 {
        seq![]
    } else if s.last() == '\'' {
        strip_quotes(s.drop_last())
    } else {
        strip_quotes(s.drop_last()).push(s.last())
    }
}

/// The view of the textual productions.
pub open spec fn text_view(t: Seq<(String, Vec<String>)>) -> Seq<(Sym, Body)> {
    t.map_values(|e: (String, Vec<String>)| (e.0@, views(e.1@)))
}

/// The initial item's production: the augmented start symbol, whose body is
/// that symbol with its apostrophes left out.
pub open spec fn init_prod(start: Sym) -> (Sym, Body) {
    (start, seq![strip_quotes(start)])
}

impl Indexed {
    pub open spec fn n(&self) -> nat {
        self.names@.len()
    }

    /// The number of `NULL`.
    pub open spec fn null(&self) -> nat {
        self.names@.len()
    }

    /// The number of lookahead columns.
    pub open spec fn w(&self) -> nat {
        self.names@.len() + 2
    }

    pub open spec fn end(&self) -> nat {
        self.end_ix as nat
    }

    pub open spec fn nprods(&self) -> nat {
        self.prods@.len()
    }

    pub open spec fn head(&self, p: int) -> nat {
        self.prods@[p].0 as nat
    }

    pub open spec fn body(&self, p: int) -> Seq<usize> {
        self.prods@[p].1@
    }

    pub open spec fn is_t(&self, x: int) -> bool {
        0 <= x < self.n() && self.is_term@[x]
    }

    pub open spec fn is_nt(&self, x: int) -> bool {
        0 <= x < self.n() && self.is_nonterm@[x]
    }

    /// The shape that every part of the construction relies on.
    pub open spec fn wf(&self) -> bool {
        &&& self.is_term@.len() == self.n()
        &&& self.is_nonterm@.len() == self.n()
        &&& self.end() < self.w()
        &&& self.end() != self.null()
        &&& self.n_real <= self.prods@.len() <= self.n_real + 1
        &&& self.init < self.prods@.len()
        &&& (self.prods@.len() > self.n_real ==> self.init == self.n_real)
        &&& self.prod_text@.len() == self.prods@.len()
        &&& self.w() < usize::MAX
        &&& forall|p: int| 0 <= p < self.prods@.len() ==> #[trigger] self.head(p) < self.n()
        &&& forall|p: int, k: int|
            0 <= p < self.prods@.len() && 0 <= k < self.body(p).len() ==> #[trigger] self.body(p)[k]
                <= self.null()
    }

    /// The numbers are those of the textual productions and the symbol table.
    pub open spec fn numbers_match(&self) -> bool {
        forall|p: int|
            0 <= p < self.prods@.len() ==> {
                &&& #[trigger] self.head(p) == head_number(views(self.names@), self.prod_text@[p].0@)
                &&& self.body(p).len() == self.prod_text@[p].1@.len()
                &&& forall|k: int|
                    0 <= k < self.body(p).len() ==> #[trigger] self.body(p)[k] == number_of(
                        views(self.names@),
                        self.prod_text@[p].1@[k]@,
                    )
            }
    }

    /// This is the numbered form of the grammar `g`.
    pub open spec fn indexes(&self, g: &Grammar) -> bool {
        &&& self.wf()
        &&& self.numbers_match()
        &&& views(self.names@) == views(g.symbols@)
        &&& forall|x: int| 0 <= x < self.n() ==> #[trigger] self.is_term@[x] == sym_set(g.terminals@).contains(self.names@[x]@)
        &&& forall|x: int| 0 <= x < self.n() ==> #[trigger] self.is_nonterm@[x] == sym_set(g.nonterminals@).contains(self.names@[x]@)
        &&& self.end() == (match pos(views(self.names@), "#"@) {
            Some(k) => k,
            None => self.n() + 1,
        })
        &&& text_view(self.prod_text@).take(self.n_real as int) == dedup(flat_prods(g.rules()))
        &&& text_view(self.prod_text@)[self.init as int] == init_prod(g.start_symbol@)
        &&& (self.init >= self.n_real ==> !dedup(flat_prods(g.rules())).contains(init_prod(g.start_symbol@)))
    }
}

/// A copy of a list of strings.
fn copy_strings(v: &Vec<String>) -> (r: Vec<String>)
    ensures
        r@ == v@,
{
    let mut r: Vec<String> = Vec::new();
    let mut i: usize = 0;
    while i < v.len()
        invariant
            i <= v.len(),
            r@ == v@.take(i as int),
        decreases v.len() - i,
    {
        r.push(v[i].clone());
        i += 1;
        assert(r@ =~= v@.take(i as int));
    }
    assert(v@.take(v.len() as int) =~= v@);
    r
}

/// Whether two lists of strings are equal.
fn same_strings(a: &Vec<String>, b: &Vec<String>) -> (r: bool)
    ensures
        r == (views(a@) == views(b@)),
{
    if a.len() != b.len() {
        assert(views(a@).len() != views(b@).len());
        return false;
    }
    let mut i: usize = 0;
    while i < a.len()
        invariant
            i <= a.len() == b.len(),
            forall|j: int| 0 <= j < i ==> #[trigger] views(a@)[j] == views(b@)[j],
        decreases a.len() - i,
    {
        if a[i] != b[i] {
            assert(views(a@)[i as int] != views(b@)[i as int]);
            return false;
        }
        i += 1;
    }
    assert(views(a@) =~= views(b@));
    true
}

/// Whether the textual productions `t` hold `(h, b)`.
fn holds_prod(t: &Vec<(String, Vec<String>)>, h: &String, b: &Vec<String>) -> (r: Option<usize>)
    ensures
        match r {
            Some(k) => k < t.len() && text_view(t@)[k as int] == (h@, views(b@)),
            None => !text_view(t@).contains((h@, views(b@))),
        },
{
    let mut i: usize = 0;
    while i < t.len()
        invariant
            i <= t.len(),
            forall|j: int| 0 <= j < i ==> #[trigger] text_view(t@)[j] != (h@, views(b@)),
        decreases t.len() - i,
    {
        if t[i].0 == *h && same_strings(&t[i].1, b) {
            return Some(i);
        }
        i += 1;
    }
    None
}

/// The number of a word.
fn number_exec(names: &Vec<String>, null: &String, s: &String) -> (r: usize)
    requires
        null@ == null_word(),
        names.len() < usize::MAX,
    ensures
        r == number_of(views(names@), s@),
{
    if *s == *null {
        return names.len();
    }
    match find_name(names, s) {
        Some(k) => k,
        None => names.len(),
    }
}

/// `s` with its apostrophes left out.
fn strip_quotes_exec(s: &String) -> (r: String)
    ensures
        r@ == strip_quotes(s@),
{
    let v = crate::text::chars_of(s.as_str());
    let mut r = String::new();
    let mut i: usize = 0;
    while i < v.len()
        invariant
            i <= v.len(),
            v@ == s@,
            r@ == strip_quotes(v@.take(i as int)),
        decreases v.len() - i,
    {
        assert(v@.take(i + 1).drop_last() =~= v@.take(i as int));
        if v[i] != '\'' {
            r.push(v[i]);
        }
        i += 1;
    }
    assert(v@.take(v.len() as int) =~= v@);
    r
}

proof fn lemma_flat_prods_step(rs: Seq<(Sym, Seq<Body>)>, i: int, alts: Seq<Body>, j: int)
    requires
        0 <= i < rs.len(),
        alts == rs[i].1,
        0 <= j < alts.len(),
    ensures
        flat_prods(rs.take(i)) + alts.take(j + 1).map_values(|b: Body| (rs[i].0, b)) == (flat_prods(rs.take(i))
            + alts.take(j).map_values(|b: Body| (rs[i].0, b))).push((rs[i].0, alts[j])),
{
    assert(alts.take(j + 1).map_values(|b: Body| (rs[i].0, b)) =~= alts.take(j).map_values(
        |b: Body| (rs[i].0, b),
    ).push((rs[i].0, alts[j])));
}

proof fn lemma_flat_prods_next(rs: Seq<(Sym, Seq<Body>)>, i: int)
    requires
        0 <= i < rs.len(),
    ensures
        flat_prods(rs.take(i + 1)) == flat_prods(rs.take(i)) + rs[i].1.take(rs[i].1.len() as int).map_values(
            |b: Body| (rs[i].0, b),
        ),
{
    assert(rs.take(i + 1).drop_last() =~= rs.take(i));
    assert(rs[i].1.take(rs[i].1.len() as int) =~= rs[i].1);
}

/// The grammar's productions, one per `(head, body)` pair, in order.
fn collect_prods(g: &Grammar) -> (t: Vec<(String, Vec<String>)>)
    ensures
        text_view(t@) == dedup(flat_prods(g.rules())),
{
    let ghost rs = g.rules();
    let mut t: Vec<(String, Vec<String>)> = Vec::new();
    let mut i: usize = 0;
    while i < g.productions.len()
        invariant
            i <= g.productions.len(),
            rs == g.rules(),
            text_view(t@) == dedup(flat_prods(rs.take(i as int))),
        decreases g.productions.len() - i,
    {
        let ghost alts = rs[i as int].1;
        let mut j: usize = 0;
        while j < g.productions[i].1.len()
            invariant
                i < g.productions.len(),
                j <= g.productions@[i as int].1.len(),
                rs == g.rules(),
                alts == rs[i as int].1,
                alts.len() == g.productions@[i as int].1.len(),
                text_view(t@) == dedup(
                    flat_prods(rs.take(i as int)) + alts.take(j as int).map_values(
                        |b: Body| (rs[i as int].0, b),
                    ),
                ),
            decreases g.productions@[i as int].1.len() - j,
        {
            let h = &g.productions[i].0;
            let b = &g.productions[i].1[j];
            assert(alts[j as int] == views(b@));
            proof {
                lemma_flat_prods_step(rs, i as int, alts, j as int);
            }
            let ghost before = flat_prods(rs.take(i as int)) + alts.take(j as int).map_values(
                |b: Body| (rs[i as int].0, b),
            );
            assert(before.push((h@, views(b@))).drop_last() =~= before);
            let found = holds_prod(&t, h, b);
            if found.is_none() {
                let ghost old_t = t@;
                t.push((h.clone(), copy_strings(b)));
                assert(text_view(t@) =~= text_view(old_t).push((h@, views(b@))));
            }
            j += 1;
        }
        proof {
            lemma_flat_prods_next(rs, i as int);
        }
        i += 1;
    }
    assert(rs.take(g.productions.len() as int) =~= rs);
    t
}

/// The productions of `t` in numbers.
fn number_prods(names: &Vec<String>, t: &Vec<(String, Vec<String>)>) -> (p: Vec<(usize, Vec<usize>)>)
    requires
        names.len() < usize::MAX,
    ensures
        p.len() == t.len(),
        forall|q: int|
            0 <= q < p.len() ==> {
                &&& #[trigger] p@[q].0 == head_number(views(names@), t@[q].0@)
                &&& p@[q].1@.len() == t@[q].1@.len()
                &&& forall|k: int|
                    0 <= k < p@[q].1@.len() ==> #[trigger] p@[q].1@[k] == number_of(
                        views(names@),
                        t@[q].1@[k]@,
                    )
            },
{
    let null = string_from("NULL");
    proof {
        reveal_strlit("NULL");
    }
    let mut p: Vec<(usize, Vec<usize>)> = Vec::new();
    let mut i: usize = 0;
    while i < t.len()
        invariant
            i <= t.len(),
            null@ == null_word(),
            names.len() < usize::MAX,
            p.len() == i,
            forall|q: int|
                0 <= q < i ==> {
                    &&& #[trigger] p@[q].0 == head_number(views(names@), t@[q].0@)
                    &&& p@[q].1@.len() == t@[q].1@.len()
                    &&& forall|k: int|
                        0 <= k < p@[q].1@.len() ==> #[trigger] p@[q].1@[k] == number_of(
                            views(names@),
                            t@[q].1@[k]@,
                        )
                },
        decreases t.len() - i,
    {
        let h = match find_name(names, &t[i].0) {
            Some(k) => k,
            None => names.len(),
        };
        let mut b: Vec<usize> = Vec::new();
        let mut k: usize = 0;
        while k < t[i].1.len()
            invariant
                i < t.len(),
                k <= t@[i as int].1@.len(),
                null@ == null_word(),
                names.len() < usize::MAX,
                b@.len() == k,
                forall|m: int|
                    0 <= m < k ==> #[trigger] b@[m] == number_of(views(names@), t@[i as int].1@[m]@),
            decreases t@[i as int].1@.len() - k,
        {
            let x = number_exec(names, &null, &t[i].1[k]);
            b.push(x);
            k += 1;
        }
        p.push((h, b));
        i += 1;
    }
    p
}

proof fn lemma_dedup_contains<A>(s: Seq<A>, x: A)
    ensures
        dedup(s).contains(x) ==> s.contains(x),
    decreases s.len(),
{
    broadcast use vstd::seq_lib::group_seq_properties;
    if s.len() > 0 {
        lemma_dedup_contains(s.drop_last(), x);
        if dedup(s.drop_last()).contains(x) {
            assert(s.drop_last().contains(x));
            let j = choose|j: int| 0 <= j < s.drop_last().len() && s.drop_last()[j] == x;
            assert(s[j] == x);
        }
        if x == s.last() {
            assert(s[s.len() - 1] == x);
        }
    }
}

proof fn lemma_flat_prods_heads(rs: Seq<(Sym, Seq<Body>)>, e: (Sym, Body))
    ensures
        flat_prods(rs).contains(e) ==> exists|i: int| 0 <= i < rs.len() && #[trigger] rs[i].0 == e.0,
    decreases rs.len(),
{
    broadcast use vstd::seq_lib::group_seq_properties;
    if rs.len() > 0 && flat_prods(rs).contains(e) {
        let a = flat_prods(rs.drop_last());
        let b = rs.last().1.map_values(|x: Body| (rs.last().0, x));
        if a.contains(e) {
            lemma_flat_prods_heads(rs.drop_last(), e);
            let i = choose|i: int| 0 <= i < rs.drop_last().len() && #[trigger] rs.drop_last()[i].0 == e.0;
            assert(rs[i].0 == e.0);
        } else {
            let j = choose|j: int| 0 <= j < (a + b).len() && (a + b)[j] == e;
            assert(b[j - a.len()] == e);
            assert(rs[rs.len() - 1].0 == e.0);
        }
    }
}

proof fn lemma_number_of_bound(names: Seq<Sym>, s: Sym)
    ensures
        number_of(names, s) <= names.len(),
        number_of(names, s) < names.len() ==> names[number_of(names, s) as int] == s,
{
    lemma_pos(names, s);
}

/// The grammar `g` in numbers.
pub fn index_grammar(g: &Grammar) -> (ix: Indexed)
    requires
        g.symbols.len() + 3 < usize::MAX,
        forall|p: int| 0 <= p < g.rules().len() ==> sym_set(g.symbols@).contains(#[trigger] g.rules()[p].0),
        sym_set(g.symbols@).contains(g.start_symbol@),
    ensures
        ix.indexes(g),
{
    let names = copy_strings(&g.symbols);
    let ghost nv = views(names@);
    let mut is_term: Vec<bool> = Vec::new();
    let mut is_nonterm: Vec<bool> = Vec::new();
    let mut i: usize = 0;
    while i < names.len()
        invariant
            i <= names.len(),
            names@ == g.symbols@,
            is_term@.len() == i,
            is_nonterm@.len() == i,
            forall|x: int| 0 <= x < i ==> #[trigger] is_term@[x] == sym_set(g.terminals@).contains(names@[x]@),
            forall|x: int| 0 <= x < i ==> #[trigger] is_nonterm@[x] == sym_set(g.nonterminals@).contains(names@[x]@),
        decreases names.len() - i,
    {
        is_term.push(contains_string(&g.terminals, &names[i]));
        is_nonterm.push(contains_string(&g.nonterminals, &names[i]));
        i += 1;
    }
    let hash = string_from("#");
    let end_ix = match find_name(&names, &hash) {
        Some(k) => k,
        None => names.len() + 1,
    };
    let mut prod_text = collect_prods(g);
    let ghost orig = text_view(prod_text@);
    let start = g.start_symbol.clone();
    let stripped = strip_quotes_exec(&start);
    let mut body0: Vec<String> = Vec::new();
    body0.push(stripped);
    assert(views(body0@) =~= seq![strip_quotes(start@)]);
    let n_real = prod_text.len();
    let init = match holds_prod(&prod_text, &start, &body0) {
        Some(k) => k,
        None => {
            prod_text.push((start, body0));
            n_real
        },
    };
    assert(text_view(prod_text@).take(n_real as int) =~= orig);
    assert(text_view(prod_text@)[init as int] == init_prod(g.start_symbol@));
    let prods = number_prods(&names, &prod_text);
    let ix = Indexed { names, is_term, is_nonterm, end_ix, prods, prod_text, n_real, init };
    assert(ix.numbers_match());
    proof {
        assert forall|p: int| 0 <= p < ix.prods@.len() implies #[trigger] ix.head(p) < ix.n() by {
            let h = ix.prod_text@[p].0@;
            lemma_pos(nv, h);
            if p < n_real {
                let e = text_view(ix.prod_text@)[p];
                assert(e == text_view(ix.prod_text@).take(n_real as int)[p]);
                assert(dedup(flat_prods(g.rules())).contains(e));
                lemma_dedup_contains(flat_prods(g.rules()), e);
                lemma_flat_prods_heads(g.rules(), e);
                let i = choose|i: int| 0 <= i < g.rules().len() && #[trigger] g.rules()[i].0 == e.0;
                assert(sym_set(g.symbols@).contains(h));
            } else {
                assert(h == g.start_symbol@);
            }
            assert(views(g.symbols@).contains(h));
            let j = choose|j: int| 0 <= j < nv.len() && nv[j] == h;
            assert(nv[j] == h);
        }
        assert forall|p: int, k: int|
            0 <= p < ix.prods@.len() && 0 <= k < ix.body(p).len() implies #[trigger] ix.body(p)[k]
                <= ix.null() by {
            assert(ix.prods@[p].0 == head_number(nv, ix.prod_text@[p].0@));
            assert(ix.prod_text@[p].1@.len() == ix.body(p).len());
            lemma_number_of_bound(nv, ix.prod_text@[p].1@[k]@);
        }
    }
    assert(ix.wf());
    assert(views(ix.names@) == views(g.symbols@));
    ix
}

} // verus!

//! Context-free grammars read from text, one production line per rule:
//! `HEAD -> a b c | d e | NULL`.
use vstd::prelude::*;
use crate::text::{
    blank, blank_range, chars_of, concat_str, find_sub, find_sub_range, join, join_strings,
    lemma_find_sub, line_bounds, lines, split_char, split_char_ranges, split_whitespace_range,
    split_ws, string_from, string_of_range, trim, trim_range, views,
};

verus! {

/// A grammar symbol, as its characters.
pub type Sym = Seq<char>;

/// A production body: a sequence of symbols.
pub type Body = Seq<Sym>;

/// A grammar read from text.
///
/// `productions` lists each head once, in the order of its first line, with
/// all of its alternatives in line order. `nonterminals` are the heads;
/// `terminals` are the body symbols that the token dictionary marks as
/// terminals or that head no production; `symbols` is their union.
pub struct Grammar {
    pub productions: Vec<(String, Vec<Vec<String>>)>,
    pub terminals: Vec<String>,
    pub nonterminals: Vec<String>,
    pub start_symbol: String,
    pub symbols: Vec<String>,
    pub grammar_str: String,
}

/// Why a grammar text was refused.
#[derive(Debug, Clone)]
pub enum GrammarError {
    InvalidProduction(String),
    MissingArrow(String),
    EmptyProductionBody(String),
    UndefinedStartSymbol,
}

/// The meaning of a `GrammarError`.
pub enum GrammarErrorView {
    InvalidProduction(Seq<char>),
    MissingArrow(Seq<char>),
    EmptyProductionBody(Seq<char>),
    UndefinedStartSymbol,
}

impl View for GrammarError {
    type V = GrammarErrorView;

    open spec fn view(&self) -> GrammarErrorView {
        match self {
            GrammarError::InvalidProduction(m) => GrammarErrorView::InvalidProduction(m@),
            GrammarError::MissingArrow(m) => GrammarErrorView::MissingArrow(m@),
            GrammarError::EmptyProductionBody(m) => GrammarErrorView::EmptyProductionBody(m@),
            GrammarError::UndefinedStartSymbol => GrammarErrorView::UndefinedStartSymbol,
        }
    }
}

impl GrammarError {
    /// The error's message.
    pub fn message(&self) -> (r: String)
        ensures
            r@ == match self@ {
                GrammarErrorView::InvalidProduction(m) => "Invalid production: "@ + m,
                GrammarErrorView::MissingArrow(m) => "Missing -> in line: "@ + m,
                GrammarErrorView::EmptyProductionBody(m) => "Empty production body in line: "@ + m,
                GrammarErrorView::UndefinedStartSymbol => "Start symbol not defined"@,
            },
    {
        match self {
            GrammarError::InvalidProduction(m) => {
                let p = string_from("Invalid production: ");
                concat_str(&p, m.as_str())
            },
            GrammarError::MissingArrow(m) => {
                let p = string_from("Missing -> in line: ");
                concat_str(&p, m.as_str())
            },
            GrammarError::EmptyProductionBody(m) => {
                let p = string_from("Empty production body in line: ");
                concat_str(&p, m.as_str())
            },
            GrammarError::UndefinedStartSymbol => string_from("Start symbol not defined"),
        }
    }
}

/// The word that marks an empty alternative.
pub open spec fn null_word() -> Sym {
    "NULL"@
}

/// The separator between a head and its alternatives.
pub open spec fn arrow() -> Seq<char> {
    " -> "@
}

/// The alternatives of a body text: split at `|`, each split at white space.
pub open spec fn alternatives(text: Seq<char>) -> Seq<Body> {
    split_char(text, '|').map_values(|b: Seq<char>| split_ws(b))
}

/// An alternative that names `NULL` beside other symbols.
pub open spec fn invalid_alt(b: Body) -> bool {
    b.contains(null_word()) && b.len() > 1
}

/// Index of the first invalid alternative.
pub open spec fn first_invalid(alts: Seq<Body>) -> Option<nat>
    decreases alts.len(),
{
    if alts.len() == 0 {
        None
    } else if invalid_alt(alts[0]) {
        Some(0)
    } else {
        match first_invalid(alts.drop_first()) {
            Some(k) => Some(k + 1),
            None => None,
        }
    }
}

/// A production line read: its head and its alternatives, or why it is refused.
pub open spec fn parse_line(l: Seq<char>) -> Result<(Sym, Seq<Body>), GrammarErrorView> {
    match find_sub(l, arrow()) {
        None => Err(GrammarErrorView::MissingArrow(l)),
        Some(i) => {
            let head = trim(l.take(i as int));
            let alts = alternatives(l.skip(i + 4 as int));
            match first_invalid(alts) {
                Some(k) => Err(
                    GrammarErrorView::InvalidProduction(head + arrow() + join(alts[k as int], " "@)),
                ),
                None => Ok((head, alts)),
            }
        },
    }
}

/// The lines of `ls` that hold more than white space.
pub open spec fn drop_blank(ls: Seq<Seq<char>>) -> Seq<Seq<char>>
    decreases ls.len(),
{
    if ls.len() == 0 {
        seq![]
    } else if blank(ls.last()) {
        drop_blank(ls.drop_last())
    } else {
        drop_blank(ls.drop_last()).push(ls.last())
    }
}

/// The lines of a grammar text that hold more than white space.
pub open spec fn content_lines(s: Seq<char>) -> Seq<Seq<char>> {
    drop_blank(lines(s))
}

/// The lines read in order; the first refused line decides the error.
pub open spec fn parse_lines(ls: Seq<Seq<char>>) -> Result<Seq<(Sym, Seq<Body>)>, GrammarErrorView>
    decreases ls.len(),
{
    if ls.len() == 0 {
        Ok(seq![])
    } else {
        match parse_lines(ls.drop_last()) {
            Err(e) => Err(e),
            Ok(rs) => match parse_line(ls.last()) {
                Err(e) => Err(e),
                Ok(r) => Ok(rs.push(r)),
            },
        }
    }
}

proof fn lemma_drop_blank_add(a: Seq<Seq<char>>, b: Seq<Seq<char>>)
    ensures
        drop_blank(a + b) == drop_blank(a) + drop_blank(b),
    decreases b.len(),
{
    if b.len() == 0 {
        assert(a + b =~= a);
        assert(drop_blank(a) + drop_blank(b) =~= drop_blank(a));
    } else {
        assert((a + b).drop_last() =~= a + b.drop_last());
        assert((a + b).last() == b.last());
        lemma_drop_blank_add(a, b.drop_last());
        if !blank(b.last()) {
            assert(drop_blank(a) + drop_blank(b.drop_last()).push(b.last()) =~= (drop_blank(a)
                + drop_blank(b.drop_last())).push(b.last()));
        }
    }
}

proof fn lemma_lines_step(all: Seq<Seq<char>>, i: int)
    requires
        0 <= i < all.len(),
    ensures
        drop_blank(all.take(i + 1)) == (if blank(all[i]) {
            drop_blank(all.take(i))
        } else {
            drop_blank(all.take(i)).push(all[i])
        }),
{
    assert(all.take(i + 1).drop_last() =~= all.take(i));
    assert(all.take(i + 1).last() == all[i]);
}

proof fn lemma_parse_lines_push(x: Seq<Seq<char>>, l: Seq<char>)
    ensures
        parse_lines(x.push(l)) == (match parse_lines(x) {
            Err(e) => Err(e),
            Ok(rs) => match parse_line(l) {
                Err(e) => Err(e),
                Ok(r) => Ok(rs.push(r)),
            },
        }),
{
    assert(x.push(l).drop_last() =~= x);
    assert(x.push(l).last() == l);
}

proof fn lemma_parse_lines_err(p: Seq<Seq<char>>, q: Seq<Seq<char>>, e: GrammarErrorView)
    requires
        parse_lines(p) == Err::<Seq<(Sym, Seq<Body>)>, GrammarErrorView>(e),
    ensures
        parse_lines(p + q) == Err::<Seq<(Sym, Seq<Body>)>, GrammarErrorView>(e),
    decreases q.len(),
{
    if q.len() == 0 {
        assert(p + q =~= p);
    } else {
        assert((p + q).drop_last() =~= p + q.drop_last());
        lemma_parse_lines_err(p, q.drop_last(), e);
    }
}

/// Position of the first entry with head `h`.
pub open spec fn head_index(g: Seq<(Sym, Seq<Body>)>, h: Sym) -> Option<nat>
    decreases g.len(),
{
    if g.len() == 0 {
        None
    } else if g[0].0 == h {
        Some(0)
    } else {
        match head_index(g.drop_first(), h) {
            Some(k) => Some(k + 1),
            None => None,
        }
    }
}

proof fn lemma_head_index(g: Seq<(Sym, Seq<Body>)>, h: Sym)
    ensures
        match head_index(g, h) {
            Some(k) => k < g.len() && g[k as int].0 == h && forall|j: int|
                0 <= j < k ==> #[trigger] g[j].0 != h,
            None => forall|j: int| 0 <= j < g.len() ==> #[trigger] g[j].0 != h,
        },
    decreases g.len(),
{
    if g.len() > 0 && g[0].0 != h {
        lemma_head_index(g.drop_first(), h);
        match head_index(g.drop_first(), h) {
            Some(k) => {
                assert forall|j: int| 0 <= j < k + 1 implies #[trigger] g[j].0 != h by {
                    if j > 0 {
                        assert(g[j] == g.drop_first()[j - 1]);
                    }
                }
            },
            None => {
                assert forall|j: int| 0 <= j < g.len() implies #[trigger] g[j].0 != h by {
                    if j > 0 {
                        assert(g[j] == g.drop_first()[j - 1]);
                    }
                }
            },
        }
    }
}

proof fn lemma_head_index_exact(g: Seq<(Sym, Seq<Body>)>, h: Sym, k: int)
    requires
        0 <= k <= g.len(),
        forall|j: int| 0 <= j < k ==> #[trigger] g[j].0 != h,
        k < g.len() ==> g[k].0 == h,
    ensures
        head_index(g, h) == (if k < g.len() {
            Some(k as nat)
        } else {
            None::<nat>
        }),
{
    lemma_head_index(g, h);
    match head_index(g, h) {
        Some(i) => {
            if (i as int) < k {
                assert(g[i as int].0 != h);
            }
            if (i as int) > k {
                assert(g[k].0 == h);
            }
        },
        None => {
            if k < g.len() {
                assert(g[k].0 != h);
            }
        },
    }
}

/// Rules grouped by head: each head once, in order of first appearance, with
/// the alternatives of all its lines in line order.
pub open spec fn group(rs: Seq<(Sym, Seq<Body>)>) -> Seq<(Sym, Seq<Body>)>
    decreases rs.len(),
{
    if rs.len() == 0 {
        seq![]
    } else {
        let g = group(rs.drop_last());
        let r = rs.last();
        match head_index(g, r.0) {
            Some(k) => g.update(k as int, (r.0, g[k as int].1 + r.1)),
            None => g.push(r),
        }
    }
}

/// `s` heads some rule.
pub open spec fn is_head(rs: Seq<(Sym, Seq<Body>)>, s: Sym) -> bool {
    exists|i: int| 0 <= i < rs.len() && #[trigger] rs[i].0 == s
}

/// `s` occurs in some alternative of some rule.
pub open spec fn in_some_body(rs: Seq<(Sym, Seq<Body>)>, s: Sym) -> bool {
    exists|i: int, j: int|
        0 <= i < rs.len() && 0 <= j < rs[i].1.len() && (#[trigger] rs[i].1[j]).contains(s)
}

/// The words of the token dictionary, with whether each is a terminal.
pub open spec fn token_dict_entries() -> Seq<(&'static str, bool)> {
    seq![
        ("PROGRAM", false), ("HEADER", false), ("PROG", false), ("TEMPLATE_BLOCK", false),
        ("TEMPLATE_STMT", false), ("PARAM", false), ("PARAM_", false), ("TEMPLATE_CONTENT", false),
        ("STMTS", false), ("STMT", false), ("SIGNAL_STMT", false), ("ID_OR_ARRAY", false),
        ("ID_OR_NUM", false), ("COMPONENT_ID", false), ("CI_", false), ("VAR_STMT", false),
        ("VAR_", false), ("VAR_DEF", false), ("VAR_ASSIGN", false), ("ASSIGN_STMT", false),
        ("EXPR", false), ("C_ASSIGN_STMT", false), ("IF_STMT", false), ("M_IF", false),
        ("N_IF", false), ("M_ELSE", false), ("WHILE_STMT", false), ("M_BEFORE_WHILE", false),
        ("M_AFTER_WHILE", false), ("FOR_STMT", false), ("FOR_COND", false), ("M_FOR", false),
        ("CONDITION", false), ("COMPONENT_BLOCK", false), ("ASSIGN", false), ("C_ASSIGN", false),
        ("REL", false), ("PLUS", false), ("OP", false), ("COMPONENT_STMT", false),
        ("COMP_", false), ("COMP_DEF", false),
        ("PRAGMA", true), ("CIRCOM", true), ("VERSION", true), ("CUSTOM_TEMPLATES", true),
        ("TEMPLATE", true), ("COMPONENT", true), ("MAIN", true), ("SIGNAL", true),
        ("INPUT", true), ("OUTPUT", true), ("VAR", true), ("IF", true), ("ELSE", true),
        ("WHILE", true), ("FOR", true),
        ("=", true), ("+=", true), ("-=", true), ("*=", true), ("/=", true),
        ("QUOTIENT_ASSIGN", true), ("%=", true), ("&=", true), ("BITWISE_OR_ASSIGN", true),
        ("^=", true), ("~=", true), ("<<=", true), (">>=", true),
        ("===", true), ("<--", true), ("-->", true), ("<==", true), ("==>", true), ("==", true),
        ("<", true), ("<=", true), (">", true), (">=", true), ("!=", true),
        ("+", true), ("-", true), ("*", true), ("QUOTIENT", true), ("/", true), ("%", true),
        ("&", true), ("BITWISE_OR", true), ("~", true), ("^", true), ("<<", true), (">>", true),
        (";", true), (",", true), ("(", true), (")", true), ("{", true), ("}", true),
        ("[", true), ("]", true), ("DOT", true),
        ("ID", true), ("NUM", true), ("NULL", true),
        ("BITWISE_OR", true), ("BITWISE_OR_ASSIGN", true)
    ]
}

/// What the dictionary `d` says of `s`: the last entry for it decides.
pub open spec fn dict_value(d: Seq<(&'static str, bool)>, s: Sym) -> Option<bool>
    decreases d.len(),
{
    if d.len() == 0 {
        None
    } else if d.last().0@ == s {
        Some(d.last().1)
    } else {
        dict_value(d.drop_last(), s)
    }
}

/// `s` is a terminal word of the token dictionary.
pub open spec fn dict_terminal(s: Sym) -> bool {
    dict_value(token_dict_entries(), s) == Some(true)
}

/// The token dictionary: the grammar words of the Circom grammar, each with
/// whether it is a terminal.
pub fn build_token_dict() -> (d: Vec<(&'static str, bool)>)
    ensures
        d@ == token_dict_entries(),
{
    vec![
        ("PROGRAM", false), ("HEADER", false), ("PROG", false), ("TEMPLATE_BLOCK", false),
        ("TEMPLATE_STMT", false), ("PARAM", false), ("PARAM_", false), ("TEMPLATE_CONTENT", false),
        ("STMTS", false), ("STMT", false), ("SIGNAL_STMT", false), ("ID_OR_ARRAY", false),
        ("ID_OR_NUM", false), ("COMPONENT_ID", false), ("CI_", false), ("VAR_STMT", false),
        ("VAR_", false), ("VAR_DEF", false), ("VAR_ASSIGN", false), ("ASSIGN_STMT", false),
        ("EXPR", false), ("C_ASSIGN_STMT", false), ("IF_STMT", false), ("M_IF", false),
        ("N_IF", false), ("M_ELSE", false), ("WHILE_STMT", false), ("M_BEFORE_WHILE", false),
        ("M_AFTER_WHILE", false), ("FOR_STMT", false), ("FOR_COND", false), ("M_FOR", false),
        ("CONDITION", false), ("COMPONENT_BLOCK", false), ("ASSIGN", false), ("C_ASSIGN", false),
        ("REL", false), ("PLUS", false), ("OP", false), ("COMPONENT_STMT", false),
        ("COMP_", false), ("COMP_DEF", false),
        ("PRAGMA", true), ("CIRCOM", true), ("VERSION", true), ("CUSTOM_TEMPLATES", true),
        ("TEMPLATE", true), ("COMPONENT", true), ("MAIN", true), ("SIGNAL", true),
        ("INPUT", true), ("OUTPUT", true), ("VAR", true), ("IF", true), ("ELSE", true),
        ("WHILE", true), ("FOR", true),
        ("=", true), ("+=", true), ("-=", true), ("*=", true), ("/=", true),
        ("QUOTIENT_ASSIGN", true), ("%=", true), ("&=", true), ("BITWISE_OR_ASSIGN", true),
        ("^=", true), ("~=", true), ("<<=", true), (">>=", true),
        ("===", true), ("<--", true), ("-->", true), ("<==", true), ("==>", true), ("==", true),
        ("<", true), ("<=", true), (">", true), (">=", true), ("!=", true),
        ("+", true), ("-", true), ("*", true), ("QUOTIENT", true), ("/", true), ("%", true),
        ("&", true), ("BITWISE_OR", true), ("~", true), ("^", true), ("<<", true), (">>", true),
        (";", true), (",", true), ("(", true), (")", true), ("{", true), ("}", true),
        ("[", true), ("]", true), ("DOT", true),
        ("ID", true), ("NUM", true), ("NULL", true),
        ("BITWISE_OR", true), ("BITWISE_OR_ASSIGN", true)
    ]
}

/// What the dictionary says of `s`.
fn dict_get(d: &Vec<(&'static str, bool)>, s: &String) -> (r: Option<bool>)
    ensures
        r == dict_value(d@, s@),
{
    let mut i: usize = d.len();
    assert(d@.take(d.len() as int) =~= d@);
    while i > 0
        invariant
            i <= d.len(),
            dict_value(d@, s@) == dict_value(d@.take(i as int), s@),
        decreases i,
    {
        let ghost t = d@.take(i as int);
        let w = string_from(d[i - 1].0);
        if w == *s {
            return Some(d[i - 1].1);
        }
        assert(t.drop_last() =~= d@.take(i - 1));
        i -= 1;
    }
    None
}

/// The view of a list of alternatives.
pub open spec fn alts_view(a: Seq<Vec<String>>) -> Seq<Body> {
    a.map_values(|b: Vec<String>| views(b@))
}

/// The view of a list of rules.
pub open spec fn rules_view(p: Seq<(String, Vec<Vec<String>>)>) -> Seq<(Sym, Seq<Body>)> {
    p.map_values(|e: (String, Vec<Vec<String>>)| (e.0@, alts_view(e.1@)))
}

/// The symbols of a list, as a set.
pub open spec fn sym_set(v: Seq<String>) -> Set<Sym> {
    views(v).to_set()
}

/// No symbol is listed twice.
pub open spec fn distinct(v: Seq<String>) -> bool {
    views(v).no_duplicates()
}

/// The heads of a list of rules.
pub open spec fn heads(g: Seq<(Sym, Seq<Body>)>) -> Seq<Sym> {
    g.map_values(|e: (Sym, Seq<Body>)| e.0)
}

proof fn lemma_group(rs: Seq<(Sym, Seq<Body>)>)
    ensures
        heads(group(rs)).no_duplicates(),
        forall|s: Sym| #[trigger] heads(group(rs)).contains(s) <==> is_head(rs, s),
        rs.len() > 0 ==> group(rs).len() > 0 && group(rs)[0].0 == rs[0].0,
    decreases rs.len(),
{
    if rs.len() > 0 {
        let g = group(rs.drop_last());
        let r = rs.last();
        lemma_group(rs.drop_last());
        lemma_head_index(g, r.0);
        assert forall|s: Sym| #[trigger] heads(group(rs)).contains(s) <==> is_head(rs, s) by {
            if heads(group(rs)).contains(s) {
                let k = choose|k: int| 0 <= k < heads(group(rs)).len() && heads(group(rs))[k] == s;
                match head_index(g, r.0) {
                    Some(m) => {
                        assert(heads(g)[k] == s);
                        assert(heads(g).contains(s));
                        assert(is_head(rs.drop_last(), s));
                        let i = choose|i: int| 0 <= i < rs.drop_last().len() && #[trigger] rs.drop_last()[i].0 == s;
                        assert(rs[i].0 == s);
                    },
                    None => {
                        if k < g.len() {
                            assert(heads(g)[k] == s);
                            assert(heads(g).contains(s));
                            assert(is_head(rs.drop_last(), s));
                            let i = choose|i: int| 0 <= i < rs.drop_last().len() && #[trigger] rs.drop_last()[i].0 == s;
                            assert(rs[i].0 == s);
                        } else {
                            assert(rs[rs.len() - 1].0 == s);
                        }
                    },
                }
            }
            if is_head(rs, s) {
                let i = choose|i: int| 0 <= i < rs.len() && #[trigger] rs[i].0 == s;
                if i < rs.len() - 1 {
                    assert(rs.drop_last()[i].0 == s);
                    assert(heads(g).contains(s));
                    let k = choose|k: int| 0 <= k < heads(g).len() && heads(g)[k] == s;
                    assert(heads(group(rs))[k] == s);
                } else {
                    match head_index(g, r.0) {
                        Some(m) => {
                            assert(heads(group(rs))[m as int] == s);
                        },
                        None => {
                            assert(heads(group(rs))[g.len() as int] == s);
                        },
                    }
                }
            }
        }
        match head_index(g, r.0) {
            Some(m) => {
                assert(heads(group(rs)) =~= heads(g));
            },
            None => {
                assert(heads(group(rs)) =~= heads(g).push(r.0));
                assert(!heads(g).contains(r.0));
            },
        }
        if rs.len() == 1 {
            assert(rs.drop_last().len() == 0);
        } else {
            assert(rs.drop_last()[0] == rs[0]);
        }
    }
}

/// A copy of a list of strings.
fn clone_strings(v: &Vec<String>) -> (r: Vec<String>)
    ensures
        r@ == v@,
{
    let mut r: Vec<String> = Vec::new();
    let mut i: usize = 0;
    while i < v.len()
        invariant
            i <= v.len(),
            r@ == v@.take(i as int),
        decreases v.len() - i,
    {
        r.push(v[i].clone());
        i += 1;
        assert(r@ =~= v@.take(i as int));
    }
    assert(v@.take(v.len() as int) =~= v@);
    r
}

/// A copy of a list of alternatives.
fn clone_alts(v: &Vec<Vec<String>>) -> (r: Vec<Vec<String>>)
    ensures
        alts_view(r@) == alts_view(v@),
{
    let mut r: Vec<Vec<String>> = Vec::new();
    let mut i: usize = 0;
    while i < v.len()
        invariant
            i <= v.len(),
            r@.len() == i,
            alts_view(r@) == alts_view(v@.take(i as int)),
        decreases v.len() - i,
    {
        let c = clone_strings(&v[i]);
        let ghost old_r = r@;
        r.push(c);
        assert(r@.len() == i + 1);
        assert forall|j: int| 0 <= j < i + 1 implies #[trigger] alts_view(r@)[j] == alts_view(v@.take(i + 1))[j] by {
            if j < i {
                assert(r@[j] == old_r[j]);
                assert(alts_view(old_r)[j] == alts_view(v@.take(i as int))[j]);
            } else {
                assert(r@[j] == c);
                assert(v@.take(i + 1)[j] == v@[j]);
            }
        }
        assert(alts_view(r@) =~= alts_view(v@.take(i + 1)));
        i += 1;
    }
    assert(v@.take(v.len() as int) =~= v@);
    r
}

/// Rules grouped by head, in order of first appearance.
fn group_rules(rules: &Vec<(String, Vec<Vec<String>>)>) -> (g: Vec<(String, Vec<Vec<String>>)>)
    ensures
        rules_view(g@) == group(rules_view(rules@)),
{
    let mut g: Vec<(String, Vec<Vec<String>>)> = Vec::new();
    let mut i: usize = 0;
    while i < rules.len()
        invariant
            i <= rules.len(),
            rules_view(g@) == group(rules_view(rules@).take(i as int)),
        decreases rules.len() - i,
    {
        let ghost rv = rules_view(rules@).take(i + 1);
        assert(rv.drop_last() =~= rules_view(rules@).take(i as int));
        let ghost gv = rules_view(g@);
        let mut k: usize = 0;
        while k < g.len() && g[k].0 != rules[i].0
            invariant
                k <= g.len(),
                i < rules.len(),
                gv == rules_view(g@),
                forall|j: int| 0 <= j < k ==> #[trigger] gv[j].0 != rules@[i as int].0@,
            decreases g.len() - k,
        {
            k += 1;
        }
        proof {
            lemma_head_index_exact(gv, rules@[i as int].0@, k as int);
        }
        if k < g.len() {
            let mut alts = clone_alts(&g[k].1);
            let mut extra = clone_alts(&rules[i].1);
            let ghost a0 = alts@;
            let ghost e0 = extra@;
            alts.append(&mut extra);
            assert(alts_view(alts@) =~= alts_view(a0) + alts_view(e0));
            let h = g[k].0.clone();
            g.set(k, (h, alts));
            assert(rules_view(g@) =~= gv.update(k as int, (rv.last().0, gv[k as int].1 + rv.last().1)));
        } else {
            let h = rules[i].0.clone();
            let alts = clone_alts(&rules[i].1);
            g.push((h, alts));
            assert(rules_view(g@) =~= gv.push(rv.last()));
        }
        i += 1;
    }
    assert(rules_view(rules@).take(rules.len() as int) =~= rules_view(rules@));
    g
}

/// The heads of the grouped rules, in order.
fn heads_of(g: &Vec<(String, Vec<Vec<String>>)>) -> (r: Vec<String>)
    ensures
        views(r@) == heads(rules_view(g@)),
{
    let mut r: Vec<String> = Vec::new();
    let mut i: usize = 0;
    while i < g.len()
        invariant
            i <= g.len(),
            r@.len() == i,
            views(r@) == heads(rules_view(g@)).take(i as int),
        decreases g.len() - i,
    {
        let ghost old_r = r@;
        r.push(g[i].0.clone());
        assert(r@.len() == i + 1);
        assert forall|j: int| 0 <= j < i + 1 implies #[trigger] views(r@)[j] == heads(rules_view(g@)).take(i + 1)[j] by {
            if j < i {
                assert(r@[j] == old_r[j]);
                assert(views(old_r)[j] == heads(rules_view(g@)).take(i as int)[j]);
            } else {
                assert(r@[j]@ == g@[j].0@);
            }
        }
        i += 1;
        assert(views(r@) =~= heads(rules_view(g@)).take(i as int));
    }
    assert(heads(rules_view(g@)).take(g.len() as int) =~= heads(rules_view(g@)));
    r
}

/// Whether some rule has head `s`.
fn is_head_exec(rules: &Vec<(String, Vec<Vec<String>>)>, s: &String) -> (b: bool)
    ensures
        b == is_head(rules_view(rules@), s@),
{
    let ghost rs = rules_view(rules@);
    let mut i: usize = 0;
    while i < rules.len()
        invariant
            i <= rules.len(),
            rs == rules_view(rules@),
            forall|j: int| 0 <= j < i ==> #[trigger] rs[j].0 != s@,
        decreases rules.len() - i,
    {
        if rules[i].0 == *s {
            assert(rs[i as int].0 == s@);
            return true;
        }
        i += 1;
    }
    false
}

/// Whether `v` lists `s`.
pub fn contains_string(v: &Vec<String>, s: &String) -> (b: bool)
    ensures
        b == views(v@).contains(s@),
{
    let mut i: usize = 0;
    while i < v.len()
        invariant
            i <= v.len(),
            forall|j: int| 0 <= j < i ==> #[trigger] views(v@)[j] != s@,
        decreases v.len() - i,
    {
        if v[i] == *s {
            assert(views(v@)[i as int] == s@);
            return true;
        }
        i += 1;
    }
    false
}

/// The symbols of a list of alternatives, in order.
pub open spec fn flat_alts(alts: Seq<Body>) -> Seq<Sym>
    decreases alts.len(),
{
    if alts.len() == 0 {
        seq![]
    } else {
        flat_alts(alts.drop_last()) + alts.last()
    }
}

/// The body symbols of a list of rules, in order.
pub open spec fn flat_rules(rs: Seq<(Sym, Seq<Body>)>) -> Seq<Sym>
    decreases rs.len(),
{
    if rs.len() == 0 {
        seq![]
    } else {
        flat_rules(rs.drop_last()) + flat_alts(rs.last().1)
    }
}

proof fn lemma_flat_alts(alts: Seq<Body>, s: Sym)
    ensures
        flat_alts(alts).contains(s) <==> exists|j: int| 0 <= j < alts.len() && (#[trigger] alts[j]).contains(s),
    decreases alts.len(),
{
    broadcast use vstd::seq_lib::group_seq_properties;
    if alts.len() > 0 {
        lemma_flat_alts(alts.drop_last(), s);
        if flat_alts(alts).contains(s) {
            if flat_alts(alts.drop_last()).contains(s) {
                let j = choose|j: int| 0 <= j < alts.drop_last().len() && (#[trigger] alts.drop_last()[j]).contains(s);
                assert(alts[j] == alts.drop_last()[j]);
            } else {
                assert(alts[alts.len() - 1].contains(s));
            }
        }
        if exists|j: int| 0 <= j < alts.len() && (#[trigger] alts[j]).contains(s) {
            let j = choose|j: int| 0 <= j < alts.len() && (#[trigger] alts[j]).contains(s);
            if j < alts.len() - 1 {
                assert(alts.drop_last()[j] == alts[j]);
            }
        }
    }
}

proof fn lemma_flat_rules(rs: Seq<(Sym, Seq<Body>)>, s: Sym)
    ensures
        flat_rules(rs).contains(s) <==> in_some_body(rs, s),
    decreases rs.len(),
{
    broadcast use vstd::seq_lib::group_seq_properties;
    if rs.len() > 0 {
        lemma_flat_rules(rs.drop_last(), s);
        lemma_flat_alts(rs.last().1, s);
        if flat_rules(rs).contains(s) {
            if flat_rules(rs.drop_last()).contains(s) {
                let (a, j) = choose|a: int, j: int|
                    0 <= a < rs.drop_last().len() && 0 <= j < rs.drop_last()[a].1.len() && (#[trigger] rs.drop_last()[a].1[j]).contains(s);
                assert(rs[a] == rs.drop_last()[a]);
                assert(rs[a].1[j].contains(s));
            } else {
                let j = choose|j: int| 0 <= j < rs.last().1.len() && (#[trigger] rs.last().1[j]).contains(s);
                assert(rs[rs.len() - 1].1[j].contains(s));
            }
        }
        if in_some_body(rs, s) {
            let (a, j) = choose|a: int, j: int|
                0 <= a < rs.len() && 0 <= j < rs[a].1.len() && (#[trigger] rs[a].1[j]).contains(s);
            if a < rs.len() - 1 {
                assert(rs.drop_last()[a] == rs[a]);
                assert(rs.drop_last()[a].1[j].contains(s));
            } else {
                assert(rs.last().1[j].contains(s));
            }
        }
    }
}

/// The body symbols of the rules, in order.
fn flatten_bodies(rules: &Vec<(String, Vec<Vec<String>>)>) -> (f: Vec<String>)
    ensures
        views(f@) == flat_rules(rules_view(rules@)),
{
    let ghost rs = rules_view(rules@);
    let mut f: Vec<String> = Vec::new();
    let mut i: usize = 0;
    while i < rules.len()
        invariant
            i <= rules.len(),
            rs == rules_view(rules@),
            views(f@) == flat_rules(rs.take(i as int)),
        decreases rules.len() - i,
    {
        let ghost alts = rs[i as int].1;
        let ghost base = views(f@);
        let mut j: usize = 0;
        while j < rules[i].1.len()
            invariant
                i < rules.len(),
                j <= rules@[i as int].1.len(),
                rs == rules_view(rules@),
                alts == rs[i as int].1,
                alts.len() == rules@[i as int].1.len(),
                views(f@) == base + flat_alts(alts.take(j as int)),
            decreases rules@[i as int].1.len() - j,
        {
            let ghost before = views(f@);
            let mut k: usize = 0;
            while k < rules[i].1[j].len()
                invariant
                    i < rules.len(),
                    j < rules@[i as int].1.len(),
                    k <= rules@[i as int].1@[j as int].len(),
                    rs == rules_view(rules@),
                    alts == rs[i as int].1,
                    alts[j as int] == views(rules@[i as int].1@[j as int]@),
                    views(f@) == before + alts[j as int].take(k as int),
                decreases rules@[i as int].1@[j as int].len() - k,
            {
                let ghost old_f = views(f@);
                f.push(rules[i].1[j][k].clone());
                assert(views(f@) =~= old_f.push(alts[j as int][k as int]));
                assert(alts[j as int].take(k + 1) =~= alts[j as int].take(k as int).push(alts[j as int][k as int]));
                k += 1;
            }
            assert(alts[j as int].take(k as int) =~= alts[j as int]);
            assert(alts.take(j + 1).drop_last() =~= alts.take(j as int));
            assert(views(f@) =~= base + flat_alts(alts.take(j + 1)));
            j += 1;
        }
        assert(alts.take(j as int) =~= alts);
        assert(rs.take(i + 1).drop_last() =~= rs.take(i as int));
        i += 1;
    }
    assert(rs.take(rules.len() as int) =~= rs);
    f
}

/// The terminals of the rules: the body symbols other than `NULL` that the
/// dictionary marks as terminals or that head no rule.
fn classify_terminals(rules: &Vec<(String, Vec<Vec<String>>)>, dict: &Vec<(&'static str, bool)>) -> (t: Vec<String>)
    requires
        dict@ == token_dict_entries(),
    ensures
        distinct(t@),
        forall|s: Sym|
            #[trigger] sym_set(t@).contains(s) <==> (in_some_body(rules_view(rules@), s) && s
                != null_word() && (dict_terminal(s) || !is_head(rules_view(rules@), s))),
{
    broadcast use vstd::seq_lib::group_seq_properties;
    let ghost rs = rules_view(rules@);
    let flat = flatten_bodies(rules);
    let null = string_from("NULL");
    let mut t: Vec<String> = Vec::new();
    let mut m: usize = 0;
    while m < flat.len()
        invariant
            m <= flat.len(),
            rs == rules_view(rules@),
            views(flat@) == flat_rules(rs),
            null@ == null_word(),
            dict@ == token_dict_entries(),
            distinct(t@),
            forall|s: Sym|
                #[trigger] views(t@).contains(s) <==> (views(flat@).take(m as int).contains(s) && s
                    != null_word() && (dict_terminal(s) || !is_head(rs, s))),
        decreases flat.len() - m,
    {
        let sym = &flat[m];
        assert(views(flat@)[m as int] == sym@);
        let mut keep = false;
        if *sym != null {
            let d = dict_get(dict, sym);
            let h = is_head_exec(rules, sym);
            if d == Some(true) || !h {
                if !contains_string(&t, sym) {
                    keep = true;
                }
            }
        }
        let ghost old_t = views(t@);
        let ghost pred = sym@ != null_word() && (dict_terminal(sym@) || !is_head(rs, sym@));
        assert(keep == (pred && !old_t.contains(sym@)));
        if keep {
            t.push(sym.clone());
            assert(views(t@) =~= old_t.push(sym@));
        }
        assert(views(flat@).take(m + 1) =~= views(flat@).take(m as int).push(sym@));
        assert forall|s: Sym|
            #[trigger] views(t@).contains(s) <==> (views(flat@).take(m + 1).contains(s) && s
                != null_word() && (dict_terminal(s) || !is_head(rs, s))) by {
            if s != sym@ {
                if views(t@).contains(s) {
                    if keep {
                        let j = choose|j: int| 0 <= j < views(t@).len() && views(t@)[j] == s;
                        assert(old_t[j] == s);
                    }
                }
                if views(flat@).take(m + 1).contains(s) {
                    let j = choose|j: int| 0 <= j < m + 1 && #[trigger] views(flat@).take(m + 1)[j] == s;
                    assert(views(flat@).take(m as int)[j] == s);
                }
                if old_t.contains(s) && keep {
                    let j = choose|j: int| 0 <= j < old_t.len() && old_t[j] == s;
                    assert(views(t@)[j] == s);
                }
            } else {
                if keep {
                    assert(views(t@)[old_t.len() as int] == s);
                }
                assert(views(flat@).take(m + 1)[m as int] == s);
            }
        }
        m += 1;
    }
    assert(views(flat@).take(flat.len() as int) =~= views(flat@));
    assert forall|s: Sym|
        #[trigger] sym_set(t@).contains(s) <==> (in_some_body(rs, s) && s != null_word() && (dict_terminal(s) || !is_head(rs, s))) by {
        lemma_flat_rules(rs, s);
    }
    t
}

/// The terminals followed by the nonterminals that are not terminals.
fn union_symbols(t: &Vec<String>, n: &Vec<String>) -> (u: Vec<String>)
    requires
        distinct(t@),
        distinct(n@),
    ensures
        distinct(u@),
        forall|s: Sym| #[trigger] sym_set(u@).contains(s) <==> (sym_set(t@).contains(s) || sym_set(n@).contains(s)),
{
    broadcast use vstd::seq_lib::group_seq_properties;
    let mut u = clone_strings(t);
    let mut i: usize = 0;
    while i < n.len()
        invariant
            i <= n.len(),
            distinct(u@),
            distinct(n@),
            forall|s: Sym| #[trigger] views(u@).contains(s) <==> (views(t@).contains(s) || views(n@).take(i as int).contains(s)),
        decreases n.len() - i,
    {
        let ghost old_u = views(u@);
        let x = &n[i];
        let present = contains_string(&u, x);
        if !present {
            u.push(x.clone());
            assert(views(u@) =~= old_u.push(x@));
        }
        assert(views(n@).take(i + 1) =~= views(n@).take(i as int).push(x@));
        assert forall|s: Sym| #[trigger] views(u@).contains(s) <==> (views(t@).contains(s) || views(n@).take(i + 1).contains(s)) by {
            if s != x@ {
                if views(u@).contains(s) && !present {
                    let j = choose|j: int| 0 <= j < views(u@).len() && views(u@)[j] == s;
                    assert(old_u[j] == s);
                }
                if old_u.contains(s) && !present {
                    let j = choose|j: int| 0 <= j < old_u.len() && old_u[j] == s;
                    assert(views(u@)[j] == s);
                }
                if views(n@).take(i + 1).contains(s) {
                    let j = choose|j: int| 0 <= j < i + 1 && #[trigger] views(n@).take(i + 1)[j] == s;
                    assert(views(n@).take(i as int)[j] == s);
                }
            } else {
                if !present {
                    assert(views(u@)[old_u.len() as int] == s);
                }
                assert(views(n@).take(i + 1)[i as int] == s);
            }
        }
        i += 1;
    }
    assert(views(n@).take(n.len() as int) =~= views(n@));
    u
}

/// One production line read: its head and alternatives, or why it is refused.
#[verifier::loop_isolation(false)]
fn parse_line_range(v: &Vec<char>, a: usize, b: usize) -> (r: Result<(String, Vec<Vec<String>>), GrammarError>)
    requires
        a <= b <= v.len(),
    ensures
        match parse_line(v@.subrange(a as int, b as int)) {
            Err(e) => r matches Err(x) && x@ == e,
            Ok(p) => r matches Ok(q) && q.0@ == p.0 && alts_view(q.1@) == p.1,
        },
{
    let ghost l = v@.subrange(a as int, b as int);
    let arrow_v = chars_of(" -> ");
    let found = find_sub_range(v, a, b, &arrow_v);
    match found {
        None => {
            return Err(GrammarError::MissingArrow(string_of_range(v, a, b)));
        },
        Some(i) => {
            proof {
                lemma_find_sub(l, arrow());
                reveal_strlit(" -> ");
            }
            assert(l.take(i as int) =~= v@.subrange(a as int, a + i));
            assert(l.skip(i + 4) =~= v@.subrange(a + i + 4, b as int));
            let head = trim_range(v, a, a + i);
            let pieces = split_char_ranges(v, a + i + 4, b, '|');
            let ghost ps = pieces@.map_values(|p: (usize, usize)| v@.subrange(p.0 as int, p.1 as int));
            let ghost alts = alternatives(l.skip(i + 4));
            let null = string_from("NULL");
            let mut out: Vec<Vec<String>> = Vec::new();
            let mut k: usize = 0;
            while k < pieces.len()
                invariant
                    k <= pieces.len(),
                    a + i + 4 <= b <= v.len(),
                    forall|m: int| 0 <= m < pieces.len() ==> a + i + 4 <= #[trigger] pieces@[m].0 <= pieces@[m].1 <= b,
                    ps == pieces@.map_values(|p: (usize, usize)| v@.subrange(p.0 as int, p.1 as int)),
                    alts == ps.map_values(|q: Seq<char>| split_ws(q)),
                    out@.len() == k,
                    alts.len() == pieces.len(),
                    alts_view(out@) == alts.take(k as int),
                decreases pieces.len() - k,
            {
                let (p0, p1) = pieces[k];
                let words = split_whitespace_range(v, p0, p1);
                let ghost old_out = out@;
                out.push(words);
                assert(ps[k as int] == v@.subrange(p0 as int, p1 as int));
                assert(out@.len() == k + 1);
                assert forall|j: int| 0 <= j < k + 1 implies #[trigger] alts_view(out@)[j] == alts.take(k + 1)[j] by {
                    if j < k {
                        assert(out@[j] == old_out[j]);
                        assert(alts_view(old_out)[j] == alts.take(k as int)[j]);
                    } else {
                        assert(out@[j] == words);
                        assert(alts[j] == split_ws(ps[j]));
                    }
                }
                assert(alts_view(out@) =~= alts.take(k + 1));
                k += 1;
            }
            assert(alts.take(pieces.len() as int) =~= alts);
            let mut m: usize = 0;
            while m < out.len()
                invariant
                    m <= out.len(),
                    null@ == null_word(),
                    alts_view(out@) == alts,
                    forall|j: int| 0 <= j < m ==> !invalid_alt(#[trigger] alts[j]),
                decreases out.len() - m,
            {
                let has_null = contains_string(&out[m], &null);
                if has_null && out[m].len() > 1 {
                    proof {
                        lemma_first_invalid_exact(alts, m as int);
                    }
                    let sep = string_from(" ");
                    let joined = join_strings(&out[m], sep.as_str());
                    let msg0 = concat_str(&head, " -> ");
                    let msg = concat_str(&msg0, joined.as_str());
                    assert(alts[m as int] == views(out@[m as int]@));
                    proof { reveal_strlit(" "); }
                    assert(msg@ =~= head@ + arrow() + join(alts[m as int], " "@));
                    assert(find_sub(l, arrow()) == Some(i as nat));
                    assert(first_invalid(alternatives(l.skip(i + 4 as int))) == Some(m as nat));
                    assert(head@ == trim(l.take(i as int)));
                    assert(parse_line(l) == Err::<(Sym, Seq<Body>), GrammarErrorView>(GrammarErrorView::InvalidProduction(msg@)));
                    return Err(GrammarError::InvalidProduction(msg));
                }
                m += 1;
            }
            proof {
                lemma_first_invalid_none(alts);
            }
            Ok((head, out))
        },
    }
}

proof fn lemma_first_invalid_exact(alts: Seq<Body>, m: int)
    requires
        0 <= m < alts.len(),
        invalid_alt(alts[m]),
        forall|j: int| 0 <= j < m ==> !invalid_alt(#[trigger] alts[j]),
    ensures
        first_invalid(alts) == Some(m as nat),
    decreases m,
{
    if m > 0 {
        assert forall|j: int| 0 <= j < m - 1 implies !invalid_alt(#[trigger] alts.drop_first()[j]) by {
            assert(alts.drop_first()[j] == alts[j + 1]);
        }
        assert(alts.drop_first()[m - 1] == alts[m]);
        assert(!invalid_alt(alts[0]));
        lemma_first_invalid_exact(alts.drop_first(), m - 1);
    }
}

proof fn lemma_first_invalid_none(alts: Seq<Body>)
    requires
        forall|j: int| 0 <= j < alts.len() ==> !invalid_alt(#[trigger] alts[j]),
    ensures
        first_invalid(alts) is None,
    decreases alts.len(),
{
    if alts.len() > 0 {
        assert(!invalid_alt(alts[0]));
        assert forall|j: int| 0 <= j < alts.len() - 1 implies !invalid_alt(#[trigger] alts.drop_first()[j]) by {
            assert(alts.drop_first()[j] == alts[j + 1]);
        }
        lemma_first_invalid_none(alts.drop_first());
    }
}

/// The production lines of a grammar text, read in order, or the error of the
/// first refused line.
#[verifier::spinoff_prover]
#[verifier::rlimit(40)]
fn read_rules(grammar_str: &str) -> (r: Result<Vec<(String, Vec<Vec<String>>)>, GrammarError>)
    ensures
        match parse_lines(content_lines(grammar_str@)) {
            Err(e) => r matches Err(x) && x@ == e,
            Ok(rs) => r matches Ok(v) && rules_view(v@) == rs,
        },
{
        let chars = chars_of(grammar_str);
        let bounds = line_bounds(&chars);
        let ghost all = bounds@.map_values(|b: (usize, usize)| chars@.subrange(b.0 as int, b.1 as int));
        let mut rules: Vec<(String, Vec<Vec<String>>)> = Vec::new();
        let mut i: usize = 0;
        assert(all.take(0) =~= Seq::<Seq<char>>::empty());
        assert(rules_view(rules@) =~= Seq::<(Sym, Seq<Body>)>::empty());
        while i < bounds.len()
            invariant
                i <= bounds.len(),
                chars@ == grammar_str@,
                all == bounds@.map_values(|b: (usize, usize)| chars@.subrange(b.0 as int, b.1 as int)),
                all == lines(grammar_str@),
                forall|k: int| 0 <= k < bounds.len() ==> #[trigger] bounds@[k].0 <= bounds@[k].1 <= chars.len(),
                parse_lines(drop_blank(all.take(i as int))) == Ok::<Seq<(Sym, Seq<Body>)>, GrammarErrorView>(
                    rules_view(rules@),
                ),
            decreases bounds.len() - i,
        {
            let (a, b) = bounds[i];
            let ghost l = chars@.subrange(a as int, b as int);
            assert(all[i as int] == l);
            proof {
                lemma_lines_step(all, i as int);
                lemma_parse_lines_push(drop_blank(all.take(i as int)), l);
            }
            let is_blank = blank_range(&chars, a, b);
            if !is_blank {
                match parse_line_range(&chars, a, b) {
                    Err(e) => {
                        proof {
                            let p = drop_blank(all.take(i + 1));
                            assert(all =~= all.take(i + 1) + all.skip(i + 1));
                            lemma_drop_blank_add(all.take(i + 1), all.skip(i + 1));
                            lemma_parse_lines_err(p, drop_blank(all.skip(i + 1)), e@);
                        }
                        return Err(e);
                    },
                    Ok(r) => {
                        let ghost old_rules = rules@;
                        rules.push(r);
                        assert(rules_view(rules@) =~= rules_view(old_rules).push((r.0@, alts_view(r.1@))));
                    },
                }
            }
            i += 1;
        }
        assert(all.take(bounds.len() as int) =~= all);
        Ok(rules)
}

impl Grammar {
    /// The rules read from the text, grouped by head.
    pub open spec fn rules(&self) -> Seq<(Sym, Seq<Body>)> {
        rules_view(self.productions@)
    }

    /// What `Grammar::new` gives for the text `s`, described over its parts:
    /// `rs` are the lines read in order.
    pub open spec fn built_from(&self, rs: Seq<(Sym, Seq<Body>)>) -> bool {
        &&& rs.len() > 0
        &&& self.rules() == group(rs)
        &&& self.start_symbol@ == rs[0].0
        &&& distinct(self.nonterminals@)
        &&& distinct(self.terminals@)
        &&& distinct(self.symbols@)
        &&& forall|s: Sym| #[trigger] sym_set(self.nonterminals@).contains(s) <==> is_head(rs, s)
        &&& forall|s: Sym|
            #[trigger] sym_set(self.terminals@).contains(s) <==> (in_some_body(rs, s) && s
                != null_word() && (dict_terminal(s) || !is_head(rs, s)))
        &&& forall|s: Sym|
            #[trigger] sym_set(self.symbols@).contains(s) <==> (sym_set(
                self.terminals@,
            ).contains(s) || sym_set(self.nonterminals@).contains(s))
    }

    /// Reads a grammar from its text: one production per non-blank line,
    /// `HEAD -> alternative | alternative ...`. The first head is the start
    /// symbol.
    pub fn new(grammar_str: &str) -> (r: Result<Grammar, GrammarError>)
        ensures
            match parse_lines(content_lines(grammar_str@)) {
                Err(e) => r matches Err(x) && x@ == e,
                Ok(rs) => if rs.len() == 0 {
                    r matches Err(x) && x@ == GrammarErrorView::UndefinedStartSymbol
                } else {
                    r matches Ok(g) && g.built_from(rs) && g.grammar_str@ == grammar_str@
                },
            },
    {
        let rules = match read_rules(grammar_str) {
            Err(e) => {
                return Err(e);
            },
            Ok(r) => r,
        };
        let ghost rs = rules_view(rules@);
        if rules.len() == 0 {
            return Err(GrammarError::UndefinedStartSymbol);
        }
        let productions = group_rules(&rules);
        let start_symbol = rules[0].0.clone();
        let nonterminals = heads_of(&productions);
        proof {
            lemma_group(rs);
            assert(views(nonterminals@) == heads(group(rs)));
        }
        let dict = build_token_dict();
        let terminals = classify_terminals(&rules, &dict);
        let symbols = union_symbols(&terminals, &nonterminals);
        let g = Grammar {
            productions,
            terminals,
            nonterminals,
            start_symbol,
            symbols,
            grammar_str: string_from(grammar_str),
        };
        Ok(g)
    }
}


/// The head of every rule, and the start symbol, are symbols of the grammar.
pub proof fn lemma_heads_are_symbols(g: &Grammar, rs: Seq<(Sym, Seq<Body>)>)
    requires
        g.built_from(rs),
    ensures
        forall|p: int| 0 <= p < g.rules().len() ==> sym_set(g.symbols@).contains(#[trigger] g.rules()[p].0),
        sym_set(g.symbols@).contains(g.start_symbol@),
{
    lemma_group(rs);
    assert forall|p: int| 0 <= p < g.rules().len() implies sym_set(g.symbols@).contains(#[trigger] g.rules()[p].0) by {
        let s = g.rules()[p].0;
        assert(heads(group(rs))[p] == s);
        assert(heads(group(rs)).contains(s));
        assert(is_head(rs, s));
        assert(sym_set(g.nonterminals@).contains(s));
    }
    assert(rs[0].0 == g.start_symbol@);
    assert(is_head(rs, g.start_symbol@));
    assert(sym_set(g.nonterminals@).contains(g.start_symbol@));
}
} // verus!

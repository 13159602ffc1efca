//! The LR(1) parser: built from a grammar, it runs the shift-reduce loop on
//! tokens and reports the reductions it made, in order.
use vstd::prelude::*;
use crate::lexer::token::{Token, TokenView};
use crate::text::{concat_str, decimal, decimal_string, string_from, views};
use crate::parser::grammar::{
    content_lines, lemma_heads_are_symbols, null_word, parse_lines, Body, Grammar, GrammarError,
    GrammarErrorView, Sym,
};
use crate::parser::indexed::{
    dedup, find_name, flat_prods, index_grammar, lemma_pos, number_of, pos, text_view, Indexed,
};
use crate::parser::first_sets::{compute_first_and_follow, mat, shaped};
use crate::parser::items::{build_items, lemma_closure_kernel, sets_view, Item};
use crate::parser::table::{build_parse_table, Action};
use crate::parser::grammar::{contains_string, group};

verus! {

/// A reduction: the production's head and body, and the tokens of the
/// terminals it took off the stack, the topmost first.
#[derive(Debug, Clone)]
pub struct ReduceResult {
    pub head: String,
    pub body: Vec<String>,
    pub token: Vec<Token>,
}

/// The contents of a reduction.
pub struct ReduceView {
    pub head: Seq<char>,
    pub body: Seq<Seq<char>>,
    pub token: Seq<TokenView>,
}

impl View for ReduceResult {
    type V = ReduceView;

    open spec fn view(&self) -> ReduceView {
        ReduceView { head: self.head@, body: views(self.body@), token: self.token@.map_values(|t: Token| t@) }
    }
}

/// An entry of the symbol stack: a grammar symbol, with its token if it was shifted.
#[derive(Debug)]
pub struct ReduceSymbol {
    symbol: String,
    token: Option<Token>,
}

/// Why parsing failed.
#[derive(Debug)]
pub enum ParseError {
    Conflict { symbol: String, state: usize, line: usize, column: usize },
    InvalidAction { symbol: String, state: usize, line: usize, column: usize },
    UnexpectedEnd,
    GrammarError(GrammarError),
}

/// The meaning of a `ParseError`.
pub enum ParseErrorView {
    Conflict { symbol: Seq<char>, state: usize, line: usize, column: usize },
    InvalidAction { symbol: Seq<char>, state: usize, line: usize, column: usize },
    UnexpectedEnd,
    GrammarError(GrammarErrorView),
}

impl View for ParseError {
    type V = ParseErrorView;

    open spec fn view(&self) -> ParseErrorView {
        match self {
            ParseError::Conflict { symbol, state, line, column } => ParseErrorView::Conflict {
                symbol: symbol@,
                state: *state,
                line: *line,
                column: *column,
            },
            ParseError::InvalidAction { symbol, state, line, column } => ParseErrorView::InvalidAction {
                symbol: symbol@,
                state: *state,
                line: *line,
                column: *column,
            },
            ParseError::UnexpectedEnd => ParseErrorView::UnexpectedEnd,
            ParseError::GrammarError(e) => ParseErrorView::GrammarError(e@),
        }
    }
}

/// `prefix line-column: state s on symbol`.
pub open spec fn located(prefix: Seq<char>, symbol: Seq<char>, state: usize, line: usize, column: usize) -> Seq<char> {
    prefix + decimal(line as nat) + "-"@ + decimal(column as nat) + ": state "@ + decimal(state as nat) + " on "@ + symbol
}

fn located_message(prefix: &str, symbol: &String, state: usize, line: usize, column: usize) -> (r: String)
    ensures
        r@ == located(prefix@, symbol@, state, line, column),
{
    let a = string_from(prefix);
    let b = concat_str(&a, decimal_string(line).as_str());
    let c = concat_str(&b, "-");
    let d = concat_str(&c, decimal_string(column).as_str());
    let e = concat_str(&d, ": state ");
    let f = concat_str(&e, decimal_string(state).as_str());
    let g = concat_str(&f, " on ");
    concat_str(&g, symbol.as_str())
}

impl ParseError {
    /// The error's message.
    pub fn message(&self) -> (r: String)
        ensures
            r@ == match self@ {
                ParseErrorView::Conflict { symbol, state, line, column } => located("Conflict at line "@, symbol, state, line, column),
                ParseErrorView::InvalidAction { symbol, state, line, column } => located("Invalid action at line "@, symbol, state, line, column),
                ParseErrorView::UnexpectedEnd => "Unexpected end of input"@,
                ParseErrorView::GrammarError(e) => "Grammar error: "@ + match e {
                    GrammarErrorView::InvalidProduction(m) => "Invalid production: "@ + m,
                    GrammarErrorView::MissingArrow(m) => "Missing -> in line: "@ + m,
                    GrammarErrorView::EmptyProductionBody(m) => "Empty production body in line: "@ + m,
                    GrammarErrorView::UndefinedStartSymbol => "Start symbol not defined"@,
                },
            },
    {
        match self {
            ParseError::Conflict { symbol, state, line, column } => located_message("Conflict at line ", symbol, *state, *line, *column),
            ParseError::InvalidAction { symbol, state, line, column } => located_message("Invalid action at line ", symbol, *state, *line, *column),
            ParseError::UnexpectedEnd => string_from("Unexpected end of input"),
            ParseError::GrammarError(e) => {
                let p = string_from("Grammar error: ");
                let m = e.message();
                concat_str(&p, m.as_str())
            },
        }
    }
}

/// A grammar error as a parse error.
impl From<GrammarError> for ParseError {
    fn from(err: GrammarError) -> (r: ParseError) {
        ParseError::GrammarError(err)
    }
}

impl vstd::std_specs::convert::FromSpecImpl<GrammarError> for ParseError {
    open spec fn obeys_from_spec() -> bool {
        true
    }

    open spec fn from_spec(v: GrammarError) -> ParseError {
        ParseError::GrammarError(v)
    }
}

/// The grammar symbol that a token type stands for, where the two differ.
pub open spec fn symbol_table() -> Seq<(&'static str, &'static str)> {
    seq![
        ("SEMICOLON", ";"), ("INCREMENT", "++"), ("DECREMENT", "--"), ("PLUS_ASSIGN", "+="),
        ("MINUS_ASSIGN", "-="), ("MULTIPLY_ASSIGN", "*="), ("DIVIDE_ASSIGN", "/="),
        ("MODULUS_ASSIGN", "%="), ("BITWISE_AND_ASSIGN", "&="), ("BITWISE_XOR_ASSIGN", "^="),
        ("BITWISE_NOT_ASSIGN", "~="), ("LEFT_SHIFT_ASSIGN", "<<="), ("RIGHT_SHIFT_ASSIGN", ">>="),
        ("PLUS", "+"), ("MINUS", "-"), ("MULTIPLY", "*"), ("DIVIDE", "/"), ("MODULUS", "%"),
        ("LOGICAL_AND", "&&"), ("BITWISE_AND", "&"), ("BITWISE_XOR", "^"), ("BITWISE_NOT", "~"),
        ("LEFT_SHIFT", "<<"), ("RIGHT_SHIFT", ">>"), ("CIRCOM_L_ASSIGN", "<--"),
        ("CIRCOM_R_ASSIGN", "-->"), ("CIRCOM_L_CONSTRAINT_ASSIGN", "<=="),
        ("CIRCOM_R_CONSTRAINT_ASSIGN", "==>"), ("CIRCOM_CONSTRAINT", "==="), ("EQUAL", "=="),
        ("NOT_EQUAL", "!="), ("LESS_THAN_OR_EQUAL", "<="), ("GREATER_THAN_OR_EQUAL", ">="),
        ("LESS_THAN", "<"), ("GREATER_THAN", ">"), ("ASSIGN", "="), ("LOGICAL_NOT", "!"),
        ("LPAREN", "("), ("RPAREN", ")"), ("LBRACKET", "["), ("RBRACKET", "]"), ("COMMA", ","),
        ("LBRACE", "{"), ("RBRACE", "}"), ("COLON", ":"), ("QUESTION_MARK", "?")
    ]
}

/// The entry of `d` for `t`, the first one deciding.
pub open spec fn table_value(d: Seq<(&'static str, &'static str)>, t: Seq<char>) -> Option<Seq<char>>
    decreases d.len(),
{
    if d.len() == 0 {
        None
    } else if d[0].0@ == t {
        Some(d[0].1@)
    } else {
        table_value(d.drop_first(), t)
    }
}

/// The grammar symbol of a token of type `t`.
pub open spec fn symbol_of(t: Seq<char>) -> Seq<char> {
    match table_value(symbol_table(), t) {
        Some(s) => s,
        None => t,
    }
}

fn build_symbol_table() -> (d: Vec<(&'static str, &'static str)>)
    ensures
        d@ == symbol_table(),
{
    vec![
        ("SEMICOLON", ";"), ("INCREMENT", "++"), ("DECREMENT", "--"), ("PLUS_ASSIGN", "+="),
        ("MINUS_ASSIGN", "-="), ("MULTIPLY_ASSIGN", "*="), ("DIVIDE_ASSIGN", "/="),
        ("MODULUS_ASSIGN", "%="), ("BITWISE_AND_ASSIGN", "&="), ("BITWISE_XOR_ASSIGN", "^="),
        ("BITWISE_NOT_ASSIGN", "~="), ("LEFT_SHIFT_ASSIGN", "<<="), ("RIGHT_SHIFT_ASSIGN", ">>="),
        ("PLUS", "+"), ("MINUS", "-"), ("MULTIPLY", "*"), ("DIVIDE", "/"), ("MODULUS", "%"),
        ("LOGICAL_AND", "&&"), ("BITWISE_AND", "&"), ("BITWISE_XOR", "^"), ("BITWISE_NOT", "~"),
        ("LEFT_SHIFT", "<<"), ("RIGHT_SHIFT", ">>"), ("CIRCOM_L_ASSIGN", "<--"),
        ("CIRCOM_R_ASSIGN", "-->"), ("CIRCOM_L_CONSTRAINT_ASSIGN", "<=="),
        ("CIRCOM_R_CONSTRAINT_ASSIGN", "==>"), ("CIRCOM_CONSTRAINT", "==="), ("EQUAL", "=="),
        ("NOT_EQUAL", "!="), ("LESS_THAN_OR_EQUAL", "<="), ("GREATER_THAN_OR_EQUAL", ">="),
        ("LESS_THAN", "<"), ("GREATER_THAN", ">"), ("ASSIGN", "="), ("LOGICAL_NOT", "!"),
        ("LPAREN", "("), ("RPAREN", ")"), ("LBRACKET", "["), ("RBRACKET", "]"), ("COMMA", ","),
        ("LBRACE", "{"), ("RBRACE", "}"), ("COLON", ":"), ("QUESTION_MARK", "?")
    ]
}

/// The grammar symbol of a token of type `t`.
pub fn token_symbol(t: &String) -> (r: String)
    ensures
        r@ == symbol_of(t@),
{
    let d = build_symbol_table();
    assert(d@.skip(0) =~= d@);
    let mut i: usize = 0;
    while i < d.len()
        invariant
            d@ == symbol_table(),
            i <= d.len(),
            table_value(symbol_table(), t@) == table_value(d@.skip(i as int), t@),
        decreases d.len() - i,
    {
        let ghost rest = d@.skip(i as int);
        assert(rest.drop_first() =~= d@.skip(i + 1));
        let k = string_from(d[i].0);
        if k == *t {
            return string_from(d[i].1);
        }
        i += 1;
    }
    t.clone()
}

/// The end marker appended to the tokens.
pub open spec fn end_token() -> TokenView {
    TokenView { token_type: "#"@, value: "#"@, line: 0, column: 0, start: 0, end: 0 }
}

/// The parser's input: the tokens and the end marker.
pub open spec fn parse_input(tokens: Seq<Token>) -> Seq<TokenView> {
    tokens.map_values(|t: Token| t@).push(end_token())
}

/// Where the shift-reduce loop stands: the state stack, the grammar symbols
/// on the symbol stack and their tokens (`None` for a symbol that a reduction
/// pushed), the position in the input, and the reductions made so far.
pub struct ParseState {
    pub states: Seq<usize>,
    pub names: Seq<Seq<char>>,
    pub symbols: Seq<Option<TokenView>>,
    pub index: int,
    pub results: Seq<ReduceView>,
}

/// What one step of the loop leads to.
pub enum ParseStep {
    Continue(ParseState),
    Accept(Seq<ReduceView>),
    Fail(ParseErrorView),
}

/// The tokens among popped symbol-stack entries, the topmost first.
pub open spec fn popped_tokens(s: Seq<Option<TokenView>>) -> Seq<TokenView>
    decreases s.len(),
{
    if s.len() == 0 {
        seq![]
    } else {
        let rest = popped_tokens(s.drop_first());
        match s[0] {
            Some(t) => rest.push(t),
            None => rest,
        }
    }
}

/// The state the loop starts from.
pub open spec fn start_state() -> ParseState {
    ParseState { states: seq![0usize], names: seq![], symbols: seq![], index: 0, results: seq![] }
}

/// An LR(1) parser for a grammar.
pub struct LR1Parser {
    pub grammar: Grammar,
    pub augmented_grammar: Grammar,
    pub ix: Indexed,
    pub first: Vec<Vec<bool>>,
    pub follow: Vec<Vec<bool>>,
    pub items: Vec<Vec<Item>>,
    pub action_table: Vec<Vec<Option<Action>>>,
    pub goto_table: Vec<Vec<Option<usize>>>,
}

/// The text of the augmented grammar: `S' -> S` before the grammar's own text.
pub open spec fn augmented_text(g: &Grammar) -> Seq<char> {
    g.start_symbol@ + "'"@ + " -> "@ + g.start_symbol@ + "\n"@ + g.grammar_str@
}

impl LR1Parser {
    /// The tables agree with the item sets of the augmented grammar.
    pub open spec fn inv(&self) -> bool {
        &&& parse_lines(content_lines(augmented_text(&self.grammar))) is Ok
        &&& self.augmented_grammar.built_from(parse_lines(content_lines(augmented_text(&self.grammar)))->Ok_0)
        &&& self.augmented_grammar.grammar_str@ == augmented_text(&self.grammar)
        &&& self.ix.indexes(&self.augmented_grammar)
        &&& first_sets_of(&self.ix, self.first@)
        &&& follow_sets_of(&self.ix, self.first@, self.follow@)
        &&& shaped(self.first@, self.ix.n(), self.ix.w())
        &&& shaped(self.follow@, self.ix.n(), self.ix.w())
        &&& self.ix.collection(mat(self.first@), sets_view(self.items@))
        &&& self.ix.tables_ok(mat(self.first@), sets_view(self.items@), self.action_table@, self.goto_table@)
    }

    /// The grammar the parser was built from.
    pub open spec fn source(&self) -> Grammar {
        self.grammar
    }

    /// The rules of the augmented grammar.
    pub open spec fn augmented_rules(&self) -> Seq<(Sym, Seq<Body>)> {
        self.augmented_grammar.rules()
    }

    /// The lookahead column of the grammar symbol `s`, if it has one.
    pub open spec fn column(&self, s: Seq<char>) -> Option<nat> {
        match pos(views(self.ix.names@), s) {
            Some(k) => Some(k),
            None => if s == "#"@ {
                Some(self.ix.end())
            } else {
                None
            },
        }
    }

    /// The action of state `q` on the grammar symbol `s`.
    pub open spec fn action(&self, q: int, s: Seq<char>) -> Option<Action> {
        match self.column(s) {
            Some(c) => self.action_table@[q]@[c as int],
            None => None,
        }
    }

    /// The goto of state `q` on the nonterminal `h`.
    pub open spec fn goto_on(&self, q: int, h: Seq<char>) -> Option<usize> {
        match pos(views(self.ix.names@), h) {
            Some(k) => self.goto_table@[q]@[k as int],
            None => None,
        }
    }

    /// Production `p` of the augmented grammar, as text.
    pub open spec fn production(&self, p: int) -> (Sym, Body) {
        text_view(self.ix.prod_text@)[p]
    }

    /// One step of the shift-reduce loop on `input`.
    pub open spec fn step(&self, input: Seq<TokenView>, c: ParseState) -> ParseStep {
        if c.states.len() == 0 || c.index < 0 || c.index >= input.len() {
            ParseStep::Fail(ParseErrorView::UnexpectedEnd)
        } else {
            let q = c.states.last();
            let tok = input[c.index];
            let sym = symbol_of(tok.token_type);
            match self.action(q as int, sym) {
                Some(Action::Shift(j)) => ParseStep::Continue(
                    ParseState {
                        states: c.states.push(j),
                        names: c.names.push(sym),
                        symbols: c.symbols.push(Some(tok)),
                        index: c.index + 1,
                        results: c.results,
                    },
                ),
                Some(Action::Reduce(p)) => {
                    let (head, body) = self.production(p as int);
                    let k = if body.contains(null_word()) {
                        0
                    } else {
                        body.len() as int
                    };
                    let rest = c.symbols.len() - k;
                    let rr = ReduceView {
                        head,
                        body,
                        token: popped_tokens(c.symbols.subrange(rest, c.symbols.len() as int)),
                    };
                    let states = c.states.take(c.states.len() - k);
                    let top = states.last();
                    match self.goto_on(top as int, head) {
                        Some(j) => ParseStep::Continue(
                            ParseState {
                                states: states.push(j),
                                names: c.names.take(rest).push(head),
                                symbols: c.symbols.take(rest).push(None),
                                index: c.index,
                                results: c.results.push(rr),
                            },
                        ),
                        None => ParseStep::Fail(
                            ParseErrorView::InvalidAction {
                                symbol: head,
                                state: top,
                                line: tok.line,
                                column: tok.column,
                            },
                        ),
                    }
                },
                Some(Action::Accept) => ParseStep::Accept(c.results),
                None => ParseStep::Fail(
                    ParseErrorView::InvalidAction { symbol: sym, state: q, line: tok.line, column: tok.column },
                ),
            }
        }
    }

    /// Where `n` steps from `c` lead.
    pub open spec fn run(&self, input: Seq<TokenView>, c: ParseState, n: nat) -> ParseStep
        decreases n,
    {
        if n == 0 {
            ParseStep::Continue(c)
        } else {
            match self.run(input, c, (n - 1) as nat) {
                ParseStep::Continue(c2) => self.step(input, c2),
                other => other,
            }
        }
    }
}


/// Where the augmented start symbol stands in no body, a closure of items
/// whose dots have moved holds no item of the added production with its dot
/// first.
proof fn lemma_no_start_item(g: &Indexed, f: spec_fn(int, int) -> bool, r: Set<Item>, k: Set<Item>, y: int)
    requires
        g.closure_of(f, r, k),
        forall|it: Item| #[trigger] k.contains(it) ==> it.1 >= 1,
        forall|p: int, i: int|
            0 <= p < g.nprods() && 0 <= i < g.body(p).len() ==> #[trigger] g.body(p)[i] != g.head(g.init as int),
    ensures
        !r.contains((g.init, 0usize, y as usize)),
{
    let j = Set::new(|z: Item| r.contains(z) && !(z.0 == g.init && z.1 == 0));
    assert forall|z: Item, q: int, yy: int| #[trigger] g.closure_rule(f, j, z, q, yy) by {
        if j.contains(z) {
            assert(g.closure_rule(f, r, z, q, yy));
            if z.0 < g.nprods() && z.1 < g.body(z.0 as int).len() && 0 <= q < g.n_real && g.head(q) == g.body(z.0 as int)[z.1 as int] {
                if q == g.init {
                    assert(g.body(z.0 as int)[z.1 as int] != g.head(g.init as int));
                }
            }
        }
    }
    assert(g.item_closed(f, j));
    assert(k.subset_of(j));
    assert(r.subset_of(j));
}

/// The FIRST sets `first` of `ix`: the least sets closed under their rules.
pub open spec fn first_sets_of(ix: &Indexed, first: Seq<Vec<bool>>) -> bool {
    &&& shaped(first, ix.n(), ix.w())
    &&& ix.first_closed(mat(first))
    &&& forall|f: spec_fn(int, int) -> bool| #[trigger] ix.first_closed(f) ==> crate::parser::first_sets::le(first, f)
}

/// The FOLLOW sets `follow` of `ix`, given its FIRST sets `first`: the least
/// sets closed under their rules.
pub open spec fn follow_sets_of(ix: &Indexed, first: Seq<Vec<bool>>, follow: Seq<Vec<bool>>) -> bool {
    &&& shaped(follow, ix.n(), ix.w())
    &&& ix.follow_closed(mat(first), mat(follow))
    &&& forall|fo: spec_fn(int, int) -> bool| #[trigger] ix.follow_closed(mat(first), fo) ==> crate::parser::first_sets::le(follow, fo)
}

/// The item sets of the grammar read as `rs`, numbered in some order, hold a
/// state in which two productions may be reduced on one lookahead.
pub open spec fn conflicted(rs: Seq<(Sym, Seq<Body>)>) -> bool {
    exists|g: Grammar, ix: Indexed, first: Seq<Vec<bool>>, st: Seq<Seq<Item>>, s: int, c: int|
        #![trigger g.built_from(rs), ix.indexes(&g), ix.collection(mat(first), st), ix.conflict(st[s], c)]
        g.built_from(rs) && ix.indexes(&g) && first_sets_of(&ix, first) && ix.collection(mat(first), st)
            && 0 <= s < st.len() && 0 <= c < ix.w() && ix.conflict(st[s], c)
}

/// A copy of a list of strings.
fn clone_strings(v: &Vec<String>) -> (r: Vec<String>)
    ensures
        r@ == v@,
{
    let mut r: Vec<String> = Vec::new();
    let mut i: usize = 0;
    while i < v.len()
        invariant
            i <= v.len(),
            r@ == v@.take(i as int),
        decreases v.len() - i,
    {
        r.push(v[i].clone());
        i += 1;
        assert(r@ =~= v@.take(i as int));
    }
    assert(v@.take(v.len() as int) =~= v@);
    r
}

/// The name of a lookahead column.
fn column_name(ix: &Indexed, c: usize) -> (r: String)
    ensures
        r@ == (if c < ix.n() {
            ix.names@[c as int]@
        } else {
            "#"@
        }),
{
    if c < ix.names.len() {
        ix.names[c].clone()
    } else {
        string_from("#")
    }
}

/// The view of a symbol-stack entry's token.
spec fn entry_token(e: ReduceSymbol) -> Option<TokenView> {
    match e.token {
        Some(t) => Some(t@),
        None => None,
    }
}

/// The view of the loop's exec state.
spec fn state_view(states: Seq<usize>, symbols: Seq<ReduceSymbol>, index: usize, results: Seq<ReduceResult>) -> ParseState {
    ParseState {
        states,
        names: symbols.map_values(|e: ReduceSymbol| e.symbol@),
        symbols: symbols.map_values(|e: ReduceSymbol| entry_token(e)),
        index: index as int,
        results: results.map_values(|x: ReduceResult| x@),
    }
}

impl LR1Parser {
    /// The tables are those of the canonical collection, with no conflict.
    pub open spec fn conflict_free(&self) -> bool {
        forall|s: int, c: int|
            0 <= s < self.items@.len() && 0 <= c < self.ix.w() ==> !#[trigger] self.ix.conflict(self.items@[s]@, c)
    }

    /// The state stack `ss` with the symbols `gs` between its states: it
    /// starts at state 0, and each state is the goto of the one below on the
    /// symbol between them.
    pub open spec fn stack_ok(&self, ss: Seq<usize>, gs: Seq<int>) -> bool {
        let f = mat(self.first@);
        let st = sets_view(self.items@);
        &&& ss.len() >= 1
        &&& ss[0] == 0
        &&& gs.len() + 1 == ss.len()
        &&& forall|i: int| 0 <= i < ss.len() ==> #[trigger] ss[i] < self.items@.len()
        &&& forall|i: int|
            1 <= i < ss.len() ==> #[trigger] self.ix.is_goto(f, st[ss[i - 1] as int].to_set(), gs[i - 1], st[ss[i] as int].to_set())
    }

    /// An item in the state at depth `k` of the stack has its dot at most `k`
    /// in, and the symbols below that state are those before its dot.
    proof fn lemma_depth(&self, ss: Seq<usize>, gs: Seq<int>, k: int, it: Item)
        requires
            self.inv(),
            self.stack_ok(ss, gs),
            0 <= k < ss.len(),
            sets_view(self.items@)[ss[k] as int].to_set().contains(it),
        ensures
            it.1 <= k,
            forall|j: int| 0 <= j < it.1 ==> gs[k - it.1 + j] == #[trigger] self.ix.body(it.0 as int)[j],
        decreases it.1,
    {
        let f = mat(self.first@);
        let st = sets_view(self.items@);
        if it.1 >= 1 {
            if k == 0 {
                lemma_closure_kernel(&self.ix, f, st[0].to_set(), set![self.ix.start_item()], it);
            } else {
                assert(self.ix.is_goto(f, st[ss[k - 1] as int].to_set(), gs[k - 1], st[ss[k] as int].to_set()));
                lemma_closure_kernel(&self.ix, f, st[ss[k] as int].to_set(), self.ix.kernel(st[ss[k - 1] as int].to_set(), gs[k - 1]), it);
                let src = (it.0, (it.1 - 1) as usize, it.2);
                self.lemma_depth(ss, gs, k - 1, src);
            }
        }
    }

    /// The symbol stack of `c` names the symbols `gs` of a valid state stack.
    pub(crate) closed spec fn stack_names(&self, c: ParseState, gs: Seq<int>) -> bool {
        &&& self.stack_ok(c.states, gs)
        &&& c.names.len() == gs.len()
        &&& c.symbols.len() == gs.len()
        &&& forall|i: int|
            0 <= i < gs.len() ==> 0 <= #[trigger] gs[i] < self.ix.n() && c.names[i] == views(self.ix.names@)[gs[i]]
        &&& forall|i: int| 0 <= i < gs.len() && (#[trigger] c.symbols[i]) is Some ==> self.ix.is_t(gs[i])
    }

    /// The column of a symbol that can be shifted is that symbol's number.
    proof fn lemma_shift_column(&self, q: int, sym: Seq<char>, j: usize) -> (cc: int)
        requires
            self.inv(),
            0 <= q < self.items@.len(),
            self.action(q, sym) == Some(Action::Shift(j)),
        ensures
            0 <= cc < self.ix.n(),
            self.ix.is_t(cc),
            views(self.ix.names@)[cc] == sym,
            j < self.items@.len(),
            self.ix.is_goto(mat(self.first@), sets_view(self.items@)[q].to_set(), cc, sets_view(self.items@)[j as int].to_set()),
    {
        let nv = views(self.ix.names@);
        lemma_pos(nv, sym);
        lemma_pos(nv, "#"@);
        let cc = self.column(sym)->Some_0 as int;
        assert(cc < self.ix.w());
        assert(self.ix.action_ok(mat(self.first@), sets_view(self.items@), q, cc, self.action_table@[q]@[cc]));
        cc
    }

    /// One step keeps the stack valid.
    proof fn lemma_step_stack(&self, input: Seq<TokenView>, c: ParseState, gs: Seq<int>) -> (gs2: Seq<int>)
        requires
            self.inv(),
            self.stack_names(c, gs),
        ensures
            self.step(input, c) matches ParseStep::Continue(c2) ==> self.stack_names(c2, gs2),
    {
        let f = mat(self.first@);
        let st = sets_view(self.items@);
        let nv = views(self.ix.names@);
        if c.states.len() == 0 || c.index < 0 || c.index >= input.len() {
            gs
        } else {
            let l = gs.len() as int;
            let q = c.states.last();
            assert(q == c.states[l]);
            let tok = input[c.index];
            let sym = symbol_of(tok.token_type);
            match self.action(q as int, sym) {
                Some(Action::Shift(j)) => {
                    let cc = self.lemma_shift_column(q as int, sym, j);
                    let gs2 = gs.push(cc);
                    if let ParseStep::Continue(c2) = self.step(input, c) {
                        let ss = c2.states;
                        assert(ss == c.states.push(j));
                        assert forall|i: int| 0 <= i < ss.len() implies #[trigger] ss[i] < self.items@.len() by {
                            if i < c.states.len() {
                                assert(ss[i] == c.states[i]);
                            }
                        }
                        assert forall|i: int| 1 <= i < ss.len() implies #[trigger] self.ix.is_goto(f, st[ss[i - 1] as int].to_set(), gs2[i - 1], st[ss[i] as int].to_set()) by {
                            if i < c.states.len() {
                                assert(ss[i] == c.states[i] && ss[i - 1] == c.states[i - 1] && gs2[i - 1] == gs[i - 1]);
                            }
                        }
                        assert forall|i: int| 0 <= i < gs2.len() implies 0 <= #[trigger] gs2[i] < self.ix.n() && c2.names[i] == nv[gs2[i]] by {
                            if i < l {
                                assert(gs2[i] == gs[i] && c2.names[i] == c.names[i]);
                            }
                        }
                    }
                    gs2
                },
                Some(Action::Reduce(p)) => {
                    let cc = self.column(sym)->Some_0 as int;
                    lemma_pos(nv, sym);
                    lemma_pos(nv, "#"@);
                    assert(cc < self.ix.w());
                    assert(self.ix.action_ok(f, st, q as int, cc, self.action_table@[q as int]@[cc]));
                    let it: Item = (p, self.ix.body(p as int).len() as usize, cc as usize);
                    assert(st[q as int].to_set().contains(it));
                    self.lemma_depth(c.states, gs, l, it);
                    let (head, body) = self.production(p as int);
                    assert(body.len() == self.ix.body(p as int).len());
                    let k = if body.contains(null_word()) {
                        0
                    } else {
                        body.len() as int
                    };
                    let top = c.states[l - k];
                    assert(c.states.take(c.states.len() - k).last() == top);
                    lemma_pos(nv, head);
                    match pos(nv, head) {
                        Some(x) => {
                            assert(self.ix.goto_ok(f, st, top as int, x as int, self.goto_table@[top as int]@[x as int]));
                            let gs2 = gs.take(l - k).push(x as int);
                            if let ParseStep::Continue(c2) = self.step(input, c) {
                                let ss = c2.states;
                                let j = self.goto_table@[top as int]@[x as int]->Some_0;
                                assert(ss == c.states.take(l + 1 - k).push(j));
                                assert forall|i: int| 0 <= i < ss.len() implies #[trigger] ss[i] < self.items@.len() by {
                                    if i < l + 1 - k {
                                        assert(ss[i] == c.states[i]);
                                    }
                                }
                                assert forall|i: int| 1 <= i < ss.len() implies #[trigger] self.ix.is_goto(f, st[ss[i - 1] as int].to_set(), gs2[i - 1], st[ss[i] as int].to_set()) by {
                                    if i < l + 1 - k {
                                        assert(ss[i] == c.states[i] && ss[i - 1] == c.states[i - 1] && gs2[i - 1] == gs[i - 1]);
                                    }
                                }
                                assert forall|i: int| 0 <= i < gs2.len() implies 0 <= #[trigger] gs2[i] < self.ix.n() && c2.names[i] == nv[gs2[i]] by {
                                    if i < l - k {
                                        assert(gs2[i] == gs[i] && c2.names[i] == c.names[i]);
                                    }
                                }
                            }
                            gs2
                        },
                        None => gs,
                    }
                },
                _ => gs,
            }
        }
    }

    /// Every state that the loop reaches from the start has a valid stack.
    pub(crate) proof fn lemma_run_stack(&self, input: Seq<TokenView>, n: nat) -> (gs: Seq<int>)
        requires
            self.inv(),
        ensures
            self.run(input, start_state(), n) matches ParseStep::Continue(c) ==> self.stack_names(c, gs),
        decreases n,
    {
        if n == 0 {
            let gs: Seq<int> = seq![];
            assert(self.stack_names(start_state(), gs));
            gs
        } else {
            let gs0 = self.lemma_run_stack(input, (n - 1) as nat);
            match self.run(input, start_state(), (n - 1) as nat) {
                ParseStep::Continue(c0) => self.lemma_step_stack(input, c0, gs0),
                _ => gs0,
            }
        }
    }

    /// The augmented start symbol stands in no body and heads only the added
    /// production, and the grammar's start symbol is no terminal.
    pub open spec fn start_fresh(&self) -> bool {
        &&& forall|p: int, k: int|
            0 <= p < self.ix.nprods() && 0 <= k < self.ix.body(p).len() ==> #[trigger] self.ix.body(p)[k] != self.ix.head(
                self.ix.init as int,
            )
        &&& forall|p: int| 0 <= p < self.ix.nprods() && #[trigger] self.ix.head(p) == self.ix.head(self.ix.init as int) ==> p == self.ix.init
        &&& !self.ix.is_t(self.ix.body(self.ix.init as int)[0] as int)
    }

    /// Where the loop accepts, the symbol stack holds the start symbol alone,
    /// pushed by a reduction, and the lookahead is the end marker.
    pub proof fn lemma_accept_stack(&self, input: Seq<TokenView>, n: nat, c: ParseState)
        requires
            self.inv(),
            self.start_fresh(),
            self.run(input, start_state(), n) == ParseStep::Continue(c),
            self.step(input, c) is Accept,
        ensures
            0 <= c.index < input.len(),
            symbol_of(input[c.index].token_type) == "#"@,
            c.symbols.len() == 1,
            c.symbols[0] is None,
    {
        let gs = self.lemma_run_stack(input, n);
        let f = mat(self.first@);
        let st = sets_view(self.items@);
        let nv = views(self.ix.names@);
        let l = gs.len() as int;
        let q = c.states.last();
        assert(q == c.states[l]);
        let sym = symbol_of(input[c.index].token_type);
        let cc = self.column(sym)->Some_0 as int;
        lemma_pos(nv, sym);
        lemma_pos(nv, "#"@);
        assert(cc < self.ix.w());
        assert(self.ix.action_ok(f, st, q as int, cc, self.action_table@[q as int]@[cc]));
        assert(cc == self.ix.end());
        assert(sym == "#"@) by {
            if pos(nv, sym) is Some {
                if pos(nv, "#"@) is Some {
                    assert(nv[cc] == sym);
                } else {
                    assert(cc < self.ix.n());
                }
            }
        }
        let j = choose|j: int|
            0 <= j < st[q as int].len() && #[trigger] st[q as int][j].0 < self.ix.nprods() && st[q as int][j].1
                == self.ix.body(st[q as int][j].0 as int).len() && self.ix.head(st[q as int][j].0 as int) == self.ix.head(
                self.ix.init as int,
            );
        let it = st[q as int][j];
        let init = self.ix.init;
        assert(it.0 == init);
        assert(text_view(self.ix.prod_text@)[init as int].1.len() == 1);
        assert(self.ix.body(init as int).len() == 1);
        assert(st[q as int].to_set().contains(it));
        self.lemma_depth(c.states, gs, l, it);
        assert(l >= 1);
        if l >= 2 {
            assert(self.ix.is_goto(f, st[c.states[l - 1] as int].to_set(), gs[l - 1], st[c.states[l] as int].to_set()));
            lemma_closure_kernel(&self.ix, f, st[c.states[l] as int].to_set(), self.ix.kernel(st[c.states[l - 1] as int].to_set(), gs[l - 1]), it);
            let src: Item = (init, 0usize, it.2);
            assert(st[c.states[l - 1] as int].to_set().contains(src));
            let i = l - 1;
            assert(self.ix.is_goto(f, st[c.states[i - 1] as int].to_set(), gs[i - 1], st[c.states[i] as int].to_set()));
            lemma_no_start_item(&self.ix, f, st[c.states[i] as int].to_set(), self.ix.kernel(st[c.states[i - 1] as int].to_set(), gs[i - 1]), it.2 as int);
        }
        assert(gs[0] == self.ix.body(init as int)[0]);
    }

    /// A reduction made by the loop finds the symbols of its production's
    /// body on top of the symbol stack, in order, and leaves the production's
    /// head in their place; a `NULL` body pops nothing.
    pub proof fn lemma_reduce_finds_body(&self, input: Seq<TokenView>, n: nat, c: ParseState, c2: ParseState)
        requires
            self.inv(),
            self.run(input, start_state(), n) == ParseStep::Continue(c),
            self.step(input, c) == ParseStep::Continue(c2),
            c2.results.len() == c.results.len() + 1,
        ensures
            ({
                let r = c2.results.last();
                let k = if r.body.contains(null_word()) {
                    0
                } else {
                    r.body.len() as int
                };
                &&& k <= c.names.len()
                &&& !r.body.contains(null_word()) ==> c.names.subrange(c.names.len() - k, c.names.len() as int) == r.body
                &&& c2.names == c.names.take(c.names.len() - k).push(r.head)
                &&& c.symbols.len() == c.names.len()
                &&& c2.symbols == c.symbols.take(c.names.len() - k).push(None)
                &&& r.token == popped_tokens(c.symbols.subrange(c.names.len() - k, c.names.len() as int))
                &&& c2.results == c.results.push(r)
                &&& c2.index == c.index
            }),
    {
        let gs = self.lemma_run_stack(input, n);
        let f = mat(self.first@);
        let st = sets_view(self.items@);
        let nv = views(self.ix.names@);
        let l = gs.len() as int;
        let q = c.states.last();
        assert(q == c.states[l]);
        let sym = symbol_of(input[c.index].token_type);
        let p = self.action(q as int, sym)->Some_0->Reduce_0;
        let cc = self.column(sym)->Some_0 as int;
        lemma_pos(nv, sym);
        lemma_pos(nv, "#"@);
        assert(cc < self.ix.w());
        assert(self.ix.action_ok(f, st, q as int, cc, self.action_table@[q as int]@[cc]));
        let it: Item = (p, self.ix.body(p as int).len() as usize, cc as usize);
        assert(st[q as int].to_set().contains(it));
        self.lemma_depth(c.states, gs, l, it);
        let (head, body) = self.production(p as int);
        assert(body.len() == self.ix.body(p as int).len());
        if !body.contains(null_word()) {
            let b = body.len() as int;
            assert forall|j: int| 0 <= j < b implies c.names.subrange(l - b, l)[j] == body[j] by {
                assert(gs[l - b + j] == self.ix.body(p as int)[j]);
                assert(body[j] != null_word());
                lemma_pos(nv, body[j]);
                assert(self.ix.body(p as int)[j] == number_of(nv, body[j]));
            }
            assert(c.names.subrange(l - b, l) =~= body);
        }
    }

    /// Builds the parser of `grammar`: the grammar augmented with `S' -> S`
    /// where `S` is its start symbol, its FIRST and FOLLOW sets, its LR(1)
    /// item sets and the tables read from them.
    pub fn new(grammar: Grammar) -> (r: Result<Self, ParseError>)
        ensures
            match parse_lines(content_lines(augmented_text(&grammar))) {
                Err(e) => r matches Err(x) && x@ == ParseErrorView::GrammarError(e),
                Ok(rs) => if rs.len() == 0 {
                    r matches Err(x) && x@ == ParseErrorView::GrammarError(GrammarErrorView::UndefinedStartSymbol)
                } else {
                    match r {
                        Ok(p) => p.inv() && p.conflict_free() && p.source() == grammar && p.augmented_rules() == group(rs),
                        Err(x) => match x@ {
                            ParseErrorView::Conflict { line, column, .. } => line == 0 && column == 0 && conflicted(rs),
                            ParseErrorView::UnexpectedEnd => exists|g: Grammar| #[trigger] g.built_from(rs) && g.symbols.len() + 4 > usize::MAX,
                            _ => false,
                        },
                    }
                },
            },
    {
        let t1 = concat_str(&grammar.start_symbol, "'");
        let t2 = concat_str(&t1, " -> ");
        let t3 = concat_str(&t2, grammar.start_symbol.as_str());
        let t4 = concat_str(&t3, "\n");
        let text = concat_str(&t4, grammar.grammar_str.as_str());
        proof {
            reveal_strlit("'");
            reveal_strlit(" -> ");
            reveal_strlit("\n");
            assert(text@ == augmented_text(&grammar));
        }
        let aug = match Grammar::new(text.as_str()) {
            Err(e) => {
                return Err(ParseError::from(e));
            },
            Ok(g) => g,
        };
        let ghost rs = parse_lines(content_lines(augmented_text(&grammar)))->Ok_0;
        assert(aug.built_from(rs));
        if aug.symbols.len() > usize::MAX - 4 {
            return Err(ParseError::UnexpectedEnd);
        }
        proof {
            lemma_heads_are_symbols(&aug, rs);
        }
        let ix = index_grammar(&aug);
        let (first, follow) = compute_first_and_follow(&ix);
        let items = build_items(&ix, &first);
        match build_parse_table(&ix, &first, &items) {
            Err((s, c)) => {
                let symbol = column_name(&ix, c);
                proof {
                    let st = sets_view(items@);
                    assert(st[s as int] == items@[s as int]@);
                    assert(first_sets_of(&ix, first@));
                    assert(conflicted(rs));
                }
                Err(ParseError::Conflict { symbol, state: s, line: 0, column: 0 })
            },
            Ok((action_table, goto_table)) => {
                assert(first_sets_of(&ix, first@));
                assert(follow_sets_of(&ix, first@, follow@));
                let p = LR1Parser { grammar, augmented_grammar: aug, ix, first, follow, items, action_table, goto_table };
                Ok(p)
            },
        }
    }

    /// Runs the shift-reduce loop on `tokens` followed by the end marker `#`:
    /// the result is where the steps of `step` from `start_state()` lead,
    /// the reductions made if the input is accepted.
    #[verifier::spinoff_prover]
    #[verifier::rlimit(40)]
    pub fn run_parse(&self, tokens: &[Token]) -> (r: Result<Vec<ReduceResult>, ParseError>)
        requires
            self.inv(),
        ensures
            exists|n: nat|
                #[trigger] self.run(parse_input(tokens@), start_state(), n) == match r {
                    Ok(v) => ParseStep::Accept(v@.map_values(|x: ReduceResult| x@)),
                    Err(e) => ParseStep::Fail(e@),
                },
            r matches Ok(v) ==> forall|i: int|
                0 <= i < v.len() ==> dedup(flat_prods(self.augmented_rules())).contains(
                    ((#[trigger] v@[i])@.head, v@[i]@.body),
                ),
    {
        let mut input: Vec<Token> = Vec::new();
        let mut i: usize = 0;
        while i < tokens.len()
            invariant
                i <= tokens.len(),
                input@.len() == i,
                forall|j: int| 0 <= j < i ==> (#[trigger] input@[j])@ == tokens@[j]@,
            decreases tokens.len() - i,
        {
            input.push(tokens[i].duplicate());
            i += 1;
        }
        assert(input@.map_values(|t: Token| t@) =~= tokens@.take(i as int).map_values(|t: Token| t@));
        let end = Token { token_type: string_from("#"), value: string_from("#"), line: 0, column: 0, start: 0, end: 0 };
        let ghost before = input@;
        input.push(end);
        let ghost inp = parse_input(tokens@);
        proof {
            reveal_strlit("#");
            assert(tokens@.take(tokens@.len() as int) =~= tokens@);
            assert(input@.map_values(|t: Token| t@) =~= before.map_values(|t: Token| t@).push(end@));
        }
        let hash = string_from("#");
        let null = string_from("NULL");
        proof {
            reveal_strlit("NULL");
        }
        let mut states: Vec<usize> = Vec::new();
        states.push(0);
        let mut symbols: Vec<ReduceSymbol> = Vec::new();
        let mut index: usize = 0;
        let mut results: Vec<ReduceResult> = Vec::new();
        let ghost mut n: nat = 0;
        let ghost mut gs: Seq<int> = seq![];
        proof {
            assert(states@ =~= seq![0usize]);
            assert(symbols@.map_values(|e: ReduceSymbol| entry_token(e)) =~= Seq::<Option<TokenView>>::empty());
            assert(symbols@.map_values(|e: ReduceSymbol| e.symbol@) =~= Seq::<Seq<char>>::empty());
            assert(results@.map_values(|x: ReduceResult| x@) =~= Seq::<ReduceView>::empty());
            assert(state_view(states@, symbols@, index, results@) == start_state());
            assert(self.ix.collection(mat(self.first@), sets_view(self.items@)));
        }
        loop
            invariant
                self.inv(),
                inp == parse_input(tokens@),
                input@.map_values(|t: Token| t@) == inp,
                hash@ == "#"@,
                null@ == null_word(),
                self.run(inp, start_state(), n) == ParseStep::Continue(state_view(states@, symbols@, index, results@)),
                self.stack_ok(states@, gs),
                symbols.len() + 1 == states.len(),
                index <= input.len(),
                forall|k: int|
                    0 <= k < results.len() ==> dedup(flat_prods(self.augmented_rules())).contains(
                        ((#[trigger] results@[k])@.head, results@[k]@.body),
                    ),
            decreases (input.len() - index) + (usize::MAX - results.len()),
        {
            let ghost c0 = state_view(states@, symbols@, index, results@);
            let ghost f = mat(self.first@);
            let ghost st = sets_view(self.items@);
            assert(self.run(inp, start_state(), n + 1) == self.step(inp, c0));
            let q = states[states.len() - 1];
            assert(q == states@[states@.len() - 1]);
            if index >= input.len() {
                proof {
                    n = n + 1;
                }
                return Err(ParseError::UnexpectedEnd);
            }
            let tok = &input[index];
            assert(inp[index as int] == tok@);
            let sym = token_symbol(&tok.token_type);
            let col: Option<usize> = match find_name(&self.ix.names, &sym) {
                Some(k) => Some(k),
                None => if sym == hash {
                    Some(self.ix.end_ix)
                } else {
                    None
                },
            };
            assert(col == match self.column(sym@) { Some(c) => Some(c as usize), None => None::<usize> });
            let act = match col {
                Some(c) => self.action_table[q][c],
                None => None,
            };
            assert(act == self.action(q as int, sym@));
            match act {
                Some(Action::Shift(j)) => {
                    let c = col.unwrap();
                    assert(self.ix.action_ok(f, st, q as int, c as int, self.action_table@[q as int]@[c as int]));
                    let ghost ss0 = states@;
                    states.push(j);
                    symbols.push(ReduceSymbol { symbol: sym.clone(), token: Some(tok.duplicate()) });
                    index += 1;
                    proof {
                        let ss = states@;
                        let gs2 = gs.push(c as int);
                        assert forall|k: int| 0 <= k < ss.len() implies #[trigger] ss[k] < self.items@.len() by {
                            if k < ss0.len() {
                                assert(ss[k] == ss0[k]);
                            }
                        }
                        assert forall|k: int| 1 <= k < ss.len() implies #[trigger] self.ix.is_goto(f, st[ss[k - 1] as int].to_set(), gs2[k - 1], st[ss[k] as int].to_set()) by {
                            if k < ss0.len() {
                                assert(ss[k] == ss0[k] && ss[k - 1] == ss0[k - 1] && gs2[k - 1] == gs[k - 1]);
                            }
                        }
                        gs = gs2;
                        n = n + 1;
                        assert(state_view(states@, symbols@, index, results@).symbols =~= c0.symbols.push(Some(tok@)));
                        assert(state_view(states@, symbols@, index, results@).names =~= c0.names.push(sym@));
                    }
                },
                Some(Action::Reduce(p)) => {
                    let c = col.unwrap();
                    assert(self.ix.action_ok(f, st, q as int, c as int, self.action_table@[q as int]@[c as int]));
                    let ghost it = (p, self.ix.body(p as int).len() as usize, c);
                    proof {
                        assert(st[q as int] == self.items@[q as int]@);
                        assert(st[q as int].to_set().contains(it));
                        self.lemma_depth(states@, gs, states@.len() - 1, it);
                    }
                    let head = &self.ix.prod_text[p].0;
                    let body = &self.ix.prod_text[p].1;
                    assert(self.production(p as int) == (head@, views(body@)));
                    assert(self.ix.body(p as int).len() == body@.len());
                    let has_null = contains_string(body, &null);
                    let k: usize = if has_null {
                        0
                    } else {
                        body.len()
                    };
                    let ghost sym0 = symbols@;
                    let ghost ss0 = states@;
                    let ghost sv0 = c0.symbols;
                    let ghost len = sym0.len();
                    let mut toks: Vec<Token> = Vec::new();
                    let mut m: usize = 0;
                    assert(sv0.subrange(len as int, len as int) =~= Seq::<Option<TokenView>>::empty());
                    while m < k
                        invariant
                            k <= len,
                            len == sym0.len(),
                            sv0 == sym0.map_values(|e: ReduceSymbol| entry_token(e)),
                            ss0.len() == len + 1,
                            m <= k,
                            symbols@ == sym0.take(len - m),
                            states@ == ss0.take(ss0.len() - m),
                            toks@.map_values(|t: Token| t@) == popped_tokens(sv0.subrange(len - m, len as int)),
                        decreases k - m,
                    {
                        states.pop();
                        let e = symbols.pop();
                        let ghost before = toks@;
                        match e {
                            Some(e) => {
                                assert(e == sym0[len - m - 1]);
                                match e.token {
                                    Some(t) => {
                                        toks.push(t);
                                    },
                                    None => {},
                                }
                            },
                            None => {},
                        }
                        proof {
                            let x = sv0.subrange(len - m - 1, len as int);
                            assert(x.drop_first() =~= sv0.subrange(len - m, len as int));
                            assert(x[0] == sv0[len - m - 1]);
                            assert(toks@.map_values(|t: Token| t@) =~= popped_tokens(x));
                            assert(symbols@ =~= sym0.take(len - m - 1));
                            assert(states@ =~= ss0.take(ss0.len() - m - 1));
                        }
                        m += 1;
                    }
                    let rr = ReduceResult { head: head.clone(), body: clone_strings(body), token: toks };
                    let ghost r0 = results@;
                    results.push(rr);
                    let top = states[states.len() - 1];
                    let ghost rest = (len - k) as int;
                    proof {
                        assert(states@ == ss0.take(ss0.len() - k));
                        assert(top == states@[states@.len() - 1]);
                        assert(top < self.items@.len());
                        assert(self.ix.is_reduce(it, c as int));
                        assert(p != self.ix.init);
                        assert(p < self.ix.n_real);
                        assert(text_view(self.ix.prod_text@).take(self.ix.n_real as int)[p as int] == self.production(p as int));
                        assert forall|kk: int|
                            0 <= kk < results.len() implies dedup(flat_prods(self.augmented_rules())).contains(
                                ((#[trigger] results@[kk])@.head, results@[kk]@.body)) by {
                            if kk < r0.len() {
                                assert(results@[kk] == r0[kk]);
                            }
                        }
                    }
                    let x = match find_name(&self.ix.names, head) {
                        Some(x) => x,
                        None => {
                            proof {
                                n = n + 1;
                            }
                            return Err(ParseError::InvalidAction { symbol: head.clone(), state: top, line: tok.line, column: tok.column });
                        },
                    };
                    let e = self.goto_table[top][x];
                    assert(self.ix.goto_ok(f, st, top as int, x as int, self.goto_table@[top as int]@[x as int]));
                    match e {
                        Some(j) => {
                            let ghost ss1 = states@;
                            states.push(j);
                            symbols.push(ReduceSymbol { symbol: head.clone(), token: None });
                            proof {
                                let ss = states@;
                                let gs2 = gs.take(ss1.len() - 1).push(x as int);
                                assert forall|kk: int| 0 <= kk < ss.len() implies #[trigger] ss[kk] < self.items@.len() by {
                                    if kk < ss1.len() {
                                        assert(ss[kk] == ss0[kk]);
                                    }
                                }
                                assert forall|kk: int| 1 <= kk < ss.len() implies #[trigger] self.ix.is_goto(f, st[ss[kk - 1] as int].to_set(), gs2[kk - 1], st[ss[kk] as int].to_set()) by {
                                    if kk < ss1.len() {
                                        assert(ss[kk] == ss0[kk] && ss[kk - 1] == ss0[kk - 1] && gs2[kk - 1] == gs[kk - 1]);
                                    }
                                }
                                gs = gs2;
                                n = n + 1;
                                assert(state_view(states@, symbols@, index, results@).symbols =~= c0.symbols.take(rest).push(None));
                                assert(state_view(states@, symbols@, index, results@).names =~= c0.names.take(rest).push(head@));
                                assert(state_view(states@, symbols@, index, results@).results =~= c0.results.push(rr@));
                            }
                        },
                        None => {
                            proof {
                                n = n + 1;
                            }
                            return Err(ParseError::InvalidAction { symbol: head.clone(), state: top, line: tok.line, column: tok.column });
                        },
                    }
                },
                Some(Action::Accept) => {
                    proof {
                        n = n + 1;
                    }
                    return Ok(results);
                },
                None => {
                    proof {
                        n = n + 1;
                    }
                    return Err(ParseError::InvalidAction { symbol: sym, state: q, line: tok.line, column: tok.column });
                },
            }
        }
    }
}
} // verus!

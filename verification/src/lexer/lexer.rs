//! The lexer: one regular expression with a named group per token rule,
//! matched again and again against the rest of the code.
use vstd::prelude::*;
use crate::lexer::token::{Token, TokenView};
use crate::text::{
    chars_of, concat_str, join, join_strings, lemma_utf8_len_bound, lemma_utf8_len_concat, string_from, string_of_range,
    utf8_len, utf8_len_of, utf8_len_range, views,
};

verus! {

#[verifier::external_type_specification]
#[verifier::external_body]
pub struct ExRegex(regex::Regex);

/// A compiled regular expression, with the pattern it was compiled from.
pub struct TokenRegex {
    pattern: String,
    re: regex::Regex,
}

impl View for TokenRegex {
    type V = Seq<char>;

    closed spec fn view(&self) -> Seq<char> {
        self.pattern@
    }
}

/// `regex::Regex::new` accepts the pattern.
pub uninterp spec fn regex_compiles(pattern: Seq<char>) -> bool;

/// What `regex::Regex::captures` finds in `hay`: `None` without a match,
/// else the text of each group of the leftmost match, `None` for a group
/// that did not take part.
pub uninterp spec fn regex_captures(pattern: Seq<char>, hay: Seq<char>) -> Option<Seq<Option<Seq<char>>>>;

/// The names of the groups of the pattern, by `regex::Regex::capture_names`.
pub uninterp spec fn regex_group_names(pattern: Seq<char>) -> Seq<Option<Seq<char>>>;

/// The views of optional strings.
pub open spec fn opt_views(v: Seq<Option<String>>) -> Seq<Option<Seq<char>>> {
    v.map_values(|o: Option<String>| match o {
        Some(s) => Some(s@),
        None => None,
    })
}

/// Compiles `pattern` with `regex::Regex::new`. Whether it compiles depends
/// on the pattern alone.
#[verifier::external_body]
fn compile_regex(pattern: &String) -> (r: Option<TokenRegex>)
    ensures
        r is Some <==> regex_compiles(pattern@),
        r matches Some(t) ==> t@ == pattern@,
{
    match regex::Regex::new(pattern.as_str()) {
        Ok(re) => Some(TokenRegex { pattern: pattern.clone(), re }),
        Err(_) => None,
    }
}

/// The groups of the leftmost match of the regex in `hay`, by
/// `regex::Regex::captures` and `Captures::iter`: the text of each group, as
/// `Match::as_str` gives it, a part of `hay`. What the groups hold beyond
/// their length is not stated; it is named `regex_captures`.
#[verifier::external_body]
fn capture_texts(re: &TokenRegex, hay: &str) -> (r: Option<Vec<Option<String>>>)
    ensures
        match r {
            None => regex_captures(re@, hay@) is None,
            Some(v) => regex_captures(re@, hay@) == Some(opt_views(v@)) && forall|i: int|
                0 <= i < v@.len() && (#[trigger] v@[i]) is Some ==> v@[i]->Some_0@.len() <= hay@.len(),
        },
{
    re.re.captures(hay).map(|caps| caps.iter().map(|m| m.map(|m| m.as_str().to_string())).collect())
}

/// The group names of the regex, by `regex::Regex::capture_names`.
#[verifier::external_body]
fn capture_names(re: &TokenRegex) -> (r: Vec<Option<String>>)
    ensures
        opt_views(r@) == regex_group_names(re@),
{
    re.re.capture_names().map(|n| n.map(|s| s.to_string())).collect()
}

/// The token rules: each token type with the pattern of its text, tried in
/// this order.
pub open spec fn rules() -> Seq<(&'static str, &'static str)> {
    seq![
        ("PRAGMA", "\\bpragma\\b"), ("CIRCOM", "\\bcircom\\b"), ("TEMPLATE", "\\btemplate\\b"),
        ("COMPONENT", "\\bcomponent\\b"), ("INPUT", "\\binput\\b"), ("OUTPUT", "\\boutput\\b"),
        ("SIGNAL", "\\bsignal\\b"), ("PUBLIC", "\\bpublic\\b"), ("VAR", "\\bvar\\b"),
        ("FUNCTION", "\\bfunction\\b"), ("RETURN", "\\breturn\\b"), ("IF", "\\bif\\b"), ("ELSE", "\\belse\\b"),
        ("FOR", "\\bfor\\b"), ("WHILE", "\\bwhile\\b"), ("DO", "\\bdo\\b"), ("LOG", "\\blog\\b"),
        ("ASSERT", "\\bassert\\b"), ("INCLUDE", "\\binclude\\b"), ("PARALLEL", "\\bparallel\\b"),
        ("BUS", "\\bbus\\b"), ("CUSTOM_TEMPLATES", "\\bcustom_templates\\b"), ("MAIN", "\\bmain\\b"),
        ("INCREMENT", "\\+\\+"), ("DECREMENT", "--"), ("PLUS_ASSIGN", "\\+="), ("MINUS_ASSIGN", "-="),
        ("MULTIPLY_ASSIGN", "\\*="), ("DIVIDE_ASSIGN", "/="), ("MODULUS_ASSIGN", "%="),
        ("QUOTIENT_ASSIGN", "\\\\="), ("BITWISE_AND_ASSIGN", "&="), ("BITWISE_OR_ASSIGN", "\\|="),
        ("BITWISE_XOR_ASSIGN", "\\^="), ("BITWISE_NOT_ASSIGN", "~="), ("LEFT_SHIFT_ASSIGN", "<<="),
        ("RIGHT_SHIFT_ASSIGN", ">>="),
        ("PLUS", "\\+"), ("MINUS", "-"), ("MULTIPLY", "\\*"), ("DIVIDE", "/"), ("MODULUS", "%"),
        ("QUOTIENT", "\\\\"), ("LOGICAL_AND", "&&"), ("LOGICAL_OR", "\\|\\|"), ("BITWISE_AND", "&"),
        ("BITWISE_OR", "\\|"), ("BITWISE_XOR", "\\^"), ("BITWISE_NOT", "~"), ("LEFT_SHIFT", "<<"),
        ("RIGHT_SHIFT", ">>"),
        ("CIRCOM_L_ASSIGN", "<--"), ("CIRCOM_R_ASSIGN", "-->"), ("CIRCOM_L_CONSTRAINT_ASSIGN", "<=="),
        ("CIRCOM_R_CONSTRAINT_ASSIGN", "==>"), ("CIRCOM_CONSTRAINT", "==="),
        ("EQUAL", "=="), ("NOT_EQUAL", "!="), ("LESS_THAN_OR_EQUAL", "<="), ("GREATER_THAN_OR_EQUAL", ">="),
        ("LESS_THAN", "<"), ("GREATER_THAN", ">"), ("ASSIGN", "="), ("LOGICAL_NOT", "!"),
        ("LPAREN", "\\("), ("RPAREN", "\\)"), ("LBRACE", "\\{"), ("RBRACE", "\\}"), ("LBRACKET", "\\["),
        ("RBRACKET", "\\]"), ("SEMICOLON", ";"), ("COMMA", ","), ("COLON", ":"), ("DOT", "\\."),
        ("QUESTION_MARK", "\\?"),
        ("VERSION", "\\b\\d+(\\.\\d+)+\\b"),
        ("ID", "\\b_[a-zA-Z][a-zA-Z0-9_$]*\\b|\\b[a-zA-Z][a-zA-Z0-9_$]*\\b"), ("NUM", "\\b\\d+\\b"),
        ("NEWLINE", "\\n"), ("SKIP", "[ \\t]+")
    ]
}

/// A character that a regular expression reads as more than itself.
pub open spec fn is_meta(c: char) -> bool {
    c == '\\' || c == '.' || c == '+' || c == '*' || c == '?' || c == '(' || c == ')' || c == '|' || c == '['
        || c == ']' || c == '{' || c == '}' || c == '^' || c == '$'
}

/// The one text that the pattern `p` matches, where `p` is plain text with
/// its metacharacters escaped by a backslash; `None` for any other pattern.
pub open spec fn literal_of(p: Seq<char>) -> Option<Seq<char>>
    decreases p.len(),
{
    if p.len() == 0 {
        Some(seq![])
    } else if p[0] == '\\' {
        if p.len() >= 2 && is_meta(p[1]) {
            match literal_of(p.skip(2)) {
                Some(r) => Some(seq![p[1]] + r),
                None => None,
            }
        } else {
            None
        }
    } else if is_meta(p[0]) {
        None
    } else {
        match literal_of(p.skip(1)) {
            Some(r) => Some(seq![p[0]] + r),
            None => None,
        }
    }
}

/// The token rules.
pub fn token_rules() -> (r: Vec<(&'static str, &'static str)>)
    ensures
        r@ == rules(),
{
    vec![
        ("PRAGMA", "\\bpragma\\b"), ("CIRCOM", "\\bcircom\\b"), ("TEMPLATE", "\\btemplate\\b"),
        ("COMPONENT", "\\bcomponent\\b"), ("INPUT", "\\binput\\b"), ("OUTPUT", "\\boutput\\b"),
        ("SIGNAL", "\\bsignal\\b"), ("PUBLIC", "\\bpublic\\b"), ("VAR", "\\bvar\\b"),
        ("FUNCTION", "\\bfunction\\b"), ("RETURN", "\\breturn\\b"), ("IF", "\\bif\\b"), ("ELSE", "\\belse\\b"),
        ("FOR", "\\bfor\\b"), ("WHILE", "\\bwhile\\b"), ("DO", "\\bdo\\b"), ("LOG", "\\blog\\b"),
        ("ASSERT", "\\bassert\\b"), ("INCLUDE", "\\binclude\\b"), ("PARALLEL", "\\bparallel\\b"),
        ("BUS", "\\bbus\\b"), ("CUSTOM_TEMPLATES", "\\bcustom_templates\\b"), ("MAIN", "\\bmain\\b"),
        ("INCREMENT", "\\+\\+"), ("DECREMENT", "--"), ("PLUS_ASSIGN", "\\+="), ("MINUS_ASSIGN", "-="),
        ("MULTIPLY_ASSIGN", "\\*="), ("DIVIDE_ASSIGN", "/="), ("MODULUS_ASSIGN", "%="),
        ("QUOTIENT_ASSIGN", "\\\\="), ("BITWISE_AND_ASSIGN", "&="), ("BITWISE_OR_ASSIGN", "\\|="),
        ("BITWISE_XOR_ASSIGN", "\\^="), ("BITWISE_NOT_ASSIGN", "~="), ("LEFT_SHIFT_ASSIGN", "<<="),
        ("RIGHT_SHIFT_ASSIGN", ">>="),
        ("PLUS", "\\+"), ("MINUS", "-"), ("MULTIPLY", "\\*"), ("DIVIDE", "/"), ("MODULUS", "%"),
        ("QUOTIENT", "\\\\"), ("LOGICAL_AND", "&&"), ("LOGICAL_OR", "\\|\\|"), ("BITWISE_AND", "&"),
        ("BITWISE_OR", "\\|"), ("BITWISE_XOR", "\\^"), ("BITWISE_NOT", "~"), ("LEFT_SHIFT", "<<"),
        ("RIGHT_SHIFT", ">>"),
        ("CIRCOM_L_ASSIGN", "<--"), ("CIRCOM_R_ASSIGN", "-->"), ("CIRCOM_L_CONSTRAINT_ASSIGN", "<=="),
        ("CIRCOM_R_CONSTRAINT_ASSIGN", "==>"), ("CIRCOM_CONSTRAINT", "==="),
        ("EQUAL", "=="), ("NOT_EQUAL", "!="), ("LESS_THAN_OR_EQUAL", "<="), ("GREATER_THAN_OR_EQUAL", ">="),
        ("LESS_THAN", "<"), ("GREATER_THAN", ">"), ("ASSIGN", "="), ("LOGICAL_NOT", "!"),
        ("LPAREN", "\\("), ("RPAREN", "\\)"), ("LBRACE", "\\{"), ("RBRACE", "\\}"), ("LBRACKET", "\\["),
        ("RBRACKET", "\\]"), ("SEMICOLON", ";"), ("COMMA", ","), ("COLON", ":"), ("DOT", "\\."),
        ("QUESTION_MARK", "\\?"),
        ("VERSION", "\\b\\d+(\\.\\d+)+\\b"),
        ("ID", "\\b_[a-zA-Z][a-zA-Z0-9_$]*\\b|\\b[a-zA-Z][a-zA-Z0-9_$]*\\b"), ("NUM", "\\b\\d+\\b"),
        ("NEWLINE", "\\n"), ("SKIP", "[ \\t]+")
    ]
}

/// The rules as strings.
pub open spec fn rule_views() -> Seq<(Seq<char>, Seq<char>)> {
    rules().map_values(|e: (&'static str, &'static str)| (e.0@, e.1@))
}

/// The named group of one rule: `(?P<name>pattern)`.
pub open spec fn rule_group(e: (Seq<char>, Seq<char>)) -> Seq<char> {
    "(?P<"@ + e.0 + ">"@ + e.1 + ")"@
}

/// The pattern of a list of rules: their named groups joined by `|`.
pub open spec fn rules_pattern(spec: Seq<(Seq<char>, Seq<char>)>) -> Seq<char> {
    join(spec.map_values(|e: (Seq<char>, Seq<char>)| rule_group(e)), "|"@)
}

/// Why lexing stopped.
#[derive(Debug)]
pub enum LexError {
    /// The pattern of the rules does not compile.
    InvalidPattern,
    /// Nothing in the rest of the code matches; the character where it starts.
    UnexpectedCharacter { character: char, line: usize, column: usize },
    /// A match that consumes nothing: lexing would not advance.
    NoProgress { line: usize, column: usize },
}

/// The meaning of a `LexError`.
pub enum LexErrorView {
    InvalidPattern,
    UnexpectedCharacter { character: char, line: int, column: int },
    NoProgress { line: int, column: int },
}

impl View for LexError {
    type V = LexErrorView;

    open spec fn view(&self) -> LexErrorView {
        match self {
            LexError::InvalidPattern => LexErrorView::InvalidPattern,
            LexError::UnexpectedCharacter { character, line, column } => LexErrorView::UnexpectedCharacter {
                character: *character,
                line: *line as int,
                column: *column as int,
            },
            LexError::NoProgress { line, column } => LexErrorView::NoProgress { line: *line as int, column: *column as int },
        }
    }
}

/// The index of the first group from `from` on that took part in the match.
pub open spec fn first_group(groups: Seq<Option<Seq<char>>>, from: int) -> Option<int>
    decreases groups.len() - from,
{
    if from < 0 || from >= groups.len() {
        None
    } else if groups[from] is Some {
        Some(from)
    } else {
        first_group(groups, from + 1)
    }
}

/// The name of group `i`, `UNKNOWN` for an unnamed group.
pub open spec fn group_name(names: Seq<Option<Seq<char>>>, i: int) -> Seq<char> {
    if 0 <= i < names.len() && names[i] is Some {
        names[i]->Some_0
    } else {
        "UNKNOWN"@
    }
}

/// The rule a match selects: the first group from the first on that took
/// part in it, with that group's name (`UNKNOWN` if it has none) and text;
/// `None` if no group did.
pub fn select_group(groups: &Vec<Option<String>>, names: &Vec<Option<String>>) -> (r: Option<(String, String)>)
    ensures
        match first_group(opt_views(groups@), 1) {
            None => r is None,
            Some(i) => r matches Some(x) && x.0@ == group_name(opt_views(names@), i) && x.1@
                == opt_views(groups@)[i]->Some_0,
        },
{
    let ghost gv = opt_views(groups@);
    let mut i: usize = 1;
    while i < groups.len() && groups[i].is_none()
        invariant
            1 <= i,
            gv == opt_views(groups@),
            first_group(gv, 1) == first_group(gv, i as int),
        decreases groups.len() - i,
    {
        proof {
            lemma_first_group_skip(gv, i as int);
        }
        i += 1;
    }
    if i >= groups.len() {
        return None;
    }
    let v = match &groups[i] {
        Some(v) => v.clone(),
        None => String::new(),
    };
    assert(gv[i as int] == Some(v@));
    let name = if i < names.len() {
        match &names[i] {
            Some(n) => n.clone(),
            None => string_from("UNKNOWN"),
        }
    } else {
        string_from("UNKNOWN")
    };
    proof {
        reveal_strlit("UNKNOWN");
    }
    Some((name, v))
}

/// Where lexing stands: the tokens so far, the line and the column.
pub struct LexState {
    pub tokens: Seq<TokenView>,
    pub line: int,
    pub column: int,
}

/// What the token of type `name` and text `v`, found at byte offset `at`,
/// does: a newline moves to the next line, white space makes no token, any
/// other rule makes a token spanning the text's bytes; the column moves past
/// the text's bytes.
pub open spec fn lex_token(st: LexState, name: Seq<char>, v: Seq<char>, at: int) -> LexState {
    if name == "NEWLINE"@ {
        LexState { tokens: st.tokens, line: st.line + 1, column: utf8_len(v) as int }
    } else if name == "SKIP"@ {
        LexState { tokens: st.tokens, line: st.line, column: st.column + utf8_len(v) }
    } else {
        LexState {
            tokens: st.tokens.push(
                TokenView {
                    token_type: name,
                    value: v,
                    line: st.line as usize,
                    column: st.column as usize,
                    start: at as usize,
                    end: (at + utf8_len(v)) as usize,
                },
            ),
            line: st.line,
            column: st.column + utf8_len(v),
        }
    }
}

/// Lexing `code` from position `pos` (in characters) on: at each position
/// the first group of the leftmost match in the rest of the code gives the
/// token's type and text, and the position moves past the text. Token
/// offsets and columns count UTF-8 bytes.
pub open spec fn lex_from(pattern: Seq<char>, code: Seq<char>, pos: int, st: LexState) -> Result<LexState, LexErrorView>
    decreases code.len() - pos,
{
    if pos < 0 || pos >= code.len() {
        Ok(st)
    } else {
        match regex_captures(pattern, code.skip(pos)) {
            None => Err(LexErrorView::UnexpectedCharacter { character: code[pos], line: st.line, column: st.column }),
            Some(groups) => match first_group(groups, 1) {
                None => Err(LexErrorView::NoProgress { line: st.line, column: st.column }),
                Some(i) => {
                    let v = groups[i]->Some_0;
                    let next = lex_token(st, group_name(regex_group_names(pattern), i), v, utf8_len(code.take(pos)) as int);
                    if v.len() == 0 {
                        Err(LexErrorView::NoProgress { line: st.line, column: st.column })
                    } else if pos + v.len() >= code.len() {
                        Ok(next)
                    } else {
                        lex_from(pattern, code, pos + v.len(), next)
                    }
                },
            },
        }
    }
}

/// What lexing the whole of `code` under the rules `spec` gives, from `st`.
pub open spec fn lex(spec: Seq<(Seq<char>, Seq<char>)>, code: Seq<char>, st: LexState) -> Result<LexState, LexErrorView> {
    if regex_compiles(rules_pattern(spec)) {
        lex_from(rules_pattern(spec), code, 0, st)
    } else {
        Err(LexErrorView::InvalidPattern)
    }
}

/// The state lexing starts in: no tokens, line 1, column 1.
pub open spec fn lex_start() -> LexState {
    LexState { tokens: seq![], line: 1, column: 1 }
}

/// The views of tokens.
pub open spec fn token_views(t: Seq<Token>) -> Seq<TokenView> {
    t.map_values(|x: Token| x@)
}

/// A lexer for one piece of code.
pub struct Lexer {
    pub code: String,
    pub tokens: Vec<Token>,
    pub current_line: usize,
    pub current_column: usize,
    pub token_specification: Vec<(String, String)>,
}

impl Lexer {
    /// The code to lex.
    pub open spec fn source(&self) -> Seq<char> {
        self.code@
    }

    /// The line and column where lexing stands.
    pub open spec fn position(&self) -> (usize, usize) {
        (self.current_line, self.current_column)
    }

    /// The rules the lexer uses.
    pub open spec fn specification(&self) -> Seq<(Seq<char>, Seq<char>)> {
        self.token_specification@.map_values(|e: (String, String)| (e.0@, e.1@))
    }

    /// The tokens the lexer holds.
    pub open spec fn lexed(&self) -> Seq<TokenView> {
        token_views(self.tokens@)
    }

    /// Where the lexer stands, as a lexing state.
    pub open spec fn state(&self) -> LexState {
        LexState { tokens: self.lexed(), line: self.position().0 as int, column: self.position().1 as int }
    }

    /// A lexer for `code`, with the token rules, at line 1, column 1.
    pub fn new(code: String) -> (l: Lexer)
        ensures
            l.source() == code@,
            l.lexed().len() == 0,
            l.position() == (1usize, 1usize),
            l.specification() == rule_views(),
    {
        let table = token_rules();
        let mut rs: Vec<(String, String)> = Vec::new();
        let mut i: usize = 0;
        while i < table.len()
            invariant
                i <= table.len(),
                table@ == rules(),
                rs@.map_values(|e: (String, String)| (e.0@, e.1@)) == table@.take(i as int).map_values(
                    |e: (&'static str, &'static str)| (e.0@, e.1@),
                ),
            decreases table.len() - i,
        {
            let ghost s0 = rs@;
            let entry = (string_from(table[i].0), string_from(table[i].1));
            rs.push(entry);
            assert(rs@ == s0.push(entry));
            assert(s0.map_values(|e: (String, String)| (e.0@, e.1@)).len() == s0.len());
            assert(table@.take(i as int).len() == i);
            assert(s0.len() == i);
            proof {
                let a = rs@.map_values(|e: (String, String)| (e.0@, e.1@));
                let b = table@.take(i + 1).map_values(|e: (&'static str, &'static str)| (e.0@, e.1@));
                let a0 = s0.map_values(|e: (String, String)| (e.0@, e.1@));
                let b0 = table@.take(i as int).map_values(|e: (&'static str, &'static str)| (e.0@, e.1@));
                assert forall|j: int| 0 <= j < i + 1 implies a[j] == b[j] by {
                    if j < i {
                        assert(a0[j] == b0[j]);
                        assert(rs@[j] == s0[j]);
                        assert(table@.take(i + 1)[j] == table@.take(i as int)[j]);
                    } else {
                        assert(rs@[j] == entry);
                        assert(table@.take(i + 1)[j] == table@[i as int]);
                    }
                }
                assert(a =~= b);
            }
            i += 1;
        }
        assert(table@.take(table.len() as int) =~= table@);
        Lexer { code, tokens: Vec::new(), current_line: 1, current_column: 1, token_specification: rs }
    }

    /// The pattern of the lexer's rules.
    fn pattern(&self) -> (p: String)
        ensures
            p@ == rules_pattern(self.specification()),
    {
        let mut groups: Vec<String> = Vec::new();
        let mut i: usize = 0;
        let ghost sp = self.specification();
        while i < self.token_specification.len()
            invariant
                i <= self.token_specification.len(),
                sp == self.specification(),
                views(groups@) == sp.take(i as int).map_values(|e: (Seq<char>, Seq<char>)| rule_group(e)),
            decreases self.token_specification.len() - i,
        {
            let (k, v) = (&self.token_specification[i].0, &self.token_specification[i].1);
            let g0 = string_from("(?P<");
            let g1 = concat_str(&g0, k.as_str());
            let g2 = concat_str(&g1, ">");
            let g3 = concat_str(&g2, v.as_str());
            let g4 = concat_str(&g3, ")");
            proof {
                reveal_strlit("(?P<");
                reveal_strlit(">");
                reveal_strlit(")");
                assert(sp[i as int] == (k@, v@));
                assert(g4@ == rule_group(sp[i as int]));
            }
            let ghost gs0 = groups@;
            groups.push(g4);
            assert(groups@ == gs0.push(g4));
            assert(views(gs0).len() == gs0.len());
            assert(sp.len() == self.token_specification@.len());
            assert(sp.take(i as int).len() == i);
            assert(gs0.len() == i);
            proof {
                let a = views(groups@);
                let b = sp.take(i + 1).map_values(|e: (Seq<char>, Seq<char>)| rule_group(e));
                let a0 = views(gs0);
                let b0 = sp.take(i as int).map_values(|e: (Seq<char>, Seq<char>)| rule_group(e));
                assert forall|j: int| 0 <= j < i + 1 implies a[j] == b[j] by {
                    if j < i {
                        assert(a0[j] == b0[j]);
                        assert(groups@[j] == gs0[j]);
                        assert(sp.take(i + 1)[j] == sp.take(i as int)[j]);
                    } else {
                        assert(groups@[j] == g4);
                        assert(sp.take(i + 1)[j] == sp[i as int]);
                    }
                }
                assert(a =~= b);
            }
            i += 1;
        }
        assert(sp.take(sp.len() as int) =~= sp);
        join_strings(&groups, "|")
    }

    /// Records the token of type `token_type` and text `value`, found at
    /// byte offset `start`.
    pub fn generate_token(&mut self, token_type: &String, value: &String, start: usize)
        requires
            old(self).position().0 < usize::MAX,
            4 * value@.len() <= usize::MAX,
            old(self).position().1 + utf8_len(value@) <= usize::MAX,
            start + utf8_len(value@) <= usize::MAX,
        ensures
            final(self).state() == lex_token(old(self).state(), token_type@, value@, start as int),
            final(self).source() == old(self).source(),
            final(self).specification() == old(self).specification(),
    {
        let len = utf8_len_of(value.as_str());
        let ghost t0 = self.tokens@;
        if eq_str(token_type, "NEWLINE") {
            self.current_line = self.current_line + 1;
            self.current_column = 0;
        } else if !eq_str(token_type, "SKIP") {
            let token = Token {
                token_type: token_type.clone(),
                value: value.clone(),
                line: self.current_line,
                column: self.current_column,
                start,
                end: start + len,
            };
            self.tokens.push(token);
            assert(token_views(self.tokens@) =~= token_views(t0).push(token@));
        }
        self.current_column = self.current_column + len;
    }
}

/// The first group from `from` on is a group from `from` on.
proof fn lemma_first_group_range(g: Seq<Option<Seq<char>>>, from: int)
    ensures
        first_group(g, from) matches Some(i) ==> from <= i < g.len() && g[i] is Some,
    decreases g.len() - from,
{
    if 0 <= from < g.len() && g[from] is None {
        lemma_first_group_range(g, from + 1);
    }
}

/// Where the first group from `i` on lies is where it lies from `i + 1`
/// on, when group `i` took no part.
proof fn lemma_first_group_skip(g: Seq<Option<Seq<char>>>, i: int)
    requires
        0 <= i < g.len(),
        g[i] is None,
    ensures
        first_group(g, i) == first_group(g, i + 1),
{
}

impl Lexer {
    /// Lexes the code from where the lexer stands: the result and the state
    /// are those `lex` gives for the lexer's rules and code.
    pub fn try_tokenize(&mut self) -> (r: Result<(), LexError>)
        requires
            old(self).position().0 + old(self).source().len() < usize::MAX,
            old(self).position().1 + 4 * old(self).source().len() < usize::MAX,
        ensures
            final(self).source() == old(self).source(),
            final(self).specification() == old(self).specification(),
            match lex(old(self).specification(), old(self).source(), old(self).state()) {
                Ok(st) => r is Ok && final(self).state() == st,
                Err(e) => r matches Err(x) && x@ == e,
            },
    {
        let pattern = self.pattern();
        let re = match compile_regex(&pattern) {
            None => {
                return Err(LexError::InvalidPattern);
            },
            Some(re) => re,
        };
        let names = capture_names(&re);
        let chars = chars_of(self.code.as_str());
        let ghost code = self.code@;
        let ghost pat = pattern@;
        let ghost line0 = self.current_line;
        let ghost col0 = self.current_column;
        let ghost goal = lex(self.specification(), code, self.state());
        let ghost sp0 = self.specification();
        let mut pos: usize = 0;
        let mut at: usize = 0;
        assert(code.skip(0) =~= code);
        assert(code.take(0) =~= Seq::<char>::empty());
        while pos < chars.len()
            invariant
                sp0 == self.specification(),
                self.source() == old(self).source(),
                self.specification() == old(self).specification(),
                goal == lex(old(self).specification(), old(self).source(), old(self).state()),
                chars@ == code,
                code == self.source(),
                re@ == pat,
                pat == rules_pattern(self.specification()),
                regex_compiles(pat),
                opt_views(names@) == regex_group_names(pat),
                goal == lex_from(pat, code, pos as int, self.state()),
                pos <= chars.len(),
                at == utf8_len(code.take(pos as int)),
                at <= 4 * pos,
                self.current_line <= line0 + pos,
                self.current_column <= col0 + 4 * pos,
                line0 + code.len() < usize::MAX,
                col0 + 4 * code.len() < usize::MAX,
            decreases chars.len() - pos,
        {
            let hay = string_of_range(&chars, pos, chars.len());
            assert(hay@ =~= code.skip(pos as int));
            let caps = capture_texts(&re, hay.as_str());
            let groups = match caps {
                None => {
                    return Err(LexError::UnexpectedCharacter { character: chars[pos], line: self.current_line, column: self.current_column });
                },
                Some(g) => g,
            };
            let ghost gv = opt_views(groups@);
            let (name, v) = match select_group(&groups, &names) {
                None => {
                    return Err(LexError::NoProgress { line: self.current_line, column: self.current_column });
                },
                Some(x) => x,
            };
            let ghost i = first_group(gv, 1)->Some_0;
            proof {
                lemma_first_group_range(gv, 1);
                assert(0 <= i < groups@.len());
                assert(gv[i] == (match groups@[i] {
                    Some(x) => Some(x@),
                    None => None::<Seq<char>>,
                }));
                assert(groups@[i] is Some);
                assert(v@ == groups@[i]->Some_0@);
                assert(v@.len() <= hay@.len());
            }
            let vlen = chars_of(v.as_str()).len();
            if vlen == 0 {
                return Err(LexError::NoProgress { line: self.current_line, column: self.current_column });
            }
            proof {
                lemma_utf8_len_bound(v@);
            }
            self.generate_token(&name, &v, at);
            let step = utf8_len_range(&chars, pos, pos + vlen);
            proof {
                lemma_utf8_len_concat(code.take(pos as int), code.subrange(pos as int, pos + vlen));
                assert(code.take(pos as int) + code.subrange(pos as int, pos + vlen) =~= code.take(pos + vlen));
            }
            at = at + step;
            pos = pos + vlen;
        }
        Ok(())
    }

    /// Lexes the whole code, which must lex to its end under the lexer's
    /// rules.
    pub fn tokenize(&mut self)
        requires
            old(self).position().0 + old(self).source().len() < usize::MAX,
            old(self).position().1 + 4 * old(self).source().len() < usize::MAX,
            lex(old(self).specification(), old(self).source(), old(self).state()) is Ok,
        ensures
            final(self).state() == lex(old(self).specification(), old(self).source(), old(self).state())->Ok_0,
            final(self).source() == old(self).source(),
            final(self).specification() == old(self).specification(),
    {
        let _ = self.try_tokenize();
    }
}

/// The tokens of `code` under the token rules, or why lexing stops.
pub fn lex_code(code: String) -> (r: Result<Vec<Token>, LexError>)
    requires
        4 * code@.len() + 1 < usize::MAX,
    ensures
        match lex(rule_views(), code@, lex_start()) {
            Ok(st) => r matches Ok(v) && token_views(v@) == st.tokens,
            Err(e) => r matches Err(x) && x@ == e,
        },
{
    let mut probe = Lexer::new(code.clone());
    proof {
        assert(probe.lexed() =~= Seq::<TokenView>::empty());
        assert(probe.state() == lex_start());
    }
    match probe.try_tokenize() {
        Err(e) => Err(e),
        Ok(()) => {
            let mut lexer = Lexer::new(code);
            proof {
                assert(lexer.lexed() =~= Seq::<TokenView>::empty());
                assert(lexer.state() == lex_start());
            }
            lexer.tokenize();
            proof {
                assert(lexer.lexed() == token_views(lexer.tokens@));
            }
            Ok(lexer.tokens)
        },
    }
}

fn eq_str(s: &String, lit: &str) -> (b: bool)
    ensures
        b == (s@ == lit@),
{
    let t = string_from(lit);
    *s == t
}

} // verus!

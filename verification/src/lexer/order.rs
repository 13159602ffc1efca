//! The order of the tokens that lexing gives.
use vstd::prelude::*;
use crate::lexer::token::TokenView;
use crate::lexer::lexer::{lex, lex_from, lex_start, lex_token, regex_compiles, rules_pattern, LexState};
use crate::text::{lemma_utf8_len_bound, lemma_utf8_len_concat, lemma_utf8_len_lower, utf8_len};

verus! {

/// The tokens are made of text, none of them a line break or white space,
/// and come in the order of their places in the code.
pub open spec fn in_text_order(ts: Seq<TokenView>) -> bool {
    &&& forall|i: int| 0 <= i < ts.len() ==> (#[trigger] ts[i]).value.len() > 0 && ts[i].token_type != "NEWLINE"@
        && ts[i].token_type != "SKIP"@
    &&& forall|i: int, j: int| 0 <= i < j < ts.len() ==> (#[trigger] ts[i]).start < (#[trigger] ts[j]).start
}

proof fn lemma_lex_from_order(pattern: Seq<char>, code: Seq<char>, pos: int, st: LexState)
    requires
        0 <= pos <= code.len(),
        4 * code.len() < usize::MAX,
        in_text_order(st.tokens),
        forall|i: int| 0 <= i < st.tokens.len() ==> (#[trigger] st.tokens[i]).start < utf8_len(code.take(pos)),
    ensures
        lex_from(pattern, code, pos, st) matches Ok(fin) ==> in_text_order(fin.tokens),
    decreases code.len() - pos,
{
    if pos < code.len() {
        if let Some(groups) = crate::lexer::lexer::regex_captures(pattern, code.skip(pos)) {
            if let Some(i) = crate::lexer::lexer::first_group(groups, 1) {
                let v = groups[i]->Some_0;
                let at = utf8_len(code.take(pos));
                let name = crate::lexer::lexer::group_name(crate::lexer::lexer::regex_group_names(pattern), i);
                let next = lex_token(st, name, v, at as int);
                if v.len() > 0 {
                    lemma_utf8_len_bound(code.take(pos));
                    assert(in_text_order(next.tokens)) by {
                        if name != "NEWLINE"@ && name != "SKIP"@ {
                            let ts = next.tokens;
                            assert(ts == st.tokens.push(ts.last()));
                            assert(ts.last().start == at);
                            assert forall|a: int, b: int| 0 <= a < b < ts.len() implies (#[trigger] ts[a]).start < (#[trigger] ts[b]).start by {
                                if b == ts.len() - 1 {
                                    assert(ts[a] == st.tokens[a]);
                                } else {
                                    assert(ts[a] == st.tokens[a] && ts[b] == st.tokens[b]);
                                }
                            }
                            assert forall|a: int| 0 <= a < ts.len() implies (#[trigger] ts[a]).value.len() > 0 && ts[a].token_type != "NEWLINE"@
                                && ts[a].token_type != "SKIP"@ by {
                                if a < ts.len() - 1 {
                                    assert(ts[a] == st.tokens[a]);
                                }
                            }
                        }
                    }
                    if pos + v.len() < code.len() {
                        let np = pos + v.len();
                        lemma_utf8_len_concat(code.take(pos), code.subrange(pos, np));
                        assert(code.take(pos) + code.subrange(pos, np) =~= code.take(np));
                        lemma_utf8_len_lower(code.subrange(pos, np));
                        assert forall|k: int| 0 <= k < next.tokens.len() implies (#[trigger] next.tokens[k]).start < utf8_len(code.take(np)) by {
                            if k < st.tokens.len() {
                                assert(next.tokens[k] == st.tokens[k]);
                            }
                        }
                        lemma_lex_from_order(pattern, code, np, next);
                    }
                }
            }
        }
    }
}

/// Lexing gives tokens made of text, none of them a line break or white
/// space, each starting after the one before: the tokens come in the order
/// of the code.
pub proof fn lemma_tokens_in_text_order(spec: Seq<(Seq<char>, Seq<char>)>, code: Seq<char>)
    requires
        4 * code.len() < usize::MAX,
    ensures
        lex(spec, code, lex_start()) matches Ok(st) ==> in_text_order(st.tokens),
{
    if regex_compiles(rules_pattern(spec)) {
        assert(in_text_order(lex_start().tokens));
        lemma_lex_from_order(rules_pattern(spec), code, 0, lex_start());
    }
}

/// One match moves the lexer on: a line break starts the next line at its
/// first column and makes no token, white space makes no token and moves the
/// column past its bytes, and any other match adds exactly one token, of
/// the rule's type and the matched text, at the current line and column and
/// at byte offset `at`, moving the column past its bytes.
pub proof fn lemma_lex_step(st: LexState, name: Seq<char>, v: Seq<char>, at: int)
    requires
        0 <= st.line <= usize::MAX,
        0 <= st.column <= usize::MAX,
        0 <= at,
        at + utf8_len(v) <= usize::MAX,
    ensures
        lex_token(st, "NEWLINE"@, "\n"@, at) == (LexState { tokens: st.tokens, line: st.line + 1, column: 1 }),
        lex_token(st, "SKIP"@, v, at) == (LexState { tokens: st.tokens, line: st.line, column: st.column + utf8_len(v) }),
        name != "NEWLINE"@ && name != "SKIP"@ ==> {
            let next = lex_token(st, name, v, at);
            &&& next.tokens.len() == st.tokens.len() + 1
            &&& next.tokens.drop_last() == st.tokens
            &&& next.tokens.last().token_type == name
            &&& next.tokens.last().value == v
            &&& next.tokens.last().line == st.line
            &&& next.tokens.last().column == st.column
            &&& next.tokens.last().start == at
            &&& next.tokens.last().end == at + utf8_len(v)
            &&& next.line == st.line
            &&& next.column == st.column + utf8_len(v)
        },
{
    reveal_strlit("\n");
    reveal_strlit("NEWLINE");
    reveal_strlit("SKIP");
    assert("SKIP"@.len() != "NEWLINE"@.len());
    let nl = "\n"@;
    assert(nl =~= seq!['\n']);
    assert(nl.drop_last() =~= Seq::<char>::empty());
    assert(utf8_len(nl) == utf8_len(nl.drop_last()) + crate::text::char_bytes(nl.last()));
    if name != "NEWLINE"@ && name != "SKIP"@ {
        let next = lex_token(st, name, v, at);
        assert(next.tokens.drop_last() =~= st.tokens);
    }
}

} // verus!

//! What becomes of the tokens the shift-reduce loop reads: each one is on the
//! symbol stack or in exactly one reported reduction, and on acceptance all
//! of them have been reported.
use vstd::prelude::*;
use vstd::multiset::Multiset;
use crate::lexer::token::{Token, TokenView};
use crate::parser::lr1::{parse_input, popped_tokens, start_state, symbol_of, LR1Parser, ParseStep, ReduceView};

verus! {

/// The tokens on a symbol stack.
pub open spec fn stack_tokens(s: Seq<Option<TokenView>>) -> Multiset<TokenView>
    decreases s.len(),
{
    if s.len() == 0 {
        Multiset::empty()
    } else {
        let rest = stack_tokens(s.drop_first());
        match s[0] {
            Some(t) => rest.insert(t),
            None => rest,
        }
    }
}

/// The tokens that the reductions report.
pub open spec fn reported_tokens(rs: Seq<ReduceView>) -> Multiset<TokenView>
    decreases rs.len(),
{
    if rs.len() == 0 {
        Multiset::empty()
    } else {
        reported_tokens(rs.drop_last()).add(rs.last().token.to_multiset())
    }
}

proof fn lemma_stack_tokens_concat(a: Seq<Option<TokenView>>, b: Seq<Option<TokenView>>)
    ensures
        stack_tokens(a + b) =~= stack_tokens(a).add(stack_tokens(b)),
    decreases a.len(),
{
    broadcast use vstd::multiset::group_multiset_axioms;
    if a.len() == 0 {
        assert(a + b =~= b);
    } else {
        assert((a + b).drop_first() =~= a.drop_first() + b);
        assert((a + b)[0] == a[0]);
        lemma_stack_tokens_concat(a.drop_first(), b);
    }
}

proof fn lemma_popped_tokens(s: Seq<Option<TokenView>>)
    ensures
        popped_tokens(s).to_multiset() =~= stack_tokens(s),
    decreases s.len(),
{
    broadcast use vstd::multiset::group_multiset_axioms;
    broadcast use vstd::seq_lib::group_to_multiset_ensures;
    if s.len() == 0 {
        assert(popped_tokens(s).to_multiset() =~= Multiset::<TokenView>::empty()) by {
            assert(popped_tokens(s) =~= Seq::<TokenView>::empty());
            vstd::seq_lib::lemma_seq_empty_equality::<TokenView>(popped_tokens(s));
            assert(popped_tokens(s).to_multiset().len() == 0);
        }
    } else {
        lemma_popped_tokens(s.drop_first());
    }
}

impl LR1Parser {
    /// The tokens read so far are those that the reductions reported and those
    /// still on the symbol stack; so on acceptance every reported token is a
    /// token of the input, none reported more often than the input holds it.
    pub proof fn lemma_tokens_conserved(&self, input: Seq<TokenView>, n: nat)
        requires
            self.inv(),
        ensures
            match self.run(input, start_state(), n) {
                ParseStep::Continue(c) => 0 <= c.index <= input.len() && reported_tokens(c.results).add(
                    stack_tokens(c.symbols),
                ) == input.take(c.index).to_multiset(),
                ParseStep::Accept(rs) => reported_tokens(rs).subset_of(input.to_multiset()),
                ParseStep::Fail(_) => true,
            },
        decreases n,
    {
        broadcast use vstd::multiset::group_multiset_axioms;
        broadcast use vstd::seq_lib::group_to_multiset_ensures;
        if n == 0 {
            assert(input.take(0) =~= Seq::<TokenView>::empty());
            assert(input.take(0).to_multiset() =~= Multiset::<TokenView>::empty()) by {
                assert(input.take(0).to_multiset().len() == 0);
            }
            assert(reported_tokens(start_state().results).add(stack_tokens(start_state().symbols)) =~= Multiset::<TokenView>::empty());
        } else {
            self.lemma_tokens_conserved(input, (n - 1) as nat);
            if let ParseStep::Continue(c) = self.run(input, start_state(), (n - 1) as nat) {
                let inv0 = reported_tokens(c.results).add(stack_tokens(c.symbols));
                match self.step(input, c) {
                    ParseStep::Continue(c2) => {
                        let tok = input[c.index];
                        if c2.results.len() == c.results.len() + 1 {
                            self.lemma_reduce_finds_body(input, (n - 1) as nat, c, c2);
                            let r = c2.results.last();
                            let k = if r.body.contains(crate::parser::grammar::null_word()) {
                                0
                            } else {
                                r.body.len() as int
                            };
                            let rest = c.symbols.len() - k;
                            lemma_popped_tokens(c.symbols.subrange(rest, c.symbols.len() as int));
                            lemma_stack_tokens_concat(c.symbols.take(rest), c.symbols.subrange(rest, c.symbols.len() as int));
                            assert(c.symbols.take(rest) + c.symbols.subrange(rest, c.symbols.len() as int) =~= c.symbols);
                            lemma_stack_tokens_concat(c.symbols.take(rest), seq![None::<TokenView>]);
                            assert(stack_tokens(seq![None::<TokenView>]) =~= Multiset::<TokenView>::empty()) by {
                                let e = Seq::<Option<TokenView>>::empty();
                                assert(stack_tokens(e) == Multiset::<TokenView>::empty());
                                assert(seq![None::<TokenView>].drop_first() =~= e);
                            }
                            assert(c.symbols.take(rest).push(None) =~= c.symbols.take(rest) + seq![None::<TokenView>]);
                            assert(c2.results.drop_last() =~= c.results);
                            assert(reported_tokens(c2.results).add(stack_tokens(c2.symbols)) =~= inv0);
                        } else {
                            assert(c2.symbols == c.symbols.push(Some(tok)));
                            assert(c2.index == c.index + 1);
                            lemma_stack_tokens_concat(c.symbols, seq![Some(tok)]);
                            assert(stack_tokens(seq![Some(tok)]) =~= Multiset::<TokenView>::empty().insert(tok)) by {
                                let e = Seq::<Option<TokenView>>::empty();
                                assert(stack_tokens(e) == Multiset::<TokenView>::empty());
                                assert(seq![Some(tok)].drop_first() =~= e);
                            }
                            assert(c.symbols.push(Some(tok)) =~= c.symbols + seq![Some(tok)]);
                            assert(input.take(c.index + 1) =~= input.take(c.index).push(tok));
                            assert(reported_tokens(c2.results).add(stack_tokens(c2.symbols)) =~= input.take(c2.index).to_multiset());
                        }
                    },
                    ParseStep::Accept(rs) => {
                        assert(rs == c.results);
                        vstd::seq_lib::lemma_multiset_commutative(input.take(c.index), input.skip(c.index));
                        assert(input.take(c.index) + input.skip(c.index) =~= input);
                    },
                    ParseStep::Fail(_) => {},
                }
            }
        }
    }


    /// Where the augmented start symbol is fresh and no token reads as the
    /// end marker, an accepted input has every token reported, each exactly
    /// once.
    pub proof fn lemma_accept_reports_all(&self, tokens: Seq<Token>, n: nat)
        requires
            self.inv(),
            self.start_fresh(),
            forall|i: int| 0 <= i < tokens.len() ==> symbol_of((#[trigger] tokens[i])@.token_type) != "#"@,
        ensures
            self.run(parse_input(tokens), start_state(), n) matches ParseStep::Accept(rs) ==> reported_tokens(rs)
                == tokens.map_values(|t: Token| t@).to_multiset(),
        decreases n,
    {
        broadcast use vstd::multiset::group_multiset_axioms;
        let input = parse_input(tokens);
        if n > 0 {
            self.lemma_accept_reports_all(tokens, (n - 1) as nat);
            if let ParseStep::Continue(c) = self.run(input, start_state(), (n - 1) as nat) {
                if let ParseStep::Accept(rs) = self.step(input, c) {
                    self.lemma_tokens_conserved(input, (n - 1) as nat);
                    self.lemma_accept_stack(input, (n - 1) as nat, c);
                    assert(rs == c.results);
                    let tv = tokens.map_values(|t: Token| t@);
                    if c.index < tokens.len() {
                        assert(input[c.index] == tokens[c.index]@);
                    }
                    assert(c.index == tokens.len());
                    assert(input.take(c.index) =~= tv);
                    let e = Seq::<Option<TokenView>>::empty();
                    assert(stack_tokens(e) == Multiset::<TokenView>::empty());
                    assert(c.symbols.drop_first() =~= e);
                    assert(stack_tokens(c.symbols) == Multiset::<TokenView>::empty());
                    assert(reported_tokens(rs).add(Multiset::<TokenView>::empty()) =~= reported_tokens(rs));
                }
            }
        }
    }
}

} // verus!

use circom_ast::parser::grammar::{Grammar, GrammarError};

fn has(v: &Vec<String>, s: &str) -> bool {
    v.iter().any(|x| x == s)
}

#[test]
fn test_grammar_parsing() {
    let grammar_str = r"
            PROG -> PROGRAM HEADER SUBPROG .
            HEADER -> CONST_STATEMENT VARIABLE_STATEMENT
            SUBPROG -> BEGIN STATEMENT END
        ";

    let grammar = Grammar::new(grammar_str).unwrap();

    assert!(has(&grammar.nonterminals, "PROG"));
    assert!(has(&grammar.terminals, "BEGIN"));
    assert!(has(&grammar.terminals, "PROGRAM"));
}

#[test]
fn grammar_groups_alternatives_by_head() {
    let g = Grammar::new("S -> A b | c\nA -> x\nS -> d\n").unwrap();
    assert_eq!(g.start_symbol, "S");
    assert_eq!(g.productions.len(), 2);
    assert_eq!(g.productions[0].0, "S");
    assert_eq!(g.productions[0].1.len(), 3);
    assert_eq!(g.productions[0].1[2], vec!["d".to_string()]);
    assert!(has(&g.nonterminals, "A"));
    assert!(has(&g.terminals, "b"));
    assert!(!has(&g.terminals, "A"));
    assert_eq!(g.symbols.len(), g.terminals.len() + g.nonterminals.len());
}

#[test]
fn grammar_missing_arrow() {
    match Grammar::new("S A b\n") {
        Err(GrammarError::MissingArrow(l)) => assert_eq!(l, "S A b"),
        _ => panic!("expected a missing arrow"),
    }
}

#[test]
fn grammar_null_with_other_symbols() {
    match Grammar::new("S -> a NULL\n") {
        Err(GrammarError::InvalidProduction(m)) => assert_eq!(m, "S -> a NULL"),
        _ => panic!("expected an invalid production"),
    }
}

#[test]
fn grammar_empty_text() {
    assert!(matches!(Grammar::new("\n   \n"), Err(GrammarError::UndefinedStartSymbol)));
}

#[test]
fn grammar_error_message() {
    let e = GrammarError::MissingArrow("x".to_string());
    assert_eq!(e.message(), "Missing -> in line: x");
}

use circom_ast::lexer::token::Token;
use circom_ast::parser::grammar::{Grammar, GrammarError};
use circom_ast::text::decimal_string;
use circom_ast::parser::lr1::{token_symbol, LR1Parser, ParseError};

fn tok(ty: &str, value: &str, line: usize, column: usize) -> Token {
    Token { token_type: ty.to_string(), value: value.to_string(), line, column, start: 0, end: 0 }
}

fn parser(text: &str) -> LR1Parser {
    let g = Grammar::new(text).unwrap();
    match LR1Parser::new(g) {
        Ok(p) => p,
        Err(_) => panic!("the grammar has no conflict"),
    }
}

#[test]
fn token_types_map_to_grammar_symbols() {
    assert_eq!(token_symbol(&"SEMICOLON".to_string()), ";");
    assert_eq!(token_symbol(&"CIRCOM_L_CONSTRAINT_ASSIGN".to_string()), "<==");
    assert_eq!(token_symbol(&"ID".to_string()), "ID");
}

#[test]
fn parse_one_statement() {
    let p = parser("S -> ID ;\n");
    let r = p.run_parse(&[tok("ID", "a", 1, 1), tok("SEMICOLON", ";", 1, 2)]);
    let steps = match r {
        Ok(s) => s,
        Err(_) => panic!("the input is a sentence"),
    };
    assert_eq!(steps.len(), 1);
    assert_eq!(steps[0].head, "S");
    assert_eq!(steps[0].body, vec!["ID".to_string(), ";".to_string()]);
    let values: Vec<&str> = steps[0].token.iter().map(|t| t.value.as_str()).collect();
    assert_eq!(values, vec![";", "a"]);
}

#[test]
fn parse_reductions_in_order() {
    let p = parser("S -> S E | E\nE -> ID ;\n");
    let r = p.run_parse(&[tok("ID", "a", 1, 1), tok("SEMICOLON", ";", 1, 2), tok("ID", "b", 2, 1), tok("SEMICOLON", ";", 2, 2)]);
    let steps = match r {
        Ok(s) => s,
        Err(_) => panic!("the input is a sentence"),
    };
    let heads: Vec<&str> = steps.iter().map(|s| s.head.as_str()).collect();
    assert_eq!(heads, vec!["E", "S", "E", "S"]);
    assert!(steps[1].token.is_empty());
    assert_eq!(steps[3].body, vec!["S".to_string(), "E".to_string()]);
}

#[test]
fn parse_invalid_action() {
    let p = parser("S -> ID ;\n");
    match p.run_parse(&[tok("SEMICOLON", ";", 3, 7)]) {
        Err(ParseError::InvalidAction { symbol, state, line, column }) => {
            assert_eq!(symbol, ";");
            assert_eq!(state, 0);
            assert_eq!((line, column), (3, 7));
        },
        _ => panic!("expected an invalid action"),
    }
}

#[test]
fn parse_premature_end() {
    let p = parser("S -> ID ;\n");
    match p.run_parse(&[tok("ID", "a", 1, 1)]) {
        Err(ParseError::InvalidAction { symbol, .. }) => assert_eq!(symbol, "#"),
        _ => panic!("expected an invalid action on the end marker"),
    }
}

#[test]
fn reduce_reduce_conflict_is_reported() {
    let g = Grammar::new("S -> A | B\nA -> ID\nB -> ID\n").unwrap();
    match LR1Parser::new(g) {
        Err(ParseError::Conflict { symbol, line, column, .. }) => {
            assert_eq!(symbol, "#");
            assert_eq!((line, column), (0, 0));
        },
        _ => panic!("expected a conflict"),
    }
}

#[test]
fn parse_error_messages() {
    let e = ParseError::InvalidAction { symbol: ";".to_string(), state: 0, line: 3, column: 17 };
    assert_eq!(e.message(), "Invalid action at line 3-17: state 0 on ;");
    let c = ParseError::Conflict { symbol: "#".to_string(), state: 12, line: 0, column: 0 };
    assert_eq!(c.message(), "Conflict at line 0-0: state 12 on #");
    assert_eq!(ParseError::UnexpectedEnd.message(), "Unexpected end of input");
    let g = ParseError::from(GrammarError::UndefinedStartSymbol);
    assert_eq!(g.message(), "Grammar error: Start symbol not defined");
}

#[test]
fn decimal_digits() {
    assert_eq!(decimal_string(0), "0");
    assert_eq!(decimal_string(7), "7");
    assert_eq!(decimal_string(1204), "1204");
}

#[test]
fn null_production_is_never_complete() {
    let p = parser("S -> A ID\nA -> NULL\n");
    match p.run_parse(&[tok("ID", "x", 1, 4)]) {
        Err(ParseError::InvalidAction { symbol, state, line, column }) => {
            assert_eq!(symbol, "ID");
            assert_eq!(state, 0);
            assert_eq!((line, column), (1, 4));
        },
        _ => panic!("a NULL body is never passed over"),
    }
}

#[test]
fn each_token_reported_once() {
    let p = parser("S -> S E | E\nE -> ID ;\n");
    let input = [tok("ID", "a", 1, 1), tok("SEMICOLON", ";", 1, 2), tok("ID", "b", 2, 1), tok("SEMICOLON", ";", 2, 2)];
    let steps = match p.run_parse(&input) {
        Ok(s) => s,
        Err(_) => panic!("the input is a sentence"),
    };
    let mut seen: Vec<(usize, usize)> = steps.iter().flat_map(|s| s.token.iter().map(|t| (t.line, t.column))).collect();
    seen.sort();
    assert_eq!(seen, vec![(1, 1), (1, 2), (2, 1), (2, 2)]);
}

#[test]
fn tables_are_the_same_on_every_build() {
    let a = parser("S -> S E | E\nE -> ID ; | ID = ID ;\n");
    let b = parser("S -> S E | E\nE -> ID ; | ID = ID ;\n");
    assert_eq!(a.action_table, b.action_table);
    assert_eq!(a.goto_table, b.goto_table);
    assert!(!a.action_table.is_empty());
}

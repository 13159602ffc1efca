use circom_ast::input::input::{clean_source, clean_source_one_line, remove_block_comments, remove_line_comments};
use circom_ast::lexer::lexer::{lex_code, select_group, LexError, Lexer};
use circom_ast::text::{parse_i128_str, parse_usize_str};

#[test]
fn numbers_read_as_std_reads_them() {
    assert_eq!(parse_usize_str("+12"), Some(12));
    assert_eq!(parse_usize_str("+"), None);
    assert_eq!(parse_usize_str("-1"), None);
    assert_eq!(parse_usize_str("18446744073709551616"), None);
    assert_eq!(parse_i128_str("-170141183460469231731687303715884105728"), Some(i128::MIN));
    assert_eq!(parse_i128_str("170141183460469231731687303715884105728"), None);
    assert_eq!(parse_i128_str("42"), Some(42));
}

#[test]
fn line_comments_are_cut() {
    let r = remove_line_comments("a = 1; // one\r\nb // two // three\nc".to_string());
    assert_eq!(r, "a = 1; \nb \nc");
}

#[test]
fn block_comments_keep_line_breaks() {
    let r = remove_block_comments("x /* a\nb */ y\n/* c */z".to_string());
    assert_eq!(r, "x \n y\nz");
    assert_eq!(r.matches('\n').count(), 2);
}

#[test]
fn source_is_cleaned() {
    assert_eq!(clean_source("\tsignal a; // c\n/* d */b"), "signal a; \nb");
    assert_eq!(clean_source_one_line("a\r\nb\n\tc\r"), "abc\r");
}

#[test]
fn lexer_tokens() {
    let toks = match lex_code("signal input a;\nx <== 3;".to_string()) {
        Ok(t) => t,
        Err(_) => panic!("the code lexes"),
    };
    let types: Vec<&str> = toks.iter().map(|t| t.token_type.as_str()).collect();
    assert_eq!(types, vec!["SIGNAL", "INPUT", "ID", "SEMICOLON", "ID", "CIRCOM_L_CONSTRAINT_ASSIGN", "NUM", "SEMICOLON"]);
    assert_eq!((toks[4].line, toks[4].column), (2, 1));
    assert_eq!((toks[0].start, toks[0].end), (0, 6));
    assert_eq!(toks[6].value, "3");
}

#[test]
fn lexer_reports_unexpected_character() {
    match lex_code("@".to_string()) {
        Err(LexError::UnexpectedCharacter { character, line, column }) => {
            assert_eq!(character, '@');
            assert_eq!((line, column), (1, 1));
        },
        _ => panic!("expected an unexpected character"),
    }
}

#[test]
fn lexer_tokenize_in_place() {
    let mut l = Lexer::new("pragma circom 2.0.0;".to_string());
    l.tokenize();
    let types: Vec<&str> = l.tokens.iter().map(|t| t.token_type.as_str()).collect();
    assert_eq!(types, vec!["PRAGMA", "CIRCOM", "VERSION", "SEMICOLON"]);
}

#[test]
fn line_comments_keep_every_line_break() {
    let r = remove_line_comments("a // x\n\nb // y\n".to_string());
    assert_eq!(r, "a \n\nb \n");
    assert_eq!(r.matches('\n').count(), 3);
    assert_eq!(remove_line_comments("x; // c\ny;\n".to_string()), "x; \ny;\n");
    assert_eq!(remove_line_comments(String::new()), "");
}

#[test]
fn lexer_counts_columns_in_bytes() {
    let toks = match lex_code("\u{663} x".to_string()) {
        Ok(t) => t,
        Err(_) => panic!("the code lexes"),
    };
    let types: Vec<&str> = toks.iter().map(|t| t.token_type.as_str()).collect();
    assert_eq!(types, vec!["NUM", "ID"]);
    assert_eq!((toks[0].column, toks[0].start, toks[0].end), (1, 0, 2));
    assert_eq!((toks[1].column, toks[1].start, toks[1].end), (4, 3, 4));
}

#[test]
fn match_selects_first_group_that_took_part() {
    let groups = vec![Some("ab".to_string()), None, Some("ab".to_string()), Some("b".to_string())];
    let names = vec![None, Some("A".to_string()), Some("B".to_string()), None];
    assert_eq!(select_group(&groups, &names), Some(("B".to_string(), "ab".to_string())));
    let unnamed = vec![None, None, None, None];
    assert_eq!(select_group(&groups, &unnamed), Some(("UNKNOWN".to_string(), "ab".to_string())));
    assert_eq!(select_group(&vec![Some("x".to_string()), None], &names), None);
}

#[test]
fn generate_token_records_bytes() {
    let mut l = Lexer::new(String::new());
    l.generate_token(&"ID".to_string(), &"\u{e9}t\u{e9}".to_string(), 7);
    assert_eq!((l.tokens[0].line, l.tokens[0].column, l.tokens[0].start, l.tokens[0].end), (1, 1, 7, 12));
    assert_eq!(l.current_column, 6);
    l.generate_token(&"NEWLINE".to_string(), &"\n".to_string(), 12);
    assert_eq!((l.current_line, l.current_column), (2, 1));
    assert_eq!(l.tokens.len(), 1);
}

use circom_ast::ast::ast::{
    Definition, Expression, Meta, MemoryKnowledge, Pragma, Statement, TypeKnowledge, TypeReduction, VariableType, AST,
};
use circom_ast::ast::ast_build::{build_ast, process_version, read_version, try_build_ast};
use circom_ast::lexer::token::Token;
use circom_ast::parser::lr1::ReduceResult;

#[test]
fn test_build_version() {
    assert_eq!(process_version("2.0.0"), (2, 0, 0));
}

#[test]
fn version_needs_three_numbers() {
    assert_eq!(read_version("2.1"), None);
    assert_eq!(read_version("2.x.0"), None);
    assert_eq!(read_version("+2.10.3.7"), Some((2, 10, 3)));
}

fn tok(ty: &str, value: &str, start: usize, end: usize) -> Token {
    Token { token_type: ty.to_string(), value: value.to_string(), line: 1, column: 0, start, end }
}

fn red(head: &str, body: &[&str], token: Vec<Token>) -> ReduceResult {
    ReduceResult { head: head.to_string(), body: body.iter().map(|s| s.to_string()).collect(), token }
}

#[test]
fn header_sets_version() {
    let rs = vec![red("HEADER", &["PRAGMA", "CIRCOM", "VERSION", ";"], vec![tok("VERSION", "2.1.0", 14, 19)])];
    let ast = build_ast(rs);
    assert_eq!(ast.compiler_version, Some((2, 1, 0)));
    assert_eq!(ast.meta.get_start(), 0);
    assert_eq!(ast.meta.get_end(), 256);
    assert!(ast.definitions.is_empty());
    assert!(ast.main_component.is_none());
    assert!(!ast.custom_gates);
}

#[test]
fn template_with_signal() {
    let rs = vec![
        red("ID_OR_ARRAY", &["ID"], vec![tok("ID", "x", 30, 31)]),
        red("SIGNAL_STMT", &["SIGNAL", "INPUT", "ID_OR_ARRAY", ";"], vec![
            tok("SEMICOLON", ";", 31, 32),
            tok("INPUT", "input", 24, 29),
            tok("SIGNAL", "signal", 17, 23),
        ]),
        red("STMTS", &["STMT"], vec![]),
        red("TEMPLATE_STMT", &["TEMPLATE", "ID", "(", ")", "{", "STMTS", "}"], vec![
            tok("RBRACE", "}", 33, 34),
            tok("LBRACE", "{", 15, 16),
            tok("ID", "T", 9, 10),
            tok("TEMPLATE", "template", 0, 8),
        ]),
        red("PROGRAM", &["PROG"], vec![]),
        red("ID_OR_ARRAY", &["ID"], vec![]),
    ];
    let ast = try_build_ast(&rs).expect("the reductions can be applied");
    assert_eq!(ast.definitions.len(), 1);
    match &ast.definitions[0] {
        Definition::Template { meta, name, args, body, parallel, is_custom_gate, .. } => {
            assert_eq!(name, "T");
            assert!(args.is_empty());
            assert_eq!((meta.start, meta.end), (0, 34));
            assert!(!parallel && !is_custom_gate);
            match body {
                Statement::Block { meta, stmts } => {
                    assert_eq!((meta.start, meta.end), (16, 34));
                    assert_eq!(stmts.len(), 1);
                    match &stmts[0] {
                        Statement::InitializationBlock { meta, xtype, initializations } => {
                            assert_eq!((meta.start, meta.end), (17, 32));
                            assert!(matches!(xtype, VariableType::Signal(circom_ast::ast::ast::SignalType::Input, _)));
                            match &initializations[0] {
                                Statement::Declaration { name, is_constant, .. } => {
                                    assert_eq!(name, "x");
                                    assert!(*is_constant);
                                },
                                _ => panic!("expected a declaration"),
                            }
                        },
                        _ => panic!("expected an initialization block"),
                    }
                },
                _ => panic!("expected a block"),
            }
        },
        _ => panic!("expected a template"),
    }
}

#[test]
fn expression_operation_and_call() {
    let rs = vec![
        red("ID_OR_ARRAY", &["ID"], vec![tok("ID", "a", 0, 1)]),
        red("EXPR", &["ID_OR_NUM"], vec![]),
        red("OP", &["*"], vec![tok("MULTIPLY", "*", 2, 3)]),
        red("ID_OR_NUM", &["NUM"], vec![tok("NUM", "7", 4, 5)]),
        red("EXPR", &["EXPR", "OP", "ID_OR_NUM"], vec![]),
        red("ID_OR_ARRAY", &["ID"], vec![tok("ID", "r", 0, 1)]),
        red("ASSIGN", &["="], vec![tok("ASSIGN", "+=", 2, 4)]),
    ];
    let ast = try_build_ast(&rs).expect("the reductions can be applied");
    assert!(ast.definitions.is_empty());
}

#[test]
fn unusable_reduction_is_refused() {
    let rs = vec![red("SIGNAL_STMT", &["SIGNAL", "ID_OR_ARRAY", ";"], vec![tok("SIGNAL", "signal", 0, 6)])];
    assert!(try_build_ast(&rs).is_none());
}

#[test]
fn main_component_call() {
    let rs = vec![
        red("ID_OR_NUM", &["NUM"], vec![tok("NUM", "3", 30, 31)]),
        red("PARAM", &["ID_OR_NUM"], vec![]),
        red("COMPONENT_BLOCK", &["COMPONENT", "MAIN", "=", "ID", "(", "PARAM", ")", ";"], vec![
            tok("SEMICOLON", ";", 32, 33),
            tok("ID", "Main", 20, 24),
            tok("COMPONENT", "component", 0, 9),
        ]),
    ];
    let ast = try_build_ast(&rs).expect("the reductions can be applied");
    assert_eq!(ast.meta.get_end(), 33);
    match &ast.main_component {
        Some((public, Expression::Call { id, args, meta })) => {
            assert!(public.is_empty());
            assert_eq!(id, "Main");
            assert_eq!((meta.start, meta.end), (0, 33));
            assert_eq!(args.len(), 1);
            match &args[0] {
                Expression::Number(m, n) => {
                    assert_eq!(n.data, vec![3i128]);
                    assert_eq!((m.start, m.end), (30, 31));
                },
                _ => panic!("expected a number"),
            }
        },
        _ => panic!("expected a call"),
    }
}

#[test]
fn ast_new_reads_pragmas() {
    let pragmas = vec![
        Pragma::Unrecognized,
        Pragma::Version(Meta::new(0, 1), 0, (2, 1, 6)),
        Pragma::CustomGates(Meta::new(0, 1), 0),
        Pragma::Version(Meta::new(0, 1), 0, (1, 0, 0)),
    ];
    let ast = AST::new(Meta::new(0, 10), pragmas, vec![], vec![], None);
    assert_eq!(ast.compiler_version, Some((2, 1, 6)));
    assert!(ast.custom_gates);
    assert!(!ast.custom_gates_declared);
}

#[test]
fn type_knowledge_set_then_get() {
    let mut t = TypeKnowledge::new();
    t.set_reduces_to(TypeReduction::Signal);
    assert_eq!(t.get_reduces_to(), TypeReduction::Signal);
    assert!(t.is_signal());
    assert!(!t.is_var());
}

#[test]
fn memory_knowledge_full_length_is_product() {
    let mut m = MemoryKnowledge::new();
    m.set_concrete_dimensions(vec![2, 3, 4]);
    assert_eq!(m.get_full_length(), 24);
    assert_eq!(m.get_concrete_dimensions(), &[2, 3, 4]);
    m.set_abstract_memory_address(7);
    assert_eq!(m.get_abstract_memory_address(), 7);
}

#[test]
fn meta_location() {
    let mut m = Meta::new(3, 9);
    assert_eq!((m.get_start(), m.get_end()), (3, 9));
    m.change_location(4..5, Some(2));
    assert_eq!(m.file_location(), 4..5);
    assert_eq!(m.get_file_id(), 2);
}

#[test]
fn meta_knowledge_through_references() {
    let mut m = Meta::new(0, 1);
    assert_eq!(m.get_type_knowledge().reduces_to_known(), None);
    m.get_mut_type_knowledge().set_reduces_to(TypeReduction::Component);
    assert!(m.get_type_knowledge().is_component());
    assert!(!m.get_type_knowledge().is_tag());
    m.get_mut_memory_knowledge().set_abstract_memory_address(11);
    assert_eq!(m.get_memory_knowledge().get_abstract_memory_address(), 11);
    assert_eq!(m.get_memory_knowledge().known_full_length(), None);
    m.set_file_id(5);
    assert_eq!(m.get_file_id(), 5);
    assert_eq!((m.get_start(), m.get_end()), (0, 1));
}

#[test]
fn type_knowledge_tag() {
    let mut t = TypeKnowledge::default();
    assert_eq!(t.reduces_to_known(), None);
    t.set_reduces_to(TypeReduction::Tag);
    assert!(t.is_tag());
    assert!(!t.is_component());
}

#[test]
fn nothing_after_program_is_read() {
    let head = vec![
        red("HEADER", &["PRAGMA", "CIRCOM", "VERSION", ";"], vec![tok("VERSION", "2.0.3", 14, 19)]),
        red("PROGRAM", &["PROG"], vec![]),
    ];
    let mut longer = vec![
        red("HEADER", &["PRAGMA", "CIRCOM", "VERSION", ";"], vec![tok("VERSION", "2.0.3", 14, 19)]),
        red("PROGRAM", &["PROG"], vec![]),
    ];
    longer.push(red("SIGNAL_STMT", &["SIGNAL", "ID_OR_ARRAY", ";"], vec![]));
    longer.push(red("HEADER", &["PRAGMA", "CIRCOM", "VERSION", ";"], vec![tok("VERSION", "9.9.9", 0, 5)]));
    let a = try_build_ast(&head).expect("the reductions can be applied");
    let b = try_build_ast(&longer).expect("what follows PROGRAM is not read");
    assert_eq!(a.compiler_version, b.compiler_version);
    assert_eq!(b.compiler_version, Some((2, 0, 3)));
    assert_eq!((a.custom_gates, a.custom_gates_declared), (b.custom_gates, b.custom_gates_declared));
    assert_eq!(a.includes, b.includes);
    assert_eq!((a.definitions.len(), b.definitions.len()), (0, 0));
    assert!(a.main_component.is_none() && b.main_component.is_none());
    assert_eq!((a.meta.get_start(), a.meta.get_end()), (b.meta.get_start(), b.meta.get_end()));
}

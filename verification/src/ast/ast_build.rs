//! Builds the syntax tree from the parser's reductions, in the order the
//! parser made them. A set of stacks holds the pieces read so far: each
//! reduction takes the pieces it stands for off the stacks and pushes what it
//! builds of them.
use vstd::prelude::*;
use crate::text::{chars_of, parse_i128, parse_i128_str, parse_usize, parse_usize_str, split_char, split_char_ranges, string_of_range, views};
use crate::text::{all_digits, decimal, find_char, lemma_decimal_digits, lemma_find_char_exact, lemma_parse_decimal};
use crate::lexer::token::Token;
use crate::parser::lr1::ReduceResult;
use crate::ast::ast::{
    AssignOp, Definition, Expression, ExpressionInfixOpcode, MainComponent, Meta, Num, Sign, SignalType, Statement,
    VariableType, Version, AST, Pragma, first_version, declares_custom_gates, has_custom_gate,
};

verus! {

/// The version written `s`: its first three `.`-separated parts read as numbers.
pub open spec fn version_of(s: Seq<char>) -> Option<Version> {
    let p = split_char(s, '.');
    if p.len() >= 3 && parse_usize(p[0]) is Some && parse_usize(p[1]) is Some && parse_usize(p[2]) is Some {
        Some((parse_usize(p[0])->Some_0, parse_usize(p[1])->Some_0, parse_usize(p[2])->Some_0))
    } else {
        None
    }
}

/// Text of digits only holds no `.`, so splitting it at `.` keeps it whole.
proof fn lemma_split_digits(d: Seq<char>)
    requires
        all_digits(d),
    ensures
        split_char(d, '.') == seq![d],
        find_char(d, '.') is None,
{
    assert forall|j: int| 0 <= j < d.len() implies #[trigger] d[j] != '.' by {
        assert('0' <= d[j] <= '9');
    }
    lemma_find_char_exact(d, '.', d.len() as int);
}

/// `a.rest` with `a` made of digits splits at `.` into `a` and the parts of `rest`.
proof fn lemma_split_after_digits(a: Seq<char>, rest: Seq<char>)
    requires
        all_digits(a),
    ensures
        split_char(a + seq!['.'] + rest, '.') == seq![a] + split_char(rest, '.'),
{
    let x = a + seq!['.'] + rest;
    assert forall|j: int| 0 <= j < a.len() implies #[trigger] x[j] != '.' by {
        assert(x[j] == a[j]);
        assert('0' <= a[j] <= '9');
    }
    assert(x[a.len() as int] == '.');
    lemma_find_char_exact(x, '.', a.len() as int);
    assert(x.take(a.len() as int) =~= a);
    assert(x.skip(a.len() + 1int) =~= rest);
}

/// A version written out as three numbers joined by `.` reads back as those
/// numbers, in order.
pub proof fn lemma_version_round_trip(major: usize, minor: usize, patch: usize)
    ensures
        version_of(decimal(major as nat) + "."@ + decimal(minor as nat) + "."@ + decimal(patch as nat)) == Some(
            (major, minor, patch),
        ),
{
    reveal_strlit(".");
    assert("."@ =~= seq!['.']);
    let a = decimal(major as nat);
    let b = decimal(minor as nat);
    let c = decimal(patch as nat);
    lemma_decimal_digits(major as nat);
    lemma_decimal_digits(minor as nat);
    lemma_decimal_digits(patch as nat);
    lemma_parse_decimal(major);
    lemma_parse_decimal(minor);
    lemma_parse_decimal(patch);
    let x = a + "."@ + b + "."@ + c;
    assert(x =~= a + seq!['.'] + (b + seq!['.'] + c));
    lemma_split_after_digits(a, b + seq!['.'] + c);
    lemma_split_after_digits(b, c);
    lemma_split_digits(c);
    let p = split_char(x, '.');
    assert(p =~= seq![a, b, c]);
}

/// Reads a version `major.minor.patch`; the version must have three
/// readable parts.
pub fn process_version(version: &str) -> (r: Version)
    requires
        version_of(version@) is Some,
    ensures
        Some(r) == version_of(version@),
{
    match read_version(version) {
        Some(v) => v,
        None => (0, 0, 0),
    }
}

/// The version written `version`, if its first three parts can be read.
pub fn read_version(version: &str) -> (r: Option<Version>)
    ensures
        r == version_of(version@),
{
    let v = chars_of(version);
    let parts = split_char_ranges(&v, 0, v.len(), '.');
    proof {
        assert(v@.subrange(0, v@.len() as int) =~= version@);
        let m = parts@.map_values(|b: (usize, usize)| v@.subrange(b.0 as int, b.1 as int));
        assert(m.len() == parts@.len());
        if m.len() >= 3 {
            assert(m[0] == v@.subrange(parts@[0].0 as int, parts@[0].1 as int));
            assert(m[1] == v@.subrange(parts@[1].0 as int, parts@[1].1 as int));
            assert(m[2] == v@.subrange(parts@[2].0 as int, parts@[2].1 as int));
        }
    }
    if parts.len() < 3 {
        return None;
    }
    let s0 = string_of_range(&v, parts[0].0, parts[0].1);
    let s1 = string_of_range(&v, parts[1].0, parts[1].1);
    let s2 = string_of_range(&v, parts[2].0, parts[2].1);
    let a = match parse_usize_str(s0.as_str()) {
        Some(x) => x,
        None => {
            return None;
        },
    };
    let b = match parse_usize_str(s1.as_str()) {
        Some(x) => x,
        None => {
            return None;
        },
    };
    let c = match parse_usize_str(s2.as_str()) {
        Some(x) => x,
        None => {
            return None;
        },
    };
    Some((a, b, c))
}

/// The position of the first token of type `ty`.
pub open spec fn first_of(toks: Seq<Token>, ty: Seq<char>) -> Option<nat>
    decreases toks.len(),
{
    if toks.len() == 0 {
        None
    } else if toks[0].token_type@ == ty {
        Some(0)
    } else {
        match first_of(toks.drop_first(), ty) {
            Some(k) => Some(k + 1),
            None => None,
        }
    }
}

/// The first token of type `ty`.
pub open spec fn tok_of(toks: Seq<Token>, ty: Seq<char>) -> Token {
    toks[first_of(toks, ty)->Some_0 as int]
}

/// `toks` holds a token of type `ty`.
pub open spec fn has_tok(toks: Seq<Token>, ty: Seq<char>) -> bool {
    first_of(toks, ty) is Some
}

proof fn lemma_first_of(toks: Seq<Token>, ty: Seq<char>)
    ensures
        match first_of(toks, ty) {
            Some(k) => k < toks.len() && toks[k as int].token_type@ == ty && forall|j: int|
                0 <= j < k ==> (#[trigger] toks[j]).token_type@ != ty,
            None => forall|j: int| 0 <= j < toks.len() ==> (#[trigger] toks[j]).token_type@ != ty,
        },
    decreases toks.len(),
{
    if toks.len() > 0 && toks[0].token_type@ != ty {
        lemma_first_of(toks.drop_first(), ty);
        assert forall|j: int| 0 < j < toks.len() implies toks[j] == toks.drop_first()[j - 1] by {}
    }
}

proof fn lemma_first_of_exact(toks: Seq<Token>, ty: Seq<char>, k: int)
    requires
        0 <= k <= toks.len(),
        forall|j: int| 0 <= j < k ==> (#[trigger] toks[j]).token_type@ != ty,
        k < toks.len() ==> toks[k].token_type@ == ty,
    ensures
        first_of(toks, ty) == (if k < toks.len() {
            Some(k as nat)
        } else {
            None::<nat>
        }),
{
    lemma_first_of(toks, ty);
    match first_of(toks, ty) {
        Some(i) => {
            if (i as int) < k {
                assert(toks[i as int].token_type@ != ty);
            }
            if (i as int) > k {
                assert(toks[k].token_type@ == ty);
            }
        },
        None => {
            if k < toks.len() {
                assert(toks[k].token_type@ != ty);
            }
        },
    }
}

/// The position of the first token of type `ty`.
fn find_token(toks: &Vec<Token>, ty: &str) -> (r: Option<usize>)
    ensures
        match r {
            Some(k) => first_of(toks@, ty@) == Some(k as nat) && k < toks.len() && toks@[k as int].token_type@ == ty@,
            None => first_of(toks@, ty@) is None,
        },
{
    let t = crate::text::string_from(ty);
    let mut i: usize = 0;
    while i < toks.len()
        invariant
            i <= toks.len(),
            t@ == ty@,
            forall|j: int| 0 <= j < i ==> (#[trigger] toks@[j]).token_type@ != ty@,
        decreases toks.len() - i,
    {
        if toks[i].token_type == t {
            proof {
                lemma_first_of_exact(toks@, ty@, i as int);
            }
            return Some(i);
        }
        i += 1;
    }
    proof {
        lemma_first_of_exact(toks@, ty@, i as int);
    }
    None
}

/// The body of the reduction names `w`.
pub open spec fn body_has(r: ReduceResult, w: Seq<char>) -> bool {
    views(r.body@).contains(w)
}

fn body_contains(r: &ReduceResult, w: &str) -> (b: bool)
    ensures
        b == body_has(*r, w@),
{
    let t = crate::text::string_from(w);
    crate::parser::grammar::contains_string(&r.body, &t)
}

/// `new` is `old` with one element pushed.
pub open spec fn pushed<A>(old: Seq<A>, new: Seq<A>) -> bool {
    new.len() == old.len() + 1 && new.drop_last() == old
}

/// `e` is the variable named by the token `t`.
pub open spec fn var_expr(e: Expression, t: Token) -> bool {
    named_var(e, t.start, t.end, t.value)
}

/// `e` is the number written by the token `t`, read as std reads an `i128`.
pub open spec fn num_expr(e: Expression, t: Token) -> bool {
    match e {
        Expression::Number(meta, num) => meta.fresh(t.start, t.end) && num.sign == Sign::NoSign && num.data@ == seq![
            parse_i128(t.value@)->Some_0,
        ],
        _ => false,
    }
}

/// The token `t` can be read as a number.
pub open spec fn num_ok(t: Token) -> bool {
    parse_i128(t.value@) is Some
}

/// The variable named by `t`.
fn variable_of(t: &Token) -> (e: Expression)
    ensures
        var_expr(e, *t),
{
    Expression::Variable { meta: Meta::new(t.start, t.end), name: t.value.clone(), access: Vec::new() }
}

/// The number written by `t`.
fn number_of(t: &Token) -> (e: Expression)
    requires
        num_ok(*t),
    ensures
        num_expr(e, *t),
{
    let x = match parse_i128_str(t.value.as_str()) {
        Some(x) => x,
        None => 0,
    };
    let mut d: Vec<i128> = Vec::new();
    d.push(x);
    assert(d@ =~= seq![x]);
    Expression::Number(Meta::new(t.start, t.end), Num::new(Sign::NoSign, d))
}

/// The signal kind a signal declaration's body names.
pub open spec fn signal_kind(r: ReduceResult) -> SignalType {
    if body_has(r, "INPUT"@) {
        SignalType::Input
    } else if body_has(r, "OUTPUT"@) {
        SignalType::Output
    } else {
        SignalType::Intermediate
    }
}

/// `x` is a signal type of kind `k` without tags.
pub open spec fn signal_type(x: VariableType, k: SignalType) -> bool {
    match x {
        VariableType::Signal(kk, tags) => kk == k && tags@.len() == 0,
        _ => false,
    }
}

/// `s` declares the constant `name` of type `x`, spanning `start..end`.
pub open spec fn declaration(s: Statement, start: usize, end: usize, x: spec_fn(VariableType) -> bool, name: String) -> bool {
    match s {
        Statement::Declaration { meta, xtype, name: n, dimensions, is_constant } => {
            &&& meta.fresh(start, end)
            &&& x(xtype)
            &&& n == name
            &&& dimensions@.len() == 0
            &&& is_constant
        },
        _ => false,
    }
}

/// `s` declares the signal `name` of kind `k`, spanning `start..end`.
pub open spec fn signal_block(s: Statement, start: usize, end: usize, k: SignalType, name: String) -> bool {
    match s {
        Statement::InitializationBlock { meta, xtype, initializations } => {
            &&& meta.fresh(start, end)
            &&& signal_type(xtype, k)
            &&& initializations@.len() == 1
            &&& declaration(initializations@[0], start, end, |x: VariableType| signal_type(x, k), name)
        },
        _ => false,
    }
}

fn signal_type_of(k: SignalType) -> (x: VariableType)
    ensures
        signal_type(x, k),
{
    VariableType::Signal(k, Vec::new())
}

/// `signal ID;` can be read from the stacks.
pub open spec fn signal_ready(r: ReduceResult, id: Seq<Token>) -> bool {
    has_tok(r.token@, "SIGNAL"@) && has_tok(r.token@, "SEMICOLON"@) && id.len() > 0
}

/// A signal declaration keeps its kind: the block that `signal input x;`
/// leaves declares an input signal `x`, `signal output x;` an output
/// signal, and `signal x;` an intermediate one.
pub proof fn lemma_signal_declaration_kind(r: ReduceResult, id0: Seq<Token>, id1: Seq<Token>, bs0: Seq<Statement>, bs1: Seq<Statement>)
    requires
        signal_done(r, id0, id1, bs0, bs1),
    ensures
        match bs1.last() {
            Statement::InitializationBlock { xtype, .. } => match xtype {
                VariableType::Signal(k, _) => {
                    &&& body_has(r, "INPUT"@) ==> k == SignalType::Input
                    &&& (body_has(r, "OUTPUT"@) && !body_has(r, "INPUT"@)) ==> k == SignalType::Output
                    &&& (!body_has(r, "OUTPUT"@) && !body_has(r, "INPUT"@)) ==> k == SignalType::Intermediate
                },
                _ => false,
            },
            _ => false,
        },
{
}

/// What `signal ID;` does to the stacks: the identifier leaves, the signal's
/// declaration block comes.
pub open spec fn signal_done(r: ReduceResult, id0: Seq<Token>, id1: Seq<Token>, bs0: Seq<Statement>, bs1: Seq<Statement>) -> bool {
    &&& id1 == id0.drop_last()
    &&& pushed(bs0, bs1)
    &&& signal_block(bs1.last(), tok_of(r.token@, "SIGNAL"@).start, tok_of(r.token@, "SEMICOLON"@).end, signal_kind(r), id0.last().value)
}

/// `signal ID;` with its kind.
fn process_signal_stmt(r: &ReduceResult, id_stack: &mut Vec<Token>, block_stack: &mut Vec<Statement>)
    requires
        signal_ready(*r, old(id_stack)@),
    ensures
        signal_done(*r, old(id_stack)@, final(id_stack)@, old(block_stack)@, final(block_stack)@),
{
    let si = find_token(&r.token, "SIGNAL");
    let se = find_token(&r.token, "SEMICOLON");
    let start = match si {
        Some(k) => r.token[k].start,
        None => 0,
    };
    let end = match se {
        Some(k) => r.token[k].end,
        None => 0,
    };
    let kind = if body_contains(r, "INPUT") {
        SignalType::Input
    } else if body_contains(r, "OUTPUT") {
        SignalType::Output
    } else {
        SignalType::Intermediate
    };
    let id = match id_stack.pop() {
        Some(t) => t,
        None => Token { token_type: String::new(), value: String::new(), line: 0, column: 0, start: 0, end: 0 },
    };
    let dec = Statement::Declaration {
        meta: Meta::new(start, end),
        xtype: signal_type_of(kind),
        name: id.value,
        dimensions: Vec::new(),
        is_constant: true,
    };
    let mut inits: Vec<Statement> = Vec::new();
    inits.push(dec);
    let ib = Statement::InitializationBlock { meta: Meta::new(start, end), xtype: signal_type_of(kind), initializations: inits };
    let ghost b0 = block_stack@;
    block_stack.push(ib);
    assert(block_stack@.drop_last() =~= b0);
}

/// The operator of a compound assignment `op=`.
pub open spec fn compound_op(a: Seq<char>) -> ExpressionInfixOpcode {
    if a == "+="@ {
        ExpressionInfixOpcode::Add
    } else if a == "-="@ {
        ExpressionInfixOpcode::Sub
    } else if a == "*="@ {
        ExpressionInfixOpcode::Mul
    } else if a == "/="@ {
        ExpressionInfixOpcode::Div
    } else if a == "%="@ {
        ExpressionInfixOpcode::Mod
    } else if a == "QUOTIENT_ASSIGN"@ {
        ExpressionInfixOpcode::IntDiv
    } else if a == "&="@ {
        ExpressionInfixOpcode::BitAnd
    } else if a == "BITWISE_OR_ASSIGN"@ {
        ExpressionInfixOpcode::BitOr
    } else if a == "^="@ {
        ExpressionInfixOpcode::BitXor
    } else if a == "<<="@ {
        ExpressionInfixOpcode::ShiftL
    } else if a == ">>="@ {
        ExpressionInfixOpcode::ShiftR
    } else {
        ExpressionInfixOpcode::Add
    }
}

fn eq_lit(s: &String, lit: &str) -> (b: bool)
    ensures
        b == (s@ == lit@),
{
    let t = crate::text::string_from(lit);
    *s == t
}

fn compound_op_of(a: &String) -> (op: ExpressionInfixOpcode)
    ensures
        op == compound_op(a@),
{
    if eq_lit(a, "+=") {
        ExpressionInfixOpcode::Add
    } else if eq_lit(a, "-=") {
        ExpressionInfixOpcode::Sub
    } else if eq_lit(a, "*=") {
        ExpressionInfixOpcode::Mul
    } else if eq_lit(a, "/=") {
        ExpressionInfixOpcode::Div
    } else if eq_lit(a, "%=") {
        ExpressionInfixOpcode::Mod
    } else if eq_lit(a, "QUOTIENT_ASSIGN") {
        ExpressionInfixOpcode::IntDiv
    } else if eq_lit(a, "&=") {
        ExpressionInfixOpcode::BitAnd
    } else if eq_lit(a, "BITWISE_OR_ASSIGN") {
        ExpressionInfixOpcode::BitOr
    } else if eq_lit(a, "^=") {
        ExpressionInfixOpcode::BitXor
    } else if eq_lit(a, "<<=") {
        ExpressionInfixOpcode::ShiftL
    } else if eq_lit(a, ">>=") {
        ExpressionInfixOpcode::ShiftR
    } else {
        ExpressionInfixOpcode::Add
    }
}

/// `e` is the variable `name`, spanning `start..end`.
pub open spec fn named_var(e: Expression, start: usize, end: usize, name: String) -> bool {
    match e {
        Expression::Variable { meta, name: n, access } => meta.fresh(start, end) && n == name && access@.len() == 0,
        _ => false,
    }
}

/// `e` is `name op ex`, spanning `start..end`.
pub open spec fn compound_rhe(e: Expression, start: usize, end: usize, name: String, op: ExpressionInfixOpcode, ex: Expression) -> bool {
    match e {
        Expression::InfixOp { meta, lhe, infix_op, rhe } => {
            &&& meta.fresh(start, end)
            &&& named_var(*lhe, start, end, name)
            &&& infix_op == op
            &&& *rhe == ex
        },
        _ => false,
    }
}

/// `s` assigns to the variable `name` by the assignment operator `a`
/// (`=` or a compound one) the value `ex`, spanning `start..end`.
pub open spec fn assign_stmt(s: Statement, start: usize, end: usize, name: String, a: Seq<char>, ex: Expression) -> bool {
    match s {
        Statement::Substitution { meta, var, access, op, rhe } => {
            &&& meta.fresh(start, end)
            &&& var == name
            &&& access@.len() == 0
            &&& op == AssignOp::AssignVar
            &&& if a == "="@ {
                rhe == ex
            } else {
                compound_rhe(rhe, start, end, name, compound_op(a), ex)
            }
        },
        _ => false,
    }
}

/// The statement `name a ex`, spanning `start..end`.
fn assignment(start: usize, end: usize, name: String, a: &String, ex: Expression) -> (s: Statement)
    ensures
        assign_stmt(s, start, end, name, a@, ex),
{
    if eq_lit(a, "=") {
        Statement::Substitution { meta: Meta::new(start, end), var: name, access: Vec::new(), op: AssignOp::AssignVar, rhe: ex }
    } else {
        let op = compound_op_of(a);
        let lhe = Expression::Variable { meta: Meta::new(start, end), name: name.clone(), access: Vec::new() };
        let rhe = Expression::InfixOp { meta: Meta::new(start, end), lhe: Box::new(lhe), infix_op: op, rhe: Box::new(ex) };
        Statement::Substitution { meta: Meta::new(start, end), var: name, access: Vec::new(), op: AssignOp::AssignVar, rhe }
    }
}

/// An assignment statement can be read from the stacks.
pub open spec fn assign_ready(r: ReduceResult, id: Seq<Token>, asg: Seq<Token>, ex: Seq<Expression>) -> bool {
    id.len() > 0 && has_tok(r.token@, "SEMICOLON"@) && ex.len() > 0 && asg.len() > 0
}

/// What an assignment statement does to the stacks: the identifier, the
/// operator and the value leave, the assignment comes.
pub open spec fn assign_done(
    r: ReduceResult,
    id0: Seq<Token>,
    id1: Seq<Token>,
    asg0: Seq<Token>,
    asg1: Seq<Token>,
    ex0: Seq<Expression>,
    ex1: Seq<Expression>,
    bs0: Seq<Statement>,
    bs1: Seq<Statement>,
) -> bool {
    &&& id1 == id0.drop_last()
    &&& ex1 == ex0.drop_last()
    &&& asg1 == asg0.drop_last()
    &&& pushed(bs0, bs1)
    &&& assign_stmt(bs1.last(), id0.last().start, tok_of(r.token@, "SEMICOLON"@).end, id0.last().value, asg0.last().value@, ex0.last())
}

/// A variable assignment assigns the value to the variable named: `x = e;`
/// sets `x` to `e`, and `x op= e;` sets `x` to `x op e`, with the opcode
/// of the compound operator (`x -= e` to `x - e`, and so on).
pub proof fn lemma_assignment(
    r: ReduceResult,
    id0: Seq<Token>,
    id1: Seq<Token>,
    asg0: Seq<Token>,
    asg1: Seq<Token>,
    ex0: Seq<Expression>,
    ex1: Seq<Expression>,
    bs0: Seq<Statement>,
    bs1: Seq<Statement>,
)
    requires
        assign_done(r, id0, id1, asg0, asg1, ex0, ex1, bs0, bs1),
    ensures
        bs1.len() == bs0.len() + 1,
        match bs1.last() {
            Statement::Substitution { var, op, rhe, .. } => {
                let a = asg0.last().value@;
                &&& var == id0.last().value
                &&& op == AssignOp::AssignVar
                &&& a == "="@ ==> rhe == ex0.last()
                &&& a != "="@ ==> (rhe matches Expression::InfixOp { lhe, infix_op, rhe: value, .. } && (*lhe matches Expression::Variable { name, .. } && name == id0.last().value) && infix_op == compound_op(a) && *value == ex0.last())
            },
            _ => false,
        },
{
}

/// `ID = EXPR;` or `ID op= EXPR;`.
fn process_assign_stmt(
    r: &ReduceResult,
    id_stack: &mut Vec<Token>,
    assign_stack: &mut Vec<Token>,
    expr_stack: &mut Vec<Expression>,
    block_stack: &mut Vec<Statement>,
)
    requires
        assign_ready(*r, old(id_stack)@, old(assign_stack)@, old(expr_stack)@),
    ensures
        assign_done(*r, old(id_stack)@, final(id_stack)@, old(assign_stack)@, final(assign_stack)@, old(expr_stack)@, final(expr_stack)@, old(block_stack)@, final(block_stack)@),
{
    let i = id_stack.pop().unwrap();
    let se = find_token(&r.token, "SEMICOLON");
    let end = match se {
        Some(k) => r.token[k].end,
        None => 0,
    };
    let ex = expr_stack.pop().unwrap();
    let a = assign_stack.pop().unwrap();
    let st = assignment(i.start, end, i.value, &a.value, ex);
    let ghost b0 = block_stack@;
    block_stack.push(st);
    assert(block_stack@.drop_last() =~= b0);
}


/// Takes the top `k` elements off `stack`, bottom first.
fn take_top<T>(stack: &mut Vec<T>, k: usize) -> (r: Vec<T>)
    requires
        k <= old(stack)@.len(),
    ensures
        r@ == old(stack)@.subrange(old(stack)@.len() - k, old(stack)@.len() as int),
        final(stack)@ == old(stack)@.take(old(stack)@.len() - k),
{
    let at = stack.len() - k;
    let r = stack.split_off(at);
    r
}

/// `e` is the number zero written as an empty digit list, spanning `start..end`.
pub open spec fn empty_number(e: Expression, start: usize, end: usize) -> bool {
    match e {
        Expression::Number(meta, num) => meta.fresh(start, end) && num.sign == Sign::NoSign && num.data@.len() == 0,
        _ => false,
    }
}

/// `s` gives the variable `name` the value `rhe` satisfies, spanning `start..end`.
pub open spec fn plain_subst(s: Statement, start: usize, end: usize, name: String, op: AssignOp, value: spec_fn(Expression) -> bool) -> bool {
    match s {
        Statement::Substitution { meta, var, access, op: o, rhe } => {
            &&& meta.fresh(start, end)
            &&& var == name
            &&& access@.len() == 0
            &&& o == op
            &&& value(rhe)
        },
        _ => false,
    }
}

/// A `var` definition can be read from the stacks.
pub open spec fn var_def_ready(r: ReduceResult, id: Seq<Token>, ex: Seq<Expression>) -> bool {
    id.len() > 0 && (r.body@.len() != 1 ==> ex.len() > 0)
}

/// What `ID` or `ID = EXPR` in a `var` statement does: the identifier (and
/// the value) leave; its declaration and its assignment, of zero when no
/// value is written, come on the variable stack.
pub open spec fn var_def_done(
    r: ReduceResult,
    id0: Seq<Token>,
    id1: Seq<Token>,
    ex0: Seq<Expression>,
    ex1: Seq<Expression>,
    vs0: Seq<Statement>,
    vs1: Seq<Statement>,
) -> bool {
    let i = id0.last();
    &&& id1 == id0.drop_last()
    &&& vs1.len() == vs0.len() + 2
    &&& vs1.take(vs0.len() as int) == vs0
    &&& declaration(vs1[vs0.len() as int], i.start, i.end, |x: VariableType| x is Var, i.value)
    &&& if r.body@.len() == 1 {
        &&& ex1 == ex0
        &&& plain_subst(vs1[vs0.len() as int + 1], i.start, i.end, i.value, AssignOp::AssignVar, |e: Expression| empty_number(e, i.start, i.end))
    } else {
        &&& ex1 == ex0.drop_last()
        &&& plain_subst(vs1[vs0.len() as int + 1], i.start, i.end, i.value, AssignOp::AssignVar, |e: Expression| e == ex0.last())
    }
}

/// `ID` or `ID = EXPR` in a `var` statement.
fn process_var_def(r: &ReduceResult, id_stack: &mut Vec<Token>, expr_stack: &mut Vec<Expression>, var_stack: &mut Vec<Statement>)
    requires
        var_def_ready(*r, old(id_stack)@, old(expr_stack)@),
    ensures
        var_def_done(*r, old(id_stack)@, final(id_stack)@, old(expr_stack)@, final(expr_stack)@, old(var_stack)@, final(var_stack)@),
{
    let ghost ex0 = expr_stack@;
    let ghost vs0 = var_stack@;
    let i = id_stack.pop().unwrap();
    let dec = Statement::Declaration {
        meta: Meta::new(i.start, i.end),
        xtype: VariableType::Var,
        name: i.value.clone(),
        dimensions: Vec::new(),
        is_constant: true,
    };
    var_stack.push(dec);
    let ex = if r.body.len() == 1 {
        Expression::Number(Meta::new(i.start, i.end), Num::new(Sign::NoSign, Vec::new()))
    } else {
        expr_stack.pop().unwrap()
    };
    let sub = Statement::Substitution { meta: Meta::new(i.start, i.end), var: i.value, access: Vec::new(), op: AssignOp::AssignVar, rhe: ex };
    var_stack.push(sub);
    assert(var_stack@.take(vs0.len() as int) =~= vs0);
}

/// A block of `k` declarations can be closed.
pub open spec fn block_ready(r: ReduceResult, stack: Seq<Statement>, k: usize) -> bool {
    has_tok(r.token@, "SEMICOLON"@) && k <= stack.len()
}

/// `s` is the initialization block of type `x` holding `inits`, spanning `start..end`.
pub open spec fn init_block(s: Statement, start: usize, end: usize, x: spec_fn(VariableType) -> bool, inits: Seq<Statement>) -> bool {
    match s {
        Statement::InitializationBlock { meta, xtype, initializations } => meta.fresh(start, end) && x(xtype) && initializations@ == inits,
        _ => false,
    }
}

/// What closing a `var` (or `component`) statement does: its `k`
/// declarations and assignments leave their stack, the counter goes back to
/// zero, and the initialization block holding them comes.
pub open spec fn block_done(
    r: ReduceResult,
    start: usize,
    x: spec_fn(VariableType) -> bool,
    st0: Seq<Statement>,
    st1: Seq<Statement>,
    k: usize,
    k1: usize,
    bs0: Seq<Statement>,
    bs1: Seq<Statement>,
) -> bool {
    &&& st1 == st0.take(st0.len() - k)
    &&& k1 == 0
    &&& pushed(bs0, bs1)
    &&& init_block(bs1.last(), start, tok_of(r.token@, "SEMICOLON"@).end, x, st0.subrange(st0.len() - k, st0.len() as int))
}

/// `var a, b = 1;`: the definitions read so far become one block.
fn process_var_stmt(r: &ReduceResult, var_stack: &mut Vec<Statement>, var_counter: &mut usize, var_start: &mut usize, block_stack: &mut Vec<Statement>)
    requires
        block_ready(*r, old(var_stack)@, *old(var_counter)),
    ensures
        block_done(*r, *old(var_start), |x: VariableType| x is Var, old(var_stack)@, final(var_stack)@, *old(var_counter), *final(var_counter), old(block_stack)@, final(block_stack)@),
        *final(var_start) == *old(var_start),
{
    let se = find_token(&r.token, "SEMICOLON");
    let end = match se {
        Some(k) => r.token[k].end,
        None => 0,
    };
    let inis = take_top(var_stack, *var_counter);
    *var_counter = 0;
    let ib = Statement::InitializationBlock { meta: Meta::new(*var_start, end), xtype: VariableType::Var, initializations: inis };
    let ghost b0 = block_stack@;
    block_stack.push(ib);
    assert(block_stack@.drop_last() =~= b0);
}

/// A `component` definition can be read from the stacks.
pub open spec fn comp_def_ready(r: ReduceResult, id: Seq<Token>, ex: Seq<Expression>, counter: usize) -> bool {
    id.len() > 0 && (r.body@.len() != 1 ==> ex.len() > 0) && counter + 2 <= usize::MAX
}

/// What `ID` or `ID = EXPR` in a `component` statement does: the identifier
/// (and the value) leave; the declaration (and the assignment) come on the
/// component stack, counted.
pub open spec fn comp_def_done(
    r: ReduceResult,
    id0: Seq<Token>,
    id1: Seq<Token>,
    ex0: Seq<Expression>,
    ex1: Seq<Expression>,
    cs0: Seq<Statement>,
    cs1: Seq<Statement>,
    c0: usize,
    c1: usize,
) -> bool {
    let i = id0.last();
    &&& id1 == id0.drop_last()
    &&& cs1.take(cs0.len() as int) == cs0
    &&& declaration(cs1[cs0.len() as int], i.start, i.end, |x: VariableType| x is Component, i.value)
    &&& if r.body@.len() == 1 {
        &&& ex1 == ex0
        &&& cs1.len() == cs0.len() + 1
        &&& c1 == c0 + 1
    } else {
        &&& ex1 == ex0.drop_last()
        &&& cs1.len() == cs0.len() + 2
        &&& c1 == c0 + 2
        &&& plain_subst(cs1[cs0.len() as int + 1], i.start, i.end, i.value, AssignOp::AssignVar, |e: Expression| e == ex0.last())
    }
}

/// `ID` or `ID = EXPR` in a `component` statement.
fn process_comp_def(r: &ReduceResult, id_stack: &mut Vec<Token>, expr_stack: &mut Vec<Expression>, comp_stack: &mut Vec<Statement>, comp_counter: &mut usize)
    requires
        comp_def_ready(*r, old(id_stack)@, old(expr_stack)@, *old(comp_counter)),
    ensures
        comp_def_done(*r, old(id_stack)@, final(id_stack)@, old(expr_stack)@, final(expr_stack)@, old(comp_stack)@, final(comp_stack)@, *old(comp_counter), *final(comp_counter)),
{
    let ghost cs0 = comp_stack@;
    let i = id_stack.pop().unwrap();
    let dec = Statement::Declaration {
        meta: Meta::new(i.start, i.end),
        xtype: VariableType::Component,
        name: i.value.clone(),
        dimensions: Vec::new(),
        is_constant: true,
    };
    comp_stack.push(dec);
    *comp_counter += 1;
    if r.body.len() != 1 {
        let ex = expr_stack.pop().unwrap();
        let sub = Statement::Substitution { meta: Meta::new(i.start, i.end), var: i.value, access: Vec::new(), op: AssignOp::AssignVar, rhe: ex };
        comp_stack.push(sub);
        *comp_counter += 1;
    }
    assert(comp_stack@.take(cs0.len() as int) =~= cs0);
}

/// `component a = A(), b;`: the definitions read so far become one block.
fn process_comp_stmt(r: &ReduceResult, comp_stack: &mut Vec<Statement>, comp_counter: &mut usize, comp_start: &mut usize, block_stack: &mut Vec<Statement>)
    requires
        block_ready(*r, old(comp_stack)@, *old(comp_counter)),
    ensures
        block_done(*r, *old(comp_start), |x: VariableType| x is Component, old(comp_stack)@, final(comp_stack)@, *old(comp_counter), *final(comp_counter), old(block_stack)@, final(block_stack)@),
        *final(comp_start) == *old(comp_start),
{
    let se = find_token(&r.token, "SEMICOLON");
    let end = match se {
        Some(k) => r.token[k].end,
        None => 0,
    };
    let inis = take_top(comp_stack, *comp_counter);
    *comp_counter = 0;
    let ib = Statement::InitializationBlock { meta: Meta::new(*comp_start, end), xtype: VariableType::Component, initializations: inis };
    let ghost b0 = block_stack@;
    block_stack.push(ib);
    assert(block_stack@.drop_last() =~= b0);
}

/// A `return` statement can be read from the stacks.
pub open spec fn ret_ready(r: ReduceResult, ex: Seq<Expression>) -> bool {
    has_tok(r.token@, "RETURN"@) && has_tok(r.token@, "SEMICOLON"@) && ex.len() > 0
}

/// What `return EXPR;` does: the value leaves, the return statement comes.
pub open spec fn ret_done(r: ReduceResult, ex0: Seq<Expression>, ex1: Seq<Expression>, bs0: Seq<Statement>, bs1: Seq<Statement>) -> bool {
    &&& ex1 == ex0.drop_last()
    &&& pushed(bs0, bs1)
    &&& match bs1.last() {
        Statement::Return { meta, value } => meta.fresh(tok_of(r.token@, "RETURN"@).start, tok_of(r.token@, "SEMICOLON"@).end) && value == ex0.last(),
        _ => false,
    }
}

/// `return EXPR;`.
fn process_ret_stmt(r: &ReduceResult, expr_stack: &mut Vec<Expression>, block_stack: &mut Vec<Statement>)
    requires
        ret_ready(*r, old(expr_stack)@),
    ensures
        ret_done(*r, old(expr_stack)@, final(expr_stack)@, old(block_stack)@, final(block_stack)@),
{
    let start = match find_token(&r.token, "RETURN") {
        Some(k) => r.token[k].start,
        None => 0,
    };
    let end = match find_token(&r.token, "SEMICOLON") {
        Some(k) => r.token[k].end,
        None => 0,
    };
    let ex = expr_stack.pop().unwrap();
    let ghost b0 = block_stack@;
    block_stack.push(Statement::Return { meta: Meta::new(start, end), value: ex });
    assert(block_stack@.drop_last() =~= b0);
}

/// The assignment operator of a constraint operator.
pub open spec fn constraint_op(o: Seq<char>) -> AssignOp {
    if o == "==="@ || o == "<=="@ || o == "==>"@ {
        AssignOp::AssignConstraintSignal
    } else {
        AssignOp::AssignSignal
    }
}

/// A signal assignment can be read from the stacks.
pub open spec fn c_assign_ready(r: ReduceResult, id: Seq<Token>, ex: Seq<Expression>, ops: Seq<Token>) -> bool {
    has_tok(r.token@, "SEMICOLON"@) && id.len() > 0 && ex.len() > 0 && ops.len() > 0
}

/// What `ID <== EXPR;` (or another signal operator) does: the identifier, the
/// value and the operator leave, the signal assignment comes.
pub open spec fn c_assign_done(
    r: ReduceResult,
    id0: Seq<Token>,
    id1: Seq<Token>,
    ex0: Seq<Expression>,
    ex1: Seq<Expression>,
    op0: Seq<Token>,
    op1: Seq<Token>,
    bs0: Seq<Statement>,
    bs1: Seq<Statement>,
) -> bool {
    let i = id0.last();
    &&& id1 == id0.drop_last()
    &&& ex1 == ex0.drop_last()
    &&& op1 == op0.drop_last()
    &&& pushed(bs0, bs1)
    &&& plain_subst(bs1.last(), i.start, tok_of(r.token@, "SEMICOLON"@).end, i.value, constraint_op(op0.last().value@), |e: Expression| e == ex0.last())
}

/// A signal assignment keeps the kind of its operator: the statement it
/// leaves is a substitution of the signal, whose operator is a constraint
/// (`AssignConstraintSignal`) exactly when the operator token is `<==`,
/// `==>` or `===`; `<--` and `-->` give a plain `AssignSignal`.
pub proof fn lemma_signal_assignment_op(
    r: ReduceResult,
    id0: Seq<Token>,
    id1: Seq<Token>,
    ex0: Seq<Expression>,
    ex1: Seq<Expression>,
    op0: Seq<Token>,
    op1: Seq<Token>,
    bs0: Seq<Statement>,
    bs1: Seq<Statement>,
)
    requires
        c_assign_done(r, id0, id1, ex0, ex1, op0, op1, bs0, bs1),
    ensures
        bs1.len() == bs0.len() + 1,
        match bs1.last() {
            Statement::Substitution { var, op, .. } => {
                let o = op0.last().value@;
                &&& var == id0.last().value
                &&& (op == AssignOp::AssignConstraintSignal <==> (o == "<=="@ || o == "==>"@ || o == "==="@))
                &&& (o == "<--"@ || o == "-->"@) ==> op == AssignOp::AssignSignal
                &&& (op == AssignOp::AssignConstraintSignal || op == AssignOp::AssignSignal)
            },
            _ => false,
        },
{
    reveal_strlit("<==");
    reveal_strlit("==>");
    reveal_strlit("===");
    reveal_strlit("<--");
    reveal_strlit("-->");
    let o = op0.last().value@;
    if o == "<--"@ {
        assert(o[0] != "<=="@[0] || o[1] != "<=="@[1]);
        assert(o != "==>"@ && o != "==="@) by {
            assert(o[0] != "==>"@[0]);
            assert(o[0] != "==="@[0]);
        }
        assert(o != "<=="@) by {
            assert(o[1] != "<=="@[1]);
        }
    }
    if o == "-->"@ {
        assert(o != "==>"@ && o != "==="@ && o != "<=="@) by {
            assert(o[0] != "==>"@[0]);
            assert(o[0] != "==="@[0]);
            assert(o[0] != "<=="@[0]);
        }
    }
}

/// `ID <== EXPR;` and the other signal operators.
fn process_c_assign_stmt(r: &ReduceResult, id_stack: &mut Vec<Token>, expr_stack: &mut Vec<Expression>, block_stack: &mut Vec<Statement>, op_stack: &mut Vec<Token>)
    requires
        c_assign_ready(*r, old(id_stack)@, old(expr_stack)@, old(op_stack)@),
    ensures
        c_assign_done(*r, old(id_stack)@, final(id_stack)@, old(expr_stack)@, final(expr_stack)@, old(op_stack)@, final(op_stack)@, old(block_stack)@, final(block_stack)@),
{
    let end = match find_token(&r.token, "SEMICOLON") {
        Some(k) => r.token[k].end,
        None => 0,
    };
    let i = id_stack.pop().unwrap();
    let ex = expr_stack.pop().unwrap();
    let op = op_stack.pop().unwrap();
    let aop = if eq_lit(&op.value, "===") || eq_lit(&op.value, "<==") || eq_lit(&op.value, "==>") {
        AssignOp::AssignConstraintSignal
    } else {
        AssignOp::AssignSignal
    };
    let ghost b0 = block_stack@;
    block_stack.push(Statement::Substitution { meta: Meta::new(i.start, end), var: i.value, access: Vec::new(), op: aop, rhe: ex });
    assert(block_stack@.drop_last() =~= b0);
}

/// The comparison of a relation operator.
pub open spec fn relation_op(o: Seq<char>) -> ExpressionInfixOpcode {
    if o == "=="@ {
        ExpressionInfixOpcode::Eq
    } else if o == "!="@ {
        ExpressionInfixOpcode::NotEq
    } else if o == "<"@ {
        ExpressionInfixOpcode::Lesser
    } else if o == "<="@ {
        ExpressionInfixOpcode::LesserEq
    } else if o == ">"@ {
        ExpressionInfixOpcode::Greater
    } else if o == ">="@ {
        ExpressionInfixOpcode::GreaterEq
    } else {
        ExpressionInfixOpcode::Eq
    }
}

/// The operator texts that compound_op reads.
pub open spec fn compound_operators() -> Seq<Seq<char>> {
    seq!["+="@, "-="@, "*="@, "/="@, "%="@, "QUOTIENT_ASSIGN"@, "&="@, "BITWISE_OR_ASSIGN"@, "^="@, "<<="@, ">>="@]
}

/// A compound assignment `x op= e` keeps its operator: `+=` adds, `-=`
/// subtracts, `*=` multiplies, `/=` divides, `%=` takes the remainder,
/// `QUOTIENT_ASSIGN` divides whole numbers, `&=`, `BITWISE_OR_ASSIGN` and
/// `^=` are the bitwise and, or and exclusive or, `<<=` and `>>=` shift; no
/// two give the same opcode.
pub proof fn lemma_compound_opcodes()
    ensures
        compound_op("+="@) == ExpressionInfixOpcode::Add,
        compound_op("-="@) == ExpressionInfixOpcode::Sub,
        compound_op("*="@) == ExpressionInfixOpcode::Mul,
        compound_op("/="@) == ExpressionInfixOpcode::Div,
        compound_op("%="@) == ExpressionInfixOpcode::Mod,
        compound_op("QUOTIENT_ASSIGN"@) == ExpressionInfixOpcode::IntDiv,
        compound_op("&="@) == ExpressionInfixOpcode::BitAnd,
        compound_op("BITWISE_OR_ASSIGN"@) == ExpressionInfixOpcode::BitOr,
        compound_op("^="@) == ExpressionInfixOpcode::BitXor,
        compound_op("<<="@) == ExpressionInfixOpcode::ShiftL,
        compound_op(">>="@) == ExpressionInfixOpcode::ShiftR,
        forall|a: int, b: int|
            0 <= a < compound_operators().len() && 0 <= b < compound_operators().len() && compound_op(#[trigger] compound_operators()[a]) == compound_op(#[trigger] compound_operators()[b]) ==> a == b,
{
    reveal_strlit("+=");
    assert("+="@.len() == 2 && "+="@[0] == '+');
    reveal_strlit("-=");
    assert("-="@.len() == 2 && "-="@[0] == '-');
    reveal_strlit("*=");
    assert("*="@.len() == 2 && "*="@[0] == '*');
    reveal_strlit("/=");
    assert("/="@.len() == 2 && "/="@[0] == '/');
    reveal_strlit("%=");
    assert("%="@.len() == 2 && "%="@[0] == '%');
    reveal_strlit("QUOTIENT_ASSIGN");
    assert("QUOTIENT_ASSIGN"@.len() == 15 && "QUOTIENT_ASSIGN"@[0] == 'Q');
    reveal_strlit("&=");
    assert("&="@.len() == 2 && "&="@[0] == '&');
    reveal_strlit("BITWISE_OR_ASSIGN");
    assert("BITWISE_OR_ASSIGN"@.len() == 17 && "BITWISE_OR_ASSIGN"@[0] == 'B');
    reveal_strlit("^=");
    assert("^="@.len() == 2 && "^="@[0] == '^');
    reveal_strlit("<<=");
    assert("<<="@.len() == 3 && "<<="@[0] == '<');
    reveal_strlit(">>=");
    assert(">>="@.len() == 3 && ">>="@[0] == '>');
    let ops = compound_operators();
    assert(ops.len() == 11);
    assert(ops[0] == "+="@);
    assert(ops[1] == "-="@);
    assert(ops[2] == "*="@);
    assert(ops[3] == "/="@);
    assert(ops[4] == "%="@);
    assert(ops[5] == "QUOTIENT_ASSIGN"@);
    assert(ops[6] == "&="@);
    assert(ops[7] == "BITWISE_OR_ASSIGN"@);
    assert(ops[8] == "^="@);
    assert(ops[9] == "<<="@);
    assert(ops[10] == ">>="@);
}

/// The operator texts that relation_op reads.
pub open spec fn relation_operators() -> Seq<Seq<char>> {
    seq!["=="@, "!="@, "<"@, "<="@, ">"@, ">="@]
}

/// A comparison keeps its relation: `==` equal, `!=` not equal, `<` less,
/// `<=` at most, `>` greater, `>=` at least; no two give the same opcode.
pub proof fn lemma_relation_opcodes()
    ensures
        relation_op("=="@) == ExpressionInfixOpcode::Eq,
        relation_op("!="@) == ExpressionInfixOpcode::NotEq,
        relation_op("<"@) == ExpressionInfixOpcode::Lesser,
        relation_op("<="@) == ExpressionInfixOpcode::LesserEq,
        relation_op(">"@) == ExpressionInfixOpcode::Greater,
        relation_op(">="@) == ExpressionInfixOpcode::GreaterEq,
        forall|a: int, b: int|
            0 <= a < relation_operators().len() && 0 <= b < relation_operators().len() && relation_op(#[trigger] relation_operators()[a]) == relation_op(#[trigger] relation_operators()[b]) ==> a == b,
{
    reveal_strlit("==");
    assert("=="@.len() == 2 && "=="@[0] == '=');
    reveal_strlit("!=");
    assert("!="@.len() == 2 && "!="@[0] == '!');
    reveal_strlit("<");
    assert("<"@.len() == 1 && "<"@[0] == '<');
    reveal_strlit("<=");
    assert("<="@.len() == 2 && "<="@[0] == '<');
    reveal_strlit(">");
    assert(">"@.len() == 1 && ">"@[0] == '>');
    reveal_strlit(">=");
    assert(">="@.len() == 2 && ">="@[0] == '>');
    let ops = relation_operators();
    assert(ops.len() == 6);
    assert(ops[0] == "=="@);
    assert(ops[1] == "!="@);
    assert(ops[2] == "<"@);
    assert(ops[3] == "<="@);
    assert(ops[4] == ">"@);
    assert(ops[5] == ">="@);
}

/// `e` is `l op r`, spanning `start..end`.
pub open spec fn infix(e: Expression, start: usize, end: usize, l: Expression, op: ExpressionInfixOpcode, r: Expression) -> bool {
    match e {
        Expression::InfixOp { meta, lhe, infix_op, rhe } => meta.fresh(start, end) && *lhe == l && infix_op == op && *rhe == r,
        _ => false,
    }
}

/// A condition can be read from the stacks.
pub open spec fn cond_ready(ex: Seq<Expression>, rel: Seq<Token>) -> bool {
    ex.len() >= 2 && rel.len() > 0
}

/// What `EXPR REL EXPR` does: the two values and the relation leave, the
/// comparison comes on the condition stack.
pub open spec fn cond_done(ex0: Seq<Expression>, ex1: Seq<Expression>, rel0: Seq<Token>, rel1: Seq<Token>, cs0: Seq<Expression>, cs1: Seq<Expression>) -> bool {
    let rel = rel0.last();
    &&& ex1 == ex0.take(ex0.len() - 2)
    &&& rel1 == rel0.drop_last()
    &&& pushed(cs0, cs1)
    &&& infix(cs1.last(), rel.start, rel.end, ex0[ex0.len() - 2], relation_op(rel.value@), ex0.last())
}

/// A condition `a rel b` compares its two values in their order: the value
/// read first is the left side, the one read last the right side, and the
/// relation's text decides the comparison.
pub proof fn lemma_condition(ex0: Seq<Expression>, ex1: Seq<Expression>, rel0: Seq<Token>, rel1: Seq<Token>, cs0: Seq<Expression>, cs1: Seq<Expression>)
    requires
        cond_done(ex0, ex1, rel0, rel1, cs0, cs1),
        ex0.len() >= 2,
    ensures
        ex1.len() + 2 == ex0.len(),
        cs1.len() == cs0.len() + 1,
        match cs1.last() {
            Expression::InfixOp { lhe, infix_op, rhe, .. } => *lhe == ex0[ex0.len() - 2] && *rhe == ex0[ex0.len() - 1]
                && infix_op == relation_op(rel0.last().value@),
            _ => false,
        },
{
}

fn relation_op_of(o: &String) -> (op: ExpressionInfixOpcode)
    ensures
        op == relation_op(o@),
{
    if eq_lit(o, "==") {
        ExpressionInfixOpcode::Eq
    } else if eq_lit(o, "!=") {
        ExpressionInfixOpcode::NotEq
    } else if eq_lit(o, "<") {
        ExpressionInfixOpcode::Lesser
    } else if eq_lit(o, "<=") {
        ExpressionInfixOpcode::LesserEq
    } else if eq_lit(o, ">") {
        ExpressionInfixOpcode::Greater
    } else if eq_lit(o, ">=") {
        ExpressionInfixOpcode::GreaterEq
    } else {
        ExpressionInfixOpcode::Eq
    }
}

/// `EXPR REL EXPR`.
fn process_cond(r: &ReduceResult, expr_stack: &mut Vec<Expression>, rel_stack: &mut Vec<Token>, cond_stack: &mut Vec<Expression>)
    requires
        cond_ready(old(expr_stack)@, old(rel_stack)@),
    ensures
        cond_done(old(expr_stack)@, final(expr_stack)@, old(rel_stack)@, final(rel_stack)@, old(cond_stack)@, final(cond_stack)@),
{
    let ghost ex0 = expr_stack@;
    let re = expr_stack.pop().unwrap();
    let le = expr_stack.pop().unwrap();
    let rel = rel_stack.pop().unwrap();
    let op = relation_op_of(&rel.value);
    let ghost c0 = cond_stack@;
    cond_stack.push(Expression::InfixOp { meta: Meta::new(rel.start, rel.end), lhe: Box::new(le), infix_op: op, rhe: Box::new(re) });
    assert(cond_stack@.drop_last() =~= c0);
    assert(expr_stack@ =~= ex0.take(ex0.len() - 2));
}

/// The expressions that parameter tokens stand for, in order: an identifier
/// a variable, a number a number; any other token stands for nothing.
pub open spec fn param_args(ps: Seq<Token>, args: Seq<Expression>) -> bool
    decreases ps.len(),
{
    if ps.len() == 0 {
        args.len() == 0
    } else {
        let p = ps.last();
        if p.token_type@ == "ID"@ {
            args.len() > 0 && var_expr(args.last(), p) && param_args(ps.drop_last(), args.drop_last())
        } else if p.token_type@ == "NUM"@ {
            args.len() > 0 && num_expr(args.last(), p) && param_args(ps.drop_last(), args.drop_last())
        } else {
            param_args(ps.drop_last(), args)
        }
    }
}

/// Every number among the parameter tokens can be read.
pub open spec fn params_readable(ps: Seq<Token>) -> bool {
    forall|i: int| 0 <= i < ps.len() && (#[trigger] ps[i]).token_type@ == "NUM"@ ==> num_ok(ps[i])
}

/// The expressions the parameter tokens `ps` stand for.
fn param_exprs(ps: &Vec<Token>) -> (args: Vec<Expression>)
    requires
        params_readable(ps@),
    ensures
        param_args(ps@, args@),
{
    let mut args: Vec<Expression> = Vec::new();
    let mut i: usize = 0;
    assert(ps@.take(0) =~= Seq::<Token>::empty());
    while i < ps.len()
        invariant
            i <= ps.len(),
            params_readable(ps@),
            param_args(ps@.take(i as int), args@),
        decreases ps.len() - i,
    {
        let ghost a0 = args@;
        let p = &ps[i];
        let ghost t = ps@.take(i + 1);
        assert(t.drop_last() =~= ps@.take(i as int));
        assert(t.last() == ps@[i as int]);
        if eq_lit(&p.token_type, "ID") {
            args.push(variable_of(p));
            assert(args@.drop_last() =~= a0);
        } else if eq_lit(&p.token_type, "NUM") {
            args.push(number_of(p));
            assert(args@.drop_last() =~= a0);
        }
        i += 1;
    }
    assert(ps@.take(ps.len() as int) =~= ps@);
    args
}

/// The operation an operator token names.
pub open spec fn infix_of(o: Seq<char>) -> ExpressionInfixOpcode {
    if o == "*"@ {
        ExpressionInfixOpcode::Mul
    } else if o == "+"@ {
        ExpressionInfixOpcode::Add
    } else if o == "-"@ {
        ExpressionInfixOpcode::Sub
    } else if o == "/"@ {
        ExpressionInfixOpcode::Div
    } else if o == "%"@ {
        ExpressionInfixOpcode::Mod
    } else if o == "QUOTIENT"@ || o == "\\"@ {
        ExpressionInfixOpcode::IntDiv
    } else if o == "&"@ {
        ExpressionInfixOpcode::BoolAnd
    } else if o == "|"@ || o == "BITWISE_OR"@ {
        ExpressionInfixOpcode::BoolOr
    } else if o == "^"@ {
        ExpressionInfixOpcode::BitXor
    } else if o == "<<"@ {
        ExpressionInfixOpcode::ShiftL
    } else if o == ">>"@ {
        ExpressionInfixOpcode::ShiftR
    } else {
        ExpressionInfixOpcode::Add
    }
}

/// The operator texts of infix expressions.
pub open spec fn infix_operators() -> Seq<Seq<char>> {
    seq!["*"@, "+"@, "-"@, "/"@, "%"@, "\\"@, "&"@, "|"@, "^"@, "<<"@, ">>"@]
}

/// Each operator keeps its meaning in the tree: `*` multiplies, `+` adds,
/// `-` subtracts, `/` divides, `%` takes the remainder, `\` divides whole
/// numbers, `&` and `|` are the boolean and and or, `^` the exclusive or,
/// `<<` and `>>` shift; and no two operators give the same opcode, so none
/// is read as another.
pub proof fn lemma_infix_opcodes()
    ensures
        infix_of("*"@) == ExpressionInfixOpcode::Mul,
        infix_of("+"@) == ExpressionInfixOpcode::Add,
        infix_of("-"@) == ExpressionInfixOpcode::Sub,
        infix_of("/"@) == ExpressionInfixOpcode::Div,
        infix_of("%"@) == ExpressionInfixOpcode::Mod,
        infix_of("\\"@) == ExpressionInfixOpcode::IntDiv,
        infix_of("&"@) == ExpressionInfixOpcode::BoolAnd,
        infix_of("|"@) == ExpressionInfixOpcode::BoolOr,
        infix_of("^"@) == ExpressionInfixOpcode::BitXor,
        infix_of("<<"@) == ExpressionInfixOpcode::ShiftL,
        infix_of(">>"@) == ExpressionInfixOpcode::ShiftR,
        forall|a: int, b: int|
            0 <= a < infix_operators().len() && 0 <= b < infix_operators().len() && infix_of(#[trigger] infix_operators()[a])
                == infix_of(#[trigger] infix_operators()[b]) ==> a == b,
{
    reveal_strlit("*");
    reveal_strlit("+");
    reveal_strlit("-");
    reveal_strlit("/");
    reveal_strlit("%");
    reveal_strlit("\\");
    reveal_strlit("QUOTIENT");
    reveal_strlit("&");
    reveal_strlit("|");
    reveal_strlit("BITWISE_OR");
    reveal_strlit("^");
    reveal_strlit("<<");
    reveal_strlit(">>");
    assert("*"@.len() == 1 && "*"@[0] == '*');
    assert("+"@.len() == 1 && "+"@[0] == '+');
    assert("-"@.len() == 1 && "-"@[0] == '-');
    assert("/"@.len() == 1 && "/"@[0] == '/');
    assert("%"@.len() == 1 && "%"@[0] == '%');
    assert("\\"@.len() == 1 && "\\"@[0] == '\\');
    assert("QUOTIENT"@.len() == 8 && "QUOTIENT"@[0] == 'Q');
    assert("&"@.len() == 1 && "&"@[0] == '&');
    assert("|"@.len() == 1 && "|"@[0] == '|');
    assert("BITWISE_OR"@.len() == 10 && "BITWISE_OR"@[0] == 'B');
    assert("^"@.len() == 1 && "^"@[0] == '^');
    assert("<<"@.len() == 2 && "<<"@[0] == '<');
    assert(">>"@.len() == 2 && ">>"@[0] == '>');
    let ops = infix_operators();
    assert(ops.len() == 11);
    assert(ops[0] == "*"@ && ops[1] == "+"@ && ops[2] == "-"@ && ops[3] == "/"@ && ops[4] == "%"@ && ops[5] == "\\"@);
    assert(ops[6] == "&"@ && ops[7] == "|"@ && ops[8] == "^"@ && ops[9] == "<<"@ && ops[10] == ">>"@);
}

fn infix_of_exec(o: &String) -> (op: ExpressionInfixOpcode)
    ensures
        op == infix_of(o@),
{
    if eq_lit(o, "*") {
        ExpressionInfixOpcode::Mul
    } else if eq_lit(o, "+") {
        ExpressionInfixOpcode::Add
    } else if eq_lit(o, "-") {
        ExpressionInfixOpcode::Sub
    } else if eq_lit(o, "/") {
        ExpressionInfixOpcode::Div
    } else if eq_lit(o, "%") {
        ExpressionInfixOpcode::Mod
    } else if eq_lit(o, "QUOTIENT") || eq_lit(o, "\\") {
        ExpressionInfixOpcode::IntDiv
    } else if eq_lit(o, "&") {
        ExpressionInfixOpcode::BoolAnd
    } else if eq_lit(o, "|") || eq_lit(o, "BITWISE_OR") {
        ExpressionInfixOpcode::BoolOr
    } else if eq_lit(o, "^") {
        ExpressionInfixOpcode::BitXor
    } else if eq_lit(o, "<<") {
        ExpressionInfixOpcode::ShiftL
    } else if eq_lit(o, ">>") {
        ExpressionInfixOpcode::ShiftR
    } else {
        ExpressionInfixOpcode::Add
    }
}

/// `e` is the operand that the token `t` stands for after an operator: a
/// variable, a number, or minus one for any other token.
pub open spec fn operand(e: Expression, t: Token) -> bool {
    if t.token_type@ == "ID"@ {
        var_expr(e, t)
    } else if t.token_type@ == "NUM"@ {
        num_expr(e, t)
    } else {
        match e {
            Expression::Number(meta, num) => meta.fresh(t.start, t.end) && num.sign == Sign::Minus && num.data@ == seq![1i128],
            _ => false,
        }
    }
}

/// `e` is the call of `name` on the arguments the parameter tokens `ps`
/// stand for, spanning `start..end`.
pub open spec fn call_expr(e: Expression, start: usize, end: usize, name: String, ps: Seq<Token>) -> bool {
    match e {
        Expression::Call { meta, id, args } => meta.fresh(start, end) && id == name && param_args(ps, args@),
        _ => false,
    }
}

/// An expression can be read from the stacks.
pub open spec fn expr_ready(r: ReduceResult, id: Seq<Token>, ex: Seq<Expression>, ops: Seq<Token>, ps: Seq<Token>, pcs: Seq<usize>) -> bool {
    if r.body@.len() == 1 {
        id.len() > 0 && (id.last().token_type@ == "NUM"@ ==> num_ok(id.last()))
    } else if body_has(r, "OP"@) {
        id.len() > 0 && (id.last().token_type@ == "NUM"@ ==> num_ok(id.last())) && ex.len() > 0 && ops.len() > 0
    } else if body_has(r, "PLUS"@) {
        true
    } else if body_has(r, "ID_OR_ARRAY"@) {
        &&& id.len() > 0
        &&& has_tok(r.token@, "RPAREN"@)
        &&& body_has(r, "PARAM"@) ==> pcs.len() > 0 && pcs.last() <= ps.len() && params_readable(ps.subrange(ps.len() - pcs.last(), ps.len() as int))
    } else {
        true
    }
}

/// What an expression does to the stacks:
/// - `ID_OR_NUM`: the token leaves, its variable or number comes;
/// - `EXPR OP ID_OR_NUM`: the token, the left operand and the operator leave,
///   the operation comes;
/// - a call `ID ( PARAM )`: the name, the parameter count and the parameters
///   leave, the call comes;
/// - otherwise nothing changes.
pub open spec fn expr_done(
    r: ReduceResult,
    id0: Seq<Token>,
    id1: Seq<Token>,
    ex0: Seq<Expression>,
    ex1: Seq<Expression>,
    op0: Seq<Token>,
    op1: Seq<Token>,
    ps0: Seq<Token>,
    ps1: Seq<Token>,
    pc0: Seq<usize>,
    pc1: Seq<usize>,
) -> bool {
    let i = id0.last();
    if r.body@.len() == 1 {
        &&& id1 == id0.drop_last()
        &&& op1 == op0 && ps1 == ps0 && pc1 == pc0
        &&& if i.token_type@ == "ID"@ {
            pushed(ex0, ex1) && var_expr(ex1.last(), i)
        } else if i.token_type@ == "NUM"@ {
            pushed(ex0, ex1) && num_expr(ex1.last(), i)
        } else {
            ex1 == ex0
        }
    } else if body_has(r, "OP"@) {
        let o = op0.last();
        &&& id1 == id0.drop_last()
        &&& op1 == op0.drop_last()
        &&& ps1 == ps0 && pc1 == pc0
        &&& ex1.len() == ex0.len()
        &&& ex1.drop_last() == ex0.drop_last()
        &&& match ex1.last() {
            Expression::InfixOp { meta, lhe, infix_op, rhe } => meta.fresh(o.start, o.end) && *lhe == ex0.last()
                && infix_op == infix_of(o.value@) && operand(*rhe, i),
            _ => false,
        }
    } else if body_has(r, "PLUS"@) {
        id1 == id0 && ex1 == ex0 && op1 == op0 && ps1 == ps0 && pc1 == pc0
    } else if body_has(r, "ID_OR_ARRAY"@) {
        let end = tok_of(r.token@, "RPAREN"@).end;
        &&& id1 == id0.drop_last()
        &&& op1 == op0
        &&& pushed(ex0, ex1)
        &&& if body_has(r, "PARAM"@) {
            let k = pc0.last();
            &&& pc1 == pc0.drop_last()
            &&& ps1 == ps0.take(ps0.len() - k)
            &&& call_expr(ex1.last(), i.start, end, i.value, ps0.subrange(ps0.len() - k, ps0.len() as int))
        } else {
            &&& pc1 == pc0 && ps1 == ps0
            &&& call_expr(ex1.last(), i.start, end, i.value, Seq::empty())
        }
    } else {
        id1 == id0 && ex1 == ex0 && op1 == op0 && ps1 == ps0 && pc1 == pc0
    }
}

/// An infix expression `e op t` keeps its parts in place: the expression
/// before the operator is the left operand, the operator's text decides the
/// opcode, and the token after it is the right operand: the number it
/// writes, or the variable it names.
pub proof fn lemma_infix_expression(
    r: ReduceResult,
    id0: Seq<Token>,
    id1: Seq<Token>,
    ex0: Seq<Expression>,
    ex1: Seq<Expression>,
    op0: Seq<Token>,
    op1: Seq<Token>,
    ps0: Seq<Token>,
    ps1: Seq<Token>,
    pc0: Seq<usize>,
    pc1: Seq<usize>,
    n: nat,
)
    requires
        expr_done(r, id0, id1, ex0, ex1, op0, op1, ps0, ps1, pc0, pc1),
        r.body@.len() != 1,
        body_has(r, "OP"@),
    ensures
        ex1.len() == ex0.len(),
        op1 == op0.drop_last(),
        match ex1.last() {
            Expression::InfixOp { lhe, infix_op, rhe, .. } => {
                &&& *lhe == ex0.last()
                &&& infix_op == infix_of(op0.last().value@)
                &&& (id0.last().token_type@ == "NUM"@ && id0.last().value@ == decimal(n) && n <= i128::MAX)
                    ==> (*rhe matches Expression::Number(_, num) && num.sign == Sign::NoSign && num.data@ == seq![n as i128])
                &&& id0.last().token_type@ == "ID"@ ==> (*rhe matches Expression::Variable { name, .. } && name
                    == id0.last().value)
            },
            _ => false,
        },
{
    crate::text::lemma_parse_signed_decimal(n);
    reveal_strlit("ID");
    reveal_strlit("NUM");
    assert("ID"@.len() != "NUM"@.len());
}

/// An expression.
fn process_expr(
    r: &ReduceResult,
    id_stack: &mut Vec<Token>,
    expr_stack: &mut Vec<Expression>,
    op_stack: &mut Vec<Token>,
    param_stack: &mut Vec<Token>,
    param_counters: &mut Vec<usize>,
)
    requires
        expr_ready(*r, old(id_stack)@, old(expr_stack)@, old(op_stack)@, old(param_stack)@, old(param_counters)@),
    ensures
        expr_done(
            *r,
            old(id_stack)@,
            final(id_stack)@,
            old(expr_stack)@,
            final(expr_stack)@,
            old(op_stack)@,
            final(op_stack)@,
            old(param_stack)@,
            final(param_stack)@,
            old(param_counters)@,
            final(param_counters)@,
        ),
{
    let ghost ex0 = expr_stack@;
    if r.body.len() == 1 {
        let i = id_stack.pop().unwrap();
        if eq_lit(&i.token_type, "ID") {
            expr_stack.push(variable_of(&i));
            assert(expr_stack@.drop_last() =~= ex0);
        } else if eq_lit(&i.token_type, "NUM") {
            expr_stack.push(number_of(&i));
            assert(expr_stack@.drop_last() =~= ex0);
        }
    } else if body_contains(r, "OP") {
        let i = id_stack.pop().unwrap();
        let lhe = expr_stack.pop().unwrap();
        let rhe = if eq_lit(&i.token_type, "ID") {
            variable_of(&i)
        } else if eq_lit(&i.token_type, "NUM") {
            number_of(&i)
        } else {
            let mut d: Vec<i128> = Vec::new();
            d.push(1);
            assert(d@ =~= seq![1i128]);
            Expression::Number(Meta::new(i.start, i.end), Num::new(Sign::Minus, d))
        };
        let op = op_stack.pop().unwrap();
        let eio = infix_of_exec(&op.value);
        expr_stack.push(Expression::InfixOp { meta: Meta::new(op.start, op.end), lhe: Box::new(lhe), infix_op: eio, rhe: Box::new(rhe) });
        assert(expr_stack@.drop_last() =~= ex0.drop_last());
    } else if body_contains(r, "PLUS") {
    } else if body_contains(r, "ID_OR_ARRAY") {
        let i = id_stack.pop().unwrap();
        let end = match find_token(&r.token, "RPAREN") {
            Some(k) => r.token[k].end,
            None => 0,
        };
        let args = if body_contains(r, "PARAM") {
            let counter = param_counters.pop().unwrap();
            let ps = take_top(param_stack, counter);
            param_exprs(&ps)
        } else {
            Vec::new()
        };
        expr_stack.push(Expression::Call { meta: Meta::new(i.start, end), id: i.value, args });
        assert(expr_stack@.drop_last() =~= ex0);
    }
}

/// The parameter names of a definition: the values of its parameter tokens.
pub open spec fn token_values(ps: Seq<Token>) -> Seq<String> {
    ps.map_values(|t: Token| t.value)
}

fn values_of(ps: &Vec<Token>) -> (r: Vec<String>)
    ensures
        r@ == token_values(ps@),
{
    let mut r: Vec<String> = Vec::new();
    let mut i: usize = 0;
    while i < ps.len()
        invariant
            i <= ps.len(),
            r@ == token_values(ps@.take(i as int)),
        decreases ps.len() - i,
    {
        r.push(ps[i].value.clone());
        i += 1;
        assert(r@ =~= token_values(ps@.take(i as int)));
    }
    assert(ps@.take(ps.len() as int) =~= ps@);
    r
}

/// A template or function definition can be closed.
pub open spec fn def_ready(r: ReduceResult, kw: Seq<char>, bs: Seq<Statement>, sc: usize, ps: Seq<Token>, pc: usize) -> bool {
    &&& has_tok(r.token@, kw)
    &&& has_tok(r.token@, "RBRACE"@)
    &&& has_tok(r.token@, "LBRACE"@)
    &&& has_tok(r.token@, "ID"@)
    &&& body_has(r, "PARAM"@) ==> pc <= ps.len()
    &&& sc <= bs.len()
}

/// `s` is the block of `stmts`, spanning `start..end`.
pub open spec fn block_of(s: Statement, start: usize, end: usize, stmts: Seq<Statement>) -> bool {
    match s {
        Statement::Block { meta, stmts: b } => meta.fresh(start, end) && b@ == stmts,
        _ => false,
    }
}

/// The parts every definition shares: its span from the keyword `kw` to the
/// closing brace, its name, its parameters and its body block.
pub open spec fn def_parts(
    r: ReduceResult,
    kw: Seq<char>,
    bs0: Seq<Statement>,
    sc: usize,
    ps0: Seq<Token>,
    pc: usize,
    meta: Meta,
    name: String,
    args: Seq<String>,
    arg_location: std::ops::Range<usize>,
    body: Statement,
) -> bool {
    let start = tok_of(r.token@, kw).start;
    let end = tok_of(r.token@, "RBRACE"@).end;
    let arg = tok_of(r.token@, "LBRACE"@).end;
    &&& meta.fresh(start, end)
    &&& name == tok_of(r.token@, "ID"@).value
    &&& args == (if body_has(r, "PARAM"@) {
        token_values(ps0.subrange(ps0.len() - pc, ps0.len() as int))
    } else {
        Seq::empty()
    })
    &&& arg_location.start == arg && arg_location.end == arg
    &&& block_of(body, arg, end, bs0.subrange(bs0.len() - sc, bs0.len() as int))
}

/// What closing a definition does to the stacks: its statements and
/// parameters leave, both counters go back to zero.
pub open spec fn def_stacks(
    r: ReduceResult,
    bs0: Seq<Statement>,
    bs1: Seq<Statement>,
    sc0: usize,
    sc1: usize,
    ps0: Seq<Token>,
    ps1: Seq<Token>,
    pc0: usize,
    pc1: usize,
) -> bool {
    &&& bs1 == bs0.take(bs0.len() - sc0)
    &&& sc1 == 0
    &&& if body_has(r, "PARAM"@) {
        ps1 == ps0.take(ps0.len() - pc0) && pc1 == 0
    } else {
        ps1 == ps0 && pc1 == pc0
    }
}

/// `d` is the function that the reduction closes.
pub open spec fn func_def(d: Definition, r: ReduceResult, bs0: Seq<Statement>, sc: usize, ps0: Seq<Token>, pc: usize) -> bool {
    match d {
        Definition::Function { meta, name, args, arg_location, body } => def_parts(r, "FUNCTION"@, bs0, sc, ps0, pc, meta, name, args@, arg_location, body),
        _ => false,
    }
}

/// `d` is the template that the reduction closes: not parallel, not a custom gate.
pub open spec fn template_def(d: Definition, r: ReduceResult, bs0: Seq<Statement>, sc: usize, ps0: Seq<Token>, pc: usize) -> bool {
    match d {
        Definition::Template { meta, name, args, arg_location, body, parallel, is_custom_gate } => def_parts(r, "TEMPLATE"@, bs0, sc, ps0, pc, meta, name, args@, arg_location, body)
            && !parallel && !is_custom_gate,
        _ => false,
    }
}

/// Reads the common parts of a definition.
fn def_common(
    r: &ReduceResult,
    kw: &str,
    block_stack: &mut Vec<Statement>,
    stmt_counter: &mut usize,
    param_stack: &mut Vec<Token>,
    param_counter: &mut usize,
) -> (res: (Meta, String, Vec<String>, std::ops::Range<usize>, Statement))
    requires
        def_ready(*r, kw@, old(block_stack)@, *old(stmt_counter), old(param_stack)@, *old(param_counter)),
    ensures
        def_parts(*r, kw@, old(block_stack)@, *old(stmt_counter), old(param_stack)@, *old(param_counter), res.0, res.1, res.2@, res.3, res.4),
        def_stacks(*r, old(block_stack)@, final(block_stack)@, *old(stmt_counter), *final(stmt_counter), old(param_stack)@, final(param_stack)@, *old(param_counter), *final(param_counter)),
{
    let start = match find_token(&r.token, kw) {
        Some(k) => r.token[k].start,
        None => 0,
    };
    let end = match find_token(&r.token, "RBRACE") {
        Some(k) => r.token[k].end,
        None => 0,
    };
    let arg = match find_token(&r.token, "LBRACE") {
        Some(k) => r.token[k].end,
        None => 0,
    };
    let name = match find_token(&r.token, "ID") {
        Some(k) => r.token[k].value.clone(),
        None => String::new(),
    };
    let args = if body_contains(r, "PARAM") {
        let ps = take_top(param_stack, *param_counter);
        *param_counter = 0;
        values_of(&ps)
    } else {
        Vec::new()
    };
    let stmts = take_top(block_stack, *stmt_counter);
    *stmt_counter = 0;
    let body = Statement::Block { meta: Meta::new(arg, end), stmts };
    (Meta::new(start, end), name, args, arg..arg, body)
}

/// `function ID ( PARAM ) { STMTS }`.
fn process_func_block(
    r: &ReduceResult,
    block_stack: &mut Vec<Statement>,
    stmt_counter: &mut usize,
    param_stack: &mut Vec<Token>,
    param_counter: &mut usize,
) -> (d: Definition)
    requires
        def_ready(*r, "FUNCTION"@, old(block_stack)@, *old(stmt_counter), old(param_stack)@, *old(param_counter)),
    ensures
        func_def(d, *r, old(block_stack)@, *old(stmt_counter), old(param_stack)@, *old(param_counter)),
        def_stacks(*r, old(block_stack)@, final(block_stack)@, *old(stmt_counter), *final(stmt_counter), old(param_stack)@, final(param_stack)@, *old(param_counter), *final(param_counter)),
{
    let (meta, name, args, arg_location, body) = def_common(r, "FUNCTION", block_stack, stmt_counter, param_stack, param_counter);
    Definition::Function { meta, name, args, arg_location, body }
}

/// `template ID ( PARAM ) { STMTS }`.
fn process_template_block(
    r: &ReduceResult,
    block_stack: &mut Vec<Statement>,
    stmt_counter: &mut usize,
    param_stack: &mut Vec<Token>,
    param_counter: &mut usize,
) -> (d: Definition)
    requires
        def_ready(*r, "TEMPLATE"@, old(block_stack)@, *old(stmt_counter), old(param_stack)@, *old(param_counter)),
    ensures
        template_def(d, *r, old(block_stack)@, *old(stmt_counter), old(param_stack)@, *old(param_counter)),
        def_stacks(*r, old(block_stack)@, final(block_stack)@, *old(stmt_counter), *final(stmt_counter), old(param_stack)@, final(param_stack)@, *old(param_counter), *final(param_counter)),
{
    let (meta, name, args, arg_location, body) = def_common(r, "TEMPLATE", block_stack, stmt_counter, param_stack, param_counter);
    Definition::Template { meta, name, args, arg_location, body, parallel: false, is_custom_gate: false }
}

/// The main component can be read.
pub open spec fn component_ready(r: ReduceResult, ps: Seq<Token>, pc: usize) -> bool {
    &&& has_tok(r.token@, "COMPONENT"@)
    &&& has_tok(r.token@, "SEMICOLON"@)
    &&& has_tok(r.token@, "ID"@)
    &&& body_has(r, "PARAM"@) ==> pc <= ps.len() && params_readable(ps.subrange(ps.len() - pc, ps.len() as int))
}

/// What `component main = ID ( PARAM );` gives: the call of the template on
/// the parameters, with no public signals; the parameters leave their stack
/// and `last` becomes the end of the statement.
pub open spec fn component_done(
    r: ReduceResult,
    ps0: Seq<Token>,
    ps1: Seq<Token>,
    pc0: usize,
    pc1: usize,
    last1: usize,
    mc: MainComponent,
) -> bool {
    let start = tok_of(r.token@, "COMPONENT"@).start;
    let end = tok_of(r.token@, "SEMICOLON"@).end;
    let name = tok_of(r.token@, "ID"@).value;
    &&& last1 == end
    &&& mc.0@.len() == 0
    &&& if body_has(r, "PARAM"@) {
        &&& ps1 == ps0.take(ps0.len() - pc0)
        &&& pc1 == 0
        &&& call_expr(mc.1, start, end, name, ps0.subrange(ps0.len() - pc0, ps0.len() as int))
    } else {
        &&& ps1 == ps0 && pc1 == pc0
        &&& call_expr(mc.1, start, end, name, Seq::empty())
    }
}

/// `component main = ID ( PARAM );`.
fn process_component_block(
    r: &ReduceResult,
    block_stack: &mut Vec<Statement>,
    last: &mut usize,
    param_stack: &mut Vec<Token>,
    param_counter: &mut usize,
) -> (mc: MainComponent)
    requires
        component_ready(*r, old(param_stack)@, *old(param_counter)),
    ensures
        component_done(*r, old(param_stack)@, final(param_stack)@, *old(param_counter), *final(param_counter), *final(last), mc),
        *final(block_stack) == *old(block_stack),
{
    let start = match find_token(&r.token, "COMPONENT") {
        Some(k) => r.token[k].start,
        None => 0,
    };
    let end = match find_token(&r.token, "SEMICOLON") {
        Some(k) => r.token[k].end,
        None => 0,
    };
    *last = end;
    let id = match find_token(&r.token, "ID") {
        Some(k) => r.token[k].value.clone(),
        None => String::new(),
    };
    let args = if body_contains(r, "PARAM") {
        let ps = take_top(param_stack, *param_counter);
        *param_counter = 0;
        param_exprs(&ps)
    } else {
        Vec::new()
    };
    proof {
        if !body_has(*r, "PARAM"@) {
            assert(args@ =~= Seq::<Expression>::empty());
        }
    }
    (Vec::new(), Expression::Call { meta: Meta::new(start, end), id, args })
}

/// The starts of the tokens of type `ty`, in order.
pub open spec fn starts_of(toks: Seq<Token>, ty: Seq<char>) -> Seq<usize>
    decreases toks.len(),
{
    if toks.len() == 0 {
        seq![]
    } else {
        let rest = starts_of(toks.drop_last(), ty);
        if toks.last().token_type@ == ty {
            rest.push(toks.last().start)
        } else {
            rest
        }
    }
}

/// The ends of the tokens of type `ty`, in order.
pub open spec fn ends_of(toks: Seq<Token>, ty: Seq<char>) -> Seq<usize>
    decreases toks.len(),
{
    if toks.len() == 0 {
        seq![]
    } else {
        let rest = ends_of(toks.drop_last(), ty);
        if toks.last().token_type@ == ty {
            rest.push(toks.last().end)
        } else {
            rest
        }
    }
}

/// The position of the first smallest element.
pub open spec fn min_index(s: Seq<usize>) -> int
    decreases s.len(),
{
    if s.len() <= 1 {
        0
    } else {
        let k = min_index(s.drop_last());
        if s.last() < s[k] {
            s.len() - 1
        } else {
            k
        }
    }
}

/// The smallest element.
pub open spec fn smallest(s: Seq<usize>) -> usize {
    s[min_index(s)]
}

/// The second element of `s` sorted.
pub open spec fn second_smallest(s: Seq<usize>) -> usize {
    smallest(s.remove(min_index(s)))
}

/// The largest element, or 0 for none.
pub open spec fn largest(s: Seq<usize>) -> usize
    decreases s.len(),
{
    if s.len() == 0 {
        0
    } else {
        let m = largest(s.drop_last());
        if s.last() > m {
            s.last()
        } else {
            m
        }
    }
}

/// The starts or ends of the tokens of type `ty`.
fn positions_of(toks: &Vec<Token>, ty: &str, starts: bool) -> (r: Vec<usize>)
    ensures
        r@ == if starts {
            starts_of(toks@, ty@)
        } else {
            ends_of(toks@, ty@)
        },
{
    let t = crate::text::string_from(ty);
    let mut r: Vec<usize> = Vec::new();
    let mut i: usize = 0;
    while i < toks.len()
        invariant
            i <= toks.len(),
            t@ == ty@,
            r@ == if starts {
                starts_of(toks@.take(i as int), ty@)
            } else {
                ends_of(toks@.take(i as int), ty@)
            },
        decreases toks.len() - i,
    {
        assert(toks@.take(i + 1).drop_last() =~= toks@.take(i as int));
        assert(toks@.take(i + 1).last() == toks@[i as int]);
        if toks[i].token_type == t {
            if starts {
                r.push(toks[i].start);
            } else {
                r.push(toks[i].end);
            }
        }
        i += 1;
    }
    assert(toks@.take(toks.len() as int) =~= toks@);
    r
}

/// The position of the first smallest element of a nonempty `v`.
fn min_index_of(v: &Vec<usize>) -> (k: usize)
    requires
        v.len() > 0,
    ensures
        k == min_index(v@),
        k < v.len(),
{
    let mut k: usize = 0;
    let mut i: usize = 1;
    assert(v@.take(1).len() == 1);
    while i < v.len()
        invariant
            1 <= i <= v.len(),
            k < i,
            k == min_index(v@.take(i as int)),
        decreases v.len() - i,
    {
        assert(v@.take(i + 1).drop_last() =~= v@.take(i as int));
        assert(v@.take(i + 1).last() == v@[i as int]);
        assert(v@.take(i + 1)[k as int] == v@[k as int]);
        if v[i] < v[k] {
            k = i;
        }
        i += 1;
    }
    assert(v@.take(v.len() as int) =~= v@);
    k
}

/// The two smallest elements of `v`, which has at least two.
fn two_smallest(v: &Vec<usize>) -> (r: (usize, usize))
    requires
        v.len() >= 2,
    ensures
        r.0 == smallest(v@),
        r.1 == second_smallest(v@),
{
    let k = min_index_of(v);
    let mut rest: Vec<usize> = Vec::new();
    let mut i: usize = 0;
    while i < v.len()
        invariant
            i <= v.len(),
            k < v.len(),
            rest@ == if i <= k {
                v@.take(i as int)
            } else {
                v@.take(i as int).remove(k as int)
            },
        decreases v.len() - i,
    {
        if i != k {
            rest.push(v[i]);
        }
        i += 1;
        assert(rest@ =~= if i <= k {
            v@.take(i as int)
        } else {
            v@.take(i as int).remove(k as int)
        });
    }
    assert(v@.take(v.len() as int) =~= v@);
    let k2 = min_index_of(&rest);
    (v[k], rest[k2])
}

/// The largest element of `v`, or 0.
fn largest_of(v: &Vec<usize>) -> (m: usize)
    ensures
        m == largest(v@),
{
    let mut m: usize = 0;
    let mut i: usize = 0;
    while i < v.len()
        invariant
            i <= v.len(),
            m == largest(v@.take(i as int)),
        decreases v.len() - i,
    {
        assert(v@.take(i + 1).drop_last() =~= v@.take(i as int));
        assert(v@.take(i + 1).last() == v@[i as int]);
        if v[i] > m {
            m = v[i];
        }
        i += 1;
    }
    assert(v@.take(v.len() as int) =~= v@);
    m
}

/// An `if` statement can be closed.
pub open spec fn if_ready(r: ReduceResult, cs: Seq<Expression>, counters: Seq<usize>, bs: Seq<Statement>) -> bool {
    &&& has_tok(r.token@, "IF"@)
    &&& cs.len() > 0
    &&& if body_has(r, "ELSE"@) {
        &&& counters.len() >= 2
        &&& counters.last() <= bs.len()
        &&& counters[counters.len() - 2] <= bs.len() - counters.last()
        &&& starts_of(r.token@, "LBRACE"@).len() >= 2
        &&& ends_of(r.token@, "RBRACE"@).len() >= 2
    } else {
        &&& counters.len() >= 1
        &&& counters.last() <= bs.len()
        &&& has_tok(r.token@, "LBRACE"@)
    }
}

/// `s` is `if cond` with the branch `then` and, if given, `otherwise`.
pub open spec fn if_stmt(s: Statement, start: usize, end: usize, cond: Expression, then: spec_fn(Statement) -> bool, otherwise: Option<spec_fn(Statement) -> bool>) -> bool {
    match s {
        Statement::IfThenElse { meta, cond: c, if_case, else_case } => {
            &&& meta.fresh(start, end)
            &&& c == cond
            &&& then(*if_case)
            &&& match otherwise {
                Some(p) => else_case is Some && p(*else_case->Some_0),
                None => else_case is None,
            }
        },
        _ => false,
    }
}

/// What closing an `if` does: the condition and the branches' statement
/// counts and statements leave, the `if` statement comes. The statement spans
/// from `if` to the last closing brace; with an `else`, the branches span
/// from the opening braces to the closing braces, taken in order of position.
pub open spec fn if_done(
    r: ReduceResult,
    cs0: Seq<Expression>,
    cs1: Seq<Expression>,
    k0: Seq<usize>,
    k1: Seq<usize>,
    bs0: Seq<Statement>,
    bs1: Seq<Statement>,
) -> bool {
    let start = tok_of(r.token@, "IF"@).start;
    let end = largest(ends_of(r.token@, "RBRACE"@));
    let n = bs0.len() as int;
    &&& cs1 == cs0.drop_last()
    &&& if body_has(r, "ELSE"@) {
        let c2 = k0.last() as int;
        let c1 = k0[k0.len() - 2] as int;
        let ls = starts_of(r.token@, "LBRACE"@);
        let re = ends_of(r.token@, "RBRACE"@);
        &&& k1 == k0.take(k0.len() - 2)
        &&& pushed(bs0.take(n - c2 - c1), bs1)
        &&& if_stmt(
            bs1.last(),
            start,
            end,
            cs0.last(),
            |b: Statement| block_of(b, smallest(ls), smallest(re), bs0.subrange(n - c2 - c1, n - c2)),
            Some(|b: Statement| block_of(b, second_smallest(ls), second_smallest(re), bs0.subrange(n - c2, n))),
        )
    } else {
        let c = k0.last() as int;
        &&& k1 == k0.drop_last()
        &&& pushed(bs0.take(n - c), bs1)
        &&& if_stmt(
            bs1.last(),
            start,
            end,
            cs0.last(),
            |b: Statement| block_of(b, tok_of(r.token@, "LBRACE"@).start, end, bs0.subrange(n - c, n)),
            None,
        )
    }
}

/// `if ( CONDITION ) { STMTS }`, with or without `else { STMTS }`.
fn process_if_stmt(r: &ReduceResult, cond_stack: &mut Vec<Expression>, stmt_counters: &mut Vec<usize>, block_stack: &mut Vec<Statement>)
    requires
        if_ready(*r, old(cond_stack)@, old(stmt_counters)@, old(block_stack)@),
    ensures
        if_done(*r, old(cond_stack)@, final(cond_stack)@, old(stmt_counters)@, final(stmt_counters)@, old(block_stack)@, final(block_stack)@),
{
    let ghost bs0 = block_stack@;
    let ghost k0 = stmt_counters@;
    let start = match find_token(&r.token, "IF") {
        Some(k) => r.token[k].start,
        None => 0,
    };
    let rb_ends = positions_of(&r.token, "RBRACE", false);
    let end = largest_of(&rb_ends);
    let cond = cond_stack.pop().unwrap();
    if body_contains(r, "ELSE") {
        let counter2 = stmt_counters.pop().unwrap();
        let counter1 = stmt_counters.pop().unwrap();
        assert(stmt_counters@ =~= k0.take(k0.len() - 2));
        let stmts2 = take_top(block_stack, counter2);
        let stmts1 = take_top(block_stack, counter1);
        assert(stmts1@ =~= bs0.subrange(bs0.len() - counter2 - counter1, bs0.len() - counter2));
        assert(block_stack@ =~= bs0.take(bs0.len() - counter2 - counter1));
        let lb_starts = positions_of(&r.token, "LBRACE", true);
        let (ls1, ls2) = two_smallest(&lb_starts);
        let (re1, re2) = two_smallest(&rb_ends);
        let if_block = Statement::Block { meta: Meta::new(ls1, re1), stmts: stmts1 };
        let else_block = Statement::Block { meta: Meta::new(ls2, re2), stmts: stmts2 };
        let st = Statement::IfThenElse { meta: Meta::new(start, end), cond, if_case: Box::new(if_block), else_case: Some(Box::new(else_block)) };
        let ghost b1 = block_stack@;
        block_stack.push(st);
        assert(block_stack@.drop_last() =~= b1);
    } else {
        let counter = stmt_counters.pop().unwrap();
        let stmts = take_top(block_stack, counter);
        let if_start = match find_token(&r.token, "LBRACE") {
            Some(k) => r.token[k].start,
            None => 0,
        };
        let if_block = Statement::Block { meta: Meta::new(if_start, end), stmts };
        let st = Statement::IfThenElse { meta: Meta::new(start, end), cond, if_case: Box::new(if_block), else_case: None };
        let ghost b1 = block_stack@;
        block_stack.push(st);
        assert(block_stack@.drop_last() =~= b1);
    }
}

/// A loop can be closed: its keyword and closing brace are there, and its
/// statements are counted on the stack.
pub open spec fn loop_ready(r: ReduceResult, kw: Seq<char>, counters: Seq<usize>, bs: Seq<Statement>) -> bool {
    has_tok(r.token@, kw) && has_tok(r.token@, "RBRACE"@) && counters.len() > 0 && counters.last() <= bs.len()
}

/// `s` is the loop `while cond` over `stmts`, spanning `start..end`.
pub open spec fn while_stmt(s: Statement, start: usize, end: usize, cond: Expression, stmts: Seq<Statement>) -> bool {
    match s {
        Statement::While { meta, cond: c, stmt } => meta.fresh(start, end) && c == cond && block_of(*stmt, start, end, stmts),
        _ => false,
    }
}

/// What closing a `while` does: the condition, the statement count and the
/// statements leave; the loop comes.
pub open spec fn while_done(r: ReduceResult, cs0: Seq<Expression>, cs1: Seq<Expression>, k0: Seq<usize>, k1: Seq<usize>, bs0: Seq<Statement>, bs1: Seq<Statement>) -> bool {
    let n = bs0.len() as int;
    let c = k0.last() as int;
    &&& cs1 == cs0.drop_last()
    &&& k1 == k0.drop_last()
    &&& pushed(bs0.take(n - c), bs1)
    &&& while_stmt(bs1.last(), tok_of(r.token@, "WHILE"@).start, tok_of(r.token@, "RBRACE"@).end, cs0.last(), bs0.subrange(n - c, n))
}

/// `while ( CONDITION ) { STMTS }`.
fn process_while_stmt(r: &ReduceResult, cond_stack: &mut Vec<Expression>, stmt_counters: &mut Vec<usize>, block_stack: &mut Vec<Statement>)
    requires
        old(cond_stack)@.len() > 0,
        loop_ready(*r, "WHILE"@, old(stmt_counters)@, old(block_stack)@),
    ensures
        while_done(*r, old(cond_stack)@, final(cond_stack)@, old(stmt_counters)@, final(stmt_counters)@, old(block_stack)@, final(block_stack)@),
{
    let start = match find_token(&r.token, "WHILE") {
        Some(k) => r.token[k].start,
        None => 0,
    };
    let end = match find_token(&r.token, "RBRACE") {
        Some(k) => r.token[k].end,
        None => 0,
    };
    let cond = cond_stack.pop().unwrap();
    let counter = stmt_counters.pop().unwrap();
    let stmts = take_top(block_stack, counter);
    let body = Statement::Block { meta: Meta::new(start, end), stmts };
    let ghost b1 = block_stack@;
    block_stack.push(Statement::While { meta: Meta::new(start, end), cond, stmt: Box::new(body) });
    assert(block_stack@.drop_last() =~= b1);
}

/// The three parts of a `for` header: the initialization, the condition and
/// the step.
pub struct ForCond {
    pub p1: Statement,
    pub p2: Expression,
    pub p3: Statement,
}

impl ForCond {
    pub fn new(p1: Statement, p2: Expression, p3: Statement) -> (r: ForCond)
        ensures
            r == (ForCond { p1, p2, p3 }),
    {
        ForCond { p1, p2, p3 }
    }
}

/// What closing a `for` does: the header, the statement count and the
/// statements leave; the initialization comes, then a `while` loop on the
/// condition whose body is the statements followed by the step.
pub open spec fn for_done(
    r: ReduceResult,
    fc0: Seq<ForCond>,
    fc1: Seq<ForCond>,
    k0: Seq<usize>,
    k1: Seq<usize>,
    bs0: Seq<Statement>,
    bs1: Seq<Statement>,
) -> bool {
    let n = bs0.len() as int;
    let c = k0.last() as int;
    let fc = fc0.last();
    &&& fc1 == fc0.drop_last()
    &&& k1 == k0.drop_last()
    &&& bs1.len() == n - c + 2
    &&& bs1.take(n - c) == bs0.take(n - c)
    &&& bs1[n - c] == fc.p1
    &&& while_stmt(bs1.last(), tok_of(r.token@, "FOR"@).start, tok_of(r.token@, "RBRACE"@).end, fc.p2, bs0.subrange(n - c, n).push(fc.p3))
}

/// `for ( FOR_COND ) { STMTS }`, read as its initialization followed by a
/// `while` loop.
fn process_for_stmt(r: &ReduceResult, for_cond_stack: &mut Vec<ForCond>, stmt_counters: &mut Vec<usize>, block_stack: &mut Vec<Statement>)
    requires
        old(for_cond_stack)@.len() > 0,
        loop_ready(*r, "FOR"@, old(stmt_counters)@, old(block_stack)@),
    ensures
        for_done(*r, old(for_cond_stack)@, final(for_cond_stack)@, old(stmt_counters)@, final(stmt_counters)@, old(block_stack)@, final(block_stack)@),
{
    let ghost bs0 = block_stack@;
    let start = match find_token(&r.token, "FOR") {
        Some(k) => r.token[k].start,
        None => 0,
    };
    let end = match find_token(&r.token, "RBRACE") {
        Some(k) => r.token[k].end,
        None => 0,
    };
    let fc = for_cond_stack.pop().unwrap();
    let counter = stmt_counters.pop().unwrap();
    let mut stmts = take_top(block_stack, counter);
    let ForCond { p1, p2, p3 } = fc;
    stmts.push(p3);
    block_stack.push(p1);
    let body = Statement::Block { meta: Meta::new(start, end), stmts };
    block_stack.push(Statement::While { meta: Meta::new(start, end), cond: p2, stmt: Box::new(body) });
    assert(block_stack@.take(bs0.len() - counter) =~= bs0.take(bs0.len() - counter));
}

/// A `for` header can be read from the stacks.
pub open spec fn for_cond_ready(cs: Seq<Expression>, bs: Seq<Statement>, id: Seq<Token>, asg: Seq<Token>, ex: Seq<Expression>) -> bool {
    cs.len() > 0 && bs.len() > 0 && id.len() > 0 && ex.len() > 0 && asg.len() > 0
}

/// Where a `for` step ends: at the end of its value if that is an operation,
/// else where it starts.
pub open spec fn step_end(ex: Expression, start: usize) -> usize {
    match ex {
        Expression::InfixOp { meta, .. } => meta.end,
        _ => start,
    }
}

/// What `for` header `STMT ; CONDITION ; ID op= EXPR` does: the
/// initialization, the condition, the step's name, operator and value leave;
/// the header comes.
pub open spec fn for_cond_done(
    cs0: Seq<Expression>,
    cs1: Seq<Expression>,
    fc0: Seq<ForCond>,
    fc1: Seq<ForCond>,
    bs0: Seq<Statement>,
    bs1: Seq<Statement>,
    id0: Seq<Token>,
    id1: Seq<Token>,
    asg0: Seq<Token>,
    asg1: Seq<Token>,
    ex0: Seq<Expression>,
    ex1: Seq<Expression>,
) -> bool {
    let i = id0.last();
    let fc = fc1.last();
    &&& cs1 == cs0.drop_last()
    &&& bs1 == bs0.drop_last()
    &&& id1 == id0.drop_last()
    &&& asg1 == asg0.drop_last()
    &&& ex1 == ex0.drop_last()
    &&& pushed(fc0, fc1)
    &&& fc.p1 == bs0.last()
    &&& fc.p2 == cs0.last()
    &&& assign_stmt(fc.p3, i.start, step_end(ex0.last(), i.start), i.value, asg0.last().value@, ex0.last())
}

/// The header of a `for` loop.
fn process_for_cond(
    r: &ReduceResult,
    cond_stack: &mut Vec<Expression>,
    for_cond_stack: &mut Vec<ForCond>,
    block_stack: &mut Vec<Statement>,
    id_stack: &mut Vec<Token>,
    assign_stack: &mut Vec<Token>,
    expr_stack: &mut Vec<Expression>,
)
    requires
        for_cond_ready(old(cond_stack)@, old(block_stack)@, old(id_stack)@, old(assign_stack)@, old(expr_stack)@),
    ensures
        for_cond_done(
            old(cond_stack)@,
            final(cond_stack)@,
            old(for_cond_stack)@,
            final(for_cond_stack)@,
            old(block_stack)@,
            final(block_stack)@,
            old(id_stack)@,
            final(id_stack)@,
            old(assign_stack)@,
            final(assign_stack)@,
            old(expr_stack)@,
            final(expr_stack)@,
        ),
{
    let p2 = cond_stack.pop().unwrap();
    let p1 = block_stack.pop().unwrap();
    let i = id_stack.pop().unwrap();
    let ex = expr_stack.pop().unwrap();
    let assign = assign_stack.pop().unwrap();
    let start = i.start;
    let end = match &ex {
        Expression::InfixOp { meta, .. } => meta.end,
        _ => start,
    };
    let p3 = assignment(start, end, i.value, &assign.value, ex);
    let ghost f0 = for_cond_stack@;
    for_cond_stack.push(ForCond::new(p1, p2, p3));
    assert(for_cond_stack@.drop_last() =~= f0);
}

/// What building has gathered so far: the program's version, definitions and
/// main component, the end of the main component, the stacks of pieces not
/// yet used and the counters of the blocks being read.
pub struct AstBuilder {
    pub compiler_version: Version,
    pub definitions: Vec<Definition>,
    pub main_component: Option<MainComponent>,
    pub last: usize,
    pub id_stack: Vec<Token>,
    pub op_stack: Vec<Token>,
    pub expr_stack: Vec<Expression>,
    pub block_stack: Vec<Statement>,
    pub param_stack: Vec<Token>,
    pub rel_stack: Vec<Token>,
    pub cond_stack: Vec<Expression>,
    pub assign_stack: Vec<Token>,
    pub var_stack: Vec<Statement>,
    pub var_counter: usize,
    pub var_start: usize,
    pub comp_stack: Vec<Statement>,
    pub comp_counter: usize,
    pub comp_start: usize,
    pub for_cond_stack: Vec<ForCond>,
    pub stmt_counters: Vec<usize>,
    pub param_counters: Vec<usize>,
    pub counter_flag: bool,
}

impl AstBuilder {
    /// Nothing has been read: version 0.0.0, every stack empty, `last` at 256.
    pub open spec fn initial(&self) -> bool {
        &&& self.compiler_version == (0usize, 0usize, 0usize)
        &&& self.definitions@.len() == 0
        &&& self.main_component is None
        &&& self.last == 256
        &&& self.id_stack@.len() == 0
        &&& self.op_stack@.len() == 0
        &&& self.expr_stack@.len() == 0
        &&& self.block_stack@.len() == 0
        &&& self.param_stack@.len() == 0
        &&& self.rel_stack@.len() == 0
        &&& self.cond_stack@.len() == 0
        &&& self.assign_stack@.len() == 0
        &&& self.var_stack@.len() == 0
        &&& self.var_counter == 0
        &&& self.var_start == 0
        &&& self.comp_stack@.len() == 0
        &&& self.comp_counter == 0
        &&& self.comp_start == 0
        &&& self.for_cond_stack@.len() == 0
        &&& self.stmt_counters@.len() == 0
        &&& self.param_counters@.len() == 0
        &&& !self.counter_flag
    }

    pub fn new() -> (b: AstBuilder)
        ensures
            b.initial(),
    {
        AstBuilder {
            compiler_version: (0, 0, 0),
            definitions: Vec::new(),
            main_component: None,
            last: 256,
            id_stack: Vec::new(),
            op_stack: Vec::new(),
            expr_stack: Vec::new(),
            block_stack: Vec::new(),
            param_stack: Vec::new(),
            rel_stack: Vec::new(),
            cond_stack: Vec::new(),
            assign_stack: Vec::new(),
            var_stack: Vec::new(),
            var_counter: 0,
            var_start: 0,
            comp_stack: Vec::new(),
            comp_counter: 0,
            comp_start: 0,
            for_cond_stack: Vec::new(),
            stmt_counters: Vec::new(),
            param_counters: Vec::new(),
            counter_flag: false,
        }
    }
}

/// The parameter count a definition or component reduction uses.
pub open spec fn param_count(b: AstBuilder, r: ReduceResult) -> usize {
    if body_has(r, "PARAM"@) {
        b.param_counters@.last()
    } else {
        0
    }
}

/// The productions the builder tells apart, by their head.
#[derive(PartialEq, Eq, Structural, Clone, Copy)]
pub enum HeadKind {
    Header,
    IdOrArray,
    SignalStmt,
    CAssign,
    Op,
    Plus,
    Assign,
    AssignStmt,
    Expr,
    CAssignStmt,
    VarStmt,
    VarPart,
    VarDef,
    ComponentStmt,
    CompPart,
    CompDef,
    Stmts,
    TemplateContent,
    TemplateStmt,
    FuncStmt,
    RetStmt,
    ComponentBlock,
    Program,
    IdOrNum,
    Param,
    IfStmt,
    Condition,
    Rel,
    WhileStmt,
    ForStmt,
    ForCond,
    Other,
}

/// The kind of a reduction's head.
pub open spec fn head_kind(h: Seq<char>) -> HeadKind {
    if h == "HEADER"@ {
        HeadKind::Header
    } else if h == "ID_OR_ARRAY"@ {
        HeadKind::IdOrArray
    } else if h == "SIGNAL_STMT"@ {
        HeadKind::SignalStmt
    } else if h == "C_ASSIGN"@ {
        HeadKind::CAssign
    } else if h == "OP"@ {
        HeadKind::Op
    } else if h == "PLUS"@ {
        HeadKind::Plus
    } else if h == "ASSIGN"@ {
        HeadKind::Assign
    } else if h == "ASSIGN_STMT"@ {
        HeadKind::AssignStmt
    } else if h == "EXPR"@ {
        HeadKind::Expr
    } else if h == "C_ASSIGN_STMT"@ {
        HeadKind::CAssignStmt
    } else if h == "VAR_STMT"@ {
        HeadKind::VarStmt
    } else if h == "VAR_"@ {
        HeadKind::VarPart
    } else if h == "VAR_DEF"@ {
        HeadKind::VarDef
    } else if h == "COMPONENT_STMT"@ {
        HeadKind::ComponentStmt
    } else if h == "COMP_"@ {
        HeadKind::CompPart
    } else if h == "COMP_DEF"@ {
        HeadKind::CompDef
    } else if h == "STMTS"@ {
        HeadKind::Stmts
    } else if h == "TEMPLATE_CONTENT"@ {
        HeadKind::TemplateContent
    } else if h == "TEMPLATE_STMT"@ {
        HeadKind::TemplateStmt
    } else if h == "FUNC_STMT"@ {
        HeadKind::FuncStmt
    } else if h == "RET_STMT"@ {
        HeadKind::RetStmt
    } else if h == "COMPONENT_BLOCK"@ {
        HeadKind::ComponentBlock
    } else if h == "PROGRAM"@ {
        HeadKind::Program
    } else if h == "ID_OR_NUM"@ {
        HeadKind::IdOrNum
    } else if h == "PARAM"@ {
        HeadKind::Param
    } else if h == "IF_STMT"@ {
        HeadKind::IfStmt
    } else if h == "CONDITION"@ {
        HeadKind::Condition
    } else if h == "REL"@ {
        HeadKind::Rel
    } else if h == "WHILE_STMT"@ {
        HeadKind::WhileStmt
    } else if h == "FOR_STMT"@ {
        HeadKind::ForStmt
    } else if h == "FOR_COND"@ {
        HeadKind::ForCond
    } else {
        HeadKind::Other
    }
}

proof fn lemma_head_kind_0()
    ensures
        head_kind("HEADER"@) == HeadKind::Header,
{
    reveal_strlit("HEADER");
    assert("HEADER"@ =~= seq!['H', 'E', 'A', 'D', 'E', 'R']);
}

proof fn lemma_head_kind_1()
    ensures
        head_kind("ID_OR_ARRAY"@) == HeadKind::IdOrArray,
{
    reveal_strlit("HEADER");
    assert("HEADER"@ =~= seq!['H', 'E', 'A', 'D', 'E', 'R']);
    reveal_strlit("ID_OR_ARRAY");
    assert("ID_OR_ARRAY"@ =~= seq!['I', 'D', '_', 'O', 'R', '_', 'A', 'R', 'R', 'A', 'Y']);
}

proof fn lemma_head_kind_2()
    ensures
        head_kind("SIGNAL_STMT"@) == HeadKind::SignalStmt,
{
    reveal_strlit("HEADER");
    assert("HEADER"@ =~= seq!['H', 'E', 'A', 'D', 'E', 'R']);
    reveal_strlit("ID_OR_ARRAY");
    assert("ID_OR_ARRAY"@ =~= seq!['I', 'D', '_', 'O', 'R', '_', 'A', 'R', 'R', 'A', 'Y']);
    reveal_strlit("SIGNAL_STMT");
    assert("SIGNAL_STMT"@ =~= seq!['S', 'I', 'G', 'N', 'A', 'L', '_', 'S', 'T', 'M', 'T']);
}

proof fn lemma_head_kind_3()
    ensures
        head_kind("C_ASSIGN"@) == HeadKind::CAssign,
{
    reveal_strlit("HEADER");
    assert("HEADER"@ =~= seq!['H', 'E', 'A', 'D', 'E', 'R']);
    reveal_strlit("ID_OR_ARRAY");
    assert("ID_OR_ARRAY"@ =~= seq!['I', 'D', '_', 'O', 'R', '_', 'A', 'R', 'R', 'A', 'Y']);
    reveal_strlit("SIGNAL_STMT");
    assert("SIGNAL_STMT"@ =~= seq!['S', 'I', 'G', 'N', 'A', 'L', '_', 'S', 'T', 'M', 'T']);
    reveal_strlit("C_ASSIGN");
    assert("C_ASSIGN"@ =~= seq!['C', '_', 'A', 'S', 'S', 'I', 'G', 'N']);
}

proof fn lemma_head_kind_4()
    ensures
        head_kind("OP"@) == HeadKind::Op,
{
    reveal_strlit("HEADER");
    assert("HEADER"@ =~= seq!['H', 'E', 'A', 'D', 'E', 'R']);
    reveal_strlit("ID_OR_ARRAY");
    assert("ID_OR_ARRAY"@ =~= seq!['I', 'D', '_', 'O', 'R', '_', 'A', 'R', 'R', 'A', 'Y']);
    reveal_strlit("SIGNAL_STMT");
    assert("SIGNAL_STMT"@ =~= seq!['S', 'I', 'G', 'N', 'A', 'L', '_', 'S', 'T', 'M', 'T']);
    reveal_strlit("C_ASSIGN");
    assert("C_ASSIGN"@ =~= seq!['C', '_', 'A', 'S', 'S', 'I', 'G', 'N']);
    reveal_strlit("OP");
    assert("OP"@ =~= seq!['O', 'P']);
}

proof fn lemma_head_kind_5()
    ensures
        head_kind("PLUS"@) == HeadKind::Plus,
{
    reveal_strlit("HEADER");
    assert("HEADER"@ =~= seq!['H', 'E', 'A', 'D', 'E', 'R']);
    reveal_strlit("ID_OR_ARRAY");
    assert("ID_OR_ARRAY"@ =~= seq!['I', 'D', '_', 'O', 'R', '_', 'A', 'R', 'R', 'A', 'Y']);
    reveal_strlit("SIGNAL_STMT");
    assert("SIGNAL_STMT"@ =~= seq!['S', 'I', 'G', 'N', 'A', 'L', '_', 'S', 'T', 'M', 'T']);
    reveal_strlit("C_ASSIGN");
    assert("C_ASSIGN"@ =~= seq!['C', '_', 'A', 'S', 'S', 'I', 'G', 'N']);
    reveal_strlit("OP");
    assert("OP"@ =~= seq!['O', 'P']);
    reveal_strlit("PLUS");
    assert("PLUS"@ =~= seq!['P', 'L', 'U', 'S']);
}

proof fn lemma_head_kind_6()
    ensures
        head_kind("ASSIGN"@) == HeadKind::Assign,
{
    reveal_strlit("HEADER");
    assert("HEADER"@ =~= seq!['H', 'E', 'A', 'D', 'E', 'R']);
    reveal_strlit("ID_OR_ARRAY");
    assert("ID_OR_ARRAY"@ =~= seq!['I', 'D', '_', 'O', 'R', '_', 'A', 'R', 'R', 'A', 'Y']);
    reveal_strlit("SIGNAL_STMT");
    assert("SIGNAL_STMT"@ =~= seq!['S', 'I', 'G', 'N', 'A', 'L', '_', 'S', 'T', 'M', 'T']);
    reveal_strlit("C_ASSIGN");
    assert("C_ASSIGN"@ =~= seq!['C', '_', 'A', 'S', 'S', 'I', 'G', 'N']);
    reveal_strlit("OP");
    assert("OP"@ =~= seq!['O', 'P']);
    reveal_strlit("PLUS");
    assert("PLUS"@ =~= seq!['P', 'L', 'U', 'S']);
    reveal_strlit("ASSIGN");
    assert("ASSIGN"@ =~= seq!['A', 'S', 'S', 'I', 'G', 'N']);
}

proof fn lemma_head_kind_7()
    ensures
        head_kind("ASSIGN_STMT"@) == HeadKind::AssignStmt,
{
    reveal_strlit("HEADER");
    assert("HEADER"@ =~= seq!['H', 'E', 'A', 'D', 'E', 'R']);
    reveal_strlit("ID_OR_ARRAY");
    assert("ID_OR_ARRAY"@ =~= seq!['I', 'D', '_', 'O', 'R', '_', 'A', 'R', 'R', 'A', 'Y']);
    reveal_strlit("SIGNAL_STMT");
    assert("SIGNAL_STMT"@ =~= seq!['S', 'I', 'G', 'N', 'A', 'L', '_', 'S', 'T', 'M', 'T']);
    reveal_strlit("C_ASSIGN");
    assert("C_ASSIGN"@ =~= seq!['C', '_', 'A', 'S', 'S', 'I', 'G', 'N']);
    reveal_strlit("OP");
    assert("OP"@ =~= seq!['O', 'P']);
    reveal_strlit("PLUS");
    assert("PLUS"@ =~= seq!['P', 'L', 'U', 'S']);
    reveal_strlit("ASSIGN");
    assert("ASSIGN"@ =~= seq!['A', 'S', 'S', 'I', 'G', 'N']);
    reveal_strlit("ASSIGN_STMT");
    assert("ASSIGN_STMT"@ =~= seq!['A', 'S', 'S', 'I', 'G', 'N', '_', 'S', 'T', 'M', 'T']);
}

proof fn lemma_head_kind_8()
    ensures
        head_kind("EXPR"@) == HeadKind::Expr,
{
    reveal_strlit("HEADER");
    assert("HEADER"@ =~= seq!['H', 'E', 'A', 'D', 'E', 'R']);
    reveal_strlit("ID_OR_ARRAY");
    assert("ID_OR_ARRAY"@ =~= seq!['I', 'D', '_', 'O', 'R', '_', 'A', 'R', 'R', 'A', 'Y']);
    reveal_strlit("SIGNAL_STMT");
    assert("SIGNAL_STMT"@ =~= seq!['S', 'I', 'G', 'N', 'A', 'L', '_', 'S', 'T', 'M', 'T']);
    reveal_strlit("C_ASSIGN");
    assert("C_ASSIGN"@ =~= seq!['C', '_', 'A', 'S', 'S', 'I', 'G', 'N']);
    reveal_strlit("OP");
    assert("OP"@ =~= seq!['O', 'P']);
    reveal_strlit("PLUS");
    assert("PLUS"@ =~= seq!['P', 'L', 'U', 'S']);
    reveal_strlit("ASSIGN");
    assert("ASSIGN"@ =~= seq!['A', 'S', 'S', 'I', 'G', 'N']);
    reveal_strlit("ASSIGN_STMT");
    assert("ASSIGN_STMT"@ =~= seq!['A', 'S', 'S', 'I', 'G', 'N', '_', 'S', 'T', 'M', 'T']);
    reveal_strlit("EXPR");
    assert("EXPR"@ =~= seq!['E', 'X', 'P', 'R']);
}

proof fn lemma_head_kind_9()
    ensures
        head_kind("C_ASSIGN_STMT"@) == HeadKind::CAssignStmt,
{
    reveal_strlit("HEADER");
    assert("HEADER"@ =~= seq!['H', 'E', 'A', 'D', 'E', 'R']);
    reveal_strlit("ID_OR_ARRAY");
    assert("ID_OR_ARRAY"@ =~= seq!['I', 'D', '_', 'O', 'R', '_', 'A', 'R', 'R', 'A', 'Y']);
    reveal_strlit("SIGNAL_STMT");
    assert("SIGNAL_STMT"@ =~= seq!['S', 'I', 'G', 'N', 'A', 'L', '_', 'S', 'T', 'M', 'T']);
    reveal_strlit("C_ASSIGN");
    assert("C_ASSIGN"@ =~= seq!['C', '_', 'A', 'S', 'S', 'I', 'G', 'N']);
    reveal_strlit("OP");
    assert("OP"@ =~= seq!['O', 'P']);
    reveal_strlit("PLUS");
    assert("PLUS"@ =~= seq!['P', 'L', 'U', 'S']);
    reveal_strlit("ASSIGN");
    assert("ASSIGN"@ =~= seq!['A', 'S', 'S', 'I', 'G', 'N']);
    reveal_strlit("ASSIGN_STMT");
    assert("ASSIGN_STMT"@ =~= seq!['A', 'S', 'S', 'I', 'G', 'N', '_', 'S', 'T', 'M', 'T']);
    reveal_strlit("EXPR");
    assert("EXPR"@ =~= seq!['E', 'X', 'P', 'R']);
    reveal_strlit("C_ASSIGN_STMT");
    assert("C_ASSIGN_STMT"@ =~= seq!['C', '_', 'A', 'S', 'S', 'I', 'G', 'N', '_', 'S', 'T', 'M', 'T']);
}

proof fn lemma_head_kind_10()
    ensures
        head_kind("VAR_STMT"@) == HeadKind::VarStmt,
{
    reveal_strlit("HEADER");
    assert("HEADER"@ =~= seq!['H', 'E', 'A', 'D', 'E', 'R']);
    reveal_strlit("ID_OR_ARRAY");
    assert("ID_OR_ARRAY"@ =~= seq!['I', 'D', '_', 'O', 'R', '_', 'A', 'R', 'R', 'A', 'Y']);
    reveal_strlit("SIGNAL_STMT");
    assert("SIGNAL_STMT"@ =~= seq!['S', 'I', 'G', 'N', 'A', 'L', '_', 'S', 'T', 'M', 'T']);
    reveal_strlit("C_ASSIGN");
    assert("C_ASSIGN"@ =~= seq!['C', '_', 'A', 'S', 'S', 'I', 'G', 'N']);
    reveal_strlit("OP");
    assert("OP"@ =~= seq!['O', 'P']);
    reveal_strlit("PLUS");
    assert("PLUS"@ =~= seq!['P', 'L', 'U', 'S']);
    reveal_strlit("ASSIGN");
    assert("ASSIGN"@ =~= seq!['A', 'S', 'S', 'I', 'G', 'N']);
    reveal_strlit("ASSIGN_STMT");
    assert("ASSIGN_STMT"@ =~= seq!['A', 'S', 'S', 'I', 'G', 'N', '_', 'S', 'T', 'M', 'T']);
    reveal_strlit("EXPR");
    assert("EXPR"@ =~= seq!['E', 'X', 'P', 'R']);
    reveal_strlit("C_ASSIGN_STMT");
    assert("C_ASSIGN_STMT"@ =~= seq!['C', '_', 'A', 'S', 'S', 'I', 'G', 'N', '_', 'S', 'T', 'M', 'T']);
    reveal_strlit("VAR_STMT");
    assert("VAR_STMT"@ =~= seq!['V', 'A', 'R', '_', 'S', 'T', 'M', 'T']);
}

proof fn lemma_head_kind_11()
    ensures
        head_kind("VAR_"@) == HeadKind::VarPart,
{
    reveal_strlit("HEADER");
    assert("HEADER"@ =~= seq!['H', 'E', 'A', 'D', 'E', 'R']);
    reveal_strlit("ID_OR_ARRAY");
    assert("ID_OR_ARRAY"@ =~= seq!['I', 'D', '_', 'O', 'R', '_', 'A', 'R', 'R', 'A', 'Y']);
    reveal_strlit("SIGNAL_STMT");
    assert("SIGNAL_STMT"@ =~= seq!['S', 'I', 'G', 'N', 'A', 'L', '_', 'S', 'T', 'M', 'T']);
    reveal_strlit("C_ASSIGN");
    assert("C_ASSIGN"@ =~= seq!['C', '_', 'A', 'S', 'S', 'I', 'G', 'N']);
    reveal_strlit("OP");
    assert("OP"@ =~= seq!['O', 'P']);
    reveal_strlit("PLUS");
    assert("PLUS"@ =~= seq!['P', 'L', 'U', 'S']);
    reveal_strlit("ASSIGN");
    assert("ASSIGN"@ =~= seq!['A', 'S', 'S', 'I', 'G', 'N']);
    reveal_strlit("ASSIGN_STMT");
    assert("ASSIGN_STMT"@ =~= seq!['A', 'S', 'S', 'I', 'G', 'N', '_', 'S', 'T', 'M', 'T']);
    reveal_strlit("EXPR");
    assert("EXPR"@ =~= seq!['E', 'X', 'P', 'R']);
    reveal_strlit("C_ASSIGN_STMT");
    assert("C_ASSIGN_STMT"@ =~= seq!['C', '_', 'A', 'S', 'S', 'I', 'G', 'N', '_', 'S', 'T', 'M', 'T']);
    reveal_strlit("VAR_STMT");
    assert("VAR_STMT"@ =~= seq!['V', 'A', 'R', '_', 'S', 'T', 'M', 'T']);
    reveal_strlit("VAR_");
    assert("VAR_"@ =~= seq!['V', 'A', 'R', '_']);
}

proof fn lemma_head_kind_12()
    ensures
        head_kind("VAR_DEF"@) == HeadKind::VarDef,
{
    reveal_strlit("HEADER");
    assert("HEADER"@ =~= seq!['H', 'E', 'A', 'D', 'E', 'R']);
    reveal_strlit("ID_OR_ARRAY");
    assert("ID_OR_ARRAY"@ =~= seq!['I', 'D', '_', 'O', 'R', '_', 'A', 'R', 'R', 'A', 'Y']);
    reveal_strlit("SIGNAL_STMT");
    assert("SIGNAL_STMT"@ =~= seq!['S', 'I', 'G', 'N', 'A', 'L', '_', 'S', 'T', 'M', 'T']);
    reveal_strlit("C_ASSIGN");
    assert("C_ASSIGN"@ =~= seq!['C', '_', 'A', 'S', 'S', 'I', 'G', 'N']);
    reveal_strlit("OP");
    assert("OP"@ =~= seq!['O', 'P']);
    reveal_strlit("PLUS");
    assert("PLUS"@ =~= seq!['P', 'L', 'U', 'S']);
    reveal_strlit("ASSIGN");
    assert("ASSIGN"@ =~= seq!['A', 'S', 'S', 'I', 'G', 'N']);
    reveal_strlit("ASSIGN_STMT");
    assert("ASSIGN_STMT"@ =~= seq!['A', 'S', 'S', 'I', 'G', 'N', '_', 'S', 'T', 'M', 'T']);
    reveal_strlit("EXPR");
    assert("EXPR"@ =~= seq!['E', 'X', 'P', 'R']);
    reveal_strlit("C_ASSIGN_STMT");
    assert("C_ASSIGN_STMT"@ =~= seq!['C', '_', 'A', 'S', 'S', 'I', 'G', 'N', '_', 'S', 'T', 'M', 'T']);
    reveal_strlit("VAR_STMT");
    assert("VAR_STMT"@ =~= seq!['V', 'A', 'R', '_', 'S', 'T', 'M', 'T']);
    reveal_strlit("VAR_");
    assert("VAR_"@ =~= seq!['V', 'A', 'R', '_']);
    reveal_strlit("VAR_DEF");
    assert("VAR_DEF"@ =~= seq!['V', 'A', 'R', '_', 'D', 'E', 'F']);
}

proof fn lemma_head_kind_13()
    ensures
        head_kind("COMPONENT_STMT"@) == HeadKind::ComponentStmt,
{
    reveal_strlit("HEADER");
    assert("HEADER"@ =~= seq!['H', 'E', 'A', 'D', 'E', 'R']);
    reveal_strlit("ID_OR_ARRAY");
    assert("ID_OR_ARRAY"@ =~= seq!['I', 'D', '_', 'O', 'R', '_', 'A', 'R', 'R', 'A', 'Y']);
    reveal_strlit("SIGNAL_STMT");
    assert("SIGNAL_STMT"@ =~= seq!['S', 'I', 'G', 'N', 'A', 'L', '_', 'S', 'T', 'M', 'T']);
    reveal_strlit("C_ASSIGN");
    assert("C_ASSIGN"@ =~= seq!['C', '_', 'A', 'S', 'S', 'I', 'G', 'N']);
    reveal_strlit("OP");
    assert("OP"@ =~= seq!['O', 'P']);
    reveal_strlit("PLUS");
    assert("PLUS"@ =~= seq!['P', 'L', 'U', 'S']);
    reveal_strlit("ASSIGN");
    assert("ASSIGN"@ =~= seq!['A', 'S', 'S', 'I', 'G', 'N']);
    reveal_strlit("ASSIGN_STMT");
    assert("ASSIGN_STMT"@ =~= seq!['A', 'S', 'S', 'I', 'G', 'N', '_', 'S', 'T', 'M', 'T']);
    reveal_strlit("EXPR");
    assert("EXPR"@ =~= seq!['E', 'X', 'P', 'R']);
    reveal_strlit("C_ASSIGN_STMT");
    assert("C_ASSIGN_STMT"@ =~= seq!['C', '_', 'A', 'S', 'S', 'I', 'G', 'N', '_', 'S', 'T', 'M', 'T']);
    reveal_strlit("VAR_STMT");
    assert("VAR_STMT"@ =~= seq!['V', 'A', 'R', '_', 'S', 'T', 'M', 'T']);
    reveal_strlit("VAR_");
    assert("VAR_"@ =~= seq!['V', 'A', 'R', '_']);
    reveal_strlit("VAR_DEF");
    assert("VAR_DEF"@ =~= seq!['V', 'A', 'R', '_', 'D', 'E', 'F']);
    reveal_strlit("COMPONENT_STMT");
    assert("COMPONENT_STMT"@ =~= seq!['C', 'O', 'M', 'P', 'O', 'N', 'E', 'N', 'T', '_', 'S', 'T', 'M', 'T']);
}

proof fn lemma_head_kind_14()
    ensures
        head_kind("COMP_"@) == HeadKind::CompPart,
{
    reveal_strlit("HEADER");
    assert("HEADER"@ =~= seq!['H', 'E', 'A', 'D', 'E', 'R']);
    reveal_strlit("ID_OR_ARRAY");
    assert("ID_OR_ARRAY"@ =~= seq!['I', 'D', '_', 'O', 'R', '_', 'A', 'R', 'R', 'A', 'Y']);
    reveal_strlit("SIGNAL_STMT");
    assert("SIGNAL_STMT"@ =~= seq!['S', 'I', 'G', 'N', 'A', 'L', '_', 'S', 'T', 'M', 'T']);
    reveal_strlit("C_ASSIGN");
    assert("C_ASSIGN"@ =~= seq!['C', '_', 'A', 'S', 'S', 'I', 'G', 'N']);
    reveal_strlit("OP");
    assert("OP"@ =~= seq!['O', 'P']);
    reveal_strlit("PLUS");
    assert("PLUS"@ =~= seq!['P', 'L', 'U', 'S']);
    reveal_strlit("ASSIGN");
    assert("ASSIGN"@ =~= seq!['A', 'S', 'S', 'I', 'G', 'N']);
    reveal_strlit("ASSIGN_STMT");
    assert("ASSIGN_STMT"@ =~= seq!['A', 'S', 'S', 'I', 'G', 'N', '_', 'S', 'T', 'M', 'T']);
    reveal_strlit("EXPR");
    assert("EXPR"@ =~= seq!['E', 'X', 'P', 'R']);
    reveal_strlit("C_ASSIGN_STMT");
    assert("C_ASSIGN_STMT"@ =~= seq!['C', '_', 'A', 'S', 'S', 'I', 'G', 'N', '_', 'S', 'T', 'M', 'T']);
    reveal_strlit("VAR_STMT");
    assert("VAR_STMT"@ =~= seq!['V', 'A', 'R', '_', 'S', 'T', 'M', 'T']);
    reveal_strlit("VAR_");
    assert("VAR_"@ =~= seq!['V', 'A', 'R', '_']);
    reveal_strlit("VAR_DEF");
    assert("VAR_DEF"@ =~= seq!['V', 'A', 'R', '_', 'D', 'E', 'F']);
    reveal_strlit("COMPONENT_STMT");
    assert("COMPONENT_STMT"@ =~= seq!['C', 'O', 'M', 'P', 'O', 'N', 'E', 'N', 'T', '_', 'S', 'T', 'M', 'T']);
    reveal_strlit("COMP_");
    assert("COMP_"@ =~= seq!['C', 'O', 'M', 'P', '_']);
}

proof fn lemma_head_kind_15()
    ensures
        head_kind("COMP_DEF"@) == HeadKind::CompDef,
{
    reveal_strlit("HEADER");
    assert("HEADER"@ =~= seq!['H', 'E', 'A', 'D', 'E', 'R']);
    reveal_strlit("ID_OR_ARRAY");
    assert("ID_OR_ARRAY"@ =~= seq!['I', 'D', '_', 'O', 'R', '_', 'A', 'R', 'R', 'A', 'Y']);
    reveal_strlit("SIGNAL_STMT");
    assert("SIGNAL_STMT"@ =~= seq!['S', 'I', 'G', 'N', 'A', 'L', '_', 'S', 'T', 'M', 'T']);
    reveal_strlit("C_ASSIGN");
    assert("C_ASSIGN"@ =~= seq!['C', '_', 'A', 'S', 'S', 'I', 'G', 'N']);
    reveal_strlit("OP");
    assert("OP"@ =~= seq!['O', 'P']);
    reveal_strlit("PLUS");
    assert("PLUS"@ =~= seq!['P', 'L', 'U', 'S']);
    reveal_strlit("ASSIGN");
    assert("ASSIGN"@ =~= seq!['A', 'S', 'S', 'I', 'G', 'N']);
    reveal_strlit("ASSIGN_STMT");
    assert("ASSIGN_STMT"@ =~= seq!['A', 'S', 'S', 'I', 'G', 'N', '_', 'S', 'T', 'M', 'T']);
    reveal_strlit("EXPR");
    assert("EXPR"@ =~= seq!['E', 'X', 'P', 'R']);
    reveal_strlit("C_ASSIGN_STMT");
    assert("C_ASSIGN_STMT"@ =~= seq!['C', '_', 'A', 'S', 'S', 'I', 'G', 'N', '_', 'S', 'T', 'M', 'T']);
    reveal_strlit("VAR_STMT");
    assert("VAR_STMT"@ =~= seq!['V', 'A', 'R', '_', 'S', 'T', 'M', 'T']);
    reveal_strlit("VAR_");
    assert("VAR_"@ =~= seq!['V', 'A', 'R', '_']);
    reveal_strlit("VAR_DEF");
    assert("VAR_DEF"@ =~= seq!['V', 'A', 'R', '_', 'D', 'E', 'F']);
    reveal_strlit("COMPONENT_STMT");
    assert("COMPONENT_STMT"@ =~= seq!['C', 'O', 'M', 'P', 'O', 'N', 'E', 'N', 'T', '_', 'S', 'T', 'M', 'T']);
    reveal_strlit("COMP_");
    assert("COMP_"@ =~= seq!['C', 'O', 'M', 'P', '_']);
    reveal_strlit("COMP_DEF");
    assert("COMP_DEF"@ =~= seq!['C', 'O', 'M', 'P', '_', 'D', 'E', 'F']);
}

proof fn lemma_head_kind_16()
    ensures
        head_kind("STMTS"@) == HeadKind::Stmts,
{
    reveal_strlit("HEADER");
    assert("HEADER"@ =~= seq!['H', 'E', 'A', 'D', 'E', 'R']);
    reveal_strlit("ID_OR_ARRAY");
    assert("ID_OR_ARRAY"@ =~= seq!['I', 'D', '_', 'O', 'R', '_', 'A', 'R', 'R', 'A', 'Y']);
    reveal_strlit("SIGNAL_STMT");
    assert("SIGNAL_STMT"@ =~= seq!['S', 'I', 'G', 'N', 'A', 'L', '_', 'S', 'T', 'M', 'T']);
    reveal_strlit("C_ASSIGN");
    assert("C_ASSIGN"@ =~= seq!['C', '_', 'A', 'S', 'S', 'I', 'G', 'N']);
    reveal_strlit("OP");
    assert("OP"@ =~= seq!['O', 'P']);
    reveal_strlit("PLUS");
    assert("PLUS"@ =~= seq!['P', 'L', 'U', 'S']);
    reveal_strlit("ASSIGN");
    assert("ASSIGN"@ =~= seq!['A', 'S', 'S', 'I', 'G', 'N']);
    reveal_strlit("ASSIGN_STMT");
    assert("ASSIGN_STMT"@ =~= seq!['A', 'S', 'S', 'I', 'G', 'N', '_', 'S', 'T', 'M', 'T']);
    reveal_strlit("EXPR");
    assert("EXPR"@ =~= seq!['E', 'X', 'P', 'R']);
    reveal_strlit("C_ASSIGN_STMT");
    assert("C_ASSIGN_STMT"@ =~= seq!['C', '_', 'A', 'S', 'S', 'I', 'G', 'N', '_', 'S', 'T', 'M', 'T']);
    reveal_strlit("VAR_STMT");
    assert("VAR_STMT"@ =~= seq!['V', 'A', 'R', '_', 'S', 'T', 'M', 'T']);
    reveal_strlit("VAR_");
    assert("VAR_"@ =~= seq!['V', 'A', 'R', '_']);
    reveal_strlit("VAR_DEF");
    assert("VAR_DEF"@ =~= seq!['V', 'A', 'R', '_', 'D', 'E', 'F']);
    reveal_strlit("COMPONENT_STMT");
    assert("COMPONENT_STMT"@ =~= seq!['C', 'O', 'M', 'P', 'O', 'N', 'E', 'N', 'T', '_', 'S', 'T', 'M', 'T']);
    reveal_strlit("COMP_");
    assert("COMP_"@ =~= seq!['C', 'O', 'M', 'P', '_']);
    reveal_strlit("COMP_DEF");
    assert("COMP_DEF"@ =~= seq!['C', 'O', 'M', 'P', '_', 'D', 'E', 'F']);
    reveal_strlit("STMTS");
    assert("STMTS"@ =~= seq!['S', 'T', 'M', 'T', 'S']);
}

proof fn lemma_head_kind_17()
    ensures
        head_kind("TEMPLATE_CONTENT"@) == HeadKind::TemplateContent,
{
    reveal_strlit("HEADER");
    assert("HEADER"@ =~= seq!['H', 'E', 'A', 'D', 'E', 'R']);
    reveal_strlit("ID_OR_ARRAY");
    assert("ID_OR_ARRAY"@ =~= seq!['I', 'D', '_', 'O', 'R', '_', 'A', 'R', 'R', 'A', 'Y']);
    reveal_strlit("SIGNAL_STMT");
    assert("SIGNAL_STMT"@ =~= seq!['S', 'I', 'G', 'N', 'A', 'L', '_', 'S', 'T', 'M', 'T']);
    reveal_strlit("C_ASSIGN");
    assert("C_ASSIGN"@ =~= seq!['C', '_', 'A', 'S', 'S', 'I', 'G', 'N']);
    reveal_strlit("OP");
    assert("OP"@ =~= seq!['O', 'P']);
    reveal_strlit("PLUS");
    assert("PLUS"@ =~= seq!['P', 'L', 'U', 'S']);
    reveal_strlit("ASSIGN");
    assert("ASSIGN"@ =~= seq!['A', 'S', 'S', 'I', 'G', 'N']);
    reveal_strlit("ASSIGN_STMT");
    assert("ASSIGN_STMT"@ =~= seq!['A', 'S', 'S', 'I', 'G', 'N', '_', 'S', 'T', 'M', 'T']);
    reveal_strlit("EXPR");
    assert("EXPR"@ =~= seq!['E', 'X', 'P', 'R']);
    reveal_strlit("C_ASSIGN_STMT");
    assert("C_ASSIGN_STMT"@ =~= seq!['C', '_', 'A', 'S', 'S', 'I', 'G', 'N', '_', 'S', 'T', 'M', 'T']);
    reveal_strlit("VAR_STMT");
    assert("VAR_STMT"@ =~= seq!['V', 'A', 'R', '_', 'S', 'T', 'M', 'T']);
    reveal_strlit("VAR_");
    assert("VAR_"@ =~= seq!['V', 'A', 'R', '_']);
    reveal_strlit("VAR_DEF");
    assert("VAR_DEF"@ =~= seq!['V', 'A', 'R', '_', 'D', 'E', 'F']);
    reveal_strlit("COMPONENT_STMT");
    assert("COMPONENT_STMT"@ =~= seq!['C', 'O', 'M', 'P', 'O', 'N', 'E', 'N', 'T', '_', 'S', 'T', 'M', 'T']);
    reveal_strlit("COMP_");
    assert("COMP_"@ =~= seq!['C', 'O', 'M', 'P', '_']);
    reveal_strlit("COMP_DEF");
    assert("COMP_DEF"@ =~= seq!['C', 'O', 'M', 'P', '_', 'D', 'E', 'F']);
    reveal_strlit("STMTS");
    assert("STMTS"@ =~= seq!['S', 'T', 'M', 'T', 'S']);
    reveal_strlit("TEMPLATE_CONTENT");
    assert("TEMPLATE_CONTENT"@ =~= seq!['T', 'E', 'M', 'P', 'L', 'A', 'T', 'E', '_', 'C', 'O', 'N', 'T', 'E', 'N', 'T']);
}

proof fn lemma_head_kind_18()
    ensures
        head_kind("TEMPLATE_STMT"@) == HeadKind::TemplateStmt,
{
    reveal_strlit("HEADER");
    assert("HEADER"@ =~= seq!['H', 'E', 'A', 'D', 'E', 'R']);
    reveal_strlit("ID_OR_ARRAY");
    assert("ID_OR_ARRAY"@ =~= seq!['I', 'D', '_', 'O', 'R', '_', 'A', 'R', 'R', 'A', 'Y']);
    reveal_strlit("SIGNAL_STMT");
    assert("SIGNAL_STMT"@ =~= seq!['S', 'I', 'G', 'N', 'A', 'L', '_', 'S', 'T', 'M', 'T']);
    reveal_strlit("C_ASSIGN");
    assert("C_ASSIGN"@ =~= seq!['C', '_', 'A', 'S', 'S', 'I', 'G', 'N']);
    reveal_strlit("OP");
    assert("OP"@ =~= seq!['O', 'P']);
    reveal_strlit("PLUS");
    assert("PLUS"@ =~= seq!['P', 'L', 'U', 'S']);
    reveal_strlit("ASSIGN");
    assert("ASSIGN"@ =~= seq!['A', 'S', 'S', 'I', 'G', 'N']);
    reveal_strlit("ASSIGN_STMT");
    assert("ASSIGN_STMT"@ =~= seq!['A', 'S', 'S', 'I', 'G', 'N', '_', 'S', 'T', 'M', 'T']);
    reveal_strlit("EXPR");
    assert("EXPR"@ =~= seq!['E', 'X', 'P', 'R']);
    reveal_strlit("C_ASSIGN_STMT");
    assert("C_ASSIGN_STMT"@ =~= seq!['C', '_', 'A', 'S', 'S', 'I', 'G', 'N', '_', 'S', 'T', 'M', 'T']);
    reveal_strlit("VAR_STMT");
    assert("VAR_STMT"@ =~= seq!['V', 'A', 'R', '_', 'S', 'T', 'M', 'T']);
    reveal_strlit("VAR_");
    assert("VAR_"@ =~= seq!['V', 'A', 'R', '_']);
    reveal_strlit("VAR_DEF");
    assert("VAR_DEF"@ =~= seq!['V', 'A', 'R', '_', 'D', 'E', 'F']);
    reveal_strlit("COMPONENT_STMT");
    assert("COMPONENT_STMT"@ =~= seq!['C', 'O', 'M', 'P', 'O', 'N', 'E', 'N', 'T', '_', 'S', 'T', 'M', 'T']);
    reveal_strlit("COMP_");
    assert("COMP_"@ =~= seq!['C', 'O', 'M', 'P', '_']);
    reveal_strlit("COMP_DEF");
    assert("COMP_DEF"@ =~= seq!['C', 'O', 'M', 'P', '_', 'D', 'E', 'F']);
    reveal_strlit("STMTS");
    assert("STMTS"@ =~= seq!['S', 'T', 'M', 'T', 'S']);
    reveal_strlit("TEMPLATE_CONTENT");
    assert("TEMPLATE_CONTENT"@ =~= seq!['T', 'E', 'M', 'P', 'L', 'A', 'T', 'E', '_', 'C', 'O', 'N', 'T', 'E', 'N', 'T']);
    reveal_strlit("TEMPLATE_STMT");
    assert("TEMPLATE_STMT"@ =~= seq!['T', 'E', 'M', 'P', 'L', 'A', 'T', 'E', '_', 'S', 'T', 'M', 'T']);
}

proof fn lemma_head_kind_19()
    ensures
        head_kind("FUNC_STMT"@) == HeadKind::FuncStmt,
{
    reveal_strlit("HEADER");
    assert("HEADER"@ =~= seq!['H', 'E', 'A', 'D', 'E', 'R']);
    reveal_strlit("ID_OR_ARRAY");
    assert("ID_OR_ARRAY"@ =~= seq!['I', 'D', '_', 'O', 'R', '_', 'A', 'R', 'R', 'A', 'Y']);
    reveal_strlit("SIGNAL_STMT");
    assert("SIGNAL_STMT"@ =~= seq!['S', 'I', 'G', 'N', 'A', 'L', '_', 'S', 'T', 'M', 'T']);
    reveal_strlit("C_ASSIGN");
    assert("C_ASSIGN"@ =~= seq!['C', '_', 'A', 'S', 'S', 'I', 'G', 'N']);
    reveal_strlit("OP");
    assert("OP"@ =~= seq!['O', 'P']);
    reveal_strlit("PLUS");
    assert("PLUS"@ =~= seq!['P', 'L', 'U', 'S']);
    reveal_strlit("ASSIGN");
    assert("ASSIGN"@ =~= seq!['A', 'S', 'S', 'I', 'G', 'N']);
    reveal_strlit("ASSIGN_STMT");
    assert("ASSIGN_STMT"@ =~= seq!['A', 'S', 'S', 'I', 'G', 'N', '_', 'S', 'T', 'M', 'T']);
    reveal_strlit("EXPR");
    assert("EXPR"@ =~= seq!['E', 'X', 'P', 'R']);
    reveal_strlit("C_ASSIGN_STMT");
    assert("C_ASSIGN_STMT"@ =~= seq!['C', '_', 'A', 'S', 'S', 'I', 'G', 'N', '_', 'S', 'T', 'M', 'T']);
    reveal_strlit("VAR_STMT");
    assert("VAR_STMT"@ =~= seq!['V', 'A', 'R', '_', 'S', 'T', 'M', 'T']);
    reveal_strlit("VAR_");
    assert("VAR_"@ =~= seq!['V', 'A', 'R', '_']);
    reveal_strlit("VAR_DEF");
    assert("VAR_DEF"@ =~= seq!['V', 'A', 'R', '_', 'D', 'E', 'F']);
    reveal_strlit("COMPONENT_STMT");
    assert("COMPONENT_STMT"@ =~= seq!['C', 'O', 'M', 'P', 'O', 'N', 'E', 'N', 'T', '_', 'S', 'T', 'M', 'T']);
    reveal_strlit("COMP_");
    assert("COMP_"@ =~= seq!['C', 'O', 'M', 'P', '_']);
    reveal_strlit("COMP_DEF");
    assert("COMP_DEF"@ =~= seq!['C', 'O', 'M', 'P', '_', 'D', 'E', 'F']);
    reveal_strlit("STMTS");
    assert("STMTS"@ =~= seq!['S', 'T', 'M', 'T', 'S']);
    reveal_strlit("TEMPLATE_CONTENT");
    assert("TEMPLATE_CONTENT"@ =~= seq!['T', 'E', 'M', 'P', 'L', 'A', 'T', 'E', '_', 'C', 'O', 'N', 'T', 'E', 'N', 'T']);
    reveal_strlit("TEMPLATE_STMT");
    assert("TEMPLATE_STMT"@ =~= seq!['T', 'E', 'M', 'P', 'L', 'A', 'T', 'E', '_', 'S', 'T', 'M', 'T']);
    reveal_strlit("FUNC_STMT");
    assert("FUNC_STMT"@ =~= seq!['F', 'U', 'N', 'C', '_', 'S', 'T', 'M', 'T']);
}

proof fn lemma_head_kind_20()
    ensures
        head_kind("RET_STMT"@) == HeadKind::RetStmt,
{
    reveal_strlit("HEADER");
    assert("HEADER"@ =~= seq!['H', 'E', 'A', 'D', 'E', 'R']);
    reveal_strlit("ID_OR_ARRAY");
    assert("ID_OR_ARRAY"@ =~= seq!['I', 'D', '_', 'O', 'R', '_', 'A', 'R', 'R', 'A', 'Y']);
    reveal_strlit("SIGNAL_STMT");
    assert("SIGNAL_STMT"@ =~= seq!['S', 'I', 'G', 'N', 'A', 'L', '_', 'S', 'T', 'M', 'T']);
    reveal_strlit("C_ASSIGN");
    assert("C_ASSIGN"@ =~= seq!['C', '_', 'A', 'S', 'S', 'I', 'G', 'N']);
    reveal_strlit("OP");
    assert("OP"@ =~= seq!['O', 'P']);
    reveal_strlit("PLUS");
    assert("PLUS"@ =~= seq!['P', 'L', 'U', 'S']);
    reveal_strlit("ASSIGN");
    assert("ASSIGN"@ =~= seq!['A', 'S', 'S', 'I', 'G', 'N']);
    reveal_strlit("ASSIGN_STMT");
    assert("ASSIGN_STMT"@ =~= seq!['A', 'S', 'S', 'I', 'G', 'N', '_', 'S', 'T', 'M', 'T']);
    reveal_strlit("EXPR");
    assert("EXPR"@ =~= seq!['E', 'X', 'P', 'R']);
    reveal_strlit("C_ASSIGN_STMT");
    assert("C_ASSIGN_STMT"@ =~= seq!['C', '_', 'A', 'S', 'S', 'I', 'G', 'N', '_', 'S', 'T', 'M', 'T']);
    reveal_strlit("VAR_STMT");
    assert("VAR_STMT"@ =~= seq!['V', 'A', 'R', '_', 'S', 'T', 'M', 'T']);
    reveal_strlit("VAR_");
    assert("VAR_"@ =~= seq!['V', 'A', 'R', '_']);
    reveal_strlit("VAR_DEF");
    assert("VAR_DEF"@ =~= seq!['V', 'A', 'R', '_', 'D', 'E', 'F']);
    reveal_strlit("COMPONENT_STMT");
    assert("COMPONENT_STMT"@ =~= seq!['C', 'O', 'M', 'P', 'O', 'N', 'E', 'N', 'T', '_', 'S', 'T', 'M', 'T']);
    reveal_strlit("COMP_");
    assert("COMP_"@ =~= seq!['C', 'O', 'M', 'P', '_']);
    reveal_strlit("COMP_DEF");
    assert("COMP_DEF"@ =~= seq!['C', 'O', 'M', 'P', '_', 'D', 'E', 'F']);
    reveal_strlit("STMTS");
    assert("STMTS"@ =~= seq!['S', 'T', 'M', 'T', 'S']);
    reveal_strlit("TEMPLATE_CONTENT");
    assert("TEMPLATE_CONTENT"@ =~= seq!['T', 'E', 'M', 'P', 'L', 'A', 'T', 'E', '_', 'C', 'O', 'N', 'T', 'E', 'N', 'T']);
    reveal_strlit("TEMPLATE_STMT");
    assert("TEMPLATE_STMT"@ =~= seq!['T', 'E', 'M', 'P', 'L', 'A', 'T', 'E', '_', 'S', 'T', 'M', 'T']);
    reveal_strlit("FUNC_STMT");
    assert("FUNC_STMT"@ =~= seq!['F', 'U', 'N', 'C', '_', 'S', 'T', 'M', 'T']);
    reveal_strlit("RET_STMT");
    assert("RET_STMT"@ =~= seq!['R', 'E', 'T', '_', 'S', 'T', 'M', 'T']);
}

proof fn lemma_head_kind_21()
    ensures
        head_kind("COMPONENT_BLOCK"@) == HeadKind::ComponentBlock,
{
    reveal_strlit("HEADER");
    assert("HEADER"@ =~= seq!['H', 'E', 'A', 'D', 'E', 'R']);
    reveal_strlit("ID_OR_ARRAY");
    assert("ID_OR_ARRAY"@ =~= seq!['I', 'D', '_', 'O', 'R', '_', 'A', 'R', 'R', 'A', 'Y']);
    reveal_strlit("SIGNAL_STMT");
    assert("SIGNAL_STMT"@ =~= seq!['S', 'I', 'G', 'N', 'A', 'L', '_', 'S', 'T', 'M', 'T']);
    reveal_strlit("C_ASSIGN");
    assert("C_ASSIGN"@ =~= seq!['C', '_', 'A', 'S', 'S', 'I', 'G', 'N']);
    reveal_strlit("OP");
    assert("OP"@ =~= seq!['O', 'P']);
    reveal_strlit("PLUS");
    assert("PLUS"@ =~= seq!['P', 'L', 'U', 'S']);
    reveal_strlit("ASSIGN");
    assert("ASSIGN"@ =~= seq!['A', 'S', 'S', 'I', 'G', 'N']);
    reveal_strlit("ASSIGN_STMT");
    assert("ASSIGN_STMT"@ =~= seq!['A', 'S', 'S', 'I', 'G', 'N', '_', 'S', 'T', 'M', 'T']);
    reveal_strlit("EXPR");
    assert("EXPR"@ =~= seq!['E', 'X', 'P', 'R']);
    reveal_strlit("C_ASSIGN_STMT");
    assert("C_ASSIGN_STMT"@ =~= seq!['C', '_', 'A', 'S', 'S', 'I', 'G', 'N', '_', 'S', 'T', 'M', 'T']);
    reveal_strlit("VAR_STMT");
    assert("VAR_STMT"@ =~= seq!['V', 'A', 'R', '_', 'S', 'T', 'M', 'T']);
    reveal_strlit("VAR_");
    assert("VAR_"@ =~= seq!['V', 'A', 'R', '_']);
    reveal_strlit("VAR_DEF");
    assert("VAR_DEF"@ =~= seq!['V', 'A', 'R', '_', 'D', 'E', 'F']);
    reveal_strlit("COMPONENT_STMT");
    assert("COMPONENT_STMT"@ =~= seq!['C', 'O', 'M', 'P', 'O', 'N', 'E', 'N', 'T', '_', 'S', 'T', 'M', 'T']);
    reveal_strlit("COMP_");
    assert("COMP_"@ =~= seq!['C', 'O', 'M', 'P', '_']);
    reveal_strlit("COMP_DEF");
    assert("COMP_DEF"@ =~= seq!['C', 'O', 'M', 'P', '_', 'D', 'E', 'F']);
    reveal_strlit("STMTS");
    assert("STMTS"@ =~= seq!['S', 'T', 'M', 'T', 'S']);
    reveal_strlit("TEMPLATE_CONTENT");
    assert("TEMPLATE_CONTENT"@ =~= seq!['T', 'E', 'M', 'P', 'L', 'A', 'T', 'E', '_', 'C', 'O', 'N', 'T', 'E', 'N', 'T']);
    reveal_strlit("TEMPLATE_STMT");
    assert("TEMPLATE_STMT"@ =~= seq!['T', 'E', 'M', 'P', 'L', 'A', 'T', 'E', '_', 'S', 'T', 'M', 'T']);
    reveal_strlit("FUNC_STMT");
    assert("FUNC_STMT"@ =~= seq!['F', 'U', 'N', 'C', '_', 'S', 'T', 'M', 'T']);
    reveal_strlit("RET_STMT");
    assert("RET_STMT"@ =~= seq!['R', 'E', 'T', '_', 'S', 'T', 'M', 'T']);
    reveal_strlit("COMPONENT_BLOCK");
    assert("COMPONENT_BLOCK"@ =~= seq!['C', 'O', 'M', 'P', 'O', 'N', 'E', 'N', 'T', '_', 'B', 'L', 'O', 'C', 'K']);
}

proof fn lemma_head_kind_22()
    ensures
        head_kind("PROGRAM"@) == HeadKind::Program,
{
    reveal_strlit("HEADER");
    assert("HEADER"@ =~= seq!['H', 'E', 'A', 'D', 'E', 'R']);
    reveal_strlit("ID_OR_ARRAY");
    assert("ID_OR_ARRAY"@ =~= seq!['I', 'D', '_', 'O', 'R', '_', 'A', 'R', 'R', 'A', 'Y']);
    reveal_strlit("SIGNAL_STMT");
    assert("SIGNAL_STMT"@ =~= seq!['S', 'I', 'G', 'N', 'A', 'L', '_', 'S', 'T', 'M', 'T']);
    reveal_strlit("C_ASSIGN");
    assert("C_ASSIGN"@ =~= seq!['C', '_', 'A', 'S', 'S', 'I', 'G', 'N']);
    reveal_strlit("OP");
    assert("OP"@ =~= seq!['O', 'P']);
    reveal_strlit("PLUS");
    assert("PLUS"@ =~= seq!['P', 'L', 'U', 'S']);
    reveal_strlit("ASSIGN");
    assert("ASSIGN"@ =~= seq!['A', 'S', 'S', 'I', 'G', 'N']);
    reveal_strlit("ASSIGN_STMT");
    assert("ASSIGN_STMT"@ =~= seq!['A', 'S', 'S', 'I', 'G', 'N', '_', 'S', 'T', 'M', 'T']);
    reveal_strlit("EXPR");
    assert("EXPR"@ =~= seq!['E', 'X', 'P', 'R']);
    reveal_strlit("C_ASSIGN_STMT");
    assert("C_ASSIGN_STMT"@ =~= seq!['C', '_', 'A', 'S', 'S', 'I', 'G', 'N', '_', 'S', 'T', 'M', 'T']);
    reveal_strlit("VAR_STMT");
    assert("VAR_STMT"@ =~= seq!['V', 'A', 'R', '_', 'S', 'T', 'M', 'T']);
    reveal_strlit("VAR_");
    assert("VAR_"@ =~= seq!['V', 'A', 'R', '_']);
    reveal_strlit("VAR_DEF");
    assert("VAR_DEF"@ =~= seq!['V', 'A', 'R', '_', 'D', 'E', 'F']);
    reveal_strlit("COMPONENT_STMT");
    assert("COMPONENT_STMT"@ =~= seq!['C', 'O', 'M', 'P', 'O', 'N', 'E', 'N', 'T', '_', 'S', 'T', 'M', 'T']);
    reveal_strlit("COMP_");
    assert("COMP_"@ =~= seq!['C', 'O', 'M', 'P', '_']);
    reveal_strlit("COMP_DEF");
    assert("COMP_DEF"@ =~= seq!['C', 'O', 'M', 'P', '_', 'D', 'E', 'F']);
    reveal_strlit("STMTS");
    assert("STMTS"@ =~= seq!['S', 'T', 'M', 'T', 'S']);
    reveal_strlit("TEMPLATE_CONTENT");
    assert("TEMPLATE_CONTENT"@ =~= seq!['T', 'E', 'M', 'P', 'L', 'A', 'T', 'E', '_', 'C', 'O', 'N', 'T', 'E', 'N', 'T']);
    reveal_strlit("TEMPLATE_STMT");
    assert("TEMPLATE_STMT"@ =~= seq!['T', 'E', 'M', 'P', 'L', 'A', 'T', 'E', '_', 'S', 'T', 'M', 'T']);
    reveal_strlit("FUNC_STMT");
    assert("FUNC_STMT"@ =~= seq!['F', 'U', 'N', 'C', '_', 'S', 'T', 'M', 'T']);
    reveal_strlit("RET_STMT");
    assert("RET_STMT"@ =~= seq!['R', 'E', 'T', '_', 'S', 'T', 'M', 'T']);
    reveal_strlit("COMPONENT_BLOCK");
    assert("COMPONENT_BLOCK"@ =~= seq!['C', 'O', 'M', 'P', 'O', 'N', 'E', 'N', 'T', '_', 'B', 'L', 'O', 'C', 'K']);
    reveal_strlit("PROGRAM");
    assert("PROGRAM"@ =~= seq!['P', 'R', 'O', 'G', 'R', 'A', 'M']);
}

proof fn lemma_head_kind_23()
    ensures
        head_kind("ID_OR_NUM"@) == HeadKind::IdOrNum,
{
    reveal_strlit("HEADER");
    assert("HEADER"@ =~= seq!['H', 'E', 'A', 'D', 'E', 'R']);
    reveal_strlit("ID_OR_ARRAY");
    assert("ID_OR_ARRAY"@ =~= seq!['I', 'D', '_', 'O', 'R', '_', 'A', 'R', 'R', 'A', 'Y']);
    reveal_strlit("SIGNAL_STMT");
    assert("SIGNAL_STMT"@ =~= seq!['S', 'I', 'G', 'N', 'A', 'L', '_', 'S', 'T', 'M', 'T']);
    reveal_strlit("C_ASSIGN");
    assert("C_ASSIGN"@ =~= seq!['C', '_', 'A', 'S', 'S', 'I', 'G', 'N']);
    reveal_strlit("OP");
    assert("OP"@ =~= seq!['O', 'P']);
    reveal_strlit("PLUS");
    assert("PLUS"@ =~= seq!['P', 'L', 'U', 'S']);
    reveal_strlit("ASSIGN");
    assert("ASSIGN"@ =~= seq!['A', 'S', 'S', 'I', 'G', 'N']);
    reveal_strlit("ASSIGN_STMT");
    assert("ASSIGN_STMT"@ =~= seq!['A', 'S', 'S', 'I', 'G', 'N', '_', 'S', 'T', 'M', 'T']);
    reveal_strlit("EXPR");
    assert("EXPR"@ =~= seq!['E', 'X', 'P', 'R']);
    reveal_strlit("C_ASSIGN_STMT");
    assert("C_ASSIGN_STMT"@ =~= seq!['C', '_', 'A', 'S', 'S', 'I', 'G', 'N', '_', 'S', 'T', 'M', 'T']);
    reveal_strlit("VAR_STMT");
    assert("VAR_STMT"@ =~= seq!['V', 'A', 'R', '_', 'S', 'T', 'M', 'T']);
    reveal_strlit("VAR_");
    assert("VAR_"@ =~= seq!['V', 'A', 'R', '_']);
    reveal_strlit("VAR_DEF");
    assert("VAR_DEF"@ =~= seq!['V', 'A', 'R', '_', 'D', 'E', 'F']);
    reveal_strlit("COMPONENT_STMT");
    assert("COMPONENT_STMT"@ =~= seq!['C', 'O', 'M', 'P', 'O', 'N', 'E', 'N', 'T', '_', 'S', 'T', 'M', 'T']);
    reveal_strlit("COMP_");
    assert("COMP_"@ =~= seq!['C', 'O', 'M', 'P', '_']);
    reveal_strlit("COMP_DEF");
    assert("COMP_DEF"@ =~= seq!['C', 'O', 'M', 'P', '_', 'D', 'E', 'F']);
    reveal_strlit("STMTS");
    assert("STMTS"@ =~= seq!['S', 'T', 'M', 'T', 'S']);
    reveal_strlit("TEMPLATE_CONTENT");
    assert("TEMPLATE_CONTENT"@ =~= seq!['T', 'E', 'M', 'P', 'L', 'A', 'T', 'E', '_', 'C', 'O', 'N', 'T', 'E', 'N', 'T']);
    reveal_strlit("TEMPLATE_STMT");
    assert("TEMPLATE_STMT"@ =~= seq!['T', 'E', 'M', 'P', 'L', 'A', 'T', 'E', '_', 'S', 'T', 'M', 'T']);
    reveal_strlit("FUNC_STMT");
    assert("FUNC_STMT"@ =~= seq!['F', 'U', 'N', 'C', '_', 'S', 'T', 'M', 'T']);
    reveal_strlit("RET_STMT");
    assert("RET_STMT"@ =~= seq!['R', 'E', 'T', '_', 'S', 'T', 'M', 'T']);
    reveal_strlit("COMPONENT_BLOCK");
    assert("COMPONENT_BLOCK"@ =~= seq!['C', 'O', 'M', 'P', 'O', 'N', 'E', 'N', 'T', '_', 'B', 'L', 'O', 'C', 'K']);
    reveal_strlit("PROGRAM");
    assert("PROGRAM"@ =~= seq!['P', 'R', 'O', 'G', 'R', 'A', 'M']);
    reveal_strlit("ID_OR_NUM");
    assert("ID_OR_NUM"@ =~= seq!['I', 'D', '_', 'O', 'R', '_', 'N', 'U', 'M']);
}

proof fn lemma_head_kind_24()
    ensures
        head_kind("PARAM"@) == HeadKind::Param,
{
    reveal_strlit("HEADER");
    assert("HEADER"@ =~= seq!['H', 'E', 'A', 'D', 'E', 'R']);
    reveal_strlit("ID_OR_ARRAY");
    assert("ID_OR_ARRAY"@ =~= seq!['I', 'D', '_', 'O', 'R', '_', 'A', 'R', 'R', 'A', 'Y']);
    reveal_strlit("SIGNAL_STMT");
    assert("SIGNAL_STMT"@ =~= seq!['S', 'I', 'G', 'N', 'A', 'L', '_', 'S', 'T', 'M', 'T']);
    reveal_strlit("C_ASSIGN");
    assert("C_ASSIGN"@ =~= seq!['C', '_', 'A', 'S', 'S', 'I', 'G', 'N']);
    reveal_strlit("OP");
    assert("OP"@ =~= seq!['O', 'P']);
    reveal_strlit("PLUS");
    assert("PLUS"@ =~= seq!['P', 'L', 'U', 'S']);
    reveal_strlit("ASSIGN");
    assert("ASSIGN"@ =~= seq!['A', 'S', 'S', 'I', 'G', 'N']);
    reveal_strlit("ASSIGN_STMT");
    assert("ASSIGN_STMT"@ =~= seq!['A', 'S', 'S', 'I', 'G', 'N', '_', 'S', 'T', 'M', 'T']);
    reveal_strlit("EXPR");
    assert("EXPR"@ =~= seq!['E', 'X', 'P', 'R']);
    reveal_strlit("C_ASSIGN_STMT");
    assert("C_ASSIGN_STMT"@ =~= seq!['C', '_', 'A', 'S', 'S', 'I', 'G', 'N', '_', 'S', 'T', 'M', 'T']);
    reveal_strlit("VAR_STMT");
    assert("VAR_STMT"@ =~= seq!['V', 'A', 'R', '_', 'S', 'T', 'M', 'T']);
    reveal_strlit("VAR_");
    assert("VAR_"@ =~= seq!['V', 'A', 'R', '_']);
    reveal_strlit("VAR_DEF");
    assert("VAR_DEF"@ =~= seq!['V', 'A', 'R', '_', 'D', 'E', 'F']);
    reveal_strlit("COMPONENT_STMT");
    assert("COMPONENT_STMT"@ =~= seq!['C', 'O', 'M', 'P', 'O', 'N', 'E', 'N', 'T', '_', 'S', 'T', 'M', 'T']);
    reveal_strlit("COMP_");
    assert("COMP_"@ =~= seq!['C', 'O', 'M', 'P', '_']);
    reveal_strlit("COMP_DEF");
    assert("COMP_DEF"@ =~= seq!['C', 'O', 'M', 'P', '_', 'D', 'E', 'F']);
    reveal_strlit("STMTS");
    assert("STMTS"@ =~= seq!['S', 'T', 'M', 'T', 'S']);
    reveal_strlit("TEMPLATE_CONTENT");
    assert("TEMPLATE_CONTENT"@ =~= seq!['T', 'E', 'M', 'P', 'L', 'A', 'T', 'E', '_', 'C', 'O', 'N', 'T', 'E', 'N', 'T']);
    reveal_strlit("TEMPLATE_STMT");
    assert("TEMPLATE_STMT"@ =~= seq!['T', 'E', 'M', 'P', 'L', 'A', 'T', 'E', '_', 'S', 'T', 'M', 'T']);
    reveal_strlit("FUNC_STMT");
    assert("FUNC_STMT"@ =~= seq!['F', 'U', 'N', 'C', '_', 'S', 'T', 'M', 'T']);
    reveal_strlit("RET_STMT");
    assert("RET_STMT"@ =~= seq!['R', 'E', 'T', '_', 'S', 'T', 'M', 'T']);
    reveal_strlit("COMPONENT_BLOCK");
    assert("COMPONENT_BLOCK"@ =~= seq!['C', 'O', 'M', 'P', 'O', 'N', 'E', 'N', 'T', '_', 'B', 'L', 'O', 'C', 'K']);
    reveal_strlit("PROGRAM");
    assert("PROGRAM"@ =~= seq!['P', 'R', 'O', 'G', 'R', 'A', 'M']);
    reveal_strlit("ID_OR_NUM");
    assert("ID_OR_NUM"@ =~= seq!['I', 'D', '_', 'O', 'R', '_', 'N', 'U', 'M']);
    reveal_strlit("PARAM");
    assert("PARAM"@ =~= seq!['P', 'A', 'R', 'A', 'M']);
}

proof fn lemma_head_kind_25()
    ensures
        head_kind("IF_STMT"@) == HeadKind::IfStmt,
{
    reveal_strlit("HEADER");
    assert("HEADER"@ =~= seq!['H', 'E', 'A', 'D', 'E', 'R']);
    reveal_strlit("ID_OR_ARRAY");
    assert("ID_OR_ARRAY"@ =~= seq!['I', 'D', '_', 'O', 'R', '_', 'A', 'R', 'R', 'A', 'Y']);
    reveal_strlit("SIGNAL_STMT");
    assert("SIGNAL_STMT"@ =~= seq!['S', 'I', 'G', 'N', 'A', 'L', '_', 'S', 'T', 'M', 'T']);
    reveal_strlit("C_ASSIGN");
    assert("C_ASSIGN"@ =~= seq!['C', '_', 'A', 'S', 'S', 'I', 'G', 'N']);
    reveal_strlit("OP");
    assert("OP"@ =~= seq!['O', 'P']);
    reveal_strlit("PLUS");
    assert("PLUS"@ =~= seq!['P', 'L', 'U', 'S']);
    reveal_strlit("ASSIGN");
    assert("ASSIGN"@ =~= seq!['A', 'S', 'S', 'I', 'G', 'N']);
    reveal_strlit("ASSIGN_STMT");
    assert("ASSIGN_STMT"@ =~= seq!['A', 'S', 'S', 'I', 'G', 'N', '_', 'S', 'T', 'M', 'T']);
    reveal_strlit("EXPR");
    assert("EXPR"@ =~= seq!['E', 'X', 'P', 'R']);
    reveal_strlit("C_ASSIGN_STMT");
    assert("C_ASSIGN_STMT"@ =~= seq!['C', '_', 'A', 'S', 'S', 'I', 'G', 'N', '_', 'S', 'T', 'M', 'T']);
    reveal_strlit("VAR_STMT");
    assert("VAR_STMT"@ =~= seq!['V', 'A', 'R', '_', 'S', 'T', 'M', 'T']);
    reveal_strlit("VAR_");
    assert("VAR_"@ =~= seq!['V', 'A', 'R', '_']);
    reveal_strlit("VAR_DEF");
    assert("VAR_DEF"@ =~= seq!['V', 'A', 'R', '_', 'D', 'E', 'F']);
    reveal_strlit("COMPONENT_STMT");
    assert("COMPONENT_STMT"@ =~= seq!['C', 'O', 'M', 'P', 'O', 'N', 'E', 'N', 'T', '_', 'S', 'T', 'M', 'T']);
    reveal_strlit("COMP_");
    assert("COMP_"@ =~= seq!['C', 'O', 'M', 'P', '_']);
    reveal_strlit("COMP_DEF");
    assert("COMP_DEF"@ =~= seq!['C', 'O', 'M', 'P', '_', 'D', 'E', 'F']);
    reveal_strlit("STMTS");
    assert("STMTS"@ =~= seq!['S', 'T', 'M', 'T', 'S']);
    reveal_strlit("TEMPLATE_CONTENT");
    assert("TEMPLATE_CONTENT"@ =~= seq!['T', 'E', 'M', 'P', 'L', 'A', 'T', 'E', '_', 'C', 'O', 'N', 'T', 'E', 'N', 'T']);
    reveal_strlit("TEMPLATE_STMT");
    assert("TEMPLATE_STMT"@ =~= seq!['T', 'E', 'M', 'P', 'L', 'A', 'T', 'E', '_', 'S', 'T', 'M', 'T']);
    reveal_strlit("FUNC_STMT");
    assert("FUNC_STMT"@ =~= seq!['F', 'U', 'N', 'C', '_', 'S', 'T', 'M', 'T']);
    reveal_strlit("RET_STMT");
    assert("RET_STMT"@ =~= seq!['R', 'E', 'T', '_', 'S', 'T', 'M', 'T']);
    reveal_strlit("COMPONENT_BLOCK");
    assert("COMPONENT_BLOCK"@ =~= seq!['C', 'O', 'M', 'P', 'O', 'N', 'E', 'N', 'T', '_', 'B', 'L', 'O', 'C', 'K']);
    reveal_strlit("PROGRAM");
    assert("PROGRAM"@ =~= seq!['P', 'R', 'O', 'G', 'R', 'A', 'M']);
    reveal_strlit("ID_OR_NUM");
    assert("ID_OR_NUM"@ =~= seq!['I', 'D', '_', 'O', 'R', '_', 'N', 'U', 'M']);
    reveal_strlit("PARAM");
    assert("PARAM"@ =~= seq!['P', 'A', 'R', 'A', 'M']);
    reveal_strlit("IF_STMT");
    assert("IF_STMT"@ =~= seq!['I', 'F', '_', 'S', 'T', 'M', 'T']);
}

proof fn lemma_head_kind_26()
    ensures
        head_kind("CONDITION"@) == HeadKind::Condition,
{
    reveal_strlit("HEADER");
    assert("HEADER"@ =~= seq!['H', 'E', 'A', 'D', 'E', 'R']);
    reveal_strlit("ID_OR_ARRAY");
    assert("ID_OR_ARRAY"@ =~= seq!['I', 'D', '_', 'O', 'R', '_', 'A', 'R', 'R', 'A', 'Y']);
    reveal_strlit("SIGNAL_STMT");
    assert("SIGNAL_STMT"@ =~= seq!['S', 'I', 'G', 'N', 'A', 'L', '_', 'S', 'T', 'M', 'T']);
    reveal_strlit("C_ASSIGN");
    assert("C_ASSIGN"@ =~= seq!['C', '_', 'A', 'S', 'S', 'I', 'G', 'N']);
    reveal_strlit("OP");
    assert("OP"@ =~= seq!['O', 'P']);
    reveal_strlit("PLUS");
    assert("PLUS"@ =~= seq!['P', 'L', 'U', 'S']);
    reveal_strlit("ASSIGN");
    assert("ASSIGN"@ =~= seq!['A', 'S', 'S', 'I', 'G', 'N']);
    reveal_strlit("ASSIGN_STMT");
    assert("ASSIGN_STMT"@ =~= seq!['A', 'S', 'S', 'I', 'G', 'N', '_', 'S', 'T', 'M', 'T']);
    reveal_strlit("EXPR");
    assert("EXPR"@ =~= seq!['E', 'X', 'P', 'R']);
    reveal_strlit("C_ASSIGN_STMT");
    assert("C_ASSIGN_STMT"@ =~= seq!['C', '_', 'A', 'S', 'S', 'I', 'G', 'N', '_', 'S', 'T', 'M', 'T']);
    reveal_strlit("VAR_STMT");
    assert("VAR_STMT"@ =~= seq!['V', 'A', 'R', '_', 'S', 'T', 'M', 'T']);
    reveal_strlit("VAR_");
    assert("VAR_"@ =~= seq!['V', 'A', 'R', '_']);
    reveal_strlit("VAR_DEF");
    assert("VAR_DEF"@ =~= seq!['V', 'A', 'R', '_', 'D', 'E', 'F']);
    reveal_strlit("COMPONENT_STMT");
    assert("COMPONENT_STMT"@ =~= seq!['C', 'O', 'M', 'P', 'O', 'N', 'E', 'N', 'T', '_', 'S', 'T', 'M', 'T']);
    reveal_strlit("COMP_");
    assert("COMP_"@ =~= seq!['C', 'O', 'M', 'P', '_']);
    reveal_strlit("COMP_DEF");
    assert("COMP_DEF"@ =~= seq!['C', 'O', 'M', 'P', '_', 'D', 'E', 'F']);
    reveal_strlit("STMTS");
    assert("STMTS"@ =~= seq!['S', 'T', 'M', 'T', 'S']);
    reveal_strlit("TEMPLATE_CONTENT");
    assert("TEMPLATE_CONTENT"@ =~= seq!['T', 'E', 'M', 'P', 'L', 'A', 'T', 'E', '_', 'C', 'O', 'N', 'T', 'E', 'N', 'T']);
    reveal_strlit("TEMPLATE_STMT");
    assert("TEMPLATE_STMT"@ =~= seq!['T', 'E', 'M', 'P', 'L', 'A', 'T', 'E', '_', 'S', 'T', 'M', 'T']);
    reveal_strlit("FUNC_STMT");
    assert("FUNC_STMT"@ =~= seq!['F', 'U', 'N', 'C', '_', 'S', 'T', 'M', 'T']);
    reveal_strlit("RET_STMT");
    assert("RET_STMT"@ =~= seq!['R', 'E', 'T', '_', 'S', 'T', 'M', 'T']);
    reveal_strlit("COMPONENT_BLOCK");
    assert("COMPONENT_BLOCK"@ =~= seq!['C', 'O', 'M', 'P', 'O', 'N', 'E', 'N', 'T', '_', 'B', 'L', 'O', 'C', 'K']);
    reveal_strlit("PROGRAM");
    assert("PROGRAM"@ =~= seq!['P', 'R', 'O', 'G', 'R', 'A', 'M']);
    reveal_strlit("ID_OR_NUM");
    assert("ID_OR_NUM"@ =~= seq!['I', 'D', '_', 'O', 'R', '_', 'N', 'U', 'M']);
    reveal_strlit("PARAM");
    assert("PARAM"@ =~= seq!['P', 'A', 'R', 'A', 'M']);
    reveal_strlit("IF_STMT");
    assert("IF_STMT"@ =~= seq!['I', 'F', '_', 'S', 'T', 'M', 'T']);
    reveal_strlit("CONDITION");
    assert("CONDITION"@ =~= seq!['C', 'O', 'N', 'D', 'I', 'T', 'I', 'O', 'N']);
}

proof fn lemma_head_kind_27()
    ensures
        head_kind("REL"@) == HeadKind::Rel,
{
    reveal_strlit("HEADER");
    assert("HEADER"@ =~= seq!['H', 'E', 'A', 'D', 'E', 'R']);
    reveal_strlit("ID_OR_ARRAY");
    assert("ID_OR_ARRAY"@ =~= seq!['I', 'D', '_', 'O', 'R', '_', 'A', 'R', 'R', 'A', 'Y']);
    reveal_strlit("SIGNAL_STMT");
    assert("SIGNAL_STMT"@ =~= seq!['S', 'I', 'G', 'N', 'A', 'L', '_', 'S', 'T', 'M', 'T']);
    reveal_strlit("C_ASSIGN");
    assert("C_ASSIGN"@ =~= seq!['C', '_', 'A', 'S', 'S', 'I', 'G', 'N']);
    reveal_strlit("OP");
    assert("OP"@ =~= seq!['O', 'P']);
    reveal_strlit("PLUS");
    assert("PLUS"@ =~= seq!['P', 'L', 'U', 'S']);
    reveal_strlit("ASSIGN");
    assert("ASSIGN"@ =~= seq!['A', 'S', 'S', 'I', 'G', 'N']);
    reveal_strlit("ASSIGN_STMT");
    assert("ASSIGN_STMT"@ =~= seq!['A', 'S', 'S', 'I', 'G', 'N', '_', 'S', 'T', 'M', 'T']);
    reveal_strlit("EXPR");
    assert("EXPR"@ =~= seq!['E', 'X', 'P', 'R']);
    reveal_strlit("C_ASSIGN_STMT");
    assert("C_ASSIGN_STMT"@ =~= seq!['C', '_', 'A', 'S', 'S', 'I', 'G', 'N', '_', 'S', 'T', 'M', 'T']);
    reveal_strlit("VAR_STMT");
    assert("VAR_STMT"@ =~= seq!['V', 'A', 'R', '_', 'S', 'T', 'M', 'T']);
    reveal_strlit("VAR_");
    assert("VAR_"@ =~= seq!['V', 'A', 'R', '_']);
    reveal_strlit("VAR_DEF");
    assert("VAR_DEF"@ =~= seq!['V', 'A', 'R', '_', 'D', 'E', 'F']);
    reveal_strlit("COMPONENT_STMT");
    assert("COMPONENT_STMT"@ =~= seq!['C', 'O', 'M', 'P', 'O', 'N', 'E', 'N', 'T', '_', 'S', 'T', 'M', 'T']);
    reveal_strlit("COMP_");
    assert("COMP_"@ =~= seq!['C', 'O', 'M', 'P', '_']);
    reveal_strlit("COMP_DEF");
    assert("COMP_DEF"@ =~= seq!['C', 'O', 'M', 'P', '_', 'D', 'E', 'F']);
    reveal_strlit("STMTS");
    assert("STMTS"@ =~= seq!['S', 'T', 'M', 'T', 'S']);
    reveal_strlit("TEMPLATE_CONTENT");
    assert("TEMPLATE_CONTENT"@ =~= seq!['T', 'E', 'M', 'P', 'L', 'A', 'T', 'E', '_', 'C', 'O', 'N', 'T', 'E', 'N', 'T']);
    reveal_strlit("TEMPLATE_STMT");
    assert("TEMPLATE_STMT"@ =~= seq!['T', 'E', 'M', 'P', 'L', 'A', 'T', 'E', '_', 'S', 'T', 'M', 'T']);
    reveal_strlit("FUNC_STMT");
    assert("FUNC_STMT"@ =~= seq!['F', 'U', 'N', 'C', '_', 'S', 'T', 'M', 'T']);
    reveal_strlit("RET_STMT");
    assert("RET_STMT"@ =~= seq!['R', 'E', 'T', '_', 'S', 'T', 'M', 'T']);
    reveal_strlit("COMPONENT_BLOCK");
    assert("COMPONENT_BLOCK"@ =~= seq!['C', 'O', 'M', 'P', 'O', 'N', 'E', 'N', 'T', '_', 'B', 'L', 'O', 'C', 'K']);
    reveal_strlit("PROGRAM");
    assert("PROGRAM"@ =~= seq!['P', 'R', 'O', 'G', 'R', 'A', 'M']);
    reveal_strlit("ID_OR_NUM");
    assert("ID_OR_NUM"@ =~= seq!['I', 'D', '_', 'O', 'R', '_', 'N', 'U', 'M']);
    reveal_strlit("PARAM");
    assert("PARAM"@ =~= seq!['P', 'A', 'R', 'A', 'M']);
    reveal_strlit("IF_STMT");
    assert("IF_STMT"@ =~= seq!['I', 'F', '_', 'S', 'T', 'M', 'T']);
    reveal_strlit("CONDITION");
    assert("CONDITION"@ =~= seq!['C', 'O', 'N', 'D', 'I', 'T', 'I', 'O', 'N']);
    reveal_strlit("REL");
    assert("REL"@ =~= seq!['R', 'E', 'L']);
}

proof fn lemma_head_kind_28()
    ensures
        head_kind("WHILE_STMT"@) == HeadKind::WhileStmt,
{
    reveal_strlit("HEADER");
    assert("HEADER"@ =~= seq!['H', 'E', 'A', 'D', 'E', 'R']);
    reveal_strlit("ID_OR_ARRAY");
    assert("ID_OR_ARRAY"@ =~= seq!['I', 'D', '_', 'O', 'R', '_', 'A', 'R', 'R', 'A', 'Y']);
    reveal_strlit("SIGNAL_STMT");
    assert("SIGNAL_STMT"@ =~= seq!['S', 'I', 'G', 'N', 'A', 'L', '_', 'S', 'T', 'M', 'T']);
    reveal_strlit("C_ASSIGN");
    assert("C_ASSIGN"@ =~= seq!['C', '_', 'A', 'S', 'S', 'I', 'G', 'N']);
    reveal_strlit("OP");
    assert("OP"@ =~= seq!['O', 'P']);
    reveal_strlit("PLUS");
    assert("PLUS"@ =~= seq!['P', 'L', 'U', 'S']);
    reveal_strlit("ASSIGN");
    assert("ASSIGN"@ =~= seq!['A', 'S', 'S', 'I', 'G', 'N']);
    reveal_strlit("ASSIGN_STMT");
    assert("ASSIGN_STMT"@ =~= seq!['A', 'S', 'S', 'I', 'G', 'N', '_', 'S', 'T', 'M', 'T']);
    reveal_strlit("EXPR");
    assert("EXPR"@ =~= seq!['E', 'X', 'P', 'R']);
    reveal_strlit("C_ASSIGN_STMT");
    assert("C_ASSIGN_STMT"@ =~= seq!['C', '_', 'A', 'S', 'S', 'I', 'G', 'N', '_', 'S', 'T', 'M', 'T']);
    reveal_strlit("VAR_STMT");
    assert("VAR_STMT"@ =~= seq!['V', 'A', 'R', '_', 'S', 'T', 'M', 'T']);
    reveal_strlit("VAR_");
    assert("VAR_"@ =~= seq!['V', 'A', 'R', '_']);
    reveal_strlit("VAR_DEF");
    assert("VAR_DEF"@ =~= seq!['V', 'A', 'R', '_', 'D', 'E', 'F']);
    reveal_strlit("COMPONENT_STMT");
    assert("COMPONENT_STMT"@ =~= seq!['C', 'O', 'M', 'P', 'O', 'N', 'E', 'N', 'T', '_', 'S', 'T', 'M', 'T']);
    reveal_strlit("COMP_");
    assert("COMP_"@ =~= seq!['C', 'O', 'M', 'P', '_']);
    reveal_strlit("COMP_DEF");
    assert("COMP_DEF"@ =~= seq!['C', 'O', 'M', 'P', '_', 'D', 'E', 'F']);
    reveal_strlit("STMTS");
    assert("STMTS"@ =~= seq!['S', 'T', 'M', 'T', 'S']);
    reveal_strlit("TEMPLATE_CONTENT");
    assert("TEMPLATE_CONTENT"@ =~= seq!['T', 'E', 'M', 'P', 'L', 'A', 'T', 'E', '_', 'C', 'O', 'N', 'T', 'E', 'N', 'T']);
    reveal_strlit("TEMPLATE_STMT");
    assert("TEMPLATE_STMT"@ =~= seq!['T', 'E', 'M', 'P', 'L', 'A', 'T', 'E', '_', 'S', 'T', 'M', 'T']);
    reveal_strlit("FUNC_STMT");
    assert("FUNC_STMT"@ =~= seq!['F', 'U', 'N', 'C', '_', 'S', 'T', 'M', 'T']);
    reveal_strlit("RET_STMT");
    assert("RET_STMT"@ =~= seq!['R', 'E', 'T', '_', 'S', 'T', 'M', 'T']);
    reveal_strlit("COMPONENT_BLOCK");
    assert("COMPONENT_BLOCK"@ =~= seq!['C', 'O', 'M', 'P', 'O', 'N', 'E', 'N', 'T', '_', 'B', 'L', 'O', 'C', 'K']);
    reveal_strlit("PROGRAM");
    assert("PROGRAM"@ =~= seq!['P', 'R', 'O', 'G', 'R', 'A', 'M']);
    reveal_strlit("ID_OR_NUM");
    assert("ID_OR_NUM"@ =~= seq!['I', 'D', '_', 'O', 'R', '_', 'N', 'U', 'M']);
    reveal_strlit("PARAM");
    assert("PARAM"@ =~= seq!['P', 'A', 'R', 'A', 'M']);
    reveal_strlit("IF_STMT");
    assert("IF_STMT"@ =~= seq!['I', 'F', '_', 'S', 'T', 'M', 'T']);
    reveal_strlit("CONDITION");
    assert("CONDITION"@ =~= seq!['C', 'O', 'N', 'D', 'I', 'T', 'I', 'O', 'N']);
    reveal_strlit("REL");
    assert("REL"@ =~= seq!['R', 'E', 'L']);
    reveal_strlit("WHILE_STMT");
    assert("WHILE_STMT"@ =~= seq!['W', 'H', 'I', 'L', 'E', '_', 'S', 'T', 'M', 'T']);
}

proof fn lemma_head_kind_29()
    ensures
        head_kind("FOR_STMT"@) == HeadKind::ForStmt,
{
    reveal_strlit("HEADER");
    assert("HEADER"@ =~= seq!['H', 'E', 'A', 'D', 'E', 'R']);
    reveal_strlit("ID_OR_ARRAY");
    assert("ID_OR_ARRAY"@ =~= seq!['I', 'D', '_', 'O', 'R', '_', 'A', 'R', 'R', 'A', 'Y']);
    reveal_strlit("SIGNAL_STMT");
    assert("SIGNAL_STMT"@ =~= seq!['S', 'I', 'G', 'N', 'A', 'L', '_', 'S', 'T', 'M', 'T']);
    reveal_strlit("C_ASSIGN");
    assert("C_ASSIGN"@ =~= seq!['C', '_', 'A', 'S', 'S', 'I', 'G', 'N']);
    reveal_strlit("OP");
    assert("OP"@ =~= seq!['O', 'P']);
    reveal_strlit("PLUS");
    assert("PLUS"@ =~= seq!['P', 'L', 'U', 'S']);
    reveal_strlit("ASSIGN");
    assert("ASSIGN"@ =~= seq!['A', 'S', 'S', 'I', 'G', 'N']);
    reveal_strlit("ASSIGN_STMT");
    assert("ASSIGN_STMT"@ =~= seq!['A', 'S', 'S', 'I', 'G', 'N', '_', 'S', 'T', 'M', 'T']);
    reveal_strlit("EXPR");
    assert("EXPR"@ =~= seq!['E', 'X', 'P', 'R']);
    reveal_strlit("C_ASSIGN_STMT");
    assert("C_ASSIGN_STMT"@ =~= seq!['C', '_', 'A', 'S', 'S', 'I', 'G', 'N', '_', 'S', 'T', 'M', 'T']);
    reveal_strlit("VAR_STMT");
    assert("VAR_STMT"@ =~= seq!['V', 'A', 'R', '_', 'S', 'T', 'M', 'T']);
    reveal_strlit("VAR_");
    assert("VAR_"@ =~= seq!['V', 'A', 'R', '_']);
    reveal_strlit("VAR_DEF");
    assert("VAR_DEF"@ =~= seq!['V', 'A', 'R', '_', 'D', 'E', 'F']);
    reveal_strlit("COMPONENT_STMT");
    assert("COMPONENT_STMT"@ =~= seq!['C', 'O', 'M', 'P', 'O', 'N', 'E', 'N', 'T', '_', 'S', 'T', 'M', 'T']);
    reveal_strlit("COMP_");
    assert("COMP_"@ =~= seq!['C', 'O', 'M', 'P', '_']);
    reveal_strlit("COMP_DEF");
    assert("COMP_DEF"@ =~= seq!['C', 'O', 'M', 'P', '_', 'D', 'E', 'F']);
    reveal_strlit("STMTS");
    assert("STMTS"@ =~= seq!['S', 'T', 'M', 'T', 'S']);
    reveal_strlit("TEMPLATE_CONTENT");
    assert("TEMPLATE_CONTENT"@ =~= seq!['T', 'E', 'M', 'P', 'L', 'A', 'T', 'E', '_', 'C', 'O', 'N', 'T', 'E', 'N', 'T']);
    reveal_strlit("TEMPLATE_STMT");
    assert("TEMPLATE_STMT"@ =~= seq!['T', 'E', 'M', 'P', 'L', 'A', 'T', 'E', '_', 'S', 'T', 'M', 'T']);
    reveal_strlit("FUNC_STMT");
    assert("FUNC_STMT"@ =~= seq!['F', 'U', 'N', 'C', '_', 'S', 'T', 'M', 'T']);
    reveal_strlit("RET_STMT");
    assert("RET_STMT"@ =~= seq!['R', 'E', 'T', '_', 'S', 'T', 'M', 'T']);
    reveal_strlit("COMPONENT_BLOCK");
    assert("COMPONENT_BLOCK"@ =~= seq!['C', 'O', 'M', 'P', 'O', 'N', 'E', 'N', 'T', '_', 'B', 'L', 'O', 'C', 'K']);
    reveal_strlit("PROGRAM");
    assert("PROGRAM"@ =~= seq!['P', 'R', 'O', 'G', 'R', 'A', 'M']);
    reveal_strlit("ID_OR_NUM");
    assert("ID_OR_NUM"@ =~= seq!['I', 'D', '_', 'O', 'R', '_', 'N', 'U', 'M']);
    reveal_strlit("PARAM");
    assert("PARAM"@ =~= seq!['P', 'A', 'R', 'A', 'M']);
    reveal_strlit("IF_STMT");
    assert("IF_STMT"@ =~= seq!['I', 'F', '_', 'S', 'T', 'M', 'T']);
    reveal_strlit("CONDITION");
    assert("CONDITION"@ =~= seq!['C', 'O', 'N', 'D', 'I', 'T', 'I', 'O', 'N']);
    reveal_strlit("REL");
    assert("REL"@ =~= seq!['R', 'E', 'L']);
    reveal_strlit("WHILE_STMT");
    assert("WHILE_STMT"@ =~= seq!['W', 'H', 'I', 'L', 'E', '_', 'S', 'T', 'M', 'T']);
    reveal_strlit("FOR_STMT");
    assert("FOR_STMT"@ =~= seq!['F', 'O', 'R', '_', 'S', 'T', 'M', 'T']);
}

proof fn lemma_head_kind_30()
    ensures
        head_kind("FOR_COND"@) == HeadKind::ForCond,
{
    reveal_strlit("HEADER");
    assert("HEADER"@ =~= seq!['H', 'E', 'A', 'D', 'E', 'R']);
    reveal_strlit("ID_OR_ARRAY");
    assert("ID_OR_ARRAY"@ =~= seq!['I', 'D', '_', 'O', 'R', '_', 'A', 'R', 'R', 'A', 'Y']);
    reveal_strlit("SIGNAL_STMT");
    assert("SIGNAL_STMT"@ =~= seq!['S', 'I', 'G', 'N', 'A', 'L', '_', 'S', 'T', 'M', 'T']);
    reveal_strlit("C_ASSIGN");
    assert("C_ASSIGN"@ =~= seq!['C', '_', 'A', 'S', 'S', 'I', 'G', 'N']);
    reveal_strlit("OP");
    assert("OP"@ =~= seq!['O', 'P']);
    reveal_strlit("PLUS");
    assert("PLUS"@ =~= seq!['P', 'L', 'U', 'S']);
    reveal_strlit("ASSIGN");
    assert("ASSIGN"@ =~= seq!['A', 'S', 'S', 'I', 'G', 'N']);
    reveal_strlit("ASSIGN_STMT");
    assert("ASSIGN_STMT"@ =~= seq!['A', 'S', 'S', 'I', 'G', 'N', '_', 'S', 'T', 'M', 'T']);
    reveal_strlit("EXPR");
    assert("EXPR"@ =~= seq!['E', 'X', 'P', 'R']);
    reveal_strlit("C_ASSIGN_STMT");
    assert("C_ASSIGN_STMT"@ =~= seq!['C', '_', 'A', 'S', 'S', 'I', 'G', 'N', '_', 'S', 'T', 'M', 'T']);
    reveal_strlit("VAR_STMT");
    assert("VAR_STMT"@ =~= seq!['V', 'A', 'R', '_', 'S', 'T', 'M', 'T']);
    reveal_strlit("VAR_");
    assert("VAR_"@ =~= seq!['V', 'A', 'R', '_']);
    reveal_strlit("VAR_DEF");
    assert("VAR_DEF"@ =~= seq!['V', 'A', 'R', '_', 'D', 'E', 'F']);
    reveal_strlit("COMPONENT_STMT");
    assert("COMPONENT_STMT"@ =~= seq!['C', 'O', 'M', 'P', 'O', 'N', 'E', 'N', 'T', '_', 'S', 'T', 'M', 'T']);
    reveal_strlit("COMP_");
    assert("COMP_"@ =~= seq!['C', 'O', 'M', 'P', '_']);
    reveal_strlit("COMP_DEF");
    assert("COMP_DEF"@ =~= seq!['C', 'O', 'M', 'P', '_', 'D', 'E', 'F']);
    reveal_strlit("STMTS");
    assert("STMTS"@ =~= seq!['S', 'T', 'M', 'T', 'S']);
    reveal_strlit("TEMPLATE_CONTENT");
    assert("TEMPLATE_CONTENT"@ =~= seq!['T', 'E', 'M', 'P', 'L', 'A', 'T', 'E', '_', 'C', 'O', 'N', 'T', 'E', 'N', 'T']);
    reveal_strlit("TEMPLATE_STMT");
    assert("TEMPLATE_STMT"@ =~= seq!['T', 'E', 'M', 'P', 'L', 'A', 'T', 'E', '_', 'S', 'T', 'M', 'T']);
    reveal_strlit("FUNC_STMT");
    assert("FUNC_STMT"@ =~= seq!['F', 'U', 'N', 'C', '_', 'S', 'T', 'M', 'T']);
    reveal_strlit("RET_STMT");
    assert("RET_STMT"@ =~= seq!['R', 'E', 'T', '_', 'S', 'T', 'M', 'T']);
    reveal_strlit("COMPONENT_BLOCK");
    assert("COMPONENT_BLOCK"@ =~= seq!['C', 'O', 'M', 'P', 'O', 'N', 'E', 'N', 'T', '_', 'B', 'L', 'O', 'C', 'K']);
    reveal_strlit("PROGRAM");
    assert("PROGRAM"@ =~= seq!['P', 'R', 'O', 'G', 'R', 'A', 'M']);
    reveal_strlit("ID_OR_NUM");
    assert("ID_OR_NUM"@ =~= seq!['I', 'D', '_', 'O', 'R', '_', 'N', 'U', 'M']);
    reveal_strlit("PARAM");
    assert("PARAM"@ =~= seq!['P', 'A', 'R', 'A', 'M']);
    reveal_strlit("IF_STMT");
    assert("IF_STMT"@ =~= seq!['I', 'F', '_', 'S', 'T', 'M', 'T']);
    reveal_strlit("CONDITION");
    assert("CONDITION"@ =~= seq!['C', 'O', 'N', 'D', 'I', 'T', 'I', 'O', 'N']);
    reveal_strlit("REL");
    assert("REL"@ =~= seq!['R', 'E', 'L']);
    reveal_strlit("WHILE_STMT");
    assert("WHILE_STMT"@ =~= seq!['W', 'H', 'I', 'L', 'E', '_', 'S', 'T', 'M', 'T']);
    reveal_strlit("FOR_STMT");
    assert("FOR_STMT"@ =~= seq!['F', 'O', 'R', '_', 'S', 'T', 'M', 'T']);
    reveal_strlit("FOR_COND");
    assert("FOR_COND"@ =~= seq!['F', 'O', 'R', '_', 'C', 'O', 'N', 'D']);
}

/// Each reduction head that building reads is recognised as its own kind
/// (`HEADER` as a header, `EXPR` as an expression, `PROGRAM` as the end of
/// the program, ...), so no reduction is read as another.
pub proof fn lemma_head_kinds()
    ensures
        head_kind("HEADER"@) == HeadKind::Header,
        head_kind("ID_OR_ARRAY"@) == HeadKind::IdOrArray,
        head_kind("SIGNAL_STMT"@) == HeadKind::SignalStmt,
        head_kind("C_ASSIGN"@) == HeadKind::CAssign,
        head_kind("OP"@) == HeadKind::Op,
        head_kind("PLUS"@) == HeadKind::Plus,
        head_kind("ASSIGN"@) == HeadKind::Assign,
        head_kind("ASSIGN_STMT"@) == HeadKind::AssignStmt,
        head_kind("EXPR"@) == HeadKind::Expr,
        head_kind("C_ASSIGN_STMT"@) == HeadKind::CAssignStmt,
        head_kind("VAR_STMT"@) == HeadKind::VarStmt,
        head_kind("VAR_"@) == HeadKind::VarPart,
        head_kind("VAR_DEF"@) == HeadKind::VarDef,
        head_kind("COMPONENT_STMT"@) == HeadKind::ComponentStmt,
        head_kind("COMP_"@) == HeadKind::CompPart,
        head_kind("COMP_DEF"@) == HeadKind::CompDef,
        head_kind("STMTS"@) == HeadKind::Stmts,
        head_kind("TEMPLATE_CONTENT"@) == HeadKind::TemplateContent,
        head_kind("TEMPLATE_STMT"@) == HeadKind::TemplateStmt,
        head_kind("FUNC_STMT"@) == HeadKind::FuncStmt,
        head_kind("RET_STMT"@) == HeadKind::RetStmt,
        head_kind("COMPONENT_BLOCK"@) == HeadKind::ComponentBlock,
        head_kind("PROGRAM"@) == HeadKind::Program,
        head_kind("ID_OR_NUM"@) == HeadKind::IdOrNum,
        head_kind("PARAM"@) == HeadKind::Param,
        head_kind("IF_STMT"@) == HeadKind::IfStmt,
        head_kind("CONDITION"@) == HeadKind::Condition,
        head_kind("REL"@) == HeadKind::Rel,
        head_kind("WHILE_STMT"@) == HeadKind::WhileStmt,
        head_kind("FOR_STMT"@) == HeadKind::ForStmt,
        head_kind("FOR_COND"@) == HeadKind::ForCond,
{
    lemma_head_kind_0();
    lemma_head_kind_1();
    lemma_head_kind_2();
    lemma_head_kind_3();
    lemma_head_kind_4();
    lemma_head_kind_5();
    lemma_head_kind_6();
    lemma_head_kind_7();
    lemma_head_kind_8();
    lemma_head_kind_9();
    lemma_head_kind_10();
    lemma_head_kind_11();
    lemma_head_kind_12();
    lemma_head_kind_13();
    lemma_head_kind_14();
    lemma_head_kind_15();
    lemma_head_kind_16();
    lemma_head_kind_17();
    lemma_head_kind_18();
    lemma_head_kind_19();
    lemma_head_kind_20();
    lemma_head_kind_21();
    lemma_head_kind_22();
    lemma_head_kind_23();
    lemma_head_kind_24();
    lemma_head_kind_25();
    lemma_head_kind_26();
    lemma_head_kind_27();
    lemma_head_kind_28();
    lemma_head_kind_29();
    lemma_head_kind_30();
}

fn head_kind_of(h: &String) -> (k: HeadKind)
    ensures
        k == head_kind(h@),
{
    if eq_lit(h, "HEADER") {
        HeadKind::Header
    } else if eq_lit(h, "ID_OR_ARRAY") {
        HeadKind::IdOrArray
    } else if eq_lit(h, "SIGNAL_STMT") {
        HeadKind::SignalStmt
    } else if eq_lit(h, "C_ASSIGN") {
        HeadKind::CAssign
    } else if eq_lit(h, "OP") {
        HeadKind::Op
    } else if eq_lit(h, "PLUS") {
        HeadKind::Plus
    } else if eq_lit(h, "ASSIGN") {
        HeadKind::Assign
    } else if eq_lit(h, "ASSIGN_STMT") {
        HeadKind::AssignStmt
    } else if eq_lit(h, "EXPR") {
        HeadKind::Expr
    } else if eq_lit(h, "C_ASSIGN_STMT") {
        HeadKind::CAssignStmt
    } else if eq_lit(h, "VAR_STMT") {
        HeadKind::VarStmt
    } else if eq_lit(h, "VAR_") {
        HeadKind::VarPart
    } else if eq_lit(h, "VAR_DEF") {
        HeadKind::VarDef
    } else if eq_lit(h, "COMPONENT_STMT") {
        HeadKind::ComponentStmt
    } else if eq_lit(h, "COMP_") {
        HeadKind::CompPart
    } else if eq_lit(h, "COMP_DEF") {
        HeadKind::CompDef
    } else if eq_lit(h, "STMTS") {
        HeadKind::Stmts
    } else if eq_lit(h, "TEMPLATE_CONTENT") {
        HeadKind::TemplateContent
    } else if eq_lit(h, "TEMPLATE_STMT") {
        HeadKind::TemplateStmt
    } else if eq_lit(h, "FUNC_STMT") {
        HeadKind::FuncStmt
    } else if eq_lit(h, "RET_STMT") {
        HeadKind::RetStmt
    } else if eq_lit(h, "COMPONENT_BLOCK") {
        HeadKind::ComponentBlock
    } else if eq_lit(h, "PROGRAM") {
        HeadKind::Program
    } else if eq_lit(h, "ID_OR_NUM") {
        HeadKind::IdOrNum
    } else if eq_lit(h, "PARAM") {
        HeadKind::Param
    } else if eq_lit(h, "IF_STMT") {
        HeadKind::IfStmt
    } else if eq_lit(h, "CONDITION") {
        HeadKind::Condition
    } else if eq_lit(h, "REL") {
        HeadKind::Rel
    } else if eq_lit(h, "WHILE_STMT") {
        HeadKind::WhileStmt
    } else if eq_lit(h, "FOR_STMT") {
        HeadKind::ForStmt
    } else if eq_lit(h, "FOR_COND") {
        HeadKind::ForCond
    } else {
        HeadKind::Other
    }
}

/// The reduction `r` can be applied to `b` (the reductions that build
/// nothing always can).
pub open spec fn can_step(b: AstBuilder, r: ReduceResult) -> bool {
    match head_kind(r.head@) {
        HeadKind::Header => body_has(r, "VERSION"@) ==> has_tok(r.token@, "VERSION"@) && version_of(tok_of(r.token@, "VERSION"@).value@) is Some,
        HeadKind::IdOrArray => has_tok(r.token@, "ID"@),
        HeadKind::SignalStmt => signal_ready(r, b.id_stack@),
        HeadKind::CAssign | HeadKind::Plus | HeadKind::Assign | HeadKind::Rel => r.token@.len() > 0,
        HeadKind::Op => !body_has(r, "PLUS"@) ==> r.token@.len() > 0,
        HeadKind::AssignStmt => assign_ready(r, b.id_stack@, b.assign_stack@, b.expr_stack@),
        HeadKind::Expr => expr_ready(r, b.id_stack@, b.expr_stack@, b.op_stack@, b.param_stack@, b.param_counters@),
        HeadKind::CAssignStmt => c_assign_ready(r, b.id_stack@, b.expr_stack@, b.op_stack@),
        HeadKind::VarStmt => block_ready(r, b.var_stack@, b.var_counter),
        HeadKind::VarPart => r.body@.len() == 2 ==> has_tok(r.token@, "VAR"@),
        HeadKind::VarDef => var_def_ready(r, b.id_stack@, b.expr_stack@) && b.var_counter + 2 <= usize::MAX,
        HeadKind::ComponentStmt => block_ready(r, b.comp_stack@, b.comp_counter),
        HeadKind::CompPart => r.body@.len() == 2 ==> has_tok(r.token@, "COMPONENT"@),
        HeadKind::CompDef => comp_def_ready(r, b.id_stack@, b.expr_stack@, b.comp_counter),
        HeadKind::Stmts => r.body@.len() != 1 ==> b.stmt_counters@.len() > 0 && b.stmt_counters@.last() + (if b.counter_flag {
            2int
        } else {
            1int
        }) <= usize::MAX,
        HeadKind::TemplateStmt | HeadKind::FuncStmt => {
            let kw = if head_kind(r.head@) == HeadKind::TemplateStmt {
                "TEMPLATE"@
            } else {
                "FUNCTION"@
            };
            &&& b.stmt_counters@.len() > 0
            &&& body_has(r, "PARAM"@) ==> b.param_counters@.len() > 0
            &&& def_ready(r, kw, b.block_stack@, b.stmt_counters@.last(), b.param_stack@, param_count(b, r))
        },
        HeadKind::RetStmt => ret_ready(r, b.expr_stack@),
        HeadKind::ComponentBlock => {
            &&& body_has(r, "PARAM"@) ==> b.param_counters@.len() > 0
            &&& component_ready(r, b.param_stack@, param_count(b, r))
        },
        HeadKind::IdOrNum => body_has(r, "NUM"@) ==> has_tok(r.token@, "NUM"@),
        HeadKind::Param => b.id_stack@.len() > 0 && (r.body@.len() != 1 ==> b.param_counters@.len() > 0 && b.param_counters@.last() < usize::MAX),
        HeadKind::IfStmt => if_ready(r, b.cond_stack@, b.stmt_counters@, b.block_stack@),
        HeadKind::Condition => cond_ready(b.expr_stack@, b.rel_stack@),
        HeadKind::WhileStmt => b.cond_stack@.len() > 0 && loop_ready(r, "WHILE"@, b.stmt_counters@, b.block_stack@),
        HeadKind::ForStmt => b.for_cond_stack@.len() > 0 && loop_ready(r, "FOR"@, b.stmt_counters@, b.block_stack@),
        HeadKind::ForCond => for_cond_ready(b.cond_stack@, b.block_stack@, b.id_stack@, b.assign_stack@, b.expr_stack@),
        _ => true,
    }
}

/// The statement counters after `STMTS`: a new block counts one statement,
/// a longer one counts one more; a pending `for` counts once more.
pub open spec fn stmts_counters(r: ReduceResult, k0: Seq<usize>, flag: bool) -> Seq<usize> {
    let k = if r.body@.len() == 1 {
        k0.push(1usize)
    } else {
        k0.update(k0.len() - 1, (k0.last() + 1) as usize)
    };
    if flag {
        k.update(k.len() - 1, (k.last() + 1) as usize)
    } else {
        k
    }
}

/// What the reduction `r` does to the builder `b0`, giving `b1`.
pub open spec fn step_rel(b0: AstBuilder, r: ReduceResult, b1: AstBuilder) -> bool {
    match head_kind(r.head@) {
        HeadKind::Header => if body_has(r, "VERSION"@) {
            b1 == AstBuilder { compiler_version: version_of(tok_of(r.token@, "VERSION"@).value@)->Some_0, ..b0 }
        } else {
            b1 == b0
        },
        HeadKind::IdOrArray => b1 == AstBuilder { id_stack: b1.id_stack, ..b0 } && b1.id_stack@ == b0.id_stack@.push(tok_of(r.token@, "ID"@)),
        HeadKind::SignalStmt => b1 == AstBuilder { id_stack: b1.id_stack, block_stack: b1.block_stack, ..b0 }
            && signal_done(r, b0.id_stack@, b1.id_stack@, b0.block_stack@, b1.block_stack@),
        HeadKind::CAssign | HeadKind::Plus => b1 == AstBuilder { op_stack: b1.op_stack, ..b0 } && b1.op_stack@ == b0.op_stack@.push(r.token@[0]),
        HeadKind::Op => if !body_has(r, "PLUS"@) {
            b1 == AstBuilder { op_stack: b1.op_stack, ..b0 } && b1.op_stack@ == b0.op_stack@.push(r.token@[0])
        } else {
            b1 == b0
        },
        HeadKind::Assign => b1 == AstBuilder { assign_stack: b1.assign_stack, ..b0 } && b1.assign_stack@ == b0.assign_stack@.push(r.token@[0]),
        HeadKind::Rel => b1 == AstBuilder { rel_stack: b1.rel_stack, ..b0 } && b1.rel_stack@ == b0.rel_stack@.push(r.token@[0]),
        HeadKind::AssignStmt => b1 == AstBuilder { id_stack: b1.id_stack, assign_stack: b1.assign_stack, expr_stack: b1.expr_stack, block_stack: b1.block_stack, ..b0 }
            && assign_done(r, b0.id_stack@, b1.id_stack@, b0.assign_stack@, b1.assign_stack@, b0.expr_stack@, b1.expr_stack@, b0.block_stack@, b1.block_stack@),
        HeadKind::Expr => b1 == AstBuilder { id_stack: b1.id_stack, expr_stack: b1.expr_stack, op_stack: b1.op_stack, param_stack: b1.param_stack, param_counters: b1.param_counters, ..b0 }
            && expr_done(r, b0.id_stack@, b1.id_stack@, b0.expr_stack@, b1.expr_stack@, b0.op_stack@, b1.op_stack@, b0.param_stack@, b1.param_stack@, b0.param_counters@, b1.param_counters@),
        HeadKind::CAssignStmt => b1 == AstBuilder { id_stack: b1.id_stack, expr_stack: b1.expr_stack, op_stack: b1.op_stack, block_stack: b1.block_stack, ..b0 }
            && c_assign_done(r, b0.id_stack@, b1.id_stack@, b0.expr_stack@, b1.expr_stack@, b0.op_stack@, b1.op_stack@, b0.block_stack@, b1.block_stack@),
        HeadKind::VarStmt => b1 == AstBuilder { var_stack: b1.var_stack, var_counter: b1.var_counter, block_stack: b1.block_stack, ..b0 }
            && block_done(r, b0.var_start, |x: VariableType| x is Var, b0.var_stack@, b1.var_stack@, b0.var_counter, b1.var_counter, b0.block_stack@, b1.block_stack@),
        HeadKind::VarPart => if r.body@.len() == 2 {
            b1 == AstBuilder { var_start: tok_of(r.token@, "VAR"@).start, ..b0 }
        } else {
            b1 == b0
        },
        HeadKind::VarDef => b1 == AstBuilder { id_stack: b1.id_stack, expr_stack: b1.expr_stack, var_stack: b1.var_stack, var_counter: (b0.var_counter + 2) as usize, ..b0 }
            && var_def_done(r, b0.id_stack@, b1.id_stack@, b0.expr_stack@, b1.expr_stack@, b0.var_stack@, b1.var_stack@),
        HeadKind::ComponentStmt => b1 == AstBuilder { comp_stack: b1.comp_stack, comp_counter: b1.comp_counter, block_stack: b1.block_stack, ..b0 }
            && block_done(r, b0.comp_start, |x: VariableType| x is Component, b0.comp_stack@, b1.comp_stack@, b0.comp_counter, b1.comp_counter, b0.block_stack@, b1.block_stack@),
        HeadKind::CompPart => if r.body@.len() == 2 {
            b1 == AstBuilder { comp_start: tok_of(r.token@, "COMPONENT"@).start, ..b0 }
        } else {
            b1 == b0
        },
        HeadKind::CompDef => b1 == AstBuilder { id_stack: b1.id_stack, expr_stack: b1.expr_stack, comp_stack: b1.comp_stack, comp_counter: b1.comp_counter, ..b0 }
            && comp_def_done(r, b0.id_stack@, b1.id_stack@, b0.expr_stack@, b1.expr_stack@, b0.comp_stack@, b1.comp_stack@, b0.comp_counter, b1.comp_counter),
        HeadKind::Stmts => b1 == AstBuilder { stmt_counters: b1.stmt_counters, counter_flag: false, ..b0 }
            && b1.stmt_counters@ == stmts_counters(r, b0.stmt_counters@, b0.counter_flag),
        HeadKind::TemplateStmt | HeadKind::FuncStmt => {
            let sc = b0.stmt_counters@.last();
            let pc = param_count(b0, r);
            let d = b1.definitions@.last();
            &&& b1 == AstBuilder { definitions: b1.definitions, block_stack: b1.block_stack, param_stack: b1.param_stack, stmt_counters: b1.stmt_counters, param_counters: b1.param_counters, ..b0 }
            &&& pushed(b0.definitions@, b1.definitions@)
            &&& if head_kind(r.head@) == HeadKind::TemplateStmt {
                template_def(d, r, b0.block_stack@, sc, b0.param_stack@, pc)
            } else {
                func_def(d, r, b0.block_stack@, sc, b0.param_stack@, pc)
            }
            &&& exists|sc1: usize, pc1: usize| def_stacks(r, b0.block_stack@, b1.block_stack@, sc, sc1, b0.param_stack@, b1.param_stack@, pc, pc1)
            &&& b1.stmt_counters@ == b0.stmt_counters@.drop_last()
            &&& b1.param_counters@ == if body_has(r, "PARAM"@) {
                b0.param_counters@.drop_last()
            } else {
                b0.param_counters@
            }
        },
        HeadKind::RetStmt => b1 == AstBuilder { expr_stack: b1.expr_stack, block_stack: b1.block_stack, ..b0 }
            && ret_done(r, b0.expr_stack@, b1.expr_stack@, b0.block_stack@, b1.block_stack@),
        HeadKind::ComponentBlock => {
            &&& b1 == AstBuilder { main_component: b1.main_component, last: b1.last, param_stack: b1.param_stack, param_counters: b1.param_counters, ..b0 }
            &&& b1.main_component is Some
            &&& exists|pc1: usize| component_done(r, b0.param_stack@, b1.param_stack@, param_count(b0, r), pc1, b1.last, b1.main_component->Some_0)
            &&& b1.param_counters@ == if b0.param_counters@.len() > 0 {
                b0.param_counters@.drop_last()
            } else {
                b0.param_counters@
            }
        },
        HeadKind::IdOrNum => if body_has(r, "NUM"@) {
            b1 == AstBuilder { id_stack: b1.id_stack, ..b0 } && b1.id_stack@ == b0.id_stack@.push(tok_of(r.token@, "NUM"@))
        } else {
            b1 == b0
        },
        HeadKind::Param => {
            &&& b1 == AstBuilder { id_stack: b1.id_stack, param_stack: b1.param_stack, param_counters: b1.param_counters, ..b0 }
            &&& b1.id_stack@ == b0.id_stack@.drop_last()
            &&& b1.param_stack@ == b0.param_stack@.push(b0.id_stack@.last())
            &&& b1.param_counters@ == if r.body@.len() == 1 {
                b0.param_counters@.push(1usize)
            } else {
                b0.param_counters@.update(b0.param_counters@.len() - 1, (b0.param_counters@.last() + 1) as usize)
            }
        },
        HeadKind::IfStmt => b1 == AstBuilder { cond_stack: b1.cond_stack, stmt_counters: b1.stmt_counters, block_stack: b1.block_stack, ..b0 }
            && if_done(r, b0.cond_stack@, b1.cond_stack@, b0.stmt_counters@, b1.stmt_counters@, b0.block_stack@, b1.block_stack@),
        HeadKind::Condition => b1 == AstBuilder { expr_stack: b1.expr_stack, rel_stack: b1.rel_stack, cond_stack: b1.cond_stack, ..b0 }
            && cond_done(b0.expr_stack@, b1.expr_stack@, b0.rel_stack@, b1.rel_stack@, b0.cond_stack@, b1.cond_stack@),
        HeadKind::WhileStmt => b1 == AstBuilder { cond_stack: b1.cond_stack, stmt_counters: b1.stmt_counters, block_stack: b1.block_stack, ..b0 }
            && while_done(r, b0.cond_stack@, b1.cond_stack@, b0.stmt_counters@, b1.stmt_counters@, b0.block_stack@, b1.block_stack@),
        HeadKind::ForStmt => b1 == AstBuilder { for_cond_stack: b1.for_cond_stack, stmt_counters: b1.stmt_counters, block_stack: b1.block_stack, counter_flag: true, ..b0 }
            && for_done(r, b0.for_cond_stack@, b1.for_cond_stack@, b0.stmt_counters@, b1.stmt_counters@, b0.block_stack@, b1.block_stack@),
        HeadKind::ForCond => b1 == AstBuilder { cond_stack: b1.cond_stack, for_cond_stack: b1.for_cond_stack, block_stack: b1.block_stack, id_stack: b1.id_stack, assign_stack: b1.assign_stack, expr_stack: b1.expr_stack, ..b0 }
            && for_cond_done(b0.cond_stack@, b1.cond_stack@, b0.for_cond_stack@, b1.for_cond_stack@, b0.block_stack@, b1.block_stack@, b0.id_stack@, b1.id_stack@, b0.assign_stack@, b1.assign_stack@, b0.expr_stack@, b1.expr_stack@),
        _ => b1 == b0,
    }
}

/// Whether every number among `ps[from..]` can be read.
fn params_ok(ps: &Vec<Token>, from: usize) -> (b: bool)
    requires
        from <= ps.len(),
    ensures
        b == params_readable(ps@.subrange(from as int, ps.len() as int)),
{
    let ghost sub = ps@.subrange(from as int, ps.len() as int);
    let mut i: usize = from;
    while i < ps.len()
        invariant
            from <= i <= ps.len(),
            sub == ps@.subrange(from as int, ps.len() as int),
            forall|j: int| 0 <= j < i - from && (#[trigger] sub[j]).token_type@ == "NUM"@ ==> num_ok(sub[j]),
        decreases ps.len() - i,
    {
        assert(sub[i - from] == ps@[i as int]);
        if eq_lit(&ps[i].token_type, "NUM") {
            if parse_i128_str(ps[i].value.as_str()).is_none() {
                return false;
            }
        }
        i += 1;
    }
    true
}

/// Whether an expression can be read from the stacks of `b`.
fn expr_ready_exec(b: &AstBuilder, r: &ReduceResult) -> (ok: bool)
    ensures
        ok == expr_ready(*r, b.id_stack@, b.expr_stack@, b.op_stack@, b.param_stack@, b.param_counters@),
{
    let top_ok = if b.id_stack.len() > 0 {
        let t = &b.id_stack[b.id_stack.len() - 1];
        !eq_lit(&t.token_type, "NUM") || parse_i128_str(t.value.as_str()).is_some()
    } else {
        false
    };
    if r.body.len() == 1 {
        top_ok
    } else if body_contains(r, "OP") {
        top_ok && b.expr_stack.len() > 0 && b.op_stack.len() > 0
    } else if body_contains(r, "PLUS") {
        true
    } else if body_contains(r, "ID_OR_ARRAY") {
        if b.id_stack.len() == 0 || find_token(&r.token, "RPAREN").is_none() {
            return false;
        }
        if body_contains(r, "PARAM") {
            if b.param_counters.len() == 0 {
                return false;
            }
            let k = b.param_counters[b.param_counters.len() - 1];
            k <= b.param_stack.len() && params_ok(&b.param_stack, b.param_stack.len() - k)
        } else {
            true
        }
    } else {
        true
    }
}

fn step_header(b: &mut AstBuilder, r: &ReduceResult) -> (ok: bool)
    requires
        head_kind(r.head@) == HeadKind::Header,
    ensures
        ok == can_step(*old(b), *r),
        ok ==> step_rel(*old(b), *r, *final(b)),
        !ok ==> *final(b) == *old(b),
{
    if body_contains(r, "VERSION") {
        match find_token(&r.token, "VERSION") {
            None => false,
            Some(k) => match read_version(r.token[k].value.as_str()) {
                None => false,
                Some(v) => {
                    b.compiler_version = v;
                    true
                },
            },
        }
    } else {
        true
    }
}

fn step_id_or_array(b: &mut AstBuilder, r: &ReduceResult) -> (ok: bool)
    requires
        head_kind(r.head@) == HeadKind::IdOrArray,
    ensures
        ok == can_step(*old(b), *r),
        ok ==> step_rel(*old(b), *r, *final(b)),
        !ok ==> *final(b) == *old(b),
{
    match find_token(&r.token, "ID") {
        None => false,
        Some(k) => {
            b.id_stack.push(r.token[k].duplicate());
            true
        },
    }
}

fn step_signal_stmt(b: &mut AstBuilder, r: &ReduceResult) -> (ok: bool)
    requires
        head_kind(r.head@) == HeadKind::SignalStmt,
    ensures
        ok == can_step(*old(b), *r),
        ok ==> step_rel(*old(b), *r, *final(b)),
        !ok ==> *final(b) == *old(b),
{
    if find_token(&r.token, "SIGNAL").is_some() && find_token(&r.token, "SEMICOLON").is_some() && b.id_stack.len() > 0 {
        process_signal_stmt(r, &mut b.id_stack, &mut b.block_stack);
        true
    } else {
        false
    }
}

fn step_c_assign_plus(b: &mut AstBuilder, r: &ReduceResult) -> (ok: bool)
    requires
        head_kind(r.head@) == HeadKind::CAssign || head_kind(r.head@) == HeadKind::Plus,
    ensures
        ok == can_step(*old(b), *r),
        ok ==> step_rel(*old(b), *r, *final(b)),
        !ok ==> *final(b) == *old(b),
{
    if r.token.len() > 0 {
        b.op_stack.push(r.token[0].duplicate());
        true
    } else {
        false
    }
}

fn step_op(b: &mut AstBuilder, r: &ReduceResult) -> (ok: bool)
    requires
        head_kind(r.head@) == HeadKind::Op,
    ensures
        ok == can_step(*old(b), *r),
        ok ==> step_rel(*old(b), *r, *final(b)),
        !ok ==> *final(b) == *old(b),
{
    if !body_contains(r, "PLUS") {
        if r.token.len() > 0 {
            b.op_stack.push(r.token[0].duplicate());
            true
        } else {
            false
        }
    } else {
        true
    }
}

fn step_assign(b: &mut AstBuilder, r: &ReduceResult) -> (ok: bool)
    requires
        head_kind(r.head@) == HeadKind::Assign,
    ensures
        ok == can_step(*old(b), *r),
        ok ==> step_rel(*old(b), *r, *final(b)),
        !ok ==> *final(b) == *old(b),
{
    if r.token.len() > 0 {
        b.assign_stack.push(r.token[0].duplicate());
        true
    } else {
        false
    }
}

fn step_rel_token(b: &mut AstBuilder, r: &ReduceResult) -> (ok: bool)
    requires
        head_kind(r.head@) == HeadKind::Rel,
    ensures
        ok == can_step(*old(b), *r),
        ok ==> step_rel(*old(b), *r, *final(b)),
        !ok ==> *final(b) == *old(b),
{
    if r.token.len() > 0 {
        b.rel_stack.push(r.token[0].duplicate());
        true
    } else {
        false
    }
}

fn step_assign_stmt(b: &mut AstBuilder, r: &ReduceResult) -> (ok: bool)
    requires
        head_kind(r.head@) == HeadKind::AssignStmt,
    ensures
        ok == can_step(*old(b), *r),
        ok ==> step_rel(*old(b), *r, *final(b)),
        !ok ==> *final(b) == *old(b),
{
    if b.id_stack.len() > 0 && find_token(&r.token, "SEMICOLON").is_some() && b.expr_stack.len() > 0 && b.assign_stack.len() > 0 {
        process_assign_stmt(r, &mut b.id_stack, &mut b.assign_stack, &mut b.expr_stack, &mut b.block_stack);
        true
    } else {
        false
    }
}

fn step_expr(b: &mut AstBuilder, r: &ReduceResult) -> (ok: bool)
    requires
        head_kind(r.head@) == HeadKind::Expr,
    ensures
        ok == can_step(*old(b), *r),
        ok ==> step_rel(*old(b), *r, *final(b)),
        !ok ==> *final(b) == *old(b),
{
    if expr_ready_exec(b, r) {
        process_expr(r, &mut b.id_stack, &mut b.expr_stack, &mut b.op_stack, &mut b.param_stack, &mut b.param_counters);
        true
    } else {
        false
    }
}

fn step_c_assign_stmt(b: &mut AstBuilder, r: &ReduceResult) -> (ok: bool)
    requires
        head_kind(r.head@) == HeadKind::CAssignStmt,
    ensures
        ok == can_step(*old(b), *r),
        ok ==> step_rel(*old(b), *r, *final(b)),
        !ok ==> *final(b) == *old(b),
{
    if find_token(&r.token, "SEMICOLON").is_some() && b.id_stack.len() > 0 && b.expr_stack.len() > 0 && b.op_stack.len() > 0 {
        process_c_assign_stmt(r, &mut b.id_stack, &mut b.expr_stack, &mut b.block_stack, &mut b.op_stack);
        true
    } else {
        false
    }
}

fn step_var_stmt(b: &mut AstBuilder, r: &ReduceResult) -> (ok: bool)
    requires
        head_kind(r.head@) == HeadKind::VarStmt,
    ensures
        ok == can_step(*old(b), *r),
        ok ==> step_rel(*old(b), *r, *final(b)),
        !ok ==> *final(b) == *old(b),
{
    if find_token(&r.token, "SEMICOLON").is_some() && b.var_counter <= b.var_stack.len() {
        process_var_stmt(r, &mut b.var_stack, &mut b.var_counter, &mut b.var_start, &mut b.block_stack);
        true
    } else {
        false
    }
}

fn step_var(b: &mut AstBuilder, r: &ReduceResult) -> (ok: bool)
    requires
        head_kind(r.head@) == HeadKind::VarPart,
    ensures
        ok == can_step(*old(b), *r),
        ok ==> step_rel(*old(b), *r, *final(b)),
        !ok ==> *final(b) == *old(b),
{
    if r.body.len() == 2 {
        match find_token(&r.token, "VAR") {
            None => false,
            Some(k) => {
                b.var_start = r.token[k].start;
                true
            },
        }
    } else {
        true
    }
}

fn step_var_def(b: &mut AstBuilder, r: &ReduceResult) -> (ok: bool)
    requires
        head_kind(r.head@) == HeadKind::VarDef,
    ensures
        ok == can_step(*old(b), *r),
        ok ==> step_rel(*old(b), *r, *final(b)),
        !ok ==> *final(b) == *old(b),
{
    if b.id_stack.len() > 0 && (r.body.len() == 1 || b.expr_stack.len() > 0) && b.var_counter <= usize::MAX - 2 {
        process_var_def(r, &mut b.id_stack, &mut b.expr_stack, &mut b.var_stack);
        b.var_counter = b.var_counter + 2;
        true
    } else {
        false
    }
}

fn step_component_stmt(b: &mut AstBuilder, r: &ReduceResult) -> (ok: bool)
    requires
        head_kind(r.head@) == HeadKind::ComponentStmt,
    ensures
        ok == can_step(*old(b), *r),
        ok ==> step_rel(*old(b), *r, *final(b)),
        !ok ==> *final(b) == *old(b),
{
    if find_token(&r.token, "SEMICOLON").is_some() && b.comp_counter <= b.comp_stack.len() {
        process_comp_stmt(r, &mut b.comp_stack, &mut b.comp_counter, &mut b.comp_start, &mut b.block_stack);
        true
    } else {
        false
    }
}

fn step_comp(b: &mut AstBuilder, r: &ReduceResult) -> (ok: bool)
    requires
        head_kind(r.head@) == HeadKind::CompPart,
    ensures
        ok == can_step(*old(b), *r),
        ok ==> step_rel(*old(b), *r, *final(b)),
        !ok ==> *final(b) == *old(b),
{
    if r.body.len() == 2 {
        match find_token(&r.token, "COMPONENT") {
            None => false,
            Some(k) => {
                b.comp_start = r.token[k].start;
                true
            },
        }
    } else {
        true
    }
}

fn step_comp_def(b: &mut AstBuilder, r: &ReduceResult) -> (ok: bool)
    requires
        head_kind(r.head@) == HeadKind::CompDef,
    ensures
        ok == can_step(*old(b), *r),
        ok ==> step_rel(*old(b), *r, *final(b)),
        !ok ==> *final(b) == *old(b),
{
    if b.id_stack.len() > 0 && (r.body.len() == 1 || b.expr_stack.len() > 0) && b.comp_counter <= usize::MAX - 2 {
        process_comp_def(r, &mut b.id_stack, &mut b.expr_stack, &mut b.comp_stack, &mut b.comp_counter);
        true
    } else {
        false
    }
}

fn step_stmts(b: &mut AstBuilder, r: &ReduceResult) -> (ok: bool)
    requires
        head_kind(r.head@) == HeadKind::Stmts,
    ensures
        ok == can_step(*old(b), *r),
        ok ==> step_rel(*old(b), *r, *final(b)),
        !ok ==> *final(b) == *old(b),
{
    let extra: usize = if b.counter_flag {
        2
    } else {
        1
    };
    if r.body.len() != 1 {
        if b.stmt_counters.len() == 0 {
            return false;
        }
        if b.stmt_counters[b.stmt_counters.len() - 1] > usize::MAX - extra {
            return false;
        }
    }
    if r.body.len() == 1 {
        b.stmt_counters.push(1);
    } else {
        let i = b.stmt_counters.len() - 1;
        let v = b.stmt_counters[i] + 1;
        b.stmt_counters.set(i, v);
    }
    if b.counter_flag {
        let i = b.stmt_counters.len() - 1;
        let v = b.stmt_counters[i] + 1;
        b.stmt_counters.set(i, v);
        b.counter_flag = false;
    }
    true
}

fn step_template_stmt_func_stmt(b: &mut AstBuilder, r: &ReduceResult) -> (ok: bool)
    requires
        head_kind(r.head@) == HeadKind::TemplateStmt || head_kind(r.head@) == HeadKind::FuncStmt,
    ensures
        ok == can_step(*old(b), *r),
        ok ==> step_rel(*old(b), *r, *final(b)),
        !ok ==> *final(b) == *old(b),
{
    let ghost b0 = *b;
    let is_template = head_kind_of(&r.head) == HeadKind::TemplateStmt;
    let has_param = body_contains(r, "PARAM");
    if b.stmt_counters.len() == 0 || (has_param && b.param_counters.len() == 0) {
        return false;
    }
    let sc = b.stmt_counters[b.stmt_counters.len() - 1];
    let pc = if has_param {
        b.param_counters[b.param_counters.len() - 1]
    } else {
        0
    };
    let kw_found = if is_template {
        find_token(&r.token, "TEMPLATE").is_some()
    } else {
        find_token(&r.token, "FUNCTION").is_some()
    };
    if !(kw_found && find_token(&r.token, "RBRACE").is_some() && find_token(&r.token, "LBRACE").is_some()
        && find_token(&r.token, "ID").is_some() && (!has_param || pc <= b.param_stack.len()) && sc <= b.block_stack.len()) {
        return false;
    }
    let mut sc_m = sc;
    let mut pc_m = pc;
    let d = if is_template {
        process_template_block(r, &mut b.block_stack, &mut sc_m, &mut b.param_stack, &mut pc_m)
    } else {
        process_func_block(r, &mut b.block_stack, &mut sc_m, &mut b.param_stack, &mut pc_m)
    };
    let ghost defs0 = b.definitions@;
    b.definitions.push(d);
    b.stmt_counters.pop();
    if has_param {
        b.param_counters.pop();
    }
    proof {
        assert(b.definitions@.drop_last() =~= defs0);
        assert(def_stacks(*r, b0.block_stack@, b.block_stack@, sc, sc_m, b0.param_stack@, b.param_stack@, pc, pc_m));
        assert(*b == AstBuilder { definitions: b.definitions, block_stack: b.block_stack, param_stack: b.param_stack, stmt_counters: b.stmt_counters, param_counters: b.param_counters, ..b0 });
        assert(b.stmt_counters@ == b0.stmt_counters@.drop_last());
        assert(sc == b0.stmt_counters@.last());
        assert(pc == param_count(b0, *r));
        assert(b.definitions@.last() == d);
        if is_template {
            assert(template_def(d, *r, b0.block_stack@, sc, b0.param_stack@, pc));
        } else {
            assert(func_def(d, *r, b0.block_stack@, sc, b0.param_stack@, pc));
        }
    }
    true
}

fn step_ret_stmt(b: &mut AstBuilder, r: &ReduceResult) -> (ok: bool)
    requires
        head_kind(r.head@) == HeadKind::RetStmt,
    ensures
        ok == can_step(*old(b), *r),
        ok ==> step_rel(*old(b), *r, *final(b)),
        !ok ==> *final(b) == *old(b),
{
    if find_token(&r.token, "RETURN").is_some() && find_token(&r.token, "SEMICOLON").is_some() && b.expr_stack.len() > 0 {
        process_ret_stmt(r, &mut b.expr_stack, &mut b.block_stack);
        true
    } else {
        false
    }
}

fn step_component_block(b: &mut AstBuilder, r: &ReduceResult) -> (ok: bool)
    requires
        head_kind(r.head@) == HeadKind::ComponentBlock,
    ensures
        ok == can_step(*old(b), *r),
        ok ==> step_rel(*old(b), *r, *final(b)),
        !ok ==> *final(b) == *old(b),
{
    let has_param = body_contains(r, "PARAM");
    if has_param && b.param_counters.len() == 0 {
        return false;
    }
    let pc = if has_param {
        b.param_counters[b.param_counters.len() - 1]
    } else {
        0
    };
    if !(find_token(&r.token, "COMPONENT").is_some() && find_token(&r.token, "SEMICOLON").is_some() && find_token(&r.token, "ID").is_some()) {
        return false;
    }
    if has_param {
        if !(pc <= b.param_stack.len() && params_ok(&b.param_stack, b.param_stack.len() - pc)) {
            return false;
        }
    }
    let ghost b0 = *b;
    let mut pc_m = pc;
    let mc = process_component_block(r, &mut b.block_stack, &mut b.last, &mut b.param_stack, &mut pc_m);
    proof {
        assert(component_done(*r, b0.param_stack@, b.param_stack@, pc, pc_m, b.last, mc));
    }
    b.main_component = Some(mc);
    b.param_counters.pop();
    proof {
        assert(*b == AstBuilder { main_component: b.main_component, last: b.last, param_stack: b.param_stack, param_counters: b.param_counters, ..b0 });
        assert(b.main_component->Some_0 == mc);
        assert(component_done(*r, b0.param_stack@, b.param_stack@, param_count(b0, *r), pc_m, b.last, b.main_component->Some_0));
        assert(b.param_counters@ == if b0.param_counters@.len() > 0 {
                b0.param_counters@.drop_last()
            } else {
                b0.param_counters@
            });
    }
    true
}

fn step_id_or_num(b: &mut AstBuilder, r: &ReduceResult) -> (ok: bool)
    requires
        head_kind(r.head@) == HeadKind::IdOrNum,
    ensures
        ok == can_step(*old(b), *r),
        ok ==> step_rel(*old(b), *r, *final(b)),
        !ok ==> *final(b) == *old(b),
{
    if body_contains(r, "NUM") {
        match find_token(&r.token, "NUM") {
            None => false,
            Some(k) => {
                b.id_stack.push(r.token[k].duplicate());
                true
            },
        }
    } else {
        true
    }
}

fn step_param(b: &mut AstBuilder, r: &ReduceResult) -> (ok: bool)
    requires
        head_kind(r.head@) == HeadKind::Param,
    ensures
        ok == can_step(*old(b), *r),
        ok ==> step_rel(*old(b), *r, *final(b)),
        !ok ==> *final(b) == *old(b),
{
    if b.id_stack.len() == 0 {
        return false;
    }
    if r.body.len() != 1 {
        if b.param_counters.len() == 0 {
            return false;
        }
        if b.param_counters[b.param_counters.len() - 1] == usize::MAX {
            return false;
        }
    }
    let t = b.id_stack.pop().unwrap();
    b.param_stack.push(t);
    if r.body.len() == 1 {
        b.param_counters.push(1);
    } else {
        let i = b.param_counters.len() - 1;
        let v = b.param_counters[i] + 1;
        b.param_counters.set(i, v);
    }
    true
}

fn step_if_stmt(b: &mut AstBuilder, r: &ReduceResult) -> (ok: bool)
    requires
        head_kind(r.head@) == HeadKind::IfStmt,
    ensures
        ok == can_step(*old(b), *r),
        ok ==> step_rel(*old(b), *r, *final(b)),
        !ok ==> *final(b) == *old(b),
{
    if find_token(&r.token, "IF").is_none() || b.cond_stack.len() == 0 {
        return false;
    }
    let n = b.stmt_counters.len();
    if body_contains(r, "ELSE") {
        if n < 2 {
            return false;
        }
        let c2 = b.stmt_counters[n - 1];
        let c1 = b.stmt_counters[n - 2];
        if !(c2 <= b.block_stack.len() && c1 <= b.block_stack.len() - c2) {
            return false;
        }
        if positions_of(&r.token, "LBRACE", true).len() < 2 || positions_of(&r.token, "RBRACE", false).len() < 2 {
            return false;
        }
    } else {
        if n < 1 {
            return false;
        }
        if !(b.stmt_counters[n - 1] <= b.block_stack.len() && find_token(&r.token, "LBRACE").is_some()) {
            return false;
        }
    }
    process_if_stmt(r, &mut b.cond_stack, &mut b.stmt_counters, &mut b.block_stack);
    true
}

fn step_condition(b: &mut AstBuilder, r: &ReduceResult) -> (ok: bool)
    requires
        head_kind(r.head@) == HeadKind::Condition,
    ensures
        ok == can_step(*old(b), *r),
        ok ==> step_rel(*old(b), *r, *final(b)),
        !ok ==> *final(b) == *old(b),
{
    if b.expr_stack.len() >= 2 && b.rel_stack.len() > 0 {
        process_cond(r, &mut b.expr_stack, &mut b.rel_stack, &mut b.cond_stack);
        true
    } else {
        false
    }
}

fn step_while_stmt(b: &mut AstBuilder, r: &ReduceResult) -> (ok: bool)
    requires
        head_kind(r.head@) == HeadKind::WhileStmt,
    ensures
        ok == can_step(*old(b), *r),
        ok ==> step_rel(*old(b), *r, *final(b)),
        !ok ==> *final(b) == *old(b),
{
    if b.cond_stack.len() > 0 && find_token(&r.token, "WHILE").is_some() && find_token(&r.token, "RBRACE").is_some()
        && b.stmt_counters.len() > 0 && b.stmt_counters[b.stmt_counters.len() - 1] <= b.block_stack.len() {
        process_while_stmt(r, &mut b.cond_stack, &mut b.stmt_counters, &mut b.block_stack);
        true
    } else {
        false
    }
}

fn step_for_stmt(b: &mut AstBuilder, r: &ReduceResult) -> (ok: bool)
    requires
        head_kind(r.head@) == HeadKind::ForStmt,
    ensures
        ok == can_step(*old(b), *r),
        ok ==> step_rel(*old(b), *r, *final(b)),
        !ok ==> *final(b) == *old(b),
{
    if b.for_cond_stack.len() > 0 && find_token(&r.token, "FOR").is_some() && find_token(&r.token, "RBRACE").is_some()
        && b.stmt_counters.len() > 0 && b.stmt_counters[b.stmt_counters.len() - 1] <= b.block_stack.len() {
        process_for_stmt(r, &mut b.for_cond_stack, &mut b.stmt_counters, &mut b.block_stack);
        b.counter_flag = true;
        true
    } else {
        false
    }
}

fn step_for_cond(b: &mut AstBuilder, r: &ReduceResult) -> (ok: bool)
    requires
        head_kind(r.head@) == HeadKind::ForCond,
    ensures
        ok == can_step(*old(b), *r),
        ok ==> step_rel(*old(b), *r, *final(b)),
        !ok ==> *final(b) == *old(b),
{
    if b.cond_stack.len() > 0 && b.block_stack.len() > 0 && b.id_stack.len() > 0 && b.expr_stack.len() > 0 && b.assign_stack.len() > 0 {
        process_for_cond(r, &mut b.cond_stack, &mut b.for_cond_stack, &mut b.block_stack, &mut b.id_stack, &mut b.assign_stack, &mut b.expr_stack);
        true
    } else {
        false
    }
}

/// Applies the reduction `r` to `b`. Returns `false`, leaving `b` as it was,
/// where the reduction cannot be applied.
pub fn step(b: &mut AstBuilder, r: &ReduceResult) -> (ok: bool)
    ensures
        ok == can_step(*old(b), *r),
        ok ==> step_rel(*old(b), *r, *final(b)),
        !ok ==> *final(b) == *old(b),
{
    match head_kind_of(&r.head) {
        HeadKind::Header => step_header(b, r),
        HeadKind::IdOrArray => step_id_or_array(b, r),
        HeadKind::SignalStmt => step_signal_stmt(b, r),
        HeadKind::CAssign | HeadKind::Plus => step_c_assign_plus(b, r),
        HeadKind::Op => step_op(b, r),
        HeadKind::Assign => step_assign(b, r),
        HeadKind::Rel => step_rel_token(b, r),
        HeadKind::AssignStmt => step_assign_stmt(b, r),
        HeadKind::Expr => step_expr(b, r),
        HeadKind::CAssignStmt => step_c_assign_stmt(b, r),
        HeadKind::VarStmt => step_var_stmt(b, r),
        HeadKind::VarPart => step_var(b, r),
        HeadKind::VarDef => step_var_def(b, r),
        HeadKind::ComponentStmt => step_component_stmt(b, r),
        HeadKind::CompPart => step_comp(b, r),
        HeadKind::CompDef => step_comp_def(b, r),
        HeadKind::Stmts => step_stmts(b, r),
        HeadKind::TemplateStmt | HeadKind::FuncStmt => step_template_stmt_func_stmt(b, r),
        HeadKind::RetStmt => step_ret_stmt(b, r),
        HeadKind::ComponentBlock => step_component_block(b, r),
        HeadKind::IdOrNum => step_id_or_num(b, r),
        HeadKind::Param => step_param(b, r),
        HeadKind::IfStmt => step_if_stmt(b, r),
        HeadKind::Condition => step_condition(b, r),
        HeadKind::WhileStmt => step_while_stmt(b, r),
        HeadKind::ForStmt => step_for_stmt(b, r),
        HeadKind::ForCond => step_for_cond(b, r),
        _ => true,
    }
}


/// Building reads the first `k` reductions: none of them is the program's,
/// and the next one, if any, is.
pub open spec fn stops_at(rs: Seq<ReduceResult>, k: int) -> bool {
    &&& 0 <= k <= rs.len()
    &&& forall|j: int| 0 <= j < k ==> head_kind((#[trigger] rs[j]).head@) != HeadKind::Program
    &&& k < rs.len() ==> head_kind(rs[k].head@) == HeadKind::Program
}

/// `bs` are the builders after each of the first `k` reductions of `rs`,
/// from the initial one.
pub open spec fn chain(rs: Seq<ReduceResult>, bs: Seq<AstBuilder>, k: int) -> bool {
    &&& 0 <= k <= rs.len()
    &&& bs.len() == k + 1
    &&& bs[0].initial()
    &&& forall|i: int| 0 <= i < k ==> can_step(#[trigger] bs[i], rs[i]) && step_rel(bs[i], rs[i], bs[i + 1])
}

/// Some reduction that building reads cannot be applied where it comes.
pub open spec fn build_fails(rs: Seq<ReduceResult>) -> bool {
    exists|bs: Seq<AstBuilder>, k: int|
        #![trigger chain(rs, bs, k)]
        0 <= k < rs.len() && (forall|j: int| 0 <= j <= k ==> head_kind((#[trigger] rs[j]).head@) != HeadKind::Program)
            && chain(rs, bs, k) && !can_step(bs[k], rs[k])
}

/// The program that the builder `b` holds: spanning from 0 to `last`, with
/// the compiler version as its one pragma, no includes, and the definitions
/// and main component read.
pub open spec fn ast_of(b: AstBuilder, ast: AST) -> bool {
    &&& ast.meta.fresh(0, b.last)
    &&& ast.compiler_version == Some(b.compiler_version)
    &&& !ast.custom_gates
    &&& ast.custom_gates_declared == has_custom_gate(b.definitions@)
    &&& ast.includes@.len() == 0
    &&& ast.definitions@ == b.definitions@
    &&& ast.main_component == b.main_component
}

/// `ast` is what building from `rs` gives.
pub open spec fn builds(rs: Seq<ReduceResult>, ast: AST) -> bool {
    exists|bs: Seq<AstBuilder>, k: int| #![trigger chain(rs, bs, k)] stops_at(rs, k) && chain(rs, bs, k) && ast_of(bs[k], ast)
}

/// Building reads nothing after the first `PROGRAM` reduction: whatever
/// follows it, the same trees are built from the reductions, and building
/// fails on the same ones.
pub proof fn lemma_build_ignores_rest(rs: Seq<ReduceResult>, p: ReduceResult, rest: Seq<ReduceResult>, ast: AST)
    requires
        head_kind(p.head@) == HeadKind::Program,
    ensures
        builds(rs.push(p), ast) <==> builds(rs.push(p) + rest, ast),
        build_fails(rs.push(p)) <==> build_fails(rs.push(p) + rest),
{
    let s = rs.push(p);
    let s2 = s + rest;
    assert(s2[rs.len() as int] == p);
    assert forall|j: int| 0 <= j < s.len() implies #[trigger] s2[j] == s[j] by {}
    if builds(s, ast) {
        let (bs, k) = choose|bs: Seq<AstBuilder>, k: int| #![trigger chain(s, bs, k)] stops_at(s, k) && chain(s, bs, k) && ast_of(bs[k], ast);
        assert(k <= rs.len());
        assert(stops_at(s2, k)) by {
            assert forall|j: int| 0 <= j < k implies head_kind((#[trigger] s2[j]).head@) != HeadKind::Program by {
                assert(s2[j] == s[j]);
            }
            if k < rs.len() {
                assert(s2[k] == s[k]);
            }
        }
        assert(chain(s2, bs, k)) by {
            assert forall|i: int| 0 <= i < k implies can_step(#[trigger] bs[i], s2[i]) && step_rel(bs[i], s2[i], bs[i + 1]) by {
                assert(s2[i] == s[i]);
            }
        }
        assert(builds(s2, ast));
    }
    if builds(s2, ast) {
        let (bs, k) = choose|bs: Seq<AstBuilder>, k: int| #![trigger chain(s2, bs, k)] stops_at(s2, k) && chain(s2, bs, k) && ast_of(bs[k], ast);
        assert(k <= rs.len()) by {
            if k > rs.len() {
                assert(head_kind(s2[rs.len() as int].head@) != HeadKind::Program);
            }
        }
        assert(stops_at(s, k)) by {
            assert forall|j: int| 0 <= j < k implies head_kind((#[trigger] s[j]).head@) != HeadKind::Program by {
                assert(s2[j] == s[j]);
            }
            if k < s.len() {
                assert(s2[k] == s[k]);
            }
        }
        assert(chain(s, bs, k)) by {
            assert forall|i: int| 0 <= i < k implies can_step(#[trigger] bs[i], s[i]) && step_rel(bs[i], s[i], bs[i + 1]) by {
                assert(s2[i] == s[i]);
            }
        }
        assert(builds(s, ast));
    }
    if build_fails(s) {
        let (bs, k) = choose|bs: Seq<AstBuilder>, k: int|
            #![trigger chain(s, bs, k)]
            0 <= k < s.len() && (forall|j: int| 0 <= j <= k ==> head_kind((#[trigger] s[j]).head@) != HeadKind::Program)
                && chain(s, bs, k) && !can_step(bs[k], s[k]);
        assert(k < rs.len()) by {
            if k >= rs.len() {
                assert(head_kind(s[rs.len() as int].head@) != HeadKind::Program);
            }
        }
        assert forall|j: int| 0 <= j <= k implies head_kind((#[trigger] s2[j]).head@) != HeadKind::Program by {
            assert(s2[j] == s[j]);
        }
        assert(chain(s2, bs, k)) by {
            assert forall|i: int| 0 <= i < k implies can_step(#[trigger] bs[i], s2[i]) && step_rel(bs[i], s2[i], bs[i + 1]) by {
                assert(s2[i] == s[i]);
            }
        }
        assert(s2[k] == s[k]);
        assert(build_fails(s2));
    }
    if build_fails(s2) {
        let (bs, k) = choose|bs: Seq<AstBuilder>, k: int|
            #![trigger chain(s2, bs, k)]
            0 <= k < s2.len() && (forall|j: int| 0 <= j <= k ==> head_kind((#[trigger] s2[j]).head@) != HeadKind::Program)
                && chain(s2, bs, k) && !can_step(bs[k], s2[k]);
        assert(k < rs.len()) by {
            if k >= rs.len() {
                assert(head_kind(s2[rs.len() as int].head@) != HeadKind::Program);
            }
        }
        assert forall|j: int| 0 <= j <= k implies head_kind((#[trigger] s[j]).head@) != HeadKind::Program by {
            assert(s2[j] == s[j]);
        }
        assert(chain(s, bs, k)) by {
            assert forall|i: int| 0 <= i < k implies can_step(#[trigger] bs[i], s[i]) && step_rel(bs[i], s[i], bs[i + 1]) by {
                assert(s2[i] == s[i]);
            }
        }
        assert(s2[k] == s[k]);
        assert(build_fails(s));
    }
}

/// The program the builder holds.
fn finish(b: AstBuilder) -> (ast: AST)
    ensures
        ast_of(b, ast),
{
    let meta = Meta::new(0, b.last);
    let mut pragmas: Vec<Pragma> = Vec::new();
    pragmas.push(Pragma::Version(Meta::new(0, b.last), 0, b.compiler_version));
    proof {
        assert(pragmas@.len() == 1);
        assert(first_version(pragmas@) == Some(b.compiler_version));
        assert(!declares_custom_gates(pragmas@));
    }
    AST::new(meta, pragmas, Vec::new(), b.definitions, b.main_component)
}

/// Builds the program from the reductions, reading them up to the first
/// one of `PROGRAM`; `None` where a reduction cannot be applied.
pub fn try_build_ast(results: &Vec<ReduceResult>) -> (r: Option<AST>)
    ensures
        match r {
            Some(ast) => builds(results@, ast),
            None => build_fails(results@),
        },
{
    let mut b = AstBuilder::new();
    let ghost mut bs: Seq<AstBuilder> = seq![b];
    let mut i: usize = 0;
    while i < results.len() && head_kind_of(&results[i].head) != HeadKind::Program
        invariant
            i <= results.len(),
            chain(results@, bs, i as int),
            bs.last() == b,
            forall|j: int| 0 <= j < i ==> head_kind((#[trigger] results@[j]).head@) != HeadKind::Program,
        decreases results.len() - i,
    {
        let ghost b0 = b;
        let ok = step(&mut b, &results[i]);
        if !ok {
            proof {
                assert(bs[i as int] == b0);
                assert(chain(results@, bs, i as int));
                assert(build_fails(results@));
            }
            return None;
        }
        proof {
            let bs2 = bs.push(b);
            assert forall|k: int| 0 <= k < i + 1 implies can_step(#[trigger] bs2[k], results@[k]) && step_rel(bs2[k], results@[k], bs2[k + 1]) by {
                if k < i {
                    assert(bs2[k] == bs[k] && bs2[k + 1] == bs[k + 1]);
                } else {
                    assert(bs2[k] == b0 && bs2[k + 1] == b);
                }
            }
            bs = bs2;
        }
        i += 1;
    }
    let ghost bk = b;
    let ast = finish(b);
    proof {
        assert(stops_at(results@, i as int));
        assert(bs[i as int] == bk);
        assert(chain(results@, bs, i as int));
    }
    Some(ast)
}

/// Builds the program from the reductions, reading them up to the first one
/// of `PROGRAM`; each reduction read must be one that can be applied where it
/// comes.
pub fn build_ast(results: Vec<ReduceResult>) -> (ast: AST)
    requires
        !build_fails(results@),
    ensures
        builds(results@, ast),
{
    match try_build_ast(&results) {
        Some(ast) => ast,
        None => finish(AstBuilder::new()),
    }
}
} // verus!

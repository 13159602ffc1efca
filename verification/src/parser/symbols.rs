//! The token types and the grammar symbols agree: the parser reads each
//! token as the text that the lexer rule of its type matches.
use vstd::prelude::*;
use crate::lexer::lexer::{literal_of, rules};
use crate::parser::lr1::{symbol_of, symbol_table, table_value};

verus! {

/// The rule of `SEMICOLON` matches the text the table gives it.
proof fn lemma_symbol_entry_0()
    ensures
        rules()[70].0@ == symbol_table()[0].0@,
        literal_of(rules()[70].1@) == Some(symbol_table()[0].1@),
{
    reveal_strlit(";");
    reveal_strlit("SEMICOLON");
    assert(rules()[70] == ("SEMICOLON", ";"));
    assert(symbol_table()[0] == ("SEMICOLON", ";"));
    let p = ";"@;
    assert(p.skip(1) =~= Seq::<char>::empty());
    assert(literal_of(p.skip(1)) =~~= Some(Seq::<char>::empty()));
    assert(p.skip(0) =~= seq![';']);
    assert(p.skip(0).skip(1) =~= p.skip(1));
    assert(literal_of(p.skip(0)) =~~= Some(seq![';']));
    assert(p.skip(0) =~= p);
    assert(";"@ =~= seq![';']);
}

/// The rule of `INCREMENT` matches the text the table gives it.
proof fn lemma_symbol_entry_1()
    ensures
        rules()[23].0@ == symbol_table()[1].0@,
        literal_of(rules()[23].1@) == Some(symbol_table()[1].1@),
{
    reveal_strlit("++");
    reveal_strlit("INCREMENT");
    reveal_strlit("\\+\\+");
    assert(rules()[23] == ("INCREMENT", "\\+\\+"));
    assert(symbol_table()[1] == ("INCREMENT", "++"));
    let p = "\\+\\+"@;
    assert(p.skip(4) =~= Seq::<char>::empty());
    assert(literal_of(p.skip(4)) =~~= Some(Seq::<char>::empty()));
    assert(p.skip(2) =~= seq!['\\', '+']);
    assert(p.skip(2).skip(2) =~= p.skip(4));
    assert(literal_of(p.skip(2)) =~~= Some(seq!['+']));
    assert(p.skip(0) =~= seq!['\\', '+', '\\', '+']);
    assert(p.skip(0).skip(2) =~= p.skip(2));
    assert(literal_of(p.skip(0)) =~~= Some(seq!['+', '+']));
    assert(p.skip(0) =~= p);
    assert("++"@ =~= seq!['+', '+']);
}

/// The rule of `DECREMENT` matches the text the table gives it.
proof fn lemma_symbol_entry_2()
    ensures
        rules()[24].0@ == symbol_table()[2].0@,
        literal_of(rules()[24].1@) == Some(symbol_table()[2].1@),
{
    reveal_strlit("--");
    reveal_strlit("DECREMENT");
    assert(rules()[24] == ("DECREMENT", "--"));
    assert(symbol_table()[2] == ("DECREMENT", "--"));
    let p = "--"@;
    assert(p.skip(2) =~= Seq::<char>::empty());
    assert(literal_of(p.skip(2)) =~~= Some(Seq::<char>::empty()));
    assert(p.skip(1) =~= seq!['-']);
    assert(p.skip(1).skip(1) =~= p.skip(2));
    assert(literal_of(p.skip(1)) =~~= Some(seq!['-']));
    assert(p.skip(0) =~= seq!['-', '-']);
    assert(p.skip(0).skip(1) =~= p.skip(1));
    assert(literal_of(p.skip(0)) =~~= Some(seq!['-', '-']));
    assert(p.skip(0) =~= p);
    assert("--"@ =~= seq!['-', '-']);
}

/// The rule of `PLUS_ASSIGN` matches the text the table gives it.
proof fn lemma_symbol_entry_3()
    ensures
        rules()[25].0@ == symbol_table()[3].0@,
        literal_of(rules()[25].1@) == Some(symbol_table()[3].1@),
{
    reveal_strlit("+=");
    reveal_strlit("PLUS_ASSIGN");
    reveal_strlit("\\+=");
    assert(rules()[25] == ("PLUS_ASSIGN", "\\+="));
    assert(symbol_table()[3] == ("PLUS_ASSIGN", "+="));
    let p = "\\+="@;
    assert(p.skip(3) =~= Seq::<char>::empty());
    assert(literal_of(p.skip(3)) =~~= Some(Seq::<char>::empty()));
    assert(p.skip(2) =~= seq!['=']);
    assert(p.skip(2).skip(1) =~= p.skip(3));
    assert(literal_of(p.skip(2)) =~~= Some(seq!['=']));
    assert(p.skip(0) =~= seq!['\\', '+', '=']);
    assert(p.skip(0).skip(2) =~= p.skip(2));
    assert(literal_of(p.skip(0)) =~~= Some(seq!['+', '=']));
    assert(p.skip(0) =~= p);
    assert("+="@ =~= seq!['+', '=']);
}

/// The rule of `MINUS_ASSIGN` matches the text the table gives it.
proof fn lemma_symbol_entry_4()
    ensures
        rules()[26].0@ == symbol_table()[4].0@,
        literal_of(rules()[26].1@) == Some(symbol_table()[4].1@),
{
    reveal_strlit("-=");
    reveal_strlit("MINUS_ASSIGN");
    assert(rules()[26] == ("MINUS_ASSIGN", "-="));
    assert(symbol_table()[4] == ("MINUS_ASSIGN", "-="));
    let p = "-="@;
    assert(p.skip(2) =~= Seq::<char>::empty());
    assert(literal_of(p.skip(2)) =~~= Some(Seq::<char>::empty()));
    assert(p.skip(1) =~= seq!['=']);
    assert(p.skip(1).skip(1) =~= p.skip(2));
    assert(literal_of(p.skip(1)) =~~= Some(seq!['=']));
    assert(p.skip(0) =~= seq!['-', '=']);
    assert(p.skip(0).skip(1) =~= p.skip(1));
    assert(literal_of(p.skip(0)) =~~= Some(seq!['-', '=']));
    assert(p.skip(0) =~= p);
    assert("-="@ =~= seq!['-', '=']);
}

/// The rule of `MULTIPLY_ASSIGN` matches the text the table gives it.
proof fn lemma_symbol_entry_5()
    ensures
        rules()[27].0@ == symbol_table()[5].0@,
        literal_of(rules()[27].1@) == Some(symbol_table()[5].1@),
{
    reveal_strlit("*=");
    reveal_strlit("MULTIPLY_ASSIGN");
    reveal_strlit("\\*=");
    assert(rules()[27] == ("MULTIPLY_ASSIGN", "\\*="));
    assert(symbol_table()[5] == ("MULTIPLY_ASSIGN", "*="));
    let p = "\\*="@;
    assert(p.skip(3) =~= Seq::<char>::empty());
    assert(literal_of(p.skip(3)) =~~= Some(Seq::<char>::empty()));
    assert(p.skip(2) =~= seq!['=']);
    assert(p.skip(2).skip(1) =~= p.skip(3));
    assert(literal_of(p.skip(2)) =~~= Some(seq!['=']));
    assert(p.skip(0) =~= seq!['\\', '*', '=']);
    assert(p.skip(0).skip(2) =~= p.skip(2));
    assert(literal_of(p.skip(0)) =~~= Some(seq!['*', '=']));
    assert(p.skip(0) =~= p);
    assert("*="@ =~= seq!['*', '=']);
}

/// The rule of `DIVIDE_ASSIGN` matches the text the table gives it.
proof fn lemma_symbol_entry_6()
    ensures
        rules()[28].0@ == symbol_table()[6].0@,
        literal_of(rules()[28].1@) == Some(symbol_table()[6].1@),
{
    reveal_strlit("/=");
    reveal_strlit("DIVIDE_ASSIGN");
    assert(rules()[28] == ("DIVIDE_ASSIGN", "/="));
    assert(symbol_table()[6] == ("DIVIDE_ASSIGN", "/="));
    let p = "/="@;
    assert(p.skip(2) =~= Seq::<char>::empty());
    assert(literal_of(p.skip(2)) =~~= Some(Seq::<char>::empty()));
    assert(p.skip(1) =~= seq!['=']);
    assert(p.skip(1).skip(1) =~= p.skip(2));
    assert(literal_of(p.skip(1)) =~~= Some(seq!['=']));
    assert(p.skip(0) =~= seq!['/', '=']);
    assert(p.skip(0).skip(1) =~= p.skip(1));
    assert(literal_of(p.skip(0)) =~~= Some(seq!['/', '=']));
    assert(p.skip(0) =~= p);
    assert("/="@ =~= seq!['/', '=']);
}

/// The rule of `MODULUS_ASSIGN` matches the text the table gives it.
proof fn lemma_symbol_entry_7()
    ensures
        rules()[29].0@ == symbol_table()[7].0@,
        literal_of(rules()[29].1@) == Some(symbol_table()[7].1@),
{
    reveal_strlit("%=");
    reveal_strlit("MODULUS_ASSIGN");
    assert(rules()[29] == ("MODULUS_ASSIGN", "%="));
    assert(symbol_table()[7] == ("MODULUS_ASSIGN", "%="));
    let p = "%="@;
    assert(p.skip(2) =~= Seq::<char>::empty());
    assert(literal_of(p.skip(2)) =~~= Some(Seq::<char>::empty()));
    assert(p.skip(1) =~= seq!['=']);
    assert(p.skip(1).skip(1) =~= p.skip(2));
    assert(literal_of(p.skip(1)) =~~= Some(seq!['=']));
    assert(p.skip(0) =~= seq!['%', '=']);
    assert(p.skip(0).skip(1) =~= p.skip(1));
    assert(literal_of(p.skip(0)) =~~= Some(seq!['%', '=']));
    assert(p.skip(0) =~= p);
    assert("%="@ =~= seq!['%', '=']);
}

/// The rule of `BITWISE_AND_ASSIGN` matches the text the table gives it.
proof fn lemma_symbol_entry_8()
    ensures
        rules()[31].0@ == symbol_table()[8].0@,
        literal_of(rules()[31].1@) == Some(symbol_table()[8].1@),
{
    reveal_strlit("&=");
    reveal_strlit("BITWISE_AND_ASSIGN");
    assert(rules()[31] == ("BITWISE_AND_ASSIGN", "&="));
    assert(symbol_table()[8] == ("BITWISE_AND_ASSIGN", "&="));
    let p = "&="@;
    assert(p.skip(2) =~= Seq::<char>::empty());
    assert(literal_of(p.skip(2)) =~~= Some(Seq::<char>::empty()));
    assert(p.skip(1) =~= seq!['=']);
    assert(p.skip(1).skip(1) =~= p.skip(2));
    assert(literal_of(p.skip(1)) =~~= Some(seq!['=']));
    assert(p.skip(0) =~= seq!['&', '=']);
    assert(p.skip(0).skip(1) =~= p.skip(1));
    assert(literal_of(p.skip(0)) =~~= Some(seq!['&', '=']));
    assert(p.skip(0) =~= p);
    assert("&="@ =~= seq!['&', '=']);
}

/// The rule of `BITWISE_XOR_ASSIGN` matches the text the table gives it.
proof fn lemma_symbol_entry_9()
    ensures
        rules()[33].0@ == symbol_table()[9].0@,
        literal_of(rules()[33].1@) == Some(symbol_table()[9].1@),
{
    reveal_strlit("BITWISE_XOR_ASSIGN");
    reveal_strlit("\\^=");
    reveal_strlit("^=");
    assert(rules()[33] == ("BITWISE_XOR_ASSIGN", "\\^="));
    assert(symbol_table()[9] == ("BITWISE_XOR_ASSIGN", "^="));
    let p = "\\^="@;
    assert(p.skip(3) =~= Seq::<char>::empty());
    assert(literal_of(p.skip(3)) =~~= Some(Seq::<char>::empty()));
    assert(p.skip(2) =~= seq!['=']);
    assert(p.skip(2).skip(1) =~= p.skip(3));
    assert(literal_of(p.skip(2)) =~~= Some(seq!['=']));
    assert(p.skip(0) =~= seq!['\\', '^', '=']);
    assert(p.skip(0).skip(2) =~= p.skip(2));
    assert(literal_of(p.skip(0)) =~~= Some(seq!['^', '=']));
    assert(p.skip(0) =~= p);
    assert("^="@ =~= seq!['^', '=']);
}

/// The rule of `BITWISE_NOT_ASSIGN` matches the text the table gives it.
proof fn lemma_symbol_entry_10()
    ensures
        rules()[34].0@ == symbol_table()[10].0@,
        literal_of(rules()[34].1@) == Some(symbol_table()[10].1@),
{
    reveal_strlit("BITWISE_NOT_ASSIGN");
    reveal_strlit("~=");
    assert(rules()[34] == ("BITWISE_NOT_ASSIGN", "~="));
    assert(symbol_table()[10] == ("BITWISE_NOT_ASSIGN", "~="));
    let p = "~="@;
    assert(p.skip(2) =~= Seq::<char>::empty());
    assert(literal_of(p.skip(2)) =~~= Some(Seq::<char>::empty()));
    assert(p.skip(1) =~= seq!['=']);
    assert(p.skip(1).skip(1) =~= p.skip(2));
    assert(literal_of(p.skip(1)) =~~= Some(seq!['=']));
    assert(p.skip(0) =~= seq!['~', '=']);
    assert(p.skip(0).skip(1) =~= p.skip(1));
    assert(literal_of(p.skip(0)) =~~= Some(seq!['~', '=']));
    assert(p.skip(0) =~= p);
    assert("~="@ =~= seq!['~', '=']);
}

/// The rule of `LEFT_SHIFT_ASSIGN` matches the text the table gives it.
proof fn lemma_symbol_entry_11()
    ensures
        rules()[35].0@ == symbol_table()[11].0@,
        literal_of(rules()[35].1@) == Some(symbol_table()[11].1@),
{
    reveal_strlit("<<=");
    reveal_strlit("LEFT_SHIFT_ASSIGN");
    assert(rules()[35] == ("LEFT_SHIFT_ASSIGN", "<<="));
    assert(symbol_table()[11] == ("LEFT_SHIFT_ASSIGN", "<<="));
    let p = "<<="@;
    assert(p.skip(3) =~= Seq::<char>::empty());
    assert(literal_of(p.skip(3)) =~~= Some(Seq::<char>::empty()));
    assert(p.skip(2) =~= seq!['=']);
    assert(p.skip(2).skip(1) =~= p.skip(3));
    assert(literal_of(p.skip(2)) =~~= Some(seq!['=']));
    assert(p.skip(1) =~= seq!['<', '=']);
    assert(p.skip(1).skip(1) =~= p.skip(2));
    assert(literal_of(p.skip(1)) =~~= Some(seq!['<', '=']));
    assert(p.skip(0) =~= seq!['<', '<', '=']);
    assert(p.skip(0).skip(1) =~= p.skip(1));
    assert(literal_of(p.skip(0)) =~~= Some(seq!['<', '<', '=']));
    assert(p.skip(0) =~= p);
    assert("<<="@ =~= seq!['<', '<', '=']);
}

/// The rule of `RIGHT_SHIFT_ASSIGN` matches the text the table gives it.
proof fn lemma_symbol_entry_12()
    ensures
        rules()[36].0@ == symbol_table()[12].0@,
        literal_of(rules()[36].1@) == Some(symbol_table()[12].1@),
{
    reveal_strlit(">>=");
    reveal_strlit("RIGHT_SHIFT_ASSIGN");
    assert(rules()[36] == ("RIGHT_SHIFT_ASSIGN", ">>="));
    assert(symbol_table()[12] == ("RIGHT_SHIFT_ASSIGN", ">>="));
    let p = ">>="@;
    assert(p.skip(3) =~= Seq::<char>::empty());
    assert(literal_of(p.skip(3)) =~~= Some(Seq::<char>::empty()));
    assert(p.skip(2) =~= seq!['=']);
    assert(p.skip(2).skip(1) =~= p.skip(3));
    assert(literal_of(p.skip(2)) =~~= Some(seq!['=']));
    assert(p.skip(1) =~= seq!['>', '=']);
    assert(p.skip(1).skip(1) =~= p.skip(2));
    assert(literal_of(p.skip(1)) =~~= Some(seq!['>', '=']));
    assert(p.skip(0) =~= seq!['>', '>', '=']);
    assert(p.skip(0).skip(1) =~= p.skip(1));
    assert(literal_of(p.skip(0)) =~~= Some(seq!['>', '>', '=']));
    assert(p.skip(0) =~= p);
    assert(">>="@ =~= seq!['>', '>', '=']);
}

/// The rule of `PLUS` matches the text the table gives it.
proof fn lemma_symbol_entry_13()
    ensures
        rules()[37].0@ == symbol_table()[13].0@,
        literal_of(rules()[37].1@) == Some(symbol_table()[13].1@),
{
    reveal_strlit("+");
    reveal_strlit("PLUS");
    reveal_strlit("\\+");
    assert(rules()[37] == ("PLUS", "\\+"));
    assert(symbol_table()[13] == ("PLUS", "+"));
    let p = "\\+"@;
    assert(p.skip(2) =~= Seq::<char>::empty());
    assert(literal_of(p.skip(2)) =~~= Some(Seq::<char>::empty()));
    assert(p.skip(0) =~= seq!['\\', '+']);
    assert(p.skip(0).skip(2) =~= p.skip(2));
    assert(literal_of(p.skip(0)) =~~= Some(seq!['+']));
    assert(p.skip(0) =~= p);
    assert("+"@ =~= seq!['+']);
}

/// The rule of `MINUS` matches the text the table gives it.
proof fn lemma_symbol_entry_14()
    ensures
        rules()[38].0@ == symbol_table()[14].0@,
        literal_of(rules()[38].1@) == Some(symbol_table()[14].1@),
{
    reveal_strlit("-");
    reveal_strlit("MINUS");
    assert(rules()[38] == ("MINUS", "-"));
    assert(symbol_table()[14] == ("MINUS", "-"));
    let p = "-"@;
    assert(p.skip(1) =~= Seq::<char>::empty());
    assert(literal_of(p.skip(1)) =~~= Some(Seq::<char>::empty()));
    assert(p.skip(0) =~= seq!['-']);
    assert(p.skip(0).skip(1) =~= p.skip(1));
    assert(literal_of(p.skip(0)) =~~= Some(seq!['-']));
    assert(p.skip(0) =~= p);
    assert("-"@ =~= seq!['-']);
}

/// The rule of `MULTIPLY` matches the text the table gives it.
proof fn lemma_symbol_entry_15()
    ensures
        rules()[39].0@ == symbol_table()[15].0@,
        literal_of(rules()[39].1@) == Some(symbol_table()[15].1@),
{
    reveal_strlit("*");
    reveal_strlit("MULTIPLY");
    reveal_strlit("\\*");
    assert(rules()[39] == ("MULTIPLY", "\\*"));
    assert(symbol_table()[15] == ("MULTIPLY", "*"));
    let p = "\\*"@;
    assert(p.skip(2) =~= Seq::<char>::empty());
    assert(literal_of(p.skip(2)) =~~= Some(Seq::<char>::empty()));
    assert(p.skip(0) =~= seq!['\\', '*']);
    assert(p.skip(0).skip(2) =~= p.skip(2));
    assert(literal_of(p.skip(0)) =~~= Some(seq!['*']));
    assert(p.skip(0) =~= p);
    assert("*"@ =~= seq!['*']);
}

/// The rule of `DIVIDE` matches the text the table gives it.
proof fn lemma_symbol_entry_16()
    ensures
        rules()[40].0@ == symbol_table()[16].0@,
        literal_of(rules()[40].1@) == Some(symbol_table()[16].1@),
{
    reveal_strlit("/");
    reveal_strlit("DIVIDE");
    assert(rules()[40] == ("DIVIDE", "/"));
    assert(symbol_table()[16] == ("DIVIDE", "/"));
    let p = "/"@;
    assert(p.skip(1) =~= Seq::<char>::empty());
    assert(literal_of(p.skip(1)) =~~= Some(Seq::<char>::empty()));
    assert(p.skip(0) =~= seq!['/']);
    assert(p.skip(0).skip(1) =~= p.skip(1));
    assert(literal_of(p.skip(0)) =~~= Some(seq!['/']));
    assert(p.skip(0) =~= p);
    assert("/"@ =~= seq!['/']);
}

/// The rule of `MODULUS` matches the text the table gives it.
proof fn lemma_symbol_entry_17()
    ensures
        rules()[41].0@ == symbol_table()[17].0@,
        literal_of(rules()[41].1@) == Some(symbol_table()[17].1@),
{
    reveal_strlit("%");
    reveal_strlit("MODULUS");
    assert(rules()[41] == ("MODULUS", "%"));
    assert(symbol_table()[17] == ("MODULUS", "%"));
    let p = "%"@;
    assert(p.skip(1) =~= Seq::<char>::empty());
    assert(literal_of(p.skip(1)) =~~= Some(Seq::<char>::empty()));
    assert(p.skip(0) =~= seq!['%']);
    assert(p.skip(0).skip(1) =~= p.skip(1));
    assert(literal_of(p.skip(0)) =~~= Some(seq!['%']));
    assert(p.skip(0) =~= p);
    assert("%"@ =~= seq!['%']);
}

/// The rule of `LOGICAL_AND` matches the text the table gives it.
proof fn lemma_symbol_entry_18()
    ensures
        rules()[43].0@ == symbol_table()[18].0@,
        literal_of(rules()[43].1@) == Some(symbol_table()[18].1@),
{
    reveal_strlit("&&");
    reveal_strlit("LOGICAL_AND");
    assert(rules()[43] == ("LOGICAL_AND", "&&"));
    assert(symbol_table()[18] == ("LOGICAL_AND", "&&"));
    let p = "&&"@;
    assert(p.skip(2) =~= Seq::<char>::empty());
    assert(literal_of(p.skip(2)) =~~= Some(Seq::<char>::empty()));
    assert(p.skip(1) =~= seq!['&']);
    assert(p.skip(1).skip(1) =~= p.skip(2));
    assert(literal_of(p.skip(1)) =~~= Some(seq!['&']));
    assert(p.skip(0) =~= seq!['&', '&']);
    assert(p.skip(0).skip(1) =~= p.skip(1));
    assert(literal_of(p.skip(0)) =~~= Some(seq!['&', '&']));
    assert(p.skip(0) =~= p);
    assert("&&"@ =~= seq!['&', '&']);
}

/// The rule of `BITWISE_AND` matches the text the table gives it.
proof fn lemma_symbol_entry_19()
    ensures
        rules()[45].0@ == symbol_table()[19].0@,
        literal_of(rules()[45].1@) == Some(symbol_table()[19].1@),
{
    reveal_strlit("&");
    reveal_strlit("BITWISE_AND");
    assert(rules()[45] == ("BITWISE_AND", "&"));
    assert(symbol_table()[19] == ("BITWISE_AND", "&"));
    let p = "&"@;
    assert(p.skip(1) =~= Seq::<char>::empty());
    assert(literal_of(p.skip(1)) =~~= Some(Seq::<char>::empty()));
    assert(p.skip(0) =~= seq!['&']);
    assert(p.skip(0).skip(1) =~= p.skip(1));
    assert(literal_of(p.skip(0)) =~~= Some(seq!['&']));
    assert(p.skip(0) =~= p);
    assert("&"@ =~= seq!['&']);
}

/// The rule of `BITWISE_XOR` matches the text the table gives it.
proof fn lemma_symbol_entry_20()
    ensures
        rules()[47].0@ == symbol_table()[20].0@,
        literal_of(rules()[47].1@) == Some(symbol_table()[20].1@),
{
    reveal_strlit("BITWISE_XOR");
    reveal_strlit("\\^");
    reveal_strlit("^");
    assert(rules()[47] == ("BITWISE_XOR", "\\^"));
    assert(symbol_table()[20] == ("BITWISE_XOR", "^"));
    let p = "\\^"@;
    assert(p.skip(2) =~= Seq::<char>::empty());
    assert(literal_of(p.skip(2)) =~~= Some(Seq::<char>::empty()));
    assert(p.skip(0) =~= seq!['\\', '^']);
    assert(p.skip(0).skip(2) =~= p.skip(2));
    assert(literal_of(p.skip(0)) =~~= Some(seq!['^']));
    assert(p.skip(0) =~= p);
    assert("^"@ =~= seq!['^']);
}

/// The rule of `BITWISE_NOT` matches the text the table gives it.
proof fn lemma_symbol_entry_21()
    ensures
        rules()[48].0@ == symbol_table()[21].0@,
        literal_of(rules()[48].1@) == Some(symbol_table()[21].1@),
{
    reveal_strlit("BITWISE_NOT");
    reveal_strlit("~");
    assert(rules()[48] == ("BITWISE_NOT", "~"));
    assert(symbol_table()[21] == ("BITWISE_NOT", "~"));
    let p = "~"@;
    assert(p.skip(1) =~= Seq::<char>::empty());
    assert(literal_of(p.skip(1)) =~~= Some(Seq::<char>::empty()));
    assert(p.skip(0) =~= seq!['~']);
    assert(p.skip(0).skip(1) =~= p.skip(1));
    assert(literal_of(p.skip(0)) =~~= Some(seq!['~']));
    assert(p.skip(0) =~= p);
    assert("~"@ =~= seq!['~']);
}

/// The rule of `LEFT_SHIFT` matches the text the table gives it.
proof fn lemma_symbol_entry_22()
    ensures
        rules()[49].0@ == symbol_table()[22].0@,
        literal_of(rules()[49].1@) == Some(symbol_table()[22].1@),
{
    reveal_strlit("<<");
    reveal_strlit("LEFT_SHIFT");
    assert(rules()[49] == ("LEFT_SHIFT", "<<"));
    assert(symbol_table()[22] == ("LEFT_SHIFT", "<<"));
    let p = "<<"@;
    assert(p.skip(2) =~= Seq::<char>::empty());
    assert(literal_of(p.skip(2)) =~~= Some(Seq::<char>::empty()));
    assert(p.skip(1) =~= seq!['<']);
    assert(p.skip(1).skip(1) =~= p.skip(2));
    assert(literal_of(p.skip(1)) =~~= Some(seq!['<']));
    assert(p.skip(0) =~= seq!['<', '<']);
    assert(p.skip(0).skip(1) =~= p.skip(1));
    assert(literal_of(p.skip(0)) =~~= Some(seq!['<', '<']));
    assert(p.skip(0) =~= p);
    assert("<<"@ =~= seq!['<', '<']);
}

/// The rule of `RIGHT_SHIFT` matches the text the table gives it.
proof fn lemma_symbol_entry_23()
    ensures
        rules()[50].0@ == symbol_table()[23].0@,
        literal_of(rules()[50].1@) == Some(symbol_table()[23].1@),
{
    reveal_strlit(">>");
    reveal_strlit("RIGHT_SHIFT");
    assert(rules()[50] == ("RIGHT_SHIFT", ">>"));
    assert(symbol_table()[23] == ("RIGHT_SHIFT", ">>"));
    let p = ">>"@;
    assert(p.skip(2) =~= Seq::<char>::empty());
    assert(literal_of(p.skip(2)) =~~= Some(Seq::<char>::empty()));
    assert(p.skip(1) =~= seq!['>']);
    assert(p.skip(1).skip(1) =~= p.skip(2));
    assert(literal_of(p.skip(1)) =~~= Some(seq!['>']));
    assert(p.skip(0) =~= seq!['>', '>']);
    assert(p.skip(0).skip(1) =~= p.skip(1));
    assert(literal_of(p.skip(0)) =~~= Some(seq!['>', '>']));
    assert(p.skip(0) =~= p);
    assert(">>"@ =~= seq!['>', '>']);
}

/// The rule of `CIRCOM_L_ASSIGN` matches the text the table gives it.
proof fn lemma_symbol_entry_24()
    ensures
        rules()[51].0@ == symbol_table()[24].0@,
        literal_of(rules()[51].1@) == Some(symbol_table()[24].1@),
{
    reveal_strlit("<--");
    reveal_strlit("CIRCOM_L_ASSIGN");
    assert(rules()[51] == ("CIRCOM_L_ASSIGN", "<--"));
    assert(symbol_table()[24] == ("CIRCOM_L_ASSIGN", "<--"));
    let p = "<--"@;
    assert(p.skip(3) =~= Seq::<char>::empty());
    assert(literal_of(p.skip(3)) =~~= Some(Seq::<char>::empty()));
    assert(p.skip(2) =~= seq!['-']);
    assert(p.skip(2).skip(1) =~= p.skip(3));
    assert(literal_of(p.skip(2)) =~~= Some(seq!['-']));
    assert(p.skip(1) =~= seq!['-', '-']);
    assert(p.skip(1).skip(1) =~= p.skip(2));
    assert(literal_of(p.skip(1)) =~~= Some(seq!['-', '-']));
    assert(p.skip(0) =~= seq!['<', '-', '-']);
    assert(p.skip(0).skip(1) =~= p.skip(1));
    assert(literal_of(p.skip(0)) =~~= Some(seq!['<', '-', '-']));
    assert(p.skip(0) =~= p);
    assert("<--"@ =~= seq!['<', '-', '-']);
}

/// The rule of `CIRCOM_R_ASSIGN` matches the text the table gives it.
proof fn lemma_symbol_entry_25()
    ensures
        rules()[52].0@ == symbol_table()[25].0@,
        literal_of(rules()[52].1@) == Some(symbol_table()[25].1@),
{
    reveal_strlit("-->");
    reveal_strlit("CIRCOM_R_ASSIGN");
    assert(rules()[52] == ("CIRCOM_R_ASSIGN", "-->"));
    assert(symbol_table()[25] == ("CIRCOM_R_ASSIGN", "-->"));
    let p = "-->"@;
    assert(p.skip(3) =~= Seq::<char>::empty());
    assert(literal_of(p.skip(3)) =~~= Some(Seq::<char>::empty()));
    assert(p.skip(2) =~= seq!['>']);
    assert(p.skip(2).skip(1) =~= p.skip(3));
    assert(literal_of(p.skip(2)) =~~= Some(seq!['>']));
    assert(p.skip(1) =~= seq!['-', '>']);
    assert(p.skip(1).skip(1) =~= p.skip(2));
    assert(literal_of(p.skip(1)) =~~= Some(seq!['-', '>']));
    assert(p.skip(0) =~= seq!['-', '-', '>']);
    assert(p.skip(0).skip(1) =~= p.skip(1));
    assert(literal_of(p.skip(0)) =~~= Some(seq!['-', '-', '>']));
    assert(p.skip(0) =~= p);
    assert("-->"@ =~= seq!['-', '-', '>']);
}

/// The rule of `CIRCOM_L_CONSTRAINT_ASSIGN` matches the text the table gives it.
proof fn lemma_symbol_entry_26()
    ensures
        rules()[53].0@ == symbol_table()[26].0@,
        literal_of(rules()[53].1@) == Some(symbol_table()[26].1@),
{
    reveal_strlit("<==");
    reveal_strlit("CIRCOM_L_CONSTRAINT_ASSIGN");
    assert(rules()[53] == ("CIRCOM_L_CONSTRAINT_ASSIGN", "<=="));
    assert(symbol_table()[26] == ("CIRCOM_L_CONSTRAINT_ASSIGN", "<=="));
    let p = "<=="@;
    assert(p.skip(3) =~= Seq::<char>::empty());
    assert(literal_of(p.skip(3)) =~~= Some(Seq::<char>::empty()));
    assert(p.skip(2) =~= seq!['=']);
    assert(p.skip(2).skip(1) =~= p.skip(3));
    assert(literal_of(p.skip(2)) =~~= Some(seq!['=']));
    assert(p.skip(1) =~= seq!['=', '=']);
    assert(p.skip(1).skip(1) =~= p.skip(2));
    assert(literal_of(p.skip(1)) =~~= Some(seq!['=', '=']));
    assert(p.skip(0) =~= seq!['<', '=', '=']);
    assert(p.skip(0).skip(1) =~= p.skip(1));
    assert(literal_of(p.skip(0)) =~~= Some(seq!['<', '=', '=']));
    assert(p.skip(0) =~= p);
    assert("<=="@ =~= seq!['<', '=', '=']);
}

/// The rule of `CIRCOM_R_CONSTRAINT_ASSIGN` matches the text the table gives it.
proof fn lemma_symbol_entry_27()
    ensures
        rules()[54].0@ == symbol_table()[27].0@,
        literal_of(rules()[54].1@) == Some(symbol_table()[27].1@),
{
    reveal_strlit("==>");
    reveal_strlit("CIRCOM_R_CONSTRAINT_ASSIGN");
    assert(rules()[54] == ("CIRCOM_R_CONSTRAINT_ASSIGN", "==>"));
    assert(symbol_table()[27] == ("CIRCOM_R_CONSTRAINT_ASSIGN", "==>"));
    let p = "==>"@;
    assert(p.skip(3) =~= Seq::<char>::empty());
    assert(literal_of(p.skip(3)) =~~= Some(Seq::<char>::empty()));
    assert(p.skip(2) =~= seq!['>']);
    assert(p.skip(2).skip(1) =~= p.skip(3));
    assert(literal_of(p.skip(2)) =~~= Some(seq!['>']));
    assert(p.skip(1) =~= seq!['=', '>']);
    assert(p.skip(1).skip(1) =~= p.skip(2));
    assert(literal_of(p.skip(1)) =~~= Some(seq!['=', '>']));
    assert(p.skip(0) =~= seq!['=', '=', '>']);
    assert(p.skip(0).skip(1) =~= p.skip(1));
    assert(literal_of(p.skip(0)) =~~= Some(seq!['=', '=', '>']));
    assert(p.skip(0) =~= p);
    assert("==>"@ =~= seq!['=', '=', '>']);
}

/// The rule of `CIRCOM_CONSTRAINT` matches the text the table gives it.
proof fn lemma_symbol_entry_28()
    ensures
        rules()[55].0@ == symbol_table()[28].0@,
        literal_of(rules()[55].1@) == Some(symbol_table()[28].1@),
{
    reveal_strlit("===");
    reveal_strlit("CIRCOM_CONSTRAINT");
    assert(rules()[55] == ("CIRCOM_CONSTRAINT", "==="));
    assert(symbol_table()[28] == ("CIRCOM_CONSTRAINT", "==="));
    let p = "==="@;
    assert(p.skip(3) =~= Seq::<char>::empty());
    assert(literal_of(p.skip(3)) =~~= Some(Seq::<char>::empty()));
    assert(p.skip(2) =~= seq!['=']);
    assert(p.skip(2).skip(1) =~= p.skip(3));
    assert(literal_of(p.skip(2)) =~~= Some(seq!['=']));
    assert(p.skip(1) =~= seq!['=', '=']);
    assert(p.skip(1).skip(1) =~= p.skip(2));
    assert(literal_of(p.skip(1)) =~~= Some(seq!['=', '=']));
    assert(p.skip(0) =~= seq!['=', '=', '=']);
    assert(p.skip(0).skip(1) =~= p.skip(1));
    assert(literal_of(p.skip(0)) =~~= Some(seq!['=', '=', '=']));
    assert(p.skip(0) =~= p);
    assert("==="@ =~= seq!['=', '=', '=']);
}

/// The rule of `EQUAL` matches the text the table gives it.
proof fn lemma_symbol_entry_29()
    ensures
        rules()[56].0@ == symbol_table()[29].0@,
        literal_of(rules()[56].1@) == Some(symbol_table()[29].1@),
{
    reveal_strlit("==");
    reveal_strlit("EQUAL");
    assert(rules()[56] == ("EQUAL", "=="));
    assert(symbol_table()[29] == ("EQUAL", "=="));
    let p = "=="@;
    assert(p.skip(2) =~= Seq::<char>::empty());
    assert(literal_of(p.skip(2)) =~~= Some(Seq::<char>::empty()));
    assert(p.skip(1) =~= seq!['=']);
    assert(p.skip(1).skip(1) =~= p.skip(2));
    assert(literal_of(p.skip(1)) =~~= Some(seq!['=']));
    assert(p.skip(0) =~= seq!['=', '=']);
    assert(p.skip(0).skip(1) =~= p.skip(1));
    assert(literal_of(p.skip(0)) =~~= Some(seq!['=', '=']));
    assert(p.skip(0) =~= p);
    assert("=="@ =~= seq!['=', '=']);
}

/// The rule of `NOT_EQUAL` matches the text the table gives it.
proof fn lemma_symbol_entry_30()
    ensures
        rules()[57].0@ == symbol_table()[30].0@,
        literal_of(rules()[57].1@) == Some(symbol_table()[30].1@),
{
    reveal_strlit("!=");
    reveal_strlit("NOT_EQUAL");
    assert(rules()[57] == ("NOT_EQUAL", "!="));
    assert(symbol_table()[30] == ("NOT_EQUAL", "!="));
    let p = "!="@;
    assert(p.skip(2) =~= Seq::<char>::empty());
    assert(literal_of(p.skip(2)) =~~= Some(Seq::<char>::empty()));
    assert(p.skip(1) =~= seq!['=']);
    assert(p.skip(1).skip(1) =~= p.skip(2));
    assert(literal_of(p.skip(1)) =~~= Some(seq!['=']));
    assert(p.skip(0) =~= seq!['!', '=']);
    assert(p.skip(0).skip(1) =~= p.skip(1));
    assert(literal_of(p.skip(0)) =~~= Some(seq!['!', '=']));
    assert(p.skip(0) =~= p);
    assert("!="@ =~= seq!['!', '=']);
}

/// The rule of `LESS_THAN_OR_EQUAL` matches the text the table gives it.
proof fn lemma_symbol_entry_31()
    ensures
        rules()[58].0@ == symbol_table()[31].0@,
        literal_of(rules()[58].1@) == Some(symbol_table()[31].1@),
{
    reveal_strlit("<=");
    reveal_strlit("LESS_THAN_OR_EQUAL");
    assert(rules()[58] == ("LESS_THAN_OR_EQUAL", "<="));
    assert(symbol_table()[31] == ("LESS_THAN_OR_EQUAL", "<="));
    let p = "<="@;
    assert(p.skip(2) =~= Seq::<char>::empty());
    assert(literal_of(p.skip(2)) =~~= Some(Seq::<char>::empty()));
    assert(p.skip(1) =~= seq!['=']);
    assert(p.skip(1).skip(1) =~= p.skip(2));
    assert(literal_of(p.skip(1)) =~~= Some(seq!['=']));
    assert(p.skip(0) =~= seq!['<', '=']);
    assert(p.skip(0).skip(1) =~= p.skip(1));
    assert(literal_of(p.skip(0)) =~~= Some(seq!['<', '=']));
    assert(p.skip(0) =~= p);
    assert("<="@ =~= seq!['<', '=']);
}

/// The rule of `GREATER_THAN_OR_EQUAL` matches the text the table gives it.
proof fn lemma_symbol_entry_32()
    ensures
        rules()[59].0@ == symbol_table()[32].0@,
        literal_of(rules()[59].1@) == Some(symbol_table()[32].1@),
{
    reveal_strlit(">=");
    reveal_strlit("GREATER_THAN_OR_EQUAL");
    assert(rules()[59] == ("GREATER_THAN_OR_EQUAL", ">="));
    assert(symbol_table()[32] == ("GREATER_THAN_OR_EQUAL", ">="));
    let p = ">="@;
    assert(p.skip(2) =~= Seq::<char>::empty());
    assert(literal_of(p.skip(2)) =~~= Some(Seq::<char>::empty()));
    assert(p.skip(1) =~= seq!['=']);
    assert(p.skip(1).skip(1) =~= p.skip(2));
    assert(literal_of(p.skip(1)) =~~= Some(seq!['=']));
    assert(p.skip(0) =~= seq!['>', '=']);
    assert(p.skip(0).skip(1) =~= p.skip(1));
    assert(literal_of(p.skip(0)) =~~= Some(seq!['>', '=']));
    assert(p.skip(0) =~= p);
    assert(">="@ =~= seq!['>', '=']);
}

/// The rule of `LESS_THAN` matches the text the table gives it.
proof fn lemma_symbol_entry_33()
    ensures
        rules()[60].0@ == symbol_table()[33].0@,
        literal_of(rules()[60].1@) == Some(symbol_table()[33].1@),
{
    reveal_strlit("<");
    reveal_strlit("LESS_THAN");
    assert(rules()[60] == ("LESS_THAN", "<"));
    assert(symbol_table()[33] == ("LESS_THAN", "<"));
    let p = "<"@;
    assert(p.skip(1) =~= Seq::<char>::empty());
    assert(literal_of(p.skip(1)) =~~= Some(Seq::<char>::empty()));
    assert(p.skip(0) =~= seq!['<']);
    assert(p.skip(0).skip(1) =~= p.skip(1));
    assert(literal_of(p.skip(0)) =~~= Some(seq!['<']));
    assert(p.skip(0) =~= p);
    assert("<"@ =~= seq!['<']);
}

/// The rule of `GREATER_THAN` matches the text the table gives it.
proof fn lemma_symbol_entry_34()
    ensures
        rules()[61].0@ == symbol_table()[34].0@,
        literal_of(rules()[61].1@) == Some(symbol_table()[34].1@),
{
    reveal_strlit(">");
    reveal_strlit("GREATER_THAN");
    assert(rules()[61] == ("GREATER_THAN", ">"));
    assert(symbol_table()[34] == ("GREATER_THAN", ">"));
    let p = ">"@;
    assert(p.skip(1) =~= Seq::<char>::empty());
    assert(literal_of(p.skip(1)) =~~= Some(Seq::<char>::empty()));
    assert(p.skip(0) =~= seq!['>']);
    assert(p.skip(0).skip(1) =~= p.skip(1));
    assert(literal_of(p.skip(0)) =~~= Some(seq!['>']));
    assert(p.skip(0) =~= p);
    assert(">"@ =~= seq!['>']);
}

/// The rule of `ASSIGN` matches the text the table gives it.
proof fn lemma_symbol_entry_35()
    ensures
        rules()[62].0@ == symbol_table()[35].0@,
        literal_of(rules()[62].1@) == Some(symbol_table()[35].1@),
{
    reveal_strlit("=");
    reveal_strlit("ASSIGN");
    assert(rules()[62] == ("ASSIGN", "="));
    assert(symbol_table()[35] == ("ASSIGN", "="));
    let p = "="@;
    assert(p.skip(1) =~= Seq::<char>::empty());
    assert(literal_of(p.skip(1)) =~~= Some(Seq::<char>::empty()));
    assert(p.skip(0) =~= seq!['=']);
    assert(p.skip(0).skip(1) =~= p.skip(1));
    assert(literal_of(p.skip(0)) =~~= Some(seq!['=']));
    assert(p.skip(0) =~= p);
    assert("="@ =~= seq!['=']);
}

/// The rule of `LOGICAL_NOT` matches the text the table gives it.
proof fn lemma_symbol_entry_36()
    ensures
        rules()[63].0@ == symbol_table()[36].0@,
        literal_of(rules()[63].1@) == Some(symbol_table()[36].1@),
{
    reveal_strlit("!");
    reveal_strlit("LOGICAL_NOT");
    assert(rules()[63] == ("LOGICAL_NOT", "!"));
    assert(symbol_table()[36] == ("LOGICAL_NOT", "!"));
    let p = "!"@;
    assert(p.skip(1) =~= Seq::<char>::empty());
    assert(literal_of(p.skip(1)) =~~= Some(Seq::<char>::empty()));
    assert(p.skip(0) =~= seq!['!']);
    assert(p.skip(0).skip(1) =~= p.skip(1));
    assert(literal_of(p.skip(0)) =~~= Some(seq!['!']));
    assert(p.skip(0) =~= p);
    assert("!"@ =~= seq!['!']);
}

/// The rule of `LPAREN` matches the text the table gives it.
proof fn lemma_symbol_entry_37()
    ensures
        rules()[64].0@ == symbol_table()[37].0@,
        literal_of(rules()[64].1@) == Some(symbol_table()[37].1@),
{
    reveal_strlit("(");
    reveal_strlit("LPAREN");
    reveal_strlit("\\(");
    assert(rules()[64] == ("LPAREN", "\\("));
    assert(symbol_table()[37] == ("LPAREN", "("));
    let p = "\\("@;
    assert(p.skip(2) =~= Seq::<char>::empty());
    assert(literal_of(p.skip(2)) =~~= Some(Seq::<char>::empty()));
    assert(p.skip(0) =~= seq!['\\', '(']);
    assert(p.skip(0).skip(2) =~= p.skip(2));
    assert(literal_of(p.skip(0)) =~~= Some(seq!['(']));
    assert(p.skip(0) =~= p);
    assert("("@ =~= seq!['(']);
}

/// The rule of `RPAREN` matches the text the table gives it.
proof fn lemma_symbol_entry_38()
    ensures
        rules()[65].0@ == symbol_table()[38].0@,
        literal_of(rules()[65].1@) == Some(symbol_table()[38].1@),
{
    reveal_strlit(")");
    reveal_strlit("RPAREN");
    reveal_strlit("\\)");
    assert(rules()[65] == ("RPAREN", "\\)"));
    assert(symbol_table()[38] == ("RPAREN", ")"));
    let p = "\\)"@;
    assert(p.skip(2) =~= Seq::<char>::empty());
    assert(literal_of(p.skip(2)) =~~= Some(Seq::<char>::empty()));
    assert(p.skip(0) =~= seq!['\\', ')']);
    assert(p.skip(0).skip(2) =~= p.skip(2));
    assert(literal_of(p.skip(0)) =~~= Some(seq![')']));
    assert(p.skip(0) =~= p);
    assert(")"@ =~= seq![')']);
}

/// The rule of `LBRACKET` matches the text the table gives it.
proof fn lemma_symbol_entry_39()
    ensures
        rules()[68].0@ == symbol_table()[39].0@,
        literal_of(rules()[68].1@) == Some(symbol_table()[39].1@),
{
    reveal_strlit("LBRACKET");
    reveal_strlit("[");
    reveal_strlit("\\[");
    assert(rules()[68] == ("LBRACKET", "\\["));
    assert(symbol_table()[39] == ("LBRACKET", "["));
    let p = "\\["@;
    assert(p.skip(2) =~= Seq::<char>::empty());
    assert(literal_of(p.skip(2)) =~~= Some(Seq::<char>::empty()));
    assert(p.skip(0) =~= seq!['\\', '[']);
    assert(p.skip(0).skip(2) =~= p.skip(2));
    assert(literal_of(p.skip(0)) =~~= Some(seq!['[']));
    assert(p.skip(0) =~= p);
    assert("["@ =~= seq!['[']);
}

/// The rule of `RBRACKET` matches the text the table gives it.
proof fn lemma_symbol_entry_40()
    ensures
        rules()[69].0@ == symbol_table()[40].0@,
        literal_of(rules()[69].1@) == Some(symbol_table()[40].1@),
{
    reveal_strlit("RBRACKET");
    reveal_strlit("\\]");
    reveal_strlit("]");
    assert(rules()[69] == ("RBRACKET", "\\]"));
    assert(symbol_table()[40] == ("RBRACKET", "]"));
    let p = "\\]"@;
    assert(p.skip(2) =~= Seq::<char>::empty());
    assert(literal_of(p.skip(2)) =~~= Some(Seq::<char>::empty()));
    assert(p.skip(0) =~= seq!['\\', ']']);
    assert(p.skip(0).skip(2) =~= p.skip(2));
    assert(literal_of(p.skip(0)) =~~= Some(seq![']']));
    assert(p.skip(0) =~= p);
    assert("]"@ =~= seq![']']);
}

/// The rule of `COMMA` matches the text the table gives it.
proof fn lemma_symbol_entry_41()
    ensures
        rules()[71].0@ == symbol_table()[41].0@,
        literal_of(rules()[71].1@) == Some(symbol_table()[41].1@),
{
    reveal_strlit(",");
    reveal_strlit("COMMA");
    assert(rules()[71] == ("COMMA", ","));
    assert(symbol_table()[41] == ("COMMA", ","));
    let p = ","@;
    assert(p.skip(1) =~= Seq::<char>::empty());
    assert(literal_of(p.skip(1)) =~~= Some(Seq::<char>::empty()));
    assert(p.skip(0) =~= seq![',']);
    assert(p.skip(0).skip(1) =~= p.skip(1));
    assert(literal_of(p.skip(0)) =~~= Some(seq![',']));
    assert(p.skip(0) =~= p);
    assert(","@ =~= seq![',']);
}

/// The rule of `LBRACE` matches the text the table gives it.
proof fn lemma_symbol_entry_42()
    ensures
        rules()[66].0@ == symbol_table()[42].0@,
        literal_of(rules()[66].1@) == Some(symbol_table()[42].1@),
{
    reveal_strlit("LBRACE");
    reveal_strlit("\\{");
    reveal_strlit("{");
    assert(rules()[66] == ("LBRACE", "\\{"));
    assert(symbol_table()[42] == ("LBRACE", "{"));
    let p = "\\{"@;
    assert(p.skip(2) =~= Seq::<char>::empty());
    assert(literal_of(p.skip(2)) =~~= Some(Seq::<char>::empty()));
    assert(p.skip(0) =~= seq!['\\', '{']);
    assert(p.skip(0).skip(2) =~= p.skip(2));
    assert(literal_of(p.skip(0)) =~~= Some(seq!['{']));
    assert(p.skip(0) =~= p);
    assert("{"@ =~= seq!['{']);
}

/// The rule of `RBRACE` matches the text the table gives it.
proof fn lemma_symbol_entry_43()
    ensures
        rules()[67].0@ == symbol_table()[43].0@,
        literal_of(rules()[67].1@) == Some(symbol_table()[43].1@),
{
    reveal_strlit("RBRACE");
    reveal_strlit("\\}");
    reveal_strlit("}");
    assert(rules()[67] == ("RBRACE", "\\}"));
    assert(symbol_table()[43] == ("RBRACE", "}"));
    let p = "\\}"@;
    assert(p.skip(2) =~= Seq::<char>::empty());
    assert(literal_of(p.skip(2)) =~~= Some(Seq::<char>::empty()));
    assert(p.skip(0) =~= seq!['\\', '}']);
    assert(p.skip(0).skip(2) =~= p.skip(2));
    assert(literal_of(p.skip(0)) =~~= Some(seq!['}']));
    assert(p.skip(0) =~= p);
    assert("}"@ =~= seq!['}']);
}

/// The rule of `COLON` matches the text the table gives it.
proof fn lemma_symbol_entry_44()
    ensures
        rules()[72].0@ == symbol_table()[44].0@,
        literal_of(rules()[72].1@) == Some(symbol_table()[44].1@),
{
    reveal_strlit(":");
    reveal_strlit("COLON");
    assert(rules()[72] == ("COLON", ":"));
    assert(symbol_table()[44] == ("COLON", ":"));
    let p = ":"@;
    assert(p.skip(1) =~= Seq::<char>::empty());
    assert(literal_of(p.skip(1)) =~~= Some(Seq::<char>::empty()));
    assert(p.skip(0) =~= seq![':']);
    assert(p.skip(0).skip(1) =~= p.skip(1));
    assert(literal_of(p.skip(0)) =~~= Some(seq![':']));
    assert(p.skip(0) =~= p);
    assert(":"@ =~= seq![':']);
}

/// The rule of `QUESTION_MARK` matches the text the table gives it.
proof fn lemma_symbol_entry_45()
    ensures
        rules()[74].0@ == symbol_table()[45].0@,
        literal_of(rules()[74].1@) == Some(symbol_table()[45].1@),
{
    reveal_strlit("?");
    reveal_strlit("QUESTION_MARK");
    reveal_strlit("\\?");
    assert(rules()[74] == ("QUESTION_MARK", "\\?"));
    assert(symbol_table()[45] == ("QUESTION_MARK", "?"));
    let p = "\\?"@;
    assert(p.skip(2) =~= Seq::<char>::empty());
    assert(literal_of(p.skip(2)) =~~= Some(Seq::<char>::empty()));
    assert(p.skip(0) =~= seq!['\\', '?']);
    assert(p.skip(0).skip(2) =~= p.skip(2));
    assert(literal_of(p.skip(0)) =~~= Some(seq!['?']));
    assert(p.skip(0) =~= p);
    assert("?"@ =~= seq!['?']);
}

/// The parser reads a token as the very text that its lexer rule matches:
/// each entry of the symbol table maps a token type to the one text that the
/// pattern of the lexer rule of that type matches. (The types whose rules
/// are plain text but that have no entry, such as `QUOTIENT`, `BITWISE_OR`
/// and `DOT`, keep their name, which is how the grammar writes them.)
pub proof fn lemma_symbols_match_rules()
    ensures
        forall|k: int|
            0 <= k < symbol_table().len() ==> exists|i: int|
                0 <= i < rules().len() && rules()[i].0@ == symbol_table()[k].0@ && #[trigger] literal_of(rules()[i].1@)
                    == Some(#[trigger] symbol_table()[k].1@),
{
    lemma_symbol_entry_0();
    lemma_symbol_entry_1();
    lemma_symbol_entry_2();
    lemma_symbol_entry_3();
    lemma_symbol_entry_4();
    lemma_symbol_entry_5();
    lemma_symbol_entry_6();
    lemma_symbol_entry_7();
    lemma_symbol_entry_8();
    lemma_symbol_entry_9();
    lemma_symbol_entry_10();
    lemma_symbol_entry_11();
    lemma_symbol_entry_12();
    lemma_symbol_entry_13();
    lemma_symbol_entry_14();
    lemma_symbol_entry_15();
    lemma_symbol_entry_16();
    lemma_symbol_entry_17();
    lemma_symbol_entry_18();
    lemma_symbol_entry_19();
    lemma_symbol_entry_20();
    lemma_symbol_entry_21();
    lemma_symbol_entry_22();
    lemma_symbol_entry_23();
    lemma_symbol_entry_24();
    lemma_symbol_entry_25();
    lemma_symbol_entry_26();
    lemma_symbol_entry_27();
    lemma_symbol_entry_28();
    lemma_symbol_entry_29();
    lemma_symbol_entry_30();
    lemma_symbol_entry_31();
    lemma_symbol_entry_32();
    lemma_symbol_entry_33();
    lemma_symbol_entry_34();
    lemma_symbol_entry_35();
    lemma_symbol_entry_36();
    lemma_symbol_entry_37();
    lemma_symbol_entry_38();
    lemma_symbol_entry_39();
    lemma_symbol_entry_40();
    lemma_symbol_entry_41();
    lemma_symbol_entry_42();
    lemma_symbol_entry_43();
    lemma_symbol_entry_44();
    lemma_symbol_entry_45();
    assert(symbol_table().len() == 46);
    assert forall|k: int| 0 <= k < symbol_table().len() implies exists|i: int|
        0 <= i < rules().len() && rules()[i].0@ == symbol_table()[k].0@ && #[trigger] literal_of(rules()[i].1@)
            == Some(#[trigger] symbol_table()[k].1@) by {
        if k == 0 {
            assert(literal_of(rules()[70].1@) == Some(symbol_table()[0].1@));
        }
        if k == 1 {
            assert(literal_of(rules()[23].1@) == Some(symbol_table()[1].1@));
        }
        if k == 2 {
            assert(literal_of(rules()[24].1@) == Some(symbol_table()[2].1@));
        }
        if k == 3 {
            assert(literal_of(rules()[25].1@) == Some(symbol_table()[3].1@));
        }
        if k == 4 {
            assert(literal_of(rules()[26].1@) == Some(symbol_table()[4].1@));
        }
        if k == 5 {
            assert(literal_of(rules()[27].1@) == Some(symbol_table()[5].1@));
        }
        if k == 6 {
            assert(literal_of(rules()[28].1@) == Some(symbol_table()[6].1@));
        }
        if k == 7 {
            assert(literal_of(rules()[29].1@) == Some(symbol_table()[7].1@));
        }
        if k == 8 {
            assert(literal_of(rules()[31].1@) == Some(symbol_table()[8].1@));
        }
        if k == 9 {
            assert(literal_of(rules()[33].1@) == Some(symbol_table()[9].1@));
        }
        if k == 10 {
            assert(literal_of(rules()[34].1@) == Some(symbol_table()[10].1@));
        }
        if k == 11 {
            assert(literal_of(rules()[35].1@) == Some(symbol_table()[11].1@));
        }
        if k == 12 {
            assert(literal_of(rules()[36].1@) == Some(symbol_table()[12].1@));
        }
        if k == 13 {
            assert(literal_of(rules()[37].1@) == Some(symbol_table()[13].1@));
        }
        if k == 14 {
            assert(literal_of(rules()[38].1@) == Some(symbol_table()[14].1@));
        }
        if k == 15 {
            assert(literal_of(rules()[39].1@) == Some(symbol_table()[15].1@));
        }
        if k == 16 {
            assert(literal_of(rules()[40].1@) == Some(symbol_table()[16].1@));
        }
        if k == 17 {
            assert(literal_of(rules()[41].1@) == Some(symbol_table()[17].1@));
        }
        if k == 18 {
            assert(literal_of(rules()[43].1@) == Some(symbol_table()[18].1@));
        }
        if k == 19 {
            assert(literal_of(rules()[45].1@) == Some(symbol_table()[19].1@));
        }
        if k == 20 {
            assert(literal_of(rules()[47].1@) == Some(symbol_table()[20].1@));
        }
        if k == 21 {
            assert(literal_of(rules()[48].1@) == Some(symbol_table()[21].1@));
        }
        if k == 22 {
            assert(literal_of(rules()[49].1@) == Some(symbol_table()[22].1@));
        }
        if k == 23 {
            assert(literal_of(rules()[50].1@) == Some(symbol_table()[23].1@));
        }
        if k == 24 {
            assert(literal_of(rules()[51].1@) == Some(symbol_table()[24].1@));
        }
        if k == 25 {
            assert(literal_of(rules()[52].1@) == Some(symbol_table()[25].1@));
        }
        if k == 26 {
            assert(literal_of(rules()[53].1@) == Some(symbol_table()[26].1@));
        }
        if k == 27 {
            assert(literal_of(rules()[54].1@) == Some(symbol_table()[27].1@));
        }
        if k == 28 {
            assert(literal_of(rules()[55].1@) == Some(symbol_table()[28].1@));
        }
        if k == 29 {
            assert(literal_of(rules()[56].1@) == Some(symbol_table()[29].1@));
        }
        if k == 30 {
            assert(literal_of(rules()[57].1@) == Some(symbol_table()[30].1@));
        }
        if k == 31 {
            assert(literal_of(rules()[58].1@) == Some(symbol_table()[31].1@));
        }
        if k == 32 {
            assert(literal_of(rules()[59].1@) == Some(symbol_table()[32].1@));
        }
        if k == 33 {
            assert(literal_of(rules()[60].1@) == Some(symbol_table()[33].1@));
        }
        if k == 34 {
            assert(literal_of(rules()[61].1@) == Some(symbol_table()[34].1@));
        }
        if k == 35 {
            assert(literal_of(rules()[62].1@) == Some(symbol_table()[35].1@));
        }
        if k == 36 {
            assert(literal_of(rules()[63].1@) == Some(symbol_table()[36].1@));
        }
        if k == 37 {
            assert(literal_of(rules()[64].1@) == Some(symbol_table()[37].1@));
        }
        if k == 38 {
            assert(literal_of(rules()[65].1@) == Some(symbol_table()[38].1@));
        }
        if k == 39 {
            assert(literal_of(rules()[68].1@) == Some(symbol_table()[39].1@));
        }
        if k == 40 {
            assert(literal_of(rules()[69].1@) == Some(symbol_table()[40].1@));
        }
        if k == 41 {
            assert(literal_of(rules()[71].1@) == Some(symbol_table()[41].1@));
        }
        if k == 42 {
            assert(literal_of(rules()[66].1@) == Some(symbol_table()[42].1@));
        }
        if k == 43 {
            assert(literal_of(rules()[67].1@) == Some(symbol_table()[43].1@));
        }
        if k == 44 {
            assert(literal_of(rules()[72].1@) == Some(symbol_table()[44].1@));
        }
        if k == 45 {
            assert(literal_of(rules()[74].1@) == Some(symbol_table()[45].1@));
        }
    }
}

/// The entry of `d` for the key of its entry `k` is that entry, where no
/// earlier entry has the same key.
proof fn lemma_table_value_at(d: Seq<(&'static str, &'static str)>, k: int)
    requires
        0 <= k < d.len(),
        forall|j: int| 0 <= j < k ==> (#[trigger] d[j]).0@ != d[k].0@,
    ensures
        table_value(d, d[k].0@) == Some(d[k].1@),
    decreases k,
{
    if k > 0 {
        let t = d.drop_first();
        assert forall|j: int| 0 <= j < k - 1 implies (#[trigger] t[j]).0@ != t[k - 1].0@ by {
            assert(t[j] == d[j + 1]);
        }
        assert(t[k - 1] == d[k]);
        assert(d[0].0@ != d[k].0@);
        lemma_table_value_at(t, k - 1);
    }
}

proof fn lemma_key_first_0()
    ensures
        forall|j: int| 0 <= j < 0 ==> (#[trigger] symbol_table()[j]).0@ != symbol_table()[0].0@,
{
    reveal_strlit("SEMICOLON");
    assert("SEMICOLON"@ =~= seq!['S', 'E', 'M', 'I', 'C', 'O', 'L', 'O', 'N']);
    assert(symbol_table()[0].0 == "SEMICOLON");
    assert forall|j: int| 0 <= j < 0 implies (#[trigger] symbol_table()[j]).0@ != symbol_table()[0].0@ by {

    }
}

proof fn lemma_key_first_1()
    ensures
        forall|j: int| 0 <= j < 1 ==> (#[trigger] symbol_table()[j]).0@ != symbol_table()[1].0@,
{
    reveal_strlit("INCREMENT");
    assert("INCREMENT"@ =~= seq!['I', 'N', 'C', 'R', 'E', 'M', 'E', 'N', 'T']);
    reveal_strlit("SEMICOLON");
    assert("SEMICOLON"@ =~= seq!['S', 'E', 'M', 'I', 'C', 'O', 'L', 'O', 'N']);
    assert(symbol_table()[0].0 == "SEMICOLON");
    assert(symbol_table()[1].0 == "INCREMENT");
    assert forall|j: int| 0 <= j < 1 implies (#[trigger] symbol_table()[j]).0@ != symbol_table()[1].0@ by {
        if j == 0 {
            assert(symbol_table()[0].0@ == "SEMICOLON"@);
        }
    }
}

proof fn lemma_key_first_2()
    ensures
        forall|j: int| 0 <= j < 2 ==> (#[trigger] symbol_table()[j]).0@ != symbol_table()[2].0@,
{
    reveal_strlit("DECREMENT");
    assert("DECREMENT"@ =~= seq!['D', 'E', 'C', 'R', 'E', 'M', 'E', 'N', 'T']);
    reveal_strlit("INCREMENT");
    assert("INCREMENT"@ =~= seq!['I', 'N', 'C', 'R', 'E', 'M', 'E', 'N', 'T']);
    reveal_strlit("SEMICOLON");
    assert("SEMICOLON"@ =~= seq!['S', 'E', 'M', 'I', 'C', 'O', 'L', 'O', 'N']);
    assert(symbol_table()[0].0 == "SEMICOLON");
    assert(symbol_table()[1].0 == "INCREMENT");
    assert(symbol_table()[2].0 == "DECREMENT");
    assert forall|j: int| 0 <= j < 2 implies (#[trigger] symbol_table()[j]).0@ != symbol_table()[2].0@ by {
        if j == 0 {
            assert(symbol_table()[0].0@ == "SEMICOLON"@);
        }
        if j == 1 {
            assert(symbol_table()[1].0@ == "INCREMENT"@);
        }
    }
}

proof fn lemma_key_first_3()
    ensures
        forall|j: int| 0 <= j < 3 ==> (#[trigger] symbol_table()[j]).0@ != symbol_table()[3].0@,
{
    reveal_strlit("DECREMENT");
    assert("DECREMENT"@ =~= seq!['D', 'E', 'C', 'R', 'E', 'M', 'E', 'N', 'T']);
    reveal_strlit("INCREMENT");
    assert("INCREMENT"@ =~= seq!['I', 'N', 'C', 'R', 'E', 'M', 'E', 'N', 'T']);
    reveal_strlit("PLUS_ASSIGN");
    assert("PLUS_ASSIGN"@ =~= seq!['P', 'L', 'U', 'S', '_', 'A', 'S', 'S', 'I', 'G', 'N']);
    reveal_strlit("SEMICOLON");
    assert("SEMICOLON"@ =~= seq!['S', 'E', 'M', 'I', 'C', 'O', 'L', 'O', 'N']);
    assert(symbol_table()[0].0 == "SEMICOLON");
    assert(symbol_table()[1].0 == "INCREMENT");
    assert(symbol_table()[2].0 == "DECREMENT");
    assert(symbol_table()[3].0 == "PLUS_ASSIGN");
    assert forall|j: int| 0 <= j < 3 implies (#[trigger] symbol_table()[j]).0@ != symbol_table()[3].0@ by {
        if j == 0 {
            assert(symbol_table()[0].0@ == "SEMICOLON"@);
        }
        if j == 1 {
            assert(symbol_table()[1].0@ == "INCREMENT"@);
        }
        if j == 2 {
            assert(symbol_table()[2].0@ == "DECREMENT"@);
        }
    }
}

proof fn lemma_key_first_4()
    ensures
        forall|j: int| 0 <= j < 4 ==> (#[trigger] symbol_table()[j]).0@ != symbol_table()[4].0@,
{
    reveal_strlit("DECREMENT");
    assert("DECREMENT"@ =~= seq!['D', 'E', 'C', 'R', 'E', 'M', 'E', 'N', 'T']);
    reveal_strlit("INCREMENT");
    assert("INCREMENT"@ =~= seq!['I', 'N', 'C', 'R', 'E', 'M', 'E', 'N', 'T']);
    reveal_strlit("MINUS_ASSIGN");
    assert("MINUS_ASSIGN"@ =~= seq!['M', 'I', 'N', 'U', 'S', '_', 'A', 'S', 'S', 'I', 'G', 'N']);
    reveal_strlit("PLUS_ASSIGN");
    assert("PLUS_ASSIGN"@ =~= seq!['P', 'L', 'U', 'S', '_', 'A', 'S', 'S', 'I', 'G', 'N']);
    reveal_strlit("SEMICOLON");
    assert("SEMICOLON"@ =~= seq!['S', 'E', 'M', 'I', 'C', 'O', 'L', 'O', 'N']);
    assert(symbol_table()[0].0 == "SEMICOLON");
    assert(symbol_table()[1].0 == "INCREMENT");
    assert(symbol_table()[2].0 == "DECREMENT");
    assert(symbol_table()[3].0 == "PLUS_ASSIGN");
    assert(symbol_table()[4].0 == "MINUS_ASSIGN");
    assert forall|j: int| 0 <= j < 4 implies (#[trigger] symbol_table()[j]).0@ != symbol_table()[4].0@ by {
        if j == 0 {
            assert(symbol_table()[0].0@ == "SEMICOLON"@);
        }
        if j == 1 {
            assert(symbol_table()[1].0@ == "INCREMENT"@);
        }
        if j == 2 {
            assert(symbol_table()[2].0@ == "DECREMENT"@);
        }
        if j == 3 {
            assert(symbol_table()[3].0@ == "PLUS_ASSIGN"@);
        }
    }
}

proof fn lemma_key_first_5()
    ensures
        forall|j: int| 0 <= j < 5 ==> (#[trigger] symbol_table()[j]).0@ != symbol_table()[5].0@,
{
    reveal_strlit("DECREMENT");
    assert("DECREMENT"@ =~= seq!['D', 'E', 'C', 'R', 'E', 'M', 'E', 'N', 'T']);
    reveal_strlit("INCREMENT");
    assert("INCREMENT"@ =~= seq!['I', 'N', 'C', 'R', 'E', 'M', 'E', 'N', 'T']);
    reveal_strlit("MINUS_ASSIGN");
    assert("MINUS_ASSIGN"@ =~= seq!['M', 'I', 'N', 'U', 'S', '_', 'A', 'S', 'S', 'I', 'G', 'N']);
    reveal_strlit("MULTIPLY_ASSIGN");
    assert("MULTIPLY_ASSIGN"@ =~= seq!['M', 'U', 'L', 'T', 'I', 'P', 'L', 'Y', '_', 'A', 'S', 'S', 'I', 'G', 'N']);
    reveal_strlit("PLUS_ASSIGN");
    assert("PLUS_ASSIGN"@ =~= seq!['P', 'L', 'U', 'S', '_', 'A', 'S', 'S', 'I', 'G', 'N']);
    reveal_strlit("SEMICOLON");
    assert("SEMICOLON"@ =~= seq!['S', 'E', 'M', 'I', 'C', 'O', 'L', 'O', 'N']);
    assert(symbol_table()[0].0 == "SEMICOLON");
    assert(symbol_table()[1].0 == "INCREMENT");
    assert(symbol_table()[2].0 == "DECREMENT");
    assert(symbol_table()[3].0 == "PLUS_ASSIGN");
    assert(symbol_table()[4].0 == "MINUS_ASSIGN");
    assert(symbol_table()[5].0 == "MULTIPLY_ASSIGN");
    assert forall|j: int| 0 <= j < 5 implies (#[trigger] symbol_table()[j]).0@ != symbol_table()[5].0@ by {
        if j == 0 {
            assert(symbol_table()[0].0@ == "SEMICOLON"@);
        }
        if j == 1 {
            assert(symbol_table()[1].0@ == "INCREMENT"@);
        }
        if j == 2 {
            assert(symbol_table()[2].0@ == "DECREMENT"@);
        }
        if j == 3 {
            assert(symbol_table()[3].0@ == "PLUS_ASSIGN"@);
        }
        if j == 4 {
            assert(symbol_table()[4].0@ == "MINUS_ASSIGN"@);
        }
    }
}

proof fn lemma_key_first_6()
    ensures
        forall|j: int| 0 <= j < 6 ==> (#[trigger] symbol_table()[j]).0@ != symbol_table()[6].0@,
{
    reveal_strlit("DECREMENT");
    assert("DECREMENT"@ =~= seq!['D', 'E', 'C', 'R', 'E', 'M', 'E', 'N', 'T']);
    reveal_strlit("DIVIDE_ASSIGN");
    assert("DIVIDE_ASSIGN"@ =~= seq!['D', 'I', 'V', 'I', 'D', 'E', '_', 'A', 'S', 'S', 'I', 'G', 'N']);
    reveal_strlit("INCREMENT");
    assert("INCREMENT"@ =~= seq!['I', 'N', 'C', 'R', 'E', 'M', 'E', 'N', 'T']);
    reveal_strlit("MINUS_ASSIGN");
    assert("MINUS_ASSIGN"@ =~= seq!['M', 'I', 'N', 'U', 'S', '_', 'A', 'S', 'S', 'I', 'G', 'N']);
    reveal_strlit("MULTIPLY_ASSIGN");
    assert("MULTIPLY_ASSIGN"@ =~= seq!['M', 'U', 'L', 'T', 'I', 'P', 'L', 'Y', '_', 'A', 'S', 'S', 'I', 'G', 'N']);
    reveal_strlit("PLUS_ASSIGN");
    assert("PLUS_ASSIGN"@ =~= seq!['P', 'L', 'U', 'S', '_', 'A', 'S', 'S', 'I', 'G', 'N']);
    reveal_strlit("SEMICOLON");
    assert("SEMICOLON"@ =~= seq!['S', 'E', 'M', 'I', 'C', 'O', 'L', 'O', 'N']);
    assert(symbol_table()[0].0 == "SEMICOLON");
    assert(symbol_table()[1].0 == "INCREMENT");
    assert(symbol_table()[2].0 == "DECREMENT");
    assert(symbol_table()[3].0 == "PLUS_ASSIGN");
    assert(symbol_table()[4].0 == "MINUS_ASSIGN");
    assert(symbol_table()[5].0 == "MULTIPLY_ASSIGN");
    assert(symbol_table()[6].0 == "DIVIDE_ASSIGN");
    assert forall|j: int| 0 <= j < 6 implies (#[trigger] symbol_table()[j]).0@ != symbol_table()[6].0@ by {
        if j == 0 {
            assert(symbol_table()[0].0@ == "SEMICOLON"@);
        }
        if j == 1 {
            assert(symbol_table()[1].0@ == "INCREMENT"@);
        }
        if j == 2 {
            assert(symbol_table()[2].0@ == "DECREMENT"@);
        }
        if j == 3 {
            assert(symbol_table()[3].0@ == "PLUS_ASSIGN"@);
        }
        if j == 4 {
            assert(symbol_table()[4].0@ == "MINUS_ASSIGN"@);
        }
        if j == 5 {
            assert(symbol_table()[5].0@ == "MULTIPLY_ASSIGN"@);
        }
    }
}

proof fn lemma_key_first_7()
    ensures
        forall|j: int| 0 <= j < 7 ==> (#[trigger] symbol_table()[j]).0@ != symbol_table()[7].0@,
{
    reveal_strlit("DECREMENT");
    assert("DECREMENT"@ =~= seq!['D', 'E', 'C', 'R', 'E', 'M', 'E', 'N', 'T']);
    reveal_strlit("DIVIDE_ASSIGN");
    assert("DIVIDE_ASSIGN"@ =~= seq!['D', 'I', 'V', 'I', 'D', 'E', '_', 'A', 'S', 'S', 'I', 'G', 'N']);
    reveal_strlit("INCREMENT");
    assert("INCREMENT"@ =~= seq!['I', 'N', 'C', 'R', 'E', 'M', 'E', 'N', 'T']);
    reveal_strlit("MINUS_ASSIGN");
    assert("MINUS_ASSIGN"@ =~= seq!['M', 'I', 'N', 'U', 'S', '_', 'A', 'S', 'S', 'I', 'G', 'N']);
    reveal_strlit("MODULUS_ASSIGN");
    assert("MODULUS_ASSIGN"@ =~= seq!['M', 'O', 'D', 'U', 'L', 'U', 'S', '_', 'A', 'S', 'S', 'I', 'G', 'N']);
    reveal_strlit("MULTIPLY_ASSIGN");
    assert("MULTIPLY_ASSIGN"@ =~= seq!['M', 'U', 'L', 'T', 'I', 'P', 'L', 'Y', '_', 'A', 'S', 'S', 'I', 'G', 'N']);
    reveal_strlit("PLUS_ASSIGN");
    assert("PLUS_ASSIGN"@ =~= seq!['P', 'L', 'U', 'S', '_', 'A', 'S', 'S', 'I', 'G', 'N']);
    reveal_strlit("SEMICOLON");
    assert("SEMICOLON"@ =~= seq!['S', 'E', 'M', 'I', 'C', 'O', 'L', 'O', 'N']);
    assert(symbol_table()[0].0 == "SEMICOLON");
    assert(symbol_table()[1].0 == "INCREMENT");
    assert(symbol_table()[2].0 == "DECREMENT");
    assert(symbol_table()[3].0 == "PLUS_ASSIGN");
    assert(symbol_table()[4].0 == "MINUS_ASSIGN");
    assert(symbol_table()[5].0 == "MULTIPLY_ASSIGN");
    assert(symbol_table()[6].0 == "DIVIDE_ASSIGN");
    assert(symbol_table()[7].0 == "MODULUS_ASSIGN");
    assert forall|j: int| 0 <= j < 7 implies (#[trigger] symbol_table()[j]).0@ != symbol_table()[7].0@ by {
        if j == 0 {
            assert(symbol_table()[0].0@ == "SEMICOLON"@);
        }
        if j == 1 {
            assert(symbol_table()[1].0@ == "INCREMENT"@);
        }
        if j == 2 {
            assert(symbol_table()[2].0@ == "DECREMENT"@);
        }
        if j == 3 {
            assert(symbol_table()[3].0@ == "PLUS_ASSIGN"@);
        }
        if j == 4 {
            assert(symbol_table()[4].0@ == "MINUS_ASSIGN"@);
        }
        if j == 5 {
            assert(symbol_table()[5].0@ == "MULTIPLY_ASSIGN"@);
        }
        if j == 6 {
            assert(symbol_table()[6].0@ == "DIVIDE_ASSIGN"@);
        }
    }
}

proof fn lemma_key_first_8()
    ensures
        forall|j: int| 0 <= j < 8 ==> (#[trigger] symbol_table()[j]).0@ != symbol_table()[8].0@,
{
    reveal_strlit("BITWISE_AND_ASSIGN");
    assert("BITWISE_AND_ASSIGN"@ =~= seq!['B', 'I', 'T', 'W', 'I', 'S', 'E', '_', 'A', 'N', 'D', '_', 'A', 'S', 'S', 'I', 'G', 'N']);
    reveal_strlit("DECREMENT");
    assert("DECREMENT"@ =~= seq!['D', 'E', 'C', 'R', 'E', 'M', 'E', 'N', 'T']);
    reveal_strlit("DIVIDE_ASSIGN");
    assert("DIVIDE_ASSIGN"@ =~= seq!['D', 'I', 'V', 'I', 'D', 'E', '_', 'A', 'S', 'S', 'I', 'G', 'N']);
    reveal_strlit("INCREMENT");
    assert("INCREMENT"@ =~= seq!['I', 'N', 'C', 'R', 'E', 'M', 'E', 'N', 'T']);
    reveal_strlit("MINUS_ASSIGN");
    assert("MINUS_ASSIGN"@ =~= seq!['M', 'I', 'N', 'U', 'S', '_', 'A', 'S', 'S', 'I', 'G', 'N']);
    reveal_strlit("MODULUS_ASSIGN");
    assert("MODULUS_ASSIGN"@ =~= seq!['M', 'O', 'D', 'U', 'L', 'U', 'S', '_', 'A', 'S', 'S', 'I', 'G', 'N']);
    reveal_strlit("MULTIPLY_ASSIGN");
    assert("MULTIPLY_ASSIGN"@ =~= seq!['M', 'U', 'L', 'T', 'I', 'P', 'L', 'Y', '_', 'A', 'S', 'S', 'I', 'G', 'N']);
    reveal_strlit("PLUS_ASSIGN");
    assert("PLUS_ASSIGN"@ =~= seq!['P', 'L', 'U', 'S', '_', 'A', 'S', 'S', 'I', 'G', 'N']);
    reveal_strlit("SEMICOLON");
    assert("SEMICOLON"@ =~= seq!['S', 'E', 'M', 'I', 'C', 'O', 'L', 'O', 'N']);
    assert(symbol_table()[0].0 == "SEMICOLON");
    assert(symbol_table()[1].0 == "INCREMENT");
    assert(symbol_table()[2].0 == "DECREMENT");
    assert(symbol_table()[3].0 == "PLUS_ASSIGN");
    assert(symbol_table()[4].0 == "MINUS_ASSIGN");
    assert(symbol_table()[5].0 == "MULTIPLY_ASSIGN");
    assert(symbol_table()[6].0 == "DIVIDE_ASSIGN");
    assert(symbol_table()[7].0 == "MODULUS_ASSIGN");
    assert(symbol_table()[8].0 == "BITWISE_AND_ASSIGN");
    assert forall|j: int| 0 <= j < 8 implies (#[trigger] symbol_table()[j]).0@ != symbol_table()[8].0@ by {
        if j == 0 {
            assert(symbol_table()[0].0@ == "SEMICOLON"@);
        }
        if j == 1 {
            assert(symbol_table()[1].0@ == "INCREMENT"@);
        }
        if j == 2 {
            assert(symbol_table()[2].0@ == "DECREMENT"@);
        }
        if j == 3 {
            assert(symbol_table()[3].0@ == "PLUS_ASSIGN"@);
        }
        if j == 4 {
            assert(symbol_table()[4].0@ == "MINUS_ASSIGN"@);
        }
        if j == 5 {
            assert(symbol_table()[5].0@ == "MULTIPLY_ASSIGN"@);
        }
        if j == 6 {
            assert(symbol_table()[6].0@ == "DIVIDE_ASSIGN"@);
        }
        if j == 7 {
            assert(symbol_table()[7].0@ == "MODULUS_ASSIGN"@);
        }
    }
}

proof fn lemma_key_first_9()
    ensures
        forall|j: int| 0 <= j < 9 ==> (#[trigger] symbol_table()[j]).0@ != symbol_table()[9].0@,
{
    reveal_strlit("BITWISE_AND_ASSIGN");
    assert("BITWISE_AND_ASSIGN"@ =~= seq!['B', 'I', 'T', 'W', 'I', 'S', 'E', '_', 'A', 'N', 'D', '_', 'A', 'S', 'S', 'I', 'G', 'N']);
    reveal_strlit("BITWISE_XOR_ASSIGN");
    assert("BITWISE_XOR_ASSIGN"@ =~= seq!['B', 'I', 'T', 'W', 'I', 'S', 'E', '_', 'X', 'O', 'R', '_', 'A', 'S', 'S', 'I', 'G', 'N']);
    reveal_strlit("DECREMENT");
    assert("DECREMENT"@ =~= seq!['D', 'E', 'C', 'R', 'E', 'M', 'E', 'N', 'T']);
    reveal_strlit("DIVIDE_ASSIGN");
    assert("DIVIDE_ASSIGN"@ =~= seq!['D', 'I', 'V', 'I', 'D', 'E', '_', 'A', 'S', 'S', 'I', 'G', 'N']);
    reveal_strlit("INCREMENT");
    assert("INCREMENT"@ =~= seq!['I', 'N', 'C', 'R', 'E', 'M', 'E', 'N', 'T']);
    reveal_strlit("MINUS_ASSIGN");
    assert("MINUS_ASSIGN"@ =~= seq!['M', 'I', 'N', 'U', 'S', '_', 'A', 'S', 'S', 'I', 'G', 'N']);
    reveal_strlit("MODULUS_ASSIGN");
    assert("MODULUS_ASSIGN"@ =~= seq!['M', 'O', 'D', 'U', 'L', 'U', 'S', '_', 'A', 'S', 'S', 'I', 'G', 'N']);
    reveal_strlit("MULTIPLY_ASSIGN");
    assert("MULTIPLY_ASSIGN"@ =~= seq!['M', 'U', 'L', 'T', 'I', 'P', 'L', 'Y', '_', 'A', 'S', 'S', 'I', 'G', 'N']);
    reveal_strlit("PLUS_ASSIGN");
    assert("PLUS_ASSIGN"@ =~= seq!['P', 'L', 'U', 'S', '_', 'A', 'S', 'S', 'I', 'G', 'N']);
    reveal_strlit("SEMICOLON");
    assert("SEMICOLON"@ =~= seq!['S', 'E', 'M', 'I', 'C', 'O', 'L', 'O', 'N']);
    assert(symbol_table()[0].0 == "SEMICOLON");
    assert(symbol_table()[1].0 == "INCREMENT");
    assert(symbol_table()[2].0 == "DECREMENT");
    assert(symbol_table()[3].0 == "PLUS_ASSIGN");
    assert(symbol_table()[4].0 == "MINUS_ASSIGN");
    assert(symbol_table()[5].0 == "MULTIPLY_ASSIGN");
    assert(symbol_table()[6].0 == "DIVIDE_ASSIGN");
    assert(symbol_table()[7].0 == "MODULUS_ASSIGN");
    assert(symbol_table()[8].0 == "BITWISE_AND_ASSIGN");
    assert(symbol_table()[9].0 == "BITWISE_XOR_ASSIGN");
    assert forall|j: int| 0 <= j < 9 implies (#[trigger] symbol_table()[j]).0@ != symbol_table()[9].0@ by {
        if j == 0 {
            assert(symbol_table()[0].0@ == "SEMICOLON"@);
        }
        if j == 1 {
            assert(symbol_table()[1].0@ == "INCREMENT"@);
        }
        if j == 2 {
            assert(symbol_table()[2].0@ == "DECREMENT"@);
        }
        if j == 3 {
            assert(symbol_table()[3].0@ == "PLUS_ASSIGN"@);
        }
        if j == 4 {
            assert(symbol_table()[4].0@ == "MINUS_ASSIGN"@);
        }
        if j == 5 {
            assert(symbol_table()[5].0@ == "MULTIPLY_ASSIGN"@);
        }
        if j == 6 {
            assert(symbol_table()[6].0@ == "DIVIDE_ASSIGN"@);
        }
        if j == 7 {
            assert(symbol_table()[7].0@ == "MODULUS_ASSIGN"@);
        }
        if j == 8 {
            assert(symbol_table()[8].0@ == "BITWISE_AND_ASSIGN"@);
        }
    }
}

proof fn lemma_key_first_10()
    ensures
        forall|j: int| 0 <= j < 10 ==> (#[trigger] symbol_table()[j]).0@ != symbol_table()[10].0@,
{
    reveal_strlit("BITWISE_AND_ASSIGN");
    assert("BITWISE_AND_ASSIGN"@ =~= seq!['B', 'I', 'T', 'W', 'I', 'S', 'E', '_', 'A', 'N', 'D', '_', 'A', 'S', 'S', 'I', 'G', 'N']);
    reveal_strlit("BITWISE_NOT_ASSIGN");
    assert("BITWISE_NOT_ASSIGN"@ =~= seq!['B', 'I', 'T', 'W', 'I', 'S', 'E', '_', 'N', 'O', 'T', '_', 'A', 'S', 'S', 'I', 'G', 'N']);
    reveal_strlit("BITWISE_XOR_ASSIGN");
    assert("BITWISE_XOR_ASSIGN"@ =~= seq!['B', 'I', 'T', 'W', 'I', 'S', 'E', '_', 'X', 'O', 'R', '_', 'A', 'S', 'S', 'I', 'G', 'N']);
    reveal_strlit("DECREMENT");
    assert("DECREMENT"@ =~= seq!['D', 'E', 'C', 'R', 'E', 'M', 'E', 'N', 'T']);
    reveal_strlit("DIVIDE_ASSIGN");
    assert("DIVIDE_ASSIGN"@ =~= seq!['D', 'I', 'V', 'I', 'D', 'E', '_', 'A', 'S', 'S', 'I', 'G', 'N']);
    reveal_strlit("INCREMENT");
    assert("INCREMENT"@ =~= seq!['I', 'N', 'C', 'R', 'E', 'M', 'E', 'N', 'T']);
    reveal_strlit("MINUS_ASSIGN");
    assert("MINUS_ASSIGN"@ =~= seq!['M', 'I', 'N', 'U', 'S', '_', 'A', 'S', 'S', 'I', 'G', 'N']);
    reveal_strlit("MODULUS_ASSIGN");
    assert("MODULUS_ASSIGN"@ =~= seq!['M', 'O', 'D', 'U', 'L', 'U', 'S', '_', 'A', 'S', 'S', 'I', 'G', 'N']);
    reveal_strlit("MULTIPLY_ASSIGN");
    assert("MULTIPLY_ASSIGN"@ =~= seq!['M', 'U', 'L', 'T', 'I', 'P', 'L', 'Y', '_', 'A', 'S', 'S', 'I', 'G', 'N']);
    reveal_strlit("PLUS_ASSIGN");
    assert("PLUS_ASSIGN"@ =~= seq!['P', 'L', 'U', 'S', '_', 'A', 'S', 'S', 'I', 'G', 'N']);
    reveal_strlit("SEMICOLON");
    assert("SEMICOLON"@ =~= seq!['S', 'E', 'M', 'I', 'C', 'O', 'L', 'O', 'N']);
    assert(symbol_table()[0].0 == "SEMICOLON");
    assert(symbol_table()[1].0 == "INCREMENT");
    assert(symbol_table()[2].0 == "DECREMENT");
    assert(symbol_table()[3].0 == "PLUS_ASSIGN");
    assert(symbol_table()[4].0 == "MINUS_ASSIGN");
    assert(symbol_table()[5].0 == "MULTIPLY_ASSIGN");
    assert(symbol_table()[6].0 == "DIVIDE_ASSIGN");
    assert(symbol_table()[7].0 == "MODULUS_ASSIGN");
    assert(symbol_table()[8].0 == "BITWISE_AND_ASSIGN");
    assert(symbol_table()[9].0 == "BITWISE_XOR_ASSIGN");
    assert(symbol_table()[10].0 == "BITWISE_NOT_ASSIGN");
    assert forall|j: int| 0 <= j < 10 implies (#[trigger] symbol_table()[j]).0@ != symbol_table()[10].0@ by {
        if j == 0 {
            assert(symbol_table()[0].0@ == "SEMICOLON"@);
        }
        if j == 1 {
            assert(symbol_table()[1].0@ == "INCREMENT"@);
        }
        if j == 2 {
            assert(symbol_table()[2].0@ == "DECREMENT"@);
        }
        if j == 3 {
            assert(symbol_table()[3].0@ == "PLUS_ASSIGN"@);
        }
        if j == 4 {
            assert(symbol_table()[4].0@ == "MINUS_ASSIGN"@);
        }
        if j == 5 {
            assert(symbol_table()[5].0@ == "MULTIPLY_ASSIGN"@);
        }
        if j == 6 {
            assert(symbol_table()[6].0@ == "DIVIDE_ASSIGN"@);
        }
        if j == 7 {
            assert(symbol_table()[7].0@ == "MODULUS_ASSIGN"@);
        }
        if j == 8 {
            assert(symbol_table()[8].0@ == "BITWISE_AND_ASSIGN"@);
        }
        if j == 9 {
            assert(symbol_table()[9].0@ == "BITWISE_XOR_ASSIGN"@);
        }
    }
}

proof fn lemma_key_first_11()
    ensures
        forall|j: int| 0 <= j < 11 ==> (#[trigger] symbol_table()[j]).0@ != symbol_table()[11].0@,
{
    reveal_strlit("BITWISE_AND_ASSIGN");
    assert("BITWISE_AND_ASSIGN"@ =~= seq!['B', 'I', 'T', 'W', 'I', 'S', 'E', '_', 'A', 'N', 'D', '_', 'A', 'S', 'S', 'I', 'G', 'N']);
    reveal_strlit("BITWISE_NOT_ASSIGN");
    assert("BITWISE_NOT_ASSIGN"@ =~= seq!['B', 'I', 'T', 'W', 'I', 'S', 'E', '_', 'N', 'O', 'T', '_', 'A', 'S', 'S', 'I', 'G', 'N']);
    reveal_strlit("BITWISE_XOR_ASSIGN");
    assert("BITWISE_XOR_ASSIGN"@ =~= seq!['B', 'I', 'T', 'W', 'I', 'S', 'E', '_', 'X', 'O', 'R', '_', 'A', 'S', 'S', 'I', 'G', 'N']);
    reveal_strlit("DECREMENT");
    assert("DECREMENT"@ =~= seq!['D', 'E', 'C', 'R', 'E', 'M', 'E', 'N', 'T']);
    reveal_strlit("DIVIDE_ASSIGN");
    assert("DIVIDE_ASSIGN"@ =~= seq!['D', 'I', 'V', 'I', 'D', 'E', '_', 'A', 'S', 'S', 'I', 'G', 'N']);
    reveal_strlit("INCREMENT");
    assert("INCREMENT"@ =~= seq!['I', 'N', 'C', 'R', 'E', 'M', 'E', 'N', 'T']);
    reveal_strlit("LEFT_SHIFT_ASSIGN");
    assert("LEFT_SHIFT_ASSIGN"@ =~= seq!['L', 'E', 'F', 'T', '_', 'S', 'H', 'I', 'F', 'T', '_', 'A', 'S', 'S', 'I', 'G', 'N']);
    reveal_strlit("MINUS_ASSIGN");
    assert("MINUS_ASSIGN"@ =~= seq!['M', 'I', 'N', 'U', 'S', '_', 'A', 'S', 'S', 'I', 'G', 'N']);
    reveal_strlit("MODULUS_ASSIGN");
    assert("MODULUS_ASSIGN"@ =~= seq!['M', 'O', 'D', 'U', 'L', 'U', 'S', '_', 'A', 'S', 'S', 'I', 'G', 'N']);
    reveal_strlit("MULTIPLY_ASSIGN");
    assert("MULTIPLY_ASSIGN"@ =~= seq!['M', 'U', 'L', 'T', 'I', 'P', 'L', 'Y', '_', 'A', 'S', 'S', 'I', 'G', 'N']);
    reveal_strlit("PLUS_ASSIGN");
    assert("PLUS_ASSIGN"@ =~= seq!['P', 'L', 'U', 'S', '_', 'A', 'S', 'S', 'I', 'G', 'N']);
    reveal_strlit("SEMICOLON");
    assert("SEMICOLON"@ =~= seq!['S', 'E', 'M', 'I', 'C', 'O', 'L', 'O', 'N']);
    assert(symbol_table()[0].0 == "SEMICOLON");
    assert(symbol_table()[1].0 == "INCREMENT");
    assert(symbol_table()[2].0 == "DECREMENT");
    assert(symbol_table()[3].0 == "PLUS_ASSIGN");
    assert(symbol_table()[4].0 == "MINUS_ASSIGN");
    assert(symbol_table()[5].0 == "MULTIPLY_ASSIGN");
    assert(symbol_table()[6].0 == "DIVIDE_ASSIGN");
    assert(symbol_table()[7].0 == "MODULUS_ASSIGN");
    assert(symbol_table()[8].0 == "BITWISE_AND_ASSIGN");
    assert(symbol_table()[9].0 == "BITWISE_XOR_ASSIGN");
    assert(symbol_table()[10].0 == "BITWISE_NOT_ASSIGN");
    assert(symbol_table()[11].0 == "LEFT_SHIFT_ASSIGN");
    assert forall|j: int| 0 <= j < 11 implies (#[trigger] symbol_table()[j]).0@ != symbol_table()[11].0@ by {
        if j == 0 {
            assert(symbol_table()[0].0@ == "SEMICOLON"@);
        }
        if j == 1 {
            assert(symbol_table()[1].0@ == "INCREMENT"@);
        }
        if j == 2 {
            assert(symbol_table()[2].0@ == "DECREMENT"@);
        }
        if j == 3 {
            assert(symbol_table()[3].0@ == "PLUS_ASSIGN"@);
        }
        if j == 4 {
            assert(symbol_table()[4].0@ == "MINUS_ASSIGN"@);
        }
        if j == 5 {
            assert(symbol_table()[5].0@ == "MULTIPLY_ASSIGN"@);
        }
        if j == 6 {
            assert(symbol_table()[6].0@ == "DIVIDE_ASSIGN"@);
        }
        if j == 7 {
            assert(symbol_table()[7].0@ == "MODULUS_ASSIGN"@);
        }
        if j == 8 {
            assert(symbol_table()[8].0@ == "BITWISE_AND_ASSIGN"@);
        }
        if j == 9 {
            assert(symbol_table()[9].0@ == "BITWISE_XOR_ASSIGN"@);
        }
        if j == 10 {
            assert(symbol_table()[10].0@ == "BITWISE_NOT_ASSIGN"@);
        }
    }
}

proof fn lemma_key_first_12()
    ensures
        forall|j: int| 0 <= j < 12 ==> (#[trigger] symbol_table()[j]).0@ != symbol_table()[12].0@,
{
    reveal_strlit("BITWISE_AND_ASSIGN");
    assert("BITWISE_AND_ASSIGN"@ =~= seq!['B', 'I', 'T', 'W', 'I', 'S', 'E', '_', 'A', 'N', 'D', '_', 'A', 'S', 'S', 'I', 'G', 'N']);
    reveal_strlit("BITWISE_NOT_ASSIGN");
    assert("BITWISE_NOT_ASSIGN"@ =~= seq!['B', 'I', 'T', 'W', 'I', 'S', 'E', '_', 'N', 'O', 'T', '_', 'A', 'S', 'S', 'I', 'G', 'N']);
    reveal_strlit("BITWISE_XOR_ASSIGN");
    assert("BITWISE_XOR_ASSIGN"@ =~= seq!['B', 'I', 'T', 'W', 'I', 'S', 'E', '_', 'X', 'O', 'R', '_', 'A', 'S', 'S', 'I', 'G', 'N']);
    reveal_strlit("DECREMENT");
    assert("DECREMENT"@ =~= seq!['D', 'E', 'C', 'R', 'E', 'M', 'E', 'N', 'T']);
    reveal_strlit("DIVIDE_ASSIGN");
    assert("DIVIDE_ASSIGN"@ =~= seq!['D', 'I', 'V', 'I', 'D', 'E', '_', 'A', 'S', 'S', 'I', 'G', 'N']);
    reveal_strlit("INCREMENT");
    assert("INCREMENT"@ =~= seq!['I', 'N', 'C', 'R', 'E', 'M', 'E', 'N', 'T']);
    reveal_strlit("LEFT_SHIFT_ASSIGN");
    assert("LEFT_SHIFT_ASSIGN"@ =~= seq!['L', 'E', 'F', 'T', '_', 'S', 'H', 'I', 'F', 'T', '_', 'A', 'S', 'S', 'I', 'G', 'N']);
    reveal_strlit("MINUS_ASSIGN");
    assert("MINUS_ASSIGN"@ =~= seq!['M', 'I', 'N', 'U', 'S', '_', 'A', 'S', 'S', 'I', 'G', 'N']);
    reveal_strlit("MODULUS_ASSIGN");
    assert("MODULUS_ASSIGN"@ =~= seq!['M', 'O', 'D', 'U', 'L', 'U', 'S', '_', 'A', 'S', 'S', 'I', 'G', 'N']);
    reveal_strlit("MULTIPLY_ASSIGN");
    assert("MULTIPLY_ASSIGN"@ =~= seq!['M', 'U', 'L', 'T', 'I', 'P', 'L', 'Y', '_', 'A', 'S', 'S', 'I', 'G', 'N']);
    reveal_strlit("PLUS_ASSIGN");
    assert("PLUS_ASSIGN"@ =~= seq!['P', 'L', 'U', 'S', '_', 'A', 'S', 'S', 'I', 'G', 'N']);
    reveal_strlit("RIGHT_SHIFT_ASSIGN");
    assert("RIGHT_SHIFT_ASSIGN"@ =~= seq!['R', 'I', 'G', 'H', 'T', '_', 'S', 'H', 'I', 'F', 'T', '_', 'A', 'S', 'S', 'I', 'G', 'N']);
    reveal_strlit("SEMICOLON");
    assert("SEMICOLON"@ =~= seq!['S', 'E', 'M', 'I', 'C', 'O', 'L', 'O', 'N']);
    assert(symbol_table()[0].0 == "SEMICOLON");
    assert(symbol_table()[1].0 == "INCREMENT");
    assert(symbol_table()[2].0 == "DECREMENT");
    assert(symbol_table()[3].0 == "PLUS_ASSIGN");
    assert(symbol_table()[4].0 == "MINUS_ASSIGN");
    assert(symbol_table()[5].0 == "MULTIPLY_ASSIGN");
    assert(symbol_table()[6].0 == "DIVIDE_ASSIGN");
    assert(symbol_table()[7].0 == "MODULUS_ASSIGN");
    assert(symbol_table()[8].0 == "BITWISE_AND_ASSIGN");
    assert(symbol_table()[9].0 == "BITWISE_XOR_ASSIGN");
    assert(symbol_table()[10].0 == "BITWISE_NOT_ASSIGN");
    assert(symbol_table()[11].0 == "LEFT_SHIFT_ASSIGN");
    assert(symbol_table()[12].0 == "RIGHT_SHIFT_ASSIGN");
    assert forall|j: int| 0 <= j < 12 implies (#[trigger] symbol_table()[j]).0@ != symbol_table()[12].0@ by {
        if j == 0 {
            assert(symbol_table()[0].0@ == "SEMICOLON"@);
        }
        if j == 1 {
            assert(symbol_table()[1].0@ == "INCREMENT"@);
        }
        if j == 2 {
            assert(symbol_table()[2].0@ == "DECREMENT"@);
        }
        if j == 3 {
            assert(symbol_table()[3].0@ == "PLUS_ASSIGN"@);
        }
        if j == 4 {
            assert(symbol_table()[4].0@ == "MINUS_ASSIGN"@);
        }
        if j == 5 {
            assert(symbol_table()[5].0@ == "MULTIPLY_ASSIGN"@);
        }
        if j == 6 {
            assert(symbol_table()[6].0@ == "DIVIDE_ASSIGN"@);
        }
        if j == 7 {
            assert(symbol_table()[7].0@ == "MODULUS_ASSIGN"@);
        }
        if j == 8 {
            assert(symbol_table()[8].0@ == "BITWISE_AND_ASSIGN"@);
        }
        if j == 9 {
            assert(symbol_table()[9].0@ == "BITWISE_XOR_ASSIGN"@);
        }
        if j == 10 {
            assert(symbol_table()[10].0@ == "BITWISE_NOT_ASSIGN"@);
        }
        if j == 11 {
            assert(symbol_table()[11].0@ == "LEFT_SHIFT_ASSIGN"@);
        }
    }
}

proof fn lemma_key_first_13()
    ensures
        forall|j: int| 0 <= j < 13 ==> (#[trigger] symbol_table()[j]).0@ != symbol_table()[13].0@,
{
    reveal_strlit("BITWISE_AND_ASSIGN");
    assert("BITWISE_AND_ASSIGN"@ =~= seq!['B', 'I', 'T', 'W', 'I', 'S', 'E', '_', 'A', 'N', 'D', '_', 'A', 'S', 'S', 'I', 'G', 'N']);
    reveal_strlit("BITWISE_NOT_ASSIGN");
    assert("BITWISE_NOT_ASSIGN"@ =~= seq!['B', 'I', 'T', 'W', 'I', 'S', 'E', '_', 'N', 'O', 'T', '_', 'A', 'S', 'S', 'I', 'G', 'N']);
    reveal_strlit("BITWISE_XOR_ASSIGN");
    assert("BITWISE_XOR_ASSIGN"@ =~= seq!['B', 'I', 'T', 'W', 'I', 'S', 'E', '_', 'X', 'O', 'R', '_', 'A', 'S', 'S', 'I', 'G', 'N']);
    reveal_strlit("DECREMENT");
    assert("DECREMENT"@ =~= seq!['D', 'E', 'C', 'R', 'E', 'M', 'E', 'N', 'T']);
    reveal_strlit("DIVIDE_ASSIGN");
    assert("DIVIDE_ASSIGN"@ =~= seq!['D', 'I', 'V', 'I', 'D', 'E', '_', 'A', 'S', 'S', 'I', 'G', 'N']);
    reveal_strlit("INCREMENT");
    assert("INCREMENT"@ =~= seq!['I', 'N', 'C', 'R', 'E', 'M', 'E', 'N', 'T']);
    reveal_strlit("LEFT_SHIFT_ASSIGN");
    assert("LEFT_SHIFT_ASSIGN"@ =~= seq!['L', 'E', 'F', 'T', '_', 'S', 'H', 'I', 'F', 'T', '_', 'A', 'S', 'S', 'I', 'G', 'N']);
    reveal_strlit("MINUS_ASSIGN");
    assert("MINUS_ASSIGN"@ =~= seq!['M', 'I', 'N', 'U', 'S', '_', 'A', 'S', 'S', 'I', 'G', 'N']);
    reveal_strlit("MODULUS_ASSIGN");
    assert("MODULUS_ASSIGN"@ =~= seq!['M', 'O', 'D', 'U', 'L', 'U', 'S', '_', 'A', 'S', 'S', 'I', 'G', 'N']);
    reveal_strlit("MULTIPLY_ASSIGN");
    assert("MULTIPLY_ASSIGN"@ =~= seq!['M', 'U', 'L', 'T', 'I', 'P', 'L', 'Y', '_', 'A', 'S', 'S', 'I', 'G', 'N']);
    reveal_strlit("PLUS");
    assert("PLUS"@ =~= seq!['P', 'L', 'U', 'S']);
    reveal_strlit("PLUS_ASSIGN");
    assert("PLUS_ASSIGN"@ =~= seq!['P', 'L', 'U', 'S', '_', 'A', 'S', 'S', 'I', 'G', 'N']);
    reveal_strlit("RIGHT_SHIFT_ASSIGN");
    assert("RIGHT_SHIFT_ASSIGN"@ =~= seq!['R', 'I', 'G', 'H', 'T', '_', 'S', 'H', 'I', 'F', 'T', '_', 'A', 'S', 'S', 'I', 'G', 'N']);
    reveal_strlit("SEMICOLON");
    assert("SEMICOLON"@ =~= seq!['S', 'E', 'M', 'I', 'C', 'O', 'L', 'O', 'N']);
    assert(symbol_table()[0].0 == "SEMICOLON");
    assert(symbol_table()[1].0 == "INCREMENT");
    assert(symbol_table()[2].0 == "DECREMENT");
    assert(symbol_table()[3].0 == "PLUS_ASSIGN");
    assert(symbol_table()[4].0 == "MINUS_ASSIGN");
    assert(symbol_table()[5].0 == "MULTIPLY_ASSIGN");
    assert(symbol_table()[6].0 == "DIVIDE_ASSIGN");
    assert(symbol_table()[7].0 == "MODULUS_ASSIGN");
    assert(symbol_table()[8].0 == "BITWISE_AND_ASSIGN");
    assert(symbol_table()[9].0 == "BITWISE_XOR_ASSIGN");
    assert(symbol_table()[10].0 == "BITWISE_NOT_ASSIGN");
    assert(symbol_table()[11].0 == "LEFT_SHIFT_ASSIGN");
    assert(symbol_table()[12].0 == "RIGHT_SHIFT_ASSIGN");
    assert(symbol_table()[13].0 == "PLUS");
    assert forall|j: int| 0 <= j < 13 implies (#[trigger] symbol_table()[j]).0@ != symbol_table()[13].0@ by {
        if j == 0 {
            assert(symbol_table()[0].0@ == "SEMICOLON"@);
        }
        if j == 1 {
            assert(symbol_table()[1].0@ == "INCREMENT"@);
        }
        if j == 2 {
            assert(symbol_table()[2].0@ == "DECREMENT"@);
        }
        if j == 3 {
            assert(symbol_table()[3].0@ == "PLUS_ASSIGN"@);
        }
        if j == 4 {
            assert(symbol_table()[4].0@ == "MINUS_ASSIGN"@);
        }
        if j == 5 {
            assert(symbol_table()[5].0@ == "MULTIPLY_ASSIGN"@);
        }
        if j == 6 {
            assert(symbol_table()[6].0@ == "DIVIDE_ASSIGN"@);
        }
        if j == 7 {
            assert(symbol_table()[7].0@ == "MODULUS_ASSIGN"@);
        }
        if j == 8 {
            assert(symbol_table()[8].0@ == "BITWISE_AND_ASSIGN"@);
        }
        if j == 9 {
            assert(symbol_table()[9].0@ == "BITWISE_XOR_ASSIGN"@);
        }
        if j == 10 {
            assert(symbol_table()[10].0@ == "BITWISE_NOT_ASSIGN"@);
        }
        if j == 11 {
            assert(symbol_table()[11].0@ == "LEFT_SHIFT_ASSIGN"@);
        }
        if j == 12 {
            assert(symbol_table()[12].0@ == "RIGHT_SHIFT_ASSIGN"@);
        }
    }
}

proof fn lemma_key_first_14()
    ensures
        forall|j: int| 0 <= j < 14 ==> (#[trigger] symbol_table()[j]).0@ != symbol_table()[14].0@,
{
    reveal_strlit("BITWISE_AND_ASSIGN");
    assert("BITWISE_AND_ASSIGN"@ =~= seq!['B', 'I', 'T', 'W', 'I', 'S', 'E', '_', 'A', 'N', 'D', '_', 'A', 'S', 'S', 'I', 'G', 'N']);
    reveal_strlit("BITWISE_NOT_ASSIGN");
    assert("BITWISE_NOT_ASSIGN"@ =~= seq!['B', 'I', 'T', 'W', 'I', 'S', 'E', '_', 'N', 'O', 'T', '_', 'A', 'S', 'S', 'I', 'G', 'N']);
    reveal_strlit("BITWISE_XOR_ASSIGN");
    assert("BITWISE_XOR_ASSIGN"@ =~= seq!['B', 'I', 'T', 'W', 'I', 'S', 'E', '_', 'X', 'O', 'R', '_', 'A', 'S', 'S', 'I', 'G', 'N']);
    reveal_strlit("DECREMENT");
    assert("DECREMENT"@ =~= seq!['D', 'E', 'C', 'R', 'E', 'M', 'E', 'N', 'T']);
    reveal_strlit("DIVIDE_ASSIGN");
    assert("DIVIDE_ASSIGN"@ =~= seq!['D', 'I', 'V', 'I', 'D', 'E', '_', 'A', 'S', 'S', 'I', 'G', 'N']);
    reveal_strlit("INCREMENT");
    assert("INCREMENT"@ =~= seq!['I', 'N', 'C', 'R', 'E', 'M', 'E', 'N', 'T']);
    reveal_strlit("LEFT_SHIFT_ASSIGN");
    assert("LEFT_SHIFT_ASSIGN"@ =~= seq!['L', 'E', 'F', 'T', '_', 'S', 'H', 'I', 'F', 'T', '_', 'A', 'S', 'S', 'I', 'G', 'N']);
    reveal_strlit("MINUS");
    assert("MINUS"@ =~= seq!['M', 'I', 'N', 'U', 'S']);
    reveal_strlit("MINUS_ASSIGN");
    assert("MINUS_ASSIGN"@ =~= seq!['M', 'I', 'N', 'U', 'S', '_', 'A', 'S', 'S', 'I', 'G', 'N']);
    reveal_strlit("MODULUS_ASSIGN");
    assert("MODULUS_ASSIGN"@ =~= seq!['M', 'O', 'D', 'U', 'L', 'U', 'S', '_', 'A', 'S', 'S', 'I', 'G', 'N']);
    reveal_strlit("MULTIPLY_ASSIGN");
    assert("MULTIPLY_ASSIGN"@ =~= seq!['M', 'U', 'L', 'T', 'I', 'P', 'L', 'Y', '_', 'A', 'S', 'S', 'I', 'G', 'N']);
    reveal_strlit("PLUS");
    assert("PLUS"@ =~= seq!['P', 'L', 'U', 'S']);
    reveal_strlit("PLUS_ASSIGN");
    assert("PLUS_ASSIGN"@ =~= seq!['P', 'L', 'U', 'S', '_', 'A', 'S', 'S', 'I', 'G', 'N']);
    reveal_strlit("RIGHT_SHIFT_ASSIGN");
    assert("RIGHT_SHIFT_ASSIGN"@ =~= seq!['R', 'I', 'G', 'H', 'T', '_', 'S', 'H', 'I', 'F', 'T', '_', 'A', 'S', 'S', 'I', 'G', 'N']);
    reveal_strlit("SEMICOLON");
    assert("SEMICOLON"@ =~= seq!['S', 'E', 'M', 'I', 'C', 'O', 'L', 'O', 'N']);
    assert(symbol_table()[0].0 == "SEMICOLON");
    assert(symbol_table()[1].0 == "INCREMENT");
    assert(symbol_table()[2].0 == "DECREMENT");
    assert(symbol_table()[3].0 == "PLUS_ASSIGN");
    assert(symbol_table()[4].0 == "MINUS_ASSIGN");
    assert(symbol_table()[5].0 == "MULTIPLY_ASSIGN");
    assert(symbol_table()[6].0 == "DIVIDE_ASSIGN");
    assert(symbol_table()[7].0 == "MODULUS_ASSIGN");
    assert(symbol_table()[8].0 == "BITWISE_AND_ASSIGN");
    assert(symbol_table()[9].0 == "BITWISE_XOR_ASSIGN");
    assert(symbol_table()[10].0 == "BITWISE_NOT_ASSIGN");
    assert(symbol_table()[11].0 == "LEFT_SHIFT_ASSIGN");
    assert(symbol_table()[12].0 == "RIGHT_SHIFT_ASSIGN");
    assert(symbol_table()[13].0 == "PLUS");
    assert(symbol_table()[14].0 == "MINUS");
    assert forall|j: int| 0 <= j < 14 implies (#[trigger] symbol_table()[j]).0@ != symbol_table()[14].0@ by {
        if j == 0 {
            assert(symbol_table()[0].0@ == "SEMICOLON"@);
        }
        if j == 1 {
            assert(symbol_table()[1].0@ == "INCREMENT"@);
        }
        if j == 2 {
            assert(symbol_table()[2].0@ == "DECREMENT"@);
        }
        if j == 3 {
            assert(symbol_table()[3].0@ == "PLUS_ASSIGN"@);
        }
        if j == 4 {
            assert(symbol_table()[4].0@ == "MINUS_ASSIGN"@);
        }
        if j == 5 {
            assert(symbol_table()[5].0@ == "MULTIPLY_ASSIGN"@);
        }
        if j == 6 {
            assert(symbol_table()[6].0@ == "DIVIDE_ASSIGN"@);
        }
        if j == 7 {
            assert(symbol_table()[7].0@ == "MODULUS_ASSIGN"@);
        }
        if j == 8 {
            assert(symbol_table()[8].0@ == "BITWISE_AND_ASSIGN"@);
        }
        if j == 9 {
            assert(symbol_table()[9].0@ == "BITWISE_XOR_ASSIGN"@);
        }
        if j == 10 {
            assert(symbol_table()[10].0@ == "BITWISE_NOT_ASSIGN"@);
        }
        if j == 11 {
            assert(symbol_table()[11].0@ == "LEFT_SHIFT_ASSIGN"@);
        }
        if j == 12 {
            assert(symbol_table()[12].0@ == "RIGHT_SHIFT_ASSIGN"@);
        }
        if j == 13 {
            assert(symbol_table()[13].0@ == "PLUS"@);
        }
    }
}

proof fn lemma_key_first_15()
    ensures
        forall|j: int| 0 <= j < 15 ==> (#[trigger] symbol_table()[j]).0@ != symbol_table()[15].0@,
{
    reveal_strlit("BITWISE_AND_ASSIGN");
    assert("BITWISE_AND_ASSIGN"@ =~= seq!['B', 'I', 'T', 'W', 'I', 'S', 'E', '_', 'A', 'N', 'D', '_', 'A', 'S', 'S', 'I', 'G', 'N']);
    reveal_strlit("BITWISE_NOT_ASSIGN");
    assert("BITWISE_NOT_ASSIGN"@ =~= seq!['B', 'I', 'T', 'W', 'I', 'S', 'E', '_', 'N', 'O', 'T', '_', 'A', 'S', 'S', 'I', 'G', 'N']);
    reveal_strlit("BITWISE_XOR_ASSIGN");
    assert("BITWISE_XOR_ASSIGN"@ =~= seq!['B', 'I', 'T', 'W', 'I', 'S', 'E', '_', 'X', 'O', 'R', '_', 'A', 'S', 'S', 'I', 'G', 'N']);
    reveal_strlit("DECREMENT");
    assert("DECREMENT"@ =~= seq!['D', 'E', 'C', 'R', 'E', 'M', 'E', 'N', 'T']);
    reveal_strlit("DIVIDE_ASSIGN");
    assert("DIVIDE_ASSIGN"@ =~= seq!['D', 'I', 'V', 'I', 'D', 'E', '_', 'A', 'S', 'S', 'I', 'G', 'N']);
    reveal_strlit("INCREMENT");
    assert("INCREMENT"@ =~= seq!['I', 'N', 'C', 'R', 'E', 'M', 'E', 'N', 'T']);
    reveal_strlit("LEFT_SHIFT_ASSIGN");
    assert("LEFT_SHIFT_ASSIGN"@ =~= seq!['L', 'E', 'F', 'T', '_', 'S', 'H', 'I', 'F', 'T', '_', 'A', 'S', 'S', 'I', 'G', 'N']);
    reveal_strlit("MINUS");
    assert("MINUS"@ =~= seq!['M', 'I', 'N', 'U', 'S']);
    reveal_strlit("MINUS_ASSIGN");
    assert("MINUS_ASSIGN"@ =~= seq!['M', 'I', 'N', 'U', 'S', '_', 'A', 'S', 'S', 'I', 'G', 'N']);
    reveal_strlit("MODULUS_ASSIGN");
    assert("MODULUS_ASSIGN"@ =~= seq!['M', 'O', 'D', 'U', 'L', 'U', 'S', '_', 'A', 'S', 'S', 'I', 'G', 'N']);
    reveal_strlit("MULTIPLY");
    assert("MULTIPLY"@ =~= seq!['M', 'U', 'L', 'T', 'I', 'P', 'L', 'Y']);
    reveal_strlit("MULTIPLY_ASSIGN");
    assert("MULTIPLY_ASSIGN"@ =~= seq!['M', 'U', 'L', 'T', 'I', 'P', 'L', 'Y', '_', 'A', 'S', 'S', 'I', 'G', 'N']);
    reveal_strlit("PLUS");
    assert("PLUS"@ =~= seq!['P', 'L', 'U', 'S']);
    reveal_strlit("PLUS_ASSIGN");
    assert("PLUS_ASSIGN"@ =~= seq!['P', 'L', 'U', 'S', '_', 'A', 'S', 'S', 'I', 'G', 'N']);
    reveal_strlit("RIGHT_SHIFT_ASSIGN");
    assert("RIGHT_SHIFT_ASSIGN"@ =~= seq!['R', 'I', 'G', 'H', 'T', '_', 'S', 'H', 'I', 'F', 'T', '_', 'A', 'S', 'S', 'I', 'G', 'N']);
    reveal_strlit("SEMICOLON");
    assert("SEMICOLON"@ =~= seq!['S', 'E', 'M', 'I', 'C', 'O', 'L', 'O', 'N']);
    assert(symbol_table()[0].0 == "SEMICOLON");
    assert(symbol_table()[1].0 == "INCREMENT");
    assert(symbol_table()[2].0 == "DECREMENT");
    assert(symbol_table()[3].0 == "PLUS_ASSIGN");
    assert(symbol_table()[4].0 == "MINUS_ASSIGN");
    assert(symbol_table()[5].0 == "MULTIPLY_ASSIGN");
    assert(symbol_table()[6].0 == "DIVIDE_ASSIGN");
    assert(symbol_table()[7].0 == "MODULUS_ASSIGN");
    assert(symbol_table()[8].0 == "BITWISE_AND_ASSIGN");
    assert(symbol_table()[9].0 == "BITWISE_XOR_ASSIGN");
    assert(symbol_table()[10].0 == "BITWISE_NOT_ASSIGN");
    assert(symbol_table()[11].0 == "LEFT_SHIFT_ASSIGN");
    assert(symbol_table()[12].0 == "RIGHT_SHIFT_ASSIGN");
    assert(symbol_table()[13].0 == "PLUS");
    assert(symbol_table()[14].0 == "MINUS");
    assert(symbol_table()[15].0 == "MULTIPLY");
    assert forall|j: int| 0 <= j < 15 implies (#[trigger] symbol_table()[j]).0@ != symbol_table()[15].0@ by {
        if j == 0 {
            assert(symbol_table()[0].0@ == "SEMICOLON"@);
        }
        if j == 1 {
            assert(symbol_table()[1].0@ == "INCREMENT"@);
        }
        if j == 2 {
            assert(symbol_table()[2].0@ == "DECREMENT"@);
        }
        if j == 3 {
            assert(symbol_table()[3].0@ == "PLUS_ASSIGN"@);
        }
        if j == 4 {
            assert(symbol_table()[4].0@ == "MINUS_ASSIGN"@);
        }
        if j == 5 {
            assert(symbol_table()[5].0@ == "MULTIPLY_ASSIGN"@);
        }
        if j == 6 {
            assert(symbol_table()[6].0@ == "DIVIDE_ASSIGN"@);
        }
        if j == 7 {
            assert(symbol_table()[7].0@ == "MODULUS_ASSIGN"@);
        }
        if j == 8 {
            assert(symbol_table()[8].0@ == "BITWISE_AND_ASSIGN"@);
        }
        if j == 9 {
            assert(symbol_table()[9].0@ == "BITWISE_XOR_ASSIGN"@);
        }
        if j == 10 {
            assert(symbol_table()[10].0@ == "BITWISE_NOT_ASSIGN"@);
        }
        if j == 11 {
            assert(symbol_table()[11].0@ == "LEFT_SHIFT_ASSIGN"@);
        }
        if j == 12 {
            assert(symbol_table()[12].0@ == "RIGHT_SHIFT_ASSIGN"@);
        }
        if j == 13 {
            assert(symbol_table()[13].0@ == "PLUS"@);
        }
        if j == 14 {
            assert(symbol_table()[14].0@ == "MINUS"@);
        }
    }
}

proof fn lemma_key_first_16()
    ensures
        forall|j: int| 0 <= j < 16 ==> (#[trigger] symbol_table()[j]).0@ != symbol_table()[16].0@,
{
    reveal_strlit("BITWISE_AND_ASSIGN");
    assert("BITWISE_AND_ASSIGN"@ =~= seq!['B', 'I', 'T', 'W', 'I', 'S', 'E', '_', 'A', 'N', 'D', '_', 'A', 'S', 'S', 'I', 'G', 'N']);
    reveal_strlit("BITWISE_NOT_ASSIGN");
    assert("BITWISE_NOT_ASSIGN"@ =~= seq!['B', 'I', 'T', 'W', 'I', 'S', 'E', '_', 'N', 'O', 'T', '_', 'A', 'S', 'S', 'I', 'G', 'N']);
    reveal_strlit("BITWISE_XOR_ASSIGN");
    assert("BITWISE_XOR_ASSIGN"@ =~= seq!['B', 'I', 'T', 'W', 'I', 'S', 'E', '_', 'X', 'O', 'R', '_', 'A', 'S', 'S', 'I', 'G', 'N']);
    reveal_strlit("DECREMENT");
    assert("DECREMENT"@ =~= seq!['D', 'E', 'C', 'R', 'E', 'M', 'E', 'N', 'T']);
    reveal_strlit("DIVIDE");
    assert("DIVIDE"@ =~= seq!['D', 'I', 'V', 'I', 'D', 'E']);
    reveal_strlit("DIVIDE_ASSIGN");
    assert("DIVIDE_ASSIGN"@ =~= seq!['D', 'I', 'V', 'I', 'D', 'E', '_', 'A', 'S', 'S', 'I', 'G', 'N']);
    reveal_strlit("INCREMENT");
    assert("INCREMENT"@ =~= seq!['I', 'N', 'C', 'R', 'E', 'M', 'E', 'N', 'T']);
    reveal_strlit("LEFT_SHIFT_ASSIGN");
    assert("LEFT_SHIFT_ASSIGN"@ =~= seq!['L', 'E', 'F', 'T', '_', 'S', 'H', 'I', 'F', 'T', '_', 'A', 'S', 'S', 'I', 'G', 'N']);
    reveal_strlit("MINUS");
    assert("MINUS"@ =~= seq!['M', 'I', 'N', 'U', 'S']);
    reveal_strlit("MINUS_ASSIGN");
    assert("MINUS_ASSIGN"@ =~= seq!['M', 'I', 'N', 'U', 'S', '_', 'A', 'S', 'S', 'I', 'G', 'N']);
    reveal_strlit("MODULUS_ASSIGN");
    assert("MODULUS_ASSIGN"@ =~= seq!['M', 'O', 'D', 'U', 'L', 'U', 'S', '_', 'A', 'S', 'S', 'I', 'G', 'N']);
    reveal_strlit("MULTIPLY");
    assert("MULTIPLY"@ =~= seq!['M', 'U', 'L', 'T', 'I', 'P', 'L', 'Y']);
    reveal_strlit("MULTIPLY_ASSIGN");
    assert("MULTIPLY_ASSIGN"@ =~= seq!['M', 'U', 'L', 'T', 'I', 'P', 'L', 'Y', '_', 'A', 'S', 'S', 'I', 'G', 'N']);
    reveal_strlit("PLUS");
    assert("PLUS"@ =~= seq!['P', 'L', 'U', 'S']);
    reveal_strlit("PLUS_ASSIGN");
    assert("PLUS_ASSIGN"@ =~= seq!['P', 'L', 'U', 'S', '_', 'A', 'S', 'S', 'I', 'G', 'N']);
    reveal_strlit("RIGHT_SHIFT_ASSIGN");
    assert("RIGHT_SHIFT_ASSIGN"@ =~= seq!['R', 'I', 'G', 'H', 'T', '_', 'S', 'H', 'I', 'F', 'T', '_', 'A', 'S', 'S', 'I', 'G', 'N']);
    reveal_strlit("SEMICOLON");
    assert("SEMICOLON"@ =~= seq!['S', 'E', 'M', 'I', 'C', 'O', 'L', 'O', 'N']);
    assert(symbol_table()[0].0 == "SEMICOLON");
    assert(symbol_table()[1].0 == "INCREMENT");
    assert(symbol_table()[2].0 == "DECREMENT");
    assert(symbol_table()[3].0 == "PLUS_ASSIGN");
    assert(symbol_table()[4].0 == "MINUS_ASSIGN");
    assert(symbol_table()[5].0 == "MULTIPLY_ASSIGN");
    assert(symbol_table()[6].0 == "DIVIDE_ASSIGN");
    assert(symbol_table()[7].0 == "MODULUS_ASSIGN");
    assert(symbol_table()[8].0 == "BITWISE_AND_ASSIGN");
    assert(symbol_table()[9].0 == "BITWISE_XOR_ASSIGN");
    assert(symbol_table()[10].0 == "BITWISE_NOT_ASSIGN");
    assert(symbol_table()[11].0 == "LEFT_SHIFT_ASSIGN");
    assert(symbol_table()[12].0 == "RIGHT_SHIFT_ASSIGN");
    assert(symbol_table()[13].0 == "PLUS");
    assert(symbol_table()[14].0 == "MINUS");
    assert(symbol_table()[15].0 == "MULTIPLY");
    assert(symbol_table()[16].0 == "DIVIDE");
    assert forall|j: int| 0 <= j < 16 implies (#[trigger] symbol_table()[j]).0@ != symbol_table()[16].0@ by {
        if j == 0 {
            assert(symbol_table()[0].0@ == "SEMICOLON"@);
        }
        if j == 1 {
            assert(symbol_table()[1].0@ == "INCREMENT"@);
        }
        if j == 2 {
            assert(symbol_table()[2].0@ == "DECREMENT"@);
        }
        if j == 3 {
            assert(symbol_table()[3].0@ == "PLUS_ASSIGN"@);
        }
        if j == 4 {
            assert(symbol_table()[4].0@ == "MINUS_ASSIGN"@);
        }
        if j == 5 {
            assert(symbol_table()[5].0@ == "MULTIPLY_ASSIGN"@);
        }
        if j == 6 {
            assert(symbol_table()[6].0@ == "DIVIDE_ASSIGN"@);
        }
        if j == 7 {
            assert(symbol_table()[7].0@ == "MODULUS_ASSIGN"@);
        }
        if j == 8 {
            assert(symbol_table()[8].0@ == "BITWISE_AND_ASSIGN"@);
        }
        if j == 9 {
            assert(symbol_table()[9].0@ == "BITWISE_XOR_ASSIGN"@);
        }
        if j == 10 {
            assert(symbol_table()[10].0@ == "BITWISE_NOT_ASSIGN"@);
        }
        if j == 11 {
            assert(symbol_table()[11].0@ == "LEFT_SHIFT_ASSIGN"@);
        }
        if j == 12 {
            assert(symbol_table()[12].0@ == "RIGHT_SHIFT_ASSIGN"@);
        }
        if j == 13 {
            assert(symbol_table()[13].0@ == "PLUS"@);
        }
        if j == 14 {
            assert(symbol_table()[14].0@ == "MINUS"@);
        }
        if j == 15 {
            assert(symbol_table()[15].0@ == "MULTIPLY"@);
        }
    }
}

proof fn lemma_key_first_17()
    ensures
        forall|j: int| 0 <= j < 17 ==> (#[trigger] symbol_table()[j]).0@ != symbol_table()[17].0@,
{
    reveal_strlit("BITWISE_AND_ASSIGN");
    assert("BITWISE_AND_ASSIGN"@ =~= seq!['B', 'I', 'T', 'W', 'I', 'S', 'E', '_', 'A', 'N', 'D', '_', 'A', 'S', 'S', 'I', 'G', 'N']);
    reveal_strlit("BITWISE_NOT_ASSIGN");
    assert("BITWISE_NOT_ASSIGN"@ =~= seq!['B', 'I', 'T', 'W', 'I', 'S', 'E', '_', 'N', 'O', 'T', '_', 'A', 'S', 'S', 'I', 'G', 'N']);
    reveal_strlit("BITWISE_XOR_ASSIGN");
    assert("BITWISE_XOR_ASSIGN"@ =~= seq!['B', 'I', 'T', 'W', 'I', 'S', 'E', '_', 'X', 'O', 'R', '_', 'A', 'S', 'S', 'I', 'G', 'N']);
    reveal_strlit("DECREMENT");
    assert("DECREMENT"@ =~= seq!['D', 'E', 'C', 'R', 'E', 'M', 'E', 'N', 'T']);
    reveal_strlit("DIVIDE");
    assert("DIVIDE"@ =~= seq!['D', 'I', 'V', 'I', 'D', 'E']);
    reveal_strlit("DIVIDE_ASSIGN");
    assert("DIVIDE_ASSIGN"@ =~= seq!['D', 'I', 'V', 'I', 'D', 'E', '_', 'A', 'S', 'S', 'I', 'G', 'N']);
    reveal_strlit("INCREMENT");
    assert("INCREMENT"@ =~= seq!['I', 'N', 'C', 'R', 'E', 'M', 'E', 'N', 'T']);
    reveal_strlit("LEFT_SHIFT_ASSIGN");
    assert("LEFT_SHIFT_ASSIGN"@ =~= seq!['L', 'E', 'F', 'T', '_', 'S', 'H', 'I', 'F', 'T', '_', 'A', 'S', 'S', 'I', 'G', 'N']);
    reveal_strlit("MINUS");
    assert("MINUS"@ =~= seq!['M', 'I', 'N', 'U', 'S']);
    reveal_strlit("MINUS_ASSIGN");
    assert("MINUS_ASSIGN"@ =~= seq!['M', 'I', 'N', 'U', 'S', '_', 'A', 'S', 'S', 'I', 'G', 'N']);
    reveal_strlit("MODULUS");
    assert("MODULUS"@ =~= seq!['M', 'O', 'D', 'U', 'L', 'U', 'S']);
    reveal_strlit("MODULUS_ASSIGN");
    assert("MODULUS_ASSIGN"@ =~= seq!['M', 'O', 'D', 'U', 'L', 'U', 'S', '_', 'A', 'S', 'S', 'I', 'G', 'N']);
    reveal_strlit("MULTIPLY");
    assert("MULTIPLY"@ =~= seq!['M', 'U', 'L', 'T', 'I', 'P', 'L', 'Y']);
    reveal_strlit("MULTIPLY_ASSIGN");
    assert("MULTIPLY_ASSIGN"@ =~= seq!['M', 'U', 'L', 'T', 'I', 'P', 'L', 'Y', '_', 'A', 'S', 'S', 'I', 'G', 'N']);
    reveal_strlit("PLUS");
    assert("PLUS"@ =~= seq!['P', 'L', 'U', 'S']);
    reveal_strlit("PLUS_ASSIGN");
    assert("PLUS_ASSIGN"@ =~= seq!['P', 'L', 'U', 'S', '_', 'A', 'S', 'S', 'I', 'G', 'N']);
    reveal_strlit("RIGHT_SHIFT_ASSIGN");
    assert("RIGHT_SHIFT_ASSIGN"@ =~= seq!['R', 'I', 'G', 'H', 'T', '_', 'S', 'H', 'I', 'F', 'T', '_', 'A', 'S', 'S', 'I', 'G', 'N']);
    reveal_strlit("SEMICOLON");
    assert("SEMICOLON"@ =~= seq!['S', 'E', 'M', 'I', 'C', 'O', 'L', 'O', 'N']);
    assert(symbol_table()[0].0 == "SEMICOLON");
    assert(symbol_table()[1].0 == "INCREMENT");
    assert(symbol_table()[2].0 == "DECREMENT");
    assert(symbol_table()[3].0 == "PLUS_ASSIGN");
    assert(symbol_table()[4].0 == "MINUS_ASSIGN");
    assert(symbol_table()[5].0 == "MULTIPLY_ASSIGN");
    assert(symbol_table()[6].0 == "DIVIDE_ASSIGN");
    assert(symbol_table()[7].0 == "MODULUS_ASSIGN");
    assert(symbol_table()[8].0 == "BITWISE_AND_ASSIGN");
    assert(symbol_table()[9].0 == "BITWISE_XOR_ASSIGN");
    assert(symbol_table()[10].0 == "BITWISE_NOT_ASSIGN");
    assert(symbol_table()[11].0 == "LEFT_SHIFT_ASSIGN");
    assert(symbol_table()[12].0 == "RIGHT_SHIFT_ASSIGN");
    assert(symbol_table()[13].0 == "PLUS");
    assert(symbol_table()[14].0 == "MINUS");
    assert(symbol_table()[15].0 == "MULTIPLY");
    assert(symbol_table()[16].0 == "DIVIDE");
    assert(symbol_table()[17].0 == "MODULUS");
    assert forall|j: int| 0 <= j < 17 implies (#[trigger] symbol_table()[j]).0@ != symbol_table()[17].0@ by {
        if j == 0 {
            assert(symbol_table()[0].0@ == "SEMICOLON"@);
        }
        if j == 1 {
            assert(symbol_table()[1].0@ == "INCREMENT"@);
        }
        if j == 2 {
            assert(symbol_table()[2].0@ == "DECREMENT"@);
        }
        if j == 3 {
            assert(symbol_table()[3].0@ == "PLUS_ASSIGN"@);
        }
        if j == 4 {
            assert(symbol_table()[4].0@ == "MINUS_ASSIGN"@);
        }
        if j == 5 {
            assert(symbol_table()[5].0@ == "MULTIPLY_ASSIGN"@);
        }
        if j == 6 {
            assert(symbol_table()[6].0@ == "DIVIDE_ASSIGN"@);
        }
        if j == 7 {
            assert(symbol_table()[7].0@ == "MODULUS_ASSIGN"@);
        }
        if j == 8 {
            assert(symbol_table()[8].0@ == "BITWISE_AND_ASSIGN"@);
        }
        if j == 9 {
            assert(symbol_table()[9].0@ == "BITWISE_XOR_ASSIGN"@);
        }
        if j == 10 {
            assert(symbol_table()[10].0@ == "BITWISE_NOT_ASSIGN"@);
        }
        if j == 11 {
            assert(symbol_table()[11].0@ == "LEFT_SHIFT_ASSIGN"@);
        }
        if j == 12 {
            assert(symbol_table()[12].0@ == "RIGHT_SHIFT_ASSIGN"@);
        }
        if j == 13 {
            assert(symbol_table()[13].0@ == "PLUS"@);
        }
        if j == 14 {
            assert(symbol_table()[14].0@ == "MINUS"@);
        }
        if j == 15 {
            assert(symbol_table()[15].0@ == "MULTIPLY"@);
        }
        if j == 16 {
            assert(symbol_table()[16].0@ == "DIVIDE"@);
        }
    }
}

proof fn lemma_key_first_18()
    ensures
        forall|j: int| 0 <= j < 18 ==> (#[trigger] symbol_table()[j]).0@ != symbol_table()[18].0@,
{
    reveal_strlit("BITWISE_AND_ASSIGN");
    assert("BITWISE_AND_ASSIGN"@ =~= seq!['B', 'I', 'T', 'W', 'I', 'S', 'E', '_', 'A', 'N', 'D', '_', 'A', 'S', 'S', 'I', 'G', 'N']);
    reveal_strlit("BITWISE_NOT_ASSIGN");
    assert("BITWISE_NOT_ASSIGN"@ =~= seq!['B', 'I', 'T', 'W', 'I', 'S', 'E', '_', 'N', 'O', 'T', '_', 'A', 'S', 'S', 'I', 'G', 'N']);
    reveal_strlit("BITWISE_XOR_ASSIGN");
    assert("BITWISE_XOR_ASSIGN"@ =~= seq!['B', 'I', 'T', 'W', 'I', 'S', 'E', '_', 'X', 'O', 'R', '_', 'A', 'S', 'S', 'I', 'G', 'N']);
    reveal_strlit("DECREMENT");
    assert("DECREMENT"@ =~= seq!['D', 'E', 'C', 'R', 'E', 'M', 'E', 'N', 'T']);
    reveal_strlit("DIVIDE");
    assert("DIVIDE"@ =~= seq!['D', 'I', 'V', 'I', 'D', 'E']);
    reveal_strlit("DIVIDE_ASSIGN");
    assert("DIVIDE_ASSIGN"@ =~= seq!['D', 'I', 'V', 'I', 'D', 'E', '_', 'A', 'S', 'S', 'I', 'G', 'N']);
    reveal_strlit("INCREMENT");
    assert("INCREMENT"@ =~= seq!['I', 'N', 'C', 'R', 'E', 'M', 'E', 'N', 'T']);
    reveal_strlit("LEFT_SHIFT_ASSIGN");
    assert("LEFT_SHIFT_ASSIGN"@ =~= seq!['L', 'E', 'F', 'T', '_', 'S', 'H', 'I', 'F', 'T', '_', 'A', 'S', 'S', 'I', 'G', 'N']);
    reveal_strlit("LOGICAL_AND");
    assert("LOGICAL_AND"@ =~= seq!['L', 'O', 'G', 'I', 'C', 'A', 'L', '_', 'A', 'N', 'D']);
    reveal_strlit("MINUS");
    assert("MINUS"@ =~= seq!['M', 'I', 'N', 'U', 'S']);
    reveal_strlit("MINUS_ASSIGN");
    assert("MINUS_ASSIGN"@ =~= seq!['M', 'I', 'N', 'U', 'S', '_', 'A', 'S', 'S', 'I', 'G', 'N']);
    reveal_strlit("MODULUS");
    assert("MODULUS"@ =~= seq!['M', 'O', 'D', 'U', 'L', 'U', 'S']);
    reveal_strlit("MODULUS_ASSIGN");
    assert("MODULUS_ASSIGN"@ =~= seq!['M', 'O', 'D', 'U', 'L', 'U', 'S', '_', 'A', 'S', 'S', 'I', 'G', 'N']);
    reveal_strlit("MULTIPLY");
    assert("MULTIPLY"@ =~= seq!['M', 'U', 'L', 'T', 'I', 'P', 'L', 'Y']);
    reveal_strlit("MULTIPLY_ASSIGN");
    assert("MULTIPLY_ASSIGN"@ =~= seq!['M', 'U', 'L', 'T', 'I', 'P', 'L', 'Y', '_', 'A', 'S', 'S', 'I', 'G', 'N']);
    reveal_strlit("PLUS");
    assert("PLUS"@ =~= seq!['P', 'L', 'U', 'S']);
    reveal_strlit("PLUS_ASSIGN");
    assert("PLUS_ASSIGN"@ =~= seq!['P', 'L', 'U', 'S', '_', 'A', 'S', 'S', 'I', 'G', 'N']);
    reveal_strlit("RIGHT_SHIFT_ASSIGN");
    assert("RIGHT_SHIFT_ASSIGN"@ =~= seq!['R', 'I', 'G', 'H', 'T', '_', 'S', 'H', 'I', 'F', 'T', '_', 'A', 'S', 'S', 'I', 'G', 'N']);
    reveal_strlit("SEMICOLON");
    assert("SEMICOLON"@ =~= seq!['S', 'E', 'M', 'I', 'C', 'O', 'L', 'O', 'N']);
    assert(symbol_table()[0].0 == "SEMICOLON");
    assert(symbol_table()[1].0 == "INCREMENT");
    assert(symbol_table()[2].0 == "DECREMENT");
    assert(symbol_table()[3].0 == "PLUS_ASSIGN");
    assert(symbol_table()[4].0 == "MINUS_ASSIGN");
    assert(symbol_table()[5].0 == "MULTIPLY_ASSIGN");
    assert(symbol_table()[6].0 == "DIVIDE_ASSIGN");
    assert(symbol_table()[7].0 == "MODULUS_ASSIGN");
    assert(symbol_table()[8].0 == "BITWISE_AND_ASSIGN");
    assert(symbol_table()[9].0 == "BITWISE_XOR_ASSIGN");
    assert(symbol_table()[10].0 == "BITWISE_NOT_ASSIGN");
    assert(symbol_table()[11].0 == "LEFT_SHIFT_ASSIGN");
    assert(symbol_table()[12].0 == "RIGHT_SHIFT_ASSIGN");
    assert(symbol_table()[13].0 == "PLUS");
    assert(symbol_table()[14].0 == "MINUS");
    assert(symbol_table()[15].0 == "MULTIPLY");
    assert(symbol_table()[16].0 == "DIVIDE");
    assert(symbol_table()[17].0 == "MODULUS");
    assert(symbol_table()[18].0 == "LOGICAL_AND");
    assert forall|j: int| 0 <= j < 18 implies (#[trigger] symbol_table()[j]).0@ != symbol_table()[18].0@ by {
        if j == 0 {
            assert(symbol_table()[0].0@ == "SEMICOLON"@);
        }
        if j == 1 {
            assert(symbol_table()[1].0@ == "INCREMENT"@);
        }
        if j == 2 {
            assert(symbol_table()[2].0@ == "DECREMENT"@);
        }
        if j == 3 {
            assert(symbol_table()[3].0@ == "PLUS_ASSIGN"@);
        }
        if j == 4 {
            assert(symbol_table()[4].0@ == "MINUS_ASSIGN"@);
        }
        if j == 5 {
            assert(symbol_table()[5].0@ == "MULTIPLY_ASSIGN"@);
        }
        if j == 6 {
            assert(symbol_table()[6].0@ == "DIVIDE_ASSIGN"@);
        }
        if j == 7 {
            assert(symbol_table()[7].0@ == "MODULUS_ASSIGN"@);
        }
        if j == 8 {
            assert(symbol_table()[8].0@ == "BITWISE_AND_ASSIGN"@);
        }
        if j == 9 {
            assert(symbol_table()[9].0@ == "BITWISE_XOR_ASSIGN"@);
        }
        if j == 10 {
            assert(symbol_table()[10].0@ == "BITWISE_NOT_ASSIGN"@);
        }
        if j == 11 {
            assert(symbol_table()[11].0@ == "LEFT_SHIFT_ASSIGN"@);
        }
        if j == 12 {
            assert(symbol_table()[12].0@ == "RIGHT_SHIFT_ASSIGN"@);
        }
        if j == 13 {
            assert(symbol_table()[13].0@ == "PLUS"@);
        }
        if j == 14 {
            assert(symbol_table()[14].0@ == "MINUS"@);
        }
        if j == 15 {
            assert(symbol_table()[15].0@ == "MULTIPLY"@);
        }
        if j == 16 {
            assert(symbol_table()[16].0@ == "DIVIDE"@);
        }
        if j == 17 {
            assert(symbol_table()[17].0@ == "MODULUS"@);
        }
    }
}

proof fn lemma_key_first_19()
    ensures
        forall|j: int| 0 <= j < 19 ==> (#[trigger] symbol_table()[j]).0@ != symbol_table()[19].0@,
{
    reveal_strlit("BITWISE_AND");
    assert("BITWISE_AND"@ =~= seq!['B', 'I', 'T', 'W', 'I', 'S', 'E', '_', 'A', 'N', 'D']);
    reveal_strlit("BITWISE_AND_ASSIGN");
    assert("BITWISE_AND_ASSIGN"@ =~= seq!['B', 'I', 'T', 'W', 'I', 'S', 'E', '_', 'A', 'N', 'D', '_', 'A', 'S', 'S', 'I', 'G', 'N']);
    reveal_strlit("BITWISE_NOT_ASSIGN");
    assert("BITWISE_NOT_ASSIGN"@ =~= seq!['B', 'I', 'T', 'W', 'I', 'S', 'E', '_', 'N', 'O', 'T', '_', 'A', 'S', 'S', 'I', 'G', 'N']);
    reveal_strlit("BITWISE_XOR_ASSIGN");
    assert("BITWISE_XOR_ASSIGN"@ =~= seq!['B', 'I', 'T', 'W', 'I', 'S', 'E', '_', 'X', 'O', 'R', '_', 'A', 'S', 'S', 'I', 'G', 'N']);
    reveal_strlit("DECREMENT");
    assert("DECREMENT"@ =~= seq!['D', 'E', 'C', 'R', 'E', 'M', 'E', 'N', 'T']);
    reveal_strlit("DIVIDE");
    assert("DIVIDE"@ =~= seq!['D', 'I', 'V', 'I', 'D', 'E']);
    reveal_strlit("DIVIDE_ASSIGN");
    assert("DIVIDE_ASSIGN"@ =~= seq!['D', 'I', 'V', 'I', 'D', 'E', '_', 'A', 'S', 'S', 'I', 'G', 'N']);
    reveal_strlit("INCREMENT");
    assert("INCREMENT"@ =~= seq!['I', 'N', 'C', 'R', 'E', 'M', 'E', 'N', 'T']);
    reveal_strlit("LEFT_SHIFT_ASSIGN");
    assert("LEFT_SHIFT_ASSIGN"@ =~= seq!['L', 'E', 'F', 'T', '_', 'S', 'H', 'I', 'F', 'T', '_', 'A', 'S', 'S', 'I', 'G', 'N']);
    reveal_strlit("LOGICAL_AND");
    assert("LOGICAL_AND"@ =~= seq!['L', 'O', 'G', 'I', 'C', 'A', 'L', '_', 'A', 'N', 'D']);
    reveal_strlit("MINUS");
    assert("MINUS"@ =~= seq!['M', 'I', 'N', 'U', 'S']);
    reveal_strlit("MINUS_ASSIGN");
    assert("MINUS_ASSIGN"@ =~= seq!['M', 'I', 'N', 'U', 'S', '_', 'A', 'S', 'S', 'I', 'G', 'N']);
    reveal_strlit("MODULUS");
    assert("MODULUS"@ =~= seq!['M', 'O', 'D', 'U', 'L', 'U', 'S']);
    reveal_strlit("MODULUS_ASSIGN");
    assert("MODULUS_ASSIGN"@ =~= seq!['M', 'O', 'D', 'U', 'L', 'U', 'S', '_', 'A', 'S', 'S', 'I', 'G', 'N']);
    reveal_strlit("MULTIPLY");
    assert("MULTIPLY"@ =~= seq!['M', 'U', 'L', 'T', 'I', 'P', 'L', 'Y']);
    reveal_strlit("MULTIPLY_ASSIGN");
    assert("MULTIPLY_ASSIGN"@ =~= seq!['M', 'U', 'L', 'T', 'I', 'P', 'L', 'Y', '_', 'A', 'S', 'S', 'I', 'G', 'N']);
    reveal_strlit("PLUS");
    assert("PLUS"@ =~= seq!['P', 'L', 'U', 'S']);
    reveal_strlit("PLUS_ASSIGN");
    assert("PLUS_ASSIGN"@ =~= seq!['P', 'L', 'U', 'S', '_', 'A', 'S', 'S', 'I', 'G', 'N']);
    reveal_strlit("RIGHT_SHIFT_ASSIGN");
    assert("RIGHT_SHIFT_ASSIGN"@ =~= seq!['R', 'I', 'G', 'H', 'T', '_', 'S', 'H', 'I', 'F', 'T', '_', 'A', 'S', 'S', 'I', 'G', 'N']);
    reveal_strlit("SEMICOLON");
    assert("SEMICOLON"@ =~= seq!['S', 'E', 'M', 'I', 'C', 'O', 'L', 'O', 'N']);
    assert(symbol_table()[0].0 == "SEMICOLON");
    assert(symbol_table()[1].0 == "INCREMENT");
    assert(symbol_table()[2].0 == "DECREMENT");
    assert(symbol_table()[3].0 == "PLUS_ASSIGN");
    assert(symbol_table()[4].0 == "MINUS_ASSIGN");
    assert(symbol_table()[5].0 == "MULTIPLY_ASSIGN");
    assert(symbol_table()[6].0 == "DIVIDE_ASSIGN");
    assert(symbol_table()[7].0 == "MODULUS_ASSIGN");
    assert(symbol_table()[8].0 == "BITWISE_AND_ASSIGN");
    assert(symbol_table()[9].0 == "BITWISE_XOR_ASSIGN");
    assert(symbol_table()[10].0 == "BITWISE_NOT_ASSIGN");
    assert(symbol_table()[11].0 == "LEFT_SHIFT_ASSIGN");
    assert(symbol_table()[12].0 == "RIGHT_SHIFT_ASSIGN");
    assert(symbol_table()[13].0 == "PLUS");
    assert(symbol_table()[14].0 == "MINUS");
    assert(symbol_table()[15].0 == "MULTIPLY");
    assert(symbol_table()[16].0 == "DIVIDE");
    assert(symbol_table()[17].0 == "MODULUS");
    assert(symbol_table()[18].0 == "LOGICAL_AND");
    assert(symbol_table()[19].0 == "BITWISE_AND");
    assert forall|j: int| 0 <= j < 19 implies (#[trigger] symbol_table()[j]).0@ != symbol_table()[19].0@ by {
        if j == 0 {
            assert(symbol_table()[0].0@ == "SEMICOLON"@);
        }
        if j == 1 {
            assert(symbol_table()[1].0@ == "INCREMENT"@);
        }
        if j == 2 {
            assert(symbol_table()[2].0@ == "DECREMENT"@);
        }
        if j == 3 {
            assert(symbol_table()[3].0@ == "PLUS_ASSIGN"@);
        }
        if j == 4 {
            assert(symbol_table()[4].0@ == "MINUS_ASSIGN"@);
        }
        if j == 5 {
            assert(symbol_table()[5].0@ == "MULTIPLY_ASSIGN"@);
        }
        if j == 6 {
            assert(symbol_table()[6].0@ == "DIVIDE_ASSIGN"@);
        }
        if j == 7 {
            assert(symbol_table()[7].0@ == "MODULUS_ASSIGN"@);
        }
        if j == 8 {
            assert(symbol_table()[8].0@ == "BITWISE_AND_ASSIGN"@);
        }
        if j == 9 {
            assert(symbol_table()[9].0@ == "BITWISE_XOR_ASSIGN"@);
        }
        if j == 10 {
            assert(symbol_table()[10].0@ == "BITWISE_NOT_ASSIGN"@);
        }
        if j == 11 {
            assert(symbol_table()[11].0@ == "LEFT_SHIFT_ASSIGN"@);
        }
        if j == 12 {
            assert(symbol_table()[12].0@ == "RIGHT_SHIFT_ASSIGN"@);
        }
        if j == 13 {
            assert(symbol_table()[13].0@ == "PLUS"@);
        }
        if j == 14 {
            assert(symbol_table()[14].0@ == "MINUS"@);
        }
        if j == 15 {
            assert(symbol_table()[15].0@ == "MULTIPLY"@);
        }
        if j == 16 {
            assert(symbol_table()[16].0@ == "DIVIDE"@);
        }
        if j == 17 {
            assert(symbol_table()[17].0@ == "MODULUS"@);
        }
        if j == 18 {
            assert(symbol_table()[18].0@ == "LOGICAL_AND"@);
        }
    }
}

proof fn lemma_key_first_20()
    ensures
        forall|j: int| 0 <= j < 20 ==> (#[trigger] symbol_table()[j]).0@ != symbol_table()[20].0@,
{
    reveal_strlit("BITWISE_AND");
    assert("BITWISE_AND"@ =~= seq!['B', 'I', 'T', 'W', 'I', 'S', 'E', '_', 'A', 'N', 'D']);
    reveal_strlit("BITWISE_AND_ASSIGN");
    assert("BITWISE_AND_ASSIGN"@ =~= seq!['B', 'I', 'T', 'W', 'I', 'S', 'E', '_', 'A', 'N', 'D', '_', 'A', 'S', 'S', 'I', 'G', 'N']);
    reveal_strlit("BITWISE_NOT_ASSIGN");
    assert("BITWISE_NOT_ASSIGN"@ =~= seq!['B', 'I', 'T', 'W', 'I', 'S', 'E', '_', 'N', 'O', 'T', '_', 'A', 'S', 'S', 'I', 'G', 'N']);
    reveal_strlit("BITWISE_XOR");
    assert("BITWISE_XOR"@ =~= seq!['B', 'I', 'T', 'W', 'I', 'S', 'E', '_', 'X', 'O', 'R']);
    reveal_strlit("BITWISE_XOR_ASSIGN");
    assert("BITWISE_XOR_ASSIGN"@ =~= seq!['B', 'I', 'T', 'W', 'I', 'S', 'E', '_', 'X', 'O', 'R', '_', 'A', 'S', 'S', 'I', 'G', 'N']);
    reveal_strlit("DECREMENT");
    assert("DECREMENT"@ =~= seq!['D', 'E', 'C', 'R', 'E', 'M', 'E', 'N', 'T']);
    reveal_strlit("DIVIDE");
    assert("DIVIDE"@ =~= seq!['D', 'I', 'V', 'I', 'D', 'E']);
    reveal_strlit("DIVIDE_ASSIGN");
    assert("DIVIDE_ASSIGN"@ =~= seq!['D', 'I', 'V', 'I', 'D', 'E', '_', 'A', 'S', 'S', 'I', 'G', 'N']);
    reveal_strlit("INCREMENT");
    assert("INCREMENT"@ =~= seq!['I', 'N', 'C', 'R', 'E', 'M', 'E', 'N', 'T']);
    reveal_strlit("LEFT_SHIFT_ASSIGN");
    assert("LEFT_SHIFT_ASSIGN"@ =~= seq!['L', 'E', 'F', 'T', '_', 'S', 'H', 'I', 'F', 'T', '_', 'A', 'S', 'S', 'I', 'G', 'N']);
    reveal_strlit("LOGICAL_AND");
    assert("LOGICAL_AND"@ =~= seq!['L', 'O', 'G', 'I', 'C', 'A', 'L', '_', 'A', 'N', 'D']);
    reveal_strlit("MINUS");
    assert("MINUS"@ =~= seq!['M', 'I', 'N', 'U', 'S']);
    reveal_strlit("MINUS_ASSIGN");
    assert("MINUS_ASSIGN"@ =~= seq!['M', 'I', 'N', 'U', 'S', '_', 'A', 'S', 'S', 'I', 'G', 'N']);
    reveal_strlit("MODULUS");
    assert("MODULUS"@ =~= seq!['M', 'O', 'D', 'U', 'L', 'U', 'S']);
    reveal_strlit("MODULUS_ASSIGN");
    assert("MODULUS_ASSIGN"@ =~= seq!['M', 'O', 'D', 'U', 'L', 'U', 'S', '_', 'A', 'S', 'S', 'I', 'G', 'N']);
    reveal_strlit("MULTIPLY");
    assert("MULTIPLY"@ =~= seq!['M', 'U', 'L', 'T', 'I', 'P', 'L', 'Y']);
    reveal_strlit("MULTIPLY_ASSIGN");
    assert("MULTIPLY_ASSIGN"@ =~= seq!['M', 'U', 'L', 'T', 'I', 'P', 'L', 'Y', '_', 'A', 'S', 'S', 'I', 'G', 'N']);
    reveal_strlit("PLUS");
    assert("PLUS"@ =~= seq!['P', 'L', 'U', 'S']);
    reveal_strlit("PLUS_ASSIGN");
    assert("PLUS_ASSIGN"@ =~= seq!['P', 'L', 'U', 'S', '_', 'A', 'S', 'S', 'I', 'G', 'N']);
    reveal_strlit("RIGHT_SHIFT_ASSIGN");
    assert("RIGHT_SHIFT_ASSIGN"@ =~= seq!['R', 'I', 'G', 'H', 'T', '_', 'S', 'H', 'I', 'F', 'T', '_', 'A', 'S', 'S', 'I', 'G', 'N']);
    reveal_strlit("SEMICOLON");
    assert("SEMICOLON"@ =~= seq!['S', 'E', 'M', 'I', 'C', 'O', 'L', 'O', 'N']);
    assert(symbol_table()[0].0 == "SEMICOLON");
    assert(symbol_table()[1].0 == "INCREMENT");
    assert(symbol_table()[2].0 == "DECREMENT");
    assert(symbol_table()[3].0 == "PLUS_ASSIGN");
    assert(symbol_table()[4].0 == "MINUS_ASSIGN");
    assert(symbol_table()[5].0 == "MULTIPLY_ASSIGN");
    assert(symbol_table()[6].0 == "DIVIDE_ASSIGN");
    assert(symbol_table()[7].0 == "MODULUS_ASSIGN");
    assert(symbol_table()[8].0 == "BITWISE_AND_ASSIGN");
    assert(symbol_table()[9].0 == "BITWISE_XOR_ASSIGN");
    assert(symbol_table()[10].0 == "BITWISE_NOT_ASSIGN");
    assert(symbol_table()[11].0 == "LEFT_SHIFT_ASSIGN");
    assert(symbol_table()[12].0 == "RIGHT_SHIFT_ASSIGN");
    assert(symbol_table()[13].0 == "PLUS");
    assert(symbol_table()[14].0 == "MINUS");
    assert(symbol_table()[15].0 == "MULTIPLY");
    assert(symbol_table()[16].0 == "DIVIDE");
    assert(symbol_table()[17].0 == "MODULUS");
    assert(symbol_table()[18].0 == "LOGICAL_AND");
    assert(symbol_table()[19].0 == "BITWISE_AND");
    assert(symbol_table()[20].0 == "BITWISE_XOR");
    assert forall|j: int| 0 <= j < 20 implies (#[trigger] symbol_table()[j]).0@ != symbol_table()[20].0@ by {
        if j == 0 {
            assert(symbol_table()[0].0@ == "SEMICOLON"@);
        }
        if j == 1 {
            assert(symbol_table()[1].0@ == "INCREMENT"@);
        }
        if j == 2 {
            assert(symbol_table()[2].0@ == "DECREMENT"@);
        }
        if j == 3 {
            assert(symbol_table()[3].0@ == "PLUS_ASSIGN"@);
        }
        if j == 4 {
            assert(symbol_table()[4].0@ == "MINUS_ASSIGN"@);
        }
        if j == 5 {
            assert(symbol_table()[5].0@ == "MULTIPLY_ASSIGN"@);
        }
        if j == 6 {
            assert(symbol_table()[6].0@ == "DIVIDE_ASSIGN"@);
        }
        if j == 7 {
            assert(symbol_table()[7].0@ == "MODULUS_ASSIGN"@);
        }
        if j == 8 {
            assert(symbol_table()[8].0@ == "BITWISE_AND_ASSIGN"@);
        }
        if j == 9 {
            assert(symbol_table()[9].0@ == "BITWISE_XOR_ASSIGN"@);
        }
        if j == 10 {
            assert(symbol_table()[10].0@ == "BITWISE_NOT_ASSIGN"@);
        }
        if j == 11 {
            assert(symbol_table()[11].0@ == "LEFT_SHIFT_ASSIGN"@);
        }
        if j == 12 {
            assert(symbol_table()[12].0@ == "RIGHT_SHIFT_ASSIGN"@);
        }
        if j == 13 {
            assert(symbol_table()[13].0@ == "PLUS"@);
        }
        if j == 14 {
            assert(symbol_table()[14].0@ == "MINUS"@);
        }
        if j == 15 {
            assert(symbol_table()[15].0@ == "MULTIPLY"@);
        }
        if j == 16 {
            assert(symbol_table()[16].0@ == "DIVIDE"@);
        }
        if j == 17 {
            assert(symbol_table()[17].0@ == "MODULUS"@);
        }
        if j == 18 {
            assert(symbol_table()[18].0@ == "LOGICAL_AND"@);
        }
        if j == 19 {
            assert(symbol_table()[19].0@ == "BITWISE_AND"@);
        }
    }
}

proof fn lemma_key_first_21()
    ensures
        forall|j: int| 0 <= j < 21 ==> (#[trigger] symbol_table()[j]).0@ != symbol_table()[21].0@,
{
    reveal_strlit("BITWISE_AND");
    assert("BITWISE_AND"@ =~= seq!['B', 'I', 'T', 'W', 'I', 'S', 'E', '_', 'A', 'N', 'D']);
    reveal_strlit("BITWISE_AND_ASSIGN");
    assert("BITWISE_AND_ASSIGN"@ =~= seq!['B', 'I', 'T', 'W', 'I', 'S', 'E', '_', 'A', 'N', 'D', '_', 'A', 'S', 'S', 'I', 'G', 'N']);
    reveal_strlit("BITWISE_NOT");
    assert("BITWISE_NOT"@ =~= seq!['B', 'I', 'T', 'W', 'I', 'S', 'E', '_', 'N', 'O', 'T']);
    reveal_strlit("BITWISE_NOT_ASSIGN");
    assert("BITWISE_NOT_ASSIGN"@ =~= seq!['B', 'I', 'T', 'W', 'I', 'S', 'E', '_', 'N', 'O', 'T', '_', 'A', 'S', 'S', 'I', 'G', 'N']);
    reveal_strlit("BITWISE_XOR");
    assert("BITWISE_XOR"@ =~= seq!['B', 'I', 'T', 'W', 'I', 'S', 'E', '_', 'X', 'O', 'R']);
    reveal_strlit("BITWISE_XOR_ASSIGN");
    assert("BITWISE_XOR_ASSIGN"@ =~= seq!['B', 'I', 'T', 'W', 'I', 'S', 'E', '_', 'X', 'O', 'R', '_', 'A', 'S', 'S', 'I', 'G', 'N']);
    reveal_strlit("DECREMENT");
    assert("DECREMENT"@ =~= seq!['D', 'E', 'C', 'R', 'E', 'M', 'E', 'N', 'T']);
    reveal_strlit("DIVIDE");
    assert("DIVIDE"@ =~= seq!['D', 'I', 'V', 'I', 'D', 'E']);
    reveal_strlit("DIVIDE_ASSIGN");
    assert("DIVIDE_ASSIGN"@ =~= seq!['D', 'I', 'V', 'I', 'D', 'E', '_', 'A', 'S', 'S', 'I', 'G', 'N']);
    reveal_strlit("INCREMENT");
    assert("INCREMENT"@ =~= seq!['I', 'N', 'C', 'R', 'E', 'M', 'E', 'N', 'T']);
    reveal_strlit("LEFT_SHIFT_ASSIGN");
    assert("LEFT_SHIFT_ASSIGN"@ =~= seq!['L', 'E', 'F', 'T', '_', 'S', 'H', 'I', 'F', 'T', '_', 'A', 'S', 'S', 'I', 'G', 'N']);
    reveal_strlit("LOGICAL_AND");
    assert("LOGICAL_AND"@ =~= seq!['L', 'O', 'G', 'I', 'C', 'A', 'L', '_', 'A', 'N', 'D']);
    reveal_strlit("MINUS");
    assert("MINUS"@ =~= seq!['M', 'I', 'N', 'U', 'S']);
    reveal_strlit("MINUS_ASSIGN");
    assert("MINUS_ASSIGN"@ =~= seq!['M', 'I', 'N', 'U', 'S', '_', 'A', 'S', 'S', 'I', 'G', 'N']);
    reveal_strlit("MODULUS");
    assert("MODULUS"@ =~= seq!['M', 'O', 'D', 'U', 'L', 'U', 'S']);
    reveal_strlit("MODULUS_ASSIGN");
    assert("MODULUS_ASSIGN"@ =~= seq!['M', 'O', 'D', 'U', 'L', 'U', 'S', '_', 'A', 'S', 'S', 'I', 'G', 'N']);
    reveal_strlit("MULTIPLY");
    assert("MULTIPLY"@ =~= seq!['M', 'U', 'L', 'T', 'I', 'P', 'L', 'Y']);
    reveal_strlit("MULTIPLY_ASSIGN");
    assert("MULTIPLY_ASSIGN"@ =~= seq!['M', 'U', 'L', 'T', 'I', 'P', 'L', 'Y', '_', 'A', 'S', 'S', 'I', 'G', 'N']);
    reveal_strlit("PLUS");
    assert("PLUS"@ =~= seq!['P', 'L', 'U', 'S']);
    reveal_strlit("PLUS_ASSIGN");
    assert("PLUS_ASSIGN"@ =~= seq!['P', 'L', 'U', 'S', '_', 'A', 'S', 'S', 'I', 'G', 'N']);
    reveal_strlit("RIGHT_SHIFT_ASSIGN");
    assert("RIGHT_SHIFT_ASSIGN"@ =~= seq!['R', 'I', 'G', 'H', 'T', '_', 'S', 'H', 'I', 'F', 'T', '_', 'A', 'S', 'S', 'I', 'G', 'N']);
    reveal_strlit("SEMICOLON");
    assert("SEMICOLON"@ =~= seq!['S', 'E', 'M', 'I', 'C', 'O', 'L', 'O', 'N']);
    assert(symbol_table()[0].0 == "SEMICOLON");
    assert(symbol_table()[1].0 == "INCREMENT");
    assert(symbol_table()[2].0 == "DECREMENT");
    assert(symbol_table()[3].0 == "PLUS_ASSIGN");
    assert(symbol_table()[4].0 == "MINUS_ASSIGN");
    assert(symbol_table()[5].0 == "MULTIPLY_ASSIGN");
    assert(symbol_table()[6].0 == "DIVIDE_ASSIGN");
    assert(symbol_table()[7].0 == "MODULUS_ASSIGN");
    assert(symbol_table()[8].0 == "BITWISE_AND_ASSIGN");
    assert(symbol_table()[9].0 == "BITWISE_XOR_ASSIGN");
    assert(symbol_table()[10].0 == "BITWISE_NOT_ASSIGN");
    assert(symbol_table()[11].0 == "LEFT_SHIFT_ASSIGN");
    assert(symbol_table()[12].0 == "RIGHT_SHIFT_ASSIGN");
    assert(symbol_table()[13].0 == "PLUS");
    assert(symbol_table()[14].0 == "MINUS");
    assert(symbol_table()[15].0 == "MULTIPLY");
    assert(symbol_table()[16].0 == "DIVIDE");
    assert(symbol_table()[17].0 == "MODULUS");
    assert(symbol_table()[18].0 == "LOGICAL_AND");
    assert(symbol_table()[19].0 == "BITWISE_AND");
    assert(symbol_table()[20].0 == "BITWISE_XOR");
    assert(symbol_table()[21].0 == "BITWISE_NOT");
    assert forall|j: int| 0 <= j < 21 implies (#[trigger] symbol_table()[j]).0@ != symbol_table()[21].0@ by {
        if j == 0 {
            assert(symbol_table()[0].0@ == "SEMICOLON"@);
        }
        if j == 1 {
            assert(symbol_table()[1].0@ == "INCREMENT"@);
        }
        if j == 2 {
            assert(symbol_table()[2].0@ == "DECREMENT"@);
        }
        if j == 3 {
            assert(symbol_table()[3].0@ == "PLUS_ASSIGN"@);
        }
        if j == 4 {
            assert(symbol_table()[4].0@ == "MINUS_ASSIGN"@);
        }
        if j == 5 {
            assert(symbol_table()[5].0@ == "MULTIPLY_ASSIGN"@);
        }
        if j == 6 {
            assert(symbol_table()[6].0@ == "DIVIDE_ASSIGN"@);
        }
        if j == 7 {
            assert(symbol_table()[7].0@ == "MODULUS_ASSIGN"@);
        }
        if j == 8 {
            assert(symbol_table()[8].0@ == "BITWISE_AND_ASSIGN"@);
        }
        if j == 9 {
            assert(symbol_table()[9].0@ == "BITWISE_XOR_ASSIGN"@);
        }
        if j == 10 {
            assert(symbol_table()[10].0@ == "BITWISE_NOT_ASSIGN"@);
        }
        if j == 11 {
            assert(symbol_table()[11].0@ == "LEFT_SHIFT_ASSIGN"@);
        }
        if j == 12 {
            assert(symbol_table()[12].0@ == "RIGHT_SHIFT_ASSIGN"@);
        }
        if j == 13 {
            assert(symbol_table()[13].0@ == "PLUS"@);
        }
        if j == 14 {
            assert(symbol_table()[14].0@ == "MINUS"@);
        }
        if j == 15 {
            assert(symbol_table()[15].0@ == "MULTIPLY"@);
        }
        if j == 16 {
            assert(symbol_table()[16].0@ == "DIVIDE"@);
        }
        if j == 17 {
            assert(symbol_table()[17].0@ == "MODULUS"@);
        }
        if j == 18 {
            assert(symbol_table()[18].0@ == "LOGICAL_AND"@);
        }
        if j == 19 {
            assert(symbol_table()[19].0@ == "BITWISE_AND"@);
        }
        if j == 20 {
            assert(symbol_table()[20].0@ == "BITWISE_XOR"@);
        }
    }
}

proof fn lemma_key_first_22()
    ensures
        forall|j: int| 0 <= j < 22 ==> (#[trigger] symbol_table()[j]).0@ != symbol_table()[22].0@,
{
    reveal_strlit("BITWISE_AND");
    assert("BITWISE_AND"@ =~= seq!['B', 'I', 'T', 'W', 'I', 'S', 'E', '_', 'A', 'N', 'D']);
    reveal_strlit("BITWISE_AND_ASSIGN");
    assert("BITWISE_AND_ASSIGN"@ =~= seq!['B', 'I', 'T', 'W', 'I', 'S', 'E', '_', 'A', 'N', 'D', '_', 'A', 'S', 'S', 'I', 'G', 'N']);
    reveal_strlit("BITWISE_NOT");
    assert("BITWISE_NOT"@ =~= seq!['B', 'I', 'T', 'W', 'I', 'S', 'E', '_', 'N', 'O', 'T']);
    reveal_strlit("BITWISE_NOT_ASSIGN");
    assert("BITWISE_NOT_ASSIGN"@ =~= seq!['B', 'I', 'T', 'W', 'I', 'S', 'E', '_', 'N', 'O', 'T', '_', 'A', 'S', 'S', 'I', 'G', 'N']);
    reveal_strlit("BITWISE_XOR");
    assert("BITWISE_XOR"@ =~= seq!['B', 'I', 'T', 'W', 'I', 'S', 'E', '_', 'X', 'O', 'R']);
    reveal_strlit("BITWISE_XOR_ASSIGN");
    assert("BITWISE_XOR_ASSIGN"@ =~= seq!['B', 'I', 'T', 'W', 'I', 'S', 'E', '_', 'X', 'O', 'R', '_', 'A', 'S', 'S', 'I', 'G', 'N']);
    reveal_strlit("DECREMENT");
    assert("DECREMENT"@ =~= seq!['D', 'E', 'C', 'R', 'E', 'M', 'E', 'N', 'T']);
    reveal_strlit("DIVIDE");
    assert("DIVIDE"@ =~= seq!['D', 'I', 'V', 'I', 'D', 'E']);
    reveal_strlit("DIVIDE_ASSIGN");
    assert("DIVIDE_ASSIGN"@ =~= seq!['D', 'I', 'V', 'I', 'D', 'E', '_', 'A', 'S', 'S', 'I', 'G', 'N']);
    reveal_strlit("INCREMENT");
    assert("INCREMENT"@ =~= seq!['I', 'N', 'C', 'R', 'E', 'M', 'E', 'N', 'T']);
    reveal_strlit("LEFT_SHIFT");
    assert("LEFT_SHIFT"@ =~= seq!['L', 'E', 'F', 'T', '_', 'S', 'H', 'I', 'F', 'T']);
    reveal_strlit("LEFT_SHIFT_ASSIGN");
    assert("LEFT_SHIFT_ASSIGN"@ =~= seq!['L', 'E', 'F', 'T', '_', 'S', 'H', 'I', 'F', 'T', '_', 'A', 'S', 'S', 'I', 'G', 'N']);
    reveal_strlit("LOGICAL_AND");
    assert("LOGICAL_AND"@ =~= seq!['L', 'O', 'G', 'I', 'C', 'A', 'L', '_', 'A', 'N', 'D']);
    reveal_strlit("MINUS");
    assert("MINUS"@ =~= seq!['M', 'I', 'N', 'U', 'S']);
    reveal_strlit("MINUS_ASSIGN");
    assert("MINUS_ASSIGN"@ =~= seq!['M', 'I', 'N', 'U', 'S', '_', 'A', 'S', 'S', 'I', 'G', 'N']);
    reveal_strlit("MODULUS");
    assert("MODULUS"@ =~= seq!['M', 'O', 'D', 'U', 'L', 'U', 'S']);
    reveal_strlit("MODULUS_ASSIGN");
    assert("MODULUS_ASSIGN"@ =~= seq!['M', 'O', 'D', 'U', 'L', 'U', 'S', '_', 'A', 'S', 'S', 'I', 'G', 'N']);
    reveal_strlit("MULTIPLY");
    assert("MULTIPLY"@ =~= seq!['M', 'U', 'L', 'T', 'I', 'P', 'L', 'Y']);
    reveal_strlit("MULTIPLY_ASSIGN");
    assert("MULTIPLY_ASSIGN"@ =~= seq!['M', 'U', 'L', 'T', 'I', 'P', 'L', 'Y', '_', 'A', 'S', 'S', 'I', 'G', 'N']);
    reveal_strlit("PLUS");
    assert("PLUS"@ =~= seq!['P', 'L', 'U', 'S']);
    reveal_strlit("PLUS_ASSIGN");
    assert("PLUS_ASSIGN"@ =~= seq!['P', 'L', 'U', 'S', '_', 'A', 'S', 'S', 'I', 'G', 'N']);
    reveal_strlit("RIGHT_SHIFT_ASSIGN");
    assert("RIGHT_SHIFT_ASSIGN"@ =~= seq!['R', 'I', 'G', 'H', 'T', '_', 'S', 'H', 'I', 'F', 'T', '_', 'A', 'S', 'S', 'I', 'G', 'N']);
    reveal_strlit("SEMICOLON");
    assert("SEMICOLON"@ =~= seq!['S', 'E', 'M', 'I', 'C', 'O', 'L', 'O', 'N']);
    assert(symbol_table()[0].0 == "SEMICOLON");
    assert(symbol_table()[1].0 == "INCREMENT");
    assert(symbol_table()[2].0 == "DECREMENT");
    assert(symbol_table()[3].0 == "PLUS_ASSIGN");
    assert(symbol_table()[4].0 == "MINUS_ASSIGN");
    assert(symbol_table()[5].0 == "MULTIPLY_ASSIGN");
    assert(symbol_table()[6].0 == "DIVIDE_ASSIGN");
    assert(symbol_table()[7].0 == "MODULUS_ASSIGN");
    assert(symbol_table()[8].0 == "BITWISE_AND_ASSIGN");
    assert(symbol_table()[9].0 == "BITWISE_XOR_ASSIGN");
    assert(symbol_table()[10].0 == "BITWISE_NOT_ASSIGN");
    assert(symbol_table()[11].0 == "LEFT_SHIFT_ASSIGN");
    assert(symbol_table()[12].0 == "RIGHT_SHIFT_ASSIGN");
    assert(symbol_table()[13].0 == "PLUS");
    assert(symbol_table()[14].0 == "MINUS");
    assert(symbol_table()[15].0 == "MULTIPLY");
    assert(symbol_table()[16].0 == "DIVIDE");
    assert(symbol_table()[17].0 == "MODULUS");
    assert(symbol_table()[18].0 == "LOGICAL_AND");
    assert(symbol_table()[19].0 == "BITWISE_AND");
    assert(symbol_table()[20].0 == "BITWISE_XOR");
    assert(symbol_table()[21].0 == "BITWISE_NOT");
    assert(symbol_table()[22].0 == "LEFT_SHIFT");
    assert forall|j: int| 0 <= j < 22 implies (#[trigger] symbol_table()[j]).0@ != symbol_table()[22].0@ by {
        if j == 0 {
            assert(symbol_table()[0].0@ == "SEMICOLON"@);
        }
        if j == 1 {
            assert(symbol_table()[1].0@ == "INCREMENT"@);
        }
        if j == 2 {
            assert(symbol_table()[2].0@ == "DECREMENT"@);
        }
        if j == 3 {
            assert(symbol_table()[3].0@ == "PLUS_ASSIGN"@);
        }
        if j == 4 {
            assert(symbol_table()[4].0@ == "MINUS_ASSIGN"@);
        }
        if j == 5 {
            assert(symbol_table()[5].0@ == "MULTIPLY_ASSIGN"@);
        }
        if j == 6 {
            assert(symbol_table()[6].0@ == "DIVIDE_ASSIGN"@);
        }
        if j == 7 {
            assert(symbol_table()[7].0@ == "MODULUS_ASSIGN"@);
        }
        if j == 8 {
            assert(symbol_table()[8].0@ == "BITWISE_AND_ASSIGN"@);
        }
        if j == 9 {
            assert(symbol_table()[9].0@ == "BITWISE_XOR_ASSIGN"@);
        }
        if j == 10 {
            assert(symbol_table()[10].0@ == "BITWISE_NOT_ASSIGN"@);
        }
        if j == 11 {
            assert(symbol_table()[11].0@ == "LEFT_SHIFT_ASSIGN"@);
        }
        if j == 12 {
            assert(symbol_table()[12].0@ == "RIGHT_SHIFT_ASSIGN"@);
        }
        if j == 13 {
            assert(symbol_table()[13].0@ == "PLUS"@);
        }
        if j == 14 {
            assert(symbol_table()[14].0@ == "MINUS"@);
        }
        if j == 15 {
            assert(symbol_table()[15].0@ == "MULTIPLY"@);
        }
        if j == 16 {
            assert(symbol_table()[16].0@ == "DIVIDE"@);
        }
        if j == 17 {
            assert(symbol_table()[17].0@ == "MODULUS"@);
        }
        if j == 18 {
            assert(symbol_table()[18].0@ == "LOGICAL_AND"@);
        }
        if j == 19 {
            assert(symbol_table()[19].0@ == "BITWISE_AND"@);
        }
        if j == 20 {
            assert(symbol_table()[20].0@ == "BITWISE_XOR"@);
        }
        if j == 21 {
            assert(symbol_table()[21].0@ == "BITWISE_NOT"@);
        }
    }
}

proof fn lemma_key_first_23()
    ensures
        forall|j: int| 0 <= j < 23 ==> (#[trigger] symbol_table()[j]).0@ != symbol_table()[23].0@,
{
    reveal_strlit("BITWISE_AND");
    assert("BITWISE_AND"@ =~= seq!['B', 'I', 'T', 'W', 'I', 'S', 'E', '_', 'A', 'N', 'D']);
    reveal_strlit("BITWISE_AND_ASSIGN");
    assert("BITWISE_AND_ASSIGN"@ =~= seq!['B', 'I', 'T', 'W', 'I', 'S', 'E', '_', 'A', 'N', 'D', '_', 'A', 'S', 'S', 'I', 'G', 'N']);
    reveal_strlit("BITWISE_NOT");
    assert("BITWISE_NOT"@ =~= seq!['B', 'I', 'T', 'W', 'I', 'S', 'E', '_', 'N', 'O', 'T']);
    reveal_strlit("BITWISE_NOT_ASSIGN");
    assert("BITWISE_NOT_ASSIGN"@ =~= seq!['B', 'I', 'T', 'W', 'I', 'S', 'E', '_', 'N', 'O', 'T', '_', 'A', 'S', 'S', 'I', 'G', 'N']);
    reveal_strlit("BITWISE_XOR");
    assert("BITWISE_XOR"@ =~= seq!['B', 'I', 'T', 'W', 'I', 'S', 'E', '_', 'X', 'O', 'R']);
    reveal_strlit("BITWISE_XOR_ASSIGN");
    assert("BITWISE_XOR_ASSIGN"@ =~= seq!['B', 'I', 'T', 'W', 'I', 'S', 'E', '_', 'X', 'O', 'R', '_', 'A', 'S', 'S', 'I', 'G', 'N']);
    reveal_strlit("DECREMENT");
    assert("DECREMENT"@ =~= seq!['D', 'E', 'C', 'R', 'E', 'M', 'E', 'N', 'T']);
    reveal_strlit("DIVIDE");
    assert("DIVIDE"@ =~= seq!['D', 'I', 'V', 'I', 'D', 'E']);
    reveal_strlit("DIVIDE_ASSIGN");
    assert("DIVIDE_ASSIGN"@ =~= seq!['D', 'I', 'V', 'I', 'D', 'E', '_', 'A', 'S', 'S', 'I', 'G', 'N']);
    reveal_strlit("INCREMENT");
    assert("INCREMENT"@ =~= seq!['I', 'N', 'C', 'R', 'E', 'M', 'E', 'N', 'T']);
    reveal_strlit("LEFT_SHIFT");
    assert("LEFT_SHIFT"@ =~= seq!['L', 'E', 'F', 'T', '_', 'S', 'H', 'I', 'F', 'T']);
    reveal_strlit("LEFT_SHIFT_ASSIGN");
    assert("LEFT_SHIFT_ASSIGN"@ =~= seq!['L', 'E', 'F', 'T', '_', 'S', 'H', 'I', 'F', 'T', '_', 'A', 'S', 'S', 'I', 'G', 'N']);
    reveal_strlit("LOGICAL_AND");
    assert("LOGICAL_AND"@ =~= seq!['L', 'O', 'G', 'I', 'C', 'A', 'L', '_', 'A', 'N', 'D']);
    reveal_strlit("MINUS");
    assert("MINUS"@ =~= seq!['M', 'I', 'N', 'U', 'S']);
    reveal_strlit("MINUS_ASSIGN");
    assert("MINUS_ASSIGN"@ =~= seq!['M', 'I', 'N', 'U', 'S', '_', 'A', 'S', 'S', 'I', 'G', 'N']);
    reveal_strlit("MODULUS");
    assert("MODULUS"@ =~= seq!['M', 'O', 'D', 'U', 'L', 'U', 'S']);
    reveal_strlit("MODULUS_ASSIGN");
    assert("MODULUS_ASSIGN"@ =~= seq!['M', 'O', 'D', 'U', 'L', 'U', 'S', '_', 'A', 'S', 'S', 'I', 'G', 'N']);
    reveal_strlit("MULTIPLY");
    assert("MULTIPLY"@ =~= seq!['M', 'U', 'L', 'T', 'I', 'P', 'L', 'Y']);
    reveal_strlit("MULTIPLY_ASSIGN");
    assert("MULTIPLY_ASSIGN"@ =~= seq!['M', 'U', 'L', 'T', 'I', 'P', 'L', 'Y', '_', 'A', 'S', 'S', 'I', 'G', 'N']);
    reveal_strlit("PLUS");
    assert("PLUS"@ =~= seq!['P', 'L', 'U', 'S']);
    reveal_strlit("PLUS_ASSIGN");
    assert("PLUS_ASSIGN"@ =~= seq!['P', 'L', 'U', 'S', '_', 'A', 'S', 'S', 'I', 'G', 'N']);
    reveal_strlit("RIGHT_SHIFT");
    assert("RIGHT_SHIFT"@ =~= seq!['R', 'I', 'G', 'H', 'T', '_', 'S', 'H', 'I', 'F', 'T']);
    reveal_strlit("RIGHT_SHIFT_ASSIGN");
    assert("RIGHT_SHIFT_ASSIGN"@ =~= seq!['R', 'I', 'G', 'H', 'T', '_', 'S', 'H', 'I', 'F', 'T', '_', 'A', 'S', 'S', 'I', 'G', 'N']);
    reveal_strlit("SEMICOLON");
    assert("SEMICOLON"@ =~= seq!['S', 'E', 'M', 'I', 'C', 'O', 'L', 'O', 'N']);
    assert(symbol_table()[0].0 == "SEMICOLON");
    assert(symbol_table()[1].0 == "INCREMENT");
    assert(symbol_table()[2].0 == "DECREMENT");
    assert(symbol_table()[3].0 == "PLUS_ASSIGN");
    assert(symbol_table()[4].0 == "MINUS_ASSIGN");
    assert(symbol_table()[5].0 == "MULTIPLY_ASSIGN");
    assert(symbol_table()[6].0 == "DIVIDE_ASSIGN");
    assert(symbol_table()[7].0 == "MODULUS_ASSIGN");
    assert(symbol_table()[8].0 == "BITWISE_AND_ASSIGN");
    assert(symbol_table()[9].0 == "BITWISE_XOR_ASSIGN");
    assert(symbol_table()[10].0 == "BITWISE_NOT_ASSIGN");
    assert(symbol_table()[11].0 == "LEFT_SHIFT_ASSIGN");
    assert(symbol_table()[12].0 == "RIGHT_SHIFT_ASSIGN");
    assert(symbol_table()[13].0 == "PLUS");
    assert(symbol_table()[14].0 == "MINUS");
    assert(symbol_table()[15].0 == "MULTIPLY");
    assert(symbol_table()[16].0 == "DIVIDE");
    assert(symbol_table()[17].0 == "MODULUS");
    assert(symbol_table()[18].0 == "LOGICAL_AND");
    assert(symbol_table()[19].0 == "BITWISE_AND");
    assert(symbol_table()[20].0 == "BITWISE_XOR");
    assert(symbol_table()[21].0 == "BITWISE_NOT");
    assert(symbol_table()[22].0 == "LEFT_SHIFT");
    assert(symbol_table()[23].0 == "RIGHT_SHIFT");
    assert forall|j: int| 0 <= j < 23 implies (#[trigger] symbol_table()[j]).0@ != symbol_table()[23].0@ by {
        if j == 0 {
            assert(symbol_table()[0].0@ == "SEMICOLON"@);
        }
        if j == 1 {
            assert(symbol_table()[1].0@ == "INCREMENT"@);
        }
        if j == 2 {
            assert(symbol_table()[2].0@ == "DECREMENT"@);
        }
        if j == 3 {
            assert(symbol_table()[3].0@ == "PLUS_ASSIGN"@);
        }
        if j == 4 {
            assert(symbol_table()[4].0@ == "MINUS_ASSIGN"@);
        }
        if j == 5 {
            assert(symbol_table()[5].0@ == "MULTIPLY_ASSIGN"@);
        }
        if j == 6 {
            assert(symbol_table()[6].0@ == "DIVIDE_ASSIGN"@);
        }
        if j == 7 {
            assert(symbol_table()[7].0@ == "MODULUS_ASSIGN"@);
        }
        if j == 8 {
            assert(symbol_table()[8].0@ == "BITWISE_AND_ASSIGN"@);
        }
        if j == 9 {
            assert(symbol_table()[9].0@ == "BITWISE_XOR_ASSIGN"@);
        }
        if j == 10 {
            assert(symbol_table()[10].0@ == "BITWISE_NOT_ASSIGN"@);
        }
        if j == 11 {
            assert(symbol_table()[11].0@ == "LEFT_SHIFT_ASSIGN"@);
        }
        if j == 12 {
            assert(symbol_table()[12].0@ == "RIGHT_SHIFT_ASSIGN"@);
        }
        if j == 13 {
            assert(symbol_table()[13].0@ == "PLUS"@);
        }
        if j == 14 {
            assert(symbol_table()[14].0@ == "MINUS"@);
        }
        if j == 15 {
            assert(symbol_table()[15].0@ == "MULTIPLY"@);
        }
        if j == 16 {
            assert(symbol_table()[16].0@ == "DIVIDE"@);
        }
        if j == 17 {
            assert(symbol_table()[17].0@ == "MODULUS"@);
        }
        if j == 18 {
            assert(symbol_table()[18].0@ == "LOGICAL_AND"@);
        }
        if j == 19 {
            assert(symbol_table()[19].0@ == "BITWISE_AND"@);
        }
        if j == 20 {
            assert(symbol_table()[20].0@ == "BITWISE_XOR"@);
        }
        if j == 21 {
            assert(symbol_table()[21].0@ == "BITWISE_NOT"@);
        }
        if j == 22 {
            assert(symbol_table()[22].0@ == "LEFT_SHIFT"@);
        }
    }
}

proof fn lemma_key_first_24()
    ensures
        forall|j: int| 0 <= j < 24 ==> (#[trigger] symbol_table()[j]).0@ != symbol_table()[24].0@,
{
    reveal_strlit("BITWISE_AND");
    assert("BITWISE_AND"@ =~= seq!['B', 'I', 'T', 'W', 'I', 'S', 'E', '_', 'A', 'N', 'D']);
    reveal_strlit("BITWISE_AND_ASSIGN");
    assert("BITWISE_AND_ASSIGN"@ =~= seq!['B', 'I', 'T', 'W', 'I', 'S', 'E', '_', 'A', 'N', 'D', '_', 'A', 'S', 'S', 'I', 'G', 'N']);
    reveal_strlit("BITWISE_NOT");
    assert("BITWISE_NOT"@ =~= seq!['B', 'I', 'T', 'W', 'I', 'S', 'E', '_', 'N', 'O', 'T']);
    reveal_strlit("BITWISE_NOT_ASSIGN");
    assert("BITWISE_NOT_ASSIGN"@ =~= seq!['B', 'I', 'T', 'W', 'I', 'S', 'E', '_', 'N', 'O', 'T', '_', 'A', 'S', 'S', 'I', 'G', 'N']);
    reveal_strlit("BITWISE_XOR");
    assert("BITWISE_XOR"@ =~= seq!['B', 'I', 'T', 'W', 'I', 'S', 'E', '_', 'X', 'O', 'R']);
    reveal_strlit("BITWISE_XOR_ASSIGN");
    assert("BITWISE_XOR_ASSIGN"@ =~= seq!['B', 'I', 'T', 'W', 'I', 'S', 'E', '_', 'X', 'O', 'R', '_', 'A', 'S', 'S', 'I', 'G', 'N']);
    reveal_strlit("CIRCOM_L_ASSIGN");
    assert("CIRCOM_L_ASSIGN"@ =~= seq!['C', 'I', 'R', 'C', 'O', 'M', '_', 'L', '_', 'A', 'S', 'S', 'I', 'G', 'N']);
    reveal_strlit("DECREMENT");
    assert("DECREMENT"@ =~= seq!['D', 'E', 'C', 'R', 'E', 'M', 'E', 'N', 'T']);
    reveal_strlit("DIVIDE");
    assert("DIVIDE"@ =~= seq!['D', 'I', 'V', 'I', 'D', 'E']);
    reveal_strlit("DIVIDE_ASSIGN");
    assert("DIVIDE_ASSIGN"@ =~= seq!['D', 'I', 'V', 'I', 'D', 'E', '_', 'A', 'S', 'S', 'I', 'G', 'N']);
    reveal_strlit("INCREMENT");
    assert("INCREMENT"@ =~= seq!['I', 'N', 'C', 'R', 'E', 'M', 'E', 'N', 'T']);
    reveal_strlit("LEFT_SHIFT");
    assert("LEFT_SHIFT"@ =~= seq!['L', 'E', 'F', 'T', '_', 'S', 'H', 'I', 'F', 'T']);
    reveal_strlit("LEFT_SHIFT_ASSIGN");
    assert("LEFT_SHIFT_ASSIGN"@ =~= seq!['L', 'E', 'F', 'T', '_', 'S', 'H', 'I', 'F', 'T', '_', 'A', 'S', 'S', 'I', 'G', 'N']);
    reveal_strlit("LOGICAL_AND");
    assert("LOGICAL_AND"@ =~= seq!['L', 'O', 'G', 'I', 'C', 'A', 'L', '_', 'A', 'N', 'D']);
    reveal_strlit("MINUS");
    assert("MINUS"@ =~= seq!['M', 'I', 'N', 'U', 'S']);
    reveal_strlit("MINUS_ASSIGN");
    assert("MINUS_ASSIGN"@ =~= seq!['M', 'I', 'N', 'U', 'S', '_', 'A', 'S', 'S', 'I', 'G', 'N']);
    reveal_strlit("MODULUS");
    assert("MODULUS"@ =~= seq!['M', 'O', 'D', 'U', 'L', 'U', 'S']);
    reveal_strlit("MODULUS_ASSIGN");
    assert("MODULUS_ASSIGN"@ =~= seq!['M', 'O', 'D', 'U', 'L', 'U', 'S', '_', 'A', 'S', 'S', 'I', 'G', 'N']);
    reveal_strlit("MULTIPLY");
    assert("MULTIPLY"@ =~= seq!['M', 'U', 'L', 'T', 'I', 'P', 'L', 'Y']);
    reveal_strlit("MULTIPLY_ASSIGN");
    assert("MULTIPLY_ASSIGN"@ =~= seq!['M', 'U', 'L', 'T', 'I', 'P', 'L', 'Y', '_', 'A', 'S', 'S', 'I', 'G', 'N']);
    reveal_strlit("PLUS");
    assert("PLUS"@ =~= seq!['P', 'L', 'U', 'S']);
    reveal_strlit("PLUS_ASSIGN");
    assert("PLUS_ASSIGN"@ =~= seq!['P', 'L', 'U', 'S', '_', 'A', 'S', 'S', 'I', 'G', 'N']);
    reveal_strlit("RIGHT_SHIFT");
    assert("RIGHT_SHIFT"@ =~= seq!['R', 'I', 'G', 'H', 'T', '_', 'S', 'H', 'I', 'F', 'T']);
    reveal_strlit("RIGHT_SHIFT_ASSIGN");
    assert("RIGHT_SHIFT_ASSIGN"@ =~= seq!['R', 'I', 'G', 'H', 'T', '_', 'S', 'H', 'I', 'F', 'T', '_', 'A', 'S', 'S', 'I', 'G', 'N']);
    reveal_strlit("SEMICOLON");
    assert("SEMICOLON"@ =~= seq!['S', 'E', 'M', 'I', 'C', 'O', 'L', 'O', 'N']);
    assert(symbol_table()[0].0 == "SEMICOLON");
    assert(symbol_table()[1].0 == "INCREMENT");
    assert(symbol_table()[2].0 == "DECREMENT");
    assert(symbol_table()[3].0 == "PLUS_ASSIGN");
    assert(symbol_table()[4].0 == "MINUS_ASSIGN");
    assert(symbol_table()[5].0 == "MULTIPLY_ASSIGN");
    assert(symbol_table()[6].0 == "DIVIDE_ASSIGN");
    assert(symbol_table()[7].0 == "MODULUS_ASSIGN");
    assert(symbol_table()[8].0 == "BITWISE_AND_ASSIGN");
    assert(symbol_table()[9].0 == "BITWISE_XOR_ASSIGN");
    assert(symbol_table()[10].0 == "BITWISE_NOT_ASSIGN");
    assert(symbol_table()[11].0 == "LEFT_SHIFT_ASSIGN");
    assert(symbol_table()[12].0 == "RIGHT_SHIFT_ASSIGN");
    assert(symbol_table()[13].0 == "PLUS");
    assert(symbol_table()[14].0 == "MINUS");
    assert(symbol_table()[15].0 == "MULTIPLY");
    assert(symbol_table()[16].0 == "DIVIDE");
    assert(symbol_table()[17].0 == "MODULUS");
    assert(symbol_table()[18].0 == "LOGICAL_AND");
    assert(symbol_table()[19].0 == "BITWISE_AND");
    assert(symbol_table()[20].0 == "BITWISE_XOR");
    assert(symbol_table()[21].0 == "BITWISE_NOT");
    assert(symbol_table()[22].0 == "LEFT_SHIFT");
    assert(symbol_table()[23].0 == "RIGHT_SHIFT");
    assert(symbol_table()[24].0 == "CIRCOM_L_ASSIGN");
    assert forall|j: int| 0 <= j < 24 implies (#[trigger] symbol_table()[j]).0@ != symbol_table()[24].0@ by {
        if j == 0 {
            assert(symbol_table()[0].0@ == "SEMICOLON"@);
        }
        if j == 1 {
            assert(symbol_table()[1].0@ == "INCREMENT"@);
        }
        if j == 2 {
            assert(symbol_table()[2].0@ == "DECREMENT"@);
        }
        if j == 3 {
            assert(symbol_table()[3].0@ == "PLUS_ASSIGN"@);
        }
        if j == 4 {
            assert(symbol_table()[4].0@ == "MINUS_ASSIGN"@);
        }
        if j == 5 {
            assert(symbol_table()[5].0@ == "MULTIPLY_ASSIGN"@);
        }
        if j == 6 {
            assert(symbol_table()[6].0@ == "DIVIDE_ASSIGN"@);
        }
        if j == 7 {
            assert(symbol_table()[7].0@ == "MODULUS_ASSIGN"@);
        }
        if j == 8 {
            assert(symbol_table()[8].0@ == "BITWISE_AND_ASSIGN"@);
        }
        if j == 9 {
            assert(symbol_table()[9].0@ == "BITWISE_XOR_ASSIGN"@);
        }
        if j == 10 {
            assert(symbol_table()[10].0@ == "BITWISE_NOT_ASSIGN"@);
        }
        if j == 11 {
            assert(symbol_table()[11].0@ == "LEFT_SHIFT_ASSIGN"@);
        }
        if j == 12 {
            assert(symbol_table()[12].0@ == "RIGHT_SHIFT_ASSIGN"@);
        }
        if j == 13 {
            assert(symbol_table()[13].0@ == "PLUS"@);
        }
        if j == 14 {
            assert(symbol_table()[14].0@ == "MINUS"@);
        }
        if j == 15 {
            assert(symbol_table()[15].0@ == "MULTIPLY"@);
        }
        if j == 16 {
            assert(symbol_table()[16].0@ == "DIVIDE"@);
        }
        if j == 17 {
            assert(symbol_table()[17].0@ == "MODULUS"@);
        }
        if j == 18 {
            assert(symbol_table()[18].0@ == "LOGICAL_AND"@);
        }
        if j == 19 {
            assert(symbol_table()[19].0@ == "BITWISE_AND"@);
        }
        if j == 20 {
            assert(symbol_table()[20].0@ == "BITWISE_XOR"@);
        }
        if j == 21 {
            assert(symbol_table()[21].0@ == "BITWISE_NOT"@);
        }
        if j == 22 {
            assert(symbol_table()[22].0@ == "LEFT_SHIFT"@);
        }
        if j == 23 {
            assert(symbol_table()[23].0@ == "RIGHT_SHIFT"@);
        }
    }
}

proof fn lemma_key_first_25()
    ensures
        forall|j: int| 0 <= j < 25 ==> (#[trigger] symbol_table()[j]).0@ != symbol_table()[25].0@,
{
    reveal_strlit("BITWISE_AND");
    assert("BITWISE_AND"@ =~= seq!['B', 'I', 'T', 'W', 'I', 'S', 'E', '_', 'A', 'N', 'D']);
    reveal_strlit("BITWISE_AND_ASSIGN");
    assert("BITWISE_AND_ASSIGN"@ =~= seq!['B', 'I', 'T', 'W', 'I', 'S', 'E', '_', 'A', 'N', 'D', '_', 'A', 'S', 'S', 'I', 'G', 'N']);
    reveal_strlit("BITWISE_NOT");
    assert("BITWISE_NOT"@ =~= seq!['B', 'I', 'T', 'W', 'I', 'S', 'E', '_', 'N', 'O', 'T']);
    reveal_strlit("BITWISE_NOT_ASSIGN");
    assert("BITWISE_NOT_ASSIGN"@ =~= seq!['B', 'I', 'T', 'W', 'I', 'S', 'E', '_', 'N', 'O', 'T', '_', 'A', 'S', 'S', 'I', 'G', 'N']);
    reveal_strlit("BITWISE_XOR");
    assert("BITWISE_XOR"@ =~= seq!['B', 'I', 'T', 'W', 'I', 'S', 'E', '_', 'X', 'O', 'R']);
    reveal_strlit("BITWISE_XOR_ASSIGN");
    assert("BITWISE_XOR_ASSIGN"@ =~= seq!['B', 'I', 'T', 'W', 'I', 'S', 'E', '_', 'X', 'O', 'R', '_', 'A', 'S', 'S', 'I', 'G', 'N']);
    reveal_strlit("CIRCOM_L_ASSIGN");
    assert("CIRCOM_L_ASSIGN"@ =~= seq!['C', 'I', 'R', 'C', 'O', 'M', '_', 'L', '_', 'A', 'S', 'S', 'I', 'G', 'N']);
    reveal_strlit("CIRCOM_R_ASSIGN");
    assert("CIRCOM_R_ASSIGN"@ =~= seq!['C', 'I', 'R', 'C', 'O', 'M', '_', 'R', '_', 'A', 'S', 'S', 'I', 'G', 'N']);
    reveal_strlit("DECREMENT");
    assert("DECREMENT"@ =~= seq!['D', 'E', 'C', 'R', 'E', 'M', 'E', 'N', 'T']);
    reveal_strlit("DIVIDE");
    assert("DIVIDE"@ =~= seq!['D', 'I', 'V', 'I', 'D', 'E']);
    reveal_strlit("DIVIDE_ASSIGN");
    assert("DIVIDE_ASSIGN"@ =~= seq!['D', 'I', 'V', 'I', 'D', 'E', '_', 'A', 'S', 'S', 'I', 'G', 'N']);
    reveal_strlit("INCREMENT");
    assert("INCREMENT"@ =~= seq!['I', 'N', 'C', 'R', 'E', 'M', 'E', 'N', 'T']);
    reveal_strlit("LEFT_SHIFT");
    assert("LEFT_SHIFT"@ =~= seq!['L', 'E', 'F', 'T', '_', 'S', 'H', 'I', 'F', 'T']);
    reveal_strlit("LEFT_SHIFT_ASSIGN");
    assert("LEFT_SHIFT_ASSIGN"@ =~= seq!['L', 'E', 'F', 'T', '_', 'S', 'H', 'I', 'F', 'T', '_', 'A', 'S', 'S', 'I', 'G', 'N']);
    reveal_strlit("LOGICAL_AND");
    assert("LOGICAL_AND"@ =~= seq!['L', 'O', 'G', 'I', 'C', 'A', 'L', '_', 'A', 'N', 'D']);
    reveal_strlit("MINUS");
    assert("MINUS"@ =~= seq!['M', 'I', 'N', 'U', 'S']);
    reveal_strlit("MINUS_ASSIGN");
    assert("MINUS_ASSIGN"@ =~= seq!['M', 'I', 'N', 'U', 'S', '_', 'A', 'S', 'S', 'I', 'G', 'N']);
    reveal_strlit("MODULUS");
    assert("MODULUS"@ =~= seq!['M', 'O', 'D', 'U', 'L', 'U', 'S']);
    reveal_strlit("MODULUS_ASSIGN");
    assert("MODULUS_ASSIGN"@ =~= seq!['M', 'O', 'D', 'U', 'L', 'U', 'S', '_', 'A', 'S', 'S', 'I', 'G', 'N']);
    reveal_strlit("MULTIPLY");
    assert("MULTIPLY"@ =~= seq!['M', 'U', 'L', 'T', 'I', 'P', 'L', 'Y']);
    reveal_strlit("MULTIPLY_ASSIGN");
    assert("MULTIPLY_ASSIGN"@ =~= seq!['M', 'U', 'L', 'T', 'I', 'P', 'L', 'Y', '_', 'A', 'S', 'S', 'I', 'G', 'N']);
    reveal_strlit("PLUS");
    assert("PLUS"@ =~= seq!['P', 'L', 'U', 'S']);
    reveal_strlit("PLUS_ASSIGN");
    assert("PLUS_ASSIGN"@ =~= seq!['P', 'L', 'U', 'S', '_', 'A', 'S', 'S', 'I', 'G', 'N']);
    reveal_strlit("RIGHT_SHIFT");
    assert("RIGHT_SHIFT"@ =~= seq!['R', 'I', 'G', 'H', 'T', '_', 'S', 'H', 'I', 'F', 'T']);
    reveal_strlit("RIGHT_SHIFT_ASSIGN");
    assert("RIGHT_SHIFT_ASSIGN"@ =~= seq!['R', 'I', 'G', 'H', 'T', '_', 'S', 'H', 'I', 'F', 'T', '_', 'A', 'S', 'S', 'I', 'G', 'N']);
    reveal_strlit("SEMICOLON");
    assert("SEMICOLON"@ =~= seq!['S', 'E', 'M', 'I', 'C', 'O', 'L', 'O', 'N']);
    assert(symbol_table()[0].0 == "SEMICOLON");
    assert(symbol_table()[1].0 == "INCREMENT");
    assert(symbol_table()[2].0 == "DECREMENT");
    assert(symbol_table()[3].0 == "PLUS_ASSIGN");
    assert(symbol_table()[4].0 == "MINUS_ASSIGN");
    assert(symbol_table()[5].0 == "MULTIPLY_ASSIGN");
    assert(symbol_table()[6].0 == "DIVIDE_ASSIGN");
    assert(symbol_table()[7].0 == "MODULUS_ASSIGN");
    assert(symbol_table()[8].0 == "BITWISE_AND_ASSIGN");
    assert(symbol_table()[9].0 == "BITWISE_XOR_ASSIGN");
    assert(symbol_table()[10].0 == "BITWISE_NOT_ASSIGN");
    assert(symbol_table()[11].0 == "LEFT_SHIFT_ASSIGN");
    assert(symbol_table()[12].0 == "RIGHT_SHIFT_ASSIGN");
    assert(symbol_table()[13].0 == "PLUS");
    assert(symbol_table()[14].0 == "MINUS");
    assert(symbol_table()[15].0 == "MULTIPLY");
    assert(symbol_table()[16].0 == "DIVIDE");
    assert(symbol_table()[17].0 == "MODULUS");
    assert(symbol_table()[18].0 == "LOGICAL_AND");
    assert(symbol_table()[19].0 == "BITWISE_AND");
    assert(symbol_table()[20].0 == "BITWISE_XOR");
    assert(symbol_table()[21].0 == "BITWISE_NOT");
    assert(symbol_table()[22].0 == "LEFT_SHIFT");
    assert(symbol_table()[23].0 == "RIGHT_SHIFT");
    assert(symbol_table()[24].0 == "CIRCOM_L_ASSIGN");
    assert(symbol_table()[25].0 == "CIRCOM_R_ASSIGN");
    assert forall|j: int| 0 <= j < 25 implies (#[trigger] symbol_table()[j]).0@ != symbol_table()[25].0@ by {
        if j == 0 {
            assert(symbol_table()[0].0@ == "SEMICOLON"@);
        }
        if j == 1 {
            assert(symbol_table()[1].0@ == "INCREMENT"@);
        }
        if j == 2 {
            assert(symbol_table()[2].0@ == "DECREMENT"@);
        }
        if j == 3 {
            assert(symbol_table()[3].0@ == "PLUS_ASSIGN"@);
        }
        if j == 4 {
            assert(symbol_table()[4].0@ == "MINUS_ASSIGN"@);
        }
        if j == 5 {
            assert(symbol_table()[5].0@ == "MULTIPLY_ASSIGN"@);
        }
        if j == 6 {
            assert(symbol_table()[6].0@ == "DIVIDE_ASSIGN"@);
        }
        if j == 7 {
            assert(symbol_table()[7].0@ == "MODULUS_ASSIGN"@);
        }
        if j == 8 {
            assert(symbol_table()[8].0@ == "BITWISE_AND_ASSIGN"@);
        }
        if j == 9 {
            assert(symbol_table()[9].0@ == "BITWISE_XOR_ASSIGN"@);
        }
        if j == 10 {
            assert(symbol_table()[10].0@ == "BITWISE_NOT_ASSIGN"@);
        }
        if j == 11 {
            assert(symbol_table()[11].0@ == "LEFT_SHIFT_ASSIGN"@);
        }
        if j == 12 {
            assert(symbol_table()[12].0@ == "RIGHT_SHIFT_ASSIGN"@);
        }
        if j == 13 {
            assert(symbol_table()[13].0@ == "PLUS"@);
        }
        if j == 14 {
            assert(symbol_table()[14].0@ == "MINUS"@);
        }
        if j == 15 {
            assert(symbol_table()[15].0@ == "MULTIPLY"@);
        }
        if j == 16 {
            assert(symbol_table()[16].0@ == "DIVIDE"@);
        }
        if j == 17 {
            assert(symbol_table()[17].0@ == "MODULUS"@);
        }
        if j == 18 {
            assert(symbol_table()[18].0@ == "LOGICAL_AND"@);
        }
        if j == 19 {
            assert(symbol_table()[19].0@ == "BITWISE_AND"@);
        }
        if j == 20 {
            assert(symbol_table()[20].0@ == "BITWISE_XOR"@);
        }
        if j == 21 {
            assert(symbol_table()[21].0@ == "BITWISE_NOT"@);
        }
        if j == 22 {
            assert(symbol_table()[22].0@ == "LEFT_SHIFT"@);
        }
        if j == 23 {
            assert(symbol_table()[23].0@ == "RIGHT_SHIFT"@);
        }
        if j == 24 {
            assert(symbol_table()[24].0@ == "CIRCOM_L_ASSIGN"@);
        }
    }
}

proof fn lemma_key_first_26()
    ensures
        forall|j: int| 0 <= j < 26 ==> (#[trigger] symbol_table()[j]).0@ != symbol_table()[26].0@,
{
    reveal_strlit("BITWISE_AND");
    assert("BITWISE_AND"@ =~= seq!['B', 'I', 'T', 'W', 'I', 'S', 'E', '_', 'A', 'N', 'D']);
    reveal_strlit("BITWISE_AND_ASSIGN");
    assert("BITWISE_AND_ASSIGN"@ =~= seq!['B', 'I', 'T', 'W', 'I', 'S', 'E', '_', 'A', 'N', 'D', '_', 'A', 'S', 'S', 'I', 'G', 'N']);
    reveal_strlit("BITWISE_NOT");
    assert("BITWISE_NOT"@ =~= seq!['B', 'I', 'T', 'W', 'I', 'S', 'E', '_', 'N', 'O', 'T']);
    reveal_strlit("BITWISE_NOT_ASSIGN");
    assert("BITWISE_NOT_ASSIGN"@ =~= seq!['B', 'I', 'T', 'W', 'I', 'S', 'E', '_', 'N', 'O', 'T', '_', 'A', 'S', 'S', 'I', 'G', 'N']);
    reveal_strlit("BITWISE_XOR");
    assert("BITWISE_XOR"@ =~= seq!['B', 'I', 'T', 'W', 'I', 'S', 'E', '_', 'X', 'O', 'R']);
    reveal_strlit("BITWISE_XOR_ASSIGN");
    assert("BITWISE_XOR_ASSIGN"@ =~= seq!['B', 'I', 'T', 'W', 'I', 'S', 'E', '_', 'X', 'O', 'R', '_', 'A', 'S', 'S', 'I', 'G', 'N']);
    reveal_strlit("CIRCOM_L_ASSIGN");
    assert("CIRCOM_L_ASSIGN"@ =~= seq!['C', 'I', 'R', 'C', 'O', 'M', '_', 'L', '_', 'A', 'S', 'S', 'I', 'G', 'N']);
    reveal_strlit("CIRCOM_L_CONSTRAINT_ASSIGN");
    assert("CIRCOM_L_CONSTRAINT_ASSIGN"@ =~= seq!['C', 'I', 'R', 'C', 'O', 'M', '_', 'L', '_', 'C', 'O', 'N', 'S', 'T', 'R', 'A', 'I', 'N', 'T', '_', 'A', 'S', 'S', 'I', 'G', 'N']);
    reveal_strlit("CIRCOM_R_ASSIGN");
    assert("CIRCOM_R_ASSIGN"@ =~= seq!['C', 'I', 'R', 'C', 'O', 'M', '_', 'R', '_', 'A', 'S', 'S', 'I', 'G', 'N']);
    reveal_strlit("DECREMENT");
    assert("DECREMENT"@ =~= seq!['D', 'E', 'C', 'R', 'E', 'M', 'E', 'N', 'T']);
    reveal_strlit("DIVIDE");
    assert("DIVIDE"@ =~= seq!['D', 'I', 'V', 'I', 'D', 'E']);
    reveal_strlit("DIVIDE_ASSIGN");
    assert("DIVIDE_ASSIGN"@ =~= seq!['D', 'I', 'V', 'I', 'D', 'E', '_', 'A', 'S', 'S', 'I', 'G', 'N']);
    reveal_strlit("INCREMENT");
    assert("INCREMENT"@ =~= seq!['I', 'N', 'C', 'R', 'E', 'M', 'E', 'N', 'T']);
    reveal_strlit("LEFT_SHIFT");
    assert("LEFT_SHIFT"@ =~= seq!['L', 'E', 'F', 'T', '_', 'S', 'H', 'I', 'F', 'T']);
    reveal_strlit("LEFT_SHIFT_ASSIGN");
    assert("LEFT_SHIFT_ASSIGN"@ =~= seq!['L', 'E', 'F', 'T', '_', 'S', 'H', 'I', 'F', 'T', '_', 'A', 'S', 'S', 'I', 'G', 'N']);
    reveal_strlit("LOGICAL_AND");
    assert("LOGICAL_AND"@ =~= seq!['L', 'O', 'G', 'I', 'C', 'A', 'L', '_', 'A', 'N', 'D']);
    reveal_strlit("MINUS");
    assert("MINUS"@ =~= seq!['M', 'I', 'N', 'U', 'S']);
    reveal_strlit("MINUS_ASSIGN");
    assert("MINUS_ASSIGN"@ =~= seq!['M', 'I', 'N', 'U', 'S', '_', 'A', 'S', 'S', 'I', 'G', 'N']);
    reveal_strlit("MODULUS");
    assert("MODULUS"@ =~= seq!['M', 'O', 'D', 'U', 'L', 'U', 'S']);
    reveal_strlit("MODULUS_ASSIGN");
    assert("MODULUS_ASSIGN"@ =~= seq!['M', 'O', 'D', 'U', 'L', 'U', 'S', '_', 'A', 'S', 'S', 'I', 'G', 'N']);
    reveal_strlit("MULTIPLY");
    assert("MULTIPLY"@ =~= seq!['M', 'U', 'L', 'T', 'I', 'P', 'L', 'Y']);
    reveal_strlit("MULTIPLY_ASSIGN");
    assert("MULTIPLY_ASSIGN"@ =~= seq!['M', 'U', 'L', 'T', 'I', 'P', 'L', 'Y', '_', 'A', 'S', 'S', 'I', 'G', 'N']);
    reveal_strlit("PLUS");
    assert("PLUS"@ =~= seq!['P', 'L', 'U', 'S']);
    reveal_strlit("PLUS_ASSIGN");
    assert("PLUS_ASSIGN"@ =~= seq!['P', 'L', 'U', 'S', '_', 'A', 'S', 'S', 'I', 'G', 'N']);
    reveal_strlit("RIGHT_SHIFT");
    assert("RIGHT_SHIFT"@ =~= seq!['R', 'I', 'G', 'H', 'T', '_', 'S', 'H', 'I', 'F', 'T']);
    reveal_strlit("RIGHT_SHIFT_ASSIGN");
    assert("RIGHT_SHIFT_ASSIGN"@ =~= seq!['R', 'I', 'G', 'H', 'T', '_', 'S', 'H', 'I', 'F', 'T', '_', 'A', 'S', 'S', 'I', 'G', 'N']);
    reveal_strlit("SEMICOLON");
    assert("SEMICOLON"@ =~= seq!['S', 'E', 'M', 'I', 'C', 'O', 'L', 'O', 'N']);
    assert(symbol_table()[0].0 == "SEMICOLON");
    assert(symbol_table()[1].0 == "INCREMENT");
    assert(symbol_table()[2].0 == "DECREMENT");
    assert(symbol_table()[3].0 == "PLUS_ASSIGN");
    assert(symbol_table()[4].0 == "MINUS_ASSIGN");
    assert(symbol_table()[5].0 == "MULTIPLY_ASSIGN");
    assert(symbol_table()[6].0 == "DIVIDE_ASSIGN");
    assert(symbol_table()[7].0 == "MODULUS_ASSIGN");
    assert(symbol_table()[8].0 == "BITWISE_AND_ASSIGN");
    assert(symbol_table()[9].0 == "BITWISE_XOR_ASSIGN");
    assert(symbol_table()[10].0 == "BITWISE_NOT_ASSIGN");
    assert(symbol_table()[11].0 == "LEFT_SHIFT_ASSIGN");
    assert(symbol_table()[12].0 == "RIGHT_SHIFT_ASSIGN");
    assert(symbol_table()[13].0 == "PLUS");
    assert(symbol_table()[14].0 == "MINUS");
    assert(symbol_table()[15].0 == "MULTIPLY");
    assert(symbol_table()[16].0 == "DIVIDE");
    assert(symbol_table()[17].0 == "MODULUS");
    assert(symbol_table()[18].0 == "LOGICAL_AND");
    assert(symbol_table()[19].0 == "BITWISE_AND");
    assert(symbol_table()[20].0 == "BITWISE_XOR");
    assert(symbol_table()[21].0 == "BITWISE_NOT");
    assert(symbol_table()[22].0 == "LEFT_SHIFT");
    assert(symbol_table()[23].0 == "RIGHT_SHIFT");
    assert(symbol_table()[24].0 == "CIRCOM_L_ASSIGN");
    assert(symbol_table()[25].0 == "CIRCOM_R_ASSIGN");
    assert(symbol_table()[26].0 == "CIRCOM_L_CONSTRAINT_ASSIGN");
    assert forall|j: int| 0 <= j < 26 implies (#[trigger] symbol_table()[j]).0@ != symbol_table()[26].0@ by {
        if j == 0 {
            assert(symbol_table()[0].0@ == "SEMICOLON"@);
        }
        if j == 1 {
            assert(symbol_table()[1].0@ == "INCREMENT"@);
        }
        if j == 2 {
            assert(symbol_table()[2].0@ == "DECREMENT"@);
        }
        if j == 3 {
            assert(symbol_table()[3].0@ == "PLUS_ASSIGN"@);
        }
        if j == 4 {
            assert(symbol_table()[4].0@ == "MINUS_ASSIGN"@);
        }
        if j == 5 {
            assert(symbol_table()[5].0@ == "MULTIPLY_ASSIGN"@);
        }
        if j == 6 {
            assert(symbol_table()[6].0@ == "DIVIDE_ASSIGN"@);
        }
        if j == 7 {
            assert(symbol_table()[7].0@ == "MODULUS_ASSIGN"@);
        }
        if j == 8 {
            assert(symbol_table()[8].0@ == "BITWISE_AND_ASSIGN"@);
        }
        if j == 9 {
            assert(symbol_table()[9].0@ == "BITWISE_XOR_ASSIGN"@);
        }
        if j == 10 {
            assert(symbol_table()[10].0@ == "BITWISE_NOT_ASSIGN"@);
        }
        if j == 11 {
            assert(symbol_table()[11].0@ == "LEFT_SHIFT_ASSIGN"@);
        }
        if j == 12 {
            assert(symbol_table()[12].0@ == "RIGHT_SHIFT_ASSIGN"@);
        }
        if j == 13 {
            assert(symbol_table()[13].0@ == "PLUS"@);
        }
        if j == 14 {
            assert(symbol_table()[14].0@ == "MINUS"@);
        }
        if j == 15 {
            assert(symbol_table()[15].0@ == "MULTIPLY"@);
        }
        if j == 16 {
            assert(symbol_table()[16].0@ == "DIVIDE"@);
        }
        if j == 17 {
            assert(symbol_table()[17].0@ == "MODULUS"@);
        }
        if j == 18 {
            assert(symbol_table()[18].0@ == "LOGICAL_AND"@);
        }
        if j == 19 {
            assert(symbol_table()[19].0@ == "BITWISE_AND"@);
        }
        if j == 20 {
            assert(symbol_table()[20].0@ == "BITWISE_XOR"@);
        }
        if j == 21 {
            assert(symbol_table()[21].0@ == "BITWISE_NOT"@);
        }
        if j == 22 {
            assert(symbol_table()[22].0@ == "LEFT_SHIFT"@);
        }
        if j == 23 {
            assert(symbol_table()[23].0@ == "RIGHT_SHIFT"@);
        }
        if j == 24 {
            assert(symbol_table()[24].0@ == "CIRCOM_L_ASSIGN"@);
        }
        if j == 25 {
            assert(symbol_table()[25].0@ == "CIRCOM_R_ASSIGN"@);
        }
    }
}

proof fn lemma_key_first_27()
    ensures
        forall|j: int| 0 <= j < 27 ==> (#[trigger] symbol_table()[j]).0@ != symbol_table()[27].0@,
{
    reveal_strlit("BITWISE_AND");
    assert("BITWISE_AND"@ =~= seq!['B', 'I', 'T', 'W', 'I', 'S', 'E', '_', 'A', 'N', 'D']);
    reveal_strlit("BITWISE_AND_ASSIGN");
    assert("BITWISE_AND_ASSIGN"@ =~= seq!['B', 'I', 'T', 'W', 'I', 'S', 'E', '_', 'A', 'N', 'D', '_', 'A', 'S', 'S', 'I', 'G', 'N']);
    reveal_strlit("BITWISE_NOT");
    assert("BITWISE_NOT"@ =~= seq!['B', 'I', 'T', 'W', 'I', 'S', 'E', '_', 'N', 'O', 'T']);
    reveal_strlit("BITWISE_NOT_ASSIGN");
    assert("BITWISE_NOT_ASSIGN"@ =~= seq!['B', 'I', 'T', 'W', 'I', 'S', 'E', '_', 'N', 'O', 'T', '_', 'A', 'S', 'S', 'I', 'G', 'N']);
    reveal_strlit("BITWISE_XOR");
    assert("BITWISE_XOR"@ =~= seq!['B', 'I', 'T', 'W', 'I', 'S', 'E', '_', 'X', 'O', 'R']);
    reveal_strlit("BITWISE_XOR_ASSIGN");
    assert("BITWISE_XOR_ASSIGN"@ =~= seq!['B', 'I', 'T', 'W', 'I', 'S', 'E', '_', 'X', 'O', 'R', '_', 'A', 'S', 'S', 'I', 'G', 'N']);
    reveal_strlit("CIRCOM_L_ASSIGN");
    assert("CIRCOM_L_ASSIGN"@ =~= seq!['C', 'I', 'R', 'C', 'O', 'M', '_', 'L', '_', 'A', 'S', 'S', 'I', 'G', 'N']);
    reveal_strlit("CIRCOM_L_CONSTRAINT_ASSIGN");
    assert("CIRCOM_L_CONSTRAINT_ASSIGN"@ =~= seq!['C', 'I', 'R', 'C', 'O', 'M', '_', 'L', '_', 'C', 'O', 'N', 'S', 'T', 'R', 'A', 'I', 'N', 'T', '_', 'A', 'S', 'S', 'I', 'G', 'N']);
    reveal_strlit("CIRCOM_R_ASSIGN");
    assert("CIRCOM_R_ASSIGN"@ =~= seq!['C', 'I', 'R', 'C', 'O', 'M', '_', 'R', '_', 'A', 'S', 'S', 'I', 'G', 'N']);
    reveal_strlit("CIRCOM_R_CONSTRAINT_ASSIGN");
    assert("CIRCOM_R_CONSTRAINT_ASSIGN"@ =~= seq!['C', 'I', 'R', 'C', 'O', 'M', '_', 'R', '_', 'C', 'O', 'N', 'S', 'T', 'R', 'A', 'I', 'N', 'T', '_', 'A', 'S', 'S', 'I', 'G', 'N']);
    reveal_strlit("DECREMENT");
    assert("DECREMENT"@ =~= seq!['D', 'E', 'C', 'R', 'E', 'M', 'E', 'N', 'T']);
    reveal_strlit("DIVIDE");
    assert("DIVIDE"@ =~= seq!['D', 'I', 'V', 'I', 'D', 'E']);
    reveal_strlit("DIVIDE_ASSIGN");
    assert("DIVIDE_ASSIGN"@ =~= seq!['D', 'I', 'V', 'I', 'D', 'E', '_', 'A', 'S', 'S', 'I', 'G', 'N']);
    reveal_strlit("INCREMENT");
    assert("INCREMENT"@ =~= seq!['I', 'N', 'C', 'R', 'E', 'M', 'E', 'N', 'T']);
    reveal_strlit("LEFT_SHIFT");
    assert("LEFT_SHIFT"@ =~= seq!['L', 'E', 'F', 'T', '_', 'S', 'H', 'I', 'F', 'T']);
    reveal_strlit("LEFT_SHIFT_ASSIGN");
    assert("LEFT_SHIFT_ASSIGN"@ =~= seq!['L', 'E', 'F', 'T', '_', 'S', 'H', 'I', 'F', 'T', '_', 'A', 'S', 'S', 'I', 'G', 'N']);
    reveal_strlit("LOGICAL_AND");
    assert("LOGICAL_AND"@ =~= seq!['L', 'O', 'G', 'I', 'C', 'A', 'L', '_', 'A', 'N', 'D']);
    reveal_strlit("MINUS");
    assert("MINUS"@ =~= seq!['M', 'I', 'N', 'U', 'S']);
    reveal_strlit("MINUS_ASSIGN");
    assert("MINUS_ASSIGN"@ =~= seq!['M', 'I', 'N', 'U', 'S', '_', 'A', 'S', 'S', 'I', 'G', 'N']);
    reveal_strlit("MODULUS");
    assert("MODULUS"@ =~= seq!['M', 'O', 'D', 'U', 'L', 'U', 'S']);
    reveal_strlit("MODULUS_ASSIGN");
    assert("MODULUS_ASSIGN"@ =~= seq!['M', 'O', 'D', 'U', 'L', 'U', 'S', '_', 'A', 'S', 'S', 'I', 'G', 'N']);
    reveal_strlit("MULTIPLY");
    assert("MULTIPLY"@ =~= seq!['M', 'U', 'L', 'T', 'I', 'P', 'L', 'Y']);
    reveal_strlit("MULTIPLY_ASSIGN");
    assert("MULTIPLY_ASSIGN"@ =~= seq!['M', 'U', 'L', 'T', 'I', 'P', 'L', 'Y', '_', 'A', 'S', 'S', 'I', 'G', 'N']);
    reveal_strlit("PLUS");
    assert("PLUS"@ =~= seq!['P', 'L', 'U', 'S']);
    reveal_strlit("PLUS_ASSIGN");
    assert("PLUS_ASSIGN"@ =~= seq!['P', 'L', 'U', 'S', '_', 'A', 'S', 'S', 'I', 'G', 'N']);
    reveal_strlit("RIGHT_SHIFT");
    assert("RIGHT_SHIFT"@ =~= seq!['R', 'I', 'G', 'H', 'T', '_', 'S', 'H', 'I', 'F', 'T']);
    reveal_strlit("RIGHT_SHIFT_ASSIGN");
    assert("RIGHT_SHIFT_ASSIGN"@ =~= seq!['R', 'I', 'G', 'H', 'T', '_', 'S', 'H', 'I', 'F', 'T', '_', 'A', 'S', 'S', 'I', 'G', 'N']);
    reveal_strlit("SEMICOLON");
    assert("SEMICOLON"@ =~= seq!['S', 'E', 'M', 'I', 'C', 'O', 'L', 'O', 'N']);
    assert(symbol_table()[0].0 == "SEMICOLON");
    assert(symbol_table()[1].0 == "INCREMENT");
    assert(symbol_table()[2].0 == "DECREMENT");
    assert(symbol_table()[3].0 == "PLUS_ASSIGN");
    assert(symbol_table()[4].0 == "MINUS_ASSIGN");
    assert(symbol_table()[5].0 == "MULTIPLY_ASSIGN");
    assert(symbol_table()[6].0 == "DIVIDE_ASSIGN");
    assert(symbol_table()[7].0 == "MODULUS_ASSIGN");
    assert(symbol_table()[8].0 == "BITWISE_AND_ASSIGN");
    assert(symbol_table()[9].0 == "BITWISE_XOR_ASSIGN");
    assert(symbol_table()[10].0 == "BITWISE_NOT_ASSIGN");
    assert(symbol_table()[11].0 == "LEFT_SHIFT_ASSIGN");
    assert(symbol_table()[12].0 == "RIGHT_SHIFT_ASSIGN");
    assert(symbol_table()[13].0 == "PLUS");
    assert(symbol_table()[14].0 == "MINUS");
    assert(symbol_table()[15].0 == "MULTIPLY");
    assert(symbol_table()[16].0 == "DIVIDE");
    assert(symbol_table()[17].0 == "MODULUS");
    assert(symbol_table()[18].0 == "LOGICAL_AND");
    assert(symbol_table()[19].0 == "BITWISE_AND");
    assert(symbol_table()[20].0 == "BITWISE_XOR");
    assert(symbol_table()[21].0 == "BITWISE_NOT");
    assert(symbol_table()[22].0 == "LEFT_SHIFT");
    assert(symbol_table()[23].0 == "RIGHT_SHIFT");
    assert(symbol_table()[24].0 == "CIRCOM_L_ASSIGN");
    assert(symbol_table()[25].0 == "CIRCOM_R_ASSIGN");
    assert(symbol_table()[26].0 == "CIRCOM_L_CONSTRAINT_ASSIGN");
    assert(symbol_table()[27].0 == "CIRCOM_R_CONSTRAINT_ASSIGN");
    assert forall|j: int| 0 <= j < 27 implies (#[trigger] symbol_table()[j]).0@ != symbol_table()[27].0@ by {
        if j == 0 {
            assert(symbol_table()[0].0@ == "SEMICOLON"@);
        }
        if j == 1 {
            assert(symbol_table()[1].0@ == "INCREMENT"@);
        }
        if j == 2 {
            assert(symbol_table()[2].0@ == "DECREMENT"@);
        }
        if j == 3 {
            assert(symbol_table()[3].0@ == "PLUS_ASSIGN"@);
        }
        if j == 4 {
            assert(symbol_table()[4].0@ == "MINUS_ASSIGN"@);
        }
        if j == 5 {
            assert(symbol_table()[5].0@ == "MULTIPLY_ASSIGN"@);
        }
        if j == 6 {
            assert(symbol_table()[6].0@ == "DIVIDE_ASSIGN"@);
        }
        if j == 7 {
            assert(symbol_table()[7].0@ == "MODULUS_ASSIGN"@);
        }
        if j == 8 {
            assert(symbol_table()[8].0@ == "BITWISE_AND_ASSIGN"@);
        }
        if j == 9 {
            assert(symbol_table()[9].0@ == "BITWISE_XOR_ASSIGN"@);
        }
        if j == 10 {
            assert(symbol_table()[10].0@ == "BITWISE_NOT_ASSIGN"@);
        }
        if j == 11 {
            assert(symbol_table()[11].0@ == "LEFT_SHIFT_ASSIGN"@);
        }
        if j == 12 {
            assert(symbol_table()[12].0@ == "RIGHT_SHIFT_ASSIGN"@);
        }
        if j == 13 {
            assert(symbol_table()[13].0@ == "PLUS"@);
        }
        if j == 14 {
            assert(symbol_table()[14].0@ == "MINUS"@);
        }
        if j == 15 {
            assert(symbol_table()[15].0@ == "MULTIPLY"@);
        }
        if j == 16 {
            assert(symbol_table()[16].0@ == "DIVIDE"@);
        }
        if j == 17 {
            assert(symbol_table()[17].0@ == "MODULUS"@);
        }
        if j == 18 {
            assert(symbol_table()[18].0@ == "LOGICAL_AND"@);
        }
        if j == 19 {
            assert(symbol_table()[19].0@ == "BITWISE_AND"@);
        }
        if j == 20 {
            assert(symbol_table()[20].0@ == "BITWISE_XOR"@);
        }
        if j == 21 {
            assert(symbol_table()[21].0@ == "BITWISE_NOT"@);
        }
        if j == 22 {
            assert(symbol_table()[22].0@ == "LEFT_SHIFT"@);
        }
        if j == 23 {
            assert(symbol_table()[23].0@ == "RIGHT_SHIFT"@);
        }
        if j == 24 {
            assert(symbol_table()[24].0@ == "CIRCOM_L_ASSIGN"@);
        }
        if j == 25 {
            assert(symbol_table()[25].0@ == "CIRCOM_R_ASSIGN"@);
        }
        if j == 26 {
            assert(symbol_table()[26].0@ == "CIRCOM_L_CONSTRAINT_ASSIGN"@);
        }
    }
}

proof fn lemma_key_first_28()
    ensures
        forall|j: int| 0 <= j < 28 ==> (#[trigger] symbol_table()[j]).0@ != symbol_table()[28].0@,
{
    reveal_strlit("BITWISE_AND");
    assert("BITWISE_AND"@ =~= seq!['B', 'I', 'T', 'W', 'I', 'S', 'E', '_', 'A', 'N', 'D']);
    reveal_strlit("BITWISE_AND_ASSIGN");
    assert("BITWISE_AND_ASSIGN"@ =~= seq!['B', 'I', 'T', 'W', 'I', 'S', 'E', '_', 'A', 'N', 'D', '_', 'A', 'S', 'S', 'I', 'G', 'N']);
    reveal_strlit("BITWISE_NOT");
    assert("BITWISE_NOT"@ =~= seq!['B', 'I', 'T', 'W', 'I', 'S', 'E', '_', 'N', 'O', 'T']);
    reveal_strlit("BITWISE_NOT_ASSIGN");
    assert("BITWISE_NOT_ASSIGN"@ =~= seq!['B', 'I', 'T', 'W', 'I', 'S', 'E', '_', 'N', 'O', 'T', '_', 'A', 'S', 'S', 'I', 'G', 'N']);
    reveal_strlit("BITWISE_XOR");
    assert("BITWISE_XOR"@ =~= seq!['B', 'I', 'T', 'W', 'I', 'S', 'E', '_', 'X', 'O', 'R']);
    reveal_strlit("BITWISE_XOR_ASSIGN");
    assert("BITWISE_XOR_ASSIGN"@ =~= seq!['B', 'I', 'T', 'W', 'I', 'S', 'E', '_', 'X', 'O', 'R', '_', 'A', 'S', 'S', 'I', 'G', 'N']);
    reveal_strlit("CIRCOM_CONSTRAINT");
    assert("CIRCOM_CONSTRAINT"@ =~= seq!['C', 'I', 'R', 'C', 'O', 'M', '_', 'C', 'O', 'N', 'S', 'T', 'R', 'A', 'I', 'N', 'T']);
    reveal_strlit("CIRCOM_L_ASSIGN");
    assert("CIRCOM_L_ASSIGN"@ =~= seq!['C', 'I', 'R', 'C', 'O', 'M', '_', 'L', '_', 'A', 'S', 'S', 'I', 'G', 'N']);
    reveal_strlit("CIRCOM_L_CONSTRAINT_ASSIGN");
    assert("CIRCOM_L_CONSTRAINT_ASSIGN"@ =~= seq!['C', 'I', 'R', 'C', 'O', 'M', '_', 'L', '_', 'C', 'O', 'N', 'S', 'T', 'R', 'A', 'I', 'N', 'T', '_', 'A', 'S', 'S', 'I', 'G', 'N']);
    reveal_strlit("CIRCOM_R_ASSIGN");
    assert("CIRCOM_R_ASSIGN"@ =~= seq!['C', 'I', 'R', 'C', 'O', 'M', '_', 'R', '_', 'A', 'S', 'S', 'I', 'G', 'N']);
    reveal_strlit("CIRCOM_R_CONSTRAINT_ASSIGN");
    assert("CIRCOM_R_CONSTRAINT_ASSIGN"@ =~= seq!['C', 'I', 'R', 'C', 'O', 'M', '_', 'R', '_', 'C', 'O', 'N', 'S', 'T', 'R', 'A', 'I', 'N', 'T', '_', 'A', 'S', 'S', 'I', 'G', 'N']);
    reveal_strlit("DECREMENT");
    assert("DECREMENT"@ =~= seq!['D', 'E', 'C', 'R', 'E', 'M', 'E', 'N', 'T']);
    reveal_strlit("DIVIDE");
    assert("DIVIDE"@ =~= seq!['D', 'I', 'V', 'I', 'D', 'E']);
    reveal_strlit("DIVIDE_ASSIGN");
    assert("DIVIDE_ASSIGN"@ =~= seq!['D', 'I', 'V', 'I', 'D', 'E', '_', 'A', 'S', 'S', 'I', 'G', 'N']);
    reveal_strlit("INCREMENT");
    assert("INCREMENT"@ =~= seq!['I', 'N', 'C', 'R', 'E', 'M', 'E', 'N', 'T']);
    reveal_strlit("LEFT_SHIFT");
    assert("LEFT_SHIFT"@ =~= seq!['L', 'E', 'F', 'T', '_', 'S', 'H', 'I', 'F', 'T']);
    reveal_strlit("LEFT_SHIFT_ASSIGN");
    assert("LEFT_SHIFT_ASSIGN"@ =~= seq!['L', 'E', 'F', 'T', '_', 'S', 'H', 'I', 'F', 'T', '_', 'A', 'S', 'S', 'I', 'G', 'N']);
    reveal_strlit("LOGICAL_AND");
    assert("LOGICAL_AND"@ =~= seq!['L', 'O', 'G', 'I', 'C', 'A', 'L', '_', 'A', 'N', 'D']);
    reveal_strlit("MINUS");
    assert("MINUS"@ =~= seq!['M', 'I', 'N', 'U', 'S']);
    reveal_strlit("MINUS_ASSIGN");
    assert("MINUS_ASSIGN"@ =~= seq!['M', 'I', 'N', 'U', 'S', '_', 'A', 'S', 'S', 'I', 'G', 'N']);
    reveal_strlit("MODULUS");
    assert("MODULUS"@ =~= seq!['M', 'O', 'D', 'U', 'L', 'U', 'S']);
    reveal_strlit("MODULUS_ASSIGN");
    assert("MODULUS_ASSIGN"@ =~= seq!['M', 'O', 'D', 'U', 'L', 'U', 'S', '_', 'A', 'S', 'S', 'I', 'G', 'N']);
    reveal_strlit("MULTIPLY");
    assert("MULTIPLY"@ =~= seq!['M', 'U', 'L', 'T', 'I', 'P', 'L', 'Y']);
    reveal_strlit("MULTIPLY_ASSIGN");
    assert("MULTIPLY_ASSIGN"@ =~= seq!['M', 'U', 'L', 'T', 'I', 'P', 'L', 'Y', '_', 'A', 'S', 'S', 'I', 'G', 'N']);
    reveal_strlit("PLUS");
    assert("PLUS"@ =~= seq!['P', 'L', 'U', 'S']);
    reveal_strlit("PLUS_ASSIGN");
    assert("PLUS_ASSIGN"@ =~= seq!['P', 'L', 'U', 'S', '_', 'A', 'S', 'S', 'I', 'G', 'N']);
    reveal_strlit("RIGHT_SHIFT");
    assert("RIGHT_SHIFT"@ =~= seq!['R', 'I', 'G', 'H', 'T', '_', 'S', 'H', 'I', 'F', 'T']);
    reveal_strlit("RIGHT_SHIFT_ASSIGN");
    assert("RIGHT_SHIFT_ASSIGN"@ =~= seq!['R', 'I', 'G', 'H', 'T', '_', 'S', 'H', 'I', 'F', 'T', '_', 'A', 'S', 'S', 'I', 'G', 'N']);
    reveal_strlit("SEMICOLON");
    assert("SEMICOLON"@ =~= seq!['S', 'E', 'M', 'I', 'C', 'O', 'L', 'O', 'N']);
    assert(symbol_table()[0].0 == "SEMICOLON");
    assert(symbol_table()[1].0 == "INCREMENT");
    assert(symbol_table()[2].0 == "DECREMENT");
    assert(symbol_table()[3].0 == "PLUS_ASSIGN");
    assert(symbol_table()[4].0 == "MINUS_ASSIGN");
    assert(symbol_table()[5].0 == "MULTIPLY_ASSIGN");
    assert(symbol_table()[6].0 == "DIVIDE_ASSIGN");
    assert(symbol_table()[7].0 == "MODULUS_ASSIGN");
    assert(symbol_table()[8].0 == "BITWISE_AND_ASSIGN");
    assert(symbol_table()[9].0 == "BITWISE_XOR_ASSIGN");
    assert(symbol_table()[10].0 == "BITWISE_NOT_ASSIGN");
    assert(symbol_table()[11].0 == "LEFT_SHIFT_ASSIGN");
    assert(symbol_table()[12].0 == "RIGHT_SHIFT_ASSIGN");
    assert(symbol_table()[13].0 == "PLUS");
    assert(symbol_table()[14].0 == "MINUS");
    assert(symbol_table()[15].0 == "MULTIPLY");
    assert(symbol_table()[16].0 == "DIVIDE");
    assert(symbol_table()[17].0 == "MODULUS");
    assert(symbol_table()[18].0 == "LOGICAL_AND");
    assert(symbol_table()[19].0 == "BITWISE_AND");
    assert(symbol_table()[20].0 == "BITWISE_XOR");
    assert(symbol_table()[21].0 == "BITWISE_NOT");
    assert(symbol_table()[22].0 == "LEFT_SHIFT");
    assert(symbol_table()[23].0 == "RIGHT_SHIFT");
    assert(symbol_table()[24].0 == "CIRCOM_L_ASSIGN");
    assert(symbol_table()[25].0 == "CIRCOM_R_ASSIGN");
    assert(symbol_table()[26].0 == "CIRCOM_L_CONSTRAINT_ASSIGN");
    assert(symbol_table()[27].0 == "CIRCOM_R_CONSTRAINT_ASSIGN");
    assert(symbol_table()[28].0 == "CIRCOM_CONSTRAINT");
    assert forall|j: int| 0 <= j < 28 implies (#[trigger] symbol_table()[j]).0@ != symbol_table()[28].0@ by {
        if j == 0 {
            assert(symbol_table()[0].0@ == "SEMICOLON"@);
        }
        if j == 1 {
            assert(symbol_table()[1].0@ == "INCREMENT"@);
        }
        if j == 2 {
            assert(symbol_table()[2].0@ == "DECREMENT"@);
        }
        if j == 3 {
            assert(symbol_table()[3].0@ == "PLUS_ASSIGN"@);
        }
        if j == 4 {
            assert(symbol_table()[4].0@ == "MINUS_ASSIGN"@);
        }
        if j == 5 {
            assert(symbol_table()[5].0@ == "MULTIPLY_ASSIGN"@);
        }
        if j == 6 {
            assert(symbol_table()[6].0@ == "DIVIDE_ASSIGN"@);
        }
        if j == 7 {
            assert(symbol_table()[7].0@ == "MODULUS_ASSIGN"@);
        }
        if j == 8 {
            assert(symbol_table()[8].0@ == "BITWISE_AND_ASSIGN"@);
        }
        if j == 9 {
            assert(symbol_table()[9].0@ == "BITWISE_XOR_ASSIGN"@);
        }
        if j == 10 {
            assert(symbol_table()[10].0@ == "BITWISE_NOT_ASSIGN"@);
        }
        if j == 11 {
            assert(symbol_table()[11].0@ == "LEFT_SHIFT_ASSIGN"@);
        }
        if j == 12 {
            assert(symbol_table()[12].0@ == "RIGHT_SHIFT_ASSIGN"@);
        }
        if j == 13 {
            assert(symbol_table()[13].0@ == "PLUS"@);
        }
        if j == 14 {
            assert(symbol_table()[14].0@ == "MINUS"@);
        }
        if j == 15 {
            assert(symbol_table()[15].0@ == "MULTIPLY"@);
        }
        if j == 16 {
            assert(symbol_table()[16].0@ == "DIVIDE"@);
        }
        if j == 17 {
            assert(symbol_table()[17].0@ == "MODULUS"@);
        }
        if j == 18 {
            assert(symbol_table()[18].0@ == "LOGICAL_AND"@);
        }
        if j == 19 {
            assert(symbol_table()[19].0@ == "BITWISE_AND"@);
        }
        if j == 20 {
            assert(symbol_table()[20].0@ == "BITWISE_XOR"@);
        }
        if j == 21 {
            assert(symbol_table()[21].0@ == "BITWISE_NOT"@);
        }
        if j == 22 {
            assert(symbol_table()[22].0@ == "LEFT_SHIFT"@);
        }
        if j == 23 {
            assert(symbol_table()[23].0@ == "RIGHT_SHIFT"@);
        }
        if j == 24 {
            assert(symbol_table()[24].0@ == "CIRCOM_L_ASSIGN"@);
        }
        if j == 25 {
            assert(symbol_table()[25].0@ == "CIRCOM_R_ASSIGN"@);
        }
        if j == 26 {
            assert(symbol_table()[26].0@ == "CIRCOM_L_CONSTRAINT_ASSIGN"@);
        }
        if j == 27 {
            assert(symbol_table()[27].0@ == "CIRCOM_R_CONSTRAINT_ASSIGN"@);
        }
    }
}

proof fn lemma_key_first_29()
    ensures
        forall|j: int| 0 <= j < 29 ==> (#[trigger] symbol_table()[j]).0@ != symbol_table()[29].0@,
{
    reveal_strlit("BITWISE_AND");
    assert("BITWISE_AND"@ =~= seq!['B', 'I', 'T', 'W', 'I', 'S', 'E', '_', 'A', 'N', 'D']);
    reveal_strlit("BITWISE_AND_ASSIGN");
    assert("BITWISE_AND_ASSIGN"@ =~= seq!['B', 'I', 'T', 'W', 'I', 'S', 'E', '_', 'A', 'N', 'D', '_', 'A', 'S', 'S', 'I', 'G', 'N']);
    reveal_strlit("BITWISE_NOT");
    assert("BITWISE_NOT"@ =~= seq!['B', 'I', 'T', 'W', 'I', 'S', 'E', '_', 'N', 'O', 'T']);
    reveal_strlit("BITWISE_NOT_ASSIGN");
    assert("BITWISE_NOT_ASSIGN"@ =~= seq!['B', 'I', 'T', 'W', 'I', 'S', 'E', '_', 'N', 'O', 'T', '_', 'A', 'S', 'S', 'I', 'G', 'N']);
    reveal_strlit("BITWISE_XOR");
    assert("BITWISE_XOR"@ =~= seq!['B', 'I', 'T', 'W', 'I', 'S', 'E', '_', 'X', 'O', 'R']);
    reveal_strlit("BITWISE_XOR_ASSIGN");
    assert("BITWISE_XOR_ASSIGN"@ =~= seq!['B', 'I', 'T', 'W', 'I', 'S', 'E', '_', 'X', 'O', 'R', '_', 'A', 'S', 'S', 'I', 'G', 'N']);
    reveal_strlit("CIRCOM_CONSTRAINT");
    assert("CIRCOM_CONSTRAINT"@ =~= seq!['C', 'I', 'R', 'C', 'O', 'M', '_', 'C', 'O', 'N', 'S', 'T', 'R', 'A', 'I', 'N', 'T']);
    reveal_strlit("CIRCOM_L_ASSIGN");
    assert("CIRCOM_L_ASSIGN"@ =~= seq!['C', 'I', 'R', 'C', 'O', 'M', '_', 'L', '_', 'A', 'S', 'S', 'I', 'G', 'N']);
    reveal_strlit("CIRCOM_L_CONSTRAINT_ASSIGN");
    assert("CIRCOM_L_CONSTRAINT_ASSIGN"@ =~= seq!['C', 'I', 'R', 'C', 'O', 'M', '_', 'L', '_', 'C', 'O', 'N', 'S', 'T', 'R', 'A', 'I', 'N', 'T', '_', 'A', 'S', 'S', 'I', 'G', 'N']);
    reveal_strlit("CIRCOM_R_ASSIGN");
    assert("CIRCOM_R_ASSIGN"@ =~= seq!['C', 'I', 'R', 'C', 'O', 'M', '_', 'R', '_', 'A', 'S', 'S', 'I', 'G', 'N']);
    reveal_strlit("CIRCOM_R_CONSTRAINT_ASSIGN");
    assert("CIRCOM_R_CONSTRAINT_ASSIGN"@ =~= seq!['C', 'I', 'R', 'C', 'O', 'M', '_', 'R', '_', 'C', 'O', 'N', 'S', 'T', 'R', 'A', 'I', 'N', 'T', '_', 'A', 'S', 'S', 'I', 'G', 'N']);
    reveal_strlit("DECREMENT");
    assert("DECREMENT"@ =~= seq!['D', 'E', 'C', 'R', 'E', 'M', 'E', 'N', 'T']);
    reveal_strlit("DIVIDE");
    assert("DIVIDE"@ =~= seq!['D', 'I', 'V', 'I', 'D', 'E']);
    reveal_strlit("DIVIDE_ASSIGN");
    assert("DIVIDE_ASSIGN"@ =~= seq!['D', 'I', 'V', 'I', 'D', 'E', '_', 'A', 'S', 'S', 'I', 'G', 'N']);
    reveal_strlit("EQUAL");
    assert("EQUAL"@ =~= seq!['E', 'Q', 'U', 'A', 'L']);
    reveal_strlit("INCREMENT");
    assert("INCREMENT"@ =~= seq!['I', 'N', 'C', 'R', 'E', 'M', 'E', 'N', 'T']);
    reveal_strlit("LEFT_SHIFT");
    assert("LEFT_SHIFT"@ =~= seq!['L', 'E', 'F', 'T', '_', 'S', 'H', 'I', 'F', 'T']);
    reveal_strlit("LEFT_SHIFT_ASSIGN");
    assert("LEFT_SHIFT_ASSIGN"@ =~= seq!['L', 'E', 'F', 'T', '_', 'S', 'H', 'I', 'F', 'T', '_', 'A', 'S', 'S', 'I', 'G', 'N']);
    reveal_strlit("LOGICAL_AND");
    assert("LOGICAL_AND"@ =~= seq!['L', 'O', 'G', 'I', 'C', 'A', 'L', '_', 'A', 'N', 'D']);
    reveal_strlit("MINUS");
    assert("MINUS"@ =~= seq!['M', 'I', 'N', 'U', 'S']);
    reveal_strlit("MINUS_ASSIGN");
    assert("MINUS_ASSIGN"@ =~= seq!['M', 'I', 'N', 'U', 'S', '_', 'A', 'S', 'S', 'I', 'G', 'N']);
    reveal_strlit("MODULUS");
    assert("MODULUS"@ =~= seq!['M', 'O', 'D', 'U', 'L', 'U', 'S']);
    reveal_strlit("MODULUS_ASSIGN");
    assert("MODULUS_ASSIGN"@ =~= seq!['M', 'O', 'D', 'U', 'L', 'U', 'S', '_', 'A', 'S', 'S', 'I', 'G', 'N']);
    reveal_strlit("MULTIPLY");
    assert("MULTIPLY"@ =~= seq!['M', 'U', 'L', 'T', 'I', 'P', 'L', 'Y']);
    reveal_strlit("MULTIPLY_ASSIGN");
    assert("MULTIPLY_ASSIGN"@ =~= seq!['M', 'U', 'L', 'T', 'I', 'P', 'L', 'Y', '_', 'A', 'S', 'S', 'I', 'G', 'N']);
    reveal_strlit("PLUS");
    assert("PLUS"@ =~= seq!['P', 'L', 'U', 'S']);
    reveal_strlit("PLUS_ASSIGN");
    assert("PLUS_ASSIGN"@ =~= seq!['P', 'L', 'U', 'S', '_', 'A', 'S', 'S', 'I', 'G', 'N']);
    reveal_strlit("RIGHT_SHIFT");
    assert("RIGHT_SHIFT"@ =~= seq!['R', 'I', 'G', 'H', 'T', '_', 'S', 'H', 'I', 'F', 'T']);
    reveal_strlit("RIGHT_SHIFT_ASSIGN");
    assert("RIGHT_SHIFT_ASSIGN"@ =~= seq!['R', 'I', 'G', 'H', 'T', '_', 'S', 'H', 'I', 'F', 'T', '_', 'A', 'S', 'S', 'I', 'G', 'N']);
    reveal_strlit("SEMICOLON");
    assert("SEMICOLON"@ =~= seq!['S', 'E', 'M', 'I', 'C', 'O', 'L', 'O', 'N']);
    assert(symbol_table()[0].0 == "SEMICOLON");
    assert(symbol_table()[1].0 == "INCREMENT");
    assert(symbol_table()[2].0 == "DECREMENT");
    assert(symbol_table()[3].0 == "PLUS_ASSIGN");
    assert(symbol_table()[4].0 == "MINUS_ASSIGN");
    assert(symbol_table()[5].0 == "MULTIPLY_ASSIGN");
    assert(symbol_table()[6].0 == "DIVIDE_ASSIGN");
    assert(symbol_table()[7].0 == "MODULUS_ASSIGN");
    assert(symbol_table()[8].0 == "BITWISE_AND_ASSIGN");
    assert(symbol_table()[9].0 == "BITWISE_XOR_ASSIGN");
    assert(symbol_table()[10].0 == "BITWISE_NOT_ASSIGN");
    assert(symbol_table()[11].0 == "LEFT_SHIFT_ASSIGN");
    assert(symbol_table()[12].0 == "RIGHT_SHIFT_ASSIGN");
    assert(symbol_table()[13].0 == "PLUS");
    assert(symbol_table()[14].0 == "MINUS");
    assert(symbol_table()[15].0 == "MULTIPLY");
    assert(symbol_table()[16].0 == "DIVIDE");
    assert(symbol_table()[17].0 == "MODULUS");
    assert(symbol_table()[18].0 == "LOGICAL_AND");
    assert(symbol_table()[19].0 == "BITWISE_AND");
    assert(symbol_table()[20].0 == "BITWISE_XOR");
    assert(symbol_table()[21].0 == "BITWISE_NOT");
    assert(symbol_table()[22].0 == "LEFT_SHIFT");
    assert(symbol_table()[23].0 == "RIGHT_SHIFT");
    assert(symbol_table()[24].0 == "CIRCOM_L_ASSIGN");
    assert(symbol_table()[25].0 == "CIRCOM_R_ASSIGN");
    assert(symbol_table()[26].0 == "CIRCOM_L_CONSTRAINT_ASSIGN");
    assert(symbol_table()[27].0 == "CIRCOM_R_CONSTRAINT_ASSIGN");
    assert(symbol_table()[28].0 == "CIRCOM_CONSTRAINT");
    assert(symbol_table()[29].0 == "EQUAL");
    assert forall|j: int| 0 <= j < 29 implies (#[trigger] symbol_table()[j]).0@ != symbol_table()[29].0@ by {
        if j == 0 {
            assert(symbol_table()[0].0@ == "SEMICOLON"@);
        }
        if j == 1 {
            assert(symbol_table()[1].0@ == "INCREMENT"@);
        }
        if j == 2 {
            assert(symbol_table()[2].0@ == "DECREMENT"@);
        }
        if j == 3 {
            assert(symbol_table()[3].0@ == "PLUS_ASSIGN"@);
        }
        if j == 4 {
            assert(symbol_table()[4].0@ == "MINUS_ASSIGN"@);
        }
        if j == 5 {
            assert(symbol_table()[5].0@ == "MULTIPLY_ASSIGN"@);
        }
        if j == 6 {
            assert(symbol_table()[6].0@ == "DIVIDE_ASSIGN"@);
        }
        if j == 7 {
            assert(symbol_table()[7].0@ == "MODULUS_ASSIGN"@);
        }
        if j == 8 {
            assert(symbol_table()[8].0@ == "BITWISE_AND_ASSIGN"@);
        }
        if j == 9 {
            assert(symbol_table()[9].0@ == "BITWISE_XOR_ASSIGN"@);
        }
        if j == 10 {
            assert(symbol_table()[10].0@ == "BITWISE_NOT_ASSIGN"@);
        }
        if j == 11 {
            assert(symbol_table()[11].0@ == "LEFT_SHIFT_ASSIGN"@);
        }
        if j == 12 {
            assert(symbol_table()[12].0@ == "RIGHT_SHIFT_ASSIGN"@);
        }
        if j == 13 {
            assert(symbol_table()[13].0@ == "PLUS"@);
        }
        if j == 14 {
            assert(symbol_table()[14].0@ == "MINUS"@);
        }
        if j == 15 {
            assert(symbol_table()[15].0@ == "MULTIPLY"@);
        }
        if j == 16 {
            assert(symbol_table()[16].0@ == "DIVIDE"@);
        }
        if j == 17 {
            assert(symbol_table()[17].0@ == "MODULUS"@);
        }
        if j == 18 {
            assert(symbol_table()[18].0@ == "LOGICAL_AND"@);
        }
        if j == 19 {
            assert(symbol_table()[19].0@ == "BITWISE_AND"@);
        }
        if j == 20 {
            assert(symbol_table()[20].0@ == "BITWISE_XOR"@);
        }
        if j == 21 {
            assert(symbol_table()[21].0@ == "BITWISE_NOT"@);
        }
        if j == 22 {
            assert(symbol_table()[22].0@ == "LEFT_SHIFT"@);
        }
        if j == 23 {
            assert(symbol_table()[23].0@ == "RIGHT_SHIFT"@);
        }
        if j == 24 {
            assert(symbol_table()[24].0@ == "CIRCOM_L_ASSIGN"@);
        }
        if j == 25 {
            assert(symbol_table()[25].0@ == "CIRCOM_R_ASSIGN"@);
        }
        if j == 26 {
            assert(symbol_table()[26].0@ == "CIRCOM_L_CONSTRAINT_ASSIGN"@);
        }
        if j == 27 {
            assert(symbol_table()[27].0@ == "CIRCOM_R_CONSTRAINT_ASSIGN"@);
        }
        if j == 28 {
            assert(symbol_table()[28].0@ == "CIRCOM_CONSTRAINT"@);
        }
    }
}

proof fn lemma_key_first_30()
    ensures
        forall|j: int| 0 <= j < 30 ==> (#[trigger] symbol_table()[j]).0@ != symbol_table()[30].0@,
{
    reveal_strlit("BITWISE_AND");
    assert("BITWISE_AND"@ =~= seq!['B', 'I', 'T', 'W', 'I', 'S', 'E', '_', 'A', 'N', 'D']);
    reveal_strlit("BITWISE_AND_ASSIGN");
    assert("BITWISE_AND_ASSIGN"@ =~= seq!['B', 'I', 'T', 'W', 'I', 'S', 'E', '_', 'A', 'N', 'D', '_', 'A', 'S', 'S', 'I', 'G', 'N']);
    reveal_strlit("BITWISE_NOT");
    assert("BITWISE_NOT"@ =~= seq!['B', 'I', 'T', 'W', 'I', 'S', 'E', '_', 'N', 'O', 'T']);
    reveal_strlit("BITWISE_NOT_ASSIGN");
    assert("BITWISE_NOT_ASSIGN"@ =~= seq!['B', 'I', 'T', 'W', 'I', 'S', 'E', '_', 'N', 'O', 'T', '_', 'A', 'S', 'S', 'I', 'G', 'N']);
    reveal_strlit("BITWISE_XOR");
    assert("BITWISE_XOR"@ =~= seq!['B', 'I', 'T', 'W', 'I', 'S', 'E', '_', 'X', 'O', 'R']);
    reveal_strlit("BITWISE_XOR_ASSIGN");
    assert("BITWISE_XOR_ASSIGN"@ =~= seq!['B', 'I', 'T', 'W', 'I', 'S', 'E', '_', 'X', 'O', 'R', '_', 'A', 'S', 'S', 'I', 'G', 'N']);
    reveal_strlit("CIRCOM_CONSTRAINT");
    assert("CIRCOM_CONSTRAINT"@ =~= seq!['C', 'I', 'R', 'C', 'O', 'M', '_', 'C', 'O', 'N', 'S', 'T', 'R', 'A', 'I', 'N', 'T']);
    reveal_strlit("CIRCOM_L_ASSIGN");
    assert("CIRCOM_L_ASSIGN"@ =~= seq!['C', 'I', 'R', 'C', 'O', 'M', '_', 'L', '_', 'A', 'S', 'S', 'I', 'G', 'N']);
    reveal_strlit("CIRCOM_L_CONSTRAINT_ASSIGN");
    assert("CIRCOM_L_CONSTRAINT_ASSIGN"@ =~= seq!['C', 'I', 'R', 'C', 'O', 'M', '_', 'L', '_', 'C', 'O', 'N', 'S', 'T', 'R', 'A', 'I', 'N', 'T', '_', 'A', 'S', 'S', 'I', 'G', 'N']);
    reveal_strlit("CIRCOM_R_ASSIGN");
    assert("CIRCOM_R_ASSIGN"@ =~= seq!['C', 'I', 'R', 'C', 'O', 'M', '_', 'R', '_', 'A', 'S', 'S', 'I', 'G', 'N']);
    reveal_strlit("CIRCOM_R_CONSTRAINT_ASSIGN");
    assert("CIRCOM_R_CONSTRAINT_ASSIGN"@ =~= seq!['C', 'I', 'R', 'C', 'O', 'M', '_', 'R', '_', 'C', 'O', 'N', 'S', 'T', 'R', 'A', 'I', 'N', 'T', '_', 'A', 'S', 'S', 'I', 'G', 'N']);
    reveal_strlit("DECREMENT");
    assert("DECREMENT"@ =~= seq!['D', 'E', 'C', 'R', 'E', 'M', 'E', 'N', 'T']);
    reveal_strlit("DIVIDE");
    assert("DIVIDE"@ =~= seq!['D', 'I', 'V', 'I', 'D', 'E']);
    reveal_strlit("DIVIDE_ASSIGN");
    assert("DIVIDE_ASSIGN"@ =~= seq!['D', 'I', 'V', 'I', 'D', 'E', '_', 'A', 'S', 'S', 'I', 'G', 'N']);
    reveal_strlit("EQUAL");
    assert("EQUAL"@ =~= seq!['E', 'Q', 'U', 'A', 'L']);
    reveal_strlit("INCREMENT");
    assert("INCREMENT"@ =~= seq!['I', 'N', 'C', 'R', 'E', 'M', 'E', 'N', 'T']);
    reveal_strlit("LEFT_SHIFT");
    assert("LEFT_SHIFT"@ =~= seq!['L', 'E', 'F', 'T', '_', 'S', 'H', 'I', 'F', 'T']);
    reveal_strlit("LEFT_SHIFT_ASSIGN");
    assert("LEFT_SHIFT_ASSIGN"@ =~= seq!['L', 'E', 'F', 'T', '_', 'S', 'H', 'I', 'F', 'T', '_', 'A', 'S', 'S', 'I', 'G', 'N']);
    reveal_strlit("LOGICAL_AND");
    assert("LOGICAL_AND"@ =~= seq!['L', 'O', 'G', 'I', 'C', 'A', 'L', '_', 'A', 'N', 'D']);
    reveal_strlit("MINUS");
    assert("MINUS"@ =~= seq!['M', 'I', 'N', 'U', 'S']);
    reveal_strlit("MINUS_ASSIGN");
    assert("MINUS_ASSIGN"@ =~= seq!['M', 'I', 'N', 'U', 'S', '_', 'A', 'S', 'S', 'I', 'G', 'N']);
    reveal_strlit("MODULUS");
    assert("MODULUS"@ =~= seq!['M', 'O', 'D', 'U', 'L', 'U', 'S']);
    reveal_strlit("MODULUS_ASSIGN");
    assert("MODULUS_ASSIGN"@ =~= seq!['M', 'O', 'D', 'U', 'L', 'U', 'S', '_', 'A', 'S', 'S', 'I', 'G', 'N']);
    reveal_strlit("MULTIPLY");
    assert("MULTIPLY"@ =~= seq!['M', 'U', 'L', 'T', 'I', 'P', 'L', 'Y']);
    reveal_strlit("MULTIPLY_ASSIGN");
    assert("MULTIPLY_ASSIGN"@ =~= seq!['M', 'U', 'L', 'T', 'I', 'P', 'L', 'Y', '_', 'A', 'S', 'S', 'I', 'G', 'N']);
    reveal_strlit("NOT_EQUAL");
    assert("NOT_EQUAL"@ =~= seq!['N', 'O', 'T', '_', 'E', 'Q', 'U', 'A', 'L']);
    reveal_strlit("PLUS");
    assert("PLUS"@ =~= seq!['P', 'L', 'U', 'S']);
    reveal_strlit("PLUS_ASSIGN");
    assert("PLUS_ASSIGN"@ =~= seq!['P', 'L', 'U', 'S', '_', 'A', 'S', 'S', 'I', 'G', 'N']);
    reveal_strlit("RIGHT_SHIFT");
    assert("RIGHT_SHIFT"@ =~= seq!['R', 'I', 'G', 'H', 'T', '_', 'S', 'H', 'I', 'F', 'T']);
    reveal_strlit("RIGHT_SHIFT_ASSIGN");
    assert("RIGHT_SHIFT_ASSIGN"@ =~= seq!['R', 'I', 'G', 'H', 'T', '_', 'S', 'H', 'I', 'F', 'T', '_', 'A', 'S', 'S', 'I', 'G', 'N']);
    reveal_strlit("SEMICOLON");
    assert("SEMICOLON"@ =~= seq!['S', 'E', 'M', 'I', 'C', 'O', 'L', 'O', 'N']);
    assert(symbol_table()[0].0 == "SEMICOLON");
    assert(symbol_table()[1].0 == "INCREMENT");
    assert(symbol_table()[2].0 == "DECREMENT");
    assert(symbol_table()[3].0 == "PLUS_ASSIGN");
    assert(symbol_table()[4].0 == "MINUS_ASSIGN");
    assert(symbol_table()[5].0 == "MULTIPLY_ASSIGN");
    assert(symbol_table()[6].0 == "DIVIDE_ASSIGN");
    assert(symbol_table()[7].0 == "MODULUS_ASSIGN");
    assert(symbol_table()[8].0 == "BITWISE_AND_ASSIGN");
    assert(symbol_table()[9].0 == "BITWISE_XOR_ASSIGN");
    assert(symbol_table()[10].0 == "BITWISE_NOT_ASSIGN");
    assert(symbol_table()[11].0 == "LEFT_SHIFT_ASSIGN");
    assert(symbol_table()[12].0 == "RIGHT_SHIFT_ASSIGN");
    assert(symbol_table()[13].0 == "PLUS");
    assert(symbol_table()[14].0 == "MINUS");
    assert(symbol_table()[15].0 == "MULTIPLY");
    assert(symbol_table()[16].0 == "DIVIDE");
    assert(symbol_table()[17].0 == "MODULUS");
    assert(symbol_table()[18].0 == "LOGICAL_AND");
    assert(symbol_table()[19].0 == "BITWISE_AND");
    assert(symbol_table()[20].0 == "BITWISE_XOR");
    assert(symbol_table()[21].0 == "BITWISE_NOT");
    assert(symbol_table()[22].0 == "LEFT_SHIFT");
    assert(symbol_table()[23].0 == "RIGHT_SHIFT");
    assert(symbol_table()[24].0 == "CIRCOM_L_ASSIGN");
    assert(symbol_table()[25].0 == "CIRCOM_R_ASSIGN");
    assert(symbol_table()[26].0 == "CIRCOM_L_CONSTRAINT_ASSIGN");
    assert(symbol_table()[27].0 == "CIRCOM_R_CONSTRAINT_ASSIGN");
    assert(symbol_table()[28].0 == "CIRCOM_CONSTRAINT");
    assert(symbol_table()[29].0 == "EQUAL");
    assert(symbol_table()[30].0 == "NOT_EQUAL");
    assert forall|j: int| 0 <= j < 30 implies (#[trigger] symbol_table()[j]).0@ != symbol_table()[30].0@ by {
        if j == 0 {
            assert(symbol_table()[0].0@ == "SEMICOLON"@);
        }
        if j == 1 {
            assert(symbol_table()[1].0@ == "INCREMENT"@);
        }
        if j == 2 {
            assert(symbol_table()[2].0@ == "DECREMENT"@);
        }
        if j == 3 {
            assert(symbol_table()[3].0@ == "PLUS_ASSIGN"@);
        }
        if j == 4 {
            assert(symbol_table()[4].0@ == "MINUS_ASSIGN"@);
        }
        if j == 5 {
            assert(symbol_table()[5].0@ == "MULTIPLY_ASSIGN"@);
        }
        if j == 6 {
            assert(symbol_table()[6].0@ == "DIVIDE_ASSIGN"@);
        }
        if j == 7 {
            assert(symbol_table()[7].0@ == "MODULUS_ASSIGN"@);
        }
        if j == 8 {
            assert(symbol_table()[8].0@ == "BITWISE_AND_ASSIGN"@);
        }
        if j == 9 {
            assert(symbol_table()[9].0@ == "BITWISE_XOR_ASSIGN"@);
        }
        if j == 10 {
            assert(symbol_table()[10].0@ == "BITWISE_NOT_ASSIGN"@);
        }
        if j == 11 {
            assert(symbol_table()[11].0@ == "LEFT_SHIFT_ASSIGN"@);
        }
        if j == 12 {
            assert(symbol_table()[12].0@ == "RIGHT_SHIFT_ASSIGN"@);
        }
        if j == 13 {
            assert(symbol_table()[13].0@ == "PLUS"@);
        }
        if j == 14 {
            assert(symbol_table()[14].0@ == "MINUS"@);
        }
        if j == 15 {
            assert(symbol_table()[15].0@ == "MULTIPLY"@);
        }
        if j == 16 {
            assert(symbol_table()[16].0@ == "DIVIDE"@);
        }
        if j == 17 {
            assert(symbol_table()[17].0@ == "MODULUS"@);
        }
        if j == 18 {
            assert(symbol_table()[18].0@ == "LOGICAL_AND"@);
        }
        if j == 19 {
            assert(symbol_table()[19].0@ == "BITWISE_AND"@);
        }
        if j == 20 {
            assert(symbol_table()[20].0@ == "BITWISE_XOR"@);
        }
        if j == 21 {
            assert(symbol_table()[21].0@ == "BITWISE_NOT"@);
        }
        if j == 22 {
            assert(symbol_table()[22].0@ == "LEFT_SHIFT"@);
        }
        if j == 23 {
            assert(symbol_table()[23].0@ == "RIGHT_SHIFT"@);
        }
        if j == 24 {
            assert(symbol_table()[24].0@ == "CIRCOM_L_ASSIGN"@);
        }
        if j == 25 {
            assert(symbol_table()[25].0@ == "CIRCOM_R_ASSIGN"@);
        }
        if j == 26 {
            assert(symbol_table()[26].0@ == "CIRCOM_L_CONSTRAINT_ASSIGN"@);
        }
        if j == 27 {
            assert(symbol_table()[27].0@ == "CIRCOM_R_CONSTRAINT_ASSIGN"@);
        }
        if j == 28 {
            assert(symbol_table()[28].0@ == "CIRCOM_CONSTRAINT"@);
        }
        if j == 29 {
            assert(symbol_table()[29].0@ == "EQUAL"@);
        }
    }
}

proof fn lemma_key_first_31()
    ensures
        forall|j: int| 0 <= j < 31 ==> (#[trigger] symbol_table()[j]).0@ != symbol_table()[31].0@,
{
    reveal_strlit("BITWISE_AND");
    assert("BITWISE_AND"@ =~= seq!['B', 'I', 'T', 'W', 'I', 'S', 'E', '_', 'A', 'N', 'D']);
    reveal_strlit("BITWISE_AND_ASSIGN");
    assert("BITWISE_AND_ASSIGN"@ =~= seq!['B', 'I', 'T', 'W', 'I', 'S', 'E', '_', 'A', 'N', 'D', '_', 'A', 'S', 'S', 'I', 'G', 'N']);
    reveal_strlit("BITWISE_NOT");
    assert("BITWISE_NOT"@ =~= seq!['B', 'I', 'T', 'W', 'I', 'S', 'E', '_', 'N', 'O', 'T']);
    reveal_strlit("BITWISE_NOT_ASSIGN");
    assert("BITWISE_NOT_ASSIGN"@ =~= seq!['B', 'I', 'T', 'W', 'I', 'S', 'E', '_', 'N', 'O', 'T', '_', 'A', 'S', 'S', 'I', 'G', 'N']);
    reveal_strlit("BITWISE_XOR");
    assert("BITWISE_XOR"@ =~= seq!['B', 'I', 'T', 'W', 'I', 'S', 'E', '_', 'X', 'O', 'R']);
    reveal_strlit("BITWISE_XOR_ASSIGN");
    assert("BITWISE_XOR_ASSIGN"@ =~= seq!['B', 'I', 'T', 'W', 'I', 'S', 'E', '_', 'X', 'O', 'R', '_', 'A', 'S', 'S', 'I', 'G', 'N']);
    reveal_strlit("CIRCOM_CONSTRAINT");
    assert("CIRCOM_CONSTRAINT"@ =~= seq!['C', 'I', 'R', 'C', 'O', 'M', '_', 'C', 'O', 'N', 'S', 'T', 'R', 'A', 'I', 'N', 'T']);
    reveal_strlit("CIRCOM_L_ASSIGN");
    assert("CIRCOM_L_ASSIGN"@ =~= seq!['C', 'I', 'R', 'C', 'O', 'M', '_', 'L', '_', 'A', 'S', 'S', 'I', 'G', 'N']);
    reveal_strlit("CIRCOM_L_CONSTRAINT_ASSIGN");
    assert("CIRCOM_L_CONSTRAINT_ASSIGN"@ =~= seq!['C', 'I', 'R', 'C', 'O', 'M', '_', 'L', '_', 'C', 'O', 'N', 'S', 'T', 'R', 'A', 'I', 'N', 'T', '_', 'A', 'S', 'S', 'I', 'G', 'N']);
    reveal_strlit("CIRCOM_R_ASSIGN");
    assert("CIRCOM_R_ASSIGN"@ =~= seq!['C', 'I', 'R', 'C', 'O', 'M', '_', 'R', '_', 'A', 'S', 'S', 'I', 'G', 'N']);
    reveal_strlit("CIRCOM_R_CONSTRAINT_ASSIGN");
    assert("CIRCOM_R_CONSTRAINT_ASSIGN"@ =~= seq!['C', 'I', 'R', 'C', 'O', 'M', '_', 'R', '_', 'C', 'O', 'N', 'S', 'T', 'R', 'A', 'I', 'N', 'T', '_', 'A', 'S', 'S', 'I', 'G', 'N']);
    reveal_strlit("DECREMENT");
    assert("DECREMENT"@ =~= seq!['D', 'E', 'C', 'R', 'E', 'M', 'E', 'N', 'T']);
    reveal_strlit("DIVIDE");
    assert("DIVIDE"@ =~= seq!['D', 'I', 'V', 'I', 'D', 'E']);
    reveal_strlit("DIVIDE_ASSIGN");
    assert("DIVIDE_ASSIGN"@ =~= seq!['D', 'I', 'V', 'I', 'D', 'E', '_', 'A', 'S', 'S', 'I', 'G', 'N']);
    reveal_strlit("EQUAL");
    assert("EQUAL"@ =~= seq!['E', 'Q', 'U', 'A', 'L']);
    reveal_strlit("INCREMENT");
    assert("INCREMENT"@ =~= seq!['I', 'N', 'C', 'R', 'E', 'M', 'E', 'N', 'T']);
    reveal_strlit("LEFT_SHIFT");
    assert("LEFT_SHIFT"@ =~= seq!['L', 'E', 'F', 'T', '_', 'S', 'H', 'I', 'F', 'T']);
    reveal_strlit("LEFT_SHIFT_ASSIGN");
    assert("LEFT_SHIFT_ASSIGN"@ =~= seq!['L', 'E', 'F', 'T', '_', 'S', 'H', 'I', 'F', 'T', '_', 'A', 'S', 'S', 'I', 'G', 'N']);
    reveal_strlit("LESS_THAN_OR_EQUAL");
    assert("LESS_THAN_OR_EQUAL"@ =~= seq!['L', 'E', 'S', 'S', '_', 'T', 'H', 'A', 'N', '_', 'O', 'R', '_', 'E', 'Q', 'U', 'A', 'L']);
    reveal_strlit("LOGICAL_AND");
    assert("LOGICAL_AND"@ =~= seq!['L', 'O', 'G', 'I', 'C', 'A', 'L', '_', 'A', 'N', 'D']);
    reveal_strlit("MINUS");
    assert("MINUS"@ =~= seq!['M', 'I', 'N', 'U', 'S']);
    reveal_strlit("MINUS_ASSIGN");
    assert("MINUS_ASSIGN"@ =~= seq!['M', 'I', 'N', 'U', 'S', '_', 'A', 'S', 'S', 'I', 'G', 'N']);
    reveal_strlit("MODULUS");
    assert("MODULUS"@ =~= seq!['M', 'O', 'D', 'U', 'L', 'U', 'S']);
    reveal_strlit("MODULUS_ASSIGN");
    assert("MODULUS_ASSIGN"@ =~= seq!['M', 'O', 'D', 'U', 'L', 'U', 'S', '_', 'A', 'S', 'S', 'I', 'G', 'N']);
    reveal_strlit("MULTIPLY");
    assert("MULTIPLY"@ =~= seq!['M', 'U', 'L', 'T', 'I', 'P', 'L', 'Y']);
    reveal_strlit("MULTIPLY_ASSIGN");
    assert("MULTIPLY_ASSIGN"@ =~= seq!['M', 'U', 'L', 'T', 'I', 'P', 'L', 'Y', '_', 'A', 'S', 'S', 'I', 'G', 'N']);
    reveal_strlit("NOT_EQUAL");
    assert("NOT_EQUAL"@ =~= seq!['N', 'O', 'T', '_', 'E', 'Q', 'U', 'A', 'L']);
    reveal_strlit("PLUS");
    assert("PLUS"@ =~= seq!['P', 'L', 'U', 'S']);
    reveal_strlit("PLUS_ASSIGN");
    assert("PLUS_ASSIGN"@ =~= seq!['P', 'L', 'U', 'S', '_', 'A', 'S', 'S', 'I', 'G', 'N']);
    reveal_strlit("RIGHT_SHIFT");
    assert("RIGHT_SHIFT"@ =~= seq!['R', 'I', 'G', 'H', 'T', '_', 'S', 'H', 'I', 'F', 'T']);
    reveal_strlit("RIGHT_SHIFT_ASSIGN");
    assert("RIGHT_SHIFT_ASSIGN"@ =~= seq!['R', 'I', 'G', 'H', 'T', '_', 'S', 'H', 'I', 'F', 'T', '_', 'A', 'S', 'S', 'I', 'G', 'N']);
    reveal_strlit("SEMICOLON");
    assert("SEMICOLON"@ =~= seq!['S', 'E', 'M', 'I', 'C', 'O', 'L', 'O', 'N']);
    assert(symbol_table()[0].0 == "SEMICOLON");
    assert(symbol_table()[1].0 == "INCREMENT");
    assert(symbol_table()[2].0 == "DECREMENT");
    assert(symbol_table()[3].0 == "PLUS_ASSIGN");
    assert(symbol_table()[4].0 == "MINUS_ASSIGN");
    assert(symbol_table()[5].0 == "MULTIPLY_ASSIGN");
    assert(symbol_table()[6].0 == "DIVIDE_ASSIGN");
    assert(symbol_table()[7].0 == "MODULUS_ASSIGN");
    assert(symbol_table()[8].0 == "BITWISE_AND_ASSIGN");
    assert(symbol_table()[9].0 == "BITWISE_XOR_ASSIGN");
    assert(symbol_table()[10].0 == "BITWISE_NOT_ASSIGN");
    assert(symbol_table()[11].0 == "LEFT_SHIFT_ASSIGN");
    assert(symbol_table()[12].0 == "RIGHT_SHIFT_ASSIGN");
    assert(symbol_table()[13].0 == "PLUS");
    assert(symbol_table()[14].0 == "MINUS");
    assert(symbol_table()[15].0 == "MULTIPLY");
    assert(symbol_table()[16].0 == "DIVIDE");
    assert(symbol_table()[17].0 == "MODULUS");
    assert(symbol_table()[18].0 == "LOGICAL_AND");
    assert(symbol_table()[19].0 == "BITWISE_AND");
    assert(symbol_table()[20].0 == "BITWISE_XOR");
    assert(symbol_table()[21].0 == "BITWISE_NOT");
    assert(symbol_table()[22].0 == "LEFT_SHIFT");
    assert(symbol_table()[23].0 == "RIGHT_SHIFT");
    assert(symbol_table()[24].0 == "CIRCOM_L_ASSIGN");
    assert(symbol_table()[25].0 == "CIRCOM_R_ASSIGN");
    assert(symbol_table()[26].0 == "CIRCOM_L_CONSTRAINT_ASSIGN");
    assert(symbol_table()[27].0 == "CIRCOM_R_CONSTRAINT_ASSIGN");
    assert(symbol_table()[28].0 == "CIRCOM_CONSTRAINT");
    assert(symbol_table()[29].0 == "EQUAL");
    assert(symbol_table()[30].0 == "NOT_EQUAL");
    assert(symbol_table()[31].0 == "LESS_THAN_OR_EQUAL");
    assert forall|j: int| 0 <= j < 31 implies (#[trigger] symbol_table()[j]).0@ != symbol_table()[31].0@ by {
        if j == 0 {
            assert(symbol_table()[0].0@ == "SEMICOLON"@);
        }
        if j == 1 {
            assert(symbol_table()[1].0@ == "INCREMENT"@);
        }
        if j == 2 {
            assert(symbol_table()[2].0@ == "DECREMENT"@);
        }
        if j == 3 {
            assert(symbol_table()[3].0@ == "PLUS_ASSIGN"@);
        }
        if j == 4 {
            assert(symbol_table()[4].0@ == "MINUS_ASSIGN"@);
        }
        if j == 5 {
            assert(symbol_table()[5].0@ == "MULTIPLY_ASSIGN"@);
        }
        if j == 6 {
            assert(symbol_table()[6].0@ == "DIVIDE_ASSIGN"@);
        }
        if j == 7 {
            assert(symbol_table()[7].0@ == "MODULUS_ASSIGN"@);
        }
        if j == 8 {
            assert(symbol_table()[8].0@ == "BITWISE_AND_ASSIGN"@);
        }
        if j == 9 {
            assert(symbol_table()[9].0@ == "BITWISE_XOR_ASSIGN"@);
        }
        if j == 10 {
            assert(symbol_table()[10].0@ == "BITWISE_NOT_ASSIGN"@);
        }
        if j == 11 {
            assert(symbol_table()[11].0@ == "LEFT_SHIFT_ASSIGN"@);
        }
        if j == 12 {
            assert(symbol_table()[12].0@ == "RIGHT_SHIFT_ASSIGN"@);
        }
        if j == 13 {
            assert(symbol_table()[13].0@ == "PLUS"@);
        }
        if j == 14 {
            assert(symbol_table()[14].0@ == "MINUS"@);
        }
        if j == 15 {
            assert(symbol_table()[15].0@ == "MULTIPLY"@);
        }
        if j == 16 {
            assert(symbol_table()[16].0@ == "DIVIDE"@);
        }
        if j == 17 {
            assert(symbol_table()[17].0@ == "MODULUS"@);
        }
        if j == 18 {
            assert(symbol_table()[18].0@ == "LOGICAL_AND"@);
        }
        if j == 19 {
            assert(symbol_table()[19].0@ == "BITWISE_AND"@);
        }
        if j == 20 {
            assert(symbol_table()[20].0@ == "BITWISE_XOR"@);
        }
        if j == 21 {
            assert(symbol_table()[21].0@ == "BITWISE_NOT"@);
        }
        if j == 22 {
            assert(symbol_table()[22].0@ == "LEFT_SHIFT"@);
        }
        if j == 23 {
            assert(symbol_table()[23].0@ == "RIGHT_SHIFT"@);
        }
        if j == 24 {
            assert(symbol_table()[24].0@ == "CIRCOM_L_ASSIGN"@);
        }
        if j == 25 {
            assert(symbol_table()[25].0@ == "CIRCOM_R_ASSIGN"@);
        }
        if j == 26 {
            assert(symbol_table()[26].0@ == "CIRCOM_L_CONSTRAINT_ASSIGN"@);
        }
        if j == 27 {
            assert(symbol_table()[27].0@ == "CIRCOM_R_CONSTRAINT_ASSIGN"@);
        }
        if j == 28 {
            assert(symbol_table()[28].0@ == "CIRCOM_CONSTRAINT"@);
        }
        if j == 29 {
            assert(symbol_table()[29].0@ == "EQUAL"@);
        }
        if j == 30 {
            assert(symbol_table()[30].0@ == "NOT_EQUAL"@);
        }
    }
}

proof fn lemma_key_first_32()
    ensures
        forall|j: int| 0 <= j < 32 ==> (#[trigger] symbol_table()[j]).0@ != symbol_table()[32].0@,
{
    reveal_strlit("BITWISE_AND");
    assert("BITWISE_AND"@ =~= seq!['B', 'I', 'T', 'W', 'I', 'S', 'E', '_', 'A', 'N', 'D']);
    reveal_strlit("BITWISE_AND_ASSIGN");
    assert("BITWISE_AND_ASSIGN"@ =~= seq!['B', 'I', 'T', 'W', 'I', 'S', 'E', '_', 'A', 'N', 'D', '_', 'A', 'S', 'S', 'I', 'G', 'N']);
    reveal_strlit("BITWISE_NOT");
    assert("BITWISE_NOT"@ =~= seq!['B', 'I', 'T', 'W', 'I', 'S', 'E', '_', 'N', 'O', 'T']);
    reveal_strlit("BITWISE_NOT_ASSIGN");
    assert("BITWISE_NOT_ASSIGN"@ =~= seq!['B', 'I', 'T', 'W', 'I', 'S', 'E', '_', 'N', 'O', 'T', '_', 'A', 'S', 'S', 'I', 'G', 'N']);
    reveal_strlit("BITWISE_XOR");
    assert("BITWISE_XOR"@ =~= seq!['B', 'I', 'T', 'W', 'I', 'S', 'E', '_', 'X', 'O', 'R']);
    reveal_strlit("BITWISE_XOR_ASSIGN");
    assert("BITWISE_XOR_ASSIGN"@ =~= seq!['B', 'I', 'T', 'W', 'I', 'S', 'E', '_', 'X', 'O', 'R', '_', 'A', 'S', 'S', 'I', 'G', 'N']);
    reveal_strlit("CIRCOM_CONSTRAINT");
    assert("CIRCOM_CONSTRAINT"@ =~= seq!['C', 'I', 'R', 'C', 'O', 'M', '_', 'C', 'O', 'N', 'S', 'T', 'R', 'A', 'I', 'N', 'T']);
    reveal_strlit("CIRCOM_L_ASSIGN");
    assert("CIRCOM_L_ASSIGN"@ =~= seq!['C', 'I', 'R', 'C', 'O', 'M', '_', 'L', '_', 'A', 'S', 'S', 'I', 'G', 'N']);
    reveal_strlit("CIRCOM_L_CONSTRAINT_ASSIGN");
    assert("CIRCOM_L_CONSTRAINT_ASSIGN"@ =~= seq!['C', 'I', 'R', 'C', 'O', 'M', '_', 'L', '_', 'C', 'O', 'N', 'S', 'T', 'R', 'A', 'I', 'N', 'T', '_', 'A', 'S', 'S', 'I', 'G', 'N']);
    reveal_strlit("CIRCOM_R_ASSIGN");
    assert("CIRCOM_R_ASSIGN"@ =~= seq!['C', 'I', 'R', 'C', 'O', 'M', '_', 'R', '_', 'A', 'S', 'S', 'I', 'G', 'N']);
    reveal_strlit("CIRCOM_R_CONSTRAINT_ASSIGN");
    assert("CIRCOM_R_CONSTRAINT_ASSIGN"@ =~= seq!['C', 'I', 'R', 'C', 'O', 'M', '_', 'R', '_', 'C', 'O', 'N', 'S', 'T', 'R', 'A', 'I', 'N', 'T', '_', 'A', 'S', 'S', 'I', 'G', 'N']);
    reveal_strlit("DECREMENT");
    assert("DECREMENT"@ =~= seq!['D', 'E', 'C', 'R', 'E', 'M', 'E', 'N', 'T']);
    reveal_strlit("DIVIDE");
    assert("DIVIDE"@ =~= seq!['D', 'I', 'V', 'I', 'D', 'E']);
    reveal_strlit("DIVIDE_ASSIGN");
    assert("DIVIDE_ASSIGN"@ =~= seq!['D', 'I', 'V', 'I', 'D', 'E', '_', 'A', 'S', 'S', 'I', 'G', 'N']);
    reveal_strlit("EQUAL");
    assert("EQUAL"@ =~= seq!['E', 'Q', 'U', 'A', 'L']);
    reveal_strlit("GREATER_THAN_OR_EQUAL");
    assert("GREATER_THAN_OR_EQUAL"@ =~= seq!['G', 'R', 'E', 'A', 'T', 'E', 'R', '_', 'T', 'H', 'A', 'N', '_', 'O', 'R', '_', 'E', 'Q', 'U', 'A', 'L']);
    reveal_strlit("INCREMENT");
    assert("INCREMENT"@ =~= seq!['I', 'N', 'C', 'R', 'E', 'M', 'E', 'N', 'T']);
    reveal_strlit("LEFT_SHIFT");
    assert("LEFT_SHIFT"@ =~= seq!['L', 'E', 'F', 'T', '_', 'S', 'H', 'I', 'F', 'T']);
    reveal_strlit("LEFT_SHIFT_ASSIGN");
    assert("LEFT_SHIFT_ASSIGN"@ =~= seq!['L', 'E', 'F', 'T', '_', 'S', 'H', 'I', 'F', 'T', '_', 'A', 'S', 'S', 'I', 'G', 'N']);
    reveal_strlit("LESS_THAN_OR_EQUAL");
    assert("LESS_THAN_OR_EQUAL"@ =~= seq!['L', 'E', 'S', 'S', '_', 'T', 'H', 'A', 'N', '_', 'O', 'R', '_', 'E', 'Q', 'U', 'A', 'L']);
    reveal_strlit("LOGICAL_AND");
    assert("LOGICAL_AND"@ =~= seq!['L', 'O', 'G', 'I', 'C', 'A', 'L', '_', 'A', 'N', 'D']);
    reveal_strlit("MINUS");
    assert("MINUS"@ =~= seq!['M', 'I', 'N', 'U', 'S']);
    reveal_strlit("MINUS_ASSIGN");
    assert("MINUS_ASSIGN"@ =~= seq!['M', 'I', 'N', 'U', 'S', '_', 'A', 'S', 'S', 'I', 'G', 'N']);
    reveal_strlit("MODULUS");
    assert("MODULUS"@ =~= seq!['M', 'O', 'D', 'U', 'L', 'U', 'S']);
    reveal_strlit("MODULUS_ASSIGN");
    assert("MODULUS_ASSIGN"@ =~= seq!['M', 'O', 'D', 'U', 'L', 'U', 'S', '_', 'A', 'S', 'S', 'I', 'G', 'N']);
    reveal_strlit("MULTIPLY");
    assert("MULTIPLY"@ =~= seq!['M', 'U', 'L', 'T', 'I', 'P', 'L', 'Y']);
    reveal_strlit("MULTIPLY_ASSIGN");
    assert("MULTIPLY_ASSIGN"@ =~= seq!['M', 'U', 'L', 'T', 'I', 'P', 'L', 'Y', '_', 'A', 'S', 'S', 'I', 'G', 'N']);
    reveal_strlit("NOT_EQUAL");
    assert("NOT_EQUAL"@ =~= seq!['N', 'O', 'T', '_', 'E', 'Q', 'U', 'A', 'L']);
    reveal_strlit("PLUS");
    assert("PLUS"@ =~= seq!['P', 'L', 'U', 'S']);
    reveal_strlit("PLUS_ASSIGN");
    assert("PLUS_ASSIGN"@ =~= seq!['P', 'L', 'U', 'S', '_', 'A', 'S', 'S', 'I', 'G', 'N']);
    reveal_strlit("RIGHT_SHIFT");
    assert("RIGHT_SHIFT"@ =~= seq!['R', 'I', 'G', 'H', 'T', '_', 'S', 'H', 'I', 'F', 'T']);
    reveal_strlit("RIGHT_SHIFT_ASSIGN");
    assert("RIGHT_SHIFT_ASSIGN"@ =~= seq!['R', 'I', 'G', 'H', 'T', '_', 'S', 'H', 'I', 'F', 'T', '_', 'A', 'S', 'S', 'I', 'G', 'N']);
    reveal_strlit("SEMICOLON");
    assert("SEMICOLON"@ =~= seq!['S', 'E', 'M', 'I', 'C', 'O', 'L', 'O', 'N']);
    assert(symbol_table()[0].0 == "SEMICOLON");
    assert(symbol_table()[1].0 == "INCREMENT");
    assert(symbol_table()[2].0 == "DECREMENT");
    assert(symbol_table()[3].0 == "PLUS_ASSIGN");
    assert(symbol_table()[4].0 == "MINUS_ASSIGN");
    assert(symbol_table()[5].0 == "MULTIPLY_ASSIGN");
    assert(symbol_table()[6].0 == "DIVIDE_ASSIGN");
    assert(symbol_table()[7].0 == "MODULUS_ASSIGN");
    assert(symbol_table()[8].0 == "BITWISE_AND_ASSIGN");
    assert(symbol_table()[9].0 == "BITWISE_XOR_ASSIGN");
    assert(symbol_table()[10].0 == "BITWISE_NOT_ASSIGN");
    assert(symbol_table()[11].0 == "LEFT_SHIFT_ASSIGN");
    assert(symbol_table()[12].0 == "RIGHT_SHIFT_ASSIGN");
    assert(symbol_table()[13].0 == "PLUS");
    assert(symbol_table()[14].0 == "MINUS");
    assert(symbol_table()[15].0 == "MULTIPLY");
    assert(symbol_table()[16].0 == "DIVIDE");
    assert(symbol_table()[17].0 == "MODULUS");
    assert(symbol_table()[18].0 == "LOGICAL_AND");
    assert(symbol_table()[19].0 == "BITWISE_AND");
    assert(symbol_table()[20].0 == "BITWISE_XOR");
    assert(symbol_table()[21].0 == "BITWISE_NOT");
    assert(symbol_table()[22].0 == "LEFT_SHIFT");
    assert(symbol_table()[23].0 == "RIGHT_SHIFT");
    assert(symbol_table()[24].0 == "CIRCOM_L_ASSIGN");
    assert(symbol_table()[25].0 == "CIRCOM_R_ASSIGN");
    assert(symbol_table()[26].0 == "CIRCOM_L_CONSTRAINT_ASSIGN");
    assert(symbol_table()[27].0 == "CIRCOM_R_CONSTRAINT_ASSIGN");
    assert(symbol_table()[28].0 == "CIRCOM_CONSTRAINT");
    assert(symbol_table()[29].0 == "EQUAL");
    assert(symbol_table()[30].0 == "NOT_EQUAL");
    assert(symbol_table()[31].0 == "LESS_THAN_OR_EQUAL");
    assert(symbol_table()[32].0 == "GREATER_THAN_OR_EQUAL");
    assert forall|j: int| 0 <= j < 32 implies (#[trigger] symbol_table()[j]).0@ != symbol_table()[32].0@ by {
        if j == 0 {
            assert(symbol_table()[0].0@ == "SEMICOLON"@);
        }
        if j == 1 {
            assert(symbol_table()[1].0@ == "INCREMENT"@);
        }
        if j == 2 {
            assert(symbol_table()[2].0@ == "DECREMENT"@);
        }
        if j == 3 {
            assert(symbol_table()[3].0@ == "PLUS_ASSIGN"@);
        }
        if j == 4 {
            assert(symbol_table()[4].0@ == "MINUS_ASSIGN"@);
        }
        if j == 5 {
            assert(symbol_table()[5].0@ == "MULTIPLY_ASSIGN"@);
        }
        if j == 6 {
            assert(symbol_table()[6].0@ == "DIVIDE_ASSIGN"@);
        }
        if j == 7 {
            assert(symbol_table()[7].0@ == "MODULUS_ASSIGN"@);
        }
        if j == 8 {
            assert(symbol_table()[8].0@ == "BITWISE_AND_ASSIGN"@);
        }
        if j == 9 {
            assert(symbol_table()[9].0@ == "BITWISE_XOR_ASSIGN"@);
        }
        if j == 10 {
            assert(symbol_table()[10].0@ == "BITWISE_NOT_ASSIGN"@);
        }
        if j == 11 {
            assert(symbol_table()[11].0@ == "LEFT_SHIFT_ASSIGN"@);
        }
        if j == 12 {
            assert(symbol_table()[12].0@ == "RIGHT_SHIFT_ASSIGN"@);
        }
        if j == 13 {
            assert(symbol_table()[13].0@ == "PLUS"@);
        }
        if j == 14 {
            assert(symbol_table()[14].0@ == "MINUS"@);
        }
        if j == 15 {
            assert(symbol_table()[15].0@ == "MULTIPLY"@);
        }
        if j == 16 {
            assert(symbol_table()[16].0@ == "DIVIDE"@);
        }
        if j == 17 {
            assert(symbol_table()[17].0@ == "MODULUS"@);
        }
        if j == 18 {
            assert(symbol_table()[18].0@ == "LOGICAL_AND"@);
        }
        if j == 19 {
            assert(symbol_table()[19].0@ == "BITWISE_AND"@);
        }
        if j == 20 {
            assert(symbol_table()[20].0@ == "BITWISE_XOR"@);
        }
        if j == 21 {
            assert(symbol_table()[21].0@ == "BITWISE_NOT"@);
        }
        if j == 22 {
            assert(symbol_table()[22].0@ == "LEFT_SHIFT"@);
        }
        if j == 23 {
            assert(symbol_table()[23].0@ == "RIGHT_SHIFT"@);
        }
        if j == 24 {
            assert(symbol_table()[24].0@ == "CIRCOM_L_ASSIGN"@);
        }
        if j == 25 {
            assert(symbol_table()[25].0@ == "CIRCOM_R_ASSIGN"@);
        }
        if j == 26 {
            assert(symbol_table()[26].0@ == "CIRCOM_L_CONSTRAINT_ASSIGN"@);
        }
        if j == 27 {
            assert(symbol_table()[27].0@ == "CIRCOM_R_CONSTRAINT_ASSIGN"@);
        }
        if j == 28 {
            assert(symbol_table()[28].0@ == "CIRCOM_CONSTRAINT"@);
        }
        if j == 29 {
            assert(symbol_table()[29].0@ == "EQUAL"@);
        }
        if j == 30 {
            assert(symbol_table()[30].0@ == "NOT_EQUAL"@);
        }
        if j == 31 {
            assert(symbol_table()[31].0@ == "LESS_THAN_OR_EQUAL"@);
        }
    }
}

proof fn lemma_key_first_33()
    ensures
        forall|j: int| 0 <= j < 33 ==> (#[trigger] symbol_table()[j]).0@ != symbol_table()[33].0@,
{
    reveal_strlit("BITWISE_AND");
    assert("BITWISE_AND"@ =~= seq!['B', 'I', 'T', 'W', 'I', 'S', 'E', '_', 'A', 'N', 'D']);
    reveal_strlit("BITWISE_AND_ASSIGN");
    assert("BITWISE_AND_ASSIGN"@ =~= seq!['B', 'I', 'T', 'W', 'I', 'S', 'E', '_', 'A', 'N', 'D', '_', 'A', 'S', 'S', 'I', 'G', 'N']);
    reveal_strlit("BITWISE_NOT");
    assert("BITWISE_NOT"@ =~= seq!['B', 'I', 'T', 'W', 'I', 'S', 'E', '_', 'N', 'O', 'T']);
    reveal_strlit("BITWISE_NOT_ASSIGN");
    assert("BITWISE_NOT_ASSIGN"@ =~= seq!['B', 'I', 'T', 'W', 'I', 'S', 'E', '_', 'N', 'O', 'T', '_', 'A', 'S', 'S', 'I', 'G', 'N']);
    reveal_strlit("BITWISE_XOR");
    assert("BITWISE_XOR"@ =~= seq!['B', 'I', 'T', 'W', 'I', 'S', 'E', '_', 'X', 'O', 'R']);
    reveal_strlit("BITWISE_XOR_ASSIGN");
    assert("BITWISE_XOR_ASSIGN"@ =~= seq!['B', 'I', 'T', 'W', 'I', 'S', 'E', '_', 'X', 'O', 'R', '_', 'A', 'S', 'S', 'I', 'G', 'N']);
    reveal_strlit("CIRCOM_CONSTRAINT");
    assert("CIRCOM_CONSTRAINT"@ =~= seq!['C', 'I', 'R', 'C', 'O', 'M', '_', 'C', 'O', 'N', 'S', 'T', 'R', 'A', 'I', 'N', 'T']);
    reveal_strlit("CIRCOM_L_ASSIGN");
    assert("CIRCOM_L_ASSIGN"@ =~= seq!['C', 'I', 'R', 'C', 'O', 'M', '_', 'L', '_', 'A', 'S', 'S', 'I', 'G', 'N']);
    reveal_strlit("CIRCOM_L_CONSTRAINT_ASSIGN");
    assert("CIRCOM_L_CONSTRAINT_ASSIGN"@ =~= seq!['C', 'I', 'R', 'C', 'O', 'M', '_', 'L', '_', 'C', 'O', 'N', 'S', 'T', 'R', 'A', 'I', 'N', 'T', '_', 'A', 'S', 'S', 'I', 'G', 'N']);
    reveal_strlit("CIRCOM_R_ASSIGN");
    assert("CIRCOM_R_ASSIGN"@ =~= seq!['C', 'I', 'R', 'C', 'O', 'M', '_', 'R', '_', 'A', 'S', 'S', 'I', 'G', 'N']);
    reveal_strlit("CIRCOM_R_CONSTRAINT_ASSIGN");
    assert("CIRCOM_R_CONSTRAINT_ASSIGN"@ =~= seq!['C', 'I', 'R', 'C', 'O', 'M', '_', 'R', '_', 'C', 'O', 'N', 'S', 'T', 'R', 'A', 'I', 'N', 'T', '_', 'A', 'S', 'S', 'I', 'G', 'N']);
    reveal_strlit("DECREMENT");
    assert("DECREMENT"@ =~= seq!['D', 'E', 'C', 'R', 'E', 'M', 'E', 'N', 'T']);
    reveal_strlit("DIVIDE");
    assert("DIVIDE"@ =~= seq!['D', 'I', 'V', 'I', 'D', 'E']);
    reveal_strlit("DIVIDE_ASSIGN");
    assert("DIVIDE_ASSIGN"@ =~= seq!['D', 'I', 'V', 'I', 'D', 'E', '_', 'A', 'S', 'S', 'I', 'G', 'N']);
    reveal_strlit("EQUAL");
    assert("EQUAL"@ =~= seq!['E', 'Q', 'U', 'A', 'L']);
    reveal_strlit("GREATER_THAN_OR_EQUAL");
    assert("GREATER_THAN_OR_EQUAL"@ =~= seq!['G', 'R', 'E', 'A', 'T', 'E', 'R', '_', 'T', 'H', 'A', 'N', '_', 'O', 'R', '_', 'E', 'Q', 'U', 'A', 'L']);
    reveal_strlit("INCREMENT");
    assert("INCREMENT"@ =~= seq!['I', 'N', 'C', 'R', 'E', 'M', 'E', 'N', 'T']);
    reveal_strlit("LEFT_SHIFT");
    assert("LEFT_SHIFT"@ =~= seq!['L', 'E', 'F', 'T', '_', 'S', 'H', 'I', 'F', 'T']);
    reveal_strlit("LEFT_SHIFT_ASSIGN");
    assert("LEFT_SHIFT_ASSIGN"@ =~= seq!['L', 'E', 'F', 'T', '_', 'S', 'H', 'I', 'F', 'T', '_', 'A', 'S', 'S', 'I', 'G', 'N']);
    reveal_strlit("LESS_THAN");
    assert("LESS_THAN"@ =~= seq!['L', 'E', 'S', 'S', '_', 'T', 'H', 'A', 'N']);
    reveal_strlit("LESS_THAN_OR_EQUAL");
    assert("LESS_THAN_OR_EQUAL"@ =~= seq!['L', 'E', 'S', 'S', '_', 'T', 'H', 'A', 'N', '_', 'O', 'R', '_', 'E', 'Q', 'U', 'A', 'L']);
    reveal_strlit("LOGICAL_AND");
    assert("LOGICAL_AND"@ =~= seq!['L', 'O', 'G', 'I', 'C', 'A', 'L', '_', 'A', 'N', 'D']);
    reveal_strlit("MINUS");
    assert("MINUS"@ =~= seq!['M', 'I', 'N', 'U', 'S']);
    reveal_strlit("MINUS_ASSIGN");
    assert("MINUS_ASSIGN"@ =~= seq!['M', 'I', 'N', 'U', 'S', '_', 'A', 'S', 'S', 'I', 'G', 'N']);
    reveal_strlit("MODULUS");
    assert("MODULUS"@ =~= seq!['M', 'O', 'D', 'U', 'L', 'U', 'S']);
    reveal_strlit("MODULUS_ASSIGN");
    assert("MODULUS_ASSIGN"@ =~= seq!['M', 'O', 'D', 'U', 'L', 'U', 'S', '_', 'A', 'S', 'S', 'I', 'G', 'N']);
    reveal_strlit("MULTIPLY");
    assert("MULTIPLY"@ =~= seq!['M', 'U', 'L', 'T', 'I', 'P', 'L', 'Y']);
    reveal_strlit("MULTIPLY_ASSIGN");
    assert("MULTIPLY_ASSIGN"@ =~= seq!['M', 'U', 'L', 'T', 'I', 'P', 'L', 'Y', '_', 'A', 'S', 'S', 'I', 'G', 'N']);
    reveal_strlit("NOT_EQUAL");
    assert("NOT_EQUAL"@ =~= seq!['N', 'O', 'T', '_', 'E', 'Q', 'U', 'A', 'L']);
    reveal_strlit("PLUS");
    assert("PLUS"@ =~= seq!['P', 'L', 'U', 'S']);
    reveal_strlit("PLUS_ASSIGN");
    assert("PLUS_ASSIGN"@ =~= seq!['P', 'L', 'U', 'S', '_', 'A', 'S', 'S', 'I', 'G', 'N']);
    reveal_strlit("RIGHT_SHIFT");
    assert("RIGHT_SHIFT"@ =~= seq!['R', 'I', 'G', 'H', 'T', '_', 'S', 'H', 'I', 'F', 'T']);
    reveal_strlit("RIGHT_SHIFT_ASSIGN");
    assert("RIGHT_SHIFT_ASSIGN"@ =~= seq!['R', 'I', 'G', 'H', 'T', '_', 'S', 'H', 'I', 'F', 'T', '_', 'A', 'S', 'S', 'I', 'G', 'N']);
    reveal_strlit("SEMICOLON");
    assert("SEMICOLON"@ =~= seq!['S', 'E', 'M', 'I', 'C', 'O', 'L', 'O', 'N']);
    assert(symbol_table()[0].0 == "SEMICOLON");
    assert(symbol_table()[1].0 == "INCREMENT");
    assert(symbol_table()[2].0 == "DECREMENT");
    assert(symbol_table()[3].0 == "PLUS_ASSIGN");
    assert(symbol_table()[4].0 == "MINUS_ASSIGN");
    assert(symbol_table()[5].0 == "MULTIPLY_ASSIGN");
    assert(symbol_table()[6].0 == "DIVIDE_ASSIGN");
    assert(symbol_table()[7].0 == "MODULUS_ASSIGN");
    assert(symbol_table()[8].0 == "BITWISE_AND_ASSIGN");
    assert(symbol_table()[9].0 == "BITWISE_XOR_ASSIGN");
    assert(symbol_table()[10].0 == "BITWISE_NOT_ASSIGN");
    assert(symbol_table()[11].0 == "LEFT_SHIFT_ASSIGN");
    assert(symbol_table()[12].0 == "RIGHT_SHIFT_ASSIGN");
    assert(symbol_table()[13].0 == "PLUS");
    assert(symbol_table()[14].0 == "MINUS");
    assert(symbol_table()[15].0 == "MULTIPLY");
    assert(symbol_table()[16].0 == "DIVIDE");
    assert(symbol_table()[17].0 == "MODULUS");
    assert(symbol_table()[18].0 == "LOGICAL_AND");
    assert(symbol_table()[19].0 == "BITWISE_AND");
    assert(symbol_table()[20].0 == "BITWISE_XOR");
    assert(symbol_table()[21].0 == "BITWISE_NOT");
    assert(symbol_table()[22].0 == "LEFT_SHIFT");
    assert(symbol_table()[23].0 == "RIGHT_SHIFT");
    assert(symbol_table()[24].0 == "CIRCOM_L_ASSIGN");
    assert(symbol_table()[25].0 == "CIRCOM_R_ASSIGN");
    assert(symbol_table()[26].0 == "CIRCOM_L_CONSTRAINT_ASSIGN");
    assert(symbol_table()[27].0 == "CIRCOM_R_CONSTRAINT_ASSIGN");
    assert(symbol_table()[28].0 == "CIRCOM_CONSTRAINT");
    assert(symbol_table()[29].0 == "EQUAL");
    assert(symbol_table()[30].0 == "NOT_EQUAL");
    assert(symbol_table()[31].0 == "LESS_THAN_OR_EQUAL");
    assert(symbol_table()[32].0 == "GREATER_THAN_OR_EQUAL");
    assert(symbol_table()[33].0 == "LESS_THAN");
    assert forall|j: int| 0 <= j < 33 implies (#[trigger] symbol_table()[j]).0@ != symbol_table()[33].0@ by {
        if j == 0 {
            assert(symbol_table()[0].0@ == "SEMICOLON"@);
        }
        if j == 1 {
            assert(symbol_table()[1].0@ == "INCREMENT"@);
        }
        if j == 2 {
            assert(symbol_table()[2].0@ == "DECREMENT"@);
        }
        if j == 3 {
            assert(symbol_table()[3].0@ == "PLUS_ASSIGN"@);
        }
        if j == 4 {
            assert(symbol_table()[4].0@ == "MINUS_ASSIGN"@);
        }
        if j == 5 {
            assert(symbol_table()[5].0@ == "MULTIPLY_ASSIGN"@);
        }
        if j == 6 {
            assert(symbol_table()[6].0@ == "DIVIDE_ASSIGN"@);
        }
        if j == 7 {
            assert(symbol_table()[7].0@ == "MODULUS_ASSIGN"@);
        }
        if j == 8 {
            assert(symbol_table()[8].0@ == "BITWISE_AND_ASSIGN"@);
        }
        if j == 9 {
            assert(symbol_table()[9].0@ == "BITWISE_XOR_ASSIGN"@);
        }
        if j == 10 {
            assert(symbol_table()[10].0@ == "BITWISE_NOT_ASSIGN"@);
        }
        if j == 11 {
            assert(symbol_table()[11].0@ == "LEFT_SHIFT_ASSIGN"@);
        }
        if j == 12 {
            assert(symbol_table()[12].0@ == "RIGHT_SHIFT_ASSIGN"@);
        }
        if j == 13 {
            assert(symbol_table()[13].0@ == "PLUS"@);
        }
        if j == 14 {
            assert(symbol_table()[14].0@ == "MINUS"@);
        }
        if j == 15 {
            assert(symbol_table()[15].0@ == "MULTIPLY"@);
        }
        if j == 16 {
            assert(symbol_table()[16].0@ == "DIVIDE"@);
        }
        if j == 17 {
            assert(symbol_table()[17].0@ == "MODULUS"@);
        }
        if j == 18 {
            assert(symbol_table()[18].0@ == "LOGICAL_AND"@);
        }
        if j == 19 {
            assert(symbol_table()[19].0@ == "BITWISE_AND"@);
        }
        if j == 20 {
            assert(symbol_table()[20].0@ == "BITWISE_XOR"@);
        }
        if j == 21 {
            assert(symbol_table()[21].0@ == "BITWISE_NOT"@);
        }
        if j == 22 {
            assert(symbol_table()[22].0@ == "LEFT_SHIFT"@);
        }
        if j == 23 {
            assert(symbol_table()[23].0@ == "RIGHT_SHIFT"@);
        }
        if j == 24 {
            assert(symbol_table()[24].0@ == "CIRCOM_L_ASSIGN"@);
        }
        if j == 25 {
            assert(symbol_table()[25].0@ == "CIRCOM_R_ASSIGN"@);
        }
        if j == 26 {
            assert(symbol_table()[26].0@ == "CIRCOM_L_CONSTRAINT_ASSIGN"@);
        }
        if j == 27 {
            assert(symbol_table()[27].0@ == "CIRCOM_R_CONSTRAINT_ASSIGN"@);
        }
        if j == 28 {
            assert(symbol_table()[28].0@ == "CIRCOM_CONSTRAINT"@);
        }
        if j == 29 {
            assert(symbol_table()[29].0@ == "EQUAL"@);
        }
        if j == 30 {
            assert(symbol_table()[30].0@ == "NOT_EQUAL"@);
        }
        if j == 31 {
            assert(symbol_table()[31].0@ == "LESS_THAN_OR_EQUAL"@);
        }
        if j == 32 {
            assert(symbol_table()[32].0@ == "GREATER_THAN_OR_EQUAL"@);
        }
    }
}

proof fn lemma_key_first_34()
    ensures
        forall|j: int| 0 <= j < 34 ==> (#[trigger] symbol_table()[j]).0@ != symbol_table()[34].0@,
{
    reveal_strlit("BITWISE_AND");
    assert("BITWISE_AND"@ =~= seq!['B', 'I', 'T', 'W', 'I', 'S', 'E', '_', 'A', 'N', 'D']);
    reveal_strlit("BITWISE_AND_ASSIGN");
    assert("BITWISE_AND_ASSIGN"@ =~= seq!['B', 'I', 'T', 'W', 'I', 'S', 'E', '_', 'A', 'N', 'D', '_', 'A', 'S', 'S', 'I', 'G', 'N']);
    reveal_strlit("BITWISE_NOT");
    assert("BITWISE_NOT"@ =~= seq!['B', 'I', 'T', 'W', 'I', 'S', 'E', '_', 'N', 'O', 'T']);
    reveal_strlit("BITWISE_NOT_ASSIGN");
    assert("BITWISE_NOT_ASSIGN"@ =~= seq!['B', 'I', 'T', 'W', 'I', 'S', 'E', '_', 'N', 'O', 'T', '_', 'A', 'S', 'S', 'I', 'G', 'N']);
    reveal_strlit("BITWISE_XOR");
    assert("BITWISE_XOR"@ =~= seq!['B', 'I', 'T', 'W', 'I', 'S', 'E', '_', 'X', 'O', 'R']);
    reveal_strlit("BITWISE_XOR_ASSIGN");
    assert("BITWISE_XOR_ASSIGN"@ =~= seq!['B', 'I', 'T', 'W', 'I', 'S', 'E', '_', 'X', 'O', 'R', '_', 'A', 'S', 'S', 'I', 'G', 'N']);
    reveal_strlit("CIRCOM_CONSTRAINT");
    assert("CIRCOM_CONSTRAINT"@ =~= seq!['C', 'I', 'R', 'C', 'O', 'M', '_', 'C', 'O', 'N', 'S', 'T', 'R', 'A', 'I', 'N', 'T']);
    reveal_strlit("CIRCOM_L_ASSIGN");
    assert("CIRCOM_L_ASSIGN"@ =~= seq!['C', 'I', 'R', 'C', 'O', 'M', '_', 'L', '_', 'A', 'S', 'S', 'I', 'G', 'N']);
    reveal_strlit("CIRCOM_L_CONSTRAINT_ASSIGN");
    assert("CIRCOM_L_CONSTRAINT_ASSIGN"@ =~= seq!['C', 'I', 'R', 'C', 'O', 'M', '_', 'L', '_', 'C', 'O', 'N', 'S', 'T', 'R', 'A', 'I', 'N', 'T', '_', 'A', 'S', 'S', 'I', 'G', 'N']);
    reveal_strlit("CIRCOM_R_ASSIGN");
    assert("CIRCOM_R_ASSIGN"@ =~= seq!['C', 'I', 'R', 'C', 'O', 'M', '_', 'R', '_', 'A', 'S', 'S', 'I', 'G', 'N']);
    reveal_strlit("CIRCOM_R_CONSTRAINT_ASSIGN");
    assert("CIRCOM_R_CONSTRAINT_ASSIGN"@ =~= seq!['C', 'I', 'R', 'C', 'O', 'M', '_', 'R', '_', 'C', 'O', 'N', 'S', 'T', 'R', 'A', 'I', 'N', 'T', '_', 'A', 'S', 'S', 'I', 'G', 'N']);
    reveal_strlit("DECREMENT");
    assert("DECREMENT"@ =~= seq!['D', 'E', 'C', 'R', 'E', 'M', 'E', 'N', 'T']);
    reveal_strlit("DIVIDE");
    assert("DIVIDE"@ =~= seq!['D', 'I', 'V', 'I', 'D', 'E']);
    reveal_strlit("DIVIDE_ASSIGN");
    assert("DIVIDE_ASSIGN"@ =~= seq!['D', 'I', 'V', 'I', 'D', 'E', '_', 'A', 'S', 'S', 'I', 'G', 'N']);
    reveal_strlit("EQUAL");
    assert("EQUAL"@ =~= seq!['E', 'Q', 'U', 'A', 'L']);
    reveal_strlit("GREATER_THAN");
    assert("GREATER_THAN"@ =~= seq!['G', 'R', 'E', 'A', 'T', 'E', 'R', '_', 'T', 'H', 'A', 'N']);
    reveal_strlit("GREATER_THAN_OR_EQUAL");
    assert("GREATER_THAN_OR_EQUAL"@ =~= seq!['G', 'R', 'E', 'A', 'T', 'E', 'R', '_', 'T', 'H', 'A', 'N', '_', 'O', 'R', '_', 'E', 'Q', 'U', 'A', 'L']);
    reveal_strlit("INCREMENT");
    assert("INCREMENT"@ =~= seq!['I', 'N', 'C', 'R', 'E', 'M', 'E', 'N', 'T']);
    reveal_strlit("LEFT_SHIFT");
    assert("LEFT_SHIFT"@ =~= seq!['L', 'E', 'F', 'T', '_', 'S', 'H', 'I', 'F', 'T']);
    reveal_strlit("LEFT_SHIFT_ASSIGN");
    assert("LEFT_SHIFT_ASSIGN"@ =~= seq!['L', 'E', 'F', 'T', '_', 'S', 'H', 'I', 'F', 'T', '_', 'A', 'S', 'S', 'I', 'G', 'N']);
    reveal_strlit("LESS_THAN");
    assert("LESS_THAN"@ =~= seq!['L', 'E', 'S', 'S', '_', 'T', 'H', 'A', 'N']);
    reveal_strlit("LESS_THAN_OR_EQUAL");
    assert("LESS_THAN_OR_EQUAL"@ =~= seq!['L', 'E', 'S', 'S', '_', 'T', 'H', 'A', 'N', '_', 'O', 'R', '_', 'E', 'Q', 'U', 'A', 'L']);
    reveal_strlit("LOGICAL_AND");
    assert("LOGICAL_AND"@ =~= seq!['L', 'O', 'G', 'I', 'C', 'A', 'L', '_', 'A', 'N', 'D']);
    reveal_strlit("MINUS");
    assert("MINUS"@ =~= seq!['M', 'I', 'N', 'U', 'S']);
    reveal_strlit("MINUS_ASSIGN");
    assert("MINUS_ASSIGN"@ =~= seq!['M', 'I', 'N', 'U', 'S', '_', 'A', 'S', 'S', 'I', 'G', 'N']);
    reveal_strlit("MODULUS");
    assert("MODULUS"@ =~= seq!['M', 'O', 'D', 'U', 'L', 'U', 'S']);
    reveal_strlit("MODULUS_ASSIGN");
    assert("MODULUS_ASSIGN"@ =~= seq!['M', 'O', 'D', 'U', 'L', 'U', 'S', '_', 'A', 'S', 'S', 'I', 'G', 'N']);
    reveal_strlit("MULTIPLY");
    assert("MULTIPLY"@ =~= seq!['M', 'U', 'L', 'T', 'I', 'P', 'L', 'Y']);
    reveal_strlit("MULTIPLY_ASSIGN");
    assert("MULTIPLY_ASSIGN"@ =~= seq!['M', 'U', 'L', 'T', 'I', 'P', 'L', 'Y', '_', 'A', 'S', 'S', 'I', 'G', 'N']);
    reveal_strlit("NOT_EQUAL");
    assert("NOT_EQUAL"@ =~= seq!['N', 'O', 'T', '_', 'E', 'Q', 'U', 'A', 'L']);
    reveal_strlit("PLUS");
    assert("PLUS"@ =~= seq!['P', 'L', 'U', 'S']);
    reveal_strlit("PLUS_ASSIGN");
    assert("PLUS_ASSIGN"@ =~= seq!['P', 'L', 'U', 'S', '_', 'A', 'S', 'S', 'I', 'G', 'N']);
    reveal_strlit("RIGHT_SHIFT");
    assert("RIGHT_SHIFT"@ =~= seq!['R', 'I', 'G', 'H', 'T', '_', 'S', 'H', 'I', 'F', 'T']);
    reveal_strlit("RIGHT_SHIFT_ASSIGN");
    assert("RIGHT_SHIFT_ASSIGN"@ =~= seq!['R', 'I', 'G', 'H', 'T', '_', 'S', 'H', 'I', 'F', 'T', '_', 'A', 'S', 'S', 'I', 'G', 'N']);
    reveal_strlit("SEMICOLON");
    assert("SEMICOLON"@ =~= seq!['S', 'E', 'M', 'I', 'C', 'O', 'L', 'O', 'N']);
    assert(symbol_table()[0].0 == "SEMICOLON");
    assert(symbol_table()[1].0 == "INCREMENT");
    assert(symbol_table()[2].0 == "DECREMENT");
    assert(symbol_table()[3].0 == "PLUS_ASSIGN");
    assert(symbol_table()[4].0 == "MINUS_ASSIGN");
    assert(symbol_table()[5].0 == "MULTIPLY_ASSIGN");
    assert(symbol_table()[6].0 == "DIVIDE_ASSIGN");
    assert(symbol_table()[7].0 == "MODULUS_ASSIGN");
    assert(symbol_table()[8].0 == "BITWISE_AND_ASSIGN");
    assert(symbol_table()[9].0 == "BITWISE_XOR_ASSIGN");
    assert(symbol_table()[10].0 == "BITWISE_NOT_ASSIGN");
    assert(symbol_table()[11].0 == "LEFT_SHIFT_ASSIGN");
    assert(symbol_table()[12].0 == "RIGHT_SHIFT_ASSIGN");
    assert(symbol_table()[13].0 == "PLUS");
    assert(symbol_table()[14].0 == "MINUS");
    assert(symbol_table()[15].0 == "MULTIPLY");
    assert(symbol_table()[16].0 == "DIVIDE");
    assert(symbol_table()[17].0 == "MODULUS");
    assert(symbol_table()[18].0 == "LOGICAL_AND");
    assert(symbol_table()[19].0 == "BITWISE_AND");
    assert(symbol_table()[20].0 == "BITWISE_XOR");
    assert(symbol_table()[21].0 == "BITWISE_NOT");
    assert(symbol_table()[22].0 == "LEFT_SHIFT");
    assert(symbol_table()[23].0 == "RIGHT_SHIFT");
    assert(symbol_table()[24].0 == "CIRCOM_L_ASSIGN");
    assert(symbol_table()[25].0 == "CIRCOM_R_ASSIGN");
    assert(symbol_table()[26].0 == "CIRCOM_L_CONSTRAINT_ASSIGN");
    assert(symbol_table()[27].0 == "CIRCOM_R_CONSTRAINT_ASSIGN");
    assert(symbol_table()[28].0 == "CIRCOM_CONSTRAINT");
    assert(symbol_table()[29].0 == "EQUAL");
    assert(symbol_table()[30].0 == "NOT_EQUAL");
    assert(symbol_table()[31].0 == "LESS_THAN_OR_EQUAL");
    assert(symbol_table()[32].0 == "GREATER_THAN_OR_EQUAL");
    assert(symbol_table()[33].0 == "LESS_THAN");
    assert(symbol_table()[34].0 == "GREATER_THAN");
    assert forall|j: int| 0 <= j < 34 implies (#[trigger] symbol_table()[j]).0@ != symbol_table()[34].0@ by {
        if j == 0 {
            assert(symbol_table()[0].0@ == "SEMICOLON"@);
        }
        if j == 1 {
            assert(symbol_table()[1].0@ == "INCREMENT"@);
        }
        if j == 2 {
            assert(symbol_table()[2].0@ == "DECREMENT"@);
        }
        if j == 3 {
            assert(symbol_table()[3].0@ == "PLUS_ASSIGN"@);
        }
        if j == 4 {
            assert(symbol_table()[4].0@ == "MINUS_ASSIGN"@);
        }
        if j == 5 {
            assert(symbol_table()[5].0@ == "MULTIPLY_ASSIGN"@);
        }
        if j == 6 {
            assert(symbol_table()[6].0@ == "DIVIDE_ASSIGN"@);
        }
        if j == 7 {
            assert(symbol_table()[7].0@ == "MODULUS_ASSIGN"@);
        }
        if j == 8 {
            assert(symbol_table()[8].0@ == "BITWISE_AND_ASSIGN"@);
        }
        if j == 9 {
            assert(symbol_table()[9].0@ == "BITWISE_XOR_ASSIGN"@);
        }
        if j == 10 {
            assert(symbol_table()[10].0@ == "BITWISE_NOT_ASSIGN"@);
        }
        if j == 11 {
            assert(symbol_table()[11].0@ == "LEFT_SHIFT_ASSIGN"@);
        }
        if j == 12 {
            assert(symbol_table()[12].0@ == "RIGHT_SHIFT_ASSIGN"@);
        }
        if j == 13 {
            assert(symbol_table()[13].0@ == "PLUS"@);
        }
        if j == 14 {
            assert(symbol_table()[14].0@ == "MINUS"@);
        }
        if j == 15 {
            assert(symbol_table()[15].0@ == "MULTIPLY"@);
        }
        if j == 16 {
            assert(symbol_table()[16].0@ == "DIVIDE"@);
        }
        if j == 17 {
            assert(symbol_table()[17].0@ == "MODULUS"@);
        }
        if j == 18 {
            assert(symbol_table()[18].0@ == "LOGICAL_AND"@);
        }
        if j == 19 {
            assert(symbol_table()[19].0@ == "BITWISE_AND"@);
        }
        if j == 20 {
            assert(symbol_table()[20].0@ == "BITWISE_XOR"@);
        }
        if j == 21 {
            assert(symbol_table()[21].0@ == "BITWISE_NOT"@);
        }
        if j == 22 {
            assert(symbol_table()[22].0@ == "LEFT_SHIFT"@);
        }
        if j == 23 {
            assert(symbol_table()[23].0@ == "RIGHT_SHIFT"@);
        }
        if j == 24 {
            assert(symbol_table()[24].0@ == "CIRCOM_L_ASSIGN"@);
        }
        if j == 25 {
            assert(symbol_table()[25].0@ == "CIRCOM_R_ASSIGN"@);
        }
        if j == 26 {
            assert(symbol_table()[26].0@ == "CIRCOM_L_CONSTRAINT_ASSIGN"@);
        }
        if j == 27 {
            assert(symbol_table()[27].0@ == "CIRCOM_R_CONSTRAINT_ASSIGN"@);
        }
        if j == 28 {
            assert(symbol_table()[28].0@ == "CIRCOM_CONSTRAINT"@);
        }
        if j == 29 {
            assert(symbol_table()[29].0@ == "EQUAL"@);
        }
        if j == 30 {
            assert(symbol_table()[30].0@ == "NOT_EQUAL"@);
        }
        if j == 31 {
            assert(symbol_table()[31].0@ == "LESS_THAN_OR_EQUAL"@);
        }
        if j == 32 {
            assert(symbol_table()[32].0@ == "GREATER_THAN_OR_EQUAL"@);
        }
        if j == 33 {
            assert(symbol_table()[33].0@ == "LESS_THAN"@);
        }
    }
}

proof fn lemma_key_first_35()
    ensures
        forall|j: int| 0 <= j < 35 ==> (#[trigger] symbol_table()[j]).0@ != symbol_table()[35].0@,
{
    reveal_strlit("ASSIGN");
    assert("ASSIGN"@ =~= seq!['A', 'S', 'S', 'I', 'G', 'N']);
    reveal_strlit("BITWISE_AND");
    assert("BITWISE_AND"@ =~= seq!['B', 'I', 'T', 'W', 'I', 'S', 'E', '_', 'A', 'N', 'D']);
    reveal_strlit("BITWISE_AND_ASSIGN");
    assert("BITWISE_AND_ASSIGN"@ =~= seq!['B', 'I', 'T', 'W', 'I', 'S', 'E', '_', 'A', 'N', 'D', '_', 'A', 'S', 'S', 'I', 'G', 'N']);
    reveal_strlit("BITWISE_NOT");
    assert("BITWISE_NOT"@ =~= seq!['B', 'I', 'T', 'W', 'I', 'S', 'E', '_', 'N', 'O', 'T']);
    reveal_strlit("BITWISE_NOT_ASSIGN");
    assert("BITWISE_NOT_ASSIGN"@ =~= seq!['B', 'I', 'T', 'W', 'I', 'S', 'E', '_', 'N', 'O', 'T', '_', 'A', 'S', 'S', 'I', 'G', 'N']);
    reveal_strlit("BITWISE_XOR");
    assert("BITWISE_XOR"@ =~= seq!['B', 'I', 'T', 'W', 'I', 'S', 'E', '_', 'X', 'O', 'R']);
    reveal_strlit("BITWISE_XOR_ASSIGN");
    assert("BITWISE_XOR_ASSIGN"@ =~= seq!['B', 'I', 'T', 'W', 'I', 'S', 'E', '_', 'X', 'O', 'R', '_', 'A', 'S', 'S', 'I', 'G', 'N']);
    reveal_strlit("CIRCOM_CONSTRAINT");
    assert("CIRCOM_CONSTRAINT"@ =~= seq!['C', 'I', 'R', 'C', 'O', 'M', '_', 'C', 'O', 'N', 'S', 'T', 'R', 'A', 'I', 'N', 'T']);
    reveal_strlit("CIRCOM_L_ASSIGN");
    assert("CIRCOM_L_ASSIGN"@ =~= seq!['C', 'I', 'R', 'C', 'O', 'M', '_', 'L', '_', 'A', 'S', 'S', 'I', 'G', 'N']);
    reveal_strlit("CIRCOM_L_CONSTRAINT_ASSIGN");
    assert("CIRCOM_L_CONSTRAINT_ASSIGN"@ =~= seq!['C', 'I', 'R', 'C', 'O', 'M', '_', 'L', '_', 'C', 'O', 'N', 'S', 'T', 'R', 'A', 'I', 'N', 'T', '_', 'A', 'S', 'S', 'I', 'G', 'N']);
    reveal_strlit("CIRCOM_R_ASSIGN");
    assert("CIRCOM_R_ASSIGN"@ =~= seq!['C', 'I', 'R', 'C', 'O', 'M', '_', 'R', '_', 'A', 'S', 'S', 'I', 'G', 'N']);
    reveal_strlit("CIRCOM_R_CONSTRAINT_ASSIGN");
    assert("CIRCOM_R_CONSTRAINT_ASSIGN"@ =~= seq!['C', 'I', 'R', 'C', 'O', 'M', '_', 'R', '_', 'C', 'O', 'N', 'S', 'T', 'R', 'A', 'I', 'N', 'T', '_', 'A', 'S', 'S', 'I', 'G', 'N']);
    reveal_strlit("DECREMENT");
    assert("DECREMENT"@ =~= seq!['D', 'E', 'C', 'R', 'E', 'M', 'E', 'N', 'T']);
    reveal_strlit("DIVIDE");
    assert("DIVIDE"@ =~= seq!['D', 'I', 'V', 'I', 'D', 'E']);
    reveal_strlit("DIVIDE_ASSIGN");
    assert("DIVIDE_ASSIGN"@ =~= seq!['D', 'I', 'V', 'I', 'D', 'E', '_', 'A', 'S', 'S', 'I', 'G', 'N']);
    reveal_strlit("EQUAL");
    assert("EQUAL"@ =~= seq!['E', 'Q', 'U', 'A', 'L']);
    reveal_strlit("GREATER_THAN");
    assert("GREATER_THAN"@ =~= seq!['G', 'R', 'E', 'A', 'T', 'E', 'R', '_', 'T', 'H', 'A', 'N']);
    reveal_strlit("GREATER_THAN_OR_EQUAL");
    assert("GREATER_THAN_OR_EQUAL"@ =~= seq!['G', 'R', 'E', 'A', 'T', 'E', 'R', '_', 'T', 'H', 'A', 'N', '_', 'O', 'R', '_', 'E', 'Q', 'U', 'A', 'L']);
    reveal_strlit("INCREMENT");
    assert("INCREMENT"@ =~= seq!['I', 'N', 'C', 'R', 'E', 'M', 'E', 'N', 'T']);
    reveal_strlit("LEFT_SHIFT");
    assert("LEFT_SHIFT"@ =~= seq!['L', 'E', 'F', 'T', '_', 'S', 'H', 'I', 'F', 'T']);
    reveal_strlit("LEFT_SHIFT_ASSIGN");
    assert("LEFT_SHIFT_ASSIGN"@ =~= seq!['L', 'E', 'F', 'T', '_', 'S', 'H', 'I', 'F', 'T', '_', 'A', 'S', 'S', 'I', 'G', 'N']);
    reveal_strlit("LESS_THAN");
    assert("LESS_THAN"@ =~= seq!['L', 'E', 'S', 'S', '_', 'T', 'H', 'A', 'N']);
    reveal_strlit("LESS_THAN_OR_EQUAL");
    assert("LESS_THAN_OR_EQUAL"@ =~= seq!['L', 'E', 'S', 'S', '_', 'T', 'H', 'A', 'N', '_', 'O', 'R', '_', 'E', 'Q', 'U', 'A', 'L']);
    reveal_strlit("LOGICAL_AND");
    assert("LOGICAL_AND"@ =~= seq!['L', 'O', 'G', 'I', 'C', 'A', 'L', '_', 'A', 'N', 'D']);
    reveal_strlit("MINUS");
    assert("MINUS"@ =~= seq!['M', 'I', 'N', 'U', 'S']);
    reveal_strlit("MINUS_ASSIGN");
    assert("MINUS_ASSIGN"@ =~= seq!['M', 'I', 'N', 'U', 'S', '_', 'A', 'S', 'S', 'I', 'G', 'N']);
    reveal_strlit("MODULUS");
    assert("MODULUS"@ =~= seq!['M', 'O', 'D', 'U', 'L', 'U', 'S']);
    reveal_strlit("MODULUS_ASSIGN");
    assert("MODULUS_ASSIGN"@ =~= seq!['M', 'O', 'D', 'U', 'L', 'U', 'S', '_', 'A', 'S', 'S', 'I', 'G', 'N']);
    reveal_strlit("MULTIPLY");
    assert("MULTIPLY"@ =~= seq!['M', 'U', 'L', 'T', 'I', 'P', 'L', 'Y']);
    reveal_strlit("MULTIPLY_ASSIGN");
    assert("MULTIPLY_ASSIGN"@ =~= seq!['M', 'U', 'L', 'T', 'I', 'P', 'L', 'Y', '_', 'A', 'S', 'S', 'I', 'G', 'N']);
    reveal_strlit("NOT_EQUAL");
    assert("NOT_EQUAL"@ =~= seq!['N', 'O', 'T', '_', 'E', 'Q', 'U', 'A', 'L']);
    reveal_strlit("PLUS");
    assert("PLUS"@ =~= seq!['P', 'L', 'U', 'S']);
    reveal_strlit("PLUS_ASSIGN");
    assert("PLUS_ASSIGN"@ =~= seq!['P', 'L', 'U', 'S', '_', 'A', 'S', 'S', 'I', 'G', 'N']);
    reveal_strlit("RIGHT_SHIFT");
    assert("RIGHT_SHIFT"@ =~= seq!['R', 'I', 'G', 'H', 'T', '_', 'S', 'H', 'I', 'F', 'T']);
    reveal_strlit("RIGHT_SHIFT_ASSIGN");
    assert("RIGHT_SHIFT_ASSIGN"@ =~= seq!['R', 'I', 'G', 'H', 'T', '_', 'S', 'H', 'I', 'F', 'T', '_', 'A', 'S', 'S', 'I', 'G', 'N']);
    reveal_strlit("SEMICOLON");
    assert("SEMICOLON"@ =~= seq!['S', 'E', 'M', 'I', 'C', 'O', 'L', 'O', 'N']);
    assert(symbol_table()[0].0 == "SEMICOLON");
    assert(symbol_table()[1].0 == "INCREMENT");
    assert(symbol_table()[2].0 == "DECREMENT");
    assert(symbol_table()[3].0 == "PLUS_ASSIGN");
    assert(symbol_table()[4].0 == "MINUS_ASSIGN");
    assert(symbol_table()[5].0 == "MULTIPLY_ASSIGN");
    assert(symbol_table()[6].0 == "DIVIDE_ASSIGN");
    assert(symbol_table()[7].0 == "MODULUS_ASSIGN");
    assert(symbol_table()[8].0 == "BITWISE_AND_ASSIGN");
    assert(symbol_table()[9].0 == "BITWISE_XOR_ASSIGN");
    assert(symbol_table()[10].0 == "BITWISE_NOT_ASSIGN");
    assert(symbol_table()[11].0 == "LEFT_SHIFT_ASSIGN");
    assert(symbol_table()[12].0 == "RIGHT_SHIFT_ASSIGN");
    assert(symbol_table()[13].0 == "PLUS");
    assert(symbol_table()[14].0 == "MINUS");
    assert(symbol_table()[15].0 == "MULTIPLY");
    assert(symbol_table()[16].0 == "DIVIDE");
    assert(symbol_table()[17].0 == "MODULUS");
    assert(symbol_table()[18].0 == "LOGICAL_AND");
    assert(symbol_table()[19].0 == "BITWISE_AND");
    assert(symbol_table()[20].0 == "BITWISE_XOR");
    assert(symbol_table()[21].0 == "BITWISE_NOT");
    assert(symbol_table()[22].0 == "LEFT_SHIFT");
    assert(symbol_table()[23].0 == "RIGHT_SHIFT");
    assert(symbol_table()[24].0 == "CIRCOM_L_ASSIGN");
    assert(symbol_table()[25].0 == "CIRCOM_R_ASSIGN");
    assert(symbol_table()[26].0 == "CIRCOM_L_CONSTRAINT_ASSIGN");
    assert(symbol_table()[27].0 == "CIRCOM_R_CONSTRAINT_ASSIGN");
    assert(symbol_table()[28].0 == "CIRCOM_CONSTRAINT");
    assert(symbol_table()[29].0 == "EQUAL");
    assert(symbol_table()[30].0 == "NOT_EQUAL");
    assert(symbol_table()[31].0 == "LESS_THAN_OR_EQUAL");
    assert(symbol_table()[32].0 == "GREATER_THAN_OR_EQUAL");
    assert(symbol_table()[33].0 == "LESS_THAN");
    assert(symbol_table()[34].0 == "GREATER_THAN");
    assert(symbol_table()[35].0 == "ASSIGN");
    assert forall|j: int| 0 <= j < 35 implies (#[trigger] symbol_table()[j]).0@ != symbol_table()[35].0@ by {
        if j == 0 {
            assert(symbol_table()[0].0@ == "SEMICOLON"@);
        }
        if j == 1 {
            assert(symbol_table()[1].0@ == "INCREMENT"@);
        }
        if j == 2 {
            assert(symbol_table()[2].0@ == "DECREMENT"@);
        }
        if j == 3 {
            assert(symbol_table()[3].0@ == "PLUS_ASSIGN"@);
        }
        if j == 4 {
            assert(symbol_table()[4].0@ == "MINUS_ASSIGN"@);
        }
        if j == 5 {
            assert(symbol_table()[5].0@ == "MULTIPLY_ASSIGN"@);
        }
        if j == 6 {
            assert(symbol_table()[6].0@ == "DIVIDE_ASSIGN"@);
        }
        if j == 7 {
            assert(symbol_table()[7].0@ == "MODULUS_ASSIGN"@);
        }
        if j == 8 {
            assert(symbol_table()[8].0@ == "BITWISE_AND_ASSIGN"@);
        }
        if j == 9 {
            assert(symbol_table()[9].0@ == "BITWISE_XOR_ASSIGN"@);
        }
        if j == 10 {
            assert(symbol_table()[10].0@ == "BITWISE_NOT_ASSIGN"@);
        }
        if j == 11 {
            assert(symbol_table()[11].0@ == "LEFT_SHIFT_ASSIGN"@);
        }
        if j == 12 {
            assert(symbol_table()[12].0@ == "RIGHT_SHIFT_ASSIGN"@);
        }
        if j == 13 {
            assert(symbol_table()[13].0@ == "PLUS"@);
        }
        if j == 14 {
            assert(symbol_table()[14].0@ == "MINUS"@);
        }
        if j == 15 {
            assert(symbol_table()[15].0@ == "MULTIPLY"@);
        }
        if j == 16 {
            assert(symbol_table()[16].0@ == "DIVIDE"@);
        }
        if j == 17 {
            assert(symbol_table()[17].0@ == "MODULUS"@);
        }
        if j == 18 {
            assert(symbol_table()[18].0@ == "LOGICAL_AND"@);
        }
        if j == 19 {
            assert(symbol_table()[19].0@ == "BITWISE_AND"@);
        }
        if j == 20 {
            assert(symbol_table()[20].0@ == "BITWISE_XOR"@);
        }
        if j == 21 {
            assert(symbol_table()[21].0@ == "BITWISE_NOT"@);
        }
        if j == 22 {
            assert(symbol_table()[22].0@ == "LEFT_SHIFT"@);
        }
        if j == 23 {
            assert(symbol_table()[23].0@ == "RIGHT_SHIFT"@);
        }
        if j == 24 {
            assert(symbol_table()[24].0@ == "CIRCOM_L_ASSIGN"@);
        }
        if j == 25 {
            assert(symbol_table()[25].0@ == "CIRCOM_R_ASSIGN"@);
        }
        if j == 26 {
            assert(symbol_table()[26].0@ == "CIRCOM_L_CONSTRAINT_ASSIGN"@);
        }
        if j == 27 {
            assert(symbol_table()[27].0@ == "CIRCOM_R_CONSTRAINT_ASSIGN"@);
        }
        if j == 28 {
            assert(symbol_table()[28].0@ == "CIRCOM_CONSTRAINT"@);
        }
        if j == 29 {
            assert(symbol_table()[29].0@ == "EQUAL"@);
        }
        if j == 30 {
            assert(symbol_table()[30].0@ == "NOT_EQUAL"@);
        }
        if j == 31 {
            assert(symbol_table()[31].0@ == "LESS_THAN_OR_EQUAL"@);
        }
        if j == 32 {
            assert(symbol_table()[32].0@ == "GREATER_THAN_OR_EQUAL"@);
        }
        if j == 33 {
            assert(symbol_table()[33].0@ == "LESS_THAN"@);
        }
        if j == 34 {
            assert(symbol_table()[34].0@ == "GREATER_THAN"@);
        }
    }
}

proof fn lemma_key_first_36()
    ensures
        forall|j: int| 0 <= j < 36 ==> (#[trigger] symbol_table()[j]).0@ != symbol_table()[36].0@,
{
    reveal_strlit("ASSIGN");
    assert("ASSIGN"@ =~= seq!['A', 'S', 'S', 'I', 'G', 'N']);
    reveal_strlit("BITWISE_AND");
    assert("BITWISE_AND"@ =~= seq!['B', 'I', 'T', 'W', 'I', 'S', 'E', '_', 'A', 'N', 'D']);
    reveal_strlit("BITWISE_AND_ASSIGN");
    assert("BITWISE_AND_ASSIGN"@ =~= seq!['B', 'I', 'T', 'W', 'I', 'S', 'E', '_', 'A', 'N', 'D', '_', 'A', 'S', 'S', 'I', 'G', 'N']);
    reveal_strlit("BITWISE_NOT");
    assert("BITWISE_NOT"@ =~= seq!['B', 'I', 'T', 'W', 'I', 'S', 'E', '_', 'N', 'O', 'T']);
    reveal_strlit("BITWISE_NOT_ASSIGN");
    assert("BITWISE_NOT_ASSIGN"@ =~= seq!['B', 'I', 'T', 'W', 'I', 'S', 'E', '_', 'N', 'O', 'T', '_', 'A', 'S', 'S', 'I', 'G', 'N']);
    reveal_strlit("BITWISE_XOR");
    assert("BITWISE_XOR"@ =~= seq!['B', 'I', 'T', 'W', 'I', 'S', 'E', '_', 'X', 'O', 'R']);
    reveal_strlit("BITWISE_XOR_ASSIGN");
    assert("BITWISE_XOR_ASSIGN"@ =~= seq!['B', 'I', 'T', 'W', 'I', 'S', 'E', '_', 'X', 'O', 'R', '_', 'A', 'S', 'S', 'I', 'G', 'N']);
    reveal_strlit("CIRCOM_CONSTRAINT");
    assert("CIRCOM_CONSTRAINT"@ =~= seq!['C', 'I', 'R', 'C', 'O', 'M', '_', 'C', 'O', 'N', 'S', 'T', 'R', 'A', 'I', 'N', 'T']);
    reveal_strlit("CIRCOM_L_ASSIGN");
    assert("CIRCOM_L_ASSIGN"@ =~= seq!['C', 'I', 'R', 'C', 'O', 'M', '_', 'L', '_', 'A', 'S', 'S', 'I', 'G', 'N']);
    reveal_strlit("CIRCOM_L_CONSTRAINT_ASSIGN");
    assert("CIRCOM_L_CONSTRAINT_ASSIGN"@ =~= seq!['C', 'I', 'R', 'C', 'O', 'M', '_', 'L', '_', 'C', 'O', 'N', 'S', 'T', 'R', 'A', 'I', 'N', 'T', '_', 'A', 'S', 'S', 'I', 'G', 'N']);
    reveal_strlit("CIRCOM_R_ASSIGN");
    assert("CIRCOM_R_ASSIGN"@ =~= seq!['C', 'I', 'R', 'C', 'O', 'M', '_', 'R', '_', 'A', 'S', 'S', 'I', 'G', 'N']);
    reveal_strlit("CIRCOM_R_CONSTRAINT_ASSIGN");
    assert("CIRCOM_R_CONSTRAINT_ASSIGN"@ =~= seq!['C', 'I', 'R', 'C', 'O', 'M', '_', 'R', '_', 'C', 'O', 'N', 'S', 'T', 'R', 'A', 'I', 'N', 'T', '_', 'A', 'S', 'S', 'I', 'G', 'N']);
    reveal_strlit("DECREMENT");
    assert("DECREMENT"@ =~= seq!['D', 'E', 'C', 'R', 'E', 'M', 'E', 'N', 'T']);
    reveal_strlit("DIVIDE");
    assert("DIVIDE"@ =~= seq!['D', 'I', 'V', 'I', 'D', 'E']);
    reveal_strlit("DIVIDE_ASSIGN");
    assert("DIVIDE_ASSIGN"@ =~= seq!['D', 'I', 'V', 'I', 'D', 'E', '_', 'A', 'S', 'S', 'I', 'G', 'N']);
    reveal_strlit("EQUAL");
    assert("EQUAL"@ =~= seq!['E', 'Q', 'U', 'A', 'L']);
    reveal_strlit("GREATER_THAN");
    assert("GREATER_THAN"@ =~= seq!['G', 'R', 'E', 'A', 'T', 'E', 'R', '_', 'T', 'H', 'A', 'N']);
    reveal_strlit("GREATER_THAN_OR_EQUAL");
    assert("GREATER_THAN_OR_EQUAL"@ =~= seq!['G', 'R', 'E', 'A', 'T', 'E', 'R', '_', 'T', 'H', 'A', 'N', '_', 'O', 'R', '_', 'E', 'Q', 'U', 'A', 'L']);
    reveal_strlit("INCREMENT");
    assert("INCREMENT"@ =~= seq!['I', 'N', 'C', 'R', 'E', 'M', 'E', 'N', 'T']);
    reveal_strlit("LEFT_SHIFT");
    assert("LEFT_SHIFT"@ =~= seq!['L', 'E', 'F', 'T', '_', 'S', 'H', 'I', 'F', 'T']);
    reveal_strlit("LEFT_SHIFT_ASSIGN");
    assert("LEFT_SHIFT_ASSIGN"@ =~= seq!['L', 'E', 'F', 'T', '_', 'S', 'H', 'I', 'F', 'T', '_', 'A', 'S', 'S', 'I', 'G', 'N']);
    reveal_strlit("LESS_THAN");
    assert("LESS_THAN"@ =~= seq!['L', 'E', 'S', 'S', '_', 'T', 'H', 'A', 'N']);
    reveal_strlit("LESS_THAN_OR_EQUAL");
    assert("LESS_THAN_OR_EQUAL"@ =~= seq!['L', 'E', 'S', 'S', '_', 'T', 'H', 'A', 'N', '_', 'O', 'R', '_', 'E', 'Q', 'U', 'A', 'L']);
    reveal_strlit("LOGICAL_AND");
    assert("LOGICAL_AND"@ =~= seq!['L', 'O', 'G', 'I', 'C', 'A', 'L', '_', 'A', 'N', 'D']);
    reveal_strlit("LOGICAL_NOT");
    assert("LOGICAL_NOT"@ =~= seq!['L', 'O', 'G', 'I', 'C', 'A', 'L', '_', 'N', 'O', 'T']);
    reveal_strlit("MINUS");
    assert("MINUS"@ =~= seq!['M', 'I', 'N', 'U', 'S']);
    reveal_strlit("MINUS_ASSIGN");
    assert("MINUS_ASSIGN"@ =~= seq!['M', 'I', 'N', 'U', 'S', '_', 'A', 'S', 'S', 'I', 'G', 'N']);
    reveal_strlit("MODULUS");
    assert("MODULUS"@ =~= seq!['M', 'O', 'D', 'U', 'L', 'U', 'S']);
    reveal_strlit("MODULUS_ASSIGN");
    assert("MODULUS_ASSIGN"@ =~= seq!['M', 'O', 'D', 'U', 'L', 'U', 'S', '_', 'A', 'S', 'S', 'I', 'G', 'N']);
    reveal_strlit("MULTIPLY");
    assert("MULTIPLY"@ =~= seq!['M', 'U', 'L', 'T', 'I', 'P', 'L', 'Y']);
    reveal_strlit("MULTIPLY_ASSIGN");
    assert("MULTIPLY_ASSIGN"@ =~= seq!['M', 'U', 'L', 'T', 'I', 'P', 'L', 'Y', '_', 'A', 'S', 'S', 'I', 'G', 'N']);
    reveal_strlit("NOT_EQUAL");
    assert("NOT_EQUAL"@ =~= seq!['N', 'O', 'T', '_', 'E', 'Q', 'U', 'A', 'L']);
    reveal_strlit("PLUS");
    assert("PLUS"@ =~= seq!['P', 'L', 'U', 'S']);
    reveal_strlit("PLUS_ASSIGN");
    assert("PLUS_ASSIGN"@ =~= seq!['P', 'L', 'U', 'S', '_', 'A', 'S', 'S', 'I', 'G', 'N']);
    reveal_strlit("RIGHT_SHIFT");
    assert("RIGHT_SHIFT"@ =~= seq!['R', 'I', 'G', 'H', 'T', '_', 'S', 'H', 'I', 'F', 'T']);
    reveal_strlit("RIGHT_SHIFT_ASSIGN");
    assert("RIGHT_SHIFT_ASSIGN"@ =~= seq!['R', 'I', 'G', 'H', 'T', '_', 'S', 'H', 'I', 'F', 'T', '_', 'A', 'S', 'S', 'I', 'G', 'N']);
    reveal_strlit("SEMICOLON");
    assert("SEMICOLON"@ =~= seq!['S', 'E', 'M', 'I', 'C', 'O', 'L', 'O', 'N']);
    assert(symbol_table()[0].0 == "SEMICOLON");
    assert(symbol_table()[1].0 == "INCREMENT");
    assert(symbol_table()[2].0 == "DECREMENT");
    assert(symbol_table()[3].0 == "PLUS_ASSIGN");
    assert(symbol_table()[4].0 == "MINUS_ASSIGN");
    assert(symbol_table()[5].0 == "MULTIPLY_ASSIGN");
    assert(symbol_table()[6].0 == "DIVIDE_ASSIGN");
    assert(symbol_table()[7].0 == "MODULUS_ASSIGN");
    assert(symbol_table()[8].0 == "BITWISE_AND_ASSIGN");
    assert(symbol_table()[9].0 == "BITWISE_XOR_ASSIGN");
    assert(symbol_table()[10].0 == "BITWISE_NOT_ASSIGN");
    assert(symbol_table()[11].0 == "LEFT_SHIFT_ASSIGN");
    assert(symbol_table()[12].0 == "RIGHT_SHIFT_ASSIGN");
    assert(symbol_table()[13].0 == "PLUS");
    assert(symbol_table()[14].0 == "MINUS");
    assert(symbol_table()[15].0 == "MULTIPLY");
    assert(symbol_table()[16].0 == "DIVIDE");
    assert(symbol_table()[17].0 == "MODULUS");
    assert(symbol_table()[18].0 == "LOGICAL_AND");
    assert(symbol_table()[19].0 == "BITWISE_AND");
    assert(symbol_table()[20].0 == "BITWISE_XOR");
    assert(symbol_table()[21].0 == "BITWISE_NOT");
    assert(symbol_table()[22].0 == "LEFT_SHIFT");
    assert(symbol_table()[23].0 == "RIGHT_SHIFT");
    assert(symbol_table()[24].0 == "CIRCOM_L_ASSIGN");
    assert(symbol_table()[25].0 == "CIRCOM_R_ASSIGN");
    assert(symbol_table()[26].0 == "CIRCOM_L_CONSTRAINT_ASSIGN");
    assert(symbol_table()[27].0 == "CIRCOM_R_CONSTRAINT_ASSIGN");
    assert(symbol_table()[28].0 == "CIRCOM_CONSTRAINT");
    assert(symbol_table()[29].0 == "EQUAL");
    assert(symbol_table()[30].0 == "NOT_EQUAL");
    assert(symbol_table()[31].0 == "LESS_THAN_OR_EQUAL");
    assert(symbol_table()[32].0 == "GREATER_THAN_OR_EQUAL");
    assert(symbol_table()[33].0 == "LESS_THAN");
    assert(symbol_table()[34].0 == "GREATER_THAN");
    assert(symbol_table()[35].0 == "ASSIGN");
    assert(symbol_table()[36].0 == "LOGICAL_NOT");
    assert forall|j: int| 0 <= j < 36 implies (#[trigger] symbol_table()[j]).0@ != symbol_table()[36].0@ by {
        if j == 0 {
            assert(symbol_table()[0].0@ == "SEMICOLON"@);
        }
        if j == 1 {
            assert(symbol_table()[1].0@ == "INCREMENT"@);
        }
        if j == 2 {
            assert(symbol_table()[2].0@ == "DECREMENT"@);
        }
        if j == 3 {
            assert(symbol_table()[3].0@ == "PLUS_ASSIGN"@);
        }
        if j == 4 {
            assert(symbol_table()[4].0@ == "MINUS_ASSIGN"@);
        }
        if j == 5 {
            assert(symbol_table()[5].0@ == "MULTIPLY_ASSIGN"@);
        }
        if j == 6 {
            assert(symbol_table()[6].0@ == "DIVIDE_ASSIGN"@);
        }
        if j == 7 {
            assert(symbol_table()[7].0@ == "MODULUS_ASSIGN"@);
        }
        if j == 8 {
            assert(symbol_table()[8].0@ == "BITWISE_AND_ASSIGN"@);
        }
        if j == 9 {
            assert(symbol_table()[9].0@ == "BITWISE_XOR_ASSIGN"@);
        }
        if j == 10 {
            assert(symbol_table()[10].0@ == "BITWISE_NOT_ASSIGN"@);
        }
        if j == 11 {
            assert(symbol_table()[11].0@ == "LEFT_SHIFT_ASSIGN"@);
        }
        if j == 12 {
            assert(symbol_table()[12].0@ == "RIGHT_SHIFT_ASSIGN"@);
        }
        if j == 13 {
            assert(symbol_table()[13].0@ == "PLUS"@);
        }
        if j == 14 {
            assert(symbol_table()[14].0@ == "MINUS"@);
        }
        if j == 15 {
            assert(symbol_table()[15].0@ == "MULTIPLY"@);
        }
        if j == 16 {
            assert(symbol_table()[16].0@ == "DIVIDE"@);
        }
        if j == 17 {
            assert(symbol_table()[17].0@ == "MODULUS"@);
        }
        if j == 18 {
            assert(symbol_table()[18].0@ == "LOGICAL_AND"@);
        }
        if j == 19 {
            assert(symbol_table()[19].0@ == "BITWISE_AND"@);
        }
        if j == 20 {
            assert(symbol_table()[20].0@ == "BITWISE_XOR"@);
        }
        if j == 21 {
            assert(symbol_table()[21].0@ == "BITWISE_NOT"@);
        }
        if j == 22 {
            assert(symbol_table()[22].0@ == "LEFT_SHIFT"@);
        }
        if j == 23 {
            assert(symbol_table()[23].0@ == "RIGHT_SHIFT"@);
        }
        if j == 24 {
            assert(symbol_table()[24].0@ == "CIRCOM_L_ASSIGN"@);
        }
        if j == 25 {
            assert(symbol_table()[25].0@ == "CIRCOM_R_ASSIGN"@);
        }
        if j == 26 {
            assert(symbol_table()[26].0@ == "CIRCOM_L_CONSTRAINT_ASSIGN"@);
        }
        if j == 27 {
            assert(symbol_table()[27].0@ == "CIRCOM_R_CONSTRAINT_ASSIGN"@);
        }
        if j == 28 {
            assert(symbol_table()[28].0@ == "CIRCOM_CONSTRAINT"@);
        }
        if j == 29 {
            assert(symbol_table()[29].0@ == "EQUAL"@);
        }
        if j == 30 {
            assert(symbol_table()[30].0@ == "NOT_EQUAL"@);
        }
        if j == 31 {
            assert(symbol_table()[31].0@ == "LESS_THAN_OR_EQUAL"@);
        }
        if j == 32 {
            assert(symbol_table()[32].0@ == "GREATER_THAN_OR_EQUAL"@);
        }
        if j == 33 {
            assert(symbol_table()[33].0@ == "LESS_THAN"@);
        }
        if j == 34 {
            assert(symbol_table()[34].0@ == "GREATER_THAN"@);
        }
        if j == 35 {
            assert(symbol_table()[35].0@ == "ASSIGN"@);
        }
    }
}

proof fn lemma_key_first_37()
    ensures
        forall|j: int| 0 <= j < 37 ==> (#[trigger] symbol_table()[j]).0@ != symbol_table()[37].0@,
{
    reveal_strlit("ASSIGN");
    assert("ASSIGN"@ =~= seq!['A', 'S', 'S', 'I', 'G', 'N']);
    reveal_strlit("BITWISE_AND");
    assert("BITWISE_AND"@ =~= seq!['B', 'I', 'T', 'W', 'I', 'S', 'E', '_', 'A', 'N', 'D']);
    reveal_strlit("BITWISE_AND_ASSIGN");
    assert("BITWISE_AND_ASSIGN"@ =~= seq!['B', 'I', 'T', 'W', 'I', 'S', 'E', '_', 'A', 'N', 'D', '_', 'A', 'S', 'S', 'I', 'G', 'N']);
    reveal_strlit("BITWISE_NOT");
    assert("BITWISE_NOT"@ =~= seq!['B', 'I', 'T', 'W', 'I', 'S', 'E', '_', 'N', 'O', 'T']);
    reveal_strlit("BITWISE_NOT_ASSIGN");
    assert("BITWISE_NOT_ASSIGN"@ =~= seq!['B', 'I', 'T', 'W', 'I', 'S', 'E', '_', 'N', 'O', 'T', '_', 'A', 'S', 'S', 'I', 'G', 'N']);
    reveal_strlit("BITWISE_XOR");
    assert("BITWISE_XOR"@ =~= seq!['B', 'I', 'T', 'W', 'I', 'S', 'E', '_', 'X', 'O', 'R']);
    reveal_strlit("BITWISE_XOR_ASSIGN");
    assert("BITWISE_XOR_ASSIGN"@ =~= seq!['B', 'I', 'T', 'W', 'I', 'S', 'E', '_', 'X', 'O', 'R', '_', 'A', 'S', 'S', 'I', 'G', 'N']);
    reveal_strlit("CIRCOM_CONSTRAINT");
    assert("CIRCOM_CONSTRAINT"@ =~= seq!['C', 'I', 'R', 'C', 'O', 'M', '_', 'C', 'O', 'N', 'S', 'T', 'R', 'A', 'I', 'N', 'T']);
    reveal_strlit("CIRCOM_L_ASSIGN");
    assert("CIRCOM_L_ASSIGN"@ =~= seq!['C', 'I', 'R', 'C', 'O', 'M', '_', 'L', '_', 'A', 'S', 'S', 'I', 'G', 'N']);
    reveal_strlit("CIRCOM_L_CONSTRAINT_ASSIGN");
    assert("CIRCOM_L_CONSTRAINT_ASSIGN"@ =~= seq!['C', 'I', 'R', 'C', 'O', 'M', '_', 'L', '_', 'C', 'O', 'N', 'S', 'T', 'R', 'A', 'I', 'N', 'T', '_', 'A', 'S', 'S', 'I', 'G', 'N']);
    reveal_strlit("CIRCOM_R_ASSIGN");
    assert("CIRCOM_R_ASSIGN"@ =~= seq!['C', 'I', 'R', 'C', 'O', 'M', '_', 'R', '_', 'A', 'S', 'S', 'I', 'G', 'N']);
    reveal_strlit("CIRCOM_R_CONSTRAINT_ASSIGN");
    assert("CIRCOM_R_CONSTRAINT_ASSIGN"@ =~= seq!['C', 'I', 'R', 'C', 'O', 'M', '_', 'R', '_', 'C', 'O', 'N', 'S', 'T', 'R', 'A', 'I', 'N', 'T', '_', 'A', 'S', 'S', 'I', 'G', 'N']);
    reveal_strlit("DECREMENT");
    assert("DECREMENT"@ =~= seq!['D', 'E', 'C', 'R', 'E', 'M', 'E', 'N', 'T']);
    reveal_strlit("DIVIDE");
    assert("DIVIDE"@ =~= seq!['D', 'I', 'V', 'I', 'D', 'E']);
    reveal_strlit("DIVIDE_ASSIGN");
    assert("DIVIDE_ASSIGN"@ =~= seq!['D', 'I', 'V', 'I', 'D', 'E', '_', 'A', 'S', 'S', 'I', 'G', 'N']);
    reveal_strlit("EQUAL");
    assert("EQUAL"@ =~= seq!['E', 'Q', 'U', 'A', 'L']);
    reveal_strlit("GREATER_THAN");
    assert("GREATER_THAN"@ =~= seq!['G', 'R', 'E', 'A', 'T', 'E', 'R', '_', 'T', 'H', 'A', 'N']);
    reveal_strlit("GREATER_THAN_OR_EQUAL");
    assert("GREATER_THAN_OR_EQUAL"@ =~= seq!['G', 'R', 'E', 'A', 'T', 'E', 'R', '_', 'T', 'H', 'A', 'N', '_', 'O', 'R', '_', 'E', 'Q', 'U', 'A', 'L']);
    reveal_strlit("INCREMENT");
    assert("INCREMENT"@ =~= seq!['I', 'N', 'C', 'R', 'E', 'M', 'E', 'N', 'T']);
    reveal_strlit("LEFT_SHIFT");
    assert("LEFT_SHIFT"@ =~= seq!['L', 'E', 'F', 'T', '_', 'S', 'H', 'I', 'F', 'T']);
    reveal_strlit("LEFT_SHIFT_ASSIGN");
    assert("LEFT_SHIFT_ASSIGN"@ =~= seq!['L', 'E', 'F', 'T', '_', 'S', 'H', 'I', 'F', 'T', '_', 'A', 'S', 'S', 'I', 'G', 'N']);
    reveal_strlit("LESS_THAN");
    assert("LESS_THAN"@ =~= seq!['L', 'E', 'S', 'S', '_', 'T', 'H', 'A', 'N']);
    reveal_strlit("LESS_THAN_OR_EQUAL");
    assert("LESS_THAN_OR_EQUAL"@ =~= seq!['L', 'E', 'S', 'S', '_', 'T', 'H', 'A', 'N', '_', 'O', 'R', '_', 'E', 'Q', 'U', 'A', 'L']);
    reveal_strlit("LOGICAL_AND");
    assert("LOGICAL_AND"@ =~= seq!['L', 'O', 'G', 'I', 'C', 'A', 'L', '_', 'A', 'N', 'D']);
    reveal_strlit("LOGICAL_NOT");
    assert("LOGICAL_NOT"@ =~= seq!['L', 'O', 'G', 'I', 'C', 'A', 'L', '_', 'N', 'O', 'T']);
    reveal_strlit("LPAREN");
    assert("LPAREN"@ =~= seq!['L', 'P', 'A', 'R', 'E', 'N']);
    reveal_strlit("MINUS");
    assert("MINUS"@ =~= seq!['M', 'I', 'N', 'U', 'S']);
    reveal_strlit("MINUS_ASSIGN");
    assert("MINUS_ASSIGN"@ =~= seq!['M', 'I', 'N', 'U', 'S', '_', 'A', 'S', 'S', 'I', 'G', 'N']);
    reveal_strlit("MODULUS");
    assert("MODULUS"@ =~= seq!['M', 'O', 'D', 'U', 'L', 'U', 'S']);
    reveal_strlit("MODULUS_ASSIGN");
    assert("MODULUS_ASSIGN"@ =~= seq!['M', 'O', 'D', 'U', 'L', 'U', 'S', '_', 'A', 'S', 'S', 'I', 'G', 'N']);
    reveal_strlit("MULTIPLY");
    assert("MULTIPLY"@ =~= seq!['M', 'U', 'L', 'T', 'I', 'P', 'L', 'Y']);
    reveal_strlit("MULTIPLY_ASSIGN");
    assert("MULTIPLY_ASSIGN"@ =~= seq!['M', 'U', 'L', 'T', 'I', 'P', 'L', 'Y', '_', 'A', 'S', 'S', 'I', 'G', 'N']);
    reveal_strlit("NOT_EQUAL");
    assert("NOT_EQUAL"@ =~= seq!['N', 'O', 'T', '_', 'E', 'Q', 'U', 'A', 'L']);
    reveal_strlit("PLUS");
    assert("PLUS"@ =~= seq!['P', 'L', 'U', 'S']);
    reveal_strlit("PLUS_ASSIGN");
    assert("PLUS_ASSIGN"@ =~= seq!['P', 'L', 'U', 'S', '_', 'A', 'S', 'S', 'I', 'G', 'N']);
    reveal_strlit("RIGHT_SHIFT");
    assert("RIGHT_SHIFT"@ =~= seq!['R', 'I', 'G', 'H', 'T', '_', 'S', 'H', 'I', 'F', 'T']);
    reveal_strlit("RIGHT_SHIFT_ASSIGN");
    assert("RIGHT_SHIFT_ASSIGN"@ =~= seq!['R', 'I', 'G', 'H', 'T', '_', 'S', 'H', 'I', 'F', 'T', '_', 'A', 'S', 'S', 'I', 'G', 'N']);
    reveal_strlit("SEMICOLON");
    assert("SEMICOLON"@ =~= seq!['S', 'E', 'M', 'I', 'C', 'O', 'L', 'O', 'N']);
    assert(symbol_table()[0].0 == "SEMICOLON");
    assert(symbol_table()[1].0 == "INCREMENT");
    assert(symbol_table()[2].0 == "DECREMENT");
    assert(symbol_table()[3].0 == "PLUS_ASSIGN");
    assert(symbol_table()[4].0 == "MINUS_ASSIGN");
    assert(symbol_table()[5].0 == "MULTIPLY_ASSIGN");
    assert(symbol_table()[6].0 == "DIVIDE_ASSIGN");
    assert(symbol_table()[7].0 == "MODULUS_ASSIGN");
    assert(symbol_table()[8].0 == "BITWISE_AND_ASSIGN");
    assert(symbol_table()[9].0 == "BITWISE_XOR_ASSIGN");
    assert(symbol_table()[10].0 == "BITWISE_NOT_ASSIGN");
    assert(symbol_table()[11].0 == "LEFT_SHIFT_ASSIGN");
    assert(symbol_table()[12].0 == "RIGHT_SHIFT_ASSIGN");
    assert(symbol_table()[13].0 == "PLUS");
    assert(symbol_table()[14].0 == "MINUS");
    assert(symbol_table()[15].0 == "MULTIPLY");
    assert(symbol_table()[16].0 == "DIVIDE");
    assert(symbol_table()[17].0 == "MODULUS");
    assert(symbol_table()[18].0 == "LOGICAL_AND");
    assert(symbol_table()[19].0 == "BITWISE_AND");
    assert(symbol_table()[20].0 == "BITWISE_XOR");
    assert(symbol_table()[21].0 == "BITWISE_NOT");
    assert(symbol_table()[22].0 == "LEFT_SHIFT");
    assert(symbol_table()[23].0 == "RIGHT_SHIFT");
    assert(symbol_table()[24].0 == "CIRCOM_L_ASSIGN");
    assert(symbol_table()[25].0 == "CIRCOM_R_ASSIGN");
    assert(symbol_table()[26].0 == "CIRCOM_L_CONSTRAINT_ASSIGN");
    assert(symbol_table()[27].0 == "CIRCOM_R_CONSTRAINT_ASSIGN");
    assert(symbol_table()[28].0 == "CIRCOM_CONSTRAINT");
    assert(symbol_table()[29].0 == "EQUAL");
    assert(symbol_table()[30].0 == "NOT_EQUAL");
    assert(symbol_table()[31].0 == "LESS_THAN_OR_EQUAL");
    assert(symbol_table()[32].0 == "GREATER_THAN_OR_EQUAL");
    assert(symbol_table()[33].0 == "LESS_THAN");
    assert(symbol_table()[34].0 == "GREATER_THAN");
    assert(symbol_table()[35].0 == "ASSIGN");
    assert(symbol_table()[36].0 == "LOGICAL_NOT");
    assert(symbol_table()[37].0 == "LPAREN");
    assert forall|j: int| 0 <= j < 37 implies (#[trigger] symbol_table()[j]).0@ != symbol_table()[37].0@ by {
        if j == 0 {
            assert(symbol_table()[0].0@ == "SEMICOLON"@);
        }
        if j == 1 {
            assert(symbol_table()[1].0@ == "INCREMENT"@);
        }
        if j == 2 {
            assert(symbol_table()[2].0@ == "DECREMENT"@);
        }
        if j == 3 {
            assert(symbol_table()[3].0@ == "PLUS_ASSIGN"@);
        }
        if j == 4 {
            assert(symbol_table()[4].0@ == "MINUS_ASSIGN"@);
        }
        if j == 5 {
            assert(symbol_table()[5].0@ == "MULTIPLY_ASSIGN"@);
        }
        if j == 6 {
            assert(symbol_table()[6].0@ == "DIVIDE_ASSIGN"@);
        }
        if j == 7 {
            assert(symbol_table()[7].0@ == "MODULUS_ASSIGN"@);
        }
        if j == 8 {
            assert(symbol_table()[8].0@ == "BITWISE_AND_ASSIGN"@);
        }
        if j == 9 {
            assert(symbol_table()[9].0@ == "BITWISE_XOR_ASSIGN"@);
        }
        if j == 10 {
            assert(symbol_table()[10].0@ == "BITWISE_NOT_ASSIGN"@);
        }
        if j == 11 {
            assert(symbol_table()[11].0@ == "LEFT_SHIFT_ASSIGN"@);
        }
        if j == 12 {
            assert(symbol_table()[12].0@ == "RIGHT_SHIFT_ASSIGN"@);
        }
        if j == 13 {
            assert(symbol_table()[13].0@ == "PLUS"@);
        }
        if j == 14 {
            assert(symbol_table()[14].0@ == "MINUS"@);
        }
        if j == 15 {
            assert(symbol_table()[15].0@ == "MULTIPLY"@);
        }
        if j == 16 {
            assert(symbol_table()[16].0@ == "DIVIDE"@);
        }
        if j == 17 {
            assert(symbol_table()[17].0@ == "MODULUS"@);
        }
        if j == 18 {
            assert(symbol_table()[18].0@ == "LOGICAL_AND"@);
        }
        if j == 19 {
            assert(symbol_table()[19].0@ == "BITWISE_AND"@);
        }
        if j == 20 {
            assert(symbol_table()[20].0@ == "BITWISE_XOR"@);
        }
        if j == 21 {
            assert(symbol_table()[21].0@ == "BITWISE_NOT"@);
        }
        if j == 22 {
            assert(symbol_table()[22].0@ == "LEFT_SHIFT"@);
        }
        if j == 23 {
            assert(symbol_table()[23].0@ == "RIGHT_SHIFT"@);
        }
        if j == 24 {
            assert(symbol_table()[24].0@ == "CIRCOM_L_ASSIGN"@);
        }
        if j == 25 {
            assert(symbol_table()[25].0@ == "CIRCOM_R_ASSIGN"@);
        }
        if j == 26 {
            assert(symbol_table()[26].0@ == "CIRCOM_L_CONSTRAINT_ASSIGN"@);
        }
        if j == 27 {
            assert(symbol_table()[27].0@ == "CIRCOM_R_CONSTRAINT_ASSIGN"@);
        }
        if j == 28 {
            assert(symbol_table()[28].0@ == "CIRCOM_CONSTRAINT"@);
        }
        if j == 29 {
            assert(symbol_table()[29].0@ == "EQUAL"@);
        }
        if j == 30 {
            assert(symbol_table()[30].0@ == "NOT_EQUAL"@);
        }
        if j == 31 {
            assert(symbol_table()[31].0@ == "LESS_THAN_OR_EQUAL"@);
        }
        if j == 32 {
            assert(symbol_table()[32].0@ == "GREATER_THAN_OR_EQUAL"@);
        }
        if j == 33 {
            assert(symbol_table()[33].0@ == "LESS_THAN"@);
        }
        if j == 34 {
            assert(symbol_table()[34].0@ == "GREATER_THAN"@);
        }
        if j == 35 {
            assert(symbol_table()[35].0@ == "ASSIGN"@);
        }
        if j == 36 {
            assert(symbol_table()[36].0@ == "LOGICAL_NOT"@);
        }
    }
}

proof fn lemma_key_first_38()
    ensures
        forall|j: int| 0 <= j < 38 ==> (#[trigger] symbol_table()[j]).0@ != symbol_table()[38].0@,
{
    reveal_strlit("ASSIGN");
    assert("ASSIGN"@ =~= seq!['A', 'S', 'S', 'I', 'G', 'N']);
    reveal_strlit("BITWISE_AND");
    assert("BITWISE_AND"@ =~= seq!['B', 'I', 'T', 'W', 'I', 'S', 'E', '_', 'A', 'N', 'D']);
    reveal_strlit("BITWISE_AND_ASSIGN");
    assert("BITWISE_AND_ASSIGN"@ =~= seq!['B', 'I', 'T', 'W', 'I', 'S', 'E', '_', 'A', 'N', 'D', '_', 'A', 'S', 'S', 'I', 'G', 'N']);
    reveal_strlit("BITWISE_NOT");
    assert("BITWISE_NOT"@ =~= seq!['B', 'I', 'T', 'W', 'I', 'S', 'E', '_', 'N', 'O', 'T']);
    reveal_strlit("BITWISE_NOT_ASSIGN");
    assert("BITWISE_NOT_ASSIGN"@ =~= seq!['B', 'I', 'T', 'W', 'I', 'S', 'E', '_', 'N', 'O', 'T', '_', 'A', 'S', 'S', 'I', 'G', 'N']);
    reveal_strlit("BITWISE_XOR");
    assert("BITWISE_XOR"@ =~= seq!['B', 'I', 'T', 'W', 'I', 'S', 'E', '_', 'X', 'O', 'R']);
    reveal_strlit("BITWISE_XOR_ASSIGN");
    assert("BITWISE_XOR_ASSIGN"@ =~= seq!['B', 'I', 'T', 'W', 'I', 'S', 'E', '_', 'X', 'O', 'R', '_', 'A', 'S', 'S', 'I', 'G', 'N']);
    reveal_strlit("CIRCOM_CONSTRAINT");
    assert("CIRCOM_CONSTRAINT"@ =~= seq!['C', 'I', 'R', 'C', 'O', 'M', '_', 'C', 'O', 'N', 'S', 'T', 'R', 'A', 'I', 'N', 'T']);
    reveal_strlit("CIRCOM_L_ASSIGN");
    assert("CIRCOM_L_ASSIGN"@ =~= seq!['C', 'I', 'R', 'C', 'O', 'M', '_', 'L', '_', 'A', 'S', 'S', 'I', 'G', 'N']);
    reveal_strlit("CIRCOM_L_CONSTRAINT_ASSIGN");
    assert("CIRCOM_L_CONSTRAINT_ASSIGN"@ =~= seq!['C', 'I', 'R', 'C', 'O', 'M', '_', 'L', '_', 'C', 'O', 'N', 'S', 'T', 'R', 'A', 'I', 'N', 'T', '_', 'A', 'S', 'S', 'I', 'G', 'N']);
    reveal_strlit("CIRCOM_R_ASSIGN");
    assert("CIRCOM_R_ASSIGN"@ =~= seq!['C', 'I', 'R', 'C', 'O', 'M', '_', 'R', '_', 'A', 'S', 'S', 'I', 'G', 'N']);
    reveal_strlit("CIRCOM_R_CONSTRAINT_ASSIGN");
    assert("CIRCOM_R_CONSTRAINT_ASSIGN"@ =~= seq!['C', 'I', 'R', 'C', 'O', 'M', '_', 'R', '_', 'C', 'O', 'N', 'S', 'T', 'R', 'A', 'I', 'N', 'T', '_', 'A', 'S', 'S', 'I', 'G', 'N']);
    reveal_strlit("DECREMENT");
    assert("DECREMENT"@ =~= seq!['D', 'E', 'C', 'R', 'E', 'M', 'E', 'N', 'T']);
    reveal_strlit("DIVIDE");
    assert("DIVIDE"@ =~= seq!['D', 'I', 'V', 'I', 'D', 'E']);
    reveal_strlit("DIVIDE_ASSIGN");
    assert("DIVIDE_ASSIGN"@ =~= seq!['D', 'I', 'V', 'I', 'D', 'E', '_', 'A', 'S', 'S', 'I', 'G', 'N']);
    reveal_strlit("EQUAL");
    assert("EQUAL"@ =~= seq!['E', 'Q', 'U', 'A', 'L']);
    reveal_strlit("GREATER_THAN");
    assert("GREATER_THAN"@ =~= seq!['G', 'R', 'E', 'A', 'T', 'E', 'R', '_', 'T', 'H', 'A', 'N']);
    reveal_strlit("GREATER_THAN_OR_EQUAL");
    assert("GREATER_THAN_OR_EQUAL"@ =~= seq!['G', 'R', 'E', 'A', 'T', 'E', 'R', '_', 'T', 'H', 'A', 'N', '_', 'O', 'R', '_', 'E', 'Q', 'U', 'A', 'L']);
    reveal_strlit("INCREMENT");
    assert("INCREMENT"@ =~= seq!['I', 'N', 'C', 'R', 'E', 'M', 'E', 'N', 'T']);
    reveal_strlit("LEFT_SHIFT");
    assert("LEFT_SHIFT"@ =~= seq!['L', 'E', 'F', 'T', '_', 'S', 'H', 'I', 'F', 'T']);
    reveal_strlit("LEFT_SHIFT_ASSIGN");
    assert("LEFT_SHIFT_ASSIGN"@ =~= seq!['L', 'E', 'F', 'T', '_', 'S', 'H', 'I', 'F', 'T', '_', 'A', 'S', 'S', 'I', 'G', 'N']);
    reveal_strlit("LESS_THAN");
    assert("LESS_THAN"@ =~= seq!['L', 'E', 'S', 'S', '_', 'T', 'H', 'A', 'N']);
    reveal_strlit("LESS_THAN_OR_EQUAL");
    assert("LESS_THAN_OR_EQUAL"@ =~= seq!['L', 'E', 'S', 'S', '_', 'T', 'H', 'A', 'N', '_', 'O', 'R', '_', 'E', 'Q', 'U', 'A', 'L']);
    reveal_strlit("LOGICAL_AND");
    assert("LOGICAL_AND"@ =~= seq!['L', 'O', 'G', 'I', 'C', 'A', 'L', '_', 'A', 'N', 'D']);
    reveal_strlit("LOGICAL_NOT");
    assert("LOGICAL_NOT"@ =~= seq!['L', 'O', 'G', 'I', 'C', 'A', 'L', '_', 'N', 'O', 'T']);
    reveal_strlit("LPAREN");
    assert("LPAREN"@ =~= seq!['L', 'P', 'A', 'R', 'E', 'N']);
    reveal_strlit("MINUS");
    assert("MINUS"@ =~= seq!['M', 'I', 'N', 'U', 'S']);
    reveal_strlit("MINUS_ASSIGN");
    assert("MINUS_ASSIGN"@ =~= seq!['M', 'I', 'N', 'U', 'S', '_', 'A', 'S', 'S', 'I', 'G', 'N']);
    reveal_strlit("MODULUS");
    assert("MODULUS"@ =~= seq!['M', 'O', 'D', 'U', 'L', 'U', 'S']);
    reveal_strlit("MODULUS_ASSIGN");
    assert("MODULUS_ASSIGN"@ =~= seq!['M', 'O', 'D', 'U', 'L', 'U', 'S', '_', 'A', 'S', 'S', 'I', 'G', 'N']);
    reveal_strlit("MULTIPLY");
    assert("MULTIPLY"@ =~= seq!['M', 'U', 'L', 'T', 'I', 'P', 'L', 'Y']);
    reveal_strlit("MULTIPLY_ASSIGN");
    assert("MULTIPLY_ASSIGN"@ =~= seq!['M', 'U', 'L', 'T', 'I', 'P', 'L', 'Y', '_', 'A', 'S', 'S', 'I', 'G', 'N']);
    reveal_strlit("NOT_EQUAL");
    assert("NOT_EQUAL"@ =~= seq!['N', 'O', 'T', '_', 'E', 'Q', 'U', 'A', 'L']);
    reveal_strlit("PLUS");
    assert("PLUS"@ =~= seq!['P', 'L', 'U', 'S']);
    reveal_strlit("PLUS_ASSIGN");
    assert("PLUS_ASSIGN"@ =~= seq!['P', 'L', 'U', 'S', '_', 'A', 'S', 'S', 'I', 'G', 'N']);
    reveal_strlit("RIGHT_SHIFT");
    assert("RIGHT_SHIFT"@ =~= seq!['R', 'I', 'G', 'H', 'T', '_', 'S', 'H', 'I', 'F', 'T']);
    reveal_strlit("RIGHT_SHIFT_ASSIGN");
    assert("RIGHT_SHIFT_ASSIGN"@ =~= seq!['R', 'I', 'G', 'H', 'T', '_', 'S', 'H', 'I', 'F', 'T', '_', 'A', 'S', 'S', 'I', 'G', 'N']);
    reveal_strlit("RPAREN");
    assert("RPAREN"@ =~= seq!['R', 'P', 'A', 'R', 'E', 'N']);
    reveal_strlit("SEMICOLON");
    assert("SEMICOLON"@ =~= seq!['S', 'E', 'M', 'I', 'C', 'O', 'L', 'O', 'N']);
    assert(symbol_table()[0].0 == "SEMICOLON");
    assert(symbol_table()[1].0 == "INCREMENT");
    assert(symbol_table()[2].0 == "DECREMENT");
    assert(symbol_table()[3].0 == "PLUS_ASSIGN");
    assert(symbol_table()[4].0 == "MINUS_ASSIGN");
    assert(symbol_table()[5].0 == "MULTIPLY_ASSIGN");
    assert(symbol_table()[6].0 == "DIVIDE_ASSIGN");
    assert(symbol_table()[7].0 == "MODULUS_ASSIGN");
    assert(symbol_table()[8].0 == "BITWISE_AND_ASSIGN");
    assert(symbol_table()[9].0 == "BITWISE_XOR_ASSIGN");
    assert(symbol_table()[10].0 == "BITWISE_NOT_ASSIGN");
    assert(symbol_table()[11].0 == "LEFT_SHIFT_ASSIGN");
    assert(symbol_table()[12].0 == "RIGHT_SHIFT_ASSIGN");
    assert(symbol_table()[13].0 == "PLUS");
    assert(symbol_table()[14].0 == "MINUS");
    assert(symbol_table()[15].0 == "MULTIPLY");
    assert(symbol_table()[16].0 == "DIVIDE");
    assert(symbol_table()[17].0 == "MODULUS");
    assert(symbol_table()[18].0 == "LOGICAL_AND");
    assert(symbol_table()[19].0 == "BITWISE_AND");
    assert(symbol_table()[20].0 == "BITWISE_XOR");
    assert(symbol_table()[21].0 == "BITWISE_NOT");
    assert(symbol_table()[22].0 == "LEFT_SHIFT");
    assert(symbol_table()[23].0 == "RIGHT_SHIFT");
    assert(symbol_table()[24].0 == "CIRCOM_L_ASSIGN");
    assert(symbol_table()[25].0 == "CIRCOM_R_ASSIGN");
    assert(symbol_table()[26].0 == "CIRCOM_L_CONSTRAINT_ASSIGN");
    assert(symbol_table()[27].0 == "CIRCOM_R_CONSTRAINT_ASSIGN");
    assert(symbol_table()[28].0 == "CIRCOM_CONSTRAINT");
    assert(symbol_table()[29].0 == "EQUAL");
    assert(symbol_table()[30].0 == "NOT_EQUAL");
    assert(symbol_table()[31].0 == "LESS_THAN_OR_EQUAL");
    assert(symbol_table()[32].0 == "GREATER_THAN_OR_EQUAL");
    assert(symbol_table()[33].0 == "LESS_THAN");
    assert(symbol_table()[34].0 == "GREATER_THAN");
    assert(symbol_table()[35].0 == "ASSIGN");
    assert(symbol_table()[36].0 == "LOGICAL_NOT");
    assert(symbol_table()[37].0 == "LPAREN");
    assert(symbol_table()[38].0 == "RPAREN");
    assert forall|j: int| 0 <= j < 38 implies (#[trigger] symbol_table()[j]).0@ != symbol_table()[38].0@ by {
        if j == 0 {
            assert(symbol_table()[0].0@ == "SEMICOLON"@);
        }
        if j == 1 {
            assert(symbol_table()[1].0@ == "INCREMENT"@);
        }
        if j == 2 {
            assert(symbol_table()[2].0@ == "DECREMENT"@);
        }
        if j == 3 {
            assert(symbol_table()[3].0@ == "PLUS_ASSIGN"@);
        }
        if j == 4 {
            assert(symbol_table()[4].0@ == "MINUS_ASSIGN"@);
        }
        if j == 5 {
            assert(symbol_table()[5].0@ == "MULTIPLY_ASSIGN"@);
        }
        if j == 6 {
            assert(symbol_table()[6].0@ == "DIVIDE_ASSIGN"@);
        }
        if j == 7 {
            assert(symbol_table()[7].0@ == "MODULUS_ASSIGN"@);
        }
        if j == 8 {
            assert(symbol_table()[8].0@ == "BITWISE_AND_ASSIGN"@);
        }
        if j == 9 {
            assert(symbol_table()[9].0@ == "BITWISE_XOR_ASSIGN"@);
        }
        if j == 10 {
            assert(symbol_table()[10].0@ == "BITWISE_NOT_ASSIGN"@);
        }
        if j == 11 {
            assert(symbol_table()[11].0@ == "LEFT_SHIFT_ASSIGN"@);
        }
        if j == 12 {
            assert(symbol_table()[12].0@ == "RIGHT_SHIFT_ASSIGN"@);
        }
        if j == 13 {
            assert(symbol_table()[13].0@ == "PLUS"@);
        }
        if j == 14 {
            assert(symbol_table()[14].0@ == "MINUS"@);
        }
        if j == 15 {
            assert(symbol_table()[15].0@ == "MULTIPLY"@);
        }
        if j == 16 {
            assert(symbol_table()[16].0@ == "DIVIDE"@);
        }
        if j == 17 {
            assert(symbol_table()[17].0@ == "MODULUS"@);
        }
        if j == 18 {
            assert(symbol_table()[18].0@ == "LOGICAL_AND"@);
        }
        if j == 19 {
            assert(symbol_table()[19].0@ == "BITWISE_AND"@);
        }
        if j == 20 {
            assert(symbol_table()[20].0@ == "BITWISE_XOR"@);
        }
        if j == 21 {
            assert(symbol_table()[21].0@ == "BITWISE_NOT"@);
        }
        if j == 22 {
            assert(symbol_table()[22].0@ == "LEFT_SHIFT"@);
        }
        if j == 23 {
            assert(symbol_table()[23].0@ == "RIGHT_SHIFT"@);
        }
        if j == 24 {
            assert(symbol_table()[24].0@ == "CIRCOM_L_ASSIGN"@);
        }
        if j == 25 {
            assert(symbol_table()[25].0@ == "CIRCOM_R_ASSIGN"@);
        }
        if j == 26 {
            assert(symbol_table()[26].0@ == "CIRCOM_L_CONSTRAINT_ASSIGN"@);
        }
        if j == 27 {
            assert(symbol_table()[27].0@ == "CIRCOM_R_CONSTRAINT_ASSIGN"@);
        }
        if j == 28 {
            assert(symbol_table()[28].0@ == "CIRCOM_CONSTRAINT"@);
        }
        if j == 29 {
            assert(symbol_table()[29].0@ == "EQUAL"@);
        }
        if j == 30 {
            assert(symbol_table()[30].0@ == "NOT_EQUAL"@);
        }
        if j == 31 {
            assert(symbol_table()[31].0@ == "LESS_THAN_OR_EQUAL"@);
        }
        if j == 32 {
            assert(symbol_table()[32].0@ == "GREATER_THAN_OR_EQUAL"@);
        }
        if j == 33 {
            assert(symbol_table()[33].0@ == "LESS_THAN"@);
        }
        if j == 34 {
            assert(symbol_table()[34].0@ == "GREATER_THAN"@);
        }
        if j == 35 {
            assert(symbol_table()[35].0@ == "ASSIGN"@);
        }
        if j == 36 {
            assert(symbol_table()[36].0@ == "LOGICAL_NOT"@);
        }
        if j == 37 {
            assert(symbol_table()[37].0@ == "LPAREN"@);
        }
    }
}

proof fn lemma_key_first_39()
    ensures
        forall|j: int| 0 <= j < 39 ==> (#[trigger] symbol_table()[j]).0@ != symbol_table()[39].0@,
{
    reveal_strlit("ASSIGN");
    assert("ASSIGN"@ =~= seq!['A', 'S', 'S', 'I', 'G', 'N']);
    reveal_strlit("BITWISE_AND");
    assert("BITWISE_AND"@ =~= seq!['B', 'I', 'T', 'W', 'I', 'S', 'E', '_', 'A', 'N', 'D']);
    reveal_strlit("BITWISE_AND_ASSIGN");
    assert("BITWISE_AND_ASSIGN"@ =~= seq!['B', 'I', 'T', 'W', 'I', 'S', 'E', '_', 'A', 'N', 'D', '_', 'A', 'S', 'S', 'I', 'G', 'N']);
    reveal_strlit("BITWISE_NOT");
    assert("BITWISE_NOT"@ =~= seq!['B', 'I', 'T', 'W', 'I', 'S', 'E', '_', 'N', 'O', 'T']);
    reveal_strlit("BITWISE_NOT_ASSIGN");
    assert("BITWISE_NOT_ASSIGN"@ =~= seq!['B', 'I', 'T', 'W', 'I', 'S', 'E', '_', 'N', 'O', 'T', '_', 'A', 'S', 'S', 'I', 'G', 'N']);
    reveal_strlit("BITWISE_XOR");
    assert("BITWISE_XOR"@ =~= seq!['B', 'I', 'T', 'W', 'I', 'S', 'E', '_', 'X', 'O', 'R']);
    reveal_strlit("BITWISE_XOR_ASSIGN");
    assert("BITWISE_XOR_ASSIGN"@ =~= seq!['B', 'I', 'T', 'W', 'I', 'S', 'E', '_', 'X', 'O', 'R', '_', 'A', 'S', 'S', 'I', 'G', 'N']);
    reveal_strlit("CIRCOM_CONSTRAINT");
    assert("CIRCOM_CONSTRAINT"@ =~= seq!['C', 'I', 'R', 'C', 'O', 'M', '_', 'C', 'O', 'N', 'S', 'T', 'R', 'A', 'I', 'N', 'T']);
    reveal_strlit("CIRCOM_L_ASSIGN");
    assert("CIRCOM_L_ASSIGN"@ =~= seq!['C', 'I', 'R', 'C', 'O', 'M', '_', 'L', '_', 'A', 'S', 'S', 'I', 'G', 'N']);
    reveal_strlit("CIRCOM_L_CONSTRAINT_ASSIGN");
    assert("CIRCOM_L_CONSTRAINT_ASSIGN"@ =~= seq!['C', 'I', 'R', 'C', 'O', 'M', '_', 'L', '_', 'C', 'O', 'N', 'S', 'T', 'R', 'A', 'I', 'N', 'T', '_', 'A', 'S', 'S', 'I', 'G', 'N']);
    reveal_strlit("CIRCOM_R_ASSIGN");
    assert("CIRCOM_R_ASSIGN"@ =~= seq!['C', 'I', 'R', 'C', 'O', 'M', '_', 'R', '_', 'A', 'S', 'S', 'I', 'G', 'N']);
    reveal_strlit("CIRCOM_R_CONSTRAINT_ASSIGN");
    assert("CIRCOM_R_CONSTRAINT_ASSIGN"@ =~= seq!['C', 'I', 'R', 'C', 'O', 'M', '_', 'R', '_', 'C', 'O', 'N', 'S', 'T', 'R', 'A', 'I', 'N', 'T', '_', 'A', 'S', 'S', 'I', 'G', 'N']);
    reveal_strlit("DECREMENT");
    assert("DECREMENT"@ =~= seq!['D', 'E', 'C', 'R', 'E', 'M', 'E', 'N', 'T']);
    reveal_strlit("DIVIDE");
    assert("DIVIDE"@ =~= seq!['D', 'I', 'V', 'I', 'D', 'E']);
    reveal_strlit("DIVIDE_ASSIGN");
    assert("DIVIDE_ASSIGN"@ =~= seq!['D', 'I', 'V', 'I', 'D', 'E', '_', 'A', 'S', 'S', 'I', 'G', 'N']);
    reveal_strlit("EQUAL");
    assert("EQUAL"@ =~= seq!['E', 'Q', 'U', 'A', 'L']);
    reveal_strlit("GREATER_THAN");
    assert("GREATER_THAN"@ =~= seq!['G', 'R', 'E', 'A', 'T', 'E', 'R', '_', 'T', 'H', 'A', 'N']);
    reveal_strlit("GREATER_THAN_OR_EQUAL");
    assert("GREATER_THAN_OR_EQUAL"@ =~= seq!['G', 'R', 'E', 'A', 'T', 'E', 'R', '_', 'T', 'H', 'A', 'N', '_', 'O', 'R', '_', 'E', 'Q', 'U', 'A', 'L']);
    reveal_strlit("INCREMENT");
    assert("INCREMENT"@ =~= seq!['I', 'N', 'C', 'R', 'E', 'M', 'E', 'N', 'T']);
    reveal_strlit("LBRACKET");
    assert("LBRACKET"@ =~= seq!['L', 'B', 'R', 'A', 'C', 'K', 'E', 'T']);
    reveal_strlit("LEFT_SHIFT");
    assert("LEFT_SHIFT"@ =~= seq!['L', 'E', 'F', 'T', '_', 'S', 'H', 'I', 'F', 'T']);
    reveal_strlit("LEFT_SHIFT_ASSIGN");
    assert("LEFT_SHIFT_ASSIGN"@ =~= seq!['L', 'E', 'F', 'T', '_', 'S', 'H', 'I', 'F', 'T', '_', 'A', 'S', 'S', 'I', 'G', 'N']);
    reveal_strlit("LESS_THAN");
    assert("LESS_THAN"@ =~= seq!['L', 'E', 'S', 'S', '_', 'T', 'H', 'A', 'N']);
    reveal_strlit("LESS_THAN_OR_EQUAL");
    assert("LESS_THAN_OR_EQUAL"@ =~= seq!['L', 'E', 'S', 'S', '_', 'T', 'H', 'A', 'N', '_', 'O', 'R', '_', 'E', 'Q', 'U', 'A', 'L']);
    reveal_strlit("LOGICAL_AND");
    assert("LOGICAL_AND"@ =~= seq!['L', 'O', 'G', 'I', 'C', 'A', 'L', '_', 'A', 'N', 'D']);
    reveal_strlit("LOGICAL_NOT");
    assert("LOGICAL_NOT"@ =~= seq!['L', 'O', 'G', 'I', 'C', 'A', 'L', '_', 'N', 'O', 'T']);
    reveal_strlit("LPAREN");
    assert("LPAREN"@ =~= seq!['L', 'P', 'A', 'R', 'E', 'N']);
    reveal_strlit("MINUS");
    assert("MINUS"@ =~= seq!['M', 'I', 'N', 'U', 'S']);
    reveal_strlit("MINUS_ASSIGN");
    assert("MINUS_ASSIGN"@ =~= seq!['M', 'I', 'N', 'U', 'S', '_', 'A', 'S', 'S', 'I', 'G', 'N']);
    reveal_strlit("MODULUS");
    assert("MODULUS"@ =~= seq!['M', 'O', 'D', 'U', 'L', 'U', 'S']);
    reveal_strlit("MODULUS_ASSIGN");
    assert("MODULUS_ASSIGN"@ =~= seq!['M', 'O', 'D', 'U', 'L', 'U', 'S', '_', 'A', 'S', 'S', 'I', 'G', 'N']);
    reveal_strlit("MULTIPLY");
    assert("MULTIPLY"@ =~= seq!['M', 'U', 'L', 'T', 'I', 'P', 'L', 'Y']);
    reveal_strlit("MULTIPLY_ASSIGN");
    assert("MULTIPLY_ASSIGN"@ =~= seq!['M', 'U', 'L', 'T', 'I', 'P', 'L', 'Y', '_', 'A', 'S', 'S', 'I', 'G', 'N']);
    reveal_strlit("NOT_EQUAL");
    assert("NOT_EQUAL"@ =~= seq!['N', 'O', 'T', '_', 'E', 'Q', 'U', 'A', 'L']);
    reveal_strlit("PLUS");
    assert("PLUS"@ =~= seq!['P', 'L', 'U', 'S']);
    reveal_strlit("PLUS_ASSIGN");
    assert("PLUS_ASSIGN"@ =~= seq!['P', 'L', 'U', 'S', '_', 'A', 'S', 'S', 'I', 'G', 'N']);
    reveal_strlit("RIGHT_SHIFT");
    assert("RIGHT_SHIFT"@ =~= seq!['R', 'I', 'G', 'H', 'T', '_', 'S', 'H', 'I', 'F', 'T']);
    reveal_strlit("RIGHT_SHIFT_ASSIGN");
    assert("RIGHT_SHIFT_ASSIGN"@ =~= seq!['R', 'I', 'G', 'H', 'T', '_', 'S', 'H', 'I', 'F', 'T', '_', 'A', 'S', 'S', 'I', 'G', 'N']);
    reveal_strlit("RPAREN");
    assert("RPAREN"@ =~= seq!['R', 'P', 'A', 'R', 'E', 'N']);
    reveal_strlit("SEMICOLON");
    assert("SEMICOLON"@ =~= seq!['S', 'E', 'M', 'I', 'C', 'O', 'L', 'O', 'N']);
    assert(symbol_table()[0].0 == "SEMICOLON");
    assert(symbol_table()[1].0 == "INCREMENT");
    assert(symbol_table()[2].0 == "DECREMENT");
    assert(symbol_table()[3].0 == "PLUS_ASSIGN");
    assert(symbol_table()[4].0 == "MINUS_ASSIGN");
    assert(symbol_table()[5].0 == "MULTIPLY_ASSIGN");
    assert(symbol_table()[6].0 == "DIVIDE_ASSIGN");
    assert(symbol_table()[7].0 == "MODULUS_ASSIGN");
    assert(symbol_table()[8].0 == "BITWISE_AND_ASSIGN");
    assert(symbol_table()[9].0 == "BITWISE_XOR_ASSIGN");
    assert(symbol_table()[10].0 == "BITWISE_NOT_ASSIGN");
    assert(symbol_table()[11].0 == "LEFT_SHIFT_ASSIGN");
    assert(symbol_table()[12].0 == "RIGHT_SHIFT_ASSIGN");
    assert(symbol_table()[13].0 == "PLUS");
    assert(symbol_table()[14].0 == "MINUS");
    assert(symbol_table()[15].0 == "MULTIPLY");
    assert(symbol_table()[16].0 == "DIVIDE");
    assert(symbol_table()[17].0 == "MODULUS");
    assert(symbol_table()[18].0 == "LOGICAL_AND");
    assert(symbol_table()[19].0 == "BITWISE_AND");
    assert(symbol_table()[20].0 == "BITWISE_XOR");
    assert(symbol_table()[21].0 == "BITWISE_NOT");
    assert(symbol_table()[22].0 == "LEFT_SHIFT");
    assert(symbol_table()[23].0 == "RIGHT_SHIFT");
    assert(symbol_table()[24].0 == "CIRCOM_L_ASSIGN");
    assert(symbol_table()[25].0 == "CIRCOM_R_ASSIGN");
    assert(symbol_table()[26].0 == "CIRCOM_L_CONSTRAINT_ASSIGN");
    assert(symbol_table()[27].0 == "CIRCOM_R_CONSTRAINT_ASSIGN");
    assert(symbol_table()[28].0 == "CIRCOM_CONSTRAINT");
    assert(symbol_table()[29].0 == "EQUAL");
    assert(symbol_table()[30].0 == "NOT_EQUAL");
    assert(symbol_table()[31].0 == "LESS_THAN_OR_EQUAL");
    assert(symbol_table()[32].0 == "GREATER_THAN_OR_EQUAL");
    assert(symbol_table()[33].0 == "LESS_THAN");
    assert(symbol_table()[34].0 == "GREATER_THAN");
    assert(symbol_table()[35].0 == "ASSIGN");
    assert(symbol_table()[36].0 == "LOGICAL_NOT");
    assert(symbol_table()[37].0 == "LPAREN");
    assert(symbol_table()[38].0 == "RPAREN");
    assert(symbol_table()[39].0 == "LBRACKET");
    assert forall|j: int| 0 <= j < 39 implies (#[trigger] symbol_table()[j]).0@ != symbol_table()[39].0@ by {
        if j == 0 {
            assert(symbol_table()[0].0@ == "SEMICOLON"@);
        }
        if j == 1 {
            assert(symbol_table()[1].0@ == "INCREMENT"@);
        }
        if j == 2 {
            assert(symbol_table()[2].0@ == "DECREMENT"@);
        }
        if j == 3 {
            assert(symbol_table()[3].0@ == "PLUS_ASSIGN"@);
        }
        if j == 4 {
            assert(symbol_table()[4].0@ == "MINUS_ASSIGN"@);
        }
        if j == 5 {
            assert(symbol_table()[5].0@ == "MULTIPLY_ASSIGN"@);
        }
        if j == 6 {
            assert(symbol_table()[6].0@ == "DIVIDE_ASSIGN"@);
        }
        if j == 7 {
            assert(symbol_table()[7].0@ == "MODULUS_ASSIGN"@);
        }
        if j == 8 {
            assert(symbol_table()[8].0@ == "BITWISE_AND_ASSIGN"@);
        }
        if j == 9 {
            assert(symbol_table()[9].0@ == "BITWISE_XOR_ASSIGN"@);
        }
        if j == 10 {
            assert(symbol_table()[10].0@ == "BITWISE_NOT_ASSIGN"@);
        }
        if j == 11 {
            assert(symbol_table()[11].0@ == "LEFT_SHIFT_ASSIGN"@);
        }
        if j == 12 {
            assert(symbol_table()[12].0@ == "RIGHT_SHIFT_ASSIGN"@);
        }
        if j == 13 {
            assert(symbol_table()[13].0@ == "PLUS"@);
        }
        if j == 14 {
            assert(symbol_table()[14].0@ == "MINUS"@);
        }
        if j == 15 {
            assert(symbol_table()[15].0@ == "MULTIPLY"@);
        }
        if j == 16 {
            assert(symbol_table()[16].0@ == "DIVIDE"@);
        }
        if j == 17 {
            assert(symbol_table()[17].0@ == "MODULUS"@);
        }
        if j == 18 {
            assert(symbol_table()[18].0@ == "LOGICAL_AND"@);
        }
        if j == 19 {
            assert(symbol_table()[19].0@ == "BITWISE_AND"@);
        }
        if j == 20 {
            assert(symbol_table()[20].0@ == "BITWISE_XOR"@);
        }
        if j == 21 {
            assert(symbol_table()[21].0@ == "BITWISE_NOT"@);
        }
        if j == 22 {
            assert(symbol_table()[22].0@ == "LEFT_SHIFT"@);
        }
        if j == 23 {
            assert(symbol_table()[23].0@ == "RIGHT_SHIFT"@);
        }
        if j == 24 {
            assert(symbol_table()[24].0@ == "CIRCOM_L_ASSIGN"@);
        }
        if j == 25 {
            assert(symbol_table()[25].0@ == "CIRCOM_R_ASSIGN"@);
        }
        if j == 26 {
            assert(symbol_table()[26].0@ == "CIRCOM_L_CONSTRAINT_ASSIGN"@);
        }
        if j == 27 {
            assert(symbol_table()[27].0@ == "CIRCOM_R_CONSTRAINT_ASSIGN"@);
        }
        if j == 28 {
            assert(symbol_table()[28].0@ == "CIRCOM_CONSTRAINT"@);
        }
        if j == 29 {
            assert(symbol_table()[29].0@ == "EQUAL"@);
        }
        if j == 30 {
            assert(symbol_table()[30].0@ == "NOT_EQUAL"@);
        }
        if j == 31 {
            assert(symbol_table()[31].0@ == "LESS_THAN_OR_EQUAL"@);
        }
        if j == 32 {
            assert(symbol_table()[32].0@ == "GREATER_THAN_OR_EQUAL"@);
        }
        if j == 33 {
            assert(symbol_table()[33].0@ == "LESS_THAN"@);
        }
        if j == 34 {
            assert(symbol_table()[34].0@ == "GREATER_THAN"@);
        }
        if j == 35 {
            assert(symbol_table()[35].0@ == "ASSIGN"@);
        }
        if j == 36 {
            assert(symbol_table()[36].0@ == "LOGICAL_NOT"@);
        }
        if j == 37 {
            assert(symbol_table()[37].0@ == "LPAREN"@);
        }
        if j == 38 {
            assert(symbol_table()[38].0@ == "RPAREN"@);
        }
    }
}

proof fn lemma_key_first_40()
    ensures
        forall|j: int| 0 <= j < 40 ==> (#[trigger] symbol_table()[j]).0@ != symbol_table()[40].0@,
{
    reveal_strlit("ASSIGN");
    assert("ASSIGN"@ =~= seq!['A', 'S', 'S', 'I', 'G', 'N']);
    reveal_strlit("BITWISE_AND");
    assert("BITWISE_AND"@ =~= seq!['B', 'I', 'T', 'W', 'I', 'S', 'E', '_', 'A', 'N', 'D']);
    reveal_strlit("BITWISE_AND_ASSIGN");
    assert("BITWISE_AND_ASSIGN"@ =~= seq!['B', 'I', 'T', 'W', 'I', 'S', 'E', '_', 'A', 'N', 'D', '_', 'A', 'S', 'S', 'I', 'G', 'N']);
    reveal_strlit("BITWISE_NOT");
    assert("BITWISE_NOT"@ =~= seq!['B', 'I', 'T', 'W', 'I', 'S', 'E', '_', 'N', 'O', 'T']);
    reveal_strlit("BITWISE_NOT_ASSIGN");
    assert("BITWISE_NOT_ASSIGN"@ =~= seq!['B', 'I', 'T', 'W', 'I', 'S', 'E', '_', 'N', 'O', 'T', '_', 'A', 'S', 'S', 'I', 'G', 'N']);
    reveal_strlit("BITWISE_XOR");
    assert("BITWISE_XOR"@ =~= seq!['B', 'I', 'T', 'W', 'I', 'S', 'E', '_', 'X', 'O', 'R']);
    reveal_strlit("BITWISE_XOR_ASSIGN");
    assert("BITWISE_XOR_ASSIGN"@ =~= seq!['B', 'I', 'T', 'W', 'I', 'S', 'E', '_', 'X', 'O', 'R', '_', 'A', 'S', 'S', 'I', 'G', 'N']);
    reveal_strlit("CIRCOM_CONSTRAINT");
    assert("CIRCOM_CONSTRAINT"@ =~= seq!['C', 'I', 'R', 'C', 'O', 'M', '_', 'C', 'O', 'N', 'S', 'T', 'R', 'A', 'I', 'N', 'T']);
    reveal_strlit("CIRCOM_L_ASSIGN");
    assert("CIRCOM_L_ASSIGN"@ =~= seq!['C', 'I', 'R', 'C', 'O', 'M', '_', 'L', '_', 'A', 'S', 'S', 'I', 'G', 'N']);
    reveal_strlit("CIRCOM_L_CONSTRAINT_ASSIGN");
    assert("CIRCOM_L_CONSTRAINT_ASSIGN"@ =~= seq!['C', 'I', 'R', 'C', 'O', 'M', '_', 'L', '_', 'C', 'O', 'N', 'S', 'T', 'R', 'A', 'I', 'N', 'T', '_', 'A', 'S', 'S', 'I', 'G', 'N']);
    reveal_strlit("CIRCOM_R_ASSIGN");
    assert("CIRCOM_R_ASSIGN"@ =~= seq!['C', 'I', 'R', 'C', 'O', 'M', '_', 'R', '_', 'A', 'S', 'S', 'I', 'G', 'N']);
    reveal_strlit("CIRCOM_R_CONSTRAINT_ASSIGN");
    assert("CIRCOM_R_CONSTRAINT_ASSIGN"@ =~= seq!['C', 'I', 'R', 'C', 'O', 'M', '_', 'R', '_', 'C', 'O', 'N', 'S', 'T', 'R', 'A', 'I', 'N', 'T', '_', 'A', 'S', 'S', 'I', 'G', 'N']);
    reveal_strlit("DECREMENT");
    assert("DECREMENT"@ =~= seq!['D', 'E', 'C', 'R', 'E', 'M', 'E', 'N', 'T']);
    reveal_strlit("DIVIDE");
    assert("DIVIDE"@ =~= seq!['D', 'I', 'V', 'I', 'D', 'E']);
    reveal_strlit("DIVIDE_ASSIGN");
    assert("DIVIDE_ASSIGN"@ =~= seq!['D', 'I', 'V', 'I', 'D', 'E', '_', 'A', 'S', 'S', 'I', 'G', 'N']);
    reveal_strlit("EQUAL");
    assert("EQUAL"@ =~= seq!['E', 'Q', 'U', 'A', 'L']);
    reveal_strlit("GREATER_THAN");
    assert("GREATER_THAN"@ =~= seq!['G', 'R', 'E', 'A', 'T', 'E', 'R', '_', 'T', 'H', 'A', 'N']);
    reveal_strlit("GREATER_THAN_OR_EQUAL");
    assert("GREATER_THAN_OR_EQUAL"@ =~= seq!['G', 'R', 'E', 'A', 'T', 'E', 'R', '_', 'T', 'H', 'A', 'N', '_', 'O', 'R', '_', 'E', 'Q', 'U', 'A', 'L']);
    reveal_strlit("INCREMENT");
    assert("INCREMENT"@ =~= seq!['I', 'N', 'C', 'R', 'E', 'M', 'E', 'N', 'T']);
    reveal_strlit("LBRACKET");
    assert("LBRACKET"@ =~= seq!['L', 'B', 'R', 'A', 'C', 'K', 'E', 'T']);
    reveal_strlit("LEFT_SHIFT");
    assert("LEFT_SHIFT"@ =~= seq!['L', 'E', 'F', 'T', '_', 'S', 'H', 'I', 'F', 'T']);
    reveal_strlit("LEFT_SHIFT_ASSIGN");
    assert("LEFT_SHIFT_ASSIGN"@ =~= seq!['L', 'E', 'F', 'T', '_', 'S', 'H', 'I', 'F', 'T', '_', 'A', 'S', 'S', 'I', 'G', 'N']);
    reveal_strlit("LESS_THAN");
    assert("LESS_THAN"@ =~= seq!['L', 'E', 'S', 'S', '_', 'T', 'H', 'A', 'N']);
    reveal_strlit("LESS_THAN_OR_EQUAL");
    assert("LESS_THAN_OR_EQUAL"@ =~= seq!['L', 'E', 'S', 'S', '_', 'T', 'H', 'A', 'N', '_', 'O', 'R', '_', 'E', 'Q', 'U', 'A', 'L']);
    reveal_strlit("LOGICAL_AND");
    assert("LOGICAL_AND"@ =~= seq!['L', 'O', 'G', 'I', 'C', 'A', 'L', '_', 'A', 'N', 'D']);
    reveal_strlit("LOGICAL_NOT");
    assert("LOGICAL_NOT"@ =~= seq!['L', 'O', 'G', 'I', 'C', 'A', 'L', '_', 'N', 'O', 'T']);
    reveal_strlit("LPAREN");
    assert("LPAREN"@ =~= seq!['L', 'P', 'A', 'R', 'E', 'N']);
    reveal_strlit("MINUS");
    assert("MINUS"@ =~= seq!['M', 'I', 'N', 'U', 'S']);
    reveal_strlit("MINUS_ASSIGN");
    assert("MINUS_ASSIGN"@ =~= seq!['M', 'I', 'N', 'U', 'S', '_', 'A', 'S', 'S', 'I', 'G', 'N']);
    reveal_strlit("MODULUS");
    assert("MODULUS"@ =~= seq!['M', 'O', 'D', 'U', 'L', 'U', 'S']);
    reveal_strlit("MODULUS_ASSIGN");
    assert("MODULUS_ASSIGN"@ =~= seq!['M', 'O', 'D', 'U', 'L', 'U', 'S', '_', 'A', 'S', 'S', 'I', 'G', 'N']);
    reveal_strlit("MULTIPLY");
    assert("MULTIPLY"@ =~= seq!['M', 'U', 'L', 'T', 'I', 'P', 'L', 'Y']);
    reveal_strlit("MULTIPLY_ASSIGN");
    assert("MULTIPLY_ASSIGN"@ =~= seq!['M', 'U', 'L', 'T', 'I', 'P', 'L', 'Y', '_', 'A', 'S', 'S', 'I', 'G', 'N']);
    reveal_strlit("NOT_EQUAL");
    assert("NOT_EQUAL"@ =~= seq!['N', 'O', 'T', '_', 'E', 'Q', 'U', 'A', 'L']);
    reveal_strlit("PLUS");
    assert("PLUS"@ =~= seq!['P', 'L', 'U', 'S']);
    reveal_strlit("PLUS_ASSIGN");
    assert("PLUS_ASSIGN"@ =~= seq!['P', 'L', 'U', 'S', '_', 'A', 'S', 'S', 'I', 'G', 'N']);
    reveal_strlit("RBRACKET");
    assert("RBRACKET"@ =~= seq!['R', 'B', 'R', 'A', 'C', 'K', 'E', 'T']);
    reveal_strlit("RIGHT_SHIFT");
    assert("RIGHT_SHIFT"@ =~= seq!['R', 'I', 'G', 'H', 'T', '_', 'S', 'H', 'I', 'F', 'T']);
    reveal_strlit("RIGHT_SHIFT_ASSIGN");
    assert("RIGHT_SHIFT_ASSIGN"@ =~= seq!['R', 'I', 'G', 'H', 'T', '_', 'S', 'H', 'I', 'F', 'T', '_', 'A', 'S', 'S', 'I', 'G', 'N']);
    reveal_strlit("RPAREN");
    assert("RPAREN"@ =~= seq!['R', 'P', 'A', 'R', 'E', 'N']);
    reveal_strlit("SEMICOLON");
    assert("SEMICOLON"@ =~= seq!['S', 'E', 'M', 'I', 'C', 'O', 'L', 'O', 'N']);
    assert(symbol_table()[0].0 == "SEMICOLON");
    assert(symbol_table()[1].0 == "INCREMENT");
    assert(symbol_table()[2].0 == "DECREMENT");
    assert(symbol_table()[3].0 == "PLUS_ASSIGN");
    assert(symbol_table()[4].0 == "MINUS_ASSIGN");
    assert(symbol_table()[5].0 == "MULTIPLY_ASSIGN");
    assert(symbol_table()[6].0 == "DIVIDE_ASSIGN");
    assert(symbol_table()[7].0 == "MODULUS_ASSIGN");
    assert(symbol_table()[8].0 == "BITWISE_AND_ASSIGN");
    assert(symbol_table()[9].0 == "BITWISE_XOR_ASSIGN");
    assert(symbol_table()[10].0 == "BITWISE_NOT_ASSIGN");
    assert(symbol_table()[11].0 == "LEFT_SHIFT_ASSIGN");
    assert(symbol_table()[12].0 == "RIGHT_SHIFT_ASSIGN");
    assert(symbol_table()[13].0 == "PLUS");
    assert(symbol_table()[14].0 == "MINUS");
    assert(symbol_table()[15].0 == "MULTIPLY");
    assert(symbol_table()[16].0 == "DIVIDE");
    assert(symbol_table()[17].0 == "MODULUS");
    assert(symbol_table()[18].0 == "LOGICAL_AND");
    assert(symbol_table()[19].0 == "BITWISE_AND");
    assert(symbol_table()[20].0 == "BITWISE_XOR");
    assert(symbol_table()[21].0 == "BITWISE_NOT");
    assert(symbol_table()[22].0 == "LEFT_SHIFT");
    assert(symbol_table()[23].0 == "RIGHT_SHIFT");
    assert(symbol_table()[24].0 == "CIRCOM_L_ASSIGN");
    assert(symbol_table()[25].0 == "CIRCOM_R_ASSIGN");
    assert(symbol_table()[26].0 == "CIRCOM_L_CONSTRAINT_ASSIGN");
    assert(symbol_table()[27].0 == "CIRCOM_R_CONSTRAINT_ASSIGN");
    assert(symbol_table()[28].0 == "CIRCOM_CONSTRAINT");
    assert(symbol_table()[29].0 == "EQUAL");
    assert(symbol_table()[30].0 == "NOT_EQUAL");
    assert(symbol_table()[31].0 == "LESS_THAN_OR_EQUAL");
    assert(symbol_table()[32].0 == "GREATER_THAN_OR_EQUAL");
    assert(symbol_table()[33].0 == "LESS_THAN");
    assert(symbol_table()[34].0 == "GREATER_THAN");
    assert(symbol_table()[35].0 == "ASSIGN");
    assert(symbol_table()[36].0 == "LOGICAL_NOT");
    assert(symbol_table()[37].0 == "LPAREN");
    assert(symbol_table()[38].0 == "RPAREN");
    assert(symbol_table()[39].0 == "LBRACKET");
    assert(symbol_table()[40].0 == "RBRACKET");
    assert forall|j: int| 0 <= j < 40 implies (#[trigger] symbol_table()[j]).0@ != symbol_table()[40].0@ by {
        if j == 0 {
            assert(symbol_table()[0].0@ == "SEMICOLON"@);
        }
        if j == 1 {
            assert(symbol_table()[1].0@ == "INCREMENT"@);
        }
        if j == 2 {
            assert(symbol_table()[2].0@ == "DECREMENT"@);
        }
        if j == 3 {
            assert(symbol_table()[3].0@ == "PLUS_ASSIGN"@);
        }
        if j == 4 {
            assert(symbol_table()[4].0@ == "MINUS_ASSIGN"@);
        }
        if j == 5 {
            assert(symbol_table()[5].0@ == "MULTIPLY_ASSIGN"@);
        }
        if j == 6 {
            assert(symbol_table()[6].0@ == "DIVIDE_ASSIGN"@);
        }
        if j == 7 {
            assert(symbol_table()[7].0@ == "MODULUS_ASSIGN"@);
        }
        if j == 8 {
            assert(symbol_table()[8].0@ == "BITWISE_AND_ASSIGN"@);
        }
        if j == 9 {
            assert(symbol_table()[9].0@ == "BITWISE_XOR_ASSIGN"@);
        }
        if j == 10 {
            assert(symbol_table()[10].0@ == "BITWISE_NOT_ASSIGN"@);
        }
        if j == 11 {
            assert(symbol_table()[11].0@ == "LEFT_SHIFT_ASSIGN"@);
        }
        if j == 12 {
            assert(symbol_table()[12].0@ == "RIGHT_SHIFT_ASSIGN"@);
        }
        if j == 13 {
            assert(symbol_table()[13].0@ == "PLUS"@);
        }
        if j == 14 {
            assert(symbol_table()[14].0@ == "MINUS"@);
        }
        if j == 15 {
            assert(symbol_table()[15].0@ == "MULTIPLY"@);
        }
        if j == 16 {
            assert(symbol_table()[16].0@ == "DIVIDE"@);
        }
        if j == 17 {
            assert(symbol_table()[17].0@ == "MODULUS"@);
        }
        if j == 18 {
            assert(symbol_table()[18].0@ == "LOGICAL_AND"@);
        }
        if j == 19 {
            assert(symbol_table()[19].0@ == "BITWISE_AND"@);
        }
        if j == 20 {
            assert(symbol_table()[20].0@ == "BITWISE_XOR"@);
        }
        if j == 21 {
            assert(symbol_table()[21].0@ == "BITWISE_NOT"@);
        }
        if j == 22 {
            assert(symbol_table()[22].0@ == "LEFT_SHIFT"@);
        }
        if j == 23 {
            assert(symbol_table()[23].0@ == "RIGHT_SHIFT"@);
        }
        if j == 24 {
            assert(symbol_table()[24].0@ == "CIRCOM_L_ASSIGN"@);
        }
        if j == 25 {
            assert(symbol_table()[25].0@ == "CIRCOM_R_ASSIGN"@);
        }
        if j == 26 {
            assert(symbol_table()[26].0@ == "CIRCOM_L_CONSTRAINT_ASSIGN"@);
        }
        if j == 27 {
            assert(symbol_table()[27].0@ == "CIRCOM_R_CONSTRAINT_ASSIGN"@);
        }
        if j == 28 {
            assert(symbol_table()[28].0@ == "CIRCOM_CONSTRAINT"@);
        }
        if j == 29 {
            assert(symbol_table()[29].0@ == "EQUAL"@);
        }
        if j == 30 {
            assert(symbol_table()[30].0@ == "NOT_EQUAL"@);
        }
        if j == 31 {
            assert(symbol_table()[31].0@ == "LESS_THAN_OR_EQUAL"@);
        }
        if j == 32 {
            assert(symbol_table()[32].0@ == "GREATER_THAN_OR_EQUAL"@);
        }
        if j == 33 {
            assert(symbol_table()[33].0@ == "LESS_THAN"@);
        }
        if j == 34 {
            assert(symbol_table()[34].0@ == "GREATER_THAN"@);
        }
        if j == 35 {
            assert(symbol_table()[35].0@ == "ASSIGN"@);
        }
        if j == 36 {
            assert(symbol_table()[36].0@ == "LOGICAL_NOT"@);
        }
        if j == 37 {
            assert(symbol_table()[37].0@ == "LPAREN"@);
        }
        if j == 38 {
            assert(symbol_table()[38].0@ == "RPAREN"@);
        }
        if j == 39 {
            assert(symbol_table()[39].0@ == "LBRACKET"@);
        }
    }
}

proof fn lemma_key_first_41()
    ensures
        forall|j: int| 0 <= j < 41 ==> (#[trigger] symbol_table()[j]).0@ != symbol_table()[41].0@,
{
    reveal_strlit("ASSIGN");
    assert("ASSIGN"@ =~= seq!['A', 'S', 'S', 'I', 'G', 'N']);
    reveal_strlit("BITWISE_AND");
    assert("BITWISE_AND"@ =~= seq!['B', 'I', 'T', 'W', 'I', 'S', 'E', '_', 'A', 'N', 'D']);
    reveal_strlit("BITWISE_AND_ASSIGN");
    assert("BITWISE_AND_ASSIGN"@ =~= seq!['B', 'I', 'T', 'W', 'I', 'S', 'E', '_', 'A', 'N', 'D', '_', 'A', 'S', 'S', 'I', 'G', 'N']);
    reveal_strlit("BITWISE_NOT");
    assert("BITWISE_NOT"@ =~= seq!['B', 'I', 'T', 'W', 'I', 'S', 'E', '_', 'N', 'O', 'T']);
    reveal_strlit("BITWISE_NOT_ASSIGN");
    assert("BITWISE_NOT_ASSIGN"@ =~= seq!['B', 'I', 'T', 'W', 'I', 'S', 'E', '_', 'N', 'O', 'T', '_', 'A', 'S', 'S', 'I', 'G', 'N']);
    reveal_strlit("BITWISE_XOR");
    assert("BITWISE_XOR"@ =~= seq!['B', 'I', 'T', 'W', 'I', 'S', 'E', '_', 'X', 'O', 'R']);
    reveal_strlit("BITWISE_XOR_ASSIGN");
    assert("BITWISE_XOR_ASSIGN"@ =~= seq!['B', 'I', 'T', 'W', 'I', 'S', 'E', '_', 'X', 'O', 'R', '_', 'A', 'S', 'S', 'I', 'G', 'N']);
    reveal_strlit("CIRCOM_CONSTRAINT");
    assert("CIRCOM_CONSTRAINT"@ =~= seq!['C', 'I', 'R', 'C', 'O', 'M', '_', 'C', 'O', 'N', 'S', 'T', 'R', 'A', 'I', 'N', 'T']);
    reveal_strlit("CIRCOM_L_ASSIGN");
    assert("CIRCOM_L_ASSIGN"@ =~= seq!['C', 'I', 'R', 'C', 'O', 'M', '_', 'L', '_', 'A', 'S', 'S', 'I', 'G', 'N']);
    reveal_strlit("CIRCOM_L_CONSTRAINT_ASSIGN");
    assert("CIRCOM_L_CONSTRAINT_ASSIGN"@ =~= seq!['C', 'I', 'R', 'C', 'O', 'M', '_', 'L', '_', 'C', 'O', 'N', 'S', 'T', 'R', 'A', 'I', 'N', 'T', '_', 'A', 'S', 'S', 'I', 'G', 'N']);
    reveal_strlit("CIRCOM_R_ASSIGN");
    assert("CIRCOM_R_ASSIGN"@ =~= seq!['C', 'I', 'R', 'C', 'O', 'M', '_', 'R', '_', 'A', 'S', 'S', 'I', 'G', 'N']);
    reveal_strlit("CIRCOM_R_CONSTRAINT_ASSIGN");
    assert("CIRCOM_R_CONSTRAINT_ASSIGN"@ =~= seq!['C', 'I', 'R', 'C', 'O', 'M', '_', 'R', '_', 'C', 'O', 'N', 'S', 'T', 'R', 'A', 'I', 'N', 'T', '_', 'A', 'S', 'S', 'I', 'G', 'N']);
    reveal_strlit("COMMA");
    assert("COMMA"@ =~= seq!['C', 'O', 'M', 'M', 'A']);
    reveal_strlit("DECREMENT");
    assert("DECREMENT"@ =~= seq!['D', 'E', 'C', 'R', 'E', 'M', 'E', 'N', 'T']);
    reveal_strlit("DIVIDE");
    assert("DIVIDE"@ =~= seq!['D', 'I', 'V', 'I', 'D', 'E']);
    reveal_strlit("DIVIDE_ASSIGN");
    assert("DIVIDE_ASSIGN"@ =~= seq!['D', 'I', 'V', 'I', 'D', 'E', '_', 'A', 'S', 'S', 'I', 'G', 'N']);
    reveal_strlit("EQUAL");
    assert("EQUAL"@ =~= seq!['E', 'Q', 'U', 'A', 'L']);
    reveal_strlit("GREATER_THAN");
    assert("GREATER_THAN"@ =~= seq!['G', 'R', 'E', 'A', 'T', 'E', 'R', '_', 'T', 'H', 'A', 'N']);
    reveal_strlit("GREATER_THAN_OR_EQUAL");
    assert("GREATER_THAN_OR_EQUAL"@ =~= seq!['G', 'R', 'E', 'A', 'T', 'E', 'R', '_', 'T', 'H', 'A', 'N', '_', 'O', 'R', '_', 'E', 'Q', 'U', 'A', 'L']);
    reveal_strlit("INCREMENT");
    assert("INCREMENT"@ =~= seq!['I', 'N', 'C', 'R', 'E', 'M', 'E', 'N', 'T']);
    reveal_strlit("LBRACKET");
    assert("LBRACKET"@ =~= seq!['L', 'B', 'R', 'A', 'C', 'K', 'E', 'T']);
    reveal_strlit("LEFT_SHIFT");
    assert("LEFT_SHIFT"@ =~= seq!['L', 'E', 'F', 'T', '_', 'S', 'H', 'I', 'F', 'T']);
    reveal_strlit("LEFT_SHIFT_ASSIGN");
    assert("LEFT_SHIFT_ASSIGN"@ =~= seq!['L', 'E', 'F', 'T', '_', 'S', 'H', 'I', 'F', 'T', '_', 'A', 'S', 'S', 'I', 'G', 'N']);
    reveal_strlit("LESS_THAN");
    assert("LESS_THAN"@ =~= seq!['L', 'E', 'S', 'S', '_', 'T', 'H', 'A', 'N']);
    reveal_strlit("LESS_THAN_OR_EQUAL");
    assert("LESS_THAN_OR_EQUAL"@ =~= seq!['L', 'E', 'S', 'S', '_', 'T', 'H', 'A', 'N', '_', 'O', 'R', '_', 'E', 'Q', 'U', 'A', 'L']);
    reveal_strlit("LOGICAL_AND");
    assert("LOGICAL_AND"@ =~= seq!['L', 'O', 'G', 'I', 'C', 'A', 'L', '_', 'A', 'N', 'D']);
    reveal_strlit("LOGICAL_NOT");
    assert("LOGICAL_NOT"@ =~= seq!['L', 'O', 'G', 'I', 'C', 'A', 'L', '_', 'N', 'O', 'T']);
    reveal_strlit("LPAREN");
    assert("LPAREN"@ =~= seq!['L', 'P', 'A', 'R', 'E', 'N']);
    reveal_strlit("MINUS");
    assert("MINUS"@ =~= seq!['M', 'I', 'N', 'U', 'S']);
    reveal_strlit("MINUS_ASSIGN");
    assert("MINUS_ASSIGN"@ =~= seq!['M', 'I', 'N', 'U', 'S', '_', 'A', 'S', 'S', 'I', 'G', 'N']);
    reveal_strlit("MODULUS");
    assert("MODULUS"@ =~= seq!['M', 'O', 'D', 'U', 'L', 'U', 'S']);
    reveal_strlit("MODULUS_ASSIGN");
    assert("MODULUS_ASSIGN"@ =~= seq!['M', 'O', 'D', 'U', 'L', 'U', 'S', '_', 'A', 'S', 'S', 'I', 'G', 'N']);
    reveal_strlit("MULTIPLY");
    assert("MULTIPLY"@ =~= seq!['M', 'U', 'L', 'T', 'I', 'P', 'L', 'Y']);
    reveal_strlit("MULTIPLY_ASSIGN");
    assert("MULTIPLY_ASSIGN"@ =~= seq!['M', 'U', 'L', 'T', 'I', 'P', 'L', 'Y', '_', 'A', 'S', 'S', 'I', 'G', 'N']);
    reveal_strlit("NOT_EQUAL");
    assert("NOT_EQUAL"@ =~= seq!['N', 'O', 'T', '_', 'E', 'Q', 'U', 'A', 'L']);
    reveal_strlit("PLUS");
    assert("PLUS"@ =~= seq!['P', 'L', 'U', 'S']);
    reveal_strlit("PLUS_ASSIGN");
    assert("PLUS_ASSIGN"@ =~= seq!['P', 'L', 'U', 'S', '_', 'A', 'S', 'S', 'I', 'G', 'N']);
    reveal_strlit("RBRACKET");
    assert("RBRACKET"@ =~= seq!['R', 'B', 'R', 'A', 'C', 'K', 'E', 'T']);
    reveal_strlit("RIGHT_SHIFT");
    assert("RIGHT_SHIFT"@ =~= seq!['R', 'I', 'G', 'H', 'T', '_', 'S', 'H', 'I', 'F', 'T']);
    reveal_strlit("RIGHT_SHIFT_ASSIGN");
    assert("RIGHT_SHIFT_ASSIGN"@ =~= seq!['R', 'I', 'G', 'H', 'T', '_', 'S', 'H', 'I', 'F', 'T', '_', 'A', 'S', 'S', 'I', 'G', 'N']);
    reveal_strlit("RPAREN");
    assert("RPAREN"@ =~= seq!['R', 'P', 'A', 'R', 'E', 'N']);
    reveal_strlit("SEMICOLON");
    assert("SEMICOLON"@ =~= seq!['S', 'E', 'M', 'I', 'C', 'O', 'L', 'O', 'N']);
    assert(symbol_table()[0].0 == "SEMICOLON");
    assert(symbol_table()[1].0 == "INCREMENT");
    assert(symbol_table()[2].0 == "DECREMENT");
    assert(symbol_table()[3].0 == "PLUS_ASSIGN");
    assert(symbol_table()[4].0 == "MINUS_ASSIGN");
    assert(symbol_table()[5].0 == "MULTIPLY_ASSIGN");
    assert(symbol_table()[6].0 == "DIVIDE_ASSIGN");
    assert(symbol_table()[7].0 == "MODULUS_ASSIGN");
    assert(symbol_table()[8].0 == "BITWISE_AND_ASSIGN");
    assert(symbol_table()[9].0 == "BITWISE_XOR_ASSIGN");
    assert(symbol_table()[10].0 == "BITWISE_NOT_ASSIGN");
    assert(symbol_table()[11].0 == "LEFT_SHIFT_ASSIGN");
    assert(symbol_table()[12].0 == "RIGHT_SHIFT_ASSIGN");
    assert(symbol_table()[13].0 == "PLUS");
    assert(symbol_table()[14].0 == "MINUS");
    assert(symbol_table()[15].0 == "MULTIPLY");
    assert(symbol_table()[16].0 == "DIVIDE");
    assert(symbol_table()[17].0 == "MODULUS");
    assert(symbol_table()[18].0 == "LOGICAL_AND");
    assert(symbol_table()[19].0 == "BITWISE_AND");
    assert(symbol_table()[20].0 == "BITWISE_XOR");
    assert(symbol_table()[21].0 == "BITWISE_NOT");
    assert(symbol_table()[22].0 == "LEFT_SHIFT");
    assert(symbol_table()[23].0 == "RIGHT_SHIFT");
    assert(symbol_table()[24].0 == "CIRCOM_L_ASSIGN");
    assert(symbol_table()[25].0 == "CIRCOM_R_ASSIGN");
    assert(symbol_table()[26].0 == "CIRCOM_L_CONSTRAINT_ASSIGN");
    assert(symbol_table()[27].0 == "CIRCOM_R_CONSTRAINT_ASSIGN");
    assert(symbol_table()[28].0 == "CIRCOM_CONSTRAINT");
    assert(symbol_table()[29].0 == "EQUAL");
    assert(symbol_table()[30].0 == "NOT_EQUAL");
    assert(symbol_table()[31].0 == "LESS_THAN_OR_EQUAL");
    assert(symbol_table()[32].0 == "GREATER_THAN_OR_EQUAL");
    assert(symbol_table()[33].0 == "LESS_THAN");
    assert(symbol_table()[34].0 == "GREATER_THAN");
    assert(symbol_table()[35].0 == "ASSIGN");
    assert(symbol_table()[36].0 == "LOGICAL_NOT");
    assert(symbol_table()[37].0 == "LPAREN");
    assert(symbol_table()[38].0 == "RPAREN");
    assert(symbol_table()[39].0 == "LBRACKET");
    assert(symbol_table()[40].0 == "RBRACKET");
    assert(symbol_table()[41].0 == "COMMA");
    assert forall|j: int| 0 <= j < 41 implies (#[trigger] symbol_table()[j]).0@ != symbol_table()[41].0@ by {
        if j == 0 {
            assert(symbol_table()[0].0@ == "SEMICOLON"@);
        }
        if j == 1 {
            assert(symbol_table()[1].0@ == "INCREMENT"@);
        }
        if j == 2 {
            assert(symbol_table()[2].0@ == "DECREMENT"@);
        }
        if j == 3 {
            assert(symbol_table()[3].0@ == "PLUS_ASSIGN"@);
        }
        if j == 4 {
            assert(symbol_table()[4].0@ == "MINUS_ASSIGN"@);
        }
        if j == 5 {
            assert(symbol_table()[5].0@ == "MULTIPLY_ASSIGN"@);
        }
        if j == 6 {
            assert(symbol_table()[6].0@ == "DIVIDE_ASSIGN"@);
        }
        if j == 7 {
            assert(symbol_table()[7].0@ == "MODULUS_ASSIGN"@);
        }
        if j == 8 {
            assert(symbol_table()[8].0@ == "BITWISE_AND_ASSIGN"@);
        }
        if j == 9 {
            assert(symbol_table()[9].0@ == "BITWISE_XOR_ASSIGN"@);
        }
        if j == 10 {
            assert(symbol_table()[10].0@ == "BITWISE_NOT_ASSIGN"@);
        }
        if j == 11 {
            assert(symbol_table()[11].0@ == "LEFT_SHIFT_ASSIGN"@);
        }
        if j == 12 {
            assert(symbol_table()[12].0@ == "RIGHT_SHIFT_ASSIGN"@);
        }
        if j == 13 {
            assert(symbol_table()[13].0@ == "PLUS"@);
        }
        if j == 14 {
            assert(symbol_table()[14].0@ == "MINUS"@);
        }
        if j == 15 {
            assert(symbol_table()[15].0@ == "MULTIPLY"@);
        }
        if j == 16 {
            assert(symbol_table()[16].0@ == "DIVIDE"@);
        }
        if j == 17 {
            assert(symbol_table()[17].0@ == "MODULUS"@);
        }
        if j == 18 {
            assert(symbol_table()[18].0@ == "LOGICAL_AND"@);
        }
        if j == 19 {
            assert(symbol_table()[19].0@ == "BITWISE_AND"@);
        }
        if j == 20 {
            assert(symbol_table()[20].0@ == "BITWISE_XOR"@);
        }
        if j == 21 {
            assert(symbol_table()[21].0@ == "BITWISE_NOT"@);
        }
        if j == 22 {
            assert(symbol_table()[22].0@ == "LEFT_SHIFT"@);
        }
        if j == 23 {
            assert(symbol_table()[23].0@ == "RIGHT_SHIFT"@);
        }
        if j == 24 {
            assert(symbol_table()[24].0@ == "CIRCOM_L_ASSIGN"@);
        }
        if j == 25 {
            assert(symbol_table()[25].0@ == "CIRCOM_R_ASSIGN"@);
        }
        if j == 26 {
            assert(symbol_table()[26].0@ == "CIRCOM_L_CONSTRAINT_ASSIGN"@);
        }
        if j == 27 {
            assert(symbol_table()[27].0@ == "CIRCOM_R_CONSTRAINT_ASSIGN"@);
        }
        if j == 28 {
            assert(symbol_table()[28].0@ == "CIRCOM_CONSTRAINT"@);
        }
        if j == 29 {
            assert(symbol_table()[29].0@ == "EQUAL"@);
        }
        if j == 30 {
            assert(symbol_table()[30].0@ == "NOT_EQUAL"@);
        }
        if j == 31 {
            assert(symbol_table()[31].0@ == "LESS_THAN_OR_EQUAL"@);
        }
        if j == 32 {
            assert(symbol_table()[32].0@ == "GREATER_THAN_OR_EQUAL"@);
        }
        if j == 33 {
            assert(symbol_table()[33].0@ == "LESS_THAN"@);
        }
        if j == 34 {
            assert(symbol_table()[34].0@ == "GREATER_THAN"@);
        }
        if j == 35 {
            assert(symbol_table()[35].0@ == "ASSIGN"@);
        }
        if j == 36 {
            assert(symbol_table()[36].0@ == "LOGICAL_NOT"@);
        }
        if j == 37 {
            assert(symbol_table()[37].0@ == "LPAREN"@);
        }
        if j == 38 {
            assert(symbol_table()[38].0@ == "RPAREN"@);
        }
        if j == 39 {
            assert(symbol_table()[39].0@ == "LBRACKET"@);
        }
        if j == 40 {
            assert(symbol_table()[40].0@ == "RBRACKET"@);
        }
    }
}

proof fn lemma_key_first_42()
    ensures
        forall|j: int| 0 <= j < 42 ==> (#[trigger] symbol_table()[j]).0@ != symbol_table()[42].0@,
{
    reveal_strlit("ASSIGN");
    assert("ASSIGN"@ =~= seq!['A', 'S', 'S', 'I', 'G', 'N']);
    reveal_strlit("BITWISE_AND");
    assert("BITWISE_AND"@ =~= seq!['B', 'I', 'T', 'W', 'I', 'S', 'E', '_', 'A', 'N', 'D']);
    reveal_strlit("BITWISE_AND_ASSIGN");
    assert("BITWISE_AND_ASSIGN"@ =~= seq!['B', 'I', 'T', 'W', 'I', 'S', 'E', '_', 'A', 'N', 'D', '_', 'A', 'S', 'S', 'I', 'G', 'N']);
    reveal_strlit("BITWISE_NOT");
    assert("BITWISE_NOT"@ =~= seq!['B', 'I', 'T', 'W', 'I', 'S', 'E', '_', 'N', 'O', 'T']);
    reveal_strlit("BITWISE_NOT_ASSIGN");
    assert("BITWISE_NOT_ASSIGN"@ =~= seq!['B', 'I', 'T', 'W', 'I', 'S', 'E', '_', 'N', 'O', 'T', '_', 'A', 'S', 'S', 'I', 'G', 'N']);
    reveal_strlit("BITWISE_XOR");
    assert("BITWISE_XOR"@ =~= seq!['B', 'I', 'T', 'W', 'I', 'S', 'E', '_', 'X', 'O', 'R']);
    reveal_strlit("BITWISE_XOR_ASSIGN");
    assert("BITWISE_XOR_ASSIGN"@ =~= seq!['B', 'I', 'T', 'W', 'I', 'S', 'E', '_', 'X', 'O', 'R', '_', 'A', 'S', 'S', 'I', 'G', 'N']);
    reveal_strlit("CIRCOM_CONSTRAINT");
    assert("CIRCOM_CONSTRAINT"@ =~= seq!['C', 'I', 'R', 'C', 'O', 'M', '_', 'C', 'O', 'N', 'S', 'T', 'R', 'A', 'I', 'N', 'T']);
    reveal_strlit("CIRCOM_L_ASSIGN");
    assert("CIRCOM_L_ASSIGN"@ =~= seq!['C', 'I', 'R', 'C', 'O', 'M', '_', 'L', '_', 'A', 'S', 'S', 'I', 'G', 'N']);
    reveal_strlit("CIRCOM_L_CONSTRAINT_ASSIGN");
    assert("CIRCOM_L_CONSTRAINT_ASSIGN"@ =~= seq!['C', 'I', 'R', 'C', 'O', 'M', '_', 'L', '_', 'C', 'O', 'N', 'S', 'T', 'R', 'A', 'I', 'N', 'T', '_', 'A', 'S', 'S', 'I', 'G', 'N']);
    reveal_strlit("CIRCOM_R_ASSIGN");
    assert("CIRCOM_R_ASSIGN"@ =~= seq!['C', 'I', 'R', 'C', 'O', 'M', '_', 'R', '_', 'A', 'S', 'S', 'I', 'G', 'N']);
    reveal_strlit("CIRCOM_R_CONSTRAINT_ASSIGN");
    assert("CIRCOM_R_CONSTRAINT_ASSIGN"@ =~= seq!['C', 'I', 'R', 'C', 'O', 'M', '_', 'R', '_', 'C', 'O', 'N', 'S', 'T', 'R', 'A', 'I', 'N', 'T', '_', 'A', 'S', 'S', 'I', 'G', 'N']);
    reveal_strlit("COMMA");
    assert("COMMA"@ =~= seq!['C', 'O', 'M', 'M', 'A']);
    reveal_strlit("DECREMENT");
    assert("DECREMENT"@ =~= seq!['D', 'E', 'C', 'R', 'E', 'M', 'E', 'N', 'T']);
    reveal_strlit("DIVIDE");
    assert("DIVIDE"@ =~= seq!['D', 'I', 'V', 'I', 'D', 'E']);
    reveal_strlit("DIVIDE_ASSIGN");
    assert("DIVIDE_ASSIGN"@ =~= seq!['D', 'I', 'V', 'I', 'D', 'E', '_', 'A', 'S', 'S', 'I', 'G', 'N']);
    reveal_strlit("EQUAL");
    assert("EQUAL"@ =~= seq!['E', 'Q', 'U', 'A', 'L']);
    reveal_strlit("GREATER_THAN");
    assert("GREATER_THAN"@ =~= seq!['G', 'R', 'E', 'A', 'T', 'E', 'R', '_', 'T', 'H', 'A', 'N']);
    reveal_strlit("GREATER_THAN_OR_EQUAL");
    assert("GREATER_THAN_OR_EQUAL"@ =~= seq!['G', 'R', 'E', 'A', 'T', 'E', 'R', '_', 'T', 'H', 'A', 'N', '_', 'O', 'R', '_', 'E', 'Q', 'U', 'A', 'L']);
    reveal_strlit("INCREMENT");
    assert("INCREMENT"@ =~= seq!['I', 'N', 'C', 'R', 'E', 'M', 'E', 'N', 'T']);
    reveal_strlit("LBRACE");
    assert("LBRACE"@ =~= seq!['L', 'B', 'R', 'A', 'C', 'E']);
    reveal_strlit("LBRACKET");
    assert("LBRACKET"@ =~= seq!['L', 'B', 'R', 'A', 'C', 'K', 'E', 'T']);
    reveal_strlit("LEFT_SHIFT");
    assert("LEFT_SHIFT"@ =~= seq!['L', 'E', 'F', 'T', '_', 'S', 'H', 'I', 'F', 'T']);
    reveal_strlit("LEFT_SHIFT_ASSIGN");
    assert("LEFT_SHIFT_ASSIGN"@ =~= seq!['L', 'E', 'F', 'T', '_', 'S', 'H', 'I', 'F', 'T', '_', 'A', 'S', 'S', 'I', 'G', 'N']);
    reveal_strlit("LESS_THAN");
    assert("LESS_THAN"@ =~= seq!['L', 'E', 'S', 'S', '_', 'T', 'H', 'A', 'N']);
    reveal_strlit("LESS_THAN_OR_EQUAL");
    assert("LESS_THAN_OR_EQUAL"@ =~= seq!['L', 'E', 'S', 'S', '_', 'T', 'H', 'A', 'N', '_', 'O', 'R', '_', 'E', 'Q', 'U', 'A', 'L']);
    reveal_strlit("LOGICAL_AND");
    assert("LOGICAL_AND"@ =~= seq!['L', 'O', 'G', 'I', 'C', 'A', 'L', '_', 'A', 'N', 'D']);
    reveal_strlit("LOGICAL_NOT");
    assert("LOGICAL_NOT"@ =~= seq!['L', 'O', 'G', 'I', 'C', 'A', 'L', '_', 'N', 'O', 'T']);
    reveal_strlit("LPAREN");
    assert("LPAREN"@ =~= seq!['L', 'P', 'A', 'R', 'E', 'N']);
    reveal_strlit("MINUS");
    assert("MINUS"@ =~= seq!['M', 'I', 'N', 'U', 'S']);
    reveal_strlit("MINUS_ASSIGN");
    assert("MINUS_ASSIGN"@ =~= seq!['M', 'I', 'N', 'U', 'S', '_', 'A', 'S', 'S', 'I', 'G', 'N']);
    reveal_strlit("MODULUS");
    assert("MODULUS"@ =~= seq!['M', 'O', 'D', 'U', 'L', 'U', 'S']);
    reveal_strlit("MODULUS_ASSIGN");
    assert("MODULUS_ASSIGN"@ =~= seq!['M', 'O', 'D', 'U', 'L', 'U', 'S', '_', 'A', 'S', 'S', 'I', 'G', 'N']);
    reveal_strlit("MULTIPLY");
    assert("MULTIPLY"@ =~= seq!['M', 'U', 'L', 'T', 'I', 'P', 'L', 'Y']);
    reveal_strlit("MULTIPLY_ASSIGN");
    assert("MULTIPLY_ASSIGN"@ =~= seq!['M', 'U', 'L', 'T', 'I', 'P', 'L', 'Y', '_', 'A', 'S', 'S', 'I', 'G', 'N']);
    reveal_strlit("NOT_EQUAL");
    assert("NOT_EQUAL"@ =~= seq!['N', 'O', 'T', '_', 'E', 'Q', 'U', 'A', 'L']);
    reveal_strlit("PLUS");
    assert("PLUS"@ =~= seq!['P', 'L', 'U', 'S']);
    reveal_strlit("PLUS_ASSIGN");
    assert("PLUS_ASSIGN"@ =~= seq!['P', 'L', 'U', 'S', '_', 'A', 'S', 'S', 'I', 'G', 'N']);
    reveal_strlit("RBRACKET");
    assert("RBRACKET"@ =~= seq!['R', 'B', 'R', 'A', 'C', 'K', 'E', 'T']);
    reveal_strlit("RIGHT_SHIFT");
    assert("RIGHT_SHIFT"@ =~= seq!['R', 'I', 'G', 'H', 'T', '_', 'S', 'H', 'I', 'F', 'T']);
    reveal_strlit("RIGHT_SHIFT_ASSIGN");
    assert("RIGHT_SHIFT_ASSIGN"@ =~= seq!['R', 'I', 'G', 'H', 'T', '_', 'S', 'H', 'I', 'F', 'T', '_', 'A', 'S', 'S', 'I', 'G', 'N']);
    reveal_strlit("RPAREN");
    assert("RPAREN"@ =~= seq!['R', 'P', 'A', 'R', 'E', 'N']);
    reveal_strlit("SEMICOLON");
    assert("SEMICOLON"@ =~= seq!['S', 'E', 'M', 'I', 'C', 'O', 'L', 'O', 'N']);
    assert(symbol_table()[0].0 == "SEMICOLON");
    assert(symbol_table()[1].0 == "INCREMENT");
    assert(symbol_table()[2].0 == "DECREMENT");
    assert(symbol_table()[3].0 == "PLUS_ASSIGN");
    assert(symbol_table()[4].0 == "MINUS_ASSIGN");
    assert(symbol_table()[5].0 == "MULTIPLY_ASSIGN");
    assert(symbol_table()[6].0 == "DIVIDE_ASSIGN");
    assert(symbol_table()[7].0 == "MODULUS_ASSIGN");
    assert(symbol_table()[8].0 == "BITWISE_AND_ASSIGN");
    assert(symbol_table()[9].0 == "BITWISE_XOR_ASSIGN");
    assert(symbol_table()[10].0 == "BITWISE_NOT_ASSIGN");
    assert(symbol_table()[11].0 == "LEFT_SHIFT_ASSIGN");
    assert(symbol_table()[12].0 == "RIGHT_SHIFT_ASSIGN");
    assert(symbol_table()[13].0 == "PLUS");
    assert(symbol_table()[14].0 == "MINUS");
    assert(symbol_table()[15].0 == "MULTIPLY");
    assert(symbol_table()[16].0 == "DIVIDE");
    assert(symbol_table()[17].0 == "MODULUS");
    assert(symbol_table()[18].0 == "LOGICAL_AND");
    assert(symbol_table()[19].0 == "BITWISE_AND");
    assert(symbol_table()[20].0 == "BITWISE_XOR");
    assert(symbol_table()[21].0 == "BITWISE_NOT");
    assert(symbol_table()[22].0 == "LEFT_SHIFT");
    assert(symbol_table()[23].0 == "RIGHT_SHIFT");
    assert(symbol_table()[24].0 == "CIRCOM_L_ASSIGN");
    assert(symbol_table()[25].0 == "CIRCOM_R_ASSIGN");
    assert(symbol_table()[26].0 == "CIRCOM_L_CONSTRAINT_ASSIGN");
    assert(symbol_table()[27].0 == "CIRCOM_R_CONSTRAINT_ASSIGN");
    assert(symbol_table()[28].0 == "CIRCOM_CONSTRAINT");
    assert(symbol_table()[29].0 == "EQUAL");
    assert(symbol_table()[30].0 == "NOT_EQUAL");
    assert(symbol_table()[31].0 == "LESS_THAN_OR_EQUAL");
    assert(symbol_table()[32].0 == "GREATER_THAN_OR_EQUAL");
    assert(symbol_table()[33].0 == "LESS_THAN");
    assert(symbol_table()[34].0 == "GREATER_THAN");
    assert(symbol_table()[35].0 == "ASSIGN");
    assert(symbol_table()[36].0 == "LOGICAL_NOT");
    assert(symbol_table()[37].0 == "LPAREN");
    assert(symbol_table()[38].0 == "RPAREN");
    assert(symbol_table()[39].0 == "LBRACKET");
    assert(symbol_table()[40].0 == "RBRACKET");
    assert(symbol_table()[41].0 == "COMMA");
    assert(symbol_table()[42].0 == "LBRACE");
    assert forall|j: int| 0 <= j < 42 implies (#[trigger] symbol_table()[j]).0@ != symbol_table()[42].0@ by {
        if j == 0 {
            assert(symbol_table()[0].0@ == "SEMICOLON"@);
        }
        if j == 1 {
            assert(symbol_table()[1].0@ == "INCREMENT"@);
        }
        if j == 2 {
            assert(symbol_table()[2].0@ == "DECREMENT"@);
        }
        if j == 3 {
            assert(symbol_table()[3].0@ == "PLUS_ASSIGN"@);
        }
        if j == 4 {
            assert(symbol_table()[4].0@ == "MINUS_ASSIGN"@);
        }
        if j == 5 {
            assert(symbol_table()[5].0@ == "MULTIPLY_ASSIGN"@);
        }
        if j == 6 {
            assert(symbol_table()[6].0@ == "DIVIDE_ASSIGN"@);
        }
        if j == 7 {
            assert(symbol_table()[7].0@ == "MODULUS_ASSIGN"@);
        }
        if j == 8 {
            assert(symbol_table()[8].0@ == "BITWISE_AND_ASSIGN"@);
        }
        if j == 9 {
            assert(symbol_table()[9].0@ == "BITWISE_XOR_ASSIGN"@);
        }
        if j == 10 {
            assert(symbol_table()[10].0@ == "BITWISE_NOT_ASSIGN"@);
        }
        if j == 11 {
            assert(symbol_table()[11].0@ == "LEFT_SHIFT_ASSIGN"@);
        }
        if j == 12 {
            assert(symbol_table()[12].0@ == "RIGHT_SHIFT_ASSIGN"@);
        }
        if j == 13 {
            assert(symbol_table()[13].0@ == "PLUS"@);
        }
        if j == 14 {
            assert(symbol_table()[14].0@ == "MINUS"@);
        }
        if j == 15 {
            assert(symbol_table()[15].0@ == "MULTIPLY"@);
        }
        if j == 16 {
            assert(symbol_table()[16].0@ == "DIVIDE"@);
        }
        if j == 17 {
            assert(symbol_table()[17].0@ == "MODULUS"@);
        }
        if j == 18 {
            assert(symbol_table()[18].0@ == "LOGICAL_AND"@);
        }
        if j == 19 {
            assert(symbol_table()[19].0@ == "BITWISE_AND"@);
        }
        if j == 20 {
            assert(symbol_table()[20].0@ == "BITWISE_XOR"@);
        }
        if j == 21 {
            assert(symbol_table()[21].0@ == "BITWISE_NOT"@);
        }
        if j == 22 {
            assert(symbol_table()[22].0@ == "LEFT_SHIFT"@);
        }
        if j == 23 {
            assert(symbol_table()[23].0@ == "RIGHT_SHIFT"@);
        }
        if j == 24 {
            assert(symbol_table()[24].0@ == "CIRCOM_L_ASSIGN"@);
        }
        if j == 25 {
            assert(symbol_table()[25].0@ == "CIRCOM_R_ASSIGN"@);
        }
        if j == 26 {
            assert(symbol_table()[26].0@ == "CIRCOM_L_CONSTRAINT_ASSIGN"@);
        }
        if j == 27 {
            assert(symbol_table()[27].0@ == "CIRCOM_R_CONSTRAINT_ASSIGN"@);
        }
        if j == 28 {
            assert(symbol_table()[28].0@ == "CIRCOM_CONSTRAINT"@);
        }
        if j == 29 {
            assert(symbol_table()[29].0@ == "EQUAL"@);
        }
        if j == 30 {
            assert(symbol_table()[30].0@ == "NOT_EQUAL"@);
        }
        if j == 31 {
            assert(symbol_table()[31].0@ == "LESS_THAN_OR_EQUAL"@);
        }
        if j == 32 {
            assert(symbol_table()[32].0@ == "GREATER_THAN_OR_EQUAL"@);
        }
        if j == 33 {
            assert(symbol_table()[33].0@ == "LESS_THAN"@);
        }
        if j == 34 {
            assert(symbol_table()[34].0@ == "GREATER_THAN"@);
        }
        if j == 35 {
            assert(symbol_table()[35].0@ == "ASSIGN"@);
        }
        if j == 36 {
            assert(symbol_table()[36].0@ == "LOGICAL_NOT"@);
        }
        if j == 37 {
            assert(symbol_table()[37].0@ == "LPAREN"@);
        }
        if j == 38 {
            assert(symbol_table()[38].0@ == "RPAREN"@);
        }
        if j == 39 {
            assert(symbol_table()[39].0@ == "LBRACKET"@);
        }
        if j == 40 {
            assert(symbol_table()[40].0@ == "RBRACKET"@);
        }
        if j == 41 {
            assert(symbol_table()[41].0@ == "COMMA"@);
        }
    }
}

proof fn lemma_key_first_43()
    ensures
        forall|j: int| 0 <= j < 43 ==> (#[trigger] symbol_table()[j]).0@ != symbol_table()[43].0@,
{
    reveal_strlit("ASSIGN");
    assert("ASSIGN"@ =~= seq!['A', 'S', 'S', 'I', 'G', 'N']);
    reveal_strlit("BITWISE_AND");
    assert("BITWISE_AND"@ =~= seq!['B', 'I', 'T', 'W', 'I', 'S', 'E', '_', 'A', 'N', 'D']);
    reveal_strlit("BITWISE_AND_ASSIGN");
    assert("BITWISE_AND_ASSIGN"@ =~= seq!['B', 'I', 'T', 'W', 'I', 'S', 'E', '_', 'A', 'N', 'D', '_', 'A', 'S', 'S', 'I', 'G', 'N']);
    reveal_strlit("BITWISE_NOT");
    assert("BITWISE_NOT"@ =~= seq!['B', 'I', 'T', 'W', 'I', 'S', 'E', '_', 'N', 'O', 'T']);
    reveal_strlit("BITWISE_NOT_ASSIGN");
    assert("BITWISE_NOT_ASSIGN"@ =~= seq!['B', 'I', 'T', 'W', 'I', 'S', 'E', '_', 'N', 'O', 'T', '_', 'A', 'S', 'S', 'I', 'G', 'N']);
    reveal_strlit("BITWISE_XOR");
    assert("BITWISE_XOR"@ =~= seq!['B', 'I', 'T', 'W', 'I', 'S', 'E', '_', 'X', 'O', 'R']);
    reveal_strlit("BITWISE_XOR_ASSIGN");
    assert("BITWISE_XOR_ASSIGN"@ =~= seq!['B', 'I', 'T', 'W', 'I', 'S', 'E', '_', 'X', 'O', 'R', '_', 'A', 'S', 'S', 'I', 'G', 'N']);
    reveal_strlit("CIRCOM_CONSTRAINT");
    assert("CIRCOM_CONSTRAINT"@ =~= seq!['C', 'I', 'R', 'C', 'O', 'M', '_', 'C', 'O', 'N', 'S', 'T', 'R', 'A', 'I', 'N', 'T']);
    reveal_strlit("CIRCOM_L_ASSIGN");
    assert("CIRCOM_L_ASSIGN"@ =~= seq!['C', 'I', 'R', 'C', 'O', 'M', '_', 'L', '_', 'A', 'S', 'S', 'I', 'G', 'N']);
    reveal_strlit("CIRCOM_L_CONSTRAINT_ASSIGN");
    assert("CIRCOM_L_CONSTRAINT_ASSIGN"@ =~= seq!['C', 'I', 'R', 'C', 'O', 'M', '_', 'L', '_', 'C', 'O', 'N', 'S', 'T', 'R', 'A', 'I', 'N', 'T', '_', 'A', 'S', 'S', 'I', 'G', 'N']);
    reveal_strlit("CIRCOM_R_ASSIGN");
    assert("CIRCOM_R_ASSIGN"@ =~= seq!['C', 'I', 'R', 'C', 'O', 'M', '_', 'R', '_', 'A', 'S', 'S', 'I', 'G', 'N']);
    reveal_strlit("CIRCOM_R_CONSTRAINT_ASSIGN");
    assert("CIRCOM_R_CONSTRAINT_ASSIGN"@ =~= seq!['C', 'I', 'R', 'C', 'O', 'M', '_', 'R', '_', 'C', 'O', 'N', 'S', 'T', 'R', 'A', 'I', 'N', 'T', '_', 'A', 'S', 'S', 'I', 'G', 'N']);
    reveal_strlit("COMMA");
    assert("COMMA"@ =~= seq!['C', 'O', 'M', 'M', 'A']);
    reveal_strlit("DECREMENT");
    assert("DECREMENT"@ =~= seq!['D', 'E', 'C', 'R', 'E', 'M', 'E', 'N', 'T']);
    reveal_strlit("DIVIDE");
    assert("DIVIDE"@ =~= seq!['D', 'I', 'V', 'I', 'D', 'E']);
    reveal_strlit("DIVIDE_ASSIGN");
    assert("DIVIDE_ASSIGN"@ =~= seq!['D', 'I', 'V', 'I', 'D', 'E', '_', 'A', 'S', 'S', 'I', 'G', 'N']);
    reveal_strlit("EQUAL");
    assert("EQUAL"@ =~= seq!['E', 'Q', 'U', 'A', 'L']);
    reveal_strlit("GREATER_THAN");
    assert("GREATER_THAN"@ =~= seq!['G', 'R', 'E', 'A', 'T', 'E', 'R', '_', 'T', 'H', 'A', 'N']);
    reveal_strlit("GREATER_THAN_OR_EQUAL");
    assert("GREATER_THAN_OR_EQUAL"@ =~= seq!['G', 'R', 'E', 'A', 'T', 'E', 'R', '_', 'T', 'H', 'A', 'N', '_', 'O', 'R', '_', 'E', 'Q', 'U', 'A', 'L']);
    reveal_strlit("INCREMENT");
    assert("INCREMENT"@ =~= seq!['I', 'N', 'C', 'R', 'E', 'M', 'E', 'N', 'T']);
    reveal_strlit("LBRACE");
    assert("LBRACE"@ =~= seq!['L', 'B', 'R', 'A', 'C', 'E']);
    reveal_strlit("LBRACKET");
    assert("LBRACKET"@ =~= seq!['L', 'B', 'R', 'A', 'C', 'K', 'E', 'T']);
    reveal_strlit("LEFT_SHIFT");
    assert("LEFT_SHIFT"@ =~= seq!['L', 'E', 'F', 'T', '_', 'S', 'H', 'I', 'F', 'T']);
    reveal_strlit("LEFT_SHIFT_ASSIGN");
    assert("LEFT_SHIFT_ASSIGN"@ =~= seq!['L', 'E', 'F', 'T', '_', 'S', 'H', 'I', 'F', 'T', '_', 'A', 'S', 'S', 'I', 'G', 'N']);
    reveal_strlit("LESS_THAN");
    assert("LESS_THAN"@ =~= seq!['L', 'E', 'S', 'S', '_', 'T', 'H', 'A', 'N']);
    reveal_strlit("LESS_THAN_OR_EQUAL");
    assert("LESS_THAN_OR_EQUAL"@ =~= seq!['L', 'E', 'S', 'S', '_', 'T', 'H', 'A', 'N', '_', 'O', 'R', '_', 'E', 'Q', 'U', 'A', 'L']);
    reveal_strlit("LOGICAL_AND");
    assert("LOGICAL_AND"@ =~= seq!['L', 'O', 'G', 'I', 'C', 'A', 'L', '_', 'A', 'N', 'D']);
    reveal_strlit("LOGICAL_NOT");
    assert("LOGICAL_NOT"@ =~= seq!['L', 'O', 'G', 'I', 'C', 'A', 'L', '_', 'N', 'O', 'T']);
    reveal_strlit("LPAREN");
    assert("LPAREN"@ =~= seq!['L', 'P', 'A', 'R', 'E', 'N']);
    reveal_strlit("MINUS");
    assert("MINUS"@ =~= seq!['M', 'I', 'N', 'U', 'S']);
    reveal_strlit("MINUS_ASSIGN");
    assert("MINUS_ASSIGN"@ =~= seq!['M', 'I', 'N', 'U', 'S', '_', 'A', 'S', 'S', 'I', 'G', 'N']);
    reveal_strlit("MODULUS");
    assert("MODULUS"@ =~= seq!['M', 'O', 'D', 'U', 'L', 'U', 'S']);
    reveal_strlit("MODULUS_ASSIGN");
    assert("MODULUS_ASSIGN"@ =~= seq!['M', 'O', 'D', 'U', 'L', 'U', 'S', '_', 'A', 'S', 'S', 'I', 'G', 'N']);
    reveal_strlit("MULTIPLY");
    assert("MULTIPLY"@ =~= seq!['M', 'U', 'L', 'T', 'I', 'P', 'L', 'Y']);
    reveal_strlit("MULTIPLY_ASSIGN");
    assert("MULTIPLY_ASSIGN"@ =~= seq!['M', 'U', 'L', 'T', 'I', 'P', 'L', 'Y', '_', 'A', 'S', 'S', 'I', 'G', 'N']);
    reveal_strlit("NOT_EQUAL");
    assert("NOT_EQUAL"@ =~= seq!['N', 'O', 'T', '_', 'E', 'Q', 'U', 'A', 'L']);
    reveal_strlit("PLUS");
    assert("PLUS"@ =~= seq!['P', 'L', 'U', 'S']);
    reveal_strlit("PLUS_ASSIGN");
    assert("PLUS_ASSIGN"@ =~= seq!['P', 'L', 'U', 'S', '_', 'A', 'S', 'S', 'I', 'G', 'N']);
    reveal_strlit("RBRACE");
    assert("RBRACE"@ =~= seq!['R', 'B', 'R', 'A', 'C', 'E']);
    reveal_strlit("RBRACKET");
    assert("RBRACKET"@ =~= seq!['R', 'B', 'R', 'A', 'C', 'K', 'E', 'T']);
    reveal_strlit("RIGHT_SHIFT");
    assert("RIGHT_SHIFT"@ =~= seq!['R', 'I', 'G', 'H', 'T', '_', 'S', 'H', 'I', 'F', 'T']);
    reveal_strlit("RIGHT_SHIFT_ASSIGN");
    assert("RIGHT_SHIFT_ASSIGN"@ =~= seq!['R', 'I', 'G', 'H', 'T', '_', 'S', 'H', 'I', 'F', 'T', '_', 'A', 'S', 'S', 'I', 'G', 'N']);
    reveal_strlit("RPAREN");
    assert("RPAREN"@ =~= seq!['R', 'P', 'A', 'R', 'E', 'N']);
    reveal_strlit("SEMICOLON");
    assert("SEMICOLON"@ =~= seq!['S', 'E', 'M', 'I', 'C', 'O', 'L', 'O', 'N']);
    assert(symbol_table()[0].0 == "SEMICOLON");
    assert(symbol_table()[1].0 == "INCREMENT");
    assert(symbol_table()[2].0 == "DECREMENT");
    assert(symbol_table()[3].0 == "PLUS_ASSIGN");
    assert(symbol_table()[4].0 == "MINUS_ASSIGN");
    assert(symbol_table()[5].0 == "MULTIPLY_ASSIGN");
    assert(symbol_table()[6].0 == "DIVIDE_ASSIGN");
    assert(symbol_table()[7].0 == "MODULUS_ASSIGN");
    assert(symbol_table()[8].0 == "BITWISE_AND_ASSIGN");
    assert(symbol_table()[9].0 == "BITWISE_XOR_ASSIGN");
    assert(symbol_table()[10].0 == "BITWISE_NOT_ASSIGN");
    assert(symbol_table()[11].0 == "LEFT_SHIFT_ASSIGN");
    assert(symbol_table()[12].0 == "RIGHT_SHIFT_ASSIGN");
    assert(symbol_table()[13].0 == "PLUS");
    assert(symbol_table()[14].0 == "MINUS");
    assert(symbol_table()[15].0 == "MULTIPLY");
    assert(symbol_table()[16].0 == "DIVIDE");
    assert(symbol_table()[17].0 == "MODULUS");
    assert(symbol_table()[18].0 == "LOGICAL_AND");
    assert(symbol_table()[19].0 == "BITWISE_AND");
    assert(symbol_table()[20].0 == "BITWISE_XOR");
    assert(symbol_table()[21].0 == "BITWISE_NOT");
    assert(symbol_table()[22].0 == "LEFT_SHIFT");
    assert(symbol_table()[23].0 == "RIGHT_SHIFT");
    assert(symbol_table()[24].0 == "CIRCOM_L_ASSIGN");
    assert(symbol_table()[25].0 == "CIRCOM_R_ASSIGN");
    assert(symbol_table()[26].0 == "CIRCOM_L_CONSTRAINT_ASSIGN");
    assert(symbol_table()[27].0 == "CIRCOM_R_CONSTRAINT_ASSIGN");
    assert(symbol_table()[28].0 == "CIRCOM_CONSTRAINT");
    assert(symbol_table()[29].0 == "EQUAL");
    assert(symbol_table()[30].0 == "NOT_EQUAL");
    assert(symbol_table()[31].0 == "LESS_THAN_OR_EQUAL");
    assert(symbol_table()[32].0 == "GREATER_THAN_OR_EQUAL");
    assert(symbol_table()[33].0 == "LESS_THAN");
    assert(symbol_table()[34].0 == "GREATER_THAN");
    assert(symbol_table()[35].0 == "ASSIGN");
    assert(symbol_table()[36].0 == "LOGICAL_NOT");
    assert(symbol_table()[37].0 == "LPAREN");
    assert(symbol_table()[38].0 == "RPAREN");
    assert(symbol_table()[39].0 == "LBRACKET");
    assert(symbol_table()[40].0 == "RBRACKET");
    assert(symbol_table()[41].0 == "COMMA");
    assert(symbol_table()[42].0 == "LBRACE");
    assert(symbol_table()[43].0 == "RBRACE");
    assert forall|j: int| 0 <= j < 43 implies (#[trigger] symbol_table()[j]).0@ != symbol_table()[43].0@ by {
        if j == 0 {
            assert(symbol_table()[0].0@ == "SEMICOLON"@);
        }
        if j == 1 {
            assert(symbol_table()[1].0@ == "INCREMENT"@);
        }
        if j == 2 {
            assert(symbol_table()[2].0@ == "DECREMENT"@);
        }
        if j == 3 {
            assert(symbol_table()[3].0@ == "PLUS_ASSIGN"@);
        }
        if j == 4 {
            assert(symbol_table()[4].0@ == "MINUS_ASSIGN"@);
        }
        if j == 5 {
            assert(symbol_table()[5].0@ == "MULTIPLY_ASSIGN"@);
        }
        if j == 6 {
            assert(symbol_table()[6].0@ == "DIVIDE_ASSIGN"@);
        }
        if j == 7 {
            assert(symbol_table()[7].0@ == "MODULUS_ASSIGN"@);
        }
        if j == 8 {
            assert(symbol_table()[8].0@ == "BITWISE_AND_ASSIGN"@);
        }
        if j == 9 {
            assert(symbol_table()[9].0@ == "BITWISE_XOR_ASSIGN"@);
        }
        if j == 10 {
            assert(symbol_table()[10].0@ == "BITWISE_NOT_ASSIGN"@);
        }
        if j == 11 {
            assert(symbol_table()[11].0@ == "LEFT_SHIFT_ASSIGN"@);
        }
        if j == 12 {
            assert(symbol_table()[12].0@ == "RIGHT_SHIFT_ASSIGN"@);
        }
        if j == 13 {
            assert(symbol_table()[13].0@ == "PLUS"@);
        }
        if j == 14 {
            assert(symbol_table()[14].0@ == "MINUS"@);
        }
        if j == 15 {
            assert(symbol_table()[15].0@ == "MULTIPLY"@);
        }
        if j == 16 {
            assert(symbol_table()[16].0@ == "DIVIDE"@);
        }
        if j == 17 {
            assert(symbol_table()[17].0@ == "MODULUS"@);
        }
        if j == 18 {
            assert(symbol_table()[18].0@ == "LOGICAL_AND"@);
        }
        if j == 19 {
            assert(symbol_table()[19].0@ == "BITWISE_AND"@);
        }
        if j == 20 {
            assert(symbol_table()[20].0@ == "BITWISE_XOR"@);
        }
        if j == 21 {
            assert(symbol_table()[21].0@ == "BITWISE_NOT"@);
        }
        if j == 22 {
            assert(symbol_table()[22].0@ == "LEFT_SHIFT"@);
        }
        if j == 23 {
            assert(symbol_table()[23].0@ == "RIGHT_SHIFT"@);
        }
        if j == 24 {
            assert(symbol_table()[24].0@ == "CIRCOM_L_ASSIGN"@);
        }
        if j == 25 {
            assert(symbol_table()[25].0@ == "CIRCOM_R_ASSIGN"@);
        }
        if j == 26 {
            assert(symbol_table()[26].0@ == "CIRCOM_L_CONSTRAINT_ASSIGN"@);
        }
        if j == 27 {
            assert(symbol_table()[27].0@ == "CIRCOM_R_CONSTRAINT_ASSIGN"@);
        }
        if j == 28 {
            assert(symbol_table()[28].0@ == "CIRCOM_CONSTRAINT"@);
        }
        if j == 29 {
            assert(symbol_table()[29].0@ == "EQUAL"@);
        }
        if j == 30 {
            assert(symbol_table()[30].0@ == "NOT_EQUAL"@);
        }
        if j == 31 {
            assert(symbol_table()[31].0@ == "LESS_THAN_OR_EQUAL"@);
        }
        if j == 32 {
            assert(symbol_table()[32].0@ == "GREATER_THAN_OR_EQUAL"@);
        }
        if j == 33 {
            assert(symbol_table()[33].0@ == "LESS_THAN"@);
        }
        if j == 34 {
            assert(symbol_table()[34].0@ == "GREATER_THAN"@);
        }
        if j == 35 {
            assert(symbol_table()[35].0@ == "ASSIGN"@);
        }
        if j == 36 {
            assert(symbol_table()[36].0@ == "LOGICAL_NOT"@);
        }
        if j == 37 {
            assert(symbol_table()[37].0@ == "LPAREN"@);
        }
        if j == 38 {
            assert(symbol_table()[38].0@ == "RPAREN"@);
        }
        if j == 39 {
            assert(symbol_table()[39].0@ == "LBRACKET"@);
        }
        if j == 40 {
            assert(symbol_table()[40].0@ == "RBRACKET"@);
        }
        if j == 41 {
            assert(symbol_table()[41].0@ == "COMMA"@);
        }
        if j == 42 {
            assert(symbol_table()[42].0@ == "LBRACE"@);
        }
    }
}

proof fn lemma_key_first_44()
    ensures
        forall|j: int| 0 <= j < 44 ==> (#[trigger] symbol_table()[j]).0@ != symbol_table()[44].0@,
{
    reveal_strlit("ASSIGN");
    assert("ASSIGN"@ =~= seq!['A', 'S', 'S', 'I', 'G', 'N']);
    reveal_strlit("BITWISE_AND");
    assert("BITWISE_AND"@ =~= seq!['B', 'I', 'T', 'W', 'I', 'S', 'E', '_', 'A', 'N', 'D']);
    reveal_strlit("BITWISE_AND_ASSIGN");
    assert("BITWISE_AND_ASSIGN"@ =~= seq!['B', 'I', 'T', 'W', 'I', 'S', 'E', '_', 'A', 'N', 'D', '_', 'A', 'S', 'S', 'I', 'G', 'N']);
    reveal_strlit("BITWISE_NOT");
    assert("BITWISE_NOT"@ =~= seq!['B', 'I', 'T', 'W', 'I', 'S', 'E', '_', 'N', 'O', 'T']);
    reveal_strlit("BITWISE_NOT_ASSIGN");
    assert("BITWISE_NOT_ASSIGN"@ =~= seq!['B', 'I', 'T', 'W', 'I', 'S', 'E', '_', 'N', 'O', 'T', '_', 'A', 'S', 'S', 'I', 'G', 'N']);
    reveal_strlit("BITWISE_XOR");
    assert("BITWISE_XOR"@ =~= seq!['B', 'I', 'T', 'W', 'I', 'S', 'E', '_', 'X', 'O', 'R']);
    reveal_strlit("BITWISE_XOR_ASSIGN");
    assert("BITWISE_XOR_ASSIGN"@ =~= seq!['B', 'I', 'T', 'W', 'I', 'S', 'E', '_', 'X', 'O', 'R', '_', 'A', 'S', 'S', 'I', 'G', 'N']);
    reveal_strlit("CIRCOM_CONSTRAINT");
    assert("CIRCOM_CONSTRAINT"@ =~= seq!['C', 'I', 'R', 'C', 'O', 'M', '_', 'C', 'O', 'N', 'S', 'T', 'R', 'A', 'I', 'N', 'T']);
    reveal_strlit("CIRCOM_L_ASSIGN");
    assert("CIRCOM_L_ASSIGN"@ =~= seq!['C', 'I', 'R', 'C', 'O', 'M', '_', 'L', '_', 'A', 'S', 'S', 'I', 'G', 'N']);
    reveal_strlit("CIRCOM_L_CONSTRAINT_ASSIGN");
    assert("CIRCOM_L_CONSTRAINT_ASSIGN"@ =~= seq!['C', 'I', 'R', 'C', 'O', 'M', '_', 'L', '_', 'C', 'O', 'N', 'S', 'T', 'R', 'A', 'I', 'N', 'T', '_', 'A', 'S', 'S', 'I', 'G', 'N']);
    reveal_strlit("CIRCOM_R_ASSIGN");
    assert("CIRCOM_R_ASSIGN"@ =~= seq!['C', 'I', 'R', 'C', 'O', 'M', '_', 'R', '_', 'A', 'S', 'S', 'I', 'G', 'N']);
    reveal_strlit("CIRCOM_R_CONSTRAINT_ASSIGN");
    assert("CIRCOM_R_CONSTRAINT_ASSIGN"@ =~= seq!['C', 'I', 'R', 'C', 'O', 'M', '_', 'R', '_', 'C', 'O', 'N', 'S', 'T', 'R', 'A', 'I', 'N', 'T', '_', 'A', 'S', 'S', 'I', 'G', 'N']);
    reveal_strlit("COLON");
    assert("COLON"@ =~= seq!['C', 'O', 'L', 'O', 'N']);
    reveal_strlit("COMMA");
    assert("COMMA"@ =~= seq!['C', 'O', 'M', 'M', 'A']);
    reveal_strlit("DECREMENT");
    assert("DECREMENT"@ =~= seq!['D', 'E', 'C', 'R', 'E', 'M', 'E', 'N', 'T']);
    reveal_strlit("DIVIDE");
    assert("DIVIDE"@ =~= seq!['D', 'I', 'V', 'I', 'D', 'E']);
    reveal_strlit("DIVIDE_ASSIGN");
    assert("DIVIDE_ASSIGN"@ =~= seq!['D', 'I', 'V', 'I', 'D', 'E', '_', 'A', 'S', 'S', 'I', 'G', 'N']);
    reveal_strlit("EQUAL");
    assert("EQUAL"@ =~= seq!['E', 'Q', 'U', 'A', 'L']);
    reveal_strlit("GREATER_THAN");
    assert("GREATER_THAN"@ =~= seq!['G', 'R', 'E', 'A', 'T', 'E', 'R', '_', 'T', 'H', 'A', 'N']);
    reveal_strlit("GREATER_THAN_OR_EQUAL");
    assert("GREATER_THAN_OR_EQUAL"@ =~= seq!['G', 'R', 'E', 'A', 'T', 'E', 'R', '_', 'T', 'H', 'A', 'N', '_', 'O', 'R', '_', 'E', 'Q', 'U', 'A', 'L']);
    reveal_strlit("INCREMENT");
    assert("INCREMENT"@ =~= seq!['I', 'N', 'C', 'R', 'E', 'M', 'E', 'N', 'T']);
    reveal_strlit("LBRACE");
    assert("LBRACE"@ =~= seq!['L', 'B', 'R', 'A', 'C', 'E']);
    reveal_strlit("LBRACKET");
    assert("LBRACKET"@ =~= seq!['L', 'B', 'R', 'A', 'C', 'K', 'E', 'T']);
    reveal_strlit("LEFT_SHIFT");
    assert("LEFT_SHIFT"@ =~= seq!['L', 'E', 'F', 'T', '_', 'S', 'H', 'I', 'F', 'T']);
    reveal_strlit("LEFT_SHIFT_ASSIGN");
    assert("LEFT_SHIFT_ASSIGN"@ =~= seq!['L', 'E', 'F', 'T', '_', 'S', 'H', 'I', 'F', 'T', '_', 'A', 'S', 'S', 'I', 'G', 'N']);
    reveal_strlit("LESS_THAN");
    assert("LESS_THAN"@ =~= seq!['L', 'E', 'S', 'S', '_', 'T', 'H', 'A', 'N']);
    reveal_strlit("LESS_THAN_OR_EQUAL");
    assert("LESS_THAN_OR_EQUAL"@ =~= seq!['L', 'E', 'S', 'S', '_', 'T', 'H', 'A', 'N', '_', 'O', 'R', '_', 'E', 'Q', 'U', 'A', 'L']);
    reveal_strlit("LOGICAL_AND");
    assert("LOGICAL_AND"@ =~= seq!['L', 'O', 'G', 'I', 'C', 'A', 'L', '_', 'A', 'N', 'D']);
    reveal_strlit("LOGICAL_NOT");
    assert("LOGICAL_NOT"@ =~= seq!['L', 'O', 'G', 'I', 'C', 'A', 'L', '_', 'N', 'O', 'T']);
    reveal_strlit("LPAREN");
    assert("LPAREN"@ =~= seq!['L', 'P', 'A', 'R', 'E', 'N']);
    reveal_strlit("MINUS");
    assert("MINUS"@ =~= seq!['M', 'I', 'N', 'U', 'S']);
    reveal_strlit("MINUS_ASSIGN");
    assert("MINUS_ASSIGN"@ =~= seq!['M', 'I', 'N', 'U', 'S', '_', 'A', 'S', 'S', 'I', 'G', 'N']);
    reveal_strlit("MODULUS");
    assert("MODULUS"@ =~= seq!['M', 'O', 'D', 'U', 'L', 'U', 'S']);
    reveal_strlit("MODULUS_ASSIGN");
    assert("MODULUS_ASSIGN"@ =~= seq!['M', 'O', 'D', 'U', 'L', 'U', 'S', '_', 'A', 'S', 'S', 'I', 'G', 'N']);
    reveal_strlit("MULTIPLY");
    assert("MULTIPLY"@ =~= seq!['M', 'U', 'L', 'T', 'I', 'P', 'L', 'Y']);
    reveal_strlit("MULTIPLY_ASSIGN");
    assert("MULTIPLY_ASSIGN"@ =~= seq!['M', 'U', 'L', 'T', 'I', 'P', 'L', 'Y', '_', 'A', 'S', 'S', 'I', 'G', 'N']);
    reveal_strlit("NOT_EQUAL");
    assert("NOT_EQUAL"@ =~= seq!['N', 'O', 'T', '_', 'E', 'Q', 'U', 'A', 'L']);
    reveal_strlit("PLUS");
    assert("PLUS"@ =~= seq!['P', 'L', 'U', 'S']);
    reveal_strlit("PLUS_ASSIGN");
    assert("PLUS_ASSIGN"@ =~= seq!['P', 'L', 'U', 'S', '_', 'A', 'S', 'S', 'I', 'G', 'N']);
    reveal_strlit("RBRACE");
    assert("RBRACE"@ =~= seq!['R', 'B', 'R', 'A', 'C', 'E']);
    reveal_strlit("RBRACKET");
    assert("RBRACKET"@ =~= seq!['R', 'B', 'R', 'A', 'C', 'K', 'E', 'T']);
    reveal_strlit("RIGHT_SHIFT");
    assert("RIGHT_SHIFT"@ =~= seq!['R', 'I', 'G', 'H', 'T', '_', 'S', 'H', 'I', 'F', 'T']);
    reveal_strlit("RIGHT_SHIFT_ASSIGN");
    assert("RIGHT_SHIFT_ASSIGN"@ =~= seq!['R', 'I', 'G', 'H', 'T', '_', 'S', 'H', 'I', 'F', 'T', '_', 'A', 'S', 'S', 'I', 'G', 'N']);
    reveal_strlit("RPAREN");
    assert("RPAREN"@ =~= seq!['R', 'P', 'A', 'R', 'E', 'N']);
    reveal_strlit("SEMICOLON");
    assert("SEMICOLON"@ =~= seq!['S', 'E', 'M', 'I', 'C', 'O', 'L', 'O', 'N']);
    assert(symbol_table()[0].0 == "SEMICOLON");
    assert(symbol_table()[1].0 == "INCREMENT");
    assert(symbol_table()[2].0 == "DECREMENT");
    assert(symbol_table()[3].0 == "PLUS_ASSIGN");
    assert(symbol_table()[4].0 == "MINUS_ASSIGN");
    assert(symbol_table()[5].0 == "MULTIPLY_ASSIGN");
    assert(symbol_table()[6].0 == "DIVIDE_ASSIGN");
    assert(symbol_table()[7].0 == "MODULUS_ASSIGN");
    assert(symbol_table()[8].0 == "BITWISE_AND_ASSIGN");
    assert(symbol_table()[9].0 == "BITWISE_XOR_ASSIGN");
    assert(symbol_table()[10].0 == "BITWISE_NOT_ASSIGN");
    assert(symbol_table()[11].0 == "LEFT_SHIFT_ASSIGN");
    assert(symbol_table()[12].0 == "RIGHT_SHIFT_ASSIGN");
    assert(symbol_table()[13].0 == "PLUS");
    assert(symbol_table()[14].0 == "MINUS");
    assert(symbol_table()[15].0 == "MULTIPLY");
    assert(symbol_table()[16].0 == "DIVIDE");
    assert(symbol_table()[17].0 == "MODULUS");
    assert(symbol_table()[18].0 == "LOGICAL_AND");
    assert(symbol_table()[19].0 == "BITWISE_AND");
    assert(symbol_table()[20].0 == "BITWISE_XOR");
    assert(symbol_table()[21].0 == "BITWISE_NOT");
    assert(symbol_table()[22].0 == "LEFT_SHIFT");
    assert(symbol_table()[23].0 == "RIGHT_SHIFT");
    assert(symbol_table()[24].0 == "CIRCOM_L_ASSIGN");
    assert(symbol_table()[25].0 == "CIRCOM_R_ASSIGN");
    assert(symbol_table()[26].0 == "CIRCOM_L_CONSTRAINT_ASSIGN");
    assert(symbol_table()[27].0 == "CIRCOM_R_CONSTRAINT_ASSIGN");
    assert(symbol_table()[28].0 == "CIRCOM_CONSTRAINT");
    assert(symbol_table()[29].0 == "EQUAL");
    assert(symbol_table()[30].0 == "NOT_EQUAL");
    assert(symbol_table()[31].0 == "LESS_THAN_OR_EQUAL");
    assert(symbol_table()[32].0 == "GREATER_THAN_OR_EQUAL");
    assert(symbol_table()[33].0 == "LESS_THAN");
    assert(symbol_table()[34].0 == "GREATER_THAN");
    assert(symbol_table()[35].0 == "ASSIGN");
    assert(symbol_table()[36].0 == "LOGICAL_NOT");
    assert(symbol_table()[37].0 == "LPAREN");
    assert(symbol_table()[38].0 == "RPAREN");
    assert(symbol_table()[39].0 == "LBRACKET");
    assert(symbol_table()[40].0 == "RBRACKET");
    assert(symbol_table()[41].0 == "COMMA");
    assert(symbol_table()[42].0 == "LBRACE");
    assert(symbol_table()[43].0 == "RBRACE");
    assert(symbol_table()[44].0 == "COLON");
    assert forall|j: int| 0 <= j < 44 implies (#[trigger] symbol_table()[j]).0@ != symbol_table()[44].0@ by {
        if j == 0 {
            assert(symbol_table()[0].0@ == "SEMICOLON"@);
        }
        if j == 1 {
            assert(symbol_table()[1].0@ == "INCREMENT"@);
        }
        if j == 2 {
            assert(symbol_table()[2].0@ == "DECREMENT"@);
        }
        if j == 3 {
            assert(symbol_table()[3].0@ == "PLUS_ASSIGN"@);
        }
        if j == 4 {
            assert(symbol_table()[4].0@ == "MINUS_ASSIGN"@);
        }
        if j == 5 {
            assert(symbol_table()[5].0@ == "MULTIPLY_ASSIGN"@);
        }
        if j == 6 {
            assert(symbol_table()[6].0@ == "DIVIDE_ASSIGN"@);
        }
        if j == 7 {
            assert(symbol_table()[7].0@ == "MODULUS_ASSIGN"@);
        }
        if j == 8 {
            assert(symbol_table()[8].0@ == "BITWISE_AND_ASSIGN"@);
        }
        if j == 9 {
            assert(symbol_table()[9].0@ == "BITWISE_XOR_ASSIGN"@);
        }
        if j == 10 {
            assert(symbol_table()[10].0@ == "BITWISE_NOT_ASSIGN"@);
        }
        if j == 11 {
            assert(symbol_table()[11].0@ == "LEFT_SHIFT_ASSIGN"@);
        }
        if j == 12 {
            assert(symbol_table()[12].0@ == "RIGHT_SHIFT_ASSIGN"@);
        }
        if j == 13 {
            assert(symbol_table()[13].0@ == "PLUS"@);
        }
        if j == 14 {
            assert(symbol_table()[14].0@ == "MINUS"@);
        }
        if j == 15 {
            assert(symbol_table()[15].0@ == "MULTIPLY"@);
        }
        if j == 16 {
            assert(symbol_table()[16].0@ == "DIVIDE"@);
        }
        if j == 17 {
            assert(symbol_table()[17].0@ == "MODULUS"@);
        }
        if j == 18 {
            assert(symbol_table()[18].0@ == "LOGICAL_AND"@);
        }
        if j == 19 {
            assert(symbol_table()[19].0@ == "BITWISE_AND"@);
        }
        if j == 20 {
            assert(symbol_table()[20].0@ == "BITWISE_XOR"@);
        }
        if j == 21 {
            assert(symbol_table()[21].0@ == "BITWISE_NOT"@);
        }
        if j == 22 {
            assert(symbol_table()[22].0@ == "LEFT_SHIFT"@);
        }
        if j == 23 {
            assert(symbol_table()[23].0@ == "RIGHT_SHIFT"@);
        }
        if j == 24 {
            assert(symbol_table()[24].0@ == "CIRCOM_L_ASSIGN"@);
        }
        if j == 25 {
            assert(symbol_table()[25].0@ == "CIRCOM_R_ASSIGN"@);
        }
        if j == 26 {
            assert(symbol_table()[26].0@ == "CIRCOM_L_CONSTRAINT_ASSIGN"@);
        }
        if j == 27 {
            assert(symbol_table()[27].0@ == "CIRCOM_R_CONSTRAINT_ASSIGN"@);
        }
        if j == 28 {
            assert(symbol_table()[28].0@ == "CIRCOM_CONSTRAINT"@);
        }
        if j == 29 {
            assert(symbol_table()[29].0@ == "EQUAL"@);
        }
        if j == 30 {
            assert(symbol_table()[30].0@ == "NOT_EQUAL"@);
        }
        if j == 31 {
            assert(symbol_table()[31].0@ == "LESS_THAN_OR_EQUAL"@);
        }
        if j == 32 {
            assert(symbol_table()[32].0@ == "GREATER_THAN_OR_EQUAL"@);
        }
        if j == 33 {
            assert(symbol_table()[33].0@ == "LESS_THAN"@);
        }
        if j == 34 {
            assert(symbol_table()[34].0@ == "GREATER_THAN"@);
        }
        if j == 35 {
            assert(symbol_table()[35].0@ == "ASSIGN"@);
        }
        if j == 36 {
            assert(symbol_table()[36].0@ == "LOGICAL_NOT"@);
        }
        if j == 37 {
            assert(symbol_table()[37].0@ == "LPAREN"@);
        }
        if j == 38 {
            assert(symbol_table()[38].0@ == "RPAREN"@);
        }
        if j == 39 {
            assert(symbol_table()[39].0@ == "LBRACKET"@);
        }
        if j == 40 {
            assert(symbol_table()[40].0@ == "RBRACKET"@);
        }
        if j == 41 {
            assert(symbol_table()[41].0@ == "COMMA"@);
        }
        if j == 42 {
            assert(symbol_table()[42].0@ == "LBRACE"@);
        }
        if j == 43 {
            assert(symbol_table()[43].0@ == "RBRACE"@);
        }
    }
}

proof fn lemma_key_first_45()
    ensures
        forall|j: int| 0 <= j < 45 ==> (#[trigger] symbol_table()[j]).0@ != symbol_table()[45].0@,
{
    reveal_strlit("ASSIGN");
    assert("ASSIGN"@ =~= seq!['A', 'S', 'S', 'I', 'G', 'N']);
    reveal_strlit("BITWISE_AND");
    assert("BITWISE_AND"@ =~= seq!['B', 'I', 'T', 'W', 'I', 'S', 'E', '_', 'A', 'N', 'D']);
    reveal_strlit("BITWISE_AND_ASSIGN");
    assert("BITWISE_AND_ASSIGN"@ =~= seq!['B', 'I', 'T', 'W', 'I', 'S', 'E', '_', 'A', 'N', 'D', '_', 'A', 'S', 'S', 'I', 'G', 'N']);
    reveal_strlit("BITWISE_NOT");
    assert("BITWISE_NOT"@ =~= seq!['B', 'I', 'T', 'W', 'I', 'S', 'E', '_', 'N', 'O', 'T']);
    reveal_strlit("BITWISE_NOT_ASSIGN");
    assert("BITWISE_NOT_ASSIGN"@ =~= seq!['B', 'I', 'T', 'W', 'I', 'S', 'E', '_', 'N', 'O', 'T', '_', 'A', 'S', 'S', 'I', 'G', 'N']);
    reveal_strlit("BITWISE_XOR");
    assert("BITWISE_XOR"@ =~= seq!['B', 'I', 'T', 'W', 'I', 'S', 'E', '_', 'X', 'O', 'R']);
    reveal_strlit("BITWISE_XOR_ASSIGN");
    assert("BITWISE_XOR_ASSIGN"@ =~= seq!['B', 'I', 'T', 'W', 'I', 'S', 'E', '_', 'X', 'O', 'R', '_', 'A', 'S', 'S', 'I', 'G', 'N']);
    reveal_strlit("CIRCOM_CONSTRAINT");
    assert("CIRCOM_CONSTRAINT"@ =~= seq!['C', 'I', 'R', 'C', 'O', 'M', '_', 'C', 'O', 'N', 'S', 'T', 'R', 'A', 'I', 'N', 'T']);
    reveal_strlit("CIRCOM_L_ASSIGN");
    assert("CIRCOM_L_ASSIGN"@ =~= seq!['C', 'I', 'R', 'C', 'O', 'M', '_', 'L', '_', 'A', 'S', 'S', 'I', 'G', 'N']);
    reveal_strlit("CIRCOM_L_CONSTRAINT_ASSIGN");
    assert("CIRCOM_L_CONSTRAINT_ASSIGN"@ =~= seq!['C', 'I', 'R', 'C', 'O', 'M', '_', 'L', '_', 'C', 'O', 'N', 'S', 'T', 'R', 'A', 'I', 'N', 'T', '_', 'A', 'S', 'S', 'I', 'G', 'N']);
    reveal_strlit("CIRCOM_R_ASSIGN");
    assert("CIRCOM_R_ASSIGN"@ =~= seq!['C', 'I', 'R', 'C', 'O', 'M', '_', 'R', '_', 'A', 'S', 'S', 'I', 'G', 'N']);
    reveal_strlit("CIRCOM_R_CONSTRAINT_ASSIGN");
    assert("CIRCOM_R_CONSTRAINT_ASSIGN"@ =~= seq!['C', 'I', 'R', 'C', 'O', 'M', '_', 'R', '_', 'C', 'O', 'N', 'S', 'T', 'R', 'A', 'I', 'N', 'T', '_', 'A', 'S', 'S', 'I', 'G', 'N']);
    reveal_strlit("COLON");
    assert("COLON"@ =~= seq!['C', 'O', 'L', 'O', 'N']);
    reveal_strlit("COMMA");
    assert("COMMA"@ =~= seq!['C', 'O', 'M', 'M', 'A']);
    reveal_strlit("DECREMENT");
    assert("DECREMENT"@ =~= seq!['D', 'E', 'C', 'R', 'E', 'M', 'E', 'N', 'T']);
    reveal_strlit("DIVIDE");
    assert("DIVIDE"@ =~= seq!['D', 'I', 'V', 'I', 'D', 'E']);
    reveal_strlit("DIVIDE_ASSIGN");
    assert("DIVIDE_ASSIGN"@ =~= seq!['D', 'I', 'V', 'I', 'D', 'E', '_', 'A', 'S', 'S', 'I', 'G', 'N']);
    reveal_strlit("EQUAL");
    assert("EQUAL"@ =~= seq!['E', 'Q', 'U', 'A', 'L']);
    reveal_strlit("GREATER_THAN");
    assert("GREATER_THAN"@ =~= seq!['G', 'R', 'E', 'A', 'T', 'E', 'R', '_', 'T', 'H', 'A', 'N']);
    reveal_strlit("GREATER_THAN_OR_EQUAL");
    assert("GREATER_THAN_OR_EQUAL"@ =~= seq!['G', 'R', 'E', 'A', 'T', 'E', 'R', '_', 'T', 'H', 'A', 'N', '_', 'O', 'R', '_', 'E', 'Q', 'U', 'A', 'L']);
    reveal_strlit("INCREMENT");
    assert("INCREMENT"@ =~= seq!['I', 'N', 'C', 'R', 'E', 'M', 'E', 'N', 'T']);
    reveal_strlit("LBRACE");
    assert("LBRACE"@ =~= seq!['L', 'B', 'R', 'A', 'C', 'E']);
    reveal_strlit("LBRACKET");
    assert("LBRACKET"@ =~= seq!['L', 'B', 'R', 'A', 'C', 'K', 'E', 'T']);
    reveal_strlit("LEFT_SHIFT");
    assert("LEFT_SHIFT"@ =~= seq!['L', 'E', 'F', 'T', '_', 'S', 'H', 'I', 'F', 'T']);
    reveal_strlit("LEFT_SHIFT_ASSIGN");
    assert("LEFT_SHIFT_ASSIGN"@ =~= seq!['L', 'E', 'F', 'T', '_', 'S', 'H', 'I', 'F', 'T', '_', 'A', 'S', 'S', 'I', 'G', 'N']);
    reveal_strlit("LESS_THAN");
    assert("LESS_THAN"@ =~= seq!['L', 'E', 'S', 'S', '_', 'T', 'H', 'A', 'N']);
    reveal_strlit("LESS_THAN_OR_EQUAL");
    assert("LESS_THAN_OR_EQUAL"@ =~= seq!['L', 'E', 'S', 'S', '_', 'T', 'H', 'A', 'N', '_', 'O', 'R', '_', 'E', 'Q', 'U', 'A', 'L']);
    reveal_strlit("LOGICAL_AND");
    assert("LOGICAL_AND"@ =~= seq!['L', 'O', 'G', 'I', 'C', 'A', 'L', '_', 'A', 'N', 'D']);
    reveal_strlit("LOGICAL_NOT");
    assert("LOGICAL_NOT"@ =~= seq!['L', 'O', 'G', 'I', 'C', 'A', 'L', '_', 'N', 'O', 'T']);
    reveal_strlit("LPAREN");
    assert("LPAREN"@ =~= seq!['L', 'P', 'A', 'R', 'E', 'N']);
    reveal_strlit("MINUS");
    assert("MINUS"@ =~= seq!['M', 'I', 'N', 'U', 'S']);
    reveal_strlit("MINUS_ASSIGN");
    assert("MINUS_ASSIGN"@ =~= seq!['M', 'I', 'N', 'U', 'S', '_', 'A', 'S', 'S', 'I', 'G', 'N']);
    reveal_strlit("MODULUS");
    assert("MODULUS"@ =~= seq!['M', 'O', 'D', 'U', 'L', 'U', 'S']);
    reveal_strlit("MODULUS_ASSIGN");
    assert("MODULUS_ASSIGN"@ =~= seq!['M', 'O', 'D', 'U', 'L', 'U', 'S', '_', 'A', 'S', 'S', 'I', 'G', 'N']);
    reveal_strlit("MULTIPLY");
    assert("MULTIPLY"@ =~= seq!['M', 'U', 'L', 'T', 'I', 'P', 'L', 'Y']);
    reveal_strlit("MULTIPLY_ASSIGN");
    assert("MULTIPLY_ASSIGN"@ =~= seq!['M', 'U', 'L', 'T', 'I', 'P', 'L', 'Y', '_', 'A', 'S', 'S', 'I', 'G', 'N']);
    reveal_strlit("NOT_EQUAL");
    assert("NOT_EQUAL"@ =~= seq!['N', 'O', 'T', '_', 'E', 'Q', 'U', 'A', 'L']);
    reveal_strlit("PLUS");
    assert("PLUS"@ =~= seq!['P', 'L', 'U', 'S']);
    reveal_strlit("PLUS_ASSIGN");
    assert("PLUS_ASSIGN"@ =~= seq!['P', 'L', 'U', 'S', '_', 'A', 'S', 'S', 'I', 'G', 'N']);
    reveal_strlit("QUESTION_MARK");
    assert("QUESTION_MARK"@ =~= seq!['Q', 'U', 'E', 'S', 'T', 'I', 'O', 'N', '_', 'M', 'A', 'R', 'K']);
    reveal_strlit("RBRACE");
    assert("RBRACE"@ =~= seq!['R', 'B', 'R', 'A', 'C', 'E']);
    reveal_strlit("RBRACKET");
    assert("RBRACKET"@ =~= seq!['R', 'B', 'R', 'A', 'C', 'K', 'E', 'T']);
    reveal_strlit("RIGHT_SHIFT");
    assert("RIGHT_SHIFT"@ =~= seq!['R', 'I', 'G', 'H', 'T', '_', 'S', 'H', 'I', 'F', 'T']);
    reveal_strlit("RIGHT_SHIFT_ASSIGN");
    assert("RIGHT_SHIFT_ASSIGN"@ =~= seq!['R', 'I', 'G', 'H', 'T', '_', 'S', 'H', 'I', 'F', 'T', '_', 'A', 'S', 'S', 'I', 'G', 'N']);
    reveal_strlit("RPAREN");
    assert("RPAREN"@ =~= seq!['R', 'P', 'A', 'R', 'E', 'N']);
    reveal_strlit("SEMICOLON");
    assert("SEMICOLON"@ =~= seq!['S', 'E', 'M', 'I', 'C', 'O', 'L', 'O', 'N']);
    assert(symbol_table()[0].0 == "SEMICOLON");
    assert(symbol_table()[1].0 == "INCREMENT");
    assert(symbol_table()[2].0 == "DECREMENT");
    assert(symbol_table()[3].0 == "PLUS_ASSIGN");
    assert(symbol_table()[4].0 == "MINUS_ASSIGN");
    assert(symbol_table()[5].0 == "MULTIPLY_ASSIGN");
    assert(symbol_table()[6].0 == "DIVIDE_ASSIGN");
    assert(symbol_table()[7].0 == "MODULUS_ASSIGN");
    assert(symbol_table()[8].0 == "BITWISE_AND_ASSIGN");
    assert(symbol_table()[9].0 == "BITWISE_XOR_ASSIGN");
    assert(symbol_table()[10].0 == "BITWISE_NOT_ASSIGN");
    assert(symbol_table()[11].0 == "LEFT_SHIFT_ASSIGN");
    assert(symbol_table()[12].0 == "RIGHT_SHIFT_ASSIGN");
    assert(symbol_table()[13].0 == "PLUS");
    assert(symbol_table()[14].0 == "MINUS");
    assert(symbol_table()[15].0 == "MULTIPLY");
    assert(symbol_table()[16].0 == "DIVIDE");
    assert(symbol_table()[17].0 == "MODULUS");
    assert(symbol_table()[18].0 == "LOGICAL_AND");
    assert(symbol_table()[19].0 == "BITWISE_AND");
    assert(symbol_table()[20].0 == "BITWISE_XOR");
    assert(symbol_table()[21].0 == "BITWISE_NOT");
    assert(symbol_table()[22].0 == "LEFT_SHIFT");
    assert(symbol_table()[23].0 == "RIGHT_SHIFT");
    assert(symbol_table()[24].0 == "CIRCOM_L_ASSIGN");
    assert(symbol_table()[25].0 == "CIRCOM_R_ASSIGN");
    assert(symbol_table()[26].0 == "CIRCOM_L_CONSTRAINT_ASSIGN");
    assert(symbol_table()[27].0 == "CIRCOM_R_CONSTRAINT_ASSIGN");
    assert(symbol_table()[28].0 == "CIRCOM_CONSTRAINT");
    assert(symbol_table()[29].0 == "EQUAL");
    assert(symbol_table()[30].0 == "NOT_EQUAL");
    assert(symbol_table()[31].0 == "LESS_THAN_OR_EQUAL");
    assert(symbol_table()[32].0 == "GREATER_THAN_OR_EQUAL");
    assert(symbol_table()[33].0 == "LESS_THAN");
    assert(symbol_table()[34].0 == "GREATER_THAN");
    assert(symbol_table()[35].0 == "ASSIGN");
    assert(symbol_table()[36].0 == "LOGICAL_NOT");
    assert(symbol_table()[37].0 == "LPAREN");
    assert(symbol_table()[38].0 == "RPAREN");
    assert(symbol_table()[39].0 == "LBRACKET");
    assert(symbol_table()[40].0 == "RBRACKET");
    assert(symbol_table()[41].0 == "COMMA");
    assert(symbol_table()[42].0 == "LBRACE");
    assert(symbol_table()[43].0 == "RBRACE");
    assert(symbol_table()[44].0 == "COLON");
    assert(symbol_table()[45].0 == "QUESTION_MARK");
    assert forall|j: int| 0 <= j < 45 implies (#[trigger] symbol_table()[j]).0@ != symbol_table()[45].0@ by {
        if j == 0 {
            assert(symbol_table()[0].0@ == "SEMICOLON"@);
        }
        if j == 1 {
            assert(symbol_table()[1].0@ == "INCREMENT"@);
        }
        if j == 2 {
            assert(symbol_table()[2].0@ == "DECREMENT"@);
        }
        if j == 3 {
            assert(symbol_table()[3].0@ == "PLUS_ASSIGN"@);
        }
        if j == 4 {
            assert(symbol_table()[4].0@ == "MINUS_ASSIGN"@);
        }
        if j == 5 {
            assert(symbol_table()[5].0@ == "MULTIPLY_ASSIGN"@);
        }
        if j == 6 {
            assert(symbol_table()[6].0@ == "DIVIDE_ASSIGN"@);
        }
        if j == 7 {
            assert(symbol_table()[7].0@ == "MODULUS_ASSIGN"@);
        }
        if j == 8 {
            assert(symbol_table()[8].0@ == "BITWISE_AND_ASSIGN"@);
        }
        if j == 9 {
            assert(symbol_table()[9].0@ == "BITWISE_XOR_ASSIGN"@);
        }
        if j == 10 {
            assert(symbol_table()[10].0@ == "BITWISE_NOT_ASSIGN"@);
        }
        if j == 11 {
            assert(symbol_table()[11].0@ == "LEFT_SHIFT_ASSIGN"@);
        }
        if j == 12 {
            assert(symbol_table()[12].0@ == "RIGHT_SHIFT_ASSIGN"@);
        }
        if j == 13 {
            assert(symbol_table()[13].0@ == "PLUS"@);
        }
        if j == 14 {
            assert(symbol_table()[14].0@ == "MINUS"@);
        }
        if j == 15 {
            assert(symbol_table()[15].0@ == "MULTIPLY"@);
        }
        if j == 16 {
            assert(symbol_table()[16].0@ == "DIVIDE"@);
        }
        if j == 17 {
            assert(symbol_table()[17].0@ == "MODULUS"@);
        }
        if j == 18 {
            assert(symbol_table()[18].0@ == "LOGICAL_AND"@);
        }
        if j == 19 {
            assert(symbol_table()[19].0@ == "BITWISE_AND"@);
        }
        if j == 20 {
            assert(symbol_table()[20].0@ == "BITWISE_XOR"@);
        }
        if j == 21 {
            assert(symbol_table()[21].0@ == "BITWISE_NOT"@);
        }
        if j == 22 {
            assert(symbol_table()[22].0@ == "LEFT_SHIFT"@);
        }
        if j == 23 {
            assert(symbol_table()[23].0@ == "RIGHT_SHIFT"@);
        }
        if j == 24 {
            assert(symbol_table()[24].0@ == "CIRCOM_L_ASSIGN"@);
        }
        if j == 25 {
            assert(symbol_table()[25].0@ == "CIRCOM_R_ASSIGN"@);
        }
        if j == 26 {
            assert(symbol_table()[26].0@ == "CIRCOM_L_CONSTRAINT_ASSIGN"@);
        }
        if j == 27 {
            assert(symbol_table()[27].0@ == "CIRCOM_R_CONSTRAINT_ASSIGN"@);
        }
        if j == 28 {
            assert(symbol_table()[28].0@ == "CIRCOM_CONSTRAINT"@);
        }
        if j == 29 {
            assert(symbol_table()[29].0@ == "EQUAL"@);
        }
        if j == 30 {
            assert(symbol_table()[30].0@ == "NOT_EQUAL"@);
        }
        if j == 31 {
            assert(symbol_table()[31].0@ == "LESS_THAN_OR_EQUAL"@);
        }
        if j == 32 {
            assert(symbol_table()[32].0@ == "GREATER_THAN_OR_EQUAL"@);
        }
        if j == 33 {
            assert(symbol_table()[33].0@ == "LESS_THAN"@);
        }
        if j == 34 {
            assert(symbol_table()[34].0@ == "GREATER_THAN"@);
        }
        if j == 35 {
            assert(symbol_table()[35].0@ == "ASSIGN"@);
        }
        if j == 36 {
            assert(symbol_table()[36].0@ == "LOGICAL_NOT"@);
        }
        if j == 37 {
            assert(symbol_table()[37].0@ == "LPAREN"@);
        }
        if j == 38 {
            assert(symbol_table()[38].0@ == "RPAREN"@);
        }
        if j == 39 {
            assert(symbol_table()[39].0@ == "LBRACKET"@);
        }
        if j == 40 {
            assert(symbol_table()[40].0@ == "RBRACKET"@);
        }
        if j == 41 {
            assert(symbol_table()[41].0@ == "COMMA"@);
        }
        if j == 42 {
            assert(symbol_table()[42].0@ == "LBRACE"@);
        }
        if j == 43 {
            assert(symbol_table()[43].0@ == "RBRACE"@);
        }
        if j == 44 {
            assert(symbol_table()[44].0@ == "COLON"@);
        }
    }
}

/// The parser reads each token type that has an entry in the symbol table
/// as that entry's text, which is the text its lexer rule matches: for a
/// token of type `T` in the table, `symbol_of(T)` is the text of `T`'s rule.
pub proof fn lemma_symbol_of_rules()
    ensures
        forall|k: int|
            0 <= k < symbol_table().len() ==> #[trigger] symbol_of(symbol_table()[k].0@) == symbol_table()[k].1@ && exists|i: int|
                0 <= i < rules().len() && rules()[i].0@ == symbol_table()[k].0@ && literal_of(rules()[i].1@) == Some(
                    symbol_of(symbol_table()[k].0@),
                ),
{
    lemma_symbols_match_rules();
    lemma_key_first_0();
    lemma_key_first_1();
    lemma_key_first_2();
    lemma_key_first_3();
    lemma_key_first_4();
    lemma_key_first_5();
    lemma_key_first_6();
    lemma_key_first_7();
    lemma_key_first_8();
    lemma_key_first_9();
    lemma_key_first_10();
    lemma_key_first_11();
    lemma_key_first_12();
    lemma_key_first_13();
    lemma_key_first_14();
    lemma_key_first_15();
    lemma_key_first_16();
    lemma_key_first_17();
    lemma_key_first_18();
    lemma_key_first_19();
    lemma_key_first_20();
    lemma_key_first_21();
    lemma_key_first_22();
    lemma_key_first_23();
    lemma_key_first_24();
    lemma_key_first_25();
    lemma_key_first_26();
    lemma_key_first_27();
    lemma_key_first_28();
    lemma_key_first_29();
    lemma_key_first_30();
    lemma_key_first_31();
    lemma_key_first_32();
    lemma_key_first_33();
    lemma_key_first_34();
    lemma_key_first_35();
    lemma_key_first_36();
    lemma_key_first_37();
    lemma_key_first_38();
    lemma_key_first_39();
    lemma_key_first_40();
    lemma_key_first_41();
    lemma_key_first_42();
    lemma_key_first_43();
    lemma_key_first_44();
    lemma_key_first_45();
    assert forall|k: int| 0 <= k < symbol_table().len() implies #[trigger] symbol_of(symbol_table()[k].0@) == symbol_table()[k].1@ by {
        if k == 0 {
            lemma_key_first_0();
        }
        if k == 1 {
            lemma_key_first_1();
        }
        if k == 2 {
            lemma_key_first_2();
        }
        if k == 3 {
            lemma_key_first_3();
        }
        if k == 4 {
            lemma_key_first_4();
        }
        if k == 5 {
            lemma_key_first_5();
        }
        if k == 6 {
            lemma_key_first_6();
        }
        if k == 7 {
            lemma_key_first_7();
        }
        if k == 8 {
            lemma_key_first_8();
        }
        if k == 9 {
            lemma_key_first_9();
        }
        if k == 10 {
            lemma_key_first_10();
        }
        if k == 11 {
            lemma_key_first_11();
        }
        if k == 12 {
            lemma_key_first_12();
        }
        if k == 13 {
            lemma_key_first_13();
        }
        if k == 14 {
            lemma_key_first_14();
        }
        if k == 15 {
            lemma_key_first_15();
        }
        if k == 16 {
            lemma_key_first_16();
        }
        if k == 17 {
            lemma_key_first_17();
        }
        if k == 18 {
            lemma_key_first_18();
        }
        if k == 19 {
            lemma_key_first_19();
        }
        if k == 20 {
            lemma_key_first_20();
        }
        if k == 21 {
            lemma_key_first_21();
        }
        if k == 22 {
            lemma_key_first_22();
        }
        if k == 23 {
            lemma_key_first_23();
        }
        if k == 24 {
            lemma_key_first_24();
        }
        if k == 25 {
            lemma_key_first_25();
        }
        if k == 26 {
            lemma_key_first_26();
        }
        if k == 27 {
            lemma_key_first_27();
        }
        if k == 28 {
            lemma_key_first_28();
        }
        if k == 29 {
            lemma_key_first_29();
        }
        if k == 30 {
            lemma_key_first_30();
        }
        if k == 31 {
            lemma_key_first_31();
        }
        if k == 32 {
            lemma_key_first_32();
        }
        if k == 33 {
            lemma_key_first_33();
        }
        if k == 34 {
            lemma_key_first_34();
        }
        if k == 35 {
            lemma_key_first_35();
        }
        if k == 36 {
            lemma_key_first_36();
        }
        if k == 37 {
            lemma_key_first_37();
        }
        if k == 38 {
            lemma_key_first_38();
        }
        if k == 39 {
            lemma_key_first_39();
        }
        if k == 40 {
            lemma_key_first_40();
        }
        if k == 41 {
            lemma_key_first_41();
        }
        if k == 42 {
            lemma_key_first_42();
        }
        if k == 43 {
            lemma_key_first_43();
        }
        if k == 44 {
            lemma_key_first_44();
        }
        if k == 45 {
            lemma_key_first_45();
        }
        lemma_table_value_at(symbol_table(), k);
    }
    assert forall|k: int| 0 <= k < symbol_table().len() implies #[trigger] symbol_of(symbol_table()[k].0@) == symbol_table()[k].1@ && exists|i: int|
        0 <= i < rules().len() && rules()[i].0@ == symbol_table()[k].0@ && literal_of(rules()[i].1@) == Some(
            symbol_of(symbol_table()[k].0@),
        ) by {
        assert(literal_of(rules()[0].1@) == literal_of(rules()[0].1@));
        assert(symbol_of(symbol_table()[k].0@) == symbol_table()[k].1@);
    }
}

} // verus!

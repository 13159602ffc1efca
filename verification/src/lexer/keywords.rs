//! The keyword rules of the lexer: each matches its keyword as a whole word.
use vstd::prelude::*;
use crate::lexer::lexer::rules;

verus! {

/// `s` with its capital letters made small.
pub open spec fn lowercase(s: Seq<char>) -> Seq<char> {
    s.map_values(|c: char| if 65 <= (c as u32) && (c as u32) <= 90 { ((c as u32) + 32) as char } else { c })
}

proof fn lemma_keyword_rule_0()
    ensures
        rules()[0].1@ == "\\b"@ + lowercase(rules()[0].0@) + "\\b"@,
{
    reveal_strlit("PRAGMA");
    reveal_strlit("\\bpragma\\b");
    reveal_strlit("\\b");
    assert(rules()[0] == ("PRAGMA", "\\bpragma\\b"));
    assert("PRAGMA"@ =~= seq!['P', 'R', 'A', 'G', 'M', 'A']);
    assert(lowercase("PRAGMA"@) =~= seq!['p', 'r', 'a', 'g', 'm', 'a']);
    assert("\\bpragma\\b"@ =~= "\\b"@ + seq!['p', 'r', 'a', 'g', 'm', 'a'] + "\\b"@);
}

proof fn lemma_keyword_rule_1()
    ensures
        rules()[1].1@ == "\\b"@ + lowercase(rules()[1].0@) + "\\b"@,
{
    reveal_strlit("CIRCOM");
    reveal_strlit("\\bcircom\\b");
    reveal_strlit("\\b");
    assert(rules()[1] == ("CIRCOM", "\\bcircom\\b"));
    assert("CIRCOM"@ =~= seq!['C', 'I', 'R', 'C', 'O', 'M']);
    assert(lowercase("CIRCOM"@) =~= seq!['c', 'i', 'r', 'c', 'o', 'm']);
    assert("\\bcircom\\b"@ =~= "\\b"@ + seq!['c', 'i', 'r', 'c', 'o', 'm'] + "\\b"@);
}

proof fn lemma_keyword_rule_2()
    ensures
        rules()[2].1@ == "\\b"@ + lowercase(rules()[2].0@) + "\\b"@,
{
    reveal_strlit("TEMPLATE");
    reveal_strlit("\\btemplate\\b");
    reveal_strlit("\\b");
    assert(rules()[2] == ("TEMPLATE", "\\btemplate\\b"));
    assert("TEMPLATE"@ =~= seq!['T', 'E', 'M', 'P', 'L', 'A', 'T', 'E']);
    assert(lowercase("TEMPLATE"@) =~= seq!['t', 'e', 'm', 'p', 'l', 'a', 't', 'e']);
    assert("\\btemplate\\b"@ =~= "\\b"@ + seq!['t', 'e', 'm', 'p', 'l', 'a', 't', 'e'] + "\\b"@);
}

proof fn lemma_keyword_rule_3()
    ensures
        rules()[3].1@ == "\\b"@ + lowercase(rules()[3].0@) + "\\b"@,
{
    reveal_strlit("COMPONENT");
    reveal_strlit("\\bcomponent\\b");
    reveal_strlit("\\b");
    assert(rules()[3] == ("COMPONENT", "\\bcomponent\\b"));
    assert("COMPONENT"@ =~= seq!['C', 'O', 'M', 'P', 'O', 'N', 'E', 'N', 'T']);
    assert(lowercase("COMPONENT"@) =~= seq!['c', 'o', 'm', 'p', 'o', 'n', 'e', 'n', 't']);
    assert("\\bcomponent\\b"@ =~= "\\b"@ + seq!['c', 'o', 'm', 'p', 'o', 'n', 'e', 'n', 't'] + "\\b"@);
}

proof fn lemma_keyword_rule_4()
    ensures
        rules()[4].1@ == "\\b"@ + lowercase(rules()[4].0@) + "\\b"@,
{
    reveal_strlit("INPUT");
    reveal_strlit("\\binput\\b");
    reveal_strlit("\\b");
    assert(rules()[4] == ("INPUT", "\\binput\\b"));
    assert("INPUT"@ =~= seq!['I', 'N', 'P', 'U', 'T']);
    assert(lowercase("INPUT"@) =~= seq!['i', 'n', 'p', 'u', 't']);
    assert("\\binput\\b"@ =~= "\\b"@ + seq!['i', 'n', 'p', 'u', 't'] + "\\b"@);
}

proof fn lemma_keyword_rule_5()
    ensures
        rules()[5].1@ == "\\b"@ + lowercase(rules()[5].0@) + "\\b"@,
{
    reveal_strlit("OUTPUT");
    reveal_strlit("\\boutput\\b");
    reveal_strlit("\\b");
    assert(rules()[5] == ("OUTPUT", "\\boutput\\b"));
    assert("OUTPUT"@ =~= seq!['O', 'U', 'T', 'P', 'U', 'T']);
    assert(lowercase("OUTPUT"@) =~= seq!['o', 'u', 't', 'p', 'u', 't']);
    assert("\\boutput\\b"@ =~= "\\b"@ + seq!['o', 'u', 't', 'p', 'u', 't'] + "\\b"@);
}

proof fn lemma_keyword_rule_6()
    ensures
        rules()[6].1@ == "\\b"@ + lowercase(rules()[6].0@) + "\\b"@,
{
    reveal_strlit("SIGNAL");
    reveal_strlit("\\bsignal\\b");
    reveal_strlit("\\b");
    assert(rules()[6] == ("SIGNAL", "\\bsignal\\b"));
    assert("SIGNAL"@ =~= seq!['S', 'I', 'G', 'N', 'A', 'L']);
    assert(lowercase("SIGNAL"@) =~= seq!['s', 'i', 'g', 'n', 'a', 'l']);
    assert("\\bsignal\\b"@ =~= "\\b"@ + seq!['s', 'i', 'g', 'n', 'a', 'l'] + "\\b"@);
}

proof fn lemma_keyword_rule_7()
    ensures
        rules()[7].1@ == "\\b"@ + lowercase(rules()[7].0@) + "\\b"@,
{
    reveal_strlit("PUBLIC");
    reveal_strlit("\\bpublic\\b");
    reveal_strlit("\\b");
    assert(rules()[7] == ("PUBLIC", "\\bpublic\\b"));
    assert("PUBLIC"@ =~= seq!['P', 'U', 'B', 'L', 'I', 'C']);
    assert(lowercase("PUBLIC"@) =~= seq!['p', 'u', 'b', 'l', 'i', 'c']);
    assert("\\bpublic\\b"@ =~= "\\b"@ + seq!['p', 'u', 'b', 'l', 'i', 'c'] + "\\b"@);
}

proof fn lemma_keyword_rule_8()
    ensures
        rules()[8].1@ == "\\b"@ + lowercase(rules()[8].0@) + "\\b"@,
{
    reveal_strlit("VAR");
    reveal_strlit("\\bvar\\b");
    reveal_strlit("\\b");
    assert(rules()[8] == ("VAR", "\\bvar\\b"));
    assert("VAR"@ =~= seq!['V', 'A', 'R']);
    assert(lowercase("VAR"@) =~= seq!['v', 'a', 'r']);
    assert("\\bvar\\b"@ =~= "\\b"@ + seq!['v', 'a', 'r'] + "\\b"@);
}

proof fn lemma_keyword_rule_9()
    ensures
        rules()[9].1@ == "\\b"@ + lowercase(rules()[9].0@) + "\\b"@,
{
    reveal_strlit("FUNCTION");
    reveal_strlit("\\bfunction\\b");
    reveal_strlit("\\b");
    assert(rules()[9] == ("FUNCTION", "\\bfunction\\b"));
    assert("FUNCTION"@ =~= seq!['F', 'U', 'N', 'C', 'T', 'I', 'O', 'N']);
    assert(lowercase("FUNCTION"@) =~= seq!['f', 'u', 'n', 'c', 't', 'i', 'o', 'n']);
    assert("\\bfunction\\b"@ =~= "\\b"@ + seq!['f', 'u', 'n', 'c', 't', 'i', 'o', 'n'] + "\\b"@);
}

proof fn lemma_keyword_rule_10()
    ensures
        rules()[10].1@ == "\\b"@ + lowercase(rules()[10].0@) + "\\b"@,
{
    reveal_strlit("RETURN");
    reveal_strlit("\\breturn\\b");
    reveal_strlit("\\b");
    assert(rules()[10] == ("RETURN", "\\breturn\\b"));
    assert("RETURN"@ =~= seq!['R', 'E', 'T', 'U', 'R', 'N']);
    assert(lowercase("RETURN"@) =~= seq!['r', 'e', 't', 'u', 'r', 'n']);
    assert("\\breturn\\b"@ =~= "\\b"@ + seq!['r', 'e', 't', 'u', 'r', 'n'] + "\\b"@);
}

proof fn lemma_keyword_rule_11()
    ensures
        rules()[11].1@ == "\\b"@ + lowercase(rules()[11].0@) + "\\b"@,
{
    reveal_strlit("IF");
    reveal_strlit("\\bif\\b");
    reveal_strlit("\\b");
    assert(rules()[11] == ("IF", "\\bif\\b"));
    assert("IF"@ =~= seq!['I', 'F']);
    assert(lowercase("IF"@) =~= seq!['i', 'f']);
    assert("\\bif\\b"@ =~= "\\b"@ + seq!['i', 'f'] + "\\b"@);
}

proof fn lemma_keyword_rule_12()
    ensures
        rules()[12].1@ == "\\b"@ + lowercase(rules()[12].0@) + "\\b"@,
{
    reveal_strlit("ELSE");
    reveal_strlit("\\belse\\b");
    reveal_strlit("\\b");
    assert(rules()[12] == ("ELSE", "\\belse\\b"));
    assert("ELSE"@ =~= seq!['E', 'L', 'S', 'E']);
    assert(lowercase("ELSE"@) =~= seq!['e', 'l', 's', 'e']);
    assert("\\belse\\b"@ =~= "\\b"@ + seq!['e', 'l', 's', 'e'] + "\\b"@);
}

proof fn lemma_keyword_rule_13()
    ensures
        rules()[13].1@ == "\\b"@ + lowercase(rules()[13].0@) + "\\b"@,
{
    reveal_strlit("FOR");
    reveal_strlit("\\bfor\\b");
    reveal_strlit("\\b");
    assert(rules()[13] == ("FOR", "\\bfor\\b"));
    assert("FOR"@ =~= seq!['F', 'O', 'R']);
    assert(lowercase("FOR"@) =~= seq!['f', 'o', 'r']);
    assert("\\bfor\\b"@ =~= "\\b"@ + seq!['f', 'o', 'r'] + "\\b"@);
}

proof fn lemma_keyword_rule_14()
    ensures
        rules()[14].1@ == "\\b"@ + lowercase(rules()[14].0@) + "\\b"@,
{
    reveal_strlit("WHILE");
    reveal_strlit("\\bwhile\\b");
    reveal_strlit("\\b");
    assert(rules()[14] == ("WHILE", "\\bwhile\\b"));
    assert("WHILE"@ =~= seq!['W', 'H', 'I', 'L', 'E']);
    assert(lowercase("WHILE"@) =~= seq!['w', 'h', 'i', 'l', 'e']);
    assert("\\bwhile\\b"@ =~= "\\b"@ + seq!['w', 'h', 'i', 'l', 'e'] + "\\b"@);
}

proof fn lemma_keyword_rule_15()
    ensures
        rules()[15].1@ == "\\b"@ + lowercase(rules()[15].0@) + "\\b"@,
{
    reveal_strlit("DO");
    reveal_strlit("\\bdo\\b");
    reveal_strlit("\\b");
    assert(rules()[15] == ("DO", "\\bdo\\b"));
    assert("DO"@ =~= seq!['D', 'O']);
    assert(lowercase("DO"@) =~= seq!['d', 'o']);
    assert("\\bdo\\b"@ =~= "\\b"@ + seq!['d', 'o'] + "\\b"@);
}

proof fn lemma_keyword_rule_16()
    ensures
        rules()[16].1@ == "\\b"@ + lowercase(rules()[16].0@) + "\\b"@,
{
    reveal_strlit("LOG");
    reveal_strlit("\\blog\\b");
    reveal_strlit("\\b");
    assert(rules()[16] == ("LOG", "\\blog\\b"));
    assert("LOG"@ =~= seq!['L', 'O', 'G']);
    assert(lowercase("LOG"@) =~= seq!['l', 'o', 'g']);
    assert("\\blog\\b"@ =~= "\\b"@ + seq!['l', 'o', 'g'] + "\\b"@);
}

proof fn lemma_keyword_rule_17()
    ensures
        rules()[17].1@ == "\\b"@ + lowercase(rules()[17].0@) + "\\b"@,
{
    reveal_strlit("ASSERT");
    reveal_strlit("\\bassert\\b");
    reveal_strlit("\\b");
    assert(rules()[17] == ("ASSERT", "\\bassert\\b"));
    assert("ASSERT"@ =~= seq!['A', 'S', 'S', 'E', 'R', 'T']);
    assert(lowercase("ASSERT"@) =~= seq!['a', 's', 's', 'e', 'r', 't']);
    assert("\\bassert\\b"@ =~= "\\b"@ + seq!['a', 's', 's', 'e', 'r', 't'] + "\\b"@);
}

proof fn lemma_keyword_rule_18()
    ensures
        rules()[18].1@ == "\\b"@ + lowercase(rules()[18].0@) + "\\b"@,
{
    reveal_strlit("INCLUDE");
    reveal_strlit("\\binclude\\b");
    reveal_strlit("\\b");
    assert(rules()[18] == ("INCLUDE", "\\binclude\\b"));
    assert("INCLUDE"@ =~= seq!['I', 'N', 'C', 'L', 'U', 'D', 'E']);
    assert(lowercase("INCLUDE"@) =~= seq!['i', 'n', 'c', 'l', 'u', 'd', 'e']);
    assert("\\binclude\\b"@ =~= "\\b"@ + seq!['i', 'n', 'c', 'l', 'u', 'd', 'e'] + "\\b"@);
}

proof fn lemma_keyword_rule_19()
    ensures
        rules()[19].1@ == "\\b"@ + lowercase(rules()[19].0@) + "\\b"@,
{
    reveal_strlit("PARALLEL");
    reveal_strlit("\\bparallel\\b");
    reveal_strlit("\\b");
    assert(rules()[19] == ("PARALLEL", "\\bparallel\\b"));
    assert("PARALLEL"@ =~= seq!['P', 'A', 'R', 'A', 'L', 'L', 'E', 'L']);
    assert(lowercase("PARALLEL"@) =~= seq!['p', 'a', 'r', 'a', 'l', 'l', 'e', 'l']);
    assert("\\bparallel\\b"@ =~= "\\b"@ + seq!['p', 'a', 'r', 'a', 'l', 'l', 'e', 'l'] + "\\b"@);
}

proof fn lemma_keyword_rule_20()
    ensures
        rules()[20].1@ == "\\b"@ + lowercase(rules()[20].0@) + "\\b"@,
{
    reveal_strlit("BUS");
    reveal_strlit("\\bbus\\b");
    reveal_strlit("\\b");
    assert(rules()[20] == ("BUS", "\\bbus\\b"));
    assert("BUS"@ =~= seq!['B', 'U', 'S']);
    assert(lowercase("BUS"@) =~= seq!['b', 'u', 's']);
    assert("\\bbus\\b"@ =~= "\\b"@ + seq!['b', 'u', 's'] + "\\b"@);
}

proof fn lemma_keyword_rule_21()
    ensures
        rules()[21].1@ == "\\b"@ + lowercase(rules()[21].0@) + "\\b"@,
{
    reveal_strlit("CUSTOM_TEMPLATES");
    reveal_strlit("\\bcustom_templates\\b");
    reveal_strlit("\\b");
    assert(rules()[21] == ("CUSTOM_TEMPLATES", "\\bcustom_templates\\b"));
    assert("CUSTOM_TEMPLATES"@ =~= seq!['C', 'U', 'S', 'T', 'O', 'M', '_', 'T', 'E', 'M', 'P', 'L', 'A', 'T', 'E', 'S']);
    assert(lowercase("CUSTOM_TEMPLATES"@) =~= seq!['c', 'u', 's', 't', 'o', 'm', '_', 't', 'e', 'm', 'p', 'l', 'a', 't', 'e', 's']);
    assert("\\bcustom_templates\\b"@ =~= "\\b"@ + seq!['c', 'u', 's', 't', 'o', 'm', '_', 't', 'e', 'm', 'p', 'l', 'a', 't', 'e', 's'] + "\\b"@);
}

proof fn lemma_keyword_rule_22()
    ensures
        rules()[22].1@ == "\\b"@ + lowercase(rules()[22].0@) + "\\b"@,
{
    reveal_strlit("MAIN");
    reveal_strlit("\\bmain\\b");
    reveal_strlit("\\b");
    assert(rules()[22] == ("MAIN", "\\bmain\\b"));
    assert("MAIN"@ =~= seq!['M', 'A', 'I', 'N']);
    assert(lowercase("MAIN"@) =~= seq!['m', 'a', 'i', 'n']);
    assert("\\bmain\\b"@ =~= "\\b"@ + seq!['m', 'a', 'i', 'n'] + "\\b"@);
}

/// The keyword rules come first, and each matches its keyword as a whole
/// word: the pattern of a keyword type is the type's name in small letters
/// between word boundaries, so `pragma` lexes as `PRAGMA` and `pragmas` does
/// not.
pub proof fn lemma_keyword_rules()
    ensures
        forall|i: int| 0 <= i < 23 ==> (#[trigger] rules()[i]).1@ == "\\b"@ + lowercase(rules()[i].0@) + "\\b"@,
{
    lemma_keyword_rule_0();
    lemma_keyword_rule_1();
    lemma_keyword_rule_2();
    lemma_keyword_rule_3();
    lemma_keyword_rule_4();
    lemma_keyword_rule_5();
    lemma_keyword_rule_6();
    lemma_keyword_rule_7();
    lemma_keyword_rule_8();
    lemma_keyword_rule_9();
    lemma_keyword_rule_10();
    lemma_keyword_rule_11();
    lemma_keyword_rule_12();
    lemma_keyword_rule_13();
    lemma_keyword_rule_14();
    lemma_keyword_rule_15();
    lemma_keyword_rule_16();
    lemma_keyword_rule_17();
    lemma_keyword_rule_18();
    lemma_keyword_rule_19();
    lemma_keyword_rule_20();
    lemma_keyword_rule_21();
    lemma_keyword_rule_22();
    assert forall|i: int| 0 <= i < 23 implies (#[trigger] rules()[i]).1@ == "\\b"@ + lowercase(rules()[i].0@) + "\\b"@ by {
        if i == 0 {
            lemma_keyword_rule_0();
        }
        if i == 1 {
            lemma_keyword_rule_1();
        }
        if i == 2 {
            lemma_keyword_rule_2();
        }
        if i == 3 {
            lemma_keyword_rule_3();
        }
        if i == 4 {
            lemma_keyword_rule_4();
        }
        if i == 5 {
            lemma_keyword_rule_5();
        }
        if i == 6 {
            lemma_keyword_rule_6();
        }
        if i == 7 {
            lemma_keyword_rule_7();
        }
        if i == 8 {
            lemma_keyword_rule_8();
        }
        if i == 9 {
            lemma_keyword_rule_9();
        }
        if i == 10 {
            lemma_keyword_rule_10();
        }
        if i == 11 {
            lemma_keyword_rule_11();
        }
        if i == 12 {
            lemma_keyword_rule_12();
        }
        if i == 13 {
            lemma_keyword_rule_13();
        }
        if i == 14 {
            lemma_keyword_rule_14();
        }
        if i == 15 {
            lemma_keyword_rule_15();
        }
        if i == 16 {
            lemma_keyword_rule_16();
        }
        if i == 17 {
            lemma_keyword_rule_17();
        }
        if i == 18 {
            lemma_keyword_rule_18();
        }
        if i == 19 {
            lemma_keyword_rule_19();
        }
        if i == 20 {
            lemma_keyword_rule_20();
        }
        if i == 21 {
            lemma_keyword_rule_21();
        }
        if i == 22 {
            lemma_keyword_rule_22();
        }
    }
}

} // verus!

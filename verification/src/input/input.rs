//! Preparing Circom source text for the lexer: tabs, comments and line
//! breaks taken out. Reading the file is left to the caller.
use vstd::prelude::*;
use crate::text::{
    chars_of, find_char, find_sub, find_sub_range, join, join_strings, lemma_find_char, line_bounds, lines, string_of_range,
    strip_cr, views,
};
use crate::text::lemma_find_sub;

verus! {

/// `s` without the character `c`.
pub open spec fn without(s: Seq<char>, c: char) -> Seq<char>
    decreases s.len(),
{
    if s.len() == 0 {
        seq![]
    } else if s.last() == c {
        without(s.drop_last(), c)
    } else {
        without(s.drop_last(), c).push(s.last())
    }
}

/// `s` without each `\r\n`, read from the left.
pub open spec fn without_crlf(s: Seq<char>) -> Seq<char>
    decreases s.len(),
{
    if s.len() == 0 {
        seq![]
    } else if s.len() >= 2 && s[0] == '\r' && s[1] == '\n' {
        without_crlf(s.skip(2))
    } else {
        seq![s[0]] + without_crlf(s.skip(1))
    }
}

/// A line up to its first `//`.
pub open spec fn before_comment(l: Seq<char>) -> Seq<char> {
    match find_sub(l, "//"@) {
        Some(p) => l.take(p as int),
        None => l,
    }
}

/// The text with each line cut at its first `//`, the lines joined again by
/// `\n`, and a final `\n` kept: every line break stays.
pub open spec fn line_comments_removed(s: Seq<char>) -> Seq<char> {
    let cut = join(lines(s).map_values(|l: Seq<char>| before_comment(l)), "\n"@);
    if s.len() > 0 && s.last() == '\n' {
        cut.push('\n')
    } else {
        cut
    }
}

/// The text with what stands between `/*` and `*/` taken out, but for line
/// breaks; `inside` tells whether the text starts inside a comment.
pub open spec fn block_comments_removed(s: Seq<char>, inside: bool) -> Seq<char>
    decreases s.len(),
{
    if s.len() == 0 {
        seq![]
    } else if s.len() >= 2 && s[0] == '/' && s[1] == '*' {
        block_comments_removed(s.skip(2), true)
    } else if s.len() >= 2 && s[0] == '*' && s[1] == '/' {
        block_comments_removed(s.skip(2), false)
    } else if !inside || s[0] == '\n' {
        seq![s[0]] + block_comments_removed(s.skip(1), inside)
    } else {
        block_comments_removed(s.skip(1), inside)
    }
}

/// The number of times `c` occurs in `s`.
pub open spec fn count(s: Seq<char>, c: char) -> nat
    decreases s.len(),
{
    if s.len() == 0 {
        0
    } else {
        count(s.skip(1), c) + if s[0] == c {
            1nat
        } else {
            0nat
        }
    }
}

/// The text as the lexer takes it: tabs out, then line comments, then block comments.
pub open spec fn cleaned(s: Seq<char>) -> Seq<char> {
    block_comments_removed(line_comments_removed(without(s, '\t')), false)
}

/// The text on one line: `\r\n`, then `\n`, then tabs taken out.
pub open spec fn one_line(s: Seq<char>) -> Seq<char> {
    without(without(without_crlf(s), '\n'), '\t')
}

/// `s` without the character `c`.
pub fn remove_char(s: &str, c: char) -> (r: String)
    ensures
        r@ == without(s@, c),
{
    let v = chars_of(s);
    let mut r = String::new();
    let mut i: usize = 0;
    while i < v.len()
        invariant
            i <= v.len(),
            v@ == s@,
            r@ == without(v@.take(i as int), c),
        decreases v.len() - i,
    {
        assert(v@.take(i + 1).drop_last() =~= v@.take(i as int));
        assert(v@.take(i + 1).last() == v@[i as int]);
        if v[i] != c {
            r.push(v[i]);
        }
        i += 1;
    }
    assert(v@.take(v.len() as int) =~= v@);
    r
}

/// `s` without each `\r\n`.
pub fn remove_crlf(s: &str) -> (r: String)
    ensures
        r@ == without_crlf(s@),
{
    let v = chars_of(s);
    let mut r = String::new();
    let mut i: usize = 0;
    assert(v@.skip(0) =~= v@);
    while i < v.len()
        invariant
            i <= v.len(),
            v@ == s@,
            r@ + without_crlf(v@.skip(i as int)) == without_crlf(v@),
        decreases v.len() - i,
    {
        let ghost t = v@.skip(i as int);
        if i + 1 < v.len() && v[i] == '\r' && v[i + 1] == '\n' {
            assert(t.skip(2) =~= v@.skip(i + 2));
            i += 2;
        } else {
            assert(t.skip(1) =~= v@.skip(i + 1));
            assert(t[0] == v@[i as int]);
            let ghost r0 = r@;
            r.push(v[i]);
            assert(r@ + without_crlf(v@.skip(i + 1)) =~= r0 + without_crlf(t));
            i += 1;
        }
    }
    assert(v@.skip(v.len() as int) =~= Seq::<char>::empty());
    assert(r@ + Seq::<char>::empty() =~= r@);
    r
}

/// Cuts each line at its first `//` and joins the lines again by `\n`,
/// keeping a final line break.
pub fn remove_line_comments(content: String) -> (r: String)
    ensures
        r@ == line_comments_removed(content@),
{
    let v = chars_of(content.as_str());
    let bounds = line_bounds(&v);
    let pat = chars_of("//");
    let mut parts: Vec<String> = Vec::new();
    let mut i: usize = 0;
    let ghost ls = lines(content@);
    proof {
        assert(bounds@.map_values(|b: (usize, usize)| v@.subrange(b.0 as int, b.1 as int)) == ls);
    }
    while i < bounds.len()
        invariant
            i <= bounds.len(),
            v@ == content@,
            ls == lines(content@),
            pat@ == "//"@,
            forall|k: int| 0 <= k < bounds.len() ==> #[trigger] bounds@[k].0 <= bounds@[k].1 <= v.len(),
            bounds@.map_values(|b: (usize, usize)| v@.subrange(b.0 as int, b.1 as int)) == ls,
            views(parts@) == ls.take(i as int).map_values(|l: Seq<char>| before_comment(l)),
        decreases bounds.len() - i,
    {
        let (a, b) = bounds[i];
        assert(ls[i as int] == v@.subrange(a as int, b as int));
        proof {
            crate::text::lemma_find_sub(v@.subrange(a as int, b as int), "//"@);
        }
        let part = match find_sub_range(&v, a, b, &pat) {
            Some(p) => string_of_range(&v, a, a + p),
            None => string_of_range(&v, a, b),
        };
        proof {
            crate::text::lemma_find_sub(v@.subrange(a as int, b as int), "//"@);
            assert(part@ =~= before_comment(ls[i as int]));
        }
        let ghost p0 = parts@;
        parts.push(part);
        proof {
            assert(views(parts@) =~= views(p0).push(part@));
            assert(ls.take(i + 1).map_values(|l: Seq<char>| before_comment(l)) =~= ls.take(i as int).map_values(
                |l: Seq<char>| before_comment(l),
            ).push(before_comment(ls[i as int])));
        }
        i += 1;
    }
    assert(ls.take(ls.len() as int) =~= ls);
    let mut r = join_strings(&parts, "\n");
    if v.len() > 0 && v[v.len() - 1] == '\n' {
        r.push('\n');
    }
    r
}

/// Takes out what stands between `/*` and `*/`, keeping line breaks.
pub fn remove_block_comments(content: String) -> (r: String)
    ensures
        r@ == block_comments_removed(content@, false),
{
    let v = chars_of(content.as_str());
    let mut r = String::new();
    let mut in_comment = false;
    let mut i: usize = 0;
    assert(v@.skip(0) =~= v@);
    while i < v.len()
        invariant
            i <= v.len(),
            v@ == content@,
            r@ + block_comments_removed(v@.skip(i as int), in_comment) == block_comments_removed(v@, false),
        decreases v.len() - i,
    {
        let ghost t = v@.skip(i as int);
        let c = v[i];
        assert(t[0] == c);
        if c == '/' && i + 1 < v.len() && v[i + 1] == '*' {
            assert(t.skip(2) =~= v@.skip(i + 2));
            assert(t[1] == v@[i + 1]);
            in_comment = true;
            i += 2;
        } else if c == '*' && i + 1 < v.len() && v[i + 1] == '/' {
            assert(t.skip(2) =~= v@.skip(i + 2));
            assert(t[1] == v@[i + 1]);
            in_comment = false;
            i += 2;
        } else {
            if i + 1 < v.len() {
                assert(t[1] == v@[i + 1]);
            }
            assert(t.skip(1) =~= v@.skip(i + 1));
            let ghost r0 = r@;
            if !in_comment || c == '\n' {
                r.push(c);
                assert(r@ + block_comments_removed(v@.skip(i + 1), in_comment) =~= r0 + block_comments_removed(t, in_comment));
            }
            i += 1;
        }
    }
    assert(v@.skip(v.len() as int) =~= Seq::<char>::empty());
    assert(r@ + Seq::<char>::empty() =~= r@);
    r
}

/// Source text as the lexer takes it: tabs, line comments and block
/// comments taken out.
pub fn clean_source(content: &str) -> (r: String)
    ensures
        r@ == cleaned(content@),
{
    let t = remove_char(content, '\t');
    let l = remove_line_comments(t);
    remove_block_comments(l)
}

/// Source text on one line: line breaks and tabs taken out.
pub fn clean_source_one_line(content: &str) -> (r: String)
    ensures
        r@ == one_line(content@),
{
    let a = remove_crlf(content);
    let b = remove_char(a.as_str(), '\n');
    remove_char(b.as_str(), '\t')
}

/// Taking out block comments keeps every line break: the text has as many
/// as before.
pub proof fn lemma_block_comments_keep_lines(s: Seq<char>, inside: bool)
    ensures
        count(block_comments_removed(s, inside), '\n') == count(s, '\n'),
    decreases s.len(),
{
    if s.len() > 0 {
        if s.len() >= 2 && ((s[0] == '/' && s[1] == '*') || (s[0] == '*' && s[1] == '/')) {
            lemma_block_comments_keep_lines(s.skip(2), s[0] == '/');
            assert(s.skip(1).skip(1) =~= s.skip(2));
            assert(s.skip(1)[0] == s[1]);
            assert(count(s.skip(1), '\n') == count(s.skip(2), '\n'));
            assert(count(s, '\n') == count(s.skip(1), '\n'));
        } else {
            lemma_block_comments_keep_lines(s.skip(1), inside);
            if !inside || s[0] == '\n' {
                let rest = block_comments_removed(s.skip(1), inside);
                assert((seq![s[0]] + rest).skip(1) =~= rest);
            }
        }
    }
}

/// Outside comments, taking out block comments changes nothing: text without
/// `/*` or `*/` comes back as it was.
pub proof fn lemma_no_comment_unchanged(s: Seq<char>)
    requires
        find_sub(s, "/*"@) is None,
        find_sub(s, "*/"@) is None,
    ensures
        block_comments_removed(s, false) == s,
    decreases s.len(),
{
    if s.len() > 0 {
        reveal_strlit("/*");
        reveal_strlit("*/");
        assert(!(s.len() >= 2 && s[0] == '/' && s[1] == '*')) by {
            if s.len() >= 2 && s[0] == '/' && s[1] == '*' {
                assert(s.take(2) =~= "/*"@);
            }
        }
        assert(!(s.len() >= 2 && s[0] == '*' && s[1] == '/')) by {
            if s.len() >= 2 && s[0] == '*' && s[1] == '/' {
                assert(s.take(2) =~= "*/"@);
            }
        }
        assert(s.skip(1) =~= s.drop_first());
        if s.len() >= 2 {
            assert(s.take(2) != "/*"@);
        }
        lemma_no_comment_unchanged(s.skip(1));
        assert(seq![s[0]] + s.skip(1) =~= s);
    }
}

/// `s` holds no `c`.
spec fn free_of(s: Seq<char>, c: char) -> bool {
    forall|i: int| 0 <= i < s.len() ==> s[i] != c
}

proof fn lemma_count_free(s: Seq<char>, c: char)
    requires
        free_of(s, c),
    ensures
        count(s, c) == 0,
    decreases s.len(),
{
    if s.len() > 0 {
        assert(free_of(s.skip(1), c)) by {
            assert forall|i: int| 0 <= i < s.skip(1).len() implies s.skip(1)[i] != c by {
                assert(s.skip(1)[i] == s[i + 1]);
            }
        }
        lemma_count_free(s.skip(1), c);
    }
}

proof fn lemma_count_one(c: char)
    ensures
        count(seq![c], c) == 1,
{
    assert(seq![c].skip(1) =~= Seq::<char>::empty());
    assert(count(seq![c].skip(1), c) == 0);
}

proof fn lemma_count_concat(a: Seq<char>, b: Seq<char>, c: char)
    ensures
        count(a + b, c) == count(a, c) + count(b, c),
    decreases a.len(),
{
    if a.len() == 0 {
        assert(a + b =~= b);
    } else {
        assert((a + b).skip(1) =~= a.skip(1) + b);
        assert((a + b)[0] == a[0]);
        lemma_count_concat(a.skip(1), b, c);
    }
}

/// Words without line breaks joined by `\n` hold one line break fewer than words.
proof fn lemma_count_join(ws: Seq<Seq<char>>)
    requires
        ws.len() > 0,
        forall|j: int| 0 <= j < ws.len() ==> free_of(#[trigger] ws[j], '\n'),
    ensures
        count(join(ws, "\n"@), '\n') + 1 == ws.len(),
    decreases ws.len(),
{
    if ws.len() == 1 {
        lemma_count_free(ws[0], '\n');
    } else {
        let init = ws.drop_last();
        assert forall|j: int| 0 <= j < init.len() implies free_of(#[trigger] init[j], '\n') by {
            assert(init[j] == ws[j]);
        }
        lemma_count_join(init);
        reveal_strlit("\n");
        let a = join(init, "\n"@);
        lemma_count_concat(a, "\n"@, '\n');
        lemma_count_concat(a + "\n"@, ws.last(), '\n');
        assert(ws.last() == ws[ws.len() - 1]);
        lemma_count_free(ws.last(), '\n');
        assert("\n"@ =~= seq!['\n']);
        lemma_count_one('\n');
    }
}

/// The lines of a nonempty text: one per line break, and one more unless
/// the text ends with a line break; none holds a line break.
proof fn lemma_lines_count(s: Seq<char>)
    requires
        s.len() > 0,
    ensures
        lines(s).len() == count(s, '\n') + (if s.last() == '\n' {
            0int
        } else {
            1int
        }),
        forall|j: int| 0 <= j < lines(s).len() ==> free_of(#[trigger] lines(s)[j], '\n'),
    decreases s.len(),
{
    lemma_find_char(s, '\n');
    match find_char(s, '\n') {
        None => {
            assert(free_of(s, '\n'));
            lemma_count_free(s, '\n');
            assert(s.last() == s[s.len() - 1]);
            assert(lines(s) == seq![s]);
            assert(free_of(lines(s)[0], '\n'));
        },
        Some(i) => {
            let head = s.take(i as int);
            let rest = s.skip(i + 1 as int);
            assert(s =~= head + (seq!['\n'] + rest));
            assert(free_of(head, '\n'));
            lemma_count_free(head, '\n');
            lemma_count_concat(head, seq!['\n'] + rest, '\n');
            lemma_count_concat(seq!['\n'], rest, '\n');
            lemma_count_one('\n');
            assert(free_of(strip_cr(head), '\n')) by {
                assert forall|k: int| 0 <= k < strip_cr(head).len() implies strip_cr(head)[k] != '\n' by {
                    assert(strip_cr(head)[k] == head[k]);
                }
            }
            if rest.len() == 0 {
                assert(count(rest, '\n') == 0);
                assert(s.last() == s[i as int]);
                assert(lines(s) =~= seq![strip_cr(head)]);
            } else {
                lemma_lines_count(rest);
                assert(rest.last() == s.last());
                let ls = lines(s);
                assert(ls =~= seq![strip_cr(head)] + lines(rest));
                assert forall|j: int| 0 <= j < ls.len() implies free_of(#[trigger] ls[j], '\n') by {
                    if j > 0 {
                        assert(ls[j] == lines(rest)[j - 1]);
                    }
                }
            }
        },
    }
}

/// Cutting line comments keeps every line break of the text, so each line
/// stays on its line.
pub proof fn lemma_line_comments_keep_lines(s: Seq<char>)
    ensures
        count(line_comments_removed(s), '\n') == count(s, '\n'),
{
    if s.len() > 0 {
        lemma_lines_count(s);
        let ls = lines(s);
        let ws = ls.map_values(|l: Seq<char>| before_comment(l));
        assert forall|j: int| 0 <= j < ws.len() implies free_of(#[trigger] ws[j], '\n') by {
            assert(free_of(ls[j], '\n'));
            assert(ws[j] == before_comment(ls[j]));
            crate::text::lemma_find_sub(ls[j], "//"@);
            assert forall|k: int| 0 <= k < ws[j].len() implies ws[j][k] != '\n' by {
                assert(ws[j][k] == ls[j][k]);
            }
        }
        let cut = join(ws, "\n"@);
        if s.last() == '\n' {
            lemma_find_char(s, '\n');
            assert(s[s.len() - 1] == '\n');
            assert(count(s, '\n') >= 1) by {
                if count(s, '\n') == 0 {
                    assert(find_char(s, '\n') is Some);
                    let i = find_char(s, '\n')->Some_0;
                    lemma_count_concat(s.take(i as int), s.skip(i as int), '\n');
                    assert(s =~= s.take(i as int) + s.skip(i as int));
                    assert(s.skip(i as int)[0] == '\n');
                }
            }
            lemma_count_join(ws);
            lemma_count_concat(cut, seq!['\n'], '\n');
            lemma_count_one('\n');
            assert(cut.push('\n') =~= cut + seq!['\n']);
        } else {
            lemma_count_join(ws);
        }
    } else {
        assert(lines(s).len() == 0);
        assert(join(lines(s).map_values(|l: Seq<char>| before_comment(l)), "\n"@) == Seq::<char>::empty());
    }
}

/// `s` holds no `//`.
pub open spec fn no_double_slash(s: Seq<char>) -> bool {
    forall|i: int| 0 <= i && i + 1 < s.len() ==> !(#[trigger] s[i] == '/' && s[i + 1] == '/')
}

/// `find_sub` finds the first `//`.
proof fn lemma_first_double_slash(s: Seq<char>)
    ensures
        match find_sub(s, "//"@) {
            None => no_double_slash(s),
            Some(p) => p + 1 < s.len() && s[p as int] == '/' && s[p + 1int] == '/' && forall|i: int|
                0 <= i < p ==> !(#[trigger] s[i] == '/' && s[i + 1] == '/'),
        },
    decreases s.len(),
{
    reveal_strlit("//");
    assert("//"@ =~= seq!['/', '/']);
    if s.len() < 2 {
    } else if s.take(2) == "//"@ {
        assert(s.take(2)[0] == s[0] && s.take(2)[1] == s[1]);
    } else {
        assert(!(s[0] == '/' && s[1] == '/')) by {
            if s[0] == '/' && s[1] == '/' {
                assert(s.take(2) =~= "//"@);
            }
        }
        let t = s.drop_first();
        lemma_first_double_slash(t);
        match find_sub(t, "//"@) {
            None => {
                assert forall|i: int| 0 <= i && i + 1 < s.len() implies !(#[trigger] s[i] == '/' && s[i + 1] == '/') by {
                    if i >= 1 {
                        assert(s[i] == t[i - 1] && s[i + 1] == t[i]);
                    }
                }
            },
            Some(p) => {
                assert(s[p + 1int] == t[p as int] && s[p + 2int] == t[p + 1int]);
                assert forall|i: int| 0 <= i < p + 1 implies !(#[trigger] s[i] == '/' && s[i + 1] == '/') by {
                    if i >= 1 {
                        assert(s[i] == t[i - 1] && s[i + 1] == t[i]);
                    }
                }
            },
        }
    }
}

/// A line is cut just before its first `//`: the cut keeps the part of
/// the line before it, which holds no `//`, and what is cut off starts with
/// `//`.
pub proof fn lemma_cut_at_first_comment(l: Seq<char>)
    ensures
        before_comment(l).len() <= l.len(),
        before_comment(l) == l.take(before_comment(l).len() as int),
        no_double_slash(before_comment(l)),
        before_comment(l).len() < l.len() ==> l[before_comment(l).len() as int] == '/' && l[before_comment(l).len() + 1int] == '/',
{
    lemma_first_double_slash(l);
    let b = before_comment(l);
    match find_sub(l, "//"@) {
        None => {
            assert(l.take(l.len() as int) =~= l);
        },
        Some(p) => {
            assert forall|i: int| 0 <= i && i + 1 < b.len() implies !(#[trigger] b[i] == '/' && b[i + 1] == '/') by {
                assert(b[i] == l[i] && b[i + 1] == l[i + 1]);
            }
        },
    }
}

proof fn lemma_no_dd_concat(a: Seq<char>, b: Seq<char>)
    requires
        no_double_slash(a),
        no_double_slash(b),
        a.len() == 0 || b.len() == 0 || a.last() != '/' || b[0] != '/',
    ensures
        no_double_slash(a + b),
{
    let c = a + b;
    assert forall|i: int| 0 <= i && i + 1 < c.len() implies !(#[trigger] c[i] == '/' && c[i + 1] == '/') by {
        if i + 1 < a.len() {
            assert(c[i] == a[i] && c[i + 1] == a[i + 1]);
        } else if i >= a.len() {
            assert(c[i] == b[i - a.len()] && c[i + 1] == b[i + 1 - a.len()]);
        } else {
            assert(c[i] == a.last() && c[i + 1] == b[0]);
        }
    }
}

proof fn lemma_join_no_dd(ws: Seq<Seq<char>>)
    requires
        forall|j: int| 0 <= j < ws.len() ==> no_double_slash(#[trigger] ws[j]),
    ensures
        no_double_slash(join(ws, "\n"@)),
    decreases ws.len(),
{
    reveal_strlit("\n");
    assert("\n"@ =~= seq!['\n']);
    if ws.len() == 1 {
        assert(no_double_slash(ws[0]));
    } else if ws.len() > 1 {
        let init = ws.drop_last();
        assert forall|j: int| 0 <= j < init.len() implies no_double_slash(#[trigger] init[j]) by {
            assert(init[j] == ws[j]);
        }
        lemma_join_no_dd(init);
        let a = join(init, "\n"@);
        assert(no_double_slash(seq!['\n']));
        lemma_no_dd_concat(a, "\n"@);
        assert((a + "\n"@).last() == '\n');
        assert(no_double_slash(ws[ws.len() - 1]));
        lemma_no_dd_concat(a + "\n"@, ws.last());
    }
}

/// After line comments are cut, no `//` is left anywhere in the text.
pub proof fn lemma_no_line_comment_left(s: Seq<char>)
    ensures
        no_double_slash(line_comments_removed(s)),
{
    let ls = lines(s);
    let ws = ls.map_values(|l: Seq<char>| before_comment(l));
    assert forall|j: int| 0 <= j < ws.len() implies no_double_slash(#[trigger] ws[j]) by {
        lemma_cut_at_first_comment(ls[j]);
    }
    lemma_join_no_dd(ws);
    let cut = join(ws, "\n"@);
    if s.len() > 0 && s.last() == '\n' {
        assert(no_double_slash(seq!['\n']));
        lemma_no_dd_concat(cut, seq!['\n']);
        assert(cut.push('\n') =~= cut + seq!['\n']);
    }
}

/// Inside a comment that does not close, everything is taken out but the
/// line breaks: the text comes back as line breaks alone, as many as it had.
pub proof fn lemma_comment_text_removed(s: Seq<char>)
    requires
        forall|i: int| 0 <= i && i + 1 < s.len() ==> !(#[trigger] s[i] == '*' && s[i + 1] == '/'),
    ensures
        forall|i: int| 0 <= i < block_comments_removed(s, true).len() ==> #[trigger] block_comments_removed(s, true)[i] == '\n',
        count(block_comments_removed(s, true), '\n') == count(s, '\n'),
    decreases s.len(),
{
    lemma_block_comments_keep_lines(s, true);
    if s.len() > 0 {
        let k: int = if s.len() >= 2 && s[0] == '/' && s[1] == '*' {
            2
        } else {
            1
        };
        let t = s.skip(k);
        assert forall|i: int| 0 <= i && i + 1 < t.len() implies !(#[trigger] t[i] == '*' && t[i + 1] == '/') by {
            assert(t[i] == s[i + k] && t[i + 1] == s[i + 1 + k]);
        }
        lemma_comment_text_removed(t);
        assert(!(s.len() >= 2 && s[0] == '*' && s[1] == '/'));
        let r = block_comments_removed(s, true);
        let rt = block_comments_removed(t, true);
        if k == 1 && s[0] == '\n' {
            assert(r == seq![s[0]] + rt);
            assert forall|i: int| 0 <= i < r.len() implies #[trigger] r[i] == '\n' by {
                if i > 0 {
                    assert(r[i] == rt[i - 1]);
                }
            }
        }
    }
}

/// Taking out a character leaves none of it, and every other character as
/// often as before.
pub proof fn lemma_without(s: Seq<char>, c: char, d: char)
    ensures
        count(without(s, c), c) == 0,
        d != c ==> count(without(s, c), d) == count(s, d),
    decreases s.len(),
{
    if s.len() > 0 {
        lemma_without(s.drop_last(), c, d);
        let w = without(s.drop_last(), c);
        assert(s =~= s.drop_last() + seq![s.last()]);
        lemma_count_concat(s.drop_last(), seq![s.last()], c);
        lemma_count_concat(s.drop_last(), seq![s.last()], d);
        lemma_count_concat(w, seq![s.last()], c);
        lemma_count_concat(w, seq![s.last()], d);
        assert(w.push(s.last()) =~= w + seq![s.last()]);
        assert(seq![s.last()].skip(1) =~= Seq::<char>::empty());
        assert(count(seq![s.last()].skip(1), c) == 0);
        assert(count(seq![s.last()].skip(1), d) == 0);
    }
}

/// The source on one line holds no line break and no tab.
pub proof fn lemma_one_line(s: Seq<char>)
    ensures
        count(one_line(s), '\n') == 0,
        count(one_line(s), '\t') == 0,
{
    let a = without(without_crlf(s), '\n');
    lemma_without(without_crlf(s), '\n', '\n');
    lemma_without(a, '\t', '\t');
    lemma_without(a, '\t', '\n');
}

} // verus!

//! Character-level text utilities: the splitting and trimming operations that
//! the grammar reader and the source cleaner are built from, each with the
//! meaning of its std counterpart stated as a spec function.
use vstd::prelude::*;

verus! {

/// std's `String::push` appends one character to the string.
pub assume_specification[ String::push ](s: &mut String, ch: char)
    ensures
        final(s)@ == old(s)@.push(ch),
;

/// The views of a sequence of strings.
pub open spec fn views(v: Seq<String>) -> Seq<Seq<char>> {
    v.map_values(|s: String| s@)
}

/// The characters of `s`, in order.
pub fn chars_of(s: &str) -> (v: Vec<char>)
    ensures
        v@ == s@,
{
    let mut v: Vec<char> = Vec::new();
    for c in it: s.chars()
        invariant
            v@ == it.seq().take(it.index() as int),
            it.seq() == s@,
    {
        v.push(c);
    }
    v
}

/// The number of bytes `c` takes in UTF-8.
pub open spec fn char_bytes(c: char) -> nat {
    if (c as u32) < 0x80 {
        1
    } else if (c as u32) < 0x800 {
        2
    } else if (c as u32) < 0x10000 {
        3
    } else {
        4
    }
}

/// The number of bytes `s` takes in UTF-8 (what `str::len` gives).
pub open spec fn utf8_len(s: Seq<char>) -> nat
    decreases s.len(),
{
    if s.len() == 0 {
        0
    } else {
        utf8_len(s.drop_last()) + char_bytes(s.last())
    }
}

/// A text takes at most four bytes a character.
pub proof fn lemma_utf8_len_bound(s: Seq<char>)
    ensures
        utf8_len(s) <= 4 * s.len(),
    decreases s.len(),
{
    if s.len() > 0 {
        lemma_utf8_len_bound(s.drop_last());
    }
}

/// The bytes of two texts joined are those of each.
pub proof fn lemma_utf8_len_concat(a: Seq<char>, b: Seq<char>)
    ensures
        utf8_len(a + b) == utf8_len(a) + utf8_len(b),
    decreases b.len(),
{
    if b.len() == 0 {
        assert(a + b =~= a);
    } else {
        assert((a + b).drop_last() =~= a + b.drop_last());
        assert((a + b).last() == b.last());
        lemma_utf8_len_concat(a, b.drop_last());
    }
}

/// The number of bytes of `c` in UTF-8.
pub fn char_byte_len(c: char) -> (r: usize)
    ensures
        r == char_bytes(c),
{
    let u: u32 = c as u32;
    if u < 0x80 {
        1
    } else if u < 0x800 {
        2
    } else if u < 0x10000 {
        3
    } else {
        4
    }
}

/// The number of bytes of the characters `v[from..to]` in UTF-8.
pub fn utf8_len_range(v: &Vec<char>, from: usize, to: usize) -> (r: usize)
    requires
        from <= to <= v.len(),
        4 * v.len() <= usize::MAX,
    ensures
        r == utf8_len(v@.subrange(from as int, to as int)),
        r <= 4 * (to - from),
{
    let mut r: usize = 0;
    let mut j: usize = from;
    assert(v@.subrange(from as int, from as int) =~= Seq::<char>::empty());
    while j < to
        invariant
            from <= j <= to <= v.len(),
            4 * v.len() <= usize::MAX,
            r == utf8_len(v@.subrange(from as int, j as int)),
            r <= 4 * (j - from),
        decreases to - j,
    {
        let ghost before = v@.subrange(from as int, j as int);
        assert(v@.subrange(from as int, j + 1).drop_last() =~= before);
        assert(v@.subrange(from as int, j + 1).last() == v@[j as int]);
        r = r + char_byte_len(v[j]);
        j += 1;
    }
    r
}

/// The number of bytes of `s` in UTF-8.
pub fn utf8_len_of(s: &str) -> (r: usize)
    requires
        4 * s@.len() <= usize::MAX,
    ensures
        r == utf8_len(s@),
{
    let v = chars_of(s);
    assert(v@.subrange(0, v@.len() as int) =~= v@);
    utf8_len_range(&v, 0, v.len())
}

/// The string made of the characters `v[from..to]`.
pub fn string_of_range(v: &Vec<char>, from: usize, to: usize) -> (s: String)
    requires
        from <= to <= v.len(),
    ensures
        s@ == v@.subrange(from as int, to as int),
{
    let mut s = String::new();
    let mut i: usize = from;
    while i < to
        invariant
            from <= i <= to <= v.len(),
            s@ == v@.subrange(from as int, i as int),
        decreases to - i,
    {
        s.push(v[i]);
        i += 1;
        assert(s@ =~= v@.subrange(from as int, i as int));
    }
    s
}

/// The string made of the characters of `v`.
pub fn string_of(v: &Vec<char>) -> (s: String)
    ensures
        s@ == v@,
{
    let s = string_of_range(v, 0, v.len());
    assert(v@.subrange(0, v@.len() as int) =~= v@);
    s
}

/// The string made of the characters of a string literal.
pub fn string_from(s: &str) -> (r: String)
    ensures
        r@ == s@,
{
    let v = chars_of(s);
    string_of(&v)
}

/// `a` followed by `b`.
pub fn concat_str(a: &String, b: &str) -> (r: String)
    ensures
        r@ == a@ + b@,
{
    let mut r = a.clone();
    let v = chars_of(b);
    let mut i: usize = 0;
    while i < v.len()
        invariant
            i <= v.len(),
            v@ == b@,
            r@ == a@ + v@.take(i as int),
        decreases v.len() - i,
    {
        r.push(v[i]);
        i += 1;
        assert(r@ =~= a@ + v@.take(i as int));
    }
    assert(v@.take(v.len() as int) =~= v@);
    r
}

/// Unicode White_Space, the set that std's `char::is_whitespace` tests for.
pub open spec fn is_ws(c: char) -> bool {
    ||| c == '\t'
    ||| c == '\n'
    ||| c == '\x0B'
    ||| c == '\x0C'
    ||| c == '\r'
    ||| c == ' '
    ||| c == '\u{85}'
    ||| c == '\u{A0}'
    ||| c == '\u{1680}'
    ||| ('\u{2000}' <= c && c <= '\u{200A}')
    ||| c == '\u{2028}'
    ||| c == '\u{2029}'
    ||| c == '\u{202F}'
    ||| c == '\u{205F}'
    ||| c == '\u{3000}'
}

/// Whether `c` is white space (std's `char::is_whitespace`).
pub fn is_whitespace(c: char) -> (b: bool)
    ensures
        b == is_ws(c),
{
    c == '\t' || c == '\n' || c == '\x0B' || c == '\x0C' || c == '\r' || c == ' ' || c
        == '\u{85}' || c == '\u{A0}' || c == '\u{1680}' || ('\u{2000}' <= c && c
        <= '\u{200A}') || c == '\u{2028}' || c == '\u{2029}' || c == '\u{202F}' || c
        == '\u{205F}' || c == '\u{3000}'
}

/// Number of white-space characters at the start of `s`.
pub open spec fn lead_ws(s: Seq<char>) -> nat
    decreases s.len(),
{
    if s.len() > 0 && is_ws(s[0]) {
        1 + lead_ws(s.drop_first())
    } else {
        0
    }
}

/// Number of white-space characters at the end of `s`.
pub open spec fn trail_ws(s: Seq<char>) -> nat
    decreases s.len(),
{
    if s.len() > 0 && is_ws(s.last()) {
        1 + trail_ws(s.drop_last())
    } else {
        0
    }
}

/// `s` without its leading and trailing white space (std's `str::trim`).
pub open spec fn trim(s: Seq<char>) -> Seq<char> {
    let a = s.skip(lead_ws(s) as int);
    a.take(a.len() - trail_ws(a))
}

/// Whether `s` holds only white space.
pub open spec fn blank(s: Seq<char>) -> bool {
    forall|i: int| 0 <= i < s.len() ==> is_ws(#[trigger] s[i])
}

proof fn lemma_lead_ws(s: Seq<char>)
    ensures
        lead_ws(s) <= s.len(),
        forall|i: int| 0 <= i < lead_ws(s) ==> is_ws(#[trigger] s[i]),
        lead_ws(s) < s.len() ==> !is_ws(s[lead_ws(s) as int]),
    decreases s.len(),
{
    if s.len() > 0 && is_ws(s[0]) {
        lemma_lead_ws(s.drop_first());
        assert forall|i: int| 0 <= i < lead_ws(s) implies is_ws(#[trigger] s[i]) by {
            if i > 0 {
                assert(s[i] == s.drop_first()[i - 1]);
            }
        }
    }
}

proof fn lemma_lead_ws_exact(s: Seq<char>, k: nat)
    requires
        k <= s.len(),
        forall|i: int| 0 <= i < k ==> is_ws(#[trigger] s[i]),
        k < s.len() ==> !is_ws(s[k as int]),
    ensures
        lead_ws(s) == k,
    decreases s.len(),
{
    if k > 0 {
        assert(is_ws(s[0]));
        assert forall|i: int| 0 <= i < k - 1 implies is_ws(#[trigger] s.drop_first()[i]) by {
            assert(s.drop_first()[i] == s[i + 1]);
        }
        if k - 1 < s.drop_first().len() {
            assert(s.drop_first()[k - 1] == s[k as int]);
        }
        lemma_lead_ws_exact(s.drop_first(), (k - 1) as nat);
    }
}

proof fn lemma_trail_ws_exact(s: Seq<char>, k: nat)
    requires
        k <= s.len(),
        forall|i: int| s.len() - k <= i < s.len() ==> is_ws(#[trigger] s[i]),
        k < s.len() ==> !is_ws(s[s.len() - k - 1]),
    ensures
        trail_ws(s) == k,
    decreases s.len(),
{
    if k > 0 {
        assert(is_ws(s[s.len() - 1]));
        assert forall|i: int|
            s.drop_last().len() - (k - 1) <= i < s.drop_last().len() implies is_ws(
            #[trigger] s.drop_last()[i],
        ) by {
            assert(s.drop_last()[i] == s[i]);
        }
        if k - 1 < s.drop_last().len() {
            assert(s.drop_last()[s.drop_last().len() - (k - 1) - 1] == s[s.len() - k - 1]);
        }
        lemma_trail_ws_exact(s.drop_last(), (k - 1) as nat);
    }
}

/// `v[from..to]` without leading and trailing white space.
pub fn trim_range(v: &Vec<char>, from: usize, to: usize) -> (r: String)
    requires
        from <= to <= v.len(),
    ensures
        r@ == trim(v@.subrange(from as int, to as int)),
{
    let ghost s = v@.subrange(from as int, to as int);
    let mut a: usize = from;
    while a < to && is_whitespace(v[a])
        invariant
            from <= a <= to <= v.len(),
            s == v@.subrange(from as int, to as int),
            forall|i: int| 0 <= i < a - from ==> is_ws(#[trigger] s[i]),
        decreases to - a,
    {
        assert(s[a - from] == v@[a as int]);
        a += 1;
    }
    proof {
        if a < to {
            assert(s[a - from] == v@[a as int]);
        }
        lemma_lead_ws_exact(s, (a - from) as nat);
    }
    let ghost t = s.skip(lead_ws(s) as int);
    assert(t =~= v@.subrange(a as int, to as int));
    let mut b: usize = to;
    while b > a && is_whitespace(v[b - 1])
        invariant
            from <= a <= b <= to <= v.len(),
            t =~= v@.subrange(a as int, to as int),
            forall|i: int| b - a <= i < t.len() ==> is_ws(#[trigger] t[i]),
        decreases b - a,
    {
        assert(t[b - 1 - a] == v@[b - 1]);
        b -= 1;
    }
    proof {
        if b > a {
            assert(t[b - a - 1] == v@[b - 1]);
        }
        lemma_trail_ws_exact(t, (to - b) as nat);
    }
    assert(t.take(t.len() - trail_ws(t)) =~= v@.subrange(a as int, b as int));
    string_of_range(v, a, b)
}

/// Index of the first occurrence of `c` in `s`.
pub open spec fn find_char(s: Seq<char>, c: char) -> Option<nat>
    decreases s.len(),
{
    if s.len() == 0 {
        None
    } else if s[0] == c {
        Some(0)
    } else {
        match find_char(s.drop_first(), c) {
            Some(i) => Some(i + 1),
            None => None,
        }
    }
}

pub proof fn lemma_find_char(s: Seq<char>, c: char)
    ensures
        match find_char(s, c) {
            Some(i) => i < s.len() && s[i as int] == c && forall|j: int|
                0 <= j < i ==> #[trigger] s[j] != c,
            None => forall|j: int| 0 <= j < s.len() ==> #[trigger] s[j] != c,
        },
    decreases s.len(),
{
    if s.len() > 0 && s[0] != c {
        lemma_find_char(s.drop_first(), c);
        match find_char(s.drop_first(), c) {
            Some(i) => {
                assert forall|j: int| 0 <= j < i + 1 implies #[trigger] s[j] != c by {
                    if j > 0 {
                        assert(s[j] == s.drop_first()[j - 1]);
                    }
                }
            },
            None => {
                assert forall|j: int| 0 <= j < s.len() implies #[trigger] s[j] != c by {
                    if j > 0 {
                        assert(s[j] == s.drop_first()[j - 1]);
                    }
                }
            },
        }
    }
}

pub proof fn lemma_find_char_exact(s: Seq<char>, c: char, k: int)
    requires
        0 <= k <= s.len(),
        forall|j: int| 0 <= j < k ==> #[trigger] s[j] != c,
        k < s.len() ==> s[k] == c,
    ensures
        find_char(s, c) == (if k < s.len() {
            Some(k as nat)
        } else {
            None::<nat>
        }),
{
    lemma_find_char(s, c);
    match find_char(s, c) {
        Some(i) => {
            if i < k {
                assert(s[i as int] != c);
            }
            if (i as int) > k {
                assert(s[k] == c);
            }
        },
        None => {
            if k < s.len() {
                assert(s[k] != c);
            }
        },
    }
}

/// The pieces of `s` between occurrences of `c` (std's `str::split` on a char).
pub open spec fn split_char(s: Seq<char>, c: char) -> Seq<Seq<char>>
    decreases s.len(),
{
    match find_char(s, c) {
        None => seq![s],
        Some(i) => if i < s.len() {
            seq![s.take(i as int)] + split_char(s.skip(i + 1 as int), c)
        } else {
            seq![s]
        },
    }
}

/// Length of the run of non-white-space characters at the start of `s`.
pub open spec fn word_len(s: Seq<char>) -> nat
    decreases s.len(),
{
    if s.len() > 0 && !is_ws(s[0]) {
        1 + word_len(s.drop_first())
    } else {
        0
    }
}

/// The white-space separated words of `s` (std's `str::split_whitespace`).
pub open spec fn split_ws(s: Seq<char>) -> Seq<Seq<char>>
    decreases s.len(),
{
    if s.len() == 0 {
        seq![]
    } else if is_ws(s[0]) {
        split_ws(s.drop_first())
    } else {
        let w = word_len(s);
        if 0 < w <= s.len() {
            seq![s.take(w as int)] + split_ws(s.skip(w as int))
        } else {
            seq![]
        }
    }
}

proof fn lemma_word_len_exact(s: Seq<char>, k: nat)
    requires
        k <= s.len(),
        forall|i: int| 0 <= i < k ==> !is_ws(#[trigger] s[i]),
        k < s.len() ==> is_ws(s[k as int]),
    ensures
        word_len(s) == k,
    decreases s.len(),
{
    if k > 0 {
        assert(!is_ws(s[0]));
        assert forall|i: int| 0 <= i < k - 1 implies !is_ws(#[trigger] s.drop_first()[i]) by {
            assert(s.drop_first()[i] == s[i + 1]);
        }
        if k - 1 < s.drop_first().len() {
            assert(s.drop_first()[k - 1] == s[k as int]);
        }
        lemma_word_len_exact(s.drop_first(), (k - 1) as nat);
    }
}

/// The white-space separated words of `v[from..to]`.
pub fn split_whitespace_range(v: &Vec<char>, from: usize, to: usize) -> (r: Vec<String>)
    requires
        from <= to <= v.len(),
    ensures
        views(r@) == split_ws(v@.subrange(from as int, to as int)),
{
    let mut r: Vec<String> = Vec::new();
    let mut i: usize = from;
    while i < to
        invariant
            from <= i <= to <= v.len(),
            views(r@) + split_ws(v@.subrange(i as int, to as int)) == split_ws(
                v@.subrange(from as int, to as int),
            ),
        decreases to - i,
    {
        let ghost s = v@.subrange(i as int, to as int);
        if is_whitespace(v[i]) {
            assert(s.drop_first() =~= v@.subrange(i + 1, to as int));
            i += 1;
        } else {
            let mut j: usize = i + 1;
            while j < to && !is_whitespace(v[j])
                invariant
                    i < j <= to <= v.len(),
                    s == v@.subrange(i as int, to as int),
                    forall|k: int| 0 <= k < j - i ==> !is_ws(#[trigger] s[k]),
                decreases to - j,
            {
                assert(s[j - i] == v@[j as int]);
                j += 1;
            }
            proof {
                assert(s[0] == v@[i as int]);
                if j < to {
                    assert(s[j - i] == v@[j as int]);
                }
                lemma_word_len_exact(s, (j - i) as nat);
            }
            let w = string_of_range(v, i, j);
            let ghost old_r = r@;
            r.push(w);
            assert(views(r@) =~= views(old_r).push(w@));
            assert(s.take((j - i) as int) =~= v@.subrange(i as int, j as int));
            assert(s.skip((j - i) as int) =~= v@.subrange(j as int, to as int));
            assert(views(r@) + split_ws(v@.subrange(j as int, to as int)) =~= views(old_r)
                + split_ws(s));
            i = j;
        }
    }
    assert(v@.subrange(to as int, to as int) =~= Seq::<char>::empty());
    assert(views(r@) + split_ws(Seq::<char>::empty()) =~= views(r@));
    r
}

/// Index of the first place where `pat` occurs in `s`.
pub open spec fn find_sub(s: Seq<char>, pat: Seq<char>) -> Option<nat>
    decreases s.len(),
{
    if s.len() < pat.len() {
        None
    } else if s.take(pat.len() as int) == pat {
        Some(0)
    } else if s.len() == 0 {
        None
    } else {
        match find_sub(s.drop_first(), pat) {
            Some(i) => Some(i + 1),
            None => None,
        }
    }
}

/// Whether `pat` occurs in `v` at position `i`.
fn occurs_at(v: &Vec<char>, i: usize, to: usize, pat: &Vec<char>) -> (b: bool)
    requires
        i <= to <= v.len(),
    ensures
        b == (i + pat.len() <= to && v@.subrange(i as int, i + pat.len()) == pat@),
{
    if pat.len() > to - i {
        return false;
    }
    let mut k: usize = 0;
    while k < pat.len()
        invariant
            k <= pat.len(),
            i + pat.len() <= to <= v.len(),
            v@.subrange(i as int, i + k) == pat@.take(k as int),
        decreases pat.len() - k,
    {
        if v[i + k] != pat[k] {
            assert(v@.subrange(i as int, i + pat.len())[k as int] != pat@[k as int]);
            return false;
        }
        k += 1;
        assert(v@.subrange(i as int, i + k) =~= pat@.take(k as int));
    }
    assert(pat@.take(pat.len() as int) =~= pat@);
    true
}

/// Position of the first occurrence of `pat` within `v[from..to]`, relative to `from`.
pub fn find_sub_range(v: &Vec<char>, from: usize, to: usize, pat: &Vec<char>) -> (r: Option<usize>)
    requires
        from <= to <= v.len(),
    ensures
        r matches Some(i) ==> find_sub(v@.subrange(from as int, to as int), pat@) == Some(i as nat),
        r is None ==> find_sub(v@.subrange(from as int, to as int), pat@) is None,
{
    let mut i: usize = from;
    loop
        invariant
            from <= i <= to <= v.len(),
            find_sub(v@.subrange(from as int, to as int), pat@) == (match find_sub(
                v@.subrange(i as int, to as int),
                pat@,
            ) {
                Some(k) => Some((k + (i - from)) as nat),
                None => None::<nat>,
            }),
        decreases to - i,
    {
        let ghost s = v@.subrange(i as int, to as int);
        let hit = occurs_at(v, i, to, pat);
        if hit {
            assert(s.take(pat.len() as int) =~= v@.subrange(i as int, i + pat.len()));
            return Some(i - from);
        }
        if pat.len() <= to - i {
            assert(s.take(pat.len() as int) =~= v@.subrange(i as int, i + pat.len()));
        }
        if i == to {
            return None;
        }
        assert(s.drop_first() =~= v@.subrange(i + 1, to as int));
        i += 1;
    }
}

/// `l` without one trailing carriage return.
pub open spec fn strip_cr(l: Seq<char>) -> Seq<char> {
    if l.len() > 0 && l.last() == '\r' {
        l.drop_last()
    } else {
        l
    }
}

/// The lines of `s` (std's `str::lines`): split at `\n`, a `\r` before the
/// `\n` dropped, and no empty last line after a final `\n`.
pub open spec fn lines(s: Seq<char>) -> Seq<Seq<char>>
    decreases s.len(),
{
    if s.len() == 0 {
        seq![]
    } else {
        match find_char(s, '\n') {
            None => seq![s],
            Some(i) => if i < s.len() {
                seq![strip_cr(s.take(i as int))] + lines(s.skip(i + 1 as int))
            } else {
                seq![s]
            },
        }
    }
}

/// The lines of `v`, each as the pair of its bounds in `v`.
pub fn line_bounds(v: &Vec<char>) -> (r: Vec<(usize, usize)>)
    ensures
        forall|k: int| 0 <= k < r.len() ==> #[trigger] r@[k].0 <= r@[k].1 <= v.len(),
        r@.map_values(|b: (usize, usize)| v@.subrange(b.0 as int, b.1 as int)) == lines(v@),
{
    let mut r: Vec<(usize, usize)> = Vec::new();
    let mut i: usize = 0;
    assert(v@.skip(0) =~= v@);
    while i < v.len()
        invariant
            i <= v.len(),
            forall|k: int| 0 <= k < r.len() ==> #[trigger] r@[k].0 <= r@[k].1 <= v.len(),
            r@.map_values(|b: (usize, usize)| v@.subrange(b.0 as int, b.1 as int)) + lines(
                v@.skip(i as int),
            ) == lines(v@),
        decreases v.len() - i,
    {
        let ghost s = v@.skip(i as int);
        let mut j: usize = i;
        while j < v.len() && v[j] != '\n'
            invariant
                i <= j <= v.len(),
                s == v@.skip(i as int),
                forall|k: int| 0 <= k < j - i ==> #[trigger] s[k] != '\n',
            decreases v.len() - j,
        {
            assert(s[j - i] == v@[j as int]);
            j += 1;
        }
        proof {
            if j < v.len() {
                assert(s[j - i] == v@[j as int]);
            }
            lemma_find_char_exact(s, '\n', (j - i) as int);
        }
        let ghost old_r = r@;
        if j < v.len() {
            let e = if j > i && v[j - 1] == '\r' {
                j - 1
            } else {
                j
            };
            r.push((i, e));
            assert(strip_cr(s.take((j - i) as int)) =~= v@.subrange(i as int, e as int));
            assert(s.skip(j - i + 1) =~= v@.skip(j + 1));
            assert(r@.map_values(|b: (usize, usize)| v@.subrange(b.0 as int, b.1 as int))
                =~= old_r.map_values(|b: (usize, usize)| v@.subrange(b.0 as int, b.1 as int))
                + seq![v@.subrange(i as int, e as int)]);
            i = j + 1;
        } else {
            r.push((i, j));
            assert(s =~= v@.subrange(i as int, j as int));
            assert(v@.skip(j as int) =~= Seq::<char>::empty());
            assert(r@.map_values(|b: (usize, usize)| v@.subrange(b.0 as int, b.1 as int))
                =~= old_r.map_values(|b: (usize, usize)| v@.subrange(b.0 as int, b.1 as int))
                + seq![v@.subrange(i as int, j as int)]);
            i = j;
        }
    }
    assert(v@.skip(i as int) =~= Seq::<char>::empty());
    assert(r@.map_values(|b: (usize, usize)| v@.subrange(b.0 as int, b.1 as int)) + lines(
        Seq::<char>::empty(),
    ) =~= r@.map_values(|b: (usize, usize)| v@.subrange(b.0 as int, b.1 as int)));
    r
}

/// `words` joined with `sep` between neighbours (std's `join`).
pub open spec fn join(words: Seq<Seq<char>>, sep: Seq<char>) -> Seq<char>
    decreases words.len(),
{
    if words.len() == 0 {
        seq![]
    } else if words.len() == 1 {
        words[0]
    } else {
        join(words.drop_last(), sep) + sep + words.last()
    }
}

/// `words` joined with `sep` between neighbours.
pub fn join_strings(words: &Vec<String>, sep: &str) -> (r: String)
    ensures
        r@ == join(views(words@), sep@),
{
    let mut r = String::new();
    let mut i: usize = 0;
    while i < words.len()
        invariant
            i <= words.len(),
            r@ == join(views(words@).take(i as int), sep@),
        decreases words.len() - i,
    {
        if i > 0 {
            r = concat_str(&r, sep);
        }
        r = concat_str(&r, words[i].as_str());
        i += 1;
        assert(views(words@).take(i as int).drop_last() =~= views(words@).take(i - 1));
        if i == 1 {
            assert(r@ =~= views(words@).take(1)[0]);
        }
    }
    assert(views(words@).take(words.len() as int) =~= views(words@));
    r
}


pub proof fn lemma_find_sub(s: Seq<char>, pat: Seq<char>)
    ensures
        find_sub(s, pat) matches Some(i) ==> i + pat.len() <= s.len() && s.subrange(
            i as int,
            i + pat.len() as int,
        ) == pat,
    decreases s.len(),
{
    if s.len() < pat.len() {
    } else if s.take(pat.len() as int) == pat {
        assert(s.subrange(0, pat.len() as int) =~= s.take(pat.len() as int));
    } else if s.len() == 0 {
    } else {
        lemma_find_sub(s.drop_first(), pat);
        match find_sub(s.drop_first(), pat) {
            Some(i) => {
                assert(s.subrange(i + 1 as int, i + 1 + pat.len() as int) =~= s.drop_first().subrange(
                    i as int,
                    i + pat.len() as int,
                ));
            },
            None => {},
        }
    }
}

/// The bounds of the pieces of `v[from..to]` between occurrences of `c`.
pub fn split_char_ranges(v: &Vec<char>, from: usize, to: usize, c: char) -> (r: Vec<(usize, usize)>)
    requires
        from <= to <= v.len(),
    ensures
        forall|k: int| 0 <= k < r.len() ==> from <= #[trigger] r@[k].0 <= r@[k].1 <= to,
        r@.map_values(|b: (usize, usize)| v@.subrange(b.0 as int, b.1 as int)) == split_char(
            v@.subrange(from as int, to as int),
            c,
        ),
{
    let mut r: Vec<(usize, usize)> = Vec::new();
    let mut i: usize = from;
    loop
        invariant
            from <= i <= to <= v.len(),
            forall|k: int| 0 <= k < r.len() ==> from <= #[trigger] r@[k].0 <= r@[k].1 <= to,
            r@.map_values(|b: (usize, usize)| v@.subrange(b.0 as int, b.1 as int)) + split_char(
                v@.subrange(i as int, to as int),
                c,
            ) == split_char(v@.subrange(from as int, to as int), c),
        decreases to - i,
    {
        let ghost s = v@.subrange(i as int, to as int);
        let mut j: usize = i;
        while j < to && v[j] != c
            invariant
                i <= j <= to <= v.len(),
                s == v@.subrange(i as int, to as int),
                forall|k: int| 0 <= k < j - i ==> #[trigger] s[k] != c,
            decreases to - j,
        {
            assert(s[j - i] == v@[j as int]);
            j += 1;
        }
        proof {
            if j < to {
                assert(s[j - i] == v@[j as int]);
            }
            lemma_find_char_exact(s, c, (j - i) as int);
        }
        let ghost old_r = r@;
        r.push((i, j));
        assert(r@.map_values(|b: (usize, usize)| v@.subrange(b.0 as int, b.1 as int))
            =~= old_r.map_values(|b: (usize, usize)| v@.subrange(b.0 as int, b.1 as int))
            + seq![v@.subrange(i as int, j as int)]);
        if j == to {
            assert(s =~= v@.subrange(i as int, j as int));
            assert(r@.map_values(|b: (usize, usize)| v@.subrange(b.0 as int, b.1 as int))
                =~= old_r.map_values(|b: (usize, usize)| v@.subrange(b.0 as int, b.1 as int))
                + split_char(s, c));
            return r;
        }
        assert(s.take((j - i) as int) =~= v@.subrange(i as int, j as int));
        assert(s.skip(j - i + 1) =~= v@.subrange(j + 1, to as int));
        i = j + 1;
    }
}

/// Whether `v[from..to]` holds only white space.
pub fn blank_range(v: &Vec<char>, from: usize, to: usize) -> (b: bool)
    requires
        from <= to <= v.len(),
    ensures
        b == blank(v@.subrange(from as int, to as int)),
{
    let ghost s = v@.subrange(from as int, to as int);
    let mut i: usize = from;
    while i < to
        invariant
            from <= i <= to <= v.len(),
            s == v@.subrange(from as int, to as int),
            forall|k: int| 0 <= k < i - from ==> is_ws(#[trigger] s[k]),
        decreases to - i,
    {
        assert(s[i - from] == v@[i as int]);
        if !is_whitespace(v[i]) {
            return false;
        }
        i += 1;
    }
    true
}


/// The value of a digit character.
pub open spec fn digit_value(c: char) -> int {
    c as int - '0' as int
}

/// Every character of `s` is a decimal digit.
pub open spec fn all_digits(s: Seq<char>) -> bool {
    forall|i: int| 0 <= i < s.len() ==> '0' <= #[trigger] s[i] <= '9'
}

/// The value of the decimal digits `s`.
pub open spec fn digits_value(s: Seq<char>) -> int
    decreases s.len(),
{
    if s.len() == 0 {
        0
    } else {
        digits_value(s.drop_last()) * 10 + digit_value(s.last())
    }
}

/// The digits of `s` after an optional leading `+`.
pub open spec fn unsigned_digits(s: Seq<char>) -> Seq<char> {
    if s.len() > 0 && s[0] == '+' {
        s.drop_first()
    } else {
        s
    }
}

/// What std's `str::parse::<usize>` gives: an optional `+`, then one or more
/// decimal digits whose value fits in `usize`.
pub open spec fn parse_usize(s: Seq<char>) -> Option<usize> {
    let d = unsigned_digits(s);
    if d.len() > 0 && all_digits(d) && digits_value(d) <= usize::MAX {
        Some(digits_value(d) as usize)
    } else {
        None
    }
}

/// What std's `str::parse::<i128>` gives: an optional sign, then one or more
/// decimal digits whose signed value fits in `i128`.
pub open spec fn parse_i128(s: Seq<char>) -> Option<i128> {
    if s.len() > 0 && s[0] == '-' {
        let d = s.drop_first();
        if d.len() > 0 && all_digits(d) && digits_value(d) <= 0x8000_0000_0000_0000_0000_0000_0000_0000 {
            Some((-digits_value(d)) as i128)
        } else {
            None
        }
    } else {
        let d = unsigned_digits(s);
        if d.len() > 0 && all_digits(d) && digits_value(d) <= i128::MAX {
            Some(digits_value(d) as i128)
        } else {
            None
        }
    }
}

proof fn lemma_digits_value_nonneg(s: Seq<char>)
    requires
        all_digits(s),
    ensures
        digits_value(s) >= 0,
    decreases s.len(),
{
    if s.len() > 0 {
        assert(all_digits(s.drop_last())) by {
            assert forall|i: int| 0 <= i < s.drop_last().len() implies '0' <= #[trigger] s.drop_last()[i] <= '9' by {
                assert(s.drop_last()[i] == s[i]);
            }
        }
        lemma_digits_value_nonneg(s.drop_last());
        assert('0' <= s[s.len() - 1] <= '9');
    }
}

/// A prefix of a digit string is worth no more than the whole.
proof fn lemma_digits_prefix(s: Seq<char>, k: int)
    requires
        all_digits(s),
        0 <= k <= s.len(),
    ensures
        digits_value(s.take(k)) <= digits_value(s),
    decreases s.len(),
{
    if k < s.len() {
        let t = s.drop_last();
        assert(all_digits(t)) by {
            assert forall|i: int| 0 <= i < t.len() implies '0' <= #[trigger] t[i] <= '9' by {
                assert(t[i] == s[i]);
            }
        }
        lemma_digits_prefix(t, k);
        assert(t.take(k) =~= s.take(k));
        lemma_digits_value_nonneg(t);
        assert('0' <= s[s.len() - 1] <= '9');
    } else {
        assert(s.take(k) =~= s);
    }
}

/// The value of the digits `v[from..to]`, if they are all digits and the
/// value is at most `limit`.
fn digits_upto(v: &Vec<char>, from: usize, to: usize, limit: u128) -> (r: Option<u128>)
    requires
        from <= to <= v.len(),
        limit >= 9,
    ensures
        match r {
            Some(x) => all_digits(v@.subrange(from as int, to as int)) && x == digits_value(v@.subrange(from as int, to as int)) && x <= limit,
            None => !(all_digits(v@.subrange(from as int, to as int)) && digits_value(v@.subrange(from as int, to as int)) <= limit),
        },
{
    let mut x: u128 = 0;
    let mut i: usize = from;
    while i < to
        invariant
            from <= i <= to <= v.len(),
            all_digits(v@.subrange(from as int, i as int)),
            x == digits_value(v@.subrange(from as int, i as int)),
            x <= limit,
            limit >= 9,
        decreases to - i,
    {
        let ghost pre = v@.subrange(from as int, i as int);
        let ghost next = v@.subrange(from as int, i + 1);
        assert(next.drop_last() =~= pre);
        assert(next.last() == v@[i as int]);
        let c = v[i];
        if !('0' <= c && c <= '9') {
            assert(!all_digits(v@.subrange(from as int, to as int))) by {
                assert(v@.subrange(from as int, to as int)[i - from] == c);
            }
            return None;
        }
        let d = (c as u32 - '0' as u32) as u128;
        assert(d == digit_value(c));
        assert(d <= 9);
        if x > (limit - d) / 10 {
            proof {
                assert(digits_value(next) > limit) by (nonlinear_arith)
                    requires
                        digits_value(next) == x * 10 + d,
                        x > (limit - d) / 10,
                        0 <= d <= 9,
                        d <= limit,
                ;
                let whole = v@.subrange(from as int, to as int);
                if all_digits(whole) {
                    assert(whole.take(i + 1 - from) =~= next);
                    lemma_digits_prefix(whole, i + 1 - from);
                }
            }
            return None;
        }
        proof {
            assert(x * 10 + d <= limit) by (nonlinear_arith)
                requires
                    x <= (limit - d) / 10,
                    0 <= d <= 9,
                    d <= limit,
            ;
        }
        x = x * 10 + d;
        i += 1;
        assert(all_digits(v@.subrange(from as int, i as int))) by {
            assert forall|j: int| 0 <= j < next.len() implies '0' <= #[trigger] next[j] <= '9' by {
                if j < pre.len() {
                    assert(next[j] == pre[j]);
                }
            }
        }
    }
    Some(x)
}

/// Reads a `usize` as std's `str::parse::<usize>` does.
pub fn parse_usize_str(s: &str) -> (r: Option<usize>)
    ensures
        r == parse_usize(s@),
{
    let v = chars_of(s);
    let mut from: usize = 0;
    if v.len() > 0 && v[0] == '+' {
        from = 1;
    }
    assert(v@.subrange(from as int, v.len() as int) =~= unsigned_digits(s@));
    if from == v.len() {
        return None;
    }
    match digits_upto(&v, from, v.len(), usize::MAX as u128) {
        Some(x) => Some(x as usize),
        None => None,
    }
}

/// Reads an `i128` as std's `str::parse::<i128>` does.
pub fn parse_i128_str(s: &str) -> (r: Option<i128>)
    ensures
        r == parse_i128(s@),
{
    let v = chars_of(s);
    if v.len() > 0 && v[0] == '-' {
        assert(v@.subrange(1, v.len() as int) =~= s@.drop_first());
        if v.len() == 1 {
            return None;
        }
        match digits_upto(&v, 1, v.len(), 0x8000_0000_0000_0000_0000_0000_0000_0000u128) {
            Some(x) => {
                if x == 0x8000_0000_0000_0000_0000_0000_0000_0000u128 {
                    Some(i128::MIN)
                } else {
                    let y = x as i128;
                    Some(-y)
                }
            },
            None => None,
        }
    } else {
        let mut from: usize = 0;
        if v.len() > 0 && v[0] == '+' {
            from = 1;
        }
        assert(v@.subrange(from as int, v.len() as int) =~= unsigned_digits(s@));
        if from == v.len() {
            return None;
        }
        match digits_upto(&v, from, v.len(), i128::MAX as u128) {
            Some(x) => Some(x as i128),
            None => None,
        }
    }
}

/// The decimal digits of `n`, as `{}` formats an integer.
pub open spec fn decimal(n: nat) -> Seq<char>
    decreases n,
{
    if n < 10 {
        seq![(n + '0' as nat) as char]
    } else {
        decimal(n / 10).push(((n % 10) + '0' as nat) as char)
    }
}

/// The decimal digits of `n`.
pub fn decimal_string(n: usize) -> (r: String)
    ensures
        r@ == decimal(n as nat),
    decreases n,
{
    let d = n % 10;
    let c = if d == 0 {
        '0'
    } else if d == 1 {
        '1'
    } else if d == 2 {
        '2'
    } else if d == 3 {
        '3'
    } else if d == 4 {
        '4'
    } else if d == 5 {
        '5'
    } else if d == 6 {
        '6'
    } else if d == 7 {
        '7'
    } else if d == 8 {
        '8'
    } else {
        '9'
    };
    assert(c == ((d + '0' as nat) as char));
    if n < 10 {
        let mut r = String::new();
        r.push(c);
        assert(r@ =~= seq![c]);
        r
    } else {
        let mut r = decimal_string(n / 10);
        r.push(c);
        r
    }
}
/// The decimal digits of a number are digits, do not start with `+`, and
/// read back as the number.
pub proof fn lemma_decimal_digits(n: nat)
    ensures
        decimal(n).len() > 0,
        all_digits(decimal(n)),
        digits_value(decimal(n)) == n,
    decreases n,
{
    let c = ((n % 10) + '0' as nat) as char;
    assert(digit_value(c) == n % 10);
    if n < 10 {
        assert(n % 10 == n);
        let e = decimal(n);
        assert(e == seq![c]);
        assert(e.drop_last() =~= Seq::<char>::empty());
        assert(e.last() == c);
        assert(digits_value(e) == digits_value(e.drop_last()) * 10 + digit_value(e.last()));
    }
    if n >= 10 {
        lemma_decimal_digits(n / 10);
        let d = decimal(n / 10);
        let e = decimal(n);
        assert(e == d.push(((n % 10) + '0' as nat) as char));
        assert(e.drop_last() =~= d);
        assert(e.last() == c);
        assert(digits_value(e) == digits_value(d) * 10 + digit_value(c));
        assert(n == (n / 10) * 10 + n % 10) by (nonlinear_arith);
        assert forall|i: int| 0 <= i < e.len() implies '0' <= #[trigger] e[i] <= '9' by {
            if i < d.len() {
                assert(e[i] == d[i]);
            }
        }
    }
}

/// Reading the decimal digits of a number gives the number back, as std's
/// `str::parse::<usize>` does.
pub proof fn lemma_parse_decimal(n: usize)
    ensures
        parse_usize(decimal(n as nat)) == Some(n),
{
    lemma_decimal_digits(n as nat);
    let d = decimal(n as nat);
    assert('0' <= d[0] <= '9');
    assert(unsigned_digits(d) == d);
}

/// A text takes at least one byte a character.
pub proof fn lemma_utf8_len_lower(s: Seq<char>)
    ensures
        utf8_len(s) >= s.len(),
    decreases s.len(),
{
    if s.len() > 0 {
        lemma_utf8_len_lower(s.drop_last());
    }
}

/// Signed numbers read back as std's `str::parse::<i128>` reads them: the
/// digits of a number give the number, the same digits after `-` give its
/// negation, and after `+` the number again.
pub proof fn lemma_parse_signed_decimal(n: nat)
    ensures
        n <= i128::MAX ==> parse_i128(decimal(n)) == Some(n as i128),
        n <= i128::MAX ==> parse_i128(seq!['+'] + decimal(n)) == Some(n as i128),
        n <= 0x8000_0000_0000_0000_0000_0000_0000_0000 ==> parse_i128(seq!['-'] + decimal(n)) == Some((-n) as i128),
        n <= usize::MAX ==> parse_usize(seq!['+'] + decimal(n)) == Some(n as usize),
{
    lemma_decimal_digits(n);
    let d = decimal(n);
    assert('0' <= d[0] <= '9');
    assert(unsigned_digits(d) == d);
    assert((seq!['+'] + d)[0] == '+');
    assert((seq!['+'] + d).drop_first() =~= d);
    assert(unsigned_digits(seq!['+'] + d) == d);
    assert((seq!['-'] + d)[0] == '-');
    assert((seq!['-'] + d).drop_first() =~= d);
    assert((seq!['+'] + d).len() > 0);
}

} // verus!

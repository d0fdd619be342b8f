//! Scanning of text, character by character.

use vstd::prelude::*;
use vstd::string::*;

use crate::views;

verus! {

/// Whether `c` has the Unicode property `White_Space`.
pub open spec fn is_white_space(c: char) -> bool {
    let u = c as u32;
    ||| 0x09 <= u <= 0x0D
    ||| u == 0x20
    ||| u == 0x85
    ||| u == 0xA0
    ||| u == 0x1680
    ||| 0x2000 <= u <= 0x200A
    ||| u == 0x2028
    ||| u == 0x2029
    ||| u == 0x202F
    ||| u == 0x205F
    ||| u == 0x3000
}

/// Decides whether `c` has the Unicode property `White_Space`.
pub fn char_is_white_space(c: char) -> (r: bool)
    ensures
        r == is_white_space(c),
{
    let u: u32 = c as u32;
    (0x09 <= u && u <= 0x0D) || u == 0x20 || u == 0x85 || u == 0xA0 || u == 0x1680 || (0x2000 <= u
        && u <= 0x200A) || u == 0x2028 || u == 0x2029 || u == 0x202F || u == 0x205F || u == 0x3000
}

/// `s` without the white space that it begins with.
pub open spec fn trim_start(s: Seq<char>) -> Seq<char>
    decreases s.len(),
{
    if s.len() > 0 && is_white_space(s[0]) {
        trim_start(s.drop_first())
    } else {
        s
    }
}

/// `s` without the white space that it ends with.
pub open spec fn trim_end(s: Seq<char>) -> Seq<char>
    decreases s.len(),
{
    if s.len() > 0 && is_white_space(s.last()) {
        trim_end(s.drop_last())
    } else {
        s
    }
}

/// `s` without the white space at both of its ends.
pub open spec fn trimmed(s: Seq<char>) -> Seq<char> {
    trim_end(trim_start(s))
}

/// `s` without all of its white space.
pub open spec fn dense(s: Seq<char>) -> Seq<char>
    decreases s.len(),
{
    if s.len() == 0 {
        seq![]
    } else if is_white_space(s.last()) {
        dense(s.drop_last())
    } else {
        dense(s.drop_last()).push(s.last())
    }
}

/// Leaving out white space commutes with concatenation.
pub proof fn lemma_dense_add(a: Seq<char>, b: Seq<char>)
    ensures
        dense(a + b) == dense(a) + dense(b),
    decreases b.len(),
{
    if b.len() == 0 {
        assert(a + b =~= a);
        assert(dense(a) + dense(b) =~= dense(a));
    } else {
        assert((a + b).drop_last() =~= a + b.drop_last());
        assert((a + b).last() == b.last());
        lemma_dense_add(a, b.drop_last());
        assert(dense(a + b) =~= dense(a) + dense(b));
    }
}

proof fn lemma_dense_trim_end(s: Seq<char>)
    ensures
        dense(trim_end(s)) == dense(s),
    decreases s.len(),
{
    if s.len() > 0 && is_white_space(s.last()) {
        lemma_dense_trim_end(s.drop_last());
    }
}

proof fn lemma_dense_trim_start(s: Seq<char>)
    ensures
        dense(trim_start(s)) == dense(s),
    decreases s.len(),
{
    if s.len() > 0 && is_white_space(s[0]) {
        let first = seq![s[0]];
        lemma_dense_trim_start(s.drop_first());
        lemma_dense_add(first, s.drop_first());
        assert(first + s.drop_first() =~= s);
        assert(dense(first) =~= seq![]) by {
            assert(first.drop_last() =~= seq![]);
            reveal_with_fuel(dense, 2);
        }
        assert(dense(first) + dense(s.drop_first()) =~= dense(s.drop_first()));
    }
}

/// Trimming takes away nothing but white space.
pub proof fn lemma_dense_trimmed(s: Seq<char>)
    ensures
        dense(trimmed(s)) == dense(s),
{
    lemma_dense_trim_start(s);
    lemma_dense_trim_end(trim_start(s));
}

/// The characters of a text, in order.
pub fn chars_of(s: &str) -> (r: Vec<char>)
    ensures
        r@ == s@,
{
    let mut r: Vec<char> = Vec::new();
    for c in it: s.chars()
        invariant
            it.seq() == s@,
            r@ == s@.take(it.index() as int),
    {
        r.push(c);
        assert(s@.take(it.index() as int + 1) =~= s@.take(it.index() as int).push(c));
    }
    assert(s@.take(s@.len() as int) =~= s@);
    r
}

/// The text without the white space at both of its ends.
pub fn trim_text(s: &str) -> (r: &str)
    ensures
        r@ == trimmed(s@),
{
    let chars = chars_of(s);
    let n: usize = chars.len();
    let mut start: usize = 0;
    assert(s@.subrange(0, n as int) =~= s@);
    while start < n && char_is_white_space(chars[start])
        invariant
            start <= n,
            n == chars@.len(),
            chars@ == s@,
            trim_start(s@) == trim_start(s@.subrange(start as int, n as int)),
        decreases n - start,
    {
        assert(s@.subrange(start as int, n as int).drop_first() =~= s@.subrange(
            start + 1,
            n as int,
        ));
        start = start + 1;
    }
    let ghost mid = s@.subrange(start as int, n as int);
    assert(trim_start(s@) == mid);
    let mut end: usize = n;
    while end > start && char_is_white_space(chars[end - 1])
        invariant
            start <= end <= n,
            n == chars@.len(),
            chars@ == s@,
            trim_end(mid) == trim_end(s@.subrange(start as int, end as int)),
        decreases end,
    {
        assert(s@.subrange(start as int, end as int).drop_last() =~= s@.subrange(
            start as int,
            end - 1,
        ));
        end = end - 1;
    }
    s.substring_char(start, end)
}

/// Decides whether two texts are the same.
pub fn text_eq(a: &str, b: &str) -> (r: bool)
    ensures
        r == (a@ == b@),
{
    let x = chars_of(a);
    let y = chars_of(b);
    if x.len() != y.len() {
        return false;
    }
    let n: usize = x.len();
    let mut i: usize = 0;
    while i < n
        invariant
            i <= n,
            n == x@.len(),
            n == y@.len(),
            x@ == a@,
            y@ == b@,
            forall|j: int| 0 <= j < i ==> x@[j] == y@[j],
        decreases n - i,
    {
        if x[i] != y[i] {
            return false;
        }
        i = i + 1;
    }
    assert(a@ =~= b@);
    true
}

/// What follows `prefix` in `s`, where `s` begins with it.
pub fn strip_prefix<'a>(s: &'a str, prefix: &str) -> (r: Option<&'a str>)
    ensures
        match r {
            Some(rest) => s@ == prefix@ + rest@,
            None => !prefix@.is_prefix_of(s@),
        },
{
    let x = chars_of(s);
    let y = chars_of(prefix);
    if x.len() < y.len() {
        return None;
    }
    let n: usize = y.len();
    let mut i: usize = 0;
    while i < n
        invariant
            i <= n,
            n == y@.len(),
            n <= x@.len(),
            x@ == s@,
            y@ == prefix@,
            forall|j: int| 0 <= j < i ==> x@[j] == y@[j],
        decreases n - i,
    {
        if x[i] != y[i] {
            assert(prefix@ != s@.subrange(0, prefix@.len() as int)) by {
                assert(s@.subrange(0, prefix@.len() as int)[i as int] == x@[i as int]);
            }
            return None;
        }
        i = i + 1;
    }
    let rest = s.substring_char(n, x.len());
    assert(s@ =~= prefix@ + rest@);
    Some(rest)
}

/// The position of the first `c` in `s`, or the length of `s` where there is none.
pub open spec fn position(s: Seq<char>, c: char) -> nat
    decreases s.len(),
{
    if s.len() == 0 || s[0] == c {
        0
    } else {
        1 + position(s.drop_first(), c)
    }
}

/// A position lies within the text, and names the first occurrence.
pub proof fn lemma_position(s: Seq<char>, c: char)
    ensures
        position(s, c) <= s.len(),
        position(s, c) < s.len() ==> s[position(s, c) as int] == c,
        forall|j: int| 0 <= j < position(s, c) ==> s[j] != c,
    decreases s.len(),
{
    if s.len() > 0 && s[0] != c {
        lemma_position(s.drop_first(), c);
        assert forall|j: int| 0 <= j < position(s, c) implies s[j] != c by {
            if j > 0 {
                assert(s[j] == s.drop_first()[j - 1]);
            }
        }
    }
}

/// A line without the carriage return that stood before its line feed.
pub open spec fn without_cr(line: Seq<char>) -> Seq<char> {
    if line.len() > 0 && line.last() == '\r' {
        line.drop_last()
    } else {
        line
    }
}

/// The lines of `s`. A line ends at a line feed, or at a carriage return with a line feed
/// behind it; the ending of the last line is optional.
pub open spec fn lines(s: Seq<char>) -> Seq<Seq<char>>
    decreases s.len(),
{
    let i = position(s, '\n') as int;
    if s.len() == 0 {
        seq![]
    } else if i >= s.len() {
        seq![s]
    } else {
        seq![without_cr(s.take(i))] + lines(s.skip(i + 1))
    }
}

/// The lines of a text.
pub fn lines_of(s: &str) -> (r: Vec<String>)
    ensures
        views::of(r@) == lines(s@),
{
    broadcast use views::group_views;

    let chars = chars_of(s);
    let n: usize = chars.len();
    let mut r: Vec<String> = Vec::new();
    let mut start: usize = 0;
    let mut i: usize = 0;
    assert(s@.skip(0) =~= s@);
    assert(views::of(r@) + lines(s@) =~= lines(s@));
    while i < n
        invariant
            start <= i <= n,
            n == chars@.len(),
            chars@ == s@,
            forall|j: int| start <= j < i ==> s@[j] != '\n',
            views::of(r@) + lines(s@.skip(start as int)) == lines(s@),
        decreases n - i,
    {
        if chars[i] == '\n' {
            let ghost rest = s@.skip(start as int);
            let ghost before = r@;
            proof {
                lemma_position(rest, '\n');
                assert(rest[i - start] == '\n');
                assert(position(rest, '\n') == i - start) by {
                    let p = position(rest, '\n') as int;
                    if p < i - start {
                        assert(rest[p] == s@[start + p]);
                    }
                }
                assert(rest.skip(i - start + 1) =~= s@.skip(i + 1));
                assert(rest.take(i - start) =~= s@.subrange(start as int, i as int));
            }
            let end: usize = if i > start && chars[i - 1] == '\r' {
                i - 1
            } else {
                i
            };
            let line = s.substring_char(start, end);
            assert(line@ =~= without_cr(rest.take(i - start)));
            r.push(line.to_owned());
            start = i + 1;
            assert(views::of(before) + lines(rest) =~= views::of(r@) + lines(s@.skip(start as int)));
        }
        i = i + 1;
    }
    let ghost rest = s@.skip(start as int);
    if start < n {
        proof {
            lemma_position(rest, '\n');
            let p = position(rest, '\n') as int;
            if p < rest.len() {
                assert(rest[p] == s@[start + p]);
            }
        }
        let ghost before = r@;
        let line = s.substring_char(start, n);
        assert(line@ =~= rest);
        r.push(line.to_owned());
        assert(views::of(before) + lines(rest) =~= views::of(r@));
    } else {
        assert(views::of(r@) + lines(rest) =~= views::of(r@));
    }
    r
}

/// The code points that are white space.
pub open spec fn white_space() -> Seq<u32> {
    seq![
        0x09,
        0x0A,
        0x0B,
        0x0C,
        0x0D,
        0x20,
        0x85,
        0xA0,
        0x1680,
        0x2000,
        0x2001,
        0x2002,
        0x2003,
        0x2004,
        0x2005,
        0x2006,
        0x2007,
        0x2008,
        0x2009,
        0x200A,
        0x2028,
        0x2029,
        0x202F,
        0x205F,
        0x3000,
    ]
}

/// White space is what Unicode lists as such, and nothing else: no character that can be seen.
pub proof fn law_white_space(c: char, r: bool)
    requires
        call_ensures(char_is_white_space, (c,), r),
    ensures
        r <==> white_space().contains(c as u32),
        '!' <= c && c <= '~' ==> !r,
        r == is_white_space(c),
{
    let w = white_space();
    let u = c as u32;
    if r {
        let i: int = if u <= 0x0D {
            u - 0x09
        } else if u == 0x20 {
            5
        } else if u == 0x85 {
            6
        } else if u == 0xA0 {
            7
        } else if u == 0x1680 {
            8
        } else if u <= 0x200A {
            9 + (u - 0x2000)
        } else if u == 0x2028 {
            20
        } else if u == 0x2029 {
            21
        } else if u == 0x202F {
            22
        } else if u == 0x205F {
            23
        } else {
            24
        };
        assert(w[i] == u);
    }
}

/// Whether `s` holds nothing but white space.
pub open spec fn is_blank(s: Seq<char>) -> bool {
    forall|i: int| 0 <= i < s.len() ==> is_white_space(#[trigger] s[i])
}

proof fn lemma_trim_start_cut(s: Seq<char>) -> (cut: Seq<char>)
    ensures
        s == cut + trim_start(s),
        is_blank(cut),
        trim_start(s).len() > 0 ==> !is_white_space(trim_start(s)[0]),
    decreases s.len(),
{
    if s.len() > 0 && is_white_space(s[0]) {
        let rest = lemma_trim_start_cut(s.drop_first());
        let cut = seq![s[0]] + rest;
        assert(s =~= seq![s[0]] + s.drop_first());
        assert(seq![s[0]] + (rest + trim_start(s.drop_first())) =~= cut + trim_start(s));
        cut
    } else {
        assert(s =~= Seq::<char>::empty() + s);
        seq![]
    }
}

proof fn lemma_trim_end_cut(s: Seq<char>) -> (cut: Seq<char>)
    ensures
        s == trim_end(s) + cut,
        is_blank(cut),
        trim_end(s).len() > 0 ==> !is_white_space(trim_end(s).last()),
        trim_end(s).len() > 0 ==> trim_end(s)[0] == s[0],
    decreases s.len(),
{
    if s.len() > 0 && is_white_space(s.last()) {
        let rest = lemma_trim_end_cut(s.drop_last());
        let cut = rest.push(s.last());
        assert(s =~= s.drop_last().push(s.last()));
        assert((trim_end(s.drop_last()) + rest).push(s.last()) =~= trim_end(s) + cut);
        cut
    } else {
        assert(s =~= s + Seq::<char>::empty());
        seq![]
    }
}

/// Whether `t` is `s` without the white space around it, and with all that stands between.
pub open spec fn is_core(t: Seq<char>, s: Seq<char>) -> bool {
    &&& exists|before: Seq<char>, behind: Seq<char>|
        is_blank(before) && is_blank(behind) && #[trigger] (before + t + behind) == s
    &&& t.len() > 0 ==> !is_white_space(t[0]) && !is_white_space(t.last())
}

/// Trimming takes the white space at both ends away, all of it, and nothing else: all between the
/// ends stays as it is.
pub proof fn law_trimming(s: Seq<char>)
    ensures
        is_core(trimmed(s), s),
        trimmed(s).len() == 0 <==> is_blank(s),
        !is_blank(s) ==> trimmed(s).len() > 0,
{
    let before = lemma_trim_start_cut(s);
    let mid = trim_start(s);
    let behind = lemma_trim_end_cut(mid);
    let t = trimmed(s);
    assert(before + t + behind =~= s);
    assert(is_core(t, s));
    if t.len() == 0 {
        assert forall|i: int| 0 <= i < s.len() implies is_white_space(#[trigger] s[i]) by {
            if i < before.len() {
                assert(s[i] == before[i]);
            } else {
                assert(s[i] == behind[i - before.len()]);
            }
        }
    } else {
        assert(s[before.len() as int] == t[0]);
        assert(!is_white_space(s[before.len() as int]));
    }
}

/// A text is trimmed to its core.
pub proof fn law_text_is_trimmed(s: &str, r: &str)
    requires
        call_ensures(trim_text, (s,), r),
    ensures
        is_core(r@, s@),
{
    law_trimming(s@);
}

/// Without its white space a text holds the same characters in the same order: a text without any
/// stays as it is, and putting texts together puts together what they hold.
pub proof fn law_dense(a: Seq<char>, b: Seq<char>, c: char)
    ensures
        dense(a + b) == dense(a) + dense(b),
        !is_white_space(c) ==> dense(seq![c]) == seq![c],
        is_white_space(c) ==> dense(seq![c]).len() == 0,
        dense(a).len() == 0 <==> is_blank(a),
    decreases a.len(),
{
    lemma_dense_add(a, b);
    assert(seq![c].drop_last() =~= seq![]);
    reveal_with_fuel(dense, 2);
    assert(!is_white_space(c) ==> dense(seq![c]) =~= seq![c]);
    lemma_dense_empty(a);
}

proof fn lemma_dense_empty(a: Seq<char>)
    ensures
        dense(a).len() == 0 <==> is_blank(a),
    decreases a.len(),
{
    if a.len() > 0 {
        lemma_dense_empty(a.drop_last());
        if is_white_space(a.last()) {
            if is_blank(a.drop_last()) {
                assert forall|i: int| 0 <= i < a.len() implies is_white_space(#[trigger] a[i]) by {
                    if i < a.len() - 1 {
                        assert(a.drop_last()[i] == a[i]);
                    }
                }
            }
            if is_blank(a) {
                assert forall|i: int| 0 <= i < a.len() - 1 implies is_white_space(
                    #[trigger] a.drop_last()[i],
                ) by {
                    assert(a.drop_last()[i] == a[i]);
                }
            }
        } else {
            assert(!is_white_space(a[a.len() - 1]));
        }
    }
}

/// A text begins with a line up to its first line feed, without the carriage return before it,
/// and goes on with the lines behind it. A text without a line feed is one line, and an empty text
/// none.
pub proof fn law_lines(line: Seq<char>, rest: Seq<char>)
    requires
        forall|i: int| 0 <= i < line.len() ==> #[trigger] line[i] != '\n',
    ensures
        lines(line + seq!['\n'] + rest) == seq![
            if line.len() > 0 && line.last() == '\r' {
                line.drop_last()
            } else {
                line
            },
        ] + lines(rest),
        line.len() > 0 ==> lines(line) == seq![line],
        lines(Seq::<char>::empty()).len() == 0,
{
    let s = line + seq!['\n'] + rest;
    let n = line.len() as int;
    lemma_position(s, '\n');
    let p = position(s, '\n') as int;
    assert(s[n] == '\n');
    if p < n {
        assert(s[p] == line[p]);
    }
    assert(p == n);
    assert(s.take(n) =~= line);
    assert(s.skip(n + 1) =~= rest);
    lemma_position(line, '\n');
    let q = position(line, '\n') as int;
    if q < line.len() {
        assert(line[q] != '\n');
    }
}

proof fn lemma_core_of_blank(t: Seq<char>, s: Seq<char>)
    requires
        is_core(t, s),
        is_blank(s),
    ensures
        t.len() == 0,
{
    let (before, behind) = choose|before: Seq<char>, behind: Seq<char>|
        is_blank(before) && is_blank(behind) && #[trigger] (before + t + behind) == s;
    if t.len() > 0 {
        assert(s[before.len() as int] == t[0]);
    }
}

/// A text has one core.
pub proof fn law_core_is_unique(a: Seq<char>, b: Seq<char>, s: Seq<char>)
    requires
        is_core(a, s),
        is_core(b, s),
    ensures
        a == b,
{
    let (a0, a1) = choose|before: Seq<char>, behind: Seq<char>|
        is_blank(before) && is_blank(behind) && #[trigger] (before + a + behind) == s;
    let (b0, b1) = choose|before: Seq<char>, behind: Seq<char>|
        is_blank(before) && is_blank(behind) && #[trigger] (before + b + behind) == s;
    if is_blank(s) {
        lemma_core_of_blank(a, s);
        lemma_core_of_blank(b, s);
        assert(a =~= b);
    } else {
        if a.len() == 0 {
            assert forall|i: int| 0 <= i < s.len() implies is_white_space(#[trigger] s[i]) by {
                if i < a0.len() {
                    assert(s[i] == a0[i]);
                } else {
                    assert(s[i] == a1[i - a0.len()]);
                }
            }
        }
        if b.len() == 0 {
            assert forall|i: int| 0 <= i < s.len() implies is_white_space(#[trigger] s[i]) by {
                if i < b0.len() {
                    assert(s[i] == b0[i]);
                } else {
                    assert(s[i] == b1[i - b0.len()]);
                }
            }
        }
        let n = s.len() as int;
        let (p, q) = (a0.len() as int, b0.len() as int);
        assert(s[p] == a[0] && s[q] == b[0]);
        if p < q {
            assert(s[p] == b0[p]);
        } else if q < p {
            assert(s[q] == a0[q]);
        }
        let (x, y) = (p + a.len() - 1, q + b.len() - 1);
        assert(s[x] == a.last() && s[y] == b.last());
        if x < y {
            assert(s[y] == a1[y - x - 1]);
        } else if y < x {
            assert(s[x] == b1[x - y - 1]);
        }
        assert(a =~= s.subrange(p, x + 1));
        assert(b =~= s.subrange(q, y + 1));
    }
}

} // verus!

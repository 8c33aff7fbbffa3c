//! Character-level helpers shared by the parsers and name builders.
use vstd::prelude::*;
use vstd::std_specs::iter::IteratorSpec;

verus! {

broadcast use vstd::string::group_string_axioms;

/// Copies the characters of `s` into a vector.
pub fn chars_of(s: &str) -> (v: Vec<char>)
    ensures
        v@ == s@,
{
    let mut v: Vec<char> = Vec::new();
    let mut it = s.chars();
    assert(it.remaining() == s@);
    loop
        invariant
            v@ + it.remaining() == s@,
            it.obeys_prophetic_iter_laws(),
            it.decrease() is Some,
        decreases it.decrease()->0,
    {
        let ghost before = it.remaining();
        match it.next() {
            Some(c) => {
                v.push(c);
                assert(v@ + it.remaining() =~= s@);
            },
            None => {
                assert(v@ =~= s@);
                return v;
            },
        }
    }
}

/// `String::push`: std documents that it appends the given char to the end.
#[verifier::external_body]
pub fn push_char(s: &mut String, c: char)
    ensures
        final(s)@ == old(s)@.push(c),
{
    s.push(c)
}

} // verus!

verus! {

/// A new string holding `cs[start..end]`.
pub fn string_from(cs: &Vec<char>, start: usize, end: usize) -> (s: String)
    requires
        start <= end <= cs@.len(),
    ensures
        s@ == cs@.subrange(start as int, end as int),
{
    let mut s = String::new();
    let mut i = start;
    while i < end
        invariant
            start <= i <= end <= cs@.len(),
            s@ == cs@.subrange(start as int, i as int),
        decreases end - i,
    {
        push_char(&mut s, cs[i]);
        i = i + 1;
        assert(s@ =~= cs@.subrange(start as int, i as int));
    }
    s
}

/// Equality of the characters of two strings.
pub fn str_eq(a: &str, b: &str) -> (r: bool)
    ensures
        r == (a@ == b@),
{
    let x = chars_of(a);
    let y = chars_of(b);
    if x.len() != y.len() {
        return false;
    }
    let mut i: usize = 0;
    while i < x.len()
        invariant
            x@ == a@,
            y@ == b@,
            x@.len() == y@.len(),
            i <= x@.len(),
            forall|j: int| 0 <= j < i ==> x@[j] == y@[j],
        decreases x.len() - i,
    {
        if x[i] != y[i] {
            return false;
        }
        i = i + 1;
    }
    assert(x@ =~= y@);
    true
}

} // verus!

verus! {

/// Lexicographic order on character sequences, as `str` orders text.
pub open spec fn seq_lt(a: Seq<char>, b: Seq<char>) -> bool
    decreases a.len(),
{
    if a.len() == 0 {
        b.len() > 0
    } else if b.len() == 0 {
        false
    } else if a[0] != b[0] {
        a[0] < b[0]
    } else {
        seq_lt(a.drop_first(), b.drop_first())
    }
}

/// Law: the lexicographic order is transitive.
pub proof fn lemma_seq_lt_transitive(a: Seq<char>, b: Seq<char>, c: Seq<char>)
    requires
        seq_lt(a, b),
        seq_lt(b, c),
    ensures
        seq_lt(a, c),
    decreases a.len(),
{
    if a.len() > 0 && b.len() > 0 && c.len() > 0 {
        if a[0] == b[0] && b[0] == c[0] {
            lemma_seq_lt_transitive(a.drop_first(), b.drop_first(), c.drop_first());
        }
    }
}

/// Law: the lexicographic order is irreflexive.
pub proof fn lemma_seq_lt_irreflexive(a: Seq<char>)
    ensures
        !seq_lt(a, a),
    decreases a.len(),
{
    if a.len() > 0 {
        lemma_seq_lt_irreflexive(a.drop_first());
    }
}

/// A common prefix does not change the lexicographic order.
pub proof fn lemma_seq_lt_common_prefix(p: Seq<char>, a: Seq<char>, b: Seq<char>)
    ensures
        seq_lt(p + a, p + b) == seq_lt(a, b),
    decreases p.len(),
{
    if p.len() > 0 {
        assert((p + a).drop_first() =~= p.drop_first() + a);
        assert((p + b).drop_first() =~= p.drop_first() + b);
        lemma_seq_lt_common_prefix(p.drop_first(), a, b);
    } else {
        assert(p + a =~= a);
        assert(p + b =~= b);
    }
}

/// Of two texts of one length, the one ordered first stays first whatever
/// follows each.
pub proof fn lemma_seq_lt_same_length_prefix(a: Seq<char>, b: Seq<char>, x: Seq<char>, y: Seq<char>)
    requires
        a.len() == b.len(),
        seq_lt(a, b),
    ensures
        seq_lt(a + x, b + y),
    decreases a.len(),
{
    if a[0] == b[0] {
        assert((a + x).drop_first() =~= a.drop_first() + x);
        assert((b + y).drop_first() =~= b.drop_first() + y);
        lemma_seq_lt_same_length_prefix(a.drop_first(), b.drop_first(), x, y);
    }
}

/// Whether `a` orders strictly before `b`.
pub fn chars_lt(a: &Vec<char>, b: &Vec<char>) -> (r: bool)
    ensures
        r == seq_lt(a@, b@),
{
    let mut i: usize = 0;
    assert(a@.subrange(0, a@.len() as int) =~= a@);
    assert(b@.subrange(0, b@.len() as int) =~= b@);
    while i < a.len() && i < b.len()
        invariant
            i <= a@.len(),
            i <= b@.len(),
            a@.subrange(0, i as int) == b@.subrange(0, i as int),
            seq_lt(a@, b@) == seq_lt(a@.subrange(i as int, a@.len() as int), b@.subrange(
                i as int,
                b@.len() as int,
            )),
        decreases a.len() - i,
    {
        let x = a[i];
        let y = b[i];
        let ghost sa = a@.subrange(i as int, a@.len() as int);
        let ghost sb = b@.subrange(i as int, b@.len() as int);
        assert(sa[0] == x && sb[0] == y);
        if x != y {
            return x < y;
        }
        assert(sa.drop_first() =~= a@.subrange(i + 1, a@.len() as int));
        assert(sb.drop_first() =~= b@.subrange(i + 1, b@.len() as int));
        assert(a@.subrange(0, i + 1) =~= a@.subrange(0, i as int).push(x));
        assert(b@.subrange(0, i + 1) =~= b@.subrange(0, i as int).push(y));
        i = i + 1;
    }
    i == a.len() && i < b.len()
}

} // verus!

verus! {

/// The index of the first `c` in `s`, or the length of `s` when it has none.
pub open spec fn first_of(s: Seq<char>, c: char) -> nat
    decreases s.len(),
{
    if s.len() == 0 {
        0
    } else if s[0] == c {
        0
    } else {
        1 + first_of(s.drop_first(), c)
    }
}

/// `str::split(c)`: the pieces of `s` between occurrences of `c`.
pub open spec fn split_on(s: Seq<char>, c: char) -> Seq<Seq<char>>
    decreases s.len(),
{
    let k = first_of(s, c);
    if k >= s.len() {
        seq![s]
    } else {
        seq![s.take(k as int)] + split_on(s.skip(k + 1int), c)
    }
}

/// A line without the carriage return of a `\r\n` ending.
pub open spec fn strip_cr(line: Seq<char>) -> Seq<char> {
    if line.len() > 0 && line.last() == '\r' {
        line.drop_last()
    } else {
        line
    }
}

/// `str::lines`: the lines of `s`, split at `\n` or `\r\n`, with a final
/// line ending optional; a final line without `\n` keeps any `\r`.
pub open spec fn lines_of(s: Seq<char>) -> Seq<Seq<char>>
    decreases s.len(),
{
    if s.len() == 0 {
        Seq::empty()
    } else {
        let k = first_of(s, '\n');
        if k >= s.len() {
            seq![s]
        } else {
            seq![strip_cr(s.take(k as int))] + lines_of(s.skip(k + 1int))
        }
    }
}

/// `str::split_once(c)`: the text before and after the first `c`.
pub open spec fn split_once_at(s: Seq<char>, c: char) -> Option<(Seq<char>, Seq<char>)> {
    let k = first_of(s, c);
    if k < s.len() {
        Some((s.take(k as int), s.skip(k + 1int)))
    } else {
        None
    }
}

pub proof fn lemma_first_of(s: Seq<char>, c: char, m: int)
    requires
        0 <= m <= s.len(),
        forall|t: int| 0 <= t < m ==> s[t] != c,
        m == s.len() || s[m] == c,
    ensures
        first_of(s, c) == m,
    decreases m,
{
    if m > 0 {
        lemma_first_of(s.drop_first(), c, m - 1);
    }
}

/// The first index at or after `i` holding `c`, or the length.
fn find_from(cs: &Vec<char>, i: usize, c: char) -> (j: usize)
    requires
        i <= cs@.len(),
    ensures
        i <= j <= cs@.len(),
        first_of(cs@.skip(i as int), c) == j - i,
{
    let mut j = i;
    while j < cs.len() && cs[j] != c
        invariant
            i <= j <= cs@.len(),
            forall|t: int| i <= t < j ==> cs@[t] != c,
        decreases cs.len() - j,
    {
        j = j + 1;
    }
    proof {
        let u = cs@.skip(i as int);
        assert forall|t: int| 0 <= t < j - i implies u[t] != c by {
            assert(u[t] == cs@[t + i]);
        }
        if j < cs@.len() {
            assert(u[j - i] == cs@[j as int]);
        }
        lemma_first_of(u, c, j - i);
    }
    j
}

/// The pieces of `text` between occurrences of `sep`.
pub fn split(text: &str, sep: char) -> (r: Vec<String>)
    ensures
        r@.map_values(|s: String| s@) == split_on(text@, sep),
{
    let cs = chars_of(text);
    let mut out: Vec<String> = Vec::new();
    let mut i: usize = 0;
    assert(cs@.skip(0) =~= cs@);
    loop
        invariant
            i <= cs@.len(),
            cs@ == text@,
            out@.map_values(|s: String| s@) + split_on(cs@.skip(i as int), sep) == split_on(text@, sep),
        decreases cs@.len() - i,
    {
        let j = find_from(&cs, i, sep);
        let piece = string_from(&cs, i, j);
        let ghost u = cs@.skip(i as int);
        let ghost before = out@;
        assert(piece@ =~= u.take(j - i));
        out.push(piece);
        assert(out@.map_values(|s: String| s@) =~= before.map_values(|s: String| s@).push(piece@));
        if j == cs.len() {
            assert(u.take(j - i) =~= u);
            assert(split_on(u, sep) == seq![u]);
            assert(out@.map_values(|s: String| s@) =~= split_on(text@, sep));
            return out;
        }
        assert(u.skip(j - i + 1) =~= cs@.skip(j + 1));
        assert(split_on(u, sep) == seq![u.take(j - i)] + split_on(cs@.skip(j + 1), sep));
        assert(out@.map_values(|s: String| s@) + split_on(cs@.skip(j + 1), sep) =~= before.map_values(
            |s: String| s@,
        ) + split_on(u, sep));
        i = j + 1;
    }
}

/// The lines of `text`, as `str::lines` gives them.
pub fn lines(text: &str) -> (r: Vec<String>)
    ensures
        r@.map_values(|s: String| s@) == lines_of(text@),
{
    let cs = chars_of(text);
    let mut out: Vec<String> = Vec::new();
    let mut i: usize = 0;
    assert(cs@.skip(0) =~= cs@);
    while i < cs.len()
        invariant
            i <= cs@.len(),
            cs@ == text@,
            out@.map_values(|s: String| s@) + lines_of(cs@.skip(i as int)) == lines_of(text@),
        decreases cs@.len() - i,
    {
        let j = find_from(&cs, i, '\n');
        let ghost u = cs@.skip(i as int);
        let ghost before = out@;
        if j == cs.len() {
            let piece = string_from(&cs, i, j);
            assert(piece@ =~= u);
            out.push(piece);
            assert(out@.map_values(|s: String| s@) =~= before.map_values(|s: String| s@).push(
                piece@,
            ));
            assert(out@.map_values(|s: String| s@) =~= lines_of(text@));
            return out;
        }
        let end = if j > i && cs[j - 1] == '\r' { j - 1 } else { j };
        let piece = string_from(&cs, i, end);
        assert(piece@ =~= strip_cr(u.take(j - i)));
        out.push(piece);
        assert(out@.map_values(|s: String| s@) =~= before.map_values(|s: String| s@).push(piece@));
        assert(u.skip(j - i + 1) =~= cs@.skip(j + 1));
        assert(out@.map_values(|s: String| s@) + lines_of(cs@.skip(j + 1)) =~= before.map_values(
            |s: String| s@,
        ) + lines_of(u));
        i = j + 1;
    }
    assert(cs@.skip(i as int) =~= Seq::<char>::empty());
    assert(out@.map_values(|s: String| s@) =~= lines_of(text@));
    out
}

/// The text before and after the first `sep`, when there is one.
pub fn split_once(text: &str, sep: char) -> (r: Option<(String, String)>)
    ensures
        match r {
            Some(p) => split_once_at(text@, sep) == Some((p.0@, p.1@)),
            None => split_once_at(text@, sep) is None,
        },
{
    let cs = chars_of(text);
    assert(cs@.skip(0) =~= cs@);
    let j = find_from(&cs, 0, sep);
    if j == cs.len() {
        return None;
    }
    let before = string_from(&cs, 0, j);
    let after = string_from(&cs, j + 1, cs.len());
    assert(before@ =~= text@.take(j as int));
    assert(after@ =~= text@.skip(j + 1));
    Some((before, after))
}

} // verus!

verus! {

/// Characters with the Unicode `White_Space` property, which
/// `char::is_whitespace` tests.
pub open spec fn is_white_space(c: char) -> bool {
    ||| ('\t' <= c && c <= '\r')
    ||| c == ' '
    ||| c == '\u{85}'
    ||| c == '\u{A0}'
    ||| c == '\u{1680}'
    ||| ('\u{2000}' <= c && c <= '\u{200A}')
    ||| c == '\u{2028}'
    ||| c == '\u{2029}'
    ||| c == '\u{202F}'
    ||| c == '\u{205F}'
    ||| c == '\u{3000}'
}

/// Checks `is_white_space`.
pub fn white_space(c: char) -> (r: bool)
    ensures
        r == is_white_space(c),
{
    ('\t' <= c && c <= '\r') || c == ' ' || c == '\u{85}' || c == '\u{A0}' || c == '\u{1680}' || (
    '\u{2000}' <= c && c <= '\u{200A}') || c == '\u{2028}' || c == '\u{2029}' || c == '\u{202F}'
        || c == '\u{205F}' || c == '\u{3000}'
}

/// `s` without its leading white space.
pub open spec fn trim_start(s: Seq<char>) -> Seq<char>
    decreases s.len(),
{
    if s.len() > 0 && is_white_space(s[0]) {
        trim_start(s.drop_first())
    } else {
        s
    }
}

/// `s` without its trailing white space.
pub open spec fn trim_end(s: Seq<char>) -> Seq<char>
    decreases s.len(),
{
    if s.len() > 0 && is_white_space(s.last()) {
        trim_end(s.drop_last())
    } else {
        s
    }
}

/// `str::trim`: `s` without leading and trailing white space.
pub open spec fn trimmed(s: Seq<char>) -> Seq<char> {
    trim_end(trim_start(s))
}

/// The index of the first white space character of `s`, or its length.
pub open spec fn first_space(s: Seq<char>) -> nat
    decreases s.len(),
{
    if s.len() == 0 || is_white_space(s[0]) {
        0
    } else {
        1 + first_space(s.drop_first())
    }
}

/// `str::split_whitespace`: the non-empty runs of `s` between white space.
pub open spec fn words(s: Seq<char>) -> Seq<Seq<char>>
    decreases s.len(),
{
    let t = trim_start(s);
    if t.len() == 0 {
        Seq::empty()
    } else {
        proof {
            lemma_trim_start_len(s);
        }
        let k = first_space(t);
        proof {
            lemma_first_space_bound(t);
        }
        seq![t.take(k as int)] + words(t.skip(k as int))
    }
}

/// The index of the last `c` in `s`, or -1 when it has none.
pub open spec fn last_of(s: Seq<char>, c: char) -> int
    decreases s.len(),
{
    if s.len() == 0 {
        -1
    } else if s.last() == c {
        s.len() - 1
    } else {
        last_of(s.drop_last(), c)
    }
}

pub proof fn lemma_trim_start_len(s: Seq<char>)
    ensures
        trim_start(s).len() <= s.len(),
        trim_start(s).len() > 0 ==> !is_white_space(trim_start(s)[0]),
        trim_start(s) == s.skip(s.len() - trim_start(s).len()),
    decreases s.len(),
{
    if s.len() > 0 && is_white_space(s[0]) {
        lemma_trim_start_len(s.drop_first());
        assert(s.drop_first().skip(s.drop_first().len() - trim_start(s).len()) =~= s.skip(
            s.len() - trim_start(s).len(),
        ));
    } else {
        assert(s.skip(0) =~= s);
    }
}

pub proof fn lemma_first_space_bound(s: Seq<char>)
    ensures
        first_space(s) <= s.len(),
        first_space(s) < s.len() ==> is_white_space(s[first_space(s) as int]),
        forall|t: int| 0 <= t < first_space(s) ==> !is_white_space(s[t]),
        s.len() > 0 && !is_white_space(s[0]) ==> first_space(s) > 0,
    decreases s.len(),
{
    if s.len() > 0 && !is_white_space(s[0]) {
        lemma_first_space_bound(s.drop_first());
        assert forall|t: int| 0 <= t < first_space(s) implies !is_white_space(s[t]) by {
            if t > 0 {
                assert(s[t] == s.drop_first()[t - 1]);
            }
        }
    }
}

proof fn lemma_trim_start_at(s: Seq<char>, a: int)
    requires
        0 <= a <= s.len(),
        forall|t: int| 0 <= t < a ==> is_white_space(s[t]),
        a == s.len() || !is_white_space(s[a]),
    ensures
        trim_start(s) == s.skip(a),
    decreases a,
{
    if a > 0 {
        lemma_trim_start_at(s.drop_first(), a - 1);
        assert(s.drop_first().skip(a - 1) =~= s.skip(a));
    } else {
        assert(s.skip(0) =~= s);
    }
}

proof fn lemma_trim_end_at(s: Seq<char>, b: int)
    requires
        0 <= b <= s.len(),
        forall|t: int| b <= t < s.len() ==> is_white_space(s[t]),
        b == 0 || !is_white_space(s[b - 1]),
    ensures
        trim_end(s) == s.take(b),
    decreases s.len() - b,
{
    if b < s.len() {
        lemma_trim_end_at(s.drop_last(), b);
        assert(s.drop_last().take(b) =~= s.take(b));
    } else {
        assert(s.take(b) =~= s);
    }
}

/// `text` without leading and trailing white space.
pub fn trim(text: &str) -> (r: String)
    ensures
        r@ == trimmed(text@),
{
    let cs = chars_of(text);
    let mut a: usize = 0;
    while a < cs.len() && white_space(cs[a])
        invariant
            a <= cs@.len(),
            forall|t: int| 0 <= t < a ==> is_white_space(cs@[t]),
        decreases cs.len() - a,
    {
        a = a + 1;
    }
    proof {
        lemma_trim_start_at(cs@, a as int);
    }
    let mut b: usize = cs.len();
    while b > a && white_space(cs[b - 1])
        invariant
            a <= b <= cs@.len(),
            forall|t: int| b <= t < cs@.len() ==> is_white_space(cs@[t]),
        decreases b,
    {
        b = b - 1;
    }
    proof {
        let u = cs@.skip(a as int);
        assert forall|t: int| b - a <= t < u.len() implies is_white_space(u[t]) by {
            assert(u[t] == cs@[t + a]);
        }
        if b > a {
            assert(u[b - a - 1] == cs@[b - 1]);
        }
        lemma_trim_end_at(u, b - a);
        assert(u.take(b - a) =~= cs@.subrange(a as int, b as int));
    }
    string_from(&cs, a, b)
}

/// The runs of `text` between white space.
pub fn split_whitespace(text: &str) -> (r: Vec<String>)
    ensures
        r@.map_values(|s: String| s@) == words(text@),
{
    let cs = chars_of(text);
    let mut out: Vec<String> = Vec::new();
    let mut i: usize = 0;
    assert(cs@.skip(0) =~= cs@);
    loop
        invariant
            i <= cs@.len(),
            cs@ == text@,
            out@.map_values(|s: String| s@) + words(cs@.skip(i as int)) == words(text@),
        decreases cs@.len() - i,
    {
        let ghost u = cs@.skip(i as int);
        let mut a = i;
        while a < cs.len() && white_space(cs[a])
            invariant
                i <= a <= cs@.len(),
                forall|t: int| i <= t < a ==> is_white_space(cs@[t]),
            decreases cs.len() - a,
        {
            a = a + 1;
        }
        proof {
            assert forall|t: int| 0 <= t < a - i implies is_white_space(u[t]) by {
                assert(u[t] == cs@[t + i]);
            }
            if a < cs@.len() {
                assert(u[a - i] == cs@[a as int]);
            }
            lemma_trim_start_at(u, a - i);
            assert(u.skip(a - i) =~= cs@.skip(a as int));
        }
        if a == cs.len() {
            assert(cs@.skip(a as int).len() == 0);
            assert(out@.map_values(|s: String| s@) =~= words(text@));
            return out;
        }
        let mut b = a;
        while b < cs.len() && !white_space(cs[b])
            invariant
                a <= b <= cs@.len(),
                forall|t: int| a <= t < b ==> !is_white_space(cs@[t]),
            decreases cs.len() - b,
        {
            b = b + 1;
        }
        proof {
            let t0 = cs@.skip(a as int);
            assert(t0 == trim_start(u));
            assert forall|t: int| 0 <= t < b - a implies t0[t] != ' ' && !is_white_space(t0[t]) by {
                assert(t0[t] == cs@[t + a]);
            }
            if b < cs@.len() {
                assert(t0[b - a] == cs@[b as int]);
            }
            lemma_first_space_bound(t0);
            if first_space(t0) < b - a {
                assert(t0[first_space(t0) as int] == cs@[first_space(t0) + a]);
            }
            if first_space(t0) > b - a {
                assert(t0[b - a] == cs@[b as int]);
            }
            assert(first_space(t0) == b - a);
            assert(t0.skip(b - a) =~= cs@.skip(b as int));
        }
        let piece = string_from(&cs, a, b);
        let ghost before = out@;
        assert(piece@ =~= cs@.skip(a as int).take(b - a));
        out.push(piece);
        assert(out@.map_values(|s: String| s@) =~= before.map_values(|s: String| s@).push(piece@));
        assert(out@.map_values(|s: String| s@) + words(cs@.skip(b as int)) =~= before.map_values(
            |s: String| s@,
        ) + words(u));
        i = b;
    }
}

/// The text after the last `c`, when `text` has one.
pub fn after_last(text: &str, c: char) -> (r: Option<String>)
    ensures
        match r {
            Some(s) => last_of(text@, c) >= 0 && s@ == text@.skip(last_of(text@, c) + 1),
            None => last_of(text@, c) == -1,
        },
{
    let cs = chars_of(text);
    let mut j: usize = cs.len();
    assert(cs@.take(j as int) =~= cs@);
    while j > 0 && cs[j - 1] != c
        invariant
            j <= cs@.len(),
            cs@ == text@,
            last_of(text@, c) == last_of(cs@.take(j as int), c),
        decreases j,
    {
        assert(cs@.take(j as int).drop_last() =~= cs@.take(j - 1));
        j = j - 1;
    }
    if j == 0 {
        assert(cs@.take(0).len() == 0);
        return None;
    }
    assert(cs@.take(j as int).last() == c);
    let s = string_from(&cs, j, cs.len());
    assert(s@ =~= text@.skip(j as int));
    Some(s)
}

} // verus!

verus! {

/// Byte-for-byte equality.
pub fn same_bytes(a: &[u8], b: &[u8]) -> (r: bool)
    ensures
        r == (a@ == b@),
{
    if a.len() != b.len() {
        return false;
    }
    let mut i: usize = 0;
    while i < a.len()
        invariant
            i <= a@.len(),
            a@.len() == b@.len(),
            forall|k: int| 0 <= k < i ==> a@[k] == b@[k],
        decreases a@.len() - i,
    {
        if a[i] != b[i] {
            return false;
        }
        i = i + 1;
    }
    assert(a@ =~= b@);
    true
}

} // verus!

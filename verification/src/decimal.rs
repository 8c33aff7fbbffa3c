//! Fixed-width decimal text: exact printing and parsing with their inverse laws.
use vstd::prelude::*;

verus! {

/// A decimal digit character.
pub open spec fn is_digit(c: char) -> bool {
    '0' <= c && c <= '9'
}

/// The value of a decimal digit character.
pub open spec fn digit_value(c: char) -> int {
    (c as int) - ('0' as int)
}

/// The character of a decimal digit `0 <= d < 10`.
pub open spec fn digit_char(d: int) -> char {
    ((d + ('0' as int)) as u32) as char
}

/// `10` to the power `w`.
pub open spec fn pow10(w: nat) -> nat
    decreases w,
{
    if w == 0 {
        1
    } else {
        10 * pow10((w - 1) as nat)
    }
}

/// The `w` low decimal digits of `n`, most significant first, zero padded.
pub open spec fn dec_fixed(n: nat, w: nat) -> Seq<char>
    decreases w,
{
    if w == 0 {
        Seq::empty()
    } else {
        dec_fixed(n / 10, (w - 1) as nat).push(digit_char((n % 10) as int))
    }
}

/// The number that a sequence of decimal digits denotes.
pub open spec fn digits_value(s: Seq<char>) -> nat
    decreases s.len(),
{
    if s.len() == 0 {
        0
    } else {
        digits_value(s.drop_last()) * 10 + digit_value(s.last()) as nat
    }
}

/// All characters are decimal digits.
pub open spec fn all_digits(s: Seq<char>) -> bool {
    forall|i: int| 0 <= i < s.len() ==> #[trigger] is_digit(s[i])
}

pub proof fn lemma_digit_char(d: int)
    requires
        0 <= d < 10,
    ensures
        is_digit(digit_char(d)),
        digit_value(digit_char(d)) == d,
{
    assert(('0' as int) == 48);
    assert(((d + 48) as u32) as char as int == d + 48);
}

pub proof fn lemma_pow10_positive(w: nat)
    ensures
        pow10(w) >= 1,
    decreases w,
{
    if w > 0 {
        lemma_pow10_positive((w - 1) as nat);
    }
}

pub proof fn lemma_pow10_20()
    ensures
        pow10(20) == 100000000000000000000nat,
{
    reveal_with_fuel(pow10, 21);
}

pub proof fn lemma_dec_fixed_shape(n: nat, w: nat)
    ensures
        dec_fixed(n, w).len() == w,
        all_digits(dec_fixed(n, w)),
    decreases w,
{
    if w > 0 {
        lemma_dec_fixed_shape(n / 10, (w - 1) as nat);
        lemma_digit_char((n % 10) as int);
    }
}

pub proof fn lemma_div_mod_10(v: nat, d: nat)
    requires
        d < 10,
    ensures
        (v * 10 + d) / 10 == v,
        (v * 10 + d) % 10 == d,
{
    assert((v * 10 + d) / 10 == v) by (nonlinear_arith)
        requires
            d < 10,
    ;
    assert((v * 10 + d) % 10 == d) by (nonlinear_arith)
        requires
            d < 10,
    ;
}

/// The digits printed for `n` denote `n` modulo `10^w`.
pub proof fn lemma_value_of_dec_fixed(n: nat, w: nat)
    ensures
        digits_value(dec_fixed(n, w)) == n % pow10(w),
    decreases w,
{
    if w > 0 {
        let s = dec_fixed(n, w);
        lemma_value_of_dec_fixed(n / 10, (w - 1) as nat);
        lemma_digit_char((n % 10) as int);
        assert(s.drop_last() == dec_fixed(n / 10, (w - 1) as nat));
        let p = pow10((w - 1) as nat);
        lemma_pow10_positive((w - 1) as nat);
        assert((n / 10) % p * 10 + n % 10 == n % (10 * p)) by (nonlinear_arith)
            requires
                p >= 1,
        {
            vstd::arithmetic::div_mod::lemma_breakdown(n as int, 10, p as int);
        }
    }
}

/// Printing the value of `w` digits at width `w` gives back the digits.
pub proof fn lemma_dec_fixed_of_value(s: Seq<char>)
    requires
        all_digits(s),
    ensures
        dec_fixed(digits_value(s), s.len()) == s,
    decreases s.len(),
{
    if s.len() > 0 {
        let t = s.drop_last();
        assert(all_digits(t));
        lemma_dec_fixed_of_value(t);
        let d = digit_value(s.last());
        assert(is_digit(s[s.len() - 1]));
        assert(0 <= d < 10);
        lemma_div_mod_10(digits_value(t), d as nat);
        let v = digits_value(s);
        assert(v / 10 == digits_value(t));
        assert(v % 10 == d);
        assert(digit_char(d) == s.last()) by {
            assert(('0' as int) == 48);
            assert(s.last() as int == d + 48);
        }
        assert(dec_fixed(v, s.len()) =~= t.push(s.last()));
        assert(t.push(s.last()) =~= s);
    }
}

/// Printing then reading a `u64` at width 20 is the identity.
pub proof fn lemma_u64_dec20(n: u64)
    ensures
        dec_fixed(n as nat, 20).len() == 20,
        all_digits(dec_fixed(n as nat, 20)),
        digits_value(dec_fixed(n as nat, 20)) == n,
{
    lemma_dec_fixed_shape(n as nat, 20);
    lemma_value_of_dec_fixed(n as nat, 20);
    lemma_pow10_20();
}

/// Law: at a width that holds both numbers, zero-padded decimal text orders
/// as the numbers do.
pub proof fn lemma_dec_fixed_ordered(m: nat, n: nat, w: nat)
    requires
        m < n < pow10(w),
    ensures
        crate::text::seq_lt(dec_fixed(m, w), dec_fixed(n, w)),
    decreases w,
{
    let v = (w - 1) as nat;
    let p = pow10(v);
    lemma_pow10_positive(v);
    assert(n / 10 < p) by (nonlinear_arith)
        requires
            n < 10 * p,
    ;
    assert(m / 10 <= n / 10) by (nonlinear_arith)
        requires
            m < n,
    ;
    lemma_dec_fixed_shape(m / 10, v);
    lemma_dec_fixed_shape(n / 10, v);
    let a = dec_fixed(m / 10, v);
    let b = dec_fixed(n / 10, v);
    let da = digit_char((m % 10) as int);
    let db = digit_char((n % 10) as int);
    assert(dec_fixed(m, w) =~= a + seq![da]);
    assert(dec_fixed(n, w) =~= b + seq![db]);
    if m / 10 < n / 10 {
        lemma_dec_fixed_ordered(m / 10, n / 10, v);
        crate::text::lemma_seq_lt_same_length_prefix(a, b, seq![da], seq![db]);
    } else {
        assert(m % 10 < n % 10) by (nonlinear_arith)
            requires
                m < n,
                m / 10 == n / 10,
        ;
        assert(('0' as int) == 48);
        assert(da as int == m % 10 + 48);
        assert(db as int == n % 10 + 48);
        assert(seq![da][0] < seq![db][0]);
        assert(crate::text::seq_lt(seq![da], seq![db]));
        crate::text::lemma_seq_lt_common_prefix(a, seq![da], seq![db]);
    }
}

/// The digit character for `d < 10`.
pub fn digit_char_exec(d: u64) -> (c: char)
    requires
        d < 10,
    ensures
        c == digit_char(d as int),
{
    proof {
        assert(('0' as int) == 48);
    }
    if d == 0 {
        '0'
    } else if d == 1 {
        '1'
    } else if d == 2 {
        '2'
    } else if d == 3 {
        '3'
    } else if d == 4 {
        '4'
    } else if d == 5 {
        '5'
    } else if d == 6 {
        '6'
    } else if d == 7 {
        '7'
    } else if d == 8 {
        '8'
    } else {
        '9'
    }
}

/// Appends the `w` low decimal digits of `n`, zero padded.
pub fn push_dec_fixed(out: &mut String, n: u64, w: u8)
    ensures
        final(out)@ == old(out)@ + dec_fixed(n as nat, w as nat),
    decreases w,
{
    if w > 0 {
        push_dec_fixed(out, n / 10, w - 1);
        let c = digit_char_exec(n % 10);
        crate::text::push_char(out, c);
        assert(final(out)@ =~= old(out)@ + dec_fixed(n as nat, w as nat));
    }
}

/// Reads the decimal digits `cs[start..start + w]` when all are digits and
/// their value fits in a `u64`.
pub fn u64_at(cs: &Vec<char>, start: usize, w: usize) -> (r: Option<u64>)
    requires
        start + w <= cs@.len(),
        w <= 20,
    ensures
        ({
            let s = cs@.subrange(start as int, start + w);
            match r {
                Some(v) => all_digits(s) && digits_value(s) == v,
                None => !all_digits(s) || digits_value(s) > u64::MAX,
            }
        }),
{
    let ghost s = cs@.subrange(start as int, start + w);
    let mut acc: u128 = 0;
    let mut i: usize = 0;
    proof {
        lemma_pow10_monotone(0, 20);
    }
    while i < w
        invariant
            i <= w <= 20,
            start + w <= cs@.len(),
            s == cs@.subrange(start as int, start + w),
            all_digits(s.subrange(0, i as int)),
            acc == digits_value(s.subrange(0, i as int)),
            acc < pow10(i as nat),
            pow10(i as nat) <= pow10(20),
        decreases w - i,
    {
        assert(start + i < cs.len());
        let c = cs[start + i];
        assert(c == s[i as int]);
        if !('0' <= c && c <= '9') {
            assert(!all_digits(s)) by {
                assert(!is_digit(s[i as int]));
            }
            return None;
        }
        let d = (c as u32 - '0' as u32) as u128;
        proof {
            lemma_pow10_20();
            assert(s.subrange(0, i + 1).drop_last() =~= s.subrange(0, i as int));
            assert(s.subrange(0, i + 1).last() == c);
            assert(acc * 10 + d < 10 * pow10(i as nat)) by (nonlinear_arith)
                requires
                    acc < pow10(i as nat),
                    d < 10,
            ;
            assert(pow10((i + 1) as nat) == 10 * pow10(i as nat));
            lemma_pow10_monotone((i + 1) as nat, 20);
        }
        acc = acc * 10 + d;
        i = i + 1;
        assert(all_digits(s.subrange(0, i as int)));
    }
    assert(s.subrange(0, w as int) =~= s);
    if acc <= u64::MAX as u128 {
        Some(acc as u64)
    } else {
        None
    }
}

pub proof fn lemma_pow10_monotone(a: nat, b: nat)
    requires
        a <= b,
    ensures
        pow10(a) <= pow10(b),
    decreases b - a,
{
    if a < b {
        lemma_pow10_monotone(a, (b - 1) as nat);
        lemma_pow10_positive((b - 1) as nat);
    }
}

} // verus!

verus! {

/// The digits of unsigned integer text: an optional leading `+` removed.
pub open spec fn unsigned_digits(s: Seq<char>) -> Seq<char> {
    if s.len() > 0 && s[0] == '+' {
        s.drop_first()
    } else {
        s
    }
}

/// The value `str::parse` reads from unsigned integer text: an optional `+`
/// and at least one decimal digit, nothing else.
pub open spec fn parsed_unsigned(s: Seq<char>) -> Option<nat> {
    let d = unsigned_digits(s);
    if d.len() > 0 && all_digits(d) {
        Some(digits_value(d))
    } else {
        None
    }
}

/// The value of a digit prefix never exceeds the value of the whole.
pub proof fn lemma_digits_prefix(s: Seq<char>, i: int)
    requires
        all_digits(s),
        0 <= i <= s.len(),
    ensures
        digits_value(s.take(i)) <= digits_value(s),
    decreases s.len() - i,
{
    if i < s.len() {
        lemma_digits_prefix(s, i + 1);
        let t = s.take(i + 1);
        assert(t.drop_last() =~= s.take(i));
        assert(is_digit(s[i]));
    } else {
        assert(s.take(i) =~= s);
    }
}

/// `str::parse::<u64>`: the value of the text when it is unsigned integer
/// text whose value fits.
pub fn parse_u64(s: &str) -> (r: Option<u64>)
    ensures
        match r {
            Some(v) => parsed_unsigned(s@) == Some(v as nat),
            None => match parsed_unsigned(s@) {
                Some(n) => n > u64::MAX,
                None => true,
            },
        },
{
    let cs = crate::text::chars_of(s);
    let start: usize = if cs.len() > 0 && cs[0] == '+' { 1 } else { 0 };
    let ghost d = unsigned_digits(s@);
    assert(d =~= cs@.subrange(start as int, cs@.len() as int));
    if start == cs.len() {
        return None;
    }
    let mut acc: u64 = 0;
    let mut i: usize = start;
    while i < cs.len()
        invariant
            start <= i <= cs@.len(),
            cs@ == s@,
            d == unsigned_digits(s@),
            d.len() > 0,
            d == cs@.subrange(start as int, cs@.len() as int),
            all_digits(d.take(i - start)),
            acc == digits_value(d.take(i - start)),
        decreases cs.len() - i,
    {
        let c = cs[i];
        assert(c == d[i - start]);
        if !('0' <= c && c <= '9') {
            assert(!is_digit(d[i - start]));
            return None;
        }
        let v = (c as u32 - '0' as u32) as u64;
        assert(d.take(i - start + 1).drop_last() =~= d.take(i - start));
        assert(d.take(i - start + 1).last() == c);
        if acc > (u64::MAX - v) / 10 {
            proof {
                assert(acc * 10 + v > u64::MAX) by (nonlinear_arith)
                    requires
                        acc > (u64::MAX - v) / 10,
                        v < 10,
                ;
                if all_digits(d) {
                    lemma_digits_prefix(d, i - start + 1);
                }
            }
            return None;
        }
        proof {
            assert(acc * 10 + v <= u64::MAX) by (nonlinear_arith)
                requires
                    acc <= (u64::MAX - v) / 10,
                    v < 10,
            ;
        }
        acc = acc * 10 + v;
        i = i + 1;
        assert(all_digits(d.take(i - start)));
    }
    assert(d.take(i - start) =~= d);
    Some(acc)
}

/// `str::parse::<u32>`.
pub fn parse_u32(s: &str) -> (r: Option<u32>)
    ensures
        match r {
            Some(v) => parsed_unsigned(s@) == Some(v as nat),
            None => match parsed_unsigned(s@) {
                Some(n) => n > u32::MAX,
                None => true,
            },
        },
{
    match parse_u64(s) {
        Some(v) => if v <= u32::MAX as u64 {
            Some(v as u32)
        } else {
            None
        },
        None => None,
    }
}

} // verus!

//! Byte-level validators for identifiers that enter argv, expressions and records.
use vstd::prelude::*;
use vstd::string::StringSliceAdditionalSpecFns;

verus! {

pub open spec fn is_ascii_digit(b: u8) -> bool {
    48 <= b <= 57
}

pub open spec fn is_ascii_hexdigit(b: u8) -> bool {
    is_ascii_digit(b) || (97 <= b <= 102) || (65 <= b <= 70)
}

pub open spec fn is_component_byte(b: u8) -> bool {
    is_ascii_digit(b) || (97 <= b <= 122) || (65 <= b <= 90) || b == 95 || b == 46 || b == 45
}

/// 1 to 10 ASCII digits.
pub open spec fn is_decimal(b: Seq<u8>) -> bool {
    0 < b.len() <= 10 && forall|i: int| 0 <= i < b.len() ==> #[trigger] is_ascii_digit(b[i])
}

/// Exactly `length` ASCII hexadecimal digits.
pub open spec fn is_hex(b: Seq<u8>, length: nat) -> bool {
    b.len() == length && forall|i: int| 0 <= i < b.len() ==> #[trigger] is_ascii_hexdigit(b[i])
}

/// `prefix` followed by a decimal number.
pub open spec fn is_target(b: Seq<u8>, prefix: u8) -> bool {
    b.len() >= 1 && b[0] == prefix && is_decimal(b.drop_first())
}

/// `0x` followed by 1 to 16 hexadecimal digits.
pub open spec fn is_address(b: Seq<u8>) -> bool {
    b.len() >= 2 && b[0] == 48 && b[1] == 120 && 0 < b.len() - 2 <= 16 && is_hex(
        b.subrange(2, b.len() as int),
        (b.len() - 2) as nat,
    )
}

/// 1 to 128 bytes of ASCII letters, digits, `_`, `.` or `-`.
pub open spec fn is_component(b: Seq<u8>) -> bool {
    0 < b.len() <= 128 && forall|i: int| 0 <= i < b.len() ==> #[trigger] is_component_byte(b[i])
}

/// Whether `b[start..]` are all ASCII digits (and only digits).
fn all_digits_from(b: &[u8], start: usize) -> (r: bool)
    requires
        start <= b@.len(),
    ensures
        r == forall|i: int| start <= i < b@.len() ==> #[trigger] is_ascii_digit(b@[i]),
{
    let mut i = start;
    while i < b.len()
        invariant
            start <= i <= b@.len(),
            forall|k: int| start <= k < i ==> #[trigger] is_ascii_digit(b@[k]),
        decreases b.len() - i,
    {
        if !(b[i] >= 48 && b[i] <= 57) {
            assert(!is_ascii_digit(b@[i as int]));
            return false;
        }
        i = i + 1;
    }
    true
}

/// Whether `b[start..]` are all ASCII hexadecimal digits.
fn all_hex_from(b: &[u8], start: usize) -> (r: bool)
    requires
        start <= b@.len(),
    ensures
        r == forall|i: int| start <= i < b@.len() ==> #[trigger] is_ascii_hexdigit(b@[i]),
{
    let mut i = start;
    while i < b.len()
        invariant
            start <= i <= b@.len(),
            forall|k: int| start <= k < i ==> #[trigger] is_ascii_hexdigit(b@[k]),
        decreases b.len() - i,
    {
        let c = b[i];
        if !((c >= 48 && c <= 57) || (c >= 97 && c <= 102) || (c >= 65 && c <= 70)) {
            assert(!is_ascii_hexdigit(b@[i as int]));
            return false;
        }
        i = i + 1;
    }
    true
}

/// Checks `is_decimal` on the bytes of `value`.
pub fn decimal(value: &str) -> (r: bool)
    ensures
        r == is_decimal(value.spec_bytes()),
{
    let b = value.as_bytes();
    let r = b.len() != 0 && b.len() <= 10 && all_digits_from(b, 0);
    r
}

/// Checks `is_hex` on the bytes of `value`.
pub fn hex(value: &str, length: usize) -> (r: bool)
    ensures
        r == is_hex(value.spec_bytes(), length as nat),
{
    let b = value.as_bytes();
    b.len() == length && all_hex_from(b, 0)
}

/// Checks `is_target` on the bytes of `value` with an ASCII `prefix`.
pub fn target(value: &str, prefix: u8) -> (r: bool)
    ensures
        r == is_target(value.spec_bytes(), prefix),
{
    let b = value.as_bytes();
    if b.len() < 1 || b[0] != prefix {
        return false;
    }
    let n = b.len() - 1;
    let r = n != 0 && n <= 10 && all_digits_from(b, 1);
    proof {
        let d = b@.drop_first();
        if r {
            assert forall|i: int| 0 <= i < d.len() implies #[trigger] is_ascii_digit(d[i]) by {
                assert(d[i] == b@[i + 1]);
            }
        }
        if is_decimal(d) {
            assert forall|i: int| 1 <= i < b@.len() implies #[trigger] is_ascii_digit(b@[i]) by {
                assert(b@[i] == d[i - 1]);
            }
        }
    }
    r
}

/// Checks `is_address` on the bytes of `value`.
pub fn address(value: &str) -> (r: bool)
    ensures
        r == is_address(value.spec_bytes()),
{
    let b = value.as_bytes();
    if b.len() < 2 || b[0] != 48 || b[1] != 120 {
        return false;
    }
    let n = b.len() - 2;
    let r = n != 0 && n <= 16 && all_hex_from(b, 2);
    proof {
        let d = b@.subrange(2, b@.len() as int);
        if r {
            assert forall|i: int| 0 <= i < d.len() implies #[trigger] is_ascii_hexdigit(d[i]) by {
                assert(d[i] == b@[i + 2]);
            }
        }
        if is_hex(d, n as nat) {
            assert forall|i: int| 2 <= i < b@.len() implies #[trigger] is_ascii_hexdigit(b@[i]) by {
                assert(b@[i] == d[i - 2]);
            }
        }
    }
    r
}

/// Checks `is_component` on the bytes of `value`.
pub fn component(value: &str) -> (r: bool)
    ensures
        r == is_component(value.spec_bytes()),
{
    let b = value.as_bytes();
    if b.len() == 0 || b.len() > 128 {
        return false;
    }
    let mut i: usize = 0;
    while i < b.len()
        invariant
            i <= b@.len(),
            b@ == value.spec_bytes(),
            0 < b@.len() <= 128,
            forall|k: int| 0 <= k < i ==> #[trigger] is_component_byte(b@[k]),
        decreases b.len() - i,
    {
        let c = b[i];
        if !((c >= 48 && c <= 57) || (c >= 97 && c <= 122) || (c >= 65 && c <= 90) || c == 95 || c
            == 46 || c == 45) {
            assert(!is_component_byte(b@[i as int]));
            return false;
        }
        i = i + 1;
    }
    true
}

} // verus!

//! What holds of printed identifiers: they can be told apart, and keep their order.

use vstd::prelude::*;
use vstd::arithmetic::div_mod::{
    lemma_basic_div, lemma_div_denominator, lemma_fundamental_div_mod,
};
use vstd::arithmetic::power::{lemma_pow_adds, lemma_pow_positive, pow};
use vstd::utf8::*;

use crate::text::{
    Id, blank, bytes_less, decimal, digit, hex, hyphenated, id_digit, signed_decimal, text_less,
    trimmed_start, white_space,
};

verus! {

/// Hexadecimal digits are ASCII characters in the order of their values.
proof fn lemma_digits_in_order(c: int, d: int)
    requires
        0 <= c < 16,
        0 <= d < 16,
    ensures
        (digit(c) as u8) < (digit(d) as u8) <==> c < d,
        digit(c) == digit(d) <==> c == d,
        digit(c) as u8 == digit(d) as u8 <==> c == d,
        '\0' <= digit(c) <= '\u{7f}',
{
}

/// The two digits of byte `i` of a byte string in print.
proof fn lemma_hex_digits(bytes: Seq<u8>, i: int)
    requires
        0 <= i < bytes.len(),
    ensures
        hex(bytes)[2 * i] == digit(bytes[i] as int / 16),
        hex(bytes)[2 * i + 1] == digit(bytes[i] as int % 16),
        bytes[i] == 16 * (bytes[i] as int / 16) + bytes[i] as int % 16,
{
    assert((2 * i) / 2 == i && (2 * i) % 2 == 0);
    assert((2 * i + 1) / 2 == i && (2 * i + 1) % 2 == 1);
}

/// Byte strings in print are told apart.
pub proof fn law_hex_tells_bytes_apart(a: Seq<u8>, b: Seq<u8>)
    requires
        hex(a) == hex(b),
    ensures
        a == b,
{
    assert(hex(a).len() == 2 * a.len());
    assert(hex(b).len() == 2 * b.len());
    assert forall|i: int| 0 <= i < a.len() implies a[i] == b[i] by {
        lemma_hex_digits(a, i);
        lemma_hex_digits(b, i);
        lemma_digits_in_order(a[i] as int / 16, b[i] as int / 16);
        lemma_digits_in_order(a[i] as int % 16, b[i] as int % 16);
    }
    assert(a =~= b);
}

/// The bytes of a byte string in print.
spec fn hex_codes(bytes: Seq<u8>) -> Seq<u8> {
    Seq::new(hex(bytes).len(), |i: int| hex(bytes)[i] as u8)
}

proof fn lemma_hex_is_ascii(bytes: Seq<u8>)
    ensures
        encode_utf8(hex(bytes)) == hex_codes(bytes),
{
    assert forall|i: int| 0 <= i < hex(bytes).len() implies '\0' <= #[trigger] hex(bytes)[i]
        <= '\u{7f}' by {
        let d = bytes[i / 2] as int;
        lemma_digits_in_order(d / 16, d % 16);
        lemma_digits_in_order(d % 16, d / 16);
    }
    is_ascii_chars_encode_utf8(hex(bytes));
    assert(encode_utf8(hex(bytes)) =~= hex_codes(bytes));
}

proof fn lemma_hex_codes_less(a: Seq<u8>, b: Seq<u8>)
    ensures
        bytes_less(hex_codes(a), hex_codes(b)) == bytes_less(a, b),
    decreases a.len(),
{
    if a.len() > 0 && b.len() > 0 {
        lemma_hex_digits(a, 0);
        lemma_hex_digits(b, 0);
        lemma_digits_in_order(a[0] as int / 16, b[0] as int / 16);
        lemma_digits_in_order(a[0] as int % 16, b[0] as int % 16);
        lemma_hex_codes_less(a.drop_first(), b.drop_first());
        assert forall|s: Seq<u8>| s.len() > 0 implies hex_codes(s).drop_first().drop_first()
            == #[trigger] hex_codes(s.drop_first()) by {
            assert forall|i: int| 0 <= i < 2 * s.drop_first().len() implies hex_codes(s)[i + 2]
                == hex_codes(s.drop_first())[i] by {
                assert((i + 2) / 2 == i / 2 + 1);
                assert((i + 2) % 2 == i % 2);
            }
            assert(hex_codes(s).drop_first().drop_first() =~= hex_codes(s.drop_first()));
        }
        reveal_with_fuel(bytes_less, 3);
    }
}

/// Byte strings in print are in the order of the bytes.
pub proof fn law_hex_keeps_order(a: Seq<u8>, b: Seq<u8>)
    ensures
        text_less(hex(a), hex(b)) == bytes_less(a, b),
{
    lemma_hex_is_ascii(a);
    lemma_hex_is_ascii(b);
    lemma_hex_codes_less(a, b);
}

/// Where in a printed identifier the digit at `place` stands.
spec fn printed_at(place: int) -> int {
    if place < 8 {
        place
    } else if place < 12 {
        place + 1
    } else if place < 16 {
        place + 2
    } else if place < 20 {
        place + 3
    } else {
        place + 4
    }
}

/// Numbers with the same digits from place `e` upward are the same from there upward.
proof fn lemma_same_digits(a: Id, b: Id, e: nat)
    requires
        e <= 32,
        forall|place: int| 0 <= place < 32 ==> #[trigger] id_digit(a, place) == id_digit(b, place),
    ensures
        a as int / pow(16, e) == b as int / pow(16, e),
    decreases 32 - e,
{
    if e == 32 {
        reveal_with_fuel(pow, 9);
        lemma_pow_adds(16, 8, 8);
        lemma_pow_adds(16, 16, 16);
        let p = pow(16, 8);
        assert(p == 0x1_0000_0000);
        assert(p * p == 0x1_0000_0000_0000_0000) by (nonlinear_arith)
            requires
                p == 0x1_0000_0000,
        ;
        let q = pow(16, 16);
        assert(q * q == 0x1_0000_0000_0000_0000_0000_0000_0000_0000) by (nonlinear_arith)
            requires
                q == 0x1_0000_0000_0000_0000,
        ;
        lemma_basic_div(a as int, pow(16, e));
        lemma_basic_div(b as int, pow(16, e));
    } else {
        lemma_same_digits(a, b, e + 1);
        lemma_pow_positive(16, e);
        lemma_pow_adds(16, e, 1);
        reveal_with_fuel(pow, 2);
        let (x, y) = (a as int / pow(16, e), b as int / pow(16, e));
        lemma_div_denominator(a as int, pow(16, e), 16);
        lemma_div_denominator(b as int, pow(16, e), 16);
        assert(id_digit(a, 31 - e) == id_digit(b, 31 - e));
        lemma_digits_in_order(x % 16, y % 16);
        lemma_fundamental_div_mod(x, 16);
        lemma_fundamental_div_mod(y, 16);
    }
}

/// Identifiers in print are told apart.
pub proof fn law_printed_identifiers_differ(a: Id, b: Id)
    requires
        hyphenated(a) == hyphenated(b),
    ensures
        a == b,
{
    assert forall|place: int| 0 <= place < 32 implies #[trigger] id_digit(a, place) == id_digit(
        b,
        place,
    ) by {
        assert(hyphenated(a)[printed_at(place)] == id_digit(a, place));
        assert(hyphenated(b)[printed_at(place)] == id_digit(b, place));
    }
    lemma_same_digits(a, b, 0);
    reveal_with_fuel(pow, 1);
}

/// A text is blank exactly where each of its characters, alone, is.
pub proof fn law_blank_text_is_blank_throughout(a: Seq<char>, b: Seq<char>, c: char)
    ensures
        blank(Seq::<char>::empty()),
        blank(seq![c]) <==> white_space(c),
        blank(a + b) <==> blank(a) && blank(b),
        !white_space('a') && !white_space('0') && white_space(' ') && white_space('\n'),
{
    assert(blank(seq![c]) ==> white_space(seq![c][0]));
    if blank(a + b) {
        assert forall|i: int| 0 <= i < a.len() implies white_space(#[trigger] a[i]) by {
            assert((a + b)[i] == a[i]);
        }
        assert forall|i: int| 0 <= i < b.len() implies white_space(#[trigger] b[i]) by {
            assert((a + b)[a.len() + i] == b[i]);
        }
    }
}

/// Trimming takes away white space and nothing else, up to the first character that is none.
pub proof fn law_trimming_takes_leading_space_only(s: Seq<char>)
    ensures
        trimmed_start(s).len() <= s.len(),
        trimmed_start(s) == s.skip(s.len() - trimmed_start(s).len()),
        forall|i: int|
            0 <= i < s.len() - trimmed_start(s).len() ==> white_space(#[trigger] s[i]),
        trimmed_start(s).len() > 0 ==> !white_space(trimmed_start(s)[0]),
    decreases s.len(),
{
    if s.len() > 0 && white_space(s[0]) {
        let rest = s.drop_first();
        law_trimming_takes_leading_space_only(rest);
        let n = s.len() - trimmed_start(s).len();
        assert(trimmed_start(s) =~= s.skip(n));
        assert forall|i: int| 0 <= i < n implies white_space(#[trigger] s[i]) by {
            if i > 0 {
                assert(rest[i - 1] == s[i]);
            }
        }
    } else {
        assert(s =~= s.skip(0));
    }
}

/// A number in print is its digits from the highest down, and a negative one has a sign
/// before them.
pub proof fn law_numbers_in_print(n: nat, d: nat)
    requires
        d < 10,
    ensures
        decimal(d) == seq![(48 + d) as char],
        n > 0 ==> decimal(10 * n + d) == decimal(n).push((48 + d) as char),
        signed_decimal(n as int) == decimal(n),
        n > 0 ==> signed_decimal(-n) == seq!['-'] + decimal(n),
{
    reveal_with_fuel(decimal, 2);
    assert((10 * n + d) / 10 == n && (10 * n + d) % 10 == d);
    assert(digit(d as int) == (48 + d) as char);
    assert(decimal(d) =~= seq![(48 + d) as char]);
    if n > 0 {
        assert(decimal(10 * n + d) =~= decimal(n).push((48 + d) as char));
        assert(signed_decimal(-n) =~= seq!['-'] + decimal(n));
    }
}

/// Bytes in print are printed one by one, each as the digits of its two halves.
pub proof fn law_bytes_are_printed_one_by_one(a: Seq<u8>, b: Seq<u8>, x: u8)
    ensures
        hex(a + b) == hex(a) + hex(b),
        hex(seq![x]) == seq![digit(x as int / 16), digit(x as int % 16)],
        forall|d: int| 0 <= d < 10 ==> #[trigger] digit(d) as u32 == 48 + d,
        forall|d: int| 10 <= d < 16 ==> #[trigger] digit(d) as u32 == 87 + d,
{
    assert(hex(a + b) =~= hex(a) + hex(b)) by {
        assert forall|i: int| 0 <= i < hex(a + b).len() implies hex(a + b)[i] == (hex(a) + hex(
            b,
        ))[i] by {
            if i >= 2 * a.len() {
                assert((i - 2 * a.len()) / 2 == i / 2 - a.len());
                assert((i - 2 * a.len()) % 2 == i % 2);
            }
        }
    }
    assert(hex(seq![x]) =~= seq![digit(x as int / 16), digit(x as int % 16)]);
}

/// Whether `a` and `b` agree up to `k`, where `a` is at its end or has the smaller byte.
pub open spec fn parts_below(a: Seq<u8>, b: Seq<u8>, k: int) -> bool {
    &&& 0 <= k <= a.len()
    &&& k < b.len()
    &&& forall|j: int| 0 <= j < k ==> #[trigger] a[j] == b[j]
    &&& k == a.len() || a[k] < b[k]
}

/// Byte strings are ordered by the first byte in which they differ, and one that the other
/// continues comes first.
pub proof fn law_order_is_by_the_first_difference(a: Seq<u8>, b: Seq<u8>)
    ensures
        bytes_less(a, b) <==> exists|k: int| #[trigger] parts_below(a, b, k),
    decreases a.len(),
{
    if a.len() > 0 && b.len() > 0 && a[0] == b[0] {
        let (c, d) = (a.drop_first(), b.drop_first());
        law_order_is_by_the_first_difference(c, d);
        if bytes_less(a, b) {
            let k = choose|k: int| #[trigger] parts_below(c, d, k);
            assert forall|j: int| 0 <= j < k + 1 implies #[trigger] a[j] == b[j] by {
                if j > 0 {
                    assert(c[j - 1] == d[j - 1]);
                }
            }
            assert(parts_below(a, b, k + 1));
        }
        if exists|k: int| #[trigger] parts_below(a, b, k) {
            let k = choose|k: int| #[trigger] parts_below(a, b, k);
            assert forall|j: int| 0 <= j < k - 1 implies #[trigger] c[j] == d[j] by {
                assert(a[j + 1] == b[j + 1]);
            }
            assert(parts_below(c, d, k - 1));
        }
    } else if bytes_less(a, b) {
        assert(parts_below(a, b, 0));
    } else if exists|k: int| #[trigger] parts_below(a, b, k) {
        let k = choose|k: int| #[trigger] parts_below(a, b, k);
        if k > 0 {
            assert(a[0] == b[0]);
        }
    }
}

/// Strings are ordered as their UTF-8 bytes are.
pub proof fn law_strings_are_ordered_by_their_bytes(a: Seq<char>, b: Seq<char>)
    ensures
        text_less(a, b) <==> exists|k: int| #[trigger]
            parts_below(encode_utf8(a), encode_utf8(b), k),
{
    law_order_is_by_the_first_difference(encode_utf8(a), encode_utf8(b));
}

} // verus!

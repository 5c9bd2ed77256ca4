//! Text: whitespace, numbers and identifiers in print, and the order of strings.

use vstd::prelude::*;
use vstd::arithmetic::power::pow;
use vstd::string::*;
use vstd::utf8::*;

verus! {

/// A stable 128-bit identifier. Identifiers are ordered as numbers, which is the order
/// of their bytes, most significant first.
pub type Id = u128;

/// Whether Unicode gives `c` the property White_Space.
pub open spec fn white_space(c: char) -> bool {
    let u = c as u32;
    ||| 0x9 <= u <= 0xd
    ||| u == 0x20
    ||| u == 0x85
    ||| u == 0xa0
    ||| u == 0x1680
    ||| 0x2000 <= u <= 0x200a
    ||| u == 0x2028
    ||| u == 0x2029
    ||| u == 0x202f
    ||| u == 0x205f
    ||| u == 0x3000
}

/// Whether `s` holds nothing but white space.
pub open spec fn blank(s: Seq<char>) -> bool {
    forall|i: int| 0 <= i < s.len() ==> white_space(#[trigger] s[i])
}

/// `s` without its leading white space.
pub open spec fn trimmed_start(s: Seq<char>) -> Seq<char>
    decreases s.len(),
{
    if s.len() > 0 && white_space(s[0]) {
        trimmed_start(s.drop_first())
    } else {
        s
    }
}

/// Whether Unicode gives `c` the property White_Space.
pub fn is_white_space(c: char) -> (result: bool)
    ensures
        result == white_space(c),
{
    let u: u32 = c as u32;
    (0x9 <= u && u <= 0xd) || u == 0x20 || u == 0x85 || u == 0xa0 || u == 0x1680 || (0x2000 <= u
        && u <= 0x200a) || u == 0x2028 || u == 0x2029 || u == 0x202f || u == 0x205f || u == 0x3000
}

/// Whether `value` holds nothing but white space.
pub fn is_blank(value: &str) -> (result: bool)
    ensures
        result == blank(value@),
{
    for c in it: value.chars()
        invariant
            it.seq() == value@,
            forall|i: int| 0 <= i < it.index() ==> white_space(#[trigger] value@[i]),
    {
        if !is_white_space(c) {
            return false;
        }
    }
    true
}

/// `value` without its leading white space.
pub fn trim_start(value: &str) -> (result: &str)
    ensures
        result@ == trimmed_start(value@),
{
    let length: usize = value.unicode_len();
    let mut start: usize = 0;
    assert(value@.skip(0) =~= value@);
    while start < length && is_white_space(value.get_char(start))
        invariant
            start <= length,
            length == value@.len(),
            trimmed_start(value@) == trimmed_start(value@.skip(start as int)),
        decreases length - start,
    {
        assert(value@.skip(start as int).drop_first() =~= value@.skip(start + 1));
        start = start + 1;
    }
    assert(value@.subrange(start as int, length as int) =~= value@.skip(start as int));
    value.substring_char(start, length)
}

/// Whether two strings hold the same characters.
pub fn same_text(left: &str, right: &str) -> (result: bool)
    ensures
        result == (left@ == right@),
{
    left.to_owned() == right.to_owned()
}

/// Whether two byte strings are the same.
pub fn same_bytes(left: &[u8], right: &[u8]) -> (result: bool)
    ensures
        result == (left@ == right@),
{
    if left.len() != right.len() {
        return false;
    }
    for i in 0..left.len()
        invariant
            left@.len() == right@.len(),
            forall|j: int| 0 <= j < i ==> left@[j] == right@[j],
    {
        if left[i] != right[i] {
            return false;
        }
    }
    assert(left@ =~= right@);
    true
}

/// The bytes of an optional byte string.
pub open spec fn optional_bytes(value: Option<Vec<u8>>) -> Option<Seq<u8>> {
    match value {
        Some(bytes) => Some(bytes@),
        None => None,
    }
}

/// The character that stands for the value `d`, from nought to fifteen.
pub open spec fn digit(d: int) -> char {
    seq!['0', '1', '2', '3', '4', '5', '6', '7', '8', '9', 'a', 'b', 'c', 'd', 'e', 'f'][d]
}

/// `n` in decimal, without leading zeros.
pub open spec fn decimal(n: nat) -> Seq<char>
    decreases n,
{
    if n < 10 {
        seq![digit(n as int)]
    } else {
        decimal(n / 10).push(digit((n % 10) as int))
    }
}

/// `n` in decimal, with a minus sign where it is negative.
pub open spec fn signed_decimal(n: int) -> Seq<char> {
    if n < 0 {
        seq!['-'] + decimal((-n) as nat)
    } else {
        decimal(n as nat)
    }
}

fn decimal_digit(d: u64) -> (result: &'static str)
    requires
        d < 10,
    ensures
        result@ == seq![digit(d as int)],
{
    proof {
        reveal_strlit("0");
        reveal_strlit("1");
        reveal_strlit("2");
        reveal_strlit("3");
        reveal_strlit("4");
        reveal_strlit("5");
        reveal_strlit("6");
        reveal_strlit("7");
        reveal_strlit("8");
        reveal_strlit("9");
    }
    match d {
        0 => "0",
        1 => "1",
        2 => "2",
        3 => "3",
        4 => "4",
        5 => "5",
        6 => "6",
        7 => "7",
        8 => "8",
        _ => "9",
    }
}

/// `n` in decimal.
pub fn unsigned_text(n: u64) -> (result: String)
    ensures
        result@ == decimal(n as nat),
    decreases n,
{
    if n < 10 {
        decimal_digit(n).to_owned()
    } else {
        let mut leading = unsigned_text(n / 10);
        leading.append(decimal_digit(n % 10));
        assert(leading@ =~= decimal(n as nat));
        leading
    }
}

/// `n` in decimal, with a minus sign where it is negative.
pub fn signed_text(n: i64) -> (result: String)
    ensures
        result@ == signed_decimal(n as int),
{
    if n >= 0 {
        unsigned_text(n as u64)
    } else {
        proof {
            reveal_strlit("-");
        }
        let magnitude: u64 = (-(n + 1)) as u64 + 1;
        let mut result = "-".to_owned();
        result.append(unsigned_text(magnitude).as_str());
        assert(result@ =~= signed_decimal(n as int));
        result
    }
}

/// Each byte as two lower-case hexadecimal digits.
pub open spec fn hex(bytes: Seq<u8>) -> Seq<char> {
    Seq::new(
        2 * bytes.len(),
        |i: int|
            if i % 2 == 0 {
                digit(bytes[i / 2] as int / 16)
            } else {
                digit(bytes[i / 2] as int % 16)
            },
    )
}

/// The hexadecimal digit of `id` at `place`, counted from the most significant of 32.
pub open spec fn id_digit(id: Id, place: int) -> char {
    digit((id as int / pow(16, (31 - place) as nat)) % 16)
}

/// `id` as 32 lower-case hexadecimal digits in groups of 8, 4, 4, 4 and 12.
pub open spec fn hyphenated(id: Id) -> Seq<char> {
    Seq::new(
        36,
        |i: int|
            if i == 8 || i == 13 || i == 18 || i == 23 {
                '-'
            } else if i < 8 {
                id_digit(id, i)
            } else if i < 13 {
                id_digit(id, i - 1)
            } else if i < 18 {
                id_digit(id, i - 2)
            } else if i < 23 {
                id_digit(id, i - 3)
            } else {
                id_digit(id, i - 4)
            },
    )
}

/// Calls `hex::encode`, which writes each byte as two lower-case hexadecimal digits.
#[verifier::external_body]
pub(crate) fn hex_text(bytes: &[u8]) -> (result: String)
    ensures
        result@ == hex(bytes@),
{
    hex::encode(bytes)
}

/// Calls `to_string` of `uuid::Uuid` on the identifier with these 128 bits: 32 lower-case
/// hexadecimal digits with hyphens between groups of 8, 4, 4, 4 and 12.
#[verifier::external_body]
pub(crate) fn id_text(id: Id) -> (result: String)
    ensures
        result@ == hyphenated(id),
{
    uuid::Uuid::from_u128(id).to_string()
}

/// Whether `left` comes before `right` in the lexicographic order of byte strings.
pub open spec fn bytes_less(left: Seq<u8>, right: Seq<u8>) -> bool
    decreases left.len(),
{
    if right.len() == 0 {
        false
    } else if left.len() == 0 {
        true
    } else if left[0] != right[0] {
        left[0] < right[0]
    } else {
        bytes_less(left.drop_first(), right.drop_first())
    }
}

/// Whether `left` comes before `right` in the order of strings, which is that of their
/// UTF-8 bytes.
pub open spec fn text_less(left: Seq<char>, right: Seq<char>) -> bool {
    bytes_less(encode_utf8(left), encode_utf8(right))
}

/// Whether `left` comes before `right` in the order of strings.
pub fn is_text_less(left: &str, right: &str) -> (result: bool)
    ensures
        result == text_less(left@, right@),
{
    let a = left.as_bytes();
    let b = right.as_bytes();
    let mut i: usize = 0;
    assert(a@.skip(0) =~= a@);
    assert(b@.skip(0) =~= b@);
    while i < a.len() && i < b.len()
        invariant
            i <= a@.len(),
            i <= b@.len(),
            a@ == encode_utf8(left@),
            b@ == encode_utf8(right@),
            bytes_less(a@, b@) == bytes_less(a@.skip(i as int), b@.skip(i as int)),
        decreases a@.len() - i,
    {
        if a[i] != b[i] {
            return a[i] < b[i];
        }
        assert(a@.skip(i as int).drop_first() =~= a@.skip(i + 1));
        assert(b@.skip(i as int).drop_first() =~= b@.skip(i + 1));
        i = i + 1;
    }
    i < b.len()
}

proof fn lemma_bytes_less_irreflexive(a: Seq<u8>)
    ensures
        !bytes_less(a, a),
    decreases a.len(),
{
    if a.len() > 0 {
        lemma_bytes_less_irreflexive(a.drop_first());
    }
}

proof fn lemma_bytes_less_transitive(a: Seq<u8>, b: Seq<u8>, c: Seq<u8>)
    requires
        bytes_less(a, b),
        bytes_less(b, c),
    ensures
        bytes_less(a, c),
    decreases a.len(),
{
    if a.len() > 0 && b.len() > 0 && c.len() > 0 && a[0] == b[0] && b[0] == c[0] {
        lemma_bytes_less_transitive(a.drop_first(), b.drop_first(), c.drop_first());
    }
}

proof fn lemma_bytes_less_total(a: Seq<u8>, b: Seq<u8>)
    requires
        a != b,
    ensures
        bytes_less(a, b) || bytes_less(b, a),
    decreases a.len(),
{
    if a.len() > 0 && b.len() > 0 && a[0] == b[0] {
        if a.drop_first() == b.drop_first() {
            assert(a =~= seq![a[0]] + a.drop_first());
            assert(b =~= seq![b[0]] + b.drop_first());
        }
        lemma_bytes_less_total(a.drop_first(), b.drop_first());
    } else if a.len() == 0 && b.len() == 0 {
        assert(a =~= b);
    }
}

/// No string comes before itself.
pub proof fn lemma_text_less_irreflexive(a: Seq<char>)
    ensures
        !text_less(a, a),
{
    lemma_bytes_less_irreflexive(encode_utf8(a));
}

/// The order of strings is transitive.
pub proof fn lemma_text_less_transitive(a: Seq<char>, b: Seq<char>, c: Seq<char>)
    requires
        text_less(a, b),
        text_less(b, c),
    ensures
        text_less(a, c),
{
    lemma_bytes_less_transitive(encode_utf8(a), encode_utf8(b), encode_utf8(c));
}

/// Of two different strings one comes before the other.
pub proof fn lemma_text_less_total(a: Seq<char>, b: Seq<char>)
    requires
        a != b,
    ensures
        text_less(a, b) || text_less(b, a),
{
    encode_utf8_decode_utf8(a);
    encode_utf8_decode_utf8(b);
    lemma_bytes_less_total(encode_utf8(a), encode_utf8(b));
}

} // verus!

//! Text building blocks: hexadecimal and decimal digits, UUID text forms and
//! JSON string literals.

use vstd::prelude::*;
use vstd::string::*;

verus! {

/// Appends one character to a string (std's `String::push`).
#[verifier::external_body]
pub(crate) fn push_char(s: &mut String, c: char)
    ensures
        final(s)@ == old(s)@.push(c),
{
    s.push(c);
}

/// The lowercase hexadecimal digit of a value below 16.
pub open spec fn hex_char(n: int) -> char {
    if n < 10 {
        (48 + n) as char
    } else {
        (87 + n) as char
    }
}

/// The decimal digit of a value below 10.
pub open spec fn digit_char(n: int) -> char {
    (48 + n) as char
}

/// Nibble `i` of a 128-bit value, counting from the most significant one.
pub open spec fn nibble(x: u128, i: int) -> u128 {
    (x >> ((124 - 4 * i) as u128)) & 0xf
}

/// The 32 lowercase hexadecimal digits of a UUID, most significant first.
pub open spec fn uuid_simple(x: u128) -> Seq<char> {
    Seq::new(32, |i: int| hex_char(nibble(x, i) as int))
}

/// The hyphenated text of a UUID: its 32 digits in groups of 8, 4, 4, 4 and
/// 12, separated by `-` at positions 8, 13, 18 and 23.
pub open spec fn uuid_hyphenated(x: u128) -> Seq<char> {
    Seq::new(
        36,
        |k: int|
            if k == 8 || k == 13 || k == 18 || k == 23 {
                '-'
            } else {
                uuid_simple(x)[k - hyphens_before(k)]
            },
    )
}

/// How many separators the hyphenated text holds before position `k`.
pub open spec fn hyphens_before(k: int) -> int {
    (if k > 8 { 1int } else { 0int }) + (if k > 13 { 1int } else { 0int }) + (if k > 18 { 1int } else { 0int })
        + (if k > 23 { 1int } else { 0int })
}

/// Every digit of a UUID's 32-digit text is a lowercase hexadecimal digit.
pub proof fn lemma_nibble_below_16(x: u128, i: int)
    requires
        0 <= i < 32,
    ensures
        nibble(x, i) < 16,
        ('0' <= uuid_simple(x)[i] <= '9') || ('a' <= uuid_simple(x)[i] <= 'f'),
{
    lemma_nibble_small(x, (124 - 4 * i) as u128);
}

proof fn lemma_nibble_small(x: u128, s: u128)
    ensures
        (x >> s) & 0xf < 16,
{
    assert((x >> s) & 0xf < 16) by (bit_vector);
}

fn hex_digit(n: u128) -> (c: char)
    requires
        n < 16,
    ensures
        c == hex_char(n as int),
{
    if n < 10 {
        let b: u8 = 48 + (n as u8);
        b as char
    } else {
        let b: u8 = 87 + (n as u8);
        b as char
    }
}

/// The 32-digit lowercase hexadecimal text of a UUID.
pub fn uuid_to_simple(x: u128) -> (s: String)
    ensures
        s@ == uuid_simple(x),
{
    let mut s = String::new();
    let mut i: u32 = 0;
    while i < 32
        invariant
            i <= 32,
            s@.len() == i,
            forall|j: int| 0 <= j < i ==> s@[j] == hex_char(nibble(x, j) as int),
        decreases 32 - i,
    {
        let shift: u32 = 124 - 4 * i;
        proof {
            lemma_nibble_small(x, shift as u128);
        }
        let n: u128 = (x >> shift) & 0xf;
        assert(n == nibble(x, i as int));
        push_char(&mut s, hex_digit(n));
        i = i + 1;
    }
    assert(s@ =~= uuid_simple(x));
    s
}

/// The hyphenated lowercase text of a UUID, as `Uuid`'s `Display` writes it.
pub fn uuid_to_hyphenated(x: u128) -> (s: String)
    ensures
        s@ == uuid_hyphenated(x),
{
    let d = uuid_to_simple(x);
    let mut s = String::new();
    let mut k: usize = 0;
    let mut j: usize = 0;
    while k < 36
        invariant
            k <= 36,
            d@ == uuid_simple(x),
            j == k - hyphens_before(k as int),
            s@.len() == k,
            forall|m: int| 0 <= m < k ==> s@[m] == uuid_hyphenated(x)[m],
        decreases 36 - k,
    {
        if k == 8 || k == 13 || k == 18 || k == 23 {
            push_char(&mut s, '-');
        } else {
            let c = d.as_str().get_char(j);
            push_char(&mut s, c);
            j = j + 1;
        }
        k = k + 1;
    }
    assert(s@ =~= uuid_hyphenated(x));
    s
}

/// The decimal digits of a natural number, without leading zeros.
pub open spec fn decimal_nat(n: nat) -> Seq<char>
    decreases n,
{
    if n < 10 {
        seq![digit_char(n as int)]
    } else {
        decimal_nat(n / 10).push(digit_char((n % 10) as int))
    }
}

/// The decimal text of an integer, with a leading `-` when it is negative.
pub open spec fn decimal_int(n: int) -> Seq<char> {
    if n < 0 {
        seq!['-'] + decimal_nat((-n) as nat)
    } else {
        decimal_nat(n as nat)
    }
}

fn push_decimal_u64(s: &mut String, n: u64)
    ensures
        final(s)@ == old(s)@ + decimal_nat(n as nat),
    decreases n,
{
    if n >= 10 {
        push_decimal_u64(s, n / 10);
    }
    let d: u8 = 48 + ((n % 10) as u8);
    push_char(s, d as char);
    assert(final(s)@ =~= old(s)@ + decimal_nat(n as nat));
}

/// Appends the decimal text of `n`, as `Display` writes an `i64`.
pub fn push_decimal_i64(s: &mut String, n: i64)
    ensures
        final(s)@ == old(s)@ + decimal_int(n as int),
{
    if n < 0 {
        push_char(s, '-');
        let m: u64 = if n == i64::MIN {
            9223372036854775808u64
        } else {
            (-n) as u64
        };
        push_decimal_u64(s, m);
        assert(final(s)@ =~= old(s)@ + decimal_int(n as int));
    } else {
        push_decimal_u64(s, n as u64);
    }
}

/// How a JSON writer spells one character inside a string literal: `"` and
/// `\` and the control characters below U+0020 are escaped, with the short
/// forms `\b`, `\t`, `\n`, `\f`, `\r` where they exist and `\u00XX` (lowercase
/// hexadecimal) otherwise; every other character stands for itself.
pub open spec fn json_escape_char(c: char) -> Seq<char> {
    let n = c as int;
    if c == '"' {
        seq!['\\', '"']
    } else if c == '\\' {
        seq!['\\', '\\']
    } else if n == 8 {
        seq!['\\', 'b']
    } else if n == 9 {
        seq!['\\', 't']
    } else if n == 10 {
        seq!['\\', 'n']
    } else if n == 12 {
        seq!['\\', 'f']
    } else if n == 13 {
        seq!['\\', 'r']
    } else if n < 32 {
        seq!['\\', 'u', '0', '0', hex_char(n / 16), hex_char(n % 16)]
    } else {
        seq![c]
    }
}

/// The escaped body of a JSON string literal.
pub open spec fn json_escape(s: Seq<char>) -> Seq<char>
    decreases s.len(),
{
    if s.len() == 0 {
        Seq::empty()
    } else {
        json_escape(s.drop_last()) + json_escape_char(s.last())
    }
}

/// A JSON string literal: the escaped text between double quotes.
pub open spec fn json_string(s: Seq<char>) -> Seq<char> {
    seq!['"'] + json_escape(s) + seq!['"']
}

fn push_json_escaped_char(s: &mut String, c: char)
    ensures
        final(s)@ == old(s)@ + json_escape_char(c),
{
    let n: u32 = c as u32;
    if c == '"' {
        push_char(s, '\\');
        push_char(s, '"');
    } else if c == '\\' {
        push_char(s, '\\');
        push_char(s, '\\');
    } else if n == 8 {
        push_char(s, '\\');
        push_char(s, 'b');
    } else if n == 9 {
        push_char(s, '\\');
        push_char(s, 't');
    } else if n == 10 {
        push_char(s, '\\');
        push_char(s, 'n');
    } else if n == 12 {
        push_char(s, '\\');
        push_char(s, 'f');
    } else if n == 13 {
        push_char(s, '\\');
        push_char(s, 'r');
    } else if n < 32 {
        push_char(s, '\\');
        push_char(s, 'u');
        push_char(s, '0');
        push_char(s, '0');
        push_char(s, hex_digit((n / 16) as u128));
        push_char(s, hex_digit((n % 16) as u128));
    } else {
        push_char(s, c);
    }
    assert(final(s)@ =~= old(s)@ + json_escape_char(c));
}

/// Appends `t` as a JSON string literal, quoted and escaped as `serde_json`
/// writes it.
pub fn push_json_string(s: &mut String, t: &str)
    ensures
        final(s)@ == old(s)@ + json_string(t@),
{
    let ghost start = s@;
    push_char(s, '"');
    for c in it: t.chars()
        invariant
            it.seq() == t@,
            s@ == start + seq!['"'] + json_escape(t@.take(it.index())),
    {
        assert(t@.take(it.index() + 1).drop_last() =~= t@.take(it.index()));
        push_json_escaped_char(s, c);
    }
    assert(t@.take(t@.len() as int) =~= t@);
    push_char(s, '"');
    assert(s@ =~= start + json_string(t@));
}

proof fn lemma_hex_char_injective(a: int, b: int)
    requires
        0 <= a < 16,
        0 <= b < 16,
        hex_char(a) == hex_char(b),
    ensures
        a == b,
{
}

/// Different UUIDs have different hexadecimal digits.
pub proof fn lemma_uuid_simple_injective(x: u128, y: u128)
    requires
        uuid_simple(x) == uuid_simple(y),
    ensures
        x == y,
{
    assert forall|i: int| 0 <= i < 32 implies #[trigger] nibble(x, i) == nibble(y, i) by {
        lemma_nibble_small(x, (124 - 4 * i) as u128);
        lemma_nibble_small(y, (124 - 4 * i) as u128);
        assert(uuid_simple(x)[i] == hex_char(nibble(x, i) as int));
        assert(uuid_simple(y)[i] == hex_char(nibble(y, i) as int));
        lemma_hex_char_injective(nibble(x, i) as int, nibble(y, i) as int);
    }
    assert(x == y) by (bit_vector)
        requires
            nibble(x, 0) == nibble(y, 0),
            nibble(x, 1) == nibble(y, 1),
            nibble(x, 2) == nibble(y, 2),
            nibble(x, 3) == nibble(y, 3),
            nibble(x, 4) == nibble(y, 4),
            nibble(x, 5) == nibble(y, 5),
            nibble(x, 6) == nibble(y, 6),
            nibble(x, 7) == nibble(y, 7),
            nibble(x, 8) == nibble(y, 8),
            nibble(x, 9) == nibble(y, 9),
            nibble(x, 10) == nibble(y, 10),
            nibble(x, 11) == nibble(y, 11),
            nibble(x, 12) == nibble(y, 12),
            nibble(x, 13) == nibble(y, 13),
            nibble(x, 14) == nibble(y, 14),
            nibble(x, 15) == nibble(y, 15),
            nibble(x, 16) == nibble(y, 16),
            nibble(x, 17) == nibble(y, 17),
            nibble(x, 18) == nibble(y, 18),
            nibble(x, 19) == nibble(y, 19),
            nibble(x, 20) == nibble(y, 20),
            nibble(x, 21) == nibble(y, 21),
            nibble(x, 22) == nibble(y, 22),
            nibble(x, 23) == nibble(y, 23),
            nibble(x, 24) == nibble(y, 24),
            nibble(x, 25) == nibble(y, 25),
            nibble(x, 26) == nibble(y, 26),
            nibble(x, 27) == nibble(y, 27),
            nibble(x, 28) == nibble(y, 28),
            nibble(x, 29) == nibble(y, 29),
            nibble(x, 30) == nibble(y, 30),
            nibble(x, 31) == nibble(y, 31),
    ;
}

/// Different UUIDs have different hyphenated texts.
pub proof fn lemma_uuid_hyphenated_injective(x: u128, y: u128)
    requires
        uuid_hyphenated(x) == uuid_hyphenated(y),
    ensures
        x == y,
{
    assert forall|j: int| 0 <= j < 32 implies uuid_simple(x)[j] == uuid_simple(y)[j] by {
        let k = j + (if j >= 8 { 1int } else { 0int }) + (if j >= 12 { 1int } else { 0int }) + (if j >= 16 { 1int } else { 0int }) + (if j >= 20 { 1int } else { 0int });
        assert(k - hyphens_before(k) == j);
        assert(!(k == 8 || k == 13 || k == 18 || k == 23));
        assert(uuid_hyphenated(x)[k] == uuid_simple(x)[j]);
        assert(uuid_hyphenated(y)[k] == uuid_simple(y)[j]);
    }
    assert(uuid_simple(x) =~= uuid_simple(y));
    lemma_uuid_simple_injective(x, y);
}

} // verus!

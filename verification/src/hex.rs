use vstd::prelude::*;

verus! {

/// The sixteen hexadecimal digits, lowercase letters.
pub open spec fn hex_char_lower(n: int) -> char {
    if n == 0 {
        '0'
    } else if n == 1 {
        '1'
    } else if n == 2 {
        '2'
    } else if n == 3 {
        '3'
    } else if n == 4 {
        '4'
    } else if n == 5 {
        '5'
    } else if n == 6 {
        '6'
    } else if n == 7 {
        '7'
    } else if n == 8 {
        '8'
    } else if n == 9 {
        '9'
    } else if n == 10 {
        'a'
    } else if n == 11 {
        'b'
    } else if n == 12 {
        'c'
    } else if n == 13 {
        'd'
    } else if n == 14 {
        'e'
    } else {
        'f'
    }
}

/// The sixteen hexadecimal digits, uppercase letters.
pub open spec fn hex_char_upper(n: int) -> char {
    if n == 0 {
        '0'
    } else if n == 1 {
        '1'
    } else if n == 2 {
        '2'
    } else if n == 3 {
        '3'
    } else if n == 4 {
        '4'
    } else if n == 5 {
        '5'
    } else if n == 6 {
        '6'
    } else if n == 7 {
        '7'
    } else if n == 8 {
        '8'
    } else if n == 9 {
        '9'
    } else if n == 10 {
        'A'
    } else if n == 11 {
        'B'
    } else if n == 12 {
        'C'
    } else if n == 13 {
        'D'
    } else if n == 14 {
        'E'
    } else {
        'F'
    }
}

/// Lowercase hex rendering of a byte sequence: two digits per byte, high
/// nibble first, no separators.
pub open spec fn hex_lower(bytes: Seq<u8>) -> Seq<char> {
    Seq::new(
        2 * bytes.len(),
        |i: int|
            if i % 2 == 0 {
                hex_char_lower(bytes[i / 2] as int / 16)
            } else {
                hex_char_lower(bytes[i / 2] as int % 16)
            },
    )
}

/// Two uppercase hex digits of a value in [0, 256), high nibble first.
pub open spec fn hex2_upper(v: int) -> Seq<char> {
    seq![hex_char_upper(v / 16), hex_char_upper(v % 16)]
}

/// Appends the lowercase hex digit for a nibble to a string.
fn append_hex_digit_lower(s: &mut String, n: u8)
    requires
        n < 16,
    ensures
        final(s)@ == old(s)@.push(hex_char_lower(n as int)),
{
    proof {
        reveal_strlit("0");
        reveal_strlit("1");
        reveal_strlit("2");
        reveal_strlit("3");
        reveal_strlit("4");
        reveal_strlit("5");
        reveal_strlit("6");
        reveal_strlit("7");
        reveal_strlit("8");
        reveal_strlit("9");
        reveal_strlit("a");
        reveal_strlit("b");
        reveal_strlit("c");
        reveal_strlit("d");
        reveal_strlit("e");
        reveal_strlit("f");
    }
    let d: &str = match n {
        0 => "0",
        1 => "1",
        2 => "2",
        3 => "3",
        4 => "4",
        5 => "5",
        6 => "6",
        7 => "7",
        8 => "8",
        9 => "9",
        10 => "a",
        11 => "b",
        12 => "c",
        13 => "d",
        14 => "e",
        _ => "f",
    };
    assert(d@ =~= seq![hex_char_lower(n as int)]);
    s.append(d);
    assert(s@ =~= old(s)@.push(hex_char_lower(n as int)));
}

/// Appends the uppercase hex digit for a nibble to a string.
fn append_hex_digit_upper(s: &mut String, n: u8)
    requires
        n < 16,
    ensures
        final(s)@ == old(s)@.push(hex_char_upper(n as int)),
{
    proof {
        reveal_strlit("0");
        reveal_strlit("1");
        reveal_strlit("2");
        reveal_strlit("3");
        reveal_strlit("4");
        reveal_strlit("5");
        reveal_strlit("6");
        reveal_strlit("7");
        reveal_strlit("8");
        reveal_strlit("9");
        reveal_strlit("A");
        reveal_strlit("B");
        reveal_strlit("C");
        reveal_strlit("D");
        reveal_strlit("E");
        reveal_strlit("F");
    }
    let d: &str = match n {
        0 => "0",
        1 => "1",
        2 => "2",
        3 => "3",
        4 => "4",
        5 => "5",
        6 => "6",
        7 => "7",
        8 => "8",
        9 => "9",
        10 => "A",
        11 => "B",
        12 => "C",
        13 => "D",
        14 => "E",
        _ => "F",
    };
    assert(d@ =~= seq![hex_char_upper(n as int)]);
    s.append(d);
    assert(s@ =~= old(s)@.push(hex_char_upper(n as int)));
}

/// Appends the two lowercase hex digits of one byte to a string.
fn append_byte_hex_lower(s: &mut String, b: u8)
    ensures
        final(s)@ == old(s)@.push(hex_char_lower(b as int / 16)).push(hex_char_lower(b as int % 16)),
{
    append_hex_digit_lower(s, b / 16);
    append_hex_digit_lower(s, b % 16);
}

/// Appends the two uppercase hex digits of one byte to a string.
pub fn append_byte_hex_upper(s: &mut String, b: u8)
    ensures
        final(s)@ == old(s)@ + hex2_upper(b as int),
{
    append_hex_digit_upper(s, b / 16);
    append_hex_digit_upper(s, b % 16);
    assert(s@ =~= old(s)@ + hex2_upper(b as int));
}

/// Renders a byte sequence as lowercase hex, two digits per byte.
pub fn to_hex_lower(bytes: &Vec<u8>) -> (r: String)
    ensures
        r@ == hex_lower(bytes@),
{
    let mut s = String::new();
    let mut i: usize = 0;
    while i < bytes.len()
        invariant
            i <= bytes@.len(),
            s@ == hex_lower(bytes@.subrange(0, i as int)),
        decreases bytes@.len() - i,
    {
        append_byte_hex_lower(&mut s, bytes[i]);
        i = i + 1;
        assert(s@ =~= hex_lower(bytes@.subrange(0, i as int)));
    }
    assert(bytes@.subrange(0, bytes@.len() as int) =~= bytes@);
    s
}

/// Distinct nibbles have distinct lowercase hex digits.
proof fn lemma_hex_char_lower_injective(a: int, b: int)
    requires
        0 <= a < 16,
        0 <= b < 16,
        hex_char_lower(a) == hex_char_lower(b),
    ensures
        a == b,
{
}

/// Lowercase hex rendering loses nothing: equal renderings come only from
/// equal byte sequences.
pub proof fn lemma_hex_lower_injective(b1: Seq<u8>, b2: Seq<u8>)
    requires
        hex_lower(b1) == hex_lower(b2),
    ensures
        b1 == b2,
{
    assert(hex_lower(b1).len() == 2 * b1.len());
    assert(hex_lower(b2).len() == 2 * b2.len());
    assert(b1.len() == b2.len());
    assert forall|i: int| 0 <= i < b1.len() implies b1[i] == b2[i] by {
        let a1 = b1[i] as int;
        let a2 = b2[i] as int;
        assert((2 * i) % 2 == 0 && (2 * i) / 2 == i);
        assert((2 * i + 1) % 2 == 1 && (2 * i + 1) / 2 == i);
        assert(hex_lower(b1)[2 * i] == hex_char_lower(a1 / 16));
        assert(hex_lower(b2)[2 * i] == hex_char_lower(a2 / 16));
        assert(hex_lower(b1)[2 * i + 1] == hex_char_lower(a1 % 16));
        assert(hex_lower(b2)[2 * i + 1] == hex_char_lower(a2 % 16));
        lemma_hex_char_lower_injective(a1 / 16, a2 / 16);
        lemma_hex_char_lower_injective(a1 % 16, a2 % 16);
    }
    assert(b1 =~= b2);
}

} // verus!

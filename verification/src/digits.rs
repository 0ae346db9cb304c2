//! Hexadecimal and decimal text rendering.
//!
//! Cache paths render a digest as lower-case hex and a cache version as
//! decimal.  Both renderings are specified character by character so that
//! the exact shape of a path can be stated and proved.

use vstd::prelude::*;

verus! {

/// The lower-case hexadecimal digit character for a value below 16.
pub open spec fn hex_char(d: u8) -> char {
    if d == 0 {
        '0'
    } else if d == 1 {
        '1'
    } else if d == 2 {
        '2'
    } else if d == 3 {
        '3'
    } else if d == 4 {
        '4'
    } else if d == 5 {
        '5'
    } else if d == 6 {
        '6'
    } else if d == 7 {
        '7'
    } else if d == 8 {
        '8'
    } else if d == 9 {
        '9'
    } else if d == 10 {
        'a'
    } else if d == 11 {
        'b'
    } else if d == 12 {
        'c'
    } else if d == 13 {
        'd'
    } else if d == 14 {
        'e'
    } else {
        'f'
    }
}

/// Two hexadecimal digits for one byte, high nibble first.
pub open spec fn hex_byte(b: u8) -> Seq<char> {
    seq![hex_char(b / 16), hex_char(b % 16)]
}

/// Lower-case hexadecimal rendering of a byte sequence: two digits per byte.
pub open spec fn hex_of(bytes: Seq<u8>) -> Seq<char>
    decreases bytes.len(),
{
    if bytes.len() == 0 {
        Seq::empty()
    } else {
        hex_of(bytes.drop_last()) + hex_byte(bytes.last())
    }
}

/// The hex rendering is always exactly twice as long as its input.
pub proof fn lemma_hex_of_len(bytes: Seq<u8>)
    ensures
        hex_of(bytes).len() == 2 * bytes.len(),
    decreases bytes.len(),
{
    if bytes.len() > 0 {
        lemma_hex_of_len(bytes.drop_last());
    }
}

/// The decimal digit character for a value below 10.
pub open spec fn dec_char(d: u32) -> char {
    if d == 0 {
        '0'
    } else if d == 1 {
        '1'
    } else if d == 2 {
        '2'
    } else if d == 3 {
        '3'
    } else if d == 4 {
        '4'
    } else if d == 5 {
        '5'
    } else if d == 6 {
        '6'
    } else if d == 7 {
        '7'
    } else if d == 8 {
        '8'
    } else {
        '9'
    }
}

/// Decimal rendering of a number, most significant digit first, with no
/// leading zeros (zero itself renders as a single `'0'`).
pub open spec fn dec_of(n: u32) -> Seq<char>
    decreases n,
{
    if n < 10 {
        seq![dec_char(n)]
    } else {
        dec_of(n / 10).push(dec_char(n % 10))
    }
}

/// A decimal rendering is never empty.
pub proof fn lemma_dec_of_nonempty(n: u32)
    ensures
        dec_of(n).len() >= 1,
    decreases n,
{
    if n >= 10 {
        lemma_dec_of_nonempty(n / 10);
    }
}

/// Whether a character can appear in a hex rendering.
pub open spec fn is_hex_digit(c: char) -> bool {
    exists|d: u8| d < 16 && hex_char(d) == c
}

/// Whether a character can appear in a decimal rendering.
pub open spec fn is_dec_digit(c: char) -> bool {
    exists|d: u32| d < 10 && dec_char(d) == c
}

/// Every character of a hex rendering is a hex digit.
pub proof fn lemma_hex_of_digits(bytes: Seq<u8>)
    ensures
        forall|i: int| 0 <= i < hex_of(bytes).len() ==> is_hex_digit(#[trigger] hex_of(bytes)[i]),
    decreases bytes.len(),
{
    if bytes.len() > 0 {
        lemma_hex_of_digits(bytes.drop_last());
        let b = bytes.last();
        let rec = hex_of(bytes.drop_last());
        assert forall|i: int| 0 <= i < hex_of(bytes).len() implies is_hex_digit(
            #[trigger] hex_of(bytes)[i],
        ) by {
            if i < rec.len() {
                assert(hex_of(bytes)[i] == rec[i]);
            } else if i == rec.len() {
                assert(b / 16 < 16 && hex_of(bytes)[i] == hex_char(b / 16));
            } else {
                assert(b % 16 < 16 && hex_of(bytes)[i] == hex_char(b % 16));
            }
        }
    }
}

/// Every character of a decimal rendering is a decimal digit.
pub proof fn lemma_dec_of_digits(n: u32)
    ensures
        forall|i: int| 0 <= i < dec_of(n).len() ==> is_dec_digit(#[trigger] dec_of(n)[i]),
    decreases n,
{
    if n < 10 {
        assert(n < 10 && dec_of(n)[0] == dec_char(n));
    } else {
        lemma_dec_of_digits(n / 10);
        let rec = dec_of(n / 10);
        assert forall|i: int| 0 <= i < dec_of(n).len() implies is_dec_digit(
            #[trigger] dec_of(n)[i],
        ) by {
            if i < rec.len() {
                assert(dec_of(n)[i] == rec[i]);
            } else {
                assert(n % 10 < 10 && dec_of(n)[i] == dec_char(n % 10));
            }
        }
    }
}

fn hex_char_str(d: u8) -> (r: &'static str)
    requires
        d < 16,
    ensures
        r@ == seq![hex_char(d)],
{
    proof {
        reveal_strlit("0");
        reveal_strlit("1");
        reveal_strlit("2");
        reveal_strlit("3");
        reveal_strlit("4");
        reveal_strlit("5");
        reveal_strlit("6");
        reveal_strlit("7");
        reveal_strlit("8");
        reveal_strlit("9");
        reveal_strlit("a");
        reveal_strlit("b");
        reveal_strlit("c");
        reveal_strlit("d");
        reveal_strlit("e");
        reveal_strlit("f");
    }
    let r: &'static str = if d == 0 {
        "0"
    } else if d == 1 {
        "1"
    } else if d == 2 {
        "2"
    } else if d == 3 {
        "3"
    } else if d == 4 {
        "4"
    } else if d == 5 {
        "5"
    } else if d == 6 {
        "6"
    } else if d == 7 {
        "7"
    } else if d == 8 {
        "8"
    } else if d == 9 {
        "9"
    } else if d == 10 {
        "a"
    } else if d == 11 {
        "b"
    } else if d == 12 {
        "c"
    } else if d == 13 {
        "d"
    } else if d == 14 {
        "e"
    } else {
        "f"
    };
    proof {
        assert(r@ =~= seq![hex_char(d)]);
    }
    r
}

fn dec_char_str(d: u32) -> (r: &'static str)
    requires
        d < 10,
    ensures
        r@ == seq![dec_char(d)],
{
    proof {
        reveal_strlit("0");
        reveal_strlit("1");
        reveal_strlit("2");
        reveal_strlit("3");
        reveal_strlit("4");
        reveal_strlit("5");
        reveal_strlit("6");
        reveal_strlit("7");
        reveal_strlit("8");
        reveal_strlit("9");
    }
    let r: &'static str = if d == 0 {
        "0"
    } else if d == 1 {
        "1"
    } else if d == 2 {
        "2"
    } else if d == 3 {
        "3"
    } else if d == 4 {
        "4"
    } else if d == 5 {
        "5"
    } else if d == 6 {
        "6"
    } else if d == 7 {
        "7"
    } else if d == 8 {
        "8"
    } else {
        "9"
    };
    proof {
        assert(r@ =~= seq![dec_char(d)]);
    }
    r
}

/// Appends the two hex digits of one byte.
pub fn push_hex_byte(s: &mut String, b: u8)
    ensures
        final(s)@ == old(s)@ + hex_byte(b),
{
    s.append(hex_char_str(b / 16));
    s.append(hex_char_str(b % 16));
    proof {
        assert(s@ =~= old(s)@ + hex_byte(b));
    }
}

/// Appends the hex rendering of `bytes[from..to]`.
pub fn push_hex(s: &mut String, bytes: &[u8; 32], from: usize, to: usize)
    requires
        from <= to <= 32,
    ensures
        final(s)@ == old(s)@ + hex_of(bytes@.subrange(from as int, to as int)),
{
    let ghost base: Seq<char> = s@;
    let mut i = from;
    while i < to
        invariant
            from <= i <= to <= 32,
            bytes@.len() == 32,
            s@ == base + hex_of(bytes@.subrange(from as int, i as int)),
        decreases to - i,
    {
        let b = bytes[i];
        push_hex_byte(s, b);
        proof {
            let pre = bytes@.subrange(from as int, i as int);
            let post = bytes@.subrange(from as int, i + 1 as int);
            assert(post.drop_last() =~= pre);
            assert(post.last() == b);
            assert(s@ =~= base + hex_of(post));
        }
        i += 1;
    }
    proof {
        assert(bytes@.subrange(from as int, to as int) == bytes@.subrange(
            from as int,
            i as int,
        ));
    }
}

/// Appends the decimal rendering of `n`.
pub fn push_dec(s: &mut String, n: u32)
    ensures
        final(s)@ == old(s)@ + dec_of(n),
    decreases n,
{
    if n < 10 {
        s.append(dec_char_str(n));
        proof {
            assert(s@ =~= old(s)@ + dec_of(n));
        }
    } else {
        push_dec(s, n / 10);
        s.append(dec_char_str(n % 10));
        proof {
            assert(s@ =~= old(s)@ + dec_of(n));
        }
    }
}

} // verus!

//! Lower-case hexadecimal text of fixed width.

use vstd::prelude::*;

verus! {

/// Sixteen to the power `n`.
pub open spec fn pow16(n: nat) -> int
    decreases n,
{
    if n == 0 {
        1
    } else {
        16 * pow16((n - 1) as nat)
    }
}

/// The character that writes the hexadecimal digit `d`.
pub open spec fn hex_digit(d: int) -> char {
    if d < 10 {
        ('0' as int + d) as char
    } else {
        ('a' as int + d - 10) as char
    }
}

/// The value of the hexadecimal digit `c`; capital letters are no digits.
pub open spec fn hex_digit_value(c: char) -> Option<int> {
    if '0' <= c <= '9' {
        Some(c as int - '0' as int)
    } else if 'a' <= c <= 'f' {
        Some(c as int - 'a' as int + 10)
    } else {
        None
    }
}

/// The last `width` hexadecimal digits of `v`, most significant first.
pub open spec fn hex_text(v: int, width: nat) -> Seq<char>
    decreases width,
{
    if width == 0 {
        Seq::empty()
    } else {
        hex_text(v / 16, (width - 1) as nat).push(hex_digit(v % 16))
    }
}

/// The number that `text` writes in hexadecimal, or `None` where some
/// character of it is no digit.
pub open spec fn hex_value(text: Seq<char>) -> Option<int>
    decreases text.len(),
{
    if text.len() == 0 {
        Some(0)
    } else {
        match (hex_value(text.drop_last()), hex_digit_value(text.last())) {
            (Some(high), Some(low)) => Some(high * 16 + low),
            _ => None,
        }
    }
}

/// The bytes of `bytes` in order, each written with two digits.
pub open spec fn hex_bytes(bytes: Seq<u8>) -> Seq<char>
    decreases bytes.len(),
{
    if bytes.len() == 0 {
        Seq::empty()
    } else {
        hex_bytes(bytes.drop_last()) + hex_text(bytes.last() as int, 2)
    }
}

/// A text of `width` digits has `width` characters.
pub proof fn lemma_hex_text_len(v: int, width: nat)
    ensures
        hex_text(v, width).len() == width,
    decreases width,
{
    if width > 0 {
        lemma_hex_text_len(v / 16, (width - 1) as nat);
    }
}

/// Reading back what was written gives the number again, provided the
/// number fits into the width.
pub proof fn lemma_hex_round_trip(v: int, width: nat)
    requires
        0 <= v < pow16(width),
    ensures
        hex_value(hex_text(v, width)) == Some(v),
    decreases width,
{
    if width > 0 {
        let shorter = hex_text(v / 16, (width - 1) as nat);
        lemma_hex_round_trip(v / 16, (width - 1) as nat);
        assert(hex_text(v, width).drop_last() == shorter);
        assert(hex_digit_value(hex_digit(v % 16)) == Some(v % 16));
    }
}

/// A text of `n` digits writes a number below sixteen to the `n`.
pub proof fn lemma_hex_value_bound(text: Seq<char>)
    ensures
        hex_value(text) matches Some(v) ==> 0 <= v < pow16(text.len()),
    decreases text.len(),
{
    if text.len() > 0 {
        lemma_hex_value_bound(text.drop_last());
    }
}

/// Sixteen digits write exactly the numbers of 64 bits.
pub proof fn lemma_pow16_sixteen()
    ensures
        pow16(16) == 0x1_0000_0000_0000_0000,
{
    reveal_with_fuel(pow16, 17);
}

/// Two digits for each byte.
pub proof fn lemma_hex_bytes_len(bytes: Seq<u8>)
    ensures
        hex_bytes(bytes).len() == 2 * bytes.len(),
    decreases bytes.len(),
{
    if bytes.len() > 0 {
        lemma_hex_bytes_len(bytes.drop_last());
        lemma_hex_text_len(bytes.last() as int, 2);
    }
}

fn hex_digit_of(d: u8) -> (c: char)
    requires
        d < 16,
    ensures
        c == hex_digit(d as int),
{
    if d < 10 {
        (48u8 + d) as char
    } else {
        (87u8 + d) as char
    }
}

fn hex_digit_value_of(c: char) -> (r: Option<u8>)
    ensures
        match r {
            Some(d) => hex_digit_value(c) == Some(d as int) && d < 16,
            None => hex_digit_value(c) is None,
        },
{
    if '0' <= c && c <= '9' {
        Some(((c as u32) - 48) as u8)
    } else if 'a' <= c && c <= 'f' {
        Some(((c as u32) - 87) as u8)
    } else {
        None
    }
}

/// Appends the last `width` hexadecimal digits of `v` to `out`.
pub fn push_hex(out: &mut String, v: u64, width: u8)
    ensures
        final(out)@ == old(out)@ + hex_text(v as int, width as nat),
    decreases width,
{
    if width > 0 {
        push_hex(out, v / 16, width - 1);
        out.push(hex_digit_of((v % 16) as u8));
        assert(final(out)@ =~= old(out)@ + hex_text(v as int, width as nat));
    } else {
        assert(out@ =~= old(out)@ + hex_text(v as int, 0));
    }
}

/// The bytes of `bytes` in order, each written with two digits.
pub fn encode_bytes(bytes: &Vec<u8>) -> (text: String)
    ensures
        text@ == hex_bytes(bytes@),
{
    let mut text = String::new();
    let mut i: usize = 0;
    while i < bytes.len()
        invariant
            i <= bytes.len(),
            text@ == hex_bytes(bytes@.take(i as int)),
        decreases bytes.len() - i,
    {
        assert(bytes@.take(i + 1).drop_last() == bytes@.take(i as int));
        push_hex(&mut text, bytes[i] as u64, 2);
        i += 1;
    }
    assert(bytes@.take(bytes.len() as int) == bytes@);
    text
}

/// Reads the sixteen characters of `chars` from position `from` on as a
/// number of 64 bits.
pub fn parse_hex_u64(chars: &Vec<char>, from: usize) -> (r: Option<u64>)
    requires
        from + 16 <= chars.len(),
    ensures
        match r {
            Some(v) => hex_value(chars@.subrange(from as int, from + 16)) == Some(v as int),
            None => hex_value(chars@.subrange(from as int, from + 16)) is None,
        },
{
    let ghost field = chars@.subrange(from as int, from + 16);
    let mut acc: u64 = 0;
    let mut i: usize = 0;
    while i < 16
        invariant
            i <= 16,
            from + 16 <= chars.len(),
            field == chars@.subrange(from as int, from + 16),
            hex_value(field.take(i as int)) == Some(acc as int),
        decreases 16 - i,
    {
        let ghost read = field.take(i as int);
        let ghost next = field.take(i + 1);
        proof {
            assert(next.drop_last() == read);
            assert(next.last() == chars@[from + i]);
            lemma_hex_value_bound(read);
            lemma_pow16_sixteen();
            lemma_pow16_monotonic(i as nat, 15);
            reveal_with_fuel(pow16, 2);
        }
        match hex_digit_value_of(chars[from + i]) {
            Some(d) => {
                acc = acc * 16 + (d as u64);
            },
            None => {
                proof {
                    lemma_hex_value_none_extends(field, i + 1);
                }
                return None;
            },
        }
        i += 1;
    }
    assert(field.take(16) == field);
    Some(acc)
}

/// Powers of sixteen grow with the exponent.
pub proof fn lemma_pow16_monotonic(a: nat, b: nat)
    requires
        a <= b,
    ensures
        0 < pow16(a) <= pow16(b),
    decreases b,
{
    if a < b {
        lemma_pow16_monotonic(a, (b - 1) as nat);
    } else if a > 0 {
        lemma_pow16_monotonic((a - 1) as nat, (b - 1) as nat);
    }
}

/// A text with a prefix that writes no number writes no number.
pub proof fn lemma_hex_value_none_extends(text: Seq<char>, n: int)
    requires
        0 <= n <= text.len(),
        hex_value(text.take(n)) is None,
    ensures
        hex_value(text) is None,
    decreases text.len() - n,
{
    if n < text.len() {
        assert(text.take(n + 1).drop_last() == text.take(n));
        lemma_hex_value_none_extends(text, n + 1);
    } else {
        assert(text.take(n) == text);
    }
}

} // verus!

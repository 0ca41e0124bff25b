use vstd::prelude::*;

verus! {

/// The value of a hexadecimal digit, in either case; `None` for any other
/// character.
pub open spec fn hex_digit(c: char) -> Option<int> {
    if '0' <= c <= '9' {
        Some(c as int - '0' as int)
    } else if 'a' <= c <= 'f' {
        Some(c as int - 'a' as int + 10)
    } else if 'A' <= c <= 'F' {
        Some(c as int - 'A' as int + 10)
    } else {
        None
    }
}

/// A colour text without its leading `#`, if it has one.
pub open spec fn color_digits(hex_color: Seq<char>) -> Seq<char> {
    if hex_color.len() > 0 && hex_color[0] == '#' {
        hex_color.drop_first()
    } else {
        hex_color
    }
}

/// Whether every one of the six characters is a hexadecimal digit.
pub open spec fn all_hex(digits: Seq<char>) -> bool {
    forall|i: int| 0 <= i < 6 ==> (#[trigger] hex_digit(digits[i])) is Some
}

/// The byte that two hexadecimal digits stand for.
pub open spec fn hex_byte(high: char, low: char) -> int {
    16 * hex_digit(high).unwrap() + hex_digit(low).unwrap()
}

/// What a colour text stands for: an optional `#`, then exactly six
/// hexadecimal digits, two for each of red, green and blue.
pub open spec fn parsed_color(hex_color: Seq<char>) -> Result<(u8, u8, u8), Seq<char>> {
    let digits = color_digits(hex_color);
    if digits.len() != 6 {
        Err("Hex color must be 6 digits long"@)
    } else if !all_hex(digits) {
        Err("invalid digit found in string"@)
    } else {
        Ok(
            (
                hex_byte(digits[0], digits[1]) as u8,
                hex_byte(digits[2], digits[3]) as u8,
                hex_byte(digits[4], digits[5]) as u8,
            ),
        )
    }
}

fn hex_value(c: char) -> (value: Option<u8>)
    ensures
        match value {
            Some(v) => hex_digit(c) == Some(v as int) && v < 16,
            None => hex_digit(c) is None,
        },
{
    if '0' <= c && c <= '9' {
        Some((c as u32 - '0' as u32) as u8)
    } else if 'a' <= c && c <= 'f' {
        Some((c as u32 - 'a' as u32 + 10) as u8)
    } else if 'A' <= c && c <= 'F' {
        Some((c as u32 - 'A' as u32 + 10) as u8)
    } else {
        None
    }
}

/// Reads a hex colour such as `#FF5733` or `ff5733` as its red, green and
/// blue components.
///
/// A single leading `#` may be present. What follows has to be exactly six
/// hexadecimal digits, in either case. Any other length fails with
/// `Hex color must be 6 digits long`; six characters of which one is no
/// hexadecimal digit fail with `invalid digit found in string`.
pub fn hex_to_rgb(hex_color: &str) -> (color: Result<(u8, u8, u8), String>)
    ensures
        match color {
            Ok(rgb) => parsed_color(hex_color@) == Ok::<(u8, u8, u8), Seq<char>>(rgb),
            Err(message) => parsed_color(hex_color@) == Err::<(u8, u8, u8), Seq<char>>(message@),
        },
{
    let count = hex_color.unicode_len();
    let start: usize = if count > 0 && hex_color.get_char(0) == '#' {
        1
    } else {
        0
    };
    let ghost digits = color_digits(hex_color@);
    assert(digits =~= hex_color@.skip(start as int));
    if count - start != 6 {
        return Err(String::from_str("Hex color must be 6 digits long"));
    }
    let mut values: [u8; 6] = [0; 6];
    let mut i: usize = 0;
    while i < 6
        invariant
            i <= 6,
            start <= 1,
            count == hex_color@.len(),
            count - start == 6,
            digits == color_digits(hex_color@),
            digits == hex_color@.skip(start as int),
            forall|j: int| 0 <= j < i ==> (#[trigger] hex_digit(digits[j])) == Some(values[j] as int),
        decreases 6 - i,
    {
        assert(digits[i as int] == hex_color@[start + i]);
        match hex_value(hex_color.get_char(start + i)) {
            Some(value) => {
                values[i] = value;
            },
            None => {
                assert(hex_digit(digits[i as int]) is None);
                return Err(String::from_str("invalid digit found in string"));
            },
        }
        i = i + 1;
    }
    assert(all_hex(digits));
    Ok((16 * values[0] + values[1], 16 * values[2] + values[3], 16 * values[4] + values[5]))
}

/// A character with an upper-case letter of `A` to `Z` put into lower case.
pub open spec fn lowered(c: char) -> char {
    if 'A' <= c <= 'Z' {
        ((c as u32) + 32) as char
    } else {
        c
    }
}

/// The lower-case hexadecimal digit of the value `v`, for `0 <= v <= 15`.
pub open spec fn hex_char(v: int) -> char {
    if v < 10 {
        (v + 48) as char
    } else {
        (v + 87) as char
    }
}

/// A colour written as six lower-case hexadecimal digits.
pub open spec fn color_text(rgb: (u8, u8, u8)) -> Seq<char> {
    seq![
        hex_char(rgb.0 as int / 16),
        hex_char(rgb.0 as int % 16),
        hex_char(rgb.1 as int / 16),
        hex_char(rgb.1 as int % 16),
        hex_char(rgb.2 as int / 16),
        hex_char(rgb.2 as int % 16),
    ]
}

/// The case of the letters in a colour text does not matter: two texts that
/// are equal once their letters are in lower case read alike, as the same
/// colour or with the same failure.
pub proof fn lemma_hex_color_ignores_case(a: Seq<char>, b: Seq<char>)
    requires
        a.len() == b.len(),
        forall|i: int| 0 <= i < a.len() ==> lowered(a[i]) == lowered(b[i]),
    ensures
        parsed_color(a) == parsed_color(b),
{
    let da = color_digits(a);
    let db = color_digits(b);
    if a.len() > 0 {
        assert(lowered(a[0]) == lowered(b[0]));
    }
    assert(da.len() == db.len());
    assert forall|i: int| 0 <= i < da.len() implies hex_digit(da[i]) == hex_digit(db[i]) by {
        let j = i + (a.len() - da.len());
        assert(da[i] == a[j]);
        assert(db[i] == b[j]);
        assert(lowered(a[j]) == lowered(b[j]));
    }
    if da.len() == 6 {
        assert(all_hex(da) == all_hex(db));
    }
}

/// Every colour is reached: its six hexadecimal digits, with or without a
/// leading `#`, read as that colour.
pub proof fn lemma_hex_color_reaches_every_color(rgb: (u8, u8, u8))
    ensures
        parsed_color(color_text(rgb)) == Ok::<(u8, u8, u8), Seq<char>>(rgb),
        parsed_color(seq!['#'] + color_text(rgb)) == Ok::<(u8, u8, u8), Seq<char>>(rgb),
{
    let text = color_text(rgb);
    assert(color_digits(text) == text);
    assert((seq!['#'] + text).drop_first() =~= text);
    assert(all_hex(text));
}

proof fn lemma_digit_decides_letter(c: char, d: char)
    requires
        hex_digit(c) is Some,
        hex_digit(c) == hex_digit(d),
    ensures
        lowered(c) == lowered(d),
{
}

proof fn lemma_byte_decides_digits(high: char, low: char, other_high: char, other_low: char)
    requires
        hex_digit(high) is Some,
        hex_digit(low) is Some,
        hex_digit(other_high) is Some,
        hex_digit(other_low) is Some,
        hex_byte(high, low) as u8 == hex_byte(other_high, other_low) as u8,
    ensures
        hex_digit(high) == hex_digit(other_high),
        hex_digit(low) == hex_digit(other_low),
{
}

/// No two colour texts read as the same colour unless they are the same six
/// digits up to the case of their letters.
pub proof fn lemma_hex_color_one_to_one(a: Seq<char>, b: Seq<char>)
    requires
        parsed_color(a) is Ok,
        parsed_color(a) == parsed_color(b),
    ensures
        color_digits(a).len() == 6,
        color_digits(b).len() == 6,
        forall|i: int| 0 <= i < 6 ==> lowered(color_digits(a)[i]) == lowered(color_digits(b)[i]),
{
    let da = color_digits(a);
    let db = color_digits(b);
    assert(all_hex(da) && all_hex(db));
    assert(hex_digit(da[0]) is Some && hex_digit(da[1]) is Some && hex_digit(da[2]) is Some
        && hex_digit(da[3]) is Some && hex_digit(da[4]) is Some && hex_digit(da[5]) is Some);
    assert(hex_digit(db[0]) is Some && hex_digit(db[1]) is Some && hex_digit(db[2]) is Some
        && hex_digit(db[3]) is Some && hex_digit(db[4]) is Some && hex_digit(db[5]) is Some);
    lemma_byte_decides_digits(da[0], da[1], db[0], db[1]);
    lemma_byte_decides_digits(da[2], da[3], db[2], db[3]);
    lemma_byte_decides_digits(da[4], da[5], db[4], db[5]);
    lemma_digit_decides_letter(da[0], db[0]);
    lemma_digit_decides_letter(da[1], db[1]);
    lemma_digit_decides_letter(da[2], db[2]);
    lemma_digit_decides_letter(da[3], db[3]);
    lemma_digit_decides_letter(da[4], db[4]);
    lemma_digit_decides_letter(da[5], db[5]);
}

/// A colour text of any length but six, the leading `#` not counted, is
/// refused.
pub proof fn lemma_hex_color_of_other_length_fails(hex_color: Seq<char>)
    requires
        color_digits(hex_color).len() != 6,
    ensures
        parsed_color(hex_color) == Err::<(u8, u8, u8), Seq<char>>(
            "Hex color must be 6 digits long"@,
        ),
{
}

} // verus!

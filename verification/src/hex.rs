//! Hexadecimal text for byte strings.
use vstd::prelude::*;
use vstd::string::StringExecFns;

verus! {

/// Why a text does not decode to a byte string of the wanted length.
#[derive(Debug, Clone, Copy, PartialEq, Eq)]
pub enum HexError {
    /// The text has the wrong length; holds its length in bytes.
    BadLength(usize),
    /// The text holds a character that is no hexadecimal digit.
    BadCharacter(char),
}

/// Whether `c` is a hexadecimal digit, of either case.
pub open spec fn is_hex_digit(c: char) -> bool {
    ||| '0' <= c <= '9'
    ||| 'a' <= c <= 'f'
    ||| 'A' <= c <= 'F'
}

/// The number that the hexadecimal digit `c` stands for.
pub open spec fn hex_value(c: char) -> int
    recommends
        is_hex_digit(c),
{
    if '0' <= c <= '9' {
        c as int - '0' as int
    } else if 'a' <= c <= 'f' {
        c as int - 'a' as int + 10
    } else {
        c as int - 'A' as int + 10
    }
}

/// The lower-case hexadecimal digit for `n`.
pub open spec fn hex_digit(n: int) -> char
    recommends
        0 <= n < 16,
{
    if n < 10 {
        ('0' as int + n) as char
    } else {
        ('a' as int + n - 10) as char
    }
}

/// The lower-case hexadecimal text of `bytes`: two digits per byte, the high one first.
pub open spec fn hex_encode(bytes: Seq<u8>) -> Seq<char> {
    Seq::new(
        2 * bytes.len(),
        |i: int|
            if i % 2 == 0 {
                hex_digit(bytes[i / 2] as int / 16)
            } else {
                hex_digit(bytes[i / 2] as int % 16)
            },
    )
}

/// The byte that the digits at places `2 * i` and `2 * i + 1` of `text` stand for.
pub open spec fn hex_byte(text: Seq<char>, i: int) -> int {
    16 * hex_value(text[2 * i]) + hex_value(text[2 * i + 1])
}

/// The bytes that the hexadecimal text `text` stands for.
pub open spec fn hex_decode(text: Seq<char>) -> Seq<u8> {
    Seq::new(text.len() / 2, |i: int| hex_byte(text, i) as u8)
}

/// The least place before `end` whose character is no hexadecimal digit is `i`.
pub open spec fn first_bad_digit(text: Seq<char>, end: int, i: int) -> bool {
    &&& 0 <= i < end
    &&& !is_hex_digit(text[i])
    &&& forall|j: int| 0 <= j < i ==> is_hex_digit(#[trigger] text[j])
}

/// What decoding `text`, of `size` bytes, to exactly `count` bytes gives.
///
/// Digits are taken in pairs: the first character of a whole pair that is no digit is
/// reported, then a length other than `2 * count`. An odd last character is not looked at.
pub open spec fn decodes_to(
    text: Seq<char>,
    size: usize,
    count: int,
    result: Result<Seq<u8>, HexError>,
) -> bool {
    let paired = text.len() / 2 * 2;
    match result {
        Ok(bytes) => {
            &&& text.len() == 2 * count
            &&& forall|i: int| 0 <= i < text.len() ==> is_hex_digit(#[trigger] text[i])
            &&& bytes == hex_decode(text)
        },
        Err(HexError::BadCharacter(c)) => exists|i: int| #[trigger]
            first_bad_digit(text, paired as int, i) && c == text[i],
        Err(HexError::BadLength(n)) => {
            &&& text.len() != 2 * count
            &&& n == size
            &&& forall|i: int| 0 <= i < paired ==> is_hex_digit(#[trigger] text[i])
        },
    }
}

/// The number that `c` stands for as a hexadecimal digit.
fn digit_value(c: char) -> (value: Option<u8>)
    ensures
        value is Some <==> is_hex_digit(c),
        value matches Some(v) ==> v == hex_value(c) && v < 16,
{
    if '0' <= c && c <= '9' {
        Some((c as u32 - '0' as u32) as u8)
    } else if 'a' <= c && c <= 'f' {
        Some((c as u32 - 'a' as u32 + 10) as u8)
    } else if 'A' <= c && c <= 'F' {
        Some((c as u32 - 'A' as u32 + 10) as u8)
    } else {
        None
    }
}

/// The characters of `text`.
fn characters(text: &str) -> (chars: Vec<char>)
    ensures
        chars@ == text@,
{
    let mut chars: Vec<char> = Vec::new();
    for c in it: text.chars()
        invariant
            it.seq() == text@,
            chars@ == text@.take(it.index()),
    {
        chars.push(c);
    }
    chars
}

/// Decodes `text` to 32 bytes.
pub(crate) fn decode_32(text: &str) -> (result: Result<[u8; 32], HexError>)
    ensures
        decodes_to(
            text@,
            text.len(),
            32,
            match result {
                Ok(bytes) => Ok(bytes@),
                Err(e) => Err(e),
            },
        ),
{
    let chars = characters(text);
    let pairs: usize = chars.len() / 2;
    let mut bytes: Vec<u8> = Vec::new();
    for i in 0..pairs
        invariant
            chars@ == text@,
            pairs == chars.len() / 2,
            bytes.len() == i,
            forall|j: int| 0 <= j < 2 * i ==> is_hex_digit(#[trigger] text@[j]),
            forall|j: int| 0 <= j < i ==> #[trigger] bytes[j] == hex_byte(text@, j),
    {
        let high = match digit_value(chars[2 * i]) {
            Some(v) => v,
            None => {
                assert(first_bad_digit(text@, (text@.len() / 2 * 2) as int, 2 * i as int));
                return Err(HexError::BadCharacter(chars[2 * i]));
            },
        };
        let low = match digit_value(chars[2 * i + 1]) {
            Some(v) => v,
            None => {
                assert(first_bad_digit(text@, (text@.len() / 2 * 2) as int, 2 * i + 1));
                return Err(HexError::BadCharacter(chars[2 * i + 1]));
            },
        };
        bytes.push(16 * high + low);
    }
    if chars.len() != 64 {
        return Err(HexError::BadLength(text.len()));
    }
    let mut array = [0u8; 32];
    for i in 0..32usize
        invariant
            bytes.len() == 32,
            forall|j: int| 0 <= j < i ==> #[trigger] array@[j] == bytes[j],
    {
        array[i] = bytes[i];
    }
    assert(array@ =~= hex_decode(text@));
    Ok(array)
}

/// The hexadecimal digit for `n`, as a text of one character.
fn digit_text(n: u8) -> (text: &'static str)
    requires
        n < 16,
    ensures
        text@ == seq![hex_digit(n as int)],
{
    proof {
        reveal_strlit("0");
        reveal_strlit("1");
        reveal_strlit("2");
        reveal_strlit("3");
        reveal_strlit("4");
        reveal_strlit("5");
        reveal_strlit("6");
        reveal_strlit("7");
        reveal_strlit("8");
        reveal_strlit("9");
        reveal_strlit("a");
        reveal_strlit("b");
        reveal_strlit("c");
        reveal_strlit("d");
        reveal_strlit("e");
        reveal_strlit("f");
    }
    match n {
        0 => "0",
        1 => "1",
        2 => "2",
        3 => "3",
        4 => "4",
        5 => "5",
        6 => "6",
        7 => "7",
        8 => "8",
        9 => "9",
        10 => "a",
        11 => "b",
        12 => "c",
        13 => "d",
        14 => "e",
        _ => "f",
    }
}

/// Encodes 32 bytes in lower-case hexadecimal.
pub(crate) fn encode_32(bytes: &[u8; 32]) -> (text: String)
    ensures
        text@ == hex_encode(bytes@),
{
    let mut text = String::new();
    for i in 0..32usize
        invariant
            text@ == hex_encode(bytes@).take(2 * i),
    {
        let byte = bytes[i];
        text.append(digit_text(byte / 16));
        text.append(digit_text(byte % 16));
        assert(text@ =~= hex_encode(bytes@).take(2 * (i + 1)));
    }
    assert(hex_encode(bytes@).take(64) =~= hex_encode(bytes@));
    text
}

/// The digits for 0 to 15 are these, and the letters may be of either case.
pub proof fn digits_have_their_values(n: int, c: char)
    requires
        0 <= n < 16,
    ensures
        "0123456789abcdef"@.len() == 16,
        "0123456789ABCDEF"@.len() == 16,
        hex_digit(n) == "0123456789abcdef"@[n],
        is_hex_digit("0123456789abcdef"@[n]) && hex_value("0123456789abcdef"@[n]) == n,
        is_hex_digit("0123456789ABCDEF"@[n]) && hex_value("0123456789ABCDEF"@[n]) == n,
        is_hex_digit(c) <==> ("0123456789abcdef"@.contains(c) || "0123456789ABCDEF"@.contains(c)),
{
    reveal_strlit("0123456789abcdef");
    reveal_strlit("0123456789ABCDEF");
    if is_hex_digit(c) {
        let v = hex_value(c);
        assert(0 <= v < 16);
        assert("0123456789abcdef"@[v] == c || "0123456789ABCDEF"@[v] == c);
    }
}

/// The text of bytes has two lower-case digits for each byte, which make up its value.
pub proof fn encoding_writes_two_digits_per_byte(bytes: Seq<u8>, i: int, high: int, low: int)
    requires
        0 <= i < bytes.len(),
        0 <= high < 16,
        0 <= low < 16,
        bytes[i] == 16 * high + low,
    ensures
        hex_encode(bytes).len() == 2 * bytes.len(),
        hex_encode(bytes)[2 * i] == "0123456789abcdef"@[high],
        hex_encode(bytes)[2 * i + 1] == "0123456789abcdef"@[low],
{
    digits_have_their_values(high, '0');
    digits_have_their_values(low, '0');
}

/// Encoding bytes and decoding the text gives the bytes again.
pub proof fn decoding_inverts_encoding(bytes: Seq<u8>)
    ensures
        hex_decode(hex_encode(bytes)) == bytes,
        forall|size: usize, result: Result<Seq<u8>, HexError>| #[trigger]
            decodes_to(hex_encode(bytes), size, bytes.len() as int, result) ==> result == Ok::<
                Seq<u8>,
                HexError,
            >(bytes),
{
    let text = hex_encode(bytes);
    assert forall|i: int| 0 <= i < text.len() implies is_hex_digit(#[trigger] text[i]) && hex_value(
        text[i],
    ) == if i % 2 == 0 {
        bytes[i / 2] as int / 16
    } else {
        bytes[i / 2] as int % 16
    } by {}
    assert forall|i: int| 0 <= i < bytes.len() implies hex_byte(text, i) == #[trigger] bytes[i] by {
        assert(is_hex_digit(text[2 * i]));
        assert(is_hex_digit(text[2 * i + 1]));
    }
    assert(hex_decode(text) =~= bytes);
}

/// Text of two digits for each wanted byte decodes, and each byte is the number that its two
/// digits stand for.
pub proof fn digits_decode(
    text: Seq<char>,
    size: usize,
    count: int,
    result: Result<Seq<u8>, HexError>,
    i: int,
    high: int,
    low: int,
)
    requires
        decodes_to(text, size, count, result),
        text.len() == 2 * count,
        forall|j: int| 0 <= j < text.len() ==> is_hex_digit(#[trigger] text[j]),
        0 <= i < count,
        0 <= high < 16,
        0 <= low < 16,
        text[2 * i] == "0123456789abcdef"@[high] || text[2 * i] == "0123456789ABCDEF"@[high],
        text[2 * i + 1] == "0123456789abcdef"@[low] || text[2 * i + 1] == "0123456789ABCDEF"@[low],
    ensures
        result is Ok,
        result->Ok_0.len() == count,
        result->Ok_0[i] == 16 * high + low,
{
    digits_have_their_values(high, '0');
    digits_have_their_values(low, '0');
}

/// The first character of a whole pair that is no digit is reported, whatever follows it.
pub proof fn first_bad_character_is_reported(
    text: Seq<char>,
    size: usize,
    count: int,
    result: Result<Seq<u8>, HexError>,
    i: int,
)
    requires
        decodes_to(text, size, count, result),
        0 <= i < text.len() - text.len() % 2,
        !"0123456789abcdef"@.contains(text[i]),
        !"0123456789ABCDEF"@.contains(text[i]),
        forall|j: int| 0 <= j < i ==> is_hex_digit(#[trigger] text[j]),
    ensures
        result == Err::<Seq<u8>, HexError>(HexError::BadCharacter(text[i])),
{
    digits_have_their_values(0, text[i]);
}

/// Text whose whole pairs are all digits, but are not as many as the wanted bytes or leave a
/// character over, is reported with its length in bytes.
pub proof fn bad_length_is_reported(
    text: Seq<char>,
    size: usize,
    count: int,
    result: Result<Seq<u8>, HexError>,
)
    requires
        decodes_to(text, size, count, result),
        text.len() != 2 * count,
        forall|j: int| 0 <= j < text.len() - text.len() % 2 ==> is_hex_digit(#[trigger] text[j]),
    ensures
        result == Err::<Seq<u8>, HexError>(HexError::BadLength(size)),
{
}

} // verus!

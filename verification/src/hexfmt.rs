//! Lowercase hexadecimal rendering of fixed-size byte arrays, and the decode
//! that inverts it.
use vstd::prelude::*;

verus! {

use vstd::string::StrSliceExecFns;
use vstd::string::StringExecFns;
use crate::FilterError;

/// The lowercase hexadecimal digit for a value below sixteen.
pub open spec fn hex_char_of(n: u8) -> char {
    if n == 0 {
        '0'
    } else if n == 1 {
        '1'
    } else if n == 2 {
        '2'
    } else if n == 3 {
        '3'
    } else if n == 4 {
        '4'
    } else if n == 5 {
        '5'
    } else if n == 6 {
        '6'
    } else if n == 7 {
        '7'
    } else if n == 8 {
        '8'
    } else if n == 9 {
        '9'
    } else if n == 10 {
        'a'
    } else if n == 11 {
        'b'
    } else if n == 12 {
        'c'
    } else if n == 13 {
        'd'
    } else if n == 14 {
        'e'
    } else {
        'f'
    }
}

/// The value of a lowercase hexadecimal digit, or `None` for any other character.
pub open spec fn hex_val(c: char) -> Option<u8> {
    if c == '0' {
        Some(0u8)
    } else if c == '1' {
        Some(1u8)
    } else if c == '2' {
        Some(2u8)
    } else if c == '3' {
        Some(3u8)
    } else if c == '4' {
        Some(4u8)
    } else if c == '5' {
        Some(5u8)
    } else if c == '6' {
        Some(6u8)
    } else if c == '7' {
        Some(7u8)
    } else if c == '8' {
        Some(8u8)
    } else if c == '9' {
        Some(9u8)
    } else if c == 'a' {
        Some(10u8)
    } else if c == 'b' {
        Some(11u8)
    } else if c == 'c' {
        Some(12u8)
    } else if c == 'd' {
        Some(13u8)
    } else if c == 'e' {
        Some(14u8)
    } else if c == 'f' {
        Some(15u8)
    } else {
        None
    }
}

pub open spec fn is_lower_hex_digit(c: char) -> bool {
    hex_val(c) is Some
}

/// The lowercase hexadecimal rendering of a byte sequence: two digits per
/// byte, high nibble first.
pub open spec fn hex_of(bytes: Seq<u8>) -> Seq<char> {
    Seq::new(
        bytes.len() * 2,
        |i: int|
            if i % 2 == 0 {
                hex_char_of(bytes[i / 2] / 16)
            } else {
                hex_char_of(bytes[i / 2] % 16)
            },
    )
}

/// The bytes a character sequence spells in lowercase hexadecimal, or `None`
/// where the length is odd or a character is no lowercase hexadecimal digit.
pub open spec fn unhex(s: Seq<char>) -> Option<Seq<u8>> {
    if s.len() % 2 == 0 && (forall|i: int| 0 <= i < s.len() ==> is_lower_hex_digit(#[trigger] s[i])) {
        Some(
            Seq::new(
                s.len() / 2,
                |i: int| (hex_val(s[2 * i]).unwrap() * 16 + hex_val(s[2 * i + 1]).unwrap()) as u8,
            ),
        )
    } else {
        None
    }
}

/// Decoding inverts encoding: the hexadecimal rendering of any byte sequence
/// is made of lowercase hexadecimal digits, is twice as long, and spells the
/// original bytes back.
pub proof fn lemma_hex_round_trip(bytes: Seq<u8>)
    ensures
        hex_of(bytes).len() == 2 * bytes.len(),
        forall|i: int| 0 <= i < hex_of(bytes).len() ==> is_lower_hex_digit(#[trigger] hex_of(bytes)[i]),
        unhex(hex_of(bytes)) == Some(bytes),
{
    let s = hex_of(bytes);
    assert forall|i: int| 0 <= i < s.len() implies is_lower_hex_digit(#[trigger] s[i]) by {
        let b = bytes[i / 2];
        assert(b / 16 < 16 && b % 16 < 16);
    }
    let decoded = unhex(s).unwrap();
    assert forall|i: int| 0 <= i < decoded.len() implies decoded[i] == bytes[i] by {
        assert(s[2 * i] == hex_char_of(bytes[i] / 16));
        assert(s[2 * i + 1] == hex_char_of(bytes[i] % 16));
        assert(hex_val(hex_char_of(bytes[i] / 16)) == Some((bytes[i] / 16) as u8));
        assert(hex_val(hex_char_of(bytes[i] % 16)) == Some((bytes[i] % 16) as u8));
    }
    assert(decoded =~= bytes);
}

/// A one-character string holding the lowercase hexadecimal digit of a value
/// below sixteen.
fn hex_digit_str(n: u8) -> (r: &'static str)
    requires
        n < 16,
    ensures
        r@ =~= seq![hex_char_of(n)],
{
    proof {
        reveal_strlit("0");
        reveal_strlit("1");
        reveal_strlit("2");
        reveal_strlit("3");
        reveal_strlit("4");
        reveal_strlit("5");
        reveal_strlit("6");
        reveal_strlit("7");
        reveal_strlit("8");
        reveal_strlit("9");
        reveal_strlit("a");
        reveal_strlit("b");
        reveal_strlit("c");
        reveal_strlit("d");
        reveal_strlit("e");
        reveal_strlit("f");
    }
    match n {
        0 => "0",
        1 => "1",
        2 => "2",
        3 => "3",
        4 => "4",
        5 => "5",
        6 => "6",
        7 => "7",
        8 => "8",
        9 => "9",
        10 => "a",
        11 => "b",
        12 => "c",
        13 => "d",
        14 => "e",
        _ => "f",
    }
}

/// The lowercase hexadecimal rendering of a byte slice.
pub fn hex_encode(bytes: &[u8]) -> (r: String)
    ensures
        r@ == hex_of(bytes@),
{
    let mut s = String::new();
    let n = bytes.len();
    for i in 0..n
        invariant
            n == bytes@.len(),
            s@ =~= hex_of(bytes@.take(i as int)),
    {
        let b = bytes[i];
        s.append(hex_digit_str(b / 16));
        s.append(hex_digit_str(b % 16));
        proof {
            let prev = bytes@.take(i as int);
            let cur = bytes@.take(i + 1);
            assert(hex_of(cur) =~= hex_of(prev) + seq![
                hex_char_of(bytes@[i as int] / 16),
                hex_char_of(bytes@[i as int] % 16),
            ]);
        }
    }
    proof {
        assert(bytes@.take(n as int) =~= bytes@);
    }
    s
}

/// The bytes a string spells in lowercase hexadecimal, or `None` where it
/// spells none.
pub fn hex_decode(s: &str) -> (r: Option<Vec<u8>>)
    ensures
        r matches Some(v) ==> unhex(s@) == Some(v@),
        r is None ==> unhex(s@) is None,
{
    let n = s.unicode_len();
    if n % 2 != 0 {
        return None;
    }
    let mut out: Vec<u8> = Vec::new();
    let mut i: usize = 0;
    while i < n
        invariant
            i % 2 == 0,
            i <= n,
            n == s@.len(),
            n % 2 == 0,
            out@.len() == i / 2,
            forall|j: int| 0 <= j < i ==> is_lower_hex_digit(#[trigger] s@[j]),
            forall|j: int|
                0 <= j < i / 2 ==> out@[j] == (hex_val(s@[2 * j]).unwrap() * 16 + hex_val(
                    s@[2 * j + 1],
                ).unwrap()) as u8,
        decreases n - i,
    {
        let hi = match hex_val_exec(s.get_char(i)) {
            Some(v) => v,
            None => {
                return None;
            },
        };
        let lo = match hex_val_exec(s.get_char(i + 1)) {
            Some(v) => v,
            None => {
                return None;
            },
        };
        out.push(hi * 16 + lo);
        i = i + 2;
    }
    proof {
        let decoded = unhex(s@).unwrap();
        assert(out@ =~= decoded);
    }
    Some(out)
}

/// The value of a lowercase hexadecimal digit, or `None` for any other character.
fn hex_val_exec(c: char) -> (r: Option<u8>)
    ensures
        r == hex_val(c),
{
    match c {
        '0' => Some(0),
        '1' => Some(1),
        '2' => Some(2),
        '3' => Some(3),
        '4' => Some(4),
        '5' => Some(5),
        '6' => Some(6),
        '7' => Some(7),
        '8' => Some(8),
        '9' => Some(9),
        'a' => Some(10),
        'b' => Some(11),
        'c' => Some(12),
        'd' => Some(13),
        'e' => Some(14),
        'f' => Some(15),
        _ => None,
    }
}

/// A rendered hexadecimal buffer, ready for display by the host templating
/// layer.
pub struct DisplayHexBuffer(pub String);

impl DisplayHexBuffer {
    /// The rendered text itself.
    pub fn as_str(&self) -> (r: &str)
        ensures
            r@ == self.0@,
    {
        self.0.as_str()
    }
}

/// Lowercase hexadecimal rendering of a twenty-byte content hash: always
/// succeeds, with exactly forty lowercase hexadecimal digits.
pub fn hex(s: &[u8; 20]) -> (r: Result<DisplayHexBuffer, FilterError>)
    ensures
        r matches Ok(b) && b.0@ == hex_of(s@) && b.0@.len() == 40,
        r matches Ok(b) ==> forall|i: int| 0 <= i < b.0@.len() ==> is_lower_hex_digit(#[trigger] b.0@[i]),
{
    let text = hex_encode(s.as_slice());
    proof {
        lemma_hex_round_trip(s@);
    }
    Ok(DisplayHexBuffer(text))
}

} // verus!

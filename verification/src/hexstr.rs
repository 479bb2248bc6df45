//! Verified decoding of the hexadecimal root digest carried by commitment
//! records.

use vstd::prelude::*;
use vstd::string::is_ascii_spec_bytes;
use vstd::utf8::is_ascii_chars;
use crate::errors::OracleError;

verus! {

/// The character is a hexadecimal digit.
pub open spec fn is_hex_char(c: char) -> bool {
    ||| '0' <= c && c <= '9'
    ||| 'a' <= c && c <= 'f'
    ||| 'A' <= c && c <= 'F'
}

/// Value of a hexadecimal digit character.
pub open spec fn hex_char_val(c: char) -> u8 {
    if '0' <= c && c <= '9' {
        ((c as u32) - 48) as u8
    } else if 'a' <= c && c <= 'f' {
        ((c as u32) - 87) as u8
    } else {
        ((c as u32) - 55) as u8
    }
}

/// The string is exactly the hexadecimal spelling of a 32-byte digest.
pub open spec fn is_hex_digest(s: Seq<char>) -> bool {
    &&& s.len() == 64
    &&& forall|i: int| 0 <= i < s.len() ==> is_hex_char(#[trigger] s[i])
}

/// The bytes a hexadecimal string spells, two digits per byte, high digit
/// first.
pub open spec fn hex_decoded(s: Seq<char>) -> Seq<u8> {
    Seq::new(
        s.len() / 2,
        |j: int| (hex_char_val(s[2 * j]) * 16 + hex_char_val(s[2 * j + 1])) as u8,
    )
}

/// Value of one hexadecimal digit byte, or nothing when the byte does not
/// spell a digit.
fn hex_digit_value(x: u8) -> (r: Option<u8>)
    ensures
        match r {
            Some(v) => {
                &&& (48 <= x <= 57 || 97 <= x <= 102 || 65 <= x <= 70)
                &&& v == if 48 <= x <= 57 {
                    (x - 48) as u8
                } else if 97 <= x <= 102 {
                    (x - 87) as u8
                } else {
                    (x - 55) as u8
                }
                &&& v <= 15
            },
            None => !(48 <= x <= 57 || 97 <= x <= 102 || 65 <= x <= 70),
        },
{
    if 48 <= x && x <= 57 {
        Some(x - 48)
    } else if 97 <= x && x <= 102 {
        Some(x - 87)
    } else if 65 <= x && x <= 70 {
        Some(x - 55)
    } else {
        None
    }
}

/// Decodes a 64-digit hexadecimal string into the 32-byte digest it spells.
/// Fails with `InvalidInput` exactly when the string is not such a spelling:
/// the wrong length, or any character no hexadecimal digit.
pub fn decode_hex_digest(s: &str) -> (r: Result<Vec<u8>, OracleError>)
    ensures
        match r {
            Ok(v) => {
                &&& is_hex_digest(s@)
                &&& v@ == hex_decoded(s@)
                &&& v@.len() == 32
            },
            Err(e) => {
                &&& e == OracleError::InvalidInput
                &&& !is_hex_digest(s@)
            },
        },
{
    if !s.is_ascii() {
        proof {
            let i = choose|i: int|
                0 <= i < s@.len() && !('\0' <= #[trigger] s@[i] <= '\u{7f}');
            assert(!is_hex_char(s@[i]));
        }
        return Err(OracleError::InvalidInput);
    }
    proof {
        is_ascii_spec_bytes(s);
    }
    let b = s.as_bytes();
    if b.len() != 64 {
        return Err(OracleError::InvalidInput);
    }
    let mut out: Vec<u8> = Vec::new();
    let mut j: usize = 0;
    while j < 32
        invariant
            is_ascii_chars(s@),
            b@ == Seq::new(s@.len(), |i: int| s@[i] as u8),
            b@.len() == 64,
            j <= 32,
            out@.len() == j,
            forall|i: int| 0 <= i < 2 * j ==> is_hex_char(#[trigger] s@[i]),
            forall|m: int| 0 <= m < j ==> out@[m] == hex_decoded(s@)[m],
        decreases 32 - j,
    {
        let hi = match hex_digit_value(b[2 * j]) {
            Some(v) => v,
            None => {
                proof {
                    assert(!is_hex_char(s@[2 * j as int]));
                }
                return Err(OracleError::InvalidInput);
            },
        };
        let lo = match hex_digit_value(b[2 * j + 1]) {
            Some(v) => v,
            None => {
                proof {
                    assert(!is_hex_char(s@[2 * j + 1 as int]));
                }
                return Err(OracleError::InvalidInput);
            },
        };
        out.push(hi * 16 + lo);
        proof {
            let jj = j as int;
            assert(is_hex_char(s@[2 * jj]));
            assert(is_hex_char(s@[2 * jj + 1]));
            assert(hi == hex_char_val(s@[2 * jj]));
            assert(lo == hex_char_val(s@[2 * jj + 1]));
            assert(out@[jj] == hex_decoded(s@)[jj]);
        }
        j = j + 1;
    }
    proof {
        assert(out@ =~= hex_decoded(s@));
    }
    Ok(out)
}

} // verus!

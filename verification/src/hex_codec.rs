use vstd::prelude::*;
use vstd::string::StrSliceExecFns;

use crate::errors::TxError;

verus! {

/// A hexadecimal digit, upper or lower case.
pub open spec fn is_hex_digit(c: char) -> bool {
    ('0' <= c && c <= '9') || ('a' <= c && c <= 'f') || ('A' <= c && c <= 'F')
}

/// A hexadecimal digit in the canonical lower-case alphabet.
pub open spec fn is_lower_hex_digit(c: char) -> bool {
    ('0' <= c && c <= '9') || ('a' <= c && c <= 'f')
}

/// Every character of `s` is a hexadecimal digit.
pub open spec fn valid_hex(s: Seq<char>) -> bool {
    forall|i: int| 0 <= i < s.len() ==> is_hex_digit(s[i])
}

/// The numeric value of one hexadecimal digit.
pub open spec fn hex_val(c: char) -> int
    recommends
        is_hex_digit(c),
{
    if '0' <= c && c <= '9' {
        c as int - '0' as int
    } else if 'a' <= c && c <= 'f' {
        c as int - 'a' as int + 10
    } else {
        c as int - 'A' as int + 10
    }
}

/// The byte encoded by a pair of hexadecimal digits, high digit first.
pub open spec fn hex_pair_val(hi: char, lo: char) -> u8
    recommends
        is_hex_digit(hi),
        is_hex_digit(lo),
{
    (hex_val(hi) * 16 + hex_val(lo)) as u8
}

/// The byte sequence encoded by a hex string: one byte per digit pair.
pub open spec fn hex_decoded(s: Seq<char>) -> Seq<u8>
    recommends
        s.len() % 2 == 0,
        valid_hex(s),
{
    Seq::new(s.len() / 2, |i: int| hex_pair_val(s[2 * i], s[2 * i + 1]))
}

/// The lower-case digit character for a value below 16.
pub open spec fn lower_hex_digit(v: int) -> char
    recommends
        0 <= v < 16,
{
    if v < 10 {
        ('0' as int + v) as char
    } else {
        ('a' as int + v - 10) as char
    }
}

/// The canonical lower-case hex encoding of a byte sequence: two digits per
/// byte, high nibble first.
pub open spec fn hex_encoded(b: Seq<u8>) -> Seq<char> {
    Seq::new(
        b.len() * 2,
        |i: int|
            if i % 2 == 0 {
                lower_hex_digit(b[i / 2] as int / 16)
            } else {
                lower_hex_digit(b[i / 2] as int % 16)
            },
    )
}

/// The numeric value of one hexadecimal digit character, or `None` when the
/// character is not a hex digit.
fn hex_val_exec(c: char) -> (r: Option<u8>)
    ensures
        is_hex_digit(c) ==> r == Some(hex_val(c) as u8),
        !is_hex_digit(c) ==> r is None,
        r matches Some(v) ==> v < 16,
{
    let u = c as u32;
    if 48 <= u && u <= 57 {
        Some((u - 48) as u8)
    } else if 97 <= u && u <= 102 {
        Some((u - 97 + 10) as u8)
    } else if 65 <= u && u <= 70 {
        Some((u - 65 + 10) as u8)
    } else {
        None
    }
}

/// Decodes a hexadecimal string, case-insensitively, into its bytes. Fails
/// with `MalformedHex` when the length is odd (the position is the trailing
/// unpaired character) or when some pair holds a non-digit (the position is
/// the start of the first such pair).
pub fn decode_hex(hex_str: &str) -> (r: Result<Vec<u8>, TxError>)
    ensures
        ({
            let s = hex_str@;
            match r {
                Ok(v) => s.len() % 2 == 0 && valid_hex(s) && v@ == hex_decoded(s),
                Err(TxError::MalformedHex { pos }) => if s.len() % 2 != 0 {
                    pos == s.len() - 1
                } else {
                    &&& pos % 2 == 0
                    &&& pos + 1 < s.len()
                    &&& !(is_hex_digit(s[pos as int]) && is_hex_digit(s[pos + 1]))
                    &&& forall|j: int| 0 <= j < pos ==> is_hex_digit(s[j])
                },
                Err(_) => false,
            }
        }),
{
    let n = hex_str.unicode_len();
    if n % 2 != 0 {
        return Err(TxError::MalformedHex { pos: n - 1 });
    }
    let mut out: Vec<u8> = Vec::new();
    let mut i: usize = 0;
    while i < n
        invariant
            n == hex_str@.len(),
            n % 2 == 0,
            i % 2 == 0,
            i <= n,
            out@ == hex_decoded(hex_str@.subrange(0, i as int)),
            forall|j: int| 0 <= j < i ==> is_hex_digit(hex_str@[j]),
        decreases n - i,
    {
        let hi = hex_str.get_char(i);
        let lo = hex_str.get_char(i + 1);
        match (hex_val_exec(hi), hex_val_exec(lo)) {
            (Some(h), Some(l)) => {
                out.push(h * 16 + l);
                proof {
                    let s = hex_str@;
                    assert(out@ =~= hex_decoded(s.subrange(0, i + 2 as int))) by {
                        let prev = hex_decoded(s.subrange(0, i as int));
                        let next = hex_decoded(s.subrange(0, i + 2 as int));
                        assert forall|k: int| 0 <= k < next.len() implies next[k] == out@[k] by {
                            if k < prev.len() {
                                assert(prev[k] == out@[k]);
                            }
                        }
                    }
                }
                i += 2;
            },
            _ => {
                return Err(TxError::MalformedHex { pos: i });
            },
        }
    }
    proof {
        assert(hex_str@.subrange(0, n as int) =~= hex_str@);
    }
    Ok(out)
}

/// Relies on `hex::encode`: it writes exactly two lower-case hexadecimal
/// digits for each input byte, high nibble first.
#[verifier::external_body]
pub fn bytes_to_hex(bytes: &[u8]) -> (r: String)
    ensures
        r@ == hex_encoded(bytes@),
{
    hex::encode(bytes)
}

/// Declares `hex::FromHexError`, the error type of `hex::decode`, so that a
/// result holding it can pass through verified signatures. The value is
/// opaque here; callers that need the detail read it with the `hex` crate.
#[verifier::external_type_specification]
#[verifier::external_body]
pub struct ExFromHexError(hex::FromHexError);

/// Relies on `hex::decode`: it returns the decoded bytes exactly when the
/// input is an even-length string of hexadecimal digits, and an error
/// otherwise.
#[verifier::external_body]
pub fn hex_to_bytes(h: &str) -> (r: Result<Vec<u8>, hex::FromHexError>)
    ensures
        r matches Ok(v) ==> h@.len() % 2 == 0 && valid_hex(h@) && v@ == hex_decoded(h@),
        r is Err ==> !(h@.len() % 2 == 0 && valid_hex(h@)),
{
    hex::decode(h)
}

/// Encoding the bytes a valid lower-case hex string decodes to yields the
/// original string: the codec round-trips on canonical input.
pub proof fn lemma_encode_decode_round_trip(s: Seq<char>)
    requires
        s.len() % 2 == 0,
        forall|i: int| 0 <= i < s.len() ==> is_lower_hex_digit(s[i]),
    ensures
        hex_encoded(hex_decoded(s)) == s,
{
    let d = hex_decoded(s);
    let e = hex_encoded(d);
    assert forall|i: int| 0 <= i < e.len() implies e[i] == s[i] by {
        let b = d[i / 2];
        let hi = s[2 * (i / 2)];
        let lo = s[2 * (i / 2) + 1];
        assert(0 <= hex_val(hi) < 16 && 0 <= hex_val(lo) < 16);
        assert(b == hex_val(hi) * 16 + hex_val(lo));
        assert(b as int / 16 == hex_val(hi) && b as int % 16 == hex_val(lo)) by (nonlinear_arith)
            requires
                b == hex_val(hi) * 16 + hex_val(lo),
                0 <= hex_val(hi) < 16,
                0 <= hex_val(lo) < 16,
        ;
        if i % 2 == 0 {
            assert(lower_hex_digit(hex_val(hi)) == hi);
        } else {
            assert(2 * (i / 2) + 1 == i);
            assert(lower_hex_digit(hex_val(lo)) == lo);
        }
    }
    assert(e =~= s);
}

/// Decoding the hex encoding of any byte sequence yields the original bytes:
/// the codec round-trips on every byte sequence.
pub proof fn lemma_decode_encode_round_trip(b: Seq<u8>)
    ensures
        hex_decoded(hex_encoded(b)) == b,
{
    let e = hex_encoded(b);
    let d = hex_decoded(e);
    assert forall|i: int| 0 <= i < d.len() implies d[i] == b[i] by {
        assert(e[2 * i] == lower_hex_digit(b[i] as int / 16));
        assert(e[2 * i + 1] == lower_hex_digit(b[i] as int % 16));
        assert(hex_val(lower_hex_digit(b[i] as int / 16)) == b[i] as int / 16);
        assert(hex_val(lower_hex_digit(b[i] as int % 16)) == b[i] as int % 16);
        assert(d[i] == ((b[i] as int / 16) * 16 + b[i] as int % 16) as u8);
    }
    assert(d =~= b);
}

} // verus!

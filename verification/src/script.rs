use vstd::prelude::*;
use vstd::slice::slice_subrange;

use crate::errors::TxError;

verus! {

/// The classification of a locking script: one of the two recognized
/// fixed-layout templates, or `Unknown` for anything else.
#[derive(Debug, Clone, Copy, PartialEq, Eq, Structural)]
pub enum ScriptType {
    P2PKH,
    P2WPKH,
    Unknown,
}

/// A pay-to-public-key-hash locking script: exactly 25 bytes laid out as
/// `OP_DUP OP_HASH160 <push 20> <20-byte hash> OP_EQUALVERIFY OP_CHECKSIG`.
pub open spec fn is_p2pkh(s: Seq<u8>) -> bool {
    &&& s.len() == 25
    &&& s[0] == 0x76u8
    &&& s[1] == 0xa9u8
    &&& s[2] == 0x14u8
    &&& s[23] == 0x88u8
    &&& s[24] == 0xacu8
}

/// A pay-to-witness-public-key-hash locking script: exactly 22 bytes laid out
/// as `OP_0 <push 20> <20-byte hash>`.
pub open spec fn is_p2wpkh(s: Seq<u8>) -> bool {
    &&& s.len() == 22
    &&& s[0] == 0x00u8
    &&& s[1] == 0x14u8
}

/// Classifies a locking script by exact layout: the whole length and every
/// fixed byte must match, not merely a prefix. Total — never fails, anything
/// unrecognized is `Unknown`.
pub fn classify_script(script: &[u8]) -> (r: ScriptType)
    ensures
        r == (if is_p2pkh(script@) {
            ScriptType::P2PKH
        } else if is_p2wpkh(script@) {
            ScriptType::P2WPKH
        } else {
            ScriptType::Unknown
        }),
{
    if script.len() == 25 && script[0] == 0x76 && script[1] == 0xa9 && script[2] == 0x14
        && script[23] == 0x88 && script[24] == 0xac {
        ScriptType::P2PKH
    } else if script.len() == 22 && script[0] == 0x00 && script[1] == 0x14 {
        ScriptType::P2WPKH
    } else {
        ScriptType::Unknown
    }
}

/// A single recognized script opcode byte. `OpInvalid` is an explicit
/// sentinel for callers that want to store an unrecognized opcode; the
/// decoder itself never produces it.
#[derive(Debug, Clone, Copy, PartialEq, Eq, Structural)]
pub enum Opcode {
    OpChecksig,
    OpDup,
    OpInvalid,
}

impl Opcode {
    /// Decodes one opcode byte by a closed lookup table: `0x76` is `OpDup`,
    /// `0xac` is `OpChecksig`, and every other byte fails with
    /// `UnknownOpcode` carrying the offending value.
    pub fn from_byte(byte: u8) -> (r: Result<Self, TxError>)
        ensures
            r == (if byte == 0xacu8 {
                Result::<Self, TxError>::Ok(Opcode::OpChecksig)
            } else if byte == 0x76u8 {
                Result::<Self, TxError>::Ok(Opcode::OpDup)
            } else {
                Result::<Self, TxError>::Err(TxError::UnknownOpcode { byte })
            }),
    {
        match byte {
            0xac => Ok(Opcode::OpChecksig),
            0x76 => Ok(Opcode::OpDup),
            _ => Err(TxError::UnknownOpcode { byte }),
        }
    }
}

/// Returns the payload of a locking script that is assumed to begin with an
/// opcode byte and a push-length byte: everything from index 2 to the end.
/// The two header bytes are not validated; a script shorter than the header
/// fails with `Truncated`.
pub fn read_pushdata(script: &[u8]) -> (r: Result<&[u8], TxError>)
    ensures
        script@.len() >= 2 ==> (r matches Ok(p) && p@ == script@.subrange(
            2,
            script@.len() as int,
        )),
        script@.len() < 2 ==> r == Result::<&[u8], TxError>::Err(TxError::Truncated),
{
    if script.len() < 2 {
        Err(TxError::Truncated)
    } else {
        Ok(slice_subrange(script, 2, script.len()))
    }
}

} // verus!

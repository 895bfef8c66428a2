use vstd::prelude::*;

verus! {

/// The ways an operation of this library can fail. Every failure is reported
/// to the caller with enough context to diagnose it; no function panics.
#[derive(Debug, Clone, Copy, PartialEq, Eq, Structural)]
pub enum TxError {
    /// The input to the hex decoder is not a sequence of complete hexadecimal
    /// digit pairs. `pos` is the character position of the first pair that
    /// cannot decode; for an odd-length input it is the position of the
    /// trailing unpaired character.
    MalformedHex { pos: usize },
    /// The byte is not in the table of recognized opcodes; carries the
    /// offending byte.
    UnknownOpcode { byte: u8 },
    /// The text does not parse as a base-10 unsigned 64-bit satoshi amount.
    InvalidAmount,
    /// The script is too short to hold the fixed header that was expected.
    Truncated,
}

} // verus!

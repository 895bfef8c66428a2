//! Primitives for inspecting Bitcoin-style transaction data: a hexadecimal
//! codec, byte-order helpers, locking-script classification, opcode decoding,
//! and a minimal unspent-output / wallet-balance value model.

mod amount;
mod endian;
mod errors;
mod hex_codec;
mod script;
mod wallet;

pub use amount::all_digits;
pub use amount::digits_value;
pub use amount::parse_satoshis;
pub use amount::trimmed;
pub use amount::valid_amount;
pub use endian::lemma_reverse_involution;
pub use endian::lemma_u32_le_round_trip;
pub use endian::swap_endian_u32;
pub use endian::to_big_endian;
pub use endian::u32_from_le_bytes;
pub use endian::u32_le_bytes;
pub use errors::TxError;
pub use hex_codec::bytes_to_hex;
pub use hex_codec::decode_hex;
pub use hex_codec::hex_decoded;
pub use hex_codec::hex_encoded;
pub use hex_codec::hex_to_bytes;
pub use hex_codec::is_hex_digit;
pub use hex_codec::is_lower_hex_digit;
pub use hex_codec::lemma_decode_encode_round_trip;
pub use hex_codec::lemma_encode_decode_round_trip;
pub use hex_codec::valid_hex;
pub use script::Opcode;
pub use script::ScriptType;
pub use script::classify_script;
pub use script::is_p2pkh;
pub use script::is_p2wpkh;
pub use script::read_pushdata;
pub use wallet::apply_fee;
pub use wallet::consume_utxo;
pub use wallet::move_txid;
pub use wallet::Outpoint;
pub use wallet::TestWallet;
pub use wallet::Wallet;
pub use wallet::UTXO;

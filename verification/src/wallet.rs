use vstd::prelude::*;
use vstd::string::StringExecFns;

verus! {

/// A reference to a previous transaction output: the transaction identifier
/// and the output index within that transaction.
#[derive(Debug, Clone, Eq, Hash)]
pub struct Outpoint(pub String, pub u32);

impl Outpoint {
    /// The transaction identifier the outpoint refers to.
    pub fn txid(&self) -> (r: &str)
        ensures
            r@ == self.0@,
    {
        self.0.as_str()
    }

    /// The output index the outpoint refers to.
    pub fn vout(&self) -> (r: u32)
        ensures
            r == self.1,
    {
        self.1
    }
}

impl PartialEq for Outpoint {
    /// Two outpoints are equal exactly when both fields match.
    fn eq(&self, other: &Outpoint) -> (r: bool) {
        self.0 == other.0 && self.1 == other.1
    }
}

impl vstd::std_specs::cmp::PartialEqSpecImpl for Outpoint {
    open spec fn obeys_eq_spec() -> bool {
        true
    }

    open spec fn eq_spec(&self, other: &Outpoint) -> bool {
        self.0@ == other.0@ && self.1 == other.1
    }
}

/// An unspent transaction output: the identifier of the transaction that
/// created it as raw bytes, the output index, and the value in satoshis.
#[derive(Debug, Clone)]
pub struct UTXO {
    pub txid: Vec<u8>,
    pub vout: u32,
    pub value: u64,
}

/// The hand-off point at which an unspent output is logically spent: the
/// value is returned unchanged, and recording the spend is the caller's
/// responsibility.
pub fn consume_utxo(utxo: UTXO) -> (r: UTXO)
    ensures
        r == utxo,
{
    utxo
}

/// Any entity that can report a current balance in satoshis.
pub trait Wallet {
    /// The balance the wallet reports, as a specification-level value.
    spec fn spec_balance(&self) -> u64;

    /// Reports the wallet's current balance.
    fn balance(&self) -> (r: u64)
        ensures
            r == self.spec_balance(),
    ;
}

/// A wallet with a fixed confirmed balance.
pub struct TestWallet {
    pub confirmed: u64,
}

impl Wallet for TestWallet {
    open spec fn spec_balance(&self) -> u64 {
        self.confirmed
    }

    fn balance(&self) -> u64 {
        self.confirmed
    }
}

/// Deducts a fee from a caller-owned balance in place, saturating at zero:
/// the new balance is `balance - fee` when the fee is covered and `0`
/// otherwise. Never underflows and never fails.
pub fn apply_fee(balance: &mut u64, fee: u64)
    ensures
        *final(balance) == if *old(balance) >= fee {
            *old(balance) - fee
        } else {
            0
        },
{
    *balance = (*balance).saturating_sub(fee);
}

/// Renders a transaction identifier for display with a fixed prefix,
/// embedding the identifier verbatim.
pub fn move_txid(txid: String) -> (r: String)
    ensures
        r@ == "Moved txid: "@ + txid@,
{
    let mut out = String::from_str("Moved txid: ");
    out.append(txid.as_str());
    out
}

} // verus!

use txscript::apply_fee;
use txscript::consume_utxo;
use txscript::move_txid;
use txscript::parse_satoshis;
use txscript::Outpoint;
use txscript::TestWallet;
use txscript::TxError;
use txscript::Wallet;
use txscript::UTXO;

#[test]
fn parse_satoshis_trims_whitespace() {
    assert_eq!(parse_satoshis("  12345 "), Ok(12345));
}

#[test]
fn parse_satoshis_plain() {
    assert_eq!(parse_satoshis("0"), Ok(0));
    assert_eq!(parse_satoshis("0042"), Ok(42));
}

#[test]
fn parse_satoshis_max() {
    assert_eq!(parse_satoshis("18446744073709551615"), Ok(u64::MAX));
}

#[test]
fn parse_satoshis_negative_fails() {
    assert_eq!(parse_satoshis("-1"), Err(TxError::InvalidAmount));
}

#[test]
fn parse_satoshis_overflow_fails() {
    assert_eq!(
        parse_satoshis("18446744073709551616"),
        Err(TxError::InvalidAmount)
    );
}

#[test]
fn parse_satoshis_empty_fails() {
    assert_eq!(parse_satoshis(""), Err(TxError::InvalidAmount));
    assert_eq!(parse_satoshis("   "), Err(TxError::InvalidAmount));
}

#[test]
fn parse_satoshis_trims_unicode_whitespace() {
    assert_eq!(parse_satoshis("\u{a0}12\u{a0}"), Ok(12));
    assert_eq!(parse_satoshis("\u{2003}7 \u{3000}"), Ok(7));
}

#[test]
fn parse_satoshis_inner_unicode_space_fails() {
    assert_eq!(parse_satoshis("1\u{a0}2"), Err(TxError::InvalidAmount));
}

#[test]
fn parse_satoshis_inner_space_fails() {
    assert_eq!(parse_satoshis("12 34"), Err(TxError::InvalidAmount));
}

#[test]
fn parse_satoshis_decimal_point_fails() {
    assert_eq!(parse_satoshis("1.5"), Err(TxError::InvalidAmount));
}

#[test]
fn apply_fee_saturates_at_zero() {
    let mut balance: u64 = 100;
    apply_fee(&mut balance, 150);
    assert_eq!(balance, 0);
}

#[test]
fn apply_fee_deducts() {
    let mut balance: u64 = 100;
    apply_fee(&mut balance, 30);
    assert_eq!(balance, 70);
}

#[test]
fn test_wallet_reports_confirmed_balance() {
    let wallet = TestWallet { confirmed: 500 };
    assert_eq!(wallet.balance(), 500);
}

#[test]
fn outpoint_getters() {
    let op = Outpoint(String::from("aa55"), 7);
    assert_eq!(op.txid(), "aa55");
    assert_eq!(op.vout(), 7);
}

#[test]
fn outpoint_equality_is_structural() {
    let a = Outpoint(String::from("aa55"), 7);
    let b = Outpoint(String::from("aa55"), 7);
    let c = Outpoint(String::from("aa55"), 8);
    let d = Outpoint(String::from("bb66"), 7);
    assert_eq!(a, b);
    assert_ne!(a, c);
    assert_ne!(a, d);
}

#[test]
fn consume_utxo_returns_value_unchanged() {
    let utxo = UTXO {
        txid: vec![0xde, 0xad],
        vout: 1,
        value: 5000,
    };
    let spent = consume_utxo(utxo);
    assert_eq!(spent.txid, vec![0xde, 0xad]);
    assert_eq!(spent.vout, 1);
    assert_eq!(spent.value, 5000);
}

#[test]
fn move_txid_prefixes_identifier() {
    assert_eq!(move_txid(String::from("abc123")), "Moved txid: abc123");
}

use txscript::read_pushdata;
use txscript::classify_script;
use txscript::Opcode;
use txscript::ScriptType;
use txscript::TxError;

fn p2pkh_script() -> Vec<u8> {
    let mut s = vec![0x76u8, 0xa9, 0x14];
    s.extend_from_slice(&[0u8; 20]);
    s.push(0x88);
    s.push(0xac);
    s
}

fn p2wpkh_script() -> Vec<u8> {
    let mut s = vec![0x00u8, 0x14];
    s.extend_from_slice(&[0u8; 20]);
    s
}

#[test]
fn classify_p2pkh() {
    assert_eq!(classify_script(&p2pkh_script()), ScriptType::P2PKH);
}

#[test]
fn classify_p2wpkh() {
    assert_eq!(classify_script(&p2wpkh_script()), ScriptType::P2WPKH);
}

#[test]
fn classify_single_byte_unknown() {
    assert_eq!(classify_script(&[0x51]), ScriptType::Unknown);
}

#[test]
fn classify_p2pkh_prefix_wrong_tail_unknown() {
    let mut s = p2pkh_script();
    s[24] = 0x00;
    assert_eq!(classify_script(&s), ScriptType::Unknown);
}

#[test]
fn classify_p2pkh_wrong_length_unknown() {
    let mut s = p2pkh_script();
    s.push(0x00);
    assert_eq!(classify_script(&s), ScriptType::Unknown);
}

#[test]
fn classify_empty_unknown() {
    assert_eq!(classify_script(&[]), ScriptType::Unknown);
}

#[test]
fn opcode_dup() {
    assert_eq!(Opcode::from_byte(0x76), Ok(Opcode::OpDup));
}

#[test]
fn opcode_checksig() {
    assert_eq!(Opcode::from_byte(0xac), Ok(Opcode::OpChecksig));
}

#[test]
fn opcode_unknown_byte() {
    assert_eq!(
        Opcode::from_byte(0x00),
        Err(TxError::UnknownOpcode { byte: 0x00 })
    );
}

#[test]
fn pushdata_payload() {
    let script = [0x00u8, 0x03, 0xaa, 0xbb, 0xcc];
    assert_eq!(read_pushdata(&script), Ok(&script[2..]));
}

#[test]
fn pushdata_header_only_is_empty() {
    let script = [0x00u8, 0x00];
    assert_eq!(read_pushdata(&script), Ok(&[] as &[u8]));
}

#[test]
fn pushdata_short_script_truncated() {
    assert_eq!(read_pushdata(&[0x00]), Err(TxError::Truncated));
    assert_eq!(read_pushdata(&[]), Err(TxError::Truncated));
}

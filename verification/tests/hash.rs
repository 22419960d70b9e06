use burnchains::hex::HexError;
use burnchains::{BurnchainHeaderHash, Txid};

fn counting() -> [u8; 32] {
    let mut bytes = [0u8; 32];
    for i in 0..32 {
        bytes[i] = (i * 8 + 7) as u8;
    }
    bytes
}

#[test]
fn hex_text_of_hashes() {
    let text = "070f171f272f373f474f575f676f777f878f979fa7afb7bfc7cfd7dfe7eff7ff";
    assert_eq!(BurnchainHeaderHash(counting()).to_hex(), text);
    assert_eq!(Txid(counting()).to_hex(), text);
    assert_eq!(BurnchainHeaderHash::from_hex(text), Ok(BurnchainHeaderHash(counting())));
    assert_eq!(Txid::from_hex(text), Ok(Txid(counting())));
    let upper = text.to_uppercase();
    assert_eq!(Txid::from_hex(&upper), Ok(Txid(counting())));
}

#[test]
fn hex_text_of_wrong_length() {
    assert_eq!(BurnchainHeaderHash::from_hex(""), Err(HexError::BadLength(0)));
    assert_eq!(BurnchainHeaderHash::from_hex("00"), Err(HexError::BadLength(2)));
    let odd = "0".repeat(65);
    assert_eq!(BurnchainHeaderHash::from_hex(&odd), Err(HexError::BadLength(65)));
    let long = "0".repeat(66);
    assert_eq!(Txid::from_hex(&long), Err(HexError::BadLength(66)));
    // an odd last character is not looked at
    assert_eq!(Txid::from_hex("00\u{e9}"), Err(HexError::BadLength(4)));
}

#[test]
fn hex_text_with_bad_character() {
    assert_eq!(Txid::from_hex("0g"), Err(HexError::BadCharacter('g')));
    assert_eq!(Txid::from_hex("x0zz"), Err(HexError::BadCharacter('x')));
    let bad = "0".repeat(63) + "\u{e9}";
    assert_eq!(BurnchainHeaderHash::from_hex(&bad), Err(HexError::BadCharacter('\u{e9}')));
}

use binance_account::sign;

#[test]
fn sign_matches_the_rfc_4231_vector_for_a_short_key() {
    let sig = sign(b"Jefe", b"what do ya want for nothing?");
    assert_eq!(sig, "5bdcc146bf60754e6a042426089575c75a003f089d2739839dec58b964ec3843");
}

#[test]
fn sign_matches_the_rfc_4231_vector_for_a_binary_key() {
    let key = [0x0bu8; 20];
    let sig = sign(&key, b"Hi There");
    assert_eq!(sig, "b0344c61d8db38535ca8afceaf0bf12b881dc200c9833da726e9376c2e32cff7");
}

#[test]
fn sign_accepts_a_key_longer_than_a_block() {
    let key = [0xaau8; 131];
    let sig = sign(&key, b"Test Using Larger Than Block-Size Key - Hash Key First");
    assert_eq!(sig, "60e431591ee0b67f0d8a26aacbf5b77f8e0bc6213728c5140546040f0ee37f54");
}

#[test]
fn sign_accepts_an_empty_key_and_an_empty_message() {
    let sig = sign(b"", b"");
    assert_eq!(sig, "b613679a0814d9ec772f95d778c35fc5ff1697c493715653c6c712144292c5ad");
}

#[test]
fn sign_is_deterministic() {
    let a = sign(b"secret", b"symbol=BNBUSDT&timestamp=1");
    let b = sign(b"secret", b"symbol=BNBUSDT&timestamp=1");
    assert_eq!(a, b);
}

#[test]
fn sign_differs_when_one_byte_of_the_message_changes() {
    let a = sign(b"secret", b"symbol=BNBUSDT&timestamp=1");
    let b = sign(b"secret", b"symbol=BNBUSDT&timestamp=2");
    let c = sign(b"secret", b"symbol=BNBUSDU&timestamp=1");
    assert_ne!(a, b);
    assert_ne!(a, c);
    assert_ne!(b, c);
}

#[test]
fn sign_differs_when_the_key_changes() {
    let a = sign(b"secret", b"message");
    let b = sign(b"secreu", b"message");
    assert_ne!(a, b);
}

#[test]
fn sign_gives_sixty_four_lower_case_hex_digits() {
    let sig = sign(b"k", b"m");
    assert_eq!(sig.len(), 64);
    assert!(sig.chars().all(|c| c.is_ascii_digit() || ('a'..='f').contains(&c)));
}

#[test]
fn to_hex_writes_two_digits_per_byte() {
    assert_eq!(binance_account::sign::to_hex(&[0x00, 0x0f, 0xa0, 0xff, 0x5c]), "000fa0ff5c");
    assert_eq!(binance_account::sign::to_hex(&[]), "");
}

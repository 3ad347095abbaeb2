use nekoton::crypto::{
    make_labs_mnemonic, make_legacy_mnemonic, ParsedMnemonicType, UnsignedMessage,
};
use nekoton::models::WalletError;

fn counting_hash() -> Vec<u8> {
    (0u8..32u8).collect()
}

fn sample_message(now: u32, timeout: u32) -> UnsignedMessage {
    UnsignedMessage::new(vec![0xde, 0xad, 0xbe, 0xef], counting_hash(), now, timeout)
}

#[test]
fn hash_is_lowercase_hex_of_content_hash() {
    let m = sample_message(1000, 60);
    assert_eq!(
        m.hash(),
        "000102030405060708090a0b0c0d0e0f101112131415161718191a1b1c1d1e1f"
    );
}

#[test]
fn hash_is_stable_across_calls_and_refresh() {
    let mut m = sample_message(1000, 60);
    let first = m.hash();
    assert_eq!(first, m.hash());
    m.refresh_timeout(2000);
    assert_eq!(first, m.hash());
}

#[test]
fn construction_expires_in_the_future() {
    let m = sample_message(1000, 60);
    assert_eq!(m.expire_at(), 1060);
}

#[test]
fn refresh_timeout_is_idempotent_within_window() {
    let mut m = sample_message(1000, 60);
    m.refresh_timeout(1030);
    assert_eq!(m.expire_at(), 1060);
}

#[test]
fn refresh_timeout_extends_after_expiry() {
    let mut m = sample_message(1000, 60);
    m.refresh_timeout(1060);
    assert_eq!(m.expire_at(), 1120);
}

#[test]
fn refresh_timeout_never_decreases_expiration() {
    let mut m = sample_message(1000, 60);
    let mut last = m.expire_at();
    for now in [500u32, 1000, 1059, 1060, 1200, 5000] {
        m.refresh_timeout(now);
        let e = m.expire_at();
        assert!(e >= last);
        assert!(e > now);
        last = e;
    }
}

#[test]
fn sign_freezes_expiration_at_signing_time() {
    let m = sample_message(1000, 60);
    let expire = m.expire_at();
    let signed = m.sign(&vec![0x5a; 64]).unwrap();
    assert_eq!(signed.expire_at(), expire);
    assert_eq!(signed.hash, counting_hash());
}

#[test]
fn sign_appends_signature_to_body() {
    let m = sample_message(1000, 60);
    let signed = m.sign(&vec![0x5a; 64]).unwrap();
    let mut expected = vec![0xde, 0xad, 0xbe, 0xef];
    expected.extend(std::iter::repeat(0x5a).take(64));
    assert_eq!(signed.message, expected);
}

#[test]
fn sign_rejects_malformed_signature() {
    let m = sample_message(1000, 60);
    let r = m.sign(&vec![0x5a; 63]);
    assert_eq!(r.unwrap_err(), WalletError::SigningFailed);
}

#[test]
fn sign_fake_uses_all_zero_signature() {
    let m = sample_message(1000, 60);
    let signed = m.sign_fake().unwrap();
    let mut expected = vec![0xde, 0xad, 0xbe, 0xef];
    expected.extend(std::iter::repeat(0u8).take(64));
    assert_eq!(signed.message, expected);
    assert_eq!(signed.expire_at(), 1060);
    assert_eq!(signed.hash, counting_hash());
}

#[test]
fn mnemonic_constructors() {
    assert_eq!(
        make_labs_mnemonic(7),
        ParsedMnemonicType::Labs { account_id: 7 }
    );
    assert_eq!(make_legacy_mnemonic(), ParsedMnemonicType::Legacy);
}

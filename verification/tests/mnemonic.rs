use paramant::mnemonic::Mnemonic;

#[test]
fn generate_is_twelve_words_and_parses() {
    let m = Mnemonic::generate().unwrap();
    assert_eq!(m.word_count(), 12);
    assert!(Mnemonic::parse(&m.phrase()).is_ok());
}

#[test]
fn rejects_bad_checksum_and_unknown_words() {
    assert!(Mnemonic::parse("abandon ".repeat(12).trim_end()).is_err());
    assert!(Mnemonic::parse("notaword ".repeat(12).trim_end()).is_err());
}

#[test]
fn passphrase_changes_the_seed() {
    let m = Mnemonic::generate_from_entropy([7u8; 16]).unwrap();
    assert_ne!(m.to_seed("")[..], m.to_seed("pass")[..]);
}

#[test]
fn zero_entropy_is_the_canonical_phrase_and_roundtrips() {
    let m = Mnemonic::generate_from_entropy([0u8; 16]).unwrap();
    assert_eq!(
        m.phrase(),
        "abandon abandon abandon abandon abandon abandon abandon abandon abandon abandon abandon about"
    );
    let again = Mnemonic::parse(&m.phrase()).unwrap();
    assert_eq!(again.to_entropy(), vec![0u8; 16]);
    assert_eq!(m.to_seed("")[..], again.to_seed("")[..]);
    assert_eq!(m.to_seed("x").len(), 64);
}

#[test]
fn longer_phrases_parse_with_their_word_count() {
    let p24 = "abandon abandon abandon abandon abandon abandon abandon abandon abandon abandon abandon abandon abandon abandon abandon abandon abandon abandon abandon abandon abandon abandon abandon art";
    let m = Mnemonic::parse(p24).unwrap();
    assert_eq!(m.word_count(), 24);
    assert_eq!(m.to_entropy(), vec![0u8; 32]);
}

use rboard::digest::content_hash;

#[test]
fn hash_of_hello_is_sha256_hex() {
    assert_eq!(
        content_hash("hello"),
        "2cf24dba5fb0a30e26e83b2ac5b9e29e1b161e5c1fa7425e73043362938b9824"
    );
}

#[test]
fn hash_of_empty_text() {
    assert_eq!(
        content_hash(""),
        "e3b0c44298fc1c149afbf4c8996fb92427ae41e4649b934ca495991b7852b855"
    );
}

#[test]
fn hash_uses_utf8_bytes() {
    // "é" is the two bytes c3 a9.
    let hash = content_hash("é");
    assert_eq!(hash.len(), 64);
    assert!(hash.chars().all(|c| c.is_ascii_digit() || ('a'..='f').contains(&c)));
    assert_ne!(hash, content_hash("e"));
    assert_eq!(hash, content_hash("é"));
}

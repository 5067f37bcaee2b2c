use codexmanager::fingerprint::fingerprint_anchor;

#[test]
fn fingerprint_is_first_eight_digest_bytes_in_hex() {
    assert_eq!(fingerprint_anchor("abc"), "ba7816bf8f01cfea");
    assert_eq!(fingerprint_anchor(""), "e3b0c44298fc1c14");
    assert_eq!(fingerprint_anchor("会话"), "a63280253f17d440");
}

#[test]
fn fingerprint_has_sixteen_lower_hex_digits() {
    let fp = fingerprint_anchor("conversation-anchor");
    assert_eq!(fp.len(), 16);
    assert!(fp.chars().all(|c| c.is_ascii_digit() || ('a'..='f').contains(&c)));
    assert_eq!(fp, fingerprint_anchor("conversation-anchor"));
    assert_ne!(fp, fingerprint_anchor("conversation-anchor-2"));
}

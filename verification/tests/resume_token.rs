use netplay_rooms::resume_token::{hash_resume_token, ResumeToken, ResumeTokenGenerator, UuidResumeTokenGenerator};
use netplay_rooms::text::lowercase_hex;

#[test]
fn hash_is_lowercase_sha256_hex() {
    assert_eq!(
        hash_resume_token("abc"),
        "ba7816bf8f01cfea414140de5dae2223b00361a396177a9cb410ff61f20015ad"
    );
    let token = ResumeToken::new("abc".to_string());
    assert_eq!(token.expose(), "abc");
    assert_eq!(token.hash(), hash_resume_token("abc"));
}

#[test]
fn generated_tokens_are_64_hex_characters_and_differ() {
    let generator = UuidResumeTokenGenerator;
    let first = generator.generate();
    let second = generator.generate();
    assert_eq!(first.expose().len(), 64);
    assert!(first.expose().chars().all(|c| c.is_ascii_hexdigit() && !c.is_ascii_uppercase()));
    assert_ne!(first, second);
}

#[test]
fn lowercase_hex_renders_two_digits_per_byte() {
    assert_eq!(lowercase_hex(&[0x00, 0x0f, 0xa5, 0xff]), "000fa5ff");
    assert_eq!(lowercase_hex(&[]), "");
}

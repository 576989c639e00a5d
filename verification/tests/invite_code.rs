use netplay_rooms::invite_code::{
    InviteCode, InviteCodeGenerator, UuidInviteCodeGenerator, INVITE_CODE_LEN,
};
use netplay_rooms::errors::RoomError;

#[test]
fn parse_accepts_hyphenated_lowercase_codes() {
    let code = InviteCode::parse("ab23-cd").expect("code");

    assert_eq!(code.normalized(), "AB23CD");
    assert_eq!(code.display(), "AB23-CD");
}

#[test]
fn parse_rejects_wrong_length_codes() {
    assert!(InviteCode::parse("ABC").is_err());
}

#[test]
fn generator_returns_normalized_codes() {
    let generator = UuidInviteCodeGenerator;
    let code = generator.generate();

    assert_eq!(code.normalized().len(), INVITE_CODE_LEN);
    assert!(!code.normalized().contains('-'));
}

#[test]
fn parse_rejects_characters_outside_the_alphabet() {
    assert_eq!(InviteCode::parse("AB10CD"), Err(RoomError::InvalidInviteCode));
    assert_eq!(InviteCode::parse("ABIOCD"), Err(RoomError::InvalidInviteCode));
    assert_eq!(InviteCode::parse("ÄB23CD"), Err(RoomError::InvalidInviteCode));
}

#[test]
fn parse_strips_whitespace_and_display_round_trips() {
    let code = InviteCode::parse(" zz 99\t-xy\n").expect("code");
    assert_eq!(code.normalized(), "ZZ99XY");
    let again = InviteCode::parse(&code.display()).expect("display form parses");
    assert_eq!(again, code);
    assert_eq!(InviteCode::parse(code.normalized()).expect("normalized parses"), code);
}

#[test]
fn random_bits_select_one_alphabet_entry_per_leading_byte() {
    assert_eq!(InviteCode::from_random_bits(0).normalized(), "222222");
    let bits: u128 = 0x0809_1f20_21ff_u128 << 80;
    assert_eq!(InviteCode::from_random_bits(bits).normalized(), "ABZ23Z");
}

use noughts_and_crosses::ids::{GameID, GameIDParseError, Position, PositionParseError};

#[test]
fn parse_accepts_an_eight_character_alphanumeric_token() {
    let g = GameID::parse("abcd1234").unwrap();
    assert_eq!(g.as_str(), "abcd1234");
}

#[test]
fn parse_rejects_wrong_lengths() {
    assert_eq!(GameID::parse(""), Err(GameIDParseError::InvalidLength));
    assert_eq!(GameID::parse("abc1234"), Err(GameIDParseError::InvalidLength));
    assert_eq!(GameID::parse("abcd12345"), Err(GameIDParseError::InvalidLength));
}

#[test]
fn parse_rejects_non_alphanumeric_characters() {
    assert_eq!(GameID::parse("ab!d1234"), Err(GameIDParseError::InvalidCharacters));
    assert_eq!(GameID::parse("abcd 123"), Err(GameIDParseError::InvalidCharacters));
    assert_eq!(GameID::parse("abcd-123"), Err(GameIDParseError::InvalidCharacters));
}

#[test]
fn freshly_sampled_tokens_validate() {
    for _ in 0..16 {
        let g = GameID::new();
        assert_eq!(g.as_str().chars().count(), 8);
        let reparsed = GameID::parse(g.as_str()).unwrap();
        assert_eq!(reparsed, g);
    }
}

#[test]
fn position_construction_checks_each_coordinate() {
    let p = Position::new(2, 0).unwrap();
    assert_eq!(p.x(), 2);
    assert_eq!(p.y(), 0);
    assert_eq!(Position::new(3, 0), Err(PositionParseError::XOutOfBounds));
    assert_eq!(Position::new(7, 9), Err(PositionParseError::XOutOfBounds));
    assert_eq!(Position::new(0, 3), Err(PositionParseError::YOutOfBounds));
}

use cards::{Format, Indexable, Suit};

#[test]
fn suit_to_string() {
    assert_eq!(Suit::Spades.to_string(), "S");
    assert_eq!(Suit::Diamonds.to_string(), "D");
}

#[test]
fn suit_new_upper_case_format() {
    let format = Suit::new_upper_case_format();

    assert_eq!(format.format(&Suit::Spades), "S");
    assert_eq!(format.format(&Suit::Diamonds), "D");

    assert_eq!(format.parse("S").unwrap(), Suit::Spades);
    assert_eq!(format.parse("D").unwrap(), Suit::Diamonds);
}

#[test]
fn suit_new_lower_case_format() {
    let format = Suit::new_lower_case_format();

    assert_eq!(format.format(&Suit::Spades), "s");
    assert_eq!(format.format(&Suit::Diamonds), "d");

    assert_eq!(format.parse("s").unwrap(), Suit::Spades);
    assert_eq!(format.parse("d").unwrap(), Suit::Diamonds);
}

#[test]
fn suit_indices() {
    assert_eq!(Suit::Spades.to_index(), 0);
    assert_eq!(Suit::Hearts.to_index(), 1);
    assert_eq!(Suit::Diamonds.to_index(), 2);
    assert_eq!(Suit::Clubs.to_index(), 3);
    assert_eq!(Suit::maximum_index(), 3);
    for i in 0..=3u8 {
        assert_eq!(Suit::from_index(i).to_index(), i);
    }
}

#[test]
fn suit_from_index_past_the_domain() {
    assert_eq!(Suit::from_index(4), Suit::Spades);
    assert_eq!(Suit::from_index(255), Suit::Spades);
}

#[test]
fn suit_conversions_and_default() {
    assert_eq!(Suit::from(3u8), Suit::Clubs);
    assert_eq!(u8::from(Suit::Hearts), 1);
    assert_eq!(Suit::default(), Suit::Spades);
}

#[test]
fn suit_parse_rejects_unknown_tokens() {
    let format = Suit::new_lower_case_format();
    assert_eq!(format.parse("S"), Err(()));
    assert_eq!(format.parse("x"), Err(()));
    assert_eq!(format.parse("ss"), Err(()));
}

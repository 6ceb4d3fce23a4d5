use cards::{Format, Indexable, IndexableFormat, Rank};

#[test]
fn rank_to_string() {
    assert_eq!(Rank::Ace.to_string(), "A");
    assert_eq!(Rank::Ten.to_string(), "10");
}

#[test]
fn rank_new_upper_case_format() {
    let format = Rank::new_upper_case_format();

    assert_eq!(format.format(&Rank::Ace), "A");
    assert_eq!(format.format(&Rank::Ten), "10");

    assert_eq!(format.parse("A").unwrap(), Rank::Ace);
    assert_eq!(format.parse("10").unwrap(), Rank::Ten);
}

#[test]
fn rank_new_lower_case_format() {
    let format = Rank::new_lower_case_format();

    assert_eq!(format.format(&Rank::Ace), "a");
    assert_eq!(format.format(&Rank::Ten), "10");

    assert_eq!(format.parse("a").unwrap(), Rank::Ace);
    assert_eq!(format.parse("10").unwrap(), Rank::Ten);
}

#[test]
fn rank_indices() {
    assert_eq!(Rank::Ace.to_index(), 0);
    assert_eq!(Rank::Ten.to_index(), 9);
    assert_eq!(Rank::King.to_index(), 12);
    assert_eq!(Rank::maximum_index(), 12);
    for i in 0..=12u8 {
        assert_eq!(Rank::from_index(i).to_index(), i);
    }
}

#[test]
fn rank_from_index_past_the_domain() {
    assert_eq!(Rank::from_index(13), Rank::Ace);
    assert_eq!(Rank::from_index(255), Rank::Ace);
}

#[test]
fn rank_conversions_and_default() {
    assert_eq!(Rank::from(11u8), Rank::Queen);
    assert_eq!(Rank::from(200u8), Rank::Ace);
    assert_eq!(u8::from(Rank::Jack), 10);
    assert_eq!(Rank::default(), Rank::Ace);
}

#[test]
fn rank_parse_rejects_unknown_tokens() {
    let format = Rank::new_upper_case_format();
    assert_eq!(format.parse("a"), Err(()));
    assert_eq!(format.parse("1"), Err(()));
    assert_eq!(format.parse("0"), Err(()));
}

#[test]
fn rank_round_trip_formatting() {
    let upper = Rank::new_upper_case_format();
    let lower = Rank::new_lower_case_format();
    for i in 0..=Rank::maximum_index() {
        let rank = Rank::from_index(i);
        assert_eq!(upper.parse(upper.format(&rank)), Ok(rank));
        assert_eq!(lower.parse(lower.format(&rank)), Ok(rank));
    }
}

#[test]
fn custom_rank_table() {
    let format: IndexableFormat<Rank, 13> = IndexableFormat::new([
        "ace", "two", "three", "four", "five", "six", "seven", "eight", "nine", "ten", "jack",
        "queen", "king",
    ]);
    assert_eq!(format.format(&Rank::Queen), "queen");
    assert_eq!(format.parse("seven"), Ok(Rank::Seven));
    assert_eq!(format.parse("Seven"), Err(()));
}

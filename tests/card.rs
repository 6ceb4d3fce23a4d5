use cards::{Card, Format, Indexable, Rank, Suit};
use std::collections::HashSet;

#[test]
fn new() {
    let card = Card::new(Rank::Five, Suit::Diamonds);

    assert_eq!(
        card,
        Card {
            rank: Rank::Five,
            suit: Suit::Diamonds
        }
    );
}

#[test]
fn create_full_deck() {
    let full_deck = Card::create_full_deck();

    assert_eq!(full_deck.len(), 52);
    assert_eq!(full_deck[0], Card::new(Rank::Ace, Suit::Spades));
    assert_eq!(full_deck[12], Card::new(Rank::King, Suit::Spades));
    assert_eq!(full_deck[13], Card::new(Rank::Ace, Suit::Hearts));
    assert_eq!(full_deck[51], Card::new(Rank::King, Suit::Clubs));

    let set: HashSet<Card> = full_deck.into();
    assert_eq!(set.len(), 52);
}

#[test]
fn from_index() {
    let deck_from_index = (0..52).map(|i| Card::from_index(i)).collect::<Vec<Card>>();

    assert_eq!(deck_from_index, Card::create_full_deck().to_vec());
}

#[test]
fn to_index() {
    let full_deck = Card::create_full_deck();

    let actual = full_deck.map(|c| c.to_index());

    assert_eq!(actual.to_vec(), (0..52).collect::<Vec<u8>>());
}

#[test]
fn card_to_string() {
    assert_eq!(Card::new(Rank::Ace, Suit::Spades).to_string(), "AS");
    assert_eq!(Card::new(Rank::Ten, Suit::Diamonds).to_string(), "10D");
}

#[test]
fn card_new_upper_case_format() {
    let format = Card::new_upper_case_format();

    assert_eq!(format.format(&Card::new(Rank::Ace, Suit::Spades)), "AS");
    assert_eq!(format.format(&Card::new(Rank::Ten, Suit::Diamonds)), "10D");

    assert_eq!(
        format.parse("AS").unwrap(),
        Card::new(Rank::Ace, Suit::Spades)
    );
    assert_eq!(
        format.parse("10D").unwrap(),
        Card::new(Rank::Ten, Suit::Diamonds)
    );
}

#[test]
fn card_new_lower_case_format() {
    let format = Card::new_lower_case_format();

    assert_eq!(format.format(&Card::new(Rank::Ace, Suit::Spades)), "as");
    assert_eq!(format.format(&Card::new(Rank::Ten, Suit::Diamonds)), "10d");

    assert_eq!(
        format.parse("as").unwrap(),
        Card::new(Rank::Ace, Suit::Spades)
    );
    assert_eq!(
        format.parse("10d").unwrap(),
        Card::new(Rank::Ten, Suit::Diamonds)
    );
}

#[test]
fn card_parse_rejects_other_case() {
    let lower = Card::new_lower_case_format();
    assert_eq!(lower.parse("AS"), Err(()));

    let upper = Card::new_upper_case_format();
    assert_eq!(upper.parse("as"), Err(()));
}

#[test]
fn card_parse_rejects_unknown_tokens() {
    let format = Card::new_upper_case_format();
    assert_eq!(format.parse(""), Err(()));
    assert_eq!(format.parse("1D"), Err(()));
    assert_eq!(format.parse("10"), Err(()));
    assert_eq!(format.parse("10DD"), Err(()));
    assert_eq!(format.parse(" AS"), Err(()));
    assert_eq!(format.parse("11D"), Err(()));
}

#[test]
fn card_index_formula() {
    assert_eq!(Card::new(Rank::Ace, Suit::Spades).to_index(), 0);
    assert_eq!(Card::new(Rank::Ten, Suit::Diamonds).to_index(), 35);
    assert_eq!(Card::new(Rank::Ace, Suit::Hearts).to_index(), 13);
    assert_eq!(Card::new(Rank::King, Suit::Clubs).to_index(), 51);
    assert_eq!(Card::from_index(35), Card::new(Rank::Ten, Suit::Diamonds));
    assert_eq!(Card::maximum_index(), 51);
}

#[test]
fn card_from_index_past_the_deck() {
    assert_eq!(Card::from_index(52), Card::new(Rank::Ace, Suit::Spades));
    assert_eq!(Card::from_index(60), Card::new(Rank::Nine, Suit::Spades));
    assert_eq!(Card::from_index(255), Card::new(Rank::Nine, Suit::Spades));
}

#[test]
fn card_bijection_and_coverage() {
    let deck = Card::create_full_deck();
    let mut seen = HashSet::new();
    for card in deck {
        assert_eq!(Card::from_index(card.to_index()), card);
        assert!(card.to_index() <= Card::maximum_index());
        assert!(seen.insert(card.to_index()));
    }
    assert_eq!(seen, (0..52).collect::<HashSet<u8>>());
}

#[test]
fn card_round_trip_formatting() {
    let upper = Card::new_upper_case_format();
    let lower = Card::new_lower_case_format();
    for card in Card::create_full_deck() {
        assert_eq!(upper.parse(upper.format(&card)), Ok(card));
        assert_eq!(lower.parse(lower.format(&card)), Ok(card));
    }
}

#[test]
fn card_tokens_compose_rank_and_suit() {
    let cards = Card::new_upper_case_format();
    let ranks = Rank::new_upper_case_format();
    let suits = Suit::new_upper_case_format();
    for card in Card::create_full_deck() {
        let expected = format!("{}{}", ranks.format(&card.rank), suits.format(&card.suit));
        assert_eq!(cards.format(&card), expected);
    }
}

#[test]
fn card_default_is_ace_of_spades() {
    assert_eq!(Card::default(), Card::new(Rank::Ace, Suit::Spades));
}

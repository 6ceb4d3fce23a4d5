use vstd::prelude::*;

use crate::indexable::Indexable;
use crate::text::{lemma_distinct_by_decoding, tokens_distinct, Format, IndexableFormat};

verus! {

/// One of the thirteen card face values, ace low.
#[derive(Debug, Copy, Clone, Hash, PartialEq, Eq, Structural, PartialOrd, Ord)]
pub enum Rank {
    Ace,
    Two,
    Three,
    Four,
    Five,
    Six,
    Seven,
    Eight,
    Nine,
    Ten,
    Jack,
    Queen,
    King,
}

/// The rank that the first character of a rank token stands for, in either case.
pub open spec fn rank_of_char(c: char) -> int {
    match c {
        'A' | 'a' => 0,
        '2' => 1,
        '3' => 2,
        '4' => 3,
        '5' => 4,
        '6' => 5,
        '7' => 6,
        '8' => 7,
        '9' => 8,
        '1' => 9,
        'J' | 'j' => 10,
        'Q' | 'q' => 11,
        'K' | 'k' => 12,
        _ => -1,
    }
}

/// The upper-case rank tokens, in index order.
pub open spec fn rank_upper_tokens() -> Seq<Seq<char>> {
    seq![
        "A"@, "2"@, "3"@, "4"@, "5"@, "6"@, "7"@, "8"@, "9"@, "10"@, "J"@, "Q"@, "K"@,
    ]
}

/// The lower-case rank tokens, in index order.
pub open spec fn rank_lower_tokens() -> Seq<Seq<char>> {
    seq![
        "a"@, "2"@, "3"@, "4"@, "5"@, "6"@, "7"@, "8"@, "9"@, "10"@, "j"@, "q"@, "k"@,
    ]
}

impl Rank {
    /// A formatter with the tokens `A, 2, ..., 10, J, Q, K`.
    pub fn new_upper_case_format() -> (r: IndexableFormat<'static, Rank, 13>)
        ensures
            r.tokens() == rank_upper_tokens(),
            tokens_distinct(r.tokens()),
    {
        let values: [&'static str; 13] = [
            "A", "2", "3", "4", "5", "6", "7", "8", "9", "10", "J", "Q", "K",
        ];
        proof {
            reveal_strlit("A");
            reveal_strlit("2");
            reveal_strlit("3");
            reveal_strlit("4");
            reveal_strlit("5");
            reveal_strlit("6");
            reveal_strlit("7");
            reveal_strlit("8");
            reveal_strlit("9");
            reveal_strlit("10");
            reveal_strlit("J");
            reveal_strlit("Q");
            reveal_strlit("K");
            let tokens = values@.map_values(|s: &'static str| s@);
            assert(tokens =~= rank_upper_tokens());
            lemma_distinct_by_decoding(tokens, |t: Seq<char>| rank_of_char(t[0]));
        }
        IndexableFormat::new(values)
    }

    /// A formatter with the tokens `a, 2, ..., 10, j, q, k`.
    pub fn new_lower_case_format() -> (r: IndexableFormat<'static, Rank, 13>)
        ensures
            r.tokens() == rank_lower_tokens(),
            tokens_distinct(r.tokens()),
    {
        let values: [&'static str; 13] = [
            "a", "2", "3", "4", "5", "6", "7", "8", "9", "10", "j", "q", "k",
        ];
        proof {
            reveal_strlit("a");
            reveal_strlit("2");
            reveal_strlit("3");
            reveal_strlit("4");
            reveal_strlit("5");
            reveal_strlit("6");
            reveal_strlit("7");
            reveal_strlit("8");
            reveal_strlit("9");
            reveal_strlit("10");
            reveal_strlit("j");
            reveal_strlit("q");
            reveal_strlit("k");
            let tokens = values@.map_values(|s: &'static str| s@);
            assert(tokens =~= rank_lower_tokens());
            lemma_distinct_by_decoding(tokens, |t: Seq<char>| rank_of_char(t[0]));
        }
        IndexableFormat::new(values)
    }

    /// The upper-case token of the rank.
    pub fn to_string(&self) -> (r: String)
        ensures
            r@ == rank_upper_tokens()[self.spec_to_index() as int],
    {
        let format = Rank::new_upper_case_format();
        let token: &str = format.format(self);
        token.to_owned()
    }
}

impl Default for Rank {
    /// The default rank is the ace.
    fn default() -> (r: Rank)
        ensures
            r == Rank::Ace,
    {
        Rank::Ace
    }
}

/// The rank of a numeric index, as `from_index` gives it.
impl From<u8> for Rank {
    fn from(index: u8) -> (r: Rank) {
        Rank::from_index(index)
    }
}

impl vstd::std_specs::convert::FromSpecImpl<u8> for Rank {
    open spec fn obeys_from_spec() -> bool {
        true
    }

    open spec fn from_spec(index: u8) -> Rank {
        Rank::spec_from_index(index)
    }
}

/// The index of a rank, as `to_index` gives it.
impl From<Rank> for u8 {
    fn from(rank: Rank) -> (r: u8) {
        rank.to_index()
    }
}

impl vstd::std_specs::convert::FromSpecImpl<Rank> for u8 {
    open spec fn obeys_from_spec() -> bool {
        true
    }

    open spec fn from_spec(rank: Rank) -> u8 {
        rank.spec_to_index()
    }
}

impl Indexable for Rank {
    /// Indices past `12` give the default rank, the ace.
    open spec fn spec_from_index(index: u8) -> Rank {
        match index {
            1 => Rank::Two,
            2 => Rank::Three,
            3 => Rank::Four,
            4 => Rank::Five,
            5 => Rank::Six,
            6 => Rank::Seven,
            7 => Rank::Eight,
            8 => Rank::Nine,
            9 => Rank::Ten,
            10 => Rank::Jack,
            11 => Rank::Queen,
            12 => Rank::King,
            _ => Rank::Ace,
        }
    }

    open spec fn spec_to_index(&self) -> u8 {
        match self {
            Rank::Ace => 0,
            Rank::Two => 1,
            Rank::Three => 2,
            Rank::Four => 3,
            Rank::Five => 4,
            Rank::Six => 5,
            Rank::Seven => 6,
            Rank::Eight => 7,
            Rank::Nine => 8,
            Rank::Ten => 9,
            Rank::Jack => 10,
            Rank::Queen => 11,
            Rank::King => 12,
        }
    }

    open spec fn spec_maximum_index() -> u8 {
        12
    }

    fn from_index(index: u8) -> (r: Rank) {
        match index {
            1 => Rank::Two,
            2 => Rank::Three,
            3 => Rank::Four,
            4 => Rank::Five,
            5 => Rank::Six,
            6 => Rank::Seven,
            7 => Rank::Eight,
            8 => Rank::Nine,
            9 => Rank::Ten,
            10 => Rank::Jack,
            11 => Rank::Queen,
            12 => Rank::King,
            _ => Rank::Ace,
        }
    }

    fn to_index(&self) -> (r: u8) {
        match self {
            Rank::Ace => 0,
            Rank::Two => 1,
            Rank::Three => 2,
            Rank::Four => 3,
            Rank::Five => 4,
            Rank::Six => 5,
            Rank::Seven => 6,
            Rank::Eight => 7,
            Rank::Nine => 8,
            Rank::Ten => 9,
            Rank::Jack => 10,
            Rank::Queen => 11,
            Rank::King => 12,
        }
    }

    fn maximum_index() -> (r: u8) {
        12
    }

    proof fn lemma_index_in_range(v: Rank) {
    }

    proof fn lemma_from_to_index(v: Rank) {
    }

    proof fn lemma_to_from_index(index: u8) {
    }
}

} // verus!

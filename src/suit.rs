use vstd::prelude::*;

use crate::indexable::Indexable;
use crate::text::{lemma_distinct_by_decoding, tokens_distinct, Format, IndexableFormat};

verus! {

/// One of the four card groups.
#[derive(Debug, Copy, Clone, Hash, PartialEq, Eq, Structural, PartialOrd, Ord)]
pub enum Suit {
    Spades,
    Hearts,
    Diamonds,
    Clubs,
}

/// The suit that a suit character stands for, in either case.
pub open spec fn suit_of_char(c: char) -> int {
    match c {
        'S' | 's' => 0,
        'H' | 'h' => 1,
        'D' | 'd' => 2,
        'C' | 'c' => 3,
        _ => -1,
    }
}

/// The upper-case suit tokens, in index order.
pub open spec fn suit_upper_tokens() -> Seq<Seq<char>> {
    seq!["S"@, "H"@, "D"@, "C"@]
}

/// The lower-case suit tokens, in index order.
pub open spec fn suit_lower_tokens() -> Seq<Seq<char>> {
    seq!["s"@, "h"@, "d"@, "c"@]
}

impl Suit {
    /// A formatter with the tokens `S, H, D, C`.
    pub fn new_upper_case_format() -> (r: IndexableFormat<'static, Suit, 4>)
        ensures
            r.tokens() == suit_upper_tokens(),
            tokens_distinct(r.tokens()),
    {
        let values: [&'static str; 4] = ["S", "H", "D", "C"];
        proof {
            reveal_strlit("S");
            reveal_strlit("H");
            reveal_strlit("D");
            reveal_strlit("C");
            let tokens = values@.map_values(|s: &'static str| s@);
            assert(tokens =~= suit_upper_tokens());
            lemma_distinct_by_decoding(tokens, |t: Seq<char>| suit_of_char(t[0]));
        }
        IndexableFormat::new(values)
    }

    /// A formatter with the tokens `s, h, d, c`.
    pub fn new_lower_case_format() -> (r: IndexableFormat<'static, Suit, 4>)
        ensures
            r.tokens() == suit_lower_tokens(),
            tokens_distinct(r.tokens()),
    {
        let values: [&'static str; 4] = ["s", "h", "d", "c"];
        proof {
            reveal_strlit("s");
            reveal_strlit("h");
            reveal_strlit("d");
            reveal_strlit("c");
            let tokens = values@.map_values(|s: &'static str| s@);
            assert(tokens =~= suit_lower_tokens());
            lemma_distinct_by_decoding(tokens, |t: Seq<char>| suit_of_char(t[0]));
        }
        IndexableFormat::new(values)
    }

    /// The upper-case token of the suit.
    pub fn to_string(&self) -> (r: String)
        ensures
            r@ == suit_upper_tokens()[self.spec_to_index() as int],
    {
        let format = Suit::new_upper_case_format();
        let token: &str = format.format(self);
        token.to_owned()
    }
}

impl Default for Suit {
    /// The default suit is spades.
    fn default() -> (r: Suit)
        ensures
            r == Suit::Spades,
    {
        Suit::Spades
    }
}

/// The suit of a numeric index, as `from_index` gives it.
impl From<u8> for Suit {
    fn from(index: u8) -> (r: Suit) {
        Suit::from_index(index)
    }
}

impl vstd::std_specs::convert::FromSpecImpl<u8> for Suit {
    open spec fn obeys_from_spec() -> bool {
        true
    }

    open spec fn from_spec(index: u8) -> Suit {
        Suit::spec_from_index(index)
    }
}

/// The index of a suit, as `to_index` gives it.
impl From<Suit> for u8 {
    fn from(suit: Suit) -> (r: u8) {
        suit.to_index()
    }
}

impl vstd::std_specs::convert::FromSpecImpl<Suit> for u8 {
    open spec fn obeys_from_spec() -> bool {
        true
    }

    open spec fn from_spec(suit: Suit) -> u8 {
        suit.spec_to_index()
    }
}

impl Indexable for Suit {
    /// Indices past `3` give the default suit, spades.
    open spec fn spec_from_index(index: u8) -> Suit {
        match index {
            1 => Suit::Hearts,
            2 => Suit::Diamonds,
            3 => Suit::Clubs,
            _ => Suit::Spades,
        }
    }

    open spec fn spec_to_index(&self) -> u8 {
        match self {
            Suit::Spades => 0,
            Suit::Hearts => 1,
            Suit::Diamonds => 2,
            Suit::Clubs => 3,
        }
    }

    open spec fn spec_maximum_index() -> u8 {
        3
    }

    fn from_index(index: u8) -> (r: Suit) {
        match index {
            1 => Suit::Hearts,
            2 => Suit::Diamonds,
            3 => Suit::Clubs,
            _ => Suit::Spades,
        }
    }

    fn to_index(&self) -> (r: u8) {
        match self {
            Suit::Spades => 0,
            Suit::Hearts => 1,
            Suit::Diamonds => 2,
            Suit::Clubs => 3,
        }
    }

    fn maximum_index() -> (r: u8) {
        3
    }

    proof fn lemma_index_in_range(v: Suit) {
    }

    proof fn lemma_from_to_index(v: Suit) {
    }

    proof fn lemma_to_from_index(index: u8) {
    }
}

} // verus!

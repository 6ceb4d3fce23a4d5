use vstd::arithmetic::div_mod::{lemma_fundamental_div_mod, lemma_fundamental_div_mod_converse};
use vstd::prelude::*;

use crate::indexable::Indexable;
use crate::rank::{rank_lower_tokens, rank_of_char, rank_upper_tokens, Rank};
use crate::suit::{suit_lower_tokens, suit_of_char, suit_upper_tokens, Suit};
use crate::text::{lemma_distinct_by_decoding, tokens_distinct, Format, IndexableFormat};

verus! {

/// A playing card: a rank together with a suit.
#[derive(Debug, Hash, Copy, Clone, PartialEq, Eq, Structural, PartialOrd, Ord)]
pub struct Card {
    pub rank: Rank,
    pub suit: Suit,
}

/// The card index that a card token stands for, read from its first
/// character (the rank) and its last (the suit).
pub open spec fn card_of_token(t: Seq<char>) -> int {
    rank_of_char(t[0]) + 13 * suit_of_char(t[t.len() - 1])
}

/// The upper-case card tokens, in index order.
pub open spec fn card_upper_tokens() -> Seq<Seq<char>> {
    seq![
        "AS"@, "2S"@, "3S"@, "4S"@, "5S"@, "6S"@, "7S"@, "8S"@, "9S"@, "10S"@, "JS"@, "QS"@,
        "KS"@, "AH"@, "2H"@, "3H"@, "4H"@, "5H"@, "6H"@, "7H"@, "8H"@, "9H"@, "10H"@, "JH"@,
        "QH"@, "KH"@, "AD"@, "2D"@, "3D"@, "4D"@, "5D"@, "6D"@, "7D"@, "8D"@, "9D"@, "10D"@,
        "JD"@, "QD"@, "KD"@, "AC"@, "2C"@, "3C"@, "4C"@, "5C"@, "6C"@, "7C"@, "8C"@, "9C"@,
        "10C"@, "JC"@, "QC"@, "KC"@,
    ]
}

/// The lower-case card tokens, in index order.
pub open spec fn card_lower_tokens() -> Seq<Seq<char>> {
    seq![
        "as"@, "2s"@, "3s"@, "4s"@, "5s"@, "6s"@, "7s"@, "8s"@, "9s"@, "10s"@, "js"@, "qs"@,
        "ks"@, "ah"@, "2h"@, "3h"@, "4h"@, "5h"@, "6h"@, "7h"@, "8h"@, "9h"@, "10h"@, "jh"@,
        "qh"@, "kh"@, "ad"@, "2d"@, "3d"@, "4d"@, "5d"@, "6d"@, "7d"@, "8d"@, "9d"@, "10d"@,
        "jd"@, "qd"@, "kd"@, "ac"@, "2c"@, "3c"@, "4c"@, "5c"@, "6c"@, "7c"@, "8c"@, "9c"@,
        "10c"@, "jc"@, "qc"@, "kc"@,
    ]
}

/// Each upper-case card token is the upper-case token of its rank followed
/// by the upper-case token of its suit.
pub proof fn lemma_upper_tokens_compose(card: Card)
    ensures
        card_upper_tokens()[card.spec_to_index() as int] == rank_upper_tokens()[card.rank.spec_to_index()
            as int] + suit_upper_tokens()[card.suit.spec_to_index() as int],
{
    reveal_strlit("10");
    reveal_strlit("10C");
    reveal_strlit("10D");
    reveal_strlit("10H");
    reveal_strlit("10S");
    reveal_strlit("2");
    reveal_strlit("2C");
    reveal_strlit("2D");
    reveal_strlit("2H");
    reveal_strlit("2S");
    reveal_strlit("3");
    reveal_strlit("3C");
    reveal_strlit("3D");
    reveal_strlit("3H");
    reveal_strlit("3S");
    reveal_strlit("4");
    reveal_strlit("4C");
    reveal_strlit("4D");
    reveal_strlit("4H");
    reveal_strlit("4S");
    reveal_strlit("5");
    reveal_strlit("5C");
    reveal_strlit("5D");
    reveal_strlit("5H");
    reveal_strlit("5S");
    reveal_strlit("6");
    reveal_strlit("6C");
    reveal_strlit("6D");
    reveal_strlit("6H");
    reveal_strlit("6S");
    reveal_strlit("7");
    reveal_strlit("7C");
    reveal_strlit("7D");
    reveal_strlit("7H");
    reveal_strlit("7S");
    reveal_strlit("8");
    reveal_strlit("8C");
    reveal_strlit("8D");
    reveal_strlit("8H");
    reveal_strlit("8S");
    reveal_strlit("9");
    reveal_strlit("9C");
    reveal_strlit("9D");
    reveal_strlit("9H");
    reveal_strlit("9S");
    reveal_strlit("A");
    reveal_strlit("AC");
    reveal_strlit("AD");
    reveal_strlit("AH");
    reveal_strlit("AS");
    reveal_strlit("C");
    reveal_strlit("D");
    reveal_strlit("H");
    reveal_strlit("J");
    reveal_strlit("JC");
    reveal_strlit("JD");
    reveal_strlit("JH");
    reveal_strlit("JS");
    reveal_strlit("K");
    reveal_strlit("KC");
    reveal_strlit("KD");
    reveal_strlit("KH");
    reveal_strlit("KS");
    reveal_strlit("Q");
    reveal_strlit("QC");
    reveal_strlit("QD");
    reveal_strlit("QH");
    reveal_strlit("QS");
    reveal_strlit("S");
    assert(card_upper_tokens()[0] =~= rank_upper_tokens()[0] + suit_upper_tokens()[0]);
    assert(card_upper_tokens()[1] =~= rank_upper_tokens()[1] + suit_upper_tokens()[0]);
    assert(card_upper_tokens()[2] =~= rank_upper_tokens()[2] + suit_upper_tokens()[0]);
    assert(card_upper_tokens()[3] =~= rank_upper_tokens()[3] + suit_upper_tokens()[0]);
    assert(card_upper_tokens()[4] =~= rank_upper_tokens()[4] + suit_upper_tokens()[0]);
    assert(card_upper_tokens()[5] =~= rank_upper_tokens()[5] + suit_upper_tokens()[0]);
    assert(card_upper_tokens()[6] =~= rank_upper_tokens()[6] + suit_upper_tokens()[0]);
    assert(card_upper_tokens()[7] =~= rank_upper_tokens()[7] + suit_upper_tokens()[0]);
    assert(card_upper_tokens()[8] =~= rank_upper_tokens()[8] + suit_upper_tokens()[0]);
    assert(card_upper_tokens()[9] =~= rank_upper_tokens()[9] + suit_upper_tokens()[0]);
    assert(card_upper_tokens()[10] =~= rank_upper_tokens()[10] + suit_upper_tokens()[0]);
    assert(card_upper_tokens()[11] =~= rank_upper_tokens()[11] + suit_upper_tokens()[0]);
    assert(card_upper_tokens()[12] =~= rank_upper_tokens()[12] + suit_upper_tokens()[0]);
    assert(card_upper_tokens()[13] =~= rank_upper_tokens()[0] + suit_upper_tokens()[1]);
    assert(card_upper_tokens()[14] =~= rank_upper_tokens()[1] + suit_upper_tokens()[1]);
    assert(card_upper_tokens()[15] =~= rank_upper_tokens()[2] + suit_upper_tokens()[1]);
    assert(card_upper_tokens()[16] =~= rank_upper_tokens()[3] + suit_upper_tokens()[1]);
    assert(card_upper_tokens()[17] =~= rank_upper_tokens()[4] + suit_upper_tokens()[1]);
    assert(card_upper_tokens()[18] =~= rank_upper_tokens()[5] + suit_upper_tokens()[1]);
    assert(card_upper_tokens()[19] =~= rank_upper_tokens()[6] + suit_upper_tokens()[1]);
    assert(card_upper_tokens()[20] =~= rank_upper_tokens()[7] + suit_upper_tokens()[1]);
    assert(card_upper_tokens()[21] =~= rank_upper_tokens()[8] + suit_upper_tokens()[1]);
    assert(card_upper_tokens()[22] =~= rank_upper_tokens()[9] + suit_upper_tokens()[1]);
    assert(card_upper_tokens()[23] =~= rank_upper_tokens()[10] + suit_upper_tokens()[1]);
    assert(card_upper_tokens()[24] =~= rank_upper_tokens()[11] + suit_upper_tokens()[1]);
    assert(card_upper_tokens()[25] =~= rank_upper_tokens()[12] + suit_upper_tokens()[1]);
    assert(card_upper_tokens()[26] =~= rank_upper_tokens()[0] + suit_upper_tokens()[2]);
    assert(card_upper_tokens()[27] =~= rank_upper_tokens()[1] + suit_upper_tokens()[2]);
    assert(card_upper_tokens()[28] =~= rank_upper_tokens()[2] + suit_upper_tokens()[2]);
    assert(card_upper_tokens()[29] =~= rank_upper_tokens()[3] + suit_upper_tokens()[2]);
    assert(card_upper_tokens()[30] =~= rank_upper_tokens()[4] + suit_upper_tokens()[2]);
    assert(card_upper_tokens()[31] =~= rank_upper_tokens()[5] + suit_upper_tokens()[2]);
    assert(card_upper_tokens()[32] =~= rank_upper_tokens()[6] + suit_upper_tokens()[2]);
    assert(card_upper_tokens()[33] =~= rank_upper_tokens()[7] + suit_upper_tokens()[2]);
    assert(card_upper_tokens()[34] =~= rank_upper_tokens()[8] + suit_upper_tokens()[2]);
    assert(card_upper_tokens()[35] =~= rank_upper_tokens()[9] + suit_upper_tokens()[2]);
    assert(card_upper_tokens()[36] =~= rank_upper_tokens()[10] + suit_upper_tokens()[2]);
    assert(card_upper_tokens()[37] =~= rank_upper_tokens()[11] + suit_upper_tokens()[2]);
    assert(card_upper_tokens()[38] =~= rank_upper_tokens()[12] + suit_upper_tokens()[2]);
    assert(card_upper_tokens()[39] =~= rank_upper_tokens()[0] + suit_upper_tokens()[3]);
    assert(card_upper_tokens()[40] =~= rank_upper_tokens()[1] + suit_upper_tokens()[3]);
    assert(card_upper_tokens()[41] =~= rank_upper_tokens()[2] + suit_upper_tokens()[3]);
    assert(card_upper_tokens()[42] =~= rank_upper_tokens()[3] + suit_upper_tokens()[3]);
    assert(card_upper_tokens()[43] =~= rank_upper_tokens()[4] + suit_upper_tokens()[3]);
    assert(card_upper_tokens()[44] =~= rank_upper_tokens()[5] + suit_upper_tokens()[3]);
    assert(card_upper_tokens()[45] =~= rank_upper_tokens()[6] + suit_upper_tokens()[3]);
    assert(card_upper_tokens()[46] =~= rank_upper_tokens()[7] + suit_upper_tokens()[3]);
    assert(card_upper_tokens()[47] =~= rank_upper_tokens()[8] + suit_upper_tokens()[3]);
    assert(card_upper_tokens()[48] =~= rank_upper_tokens()[9] + suit_upper_tokens()[3]);
    assert(card_upper_tokens()[49] =~= rank_upper_tokens()[10] + suit_upper_tokens()[3]);
    assert(card_upper_tokens()[50] =~= rank_upper_tokens()[11] + suit_upper_tokens()[3]);
    assert(card_upper_tokens()[51] =~= rank_upper_tokens()[12] + suit_upper_tokens()[3]);
}

/// Each lower-case card token is the lower-case token of its rank followed
/// by the lower-case token of its suit.
pub proof fn lemma_lower_tokens_compose(card: Card)
    ensures
        card_lower_tokens()[card.spec_to_index() as int] == rank_lower_tokens()[card.rank.spec_to_index()
            as int] + suit_lower_tokens()[card.suit.spec_to_index() as int],
{
    reveal_strlit("10");
    reveal_strlit("10c");
    reveal_strlit("10d");
    reveal_strlit("10h");
    reveal_strlit("10s");
    reveal_strlit("2");
    reveal_strlit("2c");
    reveal_strlit("2d");
    reveal_strlit("2h");
    reveal_strlit("2s");
    reveal_strlit("3");
    reveal_strlit("3c");
    reveal_strlit("3d");
    reveal_strlit("3h");
    reveal_strlit("3s");
    reveal_strlit("4");
    reveal_strlit("4c");
    reveal_strlit("4d");
    reveal_strlit("4h");
    reveal_strlit("4s");
    reveal_strlit("5");
    reveal_strlit("5c");
    reveal_strlit("5d");
    reveal_strlit("5h");
    reveal_strlit("5s");
    reveal_strlit("6");
    reveal_strlit("6c");
    reveal_strlit("6d");
    reveal_strlit("6h");
    reveal_strlit("6s");
    reveal_strlit("7");
    reveal_strlit("7c");
    reveal_strlit("7d");
    reveal_strlit("7h");
    reveal_strlit("7s");
    reveal_strlit("8");
    reveal_strlit("8c");
    reveal_strlit("8d");
    reveal_strlit("8h");
    reveal_strlit("8s");
    reveal_strlit("9");
    reveal_strlit("9c");
    reveal_strlit("9d");
    reveal_strlit("9h");
    reveal_strlit("9s");
    reveal_strlit("a");
    reveal_strlit("ac");
    reveal_strlit("ad");
    reveal_strlit("ah");
    reveal_strlit("as");
    reveal_strlit("c");
    reveal_strlit("d");
    reveal_strlit("h");
    reveal_strlit("j");
    reveal_strlit("jc");
    reveal_strlit("jd");
    reveal_strlit("jh");
    reveal_strlit("js");
    reveal_strlit("k");
    reveal_strlit("kc");
    reveal_strlit("kd");
    reveal_strlit("kh");
    reveal_strlit("ks");
    reveal_strlit("q");
    reveal_strlit("qc");
    reveal_strlit("qd");
    reveal_strlit("qh");
    reveal_strlit("qs");
    reveal_strlit("s");
    assert(card_lower_tokens()[0] =~= rank_lower_tokens()[0] + suit_lower_tokens()[0]);
    assert(card_lower_tokens()[1] =~= rank_lower_tokens()[1] + suit_lower_tokens()[0]);
    assert(card_lower_tokens()[2] =~= rank_lower_tokens()[2] + suit_lower_tokens()[0]);
    assert(card_lower_tokens()[3] =~= rank_lower_tokens()[3] + suit_lower_tokens()[0]);
    assert(card_lower_tokens()[4] =~= rank_lower_tokens()[4] + suit_lower_tokens()[0]);
    assert(card_lower_tokens()[5] =~= rank_lower_tokens()[5] + suit_lower_tokens()[0]);
    assert(card_lower_tokens()[6] =~= rank_lower_tokens()[6] + suit_lower_tokens()[0]);
    assert(card_lower_tokens()[7] =~= rank_lower_tokens()[7] + suit_lower_tokens()[0]);
    assert(card_lower_tokens()[8] =~= rank_lower_tokens()[8] + suit_lower_tokens()[0]);
    assert(card_lower_tokens()[9] =~= rank_lower_tokens()[9] + suit_lower_tokens()[0]);
    assert(card_lower_tokens()[10] =~= rank_lower_tokens()[10] + suit_lower_tokens()[0]);
    assert(card_lower_tokens()[11] =~= rank_lower_tokens()[11] + suit_lower_tokens()[0]);
    assert(card_lower_tokens()[12] =~= rank_lower_tokens()[12] + suit_lower_tokens()[0]);
    assert(card_lower_tokens()[13] =~= rank_lower_tokens()[0] + suit_lower_tokens()[1]);
    assert(card_lower_tokens()[14] =~= rank_lower_tokens()[1] + suit_lower_tokens()[1]);
    assert(card_lower_tokens()[15] =~= rank_lower_tokens()[2] + suit_lower_tokens()[1]);
    assert(card_lower_tokens()[16] =~= rank_lower_tokens()[3] + suit_lower_tokens()[1]);
    assert(card_lower_tokens()[17] =~= rank_lower_tokens()[4] + suit_lower_tokens()[1]);
    assert(card_lower_tokens()[18] =~= rank_lower_tokens()[5] + suit_lower_tokens()[1]);
    assert(card_lower_tokens()[19] =~= rank_lower_tokens()[6] + suit_lower_tokens()[1]);
    assert(card_lower_tokens()[20] =~= rank_lower_tokens()[7] + suit_lower_tokens()[1]);
    assert(card_lower_tokens()[21] =~= rank_lower_tokens()[8] + suit_lower_tokens()[1]);
    assert(card_lower_tokens()[22] =~= rank_lower_tokens()[9] + suit_lower_tokens()[1]);
    assert(card_lower_tokens()[23] =~= rank_lower_tokens()[10] + suit_lower_tokens()[1]);
    assert(card_lower_tokens()[24] =~= rank_lower_tokens()[11] + suit_lower_tokens()[1]);
    assert(card_lower_tokens()[25] =~= rank_lower_tokens()[12] + suit_lower_tokens()[1]);
    assert(card_lower_tokens()[26] =~= rank_lower_tokens()[0] + suit_lower_tokens()[2]);
    assert(card_lower_tokens()[27] =~= rank_lower_tokens()[1] + suit_lower_tokens()[2]);
    assert(card_lower_tokens()[28] =~= rank_lower_tokens()[2] + suit_lower_tokens()[2]);
    assert(card_lower_tokens()[29] =~= rank_lower_tokens()[3] + suit_lower_tokens()[2]);
    assert(card_lower_tokens()[30] =~= rank_lower_tokens()[4] + suit_lower_tokens()[2]);
    assert(card_lower_tokens()[31] =~= rank_lower_tokens()[5] + suit_lower_tokens()[2]);
    assert(card_lower_tokens()[32] =~= rank_lower_tokens()[6] + suit_lower_tokens()[2]);
    assert(card_lower_tokens()[33] =~= rank_lower_tokens()[7] + suit_lower_tokens()[2]);
    assert(card_lower_tokens()[34] =~= rank_lower_tokens()[8] + suit_lower_tokens()[2]);
    assert(card_lower_tokens()[35] =~= rank_lower_tokens()[9] + suit_lower_tokens()[2]);
    assert(card_lower_tokens()[36] =~= rank_lower_tokens()[10] + suit_lower_tokens()[2]);
    assert(card_lower_tokens()[37] =~= rank_lower_tokens()[11] + suit_lower_tokens()[2]);
    assert(card_lower_tokens()[38] =~= rank_lower_tokens()[12] + suit_lower_tokens()[2]);
    assert(card_lower_tokens()[39] =~= rank_lower_tokens()[0] + suit_lower_tokens()[3]);
    assert(card_lower_tokens()[40] =~= rank_lower_tokens()[1] + suit_lower_tokens()[3]);
    assert(card_lower_tokens()[41] =~= rank_lower_tokens()[2] + suit_lower_tokens()[3]);
    assert(card_lower_tokens()[42] =~= rank_lower_tokens()[3] + suit_lower_tokens()[3]);
    assert(card_lower_tokens()[43] =~= rank_lower_tokens()[4] + suit_lower_tokens()[3]);
    assert(card_lower_tokens()[44] =~= rank_lower_tokens()[5] + suit_lower_tokens()[3]);
    assert(card_lower_tokens()[45] =~= rank_lower_tokens()[6] + suit_lower_tokens()[3]);
    assert(card_lower_tokens()[46] =~= rank_lower_tokens()[7] + suit_lower_tokens()[3]);
    assert(card_lower_tokens()[47] =~= rank_lower_tokens()[8] + suit_lower_tokens()[3]);
    assert(card_lower_tokens()[48] =~= rank_lower_tokens()[9] + suit_lower_tokens()[3]);
    assert(card_lower_tokens()[49] =~= rank_lower_tokens()[10] + suit_lower_tokens()[3]);
    assert(card_lower_tokens()[50] =~= rank_lower_tokens()[11] + suit_lower_tokens()[3]);
    assert(card_lower_tokens()[51] =~= rank_lower_tokens()[12] + suit_lower_tokens()[3]);
}

impl Card {
    /// The card of `rank` in `suit`.
    pub fn new(rank: Rank, suit: Suit) -> (r: Card)
        ensures
            r == (Card { rank, suit }),
    {
        Card { rank, suit }
    }

    /// All 52 cards, suit by suit (spades, hearts, diamonds, clubs) and, within
    /// a suit, rank by rank from ace to king: the card at position `i` is the
    /// card of index `i`.
    pub fn create_full_deck() -> (r: [Card; 52])
        ensures
            forall|i: int| 0 <= i < 52 ==> r@[i] == Card::spec_from_index(i as u8),
            forall|i: int| 0 <= i < 52 ==> (#[trigger] r@[i]).spec_to_index() == i,
    {
        let mut deck: [Card; 52] = [Card::default(); 52];
        let mut index: usize = 0;
        let mut suit: u8 = 0;
        while suit < 4
            invariant
                suit <= 4,
                index == suit * 13,
                forall|k: int| 0 <= k < index ==> deck@[k] == Card::spec_from_index(k as u8),
            decreases 4 - suit,
        {
            let mut rank: u8 = 0;
            while rank < 13
                invariant
                    suit < 4,
                    rank <= 13,
                    index == suit * 13 + rank,
                    forall|k: int| 0 <= k < index ==> deck@[k] == Card::spec_from_index(k as u8),
                decreases 13 - rank,
            {
                proof {
                    lemma_fundamental_div_mod_converse(index as int, 13, suit as int, rank as int);
                }
                deck[index] = Card::new(Rank::from_index(rank), Suit::from_index(suit));
                index += 1;
                rank += 1;
            }
            suit += 1;
        }
        proof {
            assert forall|i: int| 0 <= i < 52 implies (#[trigger] deck@[i]).spec_to_index() == i by {
                Card::lemma_to_from_index(i as u8);
            }
        }
        deck
    }

    /// A formatter with the upper-case card tokens: all spades, then hearts,
    /// diamonds and clubs, each from ace to king.
    pub fn new_upper_case_format() -> (r: IndexableFormat<'static, Card, 52>)
        ensures
            r.tokens() == card_upper_tokens(),
            tokens_distinct(r.tokens()),
    {
        let values: [&'static str; 52] = [
            "AS", "2S", "3S", "4S", "5S", "6S", "7S", "8S", "9S", "10S", "JS", "QS", "KS",
            "AH", "2H", "3H", "4H", "5H", "6H", "7H", "8H", "9H", "10H", "JH", "QH", "KH",
            "AD", "2D", "3D", "4D", "5D", "6D", "7D", "8D", "9D", "10D", "JD", "QD", "KD",
            "AC", "2C", "3C", "4C", "5C", "6C", "7C", "8C", "9C", "10C", "JC", "QC", "KC",
        ];
        proof {
            reveal_strlit("AS");
            reveal_strlit("2S");
            reveal_strlit("3S");
            reveal_strlit("4S");
            reveal_strlit("5S");
            reveal_strlit("6S");
            reveal_strlit("7S");
            reveal_strlit("8S");
            reveal_strlit("9S");
            reveal_strlit("10S");
            reveal_strlit("JS");
            reveal_strlit("QS");
            reveal_strlit("KS");
            reveal_strlit("AH");
            reveal_strlit("2H");
            reveal_strlit("3H");
            reveal_strlit("4H");
            reveal_strlit("5H");
            reveal_strlit("6H");
            reveal_strlit("7H");
            reveal_strlit("8H");
            reveal_strlit("9H");
            reveal_strlit("10H");
            reveal_strlit("JH");
            reveal_strlit("QH");
            reveal_strlit("KH");
            reveal_strlit("AD");
            reveal_strlit("2D");
            reveal_strlit("3D");
            reveal_strlit("4D");
            reveal_strlit("5D");
            reveal_strlit("6D");
            reveal_strlit("7D");
            reveal_strlit("8D");
            reveal_strlit("9D");
            reveal_strlit("10D");
            reveal_strlit("JD");
            reveal_strlit("QD");
            reveal_strlit("KD");
            reveal_strlit("AC");
            reveal_strlit("2C");
            reveal_strlit("3C");
            reveal_strlit("4C");
            reveal_strlit("5C");
            reveal_strlit("6C");
            reveal_strlit("7C");
            reveal_strlit("8C");
            reveal_strlit("9C");
            reveal_strlit("10C");
            reveal_strlit("JC");
            reveal_strlit("QC");
            reveal_strlit("KC");
            let tokens = values@.map_values(|s: &'static str| s@);
            assert(tokens =~= card_upper_tokens());
            lemma_distinct_by_decoding(tokens, |t: Seq<char>| card_of_token(t));
        }
        IndexableFormat::new(values)
    }

    /// A formatter with the lower-case card tokens: all spades, then hearts,
    /// diamonds and clubs, each from ace to king.
    pub fn new_lower_case_format() -> (r: IndexableFormat<'static, Card, 52>)
        ensures
            r.tokens() == card_lower_tokens(),
            tokens_distinct(r.tokens()),
    {
        let values: [&'static str; 52] = [
            "as", "2s", "3s", "4s", "5s", "6s", "7s", "8s", "9s", "10s", "js", "qs", "ks",
            "ah", "2h", "3h", "4h", "5h", "6h", "7h", "8h", "9h", "10h", "jh", "qh", "kh",
            "ad", "2d", "3d", "4d", "5d", "6d", "7d", "8d", "9d", "10d", "jd", "qd", "kd",
            "ac", "2c", "3c", "4c", "5c", "6c", "7c", "8c", "9c", "10c", "jc", "qc", "kc",
        ];
        proof {
            reveal_strlit("as");
            reveal_strlit("2s");
            reveal_strlit("3s");
            reveal_strlit("4s");
            reveal_strlit("5s");
            reveal_strlit("6s");
            reveal_strlit("7s");
            reveal_strlit("8s");
            reveal_strlit("9s");
            reveal_strlit("10s");
            reveal_strlit("js");
            reveal_strlit("qs");
            reveal_strlit("ks");
            reveal_strlit("ah");
            reveal_strlit("2h");
            reveal_strlit("3h");
            reveal_strlit("4h");
            reveal_strlit("5h");
            reveal_strlit("6h");
            reveal_strlit("7h");
            reveal_strlit("8h");
            reveal_strlit("9h");
            reveal_strlit("10h");
            reveal_strlit("jh");
            reveal_strlit("qh");
            reveal_strlit("kh");
            reveal_strlit("ad");
            reveal_strlit("2d");
            reveal_strlit("3d");
            reveal_strlit("4d");
            reveal_strlit("5d");
            reveal_strlit("6d");
            reveal_strlit("7d");
            reveal_strlit("8d");
            reveal_strlit("9d");
            reveal_strlit("10d");
            reveal_strlit("jd");
            reveal_strlit("qd");
            reveal_strlit("kd");
            reveal_strlit("ac");
            reveal_strlit("2c");
            reveal_strlit("3c");
            reveal_strlit("4c");
            reveal_strlit("5c");
            reveal_strlit("6c");
            reveal_strlit("7c");
            reveal_strlit("8c");
            reveal_strlit("9c");
            reveal_strlit("10c");
            reveal_strlit("jc");
            reveal_strlit("qc");
            reveal_strlit("kc");
            let tokens = values@.map_values(|s: &'static str| s@);
            assert(tokens =~= card_lower_tokens());
            lemma_distinct_by_decoding(tokens, |t: Seq<char>| card_of_token(t));
        }
        IndexableFormat::new(values)
    }

    /// The upper-case token of the card.
    pub fn to_string(&self) -> (r: String)
        ensures
            r@ == card_upper_tokens()[self.spec_to_index() as int],
    {
        let format = Card::new_upper_case_format();
        let token: &str = format.format(self);
        token.to_owned()
    }
}

impl Default for Card {
    /// The default card is the ace of spades.
    fn default() -> (r: Card)
        ensures
            r == (Card { rank: Rank::Ace, suit: Suit::Spades }),
    {
        Card { rank: Rank::Ace, suit: Suit::Spades }
    }
}

impl Indexable for Card {
    /// The rank is the index modulo 13 and the suit the index divided by 13;
    /// indices past `51` therefore give a card of spades.
    open spec fn spec_from_index(index: u8) -> Card {
        Card {
            rank: Rank::spec_from_index((index % 13) as u8),
            suit: Suit::spec_from_index((index / 13) as u8),
        }
    }

    open spec fn spec_to_index(&self) -> u8 {
        (self.suit.spec_to_index() * 13 + self.rank.spec_to_index()) as u8
    }

    open spec fn spec_maximum_index() -> u8 {
        51
    }

    fn from_index(index: u8) -> (r: Card) {
        Card::new(Rank::from_index(index % 13), Suit::from_index(index / 13))
    }

    fn to_index(&self) -> (r: u8) {
        proof {
            Rank::lemma_index_in_range(self.rank);
            Suit::lemma_index_in_range(self.suit);
        }
        self.suit.to_index() * 13 + self.rank.to_index()
    }

    fn maximum_index() -> (r: u8) {
        51
    }

    proof fn lemma_index_in_range(v: Card) {
        Rank::lemma_index_in_range(v.rank);
        Suit::lemma_index_in_range(v.suit);
    }

    proof fn lemma_from_to_index(v: Card) {
        let r = v.rank.spec_to_index();
        let s = v.suit.spec_to_index();
        Rank::lemma_index_in_range(v.rank);
        Suit::lemma_index_in_range(v.suit);
        lemma_fundamental_div_mod_converse(s * 13 + r, 13, s as int, r as int);
        Rank::lemma_from_to_index(v.rank);
        Suit::lemma_from_to_index(v.suit);
    }

    proof fn lemma_to_from_index(index: u8) {
        let r = index % 13;
        let s = index / 13;
        lemma_fundamental_div_mod(index as int, 13);
        Rank::lemma_to_from_index(r as u8);
        Suit::lemma_to_from_index(s as u8);
    }
}

} // verus!

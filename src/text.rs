use vstd::prelude::*;

use core::marker::PhantomData;

use crate::indexable::Indexable;

verus! {

/// The tokens of a symbol table are pairwise distinct.
pub open spec fn tokens_distinct(tokens: Seq<Seq<char>>) -> bool {
    forall|i: int, j: int|
        0 <= i < tokens.len() && 0 <= j < tokens.len() && i != j ==> #[trigger] tokens[i]
            != #[trigger] tokens[j]
}

/// Whether `text` is one of the tokens.
pub open spec fn has_token(tokens: Seq<Seq<char>>, text: Seq<char>) -> bool {
    exists|i: int| 0 <= i < tokens.len() && #[trigger] tokens[i] == text
}

/// The position of `text` among the tokens (meaningful where `has_token` holds).
pub open spec fn token_position(tokens: Seq<Seq<char>>, text: Seq<char>) -> int {
    choose|i: int| 0 <= i < tokens.len() && #[trigger] tokens[i] == text
}

/// Tokens are pairwise distinct when some function of a token recovers its
/// position.
pub proof fn lemma_distinct_by_decoding(tokens: Seq<Seq<char>>, decode: spec_fn(Seq<char>) -> int)
    requires
        forall|i: int| 0 <= i < tokens.len() ==> decode(#[trigger] tokens[i]) == i,
    ensures
        tokens_distinct(tokens),
{
}

/// A textual representation of the values of a domain `T`.
pub trait Format<T> {
    /// The token that denotes `value`.
    spec fn spec_format(&self, value: T) -> Seq<char>;

    /// What parsing `text` yields.
    spec fn spec_parse(&self, text: Seq<char>) -> Result<T, ()>;

    /// The token of `value`.
    fn format(&self, value: &T) -> (r: &str)
        ensures
            r@ == self.spec_format(*value),
    ;

    /// The value that `string` denotes, or `Err(())` where `string` is no
    /// token of this formatter: matching is exact, with no case folding.
    fn parse(&self, string: &str) -> (r: Result<T, ()>)
        ensures
            r == self.spec_parse(string@),
    ;
}

/// Compares two strings character by character.
fn same_text(a: &str, b: &str) -> (r: bool)
    ensures
        r == (a@ == b@),
{
    let n = a.unicode_len();
    if n != b.unicode_len() {
        return false;
    }
    let mut i: usize = 0;
    while i < n
        invariant
            n == a@.len(),
            n == b@.len(),
            i <= n,
            forall|k: int| 0 <= k < i ==> a@[k] == b@[k],
        decreases n - i,
    {
        if a.get_char(i) != b.get_char(i) {
            return false;
        }
        i += 1;
    }
    assert(a@ =~= b@);
    true
}

/// A formatter for the domain `T` over a fixed symbol table of `N` tokens:
/// the token at position `i` denotes the value whose index is `i`. The table
/// is immutable once built; parsing finds a token by scanning it.
pub struct IndexableFormat<'a, T: Indexable, const N: usize> {
    values: [&'a str; N],
    domain: PhantomData<T>,
}

impl<'a, T: Indexable, const N: usize> IndexableFormat<'a, T, N> {
    /// The tokens of the table, in index order.
    pub closed spec fn tokens(&self) -> Seq<Seq<char>> {
        self.values@.map_values(|s: &'a str| s@)
    }

    /// The table holds one token for each value of `T`, and its tokens are
    /// pairwise distinct.
    #[verifier::type_invariant]
    pub closed spec fn well_formed(&self) -> bool {
        &&& T::spec_maximum_index() + 1 == N
        &&& tokens_distinct(self.tokens())
    }

    /// Builds a formatter over `values`: there must be one token for each
    /// value of `T`, and the tokens must be pairwise distinct.
    pub fn new(values: [&'a str; N]) -> (r: IndexableFormat<'a, T, N>)
        requires
            T::spec_maximum_index() + 1 == N,
            tokens_distinct(values@.map_values(|s: &'a str| s@)),
        ensures
            r.tokens() == values@.map_values(|s: &'a str| s@),
            tokens_distinct(r.tokens()),
    {
        IndexableFormat { values, domain: PhantomData }
    }

    /// The position of the token equal to `string`, if there is one.
    fn lookup(&self, string: &str) -> (r: Option<u8>)
        ensures
            match r {
                Some(i) => has_token(self.tokens(), string@) && i as int == token_position(
                    self.tokens(),
                    string@,
                ),
                None => !has_token(self.tokens(), string@),
            },
    {
        proof {
            use_type_invariant(self);
        }
        let mut i: usize = 0;
        while i < N
            invariant
                i <= N,
                N <= 256,
                self.tokens().len() == N,
                tokens_distinct(self.tokens()),
                forall|k: int| 0 <= k < i ==> self.tokens()[k] != string@,
            decreases N - i,
        {
            if same_text(self.values[i], string) {
                assert(self.tokens()[i as int] == string@);
                return Some(i as u8);
            }
            i += 1;
        }
        None
    }
}

impl<'a, T: Indexable, const N: usize> Format<T> for IndexableFormat<'a, T, N> {
    open spec fn spec_format(&self, value: T) -> Seq<char> {
        self.tokens()[value.spec_to_index() as int]
    }

    open spec fn spec_parse(&self, text: Seq<char>) -> Result<T, ()> {
        if has_token(self.tokens(), text) {
            Ok(T::spec_from_index(token_position(self.tokens(), text) as u8))
        } else {
            Err(())
        }
    }

    fn format(&self, value: &T) -> (r: &str) {
        proof {
            use_type_invariant(self);
            T::lemma_index_in_range(*value);
        }
        let i = value.to_index() as usize;
        self.values[i]
    }

    fn parse(&self, string: &str) -> (r: Result<T, ()>) {
        match self.lookup(string) {
            Some(index) => Ok(T::from_index(index)),
            None => Err(()),
        }
    }
}

/// Round trip: parsing, with any formatter, the token that it gives a value
/// yields that value back.
pub proof fn lemma_round_trip<'a, T: Indexable, const N: usize>(
    format: IndexableFormat<'a, T, N>,
    value: T,
)
    requires
        format.well_formed(),
    ensures
        format.spec_parse(format.spec_format(value)) == Ok::<T, ()>(value),
{
    let i = value.spec_to_index();
    T::lemma_index_in_range(value);
    T::lemma_from_to_index(value);
    let tokens = format.tokens();
    assert(has_token(tokens, tokens[i as int]));
    assert(token_position(tokens, tokens[i as int]) == i as int);
}

} // verus!

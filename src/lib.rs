//! Playing cards (rank, suit, card) as closed domains with dense indices, and
//! formatters that map their values to and from text tokens.

pub mod card;
pub mod indexable;
pub mod rank;
pub mod suit;
pub mod text;

pub use card::Card;
pub use indexable::Indexable;
pub use rank::Rank;
pub use suit::Suit;
pub use text::{Format, IndexableFormat};

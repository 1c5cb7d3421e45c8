//! Passphrase generation from weak timing entropy and a word list.
//!
//! Three timestamps are written out as decimal text and concatenated into a
//! seed, the seed is hashed with Keccak-512, the hex digest seeds a PCG
//! generator, and the generator picks three words, a digit slot, a separator
//! and one word to upper-case.

mod decimal;
mod error;
mod outside;
mod passphrase;
mod pool;
mod seed;
mod session;

pub use decimal::{decimal_text, digits_text};
pub use error::GenError;
pub use pool::{split_lines, WordPool, RESERVED_PREFIX};
pub use passphrase::{assemble, compose, SEPARATORS};
pub use seed::{
    lemma_seed_sensitive, mix, seed, seed_digest, seed_text,
};
pub use passphrase::assembled_of;
pub use session::{lemma_same_passphrase, passphrase_for, Msg, PasswdGen, SessionView};

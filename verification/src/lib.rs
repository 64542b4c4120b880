//! Short, URL-safe, collision-resistant identifiers and a validator for their format.

pub mod alphabet;
pub mod clock;
pub mod counter;
pub mod cuid;
pub mod decimal;
pub mod entropy;
pub mod error;
pub mod hash;
pub mod text;
pub mod validate;

pub use counter::Counter;
pub use cuid::{
    assemble_cuid, fingerprint_from_entropy, generate, generate_cuid, generate_fingerprint,
    DEFAULT_LENGTH, MAX_LENGTH, MIN_LENGTH,
};
pub use entropy::{generate_entropy, generate_random_letter};
pub use error::CuidError;
pub use hash::compute_hash;
pub use validate::is_valid_cuid;

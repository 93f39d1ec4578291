//! The d20 session rules: roll sources, attack resolution, reactions,
//! activation budgets, character admission, and turn expiry.

pub mod error;
pub mod seed;
pub mod resolution;
pub mod runtime;
pub mod persistence;
pub mod restored;
pub mod landing;
pub mod requirements;

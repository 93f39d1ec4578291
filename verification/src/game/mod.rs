//! The Rusty D20 campaign: exploration, tactical movement, initiative,
//! encounter outcomes, camp, and save validation.

pub mod dto;
pub mod error;
pub mod exploration;
pub mod state;
pub mod tactical;
pub mod encounter;
pub mod content;
pub mod campaign;
pub mod support;
pub mod restore;
pub mod loadout;
pub mod text;
pub mod projection;
pub mod entry;
pub mod product;
pub mod opposition;
pub mod receipt;
pub mod activation;
pub mod catalog;
pub mod equipment;
pub mod routes;
pub mod legacy;

//! Consensus data for a manually sealed BABE chain: a synthetic slot clock,
//! epoch resolution and predigest assembly.

pub mod error;
pub mod inherents;
pub mod clock;
pub mod babe;
pub mod import;
pub mod provider;

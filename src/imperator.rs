//! Items of the game whose script this crate validates.
pub mod data;

//! Static semantic validation of game-script blocks: a scope lattice, catalogs
//! of triggers and effects, a scope-typed recursive validator, a field
//! validation framework, and a staged diagnostic builder.

pub mod block;
pub mod context;
pub mod db;
pub mod effect;
pub mod everything;
pub mod imperator;
pub mod item;
pub mod modif;
pub mod report;
pub mod scopes;
pub mod tables;
pub mod text;
pub mod token;
pub mod trigger;
pub mod validator;
pub mod values;

//! Relative addressing within a tree of nested consensus systems: locations, the schemes
//! that turn a location into a local account and back, and the inversion of a location
//! against the local system's ancestry.

pub mod account;
pub mod asset;
pub mod chain;
pub mod conversion;
pub mod error;
pub mod invert;
pub mod junction;
pub mod laws;
pub mod location;

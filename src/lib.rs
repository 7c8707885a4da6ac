//! Encoding of oracle proposals into portable instruction descriptors.
//!
//! The library derives program-scoped account addresses, attaches the 2-bit
//! permission code of each account, assembles the proposal instruction and
//! renders the response envelope as pretty-printed JSON text.
pub mod address;
pub mod builder;
pub mod instruction;
pub mod json;
pub mod role;

//! A verified movie-review storage program.
//!
//! The library decodes a binary instruction buffer into a typed command,
//! derives a deterministic storage address from the caller's key and the
//! review title, sizes the backing slot, and rewrites the stored record in
//! place.  The byte formats, the sizing rule and the update are verified;
//! the host runtime (account creation, rent, the entrypoint) stays outside.

pub mod codec;
pub mod error;
pub mod instruction;
pub mod pda;
pub mod processor;
pub mod state;

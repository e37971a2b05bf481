//! A one-time-initialization synchronization primitive.
//!
//! A [`Once`](once::Once) guarantees that a caller-supplied initialization
//! routine runs to completion exactly once, no matter how many threads race
//! to start it, and that every caller observing completion also observes the
//! routine's effects. The lifecycle is driven by a single status byte whose
//! four flags, and every transition among them, are modelled and proved in
//! [`status`] and [`machine`]; [`ext`] holds the assumed interface to the
//! outside spin helper and to the memory fence.

pub mod ext;
pub mod machine;
pub mod once;
pub mod status;

//! State layer of a social-networking ledger: profiles, posts (including
//! collaboration posts), comments, follow and like edges, and creator
//! donations, kept as fixed-shape records with referential-integrity
//! invariants.
//!
//! The heart of the crate is [`ledger::Ledger`], an in-process record store
//! with one atomic transition per caller operation. Each transition either
//! applies in full or returns one failure kind and leaves every record
//! untouched. The store's well-formedness invariant carries the global
//! guarantees: counters equal the number of records ever created, ids are
//! never reused, and no two records share a logical key.

pub mod addressing;
pub mod comments;
pub mod constants;
pub mod donations;
pub mod errors;
pub mod laws;
pub mod ledger;
pub mod posts;
pub mod profiles;
pub mod social;
pub mod states;
pub mod validation;

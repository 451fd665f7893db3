//! A three-stage decentralized identity pipeline.
//!
//! A `Verifier` turns an opaque cryptographic proof plus its public inputs
//! into a deterministic 32-byte commitment bound to the authenticated caller;
//! a `CredentialRegistry` issues a time-bounded, revocable credential keyed by
//! that commitment; a `ComplianceOracle` lets a single administrator flag or
//! annotate any proof hash independently of credential validity.
//!
//! The host ledger's collaborators (durable storage, the clock, the
//! caller-authentication primitive, and the append-only event log) are modeled
//! explicitly: each component carries its own state and event journal, every
//! operation takes its authenticated caller and, where needed, the current
//! time as plain arguments.

use vstd::prelude::*;

pub mod bytes;
pub mod commitment;
pub mod oracle;
pub mod principal;
pub mod registry;
pub mod store;
pub mod verification;

verus! {

/// Whether `after` is `before` with exactly one entry appended: how every
/// mutation extends a component's append-only audit log.
pub open spec fn appended<T>(before: Seq<T>, after: Seq<T>) -> bool {
    after.len() == before.len() + 1 && forall|i: int| 0 <= i < before.len() ==> after[i]
        == before[i]
}

} // verus!

//! The compliance oracle: a single-admin-gated overlay keyed by proof hash,
//! storing a sanction flag and an optional auditable explanation record.
//!
//! The admin is a singleton trust anchor, set exactly once and immutable
//! thereafter. The sanction flag defaults to `false` for a hash never
//! written: a consumer must not conflate "not sanctioned" with "checked and
//! cleared". Sanctions and explanations are independent of credential
//! validity; consumers cross-reference the two subsystems by proof hash.

use vstd::prelude::*;
use crate::appended;
use crate::bytes::copy_bytes;
use crate::principal::Principal;
use crate::store::ByteMap;

verus! {

/// Why an oracle operation was refused.
#[derive(Clone, Copy, Debug, PartialEq, Eq, Structural)]
pub enum ComplianceError {
    /// No admin has been configured yet.
    AdminNotSet,
    /// The caller is not the admin.
    Unauthorized,
    /// The admin was already set; the trust anchor is immutable.
    AdminAlreadySet,
}

/// An auditable explanation for a compliance decision: a content hash and an
/// optional URI pointing at the off-chain details.
pub struct Explanation {
    pub hash: Vec<u8>,
    pub uri: Option<Vec<u8>>,
}

/// The mathematical image of a stored explanation record.
pub ghost struct ExplanationView {
    pub hash: Seq<u8>,
    pub uri: Option<Seq<u8>>,
}

impl View for Explanation {
    type V = ExplanationView;

    open spec fn view(&self) -> ExplanationView {
        ExplanationView {
            hash: self.hash@,
            uri: match self.uri {
                Some(u) => Some(u@),
                None => None,
            },
        }
    }
}

/// An entry of the oracle's append-only audit log.
pub enum OracleEvent {
    AdminInitialized(Principal),
    SanctionSet(Vec<u8>, bool),
    ExplanationSet(Vec<u8>, Vec<u8>),
}

/// Whether `proof_hash` is sanctioned under the stored flags: `false` for a
/// hash never written.
pub open spec fn sanctioned(flags: Map<Seq<u8>, bool>, proof_hash: Seq<u8>) -> bool {
    flags.contains_key(proof_hash) && flags[proof_hash]
}

/// The admin gate every mutation passes: an admin must be configured, and the
/// caller must be that admin.
pub open spec fn admin_gate(admin: Option<Seq<u8>>, caller: Seq<u8>) -> Result<(), ComplianceError> {
    match admin {
        None => Err(ComplianceError::AdminNotSet),
        Some(a) => if caller != a {
            Err(ComplianceError::Unauthorized)
        } else {
            Ok(())
        },
    }
}

/// The result of `init`: it succeeds exactly when no admin is set yet.
pub open spec fn init_outcome(admin: Option<Seq<u8>>) -> Result<(), ComplianceError> {
    if admin is Some {
        Err(ComplianceError::AdminAlreadySet)
    } else {
        Ok(())
    }
}

/// The configured admin after `init`: unchanged once set.
pub open spec fn admin_after_init(admin: Option<Seq<u8>>, candidate: Seq<u8>) -> Option<Seq<u8>> {
    if admin is Some {
        admin
    } else {
        Some(candidate)
    }
}

/// Matches an `AdminInitialized` audit event with the given content.
pub open spec fn is_admin_event(e: OracleEvent, admin: Seq<u8>) -> bool {
    e matches OracleEvent::AdminInitialized(p) && p@ == admin
}

/// Matches a `SanctionSet` audit event with the given content.
pub open spec fn is_sanction_event(e: OracleEvent, proof_hash: Seq<u8>, flag: bool) -> bool {
    e matches OracleEvent::SanctionSet(h, b) && h@ == proof_hash && b == flag
}

/// Matches an `ExplanationSet` audit event with the given content.
pub open spec fn is_explanation_event(e: OracleEvent, proof_hash: Seq<u8>, hash: Seq<u8>) -> bool {
    e matches OracleEvent::ExplanationSet(h, x) && h@ == proof_hash && x@ == hash
}

/// The compliance oracle's state: the singleton admin, the sanction flags,
/// the explanation records, and the audit log.
pub struct ComplianceOracle {
    /// The trust anchor; `None` means uninitialized.
    pub admin: Option<Principal>,
    /// Sanction flags, keyed by proof hash.
    pub sanctions: ByteMap<bool>,
    /// Explanation records, keyed by proof hash.
    pub explanations: ByteMap<Explanation>,
    /// Append-only audit log, consumed by external indexers.
    pub events: Vec<OracleEvent>,
}

impl ComplianceOracle {
    /// The configured admin's identifier, if any.
    pub open spec fn spec_admin(&self) -> Option<Seq<u8>> {
        match self.admin {
            Some(p) => Some(p@),
            None => None,
        }
    }

    /// An oracle with no admin and no records, as deployed.
    pub fn new() -> (r: Self)
        ensures
            r.spec_admin() is None,
            r.sanctions@ == Map::<Seq<u8>, bool>::empty(),
            r.explanations@ == Map::<Seq<u8>, ExplanationView>::empty(),
            r.events@ == Seq::<OracleEvent>::empty(),
    {
        ComplianceOracle {
            admin: None,
            sanctions: ByteMap::new(),
            explanations: ByteMap::new(),
            events: Vec::new(),
        }
    }

    /// Sets the admin, once per deployment. A second call, by any caller
    /// including the original admin, is refused and changes nothing.
    ///
    /// The caller must be authenticated as `admin` before the call proceeds.
    pub fn init(&mut self, admin: Principal) -> (r: Result<(), ComplianceError>)
        ensures
            r == init_outcome(old(self).spec_admin()),
            final(self).spec_admin() == admin_after_init(old(self).spec_admin(), admin@),
            final(self).sanctions@ == old(self).sanctions@,
            final(self).explanations@ == old(self).explanations@,
            r is Ok ==> appended(old(self).events@, final(self).events@) && is_admin_event(
                final(self).events@.last(),
                admin@,
            ),
            r is Err ==> *final(self) == *old(self),
    {
        if self.admin.is_some() {
            return Err(ComplianceError::AdminAlreadySet);
        }
        let duplicate = admin.duplicate();
        self.admin = Some(admin);
        self.events.push(OracleEvent::AdminInitialized(duplicate));
        Ok(())
    }

    /// The configured admin, if any. Pure read, never fails.
    pub fn get_admin(&self) -> (r: Option<Principal>)
        ensures
            match r {
                Some(p) => self.spec_admin() == Some(p@),
                None => self.spec_admin() is None,
            },
    {
        match &self.admin {
            Some(p) => Some(p.duplicate()),
            None => None,
        }
    }

    /// Whether `proof_hash` is sanctioned. A hash never written is not
    /// sanctioned. Pure read, never fails.
    pub fn check_sanctions_list(&self, proof_hash: &Vec<u8>) -> (r: bool)
        ensures
            r == sanctioned(self.sanctions@, proof_hash@),
    {
        match self.sanctions.get(proof_hash) {
            Some(flag) => *flag,
            None => false,
        }
    }

    /// Writes the sanction flag for `proof_hash`. Only the admin may write,
    /// and only after `init`.
    ///
    /// The caller must be authenticated as `caller` before the call proceeds.
    pub fn set_sanction_status(
        &mut self,
        caller: &Principal,
        proof_hash: Vec<u8>,
        is_sanctioned: bool,
    ) -> (r: Result<(), ComplianceError>)
        ensures
            r == admin_gate(old(self).spec_admin(), caller@),
            final(self).spec_admin() == old(self).spec_admin(),
            final(self).explanations@ == old(self).explanations@,
            r is Ok ==> final(self).sanctions@ == old(self).sanctions@.insert(
                proof_hash@,
                is_sanctioned,
            ) && appended(old(self).events@, final(self).events@) && is_sanction_event(
                final(self).events@.last(),
                proof_hash@,
                is_sanctioned,
            ),
            r is Err ==> *final(self) == *old(self),
    {
        match &self.admin {
            None => Err(ComplianceError::AdminNotSet),
            Some(admin) => {
                if !caller.same_as(admin) {
                    return Err(ComplianceError::Unauthorized);
                }
                let event_hash = copy_bytes(&proof_hash);
                self.sanctions.set(proof_hash, is_sanctioned);
                self.events.push(OracleEvent::SanctionSet(event_hash, is_sanctioned));
                Ok(())
            },
        }
    }

    /// Writes, or overwrites, the explanation record for `proof_hash`. Only
    /// the admin may write, and only after `init`.
    ///
    /// The caller must be authenticated as `caller` before the call proceeds.
    pub fn set_explanation(
        &mut self,
        caller: &Principal,
        proof_hash: Vec<u8>,
        explanation_hash: Vec<u8>,
        uri: Option<Vec<u8>>,
    ) -> (r: Result<(), ComplianceError>)
        ensures
            r == admin_gate(old(self).spec_admin(), caller@),
            final(self).spec_admin() == old(self).spec_admin(),
            final(self).sanctions@ == old(self).sanctions@,
            r is Ok ==> final(self).explanations@ == old(self).explanations@.insert(
                proof_hash@,
                ExplanationView {
                    hash: explanation_hash@,
                    uri: match uri {
                        Some(u) => Some(u@),
                        None => None,
                    },
                },
            ) && appended(old(self).events@, final(self).events@) && is_explanation_event(
                final(self).events@.last(),
                proof_hash@,
                explanation_hash@,
            ),
            r is Err ==> *final(self) == *old(self),
    {
        match &self.admin {
            None => Err(ComplianceError::AdminNotSet),
            Some(admin) => {
                if !caller.same_as(admin) {
                    return Err(ComplianceError::Unauthorized);
                }
                let event_hash = copy_bytes(&proof_hash);
                let event_explanation_hash = copy_bytes(&explanation_hash);
                let record = Explanation { hash: explanation_hash, uri };
                self.explanations.set(proof_hash, record);
                self.events.push(
                    OracleEvent::ExplanationSet(event_hash, event_explanation_hash),
                );
                Ok(())
            },
        }
    }

    /// The stored explanation record for `proof_hash`, if any. Pure read,
    /// never fails.
    pub fn get_explanation(&self, proof_hash: &Vec<u8>) -> (r: Option<Explanation>)
        ensures
            match r {
                Some(e) => self.explanations@.contains_key(proof_hash@) && e@
                    == self.explanations@[proof_hash@],
                None => !self.explanations@.contains_key(proof_hash@),
            },
    {
        match self.explanations.get(proof_hash) {
            Some(e) => Some(
                Explanation {
                    hash: copy_bytes(&e.hash),
                    uri: match &e.uri {
                        Some(u) => Some(copy_bytes(u)),
                        None => None,
                    },
                },
            ),
            None => None,
        }
    }

    /// The deployed logic's version tag.
    pub fn version() -> (r: &'static str)
        ensures
            r@ == "v0_3_0"@,
    {
        "v0_3_0"
    }
}

/// Law: the sanction list fails open. A proof hash never written is not
/// sanctioned.
pub proof fn lemma_sanctions_fail_open(flags: Map<Seq<u8>, bool>, proof_hash: Seq<u8>)
    requires
        !flags.contains_key(proof_hash),
    ensures
        !sanctioned(flags, proof_hash),
{
}

/// Law: a written sanction flag is exactly what a later check reads, and
/// writing one hash leaves every other hash's answer unchanged.
pub proof fn lemma_sanction_write_read(
    flags: Map<Seq<u8>, bool>,
    proof_hash: Seq<u8>,
    flag: bool,
    other: Seq<u8>,
)
    requires
        other != proof_hash,
    ensures
        sanctioned(flags.insert(proof_hash, flag), proof_hash) == flag,
        sanctioned(flags.insert(proof_hash, flag), other) == sanctioned(flags, other),
{
}

/// Law: a caller who is not the configured admin is refused as
/// `Unauthorized` by every gated write.
pub proof fn lemma_non_admin_refused(admin: Seq<u8>, caller: Seq<u8>)
    requires
        caller != admin,
    ensures
        admin_gate(Some(admin), caller) == Err::<(), ComplianceError>(
            ComplianceError::Unauthorized,
        ),
{
}

/// Law: `init` succeeds exactly once. From the uninitialized state it
/// installs its candidate; once an admin is set, any further candidate, the
/// original admin included, is refused as `AdminAlreadySet` and the admin
/// stands unchanged.
pub proof fn lemma_init_exactly_once(first: Seq<u8>, second: Seq<u8>)
    ensures
        init_outcome(None) is Ok,
        admin_after_init(None, first) == Some(first),
        init_outcome(Some(first)) == Err::<(), ComplianceError>(ComplianceError::AdminAlreadySet),
        admin_after_init(Some(first), second) == Some(first),
{
}

} // verus!

//! The credential registry: issues time-bounded, revocable credentials keyed
//! by a verified proof hash, owned by a specific principal.
//!
//! A credential's only mutation after issuance is the one-way transition
//! `revoked: false -> true`; expiry is never stored, it is recomputed from the
//! injected clock at every read. Expired and revoked records remain queryable
//! for audit.
//!
//! The credential identifier is the proof hash itself, so identifiers are
//! predictable off-chain; the price, stated in the contracts below, is that
//! re-issuing under the same proof hash replaces the prior record.

use vstd::prelude::*;
use crate::appended;
use crate::bytes::copy_bytes;
use crate::principal::Principal;
use crate::store::ByteMap;

verus! {

/// Why a registry operation was refused.
#[derive(Clone, Copy, Debug, PartialEq, Eq, Structural)]
pub enum CredentialError {
    /// No credential record exists under the given identifier.
    NotFound,
    /// The credential was already revoked; revocation is one-shot.
    AlreadyRevoked,
    /// The credential's lifetime has already ended.
    Expired,
    /// The caller is not the credential's owner.
    Unauthorized,
}

/// A stored credential record.
pub struct Credential {
    /// Hash of the verified proof, and also the credential's identifier.
    pub proof_hash: Vec<u8>,
    /// The owning principal, fixed at issuance.
    pub owner: Principal,
    /// Unix timestamp at which validity ends.
    pub expires_at: u64,
    /// One-way revocation flag.
    pub revoked: bool,
}

/// The mathematical image of a stored credential record.
pub ghost struct CredentialView {
    pub proof_hash: Seq<u8>,
    pub owner: Seq<u8>,
    pub expires_at: u64,
    pub revoked: bool,
}

impl View for Credential {
    type V = CredentialView;

    open spec fn view(&self) -> CredentialView {
        CredentialView {
            proof_hash: self.proof_hash@,
            owner: self.owner@,
            expires_at: self.expires_at,
            revoked: self.revoked,
        }
    }
}

/// Audit event: a credential was issued.
pub struct CredentialIssued {
    pub owner: Principal,
    pub credential_id: Vec<u8>,
    pub expires_at: u64,
}

/// Audit event: a credential was revoked by its owner.
pub struct CredentialRevoked {
    pub owner: Principal,
    pub credential_id: Vec<u8>,
}

/// An entry of the registry's append-only audit log.
pub enum RegistryEvent {
    Issued(CredentialIssued),
    Revoked(CredentialRevoked),
}

/// The record freshly written by `issue_credential`.
pub open spec fn fresh_credential(owner: Seq<u8>, proof_hash: Seq<u8>, now: u64, ttl_seconds: u32) -> CredentialView {
    CredentialView {
        proof_hash: proof_hash,
        owner: owner,
        expires_at: (now + ttl_seconds) as u64,
        revoked: false,
    }
}

/// Whether the credential under `id` is valid at time `now`: a record exists,
/// it is not revoked, and its expiry lies strictly in the future. Validity is
/// derived, never stored.
pub open spec fn valid_at(creds: Map<Seq<u8>, CredentialView>, id: Seq<u8>, now: u64) -> bool {
    creds.contains_key(id) && !creds[id].revoked && creds[id].expires_at > now
}

/// The result of `revoke`: the first failing check decides, in the order
/// existence, ownership, prior revocation.
pub open spec fn revoke_outcome(
    creds: Map<Seq<u8>, CredentialView>,
    caller: Seq<u8>,
    id: Seq<u8>,
) -> Result<(), CredentialError> {
    if !creds.contains_key(id) {
        Err(CredentialError::NotFound)
    } else if creds[id].owner != caller {
        Err(CredentialError::Unauthorized)
    } else if creds[id].revoked {
        Err(CredentialError::AlreadyRevoked)
    } else {
        Ok(())
    }
}

/// The stored records after `revoke`: unchanged unless the revocation went
/// through, in which case only the revocation flag of the named record flips.
pub open spec fn creds_after_revoke(
    creds: Map<Seq<u8>, CredentialView>,
    caller: Seq<u8>,
    id: Seq<u8>,
) -> Map<Seq<u8>, CredentialView> {
    if revoke_outcome(creds, caller, id) is Ok {
        creds.insert(
            id,
            CredentialView {
                proof_hash: creds[id].proof_hash,
                owner: creds[id].owner,
                expires_at: creds[id].expires_at,
                revoked: true,
            },
        )
    } else {
        creds
    }
}

/// Matches an `Issued` audit event with the given content.
pub open spec fn is_issued_event(e: RegistryEvent, owner: Seq<u8>, id: Seq<u8>, expires_at: u64) -> bool {
    e matches RegistryEvent::Issued(ev) && ev.owner@ == owner && ev.credential_id@ == id
        && ev.expires_at == expires_at
}

/// Matches a `Revoked` audit event with the given content.
pub open spec fn is_revoked_event(e: RegistryEvent, owner: Seq<u8>, id: Seq<u8>) -> bool {
    e matches RegistryEvent::Revoked(ev) && ev.owner@ == owner && ev.credential_id@ == id
}

/// The credential registry's state: its stored records and its audit log.
pub struct CredentialRegistry {
    /// Credential records, keyed by credential identifier.
    pub creds: ByteMap<Credential>,
    /// Append-only audit log, consumed by external indexers.
    pub events: Vec<RegistryEvent>,
}

impl CredentialRegistry {
    /// A registry with no records, as deployed.
    pub fn new() -> (r: Self)
        ensures
            r.creds@ == Map::<Seq<u8>, CredentialView>::empty(),
            r.events@ == Seq::<RegistryEvent>::empty(),
    {
        CredentialRegistry { creds: ByteMap::new(), events: Vec::new() }
    }

    /// Issues a credential for `proof_hash` to `owner`, expiring `ttl_seconds`
    /// after `now`, and returns the credential identifier: the proof hash
    /// itself.
    ///
    /// The caller must be authenticated as `owner` before the call proceeds.
    /// Re-issuing under the same proof hash replaces the prior record
    /// wholesale, including clearing any prior revocation.
    pub fn issue_credential(
        &mut self,
        owner: Principal,
        proof_hash: Vec<u8>,
        ttl_seconds: u32,
        now: u64,
    ) -> (r: Vec<u8>)
        requires
            proof_hash@.len() == 32,
            now + ttl_seconds <= u64::MAX,
        ensures
            r@ == proof_hash@,
            final(self).creds@ == old(self).creds@.insert(
                proof_hash@,
                fresh_credential(owner@, proof_hash@, now, ttl_seconds),
            ),
            ttl_seconds > 0 ==> valid_at(final(self).creds@, proof_hash@, now),
            appended(old(self).events@, final(self).events@),
            is_issued_event(
                final(self).events@.last(),
                owner@,
                proof_hash@,
                (now + ttl_seconds) as u64,
            ),
    {
        let expires_at: u64 = now + ttl_seconds as u64;
        let id = copy_bytes(&proof_hash);
        let cred = Credential {
            proof_hash: copy_bytes(&proof_hash),
            owner: owner.duplicate(),
            expires_at,
            revoked: false,
        };
        self.creds.set(proof_hash, cred);
        self.events.push(
            RegistryEvent::Issued(
                CredentialIssued { owner, credential_id: copy_bytes(&id), expires_at },
            ),
        );
        id
    }

    /// Whether the credential under `credential_id` is valid at time `now`.
    /// Absence of a record means invalid; never fails.
    pub fn is_valid(&self, credential_id: &Vec<u8>, now: u64) -> (r: bool)
        ensures
            r == valid_at(self.creds@, credential_id@, now),
    {
        match self.creds.get(credential_id) {
            Some(cred) => !cred.revoked && cred.expires_at > now,
            None => false,
        }
    }

    /// The full stored record under `credential_id`, revoked or expired ones
    /// included, in support of audit.
    pub fn get_credential(&self, credential_id: &Vec<u8>) -> (r: Option<Credential>)
        ensures
            match r {
                Some(c) => self.creds@.contains_key(credential_id@) && c@ == self.creds@[credential_id@],
                None => !self.creds@.contains_key(credential_id@),
            },
    {
        match self.creds.get(credential_id) {
            Some(c) => Some(
                Credential {
                    proof_hash: copy_bytes(&c.proof_hash),
                    owner: c.owner.duplicate(),
                    expires_at: c.expires_at,
                    revoked: c.revoked,
                },
            ),
            None => None,
        }
    }

    /// Revokes the credential under `credential_id`. Only its owner may
    /// revoke, and only once: the transition is terminal.
    ///
    /// The caller must be authenticated as `caller` before the call proceeds.
    pub fn revoke(&mut self, caller: &Principal, credential_id: &Vec<u8>) -> (r: Result<
        (),
        CredentialError,
    >)
        ensures
            r == revoke_outcome(old(self).creds@, caller@, credential_id@),
            final(self).creds@ == creds_after_revoke(old(self).creds@, caller@, credential_id@),
            r is Ok ==> appended(old(self).events@, final(self).events@) && is_revoked_event(
                final(self).events@.last(),
                caller@,
                credential_id@,
            ),
            r is Err ==> final(self).events@ == old(self).events@,
    {
        let new_cred = match self.creds.get(credential_id) {
            Some(c) => {
                if !caller.same_as(&c.owner) {
                    return Err(CredentialError::Unauthorized);
                }
                if c.revoked {
                    return Err(CredentialError::AlreadyRevoked);
                }
                Credential {
                    proof_hash: copy_bytes(&c.proof_hash),
                    owner: c.owner.duplicate(),
                    expires_at: c.expires_at,
                    revoked: true,
                }
            },
            None => {
                return Err(CredentialError::NotFound);
            },
        };
        let event_owner = new_cred.owner.duplicate();
        self.creds.set(copy_bytes(credential_id), new_cred);
        self.events.push(
            RegistryEvent::Revoked(
                CredentialRevoked { owner: event_owner, credential_id: copy_bytes(credential_id) },
            ),
        );
        Ok(())
    }

    /// The deployed logic's version tag.
    pub fn version() -> (r: &'static str)
        ensures
            r@ == "v0_2_0"@,
    {
        "v0_2_0"
    }
}

/// Law: immediately after issuance with a positive lifetime, the credential is
/// valid and owned by its issuer.
pub proof fn lemma_issued_credential_valid(
    creds: Map<Seq<u8>, CredentialView>,
    owner: Seq<u8>,
    proof_hash: Seq<u8>,
    ttl_seconds: u32,
    now: u64,
)
    requires
        ttl_seconds > 0,
        now + ttl_seconds <= u64::MAX,
    ensures
        valid_at(creds.insert(proof_hash, fresh_credential(owner, proof_hash, now, ttl_seconds)), proof_hash, now),
        creds.insert(proof_hash, fresh_credential(owner, proof_hash, now, ttl_seconds))[proof_hash].owner == owner,
{
}

/// Law: once the clock reaches a credential's expiry, it is invalid, with no
/// mutation of the record required.
pub proof fn lemma_expired_credential_invalid(
    creds: Map<Seq<u8>, CredentialView>,
    id: Seq<u8>,
    now: u64,
)
    requires
        creds.contains_key(id),
        now >= creds[id].expires_at,
    ensures
        !valid_at(creds, id, now),
{
}

/// Law: revocation is terminal and idempotent-rejecting. After a successful
/// revocation, a second attempt by the same owner is refused as
/// `AlreadyRevoked`, changes nothing, and the credential stays invalid at
/// every time.
pub proof fn lemma_revocation_terminal(
    creds: Map<Seq<u8>, CredentialView>,
    caller: Seq<u8>,
    id: Seq<u8>,
    now: u64,
)
    requires
        revoke_outcome(creds, caller, id) is Ok,
    ensures
        revoke_outcome(creds_after_revoke(creds, caller, id), caller, id) == Err::<
            (),
            CredentialError,
        >(CredentialError::AlreadyRevoked),
        creds_after_revoke(creds_after_revoke(creds, caller, id), caller, id)
            == creds_after_revoke(creds, caller, id),
        !valid_at(creds_after_revoke(creds, caller, id), id, now),
{
}

/// Law: a revocation attempt by anyone but the owner is refused as
/// `Unauthorized` and leaves every record unchanged.
pub proof fn lemma_revoke_by_non_owner(
    creds: Map<Seq<u8>, CredentialView>,
    caller: Seq<u8>,
    id: Seq<u8>,
)
    requires
        creds.contains_key(id),
        creds[id].owner != caller,
    ensures
        revoke_outcome(creds, caller, id) == Err::<(), CredentialError>(
            CredentialError::Unauthorized,
        ),
        creds_after_revoke(creds, caller, id) == creds,
{
}

} // verus!

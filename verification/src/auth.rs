//! The authorization guard: which identity an instruction speaks for, and
//! per-identity replay protection through sequential nonces.
//!
//! The cryptographic check itself belongs to the host's verification
//! primitive; its verdict reaches the engine as a plain boolean. What the
//! engine owns is the nonce rule: a self-authorized instruction must carry
//! nonce 0 and consumes nothing, while a delegated instruction must carry
//! the identity's stored nonce, which one accepted instruction advances by
//! exactly one.

use std::collections::HashMap;
use vstd::prelude::*;

use crate::errors::Error;
use crate::stream::Identity;

verus! {

/// The authorization envelope of a signed instruction.
#[derive(Clone, Copy, Debug, PartialEq, Eq, Structural)]
pub enum Signature {
    /// Self-authorized: the resource owner invokes directly. The host
    /// resolves the invoking address and hands it over as the identity.
    Invoker(Identity),
    /// Delegated: an ed25519-signed credential naming the identity.
    Ed25519(Identity),
    /// Delegated: an account-signed credential naming the identity.
    Account(Identity),
}

impl Signature {
    /// The identity the instruction speaks for.
    pub open spec fn spec_identifier(self) -> Identity {
        match self {
            Signature::Invoker(id) => id,
            Signature::Ed25519(id) => id,
            Signature::Account(id) => id,
        }
    }

    /// Whether the instruction is self-authorized rather than delegated.
    pub open spec fn is_invoker(self) -> bool {
        match self {
            Signature::Invoker(_) => true,
            _ => false,
        }
    }

    /// The identity the instruction speaks for.
    pub fn identifier(&self) -> (r: Identity)
        ensures
            r == self.spec_identifier(),
    {
        match self {
            Signature::Invoker(id) => *id,
            Signature::Ed25519(id) => *id,
            Signature::Account(id) => *id,
        }
    }
}

/// The nonce stored for an identity: 0 until the identity's first accepted
/// delegated instruction, and afterwards the count of accepted ones.
pub open spec fn nonce_of(m: Map<Identity, u64>, id: Identity) -> u64 {
    if m.contains_key(id) {
        m[id]
    } else {
        0
    }
}

/// What one nonce check does to the store: the store afterwards and the
/// verdict. A self-authorized instruction must carry nonce 0 and consumes
/// nothing; a delegated one must carry the stored nonce, which acceptance
/// advances by one. A refused instruction leaves the store untouched.
pub open spec fn spec_consume_nonce(m: Map<Identity, u64>, sig: Signature, nonce: u64) -> (Map<
    Identity,
    u64,
>, Result<(), Error>) {
    if sig.is_invoker() {
        if nonce != 0 {
            (m, Err(Error::IncorrectNonceForInvoker))
        } else {
            (m, Ok(()))
        }
    } else {
        let id = sig.spec_identifier();
        if nonce != nonce_of(m, id) {
            (m, Err(Error::IncorrectNonce))
        } else {
            (m.insert(id, (nonce + 1) as u64), Ok(()))
        }
    }
}

/// The nonce an instruction must carry to be accepted: always 0 when
/// self-authorized, the stored nonce of the signing identity when
/// delegated.
pub open spec fn expected_nonce(m: Map<Identity, u64>, sig: Signature) -> u64 {
    if sig.is_invoker() {
        0
    } else {
        nonce_of(m, sig.spec_identifier())
    }
}

/// One accepted delegated instruction from `id`: the stored nonce advances
/// by exactly one and every other identity's nonce is untouched.
pub open spec fn delegated_advance(
    m1: Map<Identity, u64>,
    m2: Map<Identity, u64>,
    id: Identity,
) -> bool {
    &&& nonce_of(m1, id) < u64::MAX
    &&& m2 == m1.insert(id, (nonce_of(m1, id) + 1) as u64)
}

/// An accepted delegated instruction is exactly a [`delegated_advance`] of
/// the store, whichever delegated form the credential takes.
pub proof fn lemma_delegated_success_advances(m: Map<Identity, u64>, sig: Signature, nonce: u64)
    requires
        !sig.is_invoker(),
        nonce == nonce_of(m, sig.spec_identifier()),
        nonce < u64::MAX,
    ensures
        spec_consume_nonce(m, sig, nonce).1 == Ok::<(), Error>(()),
        delegated_advance(m, spec_consume_nonce(m, sig, nonce).0, sig.spec_identifier()),
{
}

/// A self-authorized instruction is accepted exactly when its nonce is 0,
/// and never changes the store, whatever went before.
pub proof fn lemma_invoker_requires_nonce_zero(m: Map<Identity, u64>, id: Identity, nonce: u64)
    ensures
        spec_consume_nonce(m, Signature::Invoker(id), nonce).0 == m,
        (spec_consume_nonce(m, Signature::Invoker(id), nonce).1 == Ok::<(), Error>(())) <==> nonce
            == 0,
{
}

/// After N accepted delegated instructions from an identity whose stored
/// nonce began at 0, the stored nonce equals N. `hist` is the trace of the
/// store, one entry per state, each step an accepted delegated instruction
/// from `id`.
pub proof fn lemma_nonce_counts_delegated_ops(hist: Seq<Map<Identity, u64>>, id: Identity)
    requires
        hist.len() >= 1,
        nonce_of(hist[0], id) == 0,
        forall|i: int| 0 <= i < hist.len() - 1 ==> delegated_advance(hist[i], #[trigger] hist[i + 1], id),
    ensures
        nonce_of(hist.last(), id) == hist.len() - 1,
    decreases hist.len(),
{
    if hist.len() > 1 {
        let prefix = hist.drop_last();
        assert forall|i: int| 0 <= i < prefix.len() - 1 implies delegated_advance(
            prefix[i],
            #[trigger] prefix[i + 1],
            id,
        ) by {
            assert(delegated_advance(hist[i], hist[i + 1], id));
        }
        lemma_nonce_counts_delegated_ops(prefix, id);
        let j = hist.len() - 2;
        assert(delegated_advance(hist[j], hist[j + 1], id));
        assert(prefix.last() == hist[j]);
        assert(hist.last() == hist[j + 1]);
    }
}

/// The nonce store: one counter per identity, absent meaning 0.
pub struct NonceTable {
    nonces: HashMap<Identity, u64>,
}

impl View for NonceTable {
    type V = Map<Identity, u64>;

    closed spec fn view(&self) -> Map<Identity, u64> {
        self.nonces@
    }
}

impl NonceTable {
    /// An empty store: every identity's nonce is 0.
    pub fn new() -> (r: NonceTable)
        ensures
            r@ == Map::<Identity, u64>::empty(),
    {
        NonceTable { nonces: HashMap::new() }
    }

    /// The stored nonce for an identity, 0 if the identity never consumed one.
    pub fn get_nonce(&self, id: Identity) -> (r: u64)
        ensures
            r == nonce_of(self@, id),
    {
        match self.nonces.get(&id) {
            Some(n) => *n,
            None => 0,
        }
    }

    fn set_nonce(&mut self, id: Identity, nonce: u64)
        ensures
            final(self)@ == old(self)@.insert(id, nonce),
    {
        self.nonces.insert(id, nonce);
    }

    /// The nonce rule of the authorization guard: checks the instruction's
    /// nonce and, for an accepted delegated instruction, consumes it.
    /// The bound on the stored nonce reflects that a counter advancing by
    /// one per accepted instruction cannot exhaust its machine word.
    pub fn verify_and_consume_nonce(&mut self, sig: &Signature, nonce: u64) -> (r: Result<
        (),
        Error,
    >)
        requires
            !sig.is_invoker() ==> nonce_of(old(self)@, sig.spec_identifier()) < u64::MAX,
        ensures
            (final(self)@, r) == spec_consume_nonce(old(self)@, *sig, nonce),
    {
        match sig {
            Signature::Invoker(_) => {
                if nonce != 0 {
                    Err(Error::IncorrectNonceForInvoker)
                } else {
                    Ok(())
                }
            },
            Signature::Ed25519(_) | Signature::Account(_) => {
                let id = sig.identifier();
                let stored = self.get_nonce(id);
                if nonce != stored {
                    Err(Error::IncorrectNonce)
                } else {
                    self.set_nonce(id, nonce + 1);
                    Ok(())
                }
            },
        }
    }
}

} // verus!

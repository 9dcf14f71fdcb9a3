//! The transaction context: an operation's logical result paired with the
//! non-empty, ordered list of signatures of the transaction that produced it.

use vstd::prelude::*;

use crate::types::Signature;

verus! {

/// A logical result together with the signatures of the transaction that
/// produced it. Every constructed context carries at least one signature:
/// a submitted transaction always bears at least the fee payer's.
pub struct TxCtx<T> {
    inner: T,
    signatures: Vec<Signature>,
}

impl<T> TxCtx<T> {
    #[verifier::type_invariant]
    spec fn non_empty(self) -> bool {
        self.signatures@.len() >= 1
    }

    /// The wrapped logical result, as seen by contracts.
    pub closed spec fn spec_inner(&self) -> T {
        self.inner
    }

    /// The signature list, as seen by contracts.
    pub closed spec fn spec_signatures(&self) -> Seq<Signature> {
        self.signatures@
    }

    /// Wraps a result with the signatures of its transaction. A transaction
    /// that was actually signed and submitted always carries at least one
    /// signature, so an empty list is a caller-side contract violation and
    /// is ruled out here.
    pub fn new(inner: T, signatures: Vec<Signature>) -> (r: TxCtx<T>)
        requires
            signatures@.len() >= 1,
        ensures
            r.spec_inner() == inner,
            r.spec_signatures() == signatures@,
    {
        TxCtx { inner, signatures }
    }

    /// Wraps a result with the signatures of its transaction, rejecting an
    /// empty signature list instead of faulting.
    pub fn try_new(inner: T, signatures: Vec<Signature>) -> (r: Option<TxCtx<T>>)
        ensures
            r is Some <==> signatures@.len() >= 1,
            r matches Some(c) ==> c.spec_inner() == inner && c.spec_signatures() == signatures@,
    {
        if signatures.is_empty() {
            None
        } else {
            Some(TxCtx { inner, signatures })
        }
    }

    /// Consumes the context, yielding the wrapped result.
    pub fn into_inner(self) -> (r: T)
        ensures
            r == self.spec_inner(),
    {
        let TxCtx { inner, signatures } = self;
        inner
    }

    /// The transaction's identifier: its first signature.
    pub fn transaction_id(&self) -> (r: &Signature)
        ensures
            self.spec_signatures().len() >= 1,
            *r == self.spec_signatures()[0],
    {
        proof {
            use_type_invariant(&*self);
        }
        &self.signatures[0]
    }

    /// Read access to the full ordered signature list; it is never empty.
    pub fn signatures(&self) -> (r: &Vec<Signature>)
        ensures
            r@ == self.spec_signatures(),
            r@.len() >= 1,
    {
        proof {
            use_type_invariant(&*self);
        }
        &self.signatures
    }
}

} // verus!

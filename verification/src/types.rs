//! Plain-value models of the node's core value types.
//!
//! An `Address` is a 32-byte public key; a `Signature` is a 64-byte
//! transaction signature. Both are held as raw bytes so that every
//! contract in the library can speak of their exact contents.

use vstd::prelude::*;

verus! {

/// Byte length of a public key.
pub const ADDRESS_LEN: usize = 32;

/// Byte length of a transaction signature.
pub const SIGNATURE_LEN: usize = 64;

/// A 32-byte public key, the address of an account or a program.
pub struct Address {
    bytes: Vec<u8>,
}

impl View for Address {
    type V = Seq<u8>;

    closed spec fn view(&self) -> Seq<u8> {
        self.bytes@
    }
}

impl Address {
    /// A well-formed address holds exactly 32 bytes.
    pub open spec fn wf(&self) -> bool {
        self@.len() == ADDRESS_LEN
    }

    /// Builds an address from raw bytes; rejects any length other than 32.
    pub fn new(bytes: Vec<u8>) -> (r: Option<Address>)
        ensures
            bytes@.len() == ADDRESS_LEN ==> (r matches Some(a) && a@ == bytes@),
            bytes@.len() != ADDRESS_LEN ==> r is None,
            r matches Some(a) ==> a.wf() && a@ == bytes@,
    {
        if bytes.len() == ADDRESS_LEN {
            Some(Address { bytes })
        } else {
            None
        }
    }

    /// Read access to the raw bytes.
    pub fn as_bytes(&self) -> (r: &Vec<u8>)
        ensures
            r@ == self@,
    {
        &self.bytes
    }

    /// An exact copy of the address.
    pub fn dup(&self) -> (r: Address)
        ensures
            r@ == self@,
    {
        Address { bytes: copy_bytes(&self.bytes) }
    }

    /// Byte-for-byte equality of two addresses.
    pub fn eq_address(&self, other: &Address) -> (r: bool)
        ensures
            r == (self@ == other@),
    {
        bytes_eq(&self.bytes, &other.bytes)
    }
}

/// A 64-byte transaction signature.
pub struct Signature {
    bytes: Vec<u8>,
}

impl View for Signature {
    type V = Seq<u8>;

    closed spec fn view(&self) -> Seq<u8> {
        self.bytes@
    }
}

impl Signature {
    /// A well-formed signature holds exactly 64 bytes.
    pub open spec fn wf(&self) -> bool {
        self@.len() == SIGNATURE_LEN
    }

    /// Builds a signature from raw bytes; rejects any length other than 64.
    pub fn new(bytes: Vec<u8>) -> (r: Option<Signature>)
        ensures
            bytes@.len() == SIGNATURE_LEN ==> (r matches Some(s) && s@ == bytes@),
            bytes@.len() != SIGNATURE_LEN ==> r is None,
            r matches Some(s) ==> s.wf() && s@ == bytes@,
    {
        if bytes.len() == SIGNATURE_LEN {
            Some(Signature { bytes })
        } else {
            None
        }
    }

    /// Read access to the raw bytes.
    pub fn as_bytes(&self) -> (r: &Vec<u8>)
        ensures
            r@ == self@,
    {
        &self.bytes
    }

    /// An exact copy of the signature.
    pub fn dup(&self) -> (r: Signature)
        ensures
            r@ == self@,
    {
        Signature { bytes: copy_bytes(&self.bytes) }
    }

    /// Byte-for-byte equality of two signatures.
    pub fn eq_signature(&self, other: &Signature) -> (r: bool)
        ensures
            r == (self@ == other@),
    {
        bytes_eq(&self.bytes, &other.bytes)
    }
}

/// Copies a byte vector.
pub fn copy_bytes(v: &Vec<u8>) -> (r: Vec<u8>)
    ensures
        r@ == v@,
{
    let mut out: Vec<u8> = Vec::new();
    let mut i: usize = 0;
    while i < v.len()
        invariant
            i <= v@.len(),
            out@ == v@.subrange(0, i as int),
        decreases v@.len() - i,
    {
        out.push(v[i]);
        i = i + 1;
        proof {
            assert(out@ =~= v@.subrange(0, i as int));
        }
    }
    proof {
        assert(out@ =~= v@);
    }
    out
}

/// Byte-for-byte equality of two byte vectors.
pub fn bytes_eq(a: &Vec<u8>, b: &Vec<u8>) -> (r: bool)
    ensures
        r == (a@ == b@),
{
    if a.len() != b.len() {
        proof {
            assert(a@ != b@);
        }
        return false;
    }
    let mut i: usize = 0;
    while i < a.len()
        invariant
            i <= a@.len(),
            a@.len() == b@.len(),
            forall|j: int| 0 <= j < i ==> a@[j] == b@[j],
        decreases a@.len() - i,
    {
        if a[i] != b[i] {
            return false;
        }
        i = i + 1;
    }
    proof {
        assert(a@ =~= b@);
    }
    true
}

} // verus!

use vstd::prelude::*;

use crate::protocol::copy_bytes;

verus! {

/// The components of an RSA public key: modulus and public exponent, each
/// as big-endian bytes.
#[derive(Debug)]
pub struct PubKeyComp {
    n: Vec<u8>,
    e: Vec<u8>,
}

/// The mathematical content of a public key.
pub struct PubKeyView {
    pub n: Seq<u8>,
    pub e: Seq<u8>,
}

impl View for PubKeyComp {
    type V = PubKeyView;

    closed spec fn view(&self) -> PubKeyView {
        PubKeyView { n: self.n@, e: self.e@ }
    }
}

impl PubKeyComp {
    pub fn new(n: Vec<u8>, e: Vec<u8>) -> (r: Self)
        ensures
            r@ == (PubKeyView { n: n@, e: e@ }),
    {
        PubKeyComp { n, e }
    }

    /// The modulus, big-endian.
    pub fn n(&self) -> (r: &[u8])
        ensures
            r@ == self@.n,
    {
        self.n.as_slice()
    }

    /// The public exponent, big-endian.
    pub fn e(&self) -> (r: &[u8])
        ensures
            r@ == self@.e,
    {
        self.e.as_slice()
    }
}

impl Clone for PubKeyComp {
    fn clone(&self) -> (r: Self)
        ensures
            r@ == self@,
    {
        PubKeyComp { n: copy_bytes(self.n.as_slice()), e: copy_bytes(self.e.as_slice()) }
    }
}

/// The components of an RSA private key: modulus, public and private
/// exponents, and the primes, each as big-endian bytes.
#[derive(Debug)]
pub struct PrivKeyComp {
    n: Vec<u8>,
    e: Vec<u8>,
    d: Vec<u8>,
    primes: Vec<Vec<u8>>,
}

impl PrivKeyComp {
    pub closed spec fn spec_n(&self) -> Seq<u8> {
        self.n@
    }

    pub closed spec fn spec_e(&self) -> Seq<u8> {
        self.e@
    }

    pub closed spec fn spec_d(&self) -> Seq<u8> {
        self.d@
    }

    pub closed spec fn spec_primes(&self) -> Seq<Seq<u8>> {
        self.primes@.map_values(|p: Vec<u8>| p@)
    }

    pub fn new(n: Vec<u8>, e: Vec<u8>, d: Vec<u8>, primes: Vec<Vec<u8>>) -> (r: Self)
        ensures
            r.spec_n() == n@,
            r.spec_e() == e@,
            r.spec_d() == d@,
            r.spec_primes() == primes@.map_values(|p: Vec<u8>| p@),
    {
        PrivKeyComp { n, e, d, primes }
    }

    pub fn n(&self) -> (r: &[u8])
        ensures
            r@ == self.spec_n(),
    {
        self.n.as_slice()
    }

    pub fn e(&self) -> (r: &[u8])
        ensures
            r@ == self.spec_e(),
    {
        self.e.as_slice()
    }

    pub fn d(&self) -> (r: &[u8])
        ensures
            r@ == self.spec_d(),
    {
        self.d.as_slice()
    }

    pub fn primes(&self) -> (r: &[Vec<u8>])
        ensures
            r@.map_values(|p: Vec<u8>| p@) == self.spec_primes(),
    {
        self.primes.as_slice()
    }

    /// The public half: the modulus and the public exponent.
    pub fn public_key(&self) -> (r: PubKeyComp)
        ensures
            r@ == (PubKeyView { n: self.spec_n(), e: self.spec_e() }),
    {
        PubKeyComp { n: copy_bytes(self.n.as_slice()), e: copy_bytes(self.e.as_slice()) }
    }
}

} // verus!

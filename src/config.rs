use vstd::prelude::*;

use rsa::PublicKeyParts;

use crate::error::NetworkError;
use crate::keys::PrivKeyComp;
use crate::netcore::{L3Addr, L4Addr};

verus! {

/// Size in bits of the RSA keys that new hosts get.
pub const KEY_BITS: usize = 2048;

/// Relies on `rsa::RSAPrivateKey::new`, drawing from the operating system's
/// generator, and on `BigUint::to_bytes_be` for the components. Nothing is
/// promised of a random key; a refused generation hands back its message.
#[verifier::external_body]
fn generate_key_components(bits: usize) -> Result<PrivKeyComp, String> {
    match rsa::RSAPrivateKey::new(&mut rand::rngs::OsRng, bits) {
        Ok(k) => Ok(PrivKeyComp::new(
            k.n().to_bytes_be(),
            k.e().to_bytes_be(),
            k.d().to_bytes_be(),
            k.primes().iter().map(|p| p.to_bytes_be()).collect(),
        )),
        Err(e) => Err(format!("{}", e)),
    }
}

/// What a host keeps between runs: its private key.
#[derive(Debug)]
pub struct ArtificeHostData {
    priv_key: PrivKeyComp,
}

impl ArtificeHostData {
    pub closed spec fn spec_priv_key(&self) -> PrivKeyComp {
        self.priv_key
    }

    pub fn new(priv_key: PrivKeyComp) -> (r: Self)
        ensures
            r.spec_priv_key() == priv_key,
    {
        ArtificeHostData { priv_key }
    }

    /// Host data with a freshly generated RSA key; a failed generation is
    /// an `RSAError`.
    pub fn generate() -> (r: Result<Self, NetworkError>)
        ensures
            r is Ok || r matches Err(NetworkError::RSAError(_)),
    {
        match generate_key_components(KEY_BITS) {
            Ok(priv_key) => Ok(ArtificeHostData { priv_key }),
            Err(msg) => Err(NetworkError::RSAError(msg)),
        }
    }

    /// The modulus, exponents and primes of the host's RSA key.
    pub fn privkeycomp(&self) -> (r: &PrivKeyComp)
        ensures
            *r == self.spec_priv_key(),
    {
        &self.priv_key
    }
}

/// A host's configuration: the address to bind, its key, and whether it
/// announces itself on the local network.
#[derive(Debug)]
pub struct ArtificeConfig {
    broadcast: bool,
    addr: L4Addr,
    host: ArtificeHostData,
}

impl ArtificeConfig {
    pub closed spec fn spec_broadcast(&self) -> bool {
        self.broadcast
    }

    pub closed spec fn spec_addr(&self) -> L4Addr {
        self.addr
    }

    pub closed spec fn spec_host(&self) -> ArtificeHostData {
        self.host
    }

    pub fn new(addr: L4Addr, host: ArtificeHostData, broadcast: bool) -> (r: Self)
        ensures
            r.spec_addr() == addr,
            r.spec_host() == host,
            r.spec_broadcast() == broadcast,
    {
        ArtificeConfig { broadcast, addr, host }
    }

    /// A configuration for a new host at `addr`: a fresh key, and no
    /// broadcasting.
    pub fn generate(addr: L4Addr) -> (r: Result<Self, NetworkError>)
        ensures
            r matches Ok(c) ==> c.spec_addr() == addr && !c.spec_broadcast(),
            r is Ok || r matches Err(NetworkError::RSAError(_)),
    {
        let host = ArtificeHostData::generate()?;
        Ok(ArtificeConfig { broadcast: false, addr, host })
    }

    pub fn host_data(&self) -> (r: &ArtificeHostData)
        ensures
            *r == self.spec_host(),
    {
        &self.host
    }

    pub fn broadcast(&self) -> (r: bool)
        ensures
            r == self.spec_broadcast(),
    {
        self.broadcast
    }

    pub fn port(&self) -> (r: u16)
        ensures
            r == self.spec_addr().port,
    {
        self.addr.port()
    }

    pub fn addr(&self) -> (r: L3Addr)
        ensures
            r == self.spec_addr().ip,
    {
        self.addr.ip()
    }

    pub fn socket_addr(&self) -> (r: L4Addr)
        ensures
            r == self.spec_addr(),
    {
        self.addr
    }

    pub fn set_socket_addr(&mut self, addr: L4Addr)
        ensures
            final(self).spec_addr() == addr,
            final(self).spec_broadcast() == old(self).spec_broadcast(),
            final(self).spec_host() == old(self).spec_host(),
    {
        self.addr = addr;
    }
}

} // verus!

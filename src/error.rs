use vstd::prelude::*;

verus! {

/// Every failure the transport reports. Failures that come from an outside
/// collaborator (a socket, a cipher, a serialiser) carry its message as text.
#[derive(Debug)]
pub enum NetworkError {
    IOError(String),
    RSAError(String),
    JsonError(String),
    UTF8(String),
    /// A protocol violation: a checksum, a challenge or an acknowledgement
    /// that does not match, or a peer that the trust policy refuses.
    ConnectionDenied(String),
    /// A header buffer of the wrong size.
    FromSlice(String),
    UnSet(String),
    ExecFailed(String),
    AsyncSendError(String),
    AsyncRecvError(String),
    SyncSendError(String),
    SyncRecvError(String),
    JoinError(String),
    DirError(String),
    NotAsync,
    NotSync,
    Empty,
    NetErr(String),
}

} // verus!

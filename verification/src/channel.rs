//! The control channel as the library sees it: which paths can name a
//! local datagram endpoint, and what one attempt to receive can bring.
//!
//! The sockets themselves belong to the program around the library; it
//! reports each attempt here as a [`Received`].

use vstd::prelude::*;
use vstd::string::StringSliceAdditionalSpecFns;

verus! {

/// Size of the path field of a local socket address; a path must be
/// shorter.
pub const SOCKET_PATH_CAPACITY: usize = 108;

/// `std::io::Error`, carried from the sockets to whoever reports it;
/// nothing is said of what is in it.
#[verifier::external_type_specification]
#[verifier::external_body]
pub struct ExIoError(std::io::Error);

/// What one non-blocking attempt to receive brought.
#[derive(Debug)]
pub enum Received {
    /// A datagram, as the bytes that arrived.
    Datagram(Vec<u8>),
    /// Nothing is pending.
    WouldBlock,
    /// The attempt failed for another reason.
    Failed,
}

/// A path can name a local socket when it fits the address and holds no
/// zero byte.
pub open spec fn addressable(path: Seq<u8>) -> bool {
    &&& path.len() < SOCKET_PATH_CAPACITY
    &&& forall|i: int| 0 <= i < path.len() ==> path[i] != 0
}

/// Whether `path` can name a local socket.
pub fn is_addressable(path: &str) -> (ok: bool)
    ensures
        ok == addressable(path.spec_bytes()),
{
    let bytes = path.as_bytes();
    if bytes.len() >= SOCKET_PATH_CAPACITY {
        return false;
    }
    let mut i: usize = 0;
    while i < bytes.len()
        invariant
            i <= bytes.len(),
            bytes@ == path.spec_bytes(),
            bytes.len() < SOCKET_PATH_CAPACITY,
            forall|k: int| 0 <= k < i ==> bytes[k] != 0,
        decreases bytes.len() - i,
    {
        if bytes[i] == 0 {
            return false;
        }
        i += 1;
    }
    true
}

/// `std::io::Error::from` on `ErrorKind::InvalidInput`: the error with
/// which std refuses a path before it reaches the system.
#[verifier::external_body]
pub(crate) fn invalid_input() -> std::io::Error {
    std::io::Error::from(std::io::ErrorKind::InvalidInput)
}

} // verus!

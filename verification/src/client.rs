//! The client's side of the control channel: it takes the daemon's path
//! and turns each request into the datagram to send there. The request is
//! sent once and no reply is awaited.

use vstd::prelude::*;
use vstd::string::StringSliceAdditionalSpecFns;
use vstd::std_specs::convert::FromSpecImpl;
use crate::channel::{addressable, invalid_input, is_addressable};
use crate::protocol::{encoding, Message};

verus! {

/// Why a client could not be set up.
#[derive(Debug)]
pub enum Error {
    /// The endpoint could not be reached.
    Io(std::io::Error),
}

impl From<std::io::Error> for Error {
    fn from(e: std::io::Error) -> (r: Error) {
        Error::Io(e)
    }
}

impl FromSpecImpl<std::io::Error> for Error {
    open spec fn obeys_from_spec() -> bool {
        true
    }

    open spec fn from_spec(e: std::io::Error) -> Error {
        Error::Io(e)
    }
}

/// A client of the daemon whose control endpoint is at a given path.
#[derive(Debug)]
pub struct Client {
    path: String,
}

impl Client {
    /// The path of the daemon's endpoint.
    pub closed spec fn endpoint(&self) -> Seq<char> {
        self.path@
    }

    /// Takes `path` as the daemon's endpoint, or fails where no local
    /// socket can have that path.
    pub fn connect(path: &str) -> (r: Result<Client, Error>)
        ensures
            r is Ok <==> addressable(path.spec_bytes()),
            r matches Ok(client) ==> client.endpoint() == path@,
    {
        if is_addressable(path) {
            Ok(Client { path: path.to_owned() })
        } else {
            Err(Error::from(invalid_input()))
        }
    }

    /// The path of the daemon's endpoint.
    pub fn path(&self) -> (p: &str)
        ensures
            p@ == self.endpoint(),
    {
        self.path.as_str()
    }

    /// The datagram that asks the daemon to rebuild its curve with the
    /// exponent `gamma`, given as the bit pattern of a 64-bit IEEE-754
    /// number.
    pub fn set_gamma(&self, gamma: u64) -> (datagram: Vec<u8>)
        ensures
            datagram@ == encoding(Message::SetGamma(gamma)),
    {
        Message::SetGamma(gamma).encode()
    }
}

} // verus!

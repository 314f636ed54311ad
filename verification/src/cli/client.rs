//! The client's connection settings.
use vstd::prelude::*;
use crate::text::copy_str;

verus! {

/// A client of the daemon at one address.
pub struct TcpClient {
    address: String,
}

impl View for TcpClient {
    type V = Seq<char>;

    /// The daemon's address.
    closed spec fn view(&self) -> Seq<char> {
        self.address@
    }
}

impl TcpClient {
    /// A client for the daemon at `address` (`host:port`).
    pub fn new(address: &str) -> (c: Self)
        ensures
            c@ == address@,
    {
        TcpClient { address: copy_str(address) }
    }

    /// The daemon's address.
    pub fn address(&self) -> (a: &str)
        ensures
            a@ == self@,
    {
        self.address.as_str()
    }
}

} // verus!

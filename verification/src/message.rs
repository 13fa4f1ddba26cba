//! The values that cross the RPC boundary: where the service lives, what is
//! sent, and what comes back.

use vstd::prelude::*;
use vstd::string::StringExecFns;

verus! {

/// The endpoint that is used when nothing else is configured.
pub open spec fn default_endpoint() -> Seq<char> {
    "http://localhost:50051"@
}

/// Scheme and authority of the remote endpoint.
///
/// The text is taken as given: whether it names a reachable service is
/// only found out by connecting.
#[derive(Debug, PartialEq, Eq)]
pub struct ServiceAddress {
    text: String,
}

impl View for ServiceAddress {
    type V = Seq<char>;

    closed spec fn view(&self) -> Seq<char> {
        self.text@
    }
}

impl ServiceAddress {
    /// The address written as `text`.
    pub fn new(text: &str) -> (address: ServiceAddress)
        ensures
            address@ == text@,
    {
        ServiceAddress { text: String::from_str(text) }
    }

    /// The address `http://localhost:50051`.
    pub fn local() -> (address: ServiceAddress)
        ensures
            address@ == default_endpoint(),
    {
        ServiceAddress { text: String::from_str("http://localhost:50051") }
    }

    /// The address as text.
    pub fn as_str(&self) -> (text: &str)
        ensures
            text@ == self@,
    {
        self.text.as_str()
    }
}

/// The request of the single remote method: one text field.
#[derive(Debug, PartialEq, Eq)]
pub struct PingRequest {
    ping: String,
}

impl View for PingRequest {
    type V = Seq<char>;

    closed spec fn view(&self) -> Seq<char> {
        self.ping@
    }
}

impl PingRequest {
    /// A request that carries `ping`; any text is allowed, the empty one too.
    pub fn new(ping: &str) -> (request: PingRequest)
        ensures
            request@ == ping@,
    {
        PingRequest { ping: String::from_str(ping) }
    }

    /// The text of the `ping` field.
    pub fn ping(&self) -> (text: &str)
        ensures
            text@ == self@,
    {
        self.ping.as_str()
    }
}

/// The reply of the remote method: one text field.
///
/// A value of this type stands for a reply that was received and decoded.
/// What the service puts into `pong` is up to the service.
#[derive(Debug, PartialEq, Eq)]
pub struct PongResponse {
    pong: String,
}

impl View for PongResponse {
    type V = Seq<char>;

    closed spec fn view(&self) -> Seq<char> {
        self.pong@
    }
}

impl PongResponse {
    /// The reply whose decoded `pong` field is `pong`.
    pub(crate) fn decoded(pong: String) -> (response: PongResponse)
        ensures
            response@ == pong@,
    {
        PongResponse { pong }
    }

    /// The text of the `pong` field.
    pub fn pong(&self) -> (text: &str)
        ensures
            text@ == self@,
    {
        self.pong.as_str()
    }
}

} // verus!

//! The configuration of a DoIP client.
use vstd::prelude::*;
use iso13400_2::LogicAddress;

verus! {

/// Where the client connects to, and the logical address it uses.
#[derive(Clone, Debug)]
pub struct Configuration {
    pub(crate) server_ip: String,
    pub(crate) address: LogicAddress,
}

impl Configuration {
    /// The gateway's IP address, as text.
    pub closed spec fn server_ip_view(&self) -> Seq<char> {
        self.server_ip@
    }

    /// The client's logical address.
    pub closed spec fn address_view(&self) -> LogicAddress {
        self.address
    }

    /// A configuration for the gateway at `server_ip`, whose DoIP endpoint
    /// (`server_ip`, a colon and the TCP port 13400) parses as a socket
    /// address exactly when `endpoint_parses`. The configuration exists
    /// exactly then, and holds both arguments.
    pub fn new(server_ip: &str, address: LogicAddress, endpoint_parses: bool) -> (cfg: Option<Self>)
        ensures
            cfg is Some <==> endpoint_parses,
            cfg matches Some(c) ==> c.server_ip_view() == server_ip@ && c.address_view() == address,
    {
        if endpoint_parses {
            Some(Configuration { server_ip: server_ip.to_owned(), address })
        } else {
            None
        }
    }

    /// The gateway's IP address.
    pub fn server_ip(&self) -> (ip: &String)
        ensures
            ip@ == self.server_ip_view(),
    {
        &self.server_ip
    }

    /// The client's logical address.
    pub fn address(&self) -> (address: LogicAddress)
        ensures
            address == self.address_view(),
    {
        self.address
    }
}

} // verus!

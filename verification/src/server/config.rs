//! The configuration of a DoIP gateway.
use vstd::prelude::*;
use iso13400_2::{Eid, Gid, LogicAddress};
use crate::iso::length_of_vin;

verus! {

/// What a gateway announces of itself, and where it listens.
#[derive(Clone, Debug)]
pub struct Configuration {
    pub(crate) ip_address: String,
    pub(crate) vin: String,
    pub(crate) address: LogicAddress,
    pub(crate) eid: Eid,
    pub(crate) gid: Gid,
}

/// The length in bytes of a vehicle identification number.
pub open spec fn vin_length() -> nat {
    17
}

impl Configuration {
    /// The IP address the gateway listens on, as text.
    pub closed spec fn ip_address_view(&self) -> Seq<char> {
        self.ip_address@
    }

    /// The vehicle identification number, as text.
    pub closed spec fn vin_view(&self) -> Seq<char> {
        self.vin@
    }

    /// The gateway's logical address.
    pub closed spec fn address_view(&self) -> LogicAddress {
        self.address
    }

    /// The entity identifier.
    pub closed spec fn eid_view(&self) -> Eid {
        self.eid
    }

    /// The group identifier.
    pub closed spec fn gid_view(&self) -> Gid {
        self.gid
    }

    /// A gateway configuration. It exists exactly when the VIN has 17 bytes
    /// and the DoIP endpoint (`ip`, a colon and the TCP port 13400) parses as
    /// a socket address, which `endpoint_parses` tells; it holds every
    /// argument as given.
    pub fn new(
        ip: &str,
        vin: &str,
        address: LogicAddress,
        eid: Eid,
        gid: Gid,
        endpoint_parses: bool,
    ) -> (cfg: Option<Self>)
        ensures
            cfg is Some <==> (vin.len() == vin_length() && endpoint_parses),
            cfg matches Some(c) ==> {
                &&& c.ip_address_view() == ip@
                &&& c.vin_view() == vin@
                &&& c.address_view() == address
                &&& c.eid_view() == eid
                &&& c.gid_view() == gid
            },
    {
        if vin.len() != length_of_vin() {
            return None;
        }
        if !endpoint_parses {
            return None;
        }
        Some(Configuration { ip_address: ip.to_owned(), vin: vin.to_owned(), address, eid, gid })
    }

    /// The IP address the gateway listens on.
    pub fn ip_address(&self) -> (ip: &String)
        ensures
            ip@ == self.ip_address_view(),
    {
        &self.ip_address
    }

    /// The vehicle identification number.
    pub fn vin(&self) -> (vin: &String)
        ensures
            vin@ == self.vin_view(),
    {
        &self.vin
    }

    /// The gateway's logical address.
    pub fn address(&self) -> (address: LogicAddress)
        ensures
            address == self.address_view(),
    {
        self.address
    }

    /// The entity identifier.
    pub fn eid(&self) -> (eid: Eid)
        ensures
            eid == self.eid_view(),
    {
        self.eid
    }

    /// The group identifier.
    pub fn gid(&self) -> (gid: Gid)
        ensures
            gid == self.gid_view(),
    {
        self.gid
    }
}

} // verus!

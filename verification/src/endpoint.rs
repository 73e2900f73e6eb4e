//! The methods and properties that the protocol uses, by their place on the
//! bus.

use vstd::prelude::*;
use crate::bus::NotificationBus;
use crate::names::{
    GET_CAPABILITIES, GET_SERVER_INFORMATION, NOTIFICATION_DEFAULT_BUS, NOTIFICATION_INTERFACE,
    NOTIFICATION_OBJECTPATH, NOTIFICATION_PORTAL_BUS, NOTIFICATION_PORTAL_INTERFACE,
    NOTIFICATION_PORTAL_OBJECTPATH, PORTAL_VERSION,
};

verus! {

/// A member of an interface of an object at a service: the place of a
/// method or a property on the bus.
#[derive(Debug, PartialEq, Eq)]
pub struct Endpoint {
    pub bus: NotificationBus,
    pub path: &'static str,
    pub interface: &'static str,
    pub member: &'static str,
}

impl Endpoint {
    /// This is `member` of the legacy interface at `bus`.
    pub open spec fn is_legacy(&self, bus: Seq<char>, member: Seq<char>) -> bool {
        &&& self.bus@ == bus
        &&& self.path@ == NOTIFICATION_OBJECTPATH@
        &&& self.interface@ == NOTIFICATION_INTERFACE@
        &&& self.member@ == member
    }

    /// This is `member` of the portal's notification interface at `bus`.
    pub open spec fn is_portal(&self, bus: Seq<char>, member: Seq<char>) -> bool {
        &&& self.bus@ == bus
        &&& self.path@ == NOTIFICATION_PORTAL_OBJECTPATH@
        &&& self.interface@ == NOTIFICATION_PORTAL_INTERFACE@
        &&& self.member@ == member
    }

    /// `member` of the legacy interface at `bus`.
    pub fn legacy(bus: NotificationBus, member: &'static str) -> (endpoint: Self)
        ensures
            endpoint.is_legacy(bus@, member@),
    {
        Endpoint { bus, path: NOTIFICATION_OBJECTPATH, interface: NOTIFICATION_INTERFACE, member }
    }

    /// `member` of the portal's notification interface at `bus`.
    pub fn portal(bus: NotificationBus, member: &'static str) -> (endpoint: Self)
        ensures
            endpoint.is_portal(bus@, member@),
    {
        Endpoint {
            bus,
            path: NOTIFICATION_PORTAL_OBJECTPATH,
            interface: NOTIFICATION_PORTAL_INTERFACE,
            member,
        }
    }
}

/// The method that tells what the service at `bus` can do. It takes no
/// arguments and answers with a list of strings.
pub fn get_capabilities_at_bus(bus: NotificationBus) -> (method: Endpoint)
    ensures
        method.is_legacy(bus@, GET_CAPABILITIES@),
{
    Endpoint::legacy(bus, GET_CAPABILITIES)
}

/// The method that tells what the legacy service can do.
pub fn get_capabilities() -> (method: Endpoint)
    ensures
        method.is_legacy(NOTIFICATION_DEFAULT_BUS@, GET_CAPABILITIES@),
{
    get_capabilities_at_bus(NotificationBus::default())
}

/// The method that describes the service at `bus`. It takes no arguments and
/// answers with name, vendor, version and the version of the specification.
pub fn get_server_information_at_bus(bus: NotificationBus) -> (method: Endpoint)
    ensures
        method.is_legacy(bus@, GET_SERVER_INFORMATION@),
{
    Endpoint::legacy(bus, GET_SERVER_INFORMATION)
}

/// The method that describes the legacy service.
pub fn get_server_information() -> (method: Endpoint)
    ensures
        method.is_legacy(NOTIFICATION_DEFAULT_BUS@, GET_SERVER_INFORMATION@),
{
    get_server_information_at_bus(NotificationBus::default())
}

/// The property to read to learn whether the portal is there: the version of
/// the portal's notification interface, a `u32`.
pub fn portal_version() -> (property: Endpoint)
    ensures
        property.is_portal(NOTIFICATION_PORTAL_BUS@, PORTAL_VERSION@),
{
    Endpoint::portal(NotificationBus::portal(), PORTAL_VERSION)
}

} // verus!

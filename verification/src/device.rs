//! Devices of the kernel's driver model, held by the address of their
//! `struct device`, and the data a driver keeps for a device.

use vstd::prelude::*;

verus! {

/// A reference to a C `struct device`, held by its address.
#[derive(Clone, Copy, Debug, PartialEq, Eq, Structural)]
pub struct Device {
    raw: usize,
}

impl Device {
    /// The address of the `struct device`.
    pub closed spec fn raw_spec(&self) -> usize {
        self.raw
    }

    /// Wraps the address of a live `struct device`.
    pub fn from_raw(ptr: usize) -> (d: Device)
        ensures
            d.raw_spec() == ptr,
    {
        Device { raw: ptr }
    }

    /// The address of the `struct device`.
    pub fn as_raw(&self) -> (r: usize)
        ensures
            r == self.raw_spec(),
    {
        self.raw
    }
}

/// Device data in three parts: registrations, destroyed when the device is
/// removed; I/O resources, available until the device is removed; general
/// data, kept as long as the data lives.
pub struct Data<T, U, V> {
    registrations: Option<T>,
    resources: Option<U>,
    general: V,
}

impl<T, U, V> Data<T, U, V> {
    /// The registrations, unless revoked.
    pub closed spec fn registrations_spec(&self) -> Option<T> {
        self.registrations
    }

    /// The resources, unless revoked.
    pub closed spec fn resources_spec(&self) -> Option<U> {
        self.resources
    }

    /// The general data.
    pub closed spec fn general_spec(&self) -> V {
        self.general
    }

    /// Device data with all three parts available.
    pub fn new(registrations: T, resources: U, general: V) -> (d: Self)
        ensures
            d.registrations_spec() == Some(registrations),
            d.resources_spec() == Some(resources),
            d.general_spec() == general,
    {
        Data { registrations: Some(registrations), resources: Some(resources), general }
    }

    /// The resources, if they are still available.
    pub fn resources(&self) -> (r: Option<&U>)
        ensures
            match r {
                Some(u) => self.resources_spec() == Some(*u),
                None => self.resources_spec() is None,
            },
    {
        match &self.resources {
            Some(u) => Some(u),
            None => None,
        }
    }

    /// The general data.
    pub fn general(&self) -> (r: &V)
        ensures
            *r == self.general_spec(),
    {
        &self.general
    }

    /// Removes the device: the registrations are revoked first, then the
    /// resources; the general data stays.
    pub fn device_remove(&mut self)
        ensures
            final(self).registrations_spec() is None,
            final(self).resources_spec() is None,
            final(self).general_spec() == old(self).general_spec(),
    {
        self.registrations = None;
        self.resources = None;
    }
}

} // verus!

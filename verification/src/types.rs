//! Plain value types shared by the whole driver.

use vstd::prelude::*;

verus! {

/// Direction of an endpoint, seen from the host.
#[derive(Clone, Copy, Debug, PartialEq, Eq, Structural)]
pub enum EndpointDirection {
    /// Host to device.
    Out,
    /// Device to host.
    In,
}

/// Transfer type of an endpoint.
#[derive(Clone, Copy, Debug, PartialEq, Eq, Structural)]
pub enum EndpointType {
    Control,
    Isochronous,
    Bulk,
    Interrupt,
}

/// Logical value of one of the two status fields of an endpoint register.
#[derive(Clone, Copy, Debug, PartialEq, Eq, Structural)]
pub enum EndpointStatus {
    Disabled,
    Stall,
    Nak,
    Valid,
}

/// Conditions the driver reports to its caller.
#[derive(Clone, Copy, Debug, PartialEq, Eq, Structural)]
pub enum UsbError {
    /// Packet memory is exhausted, or a buffer size cannot be expressed.
    SizeOverflow,
    /// No slot can serve the request.
    EndpointOverflow,
    /// The address does not name an endpoint usable for the operation.
    InvalidEndpoint,
    /// The capability was never configured.
    Unsupported,
}

/// What happened on the bus since the last poll.
#[derive(Clone, Copy, Debug, PartialEq, Eq, Structural)]
pub enum PollResult {
    /// Nothing to report.
    Idle,
    Reset,
    Data { ep_out: u16, ep_in_complete: u16, ep_setup: u16 },
    Suspend,
    Resume,
}

/// A slot index together with a direction.
#[derive(Clone, Copy, Debug, PartialEq, Eq, Structural)]
pub struct EndpointAddress {
    pub index: usize,
    pub direction: EndpointDirection,
}

impl EndpointAddress {
    pub fn from_parts(index: usize, direction: EndpointDirection) -> (a: EndpointAddress)
        ensures
            a.index == index,
            a.direction == direction,
    {
        EndpointAddress { index, direction }
    }

    pub fn index(&self) -> (i: usize)
        ensures
            i == self.index,
    {
        self.index
    }

    pub fn direction(&self) -> (d: EndpointDirection)
        ensures
            d == self.direction,
    {
        self.direction
    }

    pub fn is_in(&self) -> (b: bool)
        ensures
            b == (self.direction == EndpointDirection::In),
    {
        self.direction == EndpointDirection::In
    }

    pub fn is_out(&self) -> (b: bool)
        ensures
            b == (self.direction == EndpointDirection::Out),
    {
        self.direction == EndpointDirection::Out
    }
}

} // verus!

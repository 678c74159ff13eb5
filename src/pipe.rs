//! The fixed set of endpoint pipes and what the driver reports about them.
use vstd::prelude::*;

use crate::error::D3xxError;

verus! {

/// Bit of an endpoint address that marks a device-to-host (read) pipe.
pub const DIRECTION_IN_BIT: u8 = 0x80;

/// An endpoint pipe of a D3XX device, by its endpoint address.
///
/// Variants are declared in the order of their addresses.
#[derive(Debug, Clone, Copy, PartialEq, Eq, Structural, PartialOrd, Ord)]
pub enum Pipe {
    /// Output pipe 0 (0x02).
    Out0,
    /// Output pipe 1 (0x03).
    Out1,
    /// Output pipe 2 (0x04).
    Out2,
    /// Output pipe 3 (0x05).
    Out3,
    /// Input pipe 0 (0x82).
    In0,
    /// Input pipe 1 (0x83).
    In1,
    /// Input pipe 2 (0x84).
    In2,
    /// Input pipe 3 (0x85).
    In3,
}

/// Whether an endpoint address names a device-to-host endpoint.
pub open spec fn is_in_address(id: u8) -> bool {
    id & DIRECTION_IN_BIT != 0
}

/// The direction bit of an address is set exactly for addresses from 0x80 up.
pub proof fn lemma_in_address(id: u8)
    ensures
        is_in_address(id) <==> id >= 0x80,
{
    assert(id & 0x80u8 != 0u8 <==> id >= 0x80u8) by (bit_vector);
}

impl Pipe {
    /// The endpoint address of the pipe.
    pub open spec fn spec_id(self) -> u8 {
        match self {
            Pipe::Out0 => 0x02,
            Pipe::Out1 => 0x03,
            Pipe::Out2 => 0x04,
            Pipe::Out3 => 0x05,
            Pipe::In0 => 0x82,
            Pipe::In1 => 0x83,
            Pipe::In2 => 0x84,
            Pipe::In3 => 0x85,
        }
    }

    /// The endpoint address of the pipe.
    pub fn id(&self) -> (r: u8)
        ensures
            r == self.spec_id(),
    {
        match self {
            Pipe::Out0 => 0x02,
            Pipe::Out1 => 0x03,
            Pipe::Out2 => 0x04,
            Pipe::Out3 => 0x05,
            Pipe::In0 => 0x82,
            Pipe::In1 => 0x83,
            Pipe::In2 => 0x84,
            Pipe::In3 => 0x85,
        }
    }

    /// The pipe whose endpoint address is `id`, if there is one.
    pub fn from_id(id: u8) -> (r: Option<Pipe>)
        ensures
            r == Pipe::spec_from_id(id),
            r matches Some(p) ==> p.spec_id() == id,
            r is None <==> forall|p: Pipe| p.spec_id() != id,
    {
        let r = match id {
            0x02 => Some(Pipe::Out0),
            0x03 => Some(Pipe::Out1),
            0x04 => Some(Pipe::Out2),
            0x05 => Some(Pipe::Out3),
            0x82 => Some(Pipe::In0),
            0x83 => Some(Pipe::In1),
            0x84 => Some(Pipe::In2),
            0x85 => Some(Pipe::In3),
            _ => {
                assert forall|p: Pipe| p.spec_id() != id by {
                    match p {
                        Pipe::Out0 => {},
                        Pipe::Out1 => {},
                        Pipe::Out2 => {},
                        Pipe::Out3 => {},
                        Pipe::In0 => {},
                        Pipe::In1 => {},
                        Pipe::In2 => {},
                        Pipe::In3 => {},
                    }
                }
                None
            },
        };
        proof {
            if let Some(p) = r {
                assert(p.spec_id() == id);
            }
        }
        r
    }

    /// Whether data flows from the device to the host on this pipe: its
    /// address is one of the upper half, where the direction bit is set.
    pub open spec fn spec_is_read(self) -> bool {
        self.spec_id() >= 0x80
    }

    /// The pipe whose endpoint address is `id`, if there is one.
    pub open spec fn spec_from_id(id: u8) -> Option<Pipe> {
        if id == 0x02 {
            Some(Pipe::Out0)
        } else if id == 0x03 {
            Some(Pipe::Out1)
        } else if id == 0x04 {
            Some(Pipe::Out2)
        } else if id == 0x05 {
            Some(Pipe::Out3)
        } else if id == 0x82 {
            Some(Pipe::In0)
        } else if id == 0x83 {
            Some(Pipe::In1)
        } else if id == 0x84 {
            Some(Pipe::In2)
        } else if id == 0x85 {
            Some(Pipe::In3)
        } else {
            None
        }
    }

    /// Checks if the pipe is a read pipe: its address has the direction bit set.
    pub fn is_read_pipe(&self) -> (r: bool)
        ensures
            r == self.spec_is_read(),
            r == is_in_address(self.spec_id()),
    {
        proof {
            lemma_in_address(self.spec_id());
        }
        match self {
            Pipe::In0 | Pipe::In1 | Pipe::In2 | Pipe::In3 => true,
            Pipe::Out0 | Pipe::Out1 | Pipe::Out2 | Pipe::Out3 => false,
        }
    }

    /// Checks if the pipe is a write pipe: its address has the direction bit clear.
    pub fn is_write_pipe(&self) -> (r: bool)
        ensures
            r == !self.spec_is_read(),
            r == !is_in_address(self.spec_id()),
    {
        proof {
            lemma_in_address(self.spec_id());
        }
        match self {
            Pipe::In0 | Pipe::In1 | Pipe::In2 | Pipe::In3 => false,
            Pipe::Out0 | Pipe::Out1 | Pipe::Out2 | Pipe::Out3 => true,
        }
    }
}

/// Every pipe is a read pipe or a write pipe and never both, as the direction
/// bit of its address says; the four read pipes are `In0` to `In3`.
pub proof fn lemma_pipe_direction(p: Pipe)
    ensures
        p.spec_is_read() <==> is_in_address(p.spec_id()),
        p.spec_is_read() <==> (p == Pipe::In0 || p == Pipe::In1 || p == Pipe::In2 || p == Pipe::In3),
{
    lemma_in_address(p.spec_id());
}

/// The transfer type of a USB pipe.
#[derive(Debug, Clone, Copy, PartialEq, Eq, Structural, PartialOrd, Ord)]
pub enum PipeType {
    /// USB control pipe
    Control,
    /// USB isochronous pipe
    Isochronous,
    /// USB bulk pipe
    Bulk,
    /// USB interrupt pipe
    Interrupt,
}

impl PipeType {
    /// The code the driver uses for the pipe type.
    pub open spec fn spec_code(self) -> int {
        match self {
            PipeType::Control => 0,
            PipeType::Isochronous => 1,
            PipeType::Bulk => 2,
            PipeType::Interrupt => 3,
        }
    }

    /// The pipe type whose driver code is `code`, if there is one.
    pub fn from_code(code: i32) -> (r: Option<PipeType>)
        ensures
            r matches Some(t) ==> t.spec_code() == code,
            r is None <==> !(0 <= code <= 3),
    {
        match code {
            0 => Some(PipeType::Control),
            1 => Some(PipeType::Isochronous),
            2 => Some(PipeType::Bulk),
            3 => Some(PipeType::Interrupt),
            _ => None,
        }
    }
}

/// Stores information about a pipe.
#[derive(Debug, Clone, Copy, PartialEq, Eq, Structural)]
pub struct PipeInfo {
    pipe_type: PipeType,
    pipe: Pipe,
    max_packet_size: u16,
    interval: u8,
}

impl PipeInfo {
    pub closed spec fn spec_type(self) -> PipeType {
        self.pipe_type
    }

    pub closed spec fn spec_pipe(self) -> Pipe {
        self.pipe
    }

    pub closed spec fn spec_max_packet_size(self) -> u16 {
        self.max_packet_size
    }

    pub closed spec fn spec_interval(self) -> u8 {
        self.interval
    }

    /// Builds the record from the fields of the driver's pipe information.
    /// A pipe type or pipe address that the driver should not report is a
    /// decode failure (`OtherError`).
    pub fn from_native(pipe_type: i32, pipe_id: u8, max_packet_size: u16, interval: u8) -> (r:
        Result<PipeInfo, D3xxError>)
        ensures
            r is Ok <==> (0 <= pipe_type <= 3 && exists|p: Pipe| p.spec_id() == pipe_id),
            r matches Err(e) ==> e == D3xxError::OtherError,
            r matches Ok(info) ==> info.spec_type().spec_code() == pipe_type
                && info.spec_pipe().spec_id() == pipe_id
                && info.spec_max_packet_size() == max_packet_size
                && info.spec_interval() == interval,
    {
        let t = match PipeType::from_code(pipe_type) {
            Some(t) => t,
            None => {
                return Err(D3xxError::OtherError);
            },
        };
        match Pipe::from_id(pipe_id) {
            Some(pipe) => Ok(PipeInfo { pipe_type: t, pipe, max_packet_size, interval }),
            None => Err(D3xxError::OtherError),
        }
    }

    /// Get the type of pipe.
    pub fn type_(&self) -> (r: PipeType)
        ensures
            r == self.spec_type(),
    {
        self.pipe_type
    }

    /// Get the pipe.
    pub fn pipe(&self) -> (r: Pipe)
        ensures
            r == self.spec_pipe(),
    {
        self.pipe
    }

    /// Get the maximum transfer size for this pipe.
    pub fn maximum_packet_size(&self) -> (r: usize)
        ensures
            r == self.spec_max_packet_size(),
    {
        self.max_packet_size as usize
    }

    /// Get the polling interval. Used for interrupt pipes only.
    pub fn interval(&self) -> (r: u8)
        ensures
            r == self.spec_interval(),
    {
        self.interval
    }
}

} // verus!

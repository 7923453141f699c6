//! Decisions of one Iroh peer transport: when a dial is needed, refused or
//! spoiled by a route change, when a write may go out and when a failed
//! stream forces the next delivery through a reconnect, and the framing of
//! payloads on the stream (a big-endian `u32` length, then the bytes).
//! The QUIC connection and its streams belong to the caller.
use vstd::prelude::*;
use crate::memory_transport::PeerTransportError;

verus! {

/// What the transport holds of its connection.
#[derive(Clone, Copy, Debug, PartialEq, Eq, Structural)]
pub struct IrohLink {
    /// A dial completed and has not been undone.
    pub connected: bool,
    /// A connection and its send stream are held.
    pub has_stream: bool,
}

/// The link after its stream was given up: nothing is held.
pub open spec fn dropped() -> IrohLink {
    IrohLink { connected: false, has_stream: false }
}

impl IrohLink {
    /// A transport that has not dialled yet.
    pub fn new() -> (r: Self)
        ensures
            r == dropped(),
    {
        IrohLink { connected: false, has_stream: false }
    }

    fn error(message: &str) -> (r: PeerTransportError)
        ensures
            r.0@ == message@,
    {
        PeerTransportError(message.to_owned())
    }

    /// Before a dial: `Ok(false)` when a live connection is already held;
    /// an error while the local route is stale; otherwise everything held
    /// is dropped and `Ok(true)` asks for a dial, unless the remote address
    /// is missing.
    pub fn begin_connect(&mut self, stream_alive: bool, route_stale: bool, has_remote: bool) -> (r: Result<
        bool,
        PeerTransportError,
    >)
        ensures
            old(self).connected && stream_alive ==> r == Ok::<bool, PeerTransportError>(false)
                && *final(self) == *old(self),
            !(old(self).connected && stream_alive) && route_stale ==> *final(self) == *old(self)
                && (r matches Err(e) && e.0@ == "Iroh local route is stale; waiting for provider migration"@),
            !(old(self).connected && stream_alive) && !route_stale ==> {
                &&& *final(self) == dropped()
                &&& has_remote ==> r == Ok::<bool, PeerTransportError>(true)
                &&& !has_remote ==> (r matches Err(e) && e.0@ == "Iroh remote address is missing"@)
            },
    {
        if self.connected && stream_alive {
            return Ok(false);
        }
        if route_stale {
            return Err(IrohLink::error("Iroh local route is stale; waiting for provider migration"));
        }
        self.connected = false;
        self.has_stream = false;
        if !has_remote {
            return Err(IrohLink::error("Iroh remote address is missing"));
        }
        Ok(true)
    }

    /// After the dial and the stream opened: a route that went stale
    /// meanwhile spoils the dial (the new connection is to be closed);
    /// otherwise the link holds the new stream.
    pub fn finish_connect(&mut self, route_stale: bool) -> (r: Result<(), PeerTransportError>)
        ensures
            route_stale ==> *final(self) == *old(self) && (r matches Err(e) && e.0@
                == "Iroh local route changed during dial"@),
            !route_stale ==> r is Ok && final(self).connected && final(self).has_stream,
    {
        if route_stale {
            return Err(IrohLink::error("Iroh local route changed during dial"));
        }
        self.has_stream = true;
        self.connected = true;
        Ok(())
    }

    /// Before writing frames of the given lengths: `Ok(false)` when there is
    /// nothing to write, `Ok(true)` to write. An oversized frame, a missing
    /// stream or a dead stream refuse; a dead stream also drops what is held.
    pub fn check_send(&mut self, lengths: &[usize], max_frame: usize, stream_alive: bool) -> (r: Result<
        bool,
        PeerTransportError,
    >)
        ensures
            lengths@.len() == 0 ==> r == Ok::<bool, PeerTransportError>(false) && *final(self) == *old(self),
            lengths@.len() > 0 && (exists|i: int| 0 <= i < lengths@.len() && #[trigger] lengths@[i] > max_frame)
                ==> *final(self) == *old(self) && (r matches Err(e) && e.0@ == "Iroh payload exceeds peer limit"@),
            lengths@.len() > 0 && (forall|i: int| 0 <= i < lengths@.len() ==> #[trigger] lengths@[i] <= max_frame)
                ==> {
                &&& !old(self).has_stream ==> *final(self) == *old(self) && (r matches Err(e) && e.0@
                    == "Iroh transport is not connected"@)
                &&& old(self).has_stream && !stream_alive ==> *final(self) == dropped() && (r matches Err(e)
                    && e.0@ == "Iroh peer stream is no longer alive"@)
                &&& old(self).has_stream && stream_alive ==> r == Ok::<bool, PeerTransportError>(true)
                    && *final(self) == *old(self)
            },
    {
        if lengths.len() == 0 {
            return Ok(false);
        }
        let mut i: usize = 0;
        while i < lengths.len()
            invariant
                i <= lengths@.len(),
                forall|k: int| 0 <= k < i ==> #[trigger] lengths@[k] <= max_frame,
            decreases lengths@.len() - i,
        {
            if lengths[i] > max_frame {
                return Err(IrohLink::error("Iroh payload exceeds peer limit"));
            }
            i = i + 1;
        }
        if !self.has_stream {
            return Err(IrohLink::error("Iroh transport is not connected"));
        }
        if !stream_alive {
            self.connected = false;
            self.has_stream = false;
            return Err(IrohLink::error("Iroh peer stream is no longer alive"));
        }
        Ok(true)
    }

    /// A write failed or timed out: the stream is no longer usable, and the
    /// next delivery goes through a reconnect.
    pub fn write_failed(&mut self)
        ensures
            *final(self) == dropped(),
    {
        self.connected = false;
        self.has_stream = false;
    }

    /// Closing: nothing is held afterwards.
    pub fn close(&mut self)
        ensures
            *final(self) == dropped(),
    {
        self.connected = false;
        self.has_stream = false;
    }
}

/// The value of four bytes read as a big-endian `u32`.
pub open spec fn be_value(b: [u8; 4]) -> int {
    b[0] as int * 16777216 + b[1] as int * 65536 + b[2] as int * 256 + b[3] as int
}

/// The length prefix of a frame: `len` as four big-endian bytes.
pub fn frame_header(len: u32) -> (r: [u8; 4])
    ensures
        be_value(r) == len as int,
{
    let b0 = (len / 16777216) as u8;
    let b1 = ((len / 65536) % 256) as u8;
    let b2 = ((len / 256) % 256) as u8;
    let b3 = (len % 256) as u8;
    let r: [u8; 4] = [b0, b1, b2, b3];
    assert(be_value(r) == len as int) by (nonlinear_arith)
        requires
            r[0] == len / 16777216,
            r[1] == (len / 65536) % 256,
            r[2] == (len / 256) % 256,
            r[3] == len % 256,
    ;
    r
}

/// The length a received prefix announces, refused when it exceeds the
/// largest frame; the reader then stops.
pub fn inbound_frame_length(header: [u8; 4], max_frame: usize) -> (r: Result<usize, PeerTransportError>)
    ensures
        match r {
            Ok(n) => n == be_value(header) && n <= max_frame,
            Err(e) => be_value(header) > max_frame && e.0@ == "Iroh frame exceeds peer limit"@,
        },
{
    let value: u64 = header[0] as u64 * 16777216 + header[1] as u64 * 65536 + header[2] as u64 * 256
        + header[3] as u64;
    if value > max_frame as u64 {
        return Err(PeerTransportError("Iroh frame exceeds peer limit".to_owned()));
    }
    Ok(value as usize)
}

} // verus!

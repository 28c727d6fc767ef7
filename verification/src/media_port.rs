//! Custom audio ports: the [`MediaPort`] trait, the frames exchanged with the
//! conference bridge, and the bookkeeping of a port's conference slot.

use vstd::prelude::*;
use crate::error::{PjError, Result};
use crate::types::ConfPort;

verus! {

/// An audio frame exchanged between media ports and the conference bridge.
#[derive(Debug)]
pub struct AudioFrame<'a> {
    pub samples: &'a mut [i16],
    pub timestamp: u64,
}

/// Trait for implementing custom audio ports.
///
/// `get_frame` fills a frame that the bridge will play (it arrives
/// silenced); `put_frame` receives a frame recorded by the bridge;
/// `on_destroy` runs once when the port is dropped. Every method does
/// nothing by default.
pub trait MediaPort: Send + 'static {
    fn get_frame(&mut self, frame: &mut AudioFrame) -> (r: Result<()>)
        default_ensures
            r is Ok,
    {
        Ok(())
    }

    fn put_frame(&mut self, frame: &AudioFrame) -> (r: Result<()>)
        default_ensures
            r is Ok,
    {
        Ok(())
    }

    fn on_destroy(&mut self) {
    }
}

/// Silence a frame: every sample becomes zero. The bridge hands a silenced
/// frame to [`MediaPort::get_frame`].
pub fn silence(samples: &mut [i16])
    ensures
        final(samples)@.len() == old(samples)@.len(),
        forall|i: int| 0 <= i < final(samples)@.len() ==> #[trigger] final(samples)@[i] == 0,
{
    let n = samples.len();
    let mut i: usize = 0;
    while i < n
        invariant
            n == samples@.len(),
            n == old(samples)@.len(),
            i <= n,
            forall|j: int| 0 <= j < i ==> #[trigger] samples@[j] == 0,
        decreases n - i,
    {
        samples[i] = 0;
        i += 1;
    }
}

/// The number of 16-bit samples in a frame buffer of `size_bytes` bytes.
pub fn frame_sample_count(size_bytes: usize) -> (n: usize)
    ensures
        n == size_bytes / 2,
{
    size_bytes / 2
}

/// Whether a recorded frame is handed to [`MediaPort::put_frame`]: only a
/// non-empty buffer is.
pub fn delivers_put_frame(buffer_present: bool, size_bytes: usize) -> (b: bool)
    ensures
        b == (buffer_present && size_bytes != 0),
{
    buffer_present && size_bytes != 0
}

/// The status that a port callback returns to PJMEDIA: 0 on success, -1 on error.
pub fn port_status(r: &Result<()>) -> (status: i32)
    ensures
        r is Ok ==> status == 0,
        r is Err ==> status == -1,
{
    match r {
        Ok(()) => 0,
        Err(_) => -1,
    }
}

/// The conference-bridge slot of a media port: free, or the port number that
/// the bridge assigned.
#[derive(Debug)]
pub struct ConferenceSlot {
    port: Option<ConfPort>,
}

/// The error of adding a port that is already on the bridge.
pub open spec fn already_in_bridge(e: PjError) -> bool {
    e matches PjError::AlreadyInUse(m) && m@ == "conference port"@
}

impl ConferenceSlot {
    /// The slot as a model: the assigned port, if any.
    pub closed spec fn assigned(&self) -> Option<ConfPort> {
        self.port
    }

    /// A free slot.
    pub fn new() -> (s: Self)
        ensures
            s.assigned() is None,
    {
        ConferenceSlot { port: None }
    }

    /// The conference port, if the media port is on the bridge.
    pub fn conf_port(&self) -> (p: Option<ConfPort>)
        ensures
            p == self.assigned(),
    {
        self.port
    }

    /// Whether the port may be added: refused with `AlreadyInUse("conference port")`
    /// when it is already on the bridge.
    pub fn check_free(&self) -> (r: Result<()>)
        ensures
            self.assigned() is None ==> r is Ok,
            self.assigned() is Some ==> (r matches Err(e) && already_in_bridge(e)),
    {
        if self.port.is_some() {
            Err(PjError::AlreadyInUse(String::from_str("conference port")))
        } else {
            Ok(())
        }
    }

    /// Record the port that the bridge assigned.
    pub fn occupy(&mut self, port: ConfPort)
        ensures
            final(self).assigned() == Some(port),
    {
        self.port = Some(port);
    }

    /// Free the slot, returning the port that must be removed from the bridge.
    pub fn release(&mut self) -> (p: Option<ConfPort>)
        ensures
            p == old(self).assigned(),
            final(self).assigned() is None,
    {
        let p = self.port;
        self.port = None;
        p
    }
}

} // verus!

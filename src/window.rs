use crate::clock::now;
use tokio::time::Instant;
use vstd::prelude::*;

verus! {

/// What a window has counted since it opened.
pub struct WindowView {
    pub bytes: nat,
}

/// A one-second throughput accounting window: the bytes counted since the
/// window opened, and when it opened.
pub struct ThroughputWindow {
    start: Instant,
    bytes: u64,
}

impl ThroughputWindow {
    pub closed spec fn view(&self) -> WindowView {
        WindowView { bytes: self.bytes as nat }
    }

    /// Opens a window now, with nothing counted.
    pub fn new() -> (w: ThroughputWindow)
        ensures
            w@.bytes == 0,
    {
        ThroughputWindow { start: now(), bytes: 0 }
    }

    /// The bytes counted since the window opened.
    pub fn bytes(&self) -> (r: u64)
        ensures
            r == self@.bytes,
    {
        self.bytes
    }

    /// Counts a chunk of `len` bytes, `elapsed_secs` whole seconds after the
    /// window opened. Under one second the chunk is added to the window and
    /// nothing is reported. From one second on the window closes: its count is
    /// returned, and a new window opens now holding just this chunk.
    pub fn record(&mut self, len: u64, elapsed_secs: u64) -> (closed: Option<u64>)
        requires
            old(self)@.bytes + len <= u64::MAX,
        ensures
            elapsed_secs < 1 ==> closed is None && final(self)@.bytes == old(self)@.bytes + len,
            elapsed_secs >= 1 ==> closed == Some(old(self)@.bytes as u64) && final(self)@.bytes
                == len,
    {
        if elapsed_secs < 1 {
            self.bytes = self.bytes + len;
            None
        } else {
            let closed = self.bytes;
            self.start = now();
            self.bytes = len;
            Some(closed)
        }
    }

    /// Counts a chunk of `len` bytes at the present moment, as `record` does
    /// with the seconds that have passed since the window opened.
    pub fn record_now(&mut self, len: u64) -> (closed: Option<u64>)
        requires
            old(self)@.bytes + len <= u64::MAX,
        ensures
            closed is None && final(self)@.bytes == old(self)@.bytes + len || closed == Some(
                old(self)@.bytes as u64,
            ) && final(self)@.bytes == len,
    {
        let secs = crate::clock::secs_since(&self.start);
        self.record(len, secs)
    }
}

} // verus!

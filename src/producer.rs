use crate::rng::{draw_byte, drawn_byte, seeded_byte, seeded_rng};
use crate::units::{human_size, size_text};
use crate::window::ThroughputWindow;
use rand::rngs::SmallRng;
use vstd::prelude::*;

verus! {

/// The most bytes that one pull hands out.
pub const MAX_CHUNK: u64 = 100_000;

/// The seed of every producer's generator: the same for every request, so
/// that producers for the same size emit the same bytes.
pub const SEED: u64 = 1;

/// A line-oriented event of a producer's life, for the caller to log.
#[derive(Debug, Clone, PartialEq)]
pub enum Observation {
    /// The producer `id` was made for `size` bytes.
    Initialized { id: u32, size: u64 },
    /// A throughput window of producer `id` closed after counting `bytes`;
    /// `text` renders the count for people.
    Throughput { id: u32, bytes: u64, text: String },
    /// Producer `id` reached the end of its stream.
    Done { id: u32 },
    /// Producer `id` was torn down with bytes still owed.
    Abandoned { id: u32 },
}

/// How a producer's life ends: one of these is reported per producer.
#[derive(Debug, Clone, Copy, PartialEq, Eq)]
pub enum Ending {
    Done,
    Abandoned,
}

/// What one pull hands back: the next chunk, or `None` at the end of the
/// stream, and the observation that the pull gave rise to, if any.
pub struct Pull {
    pub chunk: Option<Vec<u8>>,
    pub observation: Option<Observation>,
}

/// How far a producer has come: the bytes it still owes, and whether it has
/// already reported the end of its stream.
pub struct Progress {
    pub remaining: nat,
    pub done_reported: bool,
}

/// A producer as its contracts see it.
pub struct GenView {
    pub id: u32,
    pub size: nat,
    pub progress: Progress,
    pub window_bytes: nat,
}

/// The length of the chunk that a pull hands out when `remaining` bytes are
/// owed.
pub open spec fn chunk_len(remaining: nat) -> nat {
    if remaining < MAX_CHUNK {
        remaining
    } else {
        MAX_CHUNK as nat
    }
}

/// `len` bytes of the seeded stream, starting at `offset`.
pub open spec fn stream(offset: nat, len: nat) -> Seq<u8> {
    Seq::new(len, |i: int| seeded_byte(SEED, (offset + i) as nat))
}

/// The chunk that a producer for `size` bytes hands out when `remaining` of
/// them are owed: it continues the stream where the last chunk stopped.
pub open spec fn chunk_of(size: nat, remaining: nat) -> Seq<u8> {
    stream((size - remaining) as nat, chunk_len(remaining))
}

/// A new producer for `size` bytes.
pub open spec fn fresh(size: nat) -> Progress {
    Progress { remaining: size, done_reported: false }
}

/// The progress after one more pull.
pub open spec fn step(p: Progress) -> Progress {
    if p.remaining > 0 {
        Progress { remaining: (p.remaining - chunk_len(p.remaining)) as nat, ..p }
    } else {
        Progress { remaining: 0, done_reported: true }
    }
}

/// Whether the next pull reports the end of the stream.
pub open spec fn reports_done(p: Progress) -> bool {
    p.remaining == 0 && !p.done_reported
}

/// What tearing a producer down reports: `Abandoned` while bytes are owed,
/// `Done` if the end was reached but not yet reported, else nothing.
pub open spec fn teardown_ending(p: Progress) -> Option<Ending> {
    if p.remaining > 0 {
        Some(Ending::Abandoned)
    } else if !p.done_reported {
        Some(Ending::Done)
    } else {
        None
    }
}

/// The observation that stands for an ending of producer `id`.
pub open spec fn ending_observation(e: Option<Ending>, id: u32) -> Option<Observation> {
    match e {
        Some(Ending::Done) => Some(Observation::Done { id }),
        Some(Ending::Abandoned) => Some(Observation::Abandoned { id }),
        None => None,
    }
}

/// Whether `o` reports a closed window of producer `id` that counted `bytes`.
pub open spec fn is_throughput(o: Option<Observation>, id: u32, bytes: nat) -> bool {
    match o {
        Some(Observation::Throughput { id: i, bytes: b, text }) => i == id && b == bytes
            && text@ == size_text(b),
        _ => false,
    }
}

/// The progress of a producer for `size` bytes after `k` pulls.
pub open spec fn progress_after(size: nat, k: nat) -> Progress
    decreases k,
{
    if k == 0 {
        fresh(size)
    } else {
        step(progress_after(size, (k - 1) as nat))
    }
}

/// All the bytes that the first `k` pulls of a producer for `size` bytes hand
/// out, in order.
pub open spec fn output_after(size: nat, k: nat) -> Seq<u8>
    decreases k,
{
    if k == 0 {
        Seq::empty()
    } else {
        let p = progress_after(size, (k - 1) as nat);
        if p.remaining > 0 {
            output_after(size, (k - 1) as nat) + chunk_of(size, p.remaining)
        } else {
            output_after(size, (k - 1) as nat)
        }
    }
}

/// How many of the first `k` pulls of a producer for `size` bytes report the
/// end of the stream.
pub open spec fn done_reports(size: nat, k: nat) -> nat
    decreases k,
{
    if k == 0 {
        0
    } else {
        done_reports(size, (k - 1) as nat) + if reports_done(
            progress_after(size, (k - 1) as nat),
        ) {
            1nat
        } else {
            0nat
        }
    }
}

/// A producer of pseudo-random bytes for one request.
pub struct Gen {
    id: u32,
    rng: SmallRng,
    size: u64,
    remaining: u64,
    done_reported: bool,
    window: ThroughputWindow,
}

impl Observation {
    /// The observation that a window of producer `id` closed after counting
    /// `bytes`.
    pub fn throughput(id: u32, bytes: u64) -> (o: Observation)
        ensures
            is_throughput(Some(o), id, bytes as nat),
    {
        Observation::Throughput { id, bytes, text: human_size(bytes) }
    }
}

impl Gen {
    pub closed spec fn view(&self) -> GenView {
        GenView {
            id: self.id,
            size: self.size as nat,
            progress: Progress {
                remaining: self.remaining as nat,
                done_reported: self.done_reported,
            },
            window_bytes: self.window@.bytes,
        }
    }

    /// The producer's invariant: it never owes more than was asked, reports
    /// the end only once nothing is owed, has counted no more bytes in its
    /// window than it handed out, and its generator stands where the seeded
    /// stream continues.
    pub closed spec fn wf(&self) -> bool {
        &&& self.remaining <= self.size
        &&& (self.done_reported ==> self.remaining == 0)
        &&& self.window@.bytes <= self.size - self.remaining
        &&& forall|i: nat| #[trigger]
            drawn_byte(self.rng, i) == seeded_byte(SEED, (self.size - self.remaining + i) as nat)
    }

    /// A producer for `size` bytes, with a random id.
    pub fn new(size: u64) -> (g: Gen)
        ensures
            g.wf(),
            g@.size == size,
            g@.progress == fresh(size as nat),
            g@.window_bytes == 0,
    {
        let id: u32 = rand::random();
        Gen {
            id,
            rng: seeded_rng(SEED),
            size,
            remaining: size,
            done_reported: false,
            window: ThroughputWindow::new(),
        }
    }

    /// The observation that the producer was made.
    pub fn init_observation(&self) -> (o: Observation)
        ensures
            o == (Observation::Initialized { id: self@.id, size: self@.size as u64 }),
    {
        Observation::Initialized { id: self.id, size: self.size }
    }

    /// The producer's id, for log correlation.
    pub fn id(&self) -> (r: u32)
        ensures
            r == self@.id,
    {
        self.id
    }

    /// The number of bytes that were asked for.
    pub fn size(&self) -> (r: u64)
        ensures
            r == self@.size,
    {
        self.size
    }

    /// The number of bytes still owed.
    pub fn remaining(&self) -> (r: u64)
        ensures
            r == self@.progress.remaining,
    {
        self.remaining
    }

    /// The bytes counted in the current throughput window.
    pub fn window_bytes(&self) -> (r: u64)
        ensures
            r == self@.window_bytes,
    {
        self.window.bytes()
    }

    /// Takes the next chunk off the owed bytes and draws it from the
    /// generator.
    fn next_chunk(&mut self) -> (c: Vec<u8>)
        requires
            old(self).wf(),
            old(self).remaining > 0,
        ensures
            c@ == chunk_of(old(self)@.size, old(self)@.progress.remaining),
            final(self).remaining == old(self).remaining - chunk_len(old(self).remaining as nat),
            final(self).id == old(self).id,
            final(self).size == old(self).size,
            final(self).done_reported == old(self).done_reported,
            final(self).window == old(self).window,
            forall|i: nat| #[trigger]
                drawn_byte(final(self).rng, i) == seeded_byte(
                    SEED,
                    (final(self).size - final(self).remaining + i) as nat,
                ),
    {
        let len: u64 = if self.remaining < MAX_CHUNK {
            self.remaining
        } else {
            MAX_CHUNK
        };
        let ghost offset: nat = (self.size - self.remaining) as nat;
        self.remaining = self.remaining - len;
        let mut chunk: Vec<u8> = Vec::with_capacity(len as usize);
        let mut i: u64 = 0;
        while i < len
            invariant
                i <= len,
                len == chunk_len(old(self).remaining as nat),
                self.remaining == old(self).remaining - len,
                self.id == old(self).id,
                self.size == old(self).size,
                self.done_reported == old(self).done_reported,
                self.window == old(self).window,
                offset == old(self).size - old(self).remaining,
                chunk@.len() == i,
                forall|j: int| 0 <= j < i ==> chunk@[j] == seeded_byte(SEED, (offset + j) as nat),
                forall|j: nat| #[trigger]
                    drawn_byte(self.rng, j) == seeded_byte(SEED, (offset + i + j) as nat),
            decreases len - i,
        {
            assert(drawn_byte(self.rng, 0) == seeded_byte(SEED, (offset + i + 0) as nat));
            let b = draw_byte(&mut self.rng);
            chunk.push(b);
            i = i + 1;
        }
        assert(chunk@ =~= stream(offset, len as nat));
        chunk
    }

    /// Hands out the next chunk: up to `MAX_CHUNK` owed bytes, continuing the
    /// seeded stream. The chunk is counted in the throughput window, and when
    /// the window closes its count is reported. Once nothing is owed, every
    /// pull hands out `None`; the first of them reports `Done`.
    pub fn pull(&mut self) -> (r: Pull)
        requires
            old(self).wf(),
        ensures
            final(self).wf(),
            final(self)@.id == old(self)@.id,
            final(self)@.size == old(self)@.size,
            final(self)@.progress == step(old(self)@.progress),
            old(self)@.progress.remaining == 0 ==> {
                &&& r.chunk is None
                &&& r.observation == ending_observation(
                    if reports_done(old(self)@.progress) {
                        Some(Ending::Done)
                    } else {
                        None
                    },
                    old(self)@.id,
                )
                &&& final(self)@.window_bytes == old(self)@.window_bytes
            },
            old(self)@.progress.remaining > 0 ==> {
                let len = chunk_len(old(self)@.progress.remaining);
                &&& r.chunk matches Some(c) && c@ == chunk_of(
                    old(self)@.size,
                    old(self)@.progress.remaining,
                )
                &&& len <= MAX_CHUNK
                &&& r.observation is None ==> final(self)@.window_bytes == old(self)@.window_bytes
                    + len
                &&& r.observation is Some ==> is_throughput(
                    r.observation,
                    old(self)@.id,
                    old(self)@.window_bytes,
                ) && final(self)@.window_bytes == len
            },
    {
        if self.remaining == 0 {
            let observation = if self.done_reported {
                None
            } else {
                Some(Observation::Done { id: self.id })
            };
            self.done_reported = true;
            return Pull { chunk: None, observation };
        }
        let chunk = self.next_chunk();
        let len = chunk.len() as u64;
        let observation = match self.window.record_now(len) {
            Some(bytes) => Some(Observation::throughput(self.id, bytes)),
            None => None,
        };
        Pull { chunk: Some(chunk), observation }
    }

    /// Tears the producer down, reporting how its life ended: `Abandoned`
    /// while bytes are still owed, `Done` if the end was reached but no pull
    /// has reported it yet, and nothing if a pull already did.
    pub fn teardown(self) -> (r: Option<Observation>)
        requires
            self.wf(),
        ensures
            r == ending_observation(teardown_ending(self@.progress), self@.id),
    {
        if self.remaining > 0 {
            Some(Observation::Abandoned { id: self.id })
        } else if !self.done_reported {
            Some(Observation::Done { id: self.id })
        } else {
            None
        }
    }
}

} // verus!

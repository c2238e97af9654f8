use vstd::prelude::*;

use crate::source::{span, splice, AudioSource, SourceError};

verus! {

/// Bytes in each playback buffer by default: a second of 16-bit stereo at 44.1 kHz.
pub const SAMPLES_PER_BUF: usize = 44100 * 4;

/// The state that the playback device reports for one queued buffer.
#[derive(Clone, Copy, Debug, PartialEq, Eq, Structural)]
pub enum WaveStatus {
    Free,
    Queued,
    Playing,
    Done,
}

/// Why a streaming engine could not be built or could not go on.
#[derive(Clone, Copy, Debug, PartialEq, Eq, Structural)]
pub enum PcmError {
    /// A request to the audio source failed.
    Source(SourceError),
    /// A loop point lies beyond the end of the source.
    LoopPoints { stream_len: u64, loop_start: u64, loop_end: u64 },
}

/// `x` limited to the range `0 ..= n`.
pub open spec fn clamp(x: int, n: int) -> int {
    if x < 0 {
        0
    } else if x > n {
        n
    } else {
        x
    }
}

/// The loop region `(start, end)` that optional loop points describe.
pub open spec fn region_of(lp: Option<[u64; 2]>) -> Option<(int, int)> {
    match lp {
        Some(p) => Some((p@[0] as int, p@[1] as int)),
        None => None,
    }
}

/// How many bytes a fill of `n` at `pos` takes before it reaches the loop
/// end `end` and jumps back to the loop start.
pub open spec fn before_wrap(pos: int, n: int, end: int) -> int {
    clamp(end - pos, n)
}

/// How many bytes a fill of `n` at `pos` takes before the source ends.
pub open spec fn available(data: Seq<u8>, pos: int, n: int) -> int {
    clamp(data.len() - pos, n)
}

/// Whether a fill of `n` bytes at `pos` crosses the loop end or, without a
/// loop, the end of the source.
pub open spec fn crosses(data: Seq<u8>, pos: int, n: int, region: Option<(int, int)>) -> bool {
    match region {
        Some((_, e)) => pos + n > e,
        None => pos + n > data.len(),
    }
}

/// The bytes that a fill of `n` at `pos` writes to its buffer.
pub open spec fn fill_bytes(data: Seq<u8>, pos: int, n: int, region: Option<(int, int)>) -> Seq<
    u8,
> {
    if !crosses(data, pos, n, region) {
        span(data, pos, n)
    } else {
        match region {
            Some((s, e)) => {
                let before = before_wrap(pos, n, e);
                span(data, pos, before) + span(data, s, n - before)
            },
            None => {
                let avail = available(data, pos, n);
                span(data, pos, avail) + Seq::new((n - avail) as nat, |i: int| 0u8)
            },
        }
    }
}

/// Where the read cursor stands after a fill of `n` at `pos`.
pub open spec fn fill_cursor(data: Seq<u8>, pos: int, n: int, region: Option<(int, int)>) -> int {
    if !crosses(data, pos, n, region) {
        pos + n
    } else {
        match region {
            Some((s, e)) => s + n - before_wrap(pos, n, e),
            None => pos + available(data, pos, n),
        }
    }
}

/// Whether a fill of `n` at `pos` reaches the end of a source that does not loop.
pub open spec fn fill_ends(data: Seq<u8>, pos: int, n: int, region: Option<(int, int)>) -> bool {
    region is None && crosses(data, pos, n, region)
}

/// Whether every read of a fill of `n` at `pos` stays within the source. Only a
/// jump back to a loop start too near the end of the source can fail that.
pub open spec fn fill_fits(data: Seq<u8>, pos: int, n: int, region: Option<(int, int)>) -> bool {
    match region {
        Some((s, e)) => crosses(data, pos, n, region) ==> s + n - before_wrap(pos, n, e)
            <= data.len(),
        None => true,
    }
}

/// A fill from a cursor before the loop end, with the loop end within its
/// buffer, takes the source from the cursor up to the loop end, then from the
/// loop start on until the buffer is full. Where it
/// took anything from the loop start, the cursor stands just past that; where
/// the loop end falls exactly at the end of the buffer, on the loop end.
pub proof fn lemma_loop_wrap(data: Seq<u8>, s: int, e: int, p: int, n: int)
    requires
        0 <= p < e <= p + n,
        e <= data.len(),
        0 <= s,
        s + (n - (e - p)) <= data.len(),
    ensures
        fill_bytes(data, p, n, Some((s, e))) == data.subrange(p, e) + data.subrange(
            s,
            s + (n - (e - p)),
        ),
        e < p + n ==> fill_cursor(data, p, n, Some((s, e))) == s + (n - (e - p)),
        e == p + n ==> fill_cursor(data, p, n, Some((s, e))) == e,
        fill_fits(data, p, n, Some((s, e))),
        !fill_ends(data, p, n, Some((s, e))),
{
    assert(fill_bytes(data, p, n, Some((s, e))) =~= data.subrange(p, e) + data.subrange(
        s,
        s + (n - (e - p)),
    ));
}

/// Without a loop, the first fill that would run past the end of the source
/// takes what is left of it, pads the buffer with zeros, and ends the stream.
pub proof fn lemma_tail_padding(data: Seq<u8>, p: int, n: int)
    requires
        0 <= p <= data.len() < p + n,
    ensures
        fill_bytes(data, p, n, None) == data.subrange(p, data.len() as int) + Seq::new(
            (n - (data.len() - p)) as nat,
            |i: int| 0u8,
        ),
        fill_cursor(data, p, n, None) == data.len(),
        fill_ends(data, p, n, None),
{
    assert(fill_bytes(data, p, n, None) =~= data.subrange(p, data.len() as int) + Seq::new(
        (n - (data.len() - p)) as nat,
        |i: int| 0u8,
    ));
}

/// Reads `count` bytes into `buf[at ..]`, and asks nothing of the source when
/// `count` is zero.
fn read_part<R: AudioSource>(samples: &mut R, buf: &mut Vec<u8>, at: usize, count: usize) -> (r:
    Result<(), SourceError>)
    requires
        at + count <= old(buf).len(),
    ensures
        final(samples).bytes() == old(samples).bytes(),
        final(samples).dependable() == old(samples).dependable(),
        final(buf).len() == old(buf).len(),
        r is Ok ==> {
            &&& count == 0 || old(samples).cursor() + count <= old(samples).bytes().len()
            &&& count > 0 ==> final(samples).cursor() == old(samples).cursor() + count
            &&& count == 0 ==> *final(samples) == *old(samples)
            &&& final(buf)@ == splice(
                old(buf)@,
                at as int,
                span(old(samples).bytes(), old(samples).cursor() as int, count as int),
            )
        },
        count == 0 ==> r is Ok,
        old(samples).dependable() && old(samples).cursor() + count <= old(samples).bytes().len()
            ==> r is Ok,
{
    if count == 0 {
        assert(buf@ =~= splice(
            buf@,
            at as int,
            span(samples.bytes(), samples.cursor() as int, 0),
        ));
        return Ok(());
    }
    samples.read_exact(buf, at, count)
}

/// Fills all of `buf` from the cursor of `samples`, jumping back to the loop
/// start where a loop region is given, and padding with zeros where the
/// source ends. Returns whether the source ended.
fn fill_buffer<R: AudioSource>(samples: &mut R, buf: &mut Vec<u8>, loop_points: Option<[u64; 2]>) -> (r:
    Result<bool, SourceError>)
    requires
        match region_of(loop_points) {
            Some((s, e)) => s <= old(samples).bytes().len() && e <= old(samples).bytes().len(),
            None => true,
        },
    ensures
        final(samples).bytes() == old(samples).bytes(),
        final(samples).dependable() == old(samples).dependable(),
        final(buf).len() == old(buf).len(),
        r is Ok ==> {
            let (data, pos, n, region) = (
                old(samples).bytes(),
                old(samples).cursor() as int,
                old(buf).len() as int,
                region_of(loop_points),
            );
            &&& fill_fits(data, pos, n, region)
            &&& final(buf)@ == fill_bytes(data, pos, n, region)
            &&& final(samples).cursor() == fill_cursor(data, pos, n, region)
            &&& r->Ok_0 == fill_ends(data, pos, n, region)
        },
        old(samples).dependable() && fill_fits(
            old(samples).bytes(),
            old(samples).cursor() as int,
            old(buf).len() as int,
            region_of(loop_points),
        ) ==> r is Ok,
{
    let ghost data = samples.bytes();
    let n = buf.len();
    let pos = samples.stream_position()?;
    match loop_points {
        Some(lp) => {
            let loop_start = lp[0];
            let loop_end = lp[1];
            if loop_end < n as u64 || pos > loop_end - n as u64 {
                let before: usize = if pos >= loop_end {
                    0
                } else {
                    (loop_end - pos) as usize
                };
                read_part(samples, buf, 0, before)?;
                samples.seek(loop_start)?;
                read_part(samples, buf, before, n - before)?;
                assert(buf@ =~= fill_bytes(data, pos as int, n as int, region_of(loop_points)));
                Ok(false)
            } else {
                read_part(samples, buf, 0, n)?;
                assert(buf@ =~= fill_bytes(data, pos as int, n as int, region_of(loop_points)));
                Ok(false)
            }
        },
        None => {
            let len = samples.stream_len()?;
            if len < n as u64 || pos > len - n as u64 {
                let avail: usize = if pos >= len {
                    0
                } else {
                    (len - pos) as usize
                };
                read_part(samples, buf, 0, avail)?;
                let mut i: usize = avail;
                while i < n
                    invariant
                        avail <= i <= n,
                        buf.len() == n,
                        forall|k: int| 0 <= k < avail ==> #[trigger] buf@[k] == span(data, pos as int, avail as int)[k],
                        forall|k: int| avail <= k < i ==> #[trigger] buf@[k] == 0u8,
                    decreases n - i,
                {
                    buf.set(i, 0u8);
                    i += 1;
                }
                assert(buf@ =~= fill_bytes(data, pos as int, n as int, region_of(loop_points)));
                Ok(true)
            } else {
                read_part(samples, buf, 0, n)?;
                assert(buf@ =~= fill_bytes(data, pos as int, n as int, region_of(loop_points)));
                Ok(false)
            }
        },
    }
}

/// A streaming PCM player's buffering: two buffers that take turns, filled
/// from an audio source that may loop over a region of itself.
pub struct PcmData<R: AudioSource> {
    samples: R,
    sample_rate: u32,
    loop_points: Option<[u64; 2]>,
    wave0: Vec<u8>,
    wave1: Vec<u8>,
    active_buffer: usize,
    finished_reading: bool,
}

/// A zero-filled buffer of `n` bytes.
fn zeroed(n: usize) -> (r: Vec<u8>)
    ensures
        r@ == Seq::new(n as nat, |i: int| 0u8),
{
    let mut v: Vec<u8> = Vec::with_capacity(n);
    let mut i: usize = 0;
    while i < n
        invariant
            i <= n,
            v@ == Seq::new(i as nat, |k: int| 0u8),
        decreases n - i,
    {
        v.push(0u8);
        i += 1;
        assert(v@ =~= Seq::new(i as nat, |k: int| 0u8));
    }
    v
}

impl<R: AudioSource> PcmData<R> {
    /// Every byte of the audio source.
    pub closed spec fn data(&self) -> Seq<u8> {
        self.samples.bytes()
    }

    /// The source's read cursor.
    pub closed spec fn cursor(&self) -> int {
        self.samples.cursor() as int
    }

    /// Whether the source's requests within its bounds never fail.
    pub closed spec fn dependable(&self) -> bool {
        self.samples.dependable()
    }

    /// The loop region `(start, end)`, if any.
    pub closed spec fn region(&self) -> Option<(int, int)> {
        region_of(self.loop_points)
    }

    /// The size of each buffer.
    pub closed spec fn buf_len(&self) -> int {
        self.wave0.len() as int
    }

    /// The contents of buffer `i` (0 or 1).
    pub closed spec fn slot(&self, i: int) -> Seq<u8> {
        if i == 0 {
            self.wave0@
        } else {
            self.wave1@
        }
    }

    /// The buffer whose playback the engine is waiting on.
    pub closed spec fn active(&self) -> int {
        self.active_buffer as int
    }

    /// Whether a source that does not loop has been read to its end.
    pub closed spec fn finished(&self) -> bool {
        self.finished_reading
    }

    /// The sample rate handed on to the playback device.
    pub closed spec fn rate(&self) -> u32 {
        self.sample_rate
    }

    /// Both buffers have the same size, the active index is 0 or 1, and both
    /// loop points lie within the source.
    pub closed spec fn wf(&self) -> bool {
        &&& self.wave1.len() == self.wave0.len()
        &&& self.active_buffer < 2
        &&& match self.region() {
            Some((s, e)) => s <= self.data().len() && e <= self.data().len(),
            None => true,
        }
    }

    /// Whether what the engine was built with is the same in `self` and `other`.
    pub open spec fn same_setup(&self, other: &Self) -> bool {
        &&& self.data() == other.data()
        &&& self.dependable() == other.dependable()
        &&& self.region() == other.region()
        &&& self.buf_len() == other.buf_len()
        &&& self.rate() == other.rate()
    }

    /// What the next fill writes to its buffer.
    pub open spec fn next_bytes(&self) -> Seq<u8> {
        fill_bytes(self.data(), self.cursor(), self.buf_len(), self.region())
    }

    /// Where the cursor stands after the next fill.
    pub open spec fn next_cursor(&self) -> int {
        fill_cursor(self.data(), self.cursor(), self.buf_len(), self.region())
    }

    /// Whether the next fill reaches the end of a source that does not loop.
    pub open spec fn next_ends(&self) -> bool {
        fill_ends(self.data(), self.cursor(), self.buf_len(), self.region())
    }

    /// Whether every read of the next fill stays within the source.
    pub open spec fn next_fits(&self) -> bool {
        fill_fits(self.data(), self.cursor(), self.buf_len(), self.region())
    }

    /// Builds an engine with buffers of the default size; see `with_buffer_size`.
    pub fn new(samples: R, sample_rate: u32, loop_points: Option<[u64; 2]>) -> (r: Result<
        Self,
        PcmError,
    >)
        ensures
            Self::built(&samples, sample_rate, loop_points, SAMPLES_PER_BUF, r),
    {
        Self::with_buffer_size(samples, sample_rate, loop_points, SAMPLES_PER_BUF)
    }

    /// What `with_buffer_size(samples, rate, lp, n)` returns as `r`.
    pub open spec fn built(samples: &R, rate: u32, lp: Option<[u64; 2]>, n: usize, r: Result<
        Self,
        PcmError,
    >) -> bool {
        &&& r is Ok ==> {
            let e = r->Ok_0;
            &&& e.wf()
            &&& e.data() == samples.bytes()
            &&& e.cursor() == samples.cursor()
            &&& e.dependable() == samples.dependable()
            &&& e.region() == region_of(lp)
            &&& e.rate() == rate
            &&& e.buf_len() == n
            &&& e.slot(0) == Seq::new(n as nat, |i: int| 0u8)
            &&& e.slot(1) == Seq::new(n as nat, |i: int| 0u8)
            &&& e.active() == 0
            &&& !e.finished()
        }
        &&& match lp {
            None => r is Ok,
            Some(p) => {
                let len = samples.bytes().len();
                let refused = Err::<Self, PcmError>(
                    PcmError::LoopPoints { stream_len: len as u64, loop_start: p@[0], loop_end: p@[1] },
                );
                &&& r is Ok ==> p@[0] <= len && p@[1] <= len
                &&& r matches Err(PcmError::LoopPoints { .. }) ==> r == refused && (p@[0] > len
                    || p@[1] > len)
                &&& samples.dependable() ==> if p@[0] <= len && p@[1] <= len {
                    r is Ok
                } else {
                    r == refused
                }
            },
        }
    }

    /// Builds an engine with two zero-filled buffers of `buf_size` bytes over
    /// `samples`. Fails where a loop point lies beyond the end of the source.
    pub fn with_buffer_size(
        samples: R,
        sample_rate: u32,
        loop_points: Option<[u64; 2]>,
        buf_size: usize,
    ) -> (r: Result<Self, PcmError>)
        ensures
            Self::built(&samples, sample_rate, loop_points, buf_size, r),
    {
        if let Some(lp) = loop_points {
            let stream_len = match samples.stream_len() {
                Ok(len) => len,
                Err(e) => return Err(PcmError::Source(e)),
            };
            if lp[0] > stream_len || lp[1] > stream_len {
                return Err(
                    PcmError::LoopPoints { stream_len, loop_start: lp[0], loop_end: lp[1] },
                );
            }
        }
        Ok(PcmData {
            samples,
            sample_rate,
            loop_points,
            wave0: zeroed(buf_size),
            wave1: zeroed(buf_size),
            active_buffer: 0,
            finished_reading: false,
        })
    }

    /// Fills buffer `wave` with the next bytes of the source, as `fill_bytes`
    /// describes, unless the source has already been read to its end: then it
    /// changes nothing.
    pub fn read_samples(&mut self, wave: usize) -> (r: Result<(), PcmError>)
        requires
            old(self).wf(),
            wave < 2,
        ensures
            final(self).wf(),
            final(self).same_setup(old(self)),
            final(self).active() == old(self).active(),
            final(self).slot(1 - wave) == old(self).slot(1 - wave),
            old(self).finished() ==> r is Ok && *final(self) == *old(self),
            !old(self).finished() ==> {
                &&& r is Ok ==> {
                    &&& old(self).next_fits()
                    &&& final(self).slot(wave as int) == old(self).next_bytes()
                    &&& final(self).cursor() == old(self).next_cursor()
                    &&& final(self).finished() == old(self).next_ends()
                }
                &&& r is Err ==> !final(self).finished()
                &&& old(self).dependable() && old(self).next_fits() ==> r is Ok
            },
    {
        if self.finished_reading {
            return Ok(());
        }
        let res = if wave == 0 {
            fill_buffer(&mut self.samples, &mut self.wave0, self.loop_points)
        } else {
            fill_buffer(&mut self.samples, &mut self.wave1, self.loop_points)
        };
        match res {
            Ok(ended) => {
                if ended {
                    self.finished_reading = true;
                }
                Ok(())
            },
            Err(e) => Err(PcmError::Source(e)),
        }
    }

    /// Starts playback over: makes buffer 0 the active one, moves the cursor to
    /// the start of the source, and fills buffer 0, then buffer 1. Buffer 0 is
    /// then to be queued; the result says whether buffer 1 is too, which it is
    /// unless the first fill already reached the end of the source.
    pub fn init(&mut self) -> (r: Result<bool, PcmError>)
        requires
            old(self).wf(),
        ensures
            final(self).wf(),
            final(self).same_setup(old(self)),
            final(self).active() == 0,
            r is Ok ==> {
                let (data, n, region) = (old(self).data(), old(self).buf_len(), old(self).region());
                let mid = fill_cursor(data, 0, n, region);
                if old(self).finished() {
                    &&& r == Ok::<bool, PcmError>(false)
                    &&& final(self).cursor() == 0
                    &&& final(self).slot(0) == old(self).slot(0)
                    &&& final(self).slot(1) == old(self).slot(1)
                    &&& final(self).finished()
                } else {
                    &&& fill_fits(data, 0, n, region)
                    &&& final(self).slot(0) == fill_bytes(data, 0, n, region)
                    &&& r->Ok_0 == !fill_ends(data, 0, n, region)
                    &&& if fill_ends(data, 0, n, region) {
                        &&& final(self).slot(1) == old(self).slot(1)
                        &&& final(self).cursor() == mid
                        &&& final(self).finished()
                    } else {
                        &&& fill_fits(data, mid, n, region)
                        &&& final(self).slot(1) == fill_bytes(data, mid, n, region)
                        &&& final(self).cursor() == fill_cursor(data, mid, n, region)
                        &&& final(self).finished() == fill_ends(data, mid, n, region)
                    }
                }
            },
            r is Err ==> final(self).finished() == old(self).finished(),
            old(self).dependable() && ({
                let (data, n, region) = (old(self).data(), old(self).buf_len(), old(self).region());
                &&& fill_fits(data, 0, n, region)
                &&& !fill_ends(data, 0, n, region) ==> fill_fits(
                    data,
                    fill_cursor(data, 0, n, region),
                    n,
                    region,
                )
            }) ==> r is Ok,
    {
        self.active_buffer = 0;
        if let Err(e) = self.samples.seek(0) {
            return Err(PcmError::Source(e));
        }
        self.read_samples(0)?;
        let queue_second = !self.finished_reading;
        self.read_samples(1)?;
        Ok(queue_second)
    }

    /// One scheduling tick. `status` is what the playback device reports for
    /// the active buffer. Where the source is not yet read to its end and that
    /// buffer is done playing, refills it, makes the other buffer the active one,
    /// and returns that buffer's index: it is to be queued. Otherwise changes
    /// nothing and returns `None`.
    pub fn reload_buffers(&mut self, status: WaveStatus) -> (r: Result<Option<usize>, PcmError>)
        requires
            old(self).wf(),
        ensures
            final(self).wf(),
            final(self).same_setup(old(self)),
            old(self).finished() || status != WaveStatus::Done ==> r == Ok::<
                Option<usize>,
                PcmError,
            >(None) && *final(self) == *old(self),
            !old(self).finished() && status == WaveStatus::Done ==> {
                let was = old(self).active();
                &&& final(self).slot(1 - was) == old(self).slot(1 - was)
                &&& r is Ok ==> {
                    &&& r == Ok::<Option<usize>, PcmError>(Some((1 - was) as usize))
                    &&& final(self).active() == 1 - was
                    &&& old(self).next_fits()
                    &&& final(self).slot(was) == old(self).next_bytes()
                    &&& final(self).cursor() == old(self).next_cursor()
                    &&& final(self).finished() == old(self).next_ends()
                }
                &&& r is Err ==> final(self).active() == was && !final(self).finished()
                &&& old(self).dependable() && old(self).next_fits() ==> r is Ok
            },
    {
        if self.finished_reading {
            return Ok(None);
        }
        if status == WaveStatus::Done {
            self.read_samples(self.active_buffer)?;
            self.active_buffer = if self.active_buffer == 0 {
                1
            } else {
                0
            };
            Ok(Some(self.active_buffer))
        } else {
            Ok(None)
        }
    }

    /// The buffer whose playback the engine is waiting on.
    pub fn active_buffer(&self) -> (r: usize)
        ensures
            r == self.active(),
    {
        self.active_buffer
    }

    /// Whether a source that does not loop has been read to its end.
    pub fn is_finished(&self) -> (r: bool)
        ensures
            r == self.finished(),
    {
        self.finished_reading
    }

    /// The contents of buffer `i`.
    pub fn wave(&self, i: usize) -> (r: &Vec<u8>)
        requires
            i < 2,
        ensures
            r@ == self.slot(i as int),
    {
        if i == 0 {
            &self.wave0
        } else {
            &self.wave1
        }
    }

    /// The audio source.
    pub fn source(&self) -> (r: &R)
        ensures
            r.bytes() == self.data(),
            r.cursor() == self.cursor(),
            r.dependable() == self.dependable(),
    {
        &self.samples
    }

    /// The sample rate handed on to the playback device.
    pub fn sample_rate(&self) -> (r: u32)
        ensures
            r == self.rate(),
    {
        self.sample_rate
    }
}

} // verus!

//! Audio feed and frame pacing for the projectM surface.
//!
//! The frontend reads PCM from the player once per shell tick; the widget
//! drains it on its own animation tick, so the two rates can differ without
//! losing samples. While nothing plays, silence is fed instead, so presets
//! keep animating. Repaints are throttled to the configured FPS cap.
//!
//! Instants and durations are nanoseconds on the caller's monotonic clock.

use vstd::prelude::*;

verus! {

/// Silence pushed while nothing plays: one stereo block, matching projectM's
/// working buffer size.
pub const SILENCE_FRAMES: usize = 2048;

/// Cap on buffered samples, so a stalled paint cannot grow the buffer
/// without bound. At 48 kHz stereo this is about two seconds of audio.
pub const MAX_PENDING: usize = 192_000;

/// Nanoseconds in a second.
pub const NANOS_PER_SEC: u64 = 1_000_000_000;

/// The frame interval for `fps` frames per second, in whole nanoseconds:
/// a zero cap paces at one frame per second, and the interval is never
/// zero.
pub open spec fn frame_interval(fps: u32) -> u64 {
    if fps == 0 {
        NANOS_PER_SEC
    } else if fps as u64 > NANOS_PER_SEC {
        1
    } else {
        (NANOS_PER_SEC / (fps as u64)) as u64
    }
}

/// The frame interval for `fps`: one second divided by the cap, treating a
/// zero cap as one frame per second, and never below a nanosecond.
pub fn interval_for(fps: u32) -> (ns: u64)
    ensures
        ns == frame_interval(fps),
{
    let per = if fps == 0 { 1u64 } else { fps as u64 };
    if per > NANOS_PER_SEC {
        1
    } else {
        NANOS_PER_SEC / per
    }
}

/// Rejects repaints that arrive sooner than the configured FPS cap.
#[derive(Debug, Clone, Copy, PartialEq, Eq, Structural)]
pub struct FramePacer {
    /// The shortest gap between two frames, in nanoseconds.
    pub interval: u64,
    /// When the last frame was let through.
    pub last: Option<u64>,
}

/// Whether a frame at `now` is due after one at `last`: the gap (zero when
/// the clock reads earlier) reaches the interval, or no frame ran yet.
pub open spec fn frame_due(last: Option<u64>, interval: u64, now: u64) -> bool {
    match last {
        Some(l) => (if now >= l { now - l } else { 0 }) >= interval,
        None => true,
    }
}

impl FramePacer {
    /// A pacer for `fps` frames per second that lets the first frame through.
    pub fn new(fps: u32) -> (p: Self)
        ensures
            p.interval == frame_interval(fps),
            p.last == None::<u64>,
    {
        FramePacer { interval: interval_for(fps), last: None }
    }

    /// Applies a new FPS cap.
    pub fn set_fps(&mut self, fps: u32)
        ensures
            final(self).interval == frame_interval(fps),
            final(self).last == old(self).last,
    {
        self.interval = interval_for(fps);
    }

    /// Whether a frame is due at `now`, recording it when so.
    pub fn due(&mut self, now: u64) -> (r: bool)
        ensures
            r == frame_due(old(self).last, old(self).interval, now),
            final(self).interval == old(self).interval,
            final(self).last == if r { Some(now) } else { old(self).last },
    {
        let due = match self.last {
            Some(last) => {
                let gap = if now >= last { now - last } else { 0 };
                gap >= self.interval
            },
            None => true,
        };
        if due {
            self.last = Some(now);
        }
        due
    }
}

/// Interleaved PCM waiting for the next animation tick.
#[derive(Debug, Clone)]
pub struct Feed<T> {
    pub pending: Vec<T>,
}

/// What the buffer holds after appending `samples`: everything, minus the
/// oldest beyond the cap.
pub open spec fn capped<T>(pending: Seq<T>, samples: Seq<T>) -> Seq<T> {
    let all = pending + samples;
    if samples.len() == 0 {
        pending
    } else if all.len() > MAX_PENDING {
        all.skip(all.len() - MAX_PENDING)
    } else {
        all
    }
}

impl<T: Copy> Feed<T> {
    /// An empty feed.
    pub fn new() -> (f: Self)
        ensures
            f.pending@ == Seq::<T>::empty(),
    {
        Feed { pending: Vec::new() }
    }

    /// Buffers `samples` after what is pending, dropping the oldest samples
    /// beyond [`MAX_PENDING`].
    pub fn push(&mut self, samples: &[T])
        requires
            old(self).pending@.len() + samples@.len() <= usize::MAX,
        ensures
            final(self).pending@ == capped(old(self).pending@, samples@),
    {
        if samples.len() == 0 {
            return;
        }
        let ghost before = self.pending@;
        let mut i: usize = 0;
        while i < samples.len()
            invariant
                i <= samples@.len(),
                before.len() + samples@.len() <= usize::MAX,
                self.pending@ == before + samples@.take(i as int),
            decreases samples@.len() - i,
        {
            self.pending.push(samples[i]);
            proof {
                assert(samples@.take(i + 1) =~= samples@.take(i as int).push(samples@[i as int]));
                assert(before + samples@.take(i + 1) =~= (before + samples@.take(i as int)).push(
                    samples@[i as int],
                ));
            }
            i = i + 1;
        }
        proof {
            assert(samples@.take(samples@.len() as int) =~= samples@);
        }
        if self.pending.len() > MAX_PENDING {
            let excess = self.pending.len() - MAX_PENDING;
            let kept = self.pending.split_off(excess);
            self.pending = kept;
        }
    }

    /// Buffers one block of `silence` samples, so the visualization keeps
    /// moving while nothing plays, dropping the oldest samples beyond
    /// [`MAX_PENDING`] as a push does.
    pub fn push_silence(&mut self, silence: T)
        requires
            old(self).pending@.len() + SILENCE_FRAMES <= usize::MAX,
        ensures
            final(self).pending@ == capped(
                old(self).pending@,
                Seq::new(SILENCE_FRAMES as nat, |i: int| silence),
            ),
    {
        let ghost before = self.pending@;
        let mut i: usize = 0;
        while i < SILENCE_FRAMES
            invariant
                i <= SILENCE_FRAMES,
                before.len() + SILENCE_FRAMES <= usize::MAX,
                self.pending@ == before + Seq::new(i as nat, |k: int| silence),
            decreases SILENCE_FRAMES - i,
        {
            self.pending.push(silence);
            proof {
                assert(before + Seq::new((i + 1) as nat, |k: int| silence) =~= (before + Seq::new(
                    i as nat,
                    |k: int| silence,
                )).push(silence));
            }
            i = i + 1;
        }
        if self.pending.len() > MAX_PENDING {
            let excess = self.pending.len() - MAX_PENDING;
            let kept = self.pending.split_off(excess);
            self.pending = kept;
        }
    }

    /// One tick's audio: the player's samples while it plays, a block of
    /// `silence` otherwise, so the visualization keeps moving.
    pub fn feed(&mut self, playing: bool, samples: &[T], silence: T)
        requires
            old(self).pending@.len() + samples@.len() <= usize::MAX,
            old(self).pending@.len() + SILENCE_FRAMES <= usize::MAX,
        ensures
            playing ==> final(self).pending@ == capped(old(self).pending@, samples@),
            !playing ==> final(self).pending@ == capped(
                old(self).pending@,
                Seq::new(SILENCE_FRAMES as nat, |i: int| silence),
            ),
    {
        if playing {
            self.push(samples);
        } else {
            self.push_silence(silence);
        }
    }

    /// Takes everything buffered since the last call, oldest first.
    pub fn take(&mut self) -> (taken: Vec<T>)
        ensures
            taken@ == old(self).pending@,
            final(self).pending@ == Seq::<T>::empty(),
    {
        let mut taken: Vec<T> = Vec::new();
        std::mem::swap(&mut taken, &mut self.pending);
        taken
    }
}

/// Taking right after a push hands back the pending samples followed by the
/// pushed ones, oldest first, when they fit under the cap.
pub proof fn lemma_take_returns_oldest_first<T>(pending: Seq<T>, samples: Seq<T>)
    requires
        pending.len() + samples.len() <= MAX_PENDING,
    ensures
        capped(pending, samples) == pending + samples,
{
    if samples.len() == 0 {
        assert(pending + samples =~= pending);
    }
}

/// The buffer never grows past the cap through a push (of samples or of
/// silence), and always ends with the newest samples.
pub proof fn lemma_push_is_capped<T>(pending: Seq<T>, samples: Seq<T>)
    requires
        pending.len() <= MAX_PENDING,
        samples.len() > 0,
    ensures
        capped(pending, samples).len() <= MAX_PENDING,
        samples.len() <= MAX_PENDING ==> capped(pending, samples).skip(
            capped(pending, samples).len() - samples.len(),
        ) == samples,
{
    let all = pending + samples;
    if samples.len() <= MAX_PENDING {
        if all.len() > MAX_PENDING {
            let c = all.skip(all.len() - MAX_PENDING);
            assert(c.skip(c.len() - samples.len()) =~= samples);
        } else {
            assert(all.skip(all.len() - samples.len()) =~= samples);
        }
    }
}

/// After a frame at `last`, a frame is rejected until a whole interval has
/// passed, and let through from then on; a cap of zero paces at one frame
/// per second, and the interval is never zero.
pub proof fn lemma_pacer_interval(fps: u32, last: u64, now: u64)
    ensures
        fps == 0 ==> frame_interval(fps) == NANOS_PER_SEC,
        frame_interval(fps) > 0,
        now >= last ==> (frame_due(Some(last), frame_interval(fps), now) <==> now - last
            >= frame_interval(fps)),
{
    if 0 < fps <= NANOS_PER_SEC {
        assert(NANOS_PER_SEC / (fps as u64) >= 1) by (nonlinear_arith)
            requires
                1 <= fps <= 1_000_000_000u64,
                NANOS_PER_SEC == 1_000_000_000u64,
        ;
    }
}

} // verus!

//! The schedule of the noise source: it hands out a stereo stream one sample
//! at a time, left then right, and re-reads the processing settings once every
//! so many frames instead of on every sample.

use vstd::prelude::*;

verus! {

/// How many frames pass between two readings of the processing settings.
pub const CONFIG_UPDATE_INTERVAL: u32 = 256;

/// What the source does for the next sample it is asked for.
#[derive(Debug, Clone, Copy, PartialEq, Eq)]
pub enum SourceStep<T> {
    /// Hand out this sample, the right half of the frame made last time.
    Emit(T),
    /// Make a new frame; re-read the settings first when `refresh_config` is set.
    Generate { refresh_config: bool },
}

/// The frame counter after one more frame: it wraps to zero when it reaches the interval.
pub open spec fn counter_after_frame(count: nat, interval: nat) -> nat {
    if count + 1 >= interval {
        0
    } else {
        (count + 1) as nat
    }
}

/// The frame counter after `frames` frames, starting from zero.
pub open spec fn counter_after_frames(frames: nat, interval: nat) -> nat
    decreases frames,
{
    if frames == 0 {
        0
    } else {
        counter_after_frame(counter_after_frames((frames - 1) as nat, interval), interval)
    }
}

/// The state of a stereo source between samples.
pub struct FrameSchedule<T> {
    pending_right: Option<T>,
    samples_since_last_update: u32,
    config_update_interval: u32,
}

impl<T> FrameSchedule<T> {
    /// The right sample waiting to be handed out, if any.
    pub closed spec fn pending(self) -> Option<T> {
        self.pending_right
    }

    /// Frames made since the settings were last read.
    pub closed spec fn frames_since_update(self) -> nat {
        self.samples_since_last_update as nat
    }

    /// Frames between two readings of the settings.
    pub closed spec fn interval(self) -> nat {
        self.config_update_interval as nat
    }

    /// The counter stays below the interval, and the interval is not zero.
    pub closed spec fn well_formed(self) -> bool {
        self.samples_since_last_update < self.config_update_interval
    }

    /// A fresh source: no sample waiting, no frame made yet.
    pub fn new() -> (s: Self)
        ensures
            s.well_formed(),
            s.pending() is None,
            s.frames_since_update() == 0,
            s.interval() == CONFIG_UPDATE_INTERVAL,
    {
        FrameSchedule {
            pending_right: None,
            samples_since_last_update: 0,
            config_update_interval: CONFIG_UPDATE_INTERVAL,
        }
    }

    /// Decides what to do for the next sample. A waiting right sample is handed
    /// out first; otherwise a new frame is due, and every `interval`-th frame
    /// re-reads the settings.
    pub fn next_step(&mut self) -> (step: SourceStep<T>)
        requires
            old(self).well_formed(),
        ensures
            final(self).well_formed(),
            final(self).interval() == old(self).interval(),
            final(self).pending() is None,
            match old(self).pending() {
                Some(x) => {
                    &&& step == SourceStep::<T>::Emit(x)
                    &&& final(self).frames_since_update() == old(self).frames_since_update()
                },
                None => {
                    &&& step == SourceStep::<T>::Generate {
                        refresh_config: old(self).frames_since_update() + 1 >= old(self).interval(),
                    }
                    &&& final(self).frames_since_update() == counter_after_frame(
                        old(self).frames_since_update(),
                        old(self).interval(),
                    )
                },
            },
    {
        if let Some(cached) = self.pending_right.take() {
            return SourceStep::Emit(cached);
        }
        self.samples_since_last_update = self.samples_since_last_update + 1;
        let refresh = self.samples_since_last_update >= self.config_update_interval;
        if refresh {
            self.samples_since_last_update = 0;
        }
        SourceStep::Generate { refresh_config: refresh }
    }

    /// Takes a new frame: keeps the right sample for the next call and returns
    /// the left one to hand out now.
    pub fn deliver_frame(&mut self, left: T, right: T) -> (out: T)
        requires
            old(self).pending() is None,
        ensures
            out == left,
            final(self).pending() == Some(right),
            final(self).frames_since_update() == old(self).frames_since_update(),
            final(self).interval() == old(self).interval(),
            old(self).well_formed() ==> final(self).well_formed(),
    {
        self.pending_right = Some(right);
        left
    }
}

/// Counting frames from a fresh source, the counter after `n` frames is `n`
/// modulo the interval, so the settings are re-read exactly on every
/// interval-th frame.
pub proof fn lemma_refresh_every_interval(n: nat, interval: nat)
    requires
        interval > 0,
    ensures
        counter_after_frames(n, interval) == n % interval,
        (counter_after_frames(n, interval) + 1 >= interval) <==> ((n + 1) % interval == 0),
    decreases n,
{
    if n > 0 {
        lemma_refresh_every_interval((n - 1) as nat, interval);
        lemma_mod_successor((n - 1) as int, interval as int);
    }
    lemma_mod_successor(n as int, interval as int);
}

/// Adding one to a number adds one to its remainder, or wraps it to zero.
proof fn lemma_mod_successor(m: int, d: int)
    requires
        m >= 0,
        d > 0,
    ensures
        (m + 1) % d == if m % d + 1 >= d {
            0
        } else {
            m % d + 1
        },
{
    let q = m / d;
    let r = m % d;
    vstd::arithmetic::div_mod::lemma_fundamental_div_mod(m, d);
    assert(0 <= r < d);
    if r + 1 >= d {
        assert(m + 1 == (q + 1) * d + 0) by (nonlinear_arith)
            requires
                m == d * q + r,
                r + 1 == d,
        ;
        vstd::arithmetic::div_mod::lemma_fundamental_div_mod_converse(m + 1, d, q + 1, 0);
    } else {
        assert(m + 1 == q * d + (r + 1)) by (nonlinear_arith)
            requires
                m == d * q + r,
        ;
        vstd::arithmetic::div_mod::lemma_fundamental_div_mod_converse(m + 1, d, q, r + 1);
    }
}

} // verus!

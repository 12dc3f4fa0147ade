//! The state shown by the floating overlay: the live waveform while
//! recording, a status label while processing, a fade-out when done.
//!
//! The drawing (with its floating-point geometry and colours) is done by the
//! program around the library; the samples are generic here.
use std::collections::VecDeque;
use vstd::prelude::*;

verus! {

/// Rolling buffer size: about 0.5 s of 16 kHz mono, enough for a smooth
/// waveform.
pub const SAMPLE_CAP: usize = 8_000;

/// What the overlay shows.
#[derive(Debug)]
pub enum OverlayPhase {
    Hidden,
    Recording,
    Processing { label: String },
    /// Fading out since this time, in milliseconds on a monotonic clock.
    FadingOut { started_ms: u64 },
}

/// The overlay's state, shared by the audio capture, the event loop and the
/// window.
pub struct OverlayState<T> {
    pub phase: OverlayPhase,
    /// Recent raw audio samples for the waveform.
    pub samples: VecDeque<T>,
    /// Set once the event loop is done, so the window can close.
    pub quit: bool,
}

/// The rolling buffer after one more sample: at capacity the oldest sample
/// goes first.
pub open spec fn push_one<T>(s: Seq<T>, x: T) -> Seq<T> {
    if s.len() >= SAMPLE_CAP {
        s.drop_first().push(x)
    } else {
        s.push(x)
    }
}

/// The rolling buffer after pushing each of `data` in turn.
pub open spec fn push_all<T>(s: Seq<T>, data: Seq<T>) -> Seq<T>
    decreases data.len(),
{
    if data.len() == 0 {
        s
    } else {
        push_all(push_one(s, data[0]), data.drop_first())
    }
}

/// The last `SAMPLE_CAP` samples of a sequence (all of them if fewer).
pub open spec fn window<T>(s: Seq<T>) -> Seq<T> {
    if s.len() > SAMPLE_CAP {
        s.skip(s.len() - SAMPLE_CAP)
    } else {
        s
    }
}

/// Pushing samples into a buffer within capacity leaves exactly the most
/// recent `SAMPLE_CAP` of all samples seen.
pub proof fn lemma_push_keeps_latest<T>(s: Seq<T>, data: Seq<T>)
    requires
        s.len() <= SAMPLE_CAP,
    ensures
        push_all(s, data) == window(s + data),
    decreases data.len(),
{
    if data.len() > 0 {
        let s1 = push_one(s, data[0]);
        assert(s1 == window(s.push(data[0]))) by {
            if s.len() >= SAMPLE_CAP {
                assert(s.push(data[0]).skip(s.push(data[0]).len() - SAMPLE_CAP) =~= s.drop_first().push(
                    data[0],
                ));
            }
        }
        lemma_push_keeps_latest(s1, data.drop_first());
        let all = s + data;
        let rest = s.push(data[0]);
        assert(all =~= rest + data.drop_first());
        assert(window(s1 + data.drop_first()) =~= window(rest + data.drop_first()));
    } else {
        assert(s + data =~= s);
    }
}

impl<T: Copy> OverlayState<T> {
    pub fn new() -> (r: Self)
        ensures
            r.phase is Hidden,
            r.samples@.len() == 0,
            !r.quit,
    {
        OverlayState { phase: OverlayPhase::Hidden, samples: VecDeque::new(), quit: false }
    }

    /// Push raw audio samples into the rolling waveform buffer.
    pub fn push_samples(&mut self, data: &[T])
        ensures
            final(self).samples@ == push_all(old(self).samples@, data@),
            final(self).phase == old(self).phase,
            final(self).quit == old(self).quit,
    {
        let mut i: usize = 0;
        assert(data@.skip(0) =~= data@);
        while i < data.len()
            invariant
                i <= data@.len(),
                push_all(old(self).samples@, data@) == push_all(self.samples@, data@.skip(i as int)),
                self.phase == old(self).phase,
                self.quit == old(self).quit,
            decreases data@.len() - i,
        {
            let ghost before = self.samples@;
            let x = data[i];
            if self.samples.len() >= SAMPLE_CAP {
                self.samples.pop_front();
            }
            self.samples.push_back(x);
            proof {
                assert(self.samples@ =~= push_one(before, x));
                assert(data@.skip(i as int).drop_first() =~= data@.skip(i + 1));
            }
            i = i + 1;
        }
        proof {
            assert(data@.skip(i as int) =~= Seq::<T>::empty());
        }
    }

    /// Show the live waveform, starting from an empty buffer.
    pub fn set_recording(&mut self)
        ensures
            final(self).phase is Recording,
            final(self).samples@.len() == 0,
            final(self).quit == old(self).quit,
    {
        self.samples.clear();
        self.phase = OverlayPhase::Recording;
    }

    /// Show a status label.
    pub fn set_processing(&mut self, label: &str)
        ensures
            final(self).phase matches OverlayPhase::Processing { label: l } && l@ == label@,
            final(self).samples@.len() == 0,
            final(self).quit == old(self).quit,
    {
        self.samples.clear();
        self.phase = OverlayPhase::Processing { label: label.to_string() };
    }

    /// Start fading out at `now_ms`, unless hidden or already fading.
    pub fn start_fade_out(&mut self, now_ms: u64)
        ensures
            (old(self).phase is Hidden || old(self).phase is FadingOut) ==> final(self).phase
                == old(self).phase,
            !(old(self).phase is Hidden || old(self).phase is FadingOut) ==> final(self).phase
                == (OverlayPhase::FadingOut { started_ms: now_ms }),
            final(self).samples == old(self).samples,
            final(self).quit == old(self).quit,
    {
        match self.phase {
            OverlayPhase::Hidden | OverlayPhase::FadingOut { .. } => {},
            _ => {
                self.phase = OverlayPhase::FadingOut { started_ms: now_ms };
            },
        }
    }

    /// Hide the overlay and forget the samples.
    pub fn conceal(&mut self)
        ensures
            final(self).phase is Hidden,
            final(self).samples@.len() == 0,
            final(self).quit == old(self).quit,
    {
        self.phase = OverlayPhase::Hidden;
        self.samples.clear();
    }
}

} // verus!

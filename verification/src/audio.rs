//! Bookkeeping of microphone capture: how much a recording may hold, and
//! appending captured samples up to that bound.
//!
//! The capture itself, the downmix to mono and the resampling to 16 kHz work
//! on floating-point samples and are done by the program around the library.
use vstd::prelude::*;

verus! {

/// The longest recording, in seconds; capture stops growing after it.
pub const DEFAULT_MAX_SECS: u64 = 120;

/// How many interleaved samples a recording of `max_secs` holds at most.
pub fn recording_capacity(sample_rate: u32, channels: u16, max_secs: u64) -> (r: u64)
    requires
        sample_rate * channels * max_secs <= u64::MAX,
    ensures
        r == sample_rate * channels * max_secs,
{
    proof {
        assert(sample_rate * channels <= 0xFFFF_FFFFu64 * 0xFFFFu64) by (nonlinear_arith)
            requires
                sample_rate <= 0xFFFF_FFFFu64,
                channels <= 0xFFFFu64,
        ;
    }
    let sc: u64 = (sample_rate as u64) * (channels as u64);
    proof {
        assert(sc * max_secs == sample_rate * channels * max_secs) by (nonlinear_arith)
            requires
                sc == sample_rate * channels,
        ;
        assert(0 <= sc * max_secs);
    }
    sc * max_secs
}

/// The buffer after appending `data` while keeping at most `max` samples:
/// as much of `data` as fits, from its start.
pub open spec fn appended<T>(buffer: Seq<T>, data: Seq<T>, max: nat) -> Seq<T> {
    if buffer.len() >= max {
        buffer
    } else if data.len() <= max - buffer.len() {
        buffer + data
    } else {
        buffer + data.take(max - buffer.len())
    }
}

/// Append captured samples to the recording, never letting it grow past
/// `max_samples`.
pub fn append_samples<T: Copy>(data: &[T], buffer: &mut Vec<T>, max_samples: usize)
    ensures
        final(buffer)@ == appended(old(buffer)@, data@, max_samples as nat),
{
    if buffer.len() >= max_samples {
        return;
    }
    let remaining = max_samples - buffer.len();
    let to_append = if data.len() < remaining {
        data.len()
    } else {
        remaining
    };
    let mut i: usize = 0;
    while i < to_append
        invariant
            i <= to_append <= data@.len(),
            buffer@ == old(buffer)@ + data@.take(i as int),
        decreases to_append - i,
    {
        buffer.push(data[i]);
        proof {
            assert(data@.take(i + 1) =~= data@.take(i as int).push(data@[i as int]));
        }
        i = i + 1;
    }
    proof {
        if data@.len() <= remaining {
            assert(data@.take(to_append as int) =~= data@);
        }
    }
}

/// A recording never holds more than its bound once it is within it.
pub proof fn lemma_append_keeps_bound<T>(buffer: Seq<T>, data: Seq<T>, max: nat)
    requires
        buffer.len() <= max,
    ensures
        appended(buffer, data, max).len() <= max,
        appended(buffer, data, max).take(buffer.len() as int) == buffer,
{
    assert(appended(buffer, data, max).take(buffer.len() as int) =~= buffer);
}

} // verus!

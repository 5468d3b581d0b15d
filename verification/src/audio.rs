use vstd::prelude::*;

verus! {

/// How long a recording has run: its samples over the samples per
/// millisecond (rate times channels).
pub fn capture_duration_ms(samples: u64, sample_rate: u32, channels: u16) -> (r: u64)
    requires
        sample_rate as int * channels as int > 0,
        samples as int * 1000 <= u64::MAX,
    ensures
        r as int == (samples as int * 1000) / (sample_rate as int * channels as int),
{
    assert(sample_rate as int * channels as int <= 0xFFFF_FFFFint * 0xFFFFint) by (nonlinear_arith)
        requires
            sample_rate <= 0xFFFF_FFFFu32,
            channels <= 0xFFFFu16,
    ;
    let per: u64 = sample_rate as u64 * channels as u64;
    samples * 1000 / per
}

/// How many samples a recording may hold: rate times channels times the
/// longest recording in seconds (taken as 32 bits), computed in 32 bits.
pub fn max_samples(sample_rate: u32, channels: u16, max_record_seconds: u64) -> (r: u32)
    requires
        sample_rate as int * channels as int <= u32::MAX,
        sample_rate as int * channels as int * (max_record_seconds as u32) as int <= u32::MAX,
    ensures
        r as int == sample_rate as int * channels as int * (max_record_seconds as u32) as int,
{
    let secs: u32 = max_record_seconds as u32;
    let a: u32 = sample_rate * (channels as u32);
    a * secs
}

/// Appends what fits of `data` to the recording buffer, which never grows
/// beyond `max` samples.
pub fn push_capped<T: Copy>(buffer: &mut Vec<T>, data: &[T], max: usize)
    ensures
        ({
            let room: int = if old(buffer)@.len() < max {
                max - old(buffer)@.len()
            } else {
                0
            };
            let take: int = if data@.len() < room {
                data@.len() as int
            } else {
                room
            };
            final(buffer)@ == old(buffer)@ + data@.take(take)
        }),
{
    let room: usize = if buffer.len() < max {
        max - buffer.len()
    } else {
        0
    };
    let take: usize = if data.len() < room {
        data.len()
    } else {
        room
    };
    let ghost start = buffer@;
    for i in 0..take
        invariant
            take <= data@.len(),
            buffer@ == start + data@.take(i as int),
    {
        buffer.push(data[i]);
        assert(data@.take(i + 1) == data@.take(i as int).push(data@[i as int]));
    }
}

/// Whether a range of sample rates includes 16 kHz.
pub open spec fn has_16k(range: (u32, u32)) -> bool {
    range.0 <= 16000 <= range.1
}

/// The first supported range of input sample rates that includes 16 kHz.
pub fn range_with_16k(ranges: &[(u32, u32)]) -> (r: Option<usize>)
    ensures
        r matches Some(i) ==> i < ranges@.len() && has_16k(ranges@[i as int]) && forall|j: int| 0 <= j < i ==> !has_16k(#[trigger] ranges@[j]),
        r is None ==> forall|j: int| 0 <= j < ranges@.len() ==> !has_16k(#[trigger] ranges@[j]),
{
    let n = ranges.len();
    for i in 0..n
        invariant
            n == ranges@.len(),
            forall|j: int| 0 <= j < i ==> !has_16k(#[trigger] ranges@[j]),
    {
        if ranges[i].0 <= 16000 && 16000 <= ranges[i].1 {
            return Some(i);
        }
    }
    None
}

} // verus!

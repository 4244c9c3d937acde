use vstd::prelude::*;
use crate::error::LibraryError;
use crate::extension::{is_flac_name, is_flac_path};
use crate::outside::{decode_flac, flac_header_valid, flac_samples, flac_stream_info, open_flac};

verus! {

/// The streaminfo fields as the container stores them.
#[derive(Clone, Copy, Debug, PartialEq, Eq, Structural)]
pub struct RawStreamInfo {
    pub sample_rate: u32,
    pub channels: u32,
    pub bits_per_sample: u32,
    pub samples: Option<u64>,
}

impl RawStreamInfo {
    /// The ranges that the streaminfo block's fields can take.
    pub open spec fn in_range(&self) -> bool {
        &&& 1 <= self.sample_rate <= 655350
        &&& 1 <= self.channels <= 8
        &&& 1 <= self.bits_per_sample <= 32
        &&& self.samples matches Some(n) ==> 0 < n < 0x1_0000_0000_0u64
    }
}

/// Structural parameters of an audio stream.
#[derive(Clone, Copy, Debug, PartialEq, Eq, Structural)]
pub struct AudioStreamInfo {
    pub sample_rate: u32,
    pub channels: u8,
    pub bits_per_sample: u8,
    /// Inter-channel samples, when the container declares them.
    pub total_samples: Option<u64>,
}

/// The stream parameters that a streaminfo block gives.
pub open spec fn info_of(raw: RawStreamInfo) -> AudioStreamInfo {
    AudioStreamInfo {
        sample_rate: raw.sample_rate,
        channels: raw.channels as u8,
        bits_per_sample: raw.bits_per_sample as u8,
        total_samples: raw.samples,
    }
}

/// Narrows the streaminfo fields to the widths of `AudioStreamInfo`.
pub fn stream_info_from(raw: &RawStreamInfo) -> (r: AudioStreamInfo)
    requires
        raw.in_range(),
    ensures
        r == info_of(*raw),
        r.channels as u32 == raw.channels,
        r.bits_per_sample as u32 == raw.bits_per_sample,
{
    AudioStreamInfo {
        sample_rate: raw.sample_rate,
        channels: raw.channels as u8,
        bits_per_sample: raw.bits_per_sample as u8,
        total_samples: raw.samples,
    }
}

/// Reads the stream parameters of a FLAC container from its bytes.
pub fn read_stream_info(bytes: &[u8]) -> (r: Result<AudioStreamInfo, LibraryError>)
    ensures
        flac_header_valid(bytes@) ==> r == Ok::<AudioStreamInfo, LibraryError>(
            info_of(flac_stream_info(bytes@)),
        ),
        !flac_header_valid(bytes@) ==> r == Err::<AudioStreamInfo, LibraryError>(
            LibraryError::FormatError,
        ),
        r matches Ok(i) ==> 1 <= i.sample_rate <= 655350 && 1 <= i.channels <= 8 && 1
            <= i.bits_per_sample <= 32,
{
    match open_flac(bytes) {
        Ok(raw) => Ok(stream_info_from(&raw)),
        Err(_) => Err(LibraryError::FormatError),
    }
}

/// Whole milliseconds in `samples` at `rate` per second, rounded down; a
/// length beyond `u64` stays at its largest value.
pub open spec fn millis(samples: u64, rate: u32) -> u64
    recommends
        rate > 0,
{
    let ms = samples as int * 1000 / rate as int;
    if ms > u64::MAX {
        u64::MAX
    } else {
        ms as u64
    }
}

/// The duration, known only when the sample count is and the rate is not 0.
pub open spec fn duration_of(total_samples: Option<u64>, sample_rate: u32) -> Option<u64> {
    match total_samples {
        Some(n) => if sample_rate > 0 {
            Some(millis(n, sample_rate))
        } else {
            None
        },
        None => None,
    }
}

/// The duration in milliseconds of `total_samples` at `sample_rate`.
pub fn duration_ms(total_samples: Option<u64>, sample_rate: u32) -> (r: Option<u64>)
    ensures
        r == duration_of(total_samples, sample_rate),
{
    match total_samples {
        Some(n) => {
            if sample_rate == 0 {
                return None;
            }
            let ms: u128 = (n as u128) * 1000 / (sample_rate as u128);
            if ms > u64::MAX as u128 {
                Some(u64::MAX)
            } else {
                Some(ms as u64)
            }
        },
        None => None,
    }
}

/// A fully decoded stream: its parameters and its interleaved samples.
#[derive(Clone, Debug)]
pub struct PcmBuffer {
    pub sample_rate: u32,
    pub channels: u8,
    pub bits_per_sample: u8,
    /// Inter-channel samples: declared by the container, or counted.
    pub total_samples: u64,
    /// Samples in frame-major order, channel 0 first within each instant.
    pub pcm: Vec<i32>,
}

impl View for PcmBuffer {
    /// Sample rate, channels, bits per sample, sample count and samples.
    type V = (u32, u8, u8, u64, Seq<i32>);

    open spec fn view(&self) -> (u32, u8, u8, u64, Seq<i32>) {
        (self.sample_rate, self.channels, self.bits_per_sample, self.total_samples, self.pcm@)
    }
}

/// The buffer that a stream with these parameters and samples decodes to.
pub open spec fn pcm_of(info: AudioStreamInfo, samples: Seq<i32>) -> (u32, u8, u8, u64, Seq<i32>)
    recommends
        info.channels > 0,
{
    (info.sample_rate, info.channels, info.bits_per_sample, total_of(info, samples.len()), samples)
}

/// The sample count of a buffer: the declared one, else the number of whole
/// instants in the decoded samples.
pub open spec fn total_of(info: AudioStreamInfo, decoded: nat) -> u64
    recommends
        info.channels > 0,
{
    match info.total_samples {
        Some(n) => n,
        None => (decoded / info.channels as nat) as u64,
    }
}

/// Builds the buffer of a decoded stream from its parameters and samples.
pub fn assemble_pcm(info: AudioStreamInfo, samples: Vec<i32>) -> (r: PcmBuffer)
    requires
        info.channels > 0,
    ensures
        r@ == pcm_of(info, samples@),
{
    let total_samples = match info.total_samples {
        Some(n) => n,
        None => (samples.len() / (info.channels as usize)) as u64,
    };
    PcmBuffer {
        sample_rate: info.sample_rate,
        channels: info.channels,
        bits_per_sample: info.bits_per_sample,
        total_samples,
        pcm: samples,
    }
}

/// Decodes every frame of the FLAC file named `path`, whose contents are
/// `bytes`, into one interleaved buffer.
///
/// A name without the `flac` extension is refused before the decoder is
/// opened; an unreadable header is a format error; a frame that fails to
/// decode fails the whole call.
pub fn decode_to_pcm(path: &str, bytes: &[u8]) -> (r: Result<PcmBuffer, LibraryError>)
    ensures
        !is_flac_name(path@) ==> r == Err::<PcmBuffer, LibraryError>(LibraryError::InvalidFormat),
        is_flac_name(path@) && !flac_header_valid(bytes@) ==> r == Err::<PcmBuffer, LibraryError>(
            LibraryError::FormatError,
        ),
        is_flac_name(path@) && flac_header_valid(bytes@) && flac_samples(bytes@) is None ==> r
            == Err::<PcmBuffer, LibraryError>(LibraryError::DecodeError),
        is_flac_name(path@) && flac_header_valid(bytes@) && flac_samples(bytes@) is Some ==> (r matches Ok(p)
            && p.view() == pcm_of(info_of(flac_stream_info(bytes@)), flac_samples(bytes@).unwrap())),
        r matches Ok(p) ==> 1 <= p.sample_rate <= 655350 && 1 <= p.channels <= 8 && 1
            <= p.bits_per_sample <= 32,
{
    if !is_flac_path(path) {
        return Err(LibraryError::InvalidFormat);
    }
    match decode_flac(bytes) {
        Err(_) => Err(LibraryError::FormatError),
        Ok((raw, decoded)) => {
            let info = stream_info_from(&raw);
            match decoded {
                Err(_) => Err(LibraryError::DecodeError),
                Ok(samples) => Ok(assemble_pcm(info, samples)),
            }
        },
    }
}

} // verus!

verus! {

/// A decoded buffer reports the sample count that the header declares; when
/// the header declares none, the count is the number of whole instants in the
/// buffer, so that count times the channels never exceeds its length and
/// falls short of it by less than one instant.
pub proof fn lemma_total_samples(info: AudioStreamInfo, samples: Seq<i32>)
    requires
        info.channels > 0,
        samples.len() <= u64::MAX,
    ensures
        info.total_samples matches Some(n) ==> pcm_of(info, samples).3 == n,
        info.total_samples is None ==> {
            let t = pcm_of(info, samples).3 as int;
            let c = info.channels as int;
            t * c <= samples.len() < (t + 1) * c
        },
{
    if info.total_samples is None {
        let c = info.channels as int;
        let len = samples.len() as int;
        let q = len / c;
        assert(q * c <= len < (q + 1) * c) by (nonlinear_arith)
            requires
                c > 0,
                len >= 0,
                q == len / c,
        ;
        assert(q <= len) by (nonlinear_arith)
            requires
                c > 0,
                len >= 0,
                q == len / c,
        ;
    }
}

/// One second of samples at a rate lasts exactly a thousand milliseconds.
pub proof fn lemma_one_second(rate: u32)
    requires
        rate > 0,
    ensures
        duration_of(Some(rate as u64), rate) == Some(1000u64),
{
    let r = rate as int;
    assert(r * 1000 / r == 1000) by (nonlinear_arith)
        requires
            r > 0,
    ;
}

} // verus!

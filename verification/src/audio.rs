//! Recording: the errors, the shape of the path from captured samples to a clip
//! of 16 kHz mono, and which part of a clip holds speech.
//!
//! Captured samples are floating point and handled by the caller; this module
//! counts and places them. Speech is looked for in 16-bit samples.

use vstd::prelude::*;

use crate::config::prefixed;

verus! {

/// The sample rate of a finished clip.
pub const TARGET_RATE: u32 = 16_000;

/// Why a clip could not be recorded.
#[derive(Debug, PartialEq, Eq)]
pub enum AudioError {
    NoInputDevice,
    Config(String),
    BuildStream(String),
    PlayStream(String),
    Resample(String),
}

/// What an [`AudioError`] says to the user.
pub open spec fn audio_error_text(e: AudioError) -> Seq<char> {
    match e {
        AudioError::NoInputDevice => "no default input (microphone) device available"@,
        AudioError::Config(m) => "audio config error: "@ + m@,
        AudioError::BuildStream(m) => "failed to build input stream: "@ + m@,
        AudioError::PlayStream(m) => "failed to start input stream: "@ + m@,
        AudioError::Resample(m) => "resampling failed: "@ + m@,
    }
}

impl AudioError {
    /// What this error says to the user.
    pub fn message(&self) -> (r: String)
        ensures
            r@ == audio_error_text(*self),
    {
        match self {
            AudioError::NoInputDevice => "no default input (microphone) device available".to_owned(),
            AudioError::Config(m) => prefixed("audio config error: ", m.as_str()),
            AudioError::BuildStream(m) => prefixed("failed to build input stream: ", m.as_str()),
            AudioError::PlayStream(m) => prefixed("failed to start input stream: ", m.as_str()),
            AudioError::Resample(m) => prefixed("resampling failed: ", m.as_str()),
        }
    }
}

// ---- Downmixing ------------------------------------------------------------

/// The number of channels to average; a device that reports none has one.
pub open spec fn channel_count(channels: u16) -> int {
    if channels == 0 {
        1
    } else {
        channels as int
    }
}

/// Where the frames of an interleaved buffer lie: frame `i` is
/// `[i * channels, (i + 1) * channels)`. An incomplete last frame is left out.
pub fn frame_layout(interleaved_len: usize, channels: u16) -> (r: (usize, usize))
    ensures
        r.0 == channel_count(channels),
        r.1 == interleaved_len as int / channel_count(channels),
        r.0 * r.1 <= interleaved_len < r.0 * (r.1 + 1),
{
    let per_frame: usize = if channels == 0 {
        1
    } else {
        channels as usize
    };
    let frames: usize = interleaved_len / per_frame;
    proof {
        let n = interleaved_len as int;
        let c = per_frame as int;
        assert(c * (n / c) <= n < c * (n / c + 1)) by (nonlinear_arith)
            requires
                c > 0,
        ;
    }
    (per_frame, frames)
}

// ---- Resampling ------------------------------------------------------------

/// How a mono clip gets to the target rate.
#[derive(Debug, Clone, Copy, PartialEq, Eq, Structural)]
pub enum Resampling {
    /// There is nothing to convert.
    Empty,
    /// The clip is at the target rate already.
    Passthrough,
    /// The clip has to be converted.
    Convert,
}

/// How a mono clip of `len` samples at `src_rate` gets to the target rate.
pub fn resampling_for(len: usize, src_rate: u32) -> (r: Resampling)
    ensures
        r == (if len == 0 {
            Resampling::Empty
        } else if src_rate == TARGET_RATE {
            Resampling::Passthrough
        } else {
            Resampling::Convert
        }),
{
    if len == 0 {
        Resampling::Empty
    } else if src_rate == TARGET_RATE {
        Resampling::Passthrough
    } else {
        Resampling::Convert
    }
}

/// How far a conversion in chunks has come.
#[derive(Debug, Clone, Copy, PartialEq, Eq)]
pub struct ChunkCursor {
    /// Input frames consumed.
    pub input_offset: usize,
    /// Output frames produced.
    pub output_offset: usize,
    /// Input frames left.
    pub left: usize,
}

impl ChunkCursor {
    /// Whether this is a position in an input of `total` frames.
    pub open spec fn within(self, total: int) -> bool {
        self.input_offset + self.left == total
    }

    /// The start of an input of `total` frames.
    pub fn start(total: usize) -> (r: ChunkCursor)
        ensures
            r.within(total as int),
            r.input_offset == 0 && r.output_offset == 0 && r.left == total,
    {
        ChunkCursor { input_offset: 0, output_offset: 0, left: total }
    }

    /// Whether a whole chunk of `next` frames can still be fed.
    pub fn has_chunk(&self, next: usize) -> (r: bool)
        ensures
            r == (self.left >= next),
    {
        self.left >= next
    }

    /// Goes on past a chunk that consumed and produced so many frames. `None` if
    /// these are more than are left or can be counted.
    pub fn advance(&self, consumed: usize, produced: usize) -> (r: Option<ChunkCursor>)
        ensures
            r is Some <==> consumed <= self.left && self.input_offset + consumed <= usize::MAX
                && self.output_offset + produced <= usize::MAX,
            r matches Some(c) ==> c.input_offset == self.input_offset + consumed && c.output_offset
                == self.output_offset + produced && c.left == self.left - consumed,
            r matches Some(c) ==> forall|total: int| #[trigger]
                self.within(total) ==> c.within(total),
    {
        if consumed > self.left {
            return None;
        }
        match self.input_offset.checked_add(consumed) {
            None => None,
            Some(i) => match self.output_offset.checked_add(produced) {
                None => None,
                Some(o) => Some(
                    ChunkCursor { input_offset: i, output_offset: o, left: self.left - consumed },
                ),
            },
        }
    }
}

/// Room for the output of a conversion: the expected frames twice, and slack for
/// the delay and the padded last chunk. `None` if that cannot be counted.
pub fn output_capacity(expected: usize) -> (r: Option<usize>)
    ensures
        r is Some <==> 2 * expected + 4096 <= usize::MAX,
        r matches Some(n) ==> n == 2 * expected + 4096,
{
    match expected.checked_mul(2) {
        None => None,
        Some(twice) => twice.checked_add(4096),
    }
}

/// The part of the output that is kept: the resampler's delay is cut off the
/// front, and what follows is limited to the expected frames and the buffer.
pub fn trim_window(delay: usize, expected: usize, len: usize) -> (r: (usize, usize))
    ensures
        r.0 == (if delay <= len {
            delay as int
        } else {
            len as int
        }),
        r.1 == (if r.0 + expected <= len {
            r.0 + expected
        } else {
            len as int
        }),
        r.0 <= r.1 <= len,
{
    let start: usize = if delay <= len {
        delay
    } else {
        len
    };
    let end: usize = if expected <= len - start {
        start + expected
    } else {
        len
    };
    (start, end)
}

// ---- Trimming silence -------------------------------------------------------

/// Samples in a stretch that is judged to be speech or silence: 30 ms.
pub const VAD_FRAME: usize = 480;

/// The number of stretches in a clip; the last may be incomplete.
pub open spec fn stretches(len: int) -> int {
    (len + VAD_FRAME - 1) / VAD_FRAME as int
}

/// The number of stretches in a clip; the last may be incomplete.
pub fn vad_frames(len: usize) -> (r: usize)
    ensures
        r == stretches(len as int),
{
    let whole: usize = len / VAD_FRAME;
    if len % VAD_FRAME == 0 {
        whole
    } else {
        whole + 1
    }
}

/// Whether `[span.0, span.1)` is the part of a clip of `len` samples from the
/// first stretch of speech to the last, the last as far as it goes.
pub open spec fn is_voiced_span(speech: Seq<bool>, len: int, span: (int, int)) -> bool {
    if speech.contains(true) {
        exists|first: int, last: int| #[trigger]
            are_ends(speech, first, last) && span.0 == first * VAD_FRAME && span.1 == if (last + 1)
                * VAD_FRAME <= len {
                (last + 1) * VAD_FRAME
            } else {
                len
            }
    } else {
        span == (0int, 0int)
    }
}

/// Whether `first` and `last` are the first and the last stretch of speech.
pub open spec fn are_ends(speech: Seq<bool>, first: int, last: int) -> bool {
    &&& 0 <= first <= last < speech.len()
    &&& speech[first] && speech[last]
    &&& forall|i: int| 0 <= i < speech.len() && #[trigger] speech[i] ==> first <= i <= last
}

/// The part of a clip that is left once silence was trimmed off its ends. Pauses
/// within stay, and so does an incomplete last stretch with speech in it; of a clip
/// without speech nothing is left.
pub fn voiced_span(speech: &Vec<bool>, len: usize) -> (r: (usize, usize))
    requires
        speech@.len() == stretches(len as int),
    ensures
        is_voiced_span(speech@, len as int, (r.0 as int, r.1 as int)),
        r.0 <= r.1 <= len,
{
    let n = speech.len();
    let mut first: usize = 0;
    while first < n && !speech[first]
        invariant
            first <= n,
            n == speech@.len(),
            forall|i: int| 0 <= i < first ==> !(#[trigger] speech@[i]),
        decreases n - first,
    {
        first += 1;
    }
    if first == n {
        return (0, 0);
    }
    let mut end: usize = n;
    while !speech[end - 1]
        invariant
            first < end <= n,
            n == speech@.len(),
            speech@[first as int],
            forall|i: int| end <= i < n ==> !(#[trigger] speech@[i]),
        decreases end,
    {
        end -= 1;
    }
    assert(are_ends(speech@, first as int, end - 1));
    assert(speech@.contains(true));
    let start: usize = first * VAD_FRAME;
    let whole: usize = len / VAD_FRAME;
    if end <= whole {
        (start, end * VAD_FRAME)
    } else {
        (start, len)
    }
}

/// The detector of the webrtc-vad crate.
#[verifier::external_type_specification]
#[verifier::external_body]
pub struct ExVad(webrtc_vad::Vad);

/// The stretches that a detector has judged so far.
pub uninterp spec fn heard(vad: webrtc_vad::Vad) -> Seq<Seq<i16>>;

/// Whether `webrtc_vad::Vad::is_voice_segment`, at 16 kHz and in quality mode,
/// reports speech in `frame` once it has judged `earlier`.
pub uninterp spec fn voice_in(earlier: Seq<Seq<i16>>, frame: Seq<i16>) -> bool;

/// `webrtc_vad::Vad::new_with_rate_and_mode` for 16 kHz and quality mode, which
/// loses the least speech.
#[verifier::external_body]
fn vad_new() -> (r: webrtc_vad::Vad)
    ensures
        heard(r).len() == 0,
{
    webrtc_vad::Vad::new_with_rate_and_mode(
        webrtc_vad::SampleRate::Rate16kHz,
        webrtc_vad::VadMode::Quality,
    )
}

/// `webrtc_vad::Vad::is_voice_segment` on 30 ms at 16 kHz, a length that it accepts.
/// The judgement rests on this stretch and on those that the detector has heard.
#[verifier::external_body]
fn vad_judge(vad: &mut webrtc_vad::Vad, frame: &Vec<i16>) -> (r: Result<bool, ()>)
    requires
        frame@.len() == VAD_FRAME,
    ensures
        r == Ok::<bool, ()>(voice_in(heard(*old(vad)), frame@)),
        heard(*final(vad)) == heard(*old(vad)).push(frame@),
{
    vad.is_voice_segment(frame.as_slice())
}

/// Stretch `i` of a clip; an incomplete one has silence behind it.
pub open spec fn stretch(samples: Seq<i16>, i: int) -> Seq<i16> {
    Seq::new(
        VAD_FRAME as nat,
        |k: int|
            if i * VAD_FRAME + k < samples.len() {
                samples[i * VAD_FRAME + k]
            } else {
                0i16
            },
    )
}

/// The first `n` stretches of a clip.
pub open spec fn first_stretches(samples: Seq<i16>, n: int) -> Seq<Seq<i16>> {
    Seq::new(n as nat, |i: int| stretch(samples, i))
}

/// Which stretches of a clip hold speech, judged one after the other.
pub open spec fn judged(samples: Seq<i16>) -> Seq<bool> {
    Seq::new(
        stretches(samples.len() as int) as nat,
        |i: int| voice_in(first_stretches(samples, i), stretch(samples, i)),
    )
}

fn stretch_at(samples: &Vec<i16>, i: usize) -> (r: Vec<i16>)
    requires
        i < stretches(samples@.len() as int),
    ensures
        r@ == stretch(samples@, i as int),
{
    let len: usize = samples.len();
    assert(i * VAD_FRAME < len);
    let from: usize = i * VAD_FRAME;
    let mut r: Vec<i16> = Vec::new();
    let mut k: usize = 0;
    while k < VAD_FRAME
        invariant
            k <= VAD_FRAME,
            from == i * VAD_FRAME,
            from <= len == samples@.len(),
            r@ == stretch(samples@, i as int).take(k as int),
        decreases VAD_FRAME - k,
    {
        let s: i16 = if k < len - from {
            samples[from + k]
        } else {
            0
        };
        r.push(s);
        assert(stretch(samples@, i as int).take(k + 1) =~= stretch(samples@, i as int).take(
            k as int,
        ).push(s));
        k = k + 1;
    }
    assert(stretch(samples@, i as int).take(VAD_FRAME as int) =~= stretch(samples@, i as int));
    r
}

/// The part of a clip of 16 kHz mono from the first stretch of speech to the last;
/// see [`voiced_span`].
pub fn vad_trim(samples: &Vec<i16>) -> (r: (usize, usize))
    ensures
        is_voiced_span(judged(samples@), samples@.len() as int, (r.0 as int, r.1 as int)),
        r.0 <= r.1 <= samples@.len(),
{
    let n = vad_frames(samples.len());
    let mut vad = vad_new();
    let mut speech: Vec<bool> = Vec::new();
    let mut i: usize = 0;
    assert(heard(vad) =~= first_stretches(samples@, 0));
    while i < n
        invariant
            n == stretches(samples@.len() as int),
            i <= n,
            heard(vad) == first_stretches(samples@, i as int),
            speech@ == judged(samples@).take(i as int),
        decreases n - i,
    {
        let frame = stretch_at(samples, i);
        let voice: bool = match vad_judge(&mut vad, &frame) {
            Ok(v) => v,
            Err(_) => true,
        };
        speech.push(voice);
        assert(first_stretches(samples@, i as int).push(stretch(samples@, i as int))
            =~= first_stretches(samples@, i + 1));
        assert(judged(samples@).take(i + 1) =~= judged(samples@).take(i as int).push(voice));
        i = i + 1;
    }
    assert(judged(samples@).take(n as int) =~= judged(samples@));
    voiced_span(&speech, samples.len())
}

/// Whether `rest` is `clip` without the silence at its ends.
pub open spec fn is_trimmed(clip: Seq<i16>, rest: Seq<i16>) -> bool {
    exists|start: int, end: int| #[trigger]
        is_voiced_span(judged(clip), clip.len() as int, (start, end)) && 0 <= start <= end
            <= clip.len() && rest == clip.subrange(start, end)
}

/// The clip without the silence at its ends.
pub fn trimmed(clip: &Vec<i16>) -> (r: Vec<i16>)
    ensures
        is_trimmed(clip@, r@),
{
    let (start, end) = vad_trim(clip);
    let mut r: Vec<i16> = Vec::new();
    let mut i: usize = start;
    while i < end
        invariant
            start <= i <= end <= clip@.len(),
            r@ == clip@.subrange(start as int, i as int),
        decreases end - i,
    {
        r.push(clip[i]);
        assert(clip@.subrange(start as int, i + 1) =~= clip@.subrange(
            start as int,
            i as int,
        ).push(clip@[i as int]));
        i = i + 1;
    }
    assert(is_voiced_span(judged(clip@), clip@.len() as int, (start as int, end as int)));
    r
}

/// Trimming keeps every stretch of speech in full.
pub proof fn trimming_keeps_speech(speech: Seq<bool>, len: int, span: (int, int), i: int, at: int)
    requires
        is_voiced_span(speech, len, span),
        speech.len() == stretches(len),
        0 <= i < speech.len(),
        speech[i],
        i * VAD_FRAME <= at < (i + 1) * VAD_FRAME,
        at < len,
    ensures
        span.0 <= at < span.1,
{
    assert(speech.contains(true));
}

/// Trimming a clip that begins and ends with speech changes nothing.
pub proof fn speech_at_both_ends_is_kept(speech: Seq<bool>, len: int, span: (int, int))
    requires
        is_voiced_span(speech, len, span),
        len >= 0,
        speech.len() == stretches(len),
        speech.len() > 0,
        speech.first() && speech.last(),
    ensures
        span == (0int, len),
{
    assert(speech.contains(true));
    assert(speech[0] && speech[speech.len() - 1]);
}

/// A clip is judged in stretches of 480 samples: as many as it takes to hold it all.
pub proof fn stretches_cover_the_clip(len: int)
    requires
        len >= 0,
    ensures
        480 * stretches(len) >= len,
        len > 0 ==> 480 * (stretches(len) - 1) < len,
        len == 0 ==> stretches(len) == 0,
{
}

/// Each stretch holds its own 480 samples, the last one with silence behind what is
/// left of the clip; what is judged of a stretch is what the detector says of it after
/// those before it.
pub proof fn stretches_hold_the_samples(samples: Seq<i16>, i: int, k: int)
    requires
        0 <= i < stretches(samples.len() as int),
        0 <= k < 480,
    ensures
        stretch(samples, i).len() == 480,
        480 * i + k < samples.len() ==> stretch(samples, i)[k] == samples[480 * i + k],
        480 * i + k >= samples.len() ==> stretch(samples, i)[k] == 0,
        judged(samples).len() == stretches(samples.len() as int),
        judged(samples)[i] == voice_in(first_stretches(samples, i), stretch(samples, i)),
        first_stretches(samples, i).len() == i,
        forall|j: int| 0 <= j < i ==> #[trigger] first_stretches(samples, i)[j] == stretch(samples, j),
{
}

/// Only silence is taken off: what is left begins with the first stretch of speech and
/// ends with the last, as far as the clip goes. Of a clip without speech nothing is
/// left.
pub proof fn only_silence_is_taken_off(speech: Seq<bool>, len: int, span: (int, int))
    requires
        len >= 0,
        speech.len() == stretches(len),
        is_voiced_span(speech, len, span),
    ensures
        !speech.contains(true) ==> span.0 == span.1,
        speech.contains(true) ==> {
            &&& 0 <= span.0 < span.1 <= len
            &&& span.0 % 480 == 0 && speech[span.0 / 480]
            &&& span.1 % 480 == 0 || span.1 == len
            &&& speech[(span.1 - 1) / 480]
            &&& forall|i: int| 0 <= i < span.0 / 480 ==> !(#[trigger] speech[i])
            &&& forall|i: int| (span.1 - 1) / 480 < i < speech.len() ==> !(#[trigger] speech[i])
        },
{
    if speech.contains(true) {
        let (first, last) = choose|first: int, last: int| #[trigger]
            are_ends(speech, first, last) && span.0 == first * VAD_FRAME && span.1 == if (last + 1)
                * VAD_FRAME <= len {
                (last + 1) * VAD_FRAME
            } else {
                len
            };
        assert(span.0 / 480 == first);
        assert(480 * last < len);
        assert((span.1 - 1) / 480 == last);
    }
}

/// What trimming leaves is a part of the clip as it is: the samples from where the
/// speech begins to where it ends.
pub proof fn trimming_alters_no_sample(clip: Seq<i16>, rest: Seq<i16>)
    requires
        is_trimmed(clip, rest),
    ensures
        !judged(clip).contains(true) ==> rest.len() == 0,
        judged(clip).contains(true) ==> exists|start: int, end: int|
            0 <= start < end <= clip.len() && rest == #[trigger] clip.subrange(start, end)
                && start % 480 == 0 && judged(clip)[start / 480] && judged(clip)[(end - 1) / 480],
{
    let (start, end) = choose|start: int, end: int| #[trigger]
        is_voiced_span(judged(clip), clip.len() as int, (start, end)) && 0 <= start <= end
            <= clip.len() && rest == clip.subrange(start, end);
    only_silence_is_taken_off(judged(clip), clip.len() as int, (start, end));
}

/// A device that says it has no channels is taken to have one; any other has as many
/// as it says.
pub proof fn there_is_a_channel(channels: u16)
    ensures
        channel_count(channels) >= 1,
        channels > 0 ==> channel_count(channels) == channels,
        channels == 0 ==> channel_count(channels) == 1,
{
}

/// Each error is told by what failed and why.
pub proof fn errors_are_told_by_what_failed(m: String)
    ensures
        audio_error_text(AudioError::NoInputDevice)
            == "no default input (microphone) device available"@,
        audio_error_text(AudioError::Config(m)) == "audio config error: "@ + m@,
        audio_error_text(AudioError::BuildStream(m)) == "failed to build input stream: "@ + m@,
        audio_error_text(AudioError::PlayStream(m)) == "failed to start input stream: "@ + m@,
        audio_error_text(AudioError::Resample(m)) == "resampling failed: "@ + m@,
{
}

} // verus!

//! Voice: when it is sent, how it is cut into frames and packets, how it is laid out for a device.

use crate::text::same_text;
use tsproto_packets::packets::{AudioData, CodecType, Direction, InPacket, OutAudio};
use vstd::prelude::*;

verus! {

/// The sample rate of a voice stream.
pub const TS_RATE: u32 = 48000;

/// The samples of one frame: 20 ms of one channel.
pub const FRAME_SAMPLES: usize = 960;

/// The largest size of an encoded frame.
pub const MAX_OPUS_FRAME_SIZE: usize = 1275;

/// A sound that accompanies an event.
#[derive(Debug, Clone, Copy, PartialEq, Eq, Structural)]
pub enum SoundEffect {
    Connect,
    Disconnect,
    UserJoined,
    UserLeft,
}

/// When the microphone is sent.
#[derive(Debug, Clone, Copy, PartialEq, Eq, Structural)]
pub enum VoiceMode {
    Always,
    VoiceActivation,
    PushToTalk,
}

/// Where the voice in a packet comes from.
#[derive(Debug, Clone, Copy, PartialEq, Eq, Structural)]
pub enum AudioSource {
    /// A user who speaks to the channel.
    Voice { from: u16 },
    /// A user who whispers.
    Whisper { from: u16 },
    /// No other user: the packet is one of ours.
    Outgoing,
}

/// The source of the voice in a packet from the server, or nothing where the bytes are no such
/// packet: eleven bytes of header, the last of which holds the packet type in its low half, then two
/// bytes that number the packet, two for the user, the highest first, and one for the codec.
pub open spec fn audio_source(raw: Seq<u8>) -> Option<AudioSource> {
    if raw.len() < 16 || raw[10] % 16 > 8 || raw[15] > 5 {
        None
    } else {
        let from = (raw[13] * 256 + raw[14]) as u16;
        if raw[10] % 16 == 0 {
            Some(AudioSource::Voice { from })
        } else {
            Some(AudioSource::Whisper { from })
        }
    }
}

/// The user whose voice a packet holds.
pub open spec fn audio_speaker(raw: Seq<u8>) -> Option<u16> {
    match audio_source(raw) {
        Some(AudioSource::Voice { from }) => Some(from),
        Some(AudioSource::Whisper { from }) => Some(from),
        _ => None,
    }
}

/// Reads a packet from the server with `InPacket::try_new` and `InPacket::into_audio` of
/// `tsproto_packets`.
///
/// Claimed of them: they fail on bytes too short for the header, for the packet type or for the
/// voice fields, on an unknown packet type and on an unknown codec, and on nothing else; the packet
/// is a whisper unless its type is voice; the user is the big-endian number at bytes 13 and 14.
#[verifier::external_body]
fn read_audio(raw: &[u8]) -> (source: Option<AudioSource>)
    ensures
        source == audio_source(raw@),
{
    let audio = InPacket::try_new(Direction::S2C, raw).ok()?.into_audio().ok()?;
    match audio.data() {
        AudioData::S2C { from, .. } => Some(AudioSource::Voice { from: *from }),
        AudioData::S2CWhisper { from, .. } => Some(AudioSource::Whisper { from: *from }),
        AudioData::C2S { .. } => Some(AudioSource::Outgoing),
        AudioData::C2SWhisper { .. } => Some(AudioSource::Outgoing),
        AudioData::C2SWhisperNew { .. } => Some(AudioSource::Outgoing),
    }
}

/// The user whose voice is in a packet that came from the server.
pub fn speaker(raw: &[u8]) -> (user: Option<u16>)
    ensures
        user == audio_speaker(raw@),
{
    match read_audio(raw) {
        Some(AudioSource::Voice { from }) => Some(from),
        Some(AudioSource::Whisper { from }) => Some(from),
        _ => None,
    }
}

/// A voice packet for the server: thirteen bytes of header and two that number the packet, which
/// are filled in when it is sent, the codec, and the encoded frame.
pub open spec fn voice_packet_bytes(frame: Seq<u8>) -> Seq<u8> {
    Seq::new(15, |i: int| 0u8) + seq![4u8] + frame
}

/// Builds a voice packet with `OutAudio::new` of `tsproto_packets`.
///
/// Claimed of it: for Opus voice with packet number zero the bytes are the empty client header, the
/// number, the number of the codec, which is four, and the frame.
#[verifier::external_body]
fn build_audio(frame: &[u8]) -> (packet: Vec<u8>)
    ensures
        packet@ == voice_packet_bytes(frame@),
{
    OutAudio::new(&AudioData::C2S { id: 0, codec: CodecType::OpusVoice, data: frame }).into_vec()
}

/// The voice packet that carries an encoded frame.
pub fn voice_packet(frame: &[u8]) -> (packet: Vec<u8>)
    ensures
        packet@ == voice_packet_bytes(frame@),
{
    build_audio(frame)
}

/// Frames that voice activation goes on sending after the voice falls silent: 300 ms.
pub const VOICE_HOLD_FRAMES: u32 = 15;

/// Decides, frame by frame, whether the microphone is sent.
///
/// Loud frames are counted in every mode, so a change of mode leaves the hold as it is: voice
/// activation sends what follows a loud frame within 300 ms, whatever the mode was when it was heard.
#[derive(Debug)]
pub struct TransmitGate {
    /// The frames that voice activation will still send without hearing a voice.
    pub held: u32,
}

/// The frames that are held after a frame. `loud` tells whether the input level is above the
/// threshold.
pub open spec fn hold_after(held: nat, loud: bool) -> nat {
    if loud {
        VOICE_HOLD_FRAMES as nat
    } else if held > 0 {
        (held - 1) as nat
    } else {
        0
    }
}

/// Whether a frame is sent. `key_down` tells whether the push-to-talk key is held.
pub open spec fn gate_passes(held: nat, mode: VoiceMode, loud: bool, key_down: bool) -> bool {
    match mode {
        VoiceMode::Always => true,
        VoiceMode::VoiceActivation => loud || held > 0,
        VoiceMode::PushToTalk => key_down,
    }
}

impl TransmitGate {
    /// A gate that has heard nothing yet.
    pub fn new() -> (gate: TransmitGate)
        ensures
            gate.held == 0,
    {
        TransmitGate { held: 0 }
    }

    /// Forgets what was heard, as when the microphone is muted.
    pub fn reset(&mut self)
        ensures
            final(self).held == 0,
    {
        self.held = 0;
    }

    /// Tells whether the next frame is sent.
    pub fn passes(&mut self, mode: VoiceMode, loud: bool, key_down: bool) -> (sent: bool)
        ensures
            final(self).held as nat == hold_after(old(self).held as nat, loud),
            sent == gate_passes(old(self).held as nat, mode, loud, key_down),
            sent == (match mode {
                VoiceMode::Always => true,
                VoiceMode::VoiceActivation => loud || old(self).held > 0,
                VoiceMode::PushToTalk => key_down,
            }),
            loud ==> final(self).held == 15,
            !loud && old(self).held > 0 ==> final(self).held == old(self).held - 1,
            !loud && old(self).held == 0 ==> final(self).held == 0,
    {
        let holding = self.held > 0;
        if loud {
            self.held = VOICE_HOLD_FRAMES;
        } else if holding {
            self.held = self.held - 1;
        }
        match mode {
            VoiceMode::Always => true,
            VoiceMode::VoiceActivation => loud || holding,
            VoiceMode::PushToTalk => key_down,
        }
    }
}

/// A frame as it is decided on.
pub struct HeardFrame {
    pub mode: VoiceMode,
    pub loud: bool,
    pub key_down: bool,
}

/// The frames held after some frames, from a gate that had heard nothing.
pub open spec fn held_after(frames: Seq<HeardFrame>) -> nat
    decreases frames.len(),
{
    if frames.len() == 0 {
        0
    } else {
        hold_after(held_after(frames.drop_last()), frames.last().loud)
    }
}

/// Whether frame `i` is sent.
pub open spec fn frame_is_sent(frames: Seq<HeardFrame>, i: int) -> bool {
    let frame = frames[i];
    gate_passes(held_after(frames.take(i)), frame.mode, frame.loud, frame.key_down)
}

/// Frames held are counted down from the last loud frame.
proof fn held_frames_count_down(frames: Seq<HeardFrame>)
    ensures
        held_after(frames) <= VOICE_HOLD_FRAMES,
        held_after(frames) > 0 ==> ({
            let last = frames.len() - 1 - (VOICE_HOLD_FRAMES - held_after(frames));
            0 <= last < frames.len() && frames[last].loud
        }),
        forall|j: int|
            0 <= j < frames.len() && (#[trigger] frames[j]).loud ==> held_after(frames)
                >= VOICE_HOLD_FRAMES - (frames.len() - 1 - j),
    decreases frames.len(),
{
    if frames.len() > 0 {
        let before = frames.drop_last();
        held_frames_count_down(before);
        assert forall|j: int|
            0 <= j < frames.len() && (#[trigger] frames[j]).loud implies held_after(frames)
            >= VOICE_HOLD_FRAMES - (frames.len() - 1 - j) by {
            if j < before.len() {
                assert(before[j].loud);
            }
        }
        if !frames.last().loud && held_after(frames) > 0 {
            let last = before.len() - 1 - (VOICE_HOLD_FRAMES - held_after(before));
            assert(before[last] == frames[last]);
        }
    }
}

/// Which frames are sent, the mode changing as it may: with continuous transmission each one; with
/// push-to-talk those during which the key is held; with voice activation those that are loud or
/// have a loud one among the frames of the 300 ms before.
pub proof fn frames_are_sent_as_the_mode_says(frames: Seq<HeardFrame>, i: int)
    requires
        0 <= i < frames.len(),
    ensures
        frame_is_sent(frames, i) <==> (match frames[i].mode {
            VoiceMode::Always => true,
            VoiceMode::PushToTalk => frames[i].key_down,
            VoiceMode::VoiceActivation => exists|j: int|
                0 <= j <= i && i - VOICE_HOLD_FRAMES <= j && (#[trigger] frames[j]).loud,
        }),
{
    let before = frames.take(i);
    held_frames_count_down(before);
    if held_after(before) > 0 {
        let last = before.len() - 1 - (VOICE_HOLD_FRAMES - held_after(before));
        assert(frames[last] == before[last]);
    }
    if exists|j: int| 0 <= j <= i && i - VOICE_HOLD_FRAMES <= j && (#[trigger] frames[j]).loud {
        let j = choose|j: int|
            0 <= j <= i && i - VOICE_HOLD_FRAMES <= j && (#[trigger] frames[j]).loud;
        if j < i {
            assert(before[j].loud);
        }
    }
}

/// The number of whole frames in so many samples.
pub open spec fn frame_count(samples: nat) -> nat {
    samples / FRAME_SAMPLES as nat
}

/// The frames that samples fill, from the first sample on.
pub open spec fn whole_frames<T>(samples: Seq<T>) -> Seq<Seq<T>> {
    Seq::new(
        frame_count(samples.len()),
        |i: int| samples.subrange(i * FRAME_SAMPLES, (i + 1) * FRAME_SAMPLES),
    )
}

/// The samples that do not fill a frame yet.
pub open spec fn unframed<T>(samples: Seq<T>) -> Seq<T> {
    samples.skip((frame_count(samples.len()) * FRAME_SAMPLES) as int)
}

/// Samples on their way into frames.
#[derive(Debug)]
pub struct FrameBuffer<T> {
    pub samples: Vec<T>,
}

impl<T> View for FrameBuffer<T> {
    type V = Seq<T>;

    open spec fn view(&self) -> Seq<T> {
        self.samples@
    }
}

/// The contents of each of a list of vectors.
pub open spec fn contents<T>(lists: Seq<Vec<T>>) -> Seq<Seq<T>> {
    lists.map_values(|list: Vec<T>| list@)
}

impl<T: Copy> FrameBuffer<T> {
    pub fn new() -> (buffer: FrameBuffer<T>)
        ensures
            buffer@ == Seq::<T>::empty(),
    {
        FrameBuffer { samples: Vec::new() }
    }

    /// Forgets all samples, as when the microphone is muted.
    pub fn clear(&mut self)
        ensures
            final(self)@ == Seq::<T>::empty(),
    {
        self.samples.clear();
    }

    pub fn push(&mut self, sample: T)
        ensures
            final(self)@ == old(self)@.push(sample),
    {
        self.samples.push(sample);
    }

    /// Takes out every frame that is full.
    pub fn take_frames(&mut self) -> (frames: Vec<Vec<T>>)
        ensures
            contents(frames@) == whole_frames(old(self)@),
            final(self)@ == unframed(old(self)@),
    {
        let mut frames: Vec<Vec<T>> = Vec::new();
        let n: usize = self.samples.len();
        let mut at: usize = 0;
        while n - at >= FRAME_SAMPLES
            invariant
                self.samples@ == old(self)@,
                n == self.samples@.len(),
                at <= n,
                at == frames@.len() * FRAME_SAMPLES,
                forall|i: int|
                    0 <= i < frames@.len() ==> (#[trigger] frames@[i])@ == self.samples@.subrange(
                        i * FRAME_SAMPLES,
                        (i + 1) * FRAME_SAMPLES,
                    ),
            decreases n - at,
        {
            frames.push(copied_range(&self.samples, at, at + FRAME_SAMPLES));
            at = at + FRAME_SAMPLES;
        }
        let rest = copied_range(&self.samples, at, n);
        proof {
            assert(frames@.len() == frame_count(n as nat));
            assert(contents(frames@) =~= whole_frames(old(self)@));
            assert(rest@ =~= unframed(old(self)@));
        }
        self.samples = rest;
        frames
    }
}

/// Samples came in from the microphone. While it is muted they and all that was heard before are
/// forgotten and there is nothing to send; else every frame that is full now comes out.
pub fn frames_arrived<T: Copy>(
    buffer: &mut FrameBuffer<T>,
    gate: &mut TransmitGate,
    muted: bool,
    samples: &[T],
) -> (frames: Vec<Vec<T>>)
    ensures
        muted ==> frames@.len() == 0 && final(buffer)@ == Seq::<T>::empty() && final(gate).held
            == 0,
        !muted ==> contents(frames@) == whole_frames(old(buffer)@ + samples@) && final(buffer)@
            == unframed(old(buffer)@ + samples@) && final(gate).held == old(gate).held,
{
    if muted {
        buffer.clear();
        gate.reset();
        return Vec::new();
    }
    let n: usize = samples.len();
    let mut i: usize = 0;
    while i < n
        invariant
            n == samples@.len(),
            i <= n,
            buffer@ == old(buffer)@ + samples@.take(i as int),
            gate.held == old(gate).held,
        decreases n - i,
    {
        buffer.push(samples[i]);
        proof {
            assert(samples@.take(i + 1) =~= samples@.take(i as int).push(samples@[i as int]));
            assert(buffer@ =~= old(buffer)@ + samples@.take(i + 1));
        }
        i = i + 1;
    }
    proof {
        assert(samples@.take(n as int) =~= samples@);
    }
    buffer.take_frames()
}

/// A copy of the elements from `from` up to `to`.
fn copied_range<T: Copy>(list: &Vec<T>, from: usize, to: usize) -> (part: Vec<T>)
    requires
        from <= to <= list@.len(),
    ensures
        part@ == list@.subrange(from as int, to as int),
{
    let mut part: Vec<T> = Vec::new();
    let mut i: usize = from;
    while i < to
        invariant
            from <= i <= to <= list@.len(),
            part@ == list@.subrange(from as int, i as int),
        decreases to - i,
    {
        part.push(list[i]);
        i = i + 1;
        proof {
            assert(part@ =~= list@.subrange(from as int, i as int));
        }
    }
    part
}

/// One after the other.
pub open spec fn joined<T>(frames: Seq<Seq<T>>) -> Seq<T>
    decreases frames.len(),
{
    if frames.len() == 0 {
        Seq::empty()
    } else {
        joined(frames.drop_last()) + frames.last()
    }
}

proof fn first_frames_joined<T>(samples: Seq<T>, n: nat)
    requires
        n <= frame_count(samples.len()),
    ensures
        joined(whole_frames(samples).take(n as int)) == samples.take(n * FRAME_SAMPLES),
    decreases n,
{
    if n == 0 {
        assert(whole_frames(samples).take(0) =~= Seq::empty());
        assert(samples.take(0) =~= Seq::empty());
    } else {
        let m = (n - 1) as nat;
        first_frames_joined(samples, m);
        let frames = whole_frames(samples).take(n as int);
        assert(frames.drop_last() =~= whole_frames(samples).take(m as int));
        assert(frames.last() == samples.subrange(m * FRAME_SAMPLES, n * FRAME_SAMPLES));
        assert(samples.take(m * FRAME_SAMPLES) + frames.last() =~= samples.take(n * FRAME_SAMPLES));
    }
}

/// Cutting into frames neither loses nor reorders a sample, and leaves less than a frame behind.
pub proof fn frames_lose_nothing<T>(samples: Seq<T>)
    ensures
        joined(whole_frames(samples)) + unframed(samples) == samples,
        unframed(samples).len() < FRAME_SAMPLES,
        forall|i: int|
            0 <= i < whole_frames(samples).len() ==> (#[trigger] whole_frames(samples)[i]).len()
                == FRAME_SAMPLES,
{
    let n = frame_count(samples.len());
    first_frames_joined(samples, n);
    assert(whole_frames(samples).take(n as int) =~= whole_frames(samples));
    assert(samples.take(n * FRAME_SAMPLES) + unframed(samples) =~= samples);
}

/// How the samples arrive makes no difference: the frames are the same whether what is pushed comes
/// at once or in two parts, with frames taken out in between.
pub proof fn frames_do_not_depend_on_arrival<T>(first: Seq<T>, second: Seq<T>)
    ensures
        whole_frames(first) + whole_frames(unframed(first) + second) == whole_frames(
            first + second,
        ),
        unframed(unframed(first) + second) == unframed(first + second),
{
    let all = first + second;
    let rest = unframed(first) + second;
    let n = frame_count(first.len());
    let m = frame_count(rest.len());
    assert(rest =~= all.skip(n * FRAME_SAMPLES));
    assert(frame_count(all.len()) == n + m);
    assert forall|i: int| 0 <= i < n + m implies (whole_frames(first) + whole_frames(rest))[i]
        == whole_frames(all)[i] by {
        if i < n {
            assert(first.subrange(i * FRAME_SAMPLES, (i + 1) * FRAME_SAMPLES) =~= all.subrange(
                i * FRAME_SAMPLES,
                (i + 1) * FRAME_SAMPLES,
            ));
        } else {
            let k = i - n;
            assert(rest.subrange(k * FRAME_SAMPLES, (k + 1) * FRAME_SAMPLES) =~= all.subrange(
                i * FRAME_SAMPLES,
                (i + 1) * FRAME_SAMPLES,
            ));
        }
    }
    assert(whole_frames(first) + whole_frames(rest) =~= whole_frames(all));
    assert(unframed(rest) =~= unframed(all));
}

/// The pair at position `i` of interleaved stereo samples; past their end, silence.
pub open spec fn stereo_pair<T>(samples: Seq<T>, i: int, silence: T) -> (T, T) {
    if 0 <= i && i * 2 + 1 < samples.len() {
        (samples[i * 2], samples[i * 2 + 1])
    } else {
        (silence, silence)
    }
}

/// The samples that are wanted until there are `needed` pairs.
pub open spec fn samples_missing(held: nat, needed: nat) -> nat {
    if needed > held / 2 {
        ((needed - held / 2) * 2) as nat
    } else {
        0
    }
}

/// How many of the first `count` groups of `width` samples there are.
pub open spec fn groups_present(held: nat, count: nat, width: nat) -> nat {
    if count <= held / width {
        count
    } else {
        held / width
    }
}

/// The pairs that playing up to a position takes: one more than lie before it, to interpolate with.
pub open spec fn pairs_up_to(end: nat) -> nat {
    end + 1
}

/// The pairs that playing up to a position takes, a position between two pairs being rounded up.
pub fn pairs_needed(end: usize) -> (needed: usize)
    requires
        end < usize::MAX,
    ensures
        needed == pairs_up_to(end as nat),
        needed == end + 1,
{
    end + 1
}

/// Whether a sample can be converted at a position: one more sample is there, to interpolate with.
pub open spec fn is_convertible(position: nat, held: nat) -> bool {
    position + 1 < held
}

/// Whether a sample can be converted at a position, one between two samples being rounded up.
pub fn can_convert(position: usize, held: usize) -> (result: bool)
    ensures
        result == is_convertible(position as nat, held as nat),
        result == (position + 1 < held),
{
    held > 1 && position < held - 1
}

/// The samples to fetch from the decoder before `needed` pairs can be played.
pub fn missing_samples(held: usize, needed: usize) -> (missing: usize)
    requires
        needed <= usize::MAX / 2,
    ensures
        missing == samples_missing(held as nat, needed as nat),
{
    let pairs: usize = held / 2;
    if needed > pairs {
        (needed - pairs) * 2
    } else {
        0
    }
}

/// The pair at position `i` of interleaved stereo samples; past their end, silence.
pub fn stereo_frame<T: Copy>(samples: &[T], i: usize, silence: T) -> (pair: (T, T))
    ensures
        pair == stereo_pair(samples@, i as int, silence),
{
    let pairs: usize = samples.len() / 2;
    if i < pairs {
        (samples[i * 2], samples[i * 2 + 1])
    } else {
        (silence, silence)
    }
}

/// Drops the first `count` groups of `width` samples, or as many as there are. Tells how many.
pub fn drop_groups<T: Copy>(samples: &mut Vec<T>, count: usize, width: usize) -> (dropped: usize)
    requires
        width > 0,
    ensures
        dropped == groups_present(old(samples)@.len(), count as nat, width as nat),
        final(samples)@ == old(samples)@.skip(dropped * width),
{
    let held: usize = samples.len();
    let present: usize = held / width;
    let dropped: usize = if count <= present {
        count
    } else {
        present
    };
    proof {
        assert(present * width <= held) by (nonlinear_arith)
            requires
                present == held / width,
                width > 0,
        ;
        assert(0 <= dropped * width <= present * width) by (nonlinear_arith)
            requires
                dropped <= present,
        ;
    }
    let rest = copied_range(samples, dropped * width, held);
    proof {
        assert(rest@ =~= old(samples)@.skip(dropped * width));
    }
    *samples = rest;
    dropped
}

/// One stereo pair as a device with so many channels plays it: a single channel gets the two mixed,
/// several get left and right in front and silence behind.
pub open spec fn device_frame<T>(
    channels: nat,
    left: T,
    right: T,
    mixed: T,
    silence: T,
) -> Seq<T> {
    Seq::new(
        channels,
        |i: int|
            if channels == 1 {
                mixed
            } else if i == 0 {
                left
            } else if i == 1 {
                right
            } else {
                silence
            },
    )
}

/// Lays a stereo pair out over the channels of a device.
pub fn lay_out<T: Copy>(out: &mut [T], left: T, right: T, mixed: T, silence: T)
    ensures
        final(out)@ == device_frame(old(out)@.len(), left, right, mixed, silence),
{
    let n: usize = out.len();
    let mut i: usize = 0;
    while i < n
        invariant
            n == out@.len(),
            i <= n,
            forall|j: int|
                0 <= j < i ==> #[trigger] out@[j] == device_frame(
                    n as nat,
                    left,
                    right,
                    mixed,
                    silence,
                )[j],
        decreases n - i,
    {
        let sample = if n == 1 {
            mixed
        } else if i == 0 {
            left
        } else if i == 1 {
            right
        } else {
            silence
        };
        out[i] = sample;
        i = i + 1;
    }
    proof {
        assert(out@ =~= device_frame(n as nat, left, right, mixed, silence));
    }
}

/// With the missing samples fetched, exactly the pairs needed are there, unless there were more
/// before.
pub proof fn fetching_what_is_missing_suffices(held: nat, needed: nat)
    ensures
        (held + samples_missing(held, needed)) / 2 >= needed,
        needed >= held / 2 ==> (held + samples_missing(held, needed)) / 2 == needed,
{
}

/// Dropping what was played moves the other pairs up and changes none of them.
pub proof fn dropping_moves_pairs_up<T>(samples: Seq<T>, count: nat, i: int, silence: T)
    requires
        0 <= i,
    ensures
        ({
            let dropped = groups_present(samples.len(), count, 2);
            stereo_pair(samples.skip((dropped * 2) as int), i, silence) == stereo_pair(
                samples,
                i + dropped,
                silence,
            )
        }),
{
}

/// Which device to open.
#[derive(Debug, Clone, Copy, PartialEq, Eq, Structural)]
pub enum DeviceChoice {
    /// The default device, as asked for.
    Default,
    /// The device at this position of the list.
    Listed(usize),
    /// The default device, for want of the one asked for.
    Fallback,
}

/// Finds the device asked for by name; without a name that is the default one. A device that is not
/// there is replaced by the default one.
pub fn choose_device(names: &Vec<String>, wanted: &Option<String>) -> (choice: DeviceChoice)
    ensures
        match *wanted {
            None => choice == DeviceChoice::Default,
            Some(name) => match choice {
                DeviceChoice::Default => false,
                DeviceChoice::Listed(i) => i < names@.len() && names@[i as int]@ == name@
                    && forall|j: int| 0 <= j < i ==> (#[trigger] names@[j])@ != name@,
                DeviceChoice::Fallback => forall|j: int|
                    0 <= j < names@.len() ==> (#[trigger] names@[j])@ != name@,
            },
        },
{
    let name = match wanted {
        None => return DeviceChoice::Default,
        Some(name) => name,
    };
    let mut i: usize = 0;
    while i < names.len()
        invariant
            *wanted == Some(*name),
            i <= names@.len(),
            forall|j: int| 0 <= j < i ==> (#[trigger] names@[j])@ != name@,
        decreases names@.len() - i,
    {
        if same_text(names[i].as_str(), name.as_str()) {
            return DeviceChoice::Listed(i);
        }
        i = i + 1;
    }
    DeviceChoice::Fallback
}

/// A packet has a speaker exactly when it is long enough and its type and codec are known; the
/// speaker is the number of two bytes, the higher first, for a voice and for a whisper alike.
pub proof fn speaker_is_read_from_two_bytes(raw: Seq<u8>)
    ensures
        audio_speaker(raw) is Some <==> raw.len() >= 16 && raw[10] % 16 <= 8 && raw[15] <= 5,
        audio_speaker(raw) matches Some(from) ==> from as int == raw[13] * 256 + raw[14],
{
    if raw.len() >= 16 && raw[10] % 16 <= 8 && raw[15] <= 5 {
        let (high, low) = (raw[13], raw[14]);
        assert(0 <= high * 256 + low <= 0xffff);
    }
}

/// A voice packet is fifteen bytes to be filled in when it is sent, the number of the codec and the
/// encoded frame, byte by byte.
pub proof fn voice_packet_ends_with_the_frame(frame: Seq<u8>)
    ensures
        voice_packet_bytes(frame).len() == frame.len() + 16,
        forall|i: int| 0 <= i < 15 ==> #[trigger] voice_packet_bytes(frame)[i] == 0,
        voice_packet_bytes(frame)[15] == 4,
        voice_packet_bytes(frame).skip(16) == frame,
{
    assert(voice_packet_bytes(frame).skip(16) =~= frame);
}

/// Frame `k` holds samples 960 `k` to 960 `k` + 959, there are as many frames as are full, and the
/// samples behind the last of them are left.
pub proof fn samples_stand_in_their_frames<T>(samples: Seq<T>)
    ensures
        whole_frames(samples).len() == samples.len() / 960,
        forall|k: int|
            0 <= k < whole_frames(samples).len() ==> (#[trigger] whole_frames(samples)[k]).len()
                == 960,
        forall|k: int, i: int|
            0 <= k < whole_frames(samples).len() && 0 <= i < 960 ==> #[trigger] whole_frames(
                samples,
            )[k][i] == samples[960 * k + i],
        unframed(samples).len() == samples.len() % 960,
        forall|i: int|
            0 <= i < unframed(samples).len() ==> #[trigger] unframed(samples)[i]
                == samples[samples.len() - samples.len() % 960 + i],
{
}

/// The contents of vectors stand where the vectors stand.
pub proof fn contents_stand_in_place<T>(lists: Seq<Vec<T>>, i: int)
    requires
        0 <= i < lists.len(),
    ensures
        contents(lists).len() == lists.len(),
        contents(lists)[i] == lists[i]@,
{
}

/// Pair `i` is the samples 2 `i` and 2 `i` + 1, or silence where one of them is missing.
pub proof fn pairs_stand_in_place<T>(samples: Seq<T>, i: int, silence: T)
    requires
        0 <= i,
    ensures
        2 * i + 1 < samples.len() ==> stereo_pair(samples, i, silence) == (
            samples[2 * i],
            samples[2 * i + 1],
        ),
        2 * i + 1 >= samples.len() ==> stereo_pair(samples, i, silence) == (silence, silence),
{
}

/// Nothing is fetched where the pairs needed are there; else just as many whole pairs as are
/// missing.
pub proof fn only_what_is_missing_is_fetched(held: nat, needed: nat)
    ensures
        needed <= held / 2 ==> samples_missing(held, needed) == 0,
        needed > held / 2 ==> samples_missing(held, needed) == 2 * (needed - held / 2),
{
}

/// As many groups are there as asked for, or as many as fit.
pub proof fn groups_are_there_or_all_that_fit(held: nat, count: nat, width: nat)
    requires
        width > 0,
    ensures
        ({
            let present = groups_present(held, count, width);
            &&& present <= count
            &&& present * width <= held
            &&& present < count ==> held < (present + 1) * width
        }),
{
    let present = groups_present(held, count, width);
    let most = held / width;
    assert(most * width <= held < (most + 1) * width) by (nonlinear_arith)
        requires
            most == held / width,
            width > 0,
    ;
    assert(present * width <= most * width) by (nonlinear_arith)
        requires
            present <= most,
    ;
}

/// A device of one channel gets the two sides mixed; one of more gets the left side first, the right
/// side second and silence on the others.
pub proof fn sides_go_to_the_first_channels<T>(
    channels: nat,
    left: T,
    right: T,
    mixed: T,
    silence: T,
)
    ensures
        ({
            let frame = device_frame(channels, left, right, mixed, silence);
            &&& frame.len() == channels
            &&& channels == 1 ==> frame[0] == mixed
            &&& channels >= 2 ==> frame[0] == left && frame[1] == right
            &&& forall|i: int| 2 <= i < channels ==> #[trigger] frame[i] == silence
        }),
{
}

/// What the hold and the mode make of a frame: a loud frame starts the hold anew, a quiet one counts
/// it down, in every mode.
pub proof fn hold_counts_down_in_every_mode(held: nat, loud: bool, key_down: bool)
    ensures
        hold_after(held, true) == 15,
        held > 0 ==> hold_after(held, false) == held - 1,
        hold_after(0, false) == 0,
        gate_passes(held, VoiceMode::Always, loud, key_down),
        gate_passes(held, VoiceMode::VoiceActivation, loud, key_down) <==> loud || held > 0,
        gate_passes(held, VoiceMode::PushToTalk, loud, key_down) <==> key_down,
{
}

/// The samples on their way into frames are seen as they are.
pub proof fn buffer_is_seen_as_it_is<T>(buffer: FrameBuffer<T>)
    ensures
        buffer@ == buffer.samples@,
{
}

} // verus!

//! Sound over a succession of callbacks of a device.
//!
//! A device that runs at the rate of the voice stream is at a whole position whenever it plays or
//! records a sample. What comes out does not depend on how it cuts its work into callbacks.

use crate::audio::{
    device_frame, frame_count, frames_do_not_depend_on_arrival, groups_present, is_convertible,
    joined, pairs_up_to, samples_missing, stereo_pair, unframed, whole_frames, FRAME_SAMPLES,
};
use vstd::prelude::*;

verus! {

/// Where the playback stands between two callbacks.
pub struct Playback<T> {
    /// Interleaved stereo samples that were fetched and not played yet.
    pub held: Seq<T>,
    /// The position among the pairs held.
    pub position: nat,
    /// How many samples were fetched so far.
    pub fetched: nat,
}

/// Before the first callback.
pub open spec fn playback_begun<T>() -> Playback<T> {
    Playback { held: Seq::empty(), position: 0, fetched: 0 }
}

/// The samples held once those are fetched that a callback of `frames` frames takes; `decoded` are
/// the samples of the decoder, by number.
pub open spec fn after_fetching<T>(
    playback: Playback<T>,
    decoded: spec_fn(int) -> T,
    frames: nat,
) -> Seq<T> {
    let missing = samples_missing(
        playback.held.len(),
        pairs_up_to(playback.position + frames),
    );
    playback.held + Seq::new(missing, |i: int| decoded(playback.fetched + i))
}

/// Where the playback stands after a callback of `frames` frames.
pub open spec fn after_playing<T>(
    playback: Playback<T>,
    decoded: spec_fn(int) -> T,
    frames: nat,
) -> Playback<T> {
    let held = after_fetching(playback, decoded, frames);
    let position = playback.position + frames;
    let dropped = groups_present(held.len(), position, 2);
    Playback {
        held: held.skip((dropped * 2) as int),
        position: (position - dropped) as nat,
        fetched: (playback.fetched + held.len() - playback.held.len()) as nat,
    }
}

/// A stereo pair as the device plays it; `mix` makes one sample of two.
pub open spec fn played_frame<T>(
    pair: (T, T),
    channels: nat,
    mix: spec_fn(T, T) -> T,
    silence: T,
) -> Seq<T> {
    device_frame(channels, pair.0, pair.1, mix(pair.0, pair.1), silence)
}

/// The frames that a callback plays.
pub open spec fn frames_played<T>(
    playback: Playback<T>,
    decoded: spec_fn(int) -> T,
    frames: nat,
    channels: nat,
    mix: spec_fn(T, T) -> T,
    silence: T,
) -> Seq<Seq<T>> {
    let held = after_fetching(playback, decoded, frames);
    Seq::new(
        frames,
        |i: int|
            played_frame(stereo_pair(held, playback.position + i, silence), channels, mix, silence),
    )
}

/// Where the playback stands after some callbacks, each given by its number of frames.
pub open spec fn playback_after<T>(decoded: spec_fn(int) -> T, callbacks: Seq<nat>) -> Playback<T>
    decreases callbacks.len(),
{
    if callbacks.len() == 0 {
        playback_begun()
    } else {
        after_playing(
            playback_after(decoded, callbacks.drop_last()),
            decoded,
            callbacks.last(),
        )
    }
}

/// The frames that some callbacks play, one after the other.
pub open spec fn played_over<T>(
    decoded: spec_fn(int) -> T,
    callbacks: Seq<nat>,
    channels: nat,
    mix: spec_fn(T, T) -> T,
    silence: T,
) -> Seq<Seq<T>>
    decreases callbacks.len(),
{
    if callbacks.len() == 0 {
        Seq::empty()
    } else {
        let before = callbacks.drop_last();
        played_over(decoded, before, channels, mix, silence) + frames_played(
            playback_after(decoded, before),
            decoded,
            callbacks.last(),
            channels,
            mix,
            silence,
        )
    }
}

/// The number of frames in some callbacks.
pub open spec fn total(callbacks: Seq<nat>) -> nat
    decreases callbacks.len(),
{
    if callbacks.len() == 0 {
        0
    } else {
        total(callbacks.drop_last()) + callbacks.last()
    }
}

/// The frames of the decoder, as the device plays them: the first `frames` pairs in order.
pub open spec fn decoded_frames<T>(
    decoded: spec_fn(int) -> T,
    frames: nat,
    channels: nat,
    mix: spec_fn(T, T) -> T,
    silence: T,
) -> Seq<Seq<T>> {
    Seq::new(
        frames,
        |k: int|
            played_frame((decoded(2 * k), decoded(2 * k + 1)), channels, mix, silence),
    )
}

/// The samples held are the next ones of the decoder, and the position is the first of them.
spec fn follows<T>(playback: Playback<T>, decoded: spec_fn(int) -> T, played: nat) -> bool {
    &&& playback.position == 0
    &&& playback.held.len() % 2 == 0
    &&& playback.fetched == 2 * played + playback.held.len()
    &&& forall|i: int|
        0 <= i < playback.held.len() ==> #[trigger] playback.held[i] == decoded(2 * played + i)
}

proof fn fetching_follows<T>(
    playback: Playback<T>,
    decoded: spec_fn(int) -> T,
    played: nat,
    frames: nat,
)
    requires
        follows(playback, decoded, played),
    ensures
        ({
            let held = after_fetching(playback, decoded, frames);
            &&& held.len() % 2 == 0
            &&& held.len() >= 2 * (frames + 1)
            &&& forall|i: int|
                0 <= i < held.len() ==> #[trigger] held[i] == decoded(2 * played + i)
        }),
{
    let held = after_fetching(playback, decoded, frames);
    assert forall|i: int| 0 <= i < held.len() implies #[trigger] held[i] == decoded(
        2 * played + i,
    ) by {
        if i < playback.held.len() {
            assert(held[i] == playback.held[i]);
        } else {
            assert(held[i] == decoded(playback.fetched + (i - playback.held.len())));
        }
    }
}

proof fn playback_follows<T>(decoded: spec_fn(int) -> T, callbacks: Seq<nat>)
    ensures
        follows(playback_after(decoded, callbacks), decoded, total(callbacks)),
    decreases callbacks.len(),
{
    if callbacks.len() > 0 {
        let before = callbacks.drop_last();
        let frames = callbacks.last();
        let playback = playback_after(decoded, before);
        let played = total(before);
        playback_follows(decoded, before);
        fetching_follows(playback, decoded, played, frames);
        let held = after_fetching(playback, decoded, frames);
        let next = after_playing(playback, decoded, frames);
        assert(groups_present(held.len(), frames, 2) == frames);
        assert forall|i: int| 0 <= i < next.held.len() implies #[trigger] next.held[i] == decoded(
            2 * (played + frames) + i,
        ) by {
            assert(next.held[i] == held[frames * 2 + i]);
        }
    }
}

/// However the device cuts its work into callbacks, it plays the pairs of the decoder in order, none
/// skipped and none repeated, each laid out over its channels.
pub proof fn playback_has_no_gaps<T>(
    decoded: spec_fn(int) -> T,
    callbacks: Seq<nat>,
    channels: nat,
    mix: spec_fn(T, T) -> T,
    silence: T,
)
    ensures
        played_over(decoded, callbacks, channels, mix, silence) == decoded_frames(
            decoded,
            total(callbacks),
            channels,
            mix,
            silence,
        ),
    decreases callbacks.len(),
{
    let all = decoded_frames(decoded, total(callbacks), channels, mix, silence);
    if callbacks.len() == 0 {
        assert(all =~= Seq::empty());
    } else {
        let before = callbacks.drop_last();
        let frames = callbacks.last();
        let playback = playback_after(decoded, before);
        let played = total(before);
        playback_has_no_gaps(decoded, before, channels, mix, silence);
        playback_follows(decoded, before);
        fetching_follows(playback, decoded, played, frames);
        let held = after_fetching(playback, decoded, frames);
        let now = frames_played(playback, decoded, frames, channels, mix, silence);
        assert forall|i: int| 0 <= i < frames implies now[i] == #[trigger] all[played + i] by {
            assert(held[2 * i] == decoded(2 * (played + i)));
            assert(held[2 * i + 1] == decoded(2 * (played + i) + 1));
        }
        assert(decoded_frames(decoded, played, channels, mix, silence) + now =~= all) by {
            assert forall|k: int| 0 <= k < all.len() implies (decoded_frames(
                decoded,
                played,
                channels,
                mix,
                silence,
            ) + now)[k] == all[k] by {
                if k >= played {
                    assert(all[played + (k - played)] == now[k - played]);
                }
            }
        }
    }
}

/// What is left of a recording between two callbacks.
pub struct Recording<T> {
    /// Samples of the device that were not converted yet.
    pub held: Seq<T>,
    /// Converted samples that do not fill a frame yet.
    pub buffered: Seq<T>,
}

/// Before the first callback.
pub open spec fn recording_begun<T>() -> Recording<T> {
    Recording { held: Seq::empty(), buffered: Seq::empty() }
}

/// How many samples are converted from a position on, one after the other as long as that is
/// possible.
pub open spec fn conversions(position: nat, held: nat) -> nat
    decreases held - position,
{
    if is_convertible(position, held) {
        1 + conversions(position + 1, held)
    } else {
        0
    }
}

/// The samples that a callback converts.
pub open spec fn samples_converted<T>(recording: Recording<T>, arrived: Seq<T>) -> Seq<T> {
    let held = recording.held + arrived;
    held.take(conversions(0, held.len()) as int)
}

/// The frames that a callback completes.
pub open spec fn frames_completed<T>(recording: Recording<T>, arrived: Seq<T>) -> Seq<Seq<T>> {
    whole_frames(recording.buffered + samples_converted(recording, arrived))
}

/// What is left after a callback in which samples arrived from an open microphone.
pub open spec fn after_recording<T>(recording: Recording<T>, arrived: Seq<T>) -> Recording<T> {
    let held = recording.held + arrived;
    let dropped = groups_present(held.len(), conversions(0, held.len()), 1);
    Recording {
        held: held.skip(dropped as int),
        buffered: unframed(recording.buffered + samples_converted(recording, arrived)),
    }
}

/// What is left after some callbacks, each given by the samples that arrived.
pub open spec fn recording_after<T>(callbacks: Seq<Seq<T>>) -> Recording<T>
    decreases callbacks.len(),
{
    if callbacks.len() == 0 {
        recording_begun()
    } else {
        after_recording(recording_after(callbacks.drop_last()), callbacks.last())
    }
}

/// The frames that some callbacks complete, one after the other.
pub open spec fn recorded_over<T>(callbacks: Seq<Seq<T>>) -> Seq<Seq<T>>
    decreases callbacks.len(),
{
    if callbacks.len() == 0 {
        Seq::empty()
    } else {
        let before = callbacks.drop_last();
        recorded_over(before) + frames_completed(recording_after(before), callbacks.last())
    }
}

/// All samples but the last, which waits for the one after it.
pub open spec fn all_but_last<T>(samples: Seq<T>) -> Seq<T> {
    if samples.len() == 0 {
        samples
    } else {
        samples.drop_last()
    }
}

proof fn conversions_leave_one(position: nat, held: nat)
    ensures
        conversions(position, held) == (if position + 1 < held {
            (held - 1 - position) as nat
        } else {
            0
        }),
    decreases held - position,
{
    if is_convertible(position, held) {
        conversions_leave_one(position + 1, held);
    }
}

proof fn recording_follows<T>(callbacks: Seq<Seq<T>>)
    ensures
        recorded_over(callbacks) == whole_frames(all_but_last(joined(callbacks))),
        recording_after(callbacks).buffered == unframed(all_but_last(joined(callbacks))),
        all_but_last(joined(callbacks)) + recording_after(callbacks).held == joined(callbacks),
        recording_after(callbacks).held.len() <= 1,
    decreases callbacks.len(),
{
    let all = joined(callbacks);
    if callbacks.len() == 0 {
        assert(whole_frames(all_but_last(all)) =~= Seq::empty());
        assert(unframed(all_but_last(all)) =~= Seq::empty());
        assert(all_but_last(all) + recording_after(callbacks).held =~= all);
    } else {
        let before = callbacks.drop_last();
        let arrived = callbacks.last();
        let recording = recording_after(before);
        recording_follows(before);
        let done = all_but_last(joined(before));
        let held = recording.held + arrived;
        conversions_leave_one(0, held.len());
        let now = samples_converted(recording, arrived);
        assert(all =~= done + held);
        assert(done + now =~= all_but_last(all));
        frames_do_not_depend_on_arrival(done, now);
        assert(recording_after(callbacks).held =~= held.skip(now.len() as int));
        assert(all_but_last(all) + recording_after(callbacks).held =~= all);
    }
}

/// However the device cuts its work into callbacks, what is recorded with an open microphone comes
/// out in frames of consecutive samples, in order, none skipped and none repeated. Of so many
/// samples all but the last are converted, and every frame that these fill is there.
pub proof fn recording_has_no_gaps<T>(callbacks: Seq<Seq<T>>)
    ensures
        recorded_over(callbacks) == whole_frames(all_but_last(joined(callbacks))),
        joined(callbacks).len() >= 1 ==> recorded_over(callbacks).len() == frame_count(
            (joined(callbacks).len() - 1) as nat,
        ),
        forall|k: int|
            0 <= k < recorded_over(callbacks).len() ==> #[trigger] recorded_over(callbacks)[k]
                == joined(callbacks).subrange(k * FRAME_SAMPLES, (k + 1) * FRAME_SAMPLES),
{
    let all = joined(callbacks);
    let converted = all_but_last(all);
    recording_follows(callbacks);
    assert forall|k: int| 0 <= k < whole_frames(converted).len() implies #[trigger] whole_frames(
        converted,
    )[k] == all.subrange(k * FRAME_SAMPLES, (k + 1) * FRAME_SAMPLES) by {
        assert(converted.subrange(k * FRAME_SAMPLES, (k + 1) * FRAME_SAMPLES) =~= all.subrange(
            k * FRAME_SAMPLES,
            (k + 1) * FRAME_SAMPLES,
        ));
    }
}

} // verus!

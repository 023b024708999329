use std::sync::{Arc, Mutex};
use ts3_client::audio::{
    can_convert, choose_device, drop_groups, frames_arrived, lay_out, missing_samples, pairs_needed,
    speaker, stereo_frame, voice_packet, DeviceChoice, FrameBuffer, TransmitGate, VoiceMode,
    FRAME_SAMPLES, MAX_OPUS_FRAME_SIZE, TS_RATE,
};
use ts3_client::session::{Session, SessionAction, SessionEvent};
use ts3_client::sync::{guard_if_free, guard_of, Locked, TryLocked};
use ts3_client::texts::english;
use ts3_client::volumes::VolumeMap;
use ts3_client::{lock, try_lock};

#[test]
fn frames_are_20_ms() {
    assert_eq!(FRAME_SAMPLES as u32 * 50, TS_RATE);
    assert_eq!(MAX_OPUS_FRAME_SIZE, 1275);
}

fn packet_from_server(kind: u8, from: u16, codec: u8) -> Vec<u8> {
    let mut raw = vec![0u8; 10];
    raw.push(kind);
    raw.extend_from_slice(&[0, 1]);
    raw.extend_from_slice(&from.to_be_bytes());
    raw.push(codec);
    raw.extend_from_slice(&[1, 2, 3]);
    raw
}

#[test]
fn speaker_is_read_from_a_packet() {
    assert_eq!(speaker(&packet_from_server(0, 0x1234, 4)), Some(0x1234));
    assert_eq!(speaker(&packet_from_server(1, 7, 5)), Some(7));
    assert_eq!(speaker(&packet_from_server(0x80, 7, 4)), Some(7));
    assert_eq!(speaker(&packet_from_server(9, 7, 4)), None);
    assert_eq!(speaker(&packet_from_server(0, 7, 6)), None);
    assert_eq!(speaker(&packet_from_server(0, 7, 4)[..15]), None);
    assert_eq!(speaker(&packet_from_server(0, 7, 4)[..16]), Some(7));
    assert_eq!(speaker(&[]), None);
}

#[test]
fn received_voice_is_decoded_for_its_speaker() {
    let mut session = Session::new();
    let event = SessionEvent::AudioReceived(packet_from_server(0, 300, 4));
    let actions = session.step(event, &english(), &VolumeMap::new());
    assert!(matches!(actions[..], [SessionAction::Decode { from: 300 }]));
    let event = SessionEvent::AudioReceived(vec![0; 3]);
    assert!(session.step(event, &english(), &VolumeMap::new()).is_empty());
}

#[test]
fn voice_packet_carries_the_frame() {
    let packet = voice_packet(&[9, 8, 7]);
    assert_eq!(packet[..15], [0; 15]);
    assert_eq!(packet[15..], [4, 9, 8, 7]);
    assert_eq!(voice_packet(&[]).len(), 16);
}

#[test]
fn voice_activation_goes_on_for_300_ms() {
    let mut gate = TransmitGate::new();
    let mode = VoiceMode::VoiceActivation;
    assert!(!gate.passes(mode, false, true));
    assert!(gate.passes(mode, true, false));
    for _ in 0..15 {
        assert!(gate.passes(mode, false, false));
    }
    assert!(!gate.passes(mode, false, false));
    assert!(gate.passes(mode, true, false));
    gate.reset();
    assert!(!gate.passes(mode, false, false));
}

#[test]
fn other_modes_send_always_or_by_key() {
    let mut gate = TransmitGate::new();
    assert!(gate.passes(VoiceMode::Always, false, false));
    assert!(gate.passes(VoiceMode::PushToTalk, false, true));
    assert!(!gate.passes(VoiceMode::PushToTalk, true, false));
}

#[test]
fn change_of_mode_leaves_the_hold_as_it_is() {
    let mut gate = TransmitGate::new();
    assert!(gate.passes(VoiceMode::Always, true, false));
    for _ in 0..7 {
        assert!(!gate.passes(VoiceMode::PushToTalk, false, false));
    }
    for _ in 0..8 {
        assert!(gate.passes(VoiceMode::VoiceActivation, false, false));
    }
    assert!(!gate.passes(VoiceMode::VoiceActivation, false, false));
}

#[test]
fn muted_microphone_sends_and_keeps_nothing() {
    let mut buffer = FrameBuffer::new();
    let mut gate = TransmitGate::new();
    gate.passes(VoiceMode::VoiceActivation, true, false);
    assert!(frames_arrived(&mut buffer, &mut gate, false, &[1.0f32; 900]).is_empty());
    assert_eq!(gate.held, 15);
    assert!(frames_arrived(&mut buffer, &mut gate, true, &[2.0f32; 2000]).is_empty());
    assert!(buffer.samples.is_empty());
    assert_eq!(gate.held, 0);
    let frames = frames_arrived(&mut buffer, &mut gate, false, &[3.0f32; 1000]);
    assert_eq!(frames, [vec![3.0f32; 960]]);
    assert_eq!(buffer.samples, [3.0f32; 40]);
}

#[test]
fn frames_come_out_whole_and_in_order() {
    let mut buffer = FrameBuffer::new();
    for i in 0..2000 {
        buffer.push(i as f32);
    }
    let frames = buffer.take_frames();
    assert_eq!(frames.len(), 2);
    assert_eq!(frames[0].len(), 960);
    assert_eq!(frames[1][0], 960.0);
    assert_eq!(buffer.samples.len(), 80);
    assert_eq!(buffer.samples[0], 1920.0);
    assert!(buffer.take_frames().is_empty());
    for i in 2000..2880 {
        buffer.push(i as f32);
    }
    let frames = buffer.take_frames();
    assert_eq!(frames.len(), 1);
    assert_eq!(frames[0][0], 1920.0);
    assert_eq!(frames[0][959], 2879.0);
    assert!(buffer.samples.is_empty());
    buffer.push(1.0);
    buffer.clear();
    assert!(buffer.samples.is_empty());
}

#[test]
fn missing_pairs_are_fetched() {
    assert_eq!(missing_samples(10, 5), 0);
    assert_eq!(missing_samples(10, 8), 6);
    assert_eq!(missing_samples(11, 8), 6);
    assert_eq!(missing_samples(0, 3), 6);
    assert_eq!(missing_samples(10, 0), 0);
}

#[test]
fn pairs_past_the_end_are_silent() {
    let samples = [1.0f32, 2.0, 3.0, 4.0, 5.0];
    assert_eq!(stereo_frame(&samples, 0, 0.0), (1.0, 2.0));
    assert_eq!(stereo_frame(&samples, 1, 0.0), (3.0, 4.0));
    assert_eq!(stereo_frame(&samples, 2, 0.0), (0.0, 0.0));
    assert_eq!(stereo_frame(&samples, usize::MAX, 0.0), (0.0, 0.0));
}

#[test]
fn played_pairs_are_dropped() {
    let mut samples = vec![1, 2, 3, 4, 5, 6, 7];
    assert_eq!(drop_groups(&mut samples, 2, 2), 2);
    assert_eq!(samples, [5, 6, 7]);
    assert_eq!(drop_groups(&mut samples, 9, 2), 1);
    assert_eq!(samples, [7]);
    assert_eq!(drop_groups(&mut samples, 1, 1), 1);
    assert!(samples.is_empty());
}

#[test]
fn pairs_are_laid_out_over_the_channels() {
    let mut one = [9.0f32];
    lay_out(&mut one, 1.0, 2.0, 1.5, 0.0);
    assert_eq!(one, [1.5]);
    let mut two = [9.0f32; 2];
    lay_out(&mut two, 1.0, 2.0, 1.5, 0.0);
    assert_eq!(two, [1.0, 2.0]);
    let mut six = [9.0f32; 6];
    lay_out(&mut six, 1.0, 2.0, 1.5, 0.0);
    assert_eq!(six, [1.0, 2.0, 0.0, 0.0, 0.0, 0.0]);
}

#[test]
fn playback_goes_on_over_callbacks() {
    let mut held: Vec<f32> = Vec::new();
    let mut fetched = 0;
    let mut position = 0;
    let mut played: Vec<[f32; 3]> = Vec::new();
    for frames in [3, 0, 1, 7, 2] {
        for _ in 0..missing_samples(held.len(), pairs_needed(position + frames)) {
            held.push(fetched as f32);
            fetched += 1;
        }
        for i in 0..frames {
            let (left, right) = stereo_frame(&held, position + i, -1.0);
            let mut out = [9.0; 3];
            lay_out(&mut out, left, right, (left + right) * 0.5, 0.0);
            played.push(out);
        }
        position += frames;
        position -= drop_groups(&mut held, position, 2);
    }
    assert_eq!(played.len(), 13);
    for (k, frame) in played.iter().enumerate() {
        assert_eq!(*frame, [2.0 * k as f32, 2.0 * k as f32 + 1.0, 0.0]);
    }
}

#[test]
fn recording_goes_on_over_callbacks() {
    let mut held: Vec<f32> = Vec::new();
    let mut buffer = FrameBuffer::new();
    let mut gate = TransmitGate::new();
    let mut arrived = 0;
    let mut recorded: Vec<f32> = Vec::new();
    for samples in [1, 959, 0, 1, 2000, 879] {
        for _ in 0..samples {
            held.push(arrived as f32);
            arrived += 1;
        }
        let mut position = 0;
        let mut converted: Vec<f32> = Vec::new();
        while can_convert(position, held.len()) {
            converted.push(held[position]);
            position += 1;
        }
        assert_eq!(drop_groups(&mut held, position, 1), position);
        for frame in frames_arrived(&mut buffer, &mut gate, false, &converted) {
            assert_eq!(frame.len(), 960);
            recorded.extend(frame);
        }
    }
    assert_eq!(arrived, 3840);
    assert_eq!(recorded.len(), 3 * 960);
    for (k, sample) in recorded.iter().enumerate() {
        assert_eq!(*sample, k as f32);
    }
}

#[test]
fn absent_devices_fall_back() {
    let names = vec!["a".to_owned(), "b".to_owned(), "b".to_owned()];
    assert_eq!(choose_device(&names, &None), DeviceChoice::Default);
    assert_eq!(choose_device(&names, &Some("b".to_owned())), DeviceChoice::Listed(1));
    assert_eq!(choose_device(&names, &Some("c".to_owned())), DeviceChoice::Fallback);
}

#[test]
fn locking_survives_a_panic() {
    let mutex = Arc::new(Mutex::new(1));
    *lock(&mutex) += 1;
    assert_eq!(*lock(&mutex), 2);
    let other = mutex.clone();
    let runtime = tokio::runtime::Builder::new_current_thread().build().unwrap();
    let panicked = runtime.block_on(async {
        tokio::spawn(async move {
            let _guard = other.lock().unwrap();
            panic!("while holding the lock");
        })
        .await
    });
    assert!(panicked.is_err());
    assert!(mutex.is_poisoned());
    *lock(&mutex) += 1;
    assert_eq!(try_lock(&mutex).map(|guard| *guard), Some(3));
}

#[test]
fn trying_does_not_wait() {
    let mutex = Mutex::new(5);
    let held = lock(&mutex);
    assert!(try_lock(&mutex).is_none());
    drop(held);
    assert_eq!(try_lock(&mutex).map(|guard| *guard), Some(5));
}

#[test]
fn guards_are_taken_poisoned_or_not() {
    assert_eq!(guard_of(Locked::Held(1)), 1);
    assert_eq!(guard_of(Locked::Poisoned(2)), 2);
    assert_eq!(guard_if_free(TryLocked::Held(1)), Some(1));
    assert_eq!(guard_if_free(TryLocked::Poisoned(2)), Some(2));
    assert_eq!(guard_if_free(TryLocked::<i32>::WouldBlock), None);
}

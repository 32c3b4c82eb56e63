use audio_chat::audio::cache::{AudioCache, InputStep, OutputStep};
use audio_chat::audio::controller::ControllerAction;
use audio_chat::audio::samples::{chunks, deinterleave, to_stereo};

fn cache(frame_size: usize, channels: usize) -> AudioCache<f32> {
    AudioCache::new(48000, 44100, 16000, frame_size, channels)
}

#[test]
fn deinterleave_splits_channels() {
    let (chans, rest) = deinterleave(&vec![1, 2, 3, 4, 5, 6, 7], 2);
    assert_eq!(chans, vec![vec![1, 3, 5], vec![2, 4, 6]]);
    assert_eq!(rest, vec![7]);
    let (chans, rest) = deinterleave(&vec![1, 2, 3], 3);
    assert_eq!(chans, vec![vec![1], vec![2], vec![3]]);
    assert!(rest.is_empty());
    let (chans, rest) = deinterleave(&vec![1, 2], 3);
    assert_eq!(chans, vec![Vec::<i32>::new(), vec![], vec![]]);
    assert_eq!(rest, vec![1, 2]);
}

#[test]
fn chunks_cut_frames() {
    let (frames, rest) = chunks(&vec![1, 2, 3, 4, 5, 6, 7], 3);
    assert_eq!(frames, vec![vec![1, 2, 3], vec![4, 5, 6]]);
    assert_eq!(rest, vec![7]);
    // frames followed by the rest give the stream again
    let joined: Vec<i32> = frames.concat().into_iter().chain(rest).collect();
    assert_eq!(joined, vec![1, 2, 3, 4, 5, 6, 7]);
}

#[test]
fn stereo_doubles_samples() {
    assert_eq!(to_stereo(&vec![1i16, -2, 3]), vec![1, 1, -2, -2, 3, 3]);
    assert!(to_stereo(&Vec::<i16>::new()).is_empty());
}

#[test]
fn input_pipeline_steps() {
    let mut c = cache(2, 2);
    assert!(matches!(c.send_audio(), InputStep::Idle));
    // 4 samples = 2 frames of 2 channels: not more than frame_size * channels
    c.write_input_data(vec![0.1, 0.2, 0.3, 0.4]);
    assert!(matches!(c.send_audio(), InputStep::Idle));
    c.write_input_data(vec![0.5]);
    match c.send_audio() {
        InputStep::Resample(chans) => {
            assert_eq!(chans, vec![vec![0.1, 0.3], vec![0.2, 0.4]]);
        }
        _ => panic!("expected a resample step"),
    }
    // the partial frame stays
    assert!(matches!(c.resample_in(), InputStep::Idle));
    c.push_resampled_in(vec![1.0, 2.0, 3.0]);
    match c.send_audio() {
        InputStep::Encode(frames) => assert_eq!(frames, vec![vec![1.0, 2.0]]),
        _ => panic!("expected an encode step"),
    }
    c.push_encoded(vec![7, 7]);
    c.push_encoded(vec![8]);
    match c.send_audio() {
        InputStep::Send(p) => assert_eq!(p, vec![vec![7, 7], vec![8]]),
        _ => panic!("expected a send step"),
    }
    assert!(matches!(c.send_audio(), InputStep::Idle));
}

#[test]
fn read_needs_an_active_session() {
    let mut c = cache(2, 1);
    c.push_resampled_out(vec![1, 2, 3]);
    let r = c.read(2);
    assert!(r.warm_up);
    assert!(r.samples.is_none());
    assert!(matches!(r.step, OutputStep::Idle));
    let r = c.read(2);
    assert!(!r.warm_up);
    assert!(r.samples.is_none());
    c.session_start();
    let r = c.read(2);
    assert!(r.warm_up);
    assert!(r.samples.is_none());
    let r = c.read(2);
    assert!(!r.warm_up);
    assert_eq!(r.samples, Some(vec![1, 1]));
    let r = c.read(2);
    assert!(!r.warm_up);
    assert_eq!(r.samples, Some(vec![2, 2]));
    // only two samples left: a read needs more than it takes
    let r = c.read(2);
    assert!(r.samples.is_none());
}

#[test]
fn output_pipeline_steps() {
    let mut c = cache(2, 1);
    c.session_start();
    assert!(c.read(4).warm_up);
    let r = c.read(4);
    assert!(r.samples.is_none());
    assert!(matches!(r.step, OutputStep::Idle));
    c.write_output_data(vec![1]);
    c.write_output_data(vec![2, 3]);
    match c.read(4).step {
        OutputStep::Decode(p) => assert_eq!(p, vec![vec![1], vec![2, 3]]),
        _ => panic!("expected a decode step"),
    }
    // more than 3 frames of 2 samples must wait before resampling
    c.push_decoded(vec![1, 2, 3, 4, 5, 6]);
    assert!(matches!(c.read(4).step, OutputStep::Idle));
    c.push_decoded(vec![7]);
    match c.read(4).step {
        OutputStep::Resample(pcm) => assert_eq!(pcm, vec![1, 2, 3, 4, 5, 6, 7]),
        _ => panic!("expected a resample step"),
    }
    c.push_resampled_out(vec![9, 8, 7]);
    assert_eq!(c.read(4).samples, Some(vec![9, 9, 8, 8]));
}

#[test]
fn session_stop_drops_playback() {
    let mut c = cache(2, 1);
    c.session_start();
    c.push_resampled_out(vec![1, 2, 3, 4]);
    c.write_output_data(vec![5]);
    c.push_decoded(vec![6]);
    c.session_stop();
    assert!(!c.is_session_active());
    assert!(c.read(1).warm_up);
    let r = c.read(1);
    assert!(r.samples.is_none());
    assert!(matches!(r.step, OutputStep::Idle));
    // restart: nothing of the old session comes back
    c.session_start();
    let r = c.read(1);
    assert!(r.warm_up);
    let r = c.read(1);
    assert!(!r.warm_up);
    assert!(r.samples.is_none());
    assert!(matches!(r.step, OutputStep::Idle));
}

#[test]
fn cache_getters() {
    let c = cache(960, 2);
    assert_eq!(c.input_rate(), 48000);
    assert_eq!(c.output_rate(), 44100);
    assert_eq!(c.opus_rate(), 16000);
    assert_eq!(c.frame_size(), 960);
    assert_eq!(c.input_channels(), 2);
    assert!(!c.is_session_active());
}

#[test]
fn restart_on_sentence_start() {
    let mut c = cache(2, 1);
    c.session_start();
    c.push_resampled_out(vec![1, 2, 3]);
    c.write_output_data(vec![4]);
    // other actions leave the buffers alone
    c.apply_action(&ControllerAction::SentenceEnd);
    c.apply_action(&ControllerAction::ShowText("x".to_string()));
    assert!(c.read(1).warm_up);
    assert_eq!(c.read(1).samples, Some(vec![1]));
    c.apply_action(&ControllerAction::RestartSession);
    assert!(c.is_session_active());
    assert!(c.read(1).warm_up);
    let r = c.read(1);
    assert!(r.samples.is_none());
    assert!(matches!(r.step, OutputStep::Idle));
    c.push_resampled_out(vec![7]);
    c.restart_session();
    assert!(c.read(1).warm_up);
    assert!(c.read(1).samples.is_none());
}

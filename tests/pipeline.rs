use std::cell::Cell;

use voice_transcribe::audio::{downmix_samples, AudioUnit, PipelineError};
use voice_transcribe::ingest::{IngestAction, Pipeline, VoiceEvent};
use voice_transcribe::params::InferenceParameters;
use voice_transcribe::resample::{check_rate, Resampler, ENGINE_RATE};
use voice_transcribe::session::EngineSession;
use voice_transcribe::transcript::{format_segment, transcript_lines, TranscriptSegment};
use voice_transcribe::window::AudioWindow;

/// A stand-in engine: it finds no speech in silence, and one segment otherwise.
struct StubEngine {
    calls: usize,
}

impl StubEngine {
    fn transcribe(&mut self, samples: &[i16]) -> Vec<TranscriptSegment> {
        self.calls += 1;
        if samples.iter().all(|s| *s == 0) {
            Vec::new()
        } else {
            vec![TranscriptSegment::new(0, 100, String::from("speech"))]
        }
    }
}

fn stereo_unit(frames: usize, value: i16) -> AudioUnit {
    AudioUnit::new(vec![value; frames * 2], 2, 48000)
}

#[test]
fn downmix_of_identical_channels_is_the_channel() {
    let stereo = vec![1, 1, -5, -5, 300, 300, -32768, -32768, 32767, 32767];
    assert_eq!(downmix_samples(&stereo, 2), vec![1, -5, 300, -32768, 32767]);
}

#[test]
fn downmix_of_three_identical_channels() {
    let samples = vec![7, 7, 7, -9, -9, -9];
    assert_eq!(downmix_samples(&samples, 3), vec![7, -9]);
}

#[test]
fn downmix_takes_the_mean_rounded_down() {
    let stereo = vec![1, 2, -1, -2, 10, 20, 32767, 32766, -32768, -32767];
    assert_eq!(downmix_samples(&stereo, 2), vec![1, -2, 15, 32766, -32768]);
}

#[test]
fn downmix_of_mono_keeps_the_samples() {
    let mono = vec![3, -4, 5];
    assert_eq!(downmix_samples(&mono, 1), mono);
}

#[test]
fn downmix_of_empty_is_empty() {
    assert_eq!(downmix_samples(&Vec::new(), 2), Vec::<i16>::new());
}

#[test]
fn unit_with_partial_frame_is_rejected() {
    let unit = AudioUnit::new(vec![1, 2, 3], 2, 48000);
    assert_eq!(unit.validate(), Err(PipelineError::ChannelMismatch));
    let resampler = Resampler::for_engine();
    assert!(matches!(resampler.resample(&unit), Err(PipelineError::ChannelMismatch)));
}

#[test]
fn unit_with_no_channels_is_rejected() {
    let unit = AudioUnit::new(vec![1, 2], 0, 48000);
    assert_eq!(unit.validate(), Err(PipelineError::ChannelMismatch));
}

#[test]
fn unit_with_unsupported_rate_is_rejected() {
    assert_eq!(AudioUnit::new(vec![1, 2], 2, 0).validate(), Err(PipelineError::UnsupportedRate));
    assert_eq!(
        AudioUnit::new(vec![1, 2], 2, 192001).validate(),
        Err(PipelineError::UnsupportedRate)
    );
    assert_eq!(AudioUnit::new(vec![1, 2], 2, 192000).validate(), Ok(()));
}

#[test]
fn rate_check_accepts_only_the_engine_rate() {
    assert_eq!(check_rate(16000, ENGINE_RATE), Ok(()));
    assert_eq!(check_rate(48000, ENGINE_RATE), Err(PipelineError::RateMismatch));
}

#[test]
fn resampler_target_must_be_supported() {
    assert!(matches!(Resampler::with_target(0), Err(PipelineError::UnsupportedRate)));
    assert!(matches!(Resampler::with_target(200000), Err(PipelineError::UnsupportedRate)));
    assert_eq!(Resampler::with_target(8000).ok().map(|r| r.target_rate), Some(8000));
    assert_eq!(Resampler::for_engine().target_rate, 16000);
}

#[test]
fn one_second_of_stereo_silence_becomes_sixteen_thousand_zero_samples() {
    let resampler = Resampler::for_engine();
    let buf = resampler.resample(&stereo_unit(48000, 0)).ok().unwrap();
    assert_eq!(buf.sample_rate, 16000);
    assert_eq!(buf.samples.len(), 16000);
    assert!(buf.samples.iter().all(|s| *s == 0));
}

#[test]
fn resampling_scales_the_length_by_the_rate_ratio() {
    let resampler = Resampler::for_engine();
    let buf = resampler.resample(&stereo_unit(960, 1000)).ok().unwrap();
    assert_eq!(buf.sample_rate, 16000);
    assert_eq!(buf.samples.len(), 320);
    let buf = resampler.resample(&AudioUnit::new(vec![500; 7], 1, 48000)).ok().unwrap();
    assert_eq!(buf.samples.len(), 3);
}

#[test]
fn resampling_at_the_engine_rate_keeps_the_down_mix() {
    let resampler = Resampler::for_engine();
    let buf = resampler.resample(&AudioUnit::new(vec![10, 20, 30, 40], 2, 16000)).ok().unwrap();
    assert_eq!(buf.sample_rate, 16000);
    assert_eq!(buf.samples, vec![15, 35]);
}

#[test]
fn converted_rate_other_than_the_engine_rate_is_rejected() {
    for target in [8000, 48000] {
        let resampler = Resampler::with_target(target).ok().unwrap();
        let unit = AudioUnit::new(vec![10, 20, 30, 40], 2, 48000);
        assert!(matches!(resampler.resample(&unit), Err(PipelineError::RateMismatch)));
    }
}

#[test]
fn misconfigured_pipeline_never_hands_a_buffer_to_the_engine() {
    let resampler = Resampler::with_target(48000).ok().unwrap();
    let mut pipeline: Pipeline<StubEngine> = Pipeline::new(resampler, InferenceParameters::standard());
    let action = pipeline.ingest(VoiceEvent::VoicePacket(Some(stereo_unit(960, 5))), || Some(StubEngine { calls: 0 }));
    assert!(matches!(action, IngestAction::Drop(PipelineError::RateMismatch)));
    assert_eq!(pipeline.session.engine_mut().calls, 0);
}

#[test]
fn simulated_callbacks_load_the_model_once() {
    let loads = Cell::new(0u32);
    let mut session: EngineSession<StubEngine> = EngineSession::new();
    for _ in 0..8 {
        let r = session.get_or_init(|| {
            loads.set(loads.get() + 1);
            Some(StubEngine { calls: 0 })
        });
        assert_eq!(r, Ok(()));
    }
    assert_eq!(loads.get(), 1);
    assert_eq!(session.load_count(), 1);
    assert!(session.is_ready());
}

#[test]
fn failed_load_is_never_retried() {
    let loads = Cell::new(0u32);
    let mut session: EngineSession<StubEngine> = EngineSession::new();
    for _ in 0..3 {
        let r = session.get_or_init(|| {
            loads.set(loads.get() + 1);
            None
        });
        assert_eq!(r, Err(PipelineError::ModelUnavailable));
    }
    assert_eq!(loads.get(), 1);
    assert!(session.has_failed());
    assert!(!session.is_ready());
}

#[test]
fn engine_calls_reach_the_loaded_engine() {
    let mut session: EngineSession<StubEngine> = EngineSession::new();
    assert_eq!(session.get_or_init(|| Some(StubEngine { calls: 0 })), Ok(()));
    session.engine_mut().transcribe(&[0]);
    assert_eq!(session.get_or_init(|| Some(StubEngine { calls: 100 })), Ok(()));
    session.engine_mut().transcribe(&[1]);
    assert_eq!(session.engine_mut().calls, 2);
}

fn new_pipeline() -> Pipeline<StubEngine> {
    Pipeline::new(Resampler::for_engine(), InferenceParameters::standard())
}

#[test]
fn packet_without_audio_is_skipped() {
    let loads = Cell::new(0u32);
    let mut pipeline = new_pipeline();
    let action = pipeline.ingest(VoiceEvent::VoicePacket(None), || {
        loads.set(loads.get() + 1);
        Some(StubEngine { calls: 0 })
    });
    assert!(matches!(action, IngestAction::Skip));
    assert_eq!(loads.get(), 0);
    assert_eq!(pipeline.session.load_count(), 0);
}

#[test]
fn packet_with_empty_audio_is_skipped() {
    let loads = Cell::new(0u32);
    let mut pipeline = new_pipeline();
    let unit = AudioUnit::new(Vec::new(), 2, 48000);
    let action = pipeline.ingest(VoiceEvent::VoicePacket(Some(unit)), || {
        loads.set(loads.get() + 1);
        Some(StubEngine { calls: 0 })
    });
    assert!(matches!(action, IngestAction::Skip));
    assert_eq!(loads.get(), 0);
    assert_eq!(pipeline.session.load_count(), 0);
    assert!(pipeline.session.get_or_init(|| Some(StubEngine { calls: 0 })).is_ok());
    let action = pipeline.ingest(VoiceEvent::VoicePacket(Some(AudioUnit::new(Vec::new(), 2, 48000))), || None);
    assert!(matches!(action, IngestAction::Skip));
    assert_eq!(pipeline.session.engine_mut().calls, 0);
}

#[test]
fn non_audio_events_are_only_observed() {
    let mut pipeline = new_pipeline();
    for event in [
        VoiceEvent::SpeakingStateUpdate,
        VoiceEvent::SpeakingUpdate,
        VoiceEvent::RtcpPacket,
        VoiceEvent::ClientDisconnect,
        VoiceEvent::Other,
    ] {
        let action = pipeline.ingest(event, || Some(StubEngine { calls: 0 }));
        assert!(matches!(action, IngestAction::Observe));
    }
    assert_eq!(pipeline.session.load_count(), 0);
}

#[test]
fn partial_frame_never_reaches_the_engine() {
    let mut pipeline = new_pipeline();
    let unit = AudioUnit::new(vec![1, 2, 3], 2, 48000);
    let action = pipeline.ingest(VoiceEvent::VoicePacket(Some(unit)), || Some(StubEngine { calls: 0 }));
    assert!(matches!(action, IngestAction::Drop(PipelineError::ChannelMismatch)));
    assert_eq!(pipeline.session.engine_mut().calls, 0);
}

#[test]
fn silence_end_to_end_emits_no_lines() {
    let mut pipeline = new_pipeline();
    let action =
        pipeline.ingest(VoiceEvent::VoicePacket(Some(stereo_unit(48000, 0))), || Some(StubEngine { calls: 0 }));
    let buf = match action {
        IngestAction::Transcribe(buf) => buf,
        _ => panic!("silence should be transcribed"),
    };
    assert_eq!(buf.sample_rate, 16000);
    assert_eq!(buf.samples.len(), 16000);
    let segments = pipeline.session.engine_mut().transcribe(&buf.samples);
    assert!(transcript_lines(&segments).is_empty());
    assert_eq!(pipeline.session.engine_mut().calls, 1);
}

#[test]
fn model_load_failure_is_fatal_from_the_first_packet() {
    let loads = Cell::new(0u32);
    let mut pipeline = new_pipeline();
    for _ in 0..3 {
        let action = pipeline.ingest(VoiceEvent::VoicePacket(Some(stereo_unit(960, 5))), || {
            loads.set(loads.get() + 1);
            None
        });
        assert!(matches!(action, IngestAction::Fatal));
    }
    assert_eq!(loads.get(), 1);
    assert!(pipeline.session.has_failed());
}

#[test]
fn segment_line_format() {
    let seg = TranscriptSegment::new(0, 1500, String::from("hello"));
    assert_eq!(format_segment(&seg), "[0 - 1500]: hello\n");
    let seg = TranscriptSegment::new(-12, 7, String::from("x"));
    assert_eq!(format_segment(&seg), "[-12 - 7]: x\n");
    let seg = TranscriptSegment::new(i64::MIN, i64::MAX, String::new());
    assert_eq!(format_segment(&seg), format!("[{} - {}]: \n", i64::MIN, i64::MAX));
}

#[test]
fn transcript_lines_keep_segment_order() {
    let segments = vec![
        TranscriptSegment::new(0, 10, String::from("a")),
        TranscriptSegment::new(10, 25, String::from("b")),
    ];
    assert_eq!(transcript_lines(&segments), vec!["[0 - 10]: a\n".to_string(), "[10 - 25]: b\n".to_string()]);
}

#[test]
fn standard_parameters() {
    let p = InferenceParameters::standard();
    assert_eq!(p.best_of, 1);
    assert_eq!(p.threads, 1);
    assert_eq!(p.language, "ja");
    assert!(!p.print_special && !p.print_progress && !p.print_realtime && !p.print_timestamps);
}

#[test]
fn window_needs_positive_lengths() {
    assert!(AudioWindow::new(0, 10, 5).is_none());
    assert!(AudioWindow::new(10, 0, 5).is_none());
    assert!(AudioWindow::new(10, 10, 5).is_some());
}

#[test]
fn window_holds_samples_until_full() {
    let mut w = AudioWindow::new(6, 100, 0).unwrap();
    assert_eq!(w.push(&vec![1, 2, 3]), None);
    assert_eq!(w.pending_len(), 3);
    assert_eq!(w.push(&vec![4, 5, 6, 7]), Some(vec![1, 2, 3, 4, 5, 6, 7]));
    assert_eq!(w.pending_len(), 0);
}

#[test]
fn window_is_cut_by_a_pause_after_speech() {
    let mut w = AudioWindow::new(1000, 3, 10).unwrap();
    assert_eq!(w.push(&vec![500, -400, 5]), None);
    assert_eq!(w.push(&vec![-10, 0]), Some(vec![500, -400, 5, -10, 0]));
}

#[test]
fn window_of_silence_waits_for_full_length() {
    let mut w = AudioWindow::new(8, 2, 10).unwrap();
    assert_eq!(w.push(&vec![0, 0, 0, 0]), None);
    assert_eq!(w.push(&vec![1, -1, 0, 0]), Some(vec![0, 0, 0, 0, 1, -1, 0, 0]));
}

#[test]
fn window_flush_hands_out_what_is_held() {
    let mut w = AudioWindow::standard();
    assert_eq!(w.push(&vec![9000; 10]), None);
    assert_eq!(w.flush(), vec![9000; 10]);
    assert_eq!(w.pending_len(), 0);
    assert_eq!(w.flush(), Vec::<i16>::new());
}

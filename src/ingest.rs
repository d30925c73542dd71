//! What the pipeline does with each event of the voice transport.

use vstd::prelude::*;
use crate::audio::{AudioUnit, PipelineError};
use crate::params::InferenceParameters;
use crate::resample::{ENGINE_RATE, ResampledBuffer, Resampler, resample_error, resampled_from};
use crate::session::{EngineSession, EngineState};

verus! {

/// An event of the voice transport, reduced to what the pipeline reads.
pub enum VoiceEvent {
    SpeakingStateUpdate,
    SpeakingUpdate,
    /// A voice packet, with its decoded audio when the transport decoded any.
    VoicePacket(Option<AudioUnit>),
    RtcpPacket,
    ClientDisconnect,
    Other,
}

/// What the caller is to do after an event.
pub enum IngestAction {
    /// A non-audio event: report it, nothing more.
    Observe,
    /// A packet without audio samples: nothing to do.
    Skip,
    /// Run the engine on this buffer and emit its segments.
    Transcribe(ResampledBuffer),
    /// This unit is dropped for the given cause; the stream goes on.
    Drop(PipelineError),
    /// The engine could not be loaded: transcription is over for good.
    Fatal,
}

/// The transcription pipeline of one process: the engine session, the
/// resampler and the inference settings, all built once.
pub struct Pipeline<E> {
    pub session: EngineSession<E>,
    pub resampler: Resampler,
    pub params: InferenceParameters,
}

impl<E> Pipeline<E> {
    pub open spec fn wf(&self) -> bool {
        self.session.wf() && self.resampler.wf()
    }

    pub fn new(resampler: Resampler, params: InferenceParameters) -> (r: Self)
        requires
            resampler.wf(),
        ensures
            r.wf(),
            r.session.phase() is Unloaded,
            r.resampler == resampler,
            r.params == params,
    {
        Pipeline { session: EngineSession::new(), resampler, params }
    }

    /// Decides what to do with one event. Non-audio events are only observed,
    /// and packets without audio, or with audio of no samples, are skipped,
    /// in both cases without touching the engine. Any other packet first
    /// makes sure the engine is loaded (with `load`, on the first such packet
    /// only), then is resampled for it.
    pub fn ingest<F: FnOnce() -> Option<E>>(&mut self, event: VoiceEvent, load: F) -> (r: IngestAction)
        requires
            old(self).wf(),
            call_requires(load, ()),
        ensures
            final(self).wf(),
            final(self).resampler == old(self).resampler,
            final(self).params == old(self).params,
            match event {
                VoiceEvent::VoicePacket(Some(unit)) => if unit.samples@.len() == 0 {
                    r is Skip && *final(self) == *old(self)
                } else {
                    &&& EngineSession::init_step(old(self).session, final(self).session)
                    &&& old(self).session.phase() is Unloaded ==> exists|o: Option<E>|
                        call_ensures(load, (), o) && match o {
                            Some(e) => final(self).session.phase() == EngineState::Ready(e),
                            None => final(self).session.phase() is Failed,
                        }
                    &&& !(final(self).session.phase() is Ready) ==> r is Fatal
                    &&& final(self).session.phase() is Ready && unit.valid()
                        && old(self).resampler.target_rate == ENGINE_RATE ==> match r {
                        IngestAction::Transcribe(buf) => buf.sample_rate == ENGINE_RATE
                            && resampled_from(buf, &unit, old(self).resampler.target_rate),
                        _ => false,
                    }
                    &&& final(self).session.phase() is Ready && !(unit.valid()
                        && old(self).resampler.target_rate == ENGINE_RATE) ==> r
                        == IngestAction::Drop(resample_error(&unit, old(self).resampler.target_rate))
                },
                VoiceEvent::VoicePacket(None) => r is Skip && *final(self) == *old(self),
                _ => r is Observe && *final(self) == *old(self),
            },
    {
        match event {
            VoiceEvent::VoicePacket(Some(unit)) => {
                if unit.samples.len() == 0 {
                    return IngestAction::Skip;
                }
                match self.session.get_or_init(load) {
                    Err(_) => IngestAction::Fatal,
                    Ok(()) => match self.resampler.resample(&unit) {
                        Ok(buf) => IngestAction::Transcribe(buf),
                        Err(e) => IngestAction::Drop(e),
                    },
                }
            },
            VoiceEvent::VoicePacket(None) => IngestAction::Skip,
            _ => IngestAction::Observe,
        }
    }
}

} // verus!

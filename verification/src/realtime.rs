//! A recognizer for audio that comes in while it is recognized.

use vstd::prelude::*;
use vstd::string::*;

use crate::config;
use crate::config::RecognizerConfig;
use crate::error::SenseVoiceError;
use crate::models::DirEntry;
use crate::path::FilePath;
use crate::recognizer;
use crate::recognizer::{Action, Event, Phase, Recognizer, Request};

verus! {

/// A recognizer that was started with an FSMN-VAD model.
#[derive(Debug)]
pub struct RealtimeRecognizer {
    inner: Recognizer,
}

impl View for RealtimeRecognizer {
    type V = Recognizer;

    closed spec fn view(&self) -> Recognizer {
        self.inner
    }
}

impl RealtimeRecognizer {
    /// Starts a realtime recognizer. There must be an FSMN-VAD model in the configuration.
    pub fn new(config: RecognizerConfig) -> (started: Result<
        (RealtimeRecognizer, Action),
        SenseVoiceError,
    >)
        ensures
            match config.vad_model {
                Some(_) => {
                    &&& started matches Ok((realtime, action))
                    &&& realtime@.phase == Phase::CheckingModel(config)
                    &&& action matches Action::CheckFile(path)
                    &&& path@ == config.sensevoice_model@
                },
                None => {
                    &&& started matches Err(error)
                    &&& error@
                        == "RealtimeRecognizer requires an FSMN-VAD model in RecognizerConfig::vad_model"@
                },
            },
    {
        if config.vad_model.is_none() {
            return Err(
                SenseVoiceError::new(
                    "RealtimeRecognizer requires an FSMN-VAD model in RecognizerConfig::vad_model".to_owned(),
                ),
            );
        }
        let (inner, action) = Recognizer::new(config);
        Ok((RealtimeRecognizer { inner }, action))
    }

    /// Starts a realtime recognizer with the models in a directory, by the listings of the
    /// directory.
    pub fn from_models_dir(
        models_dir: &FilePath,
        sensevoice_listing: &Result<Vec<Result<DirEntry, String>>, String>,
        vad_listing: &Result<Vec<Result<DirEntry, String>>, String>,
    ) -> (started: Result<(RealtimeRecognizer, Action), SenseVoiceError>)
        ensures
            match config::models_in(models_dir@, *sensevoice_listing, *vad_listing) {
                Ok((sensevoice_model, Some(vad_model))) => {
                    &&& started matches Ok((realtime, action))
                    &&& realtime@.phase matches Phase::CheckingModel(config)
                    &&& config::is_default_for(config, sensevoice_model, Some(vad_model))
                    &&& action matches Action::CheckFile(path)
                    &&& path@ == sensevoice_model
                },
                Ok((_, None)) => {
                    &&& started matches Err(error)
                    &&& error@
                        == "RealtimeRecognizer requires an FSMN-VAD model in RecognizerConfig::vad_model"@
                },
                Err(message) => started matches Err(error) && error@ == message,
            },
    {
        match RecognizerConfig::from_models_dir(models_dir, sensevoice_listing, vad_listing) {
            Ok(config) => Self::new(config),
            Err(error) => Err(error),
        }
    }

    /// Goes on with the reply to the last action.
    pub fn step(&mut self, event: Event) -> (action: Action)
        requires
            recognizer::awaits(old(self)@.phase, event),
        ensures
            recognizer::responds(old(self)@.phase, event, final(self)@.phase, action),
    {
        self.inner.step(event)
    }

    /// Adds samples to the audio.
    pub fn accept_pcm_16k(&mut self) -> (action: Action)
        requires
            old(self)@.phase is Idle,
        ensures
            recognizer::takes(Request::AcceptRealtime, final(self)@.phase, action),
    {
        self.inner.accept_realtime_pcm_16k()
    }

    /// Recognizes what is left of the audio.
    pub fn flush(&mut self) -> (action: Action)
        requires
            old(self)@.phase is Idle,
        ensures
            recognizer::takes(Request::FlushRealtime, final(self)@.phase, action),
    {
        self.inner.flush_realtime()
    }

    /// Drops the audio.
    pub fn reset(&mut self) -> (action: Action)
        requires
            old(self)@.phase is Idle,
        ensures
            recognizer::takes(Request::ResetRealtime, final(self)@.phase, action),
    {
        self.inner.reset_realtime()
    }

    /// The recognizer itself.
    pub fn into_inner(self) -> (inner: Recognizer)
        ensures
            inner == self@,
    {
        self.inner
    }
}

} // verus!

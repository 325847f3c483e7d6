//! The configuration of a recognizer.

use vstd::prelude::*;

use crate::error::SenseVoiceError;
use crate::models;
use crate::models::{find_gguf, DirEntry};
use crate::path::FilePath;
use crate::text;

verus! {

/// What a recognizer is made from.
#[derive(Debug)]
pub struct RecognizerConfig {
    /// The path of the SenseVoice model.
    pub sensevoice_model: FilePath,
    /// The path of the FSMN-VAD model, if there is one.
    pub vad_model: Option<FilePath>,
    /// How many threads the native library uses.
    pub n_threads: i32,
    /// The longest speech segment, in milliseconds.
    pub vad_max_seg_ms: i32,
    /// How long a silence ends a realtime utterance, in milliseconds.
    pub realtime_min_silence_ms: i32,
    /// How often realtime audio is looked at, in milliseconds.
    pub realtime_step_ms: i32,
    /// Whether recognized text keeps its tags.
    pub keep_tags: bool,
}

/// The configuration for a SenseVoice model with nothing else set.
pub open spec fn default_config(sensevoice_model: FilePath) -> RecognizerConfig {
    RecognizerConfig {
        sensevoice_model,
        vad_model: None,
        n_threads: 8,
        vad_max_seg_ms: 30_000,
        realtime_min_silence_ms: 600,
        realtime_step_ms: 500,
        keep_tags: false,
    }
}

/// A configuration with its FSMN-VAD model set.
pub open spec fn vad_model_set(config: RecognizerConfig, vad_model: FilePath) -> RecognizerConfig {
    RecognizerConfig { vad_model: Some(vad_model), ..config }
}

/// A configuration with its number of threads set.
pub open spec fn threads_set(config: RecognizerConfig, n_threads: i32) -> RecognizerConfig {
    RecognizerConfig { n_threads, ..config }
}

/// A configuration with the keeping of tags set.
pub open spec fn keep_tags_set(config: RecognizerConfig, keep_tags: bool) -> RecognizerConfig {
    RecognizerConfig { keep_tags, ..config }
}

/// The path of the SenseVoice model in the listing of a models directory, or the message of an
/// error: there must be one.
pub open spec fn sensevoice_model_in(
    models_dir: Seq<u8>,
    listing: Result<Vec<Result<DirEntry, String>>, String>,
) -> Result<Seq<u8>, Seq<char>> {
    match models::search(models_dir, listing, "sensevoice"@) {
        Err(message) => Err(message),
        Ok(None) => Err("no SenseVoice GGUF found in "@ + text::shown(models_dir)),
        Ok(Some(model)) => Ok(model),
    }
}

/// What becomes of a models directory, by its two listings: the paths of the SenseVoice model
/// and of the FSMN-VAD model, or the message of an error.
pub open spec fn models_in(
    models_dir: Seq<u8>,
    sensevoice_listing: Result<Vec<Result<DirEntry, String>>, String>,
    vad_listing: Result<Vec<Result<DirEntry, String>>, String>,
) -> Result<(Seq<u8>, Option<Seq<u8>>), Seq<char>> {
    match sensevoice_model_in(models_dir, sensevoice_listing) {
        Err(message) => Err(message),
        Ok(sensevoice_model) => match models::search(models_dir, vad_listing, "vad"@) {
            Err(message) => Err(message),
            Ok(vad_model) => Ok((sensevoice_model, vad_model)),
        },
    }
}

/// A path's bytes, where there is a path.
pub open spec fn path_bytes(path: Option<FilePath>) -> Option<Seq<u8>> {
    match path {
        Some(path) => Some(path@),
        None => None,
    }
}

/// Whether the configuration names the given models and has nothing else set.
pub open spec fn is_default_for(
    config: RecognizerConfig,
    sensevoice_model: Seq<u8>,
    vad_model: Option<Seq<u8>>,
) -> bool {
    &&& config.sensevoice_model@ == sensevoice_model
    &&& path_bytes(config.vad_model) == vad_model
    &&& config == (RecognizerConfig {
        vad_model: config.vad_model,
        ..default_config(config.sensevoice_model)
    })
}

/// The SenseVoice model in a models directory, by the listing of the directory. Without it there
/// is no need to list the directory again.
pub fn find_sensevoice_model(
    models_dir: &FilePath,
    listing: &Result<Vec<Result<DirEntry, String>>, String>,
) -> (found: Result<FilePath, SenseVoiceError>)
    ensures
        match sensevoice_model_in(models_dir@, *listing) {
            Ok(path) => found matches Ok(model) && model@ == path,
            Err(message) => found matches Err(error) && error@ == message,
        },
{
    match find_gguf(models_dir, listing, "sensevoice") {
        Err(error) => Err(error),
        Ok(None) => Err(
            SenseVoiceError::about("no SenseVoice GGUF found in ", models_dir.display().as_str()),
        ),
        Ok(Some(model)) => Ok(model),
    }
}

impl RecognizerConfig {
    /// The configuration for a SenseVoice model: no FSMN-VAD model, eight threads, segments of at
    /// most thirty seconds, and no tags.
    pub fn new<P: Into<FilePath>>(sensevoice_model: P) -> (config: RecognizerConfig)
        ensures
            call_ensures(P::into, (sensevoice_model,), config.sensevoice_model),
            config == default_config(config.sensevoice_model),
    {
        RecognizerConfig {
            sensevoice_model: sensevoice_model.into(),
            vad_model: None,
            n_threads: 8,
            vad_max_seg_ms: 30_000,
            realtime_min_silence_ms: 600,
            realtime_step_ms: 500,
            keep_tags: false,
        }
    }

    /// The configuration for the models in a directory. The directory is listed once for each
    /// model, the SenseVoice model first; the FSMN-VAD model may be missing.
    pub fn from_models_dir(
        models_dir: &FilePath,
        sensevoice_listing: &Result<Vec<Result<DirEntry, String>>, String>,
        vad_listing: &Result<Vec<Result<DirEntry, String>>, String>,
    ) -> (config: Result<RecognizerConfig, SenseVoiceError>)
        ensures
            match models_in(models_dir@, *sensevoice_listing, *vad_listing) {
                Ok((sensevoice_model, vad_model)) => {
                    &&& config matches Ok(config)
                    &&& is_default_for(config, sensevoice_model, vad_model)
                },
                Err(message) => config matches Err(error) && error@ == message,
            },
    {
        let sensevoice_model = match find_sensevoice_model(models_dir, sensevoice_listing) {
            Err(error) => return Err(error),
            Ok(model) => model,
        };
        let vad_model = match find_gguf(models_dir, vad_listing, "vad") {
            Err(error) => return Err(error),
            Ok(vad_model) => vad_model,
        };
        Ok(RecognizerConfig { vad_model, ..Self::new(sensevoice_model) })
    }

    /// The configuration with the given FSMN-VAD model.
    pub fn with_vad_model<P: Into<FilePath>>(self, vad_model: P) -> (config: RecognizerConfig)
        ensures
            config.vad_model matches Some(path) && call_ensures(P::into, (vad_model,), path)
                && config == vad_model_set(self, path),
    {
        RecognizerConfig { vad_model: Some(vad_model.into()), ..self }
    }

    /// The configuration with the given number of threads.
    pub fn with_threads(self, n_threads: i32) -> (config: RecognizerConfig)
        ensures
            config == threads_set(self, n_threads),
    {
        RecognizerConfig { n_threads, ..self }
    }

    /// The configuration that keeps tags, or that does not.
    pub fn with_keep_tags(self, keep_tags: bool) -> (config: RecognizerConfig)
        ensures
            config == keep_tags_set(self, keep_tags),
    {
        RecognizerConfig { keep_tags, ..self }
    }
}

impl Clone for RecognizerConfig {
    fn clone(&self) -> (copy: RecognizerConfig)
        ensures
            copy.sensevoice_model@ == self.sensevoice_model@,
            path_bytes(copy.vad_model) == path_bytes(self.vad_model),
            copy == (RecognizerConfig {
                sensevoice_model: copy.sensevoice_model,
                vad_model: copy.vad_model,
                ..*self
            }),
    {
        let vad_model: Option<FilePath> = match &self.vad_model {
            Some(path) => Some(path.clone()),
            None => None,
        };
        RecognizerConfig {
            sensevoice_model: self.sensevoice_model.clone(),
            vad_model,
            n_threads: self.n_threads,
            vad_max_seg_ms: self.vad_max_seg_ms,
            realtime_min_silence_ms: self.realtime_min_silence_ms,
            realtime_step_ms: self.realtime_step_ms,
            keep_tags: self.keep_tags,
        }
    }
}

} // verus!

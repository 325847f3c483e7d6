//! The values that go to the native library and come back from it.

use vstd::prelude::*;
use vstd::string::*;

use crate::config::RecognizerConfig;
use crate::error::SenseVoiceError;
use crate::path;
use crate::path::{path_to_cstring, NativeString};
use crate::text;

verus! {

/// A recognizer's configuration in the native library's terms.
#[derive(Debug)]
pub struct SvConfig {
    pub sensevoice_model: NativeString,
    pub vad_model: Option<NativeString>,
    pub n_threads: i32,
    pub vad_max_seg_ms: i32,
    pub realtime_min_silence_ms: i32,
    pub realtime_step_ms: i32,
    /// One to keep tags, zero to drop them.
    pub keep_tags: i32,
}

/// A stretch of speech as the native library reports it.
#[derive(Debug, Clone, Copy)]
pub struct SvSegment {
    pub start_ms: i32,
    pub end_ms: i32,
}

/// A stretch of speech.
#[derive(Debug, Clone, Copy, PartialEq, Eq, Structural)]
pub struct SpeechSegment {
    pub start_ms: i32,
    pub end_ms: i32,
}

/// The message of the error of a configuration that the native library cannot be given, if it
/// cannot: the path of the SenseVoice model is looked at first.
pub open spec fn config_refusal(config: RecognizerConfig) -> Option<Seq<char>> {
    match path::c_path_refusal(config.sensevoice_model@) {
        Some(message) => Some(message),
        None => match config.vad_model {
            Some(vad_model) => path::c_path_refusal(vad_model@),
            None => None,
        },
    }
}

/// Whether `native` says in the native library's terms what `config` says.
pub open spec fn same_config(native: SvConfig, config: RecognizerConfig) -> bool {
    &&& native.sensevoice_model@ == config.sensevoice_model@
    &&& match config.vad_model {
        Some(vad_model) => native.vad_model matches Some(path) && path@ == vad_model@,
        None => native.vad_model is None,
    }
    &&& native.n_threads == config.n_threads
    &&& native.vad_max_seg_ms == config.vad_max_seg_ms
    &&& native.realtime_min_silence_ms == config.realtime_min_silence_ms
    &&& native.realtime_step_ms == config.realtime_step_ms
    &&& native.keep_tags == if config.keep_tags {
        1int
    } else {
        0
    }
}

/// The configuration in the native library's terms.
pub fn native_config(config: &RecognizerConfig) -> (native: Result<SvConfig, SenseVoiceError>)
    ensures
        match config_refusal(*config) {
            None => native matches Ok(native) && same_config(native, *config),
            Some(message) => native matches Err(error) && error@ == message,
        },
{
    let sensevoice_model = match path_to_cstring(&config.sensevoice_model) {
        Ok(path) => path,
        Err(error) => return Err(error),
    };
    let vad_model = match &config.vad_model {
        Some(vad_model) => match path_to_cstring(vad_model) {
            Ok(path) => Some(path),
            Err(error) => return Err(error),
        },
        None => None,
    };
    Ok(
        SvConfig {
            sensevoice_model,
            vad_model,
            n_threads: config.n_threads,
            vad_max_seg_ms: config.vad_max_seg_ms,
            realtime_min_silence_ms: config.realtime_min_silence_ms,
            realtime_step_ms: config.realtime_step_ms,
            keep_tags: if config.keep_tags {
                1
            } else {
                0
            },
        },
    )
}

/// The message of a failed native call, where the native library gave it as `message`.
pub open spec fn failure_text(message: Seq<char>) -> Seq<char> {
    if message.len() == 0 {
        "native SenseVoice call failed"@
    } else {
        message
    }
}

/// The message of a failed native call, by the bytes of the native library's last error; there
/// may be no last error, or an empty one.
pub open spec fn last_error_text(message: Option<Vec<u8>>) -> Seq<char> {
    match message {
        Some(bytes) if bytes@.len() > 0 => text::shown(bytes@),
        _ => "native SenseVoice call failed"@,
    }
}

/// The error of a failed native call, where the native library gave its message.
pub fn failure(message: String) -> (error: SenseVoiceError)
    ensures
        error@ == failure_text(message@),
        error@.len() > 0,
{
    proof {
        reveal_strlit("native SenseVoice call failed");
    }
    if message.as_str().is_empty() {
        SenseVoiceError::new("native SenseVoice call failed".to_owned())
    } else {
        SenseVoiceError::new(message)
    }
}

/// The error of a failed native call, by the bytes of the native library's last error. Its message
/// is never empty.
pub fn last_error(message: Option<Vec<u8>>) -> (error: SenseVoiceError)
    ensures
        error@ == last_error_text(message),
        error@.len() > 0,
{
    proof {
        reveal_strlit("native SenseVoice call failed");
    }
    match message {
        Some(bytes) => failure(text::utf8_lossy_text(bytes.as_slice())),
        None => SenseVoiceError::new("native SenseVoice call failed".to_owned()),
    }
}

/// The text, unless it is empty.
pub fn non_empty(text: String) -> (kept: Option<String>)
    ensures
        kept == if text@.len() == 0 {
            None
        } else {
            Some(text)
        },
{
    if text.as_str().is_empty() {
        None
    } else {
        Some(text)
    }
}

/// A native segment as a speech segment.
pub open spec fn speech_segment(segment: SvSegment) -> SpeechSegment {
    SpeechSegment { start_ms: segment.start_ms, end_ms: segment.end_ms }
}

/// Native segments as speech segments, in their order.
pub open spec fn speech_segments_of(segments: Seq<SvSegment>) -> Seq<SpeechSegment> {
    segments.map_values(|segment: SvSegment| speech_segment(segment))
}

/// Native segments as speech segments, in their order.
pub fn speech_segments(segments: &Vec<SvSegment>) -> (converted: Vec<SpeechSegment>)
    ensures
        converted@ == speech_segments_of(segments@),
        converted@.len() == segments@.len(),
        forall|i: int|
            0 <= i < segments@.len() ==> (#[trigger] converted@[i]).start_ms
                == segments@[i].start_ms && converted@[i].end_ms == segments@[i].end_ms,
{
    let mut converted: Vec<SpeechSegment> = Vec::new();
    let mut i: usize = 0;
    while i < segments.len()
        invariant
            i <= segments@.len(),
            converted@ == speech_segments_of(segments@.take(i as int)),
        decreases segments@.len() - i,
    {
        let segment: SvSegment = segments[i];
        converted.push(SpeechSegment { start_ms: segment.start_ms, end_ms: segment.end_ms });
        i = i + 1;
        assert(segments@.take(i as int) =~= segments@.take(i - 1).push(segment));
        assert(speech_segments_of(segments@.take(i as int)) =~= speech_segments_of(
            segments@.take(i - 1),
        ).push(speech_segment(segment)));
    }
    assert(segments@.take(i as int) =~= segments@);
    converted
}

} // verus!

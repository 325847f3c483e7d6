//! A recognizer without its native handle: which native call is due, and what its reply means.
//!
//! A recognizer is a state machine. A request or the reply to the last action moves it on and
//! gives the action that is due next. Whoever holds the native handle performs the action and
//! hands the reply back.

use vstd::pervasive::unreached;
use vstd::prelude::*;
use vstd::string::*;
use vstd::utf8::*;

use crate::config;
use crate::config::RecognizerConfig;
use crate::error::SenseVoiceError;
use crate::models::DirEntry;
use crate::native;
use crate::native::{
    last_error, native_config, non_empty, speech_segments, SpeechSegment, SvConfig, SvSegment,
};
use crate::path;
use crate::path::{path_to_cstring, FilePath, NativeString};
use crate::text;

verus! {

/// What a native text is asked for.
#[derive(Debug, Clone, Copy, PartialEq, Eq, Structural)]
pub enum TextUse {
    /// The transcript of a whole recording, which may be empty.
    Transcript,
    /// What realtime audio has added, if anything.
    Realtime,
}

/// What a native call is made for.
#[derive(Debug, Clone, Copy, PartialEq, Eq, Structural)]
pub enum Purpose {
    Text(TextUse),
    Segments,
}

/// What a recognizer is doing.
#[derive(Debug)]
pub enum Phase {
    /// Starting: it is asked whether the SenseVoice model is a file.
    CheckingModel(RecognizerConfig),
    /// Starting: it is asked whether the FSMN-VAD model is a file.
    CheckingVad(RecognizerConfig),
    /// Starting: the native handle is being made.
    Creating,
    /// It could not be started.
    Refused,
    /// It is ready for a request.
    Idle,
    /// A native call that gives a text is running.
    AwaitingText(TextUse),
    /// The native text is being copied.
    CopyingText(TextUse),
    /// The native call that gives segments is running.
    AwaitingSegments,
    /// This many native segments are being copied.
    CopyingSegments(usize),
    /// A native call failed, and the last error is being read.
    ReadingError(Purpose),
    /// The native handle is freed.
    Closed,
}

/// What came of a request.
#[derive(Debug)]
pub enum Outcome {
    Started(Result<(), SenseVoiceError>),
    Transcript(Result<String, SenseVoiceError>),
    Realtime(Result<Option<String>, SenseVoiceError>),
    Segments(Result<Vec<SpeechSegment>, SenseVoiceError>),
}

/// What is to be done next.
#[derive(Debug)]
pub enum Action {
    /// Look whether the path leads to a regular file.
    CheckFile(FilePath),
    /// Make the native handle.
    Create(SvConfig),
    /// Recognize an audio file.
    RecognizeFile(NativeString),
    /// Recognize the samples of the request.
    RecognizePcm,
    /// Find speech in the samples of the request.
    FindSegments,
    /// Add the samples of the request to the realtime audio.
    AcceptRealtime,
    /// Recognize what is left of the realtime audio.
    FlushRealtime,
    /// Drop the realtime audio. There is no reply.
    ResetRealtime,
    /// Read the native handle's last error.
    ReadError,
    /// Copy the native text.
    CopyText,
    /// Free the native text; the request then has its outcome.
    FreeText(Outcome),
    /// Copy this many native segments.
    CopySegments(usize),
    /// Free the native segments; the request then has its outcome.
    FreeSegments(Outcome),
    /// Free the native handle. There is no reply.
    FreeHandle,
    /// Nothing: the request has its outcome.
    Finish(Outcome),
}

/// The reply to an action.
#[derive(Debug)]
pub enum Event {
    /// Whether the path leads to a regular file.
    FileChecked(bool),
    /// The native constructor returned a code, zero for success, and a handle, perhaps null.
    Created { code: i32, is_null: bool },
    /// A native call returned a code, zero for success, and a text, perhaps null.
    TextReturned { code: i32, is_null: bool },
    /// The bytes of the native text before its closing zero.
    TextCopied(Vec<u8>),
    /// A native call returned a code, zero for success, and some segments, perhaps null.
    SegmentsReturned { code: i32, is_null: bool, count: usize },
    /// The native segments.
    SegmentsCopied(Vec<SvSegment>),
    /// The bytes of the last error before its closing zero, unless it is null.
    ErrorRead(Option<Vec<u8>>),
}

/// A request to a ready recognizer.
pub enum Request {
    /// Transcribe the audio file at a path.
    TranscribeFile(Seq<u8>),
    TranscribePcm,
    VadSegments,
    AcceptRealtime,
    FlushRealtime,
    ResetRealtime,
    Close,
}

/// Whether the event is a reply that the phase waits for.
pub open spec fn awaits(phase: Phase, event: Event) -> bool {
    match phase {
        Phase::CheckingModel(_) | Phase::CheckingVad(_) => event is FileChecked,
        Phase::Creating => event is Created,
        Phase::AwaitingText(_) => event is TextReturned,
        Phase::CopyingText(_) => event is TextCopied,
        Phase::AwaitingSegments => event is SegmentsReturned,
        Phase::CopyingSegments(count) => {
            event matches Event::SegmentsCopied(segments) && segments@.len() == count
        },
        Phase::ReadingError(_) => event is ErrorRead,
        Phase::Refused | Phase::Idle | Phase::Closed => false,
    }
}

/// Whether the outcome is that the native call failed with the given message.
pub open spec fn is_failure(outcome: Outcome, purpose: Purpose, message: Seq<char>) -> bool {
    match purpose {
        Purpose::Text(TextUse::Transcript) => {
            outcome matches Outcome::Transcript(Err(error)) && error@ == message
        },
        Purpose::Text(TextUse::Realtime) => {
            outcome matches Outcome::Realtime(Err(error)) && error@ == message
        },
        Purpose::Segments => outcome matches Outcome::Segments(Err(error)) && error@ == message,
    }
}

/// Whether the outcome is the given text. An empty text is no outcome of realtime audio.
pub open spec fn is_text(outcome: Outcome, wanted: TextUse, text: Seq<char>) -> bool {
    match wanted {
        TextUse::Transcript => outcome matches Outcome::Transcript(Ok(result)) && result@ == text,
        TextUse::Realtime => if text.len() == 0 {
            outcome matches Outcome::Realtime(Ok(None))
        } else {
            outcome matches Outcome::Realtime(Ok(Some(result))) && result@ == text
        },
    }
}

/// Whether the outcome is the native text with the given bytes. Realtime audio has no outcome
/// exactly when there are no bytes.
pub open spec fn is_native_text(outcome: Outcome, wanted: TextUse, bytes: Seq<u8>) -> bool {
    match wanted {
        TextUse::Transcript => {
            outcome matches Outcome::Transcript(Ok(result)) && result@ == text::shown(bytes)
        },
        TextUse::Realtime => if bytes.len() == 0 {
            outcome matches Outcome::Realtime(Ok(None))
        } else {
            &&& outcome matches Outcome::Realtime(Ok(Some(result)))
            &&& result@ == text::shown(bytes)
            &&& result@.len() > 0
        },
    }
}

/// Whether a start with the given message failed.
pub open spec fn is_refused(after: Phase, action: Action, message: Seq<char>) -> bool {
    &&& after is Refused
    &&& action matches Action::Finish(Outcome::Started(Err(error)))
    &&& error@ == message
}

/// How a start goes on once the model files are there: the native handle is made, unless the
/// native library cannot be given the configuration.
pub open spec fn creates(config: RecognizerConfig, after: Phase, action: Action) -> bool {
    match native::config_refusal(config) {
        Some(message) => is_refused(after, action, message),
        None => {
            &&& after is Creating
            &&& action matches Action::Create(native)
            &&& native::same_config(native, config)
        },
    }
}

/// How a recognizer in phase `before` goes on with a reply: the phase after it, and the action.
pub open spec fn responds(before: Phase, event: Event, after: Phase, action: Action) -> bool {
    match (before, event) {
        (Phase::CheckingModel(config), Event::FileChecked(is_file)) => if !is_file {
            is_refused(
                after,
                action,
                "SenseVoice model file not found: "@ + text::shown(config.sensevoice_model@),
            )
        } else {
            match config.vad_model {
                Some(vad_model) => {
                    &&& after == Phase::CheckingVad(config)
                    &&& action matches Action::CheckFile(path)
                    &&& path@ == vad_model@
                },
                None => creates(config, after, action),
            }
        },
        (Phase::CheckingVad(config), Event::FileChecked(is_file)) => match config.vad_model {
            Some(vad_model) => if !is_file {
                is_refused(
                    after,
                    action,
                    "FSMN-VAD model file not found: "@ + text::shown(vad_model@),
                )
            } else {
                creates(config, after, action)
            },
            None => creates(config, after, action),
        },
        (Phase::Creating, Event::Created { code, is_null }) => if code != 0 {
            is_refused(
                after,
                action,
                "failed to initialize SenseVoice recognizer; check model paths and GGUF format"@,
            )
        } else if is_null {
            is_refused(after, action, "native recognizer returned null"@)
        } else {
            &&& after is Idle
            &&& action matches Action::Finish(Outcome::Started(Ok(_)))
        },
        (Phase::AwaitingText(wanted), Event::TextReturned { code, is_null }) => if code != 0 {
            &&& after == Phase::ReadingError(Purpose::Text(wanted))
            &&& action is ReadError
        } else if is_null {
            &&& after is Idle
            &&& action matches Action::Finish(outcome)
            &&& is_text(outcome, wanted, seq![])
        } else {
            &&& after == Phase::CopyingText(wanted)
            &&& action is CopyText
        },
        (Phase::CopyingText(wanted), Event::TextCopied(bytes)) => {
            &&& after is Idle
            &&& action matches Action::FreeText(outcome)
            &&& is_native_text(outcome, wanted, bytes@)
        },
        (Phase::AwaitingSegments, Event::SegmentsReturned { code, is_null, count }) => if code
            != 0 {
            &&& after == Phase::ReadingError(Purpose::Segments)
            &&& action is ReadError
        } else if is_null {
            &&& after is Idle
            &&& action matches Action::Finish(Outcome::Segments(Ok(segments)))
            &&& segments@.len() == 0
        } else if count == 0 {
            &&& after is Idle
            &&& action matches Action::FreeSegments(Outcome::Segments(Ok(segments)))
            &&& segments@.len() == 0
        } else {
            &&& after == Phase::CopyingSegments(count)
            &&& action == Action::CopySegments(count)
        },
        (Phase::CopyingSegments(_), Event::SegmentsCopied(copied)) => {
            &&& after is Idle
            &&& action matches Action::FreeSegments(Outcome::Segments(Ok(segments)))
            &&& segments@ == native::speech_segments_of(copied@)
        },
        (Phase::ReadingError(purpose), Event::ErrorRead(message)) => {
            &&& after is Idle
            &&& action matches Action::Finish(outcome)
            &&& is_failure(outcome, purpose, native::last_error_text(message))
            &&& native::last_error_text(message).len() > 0
        },
        _ => false,
    }
}

/// How a ready recognizer takes a request: the phase after it, and the action.
pub open spec fn takes(request: Request, after: Phase, action: Action) -> bool {
    match request {
        Request::TranscribeFile(audio_path) => match path::c_path_refusal(audio_path) {
            Some(message) => {
                &&& after is Idle
                &&& action matches Action::Finish(outcome)
                &&& is_failure(outcome, Purpose::Text(TextUse::Transcript), message)
            },
            None => {
                &&& after == Phase::AwaitingText(TextUse::Transcript)
                &&& action matches Action::RecognizeFile(path)
                &&& path@ == audio_path
            },
        },
        Request::TranscribePcm => {
            &&& after == Phase::AwaitingText(TextUse::Transcript)
            &&& action is RecognizePcm
        },
        Request::VadSegments => after is AwaitingSegments && action is FindSegments,
        Request::AcceptRealtime => {
            &&& after == Phase::AwaitingText(TextUse::Realtime)
            &&& action is AcceptRealtime
        },
        Request::FlushRealtime => {
            &&& after == Phase::AwaitingText(TextUse::Realtime)
            &&& action is FlushRealtime
        },
        Request::ResetRealtime => after is Idle && action is ResetRealtime,
        Request::Close => after is Closed && action is FreeHandle,
    }
}

/// A recognizer without its native handle.
#[derive(Debug)]
pub struct Recognizer {
    pub phase: Phase,
}

impl Recognizer {
    /// Starts a recognizer: the first thing to know is whether the SenseVoice model is a file.
    pub fn new(config: RecognizerConfig) -> (started: (Recognizer, Action))
        ensures
            started.0.phase == Phase::CheckingModel(config),
            started.1 matches Action::CheckFile(path) && path@ == config.sensevoice_model@,
    {
        let path = config.sensevoice_model.clone();
        (Recognizer { phase: Phase::CheckingModel(config) }, Action::CheckFile(path))
    }

    /// Starts a recognizer with the models in a directory, by the listings of the directory.
    pub fn from_models_dir(
        models_dir: &FilePath,
        sensevoice_listing: &Result<Vec<Result<DirEntry, String>>, String>,
        vad_listing: &Result<Vec<Result<DirEntry, String>>, String>,
    ) -> (started: Result<(Recognizer, Action), SenseVoiceError>)
        ensures
            match config::models_in(models_dir@, *sensevoice_listing, *vad_listing) {
                Ok((sensevoice_model, vad_model)) => {
                    &&& started matches Ok((recognizer, action))
                    &&& recognizer.phase matches Phase::CheckingModel(config)
                    &&& config::is_default_for(config, sensevoice_model, vad_model)
                    &&& action matches Action::CheckFile(path)
                    &&& path@ == sensevoice_model
                },
                Err(message) => started matches Err(error) && error@ == message,
            },
    {
        match RecognizerConfig::from_models_dir(models_dir, sensevoice_listing, vad_listing) {
            Ok(config) => Ok(Self::new(config)),
            Err(error) => Err(error),
        }
    }

    /// Whether it is ready for a request.
    pub fn is_idle(&self) -> (idle: bool)
        ensures
            idle == (self.phase is Idle),
    {
        matches!(self.phase, Phase::Idle)
    }

    /// Whether it waits for this reply.
    pub fn is_awaiting(&self, event: &Event) -> (awaited: bool)
        ensures
            awaited == awaits(self.phase, *event),
    {
        match (&self.phase, event) {
            (Phase::CheckingModel(_), Event::FileChecked(_)) => true,
            (Phase::CheckingVad(_), Event::FileChecked(_)) => true,
            (Phase::Creating, Event::Created { .. }) => true,
            (Phase::AwaitingText(_), Event::TextReturned { .. }) => true,
            (Phase::CopyingText(_), Event::TextCopied(_)) => true,
            (Phase::AwaitingSegments, Event::SegmentsReturned { .. }) => true,
            (Phase::CopyingSegments(count), Event::SegmentsCopied(segments)) => {
                segments.len() == *count
            },
            (Phase::ReadingError(_), Event::ErrorRead(_)) => true,
            _ => false,
        }
    }

    /// Transcribes an audio file.
    pub fn transcribe_file(&mut self, audio_path: &FilePath) -> (action: Action)
        requires
            old(self).phase is Idle,
        ensures
            takes(Request::TranscribeFile(audio_path@), final(self).phase, action),
            valid_utf8(audio_path@) && !audio_path@.contains(0) ==> final(self).phase
                == Phase::AwaitingText(TextUse::Transcript) && (
            action matches Action::RecognizeFile(path) && path@ == audio_path@),
    {
        match path_to_cstring(audio_path) {
            Ok(path) => self.call_string(TextUse::Transcript, Action::RecognizeFile(path)),
            Err(error) => Action::Finish(
                failure_outcome(Purpose::Text(TextUse::Transcript), error),
            ),
        }
    }

    /// Transcribes samples.
    pub fn transcribe_pcm_16k(&mut self) -> (action: Action)
        requires
            old(self).phase is Idle,
        ensures
            takes(Request::TranscribePcm, final(self).phase, action),
    {
        self.call_string(TextUse::Transcript, Action::RecognizePcm)
    }

    /// Finds speech in samples.
    pub fn vad_segments(&mut self) -> (action: Action)
        requires
            old(self).phase is Idle,
        ensures
            takes(Request::VadSegments, final(self).phase, action),
    {
        self.phase = Phase::AwaitingSegments;
        Action::FindSegments
    }

    /// Adds samples to the realtime audio.
    pub fn accept_realtime_pcm_16k(&mut self) -> (action: Action)
        requires
            old(self).phase is Idle,
        ensures
            takes(Request::AcceptRealtime, final(self).phase, action),
    {
        self.call_string(TextUse::Realtime, Action::AcceptRealtime)
    }

    /// Recognizes what is left of the realtime audio.
    pub fn flush_realtime(&mut self) -> (action: Action)
        requires
            old(self).phase is Idle,
        ensures
            takes(Request::FlushRealtime, final(self).phase, action),
    {
        self.call_string(TextUse::Realtime, Action::FlushRealtime)
    }

    /// Drops the realtime audio.
    pub fn reset_realtime(&mut self) -> (action: Action)
        requires
            old(self).phase is Idle,
        ensures
            takes(Request::ResetRealtime, final(self).phase, action),
    {
        Action::ResetRealtime
    }

    /// Gives the native handle up.
    pub fn close(&mut self) -> (action: Action)
        requires
            old(self).phase is Idle,
        ensures
            takes(Request::Close, final(self).phase, action),
    {
        self.phase = Phase::Closed;
        Action::FreeHandle
    }

    /// Makes a native call that gives a text.
    fn call_string(&mut self, wanted: TextUse, call: Action) -> (action: Action)
        ensures
            final(self).phase == Phase::AwaitingText(wanted),
            action == call,
    {
        self.phase = Phase::AwaitingText(wanted);
        call
    }

    /// Goes on with the reply to the last action.
    pub fn step(&mut self, event: Event) -> (action: Action)
        requires
            awaits(old(self).phase, event),
        ensures
            responds(old(self).phase, event, final(self).phase, action),
            old(self).phase == Phase::CopyingText(TextUse::Realtime) && event is TextCopied ==> ({
                let bytes = event->TextCopied_0@;
                &&& action matches Action::FreeText(Outcome::Realtime(Ok(given)))
                &&& given is Some <==> bytes.len() > 0
                &&& valid_utf8(bytes) && bytes.len() > 0 ==> encode_utf8(given->0@) == bytes
            }),
    {
        broadcast use decode_utf8_encode_utf8;

        let mut phase = Phase::Refused;
        core::mem::swap(&mut phase, &mut self.phase);
        match (phase, event) {
            (Phase::CheckingModel(config), Event::FileChecked(is_file)) => {
                if !is_file {
                    self.refuse(
                        SenseVoiceError::about(
                            "SenseVoice model file not found: ",
                            config.sensevoice_model.display().as_str(),
                        ),
                    )
                } else {
                    let vad_model: Option<FilePath> = match &config.vad_model {
                        Some(path) => Some(path.clone()),
                        None => None,
                    };
                    match vad_model {
                        Some(path) => {
                            self.phase = Phase::CheckingVad(config);
                            Action::CheckFile(path)
                        },
                        None => self.create(&config),
                    }
                }
            },
            (Phase::CheckingVad(config), Event::FileChecked(is_file)) => {
                match &config.vad_model {
                    Some(vad_model) => {
                        if !is_file {
                            self.refuse(
                                SenseVoiceError::about(
                                    "FSMN-VAD model file not found: ",
                                    vad_model.display().as_str(),
                                ),
                            )
                        } else {
                            self.create(&config)
                        }
                    },
                    None => self.create(&config),
                }
            },
            (Phase::Creating, Event::Created { code, is_null }) => {
                if code != 0 {
                    self.refuse(
                        SenseVoiceError::new(
                            "failed to initialize SenseVoice recognizer; check model paths and GGUF format".to_owned(),
                        ),
                    )
                } else if is_null {
                    self.refuse(
                        SenseVoiceError::new("native recognizer returned null".to_owned()),
                    )
                } else {
                    self.phase = Phase::Idle;
                    Action::Finish(Outcome::Started(Ok(())))
                }
            },
            (Phase::AwaitingText(wanted), Event::TextReturned { code, is_null }) => {
                if code != 0 {
                    self.phase = Phase::ReadingError(Purpose::Text(wanted));
                    Action::ReadError
                } else if is_null {
                    self.phase = Phase::Idle;
                    Action::Finish(text_outcome(wanted, String::new()))
                } else {
                    self.phase = Phase::CopyingText(wanted);
                    Action::CopyText
                }
            },
            (Phase::CopyingText(wanted), Event::TextCopied(bytes)) => {
                self.phase = Phase::Idle;
                let text: String = text::utf8_lossy_text(bytes.as_slice());
                Action::FreeText(text_outcome(wanted, text))
            },
            (Phase::AwaitingSegments, Event::SegmentsReturned { code, is_null, count }) => {
                if code != 0 {
                    self.phase = Phase::ReadingError(Purpose::Segments);
                    Action::ReadError
                } else if is_null {
                    self.phase = Phase::Idle;
                    Action::Finish(Outcome::Segments(Ok(Vec::new())))
                } else if count == 0 {
                    self.phase = Phase::Idle;
                    Action::FreeSegments(Outcome::Segments(Ok(Vec::new())))
                } else {
                    self.phase = Phase::CopyingSegments(count);
                    Action::CopySegments(count)
                }
            },
            (Phase::CopyingSegments(_), Event::SegmentsCopied(segments)) => {
                self.phase = Phase::Idle;
                Action::FreeSegments(Outcome::Segments(Ok(speech_segments(&segments))))
            },
            (Phase::ReadingError(purpose), Event::ErrorRead(message)) => {
                self.phase = Phase::Idle;
                Action::Finish(failure_outcome(purpose, last_error(message)))
            },
            _ => unreached(),
        }
    }

    /// Ends a start that failed.
    fn refuse(&mut self, error: SenseVoiceError) -> (action: Action)
        ensures
            is_refused(final(self).phase, action, error@),
    {
        self.phase = Phase::Refused;
        Action::Finish(Outcome::Started(Err(error)))
    }

    /// Goes on with a start whose model files are there.
    fn create(&mut self, config: &RecognizerConfig) -> (action: Action)
        ensures
            creates(*config, final(self).phase, action),
    {
        match native_config(config) {
            Ok(native) => {
                self.phase = Phase::Creating;
                Action::Create(native)
            },
            Err(error) => self.refuse(error),
        }
    }
}

/// The outcome of a native call that gave a text.
pub fn text_outcome(wanted: TextUse, text: String) -> (outcome: Outcome)
    ensures
        is_text(outcome, wanted, text@),
{
    match wanted {
        TextUse::Transcript => Outcome::Transcript(Ok(text)),
        TextUse::Realtime => Outcome::Realtime(Ok(non_empty(text))),
    }
}

/// The outcome of a native call that failed.
pub fn failure_outcome(purpose: Purpose, error: SenseVoiceError) -> (outcome: Outcome)
    ensures
        is_failure(outcome, purpose, error@),
{
    match purpose {
        Purpose::Text(TextUse::Transcript) => Outcome::Transcript(Err(error)),
        Purpose::Text(TextUse::Realtime) => Outcome::Realtime(Err(error)),
        Purpose::Segments => Outcome::Segments(Err(error)),
    }
}

} // verus!

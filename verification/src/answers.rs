//! What a recognizer asks for and answers, told by the values that go in and come out.

use vstd::prelude::*;
use vstd::string::*;
use vstd::utf8::*;

use crate::config::RecognizerConfig;
use crate::names;
use crate::native;
use crate::native::{SvConfig, SvSegment};
use crate::path;
use crate::recognizer;
use crate::recognizer::{Action, Event, Outcome, Phase, Purpose, Request, TextUse};
use crate::runs;
use crate::runs::{Input, Move};
use crate::text;

verus! {

/// Whether a path can be a string of the native library: it is text, without a zero byte.
pub open spec fn is_c_path(path: Seq<u8>) -> bool {
    valid_utf8(path) && forall|i: int| 0 <= i < path.len() ==> path[i] != 0
}

/// Whether every path of a configuration can be a string of the native library.
pub open spec fn has_c_paths(config: RecognizerConfig) -> bool {
    &&& is_c_path(config.sensevoice_model@)
    &&& config.vad_model matches Some(path) ==> is_c_path(path@)
}

/// Whether a text is what bytes encode. Bytes that encode nothing are left to the outside
/// conversion.
pub open spec fn tells(text: Seq<char>, bytes: Seq<u8>) -> bool {
    &&& valid_utf8(bytes) ==> encode_utf8(text) == bytes
    &&& !valid_utf8(bytes) ==> text == text::utf8_lossy(bytes)
    &&& text.len() == 0 ==> bytes.len() == 0
}

/// Realtime audio gives all of the text that was copied: there is a text exactly when there are
/// bytes, and it is what the bytes encode.
pub proof fn realtime_text_is_given(bytes: Vec<u8>, after: Phase, action: Action)
    requires
        recognizer::responds(
            Phase::CopyingText(TextUse::Realtime),
            Event::TextCopied(bytes),
            after,
            action,
        ),
    ensures
        after is Idle,
        action matches Action::FreeText(Outcome::Realtime(Ok(given))) && (given is Some
            <==> bytes@.len() > 0) && (given matches Some(text) ==> tells(text@, bytes@)
            && text@.len() > 0),
{
    names::text_is_shown_as_it_is(seq![], bytes@);
}

/// For every text but the empty one, realtime audio whose native text is that text gives that
/// text.
pub proof fn realtime_gives_back_every_text(
    text: Seq<char>,
    bytes: Vec<u8>,
    after: Phase,
    action: Action,
)
    requires
        text.len() > 0,
        bytes@ == encode_utf8(text),
        recognizer::responds(
            Phase::CopyingText(TextUse::Realtime),
            Event::TextCopied(bytes),
            after,
            action,
        ),
    ensures
        action matches Action::FreeText(Outcome::Realtime(Ok(Some(given)))) && given@ == text,
{
    encode_utf8_valid_utf8(text);
    encode_utf8_decode_utf8(text);
    realtime_text_is_given(bytes, after, action);
}

/// A transcript is the text that was copied, all of it, and it is there though it is empty.
pub proof fn a_transcript_is_given(bytes: Vec<u8>, after: Phase, action: Action)
    requires
        recognizer::responds(
            Phase::CopyingText(TextUse::Transcript),
            Event::TextCopied(bytes),
            after,
            action,
        ),
    ensures
        after is Idle,
        action matches Action::FreeText(Outcome::Transcript(Ok(text))) && (valid_utf8(bytes@)
            ==> encode_utf8(text@) == bytes@) && (!valid_utf8(bytes@) ==> text@ == text::utf8_lossy(
            bytes@,
        )),
{
    names::text_is_shown_as_it_is(seq![], bytes@);
}

/// A call that gives a text: where it fails the error is read, a null text is empty, and any
/// other text is copied, for the same use.
pub proof fn a_text_call_is_answered(
    wanted: TextUse,
    code: i32,
    is_null: bool,
    after: Phase,
    action: Action,
)
    requires
        recognizer::responds(
            Phase::AwaitingText(wanted),
            Event::TextReturned { code, is_null },
            after,
            action,
        ),
    ensures
        code != 0 ==> action is ReadError && after == Phase::ReadingError(Purpose::Text(wanted)),
        code == 0 && !is_null ==> action is CopyText && after == Phase::CopyingText(wanted),
        code == 0 && is_null ==> after is Idle,
        code == 0 && is_null && wanted == TextUse::Transcript ==> (action matches Action::Finish(
            Outcome::Transcript(Ok(text)),
        ) && text@.len() == 0),
        code == 0 && is_null && wanted == TextUse::Realtime ==> (action matches Action::Finish(
            Outcome::Realtime(Ok(None)),
        )),
{
}

/// Segments that were copied are given one for one: as many as there are, in their order, each
/// with its start and its end.
pub proof fn all_segments_are_given(
    count: usize,
    copied: Vec<SvSegment>,
    after: Phase,
    action: Action,
)
    requires
        recognizer::responds(
            Phase::CopyingSegments(count),
            Event::SegmentsCopied(copied),
            after,
            action,
        ),
    ensures
        after is Idle,
        action matches Action::FreeSegments(Outcome::Segments(Ok(given))) && given@.len()
            == copied@.len() && forall|i: int|
            0 <= i < copied@.len() ==> (#[trigger] given@[i]).start_ms == copied@[i].start_ms
                && given@[i].end_ms == copied@[i].end_ms,
{
    segments_are_converted_one_for_one(copied@);
}

/// Segments are converted one for one: none is left out, and each keeps its start and its end.
pub proof fn segments_are_converted_one_for_one(segments: Seq<SvSegment>)
    ensures
        native::speech_segments_of(segments).len() == segments.len(),
        forall|i: int|
            0 <= i < segments.len() ==> (#[trigger] native::speech_segments_of(segments)[i]).start_ms
                == segments[i].start_ms && native::speech_segments_of(segments)[i].end_ms
                == segments[i].end_ms,
{
}

/// The call for segments: where it fails the error is read, null is no segments, segments with a
/// count of zero are freed, and else as many are copied as the count says.
pub proof fn a_segments_call_is_answered(
    code: i32,
    is_null: bool,
    count: usize,
    after: Phase,
    action: Action,
)
    requires
        recognizer::responds(
            Phase::AwaitingSegments,
            Event::SegmentsReturned { code, is_null, count },
            after,
            action,
        ),
    ensures
        code != 0 ==> action is ReadError && after == Phase::ReadingError(Purpose::Segments),
        code == 0 && is_null ==> after is Idle && (action matches Action::Finish(
            Outcome::Segments(Ok(given)),
        ) && given@.len() == 0),
        code == 0 && !is_null && count == 0 ==> after is Idle && (action matches
            Action::FreeSegments(Outcome::Segments(Ok(given))) && given@.len() == 0),
        code == 0 && !is_null && count > 0 ==> after == Phase::CopyingSegments(count) && action
            == Action::CopySegments(count),
{
}

/// The message that an outcome fails with, if it fails.
pub open spec fn message_of(outcome: Outcome) -> Option<Seq<char>> {
    match outcome {
        Outcome::Started(Err(error)) => Some(error@),
        Outcome::Transcript(Err(error)) => Some(error@),
        Outcome::Realtime(Err(error)) => Some(error@),
        Outcome::Segments(Err(error)) => Some(error@),
        _ => None,
    }
}

/// Whether the outcome is of the kind that a native call was made for.
pub open spec fn is_for(outcome: Outcome, purpose: Purpose) -> bool {
    match purpose {
        Purpose::Text(TextUse::Transcript) => outcome is Transcript,
        Purpose::Text(TextUse::Realtime) => outcome is Realtime,
        Purpose::Segments => outcome is Segments,
    }
}

/// A failed call gives the message that the native library has for it, all of it; where it has
/// none, or an empty one, a message of its own. It is never without a message.
pub proof fn the_last_error_is_given(
    purpose: Purpose,
    message: Option<Vec<u8>>,
    after: Phase,
    action: Action,
)
    requires
        recognizer::responds(
            Phase::ReadingError(purpose),
            Event::ErrorRead(message),
            after,
            action,
        ),
    ensures
        after is Idle,
        action matches Action::Finish(outcome) && is_for(outcome, purpose) && (message_of(
            outcome,
        ) matches Some(told) && told.len() > 0 && match message {
            Some(bytes) => if bytes@.len() > 0 {
                tells(told, bytes@)
            } else {
                told == "native SenseVoice call failed"@
            },
            None => told == "native SenseVoice call failed"@,
        }),
{
    if let Some(bytes) = message {
        names::text_is_shown_as_it_is(seq![], bytes@);
    }
}

/// The message of a failed call, by what the native library has for it.
pub proof fn a_missing_message_is_replaced(message: Seq<char>, bytes: Vec<u8>)
    ensures
        message.len() > 0 ==> native::failure_text(message) == message,
        message.len() == 0 ==> native::failure_text(message) == "native SenseVoice call failed"@,
        native::last_error_text(None) == "native SenseVoice call failed"@,
        bytes@.len() == 0 ==> native::last_error_text(Some(bytes))
            == "native SenseVoice call failed"@,
        bytes@.len() > 0 && valid_utf8(bytes@) ==> encode_utf8(native::last_error_text(Some(bytes)))
            == bytes@,
        bytes@.len() > 0 && !valid_utf8(bytes@) ==> native::last_error_text(Some(bytes))
            == text::utf8_lossy(bytes@),
{
    names::text_is_shown_as_it_is(seq![], bytes@);
}

/// The outcomes of a text and of a failure are of the kind that was asked for, with that text or
/// that message.
pub proof fn outcomes_say_what_came_back(
    outcome: Outcome,
    wanted: TextUse,
    purpose: Purpose,
    text: Seq<char>,
)
    ensures
        recognizer::is_text(outcome, wanted, text) ==> is_for(outcome, Purpose::Text(wanted))
            && match outcome {
            Outcome::Transcript(Ok(given)) => given@ == text,
            Outcome::Realtime(Ok(Some(given))) => given@ == text && text.len() > 0,
            Outcome::Realtime(Ok(None)) => text.len() == 0,
            _ => false,
        },
        recognizer::is_failure(outcome, purpose, text) ==> is_for(outcome, purpose) && message_of(
            outcome,
        ) == Some(text),
{
}

/// Every path that can be a string of the native library is handed to it, byte for byte, and its
/// text is waited for. Any other path is refused before a native call is made.
pub proof fn an_audio_file_is_handed_on(audio_path: Seq<u8>, after: Phase, action: Action)
    requires
        recognizer::takes(Request::TranscribeFile(audio_path), after, action),
    ensures
        is_c_path(audio_path) ==> after == Phase::AwaitingText(TextUse::Transcript) && (
        action matches Action::RecognizeFile(path) && path@ == audio_path),
        !is_c_path(audio_path) ==> after is Idle && (action matches Action::Finish(
            Outcome::Transcript(Err(error)),
        ) && if valid_utf8(audio_path) {
            error@ == "path contains NUL byte: "@ + decode_utf8(audio_path)
        } else {
            error@ == "path is not valid UTF-8: "@ + text::utf8_lossy(audio_path)
        }),
{
    names::refused_paths_are_no_c_strings(audio_path);
}

/// Each other request makes the native call that it is named for, and waits for its reply where
/// there is one.
pub proof fn a_request_makes_its_call(after: Phase, action: Action)
    ensures
        recognizer::takes(Request::TranscribePcm, after, action) ==> after == Phase::AwaitingText(
            TextUse::Transcript,
        ) && action is RecognizePcm,
        recognizer::takes(Request::VadSegments, after, action) ==> after is AwaitingSegments
            && action is FindSegments,
        recognizer::takes(Request::AcceptRealtime, after, action) ==> after == Phase::AwaitingText(
            TextUse::Realtime,
        ) && action is AcceptRealtime,
        recognizer::takes(Request::FlushRealtime, after, action) ==> after == Phase::AwaitingText(
            TextUse::Realtime,
        ) && action is FlushRealtime,
        recognizer::takes(Request::ResetRealtime, after, action) ==> after is Idle
            && action is ResetRealtime,
        recognizer::takes(Request::Close, after, action) ==> after is Closed
            && action is FreeHandle,
{
}

/// Whether the event replies to the action.
pub open spec fn replies_to(action: Action, event: Event) -> bool {
    match action {
        Action::CheckFile(_) => event is FileChecked,
        Action::Create(_) => event is Created,
        Action::RecognizeFile(_)
        | Action::RecognizePcm
        | Action::AcceptRealtime
        | Action::FlushRealtime => event is TextReturned,
        Action::FindSegments => event is SegmentsReturned,
        Action::ReadError => event is ErrorRead,
        Action::CopyText => event is TextCopied,
        Action::CopySegments(count) => {
            event matches Event::SegmentsCopied(segments) && segments@.len() == count
        },
        _ => false,
    }
}

/// Whatever the reply to the action that is due, the recognizer waits for it, and it waits for
/// nothing else.
pub proof fn the_reply_to_an_action_is_awaited(step: Move, event: Event)
    requires
        runs::is_move(step),
    ensures
        recognizer::awaits(step.after, event) <==> replies_to(step.action, event),
{
}

/// A recognizer that starts waits to know whether its first model is a file.
pub proof fn a_start_waits_for_the_first_check(config: RecognizerConfig, event: Event)
    ensures
        recognizer::awaits(Phase::CheckingModel(config), event) <==> event is FileChecked,
{
}

/// A start whose SenseVoice model is no file ends with an error that names it. Else the FSMN-VAD
/// model is looked at, if there is one.
pub proof fn the_model_file_is_checked(
    config: RecognizerConfig,
    is_file: bool,
    after: Phase,
    action: Action,
)
    requires
        recognizer::responds(
            Phase::CheckingModel(config),
            Event::FileChecked(is_file),
            after,
            action,
        ),
    ensures
        !is_file ==> after is Refused && (action matches Action::Finish(Outcome::Started(Err(error)))
            && error@ == "SenseVoice model file not found: "@ + text::shown(
            config.sensevoice_model@,
        )),
        is_file && config.vad_model is Some ==> after == Phase::CheckingVad(config) && (
        action matches Action::CheckFile(path) && path@ == config.vad_model->0@),
        is_file && config.vad_model is None ==> goes_on(config, after, action),
{
    config_is_refused_for_its_paths(config);
}

/// A start whose FSMN-VAD model is no file ends with an error that names it.
pub proof fn the_vad_file_is_checked(
    config: RecognizerConfig,
    is_file: bool,
    after: Phase,
    action: Action,
)
    requires
        config.vad_model is Some,
        recognizer::responds(
            Phase::CheckingVad(config),
            Event::FileChecked(is_file),
            after,
            action,
        ),
    ensures
        !is_file ==> after is Refused && (action matches Action::Finish(Outcome::Started(Err(error)))
            && error@ == "FSMN-VAD model file not found: "@ + text::shown(config.vad_model->0@)),
        is_file ==> goes_on(config, after, action),
{
    config_is_refused_for_its_paths(config);
}

/// Whether a start goes on rightly once the files are there: the handle is made where each path
/// can be a string of the native library, and else the start ends with an error for the first
/// path that cannot.
pub open spec fn goes_on(config: RecognizerConfig, after: Phase, action: Action) -> bool {
    if has_c_paths(config) {
        after is Creating && action is Create && has_settings(action->Create_0, config)
    } else {
        let path = if !is_c_path(config.sensevoice_model@) {
            config.sensevoice_model@
        } else {
            config.vad_model->0@
        };
        &&& after is Refused
        &&& action matches Action::Finish(Outcome::Started(Err(error)))
        &&& if valid_utf8(path) {
            error@ == "path contains NUL byte: "@ + decode_utf8(path)
        } else {
            error@ == "path is not valid UTF-8: "@ + text::utf8_lossy(path)
        }
    }
}

/// Whether the native library is given every setting of a configuration.
pub open spec fn has_settings(native: SvConfig, config: RecognizerConfig) -> bool {
    &&& native.sensevoice_model@ == config.sensevoice_model@
    &&& native.vad_model is Some <==> config.vad_model is Some
    &&& config.vad_model is Some ==> native.vad_model->0@ == config.vad_model->0@
    &&& native.n_threads == config.n_threads
    &&& native.vad_max_seg_ms == config.vad_max_seg_ms
    &&& native.realtime_min_silence_ms == config.realtime_min_silence_ms
    &&& native.realtime_step_ms == config.realtime_step_ms
    &&& config.keep_tags ==> native.keep_tags == 1
    &&& !config.keep_tags ==> native.keep_tags == 0
}

/// A configuration is refused exactly for its paths, and for the SenseVoice model's first.
pub proof fn config_is_refused_for_its_paths(config: RecognizerConfig)
    ensures
        native::config_refusal(config) is None <==> has_c_paths(config),
        !is_c_path(config.sensevoice_model@) ==> native::config_refusal(config)
            == path::c_path_refusal(config.sensevoice_model@),
        is_c_path(config.sensevoice_model@) && config.vad_model is Some ==> native::config_refusal(
            config,
        ) == path::c_path_refusal(config.vad_model->0@),
{
    names::refused_paths_are_no_c_strings(config.sensevoice_model@);
    if let Some(vad_model) = config.vad_model {
        names::refused_paths_are_no_c_strings(vad_model@);
    }
}

/// A configuration in the native library's terms has every setting: each number as it is, each
/// path byte for byte, and tags kept exactly when they are to be kept.
pub proof fn native_settings_are_the_configured_ones(native: SvConfig, config: RecognizerConfig)
    requires
        native::same_config(native, config),
    ensures
        native.sensevoice_model@ == config.sensevoice_model@,
        native.vad_model is Some <==> config.vad_model is Some,
        config.vad_model is Some ==> native.vad_model->0@ == config.vad_model->0@,
        native.n_threads == config.n_threads,
        native.vad_max_seg_ms == config.vad_max_seg_ms,
        native.realtime_min_silence_ms == config.realtime_min_silence_ms,
        native.realtime_step_ms == config.realtime_step_ms,
        native.keep_tags == 1 <==> config.keep_tags,
        native.keep_tags == 0 <==> !config.keep_tags,
{
}

/// In every run, the native handle is made with the settings that the start was given, whatever
/// they are.
pub proof fn the_handle_has_the_settings_of_the_start(config: RecognizerConfig, run: Seq<Move>)
    requires
        runs::is_run(config, run),
        run.len() > 0,
        run.last().action is Create,
    ensures
        run.last().action->Create_0.keep_tags == 1 <==> config.keep_tags,
        run.last().action->Create_0.keep_tags == 0 <==> !config.keep_tags,
        run.last().action->Create_0.n_threads == config.n_threads,
        run.last().action->Create_0.vad_max_seg_ms == config.vad_max_seg_ms,
        run.last().action->Create_0.realtime_min_silence_ms == config.realtime_min_silence_ms,
        run.last().action->Create_0.realtime_step_ms == config.realtime_step_ms,
        run.last().action->Create_0.sensevoice_model@ == config.sensevoice_model@,
        run.last().action->Create_0.vad_model is Some <==> config.vad_model is Some,
        config.vad_model is Some ==> run.last().action->Create_0.vad_model->0@
            == config.vad_model->0@,
{
    runs::the_handle_is_made_from_the_configuration(config, run);
    native_settings_are_the_configured_ones(run.last().action->Create_0, config);
}

/// A start succeeds exactly when the native constructor succeeds with a handle that is not null.
pub proof fn a_start_needs_a_handle(code: i32, is_null: bool, after: Phase, action: Action)
    requires
        recognizer::responds(Phase::Creating, Event::Created { code, is_null }, after, action),
    ensures
        code == 0 && !is_null ==> after is Idle && (action matches Action::Finish(
            Outcome::Started(Ok(_)),
        )),
        code != 0 ==> after is Refused && (action matches Action::Finish(
            Outcome::Started(Err(error)),
        ) && error@
            == "failed to initialize SenseVoice recognizer; check model paths and GGUF format"@),
        code == 0 && is_null ==> after is Refused && (action matches Action::Finish(
            Outcome::Started(Err(error)),
        ) && error@ == "native recognizer returned null"@),
{
}

/// Whether the outcome is a success.
pub open spec fn is_success(outcome: Outcome) -> bool {
    message_of(outcome) is None
}

/// Whether a move was made by a native call that succeeded.
pub open spec fn is_native_success(step: Move) -> bool {
    match step.input {
        Input::Event(Event::Created { code, is_null }) => code == 0 && !is_null,
        Input::Event(Event::TextReturned { code, .. }) => code == 0,
        Input::Event(Event::SegmentsReturned { code, .. }) => code == 0,
        _ => false,
    }
}

/// There is no success without the native library: a run delivers a success only when a native
/// call has just succeeded, or has succeeded just before its result was copied.
pub proof fn success_needs_a_native_success(config: RecognizerConfig, run: Seq<Move>)
    requires
        runs::is_run(config, run),
        run.len() > 0,
        runs::delivered(run.last().action) matches Some(outcome) && is_success(outcome),
    ensures
        is_native_success(run.last()) || (run.len() > 1 && is_native_success(
            run.drop_last().last(),
        )),
        run.last().input is Event,
{
    let before = run.drop_last();
    assert(runs::is_run(config, before));
    if let Input::Request(Request::TranscribeFile(path)) = run.last().input {
        names::refused_paths_are_no_c_strings(path);
    }
}

} // verus!

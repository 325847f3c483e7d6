//! What holds of every run of a recognizer, from its start on.

use vstd::prelude::*;

use crate::config::RecognizerConfig;
use crate::native;
use crate::native::SvSegment;
use crate::recognizer;
use crate::recognizer::{Action, Event, Outcome, Phase, Purpose, Request, TextUse};

verus! {

/// What moves a recognizer on.
pub enum Input {
    Request(Request),
    Event(Event),
}

/// One move of a recognizer: the phases before and after it, what moved it, and the action that
/// was due then.
pub struct Move {
    pub before: Phase,
    pub input: Input,
    pub after: Phase,
    pub action: Action,
}

/// Whether a recognizer makes this move.
pub open spec fn is_move(step: Move) -> bool {
    match step.input {
        Input::Request(request) => {
            &&& step.before is Idle
            &&& recognizer::takes(request, step.after, step.action)
        },
        Input::Event(event) => {
            &&& recognizer::awaits(step.before, event)
            &&& recognizer::responds(step.before, event, step.after, step.action)
        },
    }
}

/// The phase at the end of a run that starts with `config`.
pub open spec fn end_of(config: RecognizerConfig, run: Seq<Move>) -> Phase {
    if run.len() == 0 {
        Phase::CheckingModel(config)
    } else {
        run.last().after
    }
}

/// Whether the moves follow each other from the start of a recognizer with `config`.
pub open spec fn is_run(config: RecognizerConfig, run: Seq<Move>) -> bool
    decreases run.len(),
{
    run.len() > 0 ==> {
        &&& is_run(config, run.drop_last())
        &&& run.last().before == end_of(config, run.drop_last())
        &&& is_move(run.last())
    }
}

/// How many moves of a run are of a kind.
pub open spec fn count(run: Seq<Move>, kind: spec_fn(Move) -> bool) -> nat
    decreases run.len(),
{
    if run.len() == 0 {
        0
    } else {
        count(run.drop_last(), kind) + if kind(run.last()) {
            1nat
        } else {
            0
        }
    }
}

/// The native library hands out a text: a call succeeds with a text that is not null.
pub open spec fn text_handed_out() -> spec_fn(Move) -> bool {
    |step: Move| step.input matches Input::Event(Event::TextReturned { code: 0, is_null: false })
}

/// A text is to be freed.
pub open spec fn text_freed() -> spec_fn(Move) -> bool {
    |step: Move| step.action is FreeText
}

/// The native library hands out segments: a call succeeds with a pointer that is not null.
pub open spec fn segments_handed_out() -> spec_fn(Move) -> bool {
    |step: Move|
        step.input matches Input::Event(
            Event::SegmentsReturned { code: 0, is_null: false, .. },
        )
}

/// Segments are to be freed.
pub open spec fn segments_freed() -> spec_fn(Move) -> bool {
    |step: Move| step.action is FreeSegments
}

/// The native library hands out a handle.
pub open spec fn handle_handed_out() -> spec_fn(Move) -> bool {
    |step: Move| step.input matches Input::Event(Event::Created { code: 0, is_null: false })
}

/// The native handle is to be freed.
pub open spec fn handle_freed() -> spec_fn(Move) -> bool {
    |step: Move| step.action is FreeHandle
}

/// Every native text is freed once, after it was copied: as long as it is being copied, one more
/// text is handed out than freed, and at any other time as many are freed as were handed out.
pub proof fn every_text_is_freed_once(config: RecognizerConfig, run: Seq<Move>)
    requires
        is_run(config, run),
    ensures
        count(run, text_handed_out()) == count(run, text_freed()) + if end_of(
            config,
            run,
        ) is CopyingText {
            1nat
        } else {
            0
        },
    decreases run.len(),
{
    if run.len() > 0 {
        every_text_is_freed_once(config, run.drop_last());
    }
}

/// All native segments are freed once, after they were copied; where there is nothing to copy,
/// they are freed at once.
pub proof fn all_segments_are_freed_once(config: RecognizerConfig, run: Seq<Move>)
    requires
        is_run(config, run),
    ensures
        count(run, segments_handed_out()) == count(run, segments_freed()) + if end_of(
            config,
            run,
        ) is CopyingSegments {
            1nat
        } else {
            0
        },
    decreases run.len(),
{
    if run.len() > 0 {
        all_segments_are_freed_once(config, run.drop_last());
    }
}

/// Whether there is a native handle in this phase.
pub open spec fn has_handle(phase: Phase) -> bool {
    match phase {
        Phase::CheckingModel(_)
        | Phase::CheckingVad(_)
        | Phase::Creating
        | Phase::Refused
        | Phase::Closed => false,
        _ => true,
    }
}

/// Whether the action uses the native handle.
pub open spec fn uses_handle(action: Action) -> bool {
    match action {
        Action::RecognizeFile(_)
        | Action::RecognizePcm
        | Action::FindSegments
        | Action::AcceptRealtime
        | Action::FlushRealtime
        | Action::ResetRealtime
        | Action::ReadError
        | Action::FreeHandle => true,
        _ => false,
    }
}

/// A run has at most one native handle. It is there exactly while it was handed out and is not
/// freed yet, and so it is freed at most once.
pub proof fn the_handle_is_freed_once(config: RecognizerConfig, run: Seq<Move>)
    requires
        is_run(config, run),
    ensures
        count(run, handle_handed_out()) == count(run, handle_freed()) + if has_handle(
            end_of(config, run),
        ) {
            1nat
        } else {
            0
        },
        count(run, handle_handed_out()) <= 1,
        end_of(config, run) is Closed ==> count(run, handle_freed()) == 1,
{
    handle_count(config, run);
}

proof fn handle_count(config: RecognizerConfig, run: Seq<Move>)
    requires
        is_run(config, run),
    ensures
        count(run, handle_handed_out()) == if has_handle(end_of(config, run)) || end_of(
            config,
            run,
        ) is Closed {
            1nat
        } else {
            0
        },
        count(run, handle_freed()) == if end_of(config, run) is Closed {
            1nat
        } else {
            0
        },
    decreases run.len(),
{
    if run.len() > 0 {
        handle_count(config, run.drop_last());
    }
}

/// The native handle is used only while there is one.
pub proof fn the_handle_is_used_while_it_lives(step: Move)
    requires
        is_move(step),
        uses_handle(step.action),
    ensures
        has_handle(step.before),
{
}

/// When a native call has failed, the last error is what is read next: no other native call
/// comes in between.
pub proof fn the_error_is_read_at_once(config: RecognizerConfig, run: Seq<Move>)
    requires
        is_run(config, run),
        run.len() >= 2,
        ({
            let returned = run.drop_last().last();
            ||| returned.input matches Input::Event(Event::TextReturned { code, .. }) && code != 0
            ||| returned.input matches Input::Event(Event::SegmentsReturned { code, .. }) && code
                != 0
        }),
    ensures
        run.drop_last().last().action is ReadError,
        run.last().input matches Input::Event(Event::ErrorRead(_)),
        run.last().action is Finish,
{
    assert(is_run(config, run.drop_last()));
}

/// How many replies a recognizer still waits for, at most, before it has an outcome.
pub open spec fn replies_due(phase: Phase) -> nat {
    match phase {
        Phase::CheckingModel(_) => 3,
        Phase::CheckingVad(_) => 2,
        Phase::Creating => 1,
        Phase::AwaitingText(_) => 2,
        Phase::CopyingText(_) => 1,
        Phase::AwaitingSegments => 2,
        Phase::CopyingSegments(_) => 1,
        Phase::ReadingError(_) => 1,
        Phase::Refused | Phase::Idle | Phase::Closed => 0,
    }
}

/// The outcome that the action delivers, if it delivers one.
pub open spec fn delivered(action: Action) -> Option<Outcome> {
    match action {
        Action::FreeText(outcome) | Action::FreeSegments(outcome) | Action::Finish(outcome) => Some(
            outcome,
        ),
        _ => None,
    }
}

/// A request comes to an end: each reply leaves fewer replies to wait for, and the outcome is
/// delivered exactly when no reply is waited for any more.
pub proof fn requests_come_to_an_end(step: Move)
    requires
        is_move(step),
        step.input is Event,
    ensures
        replies_due(step.after) < replies_due(step.before),
        delivered(step.action) is Some <==> replies_due(step.after) == 0,
{
}

/// Whether the moves follow each other.
pub open spec fn follow(first: Move, second: Move, third: Move) -> bool {
    &&& is_move(first)
    &&& is_move(second)
    &&& is_move(third)
    &&& first.after == second.before
    &&& second.after == third.before
}

/// What a request is made for, where it leads to a native call that has a reply.
pub open spec fn purpose_of(request: Request) -> Option<Purpose> {
    match request {
        Request::TranscribeFile(_) | Request::TranscribePcm => Some(
            Purpose::Text(TextUse::Transcript),
        ),
        Request::AcceptRealtime | Request::FlushRealtime => Some(
            Purpose::Text(TextUse::Realtime),
        ),
        Request::VadSegments => Some(Purpose::Segments),
        Request::ResetRealtime | Request::Close => None,
    }
}

/// What the native library answers is what the request gives: the text that was copied.
pub proof fn the_native_text_is_delivered(asked: Move, returned: Move, copied: Move, bytes: Vec<u8>)
    requires
        follow(asked, returned, copied),
        asked.input is Request,
        copied.input == Input::Event(Event::TextCopied(bytes)),
    ensures
        purpose_of(asked.input->Request_0) matches Some(Purpose::Text(wanted)) && (delivered(
            copied.action,
        ) matches Some(outcome) && recognizer::is_native_text(outcome, wanted, bytes@)),
        copied.after is Idle,
{
}

/// What the native library answers is what the request gives: the segments that were copied.
pub proof fn the_native_segments_are_delivered(
    asked: Move,
    returned: Move,
    copied: Move,
    segments: Vec<SvSegment>,
)
    requires
        follow(asked, returned, copied),
        asked.input is Request,
        copied.input == Input::Event(Event::SegmentsCopied(segments)),
    ensures
        asked.input->Request_0 is VadSegments,
        delivered(copied.action) matches Some(Outcome::Segments(Ok(result))) && result@
            == native::speech_segments_of(segments@),
        copied.after is Idle,
{
}

/// A request whose native call fails gives the native library's last error, which is never
/// without a message.
pub proof fn a_failed_call_delivers_the_last_error(
    asked: Move,
    returned: Move,
    read: Move,
    message: Option<Vec<u8>>,
)
    requires
        follow(asked, returned, read),
        asked.input is Request,
        read.input == Input::Event(Event::ErrorRead(message)),
    ensures
        purpose_of(asked.input->Request_0) matches Some(purpose) && (delivered(
            read.action,
        ) matches Some(outcome) && recognizer::is_failure(
            outcome,
            purpose,
            native::last_error_text(message),
        )),
        native::last_error_text(message).len() > 0,
        read.after is Idle,
{
}

/// Realtime audio never gives an empty text.
pub proof fn realtime_text_is_never_empty(step: Move)
    requires
        is_move(step),
    ensures
        delivered(step.action) matches Some(Outcome::Realtime(Ok(Some(text)))) ==> text@.len() > 0,
{
}

/// The native handle is made from the configuration, after each model that it names was found to
/// be a file.
pub proof fn the_handle_is_made_from_the_configuration(config: RecognizerConfig, run: Seq<Move>)
    requires
        is_run(config, run),
        run.len() > 0,
        run.last().action is Create,
    ensures
        native::same_config(run.last().action->Create_0, config),
        native::config_refusal(config) is None,
        run.len() == if config.vad_model is Some {
            2nat
        } else {
            1
        },
        forall|i: int|
            0 <= i < run.len() ==> (#[trigger] run[i]).input == Input::Event(
                Event::FileChecked(true),
            ),
{
    checks_come_first(config, run.drop_last());
    assert forall|i: int| 0 <= i < run.len() - 1 implies run[i] == run.drop_last()[i] by {}
}

/// A realtime recognizer, which is started with an FSMN-VAD model, hands that model to the
/// native library.
pub proof fn a_vad_model_is_handed_on(config: RecognizerConfig, run: Seq<Move>)
    requires
        is_run(config, run),
        config.vad_model is Some,
        run.len() > 0,
        run.last().action is Create,
    ensures
        run.last().action->Create_0.vad_model matches Some(path) && path@ == config.vad_model->0@,
{
    the_handle_is_made_from_the_configuration(config, run);
}

proof fn checks_come_first(config: RecognizerConfig, run: Seq<Move>)
    requires
        is_run(config, run),
    ensures
        end_of(config, run) is CheckingModel ==> run.len() == 0,
        end_of(config, run) is CheckingModel ==> end_of(config, run) == Phase::CheckingModel(config),
        end_of(config, run) is CheckingVad ==> {
            &&& config.vad_model is Some
            &&& run.len() == 1
            &&& run[0].input == Input::Event(Event::FileChecked(true))
            &&& end_of(config, run) == Phase::CheckingVad(config)
        },
    decreases run.len(),
{
    if run.len() > 0 {
        checks_come_first(config, run.drop_last());
    }
}

} // verus!

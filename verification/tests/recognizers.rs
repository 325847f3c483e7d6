use sensevoice::native::{failure, last_error, non_empty, speech_segments};
use sensevoice::recognizer::Phase;
use sensevoice::{
    Action, DirEntry, Event, FilePath, Outcome, RealtimeRecognizer, Recognizer, RecognizerConfig,
    SpeechSegment, SvSegment,
};

fn refusal(action: Action) -> String {
    match action {
        Action::Finish(Outcome::Started(Err(error))) => error.to_string(),
        other => panic!("{other:?}"),
    }
}

fn ready() -> Recognizer {
    let (mut recognizer, _) = Recognizer::new(RecognizerConfig::new("a"));
    recognizer.step(Event::FileChecked(true));
    let action = recognizer.step(Event::Created { code: 0, is_null: false });
    assert!(matches!(action, Action::Finish(Outcome::Started(Ok(())))));
    assert!(recognizer.is_idle());
    recognizer
}

#[test]
fn native_runtime_can_be_loaded() {
    // No model files are needed to see that a null text is nothing to free.
    let mut recognizer = Recognizer { phase: Phase::Idle };
    assert!(matches!(recognizer.flush_realtime(), Action::FlushRealtime));
    let action = recognizer.step(Event::TextReturned { code: 0, is_null: true });
    assert!(matches!(action, Action::Finish(Outcome::Realtime(Ok(None)))));
    assert!(recognizer.is_idle());
}

#[test]
fn a_start_without_a_vad_model_checks_one_file() {
    let (mut recognizer, action) = Recognizer::new(RecognizerConfig::new("a").with_threads(5));
    assert!(matches!(action, Action::CheckFile(path) if path.display() == "a"));
    assert!(!recognizer.is_idle());
    match recognizer.step(Event::FileChecked(true)) {
        Action::Create(native) => {
            assert_eq!(native.sensevoice_model.as_bytes_with_nul(), b"a\0");
            assert!(native.vad_model.is_none());
            assert_eq!(native.n_threads, 5);
        }
        other => panic!("{other:?}"),
    }
}

#[test]
fn a_start_with_a_vad_model_checks_two_files() {
    let config = RecognizerConfig::new("a").with_vad_model("v");
    let (mut recognizer, _) = Recognizer::new(config);
    let action = recognizer.step(Event::FileChecked(true));
    assert!(matches!(action, Action::CheckFile(path) if path.display() == "v"));
    match recognizer.step(Event::FileChecked(true)) {
        Action::Create(native) => {
            assert_eq!(native.vad_model.unwrap().as_bytes_with_nul(), b"v\0");
        }
        other => panic!("{other:?}"),
    }
}

#[test]
fn a_start_needs_its_model_files() {
    let config = RecognizerConfig::new("a").with_vad_model("v");
    let (mut recognizer, _) = Recognizer::new(config.clone());
    assert_eq!(
        refusal(recognizer.step(Event::FileChecked(false))),
        "SenseVoice model file not found: a"
    );
    assert!(!recognizer.is_idle());
    let (mut recognizer, _) = Recognizer::new(config);
    recognizer.step(Event::FileChecked(true));
    assert_eq!(
        refusal(recognizer.step(Event::FileChecked(false))),
        "FSMN-VAD model file not found: v"
    );
}

#[test]
fn a_start_needs_proper_paths() {
    let (mut recognizer, _) = Recognizer::new(RecognizerConfig::new("a\0"));
    assert_eq!(
        refusal(recognizer.step(Event::FileChecked(true))),
        "path contains NUL byte: a\0"
    );
    let config = RecognizerConfig::new(FilePath::from_bytes(vec![0xff]));
    let (mut recognizer, _) = Recognizer::new(config);
    assert_eq!(
        refusal(recognizer.step(Event::FileChecked(true))),
        "path is not valid UTF-8: \u{fffd}"
    );
}

#[test]
fn a_start_needs_a_native_handle() {
    let (mut recognizer, _) = Recognizer::new(RecognizerConfig::new("a"));
    recognizer.step(Event::FileChecked(true));
    assert_eq!(
        refusal(recognizer.step(Event::Created { code: 1, is_null: false })),
        "failed to initialize SenseVoice recognizer; check model paths and GGUF format"
    );
    let (mut recognizer, _) = Recognizer::new(RecognizerConfig::new("a"));
    recognizer.step(Event::FileChecked(true));
    assert_eq!(
        refusal(recognizer.step(Event::Created { code: 0, is_null: true })),
        "native recognizer returned null"
    );
}

#[test]
fn a_recognizer_starts_from_a_models_directory() {
    let names = ["sensevoice-small-q8.gguf", "fsmn-vad.gguf"];
    let listing = |names: &[&str]| -> Result<Vec<Result<DirEntry, String>>, String> {
        Ok(names
            .iter()
            .map(|name| {
                Ok(DirEntry {
                    path: FilePath::from(format!("models/{name}")),
                    file_name: Some(name.to_string()),
                    is_file: true,
                })
            })
            .collect())
    };
    let models_dir = FilePath::from("models");
    let (mut recognizer, action) =
        Recognizer::from_models_dir(&models_dir, &listing(&names), &listing(&names)).unwrap();
    assert!(
        matches!(action, Action::CheckFile(path) if path.display() == "models/sensevoice-small-q8.gguf")
    );
    let action = recognizer.step(Event::FileChecked(true));
    assert!(matches!(action, Action::CheckFile(path) if path.display() == "models/fsmn-vad.gguf"));
    let error = Recognizer::from_models_dir(&models_dir, &listing(&[]), &listing(&[])).unwrap_err();
    assert_eq!(error.to_string(), "no SenseVoice GGUF found in models");

    let started = RealtimeRecognizer::from_models_dir(&models_dir, &listing(&names), &listing(&names));
    let (realtime, action) = started.unwrap();
    assert!(
        matches!(action, Action::CheckFile(path) if path.display() == "models/sensevoice-small-q8.gguf")
    );
    assert!(!realtime.into_inner().is_idle());
    let error =
        RealtimeRecognizer::from_models_dir(&models_dir, &listing(&names[..1]), &listing(&names[..1]))
            .unwrap_err();
    assert_eq!(
        error.to_string(),
        "RealtimeRecognizer requires an FSMN-VAD model in RecognizerConfig::vad_model"
    );
    let error = RealtimeRecognizer::from_models_dir(&models_dir, &listing(&[]), &listing(&[]))
        .unwrap_err();
    assert_eq!(error.to_string(), "no SenseVoice GGUF found in models");
}

#[test]
fn a_file_is_transcribed() {
    let mut recognizer = ready();
    match recognizer.transcribe_file(&FilePath::from("audio.wav")) {
        Action::RecognizeFile(path) => assert_eq!(path.as_bytes_with_nul(), b"audio.wav\0"),
        other => panic!("{other:?}"),
    }
    let event = Event::TextReturned { code: 0, is_null: false };
    assert!(recognizer.is_awaiting(&event));
    assert!(matches!(recognizer.step(event), Action::CopyText));
    match recognizer.step(Event::TextCopied("你好".as_bytes().to_vec())) {
        Action::FreeText(Outcome::Transcript(Ok(text))) => assert_eq!(text, "你好"),
        other => panic!("{other:?}"),
    }
    assert!(recognizer.is_idle());
}

#[test]
fn a_file_with_an_improper_path_is_not_transcribed() {
    let mut recognizer = ready();
    match recognizer.transcribe_file(&FilePath::from("a\0")) {
        Action::Finish(Outcome::Transcript(Err(error))) => {
            assert_eq!(error.to_string(), "path contains NUL byte: a\0");
        }
        other => panic!("{other:?}"),
    }
    assert!(recognizer.is_idle());
}

#[test]
fn an_empty_transcript_is_a_text() {
    let mut recognizer = ready();
    assert!(matches!(recognizer.transcribe_pcm_16k(), Action::RecognizePcm));
    match recognizer.step(Event::TextReturned { code: 0, is_null: true }) {
        Action::Finish(Outcome::Transcript(Ok(text))) => assert_eq!(text, ""),
        other => panic!("{other:?}"),
    }
    recognizer.transcribe_pcm_16k();
    recognizer.step(Event::TextReturned { code: 0, is_null: false });
    match recognizer.step(Event::TextCopied(Vec::new())) {
        Action::FreeText(Outcome::Transcript(Ok(text))) => assert_eq!(text, ""),
        other => panic!("{other:?}"),
    }
}

#[test]
fn a_text_that_is_not_utf8_is_shown_with_replacements() {
    let mut recognizer = ready();
    recognizer.transcribe_pcm_16k();
    recognizer.step(Event::TextReturned { code: 0, is_null: false });
    match recognizer.step(Event::TextCopied(vec![b'a', 0xff, b'b'])) {
        Action::FreeText(Outcome::Transcript(Ok(text))) => assert_eq!(text, "a\u{fffd}b"),
        other => panic!("{other:?}"),
    }
}

#[test]
fn realtime_audio_gives_text_only_where_there_is_some() {
    let mut recognizer = ready();
    assert!(matches!(recognizer.accept_realtime_pcm_16k(), Action::AcceptRealtime));
    recognizer.step(Event::TextReturned { code: 0, is_null: false });
    let action = recognizer.step(Event::TextCopied(Vec::new()));
    assert!(matches!(action, Action::FreeText(Outcome::Realtime(Ok(None)))));
    assert!(matches!(recognizer.flush_realtime(), Action::FlushRealtime));
    recognizer.step(Event::TextReturned { code: 0, is_null: false });
    let action = recognizer.step(Event::TextCopied(vec![b'x']));
    assert!(matches!(action, Action::FreeText(Outcome::Realtime(Ok(Some(text)))) if text == "x"));
    recognizer.flush_realtime();
    recognizer.step(Event::TextReturned { code: 0, is_null: false });
    let action = recognizer.step(Event::TextCopied(vec![0xff]));
    assert!(
        matches!(action, Action::FreeText(Outcome::Realtime(Ok(Some(text)))) if text == "\u{fffd}")
    );
}

#[test]
fn a_failed_call_gives_the_last_error() {
    let mut recognizer = ready();
    recognizer.transcribe_pcm_16k();
    let action = recognizer.step(Event::TextReturned { code: 2, is_null: false });
    assert!(matches!(action, Action::ReadError));
    match recognizer.step(Event::ErrorRead(Some(b"out of memory".to_vec()))) {
        Action::Finish(Outcome::Transcript(Err(error))) => {
            assert_eq!(error.to_string(), "out of memory");
        }
        other => panic!("{other:?}"),
    }
    recognizer.flush_realtime();
    recognizer.step(Event::TextReturned { code: -1, is_null: true });
    match recognizer.step(Event::ErrorRead(None)) {
        Action::Finish(Outcome::Realtime(Err(error))) => {
            assert_eq!(error.to_string(), "native SenseVoice call failed");
        }
        other => panic!("{other:?}"),
    }
    recognizer.vad_segments();
    let event = Event::SegmentsReturned { code: 3, is_null: true, count: 0 };
    assert!(matches!(recognizer.step(event), Action::ReadError));
    match recognizer.step(Event::ErrorRead(Some(Vec::new()))) {
        Action::Finish(Outcome::Segments(Err(error))) => {
            assert_eq!(error.to_string(), "native SenseVoice call failed");
        }
        other => panic!("{other:?}"),
    }
    assert!(recognizer.is_idle());
}

#[test]
fn segments_are_copied_and_freed() {
    let mut recognizer = ready();
    assert!(matches!(recognizer.vad_segments(), Action::FindSegments));
    let event = Event::SegmentsReturned { code: 0, is_null: false, count: 2 };
    assert!(matches!(recognizer.step(event), Action::CopySegments(2)));
    let copied = vec![
        SvSegment { start_ms: 10, end_ms: 20 },
        SvSegment { start_ms: 30, end_ms: 45 },
    ];
    assert!(!recognizer.is_awaiting(&Event::SegmentsCopied(Vec::new())));
    match recognizer.step(Event::SegmentsCopied(copied)) {
        Action::FreeSegments(Outcome::Segments(Ok(segments))) => assert_eq!(
            segments,
            vec![
                SpeechSegment { start_ms: 10, end_ms: 20 },
                SpeechSegment { start_ms: 30, end_ms: 45 },
            ]
        ),
        other => panic!("{other:?}"),
    }
    assert!(recognizer.is_idle());
}

#[test]
fn null_segments_are_neither_copied_nor_freed() {
    for (is_null, count) in [(true, 0), (true, 3)] {
        let mut recognizer = ready();
        recognizer.vad_segments();
        match recognizer.step(Event::SegmentsReturned { code: 0, is_null, count }) {
            Action::Finish(Outcome::Segments(Ok(segments))) => assert!(segments.is_empty()),
            other => panic!("{other:?}"),
        }
        assert!(recognizer.is_idle());
    }
}

#[test]
fn segments_with_a_count_of_zero_are_freed() {
    let mut recognizer = ready();
    recognizer.vad_segments();
    let event = Event::SegmentsReturned { code: 0, is_null: false, count: 0 };
    match recognizer.step(event) {
        Action::FreeSegments(Outcome::Segments(Ok(segments))) => assert!(segments.is_empty()),
        other => panic!("{other:?}"),
    }
    assert!(recognizer.is_idle());
}

#[test]
fn resetting_and_closing_have_no_reply() {
    let mut recognizer = ready();
    assert!(matches!(recognizer.reset_realtime(), Action::ResetRealtime));
    assert!(recognizer.is_idle());
    assert!(matches!(recognizer.close(), Action::FreeHandle));
    assert!(!recognizer.is_idle());
    assert!(!recognizer.is_awaiting(&Event::ErrorRead(None)));
}

#[test]
fn a_realtime_recognizer_needs_a_vad_model() {
    let error = RealtimeRecognizer::new(RecognizerConfig::new("a")).unwrap_err();
    assert_eq!(
        error.to_string(),
        "RealtimeRecognizer requires an FSMN-VAD model in RecognizerConfig::vad_model"
    );
}

#[test]
fn a_realtime_recognizer_takes_audio() {
    let config = RecognizerConfig::new("a").with_vad_model("v");
    let (mut realtime, action) = RealtimeRecognizer::new(config).unwrap();
    assert!(matches!(action, Action::CheckFile(path) if path.display() == "a"));
    realtime.step(Event::FileChecked(true));
    let action = realtime.step(Event::FileChecked(true));
    assert!(matches!(action, Action::Create(native) if native.vad_model.is_some()));
    realtime.step(Event::Created { code: 0, is_null: false });
    assert!(matches!(realtime.accept_pcm_16k(), Action::AcceptRealtime));
    realtime.step(Event::TextReturned { code: 0, is_null: true });
    assert!(matches!(realtime.flush(), Action::FlushRealtime));
    realtime.step(Event::TextReturned { code: 0, is_null: true });
    assert!(matches!(realtime.reset(), Action::ResetRealtime));
    assert!(realtime.into_inner().is_idle());
}

#[test]
fn a_recognizer_waits_for_the_reply_to_its_action() {
    let (recognizer, _) = Recognizer::new(RecognizerConfig::new("a"));
    assert!(recognizer.is_awaiting(&Event::FileChecked(false)));
    assert!(!recognizer.is_awaiting(&Event::Created { code: 0, is_null: false }));
    let recognizer = ready();
    assert!(!recognizer.is_awaiting(&Event::FileChecked(true)));
}

#[test]
fn replies_are_read() {
    assert_eq!(failure(String::from("bad")).to_string(), "bad");
    assert_eq!(failure(String::new()).to_string(), "native SenseVoice call failed");
    assert_eq!(last_error(Some(vec![b'x', 0x80])).to_string(), "x\u{fffd}");
    assert_eq!(last_error(None).to_string(), "native SenseVoice call failed");
    assert_eq!(non_empty(String::new()), None);
    assert_eq!(non_empty(String::from(" ")), Some(String::from(" ")));
    assert!(speech_segments(&Vec::new()).is_empty());
}

use sensevoice::config::find_sensevoice_model;
use sensevoice::models::{find_gguf, model_rank};
use sensevoice::{DirEntry, FilePath, RecognizerConfig};

fn file(name: &str) -> DirEntry {
    DirEntry {
        path: FilePath::from(format!("models/{name}")),
        file_name: Some(name.to_string()),
        is_file: true,
    }
}

fn listing(names: &[&str]) -> Result<Vec<Result<DirEntry, String>>, String> {
    Ok(names.iter().map(|name| Ok(file(name))).collect())
}

fn found(names: &[&str], needle: &str) -> Option<String> {
    find_gguf(&FilePath::from("models"), &listing(names), needle)
        .unwrap()
        .map(|path| path.display())
}

#[test]
fn ranks_go_by_the_weights_in_the_name() {
    assert_eq!(model_rank(&file("sensevoice-small-q8.gguf")), 0);
    assert_eq!(model_rank(&file("SenseVoice-Small-Q8_0.gguf")), 0);
    assert_eq!(model_rank(&file("sensevoice-f16-q8.gguf")), 0);
    assert_eq!(model_rank(&file("sensevoice-F16.gguf")), 1);
    assert_eq!(model_rank(&file("sensevoice-f32.gguf")), 2);
    let mut unnamed = file("x");
    unnamed.file_name = None;
    assert_eq!(model_rank(&unnamed), 2);
}

#[test]
fn the_best_rank_is_taken() {
    let names = ["sensevoice-a.gguf", "sensevoice-f16.gguf", "sensevoice-q8.gguf"];
    assert_eq!(found(&names, "sensevoice").as_deref(), Some("models/sensevoice-q8.gguf"));
    assert_eq!(found(&names[..2], "sensevoice").as_deref(), Some("models/sensevoice-f16.gguf"));
    assert_eq!(found(&names[..1], "sensevoice").as_deref(), Some("models/sensevoice-a.gguf"));
}

#[test]
fn of_equal_ranks_the_first_name_is_taken() {
    let names = ["vad-b.gguf", "vad-a.gguf", "vad-aa.gguf", "vad.gguf"];
    assert_eq!(found(&names, "vad").as_deref(), Some("models/vad-a.gguf"));
    let names = ["b-vad.gguf", "B-vad.gguf"];
    assert_eq!(found(&names, "vad").as_deref(), Some("models/B-vad.gguf"));
    let names = ["vad-ab.gguf", "vad-a.gguf"];
    assert_eq!(found(&names, "vad").as_deref(), Some("models/vad-a.gguf"));
}

#[test]
fn the_order_of_entries_does_not_matter() {
    let names = ["x-vad-q8.gguf", "a-vad.gguf", "b-vad-q8.gguf"];
    let turned = ["b-vad-q8.gguf", "x-vad-q8.gguf", "a-vad.gguf"];
    assert_eq!(found(&names, "vad").as_deref(), Some("models/b-vad-q8.gguf"));
    assert_eq!(found(&names, "vad"), found(&turned, "vad"));
}

#[test]
fn case_does_not_matter() {
    assert_eq!(
        found(&["FSMN-VAD.GGUF"], "vad").as_deref(),
        Some("models/FSMN-VAD.GGUF")
    );
    assert_eq!(
        found(&["fsmn-vad.gguf"], "VAD").as_deref(),
        Some("models/fsmn-vad.gguf")
    );
}

#[test]
fn case_matters_only_between_equal_ranks() {
    assert_eq!(
        found(&["VAD-F16.gguf", "vad-Q8.gguf"], "vad").as_deref(),
        Some("models/vad-Q8.gguf")
    );
    assert_eq!(
        found(&["vad-f16.gguf", "VAD-q8.gguf"], "Vad").as_deref(),
        Some("models/VAD-q8.gguf")
    );
    assert_eq!(found(&["a-vad.gguf", "B-vad.gguf"], "vad").as_deref(), Some("models/B-vad.gguf"));
    assert_eq!(found(&["a-vad.gguf", "b-vad.gguf"], "vad").as_deref(), Some("models/a-vad.gguf"));
}

#[test]
fn other_entries_do_not_matter() {
    let candidates = ["vad-b.gguf", "vad-a.gguf"];
    let mixed = ["0.txt", "vad-b.gguf", "sensevoice-q8.gguf", "vad-a.gguf", "vad-q8.bin"];
    assert_eq!(found(&candidates, "vad").as_deref(), Some("models/vad-a.gguf"));
    assert_eq!(found(&candidates, "vad"), found(&mixed, "vad"));
}

#[test]
fn only_named_gguf_files_are_candidates() {
    assert_eq!(found(&["vad.bin", "vad.gguf.part", "sensevoice.gguf"], "vad"), None);
    assert_eq!(found(&[".gguf"], "vad"), None);
    assert_eq!(found(&["ggufvad"], "vad"), None);
    assert_eq!(found(&[], "vad"), None);
    let mut folder = file("vad.gguf");
    folder.is_file = false;
    let mut unnamed = file("vad.gguf");
    unnamed.file_name = None;
    let entries = Ok(vec![Ok(folder), Ok(unnamed)]);
    assert!(find_gguf(&FilePath::from("models"), &entries, "vad").unwrap().is_none());
}

#[test]
fn an_unreadable_directory_is_an_error() {
    let error = find_gguf(
        &FilePath::from("models"),
        &Err(String::from("permission denied")),
        "vad",
    )
    .unwrap_err();
    assert_eq!(error.to_string(), "failed to read models: permission denied");
}

#[test]
fn an_unreadable_entry_is_an_error() {
    let entries = Ok(vec![
        Ok(file("vad.gguf")),
        Err(String::from("first")),
        Err(String::from("second")),
    ]);
    let error = find_gguf(&FilePath::from("models"), &entries, "vad").unwrap_err();
    assert_eq!(error.to_string(), "failed to read model entry: first");
}

#[test]
fn a_models_directory_gives_both_models() {
    let names = ["sensevoice-small-q8.gguf", "fsmn-vad.gguf"];
    let config = RecognizerConfig::from_models_dir(
        &FilePath::from("models"),
        &listing(&names),
        &listing(&names),
    )
    .unwrap();
    assert_eq!(config.sensevoice_model.display(), "models/sensevoice-small-q8.gguf");
    assert_eq!(config.vad_model.unwrap().display(), "models/fsmn-vad.gguf");
    assert_eq!(config.n_threads, 8);
    assert_eq!(config.vad_max_seg_ms, 30_000);
    assert_eq!(config.realtime_min_silence_ms, 600);
    assert_eq!(config.realtime_step_ms, 500);
    assert!(!config.keep_tags);
}

#[test]
fn a_models_directory_needs_no_vad_model() {
    let names = ["sensevoice-small-q8.gguf"];
    let config = RecognizerConfig::from_models_dir(
        &FilePath::from("models"),
        &listing(&names),
        &listing(&names),
    )
    .unwrap();
    assert!(config.vad_model.is_none());
}

#[test]
fn a_models_directory_needs_a_sensevoice_model() {
    let names = ["fsmn-vad.gguf"];
    let error = RecognizerConfig::from_models_dir(
        &FilePath::from("models"),
        &listing(&names),
        &Err(String::from("gone")),
    )
    .unwrap_err();
    assert_eq!(error.to_string(), "no SenseVoice GGUF found in models");
}

#[test]
fn a_sensevoice_model_is_looked_for_first() {
    let models_dir = FilePath::from("models");
    let found = find_sensevoice_model(&models_dir, &listing(&["sensevoice.gguf"])).unwrap();
    assert_eq!(found.display(), "models/sensevoice.gguf");
    let error = find_sensevoice_model(&models_dir, &listing(&["vad.gguf"])).unwrap_err();
    assert_eq!(error.to_string(), "no SenseVoice GGUF found in models");
    let error = find_sensevoice_model(&models_dir, &Err(String::from("gone"))).unwrap_err();
    assert_eq!(error.to_string(), "failed to read models: gone");
}

#[test]
fn entries_without_a_name_do_not_disturb_the_order() {
    let unnamed = |path: u8| DirEntry {
        path: FilePath::from_bytes(vec![path]),
        file_name: None,
        is_file: true,
    };
    let entries = Ok(vec![Ok(unnamed(0xfe)), Ok(file("vad.gguf")), Ok(unnamed(0xff))]);
    let turned = Ok(vec![Ok(unnamed(0xff)), Ok(unnamed(0xfe)), Ok(file("vad.gguf"))]);
    for listing in [entries, turned] {
        let found = find_gguf(&FilePath::from("models"), &listing, "vad").unwrap();
        assert_eq!(found.unwrap().display(), "models/vad.gguf");
    }
}

#[test]
fn the_second_listing_can_fail() {
    let error = RecognizerConfig::from_models_dir(
        &FilePath::from("models"),
        &listing(&["sensevoice.gguf"]),
        &Err(String::from("gone")),
    )
    .unwrap_err();
    assert_eq!(error.to_string(), "failed to read models: gone");
}

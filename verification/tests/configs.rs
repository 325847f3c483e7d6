use sensevoice::native::native_config;
use sensevoice::{FilePath, RecognizerConfig};

#[test]
fn a_new_configuration_has_the_defaults() {
    let config = RecognizerConfig::new("sensevoice.gguf");
    assert_eq!(config.sensevoice_model.display(), "sensevoice.gguf");
    assert!(config.vad_model.is_none());
    assert_eq!(config.n_threads, 8);
    assert_eq!(config.vad_max_seg_ms, 30_000);
    assert_eq!(config.realtime_min_silence_ms, 600);
    assert_eq!(config.realtime_step_ms, 500);
    assert!(!config.keep_tags);
}

#[test]
fn a_configuration_takes_any_kind_of_path() {
    let config = RecognizerConfig::new(FilePath::from("a")).with_vad_model(String::from("b"));
    assert_eq!(config.sensevoice_model.display(), "a");
    assert_eq!(config.vad_model.unwrap().display(), "b");
}

#[test]
fn settings_change_one_thing_each() {
    let config = RecognizerConfig::new("a")
        .with_threads(2)
        .with_vad_model("v")
        .with_keep_tags(true)
        .with_threads(-1);
    assert_eq!(config.sensevoice_model.display(), "a");
    assert_eq!(config.vad_model.clone().unwrap().display(), "v");
    assert_eq!(config.n_threads, -1);
    assert!(config.keep_tags);
    assert_eq!(config.vad_max_seg_ms, 30_000);
    let copy = config.clone();
    assert_eq!(copy.n_threads, -1);
    assert_eq!(copy.vad_model.unwrap().display(), "v");
}

#[test]
fn the_native_configuration_says_the_same() {
    let mut config = RecognizerConfig::new("a").with_threads(3).with_keep_tags(true);
    config.vad_max_seg_ms = 1;
    config.realtime_min_silence_ms = 2;
    config.realtime_step_ms = 4;
    let native = native_config(&config).unwrap();
    assert_eq!(native.sensevoice_model.as_bytes_with_nul(), b"a\0");
    assert!(native.vad_model.is_none());
    assert_eq!(native.n_threads, 3);
    assert_eq!(native.vad_max_seg_ms, 1);
    assert_eq!(native.realtime_min_silence_ms, 2);
    assert_eq!(native.realtime_step_ms, 4);
    assert_eq!(native.keep_tags, 1);
    let native = native_config(&config.with_vad_model("v").with_keep_tags(false)).unwrap();
    assert_eq!(native.vad_model.unwrap().as_bytes_with_nul(), b"v\0");
    assert_eq!(native.keep_tags, 0);
}

#[test]
fn the_native_configuration_needs_proper_paths() {
    let error = native_config(&RecognizerConfig::new("a").with_vad_model("v\0")).unwrap_err();
    assert_eq!(error.to_string(), "path contains NUL byte: v\0");
    let error = native_config(&RecognizerConfig::new("a\0").with_vad_model("v\0")).unwrap_err();
    assert_eq!(error.to_string(), "path contains NUL byte: a\0");
}

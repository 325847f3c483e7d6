# sensevoice

The core of a speech recognizer whose SenseVoice and FSMN-VAD models run in a native library,
verified with Verus.

- `src/` finds model files in the listing of a directory, turns a configuration into native terms,
  and says as a state machine which native call is due and what its reply means. It makes no native
  call and reads no file. `laws.rs` and `runs.rs` state what holds of it as a whole.
- `app/` holds the native handle. It performs the actions that the state machine asks for and hands
  the replies back.
- `tests/` runs the library on concrete values.

A models directory holds GGUF files, for example:

```text
models/
  sensevoice-small-q8.gguf
  fsmn-vad.gguf
```

Files with `q8` in their names are preferred to those with `f16`, and these to all others; of
equals the first by name is taken.

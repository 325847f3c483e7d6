//! The core of a speech recognizer whose models run in a native library.
//!
//! The library finds model files, checks a configuration, and says which native call is due and
//! what its reply means. It makes no native call itself and reads no file.

pub mod answers;
pub mod config;
pub mod error;
pub mod laws;
pub mod models;
pub mod names;
pub mod native;
pub mod path;
pub mod realtime;
pub mod recognizer;
pub mod runs;
pub mod text;

pub use config::RecognizerConfig;
pub use error::SenseVoiceError;
pub use models::DirEntry;
pub use native::{SpeechSegment, SvConfig, SvSegment};
pub use path::{FilePath, NativeString};
pub use realtime::RealtimeRecognizer;
pub use recognizer::{Action, Event, Outcome, Recognizer};

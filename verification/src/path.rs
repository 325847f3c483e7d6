//! Paths as bytes, and the zero-terminated strings that are made of them for the native library.

use vstd::prelude::*;
use vstd::slice::*;
use vstd::string::*;
use vstd::utf8::*;

use crate::error::SenseVoiceError;
use crate::text;

verus! {

/// A path as bytes: UTF-8 where the path is text, and no UTF-8 where it is none.
#[derive(Debug)]
pub struct FilePath {
    bytes: Vec<u8>,
}

impl View for FilePath {
    type V = Seq<u8>;

    closed spec fn view(&self) -> Seq<u8> {
        self.bytes@
    }
}

impl FilePath {
    /// The path with the given bytes.
    pub fn from_bytes(bytes: Vec<u8>) -> (path: FilePath)
        ensures
            path@ == bytes@,
    {
        FilePath { bytes }
    }

    /// The path's bytes.
    pub fn as_bytes(&self) -> (bytes: &[u8])
        ensures
            bytes@ == self@,
    {
        self.bytes.as_slice()
    }

    /// The path as text; there is none unless its bytes are valid UTF-8.
    pub fn to_str(&self) -> (text: Option<String>)
        ensures
            text is Some <==> valid_utf8(self@),
            text matches Some(text) ==> text@ == decode_utf8(self@),
    {
        text::utf8_text(self.bytes.as_slice())
    }

    /// The path as a message shows it: what is not UTF-8 in it is replaced.
    pub fn display(&self) -> (text: String)
        ensures
            text@ == text::shown(self@),
    {
        text::utf8_lossy_text(self.bytes.as_slice())
    }
}

impl Clone for FilePath {
    fn clone(&self) -> (copy: FilePath)
        ensures
            copy@ == self@,
    {
        FilePath { bytes: slice_to_vec(self.bytes.as_slice()) }
    }
}

impl From<&str> for FilePath {
    /// The path that a text spells: its UTF-8 bytes.
    fn from(text: &str) -> (path: FilePath)
        ensures
            path@ == encode_utf8(text@),
    {
        FilePath { bytes: text.as_bytes_vec() }
    }
}

impl vstd::std_specs::convert::FromSpecImpl<&str> for FilePath {
    open spec fn obeys_from_spec() -> bool {
        false
    }

    open spec fn from_spec(text: &str) -> FilePath {
        arbitrary()
    }
}

impl From<String> for FilePath {
    /// The path that a text spells: its UTF-8 bytes.
    fn from(text: String) -> (path: FilePath)
        ensures
            path@ == encode_utf8(text@),
    {
        FilePath { bytes: text.as_str().as_bytes_vec() }
    }
}

impl vstd::std_specs::convert::FromSpecImpl<String> for FilePath {
    open spec fn obeys_from_spec() -> bool {
        false
    }

    open spec fn from_spec(text: String) -> FilePath {
        arbitrary()
    }
}

/// `From` from a type to itself, which std implements for every type: it hands its argument back.
pub assume_specification<T>[ <T as From<T>>::from ](value: T) -> (same: T)
    ensures
        same == value,
;

/// A string for the native library: bytes without a zero among them, and a zero behind them.
#[derive(Debug)]
pub struct NativeString {
    bytes: Vec<u8>,
}

impl View for NativeString {
    type V = Seq<u8>;

    /// The bytes before the closing zero.
    closed spec fn view(&self) -> Seq<u8> {
        self.bytes@.drop_last()
    }
}

impl NativeString {
    #[verifier::type_invariant]
    spec fn is_terminated(self) -> bool {
        &&& self.bytes@.len() > 0
        &&& self.bytes@.last() == 0
        &&& forall|i: int| 0 <= i < self.bytes@.len() - 1 ==> self.bytes@[i] != 0
    }

    /// The bytes with the closing zero, as the native library reads them.
    pub fn as_bytes_with_nul(&self) -> (bytes: &[u8])
        ensures
            bytes@ == self@.push(0),
            !self@.contains(0),
    {
        proof {
            use_type_invariant(self);
            assert(self.bytes@ =~= self.bytes@.drop_last().push(0));
        }
        self.bytes.as_slice()
    }
}

/// Why the native library cannot be given a path, if it cannot: it takes neither a path that is
/// no text nor one with a zero byte in it.
pub open spec fn c_path_refusal(path: Seq<u8>) -> Option<Seq<char>> {
    if !valid_utf8(path) {
        Some("path is not valid UTF-8: "@ + text::shown(path))
    } else if path.contains(0) {
        Some("path contains NUL byte: "@ + decode_utf8(path))
    } else {
        None
    }
}

/// What the native library reads of a zero-terminated string: the bytes before the first zero.
pub open spec fn read_up_to_zero(bytes: Seq<u8>) -> Seq<u8>
    decreases bytes.len(),
{
    if bytes.len() == 0 || bytes[0] == 0 {
        seq![]
    } else {
        seq![bytes[0]] + read_up_to_zero(bytes.drop_first())
    }
}

/// The path as a string for the native library.
pub fn path_to_cstring(path: &FilePath) -> (string: Result<NativeString, SenseVoiceError>)
    ensures
        match c_path_refusal(path@) {
            None => string matches Ok(string) && string@ == path@,
            Some(message) => string matches Err(error) && error@ == message,
        },
{
    match path.to_str() {
        None => Err(SenseVoiceError::about("path is not valid UTF-8: ", path.display().as_str())),
        Some(text) => {
            let mut bytes: Vec<u8> = Vec::new();
            let mut i: usize = 0;
            while i < path.bytes.len()
                invariant
                    i <= path@.len(),
                    bytes@ == path@.take(i as int),
                    forall|j: int| 0 <= j < i ==> path@[j] != 0,
                    text@ == decode_utf8(path@),
                    valid_utf8(path@),
                decreases path@.len() - i,
            {
                let byte: u8 = path.bytes[i];
                if byte == 0 {
                    assert(path@[i as int] == 0);
                    return Err(
                        SenseVoiceError::about("path contains NUL byte: ", text.as_str()),
                    );
                }
                bytes.push(byte);
                assert(path@.take(i + 1) =~= path@.take(i as int).push(byte));
                i = i + 1;
            }
            assert(path@.take(i as int) =~= path@);
            bytes.push(0);
            assert(bytes@.drop_last() =~= path@);
            Ok(NativeString { bytes })
        },
    }
}

} // verus!

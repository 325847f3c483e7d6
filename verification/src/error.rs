//! The error that every fallible operation of the library reports.

use vstd::prelude::*;
use vstd::string::*;

verus! {

/// An error, told by its message alone.
#[derive(Debug)]
pub struct SenseVoiceError {
    message: String,
}

impl View for SenseVoiceError {
    type V = Seq<char>;

    closed spec fn view(&self) -> Seq<char> {
        self.message@
    }
}

impl SenseVoiceError {
    /// An error with the given message.
    pub fn new(message: String) -> (error: SenseVoiceError)
        ensures
            error@ == message@,
    {
        SenseVoiceError { message }
    }

    /// An error whose message is `what` followed by `detail`.
    pub fn about(what: &str, detail: &str) -> (error: SenseVoiceError)
        ensures
            error@ == what@ + detail@,
    {
        let mut message = what.to_owned();
        message.append(detail);
        SenseVoiceError { message }
    }

    /// The message.
    pub fn to_string(&self) -> (message: String)
        ensures
            message@ == self@,
    {
        self.message.clone()
    }
}

impl Clone for SenseVoiceError {
    fn clone(&self) -> (copy: SenseVoiceError)
        ensures
            copy@ == self@,
    {
        SenseVoiceError { message: self.message.clone() }
    }
}

impl PartialEq for SenseVoiceError {
    fn eq(&self, other: &SenseVoiceError) -> (equal: bool) {
        self.message == other.message
    }
}

impl vstd::std_specs::cmp::PartialEqSpecImpl for SenseVoiceError {
    open spec fn obeys_eq_spec() -> bool {
        true
    }

    open spec fn eq_spec(&self, other: &SenseVoiceError) -> bool {
        self@ == other@
    }
}

impl Eq for SenseVoiceError {

}

/// Two errors are equal exactly when they have the same message.
pub proof fn errors_are_equal_by_their_messages(a: SenseVoiceError, b: SenseVoiceError)
    ensures
        vstd::std_specs::cmp::PartialEqSpec::eq_spec(&a, &b) <==> a@ == b@,
{
}

} // verus!

use vstd::prelude::*;

verus! {

/// The two ways an operation on a display can fail.
#[derive(Clone, Copy, Debug, PartialEq, Eq, Structural)]
pub enum ErrorKind {
    /// The display did not answer a DDC/CI request.
    TimedOut,
    /// There is no such display, or it does not offer the feature.
    Unsupported,
}

/// An error with its kind and a human-readable message.
#[derive(Debug)]
pub struct Error {
    pub kind: ErrorKind,
    pub message: String,
}

impl Error {
    pub fn new(kind: ErrorKind, message: String) -> (r: Error)
        ensures
            r.kind == kind,
            r.message@ == message@,
    {
        Error { kind, message }
    }

    pub fn kind(&self) -> (r: ErrorKind)
        ensures
            r == self.kind,
    {
        self.kind
    }

    /// The message, as `to_string` would give it.
    pub fn to_string(&self) -> (r: String)
        ensures
            r@ == self.message@,
    {
        self.message.clone()
    }
}

/// `r` is how the library reports an exchange whose outcome was `o`: the
/// value on success, `TimedOut` with the transport's message on failure.
pub open spec fn reports<T>(r: Result<T, Error>, o: Result<T, Seq<char>>) -> bool {
    match o {
        Ok(v) => r == Ok::<T, Error>(v),
        Err(message) => r is Err && r->Err_0.kind == ErrorKind::TimedOut && r->Err_0.message@ == message,
    }
}

/// Maps the outcome of a DDC/CI exchange into the library's terms: any
/// failure of the transport is reported as `TimedOut`, with its message.
pub fn transport_result<T>(outcome: Result<T, String>) -> (r: Result<T, Error>)
    ensures
        outcome is Ok ==> r == Ok::<T, Error>(outcome->Ok_0),
        outcome is Err ==> (r is Err && r->Err_0.kind == ErrorKind::TimedOut
            && r->Err_0.message@ == outcome->Err_0@),
        reports(r, crate::monitor::outcome(outcome)),
{
    match outcome {
        Ok(v) => Ok(v),
        Err(message) => Err(Error { kind: ErrorKind::TimedOut, message }),
    }
}

/// The message for a display index that names no display: a fixed text
/// followed by the index in decimal.
pub(crate) fn no_display_message(id: usize) -> (r: String)
    ensures
        exists|digits: Seq<char>| r@ == "There is no display with id: "@ + digits,
{
    let digits = id.to_string();
    let mut message = String::from_str("There is no display with id: ");
    message.append(digits.as_str());
    assert(message@ == "There is no display with id: "@ + digits@);
    message
}

pub(crate) fn no_brightness_message() -> (r: String)
    ensures
        r@ == "This display doesn't support brightness operations"@,
{
    String::from_str("This display doesn't support brightness operations")
}

} // verus!

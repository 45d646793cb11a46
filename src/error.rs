use vstd::prelude::*;

verus! {

/// An error that keeps nothing of its cause but the cause's text.
#[derive(Debug)]
pub struct StringedError {
    message: String,
}

impl StringedError {
    /// The text that the error carries.
    pub closed spec fn text(&self) -> Seq<char> {
        self.message@
    }

    /// Wraps the rendering of a failure.
    pub fn new(message: String) -> (r: StringedError)
        ensures
            r.text() == message@,
    {
        StringedError { message }
    }

    /// The text that the error carries, as its textual rendering.
    pub fn to_string(&self) -> (r: String)
        ensures
            r@ == self.text(),
    {
        self.message.clone()
    }
}

/// The uniform error of the library's callers.
pub type QuantumError = Box<StringedError>;

/// Errors that can be raised from the text of any failure.
pub trait Throwable: Sized {
    /// The text that an error of this kind carries.
    spec fn message(&self) -> Seq<char>;

    /// A failure, for any success type, that carries exactly `input`.
    fn throw<U>(input: String) -> (r: Result<U, Self>)
        ensures
            r is Err,
            r->Err_0.message() == input@;
}

impl Throwable for QuantumError {
    open spec fn message(&self) -> Seq<char> {
        (**self).text()
    }

    fn throw<U>(input: String) -> (r: Result<U, QuantumError>) {
        Err(Box::new(StringedError::new(input)))
    }
}

} // verus!

//! The error type shared by the encoder and the decoder.

use vstd::prelude::*;

verus! {

/// What went wrong, independent of the wording of the message.
#[derive(Debug, Clone, Copy, PartialEq, Eq, Structural)]
pub enum TapeErrorKind {
    /// The caller asked the encoder for something the format cannot hold.
    InvalidInput,
    /// The image ends in the middle of a word or of a record.
    UnexpectedEof,
    /// The image holds a word or a record that the format forbids.
    InvalidData,
}

/// An error of the codec: its kind and a message for people.
#[derive(Debug, Clone)]
pub struct TapeError {
    pub kind: TapeErrorKind,
    pub message: String,
}

impl TapeError {
    pub fn new(kind: TapeErrorKind, message: String) -> (e: TapeError)
        ensures
            e.kind == kind,
            e.message@ == message@,
    {
        TapeError { kind, message }
    }

    pub fn kind(&self) -> (k: TapeErrorKind)
        ensures
            k == self.kind,
    {
        self.kind
    }

    /// The message, as the analyser records it among its warnings.
    pub fn to_string(&self) -> (s: String)
        ensures
            s@ == self.message@,
    {
        self.message.clone()
    }
}

/// Kind and message of a failure.
pub type Failure = (TapeErrorKind, Seq<char>);

/// The value of a success, or the kind and message of an error.
pub open spec fn outcome<T>(r: Result<T, TapeError>) -> Result<T, Failure> {
    match r {
        Ok(v) => Ok(v),
        Err(e) => Err((e.kind, e.message@)),
    }
}

} // verus!

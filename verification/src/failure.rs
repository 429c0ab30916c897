//! Errors: what kind they are of, and what they say.

use vstd::prelude::*;

verus! {

/// What kind of error it is.
#[derive(Debug, Clone, Copy, PartialEq, Eq, Structural)]
pub enum ErrorKind {
    /// Something that is needed is not there.
    NotFound,
    /// Something was read, and is not what it should be.
    InvalidData,
    /// An argument is not what it should be.
    InvalidInput,
    /// Bytes that a decoder could not read.
    Unreadable,
    Other,
}

/// An error.
#[derive(Debug)]
pub struct CollectError {
    pub kind: ErrorKind,
    pub message: String,
}

/// What a [`CollectError`] says.
#[verifier::ext_equal]
pub struct Failure {
    pub kind: ErrorKind,
    pub message: Seq<char>,
}

impl View for CollectError {
    type V = Failure;

    open spec fn view(&self) -> Failure {
        Failure { kind: self.kind, message: self.message@ }
    }
}

impl CollectError {
    pub fn new(kind: ErrorKind, message: String) -> (r: Self)
        ensures
            r@ == (Failure { kind, message: message@ }),
    {
        CollectError { kind, message }
    }

    pub fn copied(&self) -> (r: Self)
        ensures
            r@ == self@,
    {
        CollectError { kind: self.kind, message: self.message.clone() }
    }
}

/// The error about data that is not what it should be.
pub open spec fn invalid_data(message: Seq<char>) -> Failure {
    Failure { kind: ErrorKind::InvalidData, message }
}

pub fn invalid(message: String) -> (r: CollectError)
    ensures
        r@ == invalid_data(message@),
{
    CollectError { kind: ErrorKind::InvalidData, message }
}

/// The error about bytes that a decoder could not read.
pub open spec fn unreadable_data(message: Seq<char>) -> Failure {
    Failure { kind: ErrorKind::Unreadable, message }
}

pub fn unreadable(message: String) -> (r: CollectError)
    ensures
        r@ == unreadable_data(message@),
{
    CollectError { kind: ErrorKind::Unreadable, message }
}

/// The error about data, where something is wrong with it.
pub open spec fn invalid_if(message: Option<Seq<char>>) -> Option<Failure> {
    match message {
        Some(m) => Some(invalid_data(m)),
        None => None,
    }
}

pub fn invalid_when(message: Option<String>) -> (r: Option<CollectError>)
    ensures
        failure_of(r) == invalid_if(crate::text::opt(message)),
{
    match message {
        Some(m) => Some(invalid(m)),
        None => None,
    }
}

/// The error in an option.
pub open spec fn failure_of(e: Option<CollectError>) -> Option<Failure> {
    match e {
        Some(x) => Some(x@),
        None => None,
    }
}

/// The error of an outcome that is nothing else.
pub open spec fn unit_outcome(r: Result<(), CollectError>) -> Option<Failure> {
    match r {
        Ok(_) => None,
        Err(e) => Some(e@),
    }
}

pub fn error_of(r: Result<(), CollectError>) -> (e: Option<CollectError>)
    ensures
        failure_of(e) == unit_outcome(r),
{
    match r {
        Ok(_) => None,
        Err(e) => Some(e),
    }
}

/// An outcome that is a text, or an error.
pub open spec fn text_outcome(r: Result<String, CollectError>) -> Result<Seq<char>, Failure> {
    match r {
        Ok(t) => Ok(t@),
        Err(e) => Err(e@),
    }
}

} // verus!

//! The error type of the library.

use vstd::prelude::*;
use vstd::std_specs::convert::FromSpecImpl;
use vstd::string::*;

verus! {

/// Errors that a decision can end in.
#[derive(Debug)]
pub enum CachifiedError {
    /// Producing a fresh value failed.
    FreshValueError(String),
    /// A value did not pass the validator.
    ValidationError(String),
    /// A storage operation failed.
    CacheError(String),
    /// Any other failure.
    Other(String),
}

/// The mathematical view of a [`CachifiedError`]: its kind and the characters
/// of its text.
pub enum ErrorView {
    FreshValue(Seq<char>),
    Validation(Seq<char>),
    Cache(Seq<char>),
    Other(Seq<char>),
}

impl View for CachifiedError {
    type V = ErrorView;

    open spec fn view(&self) -> ErrorView {
        match self {
            CachifiedError::FreshValueError(text) => ErrorView::FreshValue(text@),
            CachifiedError::ValidationError(text) => ErrorView::Validation(text@),
            CachifiedError::CacheError(text) => ErrorView::Cache(text@),
            CachifiedError::Other(text) => ErrorView::Other(text@),
        }
    }
}

/// Trusted: `String::from` on a `&str` returns a string with the same
/// characters.
pub assume_specification<'a, 'b>[ <String as From<&'a str>>::from ](s: &'b str) -> (r: String)
    ensures
        r@ == s@,
;

impl CachifiedError {
    /// The text that the error carries, without the words that name its kind.
    pub open spec fn text(&self) -> Seq<char> {
        match self {
            CachifiedError::FreshValueError(text) => text@,
            CachifiedError::ValidationError(text) => text@,
            CachifiedError::CacheError(text) => text@,
            CachifiedError::Other(text) => text@,
        }
    }

    /// What [`CachifiedError::message`] returns: the words for the kind, then
    /// the text.
    pub open spec fn rendered(&self) -> Seq<char> {
        match self {
            CachifiedError::FreshValueError(text) => "Failed to get fresh value: "@ + text@,
            CachifiedError::ValidationError(text) => "Cache validation failed: "@ + text@,
            CachifiedError::CacheError(text) => "Cache operation failed: "@ + text@,
            CachifiedError::Other(text) => "Cachified error: "@ + text@,
        }
    }

    /// An error of a producer that failed. The text is what `msg` converts to.
    pub fn fresh_value<S: Into<String>>(msg: S) -> (e: Self)
        ensures
            e matches CachifiedError::FreshValueError(text) && call_ensures(
                <S as Into<String>>::into,
                (msg,),
                text,
            ),
    {
        CachifiedError::FreshValueError(msg.into())
    }

    /// An error of a value that failed validation. The text is what `msg`
    /// converts to.
    pub fn validation<S: Into<String>>(msg: S) -> (e: Self)
        ensures
            e matches CachifiedError::ValidationError(text) && call_ensures(
                <S as Into<String>>::into,
                (msg,),
                text,
            ),
    {
        CachifiedError::ValidationError(msg.into())
    }

    /// An error of a storage operation that failed. The text is what `msg`
    /// converts to.
    pub fn cache<S: Into<String>>(msg: S) -> (e: Self)
        ensures
            e matches CachifiedError::CacheError(text) && call_ensures(
                <S as Into<String>>::into,
                (msg,),
                text,
            ),
    {
        CachifiedError::CacheError(msg.into())
    }

    /// An error of no particular kind. The text is what `msg` converts to.
    pub fn other<S: Into<String>>(msg: S) -> (e: Self)
        ensures
            e matches CachifiedError::Other(text) && call_ensures(
                <S as Into<String>>::into,
                (msg,),
                text,
            ),
    {
        CachifiedError::Other(msg.into())
    }

    /// The error as a line of text for a reader.
    pub fn message(&self) -> (s: String)
        ensures
            s@ == self.rendered(),
    {
        match self {
            CachifiedError::FreshValueError(text) => {
                "Failed to get fresh value: ".to_owned().concat(text.as_str())
            },
            CachifiedError::ValidationError(text) => {
                "Cache validation failed: ".to_owned().concat(text.as_str())
            },
            CachifiedError::CacheError(text) => {
                "Cache operation failed: ".to_owned().concat(text.as_str())
            },
            CachifiedError::Other(text) => "Cachified error: ".to_owned().concat(text.as_str()),
        }
    }

    /// The same text as a validation error, whatever kind the error had.
    pub fn into_validation(self) -> (e: Self)
        ensures
            e@ == ErrorView::Validation(self.text()),
    {
        match self {
            CachifiedError::FreshValueError(text) => CachifiedError::ValidationError(text),
            CachifiedError::ValidationError(text) => CachifiedError::ValidationError(text),
            CachifiedError::CacheError(text) => CachifiedError::ValidationError(text),
            CachifiedError::Other(text) => CachifiedError::ValidationError(text),
        }
    }

    /// The error for a failure that the Redis client reported as `detail`.
    pub fn redis(detail: &str) -> (e: Self)
        ensures
            e@ == ErrorView::Cache("Redis error: "@ + detail@),
    {
        CachifiedError::CacheError("Redis error: ".to_owned().concat(detail))
    }

    /// The error for a value that could not be written as, or read from, its
    /// serialized form; `detail` is what the serializer reported.
    pub fn serialization(detail: &str) -> (e: Self)
        ensures
            e@ == ErrorView::Other("Serialization error: "@ + detail@),
    {
        CachifiedError::Other("Serialization error: ".to_owned().concat(detail))
    }
}

impl From<String> for CachifiedError {
    fn from(err: String) -> (e: Self) {
        CachifiedError::Other(err)
    }
}

impl FromSpecImpl<String> for CachifiedError {
    open spec fn obeys_from_spec() -> bool {
        true
    }

    open spec fn from_spec(v: String) -> Self {
        CachifiedError::Other(v)
    }
}

/// The error that `from` builds is stated by view in its own `ensures`: no
/// specification term names the string that is allocated for it.
impl<'a> From<&'a str> for CachifiedError {
    fn from(err: &'a str) -> (e: Self)
        ensures
            e@ == ErrorView::Other(err@),
    {
        CachifiedError::Other(err.to_owned())
    }
}

impl<'a> FromSpecImpl<&'a str> for CachifiedError {
    open spec fn obeys_from_spec() -> bool {
        false
    }

    open spec fn from_spec(v: &'a str) -> Self {
        arbitrary()
    }
}

} // verus!

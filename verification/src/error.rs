//! The library's error type.

use crate::number;
use crate::text;
use vstd::prelude::*;
use vstd::string::*;

verus! {

broadcast use vstd::string::group_string_axioms;

/// What can go wrong.
#[derive(Debug, PartialEq, Eq)]
pub enum Error {
    /// The connection to osquery failed; it may work after reconnecting.
    Transport(String),
    /// osquery, or a plugin, reported a status that is not success.
    Status {
        /// The status code.
        code: i32,
        /// The words that came with it.
        message: String,
    },
    /// Anything else.
    Other(String),
}

/// What an [`Error`] says, in terms of its characters.
pub enum ErrorView {
    Transport(Seq<char>),
    Status { code: i32, message: Seq<char> },
    Other(Seq<char>),
}

impl DeepView for Error {
    type V = ErrorView;

    open spec fn deep_view(&self) -> ErrorView {
        match self {
            Error::Transport(m) => ErrorView::Transport(m@),
            Error::Status { code, message } => ErrorView::Status { code: *code, message: message@ },
            Error::Other(m) => ErrorView::Other(m@),
        }
    }
}

impl ErrorView {
    /// The error in words.
    pub open spec fn text(self) -> Seq<char> {
        match self {
            ErrorView::Transport(m) => m,
            ErrorView::Status { code, message } => "status "@ + number::int_text(code as int)
                + ": "@ + message,
            ErrorView::Other(m) => m,
        }
    }

    /// The error of the same kind whose words start with `context`.
    pub open spec fn in_context(self, context: Seq<char>) -> ErrorView {
        match self {
            ErrorView::Transport(m) => ErrorView::Transport(context + " - "@ + m),
            ErrorView::Status { code, message } => ErrorView::Status {
                code,
                message: context + " - "@ + message,
            },
            ErrorView::Other(m) => ErrorView::Other(context + " - "@ + m),
        }
    }
}

/// What a fallible call gave back, in terms of the views of its two sides.
pub open spec fn outcome<T: DeepView>(r: Result<T, Error>) -> Result<T::V, ErrorView> {
    match r {
        Ok(v) => Ok(v.deep_view()),
        Err(e) => Err(e.deep_view()),
    }
}

impl Clone for Error {
    fn clone(&self) -> (r: Self)
        ensures
            r.deep_view() == self.deep_view(),
    {
        match self {
            Error::Transport(m) => Error::Transport(m.clone()),
            Error::Status { code, message } => Error::Status {
                code: *code,
                message: message.clone(),
            },
            Error::Other(m) => Error::Other(m.clone()),
        }
    }
}

impl Error {
    /// An error of no particular kind, with these words.
    pub fn other(message: &str) -> (r: Error)
        ensures
            r.deep_view() == ErrorView::Other(message@),
    {
        Error::Other(message.to_string())
    }

    /// The error in words.
    pub fn to_string(&self) -> (r: String)
        ensures
            r@ == self.deep_view().text(),
    {
        match self {
            Error::Transport(m) => m.clone(),
            Error::Status { code, message } => {
                let number = number::i64_text(*code as i64);
                let head = text::concat("status ", number.as_str());
                let head = text::concat(head.as_str(), ": ");
                text::concat(head.as_str(), message.as_str())
            },
            Error::Other(m) => m.clone(),
        }
    }

    /// The same error with `context` and a dash before its words.
    pub fn context(self, context: &str) -> (r: Error)
        ensures
            r.deep_view() == self.deep_view().in_context(context@),
    {
        let head = text::concat(context, " - ");
        match self {
            Error::Transport(m) => Error::Transport(text::concat(head.as_str(), m.as_str())),
            Error::Status { code, message } => Error::Status {
                code,
                message: text::concat(head.as_str(), message.as_str()),
            },
            Error::Other(m) => Error::Other(text::concat(head.as_str(), m.as_str())),
        }
    }
}

/// Context never changes what kind of error it is, nor a status code.
pub proof fn context_keeps_kind(e: ErrorView, context: Seq<char>)
    ensures
        e is Transport <==> e.in_context(context) is Transport,
        e is Status <==> e.in_context(context) is Status,
        e matches ErrorView::Status { code, .. } ==> e.in_context(context)->code == code,
{
}

/// The view of an error shows its kind, its words and its code.
pub proof fn errors_show_what_they_hold(e: Error)
    ensures
        e matches Error::Transport(m) ==> e.deep_view() == ErrorView::Transport(m@),
        e matches Error::Other(m) ==> e.deep_view() == ErrorView::Other(m@),
        e matches Error::Status { code, message } ==> e.deep_view() == (ErrorView::Status {
            code,
            message: message@,
        }),
{
}

/// A call that succeeded is seen as its value, and one that failed as its
/// error.
pub proof fn outcomes_show_both_sides<T: DeepView>(r: Result<T, Error>)
    ensures
        r matches Ok(v) ==> outcome(r) == Ok::<T::V, ErrorView>(v.deep_view()),
        r matches Err(e) ==> outcome(r) == Err::<T::V, ErrorView>(e.deep_view()),
{
}

/// In words, an error is what it was given; a status is named by its code
/// before its message.
pub proof fn errors_in_words(code: i32, words: Seq<char>)
    ensures
        ErrorView::Transport(words).text() == words,
        ErrorView::Other(words).text() == words,
        (ErrorView::Status { code, message: words }).text() == "status "@ + number::int_text(
            code as int,
        ) + ": "@ + words,
{
}

/// Context goes before the words of an error and leaves the rest of it alone.
pub proof fn context_goes_before_the_words(code: i32, words: Seq<char>, context: Seq<char>)
    ensures
        ErrorView::Transport(words).in_context(context) == ErrorView::Transport(
            context + " - "@ + words,
        ),
        ErrorView::Other(words).in_context(context) == ErrorView::Other(context + " - "@ + words),
        (ErrorView::Status { code, message: words }).in_context(context) == (ErrorView::Status {
            code,
            message: context + " - "@ + words,
        }),
{
}

} // verus!

//! Error types for the auth handshake.

use crate::codec::words;
use crate::text::decimal_text;
use postcard::Error as CodecError;
use vstd::prelude::*;

verus! {

/// Errors that can occur while running the institutional auth handshake.
#[derive(Debug)]
pub enum Error {
    /// A connection or stream operation failed.
    Transport(String),
    /// A wire message could not be (de)serialized.
    Codec(CodecError),
    /// A length-prefixed message exceeded the allowed maximum.
    MessageTooLarge(usize),
    /// The peer spoke an unsupported protocol version.
    Version(u8),
    /// The institutional assertion timestamp drifted outside the allowed window.
    ClockSkew,
    /// The local institutional signer failed to produce a signature.
    Signer(String),
    /// The remote failed verification (untrusted key, bad signature, revoked, …).
    Denied(String),
    /// The authenticator background task is no longer running.
    AuthenticatorStopped,
}

/// What an [`Error`] says, as a mathematical value.
pub enum ErrorView {
    Transport(Seq<char>),
    Codec(CodecError),
    MessageTooLarge(nat),
    Version(u8),
    ClockSkew,
    Signer(Seq<char>),
    Denied(Seq<char>),
    AuthenticatorStopped,
}

impl View for Error {
    type V = ErrorView;

    open spec fn view(&self) -> ErrorView {
        match self {
            Error::Transport(text) => ErrorView::Transport(text@),
            Error::Codec(error) => ErrorView::Codec(*error),
            Error::MessageTooLarge(len) => ErrorView::MessageTooLarge(*len as nat),
            Error::Version(version) => ErrorView::Version(*version),
            Error::ClockSkew => ErrorView::ClockSkew,
            Error::Signer(text) => ErrorView::Signer(text@),
            Error::Denied(text) => ErrorView::Denied(text@),
            Error::AuthenticatorStopped => ErrorView::AuthenticatorStopped,
        }
    }
}

impl ErrorView {
    /// The error in words.
    pub open spec fn message(self) -> Seq<char> {
        match self {
            ErrorView::Transport(text) => "transport error: "@ + text,
            ErrorView::Codec(error) => "codec error: "@ + crate::codec::error_words(error),
            ErrorView::MessageTooLarge(len) => "message too large: "@ + crate::text::decimal(len)
                + " bytes"@,
            ErrorView::Version(version) => "unsupported protocol version: "@
                + crate::text::decimal(version as nat),
            ErrorView::ClockSkew => "clock skew outside allowed window"@,
            ErrorView::Signer(text) => "institutional signer failed: "@ + text,
            ErrorView::Denied(text) => "authentication denied: "@ + text,
            ErrorView::AuthenticatorStopped => "authenticator task stopped"@,
        }
    }
}

/// The view of what an operation of this crate returned: the value's view, or the error's.
pub open spec fn outcome<T: View>(r: Result<T, Error>) -> Result<T::V, ErrorView> {
    match r {
        Ok(value) => Ok(value@),
        Err(error) => Err(error@),
    }
}

impl Error {
    /// The error in words.
    pub fn message(&self) -> (text: String)
        ensures
            text@ == self@.message(),
    {
        match self {
            Error::Transport(text) => "transport error: ".to_owned().concat(text.as_str()),
            Error::Codec(error) => "codec error: ".to_owned().concat(words(error).as_str()),
            Error::MessageTooLarge(len) => "message too large: ".to_owned().concat(
                decimal_text(*len as u64).as_str(),
            ).concat(" bytes"),
            Error::Version(version) => "unsupported protocol version: ".to_owned().concat(
                decimal_text(*version as u64).as_str(),
            ),
            Error::ClockSkew => "clock skew outside allowed window".to_owned(),
            Error::Signer(text) => "institutional signer failed: ".to_owned().concat(text.as_str()),
            Error::Denied(text) => "authentication denied: ".to_owned().concat(text.as_str()),
            Error::AuthenticatorStopped => "authenticator task stopped".to_owned(),
        }
    }
}

/// Puts what a transport operation said of its failure into an [`Error::Transport`].
pub fn transport(text: String) -> (error: Error)
    ensures
        error == Error::Transport(text),
{
    Error::Transport(text)
}

} // verus!

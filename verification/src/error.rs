//! What can go wrong while a listener is brought up or a request is served.

use crate::number::NumberError;
use vstd::prelude::*;

verus! {

/// A failure of start-up or of a single request.
#[derive(Clone, Debug, PartialEq, Eq)]
pub enum Error {
    /// A socket could not be bound or a file could not be read; the text
    /// describes the underlying failure.
    Io(String),
    /// The bind address is not an IP address; the text says why.
    IpAddr(String),
    /// The port is not a number from 1 to 65535.
    Port(NumberError),
    /// The timeout is not a number of milliseconds that fits 64 bits.
    Timeout(NumberError),
}

/// An [`Error`] with its texts as sequences of characters.
pub enum ErrorView {
    Io(Seq<char>),
    IpAddr(Seq<char>),
    Port(NumberError),
    Timeout(NumberError),
}

impl View for Error {
    type V = ErrorView;

    open spec fn view(&self) -> ErrorView {
        match *self {
            Error::Io(what) => ErrorView::Io(what@),
            Error::IpAddr(why) => ErrorView::IpAddr(why@),
            Error::Port(cause) => ErrorView::Port(cause),
            Error::Timeout(cause) => ErrorView::Timeout(cause),
        }
    }
}

/// The line that describes `error` to an operator.
pub open spec fn message_of(error: ErrorView) -> Seq<char> {
    match error {
        ErrorView::Io(what) => what,
        ErrorView::IpAddr(why) => why,
        ErrorView::Port(_) => "port must be a positive integer (u16)"@,
        ErrorView::Timeout(_) => "timeout must be a positive integer (u64)"@,
    }
}

impl Error {
    /// The line that describes this error to an operator.
    pub fn message(&self) -> (text: String)
        ensures
            text@ == message_of(self@),
    {
        match self {
            Error::Io(what) => what.clone(),
            Error::IpAddr(why) => why.clone(),
            Error::Port(_) => "port must be a positive integer (u16)".to_owned(),
            Error::Timeout(_) => "timeout must be a positive integer (u64)".to_owned(),
        }
    }

    /// The cause of a rejected number, where there is one.
    pub fn cause(&self) -> (cause: Option<NumberError>)
        ensures
            cause == match self@ {
                ErrorView::Port(c) => Some(c),
                ErrorView::Timeout(c) => Some(c),
                _ => None,
            },
    {
        match self {
            Error::Port(c) => Some(*c),
            Error::Timeout(c) => Some(*c),
            _ => None,
        }
    }
}

} // verus!

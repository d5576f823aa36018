//! What can go wrong between the client and the server.

use std::io;
use futures_channel::mpsc::SendError;
use mpd_client::client::{CommandError, ConnectionError};
use mpd_client::protocol::MpdProtocolError;
use vstd::prelude::*;
use vstd::string::*;
use crate::text::{decimal, push_decimal};

verus! {

/// `std::io::Error`, opaque.
#[verifier::external_type_specification]
#[verifier::external_body]
pub struct ExIoError(std::io::Error);

/// `std::io::ErrorKind`, opaque.
#[verifier::external_type_specification]
#[verifier::external_body]
pub struct ExIoErrorKind(std::io::ErrorKind);

/// `futures_channel::mpsc::SendError`, opaque.
#[verifier::external_type_specification]
#[verifier::external_body]
pub struct ExSendError(futures_channel::mpsc::SendError);

/// `mpd_client::client::CommandError`, opaque.
#[verifier::external_type_specification]
#[verifier::external_body]
pub struct ExCommandError(CommandError);

/// `mpd_client::client::ConnectionError`, opaque.
#[verifier::external_type_specification]
#[verifier::external_body]
pub struct ExConnectionError(ConnectionError);

/// `mpd_client::protocol::MpdProtocolError`, opaque.
#[verifier::external_type_specification]
#[verifier::external_body]
pub struct ExMpdProtocolError(MpdProtocolError);

/// `std::io::Error::kind` gives the kind of an I/O error.  Nothing is
/// claimed of the result.
pub assume_specification[ std::io::Error::kind ](e: &std::io::Error) -> (kind: std::io::ErrorKind);

/// The clone of an I/O error kind is that kind.
pub assume_specification[ <std::io::ErrorKind as Clone>::clone ](
    kind: &std::io::ErrorKind,
) -> (copy: std::io::ErrorKind)
    ensures
        copy == *kind,
;

/// The clone of a send error is an equal send error.
pub assume_specification[ <futures_channel::mpsc::SendError as Clone>::clone ](
    failure: &futures_channel::mpsc::SendError,
) -> (copy: futures_channel::mpsc::SendError)
    ensures
        copy == *failure,
;

/// A reason for the client to give up on a connection.
#[derive(Debug, PartialEq, Eq)]
pub enum Error {
    /// The transport failed.
    Io(io::ErrorKind),
    /// The protocol was violated, or a command failed without a response
    /// from the server; the text says how.
    Mpd(String),
    /// The server answered a command with this error code.
    MpdErrorResponse(u64),
    /// The status names a song that the queue does not hold.
    InvalidQueue,
    /// A message could not be handed on.
    SendError(SendError),
    /// The server closed the stream of notifications.
    Disconnect,
}

/// The error code that the server sends for a file it does not have.
pub const NO_SUCH_FILE: u64 = 50;

/// Tells the two variants of `mpd_client::protocol::MpdProtocolError`
/// apart: the I/O error inside `Io`, and nothing for `InvalidMessage`.
/// Nothing is claimed of the result.
#[verifier::external_body]
fn protocol_io(error: &MpdProtocolError) -> (inner: Option<&io::Error>) {
    match error {
        MpdProtocolError::Io(inner) => Some(inner),
        MpdProtocolError::InvalidMessage => None,
    }
}

/// Tells the variants of `mpd_client::client::CommandError` apart: the
/// `code` of the server's response inside `ErrorResponse`, and nothing for
/// any other variant.  Nothing is claimed of the result.
#[verifier::external_body]
fn response_code(error: &CommandError) -> (code: Option<u64>) {
    match error {
        CommandError::ErrorResponse { error, .. } => Some(error.code),
        _ => None,
    }
}

/// Whether `inner` is what the protocol error `error` holds inside: its
/// I/O error, or nothing where it is no I/O error.  Nothing is known of
/// this but what a look into the error has shown.
pub closed spec fn io_inside(error: MpdProtocolError, inner: Option<&std::io::Error>) -> bool {
    call_ensures(protocol_io, (&error,), inner)
}

/// Whether `code` is what the command error `error` holds inside: the code
/// of the server's response, or nothing where the command failed without
/// one.  Nothing is known of this but what a look into the error has
/// shown.
pub closed spec fn code_inside(error: CommandError, code: Option<u64>) -> bool {
    call_ensures(response_code, (&error,), code)
}

/// Whether `kind` is the kind that `std::io::Error::kind` gives for
/// `error`.
pub open spec fn kind_of(error: std::io::Error, kind: std::io::ErrorKind) -> bool {
    call_ensures(std::io::Error::kind, (&error,), kind)
}

impl Clone for Error {
    fn clone(&self) -> (r: Error)
        ensures
            r == *self,
    {
        match self {
            Error::Io(kind) => Error::Io(kind.clone()),
            Error::Mpd(msg) => Error::Mpd(msg.clone()),
            Error::MpdErrorResponse(code) => Error::MpdErrorResponse(*code),
            Error::InvalidQueue => Error::InvalidQueue,
            Error::SendError(failure) => Error::SendError(failure.clone()),
            Error::Disconnect => Error::Disconnect,
        }
    }
}

impl Error {
    /// The error for a failed command: the server's error code where it
    /// sent one, else the description `text`.
    pub fn of_command(code: Option<u64>, text: String) -> (r: Error)
        ensures
            r == (match code {
                Some(c) => Error::MpdErrorResponse(c),
                None => Error::Mpd(text),
            }),
    {
        match code {
            Some(c) => Error::MpdErrorResponse(c),
            None => Error::Mpd(text),
        }
    }

    /// The error for a protocol failure: the kind of the I/O error where
    /// there is one, else the description `text`.
    pub fn of_protocol(kind: Option<io::ErrorKind>, text: String) -> (r: Error)
        ensures
            r == (match kind {
                Some(k) => Error::Io(k),
                None => Error::Mpd(text),
            }),
    {
        match kind {
            Some(k) => Error::Io(k),
            None => Error::Mpd(text),
        }
    }

    /// An I/O error is kept by its kind: the result is `Io` of what
    /// `std::io::Error::kind` gives for `error`.
    pub fn from_io(error: io::Error) -> (r: Error)
        ensures
            r matches Error::Io(kind) && kind_of(error, kind),
    {
        Error::Io(error.kind())
    }

    /// A protocol error that holds an I/O error inside is kept by the kind
    /// of that I/O error; any other is kept by its description, which is
    /// what the protocol error displays as.
    pub fn from_protocol(error: MpdProtocolError) -> (r: Error)
        ensures
            exists|inner: Option<&std::io::Error>| #[trigger]
                io_inside(error, inner) && match inner {
                    Some(e) => r matches Error::Io(kind) && kind_of(*e, kind),
                    None => r matches Error::Mpd(text) && to_string_from_display_ensures::<
                        MpdProtocolError,
                    >(&error, text),
                },
    {
        let inner = protocol_io(&error);
        let kind = match inner {
            Some(e) => Some(e.kind()),
            None => None,
        };
        let r = Error::of_protocol(kind, error.to_string());
        assert(io_inside(error, inner));
        r
    }

    /// A command that the server answered with an error is kept by the
    /// code that the command error holds inside; any other failure by its
    /// description, which is what the command error displays as.
    pub fn from_command(error: CommandError) -> (r: Error)
        ensures
            exists|code: Option<u64>| #[trigger]
                code_inside(error, code) && match code {
                    Some(c) => r == Error::MpdErrorResponse(c),
                    None => r matches Error::Mpd(text) && to_string_from_display_ensures::<
                        CommandError,
                    >(&error, text),
                },
    {
        let code = response_code(&error);
        let r = Error::of_command(code, error.to_string());
        assert(code_inside(error, code));
        r
    }

    /// A failed connection is kept by its description, which is what the
    /// connection error displays as.
    pub fn from_connection(error: ConnectionError) -> (r: Error)
        ensures
            r matches Error::Mpd(text) && to_string_from_display_ensures::<ConnectionError>(
                &error,
                text,
            ),
    {
        Error::Mpd(error.to_string())
    }

    /// A failed send is kept as it is.
    pub fn from_send(error: SendError) -> (r: Error)
        ensures
            r == Error::SendError(error),
    {
        Error::SendError(error)
    }

    /// Whether this is the server's answer for a file it does not have.
    pub fn is_no_such_file(&self) -> (r: bool)
        ensures
            r == (*self == Error::MpdErrorResponse(NO_SUCH_FILE)),
    {
        match self {
            Error::MpdErrorResponse(code) => *code == NO_SUCH_FILE,
            _ => false,
        }
    }

    /// The error in words.  An I/O error kind and a send error are put in
    /// the words they display as.
    pub fn message(&self) -> (r: String)
        ensures
            match *self {
                Error::Io(kind) => exists|text: String|
                    r@ == "io error: "@ + text@ && #[trigger] to_string_from_display_ensures::<
                        std::io::ErrorKind,
                    >(&kind, text),
                Error::Mpd(msg) => r@ == "mpd error: "@ + msg@,
                Error::MpdErrorResponse(code) => r@ == "mpd returned error code "@ + decimal(
                    code as nat,
                ),
                Error::InvalidQueue => r@ == "queue error in mpd"@,
                Error::SendError(failure) => exists|text: String|
                    r@ == "send to channel: "@ + text@
                        && #[trigger] to_string_from_display_ensures::<SendError>(&failure, text),
                Error::Disconnect => r@ == "connection to mpd was disconnected"@,
            },
    {
        match self {
            Error::Io(kind) => {
                let mut out = String::from_str("io error: ");
                let text = kind.to_string();
                out.append(text.as_str());
                out
            },
            Error::Mpd(msg) => {
                let mut out = String::from_str("mpd error: ");
                out.append(msg.as_str());
                out
            },
            Error::MpdErrorResponse(code) => {
                let mut out = String::from_str("mpd returned error code ");
                push_decimal(&mut out, *code as u128);
                out
            },
            Error::InvalidQueue => String::from_str("queue error in mpd"),
            Error::SendError(failure) => {
                let mut out = String::from_str("send to channel: ");
                let text = failure.to_string();
                out.append(text.as_str());
                out
            },
            Error::Disconnect => String::from_str("connection to mpd was disconnected"),
        }
    }
}

} // verus!

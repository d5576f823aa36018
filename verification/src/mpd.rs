//! The commands the client sends and the notifications it receives.

use std::time::Duration;
use mpd_client::client::ConnectionError;
use vstd::prelude::*;
use vstd::string::to_string_from_display_ensures;
use crate::error::Error;

verus! {

/// A command for the player.
#[derive(Debug, Clone, Copy, PartialEq, Eq)]
pub enum Cmd {
    Play,
    Pause,
    Prev,
    Next,
    SetVolume(u8),
    SetRandom(bool),
    SetRepeat(bool),
    SetConsume(bool),
    SkipForward(Duration),
    SkipBackward(Duration),
    Seek(Duration),
}

/// How a command ended: the command, and what the server objected, if
/// anything.
#[derive(Clone, Debug, PartialEq, Eq)]
pub struct CmdResult {
    pub cmd: Cmd,
    pub error: Option<String>,
}

/// The part of the server's state that a notification says has changed.
#[derive(Clone, Copy, Debug, PartialEq, Eq)]
pub enum Subsystem {
    Player,
    Queue,
    Mixer,
    Options,
    /// Any part that the client does not follow.
    Other,
}

/// What the connection to the server reports.
#[derive(Clone, Copy, Debug, PartialEq, Eq)]
pub enum MpdEvent {
    /// The connection stands and commands can be sent.
    Connected,
    /// The server's state has changed in the given part.
    Change(Subsystem),
}

/// One item of the server's stream of notifications.
#[derive(Debug)]
pub enum Notice {
    /// The server's state has changed in the given part.
    SubsystemChange(Subsystem),
    /// The connection was closed because of an error.
    ConnectionClosed(ConnectionError),
}

/// Where the server listens.
pub const TARGET: &'static str = "localhost:6600";

/// The largest piece of binary data, in bytes, that the server is asked to
/// send at once.  A large limit makes for fewer round trips per cover.
pub const BINARY_LIMIT: usize = 655360;

impl MpdEvent {
    /// What to report for the next item of the stream of notifications,
    /// `None` being its end: a change is passed on; a connection closed on
    /// an error fails with that error, kept by what it displays as; and
    /// the end of the stream means that the server has disconnected, which
    /// is an error too.
    pub fn from_notice(item: Option<Notice>) -> (r: Result<MpdEvent, Error>)
        ensures
            match item {
                Some(Notice::SubsystemChange(sub)) => r == Ok::<MpdEvent, Error>(
                    MpdEvent::Change(sub),
                ),
                Some(Notice::ConnectionClosed(error)) => r matches Err(Error::Mpd(text))
                    && to_string_from_display_ensures::<ConnectionError>(&error, text),
                None => r == Err::<MpdEvent, Error>(Error::Disconnect),
            },
    {
        match item {
            Some(Notice::SubsystemChange(sub)) => Ok(MpdEvent::Change(sub)),
            Some(Notice::ConnectionClosed(error)) => Err(Error::from_connection(error)),
            None => Err(Error::Disconnect),
        }
    }
}

} // verus!

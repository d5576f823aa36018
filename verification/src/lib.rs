//! State reconciliation for a music player daemon client.
//!
//! The crate keeps a local picture of a remote player (its queue, its
//! playback status and the cover art of the songs that matter right now) and
//! decides, for every message that arrives, how the picture changes and what
//! has to be asked of the server next.  Nothing in here performs I/O: each
//! decision is returned as a [`connected::Request`] for the caller to carry
//! out, and the outcome comes back as the next message.
//!
//! * [`queue`] is the queue cache, [`player`] the status projection.
//! * [`connected`] holds the reconciler of a standing connection and the
//!   rule that picks the next cover art to fetch.
//! * [`app`] is the client as a whole: unconnected, connected, or stopped
//!   on an error.  It numbers its connections, and drops whatever comes
//!   from a connection other than the present one.
//! * [`listen`] is a plain listener that follows the current song only.
//! * [`error`], [`mpd`], [`song_info`], [`progress`] and [`text`] hold the
//!   values that the others work on.
//!
//! Every function states what it returns or changes over the mathematical
//! view of its arguments, and the laws that relate several functions are
//! proved next to them.

pub mod text;
pub mod error;
pub mod mpd;
pub mod song_info;
pub mod queue;
pub mod progress;
pub mod player;
pub mod connected;
pub mod app;
pub mod listen;

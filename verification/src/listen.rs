//! A plain listener, for a client that follows nothing but the song that
//! plays: it keeps the queue as the server listed it and looks the
//! current song up in it.

use vstd::prelude::*;
use crate::error::{Error, NO_SUCH_FILE};
use crate::mpd::Subsystem;
use crate::player::{Status, id_of};
use crate::queue::{entries_of, lists};
use crate::song_info::{QueueEntry, QueueEntryView, SongId, SongInfo, SongInfoView, bytes_of, queued_info};

verus! {

/// What the listener tells its user.
#[derive(Debug, Clone, PartialEq, Eq)]
pub enum MpdMsg {
    /// The connection stands.
    Connected,
    /// Another song plays now, or none.
    Song(Option<SongInfo>),
}

/// What the listener does about a notification.
#[derive(Clone, Copy, Debug, PartialEq, Eq)]
pub enum ListenStep {
    /// Load the queue anew.
    ReloadQueue,
    /// Find out which song plays, and tell the user.
    SongInfo,
    /// Nothing.
    Idle,
}

/// What a notification asks of the listener: a changed queue is loaded
/// anew, a change of song is reported, anything else is passed over.
pub open spec fn step_for(subsystem: Subsystem) -> ListenStep {
    match subsystem {
        Subsystem::Queue => ListenStep::ReloadQueue,
        Subsystem::Player => ListenStep::SongInfo,
        _ => ListenStep::Idle,
    }
}

/// Whether `i` is the place of the first entry with the id `id`.
pub open spec fn is_first(entries: Seq<QueueEntryView>, id: u64, i: int) -> bool {
    &&& 0 <= i < entries.len()
    &&& entries[i].id == id
    &&& forall|j: int| 0 <= j < i ==> (#[trigger] entries[j]).id != id
}

/// What is shown of a listed song once the fetch of its cover art has
/// come back: the tags of the entry, and the cover art if the song has
/// any.
pub open spec fn shown_info(e: QueueEntryView, art: Option<Seq<u8>>) -> SongInfoView {
    SongInfoView { coverart: art, missing_cover: false, ..queued_info(e) }
}

/// The listener's copy of the queue.
pub struct MpdListen {
    queue: Vec<QueueEntry>,
}

impl View for MpdListen {
    type V = Seq<QueueEntryView>;

    closed spec fn view(&self) -> Seq<QueueEntryView> {
        entries_of(self.queue@)
    }
}

impl MpdListen {
    /// A listener that starts from the given queue.
    pub fn new(queue: Vec<QueueEntry>) -> (r: MpdListen)
        ensures
            r@ == entries_of(queue@),
    {
        MpdListen { queue }
    }

    /// Replaces the copy of the queue by a freshly loaded one.
    pub fn reload(&mut self, queue: Vec<QueueEntry>)
        ensures
            final(self)@ == entries_of(queue@),
    {
        self.queue = queue;
    }

    /// What to do about a notification.
    pub fn subsystem_change(&self, subsystem: Subsystem) -> (r: ListenStep)
        ensures
            r == step_for(subsystem),
    {
        match subsystem {
            Subsystem::Queue => ListenStep::ReloadQueue,
            Subsystem::Player => ListenStep::SongInfo,
            _ => ListenStep::Idle,
        }
    }

    /// The first entry of the queue with the id `id`.
    pub fn find(&self, id: SongId) -> (r: Option<&QueueEntry>)
        ensures
            match r {
                Some(entry) => exists|i: int| is_first(self@, id.0, i) && self@[i] == entry@,
                None => !lists(self@, id.0),
            },
    {
        let mut i: usize = 0;
        while i < self.queue.len()
            invariant
                i <= self.queue.len(),
                forall|j: int| 0 <= j < i ==> (#[trigger] self@[j]).id != id.0,
            decreases self.queue.len() - i,
        {
            if self.queue[i].id.0 == id.0 {
                assert(is_first(self@, id.0, i as int));
                return Some(&self.queue[i]);
            }
            i += 1;
        }
        None
    }

    /// The entry of the song that plays according to `status`: none if no
    /// song plays, and an error if the queue does not list the song.
    pub fn get_song_info(&self, status: &Status) -> (r: Result<Option<&QueueEntry>, Error>)
        ensures
            match id_of(status.current_song) {
                None => r == Ok::<Option<&QueueEntry>, Error>(None),
                Some(id) => if lists(self@, id) {
                    r matches Ok(Some(entry)) && exists|i: int|
                        is_first(self@, id, i) && self@[i] == entry@
                } else {
                    r == Err::<Option<&QueueEntry>, Error>(Error::InvalidQueue)
                },
            },
    {
        match status.current_song {
            Some(id) => match self.find(id) {
                Some(entry) => Ok(Some(entry)),
                None => Err(Error::InvalidQueue),
            },
            None => Ok(None),
        }
    }

    /// What is shown of `entry` once the fetch of its cover art has come
    /// back.  That the server does not have the file means that the song
    /// has no cover art; any other error of the fetch is passed on, and
    /// ends the connection.
    pub fn song_info(entry: &QueueEntry, art: Result<Option<Vec<u8>>, Error>) -> (r: Result<
        SongInfo,
        Error,
    >)
        ensures
            match art {
                Ok(data) => r matches Ok(info) && info@ == shown_info(entry@, bytes_of(data)),
                Err(error) => if error == Error::MpdErrorResponse(NO_SUCH_FILE) {
                    r matches Ok(info) && info@ == shown_info(entry@, None)
                } else {
                    r == Err::<SongInfo, Error>(error)
                },
            },
    {
        let data = match art {
            Ok(data) => data,
            Err(error) => if error.is_no_such_file() {
                None
            } else {
                return Err(error);
            },
        };
        let mut info = SongInfo::queued(entry);
        info.update_coverart(data);
        Ok(info)
    }
}

} // verus!

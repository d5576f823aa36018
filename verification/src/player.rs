//! The status projection: what the client shows of the player.

use vstd::prelude::*;
use crate::progress::{Progress, ProgressView, capped, timing_text};
use crate::song_info::{SongId, SongInfo, SongInfoView, info_of};

verus! {

/// What the player is doing.
#[derive(Clone, Copy, Debug, PartialEq, Eq)]
pub enum PlayState {
    Stopped,
    Playing,
    Paused,
}

/// One answer of the server to a status query.  Times are in
/// milliseconds.
#[derive(Clone, Copy, Debug, PartialEq, Eq)]
pub struct Status {
    pub volume: u8,
    pub state: PlayState,
    pub repeat: bool,
    pub random: bool,
    pub consume: bool,
    pub current_song: Option<SongId>,
    pub next_song: Option<SongId>,
    pub elapsed: Option<u64>,
    pub duration: Option<u64>,
}

/// The loudest volume there is.
pub const FULL_VOLUME: u8 = 100;

/// The progress that a status gives: known where the status tells both
/// how far the song is and how long it is, and running where it plays.
pub open spec fn progress_of(status: Status) -> Option<ProgressView> {
    match (status.elapsed, status.duration) {
        (Some(e), Some(d)) => Some(
            ProgressView {
                elapsed: e as nat,
                duration: d as nat,
                running: status.state == PlayState::Playing,
            },
        ),
        _ => None,
    }
}

/// The view of an optional progress.
pub open spec fn progress_view(p: Option<Progress>) -> Option<ProgressView> {
    match p {
        Some(p) => Some(p@),
        None => None,
    }
}

/// The id of an optional song id.
pub open spec fn id_of(id: Option<SongId>) -> Option<u64> {
    match id {
        Some(i) => Some(i.0),
        None => None,
    }
}

/// The projection after the user has asked for the position `elapsed`.
/// Where no status is known, or the status tells no position, there is
/// no position to move, and the projection stays as it is.
pub open spec fn sought(player: PlayerView, elapsed: u64) -> PlayerView {
    match player.status {
        None => player,
        Some(status) => if status.elapsed is None {
            player
        } else {
            let moved = Status { elapsed: Some(elapsed), ..status };
            PlayerView { status: Some(moved), progress: progress_of(moved), ..player }
        },
    }
}

/// The client's picture of the player: the last status, the song that
/// plays, its progress, and what the user wants to see of them.
pub struct Player {
    song_info: Option<SongInfo>,
    progress: Option<Progress>,
    status: Option<Status>,
    show_song_info: bool,
    show_coverart: bool,
    show_progress: bool,
    show_options: bool,
}

/// Mathematical content of a [`Player`].
pub struct PlayerView {
    pub song_info: Option<SongInfoView>,
    pub progress: Option<ProgressView>,
    pub status: Option<Status>,
    pub show_song_info: bool,
    pub show_coverart: bool,
    pub show_progress: bool,
    pub show_options: bool,
}

impl PlayerView {
    /// The projection before the first status: nothing known, everything
    /// shown.
    pub open spec fn initial() -> PlayerView {
        PlayerView {
            song_info: None,
            progress: None,
            status: None,
            show_song_info: true,
            show_coverart: true,
            show_progress: true,
            show_options: true,
        }
    }

    /// The id of the song that plays.
    pub open spec fn current_id(self) -> Option<u64> {
        match self.status {
            Some(s) => id_of(s.current_song),
            None => None,
        }
    }

    /// The id of the song that plays next.
    pub open spec fn next_id(self) -> Option<u64> {
        match self.status {
            Some(s) => id_of(s.next_song),
            None => None,
        }
    }

    /// Whether a song plays.
    pub open spec fn is_playing(self) -> bool {
        self.status matches Some(s) && s.state == PlayState::Playing
    }

    /// The volume shown: that of the status, at most [`FULL_VOLUME`], and
    /// zero before the first status.
    pub open spec fn volume(self) -> u8 {
        match self.status {
            Some(s) => if s.volume <= FULL_VOLUME {
                s.volume
            } else {
                FULL_VOLUME
            },
            None => 0,
        }
    }

    /// The projection once `status` has arrived: the status replaces the
    /// old one whole, and the progress follows from it.
    pub open spec fn with_status(self, status: Status) -> PlayerView {
        PlayerView { status: Some(status), progress: progress_of(status), ..self }
    }

    /// The projection once the user has set the volume.  Before the first
    /// status there is nothing to set it in.
    pub open spec fn with_volume(self, volume: u8) -> PlayerView {
        match self.status {
            Some(s) => PlayerView { status: Some(Status { volume, ..s }), ..self },
            None => self,
        }
    }
}

impl View for Player {
    type V = PlayerView;

    closed spec fn view(&self) -> PlayerView {
        PlayerView {
            song_info: info_of(self.song_info),
            progress: progress_view(self.progress),
            status: self.status,
            show_song_info: self.show_song_info,
            show_coverart: self.show_coverart,
            show_progress: self.show_progress,
            show_options: self.show_options,
        }
    }
}

/// The progress that `status` gives, running from now where a song plays.
fn progress_for(status: &Status) -> (r: Option<Progress>)
    ensures
        progress_view(r) == progress_of(*status),
{
    let playing = match status.state {
        PlayState::Playing => true,
        _ => false,
    };
    match (status.elapsed, status.duration) {
        (Some(e), Some(d)) => Some(Progress::new(e, d, playing)),
        _ => None,
    }
}

impl Player {
    /// The projection before the first status.
    pub fn new() -> (r: Player)
        ensures
            r@ == PlayerView::initial(),
    {
        Player {
            song_info: None,
            progress: None,
            status: None,
            show_song_info: true,
            show_coverart: true,
            show_progress: true,
            show_options: true,
        }
    }

    /// Shows `info` as the song that plays.
    pub fn set_song_info(&mut self, info: SongInfo)
        ensures
            final(self)@ == (PlayerView { song_info: Some(info@), ..old(self)@ }),
    {
        self.song_info = Some(info);
    }

    /// Shows that no song plays.
    pub fn clear_song_info(&mut self)
        ensures
            final(self)@ == (PlayerView { song_info: None, ..old(self)@ }),
    {
        self.song_info = None;
    }

    /// Takes over a status from the server, whole.
    pub fn update_status(&mut self, status: Status)
        ensures
            final(self)@ == old(self)@.with_status(status),
    {
        self.progress = progress_for(&status);
        self.status = Some(status);
    }

    /// Moves the position shown to `elapsed` milliseconds, ahead of the
    /// server's next status.
    pub fn set_elapsed(&mut self, elapsed: u64)
        ensures
            final(self)@ == sought(old(self)@, elapsed),
    {
        let Some(status) = self.status else {
            return ;
        };
        if status.elapsed.is_none() {
            return ;
        }
        let moved = Status { elapsed: Some(elapsed), ..status };
        self.progress = progress_for(&moved);
        self.status = Some(moved);
    }

    /// Whether a song plays.
    pub fn is_playing(&self) -> (r: bool)
        ensures
            r == self@.is_playing(),
    {
        match &self.status {
            Some(status) => match status.state {
                PlayState::Playing => true,
                _ => false,
            },
            None => false,
        }
    }

    /// The volume to show, from 0 to [`FULL_VOLUME`].
    pub fn get_volume(&self) -> (r: u8)
        ensures
            r == self@.volume(),
            r <= FULL_VOLUME,
    {
        match &self.status {
            Some(status) => if status.volume <= FULL_VOLUME {
                status.volume
            } else {
                FULL_VOLUME
            },
            None => 0,
        }
    }

    /// Which of the five volume symbols to show: the first for silence,
    /// then one for each quarter of the scale begun.
    pub fn volume_step(&self) -> (r: usize)
        ensures
            r == (self@.volume() + 24) / 25,
            r <= 4,
    {
        let volume = self.get_volume();
        ((volume + 24) / 25) as usize
    }

    /// Shows `volume` at once, ahead of the server's next status, which
    /// then overwrites it.
    pub fn set_volume(&mut self, volume: u8)
        ensures
            final(self)@ == old(self)@.with_volume(volume),
    {
        if let Some(status) = self.status {
            self.status = Some(Status { volume, ..status });
        }
    }

    /// The id of the song that plays.
    pub fn get_current_id(&self) -> (r: Option<SongId>)
        ensures
            id_of(r) == self@.current_id(),
    {
        match &self.status {
            Some(status) => status.current_song,
            None => None,
        }
    }

    /// The id of the song that plays next.
    pub fn get_next_id(&self) -> (r: Option<SongId>)
        ensures
            id_of(r) == self@.next_id(),
    {
        match &self.status {
            Some(status) => status.next_song,
            None => None,
        }
    }

    /// Whether songs are picked at random, once a status is known.
    pub fn get_random(&self) -> (r: Option<bool>)
        ensures
            r == (match self@.status {
                Some(s) => Some(s.random),
                None => None,
            }),
    {
        match &self.status {
            Some(status) => Some(status.random),
            None => None,
        }
    }

    /// Whether the queue repeats, once a status is known.
    pub fn get_loop(&self) -> (r: Option<bool>)
        ensures
            r == (match self@.status {
                Some(s) => Some(s.repeat),
                None => None,
            }),
    {
        match &self.status {
            Some(status) => Some(status.repeat),
            None => None,
        }
    }

    /// Whether played songs leave the queue, once a status is known.
    pub fn get_consume(&self) -> (r: Option<bool>)
        ensures
            r == (match self@.status {
                Some(s) => Some(s.consume),
                None => None,
            }),
    {
        match &self.status {
            Some(status) => Some(status.consume),
            None => None,
        }
    }

    /// Shows or hides the song's tags.
    pub fn toggle_show_song_info(&mut self)
        ensures
            final(self)@ == (PlayerView {
                show_song_info: !old(self)@.show_song_info,
                ..old(self)@
            }),
    {
        self.show_song_info = !self.show_song_info;
    }

    /// Shows or hides the cover art.
    pub fn toggle_show_coverart(&mut self)
        ensures
            final(self)@ == (PlayerView {
                show_coverart: !old(self)@.show_coverart,
                ..old(self)@
            }),
    {
        self.show_coverart = !self.show_coverart;
    }

    /// Shows or hides the progress bar.
    pub fn toggle_show_progress(&mut self)
        ensures
            final(self)@ == (PlayerView {
                show_progress: !old(self)@.show_progress,
                ..old(self)@
            }),
    {
        self.show_progress = !self.show_progress;
    }

    /// Shows or hides the option switches.
    pub fn toggle_show_options(&mut self)
        ensures
            final(self)@ == (PlayerView {
                show_options: !old(self)@.show_options,
                ..old(self)@
            }),
    {
        self.show_options = !self.show_options;
    }

    /// The title of the song that plays.
    pub fn get_song_title(&self) -> (r: Option<&str>)
        ensures
            match r {
                Some(t) => self@.song_info matches Some(info) && t@ == info.title,
                None => self@.song_info is None,
            },
    {
        match &self.song_info {
            Some(info) => Some(info.title.as_str()),
            None => None,
        }
    }

    /// The song that plays, as shown.
    pub fn song_info(&self) -> (r: Option<&SongInfo>)
        ensures
            match r {
                Some(info) => self@.song_info == Some(info@),
                None => self@.song_info is None,
            },
    {
        self.song_info.as_ref()
    }

    /// The progress of the song that plays.
    pub fn progress(&self) -> (r: Option<&Progress>)
        ensures
            match r {
                Some(p) => self@.progress == Some(p@),
                None => self@.progress is None,
            },
    {
        self.progress.as_ref()
    }

    /// Whether `ms` is a measure of the time gone by since the status of a
    /// song that plays was taken.
    pub closed spec fn clocked(&self, ms: u128) -> bool {
        self.progress matches Some(p) && p.clocked(ms)
    }

    /// The progress display, `m:ss / m:ss`, or nothing where the status
    /// does not tell the progress.  While a song plays, the position shown
    /// is that of the status moved on by the time gone by since.
    pub fn timing(&self) -> (r: String)
        ensures
            match self@.progress {
                Some(p) => {
                    &&& !p.running ==> r@ == timing_text(p.elapsed, p.duration)
                    &&& p.running ==> exists|ms: u128| #[trigger]
                        self.clocked(ms) && r@ == timing_text(
                            p.elapsed + capped(ms) as nat,
                            p.duration,
                        )
                    &&& exists|position: nat|
                        position >= p.elapsed && r@ == #[trigger] timing_text(position, p.duration)
                },
                None => r@ == Seq::<char>::empty(),
            },
    {
        match &self.progress {
            Some(p) => {
                let r = p.timing();
                proof {
                    let position = choose|position: nat|
                        position >= p@.elapsed && r@ == #[trigger] timing_text(
                            position,
                            p@.duration,
                        );
                    assert(r@ == timing_text(position, self@.progress->0.duration));
                    if p@.running {
                        let ms = choose|ms: u128| #[trigger]
                            p.clocked(ms) && r@ == timing_text(
                                p@.elapsed + capped(ms) as nat,
                                p@.duration,
                            );
                        assert(self.clocked(ms));
                    }
                }
                r
            },
            None => String::new(),
        }
    }

    /// The last status taken over.
    pub fn status(&self) -> (r: Option<Status>)
        ensures
            r == self@.status,
    {
        self.status
    }

    /// Whether the song's tags are shown.
    pub fn shows_song_info(&self) -> (r: bool)
        ensures
            r == self@.show_song_info,
    {
        self.show_song_info
    }

    /// Whether the cover art is shown.
    pub fn shows_coverart(&self) -> (r: bool)
        ensures
            r == self@.show_coverart,
    {
        self.show_coverart
    }

    /// Whether the progress bar is shown.
    pub fn shows_progress(&self) -> (r: bool)
        ensures
            r == self@.show_progress,
    {
        self.show_progress
    }

    /// Whether the option switches are shown.
    pub fn shows_options(&self) -> (r: bool)
        ensures
            r == self@.show_options,
    {
        self.show_options
    }
}

} // verus!

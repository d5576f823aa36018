//! The reconciler of a standing connection: for each message that
//! arrives, how the caches change and what to ask of the server next.

use vstd::prelude::*;
use crate::error::{Error, NO_SUCH_FILE};
use crate::mpd::{Cmd, CmdResult, Subsystem};
use crate::player::{FULL_VOLUME, Player, PlayerView, Status, id_of};
use crate::queue::{Queue, applied, cache_of, entries_of, lemma_fresh_cache, lists};
use crate::song_info::{QueueEntry, QueueEntryView, SongId, SongInfoView, bytes_of};

verus! {

/// A switch that the user can flip.
#[derive(Debug, Clone, Copy, PartialEq, Eq)]
pub enum Toggle {
    ShowOptions,
    ShowSongInfo,
    ShowCoverArt,
    ShowProgress,
    Play,
    Random,
    Loop,
    Consume,
}

/// A message for the reconciler of a standing connection.
#[derive(Debug, Clone, PartialEq, Eq)]
pub enum ConMsg {
    /// The server's state has changed in the given part.
    Change(Subsystem),
    /// The user has issued a command.
    Cmd(Cmd),
    /// A command has come back.
    CmdResult(CmdResult),
    /// It is time to draw again.
    Redraw,
    /// The user has flipped a switch.
    Toggle(Toggle),
    /// A status asked for after a change of song or queue has arrived.
    UpdateSongInfo(Status),
    /// A freshly loaded queue has arrived.
    UpdateQueue(Vec<QueueEntry>),
    /// A status asked for after a change of volume or options has arrived.
    UpdateStatus(Status),
    /// A cover art fetch for the given song has come back, with the image
    /// or with the news that there is none.
    UpdateCoverArt(SongId, Option<Vec<u8>>),
}

/// Mathematical content of a [`ConMsg`].
pub enum ConMsgView {
    Change(Subsystem),
    Cmd(Cmd),
    CmdResult(CmdResult),
    Redraw,
    Toggle(Toggle),
    UpdateSongInfo(Status),
    UpdateQueue(Seq<QueueEntryView>),
    UpdateStatus(Status),
    UpdateCoverArt(u64, Option<Seq<u8>>),
}

impl View for ConMsg {
    type V = ConMsgView;

    open spec fn view(&self) -> ConMsgView {
        match *self {
            ConMsg::Change(sub) => ConMsgView::Change(sub),
            ConMsg::Cmd(cmd) => ConMsgView::Cmd(cmd),
            ConMsg::CmdResult(res) => ConMsgView::CmdResult(res),
            ConMsg::Redraw => ConMsgView::Redraw,
            ConMsg::Toggle(t) => ConMsgView::Toggle(t),
            ConMsg::UpdateSongInfo(status) => ConMsgView::UpdateSongInfo(status),
            ConMsg::UpdateQueue(queue) => ConMsgView::UpdateQueue(entries_of(queue@)),
            ConMsg::UpdateStatus(status) => ConMsgView::UpdateStatus(status),
            ConMsg::UpdateCoverArt(id, art) => ConMsgView::UpdateCoverArt(id.0, bytes_of(art)),
        }
    }
}

/// The view of what a request has come to: a message for the reconciler,
/// or the error that ends the connection.
pub open spec fn outcome_of(r: Result<ConMsg, Error>) -> Result<ConMsgView, Error> {
    match r {
        Ok(msg) => Ok(msg@),
        Err(error) => Err(error),
    }
}

impl ConMsg {
    /// What a [`Request::Queue`] has come to.
    pub fn queue_loaded(result: Result<Vec<QueueEntry>, Error>) -> (r: Result<ConMsg, Error>)
        ensures
            outcome_of(r) == (match result {
                Ok(queue) => Ok(ConMsgView::UpdateQueue(entries_of(queue@))),
                Err(error) => Err(error),
            }),
    {
        match result {
            Ok(queue) => Ok(ConMsg::UpdateQueue(queue)),
            Err(error) => Err(error),
        }
    }

    /// What a [`Request::SongInfo`] has come to.
    pub fn song_info_loaded(result: Result<Status, Error>) -> (r: Result<ConMsg, Error>)
        ensures
            outcome_of(r) == (match result {
                Ok(status) => Ok(ConMsgView::UpdateSongInfo(status)),
                Err(error) => Err(error),
            }),
    {
        match result {
            Ok(status) => Ok(ConMsg::UpdateSongInfo(status)),
            Err(error) => Err(error),
        }
    }

    /// What a [`Request::Status`] has come to.
    pub fn status_loaded(result: Result<Status, Error>) -> (r: Result<ConMsg, Error>)
        ensures
            outcome_of(r) == (match result {
                Ok(status) => Ok(ConMsgView::UpdateStatus(status)),
                Err(error) => Err(error),
            }),
    {
        match result {
            Ok(status) => Ok(ConMsg::UpdateStatus(status)),
            Err(error) => Err(error),
        }
    }

    /// What a [`Request::CoverArt`] for the song `id` has come to.  That
    /// the server does not have the file is no failure: it means that the
    /// song has no cover art.  Any other error ends the connection.
    pub fn cover_art_loaded(id: SongId, result: Result<Option<Vec<u8>>, Error>) -> (r: Result<
        ConMsg,
        Error,
    >)
        ensures
            outcome_of(r) == (match result {
                Ok(art) => Ok(ConMsgView::UpdateCoverArt(id.0, bytes_of(art))),
                Err(error) => if error == Error::MpdErrorResponse(NO_SUCH_FILE) {
                    Ok(ConMsgView::UpdateCoverArt(id.0, None))
                } else {
                    Err(error)
                },
            }),
    {
        match result {
            Ok(art) => Ok(ConMsg::UpdateCoverArt(id, art)),
            Err(error) => if error.is_no_such_file() {
                Ok(ConMsg::UpdateCoverArt(id, None))
            } else {
                Err(error)
            },
        }
    }

    /// What a [`Request::Command`] has come to.  A command that the server
    /// rejected is no failure of the connection.
    pub fn command_done(result: CmdResult) -> (r: Result<ConMsg, Error>)
        ensures
            r == Ok::<ConMsg, Error>(ConMsg::CmdResult(result)),
    {
        Ok(ConMsg::CmdResult(result))
    }
}

/// What the caller has to do after a message has been handled.  The
/// outcome of what it does comes back as a new message.
#[derive(Debug, Clone, PartialEq, Eq)]
pub enum Request {
    /// Nothing.
    Idle,
    /// Open a connection to the server.
    Connect,
    /// Load the queue; the answer is a [`ConMsg::UpdateQueue`].
    Queue,
    /// Ask for the status; the answer is a [`ConMsg::UpdateSongInfo`].
    SongInfo,
    /// Ask for the status; the answer is a [`ConMsg::UpdateStatus`].
    Status,
    /// Fetch the cover art of the given song from the given place; the
    /// answer is a [`ConMsg::UpdateCoverArt`].
    CoverArt(SongId, String),
    /// Send the command; the answer is a [`ConMsg::CmdResult`].
    Command(Cmd),
    /// Give the connection up for the given reason.
    Fail(Error),
    /// End the program.
    Quit,
}

/// Mathematical content of a [`Request`].
pub enum RequestView {
    Idle,
    Connect,
    Queue,
    SongInfo,
    Status,
    CoverArt(u64, Seq<char>),
    Command(Cmd),
    Fail(Error),
    Quit,
}

impl View for Request {
    type V = RequestView;

    open spec fn view(&self) -> RequestView {
        match *self {
            Request::Idle => RequestView::Idle,
            Request::Connect => RequestView::Connect,
            Request::Queue => RequestView::Queue,
            Request::SongInfo => RequestView::SongInfo,
            Request::Status => RequestView::Status,
            Request::CoverArt(id, url) => RequestView::CoverArt(id.0, url@),
            Request::Command(cmd) => RequestView::Command(cmd),
            Request::Fail(error) => RequestView::Fail(error),
            Request::Quit => RequestView::Quit,
        }
    }
}

/// Whether the cache holds `id` and has not yet seen a cover art fetch for
/// it come back.
pub open spec fn wants_cover(queue: Map<u64, SongInfoView>, id: u64) -> bool {
    queue.contains_key(id) && queue[id].missing_cover
}

/// The song whose cover art is to be fetched next: the song that plays, if
/// its cover is still missing; else the song that plays next, if its cover
/// is still missing; else none.
pub open spec fn target(player: PlayerView, queue: Map<u64, SongInfoView>) -> Option<u64> {
    if player.current_id() is Some && wants_cover(queue, player.current_id()->0) {
        player.current_id()
    } else if player.next_id() is Some && wants_cover(queue, player.next_id()->0) {
        player.next_id()
    } else {
        None
    }
}

/// The request for the cover art of `id`: none for a song that the cache
/// does not hold or whose cover is known.
pub open spec fn cover_request(queue: Map<u64, SongInfoView>, id: u64) -> RequestView {
    if wants_cover(queue, id) {
        RequestView::CoverArt(id, queue[id].url)
    } else {
        RequestView::Idle
    }
}

/// The request that follows from the two caches as they are: the fetch of
/// the cover art of the [`target`], if there is one.
pub open spec fn pursuit(player: PlayerView, queue: Map<u64, SongInfoView>) -> RequestView {
    match target(player, queue) {
        Some(id) => cover_request(queue, id),
        None => RequestView::Idle,
    }
}

/// Mathematical content of a [`Connected`]: the two caches.
pub struct ConnectedView {
    pub player: PlayerView,
    pub queue: Map<u64, SongInfoView>,
}

impl ConnectedView {
    /// The state of a connection that has just been made.
    pub open spec fn initial() -> ConnectedView {
        ConnectedView { player: PlayerView::initial(), queue: Map::empty() }
    }

    /// A notification only says where to look: a change of song asks for
    /// the status, a change of queue for the queue, a change of volume or
    /// options for the status; any other is passed over.
    pub open spec fn on_change(self, sub: Subsystem) -> (ConnectedView, RequestView) {
        (
            self,
            match sub {
                Subsystem::Player => RequestView::SongInfo,
                Subsystem::Queue => RequestView::Queue,
                Subsystem::Mixer => RequestView::Status,
                Subsystem::Options => RequestView::Status,
                Subsystem::Other => RequestView::Idle,
            },
        )
    }

    /// A command of the user goes to the server.  A new volume is shown at
    /// once.
    pub open spec fn on_cmd(self, cmd: Cmd) -> (ConnectedView, RequestView) {
        let player = match cmd {
            Cmd::SetVolume(vol) => self.player.with_volume(vol),
            _ => self.player,
        };
        (ConnectedView { player, ..self }, RequestView::Command(cmd))
    }

    /// A flipped switch changes what is shown, or becomes the command that
    /// turns the player's present setting round.  Before the first status
    /// there is no setting to turn round.
    pub open spec fn on_toggle(self, t: Toggle) -> (ConnectedView, RequestView) {
        let p = self.player;
        match t {
            Toggle::ShowOptions => (
                ConnectedView {
                    player: PlayerView { show_options: !p.show_options, ..p },
                    ..self
                },
                RequestView::Idle,
            ),
            Toggle::ShowSongInfo => (
                ConnectedView {
                    player: PlayerView { show_song_info: !p.show_song_info, ..p },
                    ..self
                },
                RequestView::Idle,
            ),
            Toggle::ShowCoverArt => (
                ConnectedView {
                    player: PlayerView { show_coverart: !p.show_coverart, ..p },
                    ..self
                },
                RequestView::Idle,
            ),
            Toggle::ShowProgress => (
                ConnectedView {
                    player: PlayerView { show_progress: !p.show_progress, ..p },
                    ..self
                },
                RequestView::Idle,
            ),
            Toggle::Play => (
                self,
                RequestView::Command(
                    if p.is_playing() {
                        Cmd::Pause
                    } else {
                        Cmd::Play
                    },
                ),
            ),
            Toggle::Random => (
                self,
                match p.status {
                    Some(s) => RequestView::Command(Cmd::SetRandom(!s.random)),
                    None => RequestView::Idle,
                },
            ),
            Toggle::Loop => (
                self,
                match p.status {
                    Some(s) => RequestView::Command(Cmd::SetRepeat(!s.repeat)),
                    None => RequestView::Idle,
                },
            ),
            Toggle::Consume => (
                self,
                match p.status {
                    Some(s) => RequestView::Command(Cmd::SetConsume(!s.consume)),
                    None => RequestView::Idle,
                },
            ),
        }
    }

    /// A freshly loaded queue replaces the cache whole, and the status is
    /// asked for, since the song that plays may be another now.
    pub open spec fn on_queue(self, entries: Seq<QueueEntryView>) -> (ConnectedView, RequestView) {
        (ConnectedView { queue: cache_of(entries), ..self }, RequestView::SongInfo)
    }

    /// A status replaces the old one whole.  If it names a song that
    /// plays, the cache must hold that song: it is then shown, and else
    /// the connection fails on an inconsistent queue.  If no song plays,
    /// none is shown.  Unless the connection fails, the next cover art is
    /// asked for.
    pub open spec fn on_status(self, status: Status) -> (ConnectedView, RequestView) {
        let player = self.player.with_status(status);
        match id_of(status.current_song) {
            Some(id) => if self.queue.contains_key(id) {
                let player = PlayerView { song_info: Some(self.queue[id]), ..player };
                (ConnectedView { player, ..self }, pursuit(player, self.queue))
            } else {
                (ConnectedView { player, ..self }, RequestView::Fail(Error::InvalidQueue))
            },
            None => {
                let player = PlayerView { song_info: None, ..player };
                (ConnectedView { player, ..self }, pursuit(player, self.queue))
            },
        }
    }

    /// The outcome of a cover art fetch goes into the cache, unless the
    /// queue has been reloaded meanwhile and no longer holds the song.  If
    /// the song is the one that plays, it is shown afresh.  Then the next
    /// cover art is asked for.
    pub open spec fn on_cover_art(self, id: u64, art: Option<Seq<u8>>) -> (
        ConnectedView,
        RequestView,
    ) {
        let queue = applied(self.queue, id, art);
        let player = if self.player.current_id() == Some(id) && queue.contains_key(id) {
            PlayerView { song_info: Some(queue[id]), ..self.player }
        } else {
            self.player
        };
        (ConnectedView { player, queue }, pursuit(player, queue))
    }

    /// The state after a list of messages, handled in turn.
    pub open spec fn after(self, msgs: Seq<ConMsgView>) -> ConnectedView
        decreases msgs.len(),
    {
        if msgs.len() == 0 {
            self
        } else {
            self.after(msgs.drop_last()).step(msgs.last()).0
        }
    }

    /// The state after a message, and what to do next.
    pub open spec fn step(self, msg: ConMsgView) -> (ConnectedView, RequestView) {
        match msg {
            ConMsgView::Change(sub) => self.on_change(sub),
            ConMsgView::Cmd(cmd) => self.on_cmd(cmd),
            ConMsgView::CmdResult(_) => (self, RequestView::Idle),
            ConMsgView::Redraw => (self, RequestView::Idle),
            ConMsgView::Toggle(t) => self.on_toggle(t),
            ConMsgView::UpdateSongInfo(status) => self.on_status(status),
            ConMsgView::UpdateQueue(entries) => self.on_queue(entries),
            ConMsgView::UpdateStatus(status) => self.on_status(status),
            ConMsgView::UpdateCoverArt(id, art) => self.on_cover_art(id, art),
        }
    }
}

/// The target is always a song of the cache whose cover is still missing:
/// cover art that is known, be it an image or the knowledge that there is
/// none, is never asked for again.
pub proof fn law_target_wants_cover(player: PlayerView, queue: Map<u64, SongInfoView>)
    ensures
        target(player, queue) matches Some(id) ==> queue.contains_key(id)
            && queue[id].missing_cover,
        pursuit(player, queue) matches RequestView::CoverArt(id, url) ==> target(player, queue)
            == Some(id) && url == queue[id].url,
        pursuit(player, queue) is CoverArt || pursuit(player, queue) is Idle,
        pursuit(player, queue) is Idle <==> target(player, queue) is None,
{
}

/// The target depends on nothing but the two ids of the status and on
/// whether the covers of those two songs are missing.
pub proof fn law_target_reads_two_entries(
    a: ConnectedView,
    b: ConnectedView,
)
    requires
        a.player.current_id() == b.player.current_id(),
        a.player.next_id() == b.player.next_id(),
        a.player.current_id() matches Some(id) ==> wants_cover(a.queue, id) == wants_cover(
            b.queue,
            id,
        ),
        a.player.next_id() matches Some(id) ==> wants_cover(a.queue, id) == wants_cover(
            b.queue,
            id,
        ),
    ensures
        target(a.player, a.queue) == target(b.player, b.queue),
{
}

/// A message that brings no news of the server (a notification, a command
/// or its result, a redraw, a flipped switch) leaves the target as it is.
pub proof fn law_target_steady(s: ConnectedView, msg: ConMsgView)
    requires
        msg is Change || msg is Cmd || msg is CmdResult || msg is Redraw || msg is Toggle,
    ensures
        target(s.step(msg).0.player, s.step(msg).0.queue) == target(s.player, s.queue),
        s.step(msg).0.queue == s.queue,
{
}

/// Once the fetch for the target has come back, that song is never the
/// target again until the queue is reloaded: further fetch outcomes and
/// statuses leave its cover known.
pub proof fn law_fetched_target_is_settled(s: ConnectedView, art: Option<Seq<u8>>, msg: ConMsgView)
    requires
        target(s.player, s.queue) is Some,
        !(msg is UpdateQueue),
    ensures
        ({
            let id = target(s.player, s.queue)->0;
            let fetched = s.on_cover_art(id, art).0;
            let later = fetched.step(msg).0;
            &&& target(fetched.player, fetched.queue) != Some(id)
            &&& target(later.player, later.queue) != Some(id)
        }),
{
}

/// Within one generation of the queue, that is as long as no reloaded
/// queue arrives, a song whose cover is known, or which the cache does not
/// hold, stays so whatever else arrives, and its cover art is never asked
/// for.  So a song's cover art is asked for only until the first outcome
/// of a fetch for it has arrived.
pub proof fn law_settled_cover_is_never_fetched(s: ConnectedView, msgs: Seq<ConMsgView>, id: u64)
    requires
        !wants_cover(s.queue, id),
        forall|k: int| 0 <= k < msgs.len() ==> !((#[trigger] msgs[k]) is UpdateQueue),
    ensures
        !wants_cover(s.after(msgs).queue, id),
        forall|k: int|
            0 <= k < msgs.len() ==> !(s.after(msgs.take(k)).step(#[trigger] msgs[k]).1 matches RequestView::CoverArt(
                fetched,
                _,
            ) && fetched == id),
    decreases msgs.len(),
{
    if msgs.len() > 0 {
        law_settled_cover_is_never_fetched(s, msgs.drop_last(), id);
        assert forall|k: int| 0 <= k < msgs.len() implies !(s.after(msgs.take(k)).step(
            #[trigger] msgs[k],
        ).1 matches RequestView::CoverArt(fetched, _) && fetched == id) by {
            if k < msgs.len() - 1 {
                assert(msgs.drop_last().take(k) =~= msgs.take(k));
                assert(msgs.drop_last()[k] == msgs[k]);
            } else {
                assert(msgs.take(k) =~= msgs.drop_last());
            }
        }
    }
}

/// The chain of fetches that a status sets off ends after two: when the
/// fetch for the target has come back, and then the fetch for the target
/// that followed, nothing is left to fetch.
pub proof fn law_chain_ends_after_two(
    s: ConnectedView,
    first: Option<Seq<u8>>,
    second: Option<Seq<u8>>,
)
    requires
        target(s.player, s.queue) is Some,
    ensures
        ({
            let one = s.on_cover_art(target(s.player, s.queue)->0, first).0;
            target(one.player, one.queue) matches Some(id) ==> {
                let two = one.on_cover_art(id, second).0;
                &&& target(two.player, two.queue) is None
                &&& one.on_cover_art(id, second).1 is Idle
            }
        }),
{
}

/// A cover art fetch that comes back after the queue has been reloaded
/// without its song changes neither cache, and the next request is the
/// one that the caches as they are call for.
pub proof fn law_late_cover_art_is_dropped(s: ConnectedView, id: u64, art: Option<Seq<u8>>)
    requires
        !s.queue.contains_key(id),
    ensures
        s.on_cover_art(id, art) == (s, pursuit(s.player, s.queue)),
{
}

/// The reconciler gives a connection up in one case only: a status names
/// a song that plays and the queue cache does not hold it.
pub proof fn law_only_an_inconsistent_queue_fails(s: ConnectedView, msg: ConMsgView)
    ensures
        s.step(msg).1 is Fail <==> ({
            &&& (msg is UpdateSongInfo || msg is UpdateStatus)
            &&& ({
                let status = if msg is UpdateSongInfo {
                    msg->UpdateSongInfo_0
                } else {
                    msg->UpdateStatus_0
                };
                status.current_song matches Some(id) && !s.queue.contains_key(id.0)
            })
        }),
        s.step(msg).1 is Fail ==> s.step(msg).1 == RequestView::Fail(Error::InvalidQueue),
        !(s.step(msg).1 is Connect) && !(s.step(msg).1 is Quit),
{
}

/// A volume set by the user shows at once, and the next status that
/// arrives overwrites it, whatever it says: the last arrival wins.
pub proof fn law_last_status_wins(s: ConnectedView, volume: u8, status: Status)
    requires
        s.player.status is Some,
    ensures
        ({
            let set = s.on_cmd(Cmd::SetVolume(volume)).0;
            let landed = set.on_status(status).0;
            &&& set.player.status->0.volume == volume
            &&& set.player.volume() == if volume <= FULL_VOLUME {
                volume
            } else {
                FULL_VOLUME
            }
            &&& set.queue == s.queue
            &&& landed.player.status == Some(status)
        }),
{
}

/// After a reload the cache holds the songs of the new queue and no
/// others, none of them with a known cover, and the status is asked for.
pub proof fn law_reload_replaces_cache(s: ConnectedView, entries: Seq<QueueEntryView>)
    ensures
        s.on_queue(entries).1 == RequestView::SongInfo,
        s.on_queue(entries).0.player == s.player,
        forall|id: u64| #[trigger] s.on_queue(entries).0.queue.contains_key(id) <==> lists(entries, id),
        forall|id: u64| #[trigger]
            s.on_queue(entries).0.queue.contains_key(id) ==> wants_cover(
                s.on_queue(entries).0.queue,
                id,
            ),
{
    lemma_fresh_cache(entries);
}

/// The song whose cover art is to be fetched next, by the policy of
/// [`target`].  It is derived afresh from the two caches at each call, so
/// calls between which neither cache changes agree, and it is never a
/// song whose cover is known.
pub fn next_target(player: &Player, queue: &Queue) -> (r: Option<SongId>)
    ensures
        id_of(r) == target(player@, queue@),
        r matches Some(id) ==> queue@.contains_key(id.0) && queue@[id.0].missing_cover,
{
    if let Some(id) = player.get_current_id() {
        if let Some(info) = queue.get(&id) {
            if info.is_cover_missing() {
                return Some(id);
            }
        }
    }
    if let Some(id) = player.get_next_id() {
        if let Some(info) = queue.get(&id) {
            if info.is_cover_missing() {
                return Some(id);
            }
        }
    }
    None
}

/// The reconciler of a standing connection, with the two caches it owns.
pub struct Connected {
    player: Player,
    queue: Queue,
}

impl View for Connected {
    type V = ConnectedView;

    closed spec fn view(&self) -> ConnectedView {
        ConnectedView { player: self.player@, queue: self.queue@ }
    }
}

impl Connected {
    /// The reconciler of a connection that has just been made.
    pub fn new() -> (r: Connected)
        ensures
            r@ == ConnectedView::initial(),
    {
        Connected { player: Player::new(), queue: Queue::new() }
    }

    /// The status projection.
    pub fn player(&self) -> (r: &Player)
        ensures
            r@ == self@.player,
    {
        &self.player
    }

    /// The queue cache.
    pub fn queue(&self) -> (r: &Queue)
        ensures
            r@ == self@.queue,
    {
        &self.queue
    }

    /// Whether a song plays.
    pub fn is_playing(&self) -> (r: bool)
        ensures
            r == self@.player.is_playing(),
    {
        self.player.is_playing()
    }

    /// The title of the song that plays, or `Empty`.
    pub fn title(&self) -> (r: &str)
        ensures
            r@ == (match self@.player.song_info {
                Some(info) => info.title,
                None => "Empty"@,
            }),
    {
        match self.player.get_song_title() {
            Some(title) => title,
            None => "Empty",
        }
    }

    /// Handles one message: brings the caches up to date and says what to
    /// do next.
    pub fn update(&mut self, msg: ConMsg) -> (r: Request)
        ensures
            (final(self)@, r@) == old(self)@.step(msg@),
    {
        match msg {
            ConMsg::Change(sub) => match sub {
                Subsystem::Player => self.request_song_info(),
                Subsystem::Queue => self.request_queue(),
                Subsystem::Mixer => self.request_status(),
                Subsystem::Options => self.request_status(),
                Subsystem::Other => Request::Idle,
            },
            ConMsg::Cmd(cmd) => {
                match cmd {
                    Cmd::SetVolume(vol) => self.player.set_volume(vol),
                    _ => (),
                }
                Request::Command(cmd)
            },
            ConMsg::CmdResult(_) => Request::Idle,
            ConMsg::Redraw => Request::Idle,
            ConMsg::Toggle(t) => self.toggle(t),
            ConMsg::UpdateSongInfo(status) => self.take_status(status),
            ConMsg::UpdateQueue(queue) => {
                self.queue.update(queue);
                self.request_song_info()
            },
            ConMsg::UpdateStatus(status) => self.take_status(status),
            ConMsg::UpdateCoverArt(id, data) => {
                self.queue.update_coverart(id, data);
                let shown = match self.player.get_current_id() {
                    Some(current) => current.0 == id.0,
                    None => false,
                };
                if shown {
                    if let Some(info) = self.queue.get(&id) {
                        self.player.set_song_info(info.clone());
                    }
                }
                self.pursue()
            },
        }
    }

    /// Takes over a status and resolves the song that plays against the
    /// queue cache.
    fn take_status(&mut self, status: Status) -> (r: Request)
        ensures
            (final(self)@, r@) == old(self)@.on_status(status),
    {
        self.player.update_status(status);
        if let Some(id) = self.player.get_current_id() {
            if let Some(info) = self.queue.get(&id) {
                self.player.set_song_info(info.clone());
                self.pursue()
            } else {
                Request::Fail(Error::InvalidQueue)
            }
        } else {
            self.player.clear_song_info();
            self.pursue()
        }
    }

    /// The request that follows from the caches as they are: the fetch of
    /// the next target's cover art, if there is a target.
    pub fn pursue(&self) -> (r: Request)
        ensures
            r@ == pursuit(self@.player, self@.queue),
    {
        match next_target(&self.player, &self.queue) {
            Some(id) => self.request_cover_art(id),
            None => Request::Idle,
        }
    }

    /// The request to load the queue.
    pub fn request_queue(&self) -> (r: Request)
        ensures
            r@ == RequestView::Queue,
    {
        Request::Queue
    }

    /// The request for the status after a change of song or queue.
    pub fn request_song_info(&self) -> (r: Request)
        ensures
            r@ == RequestView::SongInfo,
    {
        Request::SongInfo
    }

    /// The request for the status after a change of volume or options.
    pub fn request_status(&self) -> (r: Request)
        ensures
            r@ == RequestView::Status,
    {
        Request::Status
    }

    /// The request for the cover art of `id`, or none if the queue does
    /// not hold the song or its cover is known.
    pub fn request_cover_art(&self, id: SongId) -> (r: Request)
        ensures
            r@ == cover_request(self@.queue, id.0),
    {
        let Some(info) = self.queue.get(&id) else {
            return Request::Idle;
        };
        if !info.is_cover_missing() {
            return Request::Idle;
        }
        Request::CoverArt(id, info.get_url().to_owned())
    }

    /// Flips a switch.
    pub fn toggle(&mut self, toggle: Toggle) -> (r: Request)
        ensures
            (final(self)@, r@) == old(self)@.on_toggle(toggle),
    {
        match toggle {
            Toggle::ShowOptions => {
                self.player.toggle_show_options();
                Request::Idle
            },
            Toggle::ShowSongInfo => {
                self.player.toggle_show_song_info();
                Request::Idle
            },
            Toggle::ShowCoverArt => {
                self.player.toggle_show_coverart();
                Request::Idle
            },
            Toggle::ShowProgress => {
                self.player.toggle_show_progress();
                Request::Idle
            },
            Toggle::Random => match self.player.get_random() {
                Some(flag) => Request::Command(Cmd::SetRandom(!flag)),
                None => Request::Idle,
            },
            Toggle::Loop => match self.player.get_loop() {
                Some(flag) => Request::Command(Cmd::SetRepeat(!flag)),
                None => Request::Idle,
            },
            Toggle::Consume => match self.player.get_consume() {
                Some(flag) => Request::Command(Cmd::SetConsume(!flag)),
                None => Request::Idle,
            },
            Toggle::Play => {
                if self.player.is_playing() {
                    Request::Command(Cmd::Pause)
                } else {
                    Request::Command(Cmd::Play)
                }
            },
        }
    }
}

} // verus!

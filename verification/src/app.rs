//! The client as a whole: unconnected, connected, or stopped on an error,
//! and the sessions that tell one connection from the next.

use vstd::prelude::*;
use vstd::string::*;
use crate::connected::{
    ConMsg, ConMsgView, Connected, ConnectedView, Request, RequestView, Toggle,
    law_only_an_inconsistent_queue_fails,
};
use crate::player::Status;
use crate::error::Error;
use crate::mpd::{Cmd, MpdEvent};

verus! {

/// The number of a connection.  The client numbers the connections it
/// asks for, and whatever comes from a connection (that it stands, what it
/// reports, the outcome of every request made on it, its failure) names
/// that number, so that what belongs to a connection given up can be told
/// from what belongs to the present one.
#[derive(Debug, Clone, Copy, PartialEq, Eq, PartialOrd, Ord, Hash)]
pub struct Session(pub u64);

/// The number after `n`.  After the largest number the count starts again
/// at zero.
pub open spec fn following(n: u64) -> u64 {
    if n == u64::MAX {
        0
    } else {
        (n + 1) as u64
    }
}

/// The number `k` connections after `n`.
pub open spec fn later(n: u64, k: nat) -> u64
    decreases k,
{
    if k == 0 {
        n
    } else {
        following(later(n, (k - 1) as nat))
    }
}

impl Session {
    /// The session of the next connection.
    pub fn next(self) -> (r: Session)
        ensures
            r.0 == following(self.0),
            r.0 != self.0,
    {
        if self.0 == u64::MAX {
            Session(0)
        } else {
            Session(self.0 + 1)
        }
    }
}

/// A message for the client.
#[derive(Debug, Clone, PartialEq, Eq)]
pub enum AppMsg {
    /// The user asks for a new connection.
    Reconnect,
    /// The connection of the given session has been made.
    Connect(Session),
    /// A message for the reconciler of the given session.
    Operate(Session, ConMsg),
    /// The connection of the given session has failed.
    Error(Session, Error),
    /// The user asks to leave.
    Quit,
}

/// Mathematical content of an [`AppMsg`].
pub enum AppMsgView {
    Reconnect,
    Connect(u64),
    Operate(u64, ConMsgView),
    Error(u64, Error),
    Quit,
}

impl View for AppMsg {
    type V = AppMsgView;

    open spec fn view(&self) -> AppMsgView {
        match *self {
            AppMsg::Reconnect => AppMsgView::Reconnect,
            AppMsg::Connect(session) => AppMsgView::Connect(session.0),
            AppMsg::Operate(session, msg) => AppMsgView::Operate(session.0, msg@),
            AppMsg::Error(session, error) => AppMsgView::Error(session.0, error),
            AppMsg::Quit => AppMsgView::Quit,
        }
    }
}

impl From<(Session, Result<ConMsg, Error>)> for AppMsg {
    /// The outcome of a request made in the given session as a message:
    /// what came back for the reconciler, or the error that ends the
    /// connection.
    fn from(outcome: (Session, Result<ConMsg, Error>)) -> (r: AppMsg) {
        match outcome.1 {
            Ok(msg) => AppMsg::Operate(outcome.0, msg),
            Err(err) => AppMsg::Error(outcome.0, err),
        }
    }
}

impl vstd::std_specs::convert::FromSpecImpl<(Session, Result<ConMsg, Error>)> for AppMsg {
    open spec fn obeys_from_spec() -> bool {
        true
    }

    open spec fn from_spec(outcome: (Session, Result<ConMsg, Error>)) -> AppMsg {
        match outcome.1 {
            Ok(msg) => AppMsg::Operate(outcome.0, msg),
            Err(err) => AppMsg::Error(outcome.0, err),
        }
    }
}

impl From<(Session, Result<MpdEvent, Error>)> for AppMsg {
    /// A report of the connection of the given session as a message.
    fn from(report: (Session, Result<MpdEvent, Error>)) -> (r: AppMsg) {
        match report.1 {
            Ok(MpdEvent::Connected) => AppMsg::Connect(report.0),
            Ok(MpdEvent::Change(sub)) => AppMsg::Operate(report.0, ConMsg::Change(sub)),
            Err(error) => AppMsg::Error(report.0, error),
        }
    }
}

impl vstd::std_specs::convert::FromSpecImpl<(Session, Result<MpdEvent, Error>)> for AppMsg {
    open spec fn obeys_from_spec() -> bool {
        true
    }

    open spec fn from_spec(report: (Session, Result<MpdEvent, Error>)) -> AppMsg {
        match report.1 {
            Ok(MpdEvent::Connected) => AppMsg::Connect(report.0),
            Ok(MpdEvent::Change(sub)) => AppMsg::Operate(report.0, ConMsg::Change(sub)),
            Err(error) => AppMsg::Error(report.0, error),
        }
    }
}

/// A key on the keyboard, as far as the client tells keys apart.
#[derive(Debug, Clone, PartialEq, Eq)]
pub enum Key {
    Escape,
    Space,
    /// A key that produces the given text.
    Character(String),
    /// Any other key.
    Other,
}

/// What a letter key asks of the reconciler.
pub open spec fn letter_message(c: char) -> Option<ConMsgView> {
    if c == 'f' || c == 'n' {
        Some(ConMsgView::Cmd(Cmd::Next))
    } else if c == 'b' {
        Some(ConMsgView::Cmd(Cmd::Prev))
    } else if c == 'o' {
        Some(ConMsgView::Toggle(Toggle::ShowOptions))
    } else if c == 'i' {
        Some(ConMsgView::Toggle(Toggle::ShowSongInfo))
    } else if c == 'a' {
        Some(ConMsgView::Toggle(Toggle::ShowCoverArt))
    } else if c == 'p' {
        Some(ConMsgView::Toggle(Toggle::ShowProgress))
    } else if c == 'r' {
        Some(ConMsgView::Toggle(Toggle::Random))
    } else if c == 'l' {
        Some(ConMsgView::Toggle(Toggle::Loop))
    } else if c == 'c' {
        Some(ConMsgView::Toggle(Toggle::Consume))
    } else {
        None
    }
}

/// The message that a key press stands for while the session `session`
/// is the present one.  `ctrl` says that Control, and no other modifier,
/// is held: it matters for `q` alone.
pub open spec fn key_message(key: Key, ctrl: bool, session: u64) -> Option<AppMsgView> {
    match key {
        Key::Escape => Some(AppMsgView::Quit),
        Key::Space => Some(AppMsgView::Operate(session, ConMsgView::Toggle(Toggle::Play))),
        Key::Character(text) => if text@.len() != 1 {
            None
        } else if ctrl && text@[0] == 'q' {
            Some(AppMsgView::Quit)
        } else {
            match letter_message(text@[0]) {
                Some(msg) => Some(AppMsgView::Operate(session, msg)),
                None => None,
            }
        },
        Key::Other => None,
    }
}

/// The view of an optional message.
pub open spec fn message_of(m: Option<AppMsg>) -> Option<AppMsgView> {
    match m {
        Some(m) => Some(m@),
        None => None,
    }
}

/// The view of an optional message for the reconciler.
pub open spec fn operation_of(m: Option<ConMsg>) -> Option<ConMsgView> {
    match m {
        Some(m) => Some(m@),
        None => None,
    }
}

/// What a letter key asks of the reconciler.
fn letter(c: char) -> (r: Option<ConMsg>)
    ensures
        operation_of(r) == letter_message(c),
{
    if c == 'f' || c == 'n' {
        Some(ConMsg::Cmd(Cmd::Next))
    } else if c == 'b' {
        Some(ConMsg::Cmd(Cmd::Prev))
    } else if c == 'o' {
        Some(ConMsg::Toggle(Toggle::ShowOptions))
    } else if c == 'i' {
        Some(ConMsg::Toggle(Toggle::ShowSongInfo))
    } else if c == 'a' {
        Some(ConMsg::Toggle(Toggle::ShowCoverArt))
    } else if c == 'p' {
        Some(ConMsg::Toggle(Toggle::ShowProgress))
    } else if c == 'r' {
        Some(ConMsg::Toggle(Toggle::Random))
    } else if c == 'l' {
        Some(ConMsg::Toggle(Toggle::Loop))
    } else if c == 'c' {
        Some(ConMsg::Toggle(Toggle::Consume))
    } else {
        None
    }
}

impl AppMsg {
    /// The message that a key press stands for, if any, while `session`
    /// is the present session.  `ctrl` says that Control, and no other
    /// modifier, is held.
    pub fn from_key(key: &Key, ctrl: bool, session: Session) -> (r: Option<AppMsg>)
        ensures
            message_of(r) == key_message(*key, ctrl, session.0),
    {
        match key {
            Key::Escape => Some(AppMsg::Quit),
            Key::Space => Some(AppMsg::Operate(session, ConMsg::Toggle(Toggle::Play))),
            Key::Character(text) => {
                let text = text.as_str();
                if text.unicode_len() != 1 {
                    return None;
                }
                let c = text.get_char(0);
                if ctrl && c == 'q' {
                    Some(AppMsg::Quit)
                } else {
                    match letter(c) {
                        Some(msg) => Some(AppMsg::Operate(session, msg)),
                        None => None,
                    }
                }
            },
            Key::Other => None,
        }
    }
}

/// The client: not connected yet, connected, or stopped on an error until
/// the user asks for a new connection.  Every state names the present
/// session: the one whose connection is being made, stands, or has failed.
pub enum App {
    /// No connection stands, and one is being made.
    Unconnected(Session),
    /// The connection stands; the reconciler keeps the caches.
    Connected(Session, Connected),
    /// The connection has failed for the given reason.
    Error(Session, Error),
}

/// Mathematical content of an [`App`].
pub enum AppView {
    Unconnected(u64),
    Connected(u64, ConnectedView),
    Error(u64, Error),
}

/// Milliseconds between two redraws while a song plays.
pub const PERIODIC_REDRAW: u64 = 250;

impl AppView {
    /// The present session.
    pub open spec fn session(self) -> u64 {
        match self {
            AppView::Unconnected(session) => session,
            AppView::Connected(session, _) => session,
            AppView::Error(session, _) => session,
        }
    }

    /// Whether `msg` comes from a connection other than the present one.
    pub open spec fn is_stale(self, msg: AppMsgView) -> bool {
        match msg {
            AppMsgView::Connect(session) => session != self.session(),
            AppMsgView::Operate(session, _) => session != self.session(),
            AppMsgView::Error(session, _) => session != self.session(),
            _ => false,
        }
    }

    /// The state after a message, and what to do next.
    ///
    /// A request for a new connection drops whatever state there is and
    /// opens the next session.  Whatever comes from a connection other
    /// than that of the present session is dropped: it changes nothing and
    /// asks for nothing.  The connection of the present session, once
    /// made, starts with empty caches and loads the queue.  A message for
    /// the reconciler reaches it only while the connection stands.  Where
    /// the reconciler gives the connection up, and where the connection
    /// fails, the client stops on the error.
    pub open spec fn step(self, msg: AppMsgView) -> (AppView, RequestView) {
        if self.is_stale(msg) {
            (self, RequestView::Idle)
        } else {
            match msg {
                AppMsgView::Reconnect => (
                    AppView::Unconnected(following(self.session())),
                    RequestView::Connect,
                ),
                AppMsgView::Connect(session) => (
                    AppView::Connected(session, ConnectedView::initial()),
                    RequestView::Queue,
                ),
                AppMsgView::Operate(session, m) => match self {
                    AppView::Connected(_, c) => match c.step(m).1 {
                        RequestView::Fail(error) => (
                            AppView::Error(session, error),
                            RequestView::Idle,
                        ),
                        request => (AppView::Connected(session, c.step(m).0), request),
                    },
                    _ => (self, RequestView::Idle),
                },
                AppMsgView::Error(session, error) => (
                    AppView::Error(session, error),
                    RequestView::Idle,
                ),
                AppMsgView::Quit => (self, RequestView::Quit),
            }
        }
    }

    /// The state after a list of messages, handled in turn.
    pub open spec fn after(self, msgs: Seq<AppMsgView>) -> AppView
        decreases msgs.len(),
    {
        if msgs.len() == 0 {
            self
        } else {
            self.after(msgs.drop_last()).step(msgs.last()).0
        }
    }

    /// What the title says of the state.
    pub open spec fn state_title(self) -> Seq<char> {
        match self {
            AppView::Unconnected(_) => "Unconnected"@,
            AppView::Connected(_, c) => match c.player.song_info {
                Some(info) => info.title,
                None => "Empty"@,
            },
            AppView::Error(_, _) => "Error"@,
        }
    }

    /// The time between two redraws, in milliseconds: the display moves
    /// only while a song plays.
    pub open spec fn redraw_period(self) -> Option<u64> {
        match self {
            AppView::Connected(_, c) => if c.player.is_playing() {
                Some(PERIODIC_REDRAW)
            } else {
                None
            },
            _ => None,
        }
    }
}

/// How many of `msgs` ask for a new connection.
pub open spec fn reconnects(msgs: Seq<AppMsgView>) -> nat
    decreases msgs.len(),
{
    if msgs.len() == 0 {
        0
    } else {
        reconnects(msgs.drop_last()) + if msgs.last() is Reconnect {
            1nat
        } else {
            0nat
        }
    }
}

/// A session differs from each of the sessions that follow it, up to the
/// point where the count has gone round once.
pub proof fn law_later_sessions_differ(n: u64, k: nat)
    requires
        0 < k <= u64::MAX,
    ensures
        later(n, k) != n,
{
    lemma_later(n, k);
}

/// The number `k` connections after `n` is `n + k`, counted round.
proof fn lemma_later(n: u64, k: nat)
    ensures
        later(n, k) == (n + k) % 0x1_0000_0000_0000_0000,
    decreases k,
{
    if k > 0 {
        lemma_later(n, (k - 1) as nat);
    }
}

/// Only a request for a new connection changes the session, and it opens
/// the next one: after any list of messages the session is as many
/// sessions on as the list asks for new connections.
pub proof fn law_session_counts_reconnects(state: AppView, msgs: Seq<AppMsgView>)
    ensures
        state.after(msgs).session() == later(state.session(), reconnects(msgs)),
    decreases msgs.len(),
{
    if msgs.len() > 0 {
        law_session_counts_reconnects(state, msgs.drop_last());
    }
}

/// Whatever comes from a connection other than the present one changes
/// nothing and asks for nothing, whatever the state and whatever it is:
/// news that the connection stands, a notification, the outcome of a
/// request, or a failure.
pub proof fn law_stale_results_are_dropped(state: AppView, msg: AppMsgView)
    requires
        state.is_stale(msg),
    ensures
        state.step(msg) == (state, RequestView::Idle),
{
}

/// What a connection has set off is dropped once that connection has been
/// given up for a new one, however much has happened in between: after a
/// request for a new connection and any further messages, a message of the
/// session that was present before changes nothing and asks for nothing.
/// (The count of sessions goes round after 2^64 connections; the law holds
/// up to there.)
pub proof fn law_superseded_session_is_dropped(
    state: AppView,
    between: Seq<AppMsgView>,
    msg: AppMsgView,
)
    requires
        msg is Connect || msg is Operate || msg is Error,
        !state.is_stale(msg),
        reconnects(between) < u64::MAX,
    ensures
        ({
            let now = state.step(AppMsgView::Reconnect).0.after(between);
            now.step(msg) == (now, RequestView::Idle)
        }),
{
    let fresh = state.step(AppMsgView::Reconnect).0;
    law_session_counts_reconnects(fresh, between);
    lemma_later(fresh.session(), reconnects(between));
}

/// A message for the reconciler that arrives while no connection stands
/// changes nothing and asks for nothing.
pub proof fn law_nothing_operates_without_connection(state: AppView, session: u64, msg: ConMsgView)
    requires
        !(state is Connected),
    ensures
        state.step(AppMsgView::Operate(session, msg)) == (state, RequestView::Idle),
{
}

/// The client stops on an error in two cases only: the connection of the
/// present session reports one, or a status names a song that plays and
/// that the queue cache does not hold.  In the second case the error says
/// that the queue is inconsistent.
pub proof fn law_what_stops_the_client(state: AppView, msg: AppMsgView)
    ensures
        !(state is Error) && state.step(msg).0 is Error ==> !state.is_stale(msg) && (msg is Error
            || ({
            &&& state is Connected
            &&& msg is Operate
            &&& state->Connected_1.step(msg->Operate_1).1 is Fail
        })),
        msg is Error && msg->Error_0 == state.session() ==> state.step(msg) == (
            AppView::Error(msg->Error_0, msg->Error_1),
            RequestView::Idle,
        ),
        state is Connected && msg is Operate && !state.is_stale(msg)
            && state->Connected_1.step(msg->Operate_1).1 is Fail ==> state.step(msg) == (
            AppView::Error(state.session(), Error::InvalidQueue),
            RequestView::Idle,
        ),
        !(state.step(msg).1 is Fail),
{
    if state is Connected && msg is Operate {
        law_only_an_inconsistent_queue_fails(state->Connected_1, msg->Operate_1);
    }
}

/// A status that names a playing song unknown to the queue cache stops
/// the client on an inconsistent queue.
pub proof fn law_inconsistent_queue_stops(session: u64, c: ConnectedView, status: Status)
    requires
        status.current_song matches Some(id) && !c.queue.contains_key(id.0),
    ensures
        AppView::Connected(session, c).step(
            AppMsgView::Operate(session, ConMsgView::UpdateSongInfo(status)),
        ) == (AppView::Error(session, Error::InvalidQueue), RequestView::Idle),
        AppView::Connected(session, c).step(
            AppMsgView::Operate(session, ConMsgView::UpdateStatus(status)),
        ) == (AppView::Error(session, Error::InvalidQueue), RequestView::Idle),
{
}

/// Neither the outcome of a cover art fetch nor that of a command stops
/// the client, whatever it is: a song without cover art and a command
/// that the server rejected are both taken in stride.
pub proof fn law_outcomes_taken_in_stride(session: u64, c: ConnectedView, msg: ConMsgView)
    requires
        msg is UpdateCoverArt || msg is CmdResult,
    ensures
        AppView::Connected(session, c).step(AppMsgView::Operate(session, msg)).0 is Connected,
        msg is CmdResult ==> AppView::Connected(session, c).step(
            AppMsgView::Operate(session, msg),
        ) == (AppView::Connected(session, c), RequestView::Idle),
{
}

/// A client that has stopped on an error stays stopped until the user
/// asks for a new connection or the connection of the present session is
/// made: whatever else arrives asks for nothing of the server.
pub proof fn law_stopped_until_reconnect(state: AppView, msg: AppMsgView)
    requires
        state is Error,
        !(msg is Reconnect),
        !(msg is Connect),
    ensures
        state.step(msg).0 is Error,
        state.step(msg).1 is Idle || state.step(msg).1 is Quit,
        !(msg is Error) ==> state.step(msg).0 == state,
{
}

/// Whatever the state, a request for a new connection leads to the
/// unconnected state of the next session and the request to connect, and
/// the connection of that session, once made, starts with empty caches
/// and the request for the queue.
pub proof fn law_reconnect_starts_afresh(state: AppView)
    ensures
        state.step(AppMsgView::Reconnect) == (
            AppView::Unconnected(following(state.session())),
            RequestView::Connect,
        ),
        state.step(AppMsgView::Connect(state.session())) == (
            AppView::Connected(state.session(), ConnectedView::initial()),
            RequestView::Queue,
        ),
        state.step(AppMsgView::Reconnect).0.step(
            AppMsgView::Connect(following(state.session())),
        ) == (
            AppView::Connected(following(state.session()), ConnectedView::initial()),
            RequestView::Queue,
        ),
{
}

impl View for App {
    type V = AppView;

    open spec fn view(&self) -> AppView {
        match *self {
            App::Unconnected(session) => AppView::Unconnected(session.0),
            App::Connected(session, c) => AppView::Connected(session.0, c@),
            App::Error(session, error) => AppView::Error(session.0, error),
        }
    }
}

impl App {
    /// The client at its start, in its first session, with that session
    /// and the request to connect.
    pub fn new() -> (r: (App, Session, Request))
        ensures
            r.0@ == AppView::Unconnected(0),
            r.1 == Session(0),
            r.2@ == RequestView::Connect,
    {
        (App::Unconnected(Session(0)), Session(0), App::connect())
    }

    /// The request to open a connection.
    fn connect() -> (r: Request)
        ensures
            r@ == RequestView::Connect,
    {
        Request::Connect
    }

    /// The present session.
    pub fn session(&self) -> (r: Session)
        ensures
            r.0 == self@.session(),
    {
        match self {
            App::Unconnected(session) => *session,
            App::Connected(session, _) => *session,
            App::Error(session, _) => *session,
        }
    }

    /// The window title: the program's name and version, then what the
    /// state has to say.
    pub fn title(&self, name: &str, version: &str) -> (r: String)
        ensures
            r@ == name@ + seq![' '] + version@ + seq![' ', '-', ' '] + self@.state_title(),
    {
        let title = match self {
            App::Unconnected(_) => "Unconnected",
            App::Connected(_, con) => con.title(),
            App::Error(_, _) => "Error",
        };
        let mut out = String::from_str(name);
        out.append(" ");
        out.append(version);
        out.append(" - ");
        out.append(title);
        proof {
            reveal_strlit(" ");
            reveal_strlit(" - ");
        }
        out
    }

    /// Handles one message: moves to the next state and says what to do
    /// next.  The session returned with the request is the present one
    /// after the message: whatever comes of the request has to name it.
    pub fn update(&mut self, message: AppMsg) -> (r: (Session, Request))
        ensures
            (final(self)@, r.1@) == old(self)@.step(message@),
            r.0.0 == final(self)@.session(),
            !(r.1@ is Fail),
    {
        let present = self.session();
        match message {
            AppMsg::Reconnect => {
                let session = present.next();
                *self = App::Unconnected(session);
                (session, App::connect())
            },
            AppMsg::Connect(session) => {
                if session.0 != present.0 {
                    return (present, Request::Idle);
                }
                let con = Connected::new();
                let request_queue = con.request_queue();
                *self = App::Connected(session, con);
                (session, request_queue)
            },
            AppMsg::Operate(session, msg) => {
                if session.0 != present.0 {
                    return (present, Request::Idle);
                }
                let request = match self {
                    App::Connected(_, c) => c.update(msg),
                    _ => Request::Idle,
                };
                match request {
                    Request::Fail(error) => {
                        *self = App::Error(session, error);
                        (session, Request::Idle)
                    },
                    request => (session, request),
                }
            },
            AppMsg::Error(session, error) => {
                if session.0 != present.0 {
                    return (present, Request::Idle);
                }
                *self = App::Error(session, error);
                (session, Request::Idle)
            },
            AppMsg::Quit => (present, Request::Quit),
        }
    }

    /// The time between two redraws, if the display moves at all.
    pub fn redraw_period(&self) -> (r: Option<u64>)
        ensures
            r == self@.redraw_period(),
    {
        match self {
            App::Connected(_, con) => if con.is_playing() {
                Some(PERIODIC_REDRAW)
            } else {
                None
            },
            _ => None,
        }
    }
}

} // verus!

use mpd_remote::app::{App, AppMsg, Key, Session, PERIODIC_REDRAW};
use mpd_remote::connected::{ConMsg, Request, Toggle};
use mpd_remote::error::Error;
use mpd_remote::mpd::{Cmd, CmdResult, MpdEvent, Subsystem};
use mpd_remote::player::{PlayState, Status};
use mpd_remote::song_info::{QueueEntry, SongId};

fn entry(id: u64, title: &str) -> QueueEntry {
    QueueEntry {
        id: SongId(id),
        title: Some(title.to_string()),
        artists: vec![],
        album: None,
        url: format!("{id}.mp3"),
    }
}

fn status(state: PlayState, current: Option<u64>) -> Status {
    Status {
        volume: 50,
        state,
        repeat: false,
        random: false,
        consume: false,
        current_song: current.map(SongId),
        next_song: None,
        elapsed: None,
        duration: None,
    }
}

fn every_operation() -> Vec<ConMsg> {
    vec![
        ConMsg::Change(Subsystem::Player),
        ConMsg::Cmd(Cmd::SetVolume(10)),
        ConMsg::CmdResult(CmdResult { cmd: Cmd::Play, error: None }),
        ConMsg::Redraw,
        ConMsg::Toggle(Toggle::Play),
        ConMsg::UpdateSongInfo(status(PlayState::Playing, Some(1))),
        ConMsg::UpdateQueue(vec![entry(1, "one")]),
        ConMsg::UpdateStatus(status(PlayState::Playing, None)),
        ConMsg::UpdateCoverArt(SongId(1), Some(vec![1])),
    ]
}

#[test]
fn starts_unconnected_and_asks_to_connect() {
    let (app, session, request) = App::new();
    assert!(matches!(app, App::Unconnected(Session(0))));
    assert_eq!(session, Session(0));
    assert_eq!(request, Request::Connect);
    assert_eq!(app.redraw_period(), None);
}

#[test]
fn connecting_loads_the_queue() {
    let (mut app, s, _) = App::new();
    assert_eq!(app.update(AppMsg::from((s, Ok(MpdEvent::Connected)))), (s, Request::Queue));
    match &app {
        App::Connected(session, con) => {
            assert_eq!(*session, s);
            assert!(con.queue().get_missing().is_none());
            assert_eq!(con.player().status(), None);
            assert_eq!(con.title(), "Empty");
        }
        _ => panic!("not connected"),
    }
}

#[test]
fn nothing_operates_while_no_connection_stands() {
    for msg in every_operation() {
        let (mut app, s, _) = App::new();
        assert_eq!(app.update(AppMsg::Operate(s, msg.clone())), (s, Request::Idle));
        assert!(matches!(app, App::Unconnected(Session(0))));
        let mut app = App::Error(Session(3), Error::Disconnect);
        assert_eq!(app.update(AppMsg::Operate(Session(3), msg)), (Session(3), Request::Idle));
        assert!(matches!(app, App::Error(Session(3), Error::Disconnect)));
    }
}

#[test]
fn messages_of_another_session_are_dropped_in_every_state() {
    let stale = Session(4);
    let present = Session(5);
    for msg in every_operation() {
        let mut app = App::Unconnected(present);
        assert_eq!(app.update(AppMsg::Operate(stale, msg.clone())), (present, Request::Idle));
        assert!(matches!(app, App::Unconnected(Session(5))));
        let mut app = App::Error(present, Error::InvalidQueue);
        assert_eq!(app.update(AppMsg::Operate(stale, msg.clone())), (present, Request::Idle));
        assert!(matches!(app, App::Error(Session(5), Error::InvalidQueue)));
        let mut app = App::Unconnected(present);
        app.update(AppMsg::Connect(present));
        app.update(AppMsg::Operate(present, ConMsg::UpdateQueue(vec![entry(8, "eight")])));
        assert_eq!(app.update(AppMsg::Operate(stale, msg)), (present, Request::Idle));
        match &app {
            App::Connected(session, con) => {
                assert_eq!(*session, present);
                assert_eq!(con.queue().len(), 1);
                assert!(con.queue().get(&SongId(8)).unwrap().missing_cover);
                assert_eq!(con.player().status(), None);
                assert!(con.player().shows_options());
            }
            _ => panic!("not connected"),
        }
    }
    // news of a connection and failures of another session are dropped too
    let mut app = App::Unconnected(present);
    assert_eq!(app.update(AppMsg::Connect(stale)), (present, Request::Idle));
    assert!(matches!(app, App::Unconnected(Session(5))));
    assert_eq!(app.update(AppMsg::Error(stale, Error::Disconnect)), (present, Request::Idle));
    assert!(matches!(app, App::Unconnected(Session(5))));
    app.update(AppMsg::Connect(present));
    assert_eq!(app.update(AppMsg::Error(stale, Error::Disconnect)), (present, Request::Idle));
    assert!(matches!(app, App::Connected(Session(5), _)));
}

#[test]
fn an_error_stops_the_client_in_every_state() {
    let (mut app, s, _) = App::new();
    assert_eq!(app.update(AppMsg::Error(s, Error::Disconnect)), (s, Request::Idle));
    assert!(matches!(app, App::Error(_, Error::Disconnect)));
    assert_eq!(app.update(AppMsg::Error(s, Error::InvalidQueue)), (s, Request::Idle));
    assert!(matches!(app, App::Error(_, Error::InvalidQueue)));
    let (mut app, s, _) = App::new();
    app.update(AppMsg::Connect(s));
    let failed: Result<ConMsg, Error> = Err(Error::Mpd("protocol error".to_string()));
    assert_eq!(app.update(AppMsg::from((s, failed))), (s, Request::Idle));
    assert!(matches!(app, App::Error(_, Error::Mpd(_))));
}

#[test]
fn reconnect_resets_and_connects() {
    let mut app = App::Error(Session(0), Error::Disconnect);
    assert_eq!(app.update(AppMsg::Reconnect), (Session(1), Request::Connect));
    assert!(matches!(app, App::Unconnected(Session(1))));
    assert_eq!(app.update(AppMsg::Connect(Session(1))), (Session(1), Request::Queue));
    assert!(matches!(app, App::Connected(Session(1), _)));
    // a new connection starts with empty caches
    app.update(AppMsg::Operate(Session(1), ConMsg::UpdateQueue(vec![entry(1, "one")])));
    assert_eq!(app.update(AppMsg::Reconnect), (Session(2), Request::Connect));
    assert_eq!(app.update(AppMsg::Connect(Session(2))), (Session(2), Request::Queue));
    match &app {
        App::Connected(_, con) => assert!(con.queue().get(&SongId(1)).is_none()),
        _ => panic!("not connected"),
    }
}

#[test]
fn quit_asks_to_leave_and_keeps_the_state() {
    let (mut app, s, _) = App::new();
    assert_eq!(app.update(AppMsg::Quit), (s, Request::Quit));
    assert!(matches!(app, App::Unconnected(_)));
    app.update(AppMsg::Connect(s));
    assert_eq!(app.update(AppMsg::Quit), (s, Request::Quit));
    assert!(matches!(app, App::Connected(_, _)));
    let mut app = App::Error(s, Error::InvalidQueue);
    assert_eq!(app.update(AppMsg::Quit), (s, Request::Quit));
    assert!(matches!(app, App::Error(_, Error::InvalidQueue)));
}

#[test]
fn operations_reach_the_reconciler_while_connected() {
    let (mut app, s, _) = App::new();
    app.update(AppMsg::Connect(s));
    assert_eq!(
        app.update(AppMsg::from((s, Ok(MpdEvent::Change(Subsystem::Queue))))),
        (s, Request::Queue)
    );
    assert_eq!(
        app.update(AppMsg::Operate(s, ConMsg::UpdateQueue(vec![entry(1, "one")]))),
        (s, Request::SongInfo)
    );
    assert_eq!(
        app.update(AppMsg::Operate(
            s,
            ConMsg::UpdateSongInfo(status(PlayState::Playing, Some(1)))
        )),
        (s, Request::CoverArt(SongId(1), "1.mp3".to_string()))
    );
    assert_eq!(app.title("player", "1.0"), "player 1.0 - one");
    assert_eq!(app.redraw_period(), Some(250));
    assert_eq!(PERIODIC_REDRAW, 250);
    app.update(AppMsg::Operate(s, ConMsg::UpdateSongInfo(status(PlayState::Paused, Some(1)))));
    assert_eq!(app.redraw_period(), None);
}

#[test]
fn titles() {
    let (mut app, s, _) = App::new();
    assert_eq!(app.title("mpdgui", "0.1.0"), "mpdgui 0.1.0 - Unconnected");
    app.update(AppMsg::Connect(s));
    assert_eq!(app.title("mpdgui", "0.1.0"), "mpdgui 0.1.0 - Empty");
    app.update(AppMsg::Error(s, Error::Disconnect));
    assert_eq!(app.title("mpdgui", "0.1.0"), "mpdgui 0.1.0 - Error");
    assert_eq!(app.title("", ""), "  - Error");
}

#[test]
fn messages_from_results() {
    let s = Session(6);
    assert_eq!(
        AppMsg::from((s, Ok::<ConMsg, Error>(ConMsg::Redraw))),
        AppMsg::Operate(s, ConMsg::Redraw)
    );
    assert_eq!(
        AppMsg::from((s, Err::<ConMsg, Error>(Error::InvalidQueue))),
        AppMsg::Error(s, Error::InvalidQueue)
    );
    assert_eq!(AppMsg::from((s, Ok::<MpdEvent, Error>(MpdEvent::Connected))), AppMsg::Connect(s));
    assert_eq!(
        AppMsg::from((s, Ok::<MpdEvent, Error>(MpdEvent::Change(Subsystem::Mixer)))),
        AppMsg::Operate(s, ConMsg::Change(Subsystem::Mixer))
    );
    assert_eq!(
        AppMsg::from((s, Err::<MpdEvent, Error>(Error::Disconnect))),
        AppMsg::Error(s, Error::Disconnect)
    );
}

fn letter(text: &str) -> Key {
    Key::Character(text.to_string())
}

fn press(key: &Key, ctrl: bool) -> Option<AppMsg> {
    AppMsg::from_key(key, ctrl, Session(9))
}

#[test]
fn keys_without_control() {
    let operate = |m| Some(AppMsg::Operate(Session(9), m));
    let toggle = |t| Some(AppMsg::Operate(Session(9), ConMsg::Toggle(t)));
    assert_eq!(press(&Key::Escape, false), Some(AppMsg::Quit));
    assert_eq!(press(&Key::Space, false), toggle(Toggle::Play));
    assert_eq!(press(&letter("f"), false), operate(ConMsg::Cmd(Cmd::Next)));
    assert_eq!(press(&letter("n"), false), operate(ConMsg::Cmd(Cmd::Next)));
    assert_eq!(press(&letter("b"), false), operate(ConMsg::Cmd(Cmd::Prev)));
    assert_eq!(press(&letter("o"), false), toggle(Toggle::ShowOptions));
    assert_eq!(press(&letter("i"), false), toggle(Toggle::ShowSongInfo));
    assert_eq!(press(&letter("a"), false), toggle(Toggle::ShowCoverArt));
    assert_eq!(press(&letter("p"), false), toggle(Toggle::ShowProgress));
    assert_eq!(press(&letter("r"), false), toggle(Toggle::Random));
    assert_eq!(press(&letter("l"), false), toggle(Toggle::Loop));
    assert_eq!(press(&letter("c"), false), toggle(Toggle::Consume));
    assert_eq!(press(&letter("q"), false), None);
    assert_eq!(press(&letter("x"), false), None);
    assert_eq!(press(&letter("F"), false), None);
    assert_eq!(press(&letter(""), false), None);
    assert_eq!(press(&letter("ff"), false), None);
    assert_eq!(press(&letter("é"), false), None);
    assert_eq!(press(&Key::Other, false), None);
}

#[test]
fn keys_with_control() {
    assert_eq!(press(&letter("q"), true), Some(AppMsg::Quit));
    assert_eq!(press(&letter("qq"), true), None);
    assert_eq!(press(&Key::Escape, true), Some(AppMsg::Quit));
    assert_eq!(
        press(&Key::Space, true),
        Some(AppMsg::Operate(Session(9), ConMsg::Toggle(Toggle::Play)))
    );
    // control changes nothing for the other letters
    assert_eq!(
        press(&letter("f"), true),
        Some(AppMsg::Operate(Session(9), ConMsg::Cmd(Cmd::Next)))
    );
    assert_eq!(
        press(&letter("c"), true),
        Some(AppMsg::Operate(Session(9), ConMsg::Toggle(Toggle::Consume)))
    );
    assert_eq!(press(&letter("x"), true), None);
    assert_eq!(press(&Key::Other, true), None);
    // the message is for the session given
    assert_eq!(
        AppMsg::from_key(&letter("b"), false, Session(1)),
        Some(AppMsg::Operate(Session(1), ConMsg::Cmd(Cmd::Prev)))
    );
}

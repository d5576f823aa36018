use mpd_remote::error::Error;
use mpd_remote::listen::{ListenStep, MpdListen, MpdMsg};
use mpd_remote::mpd::Subsystem;
use mpd_remote::player::{PlayState, Status};
use mpd_remote::song_info::{QueueEntry, SongId};

fn entry(id: u64, title: &str) -> QueueEntry {
    QueueEntry {
        id: SongId(id),
        title: Some(title.to_string()),
        artists: vec!["A".to_string(), "B".to_string()],
        album: Some("L".to_string()),
        url: format!("{title}.ogg"),
    }
}

fn status(current: Option<u64>) -> Status {
    Status {
        volume: 1,
        state: PlayState::Stopped,
        repeat: false,
        random: false,
        consume: false,
        current_song: current.map(SongId),
        next_song: Some(SongId(2)),
        elapsed: None,
        duration: None,
    }
}

#[test]
fn listener_steps() {
    let l = MpdListen::new(vec![]);
    assert_eq!(l.subsystem_change(Subsystem::Queue), ListenStep::ReloadQueue);
    assert_eq!(l.subsystem_change(Subsystem::Player), ListenStep::SongInfo);
    assert_eq!(l.subsystem_change(Subsystem::Mixer), ListenStep::Idle);
    assert_eq!(l.subsystem_change(Subsystem::Options), ListenStep::Idle);
    assert_eq!(l.subsystem_change(Subsystem::Other), ListenStep::Idle);
}

#[test]
fn listener_finds_the_first_entry_of_an_id() {
    let l = MpdListen::new(vec![entry(1, "one"), entry(2, "two"), entry(1, "again")]);
    assert_eq!(l.find(SongId(1)), Some(&entry(1, "one")));
    assert_eq!(l.find(SongId(2)), Some(&entry(2, "two")));
    assert_eq!(l.find(SongId(3)), None);
    assert_eq!(MpdListen::new(vec![]).find(SongId(1)), None);
}

#[test]
fn listener_resolves_the_current_song() {
    let mut l = MpdListen::new(vec![entry(1, "one"), entry(2, "two")]);
    assert_eq!(l.get_song_info(&status(None)), Ok(None));
    assert_eq!(l.get_song_info(&status(Some(2))), Ok(Some(&entry(2, "two"))));
    assert_eq!(l.get_song_info(&status(Some(7))), Err(Error::InvalidQueue));
    l.reload(vec![entry(7, "seven")]);
    assert_eq!(l.get_song_info(&status(Some(7))), Ok(Some(&entry(7, "seven"))));
    assert_eq!(l.get_song_info(&status(Some(2))), Err(Error::InvalidQueue));
}

#[test]
fn listener_song_info_takes_whatever_art_came() {
    let e = entry(2, "two");
    let info = MpdListen::song_info(&e, Ok(Some(vec![1, 2]))).unwrap();
    assert_eq!(info.id, SongId(2));
    assert_eq!(info.title, "two");
    assert_eq!(info.artist, "A, B");
    assert_eq!(info.album, "L");
    assert_eq!(info.url, "two.ogg");
    assert_eq!(info.coverart, Some(vec![1, 2]));
    assert!(!info.missing_cover);
    let info = MpdListen::song_info(&e, Ok(None)).unwrap();
    assert_eq!(info.coverart, None);
    assert!(!info.missing_cover);
    // that the server does not have the file means no cover art
    let info = MpdListen::song_info(&e, Err(Error::MpdErrorResponse(50))).unwrap();
    assert_eq!(info.coverart, None);
    assert!(!info.missing_cover);
    assert_eq!(info.title, "two");
    assert_eq!(MpdMsg::Song(Some(info.clone())), MpdMsg::Song(Some(info)));
}

#[test]
fn listener_passes_other_fetch_errors_on() {
    let e = entry(2, "two");
    assert_eq!(MpdListen::song_info(&e, Err(Error::Disconnect)), Err(Error::Disconnect));
    assert_eq!(
        MpdListen::song_info(&e, Err(Error::MpdErrorResponse(51))),
        Err(Error::MpdErrorResponse(51))
    );
    assert_eq!(
        MpdListen::song_info(&e, Err(Error::MpdErrorResponse(5))),
        Err(Error::MpdErrorResponse(5))
    );
    assert_eq!(
        MpdListen::song_info(&e, Err(Error::Mpd("protocol error".to_string()))),
        Err(Error::Mpd("protocol error".to_string()))
    );
    assert_eq!(MpdListen::song_info(&e, Err(Error::InvalidQueue)), Err(Error::InvalidQueue));
}

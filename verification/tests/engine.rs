use mpd_remote::connected::{next_target, ConMsg, Connected, Request, Toggle};
use mpd_remote::error::Error;
use mpd_remote::mpd::{Cmd, CmdResult, Subsystem};
use mpd_remote::player::{PlayState, Player, Status};
use mpd_remote::queue::Queue;
use mpd_remote::song_info::{QueueEntry, SongId};
use std::time::Duration;

fn entry(id: u64, url: &str) -> QueueEntry {
    QueueEntry {
        id: SongId(id),
        title: Some(format!("song {id}")),
        artists: vec!["artist".to_string()],
        album: Some("album".to_string()),
        url: url.to_string(),
    }
}

fn status(current: Option<u64>, next: Option<u64>) -> Status {
    Status {
        volume: 50,
        state: PlayState::Playing,
        repeat: false,
        random: true,
        consume: false,
        current_song: current.map(SongId),
        next_song: next.map(SongId),
        elapsed: Some(1_000),
        duration: Some(60_000),
    }
}

fn loaded(entries: Vec<QueueEntry>) -> Connected {
    let mut con = Connected::new();
    assert_eq!(con.update(ConMsg::UpdateQueue(entries)), Request::SongInfo);
    con
}

#[test]
fn next_target_prefers_the_current_song() {
    let mut queue = Queue::new();
    queue.update(vec![entry(1, "a.mp3"), entry(2, "b.mp3")]);
    let mut player = Player::new();
    assert_eq!(next_target(&player, &queue), None);
    player.update_status(status(Some(1), Some(2)));
    assert_eq!(next_target(&player, &queue), Some(SongId(1)));
    queue.update_coverart(SongId(1), None);
    assert_eq!(next_target(&player, &queue), Some(SongId(2)));
    queue.update_coverart(SongId(2), Some(vec![1]));
    assert_eq!(next_target(&player, &queue), None);
}

#[test]
fn next_target_never_names_a_known_cover() {
    let ids = [None, Some(1u64), Some(2), Some(3)];
    for known_1 in [false, true] {
        for known_2 in [false, true] {
            let mut queue = Queue::new();
            queue.update(vec![entry(1, "a.mp3"), entry(2, "b.mp3")]);
            if known_1 {
                queue.update_coverart(SongId(1), Some(vec![1]));
            }
            if known_2 {
                queue.update_coverart(SongId(2), None);
            }
            for current in ids {
                for next in ids {
                    let mut player = Player::new();
                    player.update_status(status(current, next));
                    if let Some(id) = next_target(&player, &queue) {
                        let info = queue.get(&id).expect("target is in the cache");
                        assert!(info.missing_cover);
                        assert!(Some(id.0) == current || Some(id.0) == next);
                    }
                }
            }
        }
    }
}

#[test]
fn next_target_is_the_same_until_state_changes() {
    let mut queue = Queue::new();
    queue.update(vec![entry(1, "a.mp3"), entry(2, "b.mp3")]);
    let mut player = Player::new();
    player.update_status(status(Some(2), Some(1)));
    let first = next_target(&player, &queue);
    assert_eq!(first, Some(SongId(2)));
    for _ in 0..5 {
        assert_eq!(next_target(&player, &queue), first);
    }
    player.toggle_show_options();
    player.set_volume(3);
    assert_eq!(next_target(&player, &queue), first);
}

#[test]
fn next_target_skips_songs_the_cache_does_not_hold() {
    let mut queue = Queue::new();
    queue.update(vec![entry(2, "b.mp3")]);
    let mut player = Player::new();
    player.update_status(status(Some(1), Some(2)));
    assert_eq!(next_target(&player, &queue), Some(SongId(2)));
    player.update_status(status(Some(1), Some(3)));
    assert_eq!(next_target(&player, &queue), None);
}

#[test]
fn notifications_ask_for_the_matching_data() {
    let mut con = Connected::new();
    assert_eq!(con.update(ConMsg::Change(Subsystem::Player)), Request::SongInfo);
    assert_eq!(con.update(ConMsg::Change(Subsystem::Queue)), Request::Queue);
    assert_eq!(con.update(ConMsg::Change(Subsystem::Mixer)), Request::Status);
    assert_eq!(con.update(ConMsg::Change(Subsystem::Options)), Request::Status);
    assert_eq!(con.update(ConMsg::Change(Subsystem::Other)), Request::Idle);
    assert_eq!(con.request_queue(), Request::Queue);
    assert_eq!(con.request_song_info(), Request::SongInfo);
    assert_eq!(con.request_status(), Request::Status);
}

#[test]
fn status_shows_the_current_song_and_fetches_its_cover() {
    let mut con = loaded(vec![entry(1, "a.mp3"), entry(2, "b.mp3")]);
    let req = con.update(ConMsg::UpdateSongInfo(status(Some(1), Some(2))));
    assert_eq!(req, Request::CoverArt(SongId(1), "a.mp3".to_string()));
    assert_eq!(con.title(), "song 1");
    assert!(con.is_playing());
    assert_eq!(con.player().get_current_id(), Some(SongId(1)));
    assert_eq!(con.player().get_next_id(), Some(SongId(2)));
    assert_eq!(con.pursue(), req);
}

#[test]
fn fetch_chain_runs_current_then_next_then_stops() {
    let mut con = loaded(vec![entry(1, "a.mp3"), entry(2, "b.mp3"), entry(3, "c.mp3")]);
    let req = con.update(ConMsg::UpdateSongInfo(status(Some(1), Some(2))));
    assert_eq!(req, Request::CoverArt(SongId(1), "a.mp3".to_string()));
    let req = con.update(ConMsg::UpdateCoverArt(SongId(1), Some(vec![1, 1])));
    assert_eq!(req, Request::CoverArt(SongId(2), "b.mp3".to_string()));
    // the song shown now carries its cover
    assert_eq!(con.player().song_info().unwrap().coverart, Some(vec![1, 1]));
    let req = con.update(ConMsg::UpdateCoverArt(SongId(2), None));
    assert_eq!(req, Request::Idle);
    assert_eq!(con.pursue(), Request::Idle);
    // a second status for the same songs asks for nothing
    let req = con.update(ConMsg::UpdateSongInfo(status(Some(1), Some(2))));
    assert_eq!(req, Request::Idle);
}

#[test]
fn status_without_current_song_clears_the_song_shown() {
    let mut con = loaded(vec![entry(1, "a.mp3"), entry(2, "b.mp3")]);
    con.update(ConMsg::UpdateSongInfo(status(Some(1), None)));
    assert_eq!(con.title(), "song 1");
    let req = con.update(ConMsg::UpdateSongInfo(status(None, None)));
    assert_eq!(req, Request::Idle);
    assert_eq!(con.title(), "Empty");
    assert!(con.player().song_info().is_none());
    // the next song is still fetched ahead
    let req = con.update(ConMsg::UpdateSongInfo(status(None, Some(2))));
    assert_eq!(req, Request::CoverArt(SongId(2), "b.mp3".to_string()));
}

#[test]
fn both_kinds_of_status_are_resolved_against_the_queue() {
    let mut con = loaded(vec![entry(1, "a.mp3")]);
    let req = con.update(ConMsg::UpdateStatus(status(Some(1), None)));
    assert_eq!(req, Request::CoverArt(SongId(1), "a.mp3".to_string()));
    assert_eq!(con.title(), "song 1");
    let req = con.update(ConMsg::UpdateStatus(status(Some(5), None)));
    assert_eq!(req, Request::Fail(Error::InvalidQueue));
}

#[test]
fn request_cover_art_only_for_missing_covers() {
    let mut con = loaded(vec![entry(1, "a.mp3")]);
    assert_eq!(
        con.request_cover_art(SongId(1)),
        Request::CoverArt(SongId(1), "a.mp3".to_string())
    );
    assert_eq!(con.request_cover_art(SongId(2)), Request::Idle);
    con.update(ConMsg::UpdateCoverArt(SongId(1), None));
    assert_eq!(con.request_cover_art(SongId(1)), Request::Idle);
}

#[test]
fn commands_go_to_the_server() {
    let mut con = Connected::new();
    for cmd in [
        Cmd::Play,
        Cmd::Pause,
        Cmd::Prev,
        Cmd::Next,
        Cmd::SetRandom(true),
        Cmd::SetRepeat(false),
        Cmd::SetConsume(true),
        Cmd::SkipForward(Duration::from_secs(5)),
        Cmd::SkipBackward(Duration::from_secs(5)),
        Cmd::Seek(Duration::from_millis(1500)),
        Cmd::SetVolume(10),
    ] {
        assert_eq!(con.update(ConMsg::Cmd(cmd)), Request::Command(cmd));
    }
    // without a status there is no volume to set
    assert_eq!(con.player().get_volume(), 0);
    assert_eq!(con.player().status(), None);
}

#[test]
fn command_results_and_redraws_change_nothing() {
    let mut con = loaded(vec![entry(1, "a.mp3")]);
    con.update(ConMsg::UpdateSongInfo(status(Some(1), None)));
    let before = con.player().status();
    let failed = CmdResult { cmd: Cmd::Next, error: Some("no such song".to_string()) };
    assert_eq!(con.update(ConMsg::CmdResult(failed)), Request::Idle);
    let fine = CmdResult { cmd: Cmd::Play, error: None };
    assert_eq!(con.update(ConMsg::CmdResult(fine)), Request::Idle);
    assert_eq!(con.update(ConMsg::Redraw), Request::Idle);
    assert_eq!(con.player().status(), before);
    assert_eq!(con.title(), "song 1");
    assert!(con.queue().get(&SongId(1)).unwrap().missing_cover);
}

#[test]
fn display_toggles_flip_flags() {
    let mut con = Connected::new();
    assert!(con.player().shows_options());
    assert_eq!(con.update(ConMsg::Toggle(Toggle::ShowOptions)), Request::Idle);
    assert!(!con.player().shows_options());
    assert_eq!(con.toggle(Toggle::ShowOptions), Request::Idle);
    assert!(con.player().shows_options());
    assert_eq!(con.toggle(Toggle::ShowSongInfo), Request::Idle);
    assert!(!con.player().shows_song_info());
    assert_eq!(con.toggle(Toggle::ShowCoverArt), Request::Idle);
    assert!(!con.player().shows_coverart());
    assert_eq!(con.toggle(Toggle::ShowProgress), Request::Idle);
    assert!(!con.player().shows_progress());
    assert!(con.player().shows_options());
}

#[test]
fn option_toggles_turn_the_present_setting_round() {
    let mut con = Connected::new();
    // nothing is known before the first status
    assert_eq!(con.toggle(Toggle::Random), Request::Idle);
    assert_eq!(con.toggle(Toggle::Loop), Request::Idle);
    assert_eq!(con.toggle(Toggle::Consume), Request::Idle);
    assert_eq!(con.toggle(Toggle::Play), Request::Command(Cmd::Play));
    con.update(ConMsg::UpdateStatus(status(None, None)));
    assert_eq!(con.toggle(Toggle::Random), Request::Command(Cmd::SetRandom(false)));
    assert_eq!(con.toggle(Toggle::Loop), Request::Command(Cmd::SetRepeat(true)));
    assert_eq!(con.toggle(Toggle::Consume), Request::Command(Cmd::SetConsume(true)));
    assert_eq!(con.toggle(Toggle::Play), Request::Command(Cmd::Pause));
    let mut paused = status(None, None);
    paused.state = PlayState::Paused;
    con.update(ConMsg::UpdateStatus(paused));
    assert_eq!(con.update(ConMsg::Toggle(Toggle::Play)), Request::Command(Cmd::Play));
}

#[test]
fn outcomes_become_messages() {
    assert_eq!(
        ConMsg::queue_loaded(Ok(vec![entry(1, "a.mp3")])),
        Ok(ConMsg::UpdateQueue(vec![entry(1, "a.mp3")]))
    );
    assert_eq!(ConMsg::queue_loaded(Err(Error::Disconnect)), Err(Error::Disconnect));
    let st = status(Some(1), None);
    assert_eq!(ConMsg::song_info_loaded(Ok(st)), Ok(ConMsg::UpdateSongInfo(st)));
    assert_eq!(
        ConMsg::song_info_loaded(Err(Error::MpdErrorResponse(50))),
        Err(Error::MpdErrorResponse(50))
    );
    assert_eq!(ConMsg::status_loaded(Ok(st)), Ok(ConMsg::UpdateStatus(st)));
    assert_eq!(
        ConMsg::status_loaded(Err(Error::Mpd("x".to_string()))),
        Err(Error::Mpd("x".to_string()))
    );
    let done = CmdResult { cmd: Cmd::Prev, error: Some("rejected".to_string()) };
    assert_eq!(ConMsg::command_done(done.clone()), Ok(ConMsg::CmdResult(done)));
}

#[test]
fn cover_art_outcomes() {
    let id = SongId(4);
    assert_eq!(
        ConMsg::cover_art_loaded(id, Ok(Some(vec![1, 2]))),
        Ok(ConMsg::UpdateCoverArt(id, Some(vec![1, 2])))
    );
    assert_eq!(ConMsg::cover_art_loaded(id, Ok(None)), Ok(ConMsg::UpdateCoverArt(id, None)));
    // the server does not have the file: no cover art, and no failure
    assert_eq!(
        ConMsg::cover_art_loaded(id, Err(Error::MpdErrorResponse(50))),
        Ok(ConMsg::UpdateCoverArt(id, None))
    );
    // any other error ends the connection
    assert_eq!(
        ConMsg::cover_art_loaded(id, Err(Error::MpdErrorResponse(51))),
        Err(Error::MpdErrorResponse(51))
    );
    assert_eq!(
        ConMsg::cover_art_loaded(id, Err(Error::MpdErrorResponse(5))),
        Err(Error::MpdErrorResponse(5))
    );
    assert_eq!(ConMsg::cover_art_loaded(id, Err(Error::Disconnect)), Err(Error::Disconnect));
    assert_eq!(
        ConMsg::cover_art_loaded(id, Err(Error::Mpd("50".to_string()))),
        Err(Error::Mpd("50".to_string()))
    );
}

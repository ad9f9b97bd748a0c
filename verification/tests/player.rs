use rustjay_404::player::{
    character_key, decoder_restart, needed_frame, player_frame_due, player_key, PlayerKey, PlayerState,
};

fn st(frame: u32, playing: bool, looping: bool) -> PlayerState {
    PlayerState { frame, playing, looping }
}

#[test]
fn player_keys() {
    let s = st(5, true, false);
    assert_eq!(player_key(s, PlayerKey::Space, 10), st(5, false, false));
    assert_eq!(player_key(s, PlayerKey::Left, 10), st(4, false, false));
    assert_eq!(player_key(st(0, true, false), PlayerKey::Left, 10), st(0, false, false));
    assert_eq!(player_key(s, PlayerKey::Right, 10), st(6, false, false));
    assert_eq!(player_key(st(9, true, false), PlayerKey::Right, 10), st(9, false, false));
    assert_eq!(player_key(st(3, true, false), PlayerKey::Right, 0), st(0, false, false));
    assert_eq!(player_key(s, PlayerKey::L, 10), st(5, true, true));
    assert_eq!(player_key(s, PlayerKey::R, 10), st(0, true, false));
    assert_eq!(character_key("L"), Some(PlayerKey::L));
    assert_eq!(character_key("r"), Some(PlayerKey::R));
    assert_eq!(character_key("x"), None);
}

#[test]
fn playback_wraps_when_looping_and_stops_otherwise() {
    assert_eq!(player_frame_due(st(3, true, false), 10), st(4, true, false));
    assert_eq!(player_frame_due(st(9, true, true), 10), st(0, true, true));
    assert_eq!(player_frame_due(st(9, true, false), 10), st(9, false, false));
    assert_eq!(player_frame_due(st(4, false, false), 10), st(4, false, false));
    assert_eq!(player_frame_due(st(0, true, false), 0), st(0, false, false));
}

#[test]
fn decoder_restarts_outside_its_window() {
    assert_eq!(decoder_restart(false, true, 40, 0), Some(40));
    assert_eq!(decoder_restart(false, false, 40, 0), Some(24));
    assert_eq!(decoder_restart(false, false, 10, 0), Some(0));
    assert_eq!(decoder_restart(true, true, 20, 10), None);
    assert_eq!(decoder_restart(true, true, 26, 10), None);
    assert_eq!(decoder_restart(true, true, 27, 10), Some(27));
    assert_eq!(decoder_restart(true, true, 5, 10), Some(5));
    assert_eq!(decoder_restart(true, false, 30, 40), None);
    assert_eq!(decoder_restart(true, false, 23, 40), Some(7));
    assert_eq!(decoder_restart(true, false, 41, 40), Some(25));
}

#[test]
fn needed_frames_stay_in_the_clip() {
    assert_eq!(needed_frame(10, 5, true, 100), 15);
    assert_eq!(needed_frame(98, 5, true, 100), 99);
    assert_eq!(needed_frame(10, 5, false, 100), 5);
    assert_eq!(needed_frame(3, 5, false, 100), 0);
}

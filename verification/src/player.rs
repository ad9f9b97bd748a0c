//! Simple player mode: the playback decisions of the standalone player
//! (keys, frame timing, looping) and of its streaming decoder (when to
//! restart decoding, and from which frame). The window, the GPU and the
//! decoder process belong to the application, which hands these functions
//! each key press, each due frame and each decoding step.

use vstd::prelude::*;
use crate::util::text::{spec_lowercase, str_eq, str_to_lowercase};

verus! {

/// Playback state of the simple player.
#[derive(Debug, Clone, Copy, PartialEq, Eq, Structural)]
pub struct PlayerState {
    /// Frame shown
    pub frame: u32,
    pub playing: bool,
    /// Wrap to the first frame at the end (`--loop-playback`)
    pub looping: bool,
}

/// Keys of the simple player (Escape, which quits, stays with the window).
#[derive(Debug, Clone, Copy, PartialEq, Eq, Structural)]
pub enum PlayerKey {
    /// Play / pause
    Space,
    /// Pause and step one frame back
    Left,
    /// Pause and step one frame forward
    Right,
    /// Toggle looping
    L,
    /// Back to frame 0
    R,
}

/// The last frame of a clip (0 for an empty one).
pub open spec fn spec_last_frame(frame_count: u32) -> u32 {
    if frame_count == 0 { 0 } else { (frame_count - 1) as u32 }
}

/// The state after a key press.
pub open spec fn spec_player_key(s: PlayerState, k: PlayerKey, frame_count: u32) -> PlayerState {
    match k {
        PlayerKey::Space => PlayerState { playing: !s.playing, ..s },
        PlayerKey::Left => PlayerState {
            frame: if s.frame == 0 { 0 } else { (s.frame - 1) as u32 },
            playing: false,
            ..s
        },
        PlayerKey::Right => PlayerState {
            frame: if s.frame + 1 < spec_last_frame(frame_count) {
                (s.frame + 1) as u32
            } else {
                spec_last_frame(frame_count)
            },
            playing: false,
            ..s
        },
        PlayerKey::L => PlayerState { looping: !s.looping, ..s },
        PlayerKey::R => PlayerState { frame: 0, ..s },
    }
}

/// The player key a character key gives: "l" or "r" in either case.
pub open spec fn spec_character_key(text: Seq<char>) -> Option<PlayerKey> {
    let k = spec_lowercase(text);
    if k == "l"@ {
        Some(PlayerKey::L)
    } else if k == "r"@ {
        Some(PlayerKey::R)
    } else {
        None
    }
}

/// The player key a character key stands for, if any.
pub fn character_key(text: &str) -> (k: Option<PlayerKey>)
    ensures
        k == spec_character_key(text@),
{
    let lower = str_to_lowercase(text);
    if str_eq(lower.as_str(), "l") {
        Some(PlayerKey::L)
    } else if str_eq(lower.as_str(), "r") {
        Some(PlayerKey::R)
    } else {
        None
    }
}

/// Handle a key of the simple player.
pub fn player_key(s: PlayerState, k: PlayerKey, frame_count: u32) -> (t: PlayerState)
    requires
        k is Right ==> s.frame < u32::MAX,
    ensures
        t == spec_player_key(s, k, frame_count),
{
    match k {
        PlayerKey::Space => PlayerState { playing: !s.playing, ..s },
        PlayerKey::Left => PlayerState { frame: s.frame.saturating_sub(1), playing: false, ..s },
        PlayerKey::Right => {
            let last = frame_count.saturating_sub(1);
            let next = s.frame + 1;
            PlayerState { frame: if next < last { next } else { last }, playing: false, ..s }
        },
        PlayerKey::L => PlayerState { looping: !s.looping, ..s },
        PlayerKey::R => PlayerState { frame: 0, ..s },
    }
}

/// The state when a frame is due.
pub open spec fn spec_player_frame_due(s: PlayerState, frame_count: u32) -> PlayerState {
    if !s.playing {
        s
    } else if s.frame + 1 < frame_count {
        PlayerState { frame: (s.frame + 1) as u32, ..s }
    } else if s.looping {
        PlayerState { frame: 0, ..s }
    } else {
        PlayerState { frame: spec_last_frame(frame_count), playing: false, ..s }
    }
}

/// A frame of the clip is due: a playing player moves to the next frame;
/// past the last frame it wraps to frame 0 when looping, and otherwise
/// stops on the last frame. A paused player stays.
pub fn player_frame_due(s: PlayerState, frame_count: u32) -> (t: PlayerState)
    requires
        s.playing ==> s.frame < u32::MAX,
    ensures
        t == spec_player_frame_due(s, frame_count),
        !s.playing ==> t == s,
        s.playing && s.frame + 1 < frame_count ==> t == (PlayerState { frame: (s.frame + 1) as u32, ..s }),
        s.playing && s.frame + 1 >= frame_count && s.looping ==> t == (PlayerState { frame: 0, ..s }),
        s.playing && s.frame + 1 >= frame_count && !s.looping ==> t == (PlayerState {
            frame: spec_last_frame(frame_count),
            playing: false,
            ..s
        }),
{
    if !s.playing {
        return s;
    }
    let next = s.frame + 1;
    if next < frame_count {
        PlayerState { frame: next, ..s }
    } else if s.looping {
        PlayerState { frame: 0, ..s }
    } else {
        PlayerState { frame: frame_count.saturating_sub(1), playing: false, ..s }
    }
}

/// Frames the decoder may run ahead of the frame it must deliver.
pub const DECODE_WINDOW: u32 = 16;

/// Whether the decoder must (re)start for the frame needed next, and from
/// which frame: when no stream runs, or the needed frame lies outside the
/// window of 16 frames ahead of the stream position in the playback
/// direction. Forward decoding starts at the needed frame; reverse decoding
/// starts 16 frames before it (at 0 at the latest), so that the needed frame
/// ends the window.
pub open spec fn spec_decoder_restart(streaming: bool, forward: bool, needed: u32, position: u32) -> Option<u32> {
    if !streaming || (forward && (needed < position || needed > position + 16)) || (!forward && (
    needed > position || needed + 16 < position)) {
        Some(
            if forward {
                needed
            } else if needed > 16 {
                (needed - 16) as u32
            } else {
                0
            },
        )
    } else {
        None
    }
}

/// Decide whether to restart the decoder, and from which frame.
pub fn decoder_restart(streaming: bool, forward: bool, needed: u32, position: u32) -> (start: Option<u32>)
    ensures
        start == spec_decoder_restart(streaming, forward, needed, position),
{
    let outside = if forward {
        needed < position || needed - position > DECODE_WINDOW
    } else {
        needed > position || position - needed > DECODE_WINDOW
    };
    if !streaming || outside {
        Some(
            if forward {
                needed
            } else if needed > DECODE_WINDOW {
                needed - DECODE_WINDOW
            } else {
                0
            },
        )
    } else {
        None
    }
}

/// The frame to decode next: as many frames past the frame on screen as the
/// buffer holds, in the playback direction, kept within the clip.
pub open spec fn spec_needed_frame(current: u32, buffered: usize, forward: bool, frame_count: u32) -> u32 {
    let target: int = if forward { current + buffered } else { current - buffered };
    if target < 0 {
        0
    } else if target > frame_count - 1 {
        (frame_count - 1) as u32
    } else {
        target as u32
    }
}

/// The frame the decoder must deliver next.
pub fn needed_frame(current: u32, buffered: usize, forward: bool, frame_count: u32) -> (f: u32)
    requires
        1 <= frame_count <= i32::MAX,
        current <= i32::MAX,
        buffered <= i32::MAX,
        forward ==> current + buffered <= i32::MAX,
    ensures
        f == spec_needed_frame(current, buffered, forward, frame_count),
        f < frame_count,
{
    let c = current as i64;
    let b = buffered as i64;
    let target = if forward { c + b } else { c - b };
    let last = frame_count as i64 - 1;
    if target < 0 {
        0
    } else if target > last {
        (frame_count - 1) as u32
    } else {
        target as u32
    }
}

/// Playback stays within the clip: without looping it ends on the last
/// frame; with looping it never stops on its own.
pub proof fn lemma_frame_due_stays_in_clip(s: PlayerState, frame_count: u32)
    requires
        frame_count > 0,
        s.frame < frame_count,
    ensures
        spec_player_frame_due(s, frame_count).frame < frame_count,
        s.playing && s.looping ==> spec_player_frame_due(s, frame_count).playing,
        s.playing && !spec_player_frame_due(s, frame_count).playing ==> spec_player_frame_due(
            s,
            frame_count,
        ).frame == frame_count - 1,
{
}

/// A restarted decoder's window holds the frame needed.
pub proof fn lemma_restart_covers_needed(forward: bool, needed: u32, position: u32)
    ensures
        spec_decoder_restart(false, forward, needed, position) matches Some(start) && (if forward {
            start == needed
        } else {
            start <= needed && needed <= start + 16
        }),
{
}

} // verus!

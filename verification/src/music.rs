//! Background music control: on every tick of the music loop the game
//! state decides whether the adventure track starts, keeps playing, or all
//! sounds fade out.

use vstd::prelude::*;

verus! {

/// The states the game can be in.
#[derive(Clone, Copy, Debug, PartialEq, Eq, Structural)]
pub enum GameState {
    Ready,
    Playing,
    Dead,
    Lair,
    Quitting,
}

/// What the music loop does on a tick.
#[derive(Clone, Debug, PartialEq, Eq)]
pub enum MusicAction {
    /// Fade every active sound out and pause it.
    FadeOutAll,
    /// Start playing the named track at full volume.
    Play(String),
    /// Leave the current track playing.
    KeepPlaying,
}

/// The name of the adventure track.
pub open spec fn adventure_track() -> Seq<char> {
    "midnight_wander"@
}

/// The track that should be playing in a game state: the adventure track
/// while playing, none otherwise.
pub open spec fn wanted_track(state: GameState) -> Option<Seq<char>> {
    if state == GameState::Playing {
        Some(adventure_track())
    } else {
        None
    }
}

/// The current track's name, if one is playing.
pub open spec fn track_view(track: Option<String>) -> Option<Seq<char>> {
    match track {
        Some(t) => Some(t@),
        None => None,
    }
}

/// Whether a tick in `state` with `current` playing starts a track.
pub open spec fn starts_track(state: GameState, current: Option<Seq<char>>) -> bool {
    wanted_track(state) is Some && wanted_track(state) != current
}

/// One tick of the music loop. Outside the playing state every sound fades
/// out and no track is current; while playing, the adventure track starts
/// unless it is already the current track.
pub fn music_step(state: GameState, current_track: &mut Option<String>) -> (action: MusicAction)
    ensures
        track_view(*final(current_track)) == wanted_track(state),
        action is Play <==> starts_track(state, track_view(*old(current_track))),
        wanted_track(state) is None ==> action == MusicAction::FadeOutAll && *final(current_track) is None,
        wanted_track(state) is Some && wanted_track(state) != track_view(*old(current_track)) ==> (
        action matches MusicAction::Play(t) && t@ == adventure_track()) && track_view(
            *final(current_track),
        ) == Some(adventure_track()),
        wanted_track(state) is Some && wanted_track(state) == track_view(*old(current_track)) ==> action
            == MusicAction::KeepPlaying && *final(current_track) == *old(current_track),
{
    let playing = match state {
        GameState::Playing => true,
        _ => false,
    };
    if !playing {
        *current_track = None;
        return MusicAction::FadeOutAll;
    }
    let track_name = String::from_str("midnight_wander");
    proof {
        reveal_strlit("midnight_wander");
    }
    let same = match current_track {
        Some(current) => track_name == *current,
        None => false,
    };
    if same {
        MusicAction::KeepPlaying
    } else {
        *current_track = Some(track_name.clone());
        MusicAction::Play(track_name)
    }
}

/// A track starts at most once per stretch of one game state: after any
/// tick the current track is the one the state wants, so a further tick in
/// the same state starts nothing.
pub proof fn lemma_track_starts_once(state: GameState)
    ensures
        !starts_track(state, wanted_track(state)),
{
}

} // verus!

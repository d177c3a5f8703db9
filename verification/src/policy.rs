//! The safety policy that the client applies before it sends a command: a
//! ceiling on the volume, bounds on volume steps, and the rule for changing
//! between playing and pausing.

use crate::types::PlayState;
use vstd::prelude::*;

verus! {

/// The highest volume level that the client asks a player for. It protects
/// the loudspeakers from a command that would set them to full volume by
/// accident, and cannot be changed while the program runs.
pub const MAX_VOLUME_LIMIT: u8 = 75;

/// The smallest step by which the volume is raised or lowered.
pub const MIN_VOLUME_STEP: u8 = 1;

/// The largest step by which the volume is raised or lowered.
pub const MAX_VOLUME_STEP: u8 = 10;

/// The level that is sent for a requested level: the level itself up to the
/// ceiling, and the ceiling above it.
pub open spec fn capped_level(level: u8) -> u8 {
    if level <= MAX_VOLUME_LIMIT {
        level
    } else {
        MAX_VOLUME_LIMIT
    }
}

/// Caps a requested level at the ceiling.
pub fn cap_level(level: u8) -> (capped: u8)
    ensures
        capped == capped_level(level),
{
    if level <= MAX_VOLUME_LIMIT {
        level
    } else {
        MAX_VOLUME_LIMIT
    }
}

/// The step that is taken for a requested step: the nearest step between
/// the smallest and the largest.
pub open spec fn clamped_step(step: u8) -> u8 {
    if step < MIN_VOLUME_STEP {
        MIN_VOLUME_STEP
    } else if step > MAX_VOLUME_STEP {
        MAX_VOLUME_STEP
    } else {
        step
    }
}

/// Brings a requested step between the smallest and the largest.
pub fn clamp_step(step: u8) -> (clamped: u8)
    ensures
        clamped == clamped_step(step),
{
    if step < MIN_VOLUME_STEP {
        MIN_VOLUME_STEP
    } else if step > MAX_VOLUME_STEP {
        MAX_VOLUME_STEP
    } else {
        step
    }
}

/// The step by which the volume is raised from `current` when `step` is
/// asked for: none at or above the ceiling; below it the clamped step, or
/// what is left up to the ceiling if that is less.
pub open spec fn safe_step(current: u8, step: u8) -> Option<u8> {
    if current >= MAX_VOLUME_LIMIT {
        None
    } else if clamped_step(step) <= MAX_VOLUME_LIMIT - current {
        Some(clamped_step(step))
    } else {
        Some((MAX_VOLUME_LIMIT - current) as u8)
    }
}

/// Decides by how much the volume is raised from `current`, if at all.
pub fn safe_volume_step(current: u8, step: u8) -> (safe: Option<u8>)
    ensures
        safe == safe_step(current, step),
{
    if current >= MAX_VOLUME_LIMIT {
        return None;
    }
    let wanted: u8 = clamp_step(step);
    let room: u8 = MAX_VOLUME_LIMIT - current;
    let safe: u8 = if wanted <= room {
        wanted
    } else {
        room
    };
    if safe == 0 {
        return None;
    }
    Some(safe)
}

/// The state that a player is put in when it is toggled: a playing one is
/// paused, and a paused or stopped one plays.
pub open spec fn toggled(current: PlayState) -> PlayState {
    match current {
        PlayState::Play => PlayState::Pause,
        PlayState::Pause => PlayState::Play,
        PlayState::Stop => PlayState::Play,
    }
}

/// Decides the state that a player in state `current` is toggled to.
pub fn toggle(current: PlayState) -> (next: PlayState)
    ensures
        next == toggled(current),
{
    match current {
        PlayState::Play => PlayState::Pause,
        PlayState::Pause | PlayState::Stop => PlayState::Play,
    }
}

} // verus!

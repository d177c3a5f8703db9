//! The command surface: one operation of the client for each thing a player
//! can be asked or told. Every operation begins an exchange and gives its
//! first step; the operations whose names end in `_current` address the
//! player that the client is configured for.

use crate::client::HeosClient;
use crate::codec::{
    browse_source_command, browse_source_text, clear_queue_command, clear_queue_text,
    get_music_sources_command, get_music_sources_text, get_mute_command, get_mute_text,
    get_now_playing_command, get_now_playing_text, get_play_mode_command, get_play_mode_text,
    get_play_state_command, get_play_state_text, get_player_info_command, get_player_info_text,
    get_players_command, get_players_text, get_volume_command, get_volume_text,
    heartbeat_command, heartbeat_text, play_input_command, play_input_text, play_next_command,
    play_next_text, play_preset_command, play_preset_text, play_previous_command,
    play_previous_text, play_url_command, play_url_text, prettify_json_command,
    prettify_json_text, reboot_command, reboot_text, register_for_change_events_command,
    register_for_change_events_text, set_mute_command, set_mute_text, set_play_mode_command,
    set_play_mode_text, set_play_state_command, set_play_state_text, set_volume_command,
    set_volume_text, toggle_mute_command, toggle_mute_text, volume_down_command,
    volume_down_text,
};
use crate::exchange::{Expect, Step};
use crate::policy::{cap_level, capped_level, clamp_step, clamped_step};
use crate::types::inputs::OPTICAL_IN_1;
use crate::types::source_ids::{FAVORITES, SPOTIFY};
use crate::types::{MuteState, PlayState, RepeatMode, ShuffleMode};
use vstd::prelude::*;

pub use crate::policy::MAX_VOLUME_LIMIT;

verus! {

// ---------------------------------------------------------------------------
// System commands
// ---------------------------------------------------------------------------

impl HeosClient {
    /// Asks the player whether it is there.
    pub fn heartbeat(&self) -> (first: Step)
        ensures
            first@ == self@.submitted(heartbeat_text(), Some(Expect::Ack)),
    {
        self.submit(heartbeat_command(), Some(Expect::Ack))
    }

    /// Turns the player's announcements of changes on or off. The client
    /// does not listen for the announcements.
    pub fn register_for_change_events(&self, enable: bool) -> (first: Step)
        ensures
            first@ == self@.submitted(register_for_change_events_text(enable), Some(Expect::Ack)),
    {
        self.submit(register_for_change_events_command(enable), Some(Expect::Ack))
    }

    /// Turns the indenting of responses on or off.
    pub fn prettify_json(&self, enable: bool) -> (first: Step)
        ensures
            first@ == self@.submitted(prettify_json_text(enable), Some(Expect::Ack)),
    {
        self.submit(prettify_json_command(enable), Some(Expect::Ack))
    }

    /// Tells the player to restart.
    pub fn reboot(&self) -> (first: Step)
        ensures
            first@ == self@.submitted(reboot_text(), Some(Expect::Ack)),
    {
        self.submit(reboot_command(), Some(Expect::Ack))
    }
}

// ---------------------------------------------------------------------------
// Player commands
// ---------------------------------------------------------------------------

impl HeosClient {
    /// Asks for the players on the network. A response without a payload
    /// gives an empty list.
    pub fn get_players(&self) -> (first: Step)
        ensures
            first@ == self@.submitted(get_players_text(), Some(Expect::Players)),
    {
        self.submit(get_players_command(), Some(Expect::Players))
    }

    /// Asks for what player `pid` says of itself. A response without a
    /// payload gives a record with empty texts, the id zero and no more.
    pub fn get_player_info(&self, pid: i64) -> (first: Step)
        ensures
            first@ == self@.submitted(get_player_info_text(pid), Some(Expect::Player)),
    {
        self.submit(get_player_info_command(pid), Some(Expect::Player))
    }

    /// Asks whether player `pid` plays, pauses or has stopped.
    pub fn get_play_state(&self, pid: i64) -> (first: Step)
        ensures
            first@ == self@.submitted(get_play_state_text(pid), Some(Expect::PlayState)),
    {
        self.submit(get_play_state_command(pid), Some(Expect::PlayState))
    }

    /// Asks whether the configured player plays, pauses or has stopped.
    pub fn get_play_state_current(&self) -> (first: Step)
        ensures
            first@ == self@.submitted(
                get_play_state_text(self@.player_id),
                Some(Expect::PlayState),
            ),
    {
        self.get_play_state(self.player_id())
    }

    /// Tells player `pid` to play, to pause or to stop.
    pub fn set_play_state(&self, pid: i64, state: PlayState) -> (first: Step)
        ensures
            first@ == self@.submitted(set_play_state_text(pid, state), Some(Expect::Ack)),
    {
        self.submit(set_play_state_command(pid, state), Some(Expect::Ack))
    }

    /// Tells the configured player to play, to pause or to stop.
    pub fn set_play_state_current(&self, state: PlayState) -> (first: Step)
        ensures
            first@ == self@.submitted(
                set_play_state_text(self@.player_id, state),
                Some(Expect::Ack),
            ),
    {
        self.set_play_state(self.player_id(), state)
    }

    /// Tells the configured player to play.
    pub fn play(&self) -> (first: Step)
        ensures
            first@ == self@.submitted(
                set_play_state_text(self@.player_id, PlayState::Play),
                Some(Expect::Ack),
            ),
    {
        self.set_play_state_current(PlayState::Play)
    }

    /// Tells the configured player to pause.
    pub fn pause(&self) -> (first: Step)
        ensures
            first@ == self@.submitted(
                set_play_state_text(self@.player_id, PlayState::Pause),
                Some(Expect::Ack),
            ),
    {
        self.set_play_state_current(PlayState::Pause)
    }

    /// Tells the configured player to stop.
    pub fn stop(&self) -> (first: Step)
        ensures
            first@ == self@.submitted(
                set_play_state_text(self@.player_id, PlayState::Stop),
                Some(Expect::Ack),
            ),
    {
        self.set_play_state_current(PlayState::Stop)
    }

    /// Changes the configured player between playing and pausing: its state
    /// is asked for first, then a playing player is paused and a paused or
    /// stopped one is told to play. The outcome is the state it was put in.
    pub fn toggle_play_pause(&self) -> (first: Step)
        ensures
            first@ == self@.submitted(
                get_play_state_text(self@.player_id),
                Some(Expect::PlayStateToToggle { pid: self@.player_id }),
            ),
    {
        let pid: i64 = self.player_id();
        self.submit(get_play_state_command(pid), Some(Expect::PlayStateToToggle { pid }))
    }

    /// Asks what player `pid` is playing. A response without a payload
    /// gives a record with no field filled in.
    pub fn get_now_playing(&self, pid: i64) -> (first: Step)
        ensures
            first@ == self@.submitted(get_now_playing_text(pid), Some(Expect::NowPlaying)),
    {
        self.submit(get_now_playing_command(pid), Some(Expect::NowPlaying))
    }

    /// Asks what the configured player is playing.
    pub fn get_now_playing_current(&self) -> (first: Step)
        ensures
            first@ == self@.submitted(
                get_now_playing_text(self@.player_id),
                Some(Expect::NowPlaying),
            ),
    {
        self.get_now_playing(self.player_id())
    }

    /// Asks for the volume level of player `pid`.
    pub fn get_volume(&self, pid: i64) -> (first: Step)
        ensures
            first@ == self@.submitted(get_volume_text(pid), Some(Expect::Volume)),
    {
        self.submit(get_volume_command(pid), Some(Expect::Volume))
    }

    /// Asks for the volume level of the configured player.
    pub fn get_volume_current(&self) -> (first: Step)
        ensures
            first@ == self@.submitted(get_volume_text(self@.player_id), Some(Expect::Volume)),
    {
        self.get_volume(self.player_id())
    }

    /// Sets the volume of player `pid` to `level`, or to the ceiling where
    /// `level` is above it. A level above the ceiling is never sent.
    pub fn set_volume(&self, pid: i64, level: u8) -> (first: Step)
        ensures
            first@ == self@.submitted(set_volume_text(pid, capped_level(level)), Some(Expect::Ack)),
    {
        let level: u8 = cap_level(level);
        self.submit(set_volume_command(pid, level), Some(Expect::Ack))
    }

    /// Sets the volume of the configured player to `level`, or to the
    /// ceiling where `level` is above it.
    pub fn set_volume_current(&self, level: u8) -> (first: Step)
        ensures
            first@ == self@.submitted(
                set_volume_text(self@.player_id, capped_level(level)),
                Some(Expect::Ack),
            ),
    {
        self.set_volume(self.player_id(), level)
    }

    /// Raises the volume of player `pid` by `step`, as far as is safe. The
    /// level is asked for first. At or above the ceiling nothing more is
    /// sent; below it the step is brought between 1 and 10 and cut to what
    /// is left up to the ceiling.
    pub fn volume_up(&self, pid: i64, step: u8) -> (first: Step)
        ensures
            first@ == self@.submitted(
                get_volume_text(pid),
                Some(Expect::VolumeToRaise { pid, step }),
            ),
    {
        self.submit(get_volume_command(pid), Some(Expect::VolumeToRaise { pid, step }))
    }

    /// Raises the volume of the configured player by `step`, as far as is safe.
    pub fn volume_up_current(&self, step: u8) -> (first: Step)
        ensures
            first@ == self@.submitted(
                get_volume_text(self@.player_id),
                Some(Expect::VolumeToRaise { pid: self@.player_id, step }),
            ),
    {
        self.volume_up(self.player_id(), step)
    }

    /// Lowers the volume of player `pid` by `step`, brought between 1 and 10.
    pub fn volume_down(&self, pid: i64, step: u8) -> (first: Step)
        ensures
            first@ == self@.submitted(volume_down_text(pid, clamped_step(step)), Some(Expect::Ack)),
    {
        let step: u8 = clamp_step(step);
        self.submit(volume_down_command(pid, step), Some(Expect::Ack))
    }

    /// Lowers the volume of the configured player by `step`, brought
    /// between 1 and 10.
    pub fn volume_down_current(&self, step: u8) -> (first: Step)
        ensures
            first@ == self@.submitted(
                volume_down_text(self@.player_id, clamped_step(step)),
                Some(Expect::Ack),
            ),
    {
        self.volume_down(self.player_id(), step)
    }

    /// Asks whether player `pid` is muted.
    pub fn get_mute(&self, pid: i64) -> (first: Step)
        ensures
            first@ == self@.submitted(get_mute_text(pid), Some(Expect::Mute)),
    {
        self.submit(get_mute_command(pid), Some(Expect::Mute))
    }

    /// Asks whether the configured player is muted.
    pub fn get_mute_current(&self) -> (first: Step)
        ensures
            first@ == self@.submitted(get_mute_text(self@.player_id), Some(Expect::Mute)),
    {
        self.get_mute(self.player_id())
    }

    /// Mutes player `pid` or ends its muting.
    pub fn set_mute(&self, pid: i64, state: MuteState) -> (first: Step)
        ensures
            first@ == self@.submitted(set_mute_text(pid, state), Some(Expect::Ack)),
    {
        self.submit(set_mute_command(pid, state), Some(Expect::Ack))
    }

    /// Mutes the configured player or ends its muting.
    pub fn set_mute_current(&self, state: MuteState) -> (first: Step)
        ensures
            first@ == self@.submitted(set_mute_text(self@.player_id, state), Some(Expect::Ack)),
    {
        self.set_mute(self.player_id(), state)
    }

    /// Tells player `pid` to change from muted to not muted or back.
    pub fn toggle_mute(&self, pid: i64) -> (first: Step)
        ensures
            first@ == self@.submitted(toggle_mute_text(pid), Some(Expect::Ack)),
    {
        self.submit(toggle_mute_command(pid), Some(Expect::Ack))
    }

    /// Tells the configured player to change from muted to not muted or back.
    pub fn toggle_mute_current(&self) -> (first: Step)
        ensures
            first@ == self@.submitted(toggle_mute_text(self@.player_id), Some(Expect::Ack)),
    {
        self.toggle_mute(self.player_id())
    }

    /// Tells player `pid` to go to the next track.
    pub fn play_next(&self, pid: i64) -> (first: Step)
        ensures
            first@ == self@.submitted(play_next_text(pid), Some(Expect::Ack)),
    {
        self.submit(play_next_command(pid), Some(Expect::Ack))
    }

    /// Tells the configured player to go to the next track.
    pub fn play_next_current(&self) -> (first: Step)
        ensures
            first@ == self@.submitted(play_next_text(self@.player_id), Some(Expect::Ack)),
    {
        self.play_next(self.player_id())
    }

    /// Tells player `pid` to go to the previous track.
    pub fn play_previous(&self, pid: i64) -> (first: Step)
        ensures
            first@ == self@.submitted(play_previous_text(pid), Some(Expect::Ack)),
    {
        self.submit(play_previous_command(pid), Some(Expect::Ack))
    }

    /// Tells the configured player to go to the previous track.
    pub fn play_previous_current(&self) -> (first: Step)
        ensures
            first@ == self@.submitted(play_previous_text(self@.player_id), Some(Expect::Ack)),
    {
        self.play_previous(self.player_id())
    }

    /// Asks for the repeat and shuffle modes of player `pid`. A mode that
    /// the response leaves out, or names in a way that is not understood,
    /// counts as off.
    pub fn get_play_mode(&self, pid: i64) -> (first: Step)
        ensures
            first@ == self@.submitted(get_play_mode_text(pid), Some(Expect::PlayMode)),
    {
        self.submit(get_play_mode_command(pid), Some(Expect::PlayMode))
    }

    /// Sets the repeat and shuffle modes of player `pid`.
    pub fn set_play_mode(&self, pid: i64, repeat: RepeatMode, shuffle: ShuffleMode) -> (first: Step)
        ensures
            first@ == self@.submitted(set_play_mode_text(pid, repeat, shuffle), Some(Expect::Ack)),
    {
        self.submit(set_play_mode_command(pid, repeat, shuffle), Some(Expect::Ack))
    }

    /// Tells player `pid` to empty its queue.
    pub fn clear_queue(&self, pid: i64) -> (first: Step)
        ensures
            first@ == self@.submitted(clear_queue_text(pid), Some(Expect::Ack)),
    {
        self.submit(clear_queue_command(pid), Some(Expect::Ack))
    }

    /// Tells the configured player to empty its queue.
    pub fn clear_queue_current(&self) -> (first: Step)
        ensures
            first@ == self@.submitted(clear_queue_text(self@.player_id), Some(Expect::Ack)),
    {
        self.clear_queue(self.player_id())
    }
}

// ---------------------------------------------------------------------------
// Browse commands
// ---------------------------------------------------------------------------

impl HeosClient {
    /// Asks for the music sources. A response without a payload gives an
    /// empty list.
    pub fn get_music_sources(&self) -> (first: Step)
        ensures
            first@ == self@.submitted(get_music_sources_text(), Some(Expect::Sources)),
    {
        self.submit(get_music_sources_command(), Some(Expect::Sources))
    }

    /// Tells player `pid` to play one of its inputs.
    pub fn play_input(&self, pid: i64, input: &str) -> (first: Step)
        ensures
            first@ == self@.submitted(play_input_text(pid, input@), Some(Expect::Ack)),
    {
        self.submit(play_input_command(pid, input), Some(Expect::Ack))
    }

    /// Tells the configured player to play one of its inputs.
    pub fn play_input_current(&self, input: &str) -> (first: Step)
        ensures
            first@ == self@.submitted(play_input_text(self@.player_id, input@), Some(Expect::Ack)),
    {
        self.play_input(self.player_id(), input)
    }

    /// Tells the configured player to play the first optical input, where
    /// the television is plugged in.
    pub fn play_tv(&self) -> (first: Step)
        ensures
            first@ == self@.submitted(
                play_input_text(self@.player_id, OPTICAL_IN_1@),
                Some(Expect::Ack),
            ),
    {
        self.play_input_current(OPTICAL_IN_1)
    }

    /// Tells player `pid` to play one of the stations kept as favourites.
    pub fn play_preset(&self, pid: i64, preset: u8) -> (first: Step)
        ensures
            first@ == self@.submitted(play_preset_text(pid, preset), Some(Expect::Ack)),
    {
        self.submit(play_preset_command(pid, preset), Some(Expect::Ack))
    }

    /// Tells the configured player to play one of the stations kept as
    /// favourites.
    pub fn play_preset_current(&self, preset: u8) -> (first: Step)
        ensures
            first@ == self@.submitted(play_preset_text(self@.player_id, preset), Some(Expect::Ack)),
    {
        self.play_preset(self.player_id(), preset)
    }

    /// Tells player `pid` to play the stream at an address.
    pub fn play_url(&self, pid: i64, url: &str) -> (first: Step)
        ensures
            first@ == self@.submitted(play_url_text(pid, url@), Some(Expect::Ack)),
    {
        self.submit(play_url_command(pid, url), Some(Expect::Ack))
    }

    /// Tells the configured player to play the stream at an address.
    pub fn play_url_current(&self, url: &str) -> (first: Step)
        ensures
            first@ == self@.submitted(play_url_text(self@.player_id, url@), Some(Expect::Ack)),
    {
        self.play_url(self.player_id(), url)
    }

    /// Asks for what music source `sid` holds. The outcome is the response
    /// as it came, undecoded: what a source lists depends on the source.
    pub fn browse_source(&self, sid: i64) -> (first: Step)
        ensures
            first@ == self@.submitted(browse_source_text(sid), None),
    {
        self.submit(browse_source_command(sid), None)
    }

    /// Asks for what Spotify holds.
    pub fn browse_spotify(&self) -> (first: Step)
        ensures
            first@ == self@.submitted(browse_source_text(SPOTIFY), None),
    {
        self.browse_source(SPOTIFY)
    }

    /// Asks for the favourites.
    pub fn browse_favorites(&self) -> (first: Step)
        ensures
            first@ == self@.submitted(browse_source_text(FAVORITES), None),
    {
        self.browse_source(FAVORITES)
    }
}

} // verus!

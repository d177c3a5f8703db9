//! The wire codec: the text of each command, and the framing of lines.
//!
//! A command is a `heos://` address with its arguments as `key=value` pairs
//! after a `?`, joined by `&`. Argument text is sent as the caller gives it.

use crate::text::{append_decimal, decimal, trim, trimmed};
use crate::types::{MuteState, PlayState, RepeatMode, ShuffleMode};
use vstd::prelude::*;

verus! {

// ---------------------------------------------------------------------------
// Framing
// ---------------------------------------------------------------------------

/// A command as it goes on the wire: its text, then carriage return and line feed.
pub open spec fn framed(command: Seq<char>) -> Seq<char> {
    command + "\r\n"@
}

/// Ends `command` with carriage return and line feed.
pub fn frame(command: &str) -> (line: String)
    ensures
        line@ == framed(command@),
{
    let mut line = command.to_owned();
    line.append("\r\n");
    line
}

/// The response that a line read from the wire carries: the line without the
/// white space at its ends, which takes the line terminator with it.
pub open spec fn unframed(line: Seq<char>) -> Seq<char> {
    trimmed(line)
}

/// Takes the response out of a line read from the wire.
pub fn unframe(line: &str) -> (text: String)
    ensures
        text@ == unframed(line@),
{
    trim(line).to_owned()
}

/// `on` or `off`.
pub open spec fn switch_word(enable: bool) -> Seq<char> {
    if enable {
        "on"@
    } else {
        "off"@
    }
}

fn switch_text(enable: bool) -> (word: &'static str)
    ensures
        word@ == switch_word(enable),
{
    if enable {
        "on"
    } else {
        "off"
    }
}

fn with_number(head: &str, n: i64) -> (text: String)
    ensures
        text@ == head@ + decimal(n as int),
{
    let mut text = head.to_owned();
    append_decimal(&mut text, n);
    text
}

// ---------------------------------------------------------------------------
// System commands
// ---------------------------------------------------------------------------

/// Asks the player whether it is there.
pub open spec fn heartbeat_text() -> Seq<char> {
    "heos://system/heart_beat"@
}

/// Asks the player whether it is there.
pub fn heartbeat_command() -> (command: String)
    ensures
        command@ == heartbeat_text(),
{
    "heos://system/heart_beat".to_owned()
}

/// Turns the player's announcements of changes on or off.
pub open spec fn register_for_change_events_text(enable: bool) -> Seq<char> {
    "heos://system/register_for_change_events?enable="@ + switch_word(enable)
}

/// Turns the player's announcements of changes on or off.
pub fn register_for_change_events_command(enable: bool) -> (command: String)
    ensures
        command@ == register_for_change_events_text(enable),
{
    let mut command = "heos://system/register_for_change_events?enable=".to_owned();
    command.append(switch_text(enable));
    command
}

/// Turns the indenting of responses on or off.
pub open spec fn prettify_json_text(enable: bool) -> Seq<char> {
    "heos://system/prettify_json_response?enable="@ + switch_word(enable)
}

/// Turns the indenting of responses on or off.
pub fn prettify_json_command(enable: bool) -> (command: String)
    ensures
        command@ == prettify_json_text(enable),
{
    let mut command = "heos://system/prettify_json_response?enable=".to_owned();
    command.append(switch_text(enable));
    command
}

/// Tells the player to restart.
pub open spec fn reboot_text() -> Seq<char> {
    "heos://system/reboot"@
}

/// Tells the player to restart.
pub fn reboot_command() -> (command: String)
    ensures
        command@ == reboot_text(),
{
    "heos://system/reboot".to_owned()
}

// ---------------------------------------------------------------------------
// Player commands
// ---------------------------------------------------------------------------

/// Asks for the players on the network.
pub open spec fn get_players_text() -> Seq<char> {
    "heos://player/get_players"@
}

/// Asks for the players on the network.
pub fn get_players_command() -> (command: String)
    ensures
        command@ == get_players_text(),
{
    "heos://player/get_players".to_owned()
}

/// Asks for what the player says of itself.
pub open spec fn get_player_info_text(pid: i64) -> Seq<char> {
    "heos://player/get_player_info?pid="@ + decimal(pid as int)
}

/// Asks for what the player says of itself.
pub fn get_player_info_command(pid: i64) -> (command: String)
    ensures
        command@ == get_player_info_text(pid),
{
    with_number("heos://player/get_player_info?pid=", pid)
}

/// Asks whether the player plays, pauses or has stopped.
pub open spec fn get_play_state_text(pid: i64) -> Seq<char> {
    "heos://player/get_play_state?pid="@ + decimal(pid as int)
}

/// Asks whether the player plays, pauses or has stopped.
pub fn get_play_state_command(pid: i64) -> (command: String)
    ensures
        command@ == get_play_state_text(pid),
{
    with_number("heos://player/get_play_state?pid=", pid)
}

/// Tells the player to play, to pause or to stop.
pub open spec fn set_play_state_text(pid: i64, state: PlayState) -> Seq<char> {
    "heos://player/set_play_state?pid="@ + decimal(pid as int) + "&state="@ + state.wire()
}

/// Tells the player to play, to pause or to stop.
pub fn set_play_state_command(pid: i64, state: PlayState) -> (command: String)
    ensures
        command@ == set_play_state_text(pid, state),
{
    let mut command = with_number("heos://player/set_play_state?pid=", pid);
    command.append("&state=");
    command.append(state.as_str());
    command
}

/// Asks what the player is playing.
pub open spec fn get_now_playing_text(pid: i64) -> Seq<char> {
    "heos://player/get_now_playing_media?pid="@ + decimal(pid as int)
}

/// Asks what the player is playing.
pub fn get_now_playing_command(pid: i64) -> (command: String)
    ensures
        command@ == get_now_playing_text(pid),
{
    with_number("heos://player/get_now_playing_media?pid=", pid)
}

/// Asks for the player's volume level.
pub open spec fn get_volume_text(pid: i64) -> Seq<char> {
    "heos://player/get_volume?pid="@ + decimal(pid as int)
}

/// Asks for the player's volume level.
pub fn get_volume_command(pid: i64) -> (command: String)
    ensures
        command@ == get_volume_text(pid),
{
    with_number("heos://player/get_volume?pid=", pid)
}

/// Sets the player's volume to `level`.
pub open spec fn set_volume_text(pid: i64, level: u8) -> Seq<char> {
    "heos://player/set_volume?pid="@ + decimal(pid as int) + "&level="@ + decimal(level as int)
}

/// Sets the player's volume to `level`.
pub fn set_volume_command(pid: i64, level: u8) -> (command: String)
    ensures
        command@ == set_volume_text(pid, level),
{
    let mut command = with_number("heos://player/set_volume?pid=", pid);
    command.append("&level=");
    append_decimal(&mut command, level as i64);
    command
}

/// Raises the player's volume by `step`.
pub open spec fn volume_up_text(pid: i64, step: u8) -> Seq<char> {
    "heos://player/volume_up?pid="@ + decimal(pid as int) + "&step="@ + decimal(step as int)
}

/// Raises the player's volume by `step`.
pub fn volume_up_command(pid: i64, step: u8) -> (command: String)
    ensures
        command@ == volume_up_text(pid, step),
{
    let mut command = with_number("heos://player/volume_up?pid=", pid);
    command.append("&step=");
    append_decimal(&mut command, step as i64);
    command
}

/// Lowers the player's volume by `step`.
pub open spec fn volume_down_text(pid: i64, step: u8) -> Seq<char> {
    "heos://player/volume_down?pid="@ + decimal(pid as int) + "&step="@ + decimal(step as int)
}

/// Lowers the player's volume by `step`.
pub fn volume_down_command(pid: i64, step: u8) -> (command: String)
    ensures
        command@ == volume_down_text(pid, step),
{
    let mut command = with_number("heos://player/volume_down?pid=", pid);
    command.append("&step=");
    append_decimal(&mut command, step as i64);
    command
}

/// Asks whether the player is muted.
pub open spec fn get_mute_text(pid: i64) -> Seq<char> {
    "heos://player/get_mute?pid="@ + decimal(pid as int)
}

/// Asks whether the player is muted.
pub fn get_mute_command(pid: i64) -> (command: String)
    ensures
        command@ == get_mute_text(pid),
{
    with_number("heos://player/get_mute?pid=", pid)
}

/// Mutes the player or ends its muting.
pub open spec fn set_mute_text(pid: i64, state: MuteState) -> Seq<char> {
    "heos://player/set_mute?pid="@ + decimal(pid as int) + "&state="@ + state.wire()
}

/// Mutes the player or ends its muting.
pub fn set_mute_command(pid: i64, state: MuteState) -> (command: String)
    ensures
        command@ == set_mute_text(pid, state),
{
    let mut command = with_number("heos://player/set_mute?pid=", pid);
    command.append("&state=");
    command.append(state.as_str());
    command
}

/// Tells the player to change from muted to not muted or back.
pub open spec fn toggle_mute_text(pid: i64) -> Seq<char> {
    "heos://player/toggle_mute?pid="@ + decimal(pid as int)
}

/// Tells the player to change from muted to not muted or back.
pub fn toggle_mute_command(pid: i64) -> (command: String)
    ensures
        command@ == toggle_mute_text(pid),
{
    with_number("heos://player/toggle_mute?pid=", pid)
}

/// Tells the player to go to the next track.
pub open spec fn play_next_text(pid: i64) -> Seq<char> {
    "heos://player/play_next?pid="@ + decimal(pid as int)
}

/// Tells the player to go to the next track.
pub fn play_next_command(pid: i64) -> (command: String)
    ensures
        command@ == play_next_text(pid),
{
    with_number("heos://player/play_next?pid=", pid)
}

/// Tells the player to go to the previous track.
pub open spec fn play_previous_text(pid: i64) -> Seq<char> {
    "heos://player/play_previous?pid="@ + decimal(pid as int)
}

/// Tells the player to go to the previous track.
pub fn play_previous_command(pid: i64) -> (command: String)
    ensures
        command@ == play_previous_text(pid),
{
    with_number("heos://player/play_previous?pid=", pid)
}

/// Asks for the player's repeat and shuffle modes.
pub open spec fn get_play_mode_text(pid: i64) -> Seq<char> {
    "heos://player/get_play_mode?pid="@ + decimal(pid as int)
}

/// Asks for the player's repeat and shuffle modes.
pub fn get_play_mode_command(pid: i64) -> (command: String)
    ensures
        command@ == get_play_mode_text(pid),
{
    with_number("heos://player/get_play_mode?pid=", pid)
}

/// Sets the player's repeat and shuffle modes.
pub open spec fn set_play_mode_text(pid: i64, repeat: RepeatMode, shuffle: ShuffleMode) -> Seq<
    char,
> {
    "heos://player/set_play_mode?pid="@ + decimal(pid as int) + "&repeat="@ + repeat.wire()
        + "&shuffle="@ + shuffle.wire()
}

/// Sets the player's repeat and shuffle modes.
pub fn set_play_mode_command(pid: i64, repeat: RepeatMode, shuffle: ShuffleMode) -> (command:
    String)
    ensures
        command@ == set_play_mode_text(pid, repeat, shuffle),
{
    let mut command = with_number("heos://player/set_play_mode?pid=", pid);
    command.append("&repeat=");
    command.append(repeat.as_str());
    command.append("&shuffle=");
    command.append(shuffle.as_str());
    command
}

/// Tells the player to empty its queue.
pub open spec fn clear_queue_text(pid: i64) -> Seq<char> {
    "heos://player/clear_queue?pid="@ + decimal(pid as int)
}

/// Tells the player to empty its queue.
pub fn clear_queue_command(pid: i64) -> (command: String)
    ensures
        command@ == clear_queue_text(pid),
{
    with_number("heos://player/clear_queue?pid=", pid)
}

// ---------------------------------------------------------------------------
// Browse commands
// ---------------------------------------------------------------------------

/// Asks for the music sources.
pub open spec fn get_music_sources_text() -> Seq<char> {
    "heos://browse/get_music_sources"@
}

/// Asks for the music sources.
pub fn get_music_sources_command() -> (command: String)
    ensures
        command@ == get_music_sources_text(),
{
    "heos://browse/get_music_sources".to_owned()
}

/// Tells the player to play one of its inputs.
pub open spec fn play_input_text(pid: i64, input: Seq<char>) -> Seq<char> {
    "heos://browse/play_input?pid="@ + decimal(pid as int) + "&input="@ + input
}

/// Tells the player to play one of its inputs.
pub fn play_input_command(pid: i64, input: &str) -> (command: String)
    ensures
        command@ == play_input_text(pid, input@),
{
    let mut command = with_number("heos://browse/play_input?pid=", pid);
    command.append("&input=");
    command.append(input);
    command
}

/// Tells the player to play one of the stations kept as favourites.
pub open spec fn play_preset_text(pid: i64, preset: u8) -> Seq<char> {
    "heos://browse/play_preset?pid="@ + decimal(pid as int) + "&preset="@ + decimal(preset as int)
}

/// Tells the player to play one of the stations kept as favourites.
pub fn play_preset_command(pid: i64, preset: u8) -> (command: String)
    ensures
        command@ == play_preset_text(pid, preset),
{
    let mut command = with_number("heos://browse/play_preset?pid=", pid);
    command.append("&preset=");
    append_decimal(&mut command, preset as i64);
    command
}

/// Tells the player to play the stream at an address.
pub open spec fn play_url_text(pid: i64, url: Seq<char>) -> Seq<char> {
    "heos://browse/play_stream?pid="@ + decimal(pid as int) + "&url="@ + url
}

/// Tells the player to play the stream at an address.
pub fn play_url_command(pid: i64, url: &str) -> (command: String)
    ensures
        command@ == play_url_text(pid, url@),
{
    let mut command = with_number("heos://browse/play_stream?pid=", pid);
    command.append("&url=");
    command.append(url);
    command
}

/// Asks for what a music source holds.
pub open spec fn browse_source_text(sid: i64) -> Seq<char> {
    "heos://browse/browse?sid="@ + decimal(sid as int)
}

/// Asks for what a music source holds.
pub fn browse_source_command(sid: i64) -> (command: String)
    ensures
        command@ == browse_source_text(sid),
{
    with_number("heos://browse/browse?sid=", sid)
}

} // verus!

//! The values exchanged with a player: configuration, response envelopes,
//! player and media records, the enumerated states and the error record.

use crate::message::{message_map, parse_message_text, MessageMap};
use crate::text::{append_decimal, decimal, same_folded, same_text, same_text_folded};
use vstd::prelude::*;

pub mod error_codes;
pub mod inputs;
pub mod source_ids;

verus! {

/// The port on which players listen for commands.
pub const DEFAULT_PORT: u16 = 1255;

// ---------------------------------------------------------------------------
// Configuration
// ---------------------------------------------------------------------------

/// Where the player is found, and which player commands go to by default.
#[derive(Debug, Clone)]
pub struct HeosConfig {
    pub host: String,
    pub port: u16,
    pub player_id: i64,
}

impl Default for HeosConfig {
    fn default() -> (config: Self)
        ensures
            config.host@ == "192.168.1.2"@,
            config.port == DEFAULT_PORT,
            config.player_id == 0,
    {
        HeosConfig { host: "192.168.1.2".to_owned(), port: DEFAULT_PORT, player_id: 0 }
    }
}

impl HeosConfig {
    /// A second value equal to this one.
    pub fn duplicate(&self) -> (copy: HeosConfig)
        ensures
            copy == *self,
    {
        HeosConfig { host: self.host.clone(), port: self.port, player_id: self.player_id }
    }
}

// ---------------------------------------------------------------------------
// Response envelope
// ---------------------------------------------------------------------------

/// The header that every response carries.
#[derive(Debug, Clone)]
pub struct HeosHeader {
    /// The name of the command that is answered.
    pub command: String,
    /// `success` or `fail`.
    pub result: String,
    /// `key=value` pairs joined by `&`.
    pub message: String,
}

/// A header as plain text.
pub struct HeaderView {
    pub command: Seq<char>,
    pub result: Seq<char>,
    pub message: Seq<char>,
}

impl View for HeosHeader {
    type V = HeaderView;

    open spec fn view(&self) -> HeaderView {
        HeaderView { command: self.command@, result: self.result@, message: self.message@ }
    }
}

impl HeaderView {
    /// Whether the header reports success: its result is exactly `success`.
    pub open spec fn is_success(self) -> bool {
        self.result == "success"@
    }

    /// The error that a failed header reports: the number under `eid`, or -1
    /// where there is none that fits, and the text under `text`, or
    /// `Unknown error`.
    pub open spec fn error(self) -> ErrorView {
        let map = message_map(self.message);
        ErrorView {
            code: if map.contains_key("eid"@) {
                match crate::text::numeral_in_range(
                    map["eid"@],
                    true,
                    i32::MIN as int,
                    i32::MAX as int,
                ) {
                    Some(code) => code as i32,
                    None => -1i32,
                }
            } else {
                -1i32
            },
            message: if map.contains_key("text"@) {
                map["text"@]
            } else {
                "Unknown error"@
            },
        }
    }
}

impl HeosHeader {
    /// Whether the player reports success.
    pub fn is_success(&self) -> (success: bool)
        ensures
            success == self@.is_success(),
    {
        same_text(self.result.as_str(), "success")
    }

    /// The pairs of the message field, as a map.
    pub fn parse_message(&self) -> (map: MessageMap)
        ensures
            map@ == message_map(self.message@),
    {
        parse_message_text(self.message.as_str())
    }
}

/// One decoded response: the header and, where the response had one, the payload.
#[derive(Debug, Clone)]
pub struct HeosResponse<T> {
    pub heos: HeosHeader,
    pub payload: Option<T>,
}

// ---------------------------------------------------------------------------
// Players
// ---------------------------------------------------------------------------

/// What a player says of itself.
#[derive(Debug, Clone)]
pub struct Player {
    pub name: String,
    pub pid: i64,
    pub model: String,
    pub version: String,
    pub ip: Option<String>,
    pub network: Option<String>,
    pub lineout: Option<u8>,
    pub serial: Option<String>,
}

/// The text of a field that may be missing.
pub open spec fn field_text(field: Option<String>) -> Option<Seq<char>> {
    match field {
        Some(text) => Some(text@),
        None => None,
    }
}

/// A player record as plain text and numbers.
pub struct PlayerView {
    pub name: Seq<char>,
    pub pid: i64,
    pub model: Seq<char>,
    pub version: Seq<char>,
    pub ip: Option<Seq<char>>,
    pub network: Option<Seq<char>>,
    pub lineout: Option<u8>,
    pub serial: Option<Seq<char>>,
}

impl View for Player {
    type V = PlayerView;

    open spec fn view(&self) -> PlayerView {
        PlayerView {
            name: self.name@,
            pid: self.pid,
            model: self.model@,
            version: self.version@,
            ip: field_text(self.ip),
            network: field_text(self.network),
            lineout: self.lineout,
            serial: field_text(self.serial),
        }
    }
}

impl PlayerView {
    /// The record of which nothing is known: every text is empty, the id is
    /// zero, and the fields that may be missing are missing.
    pub open spec fn blank() -> PlayerView {
        PlayerView {
            name: Seq::empty(),
            pid: 0,
            model: Seq::empty(),
            version: Seq::empty(),
            ip: None,
            network: None,
            lineout: None,
            serial: None,
        }
    }
}

impl Default for Player {
    fn default() -> (player: Self)
        ensures
            player@ == PlayerView::blank(),
    {
        Player {
            name: String::new(),
            pid: 0,
            model: String::new(),
            version: String::new(),
            ip: None,
            network: None,
            lineout: None,
            serial: None,
        }
    }
}

/// Whether a player plays, pauses or has stopped.
#[derive(Debug, Clone, Copy, PartialEq, Eq, Structural)]
pub enum PlayState {
    Play,
    Pause,
    Stop,
}

impl PlayState {
    /// The word for this state on the wire.
    pub open spec fn wire(self) -> Seq<char> {
        match self {
            PlayState::Play => "play"@,
            PlayState::Pause => "pause"@,
            PlayState::Stop => "stop"@,
        }
    }

    /// The state that `word` names, whatever the case of its letters.
    pub open spec fn named_by(word: Seq<char>) -> Option<PlayState> {
        if same_folded(word, "play"@) {
            Some(PlayState::Play)
        } else if same_folded(word, "pause"@) {
            Some(PlayState::Pause)
        } else if same_folded(word, "stop"@) {
            Some(PlayState::Stop)
        } else {
            None
        }
    }

    /// The word for this state on the wire.
    pub fn as_str(&self) -> (word: &'static str)
        ensures
            word@ == self.wire(),
    {
        match self {
            PlayState::Play => "play",
            PlayState::Pause => "pause",
            PlayState::Stop => "stop",
        }
    }

    /// The word for this state on the wire, as a new string.
    pub fn to_string(&self) -> (word: String)
        ensures
            word@ == self.wire(),
    {
        self.as_str().to_owned()
    }

    /// Reads a state from its word, whatever the case of its letters. Any
    /// other text is refused with a message that quotes it.
    pub fn from_str(s: &str) -> (parsed: Result<PlayState, String>)
        ensures
            match parsed {
                Ok(state) => PlayState::named_by(s@) == Some(state),
                Err(message) => PlayState::named_by(s@) is None && message@
                    == "Unknown play state: "@ + s@,
            },
    {
        if same_text_folded(s, "play") {
            Ok(PlayState::Play)
        } else if same_text_folded(s, "pause") {
            Ok(PlayState::Pause)
        } else if same_text_folded(s, "stop") {
            Ok(PlayState::Stop)
        } else {
            let mut message = "Unknown play state: ".to_owned();
            message.append(s);
            Err(message)
        }
    }
}

/// Whether a player is muted.
#[derive(Debug, Clone, Copy, PartialEq, Eq, Structural)]
pub enum MuteState {
    On,
    Off,
}

impl MuteState {
    /// The word for this state on the wire.
    pub open spec fn wire(self) -> Seq<char> {
        match self {
            MuteState::On => "on"@,
            MuteState::Off => "off"@,
        }
    }

    /// The state that `word` names, whatever the case of its letters.
    pub open spec fn named_by(word: Seq<char>) -> Option<MuteState> {
        if same_folded(word, "on"@) {
            Some(MuteState::On)
        } else if same_folded(word, "off"@) {
            Some(MuteState::Off)
        } else {
            None
        }
    }

    /// The word for this state on the wire.
    pub fn as_str(&self) -> (word: &'static str)
        ensures
            word@ == self.wire(),
    {
        match self {
            MuteState::On => "on",
            MuteState::Off => "off",
        }
    }

    /// The word for this state on the wire, as a new string.
    pub fn to_string(&self) -> (word: String)
        ensures
            word@ == self.wire(),
    {
        self.as_str().to_owned()
    }

    /// Reads a state from its word, whatever the case of its letters. Any
    /// other text is refused with a message that quotes it.
    pub fn from_str(s: &str) -> (parsed: Result<MuteState, String>)
        ensures
            match parsed {
                Ok(state) => MuteState::named_by(s@) == Some(state),
                Err(message) => MuteState::named_by(s@) is None && message@
                    == "Unknown mute state: "@ + s@,
            },
    {
        if same_text_folded(s, "on") {
            Ok(MuteState::On)
        } else if same_text_folded(s, "off") {
            Ok(MuteState::Off)
        } else {
            let mut message = "Unknown mute state: ".to_owned();
            message.append(s);
            Err(message)
        }
    }
}

/// The text of a report that may be missing.
pub open spec fn report_text(word: Option<&String>) -> Option<Seq<char>> {
    match word {
        Some(word) => Some(word@),
        None => None,
    }
}

/// What a player repeats: nothing, the current track, or the whole queue.
#[derive(Debug, Clone, Copy, PartialEq, Eq, Structural)]
pub enum RepeatMode {
    Off,
    One,
    All,
}

impl RepeatMode {
    /// The word for this mode on the wire.
    pub open spec fn wire(self) -> Seq<char> {
        match self {
            RepeatMode::Off => "off"@,
            RepeatMode::One => "on_one"@,
            RepeatMode::All => "on_all"@,
        }
    }

    /// The mode that a player reports with `word`: `on_one` and `on_all`
    /// name their modes, whatever the case of their letters, and every
    /// other report, or none, counts as off.
    pub open spec fn reported_by(word: Option<Seq<char>>) -> RepeatMode {
        match word {
            Some(word) => if same_folded(word, "on_one"@) {
                RepeatMode::One
            } else if same_folded(word, "on_all"@) {
                RepeatMode::All
            } else {
                RepeatMode::Off
            },
            None => RepeatMode::Off,
        }
    }

    /// Reads the mode that a player reports. No report is refused: what is
    /// missing or not understood counts as off.
    pub fn from_report(word: Option<&String>) -> (mode: RepeatMode)
        ensures
            mode == RepeatMode::reported_by(report_text(word)),
    {
        match word {
            Some(word) => if same_text_folded(word.as_str(), "on_one") {
                RepeatMode::One
            } else if same_text_folded(word.as_str(), "on_all") {
                RepeatMode::All
            } else {
                RepeatMode::Off
            },
            None => RepeatMode::Off,
        }
    }

    /// The word for this mode on the wire.
    pub fn as_str(&self) -> (word: &'static str)
        ensures
            word@ == self.wire(),
    {
        match self {
            RepeatMode::Off => "off",
            RepeatMode::One => "on_one",
            RepeatMode::All => "on_all",
        }
    }

    /// The word for this mode on the wire, as a new string.
    pub fn to_string(&self) -> (word: String)
        ensures
            word@ == self.wire(),
    {
        self.as_str().to_owned()
    }
}

/// Whether a player shuffles its queue.
#[derive(Debug, Clone, Copy, PartialEq, Eq, Structural)]
pub enum ShuffleMode {
    On,
    Off,
}

impl ShuffleMode {
    /// The word for this mode on the wire.
    pub open spec fn wire(self) -> Seq<char> {
        match self {
            ShuffleMode::On => "on"@,
            ShuffleMode::Off => "off"@,
        }
    }

    /// The mode that a player reports with `word`: `on` is on, whatever the
    /// case of its letters, and every other report, or none, counts as off.
    pub open spec fn reported_by(word: Option<Seq<char>>) -> ShuffleMode {
        match word {
            Some(word) => if same_folded(word, "on"@) {
                ShuffleMode::On
            } else {
                ShuffleMode::Off
            },
            None => ShuffleMode::Off,
        }
    }

    /// Reads the mode that a player reports. No report is refused: what is
    /// missing or not understood counts as off.
    pub fn from_report(word: Option<&String>) -> (mode: ShuffleMode)
        ensures
            mode == ShuffleMode::reported_by(report_text(word)),
    {
        match word {
            Some(word) => if same_text_folded(word.as_str(), "on") {
                ShuffleMode::On
            } else {
                ShuffleMode::Off
            },
            None => ShuffleMode::Off,
        }
    }

    /// The word for this mode on the wire.
    pub fn as_str(&self) -> (word: &'static str)
        ensures
            word@ == self.wire(),
    {
        match self {
            ShuffleMode::On => "on",
            ShuffleMode::Off => "off",
        }
    }

    /// The word for this mode on the wire, as a new string.
    pub fn to_string(&self) -> (word: String)
        ensures
            word@ == self.wire(),
    {
        self.as_str().to_owned()
    }
}

// ---------------------------------------------------------------------------
// Now playing
// ---------------------------------------------------------------------------

/// What a player is playing. Each source fills in the fields it knows.
#[derive(Debug, Clone)]
pub struct NowPlayingMedia {
    pub media_type: Option<String>,
    pub song: Option<String>,
    pub album: Option<String>,
    pub artist: Option<String>,
    pub image_url: Option<String>,
    pub mid: Option<String>,
    pub qid: Option<i64>,
    pub sid: Option<i64>,
    pub station: Option<String>,
}

impl NowPlayingMedia {
    /// The record in which no field is filled in.
    pub open spec fn blank() -> NowPlayingMedia {
        NowPlayingMedia {
            media_type: None,
            song: None,
            album: None,
            artist: None,
            image_url: None,
            mid: None,
            qid: None,
            sid: None,
            station: None,
        }
    }
}

impl Default for NowPlayingMedia {
    fn default() -> (media: Self)
        ensures
            media == NowPlayingMedia::blank(),
    {
        NowPlayingMedia {
            media_type: None,
            song: None,
            album: None,
            artist: None,
            image_url: None,
            mid: None,
            qid: None,
            sid: None,
            station: None,
        }
    }
}

// ---------------------------------------------------------------------------
// Music sources
// ---------------------------------------------------------------------------

/// A music source that a player can browse.
#[derive(Debug, Clone)]
pub struct MusicSource {
    pub name: String,
    pub image_url: Option<String>,
    pub source_type: String,
    pub sid: i64,
    pub available: Option<String>,
    pub service_username: Option<String>,
}

impl Default for MusicSource {
    fn default() -> (source: Self)
        ensures
            source.name@.len() == 0,
            source.image_url is None,
            source.source_type@.len() == 0,
            source.sid == 0,
            source.available is None,
            source.service_username is None,
    {
        MusicSource {
            name: String::new(),
            image_url: None,
            source_type: String::new(),
            sid: 0,
            available: None,
            service_username: None,
        }
    }
}

/// Where a player puts what is added to its queue.
#[derive(Debug, Clone, Copy, PartialEq, Eq, Structural)]
pub enum AddCriteria {
    PlayNow,
    PlayNext,
    AddToEnd,
    ReplaceAndPlay,
}

impl AddCriteria {
    /// The number for this choice on the wire.
    pub open spec fn wire_code(self) -> u8 {
        match self {
            AddCriteria::PlayNow => 1,
            AddCriteria::PlayNext => 2,
            AddCriteria::AddToEnd => 3,
            AddCriteria::ReplaceAndPlay => 4,
        }
    }

    /// The number for this choice on the wire.
    pub fn code(&self) -> (code: u8)
        ensures
            code == self.wire_code(),
    {
        match self {
            AddCriteria::PlayNow => 1,
            AddCriteria::PlayNext => 2,
            AddCriteria::AddToEnd => 3,
            AddCriteria::ReplaceAndPlay => 4,
        }
    }
}

// ---------------------------------------------------------------------------
// Change events
// ---------------------------------------------------------------------------

/// What a player announces when something about it changes.
#[derive(Debug, Clone)]
pub enum HeosEvent {
    PlayerStateChanged { pid: i64, state: String },
    NowPlayingChanged { pid: i64 },
    NowPlayingProgress { pid: i64, cur_pos: i64, duration: i64 },
    VolumeChanged { pid: i64, level: u8, mute: String },
    QueueChanged { pid: i64 },
    PlayersChanged,
    GroupsChanged,
    SourcesChanged,
    PlaybackError { pid: i64, error: String },
}

impl HeosEvent {
    /// The command name under which this kind of event arrives.
    pub open spec fn wire_name(self) -> Seq<char> {
        match self {
            HeosEvent::PlayerStateChanged { .. } => "event/player_state_changed"@,
            HeosEvent::NowPlayingChanged { .. } => "event/player_now_playing_changed"@,
            HeosEvent::NowPlayingProgress { .. } => "event/player_now_playing_progress"@,
            HeosEvent::VolumeChanged { .. } => "event/player_volume_changed"@,
            HeosEvent::QueueChanged { .. } => "event/player_queue_changed"@,
            HeosEvent::PlayersChanged => "event/players_changed"@,
            HeosEvent::GroupsChanged => "event/groups_changed"@,
            HeosEvent::SourcesChanged => "event/sources_changed"@,
            HeosEvent::PlaybackError { .. } => "event/player_playback_error"@,
        }
    }

    /// The player that the event is about; none for the events that concern
    /// every player.
    pub open spec fn about(self) -> Option<i64> {
        match self {
            HeosEvent::PlayerStateChanged { pid, .. } => Some(pid),
            HeosEvent::NowPlayingChanged { pid } => Some(pid),
            HeosEvent::NowPlayingProgress { pid, .. } => Some(pid),
            HeosEvent::VolumeChanged { pid, .. } => Some(pid),
            HeosEvent::QueueChanged { pid } => Some(pid),
            HeosEvent::PlayersChanged => None,
            HeosEvent::GroupsChanged => None,
            HeosEvent::SourcesChanged => None,
            HeosEvent::PlaybackError { pid, .. } => Some(pid),
        }
    }

    /// The command name under which this kind of event arrives.
    pub fn command(&self) -> (name: &'static str)
        ensures
            name@ == self.wire_name(),
    {
        match self {
            HeosEvent::PlayerStateChanged { .. } => "event/player_state_changed",
            HeosEvent::NowPlayingChanged { .. } => "event/player_now_playing_changed",
            HeosEvent::NowPlayingProgress { .. } => "event/player_now_playing_progress",
            HeosEvent::VolumeChanged { .. } => "event/player_volume_changed",
            HeosEvent::QueueChanged { .. } => "event/player_queue_changed",
            HeosEvent::PlayersChanged => "event/players_changed",
            HeosEvent::GroupsChanged => "event/groups_changed",
            HeosEvent::SourcesChanged => "event/sources_changed",
            HeosEvent::PlaybackError { .. } => "event/player_playback_error",
        }
    }

    /// The player that the event is about, if it is about one.
    pub fn player(&self) -> (pid: Option<i64>)
        ensures
            pid == self.about(),
    {
        match self {
            HeosEvent::PlayerStateChanged { pid, .. } => Some(*pid),
            HeosEvent::NowPlayingChanged { pid } => Some(*pid),
            HeosEvent::NowPlayingProgress { pid, .. } => Some(*pid),
            HeosEvent::VolumeChanged { pid, .. } => Some(*pid),
            HeosEvent::QueueChanged { pid } => Some(*pid),
            HeosEvent::PlayersChanged => None,
            HeosEvent::GroupsChanged => None,
            HeosEvent::SourcesChanged => None,
            HeosEvent::PlaybackError { pid, .. } => Some(*pid),
        }
    }
}

// ---------------------------------------------------------------------------
// Errors
// ---------------------------------------------------------------------------

/// The error that a player reports in a failed response.
#[derive(Debug, Clone)]
pub struct HeosError {
    pub code: i32,
    pub message: String,
}

/// An error record as plain text.
pub struct ErrorView {
    pub code: i32,
    pub message: Seq<char>,
}

impl View for HeosError {
    type V = ErrorView;

    open spec fn view(&self) -> ErrorView {
        ErrorView { code: self.code, message: self.message@ }
    }
}

impl ErrorView {
    /// The line that describes the error to a reader.
    pub open spec fn description(self) -> Seq<char> {
        "HEOS Error "@ + decimal(self.code as int) + ": "@ + self.message
    }
}

impl HeosError {
    /// The line that describes the error to a reader.
    pub fn to_string(&self) -> (line: String)
        ensures
            line@ == self@.description(),
    {
        let mut line = "HEOS Error ".to_owned();
        append_decimal(&mut line, self.code as i64);
        line.append(": ");
        line.append(self.message.as_str());
        line
    }
}

} // verus!

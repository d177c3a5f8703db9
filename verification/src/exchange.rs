//! One exchange with a player, step by step.
//!
//! The client does no input or output itself. It says in a [`Step`] what is
//! to be done next (open the connection, send a line and read one, decode a
//! response) and is told how that went; the last step carries the
//! [`Outcome`] or the [`HeosFailure`].

use crate::message::message_map;
use crate::text::{numeral_in_range, parse_numeral};
use crate::types::{
    ErrorView, HeaderView, HeosError, HeosHeader, HeosResponse, MusicSource, MuteState,
    NowPlayingMedia, PlayState, Player, PlayerView, RepeatMode, ShuffleMode,
};
use vstd::prelude::*;

verus! {

/// Seconds allowed for opening the connection.
pub const CONNECT_TIMEOUT_SECS: u64 = 5;

/// Seconds allowed for reading a response.
pub const READ_TIMEOUT_SECS: u64 = 10;

/// Seconds allowed for writing a command.
pub const WRITE_TIMEOUT_SECS: u64 = 5;

/// How long the connection may take: to be opened, and then for each read
/// and each write. Nothing else bounds the time that an exchange takes.
#[derive(Debug, Clone, Copy, PartialEq, Eq, Structural)]
pub struct Timeouts {
    pub connect_secs: u64,
    pub read_secs: u64,
    pub write_secs: u64,
}

impl Timeouts {
    /// The time limits of every connection.
    pub open spec fn standard() -> Timeouts {
        Timeouts {
            connect_secs: CONNECT_TIMEOUT_SECS,
            read_secs: READ_TIMEOUT_SECS,
            write_secs: WRITE_TIMEOUT_SECS,
        }
    }

    /// The time limits of every connection.
    pub fn new() -> (timeouts: Timeouts)
        ensures
            timeouts == Timeouts::standard(),
    {
        Timeouts {
            connect_secs: CONNECT_TIMEOUT_SECS,
            read_secs: READ_TIMEOUT_SECS,
            write_secs: WRITE_TIMEOUT_SECS,
        }
    }
}

// ---------------------------------------------------------------------------
// Failures
// ---------------------------------------------------------------------------

/// Why an exchange failed.
#[derive(Debug, Clone)]
pub enum HeosFailure {
    /// The player could not be reached, or the connection broke.
    Transport(String),
    /// The response was not of the expected form.
    Protocol(String),
    /// The player refused the command.
    Device(HeosError),
    /// A word does not name a value of the kind asked for.
    Validation(String),
}

/// A failure as plain text.
pub enum FailureView {
    Transport(Seq<char>),
    Protocol(Seq<char>),
    Device(ErrorView),
    Validation(Seq<char>),
}

impl View for HeosFailure {
    type V = FailureView;

    open spec fn view(&self) -> FailureView {
        match self {
            HeosFailure::Transport(text) => FailureView::Transport(text@),
            HeosFailure::Protocol(text) => FailureView::Protocol(text@),
            HeosFailure::Device(error) => FailureView::Device(error@),
            HeosFailure::Validation(text) => FailureView::Validation(text@),
        }
    }
}

impl FailureView {
    /// The line that describes the failure to a reader.
    pub open spec fn description(self) -> Seq<char> {
        match self {
            FailureView::Transport(text) => text,
            FailureView::Protocol(text) => text,
            FailureView::Device(error) => error.description(),
            FailureView::Validation(text) => text,
        }
    }
}

impl HeosFailure {
    /// The line that describes the failure to a reader.
    pub fn to_string(&self) -> (line: String)
        ensures
            line@ == self@.description(),
    {
        match self {
            HeosFailure::Transport(text) => text.clone(),
            HeosFailure::Protocol(text) => text.clone(),
            HeosFailure::Device(error) => error.to_string(),
            HeosFailure::Validation(text) => text.clone(),
        }
    }
}

// ---------------------------------------------------------------------------
// Payloads
// ---------------------------------------------------------------------------

/// The kinds of payload that responses carry.
#[derive(Debug, Clone, Copy, PartialEq, Eq, Structural)]
pub enum ReplyShape {
    /// Nothing but the header is read.
    HeaderOnly,
    /// A list of players.
    Players,
    /// One player.
    Player,
    /// What is playing.
    NowPlaying,
    /// A list of music sources.
    Sources,
}

/// A decoded payload.
#[derive(Debug, Clone)]
pub enum Payload {
    Players(Vec<Player>),
    Player(Player),
    NowPlaying(NowPlayingMedia),
    Sources(Vec<MusicSource>),
}

impl Payload {
    /// The kind of this payload.
    pub open spec fn shape(self) -> ReplyShape {
        match self {
            Payload::Players(_) => ReplyShape::Players,
            Payload::Player(_) => ReplyShape::Player,
            Payload::NowPlaying(_) => ReplyShape::NowPlaying,
            Payload::Sources(_) => ReplyShape::Sources,
        }
    }

    /// The kind of this payload.
    pub fn kind(&self) -> (shape: ReplyShape)
        ensures
            shape == self.shape(),
    {
        match self {
            Payload::Players(_) => ReplyShape::Players,
            Payload::Player(_) => ReplyShape::Player,
            Payload::NowPlaying(_) => ReplyShape::NowPlaying,
            Payload::Sources(_) => ReplyShape::Sources,
        }
    }
}

/// A decoded response as plain text around its payload.
pub struct ResponseView {
    pub heos: HeaderView,
    pub payload: Option<Payload>,
}

impl View for HeosResponse<Payload> {
    type V = ResponseView;

    open spec fn view(&self) -> ResponseView {
        ResponseView { heos: self.heos@, payload: self.payload }
    }
}

// ---------------------------------------------------------------------------
// What a response is wanted for
// ---------------------------------------------------------------------------

/// What the client wants from the decoded response to the command it sends.
#[derive(Debug, Clone, Copy, PartialEq, Eq, Structural)]
pub enum Expect {
    /// The header of a successful response.
    Header,
    /// The whole of a successful response, with a payload of the given kind.
    Parsed(ReplyShape),
    /// Success and nothing more.
    Ack,
    /// The list of players.
    Players,
    /// One player.
    Player,
    /// The play state in the message field.
    PlayState,
    /// What is playing.
    NowPlaying,
    /// The volume level in the message field.
    Volume,
    /// The mute state in the message field.
    Mute,
    /// The repeat and shuffle modes in the message field.
    PlayMode,
    /// The list of music sources.
    Sources,
    /// The volume level, in order to raise it by `step` as far as is safe.
    VolumeToRaise { pid: i64, step: u8 },
    /// The play state, in order to change between playing and pausing.
    PlayStateToToggle { pid: i64 },
    /// Success of the command that set `state`, which is then reported.
    AckOfToggle { state: PlayState },
}

impl Expect {
    /// The kind of payload that is decoded for this expectation.
    pub open spec fn shape(self) -> ReplyShape {
        match self {
            Expect::Parsed(shape) => shape,
            Expect::Players => ReplyShape::Players,
            Expect::Player => ReplyShape::Player,
            Expect::NowPlaying => ReplyShape::NowPlaying,
            Expect::Sources => ReplyShape::Sources,
            _ => ReplyShape::HeaderOnly,
        }
    }

    /// The kind of payload that is decoded for this expectation.
    pub fn reply_shape(&self) -> (shape: ReplyShape)
        ensures
            shape == self.shape(),
    {
        match self {
            Expect::Parsed(shape) => *shape,
            Expect::Players => ReplyShape::Players,
            Expect::Player => ReplyShape::Player,
            Expect::NowPlaying => ReplyShape::NowPlaying,
            Expect::Sources => ReplyShape::Sources,
            _ => ReplyShape::HeaderOnly,
        }
    }
}

// ---------------------------------------------------------------------------
// Outcomes
// ---------------------------------------------------------------------------

/// What a finished exchange gives.
#[derive(Debug, Clone)]
pub enum Outcome {
    /// The command was carried out; there is nothing to report.
    Done,
    /// The response, undecoded.
    Raw(String),
    /// The header of the response.
    Header(HeosHeader),
    /// The whole response.
    Response(HeosResponse<Payload>),
    Players(Vec<Player>),
    Player(Player),
    PlayState(PlayState),
    NowPlaying(NowPlayingMedia),
    Volume(u8),
    Mute(MuteState),
    PlayMode(RepeatMode, ShuffleMode),
    Sources(Vec<MusicSource>),
}

/// An outcome as plain text and sequences.
pub enum OutcomeView {
    Done,
    Raw(Seq<char>),
    Header(HeaderView),
    Response(ResponseView),
    Players(Seq<Player>),
    Player(PlayerView),
    PlayState(PlayState),
    NowPlaying(NowPlayingMedia),
    Volume(u8),
    Mute(MuteState),
    PlayMode(RepeatMode, ShuffleMode),
    Sources(Seq<MusicSource>),
}

impl View for Outcome {
    type V = OutcomeView;

    open spec fn view(&self) -> OutcomeView {
        match self {
            Outcome::Done => OutcomeView::Done,
            Outcome::Raw(text) => OutcomeView::Raw(text@),
            Outcome::Header(header) => OutcomeView::Header(header@),
            Outcome::Response(response) => OutcomeView::Response(response@),
            Outcome::Players(players) => OutcomeView::Players(players@),
            Outcome::Player(player) => OutcomeView::Player(player@),
            Outcome::PlayState(state) => OutcomeView::PlayState(*state),
            Outcome::NowPlaying(media) => OutcomeView::NowPlaying(*media),
            Outcome::Volume(level) => OutcomeView::Volume(*level),
            Outcome::Mute(state) => OutcomeView::Mute(*state),
            Outcome::PlayMode(repeat, shuffle) => OutcomeView::PlayMode(*repeat, *shuffle),
            Outcome::Sources(sources) => OutcomeView::Sources(sources@),
        }
    }
}

/// How an exchange ended, as plain text and sequences.
pub type EndView = Result<OutcomeView, FailureView>;

/// The view of the end of an exchange.
pub open spec fn end_view(end: Result<Outcome, HeosFailure>) -> EndView {
    match end {
        Ok(outcome) => Ok(outcome@),
        Err(failure) => Err(failure@),
    }
}

// ---------------------------------------------------------------------------
// Steps
// ---------------------------------------------------------------------------

/// A command that waits for the connection to be opened.
#[derive(Debug, Clone)]
pub struct Queued {
    pub command: String,
    /// What the response is wanted for; nothing where it is wanted as it comes.
    pub expect: Option<Expect>,
}

/// The exchange while the connection is being opened.
#[derive(Debug, Clone)]
pub struct Dialing {
    /// What is sent once the connection is open; nothing where only the
    /// connection was asked for.
    pub queued: Option<Queued>,
}

/// The exchange while the response is awaited.
#[derive(Debug, Clone, Copy)]
pub struct Awaiting {
    /// What the response is wanted for; nothing where it is wanted as it comes.
    pub expect: Option<Expect>,
}

/// The exchange while the response is being decoded.
#[derive(Debug, Clone, Copy)]
pub struct Decoding {
    pub expect: Expect,
}

/// What is to be done next for an exchange.
#[derive(Debug)]
pub enum Step {
    /// Open a connection to `address` within the time allowed, in place of
    /// any that is open, set its time limits for reading and writing, and
    /// tell [`crate::client::HeosClient::on_connect`] how it went.
    Connect { address: String, timeouts: Timeouts, dialing: Dialing },
    /// Write `line`, read one line, and hand it to
    /// [`crate::client::HeosClient::on_reply`].
    Send { line: String, awaiting: Awaiting },
    /// Decode `text` as a response with a payload of kind `shape`, and hand
    /// the result to [`crate::client::HeosClient::on_decode`].
    Decode { text: String, shape: ReplyShape, decoding: Decoding },
    /// The exchange is over.
    Done(Result<Outcome, HeosFailure>),
}

/// A step as plain text.
pub enum StepView {
    /// Open a connection; `queued` is the command that waits for it, with
    /// what its response is wanted for.
    Connect {
        address: Seq<char>,
        timeouts: Timeouts,
        queued: Option<(Seq<char>, Option<Expect>)>,
    },
    /// Send `line`; `wanted` is what the response is wanted for, if not as it comes.
    Send { line: Seq<char>, wanted: Option<Expect> },
    /// Decode `text`.
    Decode { text: Seq<char>, shape: ReplyShape, expect: Expect },
    /// The exchange is over.
    Done(EndView),
}

impl StepView {
    /// The line that this step puts on the wire, at once or as soon as the
    /// connection is open; none where the step sends nothing.
    pub open spec fn transmits(self) -> Option<Seq<char>> {
        match self {
            StepView::Send { line, .. } => Some(line),
            StepView::Connect { queued: Some((command, _)), .. } => Some(
                crate::codec::framed(command),
            ),
            _ => None,
        }
    }
}

impl View for Dialing {
    type V = Option<(Seq<char>, Option<Expect>)>;

    open spec fn view(&self) -> Option<(Seq<char>, Option<Expect>)> {
        match self.queued {
            Some(queued) => Some((queued.command@, queued.expect)),
            None => None,
        }
    }
}

impl View for Step {
    type V = StepView;

    open spec fn view(&self) -> StepView {
        match self {
            Step::Connect { address, timeouts, dialing } => StepView::Connect {
                address: address@,
                timeouts: *timeouts,
                queued: dialing@,
            },
            Step::Send { line, awaiting } => StepView::Send {
                line: line@,
                wanted: awaiting.expect,
            },
            Step::Decode { text, shape, decoding } => StepView::Decode {
                text: text@,
                shape: *shape,
                expect: decoding.expect,
            },
            Step::Done(end) => StepView::Done(end_view(*end)),
        }
    }
}

// ---------------------------------------------------------------------------
// Reading the header of a successful response
// ---------------------------------------------------------------------------

impl HeaderView {
    /// The value that the message field gives for `key`.
    pub open spec fn value_of(self, key: Seq<char>) -> Option<Seq<char>> {
        let map = message_map(self.message);
        if map.contains_key(key) {
            Some(map[key])
        } else {
            None
        }
    }

    /// The volume level that the header reports under `level`: a number from
    /// 0 to 255 in decimal.
    pub open spec fn volume(self) -> Result<u8, FailureView> {
        match self.value_of("level"@) {
            None => Err(FailureView::Protocol("No level in response"@)),
            Some(text) => match numeral_in_range(text, false, 0, 255) {
                Some(level) => Ok(level as u8),
                None => Err(FailureView::Protocol("Invalid volume level"@)),
            },
        }
    }

    /// The play state that the header reports under `state`.
    pub open spec fn play_state(self) -> Result<PlayState, FailureView> {
        match self.value_of("state"@) {
            None => Err(FailureView::Protocol("No state in response"@)),
            Some(word) => match PlayState::named_by(word) {
                Some(state) => Ok(state),
                None => Err(FailureView::Validation("Unknown play state: "@ + word)),
            },
        }
    }

    /// The mute state that the header reports under `state`.
    pub open spec fn mute(self) -> Result<MuteState, FailureView> {
        match self.value_of("state"@) {
            None => Err(FailureView::Protocol("No state in response"@)),
            Some(word) => match MuteState::named_by(word) {
                Some(state) => Ok(state),
                None => Err(FailureView::Validation("Unknown mute state: "@ + word)),
            },
        }
    }

    /// The repeat and shuffle modes that the header reports under `repeat`
    /// and `shuffle`. A mode that is missing or not understood counts as off.
    pub open spec fn play_mode(self) -> (RepeatMode, ShuffleMode) {
        (
            RepeatMode::reported_by(self.value_of("repeat"@)),
            ShuffleMode::reported_by(self.value_of("shuffle"@)),
        )
    }
}

/// The error that a failed header reports.
pub fn error_of(header: &HeosHeader) -> (error: HeosError)
    ensures
        error@ == header@.error(),
{
    let map = header.parse_message();
    let code: i32 = match map.get("eid") {
        Some(text) => match parse_numeral(text.as_str(), true, -0x8000_0000, 0x7fff_ffff) {
            Some(number) => number as i32,
            None => -1,
        },
        None => -1,
    };
    let message = match map.get("text") {
        Some(text) => text.clone(),
        None => "Unknown error".to_owned(),
    };
    HeosError { code, message }
}

/// The volume level that a header reports.
pub fn volume_of(header: &HeosHeader) -> (level: Result<u8, HeosFailure>)
    ensures
        match level {
            Ok(level) => header@.volume() == Ok::<u8, FailureView>(level),
            Err(failure) => header@.volume() == Err::<u8, FailureView>(failure@),
        },
{
    let map = header.parse_message();
    match map.get("level") {
        None => Err(HeosFailure::Protocol("No level in response".to_owned())),
        Some(text) => match parse_numeral(text.as_str(), false, 0, 255) {
            Some(number) => Ok(number as u8),
            None => Err(HeosFailure::Protocol("Invalid volume level".to_owned())),
        },
    }
}

/// The play state that a header reports.
pub fn play_state_of(header: &HeosHeader) -> (state: Result<PlayState, HeosFailure>)
    ensures
        match state {
            Ok(state) => header@.play_state() == Ok::<PlayState, FailureView>(state),
            Err(failure) => header@.play_state() == Err::<PlayState, FailureView>(failure@),
        },
{
    let map = header.parse_message();
    match map.get("state") {
        None => Err(HeosFailure::Protocol("No state in response".to_owned())),
        Some(word) => match PlayState::from_str(word.as_str()) {
            Ok(state) => Ok(state),
            Err(message) => Err(HeosFailure::Validation(message)),
        },
    }
}

/// The mute state that a header reports.
pub fn mute_of(header: &HeosHeader) -> (state: Result<MuteState, HeosFailure>)
    ensures
        match state {
            Ok(state) => header@.mute() == Ok::<MuteState, FailureView>(state),
            Err(failure) => header@.mute() == Err::<MuteState, FailureView>(failure@),
        },
{
    let map = header.parse_message();
    match map.get("state") {
        None => Err(HeosFailure::Protocol("No state in response".to_owned())),
        Some(word) => match MuteState::from_str(word.as_str()) {
            Ok(state) => Ok(state),
            Err(message) => Err(HeosFailure::Validation(message)),
        },
    }
}

/// The repeat and shuffle modes that a header reports.
pub fn play_mode_of(header: &HeosHeader) -> (modes: (RepeatMode, ShuffleMode))
    ensures
        modes == header@.play_mode(),
{
    let map = header.parse_message();
    (RepeatMode::from_report(map.get("repeat")), ShuffleMode::from_report(map.get("shuffle")))
}

} // verus!

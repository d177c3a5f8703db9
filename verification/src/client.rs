//! The protocol client: the configuration, whether a connection is open, and
//! what each event of an exchange leads to.

use crate::codec::{frame, framed, set_play_state_command, set_play_state_text, unframe, unframed};
use crate::codec::{volume_up_command, volume_up_text};
use crate::exchange::{
    error_of, mute_of, play_mode_of, play_state_of, volume_of, Awaiting, Decoding,
    Dialing, Expect, FailureView, HeosFailure, Outcome, OutcomeView, Payload, Queued, ReplyShape,
    ResponseView, Step, StepView, Timeouts,
};
use crate::policy::{safe_step, safe_volume_step, toggle, toggled};
use crate::text::{append_decimal, decimal};
use crate::types::{
    HeosConfig, HeosResponse, MusicSource, NowPlayingMedia, Player, PlayerView, DEFAULT_PORT,
};
use vstd::prelude::*;

verus! {

/// A client for one player. It holds the configuration and knows whether
/// the connection is open; the socket itself is the caller's.
#[derive(Debug)]
pub struct HeosClient {
    config: HeosConfig,
    connected: bool,
}

/// A client as plain values.
pub struct ClientView {
    pub host: Seq<char>,
    pub port: u16,
    pub player_id: i64,
    pub connected: bool,
}

impl View for HeosClient {
    type V = ClientView;

    closed spec fn view(&self) -> ClientView {
        ClientView {
            host: self.config.host@,
            port: self.config.port,
            player_id: self.config.player_id,
            connected: self.connected,
        }
    }
}

impl ClientView {
    /// The client with the connection closed.
    pub open spec fn disconnected(self) -> ClientView {
        ClientView { connected: false, ..self }
    }

    /// The client with the connection open.
    pub open spec fn connected(self) -> ClientView {
        ClientView { connected: true, ..self }
    }

    /// The address of the player: the host, a colon, and the port in decimal.
    pub open spec fn address(self) -> Seq<char> {
        self.host + ":"@ + decimal(self.port as int)
    }

    /// The step that opens the connection and sends nothing.
    pub open spec fn dial(self) -> StepView {
        StepView::Connect { address: self.address(), timeouts: Timeouts::standard(), queued: None }
    }

    /// The first step of an exchange: over an open connection the command
    /// is sent at once; otherwise the connection is opened first and the
    /// command waits.
    pub open spec fn submitted(self, command: Seq<char>, expect: Option<Expect>) -> StepView {
        if self.connected {
            StepView::Send { line: framed(command), wanted: expect }
        } else {
            StepView::Connect {
                address: self.address(),
                timeouts: Timeouts::standard(),
                queued: Some((command, expect)),
            }
        }
    }

    /// The client after an attempt to open the connection.
    pub open spec fn after_connect(self, result: Result<(), Seq<char>>) -> ClientView {
        match result {
            Ok(_) => self.connected(),
            Err(_) => self.disconnected(),
        }
    }

    /// The step after an attempt to open the connection: the command that
    /// waited is sent, or the exchange is over.
    pub open spec fn connect_done(
        queued: Option<(Seq<char>, Option<Expect>)>,
        result: Result<(), Seq<char>>,
    ) -> StepView {
        match result {
            Err(reason) => StepView::Done(Err(FailureView::Transport(reason))),
            Ok(_) => match queued {
                None => StepView::Done(Ok(OutcomeView::Done)),
                Some((command, expect)) => StepView::Send {
                    line: framed(command),
                    wanted: expect,
                },
            },
        }
    }

    /// The client after an attempt to send a command and read the response:
    /// a failure closes the connection.
    pub open spec fn after_reply(self, result: Result<Seq<char>, Seq<char>>) -> ClientView {
        match result {
            Ok(_) => self,
            Err(_) => self.disconnected(),
        }
    }

    /// The step after an attempt to send a command and read the response.
    pub open spec fn reply_done(
        expect: Option<Expect>,
        result: Result<Seq<char>, Seq<char>>,
    ) -> StepView {
        match result {
            Err(reason) => StepView::Done(Err(FailureView::Transport(reason))),
            Ok(line) => match expect {
                None => StepView::Done(Ok(OutcomeView::Raw(unframed(line)))),
                Some(expect) => StepView::Decode {
                    text: unframed(line),
                    shape: expect.shape(),
                    expect,
                },
            },
        }
    }

    /// The step after an attempt to decode the response.
    pub open spec fn decode_done(
        self,
        expect: Expect,
        result: Result<ResponseView, Seq<char>>,
    ) -> StepView {
        match result {
            Err(reason) => StepView::Done(Err(FailureView::Protocol(reason))),
            Ok(response) => self.interpreted(expect, response),
        }
    }

    /// What a decoded response means for the exchange.
    ///
    /// A payload of another kind than the one expected is a protocol
    /// failure; a response that does not report success is the player's
    /// error; and a successful response gives what it was wanted for.
    pub open spec fn interpreted(self, expect: Expect, response: ResponseView) -> StepView {
        if expect.shape() != ReplyShape::HeaderOnly && response.payload is Some
            && response.payload->0.shape() != expect.shape() {
            StepView::Done(Err(FailureView::Protocol("Unexpected payload"@)))
        } else if !response.heos.is_success() {
            StepView::Done(Err(FailureView::Device(response.heos.error())))
        } else {
            self.accepted(expect, response)
        }
    }

    /// What a successful response with a fitting payload gives.
    pub open spec fn accepted(self, expect: Expect, response: ResponseView) -> StepView {
        match expect {
            Expect::Header => StepView::Done(Ok(OutcomeView::Header(response.heos))),
            Expect::Parsed(_) => StepView::Done(Ok(OutcomeView::Response(response))),
            Expect::Ack => StepView::Done(Ok(OutcomeView::Done)),
            Expect::Players => StepView::Done(
                Ok(
                    OutcomeView::Players(
                        match response.payload {
                            Some(Payload::Players(players)) => players@,
                            _ => Seq::empty(),
                        },
                    ),
                ),
            ),
            Expect::Player => StepView::Done(
                Ok(
                    OutcomeView::Player(
                        match response.payload {
                            Some(Payload::Player(player)) => player@,
                            _ => PlayerView::blank(),
                        },
                    ),
                ),
            ),
            Expect::PlayState => match response.heos.play_state() {
                Ok(state) => StepView::Done(Ok(OutcomeView::PlayState(state))),
                Err(failure) => StepView::Done(Err(failure)),
            },
            Expect::NowPlaying => StepView::Done(
                Ok(
                    OutcomeView::NowPlaying(
                        match response.payload {
                            Some(Payload::NowPlaying(media)) => media,
                            _ => NowPlayingMedia::blank(),
                        },
                    ),
                ),
            ),
            Expect::Volume => match response.heos.volume() {
                Ok(level) => StepView::Done(Ok(OutcomeView::Volume(level))),
                Err(failure) => StepView::Done(Err(failure)),
            },
            Expect::Mute => match response.heos.mute() {
                Ok(state) => StepView::Done(Ok(OutcomeView::Mute(state))),
                Err(failure) => StepView::Done(Err(failure)),
            },
            Expect::PlayMode => StepView::Done(
                Ok(OutcomeView::PlayMode(response.heos.play_mode().0, response.heos.play_mode().1)),
            ),
            Expect::Sources => StepView::Done(
                Ok(
                    OutcomeView::Sources(
                        match response.payload {
                            Some(Payload::Sources(sources)) => sources@,
                            _ => Seq::empty(),
                        },
                    ),
                ),
            ),
            Expect::VolumeToRaise { pid, step } => match response.heos.volume() {
                Err(failure) => StepView::Done(Err(failure)),
                Ok(current) => match safe_step(current, step) {
                    None => StepView::Done(Ok(OutcomeView::Done)),
                    Some(safe) => self.submitted(volume_up_text(pid, safe), Some(Expect::Ack)),
                },
            },
            Expect::PlayStateToToggle { pid } => match response.heos.play_state() {
                Err(failure) => StepView::Done(Err(failure)),
                Ok(current) => self.submitted(
                    set_play_state_text(pid, toggled(current)),
                    Some(Expect::AckOfToggle { state: toggled(current) }),
                ),
            },
            Expect::AckOfToggle { state } => StepView::Done(Ok(OutcomeView::PlayState(state))),
        }
    }
}

/// The view of what an attempt gave: its text either way.
pub open spec fn text_result(result: Result<String, String>) -> Result<Seq<char>, Seq<char>> {
    match result {
        Ok(text) => Ok(text@),
        Err(reason) => Err(reason@),
    }
}

/// The view of how an attempt to connect went.
pub open spec fn unit_result(result: Result<(), String>) -> Result<(), Seq<char>> {
    match result {
        Ok(_) => Ok(()),
        Err(reason) => Err(reason@),
    }
}

/// The view of what an attempt to decode gave.
pub open spec fn response_result(result: Result<HeosResponse<Payload>, String>) -> Result<
    ResponseView,
    Seq<char>,
> {
    match result {
        Ok(response) => Ok(response@),
        Err(reason) => Err(reason@),
    }
}

impl HeosClient {
    /// A client for the player that `config` names. No connection is open.
    pub fn new(config: HeosConfig) -> (client: Self)
        ensures
            client@ == (ClientView {
                host: config.host@,
                port: config.port,
                player_id: config.player_id,
                connected: false,
            }),
    {
        HeosClient { config, connected: false }
    }

    /// A client for the default address. No connection is open.
    pub fn with_defaults() -> (client: Self)
        ensures
            client@ == (ClientView {
                host: "192.168.1.2"@,
                port: DEFAULT_PORT,
                player_id: 0,
                connected: false,
            }),
    {
        HeosClient::new(HeosConfig::default())
    }

    /// A second client with the same configuration and no connection.
    pub fn fresh(&self) -> (client: Self)
        ensures
            client@ == self@.disconnected(),
    {
        HeosClient { config: self.config.duplicate(), connected: false }
    }

    /// Replaces the configuration and closes the connection, so that the
    /// next exchange opens one to the new address.
    pub fn set_config(&mut self, config: HeosConfig)
        ensures
            final(self)@ == (ClientView {
                host: config.host@,
                port: config.port,
                player_id: config.player_id,
                connected: false,
            }),
    {
        self.config = config;
        self.disconnect();
    }

    /// Points the client at another host, on the default port and with no
    /// player chosen, and closes the connection.
    pub fn set_host(&mut self, host: String)
        ensures
            final(self)@ == (ClientView {
                host: host@,
                port: DEFAULT_PORT,
                player_id: 0,
                connected: false,
            }),
    {
        self.set_config(HeosConfig { host, port: DEFAULT_PORT, player_id: 0 });
    }

    /// The player that commands go to by default.
    pub fn player_id(&self) -> (pid: i64)
        ensures
            pid == self@.player_id,
    {
        self.config.player_id
    }

    /// Changes the player that commands go to by default.
    pub fn set_player_id(&mut self, pid: i64)
        ensures
            final(self)@ == (ClientView { player_id: pid, ..old(self)@ }),
    {
        self.config.player_id = pid;
    }

    /// The host name or address of the player.
    pub fn host(&self) -> (host: &str)
        ensures
            host@ == self@.host,
    {
        self.config.host.as_str()
    }

    /// The address of the player: the host, a colon, and the port.
    pub fn address(&self) -> (address: String)
        ensures
            address@ == self@.address(),
    {
        let mut address = self.config.host.clone();
        address.append(":");
        append_decimal(&mut address, self.config.port as i64);
        address
    }

    /// Whether the connection is open.
    pub fn is_connected(&self) -> (connected: bool)
        ensures
            connected == self@.connected,
    {
        self.connected
    }

    /// Closes the connection. Nothing happens where none is open.
    pub fn disconnect(&mut self)
        ensures
            final(self)@ == old(self)@.disconnected(),
    {
        self.connected = false;
    }

    /// Asks for the connection to be opened, in place of any that is open.
    pub fn connect(&self) -> (step: Step)
        ensures
            step@ == self@.dial(),
    {
        Step::Connect {
            address: self.address(),
            timeouts: Timeouts::new(),
            dialing: Dialing { queued: None },
        }
    }

    /// Begins an exchange: `command` is sent over the open connection, or
    /// waits until one has been opened.
    pub fn submit(&self, command: String, expect: Option<Expect>) -> (step: Step)
        ensures
            step@ == self@.submitted(command@, expect),
    {
        if self.connected {
            Step::Send { line: frame(command.as_str()), awaiting: Awaiting { expect } }
        } else {
            Step::Connect {
                address: self.address(),
                timeouts: Timeouts::new(),
                dialing: Dialing { queued: Some(Queued { command, expect }) },
            }
        }
    }

    /// Begins an exchange that gives the response as it came, undecoded.
    pub fn send_command(&self, command: &str) -> (step: Step)
        ensures
            step@ == self@.submitted(command@, None),
    {
        self.submit(command.to_owned(), None)
    }

    /// Begins an exchange that gives the whole decoded response, with a
    /// payload of kind `shape`, unless the player reports a failure.
    pub fn send_command_parsed(&self, command: &str, shape: ReplyShape) -> (step: Step)
        ensures
            step@ == self@.submitted(command@, Some(Expect::Parsed(shape))),
    {
        self.submit(command.to_owned(), Some(Expect::Parsed(shape)))
    }

    /// Begins an exchange that gives the header of the response, unless the
    /// player reports a failure.
    pub fn send_command_simple(&self, command: &str) -> (step: Step)
        ensures
            step@ == self@.submitted(command@, Some(Expect::Header)),
    {
        self.submit(command.to_owned(), Some(Expect::Header))
    }

    /// Takes note of how opening the connection went. On success the
    /// command that waited is sent; on failure the exchange is over and the
    /// connection counts as closed.
    pub fn on_connect(&mut self, dialing: Dialing, result: Result<(), String>) -> (step: Step)
        ensures
            final(self)@ == old(self)@.after_connect(unit_result(result)),
            step@ == ClientView::connect_done(dialing@, unit_result(result)),
    {
        match result {
            Err(reason) => {
                self.connected = false;
                Step::Done(Err(HeosFailure::Transport(reason)))
            },
            Ok(_) => {
                self.connected = true;
                match dialing.queued {
                    None => Step::Done(Ok(Outcome::Done)),
                    Some(queued) => Step::Send {
                        line: frame(queued.command.as_str()),
                        awaiting: Awaiting { expect: queued.expect },
                    },
                }
            },
        }
    }

    /// Takes the line that was read in response, or the reason why sending
    /// or reading failed. A failure ends the exchange and closes the
    /// connection. A line is freed of the white space around it, and is then
    /// the outcome or is to be decoded.
    pub fn on_reply(&mut self, awaiting: Awaiting, result: Result<String, String>) -> (step: Step)
        ensures
            final(self)@ == old(self)@.after_reply(text_result(result)),
            step@ == ClientView::reply_done(awaiting.expect, text_result(result)),
    {
        match result {
            Err(reason) => {
                self.connected = false;
                Step::Done(Err(HeosFailure::Transport(reason)))
            },
            Ok(line) => {
                let text = unframe(line.as_str());
                match awaiting.expect {
                    None => Step::Done(Ok(Outcome::Raw(text))),
                    Some(expect) => Step::Decode {
                        text,
                        shape: expect.reply_shape(),
                        decoding: Decoding { expect },
                    },
                }
            },
        }
    }

    /// Takes the decoded response, or the reason why the text could not be
    /// decoded, and says what it means for the exchange.
    pub fn on_decode(
        &self,
        decoding: Decoding,
        result: Result<HeosResponse<Payload>, String>,
    ) -> (step: Step)
        ensures
            step@ == self@.decode_done(decoding.expect, response_result(result)),
    {
        match result {
            Err(reason) => Step::Done(Err(HeosFailure::Protocol(reason))),
            Ok(response) => self.interpret(decoding.expect, response),
        }
    }

    /// Says what a decoded response means for the exchange.
    pub fn interpret(&self, expect: Expect, response: HeosResponse<Payload>) -> (step: Step)
        ensures
            step@ == self@.interpreted(expect, response@),
    {
        let shape = expect.reply_shape();
        if shape != ReplyShape::HeaderOnly {
            let fits = match &response.payload {
                Some(payload) => payload.kind() == shape,
                None => true,
            };
            if !fits {
                return Step::Done(Err(HeosFailure::Protocol("Unexpected payload".to_owned())));
            }
        }
        if !response.heos.is_success() {
            return Step::Done(Err(HeosFailure::Device(error_of(&response.heos))));
        }
        match expect {
            Expect::Header => Step::Done(Ok(Outcome::Header(response.heos))),
            Expect::Parsed(_) => Step::Done(Ok(Outcome::Response(response))),
            Expect::Ack => Step::Done(Ok(Outcome::Done)),
            Expect::Players => {
                let players: Vec<Player> = match response.payload {
                    Some(Payload::Players(players)) => players,
                    _ => Vec::new(),
                };
                Step::Done(Ok(Outcome::Players(players)))
            },
            Expect::Player => {
                let player: Player = match response.payload {
                    Some(Payload::Player(player)) => player,
                    _ => Player::default(),
                };
                Step::Done(Ok(Outcome::Player(player)))
            },
            Expect::PlayState => match play_state_of(&response.heos) {
                Ok(state) => Step::Done(Ok(Outcome::PlayState(state))),
                Err(failure) => Step::Done(Err(failure)),
            },
            Expect::NowPlaying => {
                let media: NowPlayingMedia = match response.payload {
                    Some(Payload::NowPlaying(media)) => media,
                    _ => NowPlayingMedia::default(),
                };
                Step::Done(Ok(Outcome::NowPlaying(media)))
            },
            Expect::Volume => match volume_of(&response.heos) {
                Ok(level) => Step::Done(Ok(Outcome::Volume(level))),
                Err(failure) => Step::Done(Err(failure)),
            },
            Expect::Mute => match mute_of(&response.heos) {
                Ok(state) => Step::Done(Ok(Outcome::Mute(state))),
                Err(failure) => Step::Done(Err(failure)),
            },
            Expect::PlayMode => {
                let modes = play_mode_of(&response.heos);
                Step::Done(Ok(Outcome::PlayMode(modes.0, modes.1)))
            },
            Expect::Sources => {
                let sources: Vec<MusicSource> = match response.payload {
                    Some(Payload::Sources(sources)) => sources,
                    _ => Vec::new(),
                };
                Step::Done(Ok(Outcome::Sources(sources)))
            },
            Expect::VolumeToRaise { pid, step } => match volume_of(&response.heos) {
                Err(failure) => Step::Done(Err(failure)),
                Ok(current) => match safe_volume_step(current, step) {
                    None => Step::Done(Ok(Outcome::Done)),
                    Some(safe) => self.submit(volume_up_command(pid, safe), Some(Expect::Ack)),
                },
            },
            Expect::PlayStateToToggle { pid } => match play_state_of(&response.heos) {
                Err(failure) => Step::Done(Err(failure)),
                Ok(current) => {
                    let next = toggle(current);
                    self.submit(
                        set_play_state_command(pid, next),
                        Some(Expect::AckOfToggle { state: next }),
                    )
                },
            },
            Expect::AckOfToggle { state } => Step::Done(Ok(Outcome::PlayState(state))),
        }
    }
}

} // verus!

use heos::{
    HeosClient, HeosFailure, HeosHeader, HeosResponse, MusicSource, MuteState, NowPlayingMedia,
    Outcome, Payload, PlayState, Player, RepeatMode, ReplyShape, ShuffleMode, Step,
};
use serde_json::Value;

fn text(object: &Value, key: &str) -> Option<String> {
    object.get(key).and_then(Value::as_str).map(str::to_string)
}

fn number(object: &Value, key: &str) -> Option<i64> {
    object.get(key).and_then(Value::as_i64)
}

fn player_of(object: &Value) -> Player {
    Player {
        name: text(object, "name").unwrap_or_default(),
        pid: number(object, "pid").unwrap_or_default(),
        model: text(object, "model").unwrap_or_default(),
        version: text(object, "version").unwrap_or_default(),
        ip: text(object, "ip"),
        network: text(object, "network"),
        lineout: number(object, "lineout").map(|n| n as u8),
        serial: text(object, "serial"),
    }
}

fn media_of(object: &Value) -> NowPlayingMedia {
    NowPlayingMedia {
        media_type: text(object, "type"),
        song: text(object, "song"),
        album: text(object, "album"),
        artist: text(object, "artist"),
        image_url: text(object, "image_url"),
        mid: text(object, "mid"),
        qid: number(object, "qid"),
        sid: number(object, "sid"),
        station: text(object, "station"),
    }
}

fn source_of(object: &Value) -> MusicSource {
    MusicSource {
        name: text(object, "name").unwrap_or_default(),
        image_url: text(object, "image_url"),
        source_type: text(object, "type").unwrap_or_default(),
        sid: number(object, "sid").unwrap_or_default(),
        available: text(object, "available"),
        service_username: text(object, "service_username"),
    }
}

fn list_of<T>(value: &Value, item: fn(&Value) -> T) -> Result<Vec<T>, String> {
    match value.as_array() {
        Some(items) => Ok(items.iter().map(item).collect()),
        None => Err("invalid type: expected a sequence".to_string()),
    }
}

fn decode(line: &str, shape: ReplyShape) -> Result<HeosResponse<Payload>, String> {
    let value: Value = serde_json::from_str(line).map_err(|error| error.to_string())?;
    let heos = value.get("heos").ok_or("missing field `heos`".to_string())?;
    let header = HeosHeader {
        command: text(heos, "command").ok_or("missing field `command`".to_string())?,
        result: text(heos, "result").ok_or("missing field `result`".to_string())?,
        message: text(heos, "message").unwrap_or_default(),
    };
    let payload = match value.get("payload") {
        None | Some(Value::Null) => None,
        Some(payload) => match shape {
            ReplyShape::HeaderOnly => None,
            ReplyShape::Players => Some(Payload::Players(list_of(payload, player_of)?)),
            ReplyShape::Player => Some(Payload::Player(player_of(payload))),
            ReplyShape::NowPlaying => Some(Payload::NowPlaying(media_of(payload))),
            ReplyShape::Sources => Some(Payload::Sources(list_of(payload, source_of)?)),
        },
    };
    Ok(HeosResponse { heos: header, payload })
}

/// Runs an exchange to its end against a player that answers with `lines`
/// in order. Gives the lines that were sent and how the exchange ended.
fn run(
    client: &mut HeosClient,
    first: Step,
    lines: &[&str],
) -> (Vec<String>, Result<Outcome, HeosFailure>) {
    let mut sent = Vec::new();
    let mut answers = lines.iter();
    let mut step = first;
    loop {
        step = match step {
            Step::Connect { dialing, .. } => client.on_connect(dialing, Ok(())),
            Step::Send { line, awaiting } => {
                sent.push(line);
                match answers.next() {
                    Some(answer) => client.on_reply(awaiting, Ok(format!("{}\r\n", answer))),
                    None => client.on_reply(awaiting, Err("connection reset".to_string())),
                }
            }
            Step::Decode { text, shape, decoding } => {
                client.on_decode(decoding, decode(&text, shape))
            }
            Step::Done(end) => return (sent, end),
        };
    }
}

fn level_reply(level: &str) -> String {
    format!(
        "{{\"heos\": {{\"command\": \"player/get_volume\", \"result\": \"success\", \"message\": \"pid=1&level={}\"}}}}",
        level
    )
}

fn state_reply(state: &str) -> String {
    format!(
        "{{\"heos\": {{\"command\": \"player/get_play_state\", \"result\": \"success\", \"message\": \"pid=1&state={}\"}}}}",
        state
    )
}

const ACK: &str =
    "{\"heos\": {\"command\": \"player/any\", \"result\": \"success\", \"message\": \"pid=1\"}}";

#[test]
fn heartbeat_connects_sends_and_succeeds() {
    let mut client = HeosClient::with_defaults();
    let first = client.heartbeat();
    let reply =
        "{\"heos\": {\"command\": \"system/heart_beat\", \"result\": \"success\", \"message\": \"\"}}";
    let (sent, end) = run(&mut client, first, &[reply]);
    assert_eq!(sent, vec!["heos://system/heart_beat\r\n".to_string()]);
    assert!(matches!(end, Ok(Outcome::Done)));
    assert!(client.is_connected());
}

#[test]
fn failed_response_becomes_a_device_error() {
    let mut client = HeosClient::with_defaults();
    let first = client.get_volume(1);
    let reply = "{\"heos\":{\"command\":\"player/get_volume\",\"result\":\"fail\",\"message\":\"eid=3&text=Wrong arguments\"}}";
    let (sent, end) = run(&mut client, first, &[reply]);
    assert_eq!(sent, vec!["heos://player/get_volume?pid=1\r\n".to_string()]);
    match end {
        Err(HeosFailure::Device(error)) => {
            assert_eq!(error.code, 3);
            assert_eq!(error.message, "Wrong arguments");
            assert_eq!(error.to_string(), "HEOS Error 3: Wrong arguments");
        }
        other => panic!("unexpected end {:?}", other),
    }
    assert!(client.is_connected());
}

#[test]
fn failed_response_without_number_or_text_uses_the_defaults() {
    let mut client = HeosClient::with_defaults();
    let first = client.heartbeat();
    let reply = "{\"heos\":{\"command\":\"system/heart_beat\",\"result\":\"fail\"}}";
    let (_, end) = run(&mut client, first, &[reply]);
    match end {
        Err(HeosFailure::Device(error)) => {
            assert_eq!(error.code, -1);
            assert_eq!(error.message, "Unknown error");
        }
        other => panic!("unexpected end {:?}", other),
    }
}

#[test]
fn success_without_payload_gives_an_empty_list_of_players() {
    let mut client = HeosClient::with_defaults();
    let first = client.get_players();
    let reply =
        "{\"heos\":{\"command\":\"player/get_players\",\"result\":\"success\",\"message\":\"\"}}";
    let (sent, end) = run(&mut client, first, &[reply]);
    assert_eq!(sent, vec!["heos://player/get_players\r\n".to_string()]);
    match end {
        Ok(Outcome::Players(players)) => assert!(players.is_empty()),
        other => panic!("unexpected end {:?}", other),
    }
}

#[test]
fn success_without_payload_gives_an_empty_list_of_sources() {
    let mut client = HeosClient::with_defaults();
    let first = client.get_music_sources();
    let reply = "{\"heos\":{\"command\":\"browse/get_music_sources\",\"result\":\"success\",\"message\":\"\"}}";
    let (_, end) = run(&mut client, first, &[reply]);
    match end {
        Ok(Outcome::Sources(sources)) => assert!(sources.is_empty()),
        other => panic!("unexpected end {:?}", other),
    }
}

#[test]
fn players_are_listed_from_the_payload() {
    let mut client = HeosClient::with_defaults();
    let first = client.get_players();
    let reply = "{\"heos\":{\"command\":\"player/get_players\",\"result\":\"success\",\"message\":\"\"},\"payload\":[{\"name\":\"Kitchen\",\"pid\":-1203498127,\"model\":\"HEOS 1\",\"version\":\"1.583.147\",\"ip\":\"192.168.1.2\",\"network\":\"wifi\",\"lineout\":0},{\"name\":\"Den\",\"pid\":7,\"model\":\"HEOS Bar\",\"version\":\"2.0\"}]}";
    let (_, end) = run(&mut client, first, &[reply]);
    match end {
        Ok(Outcome::Players(players)) => {
            assert_eq!(players.len(), 2);
            assert_eq!(players[0].name, "Kitchen");
            assert_eq!(players[0].pid, -1203498127);
            assert_eq!(players[0].ip, Some("192.168.1.2".to_string()));
            assert_eq!(players[0].lineout, Some(0));
            assert_eq!(players[1].name, "Den");
            assert_eq!(players[1].serial, None);
        }
        other => panic!("unexpected end {:?}", other),
    }
}

#[test]
fn play_mode_with_an_unknown_repeat_word_degrades_to_off() {
    let mut client = HeosClient::with_defaults();
    let first = client.get_play_mode(1);
    let reply = "{\"heos\":{\"command\":\"player/get_play_mode\",\"result\":\"success\",\"message\":\"repeat=bogus&shuffle=on\"}}";
    let (sent, end) = run(&mut client, first, &[reply]);
    assert_eq!(sent, vec!["heos://player/get_play_mode?pid=1\r\n".to_string()]);
    match end {
        Ok(Outcome::PlayMode(repeat, shuffle)) => {
            assert_eq!(repeat, RepeatMode::Off);
            assert_eq!(shuffle, ShuffleMode::On);
        }
        other => panic!("unexpected end {:?}", other),
    }
}

#[test]
fn set_volume_above_the_ceiling_sends_the_ceiling() {
    let mut client = HeosClient::with_defaults();
    let first = client.set_volume(1, 100);
    let (sent, end) = run(&mut client, first, &[ACK]);
    assert_eq!(sent, vec!["heos://player/set_volume?pid=1&level=75\r\n".to_string()]);
    assert!(matches!(end, Ok(Outcome::Done)));
}

#[test]
fn volume_up_at_the_ceiling_sends_nothing_more() {
    for level in ["75", "76", "100", "255"] {
        let mut client = HeosClient::with_defaults();
        let first = client.volume_up(1, 5);
        let reply = level_reply(level);
        let (sent, end) = run(&mut client, first, &[&reply]);
        assert_eq!(sent, vec!["heos://player/get_volume?pid=1\r\n".to_string()]);
        assert!(matches!(end, Ok(Outcome::Done)));
    }
}

#[test]
fn volume_up_below_the_ceiling_sends_the_clamped_step() {
    let mut client = HeosClient::with_defaults();
    let first = client.volume_up(1, 5);
    let reply = level_reply("50");
    let (sent, end) = run(&mut client, first, &[&reply, ACK]);
    assert_eq!(
        sent,
        vec![
            "heos://player/get_volume?pid=1\r\n".to_string(),
            "heos://player/volume_up?pid=1&step=5\r\n".to_string(),
        ]
    );
    assert!(matches!(end, Ok(Outcome::Done)));
    let first = client.volume_up(1, 0);
    let (sent, _) = run(&mut client, first, &[&reply, ACK]);
    assert_eq!(sent[1], "heos://player/volume_up?pid=1&step=1\r\n");
    let first = client.volume_up(1, 99);
    let (sent, _) = run(&mut client, first, &[&reply, ACK]);
    assert_eq!(sent[1], "heos://player/volume_up?pid=1&step=10\r\n");
}

#[test]
fn volume_up_near_the_ceiling_sends_only_what_is_left() {
    let mut client = HeosClient::with_defaults();
    let first = client.volume_up(1, 10);
    let reply = level_reply("70");
    let (sent, end) = run(&mut client, first, &[&reply, ACK]);
    assert_eq!(sent[1], "heos://player/volume_up?pid=1&step=5\r\n");
    assert!(matches!(end, Ok(Outcome::Done)));
    let first = client.volume_up(1, 10);
    let reply = level_reply("74");
    let (sent, _) = run(&mut client, first, &[&reply, ACK]);
    assert_eq!(sent[1], "heos://player/volume_up?pid=1&step=1\r\n");
}

#[test]
fn volume_up_fails_when_the_level_cannot_be_read() {
    let mut client = HeosClient::with_defaults();
    let first = client.volume_up(1, 5);
    let (sent, end) = run(&mut client, first, &[ACK]);
    assert_eq!(sent.len(), 1);
    match end {
        Err(HeosFailure::Protocol(text)) => assert_eq!(text, "No level in response"),
        other => panic!("unexpected end {:?}", other),
    }
    let first = client.volume_up(1, 5);
    let reply = level_reply("loud");
    let (sent, end) = run(&mut client, first, &[&reply]);
    assert_eq!(sent.len(), 1);
    match end {
        Err(HeosFailure::Protocol(text)) => assert_eq!(text, "Invalid volume level"),
        other => panic!("unexpected end {:?}", other),
    }
}

#[test]
fn volume_up_fails_when_the_player_refuses_the_step() {
    let mut client = HeosClient::with_defaults();
    let first = client.volume_up(1, 5);
    let reply = level_reply("10");
    let refusal = "{\"heos\":{\"command\":\"player/volume_up\",\"result\":\"fail\",\"message\":\"eid=9&text=Internal error\"}}";
    let (sent, end) = run(&mut client, first, &[&reply, refusal]);
    assert_eq!(sent.len(), 2);
    match end {
        Err(HeosFailure::Device(error)) => assert_eq!(error.code, 9),
        other => panic!("unexpected end {:?}", other),
    }
}

#[test]
fn toggle_from_play_pauses() {
    let mut client = HeosClient::with_defaults();
    client.set_player_id(1);
    let first = client.toggle_play_pause();
    let reply = state_reply("play");
    let (sent, end) = run(&mut client, first, &[&reply, ACK]);
    assert_eq!(
        sent,
        vec![
            "heos://player/get_play_state?pid=1\r\n".to_string(),
            "heos://player/set_play_state?pid=1&state=pause\r\n".to_string(),
        ]
    );
    assert!(matches!(end, Ok(Outcome::PlayState(PlayState::Pause))));
}

#[test]
fn toggle_from_stop_plays() {
    let mut client = HeosClient::with_defaults();
    client.set_player_id(1);
    let first = client.toggle_play_pause();
    let reply = state_reply("stop");
    let (sent, end) = run(&mut client, first, &[&reply, ACK]);
    assert_eq!(sent[1], "heos://player/set_play_state?pid=1&state=play\r\n");
    assert!(matches!(end, Ok(Outcome::PlayState(PlayState::Play))));
}

#[test]
fn toggle_from_pause_plays() {
    let mut client = HeosClient::with_defaults();
    client.set_player_id(1);
    let first = client.toggle_play_pause();
    let reply = state_reply("pause");
    let (sent, end) = run(&mut client, first, &[&reply, ACK]);
    assert_eq!(sent[1], "heos://player/set_play_state?pid=1&state=play\r\n");
    assert!(matches!(end, Ok(Outcome::PlayState(PlayState::Play))));
}

#[test]
fn toggle_fails_on_an_unknown_state_and_sends_nothing_more() {
    let mut client = HeosClient::with_defaults();
    let first = client.toggle_play_pause();
    let reply = state_reply("buffering");
    let (sent, end) = run(&mut client, first, &[&reply]);
    assert_eq!(sent.len(), 1);
    match end {
        Err(HeosFailure::Validation(text)) => assert_eq!(text, "Unknown play state: buffering"),
        other => panic!("unexpected end {:?}", other),
    }
}

#[test]
fn malformed_json_is_a_protocol_failure() {
    let mut client = HeosClient::with_defaults();
    let first = client.heartbeat();
    let (_, end) = run(&mut client, first, &["{\"heos\": "]);
    assert!(matches!(end, Err(HeosFailure::Protocol(_))));
    assert!(client.is_connected());
    let first = client.heartbeat();
    let (_, end) = run(&mut client, first, &["{\"payload\": []}"]);
    match end {
        Err(HeosFailure::Protocol(text)) => assert_eq!(text, "missing field `heos`"),
        other => panic!("unexpected end {:?}", other),
    }
}

#[test]
fn a_broken_connection_is_a_transport_failure_and_the_next_command_dials_again() {
    let mut client = HeosClient::with_defaults();
    let first = client.heartbeat();
    let (sent, end) = run(&mut client, first, &[]);
    assert_eq!(sent.len(), 1);
    match end {
        Err(HeosFailure::Transport(text)) => assert_eq!(text, "connection reset"),
        other => panic!("unexpected end {:?}", other),
    }
    assert!(!client.is_connected());
    assert!(matches!(client.heartbeat(), Step::Connect { .. }));
}

#[test]
fn browse_gives_the_line_as_it_came() {
    let mut client = HeosClient::with_defaults();
    let first = client.browse_source(1028);
    let reply = "{\"heos\": {\"command\": \"browse/browse\", \"result\": \"success\", \"message\": \"sid=1028&returned=0&count=0\"}, \"payload\": []}";
    let (sent, end) = run(&mut client, first, &[reply]);
    assert_eq!(sent, vec!["heos://browse/browse?sid=1028\r\n".to_string()]);
    match end {
        Ok(Outcome::Raw(line)) => assert_eq!(line, reply),
        other => panic!("unexpected end {:?}", other),
    }
}

#[test]
fn browse_gives_even_a_failed_response_as_it_came() {
    let mut client = HeosClient::with_defaults();
    let first = client.browse_spotify();
    let reply = "{\"heos\": {\"command\": \"browse/browse\", \"result\": \"fail\", \"message\": \"eid=2&text=ID Not Valid\"}}";
    let (_, end) = run(&mut client, first, &[reply]);
    match end {
        Ok(Outcome::Raw(line)) => assert_eq!(line, reply),
        other => panic!("unexpected end {:?}", other),
    }
}

#[test]
fn mute_and_play_state_are_read_from_the_message() {
    let mut client = HeosClient::with_defaults();
    let first = client.get_mute_current();
    let reply = "{\"heos\": {\"command\": \"player/get_mute\", \"result\": \"success\", \"message\": \"pid=0&state=on\"}}";
    let (_, end) = run(&mut client, first, &[reply]);
    assert!(matches!(end, Ok(Outcome::Mute(MuteState::On))));
    let first = client.get_play_state_current();
    let reply = state_reply("Pause");
    let (_, end) = run(&mut client, first, &[&reply]);
    assert!(matches!(end, Ok(Outcome::PlayState(PlayState::Pause))));
}

#[test]
fn now_playing_is_read_from_the_payload() {
    let mut client = HeosClient::with_defaults();
    let first = client.get_now_playing_current();
    let reply = "{\"heos\": {\"command\": \"player/get_now_playing_media\", \"result\": \"success\", \"message\": \"pid=0\"}, \"payload\": {\"type\": \"song\", \"song\": \"Title\", \"album\": \"Album\", \"artist\": \"Artist\", \"image_url\": \"\", \"mid\": \"m1\", \"qid\": 4, \"sid\": 1024}}";
    let (_, end) = run(&mut client, first, &[reply]);
    match end {
        Ok(Outcome::NowPlaying(media)) => {
            assert_eq!(media.media_type, Some("song".to_string()));
            assert_eq!(media.song, Some("Title".to_string()));
            assert_eq!(media.qid, Some(4));
            assert_eq!(media.sid, Some(1024));
            assert_eq!(media.station, None);
        }
        other => panic!("unexpected end {:?}", other),
    }
}

#[test]
fn player_info_without_payload_gives_the_default_player() {
    let mut client = HeosClient::with_defaults();
    let first = client.get_player_info(1);
    let reply = "{\"heos\":{\"command\":\"player/get_player_info\",\"result\":\"success\",\"message\":\"pid=1\"}}";
    let (sent, end) = run(&mut client, first, &[reply]);
    assert_eq!(sent, vec!["heos://player/get_player_info?pid=1\r\n".to_string()]);
    match end {
        Ok(Outcome::Player(player)) => {
            let blank = Player::default();
            assert_eq!(player.name, blank.name);
            assert_eq!(player.pid, blank.pid);
            assert_eq!(player.model, blank.model);
            assert_eq!(player.version, blank.version);
            assert_eq!(player.ip, blank.ip);
            assert_eq!(player.network, blank.network);
            assert_eq!(player.lineout, blank.lineout);
            assert_eq!(player.serial, blank.serial);
            assert_eq!(player.name, "");
            assert_eq!(player.pid, 0);
            assert_eq!(player.ip, None);
        }
        other => panic!("unexpected end {:?}", other),
    }
}

#[test]
fn player_info_is_read_from_the_payload() {
    let mut client = HeosClient::with_defaults();
    let first = client.get_player_info(7);
    let reply = "{\"heos\":{\"command\":\"player/get_player_info\",\"result\":\"success\",\"message\":\"pid=7\"},\"payload\":{\"name\":\"Den\",\"pid\":7,\"model\":\"HEOS Bar\",\"version\":\"2.0\",\"serial\":\"ABC\"}}";
    let (_, end) = run(&mut client, first, &[reply]);
    match end {
        Ok(Outcome::Player(player)) => {
            assert_eq!(player.name, "Den");
            assert_eq!(player.pid, 7);
            assert_eq!(player.serial, Some("ABC".to_string()));
            assert_eq!(player.ip, None);
        }
        other => panic!("unexpected end {:?}", other),
    }
}

#[test]
fn player_info_that_failed_is_still_a_device_error() {
    let mut client = HeosClient::with_defaults();
    let first = client.get_player_info(9);
    let reply = "{\"heos\":{\"command\":\"player/get_player_info\",\"result\":\"fail\",\"message\":\"eid=2&text=ID Not Valid\"}}";
    let (_, end) = run(&mut client, first, &[reply]);
    match end {
        Err(HeosFailure::Device(error)) => {
            assert_eq!(error.code, 2);
            assert_eq!(error.message, "ID Not Valid");
        }
        other => panic!("unexpected end {:?}", other),
    }
}

#[test]
fn discovery_adopts_the_player_that_was_found() {
    let mut client = HeosClient::with_defaults();
    let first = client.get_players();
    let reply = "{\"heos\":{\"command\":\"player/get_players\",\"result\":\"success\",\"message\":\"\"},\"payload\":[{\"name\":\"Kitchen\",\"pid\":11,\"model\":\"a\",\"version\":\"1\"},{\"name\":\"Living Room\",\"pid\":22,\"model\":\"b\",\"version\":\"1\"}]}";
    let (_, end) = run(&mut client, first, &[reply]);
    let players = match end {
        Ok(Outcome::Players(players)) => players,
        other => panic!("unexpected end {:?}", other),
    };
    let chosen = client.adopt_player(players, Some("LIVING")).unwrap();
    assert_eq!(chosen.pid, 22);
    assert_eq!(client.player_id(), 22);
    let first = client.play();
    let (sent, _) = run(&mut client, first, &[ACK]);
    assert_eq!(sent, vec!["heos://player/set_play_state?pid=22&state=play\r\n".to_string()]);
}

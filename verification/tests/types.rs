use heos::types::{error_codes, inputs, source_ids, DEFAULT_PORT};
use heos::{
    AddCriteria, HeosConfig, HeosError, HeosEvent, MusicSource, MuteState, NowPlayingMedia,
    PlayState, Player, RepeatMode, ShuffleMode,
};

#[test]
fn default_config_points_at_the_usual_address() {
    let config = HeosConfig::default();
    assert_eq!(config.host, "192.168.1.2");
    assert_eq!(config.port, 1255);
    assert_eq!(config.player_id, 0);
    assert_eq!(DEFAULT_PORT, 1255);
}

#[test]
fn config_duplicate_is_equal_in_every_field() {
    let config = HeosConfig { host: "10.0.0.7".to_string(), port: 1300, player_id: -42 };
    let copy = config.duplicate();
    assert_eq!(copy.host, "10.0.0.7");
    assert_eq!(copy.port, 1300);
    assert_eq!(copy.player_id, -42);
}

#[test]
fn play_state_words() {
    assert_eq!(PlayState::Play.as_str(), "play");
    assert_eq!(PlayState::Pause.as_str(), "pause");
    assert_eq!(PlayState::Stop.as_str(), "stop");
    assert_eq!(PlayState::Play.to_string(), "play");
    assert_eq!(PlayState::Pause.to_string(), "pause");
    assert_eq!(PlayState::Stop.to_string(), "stop");
}

#[test]
fn play_state_is_read_whatever_the_case() {
    assert_eq!(PlayState::from_str("play"), Ok(PlayState::Play));
    assert_eq!(PlayState::from_str("PLAY"), Ok(PlayState::Play));
    assert_eq!(PlayState::from_str("Pause"), Ok(PlayState::Pause));
    assert_eq!(PlayState::from_str("pause"), Ok(PlayState::Pause));
    assert_eq!(PlayState::from_str("sToP"), Ok(PlayState::Stop));
}

#[test]
fn play_state_refuses_other_text_and_quotes_it() {
    assert_eq!(PlayState::from_str("bogus"), Err("Unknown play state: bogus".to_string()));
    assert_eq!(PlayState::from_str(""), Err("Unknown play state: ".to_string()));
    assert_eq!(PlayState::from_str(" play"), Err("Unknown play state:  play".to_string()));
    assert_eq!(PlayState::from_str("Playing"), Err("Unknown play state: Playing".to_string()));
    assert_eq!(PlayState::from_str("STOPP"), Err("Unknown play state: STOPP".to_string()));
}

#[test]
fn play_state_words_read_back() {
    for state in [PlayState::Play, PlayState::Pause, PlayState::Stop] {
        assert_eq!(PlayState::from_str(state.as_str()), Ok(state));
        assert_eq!(PlayState::from_str(&state.as_str().to_uppercase()), Ok(state));
    }
}

#[test]
fn mute_state_words() {
    assert_eq!(MuteState::On.as_str(), "on");
    assert_eq!(MuteState::Off.as_str(), "off");
    assert_eq!(MuteState::On.to_string(), "on");
    assert_eq!(MuteState::Off.to_string(), "off");
}

#[test]
fn mute_state_is_read_whatever_the_case() {
    assert_eq!(MuteState::from_str("on"), Ok(MuteState::On));
    assert_eq!(MuteState::from_str("ON"), Ok(MuteState::On));
    assert_eq!(MuteState::from_str("off"), Ok(MuteState::Off));
    assert_eq!(MuteState::from_str("Off"), Ok(MuteState::Off));
    assert_eq!(MuteState::from_str("of"), Err("Unknown mute state: of".to_string()));
    assert_eq!(MuteState::from_str("muted"), Err("Unknown mute state: muted".to_string()));
}

#[test]
fn repeat_and_shuffle_words() {
    assert_eq!(RepeatMode::Off.as_str(), "off");
    assert_eq!(RepeatMode::One.as_str(), "on_one");
    assert_eq!(RepeatMode::All.as_str(), "on_all");
    assert_eq!(RepeatMode::All.to_string(), "on_all");
    assert_eq!(ShuffleMode::On.as_str(), "on");
    assert_eq!(ShuffleMode::Off.as_str(), "off");
    assert_eq!(ShuffleMode::Off.to_string(), "off");
}

#[test]
fn repeat_and_shuffle_reports_are_read_leniently() {
    let word = |text: &str| text.to_string();
    assert_eq!(RepeatMode::from_report(Some(&word("on_one"))), RepeatMode::One);
    assert_eq!(RepeatMode::from_report(Some(&word("on_all"))), RepeatMode::All);
    assert_eq!(RepeatMode::from_report(Some(&word("ON_ALL"))), RepeatMode::All);
    assert_eq!(RepeatMode::from_report(Some(&word("off"))), RepeatMode::Off);
    assert_eq!(RepeatMode::from_report(Some(&word("bogus"))), RepeatMode::Off);
    assert_eq!(RepeatMode::from_report(Some(&word(""))), RepeatMode::Off);
    assert_eq!(RepeatMode::from_report(None), RepeatMode::Off);
    assert_eq!(ShuffleMode::from_report(Some(&word("on"))), ShuffleMode::On);
    assert_eq!(ShuffleMode::from_report(Some(&word("On"))), ShuffleMode::On);
    assert_eq!(ShuffleMode::from_report(Some(&word("off"))), ShuffleMode::Off);
    assert_eq!(ShuffleMode::from_report(Some(&word("yes"))), ShuffleMode::Off);
    assert_eq!(ShuffleMode::from_report(None), ShuffleMode::Off);
}

#[test]
fn heos_error_describes_itself() {
    let error = HeosError { code: 3, message: "Wrong arguments".to_string() };
    assert_eq!(error.to_string(), "HEOS Error 3: Wrong arguments");
    let error = HeosError { code: -1, message: "Unknown error".to_string() };
    assert_eq!(error.to_string(), "HEOS Error -1: Unknown error");
    let error = HeosError { code: i32::MIN, message: String::new() };
    assert_eq!(error.to_string(), "HEOS Error -2147483648: ");
}

#[test]
fn default_records_are_blank() {
    let media = NowPlayingMedia::default();
    assert!(media.media_type.is_none());
    assert!(media.song.is_none());
    assert!(media.album.is_none());
    assert!(media.artist.is_none());
    assert!(media.image_url.is_none());
    assert!(media.mid.is_none());
    assert!(media.qid.is_none());
    assert!(media.sid.is_none());
    assert!(media.station.is_none());
    let player = Player::default();
    assert_eq!(player.name, "");
    assert_eq!(player.pid, 0);
    assert_eq!(player.model, "");
    assert_eq!(player.version, "");
    assert!(player.ip.is_none() && player.network.is_none());
    assert!(player.lineout.is_none() && player.serial.is_none());
    let source = MusicSource::default();
    assert_eq!(source.name, "");
    assert_eq!(source.source_type, "");
    assert_eq!(source.sid, 0);
    assert!(source.image_url.is_none() && source.available.is_none());
    assert!(source.service_username.is_none());
}

#[test]
fn add_criteria_codes() {
    assert_eq!(AddCriteria::PlayNow.code(), 1);
    assert_eq!(AddCriteria::PlayNext.code(), 2);
    assert_eq!(AddCriteria::AddToEnd.code(), 3);
    assert_eq!(AddCriteria::ReplaceAndPlay.code(), 4);
}

#[test]
fn events_know_their_command_and_player() {
    let event = HeosEvent::PlayerStateChanged { pid: 5, state: "play".to_string() };
    assert_eq!(event.command(), "event/player_state_changed");
    assert_eq!(event.player(), Some(5));
    let event = HeosEvent::NowPlayingChanged { pid: 6 };
    assert_eq!(event.command(), "event/player_now_playing_changed");
    assert_eq!(event.player(), Some(6));
    let event = HeosEvent::NowPlayingProgress { pid: 7, cur_pos: 1000, duration: 2000 };
    assert_eq!(event.command(), "event/player_now_playing_progress");
    assert_eq!(event.player(), Some(7));
    let event = HeosEvent::VolumeChanged { pid: 8, level: 30, mute: "off".to_string() };
    assert_eq!(event.command(), "event/player_volume_changed");
    assert_eq!(event.player(), Some(8));
    let event = HeosEvent::QueueChanged { pid: 9 };
    assert_eq!(event.command(), "event/player_queue_changed");
    assert_eq!(event.player(), Some(9));
    assert_eq!(HeosEvent::PlayersChanged.command(), "event/players_changed");
    assert_eq!(HeosEvent::PlayersChanged.player(), None);
    assert_eq!(HeosEvent::GroupsChanged.command(), "event/groups_changed");
    assert_eq!(HeosEvent::GroupsChanged.player(), None);
    assert_eq!(HeosEvent::SourcesChanged.command(), "event/sources_changed");
    assert_eq!(HeosEvent::SourcesChanged.player(), None);
    let event = HeosEvent::PlaybackError { pid: -3, error: "x".to_string() };
    assert_eq!(event.command(), "event/player_playback_error");
    assert_eq!(event.player(), Some(-3));
}

#[test]
fn well_known_source_ids() {
    assert_eq!(source_ids::PANDORA, 1);
    assert_eq!(source_ids::RHAPSODY, 2);
    assert_eq!(source_ids::TUNEIN, 3);
    assert_eq!(source_ids::SPOTIFY, 4);
    assert_eq!(source_ids::DEEZER, 5);
    assert_eq!(source_ids::NAPSTER, 6);
    assert_eq!(source_ids::IHEARTRADIO, 7);
    assert_eq!(source_ids::SIRIUS_XM, 8);
    assert_eq!(source_ids::SOUNDCLOUD, 9);
    assert_eq!(source_ids::TIDAL, 10);
    assert_eq!(source_ids::AMAZON_MUSIC, 13);
    assert_eq!(source_ids::LOCAL_MUSIC, 1024);
    assert_eq!(source_ids::PLAYLISTS, 1025);
    assert_eq!(source_ids::HISTORY, 1026);
    assert_eq!(source_ids::AUX_INPUT, 1027);
    assert_eq!(source_ids::FAVORITES, 1028);
}

#[test]
fn input_names() {
    assert_eq!(inputs::AUX_IN_1, "inputs/aux_in_1");
    assert_eq!(inputs::AUX_IN_2, "inputs/aux_in_2");
    assert_eq!(inputs::AUX_IN_3, "inputs/aux_in_3");
    assert_eq!(inputs::AUX_IN_4, "inputs/aux_in_4");
    assert_eq!(inputs::OPTICAL_IN_1, "inputs/optical_in_1");
    assert_eq!(inputs::OPTICAL_IN_2, "inputs/optical_in_2");
    assert_eq!(inputs::COAX_IN_1, "inputs/coax_in_1");
    assert_eq!(inputs::COAX_IN_2, "inputs/coax_in_2");
    assert_eq!(inputs::HDMI_IN_1, "inputs/hdmi_in_1");
    assert_eq!(inputs::HDMI_IN_2, "inputs/hdmi_in_2");
    assert_eq!(inputs::HDMI_IN_3, "inputs/hdmi_in_3");
    assert_eq!(inputs::HDMI_IN_4, "inputs/hdmi_in_4");
    assert_eq!(inputs::HDMI_ARC_1, "inputs/hdmi_arc_1");
    assert_eq!(inputs::CABLE_SAT, "inputs/cable_sat");
    assert_eq!(inputs::DVD, "inputs/dvd");
    assert_eq!(inputs::BLURAY, "inputs/bluray");
    assert_eq!(inputs::GAME, "inputs/game");
    assert_eq!(inputs::MEDIA_PLAYER, "inputs/mediaplayer");
    assert_eq!(inputs::CD, "inputs/cd");
    assert_eq!(inputs::TUNER, "inputs/tuner");
    assert_eq!(inputs::TV_AUDIO, "inputs/tvaudio");
    assert_eq!(inputs::PHONO, "inputs/phono");
}

#[test]
fn error_numbers() {
    assert_eq!(error_codes::UNRECOGNIZED_COMMAND, 1);
    assert_eq!(error_codes::INVALID_ID, 2);
    assert_eq!(error_codes::WRONG_ARGUMENTS, 3);
    assert_eq!(error_codes::RESOURCE_NOT_FOUND, 4);
    assert_eq!(error_codes::RESOURCE_IN_USE, 5);
    assert_eq!(error_codes::INVALID_CREDENTIALS, 6);
    assert_eq!(error_codes::USER_NOT_LOGGED_IN, 7);
    assert_eq!(error_codes::USER_NOT_FOUND, 8);
    assert_eq!(error_codes::INTERNAL_ERROR, 9);
    assert_eq!(error_codes::SYSTEM_ERROR, 10);
    assert_eq!(error_codes::PROCESSING_ERROR, 12);
    assert_eq!(error_codes::MEDIA_NOT_FOUND, 13);
    assert_eq!(error_codes::OPTION_NOT_SUPPORTED, 14);
    assert_eq!(error_codes::TOO_MANY_REQUESTS, 15);
    assert_eq!(error_codes::COMMAND_NOT_PROCESSED, 16);
}

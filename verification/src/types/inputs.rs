//! The names of the inputs that a player can be told to play.

use vstd::prelude::*;

verus! {

pub const AUX_IN_1: &'static str = "inputs/aux_in_1";

pub const AUX_IN_2: &'static str = "inputs/aux_in_2";

pub const AUX_IN_3: &'static str = "inputs/aux_in_3";

pub const AUX_IN_4: &'static str = "inputs/aux_in_4";

pub const OPTICAL_IN_1: &'static str = "inputs/optical_in_1";

pub const OPTICAL_IN_2: &'static str = "inputs/optical_in_2";

pub const COAX_IN_1: &'static str = "inputs/coax_in_1";

pub const COAX_IN_2: &'static str = "inputs/coax_in_2";

pub const HDMI_IN_1: &'static str = "inputs/hdmi_in_1";

pub const HDMI_IN_2: &'static str = "inputs/hdmi_in_2";

pub const HDMI_IN_3: &'static str = "inputs/hdmi_in_3";

pub const HDMI_IN_4: &'static str = "inputs/hdmi_in_4";

pub const HDMI_ARC_1: &'static str = "inputs/hdmi_arc_1";

pub const CABLE_SAT: &'static str = "inputs/cable_sat";

pub const DVD: &'static str = "inputs/dvd";

pub const BLURAY: &'static str = "inputs/bluray";

pub const GAME: &'static str = "inputs/game";

pub const MEDIA_PLAYER: &'static str = "inputs/mediaplayer";

pub const CD: &'static str = "inputs/cd";

pub const TUNER: &'static str = "inputs/tuner";

pub const TV_AUDIO: &'static str = "inputs/tvaudio";

pub const PHONO: &'static str = "inputs/phono";

} // verus!

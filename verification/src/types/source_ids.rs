//! The source ids that players give to the well-known music services.

use vstd::prelude::*;

verus! {

pub const PANDORA: i64 = 1;

pub const RHAPSODY: i64 = 2;

pub const TUNEIN: i64 = 3;

pub const SPOTIFY: i64 = 4;

pub const DEEZER: i64 = 5;

pub const NAPSTER: i64 = 6;

pub const IHEARTRADIO: i64 = 7;

pub const SIRIUS_XM: i64 = 8;

pub const SOUNDCLOUD: i64 = 9;

pub const TIDAL: i64 = 10;

pub const AMAZON_MUSIC: i64 = 13;

pub const LOCAL_MUSIC: i64 = 1024;

pub const PLAYLISTS: i64 = 1025;

pub const HISTORY: i64 = 1026;

pub const AUX_INPUT: i64 = 1027;

pub const FAVORITES: i64 = 1028;

} // verus!

//! The error numbers that players report.

use vstd::prelude::*;

verus! {

pub const UNRECOGNIZED_COMMAND: i32 = 1;

pub const INVALID_ID: i32 = 2;

pub const WRONG_ARGUMENTS: i32 = 3;

pub const RESOURCE_NOT_FOUND: i32 = 4;

pub const RESOURCE_IN_USE: i32 = 5;

pub const INVALID_CREDENTIALS: i32 = 6;

pub const USER_NOT_LOGGED_IN: i32 = 7;

pub const USER_NOT_FOUND: i32 = 8;

pub const INTERNAL_ERROR: i32 = 9;

pub const SYSTEM_ERROR: i32 = 10;

pub const PROCESSING_ERROR: i32 = 12;

pub const MEDIA_NOT_FOUND: i32 = 13;

pub const OPTION_NOT_SUPPORTED: i32 = 14;

pub const TOO_MANY_REQUESTS: i32 = 15;

pub const COMMAND_NOT_PROCESSED: i32 = 16;

} // verus!

//! The control-change numbers and values of the instrument's extended
//! protocol on the management channel.

use vstd::prelude::*;

verus! {

pub const CC_BANK_SELECT: u8 = 0;

pub const CC_PRESET_GROUP: u8 = 32;

/// Announces a data stream; the value selects its kind, 127 ends it.
pub const CC_DATA_STREAM: u8 = 56;

pub const CC_DOWNLOAD_CONTROL: u8 = 109;

pub const CC_DOWNLOAD_INFO: u8 = 110;

pub const CC_EDITOR_PRESENT: u8 = 116;

pub const DATA_STREAM_END: u8 = 127;

pub const DOWNLOAD_CONTROL_ARCHIVE_OK: u8 = 5;

pub const DOWNLOAD_CONTROL_ARCHIVE_FAIL: u8 = 6;

pub const DOWNLOAD_CONTROL_SAVE_TO_FLASH: u8 = 8;

pub const DOWNLOAD_CONTROL_DSP_DONE: u8 = 26;

pub const DOWNLOAD_CONTROL_END_SYSTEM_NAMES: u8 = 40;

pub const DOWNLOAD_CONTROL_BEGIN_SYSTEM_NAMES: u8 = 49;

pub const DOWNLOAD_CONTROL_BEGIN_USER_NAMES: u8 = 54;

pub const DOWNLOAD_CONTROL_END_USER_NAMES: u8 = 55;

/// The first of the eight bank-erase values: value 115 + bank clears that
/// user bank.
pub const DOWNLOAD_CONTROL_ERASE_BANK0: u8 = 115;

/// The preset under transmission is not the first of a combination.
pub const DOWNLOAD_CONTROL_NOT_FIRST: u8 = 104;

/// The preset under transmission is the first of a dual combination.
pub const DOWNLOAD_CONTROL_FIRST_OF_TWO: u8 = 105;

/// The preset under transmission is the first of a triple combination.
pub const DOWNLOAD_CONTROL_FIRST_OF_THREE: u8 = 106;

pub const DOWNLOAD_INFO_SAVE_PRESET0: u8 = 100;

pub const DOWNLOAD_INFO_BEGIN_ARCHIVE: u8 = 120;

pub const DOWNLOAD_INFO_RETRIEVE_ARCHIVE: u8 = 121;

pub const DOWNLOAD_INFO_END_ARCHIVE: u8 = 124;

/// Request the user preset name listing.
pub const DOWNLOAD_CONTROL_REQUEST_USER_NAMES: u8 = 32;

} // verus!

//! Message tags, as assigned in each direction, and field octets.

use vstd::prelude::*;

verus! {

/// Tags of frontend messages.
pub const PARSE: u8 = 0x50;

pub const BIND: u8 = 0x42;

pub const DESCRIBE: u8 = 0x44;

pub const EXECUTE: u8 = 0x45;

pub const CLOSE: u8 = 0x43;

pub const QUERY: u8 = 0x51;

pub const FUNCTION_CALL: u8 = 0x46;

pub const COPY_FAIL: u8 = 0x66;

pub const PASSWORD: u8 = 0x70;

pub const FLUSH: u8 = 0x48;

pub const SYNC: u8 = 0x53;

pub const TERMINATE: u8 = 0x58;

/// Tags shared by both directions.
pub const COPY_DATA: u8 = 0x64;

pub const COPY_DONE: u8 = 0x63;

/// Tags of backend messages.
pub const ROW_DESCRIPTION: u8 = 0x54;

pub const AUTHENTICATION: u8 = 0x52;

pub const PARAMETER_STATUS: u8 = 0x53;

pub const NOTICE: u8 = 0x4e;

pub const NOTIFICATION: u8 = 0x41;

pub const BACKEND_KEY_DATA: u8 = 0x4b;

pub const READY_FOR_QUERY: u8 = 0x5a;

pub const NEGOTIATE_VERSION: u8 = 0x76;

pub const PARSE_COMPLETE: u8 = 0x31;

pub const BIND_COMPLETE: u8 = 0x32;

pub const CLOSE_COMPLETE: u8 = 0x33;

pub const COMMAND_COMPLETE: u8 = 0x43;

pub const DATA_ROW: u8 = 0x44;

pub const ERROR: u8 = 0x45;

pub const COPY_IN: u8 = 0x47;

pub const COPY_OUT: u8 = 0x48;

pub const EMPTY_QUERY: u8 = 0x49;

pub const NO_DATA: u8 = 0x6e;

pub const PORTAL_SUSPENDED: u8 = 0x73;

pub const PARAMETER_DESCRIPTION: u8 = 0x74;

pub const FUNCTION_RESULT: u8 = 0x56;

pub const COPY_BOTH: u8 = 0x57;

/// Target octets of Describe and Close.
pub const STATEMENT: u8 = 0x53;

pub const PORTAL: u8 = 0x50;

/// Transaction status octets of ReadyForQuery.
pub const IDLE: u8 = 0x49;

pub const IN_TRANSACTION: u8 = 0x54;

pub const FAILED_TRANSACTION: u8 = 0x45;

} // verus!

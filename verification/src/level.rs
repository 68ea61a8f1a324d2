//! Severity levels. A lower number is a more severe level.

use vstd::prelude::*;

verus! {

pub type LogLevel = u32;

/// What a Terrible Failure
pub const WTF: LogLevel = 100;

pub const CRITICAL: LogLevel = 200;

pub const SEVERE: LogLevel = 300;

pub const WARNING: LogLevel = 400;

pub const DEBUG: LogLevel = 500;

pub const INFO: LogLevel = 600;

pub const VERBOSE: LogLevel = 700;

/// The level of a logger that was registered without one.
pub const DEFAULT: LogLevel = DEBUG;

pub const INTERNAL_EXTREME_FAIL: LogLevel = WTF;

/// Whether a logger at `logger_level` lets a message at `msg_level` through.
pub open spec fn passes(msg_level: LogLevel, logger_level: LogLevel) -> bool {
    msg_level <= logger_level
}

/// Decides whether a logger at `logger_level` emits a message at `msg_level`.
pub fn level_passes(msg_level: LogLevel, logger_level: LogLevel) -> (emit: bool)
    ensures
        emit == passes(msg_level, logger_level),
        emit <==> msg_level <= logger_level,
{
    msg_level <= logger_level
}

/// The level that stands for a rank of a logging facade with five ranks,
/// from 1, an error, to 5, a trace.
pub open spec fn rank_level(rank: u8) -> LogLevel {
    if rank <= 1 {
        SEVERE
    } else if rank == 2 {
        WARNING
    } else if rank == 3 {
        INFO
    } else if rank == 4 {
        DEBUG
    } else {
        VERBOSE
    }
}

/// Translates a rank of such a facade to a level.
pub fn level_of_rank(rank: u8) -> (level: LogLevel)
    ensures
        level == rank_level(rank),
{
    if rank <= 1 {
        SEVERE
    } else if rank == 2 {
        WARNING
    } else if rank == 3 {
        INFO
    } else if rank == 4 {
        DEBUG
    } else {
        VERBOSE
    }
}

} // verus!

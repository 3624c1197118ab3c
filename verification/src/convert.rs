//! Fallible conversions between the signed integer columns of the backing
//! store and the identifier and duration values the core works with.

use vstd::prelude::*;
use crate::errors::{BobError, BobResult, ErrorKind};
use crate::model::{ChannelId, GuildId};

verus! {

/// A fallible conversion into `Self` that classifies an out-of-range value
/// as a [`BobError`].
pub trait BobFrom<T>: Sized {
    /// The value the conversion yields, if `val` is representable.
    spec fn bobfrom_ok(val: T) -> Option<Self>;

    /// Convert `val`, failing exactly when it is not representable.
    fn bobfrom(val: T) -> (r: BobResult<Self>)
        ensures
            r matches Ok(v) ==> Self::bobfrom_ok(val) == Some(v),
            Self::bobfrom_ok(val) matches Some(v) ==> r matches Ok(w) && w == v,
            r is Err <==> Self::bobfrom_ok(val) is None,
    ;
}

impl BobFrom<i64> for ChannelId {
    open spec fn bobfrom_ok(val: i64) -> Option<ChannelId> {
        if val >= 0 {
            Some(ChannelId(val as u64))
        } else {
            None
        }
    }

    fn bobfrom(val: i64) -> (r: BobResult<ChannelId>) {
        if val >= 0 {
            Ok(ChannelId(val as u64))
        } else {
            Err(BobError::from_msg(ErrorKind::External, "i64 couldn't be converted into a u64?!"))
        }
    }
}

impl BobFrom<ChannelId> for i64 {
    open spec fn bobfrom_ok(val: ChannelId) -> Option<i64> {
        if val.0 <= i64::MAX {
            Some(val.0 as i64)
        } else {
            None
        }
    }

    fn bobfrom(val: ChannelId) -> (r: BobResult<i64>) {
        if val.0 <= i64::MAX as u64 {
            Ok(val.0 as i64)
        } else {
            Err(BobError::from_msg(ErrorKind::Developer, "ChannelId is larger than a i64"))
        }
    }
}

impl BobFrom<i64> for GuildId {
    open spec fn bobfrom_ok(val: i64) -> Option<GuildId> {
        if val >= 0 {
            Some(GuildId(val as u64))
        } else {
            None
        }
    }

    fn bobfrom(val: i64) -> (r: BobResult<GuildId>) {
        if val >= 0 {
            Ok(GuildId(val as u64))
        } else {
            Err(BobError::from_msg(ErrorKind::Developer, "i64 couldn't be converted into a u64?!"))
        }
    }
}

impl BobFrom<GuildId> for i64 {
    open spec fn bobfrom_ok(val: GuildId) -> Option<i64> {
        if val.0 <= i64::MAX {
            Some(val.0 as i64)
        } else {
            None
        }
    }

    fn bobfrom(val: GuildId) -> (r: BobResult<i64>) {
        if val.0 <= i64::MAX as u64 {
            Ok(val.0 as i64)
        } else {
            Err(BobError::from_msg(ErrorKind::Developer, "GuildId is larger than a i64"))
        }
    }
}

/// Convert a deletion-time column value into a duration in seconds,
/// failing exactly on negative values.
pub fn seconds_from_column(val: i32) -> (r: BobResult<u64>)
    ensures
        r matches Ok(v) ==> val >= 0 && v == val as u64,
        r is Ok <==> val >= 0,
        r matches Err(e) ==> e.knd == ErrorKind::Developer,
{
    if val >= 0 {
        Ok(val as u64)
    } else {
        Err(BobError::from_msg(ErrorKind::Developer, "i32 couldn't be converted into a u64?!"))
    }
}

/// Convert a duration in seconds into a deletion-time column value,
/// failing exactly when it does not fit the column.
pub fn seconds_to_column(val: u64) -> (r: BobResult<i32>)
    ensures
        r matches Ok(v) ==> val <= i32::MAX && v == val as i32,
        r is Ok <==> val <= i32::MAX,
        r matches Err(e) ==> e.knd == ErrorKind::Developer,
{
    if val <= i32::MAX as u64 {
        Ok(val as i32)
    } else {
        Err(BobError::from_msg(ErrorKind::Developer, "Duration is larger than a i32"))
    }
}

} // verus!

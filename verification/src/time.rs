//! File timestamps, and their conversion to what the platform's
//! timestamp-setting primitive takes.

use crate::errors::SyncError;
use vstd::prelude::*;

verus! {

/// Nanoseconds in one second.
pub const NANOS_PER_SEC: u32 = 1_000_000_000;

/// Nanoseconds in one microsecond.
pub const NANOS_PER_MICRO: u32 = 1_000;

/// A file timestamp, held as its distance from the Unix epoch and the
/// direction of that distance.
///
/// The distance is whole seconds plus a sub-second part in nanoseconds.
/// Comparing two timestamps compares all three fields, so no sub-second
/// precision is lost.
#[derive(Clone, Copy, Debug, PartialEq, Eq, Structural)]
pub struct FileTime {
    /// Whether the time lies before the epoch.
    pub before_epoch: bool,
    /// Whole seconds between the time and the epoch.
    pub secs: u64,
    /// The rest of the distance, in nanoseconds.
    pub nanos: u32,
}

impl FileTime {
    /// A well-formed timestamp keeps its sub-second part below one second and
    /// writes the epoch itself in one way only.
    pub open spec fn wf(self) -> bool {
        &&& self.nanos < NANOS_PER_SEC
        &&& self.before_epoch ==> self.secs > 0 || self.nanos > 0
    }

    /// The instant that the timestamp denotes: nanoseconds since the epoch,
    /// negative before it.
    pub open spec fn instant(self) -> int {
        let distance = self.secs * NANOS_PER_SEC + self.nanos;
        if self.before_epoch {
            -distance
        } else {
            distance
        }
    }

    /// Whether the time can be written as a non-negative offset from the
    /// epoch whose seconds fit the platform's signed seconds field.
    pub open spec fn expressible(self) -> bool {
        !self.before_epoch && self.secs <= i64::MAX
    }

    /// Two well-formed timestamps are equal exactly when they denote the same
    /// instant.
    pub proof fn lemma_equal_iff_same_instant(self, other: FileTime)
        requires
            self.wf(),
            other.wf(),
        ensures
            self == other <==> self.instant() == other.instant(),
    {
    }
}

/// How finely the platform's primitive can set a timestamp.
#[derive(Clone, Copy, Debug, PartialEq, Eq, Structural)]
pub enum Precision {
    /// The primitive takes seconds and nanoseconds.
    Nanoseconds,
    /// The primitive takes seconds and microseconds.
    Microseconds,
}

/// One time as the platform's primitive takes it: seconds since the epoch
/// and a sub-second part in the unit of the chosen precision.
#[derive(Clone, Copy, Debug, PartialEq, Eq, Structural)]
pub struct TimeValue {
    /// Whole seconds since the epoch.
    pub secs: i64,
    /// The sub-second part, in nanoseconds or microseconds.
    pub subsec: i64,
}

/// The pair of times handed to the platform's primitive.
#[derive(Clone, Copy, Debug, PartialEq, Eq, Structural)]
pub struct FileTimes {
    /// The time of last access to set.
    pub accessed: TimeValue,
    /// The time of last modification to set.
    pub modified: TimeValue,
}

/// The sub-second part of a timestamp in the unit of the given precision.
/// Microseconds drop what is finer than a microsecond.
pub open spec fn subsec_in(nanos: u32, precision: Precision) -> int {
    match precision {
        Precision::Nanoseconds => nanos as int,
        Precision::Microseconds => nanos as int / NANOS_PER_MICRO as int,
    }
}

/// What the primitive is handed for an expressible timestamp.
pub open spec fn time_value(time: FileTime, precision: Precision) -> TimeValue {
    TimeValue { secs: time.secs as i64, subsec: subsec_in(time.nanos, precision) as i64 }
}

/// The instant that a time value denotes, in nanoseconds since the epoch.
pub open spec fn value_instant(value: TimeValue, precision: Precision) -> int {
    match precision {
        Precision::Nanoseconds => value.secs * NANOS_PER_SEC + value.subsec,
        Precision::Microseconds => value.secs * NANOS_PER_SEC + value.subsec * NANOS_PER_MICRO,
    }
}

/// Converts one timestamp to the form that the primitive takes.
///
/// Fails with [`SyncError::SystemTime`], which carries the timestamp, exactly
/// when the timestamp is not expressible.
pub fn epoch_offset(time: &FileTime, precision: Precision) -> (offset: Result<TimeValue, SyncError>)
    ensures
        time.expressible() ==> offset == Ok::<TimeValue, SyncError>(time_value(*time, precision)),
        !time.expressible() ==> offset == Err::<TimeValue, SyncError>(SyncError::SystemTime(*time)),
{
    if time.before_epoch || time.secs > i64::MAX as u64 {
        return Err(SyncError::SystemTime(*time));
    }
    let subsec: u32 = match precision {
        Precision::Nanoseconds => time.nanos,
        Precision::Microseconds => time.nanos / NANOS_PER_MICRO,
    };
    Ok(TimeValue { secs: time.secs as i64, subsec: subsec as i64 })
}

/// Prepares the accessed and modified times of a file for the platform's
/// primitive.
///
/// The access time is converted first, so when neither time is expressible
/// the error names the access time.
pub fn set_file_times(atime: &FileTime, mtime: &FileTime, precision: Precision) -> (times: Result<
    FileTimes,
    SyncError,
>)
    ensures
        atime.expressible() && mtime.expressible() ==> times == Ok::<FileTimes, SyncError>(
            FileTimes {
                accessed: time_value(*atime, precision),
                modified: time_value(*mtime, precision),
            },
        ),
        !atime.expressible() ==> times == Err::<FileTimes, SyncError>(
            SyncError::SystemTime(*atime),
        ),
        atime.expressible() && !mtime.expressible() ==> times == Err::<FileTimes, SyncError>(
            SyncError::SystemTime(*mtime),
        ),
{
    let accessed = match epoch_offset(atime, precision) {
        Ok(value) => value,
        Err(error) => {
            return Err(error);
        },
    };
    let modified = match epoch_offset(mtime, precision) {
        Ok(value) => value,
        Err(error) => {
            return Err(error);
        },
    };
    Ok(FileTimes { accessed, modified })
}

/// Judges what the platform's primitive returned: zero is success, anything
/// else is a failure that carries the operating system's error code.
pub fn primitive_outcome(status: i32, os_error: i32) -> (outcome: Result<(), SyncError>)
    ensures
        status == 0 ==> outcome == Ok::<(), SyncError>(()),
        status != 0 ==> outcome == Err::<(), SyncError>(SyncError::Io(os_error)),
{
    if status == 0 {
        Ok(())
    } else {
        Err(SyncError::Io(os_error))
    }
}

/// With nanosecond precision the value handed to the primitive denotes the
/// very instant of the timestamp.
pub proof fn lemma_nanoseconds_keep_instant(time: FileTime)
    requires
        time.wf(),
        time.expressible(),
    ensures
        value_instant(time_value(time, Precision::Nanoseconds), Precision::Nanoseconds)
            == time.instant(),
{
}

/// With microsecond precision the value handed to the primitive is the
/// timestamp rounded down to a whole microsecond: it is never later than the
/// timestamp and less than one microsecond earlier.
pub proof fn lemma_microseconds_round_down(time: FileTime)
    requires
        time.wf(),
        time.expressible(),
    ensures
        ({
            let set = value_instant(
                time_value(time, Precision::Microseconds),
                Precision::Microseconds,
            );
            set <= time.instant() < set + NANOS_PER_MICRO
        }),
{
}

} // verus!

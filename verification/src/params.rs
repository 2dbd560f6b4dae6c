//! What the file system is handed besides plain fields of a request.

use vstd::prelude::*;
use crate::protocol::{
    has_flag, has_flag_spec, FuseLockIn, FuseSetAttrIn, FATTR_ATIME, FATTR_BKUPTIME,
    FATTR_CHGTIME, FATTR_CRTIME, FATTR_FH, FATTR_FLAGS, FATTR_GID, FATTR_MODE, FATTR_MTIME,
    FATTR_SIZE, FATTR_UID,
};
use crate::target::Os;

verus! {

pub const NANOS_PER_SEC: u32 = 1_000_000_000;

/// A time since the Unix epoch, with less than a second in `nanos`.
#[derive(Debug, Clone, Copy, PartialEq, Eq)]
pub struct SinceEpoch {
    pub secs: u64,
    pub nanos: u32,
}

/// Seconds and nanoseconds together, in nanoseconds.
pub open spec fn total_nanos(secs: u64, nanos: u32) -> int {
    secs * NANOS_PER_SEC + nanos
}

impl SinceEpoch {
    /// The time that lies `secs` and `nanos` after the epoch. There may be a
    /// second or more in `nanos`. `None` if the whole seconds are too many.
    pub open spec fn new_spec(secs: u64, nanos: u32) -> Option<SinceEpoch> {
        let total = total_nanos(secs, nanos);
        if total / (NANOS_PER_SEC as int) > u64::MAX {
            None
        } else {
            Some(
                SinceEpoch {
                    secs: (total / (NANOS_PER_SEC as int)) as u64,
                    nanos: (total % (NANOS_PER_SEC as int)) as u32,
                },
            )
        }
    }

    /// The time that lies `secs` and `nanos` after the epoch.
    pub fn new(secs: u64, nanos: u32) -> (time: Option<SinceEpoch>)
        ensures
            time == SinceEpoch::new_spec(secs, nanos),
    {
        let carry: u64 = (nanos / NANOS_PER_SEC) as u64;
        if secs > u64::MAX - carry {
            None
        } else {
            Some(SinceEpoch { secs: secs + carry, nanos: nanos % NANOS_PER_SEC })
        }
    }
}

/// The attributes to set: those that are `Some`. What their times are on the
/// system clock, `times_on` says.
#[derive(Debug, Clone, Copy, PartialEq, Eq)]
pub struct SetAttrParam {
    pub mode: Option<u32>,
    pub u_id: Option<u32>,
    pub g_id: Option<u32>,
    pub size: Option<u64>,
    pub a_time: Option<SinceEpoch>,
    pub m_time: Option<SinceEpoch>,
    pub fh: Option<u64>,
    /// Never set on Linux; the same holds of the next two.
    pub crtime: Option<SinceEpoch>,
    pub chgtime: Option<SinceEpoch>,
    pub bkuptime: Option<SinceEpoch>,
    /// Never set on Linux.
    pub flags: Option<u32>,
}

/// A field of a request, where its flag says that it is meant.
pub open spec fn field_if<T>(meant: bool, field: T) -> Option<T> {
    if meant {
        Some(field)
    } else {
        None
    }
}

/// A field of a request, where its flag says that it is meant.
fn take_if<T>(meant: bool, field: T) -> (r: Option<T>)
    ensures
        r == field_if(meant, field),
{
    if meant {
        Some(field)
    } else {
        None
    }
}

/// Whether a time is out of range although the request means it.
pub open spec fn time_overflows(meant: bool, secs: u64, nanos: u32) -> bool {
    meant && SinceEpoch::new_spec(secs, nanos) is None
}

/// A time of a request, where its flag says that it is meant.
pub open spec fn time_if(meant: bool, secs: u64, nanos: u32) -> Option<SinceEpoch> {
    if meant {
        SinceEpoch::new_spec(secs, nanos)
    } else {
        None
    }
}

/// A time of a request, where its flag says that it is meant. The outer `None`
/// says that it is out of range.
fn take_time_if(meant: bool, secs: u64, nanos: u32) -> (r: Option<Option<SinceEpoch>>)
    ensures
        r is None <==> time_overflows(meant, secs, nanos),
        r matches Some(time) ==> time == time_if(meant, secs, nanos),
{
    if meant {
        match SinceEpoch::new(secs, nanos) {
            Some(time) => Some(Some(time)),
            None => None,
        }
    } else {
        Some(None)
    }
}

/// Whether a request means a field that only macOS has.
pub open spec fn means_extra(arg: FuseSetAttrIn, os: Os, flag: u32) -> bool {
    os == Os::MacOs && has_flag_spec(arg.valid, flag)
}

impl SetAttrParam {
    /// Whether one of the times that a request means is out of range.
    pub open spec fn some_time_overflows(arg: FuseSetAttrIn, os: Os) -> bool {
        ||| time_overflows(has_flag_spec(arg.valid, FATTR_ATIME), arg.atime, arg.atimensec)
        ||| time_overflows(has_flag_spec(arg.valid, FATTR_MTIME), arg.mtime, arg.mtimensec)
        ||| time_overflows(means_extra(arg, os, FATTR_CRTIME), arg.crtime, arg.crtimensec)
        ||| time_overflows(means_extra(arg, os, FATTR_CHGTIME), arg.chgtime, arg.chgtimensec)
        ||| time_overflows(means_extra(arg, os, FATTR_BKUPTIME), arg.bkuptime, arg.bkuptimensec)
    }

    /// The attributes that a request sets: each field whose flag is in `valid`.
    pub open spec fn from_request_spec(arg: FuseSetAttrIn, os: Os) -> SetAttrParam {
        SetAttrParam {
            mode: field_if(has_flag_spec(arg.valid, FATTR_MODE), arg.mode),
            u_id: field_if(has_flag_spec(arg.valid, FATTR_UID), arg.uid),
            g_id: field_if(has_flag_spec(arg.valid, FATTR_GID), arg.gid),
            size: field_if(has_flag_spec(arg.valid, FATTR_SIZE), arg.size),
            a_time: time_if(has_flag_spec(arg.valid, FATTR_ATIME), arg.atime, arg.atimensec),
            m_time: time_if(has_flag_spec(arg.valid, FATTR_MTIME), arg.mtime, arg.mtimensec),
            fh: field_if(has_flag_spec(arg.valid, FATTR_FH), arg.fh),
            crtime: time_if(means_extra(arg, os, FATTR_CRTIME), arg.crtime, arg.crtimensec),
            chgtime: time_if(means_extra(arg, os, FATTR_CHGTIME), arg.chgtime, arg.chgtimensec),
            bkuptime: time_if(means_extra(arg, os, FATTR_BKUPTIME), arg.bkuptime, arg.bkuptimensec),
            flags: field_if(means_extra(arg, os, FATTR_FLAGS), arg.flags),
        }
    }

    /// The attributes that a request sets. `None` if a time among them is out
    /// of range.
    pub fn from_request(arg: &FuseSetAttrIn, os: Os) -> (param: Option<SetAttrParam>)
        ensures
            param is None <==> SetAttrParam::some_time_overflows(*arg, os),
            param matches Some(p) ==> p == SetAttrParam::from_request_spec(*arg, os),
    {
        let a_time = take_time_if(has_flag(arg.valid, FATTR_ATIME), arg.atime, arg.atimensec);
        let m_time = take_time_if(has_flag(arg.valid, FATTR_MTIME), arg.mtime, arg.mtimensec);
        let extra = match os {
            Os::Linux => false,
            Os::MacOs => true,
        };
        let crtime = take_time_if(
            extra && has_flag(arg.valid, FATTR_CRTIME),
            arg.crtime,
            arg.crtimensec,
        );
        let chgtime = take_time_if(
            extra && has_flag(arg.valid, FATTR_CHGTIME),
            arg.chgtime,
            arg.chgtimensec,
        );
        let bkuptime = take_time_if(
            extra && has_flag(arg.valid, FATTR_BKUPTIME),
            arg.bkuptime,
            arg.bkuptimensec,
        );
        match (a_time, m_time, crtime, chgtime, bkuptime) {
            (Some(a_time), Some(m_time), Some(crtime), Some(chgtime), Some(bkuptime)) => Some(
                SetAttrParam {
                    mode: take_if(has_flag(arg.valid, FATTR_MODE), arg.mode),
                    u_id: take_if(has_flag(arg.valid, FATTR_UID), arg.uid),
                    g_id: take_if(has_flag(arg.valid, FATTR_GID), arg.gid),
                    size: take_if(has_flag(arg.valid, FATTR_SIZE), arg.size),
                    a_time,
                    m_time,
                    fh: take_if(has_flag(arg.valid, FATTR_FH), arg.fh),
                    crtime,
                    chgtime,
                    bkuptime,
                    flags: take_if(extra && has_flag(arg.valid, FATTR_FLAGS), arg.flags),
                },
            ),
            _ => None,
        }
    }
}

/// Which of the times to set the system clock has. What it says of a time that
/// is not set is of no account.
#[derive(Debug, Clone, Copy, PartialEq, Eq)]
pub struct OnClock {
    pub a_time: bool,
    pub m_time: bool,
    pub crtime: bool,
    pub chgtime: bool,
    pub bkuptime: bool,
}

/// A time on the system clock.
#[derive(Debug, Clone, Copy, PartialEq, Eq)]
pub enum ClockTime {
    /// The time that lies this long after the Unix epoch.
    At(SinceEpoch),
    /// The current time.
    Now,
}

/// The times to set, as they are on the system clock.
#[derive(Debug, Clone, Copy, PartialEq, Eq)]
pub struct ClockTimes {
    pub a_time: Option<SinceEpoch>,
    pub m_time: Option<SinceEpoch>,
    pub crtime: Option<ClockTime>,
    pub chgtime: Option<ClockTime>,
    pub bkuptime: Option<ClockTime>,
}

/// A time that only macOS has, on the system clock: the current time takes its
/// place where the clock has no such time.
pub open spec fn extra_time_spec(time: Option<SinceEpoch>, on_clock: bool) -> Option<ClockTime> {
    match time {
        Some(time) => Some(
            if on_clock {
                ClockTime::At(time)
            } else {
                ClockTime::Now
            },
        ),
        None => None,
    }
}

/// A time that only macOS has, on the system clock.
fn extra_time(time: Option<SinceEpoch>, on_clock: bool) -> (r: Option<ClockTime>)
    ensures
        r == extra_time_spec(time, on_clock),
{
    match time {
        Some(time) => if on_clock {
            Some(ClockTime::At(time))
        } else {
            Some(ClockTime::Now)
        },
        None => None,
    }
}

impl SetAttrParam {
    /// The times to set, on a system clock that has these of them. `None` where
    /// it lacks the access or the modification time to set: such a request
    /// cannot be processed. It may lack the others.
    pub open spec fn times_on_spec(self, clock: OnClock) -> Option<ClockTimes> {
        if (self.a_time is Some && !clock.a_time) || (self.m_time is Some && !clock.m_time) {
            None
        } else {
            Some(
                ClockTimes {
                    a_time: self.a_time,
                    m_time: self.m_time,
                    crtime: extra_time_spec(self.crtime, clock.crtime),
                    chgtime: extra_time_spec(self.chgtime, clock.chgtime),
                    bkuptime: extra_time_spec(self.bkuptime, clock.bkuptime),
                },
            )
        }
    }

    /// The times to set, on a system clock that has these of them. `None` where
    /// the request cannot be processed.
    pub fn times_on(&self, clock: &OnClock) -> (times: Option<ClockTimes>)
        ensures
            times == self.times_on_spec(*clock),
    {
        if (self.a_time.is_some() && !clock.a_time) || (self.m_time.is_some() && !clock.m_time) {
            return None;
        }
        Some(
            ClockTimes {
                a_time: self.a_time,
                m_time: self.m_time,
                crtime: extra_time(self.crtime, clock.crtime),
                chgtime: extra_time(self.chgtime, clock.chgtime),
                bkuptime: extra_time(self.bkuptime, clock.bkuptime),
            },
        )
    }
}

/// On a clock that has all the times to set, each is set to what the request
/// says.
pub proof fn law_times_on_a_sufficient_clock(param: SetAttrParam, clock: OnClock)
    requires
        param.a_time is Some ==> clock.a_time,
        param.m_time is Some ==> clock.m_time,
        param.crtime is Some ==> clock.crtime,
        param.chgtime is Some ==> clock.chgtime,
        param.bkuptime is Some ==> clock.bkuptime,
    ensures
        param.times_on_spec(clock) matches Some(times) && times.a_time == param.a_time
            && times.m_time == param.m_time && (match param.crtime {
            Some(time) => times.crtime == Some(ClockTime::At(time)),
            None => times.crtime is None,
        }) && (match param.chgtime {
            Some(time) => times.chgtime == Some(ClockTime::At(time)),
            None => times.chgtime is None,
        }) && (match param.bkuptime {
            Some(time) => times.bkuptime == Some(ClockTime::At(time)),
            None => times.bkuptime is None,
        }),
{
}

/// The access and the modification time are never another than the request
/// says: where the clock lacks one that is set, there are no times to set. Each
/// of the others is the current time exactly where it is set and the clock lacks
/// it, whatever holds of the rest.
pub proof fn law_current_time_stands_in(param: SetAttrParam, clock: OnClock)
    ensures
        param.times_on_spec(clock) is None <==> (param.a_time is Some && !clock.a_time) || (
        param.m_time is Some && !clock.m_time),
        param.times_on_spec(clock) matches Some(times) ==> {
            &&& times.a_time == param.a_time
            &&& times.m_time == param.m_time
            &&& times.crtime is Some <==> param.crtime is Some
            &&& times.crtime == Some(ClockTime::Now) <==> param.crtime is Some && !clock.crtime
            &&& times.crtime matches Some(ClockTime::At(time)) ==> param.crtime == Some(time)
            &&& times.chgtime is Some <==> param.chgtime is Some
            &&& times.chgtime == Some(ClockTime::Now) <==> param.chgtime is Some && !clock.chgtime
            &&& times.chgtime matches Some(ClockTime::At(time)) ==> param.chgtime == Some(time)
            &&& times.bkuptime is Some <==> param.bkuptime is Some
            &&& times.bkuptime == Some(ClockTime::Now) <==> param.bkuptime is Some
                && !clock.bkuptime
            &&& times.bkuptime matches Some(ClockTime::At(time)) ==> param.bkuptime == Some(time)
        },
{
}

/// The current time is never set on Linux, and whether a request can be
/// processed does not depend on the times that only macOS has.
pub proof fn law_now_is_for_extra_times(arg: FuseSetAttrIn, os: Os, clock: OnClock)
    ensures
        ({
            let param = SetAttrParam::from_request_spec(arg, os);
            &&& os == Os::Linux ==> (param.times_on_spec(clock) matches Some(times) ==> {
                times.crtime is None && times.chgtime is None && times.bkuptime is None
            })
            &&& param.times_on_spec(clock) is None <==> (param.a_time is Some && !clock.a_time) || (
            param.m_time is Some && !clock.m_time)
        }),
{
}

/// A time is the one that its seconds and nanoseconds add up to, however they
/// are split between the two.
pub proof fn law_time_adds_up(secs: u64, nanos: u32)
    ensures
        SinceEpoch::new_spec(secs, nanos) matches Some(time) ==> {
            &&& total_nanos(time.secs, time.nanos) == total_nanos(secs, nanos)
            &&& time.nanos < NANOS_PER_SEC
        },
        SinceEpoch::new_spec(secs, nanos) is None <==> total_nanos(secs, nanos) >= (u64::MAX + 1)
            * NANOS_PER_SEC,
{
}

/// A request sets exactly the attributes whose flags it holds; a request whose
/// times are in range sets each of them to what it says.
pub proof fn law_attributes_set(arg: FuseSetAttrIn, os: Os)
    requires
        !SetAttrParam::some_time_overflows(arg, os),
    ensures
        ({
            let param = SetAttrParam::from_request_spec(arg, os);
            &&& param.mode is Some <==> has_flag_spec(arg.valid, FATTR_MODE)
            &&& param.u_id is Some <==> has_flag_spec(arg.valid, FATTR_UID)
            &&& param.g_id is Some <==> has_flag_spec(arg.valid, FATTR_GID)
            &&& param.size is Some <==> has_flag_spec(arg.valid, FATTR_SIZE)
            &&& param.a_time is Some <==> has_flag_spec(arg.valid, FATTR_ATIME)
            &&& param.m_time is Some <==> has_flag_spec(arg.valid, FATTR_MTIME)
            &&& param.fh is Some <==> has_flag_spec(arg.valid, FATTR_FH)
            &&& param.a_time matches Some(time) ==> total_nanos(time.secs, time.nanos)
                == total_nanos(arg.atime, arg.atimensec)
            &&& param.m_time matches Some(time) ==> total_nanos(time.secs, time.nanos)
                == total_nanos(arg.mtime, arg.mtimensec)
        }),
{
    law_time_adds_up(arg.atime, arg.atimensec);
    law_time_adds_up(arg.mtime, arg.mtimensec);
}

/// Whether a time is set exactly where it is meant, and then to the one that
/// lies so many seconds and nanoseconds after the epoch, with whole seconds
/// carried over.
pub open spec fn is_set_to(time: Option<SinceEpoch>, meant: bool, secs: u64, nanos: u32) -> bool {
    match time {
        Some(time) => {
            &&& meant
            &&& time.secs == secs + nanos / 1_000_000_000
            &&& time.nanos == nanos % 1_000_000_000
        },
        None => !meant,
    }
}

/// Whether the attributes to set are those that the bits of `valid` stand for,
/// each with the value of the request's field of that name in every bit.
pub open spec fn sets_what_is_meant(param: SetAttrParam, arg: FuseSetAttrIn, os: Os) -> bool {
    let mac = os is MacOs;
    &&& param.mode is Some <==> arg.valid & 0x1 != 0
    &&& param.mode matches Some(mode) ==> mode == arg.mode
    &&& param.u_id is Some <==> arg.valid & 0x2 != 0
    &&& param.u_id matches Some(u_id) ==> u_id == arg.uid
    &&& param.g_id is Some <==> arg.valid & 0x4 != 0
    &&& param.g_id matches Some(g_id) ==> g_id == arg.gid
    &&& param.size is Some <==> arg.valid & 0x8 != 0
    &&& param.size matches Some(size) ==> size == arg.size
    &&& is_set_to(param.a_time, arg.valid & 0x10 != 0, arg.atime, arg.atimensec)
    &&& is_set_to(param.m_time, arg.valid & 0x20 != 0, arg.mtime, arg.mtimensec)
    &&& param.fh is Some <==> arg.valid & 0x40 != 0
    &&& param.fh matches Some(fh) ==> fh == arg.fh
    &&& is_set_to(param.crtime, mac && arg.valid & 0x1000_0000 != 0, arg.crtime, arg.crtimensec)
    &&& is_set_to(param.chgtime, mac && arg.valid & 0x2000_0000 != 0, arg.chgtime, arg.chgtimensec)
    &&& is_set_to(
        param.bkuptime,
        mac && arg.valid & 0x4000_0000 != 0,
        arg.bkuptime,
        arg.bkuptimensec,
    )
    &&& param.flags is Some <==> mac && arg.valid & 0x8000_0000 != 0
    &&& param.flags matches Some(flags) ==> flags == arg.flags
}

/// A request sets each attribute whose bit is in `valid`, to the value that the
/// request holds for it, and no other attribute. The creation, change and backup
/// times and the flags are set on macOS only. A time that is meant is out of range
/// where its whole seconds are more than a 64-bit number holds, and only there.
pub proof fn law_request_sets_what_it_means(arg: FuseSetAttrIn, os: Os)
    ensures
        ({
            let mac = os is MacOs;
            SetAttrParam::some_time_overflows(arg, os) <==> {
                ||| arg.valid & 0x10 != 0 && arg.atime + arg.atimensec / 1_000_000_000 > u64::MAX
                ||| arg.valid & 0x20 != 0 && arg.mtime + arg.mtimensec / 1_000_000_000 > u64::MAX
                ||| mac && arg.valid & 0x1000_0000 != 0 && arg.crtime + arg.crtimensec
                    / 1_000_000_000 > u64::MAX
                ||| mac && arg.valid & 0x2000_0000 != 0 && arg.chgtime + arg.chgtimensec
                    / 1_000_000_000 > u64::MAX
                ||| mac && arg.valid & 0x4000_0000 != 0 && arg.bkuptime + arg.bkuptimensec
                    / 1_000_000_000 > u64::MAX
            }
        }),
        !SetAttrParam::some_time_overflows(arg, os) ==> sets_what_is_meant(
            SetAttrParam::from_request_spec(arg, os),
            arg,
            os,
        ),
{
    law_seconds_carry_over(arg.atime, arg.atimensec);
    law_seconds_carry_over(arg.mtime, arg.mtimensec);
    law_seconds_carry_over(arg.crtime, arg.crtimensec);
    law_seconds_carry_over(arg.chgtime, arg.chgtimensec);
    law_seconds_carry_over(arg.bkuptime, arg.bkuptimensec);
}

/// Whole seconds among the nanoseconds of a time are carried over to its
/// seconds, and the rest stays. There is such a time unless the seconds are then
/// more than a 64-bit number holds.
pub proof fn law_seconds_carry_over(secs: u64, nanos: u32)
    ensures
        SinceEpoch::new_spec(secs, nanos) is None <==> secs + nanos / 1_000_000_000 > u64::MAX,
        SinceEpoch::new_spec(secs, nanos) matches Some(time) ==> time.secs == secs + nanos
            / 1_000_000_000 && time.nanos == nanos % 1_000_000_000,
{
}

/// The attributes that only macOS has are never set on Linux.
pub proof fn law_no_extra_attributes_on_linux(arg: FuseSetAttrIn)
    ensures
        ({
            let param = SetAttrParam::from_request_spec(arg, Os::Linux);
            param.crtime is None && param.chgtime is None && param.bkuptime is None
                && param.flags is None
        }),
{
}

/// A request that holds no flag sets nothing.
pub proof fn law_no_flag_sets_nothing(arg: FuseSetAttrIn, os: Os)
    requires
        arg.valid == 0,
    ensures
        !SetAttrParam::some_time_overflows(arg, os),
        SetAttrParam::from_request_spec(arg, os) == (SetAttrParam {
            mode: None,
            u_id: None,
            g_id: None,
            size: None,
            a_time: None,
            m_time: None,
            fh: None,
            crtime: None,
            chgtime: None,
            bkuptime: None,
            flags: None,
        }),
{
    assert(forall|flag: u32| #[trigger] (0u32 & flag) == 0) by (bit_vector);
}

/// A file lock, as the file system is asked for it.
#[derive(Debug, Clone, Copy, PartialEq, Eq)]
pub struct FileLockParam {
    pub fh: u64,
    pub lock_owner: u64,
    pub start: u64,
    pub end: u64,
    pub typ: u32,
    pub pid: u32,
}

impl FileLockParam {
    /// The lock that a request is about.
    pub open spec fn from_request_spec(arg: FuseLockIn) -> FileLockParam {
        FileLockParam {
            fh: arg.fh,
            lock_owner: arg.owner,
            start: arg.lk.start,
            end: arg.lk.end,
            typ: arg.lk.typ,
            pid: arg.lk.pid,
        }
    }

    /// The lock that a request is about.
    pub fn from_request(arg: &FuseLockIn) -> (param: FileLockParam)
        ensures
            param == FileLockParam::from_request_spec(*arg),
    {
        FileLockParam {
            fh: arg.fh,
            lock_owner: arg.owner,
            start: arg.lk.start,
            end: arg.lk.end,
            typ: arg.lk.typ,
            pid: arg.lk.pid,
        }
    }
}

} // verus!

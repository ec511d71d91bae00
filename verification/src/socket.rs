use crate::error::TsnError;
use crate::time::Timespec;
use vstd::prelude::*;

verus! {

/// Smallest VLAN id.
pub const VLAN_ID_MIN: u16 = 1;

/// Largest VLAN id.
pub const VLAN_ID_MAX: u16 = 4094;

/// Largest socket priority.
pub const PRIORITY_MAX: u32 = 7;

/// Octets of an interface name in a request to the kernel, the closing zero
/// included.
pub const IFNAMSIZ: usize = 16;

/// The error number of a call that found nothing to do yet.
pub const EAGAIN: i32 = 11;

/// Level of the socket's own options and control messages.
pub const SOL_SOCKET: i32 = 1;

/// The control message that carries nanosecond receive times.
pub const SO_TIMESTAMPNS: i32 = 35;

/// The control message that carries the three transmit times.
pub const SO_TIMESTAMPING: i32 = 37;

/// Timestamp transmissions in hardware.
pub const SOF_TIMESTAMPING_TX_HARDWARE: u32 = 1;

/// Timestamp transmissions in software.
pub const SOF_TIMESTAMPING_TX_SOFTWARE: u32 = 2;

/// Timestamp receptions in hardware.
pub const SOF_TIMESTAMPING_RX_HARDWARE: u32 = 4;

/// Timestamp receptions in software.
pub const SOF_TIMESTAMPING_RX_SOFTWARE: u32 = 8;

/// Report software timestamps.
pub const SOF_TIMESTAMPING_SOFTWARE: u32 = 16;

/// Report hardware timestamps converted to system time.
pub const SOF_TIMESTAMPING_SYS_HARDWARE: u32 = 32;

/// Report hardware timestamps as they are.
pub const SOF_TIMESTAMPING_RAW_HARDWARE: u32 = 64;

/// Milliseconds that reading a transmit timestamp waits for the error queue.
pub const TX_TIMESTAMP_POLL_MS: i32 = 1000;

/// A raw layer-2 endpoint on a VLAN sub-interface.
#[derive(Clone, Debug, PartialEq, Eq)]
pub struct TsnSocket {
    /// The kernel's descriptor; negative once the socket is closed.
    pub fd: i32,
    /// The interface below the VLAN, by its full name.
    pub ifname: String,
    pub vlanid: u16,
}

/// A receive timeout as the kernel takes it.
#[derive(Clone, Copy, Debug, PartialEq, Eq, Structural)]
pub struct Timeval {
    pub tv_sec: i64,
    pub tv_usec: i64,
}

/// Checks what a socket is opened with: the VLAN id lies in its range, else
/// `InvalidConfig`; the priority lies in its range, else `InvalidArgument`.
pub fn check_open(vlanid: u16, priority: u32) -> (r: Result<(), TsnError>)
    ensures
        r == if !(VLAN_ID_MIN <= vlanid <= VLAN_ID_MAX) {
            Err::<(), TsnError>(TsnError::InvalidConfig)
        } else if priority > PRIORITY_MAX {
            Err::<(), TsnError>(TsnError::InvalidArgument)
        } else {
            Ok::<(), TsnError>(())
        },
{
    if vlanid < VLAN_ID_MIN || vlanid > VLAN_ID_MAX {
        Err(TsnError::InvalidConfig)
    } else if priority > PRIORITY_MAX {
        Err(TsnError::InvalidArgument)
    } else {
        Ok(())
    }
}

/// The steps of opening a socket, in order.
#[derive(Clone, Copy, Debug, PartialEq, Eq, Structural)]
pub enum OpenStage {
    /// Find the interface's configuration.
    Config,
    /// Record this process as a user of the VLAN.
    Acquire,
    /// Create the VLAN and install its qdiscs.
    Apply,
    /// Look up the sub-interface's index.
    Index,
    /// Create the raw socket.
    Socket,
    /// Set the socket's priority.
    Priority,
    /// Bind the socket to the sub-interface.
    Bind,
}

/// The steps of closing a socket, in order.
#[derive(Clone, Copy, Debug, PartialEq, Eq, Structural)]
pub enum CloseStage {
    /// Take this process out of the VLAN's users.
    Release,
    /// Remove the shared segment.
    Unlink,
    /// Delete the VLAN and its qdiscs.
    Revert,
    /// Close the kernel's descriptor.
    CloseFd,
}

/// How a step ended.
#[derive(Clone, Copy, Debug, PartialEq, Eq, Structural)]
pub enum StepResult {
    /// It succeeded.
    Done,
    /// It succeeded, and the record of users was empty before (on acquiring)
    /// or is empty now (on releasing).
    DoneEmpty,
    /// The record of users is full.
    Full,
    /// It failed.
    Failed,
}

/// What follows a step of opening.
#[derive(Clone, Copy, Debug, PartialEq, Eq, Structural)]
pub enum OpenNext {
    Do(OpenStage),
    Opened,
    Fail(TsnError),
}

/// What follows a step of closing.
#[derive(Clone, Copy, Debug, PartialEq, Eq, Structural)]
pub enum CloseNext {
    /// Go on with this step; the flag says whether the close has failed.
    Do(CloseStage, bool),
    /// The socket is closed; the error, if any, is that of the close.
    Closed(Option<TsnError>),
}

/// The error that a failed step of opening gives.
pub open spec fn open_error(stage: OpenStage, result: StepResult) -> TsnError {
    match stage {
        OpenStage::Config => TsnError::ConfigMissing,
        OpenStage::Acquire => if result == StepResult::Full {
            TsnError::TooManyUsers
        } else {
            TsnError::RegistryUnavailable
        },
        OpenStage::Apply => TsnError::BringUpFailed,
        _ => TsnError::BindFailed,
    }
}

/// What follows a step of opening. The VLAN is created by the first user
/// only; every failure ends the opening with the step's error.
pub open spec fn open_after(stage: OpenStage, result: StepResult) -> OpenNext {
    if result == StepResult::Failed || result == StepResult::Full {
        OpenNext::Fail(open_error(stage, result))
    } else {
        match stage {
            OpenStage::Config => OpenNext::Do(OpenStage::Acquire),
            OpenStage::Acquire => if result == StepResult::DoneEmpty {
                OpenNext::Do(OpenStage::Apply)
            } else {
                OpenNext::Do(OpenStage::Index)
            },
            OpenStage::Apply => OpenNext::Do(OpenStage::Index),
            OpenStage::Index => OpenNext::Do(OpenStage::Socket),
            OpenStage::Socket => OpenNext::Do(OpenStage::Priority),
            OpenStage::Priority => OpenNext::Do(OpenStage::Bind),
            OpenStage::Bind => OpenNext::Opened,
        }
    }
}

/// What follows a step of closing, given whether an earlier step failed. The
/// VLAN is deleted when the last user leaves; a failure to delete it is not
/// held against the close; the descriptor is closed whatever happened.
pub open spec fn close_after(stage: CloseStage, result: StepResult, failed: bool) -> CloseNext {
    let bad = result == StepResult::Failed || result == StepResult::Full;
    match stage {
        CloseStage::Release => if bad {
            CloseNext::Do(CloseStage::CloseFd, true)
        } else if result == StepResult::DoneEmpty {
            CloseNext::Do(CloseStage::Unlink, failed)
        } else {
            CloseNext::Do(CloseStage::CloseFd, failed)
        },
        CloseStage::Unlink => if bad {
            CloseNext::Do(CloseStage::CloseFd, true)
        } else {
            CloseNext::Do(CloseStage::Revert, failed)
        },
        CloseStage::Revert => CloseNext::Do(CloseStage::CloseFd, failed),
        CloseStage::CloseFd => if failed {
            CloseNext::Closed(Some(TsnError::TeardownFailed))
        } else {
            CloseNext::Closed(None)
        },
    }
}

/// Decides what follows a step of opening a socket. Opening starts with
/// `OpenStage::Config`.
pub fn sock_open(stage: OpenStage, result: StepResult) -> (next: OpenNext)
    ensures
        next == open_after(stage, result),
{
    match result {
        StepResult::Failed => OpenNext::Fail(
            match stage {
                OpenStage::Config => TsnError::ConfigMissing,
                OpenStage::Acquire => TsnError::RegistryUnavailable,
                OpenStage::Apply => TsnError::BringUpFailed,
                _ => TsnError::BindFailed,
            },
        ),
        StepResult::Full => OpenNext::Fail(
            match stage {
                OpenStage::Config => TsnError::ConfigMissing,
                OpenStage::Acquire => TsnError::TooManyUsers,
                OpenStage::Apply => TsnError::BringUpFailed,
                _ => TsnError::BindFailed,
            },
        ),
        _ => match stage {
            OpenStage::Config => OpenNext::Do(OpenStage::Acquire),
            OpenStage::Acquire => match result {
                StepResult::DoneEmpty => OpenNext::Do(OpenStage::Apply),
                _ => OpenNext::Do(OpenStage::Index),
            },
            OpenStage::Apply => OpenNext::Do(OpenStage::Index),
            OpenStage::Index => OpenNext::Do(OpenStage::Socket),
            OpenStage::Socket => OpenNext::Do(OpenStage::Priority),
            OpenStage::Priority => OpenNext::Do(OpenStage::Bind),
            OpenStage::Bind => OpenNext::Opened,
        },
    }
}

/// Decides what follows a step of closing a socket. Closing starts with
/// `CloseStage::Release` and nothing failed.
pub fn sock_close(stage: CloseStage, result: StepResult, failed: bool) -> (next: CloseNext)
    ensures
        next == close_after(stage, result, failed),
{
    let bad = match result {
        StepResult::Failed => true,
        StepResult::Full => true,
        _ => false,
    };
    match stage {
        CloseStage::Release => {
            if bad {
                CloseNext::Do(CloseStage::CloseFd, true)
            } else {
                match result {
                    StepResult::DoneEmpty => CloseNext::Do(CloseStage::Unlink, failed),
                    _ => CloseNext::Do(CloseStage::CloseFd, failed),
                }
            }
        },
        CloseStage::Unlink => {
            if bad {
                CloseNext::Do(CloseStage::CloseFd, true)
            } else {
                CloseNext::Do(CloseStage::Revert, failed)
            }
        },
        CloseStage::Revert => CloseNext::Do(CloseStage::CloseFd, failed),
        CloseStage::CloseFd => {
            if failed {
                CloseNext::Closed(Some(TsnError::TeardownFailed))
            } else {
                CloseNext::Closed(None)
            }
        },
    }
}

/// A socket that is opened by the first user of its VLAN and closed again,
/// with every step succeeding and no other user in between, creates the VLAN
/// on the way in and deletes it on the way out; a socket opened and closed
/// beside other users does neither.
pub proof fn lemma_open_then_close()
    ensures
        open_after(OpenStage::Acquire, StepResult::DoneEmpty) == OpenNext::Do(OpenStage::Apply),
        open_after(OpenStage::Acquire, StepResult::Done) == OpenNext::Do(OpenStage::Index),
        close_after(CloseStage::Release, StepResult::DoneEmpty, false) == CloseNext::Do(
            CloseStage::Unlink,
            false,
        ),
        close_after(CloseStage::Unlink, StepResult::Done, false) == CloseNext::Do(
            CloseStage::Revert,
            false,
        ),
        close_after(CloseStage::Release, StepResult::Done, false) == CloseNext::Do(
            CloseStage::CloseFd,
            false,
        ),
        forall|r: StepResult, f: bool|
            (#[trigger] close_after(CloseStage::Revert, r, f)) == CloseNext::Do(
                CloseStage::CloseFd,
                f,
            ),
{
}

/// The receive timeout as the kernel takes it: whole seconds, and the
/// microseconds of the rest. A duration whose seconds the kernel cannot hold,
/// or whose nanoseconds reach a second, is refused.
pub fn sock_set_timeout(secs: u64, nanos: u32) -> (r: Result<Timeval, TsnError>)
    ensures
        (secs <= i64::MAX && nanos < 1_000_000_000) ==> r == Ok::<Timeval, TsnError>(
            Timeval { tv_sec: secs as i64, tv_usec: (nanos / 1000) as i64 },
        ),
        !(secs <= i64::MAX && nanos < 1_000_000_000) ==> r == Err::<Timeval, TsnError>(
            TsnError::InvalidArgument,
        ),
{
    if secs > i64::MAX as u64 || nanos >= 1_000_000_000 {
        Err(TsnError::InvalidArgument)
    } else {
        Ok(Timeval { tv_sec: secs as i64, tv_usec: (nanos / 1000) as i64 })
    }
}

/// What a send returned: the octets written, `WouldBlock` where the kernel
/// had no room, `IoFailed` for any other failure.
pub fn send(ret: isize, errno: i32) -> (r: Result<usize, TsnError>)
    ensures
        r == if ret >= 0 {
            Ok::<usize, TsnError>(ret as usize)
        } else if errno == EAGAIN {
            Err::<usize, TsnError>(TsnError::WouldBlock)
        } else {
            Err::<usize, TsnError>(TsnError::IoFailed)
        },
{
    if ret >= 0 {
        Ok(ret as usize)
    } else if errno == EAGAIN {
        Err(TsnError::WouldBlock)
    } else {
        Err(TsnError::IoFailed)
    }
}

/// What a receive returned: the octets read, `Timeout` where the receive
/// timeout ran out, `IoFailed` for any other failure.
pub fn recv(ret: isize, errno: i32) -> (r: Result<usize, TsnError>)
    ensures
        r == if ret >= 0 {
            Ok::<usize, TsnError>(ret as usize)
        } else if errno == EAGAIN {
            Err::<usize, TsnError>(TsnError::Timeout)
        } else {
            Err::<usize, TsnError>(TsnError::IoFailed)
        },
{
    if ret >= 0 {
        Ok(ret as usize)
    } else if errno == EAGAIN {
        Err(TsnError::Timeout)
    } else {
        Err(TsnError::IoFailed)
    }
}

/// What a receive with ancillary data returned; as `recv`.
pub fn recv_msg(ret: isize, errno: i32) -> (r: Result<usize, TsnError>)
    ensures
        r == if ret >= 0 {
            Ok::<usize, TsnError>(ret as usize)
        } else if errno == EAGAIN {
            Err::<usize, TsnError>(TsnError::Timeout)
        } else {
            Err::<usize, TsnError>(TsnError::IoFailed)
        },
{
    recv(ret, errno)
}

/// The timestamps that are asked for on the transmit side.
pub open spec fn tx_flags() -> u32 {
    SOF_TIMESTAMPING_TX_HARDWARE | SOF_TIMESTAMPING_SYS_HARDWARE | SOF_TIMESTAMPING_RAW_HARDWARE
        | SOF_TIMESTAMPING_TX_SOFTWARE | SOF_TIMESTAMPING_RX_SOFTWARE | SOF_TIMESTAMPING_SOFTWARE
}

/// The timestamps that are asked for on the receive side.
pub open spec fn rx_flags() -> u32 {
    SOF_TIMESTAMPING_RX_HARDWARE | SOF_TIMESTAMPING_RAW_HARDWARE | SOF_TIMESTAMPING_SOFTWARE
}

/// The steps of enabling transmit timestamps, in order.
#[derive(Clone, Copy, Debug, PartialEq, Eq, Structural)]
pub enum StampStage {
    /// Ask the socket for the timestamps of `tx_flags`.
    Timestamping,
    /// Ask for the error queue to signal readiness.
    ErrQueue,
    /// Ask the interface to timestamp every transmitted frame in hardware and
    /// to filter no reception.
    Hardware,
}

/// What follows a step of enabling transmit timestamps.
#[derive(Clone, Copy, Debug, PartialEq, Eq, Structural)]
pub enum StampNext {
    /// Go on with this step; the value is the option's argument.
    Do(StampStage, u32),
    /// Timestamps are enabled; the flag says whether the interface takes
    /// them in hardware.
    Enabled(bool),
    Fail(TsnError),
}

/// What follows a step of enabling transmit timestamps. An interface that
/// refuses hardware timestamps leaves software timestamps enabled; a socket
/// that refuses an option supports none.
pub open spec fn stamp_after(stage: StampStage, ok: bool) -> StampNext {
    match stage {
        StampStage::Timestamping => if ok {
            StampNext::Do(StampStage::ErrQueue, 1)
        } else {
            StampNext::Fail(TsnError::NotSupported)
        },
        StampStage::ErrQueue => if ok {
            StampNext::Do(StampStage::Hardware, 0)
        } else {
            StampNext::Fail(TsnError::NotSupported)
        },
        StampStage::Hardware => StampNext::Enabled(ok),
    }
}

/// The first step of enabling transmit timestamps, with the flags to ask for.
pub fn tx_timestamp_request() -> (next: StampNext)
    ensures
        next == StampNext::Do(StampStage::Timestamping, tx_flags()),
{
    StampNext::Do(
        StampStage::Timestamping,
        SOF_TIMESTAMPING_TX_HARDWARE | SOF_TIMESTAMPING_SYS_HARDWARE
            | SOF_TIMESTAMPING_RAW_HARDWARE | SOF_TIMESTAMPING_TX_SOFTWARE
            | SOF_TIMESTAMPING_RX_SOFTWARE | SOF_TIMESTAMPING_SOFTWARE,
    )
}

/// Decides what follows a step of enabling transmit timestamps.
pub fn enable_tx_timestamp(stage: StampStage, ok: bool) -> (next: StampNext)
    ensures
        next == stamp_after(stage, ok),
{
    match stage {
        StampStage::Timestamping => {
            if ok {
                StampNext::Do(StampStage::ErrQueue, 1)
            } else {
                StampNext::Fail(TsnError::NotSupported)
            }
        },
        StampStage::ErrQueue => {
            if ok {
                StampNext::Do(StampStage::Hardware, 0)
            } else {
                StampNext::Fail(TsnError::NotSupported)
            }
        },
        StampStage::Hardware => StampNext::Enabled(ok),
    }
}

/// The flags to ask for when receive timestamps are enabled, and the result
/// of asking: `NotSupported` where the socket refuses.
pub fn enable_rx_timestamp(ok: Option<bool>) -> (r: Result<u32, TsnError>)
    ensures
        r == if ok == Some(false) {
            Err::<u32, TsnError>(TsnError::NotSupported)
        } else {
            Ok::<u32, TsnError>(rx_flags())
        },
{
    match ok {
        Some(false) => Err(TsnError::NotSupported),
        _ => Ok(
            SOF_TIMESTAMPING_RX_HARDWARE | SOF_TIMESTAMPING_RAW_HARDWARE
                | SOF_TIMESTAMPING_SOFTWARE,
        ),
    }
}

/// The name field of a request to the kernel about an interface: the name's
/// octets, as many as fit, then zeros.
pub open spec fn ifreq_name_of(name: Seq<u8>) -> Seq<u8> {
    Seq::new(
        IFNAMSIZ as nat,
        |i: int|
            if i < name.len() {
                name[i]
            } else {
                0u8
            },
    )
}

/// Builds the name field of a request to the kernel about an interface.
pub fn ifreq_name(name: &[u8]) -> (out: Vec<u8>)
    ensures
        out@ == ifreq_name_of(name@),
{
    let n: usize = name.len();
    let mut out: Vec<u8> = Vec::new();
    let mut i: usize = 0;
    while i < IFNAMSIZ
        invariant
            i <= IFNAMSIZ,
            n == name@.len(),
            out@.len() == i,
            forall|k: int| 0 <= k < i ==> out@[k] == ifreq_name_of(name@)[k],
        decreases IFNAMSIZ - i,
    {
        if i < n {
            out.push(name[i]);
        } else {
            out.push(0u8);
        }
        i = i + 1;
    }
    assert(out@ =~= ifreq_name_of(name@));
    out
}

/// One control message of a received message, as far as timestamps go.
#[derive(Clone, Copy, Debug, PartialEq, Eq, Structural)]
pub struct ControlMessage {
    pub level: i32,
    pub kind: i32,
    /// The software timestamp; for a receive time, the time itself.
    pub software: Timespec,
    /// The hardware timestamp converted to system time.
    pub legacy: Timespec,
    /// The hardware timestamp as it is.
    pub hardware: Timespec,
}

/// Where a transmit timestamp came from.
#[derive(Clone, Copy, Debug, PartialEq, Eq, Structural)]
pub enum StampSource {
    Hardware,
    LegacyHardware,
    Software,
}

/// A transmit timestamp and where it came from.
#[derive(Clone, Copy, Debug, PartialEq, Eq, Structural)]
pub struct Stamp {
    pub time: Timespec,
    pub source: StampSource,
}

/// Whether a time is unset.
pub open spec fn unset(t: Timespec) -> bool {
    t.tv_sec == 0 && t.tv_nsec == 0
}

/// The timestamp that one control message of transmit times gives: the
/// hardware time before the converted one before the software one; none where
/// all three are unset.
pub open spec fn stamp_in(m: ControlMessage) -> Result<Stamp, TsnError> {
    if !unset(m.hardware) {
        Ok(Stamp { time: m.hardware, source: StampSource::Hardware })
    } else if !unset(m.legacy) {
        Ok(Stamp { time: m.legacy, source: StampSource::LegacyHardware })
    } else if !unset(m.software) {
        Ok(Stamp { time: m.software, source: StampSource::Software })
    } else {
        Err(TsnError::NoTimestamp)
    }
}

/// Whether a control message is of this kind at the socket's own level.
pub open spec fn is_kind(m: ControlMessage, kind: i32) -> bool {
    m.level == SOL_SOCKET && m.kind == kind
}

/// The first control message of a kind, from position `from` on.
pub open spec fn first_of(ms: Seq<ControlMessage>, kind: i32, from: int) -> Option<ControlMessage>
    decreases ms.len() - from,
{
    if from < 0 || from >= ms.len() {
        None
    } else if is_kind(ms[from], kind) {
        Some(ms[from])
    } else {
        first_of(ms, kind, from + 1)
    }
}

/// The transmit timestamp that the control messages of one message give: that
/// of the first message of transmit times; `NoTimestamp` where there is none.
pub open spec fn tx_stamp_of(ms: Seq<ControlMessage>) -> Result<Stamp, TsnError> {
    match first_of(ms, SO_TIMESTAMPING, 0) {
        Some(m) => stamp_in(m),
        None => Err(TsnError::NoTimestamp),
    }
}

/// The receive timestamp that the control messages of one message give: that
/// of the first message of receive times; `NoTimestamp` where there is none.
pub open spec fn rx_stamp_of(ms: Seq<ControlMessage>) -> Result<Timespec, TsnError> {
    match first_of(ms, SO_TIMESTAMPNS, 0) {
        Some(m) => Ok(m.software),
        None => Err(TsnError::NoTimestamp),
    }
}

fn find_kind(ms: &[ControlMessage], kind: i32) -> (r: Option<ControlMessage>)
    ensures
        r == first_of(ms@, kind, 0),
{
    let n: usize = ms.len();
    let mut i: usize = 0;
    while i < n
        invariant
            i <= n,
            n == ms@.len(),
            first_of(ms@, kind, 0) == first_of(ms@, kind, i as int),
        decreases n - i,
    {
        if ms[i].level == SOL_SOCKET && ms[i].kind == kind {
            return Some(ms[i]);
        }
        i = i + 1;
    }
    None
}

/// What waiting for the error queue returned: `Timeout` where nothing became
/// ready in time, `IoFailed` where the wait failed.
pub fn poll_result(ret: i32) -> (r: Result<(), TsnError>)
    ensures
        r == if ret == 0 {
            Err::<(), TsnError>(TsnError::Timeout)
        } else if ret < 0 {
            Err::<(), TsnError>(TsnError::IoFailed)
        } else {
            Ok::<(), TsnError>(())
        },
{
    if ret == 0 {
        Err(TsnError::Timeout)
    } else if ret < 0 {
        Err(TsnError::IoFailed)
    } else {
        Ok(())
    }
}

/// Picks the transmit timestamp out of the control messages that were read
/// from the error queue.
pub fn get_tx_timestamp(ms: &[ControlMessage]) -> (r: Result<Stamp, TsnError>)
    ensures
        r == tx_stamp_of(ms@),
{
    match find_kind(ms, SO_TIMESTAMPING) {
        None => Err(TsnError::NoTimestamp),
        Some(m) => {
            if !m.hardware.is_zero() {
                Ok(Stamp { time: m.hardware, source: StampSource::Hardware })
            } else if !m.legacy.is_zero() {
                Ok(Stamp { time: m.legacy, source: StampSource::LegacyHardware })
            } else if !m.software.is_zero() {
                Ok(Stamp { time: m.software, source: StampSource::Software })
            } else {
                Err(TsnError::NoTimestamp)
            }
        },
    }
}

/// Picks the receive timestamp out of the control messages of a received
/// message.
pub fn get_rx_timestamp(ms: &[ControlMessage]) -> (r: Result<Timespec, TsnError>)
    ensures
        r == rx_stamp_of(ms@),
{
    match find_kind(ms, SO_TIMESTAMPNS) {
        None => Err(TsnError::NoTimestamp),
        Some(m) => Ok(m.software),
    }
}

impl TsnSocket {
    /// The receive timeout as the kernel takes it; see `sock_set_timeout`.
    pub fn set_timeout(&mut self, secs: u64, nanos: u32) -> (r: Result<Timeval, TsnError>)
        ensures
            *final(self) == *old(self),
            (secs <= i64::MAX && nanos < 1_000_000_000) ==> r == Ok::<Timeval, TsnError>(
                Timeval { tv_sec: secs as i64, tv_usec: (nanos / 1000) as i64 },
            ),
            !(secs <= i64::MAX && nanos < 1_000_000_000) ==> r == Err::<Timeval, TsnError>(
                TsnError::InvalidArgument,
            ),
    {
        sock_set_timeout(secs, nanos)
    }

    /// What a send on this socket returned; see `send`.
    pub fn send(&self, ret: isize, errno: i32) -> (r: Result<usize, TsnError>)
        ensures
            r == if ret >= 0 {
                Ok::<usize, TsnError>(ret as usize)
            } else if errno == EAGAIN {
                Err::<usize, TsnError>(TsnError::WouldBlock)
            } else {
                Err::<usize, TsnError>(TsnError::IoFailed)
            },
    {
        send(ret, errno)
    }

    /// What a receive on this socket returned; see `recv`.
    pub fn recv(&self, ret: isize, errno: i32) -> (r: Result<usize, TsnError>)
        ensures
            r == if ret >= 0 {
                Ok::<usize, TsnError>(ret as usize)
            } else if errno == EAGAIN {
                Err::<usize, TsnError>(TsnError::Timeout)
            } else {
                Err::<usize, TsnError>(TsnError::IoFailed)
            },
    {
        recv(ret, errno)
    }

    /// What a receive with ancillary data on this socket returned.
    pub fn recv_msg(&self, ret: isize, errno: i32) -> (r: Result<usize, TsnError>)
        ensures
            r == if ret >= 0 {
                Ok::<usize, TsnError>(ret as usize)
            } else if errno == EAGAIN {
                Err::<usize, TsnError>(TsnError::Timeout)
            } else {
                Err::<usize, TsnError>(TsnError::IoFailed)
            },
    {
        recv_msg(ret, errno)
    }

    /// Decides what follows a step of enabling transmit timestamps on this
    /// socket.
    pub fn enable_tx_timestamp(&self, stage: StampStage, ok: bool) -> (next: StampNext)
        ensures
            next == stamp_after(stage, ok),
    {
        enable_tx_timestamp(stage, ok)
    }

    /// Picks the transmit timestamp out of the control messages read from
    /// this socket's error queue.
    pub fn get_tx_timestamp(&self, ms: &[ControlMessage]) -> (r: Result<Stamp, TsnError>)
        ensures
            r == tx_stamp_of(ms@),
    {
        get_tx_timestamp(ms)
    }

    /// Decides what follows a step of closing this socket. Once the
    /// descriptor is closed the socket holds none.
    pub fn close(&mut self, stage: CloseStage, result: StepResult, failed: bool) -> (next:
        CloseNext)
        ensures
            next == close_after(stage, result, failed),
            final(self).ifname == old(self).ifname,
            final(self).vlanid == old(self).vlanid,
            final(self).fd == if stage == CloseStage::CloseFd {
                -1i32
            } else {
                old(self).fd
            },
    {
        if let CloseStage::CloseFd = stage {
            self.fd = -1;
        }
        sock_close(stage, result, failed)
    }
}

} // verus!

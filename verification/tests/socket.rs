use tsn::error::TsnError;
use tsn::socket::{
    check_open, enable_rx_timestamp, enable_tx_timestamp, get_rx_timestamp, get_tx_timestamp,
    ifreq_name, poll_result, recv, recv_msg, send, sock_close, sock_open, sock_set_timeout,
    tx_timestamp_request, CloseNext, CloseStage, ControlMessage, OpenNext, OpenStage, Stamp,
    StampNext, StampSource, StampStage, StepResult, Timeval, TsnSocket, EAGAIN, IFNAMSIZ,
    SOL_SOCKET, SO_TIMESTAMPING, SO_TIMESTAMPNS,
};
use tsn::time::Timespec;

fn at(sec: i64, nsec: i64) -> Timespec {
    Timespec { tv_sec: sec, tv_nsec: nsec }
}

fn message(level: i32, kind: i32, sw: Timespec, legacy: Timespec, hw: Timespec) -> ControlMessage {
    ControlMessage { level, kind, software: sw, legacy, hardware: hw }
}

fn socket() -> TsnSocket {
    TsnSocket { fd: 5, ifname: "enp0s31f6xyz".to_string(), vlanid: 10 }
}

#[test]
fn constants_are_the_system_s() {
    assert_eq!(EAGAIN, libc::EAGAIN);
    assert_eq!(EAGAIN, libc::EWOULDBLOCK);
    assert_eq!(SOL_SOCKET, libc::SOL_SOCKET);
    assert_eq!(SO_TIMESTAMPNS, libc::SO_TIMESTAMPNS);
    assert_eq!(SO_TIMESTAMPING, libc::SO_TIMESTAMPING);
    assert_eq!(IFNAMSIZ, libc::IFNAMSIZ);
    let tx = libc::SOF_TIMESTAMPING_TX_HARDWARE
        | libc::SOF_TIMESTAMPING_SYS_HARDWARE
        | libc::SOF_TIMESTAMPING_RAW_HARDWARE
        | libc::SOF_TIMESTAMPING_TX_SOFTWARE
        | libc::SOF_TIMESTAMPING_RX_SOFTWARE
        | libc::SOF_TIMESTAMPING_SOFTWARE;
    assert_eq!(tx_timestamp_request(), StampNext::Do(StampStage::Timestamping, tx));
    let rx = libc::SOF_TIMESTAMPING_RX_HARDWARE
        | libc::SOF_TIMESTAMPING_RAW_HARDWARE
        | libc::SOF_TIMESTAMPING_SOFTWARE;
    assert_eq!(enable_rx_timestamp(None), Ok(rx));
    assert_eq!(enable_rx_timestamp(Some(true)), Ok(rx));
    assert_eq!(enable_rx_timestamp(Some(false)), Err(TsnError::NotSupported));
}

#[test]
fn vlan_id_outside_its_range_is_invalid_config() {
    assert_eq!(check_open(0, 3), Err(TsnError::InvalidConfig));
    assert_eq!(check_open(4095, 3), Err(TsnError::InvalidConfig));
    assert_eq!(check_open(65535, 99), Err(TsnError::InvalidConfig));
    assert_eq!(check_open(1, 0), Ok(()));
    assert_eq!(check_open(4094, 7), Ok(()));
    assert_eq!(check_open(10, 8), Err(TsnError::InvalidArgument));
}

#[test]
fn the_first_user_creates_the_vlan() {
    let mut stage = OpenStage::Config;
    let mut seen = vec![stage];
    loop {
        let result = if stage == OpenStage::Acquire { StepResult::DoneEmpty } else { StepResult::Done };
        match sock_open(stage, result) {
            OpenNext::Do(next) => {
                stage = next;
                seen.push(next);
            }
            OpenNext::Opened => break,
            OpenNext::Fail(e) => panic!("{:?}", e),
        }
    }
    assert_eq!(
        seen,
        vec![
            OpenStage::Config,
            OpenStage::Acquire,
            OpenStage::Apply,
            OpenStage::Index,
            OpenStage::Socket,
            OpenStage::Priority,
            OpenStage::Bind,
        ]
    );
    assert_eq!(sock_open(OpenStage::Acquire, StepResult::Done), OpenNext::Do(OpenStage::Index));
}

#[test]
fn each_step_of_opening_fails_with_its_error() {
    let want = [
        (OpenStage::Config, TsnError::ConfigMissing),
        (OpenStage::Acquire, TsnError::RegistryUnavailable),
        (OpenStage::Apply, TsnError::BringUpFailed),
        (OpenStage::Index, TsnError::BindFailed),
        (OpenStage::Socket, TsnError::BindFailed),
        (OpenStage::Priority, TsnError::BindFailed),
        (OpenStage::Bind, TsnError::BindFailed),
    ];
    for (stage, error) in want {
        assert_eq!(sock_open(stage, StepResult::Failed), OpenNext::Fail(error));
    }
    assert_eq!(sock_open(OpenStage::Acquire, StepResult::Full), OpenNext::Fail(TsnError::TooManyUsers));
}

#[test]
fn the_last_user_deletes_the_vlan() {
    let mut s = socket();
    assert_eq!(
        s.close(CloseStage::Release, StepResult::DoneEmpty, false),
        CloseNext::Do(CloseStage::Unlink, false)
    );
    assert_eq!(
        s.close(CloseStage::Unlink, StepResult::Done, false),
        CloseNext::Do(CloseStage::Revert, false)
    );
    // a failure to delete the VLAN is not held against the close
    assert_eq!(
        s.close(CloseStage::Revert, StepResult::Failed, false),
        CloseNext::Do(CloseStage::CloseFd, false)
    );
    assert_eq!(s.fd, 5);
    assert_eq!(s.close(CloseStage::CloseFd, StepResult::Done, false), CloseNext::Closed(None));
    assert_eq!(s, TsnSocket { fd: -1, ifname: "enp0s31f6xyz".to_string(), vlanid: 10 });
}

#[test]
fn the_descriptor_is_closed_whatever_happened() {
    assert_eq!(
        sock_close(CloseStage::Release, StepResult::Done, false),
        CloseNext::Do(CloseStage::CloseFd, false)
    );
    assert_eq!(
        sock_close(CloseStage::Release, StepResult::Failed, false),
        CloseNext::Do(CloseStage::CloseFd, true)
    );
    assert_eq!(
        sock_close(CloseStage::Unlink, StepResult::Failed, false),
        CloseNext::Do(CloseStage::CloseFd, true)
    );
    assert_eq!(
        sock_close(CloseStage::CloseFd, StepResult::Done, true),
        CloseNext::Closed(Some(TsnError::TeardownFailed))
    );
    assert_eq!(
        sock_close(CloseStage::CloseFd, StepResult::Failed, false),
        CloseNext::Closed(None)
    );
}

#[test]
fn timeouts_are_seconds_and_microseconds() {
    assert_eq!(sock_set_timeout(1, 0), Ok(Timeval { tv_sec: 1, tv_usec: 0 }));
    assert_eq!(sock_set_timeout(0, 999_999_999), Ok(Timeval { tv_sec: 0, tv_usec: 999_999 }));
    assert_eq!(sock_set_timeout(2, 1_999), Ok(Timeval { tv_sec: 2, tv_usec: 1 }));
    assert_eq!(sock_set_timeout(0, 1_000_000_000), Err(TsnError::InvalidArgument));
    assert_eq!(sock_set_timeout(u64::MAX, 0), Err(TsnError::InvalidArgument));
    assert_eq!(sock_set_timeout(i64::MAX as u64, 0), Ok(Timeval { tv_sec: i64::MAX, tv_usec: 0 }));
    let mut s = socket();
    assert_eq!(s.set_timeout(1, 500_000_000), Ok(Timeval { tv_sec: 1, tv_usec: 500_000 }));
    assert_eq!(s, socket());
}

#[test]
fn sends_and_receives_are_told_apart() {
    assert_eq!(send(64, 0), Ok(64));
    assert_eq!(send(0, EAGAIN), Ok(0));
    assert_eq!(send(-1, EAGAIN), Err(TsnError::WouldBlock));
    assert_eq!(send(-1, libc::ENETDOWN), Err(TsnError::IoFailed));
    assert_eq!(recv(1514, 0), Ok(1514));
    assert_eq!(recv(-1, EAGAIN), Err(TsnError::Timeout));
    assert_eq!(recv(-1, libc::EBADF), Err(TsnError::IoFailed));
    assert_eq!(recv_msg(-1, EAGAIN), Err(TsnError::Timeout));
    assert_eq!(recv_msg(10, 0), Ok(10));
    let s = socket();
    assert_eq!(s.send(-1, EAGAIN), Err(TsnError::WouldBlock));
    assert_eq!(s.recv(-1, EAGAIN), Err(TsnError::Timeout));
    assert_eq!(s.recv_msg(7, 0), Ok(7));
}

#[test]
fn an_interface_that_refuses_leaves_software_timestamps() {
    assert_eq!(
        enable_tx_timestamp(StampStage::Timestamping, true),
        StampNext::Do(StampStage::ErrQueue, 1)
    );
    assert_eq!(
        enable_tx_timestamp(StampStage::ErrQueue, true),
        StampNext::Do(StampStage::Hardware, 0)
    );
    assert_eq!(enable_tx_timestamp(StampStage::Hardware, true), StampNext::Enabled(true));
    assert_eq!(enable_tx_timestamp(StampStage::Hardware, false), StampNext::Enabled(false));
    assert_eq!(
        enable_tx_timestamp(StampStage::Timestamping, false),
        StampNext::Fail(TsnError::NotSupported)
    );
    assert_eq!(
        socket().enable_tx_timestamp(StampStage::ErrQueue, false),
        StampNext::Fail(TsnError::NotSupported)
    );
}

#[test]
fn the_name_field_is_padded_with_zeros() {
    assert_eq!(ifreq_name(b"eth0"), b"eth0\0\0\0\0\0\0\0\0\0\0\0\0");
    assert_eq!(ifreq_name(b""), [0u8; 16]);
    assert_eq!(ifreq_name(b"0123456789abcdefXYZ"), b"0123456789abcdef");
}

#[test]
fn waiting_for_the_error_queue() {
    assert_eq!(poll_result(1), Ok(()));
    assert_eq!(poll_result(0), Err(TsnError::Timeout));
    assert_eq!(poll_result(-1), Err(TsnError::IoFailed));
}

#[test]
fn hardware_timestamps_come_first() {
    let z = at(0, 0);
    let all = message(SOL_SOCKET, SO_TIMESTAMPING, at(1, 1), at(2, 2), at(3, 3));
    assert_eq!(
        get_tx_timestamp(&[all]),
        Ok(Stamp { time: at(3, 3), source: StampSource::Hardware })
    );
    let legacy = message(SOL_SOCKET, SO_TIMESTAMPING, at(1, 1), at(0, 2), z);
    assert_eq!(
        get_tx_timestamp(&[legacy]),
        Ok(Stamp { time: at(0, 2), source: StampSource::LegacyHardware })
    );
    let software = message(SOL_SOCKET, SO_TIMESTAMPING, at(1, 0), z, z);
    assert_eq!(
        socket().get_tx_timestamp(&[software]),
        Ok(Stamp { time: at(1, 0), source: StampSource::Software })
    );
}

#[test]
fn no_timestamp_is_an_error() {
    let z = at(0, 0);
    assert_eq!(get_tx_timestamp(&[]), Err(TsnError::NoTimestamp));
    let empty = message(SOL_SOCKET, SO_TIMESTAMPING, z, z, z);
    let late = message(SOL_SOCKET, SO_TIMESTAMPING, at(1, 1), z, z);
    assert_eq!(get_tx_timestamp(&[empty, late]), Err(TsnError::NoTimestamp));
    let other_level = message(0, SO_TIMESTAMPING, at(1, 1), z, z);
    let other_kind = message(SOL_SOCKET, SO_TIMESTAMPNS, at(1, 1), z, z);
    assert_eq!(get_tx_timestamp(&[other_level, other_kind]), Err(TsnError::NoTimestamp));
    assert_eq!(
        get_tx_timestamp(&[other_level, other_kind, late]),
        Ok(Stamp { time: at(1, 1), source: StampSource::Software })
    );
}

#[test]
fn receive_timestamps() {
    let z = at(0, 0);
    let other = message(SOL_SOCKET, SO_TIMESTAMPING, at(1, 1), z, z);
    let first = message(SOL_SOCKET, SO_TIMESTAMPNS, at(5, 6), z, z);
    let second = message(SOL_SOCKET, SO_TIMESTAMPNS, at(7, 8), z, z);
    assert_eq!(get_rx_timestamp(&[other, first, second]), Ok(at(5, 6)));
    assert_eq!(get_rx_timestamp(&[other]), Err(TsnError::NoTimestamp));
    assert_eq!(get_rx_timestamp(&[]), Err(TsnError::NoTimestamp));
}

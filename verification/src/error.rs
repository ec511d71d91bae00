use vstd::prelude::*;

verus! {

/// The kinds of failure the library reports.
#[derive(Clone, Copy, Debug, PartialEq, Eq, Structural)]
pub enum TsnError {
    /// A configuration document could not be parsed or validated.
    InvalidConfig,
    /// No configuration exists for the requested interface or VLAN.
    ConfigMissing,
    /// A command handed to the link administrator was rejected.
    LinkAdminFailed,
    /// The shared reference record could not be reached or locked.
    RegistryUnavailable,
    /// The shared reference record has no free slot.
    TooManyUsers,
    /// The VLAN sub-interface could not be brought up.
    BringUpFailed,
    /// The socket could not be created or bound.
    BindFailed,
    /// A send or receive failed.
    IoFailed,
    /// No data arrived before the deadline.
    Timeout,
    /// The operation would block.
    WouldBlock,
    /// No timestamp was found in the ancillary data.
    NoTimestamp,
    /// The interface refused the requested feature.
    NotSupported,
    /// An argument is outside the accepted range.
    InvalidArgument,
    /// Tearing down the link or the qdiscs failed.
    TeardownFailed,
    /// The run flag was cleared.
    Interrupted,
    /// A handshake got no answer after all retransmissions.
    HandshakeFailed,
}

} // verus!

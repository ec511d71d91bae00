//! Time-sensitive networking access library: configuration normalisation,
//! link and qdisc provisioning plans, the shared VLAN reference record, the
//! socket protocol around a raw layer-2 endpoint, and the measurement engine.

pub mod cbs;
pub mod config;
pub mod document;
pub mod error;
pub mod info;
pub mod latency;
pub mod perf;
pub mod registry;
pub mod report;
pub mod serialise;
pub mod socket;
pub mod tas;
pub mod tcmap;
pub mod text;
pub mod throughput;
pub mod time;
pub mod udp;
pub mod units;
pub mod vlan;

pub use error::TsnError;
pub use socket::enable_tx_timestamp;
pub use socket::get_tx_timestamp;
pub use socket::recv;
pub use socket::recv_msg;
pub use socket::send;
pub use socket::sock_close;
pub use socket::sock_open;
pub use socket::sock_set_timeout;
pub use socket::TsnSocket;
pub use time::timespecff_diff;

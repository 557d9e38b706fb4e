//! Echo servers over stream and datagram transports, with the clients that
//! talk to them, as a core that decides and leaves the waiting to its caller.

use vstd::prelude::*;

pub mod address;
pub mod error;
pub mod http;
pub mod logger;
pub mod signal;
pub mod tcp;
pub mod udp;

pub use http::HttpClient;
pub use logger::init_logger;
pub use logger::LoggerOnce;
pub use logger::LoggerPlan;
pub use reqwest::header;
pub use tcp::TcpClient;
pub use tcp::TcpServer;
pub use udp::UdpServer;

verus! {

/// Number of bytes a connection or a datagram server reads at once.
pub const BUFFER_CAPACITY: usize = 1024;

/// Prepares the library for use. All there is to prepare is logging: see
/// [`init_logger`].
pub fn init(once: &mut LoggerOnce) -> (plan: Option<LoggerPlan>)
    ensures
        final(once).is_done(),
        plan is Some <==> !old(once).is_done(),
        plan matches Some(p) ==> p.is_standard(),
{
    init_logger(once)
}

} // verus!

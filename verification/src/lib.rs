//! Request-handling core of an Auto Configuration Server for CWMP (TR-069):
//! the per-device transfer queues, the device registry and the session state
//! machine that answers each request of a managed device.

pub mod acs;
pub mod session;
pub mod soap;
pub mod utils;

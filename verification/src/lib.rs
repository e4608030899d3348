//! Verified core of an interchain cross-chain query (ICQ) relay pipeline.
//!
//! The library covers the pure logic of the pipeline: the codec between
//! typed query packets and string-tagged on-chain events, the REST query
//! dispatcher's decision logic, the response envelope builder, connection
//! handshake event types, and the worker's per-tick state transitions with
//! their fatal/ignore failure classification. Network and channel I/O is
//! left to a thin unverified shell that hands this library plain values.

pub mod block;
pub mod conn;
pub mod dec;
pub mod dispatch;
pub mod events;
pub mod ident;
pub mod packet;
pub mod response;
pub mod worker;

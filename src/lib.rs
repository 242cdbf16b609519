//! Session core of a Stratum V1 mining client: the setup handshake state
//! machine, request/response correlation, the write-retry policy, the bounded
//! queue between the receive and send halves, and the session supervisor's
//! decisions. Transport and codec work are done by the caller, which feeds the
//! outcomes in as plain values.
pub mod protocol;
pub mod sender;
pub mod channel;
pub mod supervisor;
pub mod laws;

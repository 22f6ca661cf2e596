//! Status-line aggregator core: a latest-value channel, supervised poller
//! step functions, the now-playing formatter, and the streaming output
//! protocol, each with a verified contract.

pub mod channel;
pub mod clock;
pub mod nowplay;
pub mod protocol;
pub mod sources;
pub mod text;

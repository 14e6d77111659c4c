//! Two endless periodic loops, each a state machine that decides when to
//! write its line and how long to sleep; a runner carries the actions out.

pub mod heartbeat;
pub mod timeline;

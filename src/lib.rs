//! Live shader reloading: template substitution, preparation of sources for
//! an external compiler and interpretation of what it reports, change
//! notifications, and the reload state machine that keeps the last good
//! pipeline in place.

pub mod diagnostic;
pub mod position;
pub mod template;
pub mod compiler;
pub mod pipeline;
pub mod watch;
pub mod coordinator;

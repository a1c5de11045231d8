//! Screen-capture core: frame pacing, frame naming and encoding, the capture
//! session state machine and the start/stop admission control, together with
//! the file-metadata summaries shown beside a capture.

pub mod text;
pub mod pacing;
pub mod frame;
pub mod session;
pub mod control;
pub mod files;
pub mod settings;

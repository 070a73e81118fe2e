//! Verified core of the Chrome DevTools command-line client and its daemon:
//! idle-timeout parsing and formatting, message framing, request building and
//! dispatch, and the decisions of the video recorder.

pub mod text;
pub mod protocol;
pub mod framing;
pub mod json;
pub mod dispatch;
pub mod record_video;
pub mod cli;
pub mod daemon;

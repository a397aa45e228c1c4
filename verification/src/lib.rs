//! Playback core of a video player.
//!
//! The crate holds the decisions of a playback session: the transport state
//! machine, the frame and subtitle cells shared with the decode worker, the
//! audio/video latency estimate, seek planning and the conversion of decoded
//! frames to RGBA. The media backend itself is driven by the caller: every
//! operation here says which commands to hand to the backend and takes the
//! backend's answers as plain values.

pub mod color;
pub mod error;
pub mod frame;
pub mod laws;
pub mod position;
pub mod speed;
pub mod subtitle;
pub mod sync;
pub mod thumbnail;
pub mod time;
pub mod uri;
pub mod video;
pub mod worker;

pub use error::Error;
pub use position::Position;
pub use video::Video;

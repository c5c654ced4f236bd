pub mod codec;
pub mod compose;
pub mod decode;
pub mod job;

pub use compose::{composite_frame, reverse_frames, FrameSnapshot, RawFrame};
pub use decode::{get_dimension, Dimension, GifError};
pub use job::{HostEvent, JobStep, ReverseJob};

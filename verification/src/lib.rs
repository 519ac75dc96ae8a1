//! Coordination layer for a video pipeline: the time-base algebra, dimension
//! fitting, parameter-set extraction and the state machines that drive a codec
//! engine through its feed/drain protocol and route packets between streams.

pub mod decode;
pub mod encode;
pub mod error;
pub mod extradata;
pub mod frame;
pub mod hwaccel;
pub mod io;
pub mod mux;
pub mod options;
pub mod packet;
pub mod resize;
pub mod rtp;
pub mod stream;
pub mod threading;
pub mod time;

pub use decode::DecoderSplit;
pub use encode::Encoder;
pub use error::Error;
pub use mux::{Muxer, MuxerBuilder};
pub use options::Options;
pub use packet::Packet;
pub use resize::Resize;
pub use stream::StreamInfo;
pub use time::{Aligned, Rational, Time};

//! Float-free core of a real-time audio analysis pipeline: the overlapping
//! sample window, the logarithmic band walk, source switching and the
//! playback transport.

pub mod bands;
pub mod source;
pub mod transport;
pub mod window;

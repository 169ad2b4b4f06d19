//! A minimal in-process single-slot stream: any number of cloned handles may
//! write values into one shared slot, and a consumer polls them out as a
//! sequence that ends with an explicit finish signal. A second write before a
//! poll overwrites the first (last-write-wins); nothing is queued.

pub mod stream;
pub mod pipe;

pub use stream::PollOutcome;
pub use stream::StreamModel;
pub use stream::TwoWayStream;
pub use pipe::Pipe;

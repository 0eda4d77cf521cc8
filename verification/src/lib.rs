//! A growable, owned filesystem-path buffer with verified joining rules.
//!
//! A [`PathBufD`](buffer::PathBufD) holds a path as an owned byte buffer and
//! exposes mutation (`push`, `pop`, `set_file_name`, `set_extension`),
//! capacity management, and a byte-exact serialization contract. The
//! joining and parent rules are pinned down by the spec functions in
//! [`model`], so every mutation states exactly what the buffer holds
//! afterwards.

pub mod buffer;
pub mod format;
pub mod laws;
pub mod model;

pub use buffer::CapacityError;
pub use buffer::PathBufD;
pub use format::pathbufd_fmt;

//! A dual-cursor, bounds-checked byte buffer for encoding and decoding
//! binary wire data.
//!
//! A [`buffer::ByteBuf`] owns a growable contiguous byte store and two
//! independent cursors (a read position and a write position) that partition
//! the store into discarded, readable and writable regions. Fixed-width
//! codecs (byte, short, medium, boolean, both endiannesses) read from and
//! append to the buffer with precise bounds checks; a read-only snapshot
//! rejects every mutation of the write cursor or the storage.

pub mod buffer;
pub mod codec;
pub mod errors;
pub mod laws;

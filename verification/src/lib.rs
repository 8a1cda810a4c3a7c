//! A streaming text-statistics library: byte, character, line and word
//! counts over a stream of byte chunks, in a single pass and with bounded
//! memory. Each counter consumes successive chunks and maintains a running
//! total whose meaning is pinned down against the full sequence of bytes
//! fed so far, including correct behaviour when a multi-byte UTF-8
//! character is split across two chunks.

pub mod byte_count;
pub mod char_count;
pub mod line_count;
pub mod scan;
pub mod word_count;

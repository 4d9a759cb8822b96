//! A library for classifying text files by their line-ending convention.
//!
//! The core is a single-pass, byte-level classifier: given a file's bytes it
//! decides whether the file uses LF endings, CRLF endings, or a mixture, and
//! counts lines that carry trailing horizontal whitespace before their
//! terminator. Around the core stand an aggregate-counter accumulator, the
//! per-file reporting decision, and a work-list driven scan state machine
//! whose filesystem steps are performed by the caller.

pub mod aggregate;
pub mod classifier;
pub mod scan;

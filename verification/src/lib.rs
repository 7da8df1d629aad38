//! Leader-key chord recognition.
//!
//! A [`sequence::KeyStrokeRecorder`] buffers raw key strokes inside a sliding
//! time window, tells whether the buffer currently forms a leader sequence and
//! resolves a completed sequence to the configured [`dispatch::Action`].

pub mod config;
pub mod dispatch;
pub mod keymap;
pub mod modifier;
pub mod sequence;

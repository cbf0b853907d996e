//! File encryption with AES-128-GCM, gzip framing of the stored bytes, the
//! `.alp` file-name convention, and the planning of manifest-driven batches.

pub mod error;
pub mod codec;
pub mod cipher;
pub mod credential;
pub mod transition;
pub mod roots;
pub mod batch;
pub mod listing;

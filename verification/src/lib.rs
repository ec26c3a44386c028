//! Attachment transfer for a peer-to-peer mail client: files are split into
//! bounded chunks, each chunk is stored on its own, and a manifest lists the
//! chunk handles in the order that rebuilds the file.

pub mod change;
pub mod chunker;
pub mod digest;
pub mod encoding;
pub mod error;
pub mod limits;
pub mod menu;
pub mod publisher;
pub mod reconstructor;
pub mod record;
pub mod round_trip;

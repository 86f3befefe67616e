//! Watches an append-only transparency log: tracks its growth, decodes each
//! newly committed entry's envelope, parses the signing certificate embedded
//! in it, and extracts identity-binding fields (subject name and provenance
//! extensions) into one structured record per certificate.
//!
//! The crate holds the decision logic of that pipeline — offset tracking,
//! envelope decoding, the extension-identifier table, record rendering — with
//! machine-checked contracts. Network transport and the process loop live
//! outside; they hand this library plain values and take plain values back.

pub mod codec;
pub mod decode;
pub mod errors;
pub mod extract;
pub mod json;
pub mod pipeline;
pub mod poll;
pub mod record;
pub mod size;
pub mod x509;

//! Verified core of a media upload client for a video-hosting platform:
//! session handling, CDN line selection, download segmentation, chunked
//! concurrent upload planning, and publish-record assembly, submission
//! and editing. The wire-level transport lives outside this crate; every
//! decision it needs is a verified function here, from plain values to
//! plain values.

pub mod chunk;
pub mod errors;
pub mod flow;
pub mod line;
pub mod segment;
pub mod session;
pub mod studio;

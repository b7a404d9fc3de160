//! Verified core of FlashCut, a privacy-first video trimmer with
//! collaborative sessions: the wire protocol, the session store of the
//! collaboration server and the per-connection relay rules, timecode
//! formatting, and the configuration that the browser media pipeline is
//! driven with.

pub mod editor;
pub mod media;
pub mod outside;
pub mod protocol;
pub mod relay;
pub mod session;
pub mod timecode;

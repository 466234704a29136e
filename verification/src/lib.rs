//! Verified core logic of an RDP client, server and gateway: PDU wire formats,
//! H.264 AVC420/AVC444 stream helpers, YUV 4:4:4 reconstruction, the graphics
//! pipeline client, frame cropping and pacing, session and server decisions,
//! gateway authorization and handshake, audio playback buffering and
//! connection profiles.

mod bytes;
pub mod error;
pub mod avc;
pub mod yuv;
pub mod avc444;
pub mod frame;
mod hash;
pub mod logon;
pub mod rdpeusb;
pub mod text;
pub mod gateway;
pub mod client;
pub mod autodetect;
pub mod gfx;
pub mod audio;
pub mod x224;
pub mod server;

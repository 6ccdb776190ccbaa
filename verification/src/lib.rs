//! Reconstruction of an ordered, time-annotated replay model from captured
//! Ethernet frames.
//!
//! Raw frames are dissected layer by layer (Ethernet II, IPv4, then TCP or
//! UDP), stamped with their capture time and the delay since the previous
//! packet, and collected in a [`Rewinder`] together with the local and remote
//! host sets.

pub mod bytes;

pub mod error;

pub mod address;

pub mod time;

pub mod ethernet;

pub mod ipv4;

pub mod tcp;

pub mod udp;

pub mod packet;

pub mod host_set;

pub mod capture;

pub mod rewinder;

pub use rewinder::Rewinder;

//! The units of the replay model: packets, their endpoints, their transport
//! data and their replay status.

pub mod packet_data;
pub mod packet_host;
pub mod packet_status;
pub mod replay_packet;

pub use packet_data::ReplayPacketData;
pub use packet_data::TransportPayload;
pub use packet_host::Endpoint;
pub use packet_host::ReplayPacketHost;
pub use packet_status::ReplayPacketStatus;
pub use replay_packet::ReplayPacket;
pub use replay_packet::ReplayPacketView;

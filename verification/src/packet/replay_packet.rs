use vstd::prelude::*;
use crate::packet::packet_data::ReplayPacketData;
use crate::packet::packet_data::TransportPayload;
use crate::packet::packet_host::Endpoint;
use crate::packet::packet_host::ReplayPacketHost;
use crate::packet::packet_status::ReplayPacketStatus;
use crate::time::TimeSpan;

verus! {

/// One captured packet, ready for replay: its place in the capture, when it
/// was captured, how long after the packet before it, who sent it to whom,
/// and what it carried.
#[derive(Clone, Debug, PartialEq, Eq)]
pub struct ReplayPacket {
    number: u64,
    time: TimeSpan,
    delay: TimeSpan,
    source: ReplayPacketHost,
    destination: ReplayPacketHost,
    packet: ReplayPacketData,
    status: ReplayPacketStatus,
}

/// What a [`ReplayPacket`] stands for. Times are in nanoseconds.
pub struct ReplayPacketView {
    pub number: u64,
    pub time: nat,
    pub delay: nat,
    pub source: Endpoint,
    pub destination: Endpoint,
    pub packet: TransportPayload,
    pub status: ReplayPacketStatus,
}

impl View for ReplayPacket {
    type V = ReplayPacketView;

    closed spec fn view(&self) -> ReplayPacketView {
        ReplayPacketView {
            number: self.number,
            time: self.time@,
            delay: self.delay@,
            source: self.source@,
            destination: self.destination@,
            packet: self.packet@,
            status: self.status,
        }
    }
}

impl ReplayPacket {
    /// A replay packet with the given fields.
    pub fn new(
        number: u64,
        time: TimeSpan,
        delay: TimeSpan,
        source: ReplayPacketHost,
        destination: ReplayPacketHost,
        packet: ReplayPacketData,
        status: ReplayPacketStatus,
    ) -> (replay: ReplayPacket)
        ensures
            replay@ == (ReplayPacketView {
                number,
                time: time@,
                delay: delay@,
                source: source@,
                destination: destination@,
                packet: packet@,
                status,
            }),
    {
        ReplayPacket { number, time, delay, source, destination, packet, status }
    }

    /// The packet's number in capture order, counted from 0.
    pub fn get_number(&self) -> (number: u64)
        ensures
            number == self@.number,
    {
        self.number
    }

    /// The time at which the packet was captured.
    pub fn get_time(&self) -> (time: TimeSpan)
        ensures
            time@ == self@.time,
    {
        self.time
    }

    /// The time between the capture of the packet before this one and the
    /// capture of this one.
    pub fn get_delay(&self) -> (delay: TimeSpan)
        ensures
            delay@ == self@.delay,
    {
        self.delay
    }

    /// The host that sent the packet.
    pub fn get_local_host(&self) -> (host: &ReplayPacketHost)
        ensures
            host@ == self@.source,
    {
        &self.source
    }

    /// The host that the packet was sent to.
    pub fn get_remote_host(&self) -> (host: &ReplayPacketHost)
        ensures
            host@ == self@.destination,
    {
        &self.destination
    }

    /// The decoded transport layer of the packet.
    pub fn get_packet_data(&self) -> (data: &ReplayPacketData)
        ensures
            data@ == self@.packet,
    {
        &self.packet
    }

    /// The replay status of the packet.
    pub fn get_status(&self) -> (status: &ReplayPacketStatus)
        ensures
            *status == self@.status,
    {
        &self.status
    }
}

} // verus!

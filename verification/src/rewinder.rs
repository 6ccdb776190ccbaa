//! The replay model of a capture: the builder that sequences decoded frames,
//! the classifier that tells remote hosts from local ones, and the
//! [`Rewinder`] that holds the result.

use vstd::prelude::*;
use crate::address::IpAddress;
use crate::capture::decode_frame;
use crate::capture::parse_frame;
use crate::capture::CaptureEvent;
use crate::capture::DecodedFrameView;
use crate::capture::SkippedFrame;
use crate::error::RewindError;
use crate::host_set::HostSet;
use crate::packet::packet_status::ReplayPacketStatus;
use crate::packet::replay_packet::ReplayPacket;
use crate::packet::replay_packet::ReplayPacketView;
use crate::time::TimeSpan;

verus! {

/// What the builder has made of the events seen so far: the packets in
/// capture order, and the frames it had to leave out.
pub struct ReplayLog {
    pub packets: Seq<ReplayPacketView>,
    pub skipped: Seq<SkippedFrame>,
}

/// The views of a list of packets, in the same order.
pub open spec fn views_of(packets: Seq<ReplayPacket>) -> Seq<ReplayPacketView> {
    packets.map_values(|p: ReplayPacket| p@)
}

/// The packet that a frame decoded as `frame` and captured at `time` becomes
/// when it follows the packets `earlier`: it takes the next number, and its
/// delay is the time since the last of them, or nothing if it is the first.
pub open spec fn packet_after(
    earlier: Seq<ReplayPacketView>,
    time: nat,
    frame: DecodedFrameView,
) -> ReplayPacketView {
    ReplayPacketView {
        number: earlier.len() as u64,
        time,
        delay: if earlier.len() == 0 {
            0
        } else {
            (time - earlier.last().time) as nat
        },
        source: frame.source,
        destination: frame.destination,
        packet: frame.packet,
        status: ReplayPacketStatus::NotSent,
    }
}

/// What one more event makes of a log. A read error ends everything. A frame
/// without a reading is noted under its position `index` and changes nothing
/// else. A frame with a reading becomes the next packet, unless it was
/// captured before the packet that it would follow.
pub open spec fn replay_step(log: ReplayLog, index: int, event: CaptureEvent) -> Result<
    ReplayLog,
    RewindError,
> {
    match event {
        CaptureEvent::ReadError => Err(RewindError::CaptureOpenFailed),
        CaptureEvent::Frame(frame) => match parse_frame(frame.data@) {
            Err(error) => Ok(
                ReplayLog {
                    packets: log.packets,
                    skipped: log.skipped.push(SkippedFrame { index: index as usize, error }),
                },
            ),
            Ok(decoded) => if log.packets.len() > 0 && frame.time() < log.packets.last().time {
                Err(RewindError::NonMonotonicTimestamp)
            } else {
                Ok(
                    ReplayLog {
                        packets: log.packets.push(packet_after(log.packets, frame.time(), decoded)),
                        skipped: log.skipped,
                    },
                )
            },
        },
    }
}

/// The log of a whole capture: its events taken one after the other, from an
/// empty log, up to the first one that ends everything.
pub open spec fn replay_of(events: Seq<CaptureEvent>) -> Result<ReplayLog, RewindError>
    decreases events.len(),
{
    if events.len() == 0 {
        Ok(ReplayLog { packets: Seq::empty(), skipped: Seq::empty() })
    } else {
        match replay_of(events.drop_last()) {
            Err(e) => Err(e),
            Ok(log) => replay_step(log, events.len() - 1, events.last()),
        }
    }
}

/// No packet has been sent yet.
pub open spec fn none_sent(packets: Seq<ReplayPacketView>) -> bool {
    forall|i: int|
        0 <= i < packets.len() ==> (#[trigger] packets[i]).status == ReplayPacketStatus::NotSent
}

/// No packet was captured before a packet in front of it.
pub open spec fn times_ascend(packets: Seq<ReplayPacketView>) -> bool {
    forall|i: int, j: int|
        0 <= i <= j < packets.len() ==> (#[trigger] packets[i]).time <= (#[trigger] packets[j]).time
}

/// Each packet carries its own position as its number.
pub open spec fn numbered_from_zero(packets: Seq<ReplayPacketView>) -> bool {
    forall|i: int| 0 <= i < packets.len() ==> (#[trigger] packets[i]).number == i
}

/// The first packet has no delay, and the delay of every other packet is the
/// time that passed since the packet before it: for neighbours `i` and `j`,
/// the delay of `j` is the capture time of `j` less that of `i`.
pub open spec fn delays_follow_times(packets: Seq<ReplayPacketView>) -> bool {
    &&& packets.len() > 0 ==> packets[0].delay == 0
    &&& forall|i: int, j: int|
        0 <= i && j == i + 1 && j < packets.len() ==> (#[trigger] packets[j]).delay
            == packets[j].time - (#[trigger] packets[i]).time
}

/// The remote hosts of a packet sequence: every destination address that is
/// not a local one.
pub open spec fn remote_hosts_of(packets: Seq<ReplayPacketView>, local: Set<IpAddress>) -> Set<
    IpAddress,
> {
    Set::new(
        |addr: IpAddress|
            !local.contains(addr) && exists|i: int|
                0 <= i < packets.len() && (#[trigger] packets[i]).destination.addr == addr,
    )
}

/// What a [`Rewinder`] stands for.
pub struct RewinderView {
    pub packets: Seq<ReplayPacketView>,
    pub remote_hosts: Set<IpAddress>,
    pub local_hosts: Set<IpAddress>,
    pub skipped: Seq<SkippedFrame>,
}

/// The replay model of a capture on a machine with the local addresses
/// `local`, or the error that ends the processing of the capture.
pub open spec fn rewinder_of(events: Seq<CaptureEvent>, local: Set<IpAddress>) -> Result<
    RewinderView,
    RewindError,
> {
    match replay_of(events) {
        Err(e) => Err(e),
        Ok(log) => Ok(
            RewinderView {
                packets: log.packets,
                remote_hosts: remote_hosts_of(log.packets, local),
                local_hosts: local,
                skipped: log.skipped,
            },
        ),
    }
}

/// Whether `res` is what `model` says: the same error, or a rewinder whose
/// view is the model.
pub open spec fn rewound_as(
    res: Result<Rewinder, RewindError>,
    model: Result<RewinderView, RewindError>,
) -> bool {
    match model {
        Ok(view) => res matches Ok(rewinder) && rewinder@ == view,
        Err(e) => res matches Err(x) && x == e,
    }
}

/// An event that ends everything does so whatever follows it.
proof fn lemma_error_is_final(events: Seq<CaptureEvent>, upto: int)
    requires
        0 <= upto <= events.len(),
        replay_of(events.take(upto)) is Err,
    ensures
        replay_of(events) == replay_of(events.take(upto)),
    decreases events.len() - upto,
{
    if upto == events.len() {
        assert(events.take(upto) =~= events);
    } else {
        assert(events.take(upto + 1).drop_last() =~= events.take(upto));
        lemma_error_is_final(events, upto + 1);
    }
}

/// What holds of the packets of every log.
spec fn well_shaped(packets: Seq<ReplayPacketView>) -> bool {
    &&& numbered_from_zero(packets)
    &&& delays_follow_times(packets)
    &&& times_ascend(packets)
    &&& none_sent(packets)
}

/// One more event keeps the shape of a log, and adds one entry to it.
proof fn lemma_step_shape(log: ReplayLog, index: int, event: CaptureEvent)
    requires
        well_shaped(log.packets),
        log.packets.len() < u64::MAX,
        replay_step(log, index, event) is Ok,
    ensures
        well_shaped(replay_step(log, index, event)->Ok_0.packets),
        replay_step(log, index, event)->Ok_0.packets.len() + replay_step(
            log,
            index,
            event,
        )->Ok_0.skipped.len() == log.packets.len() + log.skipped.len() + 1,
{
    let next = replay_step(log, index, event)->Ok_0;
    let frame = event->Frame_0;
    if parse_frame(frame.data@) is Ok {
        let added = packet_after(log.packets, frame.time(), parse_frame(frame.data@)->Ok_0);
        let n = log.packets.len() as int;
        assert(next.packets == log.packets.push(added));
        let longer = next.packets;
        assert forall|i: int| 0 <= i < longer.len() implies (#[trigger] longer[i]).number == i
            && longer[i].status == ReplayPacketStatus::NotSent by {
            if i < n {
                assert(longer[i] == log.packets[i]);
            }
        }
        assert forall|i: int, j: int| 0 <= i && j == i + 1 && j < longer.len() implies (
            #[trigger] longer[j]
        ).delay == longer[j].time - (#[trigger] longer[i]).time by {
            assert(longer[i] == log.packets[i]);
            if j < n {
                assert(longer[j] == log.packets[j]);
            }
        }
        assert forall|i: int, j: int| 0 <= i <= j < longer.len() implies (#[trigger] longer[i]).time
            <= (#[trigger] longer[j]).time by {
            if j < n {
                assert(next.packets[i] == log.packets[i]);
                assert(next.packets[j] == log.packets[j]);
            } else if i < n {
                assert(next.packets[i] == log.packets[i]);
                assert(log.packets[i].time <= log.packets[n - 1].time);
            }
        }
        if n > 0 {
            assert(next.packets[0] == log.packets[0]);
        }
    }
}

/// The shape of every log: each event has become a packet or was noted as
/// left out, the packets are numbered by position, none was captured before
/// the one in front of it, the delays are the differences of the capture
/// times, and no packet has been sent.
proof fn lemma_log_shape(events: Seq<CaptureEvent>)
    requires
        replay_of(events) is Ok,
        events.len() <= u64::MAX,
    ensures
        replay_of(events)->Ok_0.packets.len() + replay_of(events)->Ok_0.skipped.len()
            == events.len(),
        well_shaped(replay_of(events)->Ok_0.packets),
    decreases events.len(),
{
    if events.len() > 0 {
        lemma_log_shape(events.drop_last());
        lemma_step_shape(replay_of(events.drop_last())->Ok_0, events.len() - 1, events.last());
    }
}

/// For all processed captures, the packet numbers are a contiguous ascending
/// run that starts at 0, without gaps or duplicates: the packet at position
/// `i` has the number `i`.
pub proof fn packet_numbers_are_contiguous(capture: Vec<CaptureEvent>)
    requires
        replay_of(capture@) is Ok,
    ensures
        numbered_from_zero(replay_of(capture@)->Ok_0.packets),
        forall|i: int, j: int|
            0 <= i < j < replay_of(capture@)->Ok_0.packets.len() ==> (#[trigger] replay_of(
                capture@,
            )->Ok_0.packets[i]).number < (#[trigger] replay_of(capture@)->Ok_0.packets[j]).number,
{
    assert(capture@.len() == capture.len());
    lemma_log_shape(capture@);
}

/// The first packet of a processed capture has no delay, and every later
/// packet `i` has as its delay the capture time of itself less that of packet
/// `i - 1`, which is never negative.
pub proof fn delays_are_time_differences(capture: Vec<CaptureEvent>, i: int)
    requires
        replay_of(capture@) is Ok,
        0 <= i < replay_of(capture@)->Ok_0.packets.len(),
    ensures
        i == 0 ==> replay_of(capture@)->Ok_0.packets[i].delay == 0,
        i > 0 ==> replay_of(capture@)->Ok_0.packets[i].delay == replay_of(
            capture@,
        )->Ok_0.packets[i].time - replay_of(capture@)->Ok_0.packets[i - 1].time,
        i > 0 ==> replay_of(capture@)->Ok_0.packets[i - 1].time <= replay_of(
            capture@,
        )->Ok_0.packets[i].time,
        delays_follow_times(replay_of(capture@)->Ok_0.packets),
        times_ascend(replay_of(capture@)->Ok_0.packets),
{
    assert(capture@.len() == capture.len());
    lemma_log_shape(capture@);
    let packets = replay_of(capture@)->Ok_0.packets;
    if i > 0 {
        let before = i - 1;
        assert(packets[i].delay == packets[i].time - packets[before].time);
        assert(packets[before].time <= packets[i].time);
    }
}

/// Every frame of a processed capture is either a packet of the replay
/// sequence or noted as left out, so each frame without a reading makes the
/// sequence one packet shorter than the capture. Every packet starts out as
/// not sent.
pub proof fn every_frame_is_replayed_or_skipped(capture: Vec<CaptureEvent>)
    requires
        replay_of(capture@) is Ok,
    ensures
        replay_of(capture@)->Ok_0.packets.len() + replay_of(capture@)->Ok_0.skipped.len()
            == capture@.len(),
        none_sent(replay_of(capture@)->Ok_0.packets),
{
    assert(capture@.len() == capture.len());
    lemma_log_shape(capture@);
}

/// Whether every event is a frame, and no frame was captured before a frame
/// in front of it.
pub open spec fn frames_in_time_order(events: Seq<CaptureEvent>) -> bool {
    &&& forall|i: int| 0 <= i < events.len() ==> (#[trigger] events[i]) is Frame
    &&& forall|i: int, j: int|
        0 <= i <= j < events.len() ==> (#[trigger] events[i])->Frame_0.time() <= (
        #[trigger] events[j])->Frame_0.time()
}

/// A capture that was read without error and whose frames are in the order
/// of their capture times is always processed, whether its frames can be
/// decoded or not.
pub proof fn ordered_captures_are_processed(events: Seq<CaptureEvent>)
    requires
        frames_in_time_order(events),
    ensures
        replay_of(events) is Ok,
        events.len() > 0 && replay_of(events)->Ok_0.packets.len() > 0 ==> replay_of(
            events,
        )->Ok_0.packets.last().time <= events.last()->Frame_0.time(),
    decreases events.len(),
{
    if events.len() > 0 {
        let earlier = events.drop_last();
        assert forall|i: int, j: int| 0 <= i <= j < earlier.len() implies (#[trigger] earlier[i])
            is Frame && earlier[i]->Frame_0.time() <= (#[trigger] earlier[j])->Frame_0.time() by {
            assert(earlier[i] == events[i]);
            assert(earlier[j] == events[j]);
        }
        ordered_captures_are_processed(earlier);
        if earlier.len() > 0 {
            assert(earlier.last() == events[events.len() - 2]);
            assert(events[events.len() - 2]->Frame_0.time() <= events[events.len()
                - 1]->Frame_0.time());
        }
    }
}

/// A capture with a read error in it is never processed, wherever the error
/// stands and whatever the frames hold.
pub proof fn read_errors_are_fatal(events: Seq<CaptureEvent>, at: int)
    requires
        0 <= at < events.len(),
        events[at] is ReadError,
    ensures
        replay_of(events) is Err,
{
    assert(events.take(at + 1).last() == events[at]);
    lemma_error_is_final(events, at + 1);
}

/// No remote host is a local host, whatever the packets and the local
/// addresses are.
pub proof fn remote_hosts_exclude_local(packets: Seq<ReplayPacketView>, local: Set<IpAddress>)
    ensures
        remote_hosts_of(packets, local).disjoint(local),
        remote_hosts_of(packets, local).intersect(local) == Set::<IpAddress>::empty(),
{
    assert(remote_hosts_of(packets, local).intersect(local) =~= Set::<IpAddress>::empty());
}

/// The remote hosts of a sequence with one more packet: that packet's
/// destination joins them unless it is local.
pub proof fn remote_hosts_of_push(
    packets: Seq<ReplayPacketView>,
    next: ReplayPacketView,
    local: Set<IpAddress>,
)
    ensures
        remote_hosts_of(packets.push(next), local) == if local.contains(next.destination.addr) {
            remote_hosts_of(packets, local)
        } else {
            remote_hosts_of(packets, local).insert(next.destination.addr)
        },
{
    let longer = packets.push(next);
    let expected = if local.contains(next.destination.addr) {
        remote_hosts_of(packets, local)
    } else {
        remote_hosts_of(packets, local).insert(next.destination.addr)
    };
    assert forall|addr: IpAddress|
        remote_hosts_of(longer, local).contains(addr) == expected.contains(addr) by {
        if remote_hosts_of(longer, local).contains(addr) {
            let i = choose|i: int|
                0 <= i < longer.len() && (#[trigger] longer[i]).destination.addr == addr;
            if i < packets.len() {
                assert(packets[i].destination.addr == addr);
            }
        }
        if remote_hosts_of(packets, local).contains(addr) {
            let i = choose|i: int|
                0 <= i < packets.len() && (#[trigger] packets[i]).destination.addr == addr;
            assert(longer[i].destination.addr == addr);
        }
        if addr == next.destination.addr {
            assert(longer[packets.len() as int].destination.addr == addr);
        }
    }
    assert(remote_hosts_of(longer, local) =~= expected);
}

/// Processing a capture is a function of the capture and the local addresses
/// alone: any two results for the same capture and the same local addresses
/// fail alike or stand for the same model, packet for packet and byte for
/// byte.
pub proof fn reprocessing_yields_the_same_model(
    capture: Seq<CaptureEvent>,
    local: Set<IpAddress>,
    first: Result<Rewinder, RewindError>,
    second: Result<Rewinder, RewindError>,
)
    requires
        rewound_as(first, rewinder_of(capture, local)),
        rewound_as(second, rewinder_of(capture, local)),
    ensures
        first is Ok <==> second is Ok,
        first matches Ok(a) ==> second matches Ok(b) && a@ == b@ && a@.packets == b@.packets,
        first matches Err(a) ==> second matches Err(b) && a == b,
{
}

/// The replay model of one capture: the packets in capture order, the local
/// host addresses it was built with, the remote host addresses found in the
/// packets, and the frames that were left out.
#[derive(Debug)]
pub struct Rewinder {
    tx_vec: Vec<ReplayPacket>,
    remote_hosts: HostSet,
    local_hosts: HostSet,
    skipped: Vec<SkippedFrame>,
}

impl View for Rewinder {
    type V = RewinderView;

    closed spec fn view(&self) -> RewinderView {
        RewinderView {
            packets: views_of(self.tx_vec@),
            remote_hosts: self.remote_hosts@,
            local_hosts: self.local_hosts@,
            skipped: self.skipped@,
        }
    }
}

impl Rewinder {
    #[verifier::type_invariant]
    spec fn consistent(&self) -> bool {
        &&& numbered_from_zero(views_of(self.tx_vec@))
        &&& delays_follow_times(views_of(self.tx_vec@))
        &&& self.remote_hosts@ == remote_hosts_of(views_of(self.tx_vec@), self.local_hosts@)
    }

    /// Builds the replay model of a capture, given the addresses of the local
    /// network interfaces.
    ///
    /// Fails with `CaptureOpenFailed` where the capture reports a read error,
    /// and with `NonMonotonicTimestamp` where a decodable frame was captured
    /// before the packet that it would follow; of several such events the
    /// first decides. Frames that cannot be decoded are left out and noted.
    pub fn new(capture: Vec<CaptureEvent>, local_hosts: HostSet) -> (res: Result<
        Rewinder,
        RewindError,
    >)
        ensures
            rewound_as(res, rewinder_of(capture@, local_hosts@)),
            res is Ok <==> replay_of(capture@) is Ok,
            res matches Ok(rewinder) ==> {
                &&& numbered_from_zero(rewinder@.packets)
                &&& delays_follow_times(rewinder@.packets)
                &&& times_ascend(rewinder@.packets)
                &&& none_sent(rewinder@.packets)
                &&& rewinder@.remote_hosts.disjoint(rewinder@.local_hosts)
                &&& rewinder@.packets.len() + rewinder@.skipped.len() == capture@.len()
            },
    {
        let (tx_vec, skipped) = match Rewinder::init_pcap(&capture) {
            Ok(built) => built,
            Err(e) => {
                return Err(e);
            },
        };
        let remote_hosts = Rewinder::extract_remote_hosts(&tx_vec, &local_hosts);
        Ok(Rewinder { tx_vec, remote_hosts, local_hosts, skipped })
    }

    /// Sequences the frames of a capture into replay packets.
    ///
    /// Each frame that decodes becomes the next packet: numbered from 0 in
    /// capture order, stamped with its capture time, delayed by the time
    /// since the packet before it, and not yet sent. Each frame that does not
    /// decode is noted with its position and the error. The result is an
    /// error exactly when the capture holds a read error or a decodable frame
    /// older than the packet before it, whichever comes first.
    pub fn init_pcap(capture: &Vec<CaptureEvent>) -> (res: Result<
        (Vec<ReplayPacket>, Vec<SkippedFrame>),
        RewindError,
    >)
        ensures
            match replay_of(capture@) {
                Ok(log) => res matches Ok(built) && views_of(built.0@) == log.packets && built.1@
                    == log.skipped,
                Err(e) => res matches Err(x) && x == e,
            },
            res matches Ok(built) ==> {
                &&& numbered_from_zero(views_of(built.0@))
                &&& delays_follow_times(views_of(built.0@))
                &&& times_ascend(views_of(built.0@))
                &&& none_sent(views_of(built.0@))
                &&& built.0@.len() + built.1@.len() == capture@.len()
            },
    {
        let mut tx_packets: Vec<ReplayPacket> = Vec::new();
        let mut skipped: Vec<SkippedFrame> = Vec::new();
        let mut i: usize = 0;
        assert(capture@.take(0) =~= Seq::<CaptureEvent>::empty());
        assert(views_of(tx_packets@) =~= Seq::<ReplayPacketView>::empty());
        while i < capture.len()
            invariant
                i <= capture@.len(),
                tx_packets@.len() <= i,
                replay_of(capture@.take(i as int)) matches Ok(log) && log.packets == views_of(
                    tx_packets@,
                ) && log.skipped == skipped@,
            decreases capture@.len() - i,
        {
            let ghost log = replay_of(capture@.take(i as int))->Ok_0;
            let ghost earlier = views_of(tx_packets@);
            proof {
                assert(capture@.take(i + 1).drop_last() =~= capture@.take(i as int));
                assert(capture@.take(i + 1).last() == capture@[i as int]);
            }
            match &capture[i] {
                CaptureEvent::ReadError => {
                    proof {
                        lemma_error_is_final(capture@, i + 1);
                    }
                    return Err(RewindError::CaptureOpenFailed);
                },
                CaptureEvent::Frame(frame) => {
                    match decode_frame(frame.data.as_slice()) {
                        Err(error) => {
                            skipped.push(SkippedFrame { index: i, error });
                        },
                        Ok(decoded) => {
                            let time = TimeSpan::from_capture(frame.ts_sec, frame.ts_usec);
                            let delay = if tx_packets.len() == 0 {
                                TimeSpan::zero()
                            } else {
                                let previous = tx_packets[tx_packets.len() - 1].get_time();
                                assert(previous@ == earlier.last().time);
                                match time.checked_sub(&previous) {
                                    Some(delay) => delay,
                                    None => {
                                        proof {
                                            lemma_error_is_final(capture@, i + 1);
                                        }
                                        return Err(RewindError::NonMonotonicTimestamp);
                                    },
                                }
                            };
                            let number: u64 = tx_packets.len() as u64;
                            let packet = ReplayPacket::new(
                                number,
                                time,
                                delay,
                                decoded.source,
                                decoded.destination,
                                decoded.packet,
                                ReplayPacketStatus::NotSent,
                            );
                            assert(packet@ == packet_after(earlier, frame.time(), decoded@));
                            tx_packets.push(packet);
                            assert(views_of(tx_packets@) =~= earlier.push(
                                packet_after(earlier, frame.time(), decoded@),
                            ));
                        },
                    }
                },
            }
            i = i + 1;
        }
        proof {
            assert(capture@.take(i as int) =~= capture@);
            lemma_log_shape(capture@);
        }
        Ok((tx_packets, skipped))
    }

    /// Classifies the destinations of `packets`: every destination address
    /// that is not among `local_hosts` is a remote host.
    pub fn extract_remote_hosts(packets: &Vec<ReplayPacket>, local_hosts: &HostSet) -> (remote:
        HostSet)
        ensures
            remote@ == remote_hosts_of(views_of(packets@), local_hosts@),
            remote@.disjoint(local_hosts@),
    {
        let mut remote = HostSet::new();
        let mut i: usize = 0;
        let ghost all = views_of(packets@);
        assert(remote_hosts_of(all.take(0), local_hosts@) =~= Set::<IpAddress>::empty());
        while i < packets.len()
            invariant
                i <= packets@.len(),
                all == views_of(packets@),
                remote@ == remote_hosts_of(all.take(i as int), local_hosts@),
            decreases packets@.len() - i,
        {
            let addr = packets[i].get_remote_host().get_addr();
            proof {
                assert(all.take(i + 1) =~= all.take(i as int).push(all[i as int]));
                remote_hosts_of_push(all.take(i as int), all[i as int], local_hosts@);
            }
            if !local_hosts.contains(addr) {
                remote.insert(addr);
            }
            i = i + 1;
        }
        proof {
            assert(all.take(i as int) =~= all);
            remote_hosts_exclude_local(all, local_hosts@);
        }
        remote
    }

    /// The remote host addresses found in the capture: the destinations of
    /// its packets that are not local. None of them is a local host.
    pub fn get_remote_hosts(&self) -> (hosts: HostSet)
        ensures
            hosts@ == self@.remote_hosts,
            hosts@ == remote_hosts_of(self@.packets, self@.local_hosts),
            hosts@.disjoint(self@.local_hosts),
    {
        proof {
            use_type_invariant(self);
            remote_hosts_exclude_local(self@.packets, self@.local_hosts);
        }
        self.remote_hosts.clone()
    }

    /// The local host addresses that the model was built with.
    pub fn get_local_hosts(&self) -> (hosts: HostSet)
        ensures
            hosts@ == self@.local_hosts,
    {
        self.local_hosts.clone()
    }

    /// The replay packets in capture order. They are numbered by position,
    /// and their delays are the differences of their capture times.
    pub fn get_replay_packets(&self) -> (packets: &Vec<ReplayPacket>)
        ensures
            views_of(packets@) == self@.packets,
            numbered_from_zero(self@.packets),
            delays_follow_times(self@.packets),
    {
        proof {
            use_type_invariant(self);
        }
        &self.tx_vec
    }

    /// The frames that could not be decoded, in capture order.
    pub fn get_skipped_frames(&self) -> (skipped: &Vec<SkippedFrame>)
        ensures
            skipped@ == self@.skipped,
    {
        &self.skipped
    }
}

} // verus!

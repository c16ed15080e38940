use vstd::prelude::*;

use std::collections::HashMap;

use crate::codec::{decode_payload, frame_is_well_formed, header_session, header_target, unpack, well_framed, CodecError};
use crate::device::{BulbInfo, Notice, Payload};
use crate::endpoint::Endpoint;

verus! {

broadcast use vstd::std_specs::hash::group_hash_axioms;

/// The envelope of an inbound message: the session it answers and the
/// device it comes from (zero for a broadcast).
#[derive(Clone, Copy, Debug, PartialEq, Eq, Structural)]
pub struct Header {
    pub session: u32,
    pub target: u64,
}

/// What became of one inbound datagram.
#[derive(Clone, Debug, PartialEq, Eq)]
pub enum Delivery {
    /// The datagram does not hold well-formed headers.
    Malformed,
    /// The message answers another session.
    ForeignSession,
    /// The message is not addressed to a specific device.
    Broadcast,
    /// The device record was updated and the message handled.
    Handled { target: u64, notice: Notice },
    /// The device record was updated; the payload could not be decoded.
    Failed { target: u64, error: CodecError },
}

/// What one read from the socket produced.
#[derive(Clone, Debug)]
pub enum ReadEvent {
    /// A datagram and the endpoint it came from.
    Datagram { bytes: Vec<u8>, from: Endpoint },
    /// A read that failed but may succeed if tried again (interrupted or
    /// timed out).
    Transient,
    /// The socket can no longer be read.
    Closed,
}

/// What the receive loop does after one read.
#[derive(Clone, Debug, PartialEq, Eq)]
pub enum LoopStep {
    /// A datagram was received; the loop goes on.
    Delivered(Delivery),
    /// Nothing was received; the loop reads again.
    Retry,
    /// The loop ends.
    Stop,
}

/// The header of a well-framed datagram.
pub open spec fn framed_header(b: Seq<u8>) -> Header {
    Header { session: header_session(b), target: header_target(b) }
}

/// Whether a message with `h` answers `session` and comes from one device.
pub open spec fn addressed_to(session: u32, h: Header) -> bool {
    h.session == session && h.target != 0
}

/// The record of `target` once a message from `from` has arrived: the known
/// record with its address replaced, or a fresh one.
pub open spec fn arrived(m: Map<u64, BulbInfo>, target: u64, from: Endpoint) -> BulbInfo {
    if m.contains_key(target) {
        BulbInfo { address: from, ..m[target] }
    } else {
        BulbInfo::fresh(from)
    }
}

/// The registry once a message with header `h` and decoded `payload` has
/// arrived from `from` for `session`.
pub open spec fn accepted(
    m: Map<u64, BulbInfo>,
    session: u32,
    h: Header,
    from: Endpoint,
    payload: Result<Payload, CodecError>,
) -> Map<u64, BulbInfo> {
    if !addressed_to(session, h) {
        m
    } else {
        let rec = arrived(m, h.target, from);
        m.insert(
            h.target,
            match payload {
                Ok(p) => rec.after(p),
                Err(_) => rec,
            },
        )
    }
}

/// What accepting that message reports.
pub open spec fn delivery_for(
    m: Map<u64, BulbInfo>,
    session: u32,
    h: Header,
    from: Endpoint,
    payload: Result<Payload, CodecError>,
) -> Delivery {
    if h.session != session {
        Delivery::ForeignSession
    } else if h.target == 0 {
        Delivery::Broadcast
    } else {
        match payload {
            Ok(p) => Delivery::Handled {
                target: h.target,
                notice: arrived(m, h.target, from).notice_for(p),
            },
            Err(e) => Delivery::Failed { target: h.target, error: e },
        }
    }
}

/// How receiving datagram `b` from `from` takes registry `m` to `m2` with
/// outcome `d`: a malformed datagram changes nothing; a framed one is
/// accepted with whatever payload the codec decoded from it.
pub open spec fn received(
    m: Map<u64, BulbInfo>,
    session: u32,
    b: Seq<u8>,
    from: Endpoint,
    m2: Map<u64, BulbInfo>,
    d: Delivery,
) -> bool {
    if !well_framed(b) {
        d is Malformed && m2 == m
    } else {
        exists|p: Result<Payload, CodecError>|
            m2 == accepted(m, session, framed_header(b), from, p) && d == delivery_for(
                m,
                session,
                framed_header(b),
                from,
                p,
            )
    }
}

/// The known devices, by device identifier.
pub struct DeviceRegistry {
    bulbs: HashMap<u64, BulbInfo>,
}

impl View for DeviceRegistry {
    type V = Map<u64, BulbInfo>;

    closed spec fn view(&self) -> Map<u64, BulbInfo> {
        self.bulbs@
    }
}

impl DeviceRegistry {
    /// An empty registry.
    pub fn new() -> (r: DeviceRegistry)
        ensures
            r@ == Map::<u64, BulbInfo>::empty(),
    {
        DeviceRegistry { bulbs: HashMap::new() }
    }

    /// A registry holds finitely many devices.
    pub proof fn lemma_finite(&self)
        ensures
            self@.dom().finite(),
    {
    }

    /// The number of known devices.
    pub fn len(&self) -> (r: usize)
        ensures
            r == self@.len(),
    {
        self.bulbs.len()
    }

    /// The record of device `target`, if it is known.
    pub fn get(&self, target: u64) -> (r: Option<&BulbInfo>)
        ensures
            match r {
                Some(b) => self@.contains_key(target) && *b == self@[target],
                None => !self@.contains_key(target),
            },
    {
        self.bulbs.get(&target)
    }

    /// Accepts one message decoded from a datagram sent from `from`. A
    /// message for another session or for no specific device is dropped;
    /// otherwise the device's record is created or its address replaced by
    /// `from`, and the decoded payload is handed to the record.
    pub fn accept(
        &mut self,
        session: u32,
        header: Header,
        from: Endpoint,
        payload: Result<Payload, CodecError>,
    ) -> (r: Delivery)
        ensures
            final(self)@ == accepted(old(self)@, session, header, from, payload),
            r == delivery_for(old(self)@, session, header, from, payload),
    {
        if header.session != session {
            return Delivery::ForeignSession;
        }
        if header.target == 0 {
            return Delivery::Broadcast;
        }
        let ghost before = self@;
        let mut bulb = match self.bulbs.remove(&header.target) {
            Some(known) => BulbInfo { address: from, ..known },
            None => BulbInfo::new(from),
        };
        assert(bulb == arrived(before, header.target, from));
        let r = match payload {
            Ok(p) => Delivery::Handled { target: header.target, notice: bulb.handle_message(p) },
            Err(e) => Delivery::Failed { target: header.target, error: e },
        };
        self.bulbs.insert(header.target, bulb);
        assert(self@ =~= accepted(before, session, header, from, payload));
        r
    }

    /// Receives one datagram sent from `from` to the manager of `session`:
    /// checks its framing, reads its header, decodes its payload and accepts
    /// it. A datagram that is not well framed changes nothing.
    pub fn receive(&mut self, session: u32, datagram: &[u8], from: Endpoint) -> (r: Delivery)
        ensures
            received(old(self)@, session, datagram@, from, final(self)@, r),
    {
        if !frame_is_well_formed(datagram) {
            return Delivery::Malformed;
        }
        match unpack(datagram) {
            Ok(d) => {
                let header = Header { session: d.session, target: d.target };
                let payload = decode_payload(&d);
                let r = self.accept(session, header, from, payload);
                assert(header == framed_header(datagram@));
                r
            },
            Err(_) => Delivery::Malformed,
        }
    }

    /// One turn of the receive loop: a datagram is received and the loop goes
    /// on, whatever it held; a transient read failure is retried; only a
    /// closed socket ends the loop.
    pub fn step(&mut self, session: u32, event: ReadEvent) -> (r: LoopStep)
        ensures
            r is Stop <==> event is Closed,
            match event {
                ReadEvent::Datagram { bytes, from } => r matches LoopStep::Delivered(d) && received(
                    old(self)@,
                    session,
                    bytes@,
                    from,
                    final(self)@,
                    d,
                ),
                ReadEvent::Transient => r is Retry && final(self)@ == old(self)@,
                ReadEvent::Closed => final(self)@ == old(self)@,
            },
    {
        match event {
            ReadEvent::Datagram { bytes, from } => LoopStep::Delivered(
                self.receive(session, bytes.as_slice(), from),
            ),
            ReadEvent::Transient => LoopStep::Retry,
            ReadEvent::Closed => LoopStep::Stop,
        }
    }
}

} // verus!

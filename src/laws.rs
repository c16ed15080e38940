use vstd::prelude::*;

use crate::codec::{get_service_bytes, header_session, header_target, le, well_framed, CodecError};
use crate::device::{BulbInfo, Payload};
use crate::endpoint::Endpoint;
use crate::registry::{accepted, addressed_to, delivery_for, DeviceRegistry, Header};

verus! {

broadcast use vstd::std_specs::hash::group_hash_axioms;

/// One message as the registry accepts it: its header, the endpoint it came
/// from and its decoded payload.
pub struct Arrival {
    pub header: Header,
    pub from: Endpoint,
    pub payload: Result<Payload, CodecError>,
}

/// The registry once every arrival has been accepted, in order.
pub open spec fn accepted_all(m: Map<u64, BulbInfo>, session: u32, arrivals: Seq<Arrival>) -> Map<
    u64,
    BulbInfo,
>
    decreases arrivals.len(),
{
    if arrivals.len() == 0 {
        m
    } else {
        let a = arrivals.last();
        accepted(accepted_all(m, session, arrivals.drop_last()), session, a.header, a.from, a.payload)
    }
}

/// Whether arrival `i` is accepted and no later arrival is accepted for the
/// same device.
pub open spec fn last_for_its_device(session: u32, arrivals: Seq<Arrival>, i: int) -> bool {
    &&& 0 <= i < arrivals.len()
    &&& addressed_to(session, arrivals[i].header)
    &&& forall|j: int|
        i < j < arrivals.len() ==> !(addressed_to(session, arrivals[j].header)
            && arrivals[j].header.target == arrivals[i].header.target)
}

/// Handling a payload never moves a device: its address stays as it was.
pub proof fn lemma_handling_keeps_address(info: BulbInfo, payload: Payload)
    ensures
        info.after(payload).address == info.address,
{
}

/// A message that answers another session leaves the registry as it was and
/// reaches no device.
pub proof fn lemma_foreign_session_ignored(
    reg: DeviceRegistry,
    session: u32,
    h: Header,
    from: Endpoint,
    payload: Result<Payload, CodecError>,
)
    requires
        h.session != session,
    ensures
        accepted(reg@, session, h, from, payload) == reg@,
        delivery_for(reg@, session, h, from, payload) is ForeignSession,
{
}

/// A message with target zero (a broadcast) leaves the registry as it was and
/// reaches no device.
pub proof fn lemma_broadcast_ignored(
    reg: DeviceRegistry,
    session: u32,
    h: Header,
    from: Endpoint,
    payload: Result<Payload, CodecError>,
)
    requires
        h.target == 0,
    ensures
        accepted(reg@, session, h, from, payload) == reg@,
        !(delivery_for(reg@, session, h, from, payload) is Handled),
        !(delivery_for(reg@, session, h, from, payload) is Failed),
{
}

/// A message for this session from a specific device leaves exactly one
/// entry for that device, at the sender's address: a new device adds one
/// entry, a known one keeps the count; no other entry changes.
pub proof fn lemma_sender_recorded(
    reg: DeviceRegistry,
    session: u32,
    h: Header,
    from: Endpoint,
    payload: Result<Payload, CodecError>,
)
    requires
        h.session == session,
        h.target != 0,
    ensures
        ({
            let m2 = accepted(reg@, session, h, from, payload);
            &&& m2.contains_key(h.target)
            &&& m2[h.target].address == from
            &&& m2.dom() == reg@.dom().insert(h.target)
            &&& !reg@.contains_key(h.target) ==> m2.len() == reg@.len() + 1
            &&& reg@.contains_key(h.target) ==> m2.len() == reg@.len()
            &&& forall|k: u64| k != h.target && reg@.contains_key(k) ==> m2[k] == reg@[k]
        }),
{
    reg.lemma_finite();
    let m2 = accepted(reg@, session, h, from, payload);
    assert(m2.dom() =~= reg@.dom().insert(h.target));
    if let Ok(p) = payload {
        lemma_handling_keeps_address(
            crate::registry::arrived(reg@, h.target, from),
            p,
        );
    }
}

/// However deliveries interleave, once they have been accepted one at a time
/// the registry holds exactly the devices it held plus every device that an
/// accepted message came from, and each such device is at the address of the
/// last message accepted for it: no update is lost.
pub proof fn lemma_no_lost_updates(reg: DeviceRegistry, session: u32, arrivals: Seq<Arrival>)
    ensures
        ({
            let m2 = accepted_all(reg@, session, arrivals);
            &&& m2.dom().finite()
            &&& forall|k: u64|
                m2.contains_key(k) <==> (reg@.contains_key(k) || exists|i: int|
                    0 <= i < arrivals.len() && addressed_to(session, arrivals[i].header)
                        && arrivals[i].header.target == k)
            &&& forall|i: int|
                #![trigger last_for_its_device(session, arrivals, i)]
                last_for_its_device(session, arrivals, i) ==> m2[arrivals[i].header.target].address
                    == arrivals[i].from
        }),
{
    reg.lemma_finite();
    lemma_accepted_all(reg@, session, arrivals);
}

proof fn lemma_accepted_all(m: Map<u64, BulbInfo>, session: u32, arrivals: Seq<Arrival>)
    requires
        m.dom().finite(),
    ensures
        ({
            let m2 = accepted_all(m, session, arrivals);
            &&& m2.dom().finite()
            &&& forall|k: u64|
                m2.contains_key(k) <==> (m.contains_key(k) || exists|i: int|
                    0 <= i < arrivals.len() && addressed_to(session, arrivals[i].header)
                        && arrivals[i].header.target == k)
            &&& forall|i: int|
                #![trigger last_for_its_device(session, arrivals, i)]
                last_for_its_device(session, arrivals, i) ==> m2[arrivals[i].header.target].address
                    == arrivals[i].from
        }),
    decreases arrivals.len(),
{
    if arrivals.len() > 0 {
        let prefix = arrivals.drop_last();
        let n = arrivals.len() - 1;
        let a = arrivals[n];
        lemma_accepted_all(m, session, prefix);
        let m1 = accepted_all(m, session, prefix);
        let m2 = accepted_all(m, session, arrivals);
        assert(m2 == accepted(m1, session, a.header, a.from, a.payload));
        assert forall|i: int| 0 <= i < n implies prefix[i] == arrivals[i] by {}
        if addressed_to(session, a.header) {
            if let Ok(p) = a.payload {
                lemma_handling_keeps_address(crate::registry::arrived(m1, a.header.target, a.from), p);
            }
        }
        assert forall|k: u64|
            m2.contains_key(k) <==> (m.contains_key(k) || exists|i: int|
                0 <= i < arrivals.len() && addressed_to(session, arrivals[i].header)
                    && arrivals[i].header.target == k) by {
            if m2.contains_key(k) && !m.contains_key(k) {
                if m1.contains_key(k) {
                    let i = choose|i: int|
                        0 <= i < prefix.len() && addressed_to(session, prefix[i].header)
                            && prefix[i].header.target == k;
                    assert(arrivals[i] == prefix[i]);
                } else {
                    assert(arrivals[n] == a);
                }
            }
            if exists|i: int|
                0 <= i < arrivals.len() && addressed_to(session, arrivals[i].header)
                    && arrivals[i].header.target == k {
                let i = choose|i: int|
                    0 <= i < arrivals.len() && addressed_to(session, arrivals[i].header)
                        && arrivals[i].header.target == k;
                if i < n {
                    assert(prefix[i] == arrivals[i]);
                }
            }
        }
        assert forall|i: int|
            #![trigger last_for_its_device(session, arrivals, i)]
            last_for_its_device(session, arrivals, i) implies m2[arrivals[i].header.target].address
                == arrivals[i].from by {
            if i < n {
                assert(prefix[i] == arrivals[i]);
                assert forall|j: int| i < j < prefix.len() implies !(addressed_to(
                    session,
                    prefix[j].header,
                ) && prefix[j].header.target == prefix[i].header.target) by {
                    assert(prefix[j] == arrivals[j]);
                }
                assert(last_for_its_device(session, prefix, i));
                assert(!(addressed_to(session, arrivals[n].header) && arrivals[n].header.target
                    == arrivals[i].header.target));
            }
        }
    }
}

/// The discovery request is a well-framed message that carries the session
/// it was made for and is addressed to every device (target zero).
pub proof fn lemma_request_tagged(session: u32)
    ensures
        well_framed(get_service_bytes(session)),
        header_session(get_service_bytes(session)) == session,
        header_target(get_service_bytes(session)) == 0,
{
    let b = get_service_bytes(session);
    assert(b.len() == 36);
    reveal_with_fuel(le, 9);
    let x = session as int;
    assert(b[4] == x % 256 && b[5] == (x / 256) % 256 && b[6] == (x / 65536) % 256 && b[7] == x
        / 16777216);
    assert forall|i: int| 8 <= i < 16 implies b[i] == 0 by {}
    assert(le(b, 4, 4) == x) by (nonlinear_arith)
        requires
            le(b, 4, 4) == b[4] + 256 * (b[5] + 256 * (b[6] + 256 * b[7])),
            b[4] == x % 256,
            b[5] == (x / 256) % 256,
            b[6] == (x / 65536) % 256,
            b[7] == x / 16777216,
            0 <= x < 0x1_0000_0000,
    ;
}

} // verus!

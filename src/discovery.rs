//! The decisions of a discovery run.
//!
//! A run sends one probe, first to the limited broadcast address and, if
//! that send fails, once to the multicast group. It then reads replies until
//! the time window closes; each reply that describes a device is kept in the
//! run's list, duplicates included, and stored in the registry. The sockets
//! and the clock belong to the caller.

use vstd::prelude::*;
use crate::device::GoveeDevice;
use crate::json::{str_spec, JsonValue};
use crate::parse::{parse_device_response, response_spec};
use crate::registry::{views, GoveeState};

verus! {

/// Where the probe is sent.
#[derive(Debug, Clone, Copy, PartialEq, Eq, Structural)]
pub enum ProbeTarget {
    /// `255.255.255.255` on the discovery port.
    Broadcast,
    /// The multicast group on the discovery port.
    Multicast,
}

/// What to do next while sending the probe.
#[derive(Debug, Clone, Copy, PartialEq, Eq, Structural)]
pub enum SendStep {
    /// Send the probe to this target.
    Send(ProbeTarget),
    /// The probe went out to this target; start listening.
    Sent(ProbeTarget),
    /// Neither target took the probe; the run fails.
    Failed,
}

/// The first step of a run: try the broadcast address.
pub fn first_send_step() -> (r: SendStep)
    ensures
        r == SendStep::Send(ProbeTarget::Broadcast),
{
    SendStep::Send(ProbeTarget::Broadcast)
}

/// The step after sending to `target`, which succeeded when `sent` holds. A
/// failed broadcast falls back once to multicast; a failed multicast ends
/// the run.
pub fn next_send_step(target: ProbeTarget, sent: bool) -> (r: SendStep)
    ensures
        sent ==> r == SendStep::Sent(target),
        !sent && target == ProbeTarget::Broadcast ==> r == SendStep::Send(ProbeTarget::Multicast),
        !sent && target == ProbeTarget::Multicast ==> r == SendStep::Failed,
{
    if sent {
        SendStep::Sent(target)
    } else {
        match target {
            ProbeTarget::Broadcast => SendStep::Send(ProbeTarget::Multicast),
            ProbeTarget::Multicast => SendStep::Failed,
        }
    }
}

/// An object with the single member `key` whose value satisfies `p`.
pub open spec fn single_member(v: JsonValue, key: Seq<char>, p: spec_fn(JsonValue) -> bool) -> bool {
    match v {
        JsonValue::Object(m) => m@.len() == 1 && m@[0].0@ == key && p(m@[0].1),
        _ => false,
    }
}

/// The probe `{"msg": {"cmd": "scan", "data": {"account_topic": "reserve"}}}`.
pub open spec fn is_probe(v: JsonValue) -> bool {
    single_member(
        v,
        "msg"@,
        |msg: JsonValue|
            match msg {
                JsonValue::Object(m) => {
                    &&& m@.len() == 2
                    &&& m@[0].0@ == "cmd"@
                    &&& str_spec(Some(m@[0].1)) == Some("scan"@)
                    &&& m@[1].0@ == "data"@
                    &&& single_member(
                        m@[1].1,
                        "account_topic"@,
                        |t: JsonValue| str_spec(Some(t)) == Some("reserve"@),
                    )
                },
                _ => false,
            },
    )
}

/// The probe that asks every light on the network to announce itself.
pub fn discovery_probe() -> (r: JsonValue)
    ensures
        is_probe(r),
{
    let topic = JsonValue::String("reserve".to_owned());
    let data = JsonValue::Object(vec![("account_topic".to_owned(), topic)]);
    let msg = JsonValue::Object(
        vec![("cmd".to_owned(), JsonValue::String("scan".to_owned())), ("data".to_owned(), data)],
    );
    JsonValue::Object(vec![("msg".to_owned(), msg)])
}

/// Whether the window is still open after `elapsed_ms` of a `timeout_ms`
/// window.
pub fn window_open(elapsed_ms: u128, timeout_ms: u32) -> (r: bool)
    ensures
        r == (elapsed_ms < timeout_ms as u128),
{
    elapsed_ms < timeout_ms as u128
}

/// Handles one datagram received from `src_ip`: `response` is its JSON
/// document, or `None` when it held no JSON. A reply that describes a
/// device appends it to `found` and stores it in `registry`; the result
/// tells whether that happened. Anything else changes nothing.
pub fn record_response(
    found: &mut Vec<GoveeDevice>,
    registry: &mut GoveeState,
    response: Option<&JsonValue>,
    src_ip: &str,
) -> (r: bool)
    requires
        old(registry).wf(),
    ensures
        final(registry).wf(),
        match response {
            Some(v) => match response_spec(*v, src_ip@) {
                Some(d) => {
                    &&& r
                    &&& views(final(found)@) == views(old(found)@).push(d)
                    &&& final(registry)@ == old(registry)@.insert(d.id, d)
                },
                None => !r && final(found)@ == old(found)@ && final(registry)@ == old(registry)@,
            },
            None => !r && final(found)@ == old(found)@ && final(registry)@ == old(registry)@,
        },
{
    let v = match response {
        Some(v) => v,
        None => {
            return false;
        },
    };
    match parse_device_response(v, src_ip) {
        Some(device) => {
            let kept = device.clone();
            found.push(kept);
            registry.insert(device);
            proof {
                assert(views(final(found)@) =~= views(old(found)@).push(device@));
            }
            true
        },
        None => false,
    }
}

} // verus!

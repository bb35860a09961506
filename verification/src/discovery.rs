//! The discovery announcement and the rule that gates it.

use vstd::prelude::*;
use crate::protocol::HEADER_DISCOVERY;

verus! {

/// The announcement: header, then the stream port and the pointer port, each
/// as two bytes, low byte first.
pub open spec fn discovery_datagram(tcp_port: u16, udp_port: u16) -> Seq<u8> {
    seq![
        HEADER_DISCOVERY,
        (tcp_port % 256) as u8,
        (tcp_port / 256) as u8,
        (udp_port % 256) as u8,
        (udp_port / 256) as u8,
    ]
}

/// Builds the announcement of two ports.
pub fn discovery_payload(tcp_port: u16, udp_port: u16) -> (payload: [u8; 5])
    ensures
        payload@ == discovery_datagram(tcp_port, udp_port),
{
    let payload: [u8; 5] = [
        HEADER_DISCOVERY,
        (tcp_port % 256) as u8,
        (tcp_port / 256) as u8,
        (udp_port % 256) as u8,
        (udp_port / 256) as u8,
    ];
    assert(payload@ =~= discovery_datagram(tcp_port, udp_port));
    payload
}

/// What one tick of the announcer sends: the announcement while no client is
/// active, nothing while any is. The answer depends on the current count
/// alone, so announcing resumes with the first tick after the count is back
/// at zero.
pub fn discovery_tick(active_clients: usize, tcp_port: u16, udp_port: u16) -> (datagram: Option<
    [u8; 5],
>)
    ensures
        datagram is Some <==> active_clients == 0,
        datagram matches Some(payload) ==> payload@ == discovery_datagram(tcp_port, udp_port),
{
    if active_clients == 0 {
        Some(discovery_payload(tcp_port, udp_port))
    } else {
        None
    }
}

} // verus!

//! The wire boundary: encoding outbound commands to OSC datagrams and
//! decoding inbound datagrams, through the rosc codec.

use vstd::prelude::*;
use crate::command::{OscArg, OscCommand, CommandV};
use crate::inbound::{
    event_of_packet, event_result_view, interpret_packet, packet_view, DecodeError, InboundEvent,
    RawArg, RawMessage, RawPacket, RawPacketV,
};

verus! {

/// The OSC 1.0 binary encoding of one message: a function of its address
/// and arguments alone.
pub uninterp spec fn osc_encoding(c: CommandV) -> Seq<u8>;

/// What the OSC decoder yields for one datagram, as far as this library
/// reads it: `None` for a malformed datagram, otherwise a bundle or a
/// message whose integer arguments are kept and whose arguments of any
/// other type are marked. A function of the datagram bytes alone.
pub uninterp spec fn osc_decoding(bytes: Seq<u8>) -> Option<RawPacketV>;

/// Relies on rosc::encoder::encode: the encoding of a message is a function
/// of its address and arguments alone, and encoding into a Vec cannot fail
/// (the Output implementation for Vec<u8> has the error type Infallible and
/// encode returns Ok unconditionally), so the unwrap never panics.
#[verifier::external_body]
fn encode_command(cmd: &OscCommand) -> (r: Vec<u8>)
    ensures
        r@ == osc_encoding(cmd@),
{
    let args = cmd.args.iter().map(|a| match a {
        OscArg::Int(i) => rosc::OscType::Int(*i),
        OscArg::Str(s) => rosc::OscType::String(s.clone()),
    }).collect();
    let packet = rosc::OscPacket::Message(rosc::OscMessage { addr: cmd.addr.clone(), args });
    rosc::encoder::encode(&packet).unwrap()
}

/// Relies on rosc::decoder::decode_udp: the decoded packet is a function of
/// the datagram bytes alone, and an Err marks a datagram that is not a
/// well-formed OSC packet. OscType::int keeps a 32-bit integer argument and
/// returns None for every other argument type.
#[verifier::external_body]
fn decode_command(buf: &[u8]) -> (r: Option<RawPacket>)
    ensures
        (match r {
            Option::Some(p) => osc_decoding(buf@) == Option::Some(p@),
            Option::None => osc_decoding(buf@) is None,
        }),
{
    match rosc::decoder::decode_udp(buf) {
        Ok((_, rosc::OscPacket::Message(m))) => Some(RawPacket::Message(RawMessage {
            addr: m.addr,
            args: m.args.into_iter().map(|a| match a.int() {
                Some(i) => RawArg::Int(i),
                None => RawArg::Other,
            }).collect(),
        })),
        Ok((_, rosc::OscPacket::Bundle(_))) => Some(RawPacket::Bundle),
        Err(_) => None,
    }
}

/// Encodes one outbound command as the single OSC datagram to send.
pub fn command_datagram(cmd: &OscCommand) -> (r: Vec<u8>)
    ensures
        r@ == osc_encoding(cmd@),
{
    encode_command(cmd)
}

/// Decodes one inbound datagram and interprets it as an input event:
/// exactly what [`event_of_packet`] states of the decoded packet.
pub fn decode_datagram(buf: &[u8]) -> (r: Result<InboundEvent, DecodeError>)
    ensures
        event_result_view(r) == event_of_packet(osc_decoding(buf@)),
{
    let p = decode_command(buf);
    proof {
        assert(packet_view(p) == osc_decoding(buf@));
    }
    interpret_packet(p)
}

} // verus!

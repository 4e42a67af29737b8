//! Interpretation of decoded inbound packets as the device's input events:
//! a single message yields its address and integer arguments, a bundle is
//! not interpreted, and anything else is a decode error.

use vstd::prelude::*;

verus! {

/// One decoded message argument, as far as this library reads it: a 32-bit
/// integer, or an argument of any other OSC type.
#[derive(Clone, Copy, Debug, PartialEq, Eq, Structural)]
pub enum RawArg {
    Int(i32),
    Other,
}

/// A decoded single message: its address and raw arguments, in order.
#[derive(Clone, Debug, PartialEq)]
pub struct RawMessage {
    pub addr: String,
    pub args: Vec<RawArg>,
}

/// A decoded OSC packet: one message, or a bundle (a timestamped group of
/// packets, which this library does not interpret).
#[derive(Clone, Debug, PartialEq)]
pub enum RawPacket {
    Message(RawMessage),
    Bundle,
}

/// Mathematical model of a decoded packet.
#[verifier::ext_equal]
pub enum RawPacketV {
    Message(Seq<char>, Seq<RawArg>),
    Bundle,
}

impl View for RawPacket {
    type V = RawPacketV;

    open spec fn view(&self) -> RawPacketV {
        match self {
            RawPacket::Message(m) => RawPacketV::Message(m.addr@, m.args@),
            RawPacket::Bundle => RawPacketV::Bundle,
        }
    }
}

/// Why an inbound datagram was rejected.
#[derive(Clone, Copy, Debug, PartialEq, Eq, Structural)]
pub enum DecodeError {
    /// The datagram is not a well-formed OSC packet.
    Malformed,
    /// A message argument is not a 32-bit integer.
    NonIntegerArgument,
}

/// An inbound input event: the OSC address and its integer arguments.
#[derive(Clone, Debug, PartialEq)]
pub struct InboundEvent {
    pub addr: String,
    pub args: Vec<i32>,
}

/// Mathematical model of an inbound event.
#[verifier::ext_equal]
pub struct EventV {
    pub addr: Seq<char>,
    pub args: Seq<i32>,
}

impl View for InboundEvent {
    type V = EventV;

    open spec fn view(&self) -> EventV {
        EventV { addr: self.addr@, args: self.args@ }
    }
}

/// Whether every argument of a decoded message is a 32-bit integer.
pub open spec fn all_ints(args: Seq<RawArg>) -> bool {
    forall|j: int| 0 <= j < args.len() ==> args[j] is Int
}

/// The integer carried by one decoded argument (0 for a non-integer, which
/// every caller rules out with [`all_ints`]).
pub open spec fn arg_int(a: RawArg) -> i32 {
    match a {
        RawArg::Int(i) => i,
        RawArg::Other => 0,
    }
}

/// The integers carried by a decoded argument list.
pub open spec fn ints_of(args: Seq<RawArg>) -> Seq<i32> {
    args.map_values(|a: RawArg| arg_int(a))
}

/// What interpreting one decoded packet yields: `None` (a malformed
/// datagram) is a decode error; a bundle yields the empty event; a message
/// yields its address and integers, or an error on any non-integer argument.
pub open spec fn event_of_packet(p: Option<RawPacketV>) -> Result<EventV, DecodeError> {
    match p {
        Option::None => Result::Err(DecodeError::Malformed),
        Option::Some(RawPacketV::Bundle) => Result::Ok(
            EventV { addr: Seq::empty(), args: Seq::empty() },
        ),
        Option::Some(RawPacketV::Message(addr, args)) => if all_ints(args) {
            Result::Ok(EventV { addr, args: ints_of(args) })
        } else {
            Result::Err(DecodeError::NonIntegerArgument)
        },
    }
}

/// The model of an optional decoded packet.
pub open spec fn packet_view(p: Option<RawPacket>) -> Option<RawPacketV> {
    match p {
        Option::Some(q) => Option::Some(q@),
        Option::None => Option::None,
    }
}

/// The model of an interpretation result.
pub open spec fn event_result_view(r: Result<InboundEvent, DecodeError>) -> Result<
    EventV,
    DecodeError,
> {
    match r {
        Result::Ok(e) => Result::Ok(e@),
        Result::Err(x) => Result::Err(x),
    }
}

/// Interprets one decoded packet as an input event, exactly as
/// [`event_of_packet`] states.
pub fn interpret_packet(p: Option<RawPacket>) -> (r: Result<InboundEvent, DecodeError>)
    ensures
        event_result_view(r) == event_of_packet(packet_view(p)),
{
    match &p {
        Option::None => Result::Err(DecodeError::Malformed),
        Option::Some(RawPacket::Bundle) => Result::Ok(
            InboundEvent { addr: String::new(), args: Vec::new() },
        ),
        Option::Some(RawPacket::Message(m)) => {
            let mut ints: Vec<i32> = Vec::new();
            let mut k: usize = 0;
            while k < m.args.len()
                invariant
                    packet_view(p) == Option::Some(RawPacketV::Message(m.addr@, m.args@)),
                    k <= m.args.len(),
                    ints@.len() == k,
                    forall|j: int| 0 <= j < k ==> m.args@[j] is Int,
                    forall|j: int| 0 <= j < k ==> ints@[j] == arg_int(m.args@[j]),
                decreases m.args.len() - k,
            {
                match m.args[k] {
                    RawArg::Int(i) => ints.push(i),
                    RawArg::Other => {
                        proof {
                            assert(m.args@[k as int] is Other);
                            assert(!all_ints(m.args@));
                            assert(packet_view(p) == Option::Some(
                                RawPacketV::Message(m.addr@, m.args@),
                            ));
                        }
                        return Result::Err(DecodeError::NonIntegerArgument);
                    },
                }
                k += 1;
            }
            proof {
                assert(all_ints(m.args@));
                assert(ints@ =~= ints_of(m.args@));
            }
            Result::Ok(InboundEvent { addr: m.addr.clone(), args: ints })
        },
    }
}

/// Round trip at the message level: a decoded message that carries exactly
/// the integer arguments of an outbound command interprets back to that
/// command's address and those integers, in order.
pub proof fn lemma_integer_message_interprets_back(addr: Seq<char>, args: Seq<i32>)
    ensures
        event_of_packet(
            Option::Some(RawPacketV::Message(addr, args.map_values(|i: i32| RawArg::Int(i)))),
        ) == Result::<EventV, DecodeError>::Ok((EventV { addr, args })),
{
    let raw = args.map_values(|i: i32| RawArg::Int(i));
    assert forall|j: int| 0 <= j < raw.len() implies raw[j] is Int by {
        assert(raw[j] == RawArg::Int(args[j]));
    }
    assert(all_ints(raw));
    assert(ints_of(raw) =~= args);
}

} // verus!

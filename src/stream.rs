//! The decisions of the loop that forwards streamed fragments to a caller.
use vstd::prelude::*;
use crate::chat::ChatCompletionDelta;

verus! {

/// What the forwarding loop observed last.
pub enum PumpEvent {
    /// The transport opened the stream.
    Opened,
    /// A data event whose payload decoded to a fragment.
    Fragment(ChatCompletionDelta),
    /// A data event whose payload is not a well-formed fragment.
    Undecodable,
    /// The transport reported an error.
    TransportFailed,
    /// The transport has no more events.
    Exhausted,
    /// The fragment could not be handed over: the receiving side is gone.
    ReceiverGone,
}

/// Why the forwarding loop stopped.
#[derive(Debug, Clone, Copy, PartialEq, Eq, Structural)]
pub enum StreamEnd {
    Finished,
    DecodeFailed,
    TransportFailed,
    ReceiverGone,
}

/// What the forwarding loop does next.
pub enum PumpAction {
    /// Pull the next event from the transport.
    Pull,
    /// Hand this fragment to the receiving side, then pull again.
    Forward(ChatCompletionDelta),
    /// Stop and close the channel.
    Stop(StreamEnd),
}

/// The loop's answer to one observation: decoded fragments are forwarded,
/// other events are passed over, and every failure or the end of the
/// transport stops the loop with its reason.
pub fn pump_step(event: PumpEvent) -> (r: PumpAction)
    ensures
        match event {
            PumpEvent::Opened => r is Pull,
            PumpEvent::Fragment(f) => r == PumpAction::Forward(f),
            PumpEvent::Undecodable => r == PumpAction::Stop(StreamEnd::DecodeFailed),
            PumpEvent::TransportFailed => r == PumpAction::Stop(StreamEnd::TransportFailed),
            PumpEvent::Exhausted => r == PumpAction::Stop(StreamEnd::Finished),
            PumpEvent::ReceiverGone => r == PumpAction::Stop(StreamEnd::ReceiverGone),
        },
{
    match event {
        PumpEvent::Opened => PumpAction::Pull,
        PumpEvent::Fragment(f) => PumpAction::Forward(f),
        PumpEvent::Undecodable => PumpAction::Stop(StreamEnd::DecodeFailed),
        PumpEvent::TransportFailed => PumpAction::Stop(StreamEnd::TransportFailed),
        PumpEvent::Exhausted => PumpAction::Stop(StreamEnd::Finished),
        PumpEvent::ReceiverGone => PumpAction::Stop(StreamEnd::ReceiverGone),
    }
}

} // verus!

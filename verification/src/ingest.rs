//! The resilient ingestion loop's decisions.
//!
//! The loop itself blocks on a socket and owns a storage handle, which the
//! unverified shell does. Every decision the loop takes — what one received
//! event amounts to, and that no outcome whatsoever stops the loop — is a
//! verified function here. The shell performs each action and hands the
//! result back; the contracts say the loop returns to listening regardless.
use vstd::prelude::*;

verus! {

use crate::normalize::{normalize, normalize_model};
use crate::packet::{decode, decode_model, err_data, DecodeError, ErrData, Packet, PacketData};
use crate::weather::Weather;

/// What one blocking receive produced: a datagram, or the transport's own
/// failure.
pub enum TransportEvent {
    Datagram(Vec<u8>),
    RecvFailure(String),
}

/// The loop's two states: waiting for a datagram, or handling one.
#[derive(Clone, Copy, Debug, PartialEq, Eq, Structural)]
pub enum LoopPhase {
    Listening,
    Processing,
}

/// A storage failure as the sink reports it; never fatal to the loop.
#[derive(Debug, Clone)]
pub struct StorageError {
    pub detail: String,
}

/// Everything one iteration can amount to. There is no fatal case: every
/// variant is reported or stored and the loop listens again.
#[derive(Debug)]
pub enum IterationOutcome {
    /// The receive call itself failed; nothing was decoded.
    TransportFault { detail: String },
    /// The datagram was unparseable or malformed; the error keeps the
    /// detail for reporting.
    Rejected { error: DecodeError },
    /// A decoded message that yields no record: decoded for visibility,
    /// not stored.
    Ignored { packet: Packet },
    /// A full observation: the record is to be forwarded to storage.
    Record { packet: Packet, record: Weather },
}

/// Handle one received event: decode, normalize, and say what to do, never
/// failing. The outcome is exactly what the decode and normalize models say
/// of the datagram's bytes.
pub fn run_iteration(event: TransportEvent) -> (o: IterationOutcome)
    ensures
        event matches TransportEvent::RecvFailure(d) ==> o matches
            IterationOutcome::TransportFault { detail } && detail@ == d@,
        event matches TransportEvent::Datagram(b) ==> match o {
            IterationOutcome::TransportFault { .. } => false,
            IterationOutcome::Rejected { error } => decode_model(b@) == Err::<PacketData, ErrData>(
                err_data(error),
            ),
            IterationOutcome::Ignored { packet } => decode_model(b@) == Ok::<PacketData, ErrData>(
                packet@,
            ) && normalize_model(packet@) is None,
            IterationOutcome::Record { packet, record } => decode_model(b@) == Ok::<
                PacketData,
                ErrData,
            >(packet@) && normalize_model(packet@) == Some(record),
        },
{
    match event {
        TransportEvent::RecvFailure(detail) => IterationOutcome::TransportFault { detail },
        TransportEvent::Datagram(bytes) => match decode(bytes.as_slice()) {
            Err(error) => IterationOutcome::Rejected { error },
            Ok(packet) => match normalize(&packet) {
                Some(record) => IterationOutcome::Record { packet, record },
                None => IterationOutcome::Ignored { packet },
            },
        },
    }
}

/// Arrival of a datagram or of a transport failure moves the loop into its
/// processing state.
pub fn phase_on_event(e: &TransportEvent) -> (q: LoopPhase)
    ensures
        q is Processing,
{
    LoopPhase::Processing
}

/// Processing returns to listening unconditionally: no outcome — bad bytes,
/// a malformed message, a transport fault — ends the loop.
pub fn phase_after_outcome(o: &IterationOutcome) -> (q: LoopPhase)
    ensures
        q is Listening,
{
    LoopPhase::Listening
}

/// A storage failure is non-fatal: whatever the sink reported for a
/// forwarded record, the loop listens again.
pub fn phase_after_storage(r: &Result<(), StorageError>) -> (q: LoopPhase)
    ensures
        q is Listening,
{
    LoopPhase::Listening
}

} // verus!

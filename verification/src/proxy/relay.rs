//! The life of one relayed connection.
//!
//! A connection starts by dialling the next hop, then runs its two flow
//! directions side by side, and is torn down as a whole once both have
//! finished or either has failed. The program around the library does the
//! dialling, reading and writing, and reports each outcome as an event;
//! what follows from an event is decided here.

use super::ChannelType;
use vstd::prelude::*;

verus! {

/// Where a connection stands.
#[derive(Debug, Clone, Copy, PartialEq, Eq, Structural)]
pub enum RelayState {
    /// Accepted, and dialling the next hop.
    Connecting,
    /// Both sockets are there; a direction is done once it has sent or
    /// received its last, empty chunk.
    Relaying { receiving_done: bool, sending_done: bool },
    /// The sockets are being shut down.
    Closing,
    /// The sockets are released. Nothing happens any more.
    Closed,
}

/// What the program reports.
#[derive(Debug, Clone, Copy, PartialEq, Eq, Structural)]
pub enum RelayEvent {
    /// The next hop answered.
    Dialed,
    /// The next hop could not be reached.
    DialFailed,
    /// A direction has ended in order.
    Finished(ChannelType),
    /// A direction has met an error of any kind.
    Failed(ChannelType),
    /// Both sockets are released.
    Released,
}

/// What the program has to do next.
#[derive(Debug, Clone, Copy, PartialEq, Eq, Structural)]
pub enum RelayAction {
    /// Go on as before.
    Wait,
    /// Start both flow directions.
    Relay,
    /// Stop both directions, shut both write halves down and release the
    /// sockets.
    Teardown,
}

/// A state that a connection can be in: while it relays, at least one
/// direction is still open.
pub open spec fn is_valid(state: RelayState) -> bool {
    match state {
        RelayState::Relaying { receiving_done, sending_done } => !(receiving_done && sending_done),
        _ => true,
    }
}

/// Whether a direction has ended for good in a state.
pub open spec fn is_done(state: RelayState, channel: ChannelType) -> bool {
    match state {
        RelayState::Connecting => false,
        RelayState::Relaying { receiving_done, sending_done } => match channel {
            ChannelType::Receiving => receiving_done,
            ChannelType::Sending => sending_done,
        },
        RelayState::Closing | RelayState::Closed => true,
    }
}

/// The state after an event, and the action it calls for. An event that
/// has no meaning in a state changes nothing.
pub open spec fn next_of(state: RelayState, event: RelayEvent) -> (RelayState, RelayAction) {
    match (state, event) {
        (RelayState::Connecting, RelayEvent::Dialed) => (
            RelayState::Relaying { receiving_done: false, sending_done: false },
            RelayAction::Relay,
        ),
        (RelayState::Connecting, RelayEvent::DialFailed) => (
            RelayState::Closing,
            RelayAction::Teardown,
        ),
        (RelayState::Relaying { .. }, RelayEvent::Failed(_)) => (
            RelayState::Closing,
            RelayAction::Teardown,
        ),
        (RelayState::Relaying { receiving_done, sending_done }, RelayEvent::Finished(channel)) => {
            let receiving = receiving_done || channel == ChannelType::Receiving;
            let sending = sending_done || channel == ChannelType::Sending;
            if receiving && sending {
                (RelayState::Closing, RelayAction::Teardown)
            } else {
                (
                    RelayState::Relaying { receiving_done: receiving, sending_done: sending },
                    RelayAction::Wait,
                )
            }
        },
        (RelayState::Closing, RelayEvent::Released) => (RelayState::Closed, RelayAction::Wait),
        _ => (state, RelayAction::Wait),
    }
}

/// Takes a connection from one state to the next on an event.
pub fn relay_step(state: RelayState, event: RelayEvent) -> (r: (RelayState, RelayAction))
    ensures
        r == next_of(state, event),
        is_valid(state) ==> is_valid(r.0),
{
    match state {
        RelayState::Connecting => match event {
            RelayEvent::Dialed => (
                RelayState::Relaying { receiving_done: false, sending_done: false },
                RelayAction::Relay,
            ),
            RelayEvent::DialFailed => (RelayState::Closing, RelayAction::Teardown),
            _ => (state, RelayAction::Wait),
        },
        RelayState::Relaying { receiving_done, sending_done } => match event {
            RelayEvent::Failed(_) => (RelayState::Closing, RelayAction::Teardown),
            RelayEvent::Finished(channel) => {
                let receiving = receiving_done || channel == ChannelType::Receiving;
                let sending = sending_done || channel == ChannelType::Sending;
                if receiving && sending {
                    (RelayState::Closing, RelayAction::Teardown)
                } else {
                    (
                        RelayState::Relaying { receiving_done: receiving, sending_done: sending },
                        RelayAction::Wait,
                    )
                }
            },
            _ => (state, RelayAction::Wait),
        },
        RelayState::Closing => match event {
            RelayEvent::Released => (RelayState::Closed, RelayAction::Wait),
            _ => (state, RelayAction::Wait),
        },
        RelayState::Closed => (state, RelayAction::Wait),
    }
}

/// A released connection stays released, whatever is reported.
pub proof fn closed_is_final(event: RelayEvent)
    ensures
        next_of(RelayState::Closed, event) == (RelayState::Closed, RelayAction::Wait),
{
}

/// A direction that has ended never runs again: an event keeps every state
/// valid and every finished direction finished.
pub proof fn done_stays_done(state: RelayState, event: RelayEvent, channel: ChannelType)
    requires
        is_valid(state),
    ensures
        is_valid(next_of(state, event).0),
        is_done(state, channel) ==> is_done(next_of(state, event).0, channel),
{
}

/// While a connection relays, an error on either direction tears the whole
/// connection down at once, and the orderly end of both directions does so
/// too, in whichever order they end; the end of one alone does not.
pub proof fn teardown_when_both_end_or_either_fails(
    state: RelayState,
    first: ChannelType,
    second: ChannelType,
)
    requires
        state is Relaying,
        is_valid(state),
        first != second,
    ensures
        next_of(state, RelayEvent::Failed(first)) == (RelayState::Closing, RelayAction::Teardown),
        next_of(next_of(state, RelayEvent::Finished(first)).0, RelayEvent::Finished(second)).0
            == RelayState::Closing,
        !is_done(state, second) ==> next_of(state, RelayEvent::Finished(first)).1
            == RelayAction::Wait && next_of(state, RelayEvent::Finished(first)).0 is Relaying,
{
}

} // verus!

//! What the relay guarantees at every step, whatever state it is in.

use crate::bus::ReceivedView;
use crate::calls::ServerCallView;
use crate::event::{is_chatter, join_event, leave_event, message_event};
use crate::protocol::{decoded, FrameView};
use crate::relay::{Duty, ForwardedView, Phase, ReactionView, RelayView};
use crate::session::DeliveryView;
use vstd::prelude::*;

verus! {

/// An anonymous session is shown nothing of the chatter.
///
/// Whatever the relay holds, the forwarder of a session without a name is
/// handed no event and the session's count of deliveries stays; and all
/// that a frame can bring such a session is an error notice of the server,
/// which is no join, leave or message.
pub proof fn law_anonymous_hears_nothing<H>(relay: RelayView<H>, id: u128, frame: FrameView)
    requires
        relay.sessions.contains_key(id),
        !relay.sessions[id].is_named(),
    ensures
        !(relay.forwarded(id) is Deliver),
        relay.after_forward(id).sessions[id].delivered == relay.sessions[id].delivered,
        relay.reaction(id, frame) matches ReactionView::Rejected(d) ==> !is_chatter(d.event.event),
{
}

/// A named session is handed every event that it reads from the bus, its
/// own included, under sequence numbers that rise by one.
pub proof fn law_named_hears_all<H>(relay: RelayView<H>, id: u128)
    requires
        relay.sessions.contains_key(id),
        relay.sessions[id].is_named(),
    ensures
        relay.bus.poll(relay.sessions[id].cursor) matches ReceivedView::Event(event) ==> {
            &&& relay.forwarded(id) == ForwardedView::Deliver(
                DeliveryView { event, sequence: relay.sessions[id].delivered },
            )
            &&& relay.after_forward(id).sessions[id].delivered == relay.sessions[id].delivered
                + 1
        },
{
}

/// Tearing down is done once.
///
/// After a connection was torn down, whichever duty asks for it again finds
/// nothing to cancel and no leave to publish, and the relay stays as it is;
/// the session is no longer found.
pub proof fn law_teardown_once<H>(relay: RelayView<H>, id: u128, again: Duty)
    ensures
        !relay.after_teardown(id).sessions.contains_key(id),
        relay.after_teardown(id).teardown(id, again) is None,
        relay.after_teardown(id).after_teardown(id) == relay.after_teardown(id),
{
}

/// A session's name is set once.
///
/// Whatever frame or call comes from whichever session, whichever
/// forwarder is served, and whichever other connection is accepted or torn
/// down, a session that has a name keeps that name.
pub proof fn law_name_is_kept<H>(
    relay: RelayView<H>,
    id: u128,
    other: u128,
    frame: FrameView,
    call: ServerCallView,
    outbound: H,
)
    requires
        relay.sessions.contains_key(id),
        relay.sessions[id].is_named(),
    ensures
        relay.after_frame(other, frame).sessions.contains_key(id),
        relay.after_frame(other, frame).sessions[id].name == relay.sessions[id].name,
        relay.after_call(other, call).sessions.contains_key(id),
        relay.after_call(other, call).sessions[id].name == relay.sessions[id].name,
        relay.after_forward(other).sessions.contains_key(id),
        relay.after_forward(other).sessions[id].name == relay.sessions[id].name,
        relay.connected(other, outbound).sessions.contains_key(id),
        relay.connected(other, outbound).sessions[id].name == relay.sessions[id].name,
        other != id ==> relay.after_teardown(other).sessions.contains_key(id)
            && relay.after_teardown(other).sessions[id].name == relay.sessions[id].name,
{
}

/// The first thing that a newcomer hears is its own join.
///
/// When an anonymous session sends its first text, it starts to read the
/// bus at the join that this text causes: nothing that was published
/// before reaches it, and its forwarder is handed that join next.
pub proof fn law_newcomer_hears_its_join_first<H>(relay: RelayView<H>, id: u128, frame: FrameView)
    requires
        relay.valid(),
        relay.sessions.contains_key(id),
        !relay.sessions[id].is_named(),
        decoded(frame) is Ok,
    ensures
        ({
            let name = decoded(frame)->Ok_0->0;
            let after = relay.after_frame(id, frame);
            &&& relay.reaction(id, frame) == ReactionView::Published(join_event(name))
            &&& after.sessions[id].name == Some(name)
            &&& after.sessions[id].cursor == relay.bus.published()
            &&& after.forwarded(id) == ForwardedView::Deliver(
                DeliveryView { event: join_event(name), sequence: relay.sessions[id].delivered },
            )
        }),
{
}

/// What a named session says reaches every named session, the speaker
/// included.
///
/// When a named session sends a text, a message with its name and that text
/// goes over the bus, and each named session that had read all there was is
/// handed this message next.
pub proof fn law_message_reaches_the_named<H>(
    relay: RelayView<H>,
    speaker: u128,
    listener: u128,
    frame: FrameView,
)
    requires
        relay.valid(),
        relay.sessions.contains_key(speaker),
        relay.sessions[speaker].is_named(),
        relay.sessions.contains_key(listener),
        relay.sessions[listener].is_named(),
        relay.sessions[listener].cursor == relay.bus.published(),
        decoded(frame) is Ok,
    ensures
        ({
            let said = message_event(relay.sessions[speaker].name->0, decoded(frame)->Ok_0->0);
            &&& relay.reaction(speaker, frame) == ReactionView::Published(said)
            &&& relay.after_frame(speaker, frame).forwarded(listener) == ForwardedView::Deliver(
                DeliveryView { event: said, sequence: relay.sessions[listener].delivered },
            )
        }),
{
}

/// The leave of a named session reaches those who stay.
///
/// When a named session is torn down, a leave with its name goes over the
/// bus, and each other named session that had read all there was is handed
/// this leave next.
pub proof fn law_leave_reaches_the_named<H>(
    relay: RelayView<H>,
    leaver: u128,
    listener: u128,
    trigger: Duty,
)
    requires
        relay.valid(),
        relay.sessions.contains_key(leaver),
        relay.sessions[leaver].is_named(),
        relay.sessions.contains_key(listener),
        relay.sessions[listener].is_named(),
        relay.sessions[listener].cursor == relay.bus.published(),
        listener != leaver,
    ensures
        ({
            let leave = leave_event(relay.sessions[leaver].name->0);
            &&& relay.teardown(leaver, trigger)->0.leave == Some(leave)
            &&& relay.after_teardown(leaver).forwarded(listener) == ForwardedView::Deliver(
                DeliveryView { event: leave, sequence: relay.sessions[listener].delivered },
            )
        }),
{
}

/// A connection only moves forward: from anonymous to named, and from
/// either to terminated, where it stays.
///
/// Whatever frame or call comes from whichever session, whichever
/// forwarder is served and whichever connection is torn down, the phase of
/// a connection does not go back; and only a frame or a call of its own
/// names a session, and only its own teardown ends it.
pub proof fn law_phases_only_advance<H>(
    relay: RelayView<H>,
    id: u128,
    other: u128,
    frame: FrameView,
    call: ServerCallView,
)
    ensures
        relay.after_frame(other, frame).phase(id).rank() >= relay.phase(id).rank(),
        relay.after_call(other, call).phase(id).rank() >= relay.phase(id).rank(),
        relay.after_forward(other).phase(id) == relay.phase(id),
        relay.after_teardown(other).phase(id).rank() >= relay.phase(id).rank(),
        relay.after_teardown(id).phase(id) == Phase::Terminated,
        other != id ==> {
            &&& relay.after_frame(other, frame).phase(id) == relay.phase(id)
            &&& relay.after_call(other, call).phase(id) == relay.phase(id)
            &&& relay.after_teardown(other).phase(id) == relay.phase(id)
        },
        relay.phase(id) == Phase::Terminated ==> {
            &&& relay.after_frame(other, frame).phase(id) == Phase::Terminated
            &&& relay.after_call(other, call).phase(id) == Phase::Terminated
            &&& relay.after_teardown(other).phase(id) == Phase::Terminated
        },
{
}

/// Every step keeps a valid relay valid.
pub proof fn law_steps_keep_validity<H>(
    relay: RelayView<H>,
    id: u128,
    frame: FrameView,
    call: ServerCallView,
    outbound: H,
)
    requires
        relay.valid(),
    ensures
        relay.connected(id, outbound).valid(),
        relay.after_frame(id, frame).valid(),
        relay.after_call(id, call).valid(),
        relay.after_forward(id).valid(),
        relay.after_teardown(id).valid(),
{
}

} // verus!

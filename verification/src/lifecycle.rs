//! The life of a connection, stated over whole histories: what a relay has
//! published for one session after any sequence of steps.

use crate::event::{BroadcastEventType, EventView};
use crate::calls::ServerCallView;
use crate::protocol::{decoded, FrameView};
use crate::relay::{Duty, RelayView};
use vstd::prelude::*;

verus! {

/// One step of a relay.
pub enum Step<H> {
    /// A connection is accepted under an identifier.
    Connect(u128, H),
    /// A frame arrives from a session.
    Frame(u128, FrameView),
    /// A call of the command protocol arrives from a session.
    Call(u128, ServerCallView),
    /// The forwarder of a session is served.
    Forward(u128),
    /// A duty of a connection has ended.
    Teardown(u128, Duty),
}

/// An event on the bus together with the session that caused it.
pub struct Publication {
    pub origin: u128,
    pub event: EventView,
}

impl<H> Step<H> {
    /// The relay after this step.
    pub open spec fn apply(self, relay: RelayView<H>) -> RelayView<H> {
        match self {
            Step::Connect(id, outbound) => relay.connected(id, outbound),
            Step::Frame(id, frame) => relay.after_frame(id, frame),
            Step::Call(id, call) => relay.after_call(id, call),
            Step::Forward(id) => relay.after_forward(id),
            Step::Teardown(id, _) => relay.after_teardown(id),
        }
    }

    /// What this step puts on the bus, if anything.
    pub open spec fn publishes(self, relay: RelayView<H>) -> Option<Publication> {
        match self {
            Step::Frame(id, frame) => if relay.sessions.contains_key(id) && decoded(frame) is Ok {
                Some(
                    Publication {
                        origin: id,
                        event: relay.sessions[id].said(decoded(frame)->Ok_0->0),
                    },
                )
            } else {
                None
            },
            Step::Call(id, call) => match relay.call_event(id, call) {
                Some(event) => Some(Publication { origin: id, event }),
                None => None,
            },
            Step::Teardown(id, _) => if relay.sessions.contains_key(id) {
                match relay.sessions[id].farewell() {
                    Some(leave) => Some(Publication { origin: id, event: leave }),
                    None => None,
                }
            } else {
                None
            },
            _ => None,
        }
    }

    /// Whether this step accepts a connection under `id`.
    pub open spec fn connects(self, id: u128) -> bool {
        self matches Step::Connect(i, _) && i == id
    }

    /// Whether this step tears the connection under `id` down.
    pub open spec fn tears_down(self, id: u128) -> bool {
        self matches Step::Teardown(i, _) && i == id
    }
}

/// The relay after `steps`, taken in order.
pub open spec fn run<H>(relay: RelayView<H>, steps: Seq<Step<H>>) -> RelayView<H>
    decreases steps.len(),
{
    if steps.len() == 0 {
        relay
    } else {
        steps.last().apply(run(relay, steps.drop_last()))
    }
}

/// What `steps` put on the bus, in order.
pub open spec fn published<H>(relay: RelayView<H>, steps: Seq<Step<H>>) -> Seq<Publication>
    decreases steps.len(),
{
    if steps.len() == 0 {
        Seq::empty()
    } else {
        let before = published(relay, steps.drop_last());
        match steps.last().publishes(run(relay, steps.drop_last())) {
            Some(p) => before.push(p),
            None => before,
        }
    }
}

/// How many events of `kind` in `log` the session `id` caused.
pub open spec fn count(log: Seq<Publication>, id: u128, kind: BroadcastEventType) -> nat
    decreases log.len(),
{
    if log.len() == 0 {
        0
    } else {
        let rest = count(log.drop_last(), id, kind);
        if log.last().origin == id && log.last().event.event == kind {
            rest + 1
        } else {
            rest
        }
    }
}

/// Whether one of `steps` tears the connection under `id` down.
pub open spec fn torn_down<H>(steps: Seq<Step<H>>, id: u128) -> bool {
    exists|i: int| 0 <= i < steps.len() && (#[trigger] steps[i]).tears_down(id)
}

/// Whether none of `steps` accepts a connection under `id`.
pub open spec fn never_reconnects<H>(steps: Seq<Step<H>>, id: u128) -> bool {
    forall|i: int| 0 <= i < steps.len() ==> !(#[trigger] steps[i]).connects(id)
}

/// What holds of a session `id` that was anonymous at the start, after
/// `steps` that never accept a connection under `id` again.
pub open spec fn life_so_far<H>(relay: RelayView<H>, steps: Seq<Step<H>>, id: u128) -> bool {
    let now = run(relay, steps);
    let log = published(relay, steps);
    let joins = count(log, id, BroadcastEventType::Join);
    let leaves = count(log, id, BroadcastEventType::Leave);
    let messages = count(log, id, BroadcastEventType::Message);
    &&& now.sessions.contains_key(id) <==> !torn_down(steps, id)
    &&& joins <= 1
    &&& messages > 0 ==> joins == 1
    &&& now.sessions.contains_key(id) ==> leaves == 0 && now.sessions[id].id == id && (joins == 1
        <==> now.sessions[id].is_named())
    &&& !now.sessions.contains_key(id) ==> leaves == joins
}

/// Appending one publication changes a count by one exactly when the
/// publication is of that session and that kind.
pub proof fn lemma_count_push(
    log: Seq<Publication>,
    p: Publication,
    id: u128,
    kind: BroadcastEventType,
)
    ensures
        count(log.push(p), id, kind) == count(log, id, kind) + (if p.origin == id && p.event.event
            == kind {
            1nat
        } else {
            0nat
        }),
{
    assert(log.push(p).drop_last() =~= log);
}

/// The life of a session, from its anonymous beginning, whatever happens
/// in the relay.
///
/// Take a relay in which the session `id` is registered and anonymous, and
/// any steps that do not accept a connection under `id` again. Then, of
/// what these steps put on the bus for `id`:
/// the session is registered exactly as long as no step tore it down;
/// there is at most one join, and none unless the session took a name;
/// there is no message without the one join, so the join comes first;
/// there is no leave while the session is registered;
/// and once it is torn down there is one leave if it had joined and none
/// if it was still anonymous.
pub proof fn law_session_life<H>(relay: RelayView<H>, steps: Seq<Step<H>>, id: u128)
    requires
        relay.sessions.contains_key(id),
        relay.sessions[id].id == id,
        !relay.sessions[id].is_named(),
        never_reconnects(steps, id),
    ensures
        life_so_far(relay, steps, id),
    decreases steps.len(),
{
    if steps.len() == 0 {
        assert(published(relay, steps) =~= Seq::<Publication>::empty());
    } else {
        let earlier = steps.drop_last();
        let last = steps.last();
        assert(never_reconnects(earlier, id)) by {
            assert forall|i: int| 0 <= i < earlier.len() implies !(#[trigger] earlier[i]).connects(
                id,
            ) by {
                assert(earlier[i] == steps[i]);
            }
        }
        law_session_life(relay, earlier, id);
        let before = run(relay, earlier);
        let log = published(relay, earlier);
        assert(!last.connects(id)) by {
            assert(steps[steps.len() - 1] == last);
        }
        assert(torn_down(steps, id) <==> torn_down(earlier, id) || last.tears_down(id)) by {
            if torn_down(earlier, id) {
                let i = choose|i: int|
                    0 <= i < earlier.len() && (#[trigger] earlier[i]).tears_down(id);
                assert(steps[i].tears_down(id));
            }
            if last.tears_down(id) {
                assert(steps[steps.len() - 1].tears_down(id));
            }
            if torn_down(steps, id) {
                let i = choose|i: int|
                    0 <= i < steps.len() && (#[trigger] steps[i]).tears_down(id);
                if i < earlier.len() {
                    assert(earlier[i].tears_down(id));
                }
            }
        }
        match last.publishes(before) {
            Some(p) => {
                lemma_count_push(log, p, id, BroadcastEventType::Join);
                lemma_count_push(log, p, id, BroadcastEventType::Leave);
                lemma_count_push(log, p, id, BroadcastEventType::Message);
            },
            None => {},
        }
    }
}

/// What a step publishes is what it puts on the bus.
///
/// A step that publishes an event leaves the bus as the publication of that
/// event leaves it, and any other step leaves the bus as it was: a step
/// never takes an event back, and no step holds the bus up.
pub proof fn law_steps_only_publish<H>(relay: RelayView<H>, step: Step<H>)
    ensures
        step.apply(relay).bus == match step.publishes(relay) {
            Some(p) => relay.bus.publish(p.event),
            None => relay.bus,
        },
{
}

/// The life of a connection from its acceptance.
///
/// Accept a connection under an identifier that is free, and let any steps
/// follow that do not accept a connection under it again. Then the session
/// is found exactly until a step tears it down, and what was published
/// for it is as [`law_session_life`] says.
pub proof fn law_connection_life<H>(
    relay: RelayView<H>,
    id: u128,
    outbound: H,
    steps: Seq<Step<H>>,
)
    requires
        !relay.sessions.contains_key(id),
        never_reconnects(steps, id),
    ensures
        relay.connected(id, outbound).sessions.contains_key(id),
        life_so_far(relay.connected(id, outbound), steps, id),
{
    law_session_life(relay.connected(id, outbound), steps, id);
}

} // verus!

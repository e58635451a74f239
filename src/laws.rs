use vstd::prelude::*;

use crate::framing::frame;
use crate::handler::{
    frames_from_others, is_delivery, run, transition, written, ActionView, EventView, Phase,
};
use crate::peer::PeerAddr;

verus! {

/// A line that one connection publishes is written out, framed, by every
/// other active connection that receives it, and never by the connection
/// that sent it.
pub proof fn lemma_fan_out_skips_sender(sender: PeerAddr, receiver: PeerAddr, chunk: Seq<u8>)
    requires
        transition(sender, Phase::Active, EventView::Read(chunk)).1 is Publish,
    ensures
        ({
            let published = transition(sender, Phase::Active, EventView::Read(chunk)).1;
            published matches ActionView::Publish { origin, content } && origin == sender
                && transition(receiver, Phase::Active, EventView::Received { origin, content })
                == (Phase::Active, if receiver == sender {
                ActionView::Nothing
            } else {
                ActionView::Write(frame(content))
            })
        }),
{
}

/// While only messages and lag reports reach an active connection, it stays
/// active, and what it writes is exactly the frames of the messages that
/// came from other connections, in the order it received them.
pub proof fn lemma_deliveries_relay_in_order(peer: PeerAddr, events: Seq<EventView>)
    requires
        forall|i: int| 0 <= i < events.len() ==> is_delivery(#[trigger] events[i]),
    ensures
        run(peer, Phase::Active, events).0 == Phase::Active,
        written(run(peer, Phase::Active, events).1) == frames_from_others(peer, events),
    decreases events.len(),
{
    if events.len() > 0 {
        let rest = events.drop_last();
        assert forall|i: int| 0 <= i < rest.len() implies is_delivery(#[trigger] rest[i]) by {
            assert(rest[i] == events[i]);
        }
        lemma_deliveries_relay_in_order(peer, rest);
        assert(is_delivery(events[events.len() - 1]));
        let acts = run(peer, Phase::Active, events).1;
        assert(acts.drop_last() =~= run(peer, Phase::Active, rest).1);
    }
}

/// A connection that has left `Active` neither publishes nor writes
/// anything more, whatever it observes, and stays where it is.
pub proof fn lemma_closed_connection_is_silent(peer: PeerAddr, phase: Phase, events: Seq<EventView>)
    requires
        phase != Phase::Active,
    ensures
        run(peer, phase, events).0 == phase,
        run(peer, phase, events).1.len() == events.len(),
        forall|i: int|
            0 <= i < events.len() ==> #[trigger] run(peer, phase, events).1[i] == ActionView::Nothing,
    decreases events.len(),
{
    if events.len() > 0 {
        lemma_closed_connection_is_silent(peer, phase, events.drop_last());
        let acts = run(peer, phase, events).1;
        assert forall|i: int| 0 <= i < events.len() implies #[trigger] acts[i] == ActionView::Nothing by {
            if i < events.len() - 1 {
                assert(acts[i] == run(peer, phase, events.drop_last()).1[i]);
            }
        }
    }
}

/// The frames from others seen in a shorter prefix of the events start the
/// frames seen in a longer one.
proof fn lemma_frames_prefix(peer: PeerAddr, events: Seq<EventView>, a: int, b: int)
    requires
        0 <= a <= b <= events.len(),
    ensures
        frames_from_others(peer, events.take(a)).len() <= frames_from_others(peer, events.take(b)).len(),
        forall|x: int|
            0 <= x < frames_from_others(peer, events.take(a)).len() ==> #[trigger] frames_from_others(
                peer,
                events.take(b),
            )[x] == frames_from_others(peer, events.take(a))[x],
    decreases b - a,
{
    if a < b {
        lemma_frames_prefix(peer, events, a, b - 1);
        assert(events.take(b).drop_last() =~= events.take(b - 1));
        assert(events.take(b).last() == events[b - 1]);
    }
}

/// Two messages that a connection receives from another one, the first
/// before the second, are written out by it in that same order.
pub proof fn lemma_same_order_for_receivers(
    peer: PeerAddr,
    events: Seq<EventView>,
    first: int,
    second: int,
)
    requires
        forall|i: int| 0 <= i < events.len() ==> is_delivery(#[trigger] events[i]),
        0 <= first < second < events.len(),
        events[first] matches EventView::Received { origin, .. } && origin != peer,
        events[second] matches EventView::Received { origin, .. } && origin != peer,
    ensures
        exists|p: int, q: int|
            0 <= p < q < written(run(peer, Phase::Active, events).1).len()
                && (events[first] matches EventView::Received { content, .. } && #[trigger] written(
                run(peer, Phase::Active, events).1,
            )[p] == frame(content)) && (events[second] matches EventView::Received { content, .. }
                && #[trigger] written(run(peer, Phase::Active, events).1)[q] == frame(content)),
{
    lemma_deliveries_relay_in_order(peer, events);
    let out = written(run(peer, Phase::Active, events).1);
    assert(events.take(events.len() as int) =~= events);
    let p = frames_from_others(peer, events.take(first)).len() as int;
    let q = frames_from_others(peer, events.take(second)).len() as int;
    assert(events.take(first + 1).drop_last() =~= events.take(first));
    assert(events.take(second + 1).drop_last() =~= events.take(second));
    assert(events.take(first + 1).last() == events[first]);
    assert(events.take(second + 1).last() == events[second]);
    lemma_frames_prefix(peer, events, first + 1, second);
    lemma_frames_prefix(peer, events, first + 1, events.len() as int);
    lemma_frames_prefix(peer, events, second + 1, events.len() as int);
    assert(out[p] == frames_from_others(peer, events.take(first + 1))[p]);
    assert(out[q] == frames_from_others(peer, events.take(second + 1))[q]);
    assert(p < q);
}

} // verus!

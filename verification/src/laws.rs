//! The laws of the bridge, stated and proved over its mathematical state.
//!
//! [`spec_feed_all`] is the producer side iterated: the bridge state after
//! the handler has processed a whole sequence of native events.
//! [`spec_drained`] is the consumer side iterated: the events a run of
//! polls returns. The lemmas relate the two: events come out in FIFO order
//! with nothing duplicated and nothing lost but the intentional drops, an
//! empty queue polls as "no event" indefinitely, the running flag falls
//! only at a close request, and the stored window handle is untouched by
//! event traffic.

use vstd::prelude::*;

use crate::bridge::BridgeView;
use crate::bridge::spec_poll_result;
use crate::bridge::spec_poll_state;
use crate::bridge::spec_step_state;
use crate::bridge::spec_window_handle;
use crate::events::NativeEvent;
use crate::events::WindowEvent;
use crate::handle::HandleKind;
use crate::translate::is_close_request;
use crate::translate::spec_translate;

verus! {

/// The bridge state after the handler has processed each event of `evs`,
/// in order.
pub open spec fn spec_feed_all(v: BridgeView, evs: Seq<NativeEvent>) -> BridgeView
    decreases evs.len(),
{
    if evs.len() == 0 {
        v
    } else {
        spec_feed_all(spec_step_state(v, evs[0]), evs.subrange(1, evs.len() as int))
    }
}

/// The portable events a running bridge enqueues for the native sequence
/// `evs`: each event's translation, in arrival order, up to and including
/// the first close request — which stops the bridge, so nothing after it is
/// ever enqueued.
pub open spec fn spec_delivered(evs: Seq<NativeEvent>) -> Seq<WindowEvent>
    decreases evs.len(),
{
    if evs.len() == 0 {
        Seq::<WindowEvent>::empty()
    } else {
        let head = match spec_translate(evs[0]) {
            Some(e) => seq![e],
            None => Seq::<WindowEvent>::empty(),
        };
        if is_close_request(evs[0]) {
            head
        } else {
            head + spec_delivered(evs.subrange(1, evs.len() as int))
        }
    }
}

/// The events that `n` successive polls return, in order. Polls past an
/// emptied queue return nothing and are not recorded.
pub open spec fn spec_drained(v: BridgeView, n: nat) -> Seq<WindowEvent>
    decreases n,
{
    if n == 0 {
        Seq::<WindowEvent>::empty()
    } else {
        match spec_poll_result(v) {
            Some(e) => seq![e] + spec_drained(spec_poll_state(v), (n - 1) as nat),
            None => Seq::<WindowEvent>::empty(),
        }
    }
}

/// A stopped bridge is inert: it discards every native event unchanged.
pub proof fn lemma_stopped_bridge_inert(v: BridgeView, evs: Seq<NativeEvent>)
    requires
        !v.running,
    ensures
        spec_feed_all(v, evs) == v,
    decreases evs.len(),
{
    if evs.len() > 0 {
        assert(spec_step_state(v, evs[0]) == v);
        lemma_stopped_bridge_inert(v, evs.subrange(1, evs.len() as int));
    }
}

/// FIFO enqueue order: a running bridge appends, behind whatever is already
/// queued, exactly the delivered translations of the native sequence, in
/// the same relative order — dropped mappings absent, nothing duplicated,
/// nothing enqueued past a close request.
pub proof fn lemma_fifo_enqueue(v: BridgeView, evs: Seq<NativeEvent>)
    requires
        v.running,
    ensures
        spec_feed_all(v, evs).queue == v.queue + spec_delivered(evs),
    decreases evs.len(),
{
    if evs.len() == 0 {
        assert(v.queue + spec_delivered(evs) =~= v.queue);
    } else {
        let v1 = spec_step_state(v, evs[0]);
        let rest = evs.subrange(1, evs.len() as int);
        let head = match spec_translate(evs[0]) {
            Some(e) => seq![e],
            None => Seq::<WindowEvent>::empty(),
        };
        assert(v1.queue =~= v.queue + head);
        if is_close_request(evs[0]) {
            lemma_stopped_bridge_inert(v1, rest);
        } else {
            lemma_fifo_enqueue(v1, rest);
            assert((v.queue + head) + spec_delivered(rest) =~= v.queue + (head + spec_delivered(
                rest,
            )));
        }
    }
}

/// FIFO drain order: polling returns the queued events from the front, in
/// queue order — the first `n` of them after `n` polls, and the whole queue
/// once `n` reaches its length.
pub proof fn lemma_fifo_drain(v: BridgeView, n: nat)
    ensures
        n <= v.queue.len() ==> spec_drained(v, n) == v.queue.take(n as int),
        n >= v.queue.len() ==> spec_drained(v, n) == v.queue,
    decreases n,
{
    if n == 0 {
        assert(v.queue.take(0) =~= Seq::<WindowEvent>::empty());
        if v.queue.len() == 0 {
            assert(spec_drained(v, n) =~= v.queue);
        }
    } else {
        if v.queue.len() == 0 {
            assert(spec_drained(v, n) =~= v.queue);
        } else {
            let v1 = spec_poll_state(v);
            lemma_fifo_drain(v1, (n - 1) as nat);
            if n <= v.queue.len() {
                assert(spec_drained(v, n) =~= v.queue.take(n as int));
            } else {
                assert(spec_drained(v, n) =~= v.queue);
            }
        }
    }
}

/// The delivered sequence is never longer than the native sequence: the
/// translator emits at most one portable event per native event.
pub proof fn lemma_delivered_len(evs: Seq<NativeEvent>)
    ensures
        spec_delivered(evs).len() <= evs.len(),
    decreases evs.len(),
{
    if evs.len() > 0 && !is_close_request(evs[0]) {
        lemma_delivered_len(evs.subrange(1, evs.len() as int));
    }
}

/// FIFO order end to end: feed a fresh running bridge any native sequence,
/// then poll at least as many times; out come exactly the delivered
/// translations, in the order the native loop produced them.
pub proof fn lemma_fifo_order(v: BridgeView, evs: Seq<NativeEvent>, n: nat)
    requires
        v.running,
        v.queue.len() == 0,
        n >= evs.len(),
    ensures
        spec_drained(spec_feed_all(v, evs), n) == spec_delivered(evs),
{
    lemma_fifo_enqueue(v, evs);
    lemma_delivered_len(evs);
    assert(spec_feed_all(v, evs).queue =~= spec_delivered(evs));
    lemma_fifo_drain(spec_feed_all(v, evs), n);
}

/// Idempotent drain: a bridge whose queue is empty answers every poll with
/// "no event" and is left exactly as it was, however often it is polled.
pub proof fn lemma_drain_idempotent(v: BridgeView, n: nat)
    requires
        v.queue.len() == 0,
    ensures
        spec_poll_result(v) is None,
        spec_poll_state(v) == v,
        spec_drained(v, n) == Seq::<WindowEvent>::empty(),
{
}

/// The running flag never flips spontaneously: after any event traffic it
/// is up exactly when it was up before and no close request was among the
/// events. (It falls at `stop`, at a close request, or at a creation
/// failure — the first two are below and in `spec_step_state`; the last is
/// the contract of `on_window_creation_failed`.)
pub proof fn lemma_running_until_reset(v: BridgeView, evs: Seq<NativeEvent>)
    ensures
        spec_feed_all(v, evs).running <==> (v.running && (forall|i: int|
            0 <= i < evs.len() ==> !is_close_request(#[trigger] evs[i]))),
    decreases evs.len(),
{
    if evs.len() > 0 {
        let v1 = spec_step_state(v, evs[0]);
        let rest = evs.subrange(1, evs.len() as int);
        lemma_running_until_reset(v1, rest);
        assert(v1.running == (v.running && !is_close_request(evs[0])));
        if v.running && (forall|i: int| 0 <= i < evs.len() ==> !is_close_request(
            #[trigger] evs[i],
        )) {
            assert(!is_close_request(evs[0]));
            assert forall|i: int| 0 <= i < rest.len() implies !is_close_request(
                #[trigger] rest[i],
            ) by {
                assert(rest[i] == evs[i + 1]);
            }
        }
        if spec_feed_all(v, evs).running {
            assert(v1.running && (forall|i: int| 0 <= i < rest.len() ==> !is_close_request(
                #[trigger] rest[i],
            )));
            assert forall|i: int| 0 <= i < evs.len() implies !is_close_request(
                #[trigger] evs[i],
            ) by {
                if i > 0 {
                    assert(evs[i] == rest[i - 1]);
                }
            }
        }
    }
}

/// Event traffic never touches the configuration or the window handle:
/// only the queue and the running flag move.
pub proof fn lemma_feed_frame(v: BridgeView, evs: Seq<NativeEvent>)
    ensures
        spec_feed_all(v, evs).title == v.title,
        spec_feed_all(v, evs).width == v.width,
        spec_feed_all(v, evs).height == v.height,
        spec_feed_all(v, evs).handle == v.handle,
    decreases evs.len(),
{
    if evs.len() > 0 {
        lemma_feed_frame(spec_step_state(v, evs[0]), evs.subrange(1, evs.len() as int));
    }
}

/// True of a handle kind the bridge supports whose numeric handle is
/// meaningful (nonzero): the two display systems the extraction knows.
pub open spec fn is_supported_nonzero(kind: HandleKind) -> bool {
    match kind {
        HandleKind::Xlib { window_id } => window_id != 0,
        HandleKind::Wayland { surface_addr } => surface_addr != 0,
        HandleKind::Unsupported => false,
    }
}

/// Handle availability ordering: while no window has been created every
/// handle query yields the zero sentinel, whatever event traffic happens;
/// once a supported handle with a meaningful id is stored, every later
/// query yields a nonzero value.
pub proof fn lemma_handle_availability(v: BridgeView, evs: Seq<NativeEvent>)
    ensures
        v.handle is None ==> spec_window_handle(spec_feed_all(v, evs)) == 0,
        (v.handle matches Some(kind) && is_supported_nonzero(kind)) ==> spec_window_handle(
            spec_feed_all(v, evs),
        ) != 0,
{
    lemma_feed_frame(v, evs);
}

} // verus!

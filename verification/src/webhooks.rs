//! Which registered webhook handlers a payload is delivered to.

use vstd::prelude::*;

verus! {

/// A handler registered for `handler_event` takes a payload whose event
/// type is `event_type`: the same name, or the wildcard `*`.
pub open spec fn handler_takes(handler_event: Seq<char>, event_type: Seq<char>) -> bool {
    handler_event == event_type || handler_event == "*"@
}

/// The event type of a payload: its `action`, or empty without one.
pub open spec fn event_type_of(action: Option<Seq<char>>) -> Seq<char> {
    match action {
        Some(a) => a,
        None => Seq::empty(),
    }
}

/// The positions of the handlers that take `event_type`, in registration
/// order.
pub open spec fn targets_spec(events: Seq<Seq<char>>, event_type: Seq<char>) -> Seq<int>
    decreases events.len(),
{
    if events.len() == 0 {
        Seq::empty()
    } else {
        let before = targets_spec(events.drop_last(), event_type);
        if handler_takes(events.last(), event_type) {
            before.push(events.len() - 1)
        } else {
            before
        }
    }
}

/// The events that webhook handlers were registered for, in registration
/// order; the handlers themselves stay with the caller, at the same
/// positions.
pub struct HandlerRegistry {
    pub events: Vec<String>,
}

pub open spec fn events_view(events: Seq<String>) -> Seq<Seq<char>> {
    events.map_values(|e: String| e@)
}

impl HandlerRegistry {
    /// A registry with no handlers.
    pub fn new() -> (r: Self)
        ensures
            r.events@.len() == 0,
    {
        HandlerRegistry { events: Vec::new() }
    }

    /// Registers a handler for `event`; it takes the next position.
    pub fn on(&mut self, event: String) -> (index: usize)
        ensures
            final(self).events@ == old(self).events@.push(event),
            index == old(self).events@.len(),
    {
        let index = self.events.len();
        self.events.push(event);
        index
    }

    /// The positions of the handlers that a payload with this `action` is
    /// delivered to, in registration order.
    pub fn targets(&self, action: Option<&str>) -> (r: Vec<usize>)
        ensures
            r@.map_values(|i: usize| i as int) == targets_spec(
                events_view(self.events@),
                event_type_of(
                    match action {
                        Some(a) => Some(a@),
                        None => None,
                    },
                ),
            ),
    {
        let event_type = match action {
            Some(a) => String::from_str(a),
            None => String::new(),
        };
        let wildcard = String::from_str("*");
        let ghost ev = events_view(self.events@);
        let mut r: Vec<usize> = Vec::new();
        let mut i: usize = 0;
        while i < self.events.len()
            invariant
                i <= self.events@.len(),
                ev == events_view(self.events@),
                wildcard@ == "*"@,
                r@.map_values(|i: usize| i as int) == targets_spec(ev.take(i as int), event_type@),
            decreases self.events@.len() - i,
        {
            let ghost before = r@;
            let takes = self.events[i] == event_type || self.events[i] == wildcard;
            if takes {
                r.push(i);
            }
            proof {
                assert(ev.take(i + 1).drop_last() =~= ev.take(i as int));
                assert(ev.take(i + 1).last() == self.events@[i as int]@);
                assert(takes == handler_takes(ev.take(i + 1).last(), event_type@));
                assert(targets_spec(ev.take(i + 1), event_type@) == if takes {
                    targets_spec(ev.take(i as int), event_type@).push(i as int)
                } else {
                    targets_spec(ev.take(i as int), event_type@)
                });
                if takes {
                    assert(r@.map_values(|i: usize| i as int) =~= before.map_values(|i: usize| i as int).push(i as int));
                }
            }
            i = i + 1;
        }
        assert(ev.take(i as int) =~= ev);
        r
    }
}

proof fn lemma_targets(events: Seq<Seq<char>>, event_type: Seq<char>)
    ensures
        forall|k: int| 0 <= k < targets_spec(events, event_type).len() ==> 0 <= #[trigger] targets_spec(events, event_type)[k] < events.len(),
        forall|j: int, k: int| 0 <= j < k < targets_spec(events, event_type).len() ==> #[trigger] targets_spec(events, event_type)[j] < #[trigger] targets_spec(events, event_type)[k],
        forall|i: int| 0 <= i < events.len() ==> (targets_spec(events, event_type).contains(i) <==> handler_takes(#[trigger] events[i], event_type)),
    decreases events.len(),
{
    if events.len() > 0 {
        let n = events.len() as int;
        let d = events.drop_last();
        lemma_targets(d, event_type);
        let t = targets_spec(d, event_type);
        let full = targets_spec(events, event_type);
        assert forall|i: int| 0 <= i < n implies (full.contains(i) <==> handler_takes(#[trigger] events[i], event_type)) by {
            if full.contains(i) {
                let k = choose|k: int| 0 <= k < full.len() && #[trigger] full[k] == i;
                if k < t.len() {
                    assert(full[k] == t[k]);
                    assert(i < n - 1);
                    assert(events[i] == d[i]);
                    assert(t.contains(i));
                } else {
                    assert(i == n - 1);
                }
            }
            if handler_takes(events[i], event_type) {
                if i < n - 1 {
                    assert(events[i] == d[i]);
                    assert(t.contains(i));
                    let k = choose|k: int| 0 <= k < t.len() && #[trigger] t[k] == i;
                    assert(full[k] == i);
                } else {
                    assert(full[t.len() as int] == i);
                }
            }
        }
    }
}

/// A payload reaches exactly the handlers registered for its event type or
/// for `*`, each once and in registration order.
pub proof fn law_delivery(events: Seq<Seq<char>>, action: Option<Seq<char>>)
    ensures
        forall|i: int|
            0 <= i < events.len() ==> (targets_spec(events, event_type_of(action)).contains(i)
                <==> handler_takes(#[trigger] events[i], event_type_of(action))),
        forall|j: int, k: int|
            0 <= j < k < targets_spec(events, event_type_of(action)).len() ==> #[trigger] targets_spec(events, event_type_of(action))[j]
                < #[trigger] targets_spec(events, event_type_of(action))[k],
        forall|k: int| 0 <= k < targets_spec(events, event_type_of(action)).len() ==> 0 <= #[trigger] targets_spec(events, event_type_of(action))[k] < events.len(),
{
    lemma_targets(events, event_type_of(action));
}

} // verus!

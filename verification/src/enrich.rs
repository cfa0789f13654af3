//! The enrichment stage: what the worker makes of each raw notification once
//! the external decoder and name resolver have spoken.
//!
//! The worker receives notifications from the handoff channel in arrival
//! order and, for each one, asks the decoder for a semantic event type,
//! consults the name resolver for key presses alone, timestamps the result
//! and hands it to the user callback. The decoder and the resolver are
//! platform services; the embedding application calls them and passes their
//! answers in as plain values, so everything decided here is verified.

use vstd::prelude::*;

use crate::event::{opt_name_view, Event, EventModel, EventType, Timestamp};

verus! {

/// True exactly when name resolution applies: only key presses ever carry a
/// symbolic name.
pub open spec fn wants_name(event_type: EventType) -> bool {
    event_type is KeyPress
}

/// Decides whether the worker should consult the layout-aware name resolver
/// for a decoded event.
pub fn resolution_applies(event_type: &EventType) -> (b: bool)
    ensures
        b == wants_name(*event_type),
{
    match event_type {
        EventType::KeyPress(_) => true,
        _ => false,
    }
}

/// What enrichment makes of one notification: nothing when the decoder
/// recognized nothing, otherwise the decoded action with the enrichment
/// timestamp, named only when it is a key press and the resolver answered.
pub open spec fn enriched(
    decoded: Option<EventType>,
    resolved: Option<Seq<char>>,
    time: Timestamp,
) -> Option<EventModel> {
    match decoded {
        None => None,
        Some(event_type) => Some(
            EventModel {
                event_type,
                time,
                name: if wants_name(event_type) {
                    resolved
                } else {
                    None
                },
            },
        ),
    }
}

/// The mathematical value of an optional event.
pub open spec fn opt_event_view(r: Option<Event>) -> Option<EventModel> {
    match r {
        Some(e) => Some(e@),
        None => None,
    }
}

/// Builds the finished event for one notification, from the decoder's
/// verdict, the resolver's answer and the enrichment timestamp.
///
/// An unrecognized payload yields no event at all, and only a key press
/// keeps the resolved name; any other event type is delivered nameless no
/// matter what the resolver said.
pub fn process_notification(
    decoded: Option<EventType>,
    resolved: Option<String>,
    time: Timestamp,
) -> (r: Option<Event>)
    ensures
        opt_event_view(r) == enriched(decoded, opt_name_view(resolved), time),
        r is Some <==> decoded is Some,
{
    match decoded {
        None => None,
        Some(event_type) => {
            let name = if resolution_applies(&event_type) {
                resolved
            } else {
                None
            };
            Some(Event { event_type, time, name })
        },
    }
}

/// Filtering law: a notification for which the decoder returns nothing
/// never produces an event, whatever the resolver said and whenever it was
/// received.
pub proof fn lemma_filtering(resolved: Option<Seq<char>>, time: Timestamp)
    ensures
        enriched(None, resolved, time) is None,
{
}

/// Name population law: a key press keeps exactly the resolver's answer —
/// if resolution returned a value, the event's name is that value — while
/// every other event type is delivered without a name, regardless of the
/// resolver's state.
pub proof fn lemma_name_population(
    event_type: EventType,
    resolved: Option<Seq<char>>,
    time: Timestamp,
)
    ensures
        wants_name(event_type) ==> enriched(Some(event_type), resolved, time).unwrap().name
            == resolved,
        !wants_name(event_type) ==> enriched(Some(event_type), resolved, time).unwrap().name
            is None,
        enriched(Some(event_type), resolved, time).unwrap().event_type == event_type,
        enriched(Some(event_type), resolved, time).unwrap().time == time,
{
}

/// One notification as the worker sees it after the external collaborators
/// have answered: the decoder's verdict, the resolver's answer, and the
/// timestamp taken at enrichment.
#[derive(Clone, Debug)]
pub struct WorkItem {
    pub decoded: Option<EventType>,
    pub resolved: Option<String>,
    pub time: Timestamp,
}

/// The mathematical value of a [`WorkItem`].
pub ghost struct WorkItemModel {
    pub decoded: Option<EventType>,
    pub resolved: Option<Seq<char>>,
    pub time: Timestamp,
}

impl View for WorkItem {
    type V = WorkItemModel;

    open spec fn view(&self) -> WorkItemModel {
        WorkItemModel {
            decoded: self.decoded,
            resolved: opt_name_view(self.resolved),
            time: self.time,
        }
    }
}

/// The event of one item, as the (possibly empty) stretch of output it
/// contributes.
pub open spec fn emitted(w: WorkItemModel) -> Seq<EventModel> {
    match enriched(w.decoded, w.resolved, w.time) {
        Some(e) => seq![e],
        None => Seq::empty(),
    }
}

/// The events of a whole run of notifications, in arrival order: each item
/// contributes its event, or nothing, exactly where it arrived.
pub open spec fn enrich_seq(items: Seq<WorkItemModel>) -> Seq<EventModel>
    decreases items.len(),
{
    if items.len() == 0 {
        Seq::empty()
    } else {
        enrich_seq(items.drop_last()) + emitted(items.last())
    }
}

/// The mathematical value of a sequence of work items.
pub open spec fn items_view(items: Seq<WorkItem>) -> Seq<WorkItemModel> {
    items.map_values(|w: WorkItem| w@)
}

/// The mathematical value of a sequence of events.
pub open spec fn events_view(events: Seq<Event>) -> Seq<EventModel> {
    events.map_values(|e: Event| e@)
}

/// Enriches a run of notifications in arrival order, exactly as the worker
/// does one at a time.
pub fn enrich_all(items: &Vec<WorkItem>) -> (out: Vec<Event>)
    ensures
        events_view(out@) == enrich_seq(items_view(items@)),
{
    let mut out: Vec<Event> = Vec::new();
    let mut i: usize = 0;
    while i < items.len()
        invariant
            i <= items.len(),
            events_view(out@) == enrich_seq(items_view(items@.take(i as int))),
        decreases items.len() - i,
    {
        let w = &items[i];
        let resolved = w.resolved.clone();
        let r = process_notification(w.decoded, resolved, w.time);
        proof {
            let iv = items_view(items@.take(i as int));
            let iv1 = items_view(items@.take(i as int + 1));
            assert(iv1.drop_last() =~= iv);
            assert(iv1.last() == items@[i as int]@);
        }
        match r {
            Some(event) => out.push(event),
            None => {},
        }
        proof {
            assert(events_view(out@) =~= enrich_seq(items_view(items@.take(i as int + 1))));
        }
        i = i + 1;
    }
    proof {
        assert(items@.take(items@.len() as int) =~= items@);
    }
    out
}

/// Where the event of item `i` stands in the output: right after the events
/// of every item that arrived before it.
pub open spec fn emitted_position(items: Seq<WorkItemModel>, i: int) -> int {
    enrich_seq(items.take(i)).len() as int
}

/// The event of item `i` really stands at [`emitted_position`]: the output
/// holds it there, past the events of all earlier items.
pub proof fn lemma_emitted_at(items: Seq<WorkItemModel>, i: int)
    requires
        0 <= i < items.len(),
        enriched(items[i].decoded, items[i].resolved, items[i].time) is Some,
    ensures
        0 <= emitted_position(items, i) < enrich_seq(items).len(),
        enrich_seq(items)[emitted_position(items, i)] == enriched(
            items[i].decoded,
            items[i].resolved,
            items[i].time,
        ).unwrap(),
    decreases items.len(),
{
    if i == items.len() - 1 {
        assert(items.take(i) =~= items.drop_last());
        assert(items.last() == items[i]);
    } else {
        assert(items.drop_last()[i] == items[i]);
        lemma_emitted_at(items.drop_last(), i);
        assert(items.drop_last().take(i) =~= items.take(i));
        assert(enrich_seq(items) == enrich_seq(items.drop_last()) + emitted(items.last()));
        assert(enrich_seq(items)[emitted_position(items, i)] == enrich_seq(items.drop_last())[
            emitted_position(items.drop_last(), i)
        ]);
    }
}

/// Ordering law of the handoff path: of any two notifications that both
/// produce an event, the one that arrived first is delivered first. The
/// output never reorders across the channel.
pub proof fn lemma_order_preserved(items: Seq<WorkItemModel>, i: int, j: int)
    requires
        0 <= i < j < items.len(),
        enriched(items[i].decoded, items[i].resolved, items[i].time) is Some,
        enriched(items[j].decoded, items[j].resolved, items[j].time) is Some,
    ensures
        0 <= emitted_position(items, i) < emitted_position(items, j) < enrich_seq(items).len(),
        enrich_seq(items)[emitted_position(items, i)] == enriched(
            items[i].decoded,
            items[i].resolved,
            items[i].time,
        ).unwrap(),
        enrich_seq(items)[emitted_position(items, j)] == enriched(
            items[j].decoded,
            items[j].resolved,
            items[j].time,
        ).unwrap(),
{
    lemma_emitted_at(items, i);
    lemma_emitted_at(items, j);
    assert(items.take(j)[i] == items[i]);
    lemma_emitted_at(items.take(j), i);
    assert(items.take(j).take(i) =~= items.take(i));
}

} // verus!

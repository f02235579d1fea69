//! Change notification with listener priorities, batches, bulk changes,
//! an event filter and dispatch statistics.
use crate::buffer::editor::{
    list_count, list_deliver, list_len, list_new, list_push, ChangeEvent, ChangeListener, ListenerList,
};
use crate::text::{concat_str, usize_to_string};
use crate::time::{duration_from_millis, duration_from_nanos, duration_nanos, elapsed, instant_now};
use std::time::{Duration, Instant};
use vstd::prelude::*;

verus! {

/// Identifier of a registered listener.
pub type ListenerId = usize;

/// A change event with the events of batches, bulk changes and the view.
#[derive(Debug, Clone)]
pub enum ExtendedChangeEvent {
    Base(ChangeEvent),
    BatchStart { operation_id: usize, expected_changes: usize },
    BatchEnd { operation_id: usize, actual_changes: usize },
    BulkChangeStart,
    BulkChangeEnd { total_changes: usize, duration: Duration },
    PerformanceWarning { operation: String, duration: Duration, threshold: Duration },
    Error { operation: String, error_msg: String },
    SaveStateChanged { is_modified: bool },
    SelectionChanged { old_selection: Option<(usize, usize)>, new_selection: Option<(usize, usize)> },
    ViewportChanged { old_viewport: ViewportInfo, new_viewport: ViewportInfo },
}

/// The visible part of a buffer.
#[derive(Debug, Clone, PartialEq, Eq, Structural)]
pub struct ViewportInfo {
    pub start_line: usize,
    pub end_line: usize,
    pub scroll_x: usize,
    pub width: usize,
    pub height: usize,
}

impl ViewportInfo {
    /// A viewport with the given extent.
    pub fn new(start_line: usize, end_line: usize, scroll_x: usize, width: usize, height: usize) -> (r: Self)
        ensures
            r == (ViewportInfo { start_line, end_line, scroll_x, width, height }),
    {
        Self { start_line, end_line, scroll_x, width, height }
    }
}

/// A receiver of extended change events, implemented by users; listeners
/// with a higher priority receive an event first.
pub trait ExtendedChangeListener {
    fn on_extended_change(&mut self, event: &ExtendedChangeEvent);

    fn priority(&self) -> i32 {
        0
    }

    fn accepts_event_type(&self, event: &ExtendedChangeEvent) -> bool {
        true
    }
}

/// Counters of the notifier.
#[derive(Debug, Clone)]
pub struct ChangeNotifierStats {
    pub total_listeners: usize,
    pub active_listeners: usize,
    pub events_dispatched: usize,
    pub avg_dispatch_time: Duration,
    pub max_dispatch_time: Duration,
    pub error_count: usize,
}

/// A snapshot of the running batch.
#[derive(Debug, Clone)]
pub struct BatchInfo {
    pub operation_id: usize,
    pub duration: Duration,
    pub expected_changes: usize,
    pub actual_changes: usize,
    pub events_count: usize,
}

/// The running batch.
#[derive(Debug)]
pub struct BatchState {
    pub operation_id: usize,
    pub start_time: Instant,
    pub expected_changes: usize,
    pub actual_changes: usize,
    pub batched_events: Vec<ExtendedChangeEvent>,
}

/// `a` goes before `b` in dispatch: a higher priority first, and between
/// equal priorities the earlier registration first.
pub open spec fn dispatched_before(prios: Seq<i32>, a: int, b: int) -> bool {
    prios[a] > prios[b] || (prios[a] == prios[b] && a < b)
}

/// `order` lists every index of `prios` once, in dispatch order.
pub open spec fn is_dispatch_order(prios: Seq<i32>, order: Seq<usize>) -> bool {
    &&& order.len() == prios.len()
    &&& forall|k: int| 0 <= k < order.len() ==> #[trigger] order[k] < prios.len()
    &&& forall|k1: int, k2: int|
        0 <= k1 < k2 < order.len() ==> dispatched_before(prios, #[trigger] order[k1] as int, #[trigger] order[k2] as int)
}

/// The moving average of dispatch times (nanoseconds): the first sample is
/// taken as is, later ones weigh a tenth.
pub open spec fn next_average(avg: nat, sample: nat) -> nat {
    if avg == 0 {
        sample
    } else {
        (avg * 9 + sample) / 10
    }
}

/// Milliseconds after which a batch gets a performance warning.
pub const BATCH_WARNING_MILLIS: u64 = 10;

/// Boxed extended listeners supplied by users, in registration order. A
/// field that holds trait objects cannot be followed through a mutable
/// borrow, so the vector sits in this opaque struct and is reached through
/// the functions below.
#[verifier::external_body]
pub struct ExtendedListenerTable {
    items: Vec<Box<dyn ExtendedChangeListener>>,
}

/// The number of listeners in a table.
pub uninterp spec fn table_len(t: ExtendedListenerTable) -> nat;

/// `Vec::new`: an empty table.
#[verifier::external_body]
fn table_new() -> (r: ExtendedListenerTable)
    ensures
        table_len(r) == 0,
{
    ExtendedListenerTable { items: Vec::new() }
}

/// `Vec::push`: appends a listener.
#[verifier::external_body]
fn table_push(t: &mut ExtendedListenerTable, listener: Box<dyn ExtendedChangeListener>)
    ensures
        table_len(*final(t)) == table_len(*old(t)) + 1,
{
    t.items.push(listener);
}

/// Replaces listener `i`.
#[verifier::external_body]
fn table_set(t: &mut ExtendedListenerTable, i: usize, listener: Box<dyn ExtendedChangeListener>)
    requires
        i < table_len(*old(t)),
    ensures
        table_len(*final(t)) == table_len(*old(t)),
{
    t.items[i] = listener;
}

/// `Vec::remove`: drops listener `i`.
#[verifier::external_body]
fn table_remove(t: &mut ExtendedListenerTable, i: usize)
    requires
        i < table_len(*old(t)),
    ensures
        table_len(*final(t)) == table_len(*old(t)) - 1,
{
    t.items.remove(i);
}

/// Asks listener `i` (the user's code) whether it takes `event`.
#[verifier::external_body]
fn table_accepts(t: &ExtendedListenerTable, i: usize, event: &ExtendedChangeEvent) -> bool
    requires
        i < table_len(*t),
{
    t.items[i].accepts_event_type(event)
}

/// Calls `on_extended_change` of listener `i` (the user's code).
#[verifier::external_body]
fn table_deliver(t: &mut ExtendedListenerTable, i: usize, event: &ExtendedChangeEvent)
    requires
        i < table_len(*old(t)),
    ensures
        table_len(*final(t)) == table_len(*old(t)),
{
    t.items[i].on_extended_change(event);
}

/// The change notifier.
pub struct AdvancedChangeNotifier {
    basic_listeners: ListenerList,
    extended_listeners: ExtendedListenerTable,
    listener_keys: Vec<(ListenerId, i32)>,
    next_listener_id: usize,
    pub batch_state: Option<BatchState>,
    pub bulk_change_active: bool,
    stats: ChangeNotifierStats,
    last_dispatch_time: Instant,
    dispatch_timeout: Duration,
    event_filter: Option<EventFilter>,
    /// For the proof: every offer of an event to an extended listener.
    offered: Ghost<Seq<(usize, ExtendedChangeEvent)>>,
    /// For the proof: every answer the event filter gave, with its event.
    filter_answers: Ghost<Seq<(ExtendedChangeEvent, bool)>>,
}

/// A predicate over events supplied by the user as a closure. Verus cannot
/// hold a boxed closure in a field, so the box sits in this opaque struct.
#[verifier::external_body]
pub struct EventFilter {
    predicate: Box<dyn Fn(&ExtendedChangeEvent) -> bool>,
}

/// Boxes the user's closure `f` as a filter.
#[verifier::external_body]
fn make_filter<F: Fn(&ExtendedChangeEvent) -> bool + 'static>(f: F) -> EventFilter {
    EventFilter { predicate: Box::new(f) }
}

/// Calls the user's filter closure on `event`. What it answers is the
/// user's code: nothing is stated of it.
#[verifier::external_body]
fn filter_accepts(filter: &EventFilter, event: &ExtendedChangeEvent) -> bool {
    (filter.predicate)(event)
}

impl AdvancedChangeNotifier {
    /// The listener table is consistent and the counters fit.
    pub closed spec fn wf(&self) -> bool {
        &&& table_len(self.extended_listeners) == self.listener_keys@.len()
        &&& list_len(self.basic_listeners) + self.keys().len() < usize::MAX
        &&& forall|i: int, j: int|
            0 <= i < j < self.keys().len() ==> (#[trigger] self.keys()[i]).0
                != (#[trigger] self.keys()[j]).0
        &&& self.stats.total_listeners == list_len(self.basic_listeners) + self.keys().len()
        &&& self.stats.active_listeners == self.stats.total_listeners
    }

    /// Registered extended listeners: identifiers and priorities.
    pub closed spec fn keys(&self) -> Seq<(ListenerId, i32)> {
        self.listener_keys@
    }

    /// The priorities of the extended listeners, in registration order.
    pub closed spec fn priorities(&self) -> Seq<i32> {
        self.keys().map_values(|k: (ListenerId, i32)| k.1)
    }

    /// Number of basic listeners.
    pub closed spec fn basic_count(&self) -> nat {
        list_len(self.basic_listeners)
    }

    /// Whether an event filter is set.
    pub closed spec fn filtered(&self) -> bool {
        self.event_filter is Some
    }

    /// Every offer of an event to an extended listener so far: the
    /// listener's index and the event, in the order they were made.
    pub closed spec fn offers(&self) -> Seq<(usize, ExtendedChangeEvent)> {
        self.offered@
    }

    /// Every answer the event filter gave so far, with the event it was
    /// asked about, in order.
    pub closed spec fn filter_log(&self) -> Seq<(ExtendedChangeEvent, bool)> {
        self.filter_answers@
    }

    /// The counters.
    pub closed spec fn counters(&self) -> ChangeNotifierStats {
        self.stats
    }

    /// The identifier counter.
    pub closed spec fn id_counter(&self) -> usize {
        self.next_listener_id
    }

    /// The running batch.
    pub closed spec fn batch(&self) -> Option<BatchState> {
        self.batch_state
    }

    /// Whether a bulk change is running.
    pub closed spec fn bulk_active(&self) -> bool {
        self.bulk_change_active
    }

    /// Room for one more dispatched event.
    pub closed spec fn room(&self) -> bool {
        &&& self.wf()
        &&& self.stats.events_dispatched < usize::MAX
        &&& self.batch_state matches Some(s) ==> s.actual_changes < usize::MAX && s.batched_events@.len()
            < usize::MAX
    }

    /// A notifier without listeners, batch or filter.
    pub fn new() -> (r: Self)
        ensures
            r.wf(),
            r.keys() == Seq::<(ListenerId, i32)>::empty(),
            r.basic_count() == 0,
            r.batch() is None,
            !r.bulk_active(),
            !r.filtered(),
            r.counters().events_dispatched == 0,
            r.counters().error_count == 0,
            duration_nanos_of(r.counters().avg_dispatch_time) == 0,
            r.id_counter() == 0,
            r.offers() == Seq::<(usize, ExtendedChangeEvent)>::empty(),
    {
        Self {
            basic_listeners: list_new(),
            extended_listeners: table_new(),
            listener_keys: Vec::new(),
            next_listener_id: 0,
            batch_state: None,
            bulk_change_active: false,
            stats: ChangeNotifierStats {
                total_listeners: 0,
                active_listeners: 0,
                events_dispatched: 0,
                avg_dispatch_time: duration_from_nanos(0),
                max_dispatch_time: duration_from_nanos(0),
                error_count: 0,
            },
            last_dispatch_time: instant_now(),
            dispatch_timeout: duration_from_millis(10),
            event_filter: None,
            offered: Ghost(Seq::empty()),
            filter_answers: Ghost(Seq::empty()),
        }
    }

    /// Registers a listener for plain change events.
    pub fn add_basic_listener(&mut self, listener: Box<dyn ChangeListener>)
        requires
            old(self).wf(),
            old(self).basic_count() + old(self).keys().len() + 1 < usize::MAX,
        ensures
            final(self).wf(),
            final(self).basic_count() == old(self).basic_count() + 1,
            final(self).keys() == old(self).keys(),
            final(self).counters().total_listeners == old(self).counters().total_listeners + 1,
    {
        list_push(&mut self.basic_listeners, listener);
        self.update_listener_count();
    }

    /// Registers an extended listener with its priority and returns its
    /// identifier (the counter wraps; a listener already under the
    /// identifier is replaced).
    pub fn add_extended_listener(&mut self, listener: Box<dyn ExtendedChangeListener>) -> (id: ListenerId)
        requires
            old(self).wf(),
            old(self).basic_count() + old(self).keys().len() + 1 < usize::MAX,
        ensures
            final(self).wf(),
            id == old(self).id_counter(),
            final(self).id_counter() == (if id == usize::MAX { 0 } else { id + 1 }),
            final(self).basic_count() == old(self).basic_count(),
            exists|k: int| 0 <= k < final(self).keys().len() && (#[trigger] final(self).keys()[k]).0 == id,
            (forall|k: int| 0 <= k < old(self).keys().len() ==> (#[trigger] old(self).keys()[k]).0 != id)
                ==> final(self).keys().len() == old(self).keys().len() + 1 && final(self).keys().take(
                old(self).keys().len() as int,
            ) == old(self).keys(),
    {
        let id = self.next_listener_id;
        self.next_listener_id = if id == usize::MAX {
            0
        } else {
            id + 1
        };
        let priority = listener.priority();
        let ghost keys0 = self.keys();
        assert(keys0 == old(self).keys());
        let found = self.find_listener(id);
        assert(found is None ==> forall|k: int| 0 <= k < keys0.len() ==> (#[trigger] keys0[k]).0 != id);
        match found {
            Some(k) => {
                table_set(&mut self.extended_listeners, k, listener);
                self.listener_keys.set(k, (id, priority));
                assert(self.keys()[k as int].0 == id);
                assert forall|i: int, j: int|
                    0 <= i < j < self.keys().len() implies (#[trigger] self.keys()[i]).0
                    != (#[trigger] self.keys()[j]).0 by {
                    assert(old(self).keys()[i].0 != old(self).keys()[j].0);
                }
            },
            None => {
                table_push(&mut self.extended_listeners, listener);
                self.listener_keys.push((id, priority));
                assert(self.keys()[self.keys().len() - 1].0 == id);
                assert(self.keys().take(old(self).keys().len() as int) =~= old(self).keys());
                assert forall|i: int, j: int|
                    0 <= i < j < self.keys().len() implies (#[trigger] self.keys()[i]).0
                    != (#[trigger] self.keys()[j]).0 by {
                    if j < old(self).keys().len() {
                        assert(old(self).keys()[i].0 != old(self).keys()[j].0);
                    } else {
                        assert(self.keys()[i] == old(self).keys()[i]);
                        assert(keys0[i].0 != id);
                        assert(self.keys()[j].0 == id);
                    }
                }
            },
        }
        self.update_listener_count();
        id
    }

    /// The index of the listener registered under `id`.
    fn find_listener(&self, id: ListenerId) -> (r: Option<usize>)
        ensures
            r matches Some(k) ==> k < self.keys().len() && self.keys()[k as int].0 == id,
            r is None ==> forall|k: int| 0 <= k < self.keys().len() ==> (#[trigger] self.keys()[k]).0 != id,
    {
        let mut k: usize = 0;
        while k < self.listener_keys.len()
            invariant
                k <= self.keys().len(),
                forall|j: int| 0 <= j < k ==> (#[trigger] self.keys()[j]).0 != id,
            decreases self.keys().len() - k,
        {
            if self.listener_keys[k].0 == id {
                return Some(k);
            }
            k += 1;
        }
        None
    }

    /// Unregisters the extended listener `id`; whether it was registered.
    pub fn remove_listener(&mut self, id: ListenerId) -> (r: bool)
        requires
            old(self).wf(),
        ensures
            final(self).wf(),
            r == exists|k: int| 0 <= k < old(self).keys().len() && (#[trigger] old(self).keys()[k]).0 == id,
            forall|k: int| 0 <= k < final(self).keys().len() ==> (#[trigger] final(self).keys()[k]).0 != id,
            r ==> final(self).keys().len() == old(self).keys().len() - 1,
            !r ==> final(self).keys() == old(self).keys(),
            final(self).basic_count() == old(self).basic_count(),
    {
        match self.find_listener(id) {
            Some(k) => {
                let ghost old_keys = self.keys();
                table_remove(&mut self.extended_listeners, k);
                self.listener_keys.remove(k);
                assert(self.keys() =~= old_keys.remove(k as int));
                assert forall|j: int| 0 <= j < self.keys().len() implies (#[trigger] self.keys()[j]).0 != id by {
                    if j < k {
                        assert(old_keys[j].0 != old_keys[k as int].0);
                    } else {
                        assert(old_keys[j + 1].0 != old_keys[k as int].0);
                    }
                }
                assert forall|i: int, j: int|
                    0 <= i < j < self.keys().len() implies (#[trigger] self.keys()[i]).0
                    != (#[trigger] self.keys()[j]).0 by {
                    let i2 = if i < k { i } else { i + 1 };
                    let j2 = if j < k { j } else { j + 1 };
                    assert(old_keys[i2].0 != old_keys[j2].0);
                }
                self.update_listener_count();
                true
            },
            None => false,
        }
    }

    /// Delivers a plain change event to the basic listeners, then as an
    /// extended event.
    pub fn notify_basic(&mut self, event: ChangeEvent)
        requires
            old(self).room(),
        ensures
            final(self).wf(),
            final(self).keys() == old(self).keys(),
            final(self).basic_count() == old(self).basic_count(),
            dispatched(*old(self), ExtendedChangeEvent::Base(event), *final(self)),
    {
        let n = list_count(&self.basic_listeners);
        let mut i: usize = 0;
        while i < n
            invariant
                n == list_len(self.basic_listeners),
                list_len(self.basic_listeners) == list_len(old(self).basic_listeners),
                self.extended_listeners == old(self).extended_listeners,
                self.keys() == old(self).keys(),
                self.stats == old(self).stats,
                self.batch_state == old(self).batch(),
                self.bulk_change_active == old(self).bulk_active(),
                self.event_filter == old(self).event_filter,
                self.next_listener_id == old(self).next_listener_id,
                self.offered == old(self).offered,
                self.filter_answers == old(self).filter_answers,
            decreases n - i,
        {
            list_deliver(&mut self.basic_listeners, i, &event);
            i += 1;
        }
        proof {
            assert(self.priorities() == old(self).priorities());
        }
        self.dispatch_extended_event(ExtendedChangeEvent::Base(event));
    }

    /// Delivers an extended event.
    pub fn notify_extended(&mut self, event: ExtendedChangeEvent)
        requires
            old(self).room(),
        ensures
            final(self).wf(),
            final(self).keys() == old(self).keys(),
            final(self).basic_count() == old(self).basic_count(),
            dispatched(*old(self), event, *final(self)),
    {
        self.dispatch_extended_event(event);
    }

    /// Starts a batch expecting `expected_changes` changes and announces it;
    /// returns the batch identifier (taken from the identifier counter).
    pub fn start_batch(&mut self, expected_changes: usize) -> (id: usize)
        requires
            old(self).room(),
        ensures
            final(self).wf(),
            final(self).keys() == old(self).keys(),
            id == old(self).id_counter(),
            final(self).id_counter() == (if id == usize::MAX { 0 } else { id + 1 }),
            final(self).batch() matches Some(s) && s.operation_id == id && s.expected_changes
                == expected_changes && s.actual_changes == 0 && s.batched_events@.len() == 1,
    {
        let operation_id = self.next_listener_id;
        self.next_listener_id = if operation_id == usize::MAX {
            0
        } else {
            operation_id + 1
        };
        let event = ExtendedChangeEvent::BatchStart { operation_id, expected_changes };
        let mut batched_events: Vec<ExtendedChangeEvent> = Vec::new();
        batched_events.push(event.clone());
        self.batch_state = Some(
            BatchState {
                operation_id,
                start_time: instant_now(),
                expected_changes,
                actual_changes: 0,
                batched_events,
            },
        );
        self.dispatch_extended_event(event);
        operation_id
    }

    /// Ends the batch `operation_id` (another identifier is ignored): announces
    /// its end, warns when it took over ten milliseconds, and clears it.
    pub fn end_batch(&mut self, operation_id: usize)
        requires
            old(self).room(),
            old(self).counters().events_dispatched + 2 < usize::MAX,
        ensures
            final(self).wf(),
            final(self).keys() == old(self).keys(),
            old(self).batch() matches Some(s) && s.operation_id == operation_id ==> final(self).batch() is None,
            !(old(self).batch() matches Some(s) && s.operation_id == operation_id) ==> final(self).batch()
                == old(self).batch() && final(self).counters() == old(self).counters(),
    {
        let (matches, start, actual) = match &self.batch_state {
            Some(state) => (state.operation_id == operation_id, Some(state.start_time), state.actual_changes),
            None => (false, None, 0),
        };
        if !matches {
            return;
        }
        let duration = match start {
            Some(t) => elapsed(&t),
            None => duration_from_nanos(0),
        };
        let event = ExtendedChangeEvent::BatchEnd { operation_id, actual_changes: actual };
        self.dispatch_extended_event(event);
        self.batch_state = None;
        let threshold = duration_from_millis(BATCH_WARNING_MILLIS);
        if duration_nanos(&duration) > duration_nanos(&threshold) {
            let name = concat_str("batch_operation_", usize_to_string(operation_id).as_str());
            self.notify_performance_warning(name, duration, threshold);
        }
    }

    /// Starts a bulk change (announced once).
    pub fn start_bulk_change(&mut self)
        requires
            old(self).room(),
        ensures
            final(self).wf(),
            final(self).bulk_active(),
            old(self).bulk_active() ==> final(self).counters() == old(self).counters(),
            !old(self).bulk_active() ==> dispatched(*old(self), ExtendedChangeEvent::BulkChangeStart, *final(self)),
    {
        if !self.bulk_change_active {
            self.bulk_change_active = true;
            proof {
                assert(self.priorities() == old(self).priorities());
            }
            self.dispatch_extended_event(ExtendedChangeEvent::BulkChangeStart);
        }
    }

    /// Ends a bulk change (announced when one was running).
    pub fn end_bulk_change(&mut self, total_changes: usize, duration: Duration)
        requires
            old(self).room(),
        ensures
            final(self).wf(),
            !final(self).bulk_active(),
            !old(self).bulk_active() ==> final(self).counters() == old(self).counters(),
            old(self).bulk_active() ==> dispatched(
                *old(self),
                ExtendedChangeEvent::BulkChangeEnd { total_changes, duration },
                *final(self),
            ),
    {
        if self.bulk_change_active {
            self.bulk_change_active = false;
            proof {
                assert(self.priorities() == old(self).priorities());
            }
            self.dispatch_extended_event(ExtendedChangeEvent::BulkChangeEnd { total_changes, duration });
        }
    }

    /// Sets the event filter: events it refuses are not dispatched.
    pub fn set_event_filter<F: Fn(&ExtendedChangeEvent) -> bool + 'static>(&mut self, filter: F)
        ensures
            final(self).filtered(),
            final(self).keys() == old(self).keys(),
            final(self).counters() == old(self).counters(),
    {
        self.event_filter = Some(make_filter(filter));
    }

    /// Removes the event filter.
    pub fn clear_event_filter(&mut self)
        ensures
            !final(self).filtered(),
            final(self).keys() == old(self).keys(),
            final(self).counters() == old(self).counters(),
    {
        self.event_filter = None;
    }

    /// The counters.
    pub fn stats(&self) -> (r: &ChangeNotifierStats)
        ensures
            *r == self.counters(),
    {
        &self.stats
    }

    /// The running batch, if any.
    pub fn current_batch_info(&self) -> (r: Option<BatchInfo>)
        ensures
            self.batch() is None ==> r is None,
            self.batch() matches Some(s) ==> (r matches Some(i) && i.operation_id == s.operation_id
                && i.expected_changes == s.expected_changes && i.actual_changes == s.actual_changes
                && i.events_count == s.batched_events@.len()),
    {
        match &self.batch_state {
            Some(state) => Some(
                BatchInfo {
                    operation_id: state.operation_id,
                    duration: elapsed(&state.start_time),
                    expected_changes: state.expected_changes,
                    actual_changes: state.actual_changes,
                    events_count: state.batched_events.len(),
                },
            ),
            None => None,
        }
    }

    /// Zeroes the dispatch counters; the listener counts stay.
    pub fn reset_stats(&mut self)
        requires
            old(self).wf(),
        ensures
            final(self).wf(),
            final(self).keys() == old(self).keys(),
            final(self).counters().total_listeners == old(self).counters().total_listeners,
            final(self).counters().active_listeners == old(self).counters().active_listeners,
            final(self).counters().events_dispatched == 0,
            final(self).counters().error_count == 0,
            duration_nanos_of(final(self).counters().avg_dispatch_time) == 0,
            duration_nanos_of(final(self).counters().max_dispatch_time) == 0,
    {
        self.stats = ChangeNotifierStats {
            total_listeners: self.stats.total_listeners,
            active_listeners: self.stats.active_listeners,
            events_dispatched: 0,
            avg_dispatch_time: duration_from_nanos(0),
            max_dispatch_time: duration_from_nanos(0),
            error_count: 0,
        };
    }

    /// Announces that `operation` took `duration`, over `threshold`.
    pub fn notify_performance_warning(&mut self, operation: String, duration: Duration, threshold: Duration)
        requires
            old(self).room(),
        ensures
            final(self).wf(),
            final(self).keys() == old(self).keys(),
            dispatched(*old(self), ExtendedChangeEvent::PerformanceWarning { operation, duration, threshold }, *final(self)),
    {
        let event = ExtendedChangeEvent::PerformanceWarning { operation, duration, threshold };
        self.dispatch_extended_event(event);
    }

    /// Announces an error of `operation`.
    pub fn notify_error(&mut self, operation: String, error_msg: String)
        requires
            old(self).room(),
        ensures
            final(self).wf(),
            final(self).keys() == old(self).keys(),
            dispatched(*old(self), ExtendedChangeEvent::Error { operation, error_msg }, *final(self)),
    {
        let event = ExtendedChangeEvent::Error { operation, error_msg };
        self.dispatch_extended_event(event);
    }

    /// The order in which the extended listeners receive an event.
    pub fn dispatch_order(&self) -> (order: Vec<usize>)
        requires
            self.wf(),
        ensures
            is_dispatch_order(self.priorities(), order@),
    {
        let ghost prios = self.priorities();
        let n = self.listener_keys.len();
        let mut order: Vec<usize> = Vec::new();
        let mut i: usize = 0;
        while i < n
            invariant
                n == self.keys().len(),
                prios == self.priorities(),
                prios.len() == n,
                i <= n,
                order@.len() == i,
                forall|k: int| 0 <= k < order@.len() ==> #[trigger] order@[k] < i,
                forall|k1: int, k2: int|
                    0 <= k1 < k2 < order@.len() ==> dispatched_before(prios, #[trigger] order@[k1] as int, #[trigger] order@[k2] as int),
            decreases n - i,
        {
            let p = self.listener_keys[i].1;
            assert(p == prios[i as int]);
            let mut j: usize = 0;
            while j < order.len() && self.listener_keys[order[j]].1 >= p
                invariant
                    n == self.keys().len(),
                    prios == self.priorities(),
                    prios.len() == n,
                    i < n,
                    p == prios[i as int],
                    j <= order@.len(),
                    order@.len() == i,
                    forall|k: int| 0 <= k < order@.len() ==> #[trigger] order@[k] < i,
                    forall|k: int| 0 <= k < j ==> prios[#[trigger] order@[k] as int] >= p,
                decreases order@.len() - j,
            {
                j += 1;
            }
            let ghost before = order@;
            order.insert(j, i);
            proof {
                assert(j < before.len() ==> prios[before[j as int] as int] < p);
                assert forall|k: int| 0 <= k < order@.len() implies #[trigger] order@[k] < i + 1 by {
                    if k < j {
                        assert(order@[k] == before[k]);
                    } else if k > j {
                        assert(order@[k] == before[k - 1]);
                    }
                }
                assert forall|k1: int, k2: int|
                    0 <= k1 < k2 < order@.len() implies dispatched_before(prios, #[trigger] order@[k1] as int, #[trigger] order@[k2] as int) by {
                    if k2 < j {
                        assert(order@[k1] == before[k1] && order@[k2] == before[k2]);
                    } else if k2 == j {
                        assert(order@[k1] == before[k1]);
                        assert(before[k1] < i);
                    } else if k1 == j {
                        assert(order@[k2] == before[k2 - 1]);
                        assert(j < before.len());
                        if k2 - 1 > j {
                            assert(dispatched_before(prios, before[j as int] as int, before[k2 - 1] as int));
                        }
                    } else if k1 < j {
                        assert(order@[k1] == before[k1] && order@[k2] == before[k2 - 1]);
                    } else {
                        assert(order@[k1] == before[k1 - 1] && order@[k2] == before[k2 - 1]);
                    }
                }
            }
            i += 1;
        }
        order
    }

    /// Asks the filter, then hands the event on to `deliver_after_filter`.
    fn dispatch_extended_event(&mut self, event: ExtendedChangeEvent)
        requires
            old(self).room(),
        ensures
            final(self).wf(),
            final(self).keys() == old(self).keys(),
            final(self).basic_count() == old(self).basic_count(),
            final(self).bulk_active() == old(self).bulk_active(),
            final(self).id_counter() == old(self).id_counter(),
            final(self).filtered() == old(self).filtered(),
            dispatched(*old(self), event, *final(self)),
    {
        let passes = match &self.event_filter {
            Some(filter) => {
                let answer = filter_accepts(filter, &event);
                proof {
                    self.filter_answers = Ghost(self.filter_answers@.push((event, answer)));
                    assert(self.priorities() == old(self).priorities());
                    assert(self.filter_log().drop_last() =~= old(self).filter_log());
                }
                answer
            },
            None => true,
        };
        self.deliver_after_filter(event, passes);
    }

    /// Dispatches `event` once the filter has answered `passes`: a refused
    /// event changes nothing; an accepted one is counted, added to a running
    /// batch when it is a plain change, and offered to every extended
    /// listener in dispatch order (each listener that takes the event gets
    /// it), and the dispatch statistics are updated.
    pub fn deliver_after_filter(&mut self, event: ExtendedChangeEvent, passes: bool)
        requires
            old(self).room(),
        ensures
            final(self).wf(),
            final(self).keys() == old(self).keys(),
            final(self).basic_count() == old(self).basic_count(),
            final(self).bulk_active() == old(self).bulk_active(),
            final(self).id_counter() == old(self).id_counter(),
            final(self).filtered() == old(self).filtered(),
            passes ==> counted_dispatch(*old(self), event, *final(self)),
            !passes ==> refused_dispatch(*old(self), *final(self)),
            final(self).filter_log() == old(self).filter_log(),
    {
        if !passes {
            return;
        }
        let start_time = instant_now();
        match &mut self.batch_state {
            Some(state) => {
                match &event {
                    ExtendedChangeEvent::Base(_) => {
                        state.actual_changes += 1;
                        state.batched_events.push(event.clone());
                    },
                    _ => {},
                }
            },
            None => {},
        }
        let order = self.dispatch_order();
        let ghost mid = *self;
        let ghost log0 = self.offered@;
        let mut k: usize = 0;
        while k < order.len()
            invariant
                table_len(self.extended_listeners) == self.keys().len(),
                self.keys() == mid.keys(),
                self.basic_listeners == mid.basic_listeners,
                self.stats == mid.stats,
                self.batch_state == mid.batch_state,
                self.bulk_change_active == mid.bulk_change_active,
                self.next_listener_id == mid.next_listener_id,
                self.event_filter == mid.event_filter,
                self.filter_answers == mid.filter_answers,
                order@.len() == self.keys().len(),
                forall|m: int| 0 <= m < order@.len() ==> #[trigger] order@[m] < self.keys().len(),
                k <= order@.len(),
                self.offered@ == log0 + order@.take(k as int).map_values(|i: usize| (i, event)),
            decreases order@.len() - k,
        {
            let idx = order[k];
            proof {
                self.offered = Ghost(self.offered@.push((idx, event)));
                assert(order@.take(k + 1).map_values(|i: usize| (i, event)) =~= order@.take(k as int).map_values(
                    |i: usize| (i, event),
                ).push((idx, event)));
            }
            if table_accepts(&self.extended_listeners, idx, &event) {
                table_deliver(&mut self.extended_listeners, idx, &event);
            }
            k += 1;
        }
        proof {
            assert(order@.take(order@.len() as int) =~= order@);
            assert(mid.priorities() == old(self).priorities());
            assert(is_dispatch_order(old(self).priorities(), order@));
        }
        let dispatch_time = elapsed(&start_time);
        self.update_dispatch_stats(dispatch_time);
        self.last_dispatch_time = instant_now();
    }

    fn update_listener_count(&mut self)
        requires
            table_len(old(self).extended_listeners) == old(self).keys().len(),
            list_len(old(self).basic_listeners) + old(self).keys().len() < usize::MAX,
            forall|i: int, j: int|
                0 <= i < j < old(self).keys().len() ==> (#[trigger] old(self).keys()[i]).0
                    != (#[trigger] old(self).keys()[j]).0,
        ensures
            final(self).wf(),
            final(self).keys() == old(self).keys(),
            final(self).basic_listeners == old(self).basic_listeners,
            final(self).extended_listeners == old(self).extended_listeners,
            final(self).next_listener_id == old(self).next_listener_id,
            final(self).batch() == old(self).batch(),
            final(self).bulk_active() == old(self).bulk_active(),
            final(self).event_filter == old(self).event_filter,
            final(self).stats.events_dispatched == old(self).stats.events_dispatched,
            final(self).stats.error_count == old(self).stats.error_count,
            final(self).stats.avg_dispatch_time == old(self).stats.avg_dispatch_time,
            final(self).stats.max_dispatch_time == old(self).stats.max_dispatch_time,
    {
        self.stats.total_listeners = list_count(&self.basic_listeners) + self.listener_keys.len();
        self.stats.active_listeners = self.stats.total_listeners;
    }

    fn update_dispatch_stats(&mut self, duration: Duration)
        requires
            old(self).stats.events_dispatched < usize::MAX,
        ensures
            final(self).stats.events_dispatched == old(self).stats.events_dispatched + 1,
            final(self).stats.total_listeners == old(self).stats.total_listeners,
            final(self).stats.active_listeners == old(self).stats.active_listeners,
            final(self).stats.error_count == old(self).stats.error_count,
            duration_nanos_of(final(self).stats.avg_dispatch_time) == saturated_u64(next_average(
                duration_nanos_of(old(self).stats.avg_dispatch_time) as nat,
                duration_nanos_of(duration) as nat,
            )),
            duration_nanos_of(final(self).stats.max_dispatch_time) == saturated_u64(if duration_nanos_of(duration)
                > duration_nanos_of(old(self).stats.max_dispatch_time) {
                duration_nanos_of(duration) as nat
            } else {
                duration_nanos_of(old(self).stats.max_dispatch_time) as nat
            }),
            final(self).keys() == old(self).keys(),
            final(self).basic_listeners == old(self).basic_listeners,
            final(self).extended_listeners == old(self).extended_listeners,
            final(self).next_listener_id == old(self).next_listener_id,
            final(self).batch() == old(self).batch(),
            final(self).bulk_active() == old(self).bulk_active(),
            final(self).event_filter == old(self).event_filter,
            final(self).offered == old(self).offered,
            final(self).filter_answers == old(self).filter_answers,
    {
        self.stats.events_dispatched += 1;
        let sample = duration_nanos(&duration);
        let avg = duration_nanos(&self.stats.avg_dispatch_time);
        let next: u128 = if avg == 0 {
            sample
        } else {
            (avg / 10) * 9 + ((avg % 10) * 9 + sample % 10) / 10 + sample / 10
        };
        proof {
            assert(next == next_average(avg as nat, sample as nat)) by (nonlinear_arith)
                requires
                    avg != 0 ==> next == (avg / 10) * 9 + ((avg % 10) * 9 + sample % 10) / 10 + sample / 10,
                    avg == 0 ==> next == sample,
            {
            }
        }
        self.stats.avg_dispatch_time = duration_from_nanos(saturate_u64(next));
        let max = duration_nanos(&self.stats.max_dispatch_time);
        if sample > max {
            self.stats.max_dispatch_time = duration_from_nanos(saturate_u64(sample));
        } else {
            self.stats.max_dispatch_time = duration_from_nanos(saturate_u64(max));
        }
    }
}

/// A nanosecond count clamped to `u64`'s range.
pub open spec fn saturated_u64(n: nat) -> u128 {
    if n > u64::MAX {
        u64::MAX as u128
    } else {
        n as u128
    }
}

fn saturate_u64(n: u128) -> (r: u64)
    ensures
        r == saturated_u64(n as nat),
{
    if n > u64::MAX as u128 {
        u64::MAX
    } else {
        n as u64
    }
}

/// `n1` is `n0` after `e` was counted and offered: one more event
/// dispatched, a plain change added to a running batch, and one offer per
/// extended listener logged, in dispatch order.
pub open spec fn counted_dispatch(n0: AdvancedChangeNotifier, e: ExtendedChangeEvent, n1: AdvancedChangeNotifier) -> bool {
    &&& n1.counters().events_dispatched == n0.counters().events_dispatched + 1
    &&& n1.counters().error_count == n0.counters().error_count
    &&& n1.counters().total_listeners == n0.counters().total_listeners
    &&& match n0.batch() {
        Some(s) => n1.batch() matches Some(s1) && s1.operation_id == s.operation_id && s1.expected_changes
            == s.expected_changes && if e is Base {
            s1.actual_changes == s.actual_changes + 1 && s1.batched_events@.len() == s.batched_events@.len() + 1
        } else {
            s1.actual_changes == s.actual_changes && s1.batched_events@ == s.batched_events@
        },
        None => n1.batch() is None,
    }
    &&& exists|order: Seq<usize>|
        #[trigger] is_dispatch_order(n0.priorities(), order) && n1.offers() == n0.offers() + order.map_values(
            |i: usize| (i, e),
        )
}

/// `n1` is `n0` after an event was refused: nothing counted, batched or
/// offered.
pub open spec fn refused_dispatch(n0: AdvancedChangeNotifier, n1: AdvancedChangeNotifier) -> bool {
    n1.counters() == n0.counters() && n1.batch() == n0.batch() && n1.offers() == n0.offers()
}

/// What dispatching `e` does: without a filter the event is counted and
/// offered; with one, the filter is asked, its answer is logged, and the
/// answer decides between that and a refusal.
pub open spec fn dispatched(n0: AdvancedChangeNotifier, e: ExtendedChangeEvent, n1: AdvancedChangeNotifier) -> bool {
    &&& !n0.filtered() ==> counted_dispatch(n0, e, n1) && n1.filter_log() == n0.filter_log()
    &&& n0.filtered() ==> {
        &&& n1.filter_log().len() == n0.filter_log().len() + 1
        &&& n1.filter_log().drop_last() == n0.filter_log()
        &&& n1.filter_log().last().0 == e
        &&& n1.filter_log().last().1 ==> counted_dispatch(n0, e, n1)
        &&& !n1.filter_log().last().1 ==> refused_dispatch(n0, n1)
    }
}

/// The nanoseconds of a duration.
pub open spec fn duration_nanos_of(d: Duration) -> u128 {
    crate::time::nanos_of(d)
}

/// A listener that records every event it receives.
pub struct TestListener {
    pub events: Vec<ExtendedChangeEvent>,
    pub priority: i32,
}

impl TestListener {
    /// A listener with no events and the given priority.
    pub fn new(priority: i32) -> (r: Self)
        ensures
            r.events@.len() == 0,
            r.priority == priority,
    {
        Self { events: Vec::new(), priority }
    }
}

impl ExtendedChangeListener for TestListener {
    fn on_extended_change(&mut self, event: &ExtendedChangeEvent) {
        self.events.push(event.clone());
    }

    fn priority(&self) -> i32 {
        self.priority
    }
}

impl Default for AdvancedChangeNotifier {
    fn default() -> (r: Self)
        ensures
            r.wf(),
            r.keys() == Seq::<(ListenerId, i32)>::empty(),
    {
        Self::new()
    }
}

} // verus!

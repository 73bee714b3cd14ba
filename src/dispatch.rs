use vstd::prelude::*;

use crate::event::{DeviceId, QueuedEvent, WindowEvent, WindowId};
use crate::event_loop::StartCause;

verus! {

/// The receiving end of a crossbeam channel, carried opaquely.
#[verifier::external_type_specification]
#[verifier::external_body]
#[verifier::reject_recursive_types(T)]
pub struct ExReceiver<T>(crossbeam_channel::Receiver<T>);

/// Why a crossbeam `try_recv` gave nothing: empty, or disconnected.
#[verifier::external_type_specification]
#[verifier::external_body]
pub struct ExTryRecvError(crossbeam_channel::TryRecvError);

/// Relies on crossbeam_channel::Receiver::try_recv: it takes a message that
/// is ready, if any, without blocking.  Which one depends on the senders, so
/// nothing is promised of it.
pub assume_specification<T>[ crossbeam_channel::Receiver::<T>::try_recv ](
    receiver: &crossbeam_channel::Receiver<T>,
) -> Result<T, crossbeam_channel::TryRecvError>;

/// Relies on crossbeam_channel::Receiver::try_iter: collects the messages
/// that are ready, in the order the channel delivers them, without
/// blocking.  What is ready depends on the senders.
#[verifier::external_body]
fn take_ready<T>(receiver: &crossbeam_channel::Receiver<T>) -> (r: Vec<T>) {
    receiver.try_iter().collect()
}

/// A channel receiver that can look at whether a message is waiting
/// without losing it: the message looked at is kept and handed out first.
#[verifier::reject_recursive_types(T)]
pub struct PeekableReceiver<T> {
    recv: crossbeam_channel::Receiver<T>,
    first: Option<T>,
}

impl<T> PeekableReceiver<T> {
    /// The message already taken from the channel and not yet handed out.
    pub closed spec fn first(&self) -> Option<T> {
        self.first
    }

    pub fn new(recv: crossbeam_channel::Receiver<T>) -> (r: Self)
        ensures
            r.first() is None,
    {
        PeekableReceiver { recv, first: None }
    }

    /// Whether a message is waiting.  A message looked at before stays;
    /// otherwise one is taken from the channel if ready and kept (see
    /// `keep_received`).
    pub fn has_incoming(&mut self) -> (r: bool)
        ensures
            r == final(self).first() is Some,
            old(self).first() is Some ==> r && final(self).first() == old(self).first(),
    {
        if self.first.is_some() {
            return true;
        }
        let got = self.recv.try_recv();
        self.keep_received(got)
    }

    /// Keeps what a `try_recv` on the channel gave, when it gave a message,
    /// and reports whether it did.
    pub fn keep_received(&mut self, got: Result<T, crossbeam_channel::TryRecvError>) -> (r: bool)
        requires
            old(self).first() is None,
        ensures
            got matches Ok(v) ==> r && final(self).first() == Some(v),
            got is Err ==> !r && final(self).first() is None,
    {
        match got {
            Ok(v) => {
                self.first = Some(v);
                true
            },
            Err(_) => false,
        }
    }

    /// Hands out the kept message if there is one, else whatever the
    /// channel has ready.
    pub fn try_recv(&mut self) -> (r: Result<T, crossbeam_channel::TryRecvError>)
        ensures
            final(self).first() is None,
            old(self).first() matches Some(v) ==> r == Ok::<T, crossbeam_channel::TryRecvError>(v),
    {
        match self.first.take() {
            Some(v) => Ok(v),
            None => self.recv.try_recv(),
        }
    }

    /// Hands out every message that is ready, the kept one first (see
    /// `with_kept`).
    pub fn drain(&mut self) -> (r: Vec<T>)
        ensures
            final(self).first() is None,
            exists|rest: Seq<T>| r@ == kept_then(old(self).first(), rest),
    {
        let rest = take_ready(&self.recv);
        let kept = self.first.take();
        let r = with_kept(kept, rest);
        proof {
            assert(r@ == kept_then(old(self).first(), rest@));
        }
        r
    }
}

/// The kept message, if any, followed by the rest.
pub open spec fn kept_then<T>(kept: Option<T>, rest: Seq<T>) -> Seq<T> {
    match kept {
        Some(v) => seq![v] + rest,
        None => rest,
    }
}

/// Puts the kept message, if any, in front of the messages taken after it.
pub fn with_kept<T>(kept: Option<T>, rest: Vec<T>) -> (r: Vec<T>)
    ensures
        r@ == kept_then(kept, rest@),
{
    match kept {
        Some(v) => {
            let mut all: Vec<T> = Vec::new();
            all.push(v);
            let mut rest = rest;
            all.append(&mut rest);
            all
        },
        None => rest,
    }
}

/// A call the driver makes into the application.
#[derive(Debug, Clone)]
pub enum AppCallback<D> {
    NewEvents(StartCause),
    CanCreateSurfaces,
    WindowEvent(WindowId, WindowEvent),
    DeviceEvent(Option<DeviceId>, D),
    ProxyWakeUp,
    AboutToWait,
}

/// The callback that delivers a queued event.
pub open spec fn callback_of<D>(event: QueuedEvent<D>) -> AppCallback<D> {
    match event {
        QueuedEvent::Window { id, event } => AppCallback::WindowEvent(id, event),
        QueuedEvent::Device { id, event } => AppCallback::DeviceEvent(Some(id), event),
    }
}

/// The callbacks that deliver queued events, one each, in order.
pub open spec fn callbacks_of<D>(events: Seq<QueuedEvent<D>>) -> Seq<AppCallback<D>> {
    events.map_values(|e: QueuedEvent<D>| callback_of(e))
}

/// The callbacks that open an iteration: the new cause, and on `Init` the
/// notice that surfaces may now be created.
pub open spec fn opening_of<D>(cause: StartCause) -> Seq<AppCallback<D>> {
    if cause is Init {
        seq![AppCallback::<D>::NewEvents(cause), AppCallback::<D>::CanCreateSurfaces]
    } else {
        seq![AppCallback::<D>::NewEvents(cause)]
    }
}

pub fn opening_callbacks<D>(cause: StartCause) -> (r: Vec<AppCallback<D>>)
    ensures
        r@ == opening_of::<D>(cause),
{
    let mut r: Vec<AppCallback<D>> = Vec::new();
    r.push(AppCallback::NewEvents(cause));
    if let StartCause::Init = cause {
        r.push(AppCallback::CanCreateSurfaces);
    }
    r
}

/// Delivers queued events in the order they arrived, one callback each.
pub fn event_callbacks<D>(events: Vec<QueuedEvent<D>>) -> (r: Vec<AppCallback<D>>)
    ensures
        r@ == events@.map_values(|e: QueuedEvent<D>| callback_of(e)),
{
    let ghost all = events@;
    let mut rest = events;
    let mut r: Vec<AppCallback<D>> = Vec::new();
    let ghost mut k: int = 0;
    while rest.len() > 0
        invariant
            0 <= k <= all.len(),
            k + rest@.len() == all.len(),
            rest@ == all.skip(k),
            r@ == all.take(k).map_values(|e: QueuedEvent<D>| callback_of(e)),
        decreases rest@.len(),
    {
        let event = rest.remove(0);
        proof {
            assert(all[k] == event);
        }
        let callback = match event {
            QueuedEvent::Window { id, event } => AppCallback::WindowEvent(id, event),
            QueuedEvent::Device { id, event } => AppCallback::DeviceEvent(Some(id), event),
        };
        r.push(callback);
        proof {
            assert(all.take(k + 1) == all.take(k).push(all[k]));
            k = k + 1;
            assert(rest@ == all.skip(k));
        }
    }
    proof {
        assert(all.take(k) == all);
    }
    r
}

/// Each window of `ids` once, at the place it first appears.
pub open spec fn first_occurrences(ids: Seq<WindowId>) -> Seq<WindowId>
    decreases ids.len(),
{
    if ids.len() == 0 {
        Seq::empty()
    } else {
        let d = first_occurrences(ids.drop_last());
        if d.contains(ids.last()) {
            d
        } else {
            d.push(ids.last())
        }
    }
}

/// The callback that delivers a redraw of one window.
pub open spec fn redraw_of<D>(id: WindowId) -> AppCallback<D> {
    AppCallback::WindowEvent(id, WindowEvent::RedrawRequested)
}

/// Collapses redraw requests to one per window, in the order each window
/// first asked.
pub fn coalesce_redraws(ids: &Vec<WindowId>) -> (r: Vec<WindowId>)
    ensures
        r@ == first_occurrences(ids@),
        r@.no_duplicates(),
        forall|id: WindowId| r@.contains(id) <==> ids@.contains(id),
{
    let mut r: Vec<WindowId> = Vec::new();
    let mut i: usize = 0;
    while i < ids.len()
        invariant
            i <= ids@.len(),
            r@ == first_occurrences(ids@.take(i as int)),
            r@.no_duplicates(),
            forall|id: WindowId| r@.contains(id) <==> ids@.take(i as int).contains(id),
        decreases ids@.len() - i,
    {
        let id = ids[i];
        let mut seen = false;
        let mut j: usize = 0;
        while j < r.len()
            invariant
                j <= r@.len(),
                seen <==> r@.take(j as int).contains(id),
            decreases r@.len() - j,
        {
            if r[j] == id {
                seen = true;
            }
            proof {
                assert(r@.take(j as int + 1) == r@.take(j as int).push(r@[j as int]));
                vstd::seq_lib::lemma_seq_contains_after_push(r@.take(j as int), r@[j as int], id);
            }
            j = j + 1;
        }
        proof {
            assert(r@.take(j as int) == r@);
            assert(ids@.take(i as int + 1) == ids@.take(i as int).push(id));
            assert(ids@.take(i as int + 1).drop_last() == ids@.take(i as int));
        }
        let ghost before = r@;
        if !seen {
            r.push(id);
        }
        proof {
            assert forall|x: WindowId| r@.contains(x) <==> ids@.take(i as int + 1).contains(x) by {
                vstd::seq_lib::lemma_seq_contains_after_push(ids@.take(i as int), id, x);
                vstd::seq_lib::lemma_seq_contains_after_push(before, id, x);
            }
        }
        i = i + 1;
    }
    proof {
        assert(ids@.take(i as int) == ids@);
    }
    r
}

/// Whether a callback is a redraw of one of `ids`.
pub open spec fn is_redraw_among<D>(callback: AppCallback<D>, ids: Seq<WindowId>) -> bool {
    match callback {
        AppCallback::WindowEvent(id, ev) => ev == WindowEvent::RedrawRequested && ids.contains(id),
        _ => false,
    }
}

/// One `RedrawRequested` per window that asked for a redraw since the last
/// iteration, however many times it asked, in the order each first asked.
pub fn redraw_callbacks<D>(ids: &Vec<WindowId>) -> (r: Vec<AppCallback<D>>)
    ensures
        r@ == first_occurrences(ids@).map_values(|id: WindowId| redraw_of::<D>(id)),
        forall|i: int, j: int| 0 <= i < j < r@.len() ==> r@[i] != r@[j],
        forall|i: int| 0 <= i < r@.len() ==> is_redraw_among(#[trigger] r@[i], ids@),
        forall|id: WindowId| ids@.contains(id) ==> r@.contains(redraw_of::<D>(id)),
{
    let windows = coalesce_redraws(ids);
    let mut r: Vec<AppCallback<D>> = Vec::new();
    let mut i: usize = 0;
    while i < windows.len()
        invariant
            i <= windows@.len(),
            r@ == windows@.take(i as int).map_values(|id: WindowId| redraw_of::<D>(id)),
        decreases windows@.len() - i,
    {
        r.push(AppCallback::WindowEvent(windows[i], WindowEvent::RedrawRequested));
        proof {
            assert(windows@.take(i as int + 1) == windows@.take(i as int).push(windows@[i as int]));
        }
        i = i + 1;
    }
    proof {
        assert(windows@.take(i as int) == windows@);
        assert forall|id: WindowId| ids@.contains(id) implies r@.contains(redraw_of::<D>(id)) by {
            let k = windows@.index_of(id);
            assert(r@[k] == redraw_of::<D>(id));
        }
        assert forall|k: int| 0 <= k < r@.len() implies is_redraw_among(#[trigger] r@[k], ids@) by {
            assert(windows@.contains(windows@[k]));
        }
        assert forall|a: int, b: int| 0 <= a < b < r@.len() implies r@[a] != r@[b] by {
            assert(windows@[a] != windows@[b]);
        }
    }
    r
}

/// The first part of an iteration: the opening callbacks, then the queued
/// events in arrival order.
pub fn iteration_head<D>(cause: StartCause, events: Vec<AppCallback<D>>) -> (r: Vec<AppCallback<D>>)
    ensures
        r@ == opening_of::<D>(cause) + events@,
{
    let mut r = opening_callbacks(cause);
    let mut events = events;
    r.append(&mut events);
    r
}

/// The wake-up callback, when a proxy woke the loop.
pub open spec fn wake_of<D>(proxy_woken: bool) -> Seq<AppCallback<D>> {
    if proxy_woken {
        seq![AppCallback::<D>::ProxyWakeUp]
    } else {
        Seq::empty()
    }
}

/// The last part of an iteration: the proxy wake-up if one came, the
/// redraws, and the notice that the loop is about to wait.
pub fn iteration_tail<D>(proxy_woken: bool, redraws: Vec<AppCallback<D>>) -> (r: Vec<
    AppCallback<D>,
>)
    ensures
        r@ == wake_of::<D>(proxy_woken) + redraws@ + seq![AppCallback::<D>::AboutToWait],
{
    let mut r: Vec<AppCallback<D>> = Vec::new();
    if proxy_woken {
        r.push(AppCallback::ProxyWakeUp);
    }
    let mut redraws = redraws;
    r.append(&mut redraws);
    r.push(AppCallback::AboutToWait);
    r
}

/// The order of one application iteration.
pub open spec fn iteration_order<D>(
    cause: StartCause,
    events: Seq<QueuedEvent<D>>,
    proxy_woken: bool,
    redraw_ids: Seq<WindowId>,
) -> Seq<AppCallback<D>> {
    opening_of::<D>(cause) + events.map_values(|e: QueuedEvent<D>| callback_of(e)) + wake_of::<D>(
        proxy_woken,
    ) + first_occurrences(redraw_ids).map_values(|id: WindowId| redraw_of::<D>(id)) + seq![
        AppCallback::<D>::AboutToWait,
    ]
}

/// Every callback of one iteration, in order: `NewEvents` (and
/// `CanCreateSurfaces` on `Init`), each queued event in arrival order, the
/// proxy wake-up if one came, one redraw per window that asked, and
/// `AboutToWait`.
pub fn iteration_callbacks<D>(
    cause: StartCause,
    events: Vec<QueuedEvent<D>>,
    proxy_woken: bool,
    redraw_ids: &Vec<WindowId>,
) -> (r: Vec<AppCallback<D>>)
    ensures
        r@ == iteration_order(cause, events@, proxy_woken, redraw_ids@),
{
    let mut head = iteration_head(cause, event_callbacks(events));
    let mut tail = iteration_tail(proxy_woken, redraw_callbacks(redraw_ids));
    head.append(&mut tail);
    proof {
        assert(head@ =~= iteration_order(cause, events@, proxy_woken, redraw_ids@));
    }
    head
}

/// The two queues that native signal handlers fill: window and device
/// events, and redraw requests.
#[verifier::reject_recursive_types(D)]
pub struct EventQueues<D> {
    pub events_rx: PeekableReceiver<QueuedEvent<D>>,
    pub redraw_rx: PeekableReceiver<WindowId>,
}

impl<D> EventQueues<D> {
    pub fn new(
        events_rx: crossbeam_channel::Receiver<QueuedEvent<D>>,
        redraw_rx: crossbeam_channel::Receiver<WindowId>,
    ) -> (r: Self)
        ensures
            r.events_rx.first() is None,
            r.redraw_rx.first() is None,
    {
        EventQueues {
            events_rx: PeekableReceiver::new(events_rx),
            redraw_rx: PeekableReceiver::new(redraw_rx),
        }
    }

    /// Whether anything awaits the application: a queued event, a redraw,
    /// a proxy wake-up or a native event.  Anything looked at is kept.
    pub fn has_pending(&mut self, proxy_woken: bool, native_pending: bool) -> (r: bool)
        ensures
            old(self).events_rx.first() is Some ==> r,
            old(self).redraw_rx.first() is Some ==> r,
            proxy_woken ==> r,
            native_pending ==> r,
            r ==> final(self).events_rx.first() is Some || final(self).redraw_rx.first() is Some
                || proxy_woken || native_pending,
            old(self).events_rx.first() is Some ==> final(self).events_rx.first() == old(
                self,
            ).events_rx.first(),
            old(self).redraw_rx.first() is Some ==> final(self).redraw_rx.first() == old(
                self,
            ).redraw_rx.first(),
    {
        if self.events_rx.has_incoming() {
            return true;
        }
        if self.redraw_rx.has_incoming() {
            return true;
        }
        proxy_woken || native_pending
    }

    /// Takes every queued event, in arrival order, as callbacks; an event
    /// looked at before comes first.
    pub fn drain_events(&mut self) -> (r: Vec<AppCallback<D>>)
        ensures
            final(self).events_rx.first() is None,
            final(self).redraw_rx == old(self).redraw_rx,
            exists|es: Seq<QueuedEvent<D>>|
                r@ == #[trigger] callbacks_of(es) && (old(self).events_rx.first() matches Some(e)
                    ==> es.len() >= 1 && es[0] == e),
    {
        let events = self.events_rx.drain();
        let ghost es = events@;
        let r = event_callbacks(events);
        proof {
            assert(r@ == callbacks_of(es));
            if let Some(e) = old(self).events_rx.first() {
                let rest = choose|rest: Seq<QueuedEvent<D>>| es == kept_then(Some(e), rest);
                assert(es[0] == e);
            }
        }
        r
    }

    /// Takes every pending redraw request and returns one `RedrawRequested`
    /// per window that asked, each once.
    pub fn drain_redraws(&mut self) -> (r: Vec<AppCallback<D>>)
        ensures
            final(self).redraw_rx.first() is None,
            final(self).events_rx == old(self).events_rx,
            forall|i: int, j: int| 0 <= i < j < r@.len() ==> r@[i] != r@[j],
            forall|i: int|
                0 <= i < r@.len() ==> (#[trigger] r@[i] matches AppCallback::WindowEvent(_, ev)
                    && ev == WindowEvent::RedrawRequested),
            old(self).redraw_rx.first() matches Some(id) ==> r@.contains(redraw_of::<D>(id)),
    {
        let ids = self.redraw_rx.drain();
        let r = redraw_callbacks(&ids);
        proof {
            if let Some(id) = old(self).redraw_rx.first() {
                let rest = choose|rest: Seq<WindowId>| ids@ == kept_then(Some(id), rest);
                assert(ids@[0] == id);
                assert(ids@.contains(ids@[0]));
            }
            assert forall|i: int| 0 <= i < r@.len() implies (#[trigger] r@[i] matches AppCallback::WindowEvent(_, ev)
                && ev == WindowEvent::RedrawRequested) by {
                assert(is_redraw_among(r@[i], ids@));
            }
        }
        r
    }
}

} // verus!

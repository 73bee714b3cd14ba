use std::collections::HashMap;

use vstd::prelude::*;

use crate::event::WindowId;

verus! {

broadcast use vstd::std_specs::hash::group_hash_axioms;

/// A mutation of one window, issued from any thread and applied on the
/// main-loop thread.  `G` and `B` are deferred work that runs against the
/// native window and against its optional content box.
pub enum WindowRequest<G, B> {
    Title(String),
    Visible(bool),
    Resizable(bool),
    Destroy,
    WithGtkWindow(G),
    WithDefaultVbox(B),
    WireUpEvents { transparent_draw: bool, pointer_moved: bool, fullscreen: bool },
}

/// What the main-loop thread must do to a native window as the result of
/// one request.  `Destroy` hands back the registry entry that was removed,
/// so that its native object is released.
pub enum NativeOp<W, G, B> {
    Destroy(W),
    SetTitle(WindowId, String),
    Show(WindowId),
    Hide(WindowId),
    SetResizable(WindowId, bool),
    WithGtkWindow(WindowId, G),
    WithDefaultVbox(WindowId, B),
    WireUpEvents { id: WindowId, transparent_draw: bool, pointer_moved: bool, fullscreen: bool },
}

/// The operation, if the window is registered.
pub open spec fn if_registered<W, G, B>(registered: bool, op: NativeOp<W, G, B>) -> Option<
    NativeOp<W, G, B>,
> {
    if registered {
        Some(op)
    } else {
        None
    }
}

/// One request applied to the registry `m`: `Destroy` removes the entry
/// and releases it; any other request acts on a registered window; a
/// request for an id that is not registered does nothing.
pub open spec fn request_step<W, G, B>(
    m: Map<u64, W>,
    id: WindowId,
    request: WindowRequest<G, B>,
) -> (Map<u64, W>, Option<NativeOp<W, G, B>>) {
    let registered = m.contains_key(id.raw);
    match request {
        WindowRequest::Destroy => if registered {
            (m.remove(id.raw), Some(NativeOp::Destroy(m[id.raw])))
        } else {
            (m, None)
        },
        WindowRequest::Title(title) => (m, if_registered(registered, NativeOp::SetTitle(id, title))),
        WindowRequest::Visible(visible) => (
            m,
            if_registered(
                registered,
                if visible {
                    NativeOp::Show(id)
                } else {
                    NativeOp::Hide(id)
                },
            ),
        ),
        WindowRequest::Resizable(resizable) => (
            m,
            if_registered(registered, NativeOp::SetResizable(id, resizable)),
        ),
        WindowRequest::WithGtkWindow(f) => (m, if_registered(registered, NativeOp::WithGtkWindow(id, f))),
        WindowRequest::WithDefaultVbox(f) => (
            m,
            if_registered(registered, NativeOp::WithDefaultVbox(id, f)),
        ),
        WindowRequest::WireUpEvents { transparent_draw, pointer_moved, fullscreen } => (
            m,
            if_registered(
                registered,
                NativeOp::WireUpEvents { id, transparent_draw, pointer_moved, fullscreen },
            ),
        ),
    }
}

/// A sequence of requests applied one after another, in order: the
/// registry left at the end and the operation each request gave.
pub open spec fn request_run<W, G, B>(
    m: Map<u64, W>,
    requests: Seq<(WindowId, WindowRequest<G, B>)>,
) -> (Map<u64, W>, Seq<Option<NativeOp<W, G, B>>>)
    decreases requests.len(),
{
    if requests.len() == 0 {
        (m, Seq::empty())
    } else {
        let prev = request_run(m, requests.drop_last());
        let last = requests.last();
        let step = request_step(prev.0, last.0, last.1);
        (step.0, prev.1.push(step.1))
    }
}

/// The registry of live windows, keyed by their id.
pub struct WindowRegistry<W> {
    windows: HashMap<u64, W>,
}

impl<W> WindowRegistry<W> {
    pub closed spec fn view(&self) -> Map<u64, W> {
        self.windows@
    }

    pub fn new() -> (r: Self)
        ensures
            r.view() == Map::<u64, W>::empty(),
    {
        WindowRegistry { windows: HashMap::new() }
    }

    /// Registers a window that was just constructed.
    pub fn insert(&mut self, id: WindowId, window: W)
        ensures
            final(self).view() == old(self).view().insert(id.raw, window),
    {
        self.windows.insert(id.raw, window);
    }

    pub fn get(&self, id: WindowId) -> (r: Option<&W>)
        ensures
            match r {
                Some(w) => self.view().contains_key(id.raw) && *w == self.view()[id.raw],
                None => !self.view().contains_key(id.raw),
            },
    {
        self.windows.get(&id.raw)
    }

    pub fn contains(&self, id: WindowId) -> (r: bool)
        ensures
            r == self.view().contains_key(id.raw),
    {
        self.windows.contains_key(&id.raw)
    }

    pub fn len(&self) -> (r: usize)
        ensures
            r == self.view().len(),
    {
        self.windows.len()
    }

    /// Applies one request; see `request_step`.
    pub fn handle_window_request<G, B>(
        &mut self,
        id: WindowId,
        request: WindowRequest<G, B>,
    ) -> (op: Option<NativeOp<W, G, B>>)
        ensures
            (final(self).view(), op) == request_step(old(self).view(), id, request),
    {
        let registered = self.windows.contains_key(&id.raw);
        match request {
            WindowRequest::Destroy => match self.windows.remove(&id.raw) {
                Some(window) => Some(NativeOp::Destroy(window)),
                None => None,
            },
            WindowRequest::Title(title) => if registered {
                Some(NativeOp::SetTitle(id, title))
            } else {
                None
            },
            WindowRequest::Visible(visible) => if !registered {
                None
            } else if visible {
                Some(NativeOp::Show(id))
            } else {
                Some(NativeOp::Hide(id))
            },
            WindowRequest::Resizable(resizable) => if registered {
                Some(NativeOp::SetResizable(id, resizable))
            } else {
                None
            },
            WindowRequest::WithGtkWindow(f) => if registered {
                Some(NativeOp::WithGtkWindow(id, f))
            } else {
                None
            },
            WindowRequest::WithDefaultVbox(f) => if registered {
                Some(NativeOp::WithDefaultVbox(id, f))
            } else {
                None
            },
            WindowRequest::WireUpEvents { transparent_draw, pointer_moved, fullscreen } => {
                if registered {
                    Some(NativeOp::WireUpEvents { id, transparent_draw, pointer_moved, fullscreen })
                } else {
                    None
                }
            },
        }
    }

    /// Applies a batch of requests in the order they were sent and returns
    /// the operation of each, position for position.
    pub fn handle_window_requests<G, B>(
        &mut self,
        requests: Vec<(WindowId, WindowRequest<G, B>)>,
    ) -> (ops: Vec<Option<NativeOp<W, G, B>>>)
        ensures
            (final(self).view(), ops@) == request_run(old(self).view(), requests@),
    {
        let ghost all = requests@;
        let ghost start = self.view();
        let mut rest = requests;
        let mut ops: Vec<Option<NativeOp<W, G, B>>> = Vec::new();
        let ghost mut k: int = 0;
        while rest.len() > 0
            invariant
                0 <= k <= all.len(),
                k + rest@.len() == all.len(),
                rest@ == all.skip(k),
                (self.view(), ops@) == request_run(start, all.take(k)),
            decreases rest@.len(),
        {
            let (id, request) = rest.remove(0);
            proof {
                assert(all.take(k + 1).drop_last() == all.take(k));
                assert(all.take(k + 1).last() == all[k]);
                assert(all[k] == (id, request));
            }
            let op = self.handle_window_request(id, request);
            ops.push(op);
            proof {
                k = k + 1;
                assert(rest@ == all.skip(k));
            }
        }
        proof {
            assert(all.take(k) == all);
        }
        ops
    }
}

/// Requests take effect in the order they were sent: the operation for the
/// `k`-th request is that request applied to the registry exactly as the
/// requests before it left it.
pub proof fn lemma_requests_applied_in_send_order<W, G, B>(
    m: Map<u64, W>,
    requests: Seq<(WindowId, WindowRequest<G, B>)>,
    k: int,
)
    requires
        0 <= k < requests.len(),
    ensures
        request_run(m, requests).1.len() == requests.len(),
        request_run(m, requests).1[k] == request_step(
            request_run(m, requests.take(k)).0,
            requests[k].0,
            requests[k].1,
        ).1,
    decreases requests.len(),
{
    lemma_run_len(m, requests);
    if k == requests.len() - 1 {
        assert(requests.drop_last() == requests.take(k));
    } else {
        lemma_requests_applied_in_send_order(m, requests.drop_last(), k);
        assert(requests.drop_last().take(k) == requests.take(k));
        assert(requests.drop_last()[k] == requests[k]);
    }
}

proof fn lemma_run_len<W, G, B>(m: Map<u64, W>, requests: Seq<(WindowId, WindowRequest<G, B>)>)
    ensures
        request_run(m, requests).1.len() == requests.len(),
    decreases requests.len(),
{
    if requests.len() > 0 {
        lemma_run_len(m, requests.drop_last());
    }
}

/// A request sent after `Destroy` for the same window does nothing: the
/// entry is gone, and the registry is left as the destroy left it.
pub proof fn lemma_destroy_then_mutate<W, G, B>(
    m: Map<u64, W>,
    id: WindowId,
    request: WindowRequest<G, B>,
)
    ensures
        ({
            let run = request_run(m, seq![(id, WindowRequest::Destroy), (id, request)]);
            &&& run.0 == m.remove(id.raw)
            &&& run.1.len() == 2
            &&& run.1[1] is None
            &&& m.contains_key(id.raw) ==> run.1[0] == Some(NativeOp::<W, G, B>::Destroy(m[id.raw]))
        }),
{
    let reqs = seq![(id, WindowRequest::<G, B>::Destroy), (id, request)];
    let first = seq![(id, WindowRequest::<G, B>::Destroy)];
    assert(reqs.drop_last() == first);
    assert(first.drop_last() == Seq::<(WindowId, WindowRequest<G, B>)>::empty());
    let r0 = request_run(m, first.drop_last());
    assert(r0 == (m, Seq::<Option<NativeOp<W, G, B>>>::empty()));
    let r1 = request_run(m, first);
    assert(r1.0 == request_step(m, id, WindowRequest::<G, B>::Destroy).0);
    assert(r1.1 == seq![request_step(m, id, WindowRequest::<G, B>::Destroy).1]);
    let r2 = request_run(m, reqs);
    assert(r2.0 == request_step(r1.0, id, request).0);
    assert(r2.1 == r1.1.push(request_step(r1.0, id, request).1));
    assert(!r1.0.contains_key(id.raw));
    if !m.contains_key(id.raw) {
        assert(m.remove(id.raw) == m);
    }
}

} // verus!

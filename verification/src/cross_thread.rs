//! Exactly-once transfer of callbacks from any thread to the UI thread.
//!
//! A worker schedules a callback by posting the reserved message id whose
//! two parameter fields carry a self-tag and a payload reference. The
//! dispatcher owns every pending payload; the UI thread reclaims one by
//! handing the retrieved message back, which empties the slot so no payload
//! is ever decoded or freed twice. A message whose self-tag does not match
//! is never dereferenced and leaves everything untouched.

use vstd::prelude::*;
use vstd::pervasive::VecAdditionalExecFns;
use crate::events::HandlerId;
use crate::handle::Hwnd;
use crate::msg::{ref_to_lparam, Msg, WndMsg, WM_UI_THREAD};

verus! {

/// A single-use, argument-less callback in flight between a poster and the
/// UI thread. Move-only: it is built once, transferred once and consumed
/// once; it is never copied.
#[derive(Debug)]
pub struct CrossThreadPayload {
    callback: HandlerId,
}

impl CrossThreadPayload {
    /// The embedder-side callback this payload stands for.
    pub closed spec fn spec_callback(self) -> HandlerId {
        self.callback
    }

    /// Wraps a callback for transfer.
    pub fn new(callback: HandlerId) -> (r: CrossThreadPayload)
        ensures
            r.spec_callback() == callback,
    {
        CrossThreadPayload { callback }
    }

    /// The embedder-side callback this payload stands for.
    pub fn callback(&self) -> (r: HandlerId)
        ensures
            r == self.spec_callback(),
    {
        self.callback
    }
}

/// The most payloads that may be pending at once, so that every slot key
/// still fits in an LPARAM field.
pub const MAX_PENDING_PAYLOADS: usize = 0x7fff_ffff;

/// Owner of every payload in flight to the UI thread.
pub struct CrossThreadDispatcher {
    slots: Vec<Option<CrossThreadPayload>>,
    leaked: Vec<CrossThreadPayload>,
}

impl CrossThreadDispatcher {
    /// The payload slots: a posted payload sits at its key until the UI
    /// thread reclaims it, which empties the slot.
    pub closed spec fn pending(self) -> Seq<Option<CrossThreadPayload>> {
        self.slots@
    }

    /// Payloads whose target root window could not be resolved at post time:
    /// they are kept forever and never invoked, a documented limitation.
    pub closed spec fn leaked(self) -> Seq<CrossThreadPayload> {
        self.leaked@
    }

    /// Whether a message carries a payload reference: the reserved id with
    /// the matching self-tag in its first parameter field.
    pub open spec fn is_payload_msg(wm: WndMsg) -> bool {
        wm.msg_id == WM_UI_THREAD && wm.wparam == WM_UI_THREAD as usize
    }

    /// A dispatcher with nothing in flight.
    pub fn new() -> (r: CrossThreadDispatcher)
        ensures
            r.pending() == Seq::<Option<CrossThreadPayload>>::empty(),
            r.leaked() == Seq::<CrossThreadPayload>::empty(),
    {
        CrossThreadDispatcher { slots: Vec::new(), leaked: Vec::new() }
    }

    /// How many slots have been handed out so far.
    pub fn pending_count(&self) -> (r: usize)
        ensures
            r == self.pending().len(),
    {
        self.slots.len()
    }

    /// Takes ownership of `payload` and builds the message that carries it
    /// to `root`, the target's root ancestor as resolved by the substrate.
    /// When no root could be resolved the payload is leaked — kept but never
    /// invoked — and nothing is posted; this mirrors the substrate's
    /// behavior and is a documented limitation, not a failure.
    pub fn post(&mut self, root: Option<Hwnd>, payload: CrossThreadPayload) -> (m: Option<Msg>)
        requires
            old(self).pending().len() < MAX_PENDING_PAYLOADS,
        ensures
            root matches Some(h) ==> {
                &&& final(self).pending() == old(self).pending().push(Some(payload))
                &&& final(self).leaked() == old(self).leaked()
                &&& m == Some(
                    Msg {
                        hwnd: h,
                        wm: WndMsg {
                            msg_id: WM_UI_THREAD,
                            wparam: WM_UI_THREAD as usize,
                            lparam: old(self).pending().len() as isize,
                        },
                    },
                )
            },
            root is None ==> {
                &&& final(self).pending() == old(self).pending()
                &&& final(self).leaked() == old(self).leaked().push(payload)
                &&& m is None
            },
    {
        match root {
            Some(h) => {
                let key = self.slots.len();
                let lp = ref_to_lparam(key);
                self.slots.push(Some(payload));
                Some(
                    Msg {
                        hwnd: h,
                        wm: WndMsg {
                            msg_id: WM_UI_THREAD,
                            wparam: WM_UI_THREAD as usize,
                            lparam: lp,
                        },
                    },
                )
            },
            None => {
                self.leaked.push(payload);
                None
            },
        }
    }

    /// UI-thread side: reclaims the payload a retrieved message refers to.
    /// On the matching self-tag and a still-occupied slot the payload is
    /// handed out exactly once and its slot emptied; in every other case —
    /// wrong tag, unknown key, or a slot already reclaimed — nothing is
    /// touched and nothing is returned.
    pub fn handle(&mut self, wm: &WndMsg) -> (r: Option<CrossThreadPayload>)
        ensures
            final(self).leaked() == old(self).leaked(),
            ({
                let k = wm.lparam as int;
                if Self::is_payload_msg(*wm) && 0 <= k < old(self).pending().len() && old(
                    self,
                ).pending()[k] is Some {
                    &&& old(self).pending()[k] matches Some(p) && r == Some(p)
                    &&& final(self).pending() == old(self).pending().update(k, None)
                } else {
                    &&& r is None
                    &&& *final(self) == *old(self)
                }
            }),
    {
        if wm.msg_id != WM_UI_THREAD || wm.wparam != WM_UI_THREAD as usize {
            return None;
        }
        if wm.lparam < 0 {
            return None;
        }
        let k = wm.lparam as usize;
        if k >= self.slots.len() {
            return None;
        }
        let cb: HandlerId;
        match &self.slots[k] {
            Some(p) => {
                cb = p.callback;
            },
            None => {
                return None;
            },
        }
        self.slots.set(k, None);
        Some(CrossThreadPayload { callback: cb })
    }
}

/// Law: a payload posted under a fresh key is invoked exactly once and
/// leaks nothing. Posting stores the payload under a key no earlier payload
/// uses; the first reclaim of that key yields exactly that payload and
/// empties its slot, so a second reclaim of the same key yields nothing;
/// and neither step touches any other pending payload.
pub proof fn lemma_payload_reclaimed_exactly_once(
    pending: Seq<Option<CrossThreadPayload>>,
    p: CrossThreadPayload,
)
    ensures
        ({
            let k = pending.len() as int;
            let posted = pending.push(Some(p));
            &&& posted.len() == pending.len() + 1
            &&& posted[k] == Some(p)
            &&& posted.update(k, None)[k] is None
            &&& forall|j: int| 0 <= j < k ==> posted[j] == pending[j]
            &&& forall|j: int| 0 <= j < k ==> posted.update(k, None)[j] == pending[j]
        }),
{
}

} // verus!

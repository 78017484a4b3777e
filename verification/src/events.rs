//! Handler registries and the per-call dispatch run.
//!
//! A table is an ordered multimap from message id to handlers, parameterized
//! by a dispatch policy: under OVERWRITE a new registration replaces any
//! prior one for the same id, so at most one handler fires; under ACCUMULATE
//! every registration is kept and all fire, in registration order.
//!
//! Handler bodies live with the embedder; the table stores the identifiers
//! the embedder chose for them, and dispatch hands identifiers back one at a
//! time through a [`DispatchRun`], which enforces the in-order,
//! at-most-once, stop-on-failure discipline.

use vstd::prelude::*;
use crate::error::GuiError;
use crate::msg::WndMsg;

verus! {

/// Identifies one handler owned by the embedder.
#[derive(Clone, Copy, Debug, PartialEq, Eq, Structural)]
pub struct HandlerId {
    pub raw: u64,
}

/// How a table reacts to repeated registrations on one message id.
#[derive(Clone, Copy, Debug, PartialEq, Eq, Structural)]
pub enum DispatchPolicy {
    /// A new registration replaces any prior one; at most one handler fires.
    Overwrite,
    /// All registrations are kept; all fire, in registration order.
    Accumulate,
}

/// One registration: a message id and the handler registered for it.
#[derive(Clone, Copy, Debug, PartialEq, Eq, Structural)]
pub struct EventEntry {
    pub msg_id: u32,
    pub handler: HandlerId,
}

/// The handlers registered for `id` in `log`, in registration order.
pub open spec fn handlers_of(log: Seq<EventEntry>, id: u32) -> Seq<HandlerId>
    decreases log.len(),
{
    if log.len() == 0 {
        Seq::empty()
    } else {
        let init = handlers_of(log.drop_last(), id);
        if log.last().msg_id == id {
            init.push(log.last().handler)
        } else {
            init
        }
    }
}

/// Registering one more entry extends the handlers of its own id by that
/// handler and leaves every other id's handlers unchanged.
pub proof fn lemma_handlers_of_push(log: Seq<EventEntry>, e: EventEntry, id: u32)
    ensures
        handlers_of(log.push(e), id) == if e.msg_id == id {
            handlers_of(log, id).push(e.handler)
        } else {
            handlers_of(log, id)
        },
{
    assert(log.push(e).drop_last() =~= log);
    assert(log.push(e).last() == e);
}

/// An id-to-handlers registry with a dispatch policy.
pub struct EventTable {
    policy: DispatchPolicy,
    entries: Vec<EventEntry>,
}

impl EventTable {
    /// The dispatch policy this table was built with.
    pub closed spec fn policy(self) -> DispatchPolicy {
        self.policy
    }

    /// The registration log: every registration since the last clear, in
    /// order.
    pub closed spec fn log(self) -> Seq<EventEntry> {
        self.entries@
    }

    /// The handlers registered for `id`, in registration order.
    pub open spec fn registered(self, id: u32) -> Seq<HandlerId> {
        handlers_of(self.log(), id)
    }

    /// The handlers dispatch invokes for `id`: under OVERWRITE only the most
    /// recent registration, under ACCUMULATE all of them in order.
    pub open spec fn selection(self, id: u32) -> Seq<HandlerId> {
        match self.policy() {
            DispatchPolicy::Overwrite => if self.registered(id).len() == 0 {
                Seq::empty()
            } else {
                seq![self.registered(id).last()]
            },
            DispatchPolicy::Accumulate => self.registered(id),
        }
    }

    /// An empty table with the given policy.
    pub fn new(policy: DispatchPolicy) -> (r: EventTable)
        ensures
            r.policy() == policy,
            r.log() == Seq::<EventEntry>::empty(),
    {
        EventTable { policy, entries: Vec::new() }
    }

    /// Appends a registration for `msg_id`.
    pub fn register(&mut self, msg_id: u32, handler: HandlerId)
        ensures
            final(self).policy() == old(self).policy(),
            final(self).log() == old(self).log().push(EventEntry { msg_id, handler }),
    {
        self.entries.push(EventEntry { msg_id, handler });
    }

    /// Removes all registrations; the policy is kept.
    pub fn clear(&mut self)
        ensures
            final(self).policy() == old(self).policy(),
            final(self).log() == Seq::<EventEntry>::empty(),
    {
        self.entries.clear();
    }

    /// The handlers dispatch would invoke for `id`, per the policy.
    pub fn handlers_for(&self, id: u32) -> (r: Vec<HandlerId>)
        ensures
            r@ == self.selection(id),
    {
        match self.policy {
            DispatchPolicy::Accumulate => {
                let mut out: Vec<HandlerId> = Vec::new();
                let mut i: usize = 0;
                while i < self.entries.len()
                    invariant
                        i <= self.entries.len(),
                        out@ == handlers_of(self.entries@.take(i as int), id),
                    decreases self.entries.len() - i,
                {
                    let e = self.entries[i];
                    proof {
                        assert(self.entries@.take(i + 1) =~= self.entries@.take(i as int).push(e));
                        lemma_handlers_of_push(self.entries@.take(i as int), e, id);
                    }
                    if e.msg_id == id {
                        out.push(e.handler);
                    }
                    i = i + 1;
                }
                proof {
                    assert(self.entries@.take(self.entries@.len() as int) =~= self.entries@);
                }
                out
            },
            DispatchPolicy::Overwrite => {
                let mut cur: Option<HandlerId> = None;
                let mut i: usize = 0;
                while i < self.entries.len()
                    invariant
                        i <= self.entries.len(),
                        cur == last_opt(handlers_of(self.entries@.take(i as int), id)),
                    decreases self.entries.len() - i,
                {
                    let e = self.entries[i];
                    proof {
                        assert(self.entries@.take(i + 1) =~= self.entries@.take(i as int).push(e));
                        lemma_handlers_of_push(self.entries@.take(i as int), e, id);
                    }
                    if e.msg_id == id {
                        cur = Some(e.handler);
                    }
                    i = i + 1;
                }
                proof {
                    assert(self.entries@.take(self.entries@.len() as int) =~= self.entries@);
                }
                let mut out: Vec<HandlerId> = Vec::new();
                match cur {
                    Some(h) => {
                        out.push(h);
                        proof {
                            assert(out@ =~= self.selection(id));
                        }
                    },
                    None => {
                        proof {
                            assert(out@ =~= self.selection(id));
                        }
                    },
                }
                out
            },
        }
    }

    /// OVERWRITE dispatch: the single handler to invoke for the message, or
    /// nothing when the id is unhandled.
    pub fn process_one(&self, wm: &WndMsg) -> (r: Option<HandlerId>)
        requires
            self.policy() is Overwrite,
        ensures
            r == last_opt(self.registered(wm.msg_id)),
            r matches Some(h) ==> self.selection(wm.msg_id) == seq![h],
            r is None ==> self.selection(wm.msg_id) == Seq::<HandlerId>::empty(),
    {
        let sel = self.handlers_for(wm.msg_id);
        if sel.len() > 0 {
            Some(sel[0])
        } else {
            None
        }
    }

    /// ACCUMULATE dispatch: a run over every handler registered for the
    /// message, in registration order.
    pub fn process_all(&self, wm: &WndMsg) -> (r: DispatchRun)
        requires
            self.policy() is Accumulate,
        ensures
            r.plan() == self.registered(wm.msg_id),
            r.next_index() == 0,
            r.failure() is None,
            r.wf(),
    {
        DispatchRun::new(self.handlers_for(wm.msg_id))
    }
}

/// The last element of a handler sequence, if any.
pub open spec fn last_opt(s: Seq<HandlerId>) -> Option<HandlerId> {
    if s.len() == 0 {
        None
    } else {
        Some(s.last())
    }
}

/// One dispatch call in progress: hands out the planned handlers one at a
/// time, in order, each at most once, and stops early when a failure is
/// reported.
pub struct DispatchRun {
    plan: Vec<HandlerId>,
    next: usize,
    failure: Option<u32>,
}

impl DispatchRun {
    /// The handlers this run will invoke, in order.
    pub closed spec fn plan(self) -> Seq<HandlerId> {
        self.plan@
    }

    /// How many handlers have been handed out.
    pub closed spec fn next_index(self) -> int {
        self.next as int
    }

    /// The failure code reported by the earliest failing handler, if any.
    pub closed spec fn failure(self) -> Option<u32> {
        self.failure
    }

    pub open spec fn wf(self) -> bool {
        0 <= self.next_index() <= self.plan().len()
    }

    /// The handlers handed out so far, in order.
    pub open spec fn fired(self) -> Seq<HandlerId> {
        self.plan().take(self.next_index())
    }

    /// Whether the run hands out no further handler: either all have fired
    /// or an earlier one failed.
    pub open spec fn is_done(self) -> bool {
        self.next_index() == self.plan().len() || self.failure() is Some
    }

    /// A fresh run over `plan`.
    pub fn new(plan: Vec<HandlerId>) -> (r: DispatchRun)
        ensures
            r.plan() == plan@,
            r.next_index() == 0,
            r.failure() is None,
            r.wf(),
    {
        DispatchRun { plan, next: 0, failure: None }
    }

    /// The next handler to invoke, or nothing when the run is done. After a
    /// reported failure the remaining handlers are skipped.
    pub fn next_handler(&mut self) -> (r: Option<HandlerId>)
        requires
            old(self).wf(),
        ensures
            final(self).wf(),
            final(self).plan() == old(self).plan(),
            final(self).failure() == old(self).failure(),
            old(self).is_done() ==> r is None && final(self).next_index() == old(
                self,
            ).next_index(),
            !old(self).is_done() ==> {
                &&& r == Some(old(self).plan()[old(self).next_index()])
                &&& final(self).next_index() == old(self).next_index() + 1
                &&& final(self).fired() == old(self).fired().push(
                    old(self).plan()[old(self).next_index()],
                )
            },
    {
        if self.failure.is_some() {
            return None;
        }
        if self.next < self.plan.len() {
            let h = self.plan[self.next];
            self.next = self.next + 1;
            proof {
                assert(self.plan@.take(self.next as int) =~= self.plan@.take(
                    self.next - 1,
                ).push(h));
            }
            Some(h)
        } else {
            None
        }
    }

    /// Records that the most recently handed-out handler failed with `code`.
    /// The remaining handlers of this run are skipped and the first reported
    /// failure is the one that propagates.
    pub fn report_failure(&mut self, code: u32)
        ensures
            final(self).plan() == old(self).plan(),
            final(self).next_index() == old(self).next_index(),
            final(self).failure() == if old(self).failure() is Some {
                old(self).failure()
            } else {
                Some(code)
            },
    {
        if self.failure.is_none() {
            self.failure = Some(code);
        }
    }

    /// The propagated result of the run: the first failure, or success.
    pub fn outcome(&self) -> (r: Result<(), GuiError>)
        ensures
            r == match self.failure() {
                Some(c) => Result::<(), GuiError>::Err(GuiError::HandlerFailure(c)),
                None => Result::<(), GuiError>::Ok(()),
            },
    {
        match self.failure {
            Some(c) => Err(GuiError::HandlerFailure(c)),
            None => Ok(()),
        }
    }
}

/// Law: in an OVERWRITE table, registering `h` for `id` makes `h` the whole
/// selection for `id`: only the most recently registered handler is ever
/// invoked, whatever stood in the table before.
pub proof fn lemma_overwrite_last_registration_wins(
    t1: EventTable,
    t2: EventTable,
    id: u32,
    h: HandlerId,
)
    requires
        t1.policy() is Overwrite,
        t2.policy() == t1.policy(),
        t2.log() == t1.log().push(EventEntry { msg_id: id, handler: h }),
    ensures
        t2.selection(id) == seq![h],
{
    lemma_handlers_of_push(t1.log(), EventEntry { msg_id: id, handler: h }, id);
    assert(t2.selection(id) =~= seq![h]);
}

/// Law: in an ACCUMULATE table the selection for an id is every handler
/// registered for it, in registration order.
pub proof fn lemma_accumulate_selects_all(t: EventTable, id: u32)
    requires
        t.policy() is Accumulate,
    ensures
        t.selection(id) == t.registered(id),
{
}

/// Law: the handlers a dispatch run has handed out are a prefix of its plan:
/// they fire in registration order and none fires twice.
pub proof fn lemma_run_fires_prefix_in_order(run: DispatchRun)
    requires
        run.wf(),
    ensures
        run.fired().len() <= run.plan().len(),
        forall|i: int| 0 <= i < run.fired().len() ==> run.fired()[i] == run.plan()[i],
{
}

/// Law: once a failure is reported the run is done: every handler planned
/// after the failing one is skipped for that call.
pub proof fn lemma_run_failure_skips_rest(run: DispatchRun)
    requires
        run.failure() is Some,
    ensures
        run.is_done(),
{
}

/// Law: a run that reached its end with no reported failure has fired every
/// planned handler exactly once, in order.
pub proof fn lemma_run_complete_fires_all(run: DispatchRun)
    requires
        run.wf(),
        run.is_done(),
        run.failure() is None,
    ensures
        run.fired() == run.plan(),
{
    assert(run.plan().take(run.plan().len() as int) =~= run.plan());
}

} // verus!

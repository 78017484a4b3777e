//! The retrieve/route/dispatch rules of the main message loop.
//!
//! The blocking retrieval itself is the substrate's; the embedder pumps it
//! and feeds each outcome into these decision functions. Per retrieved
//! message the order is fixed: an active accelerator table may consume it;
//! else, dialog keyboard navigation may consume it; else it is translated
//! and dispatched unconditionally. A handler failure during dispatch never
//! unwinds past the loop: the first such error is remembered in the
//! fatal-error slot, a quit is posted, and the loop keeps pumping until
//! that quit is retrieved, so no pending message is abandoned mid-decode.

use vstd::prelude::*;
use crate::error::GuiError;
use crate::handle::Haccel;

verus! {

/// What one blocking retrieval produced, together with what the embedder's
/// pre-filters and dispatch reported for it.
#[derive(Clone, Copy, Debug, PartialEq, Eq)]
pub enum LoopEvent {
    /// An ordinary message was retrieved. `accel_consumed` and
    /// `dialog_consumed` are what the accelerator and dialog-navigation
    /// primitives reported; `dispatch_error` is the first error the
    /// message's handlers produced, if any.
    Received { accel_consumed: bool, dialog_consumed: bool, dispatch_error: Option<GuiError> },
    /// A quit signal was retrieved, carrying the exit code.
    Quit { code: i32 },
    /// The retrieval primitive itself failed, with a system error code.
    Failed { err_code: u32 },
}

/// Which step of the fixed order consumed a retrieved message.
#[derive(Clone, Copy, Debug, PartialEq, Eq, Structural)]
pub enum MessageRoute {
    /// The active accelerator table translated the message; nothing else
    /// sees it.
    Accelerator,
    /// Dialog keyboard navigation consumed the message; nothing else sees
    /// it.
    DialogNavigation,
    /// Generic translate+dispatch handles the message.
    TranslateDispatch,
}

/// The fixed routing of one retrieved message: accelerator first (only
/// while a table is active), then dialog navigation, then generic
/// translate+dispatch.
pub open spec fn spec_route(
    accel_active: bool,
    accel_consumed: bool,
    dialog_consumed: bool,
) -> MessageRoute {
    if accel_active && accel_consumed {
        MessageRoute::Accelerator
    } else if dialog_consumed {
        MessageRoute::DialogNavigation
    } else {
        MessageRoute::TranslateDispatch
    }
}

/// Decides which step consumes a retrieved message. Each step either fully
/// consumes the message or defers to the next; a message the accelerator
/// table consumed is never translated and dispatched generically.
pub fn route_message(accel_active: bool, accel_consumed: bool, dialog_consumed: bool) -> (r:
    MessageRoute)
    ensures
        r == spec_route(accel_active, accel_consumed, dialog_consumed),
        r is Accelerator <==> (accel_active && accel_consumed),
        r is DialogNavigation <==> (!(accel_active && accel_consumed) && dialog_consumed),
        r is TranslateDispatch <==> (!(accel_active && accel_consumed) && !dialog_consumed),
{
    if accel_active && accel_consumed {
        MessageRoute::Accelerator
    } else if dialog_consumed {
        MessageRoute::DialogNavigation
    } else {
        MessageRoute::TranslateDispatch
    }
}

/// The UI-thread fatal-error slot: written during dispatch, read and
/// cleared by the loop when the quit is retrieved. Threaded explicitly
/// through the loop rather than kept as an ambient global.
pub struct MessageLoop {
    quit_error: Option<GuiError>,
}

impl MessageLoop {
    /// The first dispatch error recorded since the slot was last cleared.
    pub closed spec fn pending_error(self) -> Option<GuiError> {
        self.quit_error
    }

    /// A loop with an empty fatal-error slot.
    pub fn new() -> (r: MessageLoop)
        ensures
            r.pending_error() is None,
    {
        MessageLoop { quit_error: None }
    }

    /// Records a dispatch failure into the fatal-error slot. Only the first
    /// error is remembered; later errors arriving before the quit is
    /// retrieved are discarded — documented information loss, not a silent
    /// swallow. The caller must also post a quit so the loop drains.
    pub fn post_quit_error(&mut self, e: GuiError)
        ensures
            final(self).pending_error() == if old(self).pending_error() is None {
                Some(e)
            } else {
                old(self).pending_error()
            },
    {
        if self.quit_error.is_none() {
            self.quit_error = Some(e);
        }
    }

    /// The loop's result once a quit carrying `code` is retrieved: the
    /// recorded fatal error if one is set — the slot is cleared — else the
    /// quit's code as success.
    pub fn quit_outcome(&mut self, code: i32) -> (r: Result<i32, GuiError>)
        ensures
            r == match old(self).pending_error() {
                Some(e) => Result::<i32, GuiError>::Err(e),
                None => Result::<i32, GuiError>::Ok(code),
            },
            final(self).pending_error() is None,
    {
        match self.quit_error.take() {
            Some(e) => Err(e),
            None => Ok(code),
        }
    }
}

/// How recording an optional dispatch error changes the fatal-error slot:
/// only the first error is kept.
pub open spec fn record_error(slot: Option<GuiError>, e: Option<GuiError>) -> Option<GuiError> {
    if slot is None {
        e
    } else {
        slot
    }
}

/// The loop's result after processing `events` in order with fatal-error
/// slot `slot`: the first retrieval failure surfaces immediately; a quit
/// surfaces the recorded error, else its code; nothing terminal means the
/// loop is still pumping.
pub open spec fn loop_outcome(slot: Option<GuiError>, events: Seq<LoopEvent>) -> Option<
    Result<i32, GuiError>,
>
    decreases events.len(),
{
    if events.len() == 0 {
        None
    } else {
        match events[0] {
            LoopEvent::Failed { err_code } => Some(
                Result::<i32, GuiError>::Err(GuiError::LoopRetrievalFailure(err_code)),
            ),
            LoopEvent::Quit { code } => Some(
                match slot {
                    Some(e) => Result::<i32, GuiError>::Err(e),
                    None => Result::<i32, GuiError>::Ok(code),
                },
            ),
            LoopEvent::Received { dispatch_error, .. } => loop_outcome(
                record_error(slot, dispatch_error),
                events.skip(1),
            ),
        }
    }
}

/// The route taken by each ordinary message the loop processes before its
/// first terminal event.
pub open spec fn loop_routes(accel_active: bool, events: Seq<LoopEvent>) -> Seq<MessageRoute>
    decreases events.len(),
{
    if events.len() == 0 {
        Seq::empty()
    } else {
        match events[0] {
            LoopEvent::Received { accel_consumed, dialog_consumed, .. } => seq![
                spec_route(accel_active, accel_consumed, dialog_consumed),
            ] + loop_routes(accel_active, events.skip(1)),
            LoopEvent::Quit { .. } => Seq::empty(),
            LoopEvent::Failed { .. } => Seq::empty(),
        }
    }
}

/// Runs the main loop over a recorded sequence of retrieval outcomes, with
/// an optionally active accelerator table.
///
/// Returns the loop's result — success with the quit's exit code, or the
/// first captured error — together with the route each ordinary message
/// took. A result of nothing means `events` ended while the loop was still
/// pumping, which the real blocking retrieval never does.
pub fn run_main_loop(haccel: Option<Haccel>, events: &Vec<LoopEvent>) -> (r: (
    Option<Result<i32, GuiError>>,
    Vec<MessageRoute>,
))
    ensures
        r.0 == loop_outcome(None, events@),
        r.1@ == loop_routes(haccel is Some, events@),
{
    let accel_active = haccel.is_some();
    let mut ml = MessageLoop::new();
    let mut routes: Vec<MessageRoute> = Vec::new();
    let mut i: usize = 0;
    proof {
        assert(events@.skip(0) =~= events@);
        assert(routes@ + loop_routes(accel_active, events@) =~= loop_routes(
            accel_active,
            events@,
        ));
    }
    while i < events.len()
        invariant
            i <= events.len(),
            accel_active == (haccel is Some),
            loop_outcome(None, events@) == loop_outcome(ml.pending_error(), events@.skip(i as int)),
            loop_routes(accel_active, events@) =~= routes@ + loop_routes(
                accel_active,
                events@.skip(i as int),
            ),
        decreases events.len() - i,
    {
        proof {
            assert(events@.skip(i as int)[0] == events@[i as int]);
            assert(events@.skip(i as int).skip(1) =~= events@.skip(i + 1));
        }
        match &events[i] {
            LoopEvent::Failed { err_code } => {
                return (Some(Err(GuiError::LoopRetrievalFailure(*err_code))), routes);
            },
            LoopEvent::Quit { code } => {
                let outcome = ml.quit_outcome(*code);
                return (Some(outcome), routes);
            },
            LoopEvent::Received { accel_consumed, dialog_consumed, dispatch_error } => {
                let route = route_message(accel_active, *accel_consumed, *dialog_consumed);
                routes.push(route);
                match dispatch_error {
                    Some(e) => {
                        ml.post_quit_error(*e);
                    },
                    None => {},
                }
                proof {
                    assert(loop_routes(accel_active, events@) =~= routes@ + loop_routes(
                        accel_active,
                        events@.skip(i + 1),
                    ));
                }
                i = i + 1;
            },
        }
    }
    proof {
        assert(events@.skip(i as int).len() == 0);
        assert(routes@ =~= loop_routes(accel_active, events@));
    }
    (None, routes)
}

} // verus!

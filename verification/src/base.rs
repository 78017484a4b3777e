//! The per-window aggregate behind every container window: the native
//! handle, the two handler registries, the parent back-reference and the
//! layout arranger.
//!
//! Registration into either registry is legal only while the handle is
//! still NULL; once the native window exists a registration fails fast with
//! [`GuiError::UseAfterCreation`] and changes nothing.

use vstd::prelude::*;
use crate::cross_thread::{CrossThreadDispatcher, CrossThreadPayload, MAX_PENDING_PAYLOADS};
use crate::error::GuiError;
use crate::events::{last_opt, DispatchPolicy, DispatchRun, EventEntry, EventTable, HandlerId};
use crate::geom::Extent;
use crate::handle::{HInstance, Hwnd};
use crate::layout::{ChildLayout, Horz, LayoutArranger, Vert};
use crate::msg::{Msg, WndMsg, WM_CREATE, WM_INITDIALOG, WM_SIZE, WM_UI_THREAD};

verus! {

/// First control id handed out by [`Base::auto_ctrl_id`].
pub const AUTO_CTRL_ID_FIRST: u16 = 20000;

/// State of one container window. Created before the native window exists
/// and destroyed only after it; the parent back-reference is set once at
/// construction and is non-owning — the substrate guarantees parents
/// outlive their children.
pub struct Base {
    hwnd: Hwnd,
    is_dialog: bool,
    parent: Option<u64>,
    user_events: EventTable,
    privileged_events: EventTable,
    layout_arranger: LayoutArranger,
    next_ctrl_id: u16,
}

impl Base {
    /// The native window handle; NULL until the window is created.
    pub closed spec fn spec_hwnd(self) -> Hwnd {
        self.hwnd
    }

    /// Whether this window is a dialog.
    pub closed spec fn spec_is_dialog(self) -> bool {
        self.is_dialog
    }

    /// The embedder-assigned id of the parent window, if any.
    pub closed spec fn spec_parent(self) -> Option<u64> {
        self.parent
    }

    /// The user registry: ordinary window events, OVERWRITE policy.
    pub closed spec fn user_events(self) -> EventTable {
        self.user_events
    }

    /// The privileged registry: events the library wires internally,
    /// ACCUMULATE policy.
    pub closed spec fn privileged_events(self) -> EventTable {
        self.privileged_events
    }

    /// The layout arranger of this window's children.
    pub closed spec fn arranger(self) -> LayoutArranger {
        self.layout_arranger
    }

    /// The next automatically assigned control id.
    pub closed spec fn spec_next_ctrl_id(self) -> u16 {
        self.next_ctrl_id
    }

    /// The two registries carry the policies the dispatch rules rely on.
    pub open spec fn wf(self) -> bool {
        &&& self.user_events().policy() is Overwrite
        &&& self.privileged_events().policy() is Accumulate
    }

    /// A window state with no native window yet, empty registries and an
    /// empty arranger.
    pub fn new(is_dialog: bool, parent: Option<u64>) -> (r: Base)
        ensures
            r.wf(),
            r.spec_hwnd().spec_is_null(),
            r.spec_is_dialog() == is_dialog,
            r.spec_parent() == parent,
            r.user_events().log() == Seq::<EventEntry>::empty(),
            r.privileged_events().log() == Seq::<EventEntry>::empty(),
            r.arranger().children() == Seq::<ChildLayout>::empty(),
            r.arranger().last_size() is None,
            r.spec_next_ctrl_id() == AUTO_CTRL_ID_FIRST,
    {
        Base {
            hwnd: Hwnd::null(),
            is_dialog,
            parent,
            user_events: EventTable::new(DispatchPolicy::Overwrite),
            privileged_events: EventTable::new(DispatchPolicy::Accumulate),
            layout_arranger: LayoutArranger::new(),
            next_ctrl_id: AUTO_CTRL_ID_FIRST,
        }
    }

    /// The native window handle.
    pub fn hwnd(&self) -> (r: Hwnd)
        ensures
            r == self.spec_hwnd(),
    {
        self.hwnd
    }

    /// Records the native handle once the substrate has created the window.
    pub fn set_hwnd(&mut self, hwnd: Hwnd)
        ensures
            final(self).spec_hwnd() == hwnd,
            final(self).spec_is_dialog() == old(self).spec_is_dialog(),
            final(self).spec_parent() == old(self).spec_parent(),
            final(self).user_events() == old(self).user_events(),
            final(self).privileged_events() == old(self).privileged_events(),
            final(self).arranger() == old(self).arranger(),
            final(self).spec_next_ctrl_id() == old(self).spec_next_ctrl_id(),
    {
        self.hwnd = hwnd;
    }

    /// Whether this window is a dialog.
    pub fn is_dialog(&self) -> (r: bool)
        ensures
            r == self.spec_is_dialog(),
    {
        self.is_dialog
    }

    /// The message the substrate sends exactly once at creation: dialogs
    /// get a dialog-initialization message, raw windows a creation message.
    pub fn creation_msg(&self) -> (r: u32)
        ensures
            r == if self.spec_is_dialog() {
                WM_INITDIALOG
            } else {
                WM_CREATE
            },
    {
        if self.is_dialog {
            WM_INITDIALOG
        } else {
            WM_CREATE
        }
    }

    /// The embedder-assigned id of the parent window, if any.
    pub fn parent(&self) -> (r: Option<u64>)
        ensures
            r == self.spec_parent(),
    {
        self.parent
    }

    /// Picks the module instance a child creation should use: the parent's
    /// instance when a parent exists, else the running module's own. The
    /// two candidates are resolved by the substrate and passed in.
    pub fn parent_hinstance(&self, parent_hinst: HInstance, module_hinst: HInstance) -> (r:
        HInstance)
        ensures
            r == if self.spec_parent() is Some {
                parent_hinst
            } else {
                module_hinst
            },
    {
        if self.parent.is_some() {
            parent_hinst
        } else {
            module_hinst
        }
    }

    /// Hands out a fresh automatically assigned control id.
    pub fn auto_ctrl_id(&mut self) -> (r: u16)
        requires
            old(self).spec_next_ctrl_id() < u16::MAX,
        ensures
            r == old(self).spec_next_ctrl_id(),
            final(self).spec_next_ctrl_id() == old(self).spec_next_ctrl_id() + 1,
            final(self).spec_hwnd() == old(self).spec_hwnd(),
            final(self).spec_is_dialog() == old(self).spec_is_dialog(),
            final(self).spec_parent() == old(self).spec_parent(),
            final(self).user_events() == old(self).user_events(),
            final(self).privileged_events() == old(self).privileged_events(),
            final(self).arranger() == old(self).arranger(),
    {
        let id = self.next_ctrl_id;
        self.next_ctrl_id = self.next_ctrl_id + 1;
        id
    }

    /// Registers a user event handler. User registrations overwrite one
    /// another: only the last one registered for an id is executed. Fails
    /// fast, changing nothing, once the native window exists.
    pub fn on(&mut self, msg_id: u32, handler: HandlerId) -> (r: Result<(), GuiError>)
        ensures
            !old(self).spec_hwnd().spec_is_null() ==> {
                &&& r == Result::<(), GuiError>::Err(GuiError::UseAfterCreation)
                &&& *final(self) == *old(self)
            },
            old(self).spec_hwnd().spec_is_null() ==> {
                &&& r == Result::<(), GuiError>::Ok(())
                &&& final(self).user_events().log() == old(self).user_events().log().push(
                    EventEntry { msg_id, handler },
                )
                &&& final(self).user_events().policy() == old(self).user_events().policy()
                &&& final(self).privileged_events() == old(self).privileged_events()
                &&& final(self).spec_hwnd() == old(self).spec_hwnd()
                &&& final(self).spec_is_dialog() == old(self).spec_is_dialog()
                &&& final(self).spec_parent() == old(self).spec_parent()
                &&& final(self).arranger() == old(self).arranger()
                &&& final(self).spec_next_ctrl_id() == old(self).spec_next_ctrl_id()
            },
    {
        if !self.hwnd.is_null() {
            return Err(GuiError::UseAfterCreation);
        }
        self.user_events.register(msg_id, handler);
        Ok(())
    }

    /// Registers a privileged event handler. Privileged registrations
    /// accumulate: all registered for an id are executed, in order. Fails
    /// fast, changing nothing, once the native window exists.
    pub fn privileged_on(&mut self, msg_id: u32, handler: HandlerId) -> (r: Result<
        (),
        GuiError,
    >)
        ensures
            !old(self).spec_hwnd().spec_is_null() ==> {
                &&& r == Result::<(), GuiError>::Err(GuiError::UseAfterCreation)
                &&& *final(self) == *old(self)
            },
            old(self).spec_hwnd().spec_is_null() ==> {
                &&& r == Result::<(), GuiError>::Ok(())
                &&& final(self).privileged_events().log() == old(
                    self,
                ).privileged_events().log().push(EventEntry { msg_id, handler })
                &&& final(self).privileged_events().policy() == old(
                    self,
                ).privileged_events().policy()
                &&& final(self).user_events() == old(self).user_events()
                &&& final(self).spec_hwnd() == old(self).spec_hwnd()
                &&& final(self).spec_is_dialog() == old(self).spec_is_dialog()
                &&& final(self).spec_parent() == old(self).spec_parent()
                &&& final(self).arranger() == old(self).arranger()
                &&& final(self).spec_next_ctrl_id() == old(self).spec_next_ctrl_id()
            },
    {
        if !self.hwnd.is_null() {
            return Err(GuiError::UseAfterCreation);
        }
        self.privileged_events.register(msg_id, handler);
        Ok(())
    }

    /// Wires the two handlers the library itself needs on every window: the
    /// one that rearranges the layout on a resize message, and the one that
    /// reclaims and runs cross-thread payloads on the reserved message.
    /// Both go into the privileged registry, in that order.
    pub fn default_message_handlers(
        &mut self,
        size_handler: HandlerId,
        ui_thread_handler: HandlerId,
    ) -> (r: Result<(), GuiError>)
        ensures
            !old(self).spec_hwnd().spec_is_null() ==> {
                &&& r == Result::<(), GuiError>::Err(GuiError::UseAfterCreation)
                &&& *final(self) == *old(self)
            },
            old(self).spec_hwnd().spec_is_null() ==> {
                &&& r == Result::<(), GuiError>::Ok(())
                &&& final(self).privileged_events().log() == old(
                    self,
                ).privileged_events().log().push(
                    EventEntry { msg_id: WM_SIZE, handler: size_handler },
                ).push(EventEntry { msg_id: WM_UI_THREAD, handler: ui_thread_handler })
                &&& final(self).privileged_events().policy() == old(
                    self,
                ).privileged_events().policy()
                &&& final(self).user_events() == old(self).user_events()
                &&& final(self).spec_hwnd() == old(self).spec_hwnd()
                &&& final(self).spec_is_dialog() == old(self).spec_is_dialog()
                &&& final(self).spec_parent() == old(self).spec_parent()
                &&& final(self).arranger() == old(self).arranger()
                &&& final(self).spec_next_ctrl_id() == old(self).spec_next_ctrl_id()
            },
    {
        if !self.hwnd.is_null() {
            return Err(GuiError::UseAfterCreation);
        }
        self.privileged_events.register(WM_SIZE, size_handler);
        self.privileged_events.register(WM_UI_THREAD, ui_thread_handler);
        Ok(())
    }

    /// The user handler the window procedure must run for this message, if
    /// the user registered one: the most recent registration for its id.
    pub fn process_user_message(&self, wm: &WndMsg) -> (r: Option<HandlerId>)
        requires
            self.wf(),
        ensures
            r == last_opt(self.user_events().registered(wm.msg_id)),
            r matches Some(h) ==> self.user_events().selection(wm.msg_id) == seq![h],
            r is None ==> self.user_events().selection(wm.msg_id) == Seq::<HandlerId>::empty(),
    {
        self.user_events.process_one(wm)
    }

    /// The privileged handlers the window procedure must run for this
    /// message: all registered for its id, in registration order, as a
    /// dispatch run.
    pub fn process_privileged_messages(&self, wm: &WndMsg) -> (r: DispatchRun)
        requires
            self.wf(),
        ensures
            r.plan() == self.privileged_events().registered(wm.msg_id),
            r.next_index() == 0,
            r.failure() is None,
            r.wf(),
    {
        self.privileged_events.process_all(wm)
    }

    /// Removes all user and privileged registrations, as done on teardown
    /// or recreation. The policies are kept.
    pub fn clear_events(&mut self)
        ensures
            final(self).user_events().log() == Seq::<EventEntry>::empty(),
            final(self).user_events().policy() == old(self).user_events().policy(),
            final(self).privileged_events().log() == Seq::<EventEntry>::empty(),
            final(self).privileged_events().policy() == old(self).privileged_events().policy(),
            final(self).spec_hwnd() == old(self).spec_hwnd(),
            final(self).spec_is_dialog() == old(self).spec_is_dialog(),
            final(self).spec_parent() == old(self).spec_parent(),
            final(self).arranger() == old(self).arranger(),
            final(self).spec_next_ctrl_id() == old(self).spec_next_ctrl_id(),
    {
        self.user_events.clear();
        self.privileged_events.clear();
    }

    /// Registers a child with the layout arranger; duplicates are rejected.
    /// `parent_size` is this window's current client size as measured by
    /// the substrate, seeding the arranger's last-known size on the first
    /// registration.
    pub fn add_to_layout_arranger(
        &mut self,
        hchild: Hwnd,
        horz: Horz,
        vert: Vert,
        parent_size: Extent,
    ) -> (r: Result<(), GuiError>)
        ensures
            old(self).arranger().has_child(hchild) ==> {
                &&& r == Result::<(), GuiError>::Err(GuiError::DuplicateLayoutChild)
                &&& *final(self) == *old(self)
            },
            !old(self).arranger().has_child(hchild) ==> {
                &&& r == Result::<(), GuiError>::Ok(())
                &&& final(self).arranger().children() == old(self).arranger().children().push(
                    ChildLayout { hchild, horz, vert },
                )
                &&& final(self).arranger().last_size() == if old(
                    self,
                ).arranger().last_size() is Some {
                    old(self).arranger().last_size()
                } else {
                    Some(parent_size)
                }
                &&& final(self).user_events() == old(self).user_events()
                &&& final(self).privileged_events() == old(self).privileged_events()
                &&& final(self).spec_hwnd() == old(self).spec_hwnd()
                &&& final(self).spec_is_dialog() == old(self).spec_is_dialog()
                &&& final(self).spec_parent() == old(self).spec_parent()
                &&& final(self).spec_next_ctrl_id() == old(self).spec_next_ctrl_id()
            },
    {
        self.layout_arranger.add_child(hchild, horz, vert, parent_size)
    }

    /// A view of the layout arranger, for sizing and overflow checks
    /// before a rearrange.
    pub fn arranger_ref(&self) -> (r: &LayoutArranger)
        ensures
            *r == self.arranger(),
    {
        &self.layout_arranger
    }

    /// Rearranges this window's children after a resize to `new_size`;
    /// see [`LayoutArranger::rearrange`].
    pub fn rearrange(
        &mut self,
        new_size: Extent,
        rects: &Vec<crate::geom::Rect>,
    ) -> (updates: Vec<crate::geom::Rect>)
        requires
            rects@.len() == old(self).arranger().children().len(),
            forall|i: int|
                0 <= i < rects@.len() ==> crate::layout::update_fits(
                    rects@[i],
                    old(self).arranger().children()[i],
                    old(self).arranger().delta_w(new_size),
                    old(self).arranger().delta_h(new_size),
                ),
        ensures
            final(self).arranger().children() == old(self).arranger().children(),
            final(self).arranger().last_size() == Some(new_size),
            updates@.len() == rects@.len(),
            forall|i: int|
                0 <= i < rects@.len() ==> updates@[i] == crate::layout::rect_update(
                    rects@[i],
                    old(self).arranger().children()[i],
                    old(self).arranger().delta_w(new_size),
                    old(self).arranger().delta_h(new_size),
                ),
            final(self).user_events() == old(self).user_events(),
            final(self).privileged_events() == old(self).privileged_events(),
            final(self).spec_hwnd() == old(self).spec_hwnd(),
            final(self).spec_is_dialog() == old(self).spec_is_dialog(),
            final(self).spec_parent() == old(self).spec_parent(),
            final(self).spec_next_ctrl_id() == old(self).spec_next_ctrl_id(),
    {
        self.layout_arranger.rearrange(new_size, rects)
    }

    /// Schedules `callback` to run on the UI thread of this window's root
    /// ancestor: wraps it as a single-use payload owned by `dispatcher` and
    /// builds the reserved message that carries it. `root` is the root
    /// ancestor the substrate resolved for this window's handle; when it
    /// could not be resolved the payload is leaked, a documented
    /// limitation. Safe to call from any thread, including the UI thread.
    pub fn run_ui_thread(
        &self,
        dispatcher: &mut CrossThreadDispatcher,
        root: Option<Hwnd>,
        callback: HandlerId,
    ) -> (m: Option<Msg>)
        requires
            old(dispatcher).pending().len() < MAX_PENDING_PAYLOADS,
        ensures
            root matches Some(h) ==> {
                &&& final(dispatcher).pending().len() == old(dispatcher).pending().len() + 1
                &&& final(dispatcher).pending().last() matches Some(p) && p.spec_callback()
                    == callback
                &&& forall|j: int|
                    0 <= j < old(dispatcher).pending().len() ==> final(dispatcher).pending()[j]
                        == old(dispatcher).pending()[j]
                &&& final(dispatcher).leaked() == old(dispatcher).leaked()
                &&& m == Some(
                    Msg {
                        hwnd: h,
                        wm: WndMsg {
                            msg_id: WM_UI_THREAD,
                            wparam: WM_UI_THREAD as usize,
                            lparam: old(dispatcher).pending().len() as isize,
                        },
                    },
                )
            },
            root is None ==> {
                &&& final(dispatcher).pending() == old(dispatcher).pending()
                &&& final(dispatcher).leaked().len() == old(dispatcher).leaked().len() + 1
                &&& final(dispatcher).leaked().last().spec_callback() == callback
                &&& forall|j: int|
                    0 <= j < old(dispatcher).leaked().len() ==> final(dispatcher).leaked()[j]
                        == old(dispatcher).leaked()[j]
                &&& m is None
            },
    {
        dispatcher.post(root, CrossThreadPayload::new(callback))
    }
}

} // verus!

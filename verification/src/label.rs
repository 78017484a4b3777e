//! A native static-text (label) control.
//!
//! A label is declared on its parent before any native window exists: the
//! declaration registers a privileged handler for the parent's creation
//! message, and when that handler runs the embedder asks the label for its
//! creation request — the measured text box and DPI scaling come from the
//! substrate — and performs it.

use vstd::prelude::*;
use crate::base::Base;
use crate::error::GuiError;
use crate::events::{EventEntry, HandlerId};
use crate::geom::{Extent, Point};
use crate::handle::Hwnd;
use crate::msg::{WM_CREATE, WM_INITDIALOG};

verus! {

/// Static-control style: text aligned left.
pub const SS_LEFT: u32 = 0x0000;

/// Static-control style: the control notifies its parent of clicks.
pub const SS_NOTIFY: u32 = 0x0100;

/// Window style: a child window.
pub const WS_CHILD: u32 = 0x4000_0000;

/// Window style: initially visible.
pub const WS_VISIBLE: u32 = 0x1000_0000;

/// Extended window style: left-aligned, left-to-right.
pub const WS_EX_LEFT: u32 = 0x0000;

/// Positioning flag: keep the current position.
pub const SWP_NOMOVE: u32 = 0x0002;

/// Positioning flag: keep the current z-order.
pub const SWP_NOZORDER: u32 = 0x0004;

/// Options to create a label programmatically on a raw parent window.
#[derive(Clone, Debug)]
pub struct LabelOpts {
    /// Text of the control to be created.
    pub text: String,
    /// Control position within the parent client area, in pixels, before
    /// DPI adjustment.
    pub position: Point,
    /// Nudges the position down so the text lines up with an edit control
    /// placed side by side.
    pub vertical_text_align: bool,
    /// Static-control styles of the control to be created.
    pub label_style: u32,
    /// Window styles of the control to be created.
    pub window_style: u32,
    /// Extended window styles of the control to be created.
    pub ex_window_style: u32,
    /// The control id; zero means an automatically assigned id.
    pub ctrl_id: u16,
}

impl Default for LabelOpts {
    /// Empty text at the origin, left-aligned notifying static, visible
    /// child, automatic control id.
    fn default() -> (r: LabelOpts)
        ensures
            r.text@ == Seq::<char>::empty(),
            r.position == (Point { x: 0, y: 0 }),
            !r.vertical_text_align,
            r.label_style == SS_LEFT | SS_NOTIFY,
            r.window_style == WS_CHILD | WS_VISIBLE,
            r.ex_window_style == WS_EX_LEFT,
            r.ctrl_id == 0,
    {
        LabelOpts {
            text: String::new(),
            position: Point { x: 0, y: 0 },
            vertical_text_align: false,
            label_style: SS_LEFT | SS_NOTIFY,
            window_style: WS_CHILD | WS_VISIBLE,
            ex_window_style: WS_EX_LEFT,
            ctrl_id: 0,
        }
    }
}

impl LabelOpts {
    /// Resolves a zero control id to the given automatically assigned one.
    pub fn define_ctrl_id(self, auto_id: u16) -> (r: LabelOpts)
        ensures
            r.ctrl_id == if self.ctrl_id == 0 {
                auto_id
            } else {
                self.ctrl_id
            },
            r.text == self.text,
            r.position == self.position,
            r.vertical_text_align == self.vertical_text_align,
            r.label_style == self.label_style,
            r.window_style == self.window_style,
            r.ex_window_style == self.ex_window_style,
    {
        let mut o = self;
        if o.ctrl_id == 0 {
            o.ctrl_id = auto_id;
        }
        o
    }

    /// The creation position after the vertical-alignment nudge, still
    /// before DPI adjustment.
    pub fn adjusted_position(&self) -> (r: Point)
        requires
            self.vertical_text_align ==> self.position.y + 3 <= i32::MAX,
        ensures
            r.x == self.position.x,
            r.y == self.position.y + if self.vertical_text_align {
                3int
            } else {
                0int
            },
    {
        if self.vertical_text_align {
            Point { x: self.position.x, y: self.position.y + 3 }
        } else {
            self.position
        }
    }
}

/// How a label reaches its native control: created with options on a raw
/// window, or loaded by id from a dialog resource.
#[derive(Clone, Debug)]
pub enum OptsId {
    /// Created programmatically with these options.
    Wnd(LabelOpts),
    /// Loaded from the dialog resource under this control id.
    Dlg(u16),
}

/// What the embedder must do, through the substrate, to realize a label
/// when the parent's creation message arrives.
#[derive(Clone, Debug)]
pub enum CreateRequest {
    /// Create a native static control with these parameters.
    Window {
        text: String,
        pos: Point,
        size: Extent,
        ctrl_id: u16,
        style: u32,
        ex_style: u32,
    },
    /// Fetch the control with this id from the dialog.
    DlgControl { ctrl_id: u16 },
}

/// The substrate commands that change a label's text and resize it to fit.
#[derive(Clone, Debug)]
pub struct SetTextRequest {
    /// The new window text.
    pub text: String,
    /// The extent the control is resized to: the measured bound box.
    pub size: Extent,
    /// The positioning flags of the resize: position and z-order are kept.
    pub swp_flags: u32,
}

/// A native label control.
pub struct Label {
    opts_id: OptsId,
    hwnd: Hwnd,
}

impl Label {
    /// How this label reaches its native control.
    pub closed spec fn spec_opts_id(self) -> OptsId {
        self.opts_id
    }

    /// The native control handle; NULL until created.
    pub closed spec fn spec_hwnd(self) -> Hwnd {
        self.hwnd
    }

    /// The control id.
    pub closed spec fn spec_ctrl_id(self) -> u16 {
        match self.opts_id {
            OptsId::Wnd(o) => o.ctrl_id,
            OptsId::Dlg(id) => id,
        }
    }

    /// Declares a label to be created on the raw parent window: resolves
    /// the control id and registers `create_handler` — the embedder's
    /// closure that performs this label's [`CreateRequest`] — for the
    /// parent's creation message, in the privileged registry. Fails fast
    /// with nothing changed once the parent's native window exists.
    pub fn new(parent: &mut Base, opts: LabelOpts, create_handler: HandlerId) -> (r: Result<
        Label,
        GuiError,
    >)
        requires
            old(parent).spec_next_ctrl_id() < u16::MAX,
        ensures
            !old(parent).spec_hwnd().spec_is_null() ==> {
                &&& r matches Err(e) && e == GuiError::UseAfterCreation
                &&& *final(parent) == *old(parent)
            },
            old(parent).spec_hwnd().spec_is_null() ==> {
                &&& r matches Ok(lab)
                &&& lab.spec_hwnd().spec_is_null()
                &&& lab.spec_ctrl_id() == if opts.ctrl_id == 0 {
                    old(parent).spec_next_ctrl_id()
                } else {
                    opts.ctrl_id
                }
                &&& lab.spec_opts_id() matches OptsId::Wnd(o) && o.text == opts.text
                    && o.position == opts.position && o.vertical_text_align
                    == opts.vertical_text_align && o.label_style == opts.label_style
                    && o.window_style == opts.window_style && o.ex_window_style
                    == opts.ex_window_style
                &&& final(parent).privileged_events().log() == old(
                    parent,
                ).privileged_events().log().push(
                    EventEntry { msg_id: WM_CREATE, handler: create_handler },
                )
                &&& final(parent).privileged_events().policy() == old(
                    parent,
                ).privileged_events().policy()
                &&& final(parent).user_events() == old(parent).user_events()
                &&& final(parent).spec_hwnd() == old(parent).spec_hwnd()
                &&& final(parent).spec_is_dialog() == old(parent).spec_is_dialog()
                &&& final(parent).spec_parent() == old(parent).spec_parent()
                &&& final(parent).arranger() == old(parent).arranger()
                &&& final(parent).spec_next_ctrl_id() == if opts.ctrl_id == 0 {
                    old(parent).spec_next_ctrl_id() + 1
                } else {
                    old(parent).spec_next_ctrl_id() as int
                }
            },
    {
        if !parent.hwnd().is_null() {
            return Err(GuiError::UseAfterCreation);
        }
        let opts = if opts.ctrl_id == 0 {
            let auto_id = parent.auto_ctrl_id();
            opts.define_ctrl_id(auto_id)
        } else {
            opts
        };
        match parent.privileged_on(WM_CREATE, create_handler) {
            Ok(()) => {},
            Err(e) => {
                return Err(e);
            },
        }
        Ok(Label { opts_id: OptsId::Wnd(opts), hwnd: Hwnd::null() })
    }

    /// Declares a label to be loaded from the parent dialog's resource:
    /// registers `create_handler` for the dialog-initialization message,
    /// in the privileged registry. Fails fast with nothing changed once
    /// the parent's native window exists.
    pub fn new_dlg(parent: &mut Base, ctrl_id: u16, create_handler: HandlerId) -> (r: Result<
        Label,
        GuiError,
    >)
        ensures
            !old(parent).spec_hwnd().spec_is_null() ==> {
                &&& r matches Err(e) && e == GuiError::UseAfterCreation
                &&& *final(parent) == *old(parent)
            },
            old(parent).spec_hwnd().spec_is_null() ==> {
                &&& r matches Ok(lab)
                &&& lab.spec_hwnd().spec_is_null()
                &&& lab.spec_ctrl_id() == ctrl_id
                &&& lab.spec_opts_id() == OptsId::Dlg(ctrl_id)
                &&& final(parent).privileged_events().log() == old(
                    parent,
                ).privileged_events().log().push(
                    EventEntry { msg_id: WM_INITDIALOG, handler: create_handler },
                )
                &&& final(parent).privileged_events().policy() == old(
                    parent,
                ).privileged_events().policy()
                &&& final(parent).user_events() == old(parent).user_events()
                &&& final(parent).spec_hwnd() == old(parent).spec_hwnd()
                &&& final(parent).spec_is_dialog() == old(parent).spec_is_dialog()
                &&& final(parent).spec_parent() == old(parent).spec_parent()
                &&& final(parent).arranger() == old(parent).arranger()
                &&& final(parent).spec_next_ctrl_id() == old(parent).spec_next_ctrl_id()
            },
    {
        match parent.privileged_on(WM_INITDIALOG, create_handler) {
            Ok(()) => {},
            Err(e) => {
                return Err(e);
            },
        }
        Ok(Label { opts_id: OptsId::Dlg(ctrl_id), hwnd: Hwnd::null() })
    }

    /// The creation request the embedder performs when the parent's
    /// creation message arrives. For a programmatic label, `scaled_pos` is
    /// the DPI-scaled [`LabelOpts::adjusted_position`] and `bound_box` the
    /// substrate-measured extent of the text; a dialog label only needs
    /// fetching by id.
    pub fn create(&self, scaled_pos: Point, bound_box: Extent) -> (r: CreateRequest)
        ensures
            self.spec_opts_id() matches OptsId::Wnd(o) ==> r matches CreateRequest::Window {
                text,
                pos,
                size,
                ctrl_id,
                style,
                ex_style,
            } && text == o.text && pos == scaled_pos && size == bound_box && ctrl_id == o.ctrl_id
                && style == (o.window_style | o.label_style) && ex_style == o.ex_window_style,
            self.spec_opts_id() matches OptsId::Dlg(id) ==> r == (CreateRequest::DlgControl {
                ctrl_id: id,
            }),
    {
        match &self.opts_id {
            OptsId::Wnd(o) => CreateRequest::Window {
                text: o.text.clone(),
                pos: scaled_pos,
                size: bound_box,
                ctrl_id: o.ctrl_id,
                style: o.window_style | o.label_style,
                ex_style: o.ex_window_style,
            },
            OptsId::Dlg(id) => CreateRequest::DlgControl { ctrl_id: *id },
        }
    }

    /// Records the native handle once the control exists.
    pub fn set_hwnd(&mut self, hwnd: Hwnd)
        ensures
            final(self).spec_hwnd() == hwnd,
            final(self).spec_opts_id() == old(self).spec_opts_id(),
    {
        self.hwnd = hwnd;
    }

    /// The native control handle.
    pub fn hwnd(&self) -> (r: Hwnd)
        ensures
            r == self.spec_hwnd(),
    {
        self.hwnd
    }

    /// The control id.
    pub fn ctrl_id(&self) -> (r: u16)
        ensures
            r == self.spec_ctrl_id(),
    {
        match &self.opts_id {
            OptsId::Wnd(o) => o.ctrl_id,
            OptsId::Dlg(id) => *id,
        }
    }

    /// The substrate commands that set the label's text and resize the
    /// control to exactly fit it; `bound_box` is the substrate-measured
    /// extent of `text`. Position and z-order are kept.
    pub fn set_text(&self, text: String, bound_box: Extent) -> (r: SetTextRequest)
        ensures
            r.text == text,
            r.size == bound_box,
            r.swp_flags == SWP_NOZORDER | SWP_NOMOVE,
    {
        SetTextRequest { text, size: bound_box, swp_flags: SWP_NOZORDER | SWP_NOMOVE }
    }
}

} // verus!

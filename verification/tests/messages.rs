//! Message packing, result conversion, helpers and the label control.

use winmsg::base::Base;
use winmsg::error::{
    error_to_sysresult, ok_to_hrresult, okfalse_to_hrresult, zero_as_err, GuiError, SysError,
    ERROR_BAD_ARGUMENTS,
};
use winmsg::events::HandlerId;
use winmsg::geom::{Extent, Point};
use winmsg::handle::{HInstance, Hwnd};
use winmsg::label::{
    CreateRequest, Label, LabelOpts, SS_LEFT, SS_NOTIFY, SWP_NOMOVE, SWP_NOZORDER, WS_CHILD,
    WS_EX_LEFT, WS_VISIBLE,
};
use winmsg::msg::{ref_to_lparam, HIWORD, LOWORD, MAKEDWORD, WM_CREATE, WM_INITDIALOG};
use winmsg::pbm;

fn wm(msg_id: u32) -> winmsg::msg::WndMsg {
    winmsg::msg::WndMsg { msg_id, wparam: 0, lparam: 0 }
}

#[test]
fn word_packing_round_trips() {
    assert_eq!(LOWORD(0x0030_0010), 0x0010);
    assert_eq!(HIWORD(0x0030_0010), 0x0030);
    assert_eq!(MAKEDWORD(0x0010, 0x0030), 0x0030_0010);
    let v = MAKEDWORD(0xabcd, 0x1234);
    assert_eq!((LOWORD(v), HIWORD(v)), (0xabcd, 0x1234));
    assert_eq!(ref_to_lparam(42), 42);
}

#[test]
fn result_conversions_are_exact() {
    assert_eq!(zero_as_err(0), Err(SysError { code: ERROR_BAD_ARGUMENTS }));
    assert_eq!(zero_as_err(17), Ok(17));
    assert_eq!(error_to_sysresult(0), Ok(()));
    assert_eq!(error_to_sysresult(5), Err(SysError { code: 5 }));
    assert_eq!(ok_to_hrresult(0), Ok(()));
    assert_eq!(ok_to_hrresult(-2147024809), Err(-2147024809));
    assert_eq!(okfalse_to_hrresult(0), Ok(true));
    assert_eq!(okfalse_to_hrresult(1), Ok(false));
    assert_eq!(okfalse_to_hrresult(-1), Err(-1));
}

#[test]
fn progress_messages_pack_their_parameters() {
    let m = pbm::DeltaPos { advance_amount: 25 }.as_generic_wm();
    assert_eq!((m.msg_id, m.wparam, m.lparam), (pbm::PBM_DELTAPOS, 25, 0));

    let m = pbm::SetPos { position: 60 }.as_generic_wm();
    assert_eq!((m.msg_id, m.wparam, m.lparam), (pbm::PBM_SETPOS, 60, 0));

    let m = pbm::SetRange { min: 0x10, max: 0x30 }.as_generic_wm();
    assert_eq!((m.msg_id, m.wparam, m.lparam), (pbm::PBM_SETRANGE, 0, 0x0030_0010));

    let m = pbm::SetRange32 { min: 3, max: 9000 }.as_generic_wm();
    assert_eq!((m.msg_id, m.wparam, m.lparam), (pbm::PBM_SETRANGE32, 3, 9000));

    let m = pbm::SetMarquee { turn_on: true, time_ms: Some(30) }.as_generic_wm();
    assert_eq!((m.msg_id, m.wparam, m.lparam), (pbm::PBM_SETMARQUEE, 1, 30));

    let m = pbm::SetMarquee { turn_on: false, time_ms: None }.as_generic_wm();
    assert_eq!((m.msg_id, m.wparam, m.lparam), (pbm::PBM_SETMARQUEE, 0, 0));

    let m = pbm::SetState { state: pbm::PBST_PAUSED }.as_generic_wm();
    assert_eq!((m.msg_id, m.wparam, m.lparam), (pbm::PBM_SETSTATE, 3, 0));

    let m = pbm::SetStep { step: 5 }.as_generic_wm();
    assert_eq!((m.msg_id, m.wparam, m.lparam), (pbm::PBM_SETSTEP, 5, 0));

    let m = pbm::StepIt {}.as_generic_wm();
    assert_eq!((m.msg_id, m.wparam, m.lparam), (pbm::PBM_STEPIT, 0, 0));

    let m = pbm::GetPos {}.as_generic_wm();
    assert_eq!((m.msg_id, m.wparam, m.lparam), (pbm::PBM_GETPOS, 0, 0));

    let m = pbm::GetRange { return_low: true, ranges: None }.as_generic_wm();
    assert_eq!((m.msg_id, m.wparam, m.lparam), (pbm::PBM_GETRANGE, 1, 0));

    let m = pbm::GetRange { return_low: false, ranges: Some(0x77) }.as_generic_wm();
    assert_eq!((m.msg_id, m.wparam, m.lparam), (pbm::PBM_GETRANGE, 0, 0x77));

    let m = pbm::GetState {}.as_generic_wm();
    assert_eq!((m.msg_id, m.wparam, m.lparam), (pbm::PBM_GETSTATE, 0, 0));
}

#[test]
fn progress_color_messages_use_the_default_sentinel() {
    let m = pbm::SetBarColor { color: Some(pbm::ColorRef { raw: 0x0000_ff00 }) }.as_generic_wm();
    assert_eq!(
        (m.msg_id, m.wparam, m.lparam),
        (pbm::PBM_SETBARCOLOR, 0x0000_ff00, 0)
    );
    let m = pbm::SetBarColor { color: None }.as_generic_wm();
    assert_eq!(m.wparam, pbm::CLR_DEFAULT as usize);
    let m = pbm::SetBkColor { color: None }.as_generic_wm();
    assert_eq!((m.msg_id, m.wparam), (pbm::PBM_SETBKCOLOR, pbm::CLR_DEFAULT as usize));

    let g = pbm::GetBarColor {};
    assert_eq!(g.convert_ret(pbm::CLR_DEFAULT as isize), None);
    assert_eq!(
        g.convert_ret(0x123456),
        Some(pbm::ColorRef { raw: 0x123456 })
    );
    let g = pbm::GetBkColor {};
    assert_eq!(g.convert_ret(pbm::CLR_DEFAULT as isize), None);
}

#[test]
fn progress_results_convert_exactly() {
    assert_eq!(pbm::DeltaPos { advance_amount: 1 }.convert_ret(42), 42);
    assert_eq!(pbm::GetPos {}.convert_ret(7), 7);
    assert_eq!(pbm::GetRange { return_low: true, ranges: None }.convert_ret(-3), -3);
    assert_eq!(pbm::GetState {}.convert_ret(2), pbm::PBST_ERROR);
    assert_eq!(pbm::StepIt {}.convert_ret(30), 30);

    let sr = pbm::SetRange { min: 0, max: 100 };
    assert_eq!(sr.convert_ret(0), Err(SysError { code: ERROR_BAD_ARGUMENTS }));
    assert_eq!(sr.convert_ret(0x0030_0010), Ok((0x10, 0x30)));
}

#[test]
fn label_opts_defaults_match_the_documented_values() {
    let o = LabelOpts::default();
    assert_eq!(o.text, "");
    assert_eq!(o.position, Point { x: 0, y: 0 });
    assert!(!o.vertical_text_align);
    assert_eq!(o.label_style, SS_LEFT | SS_NOTIFY);
    assert_eq!(o.window_style, WS_CHILD | WS_VISIBLE);
    assert_eq!(o.ex_window_style, WS_EX_LEFT);
    assert_eq!(o.ctrl_id, 0);
}

#[test]
fn label_opts_auto_id_applies_only_when_zero() {
    let o = LabelOpts { ctrl_id: 0, ..LabelOpts::default() };
    assert_eq!(o.define_ctrl_id(20000).ctrl_id, 20000);
    let o = LabelOpts { ctrl_id: 77, ..LabelOpts::default() };
    assert_eq!(o.define_ctrl_id(20000).ctrl_id, 77);
}

#[test]
fn label_new_registers_creation_handler_and_auto_id() {
    let mut parent = Base::new(false, None);
    let lab = Label::new(&mut parent, LabelOpts::default(), HandlerId { raw: 30 }).unwrap();
    assert_eq!(lab.ctrl_id(), 20000);
    assert!(lab.hwnd().is_null());
    // The creation handler sits in the privileged registry for WM_CREATE.
    let mut run = parent.process_privileged_messages(&wm(WM_CREATE));
    assert_eq!(run.next_handler(), Some(HandlerId { raw: 30 }));
    // A second auto-id label gets the next id.
    let lab2 = Label::new(&mut parent, LabelOpts::default(), HandlerId { raw: 31 }).unwrap();
    assert_eq!(lab2.ctrl_id(), 20001);
}

#[test]
fn label_new_dlg_registers_for_dialog_initialization() {
    let mut parent = Base::new(true, None);
    let lab = Label::new_dlg(&mut parent, 1005, HandlerId { raw: 40 }).unwrap();
    assert_eq!(lab.ctrl_id(), 1005);
    let mut run = parent.process_privileged_messages(&wm(WM_INITDIALOG));
    assert_eq!(run.next_handler(), Some(HandlerId { raw: 40 }));
}

#[test]
fn label_declaration_after_creation_fails() {
    let mut parent = Base::new(false, None);
    parent.set_hwnd(Hwnd { raw: 3 });
    assert!(matches!(
        Label::new(&mut parent, LabelOpts::default(), HandlerId { raw: 1 }),
        Err(GuiError::UseAfterCreation)
    ));
    assert!(matches!(
        Label::new_dlg(&mut parent, 9, HandlerId { raw: 1 }),
        Err(GuiError::UseAfterCreation)
    ));
}

#[test]
fn label_create_request_carries_options_and_measured_box() {
    let mut parent = Base::new(false, None);
    let opts = LabelOpts {
        text: String::from("Hi"),
        position: Point { x: 10, y: 20 },
        vertical_text_align: true,
        ctrl_id: 900,
        ..LabelOpts::default()
    };
    let adj = opts.adjusted_position();
    assert_eq!(adj, Point { x: 10, y: 23 });
    let lab = Label::new(&mut parent, opts, HandlerId { raw: 1 }).unwrap();
    match lab.create(adj, Extent { cx: 17, cy: 13 }) {
        CreateRequest::Window { text, pos, size, ctrl_id, style, ex_style } => {
            assert_eq!(text, "Hi");
            assert_eq!(pos, Point { x: 10, y: 23 });
            assert_eq!(size, Extent { cx: 17, cy: 13 });
            assert_eq!(ctrl_id, 900);
            assert_eq!(style, WS_CHILD | WS_VISIBLE | SS_LEFT | SS_NOTIFY);
            assert_eq!(ex_style, WS_EX_LEFT);
        }
        CreateRequest::DlgControl { .. } => panic!("a programmatic label creates a window"),
    }
}

#[test]
fn label_dlg_create_request_fetches_by_id() {
    let mut parent = Base::new(true, None);
    let lab = Label::new_dlg(&mut parent, 44, HandlerId { raw: 1 }).unwrap();
    match lab.create(Point { x: 0, y: 0 }, Extent { cx: 0, cy: 0 }) {
        CreateRequest::DlgControl { ctrl_id } => assert_eq!(ctrl_id, 44),
        CreateRequest::Window { .. } => panic!("a dialog label is fetched, not created"),
    }
}

#[test]
fn label_set_text_resizes_to_the_measured_box() {
    let mut parent = Base::new(false, None);
    let lab = Label::new(&mut parent, LabelOpts::default(), HandlerId { raw: 1 }).unwrap();
    let req = lab.set_text(String::from("longer text"), Extent { cx: 80, cy: 16 });
    assert_eq!(req.text, "longer text");
    assert_eq!(req.size, Extent { cx: 80, cy: 16 });
    assert_eq!(req.swp_flags, SWP_NOZORDER | SWP_NOMOVE);
}

#[test]
fn creation_message_depends_on_window_kind() {
    let raw = Base::new(false, None);
    assert_eq!(raw.creation_msg(), WM_CREATE);
    let dlg = Base::new(true, None);
    assert_eq!(dlg.creation_msg(), WM_INITDIALOG);
}

#[test]
fn parent_hinstance_prefers_the_parent() {
    let child = Base::new(false, Some(7));
    let top = Base::new(false, None);
    let parent_hi = HInstance { raw: 11 };
    let module_hi = HInstance { raw: 22 };
    assert_eq!(child.parent_hinstance(parent_hi, module_hi), parent_hi);
    assert_eq!(top.parent_hinstance(parent_hi, module_hi), module_hi);
    assert_eq!(child.parent(), Some(7));
    assert_eq!(top.parent(), None);
}

#[test]
fn null_handle_is_the_sentinel() {
    assert!(Hwnd::null().is_null());
    assert!(!Hwnd { raw: 5 }.is_null());
    assert_eq!(Hwnd::null(), Hwnd { raw: 0 });
}

//! Layout redistribution behavior.

use winmsg::error::{GuiError, SysError};
use winmsg::geom::{Extent, Rect};
use winmsg::handle::Hwnd;
use winmsg::layout::{first_failure, Horz, LayoutArranger, Vert};

#[test]
fn resize_fixed_child_grows_width_only() {
    let mut la = LayoutArranger::new();
    la.add_child(
        Hwnd { raw: 1 },
        Horz::Resize,
        Vert::Fixed,
        Extent { cx: 100, cy: 100 },
    )
    .unwrap();
    let rects = vec![Rect { x: 5, y: 6, cx: 50, cy: 20 }];
    let updates = la.rearrange(Extent { cx: 110, cy: 105 }, &rects);
    assert_eq!(updates, vec![Rect { x: 5, y: 6, cx: 60, cy: 20 }]);
}

#[test]
fn repos_repos_child_shifts_origin_only() {
    let mut la = LayoutArranger::new();
    la.add_child(
        Hwnd { raw: 1 },
        Horz::Repos,
        Vert::Repos,
        Extent { cx: 100, cy: 100 },
    )
    .unwrap();
    let rects = vec![Rect { x: 5, y: 6, cx: 50, cy: 20 }];
    let updates = la.rearrange(Extent { cx: 110, cy: 105 }, &rects);
    assert_eq!(updates, vec![Rect { x: 15, y: 11, cx: 50, cy: 20 }]);
}

#[test]
fn fixed_fixed_child_is_untouched() {
    let mut la = LayoutArranger::new();
    la.add_child(
        Hwnd { raw: 1 },
        Horz::Fixed,
        Vert::Fixed,
        Extent { cx: 100, cy: 100 },
    )
    .unwrap();
    let rects = vec![Rect { x: 5, y: 6, cx: 50, cy: 20 }];
    let updates = la.rearrange(Extent { cx: 70, cy: 200 }, &rects);
    assert_eq!(updates, vec![Rect { x: 5, y: 6, cx: 50, cy: 20 }]);
}

#[test]
fn shrinking_parent_shrinks_resized_child() {
    let mut la = LayoutArranger::new();
    la.add_child(
        Hwnd { raw: 1 },
        Horz::Resize,
        Vert::Resize,
        Extent { cx: 100, cy: 100 },
    )
    .unwrap();
    let rects = vec![Rect { x: 0, y: 0, cx: 80, cy: 90 }];
    let updates = la.rearrange(Extent { cx: 90, cy: 60 }, &rects);
    assert_eq!(updates, vec![Rect { x: 0, y: 0, cx: 70, cy: 50 }]);
}

#[test]
fn updates_apply_in_registration_order() {
    let mut la = LayoutArranger::new();
    la.add_child(
        Hwnd { raw: 1 },
        Horz::Repos,
        Vert::Fixed,
        Extent { cx: 10, cy: 10 },
    )
    .unwrap();
    la.add_child(
        Hwnd { raw: 2 },
        Horz::Resize,
        Vert::Fixed,
        Extent { cx: 999, cy: 999 },
    )
    .unwrap();
    let rects = vec![
        Rect { x: 1, y: 1, cx: 4, cy: 4 },
        Rect { x: 2, y: 2, cx: 5, cy: 5 },
    ];
    let updates = la.rearrange(Extent { cx: 13, cy: 10 }, &rects);
    // The delta is computed against the size recorded at the first
    // registration (10 x 10), so dw == 3.
    assert_eq!(
        updates,
        vec![
            Rect { x: 4, y: 1, cx: 4, cy: 4 },
            Rect { x: 2, y: 2, cx: 8, cy: 5 },
        ]
    );
}

#[test]
fn rearrange_records_parent_size_even_with_zero_children() {
    let mut la = LayoutArranger::new();
    let no_rects: Vec<Rect> = Vec::new();
    let updates = la.rearrange(Extent { cx: 300, cy: 200 }, &no_rects);
    assert!(updates.is_empty());
    // The recorded size is the base of the next delta.
    la.add_child(
        Hwnd { raw: 1 },
        Horz::Resize,
        Vert::Fixed,
        Extent { cx: 999, cy: 999 },
    )
    .unwrap();
    let rects = vec![Rect { x: 0, y: 0, cx: 10, cy: 10 }];
    let updates = la.rearrange(Extent { cx: 305, cy: 200 }, &rects);
    assert_eq!(updates, vec![Rect { x: 0, y: 0, cx: 15, cy: 10 }]);
}

#[test]
fn duplicate_child_handle_is_rejected() {
    let mut la = LayoutArranger::new();
    la.add_child(
        Hwnd { raw: 1 },
        Horz::Fixed,
        Vert::Fixed,
        Extent { cx: 10, cy: 10 },
    )
    .unwrap();
    assert_eq!(
        la.add_child(
            Hwnd { raw: 1 },
            Horz::Resize,
            Vert::Resize,
            Extent { cx: 10, cy: 10 },
        ),
        Err(GuiError::DuplicateLayoutChild)
    );
    // The rejected registration did not disturb the first one.
    let rects = vec![Rect { x: 0, y: 0, cx: 10, cy: 10 }];
    let updates = la.rearrange(Extent { cx: 20, cy: 20 }, &rects);
    assert_eq!(updates, vec![Rect { x: 0, y: 0, cx: 10, cy: 10 }]);
}

#[test]
fn updates_fit_rejects_a_coordinate_overflow() {
    let mut la = LayoutArranger::new();
    la.add_child(
        Hwnd { raw: 1 },
        Horz::Resize,
        Vert::Fixed,
        Extent { cx: 0, cy: 0 },
    )
    .unwrap();
    let rects = vec![Rect { x: 0, y: 0, cx: i32::MAX, cy: 10 }];
    // Growing the parent would push the child's width past 32 bits.
    assert!(!la.updates_fit(Extent { cx: 100, cy: 0 }, &rects));
    // Shrinking keeps it representable.
    assert!(la.updates_fit(Extent { cx: -100, cy: 0 }, &rects));
    assert_eq!(la.child_count(), 1);
}

#[test]
fn window_state_carries_its_arranger() {
    let mut b = winmsg::base::Base::new(false, None);
    b.add_to_layout_arranger(
        Hwnd { raw: 9 },
        Horz::Repos,
        Vert::Resize,
        Extent { cx: 50, cy: 40 },
    )
    .unwrap();
    assert_eq!(
        b.add_to_layout_arranger(
            Hwnd { raw: 9 },
            Horz::Fixed,
            Vert::Fixed,
            Extent { cx: 50, cy: 40 },
        ),
        Err(GuiError::DuplicateLayoutChild)
    );
    let rects = vec![Rect { x: 1, y: 2, cx: 3, cy: 4 }];
    assert!(b.arranger_ref().updates_fit(Extent { cx: 60, cy: 45 }, &rects));
    let updates = b.rearrange(Extent { cx: 60, cy: 45 }, &rects);
    assert_eq!(updates, vec![Rect { x: 11, y: 2, cx: 3, cy: 9 }]);
}

#[test]
fn only_first_update_failure_is_surfaced() {
    let outcomes = vec![
        None,
        Some(SysError { code: 5 }),
        None,
        Some(SysError { code: 8 }),
    ];
    assert_eq!(first_failure(&outcomes), Some(SysError { code: 5 }));
    let all_ok = vec![None, None];
    assert_eq!(first_failure(&all_ok), None);
}

use waysay::args::{parse, ArgButton, Args};
use waysay::event::{RenderEvent, RenderEventSlot, WindowEvent, WindowEventSlot};
use waysay::layout::{
    find_handler, label_origin, layout, message_origin, text_half_px, ClickHandler, ClickTarget,
    HORIZONTAL_PADDING, VERTICAL_PADDING,
};
use waysay::raster::{rasterize, BACKGROUND_COLOR, BUTTON_COLOR};
use waysay::surface::{Mode, PointerEvent, Step, SurfaceState};

fn disk_full_args() -> Args {
    parse(
        ["waysay", "-m", "Disk full", "-b", "Ignore", "true", "-b", "Fix", "disk-fix"]
            .iter()
            .map(|s| s.to_string())
            .collect(),
    )
    .unwrap()
}

fn button(text: &str, action: &str) -> ArgButton {
    ArgButton { text: text.to_string(), action: action.to_string() }
}

fn command(h: &ClickHandler) -> Option<String> {
    match h {
        ClickHandler::Exit => None,
        ClickHandler::RunCommand(c) => Some(c.clone()),
    }
}

fn target(x: usize, y: usize, w: usize, h: usize, handler: ClickHandler) -> ClickTarget {
    ClickTarget { position: (x, y), size: (w, h), handler }
}

/// A 400x32 bar with the "Disk full" buttons, drawn with label widths 7 ("x"),
/// 30 ("Ignore") and 15 ("Fix").
fn drawn_surface() -> SurfaceState {
    let mut s = SurfaceState::new(disk_full_args(), Mode::Bar);
    assert_eq!(Step::Draw, s.handle_events(Some(RenderEvent::Configure { width: 400, height: 32 })));
    let frame = s.redraw(&vec![7, 30, 15]);
    assert_eq!(4 * 400 * 32, frame.len());
    s
}

#[test]
fn configure_then_configure_keeps_the_second() {
    let mut slot = RenderEventSlot::new();
    assert!(slot.offer(RenderEvent::Configure { width: 10, height: 20 }));
    assert!(slot.offer(RenderEvent::Configure { width: 30, height: 40 }));
    assert_eq!(Some(RenderEvent::Configure { width: 30, height: 40 }), slot.take());
    assert_eq!(None, slot.take());
}

#[test]
fn closed_wins_over_later_configure() {
    let mut slot = RenderEventSlot::new();
    slot.offer(RenderEvent::Configure { width: 10, height: 20 });
    assert!(slot.offer(RenderEvent::Closed));
    assert!(!slot.offer(RenderEvent::Configure { width: 30, height: 40 }));
    assert_eq!(Some(RenderEvent::Closed), slot.take());
    assert!(slot.offer(RenderEvent::Configure { width: 50, height: 60 }));
    assert_eq!(Some(RenderEvent::Configure { width: 50, height: 60 }), slot.take());
}

#[test]
fn window_events_keep_priority() {
    let mut slot = WindowEventSlot::new();
    slot.offer(WindowEvent::Refresh);
    slot.offer(WindowEvent::Configure { size: Some((5, 6)) });
    slot.offer(WindowEvent::Refresh);
    assert!(matches!(slot.take(), Some(WindowEvent::Configure { size: Some((5, 6)) })));
    slot.offer(WindowEvent::Configure { size: None });
    slot.offer(WindowEvent::Close);
    slot.offer(WindowEvent::Configure { size: Some((1, 1)) });
    slot.offer(WindowEvent::Refresh);
    assert!(matches!(slot.take(), Some(WindowEvent::Close)));
    assert!(slot.take().is_none());
}

#[test]
fn hit_test_edges() {
    let t = target(10, 2, 20, 28, ClickHandler::Exit);
    assert!(t.process_click((10, 2)).is_some());
    assert!(t.process_click((29, 29)).is_some());
    assert!(t.process_click((30, 2)).is_none());
    assert!(t.process_click((10, 30)).is_none());
    assert!(t.process_click((9, 2)).is_none());
    assert!(t.process_click((-1, -1)).is_none());
}

#[test]
fn overlapping_targets_last_wins() {
    let targets = vec![
        target(0, 0, 50, 50, ClickHandler::RunCommand("first".to_string())),
        target(20, 20, 50, 50, ClickHandler::RunCommand("second".to_string())),
    ];
    assert_eq!(Some("second".to_string()), command(&find_handler(&targets, (25, 25)).unwrap()));
    assert_eq!(Some("first".to_string()), command(&find_handler(&targets, (5, 5)).unwrap()));
    assert!(find_handler(&targets, (80, 80)).is_none());
}

#[test]
fn layout_scenario_disk_full() {
    let buttons = vec![button("Ignore", "true"), button("Fix", "disk-fix")];
    let ts = layout(400, 32, &vec![7, 30, 15], &buttons).unwrap();
    assert_eq!(3, ts.len());
    // registry order: dismiss, Ignore, Fix; on screen left to right: Fix, Ignore, X
    assert_eq!((363, 2), ts[0].position);
    assert_eq!((27, 28), ts[0].size);
    assert_eq!(400 - ts[0].size.0 - 10, ts[0].position.0);
    assert_eq!((303, 2), ts[1].position);
    assert_eq!((50, 28), ts[1].size);
    assert_eq!((258, 2), ts[2].position);
    assert_eq!((35, 28), ts[2].size);
    assert!(ts[2].position.0 < ts[1].position.0 && ts[1].position.0 < ts[0].position.0);
    assert_eq!(None, command(&ts[0].handler));
    assert_eq!(Some("true".to_string()), command(&ts[1].handler));
    assert_eq!(Some("disk-fix".to_string()), command(&ts[2].handler));
}

#[test]
fn layout_without_buttons_has_only_dismiss() {
    let ts = layout(100, 10, &vec![5], &Vec::new()).unwrap();
    assert_eq!(1, ts.len());
    assert_eq!((65, 2), ts[0].position);
    assert_eq!((25, 6), ts[0].size);
    assert!(ts[0].size.0 >= 2 * HORIZONTAL_PADDING);
    assert_eq!(10 - 2 * VERTICAL_PADDING, ts[0].size.1);
}

#[test]
fn layout_rows_are_right_to_left_and_inside() {
    let buttons = vec![button("a", "1"), button("bb", "2"), button("ccc", "3")];
    let widths = vec![3, 4, 9, 1];
    let ts = layout(200, 40, &widths, &buttons).unwrap();
    assert_eq!(4, ts.len());
    for k in 0..ts.len() {
        assert!(ts[k].position.0 + ts[k].size.0 <= 200);
        assert!(ts[k].position.1 + ts[k].size.1 <= 40);
        if k > 0 {
            assert!(ts[k].position.0 + ts[k].size.0 < ts[k - 1].position.0);
        }
    }
}

#[test]
fn layout_that_does_not_fit() {
    let buttons = vec![button("a", "1")];
    // 7 + 30 + 10 + 30 = 77 > 76
    assert!(layout(76, 32, &vec![7, 10], &buttons).is_none());
    assert!(layout(77, 32, &vec![7, 10], &buttons).is_some());
    assert!(layout(400, 3, &vec![7, 10], &buttons).is_none());
    assert!(layout(400, 4, &vec![7, 10], &buttons).is_some());
}

#[test]
fn text_height_is_capped_in_bar_mode_only() {
    assert_eq!(32, text_half_px(true, 40));
    assert_eq!(20, text_half_px(true, 20));
    assert_eq!(40, text_half_px(false, 40));
}

#[test]
fn text_origins() {
    let t = target(363, 2, 27, 28, ClickHandler::Exit);
    // (2 * 28 - 32) / 4 = 6
    assert_eq!((373, 6), label_origin(&t, 32));
    let short = target(0, 2, 27, 3, ClickHandler::Exit);
    assert_eq!((10, 0), label_origin(&short, 32));
    // 32 / 2 - 32 / 4 = 8
    assert_eq!((10, 8), message_origin(32, 32));
    assert_eq!((10, 60), message_origin(240, 240));
}

#[test]
fn rasterize_paints_background_then_buttons() {
    let targets = vec![target(1, 1, 2, 1, ClickHandler::Exit)];
    let buf = rasterize(4, 3, &targets);
    assert_eq!(48, buf.len());
    let pixel = |x: usize, y: usize| buf[4 * (4 * y + x)..4 * (4 * y + x) + 4].to_vec();
    let bg = vec![BACKGROUND_COLOR[3], BACKGROUND_COLOR[2], BACKGROUND_COLOR[1], BACKGROUND_COLOR[0]];
    let bt = vec![BUTTON_COLOR[3], BUTTON_COLOR[2], BUTTON_COLOR[1], BUTTON_COLOR[0]];
    assert_eq!(vec![0, 0, 200, 255], bg);
    assert_eq!(bg, pixel(0, 0));
    assert_eq!(bg, pixel(0, 1));
    assert_eq!(bt, pixel(1, 1));
    assert_eq!(bt, pixel(2, 1));
    assert_eq!(bg, pixel(3, 1));
    assert_eq!(bg, pixel(1, 2));
}

#[test]
fn rasterize_clips_to_surface_and_handles_empty() {
    let targets = vec![target(3, 0, 10, 10, ClickHandler::Exit)];
    let buf = rasterize(4, 2, &targets);
    assert_eq!(vec![0, 0, 100, 255], buf[12..16].to_vec());
    assert_eq!(vec![0, 0, 100, 255], buf[28..32].to_vec());
    assert_eq!(vec![0, 0, 200, 255], buf[24..28].to_vec());
    assert!(rasterize(0, 5, &targets).is_empty());
}

#[test]
fn clicking_dismiss_requests_exit() {
    let mut s = drawn_surface();
    assert_eq!(Step::Idle, s.handle_events(None));
    assert_eq!(None, s.handle_pointer_event(PointerEvent::Moved { x: 370, y: 10 }));
    assert_eq!(None, s.handle_pointer_event(PointerEvent::Pressed));
    assert!(s.should_exit);
    assert_eq!(Step::Drop, s.handle_events(None));
}

#[test]
fn clicking_button_returns_its_command() {
    let mut s = drawn_surface();
    s.handle_pointer_event(PointerEvent::Moved { x: 303, y: 2 });
    assert_eq!(Some("true".to_string()), s.handle_pointer_event(PointerEvent::Pressed));
    assert!(!s.should_exit);
    s.handle_pointer_event(PointerEvent::Moved { x: 260, y: 29 });
    assert_eq!(Some("disk-fix".to_string()), s.handle_pointer_event(PointerEvent::Pressed));
    assert!(!s.should_exit);
    assert_eq!(Step::Idle, s.handle_events(None));
}

#[test]
fn clicks_outside_targets_do_nothing() {
    let mut s = drawn_surface();
    assert_eq!(None, s.handle_pointer_event(PointerEvent::Pressed));
    s.handle_pointer_event(PointerEvent::Moved { x: 353, y: 10 });
    assert_eq!(None, s.handle_pointer_event(PointerEvent::Pressed));
    s.handle_pointer_event(PointerEvent::Moved { x: 370, y: 30 });
    assert_eq!(None, s.handle_pointer_event(PointerEvent::Other));
    assert_eq!(None, s.handle_pointer_event(PointerEvent::Pressed));
    assert!(!s.should_exit);
}

#[test]
fn closed_while_configure_pending_drops_surface() {
    let mut s = SurfaceState::new(disk_full_args(), Mode::Bar);
    let mut slot = RenderEventSlot::new();
    slot.offer(RenderEvent::Configure { width: 400, height: 32 });
    slot.offer(RenderEvent::Closed);
    assert_eq!(Step::Drop, s.handle_events(slot.take()));
    assert_eq!((0, 0), s.dimensions);
    assert!(s.click_targets.is_empty());
}

#[test]
fn redraw_replaces_registry() {
    let mut s = drawn_surface();
    assert_eq!(3, s.click_targets.len());
    s.handle_events(Some(RenderEvent::Configure { width: 200, height: 20 }));
    s.redraw(&vec![7, 30, 15]);
    assert_eq!(3, s.click_targets.len());
    assert_eq!((163, 2), s.click_targets[0].position);
    assert_eq!((27, 16), s.click_targets[0].size);
    s.handle_events(Some(RenderEvent::Configure { width: 50, height: 20 }));
    let frame = s.redraw(&vec![7, 30, 15]);
    assert!(s.click_targets.is_empty());
    assert_eq!(vec![0, 0, 200, 255], frame[0..4].to_vec());
}

#[test]
fn dismiss_block_measures_back_from_frame() {
    let mut s = SurfaceState::new(disk_full_args(), Mode::Bar);
    s.handle_events(Some(RenderEvent::Configure { width: 400, height: 32 }));
    let frame = s.redraw(&vec![7, 30, 15]);
    let is_button = |x: usize, y: usize| frame[4 * (400 * y + x)..4 * (400 * y + x) + 4] == [0, 0, 100, 255];
    // measure the run of button pixels on row 16 that ends left of the right padding
    let mut left = 389;
    while is_button(left - 1, 16) {
        left -= 1;
    }
    assert!(!is_button(390, 16));
    assert_eq!(363, left);
    assert_eq!(27, 390 - left);
    assert!(390 - left >= 2 * HORIZONTAL_PADDING);
    let mut top = 16;
    while top > 0 && is_button(370, top - 1) {
        top -= 1;
    }
    let mut bottom = 16;
    while bottom < 31 && is_button(370, bottom + 1) {
        bottom += 1;
    }
    assert_eq!(32 - 2 * VERTICAL_PADDING, bottom + 1 - top);
}

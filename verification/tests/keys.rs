use riffle::{CycleStep, Key, KeyStep, PagerHandle};

fn surface_with_lines(count: usize) -> PagerHandle {
    let mut handle = PagerHandle::new();
    for i in 0..count {
        handle.append(&format!("line {}", i));
    }
    handle
}

#[test]
fn quit_keys_end_the_loop_without_touching_the_surface() {
    for (key, ctrl) in [
        (Key::Char('q'), false),
        (Key::Char('Q'), false),
        (Key::Esc, false),
        (Key::Char('c'), true),
    ] {
        let mut handle = surface_with_lines(10);
        handle.scroll_to(3);
        let step = handle.handle_key(key, ctrl, 4);
        assert_eq!(step, KeyStep::Quit);
        assert_eq!(handle.scroll_position(), 3);
        assert!(!handle.quit_requested);
    }
}

#[test]
fn plain_c_is_forwarded_not_quit() {
    let mut handle = surface_with_lines(10);
    let step = handle.handle_key(Key::Char('c'), false, 4);
    assert_eq!(step, KeyStep::Forward);
}

#[test]
fn line_keys_scroll_by_one() {
    for key in [Key::Down, Key::Char('j'), Key::Enter] {
        let mut handle = surface_with_lines(10);
        let step = handle.handle_key(key, false, 4);
        assert_eq!(step, KeyStep::Redraw);
        assert_eq!(handle.scroll_position(), 1);
    }
    for key in [Key::Up, Key::Char('k')] {
        let mut handle = surface_with_lines(10);
        handle.scroll_to(2);
        let step = handle.handle_key(key, false, 4);
        assert_eq!(step, KeyStep::Redraw);
        assert_eq!(handle.scroll_position(), 1);
    }
}

#[test]
fn control_does_not_block_navigation_keys() {
    let mut handle = surface_with_lines(10);
    let step = handle.handle_key(Key::Char('j'), true, 4);
    assert_eq!(step, KeyStep::Redraw);
    assert_eq!(handle.scroll_position(), 1);
}

#[test]
fn paging_keys_scroll_by_the_body_height() {
    let mut handle = surface_with_lines(20);
    let step = handle.handle_key(Key::PageDown, false, 6);
    assert_eq!(step, KeyStep::Redraw);
    assert_eq!(handle.scroll_position(), 6);
    let step = handle.handle_key(Key::PageUp, false, 6);
    assert_eq!(step, KeyStep::Redraw);
    assert_eq!(handle.scroll_position(), 0);
}

#[test]
fn home_and_end_jump() {
    let mut handle = surface_with_lines(20);
    handle.scroll_to(5);
    let step = handle.handle_key(Key::End, false, 6);
    assert_eq!(step, KeyStep::Redraw);
    assert_eq!(handle.scroll_position(), 14);
    let step = handle.handle_key(Key::Home, false, 6);
    assert_eq!(step, KeyStep::Redraw);
    assert_eq!(handle.scroll_position(), 0);
}

#[test]
fn unrecognized_key_changes_nothing_and_redraws_once() {
    let mut handle = surface_with_lines(10);
    handle.header("h");
    handle.footer("f");
    handle.scroll_to(2);
    let buffer_before = handle.buffer.clone();
    let header_before = handle.header.clone();
    let footer_before = handle.footer.clone();

    let step = handle.handle_key(Key::Char('x'), false, 4);
    assert_eq!(step, KeyStep::Forward);
    assert_eq!(handle.scroll_position(), 2);
    assert_eq!(handle.buffer, buffer_before);
    assert_eq!(handle.header, header_before);
    assert_eq!(handle.footer, footer_before);

    // No keypress callback is registered, so the host runs only the resize
    // hook; the check point then asks for exactly one redraw.
    let after = handle.post_callback_step();
    assert_eq!(after, CycleStep::Redraw);
}

#[test]
fn keypress_callback_quit_ends_the_cycle_after_one_resize() {
    let mut handle = surface_with_lines(10);
    let mut resize_calls = 0;

    // The host loop: an unmatched key is forwarded to the keypress
    // callback, then the resize hook runs, then the check point decides.
    let step = handle.handle_key(Key::Char('e'), false, 4);
    assert_eq!(step, KeyStep::Forward);

    // on_keypress: the host requests quit for 'e'.
    handle.quit();
    // on_resize runs exactly once in this cycle.
    resize_calls += 1;

    let after = handle.post_callback_step();
    assert_eq!(after, CycleStep::Quit);
    assert_eq!(resize_calls, 1);
}

#[test]
fn resize_cycle_redraws_unless_quit_was_requested() {
    let handle = surface_with_lines(3);
    assert_eq!(handle.post_callback_step(), CycleStep::Redraw);
    let mut quitting = surface_with_lines(3);
    quitting.quit();
    assert_eq!(quitting.post_callback_step(), CycleStep::Quit);
}

#[test]
fn forwarded_keys_keep_their_identity() {
    let mut handle = surface_with_lines(3);
    for key in [
        Key::Char('x'),
        Key::Left,
        Key::Right,
        Key::Backspace,
        Key::Delete,
        Key::Insert,
        Key::Tab,
        Key::BackTab,
        Key::F(5),
        Key::Other,
    ] {
        let step = handle.handle_key(key, false, 4);
        assert_eq!(step, KeyStep::Forward);
    }
    assert_eq!(handle.scroll_position(), 0);
}

use riffle::PagerHandle;

fn surface_with_lines(count: usize) -> PagerHandle {
    let mut handle = PagerHandle::new();
    for i in 0..count {
        handle.append(&format!("line {}", i));
    }
    handle
}

fn rows_and_texts(handle: &PagerHandle, height: u16) -> Vec<(u16, String)> {
    handle
        .render_plan(height)
        .into_iter()
        .map(|write| (write.row, write.text))
        .collect()
}

#[test]
fn full_repaint_places_header_body_and_footer() {
    let mut handle = surface_with_lines(5);
    handle.header("h0\nh1");
    handle.footer("f0");
    handle.scroll_to(1);
    let plan = rows_and_texts(&handle, 6);
    assert_eq!(
        plan,
        vec![
            (0, "h0".to_string()),
            (1, "h1".to_string()),
            (2, "line 1".to_string()),
            (3, "line 2".to_string()),
            (4, "line 3".to_string()),
            (5, "f0".to_string()),
        ]
    );
}

#[test]
fn body_stops_early_when_content_runs_out() {
    let handle = surface_with_lines(2);
    let plan = rows_and_texts(&handle, 10);
    assert_eq!(
        plan,
        vec![(0, "line 0".to_string()), (1, "line 1".to_string())]
    );
}

#[test]
fn offset_beyond_content_draws_no_body() {
    let mut handle = surface_with_lines(3);
    handle.scroll_to(50);
    let plan = rows_and_texts(&handle, 10);
    assert_eq!(plan, Vec::<(u16, String)>::new());
}

#[test]
fn oversized_header_fills_the_screen_alone() {
    let mut handle = surface_with_lines(9);
    handle.header("a\nb\nc\nd\ne\nf");
    let plan = rows_and_texts(&handle, 4);
    assert_eq!(
        plan,
        vec![
            (0, "a".to_string()),
            (1, "b".to_string()),
            (2, "c".to_string()),
            (3, "d".to_string()),
        ]
    );
}

#[test]
fn footer_is_clipped_to_the_rows_that_exist() {
    let mut handle = surface_with_lines(0);
    handle.header("h");
    handle.footer("f0\nf1\nf2\nf3");
    let plan = rows_and_texts(&handle, 3);
    assert_eq!(plan, vec![(0, "h".to_string()), (1, "f0".to_string()), (2, "f1".to_string())]);
}

#[test]
fn repaint_is_deterministic() {
    let mut handle = surface_with_lines(8);
    handle.header("top");
    handle.scroll_to(2);
    let first = rows_and_texts(&handle, 5);
    let second = rows_and_texts(&handle, 5);
    assert_eq!(first, second);
}

#[test]
fn zero_height_terminal_draws_nothing() {
    let mut handle = surface_with_lines(4);
    handle.header("h");
    handle.footer("f");
    let plan = rows_and_texts(&handle, 0);
    assert_eq!(plan, Vec::<(u16, String)>::new());
}

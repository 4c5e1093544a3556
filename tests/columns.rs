use fb2k24::columns::{Columns, Input, LoopState, SCREEN_HEIGHT};
use fb2k24::layout::{Rect, INSET, PADDING};

fn uniform(rows: usize, height: u32) -> Columns<usize> {
    let mut c = Columns::init();
    for i in 0..rows {
        c.add(i, 10 + i as u32, height);
    }
    c
}

fn select(c: &mut Columns<usize>, index: usize) {
    for _ in 0..index {
        assert_eq!(c.handle(Input::Next), LoopState::Running);
    }
    assert_eq!(c.selected(), index);
}

#[test]
fn visible_rows_is_viewport_over_row_height() {
    assert_eq!(uniform(1, 20).visible_rows(), 24);
    assert_eq!(uniform(1, 25).visible_rows(), 19);
    assert_eq!(uniform(1, 481).visible_rows(), 0);
    let mut c = Columns::with_viewport_height(100);
    c.add((), 5, 30);
    assert_eq!(c.visible_rows(), 3);
    assert_eq!(c.viewport_height(), 100);
}

#[test]
fn top_visible_is_zero_in_first_half_screen() {
    let mut c = uniform(100, 20);
    assert_eq!(c.top_visible(), 0);
    select(&mut c, 12);
    assert_eq!(c.top_visible(), 0);
    assert_eq!(c.selected_visible(), 12);
}

#[test]
fn top_visible_keeps_selection_centered() {
    let mut c = uniform(100, 20);
    select(&mut c, 13);
    assert_eq!(c.top_visible(), 1);
    assert_eq!(c.selected_visible(), 12);
    for _ in 0..90 {
        c.handle(Input::Next);
    }
    assert_eq!(c.selected(), 99);
    assert_eq!(c.top_visible(), 87);
    assert_eq!(c.selected_visible(), 12);
    for _ in 0..99 {
        c.handle(Input::Previous);
    }
    assert_eq!(c.selected(), 0);
    assert_eq!(c.top_visible(), 0);
}

#[test]
fn end_to_end_viewport_scenario() {
    let mut c = uniform(100, 20);
    assert_eq!(SCREEN_HEIGHT, 480);
    assert_eq!(c.visible_rows(), 24);
    select(&mut c, 50);
    assert_eq!(c.top_visible(), 38);
    assert_eq!(c.selected_visible(), 12);
}

#[test]
fn three_rows_totals() {
    let mut c = Columns::init();
    c.add("a", 50, 20);
    c.add("b", 80, 20);
    c.add("c", 60, 20);
    assert_eq!(c.total_height(), 60);
    assert_eq!(c.max_width(), 80);
    assert_eq!(c.line_height(), 20);
    assert_eq!(c.len(), 3);
    assert_eq!(*c.item(1), "b");
    assert_eq!(c.width(2), 60);
}

#[test]
fn last_row_height_wins() {
    let mut c = Columns::init();
    c.add(0, 30, 10);
    c.add(1, 20, 25);
    c.add(2, 10, 15);
    assert_eq!(c.total_height(), 50);
    assert_eq!(c.max_width(), 30);
    assert_eq!(c.line_height(), 15);
}

#[test]
fn empty_list() {
    let c: Columns<u8> = Columns::init();
    assert_eq!(c.len(), 0);
    assert_eq!(c.selected(), 0);
    assert_eq!(c.total_height(), 0);
    assert_eq!(c.max_width(), 0);
    assert_eq!(c.line_height(), 0);
}

#[test]
fn selection_stays_inside_the_list() {
    let mut c = uniform(3, 20);
    assert_eq!(c.handle(Input::Previous), LoopState::Running);
    assert_eq!(c.selected(), 0);
    c.handle(Input::Next);
    c.handle(Input::Next);
    c.handle(Input::Next);
    assert_eq!(c.selected(), 2);
    c.handle(Input::Previous);
    assert_eq!(c.selected(), 1);
    assert_eq!(c.handle(Input::Other), LoopState::Running);
    assert_eq!(c.selected(), 1);
    assert_eq!(c.handle(Input::Quit), LoopState::Terminated);
    assert_eq!(c.selected(), 1);
    let mut e: Columns<u8> = Columns::init();
    e.handle(Input::Next);
    assert_eq!(e.selected(), 0);
}

#[test]
fn layout_of_a_short_list() {
    let mut c = Columns::init();
    c.add('a', 50, 20);
    c.add('b', 80, 20);
    c.add('c', 60, 20);
    c.handle(Input::Next);
    let l = c.layout(10, 5);
    assert_eq!(l.rows.len(), 3);
    assert_eq!(l.rows[0].index, 0);
    assert_eq!(l.rows[0].rect, Rect { x: 10 + INSET, y: 5, width: 50, height: 20 });
    assert_eq!(l.rows[1].rect, Rect { x: 12, y: 25, width: 80, height: 20 });
    assert_eq!(l.rows[2].index, 2);
    assert_eq!(l.rows[2].rect, Rect { x: 12, y: 45, width: 60, height: 20 });
    assert_eq!(l.highlight, Some(Rect { x: 10, y: 25, width: 80 + PADDING, height: 20 }));
    assert_eq!(l.border, Rect { x: 10, y: 5, width: 84, height: 60 });
}

#[test]
fn layout_of_a_scrolled_list() {
    let mut c = uniform(100, 20);
    select(&mut c, 50);
    let l = c.layout(0, 0);
    assert_eq!(l.rows.len(), 24);
    assert_eq!(l.rows[0].index, 38);
    assert_eq!(l.rows[0].rect, Rect { x: 2, y: 0, width: 48, height: 20 });
    assert_eq!(l.rows[23].index, 61);
    assert_eq!(l.rows[23].rect, Rect { x: 2, y: 460, width: 71, height: 20 });
    assert_eq!(l.highlight, Some(Rect { x: 0, y: 240, width: 113, height: 20 }));
    assert_eq!(l.border, Rect { x: 0, y: 0, width: 113, height: 2000 });
}

#[test]
fn layout_at_the_end_of_the_list() {
    let mut c = uniform(30, 20);
    select(&mut c, 29);
    let l = c.layout(0, 0);
    assert_eq!(c.top_visible(), 17);
    assert_eq!(l.rows.len(), 13);
    assert_eq!(l.rows[12].index, 29);
    assert_eq!(l.highlight, Some(Rect { x: 0, y: 240, width: 43, height: 20 }));
}

#[test]
fn layout_with_rows_taller_than_the_viewport() {
    let mut c = Columns::init();
    c.add(0, 10, 500);
    c.add(1, 10, 500);
    let l = c.layout(0, 0);
    assert_eq!(c.visible_rows(), 0);
    assert_eq!(l.rows.len(), 1);
    assert_eq!(l.rows[0].index, 0);
    assert_eq!(l.highlight, Some(Rect { x: 0, y: 0, width: 14, height: 500 }));
    c.handle(Input::Next);
    let l = c.layout(0, 0);
    assert_eq!(c.top_visible(), 1);
    assert_eq!(l.rows.len(), 1);
    assert_eq!(l.rows[0].index, 1);
    assert_eq!(l.rows[0].rect, Rect { x: 2, y: 0, width: 10, height: 500 });
    assert_eq!(l.highlight, Some(Rect { x: 0, y: 0, width: 14, height: 500 }));
    assert_eq!(l.border, Rect { x: 0, y: 0, width: 14, height: 1000 });
}

#[test]
fn layout_keeps_a_partly_visible_last_row() {
    let c = uniform(30, 25);
    assert_eq!(c.visible_rows(), 19);
    let l = c.layout(0, 0);
    assert_eq!(l.rows.len(), 20);
    assert_eq!(l.rows[19].index, 19);
    assert_eq!(l.rows[19].rect, Rect { x: 2, y: 475, width: 29, height: 25 });
    assert_eq!(l.highlight, Some(Rect { x: 0, y: 0, width: 43, height: 25 }));
}

#[test]
fn layout_of_an_empty_viewport() {
    let mut c = Columns::with_viewport_height(0);
    c.add(7, 10, 20);
    let l = c.layout(0, 0);
    assert!(l.rows.is_empty());
    assert_eq!(l.highlight, None);
}

#[test]
fn from_rows_adds_in_order() {
    let c = Columns::from_rows(vec![("a", 50, 20), ("b", 80, 20), ("c", 60, 10)]);
    assert_eq!(c.len(), 3);
    assert_eq!(*c.item(0), "a");
    assert_eq!(*c.item(2), "c");
    assert_eq!(c.width(1), 80);
    assert_eq!(c.total_height(), 50);
    assert_eq!(c.max_width(), 80);
    assert_eq!(c.line_height(), 10);
    assert_eq!(c.selected(), 0);
    assert_eq!(c.viewport_height(), SCREEN_HEIGHT);
}

#[test]
fn from_rows_of_nothing() {
    let c: Columns<u8> = Columns::from_rows(Vec::new());
    assert_eq!(c.len(), 0);
    assert_eq!(c.total_height(), 0);
    assert_eq!(c.line_height(), 0);
}

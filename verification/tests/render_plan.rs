//! Scenarios for the renderer's geometry: the occlusion rectangle, the
//! wrapped-fit font size, vertical centering, and the frame plan.

use translation_overlay::geometry::{BoundingBox, Rect, Sentence};
use translation_overlay::render::{
    fitted_font_size, line_top, plan_frame, plan_sentence, Style,
};

#[test]
fn occlusion_rectangle_round_trip() {
    let b = BoundingBox::new(10, 20, 110, 70);
    let r = b.occlusion_rect();
    assert_eq!(r, Rect { x: 10, y: 20, width: 100, height: 50 });
    assert_eq!(b.width(), 100);
    assert_eq!(b.height(), 50);
    // The size form converts back to the very same box.
    assert_eq!(BoundingBox::from_min_size(10, 20, 100, 50), Some(b));
}

#[test]
fn from_min_size_rejects_overflowing_corners() {
    assert_eq!(BoundingBox::from_min_size(u32::MAX, 0, 1, 0), None);
    assert_eq!(BoundingBox::from_min_size(0, u32::MAX, 0, 1), None);
    assert_eq!(
        BoundingBox::from_min_size(u32::MAX - 1, 3, 1, 0),
        Some(BoundingBox::new(u32::MAX - 1, 3, u32::MAX, 3))
    );
}

#[test]
fn from_corners_rejects_unordered_corners() {
    assert_eq!(BoundingBox::from_corners(5, 1, 2, 3), None);
    assert_eq!(BoundingBox::from_corners(1, 9, 2, 3), None);
    assert_eq!(
        BoundingBox::from_corners(1, 2, 3, 4),
        Some(BoundingBox::new(1, 2, 3, 4))
    );
}

#[test]
fn single_line_keeps_base_size() {
    let style = Style::new(20, 2);
    assert_eq!(fitted_font_size(&style, 1), 20);
    // A measured count of zero is read as one line.
    assert_eq!(fitted_font_size(&style, 0), 20);
}

#[test]
fn three_lines_shrink_by_two_per_extra_line() {
    let style = Style::new(20, 2);
    assert_eq!(fitted_font_size(&style, 3), 16);
}

#[test]
fn font_size_never_drops_below_one() {
    let style = Style::new(5, 3);
    assert_eq!(fitted_font_size(&style, 4), 1);
    assert_eq!(fitted_font_size(&style, 1000), 1);
}

#[test]
fn wrapped_block_is_vertically_centered() {
    // Box of height 100; three lines at the shrunk size 16 make a block of
    // 48, so the block starts (100 - 48) / 2 = 26 below the box top.
    let s = Sentence::new(String::from("some wrapped text"), BoundingBox::new(10, 20, 110, 120));
    let style = Style::new(20, 2);
    let plan = plan_sentence(&s, &style, 3, 0).expect("non-empty text is drawn");
    assert_eq!(plan.font_size, 16);
    assert_eq!(plan.block_top, 46);
    assert_eq!(plan.left_x, 10);
    assert_eq!(plan.line_count, 3);
    assert_eq!(line_top(&plan, 0), 46);
    assert_eq!(line_top(&plan, 1), 62);
    assert_eq!(line_top(&plan, 2), 78);
}

#[test]
fn block_taller_than_box_sits_at_box_top() {
    let s = Sentence::new(String::from("tall"), BoundingBox::new(0, 40, 90, 50));
    let style = Style::new(20, 0);
    let plan = plan_sentence(&s, &style, 3, 0).expect("non-empty text is drawn");
    // Three lines of 20 exceed the box height of 10: flush with the top.
    assert_eq!(plan.font_size, 20);
    assert_eq!(plan.block_top, 40);
}

#[test]
fn empty_text_suppresses_panel_and_text() {
    let s = Sentence::new(String::new(), BoundingBox::new(0, 0, 500, 500));
    let style = Style::new(20, 2);
    assert!(plan_sentence(&s, &style, 1, 0).is_none());
}

#[test]
fn hello_frame_paints_exactly_one_panel() {
    let sentences = vec![Sentence::new(String::from("Hello"), BoundingBox::new(0, 0, 50, 20))];
    let line_counts = vec![1];
    let style = Style::new(12, 2);
    let frame = plan_frame(&sentences, &line_counts, &style);
    assert_eq!(frame.items.len(), 1);
    let plan = frame.items[0];
    assert_eq!(plan.sentence_index, 0);
    assert_eq!(plan.occlusion, Rect { x: 0, y: 0, width: 50, height: 20 });
    // "Hello" fitted inside: one line at the base size, centered in the box.
    assert_eq!(plan.font_size, 12);
    assert_eq!(plan.block_top, 4);
    assert_eq!(plan.left_x, 0);
    assert!(frame.repaint);
}

#[test]
fn empty_detection_list_draws_nothing_but_repaints() {
    let frame = plan_frame(&Vec::new(), &Vec::new(), &Style::new(20, 2));
    assert!(frame.items.is_empty());
    assert!(frame.repaint);
}

#[test]
fn blank_sentences_are_skipped_in_order() {
    let sentences = vec![
        Sentence::new(String::new(), BoundingBox::new(0, 0, 10, 10)),
        Sentence::new(String::from("kept"), BoundingBox::new(5, 5, 30, 15)),
        Sentence::new(String::new(), BoundingBox::new(20, 20, 40, 40)),
        Sentence::new(String::from("also kept"), BoundingBox::new(7, 8, 90, 30)),
    ];
    let line_counts = vec![1, 1, 4, 2];
    let style = Style::new(10, 1);
    let frame = plan_frame(&sentences, &line_counts, &style);
    assert_eq!(frame.items.len(), 2);
    assert_eq!(frame.items[0].sentence_index, 1);
    assert_eq!(frame.items[0].occlusion, Rect { x: 5, y: 5, width: 25, height: 10 });
    assert_eq!(frame.items[1].sentence_index, 3);
    assert_eq!(frame.items[1].occlusion, Rect { x: 7, y: 8, width: 83, height: 22 });
    // The second kept sentence wraps to two lines: 10 - 1 = 9.
    assert_eq!(frame.items[1].font_size, 9);
}

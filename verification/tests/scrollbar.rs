use minui::widgets::controls::{ScrollBarOptions, SliderOrientation};
use minui::widgets::scroll::ScrollOrientation;
use minui::widgets::scrollbar::{
    draw_slider_track, drag_offset_virtual, dragged_thumb_start, pointer_axis_cells,
};
use minui::{Canvas, Color, ColorPair, WidgetArea, WindowView};

fn ops_of(canvas: &Canvas) -> Vec<(u16, u16, String)> {
    canvas.ops().iter().map(|op| (op.y, op.x, op.text.clone())).collect()
}

fn view(x: u16, y: u16, w: u16, h: u16) -> WindowView {
    WindowView { x_offset: x, y_offset: y, scroll_x: 0, scroll_y: 0, width: w, height: h }
}

#[test]
fn vertical_bar_puts_arrows_at_the_ends() {
    let opts = ScrollBarOptions { show_arrows: true, ..ScrollBarOptions::default() };
    let parts = opts.part_views(1, 10);
    assert_eq!(parts.arrows, Some((view(0, 0, 1, 1), view(0, 9, 1, 1))));
    assert_eq!(parts.track, view(0, 1, 1, 8));
    assert_eq!(opts.track_len_cells(1, 10), 8);
    let area = WidgetArea::new(5, 2, 1, 10);
    assert_eq!(opts.slider_area_within(area), WidgetArea::new(5, 3, 1, 8));
    assert_eq!(opts.start_arrow_area_within(area), WidgetArea::new(5, 2, 1, 1));
    assert_eq!(opts.end_arrow_area_within(area), WidgetArea::new(5, 11, 1, 1));
}

#[test]
fn horizontal_bar_without_arrows_is_all_track() {
    let opts = ScrollBarOptions { orientation: ScrollOrientation::Horizontal, ..ScrollBarOptions::default() };
    let parts = opts.part_views(10, 0);
    assert_eq!(parts.arrows, None);
    assert_eq!(parts.track, view(0, 0, 10, 1));
}

#[test]
fn arrows_are_drawn_through_their_views() {
    let opts = ScrollBarOptions { show_arrows: true, ..ScrollBarOptions::default() };
    let mut canvas = Canvas::new(3, 10);
    opts.draw_arrows(&mut canvas, 3, 10);
    assert_eq!(ops_of(&canvas), vec![(0, 1, "▲".to_string()), (9, 1, "▼".to_string())]);
}

#[test]
fn vertical_track_shows_half_blocks_at_thumb_edges() {
    let track = ColorPair::new(Color::DarkGray, Color::Transparent);
    let thumb = ColorPair::new(Color::White, Color::Transparent);
    let mut canvas = Canvas::new(1, 4);
    draw_slider_track(&mut canvas, SliderOrientation::Vertical, 1, 4, 1, 3, track, thumb);
    assert_eq!(
        ops_of(&canvas),
        vec![
            (0, 0, " ".to_string()),
            (1, 0, " ".to_string()),
            (2, 0, " ".to_string()),
            (3, 0, " ".to_string()),
            (0, 0, "▄".to_string()),
            (1, 0, "█".to_string()),
        ]
    );
}

#[test]
fn horizontal_track_fills_its_rows_then_the_thumb() {
    let track = ColorPair::new(Color::DarkGray, Color::Transparent);
    let thumb = ColorPair::new(Color::White, Color::Transparent);
    let mut canvas = Canvas::new(4, 1);
    draw_slider_track(&mut canvas, SliderOrientation::Horizontal, 4, 1, 0, 3, track, thumb);
    let ops = ops_of(&canvas);
    assert_eq!(ops.len(), 6);
    assert_eq!(&ops[4..], &[(0, 0, "█".to_string()), (0, 1, "▌".to_string())]);
    assert!(canvas.ops()[..4].iter().all(|o| o.colors == Some(track) && o.text == " "));
}

#[test]
fn pointer_positions_are_clamped_to_the_track() {
    let area = WidgetArea::new(2, 3, 1, 5);
    assert_eq!(pointer_axis_cells(SliderOrientation::Vertical, 2, 10, area), 4);
    assert_eq!(pointer_axis_cells(SliderOrientation::Vertical, 9, 0, area), 0);
    assert_eq!(pointer_axis_cells(SliderOrientation::Vertical, 2, 5, area), 2);
    assert_eq!(drag_offset_virtual(SliderOrientation::Vertical, 2, 6, area, 2, 4), 4);
    assert_eq!(drag_offset_virtual(SliderOrientation::Vertical, 2, 3, area, 2, 4), 0);
    assert_eq!(dragged_thumb_start(SliderOrientation::Vertical, 2, 7, area, 5, 4, 1), (6, 6));
    assert_eq!(dragged_thumb_start(SliderOrientation::Vertical, 2, 5, area, 5, 4, 1), (3, 6));
}

#[test]
fn a_scrollbar_draws_its_arrows_then_its_track() {
    let opts = ScrollBarOptions { show_arrows: true, ..ScrollBarOptions::default() };
    let mut canvas = Canvas::new(10, 10);
    opts.draw_bar(&mut canvas, 1, 6, 0, 4);
    let ops = ops_of(&canvas);
    assert!(ops.len() >= 3);
    assert_eq!(ops[0].0, 0);
    assert_eq!(ops[1].0, 5);
    assert!(ops[2..].iter().all(|o| o.0 >= 1 && o.0 <= 4 && o.1 == 0));
}

#[test]
fn clicks_on_the_arrows_step_back_and_forth() {
    let opts = ScrollBarOptions { show_arrows: true, scroll_step: Some(3), ..ScrollBarOptions::default() };
    let area = WidgetArea::new(4, 2, 1, 6);
    assert_eq!(opts.arrow_click_step(4, 2, area), Some(-3));
    assert_eq!(opts.arrow_click_step(4, 7, area), Some(3));
    assert_eq!(opts.arrow_click_step(4, 4, area), None);
    assert_eq!(opts.arrow_click_step(5, 2, area), None);
    let plain = ScrollBarOptions::default();
    assert_eq!(plain.arrow_click_step(4, 2, area), None);
}

use termgrid::common::{compile_buffer, Color, Vec2};
use termgrid::draw::border::{determine_edge, BorderFlags, BorderStyle};
use termgrid::draw::boxes::{draw_box, BoxChar, BoxOptions, DrawError};
use termgrid::window::{Container, DivOptions};

fn row_glyphs(buffer: &Vec<Vec<BoxChar>>, r: usize) -> String {
    buffer[r].iter().map(|c| c.content).collect()
}

fn plain_request(screen: Vec2<usize>, x: i16, y: i16, w: usize, h: usize) -> BoxOptions {
    BoxOptions {
        screen_size: screen,
        position: Vec2::new(x, y),
        size: Vec2::new(w, h),
        border_options: BorderFlags::all(),
        border_style: BorderStyle::Sharp,
        border_color: None,
        background_color: None,
        text_color: None,
        content: None,
    }
}

#[test]
fn corner_fallback_without_preserve() {
    let corner = determine_edge(
        &BorderFlags::top(),
        &BorderStyle::Sharp,
        BorderFlags::top().union(BorderFlags::left()),
    );
    assert_eq!(corner, '─');
}

#[test]
fn corner_kept_with_preserve() {
    let corner = determine_edge(
        &BorderFlags::top().union(BorderFlags::preserve_corners()),
        &BorderStyle::Sharp,
        BorderFlags::top().union(BorderFlags::left()),
    );
    assert_eq!(corner, '┌');
}

#[test]
fn edge_blank_when_nothing_requested() {
    let glyph = determine_edge(&BorderFlags::none(), &BorderStyle::Rounded, BorderFlags::top());
    assert_eq!(glyph, ' ');
}

#[test]
fn left_edge_wins_fallback_when_top_not_requested() {
    let glyph = determine_edge(
        &BorderFlags::left(),
        &BorderStyle::Sharp,
        BorderFlags::top().union(BorderFlags::left()),
    );
    assert_eq!(glyph, '│');
}

#[test]
fn hanging_corners_on_a_single_rule() {
    let mut container = Container::new(Vec2::new(6, 2));
    container.draw_box(DivOptions {
        id: None,
        position: Vec2::new(0, 0),
        size: Vec2::new(6, 2),
        border_options: BorderFlags::top().union(BorderFlags::preserve_corners()),
        border_style: BorderStyle::Sharp,
        border_color: None,
        background_color: None,
        text_color: None,
        content: None,
    });
    assert_eq!(row_glyphs(&container.buffer, 0), "┌────┐");
    assert_eq!(row_glyphs(&container.buffer, 1), "      ");
}

#[test]
fn plain_rule_without_preserved_corners() {
    let mut container = Container::new(Vec2::new(6, 2));
    container.draw_box(DivOptions {
        id: None,
        position: Vec2::new(0, 0),
        size: Vec2::new(6, 2),
        border_options: BorderFlags::top(),
        border_style: BorderStyle::Sharp,
        border_color: None,
        background_color: None,
        text_color: None,
        content: None,
    });
    assert_eq!(row_glyphs(&container.buffer, 0), "──────");
}

#[test]
fn requests_with_an_id_are_retained() {
    let mut container = Container::new(Vec2::new(4, 2));
    let tagged = DivOptions {
        id: Some("tagged".to_string()),
        position: Vec2::new(0, 0),
        size: Vec2::new(2, 2),
        border_options: BorderFlags::all(),
        border_style: BorderStyle::Sharp,
        border_color: None,
        background_color: None,
        text_color: None,
        content: None,
    };
    let mut untagged = tagged.clone();
    untagged.id = None;
    container.draw_box(untagged);
    assert_eq!(container.objects.len(), 0);
    container.draw_box(tagged);
    assert_eq!(container.objects.len(), 1);
    assert_eq!(container.objects[0].id.as_deref(), Some("tagged"));
}

#[test]
fn sharp_box_with_content_scenario() {
    let mut container = Container::new(Vec2::new(10, 3));
    container.draw_box(DivOptions {
        id: None,
        position: Vec2::new(0, 0),
        size: Vec2::new(10, 3),
        border_options: BorderFlags::all(),
        border_style: BorderStyle::Sharp,
        border_color: None,
        background_color: None,
        text_color: None,
        content: Some(vec!["Hi".to_string()]),
    });
    assert_eq!(row_glyphs(&container.buffer, 0), "┌────────┐");
    assert_eq!(row_glyphs(&container.buffer, 1), "│Hi      │");
    assert_eq!(row_glyphs(&container.buffer, 2), "└────────┘");

    let mut expected = String::new();
    for (i, row) in ["┌────────┐", "│Hi      │", "└────────┘"].iter().enumerate() {
        if i > 0 {
            expected.push_str("\r\n");
        }
        for c in row.chars() {
            expected.push(c);
            expected.push_str("\x1b[0m");
        }
    }
    assert_eq!(compile_buffer(&container.buffer), expected);
}

#[test]
fn clipping_negative_position_draws_clipped_span() {
    let mut container = Container::new(Vec2::new(80, 3));
    let mut buffer = std::mem::take(&mut container.buffer);
    let mut options = plain_request(Vec2::new(80, 3), -2, 0, 10, 3);
    options.border_options = BorderFlags::top().union(BorderFlags::right());
    let result = draw_box(&mut buffer, options, false);
    assert!(matches!(result, Ok(())));
    let row = row_glyphs(&buffer, 0);
    // Box-local columns 2..10 land on screen columns 0..8: eight visible
    // cells, the last of them the top-right corner.
    assert_eq!(&row[..24], "───────┐");
    assert_eq!(row.chars().filter(|c| *c != ' ').count(), 8);
}

#[test]
fn box_off_screen_right_draws_nothing() {
    let mut container = Container::new(Vec2::new(10, 3));
    let before = container.buffer.clone();
    container.draw_box(DivOptions {
        id: None,
        position: Vec2::new(15, 0),
        size: Vec2::new(5, 3),
        border_options: BorderFlags::all(),
        border_style: BorderStyle::Sharp,
        border_color: None,
        background_color: None,
        text_color: None,
        content: None,
    });
    assert_eq!(container.buffer, before);
}

#[test]
fn zero_size_box_draws_nothing() {
    let mut container = Container::new(Vec2::new(10, 3));
    let before = container.buffer.clone();
    container.draw_box(DivOptions {
        id: None,
        position: Vec2::new(2, 1),
        size: Vec2::new(0, 0),
        border_options: BorderFlags::all(),
        border_style: BorderStyle::Sharp,
        border_color: None,
        background_color: None,
        text_color: None,
        content: None,
    });
    assert_eq!(container.buffer, before);
}

#[test]
fn top_clipped_box_still_draws_middle_and_bottom() {
    let mut container = Container::new(Vec2::new(10, 3));
    container.draw_box(DivOptions {
        id: None,
        position: Vec2::new(0, -1),
        size: Vec2::new(10, 3),
        border_options: BorderFlags::all(),
        border_style: BorderStyle::Sharp,
        border_color: None,
        background_color: None,
        text_color: None,
        content: Some(vec!["Hi".to_string()]),
    });
    assert_eq!(row_glyphs(&container.buffer, 0), "│Hi      │");
    assert_eq!(row_glyphs(&container.buffer, 1), "└────────┘");
    assert_eq!(row_glyphs(&container.buffer, 2), "          ");
}

#[test]
fn content_beyond_interior_is_discarded() {
    let mut container = Container::new(Vec2::new(10, 3));
    container.draw_box(DivOptions {
        id: None,
        position: Vec2::new(0, 0),
        size: Vec2::new(6, 3),
        border_options: BorderFlags::all(),
        border_style: BorderStyle::Sharp,
        border_color: None,
        background_color: None,
        text_color: None,
        content: Some(vec!["abcdefghij".to_string()]),
    });
    assert_eq!(row_glyphs(&container.buffer, 1), "│abcd│    ");
}

#[test]
fn identical_draws_on_fresh_grids_match() {
    let request = |c: &mut Container| {
        c.draw_box(DivOptions {
            id: None,
            position: Vec2::new(-1, 1),
            size: Vec2::new(6, 4),
            border_options: BorderFlags::all(),
            border_style: BorderStyle::Rounded,
            border_color: Some(Color::red()),
            background_color: Some(Color::black()),
            text_color: Some(Color::blue()),
            content: Some(vec!["abc".to_string()]),
        });
    };
    let mut first = Container::new(Vec2::new(8, 5));
    let mut second = Container::new(Vec2::new(8, 5));
    request(&mut first);
    request(&mut second);
    assert_eq!(first.buffer, second.buffer);
    assert_eq!(compile_buffer(&first.buffer), compile_buffer(&second.buffer));
}

#[test]
fn forced_height_error_reports_but_draws() {
    let mut container = Container::new(Vec2::new(10, 3));
    let mut forced = std::mem::take(&mut container.buffer);
    let mut other = Container::new(Vec2::new(10, 3));
    let mut unforced = std::mem::take(&mut other.buffer);
    let result = draw_box(&mut forced, plain_request(Vec2::new(10, 3), 0, 0, 10, 3), true);
    assert!(matches!(result, Err(DrawError::HeightTooSmall)));
    let ok = draw_box(&mut unforced, plain_request(Vec2::new(10, 3), 0, 0, 10, 3), false);
    assert!(matches!(ok, Ok(())));
    assert_eq!(forced, unforced);
}

#[test]
fn border_color_covers_visible_border_cells() {
    let mut container = Container::new(Vec2::new(10, 3));
    container.draw_box(DivOptions {
        id: None,
        position: Vec2::new(0, 0),
        size: Vec2::new(10, 3),
        border_options: BorderFlags::all(),
        border_style: BorderStyle::Sharp,
        border_color: Some(Color::red()),
        background_color: None,
        text_color: None,
        content: None,
    });
    assert_eq!(container.buffer[0][1].fg, Some(Color::red()));
    assert_eq!(container.buffer[0][0].fg, Some(Color::red()));
    assert_eq!(container.buffer[1][0].fg, Some(Color::red()));
    assert_eq!(container.buffer[1][9].fg, Some(Color::red()));
    assert_eq!(container.buffer[1][5].fg, None);
}

#[test]
fn background_and_text_color_skip_border_glyphs() {
    let mut container = Container::new(Vec2::new(10, 3));
    container.draw_box(DivOptions {
        id: None,
        position: Vec2::new(0, 0),
        size: Vec2::new(10, 3),
        border_options: BorderFlags::all(),
        border_style: BorderStyle::Sharp,
        border_color: None,
        background_color: Some(Color::black()),
        text_color: Some(Color::blue()),
        content: None,
    });
    let interior = container.buffer[1][4];
    assert_eq!(interior.content, ' ');
    assert_eq!(interior.bg, Some(Color::black()));
    assert_eq!(interior.fg, Some(Color::blue()));
    let corner = container.buffer[0][0];
    assert_eq!(corner.bg, None);
    assert_eq!(corner.fg, None);
    let left_edge = container.buffer[1][0];
    assert_eq!(left_edge.bg, None);
    assert_eq!(left_edge.fg, None);
}

#[test]
fn background_on_edge_rows_skips_glyphs_only() {
    let mut container = Container::new(Vec2::new(6, 2));
    container.draw_box(DivOptions {
        id: None,
        position: Vec2::new(0, 0),
        size: Vec2::new(6, 2),
        border_options: BorderFlags::top(),
        border_style: BorderStyle::Sharp,
        border_color: None,
        background_color: Some(Color::black()),
        text_color: None,
        content: None,
    });
    // Every cell of the rule row is a top-edge glyph, so none takes the
    // background; every cell of the blank middle row does.
    assert_eq!(container.buffer[0][0].content, '─');
    assert_eq!(container.buffer[0][0].bg, None);
    assert_eq!(container.buffer[1][0].bg, Some(Color::black()));
}

#[test]
fn later_draw_overwrites_overlapping_cells() {
    let mut container = Container::new(Vec2::new(10, 4));
    container.draw_box(DivOptions {
        id: Some("under".to_string()),
        position: Vec2::new(0, 0),
        size: Vec2::new(10, 4),
        border_options: BorderFlags::all(),
        border_style: BorderStyle::Sharp,
        border_color: None,
        background_color: None,
        text_color: None,
        content: None,
    });
    container.draw_box(DivOptions {
        id: Some("over".to_string()),
        position: Vec2::new(0, 0),
        size: Vec2::new(4, 4),
        border_options: BorderFlags::all(),
        border_style: BorderStyle::Double,
        border_color: None,
        background_color: None,
        text_color: None,
        content: None,
    });
    assert_eq!(&row_glyphs(&container.buffer, 0)[..12], "╔══╗");
    assert_eq!(row_glyphs(&container.buffer, 0).chars().nth(9), Some('┐'));
}

#[test]
fn clear_resets_every_cell() {
    let mut container = Container::new(Vec2::new(6, 3));
    container.draw_box(DivOptions {
        id: None,
        position: Vec2::new(0, 0),
        size: Vec2::new(6, 3),
        border_options: BorderFlags::all(),
        border_style: BorderStyle::Thick,
        border_color: Some(Color::green()),
        background_color: None,
        text_color: None,
        content: None,
    });
    assert!(matches!(container.clear(), Ok(())));
    for row in &container.buffer {
        for cell in row {
            assert_eq!(*cell, BoxChar::default());
        }
    }
}

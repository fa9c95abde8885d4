use termgrid::common::{compile_buffer, Color, Vec2};
use termgrid::draw::border::{BorderFlags, BorderStyle};
use termgrid::draw::boxes::BoxChar;
use termgrid::window::Container;

#[test]
fn fg_sequence_exact() {
    assert_eq!(Color::new(255, 0, 0).fg(), "\x1b[38;2;255;0;0m");
    assert_eq!(Color::new(0, 9, 10).fg(), "\x1b[38;2;0;9;10m");
    assert_eq!(Color::new(99, 100, 7).fg(), "\x1b[38;2;99;100;7m");
}

#[test]
fn bg_sequence_exact() {
    assert_eq!(Color::new(0, 0, 0).bg(), "\x1b[48;2;0;0;0m");
    assert_eq!(Color::new(255, 255, 255).bg(), "\x1b[48;2;255;255;255m");
    assert_eq!(Color::new(12, 34, 56).bg(), "\x1b[48;2;12;34;56m");
}

#[test]
fn named_colors() {
    assert_eq!(Color::red().fg(), "\x1b[38;2;255;0;0m");
    assert_eq!(Color::black().bg(), "\x1b[48;2;0;0;0m");
    assert_eq!(Color::white().fg(), "\x1b[38;2;255;255;255m");
    assert_eq!(Color::green().fg(), "\x1b[38;2;0;255;0m");
    assert_eq!(Color::blue().fg(), "\x1b[38;2;0;0;255m");
    assert_eq!(Color::yellow().fg(), "\x1b[38;2;255;255;0m");
    assert_eq!(Color::cyan().fg(), "\x1b[38;2;0;255;255m");
    assert_eq!(Color::magenta().fg(), "\x1b[38;2;255;0;255m");
}

#[test]
fn default_cell_renders_blank_with_reset() {
    let cell = BoxChar::default();
    assert_eq!(cell.to_string(), " \x1b[0m");
}

#[test]
fn fresh_cell_renders_its_glyph_with_reset() {
    let cell = BoxChar::new('x');
    assert_eq!(cell.to_string(), "x\x1b[0m");
    assert_eq!(BoxChar::new('─').to_string(), "─\x1b[0m");
}

#[test]
fn styled_cell_ends_with_its_own_reset() {
    let mut cell = BoxChar::default();
    cell.bg = Some(Color::blue());
    let run = cell.to_string();
    assert!(run.ends_with("\x1b[0m"));
    assert_eq!(run, "\x1b[48;2;0;0;255m \x1b[0m");
}

#[test]
fn adjacent_cells_do_not_leak_style() {
    let mut a = BoxChar::default();
    a.bg = Some(Color::red());
    let mut b = BoxChar::default();
    b.bg = Some(Color::green());
    let a_alone = a.to_string();
    let joined = format!("{}{}", a.to_string(), b.to_string());
    assert!(joined.starts_with(&a_alone));
    assert_eq!(&joined[..a_alone.len()], a_alone);
}

#[test]
fn all_styles_have_three_byte_glyphs() {
    let styles = [
        BorderStyle::Block,
        BorderStyle::Rounded,
        BorderStyle::Sharp,
        BorderStyle::Thick,
        BorderStyle::Double,
        BorderStyle::Dotted,
    ];
    for style in styles {
        assert_eq!(style.chars().border_width(), 3);
    }
}

#[test]
fn sharp_style_glyphs() {
    let chars = BorderStyle::Sharp.chars();
    assert_eq!(chars.top, '─');
    assert_eq!(chars.left, '│');
    assert_eq!(chars.top_left, '┌');
    assert_eq!(chars.bottom_right, '┘');
}

#[test]
fn flags_union_and_contains() {
    let flags = BorderFlags::top().union(BorderFlags::left());
    assert!(flags.contains(BorderFlags::top()));
    assert!(flags.contains(BorderFlags::left()));
    assert!(!flags.contains(BorderFlags::bottom()));
    assert!(!flags.contains(BorderFlags::right()));
    let all = BorderFlags::all();
    assert!(all.contains(flags));
    assert!(all.contains(BorderFlags::preserve_corners()));
    assert!(BorderFlags::none().contains(BorderFlags::none()));
    assert!(!BorderFlags::none().contains(BorderFlags::top()));
}

#[test]
fn compile_three_rows_has_two_terminators() {
    let container = Container::new(Vec2::new(2, 3));
    let compiled = compile_buffer(&container.buffer);
    assert_eq!(compiled.matches("\r\n").count(), 2);
    let rows: Vec<&str> = compiled.split("\r\n").collect();
    assert_eq!(rows.len(), 3);
    for row in rows {
        assert_eq!(row, " \x1b[0m \x1b[0m");
    }
}

#[test]
fn compile_single_row_has_no_terminator() {
    let container = Container::new(Vec2::new(3, 1));
    let compiled = compile_buffer(&container.buffer);
    assert!(!compiled.contains("\r\n"));
    assert_eq!(compiled, " \x1b[0m \x1b[0m \x1b[0m");
}

#[test]
fn vec2_new_keeps_coordinates() {
    let v = Vec2::new(-3i16, 7i16);
    assert_eq!(v.x, -3);
    assert_eq!(v.y, 7);
}

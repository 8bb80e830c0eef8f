use leveled_logger::style::{Color, Style};

const COLORS: [Color; 4] = [Color::Red, Color::Green, Color::Yellow, Color::Blue];

fn outside_color(color: Color) -> ansi_term::Color {
    match color {
        Color::Red => ansi_term::Color::Red,
        Color::Green => ansi_term::Color::Green,
        Color::Yellow => ansi_term::Color::Yellow,
        Color::Blue => ansi_term::Color::Blue,
    }
}

#[test]
fn plain_style_leaves_the_text_as_it_is() {
    let plain = Style { foreground: None, bold: false };
    assert_eq!(plain.render("text"), "text");
    assert_eq!(plain.render(""), "");
}

#[test]
fn bold_style_is_code_one() {
    let bold = Style { foreground: None, bold: true };
    assert_eq!(bold.render("text"), "\x1b[1mtext\x1b[0m");
    assert_eq!(bold.render("text"), ansi_term::Style::new().bold().paint("text").to_string());
}

#[test]
fn colors_have_their_foreground_codes() {
    let paint = |color: Color| Style { foreground: Some(color), bold: false }.render("text");
    assert_eq!(paint(Color::Red), "\x1b[31mtext\x1b[0m");
    assert_eq!(paint(Color::Green), "\x1b[32mtext\x1b[0m");
    assert_eq!(paint(Color::Yellow), "\x1b[33mtext\x1b[0m");
    assert_eq!(paint(Color::Blue), "\x1b[34mtext\x1b[0m");
}

#[test]
fn bold_colors_put_the_weight_before_the_color() {
    let paint = |color: Color| Style { foreground: Some(color), bold: true }.render("text");
    assert_eq!(paint(Color::Red), "\x1b[1;31mtext\x1b[0m");
    assert_eq!(paint(Color::Green), "\x1b[1;32mtext\x1b[0m");
    assert_eq!(paint(Color::Yellow), "\x1b[1;33mtext\x1b[0m");
    assert_eq!(paint(Color::Blue), "\x1b[1;34mtext\x1b[0m");
}

#[test]
fn painting_agrees_with_the_terminal_library() {
    for color in COLORS {
        let normal = Style { foreground: Some(color), bold: false };
        let bold = Style { foreground: Some(color), bold: true };
        assert_eq!(normal.render("a b"), outside_color(color).normal().paint("a b").to_string());
        assert_eq!(bold.render("a b"), outside_color(color).bold().paint("a b").to_string());
    }
}

#[test]
fn painting_keeps_the_text_between_the_sequences() {
    let text = "[x] ü \x1b[0m end";
    for color in COLORS {
        let painted = Style { foreground: Some(color), bold: true }.render(text);
        assert_eq!(&painted[7..painted.len() - 4], text);
        assert_ne!(painted, text);
    }
}

#[test]
fn painting_an_empty_text_leaves_the_sequences() {
    assert_eq!(Style { foreground: Some(Color::Blue), bold: false }.render(""), "\x1b[34m\x1b[0m");
}

use crossterm_bridge::style::{Attribute, ClearType, Color, CursorStyle};

#[test]
fn named_colors_keep_their_name() {
    assert_eq!(Color::DarkMagenta.to_crossterm(), crossterm::style::Color::DarkMagenta);
    assert_eq!(Color::Reset.to_crossterm(), crossterm::style::Color::Reset);
}

#[test]
fn rgb_and_ansi_colors_keep_their_values() {
    assert_eq!(
        Color::Rgb { r: 1, g: 2, b: 3 }.to_crossterm(),
        crossterm::style::Color::Rgb { r: 1, g: 2, b: 3 }
    );
    assert_eq!(Color::AnsiValue(200).to_crossterm(), crossterm::style::Color::AnsiValue(200));
}

#[test]
fn attributes_keep_their_name() {
    assert_eq!(Attribute::Underdashed.to_crossterm(), crossterm::style::Attribute::Underdashed);
    assert_eq!(Attribute::NotOverLined.to_crossterm(), crossterm::style::Attribute::NotOverLined);
    assert_eq!(Attribute::Reset.to_crossterm(), crossterm::style::Attribute::Reset);
}

#[test]
fn clear_types_keep_their_name() {
    assert_eq!(ClearType::Purge.to_crossterm(), crossterm::terminal::ClearType::Purge);
    assert_eq!(ClearType::UntilNewLine.to_crossterm(), crossterm::terminal::ClearType::UntilNewLine);
}

#[test]
fn cursor_styles_keep_their_name() {
    assert!(matches!(
        CursorStyle::BlinkingUnderScore.to_crossterm(),
        crossterm::cursor::SetCursorStyle::BlinkingUnderScore
    ));
    assert!(matches!(CursorStyle::SteadyBar.to_crossterm(), crossterm::cursor::SetCursorStyle::SteadyBar));
}

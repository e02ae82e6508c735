use vstd::prelude::*;

use crossterm::cursor::SetCursorStyle as TerminalCursorStyle;
use crossterm::style::Attribute as TerminalAttribute;
use crossterm::style::Color as TerminalColor;
use crossterm::terminal::ClearType as TerminalClearType;

verus! {

#[verifier::external_type_specification]
pub struct ExTerminalCursorStyle(TerminalCursorStyle);

#[verifier::external_type_specification]
pub struct ExTerminalAttribute(TerminalAttribute);

#[verifier::external_type_specification]
pub struct ExTerminalColor(TerminalColor);

#[verifier::external_type_specification]
pub struct ExTerminalClearType(TerminalClearType);

/// Shape and blinking of the cursor.
#[derive(Clone, Copy, Debug, PartialEq, Eq, Structural)]
pub enum CursorStyle {
    /// The shape that the user configured.
    DefaultUserShape,
    BlinkingBlock,
    SteadyBlock,
    BlinkingUnderScore,
    SteadyUnderScore,
    BlinkingBar,
    SteadyBar,
}

impl CursorStyle {
    /// crossterm's cursor style of the same name.
    pub open spec fn spec_to_crossterm(self) -> TerminalCursorStyle {
        match self {
            CursorStyle::DefaultUserShape => TerminalCursorStyle::DefaultUserShape,
            CursorStyle::BlinkingBlock => TerminalCursorStyle::BlinkingBlock,
            CursorStyle::SteadyBlock => TerminalCursorStyle::SteadyBlock,
            CursorStyle::BlinkingUnderScore => TerminalCursorStyle::BlinkingUnderScore,
            CursorStyle::SteadyUnderScore => TerminalCursorStyle::SteadyUnderScore,
            CursorStyle::BlinkingBar => TerminalCursorStyle::BlinkingBar,
            CursorStyle::SteadyBar => TerminalCursorStyle::SteadyBar,
        }
    }

    /// crossterm's cursor style of the same name.
    pub fn to_crossterm(self) -> (r: TerminalCursorStyle)
        ensures
            r == self.spec_to_crossterm(),
    {
        match self {
            CursorStyle::DefaultUserShape => TerminalCursorStyle::DefaultUserShape,
            CursorStyle::BlinkingBlock => TerminalCursorStyle::BlinkingBlock,
            CursorStyle::SteadyBlock => TerminalCursorStyle::SteadyBlock,
            CursorStyle::BlinkingUnderScore => TerminalCursorStyle::BlinkingUnderScore,
            CursorStyle::SteadyUnderScore => TerminalCursorStyle::SteadyUnderScore,
            CursorStyle::BlinkingBar => TerminalCursorStyle::BlinkingBar,
            CursorStyle::SteadyBar => TerminalCursorStyle::SteadyBar,
        }
    }
}

/// A text attribute.
#[derive(Clone, Copy, Debug, PartialEq, Eq, Structural)]
pub enum Attribute {
    /// Resets all attributes.
    Reset,
    Bold,
    Dim,
    Italic,
    Underlined,
    DoubleUnderlined,
    Undercurled,
    Underdotted,
    Underdashed,
    /// Blinks less than 150 times a minute.
    SlowBlink,
    /// Blinks 150 times a minute or more.
    RapidBlink,
    /// Swaps foreground and background colors.
    Reverse,
    Hidden,
    CrossedOut,
    Fraktur,
    NoBold,
    /// Back to normal intensity (neither bold nor dim).
    NormalIntensity,
    NoItalic,
    NoUnderline,
    NoBlink,
    NoReverse,
    NoHidden,
    NotCrossedOut,
    Framed,
    Encircled,
    OverLined,
    NotFramedOrEncircled,
    NotOverLined,
}

impl Attribute {
    /// crossterm's attribute of the same name.
    pub open spec fn spec_to_crossterm(self) -> TerminalAttribute {
        match self {
            Attribute::Reset => TerminalAttribute::Reset,
            Attribute::Bold => TerminalAttribute::Bold,
            Attribute::Dim => TerminalAttribute::Dim,
            Attribute::Italic => TerminalAttribute::Italic,
            Attribute::Underlined => TerminalAttribute::Underlined,
            Attribute::DoubleUnderlined => TerminalAttribute::DoubleUnderlined,
            Attribute::Undercurled => TerminalAttribute::Undercurled,
            Attribute::Underdotted => TerminalAttribute::Underdotted,
            Attribute::Underdashed => TerminalAttribute::Underdashed,
            Attribute::SlowBlink => TerminalAttribute::SlowBlink,
            Attribute::RapidBlink => TerminalAttribute::RapidBlink,
            Attribute::Reverse => TerminalAttribute::Reverse,
            Attribute::Hidden => TerminalAttribute::Hidden,
            Attribute::CrossedOut => TerminalAttribute::CrossedOut,
            Attribute::Fraktur => TerminalAttribute::Fraktur,
            Attribute::NoBold => TerminalAttribute::NoBold,
            Attribute::NormalIntensity => TerminalAttribute::NormalIntensity,
            Attribute::NoItalic => TerminalAttribute::NoItalic,
            Attribute::NoUnderline => TerminalAttribute::NoUnderline,
            Attribute::NoBlink => TerminalAttribute::NoBlink,
            Attribute::NoReverse => TerminalAttribute::NoReverse,
            Attribute::NoHidden => TerminalAttribute::NoHidden,
            Attribute::NotCrossedOut => TerminalAttribute::NotCrossedOut,
            Attribute::Framed => TerminalAttribute::Framed,
            Attribute::Encircled => TerminalAttribute::Encircled,
            Attribute::OverLined => TerminalAttribute::OverLined,
            Attribute::NotFramedOrEncircled => TerminalAttribute::NotFramedOrEncircled,
            Attribute::NotOverLined => TerminalAttribute::NotOverLined,
        }
    }

    /// crossterm's attribute of the same name.
    pub fn to_crossterm(self) -> (r: TerminalAttribute)
        ensures
            r == self.spec_to_crossterm(),
    {
        match self {
            Attribute::Reset => TerminalAttribute::Reset,
            Attribute::Bold => TerminalAttribute::Bold,
            Attribute::Dim => TerminalAttribute::Dim,
            Attribute::Italic => TerminalAttribute::Italic,
            Attribute::Underlined => TerminalAttribute::Underlined,
            Attribute::DoubleUnderlined => TerminalAttribute::DoubleUnderlined,
            Attribute::Undercurled => TerminalAttribute::Undercurled,
            Attribute::Underdotted => TerminalAttribute::Underdotted,
            Attribute::Underdashed => TerminalAttribute::Underdashed,
            Attribute::SlowBlink => TerminalAttribute::SlowBlink,
            Attribute::RapidBlink => TerminalAttribute::RapidBlink,
            Attribute::Reverse => TerminalAttribute::Reverse,
            Attribute::Hidden => TerminalAttribute::Hidden,
            Attribute::CrossedOut => TerminalAttribute::CrossedOut,
            Attribute::Fraktur => TerminalAttribute::Fraktur,
            Attribute::NoBold => TerminalAttribute::NoBold,
            Attribute::NormalIntensity => TerminalAttribute::NormalIntensity,
            Attribute::NoItalic => TerminalAttribute::NoItalic,
            Attribute::NoUnderline => TerminalAttribute::NoUnderline,
            Attribute::NoBlink => TerminalAttribute::NoBlink,
            Attribute::NoReverse => TerminalAttribute::NoReverse,
            Attribute::NoHidden => TerminalAttribute::NoHidden,
            Attribute::NotCrossedOut => TerminalAttribute::NotCrossedOut,
            Attribute::Framed => TerminalAttribute::Framed,
            Attribute::Encircled => TerminalAttribute::Encircled,
            Attribute::OverLined => TerminalAttribute::OverLined,
            Attribute::NotFramedOrEncircled => TerminalAttribute::NotFramedOrEncircled,
            Attribute::NotOverLined => TerminalAttribute::NotOverLined,
        }
    }
}

/// A set of attributes, one bit each.
#[derive(Clone, Copy, Debug, Default, PartialEq, Eq, Structural)]
pub struct Attributes(pub u32);

/// A terminal color.
#[derive(Clone, Copy, Debug, PartialEq, Eq, PartialOrd, Ord, Hash, Structural)]
pub enum Color {
    /// The terminal's default color.
    Reset,
    Black,
    DarkGrey,
    Red,
    DarkRed,
    Green,
    DarkGreen,
    Yellow,
    DarkYellow,
    Blue,
    DarkBlue,
    Magenta,
    DarkMagenta,
    Cyan,
    DarkCyan,
    White,
    Grey,
    /// A 24-bit color.
    Rgb { r: u8, g: u8, b: u8 },
    /// One of the 256 indexed colors.
    AnsiValue(u8),
}

impl Color {
    /// crossterm's color of the same name.
    pub open spec fn spec_to_crossterm(self) -> TerminalColor {
        match self {
            Color::Reset => TerminalColor::Reset,
            Color::Black => TerminalColor::Black,
            Color::DarkGrey => TerminalColor::DarkGrey,
            Color::Red => TerminalColor::Red,
            Color::DarkRed => TerminalColor::DarkRed,
            Color::Green => TerminalColor::Green,
            Color::DarkGreen => TerminalColor::DarkGreen,
            Color::Yellow => TerminalColor::Yellow,
            Color::DarkYellow => TerminalColor::DarkYellow,
            Color::Blue => TerminalColor::Blue,
            Color::DarkBlue => TerminalColor::DarkBlue,
            Color::Magenta => TerminalColor::Magenta,
            Color::DarkMagenta => TerminalColor::DarkMagenta,
            Color::Cyan => TerminalColor::Cyan,
            Color::DarkCyan => TerminalColor::DarkCyan,
            Color::White => TerminalColor::White,
            Color::Grey => TerminalColor::Grey,
            Color::Rgb { r, g, b } => TerminalColor::Rgb { r, g, b },
            Color::AnsiValue(v) => TerminalColor::AnsiValue(v),
        }
    }

    /// crossterm's color of the same name.
    pub fn to_crossterm(self) -> (r: TerminalColor)
        ensures
            r == self.spec_to_crossterm(),
    {
        match self {
            Color::Reset => TerminalColor::Reset,
            Color::Black => TerminalColor::Black,
            Color::DarkGrey => TerminalColor::DarkGrey,
            Color::Red => TerminalColor::Red,
            Color::DarkRed => TerminalColor::DarkRed,
            Color::Green => TerminalColor::Green,
            Color::DarkGreen => TerminalColor::DarkGreen,
            Color::Yellow => TerminalColor::Yellow,
            Color::DarkYellow => TerminalColor::DarkYellow,
            Color::Blue => TerminalColor::Blue,
            Color::DarkBlue => TerminalColor::DarkBlue,
            Color::Magenta => TerminalColor::Magenta,
            Color::DarkMagenta => TerminalColor::DarkMagenta,
            Color::Cyan => TerminalColor::Cyan,
            Color::DarkCyan => TerminalColor::DarkCyan,
            Color::White => TerminalColor::White,
            Color::Grey => TerminalColor::Grey,
            Color::Rgb { r, g, b } => TerminalColor::Rgb { r, g, b },
            Color::AnsiValue(v) => TerminalColor::AnsiValue(v),
        }
    }
}

/// Which cells a clear command empties.
#[derive(Clone, Copy, Debug, PartialEq, Eq, Structural)]
pub enum ClearType {
    /// All cells.
    All,
    /// All cells and the scrollback history.
    Purge,
    /// From the cursor down.
    FromCursorDown,
    /// From the cursor up.
    FromCursorUp,
    /// The cursor's row.
    CurrentLine,
    /// From the cursor to the end of its row.
    UntilNewLine,
}

impl ClearType {
    /// crossterm's clear type of the same name.
    pub open spec fn spec_to_crossterm(self) -> TerminalClearType {
        match self {
            ClearType::All => TerminalClearType::All,
            ClearType::Purge => TerminalClearType::Purge,
            ClearType::FromCursorDown => TerminalClearType::FromCursorDown,
            ClearType::FromCursorUp => TerminalClearType::FromCursorUp,
            ClearType::CurrentLine => TerminalClearType::CurrentLine,
            ClearType::UntilNewLine => TerminalClearType::UntilNewLine,
        }
    }

    /// crossterm's clear type of the same name.
    pub fn to_crossterm(self) -> (r: TerminalClearType)
        ensures
            r == self.spec_to_crossterm(),
    {
        match self {
            ClearType::All => TerminalClearType::All,
            ClearType::Purge => TerminalClearType::Purge,
            ClearType::FromCursorDown => TerminalClearType::FromCursorDown,
            ClearType::FromCursorUp => TerminalClearType::FromCursorUp,
            ClearType::CurrentLine => TerminalClearType::CurrentLine,
            ClearType::UntilNewLine => TerminalClearType::UntilNewLine,
        }
    }
}

} // verus!

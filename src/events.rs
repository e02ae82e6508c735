use vstd::prelude::*;

verus! {

/// A media key (as part of [`KeyCode::Media`]).
#[derive(Clone, Copy, Debug, PartialEq, Eq, Structural)]
pub enum MediaKeyCode {
    Play,
    Pause,
    PlayPause,
    Reverse,
    Stop,
    FastForward,
    Rewind,
    TrackNext,
    TrackPrevious,
    Record,
    LowerVolume,
    RaiseVolume,
    MuteVolume,
}

/// A modifier key (as part of [`KeyCode::Modifier`]).
#[derive(Clone, Copy, Debug, PartialEq, Eq, Structural)]
pub enum ModifierKeyCode {
    LeftShift,
    LeftControl,
    LeftAlt,
    LeftSuper,
    LeftHyper,
    LeftMeta,
    RightShift,
    RightControl,
    RightAlt,
    RightSuper,
    RightHyper,
    RightMeta,
    IsoLevel3Shift,
    IsoLevel5Shift,
}

/// A key.
#[derive(Clone, Copy, Debug, PartialEq, Eq, Structural)]
pub enum KeyCode {
    Backspace,
    Enter,
    Left,
    Right,
    Up,
    Down,
    Home,
    End,
    PageUp,
    PageDown,
    Tab,
    /// Shift + Tab.
    BackTab,
    Delete,
    Insert,
    /// A function key: `F(1)` is F1.
    F(u8),
    /// A character key.
    Char(char),
    Null,
    Esc,
    CapsLock,
    ScrollLock,
    NumLock,
    PrintScreen,
    Pause,
    Menu,
    /// The "Begin" key (often the 5 of the keypad when Num Lock is on).
    KeypadBegin,
    Media(MediaKeyCode),
    Modifier(ModifierKeyCode),
}

/// The modifier keys held during an event, as a set of bits.
#[derive(Clone, Copy, Debug, PartialEq, Eq, Structural)]
pub struct KeyModifiers {
    pub bits: u8,
}

impl KeyModifiers {
    pub const SHIFT: u8 = 0b0000_0001;
    pub const CONTROL: u8 = 0b0000_0010;
    pub const ALT: u8 = 0b0000_0100;
    pub const SUPER: u8 = 0b0000_1000;
    pub const HYPER: u8 = 0b0001_0000;
    pub const META: u8 = 0b0010_0000;
    pub const NONE: u8 = 0b0000_0000;
}

/// Whether a key was pressed, repeated or released.
#[derive(Clone, Copy, Debug, PartialEq, Eq, Structural)]
pub enum KeyEventKind {
    Press,
    Repeat,
    Release,
}

/// Extra state of a key event, as a set of bits.
#[derive(Clone, Copy, Debug, PartialEq, Eq, Structural)]
pub struct KeyEventState {
    pub bits: u8,
}

impl KeyEventState {
    /// The key is on the keypad.
    pub const KEYPAD: u8 = 0b0000_0001;
    /// Caps Lock was on.
    pub const CAPS_LOCK: u8 = 0b0000_1000;
    /// Num Lock was on.
    pub const NUM_LOCK: u8 = 0b0000_1000;
    pub const NONE: u8 = 0b0000_0000;
}

/// A key event.
#[derive(Clone, Copy, Debug, PartialEq, Eq, Structural)]
pub struct KeyEvent {
    pub code: KeyCode,
    pub modifiers: KeyModifiers,
    pub kind: KeyEventKind,
    pub state: KeyEventState,
}

/// A mouse button.
#[derive(Clone, Copy, Debug, PartialEq, Eq, Structural)]
pub enum MouseButton {
    Left,
    Right,
    Middle,
}

/// What a mouse did.
#[derive(Clone, Copy, Debug, PartialEq, Eq, Structural)]
pub enum MouseEventKind {
    Down(MouseButton),
    Up(MouseButton),
    /// Moved while the button was held.
    Drag(MouseButton),
    /// Moved with no button held.
    Moved,
    ScrollDown,
    ScrollUp,
}

/// A mouse event at a cell of the terminal.
#[derive(Clone, Copy, Debug, PartialEq, Eq, Structural)]
pub struct MouseEvent {
    pub kind: MouseEventKind,
    pub col: u16,
    pub row: u16,
    pub modifiers: KeyModifiers,
}

/// An input event.
pub enum Event {
    FocusGained,
    FocusLost,
    Key(KeyEvent),
    Mouse(MouseEvent),
    /// Text pasted while bracketed paste is on.
    Paste(String),
    /// The terminal's new size (cols, rows).
    Resize(u16, u16),
}

/// Extra information that compatible terminals can add to keyboard events.
#[derive(Clone, Copy, Debug, PartialEq, Eq, Structural)]
pub enum KeyboardEnhancementFlags {
    /// Escape and modified keys as CSI-u sequences.
    DisambiguateEscapeCodes,
    /// Repeat and release events.
    ReportEventTypes,
    /// Alternate key codes besides the base key code.
    ReportAlternateKeys,
    /// Every key as a CSI-u sequence.
    ReportAllKeysAsEscapeCodes,
}

impl KeyboardEnhancementFlags {
    /// The bit that stands for this enhancement.
    pub open spec fn spec_bits(self) -> u8 {
        match self {
            KeyboardEnhancementFlags::DisambiguateEscapeCodes => 0b0000_0001,
            KeyboardEnhancementFlags::ReportEventTypes => 0b0000_0010,
            KeyboardEnhancementFlags::ReportAlternateKeys => 0b0000_0100,
            KeyboardEnhancementFlags::ReportAllKeysAsEscapeCodes => 0b0000_1000,
        }
    }

    /// The bit that stands for this enhancement.
    pub fn bits(self) -> (r: u8)
        ensures
            r == self.spec_bits(),
    {
        match self {
            KeyboardEnhancementFlags::DisambiguateEscapeCodes => 0b0000_0001,
            KeyboardEnhancementFlags::ReportEventTypes => 0b0000_0010,
            KeyboardEnhancementFlags::ReportAlternateKeys => 0b0000_0100,
            KeyboardEnhancementFlags::ReportAllKeysAsEscapeCodes => 0b0000_1000,
        }
    }
}

} // verus!

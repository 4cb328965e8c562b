//! Input for the user interface: key codes, modifiers and buttons as the
//! windowing system reports them, turned into the events that the interface
//! takes.
//!
//! The windowing system and the interface each have their own names for
//! keys. The types here have the same variants, so that a value of either
//! side is carried over one for one.

use vstd::prelude::*;

verus! {

/// A key as the windowing system names it.
#[derive(Debug, Clone, Copy, PartialEq, Eq, Structural, Hash)]
pub enum VirtualKeyCode {
    Key1,
    Key2,
    Key3,
    Key4,
    Key5,
    Key6,
    Key7,
    Key8,
    Key9,
    Key0,
    A,
    B,
    C,
    D,
    E,
    F,
    G,
    H,
    I,
    J,
    K,
    L,
    M,
    N,
    O,
    P,
    Q,
    R,
    S,
    T,
    U,
    V,
    W,
    X,
    Y,
    Z,
    Escape,
    F1,
    F2,
    F3,
    F4,
    F5,
    F6,
    F7,
    F8,
    F9,
    F10,
    F11,
    F12,
    F13,
    F14,
    F15,
    F16,
    F17,
    F18,
    F19,
    F20,
    F21,
    F22,
    F23,
    F24,
    Snapshot,
    Scroll,
    Pause,
    Insert,
    Home,
    Delete,
    End,
    PageDown,
    PageUp,
    Left,
    Up,
    Right,
    Down,
    Back,
    Return,
    Space,
    Compose,
    Caret,
    Numlock,
    Numpad0,
    Numpad1,
    Numpad2,
    Numpad3,
    Numpad4,
    Numpad5,
    Numpad6,
    Numpad7,
    Numpad8,
    Numpad9,
    NumpadAdd,
    NumpadDivide,
    NumpadDecimal,
    NumpadComma,
    NumpadEnter,
    NumpadEquals,
    NumpadMultiply,
    NumpadSubtract,
    AbntC1,
    AbntC2,
    Apostrophe,
    Apps,
    Asterisk,
    At,
    Ax,
    Backslash,
    Calculator,
    Capital,
    Colon,
    Comma,
    Convert,
    Equals,
    Grave,
    Kana,
    Kanji,
    LAlt,
    LBracket,
    LControl,
    LShift,
    LWin,
    Mail,
    MediaSelect,
    MediaStop,
    Minus,
    Mute,
    MyComputer,
    NavigateForward,
    NavigateBackward,
    NextTrack,
    NoConvert,
    OEM102,
    Period,
    PlayPause,
    Plus,
    Power,
    PrevTrack,
    RAlt,
    RBracket,
    RControl,
    RShift,
    RWin,
    Semicolon,
    Slash,
    Sleep,
    Stop,
    Sysrq,
    Tab,
    Underline,
    Unlabeled,
    VolumeDown,
    VolumeUp,
    Wake,
    WebBack,
    WebFavorites,
    WebForward,
    WebHome,
    WebRefresh,
    WebSearch,
    WebStop,
    Yen,
    Copy,
    Paste,
    Cut,
}

/// A key as the user interface names it.
#[derive(Debug, Clone, Copy, PartialEq, Eq, Structural, Hash)]
pub enum Key {
    ArrowDown,
    ArrowLeft,
    ArrowRight,
    ArrowUp,
    Escape,
    Tab,
    Backspace,
    Enter,
    Space,
    Insert,
    Delete,
    Home,
    End,
    PageUp,
    PageDown,
    Num0,
    Num1,
    Num2,
    Num3,
    Num4,
    Num5,
    Num6,
    Num7,
    Num8,
    Num9,
    A,
    B,
    C,
    D,
    E,
    F,
    G,
    H,
    I,
    J,
    K,
    L,
    M,
    N,
    O,
    P,
    Q,
    R,
    S,
    T,
    U,
    V,
    W,
    X,
    Y,
    Z,
}

/// The modifier keys as the windowing system reports them.
#[derive(Debug, Clone, Copy, PartialEq, Eq, Structural, Default)]
pub struct ModifiersState {
    pub shift: bool,
    pub ctrl: bool,
    pub alt: bool,
    /// The logo key: command on a Mac, the Windows key elsewhere.
    pub logo: bool,
}

/// The modifier keys as the user interface takes them.
#[derive(Debug, Clone, Copy, PartialEq, Eq, Structural, Default)]
pub struct Modifiers {
    pub alt: bool,
    pub ctrl: bool,
    pub shift: bool,
    /// The command key of a Mac; never set elsewhere.
    pub mac_cmd: bool,
    /// The key for commands: command on a Mac, control elsewhere.
    pub command: bool,
}

/// A mouse button as the windowing system names it.
#[derive(Debug, Clone, Copy, PartialEq, Eq, Structural)]
pub enum MouseButton {
    Left,
    Right,
    Middle,
    Other(u16),
}

/// A mouse button as the user interface names it.
#[derive(Debug, Clone, Copy, PartialEq, Eq, Structural)]
pub enum PointerButton {
    Primary,
    Secondary,
    Middle,
}

/// The system that the program runs on, as far as the keyboard differs.
#[derive(Debug, Clone, Copy, PartialEq, Eq, Structural)]
pub enum Platform {
    Windows,
    MacOs,
    Other,
}

/// Where the pointer is, by the bit patterns of its two coordinates.
#[derive(Debug, Clone, Copy, PartialEq, Eq, Structural, Default)]
pub struct PointerPos {
    pub x: u32,
    pub y: u32,
}

/// An event for the user interface.
#[derive(Debug, Clone, Copy, PartialEq, Eq, Structural)]
pub enum Event {
    /// The selection is to be cut.
    Cut,
    /// The selection is to be copied.
    Copy,
    /// A key went down or up.
    Key { key: Key, pressed: bool, modifiers: Modifiers },
    /// A character was typed.
    Text(char),
    /// The pointer moved.
    PointerMoved(PointerPos),
    /// A mouse button went down or up.
    PointerButton { button: PointerButton, pos: PointerPos, pressed: bool, modifiers: Modifiers },
}

/// The interface's name for a key, for the keys that it knows: the arrows,
/// the editing and navigation keys, the digits of the main row and of the
/// number pad, and the letters.
#[verifier::opaque]
pub open spec fn key_of(key: VirtualKeyCode) -> Option<Key> {
    match key {
        VirtualKeyCode::Down => Some(Key::ArrowDown),
        VirtualKeyCode::Left => Some(Key::ArrowLeft),
        VirtualKeyCode::Right => Some(Key::ArrowRight),
        VirtualKeyCode::Up => Some(Key::ArrowUp),
        VirtualKeyCode::Escape => Some(Key::Escape),
        VirtualKeyCode::Tab => Some(Key::Tab),
        VirtualKeyCode::Back => Some(Key::Backspace),
        VirtualKeyCode::Return => Some(Key::Enter),
        VirtualKeyCode::Space => Some(Key::Space),
        VirtualKeyCode::Insert => Some(Key::Insert),
        VirtualKeyCode::Delete => Some(Key::Delete),
        VirtualKeyCode::Home => Some(Key::Home),
        VirtualKeyCode::End => Some(Key::End),
        VirtualKeyCode::PageUp => Some(Key::PageUp),
        VirtualKeyCode::PageDown => Some(Key::PageDown),
        VirtualKeyCode::Key0 | VirtualKeyCode::Numpad0 => Some(Key::Num0),
        VirtualKeyCode::Key1 | VirtualKeyCode::Numpad1 => Some(Key::Num1),
        VirtualKeyCode::Key2 | VirtualKeyCode::Numpad2 => Some(Key::Num2),
        VirtualKeyCode::Key3 | VirtualKeyCode::Numpad3 => Some(Key::Num3),
        VirtualKeyCode::Key4 | VirtualKeyCode::Numpad4 => Some(Key::Num4),
        VirtualKeyCode::Key5 | VirtualKeyCode::Numpad5 => Some(Key::Num5),
        VirtualKeyCode::Key6 | VirtualKeyCode::Numpad6 => Some(Key::Num6),
        VirtualKeyCode::Key7 | VirtualKeyCode::Numpad7 => Some(Key::Num7),
        VirtualKeyCode::Key8 | VirtualKeyCode::Numpad8 => Some(Key::Num8),
        VirtualKeyCode::Key9 | VirtualKeyCode::Numpad9 => Some(Key::Num9),
        VirtualKeyCode::A => Some(Key::A),
        VirtualKeyCode::B => Some(Key::B),
        VirtualKeyCode::C => Some(Key::C),
        VirtualKeyCode::D => Some(Key::D),
        VirtualKeyCode::E => Some(Key::E),
        VirtualKeyCode::F => Some(Key::F),
        VirtualKeyCode::G => Some(Key::G),
        VirtualKeyCode::H => Some(Key::H),
        VirtualKeyCode::I => Some(Key::I),
        VirtualKeyCode::J => Some(Key::J),
        VirtualKeyCode::K => Some(Key::K),
        VirtualKeyCode::L => Some(Key::L),
        VirtualKeyCode::M => Some(Key::M),
        VirtualKeyCode::N => Some(Key::N),
        VirtualKeyCode::O => Some(Key::O),
        VirtualKeyCode::P => Some(Key::P),
        VirtualKeyCode::Q => Some(Key::Q),
        VirtualKeyCode::R => Some(Key::R),
        VirtualKeyCode::S => Some(Key::S),
        VirtualKeyCode::T => Some(Key::T),
        VirtualKeyCode::U => Some(Key::U),
        VirtualKeyCode::V => Some(Key::V),
        VirtualKeyCode::W => Some(Key::W),
        VirtualKeyCode::X => Some(Key::X),
        VirtualKeyCode::Y => Some(Key::Y),
        VirtualKeyCode::Z => Some(Key::Z),
        _ => None,
    }
}

/// Whether the key, with these modifiers, asks to cut: command and X, or
/// on Windows shift and delete.
pub open spec fn is_cut(platform: Platform, modifiers: Modifiers, keycode: VirtualKeyCode) -> bool {
    (modifiers.command && keycode == VirtualKeyCode::X) || (platform == Platform::Windows
        && modifiers.shift && keycode == VirtualKeyCode::Delete)
}

/// Whether the key, with these modifiers, asks to copy: command and C, or
/// on Windows control and insert.
pub open spec fn is_copy(platform: Platform, modifiers: Modifiers, keycode: VirtualKeyCode) -> bool {
    (modifiers.command && keycode == VirtualKeyCode::C) || (platform == Platform::Windows
        && modifiers.ctrl && keycode == VirtualKeyCode::Insert)
}

/// Whether the key, with these modifiers, asks to paste: command and V, or
/// on Windows shift and insert.
pub open spec fn is_paste(platform: Platform, modifiers: Modifiers, keycode: VirtualKeyCode) -> bool {
    (modifiers.command && keycode == VirtualKeyCode::V) || (platform == Platform::Windows
        && modifiers.shift && keycode == VirtualKeyCode::Insert)
}

/// The interface's modifiers for those of the windowing system: on a Mac
/// the logo key is the command key, elsewhere control is.
pub open spec fn modifiers_of(platform: Platform, modifiers: ModifiersState) -> Modifiers {
    Modifiers {
        alt: modifiers.alt,
        ctrl: modifiers.ctrl,
        shift: modifiers.shift,
        mac_cmd: platform == Platform::MacOs && modifiers.logo,
        command: if platform == Platform::MacOs {
            modifiers.logo
        } else {
            modifiers.ctrl
        },
    }
}

/// The interface's name for a mouse button, for the three that it knows.
pub open spec fn button_of(button: MouseButton) -> Option<PointerButton> {
    match button {
        MouseButton::Left => Some(PointerButton::Primary),
        MouseButton::Right => Some(PointerButton::Secondary),
        MouseButton::Middle => Some(PointerButton::Middle),
        MouseButton::Other(_) => None,
    }
}

/// Whether `chr` lies in one of Unicode's private use areas.
pub open spec fn in_private_use_area(chr: char) -> bool {
    ||| '\u{e000}' <= chr <= '\u{f8ff}'
    ||| '\u{f0000}' <= chr <= '\u{ffffd}'
    ||| '\u{100000}' <= chr <= '\u{10fffd}'
}

/// Whether `chr` is an ASCII control character: one of the first 32 code
/// points, or delete.
pub open spec fn is_ascii_control(chr: char) -> bool {
    chr <= '\u{1f}' || chr == '\u{7f}'
}

/// Whether a typed character is text.
pub open spec fn printable(chr: char) -> bool {
    !in_private_use_area(chr) && !is_ascii_control(chr)
}

/// The events of a key that went down or up: a cut or a copy where the key
/// went down and asks for it, then the key itself where the interface
/// knows it. A paste is recognised and causes no event.
pub open spec fn key_events(
    platform: Platform,
    held: Modifiers,
    state: ModifiersState,
    keycode: VirtualKeyCode,
    pressed: bool,
) -> Seq<Event> {
    let command = if pressed && is_cut(platform, held, keycode) {
        seq![Event::Cut]
    } else if pressed && is_copy(platform, held, keycode) {
        seq![Event::Copy]
    } else {
        Seq::empty()
    };
    let key = match key_of(keycode) {
        Some(key) => seq![Event::Key { key, pressed, modifiers: modifiers_of(platform, state) }],
        None => Seq::empty(),
    };
    command + key
}

/// The events of a typed character: the character where it is text, unless
/// on a Mac control or command is held.
pub open spec fn text_events(platform: Platform, held: Modifiers, ch: char) -> Seq<Event> {
    if printable(ch) && !(platform == Platform::MacOs && (held.ctrl || held.mac_cmd)) {
        seq![Event::Text(ch)]
    } else {
        Seq::empty()
    }
}

/// The events of a mouse button that went down or up: the button at the
/// place of the pointer, where the interface knows the button.
pub open spec fn mouse_events(
    held: Modifiers,
    pointer: PointerPos,
    pressed: bool,
    button: MouseButton,
) -> Seq<Event> {
    match button_of(button) {
        Some(button) => seq![Event::PointerButton { button, pos: pointer, pressed, modifiers: held }],
        None => Seq::empty(),
    }
}

/// Whether the key, with these modifiers, asks to cut.
pub fn is_cut_command(platform: Platform, modifiers: Modifiers, keycode: VirtualKeyCode) -> (cut:
    bool)
    ensures
        cut == is_cut(platform, modifiers, keycode),
{
    (modifiers.command && keycode == VirtualKeyCode::X) || (platform == Platform::Windows
        && modifiers.shift && keycode == VirtualKeyCode::Delete)
}

/// Whether the key, with these modifiers, asks to copy.
pub fn is_copy_command(platform: Platform, modifiers: Modifiers, keycode: VirtualKeyCode) -> (copy:
    bool)
    ensures
        copy == is_copy(platform, modifiers, keycode),
{
    (modifiers.command && keycode == VirtualKeyCode::C) || (platform == Platform::Windows
        && modifiers.ctrl && keycode == VirtualKeyCode::Insert)
}

/// Whether the key, with these modifiers, asks to paste.
pub fn is_paste_command(platform: Platform, modifiers: Modifiers, keycode: VirtualKeyCode) -> (paste:
    bool)
    ensures
        paste == is_paste(platform, modifiers, keycode),
{
    (modifiers.command && keycode == VirtualKeyCode::V) || (platform == Platform::Windows
        && modifiers.shift && keycode == VirtualKeyCode::Insert)
}

/// The interface's name for a key, or `None` for a key that it does not
/// know.
pub fn translate_keycode(key: VirtualKeyCode) -> (translated: Option<Key>)
    ensures
        translated == key_of(key),
{
    reveal(key_of);
    Some(
        match key {
            VirtualKeyCode::Down => Key::ArrowDown,
            VirtualKeyCode::Left => Key::ArrowLeft,
            VirtualKeyCode::Right => Key::ArrowRight,
            VirtualKeyCode::Up => Key::ArrowUp,
            VirtualKeyCode::Escape => Key::Escape,
            VirtualKeyCode::Tab => Key::Tab,
            VirtualKeyCode::Back => Key::Backspace,
            VirtualKeyCode::Return => Key::Enter,
            VirtualKeyCode::Space => Key::Space,
            VirtualKeyCode::Insert => Key::Insert,
            VirtualKeyCode::Delete => Key::Delete,
            VirtualKeyCode::Home => Key::Home,
            VirtualKeyCode::End => Key::End,
            VirtualKeyCode::PageUp => Key::PageUp,
            VirtualKeyCode::PageDown => Key::PageDown,
            VirtualKeyCode::Key0 | VirtualKeyCode::Numpad0 => Key::Num0,
            VirtualKeyCode::Key1 | VirtualKeyCode::Numpad1 => Key::Num1,
            VirtualKeyCode::Key2 | VirtualKeyCode::Numpad2 => Key::Num2,
            VirtualKeyCode::Key3 | VirtualKeyCode::Numpad3 => Key::Num3,
            VirtualKeyCode::Key4 | VirtualKeyCode::Numpad4 => Key::Num4,
            VirtualKeyCode::Key5 | VirtualKeyCode::Numpad5 => Key::Num5,
            VirtualKeyCode::Key6 | VirtualKeyCode::Numpad6 => Key::Num6,
            VirtualKeyCode::Key7 | VirtualKeyCode::Numpad7 => Key::Num7,
            VirtualKeyCode::Key8 | VirtualKeyCode::Numpad8 => Key::Num8,
            VirtualKeyCode::Key9 | VirtualKeyCode::Numpad9 => Key::Num9,
            VirtualKeyCode::A => Key::A,
            VirtualKeyCode::B => Key::B,
            VirtualKeyCode::C => Key::C,
            VirtualKeyCode::D => Key::D,
            VirtualKeyCode::E => Key::E,
            VirtualKeyCode::F => Key::F,
            VirtualKeyCode::G => Key::G,
            VirtualKeyCode::H => Key::H,
            VirtualKeyCode::I => Key::I,
            VirtualKeyCode::J => Key::J,
            VirtualKeyCode::K => Key::K,
            VirtualKeyCode::L => Key::L,
            VirtualKeyCode::M => Key::M,
            VirtualKeyCode::N => Key::N,
            VirtualKeyCode::O => Key::O,
            VirtualKeyCode::P => Key::P,
            VirtualKeyCode::Q => Key::Q,
            VirtualKeyCode::R => Key::R,
            VirtualKeyCode::S => Key::S,
            VirtualKeyCode::T => Key::T,
            VirtualKeyCode::U => Key::U,
            VirtualKeyCode::V => Key::V,
            VirtualKeyCode::W => Key::W,
            VirtualKeyCode::X => Key::X,
            VirtualKeyCode::Y => Key::Y,
            VirtualKeyCode::Z => Key::Z,
            _ => {
                return None;
            },
        },
    )
}

/// The interface's modifiers for those of the windowing system.
pub fn translate_modifiers(platform: Platform, modifiers: ModifiersState) -> (translated: Modifiers)
    ensures
        translated == modifiers_of(platform, modifiers),
{
    let mac = platform == Platform::MacOs;
    Modifiers {
        alt: modifiers.alt,
        ctrl: modifiers.ctrl,
        shift: modifiers.shift,
        mac_cmd: mac && modifiers.logo,
        command: if mac {
            modifiers.logo
        } else {
            modifiers.ctrl
        },
    }
}

/// The interface's name for a mouse button, or `None` for a button that it
/// does not know.
pub fn translate_mouse_button(button: MouseButton) -> (translated: Option<PointerButton>)
    ensures
        translated == button_of(button),
{
    match button {
        MouseButton::Left => Some(PointerButton::Primary),
        MouseButton::Right => Some(PointerButton::Secondary),
        MouseButton::Middle => Some(PointerButton::Middle),
        MouseButton::Other(_) => None,
    }
}

/// Whether a typed character is text: windowing systems also report
/// control characters, and private-use code points for function keys, and
/// those are not.
pub fn is_printable_char(chr: char) -> (is_printable: bool)
    ensures
        is_printable == printable(chr),
{
    let is_in_private_use_area = '\u{e000}' <= chr && chr <= '\u{f8ff}' || '\u{f0000}' <= chr && chr
        <= '\u{ffffd}' || '\u{100000}' <= chr && chr <= '\u{10fffd}';
    let is_control = chr <= '\u{1f}' || chr == '\u{7f}';
    !is_in_private_use_area && !is_control
}

/// What the user interface is told of the keyboard and the mouse: the
/// state of the modifiers and of the pointer, and the events that have come
/// and were not yet taken.
pub struct Input {
    pub platform: Platform,
    /// The modifiers as the windowing system last reported them.
    pub state: ModifiersState,
    /// The modifiers as the interface holds them.
    pub modifiers: Modifiers,
    pub pointer: PointerPos,
    pub events: Vec<Event>,
}

impl Input {
    /// No modifier is held, the pointer is at the origin and no event has
    /// come.
    pub fn new(platform: Platform) -> (input: Input)
        ensures
            input.platform == platform,
            input.state == (ModifiersState { shift: false, ctrl: false, alt: false, logo: false }),
            input.modifiers == (Modifiers {
                alt: false,
                ctrl: false,
                shift: false,
                mac_cmd: false,
                command: false,
            }),
            input.pointer == (PointerPos { x: 0, y: 0 }),
            input.events@ == Seq::<Event>::empty(),
    {
        Input {
            platform,
            state: ModifiersState { shift: false, ctrl: false, alt: false, logo: false },
            modifiers: Modifiers {
                alt: false,
                ctrl: false,
                shift: false,
                mac_cmd: false,
                command: false,
            },
            pointer: PointerPos { x: 0, y: 0 },
            events: Vec::new(),
        }
    }

    /// A key went down or up. A report without a key code causes nothing.
    pub fn on_key_input(&mut self, virtual_keycode: Option<VirtualKeyCode>, pressed: bool)
        ensures
            final(self).platform == old(self).platform,
            final(self).state == old(self).state,
            final(self).modifiers == old(self).modifiers,
            final(self).pointer == old(self).pointer,
            final(self).events@ == old(self).events@ + (match virtual_keycode {
                Some(keycode) => key_events(
                    old(self).platform,
                    old(self).modifiers,
                    old(self).state,
                    keycode,
                    pressed,
                ),
                None => Seq::empty(),
            }),
    {
        if let Some(keycode) = virtual_keycode {
            let key = translate_keycode(keycode);
            let ghost before = self.events@;
            if pressed {
                if is_cut_command(self.platform, self.modifiers, keycode) {
                    self.events.push(Event::Cut);
                } else if is_copy_command(self.platform, self.modifiers, keycode) {
                    self.events.push(Event::Copy);
                } else if is_paste_command(self.platform, self.modifiers, keycode) {
                }
            }
            if let Some(key) = key {
                let modifiers = translate_modifiers(self.platform, self.state);
                self.events.push(Event::Key { key, pressed, modifiers });
            }
            assert(self.events@ =~= before + key_events(
                self.platform,
                self.modifiers,
                self.state,
                keycode,
                pressed,
            ));
        } else {
            assert(self.events@ =~= old(self).events@ + Seq::<Event>::empty());
        }
    }

    /// A character was typed.
    pub fn on_text_input(&mut self, ch: char)
        ensures
            final(self).platform == old(self).platform,
            final(self).state == old(self).state,
            final(self).modifiers == old(self).modifiers,
            final(self).pointer == old(self).pointer,
            final(self).events@ == old(self).events@ + text_events(
                old(self).platform,
                old(self).modifiers,
                ch,
            ),
    {
        let is_mac_cmd = self.platform == Platform::MacOs && (self.modifiers.ctrl
            || self.modifiers.mac_cmd);
        if is_printable_char(ch) && !is_mac_cmd {
            self.events.push(Event::Text(ch));
        }
        assert(self.events@ =~= old(self).events@ + text_events(
            self.platform,
            self.modifiers,
            ch,
        ));
    }

    /// The pointer moved to `position`.
    pub fn on_mouse_move(&mut self, position: PointerPos)
        ensures
            final(self).platform == old(self).platform,
            final(self).state == old(self).state,
            final(self).modifiers == old(self).modifiers,
            final(self).pointer == position,
            final(self).events@ == old(self).events@.push(Event::PointerMoved(position)),
    {
        self.events.push(Event::PointerMoved(position));
        self.pointer = position;
    }

    /// A mouse button went down or up.
    pub fn on_mouse_input(&mut self, pressed: bool, button: MouseButton)
        ensures
            final(self).platform == old(self).platform,
            final(self).state == old(self).state,
            final(self).modifiers == old(self).modifiers,
            final(self).pointer == old(self).pointer,
            final(self).events@ == old(self).events@ + mouse_events(
                old(self).modifiers,
                old(self).pointer,
                pressed,
                button,
            ),
    {
        if let Some(button) = translate_mouse_button(button) {
            self.events.push(
                Event::PointerButton {
                    button,
                    pos: self.pointer,
                    pressed,
                    modifiers: self.modifiers,
                },
            );
        }
        assert(self.events@ =~= old(self).events@ + mouse_events(
            self.modifiers,
            self.pointer,
            pressed,
            button,
        ));
    }
}

} // verus!

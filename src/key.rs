use vstd::prelude::*;

verus! {

/// A key of the keyboard, independent of the native key codes.
#[derive(Debug, Clone, Copy, PartialEq, Eq, Hash, Structural)]
pub enum Key {
    Unknown,
    Tab,
    Enter,
    Space,
    Apostrophe,
    Comma,
    Minus,
    Period,
    ForwardSlash,
    _0,
    _1,
    _2,
    _3,
    _4,
    _5,
    _6,
    _7,
    _8,
    _9,
    Semicolon,
    Equals,
    A,
    B,
    C,
    D,
    E,
    F,
    G,
    H,
    I,
    J,
    K,
    L,
    M,
    N,
    O,
    P,
    Q,
    R,
    S,
    T,
    U,
    V,
    W,
    X,
    Y,
    Z,
    LeftBracket,
    BackSlash,
    RightBracket,
    Accent,
    Escape,
    NumEnter,
    Backspace,
    Insert,
    Delete,
    Up,
    Down,
    Left,
    Right,
    PageUp,
    PageDown,
    Home,
    End,
    CapsLock,
    ScrollLock,
    NumLock,
    PrintScreen,
    Pause,
    Num0,
    Num1,
    Num2,
    Num3,
    Num4,
    Num5,
    Num6,
    Num7,
    Num8,
    Num9,
    F1,
    F2,
    F3,
    F4,
    F5,
    F6,
    F7,
    F8,
    F9,
    F10,
    F11,
    F12,
    F13,
    F14,
    F15,
    F16,
    F17,
    F18,
    F19,
    F20,
    F21,
    F22,
    F23,
    F24,
    F25,
    NumPeriod,
    NumComma,
    NumPlus,
    NumMinus,
    NumDivide,
    NumMultiply,
    NumEquals,
    LeftShift,
    LeftControl,
    LeftAlt,
    LeftSuper,
    RightShift,
    RightControl,
    RightAlt,
    RightSuper,
    Menu,
    Caret,
    AbntC1,
    AbntC2,
    Asterisk,
    At,
    Ax,
    Calculator,
    Colon,
    Convert,
    Kana,
    Kanji,
    Mail,
    MyComputer,
    NavigateForward,
    NavigateBackward,
    MediaPlayPause,
    MediaStop,
    MediaSelect,
    MediaNextTrack,
    MediaPrevTrack,
    VolumeDown,
    VolumeUp,
    VolumeMute,
    NoConvert,
    OEM102,
    Plus,
    Power,
    Sleep,
    Stop,
    SysRq,
    Underline,
    NoName,
    Wake,
    WebBack,
    WebFavorites,
    WebForward,
    WebHome,
    WebRefresh,
    WebSearch,
    WebStop,
    Yen,
    Copy,
    Paste,
    Cut,
}

/// The key that a native virtual-key code stands for; codes with no
/// portable meaning are `Key::Unknown`.
pub open spec fn key_of_virtual_key(vk: u16) -> Key {
    match vk {
        0x31 => Key::_1, // VK_1
        0x32 => Key::_2, // VK_2
        0x33 => Key::_3, // VK_3
        0x34 => Key::_4, // VK_4
        0x35 => Key::_5, // VK_5
        0x36 => Key::_6, // VK_6
        0x37 => Key::_7, // VK_7
        0x38 => Key::_8, // VK_8
        0x39 => Key::_9, // VK_9
        0x30 => Key::_0, // VK_0
        0x41 => Key::A, // VK_A
        0x42 => Key::B, // VK_B
        0x43 => Key::C, // VK_C
        0x44 => Key::D, // VK_D
        0x45 => Key::E, // VK_E
        0x46 => Key::F, // VK_F
        0x47 => Key::G, // VK_G
        0x48 => Key::H, // VK_H
        0x49 => Key::I, // VK_I
        0x4A => Key::J, // VK_J
        0x4B => Key::K, // VK_K
        0x4C => Key::L, // VK_L
        0x4D => Key::M, // VK_M
        0x4E => Key::N, // VK_N
        0x4F => Key::O, // VK_O
        0x50 => Key::P, // VK_P
        0x51 => Key::Q, // VK_Q
        0x52 => Key::R, // VK_R
        0x53 => Key::S, // VK_S
        0x54 => Key::T, // VK_T
        0x55 => Key::U, // VK_U
        0x56 => Key::V, // VK_V
        0x57 => Key::W, // VK_W
        0x58 => Key::X, // VK_X
        0x59 => Key::Y, // VK_Y
        0x5A => Key::Z, // VK_Z
        0x1B => Key::Escape, // VK_ESCAPE
        0x70 => Key::F1, // VK_F1
        0x71 => Key::F2, // VK_F2
        0x72 => Key::F3, // VK_F3
        0x73 => Key::F4, // VK_F4
        0x74 => Key::F5, // VK_F5
        0x75 => Key::F6, // VK_F6
        0x76 => Key::F7, // VK_F7
        0x77 => Key::F8, // VK_F8
        0x78 => Key::F9, // VK_F9
        0x79 => Key::F10, // VK_F10
        0x7A => Key::F11, // VK_F11
        0x7B => Key::F12, // VK_F12
        0x7C => Key::F13, // VK_F13
        0x7D => Key::F14, // VK_F14
        0x7E => Key::F15, // VK_F15
        0x7F => Key::F16, // VK_F16
        0x80 => Key::F17, // VK_F17
        0x81 => Key::F18, // VK_F18
        0x82 => Key::F19, // VK_F19
        0x83 => Key::F20, // VK_F20
        0x84 => Key::F21, // VK_F21
        0x85 => Key::F22, // VK_F22
        0x86 => Key::F23, // VK_F23
        0x87 => Key::F24, // VK_F24
        0x2C => Key::PrintScreen, // VK_SNAPSHOT
        0x91 => Key::ScrollLock, // VK_SCROLL
        0x13 => Key::Pause, // VK_PAUSE
        0x2D => Key::Insert, // VK_INSERT
        0x24 => Key::Home, // VK_HOME
        0x2E => Key::Delete, // VK_DELETE
        0x23 => Key::End, // VK_END
        0x22 => Key::PageDown, // VK_NEXT
        0x21 => Key::PageUp, // VK_PRIOR
        0x25 => Key::Left, // VK_LEFT
        0x26 => Key::Up, // VK_UP
        0x27 => Key::Right, // VK_RIGHT
        0x28 => Key::Down, // VK_DOWN
        0x08 => Key::Backspace, // VK_BACK
        0x0D => Key::Enter, // VK_RETURN
        0x20 => Key::Space, // VK_SPACE
        0x90 => Key::NumLock, // VK_NUMLOCK
        0x60 => Key::Num0, // VK_NUMPAD0
        0x61 => Key::Num1, // VK_NUMPAD1
        0x62 => Key::Num2, // VK_NUMPAD2
        0x63 => Key::Num3, // VK_NUMPAD3
        0x64 => Key::Num4, // VK_NUMPAD4
        0x65 => Key::Num5, // VK_NUMPAD5
        0x66 => Key::Num6, // VK_NUMPAD6
        0x67 => Key::Num7, // VK_NUMPAD7
        0x68 => Key::Num8, // VK_NUMPAD8
        0x69 => Key::Num9, // VK_NUMPAD9
        0x6B => Key::NumPlus, // VK_ADD
        0x6D => Key::NumMinus, // VK_SUBTRACT
        0x6A => Key::NumMultiply, // VK_MULTIPLY
        0x6F => Key::NumDivide, // VK_DIVIDE
        0x6E => Key::NumPeriod, // VK_DECIMAL
        0xC1 => Key::AbntC1, // VK_ABNT_C1
        0xC2 => Key::AbntC2, // VK_ABNT_C2
        0xDE => Key::Apostrophe, // VK_OEM_7
        0x5D => Key::Menu, // VK_APPS
        0xE1 => Key::Ax, // VK_OEM_AX
        0xDC => Key::BackSlash, // VK_OEM_5
        0x14 => Key::CapsLock, // VK_CAPITAL
        0xBC => Key::Comma, // VK_OEM_COMMA
        0x1C => Key::Convert, // VK_CONVERT
        0xBB => Key::Equals, // VK_OEM_PLUS
        0xC0 => Key::Accent, // VK_OEM_3
        0x15 => Key::Kana, // VK_KANA
        0x19 => Key::Kanji, // VK_KANJI
        0xA4 => Key::LeftAlt, // VK_LMENU
        0xDB => Key::LeftBracket, // VK_OEM_4
        0xA2 => Key::LeftControl, // VK_LCONTROL
        0xA0 => Key::LeftShift, // VK_LSHIFT
        0x5B => Key::LeftSuper, // VK_LWIN
        0xB4 => Key::Mail, // VK_LAUNCH_MAIL
        0xB5 => Key::MediaSelect, // VK_LAUNCH_MEDIA_SELECT
        0xB2 => Key::MediaStop, // VK_MEDIA_STOP
        0xBD => Key::Minus, // VK_OEM_MINUS
        0xAD => Key::VolumeMute, // VK_VOLUME_MUTE
        0xB0 => Key::MediaNextTrack, // VK_MEDIA_NEXT_TRACK
        0x1D => Key::NoConvert, // VK_NONCONVERT
        0xE2 => Key::OEM102, // VK_OEM_102
        0xBE => Key::Period, // VK_OEM_PERIOD
        0xB3 => Key::MediaPlayPause, // VK_MEDIA_PLAY_PAUSE
        0xB1 => Key::MediaPrevTrack, // VK_MEDIA_PREV_TRACK
        0xA5 => Key::RightAlt, // VK_RMENU
        0xDD => Key::RightBracket, // VK_OEM_6
        0xA3 => Key::RightControl, // VK_RCONTROL
        0xA1 => Key::RightShift, // VK_RSHIFT
        0x5C => Key::RightSuper, // VK_RWIN
        0xBA => Key::Semicolon, // VK_OEM_1
        0xBF => Key::ForwardSlash, // VK_OEM_2
        0x5F => Key::Sleep, // VK_SLEEP
        0x09 => Key::Tab, // VK_TAB
        0xFC => Key::NoName, // VK_NONAME
        0xAE => Key::VolumeDown, // VK_VOLUME_DOWN
        0xAF => Key::VolumeUp, // VK_VOLUME_UP
        0xA6 => Key::WebBack, // VK_BROWSER_BACK
        0xAB => Key::WebFavorites, // VK_BROWSER_FAVORITES
        0xA7 => Key::WebForward, // VK_BROWSER_FORWARD
        0xAC => Key::WebHome, // VK_BROWSER_HOME
        0xA8 => Key::WebRefresh, // VK_BROWSER_REFRESH
        0xAA => Key::WebSearch, // VK_BROWSER_SEARCH
        0xA9 => Key::WebStop, // VK_BROWSER_STOP
        0xF2 => Key::Copy, // VK_OEM_COPY
        _ => Key::Unknown,
    }
}

impl From<u16> for Key {
    /// Translates a native virtual-key code.
    fn from(vk: u16) -> (key: Key) {
        match vk {
            0x31 => Key::_1, // VK_1
            0x32 => Key::_2, // VK_2
            0x33 => Key::_3, // VK_3
            0x34 => Key::_4, // VK_4
            0x35 => Key::_5, // VK_5
            0x36 => Key::_6, // VK_6
            0x37 => Key::_7, // VK_7
            0x38 => Key::_8, // VK_8
            0x39 => Key::_9, // VK_9
            0x30 => Key::_0, // VK_0
            0x41 => Key::A, // VK_A
            0x42 => Key::B, // VK_B
            0x43 => Key::C, // VK_C
            0x44 => Key::D, // VK_D
            0x45 => Key::E, // VK_E
            0x46 => Key::F, // VK_F
            0x47 => Key::G, // VK_G
            0x48 => Key::H, // VK_H
            0x49 => Key::I, // VK_I
            0x4A => Key::J, // VK_J
            0x4B => Key::K, // VK_K
            0x4C => Key::L, // VK_L
            0x4D => Key::M, // VK_M
            0x4E => Key::N, // VK_N
            0x4F => Key::O, // VK_O
            0x50 => Key::P, // VK_P
            0x51 => Key::Q, // VK_Q
            0x52 => Key::R, // VK_R
            0x53 => Key::S, // VK_S
            0x54 => Key::T, // VK_T
            0x55 => Key::U, // VK_U
            0x56 => Key::V, // VK_V
            0x57 => Key::W, // VK_W
            0x58 => Key::X, // VK_X
            0x59 => Key::Y, // VK_Y
            0x5A => Key::Z, // VK_Z
            0x1B => Key::Escape, // VK_ESCAPE
            0x70 => Key::F1, // VK_F1
            0x71 => Key::F2, // VK_F2
            0x72 => Key::F3, // VK_F3
            0x73 => Key::F4, // VK_F4
            0x74 => Key::F5, // VK_F5
            0x75 => Key::F6, // VK_F6
            0x76 => Key::F7, // VK_F7
            0x77 => Key::F8, // VK_F8
            0x78 => Key::F9, // VK_F9
            0x79 => Key::F10, // VK_F10
            0x7A => Key::F11, // VK_F11
            0x7B => Key::F12, // VK_F12
            0x7C => Key::F13, // VK_F13
            0x7D => Key::F14, // VK_F14
            0x7E => Key::F15, // VK_F15
            0x7F => Key::F16, // VK_F16
            0x80 => Key::F17, // VK_F17
            0x81 => Key::F18, // VK_F18
            0x82 => Key::F19, // VK_F19
            0x83 => Key::F20, // VK_F20
            0x84 => Key::F21, // VK_F21
            0x85 => Key::F22, // VK_F22
            0x86 => Key::F23, // VK_F23
            0x87 => Key::F24, // VK_F24
            0x2C => Key::PrintScreen, // VK_SNAPSHOT
            0x91 => Key::ScrollLock, // VK_SCROLL
            0x13 => Key::Pause, // VK_PAUSE
            0x2D => Key::Insert, // VK_INSERT
            0x24 => Key::Home, // VK_HOME
            0x2E => Key::Delete, // VK_DELETE
            0x23 => Key::End, // VK_END
            0x22 => Key::PageDown, // VK_NEXT
            0x21 => Key::PageUp, // VK_PRIOR
            0x25 => Key::Left, // VK_LEFT
            0x26 => Key::Up, // VK_UP
            0x27 => Key::Right, // VK_RIGHT
            0x28 => Key::Down, // VK_DOWN
            0x08 => Key::Backspace, // VK_BACK
            0x0D => Key::Enter, // VK_RETURN
            0x20 => Key::Space, // VK_SPACE
            0x90 => Key::NumLock, // VK_NUMLOCK
            0x60 => Key::Num0, // VK_NUMPAD0
            0x61 => Key::Num1, // VK_NUMPAD1
            0x62 => Key::Num2, // VK_NUMPAD2
            0x63 => Key::Num3, // VK_NUMPAD3
            0x64 => Key::Num4, // VK_NUMPAD4
            0x65 => Key::Num5, // VK_NUMPAD5
            0x66 => Key::Num6, // VK_NUMPAD6
            0x67 => Key::Num7, // VK_NUMPAD7
            0x68 => Key::Num8, // VK_NUMPAD8
            0x69 => Key::Num9, // VK_NUMPAD9
            0x6B => Key::NumPlus, // VK_ADD
            0x6D => Key::NumMinus, // VK_SUBTRACT
            0x6A => Key::NumMultiply, // VK_MULTIPLY
            0x6F => Key::NumDivide, // VK_DIVIDE
            0x6E => Key::NumPeriod, // VK_DECIMAL
            0xC1 => Key::AbntC1, // VK_ABNT_C1
            0xC2 => Key::AbntC2, // VK_ABNT_C2
            0xDE => Key::Apostrophe, // VK_OEM_7
            0x5D => Key::Menu, // VK_APPS
            0xE1 => Key::Ax, // VK_OEM_AX
            0xDC => Key::BackSlash, // VK_OEM_5
            0x14 => Key::CapsLock, // VK_CAPITAL
            0xBC => Key::Comma, // VK_OEM_COMMA
            0x1C => Key::Convert, // VK_CONVERT
            0xBB => Key::Equals, // VK_OEM_PLUS
            0xC0 => Key::Accent, // VK_OEM_3
            0x15 => Key::Kana, // VK_KANA
            0x19 => Key::Kanji, // VK_KANJI
            0xA4 => Key::LeftAlt, // VK_LMENU
            0xDB => Key::LeftBracket, // VK_OEM_4
            0xA2 => Key::LeftControl, // VK_LCONTROL
            0xA0 => Key::LeftShift, // VK_LSHIFT
            0x5B => Key::LeftSuper, // VK_LWIN
            0xB4 => Key::Mail, // VK_LAUNCH_MAIL
            0xB5 => Key::MediaSelect, // VK_LAUNCH_MEDIA_SELECT
            0xB2 => Key::MediaStop, // VK_MEDIA_STOP
            0xBD => Key::Minus, // VK_OEM_MINUS
            0xAD => Key::VolumeMute, // VK_VOLUME_MUTE
            0xB0 => Key::MediaNextTrack, // VK_MEDIA_NEXT_TRACK
            0x1D => Key::NoConvert, // VK_NONCONVERT
            0xE2 => Key::OEM102, // VK_OEM_102
            0xBE => Key::Period, // VK_OEM_PERIOD
            0xB3 => Key::MediaPlayPause, // VK_MEDIA_PLAY_PAUSE
            0xB1 => Key::MediaPrevTrack, // VK_MEDIA_PREV_TRACK
            0xA5 => Key::RightAlt, // VK_RMENU
            0xDD => Key::RightBracket, // VK_OEM_6
            0xA3 => Key::RightControl, // VK_RCONTROL
            0xA1 => Key::RightShift, // VK_RSHIFT
            0x5C => Key::RightSuper, // VK_RWIN
            0xBA => Key::Semicolon, // VK_OEM_1
            0xBF => Key::ForwardSlash, // VK_OEM_2
            0x5F => Key::Sleep, // VK_SLEEP
            0x09 => Key::Tab, // VK_TAB
            0xFC => Key::NoName, // VK_NONAME
            0xAE => Key::VolumeDown, // VK_VOLUME_DOWN
            0xAF => Key::VolumeUp, // VK_VOLUME_UP
            0xA6 => Key::WebBack, // VK_BROWSER_BACK
            0xAB => Key::WebFavorites, // VK_BROWSER_FAVORITES
            0xA7 => Key::WebForward, // VK_BROWSER_FORWARD
            0xAC => Key::WebHome, // VK_BROWSER_HOME
            0xA8 => Key::WebRefresh, // VK_BROWSER_REFRESH
            0xAA => Key::WebSearch, // VK_BROWSER_SEARCH
            0xA9 => Key::WebStop, // VK_BROWSER_STOP
            0xF2 => Key::Copy, // VK_OEM_COPY
            _ => Key::Unknown,
        }
    }
}

impl vstd::std_specs::convert::FromSpecImpl<u16> for Key {
    open spec fn obeys_from_spec() -> bool {
        true
    }

    open spec fn from_spec(vk: u16) -> Key {
        key_of_virtual_key(vk)
    }
}

} // verus!

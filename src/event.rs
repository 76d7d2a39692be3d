use vstd::prelude::*;
use crate::geometry::{PhysicalPosition, PhysicalSize, Rect};
use crate::key::{Key, key_of_virtual_key};
use crate::utilities::{hi_word, is_flag_set, lo_word, signed_hi_word, signed_lo_word};

verus! {

pub const WM_CREATE: u32 = 0x0001;
pub const WM_DESTROY: u32 = 0x0002;
pub const WM_MOVE: u32 = 0x0003;
pub const WM_SIZE: u32 = 0x0005;
pub const WM_SETFOCUS: u32 = 0x0007;
pub const WM_KILLFOCUS: u32 = 0x0008;
pub const WM_CLOSE: u32 = 0x0010;
pub const WM_INPUT: u32 = 0x00FF;
pub const WM_KEYDOWN: u32 = 0x0100;
pub const WM_KEYUP: u32 = 0x0101;
pub const WM_SYSKEYDOWN: u32 = 0x0104;
pub const WM_SYSKEYUP: u32 = 0x0105;
pub const WM_MOUSEMOVE: u32 = 0x0200;
pub const WM_LBUTTONDOWN: u32 = 0x0201;
pub const WM_LBUTTONUP: u32 = 0x0202;
pub const WM_RBUTTONDOWN: u32 = 0x0204;
pub const WM_RBUTTONUP: u32 = 0x0205;
pub const WM_MBUTTONDOWN: u32 = 0x0207;
pub const WM_MBUTTONUP: u32 = 0x0208;
pub const WM_MOUSEWHEEL: u32 = 0x020A;
pub const WM_DPICHANGED: u32 = 0x02E0;

/// Bit of a key message's second parameter that is set when the key was
/// already down, that is when the message is an auto-repeat.
pub const KEY_REPEAT_BIT: u32 = 0x4000_0000;

/// A native message as the window procedure receives it.  `rect` is the
/// rectangle that a DPI-change message points at (the placement the system
/// suggests for the new DPI); it is ignored for every other message.
#[derive(Debug, Clone, Copy, PartialEq, Eq, Structural)]
pub struct NativeMessage {
    pub id: u32,
    pub wparam: u64,
    pub lparam: i64,
    pub rect: Rect,
}

/// Whether a key or a mouse button went down or up.
#[derive(Debug, Clone, Copy, PartialEq, Eq, Hash, Structural)]
pub enum ButtonState {
    Pressed,
    Released,
}

#[derive(Debug, Clone, Copy, PartialEq, Eq, Hash, Structural)]
pub enum MouseButton {
    Left,
    Right,
    Middle,
}

/// What happened to the window, in portable terms.
#[derive(Debug, Clone, Copy, PartialEq, Eq, Structural)]
pub enum Event {
    Created,
    CloseRequested,
    Destroyed,
    Resized(PhysicalSize),
    Moved(PhysicalPosition),
    /// The window moved to a display of another DPI and took this size.
    DpiChanged { dpi: u32, size: PhysicalSize },
    Focused(bool),
    KeyboardInput { key: Key, state: ButtonState, repeat: bool },
    MouseButton { button: MouseButton, state: ButtonState },
    MouseMove(PhysicalPosition),
    MouseWheel { delta: i16 },
    /// Raw device input is waiting under this handle.
    RawInput(i64),
    /// Nothing is pending.
    Idle,
}

/// A size packed as two unsigned words: width low, height high.
pub open spec fn packed_size(v: i64) -> PhysicalSize {
    PhysicalSize { width: ((v as u32) % 0x1_0000) as u32, height: ((v as u32) / 0x1_0000) as u32 }
}

/// A position packed as two signed words: x low, y high.
pub open spec fn packed_position(v: i64) -> PhysicalPosition {
    PhysicalPosition { x: (v as i32) as i16 as i32, y: ((v as i32) / 0x1_0000) as i16 as i32 }
}

/// The portable event a native message stands for; `None` for messages
/// with no portable meaning.
pub open spec fn event_of(m: NativeMessage) -> Option<Event> {
    let id = m.id;
    if id == WM_CREATE {
        Some(Event::Created)
    } else if id == WM_CLOSE {
        Some(Event::CloseRequested)
    } else if id == WM_DESTROY {
        Some(Event::Destroyed)
    } else if id == WM_SIZE {
        Some(Event::Resized(packed_size(m.lparam)))
    } else if id == WM_MOVE {
        Some(Event::Moved(packed_position(m.lparam)))
    } else if id == WM_DPICHANGED {
        Some(Event::DpiChanged { dpi: ((m.wparam as u32) % 0x1_0000) as u32, size: m.rect.spec_extent() })
    } else if id == WM_SETFOCUS {
        Some(Event::Focused(true))
    } else if id == WM_KILLFOCUS {
        Some(Event::Focused(false))
    } else if id == WM_KEYDOWN || id == WM_SYSKEYDOWN {
        Some(Event::KeyboardInput {
            key: key_of_virtual_key(((m.wparam as u32) % 0x1_0000) as u16),
            state: ButtonState::Pressed,
            repeat: (m.lparam as u32) & KEY_REPEAT_BIT == KEY_REPEAT_BIT,
        })
    } else if id == WM_KEYUP || id == WM_SYSKEYUP {
        Some(Event::KeyboardInput {
            key: key_of_virtual_key(((m.wparam as u32) % 0x1_0000) as u16),
            state: ButtonState::Released,
            repeat: false,
        })
    } else if id == WM_LBUTTONDOWN {
        Some(Event::MouseButton { button: MouseButton::Left, state: ButtonState::Pressed })
    } else if id == WM_LBUTTONUP {
        Some(Event::MouseButton { button: MouseButton::Left, state: ButtonState::Released })
    } else if id == WM_RBUTTONDOWN {
        Some(Event::MouseButton { button: MouseButton::Right, state: ButtonState::Pressed })
    } else if id == WM_RBUTTONUP {
        Some(Event::MouseButton { button: MouseButton::Right, state: ButtonState::Released })
    } else if id == WM_MBUTTONDOWN {
        Some(Event::MouseButton { button: MouseButton::Middle, state: ButtonState::Pressed })
    } else if id == WM_MBUTTONUP {
        Some(Event::MouseButton { button: MouseButton::Middle, state: ButtonState::Released })
    } else if id == WM_MOUSEMOVE {
        Some(Event::MouseMove(packed_position(m.lparam)))
    } else if id == WM_MOUSEWHEEL {
        Some(Event::MouseWheel { delta: ((m.wparam as u32 as i32) / 0x1_0000) as i16 })
    } else if id == WM_INPUT {
        Some(Event::RawInput(m.lparam))
    } else {
        None
    }
}

/// Unpacks a size carried as two unsigned words.
pub fn unpack_size(v: i64) -> (s: PhysicalSize)
    ensures
        s == packed_size(v),
{
    let w = lo_word(v as u32);
    let h = hi_word(v as u32);
    PhysicalSize { width: w as u32, height: h as u32 }
}

/// Unpacks a position carried as two signed words.
pub fn unpack_position(v: i64) -> (p: PhysicalPosition)
    ensures
        p == packed_position(v),
{
    let x = signed_lo_word(v as i32);
    let y = signed_hi_word(v as i32);
    PhysicalPosition { x: x as i32, y: y as i32 }
}

/// Translates a native message into the portable event it stands for.
pub fn translate_message(m: &NativeMessage) -> (e: Option<Event>)
    ensures
        e == event_of(*m),
{
    let id = m.id;
    if id == WM_CREATE {
        Some(Event::Created)
    } else if id == WM_CLOSE {
        Some(Event::CloseRequested)
    } else if id == WM_DESTROY {
        Some(Event::Destroyed)
    } else if id == WM_SIZE {
        Some(Event::Resized(unpack_size(m.lparam)))
    } else if id == WM_MOVE {
        Some(Event::Moved(unpack_position(m.lparam)))
    } else if id == WM_DPICHANGED {
        let dpi = lo_word(m.wparam as u32);
        Some(Event::DpiChanged { dpi: dpi as u32, size: m.rect.extent() })
    } else if id == WM_SETFOCUS {
        Some(Event::Focused(true))
    } else if id == WM_KILLFOCUS {
        Some(Event::Focused(false))
    } else if id == WM_KEYDOWN || id == WM_SYSKEYDOWN {
        let key = Key::from(lo_word(m.wparam as u32));
        let repeat = is_flag_set(m.lparam as u32, KEY_REPEAT_BIT);
        Some(Event::KeyboardInput { key, state: ButtonState::Pressed, repeat })
    } else if id == WM_KEYUP || id == WM_SYSKEYUP {
        let key = Key::from(lo_word(m.wparam as u32));
        Some(Event::KeyboardInput { key, state: ButtonState::Released, repeat: false })
    } else if id == WM_LBUTTONDOWN {
        Some(Event::MouseButton { button: MouseButton::Left, state: ButtonState::Pressed })
    } else if id == WM_LBUTTONUP {
        Some(Event::MouseButton { button: MouseButton::Left, state: ButtonState::Released })
    } else if id == WM_RBUTTONDOWN {
        Some(Event::MouseButton { button: MouseButton::Right, state: ButtonState::Pressed })
    } else if id == WM_RBUTTONUP {
        Some(Event::MouseButton { button: MouseButton::Right, state: ButtonState::Released })
    } else if id == WM_MBUTTONDOWN {
        Some(Event::MouseButton { button: MouseButton::Middle, state: ButtonState::Pressed })
    } else if id == WM_MBUTTONUP {
        Some(Event::MouseButton { button: MouseButton::Middle, state: ButtonState::Released })
    } else if id == WM_MOUSEMOVE {
        Some(Event::MouseMove(unpack_position(m.lparam)))
    } else if id == WM_MOUSEWHEEL {
        let delta = signed_hi_word(m.wparam as u32 as i32);
        Some(Event::MouseWheel { delta })
    } else if id == WM_INPUT {
        Some(Event::RawInput(m.lparam))
    } else {
        None
    }
}

} // verus!

use vstd::prelude::*;

verus! {

/// Low 16 bits of a 32-bit value, read as a signed word.
pub fn signed_lo_word(dword: i32) -> (r: i16)
    ensures
        r == dword as i16,
{
    dword as i16
}

/// Low 16 bits of a 32-bit value.
pub fn lo_word(dword: u32) -> (r: u16)
    ensures
        r == dword % 0x1_0000,
{
    let r = dword as u16;
    assert(dword as u16 == dword % 0x1_0000) by (bit_vector);
    r
}

/// High 16 bits of a 32-bit value, with the sign of the whole value.
pub fn signed_hi_word(dword: i32) -> (r: i16)
    ensures
        r == dword / 0x1_0000,
{
    assert((dword >> 16u32) as i16 == dword / 0x1_0000) by (bit_vector);
    (dword >> 16u32) as i16
}

/// High 16 bits of a 32-bit value.
pub fn hi_word(dword: u32) -> (r: u16)
    ensures
        r == dword / 0x1_0000,
{
    assert((dword >> 16u32) as u16 == dword / 0x1_0000) by (bit_vector);
    (dword >> 16u32) as u16
}

/// Low 8 bits of a 16-bit value, read as a signed byte.
pub fn signed_lo_byte(word: i16) -> (r: i8)
    ensures
        r == word as i8,
{
    word as i8
}

/// Low 8 bits of a 16-bit value.
pub fn lo_byte(word: u16) -> (r: u8)
    ensures
        r == word % 0x100,
{
    assert(word as u8 == word % 0x100) by (bit_vector);
    word as u8
}

/// High 8 bits of a 16-bit value, with the sign of the whole value.
pub fn signed_hi_byte(word: i16) -> (r: i8)
    ensures
        r == word / 0x100,
{
    assert((word >> 8u32) as i8 == word / 0x100) by (bit_vector);
    (word >> 8u32) as i8
}

/// High 8 bits of a 16-bit value.
pub fn hi_byte(word: u16) -> (r: u8)
    ensures
        r == word / 0x100,
{
    assert((word >> 8u32) as u8 == word / 0x100) by (bit_vector);
    (word >> 8u32) as u8
}

/// Whether every bit of `flag` is set in `var`.
pub fn is_flag_set(var: u32, flag: u32) -> (r: bool)
    ensures
        r == (var & flag == flag),
{
    (var & flag) == flag
}

} // verus!

verus! {

/// First build of Windows 10 (the October 2018 update) whose dark theme
/// the window frame follows.
pub const DARK_MODE_MIN_BUILD: u32 = 17763;

/// The DPI at which one logical unit is one physical pixel.
pub const BASE_DPI: u32 = 96;

/// The Windows 10 build number out of what the OS version query reported:
/// present only when the query succeeded (a non-negative status) and the
/// version is 10.0.
pub fn windows_10_build_from_version(status: i32, major: u32, minor: u32, build: u32) -> (r: Option<u32>)
    ensures
        r == (if status >= 0 && major == 10 && minor == 0 { Some(build) } else { None::<u32> }),
{
    if status >= 0 && major == 10 && minor == 0 {
        Some(build)
    } else {
        None
    }
}

/// Whether the frame of a window may follow the dark theme on a system
/// whose Windows 10 build is `build` (`None`: not Windows 10, or unknown).
pub fn is_dark_mode_supported(build: Option<u32>) -> (r: bool)
    ensures
        r == (build is Some && build->0 >= DARK_MODE_MIN_BUILD),
{
    match build {
        Some(v) => v >= DARK_MODE_MIN_BUILD,
        None => false,
    }
}

/// Whether a colour reads as light: its weighted brightness
/// `5 g + 2 r + b` is above `8 * 128`.
pub fn is_color_light(r: u8, g: u8, b: u8) -> (light: bool)
    ensures
        light == (5 * g + 2 * r + b > 8 * 128),
{
    (5 * (g as u32) + 2 * (r as u32) + b as u32) > 8 * 128
}

/// The system theme is dark when its foreground (text) colour is light.
pub fn is_system_dark_mode_enabled(foreground_r: u8, foreground_g: u8, foreground_b: u8) -> (dark: bool)
    ensures
        dark == (5 * foreground_g + 2 * foreground_r + foreground_b > 8 * 128),
{
    is_color_light(foreground_r, foreground_g, foreground_b)
}

/// The DPI of a window out of what the OS reported for it: the OS answers
/// 0 for a handle it does not know, which counts as the base DPI.
pub fn effective_dpi(reported: u32) -> (dpi: u32)
    ensures
        dpi == (if reported == 0 { BASE_DPI } else { reported }),
        dpi > 0,
{
    if reported == 0 {
        BASE_DPI
    } else {
        reported
    }
}

/// Whether a raw input read succeeded: the OS reports failure as `u32::MAX`
/// and an empty read as 0.
pub fn raw_input_read_succeeded(status: u32) -> (ok: bool)
    ensures
        ok == (status != u32::MAX && status != 0),
{
    status != u32::MAX && status != 0
}

/// The process-wide record of whether the cursor is hidden.  Showing or
/// hiding the cursor is a counter in the OS, so the toggle is only sent
/// when the requested state differs from the recorded one.
pub struct CursorVisibility {
    pub hidden: bool,
}

impl CursorVisibility {
    /// The cursor starts shown.
    pub fn new() -> (c: CursorVisibility)
        ensures
            !c.hidden,
    {
        CursorVisibility { hidden: false }
    }

    /// Records the requested state.  Returns `Some(show)` when the OS must
    /// be told to show (`true`) or hide (`false`) the cursor, and `None`
    /// when the request repeats the current state.
    pub fn set_visible(&mut self, visible: bool) -> (toggle: Option<bool>)
        ensures
            final(self).hidden == !visible,
            toggle == (if old(self).hidden == !visible { None::<bool> } else { Some(visible) }),
    {
        let hidden = !visible;
        let changed = self.hidden != hidden;
        self.hidden = hidden;
        if changed {
            Some(visible)
        } else {
            None
        }
    }
}

} // verus!

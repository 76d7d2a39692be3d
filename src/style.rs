use vstd::prelude::*;

verus! {

/// Whether a part of the window is shown.
#[derive(Debug, Clone, Copy, PartialEq, Eq, Hash, Structural)]
pub enum Visibility {
    Shown,
    Hidden,
}

/// The fullscreen modes a window can take.
#[derive(Debug, Clone, Copy, PartialEq, Eq, Hash, Structural)]
pub enum Fullscreen {
    /// No frame, covering a whole display.
    Borderless,
}

/// What the frame of a window looks like; the native style bits are a
/// function of this alone.
#[derive(Debug, Clone, Copy, PartialEq, Eq, Hash, Structural)]
pub struct Style {
    pub resizeable: bool,
    pub visibility: Visibility,
    pub decorations: Visibility,
    pub fullscreen: Option<Fullscreen>,
}

pub const WS_BORDER: u32 = 0x0080_0000;
pub const WS_CAPTION: u32 = 0x00C0_0000;
pub const WS_CLIPSIBLINGS: u32 = 0x0400_0000;
pub const WS_MAXIMIZEBOX: u32 = 0x0001_0000;
pub const WS_MINIMIZEBOX: u32 = 0x0002_0000;
pub const WS_OVERLAPPEDWINDOW: u32 = 0x00CF_0000;
pub const WS_POPUP: u32 = 0x8000_0000;
pub const WS_SIZEBOX: u32 = 0x0004_0000;
pub const WS_SYSMENU: u32 = 0x0008_0000;
pub const WS_VISIBLE: u32 = 0x1000_0000;

pub const WS_EX_WINDOWEDGE: u32 = 0x0000_0100;
pub const WS_EX_OVERLAPPEDWINDOW: u32 = 0x0000_0300;
pub const WS_EX_APPWINDOW: u32 = 0x0004_0000;

/// The bits that let the user resize, maximise or minimise a window.
pub const RESIZE_BITS: u32 = 0x0007_0000;

/// The native style of a window: a captioned, bordered frame with a system
/// menu; resize, maximise and minimise boxes when resizeable; visible when
/// shown; a popup without the overlapped frame in borderless fullscreen;
/// and neither caption nor border when decorations are hidden.
pub open spec fn style_bits(resizeable: bool, shown: bool, borderless: bool, undecorated: bool) -> u32 {
    let base = WS_CAPTION | WS_BORDER | WS_CLIPSIBLINGS | WS_SYSMENU;
    let sized = if resizeable { base | WS_SIZEBOX | WS_MAXIMIZEBOX | WS_MINIMIZEBOX } else { base };
    let visible = if shown { sized | WS_VISIBLE } else { sized };
    let framed = if borderless { (visible & !WS_OVERLAPPEDWINDOW) | WS_POPUP } else { visible };
    if undecorated { framed & !(WS_CAPTION | WS_BORDER) } else { framed }
}

pub open spec fn window_style_bits(s: Style) -> u32 {
    style_bits(
        s.resizeable,
        s.visibility == Visibility::Shown,
        s.fullscreen == Some(Fullscreen::Borderless),
        s.decorations == Visibility::Hidden,
    )
}

/// The extended native style: an application window with a raised edge,
/// without the overlapped-window edges in borderless fullscreen and
/// without the edge when decorations are hidden.
pub open spec fn window_ex_style_bits(s: Style) -> u32 {
    let base = WS_EX_WINDOWEDGE | WS_EX_APPWINDOW;
    let framed = if s.fullscreen == Some(Fullscreen::Borderless) {
        base & !WS_EX_OVERLAPPEDWINDOW
    } else {
        base
    };
    if s.decorations == Visibility::Hidden {
        framed & !WS_EX_WINDOWEDGE
    } else {
        framed
    }
}

/// Computes the native style bits of `info`.  A window that is not
/// resizeable never carries a resize, maximise or minimise bit.
pub fn get_window_style(info: &Style) -> (style: u32)
    ensures
        style == window_style_bits(*info),
        !info.resizeable ==> style & RESIZE_BITS == 0,
{
    let mut style = WS_CAPTION | WS_BORDER | WS_CLIPSIBLINGS | WS_SYSMENU;
    if info.resizeable {
        style = style | WS_SIZEBOX;
        style = style | WS_MAXIMIZEBOX;
        style = style | WS_MINIMIZEBOX;
    }
    if info.visibility == Visibility::Shown {
        style = style | WS_VISIBLE;
    }
    if info.fullscreen == Some(Fullscreen::Borderless) {
        style = style & !WS_OVERLAPPEDWINDOW;
        style = style | WS_POPUP;
    }
    if info.decorations == Visibility::Hidden {
        style = style & !(WS_CAPTION | WS_BORDER);
    }
    proof {
        lemma_not_resizeable_style(*info);
    }
    style
}

/// Computes the extended native style bits of `info`.
pub fn get_window_ex_style(info: &Style) -> (style: u32)
    ensures
        style == window_ex_style_bits(*info),
{
    let mut style = WS_EX_WINDOWEDGE | WS_EX_APPWINDOW;
    if info.fullscreen == Some(Fullscreen::Borderless) {
        style = style & !WS_EX_OVERLAPPEDWINDOW;
    }
    if info.decorations == Visibility::Hidden {
        style = style & !WS_EX_WINDOWEDGE;
    }
    style
}

/// The style of a window that is not resizeable carries none of the bits
/// that let the user resize, maximise or minimise it, whatever the rest of
/// the style.
pub proof fn lemma_not_resizeable_style(s: Style)
    ensures
        !s.resizeable ==> window_style_bits(s) & RESIZE_BITS == 0,
{
    lemma_style_bits_without_resize(
        s.resizeable,
        s.visibility == Visibility::Shown,
        s.fullscreen == Some(Fullscreen::Borderless),
        s.decorations == Visibility::Hidden,
    );
}

proof fn lemma_style_bits_without_resize(resizeable: bool, shown: bool, borderless: bool, undecorated: bool)
    by (bit_vector)
    ensures
        !resizeable ==> style_bits(resizeable, shown, borderless, undecorated) & RESIZE_BITS == 0,
{
}

} // verus!

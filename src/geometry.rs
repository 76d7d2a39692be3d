use vstd::prelude::*;

verus! {

/// A size in physical pixels.
#[derive(Debug, Clone, Copy, PartialEq, Eq, Hash, Structural)]
pub struct PhysicalSize {
    pub width: u32,
    pub height: u32,
}

/// A position in physical pixels, relative to the desktop's origin.
#[derive(Debug, Clone, Copy, PartialEq, Eq, Hash, Structural)]
pub struct PhysicalPosition {
    pub x: i32,
    pub y: i32,
}

/// A rectangle by its edges, right and bottom exclusive.
#[derive(Debug, Clone, Copy, PartialEq, Eq, Hash, Structural)]
pub struct Rect {
    pub left: i32,
    pub top: i32,
    pub right: i32,
    pub bottom: i32,
}

impl Rect {
    /// The corner where the rectangle starts.
    pub open spec fn spec_origin(self) -> PhysicalPosition {
        PhysicalPosition { x: self.left, y: self.top }
    }

    /// Width and height, each read as the native API reads them: the edge
    /// difference taken modulo 2^32.
    pub open spec fn spec_extent(self) -> PhysicalSize {
        PhysicalSize {
            width: (self.right - self.left) as u32,
            height: (self.bottom - self.top) as u32,
        }
    }

    pub fn origin(&self) -> (p: PhysicalPosition)
        ensures
            p == self.spec_origin(),
    {
        PhysicalPosition { x: self.left, y: self.top }
    }

    pub fn extent(&self) -> (s: PhysicalSize)
        ensures
            s == self.spec_extent(),
    {
        let w = (self.right as i64 - self.left as i64) as u32;
        let h = (self.bottom as i64 - self.top as i64) as u32;
        PhysicalSize { width: w, height: h }
    }
}

/// The rectangle of the virtual desktop, from the origin and extent the
/// system reports for it.
pub fn desktop_rect(left: i32, top: i32, width: i32, height: i32) -> (r: Option<Rect>)
    ensures
        r == (if i32::MIN <= left + width <= i32::MAX && i32::MIN <= top + height <= i32::MAX {
            Some(Rect { left, top, right: (left + width) as i32, bottom: (top + height) as i32 })
        } else {
            None::<Rect>
        }),
{
    let right = left as i64 + width as i64;
    let bottom = top as i64 + height as i64;
    if right < i32::MIN as i64 || right > i32::MAX as i64 || bottom < i32::MIN as i64 || bottom
        > i32::MAX as i64 {
        None
    } else {
        Some(Rect { left, top, right: right as i32, bottom: bottom as i32 })
    }
}

/// A display as last read from the system: its rectangle (`None` when the
/// system could not describe it) and its effective DPI.  Nothing is cached:
/// a fresh `Monitor` is read whenever one is needed.
#[derive(Debug, Clone, Copy, PartialEq, Eq, Structural)]
pub struct Monitor {
    pub rect: Option<Rect>,
    pub dpi: u32,
}

impl Monitor {
    pub fn new(rect: Option<Rect>, dpi: u32) -> (m: Monitor)
        ensures
            m.rect == rect,
            m.dpi == dpi,
    {
        Monitor { rect, dpi }
    }

    pub open spec fn spec_position(self) -> PhysicalPosition {
        match self.rect {
            Some(r) => r.spec_origin(),
            None => PhysicalPosition { x: 0, y: 0 },
        }
    }

    pub open spec fn spec_size(self) -> PhysicalSize {
        match self.rect {
            Some(r) => r.spec_extent(),
            None => PhysicalSize { width: 0, height: 0 },
        }
    }

    /// Top-left corner of the display; the origin when it is unknown.
    pub fn position(&self) -> (p: PhysicalPosition)
        ensures
            p == self.spec_position(),
    {
        match self.rect {
            Some(r) => r.origin(),
            None => PhysicalPosition { x: 0, y: 0 },
        }
    }

    /// Extent of the display; zero when it is unknown.
    pub fn size(&self) -> (s: PhysicalSize)
        ensures
            s == self.spec_size(),
    {
        match self.rect {
            Some(r) => r.extent(),
            None => PhysicalSize { width: 0, height: 0 },
        }
    }

    /// The effective DPI of the display; its scale factor is this over the
    /// base DPI.
    pub fn dpi(&self) -> (d: u32)
        ensures
            d == self.dpi,
    {
        self.dpi
    }
}

} // verus!

//! Displays: handles, geometry and change events.
use vstd::prelude::*;
use crate::text::{decimal_digits, owned, u64_to_decimal};

verus! {

/// The text of a display handle: `Display(<id>)`.
pub open spec fn handle_text(h: DisplayHandle) -> Seq<char> {
    "Display("@ + decimal_digits(h.0 as nat) + ")"@
}

/// Identifier of a display.
#[derive(Debug, Clone, Copy, PartialEq, Eq, Hash, Structural)]
pub struct DisplayHandle(pub u64);

impl DisplayHandle {
    /// The handle of a platform display identifier.
    pub fn new(id: u64) -> (r: Self)
        ensures
            r.0 == id,
    {
        DisplayHandle(id)
    }

    /// The platform identifier.
    pub fn raw(&self) -> (r: u64)
        ensures
            r == self.0,
    {
        self.0
    }

    /// The handle as text: `Display(<id>)`.
    pub fn to_display_string(&self) -> (r: String)
        ensures
            r@ == handle_text(*self),
    {
        let mut s = owned("Display(");
        let digits = u64_to_decimal(self.0);
        s.append(digits.as_str());
        s.append(")");
        s
    }
}

/// A position on the virtual desktop.
#[derive(Debug, Clone, Copy, PartialEq, Eq, Structural)]
pub struct Point {
    pub x: i32,
    pub y: i32,
}

impl Point {
    /// The point (x, y).
    pub fn new(x: i32, y: i32) -> (r: Self)
        ensures
            r == (Point { x, y }),
    {
        Point { x, y }
    }
}

impl Default for Point {
    fn default() -> (r: Self)
        ensures
            r == (Point { x: 0, y: 0 }),
    {
        Point { x: 0, y: 0 }
    }
}

/// A size in pixels.
#[derive(Debug, Clone, Copy, PartialEq, Eq, Structural)]
pub struct Size {
    pub width: u32,
    pub height: u32,
}

impl Size {
    /// The size width x height.
    pub fn new(width: u32, height: u32) -> (r: Self)
        ensures
            r == (Size { width, height }),
    {
        Size { width, height }
    }

    /// The number of pixels.
    pub fn area(&self) -> (r: u64)
        ensures
            r == self.width * self.height,
    {
        let w = self.width as u64;
        let h = self.height as u64;
        assert(w * h <= 0xffff_ffff * 0xffff_ffff) by (nonlinear_arith)
            requires w <= 0xffff_ffff, h <= 0xffff_ffff;
        w * h
    }
}

impl Default for Size {
    fn default() -> (r: Self)
        ensures
            r == (Size { width: 0, height: 0 }),
    {
        Size { width: 0, height: 0 }
    }
}

/// A rectangle: an origin and a size.
#[derive(Debug, Clone, Copy, PartialEq, Eq, Structural)]
pub struct Rect {
    pub origin: Point,
    pub size: Size,
}

impl Default for Rect {
    fn default() -> (r: Self)
        ensures
            r == (Rect { origin: Point { x: 0, y: 0 }, size: Size { width: 0, height: 0 } }),
    {
        Rect { origin: Point { x: 0, y: 0 }, size: Size { width: 0, height: 0 } }
    }
}

/// Whether the rectangle's right and bottom edges are representable.
pub open spec fn rect_edges_fit(r: Rect) -> bool {
    &&& r.origin.x + r.size.width <= i32::MAX
    &&& r.origin.y + r.size.height <= i32::MAX
}

/// Whether a point lies in a rectangle (left and top edges included, right
/// and bottom edges excluded).
pub open spec fn rect_contains(r: Rect, p: Point) -> bool {
    &&& r.origin.x <= p.x < r.origin.x + r.size.width
    &&& r.origin.y <= p.y < r.origin.y + r.size.height
}

impl Rect {
    /// The rectangle at (x, y) of the given size.
    pub fn new(x: i32, y: i32, width: u32, height: u32) -> (r: Self)
        ensures
            r == (Rect { origin: Point { x, y }, size: Size { width, height } }),
    {
        Rect { origin: Point::new(x, y), size: Size::new(width, height) }
    }

    /// Left edge.
    pub fn x(&self) -> (r: i32)
        ensures
            r == self.origin.x,
    {
        self.origin.x
    }

    /// Top edge.
    pub fn y(&self) -> (r: i32)
        ensures
            r == self.origin.y,
    {
        self.origin.y
    }

    /// Width.
    pub fn width(&self) -> (r: u32)
        ensures
            r == self.size.width,
    {
        self.size.width
    }

    /// Height.
    pub fn height(&self) -> (r: u32)
        ensures
            r == self.size.height,
    {
        self.size.height
    }

    /// Whether the point lies in this rectangle.
    pub fn contains(&self, point: Point) -> (r: bool)
        requires
            rect_edges_fit(*self),
        ensures
            r == rect_contains(*self, point),
    {
        let right = self.origin.x as i64 + self.size.width as i64;
        let bottom = self.origin.y as i64 + self.size.height as i64;
        point.x >= self.origin.x && (point.x as i64) < right && point.y >= self.origin.y && (point.y as i64) < bottom
    }
}

/// A change in the display configuration.
#[derive(Debug, Clone, Copy, PartialEq, Eq, Structural)]
pub enum DisplayEvent {
    /// A display was connected.
    Connected(DisplayHandle),
    /// A display was disconnected.
    Disconnected(DisplayHandle),
    /// Resolution, position or scaling changed.
    Changed(DisplayHandle),
    /// Another display became the primary one.
    PrimaryChanged(DisplayHandle),
}

/// Errors of display operations.
#[derive(Debug)]
pub enum DisplayError {
    /// No such display.
    NotFound(DisplayHandle),
    /// The displays could not be listed.
    EnumerationFailed(String),
    /// A platform call failed.
    Platform(String),
}

/// The text of a display error.
pub open spec fn display_error_text(e: DisplayError) -> Seq<char> {
    match e {
        DisplayError::NotFound(h) => "Display not found: "@ + handle_text(h),
        DisplayError::EnumerationFailed(m) => "Failed to enumerate displays: "@ + m@,
        DisplayError::Platform(m) => "Platform error: "@ + m@,
    }
}

impl DisplayError {
    /// The error as text.
    pub fn to_display_string(&self) -> (r: String)
        ensures
            r@ == display_error_text(*self),
    {
        match self {
            DisplayError::NotFound(h) => {
                let mut s = owned("Display not found: ");
                let hs = h.to_display_string();
                s.append(hs.as_str());
                s
            },
            DisplayError::EnumerationFailed(m) => {
                let mut s = owned("Failed to enumerate displays: ");
                s.append(m.as_str());
                s
            },
            DisplayError::Platform(m) => {
                let mut s = owned("Platform error: ");
                s.append(m.as_str());
                s
            },
        }
    }
}

/// Receives display change notifications; implemented by the application.
pub trait DisplayEventHandler {
    /// Called for each display event.
    fn on_display_event(&mut self, event: DisplayEvent);
}

} // verus!

use vstd::prelude::*;

verus! {

/// An sRGB colour with 8-bit channels and straight alpha.
#[derive(Clone, Copy, Debug, PartialEq, Eq, Structural)]
pub struct Color {
    pub r: u8,
    pub g: u8,
    pub b: u8,
    pub a: u8,
}

impl Color {
    /// An opaque colour from its three channels.
    pub fn rgb8(r: u8, g: u8, b: u8) -> (c: Color)
        ensures
            c == (Color { r, g, b, a: 255 }),
    {
        Color { r, g, b, a: 255 }
    }

    /// A colour from its three channels and its alpha.
    pub fn rgba8(r: u8, g: u8, b: u8, a: u8) -> (c: Color)
        ensures
            c == (Color { r, g, b, a }),
    {
        Color { r, g, b, a }
    }

    /// Opaque black.
    pub fn black() -> (c: Color)
        ensures
            c == (Color { r: 0, g: 0, b: 0, a: 255 }),
    {
        Color::rgb8(0, 0, 0)
    }

    /// Opaque white.
    pub fn white() -> (c: Color)
        ensures
            c == (Color { r: 255, g: 255, b: 255, a: 255 }),
    {
        Color::rgb8(255, 255, 255)
    }
}

/// A decimal quantity (a length, a size, an opacity) held exactly in
/// thousandths: 4.0 is 4000, 0.7 is 700.
#[derive(Clone, Copy, Debug, PartialEq, Eq, Structural)]
pub struct Fixed {
    pub thousandths: i64,
}

impl Fixed {
    /// The quantity `thousandths` / 1000.
    pub fn from_thousandths(thousandths: i64) -> (f: Fixed)
        ensures
            f.thousandths == thousandths,
    {
        Fixed { thousandths }
    }

    /// The quantity `units` exactly.
    pub fn from_units(units: i32) -> (f: Fixed)
        ensures
            f.thousandths == units * 1000,
    {
        Fixed { thousandths: units as i64 * 1000 }
    }
}

/// The declared type of a key, and the runtime type of a stored value.
#[derive(Clone, Copy, Debug, PartialEq, Eq, Structural)]
pub enum ValueKind {
    Color,
    Number,
    Text,
    Count,
}

/// A dynamically typed value held in an environment.
#[derive(Clone, Debug, PartialEq)]
pub enum Value {
    Color(Color),
    Number(Fixed),
    Text(String),
    Count(u64),
}

/// The mathematical content of a [`Value`].
pub ghost enum ValueView {
    Color(Color),
    Number(Fixed),
    Text(Seq<char>),
    Count(u64),
}

impl ValueView {
    pub open spec fn kind(self) -> ValueKind {
        match self {
            ValueView::Color(_) => ValueKind::Color,
            ValueView::Number(_) => ValueKind::Number,
            ValueView::Text(_) => ValueKind::Text,
            ValueView::Count(_) => ValueKind::Count,
        }
    }
}

impl View for Value {
    type V = ValueView;

    open spec fn view(&self) -> ValueView {
        match self {
            Value::Color(c) => ValueView::Color(*c),
            Value::Number(n) => ValueView::Number(*n),
            Value::Text(s) => ValueView::Text(s@),
            Value::Count(n) => ValueView::Count(*n),
        }
    }
}

impl Value {
    /// The runtime type of this value.
    pub fn kind(&self) -> (k: ValueKind)
        ensures
            k == self@.kind(),
    {
        match self {
            Value::Color(_) => ValueKind::Color,
            Value::Number(_) => ValueKind::Number,
            Value::Text(_) => ValueKind::Text,
            Value::Count(_) => ValueKind::Count,
        }
    }

    /// An independent copy of this value.
    pub fn duplicate(&self) -> (r: Value)
        ensures
            r@ == self@,
    {
        match self {
            Value::Color(c) => Value::Color(*c),
            Value::Number(n) => Value::Number(*n),
            Value::Text(s) => Value::Text(s.clone()),
            Value::Count(n) => Value::Count(*n),
        }
    }
}

} // verus!

//! Colours and the style records of shapes and texts.
use crate::text::{decimal_nat, hex_byte, joined, lemma_joined_push, push_decimal, push_hex_byte};
use vstd::prelude::*;

verus! {

/// A colour, as red, green, blue and opacity.
#[derive(Copy, Clone, Debug, PartialEq, Eq, Hash, Structural)]
pub struct Color {
    pub r: u8,
    pub g: u8,
    pub b: u8,
    pub a: u8,
}

impl Color {
    /// `#`, then two hexadecimal digits each for red, green, blue and
    /// opacity.
    pub open spec fn hex(self) -> Seq<char> {
        seq!['#'] + hex_byte(self.r) + hex_byte(self.g) + hex_byte(self.b) + hex_byte(self.a)
    }

    pub fn new(r: u8, g: u8, b: u8, a: u8) -> (c: Color)
        ensures
            c == (Color { r, g, b, a }),
    {
        Color { r, g, b, a }
    }

    /// Opaque black.
    pub fn black() -> (c: Color)
        ensures
            c == (Color { r: 0, g: 0, b: 0, a: 255 }),
    {
        Color { r: 0, g: 0, b: 0, a: 255 }
    }

    /// The colour that paints nothing.
    pub fn transparent() -> (c: Color)
        ensures
            c == (Color { r: 0, g: 0, b: 0, a: 0 }),
    {
        Color { r: 0, g: 0, b: 0, a: 0 }
    }

    /// The colour in hexadecimal notation.
    pub fn to_hex(&self) -> (r: String)
        ensures
            r@ == self.hex(),
    {
        proof {
            reveal_strlit("#");
        }
        let mut out = String::from_str("#");
        push_hex_byte(&mut out, self.r);
        push_hex_byte(&mut out, self.g);
        push_hex_byte(&mut out, self.b);
        push_hex_byte(&mut out, self.a);
        out
    }
}

/// How an outline is drawn.
#[derive(Debug, PartialEq, Eq)]
pub struct Stroke {
    pub color: Color,
    pub width: u32,
    pub dash_array: Vec<u32>,
}

/// What a [`Stroke`] holds, as mathematical values.
pub struct StrokeView {
    pub color: Color,
    pub width: u32,
    pub dash_array: Seq<u32>,
}

impl View for Stroke {
    type V = StrokeView;

    open spec fn view(&self) -> StrokeView {
        StrokeView { color: self.color, width: self.width, dash_array: self.dash_array@ }
    }
}

/// The lengths of a dash pattern, separated by spaces.
pub open spec fn dash_text(dashes: Seq<u32>) -> Seq<char> {
    joined(dashes.map_values(|d: u32| decimal_nat(d as nat)), seq![' '])
}

/// A copy of a dash pattern.
pub fn copy_dashes(dashes: &Vec<u32>) -> (r: Vec<u32>)
    ensures
        r@ == dashes@,
{
    let mut out: Vec<u32> = Vec::new();
    let mut i: usize = 0;
    while i < dashes.len()
        invariant
            i <= dashes.len(),
            out@ == dashes@.take(i as int),
        decreases dashes.len() - i,
    {
        out.push(dashes[i]);
        i += 1;
    }
    out
}

/// The lengths of a dash pattern, separated by spaces.
pub fn dashes_to_text(dashes: &Vec<u32>) -> (r: String)
    ensures
        r@ == dash_text(dashes@),
{
    let mut out = String::new();
    let mut i: usize = 0;
    let ghost texts = |d: u32| decimal_nat(d as nat);
    proof {
        reveal_strlit(" ");
    }
    while i < dashes.len()
        invariant
            i <= dashes.len(),
            texts == (|d: u32| decimal_nat(d as nat)),
            out@ == joined(dashes@.take(i as int).map_values(texts), seq![' ']),
            " "@ == seq![' '],
        decreases dashes.len() - i,
    {
        proof {
            let before = dashes@.take(i as int).map_values(texts);
            assert(dashes@.take(i as int + 1).map_values(texts) =~= before.push(
                decimal_nat(dashes@[i as int] as nat),
            ));
            lemma_joined_push(before, decimal_nat(dashes@[i as int] as nat), seq![' ']);
        }
        if i > 0 {
            out.append(" ");
        }
        push_decimal(&mut out, dashes[i] as u64);
        i += 1;
    }
    assert(dashes@.take(i as int) =~= dashes@);
    out
}

impl Stroke {
    pub fn new(color: Color, width: u32, dash_array: Vec<u32>) -> (r: Stroke)
        ensures
            r@ == (StrokeView { color, width, dash_array: dash_array@ }),
    {
        Stroke { color, width, dash_array }
    }

    /// A copy of the stroke.
    pub fn duplicate(&self) -> (r: Stroke)
        ensures
            r@ == self@,
    {
        Stroke { color: self.color, width: self.width, dash_array: copy_dashes(&self.dash_array) }
    }
}

/// The fill and the outline of a shape.
#[derive(Debug, PartialEq, Eq)]
pub struct ShapeStyle {
    pub fill_color: Color,
    pub stroke: Stroke,
}

/// What a [`ShapeStyle`] holds, as mathematical values.
pub struct ShapeStyleView {
    pub fill_color: Color,
    pub stroke: StrokeView,
}

impl View for ShapeStyle {
    type V = ShapeStyleView;

    open spec fn view(&self) -> ShapeStyleView {
        ShapeStyleView { fill_color: self.fill_color, stroke: self.stroke@ }
    }
}

/// The style of a shape that was given none: no fill, and a solid black
/// outline of width 1.
pub open spec fn default_shape_style() -> ShapeStyleView {
    ShapeStyleView {
        fill_color: Color { r: 0, g: 0, b: 0, a: 0 },
        stroke: StrokeView {
            color: Color { r: 0, g: 0, b: 0, a: 255 },
            width: 1,
            dash_array: Seq::empty(),
        },
    }
}

impl ShapeStyle {
    pub fn new(fill_color: Color, stroke: Stroke) -> (r: ShapeStyle)
        ensures
            r@ == (ShapeStyleView { fill_color, stroke: stroke@ }),
    {
        ShapeStyle { fill_color, stroke }
    }

    /// A copy of the style.
    pub fn duplicate(&self) -> (r: ShapeStyle)
        ensures
            r@ == self@,
    {
        ShapeStyle { fill_color: self.fill_color, stroke: self.stroke.duplicate() }
    }
}

impl Clone for Stroke {
    fn clone(&self) -> (r: Stroke)
        ensures
            r@ == self@,
    {
        self.duplicate()
    }
}

impl Clone for ShapeStyle {
    fn clone(&self) -> (r: ShapeStyle)
        ensures
            r@ == self@,
    {
        self.duplicate()
    }
}

impl Default for ShapeStyle {
    fn default() -> (r: ShapeStyle)
        ensures
            r@ == default_shape_style(),
    {
        ShapeStyle {
            fill_color: Color::transparent(),
            stroke: Stroke { color: Color::black(), width: 1, dash_array: Vec::new() },
        }
    }
}

/// The fill, the outline and the font of a text.
#[derive(Debug, PartialEq, Eq)]
pub struct TextStyle {
    pub fill_color: Color,
    pub stroke: Stroke,
    pub font_face: String,
    pub font_size: u32,
}

/// What a [`TextStyle`] holds, as mathematical values.
pub struct TextStyleView {
    pub fill_color: Color,
    pub stroke: StrokeView,
    pub font_face: Seq<char>,
    pub font_size: u32,
}

impl View for TextStyle {
    type V = TextStyleView;

    open spec fn view(&self) -> TextStyleView {
        TextStyleView {
            fill_color: self.fill_color,
            stroke: self.stroke@,
            font_face: self.font_face@,
            font_size: self.font_size,
        }
    }
}

/// The style of a text that was given none: black, no outline, the
/// generic sans-serif face at size 16.
pub open spec fn default_text_style() -> TextStyleView {
    TextStyleView {
        fill_color: Color { r: 0, g: 0, b: 0, a: 255 },
        stroke: StrokeView {
            color: Color { r: 0, g: 0, b: 0, a: 0 },
            width: 0,
            dash_array: Seq::empty(),
        },
        font_face: "sans-serif"@,
        font_size: 16,
    }
}

impl TextStyle {
    pub fn new(fill_color: Color, stroke: Stroke, font_face: &str, font_size: u32) -> (r: TextStyle)
        ensures
            r@ == (TextStyleView {
                fill_color,
                stroke: stroke@,
                font_face: font_face@,
                font_size,
            }),
    {
        TextStyle { fill_color, stroke, font_face: String::from_str(font_face), font_size }
    }

    /// A copy of the style.
    pub fn duplicate(&self) -> (r: TextStyle)
        ensures
            r@ == self@,
    {
        TextStyle {
            fill_color: self.fill_color,
            stroke: self.stroke.duplicate(),
            font_face: self.font_face.clone(),
            font_size: self.font_size,
        }
    }
}

impl Clone for TextStyle {
    fn clone(&self) -> (r: TextStyle)
        ensures
            r@ == self@,
    {
        self.duplicate()
    }
}

impl Default for TextStyle {
    fn default() -> (r: TextStyle)
        ensures
            r@ == default_text_style(),
    {
        TextStyle {
            fill_color: Color::black(),
            stroke: Stroke { color: Color::transparent(), width: 0, dash_array: Vec::new() },
            font_face: String::from_str("sans-serif"),
            font_size: 16,
        }
    }
}

} // verus!

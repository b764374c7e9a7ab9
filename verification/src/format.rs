//! The text format: the reusable description of font, size and alignment
//! that the text-layout system builds once and the paint handler reuses for
//! every frame. The description is held here as plain values; the shell
//! creates the platform object from it and issues the two alignment calls.

use crate::wide::{to_wide, wide_of};
use vstd::prelude::*;

verus! {

/// Regular font weight, in the text-layout system's scale.
pub const FONT_WEIGHT_REGULAR: u32 = 400;

/// Upright (non-italic) font style.
pub const FONT_STYLE_NORMAL: u32 = 0;

/// Normal (undistorted) font stretch.
pub const FONT_STRETCH_NORMAL: u32 = 5;

/// Horizontal alignment of text within its layout rectangle.
#[derive(Clone, Copy, PartialEq, Eq, Structural, Debug)]
pub enum TextAlignment {
    Leading,
    Trailing,
    Center,
}

/// Vertical (paragraph) alignment of text within its layout rectangle.
#[derive(Clone, Copy, PartialEq, Eq, Structural, Debug)]
pub enum ParagraphAlignment {
    Near,
    Far,
    Center,
}

/// A text format: font family and locale as wide, nul-terminated names,
/// weight/style/stretch in the text-layout system's scales, the size in
/// points, and the two alignments.
pub struct TextFormat {
    pub family: Vec<u16>,
    pub weight: u32,
    pub style: u32,
    pub stretch: u32,
    pub size_pt: u32,
    pub locale: Vec<u16>,
    pub text_alignment: TextAlignment,
    pub paragraph_alignment: ParagraphAlignment,
}

impl TextFormat {
    /// Builds a format with the layout system's default alignments: leading
    /// horizontally, near vertically.
    pub fn new(
        family: &str,
        weight: u32,
        style: u32,
        stretch: u32,
        size_pt: u32,
        locale: &str,
    ) -> (f: TextFormat)
        ensures
            f.family@ == wide_of(family@).push(0u16),
            f.weight == weight,
            f.style == style,
            f.stretch == stretch,
            f.size_pt == size_pt,
            f.locale@ == wide_of(locale@).push(0u16),
            f.text_alignment == TextAlignment::Leading,
            f.paragraph_alignment == ParagraphAlignment::Near,
    {
        TextFormat {
            family: to_wide(family),
            weight,
            style,
            stretch,
            size_pt,
            locale: to_wide(locale),
            text_alignment: TextAlignment::Leading,
            paragraph_alignment: ParagraphAlignment::Near,
        }
    }

    /// Sets the horizontal alignment, leaving everything else as it was.
    pub fn set_text_alignment(&mut self, a: TextAlignment)
        ensures
            final(self).text_alignment == a,
            final(self).paragraph_alignment == old(self).paragraph_alignment,
            final(self).family == old(self).family,
            final(self).weight == old(self).weight,
            final(self).style == old(self).style,
            final(self).stretch == old(self).stretch,
            final(self).size_pt == old(self).size_pt,
            final(self).locale == old(self).locale,
    {
        self.text_alignment = a;
    }

    /// Sets the vertical alignment, leaving everything else as it was.
    pub fn set_paragraph_alignment(&mut self, a: ParagraphAlignment)
        ensures
            final(self).paragraph_alignment == a,
            final(self).text_alignment == old(self).text_alignment,
            final(self).family == old(self).family,
            final(self).weight == old(self).weight,
            final(self).style == old(self).style,
            final(self).stretch == old(self).stretch,
            final(self).size_pt == old(self).size_pt,
            final(self).locale == old(self).locale,
    {
        self.paragraph_alignment = a;
    }

    /// The horizontal alignment, as a query of the format would report it.
    pub fn get_text_alignment(&self) -> (a: TextAlignment)
        ensures
            a == self.text_alignment,
    {
        self.text_alignment
    }

    /// The vertical alignment, as a query of the format would report it.
    pub fn get_paragraph_alignment(&self) -> (a: ParagraphAlignment)
        ensures
            a == self.paragraph_alignment,
    {
        self.paragraph_alignment
    }
}

/// The one format this renderer uses: Gabriola at 72 points, en-us locale,
/// regular weight, centered both horizontally and vertically.
pub fn centered_text_format() -> (f: TextFormat)
    ensures
        f.family@ == wide_of("Gabriola"@).push(0u16),
        f.weight == FONT_WEIGHT_REGULAR,
        f.style == FONT_STYLE_NORMAL,
        f.stretch == FONT_STRETCH_NORMAL,
        f.size_pt == 72,
        f.locale@ == wide_of("en-us"@).push(0u16),
        f.text_alignment == TextAlignment::Center,
        f.paragraph_alignment == ParagraphAlignment::Center,
{
    let mut f = TextFormat::new(
        "Gabriola",
        FONT_WEIGHT_REGULAR,
        FONT_STYLE_NORMAL,
        FONT_STRETCH_NORMAL,
        72,
        "en-us",
    );
    f.set_text_alignment(TextAlignment::Center);
    f.set_paragraph_alignment(ParagraphAlignment::Center);
    f
}

} // verus!

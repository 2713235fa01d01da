use vstd::prelude::*;

verus! {

/// Horizontal alignment of a laid-out line.
#[derive(Clone, Copy, Debug, PartialEq, Eq, Structural)]
pub enum Align {
    Left,
    Right,
    Center,
    Justified,
    End,
}

/// The terminator that ended a line in its source text.
#[derive(Clone, Copy, Debug, PartialEq, Eq, Structural)]
pub enum LineEnding {
    /// `\n`
    Lf,
    /// `\r\n`
    CrLf,
    /// `\r`
    Cr,
    /// `\n\r`
    LfCr,
    /// The last line of a text, with no terminator.
    Absent,
}

/// How much script and direction analysis the shaping engine performs.
#[derive(Clone, Copy, Debug, PartialEq, Eq, Structural)]
pub enum Shaping {
    /// Per-character glyph lookup only.
    Basic,
    /// Full script, direction and font-fallback analysis.
    Advanced,
}

/// Slant of a face.
#[derive(Clone, Copy, Debug, PartialEq, Eq, Structural)]
pub enum Style {
    Normal,
    Italic,
    Oblique,
}

/// Formatting applied to a range of text.
#[derive(Clone, Copy, Debug, PartialEq, Eq, Structural)]
pub struct Attrs {
    /// Text color as `0xRRGGBBAA`, or the renderer's default.
    pub color_opt: Option<u32>,
    /// Font family handle, interpreted by the shaping engine.
    pub family: u32,
    /// Font weight, 400 being regular and 700 bold.
    pub weight: u16,
    pub style: Style,
    /// Caller-defined tag carried through shaping.
    pub metadata: usize,
}

impl Attrs {
    /// Regular weight, normal style, default color and family.
    pub open spec fn new_spec() -> Attrs {
        Attrs { color_opt: None, family: 0, weight: 400, style: Style::Normal, metadata: 0 }
    }

    /// Regular weight, normal style, default color and family.
    pub fn new() -> (r: Attrs)
        ensures
            r == Attrs::new_spec(),
    {
        Attrs { color_opt: None, family: 0, weight: 400, style: Style::Normal, metadata: 0 }
    }
}

} // verus!

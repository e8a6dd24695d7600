//! Colors and the theme palette that syntax highlighting draws from.

use vstd::prelude::*;

verus! {

/// A color in hue / saturation / lightness / alpha form. The hue is in
/// degrees (at most 360); saturation, lightness and alpha are in
/// thousandths (at most 1000).
#[derive(Clone, Copy, Debug, PartialEq, Eq, Structural)]
pub struct Hsla {
    pub h: u16,
    pub s: u16,
    pub l: u16,
    pub a: u16,
}

/// The colors a theme assigns to the syntax classes.
#[derive(Clone, Copy, Debug, PartialEq, Eq, Structural)]
pub struct Theme {
    /// Plain text and punctuation.
    pub text: Hsla,
    /// Comments.
    pub comment: Hsla,
    /// String literals.
    pub string: Hsla,
    /// Function names.
    pub function: Hsla,
    /// Keywords.
    pub keyword: Hsla,
}

impl Default for Theme {
    /// A neutral palette: plain text is near-white, and the syntax classes
    /// get distinct hues at full alpha.
    fn default() -> (t: Theme)
        ensures
            t == (Theme {
                text: Hsla { h: 0, s: 0, l: 900, a: 1000 },
                comment: Hsla { h: 120, s: 300, l: 500, a: 1000 },
                string: Hsla { h: 30, s: 600, l: 500, a: 1000 },
                function: Hsla { h: 210, s: 600, l: 600, a: 1000 },
                keyword: Hsla { h: 280, s: 600, l: 600, a: 1000 },
            }),
    {
        Theme {
            text: Hsla { h: 0, s: 0, l: 900, a: 1000 },
            comment: Hsla { h: 120, s: 300, l: 500, a: 1000 },
            string: Hsla { h: 30, s: 600, l: 500, a: 1000 },
            function: Hsla { h: 210, s: 600, l: 600, a: 1000 },
            keyword: Hsla { h: 280, s: 600, l: 600, a: 1000 },
        }
    }
}

/// The syntax classes that highlighted text is tagged with.
#[derive(Clone, Copy, Debug, PartialEq, Eq, Structural)]
pub enum HighlightColor {
    Default,
    Comment,
    String,
    Function,
    Keyword,
}

impl HighlightColor {
    /// The color `theme` assigns to this syntax class.
    pub open spec fn spec_hsla(self, theme: Theme) -> Hsla {
        match self {
            HighlightColor::Default => theme.text,
            HighlightColor::Comment => theme.comment,
            HighlightColor::String => theme.string,
            HighlightColor::Function => theme.function,
            HighlightColor::Keyword => theme.keyword,
        }
    }

    /// Look this syntax class's color up in `theme`.
    pub fn hsla(&self, theme: &Theme) -> (c: Hsla)
        ensures
            c == self.spec_hsla(*theme),
    {
        match self {
            HighlightColor::Default => theme.text,
            HighlightColor::Comment => theme.comment,
            HighlightColor::String => theme.string,
            HighlightColor::Function => theme.function,
            HighlightColor::Keyword => theme.keyword,
        }
    }
}

} // verus!

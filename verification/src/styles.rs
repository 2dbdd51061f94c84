//! Named display styles: a foreground/background pair with optional text
//! attributes, and the fixed palette a style name maps to.

use vstd::prelude::*;

verus! {

use crate::canvas::Color;

/// A text attribute a style may carry.
#[derive(Clone, Copy, PartialEq, Eq, Structural, Debug)]
pub enum TextAttribute {
    Bold,
    Underlined,
    Reverse,
}

/// A display style: optional foreground and background colors and a list of
/// attributes.
pub struct Style {
    pub color: Option<Color>,
    pub bg_color: Option<Color>,
    pub attributes: Vec<TextAttribute>,
}

impl Style {
    /// A style with nothing set.
    pub fn new() -> (r: Style)
        ensures
            r.color is None,
            r.bg_color is None,
            r.attributes@.len() == 0,
    {
        Style { color: None, bg_color: None, attributes: Vec::new() }
    }

    /// This style with the foreground replaced.
    pub fn fg(self, color: Color) -> (r: Style)
        ensures
            r.color == Some(color),
            r.bg_color == self.bg_color,
            r.attributes == self.attributes,
    {
        Style { color: Some(color), ..self }
    }

    /// This style with the background replaced.
    pub fn bg(self, color: Color) -> (r: Style)
        ensures
            r.bg_color == Some(color),
            r.color == self.color,
            r.attributes == self.attributes,
    {
        Style { bg_color: Some(color), ..self }
    }
}

impl Default for Style {
    fn default() -> (r: Style)
        ensures
            r.color is None,
            r.bg_color is None,
            r.attributes@.len() == 0,
    {
        Style::new()
    }
}

/// The foreground a style name maps to: the named color for `red`, `blue`
/// and `green`, and white for `default` and everything else.
pub open spec fn style_color(style_name: Seq<char>) -> Color {
    if style_name == "red"@ {
        Color::Red
    } else if style_name == "blue"@ {
        Color::Blue
    } else if style_name == "green"@ {
        Color::Green
    } else {
        Color::White
    }
}

/// The style a name selects: only the foreground is set.
pub fn get_style(style_name: &str) -> (r: Style)
    ensures
        r.color == Some(style_color(style_name@)),
        r.bg_color is None,
        r.attributes@.len() == 0,
{
    if crate::features::str_eq(style_name, "red") {
        Style::new().fg(Color::Red)
    } else if crate::features::str_eq(style_name, "blue") {
        Style::new().fg(Color::Blue)
    } else if crate::features::str_eq(style_name, "green") {
        Style::new().fg(Color::Green)
    } else {
        Style::new().fg(Color::White)
    }
}

} // verus!

//! The bouncing-text feature: a text moves with a constant velocity and
//! reflects off the edges of the area. Positions and velocities are in
//! thousandths of a cell, so a velocity of one cell per tick is 1000 here.

use vstd::prelude::*;

verus! {

use vstd::math::max;
use vstd::math::min;
use crate::canvas::Color;
use crate::canvas::Rect;
use crate::canvas::TextLine;
use crate::canvas::center_text;
use crate::canvas::centered;
use crate::canvas::repeat_char;
use crate::canvas::spaces;
use crate::features::KeyPress;
use crate::features::ScreensaverAction;

/// One cell, in the fixed-point coordinates of this feature.
pub const CELL: i64 = 1000;

/// The largest velocity magnitude a speed-up can reach, in thousandths of a
/// cell per tick; the geometric speed ramp saturates here so that the
/// arithmetic stays exact.
pub const SPEED_CAP: i64 = 1_000_000_000;

/// The longest display text the feature accepts, in characters.
pub const TEXT_MAX: usize = 1000;

/// One axis of the physics: move by the velocity; on touching either bound
/// (`0` or `hi`), flip the velocity's sign and clamp the position between
/// `0` and `hi` (when `hi` is negative — the text wider than the area — the
/// clamp lands on `hi`).
pub open spec fn bounce_axis(pos: int, vel: int, hi: int) -> (int, int) {
    let p = pos + vel;
    if p <= 0 || p >= hi {
        (min(max(p, 0), hi), -vel)
    } else {
        (p, vel)
    }
}

/// The velocity after one speed-up press: magnitude scaled by 6/5 and capped.
pub open spec fn speed_up(v: int) -> int {
    if v >= 0 {
        min(v * 6 / 5, SPEED_CAP as int)
    } else {
        -min((-v) * 6 / 5, SPEED_CAP as int)
    }
}

/// The velocity after one slow-down press: magnitude scaled by 5/6.
pub open spec fn slow_down(v: int) -> int {
    if v >= 0 {
        v * 5 / 6
    } else {
        -((-v) * 5 / 6)
    }
}

/// The color cycle the space key walks through.
pub open spec fn next_color(c: Color) -> Color {
    match c {
        Color::Green => Color::Cyan,
        Color::Cyan => Color::Yellow,
        Color::Yellow => Color::Magenta,
        Color::Magenta => Color::Red,
        Color::Red => Color::Blue,
        Color::Blue => Color::White,
        _ => Color::Green,
    }
}

pub struct BouncingLogoFeature {
    pub text: String,
    /// Left edge of the text, in thousandths of a cell.
    pub x: i64,
    /// Top of the text, in thousandths of a cell.
    pub y: i64,
    pub velocity_x: i64,
    pub velocity_y: i64,
    pub color: Color,
}

impl BouncingLogoFeature {
    /// The state every construction gives and every tick preserves: the text
    /// short enough for exact arithmetic, the velocities capped, and the
    /// position inside the band any clamp can produce.
    pub open spec fn wf(&self) -> bool {
        &&& 1 <= self.text@.len() <= TEXT_MAX
        &&& -(SPEED_CAP as int) <= self.velocity_x <= SPEED_CAP as int
        &&& -(SPEED_CAP as int) <= self.velocity_y <= SPEED_CAP as int
        &&& -(TEXT_MAX * CELL as int) <= self.x <= 0xffff * (CELL as int)
        &&& -(CELL as int) <= self.y <= 0xffff * (CELL as int)
    }

    pub fn new() -> (r: BouncingLogoFeature)
        ensures
            r.text@ == "Terminal Screensaver"@,
            r.x == 10 * CELL,
            r.y == 5 * CELL,
            r.velocity_x == CELL,
            r.velocity_y == CELL / 2,
            r.color == Color::Green,
            r.wf(),
    {
        proof {
            reveal_strlit("Terminal Screensaver");
        }
        BouncingLogoFeature {
            text: "Terminal Screensaver".to_owned(),
            x: 10 * CELL,
            y: 5 * CELL,
            velocity_x: CELL,
            velocity_y: CELL / 2,
            color: Color::Green,
        }
    }

    /// One tick of the physics: each axis moves and reflects independently;
    /// the x axis bounces between `0` and `width - text.len()` cells, the y
    /// axis between `0` and `height - 1` cells. When the area is wide enough
    /// for the text the new position is inside those bands, and a velocity's
    /// sign flips exactly on the ticks that touch a bound.
    pub fn update_position(&mut self, area: Rect)
        requires
            old(self).wf(),
        ensures
            final(self).wf(),
            final(self).text == old(self).text,
            final(self).color == old(self).color,
            (final(self).x as int, final(self).velocity_x as int) == bounce_axis(
                old(self).x as int,
                old(self).velocity_x as int,
                area.width * (CELL as int) - old(self).text@.len() * (CELL as int),
            ),
            (final(self).y as int, final(self).velocity_y as int) == bounce_axis(
                old(self).y as int,
                old(self).velocity_y as int,
                (area.height as int - 1) * (CELL as int),
            ),
            old(self).text@.len() <= area.width ==> 0 <= final(self).x <= (area.width as int
                - old(self).text@.len()) * (CELL as int),
            area.height >= 1 ==> 0 <= final(self).y <= (area.height as int - 1) * (CELL as int),
            ({
                let moved = old(self).x + old(self).velocity_x;
                let bound = area.width * (CELL as int) - old(self).text@.len() * (CELL as int);
                if moved <= 0 || moved >= bound {
                    final(self).velocity_x == -old(self).velocity_x
                } else {
                    final(self).velocity_x == old(self).velocity_x
                }
            }),
            ({
                let moved = old(self).y + old(self).velocity_y;
                let bound = (area.height as int - 1) * (CELL as int);
                if moved <= 0 || moved >= bound {
                    final(self).velocity_y == -old(self).velocity_y
                } else {
                    final(self).velocity_y == old(self).velocity_y
                }
            }),
    {
        let text_width: i64 = self.text.as_str().unicode_len() as i64 * CELL;
        let width: i64 = area.width as i64 * CELL;
        let height: i64 = area.height as i64 * CELL;

        let xm = self.x + self.velocity_x;
        if xm <= 0 || xm >= width - text_width {
            self.velocity_x = -self.velocity_x;
            let lo = if xm > 0 {
                xm
            } else {
                0
            };
            self.x = if lo < width - text_width {
                lo
            } else {
                width - text_width
            };
        } else {
            self.x = xm;
        }

        let ym = self.y + self.velocity_y;
        if ym <= 0 || ym >= height - CELL {
            self.velocity_y = -self.velocity_y;
            let lo = if ym > 0 {
                ym
            } else {
                0
            };
            self.y = if lo < height - CELL {
                lo
            } else {
                height - CELL
            };
        } else {
            self.y = ym;
        }
    }

    /// The frame for one tick: the physics advances once, then the text is
    /// drawn on its row at its column when it fits the width, and the bottom
    /// row carries the centered control hints when the area is more than two
    /// rows tall. Every other row is empty.
    pub fn render(&mut self, area: Rect) -> (r: Vec<TextLine>)
        requires
            old(self).wf(),
        ensures
            final(self).wf(),
            final(self).text == old(self).text,
            final(self).color == old(self).color,
            (final(self).x as int, final(self).velocity_x as int) == bounce_axis(
                old(self).x as int,
                old(self).velocity_x as int,
                area.width * (CELL as int) - old(self).text@.len() * (CELL as int),
            ),
            (final(self).y as int, final(self).velocity_y as int) == bounce_axis(
                old(self).y as int,
                old(self).velocity_y as int,
                (area.height as int - 1) * (CELL as int),
            ),
            r@.len() == area.height,
            forall|row: int|
                0 <= row < area.height ==> {
                    let logo_row = max(final(self).y as int, 0) / (CELL as int);
                    let logo_col = max(final(self).x as int, 0) / (CELL as int);
                    let visible = final(self).x >= 0 && logo_col + final(self).text@.len()
                        <= area.width;
                    if area.height > 2 && row == area.height - 1 {
                        &&& (#[trigger] r@[row]).content@ == centered(
                            "Press ESC to exit | SPACE to change color"@,
                            area.width as nat,
                        )
                        &&& r@[row].color == Some(Color::DarkGray)
                    } else if row == logo_row && visible {
                        &&& r@[row].content@ == spaces(logo_col as nat) + final(self).text@
                        &&& r@[row].color == Some(final(self).color)
                    } else {
                        &&& r@[row].content@ =~= Seq::<char>::empty()
                        &&& r@[row].color is None
                    }
                },
    {
        self.update_position(area);

        let text_len = self.text.as_str().unicode_len();
        let y_pos: i64 = if self.y > 0 {
            self.y
        } else {
            0
        };
        let x_pos: i64 = if self.x > 0 {
            self.x
        } else {
            0
        };
        let logo_row: i64 = y_pos / CELL;
        let logo_col: i64 = x_pos / CELL;
        let visible = self.x >= 0 && logo_col as u64 + text_len as u64 <= area.width as u64;

        let mut lines: Vec<TextLine> = Vec::new();
        let mut row: usize = 0;
        while row < area.height as usize
            invariant
                row <= area.height,
                self.wf(),
                lines@.len() == row,
                text_len == self.text@.len(),
                logo_row == max(self.y as int, 0) / (CELL as int),
                logo_col == max(self.x as int, 0) / (CELL as int),
                visible == (self.x >= 0 && max(self.x as int, 0) / (CELL as int) + self.text@.len()
                    <= area.width),
                forall|i: int|
                    0 <= i < row ==> if i == logo_row && visible {
                        (#[trigger] lines@[i]).content@ == spaces(
                            (max(self.x as int, 0) / (CELL as int)) as nat,
                        ) + self.text@ && lines@[i].color == Some(self.color)
                    } else {
                        lines@[i].content@ =~= Seq::<char>::empty() && lines@[i].color is None
                    },
            decreases area.height - row,
        {
            if visible && logo_row >= 0 && row as i64 == logo_row {
                let mut content = repeat_char(' ', logo_col as usize);
                content.append(self.text.as_str());
                lines.push(TextLine::with_color(content, self.color));
            } else {
                lines.push(TextLine::new(String::new()));
            }
            row = row + 1;
        }

        if area.height > 2 {
            let controls = "Press ESC to exit | SPACE to change color";
            let last = area.height as usize - 1;
            lines[last] = TextLine::with_color(
                center_text(controls, area.width as usize),
                Color::DarkGray,
            );
        }
        lines
    }

    /// One input event: escape exits, enter advances, space cycles the
    /// color, `+`/`=` and `-` scale both velocities geometrically (saturating
    /// at the cap), and every other key changes nothing. Only the named keys
    /// touch the state.
    pub fn handle_input(&mut self, key: KeyPress) -> (r: ScreensaverAction)
        requires
            old(self).wf(),
        ensures
            final(self).wf(),
            final(self).text == old(self).text,
            final(self).x == old(self).x,
            final(self).y == old(self).y,
            match key {
                KeyPress::Esc => r == ScreensaverAction::Exit && *final(self) == *old(self),
                KeyPress::Enter => r == ScreensaverAction::NextScreen && *final(self) == *old(self),
                KeyPress::Char(c) => {
                    &&& r == ScreensaverAction::Continue
                    &&& if c == ' ' {
                        *final(self) == BouncingLogoFeature {
                            color: next_color(old(self).color),
                            ..*old(self)
                        }
                    } else if c == '+' || c == '=' {
                        &&& final(self).velocity_x == speed_up(old(self).velocity_x as int)
                        &&& final(self).velocity_y == speed_up(old(self).velocity_y as int)
                        &&& final(self).color == old(self).color
                    } else if c == '-' {
                        &&& final(self).velocity_x == slow_down(old(self).velocity_x as int)
                        &&& final(self).velocity_y == slow_down(old(self).velocity_y as int)
                        &&& final(self).color == old(self).color
                    } else {
                        *final(self) == *old(self)
                    }
                },
                KeyPress::Other => r == ScreensaverAction::Continue && *final(self) == *old(self),
            },
    {
        match key {
            KeyPress::Esc => ScreensaverAction::Exit,
            KeyPress::Enter => ScreensaverAction::NextScreen,
            KeyPress::Char(c) => {
                if c == ' ' {
                    self.color = match self.color {
                        Color::Green => Color::Cyan,
                        Color::Cyan => Color::Yellow,
                        Color::Yellow => Color::Magenta,
                        Color::Magenta => Color::Red,
                        Color::Red => Color::Blue,
                        Color::Blue => Color::White,
                        _ => Color::Green,
                    };
                } else if c == '+' || c == '=' {
                    self.velocity_x = scale_up(self.velocity_x);
                    self.velocity_y = scale_up(self.velocity_y);
                } else if c == '-' {
                    self.velocity_x = scale_down(self.velocity_x);
                    self.velocity_y = scale_down(self.velocity_y);
                }
                ScreensaverAction::Continue
            },
            KeyPress::Other => ScreensaverAction::Continue,
        }
    }

    /// A new area: a position that fell outside it is pulled back in, and
    /// everything else is untouched.
    pub fn resize(&mut self, new_area: Rect)
        requires
            old(self).wf(),
        ensures
            final(self).wf(),
            final(self).text == old(self).text,
            final(self).color == old(self).color,
            final(self).velocity_x == old(self).velocity_x,
            final(self).velocity_y == old(self).velocity_y,
            final(self).x == if old(self).x + old(self).text@.len() * (CELL as int)
                >= new_area.width * (CELL as int) {
                max((new_area.width as int - old(self).text@.len()) * (CELL as int), 0)
            } else {
                old(self).x as int
            },
            final(self).y == if old(self).y >= new_area.height * (CELL as int) {
                max((new_area.height as int - 1) * (CELL as int), 0)
            } else {
                old(self).y as int
            },
    {
        let text_width: i64 = self.text.as_str().unicode_len() as i64 * CELL;
        let width: i64 = new_area.width as i64 * CELL;
        let height: i64 = new_area.height as i64 * CELL;
        if self.x + text_width >= width {
            let moved = width - text_width;
            self.x = if moved > 0 {
                moved
            } else {
                0
            };
        }
        if self.y >= height {
            let moved = height - CELL;
            self.y = if moved > 0 {
                moved
            } else {
                0
            };
        }
    }
}

impl Default for BouncingLogoFeature {
    fn default() -> (r: BouncingLogoFeature)
        ensures
            r.wf(),
            r.text@ == "Terminal Screensaver"@,
            r.x == 10 * CELL,
            r.y == 5 * CELL,
            r.velocity_x == CELL,
            r.velocity_y == CELL / 2,
            r.color == Color::Green,
    {
        BouncingLogoFeature::new()
    }
}

/// The exec side of `speed_up`.
fn scale_up(v: i64) -> (r: i64)
    requires
        -(SPEED_CAP as int) <= v <= SPEED_CAP as int,
    ensures
        r == speed_up(v as int),
        -(SPEED_CAP as int) <= r <= SPEED_CAP as int,
{
    if v >= 0 {
        let grown = v / 5 * 6 + v % 5 * 6 / 5;
        let exact = v * 6 / 5;
        if exact > SPEED_CAP {
            SPEED_CAP
        } else {
            exact
        }
    } else {
        let exact = (-v) * 6 / 5;
        if exact > SPEED_CAP {
            -SPEED_CAP
        } else {
            -exact
        }
    }
}

/// The exec side of `slow_down`.
fn scale_down(v: i64) -> (r: i64)
    requires
        -(SPEED_CAP as int) <= v <= SPEED_CAP as int,
    ensures
        r == slow_down(v as int),
        -(SPEED_CAP as int) <= r <= SPEED_CAP as int,
{
    if v >= 0 {
        v * 5 / 6
    } else {
        -((-v) * 5 / 6)
    }
}

} // verus!

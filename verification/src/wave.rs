//! The wave feature: a sinusoidal curve sweeps the area, drawn with glyphs
//! that fade with the distance from the curve. Phases and angles are in
//! thousandths of a radian, with a rational approximation of the sine, so
//! every frame is exact integer arithmetic.

use vstd::prelude::*;

verus! {

use crate::canvas::Color;
use crate::canvas::Rect;
use crate::canvas::TextLine;
use crate::canvas::centered;
use crate::canvas::center_text;
use crate::canvas::push_char;
use crate::features::KeyPress;
use crate::features::ScreensaverAction;

/// Half a turn, in thousandths of a radian.
pub const PI_MILLI: i64 = 3142;

/// A full turn, in thousandths of a radian.
pub const TWO_PI_MILLI: i64 = 6284;

/// Where the phase accumulator saturates; at the fastest speed this is
/// billions of ticks away, and the sum never overflows.
pub const TIME_MAX: i64 = 4_000_000_000_000;

/// The sine on the first half turn (`0..=PI_MILLI`), in thousandths, by the
/// rational approximation `16 x (pi - x) / (5 pi^2 - 4 x (pi - x))`.
pub open spec fn sin_half(x: int) -> int {
    16 * x * (PI_MILLI - x) * 1000 / (5 * (PI_MILLI as int) * (PI_MILLI as int) - 4 * x * (
    PI_MILLI - x))
}

/// The sine of any nonnegative angle in thousandths of a radian, in
/// thousandths: the angle reduced to one turn, the second half turn the
/// mirror of the first.
pub open spec fn sin_milli(a: int) -> int {
    let r = a % (TWO_PI_MILLI as int);
    if r < PI_MILLI {
        sin_half(r)
    } else {
        -sin_half(r - PI_MILLI)
    }
}

/// On the first half turn the approximation stays inside `0..=1000`.
pub proof fn lemma_sin_half_bounds(x: int)
    requires
        0 <= x <= PI_MILLI,
    ensures
        0 <= sin_half(x) <= 1000,
{
    assert(0 <= x * (3142 - x) <= 2468041) by (nonlinear_arith)
        requires
            0 <= x <= 3142,
    ;
    let t = x * (PI_MILLI - x);
    let den = 5 * (PI_MILLI as int) * (PI_MILLI as int) - 4 * t;
    assert(den == 49360820 - 4 * t);
    assert(den >= 39488656);
    assert(16 * t * 1000 >= 0) by (nonlinear_arith)
        requires
            t >= 0,
    ;
    assert(16 * t * 1000 / den >= 0);
    assert(16 * t * 1000 < 1001 * den) by (nonlinear_arith)
        requires
            0 <= t <= 2468041,
            den == 49360820 - 4 * t,
    ;
    assert(16 * t * 1000 / den <= 1000) by (nonlinear_arith)
        requires
            16 * t * 1000 < 1001 * den,
            16 * t * 1000 >= 0,
            den > 0,
    ;
    assert(16 * x * (PI_MILLI - x) * 1000 == 16 * t * 1000) by (nonlinear_arith)
        requires
            t == x * (3142 - x),
    ;
    assert(4 * x * (PI_MILLI - x) == 4 * t) by (nonlinear_arith)
        requires
            t == x * (3142 - x),
    ;
}

fn sin_half_exec(x: i64) -> (r: i64)
    requires
        0 <= x <= PI_MILLI,
    ensures
        r == sin_half(x as int),
        0 <= r <= 1000,
{
    proof {
        assert(0 <= x * (PI_MILLI - x) <= 2468041) by (nonlinear_arith)
            requires
                0 <= x <= 3142,
        ;
    }
    let t = x * (PI_MILLI - x);
    let den = 5 * PI_MILLI * PI_MILLI - 4 * t;
    let r = 16 * t * 1000 / den;
    proof {
        lemma_sin_half_bounds(x as int);
        assert(16 * t * 1000 == 16 * x * (PI_MILLI - x) * 1000) by (nonlinear_arith)
            requires
                t == x * ((PI_MILLI as int) - x),
        ;
        assert(4 * t == 4 * x * (PI_MILLI - x)) by (nonlinear_arith)
            requires
                t == x * ((PI_MILLI as int) - x),
        ;
    }
    r
}

fn sin_milli_exec(a: i64) -> (r: i64)
    requires
        0 <= a,
    ensures
        r == sin_milli(a as int),
        -1000 <= r <= 1000,
{
    let red = a % TWO_PI_MILLI;
    if red < PI_MILLI {
        sin_half_exec(red)
    } else {
        -sin_half_exec(red - PI_MILLI)
    }
}

/// The angle the curve is sampled at in column `x` of a `w`-column area:
/// `frequency * (x / w) * 2 pi + time`, all in thousandths.
pub open spec fn wave_angle(frequency: int, time: int, x: int, w: int) -> int {
    frequency * x * (TWO_PI_MILLI as int) / (w * 1000) + time
}

/// The curve's row (in thousandths of a row) in column `x`: the center line
/// plus the amplitude times the sine.
pub open spec fn wave_y(
    frequency: int,
    time: int,
    amplitude: int,
    x: int,
    w: int,
    h: int,
) -> int {
    let s = sin_milli(wave_angle(frequency, time, x, w));
    if s >= 0 {
        h * 500 + amplitude * s / 1000
    } else {
        h * 500 - amplitude * (-s) / 1000
    }
}

/// The glyph tier for a distance (in thousandths of a row) from the curve:
/// seven bands, half a row wide at the curve itself, one row wide after.
pub open spec fn wave_tier(distance: int) -> int {
    if distance < 500 {
        0
    } else if distance < 1500 {
        1
    } else if distance < 2500 {
        2
    } else if distance < 3500 {
        3
    } else if distance < 4500 {
        4
    } else if distance < 5500 {
        5
    } else {
        6
    }
}

/// The glyph drawn at `(x, y)`: the tier of the distance between the row and
/// the curve's row in that column, looked up in the glyph table.
pub open spec fn wave_cell(
    chars: Seq<char>,
    frequency: int,
    time: int,
    amplitude: int,
    x: int,
    y: int,
    w: int,
    h: int,
) -> char {
    let wy = wave_y(frequency, time, amplitude, x, w, h);
    let distance = if y * 1000 >= wy {
        y * 1000 - wy
    } else {
        wy - y * 1000
    };
    chars[wave_tier(distance)]
}

/// The wave feature's state: the phase accumulator, its knobs, and the glyph
/// table from the main curve outward.
pub struct WaveAnimationFeature {
    /// Phase, in thousandths of a radian.
    pub time: i64,
    /// Phase gained per tick, in thousandths of a radian.
    pub speed: i64,
    /// Curve height, in thousandths of a row.
    pub amplitude: i64,
    /// Oscillations across the width, in thousandths.
    pub frequency: i64,
    pub wave_chars: Vec<char>,
}

impl WaveAnimationFeature {
    /// What construction gives and every key and tick keeps: the knobs in
    /// their clamping ranges, the phase inside its saturation bound, and the
    /// seven-glyph table.
    pub open spec fn wf(&self) -> bool {
        &&& 0 <= self.time <= TIME_MAX
        &&& 10 <= self.speed <= 500
        &&& 100 <= self.frequency <= 1000
        &&& 0 <= self.amplitude <= 20_000
        &&& self.wave_chars@ =~= seq!['~', '`', '^', '*', '°', '·', ' ']
    }

    pub fn new() -> (r: WaveAnimationFeature)
        ensures
            r.wf(),
            r.time == 0,
            r.speed == 100,
            r.amplitude == 8000,
            r.frequency == 300,
    {
        WaveAnimationFeature {
            time: 0,
            speed: 100,
            amplitude: 8000,
            frequency: 300,
            wave_chars: vec!['~', '`', '^', '*', '°', '·', ' '],
        }
    }

    /// The frame for one tick: the phase first advances by the speed
    /// (saturating at its bound). On an area over five rows tall the first
    /// two rows are the centered cyan title and a blank; every other row
    /// samples the curve column by column, cyan above the center line and
    /// blue below it.
    #[verifier::loop_isolation(false)]
    pub fn render(&mut self, area: Rect) -> (r: Vec<TextLine>)
        requires
            old(self).wf(),
        ensures
            final(self).wf(),
            final(self).time == if old(self).time + old(self).speed <= TIME_MAX {
                old(self).time + old(self).speed
            } else {
                TIME_MAX as int
            },
            final(self).speed == old(self).speed,
            final(self).amplitude == old(self).amplitude,
            final(self).frequency == old(self).frequency,
            final(self).wave_chars == old(self).wave_chars,
            r@.len() == area.height,
            forall|row: int|
                0 <= row < area.height ==> {
                    if area.height > 5 && row == 0 {
                        &&& (#[trigger] r@[row]).content@ == centered(
                            "ASCII Wave Animation"@,
                            area.width as nat,
                        )
                        &&& r@[row].color == Some(Color::Cyan)
                    } else if area.height > 5 && row == 1 {
                        &&& r@[row].content@ =~= Seq::<char>::empty()
                        &&& r@[row].color is None
                    } else {
                        &&& r@[row].content@ == Seq::new(
                            area.width as nat,
                            |x: int|
                                wave_cell(
                                    final(self).wave_chars@,
                                    final(self).frequency as int,
                                    final(self).time as int,
                                    final(self).amplitude as int,
                                    x,
                                    row,
                                    area.width as int,
                                    area.height as int,
                                ),
                        )
                        &&& r@[row].color == Some(
                            if 2 * row > area.height {
                                Color::Blue
                            } else {
                                Color::Cyan
                            },
                        )
                    }
                },
    {
        self.time = if self.time + self.speed <= TIME_MAX {
            self.time + self.speed
        } else {
            TIME_MAX
        };

        let w = area.width as usize;
        let h = area.height as usize;
        let mut lines: Vec<TextLine> = Vec::new();

        if h > 5 {
            lines.push(
                TextLine::with_color(center_text("ASCII Wave Animation", w), Color::Cyan),
            );
            lines.push(TextLine::new(String::new()));
        }

        let mut y: usize = lines.len();
        while y < h
            invariant
                lines@.len() == y,
                y <= h,
                h > 5 ==> y >= 2,
                self.wf(),
                h > 5 ==> {
                    &&& lines@[0].content@ == centered("ASCII Wave Animation"@, w as nat)
                    &&& lines@[0].color == Some(Color::Cyan)
                    &&& lines@[1].content@ =~= Seq::<char>::empty()
                    &&& lines@[1].color is None
                },
                forall|row: int|
                    (if h > 5 {
                        2int
                    } else {
                        0int
                    }) <= row < y ==> {
                        &&& (#[trigger] lines@[row]).content@ == Seq::new(
                            w as nat,
                            |x: int|
                                wave_cell(
                                    self.wave_chars@,
                                    self.frequency as int,
                                    self.time as int,
                                    self.amplitude as int,
                                    x,
                                    row,
                                    w as int,
                                    h as int,
                                ),
                        )
                        &&& lines@[row].color == Some(
                            if 2 * row > h {
                                Color::Blue
                            } else {
                                Color::Cyan
                            },
                        )
                    },
            decreases h - y,
        {
            let mut wave_line = String::new();
            let mut x: usize = 0;
            while x < w
                invariant
                    x <= w,
                    y < h,
                    self.wf(),
                    wave_line@ == Seq::new(
                        w as nat,
                        |c: int|
                            wave_cell(
                                self.wave_chars@,
                                self.frequency as int,
                                self.time as int,
                                self.amplitude as int,
                                c,
                                y as int,
                                w as int,
                                h as int,
                            ),
                    ).take(x as int),
                decreases w - x,
            {
                proof {
                    assert(0 <= self.frequency * (x as i64) * TWO_PI_MILLI <= 1000 * 65535
                        * 6284) by (nonlinear_arith)
                        requires
                            100 <= self.frequency <= 1000,
                            0 <= x < 65536,
                            TWO_PI_MILLI == 6284,
                    ;
                    assert(0 <= self.frequency * (x as i64) * TWO_PI_MILLI / ((w as i64) * 1000)
                        <= 1000 * 65535 * 6284) by (nonlinear_arith)
                        requires
                            0 <= self.frequency * (x as i64) * TWO_PI_MILLI <= 1000 * 65535
                                * 6284,
                            (w as i64) * 1000 >= 1000,
                    ;
                    lemma_angle_nonneg(
                        self.frequency as int,
                        self.time as int,
                        x as int,
                        w as int,
                    );
                }
                let angle = self.frequency * (x as i64) * TWO_PI_MILLI / ((w as i64) * 1000)
                    + self.time;
                let s = sin_milli_exec(angle);
                proof {
                    assert(-20_000_000 <= self.amplitude * s <= 20_000_000) by (nonlinear_arith)
                        requires
                            0 <= self.amplitude <= 20_000,
                            -1000 <= s <= 1000,
                    ;
                    assert(-20_000_000 <= self.amplitude * (-s) <= 20_000_000)
                        by (nonlinear_arith)
                        requires
                            0 <= self.amplitude <= 20_000,
                            -1000 <= s <= 1000,
                    ;
                }
                let wy = if s >= 0 {
                    (h as i64) * 500 + self.amplitude * s / 1000
                } else {
                    (h as i64) * 500 - self.amplitude * (-s) / 1000
                };
                let ym = (y as i64) * 1000;
                let distance = if ym >= wy {
                    ym - wy
                } else {
                    wy - ym
                };
                let tier: usize = if distance < 500 {
                    0
                } else if distance < 1500 {
                    1
                } else if distance < 2500 {
                    2
                } else if distance < 3500 {
                    3
                } else if distance < 4500 {
                    4
                } else if distance < 5500 {
                    5
                } else {
                    6
                };
                let ch = self.wave_chars[tier];
                push_char(&mut wave_line, ch);
                x = x + 1;
                proof {
                    assert(wave_line@ =~= Seq::new(
                        w as nat,
                        |c: int|
                            wave_cell(
                                self.wave_chars@,
                                self.frequency as int,
                                self.time as int,
                                self.amplitude as int,
                                c,
                                y as int,
                                w as int,
                                h as int,
                            ),
                    ).take(x as int));
                }
            }
            proof {
                assert(wave_line@ =~= Seq::new(
                    w as nat,
                    |c: int|
                        wave_cell(
                            self.wave_chars@,
                            self.frequency as int,
                            self.time as int,
                            self.amplitude as int,
                            c,
                            y as int,
                            w as int,
                            h as int,
                        ),
                ));
            }
            let color = if 2 * y > h {
                Color::Blue
            } else {
                Color::Cyan
            };
            lines.push(TextLine::with_color(wave_line, color));
            y = y + 1;
        }
        lines
    }

    /// One input event: escape exits, enter advances; space toggles all
    /// three knobs between their two presets; `+`/`=` and `-` nudge the
    /// speed by a hundredth of a radian inside its bounds. Only the named
    /// keys touch the state, and none touches the phase.
    pub fn handle_input(&mut self, key: KeyPress) -> (r: ScreensaverAction)
        requires
            old(self).wf(),
        ensures
            final(self).wf(),
            final(self).time == old(self).time,
            final(self).wave_chars == old(self).wave_chars,
            match key {
                KeyPress::Esc => r == ScreensaverAction::Exit && *final(self) == *old(self),
                KeyPress::Enter => r == ScreensaverAction::NextScreen && *final(self) == *old(
                    self,
                ),
                KeyPress::Char(c) => {
                    &&& r == ScreensaverAction::Continue
                    &&& if c == ' ' {
                        &&& final(self).speed == (if old(self).speed > 50 {
                            20int
                        } else {
                            150int
                        })
                        &&& final(self).frequency == (if old(self).frequency > 200 {
                            100int
                        } else {
                            500int
                        })
                        &&& final(self).amplitude == (if old(self).amplitude > 5000 {
                            3000int
                        } else {
                            10000int
                        })
                    } else if c == '+' || c == '=' {
                        &&& final(self).speed == (if old(self).speed + 10 < 500 {
                            old(self).speed + 10
                        } else {
                            500int
                        })
                        &&& final(self).frequency == old(self).frequency
                        &&& final(self).amplitude == old(self).amplitude
                    } else if c == '-' {
                        &&& final(self).speed == (if old(self).speed - 10 > 10 {
                            old(self).speed - 10
                        } else {
                            10int
                        })
                        &&& final(self).frequency == old(self).frequency
                        &&& final(self).amplitude == old(self).amplitude
                    } else {
                        *final(self) == *old(self)
                    }
                },
                KeyPress::Other => r == ScreensaverAction::Continue && *final(self) == *old(self),
            },
    {
        match key {
            KeyPress::Esc => ScreensaverAction::Exit,
            KeyPress::Enter => ScreensaverAction::NextScreen,
            KeyPress::Char(c) => {
                if c == ' ' {
                    self.speed = if self.speed > 50 {
                        20
                    } else {
                        150
                    };
                    self.frequency = if self.frequency > 200 {
                        100
                    } else {
                        500
                    };
                    self.amplitude = if self.amplitude > 5000 {
                        3000
                    } else {
                        10000
                    };
                } else if c == '+' || c == '=' {
                    self.speed = if self.speed + 10 < 500 {
                        self.speed + 10
                    } else {
                        500
                    };
                } else if c == '-' {
                    self.speed = if self.speed - 10 > 10 {
                        self.speed - 10
                    } else {
                        10
                    };
                }
                ScreensaverAction::Continue
            },
            KeyPress::Other => ScreensaverAction::Continue,
        }
    }

    /// A new area needs nothing: the wave adapts to the area it is rendered
    /// into.
    pub fn resize(&mut self, _new_area: Rect)
        ensures
            *final(self) == *old(self),
    {
    }
}

impl Default for WaveAnimationFeature {
    fn default() -> (r: WaveAnimationFeature)
        ensures
            r.wf(),
            r.time == 0,
            r.speed == 100,
            r.amplitude == 8000,
            r.frequency == 300,
    {
        WaveAnimationFeature::new()
    }
}

/// The sampling angle is never negative when the knobs are in range.
proof fn lemma_angle_nonneg(frequency: int, time: int, x: int, w: int)
    requires
        frequency >= 0,
        time >= 0,
        x >= 0,
        w >= 1,
    ensures
        wave_angle(frequency, time, x, w) >= 0,
        frequency * x * (TWO_PI_MILLI as int) >= 0,
{
    assert(frequency * x * (TWO_PI_MILLI as int) >= 0) by (nonlinear_arith)
        requires
            frequency >= 0,
            x >= 0,
    ;
    assert(frequency * x * (TWO_PI_MILLI as int) / (w * 1000) >= 0);
}

} // verus!

//! The starfield feature: points in a three-dimensional space fly toward the
//! viewer, projected onto the screen by perspective division. Coordinates and
//! depths are in thousandths of a cell; the randomness is an explicitly owned
//! linear-congruential generator seeded in the feature's state, so every run
//! from one seed is the same.

use vstd::prelude::*;

verus! {

use vstd::arithmetic::mul::lemma_mul_nonnegative;
use vstd::arithmetic::mul::lemma_mul_upper_bound;
use crate::canvas::Cell;
use crate::canvas::Color;
use crate::canvas::Rect;
use crate::canvas::centered;
use crate::features::KeyPress;
use crate::features::ScreensaverAction;

/// The depth a star respawns at (twenty cells).
pub const Z_MAX: i64 = 20_000;

/// The depth at or under which a star is respawned.
pub const Z_EPS: i64 = 100;

/// The slowest and fastest global speeds the keys can reach, in thousandths
/// of a depth cell per tick.
pub const SPEED_MIN: i64 = 100;

pub const SPEED_MAX: i64 = 5_000;

/// How far from the axis a fresh star can lie, in thousandths of a cell.
pub const RANGE: i64 = 50_000;

/// One step of the linear-congruential generator.
#[verifier::opaque]
pub open spec fn lcg(s: u64) -> u64 {
    (((s as int) * 1103515245 + 12345) % 0x1_0000_0000_0000_0000) as u64
}

fn lcg_next(s: u64) -> (r: u64)
    ensures
        r == lcg(s),
{
    proof {
        reveal(lcg);
    }
    let prod: u128 = s as u128 * 1103515245 + 12345;
    (prod % 0x1_0000_0000_0000_0000u128) as u64
}

/// A draw in `0..=1000` from one generator state: the unit interval in
/// thousandths.
pub open spec fn unit_of(s: u64) -> int {
    (s % 1001) as int
}

fn unit_exec(s: u64) -> (r: i64)
    ensures
        r == unit_of(s),
        0 <= r <= 1000,
{
    (s % 1001) as i64
}

/// The glyphs a star can be drawn with.
pub open spec fn star_glyphs() -> Seq<char> {
    seq!['*', '·', '°', '+', '×']
}

/// The colors a star can be drawn in.
pub open spec fn star_colors() -> Seq<Color> {
    seq![Color::White, Color::Yellow, Color::Cyan, Color::Blue, Color::Magenta]
}

/// One point of the field, in thousandths of a cell; `z > 0` is its depth.
#[derive(Clone, Copy, PartialEq, Eq, Structural, Debug)]
pub struct Star {
    pub x: i64,
    pub y: i64,
    pub z: i64,
    pub glyph: char,
    pub color: Color,
}

impl Star {
    /// Where every star lives: inside the logical range, above the respawn
    /// depth and at most the respawn depth plus the initial spread.
    pub open spec fn wf(&self) -> bool {
        &&& -RANGE <= self.x <= RANGE
        &&& -RANGE <= self.y <= RANGE
        &&& Z_EPS < self.z <= Z_MAX + 1000
    }
}

/// The star one fresh draw gives, and the generator state after it: depth
/// from one unit draw (one to twenty-one cells), each coordinate from one,
/// then the glyph and the color.
pub open spec fn next_star(s0: u64) -> (Star, u64) {
    let s1 = lcg(s0);
    let s2 = lcg(s1);
    let s3 = lcg(s2);
    let s4 = lcg(s3);
    let s5 = lcg(s4);
    (
        Star {
            x: ((unit_of(s2) - 500) * 100) as i64,
            y: ((unit_of(s3) - 500) * 100) as i64,
            z: (unit_of(s1) * 20 + 1000) as i64,
            glyph: star_glyphs()[pick_index(unit_of(s4))],
            color: star_colors()[pick_index(unit_of(s5))],
        },
        s5,
    )
}

/// Which of the five table entries a unit draw picks.
pub open spec fn pick_index(u: int) -> int {
    if u * 5 / 1000 < 4 {
        u * 5 / 1000
    } else {
        4
    }
}

/// `n` fresh stars from a generator state, and the state they leave behind.
pub open spec fn gen_stars(s: u64, n: nat) -> (Seq<Star>, u64)
    decreases n,
{
    if n == 0 {
        (Seq::empty(), s)
    } else {
        let (prefix, s1) = gen_stars(s, (n - 1) as nat);
        let (st, s2) = next_star(s1);
        (prefix.push(st), s2)
    }
}

/// One tick of one star: the depth shrinks by the speed; at or under the
/// respawn depth the star goes back to the maximum depth with two fresh
/// coordinate draws, keeping its glyph and color.
pub open spec fn step_star(st: Star, speed: int, s0: u64) -> (Star, u64) {
    let z2 = st.z - speed;
    if z2 <= Z_EPS {
        let s1 = lcg(s0);
        let s2 = lcg(s1);
        (
            Star {
                x: ((unit_of(s1) - 500) * 100) as i64,
                y: ((unit_of(s2) - 500) * 100) as i64,
                z: Z_MAX as i64,
                ..st
            },
            s2,
        )
    } else {
        (Star { z: z2 as i64, ..st }, s0)
    }
}

/// Every star stepped once, left to right, threading the generator state.
pub open spec fn step_stars(stars: Seq<Star>, speed: int, s: u64, n: nat) -> (Seq<Star>, u64)
    decreases n,
{
    if n == 0 || n > stars.len() {
        (stars.take(0), s)
    } else {
        let (prefix, s1) = step_stars(stars, speed, s, (n - 1) as nat);
        let (st, s2) = step_star(stars[n - 1], speed, s1);
        (prefix.push(st), s2)
    }
}

/// The screen column a star projects to, by perspective division: the
/// floor of `(x / z) * (width / 2) + width / 2`, computed exactly as
/// `width * (x + z) / (2 * z)`. Meaningful only when `x + z >= 0` (a
/// negative projection is off the screen).
pub open spec fn project(coord: int, z: int, extent: int) -> int {
    extent * (coord + z) / (2 * z)
}

/// Whether a star lands on the screen, and where: dropped when either floor
/// falls left of or above the area or past its right or bottom edge.
pub open spec fn star_cell(st: Star, w: int, h: int) -> Option<(int, int)> {
    if st.x + st.z >= 0 && st.y + st.z >= 0 {
        let px = project(st.x as int, st.z as int, w);
        let py = project(st.y as int, st.z as int, h);
        if 0 <= px < w && 0 <= py < h {
            Some((px, py))
        } else {
            None
        }
    } else {
        None
    }
}

/// A grid of cells with one star painted on it (or unchanged, for a star
/// that projects off the screen).
pub open spec fn paint_star(grid: Seq<Seq<Cell>>, st: Star, w: int, h: int) -> Seq<Seq<Cell>> {
    match star_cell(st, w, h) {
        Some((px, py)) => grid.update(
            py,
            grid[py].update(px, Cell { ch: st.glyph, color: st.color }),
        ),
        None => grid,
    }
}

/// All stars painted in order over a blank black grid; a later star wins a
/// shared cell.
pub open spec fn paint_stars(stars: Seq<Star>, w: int, h: int) -> Seq<Seq<Cell>>
    decreases stars.len(),
{
    if stars.len() == 0 {
        blank_grid(w, h)
    } else {
        paint_star(paint_stars(stars.drop_last(), w, h), stars.last(), w, h)
    }
}

/// `h` rows of `w` spaces in the gap color.
pub open spec fn blank_grid(w: int, h: int) -> Seq<Seq<Cell>> {
    Seq::new(h as nat, |y: int| Seq::new(w as nat, |x: int| (Cell { ch: ' ', color: Color::Black })))
}

/// The starfield.
pub struct StarfieldFeature {
    pub stars: Vec<Star>,
    pub star_count: usize,
    /// Depth lost per tick, in thousandths of a cell.
    pub speed: i64,
    pub area_width: u16,
    pub area_height: u16,
    /// The generator state the next draw will step from.
    pub seed: u64,
}

impl StarfieldFeature {
    pub open spec fn wf(&self) -> bool {
        &&& forall|i: int| 0 <= i < self.stars@.len() ==> (#[trigger] self.stars@[i]).wf()
        &&& SPEED_MIN <= self.speed <= SPEED_MAX
        &&& self.star_count <= 1000
    }

    pub fn new() -> (r: StarfieldFeature)
        ensures
            r.wf(),
            r.stars@.len() == 0,
            r.star_count == 100,
            r.speed == 1000,
            r.area_width == 80,
            r.area_height == 24,
            r.seed == 1,
    {
        StarfieldFeature {
            stars: Vec::new(),
            star_count: 100,
            speed: 1000,
            area_width: 80,
            area_height: 24,
            seed: 1,
        }
    }

    /// Discards the field and draws `star_count` fresh stars from the owned
    /// generator, at random positions and random depths.
    #[verifier::loop_isolation(false)]
    pub fn initialize_stars(&mut self)
        requires
            old(self).wf(),
        ensures
            final(self).wf(),
            (final(self).stars@, final(self).seed) == gen_stars(
                old(self).seed,
                old(self).star_count as nat,
            ),
            final(self).stars@.len() == old(self).star_count,
            final(self).star_count == old(self).star_count,
            final(self).speed == old(self).speed,
            final(self).area_width == old(self).area_width,
            final(self).area_height == old(self).area_height,
    {
        self.stars.clear();
        let n = self.star_count;
        let ghost s0 = self.seed;
        let mut k: usize = 0;
        while k < n
            invariant
                k <= n,
                self.star_count == n,
                self.speed == old(self).speed,
                self.area_width == old(self).area_width,
                self.area_height == old(self).area_height,
                self.stars@ == gen_stars(s0, k as nat).0,
                self.seed == gen_stars(s0, k as nat).1,
                self.stars@.len() == k,
                forall|i: int| 0 <= i < self.stars@.len() ==> (#[trigger] self.stars@[i]).wf(),
            decreases n - k,
        {
            let s1 = lcg_next(self.seed);
            let s2 = lcg_next(s1);
            let s3 = lcg_next(s2);
            let s4 = lcg_next(s3);
            let s5 = lcg_next(s4);
            let uz = unit_exec(s1);
            let ux = unit_exec(s2);
            let uy = unit_exec(s3);
            let ug = unit_exec(s4);
            let uc = unit_exec(s5);
            let glyphs: Vec<char> = vec!['*', '·', '°', '+', '×'];
            let colors: Vec<Color> = vec![
                Color::White,
                Color::Yellow,
                Color::Cyan,
                Color::Blue,
                Color::Magenta,
            ];
            let gi = pick_index_exec(ug);
            let ci = pick_index_exec(uc);
            let star = Star {
                x: (ux - 500) * 100,
                y: (uy - 500) * 100,
                z: uz * 20 + 1000,
                glyph: glyphs[gi],
                color: colors[ci],
            };
            proof {
                assert(glyphs@ =~= star_glyphs());
                assert(colors@ =~= star_colors());
                assert(star == next_star(gen_stars(s0, k as nat).1).0);
            }
            self.stars.push(star);
            self.seed = s5;
            k = k + 1;
            proof {
                assert(self.stars@ =~= gen_stars(s0, k as nat).0);
            }
        }
    }

    /// One tick of the whole field: every star's depth shrinks by the global
    /// speed and a star at or under the respawn depth goes back to the
    /// maximum depth at fresh coordinates. No star is ever left at a
    /// non-positive depth.
    #[verifier::loop_isolation(false)]
    pub fn update_stars(&mut self)
        requires
            old(self).wf(),
        ensures
            final(self).wf(),
            (final(self).stars@, final(self).seed) == step_stars(
                old(self).stars@,
                old(self).speed as int,
                old(self).seed,
                old(self).stars@.len() as nat,
            ),
            final(self).stars@.len() == old(self).stars@.len(),
            forall|i: int|
                0 <= i < final(self).stars@.len()
                    ==> (#[trigger] final(self).stars@[i]).z > Z_EPS,
            final(self).star_count == old(self).star_count,
            final(self).speed == old(self).speed,
            final(self).area_width == old(self).area_width,
            final(self).area_height == old(self).area_height,
    {
        let n = self.stars.len();
        let ghost stars0 = self.stars@;
        let ghost s0 = self.seed;
        let mut k: usize = 0;
        while k < n
            invariant
                k <= n,
                n == stars0.len(),
                self.stars@.len() == n,
                self.speed == old(self).speed,
                self.seed == step_stars(stars0, old(self).speed as int, s0, k as nat).1,
                self.star_count == old(self).star_count,
                self.area_width == old(self).area_width,
                self.area_height == old(self).area_height,
                self.stars@.take(k as int) == step_stars(
                    stars0,
                    old(self).speed as int,
                    s0,
                    k as nat,
                ).0,
                forall|i: int| k <= i < n ==> self.stars@[i] == stars0[i],
                forall|i: int| 0 <= i < k ==> (#[trigger] self.stars@[i]).wf()
                    && self.stars@[i].z > Z_EPS,
            decreases n - k,
        {
            let ghost prev_prefix = self.stars@.take(k as int);
            let st = self.stars[k];
            proof {
                assert(st == stars0[k as int]);
                assert(stars0[k as int].wf());
            }
            let z2 = st.z - self.speed;
            if z2 <= Z_EPS {
                let s1 = lcg_next(self.seed);
                let s2 = lcg_next(s1);
                let ux = unit_exec(s1);
                let uy = unit_exec(s2);
                self.stars[k] = Star {
                    x: (ux - 500) * 100,
                    y: (uy - 500) * 100,
                    z: Z_MAX,
                    ..st
                };
                self.seed = s2;
            } else {
                self.stars[k] = Star { z: z2, ..st };
            }
            k = k + 1;
            proof {
                assert(self.stars@.take(k as int).drop_last() =~= prev_prefix);
                assert(self.stars@.take(k as int).last() == self.stars@[k - 1]);
                assert(self.stars@.take(k as int) =~= step_stars(
                    stars0,
                    old(self).speed as int,
                    s0,
                    k as nat,
                ).0);
            }
        }
        proof {
            assert(self.stars@.take(n as int) =~= self.stars@);
        }
    }
}

/// Cell `x` of a gray text row: the text's character there, or a space past
/// its end.
pub open spec fn gray_cell(t: Seq<char>, x: int) -> Cell {
    Cell {
        ch: if x < t.len() {
            t[x]
        } else {
            ' '
        },
        color: Color::Gray,
    }
}

/// A full row of gray cells showing `t` from its left edge, padded with
/// spaces to the width.
pub open spec fn gray_row(t: Seq<char>, w: int) -> Seq<Cell> {
    Seq::new(w as nat, |x: int| gray_cell(t, x))
}

/// The bottom row when the control hints are shown: the hint text centered,
/// padded with spaces to the width, all of it gray.
pub open spec fn controls_cells(w: int) -> Seq<Cell> {
    gray_row(centered("Press ESC to exit | +/- for speed"@, w as nat), w)
}

/// The frame a star field shows: the stars painted over a blank grid, and,
/// when the area is more than two rows tall, the control hints on the bottom
/// row.
pub open spec fn starfield_frame(stars: Seq<Star>, w: int, h: int) -> Seq<Seq<Cell>> {
    let g = paint_stars(stars, w, h);
    if h > 2 {
        g.update(h - 1, controls_cells(w))
    } else {
        g
    }
}

impl StarfieldFeature {
    /// The frame for one tick. A changed area (or an empty field) first
    /// regenerates the stars for the new size; then the whole field advances
    /// one tick, and is projected cell by cell: stars in order, a later one
    /// winning a shared cell, and the control hints on the bottom row when
    /// the area is more than two rows tall.
    #[verifier::loop_isolation(false)]
    pub fn render(&mut self, area: Rect) -> (r: Vec<Vec<Cell>>)
        requires
            old(self).wf(),
        ensures
            final(self).wf(),
            final(self).speed == old(self).speed,
            final(self).star_count == old(self).star_count,
            final(self).area_width == area.width,
            final(self).area_height == area.height,
            ({
                let mid = if old(self).area_width != area.width || old(self).area_height
                    != area.height || old(self).stars@.len() == 0 {
                    gen_stars(old(self).seed, old(self).star_count as nat)
                } else {
                    (old(self).stars@, old(self).seed)
                };
                let stepped = step_stars(mid.0, old(self).speed as int, mid.1, mid.0.len() as nat);
                &&& final(self).stars@ == stepped.0
                &&& final(self).seed == stepped.1
            }),
            r@.len() == area.height,
            r@.map_values(|row: Vec<Cell>| row@) == starfield_frame(
                final(self).stars@,
                area.width as int,
                area.height as int,
            ),
    {
        if self.area_width != area.width || self.area_height != area.height
            || self.stars.len() == 0 {
            self.area_width = area.width;
            self.area_height = area.height;
            self.initialize_stars();
        }
        self.update_stars();

        let w = area.width as usize;
        let h = area.height as usize;
        let mut grid: Vec<Vec<Cell>> = Vec::new();
        while grid.len() < h
            invariant
                grid@.len() <= h,
                forall|y: int|
                    0 <= y < grid@.len() ==> (#[trigger] grid@[y])@ == blank_grid(
                        w as int,
                        h as int,
                    )[y],
            decreases h - grid@.len(),
        {
            let mut row: Vec<Cell> = Vec::new();
            while row.len() < w
                invariant
                    row@.len() <= w,
                    forall|x: int|
                        0 <= x < row@.len() ==> #[trigger] row@[x] == (Cell {
                            ch: ' ',
                            color: Color::Black,
                        }),
                decreases w - row@.len(),
            {
                row.push(Cell { ch: ' ', color: Color::Black });
            }
            proof {
                assert(row@ =~= blank_grid(w as int, h as int)[grid@.len() as int]);
            }
            grid.push(row);
        }
        proof {
            assert(grid@.map_values(|row: Vec<Cell>| row@) =~~= paint_stars(
                self.stars@.take(0),
                w as int,
                h as int,
            ));
        }
        let mut k: usize = 0;
        while k < self.stars.len()
            invariant
                k <= self.stars@.len(),
                self.wf(),
                grid@.len() == h,
                forall|y: int| 0 <= y < h ==> (#[trigger] grid@[y])@.len() == w,
                grid@.map_values(|row: Vec<Cell>| row@) == paint_stars(
                    self.stars@.take(k as int),
                    w as int,
                    h as int,
                ),
            decreases self.stars@.len() - k,
        {
            let ghost prev = grid@.map_values(|row: Vec<Cell>| row@);
            let st = self.stars[k];
            proof {
                assert(self.stars@[k as int].wf());
            }
            if st.x + st.z >= 0 && st.y + st.z >= 0 {
                proof {
                    lemma_mul_nonnegative(w as int, (st.x + st.z) as int);
                    lemma_mul_upper_bound(w as int, 0x10000, (st.x + st.z) as int, 80_000);
                    lemma_mul_nonnegative(h as int, (st.y + st.z) as int);
                    lemma_mul_upper_bound(h as int, 0x10000, (st.y + st.z) as int, 80_000);
                }
                let px = (w as i64) * (st.x + st.z) / (2 * st.z);
                let py = (h as i64) * (st.y + st.z) / (2 * st.z);
                if px < w as i64 && py < h as i64 {
                    proof {
                        lemma_mul_nonnegative(w as int, (st.x + st.z) as int);
                        lemma_mul_nonnegative(h as int, (st.y + st.z) as int);
                    }
                    let row = &mut grid[py as usize];
                    row[px as usize] = Cell { ch: st.glyph, color: st.color };
                }
            }
            k = k + 1;
            proof {
                assert(self.stars@.take(k as int).drop_last() =~= self.stars@.take(k - 1));
                assert(grid@.map_values(|row: Vec<Cell>| row@) =~~= paint_stars(
                    self.stars@.take(k as int),
                    w as int,
                    h as int,
                ));
            }
        }
        proof {
            assert(self.stars@.take(self.stars@.len() as int) =~= self.stars@);
        }
        if h > 2 {
            let controls = "Press ESC to exit | +/- for speed";
            let t = crate::canvas::center_text(controls, w);
            let tlen = t.as_str().unicode_len();
            let mut row: Vec<Cell> = Vec::new();
            let mut x: usize = 0;
            while x < w
                invariant
                    x <= w,
                    row@.len() == x,
                    tlen == t@.len(),
                    t@ == centered("Press ESC to exit | +/- for speed"@, w as nat),
                    forall|i: int| 0 <= i < x ==> #[trigger] row@[i] == gray_row(t@, w as int)[i],
                decreases w - x,
            {
                let ch = if x < tlen {
                    t.as_str().get_char(x)
                } else {
                    ' '
                };
                row.push(Cell { ch, color: Color::Gray });
                x = x + 1;
                proof {
                    assert(gray_row(t@, w as int).len() == w);
                    assert(0 <= x - 1 < w);
                    assert(row@[x - 1] == (Cell { ch, color: Color::Gray }));
                    assert(gray_row(t@, w as int)[x - 1] == (Cell {
                        ch: if x - 1 < t@.len() {
                            t@[x - 1]
                        } else {
                            ' '
                        },
                        color: Color::Gray,
                    }));
                    assert(ch == (if x - 1 < t@.len() {
                        t@[x - 1]
                    } else {
                        ' '
                    }));
                }
            }
            proof {
                assert(row@ =~= gray_row(t@, w as int));
                assert(gray_row(t@, w as int) =~= controls_cells(w as int));
            }
            grid[h - 1] = row;
        }
        proof {
            assert(grid@.map_values(|row: Vec<Cell>| row@) =~~= starfield_frame(
                self.stars@,
                w as int,
                h as int,
            ));
        }
        grid
    }

    /// One input event: escape exits, enter advances; `+`/`=` and `-` nudge
    /// the global speed by a fifth of a cell within its bounds; space
    /// regenerates the whole field; `s` toggles the star count between few
    /// and many and regenerates. Only the named keys touch the state.
    pub fn handle_input(&mut self, key: KeyPress) -> (r: ScreensaverAction)
        requires
            old(self).wf(),
        ensures
            final(self).wf(),
            match key {
                KeyPress::Esc => r == ScreensaverAction::Exit && *final(self) == *old(self),
                KeyPress::Enter => r == ScreensaverAction::NextScreen && *final(self) == *old(
                    self,
                ),
                KeyPress::Char(c) => {
                    &&& r == ScreensaverAction::Continue
                    &&& if c == '+' || c == '=' {
                        *final(self) == StarfieldFeature {
                            speed: if old(self).speed + 200 < SPEED_MAX {
                                (old(self).speed + 200) as i64
                            } else {
                                SPEED_MAX as i64
                            },
                            ..*old(self)
                        }
                    } else if c == '-' {
                        *final(self) == StarfieldFeature {
                            speed: if old(self).speed - 200 > SPEED_MIN {
                                (old(self).speed - 200) as i64
                            } else {
                                SPEED_MIN as i64
                            },
                            ..*old(self)
                        }
                    } else if c == ' ' {
                        &&& (final(self).stars@, final(self).seed) == gen_stars(
                            old(self).seed,
                            old(self).star_count as nat,
                        )
                        &&& final(self).star_count == old(self).star_count
                        &&& final(self).speed == old(self).speed
                    } else if c == 's' || c == 'S' {
                        &&& final(self).star_count == (if old(self).star_count > 50 {
                            25int
                        } else {
                            150int
                        })
                        &&& (final(self).stars@, final(self).seed) == gen_stars(
                            old(self).seed,
                            final(self).star_count as nat,
                        )
                        &&& final(self).speed == old(self).speed
                    } else {
                        *final(self) == *old(self)
                    }
                },
                KeyPress::Other => r == ScreensaverAction::Continue && *final(self) == *old(self),
            },
    {
        match key {
            KeyPress::Esc => ScreensaverAction::Exit,
            KeyPress::Enter => ScreensaverAction::NextScreen,
            KeyPress::Char(c) => {
                if c == '+' || c == '=' {
                    self.speed = if self.speed + 200 < SPEED_MAX {
                        self.speed + 200
                    } else {
                        SPEED_MAX
                    };
                } else if c == '-' {
                    self.speed = if self.speed - 200 > SPEED_MIN {
                        self.speed - 200
                    } else {
                        SPEED_MIN
                    };
                } else if c == ' ' {
                    self.initialize_stars();
                } else if c == 's' || c == 'S' {
                    self.star_count = if self.star_count > 50 {
                        25
                    } else {
                        150
                    };
                    self.initialize_stars();
                }
                ScreensaverAction::Continue
            },
            KeyPress::Other => ScreensaverAction::Continue,
        }
    }

    /// A new area: the stored size is replaced and the whole field is
    /// regenerated for it.
    pub fn resize(&mut self, new_area: Rect)
        requires
            old(self).wf(),
        ensures
            final(self).wf(),
            final(self).area_width == new_area.width,
            final(self).area_height == new_area.height,
            final(self).speed == old(self).speed,
            final(self).star_count == old(self).star_count,
            (final(self).stars@, final(self).seed) == gen_stars(
                old(self).seed,
                old(self).star_count as nat,
            ),
    {
        self.area_width = new_area.width;
        self.area_height = new_area.height;
        self.initialize_stars();
    }
}

impl Default for StarfieldFeature {
    fn default() -> (r: StarfieldFeature)
        ensures
            r.wf(),
            r.stars@.len() == 0,
            r.star_count == 100,
            r.speed == 1000,
            r.area_width == 80,
            r.area_height == 24,
            r.seed == 1,
    {
        StarfieldFeature::new()
    }
}

fn pick_index_exec(u: i64) -> (r: usize)
    requires
        0 <= u <= 1000,
    ensures
        r == pick_index(u as int),
        r < 5,
{
    let idx = u * 5 / 1000;
    if idx < 4 {
        idx as usize
    } else {
        4
    }
}

} // verus!

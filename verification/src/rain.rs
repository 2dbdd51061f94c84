//! The rain feature: independent columns of glyphs fall down the area, each
//! with its own speed and trail length, and regenerate above the top once the
//! head has scrolled past the bottom. The randomness comes from the `rand`
//! crate; everything proved here holds for every value it returns.

use vstd::prelude::*;

verus! {

use rand::RngExt;
use crate::canvas::Color;
use crate::canvas::Rect;
use crate::canvas::TextLine;
use crate::canvas::blank;
use crate::canvas::push_char;
use crate::canvas::repeat_char;
use crate::canvas::spaces;

/// The tallest area a column can be stepped against; keeps the head's
/// position inside `u16` (the head can sit up to a trail length plus one
/// step past the bottom).
pub const HEIGHT_MAX: u16 = 65500;

/// The glyph alphabet the trails are drawn from.
pub open spec fn rain_alphabet() -> Seq<char> {
    "アイウエオカキクケコサシスセソタチツテトナニヌネノハヒフヘホマミムメモヤユヨラリルレロワヲン"@
}

/// Draws a value in `lo..=hi`.
///
/// Relies on rand's `RngExt::random_range` on the thread rng: a value
/// uniformly distributed in the given range; it panics only on an empty
/// range.
#[verifier::external_body]
fn random_range_u8(lo: u8, hi: u8) -> (r: u8)
    requires
        lo <= hi,
    ensures
        lo <= r <= hi,
{
    rand::rng().random_range(lo..=hi)
}

/// Draws an index below `n`.
///
/// Relies on rand's `RngExt::random_range` on the thread rng: a value
/// uniformly distributed in the given range; it panics only on an empty
/// range.
#[verifier::external_body]
fn random_below(n: usize) -> (r: usize)
    requires
        n > 0,
    ensures
        r < n,
{
    rand::rng().random_range(0..n)
}

/// A random glyph of the alphabet.
fn random_symbol() -> (c: char)
    ensures
        rain_alphabet().contains(c),
{
    let symbols = "アイウエオカキクケコサシスセソタチツテトナニヌネノハヒフヘホマミムメモヤユヨラリルレロワヲン";
    proof {
        reveal_strlit(
            "アイウエオカキクケコサシスセソタチツテトナニヌネノハヒフヘホマミムメモヤユヨラリルレロワヲン",
        );
    }
    let len = symbols.unicode_len();
    let i = random_below(len);
    let c = symbols.get_char(i);
    proof {
        assert(rain_alphabet()[i as int] == c);
    }
    c
}

/// One falling column: its screen column, the head's row, how many rows it
/// falls per tick, its trail length, and the trail's glyphs.
pub struct MatrixColumn {
    pub x: u16,
    pub y: u16,
    pub speed: u8,
    pub length: u8,
    pub characters: Vec<char>,
}

impl MatrixColumn {
    /// What construction gives and every step keeps: speed and length in
    /// their drawing ranges, fifteen glyphs from the alphabet, and the head
    /// at most one step past any bottom it was stepped against.
    pub open spec fn wf(&self) -> bool {
        &&& 1 <= self.speed <= 3
        &&& 5 <= self.length <= 15
        &&& self.characters@.len() == 15
        &&& forall|i: int| 0 <= i < 15 ==> rain_alphabet().contains(#[trigger] self.characters@[i])
        &&& self.y <= HEIGHT_MAX + 18
    }

    /// A fresh column at screen column `x`: head at the top, speed drawn
    /// from 1..=3, length from 5..=15, fifteen random glyphs.
    #[verifier::loop_isolation(false)]
    pub fn new(x: u16, _height: u16) -> (r: MatrixColumn)
        ensures
            r.wf(),
            r.x == x,
            r.y == 0,
    {
        let speed = random_range_u8(1, 3);
        let length = random_range_u8(5, 15);
        let mut characters: Vec<char> = Vec::new();
        let mut i: usize = 0;
        while i < 15
            invariant
                i <= 15,
                characters@.len() == i,
                forall|j: int|
                    0 <= j < i ==> rain_alphabet().contains(#[trigger] characters@[j]),
            decreases 15 - i,
        {
            characters.push(random_symbol());
            i = i + 1;
        }
        MatrixColumn { x, y: 0, speed, length, characters }
    }

    /// One tick: the head falls by `speed`; the moment it passes
    /// `height + length` it resets to the top with a fresh speed and length
    /// in their ranges and the first three trail glyphs redrawn, and the
    /// remaining glyphs kept.
    #[verifier::loop_isolation(false)]
    pub fn update(&mut self, height: u16)
        requires
            old(self).wf(),
            height <= HEIGHT_MAX,
        ensures
            final(self).wf(),
            final(self).x == old(self).x,
            ({
                let moved = old(self).y + old(self).speed;
                if moved > height + old(self).length {
                    &&& final(self).y == 0
                    &&& forall|i: int|
                        0 <= i < 3 ==> rain_alphabet().contains(
                            #[trigger] final(self).characters@[i],
                        )
                    &&& forall|i: int|
                        3 <= i < 15 ==> final(self).characters@[i] == old(self).characters@[i]
                } else {
                    &&& final(self).y == moved
                    &&& final(self).speed == old(self).speed
                    &&& final(self).length == old(self).length
                    &&& final(self).characters@ == old(self).characters@
                }
            }),
    {
        self.y = self.y + self.speed as u16;
        if self.y > height + self.length as u16 {
            self.y = 0;
            self.speed = random_range_u8(1, 3);
            self.length = random_range_u8(5, 15);
            let mut i: usize = 0;
            while i < 3
                invariant
                    i <= 3,
                    self.x == old(self).x,
                    self.y == 0,
                    1 <= self.speed <= 3,
                    5 <= self.length <= 15,
                    self.characters@.len() == 15,
                    forall|j: int|
                        0 <= j < i ==> rain_alphabet().contains(#[trigger] self.characters@[j]),
                    forall|j: int|
                        i <= j < 15 ==> self.characters@[j] == old(self).characters@[j],
                decreases 3 - i,
            {
                self.characters[i] = random_symbol();
                i = i + 1;
            }
        }
    }
}

/// The trail color at offset `i` of a trail of length `len`: the head is
/// white, and the rest falls into three green intensity tiers by the ratio
/// `i / len` (brighter nearer the head).
pub open spec fn trail_color(i: int, len: int) -> Color {
    if i == 0 {
        Color::White
    } else if 10 * i < 3 * len {
        Color::Rgb(0, 255, 0)
    } else if 10 * i < 7 * len {
        Color::Rgb(0, 180, 0)
    } else {
        Color::Rgb(0, 100, 0)
    }
}

/// A row of `w` spaces with `ch` at column `x`.
pub open spec fn row_with_char(w: nat, x: int, ch: char) -> Seq<char> {
    spaces(w).update(x, ch)
}

/// One column painted over a buffer of rows: a column wholly right of the
/// area changes nothing; otherwise every row the trail reaches (the head's
/// row up to `length - 1` rows above it, clipped to the area) becomes a
/// blank row with the trail glyph at the column's x, colored by its offset
/// from the head. Rows the trail does not reach keep what was there.
pub open spec fn apply_column(
    buf: Seq<(Seq<char>, Option<Color>)>,
    c: MatrixColumn,
    w: nat,
) -> Seq<(Seq<char>, Option<Color>)> {
    if c.x >= w {
        buf
    } else {
        Seq::new(
            buf.len(),
            |r: int|
                if c.y - c.length < r <= c.y {
                    (
                        row_with_char(w, c.x as int, c.characters@[c.y - r]),
                        Some(trail_color(c.y - r, c.length as int)),
                    )
                } else {
                    buf[r]
                },
        )
    }
}

/// The whole frame: a blank buffer with every column painted over it in
/// order (a later column wins where two overlap).
pub open spec fn rain_rows(cols: Seq<MatrixColumn>, w: nat, h: nat) -> Seq<
    (Seq<char>, Option<Color>),
>
    decreases cols.len(),
{
    if cols.len() == 0 {
        Seq::new(h, |r: int| (spaces(w), None::<Color>))
    } else {
        apply_column(rain_rows(cols.drop_last(), w, h), cols.last(), w)
    }
}

/// How many columns a width gets: one per two cells, rounded up.
pub open spec fn expected_columns(width: u16) -> int {
    (width + 1) / 2
}

/// The rain simulation: one independent column every two cells.
pub struct MatrixRain {
    pub columns: Vec<MatrixColumn>,
}

impl MatrixRain {
    pub open spec fn wf(&self) -> bool {
        forall|i: int| 0 <= i < self.columns@.len() ==> (#[trigger] self.columns@[i]).wf()
    }

    /// A fresh simulation for a `width`-cell-wide area: columns at x = 0, 2,
    /// 4, ..., all heads at the top.
    #[verifier::loop_isolation(false)]
    pub fn new(width: u16, height: u16) -> (r: MatrixRain)
        ensures
            r.wf(),
            r.columns@.len() == expected_columns(width),
            forall|i: int|
                0 <= i < r.columns@.len() ==> (#[trigger] r.columns@[i]).x == 2 * i
                    && r.columns@[i].y == 0,
    {
        let mut columns: Vec<MatrixColumn> = Vec::new();
        let mut x: usize = 0;
        while x < width as usize
            invariant
                x % 2 == 0,
                x <= width + 1,
                columns@.len() == x / 2,
                forall|i: int|
                    0 <= i < columns@.len() ==> (#[trigger] columns@[i]).wf() && columns@[i].x == 2
                        * i && columns@[i].y == 0,
            decreases width + 2 - x,
        {
            columns.push(MatrixColumn::new(x as u16, height));
            x = x + 2;
        }
        MatrixRain { columns }
    }

    /// One tick: when the width's expected column count changed, the whole
    /// field is regenerated for the new width first (columns back at x = 0,
    /// 2, 4, ...); then every column falls one step (a fresh column thus ends
    /// its own speed below the top).
    #[verifier::loop_isolation(false)]
    pub fn update(&mut self, width: u16, height: u16)
        requires
            old(self).wf(),
            height <= HEIGHT_MAX,
        ensures
            final(self).wf(),
            final(self).columns@.len() == expected_columns(width),
            old(self).columns@.len() == expected_columns(width) ==> forall|i: int|
                0 <= i < final(self).columns@.len() ==> col_step(
                    old(self).columns@[i],
                    #[trigger] final(self).columns@[i],
                    height,
                ),
            old(self).columns@.len() != expected_columns(width) ==> forall|i: int|
                0 <= i < final(self).columns@.len() ==> {
                    &&& (#[trigger] final(self).columns@[i]).x == 2 * i
                    &&& final(self).columns@[i].y == final(self).columns@[i].speed
                },
    {
        let expected = (width as usize + 1) / 2;
        let ghost regenerated = old(self).columns@.len() != expected_columns(width);
        if self.columns.len() != expected {
            let fresh = MatrixRain::new(width, height);
            self.columns = fresh.columns;
        }
        let ghost before = self.columns@;
        proof {
            if regenerated {
                assert(forall|i: int|
                    0 <= i < before.len() ==> (#[trigger] before[i]).x == 2 * i && before[i].y
                        == 0);
            }
        }
        let mut k: usize = 0;
        while k < self.columns.len()
            invariant
                self.columns@.len() == before.len(),
                k <= before.len(),
                height <= HEIGHT_MAX,
                forall|i: int| 0 <= i < before.len() ==> (#[trigger] before[i]).wf(),
                forall|i: int|
                    k <= i < before.len() ==> #[trigger] self.columns@[i] == before[i],
                forall|i: int|
                    0 <= i < k ==> (#[trigger] self.columns@[i]).wf() && col_step(
                        before[i],
                        self.columns@[i],
                        height,
                    ),
            decreases before.len() - k,
        {
            let column = &mut self.columns[k];
            column.update(height);
            k = k + 1;
        }
        proof {
            if regenerated {
                assert forall|i: int| 0 <= i < self.columns@.len() implies (#[trigger] self
                    .columns@[i]).x == 2 * i && self.columns@[i].y == self.columns@[i].speed by {
                    assert(col_step(before[i], self.columns@[i], height));
                    assert(before[i].y == 0 && before[i].x == 2 * i);
                    assert(before[i].y + before[i].speed <= height + before[i].length);
                }
            }
        }
    }

    /// The frame: every column's trail painted in order over a blank buffer.
    #[verifier::loop_isolation(false)]
    pub fn render(&self, area: Rect) -> (r: Vec<TextLine>)
        requires
            self.wf(),
        ensures
            r@.len() == area.height,
            r@.map_values(|l: TextLine| (l.content@, l.color)) == rain_rows(
                self.columns@,
                area.width as nat,
                area.height as nat,
            ),
    {
        let w = area.width as usize;
        let mut lines: Vec<TextLine> = blank(w, area.height as usize);
        proof {
            assert(lines@.map_values(|l: TextLine| (l.content@, l.color)) =~~= rain_rows(
                self.columns@.take(0),
                area.width as nat,
                area.height as nat,
            ));
        }
        let mut k: usize = 0;
        while k < self.columns.len()
            invariant
                k <= self.columns@.len(),
                self.wf(),
                w == area.width,
                lines@.len() == area.height,
                lines@.map_values(|l: TextLine| (l.content@, l.color)) == rain_rows(
                    self.columns@.take(k as int),
                    area.width as nat,
                    area.height as nat,
                ),
            decreases self.columns@.len() - k,
        {
            let ghost prev = lines@.map_values(|l: TextLine| (l.content@, l.color));
            let column = &self.columns[k];
            if column.x < area.width {
                let mut i: usize = 0;
                let trail = column.length as usize;
                while i < trail
                    invariant
                        i <= trail,
                        trail == column.length,
                        column.wf(),
                        column == self.columns@[k as int],
                        0 <= k < self.columns@.len(),
                        self.wf(),
                        column.x < area.width,
                        w == area.width,
                        lines@.len() == area.height,
                        prev.len() == area.height,
                        prev == rain_rows(
                            self.columns@.take(k as int),
                            area.width as nat,
                            area.height as nat,
                        ),
                        forall|r: int|
                            0 <= r < area.height ==> #[trigger] row_view(lines@, r) =~~= (
                            if column.y - i < r <= column.y {
                                (
                                    row_with_char(
                                        area.width as nat,
                                        column.x as int,
                                        column.characters@[column.y - r],
                                    ),
                                    Some(trail_color(column.y - r, column.length as int)),
                                )
                            } else {
                                prev[r]
                            }),
                    decreases trail - i,
                {
                    let ghost lines_at_top = lines@;
                    let ch = column.characters[i];
                    if column.y as usize >= i {
                        let char_y = column.y as usize - i;
                        if char_y < area.height as usize {
                            let mut content = repeat_char(' ', column.x as usize);
                            push_char(&mut content, ch);
                            let mut right = repeat_char(' ', w - column.x as usize - 1);
                            content.append(right.as_str());
                            proof {
                                assert(content@ =~= row_with_char(
                                    area.width as nat,
                                    column.x as int,
                                    ch,
                                ));
                            }
                            let color = if i == 0 {
                                Color::White
                            } else if 10 * (i as u64) < 3 * (column.length as u64) {
                                Color::Rgb(0, 255, 0)
                            } else if 10 * (i as u64) < 7 * (column.length as u64) {
                                Color::Rgb(0, 180, 0)
                            } else {
                                Color::Rgb(0, 100, 0)
                            };
                            lines[char_y] = TextLine { content, color: Some(color) };
                        }
                    }
                    proof {
                        assert forall|r: int| 0 <= r < area.height implies #[trigger] row_view(
                            lines@,
                            r,
                        ) =~~= (if column.y - (i + 1) < r <= column.y {
                            (
                                row_with_char(
                                    area.width as nat,
                                    column.x as int,
                                    column.characters@[column.y - r],
                                ),
                                Some(trail_color(column.y - r, column.length as int)),
                            )
                        } else {
                            prev[r]
                        }) by {
                            let rv_before = row_view(lines_at_top, r);
                            if r == column.y - i {
                                assert(column.y as int - i >= 0);
                                assert(row_view(lines@, r) =~~= (
                                    row_with_char(
                                        area.width as nat,
                                        column.x as int,
                                        column.characters@[i as int],
                                    ),
                                    Some(trail_color(i as int, column.length as int)),
                                ));
                            }
                        }
                    }
                    i = i + 1;
                }
                proof {
                    let cur = lines@.map_values(|l: TextLine| (l.content@, l.color));
                    let painted = apply_column(prev, self.columns@[k as int], area.width as nat);
                    assert forall|r: int| 0 <= r < area.height implies cur[r] =~~= painted[r] by {
                        let rv = row_view(lines@, r);
                    }
                    assert(cur =~~= painted);
                }
            }
            k = k + 1;
            proof {
                assert(self.columns@.take(k as int).drop_last() =~= self.columns@.take(k - 1));
                assert(lines@.map_values(|l: TextLine| (l.content@, l.color)) =~~= rain_rows(
                    self.columns@.take(k as int),
                    area.width as nat,
                    area.height as nat,
                ));
            }
        }
        proof {
            assert(self.columns@.take(self.columns@.len() as int) =~= self.columns@);
        }
        lines
    }
}

/// The deterministic part of one column step (the head's move or reset and
/// what is kept), stated over an old and a new column.
pub open spec fn col_step(o: MatrixColumn, n: MatrixColumn, height: u16) -> bool {
    let moved = o.y + o.speed;
    &&& n.x == o.x
    &&& if moved > height + o.length {
        &&& n.y == 0
        &&& 1 <= n.speed <= 3
        &&& 5 <= n.length <= 15
        &&& forall|i: int| 0 <= i < 3 ==> rain_alphabet().contains(#[trigger] n.characters@[i])
        &&& forall|i: int| 3 <= i < 15 ==> n.characters@[i] == o.characters@[i]
    } else {
        &&& n.y == moved
        &&& n.speed == o.speed
        &&& n.length == o.length
        &&& n.characters@ == o.characters@
    }
}

/// A row of the buffer as its content/color pair.
pub open spec fn row_view(lines: Seq<TextLine>, r: int) -> (Seq<char>, Option<Color>) {
    (lines[r].content@, lines[r].color)
}

} // verus!

//! The character-grid canvas: colored rows of text, the rectangle a feature
//! renders into, and the shared compositing primitives (blank buffers,
//! centering, panel overlay, flush-time clipping).

use vstd::prelude::*;

verus! {

use vstd::math::min;

/// A foreground color for a row or a cell. `Rgb` carries an exact
/// red/green/blue triple; the other variants name the terminal palette.
#[derive(Clone, Copy, PartialEq, Eq, Structural, Debug)]
pub enum Color {
    Black,
    White,
    Green,
    Cyan,
    Yellow,
    Magenta,
    Red,
    Blue,
    Gray,
    DarkGray,
    Rgb(u8, u8, u8),
}

/// One character cell: its glyph and its foreground color.
#[derive(Clone, Copy, PartialEq, Eq, Structural, Debug)]
pub struct Cell {
    pub ch: char,
    pub color: Color,
}

/// One row of output: its text and an optional foreground color
/// (`None` means the caller's default color).
#[derive(Clone)]
pub struct TextLine {
    pub content: String,
    pub color: Option<Color>,
}

impl TextLine {
    /// An uncolored row.
    pub fn new(content: String) -> (r: TextLine)
        ensures
            r.content@ == content@,
            r.color is None,
    {
        TextLine { content, color: None }
    }

    /// A row with a foreground color.
    pub fn with_color(content: String, color: Color) -> (r: TextLine)
        ensures
            r.content@ == content@,
            r.color == Some(color),
    {
        TextLine { content, color: Some(color) }
    }
}

/// The rectangular region a feature must fill, in character cells,
/// origin at the top left.
#[derive(Clone, Copy, PartialEq, Eq, Structural, Debug)]
pub struct Rect {
    pub x: u16,
    pub y: u16,
    pub width: u16,
    pub height: u16,
}

impl Rect {
    pub fn new(x: u16, y: u16, width: u16, height: u16) -> (r: Rect)
        ensures
            r == (Rect { x, y, width, height }),
    {
        Rect { x, y, width, height }
    }

    pub fn from_size(width: u16, height: u16) -> (r: Rect)
        ensures
            r == (Rect { x: 0, y: 0, width, height }),
    {
        Rect::new(0, 0, width, height)
    }
}

/// `n` space characters.
pub open spec fn spaces(n: nat) -> Seq<char> {
    Seq::new(n, |i: int| ' ')
}

/// The left padding centering uses: floor((width - len) / 2) when the text
/// fits, and none at all when it does not.
pub open spec fn center_padding(len: nat, width: nat) -> nat {
    if len < width {
        ((width - len) / 2) as nat
    } else {
        0
    }
}

/// A text centered in `width` columns: padded on the left only, and emitted
/// unpadded when it is at least as wide as the region.
pub open spec fn centered(t: Seq<char>, width: nat) -> Seq<char> {
    spaces(center_padding(t.len(), width)) + t
}

/// Appends one character.
///
/// Relies on `String::push`: appends the given `char` to the end of the
/// string.
#[verifier::external_body]
pub(crate) fn push_char(s: &mut String, c: char)
    ensures
        final(s)@ == old(s)@.push(c),
{
    s.push(c)
}

/// A string of `n` copies of `c`.
pub fn repeat_char(c: char, n: usize) -> (r: String)
    ensures
        r@ == Seq::new(n as nat, |i: int| c),
{
    let mut s = String::new();
    let mut i: usize = 0;
    while i < n
        invariant
            i <= n,
            s@ == Seq::new(i as nat, |j: int| c),
        decreases n - i,
    {
        push_char(&mut s, c);
        i = i + 1;
        proof {
            assert(s@ =~= Seq::new(i as nat, |j: int| c));
        }
    }
    s
}

/// Centers `text` in `width` columns by prepending
/// `(width - text.len()) / 2` spaces; a text that is as wide as the region
/// or wider is returned unpadded.
pub fn center_text(text: &str, width: usize) -> (r: String)
    ensures
        r@ == centered(text@, width as nat),
        text@.len() <= width ==> r@.len() <= width,
{
    let len = text.unicode_len();
    let padding: usize = if len < width {
        (width - len) / 2
    } else {
        0
    };
    let mut s = repeat_char(' ', padding);
    s.append(text);
    proof {
        assert(s@ =~= centered(text@, width as nat));
    }
    s
}

/// A blank buffer: `height` rows of `width` spaces, none of them colored.
/// Zero width or height gives an empty row or an empty buffer.
pub fn blank(width: usize, height: usize) -> (r: Vec<TextLine>)
    ensures
        r@.len() == height,
        forall|i: int| 0 <= i < height ==> {
            &&& (#[trigger] r@[i]).content@ == spaces(width as nat)
            &&& r@[i].color is None
        },
{
    let mut rows: Vec<TextLine> = Vec::new();
    let mut y: usize = 0;
    while y < height
        invariant
            y <= height,
            rows@.len() == y,
            forall|i: int| 0 <= i < y ==> {
                &&& (#[trigger] rows@[i]).content@ == spaces(width as nat)
                &&& rows@[i].color is None
            },
        decreases height - y,
    {
        rows.push(TextLine::new(repeat_char(' ', width)));
        y = y + 1;
    }
    rows
}

/// Replaces row `row` of the buffer with `text` centered in `width` columns,
/// carrying the given color; every other row is untouched.
pub fn write_centered(
    buffer: &mut Vec<TextLine>,
    text: &str,
    row: usize,
    width: usize,
    color: Option<Color>,
)
    requires
        row < old(buffer)@.len(),
    ensures
        final(buffer)@.len() == old(buffer)@.len(),
        final(buffer)@[row as int].content@ == centered(text@, width as nat),
        text@.len() <= width ==> final(buffer)@[row as int].content@.len() <= width,
        final(buffer)@[row as int].color == color,
        forall|i: int|
            0 <= i < old(buffer)@.len() && i != row ==> final(buffer)@[i] == old(buffer)@[i],
{
    let content = center_text(text, width);
    buffer[row] = TextLine { content, color };
}

/// A base row with `panel` written over it, character for character, starting
/// at column `x`: the base is padded with spaces up to the panel's start and
/// end where it is shorter, and keeps its own characters everywhere outside
/// the panel's columns.
pub open spec fn overlay_row(base: Seq<char>, panel: Seq<char>, x: nat) -> Seq<char> {
    let len = if base.len() >= x + panel.len() {
        base.len()
    } else {
        x + panel.len()
    };
    Seq::new(
        len,
        |i: int|
            if x <= i < x + panel.len() {
                panel[i - x]
            } else if i < base.len() {
                base[i]
            } else {
                ' '
            },
    )
}

fn overlay_row_exec(base: &str, panel: &str, x: usize) -> (r: String)
    requires
        x + panel@.len() <= usize::MAX,
    ensures
        r@ == overlay_row(base@, panel@, x as nat),
{
    let base_len = base.unicode_len();
    let panel_len = panel.unicode_len();
    let target: usize = if base_len >= x + panel_len {
        base_len
    } else {
        x + panel_len
    };
    let mut s = String::new();
    let mut i: usize = 0;
    while i < target
        invariant
            i <= target,
            target == overlay_row(base@, panel@, x as nat).len(),
            base_len == base@.len(),
            panel_len == panel@.len(),
            x + panel_len <= usize::MAX,
            target == if base_len >= x + panel_len { base_len as int } else { x + panel_len },
            s@ == overlay_row(base@, panel@, x as nat).take(i as int),
        decreases target - i,
    {
        let c: char = if x <= i && i < x + panel_len {
            panel.get_char(i - x)
        } else if i < base_len {
            base.get_char(i)
        } else {
            ' '
        };
        push_char(&mut s, c);
        i = i + 1;
        proof {
            assert(s@ =~= overlay_row(base@, panel@, x as nat).take(i as int));
        }
    }
    proof {
        assert(s@ =~= overlay_row(base@, panel@, x as nat));
    }
    s
}

/// The width of a panel: the length of its longest row.
pub open spec fn panel_width(panel: Seq<Seq<char>>) -> nat
    decreases panel.len(),
{
    if panel.len() == 0 {
        0
    } else {
        let rest = panel_width(panel.drop_last());
        if panel.last().len() >= rest {
            panel.last().len()
        } else {
            rest
        }
    }
}

/// No row of a panel is longer than the panel's width.
pub proof fn lemma_panel_width_bound(panel: Seq<Seq<char>>, j: int)
    requires
        0 <= j < panel.len(),
    ensures
        panel[j].len() <= panel_width(panel),
    decreases panel.len(),
{
    if j == panel.len() - 1 {
    } else {
        lemma_panel_width_bound(panel.drop_last(), j);
    }
}

/// Merges a secondary block of rows onto the buffer at column `anchor_x`,
/// row `anchor_y`. When the panel's column range would run past `width`,
/// the buffer is left exactly as it was.
pub fn overlay_panel(
    buffer: &mut Vec<TextLine>,
    panel: &Vec<TextLine>,
    anchor_x: usize,
    anchor_y: usize,
    width: usize,
)
    requires
        anchor_y + panel@.len() <= usize::MAX,
    ensures
        final(buffer)@.len() == old(buffer)@.len(),
        anchor_x + panel_width(panel@.map_values(|l: TextLine| l.content@)) > width
            ==> final(buffer)@ == old(buffer)@,
        anchor_x + panel_width(panel@.map_values(|l: TextLine| l.content@)) <= width ==> forall|
            i: int,
        |
            0 <= i < old(buffer)@.len() ==> if anchor_y <= i < anchor_y + panel@.len() {
                &&& (#[trigger] final(buffer)@[i]).content@ == overlay_row(
                    old(buffer)@[i].content@,
                    panel@[i - anchor_y].content@,
                    anchor_x as nat,
                )
                &&& final(buffer)@[i].color == panel@[i - anchor_y].color
            } else {
                final(buffer)@[i] == old(buffer)@[i]
            },
{
    let ghost panel_views = panel@.map_values(|l: TextLine| l.content@);
    let mut pw: usize = 0;
    let mut j: usize = 0;
    while j < panel.len()
        invariant
            j <= panel@.len(),
            panel_views == panel@.map_values(|l: TextLine| l.content@),
            pw == panel_width(panel_views.take(j as int)),
        decreases panel@.len() - j,
    {
        let len = panel[j].content.as_str().unicode_len();
        if len > pw {
            pw = len;
        }
        j = j + 1;
        proof {
            assert(panel_views.take(j as int).drop_last() =~= panel_views.take(j - 1));
        }
    }
    proof {
        assert(panel_views.take(panel@.len() as int) =~= panel_views);
    }
    if anchor_x > width || pw > width - anchor_x {
        return ;
    }
    let mut j: usize = 0;
    while j < panel.len()
        invariant
            j <= panel@.len(),
            buffer@.len() == old(buffer)@.len(),
            anchor_y + panel@.len() <= usize::MAX,
            anchor_x + panel_width(panel@.map_values(|l: TextLine| l.content@)) <= width,
            forall|i: int|
                0 <= i < old(buffer)@.len() ==> if anchor_y <= i < anchor_y + j {
                    &&& (#[trigger] buffer@[i]).content@ == overlay_row(
                        old(buffer)@[i].content@,
                        panel@[i - anchor_y].content@,
                        anchor_x as nat,
                    )
                    &&& buffer@[i].color == panel@[i - anchor_y].color
                } else {
                    buffer@[i] == old(buffer)@[i]
                },
        decreases panel@.len() - j,
    {
        let row = anchor_y + j;
        if row < buffer.len() {
            proof {
                lemma_panel_width_bound(panel@.map_values(|l: TextLine| l.content@), j as int);
            }
            let merged = overlay_row_exec(
                buffer[row].content.as_str(),
                panel[j].content.as_str(),
                anchor_x,
            );
            buffer[row] = TextLine { content: merged, color: panel[j].color };
        }
        j = j + 1;
    }
}

/// Pads the buffer with empty uncolored rows, or drops rows from its end,
/// until it holds exactly `height` rows; the rows that survive are untouched.
pub fn fit_rows(buffer: &mut Vec<TextLine>, height: usize)
    ensures
        final(buffer)@.len() == height,
        forall|i: int|
            0 <= i < height && i < old(buffer)@.len() ==> final(buffer)@[i] == old(buffer)@[i],
        forall|i: int|
            old(buffer)@.len() <= i < height ==> (#[trigger] final(buffer)@[i]).content@
                == Seq::<char>::empty() && final(buffer)@[i].color is None,
{
    if buffer.len() > height {
        buffer.truncate(height);
        return ;
    }
    while buffer.len() < height
        invariant
            old(buffer)@.len() <= buffer@.len() <= height,
            forall|i: int| 0 <= i < old(buffer)@.len() ==> buffer@[i] == old(buffer)@[i],
            forall|i: int|
                old(buffer)@.len() <= i < buffer@.len() ==> (#[trigger] buffer@[i]).content@
                    == Seq::<char>::empty() && buffer@[i].color is None,
        decreases height - buffer@.len(),
    {
        buffer.push(TextLine::new(String::new()));
    }
}

/// Tracks the current terminal size and clips a frame to it before it is
/// flushed: at most `height` rows are kept, and every row is truncated to at
/// most `width` characters. Rows shorter than the width are left as they are.
pub struct SimpleRenderer {
    width: u16,
    height: u16,
}

impl SimpleRenderer {
    pub fn new(width: u16, height: u16) -> (r: SimpleRenderer)
        ensures
            r.get_size_spec() == (width, height),
    {
        SimpleRenderer { width, height }
    }

    pub closed spec fn get_size_spec(&self) -> (u16, u16) {
        (self.width, self.height)
    }

    pub fn get_size(&self) -> (r: (u16, u16))
        ensures
            r == self.get_size_spec(),
    {
        (self.width, self.height)
    }

    pub fn update_size(&mut self, width: u16, height: u16)
        ensures
            final(self).get_size_spec() == (width, height),
    {
        self.width = width;
        self.height = height;
    }

    /// The clipped frame: only the first `height` rows survive, and each row
    /// keeps only its first `width` characters.
    pub fn clip_lines(&self, lines: &Vec<TextLine>) -> (r: Vec<TextLine>)
        ensures
            r@.len() == min(lines@.len() as int, self.get_size_spec().1 as int),
            forall|i: int| 0 <= i < r@.len() ==> {
                &&& #[trigger] r@[i].content@ == lines@[i].content@.take(
                    min(lines@[i].content@.len() as int, self.get_size_spec().0 as int))
                &&& r@[i].color == lines@[i].color
            },
    {
        let mut out: Vec<TextLine> = Vec::new();
        let mut y: usize = 0;
        while y < lines.len() && y < self.height as usize
            invariant
                y <= lines@.len(),
                y <= self.height,
                out@.len() == y as int,
                forall|i: int| 0 <= i < y as int ==> {
                    &&& #[trigger] out@[i].content@ == lines@[i].content@.take(
                        min(lines@[i].content@.len() as int, self.width as int))
                    &&& out@[i].color == lines@[i].color
                },
            decreases lines@.len() - y,
        {
            let line = &lines[y];
            let len = line.content.as_str().unicode_len();
            let content = if len > self.width as usize {
                line.content.as_str().substring_char(0, self.width as usize).to_owned()
            } else {
                line.content.as_str().to_owned()
            };
            proof {
                assert(content@ =~= lines@[y as int].content@.take(
                    min(lines@[y as int].content@.len() as int, self.width as int)));
            }
            out.push(TextLine { content, color: line.color });
            y = y + 1;
        }
        out
    }
}

} // verus!

//! The text display: the configured welcome text, centered in the area (as a
//! single line or as a block of art rows), with a bordered help panel of key
//! bindings anchored to the right edge.

use vstd::prelude::*;

verus! {

use crate::canvas::Color;
use crate::canvas::TextLine;
use crate::canvas::centered;
use crate::canvas::center_text;
use crate::canvas::overlay_panel;
use crate::canvas::overlay_row;
use crate::canvas::panel_width;
use crate::canvas::push_char;
use crate::canvas::repeat_char;
use crate::canvas::spaces;
use crate::config::ActionConfig;
use crate::features::str_eq;
use crate::welcome::WelcomeMessageConfig;
use crate::welcome::WelcomeProvider;

/// An ASCII letter folded to upper case; every other character unchanged.
pub open spec fn upper_char(c: char) -> char {
    if c == 'a' {
        'A'
    } else if c == 'b' {
        'B'
    } else if c == 'c' {
        'C'
    } else if c == 'd' {
        'D'
    } else if c == 'e' {
        'E'
    } else if c == 'f' {
        'F'
    } else if c == 'g' {
        'G'
    } else if c == 'h' {
        'H'
    } else if c == 'i' {
        'I'
    } else if c == 'j' {
        'J'
    } else if c == 'k' {
        'K'
    } else if c == 'l' {
        'L'
    } else if c == 'm' {
        'M'
    } else if c == 'n' {
        'N'
    } else if c == 'o' {
        'O'
    } else if c == 'p' {
        'P'
    } else if c == 'q' {
        'Q'
    } else if c == 'r' {
        'R'
    } else if c == 's' {
        'S'
    } else if c == 't' {
        'T'
    } else if c == 'u' {
        'U'
    } else if c == 'v' {
        'V'
    } else if c == 'w' {
        'W'
    } else if c == 'x' {
        'X'
    } else if c == 'y' {
        'Y'
    } else if c == 'z' {
        'Z'
    } else {
        c
    }
}

pub open spec fn upper_text(t: Seq<char>) -> Seq<char> {
    t.map_values(|c: char| upper_char(c))
}

fn upper_char_exec(c: char) -> (r: char)
    ensures
        r == upper_char(c),
{
    match c {
        'a' => 'A',
        'b' => 'B',
        'c' => 'C',
        'd' => 'D',
        'e' => 'E',
        'f' => 'F',
        'g' => 'G',
        'h' => 'H',
        'i' => 'I',
        'j' => 'J',
        'k' => 'K',
        'l' => 'L',
        'm' => 'M',
        'n' => 'N',
        'o' => 'O',
        'p' => 'P',
        'q' => 'Q',
        'r' => 'R',
        's' => 'S',
        't' => 'T',
        'u' => 'U',
        'v' => 'V',
        'w' => 'W',
        'x' => 'X',
        'y' => 'Y',
        'z' => 'Z',
        _ => c,
    }
}

/// The text with its ASCII letters folded to upper case.
pub fn to_upper(s: &str) -> (r: String)
    ensures
        r@ == upper_text(s@),
{
    let len = s.unicode_len();
    let mut out = String::new();
    let mut i: usize = 0;
    while i < len
        invariant
            i <= len,
            len == s@.len(),
            out@ == upper_text(s@).take(i as int),
        decreases len - i,
    {
        push_char(&mut out, upper_char_exec(s.get_char(i)));
        i = i + 1;
        proof {
            assert(out@ =~= upper_text(s@).take(i as int));
        }
    }
    proof {
        assert(out@ =~= upper_text(s@));
    }
    out
}

/// The text split at every newline, as `str::split('\n')` splits it: an
/// empty text is one empty line, and a trailing newline opens one more
/// empty line.
pub open spec fn split_lines(t: Seq<char>) -> Seq<Seq<char>>
    decreases t.len(),
{
    if t.len() == 0 {
        seq![Seq::empty()]
    } else {
        let prev = split_lines(t.drop_last());
        if t.last() == '\n' {
            prev.push(Seq::empty())
        } else {
            prev.update(prev.len() - 1, prev.last().push(t.last()))
        }
    }
}

/// A split always yields at least one line.
pub proof fn lemma_split_lines_nonempty(t: Seq<char>)
    ensures
        split_lines(t).len() >= 1,
    decreases t.len(),
{
    if t.len() > 0 {
        lemma_split_lines_nonempty(t.drop_last());
    }
}

/// The text's lines, split at newlines.
#[verifier::loop_isolation(false)]
pub fn split_lines_exec(s: &str) -> (r: Vec<String>)
    ensures
        r@.map_values(|l: String| l@) == split_lines(s@),
{
    let len = s.unicode_len();
    let mut out: Vec<String> = Vec::new();
    out.push(String::new());
    let mut i: usize = 0;
    while i < len
        invariant
            i <= len,
            len == s@.len(),
            out@.len() >= 1,
            out@.map_values(|l: String| l@) == split_lines(s@.take(i as int)),
        decreases len - i,
    {
        let c = s.get_char(i);
        if c == '\n' {
            out.push(String::new());
        } else {
            let last = out.len() - 1;
            let target = &mut out[last];
            push_char(target, c);
        }
        i = i + 1;
        proof {
            assert(s@.take(i as int).drop_last() =~= s@.take(i - 1));
            lemma_split_lines_nonempty(s@.take(i - 1));
            assert(out@.map_values(|l: String| l@) =~~= split_lines(s@.take(i as int)));
        }
    }
    proof {
        assert(s@.take(len as int) =~= s@);
        assert(out@.map_values(|l: String| l@) =~~= split_lines(s@));
    }
    out
}

/// The text without its trailing blanks (spaces, tabs, line breaks).
pub open spec fn trim_end_text(t: Seq<char>) -> Seq<char>
    decreases t.len(),
{
    if t.len() > 0 && crate::welcome::is_blank_char(t.last()) {
        trim_end_text(t.drop_last())
    } else {
        t
    }
}

fn trim_end_exec(s: &str) -> (r: String)
    ensures
        r@ == trim_end_text(s@),
{
    let len = s.unicode_len();
    proof {
        assert(s@.take(len as int) =~= s@);
    }
    let mut end: usize = len;
    while end > 0
        invariant
            end <= len,
            len == s@.len(),
            trim_end_text(s@) == trim_end_text(s@.take(end as int)),
        ensures
            trim_end_text(s@) == s@.take(end as int),
        decreases end,
    {
        let c = s.get_char(end - 1);
        if c == ' ' || c == '\t' || c == '\n' || c == '\r' {
            proof {
                assert(s@.take(end as int).drop_last() =~= s@.take(end - 1));
                assert(s@.take(end as int).last() == c);
            }
            end = end - 1;
        } else {
            proof {
                assert(s@.take(end as int).last() == c);
                assert(trim_end_text(s@.take(end as int)) == s@.take(end as int));
            }
            break ;
        }
    }
    s.substring_char(0, end).to_owned()
}

/// One action's help line: its key upper-cased, a dash, its description.
pub open spec fn action_help(key: Seq<char>, description: Seq<char>) -> Seq<char> {
    upper_text(key) + " - "@ + description
}

/// The help panel's command lines: leaving the screensaver, one line per
/// configured action, and the action menu when there are any actions.
pub open spec fn help_commands(actions: Seq<ActionConfig>) -> Seq<Seq<char>> {
    let base = seq!["ESC - Exit screensaver"@] + actions.map_values(
        |a: ActionConfig| action_help(a.key@, a.description@),
    );
    if actions.len() > 0 {
        base.push("ENTER - Show action menu"@)
    } else {
        base
    }
}

#[verifier::loop_isolation(false)]
fn build_help_commands(actions: &Vec<ActionConfig>) -> (r: Vec<String>)
    ensures
        r@.map_values(|l: String| l@) == help_commands(actions@),
        r@.len() == help_commands(actions@).len(),
{
    let mut out: Vec<String> = Vec::new();
    out.push("ESC - Exit screensaver".to_owned());
    let mut k: usize = 0;
    while k < actions.len()
        invariant
            k <= actions@.len(),
            out@.len() == k + 1,
            out@.map_values(|l: String| l@) =~~= seq!["ESC - Exit screensaver"@] + actions@.take(
                k as int,
            ).map_values(|a: ActionConfig| action_help(a.key@, a.description@)),
        decreases actions@.len() - k,
    {
        let action = &actions[k];
        let mut cmd = to_upper(action.key.as_str());
        cmd.append(" - ");
        cmd.append(action.description.as_str());
        proof {
            assert(cmd@ =~= action_help(actions@[k as int].key@, actions@[k as int].description@));
        }
        let ghost out_before = out@;
        out.push(cmd);
        k = k + 1;
        proof {
            assert(actions@.take(k as int) =~= actions@.take(k - 1).push(actions@[k - 1]));
            let lhs = out@.map_values(|l: String| l@);
            let rhs = seq!["ESC - Exit screensaver"@] + actions@.take(k as int).map_values(
                |a: ActionConfig| action_help(a.key@, a.description@),
            );
            assert(lhs.len() == rhs.len());
            assert forall|j: int| 0 <= j < lhs.len() implies lhs[j] == rhs[j] by {
                if j == 0 {
                    assert(out@[0] == out_before[0]);
                    assert(out_before.map_values(|l: String| l@)[0] == out_before[0]@);
                } else if j < k {
                    assert(out@[j] == out_before[j]);
                    assert(out_before.map_values(|l: String| l@)[j] == out_before[j]@);
                    assert(actions@.take(k - 1).map_values(
                        |a: ActionConfig| action_help(a.key@, a.description@),
                    )[j - 1] == action_help(
                        actions@.take(k - 1)[j - 1].key@,
                        actions@.take(k - 1)[j - 1].description@,
                    ));
                    assert(actions@.take(k as int).map_values(
                        |a: ActionConfig| action_help(a.key@, a.description@),
                    )[j - 1] == action_help(
                        actions@.take(k as int)[j - 1].key@,
                        actions@.take(k as int)[j - 1].description@,
                    ));
                } else {
                    assert(actions@.take(k as int)[j - 1] == actions@[k - 1]);
                    assert(out@[j]@ == action_help(
                        actions@[k - 1].key@,
                        actions@[k - 1].description@,
                    ));
                }
            }
            assert(lhs =~~= rhs);
        }
    }
    proof {
        assert(actions@.take(actions@.len() as int) =~= actions@);
    }
    if actions.len() > 0 {
        out.push("ENTER - Show action menu".to_owned());
        proof {
            assert(out@.map_values(|l: String| l@) =~~= help_commands(actions@));
        }
    } else {
        proof {
            assert(out@.map_values(|l: String| l@) =~~= help_commands(actions@));
        }
    }
    out
}

/// Row `i` of the help panel, `pw` columns wide: a cyan border on the first
/// and last rows, and between them each command in yellow, set off by the
/// border and one space, padded to the right border.
pub open spec fn panel_row(cmds: Seq<Seq<char>>, pw: int, i: int) -> (Seq<char>, Option<Color>) {
    if i == 0 {
        (seq!['┌'] + Seq::new((pw - 2) as nat, |j: int| '─') + seq!['┐'], Some(Color::Cyan))
    } else if i == cmds.len() + 1 {
        (seq!['└'] + Seq::new((pw - 2) as nat, |j: int| '─') + seq!['┘'], Some(Color::Cyan))
    } else {
        (
            seq!['│', ' '] + cmds[i - 1] + spaces((pw - cmds[i - 1].len() - 3) as nat)
                + seq!['│'],
            Some(Color::Yellow),
        )
    }
}

/// The whole help panel: two rows more than there are commands, four columns
/// wider than the longest one.
pub open spec fn help_panel(cmds: Seq<Seq<char>>) -> Seq<(Seq<char>, Option<Color>)> {
    Seq::new((cmds.len() + 2) as nat, |i: int| panel_row(cmds, panel_width(cmds) as int + 4, i))
}

#[verifier::loop_isolation(false)]
fn build_help_panel(commands: &Vec<String>, pw: usize) -> (r: Vec<TextLine>)
    requires
        pw == panel_width(commands@.map_values(|l: String| l@)) + 4,
        pw <= 65535,
    ensures
        r@.map_values(|l: TextLine| (l.content@, l.color)) == help_panel(
            commands@.map_values(|l: String| l@),
        ),
        r@.len() == commands@.len() + 2,
{
    let ghost cmds = commands@.map_values(|l: String| l@);
    let mut out: Vec<TextLine> = Vec::new();

    let mut top = String::new();
    push_char(&mut top, '┌');
    let dashes = repeat_char('─', pw - 2);
    top.append(dashes.as_str());
    push_char(&mut top, '┐');
    proof {
        assert(top@ =~= panel_row(cmds, pw as int, 0).0);
    }
    out.push(TextLine::with_color(top, Color::Cyan));

    let mut k: usize = 0;
    while k < commands.len()
        invariant
            k <= commands@.len(),
            out@.len() == k + 1,
            cmds == commands@.map_values(|l: String| l@),
            pw == panel_width(cmds) + 4,
            pw <= 65535,
            forall|i: int|
                0 <= i < out@.len() ==> ((#[trigger] out@[i]).content@, out@[i].color)
                    == panel_row(cmds, pw as int, i),
        decreases commands@.len() - k,
    {
        let cmd = &commands[k];
        let cmd_len = cmd.as_str().unicode_len();
        proof {
            crate::canvas::lemma_panel_width_bound(cmds, k as int);
        }
        let mut row = String::new();
        push_char(&mut row, '│');
        push_char(&mut row, ' ');
        row.append(cmd.as_str());
        let pad = repeat_char(' ', pw - cmd_len - 3);
        row.append(pad.as_str());
        push_char(&mut row, '│');
        proof {
            assert(row@ =~= panel_row(cmds, pw as int, k + 1).0);
        }
        out.push(TextLine::with_color(row, Color::Yellow));
        k = k + 1;
    }

    let mut bottom = String::new();
    push_char(&mut bottom, '└');
    let dashes2 = repeat_char('─', pw - 2);
    bottom.append(dashes2.as_str());
    push_char(&mut bottom, '┘');
    proof {
        assert(bottom@ =~= panel_row(cmds, pw as int, cmds.len() as int + 1).0);
    }
    out.push(TextLine::with_color(bottom, Color::Cyan));
    proof {
        assert(out@.map_values(|l: TextLine| (l.content@, l.color)) =~~= help_panel(cmds));
    }
    out
}

/// Whether a text is treated as a block of art: more than one line, at least
/// one of them over twenty characters wide.
pub open spec fn is_ascii_art(tls: Seq<Seq<char>>) -> bool {
    tls.len() > 1 && exists|i: int| 0 <= i < tls.len() && (#[trigger] tls[i]).len() > 20
}

/// The columns the main text may use: up to the help panel (with one column
/// of air) when the panel is shown, the whole width otherwise.
pub open spec fn avail_width(width: int, show_help: bool, help_x: int) -> int {
    if help_x > 0 && show_help {
        help_x - 2
    } else {
        width
    }
}

/// Whether row `y` is covered by the help panel.
pub open spec fn in_help_area(show_help: bool, help_h: int, help_x: int, y: int) -> bool {
    show_help && y < help_h && help_x > 0
}

/// An empty uncolored row.
pub open spec fn empty_row() -> (Seq<char>, Option<Color>) {
    (Seq::empty(), None)
}

/// What the main text alone puts on row `y` (before the help panel is laid
/// over the buffer). A block of art is centered vertically, each row trimmed
/// of trailing blanks and centered in the columns it may use; a row too wide
/// for the panel's company takes the whole width instead (and yields to the
/// panel on the panel's own rows). A single-line text is centered on the
/// middle row. Everything the text does not reach is empty.
pub open spec fn main_row(
    text: Seq<char>,
    width: int,
    height: int,
    show_help: bool,
    help_x: int,
    help_h: int,
    y: int,
) -> (Seq<char>, Option<Color>) {
    let tls = split_lines(text);
    if is_ascii_art(tls) {
        let n = tls.len() as int;
        let start = if height >= n {
            (height - n) / 2
        } else {
            0
        };
        if start <= y < start + n {
            let line = trim_end_text(tls[y - start]);
            if show_help && line.len() > width * 2 / 3 {
                if in_help_area(show_help, help_h, help_x, y) {
                    empty_row()
                } else if line.len() < width {
                    (centered(line, width as nat), Some(Color::Green))
                } else {
                    (line, Some(Color::Green))
                }
            } else {
                let avail = avail_width(width, show_help, help_x);
                if line.len() < avail {
                    (centered(line, avail as nat), Some(Color::Green))
                } else {
                    empty_row()
                }
            }
        } else {
            empty_row()
        }
    } else {
        if y == height / 2 {
            let line = tls[0];
            let avail = avail_width(width, show_help, help_x);
            if line.len() < avail {
                (centered(line, avail as nat), Some(Color::Green))
            } else {
                empty_row()
            }
        } else {
            empty_row()
        }
    }
}

/// Row `i` of a buffer with a panel laid over its top rows at column `x`.
pub open spec fn paneled_row(
    buf: Seq<(Seq<char>, Option<Color>)>,
    panel: Seq<(Seq<char>, Option<Color>)>,
    x: int,
    i: int,
) -> (Seq<char>, Option<Color>) {
    if 0 <= i < panel.len() {
        (overlay_row(buf[i].0, panel[i].0, x as nat), panel[i].1)
    } else {
        buf[i]
    }
}

/// A buffer with a panel laid over its top rows at column `x`.
pub open spec fn apply_panel(
    buf: Seq<(Seq<char>, Option<Color>)>,
    panel: Seq<(Seq<char>, Option<Color>)>,
    x: int,
) -> Seq<(Seq<char>, Option<Color>)> {
    Seq::new(buf.len(), |i: int| paneled_row(buf, panel, x, i))
}

/// The whole text display: the main text's rows, and, when the help panel is
/// shown and the area is wide enough for it (strictly wider than the panel
/// plus two columns), the panel laid over the top right corner, its right
/// border one column short of the area's right edge.
pub open spec fn text_display_rows(
    text: Seq<char>,
    actions: Seq<ActionConfig>,
    width: int,
    height: int,
    show_help: bool,
) -> Seq<(Seq<char>, Option<Color>)> {
    let cmds = help_commands(actions);
    let help_w = panel_width(cmds) + 4;
    let help_h = if show_help {
        cmds.len() + 2
    } else {
        0
    };
    let help_x = if show_help {
        if width > help_w + 2 {
            width - help_w - 1
        } else {
            0
        }
    } else {
        width
    };
    let main = Seq::new(
        height as nat,
        |y: int| main_row(text, width, height, show_help, help_x, help_h as int, y),
    );
    if show_help && help_x > 0 {
        apply_panel(main, help_panel(cmds), help_x)
    } else {
        main
    }
}

/// A nonempty set of rows that all have one length has that length as its
/// width.
pub proof fn lemma_panel_width_uniform(rows: Seq<Seq<char>>, len: int)
    requires
        rows.len() > 0,
        forall|i: int| 0 <= i < rows.len() ==> (#[trigger] rows[i]).len() == len,
    ensures
        panel_width(rows) == len,
    decreases rows.len(),
{
    if rows.len() > 1 {
        assert forall|i: int|
            0 <= i < rows.drop_last().len() implies (#[trigger] rows.drop_last()[i]).len()
            == len by {
            assert(rows.drop_last()[i] == rows[i]);
        }
        lemma_panel_width_uniform(rows.drop_last(), len);
    } else {
        assert(rows.drop_last().len() == 0);
        assert(panel_width(rows.drop_last()) == 0);
        assert(rows.last() == rows[0]);
        assert(rows[0].len() == len);
    }
}

/// Every row of a help panel is as wide as the panel: the longest command
/// plus four.
pub proof fn lemma_help_panel_row_len(cmds: Seq<Seq<char>>, i: int)
    requires
        0 <= i < cmds.len() + 2,
    ensures
        help_panel(cmds)[i].0.len() == panel_width(cmds) + 4,
{
    if 1 <= i <= cmds.len() {
        crate::canvas::lemma_panel_width_bound(cmds, i - 1);
    }
}

/// The text display frame for one render: `height` rows composed as
/// `text_display_rows` says.
#[verifier::loop_isolation(false)]
#[verifier::rlimit(100)]
pub fn create_text_display(
    text: &str,
    actions: &Vec<ActionConfig>,
    width: u16,
    height: u16,
    show_help: bool,
) -> (r: Vec<TextLine>)
    ensures
        r@.len() == height,
        r@.map_values(|l: TextLine| (l.content@, l.color)) == text_display_rows(
            text@,
            actions@,
            width as int,
            height as int,
            show_help,
        ),
{
    let commands = build_help_commands(actions);
    let ghost cmds = help_commands(actions@);

    let mut pwc: usize = 0;
    let mut j: usize = 0;
    while j < commands.len()
        invariant
            j <= commands@.len(),
            cmds == commands@.map_values(|l: String| l@),
            pwc == panel_width(cmds.take(j as int)),
        decreases commands@.len() - j,
    {
        let len = commands[j].as_str().unicode_len();
        if len > pwc {
            pwc = len;
        }
        j = j + 1;
        proof {
            assert(cmds.take(j as int).drop_last() =~= cmds.take(j - 1));
        }
    }
    proof {
        assert(cmds.take(cmds.len() as int) =~= cmds);
    }

    let w = width as usize;
    let h = height as usize;
    let show_panel = show_help && w >= 7 && pwc <= w - 7;
    let help_x: usize = if show_panel {
        w - pwc - 5
    } else if show_help {
        0
    } else {
        w
    };
    let ghost help_h: int = if show_help {
        cmds.len() as int + 2
    } else {
        0int
    };

    let tls = split_lines_exec(text);
    let ghost tls_spec = split_lines(text@);
    let n = tls.len();

    let mut any_wide = false;
    let mut j: usize = 0;
    while j < n
        invariant
            j <= n,
            n == tls_spec.len(),
            tls@.map_values(|l: String| l@) == tls_spec,
            any_wide == exists|i: int| 0 <= i < j && (#[trigger] tls_spec[i]).len() > 20,
        decreases n - j,
    {
        proof {
            assert(tls@.map_values(|l: String| l@)[j as int] == tls@[j as int]@);
        }
        if tls[j].as_str().unicode_len() > 20 {
            any_wide = true;
            proof {
                assert(tls_spec[j as int].len() > 20);
            }
        }
        j = j + 1;
    }
    let art = n > 1 && any_wide;
    proof {
        assert(art == is_ascii_art(tls_spec));
    }

    let start: usize = if art && h >= n {
        (h - n) / 2
    } else {
        0
    };

    let mut rows: Vec<TextLine> = Vec::new();
    let mut y: usize = 0;
    while y < h
        invariant
            y <= h,
            rows@.len() == y,
            n == tls_spec.len(),
            n == tls@.len(),
            tls@.map_values(|l: String| l@) == tls_spec,
            art == is_ascii_art(tls_spec),
            w == width,
            h == height,
            show_panel ==> help_x >= 2,
            start == (if art && h >= n {
                (h - n) / 2
            } else {
                0int
            }),
            forall|i: int|
                0 <= i < y ==> ((#[trigger] rows@[i]).content@, rows@[i].color) == main_row(
                    text@,
                    w as int,
                    h as int,
                    show_help,
                    help_x as int,
                    help_h,
                    i,
                ),
        decreases h - y,
    {
        if art && y >= start && y < start + n {
            proof {
                assert(tls@.map_values(|l: String| l@)[y - start] == tls@[y - start]@);
            }
            let line = trim_end_exec(tls[y - start].as_str());
            let line_len = line.as_str().unicode_len();
            if show_help && line_len > w * 2 / 3 {
                if (y < 2 || commands.len() > y - 2) && help_x > 0 {
                    rows.push(TextLine::new(String::new()));
                } else if line_len < w {
                    rows.push(TextLine::with_color(center_text(line.as_str(), w), Color::Green));
                } else {
                    rows.push(TextLine::with_color(line, Color::Green));
                }
            } else {
                let avail: usize = if help_x > 0 && show_help {
                    help_x - 2
                } else {
                    w
                };
                if line_len < avail {
                    rows.push(
                        TextLine::with_color(center_text(line.as_str(), avail), Color::Green),
                    );
                } else {
                    rows.push(TextLine::new(String::new()));
                }
            }
        } else if !art && y == h / 2 {
            proof {
                lemma_split_lines_nonempty(text@);
                assert(tls@.map_values(|l: String| l@)[0] == tls@[0]@);
            }
            let line = &tls[0];
            let line_len = line.as_str().unicode_len();
            let avail: usize = if help_x > 0 && show_help {
                help_x - 2
            } else {
                w
            };
            if line_len < avail {
                rows.push(TextLine::with_color(center_text(line.as_str(), avail), Color::Green));
            } else {
                rows.push(TextLine::new(String::new()));
            }
        } else {
            rows.push(TextLine::new(String::new()));
        }
        y = y + 1;
        proof {
            assert((rows@[y - 1].content@, rows@[y - 1].color) =~~= main_row(
                text@,
                w as int,
                h as int,
                show_help,
                help_x as int,
                help_h,
                y - 1,
            ));
        }
    }

    let ghost main_spec = Seq::new(
        h as nat,
        |i: int| main_row(text@, w as int, h as int, show_help, help_x as int, help_h, i),
    );
    proof {
        assert(rows@.map_values(|l: TextLine| (l.content@, l.color)) =~~= main_spec);
    }

    if show_panel {
        let panel = build_help_panel(&commands, pwc + 4);
        let ghost panel_spec = help_panel(cmds);
        proof {
            let ptexts = panel@.map_values(|l: TextLine| l.content@);
            assert forall|i: int| 0 <= i < ptexts.len() implies (#[trigger] ptexts[i]).len() == pwc
                + 4 by {
                lemma_help_panel_row_len(cmds, i);
                assert(ptexts[i] == panel@[i].content@);
                assert((panel@[i].content@, panel@[i].color) == panel_spec[i]);
            }
            lemma_panel_width_uniform(ptexts, pwc as int + 4);
        }
        let panel_len = panel.len();
        proof {
            assert(panel@.len() == panel_len);
        }
        overlay_panel(&mut rows, &panel, help_x, 0, w);
        proof {
            let ghost cur = rows@.map_values(|l: TextLine| (l.content@, l.color));
            let ghost painted = apply_panel(main_spec, panel_spec, help_x as int);
            assert forall|i: int| 0 <= i < cur.len() implies cur[i] =~~= painted[i] by {
                if 0 <= i < panel_spec.len() {
                    assert((panel@[i].content@, panel@[i].color) == panel_spec[i]);
                    assert(main_spec[i].0 == main_row(
                        text@,
                        w as int,
                        h as int,
                        show_help,
                        help_x as int,
                        help_h,
                        i,
                    ).0);
                }
            }
            assert(cur =~~= painted);
            assert(cur =~~= text_display_rows(
                text@,
                actions@,
                width as int,
                height as int,
                show_help,
            ));
        }
    } else {
        proof {
            assert(rows@.map_values(|l: TextLine| (l.content@, l.color)) =~~= text_display_rows(
                text@,
                actions@,
                width as int,
                height as int,
                show_help,
            ));
        }
    }
    rows
}

/// Whether plain text deserves the enhanced rendering by itself: an enhanced
/// or art style asks for it, and so does a short text of nothing but capital
/// letters and blanks.
pub open spec fn auto_enhance(text: Seq<char>, style: Seq<char>) -> bool {
    style == "enhanced"@ || style == "ascii"@ || (text.len() <= 20 && shouting(text))
}

/// Nothing but capital ASCII letters and blanks.
pub open spec fn shouting(t: Seq<char>) -> bool {
    forall|i: int|
        0 <= i < t.len() ==> ('A' <= #[trigger] t[i] <= 'Z' || crate::welcome::is_blank_char(
            t[i],
        ))
}

pub fn should_auto_enhance(text: &str, style: &str) -> (r: bool)
    ensures
        r == auto_enhance(text@, style@),
{
    if str_eq(style, "enhanced") || str_eq(style, "ascii") {
        return true;
    }
    let len = text.unicode_len();
    if len > 20 {
        return false;
    }
    let mut all_ok = true;
    let mut i: usize = 0;
    while i < len
        invariant
            i <= len,
            len == text@.len(),
            all_ok == shouting(text@.take(i as int)),
        decreases len - i,
    {
        let c = text.get_char(i);
        if !(('A' <= c && c <= 'Z') || c == ' ' || c == '\t' || c == '\n' || c == '\r') {
            all_ok = false;
            proof {
                assert(!('A' <= text@[i as int] <= 'Z' || crate::welcome::is_blank_char(
                    text@[i as int],
                )));
                assert(text@.take(i + 1 as int)[i as int] == text@[i as int]);
                assert(!shouting(text@.take(i + 1 as int)));
            }
        } else {
            proof {
                if all_ok {
                    assert forall|j: int|
                        0 <= j < i + 1 implies ('A' <= #[trigger] text@.take(i + 1 as int)[j]
                        <= 'Z' || crate::welcome::is_blank_char(
                        text@.take(i + 1 as int)[j],
                    )) by {
                        if j < i {
                            assert(text@.take(i as int)[j] == text@.take(i + 1 as int)[j]);
                        }
                    }
                } else {
                    let bad = choose|j: int|
                        0 <= j < i && !('A' <= #[trigger] text@.take(i as int)[j] <= 'Z'
                            || crate::welcome::is_blank_char(text@.take(i as int)[j]));
                    assert(text@.take(i + 1 as int)[bad] == text@.take(i as int)[bad]);
                    assert(!shouting(text@.take(i + 1 as int)));
                }
            }
        }
        i = i + 1;
    }
    proof {
        assert(text@.take(len as int) =~= text@);
    }
    all_ok
}

/// The welcome configuration a bare text and style name fall back to: the
/// named style where one is named, art for a short shouted text, plain text
/// otherwise; rendered by the external logo tool when the caller found it
/// available.
pub fn create_auto_config(text: &str, style: &str, logo_tool_available: bool) -> (r:
    WelcomeMessageConfig)
    ensures
        r.text@ == text@,
        r.style == (if style@ == "enhanced"@ {
            crate::welcome::WelcomeStyle::Enhanced
        } else if style@ == "ascii"@ {
            crate::welcome::WelcomeStyle::Ascii
        } else if text@.len() <= 20 && shouting(text@) {
            crate::welcome::WelcomeStyle::Ascii
        } else {
            crate::welcome::WelcomeStyle::Simple
        }),
        r.provider == (if logo_tool_available {
            WelcomeProvider::OhMyLogo
        } else {
            WelcomeProvider::Builtin
        }),
{
    let welcome_style = if str_eq(style, "enhanced") {
        crate::welcome::WelcomeStyle::Enhanced
    } else if str_eq(style, "ascii") {
        crate::welcome::WelcomeStyle::Ascii
    } else if should_auto_enhance(text, style) && text.unicode_len() <= 20 {
        crate::welcome::WelcomeStyle::Ascii
    } else {
        crate::welcome::WelcomeStyle::Simple
    };
    let provider = if logo_tool_available {
        WelcomeProvider::OhMyLogo
    } else {
        WelcomeProvider::Builtin
    };
    WelcomeMessageConfig { text: text.to_owned(), style: welcome_style, provider }
}

} // verus!

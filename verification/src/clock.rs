//! The clock feature: a wall-clock time rendered as five-row block digits,
//! with optional title, date and timezone lines stacked around it. Reading
//! the clock is the caller's business: rendering takes the time's components
//! as plain values, so a frame is a pure function of them.

use vstd::prelude::*;

verus! {

use crate::canvas::Color;
use crate::canvas::Rect;
use crate::canvas::TextLine;
use crate::canvas::fit_rows;
use crate::welcome::clone_string;

/// A sampled wall-clock instant, as plain values: the caller reads the
/// system clock and fills this in. The weekday counts from Sunday as zero.
pub struct ClockTime {
    pub hour: u8,
    pub minute: u8,
    pub second: u8,
    pub year: u32,
    pub month: u8,
    pub day: u8,
    pub weekday: u8,
    pub timezone: String,
}

impl ClockTime {
    /// The ranges a real clock reading satisfies.
    pub open spec fn wf(&self) -> bool {
        &&& self.hour < 24
        &&& self.minute < 60
        &&& self.second < 60
        &&& 1 <= self.month <= 12
        &&& 1 <= self.day <= 31
        &&& self.weekday < 7
        &&& self.year <= 9999
    }
}

/// The character for one decimal digit.
pub open spec fn digit_char(d: int) -> char {
    if d == 0 {
        '0'
    } else if d == 1 {
        '1'
    } else if d == 2 {
        '2'
    } else if d == 3 {
        '3'
    } else if d == 4 {
        '4'
    } else if d == 5 {
        '5'
    } else if d == 6 {
        '6'
    } else if d == 7 {
        '7'
    } else if d == 8 {
        '8'
    } else {
        '9'
    }
}

/// A number in decimal, most significant digit first.
pub open spec fn dec_digits(n: int) -> Seq<char>
    decreases n,
{
    if n < 10 {
        seq![digit_char(n)]
    } else {
        dec_digits(n / 10).push(digit_char(n % 10))
    }
}

/// A number in decimal, zero-padded on the left to two digits.
pub open spec fn two_digits(n: int) -> Seq<char> {
    if n < 10 {
        seq!['0', digit_char(n)]
    } else {
        dec_digits(n)
    }
}

/// A year in decimal, zero-padded on the left to four digits.
pub open spec fn four_digits(n: int) -> Seq<char> {
    if n < 10 {
        seq!['0', '0', '0'] + dec_digits(n)
    } else if n < 100 {
        seq!['0', '0'] + dec_digits(n)
    } else if n < 1000 {
        seq!['0'] + dec_digits(n)
    } else {
        dec_digits(n)
    }
}

/// The character for one decimal digit, executable.
pub fn digit_char_exec(d: u64) -> (r: char)
    requires
        d < 10,
    ensures
        r == digit_char(d as int),
{
    match d {
        0 => '0',
        1 => '1',
        2 => '2',
        3 => '3',
        4 => '4',
        5 => '5',
        6 => '6',
        7 => '7',
        8 => '8',
        _ => '9',
    }
}

/// A number in decimal.
pub fn format_u64(n: u64) -> (r: String)
    ensures
        r@ == dec_digits(n as int),
    decreases n,
{
    if n < 10 {
        let mut s = String::new();
        crate::canvas::push_char(&mut s, digit_char_exec(n));
        proof {
            assert(s@ =~= dec_digits(n as int));
        }
        s
    } else {
        let mut s = format_u64(n / 10);
        crate::canvas::push_char(&mut s, digit_char_exec(n % 10));
        s
    }
}

/// A number zero-padded to two digits: how the time's fields are written.
pub fn format_two_digits(num: u64) -> (r: String)
    ensures
        r@ == two_digits(num as int),
{
    if num < 10 {
        let mut s = String::new();
        crate::canvas::push_char(&mut s, '0');
        crate::canvas::push_char(&mut s, digit_char_exec(num));
        proof {
            assert(s@ =~= two_digits(num as int));
        }
        s
    } else {
        format_u64(num)
    }
}

/// The formatted time: hours, minutes and (optionally) seconds, separated by
/// colons; in the twelve-hour format the hour is folded to `1..=12` and the
/// half of the day appended.
pub open spec fn time_text(
    hour: int,
    minute: int,
    second: int,
    format_24h: bool,
    show_seconds: bool,
) -> Seq<char> {
    let h12 = if hour % 12 == 0 {
        12int
    } else {
        hour % 12
    };
    let base = if format_24h {
        two_digits(hour) + seq![':'] + two_digits(minute)
    } else {
        two_digits(h12) + seq![':'] + two_digits(minute)
    };
    let with_seconds = if show_seconds {
        base + seq![':'] + two_digits(second)
    } else {
        base
    };
    if format_24h {
        with_seconds
    } else {
        with_seconds + if hour < 12 {
            " AM"@
        } else {
            " PM"@
        }
    }
}

/// The formatted date: weekday name, month name, two-digit day, four-digit
/// year.
pub open spec fn date_text(year: int, month: int, day: int, weekday: int) -> Seq<char> {
    weekday_name(weekday) + ", "@ + month_name(month) + " "@ + two_digits(day) + ", "@
        + four_digits(year)
}

pub open spec fn weekday_name(wd: int) -> Seq<char> {
    if wd == 0 {
        "Sunday"@
    } else if wd == 1 {
        "Monday"@
    } else if wd == 2 {
        "Tuesday"@
    } else if wd == 3 {
        "Wednesday"@
    } else if wd == 4 {
        "Thursday"@
    } else if wd == 5 {
        "Friday"@
    } else {
        "Saturday"@
    }
}

pub open spec fn month_name(m: int) -> Seq<char> {
    if m == 1 {
        "January"@
    } else if m == 2 {
        "February"@
    } else if m == 3 {
        "March"@
    } else if m == 4 {
        "April"@
    } else if m == 5 {
        "May"@
    } else if m == 6 {
        "June"@
    } else if m == 7 {
        "July"@
    } else if m == 8 {
        "August"@
    } else if m == 9 {
        "September"@
    } else if m == 10 {
        "October"@
    } else if m == 11 {
        "November"@
    } else {
        "December"@
    }
}

/// The five-row block pattern of one character of a time string: digits and
/// the colon have fixed patterns, anything else is blank.
pub open spec fn glyph_rows(c: char) -> Seq<Seq<char>> {
    if c == '0' {
        seq![" ███ "@, "█   █"@, "█   █"@, "█   █"@, " ███ "@]
    } else if c == '1' {
        seq!["  █  "@, " ██  "@, "  █  "@, "  █  "@, " ███ "@]
    } else if c == '2' {
        seq![" ███ "@, "    █"@, " ███ "@, "█    "@, " ███ "@]
    } else if c == '3' {
        seq![" ███ "@, "    █"@, " ███ "@, "    █"@, " ███ "@]
    } else if c == '4' {
        seq!["█   █"@, "█   █"@, " ███ "@, "    █"@, "    █"@]
    } else if c == '5' {
        seq![" ███ "@, "█    "@, " ███ "@, "    █"@, " ███ "@]
    } else if c == '6' {
        seq![" ███ "@, "█    "@, " ███ "@, "█   █"@, " ███ "@]
    } else if c == '7' {
        seq![" ███ "@, "    █"@, "   █ "@, "  █  "@, " █   "@]
    } else if c == '8' {
        seq![" ███ "@, "█   █"@, " ███ "@, "█   █"@, " ███ "@]
    } else if c == '9' {
        seq![" ███ "@, "█   █"@, " ███ "@, "    █"@, " ███ "@]
    } else if c == ':' {
        seq!["     "@, "  █  "@, "     "@, "  █  "@, "     "@]
    } else {
        seq!["     "@, "     "@, "     "@, "     "@, "     "@]
    }
}

/// Row `i` of the block rendering of a time string: the characters' glyph
/// rows joined left to right with one space between neighbours.
pub open spec fn clock_row(t: Seq<char>, i: int) -> Seq<char>
    decreases t.len(),
{
    if t.len() == 0 {
        Seq::empty()
    } else if t.len() == 1 {
        glyph_rows(t.last())[i]
    } else {
        clock_row(t.drop_last(), i) + seq![' '] + glyph_rows(t.last())[i]
    }
}

/// Every glyph row is five characters wide.
pub proof fn lemma_glyph_width(c: char, i: int)
    requires
        0 <= i < 5,
    ensures
        glyph_rows(c)[i].len() == 5,
{
    reveal_strlit(" ███ ");
    reveal_strlit("█   █");
    reveal_strlit("  █  ");
    reveal_strlit(" ██  ");
    reveal_strlit("    █");
    reveal_strlit("█    ");
    reveal_strlit("   █ ");
    reveal_strlit(" █   ");
    reveal_strlit("     ");
}

/// The block rows of an `n`-character time string are `6 n - 1` characters
/// wide (five per glyph and one space between neighbours).
pub proof fn lemma_clock_row_len(t: Seq<char>, i: int)
    requires
        0 <= i < 5,
    ensures
        clock_row(t, i).len() == if t.len() == 0 {
            0int
        } else {
            6 * t.len() - 1
        },
    decreases t.len(),
{
    if t.len() == 0 {
    } else if t.len() == 1 {
        lemma_glyph_width(t.last(), i);
    } else {
        lemma_clock_row_len(t.drop_last(), i);
        lemma_glyph_width(t.last(), i);
    }
}

fn glyph_rows_exec(c: char) -> (r: Vec<String>)
    ensures
        r@.len() == 5,
        forall|i: int| 0 <= i < 5 ==> (#[trigger] r@[i])@ == glyph_rows(c)[i],
{
    let r: Vec<String> = if c == '0' {
        vec![
            " ███ ".to_owned(),
            "█   █".to_owned(),
            "█   █".to_owned(),
            "█   █".to_owned(),
            " ███ ".to_owned(),
        ]
    } else if c == '1' {
        vec![
            "  █  ".to_owned(),
            " ██  ".to_owned(),
            "  █  ".to_owned(),
            "  █  ".to_owned(),
            " ███ ".to_owned(),
        ]
    } else if c == '2' {
        vec![
            " ███ ".to_owned(),
            "    █".to_owned(),
            " ███ ".to_owned(),
            "█    ".to_owned(),
            " ███ ".to_owned(),
        ]
    } else if c == '3' {
        vec![
            " ███ ".to_owned(),
            "    █".to_owned(),
            " ███ ".to_owned(),
            "    █".to_owned(),
            " ███ ".to_owned(),
        ]
    } else if c == '4' {
        vec![
            "█   █".to_owned(),
            "█   █".to_owned(),
            " ███ ".to_owned(),
            "    █".to_owned(),
            "    █".to_owned(),
        ]
    } else if c == '5' {
        vec![
            " ███ ".to_owned(),
            "█    ".to_owned(),
            " ███ ".to_owned(),
            "    █".to_owned(),
            " ███ ".to_owned(),
        ]
    } else if c == '6' {
        vec![
            " ███ ".to_owned(),
            "█    ".to_owned(),
            " ███ ".to_owned(),
            "█   █".to_owned(),
            " ███ ".to_owned(),
        ]
    } else if c == '7' {
        vec![
            " ███ ".to_owned(),
            "    █".to_owned(),
            "   █ ".to_owned(),
            "  █  ".to_owned(),
            " █   ".to_owned(),
        ]
    } else if c == '8' {
        vec![
            " ███ ".to_owned(),
            "█   █".to_owned(),
            " ███ ".to_owned(),
            "█   █".to_owned(),
            " ███ ".to_owned(),
        ]
    } else if c == '9' {
        vec![
            " ███ ".to_owned(),
            "█   █".to_owned(),
            " ███ ".to_owned(),
            "    █".to_owned(),
            " ███ ".to_owned(),
        ]
    } else if c == ':' {
        vec![
            "     ".to_owned(),
            "  █  ".to_owned(),
            "     ".to_owned(),
            "  █  ".to_owned(),
            "     ".to_owned(),
        ]
    } else {
        vec![
            "     ".to_owned(),
            "     ".to_owned(),
            "     ".to_owned(),
            "     ".to_owned(),
            "     ".to_owned(),
        ]
    };
    r
}

/// What the clock shows and how: seconds and date visibility, the hour
/// format, and the digits' color.
pub struct ClockDisplay {
    pub show_seconds: bool,
    pub show_date: bool,
    pub time_format_24h: bool,
    pub color: Color,
}

impl ClockDisplay {
    pub fn new() -> (r: ClockDisplay)
        ensures
            r.show_seconds,
            r.show_date,
            r.time_format_24h,
            r.color == Color::Green,
    {
        ClockDisplay { show_seconds: true, show_date: true, time_format_24h: true, color: Color::Green }
    }

    pub fn with_config(show_seconds: bool, show_date: bool, time_format_24h: bool) -> (r:
        ClockDisplay)
        ensures
            r.show_seconds == show_seconds,
            r.show_date == show_date,
            r.time_format_24h == time_format_24h,
            r.color == Color::Green,
    {
        ClockDisplay { show_seconds, show_date, time_format_24h, color: Color::Green }
    }

    /// The formatted time for a clock reading, under this display's format
    /// flags.
    pub fn time_string(&self, time: &ClockTime) -> (r: String)
        requires
            time.wf(),
        ensures
            r@ == time_text(
                time.hour as int,
                time.minute as int,
                time.second as int,
                self.time_format_24h,
                self.show_seconds,
            ),
    {
        let hour_field: u64 = if self.time_format_24h {
            time.hour as u64
        } else if time.hour % 12 == 0 {
            12
        } else {
            (time.hour % 12) as u64
        };
        let mut s = format_two_digits(hour_field);
        s.append(":");
        s.append(format_two_digits(time.minute as u64).as_str());
        if self.show_seconds {
            s.append(":");
            s.append(format_two_digits(time.second as u64).as_str());
        }
        if !self.time_format_24h {
            if time.hour < 12 {
                s.append(" AM");
            } else {
                s.append(" PM");
            }
        }
        proof {
            reveal_strlit(":");
            assert(s@ =~= time_text(
                time.hour as int,
                time.minute as int,
                time.second as int,
                self.time_format_24h,
                self.show_seconds,
            ));
        }
        s
    }

    /// The formatted date for a clock reading.
    pub fn date_string(&self, time: &ClockTime) -> (r: String)
        requires
            time.wf(),
        ensures
            r@ == date_text(
                time.year as int,
                time.month as int,
                time.day as int,
                time.weekday as int,
            ),
    {
        let mut s = match time.weekday {
            0 => "Sunday".to_owned(),
            1 => "Monday".to_owned(),
            2 => "Tuesday".to_owned(),
            3 => "Wednesday".to_owned(),
            4 => "Thursday".to_owned(),
            5 => "Friday".to_owned(),
            _ => "Saturday".to_owned(),
        };
        s.append(", ");
        let month = match time.month {
            1 => "January",
            2 => "February",
            3 => "March",
            4 => "April",
            5 => "May",
            6 => "June",
            7 => "July",
            8 => "August",
            9 => "September",
            10 => "October",
            11 => "November",
            _ => "December",
        };
        s.append(month);
        s.append(" ");
        s.append(format_two_digits(time.day as u64).as_str());
        s.append(", ");
        let y = time.year as u64;
        if y < 10 {
            s.append("000");
        } else if y < 100 {
            s.append("00");
        } else if y < 1000 {
            s.append("0");
        }
        s.append(format_u64(y).as_str());
        proof {
            reveal_strlit("000");
            reveal_strlit("00");
            reveal_strlit("0");
            assert(s@ =~= date_text(
                time.year as int,
                time.month as int,
                time.day as int,
                time.weekday as int,
            ));
        }
        s
    }

    /// The time string as block digits: always exactly five rows, and for an
    /// `n`-character string each row is `6 n - 1` characters wide (five per
    /// glyph, one space between neighbours).
    #[verifier::loop_isolation(false)]
    pub fn create_digital_time(&self, time_str: &str) -> (r: Vec<String>)
        ensures
            r@.len() == 5,
            forall|i: int| 0 <= i < 5 ==> (#[trigger] r@[i])@ == clock_row(time_str@, i),
            forall|i: int|
                0 <= i < 5 ==> (#[trigger] r@[i])@.len() == if time_str@.len() == 0 {
                    0int
                } else {
                    6 * time_str@.len() - 1
                },
    {
        let mut rows: Vec<String> = vec![
            String::new(),
            String::new(),
            String::new(),
            String::new(),
            String::new(),
        ];
        let len = time_str.unicode_len();
        let mut k: usize = 0;
        while k < len
            invariant
                k <= len,
                len == time_str@.len(),
                rows@.len() == 5,
                forall|i: int|
                    0 <= i < 5 ==> (#[trigger] rows@[i])@ == clock_row(time_str@.take(k as int), i),
            decreases len - k,
        {
            let c = time_str.get_char(k);
            let glyph = glyph_rows_exec(c);
            let mut i: usize = 0;
            while i < 5
                invariant
                    i <= 5,
                    k < len,
                    rows@.len() == 5,
                    glyph@.len() == 5,
                    c == time_str@[k as int],
                    forall|j: int| 0 <= j < 5 ==> (#[trigger] glyph@[j])@ == glyph_rows(c)[j],
                    forall|j: int|
                        i <= j < 5 ==> (#[trigger] rows@[j])@ == clock_row(
                            time_str@.take(k as int),
                            j,
                        ),
                    forall|j: int|
                        0 <= j < i ==> (#[trigger] rows@[j])@ == clock_row(
                            time_str@.take(k + 1 as int),
                            j,
                        ),
                decreases 5 - i,
            {
                let row = &mut rows[i];
                if k > 0 {
                    row.append(" ");
                }
                row.append(glyph[i].as_str());
                proof {
                    reveal_strlit(" ");
                    let cur = time_str@.take(k + 1 as int);
                    assert(cur.drop_last() =~= time_str@.take(k as int));
                    assert(cur.last() == c);
                    if k == 0 {
                        assert(cur.len() == 1);
                        assert(rows@[i as int]@ =~= clock_row(cur, i as int));
                    } else {
                        assert(rows@[i as int]@ =~= clock_row(cur, i as int));
                    }
                }
                i = i + 1;
            }
            k = k + 1;
        }
        proof {
            assert(time_str@.take(len as int) =~= time_str@);
            assert forall|i: int| 0 <= i < 5 implies (#[trigger] rows@[i])@.len() == (
            if time_str@.len() == 0 {
                0int
            } else {
                6 * time_str@.len() - 1
            }) by {
                lemma_clock_row_len(time_str@, i);
            }
        }
        rows
    }

    /// The frame for one clock reading: blank rows to center a ten-row
    /// block, then the optional title, the five block-digit rows, the
    /// optional date and the timezone, each optional layer separated by a
    /// blank row; the whole padded or truncated to the area's height.
    #[verifier::rlimit(60)]
    pub fn render(&self, area: Rect, title: &str, time: &ClockTime) -> (r: Vec<TextLine>)
        requires
            time.wf(),
        ensures
            r@.len() == area.height,
            r@.map_values(|l: TextLine| (l.content@, l.color)) == fit_frame(
                clock_frame(
                    title@,
                    time_text(
                        time.hour as int,
                        time.minute as int,
                        time.second as int,
                        self.time_format_24h,
                        self.show_seconds,
                    ),
                    if self.show_date {
                        Some(
                            date_text(
                                time.year as int,
                                time.month as int,
                                time.day as int,
                                time.weekday as int,
                            ),
                        )
                    } else {
                        None
                    },
                    time.timezone@,
                    area.height as int,
                ),
                area.height as int,
            ),
    {
        let time_str = self.time_string(time);
        let digital = self.create_digital_time(time_str.as_str());

        let mut lines: Vec<TextLine> = Vec::new();
        let vertical_padding: usize = if area.height as usize >= 10 {
            (area.height as usize - 10) / 2
        } else {
            0
        };
        let ghost pad_block = Seq::new(vertical_padding as nat, |i: int| blank_row());
        let mut p: usize = 0;
        while p < vertical_padding
            invariant
                p <= vertical_padding,
                lines@.len() == p,
                forall|i: int|
                    0 <= i < p ==> (#[trigger] lines@[i]).content@ =~= Seq::<char>::empty()
                        && lines@[i].color is None,
            decreases vertical_padding - p,
        {
            lines.push(TextLine::new(String::new()));
            p = p + 1;
        }
        proof {
            assert(lines@.map_values(|l: TextLine| (l.content@, l.color)) =~~= pad_block);
        }

        let ghost title_block: Seq<(Seq<char>, Option<Color>)> = if title@.len() > 0 {
            seq![(title@, Some(Color::Cyan)), blank_row()]
        } else {
            Seq::<(Seq<char>, Option<Color>)>::empty()
        };
        let title_len = title.unicode_len();
        if title_len > 0 {
            lines.push(TextLine::with_color(title.to_owned(), Color::Cyan));
            lines.push(TextLine::new(String::new()));
        }
        proof {
            assert(lines@.map_values(|l: TextLine| (l.content@, l.color)) =~~= pad_block
                + title_block);
        }
        let ghost after_title = lines@;

        let mut gi: usize = 0;
        while gi < 5
            invariant
                gi <= 5,
                digital@.len() == 5,
                forall|j: int| 0 <= j < 5 ==> (#[trigger] digital@[j])@ == clock_row(
                    time_str@,
                    j,
                ),
                lines@.len() == after_title.len() + gi,
                lines@.take(after_title.len() as int) == after_title,
                forall|j: int|
                    0 <= j < gi ==> {
                        &&& (#[trigger] lines@[after_title.len() + j]).content@ == clock_row(
                            time_str@,
                            j,
                        )
                        &&& lines@[after_title.len() + j].color == Some(Color::White)
                    },
            decreases 5 - gi,
        {
            lines.push(TextLine::with_color(clone_string(&digital[gi]), Color::White));
            gi = gi + 1;
            proof {
                assert(lines@.take(after_title.len() as int) =~= after_title);
            }
        }

        let ghost glyph_block = Seq::new(5, |i: int| white_clock_line(time_str@, i));
        proof {
            let cur = lines@.map_values(|l: TextLine| (l.content@, l.color));
            let expected = pad_block + title_block + glyph_block;
            assert(after_title.map_values(|l: TextLine| (l.content@, l.color)) =~~= pad_block
                + title_block);
            assert forall|i: int| 0 <= i < cur.len() implies cur[i] =~~= expected[i] by {
                if i < after_title.len() {
                    assert(lines@.take(after_title.len() as int)[i] == lines@[i]);
                    assert(after_title.map_values(|l: TextLine| (l.content@, l.color))[i]
                        == (pad_block + title_block)[i]);
                } else {
                    let j = i - after_title.len();
                    assert(0 <= j < 5);
                    assert(glyph_block[j] == white_clock_line(time_str@, j));
                    assert(lines@[after_title.len() + j] == lines@[i]);
                    assert(lines@[i].content@ == clock_row(time_str@, j));
                    assert(lines@[i].color == Some(Color::White));
                    assert((pad_block + title_block).len() == after_title.len());
                    assert(expected[i] == glyph_block[j]);
                }
            }
            assert(cur =~~= expected);
        }

        let ghost date_opt: Option<Seq<char>> = if self.show_date {
            Some(
                date_text(
                    time.year as int,
                    time.month as int,
                    time.day as int,
                    time.weekday as int,
                ),
            )
        } else {
            None
        };
        let ghost date_block: Seq<(Seq<char>, Option<Color>)> = match date_opt {
            Some(d) => seq![blank_row(), (d, Some(Color::Yellow))],
            None => Seq::<(Seq<char>, Option<Color>)>::empty(),
        };
        proof {
            lemma_date_text_nonempty(
                time.year as int,
                time.month as int,
                time.day as int,
                time.weekday as int,
            );
        }
        let date_str = if self.show_date {
            self.date_string(time)
        } else {
            String::new()
        };
        if self.show_date && date_str.as_str().unicode_len() > 0 {
            lines.push(TextLine::new(String::new()));
            lines.push(TextLine::with_color(date_str, Color::Yellow));
        }
        proof {
            assert(lines@.map_values(|l: TextLine| (l.content@, l.color)) =~~= pad_block
                + title_block + glyph_block + date_block);
        }

        let ghost tz_block: Seq<(Seq<char>, Option<Color>)> = if time.timezone@.len() > 0 {
            seq![blank_row(), (time.timezone@, Some(Color::Gray))]
        } else {
            Seq::<(Seq<char>, Option<Color>)>::empty()
        };
        if time.timezone.as_str().unicode_len() > 0 {
            lines.push(TextLine::new(String::new()));
            lines.push(TextLine::with_color(clone_string(&time.timezone), Color::Gray));
        }
        proof {
            assert(lines@.map_values(|l: TextLine| (l.content@, l.color)) =~~= pad_block
                + title_block + glyph_block + date_block + tz_block);
        }

        proof {
            assert(lines@.map_values(|l: TextLine| (l.content@, l.color)) =~~= clock_frame(
                title@,
                time_text(
                    time.hour as int,
                    time.minute as int,
                    time.second as int,
                    self.time_format_24h,
                    self.show_seconds,
                ),
                if self.show_date {
                    Some(
                        date_text(
                            time.year as int,
                            time.month as int,
                            time.day as int,
                            time.weekday as int,
                        ),
                    )
                } else {
                    None
                },
                time.timezone@,
                area.height as int,
            ));
        }
        fit_rows(&mut lines, area.height as usize);
        proof {
            assert(lines@.map_values(|l: TextLine| (l.content@, l.color)) =~~= fit_frame(
                clock_frame(
                    title@,
                    time_text(
                        time.hour as int,
                        time.minute as int,
                        time.second as int,
                        self.time_format_24h,
                        self.show_seconds,
                    ),
                    if self.show_date {
                        Some(
                            date_text(
                                time.year as int,
                                time.month as int,
                                time.day as int,
                                time.weekday as int,
                            ),
                        )
                    } else {
                        None
                    },
                    time.timezone@,
                    area.height as int,
                ),
                area.height as int,
            ));
        }
        lines
    }
}

impl Default for ClockDisplay {
    fn default() -> (r: ClockDisplay)
        ensures
            r.show_seconds,
            r.show_date,
            r.time_format_24h,
            r.color == Color::Green,
    {
        ClockDisplay::new()
    }
}

/// An empty uncolored row.
pub open spec fn blank_row() -> (Seq<char>, Option<Color>) {
    (Seq::empty(), None)
}

/// One white block-digit row of the frame.
pub open spec fn white_clock_line(t: Seq<char>, i: int) -> (Seq<char>, Option<Color>) {
    (clock_row(t, i), Some(Color::White))
}

/// The rows a clock frame stacks, before fitting: centering padding of
/// `max(0, height - 10) / 2` blank rows, the cyan title and a blank (when a
/// title is given), five white block-digit rows, a blank and the yellow date
/// (when dates are shown), a blank and the gray timezone (when it is
/// nonempty).
pub open spec fn clock_frame(
    title: Seq<char>,
    time_str: Seq<char>,
    date: Option<Seq<char>>,
    timezone: Seq<char>,
    height: int,
) -> Seq<(Seq<char>, Option<Color>)> {
    let padding = if height >= 10 {
        (height - 10) / 2
    } else {
        0
    };
    let pad_block = Seq::new(padding as nat, |i: int| blank_row());
    let title_block: Seq<(Seq<char>, Option<Color>)> = if title.len() > 0 {
        seq![(title, Some(Color::Cyan)), blank_row()]
    } else {
        Seq::empty()
    };
    let glyph_block = Seq::new(5, |i: int| white_clock_line(time_str, i));
    let date_block: Seq<(Seq<char>, Option<Color>)> = match date {
        Some(d) => seq![blank_row(), (d, Some(Color::Yellow))],
        None => Seq::empty(),
    };
    let tz_block: Seq<(Seq<char>, Option<Color>)> = if timezone.len() > 0 {
        seq![blank_row(), (timezone, Some(Color::Gray))]
    } else {
        Seq::empty()
    };
    pad_block + title_block + glyph_block + date_block + tz_block
}

/// Rows padded with blanks or truncated to exactly `height`.
pub open spec fn fit_frame(rows: Seq<(Seq<char>, Option<Color>)>, height: int) -> Seq<
    (Seq<char>, Option<Color>),
> {
    if rows.len() >= height {
        rows.take(height)
    } else {
        rows + Seq::new((height - rows.len()) as nat, |i: int| blank_row())
    }
}

/// A formatted date is never the empty string.
pub proof fn lemma_date_text_nonempty(year: int, month: int, day: int, weekday: int)
    ensures
        date_text(year, month, day, weekday).len() > 0,
{
    reveal_strlit(", ");
}

} // verus!

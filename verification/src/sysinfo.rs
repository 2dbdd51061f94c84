//! The system-information feature: a page of facts about the host, rebuilt
//! at most once per refresh interval. Reading the clock, the platform names
//! and the environment is the caller's business; the lines are a pure
//! function of the values handed in.

use vstd::prelude::*;

verus! {

use crate::canvas::Color;
use crate::canvas::Rect;
use crate::canvas::TextLine;
use crate::canvas::fit_rows;
use crate::clock::blank_row;
use crate::clock::dec_digits;
use crate::clock::fit_frame;
use crate::clock::format_two_digits;
use crate::clock::format_u64;
use crate::clock::two_digits;
use crate::features::KeyPress;
use crate::features::ScreensaverAction;
use crate::welcome::clone_string;

/// The page built from one snapshot: the time of day derived from the epoch
/// seconds, the uptime, fixed lines for the memory and processor facts it
/// does not gather, the platform names, the environment size, the working
/// directory when the caller knows one, and a key hint after a blank line.
pub open spec fn info_lines(
    now: int,
    os: Seq<char>,
    arch: Seq<char>,
    env_count: int,
    current_dir: Option<Seq<char>>,
) -> Seq<Seq<char>> {
    let time_line = "Current Time: "@ + two_digits(now / 3600 % 24) + ":"@ + two_digits(
        now / 60 % 60,
    ) + ":"@ + two_digits(now % 60);
    let base = seq![
        time_line,
        "Uptime: "@ + dec_digits(now) + " seconds"@,
        "Memory: Information unavailable"@,
        "CPU: Information unavailable"@,
        "System: "@ + os,
        "Architecture: "@ + arch,
        "Environment Variables: "@ + dec_digits(env_count),
    ];
    let with_dir = match current_dir {
        Some(d) => base.push("Current Dir: "@ + d),
        None => base,
    };
    with_dir + seq![Seq::<char>::empty(), "Press 'r' to refresh, ESC to exit"@]
}

/// The system-information feature: the current page and when it was built.
pub struct SystemInfoFeature {
    pub content: Vec<String>,
    pub last_update: u64,
    /// Seconds between page rebuilds.
    pub update_interval: u64,
}

impl SystemInfoFeature {
    pub fn new() -> (r: SystemInfoFeature)
        ensures
            r.content@.len() == 0,
            r.last_update == 0,
            r.update_interval == 5,
    {
        SystemInfoFeature { content: Vec::new(), last_update: 0, update_interval: 5 }
    }

    /// Whether the page is due for a rebuild at epoch second `now`: the
    /// interval has passed, or the clock went backwards.
    pub fn needs_refresh(&self, now: u64) -> (r: bool)
        ensures
            r == (now < self.last_update || now - self.last_update >= self.update_interval),
    {
        now < self.last_update || now - self.last_update >= self.update_interval
    }

    /// Rebuilds the page from one snapshot of the clock, the platform names,
    /// the environment size and the working directory, and records when.
    pub fn update_system_info(
        &mut self,
        now: u64,
        os: &str,
        arch: &str,
        env_count: u64,
        current_dir: Option<String>,
    )
        ensures
            final(self).content@.map_values(|l: String| l@) == info_lines(
                now as int,
                os@,
                arch@,
                env_count as int,
                match current_dir {
                    Some(d) => Some(d@),
                    None => None,
                },
            ),
            final(self).last_update == now,
            final(self).update_interval == old(self).update_interval,
    {
        let ghost dir_view: Option<Seq<char>> = match current_dir {
            Some(ref d) => Some(d@),
            None => None,
        };
        let mut content: Vec<String> = Vec::new();

        let mut time_line = "Current Time: ".to_owned();
        time_line.append(format_two_digits(now / 3600 % 24).as_str());
        time_line.append(":");
        time_line.append(format_two_digits(now / 60 % 60).as_str());
        time_line.append(":");
        time_line.append(format_two_digits(now % 60).as_str());
        content.push(time_line);

        let mut uptime = "Uptime: ".to_owned();
        uptime.append(format_u64(now).as_str());
        uptime.append(" seconds");
        content.push(uptime);

        content.push("Memory: Information unavailable".to_owned());
        content.push("CPU: Information unavailable".to_owned());

        let mut system = "System: ".to_owned();
        system.append(os);
        content.push(system);

        let mut architecture = "Architecture: ".to_owned();
        architecture.append(arch);
        content.push(architecture);

        let mut env_line = "Environment Variables: ".to_owned();
        env_line.append(format_u64(env_count).as_str());
        content.push(env_line);

        match current_dir {
            Some(d) => {
                let mut dir_line = "Current Dir: ".to_owned();
                dir_line.append(d.as_str());
                content.push(dir_line);
            },
            None => {},
        }

        content.push(String::new());
        content.push("Press 'r' to refresh, ESC to exit".to_owned());

        proof {
            reveal_strlit(":");
            assert(content@.map_values(|l: String| l@) =~~= info_lines(
                now as int,
                os@,
                arch@,
                env_count as int,
                dir_view,
            ));
        }
        self.content = content;
        self.last_update = now;
    }

    /// The frame: a cyan header, a blank row, the page in white, padded with
    /// blank rows (or truncated) to the area's height.
    pub fn render(&self, area: Rect) -> (r: Vec<TextLine>)
        ensures
            r@.len() == area.height,
            r@.map_values(|l: TextLine| (l.content@, l.color)) == fit_frame(
                info_frame(self.content@.map_values(|l: String| l@)),
                area.height as int,
            ),
    {
        let mut lines: Vec<TextLine> = Vec::new();
        lines.push(
            TextLine::with_color("=== SYSTEM INFORMATION ===".to_owned(), Color::Cyan),
        );
        lines.push(TextLine::new(String::new()));
        let mut k: usize = 0;
        while k < self.content.len()
            invariant
                k <= self.content@.len(),
                lines@.len() == k + 2,
                (lines@[0].content@, lines@[0].color) == info_frame(
                    self.content@.map_values(|l: String| l@),
                )[0],
                (lines@[1].content@, lines@[1].color) == info_frame(
                    self.content@.map_values(|l: String| l@),
                )[1],
                forall|i: int|
                    0 <= i < k ==> ((#[trigger] lines@[i + 2]).content@, lines@[i + 2].color)
                        == (self.content@[i]@, Some(Color::White)),
            decreases self.content@.len() - k,
        {
            lines.push(TextLine::with_color(clone_string(&self.content[k]), Color::White));
            k = k + 1;
        }
        proof {
            let cs = self.content@.map_values(|l: String| l@);
            let frame = info_frame(cs);
            let cur = lines@.map_values(|l: TextLine| (l.content@, l.color));
            assert forall|i: int| 0 <= i < cur.len() implies cur[i] =~~= frame[i] by {
                if i >= 2 {
                    assert(lines@[(i - 2) + 2] == lines@[i]);
                    assert(cs[i - 2] == self.content@[i - 2]@);
                    assert(info_line_at(cs, i) == (cs[i - 2], Some(Color::White)));
                }
            }
            assert(cur =~~= frame);
        }
        fit_rows(&mut lines, area.height as usize);
        proof {
            assert(lines@.map_values(|l: TextLine| (l.content@, l.color)) =~~= fit_frame(
                info_frame(self.content@.map_values(|l: String| l@)),
                area.height as int,
            ));
        }
        lines
    }

    /// One input event: escape exits, enter advances, `r` forces the next
    /// render to rebuild the page, and every other key changes nothing.
    pub fn handle_input(&mut self, key_event: KeyPress) -> (r: ScreensaverAction)
        ensures
            final(self).content == old(self).content,
            final(self).update_interval == old(self).update_interval,
            match key_event {
                KeyPress::Esc => r == ScreensaverAction::Exit && *final(self) == *old(self),
                KeyPress::Enter => r == ScreensaverAction::NextScreen && *final(self) == *old(
                    self,
                ),
                KeyPress::Char(c) => r == ScreensaverAction::Continue && final(self).last_update
                    == (if c == 'r' {
                    0int
                } else {
                    old(self).last_update as int
                }),
                KeyPress::Other => r == ScreensaverAction::Continue && *final(self) == *old(self),
            },
    {
        match key_event {
            KeyPress::Esc => ScreensaverAction::Exit,
            KeyPress::Enter => ScreensaverAction::NextScreen,
            KeyPress::Char(c) => {
                if c == 'r' {
                    self.last_update = 0;
                }
                ScreensaverAction::Continue
            },
            KeyPress::Other => ScreensaverAction::Continue,
        }
    }

    /// A new area needs nothing: the page adapts when it is rendered.
    pub fn resize(&mut self, _new_area: Rect)
        ensures
            *final(self) == *old(self),
    {
    }
}

impl Default for SystemInfoFeature {
    fn default() -> (r: SystemInfoFeature)
        ensures
            r.content@.len() == 0,
            r.last_update == 0,
            r.update_interval == 5,
    {
        SystemInfoFeature::new()
    }
}

/// Row `i` of the unpadded frame: the header, a blank, then the page.
pub open spec fn info_line_at(content: Seq<Seq<char>>, i: int) -> (Seq<char>, Option<Color>) {
    if i == 0 {
        ("=== SYSTEM INFORMATION ==="@, Some(Color::Cyan))
    } else if i == 1 {
        blank_row()
    } else {
        (content[i - 2], Some(Color::White))
    }
}

/// The unpadded frame: the header, a blank row, the page in white.
pub open spec fn info_frame(content: Seq<Seq<char>>) -> Seq<(Seq<char>, Option<Color>)> {
    Seq::new((content.len() + 2) as nat, |i: int| info_line_at(content, i))
}

} // verus!

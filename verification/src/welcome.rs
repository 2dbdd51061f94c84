//! The welcome-message service: turns a configured text into the string the
//! text display shows, either as plain text or as five-row block letters.
//! Output of the external logo tool, when the caller has any, is taken as an
//! argument; every failure path falls back to the built-in block letters.

use vstd::prelude::*;

verus! {

/// How the welcome text is rendered.
#[derive(Clone, Copy, PartialEq, Eq, Structural, Debug)]
pub enum WelcomeStyle {
    /// Plain text, unchanged.
    Simple,
    /// Block letters from the built-in patterns.
    Ascii,
    /// Styled output from the external logo tool.
    Enhanced,
}

/// Who produces the rendering.
#[derive(Clone, Copy, PartialEq, Eq, Structural, Debug)]
pub enum WelcomeProvider {
    /// The built-in block letters.
    Builtin,
    /// The external logo tool.
    OhMyLogo,
}

impl Default for WelcomeProvider {
    fn default() -> (r: Self)
        ensures
            r == WelcomeProvider::Builtin,
    {
        WelcomeProvider::Builtin
    }
}

impl Default for WelcomeStyle {
    fn default() -> (r: Self)
        ensures
            r == WelcomeStyle::Simple,
    {
        WelcomeStyle::Simple
    }
}

/// What the welcome text is and how to render it.
pub struct WelcomeMessageConfig {
    pub text: String,
    pub style: WelcomeStyle,
    pub provider: WelcomeProvider,
}

/// The five-row block-letter pattern of one character: letters have fixed
/// patterns, a space is a blank column block, and any other character is
/// shown as itself with one space on either side.
pub open spec fn char_art(c: char) -> Seq<Seq<char>> {
    match c {
        'A' | 'a' => seq!["  ##  "@, " #  # "@, "######"@, "#    #"@, "#    #"@],
        'B' | 'b' => seq!["##### "@, "#    #"@, "##### "@, "#    #"@, "##### "@],
        'C' | 'c' => seq![" ####"@, "#    "@, "#    "@, "#    "@, " ####"@],
        'D' | 'd' => seq!["#### "@, "#   #"@, "#   #"@, "#   #"@, "#### "@],
        'E' | 'e' => seq!["#####"@, "#    "@, "#### "@, "#    "@, "#####"@],
        'F' | 'f' => seq!["#####"@, "#    "@, "#### "@, "#    "@, "#    "@],
        'G' | 'g' => seq![" ####"@, "#    "@, "# ###"@, "#   #"@, " ####"@],
        'H' | 'h' => seq!["#   #"@, "#   #"@, "#####"@, "#   #"@, "#   #"@],
        'I' | 'i' => seq!["###"@, " # "@, " # "@, " # "@, "###"@],
        'J' | 'j' => seq!["    #"@, "    #"@, "    #"@, "#   #"@, " ### "@],
        'K' | 'k' => seq!["#   #"@, "#  # "@, "###  "@, "#  # "@, "#   #"@],
        'L' | 'l' => seq!["#    "@, "#    "@, "#    "@, "#    "@, "#####"@],
        'M' | 'm' => seq!["#   #"@, "## ##"@, "# # #"@, "#   #"@, "#   #"@],
        'N' | 'n' => seq!["#   #"@, "##  #"@, "# # #"@, "#  ##"@, "#   #"@],
        'O' | 'o' => seq![" ### "@, "#   #"@, "#   #"@, "#   #"@, " ### "@],
        'P' | 'p' => seq!["#### "@, "#   #"@, "#### "@, "#    "@, "#    "@],
        'Q' | 'q' => seq![" ### "@, "#   #"@, "# # #"@, "#  ##"@, " ####"@],
        'R' | 'r' => seq!["#### "@, "#   #"@, "#### "@, "#   #"@, "#   #"@],
        'S' | 's' => seq![" ####"@, "#    "@, " ### "@, "    #"@, "#### "@],
        'T' | 't' => seq!["#####"@, "  #  "@, "  #  "@, "  #  "@, "  #  "@],
        'U' | 'u' => seq!["#   #"@, "#   #"@, "#   #"@, "#   #"@, " ### "@],
        'V' | 'v' => seq!["#   #"@, "#   #"@, "#   #"@, " # # "@, "  #  "@],
        'W' | 'w' => seq!["#   #"@, "#   #"@, "# # #"@, "## ##"@, "#   #"@],
        'X' | 'x' => seq!["#   #"@, " # # "@, "  #  "@, " # # "@, "#   #"@],
        'Y' | 'y' => seq!["#   #"@, " # # "@, "  #  "@, "  #  "@, "  #  "@],
        'Z' | 'z' => seq!["#####"@, "   # "@, "  #  "@, " #   "@, "#####"@],
        ' ' => seq!["   "@, "   "@, "   "@, "   "@, "   "@],
        _ => seq![
            seq![' ', c, ' '],
            seq![' ', c, ' '],
            seq![' ', c, ' '],
            seq![' ', c, ' '],
            seq![' ', c, ' '],
        ],
    }
}

/// Row `i` of the block rendering of `t`: the characters' art rows joined
/// left to right, two spaces after each one.
pub open spec fn art_row(t: Seq<char>, i: int) -> Seq<char>
    decreases t.len(),
{
    if t.len() == 0 {
        Seq::empty()
    } else {
        art_row(t.drop_last(), i) + char_art(t.last())[i] + "  "@
    }
}

/// The whole block rendering: at most the first six characters are drawn,
/// and the five rows are joined with newlines. An empty text is returned
/// unchanged.
pub open spec fn builtin_ascii(t: Seq<char>) -> Seq<char> {
    let d = if t.len() <= 6 {
        t
    } else {
        t.take(6)
    };
    if d.len() == 0 {
        t
    } else {
        art_row(d, 0) + "\n"@ + art_row(d, 1) + "\n"@ + art_row(d, 2) + "\n"@ + art_row(d, 3)
            + "\n"@ + art_row(d, 4)
    }
}

/// What the service produces when the external logo tool contributes
/// nothing: plain text for the simple style, block letters for every other
/// combination.
pub open spec fn welcome_message(t: Seq<char>, style: WelcomeStyle, provider: WelcomeProvider) -> Seq<
    char,
> {
    match style {
        WelcomeStyle::Simple => t,
        _ => builtin_ascii(t),
    }
}

/// Whether a text holds nothing but blanks (spaces, tabs, line breaks).
pub open spec fn blank_text(t: Seq<char>) -> bool {
    forall|i: int| 0 <= i < t.len() ==> is_blank_char(#[trigger] t[i])
}

pub open spec fn is_blank_char(c: char) -> bool {
    c == ' ' || c == '\t' || c == '\n' || c == '\r'
}

fn char_art_exec(c: char) -> (r: Vec<String>)
    ensures
        r@.len() == 5,
        forall|i: int| 0 <= i < 5 ==> (#[trigger] r@[i])@ == char_art(c)[i],
{
    let r: Vec<String> = match c {
        'A' | 'a' => vec![
            "  ##  ".to_owned(),
            " #  # ".to_owned(),
            "######".to_owned(),
            "#    #".to_owned(),
            "#    #".to_owned(),
        ],
        'B' | 'b' => vec![
            "##### ".to_owned(),
            "#    #".to_owned(),
            "##### ".to_owned(),
            "#    #".to_owned(),
            "##### ".to_owned(),
        ],
        'C' | 'c' => vec![
            " ####".to_owned(),
            "#    ".to_owned(),
            "#    ".to_owned(),
            "#    ".to_owned(),
            " ####".to_owned(),
        ],
        'D' | 'd' => vec![
            "#### ".to_owned(),
            "#   #".to_owned(),
            "#   #".to_owned(),
            "#   #".to_owned(),
            "#### ".to_owned(),
        ],
        'E' | 'e' => vec![
            "#####".to_owned(),
            "#    ".to_owned(),
            "#### ".to_owned(),
            "#    ".to_owned(),
            "#####".to_owned(),
        ],
        'F' | 'f' => vec![
            "#####".to_owned(),
            "#    ".to_owned(),
            "#### ".to_owned(),
            "#    ".to_owned(),
            "#    ".to_owned(),
        ],
        'G' | 'g' => vec![
            " ####".to_owned(),
            "#    ".to_owned(),
            "# ###".to_owned(),
            "#   #".to_owned(),
            " ####".to_owned(),
        ],
        'H' | 'h' => vec![
            "#   #".to_owned(),
            "#   #".to_owned(),
            "#####".to_owned(),
            "#   #".to_owned(),
            "#   #".to_owned(),
        ],
        'I' | 'i' => vec![
            "###".to_owned(),
            " # ".to_owned(),
            " # ".to_owned(),
            " # ".to_owned(),
            "###".to_owned(),
        ],
        'J' | 'j' => vec![
            "    #".to_owned(),
            "    #".to_owned(),
            "    #".to_owned(),
            "#   #".to_owned(),
            " ### ".to_owned(),
        ],
        'K' | 'k' => vec![
            "#   #".to_owned(),
            "#  # ".to_owned(),
            "###  ".to_owned(),
            "#  # ".to_owned(),
            "#   #".to_owned(),
        ],
        'L' | 'l' => vec![
            "#    ".to_owned(),
            "#    ".to_owned(),
            "#    ".to_owned(),
            "#    ".to_owned(),
            "#####".to_owned(),
        ],
        'M' | 'm' => vec![
            "#   #".to_owned(),
            "## ##".to_owned(),
            "# # #".to_owned(),
            "#   #".to_owned(),
            "#   #".to_owned(),
        ],
        'N' | 'n' => vec![
            "#   #".to_owned(),
            "##  #".to_owned(),
            "# # #".to_owned(),
            "#  ##".to_owned(),
            "#   #".to_owned(),
        ],
        'O' | 'o' => vec![
            " ### ".to_owned(),
            "#   #".to_owned(),
            "#   #".to_owned(),
            "#   #".to_owned(),
            " ### ".to_owned(),
        ],
        'P' | 'p' => vec![
            "#### ".to_owned(),
            "#   #".to_owned(),
            "#### ".to_owned(),
            "#    ".to_owned(),
            "#    ".to_owned(),
        ],
        'Q' | 'q' => vec![
            " ### ".to_owned(),
            "#   #".to_owned(),
            "# # #".to_owned(),
            "#  ##".to_owned(),
            " ####".to_owned(),
        ],
        'R' | 'r' => vec![
            "#### ".to_owned(),
            "#   #".to_owned(),
            "#### ".to_owned(),
            "#   #".to_owned(),
            "#   #".to_owned(),
        ],
        'S' | 's' => vec![
            " ####".to_owned(),
            "#    ".to_owned(),
            " ### ".to_owned(),
            "    #".to_owned(),
            "#### ".to_owned(),
        ],
        'T' | 't' => vec![
            "#####".to_owned(),
            "  #  ".to_owned(),
            "  #  ".to_owned(),
            "  #  ".to_owned(),
            "  #  ".to_owned(),
        ],
        'U' | 'u' => vec![
            "#   #".to_owned(),
            "#   #".to_owned(),
            "#   #".to_owned(),
            "#   #".to_owned(),
            " ### ".to_owned(),
        ],
        'V' | 'v' => vec![
            "#   #".to_owned(),
            "#   #".to_owned(),
            "#   #".to_owned(),
            " # # ".to_owned(),
            "  #  ".to_owned(),
        ],
        'W' | 'w' => vec![
            "#   #".to_owned(),
            "#   #".to_owned(),
            "# # #".to_owned(),
            "## ##".to_owned(),
            "#   #".to_owned(),
        ],
        'X' | 'x' => vec![
            "#   #".to_owned(),
            " # # ".to_owned(),
            "  #  ".to_owned(),
            " # # ".to_owned(),
            "#   #".to_owned(),
        ],
        'Y' | 'y' => vec![
            "#   #".to_owned(),
            " # # ".to_owned(),
            "  #  ".to_owned(),
            "  #  ".to_owned(),
            "  #  ".to_owned(),
        ],
        'Z' | 'z' => vec![
            "#####".to_owned(),
            "   # ".to_owned(),
            "  #  ".to_owned(),
            " #   ".to_owned(),
            "#####".to_owned(),
        ],
        ' ' => vec![
            "   ".to_owned(),
            "   ".to_owned(),
            "   ".to_owned(),
            "   ".to_owned(),
            "   ".to_owned(),
        ],
        _ => {
            let mut rows: Vec<String> = Vec::new();
            let mut i: usize = 0;
            while i < 5
                invariant
                    i <= 5,
                    rows@.len() == i,
                    forall|j: int| 0 <= j < i ==> (#[trigger] rows@[j])@ == seq![' ', c, ' '],
                decreases 5 - i,
            {
                let mut s = String::new();
                crate::canvas::push_char(&mut s, ' ');
                crate::canvas::push_char(&mut s, c);
                crate::canvas::push_char(&mut s, ' ');
                proof {
                    assert(s@ =~= seq![' ', c, ' ']);
                }
                rows.push(s);
                i = i + 1;
            }
            rows
        },
    };
    r
}

/// The welcome-message generation service.
pub struct WelcomeMessageService;

impl WelcomeMessageService {
    /// The message the configuration asks for, rendered without the external
    /// logo tool: the simple style passes the text through, every other
    /// style/provider combination falls back to the built-in block letters.
    /// It never fails.
    pub fn generate_message(config: &WelcomeMessageConfig) -> (r: Result<String, String>)
        ensures
            r is Ok,
            r.unwrap()@ == welcome_message(config.text@, config.style, config.provider),
    {
        match config.style {
            WelcomeStyle::Simple => Ok(clone_string(&config.text)),
            _ => Self::generate_builtin_ascii(config.text.as_str()),
        }
    }

    /// Block letters from the built-in patterns: the first six characters of
    /// the text, each five rows tall, joined left to right with two spaces
    /// after each, the five rows joined by newlines. An empty text comes back
    /// unchanged. It never fails.
    pub fn generate_builtin_ascii(text: &str) -> (r: Result<String, String>)
        ensures
            r is Ok,
            r.unwrap()@ == builtin_ascii(text@),
    {
        let len = text.unicode_len();
        let dlen: usize = if len <= 6 {
            len
        } else {
            6
        };
        let ghost d = if text@.len() <= 6 {
            text@
        } else {
            text@.take(6)
        };
        if dlen == 0 {
            proof {
                assert(text@ =~= builtin_ascii(text@));
            }
            return Ok(text.to_owned());
        }
        let mut rows: Vec<String> = vec![
            String::new(),
            String::new(),
            String::new(),
            String::new(),
            String::new(),
        ];
        let mut k: usize = 0;
        while k < dlen
            invariant
                k <= dlen,
                dlen == d.len(),
                d == (if text@.len() <= 6 {
                    text@
                } else {
                    text@.take(6)
                }),
                dlen <= text@.len(),
                rows@.len() == 5,
                forall|i: int| 0 <= i < 5 ==> (#[trigger] rows@[i])@ == art_row(d.take(k as int), i),
            decreases dlen - k,
        {
            let c = text.get_char(k);
            proof {
                assert(d[k as int] == text@[k as int]);
            }
            let art = char_art_exec(c);
            let mut i: usize = 0;
            while i < 5
                invariant
                    i <= 5,
                    k < dlen,
                    dlen == d.len(),
                    rows@.len() == 5,
                    art@.len() == 5,
                    c == d[k as int],
                    forall|j: int| 0 <= j < 5 ==> (#[trigger] art@[j])@ == char_art(c)[j],
                    forall|j: int|
                        i <= j < 5 ==> (#[trigger] rows@[j])@ == art_row(d.take(k as int), j),
                    forall|j: int|
                        0 <= j < i ==> (#[trigger] rows@[j])@ == art_row(d.take(k + 1 as int), j),
                decreases 5 - i,
            {
                let row = &mut rows[i];
                row.append(art[i].as_str());
                row.append("  ");
                proof {
                    let prev = d.take(k as int);
                    let cur = d.take(k + 1 as int);
                    assert(cur.drop_last() =~= prev);
                    assert(cur.last() == c);
                    assert(rows@[i as int]@ =~= art_row(cur, i as int));
                }
                i = i + 1;
            }
            k = k + 1;
        }
        proof {
            assert(d.take(dlen as int) =~= d);
        }
        let mut out = clone_string(&rows[0]);
        out.append("\n");
        out.append(rows[1].as_str());
        out.append("\n");
        out.append(rows[2].as_str());
        out.append("\n");
        out.append(rows[3].as_str());
        out.append("\n");
        out.append(rows[4].as_str());
        proof {
            assert(out@ =~= builtin_ascii(text@));
        }
        Ok(out)
    }

    /// The filled rendering from the external logo tool: its output when it
    /// produced any non-blank text, and the built-in block letters otherwise.
    /// The caller runs the tool and hands its output in; `None` stands for a
    /// tool that is unavailable or failed. It never fails.
    pub fn generate_oh_my_logo(text: &str, tool_output: Option<String>) -> (r: Result<
        String,
        String,
    >)
        ensures
            r is Ok,
            r.unwrap()@ == match tool_output {
                Some(o) => if blank_text(o@) {
                    builtin_ascii(text@)
                } else {
                    o@
                },
                None => builtin_ascii(text@),
            },
    {
        match tool_output {
            Some(o) => {
                if is_blank(o.as_str()) {
                    Self::generate_builtin_ascii(text)
                } else {
                    Ok(o)
                }
            },
            None => Self::generate_builtin_ascii(text),
        }
    }

    /// The plain rendering from the external logo tool, with the same
    /// fallback rule as the filled one.
    pub fn generate_oh_my_logo_ascii(text: &str, tool_output: Option<String>) -> (r: Result<
        String,
        String,
    >)
        ensures
            r is Ok,
            r.unwrap()@ == match tool_output {
                Some(o) => if blank_text(o@) {
                    builtin_ascii(text@)
                } else {
                    o@
                },
                None => builtin_ascii(text@),
            },
    {
        Self::generate_oh_my_logo(text, tool_output)
    }
}

/// Whether the text holds nothing but blanks.
fn is_blank(s: &str) -> (r: bool)
    ensures
        r == blank_text(s@),
{
    let len = s.unicode_len();
    let mut i: usize = 0;
    while i < len
        invariant
            i <= len,
            len == s@.len(),
            forall|j: int| 0 <= j < i ==> is_blank_char(#[trigger] s@[j]),
        decreases len - i,
    {
        let c = s.get_char(i);
        if !(c == ' ' || c == '\t' || c == '\n' || c == '\r') {
            return false;
        }
        i = i + 1;
    }
    true
}

/// A copy of a string.
pub fn clone_string(s: &String) -> (r: String)
    ensures
        r@ == s@,
{
    s.as_str().to_owned()
}

} // verus!
